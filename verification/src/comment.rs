//! The comment module: its records, the form-input check, its
//! statements, and the rendered comment list.  Each content type keeps
//! its comments in a table of its own, named after it.

use vstd::prelude::*;

use crate::query::BindValue;
use crate::text::{dec_i64, spec_dec_int, url_encoded};
use crate::widget::{show_date, spec_civil_date, spec_clamp};

verus! {

/// A stored comment.
pub struct Comment {
    pub id: i32,
    pub user_id: i32,
    pub user_name: String,
    pub obj_id: i32,
    pub i_public: i16,
    pub body: String,
    pub html: Option<String>,
    pub created_at: i64,
    pub updated_at: Option<i64>,
}

impl Comment {
    /// The stored comment as form input, for the edit page.
    pub fn input(self) -> (r: Input)
        ensures
            r.id == Some(self.id),
            r.oid == Some(self.obj_id),
            r.url is None,
            r.body == self.body,
    {
        Input { id: Some(self.id), oid: Some(self.obj_id), url: None, body: self.body }
    }
}

/// What a comment form submits.
pub struct Input {
    pub id: Option<i32>,
    pub oid: Option<i32>,
    pub url: Option<String>,
    pub body: String,
}

impl Input {
    /// A comment needs a body; nothing else is checked.
    pub fn check(&self) -> (r: Result<(), Vec<String>>)
        ensures
            r is Ok <==> self.body@.len() > 0,
            r matches Err(es) ==> es@.len() == 1 && es@[0]@ == "请输入正文"@,
    {
        if self.body.as_str().is_empty() {
            let mut error: Vec<String> = Vec::new();
            error.push("请输入正文".to_owned());
            return Err(error);
        }
        Ok(())
    }
}

/// The statement that lists the visible comments of one object, oldest
/// first, with the object id as its bound value.  The table is the
/// content type's own comment table.
pub fn list_sql(ty: &str, id: i32) -> (r: (String, Vec<BindValue>))
    ensures
        r.0@ == "select * from "@ + ty@
            + "_comment where obj_id=$1 and i_public=1 order by id asc"@,
        r.1@.len() == 1,
        r.1@[0] == BindValue::Int(id as i64),
{
    let mut s = String::new();
    s.append("select * from ");
    s.append(ty);
    s.append("_comment where obj_id=$1 and i_public=1 order by id asc");
    let mut binds: Vec<BindValue> = Vec::new();
    binds.push(BindValue::Int(id as i64));
    (s, binds)
}

/// The insert statement of a new comment on one object, visible at
/// once; the new row's id comes back.
pub fn insert_sql(ty: &str, user_id: i32, user_name: &str, input: &Input, html: &String) -> (r: (
    String,
    Vec<BindValue>,
))
    ensures
        r.0@ == "insert into "@ + ty@
            + "_comment (user_id, user_name, obj_id, i_public, body, html) values ($1, $2, $3, 1, $4, $5) returning id"@,
        r.1@.len() == 5,
        r.1@[0] == BindValue::Int(user_id as i64),
        (r.1@[1] matches BindValue::Text(s) && s@ == user_name@),
        r.1@[2] == BindValue::OptInt(match input.oid {
            Some(o) => Some(o as i64),
            None => None,
        }),
        r.1@[3] == BindValue::Text(input.body),
        r.1@[4] == BindValue::Text(*html),
{
    let mut s = String::new();
    s.append("insert into ");
    s.append(ty);
    s.append(
        "_comment (user_id, user_name, obj_id, i_public, body, html) values ($1, $2, $3, 1, $4, $5) returning id",
    );
    let mut binds: Vec<BindValue> = Vec::new();
    binds.push(BindValue::Int(user_id as i64));
    binds.push(BindValue::Text(user_name.to_owned()));
    let oid = match input.oid {
        Some(o) => BindValue::OptInt(Some(o as i64)),
        None => BindValue::OptInt(None),
    };
    binds.push(oid);
    binds.push(BindValue::Text(input.body.clone()));
    binds.push(BindValue::Text(html.clone()));
    (s, binds)
}

/// The update statement of an edited comment.
pub fn update_sql(ty: &str, id: i32, input: &Input, html: &String) -> (r: (String, Vec<BindValue>))
    ensures
        r.0@ == "update "@ + ty@ + "_comment set body=$1, html=$2 where id=$3"@,
        r.1@.len() == 3,
        r.1@[0] == BindValue::Text(input.body),
        r.1@[1] == BindValue::Text(*html),
        r.1@[2] == BindValue::Int(id as i64),
{
    let mut s = String::new();
    s.append("update ");
    s.append(ty);
    s.append("_comment set body=$1, html=$2 where id=$3");
    let mut binds: Vec<BindValue> = Vec::new();
    binds.push(BindValue::Text(input.body.clone()));
    binds.push(BindValue::Text(html.clone()));
    binds.push(BindValue::Int(id as i64));
    (s, binds)
}

/// The delete statement of one comment.
pub fn rm_sql(ty: &str, id: i32) -> (r: (String, Vec<BindValue>))
    ensures
        r.0@ == "delete from "@ + ty@ + "_comment where id=$1"@,
        r.1@.len() == 1,
        r.1@[0] == BindValue::Int(id as i64),
{
    let mut s = String::new();
    s.append("delete from ");
    s.append(ty);
    s.append("_comment where id=$1");
    let mut binds: Vec<BindValue> = Vec::new();
    binds.push(BindValue::Int(id as i64));
    (s, binds)
}

/// The statement that hides a comment without deleting it.
pub fn hide_sql(ty: &str, id: i32) -> (r: (String, Vec<BindValue>))
    ensures
        r.0@ == "update "@ + ty@ + "_comment set i_public=0 where id=$1"@,
        r.1@.len() == 1,
        r.1@[0] == BindValue::Int(id as i64),
{
    let mut s = String::new();
    s.append("update ");
    s.append(ty);
    s.append("_comment set i_public=0 where id=$1");
    let mut binds: Vec<BindValue> = Vec::new();
    binds.push(BindValue::Int(id as i64));
    (s, binds)
}

/// One listed comment, fully decided: the author, a well-formed local
/// date, the pre-rendered body, and — for the page's owner — edit and
/// delete actions, the delete behind a confirm dialog.
pub struct CommentView {
    pub user_name: String,
    pub date: String,
    pub html: Option<String>,
    pub edit_url: Option<String>,
    pub rm_url: Option<String>,
}

/// The form below the comments: a post form for signed-in readers, or a
/// sign-in prompt that carries the way back.
pub enum CommentFormView {
    Post { action_url: String, hidden_url: String, oid: i32 },
    LoginPrompt { login_url: String },
}

/// A whole rendered comment list: the decided rows, the empty marker,
/// and the form.
pub struct CommentListView {
    pub empty: bool,
    pub comments: Vec<CommentView>,
    pub form: CommentFormView,
}

/// What one comment's view must hold, for content type `ty`, shown on
/// the page at `url`: the author, the comment's creation instant shown
/// as its local calendar date (shifted by at most the zone's
/// day-bounded offset), and management actions exactly for the page's
/// owner, carrying the percent-encoded way back.
pub open spec fn comment_row_ok(
    cv: CommentView,
    c: Comment,
    ty: Seq<char>,
    url: Seq<char>,
    admin: bool,
) -> bool {
    &&& cv.user_name == c.user_name
    &&& (exists|t: int|
        spec_clamp(c.created_at as int) - 86400 <= t <= spec_clamp(c.created_at as int) + 86400
            && cv.date@ == #[trigger] spec_civil_date(t))
    &&& cv.html == c.html
    &&& (cv.edit_url is Some <==> admin)
    &&& (cv.rm_url is Some <==> admin)
    &&& (admin ==> (cv.edit_url matches Some(u) && u@ == "/my/"@ + ty + "/comment/edit/"@
        + spec_dec_int(c.id as int) + "?url="@ + url_encoded(url) + "#start"@))
    &&& (admin ==> (cv.rm_url matches Some(u) && u@
        == "javascript:if(confirm('确实要删除吗?'))location='/my/"@ + ty + "/comment/rm/"@
        + spec_dec_int(c.id as int) + "?url="@ + url_encoded(url) + "'"@))
}

/// Renders the comment list of one object: every comment decided, the
/// empty marker set exactly when there is nothing to show, and the form
/// offered to signed-in readers or replaced by a sign-in prompt that
/// leads back to this page.
pub fn list_comment(
    data: Vec<Comment>,
    id: i32,
    url: &str,
    login: bool,
    admin: bool,
    ty: &str,
) -> (r: CommentListView)
    ensures
        r.empty <==> data@.len() == 0,
        r.comments@.len() == data@.len(),
        forall|i: int|
            0 <= i < data@.len() ==> comment_row_ok(
                #[trigger] r.comments@[i],
                data@[i],
                ty@,
                url@,
                admin,
            ),
        login ==> (r.form matches CommentFormView::Post { action_url, hidden_url, oid }
            && action_url@ == "/my/"@ + ty@ + "/comment/add"@ && hidden_url@ == url@ + "#start"@
            && oid == id),
        !login ==> (r.form matches CommentFormView::LoginPrompt { login_url } && login_url@
            == "/user/login?from="@ + url_encoded(url@)),
{
    let encoded = crate::text::encode_url(url);
    let mut comments: Vec<CommentView> = Vec::new();
    let mut i: usize = 0;
    while i < data.len()
        invariant
            encoded@ == url_encoded(url@),
            i <= data@.len(),
            comments@.len() == i,
            forall|k: int|
                0 <= k < i ==> comment_row_ok(#[trigger] comments@[k], data@[k], ty@, url@, admin),
        decreases data@.len() - i,
    {
        let c = &data[i];
        let ids = dec_i64(c.id as i64);
        let (edit_url, rm_url): (Option<String>, Option<String>) = if admin {
            let mut e = String::new();
            e.append("/my/");
            e.append(ty);
            e.append("/comment/edit/");
            e.append(ids.as_str());
            e.append("?url=");
            e.append(encoded.as_str());
            e.append("#start");
            let mut d = String::new();
            d.append("javascript:if(confirm('确实要删除吗?'))location='/my/");
            d.append(ty);
            d.append("/comment/rm/");
            d.append(ids.as_str());
            d.append("?url=");
            d.append(encoded.as_str());
            d.append("'");
            (Some(e), Some(d))
        } else {
            (None, None)
        };
        comments.push(CommentView {
            user_name: c.user_name.clone(),
            date: show_date(c.created_at),
            html: match &c.html {
                Some(h) => Some(h.clone()),
                None => None,
            },
            edit_url,
            rm_url,
        });
        i = i + 1;
    }
    let form: CommentFormView = if login {
        let mut action = String::new();
        action.append("/my/");
        action.append(ty);
        action.append("/comment/add");
        let mut hidden = String::new();
        hidden.append(url);
        hidden.append("#start");
        CommentFormView::Post { action_url: action, hidden_url: hidden, oid: id }
    } else {
        let mut login_url = String::new();
        login_url.append("/user/login?from=");
        login_url.append(encoded.as_str());
        CommentFormView::LoginPrompt { login_url }
    };
    let empty = comments.len() == 0;
    CommentListView { empty, comments, form }
}


/// The statement that fetches one comment by id.
pub fn get_one_sql(ty: &str, id: i32) -> (r: (String, Vec<BindValue>))
    ensures
        r.0@ == "select * from "@ + ty@ + "_comment where id=$1"@,
        r.1@.len() == 1,
        r.1@[0] == BindValue::Int(id as i64),
{
    let mut s = String::new();
    s.append("select * from ");
    s.append(ty);
    s.append("_comment where id=$1");
    let mut binds: Vec<BindValue> = Vec::new();
    binds.push(BindValue::Int(id as i64));
    (s, binds)
}

} // verus!
