//! The micro-blog module: its records, the form-input check, and the
//! listing, insert and update statements over the `xi` table.

use vstd::prelude::*;

use crate::db::check_none;
use crate::list::List;
use crate::query::{binds_match, count_sql, opt_text, slice_sql, spec_conds, spec_count_sql, spec_slice_sql, BindValue};
use crate::text::{dec_i64, spec_dec_int, trim_seq, trim_string};

verus! {

/// A stored micro-post, in full.
pub struct Xi {
    pub id: i32,
    pub user_id: i32,
    pub user_name: String,
    pub title: String,
    pub body: String,
    pub html: Option<String>,
    pub i_public: i16,
    pub i_type: i16,
    pub i_category: i16,
    pub i_good: i16,
    pub url: Option<String>,
    pub tags: Option<String>,
    pub star: i32,
    pub good: i16,
    pub created_at: i64,
    pub updated_at: Option<i64>,
    pub good_at: Option<i64>,
    pub click: i32,
}

impl Xi {
    /// The stored micro-post as form input, for the edit page.
    pub fn input(self) -> (r: Input)
        ensures
            r.title == self.title,
            r.i_public == self.i_public,
            r.i_type == self.i_type,
            r.i_category == self.i_category,
            r.i_good == Some(self.i_good),
            r.url == self.url,
            r.tags == self.tags,
            r.body == self.body,
    {
        Input {
            title: self.title,
            i_public: self.i_public,
            i_type: self.i_type,
            i_category: self.i_category,
            i_good: Some(self.i_good),
            url: self.url,
            tags: self.tags,
            body: self.body,
        }
    }
}

/// What a micro-post form submits.
pub struct Input {
    pub title: String,
    pub i_public: i16,
    pub i_type: i16,
    pub i_category: i16,
    pub i_good: Option<i16>,
    pub url: Option<String>,
    pub tags: Option<String>,
    pub body: String,
}

impl Input {
    /// Checks a submitted micro-post form: the title is trimmed; title
    /// and body must be non-empty, each missing one earning its message;
    /// on success the optional fields collapse empty strings to `None`.
    pub fn check(&mut self) -> (r: Result<(), Vec<String>>)
        ensures
            final(self).title@ == trim_seq(old(self).title@),
            r is Ok <==> (trim_seq(old(self).title@).len() > 0 && old(self).body@.len() > 0),
            r matches Err(es) ==> es@.map_values(|s: String| s@) == crate::hu::check_errors(
                trim_seq(old(self).title@).len() == 0,
                old(self).body@.len() == 0,
            ),
            r is Err ==> final(self).url == old(self).url && final(self).tags == old(self).tags,
            r is Ok ==> final(self).url == crate::book::normalized(old(self).url),
            r is Ok ==> final(self).tags == crate::book::normalized(old(self).tags),
            final(self).body == old(self).body,
            final(self).i_public == old(self).i_public,
            final(self).i_type == old(self).i_type,
            final(self).i_category == old(self).i_category,
            final(self).i_good == old(self).i_good,
    {
        let mut error: Vec<String> = Vec::new();
        self.title = trim_string(&self.title);
        let t_bad = self.title.as_str().is_empty();
        let b_bad = self.body.as_str().is_empty();
        if t_bad {
            error.push("请输入标题".to_owned());
        }
        if b_bad {
            error.push("请输入正文".to_owned());
        }
        if !error.is_empty() {
            proof {
                assert(error@.map_values(|s: String| s@) =~= crate::hu::check_errors(
                    t_bad,
                    b_bad,
                ));
            }
            return Err(error);
        }
        let v = match &self.url {
            Some(s) => check_none(s),
            None => None,
        };
        self.url = v;
        let v = match &self.tags {
            Some(s) => check_none(s),
            None => None,
        };
        self.tags = v;
        Ok(())
    }
}

/// The listing projection of a micro-post row.
pub struct XiSimple {
    pub title: String,
    pub user_name: String,
    pub xi_id: i32,
    pub i_type: i16,
    pub i_category: i16,
    pub body: String,
    pub html: String,
    pub good: i16,
    pub url: Option<String>,
    pub i_public: i16,
    pub i_good: i16,
    pub created_at: i64,
}

/// Query-string parameters of the micro-blog search pages.
pub struct Search {
    pub page: Option<u32>,
    pub key: Option<String>,
    pub i_type: Option<i16>,
    pub user: Option<i16>,
}

impl Default for Search {
    /// First page, no key, no restriction.
    fn default() -> (r: Search)
        ensures
            r.page == Some(1u32),
            r.key is None,
            r.i_type is None,
            r.user is None,
    {
        Search { page: Some(1), key: None, i_type: None, user: None }
    }
}

/// Address of a micro-post's detail page.
pub fn view_url(id: i32) -> (r: String)
    ensures
        r@ == "/xi/view/"@ + spec_dec_int(id as int) + "/index.html"@,
{
    let mut s = String::new();
    s.append("/xi/view/");
    let d = dec_i64(id as i64);
    s.append(d.as_str());
    s.append("/index.html");
    s
}

/// The columns the micro-blog listing selects.
pub fn list_cols() -> (r: &'static str)
    ensures
        r@
            == "xi_id, title, user_name, body, html, i_public, i_type, i_category, good, created_at, url, i_good"@,
{
    "xi_id, title, user_name, body, html, i_public, i_type, i_category, good, created_at, url, i_good"
}

/// The two statements of a micro-blog listing: the count query and the
/// page query, with their bound values.
pub fn list_queries(list: &List) -> (r: ((String, Vec<BindValue>), (String, Vec<BindValue>)))
    requires
        list.wf(),
    ensures
        r.0.0@ == spec_count_sql("xi"@, *list),
        binds_match(r.0.1@, spec_conds(*list)),
        r.1.0@ == spec_slice_sql(
            "xi"@,
            "xi_id, title, user_name, body, html, i_public, i_type, i_category, good, created_at, url, i_good"@,
            "xi_id"@,
            *list,
        ),
        binds_match(r.1.1@, spec_conds(*list)),
{
    let count = count_sql("xi", list);
    let slice = slice_sql("xi", list_cols(), "xi_id", list);
    (count, slice)
}

impl Default for Input {
    /// An empty form.
    fn default() -> (r: Input)
        ensures
            r.title@.len() == 0,
            r.body@.len() == 0,
            r.i_public == 0i16,
            r.i_type == 0i16,
            r.i_category == 0i16,
            r.i_good is None,
            r.url is None,
            r.tags is None,
    {
        Input {
            title: String::new(),
            i_public: 0,
            i_type: 0,
            i_category: 0,
            i_good: None,
            url: None,
            tags: None,
            body: String::new(),
        }
    }
}

impl Input {
    /// The derived columns a micro-post insert or update stores: the body
    /// rendered to HTML, and the feature request defaulted to "none".
    pub fn rendered(&self) -> (r: (String, i16))
        ensures
            r.0@ == crate::md::html_of(self.body@),
            r.1 == (match self.i_good {
                Some(v) => v,
                None => 0i16,
            }),
    {
        let html = crate::md::to_html(self.body.as_str());
        let i_good = match self.i_good {
            Some(v) => v,
            None => 0,
        };
        (html, i_good)
    }
}

/// The insert statement of a new micro-post, with its bound values in
/// column order; the new row's id comes back.
pub fn insert_sql(user: &crate::user::SessUser, input: &Input, html: &String, i_good: i16) -> (r: (
    String,
    Vec<BindValue>,
))
    ensures
        r.0@
            == "insert into xi (user_id, user_name, title, body, html, i_category, i_public, url, tags, i_good, i_type) values ($1, $2, $3, $4, $5, $6, $7, $8, $9, $10, $11) returning xi_id"@,
        r.1@ == seq![
            BindValue::Int(user.id as i64),
            BindValue::Text(user.name),
            BindValue::Text(input.title),
            BindValue::Text(input.body),
            BindValue::Text(*html),
            BindValue::Int(input.i_category as i64),
            BindValue::Int(input.i_public as i64),
            BindValue::OptText(input.url),
            BindValue::OptText(input.tags),
            BindValue::Int(i_good as i64),
            BindValue::Int(input.i_type as i64),
        ],
{
    let mut s = String::new();
    s.append(
        "insert into xi (user_id, user_name, title, body, html, i_category, i_public, url, tags, i_good, i_type) values ($1, $2, $3, $4, $5, $6, $7, $8, $9, $10, $11) returning xi_id",
    );
    let mut binds: Vec<BindValue> = Vec::new();
    binds.push(BindValue::Int(user.id as i64));
    binds.push(BindValue::Text(user.name.clone()));
    binds.push(BindValue::Text(input.title.clone()));
    binds.push(BindValue::Text(input.body.clone()));
    binds.push(BindValue::Text(html.clone()));
    binds.push(BindValue::Int(input.i_category as i64));
    binds.push(BindValue::Int(input.i_public as i64));
    binds.push(opt_text(&input.url));
    binds.push(opt_text(&input.tags));
    binds.push(BindValue::Int(i_good as i64));
    binds.push(BindValue::Int(input.i_type as i64));
    proof {
        assert(binds@ =~= seq![
            BindValue::Int(user.id as i64),
            BindValue::Text(user.name),
            BindValue::Text(input.title),
            BindValue::Text(input.body),
            BindValue::Text(*html),
            BindValue::Int(input.i_category as i64),
            BindValue::Int(input.i_public as i64),
            BindValue::OptText(input.url),
            BindValue::OptText(input.tags),
            BindValue::Int(i_good as i64),
            BindValue::Int(input.i_type as i64),
        ]);
    }
    (s, binds)
}

/// The update statement of an edited micro-post, with its bound values;
/// the row id is the last placeholder.
pub fn update_sql(id: i32, input: &Input, html: &String, i_good: i16) -> (r: (
    String,
    Vec<BindValue>,
))
    ensures
        r.0@
            == "update xi set body=$1, html=$2, i_category=$3, i_public=$4, i_type=$5, url=$6, tags=$7, i_good=$8, title=$9 where xi_id=$10"@,
        r.1@ == seq![
            BindValue::Text(input.body),
            BindValue::Text(*html),
            BindValue::Int(input.i_category as i64),
            BindValue::Int(input.i_public as i64),
            BindValue::Int(input.i_type as i64),
            BindValue::OptText(input.url),
            BindValue::OptText(input.tags),
            BindValue::Int(i_good as i64),
            BindValue::Text(input.title),
            BindValue::Int(id as i64),
        ],
{
    let mut s = String::new();
    s.append(
        "update xi set body=$1, html=$2, i_category=$3, i_public=$4, i_type=$5, url=$6, tags=$7, i_good=$8, title=$9 where xi_id=$10",
    );
    let mut binds: Vec<BindValue> = Vec::new();
    binds.push(BindValue::Text(input.body.clone()));
    binds.push(BindValue::Text(html.clone()));
    binds.push(BindValue::Int(input.i_category as i64));
    binds.push(BindValue::Int(input.i_public as i64));
    binds.push(BindValue::Int(input.i_type as i64));
    binds.push(opt_text(&input.url));
    binds.push(opt_text(&input.tags));
    binds.push(BindValue::Int(i_good as i64));
    binds.push(BindValue::Text(input.title.clone()));
    binds.push(BindValue::Int(id as i64));
    proof {
        assert(binds@ =~= seq![
            BindValue::Text(input.body),
            BindValue::Text(*html),
            BindValue::Int(input.i_category as i64),
            BindValue::Int(input.i_public as i64),
            BindValue::Int(input.i_type as i64),
            BindValue::OptText(input.url),
            BindValue::OptText(input.tags),
            BindValue::Int(i_good as i64),
            BindValue::Text(input.title),
            BindValue::Int(id as i64),
        ]);
    }
    (s, binds)
}


/// The statement that fetches one full micro-post by id.
pub fn get_one_sql(id: i32) -> (r: (String, Vec<BindValue>))
    ensures
        r.0@
            == "select xi_id as id, title, user_id, user_name, body, html, i_category, i_type, i_public, i_good, star, url, tags, good, created_at, updated_at, good_at, click from xi where xi_id=$1"@,
        r.1@ == seq![BindValue::Int(id as i64)],
{
    let mut s = String::new();
    s.append(
        "select xi_id as id, title, user_id, user_name, body, html, i_category, i_type, i_public, i_good, star, url, tags, good, created_at, updated_at, good_at, click from xi where xi_id=$1",
    );
    let mut binds: Vec<BindValue> = Vec::new();
    binds.push(BindValue::Int(id as i64));
    proof {
        assert(binds@ =~= seq![BindValue::Int(id as i64)]);
    }
    (s, binds)
}

} // verus!
