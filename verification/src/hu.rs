//! The article module: its records, the form-input check, and the
//! listing, insert and update statements over the `hu` table.

use vstd::prelude::*;

use crate::db::check_none;
use crate::list::List;
use crate::query::{binds_match, count_sql, opt_text, slice_sql, spec_conds, spec_count_sql, spec_slice_sql, BindValue};
use crate::text::{dec_i64, spec_dec_int, trim_seq, trim_string};

verus! {

/// A stored article, in full.
pub struct Hu {
    pub id: i32,
    pub user_id: i32,
    pub user_name: String,
    pub title: String,
    pub body: String,
    pub html: Option<String>,
    pub body2: Option<String>,
    pub html2: Option<String>,
    pub brief: Option<String>,
    pub brief_html: Option<String>,
    pub log: Option<String>,
    pub log_html: Option<String>,
    pub i_public: i16,
    pub i_type: i16,
    pub i_category: i16,
    pub i_good: i16,
    pub url: Option<String>,
    pub tags: Option<String>,
    pub star: i32,
    pub good: i16,
    pub created_at: i64,
    pub updated_at: Option<i64>,
    pub good_at: Option<i64>,
    pub click: i32,
}

impl Hu {
    /// The stored article as form input, for the edit page.
    pub fn to_edit(self) -> (r: Input)
        ensures
            r.title == self.title,
            r.i_public == self.i_public,
            r.i_type == self.i_type,
            r.i_category == self.i_category,
            r.i_good == Some(self.i_good),
            r.url == self.url,
            r.tags == self.tags,
            r.body == self.body,
            r.brief == self.brief,
            r.body2 == self.body2,
            r.log == self.log,
    {
        Input {
            title: self.title,
            i_public: self.i_public,
            i_type: self.i_type,
            i_category: self.i_category,
            i_good: Some(self.i_good),
            url: self.url,
            tags: self.tags,
            body: self.body,
            brief: self.brief,
            body2: self.body2,
            log: self.log,
        }
    }
}

/// What an article form submits.
pub struct Input {
    pub title: String,
    pub i_public: i16,
    pub i_type: i16,
    pub i_category: i16,
    pub i_good: Option<i16>,
    pub url: Option<String>,
    pub tags: Option<String>,
    pub body: String,
    pub body2: Option<String>,
    pub brief: Option<String>,
    pub log: Option<String>,
}

/// The validation messages an article form earns, in their fixed order.
pub open spec fn check_errors(t_bad: bool, b_bad: bool) -> Seq<Seq<char>> {
    (if t_bad {
        seq!["请输入标题"@]
    } else {
        Seq::<Seq<char>>::empty()
    }) + (if b_bad {
        seq!["请输入正文"@]
    } else {
        Seq::<Seq<char>>::empty()
    })
}

impl Input {
    /// Checks a submitted article form: the title is trimmed; title and
    /// body must be non-empty, each missing one earning its message; on
    /// success the optional fields collapse empty strings to `None`.
    pub fn check(&mut self) -> (r: Result<(), Vec<String>>)
        ensures
            final(self).title@ == trim_seq(old(self).title@),
            r is Ok <==> (trim_seq(old(self).title@).len() > 0 && old(self).body@.len() > 0),
            r matches Err(es) ==> es@.map_values(|s: String| s@) == check_errors(
                trim_seq(old(self).title@).len() == 0,
                old(self).body@.len() == 0,
            ),
            r is Err ==> final(self).url == old(self).url && final(self).tags == old(self).tags
                && final(self).body2 == old(self).body2 && final(self).brief == old(self).brief
                && final(self).log == old(self).log,
            r is Ok ==> final(self).url == crate::book::normalized(old(self).url),
            r is Ok ==> final(self).tags == crate::book::normalized(old(self).tags),
            r is Ok ==> final(self).body2 == crate::book::normalized(old(self).body2),
            r is Ok ==> final(self).brief == crate::book::normalized(old(self).brief),
            r is Ok ==> final(self).log == crate::book::normalized(old(self).log),
            final(self).body == old(self).body,
            final(self).i_public == old(self).i_public,
            final(self).i_type == old(self).i_type,
            final(self).i_category == old(self).i_category,
            final(self).i_good == old(self).i_good,
    {
        let mut error: Vec<String> = Vec::new();
        self.title = trim_string(&self.title);
        let t_bad = self.title.as_str().is_empty();
        let b_bad = self.body.as_str().is_empty();
        if t_bad {
            error.push("请输入标题".to_owned());
        }
        if b_bad {
            error.push("请输入正文".to_owned());
        }
        if !error.is_empty() {
            proof {
                assert(error@.map_values(|s: String| s@) =~= check_errors(t_bad, b_bad));
            }
            return Err(error);
        }
        let v = match &self.url {
            Some(s) => check_none(s),
            None => None,
        };
        self.url = v;
        let v = match &self.tags {
            Some(s) => check_none(s),
            None => None,
        };
        self.tags = v;
        let v = match &self.body2 {
            Some(s) => check_none(s),
            None => None,
        };
        self.body2 = v;
        let v = match &self.brief {
            Some(s) => check_none(s),
            None => None,
        };
        self.brief = v;
        let v = match &self.log {
            Some(s) => check_none(s),
            None => None,
        };
        self.log = v;
        Ok(())
    }
}

/// The listing projection of an article row.
pub struct HuSimple {
    pub hu_id: i32,
    pub title: String,
    pub brief: Option<String>,
    pub user_name: String,
    pub i_type: i16,
    pub i_category: i16,
    pub good: i16,
    pub i_public: i16,
    pub i_good: i16,
    pub url: Option<String>,
    pub created_at: i64,
}

/// Query-string parameters of the article search pages.
pub struct Search {
    pub page: Option<u32>,
    pub key: Option<String>,
    pub i_type: Option<i16>,
    pub user: Option<i16>,
}

impl Default for Search {
    /// First page, no key, no restriction.
    fn default() -> (r: Search)
        ensures
            r.page == Some(1u32),
            r.key is None,
            r.i_type is None,
            r.user is None,
    {
        Search { page: Some(1), key: None, i_type: None, user: None }
    }
}

/// Address of an article's detail page.
pub fn view_url(id: i32) -> (r: String)
    ensures
        r@ == "/hu/view/"@ + spec_dec_int(id as int) + "/index.html"@,
{
    let mut s = String::new();
    s.append("/hu/view/");
    let d = dec_i64(id as i64);
    s.append(d.as_str());
    s.append("/index.html");
    s
}

/// The columns the article listing selects.
pub fn list_cols() -> (r: &'static str)
    ensures
        r@
            == "hu_id, title, i_public, i_type, i_category, good, created_at, user_name, brief, url, i_good"@,
{
    "hu_id, title, i_public, i_type, i_category, good, created_at, user_name, brief, url, i_good"
}

/// The two statements of an article listing: the count query and the
/// page query, with their bound values.
pub fn list_queries(list: &List) -> (r: ((String, Vec<BindValue>), (String, Vec<BindValue>)))
    requires
        list.wf(),
    ensures
        r.0.0@ == spec_count_sql("hu"@, *list),
        binds_match(r.0.1@, spec_conds(*list)),
        r.1.0@ == spec_slice_sql(
            "hu"@,
            "hu_id, title, i_public, i_type, i_category, good, created_at, user_name, brief, url, i_good"@,
            "hu_id"@,
            *list,
        ),
        binds_match(r.1.1@, spec_conds(*list)),
{
    let count = count_sql("hu", list);
    let slice = slice_sql("hu", list_cols(), "hu_id", list);
    (count, slice)
}

impl Default for Input {
    /// An empty form.
    fn default() -> (r: Input)
        ensures
            r.title@.len() == 0,
            r.body@.len() == 0,
            r.i_public == 0i16,
            r.i_type == 0i16,
            r.i_category == 0i16,
            r.i_good is None,
            r.url is None,
            r.tags is None,
            r.body2 is None,
            r.brief is None,
            r.log is None,
    {
        Input {
            title: String::new(),
            i_public: 0,
            i_type: 0,
            i_category: 0,
            i_good: None,
            url: None,
            tags: None,
            body: String::new(),
            body2: None,
            brief: None,
            log: None,
        }
    }
}

/// The derived columns an article insert or update stores alongside the
/// form fields: each markdown body rendered to HTML, and the feature
/// request defaulted to "none".
pub struct Rendered {
    pub html: String,
    pub html2: Option<String>,
    pub log_html: Option<String>,
    pub brief_html: Option<String>,
    pub i_good: i16,
}

impl Input {
    /// Renders the derived columns of this form.
    pub fn rendered(&self) -> (r: Rendered)
        ensures
            r.html@ == crate::md::html_of(self.body@),
            self.body2 matches Some(b) ==> (r.html2 matches Some(h) && h@ == crate::md::html_of(
                b@,
            )),
            self.body2 is None ==> r.html2 is None,
            self.log matches Some(b) ==> (r.log_html matches Some(h) && h@ == crate::md::html_of(
                b@,
            )),
            self.log is None ==> r.log_html is None,
            self.brief matches Some(b) ==> (r.brief_html matches Some(h) && h@
                == crate::md::html_of(b@)),
            self.brief is None ==> r.brief_html is None,
            r.i_good == (match self.i_good {
                Some(v) => v,
                None => 0i16,
            }),
    {
        let html = crate::md::to_html(self.body.as_str());
        let html2 = match &self.body2 {
            Some(b) => Some(crate::md::to_html(b.as_str())),
            None => None,
        };
        let log_html = match &self.log {
            Some(b) => Some(crate::md::to_html(b.as_str())),
            None => None,
        };
        let brief_html = match &self.brief {
            Some(b) => Some(crate::md::to_html(b.as_str())),
            None => None,
        };
        let i_good = match self.i_good {
            Some(v) => v,
            None => 0,
        };
        Rendered { html, html2, log_html, brief_html, i_good }
    }
}

/// The insert statement of a new article, with its bound values in
/// column order; the new row's id comes back.
pub fn insert_sql(user: &crate::user::SessUser, input: &Input, rd: &Rendered) -> (r: (
    String,
    Vec<BindValue>,
))
    ensures
        r.0@
            == "insert into hu (user_id, user_name, title, body, html, i_category, i_public, i_type, url, tags, body2, html2, log, log_html, i_good, brief, brief_html) values ($1, $2, $3, $4, $5, $6, $7, $8, $9, $10, $11, $12, $13, $14, $15, $16, $17) returning hu_id"@,
        r.1@ == seq![
            BindValue::Int(user.id as i64),
            BindValue::Text(user.name),
            BindValue::Text(input.title),
            BindValue::Text(input.body),
            BindValue::Text(rd.html),
            BindValue::Int(input.i_category as i64),
            BindValue::Int(input.i_public as i64),
            BindValue::Int(input.i_type as i64),
            BindValue::OptText(input.url),
            BindValue::OptText(input.tags),
            BindValue::OptText(input.body2),
            BindValue::OptText(rd.html2),
            BindValue::OptText(input.log),
            BindValue::OptText(rd.log_html),
            BindValue::Int(rd.i_good as i64),
            BindValue::OptText(input.brief),
            BindValue::OptText(rd.brief_html),
        ],
{
    let mut s = String::new();
    s.append(
        "insert into hu (user_id, user_name, title, body, html, i_category, i_public, i_type, url, tags, body2, html2, log, log_html, i_good, brief, brief_html) values ($1, $2, $3, $4, $5, $6, $7, $8, $9, $10, $11, $12, $13, $14, $15, $16, $17) returning hu_id",
    );
    let mut binds: Vec<BindValue> = Vec::new();
    binds.push(BindValue::Int(user.id as i64));
    binds.push(BindValue::Text(user.name.clone()));
    binds.push(BindValue::Text(input.title.clone()));
    binds.push(BindValue::Text(input.body.clone()));
    binds.push(BindValue::Text(rd.html.clone()));
    binds.push(BindValue::Int(input.i_category as i64));
    binds.push(BindValue::Int(input.i_public as i64));
    binds.push(BindValue::Int(input.i_type as i64));
    binds.push(opt_text(&input.url));
    binds.push(opt_text(&input.tags));
    binds.push(opt_text(&input.body2));
    binds.push(opt_text(&rd.html2));
    binds.push(opt_text(&input.log));
    binds.push(opt_text(&rd.log_html));
    binds.push(BindValue::Int(rd.i_good as i64));
    binds.push(opt_text(&input.brief));
    binds.push(opt_text(&rd.brief_html));
    proof {
        assert(binds@ =~= seq![
            BindValue::Int(user.id as i64),
            BindValue::Text(user.name),
            BindValue::Text(input.title),
            BindValue::Text(input.body),
            BindValue::Text(rd.html),
            BindValue::Int(input.i_category as i64),
            BindValue::Int(input.i_public as i64),
            BindValue::Int(input.i_type as i64),
            BindValue::OptText(input.url),
            BindValue::OptText(input.tags),
            BindValue::OptText(input.body2),
            BindValue::OptText(rd.html2),
            BindValue::OptText(input.log),
            BindValue::OptText(rd.log_html),
            BindValue::Int(rd.i_good as i64),
            BindValue::OptText(input.brief),
            BindValue::OptText(rd.brief_html),
        ]);
    }
    (s, binds)
}

/// The update statement of an edited article, with its bound values;
/// the row id is the last placeholder.
pub fn update_sql(id: i32, input: &Input, rd: &Rendered) -> (r: (String, Vec<BindValue>))
    ensures
        r.0@
            == "update hu set title=$1, body=$2, html=$3, i_category=$4, i_public=$5, i_type=$6, url=$7, tags=$8, body2=$9, html2=$10, log=$11, log_html=$12, i_good=$13, brief=$14, brief_html=$15 where hu_id=$16"@,
        r.1@ == seq![
            BindValue::Text(input.title),
            BindValue::Text(input.body),
            BindValue::Text(rd.html),
            BindValue::Int(input.i_category as i64),
            BindValue::Int(input.i_public as i64),
            BindValue::Int(input.i_type as i64),
            BindValue::OptText(input.url),
            BindValue::OptText(input.tags),
            BindValue::OptText(input.body2),
            BindValue::OptText(rd.html2),
            BindValue::OptText(input.log),
            BindValue::OptText(rd.log_html),
            BindValue::Int(rd.i_good as i64),
            BindValue::OptText(input.brief),
            BindValue::OptText(rd.brief_html),
            BindValue::Int(id as i64),
        ],
{
    let mut s = String::new();
    s.append(
        "update hu set title=$1, body=$2, html=$3, i_category=$4, i_public=$5, i_type=$6, url=$7, tags=$8, body2=$9, html2=$10, log=$11, log_html=$12, i_good=$13, brief=$14, brief_html=$15 where hu_id=$16",
    );
    let mut binds: Vec<BindValue> = Vec::new();
    binds.push(BindValue::Text(input.title.clone()));
    binds.push(BindValue::Text(input.body.clone()));
    binds.push(BindValue::Text(rd.html.clone()));
    binds.push(BindValue::Int(input.i_category as i64));
    binds.push(BindValue::Int(input.i_public as i64));
    binds.push(BindValue::Int(input.i_type as i64));
    binds.push(opt_text(&input.url));
    binds.push(opt_text(&input.tags));
    binds.push(opt_text(&input.body2));
    binds.push(opt_text(&rd.html2));
    binds.push(opt_text(&input.log));
    binds.push(opt_text(&rd.log_html));
    binds.push(BindValue::Int(rd.i_good as i64));
    binds.push(opt_text(&input.brief));
    binds.push(opt_text(&rd.brief_html));
    binds.push(BindValue::Int(id as i64));
    proof {
        assert(binds@ =~= seq![
            BindValue::Text(input.title),
            BindValue::Text(input.body),
            BindValue::Text(rd.html),
            BindValue::Int(input.i_category as i64),
            BindValue::Int(input.i_public as i64),
            BindValue::Int(input.i_type as i64),
            BindValue::OptText(input.url),
            BindValue::OptText(input.tags),
            BindValue::OptText(input.body2),
            BindValue::OptText(rd.html2),
            BindValue::OptText(input.log),
            BindValue::OptText(rd.log_html),
            BindValue::Int(rd.i_good as i64),
            BindValue::OptText(input.brief),
            BindValue::OptText(rd.brief_html),
            BindValue::Int(id as i64),
        ]);
    }
    (s, binds)
}


/// The statement that fetches one full article by id.
pub fn get_one_sql(id: i32) -> (r: (String, Vec<BindValue>))
    ensures
        r.0@
            == "select hu_id as id, user_id, user_name, title, body, html, body2, html2, log, log_html, brief, brief_html, i_category, i_type, i_public, i_good, star, url, tags, good, created_at, updated_at, good_at, click from hu where hu_id=$1"@,
        r.1@ == seq![BindValue::Int(id as i64)],
{
    let mut s = String::new();
    s.append(
        "select hu_id as id, user_id, user_name, title, body, html, body2, html2, log, log_html, brief, brief_html, i_category, i_type, i_public, i_good, star, url, tags, good, created_at, updated_at, good_at, click from hu where hu_id=$1",
    );
    let mut binds: Vec<BindValue> = Vec::new();
    binds.push(BindValue::Int(id as i64));
    proof {
        assert(binds@ =~= seq![BindValue::Int(id as i64)]);
    }
    (s, binds)
}

} // verus!
