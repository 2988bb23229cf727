//! The book-recommendation module: its records, the form-input check,
//! and the listing, insert and update statements over the `book` table.

use vstd::prelude::*;

use crate::db::check_none;
use crate::list::List;
use crate::query::{binds_match, count_sql, opt_text, slice_sql, spec_conds, spec_count_sql, spec_slice_sql, BindValue};
use crate::text::{dec_i64, spec_dec_int, trim_seq, trim_string};

verus! {

/// A stored book entry, in full.
pub struct Book {
    pub id: i32,
    pub user_id: i32,
    pub user_name: String,
    pub title: String,
    pub author: String,
    pub body: String,
    pub html: Option<String>,
    pub body2: Option<String>,
    pub html2: Option<String>,
    pub brief: Option<String>,
    pub brief_html: Option<String>,
    pub log: Option<String>,
    pub log_html: Option<String>,
    pub i_public: i16,
    pub i_type: i16,
    pub i_category: i16,
    pub i_good: i16,
    pub version: Option<String>,
    pub press: Option<String>,
    pub price: Option<String>,
    pub src: Option<String>,
    pub file: Option<String>,
    pub tags: Option<String>,
    pub url: Option<String>,
    pub star: i32,
    pub good: i16,
    pub created_at: i64,
    pub updated_at: Option<i64>,
    pub good_at: Option<i64>,
    pub click: i32,
}

impl Book {
    /// The stored entry as form input, for the edit page.
    pub fn to_edit(self) -> (r: Input)
        ensures
            r.title == self.title,
            r.author == self.author,
            r.i_public == self.i_public,
            r.i_type == self.i_type,
            r.i_category == self.i_category,
            r.i_good == Some(self.i_good),
            r.version == self.version,
            r.press == self.press,
            r.price == self.price,
            r.file == self.file,
            r.data is None,
            r.tags == self.tags,
            r.url == self.url,
            r.body == self.body,
            r.brief == self.brief,
            r.body2 == self.body2,
            r.log == self.log,
    {
        Input {
            title: self.title,
            author: self.author,
            i_public: self.i_public,
            i_type: self.i_type,
            i_category: self.i_category,
            i_good: Some(self.i_good),
            version: self.version,
            press: self.press,
            price: self.price,
            file: self.file,
            data: None,
            tags: self.tags,
            url: self.url,
            body: self.body,
            brief: self.brief,
            body2: self.body2,
            log: self.log,
        }
    }
}

/// What a book form submits.
pub struct Input {
    pub title: String,
    pub author: String,
    pub i_public: i16,
    pub i_type: i16,
    pub i_category: i16,
    pub i_good: Option<i16>,
    pub version: Option<String>,
    pub press: Option<String>,
    pub price: Option<String>,
    pub tags: Option<String>,
    pub url: Option<String>,
    pub body: String,
    pub body2: Option<String>,
    pub brief: Option<String>,
    pub log: Option<String>,
    pub file: Option<String>,
    pub data: Option<Vec<u8>>,
}

/// The validation messages a book form earns, in their fixed order.
pub open spec fn check_errors(t_bad: bool, a_bad: bool, b_bad: bool) -> Seq<Seq<char>> {
    (if t_bad {
        seq!["请输入标题"@]
    } else {
        Seq::<Seq<char>>::empty()
    }) + (if a_bad {
        seq!["请输入作者"@]
    } else {
        Seq::<Seq<char>>::empty()
    }) + (if b_bad {
        seq!["请输入详细介绍"@]
    } else {
        Seq::<Seq<char>>::empty()
    })
}

/// An optional field after normalization: an empty or absent value
/// becomes `None`, anything else is kept.
pub open spec fn normalized(v: Option<String>) -> Option<String> {
    match v {
        Some(s) => if s@.len() > 0 {
            Some(s)
        } else {
            None
        },
        None => None,
    }
}

impl Input {
    /// Checks a submitted book form: the title is trimmed; title, author
    /// and body must be non-empty, each missing one earning its message;
    /// on success the optional fields collapse empty strings to `None`.
    pub fn check(&mut self) -> (r: Result<(), Vec<String>>)
        ensures
            final(self).title@ == trim_seq(old(self).title@),
            r is Ok <==> (trim_seq(old(self).title@).len() > 0 && old(self).author@.len() > 0
                && old(self).body@.len() > 0),
            r matches Err(es) ==> es@.map_values(|s: String| s@) == check_errors(
                trim_seq(old(self).title@).len() == 0,
                old(self).author@.len() == 0,
                old(self).body@.len() == 0,
            ),
            r is Err ==> final(self).version == old(self).version && final(self).press == old(
                self,
            ).press && final(self).price == old(self).price && final(self).tags == old(self).tags
                && final(self).url == old(self).url && final(self).body2 == old(self).body2
                && final(self).brief == old(self).brief && final(self).log == old(self).log,
            r is Ok ==> final(self).version == normalized(old(self).version) && final(self).press
                == normalized(old(self).press) && final(self).price == normalized(
                old(self).price,
            ) && final(self).tags == normalized(old(self).tags) && final(self).url == normalized(
                old(self).url,
            ) && final(self).body2 == normalized(old(self).body2) && final(self).brief
                == normalized(old(self).brief) && final(self).log == normalized(old(self).log),
            final(self).author == old(self).author,
            final(self).body == old(self).body,
            final(self).i_public == old(self).i_public,
            final(self).i_type == old(self).i_type,
            final(self).i_category == old(self).i_category,
            final(self).i_good == old(self).i_good,
            final(self).file == old(self).file,
            final(self).data == old(self).data,
    {
        let mut error: Vec<String> = Vec::new();
        self.title = trim_string(&self.title);
        let t_bad = self.title.as_str().is_empty();
        let a_bad = self.author.as_str().is_empty();
        let b_bad = self.body.as_str().is_empty();
        if t_bad {
            error.push("请输入标题".to_owned());
        }
        if a_bad {
            error.push("请输入作者".to_owned());
        }
        if b_bad {
            error.push("请输入详细介绍".to_owned());
        }
        if !error.is_empty() {
            proof {
                assert(error@.map_values(|s: String| s@) =~= check_errors(t_bad, a_bad, b_bad));
            }
            return Err(error);
        }
        let v = match &self.version {
            Some(s) => check_none(s),
            None => None,
        };
        self.version = v;
        let v = match &self.press {
            Some(s) => check_none(s),
            None => None,
        };
        self.press = v;
        let v = match &self.price {
            Some(s) => check_none(s),
            None => None,
        };
        self.price = v;
        let v = match &self.tags {
            Some(s) => check_none(s),
            None => None,
        };
        self.tags = v;
        let v = match &self.url {
            Some(s) => check_none(s),
            None => None,
        };
        self.url = v;
        let v = match &self.body2 {
            Some(s) => check_none(s),
            None => None,
        };
        self.body2 = v;
        let v = match &self.brief {
            Some(s) => check_none(s),
            None => None,
        };
        self.brief = v;
        let v = match &self.log {
            Some(s) => check_none(s),
            None => None,
        };
        self.log = v;
        Ok(())
    }
}

/// The listing projection of a book row.
pub struct BookSimple {
    pub book_id: i32,
    pub title: String,
    pub user_name: String,
    pub i_type: i16,
    pub i_category: i16,
    pub good: i16,
    pub i_public: i16,
    pub i_good: i16,
    pub file: Option<String>,
    pub url: Option<String>,
    pub brief_html: Option<String>,
    pub created_at: i64,
}

/// Query-string parameters of the book search pages.
pub struct Search {
    pub page: Option<u32>,
    pub key: Option<String>,
    pub i_type: Option<i16>,
    pub user: Option<i16>,
}

impl Default for Search {
    /// First page, no key, no restriction.
    fn default() -> (r: Search)
        ensures
            r.page == Some(1u32),
            r.key is None,
            r.i_type is None,
            r.user is None,
    {
        Search { page: Some(1), key: None, i_type: None, user: None }
    }
}

/// Address of a book's detail page.
pub fn view_url(id: i32) -> (r: String)
    ensures
        r@ == "/book/view/"@ + spec_dec_int(id as int) + "/index.html"@,
{
    let mut s = String::new();
    s.append("/book/view/");
    let d = dec_i64(id as i64);
    s.append(d.as_str());
    s.append("/index.html");
    s
}

/// The columns the book listing selects.
pub fn list_cols() -> (r: &'static str)
    ensures
        r@
            == "book_id, title, i_public, i_type, i_category, good, created_at, user_name, file, brief_html, url, i_good"@,
{
    "book_id, title, i_public, i_type, i_category, good, created_at, user_name, file, brief_html, url, i_good"
}

/// The two statements of a book listing: the count query and the page
/// query, with their bound values.
pub fn list_queries(list: &List) -> (r: ((String, Vec<BindValue>), (String, Vec<BindValue>)))
    requires
        list.wf(),
    ensures
        r.0.0@ == spec_count_sql("book"@, *list),
        binds_match(r.0.1@, spec_conds(*list)),
        r.1.0@ == spec_slice_sql(
            "book"@,
            "book_id, title, i_public, i_type, i_category, good, created_at, user_name, file, brief_html, url, i_good"@,
            "book_id"@,
            *list,
        ),
        binds_match(r.1.1@, spec_conds(*list)),
{
    let count = count_sql("book", list);
    let slice = slice_sql("book", list_cols(), "book_id", list);
    (count, slice)
}

impl Default for Input {
    /// An empty form.
    fn default() -> (r: Input)
        ensures
            r.title@.len() == 0,
            r.author@.len() == 0,
            r.body@.len() == 0,
            r.i_public == 0i16,
            r.i_type == 0i16,
            r.i_category == 0i16,
            r.i_good is None,
            r.version is None,
            r.press is None,
            r.price is None,
            r.tags is None,
            r.url is None,
            r.body2 is None,
            r.brief is None,
            r.log is None,
            r.file is None,
            r.data is None,
    {
        Input {
            title: String::new(),
            author: String::new(),
            i_public: 0,
            i_type: 0,
            i_category: 0,
            i_good: None,
            version: None,
            press: None,
            price: None,
            tags: None,
            url: None,
            body: String::new(),
            body2: None,
            brief: None,
            log: None,
            file: None,
            data: None,
        }
    }
}

/// The derived columns a book insert or update stores alongside the
/// form fields: each markdown body rendered to HTML, and the feature
/// request defaulted to "none".
pub struct Rendered {
    pub html: String,
    pub html2: Option<String>,
    pub log_html: Option<String>,
    pub brief_html: Option<String>,
    pub i_good: i16,
}

impl Input {
    /// Renders the derived columns of this form.
    pub fn rendered(&self) -> (r: Rendered)
        ensures
            r.html@ == crate::md::html_of(self.body@),
            self.body2 matches Some(b) ==> (r.html2 matches Some(h) && h@ == crate::md::html_of(
                b@,
            )),
            self.body2 is None ==> r.html2 is None,
            self.log matches Some(b) ==> (r.log_html matches Some(h) && h@ == crate::md::html_of(
                b@,
            )),
            self.log is None ==> r.log_html is None,
            self.brief matches Some(b) ==> (r.brief_html matches Some(h) && h@
                == crate::md::html_of(b@)),
            self.brief is None ==> r.brief_html is None,
            r.i_good == (match self.i_good {
                Some(v) => v,
                None => 0i16,
            }),
    {
        let html = crate::md::to_html(self.body.as_str());
        let html2 = match &self.body2 {
            Some(b) => Some(crate::md::to_html(b.as_str())),
            None => None,
        };
        let log_html = match &self.log {
            Some(b) => Some(crate::md::to_html(b.as_str())),
            None => None,
        };
        let brief_html = match &self.brief {
            Some(b) => Some(crate::md::to_html(b.as_str())),
            None => None,
        };
        let i_good = match self.i_good {
            Some(v) => v,
            None => 0,
        };
        Rendered { html, html2, log_html, brief_html, i_good }
    }
}

/// The insert statement of a new book entry, with its bound values in
/// column order; the new row's id comes back.  The `src` column keeps
/// the file name the form carried (or nothing as an empty text), the
/// `file` column the name the upload was stored under.
pub fn insert_sql(user: &crate::user::SessUser, input: &Input, rd: &Rendered, new_file: &str) -> (r: (
    String,
    Vec<BindValue>,
))
    ensures
        r.0@
            == "insert into book (user_id, user_name, title, body, html, i_category, i_public, i_type, version, tags, body2, html2, log, log_html, i_good, brief, brief_html, price, src, file, author, press, url) values ($1, $2, $3, $4, $5, $6, $7, $8, $9, $10, $11, $12, $13, $14, $15, $16, $17, $18, $19, $20, $21, $22, $23) returning book_id"@,
        r.1@.len() == 23,
        r.1@.take(18) == seq![
            BindValue::Int(user.id as i64),
            BindValue::Text(user.name),
            BindValue::Text(input.title),
            BindValue::Text(input.body),
            BindValue::Text(rd.html),
            BindValue::Int(input.i_category as i64),
            BindValue::Int(input.i_public as i64),
            BindValue::Int(input.i_type as i64),
            BindValue::OptText(input.version),
            BindValue::OptText(input.tags),
            BindValue::OptText(input.body2),
            BindValue::OptText(rd.html2),
            BindValue::OptText(input.log),
            BindValue::OptText(rd.log_html),
            BindValue::Int(rd.i_good as i64),
            BindValue::OptText(input.brief),
            BindValue::OptText(rd.brief_html),
            BindValue::OptText(input.price),
        ],
        (r.1@[18] matches BindValue::Text(s) && s@ == (match input.file {
            Some(f) => f@,
            None => Seq::<char>::empty(),
        })),
        (r.1@[19] matches BindValue::Text(s) && s@ == new_file@),
        r.1@.skip(20) == seq![
            BindValue::Text(input.author),
            BindValue::OptText(input.press),
            BindValue::OptText(input.url),
        ],
{
    let mut s = String::new();
    s.append(
        "insert into book (user_id, user_name, title, body, html, i_category, i_public, i_type, version, tags, body2, html2, log, log_html, i_good, brief, brief_html, price, src, file, author, press, url) values ($1, $2, $3, $4, $5, $6, $7, $8, $9, $10, $11, $12, $13, $14, $15, $16, $17, $18, $19, $20, $21, $22, $23) returning book_id",
    );
    let mut binds: Vec<BindValue> = Vec::new();
    binds.push(BindValue::Int(user.id as i64));
    binds.push(BindValue::Text(user.name.clone()));
    binds.push(BindValue::Text(input.title.clone()));
    binds.push(BindValue::Text(input.body.clone()));
    binds.push(BindValue::Text(rd.html.clone()));
    binds.push(BindValue::Int(input.i_category as i64));
    binds.push(BindValue::Int(input.i_public as i64));
    binds.push(BindValue::Int(input.i_type as i64));
    binds.push(opt_text(&input.version));
    binds.push(opt_text(&input.tags));
    binds.push(opt_text(&input.body2));
    binds.push(opt_text(&rd.html2));
    binds.push(opt_text(&input.log));
    binds.push(opt_text(&rd.log_html));
    binds.push(BindValue::Int(rd.i_good as i64));
    binds.push(opt_text(&input.brief));
    binds.push(opt_text(&rd.brief_html));
    binds.push(opt_text(&input.price));
    let src_value = match &input.file {
        Some(f) => f.clone(),
        None => String::new(),
    };
    binds.push(BindValue::Text(src_value));
    binds.push(BindValue::Text(new_file.to_owned()));
    binds.push(BindValue::Text(input.author.clone()));
    binds.push(opt_text(&input.press));
    binds.push(opt_text(&input.url));
    proof {
        assert(binds@.take(18) =~= seq![
            BindValue::Int(user.id as i64),
            BindValue::Text(user.name),
            BindValue::Text(input.title),
            BindValue::Text(input.body),
            BindValue::Text(rd.html),
            BindValue::Int(input.i_category as i64),
            BindValue::Int(input.i_public as i64),
            BindValue::Int(input.i_type as i64),
            BindValue::OptText(input.version),
            BindValue::OptText(input.tags),
            BindValue::OptText(input.body2),
            BindValue::OptText(rd.html2),
            BindValue::OptText(input.log),
            BindValue::OptText(rd.log_html),
            BindValue::Int(rd.i_good as i64),
            BindValue::OptText(input.brief),
            BindValue::OptText(rd.brief_html),
            BindValue::OptText(input.price),
        ]);
        assert(binds@.skip(20) =~= seq![
            BindValue::Text(input.author),
            BindValue::OptText(input.press),
            BindValue::OptText(input.url),
        ]);
    }
    (s, binds)
}

/// The update statement of an edited book entry, with its bound values;
/// the `file` column is rewritten only when a new upload replaced it,
/// and the row id is the last placeholder.
pub fn update_sql(id: i32, input: &Input, rd: &Rendered, new_file: Option<&str>) -> (r: (
    String,
    Vec<BindValue>,
))
    ensures
        new_file is Some ==> r.0@
            == "update book set title=$1, body=$2, html=$3, i_category=$4, i_public=$5, i_type=$6, version=$7, tags=$8, body2=$9, html2=$10, log=$11, log_html=$12, i_good=$13, brief=$14, brief_html=$15, price=$16, file=$17, author=$18, press=$19, url=$20 where book_id=$21"@,
        new_file is None ==> r.0@
            == "update book set title=$1, body=$2, html=$3, i_category=$4, i_public=$5, i_type=$6, version=$7, tags=$8, body2=$9, html2=$10, log=$11, log_html=$12, i_good=$13, brief=$14, brief_html=$15, price=$16, author=$17, press=$18, url=$19 where book_id=$20"@,
        r.1@.take(16) == seq![
            BindValue::Text(input.title),
            BindValue::Text(input.body),
            BindValue::Text(rd.html),
            BindValue::Int(input.i_category as i64),
            BindValue::Int(input.i_public as i64),
            BindValue::Int(input.i_type as i64),
            BindValue::OptText(input.version),
            BindValue::OptText(input.tags),
            BindValue::OptText(input.body2),
            BindValue::OptText(rd.html2),
            BindValue::OptText(input.log),
            BindValue::OptText(rd.log_html),
            BindValue::Int(rd.i_good as i64),
            BindValue::OptText(input.brief),
            BindValue::OptText(rd.brief_html),
            BindValue::OptText(input.price),
        ],
        new_file matches Some(f) ==> (r.1@.len() == 21 && (r.1@[16] matches BindValue::Text(s)
            && s@ == f@) && r.1@.skip(17) == seq![
            BindValue::Text(input.author),
            BindValue::OptText(input.press),
            BindValue::OptText(input.url),
            BindValue::Int(id as i64),
        ]),
        new_file is None ==> (r.1@.len() == 20 && r.1@.skip(16) == seq![
            BindValue::Text(input.author),
            BindValue::OptText(input.press),
            BindValue::OptText(input.url),
            BindValue::Int(id as i64),
        ]),
{
    let mut s = String::new();
    let mut binds: Vec<BindValue> = Vec::new();
    binds.push(BindValue::Text(input.title.clone()));
    binds.push(BindValue::Text(input.body.clone()));
    binds.push(BindValue::Text(rd.html.clone()));
    binds.push(BindValue::Int(input.i_category as i64));
    binds.push(BindValue::Int(input.i_public as i64));
    binds.push(BindValue::Int(input.i_type as i64));
    binds.push(opt_text(&input.version));
    binds.push(opt_text(&input.tags));
    binds.push(opt_text(&input.body2));
    binds.push(opt_text(&rd.html2));
    binds.push(opt_text(&input.log));
    binds.push(opt_text(&rd.log_html));
    binds.push(BindValue::Int(rd.i_good as i64));
    binds.push(opt_text(&input.brief));
    binds.push(opt_text(&rd.brief_html));
    binds.push(opt_text(&input.price));
    let ghost common = seq![
        BindValue::Text(input.title),
        BindValue::Text(input.body),
        BindValue::Text(rd.html),
        BindValue::Int(input.i_category as i64),
        BindValue::Int(input.i_public as i64),
        BindValue::Int(input.i_type as i64),
        BindValue::OptText(input.version),
        BindValue::OptText(input.tags),
        BindValue::OptText(input.body2),
        BindValue::OptText(rd.html2),
        BindValue::OptText(input.log),
        BindValue::OptText(rd.log_html),
        BindValue::Int(rd.i_good as i64),
        BindValue::OptText(input.brief),
        BindValue::OptText(rd.brief_html),
        BindValue::OptText(input.price),
    ];
    proof {
        assert(binds@ =~= common);
    }
    match new_file {
        Some(f) => {
            s.append(
                "update book set title=$1, body=$2, html=$3, i_category=$4, i_public=$5, i_type=$6, version=$7, tags=$8, body2=$9, html2=$10, log=$11, log_html=$12, i_good=$13, brief=$14, brief_html=$15, price=$16, file=$17, author=$18, press=$19, url=$20 where book_id=$21",
            );
            binds.push(BindValue::Text(f.to_owned()));
        },
        None => {
            s.append(
                "update book set title=$1, body=$2, html=$3, i_category=$4, i_public=$5, i_type=$6, version=$7, tags=$8, body2=$9, html2=$10, log=$11, log_html=$12, i_good=$13, brief=$14, brief_html=$15, price=$16, author=$17, press=$18, url=$19 where book_id=$20",
            );
        },
    }
    binds.push(BindValue::Text(input.author.clone()));
    binds.push(opt_text(&input.press));
    binds.push(opt_text(&input.url));
    binds.push(BindValue::Int(id as i64));
    proof {
        assert(binds@.take(16) =~= common);
        if new_file is Some {
            assert(binds@.skip(17) =~= seq![
                BindValue::Text(input.author),
                BindValue::OptText(input.press),
                BindValue::OptText(input.url),
                BindValue::Int(id as i64),
            ]);
        } else {
            assert(binds@.skip(16) =~= seq![
                BindValue::Text(input.author),
                BindValue::OptText(input.press),
                BindValue::OptText(input.url),
                BindValue::Int(id as i64),
            ]);
        }
    }
    (s, binds)
}


/// The statement that fetches one full book entry by id.
pub fn get_one_sql(id: i32) -> (r: (String, Vec<BindValue>))
    ensures
        r.0@
            == "select book_id as id, user_id, user_name, title, author, body, html, body2, html2, log, log_html, brief, brief_html, i_category, i_type, i_public, i_good, star, version, tags, good, created_at, updated_at, good_at, click, price, src, file, press, url from book where book_id=$1"@,
        r.1@ == seq![BindValue::Int(id as i64)],
{
    let mut s = String::new();
    s.append(
        "select book_id as id, user_id, user_name, title, author, body, html, body2, html2, log, log_html, brief, brief_html, i_category, i_type, i_public, i_good, star, version, tags, good, created_at, updated_at, good_at, click, price, src, file, press, url from book where book_id=$1",
    );
    let mut binds: Vec<BindValue> = Vec::new();
    binds.push(BindValue::Int(id as i64));
    proof {
        assert(binds@ =~= seq![BindValue::Int(id as i64)]);
    }
    (s, binds)
}

} // verus!
