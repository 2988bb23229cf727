//! The private-message module: its records, the form check, and its
//! statements: the inbox/outbox listings, the insert, the read and
//! hide marks, and the unread count.  Messages are listed newest first by
//! creation time and are never shared between boxes: each box shows only
//! rows still public on its side.

use vstd::prelude::*;

use crate::query::BindValue;
use crate::text::{dec_u64, ascii_lower_seq, ascii_lower_str, spec_dec, trim_seq, trim_string};

verus! {

/// A stored message; the id is the row's UUID in text form.
pub struct Message {
    pub id: String,
    pub user_id: i32,
    pub user_name: String,
    pub to_user_id: i32,
    pub to_user_name: String,
    pub i_type: i16,
    pub title: String,
    pub body: String,
    pub html: String,
    pub i_status: i16,
    pub in_public: i16,
    pub out_public: i16,
    pub created_at: i64,
    pub updated_at: Option<i64>,
}

/// The listing projection of a message row.
pub struct MessageSimple {
    pub id: String,
    pub title: String,
    pub i_status: i16,
    pub user_name: String,
    pub to_user_name: String,
    pub created_at: i64,
}

/// Row shape of the message count query.
pub struct DbTotal {
    pub total: i64,
}

/// Which box a listing shows, for which user.
#[derive(Clone)]
pub enum ListBy {
    UserInbox(i32),
    UserOutbox(i32),
}

impl ListBy {
    pub fn is_inbox(&self) -> (b: bool)
        ensures
            b == (self is UserInbox),
    {
        matches!(self, ListBy::UserInbox(_))
    }

    pub fn is_outbox(&self) -> (b: bool)
        ensures
            b == (self is UserOutbox),
    {
        matches!(self, ListBy::UserOutbox(_))
    }
}

/// Which box the message view shows.
pub enum ShowType {
    Inbox,
    Outbox,
}

/// Query-string parameters that pre-fill a new message.
pub struct SmArgs {
    pub to: Option<String>,
    pub title: Option<String>,
}

/// Query-string parameters of the message search page.
pub struct Search {
    pub page: Option<u32>,
    pub key: Option<String>,
    pub user: Option<i16>,
}

impl Default for Search {
    /// First page, no key, no restriction.
    fn default() -> (r: Search)
        ensures
            r.page == Some(1u32),
            r.key is None,
            r.user is None,
    {
        Search { page: Some(1), key: None, user: None }
    }
}

/// What the new-message form submits.
pub struct Input {
    pub title: String,
    pub to_user_name: String,
    pub body: String,
}

/// The messages a message form earns, in their fixed order.
pub open spec fn check_errors(to_empty: bool, to_unknown: bool, t_bad: bool, b_bad: bool) -> Seq<
    Seq<char>,
> {
    (if to_empty {
        seq!["请输入收信人"@]
    } else if to_unknown {
        seq!["收信人不存在，请重新输入"@]
    } else {
        Seq::<Seq<char>>::empty()
    }) + (if t_bad {
        seq!["请输入标题"@]
    } else {
        Seq::<Seq<char>>::empty()
    }) + (if b_bad {
        seq!["请输入正文"@]
    } else {
        Seq::<Seq<char>>::empty()
    })
}

impl Input {
    /// The recipient name as it will be looked up: trimmed.
    pub fn trimmed_to_name(&self) -> (r: String)
        ensures
            r@ == trim_seq(self.to_user_name@),
    {
        trim_string(&self.to_user_name)
    }

    /// Checks a new message.  The caller looks the trimmed recipient
    /// name up and passes the account id it found, if any; a missing
    /// recipient, title or body each earns its message, and success
    /// hands the recipient id back.
    pub fn check(&mut self, to_user: Option<i32>) -> (r: Result<i32, Vec<String>>)
        ensures
            final(self).title@ == trim_seq(old(self).title@),
            final(self).to_user_name@ == trim_seq(old(self).to_user_name@),
            final(self).body == old(self).body,
            r is Ok <==> (trim_seq(old(self).to_user_name@).len() > 0 && to_user is Some
                && trim_seq(old(self).title@).len() > 0 && old(self).body@.len() > 0),
            r matches Ok(id) ==> Some(id) == to_user,
            r matches Err(es) ==> es@.map_values(|s: String| s@) == check_errors(
                trim_seq(old(self).to_user_name@).len() == 0,
                trim_seq(old(self).to_user_name@).len() > 0 && to_user is None,
                trim_seq(old(self).title@).len() == 0,
                old(self).body@.len() == 0,
            ),
    {
        let mut error: Vec<String> = Vec::new();
        self.title = trim_string(&self.title);
        self.to_user_name = trim_string(&self.to_user_name);
        let mut to_user_id: i32 = 0;
        let mut to_ok = false;
        if self.to_user_name.as_str().is_empty() {
            error.push("请输入收信人".to_owned());
        } else {
            match to_user {
                Some(id) => {
                    to_user_id = id;
                    to_ok = true;
                },
                None => {
                    error.push("收信人不存在，请重新输入".to_owned());
                },
            }
        }
        if self.title.as_str().is_empty() {
            error.push("请输入标题".to_owned());
        }
        if self.body.as_str().is_empty() {
            error.push("请输入正文".to_owned());
        }
        if !error.is_empty() {
            proof {
                assert(error@.map_values(|s: String| s@) =~= check_errors(
                    trim_seq(old(self).to_user_name@).len() == 0,
                    trim_seq(old(self).to_user_name@).len() > 0 && to_user is None,
                    trim_seq(old(self).title@).len() == 0,
                    old(self).body@.len() == 0,
                ));
            }
            return Err(error);
        }
        Ok(to_user_id)
    }
}

/// The WHERE clause of a box listing: the box's owner and public flag,
/// and the title restriction when a search key is given.
pub open spec fn spec_msg_where(f: ListBy, has_key: bool) -> Seq<char> {
    (match f {
        ListBy::UserInbox(_) => "where to_user_id=$1 and in_public=1"@,
        ListBy::UserOutbox(_) => "where user_id=$1 and out_public=1"@,
    }) + (if has_key {
        " and lower(title) like $2"@
    } else {
        Seq::<char>::empty()
    })
}

/// The owner id a box listing binds.
pub open spec fn spec_msg_owner(f: ListBy) -> i64 {
    match f {
        ListBy::UserInbox(u) => u as i64,
        ListBy::UserOutbox(u) => u as i64,
    }
}

/// The two statements of a box listing: the count query and the page
/// query, newest first by creation time.  The owner id and, when given,
/// the case-folded search key in `%` wildcards are bound values.
pub fn list_queries(filter: &ListBy, key: Option<&str>, page: u32, size: u8) -> (r: (
    (String, Vec<BindValue>),
    (String, Vec<BindValue>),
))
    requires
        page >= 1,
        size >= 1,
    ensures
        r.0.0@ == "select count(*) as total from message "@ + spec_msg_where(
            *filter,
            key is Some,
        ) + ";"@,
        r.1.0@ == "select id, title, i_status, created_at, user_name, to_user_name from message "@
            + spec_msg_where(*filter, key is Some) + " order by created_at desc limit "@
            + spec_dec(size as int) + " offset "@ + spec_dec((size as int) * (page as int - 1))
            + ";"@,
        r.0.1@.len() == (if key is Some {
            2int
        } else {
            1int
        }),
        r.0.1@[0] == BindValue::Int(spec_msg_owner(*filter)),
        key matches Some(k) ==> (r.0.1@[1] matches BindValue::Text(s) && s@ == seq!['%']
            + ascii_lower_seq(k@) + seq!['%']),
        r.1.1@ == r.0.1@,
{
    proof {
        assert((size as int) * (page as int - 1) <= 255 * 0xFFFF_FFFFint) by (nonlinear_arith)
            requires
                size <= 255,
                1 <= page <= 0xFFFF_FFFFu32,
        ;
    }
    let offset: u64 = (size as u64) * (page as u64 - 1);
    let mut w = String::new();
    let mut binds: Vec<BindValue> = Vec::new();
    match filter {
        ListBy::UserInbox(u) => {
            w.append("where to_user_id=$1 and in_public=1");
            binds.push(BindValue::Int(*u as i64));
        },
        ListBy::UserOutbox(u) => {
            w.append("where user_id=$1 and out_public=1");
            binds.push(BindValue::Int(*u as i64));
        },
    }
    match key {
        Some(k) => {
            w.append(" and lower(title) like $2");
            let mut pat = String::new();
            pat.append("%");
            let low = ascii_lower_str(k);
            pat.append(low.as_str());
            pat.append("%");
            proof {
                reveal_strlit("%");
                assert(pat@ =~= seq!['%'] + ascii_lower_seq(k@) + seq!['%']);
            }
            binds.push(BindValue::Text(pat));
        },
        None => {},
    }
    let mut count = String::new();
    count.append("select count(*) as total from message ");
    count.append(w.as_str());
    count.append(";");
    let mut slice = String::new();
    slice.append("select id, title, i_status, created_at, user_name, to_user_name from message ");
    slice.append(w.as_str());
    slice.append(" order by created_at desc limit ");
    let lim = dec_u64(size as u64);
    slice.append(lim.as_str());
    slice.append(" offset ");
    let off = dec_u64(offset);
    slice.append(off.as_str());
    slice.append(";");
    let mut binds2: Vec<BindValue> = Vec::new();
    let n = binds.len();
    let mut i: usize = 0;
    while i < n
        invariant
            n == binds@.len(),
            i <= n,
            binds2@ == binds@.take(i as int),
        decreases n - i,
    {
        let b = match &binds[i] {
            BindValue::Int(x) => BindValue::Int(*x),
            BindValue::Text(s) => BindValue::Text(s.clone()),
            BindValue::OptInt(x) => BindValue::OptInt(*x),
            BindValue::OptText(s) => match s {
                Some(v) => BindValue::OptText(Some(v.clone())),
                None => BindValue::OptText(None),
            },
        };
        proof {
            assert(binds@.take(i + 1) =~= binds@.take(i as int).push(binds@[i as int]));
        }
        binds2.push(b);
        i = i + 1;
    }
    proof {
        assert(binds@.take(n as int) =~= binds@);
    }
    ((count, binds), (slice, binds2))
}

/// The insert statement of a new message, with its bound values in
/// column order; the new row's UUID comes back.
pub fn insert_sql(user_id: i32, from: &str, input: &Input, to_user_id: i32, html: &String) -> (r: (
    String,
    Vec<BindValue>,
))
    ensures
        r.0@
            == "insert into message (user_id, user_name, to_user_id, to_user_name, title, body, html) values ($1, $2, $3, $4, $5, $6, $7) returning id"@,
        r.1@.len() == 7,
        r.1@[0] == BindValue::Int(user_id as i64),
        (r.1@[1] matches BindValue::Text(s) && s@ == from@),
        r.1@[2] == BindValue::Int(to_user_id as i64),
        r.1@[3] == BindValue::Text(input.to_user_name),
        r.1@[4] == BindValue::Text(input.title),
        r.1@[5] == BindValue::Text(input.body),
        r.1@[6] == BindValue::Text(*html),
{
    let mut s = String::new();
    s.append(
        "insert into message (user_id, user_name, to_user_id, to_user_name, title, body, html) values ($1, $2, $3, $4, $5, $6, $7) returning id",
    );
    let mut binds: Vec<BindValue> = Vec::new();
    binds.push(BindValue::Int(user_id as i64));
    binds.push(BindValue::Text(from.to_owned()));
    binds.push(BindValue::Int(to_user_id as i64));
    binds.push(BindValue::Text(input.to_user_name.clone()));
    binds.push(BindValue::Text(input.title.clone()));
    binds.push(BindValue::Text(input.body.clone()));
    binds.push(BindValue::Text(html.clone()));
    (s, binds)
}

/// The statement that marks a message read.  The id is the row's UUID
/// in text form; the executor binds it as such.
pub fn set_read_sql(id: &str) -> (r: (String, Vec<BindValue>))
    ensures
        r.0@ == "update message set i_status=1 where id=$1"@,
        r.1@.len() == 1,
        (r.1@[0] matches BindValue::Text(s) && s@ == id@),
{
    let mut s = String::new();
    s.append("update message set i_status=1 where id=$1");
    let mut binds: Vec<BindValue> = Vec::new();
    binds.push(BindValue::Text(id.to_owned()));
    (s, binds)
}

/// The statement that takes a message out of the inbox.  Messages are
/// never deleted; the inbox side merely stops showing them.
pub fn hide_sql(id: &str) -> (r: (String, Vec<BindValue>))
    ensures
        r.0@ == "update message set in_public=0 where id=$1"@,
        r.1@.len() == 1,
        (r.1@[0] matches BindValue::Text(s) && s@ == id@),
{
    let mut s = String::new();
    s.append("update message set in_public=0 where id=$1");
    let mut binds: Vec<BindValue> = Vec::new();
    binds.push(BindValue::Text(id.to_owned()));
    (s, binds)
}

/// The statement that counts a user's unread inbox messages.
pub fn new_total_sql(user_id: i32) -> (r: (String, Vec<BindValue>))
    ensures
        r.0@
            == "select count(*) as total from message where in_public=1 and i_status=0 and to_user_id=$1"@,
        r.1@ == seq![BindValue::Int(user_id as i64)],
{
    let mut s = String::new();
    s.append(
        "select count(*) as total from message where in_public=1 and i_status=0 and to_user_id=$1",
    );
    let mut binds: Vec<BindValue> = Vec::new();
    binds.push(BindValue::Int(user_id as i64));
    proof {
        assert(binds@ =~= seq![BindValue::Int(user_id as i64)]);
    }
    (s, binds)
}


/// The statement that fetches one full message by its UUID, bound as
/// text for the executor to convert.
pub fn get_one_sql(id: &str) -> (r: (String, Vec<BindValue>))
    ensures
        r.0@
            == "select id, user_id, user_name, to_user_id, to_user_name, i_type, title, body, html, i_status, in_public, out_public, created_at, updated_at from message where id=$1"@,
        r.1@.len() == 1,
        (r.1@[0] matches BindValue::Text(s) && s@ == id@),
{
    let mut s = String::new();
    s.append(
        "select id, user_id, user_name, to_user_id, to_user_name, i_type, title, body, html, i_status, in_public, out_public, created_at, updated_at from message where id=$1",
    );
    let mut binds: Vec<BindValue> = Vec::new();
    binds.push(BindValue::Text(id.to_owned()));
    (s, binds)
}

} // verus!
