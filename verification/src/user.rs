//! The user module: accounts, session identity, roles, and the checks a
//! registration form goes through before an account is created.

use vstd::prelude::*;

use crate::query::BindValue;
use crate::text::{contains_seq, contains_str, dec_i64, parse_u16, spec_dec_int, spec_parse_u16, trim_seq, trim_string};

verus! {

/// An account row.
pub struct User {
    pub user_id: i32,
    pub name: String,
    pub email: String,
    pub password: String,
    pub i_role: i16,
}

/// The listing projection of an account row.
pub struct UserSimple {
    pub id: i32,
    pub name: String,
    pub email: String,
    pub i_role: i16,
}

/// A signed-in user, as the session stores it.
pub struct SessUser {
    pub id: i32,
    pub name: String,
    pub email: String,
    pub role: i16,
}

/// A pending password-reset request.
pub struct PwReq {
    pub created_at: i64,
    pub user_name: String,
    pub user_id: i32,
}

/// How an account is looked up.
pub enum By {
    Email(String),
    Name(String),
    Id(i32),
}

/// The ordinary member role.
pub const ROLE_NORMAL: i16 = 1;

/// The moderator role; this or above may feature rows and see drafts.
pub const ROLE_SUDO: i16 = 5;

/// Moderators and above.
pub fn is_sudo_role(user_role: i16) -> (b: bool)
    ensures
        b == (user_role >= ROLE_SUDO),
{
    user_role >= ROLE_SUDO
}

/// Which lookup a sign-in name asks for: an address if it holds `@`,
/// else a user name; either way trimmed.
pub fn login_by(name: &str) -> (r: By)
    ensures
        contains_seq(trim_seq(name@), "@"@) ==> (r matches By::Email(s) && s@ == trim_seq(
            name@,
        )),
        !contains_seq(trim_seq(name@), "@"@) ==> (r matches By::Name(s) && s@ == trim_seq(
            name@,
        )),
{
    let trimmed = trim_string(&name.to_owned());
    if contains_str(trimmed.as_str(), "@") {
        By::Email(trimmed)
    } else {
        By::Name(trimmed)
    }
}

/// The stored file name of a member's avatar thumbnail.
pub fn create_file_name(ext: &str, user_id: i32) -> (r: String)
    ensures
        r@ == "s-"@ + spec_dec_int(user_id as int) + "."@ + ext@,
{
    let mut s = String::new();
    s.append("s-");
    let ids = dec_i64(user_id as i64);
    s.append(ids.as_str());
    s.append(".");
    s.append(ext);
    s
}

/// What a registration form submits.
pub struct RegInput {
    pub name: String,
    pub email: String,
    pub password: String,
    pub password2: String,
    pub validate: String,
}

impl RegInput {
    /// Trims the four typed fields; the verification code is compared as
    /// entered.
    pub fn trim(&mut self)
        ensures
            final(self).name@ == trim_seq(old(self).name@),
            final(self).email@ == trim_seq(old(self).email@),
            final(self).password@ == trim_seq(old(self).password@),
            final(self).password2@ == trim_seq(old(self).password2@),
            final(self).validate == old(self).validate,
    {
        self.name = trim_string(&self.name);
        self.email = trim_string(&self.email);
        self.password = trim_string(&self.password);
        self.password2 = trim_string(&self.password2);
    }
}

/// Whether a string is shaped like a mail address, as the mail-address
/// pattern defines it: a fixed function of the string alone.
pub uninterp spec fn email_matched(s: Seq<char>) -> bool;

/// Relies on the regex crate: `Regex::new` on the fixed mail-address
/// pattern always compiles, and `is_match` is a fixed function of the
/// compiled pattern and the text.
#[verifier::external_body]
fn email_like(s: &str) -> (r: bool)
    ensures
        r == email_matched(s@),
{
    let email_regex = regex::Regex::new(
        r"^[a-zA-Z0-9.!#$%&'*+/=?^_`{|}~-]+@[a-zA-Z0-9](?:[a-zA-Z0-9-]{0,61}[a-zA-Z0-9])?(?:\.[a-zA-Z0-9](?:[a-zA-Z0-9-]{0,61}[a-zA-Z0-9])?)*$",
    ).unwrap();
    email_regex.is_match(s)
}

/// Does the entered verification code match the one the session holds?
pub open spec fn code_ok(validate: Seq<char>, sess: Option<u16>) -> bool {
    match spec_parse_u16(validate) {
        Some(v) => sess == Some(v),
        None => false,
    }
}

/// The messages a registration form earns, in their fixed order, after
/// trimming: the name must be present and free of `@`; the address
/// present and shaped like one; both passwords present; the code
/// present and matching the session's; and neither name nor address
/// already taken.
pub open spec fn reg_errors(
    old_in: RegInput,
    sess: Option<u16>,
    name_taken: bool,
    email_taken: bool,
) -> Seq<Seq<char>> {
    let n = trim_seq(old_in.name@);
    let e = trim_seq(old_in.email@);
    let p = trim_seq(old_in.password@);
    let p2 = trim_seq(old_in.password2@);
    let v = old_in.validate@;
    (if n.len() == 0 {
        seq!["请输入用户名"@]
    } else if contains_seq(n, "@"@) {
        seq!["用户名中不能包含字符 @"@]
    } else {
        Seq::<Seq<char>>::empty()
    }) + (if e.len() == 0 {
        seq!["请输入邮箱"@]
    } else if !email_matched(e) {
        seq!["邮箱格式错误"@]
    } else {
        Seq::<Seq<char>>::empty()
    }) + (if p.len() == 0 {
        seq!["请输入密码"@]
    } else {
        Seq::<Seq<char>>::empty()
    }) + (if p2.len() == 0 {
        seq!["请输入确认密码"@]
    } else {
        Seq::<Seq<char>>::empty()
    }) + (if v.len() == 0 {
        seq!["请输入验证码"@]
    } else if !code_ok(v, sess) {
        seq!["验证码错误"@]
    } else {
        Seq::<Seq<char>>::empty()
    }) + (if name_taken {
        seq!["用户名已被使用，请重新输入用户名"@]
    } else {
        Seq::<Seq<char>>::empty()
    }) + (if email_taken {
        seq!["邮箱已被使用，请重新输入邮箱"@]
    } else {
        Seq::<Seq<char>>::empty()
    })
}

/// Checks a registration form.  The caller supplies what only the
/// session and the store know: the session's verification code, and
/// whether the chosen name or address is already in use.  The form is
/// trimmed; success is exactly the absence of every message of
/// `reg_errors`.
#[verifier::spinoff_prover]
#[verifier::rlimit(100)]
pub fn reg_check(
    input: &mut RegInput,
    sess_code: Option<u16>,
    name_taken: bool,
    email_taken: bool,
) -> (r: Result<(), Vec<String>>)
    ensures
        final(input).name@ == trim_seq(old(input).name@),
        final(input).email@ == trim_seq(old(input).email@),
        final(input).password@ == trim_seq(old(input).password@),
        final(input).password2@ == trim_seq(old(input).password2@),
        final(input).validate == old(input).validate,
        r is Ok <==> reg_errors(*old(input), sess_code, name_taken, email_taken).len() == 0,
        r matches Err(es) ==> es@.map_values(|s: String| s@) == reg_errors(
            *old(input),
            sess_code,
            name_taken,
            email_taken,
        ),
{
    input.trim();
    let ghost n = trim_seq(old(input).name@);
    let ghost e = trim_seq(old(input).email@);
    let ghost p = trim_seq(old(input).password@);
    let ghost p2 = trim_seq(old(input).password2@);
    let ghost v = old(input).validate@;
    let mut error: Vec<String> = Vec::new();
    let ghost mut g = Seq::<Seq<char>>::empty();
    if input.name.as_str().is_empty() {
        error.push("请输入用户名".to_owned());
    } else if contains_str(input.name.as_str(), "@") {
        error.push("用户名中不能包含字符 @".to_owned());
    }
    proof {
        g = g + (if n.len() == 0 {
            seq!["请输入用户名"@]
        } else if contains_seq(n, "@"@) {
            seq!["用户名中不能包含字符 @"@]
        } else {
            Seq::<Seq<char>>::empty()
        });
    }
    if input.email.as_str().is_empty() {
        error.push("请输入邮箱".to_owned());
    } else if !email_like(input.email.as_str()) {
        error.push("邮箱格式错误".to_owned());
    }
    proof {
        g = g + (if e.len() == 0 {
            seq!["请输入邮箱"@]
        } else if !email_matched(e) {
            seq!["邮箱格式错误"@]
        } else {
            Seq::<Seq<char>>::empty()
        });
    }
    if input.password.as_str().is_empty() {
        error.push("请输入密码".to_owned());
    }
    proof {
        g = g + (if p.len() == 0 {
            seq!["请输入密码"@]
        } else {
            Seq::<Seq<char>>::empty()
        });
    }
    if input.password2.as_str().is_empty() {
        error.push("请输入确认密码".to_owned());
    }
    proof {
        g = g + (if p2.len() == 0 {
            seq!["请输入确认密码"@]
        } else {
            Seq::<Seq<char>>::empty()
        });
    }
    if input.validate.as_str().is_empty() {
        error.push("请输入验证码".to_owned());
    } else {
        let entered = parse_u16(input.validate.as_str());
        let good = match (entered, sess_code) {
            (Some(code), Some(sv)) => code == sv,
            _ => false,
        };
        if !good {
            error.push("验证码错误".to_owned());
        }
    }
    proof {
        g = g + (if v.len() == 0 {
            seq!["请输入验证码"@]
        } else if !code_ok(v, sess_code) {
            seq!["验证码错误"@]
        } else {
            Seq::<Seq<char>>::empty()
        });
    }
    if name_taken {
        error.push("用户名已被使用，请重新输入用户名".to_owned());
    }
    proof {
        g = g + (if name_taken {
            seq!["用户名已被使用，请重新输入用户名"@]
        } else {
            Seq::<Seq<char>>::empty()
        });
    }
    if email_taken {
        error.push("邮箱已被使用，请重新输入邮箱".to_owned());
    }
    proof {
        g = g + (if email_taken {
            seq!["邮箱已被使用，请重新输入邮箱"@]
        } else {
            Seq::<Seq<char>>::empty()
        });
        assert(error@.map_values(|s: String| s@) =~= g);
        assert(g == reg_errors(*old(input), sess_code, name_taken, email_taken));
    }
    if !error.is_empty() {
        return Err(error);
    }
    Ok(())
}


/// The insert statement of a new account; the password arrives already
/// hashed.  The new row's UUID comes back.
pub fn add_user_sql(name: &String, email: &String, password_hash: &String) -> (r: (
    String,
    Vec<BindValue>,
))
    ensures
        r.0@ == "insert into users (name, email, password) values ($1, $2, $3) returning uid"@,
        r.1@ == seq![
            BindValue::Text(*name),
            BindValue::Text(*email),
            BindValue::Text(*password_hash),
        ],
{
    let mut s = String::new();
    s.append("insert into users (name, email, password) values ($1, $2, $3) returning uid");
    let mut binds: Vec<BindValue> = Vec::new();
    binds.push(BindValue::Text(name.clone()));
    binds.push(BindValue::Text(email.clone()));
    binds.push(BindValue::Text(password_hash.clone()));
    proof {
        assert(binds@ =~= seq![
            BindValue::Text(*name),
            BindValue::Text(*email),
            BindValue::Text(*password_hash),
        ]);
    }
    (s, binds)
}

/// The column an account lookup restricts.
pub open spec fn spec_by_col(by: By) -> Seq<char> {
    match by {
        By::Email(_) => "email"@,
        By::Name(_) => "name"@,
        By::Id(_) => "user_id"@,
    }
}

/// The statement that looks one active account up by address, name or
/// id; the looked-up value is a bound parameter, never statement text.
pub fn get_user_sql(by: &By) -> (r: (String, Vec<BindValue>))
    ensures
        r.0@ == "select user_id, name, email, password, i_role from users where "@ + spec_by_col(
            *by,
        ) + "=$1 and i_role > 0"@,
        r.1@.len() == 1,
        by matches By::Email(s) ==> r.1@[0] == BindValue::Text(*s),
        by matches By::Name(s) ==> r.1@[0] == BindValue::Text(*s),
        by matches By::Id(i) ==> r.1@[0] == BindValue::Int(*i as i64),
{
    let mut s = String::new();
    s.append("select user_id, name, email, password, i_role from users where ");
    let mut binds: Vec<BindValue> = Vec::new();
    match by {
        By::Email(v) => {
            s.append("email");
            binds.push(BindValue::Text(v.clone()));
        },
        By::Name(v) => {
            s.append("name");
            binds.push(BindValue::Text(v.clone()));
        },
        By::Id(i) => {
            s.append("user_id");
            binds.push(BindValue::Int(*i as i64));
        },
    }
    s.append("=$1 and i_role > 0");
    (s, binds)
}

/// The insert statement of a password-reset request; the request's
/// UUID comes back.
pub fn add_pw_reset_sql(user: &User) -> (r: (String, Vec<BindValue>))
    ensures
        r.0@
            == "insert into reset_pw_req (user_id, user_name, user_email) values ($1, $2, $3) returning id"@,
        r.1@ == seq![
            BindValue::Int(user.user_id as i64),
            BindValue::Text(user.name),
            BindValue::Text(user.email),
        ],
{
    let mut s = String::new();
    s.append(
        "insert into reset_pw_req (user_id, user_name, user_email) values ($1, $2, $3) returning id",
    );
    let mut binds: Vec<BindValue> = Vec::new();
    binds.push(BindValue::Int(user.user_id as i64));
    binds.push(BindValue::Text(user.name.clone()));
    binds.push(BindValue::Text(user.email.clone()));
    proof {
        assert(binds@ =~= seq![
            BindValue::Int(user.user_id as i64),
            BindValue::Text(user.name),
            BindValue::Text(user.email),
        ]);
    }
    (s, binds)
}

/// The statement that fetches one password-reset request by its UUID,
/// bound as text for the executor to convert.
pub fn get_pwreq_sql(id: &str) -> (r: (String, Vec<BindValue>))
    ensures
        r.0@ == "select created_at, user_name, user_id from reset_pw_req where id=$1"@,
        r.1@.len() == 1,
        (r.1@[0] matches BindValue::Text(s) && s@ == id@),
{
    let mut s = String::new();
    s.append("select created_at, user_name, user_id from reset_pw_req where id=$1");
    let mut binds: Vec<BindValue> = Vec::new();
    binds.push(BindValue::Text(id.to_owned()));
    (s, binds)
}

/// The statement that stores an account's new password hash.
pub fn update_user_pw_sql(id: i32, password_hash: &String) -> (r: (String, Vec<BindValue>))
    ensures
        r.0@ == "update users set password=$1 where user_id=$2"@,
        r.1@ == seq![BindValue::Text(*password_hash), BindValue::Int(id as i64)],
{
    let mut s = String::new();
    s.append("update users set password=$1 where user_id=$2");
    let mut binds: Vec<BindValue> = Vec::new();
    binds.push(BindValue::Text(password_hash.clone()));
    binds.push(BindValue::Int(id as i64));
    proof {
        assert(binds@ =~= seq![BindValue::Text(*password_hash), BindValue::Int(id as i64)]);
    }
    (s, binds)
}

/// The statement that marks a password-reset request used.
pub fn update_pw_reset_sql(id: &str) -> (r: (String, Vec<BindValue>))
    ensures
        r.0@ == "update reset_pw_req set i_status=1 where id=$1"@,
        r.1@.len() == 1,
        (r.1@[0] matches BindValue::Text(s) && s@ == id@),
{
    let mut s = String::new();
    s.append("update reset_pw_req set i_status=1 where id=$1");
    let mut binds: Vec<BindValue> = Vec::new();
    binds.push(BindValue::Text(id.to_owned()));
    (s, binds)
}

/// The statement that lists every account, newest first.
pub fn user_list_sql() -> (r: (String, Vec<BindValue>))
    ensures
        r.0@ == "select user_id as id, name, email, i_role from users order by user_id desc"@,
        r.1@.len() == 0,
{
    let mut s = String::new();
    s.append("select user_id as id, name, email, i_role from users order by user_id desc");
    (s, Vec::new())
}

} // verus!
