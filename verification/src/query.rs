//! Builds the SQL statements of a listing — the count query and the
//! ordered page-slice query — from a `List` filter specification, and
//! the row-level statements (delete, click count, featured flag) the
//! content modules share.
//!
//! Every value that comes from the caller (owner id, category, type,
//! featured flag, search text) is sent as a bound parameter, never spliced
//! into the statement text.  `lemma_sql_text_value_independent` states that
//! guarantee: the statement text depends only on which filters are present,
//! not on any of their values.

use vstd::prelude::*;

use crate::list::{List, ListBy, SearchBy};
use crate::text::{dec_u64, ascii_lower_seq, ascii_lower_str, spec_dec};

verus! {

/// A value sent alongside a statement, bound to one `$n` placeholder.
/// The optional forms carry SQL null when absent.
#[derive(Clone, Debug)]
pub enum BindValue {
    Int(i64),
    Text(String),
    OptInt(Option<i64>),
    OptText(Option<String>),
}

/// One conjunct of a WHERE clause: the restriction it makes and, for all
/// but `Public`, the value it binds.
pub enum Cond {
    Owner(i64),
    Public,
    Cat(i64),
    Typ(i64),
    Good(i64),
    Web(String),
    Title(String),
}

/// Number of placeholders a conjunct uses.
pub open spec fn cond_bind_count(c: Cond) -> int {
    match c {
        Cond::Public => 0,
        _ => 1,
    }
}

/// The bound value belonging to a conjunct.  A substring search binds the
/// case-folded key wrapped in `%` wildcards; everything else is bound as
/// given.
pub open spec fn bind_matches(b: BindValue, c: Cond) -> bool {
    match c {
        Cond::Owner(id) => b == BindValue::Int(id),
        Cond::Public => false,
        Cond::Cat(id) => b == BindValue::Int(id),
        Cond::Typ(id) => b == BindValue::Int(id),
        Cond::Good(id) => b == BindValue::Int(id),
        Cond::Web(k) => b matches BindValue::Text(s) && s@ == k@,
        Cond::Title(k) => b matches BindValue::Text(s) && s@ == seq!['%'] + ascii_lower_seq(k@)
            + seq!['%'],
    }
}

/// The bound values correspond, in order, to the placeholders of the
/// conjunct list.
pub open spec fn binds_match(bs: Seq<BindValue>, cs: Seq<Cond>) -> bool
    decreases cs.len(),
{
    if cs.len() == 0 {
        bs.len() == 0
    } else if cond_bind_count(cs[0]) == 0 {
        binds_match(bs, cs.skip(1))
    } else {
        bs.len() > 0 && bind_matches(bs[0], cs[0]) && binds_match(bs.skip(1), cs.skip(1))
    }
}

pub open spec fn placeholder(n: int) -> Seq<char> {
    seq!['$'] + spec_dec(n)
}

/// The SQL text of a conjunct whose first placeholder is `$n`.
pub open spec fn cond_text(c: Cond, n: int) -> Seq<char> {
    match c {
        Cond::Owner(_) => "user_id="@ + placeholder(n),
        Cond::Public => "i_public=1"@,
        Cond::Cat(_) => "i_category="@ + placeholder(n),
        Cond::Typ(_) => "i_type="@ + placeholder(n),
        Cond::Good(_) => "good="@ + placeholder(n),
        Cond::Web(_) => "search_ti @@ websearch_to_tsquery("@ + placeholder(n) + ")"@,
        Cond::Title(_) => "lower(title) like "@ + placeholder(n),
    }
}

/// The conjuncts a filter specification asks for, in the fixed order:
/// scope, category, type, featured flag, search.
pub open spec fn spec_conds(l: List) -> Seq<Cond> {
    (match l.filter {
        ListBy::All => Seq::<Cond>::empty(),
        ListBy::UserId(id) => seq![Cond::Owner(id as i64)],
        ListBy::AllPublic => seq![Cond::Public],
    }) + (match l.cat {
        Some(c) => seq![Cond::Cat(c as i64)],
        None => Seq::<Cond>::empty(),
    }) + (match l.i_type {
        Some(t) => seq![Cond::Typ(t as i64)],
        None => Seq::<Cond>::empty(),
    }) + (match l.good {
        Some(g) => seq![Cond::Good(g as i64)],
        None => Seq::<Cond>::empty(),
    }) + (match l.search {
        Some(SearchBy::FullText(k)) => seq![Cond::Web(k)],
        Some(SearchBy::TitleSubstring(k)) => seq![Cond::Title(k)],
        None => Seq::<Cond>::empty(),
    })
}

/// Text of the conjuncts after the first, each preceded by ` and `, with
/// placeholders numbered on from `n`.
pub open spec fn where_tail(cs: Seq<Cond>, n: int) -> Seq<char>
    decreases cs.len(),
{
    if cs.len() == 0 {
        Seq::<char>::empty()
    } else {
        " and "@ + cond_text(cs[0], n) + where_tail(cs.skip(1), n + cond_bind_count(cs[0]))
    }
}

/// The whole WHERE clause: empty when nothing restricts the listing,
/// otherwise `where ` followed by the conjuncts joined with ` and `.
pub open spec fn where_text(cs: Seq<Cond>) -> Seq<char> {
    if cs.len() == 0 {
        Seq::<char>::empty()
    } else {
        "where "@ + cond_text(cs[0], 1) + where_tail(cs.skip(1), 1 + cond_bind_count(cs[0]))
    }
}

fn build_conds(list: &List) -> (cs: Vec<Cond>)
    ensures
        cs@ == spec_conds(*list),
{
    let mut cs: Vec<Cond> = Vec::new();
    match &list.filter {
        ListBy::All => {},
        ListBy::UserId(id) => {
            cs.push(Cond::Owner(*id as i64));
        },
        ListBy::AllPublic => {
            cs.push(Cond::Public);
        },
    }
    match &list.cat {
        Some(c) => {
            cs.push(Cond::Cat(*c as i64));
        },
        None => {},
    }
    match &list.i_type {
        Some(t) => {
            cs.push(Cond::Typ(*t as i64));
        },
        None => {},
    }
    match &list.good {
        Some(g) => {
            cs.push(Cond::Good(*g as i64));
        },
        None => {},
    }
    match &list.search {
        Some(SearchBy::FullText(k)) => {
            cs.push(Cond::Web(k.clone()));
        },
        Some(SearchBy::TitleSubstring(k)) => {
            cs.push(Cond::Title(k.clone()));
        },
        None => {},
    }
    proof {
        assert(cs@ =~= spec_conds(*list));
    }
    cs
}

/// Renders one conjunct and hands back its bound value, if any.
fn cond_text_exec(c: &Cond, n: u64) -> (r: (String, Option<BindValue>))
    requires
        n >= 1,
    ensures
        r.0@ == cond_text(*c, n as int),
        cond_bind_count(*c) == 0 ==> r.1 is None,
        cond_bind_count(*c) == 1 ==> (r.1 matches Some(b) && bind_matches(b, *c)),
{
    proof {
        reveal_strlit("$");
    }
    match c {
        Cond::Owner(id) => {
            let mut s = String::new();
            s.append("user_id=");
            s.append("$");
            let d = dec_u64(n);
            s.append(d.as_str());
            (s, Some(BindValue::Int(*id)))
        },
        Cond::Public => {
            let mut s = String::new();
            s.append("i_public=1");
            (s, None)
        },
        Cond::Cat(id) => {
            let mut s = String::new();
            s.append("i_category=");
            s.append("$");
            let d = dec_u64(n);
            s.append(d.as_str());
            (s, Some(BindValue::Int(*id)))
        },
        Cond::Typ(id) => {
            let mut s = String::new();
            s.append("i_type=");
            s.append("$");
            let d = dec_u64(n);
            s.append(d.as_str());
            (s, Some(BindValue::Int(*id)))
        },
        Cond::Good(id) => {
            let mut s = String::new();
            s.append("good=");
            s.append("$");
            let d = dec_u64(n);
            s.append(d.as_str());
            (s, Some(BindValue::Int(*id)))
        },
        Cond::Web(k) => {
            let mut s = String::new();
            s.append("search_ti @@ websearch_to_tsquery(");
            s.append("$");
            let d = dec_u64(n);
            s.append(d.as_str());
            s.append(")");
            (s, Some(BindValue::Text(k.clone())))
        },
        Cond::Title(k) => {
            let mut s = String::new();
            s.append("lower(title) like ");
            s.append("$");
            let d = dec_u64(n);
            s.append(d.as_str());
            let mut pat = String::new();
            pat.append("%");
            let low = ascii_lower_str(k.as_str());
            pat.append(low.as_str());
            pat.append("%");
            proof {
                reveal_strlit("%");
                assert(pat@ =~= seq!['%'] + ascii_lower_seq(k@) + seq!['%']);
            }
            (s, Some(BindValue::Text(pat)))
        },
    }
}

proof fn lemma_binds_match_append_none(bs: Seq<BindValue>, cs: Seq<Cond>, c: Cond)
    requires
        binds_match(bs, cs),
        cond_bind_count(c) == 0,
    ensures
        binds_match(bs, cs.push(c)),
    decreases cs.len(),
{
    if cs.len() == 0 {
        assert(cs.push(c)[0] == c);
        assert(cs.push(c).skip(1) =~= cs);
    } else {
        assert(cs.push(c)[0] == cs[0]);
        assert(cs.push(c).skip(1) =~= cs.skip(1).push(c));
        if cond_bind_count(cs[0]) == 0 {
            lemma_binds_match_append_none(bs, cs.skip(1), c);
        } else {
            lemma_binds_match_append_none(bs.skip(1), cs.skip(1), c);
        }
    }
}

proof fn lemma_binds_match_append_one(bs: Seq<BindValue>, cs: Seq<Cond>, b: BindValue, c: Cond)
    requires
        binds_match(bs, cs),
        cond_bind_count(c) == 1,
        bind_matches(b, c),
    ensures
        binds_match(bs.push(b), cs.push(c)),
    decreases cs.len(),
{
    if cs.len() == 0 {
        assert(cs.push(c)[0] == c);
        assert(bs.push(b)[0] == b);
        assert(bs.push(b).skip(1) =~= bs);
        assert(cs.push(c).skip(1) =~= cs);
    } else {
        assert(cs.push(c)[0] == cs[0]);
        assert(cs.push(c).skip(1) =~= cs.skip(1).push(c));
        if cond_bind_count(cs[0]) == 0 {
            lemma_binds_match_append_one(bs, cs.skip(1), b, c);
        } else {
            assert(bs.push(b)[0] == bs[0]);
            assert(bs.push(b).skip(1) =~= bs.skip(1).push(b));
            lemma_binds_match_append_one(bs.skip(1), cs.skip(1), b, c);
        }
    }
}

/// The WHERE clause of a listing, with its bound values in placeholder
/// order.
pub fn where_clause(list: &List) -> (r: (String, Vec<BindValue>))
    ensures
        r.0@ == where_text(spec_conds(*list)),
        binds_match(r.1@, spec_conds(*list)),
{
    let cs = build_conds(list);
    let ghost full = cs@;
    let mut s = String::new();
    let mut binds: Vec<BindValue> = Vec::new();
    let mut n: u64 = 1;
    let mut i: usize = 0;
    proof {
        assert(full.len() <= 6);
    }
    while i < cs.len()
        invariant
            cs@ == full,
            full.len() <= 6,
            i <= cs.len(),
            1 <= n <= 1 + i,
            binds_match(binds@, full.take(i as int)),
            i == 0 ==> s@ == Seq::<char>::empty() && n == 1,
            i >= 1 ==> where_text(full) == s@ + where_tail(
                full.skip(i as int),
                n as int,
            ),
        decreases cs.len() - i,
    {
        let (frag, bind) = cond_text_exec(&cs[i], n);
        proof {
            assert(full.skip(i as int)[0] == full[i as int]);
            assert(full.skip(i as int).skip(1) =~= full.skip(i + 1));
            assert(full.take(i + 1) =~= full.take(i as int).push(full[i as int]));
        }
        if i == 0 {
            s.append("where ");
        } else {
            s.append(" and ");
        }
        s.append(frag.as_str());
        match bind {
            Some(b) => {
                proof {
                    lemma_binds_match_append_one(
                        binds@,
                        full.take(i as int),
                        b,
                        full[i as int],
                    );
                }
                binds.push(b);
                n = n + 1;
            },
            None => {
                proof {
                    lemma_binds_match_append_none(binds@, full.take(i as int), full[i as int]);
                }
            },
        }
        i = i + 1;
    }
    proof {
        if full.len() == 0 {
            assert(where_text(full) == Seq::<char>::empty());
        } else {
            assert(full.skip(full.len() as int) =~= Seq::<Cond>::empty());
        }
        assert(full.take(full.len() as int) =~= full);
    }
    (s, binds)
}

/// The count statement of a listing over the given table.
pub open spec fn spec_count_sql(table: Seq<char>, l: List) -> Seq<char> {
    "select count(*) as total from "@ + table + " "@ + where_text(spec_conds(l)) + ";"@
}

pub fn count_sql(table: &str, list: &List) -> (r: (String, Vec<BindValue>))
    ensures
        r.0@ == spec_count_sql(table@, *list),
        binds_match(r.1@, spec_conds(*list)),
{
    let (w, binds) = where_clause(list);
    let mut s = String::new();
    s.append("select count(*) as total from ");
    s.append(table);
    s.append(" ");
    s.append(w.as_str());
    s.append(";");
    (s, binds)
}

/// The page offset of a listing: rows per page times full pages before
/// the requested one.
pub open spec fn spec_offset(l: List) -> int {
    (l.size as int) * (l.page as int - 1)
}

/// The page-slice statement of a listing: the selected columns from the
/// given table, newest id first, one page wide.
pub open spec fn spec_slice_sql(table: Seq<char>, cols: Seq<char>, id_col: Seq<char>, l: List) -> Seq<
    char,
> {
    "select "@ + cols + " from "@ + table + " "@ + where_text(spec_conds(l)) + " order by "@
        + id_col + " desc limit "@ + spec_dec(l.size as int) + " offset "@ + spec_dec(
        spec_offset(l),
    ) + ";"@
}

pub fn slice_sql(table: &str, cols: &str, id_col: &str, list: &List) -> (r: (
    String,
    Vec<BindValue>,
))
    requires
        list.wf(),
    ensures
        r.0@ == spec_slice_sql(table@, cols@, id_col@, *list),
        binds_match(r.1@, spec_conds(*list)),
{
    let (w, binds) = where_clause(list);
    proof {
        assert((list.size as int) * (list.page as int - 1) <= 255 * 0xFFFF_FFFFint)
            by (nonlinear_arith)
            requires
                list.size <= 255,
                1 <= list.page <= 0xFFFF_FFFFu32,
        ;
    }
    let offset: u64 = (list.size as u64) * (list.page as u64 - 1);
    let mut s = String::new();
    s.append("select ");
    s.append(cols);
    s.append(" from ");
    s.append(table);
    s.append(" ");
    s.append(w.as_str());
    s.append(" order by ");
    s.append(id_col);
    s.append(" desc limit ");
    let lim = dec_u64(list.size as u64);
    s.append(lim.as_str());
    s.append(" offset ");
    let off = dec_u64(offset);
    s.append(off.as_str());
    s.append(";");
    proof {
        assert(offset as int == spec_offset(*list));
    }
    (s, binds)
}

/// Two filter specifications that enable the same filters, whatever the
/// filtered values are.
pub open spec fn same_shape(a: List, b: List) -> bool {
    &&& (a.filter is All <==> b.filter is All)
    &&& (a.filter is UserId <==> b.filter is UserId)
    &&& (a.filter is AllPublic <==> b.filter is AllPublic)
    &&& (a.cat is Some <==> b.cat is Some)
    &&& (a.i_type is Some <==> b.i_type is Some)
    &&& (a.good is Some <==> b.good is Some)
    &&& (a.search is None <==> b.search is None)
    &&& (a.search matches Some(SearchBy::FullText(_)) <==> b.search matches Some(
        SearchBy::FullText(_),
    ))
}

proof fn lemma_tail_text_same(ca: Seq<Cond>, cb: Seq<Cond>, n: int)
    requires
        ca.len() == cb.len(),
        forall|i: int|
            0 <= i < ca.len() ==> #[trigger] cond_same_kind(ca[i], cb[i]),
    ensures
        where_tail(ca, n) == where_tail(cb, n),
    decreases ca.len(),
{
    if ca.len() > 0 {
        assert(cond_same_kind(ca[0], cb[0]));
        assert(forall|i: int|
            0 <= i < ca.skip(1).len() ==> #[trigger] cond_same_kind(ca.skip(1)[i], cb.skip(1)[i]));
        lemma_tail_text_same(ca.skip(1), cb.skip(1), n + cond_bind_count(ca[0]));
    }
}

/// Same constructor, any payload.
pub open spec fn cond_same_kind(a: Cond, b: Cond) -> bool {
    match (a, b) {
        (Cond::Owner(_), Cond::Owner(_)) => true,
        (Cond::Public, Cond::Public) => true,
        (Cond::Cat(_), Cond::Cat(_)) => true,
        (Cond::Typ(_), Cond::Typ(_)) => true,
        (Cond::Good(_), Cond::Good(_)) => true,
        (Cond::Web(_), Cond::Web(_)) => true,
        (Cond::Title(_), Cond::Title(_)) => true,
        _ => false,
    }
}

/// Same constructor at every position.
pub open spec fn same_kinds(p: Seq<Cond>, q: Seq<Cond>) -> bool {
    p.len() == q.len() && forall|i: int| 0 <= i < p.len() ==> #[trigger] cond_same_kind(p[i], q[i])
}

proof fn lemma_same_kinds_concat(xa: Seq<Cond>, xb: Seq<Cond>, ya: Seq<Cond>, yb: Seq<Cond>)
    requires
        same_kinds(xa, xb),
        same_kinds(ya, yb),
    ensures
        same_kinds(xa + ya, xb + yb),
{
    assert forall|i: int|
        0 <= i < (xa + ya).len() implies #[trigger] cond_same_kind((xa + ya)[i], (xb + yb)[i]) by {
        if i < xa.len() {
            assert((xa + ya)[i] == xa[i]);
            assert((xb + yb)[i] == xb[i]);
        } else {
            assert((xa + ya)[i] == ya[i - xa.len()]);
            assert((xb + yb)[i] == yb[i - xa.len()]);
        }
    }
}

/// The statement text never depends on the filtered values: two listings
/// with the same filters enabled produce character-for-character the same
/// WHERE clause, however their owner id, category, type, featured flag or
/// search text differ.  User input can only reach the store as a bound
/// parameter.
#[verifier::spinoff_prover]
#[verifier::rlimit(100)]
pub proof fn lemma_sql_text_value_independent(a: List, b: List)
    requires
        same_shape(a, b),
    ensures
        where_text(spec_conds(a)) == where_text(spec_conds(b)),
{
    let sa1 = match a.filter {
        ListBy::All => Seq::<Cond>::empty(),
        ListBy::UserId(id) => seq![Cond::Owner(id as i64)],
        ListBy::AllPublic => seq![Cond::Public],
    };
    let sb1 = match b.filter {
        ListBy::All => Seq::<Cond>::empty(),
        ListBy::UserId(id) => seq![Cond::Owner(id as i64)],
        ListBy::AllPublic => seq![Cond::Public],
    };
    let sa2 = match a.cat {
        Some(c) => seq![Cond::Cat(c as i64)],
        None => Seq::<Cond>::empty(),
    };
    let sb2 = match b.cat {
        Some(c) => seq![Cond::Cat(c as i64)],
        None => Seq::<Cond>::empty(),
    };
    let sa3 = match a.i_type {
        Some(t) => seq![Cond::Typ(t as i64)],
        None => Seq::<Cond>::empty(),
    };
    let sb3 = match b.i_type {
        Some(t) => seq![Cond::Typ(t as i64)],
        None => Seq::<Cond>::empty(),
    };
    let sa4 = match a.good {
        Some(g) => seq![Cond::Good(g as i64)],
        None => Seq::<Cond>::empty(),
    };
    let sb4 = match b.good {
        Some(g) => seq![Cond::Good(g as i64)],
        None => Seq::<Cond>::empty(),
    };
    let sa5 = match a.search {
        Some(SearchBy::FullText(k)) => seq![Cond::Web(k)],
        Some(SearchBy::TitleSubstring(k)) => seq![Cond::Title(k)],
        None => Seq::<Cond>::empty(),
    };
    let sb5 = match b.search {
        Some(SearchBy::FullText(k)) => seq![Cond::Web(k)],
        Some(SearchBy::TitleSubstring(k)) => seq![Cond::Title(k)],
        None => Seq::<Cond>::empty(),
    };
    assert(same_kinds(sa1, sb1));
    assert(same_kinds(sa2, sb2));
    assert(same_kinds(sa3, sb3));
    assert(same_kinds(sa4, sb4));
    assert(same_kinds(sa5, sb5));
    lemma_same_kinds_concat(sa1, sb1, sa2, sb2);
    lemma_same_kinds_concat(sa1 + sa2, sb1 + sb2, sa3, sb3);
    lemma_same_kinds_concat(sa1 + sa2 + sa3, sb1 + sb2 + sb3, sa4, sb4);
    lemma_same_kinds_concat(sa1 + sa2 + sa3 + sa4, sb1 + sb2 + sb3 + sb4, sa5, sb5);
    let ca = spec_conds(a);
    let cb = spec_conds(b);
    assert(ca == sa1 + sa2 + sa3 + sa4 + sa5);
    assert(cb == sb1 + sb2 + sb3 + sb4 + sb5);
    if ca.len() > 0 {
        assert(cond_same_kind(ca[0], cb[0]));
        lemma_tail_text_same(ca.skip(1), cb.skip(1), 1 + cond_bind_count(ca[0]));
    }
}


/// An optional text column value, cloned into its bind.
pub fn opt_text(v: &Option<String>) -> (r: BindValue)
    ensures
        r == BindValue::OptText(*v),
{
    match v {
        Some(s) => BindValue::OptText(Some(s.clone())),
        None => BindValue::OptText(None),
    }
}

/// The delete statement of one row of a content table.
pub fn delete_sql(table: &str, id_col: &str, id: i32) -> (r: (String, Vec<BindValue>))
    ensures
        r.0@ == "delete from "@ + table@ + " where "@ + id_col@ + "=$1"@,
        r.1@ == seq![BindValue::Int(id as i64)],
{
    let mut s = String::new();
    s.append("delete from ");
    s.append(table);
    s.append(" where ");
    s.append(id_col);
    s.append("=$1");
    let mut binds: Vec<BindValue> = Vec::new();
    binds.push(BindValue::Int(id as i64));
    proof {
        assert(binds@ =~= seq![BindValue::Int(id as i64)]);
    }
    (s, binds)
}

/// The statement that counts one more click on a row.
pub fn click_sql(table: &str, id_col: &str, id: i32) -> (r: (String, Vec<BindValue>))
    ensures
        r.0@ == "update "@ + table@ + " set click=click+1 where "@ + id_col@ + "=$1"@,
        r.1@ == seq![BindValue::Int(id as i64)],
{
    let mut s = String::new();
    s.append("update ");
    s.append(table);
    s.append(" set click=click+1 where ");
    s.append(id_col);
    s.append("=$1");
    let mut binds: Vec<BindValue> = Vec::new();
    binds.push(BindValue::Int(id as i64));
    proof {
        assert(binds@ =~= seq![BindValue::Int(id as i64)]);
    }
    (s, binds)
}

/// The statement that sets or withdraws a row's featured flag, stamping
/// the moment of the decision.
pub fn good_sql(table: &str, id_col: &str, id: i32, value: i16) -> (r: (String, Vec<BindValue>))
    ensures
        r.0@ == "update "@ + table@ + " set good=$1, good_at=now() where "@ + id_col@ + "=$2"@,
        r.1@ == seq![BindValue::Int(value as i64), BindValue::Int(id as i64)],
{
    let mut s = String::new();
    s.append("update ");
    s.append(table);
    s.append(" set good=$1, good_at=now() where ");
    s.append(id_col);
    s.append("=$2");
    let mut binds: Vec<BindValue> = Vec::new();
    binds.push(BindValue::Int(value as i64));
    binds.push(BindValue::Int(id as i64));
    proof {
        assert(binds@ =~= seq![BindValue::Int(value as i64), BindValue::Int(id as i64)]);
    }
    (s, binds)
}

} // verus!
