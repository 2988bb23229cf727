//! Reference semantics of a listing: what the count query and the
//! page-slice query of `crate::query` denote on a snapshot of one content
//! table.
//!
//! A `Store` holds the rows of one table, newest id first (ids are
//! assigned monotonically, so this is creation order).  `Store::list`
//! computes exactly what the count and slice statements ask the
//! relational store for: the number of rows the filter admits, and one
//! page of them in descending id order.  Its contract carries the
//! guarantees the listing component is trusted for: the total ignores
//! pagination, a page past the end is empty rather than an error, rows
//! are ordered by descending id, and an ownership or published-only scope
//! is never violated, whatever other filters are combined with it.

use vstd::prelude::*;

use crate::list::{List, ListBy, SearchBy};
use crate::query::{spec_conds, Cond};
use crate::text::{contains_seq, contains_str, ascii_lower_seq, ascii_lower_str};

verus! {

/// One stored row, in the common column subset every content table
/// shares.  `search_text` stands for the precomputed search-vector
/// column; the model treats full-text search as case-insensitive
/// containment in it.
pub struct Rec {
    pub id: i32,
    pub user_id: i32,
    pub user_name: String,
    pub title: String,
    pub i_type: i16,
    pub i_category: i16,
    pub i_public: i16,
    pub good: i16,
    pub i_good: i16,
    pub created_at: i64,
    pub search_text: String,
    pub brief: Option<String>,
}

impl Rec {
    /// A field-for-field copy.
    pub fn duplicate(&self) -> (r: Rec)
        ensures
            r == *self,
    {
        Rec {
            id: self.id,
            user_id: self.user_id,
            user_name: self.user_name.clone(),
            title: self.title.clone(),
            i_type: self.i_type,
            i_category: self.i_category,
            i_public: self.i_public,
            good: self.good,
            i_good: self.i_good,
            created_at: self.created_at,
            search_text: self.search_text.clone(),
            brief: match &self.brief {
                Some(s) => Some(s.clone()),
                None => None,
            },
        }
    }
}

/// Does the scope admit the row?
pub open spec fn scope_matches(f: ListBy, r: Rec) -> bool {
    match f {
        ListBy::All => true,
        ListBy::UserId(u) => r.user_id == u,
        ListBy::AllPublic => r.i_public == 1,
    }
}

/// Does the search, if one was asked for, admit the row?  Full-text
/// search is modelled as case-insensitive containment in the search
/// vector; substring search matches the title, case-insensitively.
pub open spec fn search_matches(s: Option<SearchBy>, r: Rec) -> bool {
    match s {
        None => true,
        Some(SearchBy::FullText(k)) => contains_seq(
            ascii_lower_seq(r.search_text@),
            ascii_lower_seq(k@),
        ),
        Some(SearchBy::TitleSubstring(k)) => contains_seq(ascii_lower_seq(r.title@), ascii_lower_seq(k@)),
    }
}

/// Does the whole filter admit the row?  All present filters combine
/// with logical AND; absent ones restrict nothing.  Note that the page
/// number and the page size play no part here.
pub open spec fn rec_matches(r: Rec, l: List) -> bool {
    &&& scope_matches(l.filter, r)
    &&& (l.cat matches Some(c) ==> r.i_category == c as i16)
    &&& (l.i_type matches Some(t) ==> r.i_type == t as i16)
    &&& (l.good matches Some(g) ==> r.good == g as i16)
    &&& search_matches(l.search, r)
}

/// The rows the filter admits, in table order.
pub open spec fn filtered(s: Seq<Rec>, l: List) -> Seq<Rec>
    decreases s.len(),
{
    if s.len() == 0 {
        Seq::<Rec>::empty()
    } else if rec_matches(s[0], l) {
        seq![s[0]] + filtered(s.skip(1), l)
    } else {
        filtered(s.skip(1), l)
    }
}

/// Strictly descending ids.
pub open spec fn sorted_desc(s: Seq<Rec>) -> bool {
    forall|i: int, j: int| 0 <= i < j < s.len() ==> s[i].id > s[j].id
}

/// The page window: `page_size` rows starting `page_size * (page - 1)`
/// in, clipped to what is there.
pub open spec fn page_slice(f: Seq<Rec>, l: List) -> Seq<Rec> {
    let off = (l.size as int) * (l.page as int - 1);
    let lo = if off <= f.len() {
        off
    } else {
        f.len() as int
    };
    let hi = if off + l.size <= f.len() {
        off + l.size
    } else {
        f.len() as int
    };
    f.subrange(lo, hi)
}

proof fn lemma_filtered_props(s: Seq<Rec>, l: List)
    ensures
        filtered(s, l).len() <= s.len(),
        forall|k: int|
            0 <= k < filtered(s, l).len() ==> rec_matches(#[trigger] filtered(s, l)[k], l),
        forall|k: int|
            0 <= k < filtered(s, l).len() ==> exists|j: int|
                0 <= j < s.len() && s[j] == #[trigger] filtered(s, l)[k],
        sorted_desc(s) ==> sorted_desc(filtered(s, l)),
    decreases s.len(),
{
    if s.len() == 0 {
    } else {
        let rest = s.skip(1);
        lemma_filtered_props(rest, l);
        let f = filtered(s, l);
        let fr = filtered(rest, l);
        assert(forall|k: int|
            0 <= k < fr.len() ==> exists|j: int| 0 <= j < rest.len() && rest[j] == #[trigger] fr[k]);
        assert forall|k: int|
            0 <= k < fr.len() implies exists|j: int| 0 <= j < s.len() && s[j] == #[trigger] fr[k] by {
            let j = choose|j: int| 0 <= j < rest.len() && rest[j] == fr[k];
            assert(rest[j] == s[j + 1]);
            assert(s[j + 1] == fr[k]);
        }
        if rec_matches(s[0], l) {
            assert(f == seq![s[0]] + fr);
            assert(f[0] == s[0]);
            assert(forall|k: int| 0 <= k < fr.len() ==> f[k + 1] == fr[k]);
            assert forall|k: int| 0 <= k < f.len() implies rec_matches(#[trigger] f[k], l) by {
                if k == 0 {
                } else {
                    assert(f[k] == fr[k - 1]);
                }
            }
            assert forall|k: int|
                0 <= k < f.len() implies exists|j: int| 0 <= j < s.len() && s[j] == #[trigger] f[k] by {
                if k == 0 {
                    assert(s[0] == f[0]);
                } else {
                    assert(f[k] == fr[k - 1]);
                    let j = choose|j: int| 0 <= j < s.len() && s[j] == fr[k - 1];
                    assert(s[j] == f[k]);
                }
            }
            if sorted_desc(s) {
                assert forall|a: int, b: int| 0 <= a < b < f.len() implies f[a].id > f[b].id by {
                    if a == 0 {
                        assert(f[b] == fr[b - 1]);
                        let j = choose|j: int| 0 <= j < rest.len() && rest[j] == fr[b - 1];
                        assert(rest[j] == s[j + 1]);
                        assert(s[0].id > s[j + 1].id);
                    } else {
                        assert(f[a] == fr[a - 1]);
                        assert(f[b] == fr[b - 1]);
                        assert(sorted_desc(fr));
                    }
                }
            }
        } else {
            assert(f == fr);
        }
    }
}

/// Everything of a filter that decides which rows match: the scope and
/// the four optional filters — but not the page number, the page size,
/// nor any presentation setting.
pub open spec fn same_filter(a: List, b: List) -> bool {
    a.filter == b.filter && a.cat == b.cat && a.i_type == b.i_type && a.good == b.good
        && a.search == b.search
}

/// The rows a filter admits do not depend on pagination: two filter
/// specifications that differ only in page, page size or presentation
/// admit exactly the same rows, so the total a listing reports is
/// independent of the page asked for.
pub proof fn lemma_total_independent_of_page(s: Seq<Rec>, a: List, b: List)
    requires
        same_filter(a, b),
    ensures
        filtered(s, a) == filtered(s, b),
    decreases s.len(),
{
    if s.len() > 0 {
        assert(rec_matches(s[0], a) == rec_matches(s[0], b));
        lemma_total_independent_of_page(s.skip(1), a, b);
    }
}

/// A snapshot of one content table, newest row first.
pub struct Store {
    pub recs: Vec<Rec>,
}

impl Store {
    /// Rows are strictly descending by id, and countably many.
    pub open spec fn wf(self) -> bool {
        sorted_desc(self.recs@) && self.recs@.len() < 0x7FFF_FFFF_FFFF_FFFFint
    }

    pub fn new() -> (r: Store)
        ensures
            r.wf(),
            r.recs@.len() == 0,
    {
        Store { recs: Vec::new() }
    }

    /// Adds a freshly created row.  Ids are assigned monotonically, so
    /// the new row carries a larger id than everything stored and goes
    /// in front.
    pub fn insert(&mut self, r: Rec)
        requires
            old(self).wf(),
            old(self).recs@.len() + 1 < 0x7FFF_FFFF_FFFF_FFFFint,
            forall|i: int| 0 <= i < old(self).recs@.len() ==> old(self).recs@[i].id < r.id,
        ensures
            final(self).wf(),
            final(self).recs@ == seq![r] + old(self).recs@,
    {
        self.recs.insert(0, r);
        proof {
            let old_recs = old(self).recs@;
            let new_recs = self.recs@;
            assert(new_recs =~= seq![r] + old_recs);
            assert forall|a: int, b: int|
                0 <= a < b < new_recs.len() implies new_recs[a].id > new_recs[b].id by {
                if a == 0 {
                    assert(new_recs[b] == old_recs[b - 1]);
                } else {
                    assert(new_recs[a] == old_recs[a - 1]);
                    assert(new_recs[b] == old_recs[b - 1]);
                }
            }
        }
    }

    /// Does the filter admit the row?
    pub fn matches(r: &Rec, l: &List) -> (b: bool)
        ensures
            b == rec_matches(*r, *l),
    {
        let scope_ok = match &l.filter {
            ListBy::All => true,
            ListBy::UserId(u) => r.user_id == *u,
            ListBy::AllPublic => r.i_public == 1,
        };
        let cat_ok = match &l.cat {
            Some(c) => r.i_category == *c as i16,
            None => true,
        };
        let type_ok = match &l.i_type {
            Some(t) => r.i_type == *t as i16,
            None => true,
        };
        let good_ok = match &l.good {
            Some(g) => r.good == *g as i16,
            None => true,
        };
        let search_ok = match &l.search {
            None => true,
            Some(SearchBy::FullText(k)) => {
                let hay = ascii_lower_str(r.search_text.as_str());
                let needle = ascii_lower_str(k.as_str());
                contains_str(hay.as_str(), needle.as_str())
            },
            Some(SearchBy::TitleSubstring(k)) => {
                let hay = ascii_lower_str(r.title.as_str());
                let needle = ascii_lower_str(k.as_str());
                contains_str(hay.as_str(), needle.as_str())
            },
        };
        scope_ok && cat_ok && type_ok && good_ok && search_ok
    }

    /// One listing: the count of admitted rows, and the requested page of
    /// them.  This is the meaning of the two statements that
    /// `crate::query::count_sql` and `crate::query::slice_sql` send to
    /// the store.
    ///
    /// The contract carries the listing guarantees: the total counts
    /// every admitted row whatever page was asked for and is never
    /// negative; the page is a window of the admitted rows in descending
    /// id order, at most one page wide; a page past the end is empty, not
    /// an error; an `OwnedBy` scope only ever yields rows of that owner,
    /// and an `AllPublic` scope only published rows, whatever other
    /// filters are active.
    pub fn list(&self, l: &List) -> (res: (i64, Vec<Rec>))
        requires
            self.wf(),
            l.wf(),
        ensures
            res.0 == filtered(self.recs@, *l).len(),
            res.0 >= 0,
            res.1@ == page_slice(filtered(self.recs@, *l), *l),
            res.1@.len() <= l.size,
            (l.page as int - 1) * (l.size as int) >= filtered(self.recs@, *l).len()
                ==> res.1@.len() == 0,
            sorted_desc(res.1@),
            forall|k: int| 0 <= k < res.1@.len() ==> rec_matches(#[trigger] res.1@[k], *l),
            l.filter is UserId ==> forall|k: int|
                0 <= k < res.1@.len() ==> (#[trigger] res.1@[k]).user_id == l.filter->UserId_0,
            l.filter is AllPublic ==> forall|k: int|
                0 <= k < res.1@.len() ==> (#[trigger] res.1@[k]).i_public == 1,
    {
        proof {
            assert((l.size as int) * (l.page as int - 1) <= 255 * 0xFFFF_FFFFint)
                by (nonlinear_arith)
                requires
                    l.size <= 255,
                    1 <= l.page <= 0xFFFF_FFFFu32,
            ;
        }
        let offset: u64 = (l.size as u64) * (l.page as u64 - 1);
        let ghost full = self.recs@;
        let mut total: i64 = 0;
        let mut rows: Vec<Rec> = Vec::new();
        let ghost mut fpre = Seq::<Rec>::empty();
        let mut i: usize = 0;
        proof {
            assert(full.skip(0) =~= full);
        }
        while i < self.recs.len()
            invariant
                self.wf(),
                l.wf(),
                full == self.recs@,
                offset == (l.size as int) * (l.page as int - 1),
                i <= full.len(),
                fpre.len() == total,
                0 <= total <= i,
                filtered(full, *l) == fpre + filtered(full.skip(i as int), *l),
                rows@ == page_slice(fpre, *l),
                rows@.len() <= l.size,
            decreases full.len() - i,
        {
            proof {
                assert(full.skip(i as int)[0] == full[i as int]);
                assert(full.skip(i as int).skip(1) =~= full.skip(i + 1));
            }
            let r = &self.recs[i];
            if Store::matches(r, l) {
                let ghost fnext = fpre.push(full[i as int]);
                proof {
                    assert(seq![full[i as int]] + filtered(full.skip(i + 1), *l) == filtered(
                        full.skip(i as int),
                        *l,
                    ));
                    assert(fpre + (seq![full[i as int]] + filtered(full.skip(i + 1), *l))
                        =~= fnext + filtered(full.skip(i + 1), *l));
                }
                if (total as u64) >= offset && rows.len() < l.size as usize {
                    rows.push(r.duplicate());
                    proof {
                        assert(rows@ =~= page_slice(fnext, *l));
                    }
                } else {
                    proof {
                        assert(rows@ =~= page_slice(fnext, *l));
                    }
                }
                total = total + 1;
                proof {
                    fpre = fnext;
                }
            } else {
                proof {
                    assert(fpre + filtered(full.skip(i + 1), *l) == filtered(full, *l));
                }
            }
            i = i + 1;
        }
        proof {
            assert(full.skip(full.len() as int) =~= Seq::<Rec>::empty());
            assert(fpre == filtered(full, *l));
            lemma_filtered_props(full, *l);
            let f = filtered(full, *l);
            if (l.page as int - 1) * (l.size as int) >= f.len() {
                assert((l.size as int) * (l.page as int - 1) == (l.page as int - 1) * (
                l.size as int)) by (nonlinear_arith);
                assert(page_slice(f, *l).len() == 0);
            }
            assert(sorted_desc(rows@)) by {
                assert(sorted_desc(f));
                assert(forall|a: int|
                    0 <= a < rows@.len() ==> rows@[a] == f[a + (if (l.size as int) * (
                    l.page as int - 1) <= f.len() {
                        (l.size as int) * (l.page as int - 1)
                    } else {
                        f.len() as int
                    })]);
            }
        }
        (total, rows)
    }
}


/// A page past the last one is empty, not an error: when the requested
/// page number exceeds the page count `ceil(total / page_size)`, the
/// window the listing returns holds nothing.
pub proof fn lemma_page_past_end(f: Seq<Rec>, l: List)
    requires
        l.wf(),
        l.page as int > crate::widget::spec_page_count(f.len() as int, l.size as int),
    ensures
        page_slice(f, l).len() == 0,
{
    let t = f.len() as int;
    let s = l.size as int;
    let pc = (t + s - 1) / s;
    vstd::arithmetic::div_mod::lemma_fundamental_div_mod(t + s - 1, s);
    vstd::arithmetic::div_mod::lemma_mod_bound(t + s - 1, s);
    assert(s * pc >= t);
    assert(s * (l.page as int - 1) >= s * pc) by (nonlinear_arith)
        requires
            s >= 1,
            l.page as int - 1 >= pc,
    ;
}


/// What one WHERE conjunct asks of a row, in the model: the same
/// comparison the store would make, with full-text and substring search
/// read as the model reads them.
pub open spec fn cond_holds(c: Cond, r: Rec) -> bool {
    match c {
        Cond::Owner(id) => r.user_id as i64 == id,
        Cond::Public => r.i_public == 1,
        Cond::Cat(id) => r.i_category as i64 == id,
        Cond::Typ(id) => r.i_type as i64 == id,
        Cond::Good(id) => r.good as i64 == id,
        Cond::Web(k) => contains_seq(ascii_lower_seq(r.search_text@), ascii_lower_seq(k@)),
        Cond::Title(k) => contains_seq(ascii_lower_seq(r.title@), ascii_lower_seq(k@)),
    }
}

/// A row satisfies every conjunct of a WHERE clause.
pub open spec fn conds_hold(cs: Seq<Cond>, r: Rec) -> bool
    decreases cs.len(),
{
    if cs.len() == 0 {
        true
    } else {
        cond_holds(cs[0], r) && conds_hold(cs.skip(1), r)
    }
}

proof fn lemma_conds_hold_concat(a: Seq<Cond>, b: Seq<Cond>, r: Rec)
    ensures
        conds_hold(a + b, r) == (conds_hold(a, r) && conds_hold(b, r)),
    decreases a.len(),
{
    if a.len() == 0 {
        assert(a + b =~= b);
    } else {
        assert((a + b)[0] == a[0]);
        assert((a + b).skip(1) =~= a.skip(1) + b);
        lemma_conds_hold_concat(a.skip(1), b, r);
    }
}

/// The WHERE clause built for a filter means exactly what the model
/// computes: a row satisfies every conjunct of `spec_conds(l)` if and
/// only if the filter admits it.
#[verifier::spinoff_prover]
#[verifier::rlimit(100)]
pub proof fn lemma_conds_are_the_filter(l: List, r: Rec)
    ensures
        conds_hold(spec_conds(l), r) == rec_matches(r, l),
{
    let s1 = match l.filter {
        ListBy::All => Seq::<Cond>::empty(),
        ListBy::UserId(id) => seq![Cond::Owner(id as i64)],
        ListBy::AllPublic => seq![Cond::Public],
    };
    let s2 = match l.cat {
        Some(c) => seq![Cond::Cat(c as i64)],
        None => Seq::<Cond>::empty(),
    };
    let s3 = match l.i_type {
        Some(t) => seq![Cond::Typ(t as i64)],
        None => Seq::<Cond>::empty(),
    };
    let s4 = match l.good {
        Some(g) => seq![Cond::Good(g as i64)],
        None => Seq::<Cond>::empty(),
    };
    let s5 = match l.search {
        Some(SearchBy::FullText(k)) => seq![Cond::Web(k)],
        Some(SearchBy::TitleSubstring(k)) => seq![Cond::Title(k)],
        None => Seq::<Cond>::empty(),
    };
    assert(spec_conds(l) == s1 + s2 + s3 + s4 + s5);
    lemma_conds_hold_concat(s1, s2 + s3 + s4 + s5, r);
    lemma_conds_hold_concat(s2, s3 + s4 + s5, r);
    lemma_conds_hold_concat(s3, s4 + s5, r);
    lemma_conds_hold_concat(s4, s5, r);
    assert(s1 + (s2 + s3 + s4 + s5) =~= s1 + s2 + s3 + s4 + s5);
    assert(s2 + (s3 + s4 + s5) =~= s2 + s3 + s4 + s5);
    assert(s3 + (s4 + s5) =~= s3 + s4 + s5);
    assert(conds_hold(Seq::<Cond>::empty(), r));
    assert(conds_hold(s1, r) == scope_matches(l.filter, r)) by {
        match l.filter {
            ListBy::All => {},
            ListBy::UserId(id) => {
                assert(s1[0] == Cond::Owner(id as i64));
                assert(s1.skip(1) =~= Seq::<Cond>::empty());
            },
            ListBy::AllPublic => {
                assert(s1[0] == Cond::Public);
                assert(s1.skip(1) =~= Seq::<Cond>::empty());
            },
        }
    }
    assert(conds_hold(s2, r) == (l.cat matches Some(c) ==> r.i_category == c as i16)) by {
        match l.cat {
            Some(c) => {
                assert(s2[0] == Cond::Cat(c as i64));
                assert(s2.skip(1) =~= Seq::<Cond>::empty());
            },
            None => {},
        }
    }
    assert(conds_hold(s3, r) == (l.i_type matches Some(tt) ==> r.i_type == tt as i16)) by {
        match l.i_type {
            Some(tt) => {
                assert(s3[0] == Cond::Typ(tt as i64));
                assert(s3.skip(1) =~= Seq::<Cond>::empty());
            },
            None => {},
        }
    }
    assert(conds_hold(s4, r) == (l.good matches Some(g) ==> r.good == g as i16)) by {
        match l.good {
            Some(g) => {
                assert(s4[0] == Cond::Good(g as i64));
                assert(s4.skip(1) =~= Seq::<Cond>::empty());
            },
            None => {},
        }
    }
    assert(conds_hold(s5, r) == search_matches(l.search, r)) by {
        match l.search {
            Some(SearchBy::FullText(k)) => {
                assert(s5[0] == Cond::Web(k));
                assert(s5.skip(1) =~= Seq::<Cond>::empty());
            },
            Some(SearchBy::TitleSubstring(k)) => {
                assert(s5[0] == Cond::Title(k));
                assert(s5.skip(1) =~= Seq::<Cond>::empty());
            },
            None => {},
        }
    }
}

} // verus!
