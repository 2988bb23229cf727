//! The filter specification for a paginated listing, shared by every
//! content module, and the small status helpers its rows are shown with.
//!
//! A `List` value says which subset of a table is wanted (scope, category,
//! type, featured flag, one optional search), which page of it, and how the
//! result is to be presented.  It is built once per request through the
//! chained setters and never changed afterwards.

use vstd::prelude::*;

verus! {

/// Which subset of a table a listing is restricted to.
#[derive(Clone)]
pub enum ListBy {
    /// No restriction.
    All,
    /// Only rows owned by this user.
    UserId(i32),
    /// Only rows with the public flag set.
    AllPublic,
}

/// The draft/published badge markup, by public flag.
pub const PUBLIC_STATUS_HTML: [(i16, &'static str); 2] = [
    (0, "<span class='text-danger'>草稿</span>"),
    (1, "<span class='text-success'>已公布</span>"),
];

/// Presentation mode: the full list, or the compact featured widget.
pub enum ShowType {
    Normal,
    Good,
}

/// The one optional search of a listing.  A single tagged field makes it
/// impossible to ask for both kinds at once.
pub enum SearchBy {
    /// Store-native full-text search over the precomputed search vector.
    FullText(String),
    /// Case-insensitive substring match on the title.
    TitleSubstring(String),
}

/// Filter and presentation settings of one listing request.
pub struct List {
    pub tip: Option<String>,
    pub filter: ListBy,
    pub page: u32,
    pub i_type: Option<u8>,
    pub cat: Option<u8>,
    pub search: Option<SearchBy>,
    pub admin: bool,
    pub sudo: bool,
    pub size: u8,
    pub good: Option<u8>,
    pub pager: Option<String>,
    pub show_search_bar: bool,
    pub show_type: ShowType,
    pub show_cat_type_name: bool,
}

impl List {
    /// A page size of at least one; every constructor and setter keeps it.
    pub open spec fn wf(self) -> bool {
        self.page >= 1 && self.size >= 1
    }

    /// Fresh listing settings: page 1 is substituted for a page number of 0.
    pub fn new(filter: ListBy, page: u32) -> (r: List)
        ensures
            r.filter == filter,
            r.page == if page >= 1 {
                page
            } else {
                1u32
            },
            r.tip is None,
            r.i_type is None,
            r.cat is None,
            r.search is None,
            r.admin == true,
            r.sudo == false,
            r.size == 20u8,
            r.good is None,
            r.pager is None,
            r.show_search_bar == true,
            r.show_type is Normal,
            r.show_cat_type_name == false,
            r.wf(),
    {
        List {
            tip: None,
            filter,
            page: if page >= 1 {
                page
            } else {
                1
            },
            i_type: None,
            cat: None,
            search: None,
            admin: true,
            sudo: false,
            size: 20,
            good: None,
            pager: None,
            show_search_bar: true,
            show_type: ShowType::Normal,
            show_cat_type_name: false,
        }
    }

    pub fn i_tip(self, tip: Option<String>) -> (r: List)
        ensures
            r == (List { tip, ..self }),
    {
        List { tip, ..self }
    }

    pub fn i_type(self, tt: Option<u8>) -> (r: List)
        ensures
            r == (List { i_type: tt, ..self }),
    {
        List { i_type: tt, ..self }
    }

    pub fn cat(self, cat: Option<u8>) -> (r: List)
        ensures
            r == (List { cat, ..self }),
    {
        List { cat, ..self }
    }

    pub fn admin(self, admin: bool) -> (r: List)
        ensures
            r == (List { admin, ..self }),
    {
        List { admin, ..self }
    }

    pub fn sudo(self, sudo: bool) -> (r: List)
        ensures
            r == (List { sudo, ..self }),
    {
        List { sudo, ..self }
    }

    pub fn search(self, show: bool) -> (r: List)
        ensures
            r == (List { show_search_bar: show, ..self }),
    {
        List { show_search_bar: show, ..self }
    }

    pub fn show_cat_type_name(self) -> (r: List)
        ensures
            r == (List { show_cat_type_name: true, ..self }),
    {
        List { show_cat_type_name: true, ..self }
    }

    /// Restricts to the given featured flag and switches to the compact
    /// featured presentation.
    pub fn good(self, good: Option<u8>) -> (r: List)
        ensures
            r == (List { good, show_type: ShowType::Good, ..self }),
    {
        List { good, show_type: ShowType::Good, ..self }
    }

    pub fn size(self, size: u8) -> (r: List)
        requires
            size >= 1,
        ensures
            r == (List { size, ..self }),
    {
        List { size, ..self }
    }

    pub fn pager(self, p: Option<String>) -> (r: List)
        ensures
            r == (List { pager: p, ..self }),
    {
        List { pager: p, ..self }
    }

    /// Selects full-text search; any earlier search choice is replaced.
    pub fn web_search_key(self, k: Option<String>) -> (r: List)
        ensures
            k is Some ==> r == (List {
                search: Some(SearchBy::FullText(k->Some_0)),
                ..self
            }),
            k is None ==> r == (List { search: None::<SearchBy>, ..self }),
    {
        match k {
            Some(s) => List { search: Some(SearchBy::FullText(s)), ..self },
            None => List { search: None, ..self },
        }
    }

    /// Selects title substring search; any earlier search choice is replaced.
    pub fn title_search_key(self, k: Option<String>) -> (r: List)
        ensures
            k is Some ==> r == (List {
                search: Some(SearchBy::TitleSubstring(k->Some_0)),
                ..self
            }),
            k is None ==> r == (List { search: None::<SearchBy>, ..self }),
    {
        match k {
            Some(s) => List { search: Some(SearchBy::TitleSubstring(s)), ..self },
            None => List { search: None, ..self },
        }
    }

    pub fn show_type(self, show: ShowType) -> (r: List)
        ensures
            r == (List { show_type: show, ..self }),
    {
        List { show_type: show, ..self }
    }
}

/// First entry of the map with the given status id, if any.
pub open spec fn status_name_spec<'a>(m: Seq<(i16, &'a str)>, idx: i16) -> Option<&'a str>
    decreases m.len(),
{
    if m.len() == 0 {
        None
    } else if m[0].0 == idx {
        Some(m[0].1)
    } else {
        status_name_spec(m.skip(1), idx)
    }
}

proof fn lemma_status_name_step<'a>(m: Seq<(i16, &'a str)>, idx: i16, i: int)
    requires
        0 <= i <= m.len(),
        forall|k: int| 0 <= k < i ==> m[k].0 != idx,
    ensures
        status_name_spec(m, idx) == status_name_spec(m.skip(i), idx),
    decreases i,
{
    if i > 0 {
        assert(m.skip(1).skip(i - 1) =~= m.skip(i));
        lemma_status_name_step(m.skip(1), idx, i - 1);
    } else {
        assert(m.skip(0) =~= m);
    }
}

/// Looks a status id up in a small id-to-label map.
pub fn get_status_name<const N: usize>(status_map: [(i16, &str); N], idx: i16) -> (r: Option<
    &str,
>)
    ensures
        r == status_name_spec(status_map@, idx),
{
    let mut i: usize = 0;
    while i < N
        invariant
            i <= N,
            N == status_map@.len(),
            forall|k: int| 0 <= k < i ==> status_map@[k].0 != idx,
        decreases N - i,
    {
        if status_map[i].0 == idx {
            proof {
                lemma_status_name_step(status_map@, idx, i as int);
            }
            return Some(status_map[i].1);
        }
        i = i + 1;
    }
    proof {
        lemma_status_name_step(status_map@, idx, N as int);
        assert(status_map@.skip(N as int) =~= Seq::<(i16, &str)>::empty());
    }
    None
}

/// Textual state of a row's feature request, for the owner's view:
/// requested but not yet granted, granted, or neither.
pub fn get_igood_status<'a>(i_good: i16, good: i16) -> (r: &'a str)
    ensures
        i_good == 1 && good == 0 ==> r@ == "申请推荐"@,
        !(i_good == 1 && good == 0) && good == 1 ==> r@ == "已推荐"@,
        !(i_good == 1 && good == 0) && good != 1 ==> r@ == "未推荐"@,
{
    if i_good == 1 && good == 0 {
        return "申请推荐";
    }
    if good == 1 {
        return "已推荐";
    }
    "未推荐"
}

/// Featured badge markup: present exactly when the row is featured.
pub fn get_good_status<'a>(good: i16) -> (r: &'a str)
    ensures
        good == 1 ==> r@ == "<span class='badge bg-secondary ms-2'>推荐</span>"@,
        good != 1 ==> r@ == ""@,
{
    if good == 1 {
        return "<span class='badge bg-secondary ms-2'>推荐</span>";
    }
    ""
}

} // verus!
