//! The list renderer, as verified view models: every presentation
//! decision of a listing — which management actions appear for whom,
//! which labels resolve, how links are spelled — is computed here with a
//! contract; turning the view model into HTML is left to the (unverified)
//! template layer.

use vstd::prelude::*;

use crate::book::BookSimple;
use crate::config::{find_by_id, vec_entries, CategoryType, WebConfig};
use crate::hu::HuSimple;
use crate::list::{List, ShowType};
use crate::text::{dec_i64, spec_dec_int};
use crate::widget::{pager, show_date, spec_civil_date, spec_clamp, spec_page_count, spec_page_href, PagerView};
use crate::xi::XiSimple;

verus! {

/// The search form above a listing: where it posts, and where the
/// "create new" shortcut goes, carrying the current category and type.
pub struct SearchBarView {
    pub action_url: String,
    pub new_url: String,
}

/// What the search form's action and shortcut must be.
pub open spec fn search_bar_ok(r: SearchBarView, ty: Seq<char>, cat: int, typ: int, my: bool) -> bool {
    &&& r.action_url@ == (if my {
        "/my/"@ + ty + "/search"@
    } else {
        "/"@ + ty + "/search"@
    })
    &&& r.new_url@ == "/my/"@ + ty + "/add?cat="@ + crate::text::spec_dec(cat) + "&typ="@
        + crate::text::spec_dec(typ) + "#start"@
}

/// The search form of one content module.  Owners search their own
/// rows (`my`), visitors the published ones.
pub fn search_bar(ty: &str, cat: u8, typ: u8, my: bool) -> (r: SearchBarView)
    ensures
        search_bar_ok(r, ty@, cat as int, typ as int, my),
{
    let mut action = String::new();
    if my {
        action.append("/my/");
    } else {
        action.append("/");
    }
    action.append(ty);
    action.append("/search");
    let mut new_url = String::new();
    new_url.append("/my/");
    new_url.append(ty);
    new_url.append("/add?cat=");
    let c = crate::text::dec_u64(cat as u64);
    new_url.append(c.as_str());
    new_url.append("&typ=");
    let t = crate::text::dec_u64(typ as u64);
    new_url.append(t.as_str());
    new_url.append("#start");
    SearchBarView { action_url: action, new_url }
}

/// The featured-flag toggle a moderator sees: exactly one of the two,
/// decided by the row's current state.
#[derive(Clone)]
pub enum GoodAction {
    /// Offer to feature the row; the target address.
    Feature(String),
    /// Offer to withdraw the feature; the target address.
    Withdraw(String),
}

/// The management strip of one row, shown to the owner and to
/// moderators.  The compact featured widget keeps only the edit link
/// and the moderator's withdraw action; the full list adds the status
/// labels and the delete action.
#[derive(Clone)]
pub struct AdminView {
    /// Draft/published label, as fixed badge markup; empty in the
    /// compact widget.
    pub status: String,
    /// Feature-request state label; empty in the compact widget.
    pub igood: String,
    pub edit_url: String,
    /// The delete action, wrapped in an explicit confirm dialog — never
    /// a bare one-click link; absent in the compact widget.
    pub rm_url: Option<String>,
    /// Present only for moderators.
    pub good_action: Option<GoodAction>,
}

/// What the management strip of a row must hold, for module path segment
/// `m` and the row's id and flags.  In the compact featured widget
/// (`compact`), only the edit link and the moderator's withdraw action
/// remain: no status labels and no delete.
pub open spec fn admin_ok(
    av: AdminView,
    m: Seq<char>,
    id: int,
    i_public: i16,
    i_good: i16,
    good: i16,
    sudo: bool,
    compact: bool,
) -> bool {
    &&& av.edit_url@ == "/my/"@ + m + "/edit/"@ + spec_dec_int(id) + "#start"@
    &&& (av.good_action is Some <==> sudo)
    &&& (compact ==> av.status@ == Seq::<char>::empty())
    &&& (compact ==> av.igood@ == Seq::<char>::empty())
    &&& (compact ==> av.rm_url is None)
    &&& (compact && sudo ==> (av.good_action matches Some(GoodAction::Withdraw(u)) && u@
        == "/my/"@ + m + "/good/cancel/"@ + spec_dec_int(id)))
    &&& (!compact ==> av.status@ == (if i_public == 0 {
        "<span class='text-danger'>草稿</span>"@
    } else if i_public == 1 {
        "<span class='text-success'>已公布</span>"@
    } else {
        Seq::<char>::empty()
    }))
    &&& (!compact ==> av.igood@ == (if i_good == 1 && good == 0 {
        "申请推荐"@
    } else if good == 1 {
        "已推荐"@
    } else {
        "未推荐"@
    }))
    &&& (!compact ==> (av.rm_url matches Some(u) && u@
        == "javascript:if(confirm('确实要删除吗?'))location='/my/"@ + m + "/rm/"@
        + spec_dec_int(id) + "'"@))
    &&& (!compact && sudo && good == 1 ==> (av.good_action matches Some(GoodAction::Withdraw(u))
        && u@ == "/my/"@ + m + "/good/cancel/"@ + spec_dec_int(id)))
    &&& (!compact && sudo && good != 1 ==> (av.good_action matches Some(GoodAction::Feature(u))
        && u@ == "/my/"@ + m + "/good/"@ + spec_dec_int(id)))
}

/// Builds the management strip of one row.
pub fn admin_view(m: &str, id: i32, i_public: i16, i_good: i16, good: i16, sudo: bool, compact: bool) -> (av:
    AdminView)
    ensures
        admin_ok(av, m@, id as int, i_public, i_good, good, sudo, compact),
{
    let ids = dec_i64(id as i64);
    let mut status = String::new();
    let mut igood = String::new();
    if !compact {
        if i_public == 0 {
            status.append("<span class='text-danger'>草稿</span>");
        } else if i_public == 1 {
            status.append("<span class='text-success'>已公布</span>");
        }
        if i_good == 1 && good == 0 {
            igood.append("申请推荐");
        } else if good == 1 {
            igood.append("已推荐");
        } else {
            igood.append("未推荐");
        }
    }
    let mut edit_url = String::new();
    edit_url.append("/my/");
    edit_url.append(m);
    edit_url.append("/edit/");
    edit_url.append(ids.as_str());
    edit_url.append("#start");
    let rm_url: Option<String> = if compact {
        None
    } else {
        let mut u = String::new();
        u.append("javascript:if(confirm('确实要删除吗?'))location='/my/");
        u.append(m);
        u.append("/rm/");
        u.append(ids.as_str());
        u.append("'");
        Some(u)
    };
    let good_action: Option<GoodAction> = if sudo {
        if compact || good == 1 {
            let mut u = String::new();
            u.append("/my/");
            u.append(m);
            u.append("/good/cancel/");
            u.append(ids.as_str());
            Some(GoodAction::Withdraw(u))
        } else {
            let mut u = String::new();
            u.append("/my/");
            u.append(m);
            u.append("/good/");
            u.append(ids.as_str());
            Some(GoodAction::Feature(u))
        }
    } else {
        None
    };
    AdminView { status, igood, edit_url, rm_url, good_action }
}

/// What the category and type labels of a row must be: nothing unless
/// the listing asks for labels; otherwise the category resolved through
/// the lookup table, and the type only when the category resolved too.
/// An id the table does not know simply yields no label.
pub open spec fn labels_ok(
    cat_label: Option<(String, String)>,
    type_label: Option<(String, String)>,
    show: bool,
    admin: bool,
    m: Seq<char>,
    cats: Seq<(u8, Seq<char>, Seq<char>)>,
    types: Seq<(u8, Seq<char>, Seq<char>)>,
    i_category: i16,
    i_type: i16,
) -> bool {
    let cat_url = if admin {
        "/my/"@ + m + "/cat/"@
    } else {
        "/"@ + m + "/cat/"@
    };
    if !show {
        cat_label is None && type_label is None
    } else {
        match find_by_id(cats, i_category as u8) {
            None => cat_label is None && type_label is None,
            Some(t) => {
                &&& (cat_label matches Some(cl) && cl.0@ == cat_url + t.1 && cl.1@ == t.2)
                &&& (match find_by_id(types, i_type as u8) {
                    None => type_label is None,
                    Some(t2) => type_label matches Some(tl) && tl.0@ == cat_url + t.1 + "/"@
                        + t2.1 && tl.1@ == t2.2,
                })
            },
        }
    }
}

/// Resolves the category and type labels of one row.
pub fn cat_type_labels(
    show: bool,
    admin: bool,
    m: &str,
    cats: &Vec<(u8, String, String)>,
    types: &Vec<(u8, String, String)>,
    i_category: i16,
    i_type: i16,
) -> (r: (Option<(String, String)>, Option<(String, String)>))
    ensures
        labels_ok(
            r.0,
            r.1,
            show,
            admin,
            m@,
            vec_entries(cats@),
            vec_entries(types@),
            i_category,
            i_type,
        ),
{
    if !show {
        return (None, None);
    }
    let cat_id = #[verifier::truncate] (i_category as u8);
    let type_id = #[verifier::truncate] (i_type as u8);
    match cats.path_name(cat_id) {
        None => (None, None),
        Some((cat_path, cat_name)) => {
            let mut cat_href = String::new();
            if admin {
                cat_href.append("/my/");
            } else {
                cat_href.append("/");
            }
            cat_href.append(m);
            cat_href.append("/cat/");
            cat_href.append(cat_path.as_str());
            let type_label: Option<(String, String)> = match types.path_name(type_id) {
                None => None,
                Some((ty_path, ty_name)) => {
                    let mut type_href = String::new();
                    if admin {
                        type_href.append("/my/");
                    } else {
                        type_href.append("/");
                    }
                    type_href.append(m);
                    type_href.append("/cat/");
                    type_href.append(cat_path.as_str());
                    type_href.append("/");
                    type_href.append(ty_path.as_str());
                    Some((type_href, ty_name))
                },
            };
            (Some((cat_href, cat_name)), type_label)
        },
    }
}

/// One listed row, fully decided: every address spelled out, every
/// conditional element either present or absent.
pub struct RowView {
    pub id: i32,
    pub title: String,
    pub view_url: String,
    pub user_name: String,
    pub date: String,
    pub good_badge: bool,
    pub cat_label: Option<(String, String)>,
    pub type_label: Option<(String, String)>,
    pub thumb_src: Option<String>,
    pub brief: Option<String>,
    pub body_html: Option<String>,
    pub link_url: Option<String>,
    pub admin: Option<AdminView>,
}

/// The fields every row view shares, whatever the content type: title
/// and owner carried over, the row's creation instant shown as its
/// local calendar date (shifted by at most the zone's day-bounded
/// offset), the featured badge exactly on featured rows, the detail
/// address under the module's path, labels per the lookup tables, and
/// the management strip exactly for owners and moderators, shaped by
/// the presentation mode.
pub open spec fn row_common_ok(
    rv: RowView,
    m: Seq<char>,
    id: int,
    title: String,
    user_name: String,
    i_category: i16,
    i_type: i16,
    i_public: i16,
    good: i16,
    i_good: i16,
    created_at: i64,
    l: List,
    cats: Seq<(u8, Seq<char>, Seq<char>)>,
    types: Seq<(u8, Seq<char>, Seq<char>)>,
) -> bool {
    &&& rv.id == id
    &&& rv.title == title
    &&& rv.user_name == user_name
    &&& rv.view_url@ == "/"@ + m + "/view/"@ + spec_dec_int(id) + "/index.html#start"@
    &&& rv.good_badge <==> good == 1
    &&& (exists|t: int|
        spec_clamp(created_at as int) - 86400 <= t <= spec_clamp(created_at as int) + 86400
            && rv.date@ == #[trigger] spec_civil_date(t))
    &&& labels_ok(
        rv.cat_label,
        rv.type_label,
        l.show_cat_type_name,
        l.admin,
        m,
        cats,
        types,
        i_category,
        i_type,
    )
    &&& (rv.admin is Some <==> (l.admin || l.sudo))
    &&& (rv.admin matches Some(av) ==> admin_ok(
        av,
        m,
        id,
        i_public,
        i_good,
        good,
        l.sudo,
        l.show_type is Good,
    ))
}

fn row_common(
    m: &str,
    id: i32,
    title: String,
    user_name: String,
    i_category: i16,
    i_type: i16,
    i_public: i16,
    good: i16,
    i_good: i16,
    created_at: i64,
    l: &List,
    cats: &Vec<(u8, String, String)>,
    types: &Vec<(u8, String, String)>,
) -> (rv: RowView)
    ensures
        row_common_ok(
            rv,
            m@,
            id as int,
            title,
            user_name,
            i_category,
            i_type,
            i_public,
            good,
            i_good,
            created_at,
            *l,
            vec_entries(cats@),
            vec_entries(types@),
        ),
        rv.thumb_src is None,
        rv.brief is None,
        rv.body_html is None,
        rv.link_url is None,
{
    let mut view_url = String::new();
    view_url.append("/");
    view_url.append(m);
    view_url.append("/view/");
    let ids = dec_i64(id as i64);
    view_url.append(ids.as_str());
    view_url.append("/index.html#start");
    let (cat_label, type_label) = cat_type_labels(
        l.show_cat_type_name,
        l.admin,
        m,
        cats,
        types,
        i_category,
        i_type,
    );
    let compact = match &l.show_type {
        ShowType::Normal => false,
        ShowType::Good => true,
    };
    let admin: Option<AdminView> = if l.admin || l.sudo {
        Some(admin_view(m, id, i_public, i_good, good, l.sudo, compact))
    } else {
        None
    };
    RowView {
        id,
        title,
        view_url,
        user_name,
        date: show_date(created_at),
        good_badge: good == 1,
        cat_label,
        type_label,
        thumb_src: None,
        brief: None,
        body_html: None,
        link_url: None,
        admin,
    }
}

/// A whole rendered listing: the banner, the search form, the decided
/// rows, the pager, and whether the compact featured template applies.
/// An empty listing says so, rather than showing a bare container.
pub struct ListView {
    pub tip: Option<String>,
    pub search_bar: Option<SearchBarView>,
    pub rows: Vec<RowView>,
    pub pager: Option<PagerView>,
    pub good_mode: bool,
    pub empty: bool,
}

/// The page rows of one listing query, by content type.
pub enum DbList {
    Book(Vec<BookSimple>),
    Hu(Vec<HuSimple>),
    Xi(Vec<XiSimple>),
}

/// The frame every listing shares: banner, search form and pager appear
/// only in the normal mode, the search form only when asked for, the
/// pager only when a base path was given and a second page exists; the
/// empty marker is set exactly on an empty page.
pub open spec fn frame_ok(
    r: ListView,
    l: List,
    m: Seq<char>,
    total: int,
    n_rows: int,
) -> bool {
    &&& r.good_mode == (l.show_type is Good)
    &&& r.empty <==> n_rows == 0
    &&& r.tip == (if l.show_type is Normal {
        l.tip
    } else {
        Option::<String>::None
    })
    &&& (r.search_bar is Some <==> (l.show_type is Normal && l.show_search_bar))
    &&& (r.search_bar matches Some(sb) ==> search_bar_ok(
        sb,
        m,
        match l.cat {
            Some(c) => c as int,
            None => 0,
        },
        match l.i_type {
            Some(t) => t as int,
            None => 0,
        },
        l.admin,
    ))
    &&& (r.pager is Some <==> (l.show_type is Normal && l.pager is Some && total > l.size))
    &&& (r.pager matches Some(p) ==> {
        &&& p.pages@.len() == spec_page_count(total, l.size as int)
        &&& forall|i: int| 0 <= i < p.pages@.len() ==> (#[trigger] p.pages@[i]).number == i + 1
        &&& forall|i: int|
            0 <= i < p.pages@.len() ==> ((#[trigger] p.pages@[i]).href is None <==> i + 1
                == l.page)
        &&& forall|i: int|
            0 <= i < p.pages@.len() && i + 1 != l.page ==> ((#[trigger] p.pages@[i]).href
                matches Some(h) && h@ == spec_page_href(l.pager->Some_0@, i + 1))
        &&& (p.prev is Some <==> l.page != 1)
        &&& (p.prev matches Some(h) ==> h@ == spec_page_href(l.pager->Some_0@, l.page as int - 1))
        &&& (p.next is Some <==> l.page < spec_page_count(total, l.size as int))
        &&& (p.next matches Some(h) ==> h@ == spec_page_href(l.pager->Some_0@, l.page as int + 1))
    })
}

/// Builds the shared frame around already-decided rows.
fn frame(l: List, m: &str, total: i64, rows: Vec<RowView>) -> (r: ListView)
    requires
        l.wf(),
    ensures
        frame_ok(r, l, m@, total as int, rows@.len() as int),
        r.rows == rows,
{
    let good_mode = match &l.show_type {
        ShowType::Normal => false,
        ShowType::Good => true,
    };
    let tip = if good_mode {
        None
    } else {
        l.tip
    };
    let sb: Option<SearchBarView> = if !good_mode && l.show_search_bar {
        let cat0 = match l.cat {
            Some(c) => c,
            None => 0,
        };
        let typ0 = match l.i_type {
            Some(t) => t,
            None => 0,
        };
        Some(search_bar(m, cat0, typ0, l.admin))
    } else {
        None
    };
    let pg: Option<PagerView> = if good_mode {
        None
    } else {
        match &l.pager {
            Some(p) => pager(p.as_str(), total, l.size, l.page),
            None => None,
        }
    };
    let empty = rows.len() == 0;
    ListView { tip, search_bar: sb, rows, pager: pg, good_mode, empty }
}

/// What each book row view adds to the common part: the thumbnail
/// address built from the upload area and the stored file name, the
/// pre-rendered brief, and the outward link.
pub open spec fn book_row_ok(
    rv: RowView,
    row: BookSimple,
    l: List,
    cats: Seq<(u8, Seq<char>, Seq<char>)>,
    types: Seq<(u8, Seq<char>, Seq<char>)>,
    public_url: Seq<char>,
) -> bool {
    &&& row_common_ok(
        rv,
        "book"@,
        row.book_id as int,
        row.title,
        row.user_name,
        row.i_category,
        row.i_type,
        row.i_public,
        row.good,
        row.i_good,
        row.created_at,
        l,
        cats,
        types,
    )
    &&& (rv.thumb_src matches Some(s) && s@ == public_url + "/s-"@ + (match row.file {
        Some(f) => f@,
        None => Seq::<char>::empty(),
    }))
    &&& rv.brief == row.brief_html
    &&& rv.body_html is None
    &&& rv.link_url == row.url
}

/// What each article row view adds: the plain-text brief and the
/// outward link; articles carry no thumbnail.
pub open spec fn hu_row_ok(
    rv: RowView,
    row: HuSimple,
    l: List,
    cats: Seq<(u8, Seq<char>, Seq<char>)>,
    types: Seq<(u8, Seq<char>, Seq<char>)>,
) -> bool {
    &&& row_common_ok(
        rv,
        "hu"@,
        row.hu_id as int,
        row.title,
        row.user_name,
        row.i_category,
        row.i_type,
        row.i_public,
        row.good,
        row.i_good,
        row.created_at,
        l,
        cats,
        types,
    )
    &&& rv.thumb_src is None
    &&& rv.brief == row.brief
    &&& rv.body_html is None
    &&& rv.link_url == row.url
}

/// What each micro-post row view adds: the pre-rendered body and the
/// outward link.
pub open spec fn xi_row_ok(
    rv: RowView,
    row: XiSimple,
    l: List,
    cats: Seq<(u8, Seq<char>, Seq<char>)>,
    types: Seq<(u8, Seq<char>, Seq<char>)>,
) -> bool {
    &&& row_common_ok(
        rv,
        "xi"@,
        row.xi_id as int,
        row.title,
        row.user_name,
        row.i_category,
        row.i_type,
        row.i_public,
        row.good,
        row.i_good,
        row.created_at,
        l,
        cats,
        types,
    )
    &&& rv.thumb_src is None
    &&& rv.brief is None
    &&& (rv.body_html matches Some(h) && h@ == row.html@)
    &&& rv.link_url == row.url
}

impl List {
    /// Renders one page of book rows.
    pub fn list_book(self, total: i64, data: Vec<BookSimple>, cfg: &crate::config::Book) -> (r:
        ListView)
        requires
            self.wf(),
        ensures
            frame_ok(r, self, "book"@, total as int, data@.len() as int),
            r.rows@.len() == data@.len(),
            forall|i: int|
                0 <= i < data@.len() ==> book_row_ok(
                    #[trigger] r.rows@[i],
                    data@[i],
                    self,
                    vec_entries(cfg.category@),
                    vec_entries(cfg.content_type@),
                    cfg.public_url@,
                ),
    {
        let mut rows: Vec<RowView> = Vec::new();
        let mut i: usize = 0;
        while i < data.len()
            invariant
                i <= data@.len(),
                rows@.len() == i,
                forall|k: int|
                    0 <= k < i ==> book_row_ok(
                        #[trigger] rows@[k],
                        data@[k],
                        self,
                        vec_entries(cfg.category@),
                        vec_entries(cfg.content_type@),
                        cfg.public_url@,
                    ),
            decreases data@.len() - i,
        {
            let row = &data[i];
            let mut rv = row_common(
                "book",
                row.book_id,
                row.title.clone(),
                row.user_name.clone(),
                row.i_category,
                row.i_type,
                row.i_public,
                row.good,
                row.i_good,
                row.created_at,
                &self,
                &cfg.category,
                &cfg.content_type,
            );
            let mut thumb = String::new();
            thumb.append(cfg.public_url.as_str());
            thumb.append("/s-");
            match &row.file {
                Some(f) => {
                    thumb.append(f.as_str());
                },
                None => {},
            }
            rv.thumb_src = Some(thumb);
            rv.brief = match &row.brief_html {
                Some(b) => Some(b.clone()),
                None => None,
            };
            rv.link_url = match &row.url {
                Some(u) => Some(u.clone()),
                None => None,
            };
            rows.push(rv);
            i = i + 1;
        }
        frame(self, "book", total, rows)
    }

    /// Renders one page of article rows.
    pub fn list_hu(self, total: i64, data: Vec<HuSimple>, cfg: &crate::config::Hu) -> (r:
        ListView)
        requires
            self.wf(),
        ensures
            frame_ok(r, self, "hu"@, total as int, data@.len() as int),
            r.rows@.len() == data@.len(),
            forall|i: int|
                0 <= i < data@.len() ==> hu_row_ok(
                    #[trigger] r.rows@[i],
                    data@[i],
                    self,
                    vec_entries(cfg.category@),
                    vec_entries(cfg.content_type@),
                ),
    {
        let mut rows: Vec<RowView> = Vec::new();
        let mut i: usize = 0;
        while i < data.len()
            invariant
                i <= data@.len(),
                rows@.len() == i,
                forall|k: int|
                    0 <= k < i ==> hu_row_ok(
                        #[trigger] rows@[k],
                        data@[k],
                        self,
                        vec_entries(cfg.category@),
                        vec_entries(cfg.content_type@),
                    ),
            decreases data@.len() - i,
        {
            let row = &data[i];
            let mut rv = row_common(
                "hu",
                row.hu_id,
                row.title.clone(),
                row.user_name.clone(),
                row.i_category,
                row.i_type,
                row.i_public,
                row.good,
                row.i_good,
                row.created_at,
                &self,
                &cfg.category,
                &cfg.content_type,
            );
            rv.brief = match &row.brief {
                Some(b) => Some(b.clone()),
                None => None,
            };
            rv.link_url = match &row.url {
                Some(u) => Some(u.clone()),
                None => None,
            };
            rows.push(rv);
            i = i + 1;
        }
        frame(self, "hu", total, rows)
    }

    /// Renders one page of micro-post rows.
    pub fn list_xi(self, total: i64, data: Vec<XiSimple>, cfg: &crate::config::Xi) -> (r:
        ListView)
        requires
            self.wf(),
        ensures
            frame_ok(r, self, "xi"@, total as int, data@.len() as int),
            r.rows@.len() == data@.len(),
            forall|i: int|
                0 <= i < data@.len() ==> xi_row_ok(
                    #[trigger] r.rows@[i],
                    data@[i],
                    self,
                    vec_entries(cfg.category@),
                    vec_entries(cfg.content_type@),
                ),
    {
        let mut rows: Vec<RowView> = Vec::new();
        let mut i: usize = 0;
        while i < data.len()
            invariant
                i <= data@.len(),
                rows@.len() == i,
                forall|k: int|
                    0 <= k < i ==> xi_row_ok(
                        #[trigger] rows@[k],
                        data@[k],
                        self,
                        vec_entries(cfg.category@),
                        vec_entries(cfg.content_type@),
                    ),
            decreases data@.len() - i,
        {
            let row = &data[i];
            let mut rv = row_common(
                "xi",
                row.xi_id,
                row.title.clone(),
                row.user_name.clone(),
                row.i_category,
                row.i_type,
                row.i_public,
                row.good,
                row.i_good,
                row.created_at,
                &self,
                &cfg.category,
                &cfg.content_type,
            );
            rv.body_html = Some(row.html.clone());
            rv.link_url = match &row.url {
                Some(u) => Some(u.clone()),
                None => None,
            };
            rows.push(rv);
            i = i + 1;
        }
        frame(self, "xi", total, rows)
    }

    /// Renders one listing result, whatever content type it came from.
    pub fn show(self, total: i64, db: DbList, cfg: &WebConfig) -> (r: ListView)
        requires
            self.wf(),
        ensures
            db matches DbList::Book(data) ==> frame_ok(r, self, "book"@, total as int, data@.len() as int)
                && r.rows@.len() == data@.len() && (forall|i: int|
                0 <= i < data@.len() ==> book_row_ok(
                    #[trigger] r.rows@[i],
                    data@[i],
                    self,
                    vec_entries(cfg.book.category@),
                    vec_entries(cfg.book.content_type@),
                    cfg.book.public_url@,
                )),
            db matches DbList::Hu(data) ==> frame_ok(r, self, "hu"@, total as int, data@.len() as int)
                && r.rows@.len() == data@.len() && (forall|i: int|
                0 <= i < data@.len() ==> hu_row_ok(
                    #[trigger] r.rows@[i],
                    data@[i],
                    self,
                    vec_entries(cfg.hu.category@),
                    vec_entries(cfg.hu.content_type@),
                )),
            db matches DbList::Xi(data) ==> frame_ok(r, self, "xi"@, total as int, data@.len() as int)
                && r.rows@.len() == data@.len() && (forall|i: int|
                0 <= i < data@.len() ==> xi_row_ok(
                    #[trigger] r.rows@[i],
                    data@[i],
                    self,
                    vec_entries(cfg.xi.category@),
                    vec_entries(cfg.xi.content_type@),
                )),
    {
        match db {
            DbList::Book(data) => self.list_book(total, data, &cfg.book),
            DbList::Hu(data) => self.list_hu(total, data, &cfg.hu),
            DbList::Xi(data) => self.list_xi(total, data, &cfg.xi),
        }
    }
}

} // verus!
