use huxi_server::book::BookSimple;
use huxi_server::config;
use huxi_server::list::{List, ListBy};
use huxi_server::render::{DbList, GoodAction};

fn book_cfg() -> config::Book {
    config::Book {
        content_type: vec![(1, "novel".to_string(), "小说".to_string())],
        category: vec![(3, "cs".to_string(), "计算机".to_string())],
        upload_path: "/tmp/up".to_string(),
        public_url: "/files/book".to_string(),
        page_size: 20,
    }
}

fn sample_book(id: i32) -> BookSimple {
    BookSimple {
        book_id: id,
        title: "好书".to_string(),
        user_name: "作者".to_string(),
        i_type: 1,
        i_category: 3,
        good: 1,
        i_public: 1,
        i_good: 0,
        file: Some("cover.jpg".to_string()),
        url: None,
        brief_html: Some("<p>brief</p>".to_string()),
        created_at: 1_700_000_000,
    }
}

#[test]
fn book_row_view_for_a_moderator() {
    let cfg = book_cfg();
    let l = List::new(ListBy::AllPublic, 1).admin(false).sudo(true).show_cat_type_name();
    let view = l.list_book(30, vec![sample_book(5)], &cfg);
    assert!(!view.good_mode);
    assert!(!view.empty);
    let row = &view.rows[0];
    assert_eq!(row.view_url, "/book/view/5/index.html#start");
    assert!(row.good_badge);
    assert_eq!(row.thumb_src.as_deref(), Some("/files/book/s-cover.jpg"));
    assert_eq!(row.brief.as_deref(), Some("<p>brief</p>"));
    let (cat_href, cat_name) = row.cat_label.clone().unwrap();
    assert_eq!(cat_href, "/book/cat/cs");
    assert_eq!(cat_name, "计算机");
    let (type_href, type_name2) = row.type_label.clone().unwrap();
    assert_eq!(type_href, "/book/cat/cs/novel");
    assert_eq!(type_name2, "小说");
    let admin = row.admin.clone().unwrap();
    assert_eq!(admin.edit_url, "/my/book/edit/5#start");
    let rm = admin.rm_url.clone().unwrap();
    assert!(rm.starts_with("javascript:if(confirm("));
    assert!(rm.ends_with("location='/my/book/rm/5'"));
    match admin.good_action.unwrap() {
        GoodAction::Withdraw(u) => assert_eq!(u, "/my/book/good/cancel/5"),
        GoodAction::Feature(_) => panic!("a featured row offers withdrawal"),
    }
}

#[test]
fn plain_visitor_sees_no_management_controls() {
    let cfg = book_cfg();
    let l = List::new(ListBy::AllPublic, 1).admin(false).search(false);
    let view = l.list_book(1, vec![sample_book(9)], &cfg);
    assert!(view.rows[0].admin.is_none());
    assert!(view.search_bar.is_none());
    assert!(view.rows[0].cat_label.is_none());
}

#[test]
fn unresolved_category_label_is_omitted() {
    let cfg = book_cfg();
    let mut b = sample_book(2);
    b.i_category = 99;
    let l = List::new(ListBy::AllPublic, 1).show_cat_type_name();
    let view = l.list_book(1, vec![b], &cfg);
    assert!(view.rows[0].cat_label.is_none());
    assert!(view.rows[0].type_label.is_none());
}

#[test]
fn empty_listing_shows_placeholder_marker() {
    let cfg = book_cfg();
    let l = List::new(ListBy::AllPublic, 1);
    let view = l.list_book(0, Vec::new(), &cfg);
    assert!(view.empty);
    assert!(view.rows.is_empty());
    assert!(view.pager.is_none());
}

#[test]
fn pager_appears_only_with_base_path_and_overflow() {
    let cfg = book_cfg();
    let l = List::new(ListBy::AllPublic, 1).pager(Some("/book/cat/cs".to_string()));
    let view = l.list_book(45, vec![sample_book(1)], &cfg);
    let p = view.pager.unwrap();
    assert_eq!(p.pages.len(), 3);
    assert_eq!(p.pages[1].href.as_deref(), Some("/book/cat/cs?page=2"));
    let l2 = List::new(ListBy::AllPublic, 1).pager(Some("/book/cat/cs".to_string()));
    let view2 = l2.list_book(5, vec![sample_book(1)], &cfg);
    assert!(view2.pager.is_none());
}

#[test]
fn search_bar_carries_filter_context() {
    let cfg = book_cfg();
    let l = List::new(ListBy::UserId(1), 1).cat(Some(3)).i_type(Some(1));
    let view = l.list_book(1, vec![sample_book(1)], &cfg);
    let sb = view.search_bar.unwrap();
    assert_eq!(sb.action_url, "/my/book/search");
    assert_eq!(sb.new_url, "/my/book/add?cat=3&typ=1#start");
}

#[test]
fn featured_widget_uses_compact_mode() {
    let cfg = book_cfg();
    let l = List::new(ListBy::AllPublic, 1)
        .sudo(true)
        .good(Some(1))
        .pager(Some("/book".to_string()))
        .i_tip(Some("tip".to_string()));
    let view = l.list_book(100, vec![sample_book(4)], &cfg);
    assert!(view.good_mode);
    assert!(view.pager.is_none());
    assert!(view.search_bar.is_none());
    assert!(view.tip.is_none());
    // the compact strip: edit and withdraw only — no labels, no delete
    let admin = view.rows[0].admin.clone().unwrap();
    assert_eq!(admin.edit_url, "/my/book/edit/4#start");
    assert!(admin.status.is_empty());
    assert!(admin.igood.is_empty());
    assert!(admin.rm_url.is_none());
    match admin.good_action.unwrap() {
        GoodAction::Withdraw(u) => assert_eq!(u, "/my/book/good/cancel/4"),
        GoodAction::Feature(_) => panic!("the compact widget only offers withdrawal"),
    }
}

#[test]
fn show_dispatches_by_content_type() {
    let cfg = config::WebConfig {
        host: config::Host {
            name: "n".to_string(),
            www: "w".to_string(),
            my_name: "m".to_string(),
            logo: "l".to_string(),
            icp: "i".to_string(),
            copyright: "c".to_string(),
            domain: "d".to_string(),
        },
        database: config::Database { url: "u".to_string() },
        email: config::EmailServer {
            stmp_server: "s".to_string(),
            stmp_user: "u".to_string(),
            stmp_password: "p".to_string(),
            stmp_from: "f".to_string(),
        },
        hu: config::Hu { content_type: vec![], category: vec![], page_size: 20 },
        book: book_cfg(),
        xi: config::Xi { content_type: vec![], category: vec![], page_size: 20 },
        image: config::Image {
            upload_path: "x".to_string(),
            public_url: "y".to_string(),
            resize: vec![],
        },
        user: config::User { upload_path: "a".to_string(), public_url: "b".to_string() },
    };
    let l = List::new(ListBy::AllPublic, 1);
    let view = l.show(1, DbList::Book(vec![sample_book(3)]), &cfg);
    assert_eq!(view.rows.len(), 1);
    assert_eq!(view.rows[0].view_url, "/book/view/3/index.html#start");
    let l2 = List::new(ListBy::AllPublic, 1);
    let view2 = l2.show(0, DbList::Hu(vec![]), &cfg);
    assert!(view2.empty);
}

#[test]
fn draft_and_request_labels_for_owner() {
    let cfg = book_cfg();
    let mut b = sample_book(11);
    b.i_public = 0;
    b.good = 0;
    b.i_good = 1;
    let l = List::new(ListBy::UserId(1), 1);
    let view = l.list_book(1, vec![b], &cfg);
    let admin = view.rows[0].admin.clone().unwrap();
    assert_eq!(admin.status, "<span class='text-danger'>草稿</span>");
    assert_eq!(admin.igood, "申请推荐");
    assert!(admin.good_action.is_none());
    assert!(!view.rows[0].good_badge);
}
