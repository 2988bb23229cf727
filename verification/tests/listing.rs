use huxi_server::list::{List, ListBy};
use huxi_server::store::{Rec, Store};

fn rec(id: i32, user_id: i32, title: &str, cat: i16, typ: i16, public: i16, good: i16) -> Rec {
    Rec {
        id,
        user_id,
        user_name: format!("user{}", user_id),
        title: title.to_string(),
        i_type: typ,
        i_category: cat,
        i_public: public,
        good,
        i_good: 0,
        created_at: 1_700_000_000,
        search_text: format!("{} words", title),
        brief: None,
    }
}

fn sample_store() -> Store {
    // 7 published rows in category 3, 2 published in category 4, one draft.
    let mut s = Store::new();
    let mut id = 1;
    for _ in 0..7 {
        s.insert(rec(id, 7, "alpha", 3, 1, 1, 0));
        id += 1;
    }
    for _ in 0..2 {
        s.insert(rec(id, 8, "beta", 4, 1, 1, 0));
        id += 1;
    }
    s.insert(rec(id, 7, "draft entry", 3, 1, 0, 0));
    s
}

#[test]
fn scenario_published_category_page() {
    // AllPublished + category 3, page 1, size 5: 7 matching rows, 5 returned.
    let s = sample_store();
    let l = List::new(ListBy::AllPublic, 1).cat(Some(3)).size(5);
    let (total, rows) = s.list(&l);
    assert_eq!(total, 7);
    assert_eq!(rows.len(), 5);
    for r in &rows {
        assert_eq!(r.i_category, 3);
        assert_eq!(r.i_public, 1);
    }
}

#[test]
fn total_ignores_page_and_size() {
    let s = sample_store();
    let a = List::new(ListBy::AllPublic, 1).cat(Some(3)).size(5);
    let b = List::new(ListBy::AllPublic, 3).cat(Some(3)).size(2);
    let (ta, _) = s.list(&a);
    let (tb, _) = s.list(&b);
    assert_eq!(ta, tb);
}

#[test]
fn page_past_end_is_empty_not_error() {
    let s = sample_store();
    let l = List::new(ListBy::AllPublic, 10).cat(Some(3)).size(5);
    let (total, rows) = s.list(&l);
    assert_eq!(total, 7);
    assert!(total >= 0);
    assert!(rows.is_empty());
}

#[test]
fn rows_ordered_by_descending_id() {
    let s = sample_store();
    let l = List::new(ListBy::All, 1);
    let (_, rows) = s.list(&l);
    for w in rows.windows(2) {
        assert!(w[0].id > w[1].id);
    }
}

#[test]
fn owner_scope_never_leaks_other_owners() {
    let s = sample_store();
    let l = List::new(ListBy::UserId(7), 1).cat(Some(3)).title_search_key(Some("A".to_string()));
    let (_, rows) = s.list(&l);
    assert!(!rows.is_empty());
    for r in &rows {
        assert_eq!(r.user_id, 7);
    }
}

#[test]
fn published_scope_never_shows_drafts() {
    let s = sample_store();
    let l = List::new(ListBy::AllPublic, 1).cat(Some(3));
    let (total, rows) = s.list(&l);
    assert_eq!(total, 7);
    for r in &rows {
        assert_eq!(r.i_public, 1);
    }
}

#[test]
fn title_search_is_case_insensitive_substring() {
    let s = sample_store();
    let l = List::new(ListBy::All, 1).title_search_key(Some("ALPH".to_string()));
    let (total, _) = s.list(&l);
    assert_eq!(total, 7);
    let l2 = List::new(ListBy::All, 1).title_search_key(Some("nothing".to_string()));
    let (t2, rows2) = s.list(&l2);
    assert_eq!(t2, 0);
    assert!(rows2.is_empty());
}

#[test]
fn full_text_search_matches_search_vector() {
    let s = sample_store();
    let l = List::new(ListBy::All, 1).web_search_key(Some("WORDS".to_string()));
    let (total, _) = s.list(&l);
    assert_eq!(total, 10);
}

#[test]
fn featured_filter_restricts() {
    let mut s = Store::new();
    s.insert(rec(1, 1, "plain", 1, 1, 1, 0));
    s.insert(rec(2, 1, "starred", 1, 1, 1, 1));
    let l = List::new(ListBy::AllPublic, 1).good(Some(1));
    let (total, rows) = s.list(&l);
    assert_eq!(total, 1);
    assert_eq!(rows[0].id, 2);
}

#[test]
fn empty_store_lists_nothing() {
    let s = Store::new();
    let l = List::new(ListBy::All, 1);
    let (total, rows) = s.list(&l);
    assert_eq!(total, 0);
    assert!(rows.is_empty());
}

#[test]
fn page_zero_clamps_to_first_page() {
    let s = sample_store();
    let l = List::new(ListBy::All, 0);
    assert_eq!(l.page, 1);
    let (_, rows) = s.list(&l);
    assert!(!rows.is_empty());
}

#[test]
fn last_page_is_partial() {
    let s = sample_store();
    let l = List::new(ListBy::AllPublic, 2).cat(Some(3)).size(5);
    let (total, rows) = s.list(&l);
    assert_eq!(total, 7);
    assert_eq!(rows.len(), 2);
}

#[test]
fn search_variants_are_one_field() {
    // Selecting one search kind replaces the other entirely.
    let l = List::new(ListBy::All, 1)
        .web_search_key(Some("full".to_string()))
        .title_search_key(Some("sub".to_string()));
    match l.search {
        Some(huxi_server::list::SearchBy::TitleSubstring(k)) => assert_eq!(k, "sub"),
        _ => panic!("expected the substring search to be the only one left"),
    }
}
