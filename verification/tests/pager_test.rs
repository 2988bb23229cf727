use huxi_server::widget::pager;

#[test]
fn no_pager_when_one_page_is_enough() {
    assert!(pager("/hu", 10, 20, 1).is_none());
    assert!(pager("/hu", 20, 20, 1).is_none());
    assert!(pager("/hu", 0, 20, 1).is_none());
}

#[test]
fn pager_has_one_link_per_page() {
    let p = pager("/hu", 100, 10, 5).unwrap();
    assert_eq!(p.pages.len(), 10);
    for (i, link) in p.pages.iter().enumerate() {
        assert_eq!(link.number, (i + 1) as u64);
    }
    assert!(p.prev.is_some());
    assert!(p.next.is_some());
}

#[test]
fn scenario_three_pages_on_page_two() {
    // total=45, size=20, current=2: links [1,2,3], 2 active, prev and next.
    let p = pager("/book", 45, 20, 2).unwrap();
    assert_eq!(p.pages.len(), 3);
    assert_eq!(p.pages[0].href.as_deref(), Some("/book?page=1"));
    assert!(p.pages[1].href.is_none());
    assert_eq!(p.pages[2].href.as_deref(), Some("/book?page=3"));
    assert_eq!(p.prev.as_deref(), Some("/book?page=1"));
    assert_eq!(p.next.as_deref(), Some("/book?page=3"));
}

#[test]
fn first_page_has_no_prev() {
    let p = pager("/x", 45, 20, 1).unwrap();
    assert!(p.prev.is_none());
    assert!(p.next.is_some());
    assert!(p.pages[0].href.is_none());
}

#[test]
fn last_page_has_no_next() {
    let p = pager("/x", 45, 20, 3).unwrap();
    assert!(p.prev.is_some());
    assert!(p.next.is_none());
    assert!(p.pages[2].href.is_none());
}

#[test]
fn one_row_over_a_page_makes_two_pages() {
    let p = pager("/x", 21, 20, 1).unwrap();
    assert_eq!(p.pages.len(), 2);
}
