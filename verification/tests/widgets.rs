use huxi_server::list::{get_good_status, get_igood_status, get_status_name, PUBLIC_STATUS_HTML};
use huxi_server::widget::{format_date, redirect_script, show_date, show_day, show_time, CatType, Pagination, TextArea, TextInput};

#[test]
fn status_name_lookup() {
    assert_eq!(
        get_status_name(PUBLIC_STATUS_HTML, 0),
        Some("<span class='text-danger'>草稿</span>")
    );
    assert_eq!(
        get_status_name(PUBLIC_STATUS_HTML, 1),
        Some("<span class='text-success'>已公布</span>")
    );
    assert_eq!(get_status_name(PUBLIC_STATUS_HTML, 5), None);
}

#[test]
fn feature_status_labels() {
    assert_eq!(get_igood_status(1, 0), "申请推荐");
    assert_eq!(get_igood_status(0, 1), "已推荐");
    assert_eq!(get_igood_status(0, 0), "未推荐");
    assert_eq!(get_good_status(1), "<span class='badge bg-secondary ms-2'>推荐</span>");
    assert_eq!(get_good_status(0), "");
}

#[test]
fn date_formatting_is_zero_padded() {
    assert_eq!(format_date(2024, 3, 7), "2024-03-07");
    assert_eq!(format_date(1999, 12, 31), "1999-12-31");
}

#[test]
fn shown_date_is_well_formed() {
    let s = show_date(1_700_000_000);
    let cs: Vec<char> = s.chars().collect();
    assert_eq!(cs.len(), 10);
    assert_eq!(cs[4], '-');
    assert_eq!(cs[7], '-');
    let d = show_day(1_700_000_000);
    assert_eq!(d.chars().count(), 5);
    let t = show_time(1_700_000_000);
    assert_eq!(t.chars().count(), 19);
    assert_eq!(t.chars().nth(10), Some(' '));
}

#[test]
fn text_input_builder_defaults_and_setters() {
    let t = TextInput::new("id1", "name1", true);
    assert_eq!(t.my_type, "text");
    assert_eq!(t.class, "form-control mb-3");
    assert!(t.required);
    assert!(t.value.is_none());
    let t = t.with_type("password").placeholder("pw").value(Some("v".to_string())).checked();
    assert_eq!(t.my_type, "password");
    assert_eq!(t.placeholder, "pw");
    assert_eq!(t.value.as_deref(), Some("v"));
    assert!(t.checked);
}

#[test]
fn text_area_builder_defaults_and_setters() {
    let a = TextArea::new("id2", "name2", false);
    assert_eq!(a.rows, 5);
    assert_eq!(a.class, "form-control");
    assert!(!a.md);
    let a = a.text(Some("body".to_string())).rows(9).md();
    assert_eq!(a.text.as_deref(), Some("body"));
    assert_eq!(a.rows, 9);
    assert!(a.md);
}

#[test]
fn pagination_defaults_to_first_page() {
    let p = Pagination::default();
    assert_eq!(p.page, 1);
    let c = CatType::default();
    assert_eq!(c.cat, 0);
    assert_eq!(c.typ, 0);
}

#[test]
fn redirect_script_embeds_target() {
    let s = redirect_script("/hu/view/5/index.html");
    assert!(s.starts_with("\n<div class=\"text-center m-2\">"));
    assert!(s.contains("window.location = \"/hu/view/5/index.html\";"));
    assert!(s.contains("setTimeout('Redirect()', time * 1000);"));
}
