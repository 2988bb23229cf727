use huxi_server::config::CategoryType;

fn table() -> Vec<(u8, String, String)> {
    vec![
        (1, "life".to_string(), "生活".to_string()),
        (2, "tech".to_string(), "技术".to_string()),
        (3, "art".to_string(), "艺术".to_string()),
    ]
}

#[test]
fn id_to_path_and_name() {
    let t = table();
    assert_eq!(t.path_name(2), Some(("tech".to_string(), "技术".to_string())));
    assert_eq!(t.path_name(9), None);
}

#[test]
fn path_to_id_and_name() {
    let t = table();
    assert_eq!(t.id("art"), Some(3));
    assert_eq!(t.id("none"), None);
    assert_eq!(t.name("life"), Some("生活".to_string()));
    assert_eq!(t.name("x"), None);
}

#[test]
fn id_round_trip_through_path() {
    let t = table();
    for id in [1u8, 2, 3] {
        let (path, _) = t.path_name(id).unwrap();
        assert_eq!(t.id(path.as_str()), Some(id));
    }
}

#[test]
fn first_match_wins_on_duplicate_ids() {
    let t: Vec<(u8, String, String)> = vec![
        (1, "a".to_string(), "A".to_string()),
        (1, "b".to_string(), "B".to_string()),
    ];
    assert_eq!(t.path_name(1), Some(("a".to_string(), "A".to_string())));
    // The path segments stay distinct, so the round trip still lands on
    // the entry that resolution picked.
    assert_eq!(t.id("a"), Some(1));
}
