use huxi_server::db::check_none;

#[test]
fn check_none_drops_empty_strings() {
    assert_eq!(check_none(&"".to_string()), None);
    assert_eq!(check_none(&"x".to_string()), Some("x".to_string()));
}

#[test]
fn book_check_trims_and_requires_fields() {
    let mut input = huxi_server::book::Input {
        title: "  读书  ".to_string(),
        author: "某人".to_string(),
        body: "介绍".to_string(),
        version: Some("".to_string()),
        press: Some("出版社".to_string()),
        ..Default::default()
    };
    assert!(input.check().is_ok());
    assert_eq!(input.title, "读书");
    assert_eq!(input.version, None);
    assert_eq!(input.press, Some("出版社".to_string()));
}

#[test]
fn book_check_reports_each_missing_field() {
    let mut input = huxi_server::book::Input {
        title: "   ".to_string(),
        author: "".to_string(),
        body: "b".to_string(),
        ..Default::default()
    };
    let errs = input.check().unwrap_err();
    assert_eq!(errs, vec!["请输入标题".to_string(), "请输入作者".to_string()]);
}

#[test]
fn hu_check_requires_title_and_body() {
    let mut input = huxi_server::hu::Input {
        title: "t".to_string(),
        body: "".to_string(),
        ..Default::default()
    };
    let errs = input.check().unwrap_err();
    assert_eq!(errs, vec!["请输入正文".to_string()]);
}

#[test]
fn xi_check_normalizes_optionals() {
    let mut input = huxi_server::xi::Input {
        title: " 微博 ".to_string(),
        body: "正文".to_string(),
        url: Some("".to_string()),
        tags: Some("tag".to_string()),
        ..Default::default()
    };
    assert!(input.check().is_ok());
    assert_eq!(input.title, "微博");
    assert_eq!(input.url, None);
    assert_eq!(input.tags, Some("tag".to_string()));
}

#[test]
fn comment_check_requires_body() {
    let c = huxi_server::comment::Input {
        id: None,
        oid: Some(1),
        url: None,
        body: "".to_string(),
    };
    let errs = c.check().unwrap_err();
    assert_eq!(errs, vec!["请输入正文".to_string()]);
    let c2 = huxi_server::comment::Input { body: "好".to_string(), ..c };
    assert!(c2.check().is_ok());
}

#[test]
fn message_check_hands_back_recipient_id() {
    let mut input = huxi_server::message::Input {
        title: " 标题 ".to_string(),
        to_user_name: " 朋友 ".to_string(),
        body: "正文".to_string(),
    };
    assert_eq!(input.trimmed_to_name(), "朋友");
    let r = input.check(Some(42));
    assert_eq!(r.unwrap(), 42);
    assert_eq!(input.title, "标题");
}

#[test]
fn message_check_unknown_recipient() {
    let mut input = huxi_server::message::Input {
        title: "t".to_string(),
        to_user_name: "ghost".to_string(),
        body: "".to_string(),
    };
    let errs = input.check(None).unwrap_err();
    assert_eq!(
        errs,
        vec!["收信人不存在，请重新输入".to_string(), "请输入正文".to_string()]
    );
}

#[test]
fn message_boxes_are_disjoint_kinds() {
    let inbox = huxi_server::message::ListBy::UserInbox(1);
    let outbox = huxi_server::message::ListBy::UserOutbox(1);
    assert!(inbox.is_inbox());
    assert!(!inbox.is_outbox());
    assert!(outbox.is_outbox());
    assert!(!outbox.is_inbox());
}

#[test]
fn registration_accepts_a_clean_form() {
    let mut input = huxi_server::user::RegInput {
        name: " alice ".to_string(),
        email: " alice@example.com ".to_string(),
        password: "pw".to_string(),
        password2: "pw".to_string(),
        validate: "2100".to_string(),
    };
    let r = huxi_server::user::reg_check(&mut input, Some(2100), false, false);
    assert!(r.is_ok());
    assert_eq!(input.name, "alice");
    assert_eq!(input.email, "alice@example.com");
}

#[test]
fn registration_rejects_bad_email_shape() {
    let mut input = huxi_server::user::RegInput {
        name: "alice".to_string(),
        email: "not-an-address".to_string(),
        password: "pw".to_string(),
        password2: "pw".to_string(),
        validate: "2100".to_string(),
    };
    let errs = huxi_server::user::reg_check(&mut input, Some(2100), false, false).unwrap_err();
    assert_eq!(errs, vec!["邮箱格式错误".to_string()]);
}

#[test]
fn registration_collects_every_failure() {
    let mut input = huxi_server::user::RegInput {
        name: "a@b".to_string(),
        email: "".to_string(),
        password: "".to_string(),
        password2: "pw".to_string(),
        validate: "99x".to_string(),
    };
    let errs = huxi_server::user::reg_check(&mut input, Some(2100), true, false).unwrap_err();
    assert_eq!(
        errs,
        vec![
            "用户名中不能包含字符 @".to_string(),
            "请输入邮箱".to_string(),
            "请输入密码".to_string(),
            "验证码错误".to_string(),
            "用户名已被使用，请重新输入用户名".to_string(),
        ]
    );
}

#[test]
fn registration_code_must_match_session() {
    let mut input = huxi_server::user::RegInput {
        name: "bob".to_string(),
        email: "bob@example.com".to_string(),
        password: "pw".to_string(),
        password2: "pw".to_string(),
        validate: "2100".to_string(),
    };
    let errs = huxi_server::user::reg_check(&mut input, Some(2101), false, false).unwrap_err();
    assert_eq!(errs, vec!["验证码错误".to_string()]);
    let mut input2 = huxi_server::user::RegInput {
        validate: "2100".to_string(),
        ..input
    };
    let errs2 = huxi_server::user::reg_check(&mut input2, None, false, false).unwrap_err();
    assert_eq!(errs2, vec!["验证码错误".to_string()]);
}

#[test]
fn roles_and_login_lookup() {
    assert!(huxi_server::user::is_sudo_role(5));
    assert!(huxi_server::user::is_sudo_role(9));
    assert!(!huxi_server::user::is_sudo_role(4));
    match huxi_server::user::login_by(" a@b.c ") {
        huxi_server::user::By::Email(s) => assert_eq!(s, "a@b.c"),
        _ => panic!("expected an email lookup"),
    }
    match huxi_server::user::login_by("plainname") {
        huxi_server::user::By::Name(s) => assert_eq!(s, "plainname"),
        _ => panic!("expected a name lookup"),
    }
}

#[test]
fn avatar_file_name() {
    assert_eq!(huxi_server::user::create_file_name("png", 9), "s-9.png");
}

#[test]
fn reg_input_trim_leaves_code_alone() {
    let mut input = huxi_server::user::RegInput {
        name: " n ".to_string(),
        email: " e ".to_string(),
        password: " p ".to_string(),
        password2: " q ".to_string(),
        validate: " 1 ".to_string(),
    };
    input.trim();
    assert_eq!(input.name, "n");
    assert_eq!(input.email, "e");
    assert_eq!(input.password, "p");
    assert_eq!(input.password2, "q");
    assert_eq!(input.validate, " 1 ");
}
