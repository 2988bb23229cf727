use huxi_server::query::{click_sql, delete_sql, good_sql, BindValue};
use huxi_server::user::{By, SessUser};

fn is_int(b: &BindValue, v: i64) -> bool {
    matches!(b, BindValue::Int(x) if *x == v)
}

fn is_text(b: &BindValue, v: &str) -> bool {
    matches!(b, BindValue::Text(s) if s == v)
}

fn is_opt_text(b: &BindValue, v: Option<&str>) -> bool {
    matches!(b, BindValue::OptText(s) if s.as_deref() == v)
}

fn author() -> SessUser {
    SessUser {
        id: 7,
        name: "作者".to_string(),
        email: "a@b.c".to_string(),
        role: 1,
    }
}

#[test]
fn shared_row_statements() {
    let (sql, binds) = delete_sql("hu", "hu_id", 3);
    assert_eq!(sql, "delete from hu where hu_id=$1");
    assert!(is_int(&binds[0], 3));
    let (sql, _) = click_sql("book", "book_id", 9);
    assert_eq!(sql, "update book set click=click+1 where book_id=$1");
    let (sql, binds) = good_sql("xi", "xi_id", 4, 1);
    assert_eq!(sql, "update xi set good=$1, good_at=now() where xi_id=$2");
    assert!(is_int(&binds[0], 1));
    assert!(is_int(&binds[1], 4));
}

#[test]
fn article_insert_statement() {
    let input = huxi_server::hu::Input {
        title: "题".to_string(),
        body: "正文".to_string(),
        url: Some("http://x".to_string()),
        ..Default::default()
    };
    let rd = input.rendered();
    let (sql, binds) = huxi_server::hu::insert_sql(&author(), &input, &rd);
    assert_eq!(
        sql,
        "insert into hu (user_id, user_name, title, body, html, i_category, i_public, i_type, url, tags, body2, html2, log, log_html, i_good, brief, brief_html) values ($1, $2, $3, $4, $5, $6, $7, $8, $9, $10, $11, $12, $13, $14, $15, $16, $17) returning hu_id"
    );
    assert_eq!(binds.len(), 17);
    assert!(is_int(&binds[0], 7));
    assert!(is_text(&binds[1], "作者"));
    assert!(is_text(&binds[2], "题"));
    assert!(is_opt_text(&binds[8], Some("http://x")));
    assert!(is_opt_text(&binds[9], None));
    assert!(is_int(&binds[14], 0));
}

#[test]
fn article_update_statement() {
    let input = huxi_server::hu::Input {
        title: "t".to_string(),
        body: "b".to_string(),
        i_good: Some(1),
        ..Default::default()
    };
    let rd = input.rendered();
    let (sql, binds) = huxi_server::hu::update_sql(12, &input, &rd);
    assert_eq!(
        sql,
        "update hu set title=$1, body=$2, html=$3, i_category=$4, i_public=$5, i_type=$6, url=$7, tags=$8, body2=$9, html2=$10, log=$11, log_html=$12, i_good=$13, brief=$14, brief_html=$15 where hu_id=$16"
    );
    assert_eq!(binds.len(), 16);
    assert!(is_int(&binds[12], 1));
    assert!(is_int(&binds[15], 12));
}

#[test]
fn micro_post_insert_and_update_statements() {
    let input = huxi_server::xi::Input {
        title: "t".to_string(),
        body: "b".to_string(),
        ..Default::default()
    };
    let (html, i_good) = input.rendered();
    let (sql, binds) = huxi_server::xi::insert_sql(&author(), &input, &html, i_good);
    assert_eq!(
        sql,
        "insert into xi (user_id, user_name, title, body, html, i_category, i_public, url, tags, i_good, i_type) values ($1, $2, $3, $4, $5, $6, $7, $8, $9, $10, $11) returning xi_id"
    );
    assert_eq!(binds.len(), 11);
    assert!(is_text(&binds[4], "<p>b</p>\n"));
    let (sql, binds) = huxi_server::xi::update_sql(5, &input, &html, i_good);
    assert_eq!(
        sql,
        "update xi set body=$1, html=$2, i_category=$3, i_public=$4, i_type=$5, url=$6, tags=$7, i_good=$8, title=$9 where xi_id=$10"
    );
    assert!(is_int(&binds[9], 5));
}

#[test]
fn book_insert_statement_keeps_both_file_columns() {
    let input = huxi_server::book::Input {
        title: "t".to_string(),
        author: "a".to_string(),
        body: "b".to_string(),
        file: Some("old.jpg".to_string()),
        ..Default::default()
    };
    let rd = input.rendered();
    let (sql, binds) = huxi_server::book::insert_sql(&author(), &input, &rd, "7-stamp.jpg");
    assert!(sql.starts_with("insert into book (user_id, user_name, title"));
    assert!(sql.ends_with("returning book_id"));
    assert_eq!(binds.len(), 23);
    assert!(is_text(&binds[18], "old.jpg"));
    assert!(is_text(&binds[19], "7-stamp.jpg"));
    assert!(is_text(&binds[20], "a"));
}

#[test]
fn book_update_statement_rewrites_file_only_with_new_upload() {
    let input = huxi_server::book::Input {
        title: "t".to_string(),
        author: "a".to_string(),
        body: "b".to_string(),
        ..Default::default()
    };
    let rd = input.rendered();
    let (with_file, binds_with) = huxi_server::book::update_sql(4, &input, &rd, Some("new.png"));
    assert!(with_file.contains("file=$17, author=$18"));
    assert!(with_file.ends_with("where book_id=$21"));
    assert_eq!(binds_with.len(), 21);
    assert!(is_text(&binds_with[16], "new.png"));
    assert!(is_int(&binds_with[20], 4));
    let (without, binds_without) = huxi_server::book::update_sql(4, &input, &rd, None);
    assert!(!without.contains("file="));
    assert!(without.ends_with("where book_id=$20"));
    assert_eq!(binds_without.len(), 20);
    assert!(is_int(&binds_without[19], 4));
}

#[test]
fn message_mutation_statements() {
    let input = huxi_server::message::Input {
        title: "标题".to_string(),
        to_user_name: "友".to_string(),
        body: "正文".to_string(),
    };
    let html = huxi_server::md::to_html(&input.body);
    let (sql, binds) = huxi_server::message::insert_sql(3, "发信人", &input, 9, &html);
    assert_eq!(
        sql,
        "insert into message (user_id, user_name, to_user_id, to_user_name, title, body, html) values ($1, $2, $3, $4, $5, $6, $7) returning id"
    );
    assert_eq!(binds.len(), 7);
    assert!(is_int(&binds[0], 3));
    assert!(is_int(&binds[2], 9));
    assert!(is_text(&binds[1], "发信人"));
    let (sql, binds) = huxi_server::message::set_read_sql("abc-uuid");
    assert_eq!(sql, "update message set i_status=1 where id=$1");
    assert!(is_text(&binds[0], "abc-uuid"));
    let (sql, _) = huxi_server::message::hide_sql("abc-uuid");
    assert_eq!(sql, "update message set in_public=0 where id=$1");
    let (sql, binds) = huxi_server::message::new_total_sql(6);
    assert_eq!(
        sql,
        "select count(*) as total from message where in_public=1 and i_status=0 and to_user_id=$1"
    );
    assert!(is_int(&binds[0], 6));
}

#[test]
fn comment_mutation_statements() {
    let input = huxi_server::comment::Input {
        id: None,
        oid: Some(11),
        url: None,
        body: "好".to_string(),
    };
    let html = huxi_server::md::to_html(&input.body);
    let (sql, binds) = huxi_server::comment::insert_sql("hu", 2, "名", &input, &html);
    assert_eq!(
        sql,
        "insert into hu_comment (user_id, user_name, obj_id, i_public, body, html) values ($1, $2, $3, 1, $4, $5) returning id"
    );
    assert!(matches!(&binds[2], BindValue::OptInt(Some(11))));
    let (sql, binds) = huxi_server::comment::update_sql("book", 8, &input, &html);
    assert_eq!(sql, "update book_comment set body=$1, html=$2 where id=$3");
    assert!(is_int(&binds[2], 8));
    let (sql, _) = huxi_server::comment::rm_sql("xi", 8);
    assert_eq!(sql, "delete from xi_comment where id=$1");
    let (sql, _) = huxi_server::comment::hide_sql("xi", 8);
    assert_eq!(sql, "update xi_comment set i_public=0 where id=$1");
}

#[test]
fn comment_list_view_for_owner() {
    let data = vec![huxi_server::comment::Comment {
        id: 5,
        user_id: 1,
        user_name: "客".to_string(),
        obj_id: 11,
        i_public: 1,
        body: "b".to_string(),
        html: Some("<p>b</p>".to_string()),
        created_at: 1_700_000_000,
        updated_at: None,
    }];
    let v = huxi_server::comment::list_comment(data, 11, "/hu/view/11/index.html", true, true, "hu");
    assert!(!v.empty);
    let row = &v.comments[0];
    assert_eq!(row.user_name, "客");
    assert_eq!(
        row.edit_url.as_deref(),
        Some("/my/hu/comment/edit/5?url=%2Fhu%2Fview%2F11%2Findex.html#start")
    );
    assert!(row
        .rm_url
        .as_deref()
        .unwrap()
        .starts_with("javascript:if(confirm('确实要删除吗?'))location='/my/hu/comment/rm/5?url="));
    match &v.form {
        huxi_server::comment::CommentFormView::Post { action_url, hidden_url, oid } => {
            assert_eq!(action_url, "/my/hu/comment/add");
            assert_eq!(hidden_url, "/hu/view/11/index.html#start");
            assert_eq!(*oid, 11);
        }
        _ => panic!("a signed-in reader gets the post form"),
    }
}

#[test]
fn comment_list_view_for_visitor() {
    let v = huxi_server::comment::list_comment(Vec::new(), 1, "/xi/view/1", false, false, "xi");
    assert!(v.empty);
    match &v.form {
        huxi_server::comment::CommentFormView::LoginPrompt { login_url } => {
            assert_eq!(login_url, "/user/login?from=%2Fxi%2Fview%2F1");
        }
        _ => panic!("a visitor gets the sign-in prompt"),
    }
}

#[test]
fn single_row_fetch_statements() {
    let (sql, binds) = huxi_server::hu::get_one_sql(3);
    assert!(sql.starts_with("select hu_id as id, user_id"));
    assert!(sql.ends_with("from hu where hu_id=$1"));
    assert!(is_int(&binds[0], 3));
    let (sql, _) = huxi_server::xi::get_one_sql(4);
    assert!(sql.ends_with("from xi where xi_id=$1"));
    let (sql, _) = huxi_server::book::get_one_sql(5);
    assert!(sql.ends_with("from book where book_id=$1"));
    let (sql, binds) = huxi_server::message::get_one_sql("u-1");
    assert!(sql.ends_with("from message where id=$1"));
    assert!(is_text(&binds[0], "u-1"));
    let (sql, _) = huxi_server::image::get_one_sql(6);
    assert_eq!(
        sql,
        "select id, user_id, title, brief, tags, file, src, created_at, updated_at from image where id=$1"
    );
    let (sql, _) = huxi_server::comment::get_one_sql("hu", 7);
    assert_eq!(sql, "select * from hu_comment where id=$1");
}

#[test]
fn account_statements_bind_the_looked_up_value() {
    let (sql, binds) = huxi_server::user::get_user_sql(&By::Name("alice".to_string()));
    assert_eq!(
        sql,
        "select user_id, name, email, password, i_role from users where name=$1 and i_role > 0"
    );
    assert!(is_text(&binds[0], "alice"));
    let (sql, binds) =
        huxi_server::user::get_user_sql(&By::Email("a'; drop table users; --".to_string()));
    assert!(!sql.contains("drop table"));
    assert!(is_text(&binds[0], "a'; drop table users; --"));
    let (sql, binds) = huxi_server::user::get_user_sql(&By::Id(9));
    assert!(sql.contains("where user_id=$1"));
    assert!(is_int(&binds[0], 9));
    let (sql, binds) = huxi_server::user::add_user_sql(
        &"n".to_string(),
        &"e@x.c".to_string(),
        &"$argon2$hash".to_string(),
    );
    assert_eq!(sql, "insert into users (name, email, password) values ($1, $2, $3) returning uid");
    assert!(is_text(&binds[2], "$argon2$hash"));
    let (sql, binds) = huxi_server::user::update_user_pw_sql(4, &"h2".to_string());
    assert_eq!(sql, "update users set password=$1 where user_id=$2");
    assert!(is_int(&binds[1], 4));
    let (sql, _) = huxi_server::user::update_pw_reset_sql("u-9");
    assert_eq!(sql, "update reset_pw_req set i_status=1 where id=$1");
    let (sql, binds) = huxi_server::user::get_pwreq_sql("u-9");
    assert_eq!(sql, "select created_at, user_name, user_id from reset_pw_req where id=$1");
    assert!(is_text(&binds[0], "u-9"));
    let (sql, binds) = huxi_server::user::user_list_sql();
    assert_eq!(sql, "select user_id as id, name, email, i_role from users order by user_id desc");
    assert!(binds.is_empty());
}
