use huxi_server::list::{List, ListBy};
use huxi_server::query::BindValue;

fn text_bind(b: &BindValue) -> Option<&str> {
    match b {
        BindValue::Text(s) => Some(s.as_str()),
        _ => None,
    }
}

fn int_bind(b: &BindValue) -> Option<i64> {
    match b {
        BindValue::Int(i) => Some(*i),
        _ => None,
    }
}

#[test]
fn book_count_and_slice_published_category() {
    let l = List::new(ListBy::AllPublic, 1).cat(Some(3)).size(5);
    let ((count, cbinds), (slice, sbinds)) = huxi_server::book::list_queries(&l);
    assert_eq!(
        count,
        "select count(*) as total from book where i_public=1 and i_category=$1;"
    );
    assert_eq!(cbinds.len(), 1);
    assert_eq!(int_bind(&cbinds[0]), Some(3));
    assert_eq!(
        slice,
        "select book_id, title, i_public, i_type, i_category, good, created_at, user_name, file, brief_html, url, i_good from book where i_public=1 and i_category=$1 order by book_id desc limit 5 offset 0;"
    );
    assert_eq!(sbinds.len(), 1);
}

#[test]
fn owner_scope_with_substring_search_binds_folded_pattern() {
    let l = List::new(ListBy::UserId(42), 2).title_search_key(Some("AbC".to_string()));
    let ((count, cbinds), (slice, _)) = huxi_server::hu::list_queries(&l);
    assert_eq!(
        count,
        "select count(*) as total from hu where user_id=$1 and lower(title) like $2;"
    );
    assert_eq!(int_bind(&cbinds[0]), Some(42));
    assert_eq!(text_bind(&cbinds[1]), Some("%abc%"));
    assert!(slice.ends_with("order by hu_id desc limit 20 offset 20;"));
}

#[test]
fn full_text_search_uses_vector_operator() {
    let l = List::new(ListBy::AllPublic, 1).web_search_key(Some("rust books".to_string()));
    let ((count, cbinds), _) = huxi_server::xi::list_queries(&l);
    assert_eq!(
        count,
        "select count(*) as total from xi where i_public=1 and search_ti @@ websearch_to_tsquery($1);"
    );
    assert_eq!(text_bind(&cbinds[0]), Some("rust books"));
}

#[test]
fn unrestricted_listing_has_no_where_clause() {
    let l = List::new(ListBy::All, 1);
    let ((count, cbinds), (slice, _)) = huxi_server::book::list_queries(&l);
    assert_eq!(count, "select count(*) as total from book ;");
    assert!(cbinds.is_empty());
    assert!(slice.contains("from book  order by book_id desc limit 20 offset 0;"));
}

#[test]
fn all_filters_combine_in_fixed_order() {
    let l = List::new(ListBy::UserId(5), 1)
        .cat(Some(2))
        .i_type(Some(4))
        .good(Some(1))
        .title_search_key(Some("k".to_string()));
    let ((count, cbinds), _) = huxi_server::book::list_queries(&l);
    assert_eq!(
        count,
        "select count(*) as total from book where user_id=$1 and i_category=$2 and i_type=$3 and good=$4 and lower(title) like $5;"
    );
    assert_eq!(cbinds.len(), 5);
    assert_eq!(int_bind(&cbinds[0]), Some(5));
    assert_eq!(int_bind(&cbinds[1]), Some(2));
    assert_eq!(int_bind(&cbinds[2]), Some(4));
    assert_eq!(int_bind(&cbinds[3]), Some(1));
    assert_eq!(text_bind(&cbinds[4]), Some("%k%"));
}

#[test]
fn statement_text_is_independent_of_values() {
    let a = List::new(ListBy::UserId(1), 1).cat(Some(2)).title_search_key(Some("x".to_string()));
    let b = List::new(ListBy::UserId(999), 7)
        .cat(Some(200))
        .title_search_key(Some("'; drop table book; --".to_string()));
    let ((ca, _), _) = huxi_server::book::list_queries(&a);
    let ((cb, _), _) = huxi_server::book::list_queries(&b);
    assert_eq!(ca, cb);
}

#[test]
fn injection_attempt_stays_in_bind_value() {
    let hostile = "%' or '1'='1".to_string();
    let l = List::new(ListBy::AllPublic, 1).title_search_key(Some(hostile.clone()));
    let ((count, cbinds), _) = huxi_server::book::list_queries(&l);
    assert!(!count.contains("or '1'"));
    assert_eq!(text_bind(&cbinds[0]), Some("%%' or '1'='1%"));
}

#[test]
fn message_inbox_statements() {
    let f = huxi_server::message::ListBy::UserInbox(9);
    let ((count, cbinds), (slice, sbinds)) =
        huxi_server::message::list_queries(&f, Some("Hi"), 1, 20);
    assert_eq!(
        count,
        "select count(*) as total from message where to_user_id=$1 and in_public=1 and lower(title) like $2;"
    );
    assert_eq!(int_bind(&cbinds[0]), Some(9));
    assert_eq!(text_bind(&cbinds[1]), Some("%hi%"));
    assert_eq!(
        slice,
        "select id, title, i_status, created_at, user_name, to_user_name from message where to_user_id=$1 and in_public=1 and lower(title) like $2 order by created_at desc limit 20 offset 0;"
    );
    assert_eq!(sbinds.len(), 2);
}

#[test]
fn message_outbox_without_key() {
    let f = huxi_server::message::ListBy::UserOutbox(4);
    let ((count, cbinds), _) = huxi_server::message::list_queries(&f, None, 3, 10);
    assert_eq!(
        count,
        "select count(*) as total from message where user_id=$1 and out_public=1;"
    );
    assert_eq!(cbinds.len(), 1);
    assert_eq!(int_bind(&cbinds[0]), Some(4));
}

#[test]
fn image_listing_statements() {
    let ((count, cbinds), (slice, _)) =
        huxi_server::image::list_queries(&huxi_server::image::ListBy::UserId(3), 2, 10);
    assert_eq!(count, "select count(*) as total from image where user_id=$1;");
    assert_eq!(int_bind(&cbinds[0]), Some(3));
    assert_eq!(
        slice,
        "select id, title, file, created_at from image where user_id=$1 order by id desc limit 10 offset 10;"
    );
    let ((call, ballb), _) =
        huxi_server::image::list_queries(&huxi_server::image::ListBy::All, 1, 20);
    assert_eq!(call, "select count(*) as total from image ;");
    assert!(ballb.is_empty());
}

#[test]
fn comment_listing_statement() {
    let (sql, binds) = huxi_server::comment::list_sql("hu", 12);
    assert_eq!(
        sql,
        "select * from hu_comment where obj_id=$1 and i_public=1 order by id asc"
    );
    assert_eq!(int_bind(&binds[0]), Some(12));
}
