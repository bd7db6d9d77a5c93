use taskstore::models::Timestamp;
use taskstore::query::{build_list_query, ListQuery};

fn empty_query() -> ListQuery {
    ListQuery {
        status: None,
        priority: None,
        title: None,
        tag: None,
        due_before: None,
        due_after: None,
        created_before: None,
        created_after: None,
        sort_by: None,
        sort_order: None,
    }
}

#[test]
fn empty_criteria_select_all_rows() {
    let (sql, params) = build_list_query(&empty_query());
    assert_eq!(sql, "SELECT * FROM tasks");
    assert!(params.is_empty());
}

#[test]
fn status_and_tag_compose_with_and() {
    let q = ListQuery {
        status: Some("Done".to_string()),
        tag: Some("urgent".to_string()),
        ..empty_query()
    };
    let (sql, params) = build_list_query(&q);
    assert_eq!(
        sql,
        "SELECT * FROM tasks WHERE status = ? AND id IN (SELECT task_id FROM task_tags WHERE tag = ?)",
    );
    assert_eq!(params, vec!["Done".to_string(), "urgent".to_string()]);
}

#[test]
fn title_filter_is_wrapped_in_wildcards() {
    let q = ListQuery { title: Some("report".to_string()), ..empty_query() };
    let (sql, params) = build_list_query(&q);
    assert_eq!(sql, "SELECT * FROM tasks WHERE title LIKE ?");
    assert_eq!(params, vec!["%report%".to_string()]);
}

#[test]
fn every_filter_binds_in_predicate_order() {
    let q = ListQuery {
        status: Some("Todo".to_string()),
        priority: Some("High".to_string()),
        title: Some("a".to_string()),
        tag: Some("t".to_string()),
        due_before: Some(Timestamp { secs: 1754049600, nanos: 0 }),
        due_after: Some(Timestamp { secs: 1700000000, nanos: 0 }),
        created_before: Some(Timestamp { secs: 1754049600, nanos: 0 }),
        created_after: Some(Timestamp { secs: 0, nanos: 0 }),
        sort_by: None,
        sort_order: None,
    };
    let (sql, params) = build_list_query(&q);
    assert_eq!(
        sql,
        "SELECT * FROM tasks WHERE status = ? AND priority = ? AND title LIKE ? \
         AND id IN (SELECT task_id FROM task_tags WHERE tag = ?) AND due_date <= ? \
         AND due_date >= ? AND created_at <= ? AND created_at >= ?",
    );
    assert_eq!(
        params,
        vec![
            "Todo".to_string(),
            "High".to_string(),
            "%a%".to_string(),
            "t".to_string(),
            "2025-08-01T12:00:00+00:00".to_string(),
            "2023-11-14T22:13:20+00:00".to_string(),
            "2025-08-01T12:00:00+00:00".to_string(),
            "1970-01-01T00:00:00+00:00".to_string(),
        ],
    );
}

#[test]
fn allowed_sort_column_orders_ascending_by_default() {
    let q = ListQuery { sort_by: Some("title".to_string()), ..empty_query() };
    let (sql, params) = build_list_query(&q);
    assert_eq!(sql, "SELECT * FROM tasks ORDER BY title ASC");
    assert!(params.is_empty());
}

#[test]
fn descending_sort_is_honoured() {
    let q = ListQuery {
        sort_by: Some("created_at".to_string()),
        sort_order: Some("desc".to_string()),
        ..empty_query()
    };
    let (sql, _) = build_list_query(&q);
    assert_eq!(sql, "SELECT * FROM tasks ORDER BY created_at DESC");
}

#[test]
fn unknown_sort_order_falls_back_to_ascending() {
    let q = ListQuery {
        sort_by: Some("priority".to_string()),
        sort_order: Some("downwards".to_string()),
        ..empty_query()
    };
    let (sql, _) = build_list_query(&q);
    assert_eq!(sql, "SELECT * FROM tasks ORDER BY priority ASC");
}

#[test]
fn sort_outside_the_allow_list_is_ignored() {
    let q = ListQuery { sort_by: Some("; DROP TABLE tasks".to_string()), ..empty_query() };
    let (sql, params) = build_list_query(&q);
    assert_eq!(sql, "SELECT * FROM tasks");
    assert!(params.is_empty());

    let q2 = ListQuery {
        status: Some("Done".to_string()),
        sort_by: Some("id; DELETE FROM tasks".to_string()),
        sort_order: Some("desc".to_string()),
        ..empty_query()
    };
    let (sql2, params2) = build_list_query(&q2);
    assert_eq!(sql2, "SELECT * FROM tasks WHERE status = ?");
    assert_eq!(params2, vec!["Done".to_string()]);
}

#[test]
fn filter_values_never_reach_the_statement_text() {
    let q = ListQuery {
        status: Some("Done' OR '1'='1".to_string()),
        title: Some("%'; DROP TABLE tasks; --".to_string()),
        ..empty_query()
    };
    let (sql, params) = build_list_query(&q);
    assert_eq!(sql, "SELECT * FROM tasks WHERE status = ? AND title LIKE ?");
    assert_eq!(
        params,
        vec!["Done' OR '1'='1".to_string(), "%%'; DROP TABLE tasks; --%".to_string()],
    );
}
