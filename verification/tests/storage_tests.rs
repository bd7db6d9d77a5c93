use sqlx::Row;
use sqlx::sqlite::SqlitePool;
use taskstore::codec::DatabaseTask;
use taskstore::models::{CreateTask, Priority, Status, Task, Timestamp, UpdateTask};
use taskstore::query::{build_list_query, ListQuery};
use taskstore::repo::{create_with, plan_delete, update_with, decode_task_rows, Statement};

fn rt() -> tokio::runtime::Runtime {
    tokio::runtime::Builder::new_current_thread().enable_all().build().unwrap()
}

async fn setup_pool() -> SqlitePool {
    let pool = sqlx::sqlite::SqlitePoolOptions::new()
        .max_connections(1)
        .connect("sqlite::memory:")
        .await
        .unwrap();
    sqlx::query(
        "CREATE TABLE tasks (id TEXT PRIMARY KEY, title TEXT, description TEXT, status TEXT, \
         priority TEXT, due_date TEXT, created_at TEXT, updated_at TEXT)",
    )
    .execute(&pool)
    .await
    .unwrap();
    sqlx::query("CREATE TABLE task_tags (task_id TEXT, tag TEXT)").execute(&pool).await.unwrap();
    pool
}

async fn run_statement(pool: &SqlitePool, st: &Statement) {
    let mut q = sqlx::query(sqlx::AssertSqlSafe(st.sql.clone()));
    for p in &st.params {
        q = q.bind(p.clone());
    }
    q.execute(pool).await.unwrap();
}

fn row_to_database_task(row: &sqlx::sqlite::SqliteRow) -> DatabaseTask {
    DatabaseTask {
        id: row.get("id"),
        title: row.get("title"),
        description: row.get("description"),
        status: row.get("status"),
        priority: row.get("priority"),
        due_date: row.get("due_date"),
        created_at: row.get("created_at"),
        updated_at: row.get("updated_at"),
    }
}

async fn fetch_listed_tasks(pool: &SqlitePool, q: &ListQuery) -> Vec<Task> {
    let (sql, params) = build_list_query(q);
    let mut query = sqlx::query(sqlx::AssertSqlSafe(sql.clone()));
    for p in &params {
        query = query.bind(p.clone());
    }
    let rows = query.fetch_all(pool).await.unwrap();
    let mut db_rows = Vec::new();
    let mut tag_lists = Vec::new();
    for row in &rows {
        let dt = row_to_database_task(row);
        let tags = fetch_tags(pool, &dt.id).await;
        db_rows.push(dt);
        tag_lists.push(tags);
    }
    decode_task_rows(&db_rows, &tag_lists).unwrap()
}

async fn fetch_tags(pool: &SqlitePool, id_text: &str) -> Vec<String> {
    let rows = sqlx::query("SELECT tag FROM task_tags WHERE task_id = ?")
        .bind(id_text.to_string())
        .fetch_all(pool)
        .await
        .unwrap();
    rows.iter().map(|r| r.get("tag")).collect()
}

fn request(title: &str, status: Status, tags: &[&str]) -> CreateTask {
    CreateTask {
        title: title.to_string(),
        description: "something to do".to_string(),
        status,
        priority: Priority::Medium,
        due_date: None,
        tags: tags.iter().map(|t| t.to_string()).collect(),
    }
}

fn instant(secs: i64) -> Timestamp {
    Timestamp { secs, nanos: 0 }
}

async fn create_task(pool: &SqlitePool, body: CreateTask, id: u128, now: Timestamp) -> Task {
    let (task, stmts) = create_with(body, id, now).unwrap();
    for st in &stmts {
        run_statement(pool, st).await;
    }
    task
}

fn empty_query() -> ListQuery {
    ListQuery {
        status: None,
        priority: None,
        title: None,
        tag: None,
        due_before: None,
        due_after: None,
        created_before: None,
        created_after: None,
        sort_by: None,
        sort_order: None,
    }
}

#[test]
fn filters_compose_as_conjunction_against_the_store() {
    rt().block_on(async {
        let pool = setup_pool().await;
        let a = create_task(&pool, request("A", Status::Done, &["urgent"]), 1, instant(100)).await;
        create_task(&pool, request("B", Status::Done, &[]), 2, instant(200)).await;
        create_task(&pool, request("C", Status::Todo, &["urgent"]), 3, instant(300)).await;

        let q = ListQuery {
            status: Some("Done".to_string()),
            tag: Some("urgent".to_string()),
            ..empty_query()
        };
        let tasks = fetch_listed_tasks(&pool, &q).await;
        assert_eq!(tasks.len(), 1);
        assert_eq!(tasks[0], a);
    });
}

#[test]
fn allowed_sort_orders_lexicographically_ascending() {
    rt().block_on(async {
        let pool = setup_pool().await;
        create_task(&pool, request("banana", Status::Todo, &[]), 1, instant(100)).await;
        create_task(&pool, request("apple", Status::Todo, &[]), 2, instant(200)).await;
        create_task(&pool, request("cherry", Status::Todo, &[]), 3, instant(300)).await;

        let q = ListQuery { sort_by: Some("title".to_string()), ..empty_query() };
        let tasks = fetch_listed_tasks(&pool, &q).await;
        let titles: Vec<&str> = tasks.iter().map(|t| t.title.as_str()).collect();
        assert_eq!(titles, vec!["apple", "banana", "cherry"]);
    });
}

#[test]
fn injected_sort_field_is_ignored_and_nothing_executes() {
    rt().block_on(async {
        let pool = setup_pool().await;
        create_task(&pool, request("keepme", Status::Todo, &[]), 1, instant(100)).await;

        let q = ListQuery { sort_by: Some("; DROP TABLE tasks".to_string()), ..empty_query() };
        let tasks = fetch_listed_tasks(&pool, &q).await;
        assert_eq!(tasks.len(), 1);

        // The table is still there and still holds the row.
        let all = fetch_listed_tasks(&pool, &empty_query()).await;
        assert_eq!(all.len(), 1);
        assert_eq!(all[0].title, "keepme");
    });
}

#[test]
fn partial_update_preserves_unspecified_fields() {
    rt().block_on(async {
        let pool = setup_pool().await;
        let created = create_task(
            &pool,
            request("Original", Status::Todo, &["urgent"]),
            7,
            instant(1000),
        )
        .await;

        let u = UpdateTask {
            title: None,
            description: None,
            status: Some(Status::Done),
            priority: None,
            due_date: None,
            tags: None,
        };
        let (sql, params) = update_with(7, &u, instant(2000)).unwrap();
        let mut query = sqlx::query(sqlx::AssertSqlSafe(sql.clone()));
        for p in &params {
            query = query.bind(p.clone());
        }
        query.execute(&pool).await.unwrap();

        let tasks = fetch_listed_tasks(&pool, &empty_query()).await;
        assert_eq!(tasks.len(), 1);
        let after = &tasks[0];
        assert_eq!(after.status, Status::Done);
        assert_eq!(after.title, created.title);
        assert_eq!(after.description, created.description);
        assert_eq!(after.priority, created.priority);
        assert_eq!(after.due_date, created.due_date);
        assert_eq!(after.tags, created.tags);
        assert_eq!(after.created_at, created.created_at);
        assert!(after.updated_at.secs > created.updated_at.secs);
    });
}

#[test]
fn update_of_a_missing_row_affects_nothing() {
    rt().block_on(async {
        let pool = setup_pool().await;
        let u = UpdateTask {
            title: Some("ghost".to_string()),
            description: None,
            status: None,
            priority: None,
            due_date: None,
            tags: None,
        };
        let (sql, params) = update_with(99, &u, instant(2000)).unwrap();
        let mut query = sqlx::query(sqlx::AssertSqlSafe(sql.clone()));
        for p in &params {
            query = query.bind(p.clone());
        }
        let outcome = query.execute(&pool).await.unwrap();
        assert_eq!(outcome.rows_affected(), 0);
    });
}

#[test]
fn delete_is_idempotent_and_removes_tag_rows() {
    rt().block_on(async {
        let pool = setup_pool().await;

        // Deleting an id that never existed succeeds.
        for st in &plan_delete(42) {
            run_statement(&pool, st).await;
        }

        let task = create_task(&pool, request("D", Status::Todo, &["x", "y"]), 42, instant(10)).await;
        let id_text = "00000000-0000-0000-0000-00000000002a";
        assert_eq!(fetch_tags(&pool, id_text).await.len(), 2);
        assert_eq!(task.tags.len(), 2);

        for st in &plan_delete(42) {
            run_statement(&pool, st).await;
        }
        assert_eq!(fetch_listed_tasks(&pool, &empty_query()).await.len(), 0);
        assert_eq!(fetch_tags(&pool, id_text).await.len(), 0);

        // Deleting again is a no-op, not an error.
        for st in &plan_delete(42) {
            run_statement(&pool, st).await;
        }
    });
}

#[test]
fn timestamp_bounds_filter_against_stored_text() {
    rt().block_on(async {
        let pool = setup_pool().await;
        create_task(&pool, request("early", Status::Todo, &[]), 1, instant(1000)).await;
        create_task(&pool, request("late", Status::Todo, &[]), 2, instant(2000)).await;

        let q = ListQuery {
            created_before: Some(instant(1500)),
            ..empty_query()
        };
        let tasks = fetch_listed_tasks(&pool, &q).await;
        assert_eq!(tasks.len(), 1);
        assert_eq!(tasks[0].title, "early");

        let q2 = ListQuery { created_after: Some(instant(1000)), ..empty_query() };
        let both = fetch_listed_tasks(&pool, &q2).await;
        assert_eq!(both.len(), 2);
    });
}
