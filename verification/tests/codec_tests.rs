use taskstore::codec::{encode_task, decode_row, DatabaseTask, TagRecord};
use taskstore::errors::AppError;
use taskstore::models::{Priority, Status, Task, Timestamp};

fn sample_task() -> Task {
    Task {
        id: 0xa1a2a3a4b1b2c1c2d1d2d3d4d5d6d7d8,
        title: "Write the report".to_string(),
        description: "Quarterly numbers".to_string(),
        status: Status::InProgress,
        priority: Priority::High,
        due_date: Some(Timestamp { secs: 1754049600, nanos: 0 }),
        created_at: Timestamp { secs: 1700000000, nanos: 123_000_000 },
        updated_at: Timestamp { secs: 1700000500, nanos: 0 },
        tags: vec!["urgent".to_string(), "work".to_string()],
    }
}

fn sample_row() -> DatabaseTask {
    encode_task(&sample_task())
}

#[test]
fn encode_uses_canonical_text_forms() {
    let row = sample_row();
    assert_eq!(row.id, "a1a2a3a4-b1b2-c1c2-d1d2-d3d4d5d6d7d8");
    assert_eq!(row.status, "InProgress");
    assert_eq!(row.priority, "High");
    assert_eq!(row.due_date.as_deref(), Some("2025-08-01T12:00:00+00:00"));
    assert_eq!(row.created_at, "2023-11-14T22:13:20.123+00:00");
    assert_eq!(row.updated_at, "2023-11-14T22:21:40+00:00");
    assert_eq!(row.title, "Write the report");
}

#[test]
fn round_trip_returns_the_task_field_for_field() {
    let task = sample_task();
    let row = encode_task(&task);
    let decoded = decode_row(&row, task.tags.clone()).expect("an encoded row must decode");
    assert_eq!(decoded, task);
}

#[test]
fn round_trip_without_due_date() {
    let mut task = sample_task();
    task.due_date = None;
    task.tags = vec![];
    let row = encode_task(&task);
    assert_eq!(row.due_date, None);
    let decoded = decode_row(&row, vec![]).expect("an encoded row must decode");
    assert_eq!(decoded, task);
}

#[test]
fn decode_rejects_a_malformed_id() {
    let mut row = sample_row();
    row.id = "not-a-uuid".to_string();
    match decode_row(&row, vec![]) {
        Err(AppError::ParseError(m)) => assert_eq!(m, "invalid id: not-a-uuid"),
        other => panic!("expected a parse error, got {:?}", other),
    }
}

#[test]
fn decode_rejects_a_malformed_status() {
    let mut row = sample_row();
    row.status = "Started".to_string();
    match decode_row(&row, vec![]) {
        Err(AppError::ParseError(m)) => assert_eq!(m, "invalid status: Started"),
        other => panic!("expected a parse error, got {:?}", other),
    }
}

#[test]
fn decode_rejects_a_malformed_priority() {
    let mut row = sample_row();
    row.priority = "urgent!".to_string();
    match decode_row(&row, vec![]) {
        Err(AppError::ParseError(m)) => assert_eq!(m, "invalid priority: urgent!"),
        other => panic!("expected a parse error, got {:?}", other),
    }
}

#[test]
fn decode_rejects_a_malformed_due_date() {
    let mut row = sample_row();
    row.due_date = Some("tomorrow".to_string());
    match decode_row(&row, vec![]) {
        Err(AppError::ParseError(m)) => assert_eq!(m, "invalid due_date: tomorrow"),
        other => panic!("expected a parse error, got {:?}", other),
    }
}

#[test]
fn decode_rejects_malformed_instants() {
    let mut row = sample_row();
    row.created_at = "2023-13-01T00:00:00+00:00".to_string();
    match decode_row(&row, vec![]) {
        Err(AppError::ParseError(m)) => {
            assert_eq!(m, "invalid created_at: 2023-13-01T00:00:00+00:00");
        },
        other => panic!("expected a parse error, got {:?}", other),
    }

    let mut row2 = sample_row();
    row2.updated_at = "yesterday".to_string();
    match decode_row(&row2, vec![]) {
        Err(AppError::ParseError(m)) => assert_eq!(m, "invalid updated_at: yesterday"),
        other => panic!("expected a parse error, got {:?}", other),
    }
}

#[test]
fn decode_parses_case_insensitive_enum_columns() {
    let mut row = sample_row();
    row.status = "done".to_string();
    row.priority = "LOW".to_string();
    let decoded = decode_row(&row, vec!["a".to_string()]).expect("row must decode");
    assert_eq!(decoded.status, Status::Done);
    assert_eq!(decoded.priority, Priority::Low);
    assert_eq!(decoded.tags, vec!["a".to_string()]);
}

#[test]
fn decode_accepts_an_offset_timestamp() {
    let mut row = sample_row();
    row.created_at = "2023-11-15T00:13:20.123+02:00".to_string();
    let decoded = decode_row(&row, vec![]).expect("row must decode");
    assert_eq!(decoded.created_at, Timestamp { secs: 1700000000, nanos: 123_000_000 });
}

#[test]
fn into_task_consumes_the_row() {
    let row = sample_row();
    let task = row.into_task(vec!["urgent".to_string(), "work".to_string()]).expect("must decode");
    assert_eq!(task, sample_task());
}

#[test]
fn tag_record_holds_one_tag() {
    let rec = TagRecord { tag: "urgent".to_string() };
    assert_eq!(rec.tag, "urgent");
}
