//! The storage codec: conversion between the typed task record and the flat
//! string-encoded storage row, in both directions.
//!
//! Decoding parses every encoded column and fails on the first column that
//! does not parse, naming the column and the raw value; it never defaults.
//! Encoding is total on well-formed tasks and is inverted by decoding.

use vstd::prelude::*;
use crate::errors::AppError;
use crate::ext::{
    uuid_text, uuid_parse_of, rfc3339_text, rfc3339_parse_of, uuid_to_string, uuid_parse,
    timestamp_to_rfc3339, parse_rfc3339,
};
use crate::models::{
    Task, TaskView, Timestamp, Status, Priority, status_label, priority_label, parse_status,
    parse_priority, lemma_status_round_trip, lemma_priority_round_trip,
};
use crate::text::concat_str;

verus! {

/// A task row as the store holds it: every column is text.
#[derive(Debug, Clone, PartialEq)]
pub struct DatabaseTask {
    pub id: String,
    pub title: String,
    pub description: String,
    pub status: String,
    pub priority: String,
    pub due_date: Option<String>,
    pub created_at: String,
    pub updated_at: String,
}

/// A row of the tag relation, as fetched.
#[derive(Debug, Clone, PartialEq)]
pub struct TagRecord {
    pub tag: String,
}

/// The mathematical value of a storage row.
pub ghost struct RowView {
    pub id: Seq<char>,
    pub title: Seq<char>,
    pub description: Seq<char>,
    pub status: Seq<char>,
    pub priority: Seq<char>,
    pub due_date: Option<Seq<char>>,
    pub created_at: Seq<char>,
    pub updated_at: Seq<char>,
}

impl View for DatabaseTask {
    type V = RowView;

    open spec fn view(&self) -> RowView {
        RowView {
            id: self.id@,
            title: self.title@,
            description: self.description@,
            status: self.status@,
            priority: self.priority@,
            due_date: match self.due_date {
                Some(d) => Some(d@),
                None => None,
            },
            created_at: self.created_at@,
            updated_at: self.updated_at@,
        }
    }
}

/// The timestamp read from an RFC 3339 column: the text must parse and the
/// instant must lie in the encodable era.
pub open spec fn parse_ts(s: Seq<char>) -> Option<Timestamp> {
    match rfc3339_parse_of(s) {
        Some(p) => if (Timestamp { secs: p.0, nanos: p.1 }).wf() {
            Some(Timestamp { secs: p.0, nanos: p.1 })
        } else {
            None
        },
        None => None,
    }
}

/// What decoding a row with a given tag list yields: the task, or the
/// message naming the first offending column and its raw value.
pub open spec fn decode_row_spec(r: RowView, tags: Seq<Seq<char>>) -> Result<TaskView, Seq<char>> {
    if uuid_parse_of(r.id) is None {
        Err("invalid id: "@ + r.id)
    } else if parse_status(r.status) is None {
        Err("invalid status: "@ + r.status)
    } else if parse_priority(r.priority) is None {
        Err("invalid priority: "@ + r.priority)
    } else if r.due_date is Some && parse_ts(r.due_date->0) is None {
        Err("invalid due_date: "@ + r.due_date->0)
    } else if parse_ts(r.created_at) is None {
        Err("invalid created_at: "@ + r.created_at)
    } else if parse_ts(r.updated_at) is None {
        Err("invalid updated_at: "@ + r.updated_at)
    } else {
        Ok(TaskView {
            id: uuid_parse_of(r.id)->0,
            title: r.title,
            description: r.description,
            status: parse_status(r.status)->0,
            priority: parse_priority(r.priority)->0,
            due_date: match r.due_date {
                Some(d) => Some(parse_ts(d)->0),
                None => None,
            },
            created_at: parse_ts(r.created_at)->0,
            updated_at: parse_ts(r.updated_at)->0,
            tags,
        })
    }
}

/// The row a well-formed task encodes to: canonical identifier text,
/// canonical enum labels, RFC 3339 timestamps.
pub open spec fn encode_row_spec(t: TaskView) -> RowView {
    RowView {
        id: uuid_text(t.id),
        title: t.title,
        description: t.description,
        status: status_label(t.status),
        priority: priority_label(t.priority),
        due_date: match t.due_date {
            Some(d) => Some(rfc3339_text(d.secs, d.nanos)),
            None => None,
        },
        created_at: rfc3339_text(t.created_at.secs, t.created_at.nanos),
        updated_at: rfc3339_text(t.updated_at.secs, t.updated_at.nanos),
    }
}

/// The timestamp read from a column, if the text parses to an instant in
/// the encodable era.
pub fn parse_ts_text(s: &str) -> (r: Option<Timestamp>)
    ensures
        r == parse_ts(s@),
{
    match parse_rfc3339(s) {
        Some(p) => Timestamp::new(p.0, p.1),
        None => None,
    }
}

impl DatabaseTask {
    /// Decodes this row, with the tags fetched for it, into a task.
    /// Success is owed exactly when every encoded column parses; the error
    /// names the first offending column and carries its raw value.
    pub fn into_task(self, tags: Vec<String>) -> (r: Result<Task, AppError>)
        ensures
            match decode_row_spec(self@, tags.deep_view()) {
                Ok(tv) => r matches Ok(t) && t@ == tv,
                Err(m) => r matches Err(e) && e matches AppError::ParseError(em) && em@ == m,
            },
    {
        decode_row(&self, tags)
    }
}

/// Decodes a fetched row, with the tags fetched for it, into a task.
/// Success is owed exactly when every encoded column parses; the error
/// names the first offending column and carries its raw value.
pub fn decode_row(row: &DatabaseTask, tags: Vec<String>) -> (r: Result<Task, AppError>)
    ensures
        match decode_row_spec(row@, tags.deep_view()) {
            Ok(tv) => r matches Ok(t) && t@ == tv,
            Err(m) => r matches Err(e) && e matches AppError::ParseError(em) && em@ == m,
        },
{
    let id = match uuid_parse(row.id.as_str()) {
        Some(v) => v,
        None => {
            return Err(AppError::ParseError(concat_str("invalid id: ", row.id.as_str())));
        },
    };
    let status = match Status::parse_text(row.status.as_str()) {
        Some(v) => v,
        None => {
            return Err(
                AppError::ParseError(concat_str("invalid status: ", row.status.as_str())),
            );
        },
    };
    let priority = match Priority::parse_text(row.priority.as_str()) {
        Some(v) => v,
        None => {
            return Err(
                AppError::ParseError(concat_str("invalid priority: ", row.priority.as_str())),
            );
        },
    };
    let due_date = match &row.due_date {
        Some(d) => match parse_ts_text(d.as_str()) {
            Some(t) => Some(t),
            None => {
                return Err(AppError::ParseError(concat_str("invalid due_date: ", d.as_str())));
            },
        },
        None => None,
    };
    let created_at = match parse_ts_text(row.created_at.as_str()) {
        Some(t) => t,
        None => {
            return Err(
                AppError::ParseError(concat_str("invalid created_at: ", row.created_at.as_str())),
            );
        },
    };
    let updated_at = match parse_ts_text(row.updated_at.as_str()) {
        Some(t) => t,
        None => {
            return Err(
                AppError::ParseError(concat_str("invalid updated_at: ", row.updated_at.as_str())),
            );
        },
    };
    Ok(Task {
        id,
        title: row.title.clone(),
        description: row.description.clone(),
        status,
        priority,
        due_date,
        created_at,
        updated_at,
        tags,
    })
}

/// Encodes a well-formed task as a storage row.  Encoding never fails, and
/// decoding the row with any tag list yields the task again, tag list and
/// all: the round-trip law.
pub fn encode_task(t: &Task) -> (r: DatabaseTask)
    requires
        t@.wf(),
    ensures
        r@ == encode_row_spec(t@),
        forall|tags: Seq<Seq<char>>|
            decode_row_spec(r@, tags) == Ok::<TaskView, Seq<char>>(TaskView { tags, ..t@ }),
{
    let id = uuid_to_string(t.id);
    let status = String::from_str(t.status.label());
    let priority = String::from_str(t.priority.label());
    let due_date = match &t.due_date {
        Some(d) => Some(timestamp_to_rfc3339(d.secs, d.nanos)),
        None => None,
    };
    let created_at = timestamp_to_rfc3339(t.created_at.secs, t.created_at.nanos);
    let updated_at = timestamp_to_rfc3339(t.updated_at.secs, t.updated_at.nanos);
    let row = DatabaseTask {
        id,
        title: t.title.clone(),
        description: t.description.clone(),
        status,
        priority,
        due_date,
        created_at,
        updated_at,
    };
    proof {
        lemma_status_round_trip(t.status);
        lemma_priority_round_trip(t.priority);
        assert forall|tags: Seq<Seq<char>>|
            decode_row_spec(row@, tags) == Ok::<TaskView, Seq<char>>(TaskView { tags, ..t@ }) by {
            assert(decode_row_spec(row@, tags) is Ok);
        }
    }
    row
}

} // verus!
