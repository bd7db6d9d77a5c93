//! The domain model: statuses, priorities, timestamps, tasks and the typed
//! request shapes, together with their text encodings and validation.

use vstd::prelude::*;
use crate::errors::AppError;
use crate::text::{lower_seq, lower_eq, lemma_lower_seq_idempotent};

verus! {

// ---------------------------------------------------------------------------
// Status
// ---------------------------------------------------------------------------

#[derive(Debug, Clone, Copy, PartialEq, Eq, Structural)]
pub enum Status {
    Todo,
    InProgress,
    Done,
}

/// The canonical display string of a status: the variant name itself.
pub open spec fn status_label(s: Status) -> Seq<char> {
    match s {
        Status::Todo => "Todo"@,
        Status::InProgress => "InProgress"@,
        Status::Done => "Done"@,
    }
}

/// Parsing folds the input to lower case and compares it with the folded
/// canonical names; anything else is rejected.
pub open spec fn parse_status(s: Seq<char>) -> Option<Status> {
    if lower_seq(s) == "todo"@ {
        Some(Status::Todo)
    } else if lower_seq(s) == "inprogress"@ {
        Some(Status::InProgress)
    } else if lower_seq(s) == "done"@ {
        Some(Status::Done)
    } else {
        None
    }
}

impl Status {
    pub fn label(&self) -> (r: &'static str)
        ensures
            r@ == status_label(*self),
    {
        match self {
            Status::Todo => "Todo",
            Status::InProgress => "InProgress",
            Status::Done => "Done",
        }
    }

    pub fn parse_text(s: &str) -> (r: Option<Status>)
        ensures
            r == parse_status(s@),
    {
        if lower_eq(s, "todo") {
            Some(Status::Todo)
        } else if lower_eq(s, "inprogress") {
            Some(Status::InProgress)
        } else if lower_eq(s, "done") {
            Some(Status::Done)
        } else {
            None
        }
    }
}

/// Parsing does not distinguish a string from its lower-case form.
pub proof fn lemma_parse_status_case_insensitive(s: Seq<char>)
    ensures
        parse_status(lower_seq(s)) == parse_status(s),
{
    lemma_lower_seq_idempotent(s);
}

/// Displaying a status and parsing the result yields the status again.
pub proof fn lemma_status_round_trip(s: Status)
    ensures
        parse_status(status_label(s)) == Some(s),
{
    reveal_strlit("Todo");
    reveal_strlit("todo");
    reveal_strlit("InProgress");
    reveal_strlit("inprogress");
    reveal_strlit("Done");
    reveal_strlit("done");
    assert(lower_seq("Todo"@) =~= "todo"@);
    assert(lower_seq("InProgress"@) =~= "inprogress"@);
    assert(lower_seq("Done"@) =~= "done"@);
    assert(("done"@)[0] != ("todo"@)[0]);
    assert(parse_status(status_label(Status::Todo)) == Some(Status::Todo));
    assert(parse_status(status_label(Status::InProgress)) == Some(Status::InProgress));
    assert(parse_status(status_label(Status::Done)) == Some(Status::Done));
}

// ---------------------------------------------------------------------------
// Priority
// ---------------------------------------------------------------------------

#[derive(Debug, Clone, Copy, PartialEq, Eq, Structural)]
pub enum Priority {
    Low,
    Medium,
    High,
}

/// The canonical display string of a priority: the variant name itself.
pub open spec fn priority_label(p: Priority) -> Seq<char> {
    match p {
        Priority::Low => "Low"@,
        Priority::Medium => "Medium"@,
        Priority::High => "High"@,
    }
}

/// Parsing folds the input to lower case and compares it with the folded
/// canonical names; anything else is rejected.
pub open spec fn parse_priority(s: Seq<char>) -> Option<Priority> {
    if lower_seq(s) == "low"@ {
        Some(Priority::Low)
    } else if lower_seq(s) == "medium"@ {
        Some(Priority::Medium)
    } else if lower_seq(s) == "high"@ {
        Some(Priority::High)
    } else {
        None
    }
}

impl Priority {
    pub fn label(&self) -> (r: &'static str)
        ensures
            r@ == priority_label(*self),
    {
        match self {
            Priority::Low => "Low",
            Priority::Medium => "Medium",
            Priority::High => "High",
        }
    }

    pub fn parse_text(s: &str) -> (r: Option<Priority>)
        ensures
            r == parse_priority(s@),
    {
        if lower_eq(s, "low") {
            Some(Priority::Low)
        } else if lower_eq(s, "medium") {
            Some(Priority::Medium)
        } else if lower_eq(s, "high") {
            Some(Priority::High)
        } else {
            None
        }
    }
}

/// Parsing does not distinguish a string from its lower-case form.
pub proof fn lemma_parse_priority_case_insensitive(s: Seq<char>)
    ensures
        parse_priority(lower_seq(s)) == parse_priority(s),
{
    lemma_lower_seq_idempotent(s);
}

/// Displaying a priority and parsing the result yields the priority again.
pub proof fn lemma_priority_round_trip(p: Priority)
    ensures
        parse_priority(priority_label(p)) == Some(p),
{
    reveal_strlit("Low");
    reveal_strlit("low");
    reveal_strlit("Medium");
    reveal_strlit("medium");
    reveal_strlit("High");
    reveal_strlit("high");
    assert(lower_seq("Low"@) =~= "low"@);
    assert(lower_seq("Medium"@) =~= "medium"@);
    assert(lower_seq("High"@) =~= "high"@);
    assert(("high"@)[0] != ("low"@)[0]);
    assert(parse_priority(priority_label(Priority::Low)) == Some(Priority::Low));
    assert(parse_priority(priority_label(Priority::Medium)) == Some(Priority::Medium));
    assert(parse_priority(priority_label(Priority::High)) == Some(Priority::High));
}

// ---------------------------------------------------------------------------
// Timestamp
// ---------------------------------------------------------------------------

/// Midnight of January 1 of year 0, in seconds from the Unix epoch.
pub const TS_MIN_SECS: i64 = -62167219200;

/// Midnight of January 1 of year 10000, in seconds from the Unix epoch.
pub const TS_MAX_SECS: i64 = 253402300800;

/// A UTC instant as non-leap seconds from the Unix epoch plus subsecond
/// nanoseconds.
#[derive(Debug, Clone, Copy, PartialEq, Eq, Structural)]
pub struct Timestamp {
    pub secs: i64,
    pub nanos: u32,
}

impl Timestamp {
    /// The instant lies within the years 0000 to 9999, the era that the
    /// four-digit RFC 3339 text form covers.
    pub open spec fn wf(self) -> bool {
        &&& TS_MIN_SECS <= self.secs < TS_MAX_SECS
        &&& self.nanos < 1_000_000_000
    }

    pub fn new(secs: i64, nanos: u32) -> (r: Option<Timestamp>)
        ensures
            r == if (Timestamp { secs, nanos }).wf() {
                Some(Timestamp { secs, nanos })
            } else {
                None::<Timestamp>
            },
    {
        if TS_MIN_SECS <= secs && secs < TS_MAX_SECS && nanos < 1_000_000_000 {
            Some(Timestamp { secs, nanos })
        } else {
            None
        }
    }
}

// ---------------------------------------------------------------------------
// Task
// ---------------------------------------------------------------------------

/// A task record.  The identifier is the 128-bit value of its UUID.
#[derive(Debug, Clone, PartialEq)]
pub struct Task {
    pub id: u128,
    pub title: String,
    pub description: String,
    pub status: Status,
    pub priority: Priority,
    pub due_date: Option<Timestamp>,
    pub created_at: Timestamp,
    pub updated_at: Timestamp,
    pub tags: Vec<String>,
}

/// The mathematical value of a task.
pub ghost struct TaskView {
    pub id: u128,
    pub title: Seq<char>,
    pub description: Seq<char>,
    pub status: Status,
    pub priority: Priority,
    pub due_date: Option<Timestamp>,
    pub created_at: Timestamp,
    pub updated_at: Timestamp,
    pub tags: Seq<Seq<char>>,
}

impl View for Task {
    type V = TaskView;

    open spec fn view(&self) -> TaskView {
        TaskView {
            id: self.id,
            title: self.title@,
            description: self.description@,
            status: self.status,
            priority: self.priority,
            due_date: self.due_date,
            created_at: self.created_at,
            updated_at: self.updated_at,
            tags: self.tags.deep_view(),
        }
    }
}

impl TaskView {
    /// Every timestamp of the task lies in the encodable era.
    pub open spec fn wf(self) -> bool {
        &&& match self.due_date {
            Some(d) => d.wf(),
            None => true,
        }
        &&& self.created_at.wf()
        &&& self.updated_at.wf()
    }
}

// ---------------------------------------------------------------------------
// Requests
// ---------------------------------------------------------------------------

/// A creation request, as the caller supplies it.
#[derive(Debug, Clone, PartialEq)]
pub struct CreateTask {
    pub title: String,
    pub description: String,
    pub status: Status,
    pub priority: Priority,
    pub due_date: Option<Timestamp>,
    pub tags: Vec<String>,
}

impl CreateTask {
    /// A supplied due date lies in the encodable era.
    pub open spec fn wf(self) -> bool {
        match self.due_date {
            Some(d) => d.wf(),
            None => true,
        }
    }

    /// The request passes validation: both required fields are non-empty.
    pub open spec fn valid(self) -> bool {
        self.title@.len() > 0 && self.description@.len() > 0
    }

    /// The task built from this request with a given identifier and clock
    /// reading; creation and update instants start out equal.
    pub fn into_task_with(self, id: u128, now: Timestamp) -> (r: Task)
        ensures
            r@ == (TaskView {
                id,
                title: self.title@,
                description: self.description@,
                status: self.status,
                priority: self.priority,
                due_date: self.due_date,
                created_at: now,
                updated_at: now,
                tags: self.tags.deep_view(),
            }),
    {
        Task {
            id,
            title: self.title,
            description: self.description,
            status: self.status,
            priority: self.priority,
            due_date: self.due_date,
            created_at: now,
            updated_at: now,
            tags: self.tags,
        }
    }

    /// The task built from this request with a fresh identifier and the
    /// current clock reading.
    pub fn into_task(self) -> (r: Task)
        ensures
            r@.title == self.title@,
            r@.description == self.description@,
            r@.status == self.status,
            r@.priority == self.priority,
            r@.due_date == self.due_date,
            r@.tags == self.tags.deep_view(),
            r@.created_at == r@.updated_at,
            r@.created_at.secs >= 0,
            r@.created_at.nanos < 1_000_000_000,
    {
        let id = crate::ext::fresh_uuid();
        let (secs, nanos) = crate::ext::now_timestamp();
        self.into_task_with(id, Timestamp { secs, nanos })
    }
}

/// A partial update request; only supplied fields change.
#[derive(Debug, Clone, PartialEq)]
pub struct UpdateTask {
    pub title: Option<String>,
    pub description: Option<String>,
    pub status: Option<Status>,
    pub priority: Option<Priority>,
    pub due_date: Option<Timestamp>,
    pub tags: Option<Vec<String>>,
}

impl UpdateTask {
    /// A supplied due date lies in the encodable era.
    pub open spec fn wf(self) -> bool {
        match self.due_date {
            Some(d) => d.wf(),
            None => true,
        }
    }

    /// The request passes validation: a supplied required field is
    /// non-empty.
    pub open spec fn valid(self) -> bool {
        &&& match self.title {
            Some(t) => t@.len() > 0,
            None => true,
        }
        &&& match self.description {
            Some(d) => d@.len() > 0,
            None => true,
        }
    }
}

/// The body of a tag-attach request.
#[derive(Debug, Clone, PartialEq)]
pub struct TagBody {
    pub tag: String,
}

// ---------------------------------------------------------------------------
// Validation
// ---------------------------------------------------------------------------

/// The aggregated validation message: every violated field is named.
pub open spec fn validation_msg(title_bad: bool, desc_bad: bool) -> Seq<char> {
    if title_bad && desc_bad {
        "title must not be empty; description must not be empty"@
    } else if title_bad {
        "title must not be empty"@
    } else {
        "description must not be empty"@
    }
}

fn validation_error(title_bad: bool, desc_bad: bool) -> (r: AppError)
    requires
        title_bad || desc_bad,
    ensures
        r matches AppError::ValidationError(m) && m@ == validation_msg(title_bad, desc_bad),
{
    let m = if title_bad && desc_bad {
        "title must not be empty; description must not be empty"
    } else if title_bad {
        "title must not be empty"
    } else {
        "description must not be empty"
    };
    AppError::ValidationError(String::from_str(m))
}

/// Checks a creation request: both required fields must be non-empty.  The
/// error names every violated field, not only the first.
pub fn validate_create(c: &CreateTask) -> (r: Result<(), AppError>)
    ensures
        r is Ok <==> c.valid(),
        !c.valid() ==> (r matches Err(e) && e matches AppError::ValidationError(m)
            && m@ == validation_msg(c.title@.len() == 0, c.description@.len() == 0)),
{
    let title_bad = c.title.as_str().is_empty();
    let desc_bad = c.description.as_str().is_empty();
    if title_bad || desc_bad {
        Err(validation_error(title_bad, desc_bad))
    } else {
        Ok(())
    }
}

/// Checks an update request: a supplied required field must be non-empty.
/// The error names every violated field, not only the first.
pub fn validate_update(u: &UpdateTask) -> (r: Result<(), AppError>)
    ensures
        r is Ok <==> u.valid(),
        !u.valid() ==> (r matches Err(e) && e matches AppError::ValidationError(m)
            && m@ == validation_msg(
                (u.title matches Some(t) && t@.len() == 0),
                (u.description matches Some(d) && d@.len() == 0),
            )),
{
    let title_bad = match &u.title {
        Some(t) => t.as_str().is_empty(),
        None => false,
    };
    let desc_bad = match &u.description {
        Some(d) => d.as_str().is_empty(),
        None => false,
    };
    if title_bad || desc_bad {
        Err(validation_error(title_bad, desc_bad))
    } else {
        Ok(())
    }
}

} // verus!
