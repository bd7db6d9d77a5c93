//! The task repository, as statement plans: each operation is reduced to
//! validation, codec work and the exact parameterized statements to run.
//! An unverified shell executes the statements against the store and hands
//! fetched rows back to the decoding functions here.

use vstd::prelude::*;
use crate::codec::{
    DatabaseTask, decode_row, decode_row_spec, encode_task, encode_row_spec, RowView,
};
use crate::errors::AppError;
use crate::ext::{
    uuid_text, rfc3339_text, uuid_to_string, timestamp_to_rfc3339, fresh_uuid, now_timestamp,
};
use crate::models::{
    CreateTask, Task, TaskView, Timestamp, UpdateTask, TagBody, Status, Priority, status_label,
    priority_label, validation_msg, validate_create, validate_update,
};
use crate::query::{frag_if, val_if, sv, tsv, add_filter};
use crate::text::{join_sep, append_joined, clone_string_vec};

verus! {

/// One parameterized statement: fixed text plus its bound values in order;
/// a `None` value binds NULL.
#[derive(Debug, Clone, PartialEq)]
pub struct Statement {
    pub sql: String,
    pub params: Vec<Option<String>>,
}

/// The mathematical value of a statement.
pub ghost struct StatementView {
    pub sql: Seq<char>,
    pub params: Seq<Option<Seq<char>>>,
}

impl View for Statement {
    type V = StatementView;

    open spec fn view(&self) -> StatementView {
        StatementView { sql: self.sql@, params: self.params.deep_view() }
    }
}

/// The views of a statement list.
pub open spec fn stmt_views(s: Seq<Statement>) -> Seq<StatementView> {
    s.map_values(|st: Statement| st@)
}

/// The row insert: every column of the task row, in column order.
pub open spec fn insert_task_sql() -> Seq<char> {
    "INSERT INTO tasks (id, title, description, status, priority, due_date, created_at, updated_at) VALUES (?, ?, ?, ?, ?, ?, ?, ?)"@
}

/// The tag relation insert.
pub open spec fn insert_tag_sql() -> Seq<char> {
    "INSERT INTO task_tags (task_id, tag) VALUES (?, ?)"@
}

/// The row delete.
pub open spec fn delete_task_sql() -> Seq<char> {
    "DELETE FROM tasks WHERE id = ?"@
}

/// The delete of every tag relation row of one task.
pub open spec fn delete_tags_sql() -> Seq<char> {
    "DELETE FROM task_tags WHERE task_id = ?"@
}

/// The delete of one tag relation row.
pub open spec fn delete_tag_sql() -> Seq<char> {
    "DELETE FROM task_tags WHERE task_id = ? AND tag = ?"@
}

/// The bound values of the row insert: the encoded columns in column
/// order; an absent due date binds NULL.
pub open spec fn row_params(r: RowView) -> Seq<Option<Seq<char>>> {
    seq![
        Some(r.id),
        Some(r.title),
        Some(r.description),
        Some(r.status),
        Some(r.priority),
        r.due_date,
        Some(r.created_at),
        Some(r.updated_at),
    ]
}

/// The insert of one tag relation row for a task.
pub open spec fn tag_stmt_view(id: u128, tag: Seq<char>) -> StatementView {
    StatementView { sql: insert_tag_sql(), params: seq![Some(uuid_text(id)), Some(tag)] }
}

/// The tag inserts for a tag list, in list order.
pub open spec fn tag_stmts(id: u128, tags: Seq<Seq<char>>) -> Seq<StatementView> {
    tags.map_values(|g: Seq<char>| tag_stmt_view(id, g))
}

/// The statements that persist a task: the row insert, then one tag
/// relation insert per tag, in order.
pub open spec fn create_statements_spec(t: TaskView) -> Seq<StatementView> {
    seq![StatementView { sql: insert_task_sql(), params: row_params(encode_row_spec(t)) }]
        + tag_stmts(t.id, t.tags)
}

proof fn lemma_tag_stmts_step(id: u128, tags: Seq<Seq<char>>, i: int)
    requires
        0 <= i < tags.len(),
    ensures
        tag_stmts(id, tags.take(i + 1)) == tag_stmts(id, tags.take(i)).push(
            tag_stmt_view(id, tags[i]),
        ),
{
    assert(tags.take(i + 1) =~= tags.take(i).push(tags[i]));
    assert(tag_stmts(id, tags.take(i + 1)) =~= tag_stmts(id, tags.take(i)).push(
        tag_stmt_view(id, tags[i]),
    ));
}

proof fn lemma_stmt_views_push(v: Seq<Statement>, st: Statement)
    ensures
        stmt_views(v.push(st)) == stmt_views(v).push(st@),
{
    assert(stmt_views(v.push(st)) =~= stmt_views(v).push(st@));
}

/// The create operation for a given identifier and clock reading: checks
/// the request, builds the task, and plans the row insert followed by one
/// tag insert per tag.  Succeeds exactly when the request is valid.
pub fn create_with(body: CreateTask, id: u128, now: Timestamp) -> (r: Result<
    (Task, Vec<Statement>),
    AppError,
>)
    requires
        now.wf(),
        body.wf(),
    ensures
        r is Ok <==> body.valid(),
        !body.valid() ==> (r matches Err(e) && e matches AppError::ValidationError(m) && m@
            == validation_msg(body.title@.len() == 0, body.description@.len() == 0)),
        r matches Ok(p) ==> p.0@ == (TaskView {
            id,
            title: body.title@,
            description: body.description@,
            status: body.status,
            priority: body.priority,
            due_date: body.due_date,
            created_at: now,
            updated_at: now,
            tags: body.tags.deep_view(),
        }) && p.0@.wf() && stmt_views(p.1@) == create_statements_spec(p.0@),
{
    match validate_create(&body) {
        Err(e) => {
            return Err(e);
        },
        Ok(()) => {},
    }
    let task = body.into_task_with(id, now);
    let row = encode_task(&task);
    let mut params: Vec<Option<String>> = Vec::new();
    params.push(Some(row.id));
    params.push(Some(row.title));
    params.push(Some(row.description));
    params.push(Some(row.status));
    params.push(Some(row.priority));
    params.push(row.due_date);
    params.push(Some(row.created_at));
    params.push(Some(row.updated_at));
    let head = Statement {
        sql: String::from_str(
            "INSERT INTO tasks (id, title, description, status, priority, due_date, created_at, updated_at) VALUES (?, ?, ?, ?, ?, ?, ?, ?)",
        ),
        params,
    };
    proof {
        assert(head@.params =~= row_params(encode_row_spec(task@)));
    }
    let mut stmts: Vec<Statement> = Vec::new();
    stmts.push(head);
    let id_text = uuid_to_string(task.id);
    proof {
        assert(stmt_views(stmts@) =~= seq![
            StatementView {
                sql: insert_task_sql(),
                params: row_params(encode_row_spec(task@)),
            },
        ] + tag_stmts(task@.id, task@.tags.take(0)));
    }
    let n = task.tags.len();
    let mut i: usize = 0;
    while i < n
        invariant
            n == task.tags@.len(),
            i <= n,
            id_text@ == uuid_text(task@.id),
            stmt_views(stmts@) == seq![
                StatementView {
                    sql: insert_task_sql(),
                    params: row_params(encode_row_spec(task@)),
                },
            ] + tag_stmts(task@.id, task@.tags.take(i as int)),
        decreases n - i,
    {
        let mut ps: Vec<Option<String>> = Vec::new();
        ps.push(Some(id_text.clone()));
        ps.push(Some(task.tags[i].clone()));
        let st = Statement {
            sql: String::from_str("INSERT INTO task_tags (task_id, tag) VALUES (?, ?)"),
            params: ps,
        };
        proof {
            assert(st@.params =~= tag_stmt_view(task@.id, task@.tags[i as int]).params);
            assert(st@ == tag_stmt_view(task@.id, task@.tags[i as int]));
        }
        let ghost old_stmts = stmts@;
        stmts.push(st);
        proof {
            lemma_stmt_views_push(old_stmts, st);
            lemma_tag_stmts_step(task@.id, task@.tags, i as int);
            assert(stmt_views(stmts@) =~= seq![
                StatementView {
                    sql: insert_task_sql(),
                    params: row_params(encode_row_spec(task@)),
                },
            ] + tag_stmts(task@.id, task@.tags.take(i + 1)));
        }
        i += 1;
    }
    proof {
        assert(task@.tags.take(n as int) =~= task@.tags);
        assert(stmt_views(stmts@) == create_statements_spec(task@));
    }
    Ok((task, stmts))
}

/// The create operation: draws a fresh identifier, reads the clock, and
/// plans the statements.  Validation is checked first; a clock reading
/// outside the encodable era is reported as a server error.
pub fn plan_create(body: CreateTask) -> (r: Result<(Task, Vec<Statement>), AppError>)
    requires
        body.wf(),
    ensures
        (r matches Err(e) && e matches AppError::ValidationError(m)) <==> !body.valid(),
        !body.valid() ==> (r matches Err(e) && e matches AppError::ValidationError(m) && m@
            == validation_msg(body.title@.len() == 0, body.description@.len() == 0)),
        r matches Ok(p) ==> {
            &&& p.0@.title == body.title@
            &&& p.0@.description == body.description@
            &&& p.0@.status == body.status
            &&& p.0@.priority == body.priority
            &&& p.0@.due_date == body.due_date
            &&& p.0@.tags == body.tags.deep_view()
            &&& p.0@.created_at == p.0@.updated_at
            &&& p.0@.wf()
            &&& stmt_views(p.1@) == create_statements_spec(p.0@)
        },
{
    match validate_create(&body) {
        Err(e) => {
            return Err(e);
        },
        Ok(()) => {},
    }
    let id = fresh_uuid();
    let (secs, nanos) = now_timestamp();
    let now = match Timestamp::new(secs, nanos) {
        Some(t) => t,
        None => {
            return Err(AppError::ServerError(String::from_str("system clock out of range")));
        },
    };
    create_with(body, id, now)
}

/// The SET fragments of a partial update: one per supplied field, in fixed
/// field order, and always `updated_at`.
pub open spec fn set_frags(u: UpdateTask) -> Seq<Seq<char>> {
    frag_if(u.title is Some, "title = ?"@) + frag_if(u.description is Some, "description = ?"@)
        + frag_if(u.status is Some, "status = ?"@) + frag_if(
        u.priority is Some,
        "priority = ?"@,
    ) + frag_if(u.due_date is Some, "due_date = ?"@) + frag_if(true, "updated_at = ?"@)
}

/// The canonical label of an optional status, empty when absent.
pub open spec fn status_sv(o: Option<Status>) -> Seq<char> {
    match o {
        Some(s) => status_label(s),
        None => Seq::empty(),
    }
}

/// The canonical label of an optional priority, empty when absent.
pub open spec fn priority_sv(o: Option<Priority>) -> Seq<char> {
    match o {
        Some(p) => priority_label(p),
        None => Seq::empty(),
    }
}

/// The bound values of a partial update: the supplied values in SET order,
/// then the fresh update instant, then the row identifier.
pub open spec fn update_params(u: UpdateTask, id: u128, now: Timestamp) -> Seq<Seq<char>> {
    val_if(u.title is Some, sv(u.title)) + val_if(u.description is Some, sv(u.description))
        + val_if(u.status is Some, status_sv(u.status)) + val_if(
        u.priority is Some,
        priority_sv(u.priority),
    ) + val_if(u.due_date is Some, tsv(u.due_date)) + val_if(
        true,
        rfc3339_text(now.secs, now.nanos),
    ) + val_if(true, uuid_text(id))
}

/// The statement text of a partial update: only supplied columns are set,
/// `updated_at` always, and the row is selected by its identifier.
pub open spec fn update_sql_of(u: UpdateTask) -> Seq<char> {
    "UPDATE tasks SET "@ + join_sep(", "@, set_frags(u)) + " WHERE id = ?"@
}

/// The update operation for a given clock reading: checks the supplied
/// fields and builds the UPDATE statement that sets exactly the supplied
/// columns plus `updated_at`.  Succeeds exactly when the request is valid;
/// a missing row is not an error here, the statement then affects nothing.
#[verifier::rlimit(30)]
pub fn update_with(id: u128, u: &UpdateTask, now: Timestamp) -> (r: Result<
    (String, Vec<String>),
    AppError,
>)
    requires
        now.wf(),
        u.wf(),
    ensures
        r is Ok <==> u.valid(),
        !u.valid() ==> (r matches Err(e) && e matches AppError::ValidationError(m) && m@
            == validation_msg(
            (u.title matches Some(t) && t@.len() == 0),
            (u.description matches Some(d) && d@.len() == 0),
        )),
        r matches Ok(p) ==> p.0@ == update_sql_of(*u) && p.1.deep_view() == update_params(
            *u,
            id,
            now,
        ),
{
    match validate_update(u) {
        Err(e) => {
            return Err(e);
        },
        Ok(()) => {},
    }
    let ghost f1 = frag_if(u.title is Some, "title = ?"@);
    let ghost f2 = frag_if(u.description is Some, "description = ?"@);
    let ghost f3 = frag_if(u.status is Some, "status = ?"@);
    let ghost f4 = frag_if(u.priority is Some, "priority = ?"@);
    let ghost f5 = frag_if(u.due_date is Some, "due_date = ?"@);
    let ghost v1 = val_if(u.title is Some, sv(u.title));
    let ghost v2 = val_if(u.description is Some, sv(u.description));
    let ghost v3 = val_if(u.status is Some, status_sv(u.status));
    let ghost v4 = val_if(u.priority is Some, priority_sv(u.priority));
    let ghost v5 = val_if(u.due_date is Some, tsv(u.due_date));

    let mut sets: Vec<&'static str> = Vec::new();
    let mut params: Vec<String> = Vec::new();

    let title = match &u.title {
        Some(t) => Some(t.clone()),
        None => None,
    };
    add_filter(&mut sets, &mut params, "title = ?", title);
    proof {
        assert(sets.deep_view() =~= f1);
        assert(params.deep_view() =~= v1);
    }

    let description = match &u.description {
        Some(d) => Some(d.clone()),
        None => None,
    };
    add_filter(&mut sets, &mut params, "description = ?", description);
    proof {
        assert(sets.deep_view() == f1 + f2);
        assert(params.deep_view() == v1 + v2);
    }

    let status = match &u.status {
        Some(s) => Some(String::from_str(s.label())),
        None => None,
    };
    add_filter(&mut sets, &mut params, "status = ?", status);
    proof {
        assert(sets.deep_view() == f1 + f2 + f3);
        assert(params.deep_view() == v1 + v2 + v3);
    }

    let priority = match &u.priority {
        Some(p) => Some(String::from_str(p.label())),
        None => None,
    };
    add_filter(&mut sets, &mut params, "priority = ?", priority);
    proof {
        assert(sets.deep_view() == f1 + f2 + f3 + f4);
        assert(params.deep_view() == v1 + v2 + v3 + v4);
    }

    let due_date = match &u.due_date {
        Some(t) => Some(timestamp_to_rfc3339(t.secs, t.nanos)),
        None => None,
    };
    add_filter(&mut sets, &mut params, "due_date = ?", due_date);
    proof {
        assert(sets.deep_view() == f1 + f2 + f3 + f4 + f5);
        assert(params.deep_view() == v1 + v2 + v3 + v4 + v5);
    }

    add_filter(
        &mut sets,
        &mut params,
        "updated_at = ?",
        Some(timestamp_to_rfc3339(now.secs, now.nanos)),
    );
    proof {
        assert(sets.deep_view() == set_frags(*u));
        assert(params.deep_view() == v1 + v2 + v3 + v4 + v5 + val_if(
            true,
            rfc3339_text(now.secs, now.nanos),
        ));
    }

    let ghost params_before = params.deep_view();
    params.push(uuid_to_string(id));
    proof {
        assert(params.deep_view() =~= params_before + val_if(true, uuid_text(id)));
        assert(params.deep_view() == update_params(*u, id, now));
    }

    let mut sql = String::from_str("UPDATE tasks SET ");
    append_joined(&mut sql, &sets, ", ");
    sql.append(" WHERE id = ?");
    proof {
        assert(sql@ =~= update_sql_of(*u));
    }
    Ok((sql, params))
}

/// The update operation: reads the clock and builds the UPDATE statement.
/// Validation is checked first; a clock reading outside the encodable era
/// is reported as a server error.
pub fn plan_update(id: u128, u: &UpdateTask) -> (r: Result<(String, Vec<String>), AppError>)
    requires
        u.wf(),
    ensures
        (r matches Err(e) && e matches AppError::ValidationError(m)) <==> !u.valid(),
        !u.valid() ==> (r matches Err(e) && e matches AppError::ValidationError(m) && m@
            == validation_msg(
            (u.title matches Some(t) && t@.len() == 0),
            (u.description matches Some(d) && d@.len() == 0),
        )),
        r matches Ok(p) ==> p.0@ == update_sql_of(*u) && (exists|now: Timestamp|
            now.wf() && p.1.deep_view() == update_params(*u, id, now)),
{
    match validate_update(u) {
        Err(e) => {
            return Err(e);
        },
        Ok(()) => {},
    }
    let (secs, nanos) = now_timestamp();
    let now = match Timestamp::new(secs, nanos) {
        Some(t) => t,
        None => {
            return Err(AppError::ServerError(String::from_str("system clock out of range")));
        },
    };
    let r = update_with(id, u, now);
    proof {
        match &r {
            Ok(p) => {
                assert(now.wf() && p.1.deep_view() == update_params(*u, id, now));
            },
            Err(_) => {},
        }
    }
    r
}

/// The delete operation: the row delete and the delete of every tag
/// relation row of the task, bound to the same identifier.  Deleting never
/// fails, whether or not the row exists.
pub fn plan_delete(id: u128) -> (r: Vec<Statement>)
    ensures
        stmt_views(r@) == seq![
            StatementView { sql: delete_task_sql(), params: seq![Some(uuid_text(id))] },
            StatementView { sql: delete_tags_sql(), params: seq![Some(uuid_text(id))] },
        ],
{
    let id_text = uuid_to_string(id);
    let mut ps1: Vec<Option<String>> = Vec::new();
    ps1.push(Some(id_text.clone()));
    let mut ps2: Vec<Option<String>> = Vec::new();
    ps2.push(Some(id_text));
    let mut stmts: Vec<Statement> = Vec::new();
    stmts.push(Statement { sql: String::from_str("DELETE FROM tasks WHERE id = ?"), params: ps1 });
    stmts.push(
        Statement {
            sql: String::from_str("DELETE FROM task_tags WHERE task_id = ?"),
            params: ps2,
        },
    );
    proof {
        assert(stmts@[0]@.params =~= seq![Some(uuid_text(id))]);
        assert(stmts@[1]@.params =~= seq![Some(uuid_text(id))]);
        assert(stmt_views(stmts@) =~= seq![
            StatementView { sql: delete_task_sql(), params: seq![Some(uuid_text(id))] },
            StatementView { sql: delete_tags_sql(), params: seq![Some(uuid_text(id))] },
        ]);
    }
    stmts
}

/// The tag-attach operation: one relation row insert.  No check that the
/// task exists is made here, matching the store's lack of such a check.
pub fn plan_add_tag(id: u128, body: TagBody) -> (r: Statement)
    ensures
        r@ == tag_stmt_view(id, body.tag@),
{
    let mut ps: Vec<Option<String>> = Vec::new();
    ps.push(Some(uuid_to_string(id)));
    ps.push(Some(body.tag));
    let st = Statement {
        sql: String::from_str("INSERT INTO task_tags (task_id, tag) VALUES (?, ?)"),
        params: ps,
    };
    proof {
        assert(st@.params =~= tag_stmt_view(id, body.tag@).params);
    }
    st
}

/// The tag-detach operation: the delete of one relation row.
pub fn plan_remove_tag(id: u128, tag: String) -> (r: Statement)
    ensures
        r@ == (StatementView {
            sql: delete_tag_sql(),
            params: seq![Some(uuid_text(id)), Some(tag@)],
        }),
{
    let mut ps: Vec<Option<String>> = Vec::new();
    ps.push(Some(uuid_to_string(id)));
    ps.push(Some(tag));
    let st = Statement {
        sql: String::from_str("DELETE FROM task_tags WHERE task_id = ? AND tag = ?"),
        params: ps,
    };
    proof {
        assert(st@.params =~= seq![Some(uuid_text(id)), Some(tag@)]);
    }
    st
}

/// The read of a single task: a missing row is `NotFound`; a fetched row
/// is decoded with its fetched tags.
pub fn task_from_row(row: Option<DatabaseTask>, tags: Vec<String>) -> (r: Result<Task, AppError>)
    ensures
        row is None ==> r == Err::<Task, AppError>(AppError::NotFound),
        row matches Some(dt) ==> match decode_row_spec(dt@, tags.deep_view()) {
            Ok(tv) => r matches Ok(t) && t@ == tv,
            Err(m) => r matches Err(e) && e matches AppError::ParseError(em) && em@ == m,
        },
{
    match row {
        Some(dt) => dt.into_task(tags),
        None => Err(AppError::NotFound),
    }
}

/// Decodes a list of fetched rows, each with its fetched tag list.  The
/// whole call succeeds exactly when every row decodes; the first failing
/// row aborts it with that row's decode error.
pub fn decode_task_rows(rows: &Vec<DatabaseTask>, tag_lists: &Vec<Vec<String>>) -> (r: Result<
    Vec<Task>,
    AppError,
>)
    requires
        rows@.len() == tag_lists@.len(),
    ensures
        r is Ok <==> (forall|i: int|
            0 <= i < rows@.len() ==> decode_row_spec(
                rows@[i]@,
                tag_lists@[i].deep_view(),
            ) is Ok),
        r matches Ok(ts) ==> ts@.len() == rows@.len() && (forall|i: int|
            0 <= i < rows@.len() ==> ts@[i]@ == decode_row_spec(
                rows@[i]@,
                tag_lists@[i].deep_view(),
            )->Ok_0),
        r matches Err(e) ==> exists|j: int|
            0 <= j < rows@.len() && (forall|k: int|
                0 <= k < j ==> decode_row_spec(rows@[k]@, tag_lists@[k].deep_view()) is Ok)
                && decode_row_spec(rows@[j]@, tag_lists@[j].deep_view()) is Err && (
            e matches AppError::ParseError(m) && m@ == decode_row_spec(
                rows@[j]@,
                tag_lists@[j].deep_view(),
            )->Err_0),
{
    let n = rows.len();
    let mut out: Vec<Task> = Vec::new();
    let mut i: usize = 0;
    while i < n
        invariant
            n == rows@.len(),
            n == tag_lists@.len(),
            i <= n,
            out@.len() == i,
            forall|k: int|
                0 <= k < i ==> decode_row_spec(rows@[k]@, tag_lists@[k].deep_view()) is Ok,
            forall|k: int|
                0 <= k < i ==> out@[k]@ == decode_row_spec(
                    rows@[k]@,
                    tag_lists@[k].deep_view(),
                )->Ok_0,
        decreases n - i,
    {
        let tags = clone_string_vec(&tag_lists[i]);
        match decode_row(&rows[i], tags) {
            Ok(t) => {
                out.push(t);
            },
            Err(e) => {
                proof {
                    let ghost j = i as int;
                    assert(0 <= j < rows@.len() && (forall|k: int|
                        0 <= k < j ==> decode_row_spec(
                            rows@[k]@,
                            tag_lists@[k].deep_view(),
                        ) is Ok) && decode_row_spec(rows@[j]@, tag_lists@[j].deep_view()) is Err);
                }
                return Err(e);
            },
        }
        i += 1;
    }
    Ok(out)
}

} // verus!
