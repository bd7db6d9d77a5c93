//! The dynamic query builder: an open set of optional filter and sort
//! criteria becomes one parameterized SELECT plus its ordered argument
//! list.
//!
//! Statement text is assembled from fixed fragments and — for sorting —
//! from a column name validated against a closed allow-list; every filter
//! value is a bound parameter, never interpolated.  The bound values stand
//! in exactly the order of the predicates they belong to.

use vstd::prelude::*;
use crate::ext::{rfc3339_text, timestamp_to_rfc3339};
use crate::models::Timestamp;
use crate::text::{join_sep, append_joined, str_eq};

verus! {

/// The optional filter and sort criteria of a list request.
#[derive(Debug, Clone, PartialEq)]
pub struct ListQuery {
    pub status: Option<String>,
    pub priority: Option<String>,
    pub title: Option<String>,
    pub tag: Option<String>,
    pub due_before: Option<Timestamp>,
    pub due_after: Option<Timestamp>,
    pub created_before: Option<Timestamp>,
    pub created_after: Option<Timestamp>,
    pub sort_by: Option<String>,
    pub sort_order: Option<String>,
}

impl ListQuery {
    /// Every supplied bound lies in the encodable era.
    pub open spec fn wf(self) -> bool {
        &&& (self.due_before matches Some(t) ==> t.wf())
        &&& (self.due_after matches Some(t) ==> t.wf())
        &&& (self.created_before matches Some(t) ==> t.wf())
        &&& (self.created_after matches Some(t) ==> t.wf())
    }
}

/// The characters of an optional string, empty when absent.
pub open spec fn sv(o: Option<String>) -> Seq<char> {
    match o {
        Some(s) => s@,
        None => Seq::empty(),
    }
}

/// The bound text of an optional timestamp, empty when absent.
pub open spec fn tsv(o: Option<Timestamp>) -> Seq<char> {
    match o {
        Some(t) => rfc3339_text(t.secs, t.nanos),
        None => Seq::empty(),
    }
}

/// A title filter value wrapped in wildcard markers on both sides.
pub open spec fn like_pattern(s: Seq<char>) -> Seq<char> {
    "%"@ + s + "%"@
}

/// One predicate-and-value pair when the filter is present, nothing
/// otherwise.
pub open spec fn pair_if(present: bool, frag: Seq<char>, val: Seq<char>) -> Seq<
    (Seq<char>, Seq<char>),
> {
    if present {
        seq![(frag, val)]
    } else {
        Seq::empty()
    }
}

/// The predicates of a query in fixed field order: each present filter
/// contributes exactly one fragment of statement text and the value bound
/// to it; absent filters contribute nothing.
pub open spec fn filter_pairs(q: ListQuery) -> Seq<(Seq<char>, Seq<char>)> {
    pair_if(q.status is Some, "status = ?"@, sv(q.status))
        + pair_if(q.priority is Some, "priority = ?"@, sv(q.priority))
        + pair_if(q.title is Some, "title LIKE ?"@, like_pattern(sv(q.title)))
        + pair_if(q.tag is Some, "id IN (SELECT task_id FROM task_tags WHERE tag = ?)"@, sv(q.tag))
        + pair_if(q.due_before is Some, "due_date <= ?"@, tsv(q.due_before))
        + pair_if(q.due_after is Some, "due_date >= ?"@, tsv(q.due_after))
        + pair_if(q.created_before is Some, "created_at <= ?"@, tsv(q.created_before))
        + pair_if(q.created_after is Some, "created_at >= ?"@, tsv(q.created_after))
}

/// The text fragments of a pair sequence.
pub open spec fn pair_frags(ps: Seq<(Seq<char>, Seq<char>)>) -> Seq<Seq<char>> {
    ps.map_values(|p: (Seq<char>, Seq<char>)| p.0)
}

/// The bound values of a pair sequence.
pub open spec fn pair_vals(ps: Seq<(Seq<char>, Seq<char>)>) -> Seq<Seq<char>> {
    ps.map_values(|p: (Seq<char>, Seq<char>)| p.1)
}

/// One text fragment when the filter is present, nothing otherwise.
pub open spec fn frag_if(present: bool, frag: Seq<char>) -> Seq<Seq<char>> {
    if present {
        seq![frag]
    } else {
        Seq::empty()
    }
}

/// One bound value when the filter is present, nothing otherwise.
pub open spec fn val_if(present: bool, val: Seq<char>) -> Seq<Seq<char>> {
    if present {
        seq![val]
    } else {
        Seq::empty()
    }
}

/// The fragment list of a query with the values stripped: a function of
/// the presence of each filter alone.
pub open spec fn frag_shape(q: ListQuery) -> Seq<Seq<char>> {
    frag_if(q.status is Some, "status = ?"@) + frag_if(q.priority is Some, "priority = ?"@)
        + frag_if(q.title is Some, "title LIKE ?"@) + frag_if(
        q.tag is Some,
        "id IN (SELECT task_id FROM task_tags WHERE tag = ?)"@,
    ) + frag_if(q.due_before is Some, "due_date <= ?"@) + frag_if(
        q.due_after is Some,
        "due_date >= ?"@,
    ) + frag_if(q.created_before is Some, "created_at <= ?"@) + frag_if(
        q.created_after is Some,
        "created_at >= ?"@,
    )
}

/// The value list of a query, in the same field order as the fragments.
pub open spec fn val_shape(q: ListQuery) -> Seq<Seq<char>> {
    val_if(q.status is Some, sv(q.status)) + val_if(q.priority is Some, sv(q.priority)) + val_if(
        q.title is Some,
        like_pattern(sv(q.title)),
    ) + val_if(q.tag is Some, sv(q.tag)) + val_if(q.due_before is Some, tsv(q.due_before))
        + val_if(q.due_after is Some, tsv(q.due_after)) + val_if(
        q.created_before is Some,
        tsv(q.created_before),
    ) + val_if(q.created_after is Some, tsv(q.created_after))
}

/// The closed allow-list of sort columns.
pub open spec fn sort_allowed(s: Seq<char>) -> bool {
    ||| s == "title"@
    ||| s == "priority"@
    ||| s == "status"@
    ||| s == "due_date"@
    ||| s == "created_at"@
    ||| s == "updated_at"@
}

/// Descending order was requested; anything but `desc` means ascending.
pub open spec fn wants_desc(q: ListQuery) -> bool {
    q.sort_order matches Some(o) && o@ == "desc"@
}

/// The ORDER BY clause: present exactly when the requested sort column is
/// on the allow-list; any other request is silently ignored.
pub open spec fn order_clause(q: ListQuery) -> Seq<char> {
    match q.sort_by {
        Some(sb) => if sort_allowed(sb@) {
            " ORDER BY "@ + sb@ + (if wants_desc(q) {
                " DESC"@
            } else {
                " ASC"@
            })
        } else {
            Seq::empty()
        },
        None => Seq::empty(),
    }
}

/// The WHERE clause: the present predicates joined by AND, or nothing when
/// no filter is present.
pub open spec fn where_clause(q: ListQuery) -> Seq<char> {
    if filter_pairs(q).len() == 0 {
        Seq::empty()
    } else {
        " WHERE "@ + join_sep(" AND "@, pair_frags(filter_pairs(q)))
    }
}

/// The full statement text of a list query.
pub open spec fn sql_of(q: ListQuery) -> Seq<char> {
    "SELECT * FROM tasks"@ + where_clause(q) + order_clause(q)
}

/// The bound values of a list query, in predicate order.
pub open spec fn params_of(q: ListQuery) -> Seq<Seq<char>> {
    pair_vals(filter_pairs(q))
}

/// Mapping to fragments distributes over concatenation.
pub proof fn lemma_pair_frags_concat(a: Seq<(Seq<char>, Seq<char>)>, b: Seq<(Seq<char>, Seq<char>)>)
    ensures
        pair_frags(a + b) == pair_frags(a) + pair_frags(b),
{
    assert(pair_frags(a + b) =~= pair_frags(a) + pair_frags(b));
}

/// Mapping to values distributes over concatenation.
pub proof fn lemma_pair_vals_concat(a: Seq<(Seq<char>, Seq<char>)>, b: Seq<(Seq<char>, Seq<char>)>)
    ensures
        pair_vals(a + b) == pair_vals(a) + pair_vals(b),
{
    assert(pair_vals(a + b) =~= pair_vals(a) + pair_vals(b));
}

/// The two projections of a conditional pair.
pub proof fn lemma_pair_if_projections(present: bool, frag: Seq<char>, val: Seq<char>)
    ensures
        pair_frags(pair_if(present, frag, val)) == frag_if(present, frag),
        pair_vals(pair_if(present, frag, val)) == val_if(present, val),
{
    assert(pair_frags(pair_if(present, frag, val)) =~= frag_if(present, frag));
    assert(pair_vals(pair_if(present, frag, val)) =~= val_if(present, val));
}

/// The projections of a query's predicate pairs are its fragment and value
/// shapes: fragments never hold a filter value.
pub proof fn lemma_filter_shape(q: ListQuery)
    ensures
        pair_frags(filter_pairs(q)) == frag_shape(q),
        pair_vals(filter_pairs(q)) == val_shape(q),
        filter_pairs(q).len() == frag_shape(q).len(),
{
    let p1 = pair_if(q.status is Some, "status = ?"@, sv(q.status));
    let p2 = pair_if(q.priority is Some, "priority = ?"@, sv(q.priority));
    let p3 = pair_if(q.title is Some, "title LIKE ?"@, like_pattern(sv(q.title)));
    let p4 = pair_if(
        q.tag is Some,
        "id IN (SELECT task_id FROM task_tags WHERE tag = ?)"@,
        sv(q.tag),
    );
    let p5 = pair_if(q.due_before is Some, "due_date <= ?"@, tsv(q.due_before));
    let p6 = pair_if(q.due_after is Some, "due_date >= ?"@, tsv(q.due_after));
    let p7 = pair_if(q.created_before is Some, "created_at <= ?"@, tsv(q.created_before));
    let p8 = pair_if(q.created_after is Some, "created_at >= ?"@, tsv(q.created_after));
    lemma_pair_if_projections(q.status is Some, "status = ?"@, sv(q.status));
    lemma_pair_if_projections(q.priority is Some, "priority = ?"@, sv(q.priority));
    lemma_pair_if_projections(q.title is Some, "title LIKE ?"@, like_pattern(sv(q.title)));
    lemma_pair_if_projections(
        q.tag is Some,
        "id IN (SELECT task_id FROM task_tags WHERE tag = ?)"@,
        sv(q.tag),
    );
    lemma_pair_if_projections(q.due_before is Some, "due_date <= ?"@, tsv(q.due_before));
    lemma_pair_if_projections(q.due_after is Some, "due_date >= ?"@, tsv(q.due_after));
    lemma_pair_if_projections(q.created_before is Some, "created_at <= ?"@, tsv(q.created_before));
    lemma_pair_if_projections(q.created_after is Some, "created_at >= ?"@, tsv(q.created_after));
    lemma_pair_frags_concat(p1, p2);
    lemma_pair_frags_concat(p1 + p2, p3);
    lemma_pair_frags_concat(p1 + p2 + p3, p4);
    lemma_pair_frags_concat(p1 + p2 + p3 + p4, p5);
    lemma_pair_frags_concat(p1 + p2 + p3 + p4 + p5, p6);
    lemma_pair_frags_concat(p1 + p2 + p3 + p4 + p5 + p6, p7);
    lemma_pair_frags_concat(p1 + p2 + p3 + p4 + p5 + p6 + p7, p8);
    lemma_pair_vals_concat(p1, p2);
    lemma_pair_vals_concat(p1 + p2, p3);
    lemma_pair_vals_concat(p1 + p2 + p3, p4);
    lemma_pair_vals_concat(p1 + p2 + p3 + p4, p5);
    lemma_pair_vals_concat(p1 + p2 + p3 + p4 + p5, p6);
    lemma_pair_vals_concat(p1 + p2 + p3 + p4 + p5 + p6, p7);
    lemma_pair_vals_concat(p1 + p2 + p3 + p4 + p5 + p6 + p7, p8);
}

/// Injection safety: the statement text depends only on which filters are
/// present and on the validated sort request, never on any filter value.
pub proof fn lemma_sql_value_independent(q1: ListQuery, q2: ListQuery)
    requires
        q1.status is Some <==> q2.status is Some,
        q1.priority is Some <==> q2.priority is Some,
        q1.title is Some <==> q2.title is Some,
        q1.tag is Some <==> q2.tag is Some,
        q1.due_before is Some <==> q2.due_before is Some,
        q1.due_after is Some <==> q2.due_after is Some,
        q1.created_before is Some <==> q2.created_before is Some,
        q1.created_after is Some <==> q2.created_after is Some,
        q1.sort_by is Some <==> q2.sort_by is Some,
        sv(q1.sort_by) == sv(q2.sort_by),
        wants_desc(q1) == wants_desc(q2),
    ensures
        sql_of(q1) == sql_of(q2),
{
    lemma_filter_shape(q1);
    lemma_filter_shape(q2);
    assert(frag_shape(q1) == frag_shape(q2));
    assert(order_clause(q1) == order_clause(q2));
}

/// Appends one optional predicate: the fragment to the condition list and
/// the value to the parameter list, both only when the value is present.
pub(crate) fn add_filter(
    conds: &mut Vec<&'static str>,
    params: &mut Vec<String>,
    frag: &'static str,
    value: Option<String>,
)
    ensures
        final(conds).deep_view() == old(conds).deep_view() + frag_if(value is Some, frag@),
        final(params).deep_view() == old(params).deep_view() + val_if(value is Some, sv(value)),
{
    match value {
        Some(v) => {
            conds.push(frag);
            params.push(v);
            proof {
                assert(conds.deep_view() =~= old(conds).deep_view() + frag_if(true, frag@));
                assert(params.deep_view() =~= old(params).deep_view() + val_if(
                    true,
                    sv(value),
                ));
            }
        },
        None => {
            proof {
                assert(conds.deep_view() =~= old(conds).deep_view() + frag_if(false, frag@));
                assert(params.deep_view() =~= old(params).deep_view() + val_if(
                    false,
                    sv(value),
                ));
            }
        },
    }
}

/// Builds the list statement: the fixed base, one ANDed predicate for each
/// present filter, and an ORDER BY clause only for an allow-listed sort
/// column.  The returned values are the bound parameters, in predicate
/// order.
/// Collects the predicate fragments and bound values of every present
/// filter, in fixed field order.
#[verifier::rlimit(30)]
fn collect_filters(q: &ListQuery) -> (r: (Vec<&'static str>, Vec<String>))
    requires
        q.wf(),
    ensures
        r.0.deep_view() == frag_shape(*q),
        r.1.deep_view() == val_shape(*q),
{
    let ghost f1 = frag_if(q.status is Some, "status = ?"@);
    let ghost f2 = frag_if(q.priority is Some, "priority = ?"@);
    let ghost f3 = frag_if(q.title is Some, "title LIKE ?"@);
    let ghost f4 = frag_if(q.tag is Some, "id IN (SELECT task_id FROM task_tags WHERE tag = ?)"@);
    let ghost f5 = frag_if(q.due_before is Some, "due_date <= ?"@);
    let ghost f6 = frag_if(q.due_after is Some, "due_date >= ?"@);
    let ghost f7 = frag_if(q.created_before is Some, "created_at <= ?"@);
    let ghost f8 = frag_if(q.created_after is Some, "created_at >= ?"@);
    let ghost v1 = val_if(q.status is Some, sv(q.status));
    let ghost v2 = val_if(q.priority is Some, sv(q.priority));
    let ghost v3 = val_if(q.title is Some, like_pattern(sv(q.title)));
    let ghost v4 = val_if(q.tag is Some, sv(q.tag));
    let ghost v5 = val_if(q.due_before is Some, tsv(q.due_before));
    let ghost v6 = val_if(q.due_after is Some, tsv(q.due_after));
    let ghost v7 = val_if(q.created_before is Some, tsv(q.created_before));
    let ghost v8 = val_if(q.created_after is Some, tsv(q.created_after));

    let mut conds: Vec<&'static str> = Vec::new();
    let mut params: Vec<String> = Vec::new();

    let status = match &q.status {
        Some(s) => Some(s.clone()),
        None => None,
    };
    add_filter(&mut conds, &mut params, "status = ?", status);
    proof {
        assert(conds.deep_view() =~= f1);
        assert(params.deep_view() =~= v1);
    }

    let priority = match &q.priority {
        Some(p) => Some(p.clone()),
        None => None,
    };
    add_filter(&mut conds, &mut params, "priority = ?", priority);
    proof {
        assert(conds.deep_view() == f1 + f2);
        assert(params.deep_view() == v1 + v2);
    }

    let title = match &q.title {
        Some(t) => {
            let mut pat = String::from_str("%");
            pat.append(t.as_str());
            pat.append("%");
            Some(pat)
        },
        None => None,
    };
    add_filter(&mut conds, &mut params, "title LIKE ?", title);
    proof {
        assert(conds.deep_view() == f1 + f2 + f3);
        assert(params.deep_view() == v1 + v2 + v3);
    }

    let tag = match &q.tag {
        Some(t) => Some(t.clone()),
        None => None,
    };
    add_filter(&mut conds, &mut params, "id IN (SELECT task_id FROM task_tags WHERE tag = ?)", tag);
    proof {
        assert(conds.deep_view() == f1 + f2 + f3 + f4);
        assert(params.deep_view() == v1 + v2 + v3 + v4);
    }

    let due_before = match &q.due_before {
        Some(t) => Some(timestamp_to_rfc3339(t.secs, t.nanos)),
        None => None,
    };
    add_filter(&mut conds, &mut params, "due_date <= ?", due_before);
    proof {
        assert(conds.deep_view() == f1 + f2 + f3 + f4 + f5);
        assert(params.deep_view() == v1 + v2 + v3 + v4 + v5);
    }

    let due_after = match &q.due_after {
        Some(t) => Some(timestamp_to_rfc3339(t.secs, t.nanos)),
        None => None,
    };
    add_filter(&mut conds, &mut params, "due_date >= ?", due_after);
    proof {
        assert(conds.deep_view() == f1 + f2 + f3 + f4 + f5 + f6);
        assert(params.deep_view() == v1 + v2 + v3 + v4 + v5 + v6);
    }

    let created_before = match &q.created_before {
        Some(t) => Some(timestamp_to_rfc3339(t.secs, t.nanos)),
        None => None,
    };
    add_filter(&mut conds, &mut params, "created_at <= ?", created_before);
    proof {
        assert(conds.deep_view() == f1 + f2 + f3 + f4 + f5 + f6 + f7);
        assert(params.deep_view() == v1 + v2 + v3 + v4 + v5 + v6 + v7);
    }

    let created_after = match &q.created_after {
        Some(t) => Some(timestamp_to_rfc3339(t.secs, t.nanos)),
        None => None,
    };
    add_filter(&mut conds, &mut params, "created_at >= ?", created_after);
    proof {
        assert(conds.deep_view() == f1 + f2 + f3 + f4 + f5 + f6 + f7 + f8);
        assert(params.deep_view() == v1 + v2 + v3 + v4 + v5 + v6 + v7 + v8);
    }
    (conds, params)
}

/// Builds the list statement: the fixed base, one ANDed predicate for each
/// present filter, and an ORDER BY clause only for an allow-listed sort
/// column.  The returned values are the bound parameters, in predicate
/// order.
#[verifier::rlimit(30)]
pub fn build_list_query(q: &ListQuery) -> (r: (String, Vec<String>))
    requires
        q.wf(),
    ensures
        r.0@ == sql_of(*q),
        r.1.deep_view() == params_of(*q),
{
    let (conds, params) = collect_filters(q);
    proof {
        lemma_filter_shape(*q);
        assert(conds.deep_view() == pair_frags(filter_pairs(*q)));
        assert(params.deep_view() == params_of(*q));
    }

    let mut sql = String::from_str("SELECT * FROM tasks");
    if conds.len() > 0 {
        sql.append(" WHERE ");
        append_joined(&mut sql, &conds, " AND ");
        proof {
            assert(sql@ =~= "SELECT * FROM tasks"@ + where_clause(*q));
        }
    } else {
        proof {
            assert(sql@ =~= "SELECT * FROM tasks"@ + where_clause(*q));
        }
    }
    let ghost based = sql@;

    match &q.sort_by {
        Some(sb) => {
            let allowed = str_eq(sb.as_str(), "title") || str_eq(sb.as_str(), "priority")
                || str_eq(sb.as_str(), "status") || str_eq(sb.as_str(), "due_date") || str_eq(
                sb.as_str(),
                "created_at",
            ) || str_eq(sb.as_str(), "updated_at");
            if allowed {
                sql.append(" ORDER BY ");
                sql.append(sb.as_str());
                let desc = match &q.sort_order {
                    Some(o) => str_eq(o.as_str(), "desc"),
                    None => false,
                };
                if desc {
                    sql.append(" DESC");
                } else {
                    sql.append(" ASC");
                }
            }
            proof {
                assert(sql@ =~= based + order_clause(*q));
            }
        },
        None => {
            proof {
                assert(sql@ =~= based + order_clause(*q));
            }
        },
    }
    proof {
        assert(sql@ =~= sql_of(*q));
    }
    (sql, params)
}

} // verus!
