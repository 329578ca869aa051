//! The SQL that stores a batch of events in TimescaleDB.

use vstd::prelude::*;
use crate::ditto_event::{db_label, DittoEvent, EventTime};
use crate::text::{decimal_digits, push_decimal};

verus! {

/// The fixed head of the batch `INSERT` statement.
pub open spec fn insert_head() -> Seq<char> {
    "INSERT INTO dittoevent (time, thing_id, action, revision, path, value) VALUES "@
}

/// The tuple of placeholders of row `i` (from 0): parameters `$(6i+1)` to
/// `$(6i+6)`, the third cast to `action_enum`.
pub open spec fn row_placeholders(i: nat) -> Seq<char> {
    let b = i * 6;
    "($"@ + decimal_digits(b + 1) + ", $"@ + decimal_digits(b + 2) + ", $"@ + decimal_digits(b + 3)
        + "::action_enum, $"@ + decimal_digits(b + 4) + ", $"@ + decimal_digits(b + 5) + ", $"@
        + decimal_digits(b + 6) + ")"@
}

/// The tuples of rows `0..n`, separated by `, `.
pub open spec fn rows_placeholders(n: nat) -> Seq<char>
    decreases n,
{
    if n == 0 {
        Seq::empty()
    } else if n == 1 {
        row_placeholders(0)
    } else {
        rows_placeholders((n - 1) as nat) + ", "@ + row_placeholders((n - 1) as nat)
    }
}

/// The statement that inserts `n` rows.
pub open spec fn batch_query(n: nat) -> Seq<char> {
    insert_head() + rows_placeholders(n)
}

/// The statement for no rows is the bare head, for one row the head and that
/// row's tuple, and each further row adds `, ` and its tuple at the end: the
/// tuples follow the head in row order, separated by `, `.
pub proof fn lemma_batch_query_rows(n: nat)
    ensures
        batch_query(0) == insert_head(),
        batch_query(1) == insert_head() + row_placeholders(0),
        n >= 1 ==> batch_query(n + 1) == batch_query(n) + ", "@ + row_placeholders(n),
{
    assert(insert_head() + Seq::<char>::empty() =~= insert_head());
    if n >= 1 {
        assert(rows_placeholders(n + 1) == rows_placeholders(n) + ", "@ + row_placeholders(n));
        assert(insert_head() + (rows_placeholders(n) + ", "@ + row_placeholders(n)) =~= insert_head()
            + rows_placeholders(n) + ", "@ + row_placeholders(n));
    }
}

fn push_row(sql: &mut String, i: usize)
    requires
        i <= usize::MAX / 6 - 1,
    ensures
        final(sql)@ == old(sql)@ + row_placeholders(i as nat),
{
    let base: usize = i * 6;
    sql.append("($");
    push_decimal(sql, (base + 1) as u64);
    sql.append(", $");
    push_decimal(sql, (base + 2) as u64);
    sql.append(", $");
    push_decimal(sql, (base + 3) as u64);
    sql.append("::action_enum, $");
    push_decimal(sql, (base + 4) as u64);
    sql.append(", $");
    push_decimal(sql, (base + 5) as u64);
    sql.append(", $");
    push_decimal(sql, (base + 6) as u64);
    sql.append(")");
    assert(final(sql)@ =~= old(sql)@ + row_placeholders(i as nat));
}

/// The multi-row `INSERT` statement for `row_count` events, with six bound
/// parameters per row.
pub fn build_batch_query(row_count: usize) -> (sql: String)
    requires
        row_count <= usize::MAX / 6,
    ensures
        sql@ == batch_query(row_count as nat),
{
    let mut sql = String::from_str(
        "INSERT INTO dittoevent (time, thing_id, action, revision, path, value) VALUES ",
    );
    let mut i: usize = 0;
    while i < row_count
        invariant
            i <= row_count <= usize::MAX / 6,
            sql@ == insert_head() + rows_placeholders(i as nat),
        decreases row_count - i,
    {
        let ghost before = sql@;
        if i > 0 {
            sql.append(", ");
        }
        push_row(&mut sql, i);
        assert(sql@ =~= insert_head() + rows_placeholders((i + 1) as nat));
        i = i + 1;
    }
    sql
}

/// The statement that stores `events`, or `None` when there is nothing to
/// store.
pub fn batch_insert_sql(events: &Vec<DittoEvent>) -> (sql: Option<String>)
    requires
        events.len() <= usize::MAX / 6,
    ensures
        events.len() == 0 <==> sql is None,
        sql matches Some(s) ==> s@ == batch_query(events.len() as nat),
{
    if events.len() == 0 {
        None
    } else {
        Some(build_batch_query(events.len()))
    }
}


/// The values that one event binds, in the order of its row's placeholders:
/// time, thing id, action label (cast to `action_enum` by the statement),
/// revision, path, and value as JSON text.
pub fn row_values(ev: &DittoEvent) -> (values: (
    EventTime,
    String,
    String,
    Option<i32>,
    String,
    Option<String>,
))
    ensures
        values.0 == ev.time,
        values.1@ == ev.thing_id@,
        values.2@ == db_label(ev.action),
        values.3 == ev.revision,
        values.4@ == ev.path@,
        values.5.deep_view() == ev.value.deep_view(),
{
    let value = match &ev.value {
        Some(text) => Some(text.clone()),
        None => None,
    };
    (ev.time, ev.thing_id.clone(), ev.action.to_string(), ev.revision, ev.path.clone(), value)
}

} // verus!
