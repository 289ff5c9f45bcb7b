//! The table of tasks as the contracts see it: a run of rows, no two under one
//! number, and what each statement does to it when nothing goes wrong.
//!
//! Nothing here is executable. The table itself lives in a database; this is
//! the behaviour that the laws of the service are stated against.

use vstd::prelude::*;
use crate::tasks::model::TaskView;
use crate::tasks::store::{OutcomeView, QueryView};

verus! {

/// A stored task.
pub struct Row {
    pub id: i64,
    pub task: Seq<char>,
}

/// The task that a row holds.
pub open spec fn task_of(row: Row) -> TaskView {
    TaskView { id: Some(row.id), task: row.task }
}

/// The tasks of a table, in its order.
pub open spec fn listed(table: Seq<Row>) -> Seq<TaskView> {
    table.map_values(|row: Row| task_of(row))
}

/// Whether some row of the table has this number.
pub open spec fn holds(table: Seq<Row>, id: i64) -> bool {
    exists|i: int| 0 <= i < table.len() && (#[trigger] table[i]).id == id
}

/// No two rows share a number.
pub open spec fn distinct_ids(table: Seq<Row>) -> bool {
    forall|i: int, j: int|
        0 <= i < j < table.len() ==> (#[trigger] table[i]).id != (#[trigger] table[j]).id
}

/// The rows with this number.
pub open spec fn matching(table: Seq<Row>, id: i64) -> Seq<Row> {
    table.filter(|row: Row| row.id == id)
}

/// The rows with any other number.
pub open spec fn without(table: Seq<Row>, id: i64) -> Seq<Row> {
    table.filter(|row: Row| row.id != id)
}

/// The table with `task` as the text of each row with this number.
pub open spec fn overwritten(table: Seq<Row>, id: i64, task: Seq<char>) -> Seq<Row> {
    table.map_values(
        |row: Row|
            if row.id == id {
                Row { id, task }
            } else {
                row
            },
    )
}

/// The text stored under this number, if there is a row with it.
pub open spec fn text_of(table: Seq<Row>, id: i64) -> Option<Seq<char>> {
    let rows = matching(table, id);
    if rows.len() > 0 {
        Some(rows[0].task)
    } else {
        None
    }
}

/// An outcome, and the table that the statement left.
pub struct Answer {
    pub outcome: OutcomeView,
    pub table: Seq<Row>,
}

/// What a table that works does with a statement.
///
/// `fresh` is the number that the table gives to a row if the statement
/// inserts one. A lookup that finds no row fails; every other statement goes
/// through, also an update or a removal that no row matches.
pub open spec fn answer(table: Seq<Row>, query: QueryView, fresh: i64) -> Answer {
    match query {
        QueryView::SelectAll => Answer { outcome: OutcomeView::Rows(listed(table)), table },
        QueryView::SelectById { id } => {
            let rows = matching(table, id);
            if rows.len() > 0 {
                Answer { outcome: OutcomeView::Row(task_of(rows[0])), table }
            } else {
                Answer { outcome: OutcomeView::Failed, table }
            }
        },
        QueryView::Insert { task } => Answer {
            outcome: OutcomeView::Inserted { id: fresh },
            table: table.push(Row { id: fresh, task }),
        },
        QueryView::Update { id, task } => Answer {
            outcome: OutcomeView::Done,
            table: overwritten(table, id, task),
        },
        QueryView::Delete { id } => Answer { outcome: OutcomeView::Done, table: without(table, id) },
    }
}

/// A lookup finds a row exactly when the table holds the number.
pub proof fn lemma_found(table: Seq<Row>, id: i64)
    ensures
        matching(table, id).len() > 0 <==> holds(table, id),
        text_of(table, id) is Some <==> holds(table, id),
{
    let pred = |row: Row| row.id == id;
    let rows = matching(table, id);
    if rows.len() > 0 {
        table.lemma_filter_pred(pred, 0);
        assert(rows.contains(rows[0]));
        table.lemma_filter_contains_rev(pred, rows[0]);
        let i = choose|i: int| 0 <= i < table.len() && table[i] == rows[0];
        assert(table[i].id == id);
    }
    if holds(table, id) {
        let i = choose|i: int| 0 <= i < table.len() && (#[trigger] table[i]).id == id;
        table.lemma_filter_contains(pred, i);
    }
}

/// Where no two rows share a number, the lookup of a row's number finds that
/// row.
pub proof fn lemma_row_at(table: Seq<Row>, i: int)
    requires
        distinct_ids(table),
        0 <= i < table.len(),
    ensures
        matching(table, table[i].id).len() > 0,
        matching(table, table[i].id)[0] == table[i],
        text_of(table, table[i].id) == Some(table[i].task),
{
    let id = table[i].id;
    let pred = |row: Row| row.id == id;
    let rows = matching(table, id);
    table.lemma_filter_contains(pred, i);
    table.lemma_filter_pred(pred, 0);
    assert(rows.contains(rows[0]));
    table.lemma_filter_contains_rev(pred, rows[0]);
    let j = choose|j: int| 0 <= j < table.len() && table[j] == rows[0];
    assert(table[j].id == id);
    assert(j == i);
}

/// Leaving rows out keeps the numbers distinct.
pub proof fn lemma_filter_keeps_distinct(table: Seq<Row>, pred: spec_fn(Row) -> bool)
    requires
        distinct_ids(table),
    ensures
        distinct_ids(table.filter(pred)),
    decreases table.len(),
{
    reveal(Seq::filter);
    if table.len() > 0 {
        let rest = table.drop_last();
        let last = table.last();
        assert forall|i: int, j: int| 0 <= i < j < rest.len() implies (#[trigger] rest[i]).id != (
        #[trigger] rest[j]).id by {
            assert(rest[i] == table[i] && rest[j] == table[j]);
        }
        lemma_filter_keeps_distinct(rest, pred);
        let kept = rest.filter(pred);
        if pred(last) {
            assert forall|k: int| 0 <= k < kept.len() implies (#[trigger] kept[k]).id
                != last.id by {
                assert(kept.contains(kept[k]));
                rest.lemma_filter_contains_rev(pred, kept[k]);
                let j = choose|j: int| 0 <= j < rest.len() && rest[j] == kept[k];
                assert(table[j] == kept[k]);
                assert(table[table.len() - 1] == last);
            }
        }
    }
}

/// What an insertion under a number that the table does not hold leaves: the
/// new text under the new number, and every other number as it was.
pub proof fn lemma_inserted(table: Seq<Row>, row: Row, id: i64)
    requires
        distinct_ids(table),
        !holds(table, row.id),
    ensures
        distinct_ids(table.push(row)),
        text_of(table.push(row), id) == if id == row.id {
            Some(row.task)
        } else {
            text_of(table, id)
        },
{
    let grown = table.push(row);
    assert forall|i: int, j: int| 0 <= i < j < grown.len() implies (#[trigger] grown[i]).id != (
    #[trigger] grown[j]).id by {
        assert(grown[i] == table[i]);
        if j < table.len() {
            assert(grown[j] == table[j]);
        }
    }
    if id == row.id {
        assert(grown[table.len() as int] == row);
        lemma_row_at(grown, table.len() as int);
    } else {
        lemma_found(table, id);
        lemma_found(grown, id);
        if holds(table, id) {
            let i = choose|i: int| 0 <= i < table.len() && (#[trigger] table[i]).id == id;
            assert(grown[i] == table[i]);
            lemma_row_at(table, i);
            lemma_row_at(grown, i);
        } else if holds(grown, id) {
            let i = choose|i: int| 0 <= i < grown.len() && (#[trigger] grown[i]).id == id;
            assert(i < table.len());
            assert(grown[i] == table[i]);
        }
    }
}

/// What a removal leaves: nothing under the removed number, and every other
/// number as it was.
pub proof fn lemma_removed(table: Seq<Row>, removed: i64, id: i64)
    requires
        distinct_ids(table),
    ensures
        distinct_ids(without(table, removed)),
        text_of(without(table, removed), id) == if id == removed {
            None
        } else {
            text_of(table, id)
        },
{
    let pred = |row: Row| row.id != removed;
    let rest = without(table, removed);
    lemma_filter_keeps_distinct(table, pred);
    lemma_found(table, id);
    lemma_found(rest, id);
    if holds(rest, id) {
        let k = choose|k: int| 0 <= k < rest.len() && (#[trigger] rest[k]).id == id;
        table.lemma_filter_pred(pred, k);
        assert(rest.contains(rest[k]));
        table.lemma_filter_contains_rev(pred, rest[k]);
        let i = choose|i: int| 0 <= i < table.len() && table[i] == rest[k];
        lemma_row_at(table, i);
        lemma_row_at(rest, k);
    } else if id != removed && holds(table, id) {
        let i = choose|i: int| 0 <= i < table.len() && (#[trigger] table[i]).id == id;
        table.lemma_filter_contains(pred, i);
        let k = choose|k: int| 0 <= k < rest.len() && rest[k] == table[i];
        assert(rest[k].id == id);
    }
}

/// What an update leaves: the new text under the updated number if the table
/// holds it, and every other number as it was.
pub proof fn lemma_overwritten(table: Seq<Row>, updated: i64, task: Seq<char>, id: i64)
    requires
        distinct_ids(table),
    ensures
        distinct_ids(overwritten(table, updated, task)),
        text_of(overwritten(table, updated, task), id) == if id == updated && holds(table, id) {
            Some(task)
        } else {
            text_of(table, id)
        },
{
    let changed = overwritten(table, updated, task);
    assert forall|i: int| 0 <= i < table.len() implies (#[trigger] changed[i]).id
        == table[i].id by {}
    assert forall|i: int, j: int| 0 <= i < j < changed.len() implies (#[trigger] changed[i]).id != (
    #[trigger] changed[j]).id by {
        assert(changed[i].id == table[i].id && changed[j].id == table[j].id);
    }
    lemma_found(table, id);
    lemma_found(changed, id);
    if holds(table, id) {
        let i = choose|i: int| 0 <= i < table.len() && (#[trigger] table[i]).id == id;
        assert(changed[i].id == id);
        lemma_row_at(table, i);
        lemma_row_at(changed, i);
    } else if holds(changed, id) {
        let i = choose|i: int| 0 <= i < changed.len() && (#[trigger] changed[i]).id == id;
        assert(table[i].id == id);
    }
}

/// A removal leaves no row under the removed number.
pub proof fn lemma_removed_lacks(table: Seq<Row>, removed: i64)
    ensures
        !holds(without(table, removed), removed),
{
    let pred = |row: Row| row.id != removed;
    let rest = without(table, removed);
    if holds(rest, removed) {
        let k = choose|k: int| 0 <= k < rest.len() && (#[trigger] rest[k]).id == removed;
        table.lemma_filter_pred(pred, k);
    }
}

/// Where no two rows share a number, the listing shows a task exactly when
/// its text is the one stored under its number.
pub proof fn lemma_listed(table: Seq<Row>, id: i64, text: Seq<char>)
    requires
        distinct_ids(table),
    ensures
        listed(table).contains(TaskView { id: Some(id), task: text }) <==> text_of(table, id)
            == Some(text),
{
    let shown = TaskView { id: Some(id), task: text };
    let list = listed(table);
    if list.contains(shown) {
        let i = choose|i: int| 0 <= i < list.len() && list[i] == shown;
        assert(table[i].id == id && table[i].task == text);
        lemma_row_at(table, i);
    }
    if text_of(table, id) == Some(text) {
        lemma_found(table, id);
        let i = choose|i: int| 0 <= i < table.len() && (#[trigger] table[i]).id == id;
        lemma_row_at(table, i);
        assert(list[i] == shown);
    }
}

/// A removal under a number that the table does not hold leaves every row.
pub proof fn lemma_removed_nothing(table: Seq<Row>, removed: i64)
    requires
        !holds(table, removed),
    ensures
        without(table, removed) == table,
    decreases table.len(),
{
    reveal(Seq::filter);
    if table.len() > 0 {
        let rest = table.drop_last();
        assert(table[table.len() - 1].id != removed);
        assert forall|i: int| 0 <= i < rest.len() implies (#[trigger] rest[i]).id != removed by {
            assert(rest[i] == table[i]);
        }
        lemma_removed_nothing(rest, removed);
        assert(rest.push(table.last()) =~= table);
    }
}

/// Where no two rows share a number, a removal under a number that the table
/// holds takes exactly one row away.
pub proof fn lemma_removed_one(table: Seq<Row>, removed: i64)
    requires
        distinct_ids(table),
        holds(table, removed),
    ensures
        without(table, removed).len() == table.len() - 1,
    decreases table.len(),
{
    reveal(Seq::filter);
    let i = choose|i: int| 0 <= i < table.len() && (#[trigger] table[i]).id == removed;
    let rest = table.drop_last();
    let last = table.last();
    assert forall|a: int, b: int| 0 <= a < b < rest.len() implies (#[trigger] rest[a]).id != (
    #[trigger] rest[b]).id by {
        assert(rest[a] == table[a] && rest[b] == table[b]);
    }
    if last.id == removed {
        assert forall|a: int| 0 <= a < rest.len() implies (#[trigger] rest[a]).id != removed by {
            assert(rest[a] == table[a]);
            assert(table[table.len() - 1] == last);
        }
        lemma_removed_nothing(rest, removed);
    } else {
        assert(i < rest.len());
        assert(rest[i] == table[i]);
        lemma_removed_one(rest, removed);
    }
}

} // verus!
