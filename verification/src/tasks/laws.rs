//! What holds of the service as a whole: the handlers, run against a table
//! that works.

use vstd::prelude::*;
use crate::errors::ApiError;
use crate::response::{removal, BodyView, ResponseView};
use crate::tasks::controller::{
    all_tasks_step, creatable, delete_task_step, new_task_step, refusal, resumed, task_reply,
    task_step, updatable, update_task_step, PendingView, StepView,
};
use crate::tasks::model::TaskView;
use crate::tasks::store::{OutcomeView, QueryView};
use crate::tasks::table::{
    answer, distinct_ids, holds, lemma_found, lemma_inserted, lemma_listed, lemma_overwritten,
    lemma_removed, lemma_removed_lacks, lemma_removed_one, lemma_row_at, listed, overwritten,
    text_of, without, Row,
};

verus! {

/// How many statements a handler may still ask for, this step included.
pub open spec fn statements_left(step: StepView) -> nat {
    match step {
        StepView::Reply(_) => 0,
        StepView::Ask { pending, .. } => match pending {
            PendingView::UpdateFind { .. } => 2,
            PendingView::DeleteFind { .. } => 2,
            _ => 1,
        },
    }
}

/// A handler's result, and the table that it left.
pub struct Served {
    pub result: Result<ResponseView, ApiError>,
    pub table: Seq<Row>,
}

/// A handler run to its end from `step`, each of its statements carried out on
/// a table that works. `fresh` is the number that the table gives to a new
/// row.
pub open spec fn served(table: Seq<Row>, step: StepView, fresh: i64) -> Served
    decreases statements_left(step),
{
    match step {
        StepView::Reply(result) => Served { result, table },
        StepView::Ask { query, pending } => {
            let back = answer(table, query, fresh);
            served(back.table, resumed(pending, back.outcome), fresh)
        },
    }
}

/// The task that one request creates, the next request reads: for every text
/// that is not empty, creating gives back the text under the number that the
/// table chose, and reading that number then gives the same task.
pub proof fn law_created_task_is_read(table: Seq<Row>, text: Seq<char>, fresh: i64, later: i64)
    requires
        distinct_ids(table),
        !holds(table, fresh),
        text.len() > 0,
    ensures
        ({
            let made = served(table, new_task_step(TaskView { id: None, task: text }), fresh);
            let read = served(made.table, task_step(fresh), later);
            &&& StepView::Reply(made.result) == task_reply(201, fresh, text)
            &&& made.table == table.push(Row { id: fresh, task: text })
            &&& StepView::Reply(read.result) == task_reply(200, fresh, text)
            &&& read.table == made.table
        }),
{
    reveal_with_fuel(served, 3);
    let row = Row { id: fresh, task: text };
    let grown = table.push(row);
    lemma_inserted(table, row, fresh);
    assert(grown[table.len() as int] == row);
    lemma_row_at(grown, table.len() as int);
}

/// A create that is refused, because the input carries a number or its text
/// is empty, fails as a bad request and leaves the table as it was.
pub proof fn law_refused_create_changes_nothing(table: Seq<Row>, task: TaskView, fresh: i64)
    requires
        task.id is Some || task.task.len() == 0,
    ensures
        new_task_step(task) == refusal(ApiError::BadRequest),
        served(table, new_task_step(task), fresh) == (Served {
            result: Err(ApiError::BadRequest),
            table,
        }),
{
    reveal_with_fuel(served, 3);
}

/// Reading, updating and deleting under a number that the table does not hold
/// all fail as not found, and leave the table as it was.
///
/// For an update this is said of the bodies that are not refused: one that
/// names another number than the path, or has an empty text, fails as a bad
/// request before the table is asked.
pub proof fn law_missing_task_is_not_found(table: Seq<Row>, id: i64, task: TaskView, fresh: i64)
    requires
        !holds(table, id),
    ensures
        served(table, task_step(id), fresh) == (Served { result: Err(ApiError::NotFound), table }),
        updatable(task, id) ==> served(table, update_task_step(id, task), fresh) == (Served {
            result: Err(ApiError::NotFound),
            table,
        }),
        served(table, delete_task_step(id), fresh) == (Served {
            result: Err(ApiError::NotFound),
            table,
        }),
{
    reveal_with_fuel(served, 3);
    lemma_found(table, id);
}

/// An update whose body names another number than the path, or whose text is
/// empty, fails as a bad request at once: no statement is asked for, so the
/// table is as it was, and no empty text is ever stored by an update.
pub proof fn law_refused_update_changes_nothing(
    table: Seq<Row>,
    id: i64,
    task: TaskView,
    fresh: i64,
)
    requires
        (task.id is Some && task.id != Some(id)) || task.task.len() == 0,
    ensures
        update_task_step(id, task) == refusal(ApiError::BadRequest),
        served(table, update_task_step(id, task), fresh) == (Served {
            result: Err(ApiError::BadRequest),
            table,
        }),
{
    reveal_with_fuel(served, 3);
}

/// Deleting succeeds exactly when the table holds the number, and then
/// acknowledges with a message.
pub proof fn law_delete_removes_held_task(table: Seq<Row>, id: i64, fresh: i64)
    ensures
        ({
            let gone = served(table, delete_task_step(id), fresh);
            &&& gone.result is Ok <==> holds(table, id)
            &&& holds(table, id) ==> gone.result == Ok::<ResponseView, ApiError>(removal())
            &&& holds(table, id) ==> gone.table == without(table, id)
        }),
{
    reveal_with_fuel(served, 3);
    lemma_found(table, id);
}

/// Once a delete has succeeded, the task is gone: reading, updating and
/// deleting under its number fail as not found.
pub proof fn law_deleted_task_is_gone(table: Seq<Row>, id: i64, task: TaskView, fresh: i64)
    requires
        served(table, delete_task_step(id), fresh).result is Ok,
    ensures
        ({
            let gone = served(table, delete_task_step(id), fresh);
            &&& !holds(gone.table, id)
            &&& served(gone.table, task_step(id), fresh).result == Err::<ResponseView, ApiError>(
                ApiError::NotFound,
            )
            &&& updatable(task, id) ==> served(
                gone.table,
                update_task_step(id, task),
                fresh,
            ).result == Err::<ResponseView, ApiError>(ApiError::NotFound)
            &&& served(gone.table, delete_task_step(id), fresh).result == Err::<
                ResponseView,
                ApiError,
            >(ApiError::NotFound)
        }),
{
    reveal_with_fuel(served, 3);
    law_delete_removes_held_task(table, id, fresh);
    lemma_removed_lacks(table, id);
    law_missing_task_is_not_found(without(table, id), id, task, fresh);
}

/// An update of a task that the table holds answers with the new text under
/// the path's number, and reading the number then gives that text.
pub proof fn law_updated_task_is_read(table: Seq<Row>, id: i64, task: TaskView, fresh: i64)
    requires
        distinct_ids(table),
        holds(table, id),
        updatable(task, id),
    ensures
        ({
            let written = served(table, update_task_step(id, task), fresh);
            &&& StepView::Reply(written.result) == task_reply(200, id, task.task)
            &&& written.table == overwritten(table, id, task.task)
            &&& StepView::Reply(served(written.table, task_step(id), fresh).result) == task_reply(
                200,
                id,
                task.task,
            )
        }),
{
    reveal_with_fuel(served, 3);
    lemma_found(table, id);
    let changed = overwritten(table, id, task.task);
    lemma_overwritten(table, id, task.task, id);
    lemma_found(changed, id);
    let i = choose|i: int| 0 <= i < table.len() && (#[trigger] table[i]).id == id;
    assert(changed[i] == Row { id, task: task.task });
    lemma_row_at(changed, i);
}

/// Listing and reading leave the table as it was, and listing gives every
/// task of the table, in the table's order.
pub proof fn law_reads_change_nothing(table: Seq<Row>, id: i64, fresh: i64)
    ensures
        served(table, all_tasks_step(), fresh) == (Served {
            result: Ok(ResponseView { status: 200, body: BodyView::Tasks(listed(table)) }),
            table,
        }),
        served(table, task_step(id), fresh).table == table,
{
    reveal_with_fuel(served, 3);
}

/// A request to the service, as the handlers receive it.
#[allow(inconsistent_fields)]
pub enum Request {
    AllTasks,
    Task { id: i64 },
    NewTask { task: TaskView },
    UpdateTask { id: i64, task: TaskView },
    DeleteTask { id: i64 },
}

/// The first step of the handler that a request goes to.
pub open spec fn first_step(request: Request) -> StepView {
    match request {
        Request::AllTasks => all_tasks_step(),
        Request::Task { id } => task_step(id),
        Request::NewTask { task } => new_task_step(task),
        Request::UpdateTask { id, task } => update_task_step(id, task),
        Request::DeleteTask { id } => delete_task_step(id),
    }
}

/// A request, and the number that the table would give to a new row while it
/// is served.
pub struct Call {
    pub request: Request,
    pub fresh: i64,
}

/// The table after the calls have been served one after the other.
pub open spec fn after(table: Seq<Row>, calls: Seq<Call>) -> Seq<Row>
    decreases calls.len(),
{
    if calls.len() == 0 {
        table
    } else {
        let call = calls.last();
        served(after(table, calls.drop_last()), first_step(call.request), call.fresh).table
    }
}

/// Whether a call inserts a row.
pub open spec fn creates(call: Call) -> bool {
    call.request matches Request::NewTask { task } && creatable(task)
}

/// Every row that the calls insert comes under a number that the table does
/// not hold at that moment.
pub open spec fn numbers_fresh(table: Seq<Row>, calls: Seq<Call>) -> bool
    decreases calls.len(),
{
    calls.len() > 0 ==> {
        &&& numbers_fresh(table, calls.drop_last())
        &&& creates(calls.last()) ==> !holds(after(table, calls.drop_last()), calls.last().fresh)
    }
}

/// What one call makes of the text under `id`: a create that goes through
/// puts its text under the new number, an update that is not refused replaces
/// the text of a task that is there, a delete takes it away, and nothing else
/// touches it.
pub open spec fn effect(before: Option<Seq<char>>, call: Call, id: i64) -> Option<Seq<char>> {
    match call.request {
        Request::NewTask { task } => if creatable(task) && call.fresh == id {
            Some(task.task)
        } else {
            before
        },
        Request::UpdateTask { id: updated, task } => if updated == id && updatable(
            task,
            updated,
        ) && before is Some {
            Some(task.task)
        } else {
            before
        },
        Request::DeleteTask { id: removed } => if removed == id {
            None
        } else {
            before
        },
        _ => before,
    }
}

/// The text that the calls have left under `id`, where `before` was there at
/// the start: that of the last create or update of the task, unless a delete
/// came after it.
pub open spec fn current(before: Option<Seq<char>>, calls: Seq<Call>, id: i64) -> Option<
    Seq<char>,
>
    decreases calls.len(),
{
    if calls.len() == 0 {
        before
    } else {
        effect(current(before, calls.drop_last(), id), calls.last(), id)
    }
}

/// Serving one call keeps the numbers distinct, and does to the text under
/// each number what `effect` says.
pub proof fn law_call_effect(table: Seq<Row>, call: Call, id: i64)
    requires
        distinct_ids(table),
        creates(call) ==> !holds(table, call.fresh),
    ensures
        ({
            let next = served(table, first_step(call.request), call.fresh).table;
            &&& distinct_ids(next)
            &&& text_of(next, id) == effect(text_of(table, id), call, id)
        }),
{
    reveal_with_fuel(served, 3);
    lemma_found(table, id);
    match call.request {
        Request::NewTask { task } => {
            if creatable(task) {
                lemma_inserted(table, Row { id: call.fresh, task: task.task }, id);
            }
        },
        Request::UpdateTask { id: updated, task } => {
            lemma_found(table, updated);
            if updatable(task, updated) && holds(table, updated) {
                lemma_overwritten(table, updated, task.task, id);
            }
        },
        Request::DeleteTask { id: removed } => {
            lemma_found(table, removed);
            if holds(table, removed) {
                lemma_removed(table, removed, id);
            }
        },
        _ => {},
    }
}

/// Serving any run of calls keeps the numbers distinct, and leaves under each
/// number the text that `current` says.
pub proof fn law_calls_effect(table: Seq<Row>, calls: Seq<Call>, id: i64)
    requires
        distinct_ids(table),
        numbers_fresh(table, calls),
    ensures
        distinct_ids(after(table, calls)),
        text_of(after(table, calls), id) == current(text_of(table, id), calls, id),
    decreases calls.len(),
{
    if calls.len() > 0 {
        law_calls_effect(table, calls.drop_last(), id);
        law_call_effect(after(table, calls.drop_last()), calls.last(), id);
    }
}

/// Listing shows every task that was created and not deleted since, with the
/// text that was last written to it, and no other: after any run of calls on
/// a table that was empty, a task is in the listing exactly when the calls
/// have left its text under its number.
pub proof fn law_list_shows_live_tasks(calls: Seq<Call>, id: i64, text: Seq<char>, fresh: i64)
    requires
        numbers_fresh(Seq::empty(), calls),
    ensures
        ({
            let table = after(Seq::empty(), calls);
            let list = listed(table);
            &&& distinct_ids(table)
            &&& served(table, all_tasks_step(), fresh).result == Ok::<ResponseView, ApiError>(
                ResponseView { status: 200, body: BodyView::Tasks(list) },
            )
            &&& list.contains(TaskView { id: Some(id), task: text }) <==> current(None, calls, id)
                == Some(text)
        }),
{
    reveal_with_fuel(served, 3);
    let empty = Seq::<Row>::empty();
    lemma_found(empty, id);
    law_calls_effect(empty, calls, id);
    lemma_listed(after(empty, calls), id, text);
}

/// No handler asks for more than two statements: listing, reading and
/// creating ask for one, updating and deleting for a lookup and then, at most,
/// for the statement that writes.
pub proof fn law_handlers_finish(request: Request, pending: PendingView, outcome: OutcomeView)
    ensures
        statements_left(first_step(request)) <= 2,
        !(request is UpdateTask || request is DeleteTask) ==> statements_left(first_step(request))
            <= 1,
        statements_left(resumed(pending, outcome)) < statements_left(
            StepView::Ask { query: QueryView::SelectAll, pending },
        ),
{
}

/// A row is updated or removed only after a lookup has found it: a handler
/// that is taken up again asks for nothing but the update or the removal of
/// the number that it looked up, and only when the lookup brought a row back.
/// No handler begins with either statement.
pub proof fn law_writes_follow_a_lookup(request: Request, pending: PendingView, outcome: OutcomeView)
    ensures
        first_step(request) matches StepView::Ask { query, .. } ==> !(query is Update || query
            is Delete),
        resumed(pending, outcome) matches StepView::Ask { query, .. } ==> {
            &&& outcome is Row
            &&& pending matches PendingView::UpdateFind { id, task } ==> query
                == QueryView::Update { id, task }
            &&& pending matches PendingView::DeleteFind { id } ==> query == QueryView::Delete { id }
            &&& pending is UpdateFind || pending is DeleteFind
        },
{
}

/// No empty text is ever stored: whatever calls are served on a table that
/// was empty, the text that they leave under a number is not empty.
pub proof fn law_stored_text_is_not_empty(calls: Seq<Call>, id: i64)
    requires
        numbers_fresh(Seq::empty(), calls),
    ensures
        text_of(after(Seq::empty(), calls), id) matches Some(text) ==> text.len() > 0,
{
    let empty = Seq::<Row>::empty();
    lemma_found(empty, id);
    law_calls_effect(empty, calls, id);
    lemma_current_is_not_empty(calls, id);
}

/// The text that calls leave under a number, where none was there at the
/// start, is not empty.
pub proof fn lemma_current_is_not_empty(calls: Seq<Call>, id: i64)
    ensures
        current(None, calls, id) matches Some(text) ==> text.len() > 0,
    decreases calls.len(),
{
    if calls.len() > 0 {
        lemma_current_is_not_empty(calls.drop_last(), id);
    }
}

/// Whether a call, served on `table`, removes a row: it is a delete, and it
/// succeeds.
pub open spec fn removes(table: Seq<Row>, call: Call) -> bool {
    call.request is DeleteTask && served(table, first_step(call.request), call.fresh).result is Ok
}

/// How many of the calls insert a row.
pub open spec fn created_count(calls: Seq<Call>) -> nat
    decreases calls.len(),
{
    if calls.len() == 0 {
        0
    } else {
        created_count(calls.drop_last()) + if creates(calls.last()) {
            1nat
        } else {
            0nat
        }
    }
}

/// How many of the calls, served one after the other from `table`, remove a
/// row.
pub open spec fn removed_count(table: Seq<Row>, calls: Seq<Call>) -> nat
    decreases calls.len(),
{
    if calls.len() == 0 {
        0
    } else {
        removed_count(table, calls.drop_last()) + if removes(
            after(table, calls.drop_last()),
            calls.last(),
        ) {
            1nat
        } else {
            0nat
        }
    }
}

/// Serving one call changes the number of rows by one at most: a create that
/// goes through adds a row, a delete that succeeds takes one away, and
/// nothing else changes the count.
pub proof fn law_call_count(table: Seq<Row>, call: Call)
    requires
        distinct_ids(table),
    ensures
        ({
            let next = served(table, first_step(call.request), call.fresh).table;
            next.len() + (if removes(table, call) {
                1nat
            } else {
                0nat
            }) == table.len() + (if creates(call) {
                1nat
            } else {
                0nat
            })
        }),
{
    reveal_with_fuel(served, 3);
    match call.request {
        Request::UpdateTask { id, task } => {
            lemma_found(table, id);
        },
        Request::DeleteTask { id } => {
            lemma_found(table, id);
            if holds(table, id) {
                lemma_removed_one(table, id);
            }
        },
        _ => {},
    }
}

/// After any run of calls, the table has as many rows as it had, and as were
/// created, less those that were removed.
pub proof fn law_calls_count(table: Seq<Row>, calls: Seq<Call>)
    requires
        distinct_ids(table),
        numbers_fresh(table, calls),
    ensures
        after(table, calls).len() + removed_count(table, calls) == table.len() + created_count(
            calls,
        ),
    decreases calls.len(),
{
    if calls.len() > 0 {
        let before = calls.drop_last();
        law_calls_count(table, before);
        law_calls_effect(table, before, 0);
        law_call_count(after(table, before), calls.last());
    }
}

/// The listing is as long as the count says: after any run of calls on a
/// table that was empty, it shows as many tasks as creates went through, less
/// the deletes that succeeded.
pub proof fn law_list_length(calls: Seq<Call>, fresh: i64)
    requires
        numbers_fresh(Seq::empty(), calls),
    ensures
        ({
            let table = after(Seq::empty(), calls);
            &&& served(table, all_tasks_step(), fresh).result == Ok::<ResponseView, ApiError>(
                ResponseView { status: 200, body: BodyView::Tasks(listed(table)) },
            )
            &&& listed(table).len() == created_count(calls) - removed_count(Seq::empty(), calls)
        }),
{
    reveal_with_fuel(served, 3);
    law_calls_count(Seq::empty(), calls);
}

/// Where a number was asked to be deleted, and no later create came under it,
/// the calls leave nothing under it.
pub proof fn lemma_current_after_delete(calls: Seq<Call>, k: int, id: i64)
    requires
        0 <= k < calls.len(),
        calls[k].request == (Request::DeleteTask { id }),
        forall|j: int| k < j < calls.len() ==> !(creates(#[trigger] calls[j]) && calls[j].fresh == id),
    ensures
        current(None, calls, id) is None,
    decreases calls.len(),
{
    if k < calls.len() - 1 {
        let before = calls.drop_last();
        assert(before[k] == calls[k]);
        assert forall|j: int| k < j < before.len() implies !(creates(#[trigger] before[j])
            && before[j].fresh == id) by {
            assert(before[j] == calls[j]);
        }
        lemma_current_after_delete(before, k, id);
        assert(calls.last() == calls[calls.len() - 1]);
    } else {
        assert(calls.last() == calls[k]);
    }
}

/// A deleted task stays out of the listing: once a delete of a number has
/// been served, no task is listed under it, unless a later create was given
/// the same number again.
pub proof fn law_deleted_stays_out(calls: Seq<Call>, k: int, id: i64, text: Seq<char>)
    requires
        numbers_fresh(Seq::empty(), calls),
        0 <= k < calls.len(),
        calls[k].request == (Request::DeleteTask { id }),
        forall|j: int| k < j < calls.len() ==> !(creates(#[trigger] calls[j]) && calls[j].fresh == id),
    ensures
        !holds(after(Seq::empty(), calls), id),
        !listed(after(Seq::empty(), calls)).contains(TaskView { id: Some(id), task: text }),
{
    let empty = Seq::<Row>::empty();
    lemma_found(empty, id);
    law_calls_effect(empty, calls, id);
    lemma_current_after_delete(calls, k, id);
    lemma_found(after(empty, calls), id);
    lemma_listed(after(empty, calls), id, text);
}

/// Whatever the calls leave under a number, where nothing was there at the
/// start, one of them created.
pub proof fn lemma_current_was_created(calls: Seq<Call>, id: i64)
    requires
        current(None, calls, id) is Some,
    ensures
        exists|k: int| 0 <= k < calls.len() && creates(#[trigger] calls[k]) && calls[k].fresh == id,
    decreases calls.len(),
{
    if calls.len() > 0 {
        let last = calls.len() - 1;
        assert(calls.last() == calls[last]);
        if creates(calls[last]) && calls[last].fresh == id {
        } else {
            let before = calls.drop_last();
            lemma_current_was_created(before, id);
            let k = choose|k: int|
                0 <= k < before.len() && creates(#[trigger] before[k]) && before[k].fresh == id;
            assert(before[k] == calls[k]);
        }
    }
}

/// Every listed task was created: after any run of calls on a table that was
/// empty, each number in the table is one that a create of the run was given.
pub proof fn law_listed_was_created(calls: Seq<Call>, id: i64)
    requires
        numbers_fresh(Seq::empty(), calls),
        holds(after(Seq::empty(), calls), id),
    ensures
        exists|k: int| 0 <= k < calls.len() && creates(#[trigger] calls[k]) && calls[k].fresh == id,
{
    let empty = Seq::<Row>::empty();
    lemma_found(empty, id);
    law_calls_effect(empty, calls, id);
    lemma_found(after(empty, calls), id);
    lemma_current_was_created(calls, id);
}

} // verus!
