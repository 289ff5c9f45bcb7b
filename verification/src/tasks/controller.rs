//! The handlers of the five operations on tasks.
//!
//! A handler never touches the table. It looks at the request and either
//! answers at once or asks for one statement to be carried out. Whoever runs
//! the handler carries the statement out and hands what came back to
//! [`Pending::resume`], which answers or asks for the next statement. No
//! handler asks for more than two.

use vstd::prelude::*;
use crate::errors::ApiError;
use crate::response::{removal, result_view, Body, BodyView, Response, ResponseView};
use crate::tasks::model::{Task, TaskView};
use crate::tasks::store::{Outcome, OutcomeView, Query, QueryView};

verus! {

/// Where a handler stands while a statement of its own is being carried out.
#[derive(Debug, PartialEq, Eq)]
pub enum Pending {
    /// Listing: the rows are awaited.
    AllTasks,
    /// Reading one task: its row is awaited.
    Task,
    /// Creating: the new row's number is awaited.
    NewTask { task: String },
    /// Updating: it is being looked up whether the task is there.
    UpdateFind { id: i64, task: String },
    /// Updating: the new text is being written.
    UpdateWrite { id: i64, task: String },
    /// Deleting: it is being looked up whether the task is there.
    DeleteFind { id: i64 },
    /// Deleting: the row is being removed.
    DeleteWrite,
}

pub enum PendingView {
    AllTasks,
    Task,
    NewTask { task: Seq<char> },
    UpdateFind { id: i64, task: Seq<char> },
    UpdateWrite { id: i64, task: Seq<char> },
    DeleteFind { id: i64 },
    DeleteWrite,
}

impl View for Pending {
    type V = PendingView;

    open spec fn view(&self) -> PendingView {
        match *self {
            Pending::AllTasks => PendingView::AllTasks,
            Pending::Task => PendingView::Task,
            Pending::NewTask { task } => PendingView::NewTask { task: task@ },
            Pending::UpdateFind { id, task } => PendingView::UpdateFind { id, task: task@ },
            Pending::UpdateWrite { id, task } => PendingView::UpdateWrite { id, task: task@ },
            Pending::DeleteFind { id } => PendingView::DeleteFind { id },
            Pending::DeleteWrite => PendingView::DeleteWrite,
        }
    }
}

/// What a handler wants next.
#[derive(Debug, PartialEq, Eq)]
pub enum Step {
    /// This statement is to be carried out, and its outcome handed to
    /// `pending`.
    Ask { query: Query, pending: Pending },
    /// The handler is through, with this result.
    Reply(Result<Response, ApiError>),
}

pub enum StepView {
    Ask { query: QueryView, pending: PendingView },
    Reply(Result<ResponseView, ApiError>),
}

impl View for Step {
    type V = StepView;

    open spec fn view(&self) -> StepView {
        match *self {
            Step::Ask { query, pending } => StepView::Ask { query: query@, pending: pending@ },
            Step::Reply(result) => StepView::Reply(result_view(result)),
        }
    }
}

/// The answer that carries a task, under the given status.
pub open spec fn task_reply(status: u16, id: i64, task: Seq<char>) -> StepView {
    StepView::Reply(
        Ok(ResponseView { status, body: BodyView::Task(TaskView { id: Some(id), task }) }),
    )
}

/// The answer that reports a failure.
pub open spec fn refusal(error: ApiError) -> StepView {
    StepView::Reply(Err(error))
}

/// The first step of listing: every row is asked for.
pub open spec fn all_tasks_step() -> StepView {
    StepView::Ask { query: QueryView::SelectAll, pending: PendingView::AllTasks }
}

/// The first step of reading the task with the given number: its row is asked
/// for.
pub open spec fn task_step(id: i64) -> StepView {
    StepView::Ask { query: QueryView::SelectById { id }, pending: PendingView::Task }
}

/// Whether a task may be created from this input: it has no number yet, and
/// its text is not empty.
pub open spec fn creatable(task: TaskView) -> bool {
    task.id is None && task.task.len() > 0
}

/// The first step of creating: an input that already has a number, or has an
/// empty text, is refused; for any other, a row with its text is to be
/// inserted.
pub open spec fn new_task_step(task: TaskView) -> StepView {
    if creatable(task) {
        StepView::Ask {
            query: QueryView::Insert { task: task.task },
            pending: PendingView::NewTask { task: task.task },
        }
    } else {
        refusal(ApiError::BadRequest)
    }
}

/// Whether the body of an update agrees with the number in the path: it
/// carries no number, or the same one.
pub open spec fn addressed_to(task: TaskView, id: i64) -> bool {
    task.id is None || task.id == Some(id)
}

/// Whether the task under `id` may be given the text of this body: the body
/// agrees with the number in the path, and its text is not empty.
pub open spec fn updatable(task: TaskView, id: i64) -> bool {
    addressed_to(task, id) && task.task.len() > 0
}

/// The first step of updating: a body whose number differs from the path's,
/// or whose text is empty, is refused; for any other, the row is looked up
/// first.
pub open spec fn update_task_step(id: i64, task: TaskView) -> StepView {
    if updatable(task, id) {
        StepView::Ask {
            query: QueryView::SelectById { id },
            pending: PendingView::UpdateFind { id, task: task.task },
        }
    } else {
        refusal(ApiError::BadRequest)
    }
}

/// The first step of deleting: the row is looked up first.
pub open spec fn delete_task_step(id: i64) -> StepView {
    StepView::Ask { query: QueryView::SelectById { id }, pending: PendingView::DeleteFind { id } }
}

/// What a lookup says of a task: it is there when a row came back, and is
/// reported as not found on any other outcome, a failed statement included.
pub open spec fn found(outcome: OutcomeView) -> Result<(), ApiError> {
    if outcome is Row {
        Ok(())
    } else {
        Err(ApiError::NotFound)
    }
}

/// The step that follows when `outcome` comes back to a handler that stands at
/// `pending`.
///
/// Each place awaits one kind of outcome, and any other outcome counts as the
/// statement's failure. A listing or an insertion that fails is an internal
/// error. A lookup or a removal that fails is reported as not found: the
/// handlers do not tell a task that is missing from a table that cannot be
/// asked. There is one exception: once the new text of an update has been
/// handed to the table, the handler answers with the updated task whatever
/// came back.
pub open spec fn resumed(pending: PendingView, outcome: OutcomeView) -> StepView {
    match pending {
        PendingView::AllTasks => match outcome {
            OutcomeView::Rows(rows) => StepView::Reply(
                Ok(ResponseView { status: 200, body: BodyView::Tasks(rows) }),
            ),
            _ => refusal(ApiError::InternalServerError),
        },
        PendingView::Task => match outcome {
            OutcomeView::Row(row) => StepView::Reply(
                Ok(ResponseView { status: 200, body: BodyView::Task(row) }),
            ),
            _ => refusal(ApiError::NotFound),
        },
        PendingView::NewTask { task } => match outcome {
            OutcomeView::Inserted { id } => task_reply(201, id, task),
            _ => refusal(ApiError::InternalServerError),
        },
        PendingView::UpdateFind { id, task } => match found(outcome) {
            Ok(_) => StepView::Ask {
                query: QueryView::Update { id, task },
                pending: PendingView::UpdateWrite { id, task },
            },
            Err(error) => refusal(error),
        },
        PendingView::UpdateWrite { id, task } => task_reply(200, id, task),
        PendingView::DeleteFind { id } => match found(outcome) {
            Ok(_) => StepView::Ask {
                query: QueryView::Delete { id },
                pending: PendingView::DeleteWrite,
            },
            Err(error) => refusal(error),
        },
        PendingView::DeleteWrite => match outcome {
            OutcomeView::Done => StepView::Reply(Ok(removal())),
            _ => refusal(ApiError::NotFound),
        },
    }
}

/// Lists the tasks: asks for every row.
pub fn all_tasks() -> (step: Step)
    ensures
        step@ == all_tasks_step(),
{
    Step::Ask { query: Query::SelectAll, pending: Pending::AllTasks }
}

/// Reads the task with the given number: asks for its row.
pub fn task(id: i64) -> (step: Step)
    ensures
        step@ == task_step(id),
{
    Step::Ask { query: Query::SelectById { id }, pending: Pending::Task }
}

/// Creates a task from `task`.
///
/// An input that already carries a number is refused, whatever its text, and
/// so is one with an empty text: both before any statement is asked for. For
/// any other input a row with its text is to be inserted.
pub fn new_task(task: Task) -> (step: Step)
    ensures
        step@ == new_task_step(task@),
        task.id is Some ==> step@ == refusal(ApiError::BadRequest),
        task.task@.len() == 0 ==> step@ == refusal(ApiError::BadRequest),
        step@ is Ask <==> creatable(task@),
{
    if task.id.is_some() || task.task.as_str().is_empty() {
        return Step::Reply(Err(ApiError::BadRequest));
    }
    let text = task.task;
    Step::Ask { query: Query::Insert { task: text.clone() }, pending: Pending::NewTask { task: text } }
}

/// What a lookup says of a task: `Ok` when its row came back, `NotFound` on any
/// other outcome.
pub fn find_task(outcome: &Outcome) -> (result: Result<(), ApiError>)
    ensures
        result == found(outcome@),
{
    match outcome {
        Outcome::Row(_) => Ok(()),
        _ => Err(ApiError::NotFound),
    }
}

/// Gives the task under `id` the text of `task`.
///
/// A body that carries another number than `id` is refused, and so is one
/// with an empty text: both before any statement is asked for. For any other
/// body the row is looked up first; the text is written only once the row was
/// found.
pub fn update_task(id: i64, task: Task) -> (step: Step)
    ensures
        step@ == update_task_step(id, task@),
        task.id is Some && task.id != Some(id) ==> step@ == refusal(ApiError::BadRequest),
        task.task@.len() == 0 ==> step@ == refusal(ApiError::BadRequest),
        step@ is Ask <==> addressed_to(task@, id) && task.task@.len() > 0,
{
    if task.id.is_some() && task.id.unwrap() != id {
        return Step::Reply(Err(ApiError::BadRequest));
    }
    if task.task.as_str().is_empty() {
        return Step::Reply(Err(ApiError::BadRequest));
    }
    Step::Ask { query: Query::SelectById { id }, pending: Pending::UpdateFind { id, task: task.task } }
}

/// Deletes the task under `id`: its row is looked up first, and removed only
/// once it was found.
pub fn delete_task(id: i64) -> (step: Step)
    ensures
        step@ == delete_task_step(id),
{
    Step::Ask { query: Query::SelectById { id }, pending: Pending::DeleteFind { id } }
}

impl Pending {
    /// Takes up the handler again with what came back for its statement.
    pub fn resume(self, outcome: Outcome) -> (step: Step)
        ensures
            step@ == resumed(self@, outcome@),
    {
        match self {
            Pending::AllTasks => match outcome {
                Outcome::Rows(rows) => Step::Reply(
                    Ok(Response { status: 200, body: Body::Tasks(rows) }),
                ),
                _ => Step::Reply(Err(ApiError::InternalServerError)),
            },
            Pending::Task => match outcome {
                Outcome::Row(row) => Step::Reply(Ok(Response { status: 200, body: Body::Task(row) })),
                _ => Step::Reply(Err(ApiError::NotFound)),
            },
            Pending::NewTask { task } => match outcome {
                Outcome::Inserted { id } => Step::Reply(
                    Ok(Response { status: 201, body: Body::Task(Task { id: Some(id), task }) }),
                ),
                _ => Step::Reply(Err(ApiError::InternalServerError)),
            },
            Pending::UpdateFind { id, task } => match find_task(&outcome) {
                Ok(_) => Step::Ask {
                    query: Query::Update { id, task: task.clone() },
                    pending: Pending::UpdateWrite { id, task },
                },
                Err(error) => Step::Reply(Err(error)),
            },
            Pending::UpdateWrite { id, task } => Step::Reply(
                Ok(Response { status: 200, body: Body::Task(Task { id: Some(id), task }) }),
            ),
            Pending::DeleteFind { id } => match find_task(&outcome) {
                Ok(_) => Step::Ask { query: Query::Delete { id }, pending: Pending::DeleteWrite },
                Err(error) => Step::Reply(Err(error)),
            },
            Pending::DeleteWrite => match outcome {
                Outcome::Done => Step::Reply(
                    Ok(
                        Response {
                            status: 200,
                            body: Body::Note {
                                field: "msg".to_owned(),
                                text: "Task Deleted".to_owned(),
                            },
                        },
                    ),
                ),
                _ => Step::Reply(Err(ApiError::NotFound)),
            },
        }
    }
}

} // verus!
