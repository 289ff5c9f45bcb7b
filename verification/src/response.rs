//! What goes back to the caller, in plain values: a status and a body that is
//! still to be written out as JSON.

use vstd::prelude::*;
use crate::errors::ApiError;
use crate::tasks::model::{views, Task, TaskView};

verus! {

/// The body of a response, before it is written out.
#[derive(Debug, PartialEq, Eq)]
pub enum Body {
    /// A JSON array of tasks.
    Tasks(Vec<Task>),
    /// One task: `{"id": .., "task": ..}`.
    Task(Task),
    /// An object of one field, which holds a text: `{"<field>": "<text>"}`.
    Note { field: String, text: String },
}

pub enum BodyView {
    Tasks(Seq<TaskView>),
    Task(TaskView),
    Note { field: Seq<char>, text: Seq<char> },
}

impl View for Body {
    type V = BodyView;

    open spec fn view(&self) -> BodyView {
        match *self {
            Body::Tasks(tasks) => BodyView::Tasks(views(tasks@)),
            Body::Task(task) => BodyView::Task(task@),
            Body::Note { field, text } => BodyView::Note { field: field@, text: text@ },
        }
    }
}

/// A response: the HTTP status and the body.
#[derive(Debug, PartialEq, Eq)]
pub struct Response {
    pub status: u16,
    pub body: Body,
}

pub struct ResponseView {
    pub status: u16,
    pub body: BodyView,
}

impl View for Response {
    type V = ResponseView;

    open spec fn view(&self) -> ResponseView {
        ResponseView { status: self.status, body: self.body@ }
    }
}

/// The response that tells the caller of a failure: the failure's status, and
/// its fixed words under `error`.
pub open spec fn failure(error: ApiError) -> ResponseView {
    ResponseView {
        status: error.spec_status(),
        body: BodyView::Note { field: "error"@, text: error.spec_message() },
    }
}

/// The response that acknowledges a removal.
pub open spec fn removal() -> ResponseView {
    ResponseView { status: 200, body: BodyView::Note { field: "msg"@, text: "Task Deleted"@ } }
}

/// What the caller receives for the result of a handler: the response itself,
/// or the one that stands for the failure.
pub open spec fn delivered(result: Result<ResponseView, ApiError>) -> ResponseView {
    match result {
        Ok(response) => response,
        Err(error) => failure(error),
    }
}

/// The view of a handler's result.
pub open spec fn result_view(result: Result<Response, ApiError>) -> Result<ResponseView, ApiError> {
    match result {
        Ok(response) => Ok(response@),
        Err(error) => Err(error),
    }
}

impl ApiError {
    /// The response that tells the caller of this failure.
    pub fn into_response(self) -> (response: Response)
        ensures
            response@ == failure(self),
    {
        Response {
            status: self.status(),
            body: Body::Note { field: "error".to_owned(), text: self.message().to_owned() },
        }
    }
}

/// The response that the caller receives for the result of a handler.
pub fn respond(result: Result<Response, ApiError>) -> (response: Response)
    ensures
        response@ == delivered(result_view(result)),
{
    match result {
        Ok(response) => response,
        Err(error) => error.into_response(),
    }
}

} // verus!
