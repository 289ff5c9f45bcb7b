//! The routes of the service: which method and path lead to which handler.

use vstd::prelude::*;

verus! {

/// The HTTP methods that the service answers to.
#[derive(Clone, Copy, Debug, PartialEq, Eq, Structural)]
pub enum Method {
    Get,
    Post,
    Put,
    Delete,
}

/// The places that a request can be routed to.
#[derive(Clone, Copy, Debug, PartialEq, Eq, Structural)]
pub enum Endpoint {
    /// The root, which only points on to the list of tasks.
    Root,
    AllTasks,
    NewTask,
    Task,
    UpdateTask,
    DeleteTask,
}

impl Endpoint {
    /// The method under which the endpoint is reached.
    pub open spec fn spec_method(self) -> Method {
        match self {
            Endpoint::Root => Method::Get,
            Endpoint::AllTasks => Method::Get,
            Endpoint::NewTask => Method::Post,
            Endpoint::Task => Method::Get,
            Endpoint::UpdateTask => Method::Put,
            Endpoint::DeleteTask => Method::Delete,
        }
    }

    /// The path pattern under which the endpoint is reached. `:id` stands for
    /// the number of a task.
    pub open spec fn spec_path(self) -> Seq<char> {
        match self {
            Endpoint::Root => "/"@,
            Endpoint::AllTasks => "/tasks"@,
            Endpoint::NewTask => "/tasks"@,
            Endpoint::Task => "/tasks/:id"@,
            Endpoint::UpdateTask => "/tasks/:id"@,
            Endpoint::DeleteTask => "/tasks/:id"@,
        }
    }

    #[verifier::when_used_as_spec(spec_method)]
    pub fn method(self) -> (method: Method)
        ensures
            method == self.spec_method(),
    {
        match self {
            Endpoint::Root => Method::Get,
            Endpoint::AllTasks => Method::Get,
            Endpoint::NewTask => Method::Post,
            Endpoint::Task => Method::Get,
            Endpoint::UpdateTask => Method::Put,
            Endpoint::DeleteTask => Method::Delete,
        }
    }

    pub fn path(self) -> (path: &'static str)
        ensures
            path@ == self.spec_path(),
    {
        match self {
            Endpoint::Root => "/",
            Endpoint::AllTasks => "/tasks",
            Endpoint::NewTask => "/tasks",
            Endpoint::Task => "/tasks/:id",
            Endpoint::UpdateTask => "/tasks/:id",
            Endpoint::DeleteTask => "/tasks/:id",
        }
    }
}

/// A redirect: the status that announces it, and where it leads.
#[derive(Debug, PartialEq, Eq)]
pub struct Redirect {
    pub status: u16,
    pub location: String,
}

/// What a request for the root is answered with: a permanent redirect to the
/// list of tasks.
pub fn root() -> (redirect: Redirect)
    ensures
        redirect.status == 308,
        redirect.location@ == Endpoint::AllTasks.spec_path(),
{
    Redirect { status: 308, location: Endpoint::AllTasks.path().to_owned() }
}

/// No two endpoints answer to the same method under the same path.
pub proof fn law_routes_are_distinct(a: Endpoint, b: Endpoint)
    requires
        a != b,
    ensures
        a.spec_method() != b.spec_method() || a.spec_path() != b.spec_path(),
{
    reveal_strlit("/");
    reveal_strlit("/tasks");
    reveal_strlit("/tasks/:id");
    assert("/"@.len() == 1);
    assert("/tasks"@.len() == 6);
    assert("/tasks/:id"@.len() == 10);
}

} // verus!
