//! The task record.

use vstd::prelude::*;

verus! {

/// A task: a line of text under a number.
///
/// The table gives a task its number when it stores it. A task that has not
/// been stored yet has none.
#[derive(Debug, PartialEq, Eq)]
pub struct Task {
    pub id: Option<i64>,
    pub task: String,
}

/// What a task is to the contracts: its number and the characters of its text.
pub struct TaskView {
    pub id: Option<i64>,
    pub task: Seq<char>,
}

impl View for Task {
    type V = TaskView;

    open spec fn view(&self) -> TaskView {
        TaskView { id: self.id, task: self.task@ }
    }
}

/// The views of a run of tasks, one for one.
pub open spec fn views(tasks: Seq<Task>) -> Seq<TaskView> {
    tasks.map_values(|t: Task| t@)
}

} // verus!
