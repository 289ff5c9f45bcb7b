//! The statements that the handlers put to the table of tasks, the answers
//! that come back, and what a table that works does with each statement.

use vstd::prelude::*;
use crate::tasks::model::{views, Task, TaskView};

verus! {

/// A statement on the table of tasks, with the values bound to it.
#[derive(Debug, PartialEq, Eq)]
pub enum Query {
    /// Every row, in the table's own order.
    SelectAll,
    /// The row with this number.
    SelectById { id: i64 },
    /// A new row with this text. The table picks its number.
    Insert { task: String },
    /// This text in place of the text of the row with this number.
    Update { id: i64, task: String },
    /// The row with this number leaves the table.
    Delete { id: i64 },
}

pub enum QueryView {
    SelectAll,
    SelectById { id: i64 },
    Insert { task: Seq<char> },
    Update { id: i64, task: Seq<char> },
    Delete { id: i64 },
}

impl View for Query {
    type V = QueryView;

    open spec fn view(&self) -> QueryView {
        match *self {
            Query::SelectAll => QueryView::SelectAll,
            Query::SelectById { id } => QueryView::SelectById { id },
            Query::Insert { task } => QueryView::Insert { task: task@ },
            Query::Update { id, task } => QueryView::Update { id, task: task@ },
            Query::Delete { id } => QueryView::Delete { id },
        }
    }
}

impl QueryView {
    /// The statement's text. Each `?` stands for one of the statement's values,
    /// in the order in which the variant names them, the text before the number.
    pub open spec fn statement(self) -> Seq<char> {
        match self {
            QueryView::SelectAll => "SELECT * FROM tasks"@,
            QueryView::SelectById { .. } => "SELECT * FROM tasks WHERE id=?"@,
            QueryView::Insert { .. } => "INSERT INTO tasks (task) VALUES (?)"@,
            QueryView::Update { .. } => "UPDATE tasks SET task=? WHERE id=?"@,
            QueryView::Delete { .. } => "DELETE FROM tasks WHERE id=?"@,
        }
    }
}

impl Query {
    /// The statement's text, with a `?` for each bound value.
    pub fn statement(&self) -> (sql: &'static str)
        ensures
            sql@ == self@.statement(),
    {
        match self {
            Query::SelectAll => "SELECT * FROM tasks",
            Query::SelectById { .. } => "SELECT * FROM tasks WHERE id=?",
            Query::Insert { .. } => "INSERT INTO tasks (task) VALUES (?)",
            Query::Update { .. } => "UPDATE tasks SET task=? WHERE id=?",
            Query::Delete { .. } => "DELETE FROM tasks WHERE id=?",
        }
    }
}

/// What came back from the table for one statement.
#[derive(Debug, PartialEq, Eq)]
pub enum Outcome {
    /// The rows that a `SelectAll` found.
    Rows(Vec<Task>),
    /// The row that a `SelectById` found.
    Row(Task),
    /// An `Insert` went through, and this is the new row's number.
    Inserted { id: i64 },
    /// An `Update` or a `Delete` went through.
    Done,
    /// The statement failed. A `SelectById` that finds no row fails.
    Failed,
}

pub enum OutcomeView {
    Rows(Seq<TaskView>),
    Row(TaskView),
    Inserted { id: i64 },
    Done,
    Failed,
}

impl View for Outcome {
    type V = OutcomeView;

    open spec fn view(&self) -> OutcomeView {
        match *self {
            Outcome::Rows(rows) => OutcomeView::Rows(views(rows@)),
            Outcome::Row(row) => OutcomeView::Row(row@),
            Outcome::Inserted { id } => OutcomeView::Inserted { id },
            Outcome::Done => OutcomeView::Done,
            Outcome::Failed => OutcomeView::Failed,
        }
    }
}

} // verus!
