use task_service::errors::ApiError;
use task_service::response::{Body, Response};
use task_service::tasks::controller::{
    all_tasks, delete_task, find_task, new_task, task, update_task, Pending, Step,
};
use task_service::tasks::model::Task;
use task_service::tasks::store::{Outcome, Query};

fn unsaved(text: &str) -> Task {
    Task { id: None, task: text.to_string() }
}

fn saved(id: i64, text: &str) -> Task {
    Task { id: Some(id), task: text.to_string() }
}

fn refused(error: ApiError) -> Step {
    Step::Reply(Err(error))
}

fn task_answer(status: u16, id: i64, text: &str) -> Step {
    Step::Reply(Ok(Response { status, body: Body::Task(saved(id, text)) }))
}

fn every_outcome() -> Vec<Outcome> {
    vec![
        Outcome::Rows(vec![saved(1, "a")]),
        Outcome::Rows(vec![]),
        Outcome::Row(saved(1, "a")),
        Outcome::Inserted { id: 4 },
        Outcome::Done,
        Outcome::Failed,
    ]
}

#[test]
fn all_tasks_asks_for_every_row() {
    assert_eq!(all_tasks(), Step::Ask { query: Query::SelectAll, pending: Pending::AllTasks });
}

#[test]
fn task_asks_for_the_row() {
    assert_eq!(
        task(12),
        Step::Ask { query: Query::SelectById { id: 12 }, pending: Pending::Task }
    );
    assert_eq!(
        task(3000000000),
        Step::Ask { query: Query::SelectById { id: 3000000000 }, pending: Pending::Task }
    );
    assert_eq!(
        task(i64::MIN),
        Step::Ask { query: Query::SelectById { id: i64::MIN }, pending: Pending::Task }
    );
    assert_eq!(
        task(i64::MAX),
        Step::Ask { query: Query::SelectById { id: i64::MAX }, pending: Pending::Task }
    );
}

#[test]
fn new_task_inserts_the_text() {
    assert_eq!(
        new_task(unsaved("buy milk")),
        Step::Ask {
            query: Query::Insert { task: "buy milk".to_string() },
            pending: Pending::NewTask { task: "buy milk".to_string() },
        }
    );
}

#[test]
fn new_task_with_a_number_is_a_bad_request() {
    assert_eq!(new_task(saved(1, "buy milk")), refused(ApiError::BadRequest));
    assert_eq!(new_task(saved(0, "")), refused(ApiError::BadRequest));
    assert_eq!(new_task(saved(-5, "x")), refused(ApiError::BadRequest));
}

#[test]
fn new_task_with_empty_text_is_a_bad_request() {
    assert_eq!(new_task(unsaved("")), refused(ApiError::BadRequest));
}

#[test]
fn new_task_takes_a_blank_text() {
    assert_eq!(
        new_task(unsaved(" ")),
        Step::Ask {
            query: Query::Insert { task: " ".to_string() },
            pending: Pending::NewTask { task: " ".to_string() },
        }
    );
}

#[test]
fn update_task_looks_the_row_up_first() {
    assert_eq!(
        update_task(1, saved(1, "buy bread")),
        Step::Ask {
            query: Query::SelectById { id: 1 },
            pending: Pending::UpdateFind { id: 1, task: "buy bread".to_string() },
        }
    );
    assert_eq!(
        update_task(1, unsaved("buy bread")),
        Step::Ask {
            query: Query::SelectById { id: 1 },
            pending: Pending::UpdateFind { id: 1, task: "buy bread".to_string() },
        }
    );
}

#[test]
fn update_task_with_empty_text_is_a_bad_request() {
    assert_eq!(update_task(1, unsaved("")), refused(ApiError::BadRequest));
    assert_eq!(update_task(1, saved(1, "")), refused(ApiError::BadRequest));
    assert_eq!(update_task(1, saved(2, "")), refused(ApiError::BadRequest));
}

#[test]
fn update_task_takes_a_blank_text() {
    assert_eq!(
        update_task(1, unsaved(" ")),
        Step::Ask {
            query: Query::SelectById { id: 1 },
            pending: Pending::UpdateFind { id: 1, task: " ".to_string() },
        }
    );
}

#[test]
fn update_task_with_another_number_is_a_bad_request() {
    assert_eq!(update_task(1, saved(2, "buy bread")), refused(ApiError::BadRequest));
    assert_eq!(update_task(-1, saved(1, "")), refused(ApiError::BadRequest));
}

#[test]
fn delete_task_looks_the_row_up_first() {
    assert_eq!(
        delete_task(7),
        Step::Ask { query: Query::SelectById { id: 7 }, pending: Pending::DeleteFind { id: 7 } }
    );
}

#[test]
fn find_task_wants_a_row() {
    assert_eq!(find_task(&Outcome::Row(saved(1, "a"))), Ok(()));
    assert_eq!(find_task(&Outcome::Failed), Err(ApiError::NotFound));
    assert_eq!(find_task(&Outcome::Done), Err(ApiError::NotFound));
    assert_eq!(find_task(&Outcome::Inserted { id: 1 }), Err(ApiError::NotFound));
    assert_eq!(find_task(&Outcome::Rows(vec![saved(1, "a")])), Err(ApiError::NotFound));
}

#[test]
fn listing_answers_with_the_rows() {
    let rows = vec![saved(1, "a"), saved(2, "b")];
    assert_eq!(
        Pending::AllTasks.resume(Outcome::Rows(rows)),
        Step::Reply(Ok(Response {
            status: 200,
            body: Body::Tasks(vec![saved(1, "a"), saved(2, "b")]),
        }))
    );
    assert_eq!(
        Pending::AllTasks.resume(Outcome::Rows(vec![])),
        Step::Reply(Ok(Response { status: 200, body: Body::Tasks(vec![]) }))
    );
}

#[test]
fn listing_fails_as_an_internal_error() {
    for outcome in every_outcome() {
        if matches!(outcome, Outcome::Rows(_)) {
            continue;
        }
        assert_eq!(Pending::AllTasks.resume(outcome), refused(ApiError::InternalServerError));
    }
}

#[test]
fn reading_answers_with_the_row() {
    assert_eq!(Pending::Task.resume(Outcome::Row(saved(5, "e"))), task_answer(200, 5, "e"));
}

#[test]
fn reading_fails_as_not_found() {
    for outcome in every_outcome() {
        if matches!(outcome, Outcome::Row(_)) {
            continue;
        }
        assert_eq!(Pending::Task.resume(outcome), refused(ApiError::NotFound));
    }
}

#[test]
fn creating_answers_with_the_new_number() {
    let pending = Pending::NewTask { task: "buy milk".to_string() };
    assert_eq!(pending.resume(Outcome::Inserted { id: 1 }), task_answer(201, 1, "buy milk"));
}

#[test]
fn creating_fails_as_an_internal_error() {
    for outcome in every_outcome() {
        if matches!(outcome, Outcome::Inserted { .. }) {
            continue;
        }
        let pending = Pending::NewTask { task: "buy milk".to_string() };
        assert_eq!(pending.resume(outcome), refused(ApiError::InternalServerError));
    }
}

#[test]
fn updating_writes_once_the_row_was_found() {
    let pending = Pending::UpdateFind { id: 1, task: "buy bread".to_string() };
    assert_eq!(
        pending.resume(Outcome::Row(saved(1, "buy milk"))),
        Step::Ask {
            query: Query::Update { id: 1, task: "buy bread".to_string() },
            pending: Pending::UpdateWrite { id: 1, task: "buy bread".to_string() },
        }
    );
}

#[test]
fn updating_a_missing_task_is_not_found() {
    for outcome in every_outcome() {
        if matches!(outcome, Outcome::Row(_)) {
            continue;
        }
        let pending = Pending::UpdateFind { id: 1, task: "buy bread".to_string() };
        assert_eq!(pending.resume(outcome), refused(ApiError::NotFound));
    }
}

#[test]
fn updating_answers_whatever_the_write_said() {
    for outcome in every_outcome() {
        let pending = Pending::UpdateWrite { id: 1, task: "buy bread".to_string() };
        assert_eq!(pending.resume(outcome), task_answer(200, 1, "buy bread"));
    }
}

#[test]
fn deleting_removes_once_the_row_was_found() {
    assert_eq!(
        Pending::DeleteFind { id: 3 }.resume(Outcome::Row(saved(3, "c"))),
        Step::Ask { query: Query::Delete { id: 3 }, pending: Pending::DeleteWrite }
    );
}

#[test]
fn deleting_a_missing_task_is_not_found() {
    for outcome in every_outcome() {
        if matches!(outcome, Outcome::Row(_)) {
            continue;
        }
        assert_eq!(Pending::DeleteFind { id: 3 }.resume(outcome), refused(ApiError::NotFound));
    }
}

#[test]
fn deleting_acknowledges_with_a_message() {
    assert_eq!(
        Pending::DeleteWrite.resume(Outcome::Done),
        Step::Reply(Ok(Response {
            status: 200,
            body: Body::Note { field: "msg".to_string(), text: "Task Deleted".to_string() },
        }))
    );
}

#[test]
fn a_failed_removal_is_not_found() {
    for outcome in every_outcome() {
        if matches!(outcome, Outcome::Done) {
            continue;
        }
        assert_eq!(Pending::DeleteWrite.resume(outcome), refused(ApiError::NotFound));
    }
}

#[test]
fn statements_and_their_values() {
    assert_eq!(Query::SelectAll.statement(), "SELECT * FROM tasks");
    assert_eq!(Query::SelectById { id: 1 }.statement(), "SELECT * FROM tasks WHERE id=?");
    assert_eq!(
        Query::Insert { task: "a".to_string() }.statement(),
        "INSERT INTO tasks (task) VALUES (?)"
    );
    assert_eq!(
        Query::Update { id: 1, task: "a".to_string() }.statement(),
        "UPDATE tasks SET task=? WHERE id=?"
    );
    assert_eq!(Query::Delete { id: 1 }.statement(), "DELETE FROM tasks WHERE id=?");
}
