use axum::response::IntoResponse;
use task_service::database::{is_missing, is_sqlite};
use task_service::routes::{root, Endpoint, Method};

#[test]
fn root_redirects_to_the_task_list() {
    let redirect = root();
    assert_eq!(redirect.location, "/tasks");
    assert_eq!(redirect.status, 308);
}

#[test]
fn root_redirect_is_the_permanent_one() {
    let redirect = root();
    let response = axum::response::Redirect::permanent(&redirect.location).into_response();
    assert_eq!(response.status().as_u16(), redirect.status);
    assert_eq!(response.headers().get("location").unwrap().to_str().unwrap(), "/tasks");
}

#[test]
fn route_table() {
    assert_eq!(Endpoint::Root.method(), Method::Get);
    assert_eq!(Endpoint::Root.path(), "/");
    assert_eq!(Endpoint::AllTasks.method(), Method::Get);
    assert_eq!(Endpoint::AllTasks.path(), "/tasks");
    assert_eq!(Endpoint::NewTask.method(), Method::Post);
    assert_eq!(Endpoint::NewTask.path(), "/tasks");
    assert_eq!(Endpoint::Task.method(), Method::Get);
    assert_eq!(Endpoint::Task.path(), "/tasks/:id");
    assert_eq!(Endpoint::UpdateTask.method(), Method::Put);
    assert_eq!(Endpoint::UpdateTask.path(), "/tasks/:id");
    assert_eq!(Endpoint::DeleteTask.method(), Method::Delete);
    assert_eq!(Endpoint::DeleteTask.path(), "/tasks/:id");
}

#[test]
fn no_two_routes_collide() {
    let all = [
        Endpoint::Root,
        Endpoint::AllTasks,
        Endpoint::NewTask,
        Endpoint::Task,
        Endpoint::UpdateTask,
        Endpoint::DeleteTask,
    ];
    for (i, a) in all.iter().enumerate() {
        for b in all.iter().skip(i + 1) {
            assert!(a.method() != b.method() || a.path() != b.path());
        }
    }
}

#[test]
fn sqlite_urls_are_recognised() {
    assert!(is_sqlite("sqlite://tasks.db"));
    assert!(is_sqlite("sqlite://"));
    assert!(is_sqlite("sqlite://dir/\u{e9}t\u{e9}.db"));
}

#[test]
fn other_urls_are_not_sqlite() {
    assert!(!is_sqlite(""));
    assert!(!is_sqlite("sqlite:/"));
    assert!(!is_sqlite("sqlite:tasks.db"));
    assert!(!is_sqlite("postgres://localhost/tasks"));
    assert!(!is_sqlite("SQLITE://tasks.db"));
    assert!(!is_sqlite(" sqlite://tasks.db"));
    assert!(!is_sqlite("\u{e9}qlite://tasks.db"));
}

#[test]
fn database_is_created_unless_found() {
    assert!(!is_missing(Some(true)));
    assert!(is_missing(Some(false)));
    assert!(is_missing(None));
}
