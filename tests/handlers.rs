use dts_developer_challenge::handlers::{
    get_task, post_task, post_task_response, Rejection, StorageError, StoredRow,
};
use dts_developer_challenge::{Timestamp, TodoStatus, TodoTaskUnchecked};

fn body(title: &str) -> TodoTaskUnchecked {
    // "due":"2030-01-01T00:00:00Z", status left out
    TodoTaskUnchecked {
        title: title.to_string(),
        description: None,
        status: TodoStatus::default(),
        due: Timestamp { secs: 1_893_456_000, nanos: 0 },
    }
}

#[test]
fn create_then_fetch() {
    let planned = post_task(body("Buy milk")).unwrap();
    let answer = post_task_response(planned.id, Ok(())).unwrap();
    assert!(!answer.is_empty());
    assert_eq!(answer.len(), 36);

    let stored = planned.task.to_unchecked();
    let row = StoredRow {
        title: stored.title,
        description: stored.description,
        status: stored.status.as_str().to_string(),
        due: stored.due,
    };
    let fetched = get_task(Ok(row)).unwrap();
    assert_eq!(fetched.title(), "Buy milk");
    assert_eq!(fetched.status.as_str(), "NotStarted");
    assert_eq!(fetched.due(), &Timestamp { secs: 1_893_456_000, nanos: 0 });
}

#[test]
fn create_ids_differ() {
    let a = post_task(body("one")).unwrap();
    let b = post_task(body("two")).unwrap();
    assert_ne!(a.id, b.id);
}

#[test]
fn create_identifier_text() {
    let text = post_task_response(0x0123_4567_89ab_cdef_0011_2233_4455_6677, Ok(())).unwrap();
    assert_eq!(text, "01234567-89ab-cdef-0011-223344556677");
}

#[test]
fn create_empty_title_rejected() {
    let r = post_task(body(""));
    assert_eq!(r.as_ref().err(), Some(&Rejection::BadRequest));
    assert_eq!(Rejection::BadRequest.status_code(), 400);
}

#[test]
fn create_insert_failure() {
    let r = post_task_response(7, Err(StorageError::Other));
    assert_eq!(r, Err(Rejection::InternalServerError));
}

#[test]
fn fetch_unused_id_not_found() {
    let r = get_task(Err(StorageError::RowNotFound));
    assert_eq!(r.err(), Some(Rejection::NotFound));
    assert_eq!(Rejection::NotFound.status_code(), 404);
}

#[test]
fn fetch_storage_unreachable() {
    let r = get_task(Err(StorageError::Other));
    assert!(r.is_err());
    assert_eq!(r.err(), Some(Rejection::InternalServerError));
    assert_eq!(Rejection::InternalServerError.status_code(), 500);
}

#[test]
fn fetch_undecodable_row() {
    let row = StoredRow {
        title: "ok".to_string(),
        description: None,
        status: "Archived".to_string(),
        due: Timestamp { secs: 0, nanos: 0 },
    };
    assert_eq!(get_task(Ok(row)).err(), Some(Rejection::InternalServerError));
}
