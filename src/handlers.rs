//! What a request about a task is answered with, given what storage did.
//!
//! Fetching and inserting rows happen outside this module; these functions
//! take what storage returned and decide the answer.
use vstd::arithmetic::power2::pow2;
use vstd::prelude::*;

use crate::task::{
    opt_text, row_outcome, task_ok, validate, TaskError, TaskView, TodoTask, TodoTaskUnchecked,
};
use crate::status::{lemma_status_round_trip, status_name, TodoStatus};
use crate::time::Timestamp;

verus! {

/// A request that is answered without success.
#[derive(Clone, Copy, Debug, PartialEq, Eq, Structural)]
pub enum Rejection {
    /// The request was malformed: answered with 400.
    BadRequest,
    /// No task has the requested identifier: answered with 404.
    NotFound,
    /// Storage failed: answered with 500, with no detail.
    InternalServerError,
}

impl Rejection {
    /// The HTTP status code that answers the request.
    pub fn status_code(&self) -> (r: u16)
        ensures
            *self == Rejection::BadRequest ==> r == 400,
            *self == Rejection::NotFound ==> r == 404,
            *self == Rejection::InternalServerError ==> r == 500,
    {
        match self {
            Rejection::BadRequest => 400,
            Rejection::NotFound => 404,
            Rejection::InternalServerError => 500,
        }
    }
}

/// How a storage call failed.
#[derive(Clone, Copy, Debug, PartialEq, Eq, Structural)]
pub enum StorageError {
    /// The query matched no row.
    RowNotFound,
    /// Any other failure: connection, constraint, timeout, decoding.
    Other,
}

/// The columns of a stored task, as storage hands them back.
#[derive(Clone, Debug)]
pub struct StoredRow {
    /// The `title` column.
    pub title: String,
    /// The `description` column.
    pub description: Option<String>,
    /// The `status` column, as text.
    pub status: String,
    /// The `due` column, in UTC.
    pub due: Timestamp,
}

/// A validated task with the identifier that it is to be stored under.
#[derive(Clone, Debug)]
pub struct NewTask {
    /// Identifier generated for the task: a UUID's 128-bit value.
    pub id: u128,
    /// The task to store.
    pub task: TodoTask,
}

/// The contents of a row, with its status column set aside.
pub open spec fn row_contents(row: StoredRow) -> TaskView {
    TaskView {
        title: row.title@,
        description: opt_text(row.description),
        status: TodoStatus::NotStarted,
        due: row.due,
    }
}

/// The answer to a fetch by identifier, given what storage returned: the
/// task it read, 404 when there is no such row, and 500 for any other
/// failure, a row that does not decode included.
pub open spec fn get_answer(fetched: Result<StoredRow, StorageError>) -> Result<
    TaskView,
    Rejection,
> {
    match fetched {
        Ok(row) => match row_outcome(row_contents(row), row.status@) {
            Ok(v) => Ok(v),
            Err(_) => Err(Rejection::InternalServerError),
        },
        Err(StorageError::RowNotFound) => Err(Rejection::NotFound),
        Err(StorageError::Other) => Err(Rejection::InternalServerError),
    }
}

/// The contents of an answer that carries a task.
pub open spec fn answered(r: Result<TodoTask, Rejection>) -> Result<TaskView, Rejection> {
    match r {
        Ok(t) => Ok(t@),
        Err(e) => Err(e),
    }
}

/// Answers `GET /task/{id}` from what fetching the row returned.
pub fn get_task(fetched: Result<StoredRow, StorageError>) -> (r: Result<TodoTask, Rejection>)
    ensures
        answered(r) == get_answer(fetched),
{
    match fetched {
        Ok(row) => match TodoTask::from_row(row.title, row.description, row.status.as_str(), row.due) {
            Ok(t) => Ok(t),
            Err(_) => Err(Rejection::InternalServerError),
        },
        Err(StorageError::RowNotFound) => Err(Rejection::NotFound),
        Err(StorageError::Other) => Err(Rejection::InternalServerError),
    }
}

/// The bits of a UUID that hold its version and variant.
pub const UUID_VERSION_VARIANT_MASK: u128 = 0x0000_0000_0000_f000_c000_0000_0000_0000;

/// Version 4 (random) with the RFC 4122 variant, in those bits.
pub const UUID_V4_BITS: u128 = 0x0000_0000_0000_4000_8000_0000_0000_0000;

/// Relies on uuid's `Uuid::new_v4`: a random identifier, taken as its
/// 128-bit value with `as_u128`. `new_v4` sets the version to 4 and the
/// variant to the RFC 4122 one; the other bits are random.
#[verifier::external_body]
fn new_task_id() -> (r: u128)
    ensures
        r & UUID_VERSION_VARIANT_MASK == UUID_V4_BITS,
{
    uuid::Uuid::new_v4().as_u128()
}

/// Handles the body of `POST /task` up to the insert: a body that fails
/// validation is refused with 400 and nothing is to be stored; otherwise the
/// validated task is to be stored under a freshly generated identifier.
pub fn post_task(body: TodoTaskUnchecked) -> (r: Result<NewTask, Rejection>)
    ensures
        validate(body@) is Err <==> r is Err,
        r is Err ==> r == Err::<NewTask, Rejection>(Rejection::BadRequest),
        r matches Ok(n) ==> validate(body@) == Ok::<TaskView, TaskError>(n.task@),
{
    match TodoTask::try_from(body) {
        Err(_) => Err(Rejection::BadRequest),
        Ok(task) => {
            let id = new_task_id();
            Ok(NewTask { id, task })
        },
    }
}

/// The lower-case hex digit for `v`, when `0 <= v < 16`.
pub open spec fn hex_digit(v: int) -> char {
    seq!['0', '1', '2', '3', '4', '5', '6', '7', '8', '9', 'a', 'b', 'c', 'd', 'e', 'f'][v]
}

/// The `k`-th hex digit of `id`, most significant first, for `0 <= k < 32`.
pub open spec fn uuid_nibble(id: u128, k: int) -> int {
    (id as int / pow2((4 * (31 - k)) as nat) as int) % 16
}

/// The text of an identifier, as a hyphenated lower-case UUID: its 32 hex
/// digits, most significant first, with a hyphen at positions 8, 13, 18 and
/// 23.
pub open spec fn uuid_text(id: u128) -> Seq<char> {
    Seq::new(
        36,
        |i: int|
            if i == 8 || i == 13 || i == 18 || i == 23 {
                '-'
            } else if i < 8 {
                hex_digit(uuid_nibble(id, i))
            } else if i < 13 {
                hex_digit(uuid_nibble(id, i - 1))
            } else if i < 18 {
                hex_digit(uuid_nibble(id, i - 2))
            } else if i < 23 {
                hex_digit(uuid_nibble(id, i - 3))
            } else {
                hex_digit(uuid_nibble(id, i - 4))
            },
    )
}

/// Relies on uuid's `Uuid::from_u128` and its `Display`, which writes the
/// hyphenated lower-case form of the id's big-endian bytes.
#[verifier::external_body]
fn format_task_id(id: u128) -> (r: String)
    ensures
        r@ == uuid_text(id),
{
    uuid::Uuid::from_u128(id).to_string()
}

/// Answers `POST /task` once the insert was tried: the identifier's text
/// when it succeeded, 500 when storage failed.
pub fn post_task_response(id: u128, inserted: Result<(), StorageError>) -> (r: Result<
    String,
    Rejection,
>)
    ensures
        inserted is Ok <==> r is Ok,
        r matches Ok(text) ==> text@ == uuid_text(id) && text@.len() == 36,
        r is Err ==> r == Err::<String, Rejection>(Rejection::InternalServerError),
{
    match inserted {
        Ok(()) => Ok(format_task_id(id)),
        Err(_) => Err(Rejection::InternalServerError),
    }
}

/// A valid task stored as a row, with its status written as its name, is
/// answered with exactly that task when fetched.
pub proof fn lemma_stored_task_fetched(v: TaskView, row: StoredRow)
    requires
        task_ok(v),
        row.title@ == v.title,
        opt_text(row.description) == v.description,
        row.status@ == status_name(v.status),
        row.due == v.due,
    ensures
        get_answer(Ok(row)) == Ok::<TaskView, Rejection>(v),
{
    lemma_status_round_trip(v.status);
}

} // verus!
