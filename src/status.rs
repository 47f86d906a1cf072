//! Lifecycle status of a task and its text encoding.
use vstd::prelude::*;

verus! {

/// Status of a "to-do" item.
#[derive(Clone, Copy, Debug, PartialEq, Eq, Structural)]
pub enum TodoStatus {
    /// Not yet started: the default status of a new task.
    NotStarted,
    /// Currently being worked on.
    InProgress,
    /// Finished.
    Complete,
    /// Will not be completed.
    Cancelled,
    /// Cannot be started due to external circumstances.
    Blocked,
}

/// The text that stands for a status, both in JSON bodies and in the
/// storage column: the variant's name.
pub open spec fn status_name(s: TodoStatus) -> Seq<char> {
    match s {
        TodoStatus::NotStarted => "NotStarted"@,
        TodoStatus::InProgress => "InProgress"@,
        TodoStatus::Complete => "Complete"@,
        TodoStatus::Cancelled => "Cancelled"@,
        TodoStatus::Blocked => "Blocked"@,
    }
}

/// The status whose name is `t`, if there is one.
pub open spec fn status_of_name(t: Seq<char>) -> Option<TodoStatus> {
    if t == status_name(TodoStatus::NotStarted) {
        Some(TodoStatus::NotStarted)
    } else if t == status_name(TodoStatus::InProgress) {
        Some(TodoStatus::InProgress)
    } else if t == status_name(TodoStatus::Complete) {
        Some(TodoStatus::Complete)
    } else if t == status_name(TodoStatus::Cancelled) {
        Some(TodoStatus::Cancelled)
    } else if t == status_name(TodoStatus::Blocked) {
        Some(TodoStatus::Blocked)
    } else {
        None
    }
}

/// No two statuses share a name.
pub proof fn lemma_status_names_distinct(a: TodoStatus, b: TodoStatus)
    ensures
        status_name(a) == status_name(b) <==> a == b,
{
    reveal_strlit("NotStarted");
    reveal_strlit("InProgress");
    reveal_strlit("Complete");
    reveal_strlit("Cancelled");
    reveal_strlit("Blocked");
    if status_name(a) == status_name(b) {
        assert(status_name(a).len() == status_name(b).len());
        assert(status_name(a)[0] == status_name(b)[0]);
        assert(status_name(a)[1] == status_name(b)[1]);
    }
}

/// Encoding a status as text and decoding the text gives the same status
/// back, for each of the five statuses.
pub proof fn lemma_status_round_trip(s: TodoStatus)
    ensures
        status_of_name(status_name(s)) == Some(s),
{
    lemma_status_names_distinct(s, TodoStatus::NotStarted);
    lemma_status_names_distinct(s, TodoStatus::InProgress);
    lemma_status_names_distinct(s, TodoStatus::Complete);
    lemma_status_names_distinct(s, TodoStatus::Cancelled);
    lemma_status_names_distinct(s, TodoStatus::Blocked);
}

/// Whatever text decodes to a status is that status's name: no other
/// spelling is accepted.
pub proof fn lemma_status_decode_exact(t: Seq<char>, s: TodoStatus)
    ensures
        status_of_name(t) == Some(s) <==> t == status_name(s),
{
    lemma_status_round_trip(s);
    lemma_status_names_distinct(s, TodoStatus::NotStarted);
    lemma_status_names_distinct(s, TodoStatus::InProgress);
    lemma_status_names_distinct(s, TodoStatus::Complete);
    lemma_status_names_distinct(s, TodoStatus::Cancelled);
    lemma_status_names_distinct(s, TodoStatus::Blocked);
}

impl Default for TodoStatus {
    fn default() -> (r: TodoStatus)
        ensures
            r == TodoStatus::NotStarted,
    {
        TodoStatus::NotStarted
    }
}

impl TodoStatus {
    /// The status's name, as written in JSON bodies and in storage.
    pub fn as_str(&self) -> (r: &'static str)
        ensures
            r@ == status_name(*self),
    {
        match self {
            TodoStatus::NotStarted => "NotStarted",
            TodoStatus::InProgress => "InProgress",
            TodoStatus::Complete => "Complete",
            TodoStatus::Cancelled => "Cancelled",
            TodoStatus::Blocked => "Blocked",
        }
    }

    /// Decodes a status from its name. Any other text is refused: there is no
    /// catch-all status.
    pub fn from_name(t: &str) -> (r: Option<TodoStatus>)
        ensures
            r == status_of_name(t@),
    {
        let text = String::from_str(t);
        if text == String::from_str("NotStarted") {
            Some(TodoStatus::NotStarted)
        } else if text == String::from_str("InProgress") {
            Some(TodoStatus::InProgress)
        } else if text == String::from_str("Complete") {
            Some(TodoStatus::Complete)
        } else if text == String::from_str("Cancelled") {
            Some(TodoStatus::Cancelled)
        } else if text == String::from_str("Blocked") {
            Some(TodoStatus::Blocked)
        } else {
            None
        }
    }
}

} // verus!
