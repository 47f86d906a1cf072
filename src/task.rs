//! The task model: a validated to-do task, its unchecked shadow, and the one
//! fallible conversion between them.
use vstd::prelude::*;

use crate::status::{status_of_name, TodoStatus};
use crate::time::{normalized, utc_now, Timestamp, ZonedTimestamp};

verus! {

/// The contents of a task, checked or not: what a [`TodoTask`] or a
/// [`TodoTaskUnchecked`] holds.
pub struct TaskView {
    pub title: Seq<char>,
    pub description: Option<Seq<char>>,
    pub status: TodoStatus,
    pub due: Timestamp,
}

/// Why a task was refused.
#[derive(Clone, Copy, Debug, PartialEq, Eq, Structural)]
pub enum TaskError {
    /// The title is empty.
    EmptyTitle,
    /// A description is present and empty.
    EmptyDescription,
}

impl TaskError {
    /// A short sentence for diagnostics.
    pub fn message(&self) -> (r: &'static str)
        ensures
            *self == TaskError::EmptyTitle ==> r@ == "title cannot be empty"@,
            *self == TaskError::EmptyDescription ==> r@ == "description cannot be empty"@,
    {
        match self {
            TaskError::EmptyTitle => "title cannot be empty",
            TaskError::EmptyDescription => "description cannot be empty",
        }
    }
}

/// The text of an optional string.
pub open spec fn opt_text(o: Option<String>) -> Option<Seq<char>> {
    match o {
        Some(s) => Some(s@),
        None => None,
    }
}

/// The text of an optional borrowed string.
pub open spec fn opt_str_text(o: Option<&str>) -> Option<Seq<char>> {
    match o {
        Some(s) => Some(s@),
        None => None,
    }
}

/// A title is allowed when it is not empty.
pub open spec fn title_ok(t: Seq<char>) -> bool {
    t.len() > 0
}

/// A description is allowed when it is absent, or present and not empty.
pub open spec fn description_ok(d: Option<Seq<char>>) -> bool {
    d matches Some(x) ==> x.len() > 0
}

/// Contents that a [`TodoTask`] may hold.
pub open spec fn task_ok(v: TaskView) -> bool {
    title_ok(v.title) && description_ok(v.description)
}

/// What validation finds of a title and a description: the title is looked
/// at first.
pub open spec fn check_fields(title: Seq<char>, description: Option<Seq<char>>) -> Result<
    (),
    TaskError,
> {
    if !title_ok(title) {
        Err(TaskError::EmptyTitle)
    } else if !description_ok(description) {
        Err(TaskError::EmptyDescription)
    } else {
        Ok(())
    }
}

/// The validation gate on contents: they pass unchanged, or the first
/// reason to refuse them comes back.
pub open spec fn validate(v: TaskView) -> Result<TaskView, TaskError> {
    match check_fields(v.title, v.description) {
        Ok(()) => Ok(v),
        Err(e) => Err(e),
    }
}

/// Checks a title and a description.
fn check_title_description(title: &String, description: &Option<String>) -> (r: Result<
    (),
    TaskError,
>)
    ensures
        r == check_fields(title@, opt_text(*description)),
{
    if title.as_str().is_empty() {
        return Err(TaskError::EmptyTitle);
    }
    match description {
        Some(d) => {
            if d.as_str().is_empty() {
                Err(TaskError::EmptyDescription)
            } else {
                Ok(())
            }
        },
        None => Ok(()),
    }
}

/// A "to-do" task whose title is never empty and whose description, when
/// present, is never empty. Its due instant is held in UTC.
#[derive(Debug)]
pub struct TodoTask {
    title: String,
    description: Option<String>,
    /// Current status of the task.
    pub status: TodoStatus,
    due: Timestamp,
}

impl View for TodoTask {
    type V = TaskView;

    closed spec fn view(&self) -> TaskView {
        TaskView {
            title: self.title@,
            description: opt_text(self.description),
            status: self.status,
            due: self.due,
        }
    }
}

/// Unchecked version of [`TodoTask`], the shape in which a task arrives from
/// outside. [`TodoTask::try_from`] validates it.
#[derive(Clone, Debug)]
pub struct TodoTaskUnchecked {
    /// Title, possibly empty.
    pub title: String,
    /// Description, possibly present and empty.
    pub description: Option<String>,
    /// Status.
    pub status: TodoStatus,
    /// Due instant in UTC.
    pub due: Timestamp,
}

impl View for TodoTaskUnchecked {
    type V = TaskView;

    open spec fn view(&self) -> TaskView {
        TaskView {
            title: self.title@,
            description: opt_text(self.description),
            status: self.status,
            due: self.due,
        }
    }
}

/// `v` with its title replaced.
pub open spec fn with_title(v: TaskView, title: Seq<char>) -> TaskView {
    TaskView { title, ..v }
}

/// `v` with its description replaced.
pub open spec fn with_description(v: TaskView, description: Option<Seq<char>>) -> TaskView {
    TaskView { description, ..v }
}

/// `v` with its due instant replaced.
pub open spec fn with_due(v: TaskView, due: Timestamp) -> TaskView {
    TaskView { due, ..v }
}

/// The contents of a validation result.
pub open spec fn checked(r: Result<TodoTask, TaskError>) -> Result<TaskView, TaskError> {
    match r {
        Ok(t) => Ok(t@),
        Err(e) => Err(e),
    }
}

impl Clone for TodoTask {
    fn clone(&self) -> (r: TodoTask)
        ensures
            r@ == self@,
    {
        proof {
            use_type_invariant(self);
        }
        let description = match &self.description {
            Some(d) => Some(d.clone()),
            None => None,
        };
        TodoTask { title: self.title.clone(), description, status: self.status, due: self.due }
    }
}

impl TodoTask {
    #[verifier::type_invariant]
    spec fn fields_ok(self) -> bool {
        task_ok(self@)
    }

    /// Validates unchecked contents: the only way in which outside input
    /// becomes a [`TodoTask`]. Refuses an empty title first, then a present
    /// and empty description; otherwise every field is kept as it is.
    pub fn try_from(value: TodoTaskUnchecked) -> (r: Result<TodoTask, TaskError>)
        ensures
            checked(r) == validate(value@),
    {
        match check_title_description(&value.title, &value.description) {
            Err(e) => Err(e),
            Ok(()) => Ok(
                TodoTask {
                    title: value.title,
                    description: value.description,
                    status: value.status,
                    due: value.due,
                },
            ),
        }
    }
}


/// Why a stored row could not be read back as a task.
#[derive(Clone, Copy, Debug, PartialEq, Eq, Structural)]
pub enum RowError {
    /// The status column holds text that names no status.
    UnknownStatus,
    /// The row's title or description breaks a task's rules.
    Invalid(TaskError),
}

/// What reading a row finds, given its columns' contents and the status
/// column's text.
pub open spec fn row_outcome(v: TaskView, status_text: Seq<char>) -> Result<TaskView, RowError> {
    match status_of_name(status_text) {
        None => Err(RowError::UnknownStatus),
        Some(st) => match validate(TaskView { status: st, ..v }) {
            Ok(w) => Ok(w),
            Err(e) => Err(RowError::Invalid(e)),
        },
    }
}

/// The contents of a row-reading result.
pub open spec fn read_back(r: Result<TodoTask, RowError>) -> Result<TaskView, RowError> {
    match r {
        Ok(t) => Ok(t@),
        Err(e) => Err(e),
    }
}

impl TodoTask {
    /// A new task with the given fields; `due` is converted to UTC. Refuses
    /// an empty title, and a present and empty description, as
    /// [`TodoTask::try_from`] does.
    pub fn new(
        title: String,
        description: Option<String>,
        status: TodoStatus,
        due: &ZonedTimestamp,
    ) -> (r: Result<TodoTask, TaskError>)
        ensures
            checked(r) == validate(
                TaskView {
                    title: title@,
                    description: opt_text(description),
                    status,
                    due: normalized(due.spec_local(), due.spec_offset()),
                },
            ),
    {
        let due = due.to_utc();
        TodoTask::try_from(TodoTaskUnchecked { title, description, status, due })
    }

    /// Reads a task back from a stored row: its title, description, the
    /// status column's text, and its due instant in UTC.
    pub fn from_row(
        title: String,
        description: Option<String>,
        status: &str,
        due: Timestamp,
    ) -> (r: Result<TodoTask, RowError>)
        ensures
            read_back(r) == row_outcome(
                TaskView {
                    title: title@,
                    description: opt_text(description),
                    status: TodoStatus::NotStarted,
                    due,
                },
                status@,
            ),
    {
        match TodoStatus::from_name(status) {
            None => Err(RowError::UnknownStatus),
            Some(st) => match TodoTask::try_from(
                TodoTaskUnchecked { title, description, status: st, due },
            ) {
                Ok(t) => Ok(t),
                Err(e) => Err(RowError::Invalid(e)),
            },
        }
    }

    /// The task's contents as unchecked fields: the shape in which a task is
    /// written out and read back in.
    pub fn to_unchecked(&self) -> (r: TodoTaskUnchecked)
        ensures
            r@ == self@,
            task_ok(self@),
    {
        proof {
            use_type_invariant(self);
        }
        let description = match &self.description {
            Some(d) => Some(d.clone()),
            None => None,
        };
        TodoTaskUnchecked {
            title: self.title.clone(),
            description,
            status: self.status,
            due: self.due,
        }
    }

    /// The title of the task.
    pub fn title(&self) -> (r: &str)
        ensures
            r@ == self@.title,
            title_ok(r@),
    {
        proof {
            use_type_invariant(self);
        }
        self.title.as_str()
    }

    /// Replaces the title. An empty title is refused and the task is left as
    /// it was.
    pub fn set_title(&mut self, new_title: String) -> (r: Result<(), TaskError>)
        ensures
            title_ok(new_title@) ==> r is Ok && final(self)@ == with_title(old(self)@, new_title@),
            !title_ok(new_title@) ==> r == Err::<(), TaskError>(TaskError::EmptyTitle),
            !title_ok(new_title@) ==> final(self)@ == old(self)@,
    {
        proof {
            use_type_invariant(&*self);
        }
        if new_title.as_str().is_empty() {
            return Err(TaskError::EmptyTitle);
        }
        self.title = new_title;
        Ok(())
    }

    /// The description of the task; never present and empty.
    pub fn description(&self) -> (r: Option<&str>)
        ensures
            opt_str_text(r) == self@.description,
            description_ok(opt_str_text(r)),
    {
        proof {
            use_type_invariant(self);
        }
        match &self.description {
            Some(d) => Some(d.as_str()),
            None => None,
        }
    }

    /// Replaces the description. A present and empty description is refused
    /// and the task is left as it was.
    pub fn set_description(&mut self, new_description: Option<String>) -> (r: Result<
        (),
        TaskError,
    >)
        ensures
            description_ok(opt_text(new_description)) ==> r is Ok,
            description_ok(opt_text(new_description)) ==> final(self)@ == with_description(
                old(self)@,
                opt_text(new_description),
            ),
            !description_ok(opt_text(new_description)) ==> r == Err::<(), TaskError>(
                TaskError::EmptyDescription,
            ),
            !description_ok(opt_text(new_description)) ==> final(self)@ == old(self)@,
    {
        proof {
            use_type_invariant(&*self);
        }
        let empty = match &new_description {
            Some(d) => d.as_str().is_empty(),
            None => false,
        };
        if empty {
            return Err(TaskError::EmptyDescription);
        }
        self.description = new_description;
        Ok(())
    }

    /// The status of the task.
    pub fn status(&self) -> (r: TodoStatus)
        ensures
            r == self@.status,
    {
        self.status
    }

    /// The due instant, in UTC.
    pub fn due(&self) -> (r: &Timestamp)
        ensures
            *r == self@.due,
    {
        &self.due
    }

    /// Replaces the due instant, converting it to UTC.
    pub fn set_due(&mut self, new_due: &ZonedTimestamp)
        ensures
            final(self)@ == with_due(
                old(self)@,
                normalized(new_due.spec_local(), new_due.spec_offset()),
            ),
    {
        proof {
            use_type_invariant(&*self);
        }
        self.due = new_due.to_utc();
    }

    /// Whether the task was due strictly before `now`.
    pub fn past_due_at(&self, now: &Timestamp) -> (r: bool)
        ensures
            r == self@.due.spec_before(*now),
    {
        self.due.before(now)
    }

    /// Whether the task is due strictly before the current instant, as the
    /// system clock gives it.
    pub fn past_due(&self) -> (r: bool)
        ensures
            (exists|now: Timestamp|
                now.secs >= 0 && now.nanos < 1_000_000_000 && r == #[trigger] self@.due.spec_before(
                    now,
                )),
    {
        let now = utc_now();
        self.past_due_at(&now)
    }
}

/// A non-empty title with a description that is absent or non-empty passes
/// validation, and the task keeps every field as given.
pub proof fn lemma_valid_fields_accepted(
    title: Seq<char>,
    description: Option<Seq<char>>,
    status: TodoStatus,
    due: Timestamp,
)
    requires
        title.len() > 0,
        description matches Some(d) ==> d.len() > 0,
    ensures
        validate(TaskView { title, description, status, due }) == Ok::<TaskView, TaskError>(
            TaskView { title, description, status, due },
        ),
{
}

/// An empty title is refused for that reason, whatever the description,
/// and never for the description's.
pub proof fn lemma_empty_title_refused(v: TaskView)
    requires
        v.title.len() == 0,
    ensures
        validate(v) == Err::<TaskView, TaskError>(TaskError::EmptyTitle),
        TaskError::EmptyTitle != TaskError::EmptyDescription,
{
}

/// A present and empty description beside a non-empty title is refused for
/// the description's reason.
pub proof fn lemma_empty_description_refused(v: TaskView)
    requires
        v.title.len() > 0,
        v.description == Some(Seq::<char>::empty()),
    ensures
        validate(v) == Err::<TaskView, TaskError>(TaskError::EmptyDescription),
{
}

/// A task written out with [`TodoTask::to_unchecked`] and validated again
/// with [`TodoTask::try_from`] comes back as the same task, field for field.
pub proof fn lemma_wire_round_trip(t: TodoTask, u: TodoTaskUnchecked)
    requires
        task_ok(t@),
        u@ == t@,
    ensures
        validate(u@) == Ok::<TaskView, TaskError>(t@),
{
}

} // verus!
