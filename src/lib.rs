//! Library for describing "to-do" tasks and deciding how requests about them
//! are answered.
//!
//! See [`TodoTask`] for the task model and [`handlers`] for the request logic.
pub mod status;
pub mod time;

pub use status::TodoStatus;
pub use time::{Timestamp, ZonedTimestamp};
pub mod task;

pub use task::{TaskError, TodoTask, TodoTaskUnchecked};
pub mod handlers;
