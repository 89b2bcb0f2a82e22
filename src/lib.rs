//! An in-memory to-do list: items addressed by position, updated field by
//! field, and queried by a conjunction of optional criteria.

pub mod laws;
pub mod text;
pub mod time;
pub mod todo_list;
pub mod urgency;

pub use time::{TimeDelta, Timestamp};
pub use todo_list::{Item, TodoError, TodoList};
pub use urgency::Urgency;
