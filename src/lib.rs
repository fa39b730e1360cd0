//! A singly linked list used as a LIFO stack.
pub mod laws;
pub mod list;

pub use list::List;
