//! Builders for the values that are handed to the remote service.

pub mod note;
pub mod query;

pub use self::note::NoteBuilder;
pub use self::query::{CardState, Flag, Query, QueryBuilder};
