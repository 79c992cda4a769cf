//! The ways in which an operation of the tracker can fail.

use vstd::prelude::*;

verus! {

/// The four category families of a task.
#[derive(Debug, Clone, Copy, PartialEq, Eq, Structural)]
pub enum Family {
    Priority,
    Importance,
    Duration,
    Status,
}

/// Why an operation could not be completed.
#[derive(Debug, Clone, Copy, PartialEq, Eq, Structural)]
pub enum TaskError {
    /// A stored integer names no variant of the given family.
    InvalidOrdinal { family: Family, value: i64 },
    /// No row has the requested id.
    NotFound,
    /// A date supplied as text is not a calendar date.
    ValidationError,
    /// The storage call itself failed.
    StorageError,
}

} // verus!
