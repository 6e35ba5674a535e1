//! The two disjoint error classes of the staging layer.
//!
//! Business errors are expected and recoverable by the calling program; they
//! are signalled as distinct numeric abort codes and never corrupt cached
//! state. Internal faults are unexpected and abort the whole session.

use vstd::prelude::*;

verus! {

/// Error category shared by the business abort codes; the low byte of each
/// code.
pub const ECATEGORY_INVALID_ARGUMENT: u64 = 7;

/// Abort code raised when adding a key that already holds a value:
/// reason 100 in the high bytes over the invalid-argument category.
pub const ALREADY_EXISTS: u64 = 25607;

/// Abort code raised when borrowing or removing a key that holds no value:
/// reason 101 in the high bytes over the invalid-argument category.
pub const NOT_FOUND: u64 = 25863;

/// A recoverable business error of one table operation.
#[derive(Clone, Copy, Debug, PartialEq, Eq, Structural)]
pub enum OpError {
    /// Add found a value already present under the key.
    AlreadyExists,
    /// Borrow or remove found no value under the key.
    NotFound,
}

impl OpError {
    /// The numeric code under which the error is signalled to the calling
    /// program.
    pub fn abort_code(&self) -> (r: u64)
        ensures
            r == (match *self {
                OpError::AlreadyExists => ALREADY_EXISTS,
                OpError::NotFound => NOT_FOUND,
            }),
            r == ALREADY_EXISTS || r == NOT_FOUND,
    {
        match self {
            OpError::AlreadyExists => ALREADY_EXISTS,
            OpError::NotFound => NOT_FOUND,
        }
    }
}

/// An unrecoverable internal fault; it aborts the entire session, so the
/// buffered state is never handed to the persistent store.
#[derive(Debug)]
pub enum Fault {
    /// The backing resolver reported a failure; carries its rendered message.
    ResolverFailure(String),
    /// Destroy was invoked twice on the same handle within one session.
    DuplicateDestroy,
}

} // verus!
