//! The ways in which an operation of the library fails.

use vstd::prelude::*;

verus! {

/// Why an operation was refused.
#[derive(Clone, Copy, Debug, PartialEq, Eq, Structural)]
pub enum TransferError {
    /// The remote service does not know the identifier, or reports no size for it.
    NotFound,
    /// The destination file exists and resuming was not asked for.
    Conflict,
    /// A chunk index at or beyond the number of chunks in the progress store.
    OutOfBounds,
    /// The progress store does not hold one byte per chunk of the transfer.
    SizeMismatch,
    /// An event that the transfer was not waiting for.
    UnexpectedEvent,
}

} // verus!
