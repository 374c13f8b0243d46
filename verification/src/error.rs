//! The error taxonomy shared by every fallible filesystem operation.
use vstd::prelude::*;

verus! {

/// The ways a filesystem operation can fail.
#[derive(Debug)]
pub enum GfsError {
    /// Reserved for backends that perform real byte-level I/O; the in-memory
    /// backend never raises it.
    IoError,
    /// A read, remove, rename or write-based lookup targeted a path with no
    /// corresponding entry.
    EntryNotFound,
    /// Catch-all for invariant violations not covered above.
    Other(String),
}

pub type GfsResult<T> = Result<T, GfsError>;

} // verus!
