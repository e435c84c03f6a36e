//! The two recoverable failures of handle access.
use vstd::prelude::*;

verus! {

/// Why a handle could not be used.
#[derive(Clone, Copy, Debug, PartialEq, Eq, Structural)]
pub enum HandleErr {
    /// The token observed by the handle no longer exists: the resource is gone.
    AlreadyDropped,
    /// The resource is already checked out through a handle.
    AlreadyBorrowed,
}

/// The result of an operation through a handle.
pub type HandleResult<T> = Result<T, HandleErr>;

} // verus!
