//! The classes into which every failure of an operation falls.

use vstd::prelude::*;

verus! {

/// The class of a failure. A failed operation changes nothing; the caller may
/// submit a new one.
#[derive(Clone, Copy, Debug, PartialEq, Eq, Structural, Hash)]
pub enum ErrorKind {
    /// No record has the identifier that was given.
    NotFound,
    /// The record is not in a state in which the operation is allowed.
    InvalidState,
    /// The caller does not hold the role that the operation asks for.
    Unauthorized,
    /// An argument is out of range: an amount, a text, a duration.
    Validation,
    /// The seller already holds the lock that the operation would take.
    Conflict,
    /// The engine was initialized before.
    AlreadyInitialized,
}

} // verus!
