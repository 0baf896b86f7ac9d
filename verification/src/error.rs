//! Error values returned by the relay.

use vstd::prelude::*;

verus! {

/// Failure of an operation that names a user.
#[derive(Clone, Copy, Debug, PartialEq, Eq, Structural)]
pub enum AuthError {
    /// The user identifier has no session: the user never logged in.
    UnknownUser,
}

/// Failure of a read from the message log.
#[derive(Clone, Copy, Debug, PartialEq, Eq, Structural)]
pub enum LogError {
    /// The requested start position lies beyond the end of the log.
    IndexOutOfRange,
}

} // verus!
