//! The errors of this library.

use vstd::prelude::*;

verus! {

/// Why an operation on a session failed.
#[derive(Debug, Clone, Copy, PartialEq, Eq, Structural)]
pub enum XError {
    /// The session has no connection yet.
    NotConnected,
    /// The request could not be sent, or the server answered it with an error.
    Transport,
    /// A reply did not have the expected shape, or a string was not UTF-8.
    Decode,
}

} // verus!
