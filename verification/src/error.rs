//! The failure classes that the session reports.

use vstd::prelude::*;

verus! {

/// Why an operation of the session failed.
#[derive(Debug, PartialEq, Eq, Structural, Clone, Copy)]
pub enum GummyError {
    /// The channel could not be opened, or a send or receive on it failed.
    Transport,
    /// The connection request could not be built from the credential.
    Auth,
    /// The channel closed while the session waited for the start or the end
    /// of a task.
    Protocol,
    /// A received frame was not structured text of the expected shape.
    MalformedMessage,
}

} // verus!
