//! The unified failure type of the completion entry points.

use vstd::prelude::*;
use crate::response::ErrorResponse;

verus! {

/// A programming error at the call site, as opposed to a remote or a
/// transport condition.
#[derive(Debug, Clone, PartialEq, Eq)]
pub enum PreconditionViolation {
    /// A request was prepared while both the history and the pending
    /// buffer were empty, so there was no message to send.
    EmptyMessages,
    /// The streaming completion path was entered with a request whose
    /// streaming flag is off.
    StreamFlagOff,
}

/// Every failure a completion call can surface, one variant per kind.
#[derive(Debug, Clone, PartialEq, Eq)]
pub enum CompletionError {
    /// The connection could not be established or failed mid-flight.
    /// Carries the transport's own description verbatim.
    Transport(String),
    /// A response body or an event payload was not well-formed JSON.
    /// Carries the text that failed to decode.
    Decode(String),
    /// The remote service answered with a non-success status and a
    /// structured error body.
    Application(ErrorResponse),
    /// The caller misused the library; no remote interaction happened
    /// beyond what was already in flight.
    Precondition(PreconditionViolation),
}

} // verus!
