//! Completion results: the full-body response of the non-streaming path,
//! one chunk of the streaming path, and the structured remote error.
//!
//! Each carries its payload as the JSON text received from the remote
//! service; the completion paths only hand one out after checking that
//! the text is well-formed JSON. Turning the text into richer typed
//! values is left to unverified callers.

use vstd::prelude::*;

verus! {

/// The complete body of one successful non-streaming completion.
#[derive(Debug, Clone, PartialEq, Eq)]
pub struct Response {
    /// The JSON text of the response body.
    pub body: String,
}

/// One incremental unit of a streamed completion.
#[derive(Debug, Clone, PartialEq, Eq)]
pub struct StreamResponse {
    /// The JSON text of one event's payload.
    pub data: String,
}

/// A structured failure reported by the remote service on a non-success
/// status of the non-streaming path.
#[derive(Debug, Clone, PartialEq, Eq)]
pub struct ErrorResponse {
    /// The HTTP status observed on the transport. It is authoritative:
    /// whatever status the body itself may embed is superseded by this
    /// value.
    pub code: u16,
    /// The JSON text of the error body.
    pub body: String,
}

} // verus!
