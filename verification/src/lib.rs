//! A client library for a hosted chat-completion service.
//!
//! The library keeps a conversation's message history and a one-shot
//! pending buffer, assembles them into request payloads, routes a request
//! to a streaming or a non-streaming completion path, folds a stream of
//! events into an ordered chunk sequence, and classifies every outcome
//! into one unified result type.
//!
//! All network traffic and serialization live outside this crate; the
//! functions here work on plain values and carry full functional
//! contracts.

pub mod client;
pub mod error;
pub mod json;
pub mod message;
pub mod request;
pub mod response;
pub mod stream;
