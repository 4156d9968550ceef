//! What can go wrong while executing a request.

use crate::json::JsonValue;
use vstd::prelude::*;

verus! {

/// An error surfaced by `execute`. No retries happen at this layer: every
/// error aborts the current call, and a failing pagination step discards the
/// whole result (fail-closed).
#[derive(Debug, PartialEq, Eq)]
pub enum Error {
    /// The transport could not complete the call (connection-level failure),
    /// with the transport's own description.
    Transport(String),
    /// The provider answered with a non-success HTTP status; carries the
    /// status code and the provider's error body.
    Status(u16, JsonValue),
    /// A response body did not have the declared envelope shape; carries the
    /// offending body.
    Malformed(JsonValue),
    /// A URL failed to parse: either a pagination cursor taken from an
    /// envelope, or an endpoint under construction; carries the text.
    UrlParse(String),
    /// The request's operation kind does not fit the declared envelope
    /// mapping (for example a delete paired with a paged envelope).
    KindMismatch,
}

} // verus!
