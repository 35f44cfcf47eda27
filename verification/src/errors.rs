//! The error taxonomy of the client core. Every failure a caller can see is
//! one of these variants; none is reported by panicking.
use vstd::prelude::*;

verus! {

/// One outcome kind per distinguishable failure:
/// - `ConfigError` — a required configuration key is missing or a line is unreadable;
/// - `InvalidSecretEncoding` — the API secret is not valid Base64, so no signature can be built;
/// - `TransportError` — the network call itself failed (reported by the I/O layer);
/// - `ApiError` — the exchange answered with a non-empty `error` list, carried verbatim;
/// - `UnexpectedShape` — a response does not match the expected structure; the
///   `String` names the offending field.
#[derive(Debug)]
pub enum KapiError {
    ConfigError(String),
    InvalidSecretEncoding,
    TransportError,
    ApiError(Vec<String>),
    UnexpectedShape(String),
}

} // verus!
