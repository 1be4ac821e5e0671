//! The classified failures a request can end in.

use vstd::prelude::*;

verus! {

/// Outcome classification for a failed request or conversion.
///
/// Exactly one variant is active; every failure is returned to the caller
/// unchanged — nothing is retried or defaulted.
#[derive(Debug, Clone, PartialEq, Eq)]
pub enum YaRaspError {
    /// The HTTP call itself could not be completed (connection, timeout,
    /// DNS, TLS); carries the transport's own diagnostic text.
    TransportError(String),
    /// The remote API answered with a structured error envelope; carries
    /// the HTTP status and the API-provided message.
    ApiError { status: u16, message: String },
    /// The response body matched no recognized schema; carries the path
    /// of the first offending field.
    DecodeError(String),
    /// A string token belongs to none of an enum's wire tokens; carries
    /// the rejected token.
    UnknownVariant(String),
}

} // verus!
