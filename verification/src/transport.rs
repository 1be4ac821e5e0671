//! The trusted boundary around the HTTP transport handle.
//!
//! The crate never issues a request itself: it only carries the handle,
//! so a caller can pair a builder's endpoint path and query pairs with
//! one GET call.  Nothing is assumed about the handle's behaviour.

use vstd::prelude::*;

verus! {

#[verifier::external_type_specification]
#[verifier::external_body]
pub struct ExReqwestClient(reqwest::Client);

/// Relies on `reqwest::Client::new`: builds a transport handle with
/// default settings.
#[verifier::external_body]
pub(crate) fn transport_new() -> reqwest::Client {
    reqwest::Client::new()
}

/// Relies on `reqwest::Client`'s `Clone`: hands out a handle sharing
/// the same connection pool.  Nothing is claimed of the copy.
pub assume_specification[ <reqwest::Client as Clone>::clone ](c: &reqwest::Client) -> reqwest::Client;

} // verus!
