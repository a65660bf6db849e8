//! The HTTP client handle that a `Subreddit` carries.
//!
//! The library never performs a request itself: it only builds URLs and
//! holds the handle so that several `Subreddit` values can share one
//! connection pool. The caller performs the GET and decodes the body.

use vstd::prelude::*;

verus! {

/// `reqwest::Client` is the shared, reusable HTTP client handle. The
/// library carries it opaquely and never looks inside.
#[verifier::external_type_specification]
#[verifier::external_body]
pub struct ExClient(reqwest::Client);

/// Relies on `reqwest::Client::new`: constructs a client handle with the
/// default configuration. It performs no I/O; it panics only if the
/// process environment cannot initialize the transport backend, never on
/// any input.
pub assume_specification[ reqwest::Client::new ]() -> (c: reqwest::Client);

} // verus!
