//! The contract between a typed request and the client that sends it.

use vstd::prelude::*;

pub mod services;

verus! {

/// A request to the remote service: how it is sent, where to, and what the
/// answer decodes into. The value itself is the body of the request.
pub trait Endpoint {
    /// What the body of the response decodes into.
    type Output;

    /// The method that requests of this type are sent with.
    fn method() -> http::Method;

    /// The path and query of this request.
    fn path_and_query(&self) -> Result<http::uri::PathAndQuery, http::uri::InvalidUri>;
}

} // verus!
