//! The route table and the per-route logic worth verifying; the HTTP
//! handlers themselves are framework plumbing and live with the binary.

use vstd::prelude::*;

pub mod error;
pub mod example_get;
pub mod example_post;
pub mod login;

verus! {

broadcast use vstd::string::group_string_axioms;

/// GET and POST endpoints
pub enum Endpoint {
    /// Return 200 if server is running
    HealthCheck,
}

/// The path each endpoint is served under.
pub open spec fn spec_endpoint_path(e: Endpoint) -> Seq<char> {
    match e {
        Endpoint::HealthCheck => "/health_check"@,
    }
}

impl Endpoint {
    /// Path for this request
    pub fn get_path(&self) -> (r: &'static str)
        ensures
            r@ == spec_endpoint_path(*self),
    {
        match self {
            Endpoint::HealthCheck => "/health_check",
        }
    }
}

} // verus!
