//! The backend's network endpoint.
//!
//! Fixed for the process lifetime; the embedding program builds the
//! health and shutdown URLs from it.

use vstd::prelude::*;

verus! {

/// Host and port of the supervised backend.
#[derive(Clone, PartialEq, Eq, Debug)]
pub struct BackendEndpoint {
    pub host: String,
    pub port: u16,
}

impl BackendEndpoint {
    /// An endpoint with the given host and port.
    pub fn new(host: String, port: u16) -> (e: BackendEndpoint)
        ensures
            e.host == host,
            e.port == port,
    {
        BackendEndpoint { host, port }
    }
}

} // verus!
