//! Records exchanged with the edge reverse proxy.
use vstd::prelude::*;

verus! {

/// A route from a host name to an upstream `host:port`.
#[derive(Clone, Debug)]
pub struct ReverseProxyConfig {
    pub domain: String,
    pub upstream: String,
    pub enable_https: bool,
}

#[derive(Clone, Debug)]
pub struct RouteInfo {
    pub domain: String,
    pub upstream: String,
    pub ssl_status: String,
}

} // verus!
