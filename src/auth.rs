//! Bearer-token claims and the stream subscription query.
use vstd::prelude::*;

verus! {

/// Claims carried by a bearer token.
#[derive(Clone, Debug)]
pub struct Claims {
    /// The user's identifier.
    pub sub: String,
    pub email: String,
    pub role: String,
    /// Expiry, in seconds since the Unix epoch.
    pub exp: usize,
}

/// Query of an event-stream upgrade: the bearer token.
#[derive(Clone, Debug)]
pub struct WsQuery {
    pub token: String,
}

} // verus!
