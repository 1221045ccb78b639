//! The response headers both endpoints emit: cache suppression on every
//! response, and a `WWW-Authenticate: Basic` challenge on 401.

use vstd::prelude::*;

verus! {

/// The value of a `WWW-Authenticate` challenge header.
pub struct WWWAuthenticate(pub String);

impl WWWAuthenticate {
    /// The one challenge this service issues.
    pub fn basic() -> (r: WWWAuthenticate)
        ensures
            r.0@ == "Basic"@,
    {
        WWWAuthenticate("Basic".to_owned())
    }

    pub fn header_name() -> (r: &'static str)
        ensures
            r@ == "WWW-Authenticate"@,
    {
        "WWW-Authenticate"
    }
}

/// `Cache-Control` value on every response: token material must never be
/// cached.
pub fn cache_control_value() -> (r: &'static str)
    ensures
        r@ == "no-cache, no-store"@,
{
    "no-cache, no-store"
}

/// `Pragma` value on every response.
pub fn pragma_value() -> (r: &'static str)
    ensures
        r@ == "no-cache"@,
{
    "no-cache"
}

/// Whether a response with this status carries the `WWW-Authenticate`
/// challenge: exactly the 401 of `invalid_client`.
pub fn www_authenticate_required(status: u16) -> (r: bool)
    ensures
        r == (status == 401),
{
    status == 401
}

} // verus!
