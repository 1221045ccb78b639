//! The two request DTOs, as handed to the engine after the transport layer
//! has decoded the form body.

use vstd::prelude::*;

verus! {

/// A token-endpoint request. Every field is optional on the wire; the grant
/// flows reject what they miss. `code` belongs to the unimplemented
/// `authorization_code` grant and is never read.
pub struct AccessTokenRequest {
    pub grant_type: Option<String>,
    pub scope: Option<String>,
    pub refresh_token: Option<String>,
    pub code: Option<String>,
}

/// An introspection-endpoint request. `token_type_hint` is accepted and
/// ignored.
pub struct IntrospectionRequest {
    pub token: String,
    pub token_type_hint: Option<String>,
}

} // verus!
