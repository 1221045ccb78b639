//! Response DTOs of the two endpoints, and the OAuth2 error taxonomy with its
//! wire mapping (error code string and HTTP status).

use vstd::prelude::*;

verus! {

/// Successful token-endpoint response (RFC 6749 §5.1).
#[derive(Debug)]
pub struct AccessTokenResponse {
    pub token_type: String,
    pub expires_in: i64,
    pub access_token: String,
    pub scope: String,
    pub refresh_token: Option<String>,
    pub refresh_expires_in: Option<i64>,
}

/// Introspection response for a live, correctly-owned token.
#[derive(Debug)]
pub struct IntrospectionOkResponse {
    pub active: bool,
    pub scope: Option<String>,
    pub client_id: Option<String>,
    pub exp: Option<i64>,
    pub iat: Option<i64>,
}

/// Introspection response for every failure: exactly `{active: false}`,
/// whatever the cause, so a caller cannot tell "expired" from "wrong owner"
/// from "no such token".
#[derive(Debug)]
pub struct IntrospectionErrResponse {
    pub active: bool,
}

/// A persistence or environment failure: the clock or the freshly minted
/// token values were unusable, or the store cannot take another record.
/// Deliberately distinct from the OAuth2 error taxonomy — it maps to an
/// HTTP 5xx, never to an OAuth2 error body.
#[derive(Clone, Copy, PartialEq, Eq, Structural, Debug)]
pub struct ServiceUnavailable;

/// The OAuth2 error taxonomy of the token endpoint (RFC 6749 §5.2).
#[derive(Clone, Copy, PartialEq, Eq, Structural, Debug)]
pub enum OAuth2ErrorResponse {
    InvalidRequest,
    InvalidClient,
    InvalidGrant,
    UnauthorizedClient,
    UnsupportedGrantType,
    InvalidScope,
}

impl OAuth2ErrorResponse {
    /// The `error` code string sent in the JSON body for this variant.
    pub open spec fn spec_message(self) -> Seq<char> {
        match self {
            OAuth2ErrorResponse::InvalidRequest => "invalid_request"@,
            OAuth2ErrorResponse::InvalidClient => "invalid_client"@,
            OAuth2ErrorResponse::InvalidGrant => "invalid_grant"@,
            OAuth2ErrorResponse::UnauthorizedClient => "unauthorized_client"@,
            OAuth2ErrorResponse::UnsupportedGrantType => "unsupported_grant_type"@,
            OAuth2ErrorResponse::InvalidScope => "invalid_scope"@,
        }
    }

    pub fn message(&self) -> (r: &'static str)
        ensures
            r@ == self.spec_message(),
    {
        match *self {
            OAuth2ErrorResponse::InvalidRequest => "invalid_request",
            OAuth2ErrorResponse::InvalidClient => "invalid_client",
            OAuth2ErrorResponse::InvalidGrant => "invalid_grant",
            OAuth2ErrorResponse::UnauthorizedClient => "unauthorized_client",
            OAuth2ErrorResponse::UnsupportedGrantType => "unsupported_grant_type",
            OAuth2ErrorResponse::InvalidScope => "invalid_scope",
        }
    }

    /// HTTP status of the error response: 401 for `invalid_client` (which
    /// also carries a `WWW-Authenticate: Basic` header), 400 for the rest.
    pub open spec fn spec_http_status(self) -> u16 {
        if self == OAuth2ErrorResponse::InvalidClient {
            401
        } else {
            400
        }
    }

    pub fn http_status(&self) -> (r: u16)
        ensures
            r == self.spec_http_status(),
    {
        match *self {
            OAuth2ErrorResponse::InvalidClient => 401,
            _ => 400,
        }
    }
}

} // verus!
