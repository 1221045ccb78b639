//! Extraction of the request DTOs from what the transport hands over: the
//! raw `Authorization` header value, and the form-encoded body text.

use vstd::prelude::*;
use vstd::string::StringSliceAdditionalSpecFns;
use vstd::utf8::{decode_utf8, encode_utf8, valid_utf8};

use crate::encoding::string_from_utf8;
use crate::form::{form_value, spec_form_value};
use crate::models::authorization_token::{spec_basic_credentials, AuthorizationToken};
use crate::models::requests::{AccessTokenRequest, IntrospectionRequest};
use crate::models::responses::OAuth2ErrorResponse;

verus! {

/// The decoded bytes stored under `key` in the form body `body`, if any.
pub open spec fn spec_field(body: Seq<char>, key: Seq<char>) -> Option<Seq<u8>> {
    spec_form_value(encode_utf8(body), encode_utf8(key))
}

/// An extracted optional field matches the raw lookup: absent together, or
/// present with the value being the UTF-8 reading of the decoded bytes.
pub open spec fn field_decodes(f: Option<String>, v: Option<Seq<u8>>) -> bool {
    match v {
        None => f is None,
        Some(b) => valid_utf8(b) && (f matches Some(s) && s@ == decode_utf8(b)),
    }
}

/// A field is broken when present but not UTF-8 after decoding.
pub open spec fn field_broken(v: Option<Seq<u8>>) -> bool {
    v matches Some(b) && !valid_utf8(b)
}

/// A successful token-request extraction: the body is non-empty and every
/// field of `q` matches its form lookup.
pub open spec fn spec_atr_ok(q: AccessTokenRequest, body: Seq<char>) -> bool {
    &&& body.len() > 0
    &&& field_decodes(q.grant_type, spec_field(body, "grant_type"@))
    &&& field_decodes(q.scope, spec_field(body, "scope"@))
    &&& field_decodes(q.refresh_token, spec_field(body, "refresh_token"@))
    &&& field_decodes(q.code, spec_field(body, "code"@))
}

/// A refused token-request extraction: empty body, or a broken field.
pub open spec fn spec_atr_err(body: Seq<char>) -> bool {
    ||| body.len() == 0
    ||| field_broken(spec_field(body, "grant_type"@))
    ||| field_broken(spec_field(body, "scope"@))
    ||| field_broken(spec_field(body, "refresh_token"@))
    ||| field_broken(spec_field(body, "code"@))
}

/// A successful introspection-request extraction: non-empty body, required
/// `token`, and a matching optional hint.
pub open spec fn spec_ir_ok(q: IntrospectionRequest, body: Seq<char>) -> bool {
    &&& body.len() > 0
    &&& spec_field(body, "token"@) matches Some(b) && valid_utf8(b) && q.token@ == decode_utf8(b)
    &&& field_decodes(q.token_type_hint, spec_field(body, "token_type_hint"@))
}

/// A refused introspection-request extraction: empty body, missing `token`,
/// or a broken field.
pub open spec fn spec_ir_err(body: Seq<char>) -> bool {
    ||| body.len() == 0
    ||| spec_field(body, "token"@) is None
    ||| field_broken(spec_field(body, "token"@))
    ||| field_broken(spec_field(body, "token_type_hint"@))
}

fn get_field(bytes: &Vec<u8>, key: &str) -> (r: Result<Option<String>, OAuth2ErrorResponse>)
    ensures
        match r {
            Ok(f) => field_decodes(f, spec_form_value(bytes@, key.spec_bytes())),
            Err(e) => e == OAuth2ErrorResponse::InvalidRequest && field_broken(
                spec_form_value(bytes@, key.spec_bytes()),
            ),
        },
{
    let key_bytes = key.as_bytes_vec();
    match form_value(bytes, &key_bytes) {
        None => Ok(None),
        Some(v) => match string_from_utf8(v) {
            Some(s) => Ok(Some(s)),
            None => Err(OAuth2ErrorResponse::InvalidRequest),
        },
    }
}

/// Attempts to extract the parsed Basic credentials from an incoming
/// request's `Authorization` header, if it carries one.
pub fn extract_auth_credentials(header: Option<&str>) -> (r: Option<AuthorizationToken>)
    ensures
        match header {
            None => r is None,
            Some(h) => match r {
                Some(t) => spec_basic_credentials(h@) == Some((t.user@, t.pass@)),
                None => spec_basic_credentials(h@) is None,
            },
        },
{
    match header {
        None => None,
        Some(h) => AuthorizationToken::from_header_value(h),
    }
}

/// Attempts to extract an [`AccessTokenRequest`] from a form body. An empty
/// body, or a field that decodes to bytes that are not UTF-8, is
/// `invalid_request`; fields the body lacks stay `None`.
pub fn extract_access_token_request(body: &str) -> (r: Result<
    AccessTokenRequest,
    OAuth2ErrorResponse,
>)
    ensures
        match r {
            Ok(q) => spec_atr_ok(q, body@),
            Err(e) => e == OAuth2ErrorResponse::InvalidRequest && spec_atr_err(body@),
        },
{
    if body.is_empty() {
        return Err(OAuth2ErrorResponse::InvalidRequest);
    }
    let bytes = body.as_bytes_vec();
    let grant_type = match get_field(&bytes, "grant_type") {
        Ok(f) => f,
        Err(e) => {
            return Err(e);
        },
    };
    let scope = match get_field(&bytes, "scope") {
        Ok(f) => f,
        Err(e) => {
            return Err(e);
        },
    };
    let refresh_token = match get_field(&bytes, "refresh_token") {
        Ok(f) => f,
        Err(e) => {
            return Err(e);
        },
    };
    let code = match get_field(&bytes, "code") {
        Ok(f) => f,
        Err(e) => {
            return Err(e);
        },
    };
    Ok(AccessTokenRequest { grant_type, scope, refresh_token, code })
}

/// Attempts to extract an [`IntrospectionRequest`] from a form body. The
/// `token` field is required; `token_type_hint` is optional.
pub fn extract_introspection_request(body: &str) -> (r: Result<
    IntrospectionRequest,
    OAuth2ErrorResponse,
>)
    ensures
        match r {
            Ok(q) => spec_ir_ok(q, body@),
            Err(e) => e == OAuth2ErrorResponse::InvalidRequest && spec_ir_err(body@),
        },
{
    if body.is_empty() {
        return Err(OAuth2ErrorResponse::InvalidRequest);
    }
    let bytes = body.as_bytes_vec();
    let token = match get_field(&bytes, "token") {
        Ok(Some(t)) => t,
        Ok(None) => {
            return Err(OAuth2ErrorResponse::InvalidRequest);
        },
        Err(e) => {
            return Err(e);
        },
    };
    let token_type_hint = match get_field(&bytes, "token_type_hint") {
        Ok(f) => f,
        Err(e) => {
            return Err(e);
        },
    };
    Ok(IntrospectionRequest { token, token_type_hint })
}

} // verus!
