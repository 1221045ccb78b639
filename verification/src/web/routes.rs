//! The full pipeline of each endpoint: from the raw `Authorization` header
//! value and the form-encoded body text to the response. Whatever parsing
//! refuses — a missing or malformed header, an unusable body — is
//! classified here exactly as the endpoints' contracts say.

use vstd::prelude::*;

use crate::handlers::introspect::{introspection_active, spec_found_access_token};
use crate::handlers::token::token_post_outcome;
use crate::models::authorization_token::{spec_basic_credentials, AuthorizationToken};
use crate::models::configuration::OauthSettings;
use crate::models::requests::{AccessTokenRequest, IntrospectionRequest};
use crate::models::responses::{AccessTokenResponse, IntrospectionErrResponse,
    IntrospectionOkResponse, OAuth2ErrorResponse, ServiceUnavailable};
use crate::persistence::TokenStore;
use crate::token_value::uuid_canon_of;
use crate::utils::spec_authed_client;
use crate::web::utils::{extract_access_token_request, extract_auth_credentials,
    extract_introspection_request, spec_atr_err, spec_atr_ok, spec_ir_err, spec_ir_ok};

verus! {

/// The credentials an optional `Authorization` header carries, if any.
pub open spec fn spec_header_auth(h: Option<&str>) -> Option<(Seq<char>, Seq<char>)> {
    match h {
        None => None,
        Some(s) => spec_basic_credentials(s@),
    }
}

/// The token endpoint, end to end. A missing or malformed `Authorization`
/// header is `invalid_client` with the store untouched; otherwise the
/// result is the handler's outcome for the extracted request and the parsed
/// credentials.
pub fn token(
    store: &mut TokenStore,
    config: &OauthSettings,
    authorization: Option<&str>,
    body: &str,
) -> (r: Result<Result<AccessTokenResponse, OAuth2ErrorResponse>, ServiceUnavailable>)
    requires
        old(store).wf(),
        config.valid(),
    ensures
        final(store).wf(),
        r matches Err(_) ==> *final(store) == *old(store),
        spec_header_auth(authorization) is None ==> *final(store) == *old(store) && (
        r matches Ok(inner) && inner matches Err(e) && e == OAuth2ErrorResponse::InvalidClient),
        spec_header_auth(authorization) matches Some(creds) ==> exists|
            q: Option<AccessTokenRequest>,
            a: AuthorizationToken,
        |
            a.user@ == creds.0 && a.pass@ == creds.1 && (match q {
                Some(qq) => spec_atr_ok(qq, body@),
                None => spec_atr_err(body@),
            }) && #[trigger] token_post_outcome(
                *old(store),
                *final(store),
                *config,
                q,
                Some(a),
                r,
            ),
{
    let auth = extract_auth_credentials(authorization);
    let req = match extract_access_token_request(body) {
        Ok(q) => Some(q),
        Err(_) => None,
    };
    let ghost auth_snap = auth;
    let ghost req_snap = req;
    let r = crate::handlers::token::post(store, config, req, auth);
    proof {
        if spec_header_auth(authorization) is Some {
            assert(auth_snap is Some);
            assert(token_post_outcome(
                *old(store),
                *store,
                *config,
                req_snap,
                Some(auth_snap->0),
                r,
            ));
        }
    }
    r
}

/// The introspection endpoint, end to end. A missing or malformed header,
/// or a body the extractor refuses, is `{active: false}` like every other
/// failure; an active answer means some clock reading satisfied
/// [`introspection_active`] for the extracted request and parsed
/// credentials, and the fields come from the stored token and the
/// authenticated client.
pub fn introspect(store: &TokenStore, authorization: Option<&str>, body: &str) -> (r: Result<
    IntrospectionOkResponse,
    IntrospectionErrResponse,
>)
    requires
        store.wf(),
    ensures
        r matches Err(e) ==> e.active == false,
        spec_header_auth(authorization) is None ==> r matches Err(_),
        spec_ir_err(body@) ==> r matches Err(_),
        r matches Ok(resp) ==> exists|q: IntrospectionRequest, a: AuthorizationToken, now: i64|
            spec_header_auth(authorization) == Some((a.user@, a.pass@)) && spec_ir_ok(q, body@)
                && #[trigger] introspection_active(*store, q, a, now) && resp.active == true && {
                let t = spec_found_access_token(*store, uuid_canon_of(q.token@)->0);
                &&& resp.scope == Some(t.scope)
                &&& resp.client_id == Some(spec_authed_client(*store, a.user@, a.pass@).identifier)
                &&& resp.exp == Some(t.expires_at)
                &&& resp.iat == Some(t.issued_at)
            },
{
    let auth = extract_auth_credentials(authorization);
    let req = match extract_introspection_request(body) {
        Ok(q) => Some(q),
        Err(_) => None,
    };
    let ghost auth_snap = auth;
    let ghost req_snap = req;
    let r = crate::handlers::introspect::post(store, req, auth);
    proof {
        if r is Ok {
            assert(auth_snap is Some && req_snap is Some);
        }
    }
    r
}

} // verus!
