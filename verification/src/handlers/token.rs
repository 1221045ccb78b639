//! The token endpoint: grant-type dispatch around the two grant flows.
//! This is where the ambient world is read — the clock, and fresh token
//! values — so the flows themselves stay deterministic and fully specified.

use vstd::prelude::*;

use crate::clock::now_epoch_seconds;
use crate::models::authorization_token::AuthorizationToken;
use crate::models::configuration::OauthSettings;
use crate::models::requests::AccessTokenRequest;
use crate::models::responses::{AccessTokenResponse, OAuth2ErrorResponse, ServiceUnavailable};
use crate::persistence::TokenStore;
use crate::strutil::str_eq;
use crate::token_value::mint_token_value;
use crate::utils::token::{cc_admissible, cc_outcome, client_credentials, refresh_token,
    rt_admissible, rt_outcome};

verus! {

/// The closed set of grant types the token endpoint recognizes, dispatched
/// exhaustively: the two live grants, the deliberately unimplemented
/// `authorization_code`, and everything else.
#[derive(Clone, Copy, PartialEq, Eq, Structural, Debug)]
pub enum GrantKind {
    ClientCredentials,
    RefreshToken,
    /// Recognized but unimplemented: always refused as
    /// `unsupported_grant_type`, even when its fields are present, rather
    /// than validated for a path that can never succeed.
    AuthorizationCode,
    Unrecognized,
}

pub open spec fn spec_grant_kind(name: Seq<char>) -> GrantKind {
    if name == "client_credentials"@ {
        GrantKind::ClientCredentials
    } else if name == "refresh_token"@ {
        GrantKind::RefreshToken
    } else if name == "authorization_code"@ {
        GrantKind::AuthorizationCode
    } else {
        GrantKind::Unrecognized
    }
}

pub fn grant_kind(name: &str) -> (r: GrantKind)
    ensures
        r == spec_grant_kind(name@),
{
    if str_eq(name, "client_credentials") {
        GrantKind::ClientCredentials
    } else if str_eq(name, "refresh_token") {
        GrantKind::RefreshToken
    } else if str_eq(name, "authorization_code") {
        GrantKind::AuthorizationCode
    } else {
        GrantKind::Unrecognized
    }
}

/// What the token endpoint guarantees: missing credentials, a missing
/// request body, and an absent or unrecognized grant type are classified
/// exactly; a dispatched grant behaves as its flow's outcome predicate says,
/// for whatever the clock and the token mint returned; and a service
/// failure leaves the store untouched.
pub open spec fn token_post_outcome(
    pre: TokenStore,
    post: TokenStore,
    config: OauthSettings,
    req: Option<AccessTokenRequest>,
    auth: Option<AuthorizationToken>,
    r: Result<Result<AccessTokenResponse, OAuth2ErrorResponse>, ServiceUnavailable>,
) -> bool {
    &&& r matches Err(_) ==> post == pre
    &&& match auth {
        None => post == pre && (r matches Ok(inner) && inner matches Err(e) && e
            == OAuth2ErrorResponse::InvalidClient),
        Some(a) => match req {
            None => post == pre && (r matches Ok(inner) && inner matches Err(e) && e
                == OAuth2ErrorResponse::InvalidRequest),
            Some(rq) => match rq.grant_type {
                None => post == pre && (r matches Ok(inner) && inner matches Err(e) && e
                    == OAuth2ErrorResponse::UnsupportedGrantType),
                Some(g) => if g@ == "client_credentials"@ {
                    r matches Ok(inner) ==> exists|now: i64, av: String, bv: String|
                        cc_admissible(pre, config, now, av@, bv@) && #[trigger] cc_outcome(
                            pre,
                            post,
                            config,
                            rq,
                            a,
                            now,
                            av,
                            bv,
                            inner,
                        )
                } else if g@ == "refresh_token"@ {
                    r matches Ok(inner) ==> pre.has_grant_type("refresh_token"@) && exists|
                        now: i64,
                        av: String,
                    |
                        rt_admissible(pre, config, now, av@) && #[trigger] rt_outcome(
                            pre,
                            post,
                            config,
                            rq,
                            a,
                            now,
                            av,
                            inner,
                        )
                } else {
                    post == pre && (r matches Ok(inner) && inner matches Err(e) && e
                        == OAuth2ErrorResponse::UnsupportedGrantType)
                },
            },
        },
    }
}

/// Handles a token request: requires Basic credentials and a request body,
/// dispatches on `grant_type` — `client_credentials` and `refresh_token`
/// are the two live grants, everything else (including the unimplemented
/// `authorization_code`) is `unsupported_grant_type` — and reads the clock
/// and the token mint for the dispatched flow.
pub fn post(
    store: &mut TokenStore,
    config: &OauthSettings,
    req: Option<AccessTokenRequest>,
    auth: Option<AuthorizationToken>,
) -> (r: Result<Result<AccessTokenResponse, OAuth2ErrorResponse>, ServiceUnavailable>)
    requires
        old(store).wf(),
        config.valid(),
    ensures
        final(store).wf(),
        token_post_outcome(*old(store), *final(store), *config, req, auth, r),
{
    let auth_token = match auth {
        Some(a) => a,
        None => {
            return Ok(Err(OAuth2ErrorResponse::InvalidClient));
        },
    };
    let request = match req {
        Some(q) => q,
        None => {
            return Ok(Err(OAuth2ErrorResponse::InvalidRequest));
        },
    };
    let kind = match &request.grant_type {
        Some(g) => grant_kind(g.as_str()),
        None => {
            return Ok(Err(OAuth2ErrorResponse::UnsupportedGrantType));
        },
    };
    match kind {
        GrantKind::ClientCredentials => {
            let now = now_epoch_seconds();
            if now < 0 || now > i64::MAX - config.access_token_ttl || (config.refresh_token_ttl
                != -1 && now > i64::MAX - config.refresh_token_ttl) {
                return Err(ServiceUnavailable);
            }
            if store.next_access_token_id == i32::MAX || store.next_refresh_token_id == i32::MAX {
                return Err(ServiceUnavailable);
            }
            let at_val = mint_token_value();
            let rt_val = mint_token_value();
            if store.is_token_value_used(at_val.as_str()) || store.is_token_value_used(
                rt_val.as_str(),
            ) || str_eq(at_val.as_str(), rt_val.as_str()) {
                return Err(ServiceUnavailable);
            }
            let inner = client_credentials(store, config, request, auth_token, now, at_val, rt_val);
            Ok(inner)
        },
        GrantKind::RefreshToken => {
            let now = now_epoch_seconds();
            if now < 0 || now > i64::MAX - config.access_token_ttl {
                return Err(ServiceUnavailable);
            }
            if store.next_access_token_id == i32::MAX {
                return Err(ServiceUnavailable);
            }
            if store.find_grant_type_by_name("refresh_token").is_none() {
                return Err(ServiceUnavailable);
            }
            let at_val = mint_token_value();
            if store.is_token_value_used(at_val.as_str()) {
                return Err(ServiceUnavailable);
            }
            let inner = refresh_token(store, config, request, auth_token, now, at_val);
            Ok(inner)
        },
        GrantKind::AuthorizationCode => Ok(Err(OAuth2ErrorResponse::UnsupportedGrantType)),
        GrantKind::Unrecognized => Ok(Err(OAuth2ErrorResponse::UnsupportedGrantType)),
    }
}

} // verus!
