//! The grant flows of the token endpoint: `client_credentials` and
//! `refresh_token`. Each is specified against the store it starts from, the
//! clock reading, and the token values minted for it, so its whole effect —
//! response and store change — is pinned down.

use vstd::prelude::*;

use crate::models::configuration::OauthSettings;
use crate::models::db::{AccessToken, RefreshToken};
use crate::models::requests::AccessTokenRequest;
use crate::models::authorization_token::AuthorizationToken;
use crate::models::responses::{AccessTokenResponse, OAuth2ErrorResponse};
use crate::persistence::TokenStore;
use crate::strutil::str_eq;
use crate::token_value::uuid_canon_of;
use crate::utils::{check_client_credentials, check_grant_type, check_refresh_token, check_scope,
    generate_access_token, generate_refresh_token, generate_token_response,
    get_grant_type_by_name, scope_subset, spec_authed_client, spec_creds_ok,
    spec_found_refresh_token, spec_grant_by_name, spec_refresh_token_ok};

verus! {

/// What a `client_credentials` issuance needs of its environment: a
/// non-negative clock whose TTL sums fit, two fresh distinct token values,
/// and room for two more record ids.
pub open spec fn cc_admissible(
    pre: TokenStore,
    config: OauthSettings,
    now: i64,
    at_val: Seq<char>,
    rt_val: Seq<char>,
) -> bool {
    &&& 0 <= now
    &&& now + config.access_token_ttl <= i64::MAX
    &&& config.refresh_token_ttl == -1 || now + config.refresh_token_ttl <= i64::MAX
    &&& !pre.token_value_used(at_val)
    &&& !pre.token_value_used(rt_val)
    &&& at_val != rt_val
    &&& pre.next_access_token_id < i32::MAX
    &&& pre.next_refresh_token_id < i32::MAX
}

/// The entire effect of a `client_credentials` call: how the store after
/// (`post`) and the result relate to the store before (`pre`), given the
/// clock reading and the two minted token values.
pub open spec fn cc_outcome(
    pre: TokenStore,
    post: TokenStore,
    config: OauthSettings,
    req: AccessTokenRequest,
    auth: AuthorizationToken,
    now: i64,
    at_val: String,
    rt_val: String,
    r: Result<AccessTokenResponse, OAuth2ErrorResponse>,
) -> bool {
    if req.scope is None || req.scope->0@.len() == 0 {
        post == pre && (r matches Err(e) && e == OAuth2ErrorResponse::InvalidRequest)
    } else if !spec_creds_ok(pre, auth.user@, auth.pass@) {
        post == pre && (r matches Err(e) && e == OAuth2ErrorResponse::InvalidClient)
    } else if spec_authed_client(pre, auth.user@, auth.pass@).response_type@ != "confidential"@ {
        post == pre && (r matches Err(e) && e == OAuth2ErrorResponse::UnauthorizedClient)
    } else if !pre.has_grant_type("client_credentials"@) {
        post == pre && (r matches Err(e) && e == OAuth2ErrorResponse::InvalidGrant)
    } else {
        let c = spec_authed_client(pre, auth.user@, auth.pass@);
        let g = spec_grant_by_name(pre, "client_credentials"@);
        let at = AccessToken {
            id: pre.next_access_token_id,
            token: at_val,
            client_id: c.id,
            grant_id: g.id,
            scope: req.scope->0,
            issued_at: now,
            expires_at: (now + config.access_token_ttl) as i64,
        };
        let rt = RefreshToken {
            id: pre.next_refresh_token_id,
            token: rt_val,
            client_id: c.id,
            scope: req.scope->0,
            issued_at: now,
            expires_at: if config.refresh_token_ttl == -1 {
                None
            } else {
                Some((now + config.refresh_token_ttl) as i64)
            },
        };
        &&& post.access_tokens@ == pre.access_tokens@.push(at)
        &&& post.refresh_tokens@ == pre.refresh_tokens@.push(rt)
        &&& post.clients@ == pre.clients@
        &&& post.grant_types@ == pre.grant_types@
        &&& post.next_access_token_id == pre.next_access_token_id + 1
        &&& post.next_refresh_token_id == pre.next_refresh_token_id + 1
        &&& r matches Ok(resp) && resp.token_type@ == "Bearer"@ && resp.expires_in
            == config.access_token_ttl && resp.access_token == at_val && resp.scope
            == req.scope->0 && resp.refresh_token == Some(rt_val) && resp.refresh_expires_in == (
        if config.refresh_token_ttl == -1 {
            None::<i64>
        } else {
            Some(config.refresh_token_ttl)
        })
    }
}

/// Processes a `client_credentials` request. The caller dispatches on the
/// grant type, reads the clock, and mints the two token values; given those,
/// the whole outcome is [`cc_outcome`].
///
/// A request without a scope, or with an empty one, is rejected as
/// `invalid_request`: an empty scope is not issuable under this grant.
pub fn client_credentials(
    store: &mut TokenStore,
    config: &OauthSettings,
    req: AccessTokenRequest,
    auth: AuthorizationToken,
    now: i64,
    at_val: String,
    rt_val: String,
) -> (r: Result<AccessTokenResponse, OAuth2ErrorResponse>)
    requires
        old(store).wf(),
        config.valid(),
        cc_admissible(*old(store), *config, now, at_val@, rt_val@),
        req.grant_type matches Some(g) && g@ == "client_credentials"@,
    ensures
        final(store).wf(),
        cc_outcome(*old(store), *final(store), *config, req, auth, now, at_val, rt_val, r),
{
    let scope: String = match req.scope {
        None => {
            return Err(OAuth2ErrorResponse::InvalidRequest);
        },
        Some(s) => s,
    };
    if scope.as_str().is_empty() {
        return Err(OAuth2ErrorResponse::InvalidRequest);
    }
    let client = match check_client_credentials(store, auth.user.as_str(), auth.pass.as_str()) {
        Ok(c) => c,
        Err(e) => {
            return Err(e);
        },
    };
    if !str_eq(client.response_type.as_str(), "confidential") {
        return Err(OAuth2ErrorResponse::UnauthorizedClient);
    }
    let grant = match check_grant_type(store, "client_credentials") {
        Ok(g) => g,
        Err(e) => {
            return Err(e);
        },
    };
    proof {
        let picked = spec_grant_by_name(*store, "client_credentials"@);
        assert(store.grant_types@.contains(grant) && grant.name@ == "client_credentials"@);
        store.lemma_grant_type_unique(picked, grant);
    }
    let ghost pre = *store;
    let at = generate_access_token(store, config, &client, &grant, scope.clone(), now, at_val);
    proof {
        assert forall|i: int| 0 <= i < store.access_tokens@.len()
            implies store.access_tokens@[i].token@ != rt_val@ by {
            if i < pre.access_tokens@.len() {
                assert(store.access_tokens@[i] == pre.access_tokens@[i]);
            } else {
                assert(store.access_tokens@[i] == at);
            }
        }
    }
    let rt = generate_refresh_token(store, config, &client, scope.clone(), now, rt_val);
    let resp = generate_token_response(at, Some(rt), now);
    Ok(resp)
}

/// What a `refresh_token` issuance needs of its environment: a non-negative
/// clock whose access-TTL sum fits, a fresh token value, and room for one
/// more record id.
pub open spec fn rt_admissible(
    pre: TokenStore,
    config: OauthSettings,
    now: i64,
    at_val: Seq<char>,
) -> bool {
    &&& 0 <= now
    &&& now + config.access_token_ttl <= i64::MAX
    &&& !pre.token_value_used(at_val)
    &&& pre.next_access_token_id < i32::MAX
}

/// The entire effect of a `refresh_token` call, as [`cc_outcome`] is for
/// `client_credentials`. The presented refresh token is returned unchanged —
/// never rotated or invalidated — and only a new access token is stored,
/// carrying the requested scope verbatim once it negotiates against the
/// stored one.
pub open spec fn rt_outcome(
    pre: TokenStore,
    post: TokenStore,
    config: OauthSettings,
    req: AccessTokenRequest,
    auth: AuthorizationToken,
    now: i64,
    at_val: String,
    r: Result<AccessTokenResponse, OAuth2ErrorResponse>,
) -> bool {
    if req.refresh_token is None || req.scope is None {
        post == pre && (r matches Err(e) && e == OAuth2ErrorResponse::InvalidRequest)
    } else if !spec_creds_ok(pre, auth.user@, auth.pass@) {
        post == pre && (r matches Err(e) && e == OAuth2ErrorResponse::InvalidClient)
    } else if !spec_refresh_token_ok(
        pre,
        spec_authed_client(pre, auth.user@, auth.pass@),
        req.refresh_token->0@,
        now,
    ) {
        post == pre && (r matches Err(e) && e == OAuth2ErrorResponse::InvalidRequest)
    } else {
        let c = spec_authed_client(pre, auth.user@, auth.pass@);
        let rt = spec_found_refresh_token(pre, uuid_canon_of(req.refresh_token->0@)->0);
        if !scope_subset(req.scope->0@, rt.scope@) {
            post == pre && (r matches Err(e) && e == OAuth2ErrorResponse::InvalidScope)
        } else {
            let g = spec_grant_by_name(pre, "refresh_token"@);
            let at = AccessToken {
                id: pre.next_access_token_id,
                token: at_val,
                client_id: c.id,
                grant_id: g.id,
                scope: req.scope->0,
                issued_at: now,
                expires_at: (now + config.access_token_ttl) as i64,
            };
            &&& post.access_tokens@ == pre.access_tokens@.push(at)
            &&& post.refresh_tokens@ == pre.refresh_tokens@
            &&& post.clients@ == pre.clients@
            &&& post.grant_types@ == pre.grant_types@
            &&& post.next_access_token_id == pre.next_access_token_id + 1
            &&& post.next_refresh_token_id == pre.next_refresh_token_id
            &&& r matches Ok(resp) && resp.token_type@ == "Bearer"@ && resp.expires_in
                == config.access_token_ttl && resp.access_token == at_val && resp.scope
                == req.scope->0 && resp.refresh_token == Some(rt.token)
                && resp.refresh_expires_in == (match rt.expires_at {
                None => None::<i64>,
                Some(e) => Some((e - now) as i64),
            })
        }
    }
}

/// Processes a `refresh_token` request; the caller dispatches, reads the
/// clock, and mints the new access-token value. The `refresh_token` grant
/// type must be registered: it is static reference data, and a store
/// provisioned without it cannot serve this flow at all.
pub fn refresh_token(
    store: &mut TokenStore,
    config: &OauthSettings,
    req: AccessTokenRequest,
    auth: AuthorizationToken,
    now: i64,
    at_val: String,
) -> (r: Result<AccessTokenResponse, OAuth2ErrorResponse>)
    requires
        old(store).wf(),
        config.valid(),
        rt_admissible(*old(store), *config, now, at_val@),
        old(store).has_grant_type("refresh_token"@),
        req.grant_type matches Some(g) && g@ == "refresh_token"@,
    ensures
        final(store).wf(),
        rt_outcome(*old(store), *final(store), *config, req, auth, now, at_val, r),
{
    if req.refresh_token.is_none() || req.scope.is_none() {
        return Err(OAuth2ErrorResponse::InvalidRequest);
    }
    let client = match check_client_credentials(store, auth.user.as_str(), auth.pass.as_str()) {
        Ok(c) => c,
        Err(e) => {
            return Err(e);
        },
    };
    let presented: String = match req.refresh_token {
        Some(t) => t,
        None => vstd::pervasive::unreached(),
    };
    let scope: String = match req.scope {
        Some(s) => s,
        None => vstd::pervasive::unreached(),
    };
    let rt = match check_refresh_token(store, &client, presented.as_str(), now) {
        Ok(t) => t,
        Err(e) => {
            return Err(e);
        },
    };
    match check_scope(scope.as_str(), rt.scope.as_str()) {
        Ok(_) => {},
        Err(e) => {
            return Err(e);
        },
    }
    let grant = get_grant_type_by_name(store, "refresh_token");
    proof {
        let picked = spec_grant_by_name(*store, "refresh_token"@);
        assert(store.grant_types@.contains(grant) && grant.name@ == "refresh_token"@);
        store.lemma_grant_type_unique(picked, grant);
        let k = choose|k: int|
            0 <= k < store.refresh_tokens@.len() && store.refresh_tokens@[k] == rt;
        assert(0 <= store.refresh_tokens@[k].issued_at);
    }
    let at = generate_access_token(store, config, &client, &grant, scope.clone(), now, at_val);
    let resp = generate_token_response(at, Some(rt), now);
    Ok(resp)
}

/// A `client_credentials` call by an authenticated client that is not
/// `confidential` is always refused as `unauthorized_client`, whatever the
/// requested scope holds and whether or not the grant type is registered —
/// provided the request does carry a non-empty scope, since a missing or
/// empty scope is refused as `invalid_request` before the client is looked
/// at.
pub proof fn lemma_non_confidential_client_denied(
    pre: TokenStore,
    post: TokenStore,
    config: OauthSettings,
    req: AccessTokenRequest,
    auth: AuthorizationToken,
    now: i64,
    at_val: String,
    rt_val: String,
    r: Result<AccessTokenResponse, OAuth2ErrorResponse>,
)
    requires
        cc_outcome(pre, post, config, req, auth, now, at_val, rt_val, r),
        req.scope matches Some(s) && s@.len() > 0,
        spec_creds_ok(pre, auth.user@, auth.pass@),
        spec_authed_client(pre, auth.user@, auth.pass@).response_type@ != "confidential"@,
    ensures
        r matches Err(e) && e == OAuth2ErrorResponse::UnauthorizedClient,
        post == pre,
{
}

/// A successful `client_credentials` call stores one new access token and
/// one new refresh token, both carrying the requested scope verbatim, with
/// `expires_at` equal to `issued_at` plus the configured TTL (absent for
/// the refresh token under the never-expires sentinel), and answers with
/// that scope and those lifetimes.
pub proof fn lemma_granted_token_lifetimes(
    pre: TokenStore,
    post: TokenStore,
    config: OauthSettings,
    req: AccessTokenRequest,
    auth: AuthorizationToken,
    now: i64,
    at_val: String,
    rt_val: String,
    r: Result<AccessTokenResponse, OAuth2ErrorResponse>,
)
    requires
        cc_admissible(pre, config, now, at_val@, rt_val@),
        cc_outcome(pre, post, config, req, auth, now, at_val, rt_val, r),
        r is Ok,
    ensures
        post.access_tokens@.len() == pre.access_tokens@.len() + 1,
        post.refresh_tokens@.len() == pre.refresh_tokens@.len() + 1,
        post.access_tokens@.last().issued_at == now,
        post.access_tokens@.last().expires_at == now + config.access_token_ttl,
        post.access_tokens@.last().scope == req.scope->0,
        post.refresh_tokens@.last().issued_at == now,
        post.refresh_tokens@.last().expires_at == (if config.refresh_token_ttl == -1 {
            None::<i64>
        } else {
            Some((now + config.refresh_token_ttl) as i64)
        }),
        post.refresh_tokens@.last().scope == req.scope->0,
        r->Ok_0.scope == req.scope->0,
        r->Ok_0.expires_in == config.access_token_ttl,
{
}

/// A `refresh_token` call whose requested scope is not included in the
/// stored refresh token's scope is always refused as `invalid_scope` —
/// provided the request passes the checks that come first: fields present,
/// credentials accepted, and the presented token valid, owned and live.
pub proof fn lemma_excess_scope_denied(
    pre: TokenStore,
    post: TokenStore,
    config: OauthSettings,
    req: AccessTokenRequest,
    auth: AuthorizationToken,
    now: i64,
    at_val: String,
    r: Result<AccessTokenResponse, OAuth2ErrorResponse>,
)
    requires
        rt_outcome(pre, post, config, req, auth, now, at_val, r),
        req.refresh_token is Some,
        req.scope is Some,
        spec_creds_ok(pre, auth.user@, auth.pass@),
        spec_refresh_token_ok(
            pre,
            spec_authed_client(pre, auth.user@, auth.pass@),
            req.refresh_token->0@,
            now,
        ),
        !scope_subset(
            req.scope->0@,
            spec_found_refresh_token(pre, uuid_canon_of(req.refresh_token->0@)->0).scope@,
        ),
    ensures
        r matches Err(e) && e == OAuth2ErrorResponse::InvalidScope,
        post == pre,
{
}

/// A `refresh_token` call presenting a token that belongs to a client other
/// than the authenticated caller never succeeds, whatever else the request
/// holds.
pub proof fn lemma_foreign_refresh_token_denied(
    pre: TokenStore,
    post: TokenStore,
    config: OauthSettings,
    req: AccessTokenRequest,
    auth: AuthorizationToken,
    now: i64,
    at_val: String,
    r: Result<AccessTokenResponse, OAuth2ErrorResponse>,
    t: RefreshToken,
)
    requires
        pre.wf(),
        rt_outcome(pre, post, config, req, auth, now, at_val, r),
        req.refresh_token matches Some(p) && uuid_canon_of(p@) == Some(t.token@),
        pre.refresh_tokens@.contains(t),
        t.client_id != spec_authed_client(pre, auth.user@, auth.pass@).id,
    ensures
        !(r is Ok),
        post == pre,
{
    let c = spec_authed_client(pre, auth.user@, auth.pass@);
    if req.scope is None {
    } else if !spec_creds_ok(pre, auth.user@, auth.pass@) {
    } else if !spec_refresh_token_ok(pre, c, req.refresh_token->0@, now) {
    } else {
        let i = choose|i: int|
            0 <= i < pre.refresh_tokens@.len() && pre.refresh_tokens@[i].token@ == uuid_canon_of(
                req.refresh_token->0@,
            )->0 && pre.refresh_tokens@[i].client_id == c.id && pre.refresh_tokens@[i].live_at(now);
        assert(pre.refresh_tokens@.contains(pre.refresh_tokens@[i]));
        pre.lemma_refresh_token_unique(pre.refresh_tokens@[i], t);
        assert(false);
    }
}

} // verus!
