//! The introspection endpoint. Every failure — bad credentials, a missing
//! or malformed token, an unknown token, a wrong owner, an expired token —
//! collapses to the one `{active: false}` body, so a caller learns nothing
//! about why.

use vstd::prelude::*;

use crate::clock::now_epoch_seconds;
use crate::crypto::bcrypt_verify_of;
use crate::models::authorization_token::AuthorizationToken;
use crate::models::configuration::OauthSettings;
use crate::models::db::AccessToken;
use crate::models::requests::{AccessTokenRequest, IntrospectionRequest};
use crate::models::responses::{AccessTokenResponse, IntrospectionErrResponse,
    IntrospectionOkResponse, OAuth2ErrorResponse};
use crate::persistence::TokenStore;
use crate::token_value::{canonical_token_value, uuid_canon_of};
use crate::utils::token::{cc_admissible, cc_outcome};
use crate::utils::{check_client_credentials, introspection_error, lemma_authed_client_is,
    spec_authed_client, spec_creds_ok};

verus! {

/// The stored access token carrying the canonical value `v`.
pub open spec fn spec_found_access_token(store: TokenStore, v: Seq<char>) -> AccessToken {
    choose|t: AccessToken| store.access_tokens@.contains(t) && t.token@ == v
}

/// When introspection reports a token active: the caller's credentials
/// authenticate some client, the presented text parses as a token value,
/// that value names a stored access token, the token belongs to the
/// authenticated client, and the current time is strictly before its
/// expiry.
pub open spec fn introspection_active(
    store: TokenStore,
    req: IntrospectionRequest,
    auth: AuthorizationToken,
    now: i64,
) -> bool {
    &&& spec_creds_ok(store, auth.user@, auth.pass@)
    &&& uuid_canon_of(req.token@) matches Some(v) && exists|i: int|
        0 <= i < store.access_tokens@.len() && (#[trigger] store.access_tokens@[i]).token@ == v
            && store.access_tokens@[i].client_id == spec_authed_client(
            store,
            auth.user@,
            auth.pass@,
        ).id && now < store.access_tokens@[i].expires_at
}

/// Introspects a presented token at time `now`. Exactly the requests
/// satisfying [`introspection_active`] get the active body, whose fields
/// come from the stored token and the authenticated client; every other
/// request gets `{active: false}`.
pub fn introspect(
    store: &TokenStore,
    req: IntrospectionRequest,
    auth: AuthorizationToken,
    now: i64,
) -> (r: Result<IntrospectionOkResponse, IntrospectionErrResponse>)
    requires
        store.wf(),
    ensures
        match r {
            Ok(resp) => introspection_active(*store, req, auth, now) && {
                let t = spec_found_access_token(*store, uuid_canon_of(req.token@)->0);
                &&& resp.active == true
                &&& resp.scope == Some(t.scope)
                &&& resp.client_id == Some(
                    spec_authed_client(*store, auth.user@, auth.pass@).identifier,
                )
                &&& resp.exp == Some(t.expires_at)
                &&& resp.iat == Some(t.issued_at)
            },
            Err(e) => e.active == false && !introspection_active(*store, req, auth, now),
        },
{
    let client = match check_client_credentials(store, auth.user.as_str(), auth.pass.as_str()) {
        Ok(c) => c,
        Err(_) => {
            return Err(introspection_error());
        },
    };
    let canon = match canonical_token_value(req.token.as_str()) {
        Some(v) => v,
        None => {
            return Err(introspection_error());
        },
    };
    let at = match store.find_access_token_by_value(canon.as_str()) {
        Some(t) => t,
        None => {
            proof {
                if introspection_active(*store, req, auth, now) {
                    let i = choose|i: int|
                        0 <= i < store.access_tokens@.len() && (
                        #[trigger] store.access_tokens@[i]).token@ == canon@
                            && store.access_tokens@[i].client_id == spec_authed_client(
                            *store,
                            auth.user@,
                            auth.pass@,
                        ).id && now < store.access_tokens@[i].expires_at;
                    assert(store.has_access_token(canon@));
                }
            }
            return Err(introspection_error());
        },
    };
    proof {
        if introspection_active(*store, req, auth, now) {
            let i = choose|i: int|
                0 <= i < store.access_tokens@.len() && (#[trigger] store.access_tokens@[i]).token@
                    == canon@ && store.access_tokens@[i].client_id == spec_authed_client(
                    *store,
                    auth.user@,
                    auth.pass@,
                ).id && now < store.access_tokens@[i].expires_at;
            assert(store.access_tokens@.contains(store.access_tokens@[i]));
            store.lemma_access_token_unique(store.access_tokens@[i], at);
        }
    }
    if client.id != at.client_id {
        return Err(introspection_error());
    }
    if !(now < at.expires_at) {
        return Err(introspection_error());
    }
    proof {
        let k = choose|k: int| 0 <= k < store.access_tokens@.len() && store.access_tokens@[k] == at;
        assert((#[trigger] store.access_tokens@[k]).token@ == canon@ && store.access_tokens@[k].client_id
            == spec_authed_client(*store, auth.user@, auth.pass@).id && now
            < store.access_tokens@[k].expires_at);
        store.lemma_access_token_unique(spec_found_access_token(*store, canon@), at);
    }
    Ok(
        IntrospectionOkResponse {
            active: true,
            scope: Some(at.scope),
            client_id: Some(client.identifier),
            exp: Some(at.expires_at),
            iat: Some(at.issued_at),
        },
    )
}

/// Handles an introspection request: absent credentials or an absent body
/// are failures like any other, and the clock is read here; given that
/// reading, the outcome is exactly [`introspect`]'s.
pub fn post(
    store: &TokenStore,
    req: Option<IntrospectionRequest>,
    auth: Option<AuthorizationToken>,
) -> (r: Result<IntrospectionOkResponse, IntrospectionErrResponse>)
    requires
        store.wf(),
    ensures
        r matches Err(e) ==> e.active == false,
        match (auth, req) {
            (Some(a), Some(q)) => r matches Ok(resp) ==> exists|now: i64|
                #[trigger] introspection_active(*store, q, a, now) && resp.active == true && {
                    let t = spec_found_access_token(*store, uuid_canon_of(q.token@)->0);
                    &&& resp.scope == Some(t.scope)
                    &&& resp.client_id == Some(spec_authed_client(*store, a.user@, a.pass@).identifier)
                    &&& resp.exp == Some(t.expires_at)
                    &&& resp.iat == Some(t.issued_at)
                },
            _ => r matches Err(_),
        },
{
    let auth_token = match auth {
        Some(a) => a,
        None => {
            return Err(introspection_error());
        },
    };
    let request = match req {
        Some(q) => q,
        None => {
            return Err(introspection_error());
        },
    };
    let now = now_epoch_seconds();
    introspect(store, request, auth_token, now)
}

/// An access token issued by a successful `client_credentials` call
/// introspects as active for the issuing client, at any time strictly
/// before its expiry — the token value is canonical as minted, so
/// presenting it verbatim finds the stored record, owned by the client the
/// same credentials authenticate.
pub proof fn lemma_granted_token_introspects_active(
    pre: TokenStore,
    post: TokenStore,
    config: OauthSettings,
    req: AccessTokenRequest,
    auth: AuthorizationToken,
    now: i64,
    at_val: String,
    rt_val: String,
    r: Result<AccessTokenResponse, OAuth2ErrorResponse>,
    q: IntrospectionRequest,
    later: i64,
)
    requires
        pre.wf(),
        post.wf(),
        cc_admissible(pre, config, now, at_val@, rt_val@),
        cc_outcome(pre, post, config, req, auth, now, at_val, rt_val, r),
        r is Ok,
        uuid_canon_of(at_val@) == Some(at_val@),
        q.token@ == at_val@,
        later < now + config.access_token_ttl,
    ensures
        introspection_active(post, q, auth, later),
{
    let c_pre = spec_authed_client(pre, auth.user@, auth.pass@);
    let i = choose|i: int|
        0 <= i < pre.clients@.len() && pre.clients@[i].identifier@ == auth.user@
            && bcrypt_verify_of(auth.pass@, pre.clients@[i].secret@) == Some(true);
    assert(post.clients@[i] == pre.clients@[i]);
    assert(pre.clients@.contains(pre.clients@[i]));
    lemma_authed_client_is(pre, auth.user@, auth.pass@, pre.clients@[i]);
    assert(post.clients@.contains(post.clients@[i]));
    lemma_authed_client_is(post, auth.user@, auth.pass@, post.clients@[i]);
    let k = post.access_tokens@.len() - 1;
    assert(post.access_tokens@[k].token@ == at_val@);
    assert(post.access_tokens@[k].client_id == spec_authed_client(post, auth.user@, auth.pass@).id);
    assert(later < post.access_tokens@[k].expires_at);
}

} // verus!
