//! The engine's components: credential verification, grant-type and
//! refresh-token validation, scope negotiation, and token issuance with its
//! response construction.

pub mod token;

use vstd::prelude::*;

use crate::crypto::{bcrypt_verify, bcrypt_verify_of};
use crate::models::configuration::OauthSettings;
use crate::models::db::{AccessToken, Client, GrantType, NewAccessToken, NewRefreshToken,
    RefreshToken};
use crate::models::responses::{AccessTokenResponse, IntrospectionErrResponse,
    OAuth2ErrorResponse};
use crate::persistence::TokenStore;
use crate::strutil::{contains_str, spec_split, split_str, views_of};
use crate::token_value::{canonical_token_value, uuid_canon_of};

verus! {

/// The uniform body of every failed introspection.
pub fn introspection_error() -> (r: IntrospectionErrResponse)
    ensures
        r.active == false,
{
    IntrospectionErrResponse { active: false }
}

/// Whether `user`/`pass` authenticate some stored client: the client exists
/// and bcrypt accepts the password against its stored hash.
pub open spec fn spec_creds_ok(store: TokenStore, user: Seq<char>, pass: Seq<char>) -> bool {
    exists|i: int|
        0 <= i < store.clients@.len() && store.clients@[i].identifier@ == user
            && bcrypt_verify_of(pass, store.clients@[i].secret@) == Some(true)
}

/// The client `user`/`pass` authenticate, when [`spec_creds_ok`] holds.
pub open spec fn spec_authed_client(store: TokenStore, user: Seq<char>, pass: Seq<char>) -> Client {
    choose|c: Client|
        store.clients@.contains(c) && c.identifier@ == user && bcrypt_verify_of(pass, c.secret@)
            == Some(true)
}

/// A client that authenticates is the authenticated client.
pub proof fn lemma_authed_client_is(store: TokenStore, user: Seq<char>, pass: Seq<char>, c: Client)
    requires
        store.wf(),
        store.clients@.contains(c),
        c.identifier@ == user,
        bcrypt_verify_of(pass, c.secret@) == Some(true),
    ensures
        spec_creds_ok(store, user, pass),
        spec_authed_client(store, user, pass) == c,
{
    let i = choose|i: int| 0 <= i < store.clients@.len() && store.clients@[i] == c;
    assert(store.clients@[i].identifier@ == user && bcrypt_verify_of(pass, store.clients@[i].secret@)
        == Some(true));
    let picked = spec_authed_client(store, user, pass);
    assert(store.clients@.contains(c) && c.identifier@ == user && bcrypt_verify_of(pass, c.secret@)
        == Some(true));
    store.lemma_client_unique(picked, c);
}

/// Credential verification. An unknown identifier and a rejected password
/// collapse to the one `invalid_client` error, so a caller cannot probe
/// which identifiers exist.
pub fn check_client_credentials(store: &TokenStore, client_id: &str, client_secret: &str) -> (r:
    Result<Client, OAuth2ErrorResponse>)
    requires
        store.wf(),
    ensures
        match r {
            Ok(c) => store.clients@.contains(c) && c.identifier@ == client_id@ && bcrypt_verify_of(
                client_secret@,
                c.secret@,
            ) == Some(true) && c == spec_authed_client(*store, client_id@, client_secret@),
            Err(e) => e == OAuth2ErrorResponse::InvalidClient && !spec_creds_ok(
                *store,
                client_id@,
                client_secret@,
            ),
        },
{
    let c = match store.find_client_by_identifier(client_id) {
        Some(c) => c,
        None => {
            proof {
                if spec_creds_ok(*store, client_id@, client_secret@) {
                    let i = choose|i: int|
                        0 <= i < store.clients@.len() && store.clients@[i].identifier@ == client_id@
                            && bcrypt_verify_of(client_secret@, store.clients@[i].secret@) == Some(
                            true,
                        );
                    assert(store.has_client(client_id@));
                }
            }
            return Err(OAuth2ErrorResponse::InvalidClient);
        },
    };
    match bcrypt_verify(client_secret, c.secret.as_str()) {
        Some(true) => {
            proof {
                lemma_authed_client_is(*store, client_id@, client_secret@, c);
            }
            Ok(c)
        },
        _ => {
            proof {
                if spec_creds_ok(*store, client_id@, client_secret@) {
                    let i = choose|i: int|
                        0 <= i < store.clients@.len() && store.clients@[i].identifier@ == client_id@
                            && bcrypt_verify_of(client_secret@, store.clients@[i].secret@) == Some(
                            true,
                        );
                    assert(store.clients@.contains(store.clients@[i]));
                    store.lemma_client_unique(store.clients@[i], c);
                }
            }
            Err(OAuth2ErrorResponse::InvalidClient)
        },
    }
}

/// The stored grant type carrying `name`, when [`TokenStore::has_grant_type`]
/// holds of it.
pub open spec fn spec_grant_by_name(store: TokenStore, name: Seq<char>) -> GrantType {
    choose|g: GrantType| store.grant_types@.contains(g) && g.name@ == name
}

/// Grant-type lookup; an unknown name is `invalid_grant`.
pub fn check_grant_type(store: &TokenStore, grant_type: &str) -> (r: Result<
    GrantType,
    OAuth2ErrorResponse,
>)
    ensures
        match r {
            Ok(g) => store.grant_types@.contains(g) && g.name@ == grant_type@,
            Err(e) => e == OAuth2ErrorResponse::InvalidGrant && !store.has_grant_type(grant_type@),
        },
{
    match store.find_grant_type_by_name(grant_type) {
        Some(g) => Ok(g),
        None => Err(OAuth2ErrorResponse::InvalidGrant),
    }
}

/// Grant-type lookup where the name is known to be registered.
pub fn get_grant_type_by_name(store: &TokenStore, name: &str) -> (r: GrantType)
    requires
        store.has_grant_type(name@),
    ensures
        store.grant_types@.contains(r) && r.name@ == name@,
{
    match store.find_grant_type_by_name(name) {
        Some(g) => g,
        None => vstd::pervasive::unreached(),
    }
}

/// Whether the presented refresh-token text names a stored refresh token
/// owned by `client` and live at `now`.
pub open spec fn spec_refresh_token_ok(
    store: TokenStore,
    client: Client,
    token: Seq<char>,
    now: i64,
) -> bool {
    uuid_canon_of(token) matches Some(v) && exists|i: int|
        0 <= i < store.refresh_tokens@.len() && store.refresh_tokens@[i].token@ == v
            && store.refresh_tokens@[i].client_id == client.id && store.refresh_tokens@[i].live_at(
            now,
        )
}

/// The stored refresh token carrying the canonical value `v`.
pub open spec fn spec_found_refresh_token(store: TokenStore, v: Seq<char>) -> RefreshToken {
    choose|t: RefreshToken| store.refresh_tokens@.contains(t) && t.token@ == v
}

/// Refresh-token validation: the presented text must parse as a token
/// value, name a stored refresh token, belong to `client`, and be live at
/// `now`; every violation collapses to `invalid_request`.
pub fn check_refresh_token(store: &TokenStore, client: &Client, token: &str, now: i64) -> (r:
    Result<RefreshToken, OAuth2ErrorResponse>)
    requires
        store.wf(),
    ensures
        match r {
            Ok(t) => store.refresh_tokens@.contains(t) && uuid_canon_of(token@) == Some(t.token@)
                && t.client_id == client.id && t.live_at(now) && t == spec_found_refresh_token(
                *store,
                t.token@,
            ),
            Err(e) => e == OAuth2ErrorResponse::InvalidRequest && !spec_refresh_token_ok(
                *store,
                *client,
                token@,
                now,
            ),
        },
{
    let canon = match canonical_token_value(token) {
        Some(v) => v,
        None => {
            return Err(OAuth2ErrorResponse::InvalidRequest);
        },
    };
    let t = match store.find_refresh_token_by_value(canon.as_str()) {
        Some(t) => t,
        None => {
            proof {
                if spec_refresh_token_ok(*store, *client, token@, now) {
                    let i = choose|i: int|
                        0 <= i < store.refresh_tokens@.len() && store.refresh_tokens@[i].token@
                            == canon@ && store.refresh_tokens@[i].client_id == client.id
                            && store.refresh_tokens@[i].live_at(now);
                    assert(store.has_refresh_token(canon@));
                }
            }
            return Err(OAuth2ErrorResponse::InvalidRequest);
        },
    };
    proof {
        if spec_refresh_token_ok(*store, *client, token@, now) {
            let i = choose|i: int|
                0 <= i < store.refresh_tokens@.len() && store.refresh_tokens@[i].token@ == canon@
                    && store.refresh_tokens@[i].client_id == client.id
                    && store.refresh_tokens@[i].live_at(now);
            assert(store.refresh_tokens@.contains(store.refresh_tokens@[i]));
            store.lemma_refresh_token_unique(store.refresh_tokens@[i], t);
        }
    }
    if t.client_id != client.id {
        return Err(OAuth2ErrorResponse::InvalidRequest);
    }
    let live = match t.expires_at {
        None => true,
        Some(e) => now < e,
    };
    if !live {
        return Err(OAuth2ErrorResponse::InvalidRequest);
    }
    proof {
        store.lemma_refresh_token_unique(spec_found_refresh_token(*store, t.token@), t);
    }
    Ok(t)
}

/// The whitespace tokens of a scope string: split on the space character.
pub open spec fn scope_tokens(s: Seq<char>) -> Seq<Seq<char>> {
    spec_split(s, ' ')
}

/// Scope inclusion: every requested token occurs among the previously
/// granted ones (set membership; repeats are not counted). An empty
/// requested scope has the single empty token and so is included only where
/// the previous scope also yields it.
pub open spec fn scope_subset(req: Seq<char>, prev: Seq<char>) -> bool {
    forall|i: int|
        0 <= i < scope_tokens(req).len() ==> scope_tokens(prev).contains(
            #[trigger] scope_tokens(req)[i],
        )
}

/// Scope negotiation: pass the requested scope through unchanged when it is
/// included in the previously granted scope, and fail with `invalid_scope`
/// otherwise. No re-sorting, no deduplication.
pub fn check_scope(req: &str, prev: &str) -> (r: Result<String, OAuth2ErrorResponse>)
    ensures
        match r {
            Ok(s) => s@ == req@ && scope_subset(req@, prev@),
            Err(e) => e == OAuth2ErrorResponse::InvalidScope && !scope_subset(req@, prev@),
        },
{
    let old_scopes = split_str(prev, ' ');
    let request_scopes = split_str(req, ' ');
    let mut i: usize = 0;
    while i < request_scopes.len()
        invariant
            i <= request_scopes@.len(),
            views_of(old_scopes@) == scope_tokens(prev@),
            views_of(request_scopes@) == scope_tokens(req@),
            forall|j: int|
                0 <= j < i ==> scope_tokens(prev@).contains(#[trigger] scope_tokens(req@)[j]),
        decreases request_scopes@.len() - i,
    {
        proof {
            assert(views_of(request_scopes@)[i as int] == request_scopes@[i as int]@);
        }
        if !contains_str(&old_scopes, request_scopes[i].as_str()) {
            return Err(OAuth2ErrorResponse::InvalidScope);
        }
        i = i + 1;
    }
    Ok(req.to_owned())
}

/// Issues and stores a new access token for `c` under grant `g`: the value
/// is the freshly minted `token_value`, issue time is `now`, and expiry is
/// `now` plus the configured access-token TTL.
pub fn generate_access_token(
    store: &mut TokenStore,
    config: &OauthSettings,
    c: &Client,
    g: &GrantType,
    scope: String,
    now: i64,
    token_value: String,
) -> (r: AccessToken)
    requires
        old(store).wf(),
        config.valid(),
        0 <= now,
        now + config.access_token_ttl <= i64::MAX,
        !old(store).token_value_used(token_value@),
        old(store).next_access_token_id < i32::MAX,
    ensures
        final(store).wf(),
        r == (AccessToken {
            id: old(store).next_access_token_id,
            token: token_value,
            client_id: c.id,
            grant_id: g.id,
            scope: scope,
            issued_at: now,
            expires_at: (now + config.access_token_ttl) as i64,
        }),
        final(store).access_tokens@ == old(store).access_tokens@.push(r),
        final(store).clients@ == old(store).clients@,
        final(store).grant_types@ == old(store).grant_types@,
        final(store).refresh_tokens@ == old(store).refresh_tokens@,
        final(store).next_access_token_id == old(store).next_access_token_id + 1,
        final(store).next_refresh_token_id == old(store).next_refresh_token_id,
{
    let expiry = now + config.access_token_ttl;
    let new_token = NewAccessToken {
        token: token_value,
        client_id: c.id,
        grant_id: g.id,
        scope: scope,
        issued_at: now,
        expires_at: expiry,
    };
    store.insert_access_token(new_token)
}

/// Issues and stores a new refresh token for `c`: expiry is `now` plus the
/// configured refresh-token TTL, or absent when that TTL is the `-1`
/// never-expires sentinel.
pub fn generate_refresh_token(
    store: &mut TokenStore,
    config: &OauthSettings,
    c: &Client,
    scope: String,
    now: i64,
    token_value: String,
) -> (r: RefreshToken)
    requires
        old(store).wf(),
        config.valid(),
        0 <= now,
        config.refresh_token_ttl == -1 || now + config.refresh_token_ttl <= i64::MAX,
        !old(store).token_value_used(token_value@),
        old(store).next_refresh_token_id < i32::MAX,
    ensures
        final(store).wf(),
        r == (RefreshToken {
            id: old(store).next_refresh_token_id,
            token: token_value,
            client_id: c.id,
            scope: scope,
            issued_at: now,
            expires_at: if config.refresh_token_ttl == -1 {
                None
            } else {
                Some((now + config.refresh_token_ttl) as i64)
            },
        }),
        final(store).refresh_tokens@ == old(store).refresh_tokens@.push(r),
        final(store).clients@ == old(store).clients@,
        final(store).grant_types@ == old(store).grant_types@,
        final(store).access_tokens@ == old(store).access_tokens@,
        final(store).next_refresh_token_id == old(store).next_refresh_token_id + 1,
        final(store).next_access_token_id == old(store).next_access_token_id,
{
    let expiry: Option<i64> = if config.refresh_token_ttl == -1 {
        None
    } else {
        Some(now + config.refresh_token_ttl)
    };
    let new_token = NewRefreshToken {
        token: token_value,
        client_id: c.id,
        scope: scope,
        issued_at: now,
        expires_at: expiry,
    };
    store.insert_refresh_token(new_token)
}

/// Builds the token-endpoint success body from an issued access token and
/// an optional refresh token: `Bearer`, lifetimes relative to `now`, and the
/// token values and scope verbatim.
pub fn generate_token_response(at: AccessToken, rt: Option<RefreshToken>, now: i64) -> (r:
    AccessTokenResponse)
    requires
        0 <= now,
        0 <= at.expires_at,
        rt matches Some(t) ==> (t.expires_at matches Some(e) ==> 0 <= e),
    ensures
        r.token_type@ == "Bearer"@,
        r.expires_in == at.expires_at - now,
        r.access_token == at.token,
        r.scope == at.scope,
        match rt {
            None => r.refresh_token is None && r.refresh_expires_in is None,
            Some(t) => r.refresh_token == Some(t.token) && r.refresh_expires_in == (
            match t.expires_at {
                None => None::<i64>,
                Some(e) => Some((e - now) as i64),
            }),
        },
{
    let expires_in = at.expires_at - now;
    match rt {
        Some(t) => {
            let refresh_expires_in: Option<i64> = match t.expires_at {
                None => None,
                Some(e) => Some(e - now),
            };
            AccessTokenResponse {
                token_type: "Bearer".to_owned(),
                expires_in: expires_in,
                access_token: at.token,
                scope: at.scope,
                refresh_token: Some(t.token),
                refresh_expires_in: refresh_expires_in,
            }
        },
        None => AccessTokenResponse {
            token_type: "Bearer".to_owned(),
            expires_in: expires_in,
            access_token: at.token,
            scope: at.scope,
            refresh_token: None,
            refresh_expires_in: None,
        },
    }
}

} // verus!
