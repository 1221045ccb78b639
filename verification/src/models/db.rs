//! The persistent records: clients, grant types, and issued tokens.
//! Times are whole seconds since the Unix epoch; token values are canonical
//! UUID strings (see `token_value`).

use vstd::prelude::*;

verus! {

/// A registered OAuth2 client. `secret` holds a bcrypt hash, never a plain
/// secret; `response_type` is `"confidential"` for clients entitled to the
/// `client_credentials` grant. Owned by an external provisioning process and
/// read-only here.
pub struct Client {
    pub id: i32,
    pub identifier: String,
    pub secret: String,
    pub response_type: String,
}

impl Clone for Client {
    fn clone(&self) -> (r: Self)
        ensures
            r == *self,
    {
        Client {
            id: self.id,
            identifier: self.identifier.clone(),
            secret: self.secret.clone(),
            response_type: self.response_type.clone(),
        }
    }
}

/// Static reference data naming a supported grant flow.
pub struct GrantType {
    pub id: i32,
    pub name: String,
}

impl Clone for GrantType {
    fn clone(&self) -> (r: Self)
        ensures
            r == *self,
    {
        GrantType { id: self.id, name: self.name.clone() }
    }
}

/// An issued access token. Never mutated; expiry is evaluated lazily at use
/// time.
pub struct AccessToken {
    pub id: i32,
    pub token: String,
    pub client_id: i32,
    pub grant_id: i32,
    pub scope: String,
    pub issued_at: i64,
    pub expires_at: i64,
}

impl AccessToken {
    /// Liveness: the current time is strictly before expiry.
    pub open spec fn live_at(self, now: i64) -> bool {
        now < self.expires_at
    }
}

impl Clone for AccessToken {
    fn clone(&self) -> (r: Self)
        ensures
            r == *self,
    {
        AccessToken {
            id: self.id,
            token: self.token.clone(),
            client_id: self.client_id,
            grant_id: self.grant_id,
            scope: self.scope.clone(),
            issued_at: self.issued_at,
            expires_at: self.expires_at,
        }
    }
}

/// An access token to be inserted; the store assigns the record id.
pub struct NewAccessToken {
    pub token: String,
    pub client_id: i32,
    pub grant_id: i32,
    pub scope: String,
    pub issued_at: i64,
    pub expires_at: i64,
}

/// An issued refresh token. `expires_at == None` means it never expires.
/// Read but never rotated or invalidated by the `refresh_token` grant.
pub struct RefreshToken {
    pub id: i32,
    pub token: String,
    pub client_id: i32,
    pub scope: String,
    pub issued_at: i64,
    pub expires_at: Option<i64>,
}

impl RefreshToken {
    /// Liveness: unexpirable, or the current time is strictly before expiry.
    pub open spec fn live_at(self, now: i64) -> bool {
        match self.expires_at {
            None => true,
            Some(e) => now < e,
        }
    }
}

impl Clone for RefreshToken {
    fn clone(&self) -> (r: Self)
        ensures
            r == *self,
    {
        RefreshToken {
            id: self.id,
            token: self.token.clone(),
            client_id: self.client_id,
            scope: self.scope.clone(),
            issued_at: self.issued_at,
            expires_at: self.expires_at,
        }
    }
}

/// A refresh token to be inserted; the store assigns the record id.
pub struct NewRefreshToken {
    pub token: String,
    pub client_id: i32,
    pub scope: String,
    pub issued_at: i64,
    pub expires_at: Option<i64>,
}

} // verus!
