//! Application settings. Only the OAuth TTLs take part in the verified
//! logic; the rest is carried for the surrounding program.

use vstd::prelude::*;

verus! {

pub struct AppSettings {
    pub logging: LoggingSettings,
    pub db: DatabaseSettings,
    pub oauth: OauthSettings,
}

pub struct LoggingSettings {
    pub time_format: String,
}

pub struct DatabaseSettings {
    pub host: String,
    pub port: u32,
    pub user: String,
    pub pass: String,
    pub db_name: String,
    pub pool_size: u32,
}

/// Token lifetimes, in seconds. `refresh_token_ttl == -1` is the sentinel
/// for refresh tokens that never expire; any other negative value is a
/// configuration error and is to be rejected at startup via [`Self::validate`].
pub struct OauthSettings {
    pub access_token_ttl: i64,
    pub refresh_token_ttl: i64,
}

impl OauthSettings {
    pub open spec fn valid(self) -> bool {
        &&& 0 <= self.access_token_ttl
        &&& self.refresh_token_ttl == -1 || 0 <= self.refresh_token_ttl
    }

    /// Startup check of the configured TTLs.
    pub fn validate(&self) -> (r: bool)
        ensures
            r == self.valid(),
    {
        0 <= self.access_token_ttl && (self.refresh_token_ttl == -1 || 0
            <= self.refresh_token_ttl)
    }
}

impl Clone for OauthSettings {
    fn clone(&self) -> (r: Self)
        ensures
            r == *self,
    {
        OauthSettings {
            access_token_ttl: self.access_token_ttl,
            refresh_token_ttl: self.refresh_token_ttl,
        }
    }
}

} // verus!
