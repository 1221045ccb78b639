//! An OAuth2 token service core: credential verification, grant processing
//! (`client_credentials` and `refresh_token`), scope negotiation, token
//! issuance with TTL-based expiry, and token introspection.
//!
//! The engine works over an in-memory [`persistence::TokenStore`] holding
//! clients, grant types and issued tokens as plain values; password hashes
//! are checked through bcrypt, token values are UUIDs, and HTTP Basic
//! credentials are decoded from base64 — each behind a small trusted wrapper.

pub mod clock;
pub mod crypto;
pub mod encoding;
pub mod form;
pub mod handlers;
pub mod models;
pub mod persistence;
pub mod strutil;
pub mod token_value;
pub mod utils;
pub mod web;
