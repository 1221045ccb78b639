//! Data model: persistent records, request and response DTOs, configuration,
//! and the parsed form of HTTP Basic credentials.

pub mod authorization_token;
pub mod configuration;
pub mod db;
pub mod requests;
pub mod responses;
