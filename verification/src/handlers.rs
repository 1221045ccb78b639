//! The two endpoint handlers: token issuance and token introspection.

pub mod introspect;
pub mod token;
