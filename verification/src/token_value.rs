//! Opaque token values. A token value is the canonical (hyphenated,
//! lower-case) text form of a UUID; minting draws a fresh version-4 UUID
//! from the uuid crate's cryptographically secure generator.

use vstd::prelude::*;

verus! {

/// What parsing a presented token value yields: the canonical text form of
/// the UUID it denotes, or `None` when it is not a UUID in any of the text
/// forms `uuid::Uuid::parse_str` accepts. The outcome is a function of the
/// input alone, and canonical forms are fixed points.
pub uninterp spec fn uuid_canon_of(s: Seq<char>) -> Option<Seq<char>>;

/// Relies on `uuid::Uuid::parse_str` and the hyphenated `Display` form: the
/// printed form of a parsed UUID is 36 lower-case characters, parses back,
/// and reprints identically.
#[verifier::external_body]
pub(crate) fn canonical_token_value(s: &str) -> (r: Option<String>)
    ensures
        match r {
            Some(c) => uuid_canon_of(s@) == Some(c@) && uuid_canon_of(c@) == Some(c@) && c@.len()
                == 36,
            None => uuid_canon_of(s@) is None,
        },
{
    match uuid::Uuid::parse_str(s) {
        Ok(u) => Some(u.hyphenated().to_string()),
        Err(_) => None,
    }
}

/// Relies on `uuid::Uuid::new_v4` and the hyphenated `Display` form: a
/// freshly drawn random UUID printed canonically. Nothing relates two calls;
/// callers must check for collisions themselves.
#[verifier::external_body]
pub(crate) fn mint_token_value() -> (r: String)
    ensures
        uuid_canon_of(r@) == Some(r@),
        r@.len() == 36,
{
    uuid::Uuid::new_v4().hyphenated().to_string()
}

} // verus!
