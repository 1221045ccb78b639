//! Password-hash verification, delegated to the bcrypt crate.

use vstd::prelude::*;

verus! {

/// What `bcrypt::verify` returns for a given password and stored hash:
/// `Some(true)` on a match, `Some(false)` on a mismatch, `None` when the
/// stored hash is not a well-formed bcrypt string. The outcome is a function
/// of the two arguments alone.
pub uninterp spec fn bcrypt_verify_of(pass: Seq<char>, hash: Seq<char>) -> Option<bool>;

/// Relies on `bcrypt::verify`: recomputes the hash of `pass` with the cost
/// and salt carried by `hash` and compares; errors only on a malformed hash.
#[verifier::external_body]
pub(crate) fn bcrypt_verify(pass: &str, hash: &str) -> (r: Option<bool>)
    ensures
        r == bcrypt_verify_of(pass@, hash@),
{
    bcrypt::verify(pass, hash).ok()
}

} // verus!
