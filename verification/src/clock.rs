//! The wall clock, read through the chrono crate. Every function that
//! depends on the current time takes it as an explicit argument; this is the
//! one place the ambient clock is read.

use vstd::prelude::*;

verus! {

/// Relies on `chrono::Utc::now`: the current time as whole seconds since the
/// Unix epoch. Nothing can be promised of the value.
#[verifier::external_body]
pub(crate) fn now_epoch_seconds() -> i64 {
    chrono::Utc::now().timestamp()
}

} // verus!
