//! Fresh identifiers and the clock.

use vstd::prelude::*;

verus! {

/// Relies on `uuid::Uuid::new_v4`: a random identifier, as a 128-bit integer.
/// Nothing is promised of its value.
#[verifier::external_body]
pub(crate) fn fresh_id() -> (r: u128) {
    uuid::Uuid::new_v4().as_u128()
}

/// Relies on `chrono::Utc::now`: the current time, in whole seconds since the
/// Unix epoch. Nothing is promised of its value.
#[verifier::external_body]
pub(crate) fn now_seconds() -> (r: i64) {
    chrono::Utc::now().timestamp()
}

} // verus!
