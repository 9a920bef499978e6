//! The wall clock.
use vstd::prelude::*;

verus! {

/// Relies on `chrono::Utc::now`: the current time in milliseconds since the
/// Unix epoch. Nothing is known of its value.
#[verifier::external_body]
pub(crate) fn now_millis() -> (r: i64) {
    chrono::Utc::now().timestamp_millis()
}

} // verus!
