//! The wall clock.

use vstd::prelude::*;

verus! {

/// Relies on chrono's `Utc::now().timestamp()`: the current time in seconds
/// since the epoch. Nothing is known of the value.
#[verifier::external_body]
pub(crate) fn now_timestamp() -> (r: i64) {
    chrono::Utc::now().timestamp()
}

} // verus!
