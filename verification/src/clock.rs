//! The current time.
//!
//! Timestamps are plain `i64` values: seconds since the Unix epoch, the
//! form the store keeps. Functions whose result depends on the clock
//! either take the current time as an argument or state what holds of
//! every outcome of this wrapper.

use vstd::prelude::*;

verus! {

/// Relies on chrono::Utc::now: the current time, converted to seconds
/// since the Unix epoch. Nothing is promised of the result.
#[verifier::external_body]
pub fn now_ts() -> i64 {
    chrono::Utc::now().timestamp()
}

} // verus!
