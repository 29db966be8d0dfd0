//! The wall clock, read as milliseconds since the Unix epoch.

use vstd::prelude::*;

verus! {

/// Relies on chrono's `Utc::now` paired with `DateTime::timestamp_millis`:
/// the current wall-clock time as milliseconds since the Unix epoch.
/// Nothing is promised of the value: the clock is an outside input, and
/// every function of this library that depends on the current time takes
/// the timestamp as an explicit argument and is verified for every value.
#[verifier::external_body]
pub fn now_millis() -> i64 {
    chrono::Utc::now().timestamp_millis()
}

} // verus!
