//! The wall clock. Admission timestamps come from here; nothing in the
//! library depends on what the clock returns.

use vstd::prelude::*;

verus! {

/// Relies on `chrono::Utc::now`: the current wall-clock time in
/// milliseconds since the Unix epoch. Nothing is promised of the value.
#[verifier::external_body]
fn now_millis() -> i64 {
    chrono::Utc::now().timestamp_millis()
}

/// The current time as an unsigned millisecond timestamp; clock readings
/// before the epoch are clamped to zero.
pub fn current_timestamp() -> u64 {
    let t = now_millis();
    if t < 0 {
        0
    } else {
        t as u64
    }
}

} // verus!
