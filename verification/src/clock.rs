//! Wall-clock access for timestamping readings and alerts.

use vstd::prelude::*;

verus! {

/// Relies on `chrono::Utc::now` and `DateTime::timestamp`: the current
/// wall-clock time as whole seconds since the Unix epoch. Nothing can be
/// promised of the value.
#[verifier::external_body]
fn utc_timestamp() -> i64 {
    chrono::Utc::now().timestamp()
}

/// The current wall-clock time as seconds since the Unix epoch, clamped
/// to zero for clocks set before it.
pub(crate) fn now_unix_seconds() -> u64 {
    let t = utc_timestamp();
    if t < 0 {
        0
    } else {
        t as u64
    }
}

} // verus!
