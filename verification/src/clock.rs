//! Wall-clock readings taken from the host environment.
//!
//! Every reading depends on the machine's clock and time zone, so nothing is
//! promised of the values: the callers state what holds of the timer and the
//! store for whatever readings come back.

use chrono::Timelike;
use vstd::prelude::*;

verus! {

/// Relies on chrono's `Utc::now`: the current instant read as milliseconds
/// since the Unix epoch, used only to anchor tick spacing. Nothing is
/// promised of the value.
#[verifier::external_body]
pub fn now_millis() -> i64 {
    chrono::Utc::now().timestamp_millis()
}

/// Relies on chrono's `Utc::now`: the current instant in whole UTC seconds
/// since the Unix epoch. Nothing is promised of the value.
#[verifier::external_body]
pub fn now_utc_seconds() -> i64 {
    chrono::Utc::now().timestamp()
}

/// Relies on chrono's `Local::now` and the `Timelike` adjusters: the most
/// recent local midnight, as UTC seconds since the Unix epoch, or `None`
/// when the local calendar cannot express it. The value depends on the
/// machine's clock and time zone, so nothing is promised of it.
#[verifier::external_body]
pub fn local_midnight_epoch() -> Option<i64> {
    let now = chrono::Local::now();
    let d0 = now.with_hour(0);
    let d1 = match d0 { Some(d) => d.with_minute(0), None => None };
    let d2 = match d1 { Some(d) => d.with_second(0), None => None };
    let d3 = match d2 { Some(d) => d.with_nanosecond(0), None => None };
    match d3 {
        Some(d) => Some(d.with_timezone(&chrono::Utc).timestamp()),
        None => None,
    }
}

} // verus!
