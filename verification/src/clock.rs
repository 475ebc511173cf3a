//! Reading the operator's local wall clock.
//!
//! The rest of the library works on plain timestamps: whole seconds of
//! the local calendar, where local midnight falls exactly on a multiple
//! of [`crate::schedule::SECONDS_PER_DAY`].  Only the read of the clock
//! itself is outside code; everything computed from the reading is
//! verified against the value as an argument, whatever the clock said.

use vstd::prelude::*;
use chrono::Local;

verus! {

use crate::schedule::MAX_TIMESTAMP;

/// Relies on chrono's `Local::now`, `NaiveDateTime::and_utc` and
/// `DateTime::timestamp`: the local calendar date and time of day,
/// re-read as seconds since 1970-01-01 00:00:00 *of the local calendar*,
/// so a multiple of 86400 is a local midnight.  The result depends on
/// the machine's clock and time zone, so nothing is promised of it.
#[verifier::external_body]
fn local_now_seconds() -> (t: i64) {
    Local::now().naive_local().and_utc().timestamp()
}

/// The current wall-clock time as a local-calendar timestamp in whole
/// seconds.  A clock reading before 1970 — a clock anomaly for this
/// service — is clamped to zero rather than panicking or failing: the
/// scheduler treats it as a transient condition and carries on.
pub fn current_local_time() -> (t: u64)
    ensures
        t <= MAX_TIMESTAMP,
{
    let raw = local_now_seconds();
    if raw < 0 {
        0
    } else {
        raw as u64
    }
}

} // verus!
