//! The local clock.

use vstd::prelude::*;
use crate::event::ClockReading;

verus! {

/// Reads the local clock with `chrono::Local::now` and hands the instant back
/// twice: as `DateTime::to_rfc3339_opts` writes it with millisecond precision
/// (`Z` in place of a zero offset), and as `DateTime::timestamp_millis` counts
/// it. Nothing is claimed of the reading: it is whatever the machine's clock
/// and time zone say.
#[verifier::external_body]
pub(crate) fn read_local_clock() -> (now: ClockReading) {
    let now = chrono::Local::now();
    ClockReading {
        text: now.to_rfc3339_opts(chrono::SecondsFormat::Millis, true),
        epoch_millis: now.timestamp_millis(),
    }
}

} // verus!
