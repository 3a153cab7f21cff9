//! The local wall clock.

use crate::timestamp::Timestamp;
use chrono::{Datelike, Local, Timelike};
use vstd::prelude::*;

verus! {

/// Reads the local wall clock with `chrono::Local::now` and takes the reading
/// apart with the accessors of `chrono::Datelike` and `chrono::Timelike`.
///
/// Trusted, not proved: chrono documents the month as 1 to 12, the day as 1 to
/// 31, the hour as 0 to 23, and minute and second as 0 to 59. Nothing is
/// claimed of the year, nor of which instant is read. chrono does not return
/// when the system clock stands before 1970.
#[verifier::external_body]
pub(crate) fn local_now() -> (now: Timestamp)
    ensures
        now.wf(),
{
    let reading = Local::now();
    Timestamp {
        year: reading.year(),
        month: reading.month(),
        day: reading.day(),
        hour: reading.hour(),
        minute: reading.minute(),
        second: reading.second(),
    }
}

} // verus!
