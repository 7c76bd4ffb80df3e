//! The trusted boundary to chrono: the current calendar date used when a
//! bound is left empty, and the local generation timestamp used in the
//! synthesized output filename.

use chrono::Datelike;
use chrono::Timelike;
use vstd::prelude::*;

use crate::date::{Date, Zoned};

verus! {

/// Relies on chrono Utc::now and NaiveDate's accessors: the current UTC
/// calendar date is a valid Gregorian date, and in this era its year has four
/// digits.
#[verifier::external_body]
pub fn today_utc() -> (d: Date)
    ensures
        d.wf(),
{
    let now = chrono::Utc::now().date_naive();
    Date { year: now.year() as u32, month: now.month(), day: now.day() }
}

/// Relies on chrono Local::now and its accessors: the current local time has
/// a valid Gregorian date whose year has four digits in this era, and in-range
/// hour, minute and second components.
#[verifier::external_body]
pub fn now_local() -> (z: Zoned)
    ensures
        z.wf(),
{
    let now = chrono::Local::now();
    Zoned {
        date: Date { year: now.year() as u32, month: now.month(), day: now.day() },
        hour: now.hour(),
        minute: now.minute(),
        second: now.second(),
    }
}

} // verus!
