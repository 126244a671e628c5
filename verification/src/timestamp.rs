//! Timestamps as plain calendar and clock fields.
//!
//! The decode protocol converts element text in a fixed date-time format
//! with a UTC offset (e.g. `2016-11-03T00:09:40Z`) into a [`Timestamp`].
//! The conversion itself is done by the `chrono` crate behind a trusted
//! wrapper; the logic of this crate only carries the plain fields around.

use chrono::Datelike;
use chrono::Timelike;
use vstd::prelude::*;

verus! {

/// A date and time in UTC, field by field.
#[derive(Debug, Clone, Copy, PartialEq, Eq, Structural)]
pub struct Timestamp {
    pub year: i32,
    pub month: u32,
    pub day: u32,
    pub hour: u32,
    pub minute: u32,
    pub second: u32,
}

impl Timestamp {
    /// A timestamp from its calendar and clock fields.
    pub fn new(year: i32, month: u32, day: u32, hour: u32, minute: u32, second: u32) -> (r:
        Timestamp)
        ensures
            r == (Timestamp { year, month, day, hour, minute, second }),
    {
        Timestamp { year, month, day, hour, minute, second }
    }
}

/// What chrono's date-time parser yields for a given text, reduced to
/// whole seconds in UTC: the result is a function of the characters
/// alone.
pub uninterp spec fn chrono_datetime_of(s: Seq<char>) -> Option<Timestamp>;

/// Relies on chrono's `DateTime<Utc>` parser (`str::parse`, a relaxed
/// RFC 3339 form that requires a UTC offset) and on chrono's `Datelike`
/// and `Timelike` accessors to read the parsed value back as plain
/// fields.
#[verifier::external_body]
pub(crate) fn parse_timestamp(raw: &str) -> (r: Option<Timestamp>)
    ensures
        r == chrono_datetime_of(raw@),
{
    raw.parse::<chrono::DateTime<chrono::Utc>>().ok().map(
        |d|
            Timestamp {
                year: d.year(),
                month: d.month(),
                day: d.day(),
                hour: d.hour(),
                minute: d.minute(),
                second: d.second(),
            },
    )
}

} // verus!
