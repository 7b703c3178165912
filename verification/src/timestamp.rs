//! Calendar date and time of day without a time zone, as plain fields.

use vstd::prelude::*;

verus! {

/// A date and a time of day, with no time zone attached.
#[derive(Clone, Copy, Debug, PartialEq, Eq, Structural)]
pub struct Timestamp {
    pub year: i32,
    /// 1 to 12.
    pub month: u32,
    /// 1 to 31.
    pub day: u32,
    /// 0 to 23.
    pub hour: u32,
    /// 0 to 59.
    pub minute: u32,
    /// 0 to 59.
    pub second: u32,
    /// Nanoseconds since the whole second; 1,000,000,000 and above during a leap second.
    pub nanosecond: u32,
}

impl Timestamp {
    /// Every field lies in its range.
    pub open spec fn is_well_formed(&self) -> bool {
        &&& 1 <= self.month <= 12
        &&& 1 <= self.day <= 31
        &&& self.hour <= 23
        &&& self.minute <= 59
        &&& self.second <= 59
        &&& self.nanosecond <= 1_999_999_999
    }

    /// Midnight of 1 January 1970: what a timestamp field holds before it is assigned.
    pub open spec fn epoch() -> Timestamp {
        Timestamp { year: 1970, month: 1, day: 1, hour: 0, minute: 0, second: 0, nanosecond: 0 }
    }
}

/// An optional timestamp is well formed where it is present.
pub open spec fn maybe_well_formed(t: Option<Timestamp>) -> bool {
    match t {
        Some(t) => t.is_well_formed(),
        None => true,
    }
}

impl Default for Timestamp {
    fn default() -> (t: Timestamp)
        ensures
            t == Timestamp::epoch(),
            t.is_well_formed(),
    {
        Timestamp { year: 1970, month: 1, day: 1, hour: 0, minute: 0, second: 0, nanosecond: 0 }
    }
}

/// What `chrono::NaiveDateTime::parse_from_str` makes of `text` under `format`: the date and
/// time it reads, by their fields, or `None` where it reports an error.
pub uninterp spec fn chrono_datetime(text: Seq<char>, format: Seq<char>) -> Option<Timestamp>;

/// Calls `chrono::NaiveDateTime::parse_from_str(text, format)` and reads the fields of what it
/// returns through chrono's `Datelike` and `Timelike` getters. Trusted: that the outcome is
/// [`chrono_datetime`] of the two texts, and that the getters stay in the ranges which chrono
/// documents for them.
#[verifier::external_body]
pub(crate) fn parse_datetime(text: &str, format: &str) -> (r: Result<Timestamp, chrono::ParseError>)
    ensures
        match r {
            Ok(t) => chrono_datetime(text@, format@) == Some(t) && t.is_well_formed(),
            Err(_) => chrono_datetime(text@, format@) is None,
        },
{
    let parsed = chrono::NaiveDateTime::parse_from_str(text, format)?;
    Ok(Timestamp {
        year: chrono::Datelike::year(&parsed),
        month: chrono::Datelike::month(&parsed),
        day: chrono::Datelike::day(&parsed),
        hour: chrono::Timelike::hour(&parsed),
        minute: chrono::Timelike::minute(&parsed),
        second: chrono::Timelike::second(&parsed),
        nanosecond: chrono::Timelike::nanosecond(&parsed),
    })
}

} // verus!
