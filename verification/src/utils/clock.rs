use chrono::{Datelike, Timelike};
use vstd::prelude::*;

verus! {

/// A time of day on a day of the calendar, on the UTC scale.
#[derive(Clone, Copy, Debug, PartialEq, Eq, Structural)]
pub struct CalendarTime {
    pub year: i32,
    pub month: u32,
    pub day: u32,
    pub hour: u32,
    pub minute: u32,
    pub second: u32,
}

impl CalendarTime {
    /// The year has at most four digits, and month, day, hour, minute and
    /// second lie in the ranges of the calendar and the clock.
    pub open spec fn valid(self) -> bool {
        &&& 0 <= self.year <= 9999
        &&& 1 <= self.month <= 12
        &&& 1 <= self.day <= 31
        &&& self.hour <= 23
        &&& self.minute <= 59
        &&& self.second <= 59
    }

    /// Tells whether the fields lie in their ranges.
    pub fn is_valid(&self) -> (b: bool)
        ensures
            b == self.valid(),
    {
        0 <= self.year && self.year <= 9999 && 1 <= self.month && self.month <= 12 && 1
            <= self.day && self.day <= 31 && self.hour <= 23 && self.minute <= 59 && self.second
            <= 59
    }
}

/// `chrono::Utc::now`, taken apart with `Datelike::year`, `month`, `day` and
/// `Timelike::hour`, `minute`, `second`. Nothing is claimed of the value,
/// which changes with every reading of the clock.
#[verifier::external_body]
pub(crate) fn calendar_now() -> (t: CalendarTime) {
    let t = chrono::Utc::now();
    CalendarTime {
        year: t.year(),
        month: t.month(),
        day: t.day(),
        hour: t.hour(),
        minute: t.minute(),
        second: t.second(),
    }
}

/// A point in time on the UTC scale: whole seconds since the Unix epoch and the
/// nanoseconds within that second.
#[derive(Clone, Copy, Debug, PartialEq, Eq, Structural)]
pub struct Timestamp {
    pub secs: i64,
    pub nanos: u32,
}

impl Timestamp {
    /// `self` is strictly later than `other`.
    pub open spec fn later_than(self, other: Timestamp) -> bool {
        self.secs > other.secs || (self.secs == other.secs && self.nanos > other.nanos)
    }

    /// `self` is `other` or later.
    pub open spec fn not_before(self, other: Timestamp) -> bool {
        self == other || self.later_than(other)
    }

    /// The later of two points in time.
    pub open spec fn later_of(a: Timestamp, b: Timestamp) -> Timestamp {
        if a.later_than(b) {
            a
        } else {
            b
        }
    }

    /// The later of two points in time.
    pub fn latest(a: Timestamp, b: Timestamp) -> (t: Timestamp)
        ensures
            t == Timestamp::later_of(a, b),
            t.not_before(a),
            t.not_before(b),
    {
        if a.is_after(&b) {
            a
        } else {
            b
        }
    }

    /// Tells whether `self` is strictly later than `other`.
    pub fn is_after(&self, other: &Timestamp) -> (b: bool)
        ensures
            b == self.later_than(*other),
    {
        self.secs > other.secs || (self.secs == other.secs && self.nanos > other.nanos)
    }

    /// `chrono::Utc::now`: the system clock's present reading, taken apart with
    /// `DateTime::timestamp` and `DateTime::timestamp_subsec_nanos`. Nothing is
    /// claimed of the value; chrono panics where the clock stands before the epoch.
    #[verifier::external_body]
    pub(crate) fn now() -> (t: Timestamp) {
        let t = chrono::Utc::now();
        Timestamp { secs: t.timestamp(), nanos: t.timestamp_subsec_nanos() }
    }
}

/// `chrono::Utc::now` written out by `DateTime::to_rfc3339`. Nothing is claimed
/// of the text, which changes with every reading of the clock.
#[verifier::external_body]
pub(crate) fn now_rfc3339() -> (text: String) {
    chrono::Utc::now().to_rfc3339()
}

} // verus!
