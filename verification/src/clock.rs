use chrono::{Datelike, Timelike};
use vstd::prelude::*;

verus! {

/// A calendar date of the proleptic Gregorian calendar.
#[derive(Clone, Copy, Debug, PartialEq, Eq, Structural)]
pub struct Date {
    pub year: i32,
    pub month: u32,
    pub day: u32,
}

/// A time of day. A `nano` of a thousand million or more stands for a leap
/// second, as it does where the time is read from the system clock.
#[derive(Clone, Copy, Debug, PartialEq, Eq, Structural)]
pub struct Time {
    pub hour: u32,
    pub minute: u32,
    pub second: u32,
    pub nano: u32,
}

/// A date together with a time of day, without a time zone.
#[derive(Clone, Copy, Debug, PartialEq, Eq, Structural)]
pub struct DateTime {
    pub date: Date,
    pub time: Time,
}

/// Leap years of the Gregorian calendar.
pub open spec fn is_leap_year(year: int) -> bool {
    year % 4 == 0 && (year % 100 != 0 || year % 400 == 0)
}

/// The number of days of `month` in `year`; 0 where `month` is no month.
pub open spec fn days_in_month(year: int, month: int) -> int {
    if month == 2 {
        if is_leap_year(year) {
            29
        } else {
            28
        }
    } else if month == 4 || month == 6 || month == 9 || month == 11 {
        30
    } else if 1 <= month <= 12 {
        31
    } else {
        0
    }
}

impl Date {
    /// The date exists in the calendar.
    pub open spec fn wf(self) -> bool {
        1 <= self.month <= 12 && 1 <= self.day <= days_in_month(self.year as int, self.month as int)
    }

    /// Chronological order: year first, then month, then day.
    pub open spec fn before(self, other: Date) -> bool {
        self.year < other.year || (self.year == other.year && (self.month < other.month || (
        self.month == other.month && self.day < other.day)))
    }

    /// The date `year`-`month`-`day`, or `None` where the calendar has no such day.
    pub fn from_ymd_opt(year: i32, month: u32, day: u32) -> (r: Option<Date>)
        ensures
            r == if (Date { year, month, day }).wf() {
                Some(Date { year, month, day })
            } else {
                None::<Date>
            },
    {
        if month < 1 || month > 12 || day < 1 {
            return None;
        }
        let leap = year % 4 == 0 && (year % 100 != 0 || year % 400 == 0);
        let days: u32 = if month == 2 {
            if leap {
                29
            } else {
                28
            }
        } else if month == 4 || month == 6 || month == 9 || month == 11 {
            30
        } else {
            31
        };
        if day <= days {
            Some(Date { year, month, day })
        } else {
            None
        }
    }

    /// Whether `self` comes strictly before `other`.
    pub fn is_before(&self, other: &Date) -> (b: bool)
        ensures
            b == self.before(*other),
    {
        self.year < other.year || (self.year == other.year && (self.month < other.month || (
        self.month == other.month && self.day < other.day)))
    }
}

impl Time {
    /// Hours, minutes and seconds are in range; `nano` may run into a leap second.
    pub open spec fn wf(self) -> bool {
        self.hour < 24 && self.minute < 60 && self.second < 60 && self.nano < 2_000_000_000
    }

    /// Order within one day: hour, minute, second, then the fraction.
    pub open spec fn before(self, other: Time) -> bool {
        self.hour < other.hour || (self.hour == other.hour && (self.minute < other.minute || (
        self.minute == other.minute && (self.second < other.second || (self.second
            == other.second && self.nano < other.nano)))))
    }

    /// The time `hour`:`minute`:`second` sharp, or `None` where a part is out of range.
    pub fn from_hms_opt(hour: u32, minute: u32, second: u32) -> (r: Option<Time>)
        ensures
            r == if hour < 24 && minute < 60 && second < 60 {
                Some(Time { hour, minute, second, nano: 0 })
            } else {
                None::<Time>
            },
    {
        if hour < 24 && minute < 60 && second < 60 {
            Some(Time { hour, minute, second, nano: 0 })
        } else {
            None
        }
    }

    /// The last full second of a day, 23:59:59.
    pub open spec fn spec_end_of_day() -> Time {
        Time { hour: 23, minute: 59, second: 59, nano: 0 }
    }

    /// The last full second of a day, 23:59:59.
    pub fn end_of_day() -> (r: Time)
        ensures
            r == Time::spec_end_of_day(),
            r.wf(),
    {
        Time { hour: 23, minute: 59, second: 59, nano: 0 }
    }

    /// Whether `self` comes strictly before `other`.
    pub fn is_before(&self, other: &Time) -> (b: bool)
        ensures
            b == self.before(*other),
    {
        self.hour < other.hour || (self.hour == other.hour && (self.minute < other.minute || (
        self.minute == other.minute && (self.second < other.second || (self.second
            == other.second && self.nano < other.nano)))))
    }
}

impl DateTime {
    pub open spec fn wf(self) -> bool {
        self.date.wf() && self.time.wf()
    }

    /// Chronological order: the date decides, the time of day breaks a tie.
    pub open spec fn before(self, other: DateTime) -> bool {
        self.date.before(other.date) || (self.date == other.date && self.time.before(other.time))
    }

    /// `time` on `date`.
    pub fn new(date: Date, time: Time) -> (r: DateTime)
        ensures
            r == (DateTime { date, time }),
    {
        DateTime { date, time }
    }

    /// Whether `self` comes strictly before `other`.
    pub fn is_before(&self, other: &DateTime) -> (b: bool)
        ensures
            b == self.before(*other),
    {
        self.date.is_before(&other.date) || (self.date == other.date && self.time.is_before(
            &other.time,
        ))
    }
}

/// `before` is a strict total order on instants: no instant comes before
/// itself, of two different instants exactly one comes first, and the order
/// is transitive.
pub proof fn lemma_before_is_strict_total_order(a: DateTime, b: DateTime, c: DateTime)
    ensures
        !a.before(a),
        a.before(b) ==> !b.before(a),
        a != b ==> a.before(b) || b.before(a),
        a.before(b) && b.before(c) ==> a.before(c),
{
}

/// Reads the wall clock through `chrono::Local::now` and hands back the
/// local date and time of day, field by field. Nothing is claimed of which
/// instant comes back, only that chrono returns a date of the calendar and a
/// time of day in range.
#[verifier::external_body]
pub(crate) fn local_now() -> (r: DateTime)
    ensures
        r.wf(),
{
    let n = chrono::Local::now().naive_local();
    DateTime {
        date: Date { year: n.year(), month: n.month(), day: n.day() },
        time: Time { hour: n.hour(), minute: n.minute(), second: n.second(), nano: n.nanosecond() },
    }
}

/// Reads the wall clock through `chrono::Local::now` and hands back what
/// `timestamp_nanos_opt` gives: the nanoseconds since the Unix epoch, or
/// `None` where they do not fit in 64 bits. Nothing is claimed of the value.
#[verifier::external_body]
pub(crate) fn unix_nanos_now() -> (r: Option<i64>)
{
    chrono::Local::now().timestamp_nanos_opt()
}

} // verus!
