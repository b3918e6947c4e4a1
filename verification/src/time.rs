//! Points in time, counted in seconds.

use vstd::prelude::*;

verus! {

/// A point in time: whole seconds since 1970-01-01 00:00:00 on the clock
/// that produced it, and the nanoseconds into that second.
///
/// A device's clock has no known time zone, so neither has a timestamp
/// decoded from a device.
#[derive(Clone, Copy, Debug, PartialEq, Eq, Structural, Hash)]
pub struct Timestamp {
    pub secs: i64,
    pub nanos: u32,
}

impl Timestamp {
    /// The timestamp `secs` seconds and `nanos` nanoseconds after the epoch.
    pub fn new(secs: i64, nanos: u32) -> (t: Self)
        ensures
            t == (Timestamp { secs, nanos }),
    {
        Timestamp { secs, nanos }
    }

    /// Whether `self` is strictly later than `other`.
    pub open spec fn spec_is_after(self, other: Timestamp) -> bool {
        self.secs > other.secs || (self.secs == other.secs && self.nanos > other.nanos)
    }

    /// Whether `self` is strictly later than `other`.
    pub fn is_after(&self, other: &Timestamp) -> (later: bool)
        ensures
            later == self.spec_is_after(*other),
    {
        self.secs > other.secs || (self.secs == other.secs && self.nanos > other.nanos)
    }

    /// The timestamp `seconds` whole seconds later.
    pub open spec fn spec_plus_seconds(self, seconds: int) -> Timestamp
        recommends
            i64::MIN <= self.secs + seconds <= i64::MAX,
    {
        Timestamp { secs: (self.secs + seconds) as i64, nanos: self.nanos }
    }

    /// The timestamp `seconds` whole seconds later, or `None` where that
    /// second cannot be counted in 64 bits.
    pub fn checked_plus_seconds(&self, seconds: u64) -> (later: Option<Timestamp>)
        ensures
            later is Some <==> self.secs + seconds <= i64::MAX,
            later matches Some(t) ==> t == self.spec_plus_seconds(seconds as int),
    {
        let sum: i128 = self.secs as i128 + seconds as i128;
        if sum <= i64::MAX as i128 {
            Some(Timestamp { secs: sum as i64, nanos: self.nanos })
        } else {
            None
        }
    }
}

/// Whether a year of the Gregorian calendar has a 29th of February.
pub open spec fn is_leap_year(year: int) -> bool {
    year % 4 == 0 && (year % 100 != 0 || year % 400 == 0)
}

/// The number of days of a month, for months 1 to 12.
pub open spec fn days_in_month(year: int, month: int) -> int {
    if month == 2 {
        if is_leap_year(year) {
            29
        } else {
            28
        }
    } else if month == 4 || month == 6 || month == 9 || month == 11 {
        30
    } else {
        31
    }
}

/// Whether year, month and day name a day of the Gregorian calendar.
pub open spec fn valid_date(year: int, month: int, day: int) -> bool {
    1 <= month <= 12 && 1 <= day <= days_in_month(year, month)
}

/// Whether hour, minute and second name a second of a day.
pub open spec fn valid_time(hour: int, minute: int, second: int) -> bool {
    0 <= hour < 24 && 0 <= minute < 60 && 0 <= second < 60
}

/// The number of days of a year that lie before the first of a month.
pub open spec fn spec_days_before_month(year: int, month: int) -> int
    decreases month,
{
    if month <= 1 {
        0
    } else {
        spec_days_before_month(year, month - 1) + days_in_month(year, month - 1)
    }
}

/// The day number of a calendar date, counted from 0001-01-01 as day 1:
/// 365 days for every year before, one more for every leap year among
/// them, and the day of the year.
pub open spec fn spec_days_from_ce(year: int, month: int, day: int) -> int {
    let before = year - 1;
    365 * before + before / 4 - before / 100 + before / 400 + spec_days_before_month(year, month)
        + day
}

/// The day number of 1970-01-01.
pub const UNIX_EPOCH_DAY: i64 = 719_163;

/// The seconds from the epoch to a second of the day with a given number.
pub open spec fn spec_seconds_of(number: int, hour: int, minute: int, second: int) -> int {
    (number - UNIX_EPOCH_DAY) * 86_400 + hour * 3600 + minute * 60 + second
}

/// The seconds from the epoch to a second of a calendar day.
pub open spec fn spec_epoch_seconds(
    year: int,
    month: int,
    day: int,
    hour: int,
    minute: int,
    second: int,
) -> int {
    spec_seconds_of(spec_days_from_ce(year, month, day), hour, minute, second)
}

/// The timestamp of a second of a calendar day, where the six numbers
/// name one.
pub open spec fn spec_from_civil(
    year: int,
    month: int,
    day: int,
    hour: int,
    minute: int,
    second: int,
) -> Option<Timestamp> {
    if valid_date(year, month, day) && valid_time(hour, minute, second) {
        Some(
            Timestamp {
                secs: spec_epoch_seconds(year, month, day, hour, minute, second) as i64,
                nanos: 0,
            },
        )
    } else {
        None
    }
}

/// The day number of a calendar date, by chrono.
///
/// Calls `NaiveDate::from_ymd_opt` and, on the date it gives,
/// `Datelike::num_days_from_ce`. Taken on trust: chrono accepts exactly the
/// days that exist in the proleptic Gregorian calendar (every year that a
/// `u16` holds is within its range), and the number returned counts the
/// days of that calendar from 0001-01-01 as day 1.
#[verifier::external_body]
fn day_number(year: u16, month: u8, day: u8) -> (number: Option<i32>)
    ensures
        number is Some <==> valid_date(year as int, month as int, day as int),
        number matches Some(n) ==> n == spec_days_from_ce(year as int, month as int, day as int),
{
    match chrono::NaiveDate::from_ymd_opt(i32::from(year), u32::from(month), u32::from(day)) {
        Some(date) => Some(chrono::Datelike::num_days_from_ce(&date)),
        None => None,
    }
}

/// Before any month of a year lie at most 31 days for each month before it.
pub proof fn lemma_days_before_month_bounds(year: int, month: int)
    requires
        1 <= month,
    ensures
        0 <= spec_days_before_month(year, month) <= 31 * (month - 1),
    decreases month,
{
    if month > 1 {
        lemma_days_before_month_bounds(year, month - 1);
    }
}

/// The timestamp of a calendar day whose year fits in 16 bits lies
/// between the year 0 and the year 65 536: far within 48 bits of seconds.
pub proof fn lemma_from_civil_bounds(
    year: int,
    month: int,
    day: int,
    hour: int,
    minute: int,
    second: int,
)
    requires
        0 <= year <= 65_535,
        spec_from_civil(year, month, day, hour, minute, second) is Some,
    ensures
        ({
            let t = spec_from_civil(year, month, day, hour, minute, second).unwrap();
            &&& t.secs == spec_epoch_seconds(year, month, day, hour, minute, second)
            &&& -62_200_000_000 < t.secs < 2_010_000_000_000
            &&& t.nanos == 0
        }),
{
    lemma_days_before_month_bounds(year, month);
}

impl Timestamp {
    /// The timestamp of a second of the day with a given number, days
    /// being counted from 0001-01-01 as day 1; `None` where the time of day
    /// is out of range.
    pub fn from_day_number(number: i32, hour: u8, minute: u8, second: u8) -> (t: Option<
        Timestamp,
    >)
        ensures
            t is Some <==> valid_time(hour as int, minute as int, second as int),
            t matches Some(x) ==> x.nanos == 0 && x.secs == (number - 719_163) * 86_400 + hour
                * 3600 + minute * 60 + second,
            t matches Some(x) ==> x.secs == spec_seconds_of(
                number as int,
                hour as int,
                minute as int,
                second as int,
            ),
            t matches Some(x) ==> -0x1_0000_0000_0000 < x.secs < 0x1_0000_0000_0000,
    {
        if hour >= 24 || minute >= 60 || second >= 60 {
            return None;
        }
        let days: i64 = number as i64 - UNIX_EPOCH_DAY;
        let of_day: i64 = hour as i64 * 3600 + minute as i64 * 60 + second as i64;
        Some(Timestamp { secs: days * 86_400 + of_day, nanos: 0 })
    }

    /// The timestamp of a second of a calendar day; `None` where the date
    /// does not exist or the time of day is out of range.
    pub fn from_civil(year: u16, month: u8, day: u8, hour: u8, minute: u8, second: u8) -> (t:
        Option<Timestamp>)
        ensures
            t == spec_from_civil(
                year as int,
                month as int,
                day as int,
                hour as int,
                minute as int,
                second as int,
            ),
            t matches Some(x) ==> -0x1_0000_0000_0000 < x.secs < 0x1_0000_0000_0000,
    {
        match day_number(year, month, day) {
            Some(number) => Timestamp::from_day_number(number, hour, minute, second),
            None => None,
        }
    }
}

} // verus!
