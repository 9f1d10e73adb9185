//! Proleptic Gregorian calendar dates and timestamps as plain values.
//!
//! Dates are checked and converted by `chrono`; the arithmetic that the
//! partition planners need (month lengths, leap years, day numbers and
//! weekdays) is stated here as spec functions.
use chrono::Datelike;
use vstd::prelude::*;

verus! {

/// The smallest year that `chrono::NaiveDate` represents.
pub const MIN_YEAR: i32 = -262143;

/// The largest year that `chrono::NaiveDate` represents.
pub const MAX_YEAR: i32 = 262142;

/// Gregorian leap year rule.
pub open spec fn is_leap(year: int) -> bool {
    (year % 4 == 0 && year % 100 != 0) || year % 400 == 0
}

/// Months with 31 days.
pub open spec fn is_long_month(month: int) -> bool {
    month == 1 || month == 3 || month == 5 || month == 7 || month == 8 || month == 10
        || month == 12
}

/// Number of days of a month: February by the leap rule, the long months 31,
/// every other month 30.
pub open spec fn month_length(year: int, month: int) -> int {
    if month == 2 {
        if is_leap(year) {
            29
        } else {
            28
        }
    } else if is_long_month(month) {
        31
    } else {
        30
    }
}

/// A calendar date that exists and lies in the range of `chrono::NaiveDate`.
pub open spec fn valid_ymd(year: int, month: int, day: int) -> bool {
    &&& MIN_YEAR <= year <= MAX_YEAR
    &&& 1 <= month <= 12
    &&& 1 <= day <= month_length(year, month)
}

/// Days of the years before `year` (day 1 is January 1 of year 1).
pub open spec fn days_before_year(year: int) -> int {
    365 * (year - 1) + (year - 1) / 4 - (year - 1) / 100 + (year - 1) / 400
}

/// Days of the months of `year` before `month`.
pub open spec fn days_before_month(year: int, month: int) -> int
    decreases month,
{
    if month <= 1 {
        0
    } else {
        days_before_month(year, month - 1) + month_length(year, month - 1)
    }
}

/// Day number of a date, with January 1 of year 1 as day 1.
pub open spec fn days_from_ce(year: int, month: int, day: int) -> int {
    days_before_year(year) + days_before_month(year, month) + day
}

/// Days since the last Monday (0 for a Monday) of the day with number `n`;
/// January 1 of year 1 was a Monday.
pub open spec fn weekday_from_monday(n: int) -> int {
    (n - 1) % 7
}

/// The number of the first day that `chrono::NaiveDate` represents.
pub open spec fn min_day_number() -> int {
    days_from_ce(MIN_YEAR as int, 1, 1)
}

/// The number of the last day that `chrono` represents.
pub open spec fn max_day_number() -> int {
    days_from_ce(MAX_YEAR as int, 12, 31)
}

/// A date of the proleptic Gregorian calendar.
#[derive(Clone, Copy, Debug, PartialEq, Eq, Structural)]
pub struct CalendarDate {
    pub year: i32,
    pub month: u32,
    pub day: u32,
}

impl CalendarDate {
    pub open spec fn wf(self) -> bool {
        valid_ymd(self.year as int, self.month as int, self.day as int)
    }

    /// The day number of this date.
    pub open spec fn number(self) -> int {
        days_from_ce(self.year as int, self.month as int, self.day as int)
    }

    /// The date for the given year, month and day, where it exists.
    pub fn from_ymd_opt(year: i32, month: u32, day: u32) -> (r: Option<CalendarDate>)
        ensures
            r is Some <==> valid_ymd(year as int, month as int, day as int),
            r matches Some(d) ==> d == (CalendarDate { year, month, day }),
    {
        naive_date_from_ymd(year, month, day)
    }

    /// The day number of this date (January 1 of year 1 is day 1).
    pub fn num_days_from_ce(&self) -> (r: i32)
        requires
            self.wf(),
        ensures
            r == self.number(),
    {
        naive_date_num_days_from_ce(self)
    }

    /// The date with the given day number, where `chrono` represents it.
    pub fn from_num_days_from_ce_opt(n: i32) -> (r: Option<CalendarDate>)
        ensures
            r is Some <==> min_day_number() <= n <= max_day_number(),
            r matches Some(d) ==> d.wf() && d.number() == n,
    {
        naive_date_from_num_days_from_ce(n)
    }
}

/// Compares two dates in calendar order: `true` when `a` comes strictly before `b`.
pub open spec fn date_before(a: CalendarDate, b: CalendarDate) -> bool {
    a.year < b.year || (a.year == b.year && (a.month < b.month || (a.month == b.month && a.day
        < b.day)))
}

/// `chrono::NaiveDate::from_ymd_opt`: `Some` exactly for the dates that exist
/// in the years `MIN_YEAR..=MAX_YEAR`, holding the given year, month and day.
#[verifier::external_body]
fn naive_date_from_ymd(year: i32, month: u32, day: u32) -> (r: Option<CalendarDate>)
    ensures
        r is Some <==> valid_ymd(year as int, month as int, day as int),
        r matches Some(d) ==> d == (CalendarDate { year, month, day }),
{
    match chrono::NaiveDate::from_ymd_opt(year, month, day) {
        Some(d) => Some(CalendarDate { year: d.year(), month: d.month(), day: d.day() }),
        None => None,
    }
}

/// `chrono::Datelike::num_days_from_ce`: the count of days with January 1 of
/// year 1 as day 1, which is the closed formula `days_from_ce`.
#[verifier::external_body]
fn naive_date_num_days_from_ce(date: &CalendarDate) -> (r: i32)
    requires
        date.wf(),
    ensures
        r == date.number(),
{
    chrono::NaiveDate::from_ymd_opt(date.year, date.month, date.day).unwrap().num_days_from_ce()
}

/// `chrono::NaiveDate::from_num_days_from_ce_opt`: `Some` exactly for the day
/// numbers of the representable dates, holding the date with that day number.
#[verifier::external_body]
fn naive_date_from_num_days_from_ce(n: i32) -> (r: Option<CalendarDate>)
    ensures
        r is Some <==> min_day_number() <= n <= max_day_number(),
        r matches Some(d) ==> d.wf() && d.number() == n,
{
    match chrono::NaiveDate::from_num_days_from_ce_opt(n) {
        Some(d) => Some(CalendarDate { year: d.year(), month: d.month(), day: d.day() }),
        None => None,
    }
}

/// The Gregorian leap year rule: divisible by 4, and by 400 where divisible by 100.
pub fn is_leap_year(year: i32) -> (r: bool)
    ensures
        r == is_leap(year as int),
{
    // Shifting by a multiple of 400 years keeps the rule and makes the year
    // positive, where `%` is the remainder of the floor division.
    let y: i64 = year as i64 + 2_400_000_000;
    assert(y % 4 == year % 4 && y % 100 == year % 100 && y % 400 == year % 400) by {
        assert(y == year + 400 * 6_000_000);
    }
    (y % 4 == 0 && y % 100 != 0) || y % 400 == 0
}

/// Number of days of `month` in `year`.
pub fn days_in_month(year: i32, month: u32) -> (r: u32)
    ensures
        r == month_length(year as int, month as int),
        28 <= r <= 31,
{
    if month == 2 {
        if is_leap_year(year) {
            29
        } else {
            28
        }
    } else if month == 1 || month == 3 || month == 5 || month == 7 || month == 8 || month == 10
        || month == 12 {
        31
    } else {
        30
    }
}

/// Days since the last Monday of the day with number `n` (0 for Monday).
pub fn num_days_from_monday(n: i64) -> (r: u32)
    requires
        n > i64::MIN,
    ensures
        r == weekday_from_monday(n as int),
        r < 7,
{
    let m = n - 1;
    let t = m % 7;
    let r = if t < 0 {
        t + 7
    } else {
        t
    };
    assert(r == m as int % 7) by {
        assert(m as int == 7 * (m as int / 7) + m as int % 7);
    }
    r as u32
}

/// A date and a time of day, as `chrono::NaiveDateTime` holds them
/// (`nanosecond` may exceed a second during a leap second).
#[derive(Clone, Copy, Debug, PartialEq, Eq, Structural)]
pub struct Timestamp {
    pub date: CalendarDate,
    pub hour: u32,
    pub minute: u32,
    pub second: u32,
    pub nanosecond: u32,
}

impl Timestamp {
    pub open spec fn wf(self) -> bool {
        &&& self.date.wf()
        &&& self.hour < 24
        &&& self.minute < 60
        &&& self.second < 60
        &&& self.nanosecond < 2_000_000_000
    }

    /// `date` at 00:00:00.
    pub open spec fn start_of_day(date: CalendarDate) -> Timestamp {
        Timestamp { date, hour: 0, minute: 0, second: 0, nanosecond: 0 }
    }

    /// `date` at 23:59:59.999999999.
    pub open spec fn end_of_day(date: CalendarDate) -> Timestamp {
        Timestamp { date, hour: 23, minute: 59, second: 59, nanosecond: 999_999_999 }
    }

    /// Chronological order: `true` when `self` comes strictly after `other`.
    pub open spec fn after(self, other: Timestamp) -> bool {
        let a = self;
        let b = other;
        date_before(b.date, a.date) || (a.date == b.date && (a.hour > b.hour || (a.hour == b.hour
            && (a.minute > b.minute || (a.minute == b.minute && (a.second > b.second || (a.second
            == b.second && a.nanosecond > b.nanosecond)))))))
    }

    /// Whether `self` comes strictly after `other`.
    pub fn is_after(&self, other: &Timestamp) -> (r: bool)
        ensures
            r == self.after(*other),
    {
        let a = self;
        let b = other;
        let date_after = b.date.year < a.date.year || (b.date.year == a.date.year && (b.date.month
            < a.date.month || (b.date.month == a.date.month && b.date.day < a.date.day)));
        let same_date = a.date.year == b.date.year && a.date.month == b.date.month && a.date.day
            == b.date.day;
        date_after || (same_date && (a.hour > b.hour || (a.hour == b.hour && (a.minute > b.minute
            || (a.minute == b.minute && (a.second > b.second || (a.second == b.second
            && a.nanosecond > b.nanosecond)))))))
    }

    /// `date.and_hms_opt(0, 0, 0)`.
    pub fn start_of_day_of(date: CalendarDate) -> (r: Timestamp)
        ensures
            r == Timestamp::start_of_day(date),
    {
        Timestamp { date, hour: 0, minute: 0, second: 0, nanosecond: 0 }
    }

    /// `date.and_hms_nano_opt(23, 59, 59, 999_999_999)`.
    pub fn end_of_day_of(date: CalendarDate) -> (r: Timestamp)
        ensures
            r == Timestamp::end_of_day(date),
    {
        Timestamp { date, hour: 23, minute: 59, second: 59, nanosecond: 999_999_999 }
    }
}

} // verus!
