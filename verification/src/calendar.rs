//! Proleptic-Gregorian calendar arithmetic at minute resolution: the
//! reference instant the matcher evaluates against, weekday computation and
//! ISO 8601 week numbers.
//!
//! Weekdays repeat with a period of 400 years (146097 days, a multiple of
//! seven), so every derivation below shifts the year up by 400 to keep the
//! arithmetic non-negative without changing any weekday or week number.
use vstd::prelude::*;

verus! {

/// A local date and time, truncated to whole minutes.
#[derive(Clone, Copy, PartialEq, Eq, Structural, Debug)]
pub struct Instant {
    pub year: i32,
    pub month: u32,
    pub day: u32,
    pub hour: u32,
    pub minute: u32,
}

/// Gregorian leap years.
pub open spec fn is_leap(y: int) -> bool {
    (y % 4 == 0 && y % 100 != 0) || y % 400 == 0
}

/// Length of month `m` (1..12) of year `y`.
pub open spec fn days_in_month(y: int, m: int) -> int {
    if m == 2 {
        if is_leap(y) {
            29
        } else {
            28
        }
    } else if m == 4 || m == 6 || m == 9 || m == 11 {
        30
    } else {
        31
    }
}

/// Days in the months of year `y` that come before month `m`.
pub open spec fn days_before_month(y: int, m: int) -> int
    decreases m,
{
    if m <= 1 {
        0
    } else {
        days_before_month(y, m - 1) + days_in_month(y, m - 1)
    }
}

/// Ordinal day of the year, 1-based: January 1st is day 1.
pub open spec fn day_of_year(y: int, m: int, d: int) -> int {
    days_before_month(y, m) + d
}

/// Days in the years 1..y-1 of the shifted calendar (`y` is already the
/// year plus 400).
pub open spec fn days_before_year(y: int) -> int {
    365 * (y - 1) + (y - 1) / 4 - (y - 1) / 100 + (y - 1) / 400
}

/// Weekday of a date, 0 = Monday .. 6 = Sunday.  January 1st of year 1
/// (proleptic Gregorian) was a Monday.
pub open spec fn weekday_index(y: int, m: int, d: int) -> int {
    (days_before_year(y + 400) + day_of_year(y, m, d) - 1) % 7
}

/// Number of ISO 8601 weeks in year `y`: 53 when January 1st falls on a
/// Thursday, or on a Wednesday of a leap year; 52 otherwise.
pub open spec fn iso_weeks_in_year(y: int) -> int {
    let jan1 = weekday_index(y, 1, 1);
    if jan1 == 3 || (is_leap(y) && jan1 == 2) {
        53
    } else {
        52
    }
}

/// ISO 8601 week number of a date, 1..53.  Days before the Monday of the
/// year's first week belong to the last week of the previous year; days past
/// the 52-week mark of a 52-week year belong to week 1 of the next year.
pub open spec fn iso_week(y: int, m: int, d: int) -> int {
    let wd = weekday_index(y, m, d) + 1;
    let w = (day_of_year(y, m, d) - wd + 10) / 7;
    if w == 0 {
        iso_weeks_in_year(y - 1)
    } else if w == 53 && iso_weeks_in_year(y) != 53 {
        1
    } else {
        w
    }
}

impl Instant {
    /// A well-formed instant: a real calendar date with an in-range time.
    pub open spec fn wf(self) -> bool {
        &&& 1 <= self.year <= 9999
        &&& 1 <= self.month <= 12
        &&& 1 <= self.day <= days_in_month(self.year as int, self.month as int)
        &&& self.hour <= 23
        &&& self.minute <= 59
    }

    /// Builds an instant, accepting exactly the well-formed values.
    pub fn new(year: i32, month: u32, day: u32, hour: u32, minute: u32) -> (r: Option<Instant>)
        ensures
            match r {
                Some(t) => {
                    &&& t.wf()
                    &&& t == (Instant { year, month, day, hour, minute })
                },
                None => !(Instant { year, month, day, hour, minute }).wf(),
            },
    {
        if 1 <= year && year <= 9999 && 1 <= month && month <= 12 && 1 <= day && day
            <= month_length(year, month) && hour <= 23 && minute <= 59 {
            Some(Instant { year, month, day, hour, minute })
        } else {
            None
        }
    }
}

/// Exec mirror of `is_leap`.
pub fn leap_year(y: i32) -> (r: bool)
    requires
        0 <= y <= 9999,
    ensures
        r == is_leap(y as int),
{
    (y % 4 == 0 && y % 100 != 0) || y % 400 == 0
}

/// Exec mirror of `days_in_month`.
pub fn month_length(y: i32, m: u32) -> (r: u32)
    requires
        0 <= y <= 9999,
        1 <= m <= 12,
    ensures
        r == days_in_month(y as int, m as int),
        28 <= r <= 31,
{
    if m == 2 {
        if leap_year(y) {
            29
        } else {
            28
        }
    } else if m == 4 || m == 6 || m == 9 || m == 11 {
        30
    } else {
        31
    }
}

/// Exec mirror of `day_of_year`; bounded by 366.
pub fn ordinal_day(y: i32, m: u32, d: u32) -> (r: u32)
    requires
        0 <= y <= 9999,
        1 <= m <= 12,
        1 <= d <= 31,
    ensures
        r == day_of_year(y as int, m as int, d as int),
        1 <= r <= 366,
{
    proof {
        lemma_days_before_month_bound(y as int, m as int);
    }
    let mut acc: u32 = 0;
    let mut i: u32 = 1;
    while i < m
        invariant
            0 <= y <= 9999,
            1 <= i <= m <= 12,
            acc == days_before_month(y as int, i as int),
            acc <= 335,
        decreases m - i,
    {
        proof {
            lemma_days_before_month_bound(y as int, i as int);
            lemma_days_before_month_bound(y as int, i + 1);
        }
        acc = acc + month_length(y, i);
        i = i + 1;
    }
    acc + d
}

/// Cumulative month lengths of a non-leap year.
pub open spec fn cum_days(m: int) -> int {
    if m <= 1 {
        0
    } else if m == 2 {
        31
    } else if m == 3 {
        59
    } else if m == 4 {
        90
    } else if m == 5 {
        120
    } else if m == 6 {
        151
    } else if m == 7 {
        181
    } else if m == 8 {
        212
    } else if m == 9 {
        243
    } else if m == 10 {
        273
    } else if m == 11 {
        304
    } else if m == 12 {
        334
    } else {
        365
    }
}

/// The recursive month sum agrees with the table, up to the leap day.
proof fn lemma_days_before_month_bound(y: int, m: int)
    requires
        1 <= m <= 13,
    ensures
        days_before_month(y, m) == cum_days(m) + if m >= 3 && is_leap(y) {
            1int
        } else {
            0int
        },
        0 <= days_before_month(y, m) <= 366,
        m <= 12 ==> days_before_month(y, m) <= 335,
    decreases m,
{
    if m > 1 {
        lemma_days_before_month_bound(y, m - 1);
    }
}

/// Weekday of a date, 0 = Monday .. 6 = Sunday.
pub fn weekday_of(y: i32, m: u32, d: u32) -> (r: u32)
    requires
        0 <= y <= 9999,
        1 <= m <= 12,
        1 <= d <= 31,
    ensures
        r == weekday_index(y as int, m as int, d as int),
        r <= 6,
{
    let ys: u32 = (y + 400) as u32;
    let prev: u32 = ys - 1;
    let before: u32 = 365 * prev + prev / 4 - prev / 100 + prev / 400;
    let doy: u32 = ordinal_day(y, m, d);
    (before + doy - 1) % 7
}

/// Number of ISO 8601 weeks in a year.
pub fn weeks_in_year(y: i32) -> (r: u32)
    requires
        0 <= y <= 9999,
    ensures
        r == iso_weeks_in_year(y as int),
        r == 52 || r == 53,
{
    let jan1 = weekday_of(y, 1, 1);
    if jan1 == 3 || (leap_year(y) && jan1 == 2) {
        53
    } else {
        52
    }
}

/// ISO 8601 week number of a date, 1..53.
pub fn week_of(y: i32, m: u32, d: u32) -> (r: u32)
    requires
        1 <= y <= 9999,
        1 <= m <= 12,
        1 <= d <= 31,
    ensures
        r == iso_week(y as int, m as int, d as int),
        1 <= r <= 53,
{
    let wd = weekday_of(y, m, d) + 1;
    let doy = ordinal_day(y, m, d);
    let w = (doy + 10 - wd) / 7;
    if w == 0 {
        weeks_in_year(y - 1)
    } else if w == 53 && weeks_in_year(y) != 53 {
        1
    } else {
        w
    }
}

} // verus!
