//! Instants on the trading calendar.
//!
//! An instant is a day number (days since 1970-01-01) together with a second
//! of that day.  Weekdays follow from the day number alone: day 0 was a
//! Thursday.

use vstd::prelude::*;

verus! {

/// Largest representable day number (far beyond year 9999).
pub const MAX_DAY: u32 = 2_999_999;

/// Seconds in one day.
pub const SECS_PER_DAY: u32 = 86_400;

/// An instant: a day number since 1970-01-01 and a second of that day.
#[derive(Clone, Copy, Debug, PartialEq, Eq, Structural)]
pub struct Timestamp {
    pub day: u32,
    pub sec: u32,
}

impl Timestamp {
    /// A well-formed instant: the day is representable and the second
    /// lies within one day.
    pub open spec fn wf(self) -> bool {
        self.day <= MAX_DAY && self.sec < SECS_PER_DAY
    }

    /// The instant as a single count of seconds since 1970-01-01 00:00:00.
    pub open spec fn time(self) -> int {
        self.day * (SECS_PER_DAY as int) + self.sec
    }
}

/// Day of the week.  Day number 0 (1970-01-01) was a Thursday.
#[derive(Clone, Copy, Debug, PartialEq, Eq, Structural)]
pub enum Weekday {
    Mon,
    Tue,
    Wed,
    Thu,
    Fri,
    Sat,
    Sun,
}

/// Position of a day number within the week, with Monday at 0.
pub open spec fn weekday_index(day: int) -> int {
    (day + 3) % 7
}

pub open spec fn weekday_from_index(idx: int) -> Weekday {
    if idx == 0 {
        Weekday::Mon
    } else if idx == 1 {
        Weekday::Tue
    } else if idx == 2 {
        Weekday::Wed
    } else if idx == 3 {
        Weekday::Thu
    } else if idx == 4 {
        Weekday::Fri
    } else if idx == 5 {
        Weekday::Sat
    } else {
        Weekday::Sun
    }
}

/// The weekday of a day number.
pub open spec fn spec_weekday(day: int) -> Weekday {
    weekday_from_index(weekday_index(day))
}

/// Computes the weekday of a day number.
pub fn weekday_of_day(day: u32) -> (w: Weekday)
    ensures
        w == spec_weekday(day as int),
{
    let idx: u32 = (day % 7 + 3) % 7;
    proof {
        vstd::arithmetic::div_mod::lemma_add_mod_noop(day as int, 3int, 7int);
    }
    if idx == 0 {
        Weekday::Mon
    } else if idx == 1 {
        Weekday::Tue
    } else if idx == 2 {
        Weekday::Wed
    } else if idx == 3 {
        Weekday::Thu
    } else if idx == 4 {
        Weekday::Fri
    } else if idx == 5 {
        Weekday::Sat
    } else {
        Weekday::Sun
    }
}

/// Two instants compare by their total second counts.
pub open spec fn ts_le(a: Timestamp, b: Timestamp) -> bool {
    a.time() <= b.time()
}

pub open spec fn ts_lt(a: Timestamp, b: Timestamp) -> bool {
    a.time() < b.time()
}

/// Compares two instants; equivalent to comparing their second counts.
pub fn timestamp_le(a: &Timestamp, b: &Timestamp) -> (r: bool)
    requires
        a.wf(),
        b.wf(),
    ensures
        r == ts_le(*a, *b),
{
    if a.day < b.day {
        true
    } else if a.day == b.day {
        a.sec <= b.sec
    } else {
        false
    }
}

pub fn timestamp_lt(a: &Timestamp, b: &Timestamp) -> (r: bool)
    requires
        a.wf(),
        b.wf(),
    ensures
        r == ts_lt(*a, *b),
{
    if a.day < b.day {
        true
    } else if a.day == b.day {
        a.sec < b.sec
    } else {
        false
    }
}

/// Gregorian leap year.
pub open spec fn spec_is_leap_year(y: int) -> bool {
    y % 4 == 0 && (y % 100 != 0 || y % 400 == 0)
}

pub fn is_leap_year(y: u32) -> (r: bool)
    ensures
        r == spec_is_leap_year(y as int),
{
    y % 4 == 0 && (y % 100 != 0 || y % 400 == 0)
}

/// Number of days in a year.
pub open spec fn spec_days_in_year(y: int) -> int {
    if spec_is_leap_year(y) {
        366
    } else {
        365
    }
}

/// Number of days in a month of a year.
pub open spec fn spec_days_in_month(y: int, m: int) -> int {
    if m == 2 {
        if spec_is_leap_year(y) {
            29
        } else {
            28
        }
    } else if m == 4 || m == 6 || m == 9 || m == 11 {
        30
    } else {
        31
    }
}

pub fn days_in_month(y: u32, m: u32) -> (r: u32)
    ensures
        r == spec_days_in_month(y as int, m as int),
        28 <= r <= 31,
{
    if m == 2 {
        if is_leap_year(y) {
            29
        } else {
            28
        }
    } else if m == 4 || m == 6 || m == 9 || m == 11 {
        30
    } else {
        31
    }
}

/// Days in the calendar from 1970-01-01 up to the first day of year `y`.
pub open spec fn spec_days_before_year(y: int) -> int
    decreases y - 1970,
{
    if y <= 1970 {
        0
    } else {
        spec_days_before_year(y - 1) + spec_days_in_year(y - 1)
    }
}

/// Days from the first day of year `y` up to the first day of month `m`.
pub open spec fn spec_days_before_month(y: int, m: int) -> int
    decreases m,
{
    if m <= 1 {
        0
    } else {
        spec_days_before_month(y, m - 1) + spec_days_in_month(y, m - 1)
    }
}

/// The day number of a calendar date: days since 1970-01-01.
pub open spec fn spec_day_number(y: int, m: int, d: int) -> int {
    spec_days_before_year(y) + spec_days_before_month(y, m) + (d - 1)
}

/// A calendar date the library can represent.
pub open spec fn valid_ymd(y: int, m: int, d: int) -> bool {
    1970 <= y <= 9999 && 1 <= m <= 12 && 1 <= d <= spec_days_in_month(y, m)
}

proof fn lemma_days_before_year_bound(y: int)
    requires
        1970 <= y,
    ensures
        spec_days_before_year(y) <= (y - 1970) * 366,
    decreases y - 1970,
{
    if y > 1970 {
        lemma_days_before_year_bound(y - 1);
    }
}

proof fn lemma_days_before_month_bound(y: int, m: int)
    requires
        1 <= m <= 13,
    ensures
        spec_days_before_month(y, m) <= (m - 1) * 31,
        0 <= spec_days_before_month(y, m),
    decreases m,
{
    if m > 1 {
        lemma_days_before_month_bound(y, m - 1);
    }
}

fn days_before_year(y: u32) -> (r: u32)
    requires
        1970 <= y <= 9999,
    ensures
        r == spec_days_before_year(y as int),
        r <= (y - 1970) * 366,
{
    let mut acc: u32 = 0;
    let mut i: u32 = 1970;
    while i < y
        invariant
            1970 <= i <= y <= 9999,
            acc == spec_days_before_year(i as int),
            acc <= (i - 1970) * 366,
        decreases y - i,
    {
        acc = acc + if is_leap_year(i) {
            366
        } else {
            365
        };
        i = i + 1;
    }
    acc
}

fn days_before_month(y: u32, m: u32) -> (r: u32)
    requires
        1 <= m <= 12,
    ensures
        r == spec_days_before_month(y as int, m as int),
        r <= (m - 1) * 31,
{
    let mut acc: u32 = 0;
    let mut i: u32 = 1;
    while i < m
        invariant
            1 <= i <= m <= 12,
            acc == spec_days_before_month(y as int, i as int),
            acc <= (i - 1) * 31,
        decreases m - i,
    {
        acc = acc + days_in_month(y, i);
        i = i + 1;
    }
    acc
}

/// Computes the day number of a calendar date.
pub fn day_number(y: u32, m: u32, d: u32) -> (r: u32)
    requires
        valid_ymd(y as int, m as int, d as int),
    ensures
        r == spec_day_number(y as int, m as int, d as int),
        r <= MAX_DAY,
{
    proof {
        lemma_days_before_year_bound(y as int);
        lemma_days_before_month_bound(y as int, m as int);
    }
    days_before_year(y) + days_before_month(y, m) + (d - 1)
}

} // verus!
