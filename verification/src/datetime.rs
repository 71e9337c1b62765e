//! Parsing of upstream date strings.
//!
//! The provider reports every bar's time as `"YYYY-MM-DD HH:MM:SS"`.  The
//! parser turns such a string into a [`Timestamp`]; anything else — wrong
//! length, wrong separators, a digit out of place, or a field out of range —
//! is rejected.

use vstd::prelude::*;
use crate::calendar::{Timestamp, spec_day_number, valid_ymd, day_number, days_in_month};

verus! {

pub open spec fn is_digit(c: char) -> bool {
    '0' <= c && c <= '9'
}

pub open spec fn digit_val(c: char) -> int {
    c as int - '0' as int
}

/// A two-digit field starting at position `i`.
pub open spec fn field2(s: Seq<char>, i: int) -> int {
    digit_val(s[i]) * 10 + digit_val(s[i + 1])
}

/// The four-digit year field.
pub open spec fn year_field(s: Seq<char>) -> int {
    digit_val(s[0]) * 1000 + digit_val(s[1]) * 100 + digit_val(s[2]) * 10 + digit_val(s[3])
}

/// The string has exactly the shape `dddd-dd-dd dd:dd:dd`.
pub open spec fn datetime_shape_ok(s: Seq<char>) -> bool {
    &&& s.len() == 19
    &&& is_digit(s[0]) && is_digit(s[1]) && is_digit(s[2]) && is_digit(s[3])
    &&& s[4] == '-'
    &&& is_digit(s[5]) && is_digit(s[6])
    &&& s[7] == '-'
    &&& is_digit(s[8]) && is_digit(s[9])
    &&& s[10] == ' '
    &&& is_digit(s[11]) && is_digit(s[12])
    &&& s[13] == ':'
    &&& is_digit(s[14]) && is_digit(s[15])
    &&& s[16] == ':'
    &&& is_digit(s[17]) && is_digit(s[18])
}

/// All fields denote a representable date and a time of day.
pub open spec fn datetime_fields_ok(s: Seq<char>) -> bool {
    &&& valid_ymd(year_field(s), field2(s, 5), field2(s, 8))
    &&& field2(s, 11) < 24
    &&& field2(s, 14) < 60
    &&& field2(s, 17) < 60
}

/// What a date string denotes: the instant, or nothing if malformed.
pub open spec fn spec_parse_datetime(s: Seq<char>) -> Option<Timestamp> {
    if datetime_shape_ok(s) && datetime_fields_ok(s) {
        Some(
            Timestamp {
                day: spec_day_number(year_field(s), field2(s, 5), field2(s, 8)) as u32,
                sec: (field2(s, 11) * 3600 + field2(s, 14) * 60 + field2(s, 17)) as u32,
            },
        )
    } else {
        None
    }
}

/// Reads the digit at position `i`, or reports that none stands there.
fn read_digit(s: &str, i: usize) -> (r: Option<u32>)
    requires
        i < s@.len(),
    ensures
        match r {
            Some(v) => is_digit(s@[i as int]) && v == digit_val(s@[i as int]) && v <= 9,
            None => !is_digit(s@[i as int]),
        },
{
    let c = s.get_char(i);
    if '0' <= c && c <= '9' {
        Some(c as u32 - 48)
    } else {
        None
    }
}

/// True when character `expected` stands at position `i`.
fn has_char_at(s: &str, i: usize, expected: char) -> (r: bool)
    requires
        i < s@.len(),
    ensures
        r == (s@[i as int] == expected),
{
    s.get_char(i) == expected
}

/// Reads the two-digit field at position `i`.
fn read_field2(s: &str, i: usize) -> (r: Option<u32>)
    requires
        i + 1 < s@.len(),
        s@.len() < usize::MAX,
    ensures
        match r {
            Some(v) => is_digit(s@[i as int]) && is_digit(s@[i as int + 1]) && v == field2(
                s@,
                i as int,
            ) && v <= 99,
            None => !(is_digit(s@[i as int]) && is_digit(s@[i as int + 1])),
        },
{
    let hi = read_digit(s, i);
    let lo = read_digit(s, i + 1);
    match (hi, lo) {
        (Some(h), Some(l)) => Some(h * 10 + l),
        _ => None,
    }
}

/// Parses a `"YYYY-MM-DD HH:MM:SS"` string into an instant.
///
/// Returns the instant the string denotes, and `None` exactly on strings
/// that are not of that shape or whose fields are out of range.
pub fn parse_datetime(s: &str) -> (r: Option<Timestamp>)
    ensures
        r == spec_parse_datetime(s@),
        r matches Some(t) ==> t.wf(),
{
    if s.unicode_len() != 19 {
        return None;
    }
    let d0 = read_digit(s, 0);
    let d1 = read_digit(s, 1);
    let d2 = read_digit(s, 2);
    let d3 = read_digit(s, 3);
    let (y0, y1, y2, y3) = match (d0, d1, d2, d3) {
        (Some(a), Some(b), Some(c), Some(d)) => (a, b, c, d),
        _ => { return None; },
    };
    let year: u32 = y0 * 1000 + y1 * 100 + y2 * 10 + y3;
    if !has_char_at(s, 4, '-') || !has_char_at(s, 7, '-') || !has_char_at(s, 10, ' ')
        || !has_char_at(s, 13, ':') || !has_char_at(s, 16, ':') {
        return None;
    }
    let month = match read_field2(s, 5) {
        Some(v) => v,
        None => { return None; },
    };
    let dom = match read_field2(s, 8) {
        Some(v) => v,
        None => { return None; },
    };
    let hour = match read_field2(s, 11) {
        Some(v) => v,
        None => { return None; },
    };
    let minute = match read_field2(s, 14) {
        Some(v) => v,
        None => { return None; },
    };
    let second = match read_field2(s, 17) {
        Some(v) => v,
        None => { return None; },
    };
    if year < 1970 {
        return None;
    }
    if month < 1 || month > 12 {
        return None;
    }
    if dom < 1 || dom > days_in_month(year, month) {
        return None;
    }
    if hour >= 24 || minute >= 60 || second >= 60 {
        return None;
    }
    let day = day_number(year, month, dom);
    let sec: u32 = hour * 3600 + minute * 60 + second;
    Some(Timestamp { day, sec })
}

} // verus!
