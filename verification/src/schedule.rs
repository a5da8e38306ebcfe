//! The schedule date carried by a newsletter: a wall-clock instant written as
//! `YYYY-MM-DDTHH:MM` and interpreted as UTC with no offset. The parser
//! accepts exactly the well-formed strings that name a real calendar date and
//! a real time of day.

use vstd::prelude::*;
use vstd::string::*;

verus! {

/// A parsed schedule instant: UTC wall-clock fields, no offset, no seconds.
#[derive(Clone, Copy, Debug, PartialEq, Eq, Structural)]
pub struct ScheduleDate {
    pub year: u32,
    pub month: u32,
    pub day: u32,
    pub hour: u32,
    pub minute: u32,
}

/// `c` is an ASCII decimal digit.
pub open spec fn is_digit(c: char) -> bool {
    48 <= c as int <= 57
}

/// Numeric value of an ASCII decimal digit.
pub open spec fn digit_val(c: char) -> int {
    c as int - 48
}

/// The string has the shape `YYYY-MM-DDTHH:MM`: sixteen characters, digits
/// and the three fixed separators in their places.
pub open spec fn date_str_well_formed(s: Seq<char>) -> bool {
    &&& s.len() == 16
    &&& is_digit(s[0])
    &&& is_digit(s[1])
    &&& is_digit(s[2])
    &&& is_digit(s[3])
    &&& s[4] == '-'
    &&& is_digit(s[5])
    &&& is_digit(s[6])
    &&& s[7] == '-'
    &&& is_digit(s[8])
    &&& is_digit(s[9])
    &&& s[10] == 'T'
    &&& is_digit(s[11])
    &&& is_digit(s[12])
    &&& s[13] == ':'
    &&& is_digit(s[14])
    &&& is_digit(s[15])
}

pub open spec fn year_of(s: Seq<char>) -> int {
    digit_val(s[0]) * 1000 + digit_val(s[1]) * 100 + digit_val(s[2]) * 10 + digit_val(s[3])
}

pub open spec fn month_of(s: Seq<char>) -> int {
    digit_val(s[5]) * 10 + digit_val(s[6])
}

pub open spec fn day_of(s: Seq<char>) -> int {
    digit_val(s[8]) * 10 + digit_val(s[9])
}

pub open spec fn hour_of(s: Seq<char>) -> int {
    digit_val(s[11]) * 10 + digit_val(s[12])
}

pub open spec fn minute_of(s: Seq<char>) -> int {
    digit_val(s[14]) * 10 + digit_val(s[15])
}

/// Gregorian leap-year rule.
pub open spec fn is_leap_year(y: int) -> bool {
    y % 4 == 0 && (y % 100 != 0 || y % 400 == 0)
}

/// Number of days in month `m` of year `y`, for `1 <= m <= 12`.
pub open spec fn days_in_month(y: int, m: int) -> int {
    if m == 2 {
        if is_leap_year(y) {
            29
        } else {
            28
        }
    } else if m == 4 || m == 6 || m == 9 || m == 11 {
        30
    } else {
        31
    }
}

/// The five fields name a real calendar date and a real time of day.
pub open spec fn date_fields_valid(y: int, m: int, d: int, h: int, min: int) -> bool {
    &&& 1 <= m <= 12
    &&& 1 <= d <= days_in_month(y, m)
    &&& 0 <= h <= 23
    &&& 0 <= min <= 59
}

/// The string parses: it is well formed and its fields are valid.
pub open spec fn valid_schedule_str(s: Seq<char>) -> bool {
    &&& date_str_well_formed(s)
    &&& date_fields_valid(year_of(s), month_of(s), day_of(s), hour_of(s), minute_of(s))
}

/// The instant a valid schedule string denotes.
pub open spec fn parsed_schedule(s: Seq<char>) -> ScheduleDate {
    ScheduleDate {
        year: year_of(s) as u32,
        month: month_of(s) as u32,
        day: day_of(s) as u32,
        hour: hour_of(s) as u32,
        minute: minute_of(s) as u32,
    }
}

impl ScheduleDate {
    /// The fields name a real calendar date and time of day.
    pub open spec fn wf(self) -> bool {
        date_fields_valid(
            self.year as int,
            self.month as int,
            self.day as int,
            self.hour as int,
            self.minute as int,
        )
    }
}

/// Reads one ASCII digit at position `i`, or `None` if the character there is
/// not a digit.
fn digit_at(s: &str, i: usize) -> (r: Option<u32>)
    requires
        i < s@.len(),
    ensures
        match r {
            Some(d) => is_digit(s@[i as int]) && d == digit_val(s@[i as int]) && d <= 9,
            None => !is_digit(s@[i as int]),
        },
{
    let c = s.get_char(i) as u32;
    if 48 <= c && c <= 57 {
        Some(c - 48)
    } else {
        None
    }
}

/// Reads the two-digit field at positions `i` and `i + 1`.
fn two_digits_at(s: &str, i: usize) -> (r: Option<u32>)
    requires
        i + 1 < s@.len(),
        s@.len() <= usize::MAX,
    ensures
        match r {
            Some(v) => is_digit(s@[i as int]) && is_digit(s@[i as int + 1]) && v == digit_val(
                s@[i as int],
            ) * 10 + digit_val(s@[i as int + 1]) && v <= 99,
            None => !(is_digit(s@[i as int]) && is_digit(s@[i as int + 1])),
        },
{
    let hi = digit_at(s, i);
    let lo = digit_at(s, i + 1);
    match (hi, lo) {
        (Some(h), Some(l)) => Some(h * 10 + l),
        _ => None,
    }
}

/// Parses a schedule string of the fixed shape `YYYY-MM-DDTHH:MM`.
///
/// Returns the parsed instant exactly when the string is well formed and
/// names a real calendar date and time of day; returns `None` otherwise.
pub fn parse_schedule_date(s: &str) -> (r: Option<ScheduleDate>)
    ensures
        match r {
            Some(d) => valid_schedule_str(s@) && d == parsed_schedule(s@) && d.wf(),
            None => !valid_schedule_str(s@),
        },
{
    if s.unicode_len() != 16 {
        return None;
    }
    if s.get_char(4) != '-' || s.get_char(7) != '-' || s.get_char(10) != 'T' || s.get_char(13)
        != ':' {
        return None;
    }
    let y_hi = match two_digits_at(s, 0) {
        Some(v) => v,
        None => {
            return None;
        },
    };
    let y_lo = match two_digits_at(s, 2) {
        Some(v) => v,
        None => {
            return None;
        },
    };
    let year = y_hi * 100 + y_lo;
    let month = match two_digits_at(s, 5) {
        Some(v) => v,
        None => {
            return None;
        },
    };
    let day = match two_digits_at(s, 8) {
        Some(v) => v,
        None => {
            return None;
        },
    };
    let hour = match two_digits_at(s, 11) {
        Some(v) => v,
        None => {
            return None;
        },
    };
    let minute = match two_digits_at(s, 14) {
        Some(v) => v,
        None => {
            return None;
        },
    };
    if month < 1 || month > 12 {
        return None;
    }
    let max_day = days_in_month_exec(year, month);
    if day < 1 || day > max_day {
        return None;
    }
    if hour > 23 {
        return None;
    }
    if minute > 59 {
        return None;
    }
    Some(ScheduleDate { year, month, day, hour, minute })
}

/// Executable counterpart of `days_in_month`.
fn days_in_month_exec(y: u32, m: u32) -> (r: u32)
    requires
        1 <= m <= 12,
    ensures
        r == days_in_month(y as int, m as int),
{
    if m == 2 {
        if y % 4 == 0 && (y % 100 != 0 || y % 400 == 0) {
            29
        } else {
            28
        }
    } else if m == 4 || m == 6 || m == 9 || m == 11 {
        30
    } else {
        31
    }
}

} // verus!
