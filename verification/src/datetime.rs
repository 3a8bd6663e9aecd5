//! Calendar dates and times as plain values, with the fixed wire format
//! `YYYY-MM-DDTHH:MM:SSZ` used for the date-range query parameters.

use vstd::prelude::*;
use crate::decimal::{digit_char, digit_val, is_digit_char};

verus! {

#[derive(Clone, Copy, Debug, PartialEq, Eq, Structural)]
pub struct Date {
    pub year: u32,
    pub month: u32,
    pub day: u32,
}

#[derive(Clone, Copy, Debug, PartialEq, Eq, Structural)]
pub struct Time {
    pub hour: u32,
    pub minute: u32,
    pub second: u32,
}

/// A UTC timestamp with second precision.
#[derive(Clone, Copy, Debug, PartialEq, Eq, Structural)]
pub struct DateTime {
    pub date: Date,
    pub time: Time,
}

pub open spec fn is_leap_year(y: int) -> bool {
    y % 4 == 0 && (y % 100 != 0 || y % 400 == 0)
}

pub open spec fn days_in_month(y: int, m: int) -> int {
    if m == 2 {
        if is_leap_year(y) {
            29
        } else {
            28
        }
    } else if m == 4 || m == 6 || m == 9 || m == 11 {
        30
    } else {
        31
    }
}

impl Date {
    /// A proper calendar date that the four-digit year field can carry.
    pub open spec fn valid(self) -> bool {
        self.year <= 9999 && 1 <= self.month <= 12 && 1 <= self.day <= days_in_month(
            self.year as int,
            self.month as int,
        )
    }

    /// Builds a date, rejecting anything outside the calendar.
    pub fn new(year: u32, month: u32, day: u32) -> (r: Option<Date>)
        ensures
            ({
                let d = Date { year, month, day };
                if d.valid() {
                    r == Some(d)
                } else {
                    r is None
                }
            }),
    {
        let d = Date { year, month, day };
        if year <= 9999 && 1 <= month && month <= 12 && 1 <= day && day <= days_in_month_exec(
            year,
            month,
        ) {
            Some(d)
        } else {
            None
        }
    }
}

fn days_in_month_exec(y: u32, m: u32) -> (r: u32)
    ensures
        r == days_in_month(y as int, m as int),
{
    if m == 2 {
        if y % 4 == 0 && (y % 100 != 0 || y % 400 == 0) {
            29
        } else {
            28
        }
    } else if m == 4 || m == 6 || m == 9 || m == 11 {
        30
    } else {
        31
    }
}

impl Time {
    pub open spec fn valid(self) -> bool {
        self.hour < 24 && self.minute < 60 && self.second < 60
    }

    pub fn new(hour: u32, minute: u32, second: u32) -> (r: Option<Time>)
        ensures
            ({
                let t = Time { hour, minute, second };
                if t.valid() {
                    r == Some(t)
                } else {
                    r is None
                }
            }),
    {
        let t = Time { hour, minute, second };
        if hour < 24 && minute < 60 && second < 60 {
            Some(t)
        } else {
            None
        }
    }
}

impl DateTime {
    pub open spec fn valid(self) -> bool {
        self.date.valid() && self.time.valid()
    }

    pub fn new(year: u32, month: u32, day: u32, hour: u32, minute: u32, second: u32) -> (r: Option<
        DateTime,
    >)
        ensures
            ({
                let dt = DateTime {
                    date: Date { year, month, day },
                    time: Time { hour, minute, second },
                };
                if dt.valid() {
                    r == Some(dt)
                } else {
                    r is None
                }
            }),
    {
        match (Date::new(year, month, day), Time::new(hour, minute, second)) {
            (Some(date), Some(time)) => Some(DateTime { date, time }),
            _ => None,
        }
    }
}

/// The twenty characters of `YYYY-MM-DDTHH:MM:SSZ` for a timestamp.
pub open spec fn spec_datetime_str(dt: DateTime) -> Seq<char> {
    let y = dt.date.year as int;
    let mo = dt.date.month as int;
    let da = dt.date.day as int;
    let h = dt.time.hour as int;
    let mi = dt.time.minute as int;
    let se = dt.time.second as int;
    seq![
        digit_char(y / 1000 % 10),
        digit_char(y / 100 % 10),
        digit_char(y / 10 % 10),
        digit_char(y % 10),
        '-',
        digit_char(mo / 10 % 10),
        digit_char(mo % 10),
        '-',
        digit_char(da / 10 % 10),
        digit_char(da % 10),
        'T',
        digit_char(h / 10 % 10),
        digit_char(h % 10),
        ':',
        digit_char(mi / 10 % 10),
        digit_char(mi % 10),
        ':',
        digit_char(se / 10 % 10),
        digit_char(se % 10),
        'Z',
    ]
}

/// Value of the two wire digits starting at position `i`.
pub open spec fn two_digits_at(s: Seq<char>, i: int) -> int {
    digit_val(s[i]) * 10 + digit_val(s[i + 1])
}

/// Value of the four wire digits starting at position `i`.
pub open spec fn four_digits_at(s: Seq<char>, i: int) -> int {
    digit_val(s[i]) * 1000 + digit_val(s[i + 1]) * 100 + digit_val(s[i + 2]) * 10 + digit_val(
        s[i + 3],
    )
}

/// The text is shaped like the timestamp wire format: right length, digits
/// and separators in their fixed places.
pub open spec fn datetime_shaped(s: Seq<char>) -> bool {
    &&& s.len() == 20
    &&& is_digit_char(s[0]) && is_digit_char(s[1]) && is_digit_char(s[2]) && is_digit_char(s[3])
    &&& s[4] == '-'
    &&& is_digit_char(s[5]) && is_digit_char(s[6])
    &&& s[7] == '-'
    &&& is_digit_char(s[8]) && is_digit_char(s[9])
    &&& s[10] == 'T'
    &&& is_digit_char(s[11]) && is_digit_char(s[12])
    &&& s[13] == ':'
    &&& is_digit_char(s[14]) && is_digit_char(s[15])
    &&& s[16] == ':'
    &&& is_digit_char(s[17]) && is_digit_char(s[18])
    &&& s[19] == 'Z'
}

/// What decoding a timestamp field yields: the timestamp, or nothing when
/// the text is not in the wire format or is no proper calendar date.
pub open spec fn spec_parse_datetime(s: Seq<char>) -> Option<DateTime> {
    if datetime_shaped(s) {
        let dt = DateTime {
            date: Date {
                year: four_digits_at(s, 0) as u32,
                month: two_digits_at(s, 5) as u32,
                day: two_digits_at(s, 8) as u32,
            },
            time: Time {
                hour: two_digits_at(s, 11) as u32,
                minute: two_digits_at(s, 14) as u32,
                second: two_digits_at(s, 17) as u32,
            },
        };
        if dt.valid() {
            Some(dt)
        } else {
            None
        }
    } else {
        None
    }
}

/// Formatting then parsing gives the timestamp back.
pub proof fn lemma_datetime_roundtrip(dt: DateTime)
    requires
        dt.valid(),
    ensures
        spec_parse_datetime(spec_datetime_str(dt)) == Some(dt),
{
    let s = spec_datetime_str(dt);
    let y = dt.date.year as int;
    assert(four_digits_at(s, 0) == y) by {
        assert(digit_val(s[0]) == y / 1000 % 10);
        assert(digit_val(s[1]) == y / 100 % 10);
        assert(digit_val(s[2]) == y / 10 % 10);
        assert(digit_val(s[3]) == y % 10);
        lemma_four_digit_decomposition(y);
    };
    assert(two_digits_at(s, 5) == dt.date.month) by {
        lemma_two_digit_decomposition(dt.date.month as int);
    };
    assert(two_digits_at(s, 8) == dt.date.day) by {
        lemma_two_digit_decomposition(dt.date.day as int);
    };
    assert(two_digits_at(s, 11) == dt.time.hour) by {
        lemma_two_digit_decomposition(dt.time.hour as int);
    };
    assert(two_digits_at(s, 14) == dt.time.minute) by {
        lemma_two_digit_decomposition(dt.time.minute as int);
    };
    assert(two_digits_at(s, 17) == dt.time.second) by {
        lemma_two_digit_decomposition(dt.time.second as int);
    };
}

proof fn lemma_two_digit_decomposition(n: int)
    requires
        0 <= n < 100,
    ensures
        (n / 10 % 10) * 10 + n % 10 == n,
{
}

proof fn lemma_four_digit_decomposition(n: int)
    requires
        0 <= n < 10000,
    ensures
        (n / 1000 % 10) * 1000 + (n / 100 % 10) * 100 + (n / 10 % 10) * 10 + n % 10 == n,
{
    assert((n / 1000 % 10) * 1000 + (n / 100 % 10) * 100 + (n / 10 % 10) * 10 + n % 10 == n)
        by (nonlinear_arith)
        requires
            0 <= n < 10000,
    ;
}

fn push_two_digits(s: &mut String, n: u32)
    requires
        n < 100,
    ensures
        final(s)@ == old(s)@ + seq![digit_char(n as int / 10 % 10), digit_char(n as int % 10)],
{
    s.push(digit_of_mod(n / 10));
    s.push(digit_of_mod(n % 10));
    proof {
        assert(n as int / 10 % 10 == n as int / 10);
        assert(final(s)@ =~= old(s)@ + seq![
            digit_char(n as int / 10 % 10),
            digit_char(n as int % 10),
        ]);
    }
}

fn digit_of_mod(d: u32) -> (c: char)
    requires
        d < 10,
    ensures
        c == digit_char(d as int),
{
    ((48 + d) as u8) as char
}

/// Render a timestamp in the wire format.
#[verifier::rlimit(100)]
pub fn datetime_to_string(dt: &DateTime) -> (r: String)
    requires
        dt.valid(),
    ensures
        r@ == spec_datetime_str(*dt),
        spec_parse_datetime(r@) == Some(*dt),
{
    proof {
        lemma_datetime_roundtrip(*dt);
    }
    let y = dt.date.year;
    let mut s = String::new();
    s.push(digit_of_mod(y / 1000));
    s.push(digit_of_mod(y / 100 % 10));
    s.push(digit_of_mod(y / 10 % 10));
    s.push(digit_of_mod(y % 10));
    s.push('-');
    push_two_digits(&mut s, dt.date.month);
    s.push('-');
    push_two_digits(&mut s, dt.date.day);
    s.push('T');
    push_two_digits(&mut s, dt.time.hour);
    s.push(':');
    push_two_digits(&mut s, dt.time.minute);
    s.push(':');
    push_two_digits(&mut s, dt.time.second);
    s.push('Z');
    proof {
        assert(dt.date.year as int / 1000 % 10 == dt.date.year as int / 1000);
        assert(s@ =~= spec_datetime_str(*dt));
    }
    s
}

fn two_digits_value(s: &str, i: usize) -> (r: Option<u32>)
    requires
        i + 2 <= s@.len() <= usize::MAX,
    ensures
        ({
            match r {
                Some(v) => is_digit_char(s@[i as int]) && is_digit_char(s@[i as int + 1]) && v
                    == two_digits_at(s@, i as int),
                None => !(is_digit_char(s@[i as int]) && is_digit_char(s@[i as int + 1])),
            }
        }),
{
    let c0 = s.get_char(i) as u32;
    let c1 = s.get_char(i + 1) as u32;
    if 48 <= c0 && c0 <= 57 && 48 <= c1 && c1 <= 57 {
        Some((c0 - 48) * 10 + (c1 - 48))
    } else {
        None
    }
}

/// Parse a timestamp field.
pub fn parse_datetime(s: &str) -> (r: Option<DateTime>)
    ensures
        r == spec_parse_datetime(s@),
{
    if s.unicode_len() != 20 {
        return None;
    }
    if !(s.get_char(4) == '-' && s.get_char(7) == '-' && s.get_char(10) == 'T' && s.get_char(13)
        == ':' && s.get_char(16) == ':' && s.get_char(19) == 'Z') {
        return None;
    }
    let y0 = two_digits_value(s, 0);
    let y1 = two_digits_value(s, 2);
    let mo = two_digits_value(s, 5);
    let da = two_digits_value(s, 8);
    let h = two_digits_value(s, 11);
    let mi = two_digits_value(s, 14);
    let se = two_digits_value(s, 17);
    match (y0, y1, mo, da, h, mi, se) {
        (Some(y0), Some(y1), Some(mo), Some(da), Some(h), Some(mi), Some(se)) => {
            let year = y0 * 100 + y1;
            proof {
                assert(year == four_digits_at(s@, 0));
            }
            match DateTime::new(year, mo, da, h, mi, se) {
                Some(dt) => Some(dt),
                None => None,
            }
        },
        _ => None,
    }
}

} // verus!
