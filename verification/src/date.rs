//! Calendar dates for offer expirations.
//!
//! An offer's `offer_until` is a plain calendar date with no time component.
//! The pipeline needs to build dates from parts, parse and print the
//! `YYYY-MM-DD` form used at the catalog boundary, recognize English month
//! names as the Steam banner prints them, and compare dates for the
//! year-rollover correction.

use vstd::prelude::*;
use crate::strings::lower_seq;
use crate::strings::lower_chars;
use crate::strings::chars_eq_str;

verus! {

/// A calendar date. Valid dates keep the year within four decimal digits,
/// which covers every date the storefronts publish.
#[derive(Clone, Copy, Debug, PartialEq, Eq, Structural)]
pub struct Date {
    pub year: u32,
    pub month: u32,
    pub day: u32,
}

/// Gregorian leap-year rule.
pub open spec fn is_leap_year(y: int) -> bool {
    y % 4 == 0 && (y % 100 != 0 || y % 400 == 0)
}

/// Number of days in the given month of the given year.
pub open spec fn days_in_month(y: int, m: int) -> int {
    if m == 2 {
        if is_leap_year(y) {
            29
        } else {
            28
        }
    } else if m == 4 || m == 6 || m == 9 || m == 11 {
        30
    } else {
        31
    }
}

impl Date {
    /// A real calendar date with a four-digit year.
    pub open spec fn valid(self) -> bool {
        &&& self.year <= 9999
        &&& 1 <= self.month <= 12
        &&& 1 <= self.day
        &&& self.day <= days_in_month(self.year as int, self.month as int)
    }

    /// Strict calendar order.
    pub open spec fn before(self, o: Date) -> bool {
        ||| self.year < o.year
        ||| (self.year == o.year && self.month < o.month)
        ||| (self.year == o.year && self.month == o.month && self.day < o.day)
    }

    /// Exec test of `before`.
    pub fn is_before(&self, o: &Date) -> (r: bool)
        ensures
            r == self.before(*o),
    {
        self.year < o.year || (self.year == o.year && self.month < o.month) || (self.year
            == o.year && self.month == o.month && self.day < o.day)
    }

    /// Builds a date when the parts name a real calendar day, and refuses
    /// them otherwise.
    pub fn from_ymd(year: u32, month: u32, day: u32) -> (r: Option<Date>)
        ensures
            r is Some <==> (Date { year, month, day }).valid(),
            r matches Some(d) ==> d == (Date { year, month, day }),
    {
        if year <= 9999 && 1 <= month && month <= 12 && 1 <= day && day <= days_in_month_x(
            year,
            month,
        ) {
            Some(Date { year, month, day })
        } else {
            None
        }
    }
}

/// Exec table of month lengths.
pub fn days_in_month_x(y: u32, m: u32) -> (r: u32)
    requires
        1 <= m <= 12,
    ensures
        r == days_in_month(y as int, m as int),
{
    if m == 2 {
        if y % 4 == 0 && (y % 100 != 0 || y % 400 == 0) {
            29
        } else {
            28
        }
    } else if m == 4 || m == 6 || m == 9 || m == 11 {
        30
    } else {
        31
    }
}

/// An ASCII decimal digit.
pub open spec fn is_digit(c: char) -> bool {
    48 <= c as u32 && c as u32 <= 57
}

/// Value of an ASCII decimal digit.
pub open spec fn digit_val(c: char) -> int {
    c as u32 - 48
}

/// The digit character for a value in `0..=9`.
pub open spec fn digit_char(d: int) -> char {
    if d == 0 {
        '0'
    } else if d == 1 {
        '1'
    } else if d == 2 {
        '2'
    } else if d == 3 {
        '3'
    } else if d == 4 {
        '4'
    } else if d == 5 {
        '5'
    } else if d == 6 {
        '6'
    } else if d == 7 {
        '7'
    } else if d == 8 {
        '8'
    } else {
        '9'
    }
}

/// Exec digit character for a value in `0..=9`.
pub fn digit_char_x(d: u32) -> (c: char)
    requires
        d <= 9,
    ensures
        c == digit_char(d as int),
{
    if d == 0 {
        '0'
    } else if d == 1 {
        '1'
    } else if d == 2 {
        '2'
    } else if d == 3 {
        '3'
    } else if d == 4 {
        '4'
    } else if d == 5 {
        '5'
    } else if d == 6 {
        '6'
    } else if d == 7 {
        '7'
    } else if d == 8 {
        '8'
    } else {
        '9'
    }
}

/// `digit_char` always yields a digit, with the value it was given.
pub proof fn lemma_digit_char_val(d: int)
    requires
        0 <= d <= 9,
    ensures
        is_digit(digit_char(d)),
        digit_val(digit_char(d)) == d,
{
}

/// Value of the two digits at `i` and `i + 1`.
pub open spec fn two_digit_val(s: Seq<char>, i: int) -> int {
    digit_val(s[i]) * 10 + digit_val(s[i + 1])
}

/// Value of the four digits starting at `i`.
pub open spec fn four_digit_val(s: Seq<char>, i: int) -> int {
    digit_val(s[i]) * 1000 + digit_val(s[i + 1]) * 100 + digit_val(s[i + 2]) * 10 + digit_val(
        s[i + 3],
    )
}

/// The exact `YYYY-MM-DD` shape: ten characters, digits and two dashes.
pub open spec fn iso_shape(s: Seq<char>) -> bool {
    &&& s.len() == 10
    &&& is_digit(s[0])
    &&& is_digit(s[1])
    &&& is_digit(s[2])
    &&& is_digit(s[3])
    &&& s[4] == '-'
    &&& is_digit(s[5])
    &&& is_digit(s[6])
    &&& s[7] == '-'
    &&& is_digit(s[8])
    &&& is_digit(s[9])
}

/// What parsing `YYYY-MM-DD` yields: the named calendar date when the text
/// has the exact shape and names a real day, nothing otherwise.
pub open spec fn spec_parse_iso(s: Seq<char>) -> Option<Date> {
    if iso_shape(s) {
        let date = Date {
            year: four_digit_val(s, 0) as u32,
            month: two_digit_val(s, 5) as u32,
            day: two_digit_val(s, 8) as u32,
        };
        if date.valid() {
            Some(date)
        } else {
            None
        }
    } else {
        None
    }
}

/// Exec digit test.
fn is_digit_x(c: char) -> (r: bool)
    ensures
        r == is_digit(c),
{
    let u = c as u32;
    48 <= u && u <= 57
}

/// Exec digit value.
fn digit_val_x(c: char) -> (r: u32)
    requires
        is_digit(c),
    ensures
        r == digit_val(c),
{
    c as u32 - 48
}

/// Parses the exact `YYYY-MM-DD` form.
pub fn parse_iso_chars(v: &Vec<char>) -> (r: Option<Date>)
    ensures
        r == spec_parse_iso(v@),
{
    if v.len() != 10 {
        return None;
    }
    if !(is_digit_x(v[0]) && is_digit_x(v[1]) && is_digit_x(v[2]) && is_digit_x(v[3]) && v[4] == '-'
        && is_digit_x(v[5]) && is_digit_x(v[6]) && v[7] == '-' && is_digit_x(v[8]) && is_digit_x(
        v[9],
    )) {
        return None;
    }
    let year = digit_val_x(v[0]) * 1000 + digit_val_x(v[1]) * 100 + digit_val_x(v[2]) * 10
        + digit_val_x(v[3]);
    let month = digit_val_x(v[5]) * 10 + digit_val_x(v[6]);
    let day = digit_val_x(v[8]) * 10 + digit_val_x(v[9]);
    Date::from_ymd(year, month, day)
}

/// What printing a valid date as `YYYY-MM-DD` yields.
pub open spec fn spec_format_iso(d: Date) -> Seq<char> {
    let y = d.year as int;
    let yr = y % 1000;
    let yrr = yr % 100;
    let m = d.month as int;
    let dd = d.day as int;
    seq![
        digit_char(y / 1000),
        digit_char(yr / 100),
        digit_char(yrr / 10),
        digit_char(yrr % 10),
        '-',
        digit_char(m / 10),
        digit_char(m % 10),
        '-',
        digit_char(dd / 10),
        digit_char(dd % 10),
    ]
}

impl Date {
    /// Prints the date in the `YYYY-MM-DD` form of the catalog boundary.
    pub fn format_iso(&self) -> (r: Vec<char>)
        requires
            self.valid(),
        ensures
            r@ == spec_format_iso(*self),
    {
        let y = self.year;
        let yr = y % 1000;
        let yrr = yr % 100;
        let m = self.month;
        let dd = self.day;
        let mut out: Vec<char> = Vec::new();
        out.push(digit_char_x(y / 1000));
        out.push(digit_char_x(yr / 100));
        out.push(digit_char_x(yrr / 10));
        out.push(digit_char_x(yrr % 10));
        out.push('-');
        out.push(digit_char_x(m / 10));
        out.push(digit_char_x(m % 10));
        out.push('-');
        out.push(digit_char_x(dd / 10));
        out.push(digit_char_x(dd % 10));
        assert(out@ =~= spec_format_iso(*self));
        out
    }
}

/// Printing a valid date and parsing the result gives the date back:
/// the `YYYY-MM-DD` boundary form loses nothing.
pub proof fn lemma_iso_roundtrip(d: Date)
    requires
        d.valid(),
    ensures
        spec_parse_iso(spec_format_iso(d)) == Some(d),
{
    let s = spec_format_iso(d);
    let y = d.year as int;
    let yr = y % 1000;
    let yrr = yr % 100;
    let m = d.month as int;
    let dd = d.day as int;
    lemma_digit_char_val(y / 1000);
    lemma_digit_char_val(yr / 100);
    lemma_digit_char_val(yrr / 10);
    lemma_digit_char_val(yrr % 10);
    lemma_digit_char_val(m / 10);
    lemma_digit_char_val(m % 10);
    lemma_digit_char_val(dd / 10);
    lemma_digit_char_val(dd % 10);
    assert(iso_shape(s));
    assert(four_digit_val(s, 0) == y);
    assert(two_digit_val(s, 5) == m);
    assert(two_digit_val(s, 8) == dd);
}

/// Month number for an English month name, abbreviated or full, compared
/// without regard to ASCII case.
pub open spec fn spec_month_num(s: Seq<char>) -> Option<u32> {
    let t = lower_seq(s);
    if t == "jan"@ || t == "january"@ {
        Some(1u32)
    } else if t == "feb"@ || t == "february"@ {
        Some(2u32)
    } else if t == "mar"@ || t == "march"@ {
        Some(3u32)
    } else if t == "apr"@ || t == "april"@ {
        Some(4u32)
    } else if t == "may"@ {
        Some(5u32)
    } else if t == "jun"@ || t == "june"@ {
        Some(6u32)
    } else if t == "jul"@ || t == "july"@ {
        Some(7u32)
    } else if t == "aug"@ || t == "august"@ {
        Some(8u32)
    } else if t == "sep"@ || t == "september"@ {
        Some(9u32)
    } else if t == "oct"@ || t == "october"@ {
        Some(10u32)
    } else if t == "nov"@ || t == "november"@ {
        Some(11u32)
    } else if t == "dec"@ || t == "december"@ {
        Some(12u32)
    } else {
        None
    }
}

/// Exec month-name recognition.
pub fn month_from_name(v: &Vec<char>) -> (r: Option<u32>)
    ensures
        r == spec_month_num(v@),
{
    let t = lower_chars(v);
    if chars_eq_str(&t, "jan") || chars_eq_str(&t, "january") {
        Some(1)
    } else if chars_eq_str(&t, "feb") || chars_eq_str(&t, "february") {
        Some(2)
    } else if chars_eq_str(&t, "mar") || chars_eq_str(&t, "march") {
        Some(3)
    } else if chars_eq_str(&t, "apr") || chars_eq_str(&t, "april") {
        Some(4)
    } else if chars_eq_str(&t, "may") {
        Some(5)
    } else if chars_eq_str(&t, "jun") || chars_eq_str(&t, "june") {
        Some(6)
    } else if chars_eq_str(&t, "jul") || chars_eq_str(&t, "july") {
        Some(7)
    } else if chars_eq_str(&t, "aug") || chars_eq_str(&t, "august") {
        Some(8)
    } else if chars_eq_str(&t, "sep") || chars_eq_str(&t, "september") {
        Some(9)
    } else if chars_eq_str(&t, "oct") || chars_eq_str(&t, "october") {
        Some(10)
    } else if chars_eq_str(&t, "nov") || chars_eq_str(&t, "november") {
        Some(11)
    } else if chars_eq_str(&t, "dec") || chars_eq_str(&t, "december") {
        Some(12)
    } else {
        None
    }
}

/// The date one calendar year after `naive`, with month and day unchanged.
pub open spec fn year_later(naive: Date) -> Date {
    Date { year: (naive.year + 1) as u32, month: naive.month, day: naive.day }
}

/// What the year-rollover correction yields.
pub open spec fn spec_rollover(naive: Date, today: Date) -> Option<Date> {
    if !naive.before(today) {
        Some(naive)
    } else if year_later(naive).valid() {
        Some(year_later(naive))
    } else {
        None
    }
}

/// Year-rollover correction for a date read without a year: a date assumed
/// into the current year that already lies strictly in the past is moved
/// forward exactly one year; any other date is kept unchanged. Moving into
/// the next year can fail only when the day does not exist there.
pub fn rollover(naive: Date, today: Date) -> (r: Option<Date>)
    requires
        naive.valid(),
        today.valid(),
    ensures
        r == spec_rollover(naive, today),
        !naive.before(today) ==> r == Some(naive),
        naive.before(today) ==> (r is Some <==> year_later(naive).valid()),
        naive.before(today) && r is Some ==> r == Some(year_later(naive)),
        r matches Some(x) ==> x.valid(),
{
    if !naive.is_before(&today) {
        Some(naive)
    } else {
        Date::from_ymd(naive.year + 1, naive.month, naive.day)
    }
}

} // verus!
