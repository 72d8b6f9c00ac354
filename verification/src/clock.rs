//! The current date, read once per adapter run.
//!
//! The Steam adapter needs today's date for its year-rollover correction.
//! Only the clock read itself is trusted; turning the parts into a valid
//! calendar date is verified.

use vstd::prelude::*;
use crate::date::Date;

verus! {

/// Relies on `chrono::Utc::now` and chrono's `Datelike` accessors on the
/// current UTC calendar date: `month` returns `1..=12` and `day` returns
/// `1..=31` by their documentation. Nothing more is promised of a clock.
#[verifier::external_body]
fn utc_today_parts() -> (r: (i32, u32, u32))
    ensures
        1 <= r.1 <= 12,
        1 <= r.2 <= 31,
{
    let d = chrono::Utc::now().date_naive();
    (chrono::Datelike::year(&d), chrono::Datelike::month(&d), chrono::Datelike::day(&d))
}

/// Builds a date from clock parts; the year must name a real calendar day
/// within four decimal digits.
pub fn date_from_parts(year: i32, month: u32, day: u32) -> (r: Option<Date>)
    ensures
        r is Some <==> 0 <= year <= 9999 && (Date {
            year: if 0 <= year <= 9999 {
                year as u32
            } else {
                0
            },
            month,
            day,
        }).valid(),
        r matches Some(d) ==> 0 <= year <= 9999 && d == (Date { year: year as u32, month, day })
            && d.valid(),
{
    if year < 0 || year > 9999 {
        return None;
    }
    Date::from_ymd(year as u32, month, day)
}

/// The current UTC date, when it lies in the supported year range.
pub fn today() -> (r: Option<Date>)
    ensures
        r matches Some(d) ==> d.valid(),
{
    let parts = utc_today_parts();
    date_from_parts(parts.0, parts.1, parts.2)
}

} // verus!
