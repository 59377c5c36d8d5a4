//! Calendar dates, and what is asked of chrono about them.
use vstd::prelude::*;
use chrono::{Datelike, NaiveDate};
use crate::text::zero_padded;

verus! {

/// Earliest year that chrono represents.
pub const MIN_YEAR: i32 = -262143;

/// Latest year that chrono represents.
pub const MAX_YEAR: i32 = 262142;

/// A day of the proleptic Gregorian calendar.
#[derive(Debug, Clone, Copy, PartialEq, Eq, Structural)]
pub struct CalendarDate {
    pub year: i32,
    pub month: u32,
    pub day: u32,
}

pub open spec fn is_leap_year(y: int) -> bool {
    (y % 4 == 0 && y % 100 != 0) || y % 400 == 0
}

pub open spec fn days_in_month(y: int, m: int) -> int {
    if m == 2 {
        if is_leap_year(y) {
            29
        } else {
            28
        }
    } else if m == 4 || m == 6 || m == 9 || m == 11 {
        30
    } else {
        31
    }
}

/// The triple names a day that exists, in a year that chrono represents.
pub open spec fn valid_ymd(y: int, m: int, d: int) -> bool {
    &&& MIN_YEAR <= y <= MAX_YEAR
    &&& 1 <= m <= 12
    &&& 1 <= d <= days_in_month(y, m)
}

impl CalendarDate {
    pub open spec fn wf(&self) -> bool {
        valid_ymd(self.year as int, self.month as int, self.day as int)
    }
}

/// A year as `%Y` writes it: four digits, zero-padded, for years 0 to 9999;
/// outside them a sign, `+` or `-`, then at least four digits.
pub open spec fn year_text(y: int) -> Seq<char> {
    if 0 <= y <= 9999 {
        zero_padded(y as nat, 4)
    } else if y < 0 {
        seq!['-'] + zero_padded((-y) as nat, 4)
    } else {
        seq!['+'] + zero_padded(y as nat, 4)
    }
}

/// `YYYY-MM-DD`.
pub open spec fn iso_text(d: CalendarDate) -> Seq<char> {
    year_text(d.year as int) + "-"@ + zero_padded(d.month as nat, 2) + "-"@ + zero_padded(
        d.day as nat,
        2,
    )
}

/// The English name of month `m`.
pub open spec fn month_name(m: int) -> Seq<char> {
    if m == 1 {
        "January"@
    } else if m == 2 {
        "February"@
    } else if m == 3 {
        "March"@
    } else if m == 4 {
        "April"@
    } else if m == 5 {
        "May"@
    } else if m == 6 {
        "June"@
    } else if m == 7 {
        "July"@
    } else if m == 8 {
        "August"@
    } else if m == 9 {
        "September"@
    } else if m == 10 {
        "October"@
    } else if m == 11 {
        "November"@
    } else {
        "December"@
    }
}

/// `Month DD, YYYY`.
pub open spec fn long_text(d: CalendarDate) -> Seq<char> {
    month_name(d.month as int) + " "@ + zero_padded(d.day as nat, 2) + ", "@ + year_text(
        d.year as int,
    )
}

/// Day of the week of a date, counted from Sunday as zero.
pub uninterp spec fn weekday_from_sunday(year: int, month: int, day: int) -> int;

/// The date that `%Y-%m-%d` parsing reads from a text, as year, month and day.
pub uninterp spec fn parsed_ymd(s: Seq<char>) -> Option<(int, int, int)>;

/// Relies on chrono's `NaiveDate::from_ymd_opt`: it gives a date exactly when
/// the year is within chrono's range and the month and day exist in it.
#[verifier::external_body]
pub(crate) fn date_from_ymd(year: i32, month: u32, day: u32) -> (r: Option<CalendarDate>)
    ensures
        r.is_some() == valid_ymd(year as int, month as int, day as int),
        r matches Some(d) ==> d == (CalendarDate { year, month, day }),
{
    match NaiveDate::from_ymd_opt(year, month, day) {
        Some(d) => Some(CalendarDate { year: d.year(), month: d.month(), day: d.day() }),
        None => None,
    }
}

/// Relies on chrono's `NaiveDate::format` with `%Y-%m-%d`: zero-padded year,
/// month and day: two digits each for month and day, the year as `year_text`.
/// The date is rebuilt with `NaiveDate::from_ymd_opt`, which succeeds on a valid one.
#[verifier::external_body]
pub(crate) fn iso_string(d: CalendarDate) -> (r: String)
    requires
        d.wf(),
    ensures
        r@ == iso_text(d),
{
    let date = NaiveDate::from_ymd_opt(d.year, d.month, d.day).unwrap();
    date.format("%Y-%m-%d").to_string()
}

/// Relies on chrono's `NaiveDate::format` with `%B %d, %Y`: full month name,
/// two-digit day, and the year as `year_text`. The date is rebuilt with
/// `NaiveDate::from_ymd_opt`, which succeeds on a valid one.
#[verifier::external_body]
pub(crate) fn long_string(d: CalendarDate) -> (r: String)
    requires
        d.wf(),
    ensures
        r@ == long_text(d),
{
    let date = NaiveDate::from_ymd_opt(d.year, d.month, d.day).unwrap();
    date.format("%B %d, %Y").to_string()
}

/// Relies on chrono's `Datelike::weekday` and `Weekday::num_days_from_sunday`:
/// the weekday of a date, counted from Sunday, below seven. The date is rebuilt
/// with `NaiveDate::from_ymd_opt`, which succeeds on a valid one.
#[verifier::external_body]
pub(crate) fn weekday_index(d: CalendarDate) -> (r: u32)
    requires
        d.wf(),
    ensures
        r < 7,
        r as int == weekday_from_sunday(d.year as int, d.month as int, d.day as int),
{
    let date = NaiveDate::from_ymd_opt(d.year, d.month, d.day).unwrap();
    date.weekday().num_days_from_sunday()
}

/// Relies on chrono's `NaiveDate::parse_from_str` with `%Y-%m-%d`; a date it
/// returns is always a valid one.
#[verifier::external_body]
pub(crate) fn parse_date(s: &str) -> (r: Option<CalendarDate>)
    ensures
        r.is_some() == parsed_ymd(s@).is_some(),
        r matches Some(d) ==> d.wf() && parsed_ymd(s@) == Some(
            (d.year as int, d.month as int, d.day as int),
        ),
{
    match NaiveDate::parse_from_str(s, "%Y-%m-%d") {
        Ok(d) => Some(CalendarDate { year: d.year(), month: d.month(), day: d.day() }),
        Err(_) => None,
    }
}

} // verus!
