//! Calendar dates and the default dates that the invoice prompts offer.

use vstd::prelude::*;
use chrono::NaiveDate;
use crate::text::{dec, zero_pad};

verus! {

/// Earliest year that a date may have.
pub const MIN_YEAR: i32 = -262143;

/// Latest year that a date may have.
pub const MAX_YEAR: i32 = 262142;

/// Day of the month that the default due date falls on.
pub const DUE_DAY: u32 = 5;

pub open spec fn is_leap_year(y: int) -> bool {
    y % 4 == 0 && (y % 100 != 0 || y % 400 == 0)
}

/// Number of days in month `m` (1 to 12) of year `y`.
pub open spec fn month_length(y: int, m: int) -> nat {
    if m == 2 {
        if is_leap_year(y) { 29 } else { 28 }
    } else if m == 4 || m == 6 || m == 9 || m == 11 {
        30
    } else {
        31
    }
}

/// Whether year, month and day name a day of the proleptic Gregorian calendar
/// within the supported range of years.
pub open spec fn valid_ymd(y: int, m: int, d: int) -> bool {
    &&& MIN_YEAR <= y <= MAX_YEAR
    &&& 1 <= m <= 12
    &&& 1 <= d <= month_length(y, m)
}

/// A calendar day.
#[derive(Clone, Copy, Debug, PartialEq, Eq, Structural)]
pub struct Date {
    pub year: i32,
    pub month: u32,
    pub day: u32,
}

impl Date {
    pub open spec fn wf(&self) -> bool {
        valid_ymd(self.year as int, self.month as int, self.day as int)
    }

    /// The date of the given year, month and day, if it exists.
    pub fn new(year: i32, month: u32, day: u32) -> (r: Option<Date>)
        ensures
            r is Some <==> valid_ymd(year as int, month as int, day as int),
            r matches Some(d) ==> d == (Date { year, month, day }),
    {
        if year < MIN_YEAR || year > MAX_YEAR || month < 1 || month > 12 || day < 1 {
            return None;
        }
        if day <= days_in_month(year, month) {
            Some(Date { year, month, day })
        } else {
            None
        }
    }
}

/// Whether `year` is a leap year.
pub fn leap_year(year: i32) -> (r: bool)
    requires
        MIN_YEAR <= year <= MAX_YEAR,
    ensures
        r == is_leap_year(year as int),
{
    // Shifting by a multiple of 400 years keeps the leap-year rule intact.
    let shifted: u64 = (year as i64 + 400 * 1000) as u64;
    let r = shifted % 4 == 0 && (shifted % 100 != 0 || shifted % 400 == 0);
    assert(shifted as int == year as int + 400 * 1000);
    assert((year as int + 400 * 1000) % 4 == (year as int) % 4) by (nonlinear_arith);
    assert((year as int + 400 * 1000) % 100 == (year as int) % 100) by (nonlinear_arith);
    assert((year as int + 400 * 1000) % 400 == (year as int) % 400) by (nonlinear_arith);
    r
}

/// Number of days in `month` of `year`.
pub fn days_in_month(year: i32, month: u32) -> (r: u32)
    requires
        MIN_YEAR <= year <= MAX_YEAR,
        1 <= month <= 12,
    ensures
        r == month_length(year as int, month as int),
{
    if month == 2 {
        if leap_year(year) { 29 } else { 28 }
    } else if month == 4 || month == 6 || month == 9 || month == 11 {
        30
    } else {
        31
    }
}

/// The month after `m`, held at December.
pub open spec fn next_month_held(m: int) -> int {
    if m + 1 > 12 { 12 } else { m + 1 }
}

/// Default issue date: today.
pub fn default_issue_date(today: &Date) -> (r: Date)
    ensures
        r == *today,
{
    *today
}

/// Default service date: the last day of today's month.
pub fn default_service_date(today: &Date) -> (r: Date)
    requires
        today.wf(),
    ensures
        r.wf(),
        r.year == today.year,
        r.month == today.month,
        r.day == month_length(today.year as int, today.month as int),
{
    Date { year: today.year, month: today.month, day: days_in_month(today.year, today.month) }
}

/// Default due date: the fifth day of the month after today's, where the
/// month after December is taken to be December of the same year.
pub fn default_due_date(today: &Date) -> (r: Date)
    requires
        today.wf(),
    ensures
        r.wf(),
        r.year == today.year,
        r.month == next_month_held(today.month as int),
        r.day == DUE_DAY,
{
    let month: u32 = if today.month >= 12 { 12 } else { today.month + 1 };
    Date { year: today.year, month, day: DUE_DAY }
}

/// A year as `%Y` writes it: four digits at least, with a sign outside 0 to 9999.
pub open spec fn year_text(y: int) -> Seq<char> {
    if 0 <= y <= 9999 {
        zero_pad(dec(y as nat), 4)
    } else if y < 0 {
        seq!['-'] + zero_pad(dec((-y) as nat), 4)
    } else {
        seq!['+'] + zero_pad(dec(y as nat), 4)
    }
}

/// A date as day, month and year, zero-padded and separated by dashes.
pub open spec fn dmy_text(d: Date) -> Seq<char> {
    zero_pad(dec(d.day as nat), 2) + seq!['-'] + zero_pad(dec(d.month as nat), 2) + seq!['-']
        + year_text(d.year as int)
}

/// Relies on chrono's `NaiveDate::from_ymd_opt`, which gives `Some` on a valid
/// date, and on its `format("%d-%m-%Y")`, which writes day and month as two
/// digits and the year as `%Y` does.
#[verifier::external_body]
pub(crate) fn format_dmy(d: &Date) -> (r: String)
    requires
        d.wf(),
    ensures
        r@ == dmy_text(*d),
{
    NaiveDate::from_ymd_opt(d.year, d.month, d.day).unwrap().format("%d-%m-%Y").to_string()
}

} // verus!
