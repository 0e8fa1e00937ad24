//! Calendar dates of the proleptic Gregorian calendar, and the day after a date.

use chrono::Datelike;
use vstd::prelude::*;

verus! {

/// The first year a date can have.
pub const MIN_YEAR: i32 = -262143;

/// The last year a date can have.
pub const MAX_YEAR: i32 = 262142;

/// A date as three unbounded numbers: what a `CivilDate` stands for.
pub struct Ymd {
    pub year: int,
    pub month: int,
    pub day: int,
}

/// The date with the given year, month and day.
pub open spec fn ymd(year: int, month: int, day: int) -> Ymd {
    Ymd { year, month, day }
}

/// Whether `year` has a 29th of February.
pub open spec fn is_leap_year(year: int) -> bool {
    year % 4 == 0 && (year % 100 != 0 || year % 400 == 0)
}

/// The number of days of a month, for `1 <= month <= 12`.
pub open spec fn days_in_month(year: int, month: int) -> int {
    if month == 2 {
        if is_leap_year(year) {
            29
        } else {
            28
        }
    } else if month == 4 || month == 6 || month == 9 || month == 11 {
        30
    } else {
        31
    }
}

/// Whether `d` is a day of the calendar, in a year that can be represented.
pub open spec fn is_calendar_date(d: Ymd) -> bool {
    &&& MIN_YEAR <= d.year <= MAX_YEAR
    &&& 1 <= d.month <= 12
    &&& 1 <= d.day <= days_in_month(d.year, d.month)
}

/// Whether `d` is the last day that can be represented.
pub open spec fn is_last_date(d: Ymd) -> bool {
    d.year == MAX_YEAR && d.month == 12 && d.day == 31
}

/// The day after `d`.
pub open spec fn next_day(d: Ymd) -> Ymd {
    if d.day < days_in_month(d.year, d.month) {
        ymd(d.year, d.month, d.day + 1)
    } else if d.month < 12 {
        ymd(d.year, d.month + 1, 1)
    } else {
        ymd(d.year + 1, 1, 1)
    }
}

/// The day after a calendar date is a calendar date again, unless there is none.
pub proof fn lemma_next_day_is_calendar_date(d: Ymd)
    requires
        is_calendar_date(d),
        !is_last_date(d),
    ensures
        is_calendar_date(next_day(d)),
{
}

/// Asks `chrono::NaiveDate::succ_opt` for the day after the given one.
///
/// Trusted: for a calendar date other than the last one, chrono answers with
/// the next day of the calendar, which `next_day` describes; for the last
/// representable date it has no answer. The date is handed over with
/// `NaiveDate::from_ymd_opt`, which takes every calendar date.
#[verifier::external_body]
fn successor(year: i32, month: u32, day: u32) -> (next: Option<(i32, u32, u32)>)
    requires
        is_calendar_date(ymd(year as int, month as int, day as int)),
    ensures
        next is None <==> is_last_date(ymd(year as int, month as int, day as int)),
        next matches Some(n) ==> ymd(n.0 as int, n.1 as int, n.2 as int) == next_day(
            ymd(year as int, month as int, day as int),
        ),
{
    let date = chrono::NaiveDate::from_ymd_opt(year, month, day)?;
    let next = date.succ_opt()?;
    Some((next.year(), next.month(), next.day()))
}

/// A day of the calendar.
#[derive(Clone, Copy, Debug, PartialEq, Eq)]
pub struct CivilDate {
    year: i32,
    month: u32,
    day: u32,
}

impl View for CivilDate {
    type V = Ymd;

    closed spec fn view(&self) -> Ymd {
        ymd(self.year as int, self.month as int, self.day as int)
    }
}

impl CivilDate {
    #[verifier::type_invariant]
    spec fn well_formed(self) -> bool {
        is_calendar_date(self@)
    }

    /// The date with the given year, month and day, if the calendar has it.
    pub fn new(year: i32, month: u32, day: u32) -> (made: Option<CivilDate>)
        ensures
            made is Some <==> is_calendar_date(ymd(year as int, month as int, day as int)),
            made matches Some(d) ==> d@ == ymd(year as int, month as int, day as int),
    {
        if year < MIN_YEAR || year > MAX_YEAR || month < 1 || month > 12 || day < 1 {
            return None;
        }
        if day > month_length(year, month) {
            return None;
        }
        Some(CivilDate { year, month, day })
    }

    /// The date with the given year, month and day, which the caller knows to
    /// be a day of the calendar.
    pub(crate) fn from_parts(year: i32, month: u32, day: u32) -> (made: CivilDate)
        requires
            is_calendar_date(ymd(year as int, month as int, day as int)),
        ensures
            made@ == ymd(year as int, month as int, day as int),
    {
        CivilDate { year, month, day }
    }

    /// The year.
    pub fn year(&self) -> (year: i32)
        ensures
            year == self@.year,
            is_calendar_date(self@),
    {
        proof {
            use_type_invariant(self);
        }
        self.year
    }

    /// The month, from 1 to 12.
    pub fn month(&self) -> (month: u32)
        ensures
            month == self@.month,
            is_calendar_date(self@),
    {
        proof {
            use_type_invariant(self);
        }
        self.month
    }

    /// The day of the month, from 1.
    pub fn day(&self) -> (day: u32)
        ensures
            day == self@.day,
            is_calendar_date(self@),
    {
        proof {
            use_type_invariant(self);
        }
        self.day
    }

    /// The first day of this date's month.
    pub fn first_of_month(&self) -> (first: CivilDate)
        ensures
            first@ == ymd(self@.year, self@.month, 1),
    {
        proof {
            use_type_invariant(self);
        }
        CivilDate { year: self.year, month: self.month, day: 1 }
    }

    /// The day after this one; `None` for the last day that can be represented.
    pub fn next_day(&self) -> (next: Option<CivilDate>)
        ensures
            next is None <==> is_last_date(self@),
            next matches Some(n) ==> n@ == next_day(self@),
    {
        proof {
            use_type_invariant(self);
        }
        match successor(self.year, self.month, self.day) {
            Some((year, month, day)) => {
                proof {
                    lemma_next_day_is_calendar_date(self@);
                }
                Some(CivilDate::from_parts(year, month, day))
            },
            None => None,
        }
    }
}

/// Whether `year` has a 29th of February.
pub fn leap_year(year: i32) -> (leap: bool)
    ensures
        leap == is_leap_year(year as int),
{
    // 4294967200 is a multiple of 400 and lifts every year above zero.
    let lifted: i64 = year as i64 + 4294967200;
    lifted % 4 == 0 && (lifted % 100 != 0 || lifted % 400 == 0)
}

/// The number of days of a month.
pub fn month_length(year: i32, month: u32) -> (days: u32)
    ensures
        days == days_in_month(year as int, month as int),
{
    if month == 2 {
        if leap_year(year) {
            29
        } else {
            28
        }
    } else if month == 4 || month == 6 || month == 9 || month == 11 {
        30
    } else {
        31
    }
}

} // verus!
