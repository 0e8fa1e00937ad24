//! The billing period of a day: from the first of its month up to, but not
//! including, the day after it. Dates are written as `YYYY-MM-DD`.

use crate::calendar::{is_calendar_date, is_last_date, next_day, ymd, CivilDate, Ymd};
use crate::clock::today;
use crate::decimal::{push_decimal, signed_decimal, two_digits};
use vstd::prelude::*;
use vstd::string::StringExecFns;

verus! {

/// The text of a date: the year as it is, then month and day with two digits
/// each, with hyphens between them.
pub open spec fn date_text(d: Ymd) -> Seq<char> {
    signed_decimal(d.year) + seq!['-'] + two_digits(d.month as nat) + seq!['-'] + two_digits(
        d.day as nat,
    )
}

/// The text of the first day of the month of `today`.
pub open spec fn start_date_text(today: Ymd) -> Seq<char> {
    date_text(ymd(today.year, today.month, 1))
}

/// The text of the day after `today`.
pub open spec fn end_date_text(today: Ymd) -> Seq<char> {
    date_text(next_day(today))
}

/// The start of a billing period is written with the day `01`, and with the
/// year and the month of the day it is the period of.
pub proof fn lemma_start_is_first_of_month(today: Ymd)
    ensures
        start_date_text(today) == signed_decimal(today.year) + seq!['-'] + two_digits(
            today.month as nat,
        ) + seq!['-', '0', '1'],
{
    assert(two_digits(1) =~= seq!['0', '1']);
    assert(start_date_text(today) =~= signed_decimal(today.year) + seq!['-'] + two_digits(
        today.month as nat,
    ) + seq!['-', '0', '1']);
}

/// Appends `n` to `out`, written with at least two digits.
fn push_two_digits(out: &mut String, n: u32)
    ensures
        final(out)@ == old(out)@ + two_digits(n as nat),
{
    if n < 10 {
        out.append("0");
        proof {
            reveal_strlit("0");
            assert(out@ =~= old(out)@ + seq!['0']);
        }
    }
    push_decimal(out, n as u64);
    assert(out@ =~= old(out)@ + two_digits(n as nat));
}

/// Writes a date as `YYYY-MM-DD`.
pub fn format_date(date: CivilDate) -> (text: String)
    ensures
        text@ == date_text(date@),
{
    let mut text = String::new();
    let year = date.year();
    if year < 0 {
        text.append("-");
        push_decimal(&mut text, (-(year as i64)) as u64);
    } else {
        push_decimal(&mut text, year as u64);
    }
    proof {
        reveal_strlit("-");
        assert(text@ =~= signed_decimal(date@.year));
    }
    text.append("-");
    push_two_digits(&mut text, date.month());
    text.append("-");
    push_two_digits(&mut text, date.day());
    assert(text@ =~= date_text(date@));
    text
}

/// The start of the billing period of `today`: the first day of its month.
pub fn start_date(today: CivilDate) -> (text: String)
    ensures
        text@ == start_date_text(today@),
{
    format_date(today.first_of_month())
}

/// The end of the billing period of `today`: the day after it. There is none
/// for the last day that can be represented.
pub fn end_date(today: CivilDate) -> (text: Option<String>)
    ensures
        text is None <==> is_last_date(today@),
        text matches Some(t) ==> t@ == end_date_text(today@),
{
    match today.next_day() {
        Some(tomorrow) => Some(format_date(tomorrow)),
        None => None,
    }
}

/// The start of the current billing period, by the local clock.
pub fn get_start_date() -> (text: String)
    ensures
        exists|day: Ymd| is_calendar_date(day) && text@ == #[trigger] start_date_text(day),
{
    let day = today();
    start_date(day)
}

/// The end of the current billing period, by the local clock; `None` where
/// the clock shows the last day that can be represented.
pub fn get_end_date() -> (text: Option<String>)
    ensures
        text matches Some(t) ==> exists|day: Ymd|
            is_calendar_date(day) && !is_last_date(day) && t@ == #[trigger] end_date_text(day),
{
    let day = today();
    end_date(day)
}

} // verus!
