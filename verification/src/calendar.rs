//! Calendar days, and the questions about them that the `chrono` crate
//! answers for this library.

use chrono::{Datelike, NaiveDate};
use vstd::prelude::*;

verus! {

/// A day as it is written: year, month and day of the month. Any three
/// numbers can be written; whether they name a day of the calendar is for
/// `chrono` to say.
#[derive(Debug, Clone, Copy, PartialEq, Eq, Structural)]
pub struct Date {
    pub year: i32,
    pub month: u32,
    pub day: u32,
}

/// The number of whole days from the day `from` to the day `to`, each given as
/// year, month and day, as `chrono` counts them; `None` where `chrono` takes
/// one of the two for no day of its calendar.
pub uninterp spec fn days_between(from: (i32, u32, u32), to: (i32, u32, u32)) -> Option<i64>;

/// The day that `chrono` reads from `text` under the format `format`, as
/// year, month and day; `None` where it reads none.
pub uninterp spec fn parsed_date(text: Seq<char>, format: Seq<char>) -> Option<(i32, u32, u32)>;

/// Counts the days from `from` to `to`.
///
/// Trusted: builds both days with `chrono::NaiveDate::from_ymd_opt`, which
/// gives `None` for a day that does not exist or a year out of its range, and
/// takes `NaiveDate::signed_duration_since` and `TimeDelta::num_days` of the
/// two. The contract claims only that the outcome is a function of the six
/// numbers, and gives it its name.
#[verifier::external_body]
pub(crate) fn days_from_to(from: Date, to: Date) -> (days: Option<i64>)
    ensures
        days == days_between((from.year, from.month, from.day), (to.year, to.month, to.day)),
{
    let start = NaiveDate::from_ymd_opt(from.year, from.month, from.day)?;
    let end = NaiveDate::from_ymd_opt(to.year, to.month, to.day)?;
    Some(end.signed_duration_since(start).num_days())
}

/// Reads a day from `text` under `format`.
///
/// Trusted: calls `chrono::NaiveDate::parse_from_str`, which fails on text
/// that does not fit the format and on days that do not exist, and hands out
/// the year, month and day of what it read. The contract claims only that the
/// outcome is a function of the two texts, and gives it its name.
#[verifier::external_body]
pub(crate) fn parse_date(text: &str, format: &str) -> (date: Option<Date>)
    ensures
        match date {
            Some(d) => parsed_date(text@, format@) == Some((d.year, d.month, d.day)),
            None => parsed_date(text@, format@) is None,
        },
{
    match NaiveDate::parse_from_str(text, format) {
        Ok(day) => Some(Date { year: day.year(), month: day.month(), day: day.day() }),
        Err(_) => None,
    }
}

} // verus!
