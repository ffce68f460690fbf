//! How far a month has run, to hold the spend so far against the budget.

use crate::calendar::{days_between, days_from_to, Date};
use vstd::prelude::*;

verus! {

/// The part of a month that has passed: `elapsed_days` out of
/// `days_in_month`. The fraction of the two is the share of the budget that
/// an even spend would have used up.
#[derive(Debug, Clone, Copy, PartialEq, Eq, Structural)]
pub struct MonthProgress {
    pub elapsed_days: u32,
    pub days_in_month: i64,
}

impl MonthProgress {
    /// The month has at least one day, so the fraction has a denominator.
    pub open spec fn wf(&self) -> bool {
        self.days_in_month > 0
    }
}

/// The first day of the month of the year.
pub open spec fn first_of_month(year: i32, month: u32) -> (i32, u32, u32) {
    (year, month, 1u32)
}

/// The first day of the month after the month of the year, December being
/// followed by January of the next year.
pub open spec fn first_of_next_month(year: i32, month: u32) -> (i32, u32, u32) {
    if month == 12 {
        ((year + 1) as i32, 1u32, 1u32)
    } else {
        (year, (month + 1) as u32, 1u32)
    }
}

/// The progress on day `day` of a month that is `span` days long, where a
/// length is known and positive.
pub open spec fn progress_over(day: u32, span: Option<i64>) -> Option<MonthProgress> {
    match span {
        Some(days) if days > 0 => Some(MonthProgress { elapsed_days: day, days_in_month: days }),
        _ => None,
    }
}

/// The progress through its month of the day `date`: `None` where the month
/// is not one of the twelve, where the month after it lies beyond the years
/// that can be written, and where no positive length is known for the month.
pub open spec fn month_progress_of(date: Date) -> Option<MonthProgress> {
    if date.month < 1 || date.month > 12 || (date.month == 12 && date.year == i32::MAX) {
        None
    } else {
        progress_over(
            date.day,
            days_between(
                first_of_month(date.year, date.month),
                first_of_next_month(date.year, date.month),
            ),
        )
    }
}

/// The progress on day `day` of a month that is `span` days long.
pub fn month_progress(day: u32, span: Option<i64>) -> (progress: Option<MonthProgress>)
    ensures
        progress == progress_over(day, span),
        progress is Some ==> progress->Some_0.wf(),
{
    match span {
        Some(days) => {
            if days > 0 {
                Some(MonthProgress { elapsed_days: day, days_in_month: days })
            } else {
                None
            }
        },
        None => None,
    }
}

/// How far the month of `date` has run on that day: the day of the month out
/// of the days from the first of the month to the first of the next.
pub fn progress_through_month(date: Date) -> (progress: Option<MonthProgress>)
    ensures
        progress == month_progress_of(date),
        progress is Some ==> progress->Some_0.wf() && progress->Some_0.elapsed_days == date.day,
{
    if date.month < 1 || date.month > 12 {
        return None;
    }
    let start_month = Date { year: date.year, month: date.month, day: 1 };
    let next_month = if date.month == 12 {
        if date.year == i32::MAX {
            return None;
        }
        Date { year: date.year + 1, month: 1, day: 1 }
    } else {
        Date { year: date.year, month: date.month + 1, day: 1 }
    };
    let number_of_days = days_from_to(start_month, next_month);
    month_progress(date.day, number_of_days)
}

} // verus!
