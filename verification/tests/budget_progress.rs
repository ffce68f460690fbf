use ledger_core::budget::{month_progress, progress_through_month, MonthProgress};
use ledger_core::calendar::Date;

fn day(year: i32, month: u32, day: u32) -> Date {
    Date { year, month, day }
}

fn fraction(progress: MonthProgress) -> f64 {
    progress.elapsed_days as f64 / progress.days_in_month as f64
}

#[test]
fn tenth_day_of_a_thirty_day_month_is_one_third() {
    let progress = progress_through_month(day(2023, 4, 10)).unwrap();
    assert_eq!(progress, MonthProgress { elapsed_days: 10, days_in_month: 30 });
    assert_eq!(fraction(progress), 10.0 / 30.0);
    assert!((fraction(progress) - 1.0 / 3.0).abs() < 1e-12);
}

#[test]
fn spend_progress_compares_against_expected_progress() {
    let expected = fraction(progress_through_month(day(2023, 6, 10)).unwrap());
    let spend_minor: i64 = 15_000;
    let budget_minor: i64 = 50_000;
    let spent = spend_minor as f64 / budget_minor as f64;
    assert!((spent - 0.3).abs() < 1e-12);
    assert!(spent < expected);
}

#[test]
fn months_have_their_calendar_lengths() {
    let lengths = [31, 28, 31, 30, 31, 30, 31, 31, 30, 31, 30, 31];
    for month in 1..=12u32 {
        let progress = progress_through_month(day(2023, month, 1)).unwrap();
        assert_eq!(progress.days_in_month, lengths[month as usize - 1]);
        assert_eq!(progress.elapsed_days, 1);
    }
}

#[test]
fn february_follows_the_leap_years() {
    assert_eq!(progress_through_month(day(2024, 2, 29)).unwrap().days_in_month, 29);
    assert_eq!(progress_through_month(day(2023, 2, 14)).unwrap().days_in_month, 28);
    assert_eq!(progress_through_month(day(1900, 2, 1)).unwrap().days_in_month, 28);
    assert_eq!(progress_through_month(day(2000, 2, 1)).unwrap().days_in_month, 29);
}

#[test]
fn december_runs_into_the_next_year() {
    let progress = progress_through_month(day(2023, 12, 31)).unwrap();
    assert_eq!(progress, MonthProgress { elapsed_days: 31, days_in_month: 31 });
    assert_eq!(fraction(progress), 1.0);
}

#[test]
fn no_progress_outside_the_twelve_months() {
    assert_eq!(progress_through_month(day(2023, 0, 1)), None);
    assert_eq!(progress_through_month(day(2023, 13, 1)), None);
    assert_eq!(progress_through_month(day(2023, u32::MAX, 1)), None);
}

#[test]
fn no_progress_beyond_the_last_year() {
    assert_eq!(progress_through_month(day(i32::MAX, 12, 1)), None);
    assert_eq!(progress_through_month(day(i32::MAX, 1, 1)), None);
    assert_eq!(progress_through_month(day(400_000, 1, 1)), None);
}

#[test]
fn month_progress_needs_a_positive_length() {
    assert_eq!(
        month_progress(10, Some(30)),
        Some(MonthProgress { elapsed_days: 10, days_in_month: 30 })
    );
    assert_eq!(month_progress(10, Some(0)), None);
    assert_eq!(month_progress(10, Some(-30)), None);
    assert_eq!(month_progress(10, None), None);
}
