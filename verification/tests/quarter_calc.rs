use rustrto::calc::metrics::Ratio;
use rustrto::calc::quarter_calc::{calculate_quarter_stats, quarter_stats_as_of};
use rustrto::data::badge_entry::{BadgeEntry, BadgeEntryData};
use rustrto::data::holiday::{Holiday, HolidayData};
use rustrto::data::quarter::{QuarterConfig, QuarterError};
use rustrto::data::vacation::{Vacation, VacationData};
use rustrto::date::{Date, DateTime};

fn date(y: i32, m: u32, d: u32) -> Date {
    Date::from_ymd(y, m, d).unwrap()
}

fn percent(ratio: Ratio) -> f64 {
    ratio.numerator as f64 / ratio.denominator as f64
}

fn make_quarter(start: &str, end: &str) -> QuarterConfig {
    let mut q = QuarterConfig {
        key: "TEST_Q".to_string(),
        quarter: "Q1".to_string(),
        year: "2025".to_string(),
        start_date_raw: start.to_string(),
        end_date_raw: end.to_string(),
        start_date: None,
        end_date: None,
    };
    q.parse_dates().unwrap();
    q
}

#[test]
fn test_on_track_status() {
    // 10-day quarter (Mon-Fri x 2 weeks), badge in 3 of first 5 days, today is day 6
    let q = make_quarter("2025-01-06", "2025-01-17");
    let mut badge = BadgeEntryData::default();
    badge.add(BadgeEntry::new(date(2025, 1, 6), "Office", false));
    badge.add(BadgeEntry::new(date(2025, 1, 7), "Office", false));
    badge.add(BadgeEntry::new(date(2025, 1, 8), "Office", false));
    let holiday = HolidayData::default();
    let vacation = VacationData::default();
    let today = date(2025, 1, 13);
    let stats = calculate_quarter_stats(&q, &badge, &holiday, &vacation, Some(today)).unwrap();
    assert_eq!(stats.days_badged_in, 3);
    assert!(stats.compliance_status == "On Track" || stats.compliance_status == "At Risk");
}

#[test]
fn test_achieved_status() {
    // Short quarter: 4 days, badge in all 4 -> required = 2, achieved
    let q = make_quarter("2025-01-06", "2025-01-09");
    let mut badge = BadgeEntryData::default();
    for d in 6..=9 {
        badge.add(BadgeEntry::new(date(2025, 1, d), "Office", false));
    }
    let holiday = HolidayData::default();
    let vacation = VacationData::default();
    let today = date(2025, 1, 20);
    let stats = calculate_quarter_stats(&q, &badge, &holiday, &vacation, Some(today)).unwrap();
    assert_eq!(stats.compliance_status, "Achieved");
}

#[test]
fn test_impossible_status() {
    // 4-day quarter, badge in 0, today is past the end
    let q = make_quarter("2025-01-06", "2025-01-09");
    let badge = BadgeEntryData::default();
    let holiday = HolidayData::default();
    let vacation = VacationData::default();
    let today = date(2025, 1, 20);
    let stats = calculate_quarter_stats(&q, &badge, &holiday, &vacation, Some(today)).unwrap();
    assert_eq!(stats.compliance_status, "Impossible");
}

#[test]
fn test_days_ahead_of_pace_positive() {
    // Badge in more than expected
    let q = make_quarter("2025-01-06", "2025-01-17");
    let mut badge = BadgeEntryData::default();
    badge.add(BadgeEntry::new(date(2025, 1, 6), "Office", false));
    badge.add(BadgeEntry::new(date(2025, 1, 7), "Office", false));
    badge.add(BadgeEntry::new(date(2025, 1, 8), "Office", false));
    badge.add(BadgeEntry::new(date(2025, 1, 9), "Office", false));
    let holiday = HolidayData::default();
    let vacation = VacationData::default();
    let today = date(2025, 1, 10);
    let stats = calculate_quarter_stats(&q, &badge, &holiday, &vacation, Some(today)).unwrap();
    assert!(stats.days_ahead_of_pace > 0);
}

#[test]
fn test_remaining_missable_days() {
    // 10 work days, badge in 5 of first 5 (all)
    let q = make_quarter("2025-01-06", "2025-01-17");
    let mut badge = BadgeEntryData::default();
    for d in [6, 7, 8, 9, 10] {
        badge.add(BadgeEntry::new(date(2025, 1, d), "Office", false));
    }
    let holiday = HolidayData::default();
    let vacation = VacationData::default();
    let today = date(2025, 1, 13);
    let stats = calculate_quarter_stats(&q, &badge, &holiday, &vacation, Some(today)).unwrap();
    assert!(stats.remaining_missable_days >= 0);
}

#[test]
fn test_empty_quarter_no_divide_by_zero() {
    // Quarter with all holidays (all days off) -> protect from div/0
    let q = make_quarter("2025-01-06", "2025-01-06");
    let badge = BadgeEntryData::default();
    let mut holiday = HolidayData::default();
    holiday.add(Holiday::new("Test", "2025-01-06"));
    let vacation = VacationData::default();
    let today = date(2025, 1, 7);
    let stats = calculate_quarter_stats(&q, &badge, &holiday, &vacation, Some(today)).unwrap();
    assert_eq!(stats.total_days, 0);
    assert_eq!(percent(stats.current_average), 0.0);
    assert_eq!(stats.flex_days, 0);
}

#[test]
fn test_flex_credit_counted_separately() {
    // 4-day quarter, 2 office badge-ins and 1 flex credit, all count toward goal
    let q = make_quarter("2025-01-06", "2025-01-09");
    let mut badge = BadgeEntryData::default();
    badge.add(BadgeEntry::new(date(2025, 1, 6), "Office", false));
    badge.add(BadgeEntry::new(date(2025, 1, 7), "Flex Credit", true));
    badge.add(BadgeEntry::new(date(2025, 1, 8), "Office", false));
    let holiday = HolidayData::default();
    let vacation = VacationData::default();
    let today = date(2025, 1, 20);
    let stats = calculate_quarter_stats(&q, &badge, &holiday, &vacation, Some(today)).unwrap();
    assert_eq!(stats.days_badged_in, 3); // all 3 count toward goal
    assert_eq!(stats.flex_days, 1); // only 1 is a flex credit
    assert_eq!(stats.compliance_status, "Achieved");
}

#[test]
fn test_working_days_and_available_workdays() {
    // Mon-Fri 2025-01-06 to 2025-01-10. Monday is a holiday, Wednesday a vacation day.
    let q = make_quarter("2025-01-06", "2025-01-10");
    let badge = BadgeEntryData::default();
    let mut holiday = HolidayData::default();
    holiday.add(Holiday::new("Holiday", "2025-01-06")); // Monday
    let mut vacation = VacationData::default();
    vacation.add(Vacation::new("Trip", "2025-01-08", "2025-01-08", true)); // Wednesday
    let today = date(2025, 1, 20);
    let stats = calculate_quarter_stats(&q, &badge, &holiday, &vacation, Some(today)).unwrap();
    assert_eq!(stats.total_calendar_days, 5, "calendar days Mon-Fri");
    assert_eq!(stats.available_workdays, 4, "total working days: Tue+Wed+Thu+Fri");
    assert_eq!(stats.total_days, 3, "available working days: Tue+Thu+Fri");
}

#[test]
fn test_total_calendar_days_includes_weekends() {
    // 2025-01-06 (Mon) to 2025-01-12 (Sun) = 7 calendar days
    let q = make_quarter("2025-01-06", "2025-01-12");
    let badge = BadgeEntryData::default();
    let holiday = HolidayData::default();
    let vacation = VacationData::default();
    let today = date(2025, 1, 20);
    let stats = calculate_quarter_stats(&q, &badge, &holiday, &vacation, Some(today)).unwrap();
    assert_eq!(stats.total_calendar_days, 7, "Mon-Sun = 7 calendar days");
    assert_eq!(stats.available_workdays, 5, "Mon-Fri = 5 working days, no holidays");
    assert_eq!(stats.total_days, 5, "no vacation, same as available");
}

#[test]
fn all_four_days_badged_in_achieves_the_quota() {
    let q = make_quarter("2025-01-06", "2025-01-09");
    let mut badge = BadgeEntryData::default();
    for d in 6..=9 {
        badge.add(BadgeEntry::new(date(2025, 1, d), "Office", false));
    }
    let stats = quarter_stats_as_of(
        &q,
        &badge,
        &HolidayData::default(),
        &VacationData::default(),
        date(2025, 1, 20),
    )
    .unwrap();
    assert_eq!(stats.quarter, "TEST_Q");
    assert_eq!(stats.start_date, date(2025, 1, 6));
    assert_eq!(stats.end_date, date(2025, 1, 9));
    assert_eq!(stats.compliance_status, "Achieved");
    assert_eq!(stats.total_days, 4);
    assert_eq!(stats.days_required, 2);
    assert_eq!(stats.days_still_needed, 0);
    assert_eq!(stats.days_badged_in, 4);
    assert_eq!(stats.days_thus_far, 4);
    assert_eq!(stats.days_left, 0);
    assert_eq!(stats.current_average, Ratio { numerator: 400, denominator: 4 });
    assert_eq!(percent(stats.current_average), 100.0);
    assert_eq!(stats.required_future_average, Ratio { numerator: 0, denominator: 1 });
    assert_eq!(stats.days_ahead_of_pace, 2);
    assert_eq!(stats.remaining_missable_days, 2);
    assert!(stats.projected_completion_date.is_none());
}

#[test]
fn unresolved_range_is_the_only_error() {
    let q = QuarterConfig {
        key: "Q".to_string(),
        quarter: "Q1".to_string(),
        year: "2025".to_string(),
        start_date_raw: "2025-01-06".to_string(),
        end_date_raw: "2025-01-09".to_string(),
        start_date: None,
        end_date: None,
    };
    let badge = BadgeEntryData::default();
    let holiday = HolidayData::default();
    let vacation = VacationData::default();
    let r = calculate_quarter_stats(&q, &badge, &holiday, &vacation, Some(date(2025, 1, 7)));
    assert_eq!(r.err(), Some(QuarterError::UnresolvedRange));
    let mut half = q.clone();
    half.start_date = Some(date(2025, 1, 6));
    let r = quarter_stats_as_of(&half, &badge, &holiday, &vacation, date(2025, 1, 7));
    assert_eq!(r.err(), Some(QuarterError::UnresolvedRange));
    let mut other_half = q.clone();
    other_half.end_date = Some(date(2025, 1, 9));
    let r = quarter_stats_as_of(&other_half, &badge, &holiday, &vacation, date(2025, 1, 7));
    assert_eq!(r.err(), Some(QuarterError::UnresolvedRange));
}

#[test]
fn stats_without_an_as_of_date_use_the_clock() {
    let q = make_quarter("2025-01-06", "2025-01-09");
    let badge = BadgeEntryData::default();
    let stats =
        calculate_quarter_stats(&q, &badge, &HolidayData::default(), &VacationData::default(), None)
            .unwrap();
    // the clock is past this quarter
    assert_eq!(stats.total_days, 4);
    assert_eq!(stats.days_thus_far + stats.days_left, 4);
}

#[test]
fn on_track_quarter_in_numbers() {
    // ten eligible days, three of the first five attended, as of the second Monday
    let q = make_quarter("2025-01-06", "2025-01-17");
    let mut badge = BadgeEntryData::default();
    for d in [6, 7, 8] {
        badge.add(BadgeEntry::new(date(2025, 1, d), "Office", false));
    }
    let stats = quarter_stats_as_of(
        &q,
        &badge,
        &HolidayData::default(),
        &VacationData::default(),
        date(2025, 1, 13),
    )
    .unwrap();
    assert_eq!(stats.total_calendar_days, 12);
    assert_eq!(stats.available_workdays, 10);
    assert_eq!(stats.total_days, 10);
    assert_eq!(stats.days_required, 5);
    assert_eq!(stats.days_badged_in, 3);
    assert_eq!(stats.days_thus_far, 5);
    assert_eq!(stats.days_left, 5);
    assert_eq!(stats.days_still_needed, 2);
    assert_eq!(stats.current_average, Ratio { numerator: 300, denominator: 5 });
    assert_eq!(percent(stats.current_average), 60.0);
    assert_eq!(stats.required_future_average, Ratio { numerator: 200, denominator: 5 });
    assert_eq!(percent(stats.required_future_average), 40.0);
    assert_eq!(stats.compliance_status, "On Track");
    // expected so far: 5 * 5 / 10 = 2
    assert_eq!(stats.days_ahead_of_pace, 1);
    // (10 - 5) - (5 - 3) = 3
    assert_eq!(stats.remaining_missable_days, 3);
    // 2 needed at 3/5 a day: 2 * 5 / 3 = 3 days from the as-of date
    assert_eq!(stats.projected_completion_date, Some(date(2025, 1, 16)));
}

#[test]
fn at_risk_when_the_days_left_ask_for_more_than_the_pace() {
    // ten eligible days, one of the first five attended
    let q = make_quarter("2025-01-06", "2025-01-17");
    let mut badge = BadgeEntryData::default();
    badge.add(BadgeEntry::new(date(2025, 1, 6), "Office", false));
    let stats = quarter_stats_as_of(
        &q,
        &badge,
        &HolidayData::default(),
        &VacationData::default(),
        date(2025, 1, 13),
    )
    .unwrap();
    assert_eq!(stats.days_still_needed, 4);
    assert_eq!(stats.days_left, 5);
    assert_eq!(stats.required_future_average, Ratio { numerator: 400, denominator: 5 });
    assert_eq!(stats.compliance_status, "At Risk");
    assert_eq!(stats.days_ahead_of_pace, -1);
    assert_eq!(stats.remaining_missable_days, 1);
    // 4 needed at 1/5 a day: 20 days
    assert_eq!(stats.projected_completion_date, Some(date(2025, 2, 2)));
}

#[test]
fn equal_rates_are_on_track() {
    // three eligible days, none passed: 2 of 3 needed, 2/3 the pace
    let q = make_quarter("2025-01-06", "2025-01-08");
    let stats = quarter_stats_as_of(
        &q,
        &BadgeEntryData::default(),
        &HolidayData::default(),
        &VacationData::default(),
        date(2025, 1, 1),
    )
    .unwrap();
    assert_eq!(stats.days_required, 2);
    assert_eq!(stats.days_left, 3);
    assert_eq!(stats.compliance_status, "On Track");
    assert!(stats.projected_completion_date.is_none());
}

#[test]
fn impossible_at_zero_days_left() {
    // the as-of date is the last day, not badged in: it is still left
    let q = make_quarter("2025-01-06", "2025-01-09");
    let stats = quarter_stats_as_of(
        &q,
        &BadgeEntryData::default(),
        &HolidayData::default(),
        &VacationData::default(),
        date(2025, 1, 9),
    )
    .unwrap();
    assert_eq!(stats.days_thus_far, 3);
    assert_eq!(stats.days_left, 1);
    assert_eq!(stats.compliance_status, "Impossible");
    // days needed, one day left, the quarter still open
    assert_eq!(stats.required_future_average, Ratio { numerator: 200, denominator: 1 });

    let after = quarter_stats_as_of(
        &q,
        &BadgeEntryData::default(),
        &HolidayData::default(),
        &VacationData::default(),
        date(2025, 1, 10),
    )
    .unwrap();
    assert_eq!(after.days_left, 0);
    assert_eq!(after.compliance_status, "Impossible");
    assert_eq!(after.required_future_average, Ratio { numerator: 0, denominator: 1 });
}

#[test]
fn required_future_average_is_full_on_the_last_open_day() {
    // one eligible day, badged today: it has passed, nothing is left, one day was enough
    let q = make_quarter("2025-01-06", "2025-01-07");
    let mut badge = BadgeEntryData::default();
    badge.add(BadgeEntry::new(date(2025, 1, 6), "Office", false));
    let mut holiday = HolidayData::default();
    holiday.add(Holiday::new("Off", "2025-01-07"));
    let stats = quarter_stats_as_of(&q, &badge, &holiday, &VacationData::default(), date(2025, 1, 6))
        .unwrap();
    assert_eq!(stats.total_days, 1);
    assert_eq!(stats.days_thus_far, 1);
    assert_eq!(stats.days_left, 0);
    assert_eq!(stats.compliance_status, "Achieved");

    // three eligible days, all passed, one attended, the quarter ends today
    let q = make_quarter("2025-01-06", "2025-01-09");
    let mut badge = BadgeEntryData::default();
    badge.add(BadgeEntry::new(date(2025, 1, 9), "Office", false));
    let stats = quarter_stats_as_of(
        &q,
        &badge,
        &HolidayData::default(),
        &VacationData::default(),
        date(2025, 1, 9),
    )
    .unwrap();
    assert_eq!(stats.days_thus_far, 4);
    assert_eq!(stats.days_left, 0);
    assert_eq!(stats.days_still_needed, 1);
    assert_eq!(stats.required_future_average, Ratio { numerator: 100, denominator: 1 });
    assert_eq!(stats.compliance_status, "Impossible");
}

#[test]
fn same_day_counts_as_passed_only_when_badged() {
    let q = make_quarter("2025-01-06", "2025-01-10");
    let mut badge = BadgeEntryData::default();
    let unbadged = quarter_stats_as_of(
        &q,
        &badge,
        &HolidayData::default(),
        &VacationData::default(),
        date(2025, 1, 8),
    )
    .unwrap();
    assert_eq!(unbadged.days_thus_far, 2);
    assert_eq!(unbadged.days_left, 3);
    badge.add(BadgeEntry::new(date(2025, 1, 8), "Office", false));
    let badged = quarter_stats_as_of(
        &q,
        &badge,
        &HolidayData::default(),
        &VacationData::default(),
        date(2025, 1, 8),
    )
    .unwrap();
    assert_eq!(badged.days_thus_far, 3);
    assert_eq!(badged.days_left, 2);
}

#[test]
fn a_day_that_is_holiday_and_vacation_counts_in_both() {
    let q = make_quarter("2025-01-06", "2025-01-10");
    let mut holiday = HolidayData::default();
    holiday.add(Holiday::new("Holiday", "2025-01-08"));
    let mut vacation = VacationData::default();
    vacation.add(Vacation::new("Trip", "2025-01-08", "2025-01-09", true));
    let stats = quarter_stats_as_of(
        &q,
        &BadgeEntryData::default(),
        &holiday,
        &vacation,
        date(2025, 1, 20),
    )
    .unwrap();
    assert_eq!(stats.days_off, 2);
    assert_eq!(stats.holidays, 1);
    assert_eq!(stats.vacation_days, 2);
    assert_eq!(stats.available_workdays, 4);
    assert_eq!(stats.total_days, 3);
}

#[test]
fn weekend_holidays_and_vacations_are_not_counted() {
    let q = make_quarter("2025-01-06", "2025-01-12");
    let mut holiday = HolidayData::default();
    holiday.add(Holiday::new("Saturday", "2025-01-11"));
    let mut vacation = VacationData::default();
    vacation.add(Vacation::new("Weekend", "2025-01-11", "2025-01-12", true));
    let stats = quarter_stats_as_of(
        &q,
        &BadgeEntryData::default(),
        &holiday,
        &vacation,
        date(2025, 1, 20),
    )
    .unwrap();
    assert_eq!(stats.days_off, 0);
    assert_eq!(stats.holidays, 0);
    assert_eq!(stats.vacation_days, 0);
    assert_eq!(stats.total_days, 5);
}

#[test]
fn a_holiday_written_otherwise_matches_no_day() {
    let q = make_quarter("2025-01-06", "2025-01-10");
    let mut holiday = HolidayData::default();
    holiday.add(Holiday::new("Loose", "2025-1-6"));
    let stats = quarter_stats_as_of(
        &q,
        &BadgeEntryData::default(),
        &holiday,
        &VacationData::default(),
        date(2025, 1, 20),
    )
    .unwrap();
    assert_eq!(stats.holidays, 0);
    assert_eq!(stats.total_days, 5);
}

#[test]
fn removing_flex_credits_keeps_days_badged_in() {
    let q = make_quarter("2025-01-06", "2025-01-08");
    let mut with_flex = BadgeEntryData::default();
    with_flex.add(BadgeEntry::new(date(2025, 1, 6), "Office", false));
    with_flex.add(BadgeEntry::new(date(2025, 1, 7), "Flex Credit", true));
    with_flex.add(BadgeEntry::new(date(2025, 1, 8), "Flex Credit", true));
    let mut without_flex = BadgeEntryData::default();
    for d in 6..=8 {
        without_flex.add(BadgeEntry::new(date(2025, 1, d), "Office", false));
    }
    let holiday = HolidayData::default();
    let vacation = VacationData::default();
    let a = quarter_stats_as_of(&q, &with_flex, &holiday, &vacation, date(2025, 1, 20)).unwrap();
    let b = quarter_stats_as_of(&q, &without_flex, &holiday, &vacation, date(2025, 1, 20)).unwrap();
    assert_eq!(a.days_badged_in, 3);
    assert_eq!(b.days_badged_in, 3);
    assert_eq!(a.flex_days, 2);
    assert_eq!(b.flex_days, 0);
    assert_eq!(a.compliance_status, b.compliance_status);
}

#[test]
fn badge_ins_on_days_off_do_not_count() {
    let q = make_quarter("2025-01-06", "2025-01-10");
    let mut badge = BadgeEntryData::default();
    badge.add(BadgeEntry::new(date(2025, 1, 6), "Office", false));
    badge.add(BadgeEntry::new(date(2025, 1, 11), "Office", false)); // Saturday, out of range
    let mut holiday = HolidayData::default();
    holiday.add(Holiday::new("Holiday", "2025-01-06"));
    let stats =
        quarter_stats_as_of(&q, &badge, &holiday, &VacationData::default(), date(2025, 1, 20))
            .unwrap();
    assert_eq!(stats.days_badged_in, 0);
    let monday = stats.workday_stats.get("2025-01-06").unwrap();
    assert!(monday.is_badged_in);
    assert!(monday.is_holiday);
    assert!(!monday.is_workday);
}

#[test]
fn the_last_record_of_a_day_counts() {
    let q = make_quarter("2025-01-06", "2025-01-10");
    let mut badge = BadgeEntryData::default();
    badge.add(BadgeEntry::new(date(2025, 1, 6), "Office", false));
    let mut withdrawn = BadgeEntry::new(date(2025, 1, 6), "Office", true);
    withdrawn.is_badged_in = false;
    badge.add(withdrawn);
    let stats = quarter_stats_as_of(
        &q,
        &badge,
        &HolidayData::default(),
        &VacationData::default(),
        date(2025, 1, 20),
    )
    .unwrap();
    assert_eq!(stats.days_badged_in, 0);
    assert_eq!(stats.flex_days, 0);
    let monday = stats.workday_stats.get("2025-01-06").unwrap();
    assert!(!monday.is_badged_in);
    // a record that is not badged in is no flex credit
    assert!(!monday.is_flex_credit);
}

#[test]
fn a_record_counts_by_the_day_it_was_made() {
    // filed under a day of the range, made on a day outside it
    let q = make_quarter("2025-01-06", "2025-01-10");
    let mut badge = BadgeEntryData::default();
    let mut entry = BadgeEntry::new(date(2025, 1, 8), "Office", false);
    entry.date_time = DateTime::new(date(2025, 2, 1), 0, 0).unwrap();
    badge.add(entry);
    let stats = quarter_stats_as_of(
        &q,
        &badge,
        &HolidayData::default(),
        &VacationData::default(),
        date(2025, 1, 20),
    )
    .unwrap();
    assert_eq!(stats.days_badged_in, 0);
}

#[test]
fn workday_stats_hold_a_record_for_every_weekday() {
    let q = make_quarter("2025-01-06", "2025-01-12");
    let mut badge = BadgeEntryData::default();
    badge.add(BadgeEntry::new(date(2025, 1, 7), "Flex Credit", true));
    let mut holiday = HolidayData::default();
    holiday.add(Holiday::new("Holiday", "2025-01-06"));
    let mut vacation = VacationData::default();
    vacation.add(Vacation::new("Trip", "2025-01-09", "2025-01-10", true));
    let stats = quarter_stats_as_of(&q, &badge, &holiday, &vacation, date(2025, 1, 8)).unwrap();
    assert_eq!(stats.workday_stats.len(), 5);
    assert!(!stats.workday_stats.contains_key("2025-01-11"));
    let tuesday = stats.workday_stats.get("2025-01-07").unwrap();
    assert_eq!(tuesday.date, date(2025, 1, 7));
    assert_eq!(tuesday.work_date, "2025-01-07");
    assert!(tuesday.is_workday && tuesday.is_badged_in && tuesday.is_flex_credit);
    assert!(!tuesday.is_holiday && !tuesday.is_vacation);
    let monday = stats.workday_stats.get("2025-01-06").unwrap();
    assert!(monday.is_holiday && !monday.is_workday && !monday.is_vacation);
    let friday = stats.workday_stats.get("2025-01-10").unwrap();
    assert!(friday.is_vacation && !friday.is_workday && !friday.is_holiday);
    let wednesday = stats.workday_stats.get("2025-01-08").unwrap();
    assert!(wednesday.is_workday && !wednesday.is_badged_in);
}

#[test]
fn a_range_that_ends_before_it_starts_has_no_days() {
    let mut q = make_quarter("2025-01-10", "2025-01-06");
    q.key = "BACKWARDS".to_string();
    let stats = quarter_stats_as_of(
        &q,
        &BadgeEntryData::default(),
        &HolidayData::default(),
        &VacationData::default(),
        date(2025, 1, 20),
    )
    .unwrap();
    assert_eq!(stats.total_calendar_days, -3);
    assert_eq!(stats.total_days, 0);
    assert_eq!(stats.available_workdays, 0);
    assert_eq!(stats.compliance_status, "Achieved");
    assert!(stats.workday_stats.is_empty());
}
