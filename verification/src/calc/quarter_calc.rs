//! The quarter statistics engine: from a quarter, the attendance records,
//! the holidays and the vacations to counts, ratios, status and projection.

use crate::calc::metrics::{
    current_average, days_to_completion, derive_metrics, expected_so_far, floored,
    required_days, required_future_average, status_label, status_of, Ratio,
};
use crate::calc::tally::{attendance_of_maps, day_record, tallies, tally_days, Attendance};
use crate::calc::workday::{is_workday_key, Workday};
use crate::data::badge_entry::{is_badge_key, is_last_badge_on, BadgeEntry, BadgeEntryData};
use crate::data::holiday::{is_holiday_key, Holiday, HolidayData};
use crate::data::quarter::{day_number, QuarterConfig, QuarterError};
use crate::data::vacation::{is_vacation_key, Vacation, VacationData};
use crate::date::{date_key, in_date_range, is_weekday, Date};
use vstd::hash_map::StringHashMap;
use vstd::prelude::*;

verus! {

/// The statistics of one quarter as of one day.
pub struct QuarterStats {
    /// The quarter's key.
    pub quarter: String,
    pub start_date: Date,
    pub end_date: Date,
    /// Eligible days that are badged in, flex credits included.
    pub days_badged_in: i32,
    /// Eligible days that are badged in by a flex credit.
    pub flex_days: i32,
    /// Eligible days that have passed.
    pub days_thus_far: i32,
    /// Eligible days that have not passed.
    pub days_left: i32,
    /// All days of the range, weekends included.
    pub total_calendar_days: i32,
    /// Weekdays that are no holiday; vacation days are among them.
    pub available_workdays: i32,
    /// Eligible days: weekdays that are neither a holiday nor a vacation day.
    pub total_days: i32,
    /// The quota: half the eligible days, rounded up.
    pub days_required: i32,
    /// The quota less the badge-ins, but not under zero.
    pub days_still_needed: i32,
    /// Weekdays that are a holiday or a vacation day.
    pub days_off: i32,
    /// Weekdays that are a holiday.
    pub holidays: i32,
    /// Weekdays that are a vacation day.
    pub vacation_days: i32,
    /// Attendance so far, in percent of the eligible days that have passed.
    pub current_average: Ratio,
    /// The attendance that the days left ask for, in percent.
    pub required_future_average: Ratio,
    /// "Achieved", "Impossible", "At Risk" or "On Track".
    pub compliance_status: String,
    /// Badge-ins over what the target pace asks for so far.
    pub days_ahead_of_pace: i32,
    /// The eligible days that can still be missed, but not under zero.
    pub remaining_missable_days: i32,
    /// The day on which the quota would be met at the rate so far.
    pub projected_completion_date: Option<Date>,
    /// The record of every weekday of the range, by its canonical text.
    pub workday_stats: StringHashMap<Workday>,
}

/// What the records say of the days from day `start` to day `end`. An
/// attendance record counts if it was made in that range; where several
/// such records are filed under one text, the last one counts.
pub open spec fn attendance_of(
    badges: Seq<BadgeEntry>,
    holidays: Seq<Holiday>,
    vacations: Seq<Vacation>,
    start: int,
    end: int,
) -> Attendance {
    Attendance {
        badged: Set::new(
            |k: Seq<char>|
                exists|i: int| #[trigger]
                    is_last_badge_on(badges, start, end, k, i) && badges[i].is_badged_in,
        ),
        flex: Set::new(
            |k: Seq<char>|
                exists|i: int| #[trigger]
                    is_last_badge_on(badges, start, end, k, i) && badges[i].is_flex_credit,
        ),
        holidays: Set::new(|k: Seq<char>| is_holiday_key(holidays, k)),
        vacations: Set::new(|k: Seq<char>| is_vacation_key(vacations, k)),
    }
}

/// The day of the projected completion: `today` and the days to completion,
/// if there is such a date.
pub open spec fn projected_completion(
    today: int,
    badged: int,
    total: int,
    thus_far: int,
    left: int,
) -> Option<int> {
    match days_to_completion(badged, total, thus_far, left) {
        Some(n) => if in_date_range(today + n) {
            Some(today + n)
        } else {
            None
        },
        None => None,
    }
}

/// Whether `stats` are the statistics of the quarter `key` from day `start`
/// to day `end`, as of day `today`, for what `att` says of the days.
pub open spec fn stats_hold(
    stats: QuarterStats,
    key: Seq<char>,
    start: int,
    end: int,
    today: int,
    att: Attendance,
) -> bool {
    let c = tallies(att, today, start, end);
    let required = required_days(c.total_days);
    &&& stats.quarter@ == key
    &&& stats.start_date@ == start
    &&& stats.end_date@ == end
    &&& stats.total_calendar_days == end - start + 1
    &&& stats.days_badged_in == c.days_badged_in
    &&& stats.flex_days == c.flex_days
    &&& stats.days_thus_far == c.days_thus_far
    &&& stats.days_left == c.days_left
    &&& stats.available_workdays == c.available_workdays
    &&& stats.total_days == c.total_days
    &&& stats.days_off == c.days_off
    &&& stats.holidays == c.holidays
    &&& stats.vacation_days == c.vacation_days
    &&& stats.days_required == required
    &&& stats.days_still_needed == floored(required - c.days_badged_in)
    &&& stats.current_average@ == current_average(c.days_badged_in, c.days_thus_far)
    &&& stats.required_future_average@ == required_future_average(
        required - c.days_badged_in,
        c.days_left,
        end >= today,
    )
    &&& stats.compliance_status@ == status_label(
        status_of(c.days_badged_in, c.total_days, c.days_left, end >= today),
    )
    &&& stats.days_ahead_of_pace == c.days_badged_in - expected_so_far(
        c.days_thus_far,
        required,
        c.total_days,
    )
    &&& stats.remaining_missable_days == floored(
        (c.total_days - required) - (c.days_thus_far - c.days_badged_in),
    )
    &&& day_number(stats.projected_completion_date) == projected_completion(
        today,
        c.days_badged_in,
        c.total_days,
        c.days_thus_far,
        c.days_left,
    )
    &&& forall|k: Seq<char>| #[trigger]
        stats.workday_stats@.contains_key(k) <==> is_workday_key(k, start, end)
    &&& forall|d: int|
        start <= d <= end && is_weekday(d) ==> (#[trigger] stats.workday_stats@[date_key(d)])@
            == day_record(att, d)
}

/// The lookup tables of the records say of the days what the records say.
proof fn lemma_attendance_of_maps(
    badges: Seq<BadgeEntry>,
    holidays: Seq<Holiday>,
    vacations: Seq<Vacation>,
    start: int,
    end: int,
    badge_map: Map<Seq<char>, &BadgeEntry>,
    holiday_map: Map<Seq<char>, &Holiday>,
    vacation_map: Map<Seq<char>, Vacation>,
)
    requires
        forall|key: Seq<char>| #[trigger]
            badge_map.contains_key(key) <==> is_badge_key(badges, start, end, key),
        forall|key: Seq<char>| #[trigger]
            badge_map.contains_key(key) ==> exists|i: int|
                is_last_badge_on(badges, start, end, key, i) && *badge_map[key] == badges[i],
        forall|key: Seq<char>| #[trigger]
            holiday_map.contains_key(key) <==> is_holiday_key(holidays, key),
        forall|key: Seq<char>| #[trigger]
            vacation_map.contains_key(key) <==> is_vacation_key(vacations, key),
    ensures
        attendance_of_maps(badge_map, holiday_map.dom(), vacation_map.dom()) == attendance_of(
            badges,
            holidays,
            vacations,
            start,
            end,
        ),
{
    let a = attendance_of_maps(badge_map, holiday_map.dom(), vacation_map.dom());
    let b = attendance_of(badges, holidays, vacations, start, end);
    // The record that the table holds under a text is the last record
    // filed under it, and there is only one last record.
    assert forall|k: Seq<char>| a.badged.contains(k) <==> b.badged.contains(k) by {
        if badge_map.contains_key(k) {
            let held = choose|i: int|
                is_last_badge_on(badges, start, end, k, i) && *badge_map[k] == badges[i];
            assert forall|i: int| is_last_badge_on(badges, start, end, k, i) implies i == held by {}
        }
    }
    assert forall|k: Seq<char>| a.flex.contains(k) <==> b.flex.contains(k) by {
        if badge_map.contains_key(k) {
            let held = choose|i: int|
                is_last_badge_on(badges, start, end, k, i) && *badge_map[k] == badges[i];
            assert forall|i: int| is_last_badge_on(badges, start, end, k, i) implies i == held by {}
        }
    }
    assert(a.badged =~= b.badged);
    assert(a.flex =~= b.flex);
    assert(a.holidays =~= b.holidays);
    assert(a.vacations =~= b.vacations);
}

/// The statistics of `quarter` as of `today`. Fails if the quarter's start
/// date or end date was never read from its text, and only then.
pub fn quarter_stats_as_of(
    quarter: &QuarterConfig,
    badge: &BadgeEntryData,
    holiday: &HolidayData,
    vacation: &VacationData,
    today: Date,
) -> (r: Result<QuarterStats, QuarterError>)
    ensures
        match (quarter.start_date, quarter.end_date) {
            (Some(start), Some(end)) => r matches Ok(stats) && stats_hold(
                stats,
                quarter.key@,
                start@,
                end@,
                today@,
                attendance_of(badge.data@, holiday.holidays@, vacation.vacations@, start@, end@),
            ),
            _ => r matches Err(e) && e == QuarterError::UnresolvedRange,
        },
{
    let start = match quarter.start_date {
        Some(date) => date,
        None => {
            return Err(QuarterError::UnresolvedRange);
        },
    };
    let end = match quarter.end_date {
        Some(date) => date,
        None => {
            return Err(QuarterError::UnresolvedRange);
        },
    };
    let badge_map = badge.get_badge_map(start, end);
    let vacation_map = vacation.get_vacation_map();
    let holiday_map = holiday.get_holiday_map();
    proof {
        lemma_attendance_of_maps(
            badge.data@,
            holiday.holidays@,
            vacation.vacations@,
            start@,
            end@,
            badge_map@,
            holiday_map@,
            vacation_map@,
        );
    }
    let (counts, workday_stats) = tally_days(
        start,
        end,
        today,
        &badge_map,
        &holiday_map,
        &vacation_map,
    );
    let total_calendar_days: i32 = end.days() - start.days() + 1;
    let quarter_open = !end.is_before(today);
    let metrics = derive_metrics(&counts, quarter_open);
    let projected_completion_date = match metrics.days_to_completion {
        Some(n) => today.checked_add_days(n),
        None => None,
    };
    let (
        days_badged_in,
        flex_days,
        days_thus_far,
        days_left,
        available_workdays,
        total_days,
        days_off,
        holidays,
        vacation_days,
    ) = counts.values();
    Ok(
        QuarterStats {
            quarter: quarter.key.clone(),
            start_date: start,
            end_date: end,
            days_badged_in,
            flex_days,
            days_thus_far,
            days_left,
            total_calendar_days,
            available_workdays,
            total_days,
            days_required: metrics.days_required,
            days_still_needed: metrics.days_still_needed,
            days_off,
            holidays,
            vacation_days,
            current_average: metrics.current_average,
            required_future_average: metrics.required_future_average,
            compliance_status: metrics.status.label(),
            days_ahead_of_pace: metrics.days_ahead_of_pace,
            remaining_missable_days: metrics.remaining_missable_days,
            projected_completion_date,
            workday_stats,
        },
    )
}

/// The statistics of `quarter` as of `today`, or as of today's date by the
/// local clock where `today` is `None`. Fails if the quarter's start date
/// or end date was never read from its text, and only then.
pub fn calculate_quarter_stats(
    quarter: &QuarterConfig,
    badge: &BadgeEntryData,
    holiday: &HolidayData,
    vacation: &VacationData,
    today: Option<Date>,
) -> (r: Result<QuarterStats, QuarterError>)
    ensures
        match (quarter.start_date, quarter.end_date) {
            (Some(start), Some(end)) => r matches Ok(stats) && exists|as_of: int|
                (today matches Some(t) ==> as_of == t@) && #[trigger] stats_hold(
                    stats,
                    quarter.key@,
                    start@,
                    end@,
                    as_of,
                    attendance_of(
                        badge.data@,
                        holiday.holidays@,
                        vacation.vacations@,
                        start@,
                        end@,
                    ),
                ),
            _ => r matches Err(e) && e == QuarterError::UnresolvedRange,
        },
{
    let as_of = match today {
        Some(date) => date,
        None => Date::today(),
    };
    quarter_stats_as_of(quarter, badge, holiday, vacation, as_of)
}

} // verus!
