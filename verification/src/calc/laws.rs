//! What holds of every quarter's statistics.

use crate::calc::metrics::{
    lemma_status_labels_differ, required_days, status_label, status_of, ComplianceStatus,
};
use crate::calc::quarter_calc::{attendance_of, stats_hold, QuarterStats};
use crate::calc::metrics::MAX_SPAN;
use crate::calc::tally::{
    counts_day, day_record, lemma_tallies_fit, tally, Attendance, Tally,
};
use crate::data::badge_entry::{is_badge_in_range, is_last_badge_on, BadgeEntry};
use crate::data::holiday::Holiday;
use crate::data::vacation::Vacation;
use vstd::prelude::*;

verus! {

/// No count counts more days than the range holds, and none is negative.
pub proof fn lemma_tally_bounds(t: Tally, att: Attendance, today: int, start: int, end: int)
    ensures
        0 <= tally(t, att, today, start, end),
        start <= end ==> tally(t, att, today, start, end) <= end - start + 1,
        end < start ==> tally(t, att, today, start, end) == 0,
    decreases end - start + 1,
{
    if start <= end {
        lemma_tally_bounds(t, att, today, start, end - 1);
    }
}

/// A count that counts only days that another count counts is no larger
/// than that one.
pub proof fn lemma_tally_monotone(
    t: Tally,
    u: Tally,
    att: Attendance,
    today: int,
    start: int,
    end: int,
)
    requires
        forall|d: int|
            start <= d <= end && #[trigger] counts_day(t, att, today, d) ==> counts_day(
                u,
                att,
                today,
                d,
            ),
    ensures
        tally(t, att, today, start, end) <= tally(u, att, today, start, end),
    decreases end - start + 1,
{
    if start <= end {
        lemma_tally_monotone(t, u, att, today, start, end - 1);
    }
}

/// In the record of a day, the day is a workday if and only if it is
/// neither a holiday nor a vacation day, and it is a flex credit only if it
/// is badged in.
pub proof fn lemma_day_record_is_consistent(att: Attendance, day: int)
    ensures
        day_record(att, day).is_workday == !(day_record(att, day).is_holiday || day_record(
            att,
            day,
        ).is_vacation),
        day_record(att, day).is_flex_credit ==> day_record(att, day).is_badged_in,
{
}

/// The calendar days of a quarter are all the days of its range, the first
/// and the last included, whatever their weekdays and whatever is known of
/// them.
pub proof fn lemma_calendar_days_span_the_range(
    stats: QuarterStats,
    key: Seq<char>,
    start: int,
    end: int,
    today: int,
    att: Attendance,
)
    requires
        stats_hold(stats, key, start, end, today, att),
    ensures
        stats.total_calendar_days == end - start + 1,
{
}

/// In a range that does not end before it starts, the eligible days are
/// among the available workdays, and these among the calendar days.
pub proof fn lemma_eligible_available_calendar(
    stats: QuarterStats,
    key: Seq<char>,
    start: int,
    end: int,
    today: int,
    att: Attendance,
)
    requires
        start <= end,
        stats_hold(stats, key, start, end, today, att),
    ensures
        0 <= stats.total_days <= stats.available_workdays <= stats.total_calendar_days,
{
    lemma_tally_bounds(Tally::Eligible, att, today, start, end);
    lemma_tally_bounds(Tally::Available, att, today, start, end);
    lemma_tally_monotone(Tally::Eligible, Tally::Available, att, today, start, end);
}

/// The counts of a quarter fit together: every eligible day has either
/// passed or is left; the flex days are among the days badged in, and these
/// among the eligible days; the weekdays are the available workdays and the
/// holidays, and also the eligible days and the days off. A day that is
/// both a holiday and a vacation day is one day off and counts as a holiday
/// and as a vacation day, so the days off can be fewer than the two
/// together.
pub proof fn lemma_counts_fit_together(
    stats: QuarterStats,
    key: Seq<char>,
    start: int,
    end: int,
    today: int,
    att: Attendance,
)
    requires
        end - start + 1 <= MAX_SPAN,
        stats_hold(stats, key, start, end, today, att),
    ensures
        stats.days_thus_far + stats.days_left == stats.total_days,
        0 <= stats.flex_days <= stats.days_badged_in <= stats.total_days,
        stats.available_workdays + stats.holidays == stats.total_days + stats.days_off,
        stats.holidays <= stats.days_off,
        stats.vacation_days <= stats.days_off,
        stats.days_off <= stats.holidays + stats.vacation_days,
        0 <= stats.days_still_needed <= stats.days_required,
        0 <= stats.remaining_missable_days,
{
    lemma_tallies_fit(att, today, start, end);
}

/// The quota is half the eligible days, rounded up: the least whole number
/// that is no less than half of them.
pub proof fn lemma_required_is_half_rounded_up(total: int)
    requires
        0 <= total,
    ensures
        2 * required_days(total) >= total,
        2 * (required_days(total) - 1) < total,
        total % 2 == 0 ==> required_days(total) == total / 2,
        total % 2 == 1 ==> required_days(total) == total / 2 + 1,
{
}

/// The quota of a quarter's statistics is half its eligible days, rounded
/// up.
pub proof fn lemma_quota_of_stats(
    stats: QuarterStats,
    key: Seq<char>,
    start: int,
    end: int,
    today: int,
    att: Attendance,
)
    requires
        stats_hold(stats, key, start, end, today, att),
    ensures
        stats.total_days >= 0,
        2 * stats.days_required >= stats.total_days,
        2 * (stats.days_required - 1) < stats.total_days,
{
    lemma_tally_bounds(Tally::Eligible, att, today, start, end);
    lemma_required_is_half_rounded_up(stats.total_days as int);
}

/// A quarter without eligible days has no badge-ins, no flex credits and no
/// days passed; its current average is zero, and its quota, which is zero,
/// is met.
pub proof fn lemma_quarter_without_eligible_days(
    stats: QuarterStats,
    key: Seq<char>,
    start: int,
    end: int,
    today: int,
    att: Attendance,
)
    requires
        stats_hold(stats, key, start, end, today, att),
        stats.total_days == 0,
    ensures
        stats.days_badged_in == 0,
        stats.flex_days == 0,
        stats.days_thus_far == 0,
        stats.days_left == 0,
        stats.days_required == 0,
        stats.current_average.numerator == 0,
        stats.current_average.denominator == 1,
        stats.compliance_status@ == status_label(ComplianceStatus::Achieved),
{
    lemma_tally_bounds(Tally::BadgedIn, att, today, start, end);
    lemma_tally_bounds(Tally::Flex, att, today, start, end);
    lemma_tally_bounds(Tally::ThusFar, att, today, start, end);
    lemma_tally_bounds(Tally::Left, att, today, start, end);
    lemma_tally_monotone(Tally::BadgedIn, Tally::Eligible, att, today, start, end);
    lemma_tally_monotone(Tally::Flex, Tally::Eligible, att, today, start, end);
    lemma_tally_monotone(Tally::ThusFar, Tally::Eligible, att, today, start, end);
    lemma_tally_monotone(Tally::Left, Tally::Eligible, att, today, start, end);
}

/// The status is "Achieved" if and only if the badge-ins reach the quota.
pub proof fn lemma_achieved_iff_quota_met(
    stats: QuarterStats,
    key: Seq<char>,
    start: int,
    end: int,
    today: int,
    att: Attendance,
)
    requires
        stats_hold(stats, key, start, end, today, att),
    ensures
        stats.compliance_status@ == status_label(ComplianceStatus::Achieved)
            <==> stats.days_badged_in >= stats.days_required,
{
    let status = status_of(
        stats.days_badged_in as int,
        stats.total_days as int,
        stats.days_left as int,
        end >= today,
    );
    lemma_status_labels_differ(status, ComplianceStatus::Achieved);
}

/// The status is "Impossible" if and only if the days still needed are more
/// than the eligible days left; with no day left, as soon as one day is
/// still needed.
pub proof fn lemma_impossible_iff_shortfall_exceeds_days_left(
    stats: QuarterStats,
    key: Seq<char>,
    start: int,
    end: int,
    today: int,
    att: Attendance,
)
    requires
        stats_hold(stats, key, start, end, today, att),
    ensures
        stats.compliance_status@ == status_label(ComplianceStatus::Impossible)
            <==> stats.days_required - stats.days_badged_in > stats.days_left,
        stats.days_left == 0 && stats.days_badged_in < stats.days_required
            ==> stats.compliance_status@ == status_label(ComplianceStatus::Impossible),
{
    let status = status_of(
        stats.days_badged_in as int,
        stats.total_days as int,
        stats.days_left as int,
        end >= today,
    );
    lemma_status_labels_differ(status, ComplianceStatus::Impossible);
    lemma_tally_bounds(Tally::Left, att, today, start, end);
}

/// Which badge-ins are flex credits changes no count but the count of flex
/// credits.
pub proof fn lemma_flex_marks_change_only_flex_days(
    t: Tally,
    att: Attendance,
    other: Attendance,
    today: int,
    start: int,
    end: int,
)
    requires
        !(t is Flex),
        att.badged == other.badged,
        att.holidays == other.holidays,
        att.vacations == other.vacations,
    ensures
        tally(t, att, today, start, end) == tally(t, other, today, start, end),
    decreases end - start + 1,
{
    if start <= end {
        lemma_flex_marks_change_only_flex_days(t, att, other, today, start, end - 1);
    }
}

/// Whether two lists of attendance records differ at most in which records
/// are marked as flex credits.
pub open spec fn same_but_flex_marks(a: Seq<BadgeEntry>, b: Seq<BadgeEntry>) -> bool {
    &&& a.len() == b.len()
    &&& forall|i: int|
        0 <= i < a.len() ==> {
            &&& (#[trigger] a[i]).key@ == b[i].key@
            &&& a[i].date_time == b[i].date_time
            &&& a[i].is_badged_in == b[i].is_badged_in
        }
}

/// Marking attendance records as flex credits, or taking such marks off,
/// changes neither which days are badged in nor which are days off.
pub proof fn lemma_flex_marks_keep_the_badge_ins(
    badges: Seq<BadgeEntry>,
    remarked: Seq<BadgeEntry>,
    holidays: Seq<Holiday>,
    vacations: Seq<Vacation>,
    start: int,
    end: int,
)
    requires
        same_but_flex_marks(badges, remarked),
    ensures
        attendance_of(badges, holidays, vacations, start, end).badged == attendance_of(
            remarked,
            holidays,
            vacations,
            start,
            end,
        ).badged,
        attendance_of(badges, holidays, vacations, start, end).holidays == attendance_of(
            remarked,
            holidays,
            vacations,
            start,
            end,
        ).holidays,
        attendance_of(badges, holidays, vacations, start, end).vacations == attendance_of(
            remarked,
            holidays,
            vacations,
            start,
            end,
        ).vacations,
{
    let a = attendance_of(badges, holidays, vacations, start, end);
    let b = attendance_of(remarked, holidays, vacations, start, end);
    assert forall|k: Seq<char>, i: int|
        is_last_badge_on(badges, start, end, k, i) <==> is_last_badge_on(
            remarked,
            start,
            end,
            k,
            i,
        ) by {
        if 0 <= i < badges.len() {
            assert(is_badge_in_range(badges[i], start, end) == is_badge_in_range(
                remarked[i],
                start,
                end,
            ));
            if is_last_badge_on(badges, start, end, k, i) {
                assert forall|j: int|
                    i < j < remarked.len() && is_badge_in_range(
                        #[trigger] remarked[j],
                        start,
                        end,
                    ) implies remarked[j].key@ != k by {
                    assert(is_badge_in_range(badges[j], start, end));
                }
            }
            if is_last_badge_on(remarked, start, end, k, i) {
                assert forall|j: int|
                    i < j < badges.len() && is_badge_in_range(
                        #[trigger] badges[j],
                        start,
                        end,
                    ) implies badges[j].key@ != k by {
                    assert(is_badge_in_range(remarked[j], start, end));
                }
            }
        }
    }
    assert forall|k: Seq<char>| a.badged.contains(k) <==> b.badged.contains(k) by {
        if a.badged.contains(k) {
            let i = choose|i: int| #[trigger]
                is_last_badge_on(badges, start, end, k, i) && badges[i].is_badged_in;
            assert(is_last_badge_on(remarked, start, end, k, i) && remarked[i].is_badged_in);
        }
        if b.badged.contains(k) {
            let i = choose|i: int| #[trigger]
                is_last_badge_on(remarked, start, end, k, i) && remarked[i].is_badged_in;
            assert(is_last_badge_on(badges, start, end, k, i) && badges[i].is_badged_in);
        }
    }
    assert(a.badged =~= b.badged);
}

/// Flex credits count as badge-ins and are tallied apart: the flex days
/// are among the days badged in, and two quarters that differ only in
/// which badge-ins are flex credits have the same days badged in.
pub proof fn lemma_flex_credits_count_as_badge_ins(
    stats: QuarterStats,
    other_stats: QuarterStats,
    key: Seq<char>,
    start: int,
    end: int,
    today: int,
    att: Attendance,
    other: Attendance,
)
    requires
        stats_hold(stats, key, start, end, today, att),
        stats_hold(other_stats, key, start, end, today, other),
        att.badged == other.badged,
        att.holidays == other.holidays,
        att.vacations == other.vacations,
    ensures
        0 <= stats.flex_days <= stats.days_badged_in,
        stats.days_badged_in == other_stats.days_badged_in,
        stats.compliance_status@ == other_stats.compliance_status@,
{
    lemma_tally_bounds(Tally::Flex, att, today, start, end);
    lemma_tally_monotone(Tally::Flex, Tally::BadgedIn, att, today, start, end);
    lemma_flex_marks_change_only_flex_days(Tally::BadgedIn, att, other, today, start, end);
    lemma_flex_marks_change_only_flex_days(Tally::Eligible, att, other, today, start, end);
    lemma_flex_marks_change_only_flex_days(Tally::Left, att, other, today, start, end);
}

} // verus!
