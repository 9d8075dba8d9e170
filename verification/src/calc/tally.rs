//! Counting the weekdays of a quarter by what is known of them.
//!
//! What is known comes as four sets of canonical date texts
//! ([`Attendance`]). A weekday is then a holiday, a vacation day, badged
//! in, a flex credit, or none of these, by whether its own text is in the
//! set; and each count of the engine is the number of days of the range
//! that one rule ([`Tally`]) picks.

use crate::calc::metrics::{counts_fit, DayCounts, DayCountsView, MAX_SPAN};
use crate::calc::workday::{create_workday_map, is_workday, is_workday_key, Workday, WorkdayView};
use crate::data::badge_entry::BadgeEntry;
use crate::data::holiday::Holiday;
use crate::data::vacation::Vacation;
use crate::date::{date_key, in_date_range, is_weekday, Date};
use vstd::hash_map::StringHashMap;
use vstd::prelude::*;

verus! {

/// What is known of the days of a quarter, as sets of canonical date
/// texts.
pub struct Attendance {
    /// The days with an attendance record that is badged in.
    pub badged: Set<Seq<char>>,
    /// The days with an attendance record that is marked as flex credit.
    pub flex: Set<Seq<char>>,
    /// The holidays.
    pub holidays: Set<Seq<char>>,
    /// The days that a vacation covers.
    pub vacations: Set<Seq<char>>,
}

/// Whether day `d` is a holiday.
pub open spec fn day_is_holiday(att: Attendance, d: int) -> bool {
    att.holidays.contains(date_key(d))
}

/// Whether day `d` is a vacation day.
pub open spec fn day_is_vacation(att: Attendance, d: int) -> bool {
    att.vacations.contains(date_key(d))
}

/// Whether day `d` is badged in.
pub open spec fn day_is_badged(att: Attendance, d: int) -> bool {
    att.badged.contains(date_key(d))
}

/// Whether day `d` is badged in by a flex credit.
pub open spec fn day_is_flex(att: Attendance, d: int) -> bool {
    att.badged.contains(date_key(d)) && att.flex.contains(date_key(d))
}

/// Whether day `d` is eligible: a weekday that is neither a holiday nor a
/// vacation day.
pub open spec fn day_is_eligible(att: Attendance, d: int) -> bool {
    is_weekday(d) && !day_is_holiday(att, d) && !day_is_vacation(att, d)
}

/// Whether day `d` has passed as of day `today`: it comes before `today`,
/// or it is `today` and is badged in.
pub open spec fn day_has_passed(att: Attendance, today: int, d: int) -> bool {
    d < today || (d == today && day_is_badged(att, d))
}

/// The record of weekday `d`.
pub open spec fn day_record(att: Attendance, d: int) -> WorkdayView {
    WorkdayView {
        date: d,
        work_date: date_key(d),
        is_workday: !(day_is_holiday(att, d) || day_is_vacation(att, d)),
        is_badged_in: day_is_badged(att, d),
        is_flex_credit: day_is_flex(att, d),
        is_holiday: day_is_holiday(att, d),
        is_vacation: day_is_vacation(att, d),
    }
}

/// The counts of the engine.
pub enum Tally {
    /// Weekdays that are no holiday.
    Available,
    /// Eligible days.
    Eligible,
    /// Weekdays that are a holiday or a vacation day.
    Off,
    /// Weekdays that are a holiday.
    Holiday,
    /// Weekdays that are a vacation day.
    Vacation,
    /// Eligible days that are badged in.
    BadgedIn,
    /// Eligible days that are badged in by a flex credit.
    Flex,
    /// Eligible days that have passed.
    ThusFar,
    /// Eligible days that have not passed.
    Left,
}

/// Whether the count `t` counts day `d`.
pub open spec fn counts_day(t: Tally, att: Attendance, today: int, d: int) -> bool {
    is_weekday(d) && match t {
        Tally::Available => !day_is_holiday(att, d),
        Tally::Eligible => day_is_eligible(att, d),
        Tally::Off => day_is_holiday(att, d) || day_is_vacation(att, d),
        Tally::Holiday => day_is_holiday(att, d),
        Tally::Vacation => day_is_vacation(att, d),
        Tally::BadgedIn => day_is_eligible(att, d) && day_is_badged(att, d),
        Tally::Flex => day_is_eligible(att, d) && day_is_flex(att, d),
        Tally::ThusFar => day_is_eligible(att, d) && day_has_passed(att, today, d),
        Tally::Left => day_is_eligible(att, d) && !day_has_passed(att, today, d),
    }
}

/// The number of days between day `start` and day `end`, both included,
/// that the count `t` counts.
pub open spec fn tally(t: Tally, att: Attendance, today: int, start: int, end: int) -> int
    decreases end - start + 1,
{
    if end < start {
        0
    } else {
        tally(t, att, today, start, end - 1) + if counts_day(t, att, today, end) {
            1int
        } else {
            0int
        }
    }
}

/// All the counts of the days between day `start` and day `end`.
pub open spec fn tallies(att: Attendance, today: int, start: int, end: int) -> DayCountsView {
    DayCountsView {
        days_badged_in: tally(Tally::BadgedIn, att, today, start, end),
        flex_days: tally(Tally::Flex, att, today, start, end),
        days_thus_far: tally(Tally::ThusFar, att, today, start, end),
        days_left: tally(Tally::Left, att, today, start, end),
        available_workdays: tally(Tally::Available, att, today, start, end),
        total_days: tally(Tally::Eligible, att, today, start, end),
        days_off: tally(Tally::Off, att, today, start, end),
        holidays: tally(Tally::Holiday, att, today, start, end),
        vacation_days: tally(Tally::Vacation, att, today, start, end),
    }
}

/// The counts of a range fit together, and there are no more weekdays in
/// it than days.
pub proof fn lemma_tallies_fit(att: Attendance, today: int, start: int, end: int)
    requires
        end - start + 1 <= MAX_SPAN,
    ensures
        counts_fit(tallies(att, today, start, end)),
        start <= end ==> tally(Tally::Available, att, today, start, end) + tally(
            Tally::Holiday,
            att,
            today,
            start,
            end,
        ) <= end - start + 1,
        end < start ==> tally(Tally::Available, att, today, start, end) + tally(
            Tally::Holiday,
            att,
            today,
            start,
            end,
        ) == 0,
    decreases end - start + 1,
{
    if start <= end {
        lemma_tallies_fit(att, today, start, end - 1);
    }
}

/// What the three lookup tables say of the days.
pub open spec fn attendance_of_maps(
    badges: Map<Seq<char>, &BadgeEntry>,
    holidays: Set<Seq<char>>,
    vacations: Set<Seq<char>>,
) -> Attendance {
    Attendance {
        badged: Set::new(|k: Seq<char>| badges.contains_key(k) && badges[k].is_badged_in),
        flex: Set::new(|k: Seq<char>| badges.contains_key(k) && badges[k].is_flex_credit),
        holidays,
        vacations,
    }
}

/// Counts the weekdays from `start` to `end`, both included, as of `today`,
/// and files a record for each under its canonical text. A day's badge-in
/// is looked up in `badges`, and the day is a holiday or a vacation day if
/// its text is a key of `holidays` or of `vacations`.
pub fn tally_days(
    start: Date,
    end: Date,
    today: Date,
    badges: &StringHashMap<&BadgeEntry>,
    holidays: &StringHashMap<&Holiday>,
    vacations: &StringHashMap<Vacation>,
) -> (r: (DayCounts, StringHashMap<Workday>))
    ensures
        r.0@ == tallies(
            attendance_of_maps(badges@, holidays@.dom(), vacations@.dom()),
            today@,
            start@,
            end@,
        ),
        forall|key: Seq<char>| #[trigger] r.1@.contains_key(key) <==> is_workday_key(key, start@, end@),
        forall|d: int|
            start@ <= d <= end@ && is_weekday(d) ==> (#[trigger] r.1@[date_key(d)])@ == day_record(
                attendance_of_maps(badges@, holidays@.dom(), vacations@.dom()),
                d,
            ),
{
    let ghost att = attendance_of_maps(badges@, holidays@.dom(), vacations@.dom());
    let mut map = create_workday_map(start, end);
    let first: i32 = start.days();
    let last: i32 = end.days();
    let now: i32 = today.days();

    let mut days_badged_in: i32 = 0;
    let mut flex_days: i32 = 0;
    let mut days_thus_far: i32 = 0;
    let mut days_left: i32 = 0;
    let mut available_workdays: i32 = 0;
    let mut total_days: i32 = 0;
    let mut days_off: i32 = 0;
    let mut holiday_count: i32 = 0;
    let mut vacation_days: i32 = 0;

    if first <= last {
        let mut day: i32 = first;
        while day <= last
            invariant
                first == start@,
                last == end@,
                now == today@,
                att == attendance_of_maps(badges@, holidays@.dom(), vacations@.dom()),
                in_date_range(first as int),
                in_date_range(last as int),
                first <= day <= last + 1,
                days_badged_in == tally(Tally::BadgedIn, att, now as int, first as int, day - 1),
                flex_days == tally(Tally::Flex, att, now as int, first as int, day - 1),
                days_thus_far == tally(Tally::ThusFar, att, now as int, first as int, day - 1),
                days_left == tally(Tally::Left, att, now as int, first as int, day - 1),
                available_workdays == tally(
                    Tally::Available,
                    att,
                    now as int,
                    first as int,
                    day - 1,
                ),
                total_days == tally(Tally::Eligible, att, now as int, first as int, day - 1),
                days_off == tally(Tally::Off, att, now as int, first as int, day - 1),
                holiday_count == tally(Tally::Holiday, att, now as int, first as int, day - 1),
                vacation_days == tally(Tally::Vacation, att, now as int, first as int, day - 1),
                forall|key: Seq<char>| #[trigger]
                    map@.contains_key(key) <==> is_workday_key(key, first as int, last as int),
                forall|d: int|
                    first <= d < day && is_weekday(d) ==> (#[trigger] map@[date_key(d)])@
                        == day_record(att, d),
                forall|d: int|
                    day <= d <= last && is_weekday(d) ==> (#[trigger] map@[date_key(d)])@
                        == crate::calc::workday::blank_workday(d),
            decreases last - day + 1,
        {
            proof {
                lemma_tallies_fit(att, now as int, first as int, day - 1);
            }
            let current = Date::from_days(day).unwrap();
            if is_workday(current) {
                let key = current.key();
                let (is_badged_in, is_flex_credit) = match badges.get(key.as_str()) {
                    Some(entry) => (entry.is_badged_in, entry.is_badged_in && entry.is_flex_credit),
                    None => (false, false),
                };
                let is_vacation = vacations.contains_key(key.as_str());
                let is_holiday = holidays.contains_key(key.as_str());

                if !is_holiday {
                    available_workdays = available_workdays + 1;
                }
                if !is_holiday && !is_vacation {
                    total_days = total_days + 1;
                    if is_badged_in {
                        days_badged_in = days_badged_in + 1;
                        if is_flex_credit {
                            flex_days = flex_days + 1;
                        }
                    }
                    if day < now || (day == now && is_badged_in) {
                        days_thus_far = days_thus_far + 1;
                    } else {
                        days_left = days_left + 1;
                    }
                } else {
                    days_off = days_off + 1;
                    if is_holiday {
                        holiday_count = holiday_count + 1;
                    }
                    if is_vacation {
                        vacation_days = vacation_days + 1;
                    }
                }
                let record = Workday {
                    date: current,
                    work_date: key.clone(),
                    is_workday: !is_holiday && !is_vacation,
                    is_badged_in,
                    is_flex_credit,
                    is_holiday,
                    is_vacation,
                };
                assert(record@ == day_record(att, day as int));
                map.insert(key, record);
                assert forall|d: int| first <= d < day + 1 && is_weekday(d) implies (
                #[trigger] map@[date_key(d)])@ == day_record(att, d) by {
                    if d != day {
                        assert(date_key(d) != key@);
                    }
                }
                assert forall|d: int| day + 1 <= d <= last && is_weekday(d) implies (
                #[trigger] map@[date_key(d)])@ == crate::calc::workday::blank_workday(d) by {
                    assert(date_key(d) != key@);
                }
            }
            day = day + 1;
        }
    }
    proof {
        lemma_tallies_fit(att, now as int, first as int, last as int);
    }
    let counts = DayCounts::new(
        days_badged_in,
        flex_days,
        days_thus_far,
        days_left,
        available_workdays,
        total_days,
        days_off,
        holiday_count,
        vacation_days,
    ).unwrap();
    (counts, map)
}

} // verus!
