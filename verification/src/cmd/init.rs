//! The records that a new data directory starts with.

use crate::data::badge_entry::{BadgeEntry, BadgeEntryData};
use crate::data::event::EventData;
use crate::data::holiday::{Holiday, HolidayData};
use crate::data::quarter::QuarterConfig;
use crate::data::vacation::{Vacation, VacationData};
use crate::date::{civil_to_days, date_key, Date};
use vstd::prelude::*;

verus! {

/// The number of holidays that a new data directory starts with.
pub const DEFAULT_HOLIDAYS: usize = 32;

/// The number of quarters that a new data directory starts with.
pub const DEFAULT_QUARTERS: usize = 8;

/// Name and date of the `i`-th holiday that a new data directory starts
/// with: sixteen of 2025, then sixteen of 2026.
pub open spec fn default_holiday(i: int) -> (Seq<char>, Seq<char>) {
    if i == 0 {
        ("New Year's Day"@, "2025-01-01"@)
    } else if i == 1 {
        ("Martin Luther King Jr. Day"@, "2025-01-20"@)
    } else if i == 2 {
        ("Presidents' Day"@, "2025-02-17"@)
    } else if i == 3 {
        ("Thank You Day #1"@, "2025-03-14"@)
    } else if i == 4 {
        ("Thank You Day #2"@, "2025-05-23"@)
    } else if i == 5 {
        ("Memorial Day"@, "2025-05-26"@)
    } else if i == 6 {
        ("Juneteenth"@, "2025-06-19"@)
    } else if i == 7 {
        ("Thank You Day #3"@, "2025-06-20"@)
    } else if i == 8 {
        ("Independence Day"@, "2025-07-04"@)
    } else if i == 9 {
        ("Thank You Day #4"@, "2025-08-29"@)
    } else if i == 10 {
        ("Labor Day"@, "2025-09-01"@)
    } else if i == 11 {
        ("Veterans Day"@, "2025-11-11"@)
    } else if i == 12 {
        ("Thanksgiving Day"@, "2025-11-27"@)
    } else if i == 13 {
        ("Thanksgiving Day After"@, "2025-11-28"@)
    } else if i == 14 {
        ("Christmas Eve"@, "2025-12-24"@)
    } else if i == 15 {
        ("Christmas Day"@, "2025-12-25"@)
    } else if i == 16 {
        ("New Year's Day"@, "2026-01-01"@)
    } else if i == 17 {
        ("Martin Luther King Jr. Day"@, "2026-01-19"@)
    } else if i == 18 {
        ("Presidents' Day"@, "2026-02-16"@)
    } else if i == 19 {
        ("Thank You Day #1"@, "2026-03-27"@)
    } else if i == 20 {
        ("Thank You Day #2"@, "2026-05-22"@)
    } else if i == 21 {
        ("Memorial Day"@, "2026-05-25"@)
    } else if i == 22 {
        ("Thank You Day #3"@, "2026-06-18"@)
    } else if i == 23 {
        ("Juneteenth"@, "2026-06-19"@)
    } else if i == 24 {
        ("Independence Day"@, "2026-07-03"@)
    } else if i == 25 {
        ("Thank You Day #4"@, "2026-09-04"@)
    } else if i == 26 {
        ("Labor Day"@, "2026-09-07"@)
    } else if i == 27 {
        ("Veterans Day"@, "2026-11-11"@)
    } else if i == 28 {
        ("Thanksgiving Day"@, "2026-11-26"@)
    } else if i == 29 {
        ("Thanksgiving Day After"@, "2026-11-27"@)
    } else if i == 30 {
        ("Christmas Eve"@, "2026-12-24"@)
    } else {
        ("Christmas Day"@, "2026-12-25"@)
    }
}

fn default_holiday_at(i: usize) -> (r: (&'static str, &'static str))
    requires
        i < DEFAULT_HOLIDAYS,
    ensures
        (r.0@, r.1@) == default_holiday(i as int),
{
    match i {
        0 => ("New Year's Day", "2025-01-01"),
        1 => ("Martin Luther King Jr. Day", "2025-01-20"),
        2 => ("Presidents' Day", "2025-02-17"),
        3 => ("Thank You Day #1", "2025-03-14"),
        4 => ("Thank You Day #2", "2025-05-23"),
        5 => ("Memorial Day", "2025-05-26"),
        6 => ("Juneteenth", "2025-06-19"),
        7 => ("Thank You Day #3", "2025-06-20"),
        8 => ("Independence Day", "2025-07-04"),
        9 => ("Thank You Day #4", "2025-08-29"),
        10 => ("Labor Day", "2025-09-01"),
        11 => ("Veterans Day", "2025-11-11"),
        12 => ("Thanksgiving Day", "2025-11-27"),
        13 => ("Thanksgiving Day After", "2025-11-28"),
        14 => ("Christmas Eve", "2025-12-24"),
        15 => ("Christmas Day", "2025-12-25"),
        16 => ("New Year's Day", "2026-01-01"),
        17 => ("Martin Luther King Jr. Day", "2026-01-19"),
        18 => ("Presidents' Day", "2026-02-16"),
        19 => ("Thank You Day #1", "2026-03-27"),
        20 => ("Thank You Day #2", "2026-05-22"),
        21 => ("Memorial Day", "2026-05-25"),
        22 => ("Thank You Day #3", "2026-06-18"),
        23 => ("Juneteenth", "2026-06-19"),
        24 => ("Independence Day", "2026-07-03"),
        25 => ("Thank You Day #4", "2026-09-04"),
        26 => ("Labor Day", "2026-09-07"),
        27 => ("Veterans Day", "2026-11-11"),
        28 => ("Thanksgiving Day", "2026-11-26"),
        29 => ("Thanksgiving Day After", "2026-11-27"),
        30 => ("Christmas Eve", "2026-12-24"),
        _ => ("Christmas Day", "2026-12-25"),
    }
}

/// Appends the holidays that a new data directory starts with.
pub fn init_holidays(data: &mut HolidayData)
    ensures
        final(data).holidays@.len() == old(data).holidays@.len() + DEFAULT_HOLIDAYS,
        final(data).holidays@.take(old(data).holidays@.len() as int) == old(data).holidays@,
        forall|i: int|
            0 <= i < DEFAULT_HOLIDAYS ==> ({
                let holiday = #[trigger] final(data).holidays@[old(data).holidays@.len() + i];
                (holiday.name@, holiday.date@) == default_holiday(i)
            }),
{
    let ghost orig = data.holidays@;
    let mut n: usize = 0;
    assert(data.holidays@.take(orig.len() as int) =~= orig);
    while n < DEFAULT_HOLIDAYS
        invariant
            n <= DEFAULT_HOLIDAYS,
            orig == old(data).holidays@,
            data.holidays@.len() == orig.len() + n,
            data.holidays@.take(orig.len() as int) == orig,
            forall|i: int|
                0 <= i < n ==> ({
                    let holiday = #[trigger] data.holidays@[orig.len() + i];
                    (holiday.name@, holiday.date@) == default_holiday(i)
                }),
        decreases DEFAULT_HOLIDAYS - n,
    {
        let (name, date) = default_holiday_at(n);
        let ghost before = data.holidays@;
        data.add(Holiday::new(name, date));
        assert(data.holidays@.take(orig.len() as int) =~= before.take(orig.len() as int));
        assert forall|i: int| 0 <= i < n + 1 implies ({
            let holiday = #[trigger] data.holidays@[orig.len() + i];
            (holiday.name@, holiday.date@) == default_holiday(i)
        }) by {
            if i < n {
                assert(data.holidays@[orig.len() + i] == before[orig.len() + i]);
            }
        }
        n = n + 1;
    }
}

/// Key, label, year, start and end of the `i`-th quarter that a new data
/// directory starts with: the four quarters of 2025, then those of 2026,
/// each of three months, the first from February.
pub open spec fn default_quarter(i: int) -> (Seq<char>, Seq<char>, Seq<char>, Seq<char>, Seq<char>) {
    if i == 0 {
        ("Q1_2025"@, "Q1"@, "2025"@, "2025-02-01"@, "2025-04-30"@)
    } else if i == 1 {
        ("Q2_2025"@, "Q2"@, "2025"@, "2025-05-01"@, "2025-07-31"@)
    } else if i == 2 {
        ("Q3_2025"@, "Q3"@, "2025"@, "2025-08-01"@, "2025-10-31"@)
    } else if i == 3 {
        ("Q4_2025"@, "Q4"@, "2025"@, "2025-11-01"@, "2026-01-31"@)
    } else if i == 4 {
        ("Q1_2026"@, "Q1"@, "2026"@, "2026-02-01"@, "2026-04-30"@)
    } else if i == 5 {
        ("Q2_2026"@, "Q2"@, "2026"@, "2026-05-01"@, "2026-07-31"@)
    } else if i == 6 {
        ("Q3_2026"@, "Q3"@, "2026"@, "2026-08-01"@, "2026-10-31"@)
    } else {
        ("Q4_2026"@, "Q4"@, "2026"@, "2026-11-01"@, "2027-01-31"@)
    }
}

/// A quarter whose dates are not read yet.
fn q(key: &str, quarter: &str, year: &str, start: &str, end: &str) -> (r: QuarterConfig)
    ensures
        r.key@ == key@,
        r.quarter@ == quarter@,
        r.year@ == year@,
        r.start_date_raw@ == start@,
        r.end_date_raw@ == end@,
        r.start_date is None,
        r.end_date is None,
{
    QuarterConfig {
        key: key.to_owned(),
        quarter: quarter.to_owned(),
        year: year.to_owned(),
        start_date_raw: start.to_owned(),
        end_date_raw: end.to_owned(),
        start_date: None,
        end_date: None,
    }
}

/// The quarters that a new data directory starts with, their dates not
/// read yet.
pub fn default_quarters() -> (r: Vec<QuarterConfig>)
    ensures
        r@.len() == DEFAULT_QUARTERS,
        forall|i: int|
            0 <= i < DEFAULT_QUARTERS ==> ({
                let quarter = #[trigger] r@[i];
                &&& (
                    quarter.key@,
                    quarter.quarter@,
                    quarter.year@,
                    quarter.start_date_raw@,
                    quarter.end_date_raw@,
                ) == default_quarter(i)
                &&& quarter.start_date is None
                &&& quarter.end_date is None
            }),
{
    let mut quarters: Vec<QuarterConfig> = Vec::new();
    quarters.push(q("Q1_2025", "Q1", "2025", "2025-02-01", "2025-04-30"));
    quarters.push(q("Q2_2025", "Q2", "2025", "2025-05-01", "2025-07-31"));
    quarters.push(q("Q3_2025", "Q3", "2025", "2025-08-01", "2025-10-31"));
    quarters.push(q("Q4_2025", "Q4", "2025", "2025-11-01", "2026-01-31"));
    quarters.push(q("Q1_2026", "Q1", "2026", "2026-02-01", "2026-04-30"));
    quarters.push(q("Q2_2026", "Q2", "2026", "2026-05-01", "2026-07-31"));
    quarters.push(q("Q3_2026", "Q3", "2026", "2026-08-01", "2026-10-31"));
    quarters.push(q("Q4_2026", "Q4", "2026", "2026-11-01", "2027-01-31"));
    quarters
}

/// The holidays that a new data directory starts with.
pub fn default_holidays() -> (r: HolidayData)
    ensures
        r.holidays@.len() == DEFAULT_HOLIDAYS,
        forall|i: int|
            0 <= i < DEFAULT_HOLIDAYS ==> ({
                let holiday = #[trigger] r.holidays@[i];
                (holiday.name@, holiday.date@) == default_holiday(i)
            }),
{
    let mut data = HolidayData { holidays: Vec::new() };
    init_holidays(&mut data);
    assert forall|i: int| 0 <= i < DEFAULT_HOLIDAYS implies ({
        let holiday = #[trigger] data.holidays@[i];
        (holiday.name@, holiday.date@) == default_holiday(i)
    }) by {
        assert(data.holidays@[i] == data.holidays@[0 + i]);
    }
    data
}

/// The badge-ins that a new data directory starts with: one, on
/// February 13 of 2025 at "McLean, VA".
pub fn default_badge_data() -> (r: BadgeEntryData)
    ensures
        match civil_to_days(2025, 2, 13) {
            Some(day) => {
                &&& r.data@.len() == 1
                &&& r.data@[0].key@ == date_key(day)
                &&& r.data@[0].date_time.date()@ == day
                &&& r.data@[0].office@ == "McLean, VA"@
                &&& r.data@[0].is_badged_in
                &&& !r.data@[0].is_flex_credit
            },
            None => r.data@.len() == 0,
        },
{
    let mut data = BadgeEntryData { data: Vec::new() };
    match Date::from_ymd(2025, 2, 13) {
        Some(day) => {
            data.add(BadgeEntry::new(day, "McLean, VA", false));
        },
        None => {},
    }
    data
}

/// The vacations that a new data directory starts with: one, to Hawaii,
/// from May 10 to May 17 of 2025, approved.
pub fn default_vacations() -> (r: VacationData)
    ensures
        r.vacations@.len() == 1,
        r.vacations@[0].destination@ == "Hawaii"@,
        r.vacations@[0].start_date@ == "2025-05-10"@,
        r.vacations@[0].end_date@ == "2025-05-17"@,
        r.vacations@[0].approved,
{
    let mut data = VacationData { vacations: Vec::new() };
    data.add(Vacation::new("Hawaii", "2025-05-10", "2025-05-17", true));
    data
}

/// The events that a new data directory starts with: none.
pub fn default_events() -> (r: EventData)
    ensures
        r.events@.len() == 0,
{
    EventData { events: Vec::new() }
}

} // verus!
