//! Helpers of the calendar screen.

use crate::data::event::{referents, Event};
use crate::date::{civil_to_days, days_to_civil, Date};
use crate::text::{is_subtext, lowercase_of, str_contains, str_to_lowercase};
use vstd::prelude::*;

verus! {

/// The English name of month `month` (1 to 12); "Unknown" for any other
/// number.
pub open spec fn month_label(month: int) -> Seq<char> {
    if month == 1 {
        "January"@
    } else if month == 2 {
        "February"@
    } else if month == 3 {
        "March"@
    } else if month == 4 {
        "April"@
    } else if month == 5 {
        "May"@
    } else if month == 6 {
        "June"@
    } else if month == 7 {
        "July"@
    } else if month == 8 {
        "August"@
    } else if month == 9 {
        "September"@
    } else if month == 10 {
        "October"@
    } else if month == 11 {
        "November"@
    } else if month == 12 {
        "December"@
    } else {
        "Unknown"@
    }
}

/// The English name of month `month` (1 to 12); "Unknown" for any other
/// number.
pub fn month_name(month: u32) -> (r: &'static str)
    ensures
        r@ == month_label(month as int),
{
    match month {
        1 => "January",
        2 => "February",
        3 => "March",
        4 => "April",
        5 => "May",
        6 => "June",
        7 => "July",
        8 => "August",
        9 => "September",
        10 => "October",
        11 => "November",
        12 => "December",
        _ => "Unknown",
    }
}

/// The year of the month after month `month` of year `year`.
pub open spec fn next_month_year(year: int, month: int) -> int {
    if month == 12 {
        year + 1
    } else {
        year
    }
}

/// The month after month `month`.
pub open spec fn next_month(month: int) -> int {
    if month == 12 {
        1
    } else {
        month + 1
    }
}

/// The first year that has dates.
pub const MIN_YEAR: i32 = -262_143;

/// The last year that has dates.
pub const MAX_YEAR: i32 = 262_142;

/// The number of days of month `month` (1 to 12) of year `year`: from its
/// first day to the first day of the month after it. There is none where
/// either of the two days is no date.
pub open spec fn month_length(year: int, month: int) -> Option<int> {
    if 1 <= month <= 12 && MIN_YEAR <= year <= MAX_YEAR {
        match (
            civil_to_days(year, month, 1),
            civil_to_days(next_month_year(year, month), next_month(month), 1),
        ) {
            (Some(first), Some(next)) => if first < next {
                Some(next - first)
            } else {
                None
            },
            _ => None,
        }
    } else {
        None
    }
}

/// The number of days of month `month` of year `year`, for a month that
/// has a length (see [`month_length`]).
pub fn days_in_month(year: i32, month: u32) -> (r: u32)
    requires
        month_length(year as int, month as int) is Some,
    ensures
        month_length(year as int, month as int) == Some(r as int),
{
    let next_month: u32 = if month == 12 {
        1
    } else {
        month + 1
    };
    let next_year: i32 = if month == 12 {
        year + 1
    } else {
        year
    };
    let first = Date::from_ymd(year, month, 1).unwrap();
    let next = Date::from_ymd(next_year, next_month, 1).unwrap();
    let span: i32 = next.days() - first.days();
    span as u32
}

/// The number of days of month `month` of year `year`, if the month has a
/// length (see [`month_length`]).
pub fn checked_days_in_month(year: i32, month: u32) -> (r: Option<u32>)
    ensures
        match month_length(year as int, month as int) {
            Some(n) => r matches Some(k) && k == n,
            None => r is None,
        },
{
    if month < 1 || month > 12 || year < MIN_YEAR || year > MAX_YEAR {
        return None;
    }
    let next_month: u32 = if month == 12 {
        1
    } else {
        month + 1
    };
    let next_year: i32 = if month == 12 {
        year + 1
    } else {
        year
    };
    match (Date::from_ymd(year, month, 1), Date::from_ymd(next_year, next_month, 1)) {
        (Some(first), Some(next)) => {
            if first.days() < next.days() {
                Some(days_in_month(year, month))
            } else {
                None
            }
        },
        _ => None,
    }
}

/// The month that lies `months` months after month `month` of year `year`
/// (before it, for a negative `months`), as year and month.
pub open spec fn shifted_month(year: int, month: int, months: int) -> (int, int) {
    (year + (month - 1 + months) / 12, (month - 1 + months) % 12 + 1)
}

/// The day number of the date `months` months after the date with day
/// number `days`: the same day of the month, or the last day of the month
/// where the month is shorter. Where that month has no length or that day
/// is no date, it is `days` itself.
pub open spec fn months_added(days: int, months: int) -> int {
    let (year, month, day) = days_to_civil(days);
    let (new_year, new_month) = shifted_month(year, month, months);
    match month_length(new_year, new_month) {
        Some(length) => {
            let new_day = if day <= length {
                day
            } else {
                length
            };
            match civil_to_days(new_year, new_month, new_day) {
                Some(n) => n,
                None => days,
            }
        },
        None => days,
    }
}

/// The date `months` months after `date` (before it, for a negative
/// `months`): the same day of the month, or the last day of the month where
/// the month is shorter. Where there is no such date, `date` itself.
pub fn add_months(date: Date, months: i32) -> (r: Date)
    ensures
        r@ == months_added(date@, months as int),
{
    let (year, month, day) = date.civil();
    let total: i64 = month as i64 - 1 + months as i64;
    let year_delta: i64 = if total >= 0 {
        total / 12
    } else {
        -((11 - total) / 12)
    };
    let month_index: i64 = total - year_delta * 12;
    assert(year_delta == total / 12 && month_index == total % 12);
    let new_year: i64 = year as i64 + year_delta;
    if new_year < MIN_YEAR as i64 || new_year > MAX_YEAR as i64 {
        return date;
    }
    let new_year: i32 = new_year as i32;
    let new_month: u32 = (month_index + 1) as u32;
    match checked_days_in_month(new_year, new_month) {
        Some(length) => {
            let new_day: u32 = if day <= length {
                day
            } else {
                length
            };
            match Date::from_ymd(new_year, new_month, new_day) {
                Some(moved) => moved,
                None => date,
            }
        },
        None => date,
    }
}

/// Whether `event` answers the search for `query`: its description holds
/// the query, both taken in lower case, or its date text holds the query
/// as it stands.
pub open spec fn event_matches(event: Event, query: Seq<char>) -> bool {
    is_subtext(lowercase_of(event.description@), lowercase_of(query)) || is_subtext(
        event.date@,
        query,
    )
}

/// The test that keeps the events that answer the search for `query`.
pub open spec fn is_match_for(query: Seq<char>) -> spec_fn(Event) -> bool {
    |event: Event| event_matches(event, query)
}

/// The events that answer the search for `query`, in their order.
pub fn search_events<'a>(events: &'a [Event], query: &str) -> (r: Vec<&'a Event>)
    ensures
        referents(r@) == events@.filter(is_match_for(query@)),
{
    let wanted = str_to_lowercase(query);
    let mut found: Vec<&'a Event> = Vec::new();
    let mut n: usize = 0;
    proof {
        assert(events@.take(0) == Seq::<Event>::empty());
        reveal(Seq::filter);
        assert(referents(found@) =~= Seq::<Event>::empty());
    }
    while n < events.len()
        invariant
            n <= events.len(),
            wanted@ == lowercase_of(query@),
            referents(found@) == events@.take(n as int).filter(is_match_for(query@)),
        decreases events.len() - n,
    {
        let event = &events[n];
        let ghost before = found@;
        proof {
            assert(events@.take(n + 1) == events@.take(n as int).push(*event));
            events@.take(n as int).lemma_filter_push(*event, is_match_for(query@));
        }
        let description = str_to_lowercase(event.description.as_str());
        if str_contains(description.as_str(), wanted.as_str()) || str_contains(
            event.date.as_str(),
            query,
        ) {
            found.push(event);
            assert(referents(before.push(event)) =~= referents(before).push(*event));
        }
        n = n + 1;
    }
    assert(events@.take(n as int) == events@);
    found
}

} // verus!
