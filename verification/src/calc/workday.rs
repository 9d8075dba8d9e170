//! The workday calendar: one record for every Monday-to-Friday date of a
//! range, keyed by the date's canonical text.

use crate::date::{date_key, in_date_range, is_weekday, Date};
use vstd::hash_map::StringHashMap;
use vstd::prelude::*;

verus! {

/// What is known of one weekday of a quarter.
#[derive(Clone, Debug)]
pub struct Workday {
    pub date: Date,
    /// The canonical text of `date`, under which the record is filed.
    pub work_date: String,
    /// Neither a holiday nor a vacation day.
    pub is_workday: bool,
    pub is_badged_in: bool,
    pub is_flex_credit: bool,
    pub is_holiday: bool,
    pub is_vacation: bool,
}

/// A [`Workday`] as plain values: the date as its day number, the text as
/// its characters.
pub struct WorkdayView {
    pub date: int,
    pub work_date: Seq<char>,
    pub is_workday: bool,
    pub is_badged_in: bool,
    pub is_flex_credit: bool,
    pub is_holiday: bool,
    pub is_vacation: bool,
}

impl View for Workday {
    type V = WorkdayView;

    open spec fn view(&self) -> WorkdayView {
        WorkdayView {
            date: self.date@,
            work_date: self.work_date@,
            is_workday: self.is_workday,
            is_badged_in: self.is_badged_in,
            is_flex_credit: self.is_flex_credit,
            is_holiday: self.is_holiday,
            is_vacation: self.is_vacation,
        }
    }
}

impl Workday {
    /// A copy of the record.
    pub fn duplicate(&self) -> (r: Workday)
        ensures
            r@ == self@,
    {
        Workday {
            date: self.date,
            work_date: self.work_date.clone(),
            is_workday: self.is_workday,
            is_badged_in: self.is_badged_in,
            is_flex_credit: self.is_flex_credit,
            is_holiday: self.is_holiday,
            is_vacation: self.is_vacation,
        }
    }
}

/// The record of day `days` before anything is known of it: every flag
/// false.
pub open spec fn blank_workday(days: int) -> WorkdayView {
    WorkdayView {
        date: days,
        work_date: date_key(days),
        is_workday: false,
        is_badged_in: false,
        is_flex_credit: false,
        is_holiday: false,
        is_vacation: false,
    }
}

/// Whether `key` is the canonical text of a Monday-to-Friday date between
/// day `start` and day `end`, both included.
pub open spec fn is_workday_key(key: Seq<char>, start: int, end: int) -> bool {
    exists|d: int| start <= d <= end && is_weekday(d) && #[trigger] date_key(d) == key
}

/// The number of Monday-to-Friday dates between day `start` and day `end`,
/// both included.
pub open spec fn weekdays_between(start: int, end: int) -> nat
    decreases end - start + 1,
{
    if end < start {
        0
    } else {
        weekdays_between(start, end - 1) + if is_weekday(end) {
            1nat
        } else {
            0nat
        }
    }
}

/// Whether `date` is a Monday, Tuesday, Wednesday, Thursday or Friday.
pub fn is_workday(date: Date) -> (r: bool)
    ensures
        r == is_weekday(date@),
{
    date.weekday() < 5
}

/// The blank calendar of the range from `start` to `end`, both included:
/// one record, every flag false, for each Monday-to-Friday date, filed
/// under the date's canonical text. Saturdays and Sundays have no record.
/// With `end` before `start` the calendar is empty.
pub fn create_workday_map(start: Date, end: Date) -> (map: StringHashMap<Workday>)
    ensures
        forall|key: Seq<char>| #[trigger] map@.contains_key(key) <==> is_workday_key(key, start@, end@),
        forall|d: int|
            start@ <= d <= end@ && is_weekday(d) ==> (#[trigger] map@[date_key(d)])@
                == blank_workday(d),
        map@.dom().finite(),
        map@.len() == weekdays_between(start@, end@),
{
    let mut map: StringHashMap<Workday> = StringHashMap::new();
    let first: i32 = start.days();
    let last: i32 = end.days();
    if last < first {
        assert forall|key: Seq<char>| !is_workday_key(key, first as int, last as int) by {}
        return map;
    }
    let mut day: i32 = first;
    while day <= last
        invariant
            first == start@,
            last == end@,
            in_date_range(first as int),
            in_date_range(last as int),
            first <= day <= last + 1,
            forall|key: Seq<char>| #[trigger]
                map@.contains_key(key) <==> is_workday_key(key, first as int, day - 1),
            forall|d: int|
                first <= d < day && is_weekday(d) ==> (#[trigger] map@[date_key(d)])@
                    == blank_workday(d),
            map@.dom().finite(),
            map@.len() == weekdays_between(first as int, day - 1),
        decreases last - day + 1,
    {
        let current = Date::from_days(day).unwrap();
        if is_workday(current) {
            let key = current.key();
            let ghost before = map@;
            let record = Workday {
                date: current,
                work_date: key.clone(),
                is_workday: false,
                is_badged_in: false,
                is_flex_credit: false,
                is_holiday: false,
                is_vacation: false,
            };
            proof {
                if before.contains_key(key@) {
                    let d = choose|d: int|
                        first <= d <= day - 1 && is_weekday(d) && #[trigger] date_key(d) == key@;
                    assert(false);
                }
            }
            map.insert(key, record);
            proof {
                assert forall|k: Seq<char>| map@.contains_key(k) implies is_workday_key(
                    k,
                    first as int,
                    day as int,
                ) by {
                    if k == key@ {
                        assert(date_key(day as int) == k);
                    } else {
                        let d = choose|d: int|
                            first <= d <= day - 1 && is_weekday(d) && #[trigger] date_key(d) == k;
                        assert(date_key(d) == k);
                    }
                }
                assert forall|k: Seq<char>|
                    is_workday_key(k, first as int, day as int) implies map@.contains_key(k) by {
                    let d = choose|d: int|
                        first <= d <= day && is_weekday(d) && #[trigger] date_key(d) == k;
                    if d != day {
                        assert(is_workday_key(k, first as int, day - 1));
                    }
                }
            }
        } else {
            proof {
                assert forall|k: Seq<char>|
                    is_workday_key(k, first as int, day as int) implies map@.contains_key(k) by {
                    let d = choose|d: int|
                        first <= d <= day && is_weekday(d) && #[trigger] date_key(d) == k;
                    assert(d != day);
                    assert(is_workday_key(k, first as int, day - 1));
                }
                assert forall|k: Seq<char>| map@.contains_key(k) implies is_workday_key(
                    k,
                    first as int,
                    day as int,
                ) by {
                    let d = choose|d: int|
                        first <= d <= day - 1 && is_weekday(d) && #[trigger] date_key(d) == k;
                    assert(date_key(d) == k);
                }
            }
        }
        day = day + 1;
    }
    map
}

} // verus!
