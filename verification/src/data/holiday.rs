//! Holidays: single dates taken out of the pool of eligible workdays.

use vstd::hash_map::StringHashMap;
use vstd::prelude::*;

verus! {

/// A named holiday on one date. `date` is the date's canonical
/// `YYYY-MM-DD` text; a holiday whose text is written otherwise matches no
/// day.
#[derive(Clone, Debug)]
pub struct Holiday {
    pub name: String,
    pub date: String,
}

impl Holiday {
    /// The holiday with the given name on the date written `date`.
    pub fn new(name: &str, date: &str) -> (r: Holiday)
        ensures
            r.name@ == name@,
            r.date@ == date@,
    {
        Holiday { name: name.to_owned(), date: date.to_owned() }
    }

    /// A copy of the holiday.
    pub fn duplicate(&self) -> (r: Holiday)
        ensures
            r == *self,
    {
        Holiday { name: self.name.clone(), date: self.date.clone() }
    }
}

/// The list of holidays, in the order in which they were added.
#[derive(Debug)]
pub struct HolidayData {
    pub holidays: Vec<Holiday>,
}

impl Default for HolidayData {
    fn default() -> (r: HolidayData)
        ensures
            r.holidays@ == Seq::<Holiday>::empty(),
    {
        HolidayData { holidays: Vec::new() }
    }
}

/// Whether some holiday of the list falls on the date written `key`.
pub open spec fn is_holiday_key(holidays: Seq<Holiday>, key: Seq<char>) -> bool {
    exists|i: int| 0 <= i < holidays.len() && (#[trigger] holidays[i]).date@ == key
}

/// Whether `holidays[i]` is the last holiday of the list on the date
/// written `key`.
pub open spec fn is_last_holiday_on(holidays: Seq<Holiday>, key: Seq<char>, i: int) -> bool {
    &&& 0 <= i < holidays.len()
    &&& holidays[i].date@ == key
    &&& forall|j: int| i < j < holidays.len() ==> (#[trigger] holidays[j]).date@ != key
}

impl HolidayData {
    /// Appends a holiday.
    pub fn add(&mut self, holiday: Holiday)
        ensures
            final(self).holidays@ == old(self).holidays@.push(holiday),
    {
        self.holidays.push(holiday);
    }

    /// The holidays by date text. Where several holidays share a date, the
    /// one added last stands for it.
    pub fn get_holiday_map(&self) -> (map: StringHashMap<&Holiday>)
        ensures
            forall|key: Seq<char>| #[trigger]
                map@.contains_key(key) <==> is_holiday_key(self.holidays@, key),
            forall|key: Seq<char>| #[trigger]
                map@.contains_key(key) ==> exists|i: int|
                    is_last_holiday_on(self.holidays@, key, i) && *map@[key] == self.holidays@[i],
    {
        let mut map: StringHashMap<&Holiday> = StringHashMap::new();
        let mut n: usize = 0;
        while n < self.holidays.len()
            invariant
                n <= self.holidays.len(),
                forall|key: Seq<char>| #[trigger]
                    map@.contains_key(key) <==> is_holiday_key(self.holidays@.take(n as int), key),
                forall|key: Seq<char>| #[trigger]
                    map@.contains_key(key) ==> exists|i: int|
                        is_last_holiday_on(self.holidays@.take(n as int), key, i) && *map@[key]
                            == self.holidays@[i],
            decreases self.holidays.len() - n,
        {
            let holiday = &self.holidays[n];
            let ghost before = map@;
            let ghost seen = self.holidays@.take(n as int);
            let ghost next = self.holidays@.take(n + 1);
            map.insert(holiday.date.clone(), holiday);
            proof {
                assert(next == seen.push(*holiday));
                assert forall|key: Seq<char>| map@.contains_key(key) implies is_holiday_key(
                    next,
                    key,
                ) by {
                    if key == holiday.date@ {
                        assert(next[n as int].date@ == key);
                    } else {
                        let i = choose|i: int|
                            0 <= i < seen.len() && (#[trigger] seen[i]).date@ == key;
                        assert(next[i].date@ == key);
                    }
                }
                assert forall|key: Seq<char>| is_holiday_key(next, key) implies map@.contains_key(
                    key,
                ) by {
                    let i = choose|i: int| 0 <= i < next.len() && (#[trigger] next[i]).date@ == key;
                    if i < n {
                        assert(seen[i].date@ == key);
                    }
                }
                assert forall|key: Seq<char>| #[trigger] map@.contains_key(key) implies exists|
                    i: int,
                |
                    is_last_holiday_on(next, key, i) && *map@[key] == self.holidays@[i] by {
                    if key == holiday.date@ {
                        assert(is_last_holiday_on(next, key, n as int));
                    } else {
                        assert(before.contains_key(key));
                        let i = choose|i: int|
                            is_last_holiday_on(seen, key, i) && *before[key] == self.holidays@[i];
                        assert(is_last_holiday_on(next, key, i));
                    }
                }
            }
            n = n + 1;
        }
        assert(self.holidays@.take(n as int) == self.holidays@);
        map
    }
}

} // verus!
