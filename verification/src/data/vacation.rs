//! Vacations: date ranges taken out of the pool of eligible workdays.

use crate::date::{date_key, in_date_range, is_key_between, parsed_date, Date};
use vstd::hash_map::StringHashMap;
use vstd::prelude::*;

verus! {

/// A vacation from `start_date` to `end_date`, both included and both
/// written as `YYYY-MM-DD`. A vacation with a date that cannot be read
/// covers no day.
#[derive(Clone, Debug)]
pub struct Vacation {
    pub destination: String,
    pub start_date: String,
    pub end_date: String,
    pub approved: bool,
}

impl Vacation {
    /// The vacation to `destination` from the date written `start_date` to
    /// the date written `end_date`.
    pub fn new(destination: &str, start_date: &str, end_date: &str, approved: bool) -> (r:
        Vacation)
        ensures
            r.destination@ == destination@,
            r.start_date@ == start_date@,
            r.end_date@ == end_date@,
            r.approved == approved,
    {
        Vacation {
            destination: destination.to_owned(),
            start_date: start_date.to_owned(),
            end_date: end_date.to_owned(),
            approved,
        }
    }

    /// A copy of the vacation.
    pub fn duplicate(&self) -> (r: Vacation)
        ensures
            r == *self,
    {
        Vacation {
            destination: self.destination.clone(),
            start_date: self.start_date.clone(),
            end_date: self.end_date.clone(),
            approved: self.approved,
        }
    }
}

/// The list of vacations, in the order in which they were added.
#[derive(Debug)]
pub struct VacationData {
    pub vacations: Vec<Vacation>,
}

impl Default for VacationData {
    fn default() -> (r: VacationData)
        ensures
            r.vacations@ == Seq::<Vacation>::empty(),
    {
        VacationData { vacations: Vec::new() }
    }
}

/// Whether the vacation covers the day with number `day`: both its dates
/// can be read, and the day lies between them.
pub open spec fn vacation_covers_day(v: Vacation, day: int) -> bool {
    match (parsed_date(v.start_date@), parsed_date(v.end_date@)) {
        (Some(start), Some(end)) => start <= day <= end,
        _ => false,
    }
}

/// Whether the vacation covers a day written `key`.
pub open spec fn vacation_covers(v: Vacation, key: Seq<char>) -> bool {
    exists|d: int| vacation_covers_day(v, d) && #[trigger] date_key(d) == key
}

/// Whether some vacation of the list covers a day written `key`.
pub open spec fn is_vacation_key(vacations: Seq<Vacation>, key: Seq<char>) -> bool {
    exists|i: int| 0 <= i < vacations.len() && vacation_covers(#[trigger] vacations[i], key)
}

/// Whether `vacations[i]` is the last vacation of the list that covers a
/// day written `key`.
pub open spec fn is_last_vacation_on(vacations: Seq<Vacation>, key: Seq<char>, i: int) -> bool {
    &&& 0 <= i < vacations.len()
    &&& vacation_covers(vacations[i], key)
    &&& forall|j: int| i < j < vacations.len() ==> !vacation_covers(#[trigger] vacations[j], key)
}

impl VacationData {
    /// Appends a vacation.
    pub fn add(&mut self, vacation: Vacation)
        ensures
            final(self).vacations@ == old(self).vacations@.push(vacation),
    {
        self.vacations.push(vacation);
    }

    /// The vacations day by day: every day that a vacation covers, under
    /// its canonical text, with a copy of the vacation. Where several
    /// vacations cover a day, the one added last stands for it. A vacation
    /// with a date that cannot be read is passed over.
    pub fn get_vacation_map(&self) -> (map: StringHashMap<Vacation>)
        ensures
            forall|key: Seq<char>| #[trigger]
                map@.contains_key(key) <==> is_vacation_key(self.vacations@, key),
            forall|key: Seq<char>| #[trigger]
                map@.contains_key(key) ==> exists|i: int|
                    is_last_vacation_on(self.vacations@, key, i) && map@[key] == self.vacations@[i],
    {
        let mut map: StringHashMap<Vacation> = StringHashMap::new();
        let mut n: usize = 0;
        while n < self.vacations.len()
            invariant
                n <= self.vacations.len(),
                forall|key: Seq<char>| #[trigger]
                    map@.contains_key(key) <==> is_vacation_key(
                        self.vacations@.take(n as int),
                        key,
                    ),
                forall|key: Seq<char>| #[trigger]
                    map@.contains_key(key) ==> exists|i: int|
                        is_last_vacation_on(self.vacations@.take(n as int), key, i) && map@[key]
                            == self.vacations@[i],
            decreases self.vacations.len() - n,
        {
            let vacation = &self.vacations[n];
            let ghost seen = self.vacations@.take(n as int);
            let ghost next = self.vacations@.take(n + 1);
            let ghost before = map@;
            assert(next == seen.push(*vacation));
            let span: Option<(i32, i32)> = match Date::parse(vacation.start_date.as_str()) {
                Ok(start) => match Date::parse(vacation.end_date.as_str()) {
                    Ok(end) => Some((start.days(), end.days())),
                    Err(_) => None,
                },
                Err(_) => None,
            };
            assert(match span {
                Some((first, last)) => parsed_date(vacation.start_date@) == Some(first as int)
                    && parsed_date(vacation.end_date@) == Some(last as int) && in_date_range(
                    first as int,
                ) && in_date_range(last as int),
                None => parsed_date(vacation.start_date@) is None || parsed_date(
                    vacation.end_date@,
                ) is None,
            });
            match span {
                Some((first, last)) if first <= last => {
                    let mut day: i32 = first;
                    while day <= last
                        invariant
                            in_date_range(first as int),
                            in_date_range(last as int),
                            first <= day <= last + 1,
                            forall|key: Seq<char>| #[trigger]
                                map@.contains_key(key) <==> (before.contains_key(key)
                                    || is_key_between(key, first as int, day - 1)),
                            forall|key: Seq<char>| #[trigger]
                                map@.contains_key(key) ==> map@[key] == (if is_key_between(
                                    key,
                                    first as int,
                                    day - 1,
                                ) {
                                    *vacation
                                } else {
                                    before[key]
                                }),
                        decreases last - day + 1,
                    {
                        let key = Date::from_days(day).unwrap().key();
                        map.insert(key, vacation.duplicate());
                        proof {
                            assert forall|k: Seq<char>| #[trigger]
                                is_key_between(k, first as int, day as int) <==> (k == key@
                                    || is_key_between(k, first as int, day - 1)) by {
                                if is_key_between(k, first as int, day as int) {
                                    let d = choose|d: int|
                                        first <= d <= day && #[trigger] date_key(d) == k;
                                    if d != day {
                                        assert(first <= d <= day - 1 && date_key(d) == k);
                                    }
                                }
                                if k == key@ {
                                    assert(first <= day <= day && date_key(day as int) == k);
                                }
                                if is_key_between(k, first as int, day - 1) {
                                    let d = choose|d: int|
                                        first <= d <= day - 1 && #[trigger] date_key(d) == k;
                                    assert(first <= d <= day && date_key(d) == k);
                                }
                            }
                        }
                        day = day + 1;
                    }
                    proof {
                        assert(day - 1 == last);
                        assert forall|k: Seq<char>| #[trigger]
                            is_key_between(k, first as int, last as int) <==> vacation_covers(
                                *vacation,
                                k,
                            ) by {
                            if is_key_between(k, first as int, last as int) {
                                let d = choose|d: int|
                                    first <= d <= last && #[trigger] date_key(d) == k;
                                assert(vacation_covers_day(*vacation, d) && date_key(d) == k);
                            }
                            if vacation_covers(*vacation, k) {
                                let d = choose|d: int|
                                    vacation_covers_day(*vacation, d) && #[trigger] date_key(d)
                                        == k;
                                assert(first <= d <= last && date_key(d) == k);
                            }
                        }
                        assert forall|k: Seq<char>|
                            map@.contains_key(k) <==> (before.contains_key(k) || vacation_covers(
                                *vacation,
                                k,
                            )) by {
                            assert(is_key_between(k, first as int, day - 1) <==> vacation_covers(
                                *vacation,
                                k,
                            ));
                        }
                        assert forall|k: Seq<char>| #[trigger]
                            map@.contains_key(k) implies map@[k] == (if vacation_covers(
                            *vacation,
                            k,
                        ) {
                            *vacation
                        } else {
                            before[k]
                        }) by {
                            assert(is_key_between(k, first as int, day - 1) <==> vacation_covers(
                                *vacation,
                                k,
                            ));
                        }
                    }
                },
                _ => {
                    assert forall|k: Seq<char>| !vacation_covers(*vacation, k) by {
                        if vacation_covers(*vacation, k) {
                            let d = choose|d: int|
                                vacation_covers_day(*vacation, d) && #[trigger] date_key(d) == k;
                        }
                    }
                },
            }
            proof {
                assert(next[n as int] == *vacation);
                assert forall|k: Seq<char>|
                    map@.contains_key(k) <==> (before.contains_key(k) || vacation_covers(
                        *vacation,
                        k,
                    )) by {}
                assert forall|k: Seq<char>| #[trigger] map@.contains_key(k) implies map@[k] == (
                if vacation_covers(*vacation, k) {
                    *vacation
                } else {
                    before[k]
                }) by {}
                assert forall|k: Seq<char>| map@.contains_key(k) implies is_vacation_key(
                    next,
                    k,
                ) by {
                    if vacation_covers(*vacation, k) {
                        assert(vacation_covers(next[n as int], k));
                    } else {
                        let i = choose|i: int|
                            0 <= i < seen.len() && vacation_covers(#[trigger] seen[i], k);
                        assert(vacation_covers(next[i], k));
                    }
                }
                assert forall|k: Seq<char>| is_vacation_key(next, k) implies map@.contains_key(
                    k,
                ) by {
                    let i = choose|i: int|
                        0 <= i < next.len() && vacation_covers(#[trigger] next[i], k);
                    if i < n {
                        assert(vacation_covers(seen[i], k));
                    } else {
                        assert(next[i] == *vacation);
                    }
                }
                assert forall|k: Seq<char>| #[trigger] map@.contains_key(k) implies exists|i: int|
                    is_last_vacation_on(next, k, i) && map@[k] == self.vacations@[i] by {
                    if vacation_covers(*vacation, k) {
                        assert(is_last_vacation_on(next, k, n as int));
                    } else {
                        assert(before.contains_key(k));
                        let i = choose|i: int|
                            is_last_vacation_on(seen, k, i) && before[k] == self.vacations@[i];
                        assert(is_last_vacation_on(next, k, i));
                    }
                }
            }
            n = n + 1;
        }
        assert(self.vacations@.take(n as int) == self.vacations@);
        map
    }
}

} // verus!
