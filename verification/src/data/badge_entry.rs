//! Badge-ins: the days on which the office was attended, in person or by a
//! flex credit.

use crate::date::{Date, DateTime};
use vstd::hash_map::StringHashMap;
use vstd::prelude::*;

verus! {

/// One attendance record. `key` is the canonical text of the day it counts
/// for; `date_time` says when it was made, and its date decides whether the
/// record falls into a range.
#[derive(Clone, Debug)]
pub struct BadgeEntry {
    pub key: String,
    pub date_time: DateTime,
    pub office: String,
    pub is_badged_in: bool,
    /// An excused absence that counts as attendance.
    pub is_flex_credit: bool,
}

impl BadgeEntry {
    /// A badge-in on `date`, at midnight, filed under the date's canonical
    /// text.
    pub fn new(date: Date, office: &str, is_flex_credit: bool) -> (r: BadgeEntry)
        ensures
            r.key@ == crate::date::date_key(date@),
            r.date_time.date() == date,
            r.date_time.seconds_of_day() == 0,
            r.date_time.nanosecond() == 0,
            r.office@ == office@,
            r.is_badged_in,
            r.is_flex_credit == is_flex_credit,
    {
        BadgeEntry {
            key: date.key(),
            date_time: date.at_midnight(),
            office: office.to_owned(),
            is_badged_in: true,
            is_flex_credit,
        }
    }

    /// A copy of the record.
    pub fn duplicate(&self) -> (r: BadgeEntry)
        ensures
            r == *self,
    {
        BadgeEntry {
            key: self.key.clone(),
            date_time: self.date_time,
            office: self.office.clone(),
            is_badged_in: self.is_badged_in,
            is_flex_credit: self.is_flex_credit,
        }
    }
}

/// The attendance records, in the order in which they were added.
#[derive(Clone, Debug)]
pub struct BadgeEntryData {
    pub data: Vec<BadgeEntry>,
}

impl Default for BadgeEntryData {
    fn default() -> (r: BadgeEntryData)
        ensures
            r.data@ == Seq::<BadgeEntry>::empty(),
    {
        BadgeEntryData { data: Vec::new() }
    }
}

/// Whether the record was made on a day between day `start` and day `end`,
/// both included.
pub open spec fn is_badge_in_range(entry: BadgeEntry, start: int, end: int) -> bool {
    start <= entry.date_time.date()@ <= end
}

/// Whether some record of the list, made between day `start` and day `end`,
/// is filed under `key`.
pub open spec fn is_badge_key(data: Seq<BadgeEntry>, start: int, end: int, key: Seq<char>) -> bool {
    exists|i: int|
        0 <= i < data.len() && is_badge_in_range(#[trigger] data[i], start, end) && data[i].key@
            == key
}

/// Whether `data[i]` is the last record of the list, made between day
/// `start` and day `end`, that is filed under `key`.
pub open spec fn is_last_badge_on(
    data: Seq<BadgeEntry>,
    start: int,
    end: int,
    key: Seq<char>,
    i: int,
) -> bool {
    &&& 0 <= i < data.len()
    &&& is_badge_in_range(data[i], start, end)
    &&& data[i].key@ == key
    &&& forall|j: int|
        i < j < data.len() && is_badge_in_range(#[trigger] data[j], start, end) ==> data[j].key@
            != key
}

/// Whether some record of the list is filed under `key`.
pub open spec fn is_filed(data: Seq<BadgeEntry>, key: Seq<char>) -> bool {
    exists|i: int| 0 <= i < data.len() && (#[trigger] data[i]).key@ == key
}

/// The test that keeps every record but those filed under `key`.
pub open spec fn not_filed_under(key: Seq<char>) -> spec_fn(BadgeEntry) -> bool {
    |entry: BadgeEntry| entry.key@ != key
}

impl BadgeEntryData {
    /// A copy of the records.
    pub fn duplicate(&self) -> (r: BadgeEntryData)
        ensures
            r.data@ == self.data@,
    {
        let mut data: Vec<BadgeEntry> = Vec::new();
        let mut n: usize = 0;
        while n < self.data.len()
            invariant
                n <= self.data.len(),
                data@ == self.data@.take(n as int),
            decreases self.data.len() - n,
        {
            data.push(self.data[n].duplicate());
            assert(self.data@.take(n + 1) == self.data@.take(n as int).push(self.data@[n as int]));
            n = n + 1;
        }
        assert(self.data@.take(n as int) == self.data@);
        BadgeEntryData { data }
    }

    /// Whether a record is filed under `key`.
    pub fn has(&self, key: &str) -> (r: bool)
        ensures
            r == is_filed(self.data@, key@),
    {
        let wanted: String = key.to_owned();
        let mut n: usize = 0;
        while n < self.data.len()
            invariant
                n <= self.data.len(),
                wanted@ == key@,
                forall|i: int| 0 <= i < n ==> (#[trigger] self.data@[i]).key@ != key@,
            decreases self.data.len() - n,
        {
            if self.data[n].key == wanted {
                return true;
            }
            n = n + 1;
        }
        false
    }

    /// Appends a record.
    pub fn add(&mut self, entry: BadgeEntry)
        ensures
            final(self).data@ == old(self).data@.push(entry),
    {
        self.data.push(entry);
    }

    /// Takes out every record filed under `key`; the others keep their
    /// order.
    pub fn remove(&mut self, key: &str)
        ensures
            final(self).data@ == old(self).data@.filter(not_filed_under(key@)),
    {
        let wanted: String = key.to_owned();
        let ghost orig = self.data@;
        let ghost keep = not_filed_under(key@);
        let ghost mut done: int = 0;
        let mut n: usize = 0;
        proof {
            assert(orig.take(0) == Seq::<BadgeEntry>::empty());
            reveal(Seq::filter);
            assert(orig.skip(0) == orig);
        }
        while n < self.data.len()
            invariant
                wanted@ == key@,
                keep == not_filed_under(key@),
                0 <= done <= orig.len(),
                n <= self.data.len(),
                n == orig.take(done).filter(keep).len(),
                self.data@ == orig.take(done).filter(keep) + orig.skip(done),
            decreases orig.len() - done,
        {
            proof {
                assert(self.data@[n as int] == orig.skip(done)[0]);
                assert(orig.take(done + 1) == orig.take(done).push(orig[done]));
                orig.take(done).lemma_filter_push(orig[done], keep);
                assert(orig.skip(done).skip(1) == orig.skip(done + 1));
            }
            if self.data[n].key == wanted {
                self.data.remove(n);
                proof {
                    assert(self.data@ == orig.take(done + 1).filter(keep) + orig.skip(done + 1));
                    done = done + 1;
                }
            } else {
                proof {
                    assert(self.data@ == orig.take(done + 1).filter(keep) + orig.skip(done + 1));
                    done = done + 1;
                }
                n = n + 1;
            }
        }
        proof {
            assert(orig.skip(done).len() == 0);
            assert(orig.take(done) == orig);
            assert(self.data@ == orig.filter(keep));
        }
    }

    /// The records made between `start` and `end`, both included, by the
    /// text they are filed under. Where several such records share a text,
    /// the one added last stands for it.
    pub fn get_badge_map(&self, start: Date, end: Date) -> (map: StringHashMap<&BadgeEntry>)
        ensures
            forall|key: Seq<char>| #[trigger]
                map@.contains_key(key) <==> is_badge_key(self.data@, start@, end@, key),
            forall|key: Seq<char>| #[trigger]
                map@.contains_key(key) ==> exists|i: int|
                    is_last_badge_on(self.data@, start@, end@, key, i) && *map@[key]
                        == self.data@[i],
    {
        let mut map: StringHashMap<&BadgeEntry> = StringHashMap::new();
        let mut n: usize = 0;
        while n < self.data.len()
            invariant
                n <= self.data.len(),
                forall|key: Seq<char>| #[trigger]
                    map@.contains_key(key) <==> is_badge_key(
                        self.data@.take(n as int),
                        start@,
                        end@,
                        key,
                    ),
                forall|key: Seq<char>| #[trigger]
                    map@.contains_key(key) ==> exists|i: int|
                        is_last_badge_on(self.data@.take(n as int), start@, end@, key, i)
                            && *map@[key] == self.data@[i],
            decreases self.data.len() - n,
        {
            let entry = &self.data[n];
            let ghost before = map@;
            let ghost seen = self.data@.take(n as int);
            let ghost next = self.data@.take(n + 1);
            let ghost in_range = is_badge_in_range(*entry, start@, end@);
            if entry.date_time.date().is_within(start, end) {
                map.insert(entry.key.clone(), entry);
            }
            proof {
                assert(next == seen.push(*entry));
                assert forall|key: Seq<char>| #[trigger]
                    map@.contains_key(key) implies is_badge_key(next, start@, end@, key) by {
                    if in_range && key == entry.key@ {
                        assert(is_badge_in_range(next[n as int], start@, end@) && next[n as int].key@
                            == key);
                    } else {
                        let i = choose|i: int|
                            0 <= i < seen.len() && is_badge_in_range(
                                #[trigger] seen[i],
                                start@,
                                end@,
                            ) && seen[i].key@ == key;
                        assert(is_badge_in_range(next[i], start@, end@) && next[i].key@ == key);
                    }
                }
                assert forall|key: Seq<char>|
                    is_badge_key(next, start@, end@, key) implies #[trigger] map@.contains_key(
                    key,
                ) by {
                    let i = choose|i: int|
                        0 <= i < next.len() && is_badge_in_range(#[trigger] next[i], start@, end@)
                            && next[i].key@ == key;
                    if i < n {
                        assert(is_badge_in_range(seen[i], start@, end@) && seen[i].key@ == key);
                    }
                }
                assert forall|key: Seq<char>| #[trigger] map@.contains_key(key) implies exists|
                    i: int,
                |
                    is_last_badge_on(next, start@, end@, key, i) && *map@[key] == self.data@[i] by {
                    if in_range && key == entry.key@ {
                        assert(is_last_badge_on(next, start@, end@, key, n as int));
                    } else {
                        assert(before.contains_key(key));
                        let i = choose|i: int|
                            is_last_badge_on(seen, start@, end@, key, i) && *before[key]
                                == self.data@[i];
                        assert(is_last_badge_on(next, start@, end@, key, i));
                    }
                }
            }
            n = n + 1;
        }
        assert(self.data@.take(n as int) == self.data@);
        map
    }
}

} // verus!
