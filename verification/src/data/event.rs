//! Events: notes attached to dates, kept in the order of their dates.

use crate::text::{
    lemma_text_le_reflexive, lemma_text_le_total, lemma_text_le_transitive, str_eq, str_le,
    text_le,
};
use vstd::hash_map::StringHashMap;
use vstd::prelude::*;

verus! {

/// A note on a date. `date` is the date's canonical `YYYY-MM-DD` text.
#[derive(Clone, Debug)]
pub struct Event {
    pub date: String,
    pub description: String,
}

/// The events. [`EventData::add`] leaves them in the order of their date
/// texts.
#[derive(Debug)]
pub struct EventData {
    pub events: Vec<Event>,
}

impl Default for EventData {
    fn default() -> (r: EventData)
        ensures
            r.events@ == Seq::<Event>::empty(),
    {
        EventData { events: Vec::new() }
    }
}

/// Whether the events stand in the order of their date texts.
pub open spec fn is_ordered_by_date(events: Seq<Event>) -> bool {
    forall|i: int, j: int|
        0 <= i < j < events.len() ==> text_le(
            (#[trigger] events[i]).date@,
            (#[trigger] events[j]).date@,
        )
}

/// `ordered` with `event` put in behind the last event whose date text
/// does not come after its own.
pub open spec fn insert_by_date(ordered: Seq<Event>, event: Event) -> Seq<Event>
    decreases ordered.len(),
{
    if ordered.len() == 0 {
        seq![event]
    } else if text_le(ordered.last().date@, event.date@) {
        ordered.push(event)
    } else {
        insert_by_date(ordered.drop_last(), event).push(ordered.last())
    }
}

/// The events in the order of their date texts; events with the same date
/// text keep the order they had.
pub open spec fn sort_by_date(events: Seq<Event>) -> Seq<Event>
    decreases events.len(),
{
    if events.len() == 0 {
        events
    } else {
        insert_by_date(sort_by_date(events.drop_last()), events.last())
    }
}

/// The test that keeps every event but those on `date` with the
/// description `description`.
pub open spec fn is_other_event(date: Seq<char>, description: Seq<char>) -> spec_fn(Event) -> bool {
    |event: Event| !(event.date@ == date && event.description@ == description)
}

/// The test that keeps the events on `date`.
pub open spec fn is_on(date: Seq<char>) -> spec_fn(Event) -> bool {
    |event: Event| event.date@ == date
}

/// What the references of a list refer to.
pub open spec fn referents(refs: Seq<&Event>) -> Seq<Event> {
    refs.map_values(|r: &Event| *r)
}

/// Putting an event in where it belongs: behind a front whose last date
/// text does not come after its own, and before a back whose date texts
/// all do.
proof fn lemma_insert_by_date_at(ordered: Seq<Event>, event: Event, at: int)
    requires
        0 <= at <= ordered.len(),
        at > 0 ==> text_le(ordered[at - 1].date@, event.date@),
        forall|k: int| at <= k < ordered.len() ==> !text_le((#[trigger] ordered[k]).date@, event.date@),
    ensures
        insert_by_date(ordered, event) == ordered.take(at).push(event) + ordered.skip(at),
    decreases ordered.len() - at,
{
    if at == ordered.len() {
        if ordered.len() == 0 {
            assert(insert_by_date(ordered, event) =~= ordered.take(at).push(event) + ordered.skip(
                at,
            ));
        } else {
            assert(ordered.push(event) =~= ordered.take(at).push(event) + ordered.skip(at));
        }
    } else {
        let front = ordered.drop_last();
        assert(!text_le(ordered[ordered.len() - 1].date@, event.date@));
        lemma_insert_by_date_at(front, event, at);
        assert(front.take(at) == ordered.take(at));
        assert((front.take(at).push(event) + front.skip(at)).push(ordered.last())
            =~= ordered.take(at).push(event) + ordered.skip(at));
    }
}

/// Putting an event into ordered events leaves them ordered, and holds
/// what was held and the event.
pub proof fn lemma_insert_by_date_keeps_order(ordered: Seq<Event>, event: Event)
    requires
        is_ordered_by_date(ordered),
    ensures
        is_ordered_by_date(insert_by_date(ordered, event)),
        insert_by_date(ordered, event).to_multiset() == ordered.to_multiset().insert(event),
        insert_by_date(ordered, event).len() == ordered.len() + 1,
    decreases ordered.len(),
{
    broadcast use vstd::seq_lib::group_to_multiset_ensures;

    let result = insert_by_date(ordered, event);
    if ordered.len() == 0 {
        assert(result =~= Seq::<Event>::empty().push(event));
        assert(ordered =~= Seq::<Event>::empty());
    } else if text_le(ordered.last().date@, event.date@) {
        assert forall|i: int, j: int| 0 <= i < j < result.len() implies text_le(
            (#[trigger] result[i]).date@,
            (#[trigger] result[j]).date@,
        ) by {
            if j == ordered.len() {
                if i < ordered.len() - 1 {
                    assert(text_le(ordered[i].date@, ordered[ordered.len() - 1].date@));
                    lemma_text_le_transitive(
                        ordered[i].date@,
                        ordered.last().date@,
                        event.date@,
                    );
                }
            } else {
                assert(text_le(ordered[i].date@, ordered[j].date@));
            }
        }
    } else {
        let front = ordered.drop_last();
        assert forall|i: int, j: int| 0 <= i < j < front.len() implies text_le(
            (#[trigger] front[i]).date@,
            (#[trigger] front[j]).date@,
        ) by {
            assert(text_le(ordered[i].date@, ordered[j].date@));
        }
        lemma_insert_by_date_keeps_order(front, event);
        let inner = insert_by_date(front, event);
        lemma_text_le_total(ordered.last().date@, event.date@);
        assert forall|i: int, j: int| 0 <= i < j < result.len() implies text_le(
            (#[trigger] result[i]).date@,
            (#[trigger] result[j]).date@,
        ) by {
            if j == inner.len() {
                // every event of `inner` is the new one or one of `front`
                assert(inner.to_multiset().count(inner[i]) > 0);
                if inner[i] == event {
                } else {
                    assert(front.to_multiset().count(inner[i]) > 0);
                    assert(front.contains(inner[i]));
                    let k = choose|k: int| 0 <= k < front.len() && front[k] == inner[i];
                    assert(text_le(ordered[k].date@, ordered[ordered.len() - 1].date@));
                }
            } else {
                assert(text_le(inner[i].date@, inner[j].date@));
            }
        }
        assert(ordered =~= front.push(ordered.last()));
    }
}

/// Sorted events are ordered, and are the events that were sorted.
pub proof fn lemma_sort_by_date_orders(events: Seq<Event>)
    ensures
        is_ordered_by_date(sort_by_date(events)),
        sort_by_date(events).to_multiset() == events.to_multiset(),
        sort_by_date(events).len() == events.len(),
    decreases events.len(),
{
    broadcast use vstd::seq_lib::group_to_multiset_ensures;

    if events.len() > 0 {
        lemma_sort_by_date_orders(events.drop_last());
        lemma_insert_by_date_keeps_order(sort_by_date(events.drop_last()), events.last());
        assert(events =~= events.drop_last().push(events.last()));
    }
}

/// Putting an event into a list changes the events of a date only by the
/// event itself, which comes last among those of its own date.
pub proof fn lemma_insert_by_date_is_stable(ordered: Seq<Event>, event: Event, date: Seq<char>)
    ensures
        insert_by_date(ordered, event).filter(is_on(date)) == ordered.push(event).filter(
            is_on(date),
        ),
    decreases ordered.len(),
{
    ordered.lemma_filter_push(event, is_on(date));
    if ordered.len() == 0 {
        assert(insert_by_date(ordered, event) =~= ordered.push(event));
    } else if text_le(ordered.last().date@, event.date@) {
    } else {
        let front = ordered.drop_last();
        let last = ordered.last();
        lemma_insert_by_date_is_stable(front, event, date);
        lemma_text_le_reflexive(event.date@);
        assert(last.date@ != event.date@);
        assert(ordered =~= front.push(last));
        insert_by_date(front, event).lemma_filter_push(last, is_on(date));
        front.lemma_filter_push(event, is_on(date));
        front.lemma_filter_push(last, is_on(date));
        front.push(last).lemma_filter_push(event, is_on(date));
    }
}

/// Sorting is stable: the events of a date stand in the order they had.
pub proof fn lemma_sort_by_date_is_stable(events: Seq<Event>, date: Seq<char>)
    ensures
        sort_by_date(events).filter(is_on(date)) == events.filter(is_on(date)),
    decreases events.len(),
{
    if events.len() > 0 {
        let front = events.drop_last();
        lemma_sort_by_date_is_stable(front, date);
        lemma_insert_by_date_is_stable(sort_by_date(front), events.last(), date);
        sort_by_date(front).lemma_filter_push(events.last(), is_on(date));
        front.lemma_filter_push(events.last(), is_on(date));
        assert(events =~= front.push(events.last()));
    }
}

/// A copy of a list of references.
fn copy_refs<'a>(refs: &Vec<&'a Event>) -> (r: Vec<&'a Event>)
    ensures
        r@ == refs@,
{
    let mut copy: Vec<&'a Event> = Vec::new();
    let mut n: usize = 0;
    while n < refs.len()
        invariant
            n <= refs.len(),
            copy@ == refs@.take(n as int),
        decreases refs.len() - n,
    {
        copy.push(refs[n]);
        assert(refs@.take(n + 1) == refs@.take(n as int).push(refs@[n as int]));
        n = n + 1;
    }
    assert(refs@.take(n as int) == refs@);
    copy
}

impl EventData {
    /// Adds an event and puts all events in the order of their date texts;
    /// events with the same date text keep the order they had, the new one
    /// last among them.
    pub fn add(&mut self, event: Event)
        ensures
            final(self).events@ == sort_by_date(old(self).events@.push(event)),
    {
        self.events.push(event);
        let ghost orig = self.events@;
        let mut n: usize = 0;
        proof {
            assert(orig.take(0) =~= Seq::<Event>::empty());
        }
        while n < self.events.len()
            invariant
                n <= orig.len(),
                self.events@.len() == orig.len(),
                self.events@.take(n as int) == sort_by_date(orig.take(n as int)),
                self.events@.skip(n as int) == orig.skip(n as int),
            decreases orig.len() - n,
        {
            let ghost ordered = self.events@.take(n as int);
            let ghost rest = self.events@.skip(n as int);
            let moved = self.events.remove(n);
            assert(moved == orig[n as int]) by {
                assert(rest[0] == orig.skip(n as int)[0]);
            }
            assert(self.events@ =~= ordered + rest.skip(1));
            let mut at: usize = n;
            while at > 0 && !str_le(self.events[at - 1].date.as_str(), moved.date.as_str())
                invariant
                    at <= n,
                    n < orig.len(),
                    self.events@ == ordered + rest.skip(1),
                    ordered.len() == n,
                    forall|k: int|
                        at <= k < n ==> !text_le((#[trigger] ordered[k]).date@, moved.date@),
                decreases at,
            {
                at = at - 1;
            }
            proof {
                if at > 0 {
                    assert(self.events@[at - 1] == ordered[at - 1]);
                }
                lemma_insert_by_date_at(ordered, moved, at as int);
                assert(orig.take(n + 1).drop_last() =~= orig.take(n as int));
                assert(orig.take(n + 1).last() == orig[n as int]);
            }
            self.events.insert(at, moved);
            proof {
                let placed = ordered.take(at as int).push(moved) + ordered.skip(at as int);
                assert(self.events@ =~= placed + rest.skip(1));
                assert(self.events@.take(n + 1) =~= placed);
                assert(self.events@.skip(n + 1) =~= rest.skip(1));
                assert(rest.skip(1) =~= orig.skip(n + 1));
            }
            n = n + 1;
        }
        proof {
            assert(self.events@.take(n as int) =~= self.events@);
            assert(orig.take(n as int) =~= orig);
        }
    }

    /// Takes out every event on `date` with the description `description`;
    /// the others keep their order.
    pub fn remove(&mut self, date: &str, description: &str)
        ensures
            final(self).events@ == old(self).events@.filter(is_other_event(date@, description@)),
    {
        let ghost orig = self.events@;
        let ghost keep = is_other_event(date@, description@);
        let ghost mut done: int = 0;
        let mut n: usize = 0;
        proof {
            assert(orig.take(0) == Seq::<Event>::empty());
            reveal(Seq::filter);
            assert(orig.skip(0) == orig);
        }
        while n < self.events.len()
            invariant
                keep == is_other_event(date@, description@),
                0 <= done <= orig.len(),
                n <= self.events.len(),
                n == orig.take(done).filter(keep).len(),
                self.events@ == orig.take(done).filter(keep) + orig.skip(done),
            decreases orig.len() - done,
        {
            proof {
                assert(self.events@[n as int] == orig.skip(done)[0]);
                assert(orig.take(done + 1) == orig.take(done).push(orig[done]));
                orig.take(done).lemma_filter_push(orig[done], keep);
                assert(orig.skip(done).skip(1) == orig.skip(done + 1));
            }
            if str_eq(self.events[n].date.as_str(), date) && str_eq(
                self.events[n].description.as_str(),
                description,
            ) {
                self.events.remove(n);
                proof {
                    assert(self.events@ == orig.take(done + 1).filter(keep) + orig.skip(done + 1));
                    done = done + 1;
                }
            } else {
                proof {
                    assert(self.events@ == orig.take(done + 1).filter(keep) + orig.skip(done + 1));
                    done = done + 1;
                }
                n = n + 1;
            }
        }
        proof {
            assert(orig.skip(done).len() == 0);
            assert(orig.take(done) == orig);
            assert(self.events@ == orig.filter(keep));
        }
    }

    /// The events on `date`, in their order.
    pub fn events_on(&self, date: &str) -> (r: Vec<&Event>)
        ensures
            referents(r@) == self.events@.filter(is_on(date@)),
    {
        let mut found: Vec<&Event> = Vec::new();
        let mut n: usize = 0;
        proof {
            assert(self.events@.take(0) == Seq::<Event>::empty());
            reveal(Seq::filter);
            assert(referents(found@) =~= Seq::<Event>::empty());
        }
        while n < self.events.len()
            invariant
                n <= self.events.len(),
                referents(found@) == self.events@.take(n as int).filter(is_on(date@)),
            decreases self.events.len() - n,
        {
            let event = &self.events[n];
            let ghost before = found@;
            proof {
                assert(self.events@.take(n + 1) == self.events@.take(n as int).push(*event));
                self.events@.take(n as int).lemma_filter_push(*event, is_on(date@));
            }
            if str_eq(event.date.as_str(), date) {
                found.push(event);
                assert(referents(before.push(event)) =~= referents(before).push(*event));
            }
            n = n + 1;
        }
        assert(self.events@.take(n as int) == self.events@);
        found
    }

    /// The events by date text: under each text that some event has, the
    /// events with that text, in their order.
    pub fn get_event_map(&self) -> (map: StringHashMap<Vec<&Event>>)
        ensures
            forall|key: Seq<char>| #[trigger]
                map@.contains_key(key) <==> exists|i: int|
                    0 <= i < self.events@.len() && (#[trigger] self.events@[i]).date@ == key,
            forall|key: Seq<char>| #[trigger]
                map@.contains_key(key) ==> referents(map@[key]@) == self.events@.filter(is_on(key)),
    {
        let mut map: StringHashMap<Vec<&Event>> = StringHashMap::new();
        let mut n: usize = 0;
        proof {
            assert(self.events@.take(0) == Seq::<Event>::empty());
        }
        while n < self.events.len()
            invariant
                n <= self.events.len(),
                forall|key: Seq<char>| #[trigger]
                    map@.contains_key(key) <==> exists|i: int|
                        0 <= i < n && (#[trigger] self.events@[i]).date@ == key,
                forall|key: Seq<char>| #[trigger]
                    map@.contains_key(key) ==> referents(map@[key]@) == self.events@.take(
                        n as int,
                    ).filter(is_on(key)),
            decreases self.events.len() - n,
        {
            let event = &self.events[n];
            let ghost seen = self.events@.take(n as int);
            let ghost before = map@;
            let mut group: Vec<&Event> = match map.get(event.date.as_str()) {
                Some(found) => copy_refs(found),
                None => Vec::new(),
            };
            let ghost old_group = group@;
            group.push(event);
            map.insert(event.date.clone(), group);
            proof {
                assert(self.events@.take(n + 1) == seen.push(*event));
                assert forall|key: Seq<char>| #[trigger] map@.contains_key(key) implies referents(
                    map@[key]@,
                ) == self.events@.take(n + 1).filter(is_on(key)) by {
                    seen.lemma_filter_push(*event, is_on(key));
                    if key == event.date@ {
                        if before.contains_key(key) {
                            assert(referents(old_group) == seen.filter(is_on(key)));
                        } else {
                            assert forall|i: int| 0 <= i < seen.len() implies !is_on(key)(
                                #[trigger] seen[i],
                            ) by {
                                assert(self.events@[i].date@ != key);
                            }
                            seen.lemma_all_neg_filter_empty(is_on(key));
                            assert(seen.filter(is_on(key)) =~= Seq::<Event>::empty());
                            assert(referents(old_group) =~= Seq::<Event>::empty());
                        }
                        assert(referents(old_group.push(event)) =~= referents(old_group).push(
                            *event,
                        ));
                    } else {
                        assert(before.contains_key(key));
                    }
                }
            }
            n = n + 1;
        }
        assert(self.events@.take(n as int) == self.events@);
        map
    }
}

} // verus!
