use rustrto::data::event::{Event, EventData};

fn ev(date: &str, desc: &str) -> Event {
    Event { date: date.to_string(), description: desc.to_string() }
}

#[test]
fn test_add_inserts_event() {
    let mut data = EventData::default();
    data.add(ev("2025-03-01", "Team lunch"));
    assert_eq!(data.events.len(), 1);
    assert_eq!(data.events[0].description, "Team lunch");
}

#[test]
fn test_add_sorts_by_date() {
    let mut data = EventData::default();
    data.add(ev("2025-03-10", "Later event"));
    data.add(ev("2025-03-01", "Earlier event"));
    assert_eq!(data.events[0].date, "2025-03-01");
    assert_eq!(data.events[1].date, "2025-03-10");
}

#[test]
fn test_remove_deletes_matching_event() {
    let mut data = EventData::default();
    data.add(ev("2025-03-01", "Meeting"));
    data.add(ev("2025-03-02", "Lunch"));
    data.remove("2025-03-01", "Meeting");
    assert_eq!(data.events.len(), 1);
    assert_eq!(data.events[0].description, "Lunch");
}

#[test]
fn test_remove_requires_both_date_and_description() {
    let mut data = EventData::default();
    data.add(ev("2025-03-01", "Meeting"));
    // Wrong description: should NOT remove
    data.remove("2025-03-01", "Wrong description");
    assert_eq!(data.events.len(), 1);
    // Wrong date: should NOT remove
    data.remove("2025-12-31", "Meeting");
    assert_eq!(data.events.len(), 1);
}

#[test]
fn event_test_remove_nonexistent_is_noop() {
    let mut data = EventData::default();
    data.remove("2025-03-01", "Nothing");
    assert!(data.events.is_empty());
}

#[test]
fn test_get_event_map_groups_by_date() {
    let mut data = EventData::default();
    data.add(ev("2025-03-01", "Event A"));
    data.add(ev("2025-03-01", "Event B"));
    data.add(ev("2025-03-02", "Event C"));
    let map = data.get_event_map();
    assert_eq!(map.get("2025-03-01").unwrap().len(), 2);
    assert_eq!(map.get("2025-03-02").unwrap().len(), 1);
}

#[test]
fn test_get_event_map_empty() {
    let data = EventData::default();
    let map = data.get_event_map();
    assert!(map.is_empty());
}

#[test]
fn test_default_event_data_is_empty() {
    let data = EventData::default();
    assert!(data.events.is_empty());
}

#[test]
fn event_add_sorts_events_that_were_out_of_order() {
    let mut data = EventData {
        events: vec![ev("2025-03-10", "c"), ev("2025-01-05", "a"), ev("2025-02-01", "b")],
    };
    data.add(ev("2025-01-20", "new"));
    let dates: Vec<&str> = data.events.iter().map(|e| e.date.as_str()).collect();
    assert_eq!(dates, vec!["2025-01-05", "2025-01-20", "2025-02-01", "2025-03-10"]);
}

#[test]
fn event_add_keeps_the_order_of_events_of_one_date() {
    let mut data = EventData::default();
    data.add(ev("2025-03-01", "first"));
    data.add(ev("2025-03-02", "other"));
    data.add(ev("2025-03-01", "second"));
    data.add(ev("2025-02-01", "before"));
    data.add(ev("2025-03-01", "third"));
    let descriptions: Vec<&str> = data.events.iter().map(|e| e.description.as_str()).collect();
    assert_eq!(descriptions, vec!["before", "first", "second", "third", "other"]);
}

#[test]
fn event_add_orders_as_a_stable_sort_does() {
    let dates = ["2025-03-10", "2025-3-1", "", "2025-01-05", "2025-03-10", "Z", "2025-01-05", "é"];
    let mut data = EventData::default();
    let mut expected: Vec<Event> = Vec::new();
    for (i, d) in dates.iter().enumerate() {
        data.add(ev(d, &format!("{}", i)));
        expected.push(ev(d, &format!("{}", i)));
        expected.sort_by(|a, b| a.date.cmp(&b.date));
        let got: Vec<(&str, &str)> =
            data.events.iter().map(|e| (e.date.as_str(), e.description.as_str())).collect();
        let want: Vec<(&str, &str)> =
            expected.iter().map(|e| (e.date.as_str(), e.description.as_str())).collect();
        assert_eq!(got, want);
    }
}

#[test]
fn event_remove_takes_out_every_match_and_keeps_the_order() {
    let mut data = EventData::default();
    data.add(ev("2025-03-01", "Meeting"));
    data.add(ev("2025-03-01", "Lunch"));
    data.add(ev("2025-03-01", "Meeting"));
    data.add(ev("2025-03-02", "Meeting"));
    data.remove("2025-03-01", "Meeting");
    assert_eq!(data.events.len(), 2);
    assert_eq!(data.events[0].description, "Lunch");
    assert_eq!(data.events[1].date, "2025-03-02");
}

#[test]
fn event_map_keeps_the_order_within_a_date() {
    let mut data = EventData::default();
    data.add(ev("2025-03-01", "Event A"));
    data.add(ev("2025-03-02", "Event C"));
    data.add(ev("2025-03-01", "Event B"));
    let map = data.get_event_map();
    assert_eq!(map.len(), 2);
    let first = map.get("2025-03-01").unwrap();
    assert_eq!(first[0].description, "Event A");
    assert_eq!(first[1].description, "Event B");
    assert!(!map.contains_key("2025-03-03"));
}
