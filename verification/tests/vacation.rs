use rustrto::data::vacation::{Vacation, VacationData};

#[test]
fn test_vacation_new_sets_fields() {
    let v = Vacation::new("Hawaii", "2025-05-10", "2025-05-17", true);
    assert_eq!(v.destination, "Hawaii");
    assert_eq!(v.start_date, "2025-05-10");
    assert_eq!(v.end_date, "2025-05-17");
    assert!(v.approved);
}

#[test]
fn test_vacation_new_unapproved() {
    let v = Vacation::new("Paris", "2025-06-01", "2025-06-07", false);
    assert!(!v.approved);
}

#[test]
fn test_add_inserts_vacation() {
    let mut data = VacationData::default();
    data.add(Vacation::new("Hawaii", "2025-05-10", "2025-05-17", true));
    assert_eq!(data.vacations.len(), 1);
}

#[test]
fn test_get_vacation_map_expands_range() {
    let mut data = VacationData::default();
    // Monday through Friday (5 days)
    data.add(Vacation::new("Beach", "2025-01-06", "2025-01-10", true));
    let map = data.get_vacation_map();
    assert_eq!(map.len(), 5);
    assert!(map.contains_key("2025-01-06"));
    assert!(map.contains_key("2025-01-10"));
    assert!(!map.contains_key("2025-01-11"));
}

#[test]
fn test_get_vacation_map_single_day() {
    let mut data = VacationData::default();
    data.add(Vacation::new("Day off", "2025-03-15", "2025-03-15", true));
    let map = data.get_vacation_map();
    assert_eq!(map.len(), 1);
    assert!(map.contains_key("2025-03-15"));
}

#[test]
fn test_get_vacation_map_skips_invalid_dates() {
    let mut data = VacationData::default();
    data.vacations.push(Vacation {
        destination: "Bad".to_string(),
        start_date: "not-a-date".to_string(),
        end_date: "2025-01-10".to_string(),
        approved: true,
    });
    let map = data.get_vacation_map();
    assert!(map.is_empty());
}

#[test]
fn test_get_vacation_map_destination_preserved() {
    let mut data = VacationData::default();
    data.add(Vacation::new("Hawaii", "2025-05-10", "2025-05-12", true));
    let map = data.get_vacation_map();
    assert_eq!(map.get("2025-05-10").unwrap().destination, "Hawaii");
    assert_eq!(map.get("2025-05-11").unwrap().destination, "Hawaii");
    assert_eq!(map.get("2025-05-12").unwrap().destination, "Hawaii");
}

#[test]
fn test_get_vacation_map_multiple_vacations() {
    let mut data = VacationData::default();
    data.add(Vacation::new("Trip A", "2025-01-06", "2025-01-07", true));
    data.add(Vacation::new("Trip B", "2025-02-10", "2025-02-11", true));
    let map = data.get_vacation_map();
    assert_eq!(map.len(), 4);
    assert_eq!(map.get("2025-01-06").unwrap().destination, "Trip A");
    assert_eq!(map.get("2025-02-10").unwrap().destination, "Trip B");
}

#[test]
fn test_default_vacation_data_is_empty() {
    let data = VacationData::default();
    assert!(data.vacations.is_empty());
    assert!(data.get_vacation_map().is_empty());
}

#[test]
fn vacation_map_skips_an_unreadable_end_date() {
    let mut data = VacationData::default();
    data.add(Vacation::new("Bad", "2025-01-06", "someday", true));
    data.add(Vacation::new("Good", "2025-01-08", "2025-01-08", false));
    let map = data.get_vacation_map();
    assert_eq!(map.len(), 1);
    assert!(!map.get("2025-01-08").unwrap().approved);
}

#[test]
fn vacation_that_ends_before_it_starts_covers_no_day() {
    let mut data = VacationData::default();
    data.add(Vacation::new("Backwards", "2025-01-10", "2025-01-06", true));
    assert!(data.get_vacation_map().is_empty());
}

#[test]
fn vacation_map_keeps_the_last_vacation_of_a_day() {
    let mut data = VacationData::default();
    data.add(Vacation::new("Long", "2025-01-06", "2025-01-10", true));
    data.add(Vacation::new("Short", "2025-01-08", "2025-01-08", true));
    let map = data.get_vacation_map();
    assert_eq!(map.len(), 5);
    assert_eq!(map.get("2025-01-07").unwrap().destination, "Long");
    assert_eq!(map.get("2025-01-08").unwrap().destination, "Short");
    assert_eq!(map.get("2025-01-08").unwrap().start_date, "2025-01-08");
}

#[test]
fn vacation_map_crosses_months() {
    let mut data = VacationData::default();
    data.add(Vacation::new("Winter", "2024-12-30", "2025-01-02", true));
    let map = data.get_vacation_map();
    assert_eq!(map.len(), 4);
    assert!(map.contains_key("2024-12-31"));
    assert!(map.contains_key("2025-01-01"));
}
