use rustrto::data::badge_entry::{BadgeEntry, BadgeEntryData};
use rustrto::date::{Date, DateTime};

fn date(y: i32, m: u32, d: u32) -> Date {
    Date::from_ymd(y, m, d).unwrap()
}

#[test]
fn test_badge_entry_new_sets_fields() {
    let entry = BadgeEntry::new(date(2025, 3, 15), "McLean, VA", false);
    assert_eq!(entry.key, "2025-03-15");
    assert_eq!(entry.office, "McLean, VA");
    assert_eq!(entry.date_time.date(), date(2025, 3, 15));
    assert!(entry.is_badged_in);
    assert!(!entry.is_flex_credit);
}

#[test]
fn test_badge_entry_new_flex_sets_flag() {
    let entry = BadgeEntry::new(date(2025, 3, 15), "Flex Credit", true);
    assert!(entry.is_badged_in);
    assert!(entry.is_flex_credit);
}

#[test]
fn test_has_returns_true_when_present() {
    let mut data = BadgeEntryData::default();
    data.add(BadgeEntry::new(date(2025, 1, 10), "Office", false));
    assert!(data.has("2025-01-10"));
}

#[test]
fn test_has_returns_false_when_absent() {
    let data = BadgeEntryData::default();
    assert!(!data.has("2025-01-10"));
}

#[test]
fn test_add_increases_count() {
    let mut data = BadgeEntryData::default();
    assert_eq!(data.data.len(), 0);
    data.add(BadgeEntry::new(date(2025, 1, 10), "Office", false));
    assert_eq!(data.data.len(), 1);
    data.add(BadgeEntry::new(date(2025, 1, 11), "Office", false));
    assert_eq!(data.data.len(), 2);
}

#[test]
fn test_remove_deletes_entry() {
    let mut data = BadgeEntryData::default();
    data.add(BadgeEntry::new(date(2025, 1, 10), "Office", false));
    data.add(BadgeEntry::new(date(2025, 1, 11), "Office", false));
    data.remove("2025-01-10");
    assert!(!data.has("2025-01-10"));
    assert!(data.has("2025-01-11"));
}

#[test]
fn badge_entry_test_remove_nonexistent_is_noop() {
    let mut data = BadgeEntryData::default();
    data.add(BadgeEntry::new(date(2025, 1, 10), "Office", false));
    data.remove("2025-12-31");
    assert_eq!(data.data.len(), 1);
}

#[test]
fn test_get_badge_map_includes_entries_in_range() {
    let mut data = BadgeEntryData::default();
    data.add(BadgeEntry::new(date(2025, 1, 5), "Office", false));
    data.add(BadgeEntry::new(date(2025, 1, 10), "Office", false));
    data.add(BadgeEntry::new(date(2025, 1, 20), "Office", false));
    let map = data.get_badge_map(date(2025, 1, 6), date(2025, 1, 15));
    assert!(map.contains_key("2025-01-10"));
    assert!(!map.contains_key("2025-01-05"));
    assert!(!map.contains_key("2025-01-20"));
}

#[test]
fn test_get_badge_map_includes_boundary_dates() {
    let mut data = BadgeEntryData::default();
    data.add(BadgeEntry::new(date(2025, 1, 1), "Office", false));
    data.add(BadgeEntry::new(date(2025, 1, 31), "Office", false));
    let map = data.get_badge_map(date(2025, 1, 1), date(2025, 1, 31));
    assert!(map.contains_key("2025-01-01"));
    assert!(map.contains_key("2025-01-31"));
}

#[test]
fn test_get_badge_map_empty_range() {
    let mut data = BadgeEntryData::default();
    data.add(BadgeEntry::new(date(2025, 3, 1), "Office", false));
    let map = data.get_badge_map(date(2025, 1, 1), date(2025, 1, 31));
    assert!(map.is_empty());
}

#[test]
fn test_badge_entry_data_clone() {
    let mut data = BadgeEntryData::default();
    data.add(BadgeEntry::new(date(2025, 1, 10), "Office", false));
    let cloned = data.clone();
    assert_eq!(cloned.data.len(), 1);
}

#[test]
fn badge_entry_new_is_made_at_midnight() {
    let entry = BadgeEntry::new(date(2025, 3, 15), "Office", false);
    assert_eq!(entry.date_time, DateTime::new(date(2025, 3, 15), 0, 0).unwrap());
}

#[test]
fn badge_remove_takes_out_every_record_of_the_key_and_keeps_the_order() {
    let mut data = BadgeEntryData::default();
    data.add(BadgeEntry::new(date(2025, 1, 10), "A", false));
    data.add(BadgeEntry::new(date(2025, 1, 11), "B", false));
    data.add(BadgeEntry::new(date(2025, 1, 10), "C", true));
    data.add(BadgeEntry::new(date(2025, 1, 12), "D", false));
    data.add(BadgeEntry::new(date(2025, 1, 10), "E", false));
    data.remove("2025-01-10");
    assert_eq!(data.data.len(), 2);
    assert_eq!(data.data[0].office, "B");
    assert_eq!(data.data[1].office, "D");
    data.remove("2025-01-12");
    data.remove("2025-01-11");
    assert!(data.data.is_empty());
}

#[test]
fn badge_map_keeps_the_last_record_of_a_key() {
    let mut data = BadgeEntryData::default();
    data.add(BadgeEntry::new(date(2025, 1, 10), "First", false));
    data.add(BadgeEntry::new(date(2025, 1, 10), "Second", true));
    let map = data.get_badge_map(date(2025, 1, 1), date(2025, 1, 31));
    assert_eq!(map.len(), 1);
    assert_eq!(map.get("2025-01-10").unwrap().office, "Second");
    assert!(map.get("2025-01-10").unwrap().is_flex_credit);
}

#[test]
fn badge_map_goes_by_the_day_a_record_was_made() {
    let mut data = BadgeEntryData::default();
    let mut entry = BadgeEntry::new(date(2025, 1, 10), "Office", false);
    entry.date_time = DateTime::new(date(2025, 2, 10), 30, 0).unwrap();
    data.add(entry);
    assert!(data.get_badge_map(date(2025, 1, 1), date(2025, 1, 31)).is_empty());
    let map = data.get_badge_map(date(2025, 2, 1), date(2025, 2, 28));
    assert!(map.contains_key("2025-01-10"));
}

#[test]
fn badge_duplicate_is_a_copy() {
    let entry = BadgeEntry::new(date(2025, 3, 15), "McLean, VA", true);
    let copy = entry.duplicate();
    assert_eq!(copy.key, entry.key);
    assert_eq!(copy.date_time, entry.date_time);
    assert_eq!(copy.office, entry.office);
    assert_eq!(copy.is_badged_in, entry.is_badged_in);
    assert_eq!(copy.is_flex_credit, entry.is_flex_credit);
}
