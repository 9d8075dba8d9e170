use rustrto::calc::workday::{create_workday_map, is_workday};
use rustrto::date::Date;

fn date(y: i32, m: u32, d: u32) -> Date {
    Date::from_ymd(y, m, d).unwrap()
}

#[test]
fn test_is_workday_for_each_weekday() {
    // 2025-01-06 is Monday
    let monday = date(2025, 1, 6);
    assert!(is_workday(monday));
    assert!(is_workday(monday.succ().unwrap())); // Tuesday
    assert!(is_workday(monday.succ().unwrap().succ().unwrap())); // Wednesday
    let thursday = date(2025, 1, 9);
    let friday = date(2025, 1, 10);
    assert!(is_workday(thursday));
    assert!(is_workday(friday));
}

#[test]
fn test_is_not_workday_for_weekend() {
    let saturday = date(2025, 1, 11);
    let sunday = date(2025, 1, 12);
    assert!(!is_workday(saturday));
    assert!(!is_workday(sunday));
}

#[test]
fn test_workday_map_excludes_weekends() {
    // 2025-01-06 (Mon) to 2025-01-12 (Sun) = 5 weekdays
    let start = date(2025, 1, 6);
    let end = date(2025, 1, 12);
    let map = create_workday_map(start, end);
    assert_eq!(map.len(), 5);
    assert!(!map.contains_key("2025-01-11")); // Saturday
    assert!(!map.contains_key("2025-01-12")); // Sunday
}

#[test]
fn test_workday_map_inclusive_range() {
    let start = date(2025, 1, 6); // Monday
    let end = date(2025, 1, 10); // Friday
    let map = create_workday_map(start, end);
    assert_eq!(map.len(), 5);
    assert!(map.contains_key("2025-01-06"));
    assert!(map.contains_key("2025-01-10"));
}

#[test]
fn workday_map_of_a_weekend_is_empty() {
    let map = create_workday_map(date(2025, 1, 11), date(2025, 1, 12));
    assert!(map.is_empty());
}

#[test]
fn workday_map_of_a_single_day() {
    let monday = create_workday_map(date(2025, 1, 6), date(2025, 1, 6));
    assert_eq!(monday.len(), 1);
    let sunday = create_workday_map(date(2025, 1, 12), date(2025, 1, 12));
    assert_eq!(sunday.len(), 0);
}

#[test]
fn workday_map_with_end_before_start_is_empty() {
    let map = create_workday_map(date(2025, 1, 10), date(2025, 1, 6));
    assert!(map.is_empty());
}

#[test]
fn workday_map_records_start_blank() {
    let map = create_workday_map(date(2025, 1, 6), date(2025, 1, 10));
    let day = map.get("2025-01-08").unwrap();
    assert_eq!(day.date, date(2025, 1, 8));
    assert_eq!(day.work_date, "2025-01-08");
    assert!(!day.is_workday);
    assert!(!day.is_badged_in);
    assert!(!day.is_flex_credit);
    assert!(!day.is_holiday);
    assert!(!day.is_vacation);
}

#[test]
fn workday_map_is_the_same_for_the_same_range() {
    let a = create_workday_map(date(2025, 2, 1), date(2025, 4, 30));
    let b = create_workday_map(date(2025, 2, 1), date(2025, 4, 30));
    assert_eq!(a.len(), b.len());
    let mut day = date(2025, 2, 1);
    while day <= date(2025, 4, 30) {
        assert_eq!(a.contains_key(&day.key()), b.contains_key(&day.key()));
        assert_eq!(a.contains_key(&day.key()), is_workday(day));
        day = day.succ().unwrap();
    }
}
