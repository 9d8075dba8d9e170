use rustrto::data::quarter::{QuarterConfig, QuarterData, QuarterError};
use rustrto::date::Date;

fn date(y: i32, m: u32, d: u32) -> Date {
    Date::from_ymd(y, m, d).unwrap()
}

fn raw_quarter(key: &str, start: &str, end: &str) -> QuarterConfig {
    QuarterConfig {
        key: key.to_string(),
        quarter: "Q1".to_string(),
        year: "2025".to_string(),
        start_date_raw: start.to_string(),
        end_date_raw: end.to_string(),
        start_date: None,
        end_date: None,
    }
}

fn make_quarter(key: &str, start: &str, end: &str) -> QuarterConfig {
    let mut q = raw_quarter(key, start, end);
    q.parse_dates().unwrap();
    q
}

#[test]
fn test_parse_dates_populates_fields() {
    let mut q = QuarterConfig {
        key: "TEST".to_string(),
        quarter: "Q1".to_string(),
        year: "2025".to_string(),
        start_date_raw: "2025-02-01".to_string(),
        end_date_raw: "2025-04-30".to_string(),
        start_date: None,
        end_date: None,
    };
    q.parse_dates().unwrap();
    assert_eq!(q.start_date.unwrap(), date(2025, 2, 1));
    assert_eq!(q.end_date.unwrap(), date(2025, 4, 30));
}

#[test]
fn test_parse_dates_invalid_returns_error() {
    let mut q = QuarterConfig {
        key: "BAD".to_string(),
        quarter: "Q1".to_string(),
        year: "2025".to_string(),
        start_date_raw: "not-a-date".to_string(),
        end_date_raw: "2025-04-30".to_string(),
        start_date: None,
        end_date: None,
    };
    assert!(q.parse_dates().is_err());
}

#[test]
fn test_is_date_in_range_middle() {
    let q = make_quarter("Q", "2025-02-01", "2025-04-30");
    let mid = date(2025, 3, 15);
    assert!(q.is_date_in_range(mid));
}

#[test]
fn test_is_date_in_range_start_boundary() {
    let q = make_quarter("Q", "2025-02-01", "2025-04-30");
    let start = date(2025, 2, 1);
    assert!(q.is_date_in_range(start));
}

#[test]
fn test_is_date_in_range_end_boundary() {
    let q = make_quarter("Q", "2025-02-01", "2025-04-30");
    let end = date(2025, 4, 30);
    assert!(q.is_date_in_range(end));
}

#[test]
fn test_is_date_in_range_before_start() {
    let q = make_quarter("Q", "2025-02-01", "2025-04-30");
    let before = date(2025, 1, 31);
    assert!(!q.is_date_in_range(before));
}

#[test]
fn test_is_date_in_range_after_end() {
    let q = make_quarter("Q", "2025-02-01", "2025-04-30");
    let after = date(2025, 5, 1);
    assert!(!q.is_date_in_range(after));
}

#[test]
fn test_is_date_in_range_unparsed_returns_false() {
    let q = QuarterConfig {
        key: "Q".to_string(),
        quarter: "Q1".to_string(),
        year: "2025".to_string(),
        start_date_raw: "2025-02-01".to_string(),
        end_date_raw: "2025-04-30".to_string(),
        start_date: None, // not parsed
        end_date: None,
    };
    let date = date(2025, 3, 1);
    assert!(!q.is_date_in_range(date));
}

#[test]
fn test_get_quarter_by_key_found() {
    let data = QuarterData {
        quarters: vec![
            make_quarter("Q1_2025", "2025-02-01", "2025-04-30"),
            make_quarter("Q2_2025", "2025-05-01", "2025-07-31"),
        ],
    };
    let q = data.get_quarter_by_key("Q2_2025");
    assert!(q.is_some());
    assert_eq!(q.unwrap().key, "Q2_2025");
}

#[test]
fn test_get_quarter_by_key_not_found() {
    let data = QuarterData {
        quarters: vec![make_quarter("Q1_2025", "2025-02-01", "2025-04-30")],
    };
    assert!(data.get_quarter_by_key("MISSING").is_none());
}

#[test]
fn test_get_quarter_by_date_found() {
    let data = QuarterData {
        quarters: vec![
            make_quarter("Q1_2025", "2025-02-01", "2025-04-30"),
            make_quarter("Q2_2025", "2025-05-01", "2025-07-31"),
        ],
    };
    let date = date(2025, 6, 15);
    let q = data.get_quarter_by_date(date);
    assert!(q.is_some());
    assert_eq!(q.unwrap().key, "Q2_2025");
}

#[test]
fn test_get_quarter_by_date_not_found() {
    let data = QuarterData {
        quarters: vec![make_quarter("Q1_2025", "2025-02-01", "2025-04-30")],
    };
    let date = date(2026, 1, 1);
    assert!(data.get_quarter_by_date(date).is_none());
}

#[test]
fn test_quarter_data_default_is_empty() {
    let data = QuarterData::default();
    assert!(data.quarters.is_empty());
}

#[test]
fn parse_dates_says_which_text_is_no_date() {
    let mut q = raw_quarter("BAD", "not-a-date", "2025-04-30");
    assert_eq!(q.parse_dates(), Err(QuarterError::InvalidStartDate));
    assert!(q.start_date.is_none());
    assert!(q.end_date.is_none());

    let mut q = raw_quarter("BAD", "2025-02-01", "2025-04-31");
    assert_eq!(q.parse_dates(), Err(QuarterError::InvalidEndDate));
    // the start date was read before the end date failed
    assert_eq!(q.start_date, Some(date(2025, 2, 1)));
    assert!(q.end_date.is_none());

    let mut q = raw_quarter("BAD", "nope", "nope");
    assert_eq!(q.parse_dates(), Err(QuarterError::InvalidStartDate));
}

#[test]
fn parse_dates_keeps_the_other_fields() {
    let mut q = raw_quarter("KEY", "2025-02-01", "2025-04-30");
    q.year = "2031".to_string();
    q.parse_dates().unwrap();
    assert_eq!(q.key, "KEY");
    assert_eq!(q.quarter, "Q1");
    assert_eq!(q.year, "2031");
    assert_eq!(q.start_date_raw, "2025-02-01");
    assert_eq!(q.end_date_raw, "2025-04-30");
}

#[test]
fn quarter_config_default_is_blank() {
    let q = QuarterConfig::default();
    assert_eq!(q.key, "");
    assert_eq!(q.quarter, "");
    assert_eq!(q.year, "");
    assert_eq!(q.start_date_raw, "");
    assert_eq!(q.end_date_raw, "");
    assert!(q.start_date.is_none());
    assert!(q.end_date.is_none());
}

#[test]
fn parse_all_stops_at_the_first_bad_quarter() {
    let mut data = QuarterData {
        quarters: vec![
            raw_quarter("A", "2025-02-01", "2025-04-30"),
            raw_quarter("B", "2025-05-01", "never"),
            raw_quarter("C", "2025-08-01", "2025-10-31"),
        ],
    };
    assert_eq!(data.parse_all(), Err(QuarterError::InvalidEndDate));
    assert_eq!(data.quarters[0].start_date, Some(date(2025, 2, 1)));
    assert_eq!(data.quarters[0].end_date, Some(date(2025, 4, 30)));
    assert_eq!(data.quarters[1].start_date, Some(date(2025, 5, 1)));
    assert!(data.quarters[1].end_date.is_none());
    assert!(data.quarters[2].start_date.is_none());
    assert!(data.quarters[2].end_date.is_none());
}

#[test]
fn parse_all_reads_every_quarter() {
    let mut data = QuarterData {
        quarters: vec![
            raw_quarter("A", "2025-02-01", "2025-04-30"),
            raw_quarter("B", "2025-05-01", "2025-07-31"),
        ],
    };
    assert_eq!(data.parse_all(), Ok(()));
    assert_eq!(data.quarters[1].end_date, Some(date(2025, 7, 31)));
    assert_eq!(QuarterData::default().parse_all(), Ok(()));
}

#[test]
fn first_matching_quarter_wins() {
    let data = QuarterData {
        quarters: vec![
            make_quarter("WIDE", "2025-01-01", "2025-12-31"),
            make_quarter("Q2_2025", "2025-05-01", "2025-07-31"),
            make_quarter("WIDE", "2026-01-01", "2026-12-31"),
        ],
    };
    assert_eq!(data.get_quarter_by_date(date(2025, 6, 15)).unwrap().key, "WIDE");
    assert_eq!(data.get_quarter_by_key("WIDE").unwrap().start_date_raw, "2025-01-01");
}

#[test]
fn current_quarter_is_one_that_holds_today() {
    let data = QuarterData {
        quarters: vec![
            make_quarter("PAST", "2000-01-01", "2000-03-31"),
            make_quarter("ALWAYS", "0001-01-01", "9999-12-31"),
        ],
    };
    let q = data.get_current_quarter().unwrap();
    assert_eq!(q.key, "ALWAYS");
    assert!(q.is_date_in_range(Date::today()));
    assert!(QuarterData::default().get_current_quarter().is_none());
}

#[test]
fn quarter_duplicate_is_a_copy() {
    let q = make_quarter("Q", "2025-02-01", "2025-04-30");
    let copy = q.duplicate();
    assert_eq!(copy.key, q.key);
    assert_eq!(copy.start_date, q.start_date);
    assert_eq!(copy.end_date, q.end_date);
    assert_eq!(copy.start_date_raw, q.start_date_raw);
}
