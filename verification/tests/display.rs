use rustrto::calc::metrics::Ratio;
use rustrto::calc::quarter_calc::QuarterStats;
use rustrto::date::Date;
use rustrto::ui::app::Tone;
use rustrto::ui::display::{calendar_day_style, stats_display, tone_of_status, DayStyle};
use vstd::hash_map::StringHashMap;

const PLAIN: DayStyle =
    DayStyle { fg: None, bg: None, bold: false, underlined: false, reversed: false, dim: false };

#[test]
fn test_style_selected_badged_office() {
    let s = calendar_day_style(true, true, false, false, false, false, false);
    assert_eq!(s, DayStyle { fg: Some(Tone::Black), bg: Some(Tone::Yellow), bold: true, ..PLAIN });
}

#[test]
fn test_style_selected_badged_flex() {
    let s = calendar_day_style(true, true, true, false, false, false, false);
    assert_eq!(s, DayStyle { fg: Some(Tone::Black), bg: Some(Tone::Orange), bold: true, ..PLAIN });
}

#[test]
fn test_style_selected_holiday() {
    let s = calendar_day_style(true, false, false, true, false, false, false);
    assert_eq!(s, DayStyle { fg: Some(Tone::Black), bg: Some(Tone::Green), bold: true, ..PLAIN });
}

#[test]
fn test_style_selected_plain() {
    let s = calendar_day_style(true, false, false, false, false, false, false);
    assert_eq!(s, DayStyle { fg: Some(Tone::Black), bg: Some(Tone::White), bold: true, ..PLAIN });
}

#[test]
fn test_style_badged_office_not_selected() {
    let s = calendar_day_style(false, true, false, false, false, false, false);
    assert_eq!(s, DayStyle { fg: Some(Tone::Yellow), bold: true, underlined: true, ..PLAIN });
}

#[test]
fn test_style_badged_flex_not_selected() {
    let s = calendar_day_style(false, true, true, false, false, false, false);
    assert_eq!(s, DayStyle { fg: Some(Tone::Orange), bold: true, underlined: true, ..PLAIN });
}

#[test]
fn test_style_badged_today() {
    let s = calendar_day_style(false, true, false, false, true, false, false);
    assert_eq!(
        s,
        DayStyle { fg: Some(Tone::Yellow), bold: true, underlined: true, reversed: true, ..PLAIN }
    );
}

#[test]
fn test_style_holiday_not_selected() {
    let s = calendar_day_style(false, false, false, true, false, false, false);
    assert_eq!(s, DayStyle { fg: Some(Tone::Green), ..PLAIN });
}

#[test]
fn test_style_today_plain() {
    let s = calendar_day_style(false, false, false, false, true, false, false);
    assert_eq!(s, DayStyle { reversed: true, bold: true, ..PLAIN });
}

#[test]
fn test_style_weekend() {
    let s = calendar_day_style(false, false, false, false, false, true, false);
    assert_eq!(s, DayStyle { dim: true, ..PLAIN });
}

#[test]
fn test_style_has_event() {
    let s = calendar_day_style(false, false, false, false, false, false, true);
    assert_eq!(s, DayStyle { fg: Some(Tone::Cyan), ..PLAIN });
}

#[test]
fn test_style_plain_workday() {
    let s = calendar_day_style(false, false, false, false, false, false, false);
    assert_eq!(s, PLAIN);
}

#[test]
fn style_of_a_day_off_today_is_reversed() {
    let s = calendar_day_style(false, false, false, true, true, true, true);
    assert_eq!(s, DayStyle { fg: Some(Tone::Green), reversed: true, ..PLAIN });
}

#[test]
fn selection_wins_over_everything() {
    let s = calendar_day_style(true, false, true, false, true, true, true);
    assert_eq!(s, DayStyle { fg: Some(Tone::Black), bg: Some(Tone::White), bold: true, ..PLAIN });
}

fn d(y: i32, m: u32, day: u32) -> Date {
    Date::from_ymd(y, m, day).unwrap()
}

fn make_stats(status: &str, ahead: i32, left: i32, needed: i32, missable: i32) -> QuarterStats {
    QuarterStats {
        quarter: "Q1_2025".to_string(),
        start_date: d(2025, 1, 1),
        end_date: d(2025, 3, 31),
        days_badged_in: 30,
        flex_days: 5,
        days_thus_far: 50,
        days_left: left,
        total_calendar_days: 90,
        available_workdays: 62,
        total_days: 60,
        days_required: 30,
        days_still_needed: needed,
        days_off: 3,
        holidays: 1,
        vacation_days: 2,
        current_average: Ratio { numerator: 3000, denominator: 50 },
        required_future_average: Ratio { numerator: 100 * needed as i64, denominator: 10 },
        compliance_status: status.to_string(),
        days_ahead_of_pace: ahead,
        remaining_missable_days: missable,
        projected_completion_date: None,
        workday_stats: StringHashMap::new(),
    }
}

#[test]
fn status_tones() {
    assert_eq!(tone_of_status("Achieved"), Tone::Green);
    assert_eq!(tone_of_status("On Track"), Tone::Cyan);
    assert_eq!(tone_of_status("At Risk"), Tone::Yellow);
    assert_eq!(tone_of_status("Impossible"), Tone::Red);
    assert_eq!(tone_of_status("anything"), Tone::Red);
}

#[test]
fn display_of_a_quarter_ahead() {
    let shown = stats_display(&make_stats("On Track", 3, 10, 4, 8));
    assert_eq!(shown.status_tone, Tone::Cyan);
    assert_eq!(shown.pace_text, "+3 days ahead");
    assert_eq!(shown.pace_tone, Tone::Green);
    assert_eq!(shown.skip_tone, Tone::Green);
    assert_eq!(shown.required_percent, "50.0%");
    assert_eq!(shown.still_needed_tone, Tone::Yellow);
    assert_eq!(shown.rate_so_far_percent, "60.0%");
    assert_eq!(shown.rate_so_far_tone, Tone::Green);
    assert_eq!(shown.rate_needed_value, "4 / 10");
    assert_eq!(shown.rate_needed_percent, "40.0%");
    assert_eq!(shown.rate_needed_tone, Tone::Green);
    assert_eq!(shown.office_days, 25);
}

#[test]
fn display_of_a_quarter_behind() {
    let shown = stats_display(&make_stats("At Risk", -4, 10, 6, 3));
    assert_eq!(shown.status_tone, Tone::Yellow);
    assert_eq!(shown.pace_text, "-4 days behind");
    assert_eq!(shown.pace_tone, Tone::Red);
    assert_eq!(shown.skip_tone, Tone::Yellow);
    assert_eq!(shown.still_needed_tone, Tone::White);
    assert_eq!(shown.rate_needed_percent, "60.0%");
    assert_eq!(shown.rate_needed_tone, Tone::Yellow);
}

#[test]
fn display_at_the_edges() {
    let shown = stats_display(&make_stats("Impossible", 0, 0, 8, 0));
    assert_eq!(shown.status_tone, Tone::Red);
    assert_eq!(shown.pace_text, "On pace");
    assert_eq!(shown.pace_tone, Tone::Green);
    assert_eq!(shown.skip_tone, Tone::Red);
    assert_eq!(shown.rate_needed_value, "8 / 0");
    assert_eq!(shown.rate_needed_percent, "Infinite");
    assert_eq!(shown.rate_needed_tone, Tone::Red);
    let shown = stats_display(&make_stats("Achieved", 5, 0, 0, 6));
    assert_eq!(shown.status_tone, Tone::Green);
    assert_eq!(shown.rate_needed_percent, "N/A");
    assert_eq!(shown.still_needed_tone, Tone::Green);
    assert_eq!(shown.rate_needed_tone, Tone::Green);
}

#[test]
fn rate_so_far_tones_by_threshold() {
    let mut stats = make_stats("On Track", 0, 10, 4, 8);
    stats.current_average = Ratio { numerator: 50, denominator: 1 };
    assert_eq!(stats_display(&stats).rate_so_far_tone, Tone::Green);
    stats.current_average = Ratio { numerator: 4999, denominator: 100 };
    assert_eq!(stats_display(&stats).rate_so_far_tone, Tone::Yellow);
    stats.current_average = Ratio { numerator: 45, denominator: 1 };
    assert_eq!(stats_display(&stats).rate_so_far_tone, Tone::Yellow);
    stats.current_average = Ratio { numerator: 4499, denominator: 100 };
    assert_eq!(stats_display(&stats).rate_so_far_tone, Tone::Red);
    stats.required_future_average = Ratio { numerator: 50, denominator: 1 };
    assert_eq!(stats_display(&stats).rate_needed_tone, Tone::Green);
    stats.required_future_average = Ratio { numerator: 70, denominator: 1 };
    assert_eq!(stats_display(&stats).rate_needed_tone, Tone::Yellow);
    stats.required_future_average = Ratio { numerator: 7001, denominator: 100 };
    assert_eq!(stats_display(&stats).rate_needed_tone, Tone::Red);
    stats.total_days = 0;
    assert_eq!(stats_display(&stats).required_percent, "0.0%");
}
