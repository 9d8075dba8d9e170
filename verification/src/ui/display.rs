//! What the screen shows of a day and of the statistics: texts and
//! colours, before they are drawn.

use crate::calc::metrics::{status_label, ComplianceStatus, Fraction, Ratio};
use crate::calc::quarter_calc::QuarterStats;
use crate::cmd::stats::required_percent;
use crate::format::{fixed_text, int_text, int_to_text, ratio_to_text};
use crate::text::str_eq;
use crate::ui::app::Tone;
use vstd::prelude::*;

verus! {

/// How the number of a day is drawn in the calendar.
#[derive(Debug, Clone, Copy, PartialEq, Eq)]
pub struct DayStyle {
    pub fg: Option<Tone>,
    pub bg: Option<Tone>,
    pub bold: bool,
    pub underlined: bool,
    pub reversed: bool,
    pub dim: bool,
}

/// The plain style: no colours, no emphasis.
pub open spec fn plain_style() -> DayStyle {
    DayStyle { fg: None, bg: None, bold: false, underlined: false, reversed: false, dim: false }
}

/// The style of a day, by the first rule that applies. The selected day is
/// black and bold on a ground that says what it is: orange for a flex
/// credit, yellow for a badge-in, green for a day off, white otherwise. A
/// badged day is bold and underlined, orange for a flex credit and yellow
/// otherwise; a day off is green; either is reversed if it is today. Today
/// is otherwise reversed and bold, a weekend day dim, a day with an event
/// cyan, and any other day plain.
pub open spec fn day_style(
    is_selected: bool,
    is_badged: bool,
    is_flex: bool,
    is_holiday_or_vacation: bool,
    is_today: bool,
    is_weekend: bool,
    has_event: bool,
) -> DayStyle {
    if is_selected {
        DayStyle {
            fg: Some(Tone::Black),
            bg: Some(
                if is_badged && is_flex {
                    Tone::Orange
                } else if is_badged {
                    Tone::Yellow
                } else if is_holiday_or_vacation {
                    Tone::Green
                } else {
                    Tone::White
                },
            ),
            bold: true,
            ..plain_style()
        }
    } else if is_badged {
        DayStyle {
            fg: Some(
                if is_flex {
                    Tone::Orange
                } else {
                    Tone::Yellow
                },
            ),
            bold: true,
            underlined: true,
            reversed: is_today,
            ..plain_style()
        }
    } else if is_holiday_or_vacation {
        DayStyle { fg: Some(Tone::Green), reversed: is_today, ..plain_style() }
    } else if is_today {
        DayStyle { reversed: true, bold: true, ..plain_style() }
    } else if is_weekend {
        DayStyle { dim: true, ..plain_style() }
    } else if has_event {
        DayStyle { fg: Some(Tone::Cyan), ..plain_style() }
    } else {
        plain_style()
    }
}

/// The style of a day in the calendar.
pub fn calendar_day_style(
    is_selected: bool,
    is_badged: bool,
    is_flex: bool,
    is_holiday_or_vacation: bool,
    is_today: bool,
    is_weekend: bool,
    has_event: bool,
) -> (r: DayStyle)
    ensures
        r == day_style(
            is_selected,
            is_badged,
            is_flex,
            is_holiday_or_vacation,
            is_today,
            is_weekend,
            has_event,
        ),
{
    let plain = DayStyle {
        fg: None,
        bg: None,
        bold: false,
        underlined: false,
        reversed: false,
        dim: false,
    };
    if is_selected {
        let bg = if is_badged && is_flex {
            Tone::Orange
        } else if is_badged {
            Tone::Yellow
        } else if is_holiday_or_vacation {
            Tone::Green
        } else {
            Tone::White
        };
        DayStyle { fg: Some(Tone::Black), bg: Some(bg), bold: true, ..plain }
    } else if is_badged {
        let fg = if is_flex {
            Tone::Orange
        } else {
            Tone::Yellow
        };
        DayStyle { fg: Some(fg), bold: true, underlined: true, reversed: is_today, ..plain }
    } else if is_holiday_or_vacation {
        DayStyle { fg: Some(Tone::Green), reversed: is_today, ..plain }
    } else if is_today {
        DayStyle { reversed: true, bold: true, ..plain }
    } else if is_weekend {
        DayStyle { dim: true, ..plain }
    } else if has_event {
        DayStyle { fg: Some(Tone::Cyan), ..plain }
    } else {
        plain
    }
}

/// The texts and colours of the statistics table.
#[derive(Debug, Clone, PartialEq, Eq)]
pub struct StatsDisplay {
    pub status_tone: Tone,
    pub pace_text: String,
    pub pace_tone: Tone,
    pub skip_tone: Tone,
    pub required_percent: String,
    pub still_needed_tone: Tone,
    pub rate_so_far_percent: String,
    pub rate_so_far_tone: Tone,
    pub rate_needed_value: String,
    pub rate_needed_percent: String,
    pub rate_needed_tone: Tone,
    pub office_days: i64,
}

/// The colour of a status: green for "Achieved", cyan for "On Track",
/// yellow for "At Risk", red for anything else.
pub open spec fn status_tone(status: Seq<char>) -> Tone {
    if status == status_label(ComplianceStatus::Achieved) {
        Tone::Green
    } else if status == status_label(ComplianceStatus::OnTrack) {
        Tone::Cyan
    } else if status == status_label(ComplianceStatus::AtRisk) {
        Tone::Yellow
    } else {
        Tone::Red
    }
}

/// The days ahead of pace in words, with their sign.
pub open spec fn signed_pace_text(ahead: int) -> Seq<char> {
    if ahead > 0 {
        "+"@ + int_text(ahead) + " days ahead"@
    } else if ahead < 0 {
        int_text(ahead) + " days behind"@
    } else {
        "On pace"@
    }
}

/// Whether the fraction, with a positive denominator, is at least `bound`.
pub open spec fn at_least(f: Fraction, bound: int) -> bool {
    f.denominator > 0 && f.numerator >= bound * f.denominator
}

/// Whether the fraction, with a positive denominator, is at most `bound`.
pub open spec fn at_most(f: Fraction, bound: int) -> bool {
    f.denominator > 0 && f.numerator <= bound * f.denominator
}

/// Green from `good` percent on, yellow from `fair` percent on, red under.
pub open spec fn tone_of_rate(f: Fraction, good: int, fair: int) -> Tone {
    if at_least(f, good) {
        Tone::Green
    } else if at_least(f, fair) {
        Tone::Yellow
    } else {
        Tone::Red
    }
}

/// Green up to `good` percent, yellow up to `fair` percent, red over.
pub open spec fn tone_of_demand(f: Fraction, good: int, fair: int) -> Tone {
    if at_most(f, good) {
        Tone::Green
    } else if at_most(f, fair) {
        Tone::Yellow
    } else {
        Tone::Red
    }
}

/// A ratio in percent, with one digit behind the point.
pub open spec fn short_percent_text(f: Fraction) -> Seq<char> {
    fixed_text(f, 1) + "%"@
}

/// What the statistics table shows of `stats`.
pub open spec fn display_holds(d: StatsDisplay, stats: QuarterStats) -> bool {
    &&& d.status_tone == status_tone(stats.compliance_status@)
    &&& d.pace_text@ == signed_pace_text(stats.days_ahead_of_pace as int)
    &&& d.pace_tone == (if stats.days_ahead_of_pace >= 0 {
        Tone::Green
    } else {
        Tone::Red
    })
    &&& d.skip_tone == (if stats.remaining_missable_days > 5 {
        Tone::Green
    } else if stats.remaining_missable_days > 0 {
        Tone::Yellow
    } else {
        Tone::Red
    })
    &&& d.required_percent@ == short_percent_text(
        required_percent(stats.days_required as int, stats.total_days as int),
    )
    &&& d.still_needed_tone == (if stats.days_still_needed == 0 {
        Tone::Green
    } else if stats.days_still_needed <= 5 {
        Tone::Yellow
    } else {
        Tone::White
    })
    &&& d.rate_so_far_percent@ == short_percent_text(stats.current_average@)
    &&& d.rate_so_far_tone == tone_of_rate(stats.current_average@, 50, 45)
    &&& d.rate_needed_value@ == int_text(stats.days_still_needed as int) + " / "@ + int_text(
        stats.days_left as int,
    )
    &&& d.rate_needed_percent@ == (if stats.days_left > 0 {
        short_percent_text(stats.required_future_average@)
    } else if stats.days_still_needed > 0 {
        "Infinite"@
    } else {
        "N/A"@
    })
    &&& d.rate_needed_tone == tone_of_demand(stats.required_future_average@, 50, 70)
    &&& d.office_days == stats.days_badged_in - stats.flex_days
}

fn short_percent(ratio: Ratio) -> (r: String)
    ensures
        r@ == short_percent_text(ratio@),
{
    let mut text = ratio_to_text(ratio, 1);
    text.append("%");
    text
}

fn ratio_at_least(ratio: Ratio, bound: i64) -> (r: bool)
    requires
        0 <= bound <= 100,
    ensures
        r == at_least(ratio@, bound as int),
{
    if ratio.denominator <= 0 {
        return false;
    }
    assert(0 <= bound * ratio.denominator <= 100 * 0x7fff_ffff_ffff_ffff) by (nonlinear_arith)
        requires
            0 <= bound <= 100,
            0 < ratio.denominator <= 0x7fff_ffff_ffff_ffff,
    ;
    ratio.numerator as i128 >= bound as i128 * ratio.denominator as i128
}

fn ratio_at_most(ratio: Ratio, bound: i64) -> (r: bool)
    requires
        0 <= bound <= 100,
    ensures
        r == at_most(ratio@, bound as int),
{
    if ratio.denominator <= 0 {
        return false;
    }
    assert(0 <= bound * ratio.denominator <= 100 * 0x7fff_ffff_ffff_ffff) by (nonlinear_arith)
        requires
            0 <= bound <= 100,
            0 < ratio.denominator <= 0x7fff_ffff_ffff_ffff,
    ;
    ratio.numerator as i128 <= bound as i128 * ratio.denominator as i128
}

/// The colour of a status text.
pub fn tone_of_status(status: &str) -> (r: Tone)
    ensures
        r == status_tone(status@),
{
    if str_eq(status, "Achieved") {
        Tone::Green
    } else if str_eq(status, "On Track") {
        Tone::Cyan
    } else if str_eq(status, "At Risk") {
        Tone::Yellow
    } else {
        Tone::Red
    }
}

/// The texts and colours of the statistics table.
pub fn stats_display(stats: &QuarterStats) -> (d: StatsDisplay)
    ensures
        display_holds(d, *stats),
{
    let ahead: i64 = stats.days_ahead_of_pace as i64;
    let pace_text = if ahead > 0 {
        let mut text = "+".to_owned();
        let number = int_to_text(ahead);
        text.append(number.as_str());
        text.append(" days ahead");
        text
    } else if ahead < 0 {
        let mut text = int_to_text(ahead);
        text.append(" days behind");
        text
    } else {
        "On pace".to_owned()
    };
    let required = if stats.total_days > 0 {
        Ratio { numerator: 100 * (stats.days_required as i64), denominator: stats.total_days as i64 }
    } else {
        Ratio { numerator: 0, denominator: 1 }
    };
    let mut rate_needed_value = int_to_text(stats.days_still_needed as i64);
    let left = int_to_text(stats.days_left as i64);
    rate_needed_value.append(" / ");
    rate_needed_value.append(left.as_str());
    let rate_needed_percent = if stats.days_left > 0 {
        short_percent(stats.required_future_average)
    } else if stats.days_still_needed > 0 {
        "Infinite".to_owned()
    } else {
        "N/A".to_owned()
    };
    StatsDisplay {
        status_tone: tone_of_status(stats.compliance_status.as_str()),
        pace_text,
        pace_tone: if stats.days_ahead_of_pace >= 0 {
            Tone::Green
        } else {
            Tone::Red
        },
        skip_tone: if stats.remaining_missable_days > 5 {
            Tone::Green
        } else if stats.remaining_missable_days > 0 {
            Tone::Yellow
        } else {
            Tone::Red
        },
        required_percent: short_percent(required),
        still_needed_tone: if stats.days_still_needed == 0 {
            Tone::Green
        } else if stats.days_still_needed <= 5 {
            Tone::Yellow
        } else {
            Tone::White
        },
        rate_so_far_percent: short_percent(stats.current_average),
        rate_so_far_tone: if ratio_at_least(stats.current_average, 50) {
            Tone::Green
        } else if ratio_at_least(stats.current_average, 45) {
            Tone::Yellow
        } else {
            Tone::Red
        },
        rate_needed_value,
        rate_needed_percent,
        rate_needed_tone: if ratio_at_most(stats.required_future_average, 50) {
            Tone::Green
        } else if ratio_at_most(stats.required_future_average, 70) {
            Tone::Yellow
        } else {
            Tone::Red
        },
        office_days: stats.days_badged_in as i64 - stats.flex_days as i64,
    }
}

} // verus!
