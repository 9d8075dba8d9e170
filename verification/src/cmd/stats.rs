//! The statistics of a quarter as text.

use crate::calc::metrics::{Fraction, Ratio};
use crate::calc::quarter_calc::QuarterStats;
use crate::data::quarter::day_number;
use crate::date::date_key;
use crate::format::{fixed_text, int_text, int_to_text, pad_right, padded, ratio_to_text};
use vstd::prelude::*;

verus! {

/// A line with a label in a column of 26, a space and a value.
pub open spec fn labelled_line(label: Seq<char>, value: Seq<char>) -> Seq<char> {
    padded(label, 26) + " "@ + value + "\n"@
}

/// A line with a label in a column of 26 and a ratio: the two numbers, and
/// what they come to.
pub open spec fn ratio_line(label: Seq<char>, over: int, under: int, result: Seq<char>) -> Seq<
    char,
> {
    padded(label, 26) + " ("@ + int_text(over) + " / "@ + int_text(under) + ")  = "@ + result
        + "\n"@
}

/// A ratio in percent, with two digits behind the point.
pub open spec fn percent_text(f: Fraction) -> Seq<char> {
    fixed_text(f, 2) + "%"@
}

/// The quota in percent of the eligible days; zero without eligible days.
pub open spec fn required_percent(required: int, total: int) -> Fraction {
    if total > 0 {
        Fraction { numerator: 100 * required, denominator: total }
    } else {
        Fraction { numerator: 0, denominator: 1 }
    }
}

/// The rate needed over the days left: the percentage if days are left,
/// "Infinite" if none is left and days are needed, "N/A" otherwise.
pub open spec fn rate_needed_text(left: int, needed: int, future: Fraction) -> Seq<char> {
    if left > 0 {
        percent_text(future)
    } else if needed > 0 {
        "Infinite"@
    } else {
        "N/A"@
    }
}

/// The days ahead of pace in words.
pub open spec fn pace_text(ahead: int) -> Seq<char> {
    if ahead > 0 {
        int_text(ahead) + " days ahead"@
    } else if ahead < 0 {
        int_text(-ahead) + " days behind"@
    } else {
        "On pace"@
    }
}

/// The line of the projected completion, if there is a projection.
pub open spec fn projection_line(projected: Option<int>) -> Seq<char> {
    match projected {
        Some(day) => labelled_line("Projected Completion:"@, date_key(day)),
        None => Seq::empty(),
    }
}

/// The statistics as text, section by section.
pub open spec fn stats_report(stats: QuarterStats) -> Seq<char> {
    "Quarter Stats for "@ + stats.quarter@ + "\n"@ + "Range: ["@ + date_key(stats.start_date@)
        + " - "@ + date_key(stats.end_date@) + "]\n"@ + "---\n"@ + labelled_line(
        "Status:"@,
        stats.compliance_status@,
    ) + labelled_line("Days Ahead of Pace:"@, pace_text(stats.days_ahead_of_pace as int))
        + labelled_line("Skippable Days Left:"@, int_text(stats.remaining_missable_days as int))
        + "---\n"@ + ratio_line(
        "Goal (50% Required):"@,
        stats.days_required as int,
        stats.total_days as int,
        percent_text(required_percent(stats.days_required as int, stats.total_days as int)),
    ) + labelled_line("Badged In:"@, int_text(stats.days_badged_in as int)) + labelled_line(
        "Still Needed:"@,
        int_text(stats.days_still_needed as int),
    ) + ratio_line(
        "Rate So Far:"@,
        stats.days_badged_in as int,
        stats.days_thus_far as int,
        percent_text(stats.current_average@),
    ) + "---\n"@ + ratio_line(
        "Rate Needed (Remaining):"@,
        stats.days_still_needed as int,
        stats.days_left as int,
        rate_needed_text(
            stats.days_left as int,
            stats.days_still_needed as int,
            stats.required_future_average@,
        ),
    ) + projection_line(day_number(stats.projected_completion_date)) + "---\n"@ + labelled_line(
        "Holidays:"@,
        int_text(stats.holidays as int),
    ) + labelled_line("Vacation Days:"@, int_text(stats.vacation_days as int)) + labelled_line(
        "Total Days Off:"@,
        int_text(stats.days_off as int),
    ) + "---\n"@ + labelled_line(
        "Office Days:"@,
        int_text(stats.days_badged_in - stats.flex_days),
    ) + labelled_line("Flex Credits:"@, int_text(stats.flex_days as int)) + labelled_line(
        "Total Badged In:"@,
        int_text(stats.days_badged_in as int),
    ) + "---\n"@
}

fn write_labelled(out: &mut String, label: &str, value: &str)
    ensures
        final(out)@ == old(out)@ + labelled_line(label@, value@),
{
    let column = pad_right(label, 26);
    out.append(column.as_str());
    out.append(" ");
    out.append(value);
    out.append("\n");
    assert(out@ =~= old(out)@ + labelled_line(label@, value@));
}

fn write_number(out: &mut String, label: &str, value: i64)
    ensures
        final(out)@ == old(out)@ + labelled_line(label@, int_text(value as int)),
{
    let text = int_to_text(value);
    write_labelled(out, label, text.as_str());
}

fn write_ratio(out: &mut String, label: &str, over: i32, under: i32, result: &str)
    ensures
        final(out)@ == old(out)@ + ratio_line(label@, over as int, under as int, result@),
{
    let column = pad_right(label, 26);
    let over_text = int_to_text(over as i64);
    let under_text = int_to_text(under as i64);
    out.append(column.as_str());
    out.append(" (");
    out.append(over_text.as_str());
    out.append(" / ");
    out.append(under_text.as_str());
    out.append(")  = ");
    out.append(result);
    out.append("\n");
    assert(out@ =~= old(out)@ + ratio_line(label@, over as int, under as int, result@));
}

fn percent(ratio: Ratio) -> (r: String)
    ensures
        r@ == percent_text(ratio@),
{
    let mut text = ratio_to_text(ratio, 2);
    text.append("%");
    text
}

/// The statistics of a quarter as text.
pub fn write_stats(stats: &QuarterStats) -> (out: String)
    ensures
        out@ == stats_report(*stats),
{
    let required = if stats.total_days > 0 {
        Ratio { numerator: 100 * (stats.days_required as i64), denominator: stats.total_days as i64 }
    } else {
        Ratio { numerator: 0, denominator: 1 }
    };
    let required_text = percent(required);
    let current_text = percent(stats.current_average);
    let rate_needed = if stats.days_left > 0 {
        percent(stats.required_future_average)
    } else if stats.days_still_needed > 0 {
        "Infinite".to_owned()
    } else {
        "N/A".to_owned()
    };
    let ahead: i64 = stats.days_ahead_of_pace as i64;
    let pace = if ahead > 0 {
        let mut text = int_to_text(ahead);
        text.append(" days ahead");
        text
    } else if ahead < 0 {
        let mut text = int_to_text(-ahead);
        text.append(" days behind");
        text
    } else {
        "On pace".to_owned()
    };
    let office_days: i64 = stats.days_badged_in as i64 - stats.flex_days as i64;
    let start = stats.start_date.key();
    let end = stats.end_date.key();

    let mut out = String::new();
    out.append("Quarter Stats for ");
    out.append(stats.quarter.as_str());
    out.append("\n");
    out.append("Range: [");
    out.append(start.as_str());
    out.append(" - ");
    out.append(end.as_str());
    out.append("]\n");
    out.append("---\n");
    write_labelled(&mut out, "Status:", stats.compliance_status.as_str());
    write_labelled(&mut out, "Days Ahead of Pace:", pace.as_str());
    write_number(&mut out, "Skippable Days Left:", stats.remaining_missable_days as i64);
    out.append("---\n");
    write_ratio(
        &mut out,
        "Goal (50% Required):",
        stats.days_required,
        stats.total_days,
        required_text.as_str(),
    );
    write_number(&mut out, "Badged In:", stats.days_badged_in as i64);
    write_number(&mut out, "Still Needed:", stats.days_still_needed as i64);
    write_ratio(
        &mut out,
        "Rate So Far:",
        stats.days_badged_in,
        stats.days_thus_far,
        current_text.as_str(),
    );
    out.append("---\n");
    write_ratio(
        &mut out,
        "Rate Needed (Remaining):",
        stats.days_still_needed,
        stats.days_left,
        rate_needed.as_str(),
    );
    let ghost before_projection = out@;
    match stats.projected_completion_date {
        Some(date) => {
            let text = date.key();
            write_labelled(&mut out, "Projected Completion:", text.as_str());
        },
        None => {
            assert(out@ =~= before_projection + projection_line(None));
        },
    }
    assert(out@ == before_projection + projection_line(
        day_number(stats.projected_completion_date),
    ));
    out.append("---\n");
    write_number(&mut out, "Holidays:", stats.holidays as i64);
    write_number(&mut out, "Vacation Days:", stats.vacation_days as i64);
    write_number(&mut out, "Total Days Off:", stats.days_off as i64);
    out.append("---\n");
    write_number(&mut out, "Office Days:", office_days);
    write_number(&mut out, "Flex Credits:", stats.flex_days as i64);
    write_number(&mut out, "Total Badged In:", stats.days_badged_in as i64);
    out.append("---\n");
    out
}

} // verus!
