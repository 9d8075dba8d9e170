//! The list of holidays as text.

use crate::data::holiday::{Holiday, HolidayData};
use crate::format::{decimal_text, nat_to_text, pad_right, padded};
use vstd::prelude::*;

verus! {

/// One line of the list: two spaces, the date in a column of 14, a space,
/// the name.
pub open spec fn holiday_line(date: Seq<char>, name: Seq<char>) -> Seq<char> {
    "  "@ + padded(date, 14) + " "@ + name + "\n"@
}

/// The lines of the holidays, in their order.
pub open spec fn holiday_lines(holidays: Seq<Holiday>) -> Seq<char>
    decreases holidays.len(),
{
    if holidays.len() == 0 {
        Seq::empty()
    } else {
        holiday_lines(holidays.drop_last()) + holiday_line(
            holidays.last().date@,
            holidays.last().name@,
        )
    }
}

/// The list of holidays: a title, a rule, the column heads, a line for each
/// holiday, a rule, and the number of holidays.
pub open spec fn holidays_report(holidays: Seq<Holiday>) -> Seq<char> {
    "Holidays\n"@ + "---\n"@ + holiday_line("Date"@, "Name"@) + holiday_lines(holidays) + "---\n"@
        + "Total: "@ + decimal_text(holidays.len()) + " holiday(s)\n"@
}

fn write_line(out: &mut String, date: &str, name: &str)
    ensures
        final(out)@ == old(out)@ + holiday_line(date@, name@),
{
    let column = pad_right(date, 14);
    out.append("  ");
    out.append(column.as_str());
    out.append(" ");
    out.append(name);
    out.append("\n");
    assert(out@ =~= old(out)@ + holiday_line(date@, name@));
}

/// The list of holidays as text.
pub fn write_holidays(data: &HolidayData) -> (out: String)
    ensures
        out@ == holidays_report(data.holidays@),
{
    let mut out = String::new();
    out.append("Holidays\n");
    out.append("---\n");
    write_line(&mut out, "Date", "Name");
    let ghost head = out@;
    let mut n: usize = 0;
    assert(data.holidays@.take(0) =~= Seq::<Holiday>::empty());
    assert(out@ =~= head + holiday_lines(data.holidays@.take(0)));
    while n < data.holidays.len()
        invariant
            n <= data.holidays.len(),
            out@ == head + holiday_lines(data.holidays@.take(n as int)),
        decreases data.holidays.len() - n,
    {
        let holiday = &data.holidays[n];
        write_line(&mut out, holiday.date.as_str(), holiday.name.as_str());
        proof {
            let next = data.holidays@.take(n + 1);
            assert(next.drop_last() =~= data.holidays@.take(n as int));
            assert(next.last() == *holiday);
            assert(out@ =~= head + holiday_lines(next));
        }
        n = n + 1;
    }
    assert(data.holidays@.take(n as int) =~= data.holidays@);
    let count = nat_to_text(data.holidays.len() as u128);
    out.append("---\n");
    out.append("Total: ");
    out.append(count.as_str());
    out.append(" holiday(s)\n");
    assert(head =~= "Holidays\n"@ + "---\n"@ + holiday_line("Date"@, "Name"@));
    assert(out@ =~= holidays_report(data.holidays@));
    out
}

} // verus!
