//! The list of vacations as text.

use crate::data::vacation::{Vacation, VacationData};
use crate::format::{decimal_text, nat_to_text, pad_right, padded};
use vstd::prelude::*;

verus! {

/// One line of the list: two spaces, then the number in a column of 4, the
/// destination in a column of 24, the start and the end in columns of 14,
/// and the approval, a space between them.
pub open spec fn vacation_line(
    number: Seq<char>,
    destination: Seq<char>,
    start: Seq<char>,
    end: Seq<char>,
    approved: Seq<char>,
) -> Seq<char> {
    "  "@ + padded(number, 4) + " "@ + padded(destination, 24) + " "@ + padded(start, 14) + " "@
        + padded(end, 14) + " "@ + approved + "\n"@
}

/// Whether a vacation is approved, in a word.
pub open spec fn approval(approved: bool) -> Seq<char> {
    if approved {
        "Yes"@
    } else {
        "No"@
    }
}

/// The lines of the vacations, in their order, numbered from 1.
pub open spec fn vacation_lines(vacations: Seq<Vacation>) -> Seq<char>
    decreases vacations.len(),
{
    if vacations.len() == 0 {
        Seq::empty()
    } else {
        vacation_lines(vacations.drop_last()) + vacation_line(
            decimal_text(vacations.len()),
            vacations.last().destination@,
            vacations.last().start_date@,
            vacations.last().end_date@,
            approval(vacations.last().approved),
        )
    }
}

/// The list of vacations: a title, a rule, the column heads, a line for
/// each vacation, a rule, and the number of vacations.
pub open spec fn vacations_report(vacations: Seq<Vacation>) -> Seq<char> {
    "Vacations\n"@ + "---\n"@ + vacation_line(
        "#"@,
        "Destination"@,
        "Start"@,
        "End"@,
        "Approved"@,
    ) + vacation_lines(vacations) + "---\n"@ + "Total: "@ + decimal_text(vacations.len())
        + " vacation(s)\n"@
}

fn write_line(
    out: &mut String,
    number: &str,
    destination: &str,
    start: &str,
    end: &str,
    approved: &str,
)
    ensures
        final(out)@ == old(out)@ + vacation_line(number@, destination@, start@, end@, approved@),
{
    let number_column = pad_right(number, 4);
    let destination_column = pad_right(destination, 24);
    let start_column = pad_right(start, 14);
    let end_column = pad_right(end, 14);
    out.append("  ");
    out.append(number_column.as_str());
    out.append(" ");
    out.append(destination_column.as_str());
    out.append(" ");
    out.append(start_column.as_str());
    out.append(" ");
    out.append(end_column.as_str());
    out.append(" ");
    out.append(approved);
    out.append("\n");
    assert(out@ =~= old(out)@ + vacation_line(number@, destination@, start@, end@, approved@));
}

/// The list of vacations as text.
pub fn write_vacations(data: &VacationData) -> (out: String)
    ensures
        out@ == vacations_report(data.vacations@),
{
    let mut out = String::new();
    out.append("Vacations\n");
    out.append("---\n");
    write_line(&mut out, "#", "Destination", "Start", "End", "Approved");
    let ghost head = out@;
    let mut n: usize = 0;
    assert(data.vacations@.take(0) =~= Seq::<Vacation>::empty());
    assert(out@ =~= head + vacation_lines(data.vacations@.take(0)));
    while n < data.vacations.len()
        invariant
            n <= data.vacations.len(),
            out@ == head + vacation_lines(data.vacations@.take(n as int)),
        decreases data.vacations.len() - n,
    {
        let vacation = &data.vacations[n];
        let number = nat_to_text(n as u128 + 1);
        write_line(
            &mut out,
            number.as_str(),
            vacation.destination.as_str(),
            vacation.start_date.as_str(),
            vacation.end_date.as_str(),
            if vacation.approved {
                "Yes"
            } else {
                "No"
            },
        );
        proof {
            let next = data.vacations@.take(n + 1);
            assert(next.drop_last() =~= data.vacations@.take(n as int));
            assert(next.last() == *vacation);
            assert(out@ =~= head + vacation_lines(next));
        }
        n = n + 1;
    }
    assert(data.vacations@.take(n as int) =~= data.vacations@);
    let count = nat_to_text(data.vacations.len() as u128);
    out.append("---\n");
    out.append("Total: ");
    out.append(count.as_str());
    out.append(" vacation(s)\n");
    assert(head =~= "Vacations\n"@ + "---\n"@ + vacation_line(
        "#"@,
        "Destination"@,
        "Start"@,
        "End"@,
        "Approved"@,
    ));
    assert(out@ =~= vacations_report(data.vacations@));
    out
}

} // verus!
