//! Quarters: the named date ranges against which attendance is measured.

use crate::date::{in_date_range, parsed_date, Date};
use vstd::prelude::*;

verus! {

/// What can be wrong with a quarter's dates.
#[derive(Debug, Clone, Copy, PartialEq, Eq)]
pub enum QuarterError {
    /// The text of the start date is no date.
    InvalidStartDate,
    /// The text of the end date is no date.
    InvalidEndDate,
    /// The start date or the end date was never read from its text.
    UnresolvedRange,
}

/// A quarter: a key, labels, and a date range, as text and, once
/// [`QuarterConfig::parse_dates`] has read it, as dates.
#[derive(Clone, Debug)]
pub struct QuarterConfig {
    pub key: String,
    pub quarter: String,
    pub year: String,
    pub start_date_raw: String,
    pub end_date_raw: String,
    pub start_date: Option<Date>,
    pub end_date: Option<Date>,
}

/// A [`QuarterConfig`] as plain values: texts as their characters, dates as
/// their day numbers.
pub struct QuarterConfigView {
    pub key: Seq<char>,
    pub quarter: Seq<char>,
    pub year: Seq<char>,
    pub start_date_raw: Seq<char>,
    pub end_date_raw: Seq<char>,
    pub start_date: Option<int>,
    pub end_date: Option<int>,
}

/// The day number of a date that may be missing.
pub open spec fn day_number(date: Option<Date>) -> Option<int> {
    match date {
        Some(d) => Some(d@),
        None => None,
    }
}

impl View for QuarterConfig {
    type V = QuarterConfigView;

    open spec fn view(&self) -> QuarterConfigView {
        QuarterConfigView {
            key: self.key@,
            quarter: self.quarter@,
            year: self.year@,
            start_date_raw: self.start_date_raw@,
            end_date_raw: self.end_date_raw@,
            start_date: day_number(self.start_date),
            end_date: day_number(self.end_date),
        }
    }
}

impl Default for QuarterConfig {
    fn default() -> (r: QuarterConfig)
        ensures
            r@ == (QuarterConfigView {
                key: Seq::empty(),
                quarter: Seq::empty(),
                year: Seq::empty(),
                start_date_raw: Seq::empty(),
                end_date_raw: Seq::empty(),
                start_date: None,
                end_date: None,
            }),
    {
        QuarterConfig {
            key: String::new(),
            quarter: String::new(),
            year: String::new(),
            start_date_raw: String::new(),
            end_date_raw: String::new(),
            start_date: None,
            end_date: None,
        }
    }
}

/// The quarter after its dates were read from their texts. The start date
/// is read first; if its text is no date, nothing changes. The end date is
/// read second; if its text is no date, the start date stays read.
pub open spec fn after_parse(q: QuarterConfigView) -> QuarterConfigView {
    match parsed_date(q.start_date_raw) {
        None => q,
        Some(start) => match parsed_date(q.end_date_raw) {
            None => QuarterConfigView { start_date: Some(start), ..q },
            Some(end) => QuarterConfigView { start_date: Some(start), end_date: Some(end), ..q },
        },
    }
}

/// Whether reading the quarter's dates succeeds, and which text it fails
/// on if it does not.
pub open spec fn parse_outcome(q: QuarterConfigView) -> Result<(), QuarterError> {
    if parsed_date(q.start_date_raw) is None {
        Err(QuarterError::InvalidStartDate)
    } else if parsed_date(q.end_date_raw) is None {
        Err(QuarterError::InvalidEndDate)
    } else {
        Ok(())
    }
}

/// Whether day `day` lies in the quarter's range. A quarter whose dates
/// were not read holds no day.
pub open spec fn quarter_holds(q: QuarterConfigView, day: int) -> bool {
    match (q.start_date, q.end_date) {
        (Some(start), Some(end)) => start <= day <= end,
        _ => false,
    }
}

impl QuarterConfig {
    /// Reads `start_date` and `end_date` from their texts.
    pub fn parse_dates(&mut self) -> (r: Result<(), QuarterError>)
        ensures
            final(self)@ == after_parse(old(self)@),
            r == parse_outcome(old(self)@),
    {
        match Date::parse(self.start_date_raw.as_str()) {
            Ok(start) => {
                self.start_date = Some(start);
            },
            Err(_) => {
                return Err(QuarterError::InvalidStartDate);
            },
        }
        match Date::parse(self.end_date_raw.as_str()) {
            Ok(end) => {
                self.end_date = Some(end);
            },
            Err(_) => {
                return Err(QuarterError::InvalidEndDate);
            },
        }
        Ok(())
    }

    /// Whether `date` lies between the start date and the end date, both
    /// included. `false` if either was not read.
    pub fn is_date_in_range(&self, date: Date) -> (r: bool)
        ensures
            r == quarter_holds(self@, date@),
    {
        match (self.start_date, self.end_date) {
            (Some(start), Some(end)) => date.is_within(start, end),
            _ => false,
        }
    }

    /// A copy of the quarter.
    pub fn duplicate(&self) -> (r: QuarterConfig)
        ensures
            r == *self,
    {
        QuarterConfig {
            key: self.key.clone(),
            quarter: self.quarter.clone(),
            year: self.year.clone(),
            start_date_raw: self.start_date_raw.clone(),
            end_date_raw: self.end_date_raw.clone(),
            start_date: self.start_date,
            end_date: self.end_date,
        }
    }
}

/// The configured quarters, in their order.
#[derive(Debug)]
pub struct QuarterData {
    pub quarters: Vec<QuarterConfig>,
}

impl Default for QuarterData {
    fn default() -> (r: QuarterData)
        ensures
            r.quarters@ == Seq::<QuarterConfig>::empty(),
    {
        QuarterData { quarters: Vec::new() }
    }
}

/// Whether `quarters[i]` is the first quarter of the list that holds day
/// `day`.
pub open spec fn is_first_quarter_holding(quarters: Seq<QuarterConfig>, day: int, i: int) -> bool {
    &&& 0 <= i < quarters.len()
    &&& quarter_holds(quarters[i]@, day)
    &&& forall|j: int| 0 <= j < i ==> !quarter_holds((#[trigger] quarters[j])@, day)
}

/// Whether `found` is what the search for the first quarter that holds day
/// `day` comes to: that quarter, or nothing where no quarter of the list
/// holds the day.
pub open spec fn is_quarter_of_day(
    quarters: Seq<QuarterConfig>,
    day: int,
    found: Option<&QuarterConfig>,
) -> bool {
    match found {
        Some(q) => exists|i: int| is_first_quarter_holding(quarters, day, i) && *q == quarters[i],
        None => forall|i: int|
            0 <= i < quarters.len() ==> !quarter_holds((#[trigger] quarters[i])@, day),
    }
}

/// Whether `quarters[i]` is the first quarter of the list with the key
/// `key`.
pub open spec fn is_first_quarter_keyed(quarters: Seq<QuarterConfig>, key: Seq<char>, i: int) -> bool {
    &&& 0 <= i < quarters.len()
    &&& quarters[i].key@ == key
    &&& forall|j: int| 0 <= j < i ==> (#[trigger] quarters[j]).key@ != key
}

/// The earlier of two days that may be missing.
pub open spec fn earlier_of(a: Option<int>, b: Option<int>) -> Option<int> {
    match (a, b) {
        (Some(x), Some(y)) => if y < x {
            Some(y)
        } else {
            Some(x)
        },
        (Some(x), None) => Some(x),
        (None, y) => y,
    }
}

/// The later of two days that may be missing.
pub open spec fn later_of(a: Option<int>, b: Option<int>) -> Option<int> {
    match (a, b) {
        (Some(x), Some(y)) => if y > x {
            Some(y)
        } else {
            Some(x)
        },
        (Some(x), None) => Some(x),
        (None, y) => y,
    }
}

/// The earliest start date among the quarters of year `year` whose start
/// date was read.
pub open spec fn earliest_start(quarters: Seq<QuarterConfig>, year: Seq<char>) -> Option<int>
    decreases quarters.len(),
{
    if quarters.len() == 0 {
        None
    } else if quarters.last().year@ == year {
        earlier_of(
            earliest_start(quarters.drop_last(), year),
            day_number(quarters.last().start_date),
        )
    } else {
        earliest_start(quarters.drop_last(), year)
    }
}

/// The latest end date among the quarters of year `year` whose end date
/// was read.
pub open spec fn latest_end(quarters: Seq<QuarterConfig>, year: Seq<char>) -> Option<int>
    decreases quarters.len(),
{
    if quarters.len() == 0 {
        None
    } else if quarters.last().year@ == year {
        later_of(latest_end(quarters.drop_last(), year), day_number(quarters.last().end_date))
    } else {
        latest_end(quarters.drop_last(), year)
    }
}

/// The range of year `year`: from the earliest start date to the latest
/// end date of its quarters. There is none unless a start date and an end
/// date were read.
pub open spec fn year_span(quarters: Seq<QuarterConfig>, year: Seq<char>) -> Option<(int, int)> {
    match (earliest_start(quarters, year), latest_end(quarters, year)) {
        (Some(start), Some(end)) => Some((start, end)),
        _ => None,
    }
}

/// The index of the first quarter whose dates cannot be read, or the
/// number of quarters if all can.
pub open spec fn first_unreadable(quarters: Seq<QuarterConfig>) -> int
    decreases quarters.len(),
{
    if quarters.len() == 0 {
        0
    } else if parse_outcome(quarters[0]@) is Err {
        0
    } else {
        1 + first_unreadable(quarters.skip(1))
    }
}

impl QuarterData {
    /// Reads the dates of the quarters in their order, up to the first
    /// quarter with a text that is no date; the quarters after that one are
    /// left as they are.
    pub fn parse_all(&mut self) -> (r: Result<(), QuarterError>)
        ensures
            final(self).quarters@.len() == old(self).quarters@.len(),
            forall|i: int|
                0 <= i < old(self).quarters@.len() ==> (#[trigger] final(self).quarters@[i])@ == (
                if i <= first_unreadable(old(self).quarters@) {
                    after_parse(old(self).quarters@[i]@)
                } else {
                    old(self).quarters@[i]@
                }),
            r == (if first_unreadable(old(self).quarters@) < old(self).quarters@.len() {
                parse_outcome(
                    old(self).quarters@[first_unreadable(old(self).quarters@)]@,
                )
            } else {
                Ok(())
            }),
    {
        let ghost orig = self.quarters@;
        let mut n: usize = 0;
        while n < self.quarters.len()
            invariant
                orig == old(self).quarters@,
                self.quarters@.len() == orig.len(),
                n <= orig.len(),
                forall|i: int| 0 <= i < n ==> parse_outcome((#[trigger] orig[i])@) is Ok,
                forall|i: int|
                    0 <= i < orig.len() ==> (#[trigger] self.quarters@[i])@ == (if i < n {
                        after_parse(orig[i]@)
                    } else {
                        orig[i]@
                    }),
            decreases orig.len() - n,
        {
            let outcome = self.quarters[n].parse_dates();
            match outcome {
                Ok(()) => {},
                Err(e) => {
                    proof {
                        lemma_first_unreadable(orig, n as int);
                    }
                    return Err(e);
                },
            }
            n = n + 1;
        }
        proof {
            lemma_first_unreadable(orig, orig.len() as int);
        }
        Ok(())
    }

    /// The first quarter that holds `date`.
    pub fn get_quarter_by_date(&self, date: Date) -> (r: Option<&QuarterConfig>)
        ensures
            match r {
                Some(q) => exists|i: int|
                    is_first_quarter_holding(self.quarters@, date@, i) && *q == self.quarters@[i],
                None => forall|i: int|
                    0 <= i < self.quarters@.len() ==> !quarter_holds(
                        (#[trigger] self.quarters@[i])@,
                        date@,
                    ),
            },
    {
        match self.position_by_date(date) {
            Some(i) => Some(&self.quarters[i]),
            None => None,
        }
    }

    /// The place in the list of the first quarter that holds `date`.
    pub fn position_by_date(&self, date: Date) -> (r: Option<usize>)
        ensures
            match r {
                Some(i) => is_first_quarter_holding(self.quarters@, date@, i as int),
                None => forall|i: int|
                    0 <= i < self.quarters@.len() ==> !quarter_holds(
                        (#[trigger] self.quarters@[i])@,
                        date@,
                    ),
            },
    {
        let mut n: usize = 0;
        while n < self.quarters.len()
            invariant
                n <= self.quarters.len(),
                forall|i: int| 0 <= i < n ==> !quarter_holds((#[trigger] self.quarters@[i])@, date@),
            decreases self.quarters.len() - n,
        {
            if self.quarters[n].is_date_in_range(date) {
                return Some(n);
            }
            n = n + 1;
        }
        None
    }

    /// The first quarter that holds today's date by the local clock.
    /// Whichever day the clock says, the result is what
    /// [`QuarterData::get_quarter_by_date`] finds for that day: the first
    /// quarter that holds it, and nothing only where no quarter holds it.
    pub fn get_current_quarter(&self) -> (r: Option<&QuarterConfig>)
        ensures
            exists|day: int|
                in_date_range(day) && #[trigger] is_quarter_of_day(self.quarters@, day, r),
    {
        let today = Date::today();
        let found = self.get_quarter_by_date(today);
        assert(is_quarter_of_day(self.quarters@, today@, found));
        found
    }

    /// The range of year `year`: from the earliest start date to the latest
    /// end date of its quarters, if a start date and an end date were read.
    pub fn year_range(&self, year: &str) -> (r: Option<(Date, Date)>)
        ensures
            match year_span(self.quarters@, year@) {
                Some((start, end)) => r matches Some(range) && range.0@ == start && range.1@
                    == end,
                None => r is None,
            },
    {
        let wanted: String = year.to_owned();
        let mut start: Option<Date> = None;
        let mut end: Option<Date> = None;
        let mut n: usize = 0;
        assert(self.quarters@.take(0) =~= Seq::<QuarterConfig>::empty());
        while n < self.quarters.len()
            invariant
                n <= self.quarters.len(),
                wanted@ == year@,
                day_number(start) == earliest_start(self.quarters@.take(n as int), year@),
                day_number(end) == latest_end(self.quarters@.take(n as int), year@),
            decreases self.quarters.len() - n,
        {
            let quarter = &self.quarters[n];
            proof {
                let next = self.quarters@.take(n + 1);
                assert(next.drop_last() =~= self.quarters@.take(n as int));
                assert(next.last() == *quarter);
            }
            if quarter.year == wanted {
                start = match (start, quarter.start_date) {
                    (Some(a), Some(b)) => if b.is_before(a) {
                        Some(b)
                    } else {
                        Some(a)
                    },
                    (Some(a), None) => Some(a),
                    (None, b) => b,
                };
                end = match (end, quarter.end_date) {
                    (Some(a), Some(b)) => if a.is_before(b) {
                        Some(b)
                    } else {
                        Some(a)
                    },
                    (Some(a), None) => Some(a),
                    (None, b) => b,
                };
            }
            n = n + 1;
        }
        assert(self.quarters@.take(n as int) =~= self.quarters@);
        match (start, end) {
            (Some(a), Some(b)) => Some((a, b)),
            _ => None,
        }
    }

    /// The first quarter with the key `key`.
    pub fn get_quarter_by_key(&self, key: &str) -> (r: Option<&QuarterConfig>)
        ensures
            match r {
                Some(q) => exists|i: int|
                    is_first_quarter_keyed(self.quarters@, key@, i) && *q == self.quarters@[i],
                None => forall|i: int|
                    0 <= i < self.quarters@.len() ==> (#[trigger] self.quarters@[i]).key@ != key@,
            },
    {
        let wanted: String = key.to_owned();
        let mut n: usize = 0;
        while n < self.quarters.len()
            invariant
                n <= self.quarters.len(),
                wanted@ == key@,
                forall|i: int| 0 <= i < n ==> (#[trigger] self.quarters@[i]).key@ != key@,
            decreases self.quarters.len() - n,
        {
            if self.quarters[n].key == wanted {
                assert(is_first_quarter_keyed(self.quarters@, key@, n as int));
                return Some(&self.quarters[n]);
            }
            n = n + 1;
        }
        None
    }
}

/// If the first `n` quarters can all be read, the first unreadable one is
/// the `n`-th if that one cannot be read, and comes after it otherwise.
proof fn lemma_first_unreadable(quarters: Seq<QuarterConfig>, n: int)
    requires
        0 <= n <= quarters.len(),
        forall|i: int| 0 <= i < n ==> parse_outcome((#[trigger] quarters[i])@) is Ok,
    ensures
        n < quarters.len() && parse_outcome(quarters[n]@) is Err ==> first_unreadable(quarters)
            == n,
        n == quarters.len() ==> first_unreadable(quarters) == n,
        first_unreadable(quarters) >= n,
    decreases quarters.len(),
{
    if n == 0 {
        if quarters.len() > 0 && parse_outcome(quarters[0]@) is Ok {
            lemma_first_unreadable(quarters.skip(1), 0);
        }
    } else {
        assert(parse_outcome(quarters[0]@) is Ok);
        assert forall|i: int| 0 <= i < n - 1 implies parse_outcome(
            (#[trigger] quarters.skip(1)[i])@,
        ) is Ok by {
            assert(quarters.skip(1)[i] == quarters[i + 1]);
        }
        lemma_first_unreadable(quarters.skip(1), n - 1);
        if n < quarters.len() {
            assert(quarters.skip(1)[n - 1] == quarters[n]);
        }
    }
}

} // verus!
