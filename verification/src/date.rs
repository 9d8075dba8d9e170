//! Calendar dates as day numbers.
//!
//! A [`Date`] holds the number of its day in the proleptic Gregorian
//! calendar, counted from January 1 of year 1 as day 1. Order, distance and
//! the next day are then plain integer arithmetic. What only the calendar
//! knows (which day of the week a day is, how a day is written as
//! `YYYY-MM-DD`, which day a text or a year/month/day triple denotes) is
//! asked of `chrono`, and the answers are named by the spec functions
//! [`weekday_index`], [`date_key`], [`parsed_date`], [`civil_to_days`],
//! [`year_of`], [`month_of`] and [`day_of_month`].

use vstd::prelude::*;

verus! {

/// Day number of the earliest date, January 1 of year -262143.
pub const MIN_DAYS: i32 = -95_746_129;

/// Day number of the latest date, December 31 of year 262142.
pub const MAX_DAYS: i32 = 95_745_399;

/// Seconds in a day.
pub const SECONDS_PER_DAY: u32 = 86_400;

/// The canonical `YYYY-MM-DD` text of the day with number `days`.
pub uninterp spec fn date_key(days: int) -> Seq<char>;

/// The day number that a `YYYY-MM-DD` text denotes, if it denotes a date.
pub uninterp spec fn parsed_date(text: Seq<char>) -> Option<int>;

/// The day number of a year, month and day of month, if that date exists.
pub uninterp spec fn civil_to_days(year: int, month: int, day: int) -> Option<int>;

/// The year of the day with number `days`.
pub uninterp spec fn year_of(days: int) -> int;

/// The month, 1 to 12, of the day with number `days`.
pub uninterp spec fn month_of(days: int) -> int;

/// The day of the month, 1 to 31, of the day with number `days`.
pub uninterp spec fn day_of_month(days: int) -> int;

/// Year, month and day of month of the day with number `days`.
pub open spec fn days_to_civil(days: int) -> (int, int, int) {
    (year_of(days), month_of(days), day_of_month(days))
}

/// Day of the week of the day with number `days`: 0 for Monday up to 6 for Sunday.
pub uninterp spec fn weekday_index(days: int) -> int;

/// Whether a day number is one that a [`Date`] can hold.
pub open spec fn in_date_range(days: int) -> bool {
    MIN_DAYS <= days <= MAX_DAYS
}

/// Whether the day with number `days` is a Monday, Tuesday, Wednesday,
/// Thursday or Friday.
pub open spec fn is_weekday(days: int) -> bool {
    weekday_index(days) < 5
}

/// Whether `key` is the canonical text of a day between day `start` and day
/// `end`, both included.
pub open spec fn is_key_between(key: Seq<char>, start: int, end: int) -> bool {
    exists|d: int| start <= d <= end && #[trigger] date_key(d) == key
}

/// The error of `chrono` for a text that is no date.
#[verifier::external_type_specification]
#[verifier::external_body]
pub struct ExParseError(chrono::format::ParseError);

/// `chrono::NaiveDate::from_ymd_opt`, the date handed back as its day
/// number (`Datelike::num_days_from_ce`). Trusted: the result is what
/// [`civil_to_days`] names, and a date that exists lies between
/// `NaiveDate::MIN` and `NaiveDate::MAX`.
#[verifier::external_body]
fn chrono_from_ymd(year: i32, month: u32, day: u32) -> (r: Option<i32>)
    ensures
        r is Some <==> civil_to_days(year as int, month as int, day as int) is Some,
        r matches Some(n) ==> civil_to_days(year as int, month as int, day as int) == Some(
            n as int,
        ) && MIN_DAYS <= n <= MAX_DAYS,
{
    match chrono::NaiveDate::from_ymd_opt(year, month, day) {
        Some(d) => Some(chrono::Datelike::num_days_from_ce(&d)),
        None => None,
    }
}

/// `chrono::NaiveDate::parse_from_str` with the format `%Y-%m-%d`, the date
/// handed back as its day number. Trusted: the result is what
/// [`parsed_date`] names, and a parsed date lies between `NaiveDate::MIN`
/// and `NaiveDate::MAX`.
#[verifier::external_body]
fn chrono_parse_ymd(text: &str) -> (r: Result<i32, chrono::format::ParseError>)
    ensures
        r is Ok <==> parsed_date(text@) is Some,
        r matches Ok(n) ==> parsed_date(text@) == Some(n as int) && MIN_DAYS <= n <= MAX_DAYS,
{
    match chrono::NaiveDate::parse_from_str(text, "%Y-%m-%d") {
        Ok(d) => Ok(chrono::Datelike::num_days_from_ce(&d)),
        Err(e) => Err(e),
    }
}

/// `chrono::NaiveDate::format` with the format `%Y-%m-%d`, on the date made
/// by `NaiveDate::from_num_days_from_ce_opt`. Trusted: the text is what
/// [`date_key`] names, and no other date is written the same way (the
/// text holds the year, the month and the day of month).
#[verifier::external_body]
fn chrono_format_ymd(days: i32) -> (r: String)
    requires
        MIN_DAYS <= days <= MAX_DAYS,
    ensures
        r@ == date_key(days as int),
        forall|other: int|
            MIN_DAYS <= other <= MAX_DAYS && #[trigger] date_key(other) == r@ ==> other == days,
{
    chrono::NaiveDate::from_num_days_from_ce_opt(days).unwrap().format("%Y-%m-%d").to_string()
}

/// `chrono::Datelike::weekday` on the date made by
/// `NaiveDate::from_num_days_from_ce_opt`, as `Weekday::num_days_from_monday`.
/// Trusted: the result is what [`weekday_index`] names and lies in 0..=6.
#[verifier::external_body]
fn chrono_weekday(days: i32) -> (r: u32)
    requires
        MIN_DAYS <= days <= MAX_DAYS,
    ensures
        r == weekday_index(days as int),
        r < 7,
{
    chrono::Datelike::weekday(
        &chrono::NaiveDate::from_num_days_from_ce_opt(days).unwrap(),
    ).num_days_from_monday()
}

/// `chrono::Datelike::year` on the date made by
/// `NaiveDate::from_num_days_from_ce_opt`. Trusted: the result is what
/// [`year_of`] names.
#[verifier::external_body]
fn chrono_year(days: i32) -> (r: i32)
    requires
        MIN_DAYS <= days <= MAX_DAYS,
    ensures
        r == year_of(days as int),
{
    chrono::Datelike::year(&chrono::NaiveDate::from_num_days_from_ce_opt(days).unwrap())
}

/// `chrono::Datelike::month` on the date made by
/// `NaiveDate::from_num_days_from_ce_opt`. Trusted: the result is what
/// [`month_of`] names and lies in 1..=12.
#[verifier::external_body]
fn chrono_month(days: i32) -> (r: u32)
    requires
        MIN_DAYS <= days <= MAX_DAYS,
    ensures
        r == month_of(days as int),
        1 <= r <= 12,
{
    chrono::Datelike::month(&chrono::NaiveDate::from_num_days_from_ce_opt(days).unwrap())
}

/// `chrono::Datelike::day` on the date made by
/// `NaiveDate::from_num_days_from_ce_opt`. Trusted: the result is what
/// [`day_of_month`] names and lies in 1..=31.
#[verifier::external_body]
fn chrono_day(days: i32) -> (r: u32)
    requires
        MIN_DAYS <= days <= MAX_DAYS,
    ensures
        r == day_of_month(days as int),
        1 <= r <= 31,
{
    chrono::Datelike::day(&chrono::NaiveDate::from_num_days_from_ce_opt(days).unwrap())
}

/// `chrono::Local::now().date_naive()`, as a day number. Trusted: only that
/// the date lies between `NaiveDate::MIN` and `NaiveDate::MAX`; which date
/// it is depends on the clock.
#[verifier::external_body]
fn chrono_today() -> (r: i32)
    ensures
        MIN_DAYS <= r <= MAX_DAYS,
{
    chrono::Datelike::num_days_from_ce(&chrono::Local::now().date_naive())
}

/// A calendar date between January 1 of year -262143 and December 31 of
/// year 262142.
#[derive(Clone, Copy, Debug, PartialEq, Eq, PartialOrd, Ord, Hash)]
pub struct Date {
    days: i32,
}

impl View for Date {
    type V = int;

    /// The date's day number.
    closed spec fn view(&self) -> int {
        self.days as int
    }
}

impl Date {
    #[verifier::type_invariant]
    spec fn in_range(self) -> bool {
        MIN_DAYS <= self.days <= MAX_DAYS
    }

    /// The date with the given day number, if there is one.
    pub fn from_days(days: i32) -> (r: Option<Date>)
        ensures
            r is Some <==> in_date_range(days as int),
            r matches Some(d) ==> d@ == days,
    {
        if MIN_DAYS <= days && days <= MAX_DAYS {
            Some(Date { days })
        } else {
            None
        }
    }

    /// The date's day number.
    pub fn days(&self) -> (n: i32)
        ensures
            n == self@,
            in_date_range(self@),
    {
        proof {
            use_type_invariant(self);
        }
        self.days
    }

    /// The date of a year, a month (1 to 12) and a day of month, if it
    /// exists.
    pub fn from_ymd(year: i32, month: u32, day: u32) -> (r: Option<Date>)
        ensures
            r is Some <==> civil_to_days(year as int, month as int, day as int) is Some,
            r matches Some(d) ==> civil_to_days(year as int, month as int, day as int) == Some(
                d@,
            ),
    {
        match chrono_from_ymd(year, month, day) {
            Some(days) => Some(Date { days }),
            None => None,
        }
    }

    /// The date that a `YYYY-MM-DD` text denotes; the parser's error if it
    /// denotes none.
    pub fn parse(text: &str) -> (r: Result<Date, chrono::format::ParseError>)
        ensures
            r is Ok <==> parsed_date(text@) is Some,
            r matches Ok(d) ==> parsed_date(text@) == Some(d@),
    {
        match chrono_parse_ymd(text) {
            Ok(days) => Ok(Date { days }),
            Err(e) => Err(e),
        }
    }

    /// Today's date by the local clock. Whatever the clock says, it is a
    /// date that a [`Date`] can hold.
    pub fn today() -> (r: Date)
        ensures
            in_date_range(r@),
    {
        Date { days: chrono_today() }
    }

    /// The canonical `YYYY-MM-DD` text of the date. No other date has the
    /// same text.
    pub fn key(&self) -> (r: String)
        ensures
            r@ == date_key(self@),
            forall|other: int|
                in_date_range(other) && #[trigger] date_key(other) == r@ ==> other == self@,
    {
        proof {
            use_type_invariant(self);
        }
        chrono_format_ymd(self.days)
    }

    /// Day of the week: 0 for Monday up to 6 for Sunday.
    pub fn weekday(&self) -> (r: u32)
        ensures
            r == weekday_index(self@),
            r < 7,
    {
        proof {
            use_type_invariant(self);
        }
        chrono_weekday(self.days)
    }

    /// Year, month (1 to 12) and day of month (1 to 31).
    pub fn civil(&self) -> (r: (i32, u32, u32))
        ensures
            days_to_civil(self@) == (r.0 as int, r.1 as int, r.2 as int),
            1 <= r.1 <= 12,
            1 <= r.2 <= 31,
    {
        proof {
            use_type_invariant(self);
        }
        (chrono_year(self.days), chrono_month(self.days), chrono_day(self.days))
    }

    /// The date `delta` days after this one (before it, for a negative
    /// `delta`), if there is one.
    pub fn checked_add_days(&self, delta: i64) -> (r: Option<Date>)
        ensures
            r is Some <==> in_date_range(self@ + delta),
            r matches Some(d) ==> d@ == self@ + delta,
    {
        proof {
            use_type_invariant(self);
        }
        let span: i64 = MAX_DAYS as i64 - MIN_DAYS as i64;
        if delta < -span || delta > span {
            return None;
        }
        let sum: i64 = self.days as i64 + delta;
        if sum < MIN_DAYS as i64 || sum > MAX_DAYS as i64 {
            None
        } else {
            Some(Date { days: sum as i32 })
        }
    }

    /// The next day; `None` on the last date.
    pub fn succ(&self) -> (r: Option<Date>)
        ensures
            r is None <==> self@ == MAX_DAYS,
            r matches Some(d) ==> d@ == self@ + 1,
    {
        proof {
            use_type_invariant(self);
        }
        self.checked_add_days(1)
    }

    /// The day before; `None` on the first date.
    pub fn pred(&self) -> (r: Option<Date>)
        ensures
            r is None <==> self@ == MIN_DAYS,
            r matches Some(d) ==> d@ == self@ - 1,
    {
        proof {
            use_type_invariant(self);
        }
        self.checked_add_days(-1)
    }

    /// Days from `earlier` to this date; negative if `earlier` is later.
    pub fn days_since(&self, earlier: Date) -> (n: i32)
        ensures
            n == self@ - earlier@,
    {
        proof {
            use_type_invariant(self);
            use_type_invariant(earlier);
        }
        self.days - earlier.days
    }

    /// Whether this date comes before `other`.
    pub fn is_before(&self, other: Date) -> (r: bool)
        ensures
            r == (self@ < other@),
    {
        self.days < other.days
    }

    /// Whether this date is `other`.
    pub fn is_same(&self, other: Date) -> (r: bool)
        ensures
            r == (self@ == other@),
    {
        self.days == other.days
    }

    /// Whether this date lies between `start` and `end`, both included.
    pub fn is_within(&self, start: Date, end: Date) -> (r: bool)
        ensures
            r == (start@ <= self@ <= end@),
    {
        start.days <= self.days && self.days <= end.days
    }

    /// The first moment of this date.
    pub fn at_midnight(&self) -> (r: DateTime)
        ensures
            r.date() == *self,
            r.seconds_of_day() == 0,
            r.nanosecond() == 0,
    {
        DateTime { date: *self, secs: 0, nano: 0 }
    }
}

/// Two dates with the same day number are the same date.
pub broadcast proof fn lemma_date_by_day_number(a: Date, b: Date)
    ensures
        #![trigger a@, b@]
        a@ == b@ <==> a == b,
{
}

/// A date with a time of day: seconds since midnight, and nanoseconds
/// within the second (up to 1,999,999,999, to hold a leap second).
#[derive(Clone, Copy, Debug, PartialEq, Eq, PartialOrd, Ord, Hash)]
pub struct DateTime {
    date: Date,
    secs: u32,
    nano: u32,
}

impl DateTime {
    #[verifier::type_invariant]
    spec fn in_range(self) -> bool {
        self.secs < SECONDS_PER_DAY && self.nano < 2_000_000_000
    }

    /// The date.
    pub closed spec fn spec_date(&self) -> Date {
        self.date
    }

    /// Seconds since midnight.
    pub closed spec fn spec_seconds_of_day(&self) -> u32 {
        self.secs
    }

    /// Nanoseconds within the second.
    pub closed spec fn spec_nanosecond(&self) -> u32 {
        self.nano
    }

    /// The date.
    #[verifier::when_used_as_spec(spec_date)]
    pub fn date(&self) -> (r: Date)
        ensures
            r == self.date(),
    {
        self.date
    }

    /// Seconds since midnight, under 86,400.
    #[verifier::when_used_as_spec(spec_seconds_of_day)]
    pub fn seconds_of_day(&self) -> (r: u32)
        ensures
            r == self.seconds_of_day(),
            r < SECONDS_PER_DAY,
    {
        proof {
            use_type_invariant(self);
        }
        self.secs
    }

    /// Nanoseconds within the second, under 2,000,000,000.
    #[verifier::when_used_as_spec(spec_nanosecond)]
    pub fn nanosecond(&self) -> (r: u32)
        ensures
            r == self.nanosecond(),
            r < 2_000_000_000,
    {
        proof {
            use_type_invariant(self);
        }
        self.nano
    }

    /// The moment `secs` seconds and `nano` nanoseconds into `date`, if
    /// `secs` is under 86,400 and `nano` under 2,000,000,000.
    pub fn new(date: Date, secs: u32, nano: u32) -> (r: Option<DateTime>)
        ensures
            r is Some <==> secs < SECONDS_PER_DAY && nano < 2_000_000_000,
            r matches Some(t) ==> t.date() == date && t.seconds_of_day() == secs && t.nanosecond()
                == nano,
    {
        if secs < SECONDS_PER_DAY && nano < 2_000_000_000 {
            Some(DateTime { date, secs, nano })
        } else {
            None
        }
    }
}

} // verus!
