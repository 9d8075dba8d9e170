//! The arithmetic of compliance: from day counts to quota, pace, status and
//! projection.
//!
//! Ratios are kept exact, as a numerator over a positive denominator, and
//! compared by cross-multiplication; nothing here is rounded but where a
//! whole number of days is asked for, and there the fraction is dropped.

use vstd::prelude::*;

verus! {

/// The most days that a range of dates can hold.
pub const MAX_SPAN: i32 = 191_491_529;

/// A ratio of two whole numbers. The ratios that the engine makes have a
/// positive denominator.
#[derive(Debug, Clone, Copy, PartialEq, Eq)]
pub struct Ratio {
    pub numerator: i64,
    pub denominator: i64,
}

/// A ratio of two integers.
pub struct Fraction {
    pub numerator: int,
    pub denominator: int,
}

impl View for Ratio {
    type V = Fraction;

    open spec fn view(&self) -> Fraction {
        Fraction { numerator: self.numerator as int, denominator: self.denominator as int }
    }
}

/// Whether `a` is greater than `b`, for fractions with positive
/// denominators.
pub open spec fn fraction_gt(a: Fraction, b: Fraction) -> bool {
    a.numerator * b.denominator > b.numerator * a.denominator
}

/// The fraction `times` times as large.
pub open spec fn fraction_scaled(a: Fraction, times: int) -> Fraction {
    Fraction { numerator: a.numerator * times, denominator: a.denominator }
}

/// How a quarter stands against its quota.
#[derive(Debug, Clone, Copy, PartialEq, Eq)]
pub enum ComplianceStatus {
    /// The quota is met.
    Achieved,
    /// The days that are left cannot make up for the days still needed.
    Impossible,
    /// The days that are left must be attended at a higher rate than the quota's.
    AtRisk,
    /// The quota can be met at its own rate.
    OnTrack,
}

/// The quota for `total` eligible days: half of them, rounded up.
pub open spec fn required_days(total: int) -> int {
    (total + 1) / 2
}

/// Attendance so far, in percent of the eligible days that have passed;
/// zero when none has.
pub open spec fn current_average(badged: int, thus_far: int) -> Fraction {
    if thus_far > 0 {
        Fraction { numerator: 100 * badged, denominator: thus_far }
    } else {
        Fraction { numerator: 0, denominator: 1 }
    }
}

/// The attendance that the days left ask for, in percent, where `needed` is
/// the quota less the days attended. With days needed and none left it is
/// 100 while the quarter has not ended, and zero after.
pub open spec fn required_future_average(needed: int, left: int, quarter_open: bool) -> Fraction {
    if needed > 0 {
        if left > 0 {
            Fraction { numerator: 100 * needed, denominator: left }
        } else if quarter_open {
            Fraction { numerator: 100, denominator: 1 }
        } else {
            Fraction { numerator: 0, denominator: 1 }
        }
    } else {
        Fraction { numerator: 0, denominator: 1 }
    }
}

/// The share of the eligible days that the quota asks for; one half when
/// there is no eligible day.
pub open spec fn target_pace(required: int, total: int) -> Fraction {
    if total > 0 {
        Fraction { numerator: required, denominator: total }
    } else {
        Fraction { numerator: 1, denominator: 2 }
    }
}

/// The badge-ins that the target pace asks for over the eligible days that
/// have passed, the fraction of a day dropped.
pub open spec fn expected_so_far(thus_far: int, required: int, total: int) -> int {
    (thus_far * target_pace(required, total).numerator) / target_pace(required, total).denominator
}

/// The status, by the first rule that applies: achieved, impossible, at
/// risk, on track.
pub open spec fn status_of(badged: int, total: int, left: int, quarter_open: bool)
    -> ComplianceStatus {
    let required = required_days(total);
    if badged >= required {
        ComplianceStatus::Achieved
    } else if required - badged > left {
        ComplianceStatus::Impossible
    } else if fraction_gt(
        required_future_average(required - badged, left, quarter_open),
        fraction_scaled(target_pace(required, total), 100),
    ) {
        ComplianceStatus::AtRisk
    } else {
        ComplianceStatus::OnTrack
    }
}

/// The days from the as-of date to the day on which the quota would be met
/// at the rate of attendance so far, the fraction of a day dropped. There
/// is none unless days are still needed, days are left, eligible days have
/// passed and at least one of them was attended.
pub open spec fn days_to_completion(badged: int, total: int, thus_far: int, left: int) -> Option<
    int,
> {
    let needed = required_days(total) - badged;
    if needed > 0 && left > 0 && thus_far > 0 && badged > 0 {
        Some((needed * thus_far) / badged)
    } else {
        None
    }
}

/// The larger of `n` and zero.
pub open spec fn floored(n: int) -> int {
    if n < 0 {
        0
    } else {
        n
    }
}

/// The status in words.
pub open spec fn status_label(status: ComplianceStatus) -> Seq<char> {
    match status {
        ComplianceStatus::Achieved => "Achieved"@,
        ComplianceStatus::Impossible => "Impossible"@,
        ComplianceStatus::AtRisk => "At Risk"@,
        ComplianceStatus::OnTrack => "On Track"@,
    }
}

impl ComplianceStatus {
    /// The status in words: "Achieved", "Impossible", "At Risk" or
    /// "On Track".
    pub fn label(&self) -> (r: String)
        ensures
            r@ == status_label(*self),
    {
        match self {
            ComplianceStatus::Achieved => "Achieved".to_owned(),
            ComplianceStatus::Impossible => "Impossible".to_owned(),
            ComplianceStatus::AtRisk => "At Risk".to_owned(),
            ComplianceStatus::OnTrack => "On Track".to_owned(),
        }
    }
}

/// No two statuses share their words.
pub proof fn lemma_status_labels_differ(a: ComplianceStatus, b: ComplianceStatus)
    ensures
        status_label(a) == status_label(b) <==> a == b,
{
    reveal_strlit("Achieved");
    reveal_strlit("Impossible");
    reveal_strlit("At Risk");
    reveal_strlit("On Track");
    assert("Achieved"@.len() == 8);
    assert("Impossible"@.len() == 10);
    assert("At Risk"@.len() == 7);
    assert("On Track"@.len() == 8);
    assert("Achieved"@[0] == 'A');
    assert("On Track"@[0] == 'O');
}

/// The tallies of a quarter's weekdays.
///
/// The counts fit together as counts of days do: none is negative; the
/// flex credits are among the badge-ins and the badge-ins among the
/// eligible days; every eligible day has either passed or is left; the
/// weekdays are the available days and the holidays, and also the eligible
/// days and the days off; and there are no more weekdays than a range of
/// dates can hold.
#[derive(Debug, Clone, Copy, PartialEq, Eq)]
pub struct DayCounts {
    days_badged_in: i32,
    flex_days: i32,
    days_thus_far: i32,
    days_left: i32,
    available_workdays: i32,
    total_days: i32,
    days_off: i32,
    holidays: i32,
    vacation_days: i32,
}

/// [`DayCounts`] as integers.
pub struct DayCountsView {
    pub days_badged_in: int,
    pub flex_days: int,
    pub days_thus_far: int,
    pub days_left: int,
    pub available_workdays: int,
    pub total_days: int,
    pub days_off: int,
    pub holidays: int,
    pub vacation_days: int,
}

/// Whether the counts fit together as counts of a quarter's weekdays do.
pub open spec fn counts_fit(c: DayCountsView) -> bool {
    &&& 0 <= c.flex_days <= c.days_badged_in <= c.total_days <= c.available_workdays
    &&& 0 <= c.days_thus_far
    &&& 0 <= c.days_left
    &&& c.days_thus_far + c.days_left == c.total_days
    &&& 0 <= c.holidays <= c.days_off
    &&& 0 <= c.vacation_days <= c.days_off
    &&& c.days_off <= c.holidays + c.vacation_days
    &&& c.available_workdays + c.holidays == c.total_days + c.days_off
    &&& c.available_workdays + c.holidays <= MAX_SPAN
}

impl View for DayCounts {
    type V = DayCountsView;

    closed spec fn view(&self) -> DayCountsView {
        DayCountsView {
            days_badged_in: self.days_badged_in as int,
            flex_days: self.flex_days as int,
            days_thus_far: self.days_thus_far as int,
            days_left: self.days_left as int,
            available_workdays: self.available_workdays as int,
            total_days: self.total_days as int,
            days_off: self.days_off as int,
            holidays: self.holidays as int,
            vacation_days: self.vacation_days as int,
        }
    }
}

impl DayCounts {
    #[verifier::type_invariant]
    spec fn fits(self) -> bool {
        counts_fit(self@)
    }

    /// The counts, if they fit together (see [`counts_fit`]).
    pub fn new(
        days_badged_in: i32,
        flex_days: i32,
        days_thus_far: i32,
        days_left: i32,
        available_workdays: i32,
        total_days: i32,
        days_off: i32,
        holidays: i32,
        vacation_days: i32,
    ) -> (r: Option<DayCounts>)
        ensures
            r is Some <==> counts_fit(
                DayCountsView {
                    days_badged_in: days_badged_in as int,
                    flex_days: flex_days as int,
                    days_thus_far: days_thus_far as int,
                    days_left: days_left as int,
                    available_workdays: available_workdays as int,
                    total_days: total_days as int,
                    days_off: days_off as int,
                    holidays: holidays as int,
                    vacation_days: vacation_days as int,
                },
            ),
            r matches Some(c) ==> c@ == (DayCountsView {
                days_badged_in: days_badged_in as int,
                flex_days: flex_days as int,
                days_thus_far: days_thus_far as int,
                days_left: days_left as int,
                available_workdays: available_workdays as int,
                total_days: total_days as int,
                days_off: days_off as int,
                holidays: holidays as int,
                vacation_days: vacation_days as int,
            }),
    {
        let fit = 0 <= flex_days && flex_days <= days_badged_in && days_badged_in <= total_days
            && total_days <= available_workdays && 0 <= days_thus_far && 0 <= days_left
            && days_thus_far as i64 + days_left as i64 == total_days as i64 && 0 <= holidays
            && holidays <= days_off && 0 <= vacation_days && vacation_days <= days_off
            && days_off as i64 <= holidays as i64 + vacation_days as i64 && available_workdays as i64
            + holidays as i64 == total_days as i64 + days_off as i64 && available_workdays as i64
            + holidays as i64 <= MAX_SPAN as i64;
        if fit {
            Some(
                DayCounts {
                    days_badged_in,
                    flex_days,
                    days_thus_far,
                    days_left,
                    available_workdays,
                    total_days,
                    days_off,
                    holidays,
                    vacation_days,
                },
            )
        } else {
            None
        }
    }

    /// The counts, which fit together.
    pub fn values(&self) -> (r: (i32, i32, i32, i32, i32, i32, i32, i32, i32))
        ensures
            counts_fit(self@),
            r.0 == self@.days_badged_in,
            r.1 == self@.flex_days,
            r.2 == self@.days_thus_far,
            r.3 == self@.days_left,
            r.4 == self@.available_workdays,
            r.5 == self@.total_days,
            r.6 == self@.days_off,
            r.7 == self@.holidays,
            r.8 == self@.vacation_days,
    {
        proof {
            use_type_invariant(self);
        }
        (
            self.days_badged_in,
            self.flex_days,
            self.days_thus_far,
            self.days_left,
            self.available_workdays,
            self.total_days,
            self.days_off,
            self.holidays,
            self.vacation_days,
        )
    }
}

/// What follows from the day counts by arithmetic alone.
#[derive(Debug, Clone, Copy, PartialEq, Eq)]
pub struct Metrics {
    pub days_required: i32,
    /// The quota less the badge-ins, but not under zero.
    pub days_still_needed: i32,
    pub current_average: Ratio,
    pub required_future_average: Ratio,
    pub status: ComplianceStatus,
    /// Badge-ins over what the target pace asks for so far; negative when
    /// behind.
    pub days_ahead_of_pace: i32,
    /// The eligible days that can still be missed, but not under zero.
    pub remaining_missable_days: i32,
    /// Days from the as-of date to the projected completion.
    pub days_to_completion: Option<i64>,
}

/// What the counts `c` come to, for a quarter that is still open
/// (`quarter_open`: its end date is not before the as-of date) or not.
pub open spec fn metrics_hold(m: Metrics, c: DayCountsView, quarter_open: bool) -> bool {
    let required = required_days(c.total_days);
    &&& m.days_required == required
    &&& m.days_still_needed == floored(required - c.days_badged_in)
    &&& m.current_average@ == current_average(c.days_badged_in, c.days_thus_far)
    &&& m.required_future_average@ == required_future_average(
        required - c.days_badged_in,
        c.days_left,
        quarter_open,
    )
    &&& m.status == status_of(c.days_badged_in, c.total_days, c.days_left, quarter_open)
    &&& m.days_ahead_of_pace == c.days_badged_in - expected_so_far(
        c.days_thus_far,
        required,
        c.total_days,
    )
    &&& m.remaining_missable_days == floored(
        (c.total_days - required) - (c.days_thus_far - c.days_badged_in),
    )
    &&& match days_to_completion(c.days_badged_in, c.total_days, c.days_thus_far, c.days_left) {
        Some(n) => m.days_to_completion matches Some(k) && k == n,
        None => m.days_to_completion is None,
    }
}

proof fn lemma_product_bounds(a: int, b: int)
    requires
        0 <= a <= MAX_SPAN,
        0 <= b <= MAX_SPAN,
    ensures
        0 <= a * b <= MAX_SPAN * MAX_SPAN,
{
    assert(0 <= a * b <= MAX_SPAN * MAX_SPAN) by (nonlinear_arith)
        requires
            0 <= a <= MAX_SPAN,
            0 <= b <= MAX_SPAN,
    ;
}

proof fn lemma_quotient_bounds(x: int, y: int, bound: int)
    requires
        0 <= x,
        0 < y,
        x <= bound * y,
    ensures
        0 <= x / y <= bound,
{
    assert(0 <= x / y <= bound) by (nonlinear_arith)
        requires
            0 <= x,
            0 < y,
            x <= bound * y,
    ;
}

/// Quota, pace, status and projection from the day counts.
pub fn derive_metrics(counts: &DayCounts, quarter_open: bool) -> (m: Metrics)
    ensures
        metrics_hold(m, counts@, quarter_open),
{
    let (badged, _flex, thus_far, left, _available, total, _off, _holidays, _vacation) =
        counts.values();
    let badged: i64 = badged as i64;
    let thus_far: i64 = thus_far as i64;
    let left: i64 = left as i64;
    let total: i64 = total as i64;

    let required: i64 = (total + 1) / 2;
    let needed: i64 = required - badged;

    let current = if thus_far > 0 {
        Ratio { numerator: 100 * badged, denominator: thus_far }
    } else {
        Ratio { numerator: 0, denominator: 1 }
    };
    let future = if needed > 0 {
        if left > 0 {
            Ratio { numerator: 100 * needed, denominator: left }
        } else if quarter_open {
            Ratio { numerator: 100, denominator: 1 }
        } else {
            Ratio { numerator: 0, denominator: 1 }
        }
    } else {
        Ratio { numerator: 0, denominator: 1 }
    };
    let pace = if total > 0 {
        Ratio { numerator: required, denominator: total }
    } else {
        Ratio { numerator: 1, denominator: 2 }
    };

    proof {
        lemma_product_bounds(thus_far as int, pace.numerator as int);
        assert(thus_far * pace.numerator <= pace.numerator * pace.denominator)
            by (nonlinear_arith)
            requires
                0 <= thus_far <= pace.denominator,
                0 <= pace.numerator,
        ;
        lemma_quotient_bounds(
            thus_far * pace.numerator,
            pace.denominator as int,
            pace.numerator as int,
        );
    }
    let expected: i64 = (thus_far * pace.numerator) / pace.denominator;
    let ahead: i64 = badged - expected;
    let missable: i64 = (total - required) - (thus_far - badged);

    let status = if badged >= required {
        ComplianceStatus::Achieved
    } else if needed > left {
        ComplianceStatus::Impossible
    } else {
        proof {
            lemma_product_bounds(needed as int, total as int);
            lemma_product_bounds(required as int, left as int);
            assert(fraction_gt(future@, fraction_scaled(pace@, 100)) <==> needed * total > required
                * left) by {
                assert((100 * needed) * total == 100 * (needed * total)) by (nonlinear_arith);
                assert((required * 100) * left == 100 * (required * left)) by (nonlinear_arith);
            }
        }
        if needed * total > required * left {
            ComplianceStatus::AtRisk
        } else {
            ComplianceStatus::OnTrack
        }
    };

    let completion = if needed > 0 && left > 0 && thus_far > 0 && badged > 0 {
        proof {
            lemma_product_bounds(needed as int, thus_far as int);
            assert(needed * thus_far <= (MAX_SPAN * MAX_SPAN) * badged) by (nonlinear_arith)
                requires
                    0 <= needed * thus_far <= MAX_SPAN * MAX_SPAN,
                    1 <= badged,
            ;
            lemma_quotient_bounds(needed * thus_far, badged as int, MAX_SPAN * MAX_SPAN);
        }
        Some((needed * thus_far) / badged)
    } else {
        None
    };

    Metrics {
        days_required: required as i32,
        days_still_needed: if needed < 0 {
            0
        } else {
            needed as i32
        },
        current_average: current,
        required_future_average: future,
        status,
        days_ahead_of_pace: ahead as i32,
        remaining_missable_days: if missable < 0 {
            0
        } else {
            missable as i32
        },
        days_to_completion: completion,
    }
}

} // verus!
