//! Occupational-pension benchmarks, salary exchange and vacation compensation.
use vstd::prelude::*;

use crate::arith::{cap_u32, sat_mul};
use crate::dates::{date_le, spec_clamped, spec_ordinal, Date2026};

verus! {

/// 2026 ITP 1-equivalent benchmark used for an individually agreed
/// occupational pension when no collective-agreement formula is available.
pub const REGULAR_PENSION_MONTHLY_THRESHOLD: u32 = 52_125;

pub const REGULAR_PENSION_LOWER_RATE_BASIS_POINTS: u32 = 450;

pub const REGULAR_PENSION_UPPER_RATE_BASIS_POINTS: u32 = 3_000;

pub const EMPLOYER_PENSION_ALLOWANCE_RATE_BASIS_POINTS: u32 = 3_500;

pub const EMPLOYER_PENSION_ALLOWANCE_MAXIMUM: u32 = 592_000;

pub const DEFAULT_SALARY_EXCHANGE_UPLIFT_BASIS_POINTS: u32 = 576;

/// 5.4% of the monthly salary per paid vacation day.
pub const DEFAULT_VACATION_COMPENSATION_RATE_BASIS_POINTS: u32 = 540;

pub const SECONDARY_WITHHOLDING_PERCENT: u32 = 30;

/// `amount × basis_points / 10_000`, rounded half up and limited to `u32`.
pub open spec fn spec_basis_points_rounded(amount: u32, basis_points: u32) -> u32 {
    cap_u32((amount * basis_points + 5_000) / 10_000)
}

pub fn basis_points_rounded(amount: u32, basis_points: u32) -> (r: u32)
    ensures
        r == spec_basis_points_rounded(amount, basis_points),
{
    proof {
        vstd::arithmetic::mul::lemma_mul_upper_bound(
            amount as int,
            u32::MAX as int,
            basis_points as int,
            u32::MAX as int,
        );
        vstd::arithmetic::mul::lemma_mul_nonnegative(amount as int, basis_points as int);
    }
    let value = (amount as u64 * basis_points as u64 + 5_000) / 10_000;
    if value > u32::MAX as u64 {
        u32::MAX
    } else {
        value as u32
    }
}

/// A larger amount never rounds to a smaller share.
pub proof fn lemma_basis_points_rounded_monotone(a: u32, b: u32, basis_points: u32)
    requires
        a <= b,
    ensures
        spec_basis_points_rounded(a, basis_points) <= spec_basis_points_rounded(b, basis_points),
{
    vstd::arithmetic::mul::lemma_mul_inequality(a as int, b as int, basis_points as int);
    vstd::arithmetic::div_mod::lemma_div_is_ordered(
        a * basis_points + 5_000,
        b * basis_points + 5_000,
        10_000,
    );
}

// ---------------------------------------------------------------------------
// Regular pension premium
// ---------------------------------------------------------------------------

#[derive(Clone, Copy, Debug, PartialEq, Eq, Structural)]
pub struct RegularPensionPremium {
    /// Actual monthly premium, when it differs from the benchmark calculation.
    pub monthly_override: Option<u32>,
}

impl Default for RegularPensionPremium {
    fn default() -> (p: Self)
        ensures
            p.monthly_override is None,
    {
        Self { monthly_override: None }
    }
}

/// The ITP 1-style benchmark: 4.5% of salary up to the threshold and 30% above
/// it, rounded half up.
pub open spec fn spec_benchmark_monthly(monthly_salary: u32) -> u32 {
    let lower = if monthly_salary <= REGULAR_PENSION_MONTHLY_THRESHOLD {
        monthly_salary as int
    } else {
        REGULAR_PENSION_MONTHLY_THRESHOLD as int
    };
    let upper = if monthly_salary >= REGULAR_PENSION_MONTHLY_THRESHOLD {
        monthly_salary - REGULAR_PENSION_MONTHLY_THRESHOLD
    } else {
        0
    };
    cap_u32(
        (lower * REGULAR_PENSION_LOWER_RATE_BASIS_POINTS + upper
            * REGULAR_PENSION_UPPER_RATE_BASIS_POINTS + 5_000) / 10_000,
    )
}

pub open spec fn spec_monthly_premium(premium: RegularPensionPremium, monthly_salary: u32) -> u32 {
    match premium.monthly_override {
        Some(amount) => amount,
        None => spec_benchmark_monthly(monthly_salary),
    }
}

impl RegularPensionPremium {
    pub fn benchmark_monthly(monthly_salary: u32) -> (r: u32)
        ensures
            r == spec_benchmark_monthly(monthly_salary),
    {
        let lower = if monthly_salary <= REGULAR_PENSION_MONTHLY_THRESHOLD {
            monthly_salary
        } else {
            REGULAR_PENSION_MONTHLY_THRESHOLD
        };
        let upper = monthly_salary.saturating_sub(REGULAR_PENSION_MONTHLY_THRESHOLD);
        assert(lower as int * 450 <= 52_125 * 450) by (nonlinear_arith)
            requires
                lower <= 52_125,
        ;
        assert(upper as int * 3_000 <= u32::MAX as int * 3_000) by (nonlinear_arith);
        let numerator = lower as u64 * REGULAR_PENSION_LOWER_RATE_BASIS_POINTS as u64 + upper as u64
            * REGULAR_PENSION_UPPER_RATE_BASIS_POINTS as u64;
        let value = (numerator + 5_000) / 10_000;
        if value > u32::MAX as u64 {
            u32::MAX
        } else {
            value as u32
        }
    }

    pub fn monthly_amount(self, monthly_salary: u32) -> (r: u32)
        ensures
            r == spec_monthly_premium(self, monthly_salary),
    {
        match self.monthly_override {
            Some(amount) => amount,
            None => Self::benchmark_monthly(monthly_salary),
        }
    }
}

// ---------------------------------------------------------------------------
// Salary exchange
// ---------------------------------------------------------------------------

#[derive(Clone, Copy, Debug, PartialEq, Eq, Structural)]
pub struct SalaryExchange {
    /// Gross one-time salary forgone by the employee.
    pub sacrificed_salary: u32,
    pub employer_adds_uplift: bool,
    /// Hundredths of one percent; 576 means 5.76%.
    pub uplift_basis_points: u32,
    /// A fixed pensionable salary from the preceding year used instead of the
    /// current-year salary basis for the 35% allowance.
    pub previous_year_pension_salary_basis: Option<u32>,
    /// A confirmed total of pension and insurance costs before the exchange,
    /// replacing the estimated components in the allowance calculation.
    pub pension_and_insurance_costs_before_exchange: Option<u32>,
}

pub open spec fn default_salary_exchange() -> SalaryExchange {
    SalaryExchange {
        sacrificed_salary: 0,
        employer_adds_uplift: true,
        uplift_basis_points: DEFAULT_SALARY_EXCHANGE_UPLIFT_BASIS_POINTS,
        previous_year_pension_salary_basis: None,
        pension_and_insurance_costs_before_exchange: None,
    }
}

/// The employer's pension contribution for the exchange, including any uplift.
pub open spec fn spec_pension_contribution(exchange: SalaryExchange) -> u32 {
    if exchange.employer_adds_uplift {
        spec_basis_points_rounded(
            exchange.sacrificed_salary,
            cap_u32(10_000 + exchange.uplift_basis_points),
        )
    } else {
        exchange.sacrificed_salary
    }
}

/// 35% of the pension salary basis, rounded down, at most the 2026 maximum.
pub open spec fn spec_allowance_ceiling(pension_salary_basis: u32) -> u32 {
    let share = pension_salary_basis * EMPLOYER_PENSION_ALLOWANCE_RATE_BASIS_POINTS / 10_000;
    if share <= EMPLOYER_PENSION_ALLOWANCE_MAXIMUM {
        share as u32
    } else {
        EMPLOYER_PENSION_ALLOWANCE_MAXIMUM
    }
}

pub open spec fn with_sacrifice(exchange: SalaryExchange, sacrifice: u32) -> SalaryExchange {
    SalaryExchange { sacrificed_salary: sacrifice, ..exchange }
}

pub open spec fn basis_after_sacrifice(basis_before: u32, sacrifice: u32, pensionable: bool) -> u32 {
    if pensionable && basis_before >= sacrifice {
        (basis_before - sacrifice) as u32
    } else if pensionable {
        0
    } else {
        basis_before
    }
}

/// Whether sacrificing `sacrifice` keeps total contributions within the allowance.
pub open spec fn sacrifice_within_allowance(
    exchange: SalaryExchange,
    sacrifice: u32,
    basis_before: u32,
    contributions_before: u32,
    pensionable: bool,
) -> bool {
    cap_u32(contributions_before + spec_pension_contribution(with_sacrifice(exchange, sacrifice)))
        <= spec_allowance_ceiling(basis_after_sacrifice(basis_before, sacrifice, pensionable))
}

proof fn lemma_contribution_monotone(exchange: SalaryExchange, a: u32, b: u32)
    requires
        a <= b,
    ensures
        spec_pension_contribution(with_sacrifice(exchange, a)) <= spec_pension_contribution(
            with_sacrifice(exchange, b),
        ),
{
    lemma_basis_points_rounded_monotone(a, b, cap_u32(10_000 + exchange.uplift_basis_points));
}

proof fn lemma_ceiling_monotone(a: u32, b: u32)
    requires
        a <= b,
    ensures
        spec_allowance_ceiling(a) <= spec_allowance_ceiling(b),
{
    vstd::arithmetic::mul::lemma_mul_inequality(a as int, b as int, 3_500);
    vstd::arithmetic::div_mod::lemma_div_is_ordered(a * 3_500, b * 3_500, 10_000);
}

/// A smaller sacrifice fits whenever a larger one does.
pub proof fn lemma_smaller_sacrifice_fits(
    exchange: SalaryExchange,
    smaller: u32,
    larger: u32,
    basis_before: u32,
    contributions_before: u32,
    pensionable: bool,
)
    requires
        smaller <= larger,
        sacrifice_within_allowance(exchange, larger, basis_before, contributions_before, pensionable),
    ensures
        sacrifice_within_allowance(exchange, smaller, basis_before, contributions_before, pensionable),
{
    lemma_contribution_monotone(exchange, smaller, larger);
    lemma_ceiling_monotone(
        basis_after_sacrifice(basis_before, larger, pensionable),
        basis_after_sacrifice(basis_before, smaller, pensionable),
    );
}

/// Whether `r` is the largest sacrifice, at most `payment_amount`, that keeps
/// employer contributions within the allowance (zero when none does).
pub open spec fn is_maximum_sacrifice(
    exchange: SalaryExchange,
    r: u32,
    payment_amount: u32,
    basis_before: u32,
    contributions_before: u32,
    pensionable: bool,
) -> bool {
    &&& r <= payment_amount
    &&& r > 0 ==> sacrifice_within_allowance(
        exchange,
        r,
        basis_before,
        contributions_before,
        pensionable,
    )
    &&& forall|s: u32|
        r < s <= payment_amount ==> !#[trigger] sacrifice_within_allowance(
            exchange,
            s,
            basis_before,
            contributions_before,
            pensionable,
        )
}

/// The largest sacrifice that fits the allowance.
pub open spec fn spec_maximum_sacrifice(
    exchange: SalaryExchange,
    payment_amount: u32,
    basis_before: u32,
    contributions_before: u32,
    pensionable: bool,
) -> u32 {
    choose|r: u32|
        is_maximum_sacrifice(
            exchange,
            r,
            payment_amount,
            basis_before,
            contributions_before,
            pensionable,
        )
}

/// At most one sacrifice is the largest that fits.
proof fn lemma_maximum_sacrifice_unique(
    exchange: SalaryExchange,
    a: u32,
    b: u32,
    payment_amount: u32,
    basis_before: u32,
    contributions_before: u32,
    pensionable: bool,
)
    requires
        is_maximum_sacrifice(exchange, a, payment_amount, basis_before, contributions_before, pensionable),
        is_maximum_sacrifice(exchange, b, payment_amount, basis_before, contributions_before, pensionable),
    ensures
        a == b,
{
    if a < b {
        assert(!sacrifice_within_allowance(exchange, b, basis_before, contributions_before, pensionable));
    }
    if b < a {
        assert(!sacrifice_within_allowance(exchange, a, basis_before, contributions_before, pensionable));
    }
}

/// Some sacrifice is the largest that fits: the largest fitting one up to the
/// payment, or zero.
proof fn lemma_maximum_sacrifice_exists(
    exchange: SalaryExchange,
    payment_amount: u32,
    basis_before: u32,
    contributions_before: u32,
    pensionable: bool,
)
    ensures
        exists|r: u32|
            is_maximum_sacrifice(
                exchange,
                r,
                payment_amount,
                basis_before,
                contributions_before,
                pensionable,
            ),
    decreases payment_amount,
{
    if sacrifice_within_allowance(
        exchange,
        payment_amount,
        basis_before,
        contributions_before,
        pensionable,
    ) || payment_amount == 0 {
        assert(is_maximum_sacrifice(
            exchange,
            payment_amount,
            payment_amount,
            basis_before,
            contributions_before,
            pensionable,
        ));
    } else {
        let lower = (payment_amount - 1) as u32;
        lemma_maximum_sacrifice_exists(exchange, lower, basis_before, contributions_before, pensionable);
        let r = choose|r: u32|
            is_maximum_sacrifice(exchange, r, lower, basis_before, contributions_before, pensionable);
        assert(is_maximum_sacrifice(
            exchange,
            r,
            payment_amount,
            basis_before,
            contributions_before,
            pensionable,
        ));
    }
}

/// The largest sacrifice that fits does not depend on the sacrifice currently chosen.
pub(crate) proof fn lemma_maximum_sacrifice_ignores_current(
    exchange: SalaryExchange,
    current: u32,
    payment_amount: u32,
    basis_before: u32,
    contributions_before: u32,
    pensionable: bool,
)
    ensures
        spec_maximum_sacrifice(
            with_sacrifice(exchange, current),
            payment_amount,
            basis_before,
            contributions_before,
            pensionable,
        ) == spec_maximum_sacrifice(
            exchange,
            payment_amount,
            basis_before,
            contributions_before,
            pensionable,
        ),
{
    let other = with_sacrifice(exchange, current);
    assert forall|s: u32| #[trigger] with_sacrifice(other, s) == with_sacrifice(exchange, s) by {}
    lemma_maximum_sacrifice_exists(
        exchange,
        payment_amount,
        basis_before,
        contributions_before,
        pensionable,
    );
    let c = spec_maximum_sacrifice(
        exchange,
        payment_amount,
        basis_before,
        contributions_before,
        pensionable,
    );
    assert(is_maximum_sacrifice(other, c, payment_amount, basis_before, contributions_before, pensionable)) by {
        assert forall|s: u32|
            c < s <= payment_amount implies !#[trigger] sacrifice_within_allowance(
                other,
                s,
                basis_before,
                contributions_before,
                pensionable,
            ) by {
            assert(with_sacrifice(other, s) == with_sacrifice(exchange, s));
            assert(!sacrifice_within_allowance(
                exchange,
                s,
                basis_before,
                contributions_before,
                pensionable,
            ));
        }
        assert(with_sacrifice(other, c) == with_sacrifice(exchange, c));
    }
    let d = spec_maximum_sacrifice(
        other,
        payment_amount,
        basis_before,
        contributions_before,
        pensionable,
    );
    lemma_maximum_sacrifice_unique(
        other,
        c,
        d,
        payment_amount,
        basis_before,
        contributions_before,
        pensionable,
    );
}

impl Default for SalaryExchange {
    fn default() -> (e: Self)
        ensures
            e == default_salary_exchange(),
    {
        Self::new()
    }
}

impl SalaryExchange {
    pub fn new() -> (e: Self)
        ensures
            e == default_salary_exchange(),
    {
        Self {
            sacrificed_salary: 0,
            employer_adds_uplift: true,
            uplift_basis_points: DEFAULT_SALARY_EXCHANGE_UPLIFT_BASIS_POINTS,
            previous_year_pension_salary_basis: None,
            pension_and_insurance_costs_before_exchange: None,
        }
    }

    pub fn pension_contribution(self) -> (r: u32)
        ensures
            r == spec_pension_contribution(self),
    {
        if self.employer_adds_uplift {
            basis_points_rounded(
                self.sacrificed_salary,
                10_000u32.saturating_add(self.uplift_basis_points),
            )
        } else {
            self.sacrificed_salary
        }
    }

    /// The employer pension-cost allowance: 35% of the pension salary basis,
    /// never rounded above 35%, and at most the 2026 maximum.
    pub fn allowance_ceiling(pension_salary_basis: u32) -> (r: u32)
        ensures
            r == spec_allowance_ceiling(pension_salary_basis),
            r as int * 10_000 <= pension_salary_basis as int * EMPLOYER_PENSION_ALLOWANCE_RATE_BASIS_POINTS,
    {
        let share = pension_salary_basis as u64 * EMPLOYER_PENSION_ALLOWANCE_RATE_BASIS_POINTS as u64
            / 10_000;
        if share <= EMPLOYER_PENSION_ALLOWANCE_MAXIMUM as u64 {
            share as u32
        } else {
            EMPLOYER_PENSION_ALLOWANCE_MAXIMUM
        }
    }

    /// The largest sacrifice, at most `payment_amount`, whose contribution
    /// keeps total employer contributions within the allowance; zero when
    /// none does.
    pub fn maximum_sacrifice(
        self,
        payment_amount: u32,
        pension_salary_basis_before: u32,
        pension_contributions_before: u32,
        payment_is_pensionable: bool,
    ) -> (r: u32)
        ensures
            r == spec_maximum_sacrifice(
                self,
                payment_amount,
                pension_salary_basis_before,
                pension_contributions_before,
                payment_is_pensionable,
            ),
            r <= payment_amount,
            r > 0 ==> sacrifice_within_allowance(
                self,
                r,
                pension_salary_basis_before,
                pension_contributions_before,
                payment_is_pensionable,
            ),
            forall|s: u32|
                r < s <= payment_amount ==> !#[trigger] sacrifice_within_allowance(
                    self,
                    s,
                    pension_salary_basis_before,
                    pension_contributions_before,
                    payment_is_pensionable,
                ),
    {
        let mut low: u32 = 0;
        let mut high: u32 = payment_amount;
        while low < high
            invariant
                low <= high <= payment_amount,
                low > 0 ==> sacrifice_within_allowance(
                    self,
                    low,
                    pension_salary_basis_before,
                    pension_contributions_before,
                    payment_is_pensionable,
                ),
                forall|s: u32|
                    high < s <= payment_amount ==> !#[trigger] sacrifice_within_allowance(
                        self,
                        s,
                        pension_salary_basis_before,
                        pension_contributions_before,
                        payment_is_pensionable,
                    ),
            decreases high - low,
        {
            let gap = high - low;
            let candidate_sacrifice = low + gap / 2 + gap % 2;
            let pension_salary_basis_after = if payment_is_pensionable {
                pension_salary_basis_before.saturating_sub(candidate_sacrifice)
            } else {
                pension_salary_basis_before
            };
            let ceiling = Self::allowance_ceiling(pension_salary_basis_after);
            let mut candidate = self;
            candidate.sacrificed_salary = candidate_sacrifice;
            assert(candidate == with_sacrifice(self, candidate_sacrifice));
            let valid = pension_contributions_before.saturating_add(candidate.pension_contribution())
                <= ceiling;
            if valid {
                low = candidate_sacrifice;
            } else {
                proof {
                    assert forall|s: u32| candidate_sacrifice <= s <= payment_amount implies !#[trigger] sacrifice_within_allowance(
                        self,
                        s,
                        pension_salary_basis_before,
                        pension_contributions_before,
                        payment_is_pensionable,
                    ) by {
                        if sacrifice_within_allowance(
                            self,
                            s,
                            pension_salary_basis_before,
                            pension_contributions_before,
                            payment_is_pensionable,
                        ) {
                            lemma_smaller_sacrifice_fits(
                                self,
                                candidate_sacrifice,
                                s,
                                pension_salary_basis_before,
                                pension_contributions_before,
                                payment_is_pensionable,
                            );
                        }
                    }
                }
                high = candidate_sacrifice - 1;
            }
        }
        proof {
            let c = spec_maximum_sacrifice(
                self,
                payment_amount,
                pension_salary_basis_before,
                pension_contributions_before,
                payment_is_pensionable,
            );
            assert(is_maximum_sacrifice(
                self,
                low,
                payment_amount,
                pension_salary_basis_before,
                pension_contributions_before,
                payment_is_pensionable,
            ));
            lemma_maximum_sacrifice_unique(
                self,
                low,
                c,
                payment_amount,
                pension_salary_basis_before,
                pension_contributions_before,
                payment_is_pensionable,
            );
        }
        low
    }
}

// ---------------------------------------------------------------------------
// Vacation compensation
// ---------------------------------------------------------------------------

#[derive(Clone, Copy, Debug, PartialEq, Eq, Structural)]
pub struct VacationCompensation {
    pub annual_entitlement_days: u32,
    pub payout_days: u32,
    /// Compensation per paid day, in hundredths of a percent of the monthly salary.
    pub rate_basis_points: u32,
    pub included_in_pension_salary_basis: bool,
    /// Actual one-time employer premium attributable to the vacation payout.
    pub pension_premium_override: Option<u32>,
}

/// Vacation days earned over the clamped employment period, rounded up.
pub open spec fn spec_suggested_days(annual_entitlement_days: u32, start: Date2026, end: Date2026) -> u32 {
    let s = spec_clamped(start);
    let e = spec_clamped(end);
    if !date_le(s, e) {
        0
    } else {
        let employment_days = spec_ordinal(e) - spec_ordinal(s) + 1;
        (cap_u32(cap_u32(annual_entitlement_days * employment_days) + 364) / 365) as u32
    }
}

/// Payout days × rate × monthly salary, rounded half up, limited to `u32`.
pub open spec fn spec_vacation_amount(vacation: VacationCompensation, monthly_salary: u32) -> u32 {
    cap_u32(
        (monthly_salary * vacation.payout_days * vacation.rate_basis_points + 5_000) / 10_000,
    )
}

/// Additional benchmark premium when the vacation payout is added to a month's salary.
pub open spec fn spec_additional_benchmark_pension_premium(
    vacation: VacationCompensation,
    monthly_salary: u32,
) -> u32 {
    let with_vacation = spec_benchmark_monthly(
        cap_u32(monthly_salary + spec_vacation_amount(vacation, monthly_salary)),
    );
    let without = spec_benchmark_monthly(monthly_salary);
    if with_vacation >= without {
        (with_vacation - without) as u32
    } else {
        0
    }
}

impl VacationCompensation {
    pub fn suggested(annual_entitlement_days: u32, start: Date2026, end: Date2026) -> (v: Self)
        ensures
            v == (VacationCompensation {
                annual_entitlement_days,
                payout_days: spec_suggested_days(annual_entitlement_days, start, end),
                rate_basis_points: DEFAULT_VACATION_COMPENSATION_RATE_BASIS_POINTS,
                included_in_pension_salary_basis: true,
                pension_premium_override: None,
            }),
    {
        Self {
            annual_entitlement_days,
            payout_days: Self::suggested_days(annual_entitlement_days, start, end),
            rate_basis_points: DEFAULT_VACATION_COMPENSATION_RATE_BASIS_POINTS,
            included_in_pension_salary_basis: true,
            pension_premium_override: None,
        }
    }

    pub fn suggested_days(annual_entitlement_days: u32, start: Date2026, end: Date2026) -> (r: u32)
        ensures
            r == spec_suggested_days(annual_entitlement_days, start, end),
    {
        let start = start.clamped();
        let end = end.clamped();
        if !start.is_on_or_before(end) {
            return 0;
        }
        let employment_days = (end.ordinal() - start.ordinal() + 1) as u32;
        sat_mul(annual_entitlement_days, employment_days).saturating_add(364) / 365
    }

    /// Payout days × rate × monthly salary, rounded half up.
    pub fn amount(self, monthly_salary: u32) -> (r: u32)
        ensures
            r == spec_vacation_amount(self, monthly_salary),
    {
        proof {
            let m = monthly_salary as int;
            let d = self.payout_days as int;
            let b = self.rate_basis_points as int;
            let max = u32::MAX as int;
            vstd::arithmetic::mul::lemma_mul_upper_bound(m, max, d, max);
            vstd::arithmetic::mul::lemma_mul_nonnegative(m, d);
            vstd::arithmetic::mul::lemma_mul_upper_bound(m * d, max * max, b, max);
            vstd::arithmetic::mul::lemma_mul_nonnegative(m * d, b);
            assert(max * max * max < 0x1_0000_0000_0000_0000_0000_0000);
        }
        let numerator = monthly_salary as u128 * self.payout_days as u128
            * self.rate_basis_points as u128;
        let value = (numerator + 5_000) / 10_000;
        if value > u32::MAX as u128 {
            u32::MAX
        } else {
            value as u32
        }
    }

    pub fn additional_benchmark_pension_premium(self, monthly_salary: u32) -> (r: u32)
        ensures
            r == spec_additional_benchmark_pension_premium(self, monthly_salary),
    {
        RegularPensionPremium::benchmark_monthly(
            monthly_salary.saturating_add(self.amount(monthly_salary)),
        ).saturating_sub(RegularPensionPremium::benchmark_monthly(monthly_salary))
    }
}

// ---------------------------------------------------------------------------
// Laws
// ---------------------------------------------------------------------------

/// The benchmark premium is 4.5% of the salary up to the threshold and 30% of
/// the rest, to the nearest krona (halves up).
pub proof fn lemma_benchmark_rates(monthly_salary: u32)
    ensures
        ({
            let lower = if monthly_salary <= 52_125 {
                monthly_salary as int
            } else {
                52_125
            };
            let upper = monthly_salary - lower;
            let exact = lower * 450 + upper * 3_000;
            let b = spec_benchmark_monthly(monthly_salary) as int;
            &&& exact - 5_000 < b * 10_000 <= exact + 5_000
        }),
{
    let lower = if monthly_salary <= 52_125 {
        monthly_salary as int
    } else {
        52_125
    };
    let upper = monthly_salary - lower;
    let exact = lower * 450 + upper * 3_000;
    assert(0 <= exact <= 52_125 * 450 + u32::MAX as int * 3_000) by (nonlinear_arith)
        requires
            0 <= lower <= 52_125,
            0 <= upper <= u32::MAX,
            exact == lower * 450 + upper * 3_000,
    ;
    let q = (exact + 5_000) / 10_000;
    assert(q <= u32::MAX);
    assert(exact - 5_000 < q * 10_000 <= exact + 5_000);
}

/// The employer contributes the sacrificed salary, plus the uplift when one is
/// added: then the sacrifice times (100% + uplift), to the nearest krona.
pub proof fn lemma_contribution_rates(exchange: SalaryExchange)
    ensures
        !exchange.employer_adds_uplift ==> spec_pension_contribution(exchange)
            == exchange.sacrificed_salary,
        exchange.employer_adds_uplift && exchange.uplift_basis_points <= 10_000 ==> {
            let exact = exchange.sacrificed_salary * (10_000 + exchange.uplift_basis_points);
            let c = spec_pension_contribution(exchange) as int;
            &&& c >= exchange.sacrificed_salary
            &&& (exact + 5_000) / 10_000 <= u32::MAX ==> exact - 5_000 < c * 10_000 <= exact + 5_000
        },
{
    if exchange.employer_adds_uplift && exchange.uplift_basis_points <= 10_000 {
        let s = exchange.sacrificed_salary as int;
        let m = 10_000 + exchange.uplift_basis_points;
        let exact = s * m;
        assert(exact >= s * 10_000) by (nonlinear_arith)
            requires
                m >= 10_000,
                s >= 0,
                exact == s * m,
        ;
        assert(exact >= 0);
    }
}

/// Vacation pay is the payout days times the daily rate of the monthly
/// salary, to the nearest krona, as long as that fits in `u32`.
pub proof fn lemma_vacation_amount_rate(vacation: VacationCompensation, monthly_salary: u32)
    ensures
        ({
            let exact = monthly_salary * vacation.payout_days * vacation.rate_basis_points;
            let a = spec_vacation_amount(vacation, monthly_salary) as int;
            (exact + 5_000) / 10_000 <= u32::MAX ==> exact - 5_000 < a * 10_000 <= exact + 5_000
        }),
        vacation.payout_days == 0 ==> spec_vacation_amount(vacation, monthly_salary) == 0,
{
    let exact = monthly_salary * vacation.payout_days * vacation.rate_basis_points;
    assert(exact >= 0) by (nonlinear_arith)
        requires
            exact == monthly_salary * vacation.payout_days * vacation.rate_basis_points,
    ;
    if vacation.payout_days == 0 {
        assert(exact == 0) by (nonlinear_arith)
            requires
                exact == monthly_salary * vacation.payout_days * vacation.rate_basis_points,
                vacation.payout_days == 0,
        ;
    }
}

/// The allowance ceiling is the largest whole krona not above 35% of the
/// pension salary basis, but at most 592 000 kr.
pub proof fn lemma_ceiling_is_largest_below_share(pension_salary_basis: u32)
    ensures
        ({
            let c = spec_allowance_ceiling(pension_salary_basis) as int;
            &&& c <= 592_000
            &&& c * 10_000 <= pension_salary_basis * 3_500
            &&& c < 592_000 ==> (c + 1) * 10_000 > pension_salary_basis * 3_500
        }),
{
}

} // verus!
