//! One income row of a plan: its amounts per month and over the year, and the
//! pension figures that follow from it.
use vstd::prelude::*;

use crate::arith::{cap_u32, sat_mul, sat_sub};
use crate::dates::{date_le, spec_clamped, spec_days_in_month, Date2026};
use crate::income_kind::{
    spec_is_dividend, spec_is_monthly, spec_is_recurring_salary, spec_is_salary, IncomeKind,
    PayerRole,
};
use crate::pension::{
    spec_additional_benchmark_pension_premium, spec_benchmark_monthly, spec_monthly_premium,
    spec_pension_contribution, spec_vacation_amount, RegularPensionPremium, SalaryExchange,
    VacationCompensation,
};

verus! {

#[derive(Clone, Debug, PartialEq, Eq)]
pub struct IncomeEntry {
    pub id: u64,
    pub description: String,
    pub kind: IncomeKind,
    /// Annual total, monthly amount, or one-time amount depending on `kind`.
    pub amount: u32,
    pub start: Date2026,
    pub end: Date2026,
    pub payer_role: PayerRole,
    /// Whether this cash salary is paid by the owner's company or qualifying group.
    /// For 2026 income rows it feeds the following year's 3:12 wage basis.
    pub own_company_sourced: bool,
    pub adjustment_applies: bool,
    /// Use this recurring salary's full-year projection as the income basis
    /// behind a percentage jämkning decision.
    pub use_full_year_projection_as_adjustment_basis: bool,
    /// Pay a partial month at the annual salary's daily rate (amount × 12 / 365
    /// per day) instead of the month's own share.
    pub use_annual_daily_rate_for_partial_months: bool,
    /// Voluntary extra tax requested from the payer for each payment.
    pub additional_withholding_per_payment: Option<u32>,
    /// Total tax actually withheld for this income row. When present, this
    /// takes precedence over every estimated withholding rule.
    pub actual_withholding: Option<u32>,
    pub vacation_compensation: Option<VacationCompensation>,
    pub regular_pension_premium: Option<RegularPensionPremium>,
    pub salary_exchange: Option<SalaryExchange>,
    /// Whether cash from this entry is part of the employer's current-year
    /// occupational-pension salary basis.
    pub included_in_pension_salary_basis: bool,
}

// ---------------------------------------------------------------------------
// Model
// ---------------------------------------------------------------------------

/// Whether `month` lies within a period that does not end before it starts.
pub open spec fn is_paid_month(e: IncomeEntry, month: int) -> bool {
    &&& date_le(e.start, e.end)
    &&& 1 <= month <= 12
    &&& spec_clamped(e.start).month <= month <= spec_clamped(e.end).month
}

/// Days of `month` inside the entry's period: from the start day in the first
/// month to the end day in the last (at least one), the whole month between.
pub open spec fn spec_active_days(e: IncomeEntry, month: int) -> int {
    let s = spec_clamped(e.start);
    let t = spec_clamped(e.end);
    let first: int = if month == s.month {
        s.day as int
    } else {
        1
    };
    let last: int = if month == t.month {
        t.day as int
    } else {
        spec_days_in_month(month as u8) as int
    };
    if last >= first {
        last - first + 1
    } else {
        1
    }
}

/// The value paid in `month` for a recurring `monthly_value`, in proportion
/// to the days of that month inside the entry's period.
///
/// A period whose start lies after its end pays nothing. A partial month pays
/// `active days / days in month` of the value, rounded down, or, with the
/// annual daily rate, `value × 12 × active days / 365`, rounded half up.
pub open spec fn spec_prorated(e: IncomeEntry, month: int, monthly_value: u32) -> u32 {
    if !is_paid_month(e, month) {
        0
    } else {
        let dim = spec_days_in_month(month as u8);
        let active = spec_active_days(e, month);
        if e.use_annual_daily_rate_for_partial_months && active < dim {
            cap_u32((monthly_value * 24 * active + 365) / 730)
        } else {
            (cap_u32(monthly_value * active) as int / dim as int) as u32
        }
    }
}

/// Saturating sum of the prorated value over months `1..=months`.
pub open spec fn prorated_total(e: IncomeEntry, monthly_value: u32, months: int) -> u32
    decreases months,
{
    if months <= 0 {
        0
    } else {
        cap_u32(prorated_total(e, monthly_value, months - 1) + spec_prorated(e, months, monthly_value))
    }
}

pub open spec fn spec_amount_for_month(e: IncomeEntry, month: int) -> u32 {
    if spec_is_monthly(e.kind) {
        spec_prorated(e, month, e.amount)
    } else {
        0
    }
}

/// What the entry pays over 2026 before vacation pay and salary exchange.
pub open spec fn spec_annual_amount(e: IncomeEntry) -> u32 {
    if spec_is_monthly(e.kind) {
        prorated_total(e, e.amount, 12)
    } else {
        e.amount
    }
}

/// Whether the payment period is usable: monthly rows must not end before they start.
pub open spec fn spec_entry_is_valid(e: IncomeEntry) -> bool {
    !spec_is_monthly(e.kind) || date_le(spec_clamped(e.start), spec_clamped(e.end))
}

pub open spec fn spec_payment_count(e: IncomeEntry) -> u32 {
    match e.kind {
        IncomeKind::AnnualSalary | IncomeKind::AnnualOccupationalPension => 12,
        IncomeKind::MonthlySalary | IncomeKind::MonthlyOccupationalPension => {
            if spec_entry_is_valid(e) {
                (spec_clamped(e.end).month - spec_clamped(e.start).month + 1) as u32
            } else {
                0
            }
        },
        IncomeKind::OneTimeSalary => 1,
        IncomeKind::OwnCompanyDividend => 0,
    }
}

pub open spec fn spec_requested_additional(e: IncomeEntry) -> u32 {
    let per_payment: u32 = match e.additional_withholding_per_payment {
        Some(amount) => amount,
        None => 0,
    };
    cap_u32(per_payment * spec_payment_count(e))
}

pub open spec fn spec_vacation_compensation_amount(e: IncomeEntry) -> u32 {
    match e.vacation_compensation {
        Some(vacation) if e.kind == IncomeKind::MonthlySalary => spec_vacation_amount(
            vacation,
            e.amount,
        ),
        _ => 0,
    }
}

/// The part of a one-time salary given up for pension; never more than the payment.
pub open spec fn spec_sacrifice(e: IncomeEntry) -> u32 {
    match e.salary_exchange {
        Some(exchange) if e.kind == IncomeKind::OneTimeSalary => {
            if exchange.sacrificed_salary <= e.amount {
                exchange.sacrificed_salary
            } else {
                e.amount
            }
        },
        _ => 0,
    }
}

pub open spec fn spec_exchange_contribution(e: IncomeEntry) -> u32 {
    match e.salary_exchange {
        Some(exchange) if e.kind == IncomeKind::OneTimeSalary => spec_pension_contribution(
            SalaryExchange { sacrificed_salary: spec_sacrifice(e), ..exchange },
        ),
        _ => 0,
    }
}

/// Annual amount plus vacation pay, less the salary given up in an exchange.
pub open spec fn spec_total_annual_amount(e: IncomeEntry) -> u32 {
    sat_sub(
        cap_u32(spec_annual_amount(e) + spec_vacation_compensation_amount(e)),
        spec_sacrifice(e),
    )
}

pub open spec fn spec_sgi_annual_rate(e: IncomeEntry) -> Option<u32> {
    match e.kind {
        IncomeKind::AnnualSalary => Some(spec_total_annual_amount(e)),
        IncomeKind::MonthlySalary => Some(cap_u32(e.amount * 12)),
        _ => None,
    }
}

pub open spec fn spec_full_year_adjustment_basis(e: IncomeEntry) -> u32 {
    if !e.use_full_year_projection_as_adjustment_basis {
        0
    } else {
        match e.kind {
            IncomeKind::MonthlySalary => cap_u32(e.amount * 12),
            IncomeKind::AnnualSalary => e.amount,
            _ => 0,
        }
    }
}

/// Regular employer pension premium over the year: twelve monthly premiums for
/// an annual salary, the prorated premium of each paid month for a monthly one.
pub open spec fn spec_regular_premium(e: IncomeEntry) -> u32 {
    match e.regular_pension_premium {
        Some(premium) => match e.kind {
            IncomeKind::AnnualSalary => cap_u32(
                spec_monthly_premium(premium, (e.amount / 12) as u32) * 12,
            ),
            IncomeKind::MonthlySalary => prorated_total(
                e,
                spec_monthly_premium(premium, e.amount),
                12,
            ),
            _ => 0,
        },
        None => 0,
    }
}

pub open spec fn spec_vacation_premium(e: IncomeEntry) -> u32 {
    match e.vacation_compensation {
        Some(vacation) if e.kind == IncomeKind::MonthlySalary
            && vacation.included_in_pension_salary_basis => match vacation.pension_premium_override {
            Some(amount) => amount,
            None => spec_additional_benchmark_pension_premium(vacation, e.amount),
        },
        _ => 0,
    }
}

pub open spec fn spec_pension_salary_basis(e: IncomeEntry) -> u32 {
    let regular = if e.included_in_pension_salary_basis {
        sat_sub(spec_annual_amount(e), spec_sacrifice(e))
    } else {
        0
    };
    let vacation = match e.vacation_compensation {
        Some(v) if v.included_in_pension_salary_basis => spec_vacation_compensation_amount(e),
        _ => 0,
    };
    cap_u32(regular + vacation)
}

pub open spec fn spec_total_employer_contribution(e: IncomeEntry) -> u32 {
    cap_u32(
        cap_u32(spec_regular_premium(e) + spec_vacation_premium(e)) + spec_exchange_contribution(e),
    )
}

/// Every field but the description as a new entry of `kind` has it.
pub open spec fn has_default_fields(e: IncomeEntry, id: u64, kind: IncomeKind) -> bool {
    let recurring = spec_is_recurring_salary(kind);
    &&& e.id == id
    &&& e.kind == kind
    &&& e.amount == 0
    &&& e.start == (Date2026 { month: 1, day: 1 })
    &&& e.end == (Date2026 { month: 12, day: 31 })
    &&& e.payer_role == PayerRole::Main
    &&& !e.own_company_sourced
    &&& !e.adjustment_applies
    &&& !e.use_full_year_projection_as_adjustment_basis
    &&& !e.use_annual_daily_rate_for_partial_months
    &&& e.additional_withholding_per_payment is None
    &&& e.actual_withholding is None
    &&& e.vacation_compensation is None
    &&& e.regular_pension_premium == (if recurring {
        Some(RegularPensionPremium { monthly_override: None })
    } else {
        None
    })
    &&& e.salary_exchange is None
    &&& e.included_in_pension_salary_basis == recurring
}

/// Every field of a freshly created entry of `kind`; its description is empty.
pub open spec fn is_fresh_entry(e: IncomeEntry, id: u64, kind: IncomeKind) -> bool {
    has_default_fields(e, id, kind) && e.description@ == Seq::<char>::empty()
}

/// The entry after changing its kind: fields that mean nothing for the new
/// kind are reset, and leaving a dividend restores the plan's jämkning default
/// for a main payer.
pub open spec fn spec_set_kind(e: IncomeEntry, kind: IncomeKind, adjustment_available: bool) -> IncomeEntry {
    if e.kind == kind {
        e
    } else {
        let recurring = spec_is_recurring_salary(kind);
        IncomeEntry {
            kind,
            included_in_pension_salary_basis: recurring,
            regular_pension_premium: if recurring && e.regular_pension_premium is None {
                Some(RegularPensionPremium { monthly_override: None })
            } else {
                e.regular_pension_premium
            },
            salary_exchange: if kind == IncomeKind::OneTimeSalary {
                e.salary_exchange
            } else {
                None
            },
            vacation_compensation: if kind == IncomeKind::MonthlySalary {
                e.vacation_compensation
            } else {
                None
            },
            use_full_year_projection_as_adjustment_basis: recurring
                && e.use_full_year_projection_as_adjustment_basis,
            adjustment_applies: if spec_is_dividend(kind) {
                false
            } else if spec_is_dividend(e.kind) && e.payer_role == PayerRole::Main {
                adjustment_available
            } else {
                e.adjustment_applies
            },
            additional_withholding_per_payment: if spec_is_dividend(kind) {
                None
            } else {
                e.additional_withholding_per_payment
            },
            own_company_sourced: spec_is_salary(kind) && e.own_company_sourced,
            ..e
        }
    }
}

pub open spec fn spec_set_payer_role(e: IncomeEntry, payer_role: PayerRole, adjustment_available: bool) -> IncomeEntry {
    if e.payer_role == payer_role {
        e
    } else {
        IncomeEntry {
            payer_role,
            adjustment_applies: adjustment_available && payer_role == PayerRole::Main
                && !spec_is_dividend(e.kind),
            ..e
        }
    }
}

// ---------------------------------------------------------------------------
// Laws
// ---------------------------------------------------------------------------

/// The annual daily rate changes only partial months: a month paid in full
/// gives the same value with and without it.
pub proof fn lemma_daily_rate_keeps_full_months(e: IncomeEntry, month: int, monthly_value: u32)
    requires
        is_paid_month(e, month),
        spec_active_days(e, month) == spec_days_in_month(month as u8),
    ensures
        spec_prorated(
            IncomeEntry { use_annual_daily_rate_for_partial_months: true, ..e },
            month,
            monthly_value,
        ) == spec_prorated(
            IncomeEntry { use_annual_daily_rate_for_partial_months: false, ..e },
            month,
            monthly_value,
        ),
{
}

/// A month of the period pays its share of the monthly value: by default the
/// month's active days over its length, rounded down; with the annual daily
/// rate, a partial month pays the active days at a 365th of twelve months,
/// to the nearest krona. Months outside the period pay nothing.
pub proof fn lemma_proration_shares(e: IncomeEntry, month: int, monthly_value: u32)
    requires
        monthly_value as int * 31 <= u32::MAX,
    ensures
        !is_paid_month(e, month) ==> spec_prorated(e, month, monthly_value) == 0,
        is_paid_month(e, month) ==> {
            let p = spec_prorated(e, month, monthly_value) as int;
            let days = spec_days_in_month(month as u8) as int;
            let active = spec_active_days(e, month);
            &&& 1 <= active <= days
            &&& (!e.use_annual_daily_rate_for_partial_months || active == days) ==> p * days
                <= monthly_value * active < (p + 1) * days
            &&& (e.use_annual_daily_rate_for_partial_months && active < days) ==> monthly_value
                * 24 * active - 365 < p * 730 <= monthly_value * 24 * active + 365
        },
{
    if is_paid_month(e, month) {
        let days = spec_days_in_month(month as u8) as int;
        let active = spec_active_days(e, month);
        let v = monthly_value as int;
        assert(1 <= active <= days);
        assert(0 <= v * active <= v * 31) by (nonlinear_arith)
            requires
                1 <= active <= 31,
                v >= 0,
        ;
        assert(0 <= v * 24 * active <= v * 24 * 31) by (nonlinear_arith)
            requires
                1 <= active <= 31,
                v >= 0,
        ;
    }
}

/// A month paid in full pays the monthly value, when a month's days times the
/// value fit in `u32`.
proof fn lemma_full_month_pays_value(e: IncomeEntry, month: int, monthly_value: u32)
    requires
        is_paid_month(e, month),
        spec_active_days(e, month) == spec_days_in_month(month as u8),
        monthly_value as int * 31 <= u32::MAX,
    ensures
        spec_prorated(e, month, monthly_value) == monthly_value,
{
    let dim = spec_days_in_month(month as u8) as int;
    assert(monthly_value * dim <= monthly_value * 31) by (nonlinear_arith)
        requires
            dim <= 31,
    ;
    assert((monthly_value * dim) / dim == monthly_value) by (nonlinear_arith)
        requires
            dim >= 28,
    ;
}

/// A monthly row paid from 1 January to 31 December pays twelve times its
/// monthly amount, when a month's days times the amount fit in `u32`.
pub proof fn lemma_full_year_pays_twelve_months(e: IncomeEntry)
    requires
        spec_is_monthly(e.kind),
        e.start == (Date2026 { month: 1, day: 1 }),
        e.end == (Date2026 { month: 12, day: 31 }),
        e.amount as int * 31 <= u32::MAX,
    ensures
        spec_annual_amount(e) == 12 * e.amount,
{
    assert forall|m: int| 1 <= m <= 12 implies spec_prorated(e, m, e.amount) == e.amount by {
        lemma_full_month_pays_value(e, m, e.amount);
    }
    assert forall|k: int| 0 <= k <= 12 implies prorated_total(e, e.amount, k) == k * e.amount by {
        lemma_prorated_total_of_full_months(e, k);
    }
}

proof fn lemma_prorated_total_of_full_months(e: IncomeEntry, k: int)
    requires
        0 <= k <= 12,
        forall|m: int| 1 <= m <= 12 ==> spec_prorated(e, m, e.amount) == e.amount,
        e.amount as int * 31 <= u32::MAX,
    ensures
        prorated_total(e, e.amount, k) == k * e.amount,
    decreases k,
{
    if k > 0 {
        lemma_prorated_total_of_full_months(e, k - 1);
        assert(spec_prorated(e, k, e.amount) == e.amount);
        let a = e.amount as int;
        assert((k - 1) * a + a == k * a && k * a <= 31 * a) by (nonlinear_arith)
            requires
                1 <= k <= 12,
                a >= 0,
        ;
        assert(k * a <= u32::MAX);
        assert(prorated_total(e, e.amount, k) == cap_u32(
            prorated_total(e, e.amount, k - 1) + spec_prorated(e, k, e.amount),
        ));
        assert(prorated_total(e, e.amount, k - 1) + spec_prorated(e, k, e.amount) == k * a);
    } else {
        assert(prorated_total(e, e.amount, k) == 0);
        assert(k * e.amount == 0);
    }
}

// ---------------------------------------------------------------------------
// Operations
// ---------------------------------------------------------------------------

impl IncomeEntry {
    pub fn new(id: u64, kind: IncomeKind) -> (e: Self)
        ensures
            is_fresh_entry(e, id, kind),
    {
        let recurring = matches!(kind, IncomeKind::AnnualSalary | IncomeKind::MonthlySalary);
        let regular_pension_premium = if recurring {
            Some(RegularPensionPremium::default())
        } else {
            None
        };
        Self {
            id,
            description: String::new(),
            kind,
            amount: 0,
            start: Date2026::new(1, 1),
            end: Date2026::new(12, 31),
            payer_role: PayerRole::Main,
            own_company_sourced: false,
            adjustment_applies: false,
            use_full_year_projection_as_adjustment_basis: false,
            use_annual_daily_rate_for_partial_months: false,
            additional_withholding_per_payment: None,
            actual_withholding: None,
            vacation_compensation: None,
            regular_pension_premium,
            salary_exchange: None,
            included_in_pension_salary_basis: recurring,
        }
    }

    /// Changes the income kind and resets fields that are not meaningful for
    /// the new kind. UI clients should use this instead of reproducing these
    /// domain invariants.
    pub fn set_kind(&mut self, kind: IncomeKind, adjustment_available: bool)
        ensures
            *final(self) == spec_set_kind(*old(self), kind, adjustment_available),
    {
        if self.kind == kind {
            return;
        }
        let previous_kind = self.kind;
        let recurring = matches!(kind, IncomeKind::AnnualSalary | IncomeKind::MonthlySalary);
        self.kind = kind;
        self.included_in_pension_salary_basis = recurring;
        if recurring && self.regular_pension_premium.is_none() {
            self.regular_pension_premium = Some(RegularPensionPremium::default());
        }
        if kind != IncomeKind::OneTimeSalary {
            self.salary_exchange = None;
        }
        if kind != IncomeKind::MonthlySalary {
            self.vacation_compensation = None;
        }
        if !recurring {
            self.use_full_year_projection_as_adjustment_basis = false;
        }
        if kind.is_dividend() {
            self.adjustment_applies = false;
            self.additional_withholding_per_payment = None;
        } else if previous_kind.is_dividend() && self.payer_role == PayerRole::Main {
            self.adjustment_applies = adjustment_available;
        }
        if !kind.is_salary() {
            self.own_company_sourced = false;
        }
    }

    /// Changes the payer role and applies the plan's default jämkning choice.
    /// The user can still override `adjustment_applies` after changing the role.
    pub fn set_payer_role(&mut self, payer_role: PayerRole, adjustment_available: bool)
        ensures
            *final(self) == spec_set_payer_role(*old(self), payer_role, adjustment_available),
    {
        if self.payer_role == payer_role {
            return;
        }
        self.payer_role = payer_role;
        self.adjustment_applies = adjustment_available && payer_role == PayerRole::Main
            && !self.kind.is_dividend();
    }

    /// Turning the extra-tax request on starts at 1 000 kr per payment; turning
    /// it off clears it. An unchanged setting keeps the current amount.
    pub fn set_additional_withholding_enabled(&mut self, enabled: bool)
        ensures
            *final(self) == (IncomeEntry {
                additional_withholding_per_payment: if enabled
                    == (old(self).additional_withholding_per_payment is Some) {
                    old(self).additional_withholding_per_payment
                } else if enabled {
                    Some(1_000u32)
                } else {
                    None
                },
                ..*old(self)
            }),
    {
        if enabled == self.additional_withholding_per_payment.is_some() {
            return;
        }
        self.additional_withholding_per_payment = if enabled {
            Some(1_000)
        } else {
            None
        };
    }

    /// Turning the actual-withholding amount on starts at zero; turning it off
    /// clears it. An unchanged setting keeps the current amount.
    pub fn set_actual_withholding_enabled(&mut self, enabled: bool)
        ensures
            *final(self) == (IncomeEntry {
                actual_withholding: if enabled == (old(self).actual_withholding is Some) {
                    old(self).actual_withholding
                } else if enabled {
                    Some(0u32)
                } else {
                    None
                },
                ..*old(self)
            }),
    {
        if enabled == self.actual_withholding.is_some() {
            return;
        }
        self.actual_withholding = if enabled {
            Some(0)
        } else {
            None
        };
    }

    fn prorated_monthly_value(&self, month: u8, monthly_value: u32) -> (r: u32)
        ensures
            r == spec_prorated(*self, month as int, monthly_value),
    {
        if !self.start.is_on_or_before(self.end) || month < 1 || month > 12 {
            return 0;
        }
        let start = self.start.clamped();
        let end = self.end.clamped();
        if month < start.month || month > end.month {
            return 0;
        }
        let days_in_month = Date2026::days_in_month(month);
        let first_day = if month == start.month {
            start.day
        } else {
            1
        };
        let last_day = if month == end.month {
            end.day
        } else {
            days_in_month
        };
        let active_days = (last_day.saturating_sub(first_day) + 1) as u32;
        if self.use_annual_daily_rate_for_partial_months && active_days < days_in_month as u32 {
            proof {
                vstd::arithmetic::mul::lemma_mul_upper_bound(
                    monthly_value as int * 24,
                    u32::MAX as int * 24,
                    active_days as int,
                    31,
                );
            }
            let value = (monthly_value as u64 * 24 * active_days as u64 + 365) / 730;
            if value > u32::MAX as u64 {
                u32::MAX
            } else {
                value as u32
            }
        } else {
            sat_mul(monthly_value, active_days) / days_in_month as u32
        }
    }

    fn prorated_year_total(&self, monthly_value: u32) -> (r: u32)
        ensures
            r == prorated_total(*self, monthly_value, 12),
    {
        let mut total: u32 = 0;
        let mut month: u8 = 1;
        while month <= 12
            invariant
                1 <= month <= 13,
                total == prorated_total(*self, monthly_value, month - 1),
            decreases 13 - month,
        {
            total = total.saturating_add(self.prorated_monthly_value(month, monthly_value));
            month = month + 1;
        }
        total
    }

    pub fn annual_amount(&self) -> (r: u32)
        ensures
            r == spec_annual_amount(*self),
    {
        if self.kind.is_monthly() {
            self.prorated_year_total(self.amount)
        } else {
            self.amount
        }
    }

    pub fn withholding_payment_count(&self) -> (r: u32)
        ensures
            r == spec_payment_count(*self),
    {
        match self.kind {
            IncomeKind::AnnualSalary | IncomeKind::AnnualOccupationalPension => 12,
            IncomeKind::MonthlySalary | IncomeKind::MonthlyOccupationalPension => {
                let start = self.start.clamped();
                let end = self.end.clamped();
                if start.is_on_or_before(end) {
                    (end.month - start.month + 1) as u32
                } else {
                    0
                }
            },
            IncomeKind::OneTimeSalary => 1,
            IncomeKind::OwnCompanyDividend => 0,
        }
    }

    pub fn requested_additional_withholding(&self) -> (r: u32)
        ensures
            r == spec_requested_additional(*self),
    {
        let per_payment = match self.additional_withholding_per_payment {
            Some(amount) => amount,
            None => 0,
        };
        sat_mul(per_payment, self.withholding_payment_count())
    }

    pub fn amount_for_month(&self, month: u8) -> (r: u32)
        ensures
            r == spec_amount_for_month(*self, month as int),
    {
        if !self.kind.is_monthly() {
            return 0;
        }
        self.prorated_monthly_value(month, self.amount)
    }

    pub fn is_valid(&self) -> (b: bool)
        ensures
            b == spec_entry_is_valid(*self),
    {
        !self.kind.is_monthly() || self.start.clamped().is_on_or_before(self.end.clamped())
    }

    pub fn total_annual_amount(&self) -> (r: u32)
        ensures
            r == spec_total_annual_amount(*self),
    {
        self.annual_amount().saturating_add(self.vacation_compensation_amount()).saturating_sub(
            self.salary_exchange_sacrifice(),
        )
    }

    /// Salary counts toward pensionable income; other kinds give `None`.
    pub fn pgi_eligible_income(&self) -> (r: Option<u32>)
        ensures
            r == (if spec_is_salary(self.kind) {
                Some(spec_total_annual_amount(*self))
            } else {
                None
            }),
    {
        if self.kind.is_pgi_eligible() {
            Some(self.total_annual_amount())
        } else {
            None
        }
    }

    pub fn sgi_annual_rate(&self) -> (r: Option<u32>)
        ensures
            r == spec_sgi_annual_rate(*self),
    {
        match self.kind {
            IncomeKind::AnnualSalary => Some(self.total_annual_amount()),
            IncomeKind::MonthlySalary => Some(sat_mul(self.amount, 12)),
            _ => None,
        }
    }

    pub fn total_employer_pension_contribution(&self) -> (r: u32)
        ensures
            r == spec_total_employer_contribution(*self),
    {
        self.regular_pension_premium_amount().saturating_add(
            self.vacation_pension_premium_amount(),
        ).saturating_add(self.salary_exchange_pension_contribution())
    }

    pub fn regular_pension_benchmark_monthly(&self) -> (r: Option<u32>)
        ensures
            r == (match self.kind {
                IncomeKind::AnnualSalary => Some(spec_benchmark_monthly((self.amount / 12) as u32)),
                IncomeKind::MonthlySalary => Some(spec_benchmark_monthly(self.amount)),
                _ => None,
            }),
    {
        match self.kind {
            IncomeKind::AnnualSalary => Some(
                RegularPensionPremium::benchmark_monthly(self.amount / 12),
            ),
            IncomeKind::MonthlySalary => Some(RegularPensionPremium::benchmark_monthly(self.amount)),
            _ => None,
        }
    }

    pub fn full_year_adjustment_basis_amount(&self) -> (r: u32)
        ensures
            r == spec_full_year_adjustment_basis(*self),
    {
        if !self.use_full_year_projection_as_adjustment_basis {
            return 0;
        }
        match self.kind {
            IncomeKind::MonthlySalary => sat_mul(self.amount, 12),
            IncomeKind::AnnualSalary => self.amount,
            _ => 0,
        }
    }

    pub fn vacation_compensation_amount(&self) -> (r: u32)
        ensures
            r == spec_vacation_compensation_amount(*self),
    {
        if self.kind != IncomeKind::MonthlySalary {
            return 0;
        }
        match self.vacation_compensation {
            Some(vacation) => vacation.amount(self.amount),
            None => 0,
        }
    }

    pub fn regular_pension_premium_amount(&self) -> (r: u32)
        ensures
            r == spec_regular_premium(*self),
    {
        let premium = match self.regular_pension_premium {
            Some(premium) => premium,
            None => {
                return 0;
            },
        };
        match self.kind {
            IncomeKind::AnnualSalary => sat_mul(premium.monthly_amount(self.amount / 12), 12),
            IncomeKind::MonthlySalary => {
                let monthly_premium = premium.monthly_amount(self.amount);
                self.prorated_year_total(monthly_premium)
            },
            _ => 0,
        }
    }

    pub fn vacation_pension_premium_amount(&self) -> (r: u32)
        ensures
            r == spec_vacation_premium(*self),
    {
        let vacation = match self.vacation_compensation {
            Some(vacation) => vacation,
            None => {
                return 0;
            },
        };
        if self.kind != IncomeKind::MonthlySalary || !vacation.included_in_pension_salary_basis {
            return 0;
        }
        match vacation.pension_premium_override {
            Some(amount) => amount,
            None => vacation.additional_benchmark_pension_premium(self.amount),
        }
    }

    pub fn pension_salary_basis_amount(&self) -> (r: u32)
        ensures
            r == spec_pension_salary_basis(*self),
    {
        let regular = if self.included_in_pension_salary_basis {
            self.annual_amount().saturating_sub(self.salary_exchange_sacrifice())
        } else {
            0
        };
        let vacation = match self.vacation_compensation {
            Some(v) => {
                if v.included_in_pension_salary_basis {
                    self.vacation_compensation_amount()
                } else {
                    0
                }
            },
            None => 0,
        };
        regular.saturating_add(vacation)
    }

    pub fn salary_exchange_sacrifice(&self) -> (r: u32)
        ensures
            r == spec_sacrifice(*self),
            r <= self.amount,
    {
        if self.kind != IncomeKind::OneTimeSalary {
            return 0;
        }
        match self.salary_exchange {
            Some(exchange) => {
                if exchange.sacrificed_salary <= self.amount {
                    exchange.sacrificed_salary
                } else {
                    self.amount
                }
            },
            None => 0,
        }
    }

    pub fn salary_exchange_pension_contribution(&self) -> (r: u32)
        ensures
            r == spec_exchange_contribution(*self),
    {
        if self.kind != IncomeKind::OneTimeSalary {
            return 0;
        }
        match self.salary_exchange {
            Some(exchange) => {
                let mut applied = exchange;
                applied.sacrificed_salary = self.salary_exchange_sacrifice();
                applied.pension_contribution()
            },
            None => 0,
        }
    }
}

} // verus!
