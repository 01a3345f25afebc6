//! An income plan for 2026: its rows, their totals, the salary-exchange
//! allowance of each one-time payment, and the checks that make a plan usable.
use vstd::prelude::*;

use crate::arith::{cap_u32, sat_sub};
use crate::dates::{spec_clamped, Date2026};
use crate::dividend_allowance::{
    default_dividend_inputs, spec_dividend_allowance, DividendAllowance2027,
    DividendAllowanceInputs2027, DividendAllowanceIssue,
};
use crate::entry::{
    has_default_fields, prorated_total, spec_prorated, is_fresh_entry, spec_entry_is_valid, spec_exchange_contribution,
    spec_full_year_adjustment_basis, spec_pension_salary_basis, spec_regular_premium,
    spec_sacrifice, spec_sgi_annual_rate, spec_total_annual_amount,
    spec_vacation_compensation_amount, spec_vacation_premium, IncomeEntry,
};
use crate::income_kind::{
    spec_is_dividend, spec_is_salary, spec_tax_category, IncomeKind, IncomeTaxCategory, PayerRole,
};
use crate::pension::{
    lemma_maximum_sacrifice_ignores_current, spec_allowance_ceiling, spec_maximum_sacrifice,
    spec_pension_contribution, with_sacrifice, SalaryExchange,
};

verus! {

/// Annual work and pension income, the inputs of the annual tax formula.
#[derive(Clone, Copy, Debug, PartialEq, Eq, Structural)]
pub struct AnnualIncomeProfile {
    pub work_income: u32,
    pub pension_income: u32,
}

#[derive(Clone, Debug, PartialEq, Eq)]
pub struct IncomePlan {
    pub entries: Vec<IncomeEntry>,
    pub adjustment_percent: Option<u32>,
    pub dividend_allowance: DividendAllowanceInputs2027,
    /// The id that the next added entry receives.
    pub next_id: u64,
}

#[derive(Clone, Copy, Debug, PartialEq, Eq, Structural)]
pub enum IncomePlanValidationIssue {
    InvalidPaymentPeriod { entry_id: u64 },
    SalaryExchangeExceedsAllowance { entry_id: u64, maximum: u32 },
}

#[derive(Clone, Copy, Debug, PartialEq, Eq, Structural)]
pub struct IncomePlanTotals {
    pub work_income: u32,
    pub pension_income: u32,
    pub dividend_income: u32,
    pub sgi_annual_rate: u32,
    pub adjustment_basis_work_income: u32,
    pub pension_salary_basis: u32,
    pub regular_pension_premiums: u32,
    pub vacation_pension_premiums: u32,
    pub salary_exchange_sacrifice: u32,
    pub salary_exchange_pension_contributions: u32,
}

#[derive(Clone, Copy, Debug, PartialEq, Eq, Structural)]
pub struct SalaryExchangeAllowance {
    pub ceiling: u32,
    pub previous_year_pension_salary_basis: Option<u32>,
    pub pension_and_insurance_costs_before_exchange: Option<u32>,
    pub pension_salary_basis_before: u32,
    pub pension_salary_basis_after: u32,
    pub pension_contributions_before: u32,
    pub regular_pension_premiums: u32,
    pub vacation_pension_premiums: u32,
    pub other_exchange_contributions: u32,
    pub selected_exchange_contribution: u32,
    pub total_employer_pension_contributions: u32,
    pub available_contribution: u32,
    pub maximum_sacrifice: u32,
}

/// What the rest of a plan contributes to one salary exchange.
#[derive(Clone, Copy, Debug, PartialEq, Eq, Structural)]
pub struct SalaryExchangeContext {
    pub regular_pension_premiums: u32,
    pub vacation_pension_premiums: u32,
    pub other_exchange_contributions: u32,
    pub other_pension_salary_basis: u32,
}

// ---------------------------------------------------------------------------
// Model
// ---------------------------------------------------------------------------

pub open spec fn zero_totals() -> IncomePlanTotals {
    IncomePlanTotals {
        work_income: 0,
        pension_income: 0,
        dividend_income: 0,
        sgi_annual_rate: 0,
        adjustment_basis_work_income: 0,
        pension_salary_basis: 0,
        regular_pension_premiums: 0,
        vacation_pension_premiums: 0,
        salary_exchange_sacrifice: 0,
        salary_exchange_pension_contributions: 0,
    }
}

/// The totals after one more entry: every sum saturates at `u32::MAX`, and the
/// entry's total amount goes to exactly one of work, pension and dividend income.
pub open spec fn add_to_totals(t: IncomePlanTotals, e: IncomeEntry) -> IncomePlanTotals {
    let amount = spec_total_annual_amount(e);
    let category = spec_tax_category(e.kind);
    IncomePlanTotals {
        work_income: if category == IncomeTaxCategory::Work {
            cap_u32(t.work_income + amount)
        } else {
            t.work_income
        },
        pension_income: if category == IncomeTaxCategory::Pension {
            cap_u32(t.pension_income + amount)
        } else {
            t.pension_income
        },
        dividend_income: if category == IncomeTaxCategory::Dividend {
            cap_u32(t.dividend_income + amount)
        } else {
            t.dividend_income
        },
        sgi_annual_rate: match spec_sgi_annual_rate(e) {
            Some(rate) => cap_u32(t.sgi_annual_rate + rate),
            None => t.sgi_annual_rate,
        },
        adjustment_basis_work_income: cap_u32(
            t.adjustment_basis_work_income + spec_full_year_adjustment_basis(e),
        ),
        pension_salary_basis: cap_u32(t.pension_salary_basis + spec_pension_salary_basis(e)),
        regular_pension_premiums: cap_u32(t.regular_pension_premiums + spec_regular_premium(e)),
        vacation_pension_premiums: cap_u32(t.vacation_pension_premiums + spec_vacation_premium(e)),
        salary_exchange_sacrifice: cap_u32(t.salary_exchange_sacrifice + spec_sacrifice(e)),
        salary_exchange_pension_contributions: cap_u32(
            t.salary_exchange_pension_contributions + spec_exchange_contribution(e),
        ),
    }
}

/// The totals of a sequence of entries, taken in order.
pub open spec fn spec_totals(entries: Seq<IncomeEntry>) -> IncomePlanTotals
    decreases entries.len(),
{
    if entries.len() == 0 {
        zero_totals()
    } else {
        add_to_totals(spec_totals(entries.drop_last()), entries.last())
    }
}

/// Saturating total of the salary rows marked as paid by the owner's company.
pub open spec fn own_company_total(entries: Seq<IncomeEntry>) -> u32
    decreases entries.len(),
{
    if entries.len() == 0 {
        0
    } else {
        let e = entries.last();
        let before = own_company_total(entries.drop_last());
        if spec_is_salary(e.kind) && e.own_company_sourced {
            cap_u32(before + spec_total_annual_amount(e))
        } else {
            before
        }
    }
}

/// The index of the first entry that satisfies `p`.
pub open spec fn first_index(entries: Seq<IncomeEntry>, p: spec_fn(IncomeEntry) -> bool) -> Option<int>
    decreases entries.len(),
{
    if entries.len() == 0 {
        None
    } else {
        match first_index(entries.drop_last(), p) {
            Some(i) => Some(i),
            None => if p(entries.last()) {
                Some(entries.len() - 1)
            } else {
                None
            },
        }
    }
}

pub open spec fn has_id(id: u64) -> spec_fn(IncomeEntry) -> bool {
    |e: IncomeEntry| e.id == id
}

pub open spec fn lacks_id(id: u64) -> spec_fn(IncomeEntry) -> bool {
    |e: IncomeEntry| e.id != id
}

pub open spec fn is_invalid_entry() -> spec_fn(IncomeEntry) -> bool {
    |e: IncomeEntry| !spec_entry_is_valid(e)
}

pub open spec fn spec_ordinary_income(t: IncomePlanTotals) -> u32 {
    cap_u32(t.work_income + t.pension_income)
}

pub open spec fn spec_total_employer_contributions(t: IncomePlanTotals) -> u32 {
    cap_u32(
        cap_u32(t.regular_pension_premiums + t.vacation_pension_premiums)
            + t.salary_exchange_pension_contributions,
    )
}

/// The plan around one entry: every other entry's premiums, exchange
/// contributions and pension salary basis.
pub open spec fn spec_context(entries: Seq<IncomeEntry>, e: IncomeEntry) -> SalaryExchangeContext {
    let t = spec_totals(entries);
    SalaryExchangeContext {
        regular_pension_premiums: t.regular_pension_premiums,
        vacation_pension_premiums: t.vacation_pension_premiums,
        other_exchange_contributions: sat_sub(
            t.salary_exchange_pension_contributions,
            spec_exchange_contribution(e),
        ),
        other_pension_salary_basis: sat_sub(t.pension_salary_basis, spec_pension_salary_basis(e)),
    }
}

/// Employer pension costs before the exchange: the confirmed total when one is
/// given, else the plan's premiums and other exchanges.
pub open spec fn contributions_before(c: SalaryExchangeContext, exchange: SalaryExchange) -> u32 {
    match exchange.pension_and_insurance_costs_before_exchange {
        Some(costs) => costs,
        None => cap_u32(
            cap_u32(c.regular_pension_premiums + c.vacation_pension_premiums)
                + c.other_exchange_contributions,
        ),
    }
}

/// The pension salary basis before the exchange: a fixed previous-year basis
/// when one is given, else the plan's basis including this payment when it is pensionable.
pub open spec fn basis_before(
    c: SalaryExchangeContext,
    payment_amount: u32,
    included: bool,
    exchange: SalaryExchange,
) -> u32 {
    match exchange.previous_year_pension_salary_basis {
        Some(basis) => basis,
        None => cap_u32(c.other_pension_salary_basis + if included {
            payment_amount
        } else {
            0
        }),
    }
}

/// The sacrifice lowers the basis only when the basis is this year's and the
/// payment is part of it.
pub open spec fn sacrifice_lowers_basis(included: bool, exchange: SalaryExchange) -> bool {
    included && exchange.previous_year_pension_salary_basis is None
}

pub open spec fn spec_allowance_for(
    c: SalaryExchangeContext,
    payment_amount: u32,
    included: bool,
    exchange: SalaryExchange,
) -> SalaryExchangeAllowance {
    let before = contributions_before(c, exchange);
    let basis = basis_before(c, payment_amount, included, exchange);
    let lowers = sacrifice_lowers_basis(included, exchange);
    let maximum = spec_maximum_sacrifice(exchange, payment_amount, basis, before, lowers);
    let sacrifice = if exchange.sacrificed_salary <= maximum {
        exchange.sacrificed_salary
    } else {
        maximum
    };
    let basis_after = if lowers {
        sat_sub(basis, sacrifice)
    } else {
        basis
    };
    let ceiling = spec_allowance_ceiling(basis_after);
    let selected = spec_pension_contribution(
        SalaryExchange { sacrificed_salary: sacrifice, ..exchange },
    );
    SalaryExchangeAllowance {
        ceiling,
        previous_year_pension_salary_basis: exchange.previous_year_pension_salary_basis,
        pension_and_insurance_costs_before_exchange: exchange.pension_and_insurance_costs_before_exchange,
        pension_salary_basis_before: basis,
        pension_salary_basis_after: basis_after,
        pension_contributions_before: before,
        regular_pension_premiums: c.regular_pension_premiums,
        vacation_pension_premiums: c.vacation_pension_premiums,
        other_exchange_contributions: c.other_exchange_contributions,
        selected_exchange_contribution: selected,
        total_employer_pension_contributions: cap_u32(before + selected),
        available_contribution: sat_sub(ceiling, before),
        maximum_sacrifice: maximum,
    }
}

/// The context of the first entry with `id`.
pub open spec fn spec_context_of(entries: Seq<IncomeEntry>, id: u64) -> Option<SalaryExchangeContext> {
    match first_index(entries, has_id(id)) {
        Some(i) => Some(spec_context(entries, entries[i])),
        None => None,
    }
}

/// The allowance of the first entry with `id`, when that entry has a salary exchange.
pub open spec fn spec_allowance(entries: Seq<IncomeEntry>, id: u64) -> Option<SalaryExchangeAllowance> {
    match first_index(entries, has_id(id)) {
        Some(i) => match entries[i].salary_exchange {
            Some(exchange) => Some(
                spec_allowance_for(
                    spec_context(entries, entries[i]),
                    entries[i].amount,
                    entries[i].included_in_pension_salary_basis,
                    exchange,
                ),
            ),
            None => None,
        },
        None => None,
    }
}

/// An entry whose exchange gives up more than its allowance admits.
pub open spec fn exceeds_allowance(entries: Seq<IncomeEntry>) -> spec_fn(IncomeEntry) -> bool {
    |e: IncomeEntry|
        match (e.salary_exchange, spec_allowance(entries, e.id)) {
            (Some(exchange), Some(allowance)) => exchange.sacrificed_salary
                > allowance.maximum_sacrifice,
            _ => false,
        }
}

/// The first problem that makes a plan unusable: an invalid payment period
/// takes precedence over an excessive salary exchange.
pub open spec fn spec_validation_issue(entries: Seq<IncomeEntry>) -> Option<IncomePlanValidationIssue> {
    match first_index(entries, is_invalid_entry()) {
        Some(i) => Some(IncomePlanValidationIssue::InvalidPaymentPeriod { entry_id: entries[i].id }),
        None => match first_index(entries, exceeds_allowance(entries)) {
            Some(i) => Some(
                IncomePlanValidationIssue::SalaryExchangeExceedsAllowance {
                    entry_id: entries[i].id,
                    maximum: spec_allowance(entries, entries[i].id).unwrap().maximum_sacrifice,
                },
            ),
            None => None,
        },
    }
}

/// One main-payer salary row without adjustments, extras or vacation pay, paid
/// over the whole year.
pub open spec fn spec_uniform_reference(entries: Seq<IncomeEntry>) -> bool {
    entries.len() == 1 && {
        let e = entries[0];
        &&& e.payer_role == PayerRole::Main
        &&& !e.adjustment_applies
        &&& e.additional_withholding_per_payment is None
        &&& e.actual_withholding is None
        &&& spec_vacation_compensation_amount(e) == 0
        &&& match e.kind {
            IncomeKind::AnnualSalary => true,
            IncomeKind::MonthlySalary => spec_clamped(e.start) == (Date2026 { month: 1, day: 1 })
                && spec_clamped(e.end) == (Date2026 { month: 12, day: 31 }),
            _ => false,
        }
    }
}

/// An entry with the jämkning default of a newly enabled or disabled decision.
pub open spec fn with_adjustment_default(e: IncomeEntry, enabled: bool) -> IncomeEntry {
    IncomeEntry {
        adjustment_applies: enabled && e.payer_role == PayerRole::Main && !spec_is_dividend(e.kind),
        ..e
    }
}

/// A new row as `add_entry` creates it, with an id and a jämkning default.
pub open spec fn is_added_entry(e: IncomeEntry, id: u64, kind: IncomeKind, adjustment_enabled: bool) -> bool {
    &&& is_fresh_entry(IncomeEntry { adjustment_applies: false, ..e }, id, kind)
    &&& e.adjustment_applies == (adjustment_enabled && !spec_is_dividend(kind))
}

// ---------------------------------------------------------------------------
// Lemmas
// ---------------------------------------------------------------------------

proof fn lemma_first_index_prefix(s: Seq<IncomeEntry>, p: spec_fn(IncomeEntry) -> bool, k: int)
    requires
        0 <= k <= s.len(),
        first_index(s.subrange(0, k), p) is Some,
    ensures
        first_index(s, p) == first_index(s.subrange(0, k), p),
    decreases s.len(),
{
    if k == s.len() {
        assert(s.subrange(0, k) =~= s);
    } else {
        assert(s.drop_last().subrange(0, k) =~= s.subrange(0, k));
        lemma_first_index_prefix(s.drop_last(), p, k);
    }
}

proof fn lemma_first_index_found(s: Seq<IncomeEntry>, p: spec_fn(IncomeEntry) -> bool, i: int)
    requires
        0 <= i < s.len(),
        first_index(s.subrange(0, i), p) is None,
        p(s[i]),
    ensures
        first_index(s, p) == Some(i),
{
    assert(s.subrange(0, i + 1).drop_last() =~= s.subrange(0, i));
    lemma_first_index_prefix(s, p, i + 1);
}

proof fn lemma_first_index_step(s: Seq<IncomeEntry>, p: spec_fn(IncomeEntry) -> bool, i: int)
    requires
        0 <= i < s.len(),
        first_index(s.subrange(0, i), p) is None,
        !p(s[i]),
    ensures
        first_index(s.subrange(0, i + 1), p) is None,
{
    assert(s.subrange(0, i + 1).drop_last() =~= s.subrange(0, i));
}

/// Some entry satisfies `p` exactly when there is a first one.
proof fn lemma_first_index_exists(s: Seq<IncomeEntry>, p: spec_fn(IncomeEntry) -> bool, i: int)
    requires
        0 <= i < s.len(),
        p(s[i]),
    ensures
        first_index(s, p) matches Some(j) && 0 <= j <= i,
    decreases s.len(),
{
    if i < s.len() - 1 {
        assert(s.drop_last()[i] == s[i]);
        lemma_first_index_exists(s.drop_last(), p, i);
    } else if first_index(s.drop_last(), p) is Some {
        lemma_first_index_bounded(s.drop_last(), p);
    }
}

proof fn lemma_first_index_bounded(s: Seq<IncomeEntry>, p: spec_fn(IncomeEntry) -> bool)
    ensures
        first_index(s, p) matches Some(j) ==> 0 <= j < s.len(),
    decreases s.len(),
{
    if s.len() > 0 {
        lemma_first_index_bounded(s.drop_last(), p);
    }
}

/// A salary exchange that gives up more than its allowance admits makes the
/// plan invalid: unless a payment period is invalid, validation reports an
/// excessive exchange, with the maximum its allowance admits.
pub proof fn lemma_excessive_exchange_invalidates_plan(entries: Seq<IncomeEntry>, i: int)
    requires
        0 <= i < entries.len(),
        forall|k: int| 0 <= k < entries.len() ==> spec_entry_is_valid(#[trigger] entries[k]),
        entries[i].salary_exchange is Some,
        spec_allowance(entries, entries[i].id) is Some,
        entries[i].salary_exchange.unwrap().sacrificed_salary > spec_allowance(
            entries,
            entries[i].id,
        ).unwrap().maximum_sacrifice,
    ensures
        spec_validation_issue(entries) matches Some(
            IncomePlanValidationIssue::SalaryExchangeExceedsAllowance { entry_id, maximum },
        ) && maximum == spec_allowance(entries, entry_id).unwrap().maximum_sacrifice,
{
    lemma_no_invalid_entry(entries);
    let exceeds = exceeds_allowance(entries);
    assert(exceeds(entries[i]));
    lemma_first_index_exists(entries, exceeds, i);
}

proof fn lemma_no_invalid_entry(entries: Seq<IncomeEntry>)
    requires
        forall|k: int| 0 <= k < entries.len() ==> spec_entry_is_valid(#[trigger] entries[k]),
    ensures
        first_index(entries, is_invalid_entry()) is None,
    decreases entries.len(),
{
    if entries.len() > 0 {
        let shorter = entries.drop_last();
        assert forall|k: int| 0 <= k < shorter.len() implies spec_entry_is_valid(
            #[trigger] shorter[k],
        ) by {
            assert(shorter[k] == entries[k]);
        }
        lemma_no_invalid_entry(shorter);
        assert(spec_entry_is_valid(entries[entries.len() - 1]));
    }
}

/// Sum, without saturation, of an amount over entries.
pub open spec fn field_sum(s: Seq<IncomeEntry>, f: spec_fn(IncomeEntry) -> u32) -> int
    decreases s.len(),
{
    if s.len() == 0 {
        0
    } else {
        field_sum(s.drop_last(), f) + f(s.last())
    }
}

pub open spec fn regular_premium_of() -> spec_fn(IncomeEntry) -> u32 {
    |e: IncomeEntry| spec_regular_premium(e)
}

pub open spec fn vacation_premium_of() -> spec_fn(IncomeEntry) -> u32 {
    |e: IncomeEntry| spec_vacation_premium(e)
}

pub open spec fn exchange_contribution_of() -> spec_fn(IncomeEntry) -> u32 {
    |e: IncomeEntry| spec_exchange_contribution(e)
}

pub open spec fn pension_basis_of() -> spec_fn(IncomeEntry) -> u32 {
    |e: IncomeEntry| spec_pension_salary_basis(e)
}

/// The pension figures that a salary exchange's context is made of stay below
/// `u32::MAX` when summed over the entries.
pub open spec fn pension_sums_fit(s: Seq<IncomeEntry>) -> bool {
    &&& field_sum(s, regular_premium_of()) <= u32::MAX
    &&& field_sum(s, vacation_premium_of()) <= u32::MAX
    &&& field_sum(s, exchange_contribution_of()) <= u32::MAX
    &&& field_sum(s, pension_basis_of()) <= u32::MAX
}

proof fn lemma_field_sum_nonnegative(s: Seq<IncomeEntry>, f: spec_fn(IncomeEntry) -> u32)
    ensures
        field_sum(s, f) >= 0,
        s.len() > 0 ==> field_sum(s.drop_last(), f) <= field_sum(s, f),
    decreases s.len(),
{
    if s.len() > 0 {
        lemma_field_sum_nonnegative(s.drop_last(), f);
    }
}

/// Without saturation the plan's pension totals are the plain sums.
proof fn lemma_pension_totals_exact(s: Seq<IncomeEntry>)
    requires
        pension_sums_fit(s),
    ensures
        spec_totals(s).regular_pension_premiums == field_sum(s, regular_premium_of()),
        spec_totals(s).vacation_pension_premiums == field_sum(s, vacation_premium_of()),
        spec_totals(s).salary_exchange_pension_contributions == field_sum(
            s,
            exchange_contribution_of(),
        ),
        spec_totals(s).pension_salary_basis == field_sum(s, pension_basis_of()),
    decreases s.len(),
{
    if s.len() > 0 {
        lemma_field_sum_nonnegative(s, regular_premium_of());
        lemma_field_sum_nonnegative(s, vacation_premium_of());
        lemma_field_sum_nonnegative(s, exchange_contribution_of());
        lemma_field_sum_nonnegative(s, pension_basis_of());
        lemma_pension_totals_exact(s.drop_last());
    }
}

/// Replacing one entry changes a sum by the difference of the two entries.
proof fn lemma_field_sum_update(
    s: Seq<IncomeEntry>,
    i: int,
    e: IncomeEntry,
    f: spec_fn(IncomeEntry) -> u32,
)
    requires
        0 <= i < s.len(),
    ensures
        field_sum(s.update(i, e), f) == field_sum(s, f) - f(s[i]) + f(e),
    decreases s.len(),
{
    let t = s.update(i, e);
    if i == s.len() - 1 {
        assert(t.drop_last() =~= s.drop_last());
    } else {
        assert(t.drop_last() =~= s.drop_last().update(i, e));
        lemma_field_sum_update(s.drop_last(), i, e, f);
    }
}

/// Replacing an entry by one with the same id keeps the first index of that id.
proof fn lemma_first_index_update_same_id(s: Seq<IncomeEntry>, i: int, e: IncomeEntry, id: u64)
    requires
        0 <= i < s.len(),
        e.id == s[i].id,
    ensures
        first_index(s.update(i, e), has_id(id)) == first_index(s, has_id(id)),
    decreases s.len(),
{
    let t = s.update(i, e);
    if i == s.len() - 1 {
        assert(t.drop_last() =~= s.drop_last());
    } else {
        assert(t.drop_last() =~= s.drop_last().update(i, e));
        lemma_first_index_update_same_id(s.drop_last(), i, e, id);
    }
}

/// Prorated amounts depend only on the payment period and the daily-rate choice.
proof fn lemma_prorated_total_same_period(a: IncomeEntry, b: IncomeEntry, months: int)
    requires
        a.start == b.start,
        a.end == b.end,
        a.use_annual_daily_rate_for_partial_months == b.use_annual_daily_rate_for_partial_months,
    ensures
        forall|v: u32| #[trigger] prorated_total(a, v, months) == prorated_total(b, v, months),
    decreases months,
{
    if months > 0 {
        lemma_prorated_total_same_period(a, b, months - 1);
        assert forall|v: u32| #[trigger] prorated_total(a, v, months) == prorated_total(b, v, months) by {
            assert(prorated_total(a, v, months - 1) == prorated_total(b, v, months - 1));
            assert(spec_prorated(a, months, v) == spec_prorated(b, months, v));
        }
    }
}

/// The entry with a salary exchange of `exchange` giving up `sacrifice` instead.
pub open spec fn with_exchange_sacrifice(e: IncomeEntry, exchange: SalaryExchange, sacrifice: u32) -> IncomeEntry {
    IncomeEntry { salary_exchange: Some(with_sacrifice(exchange, sacrifice)), ..e }
}

/// Giving up exactly the maximum that an exchange's allowance reports keeps
/// the plan within that allowance: the allowance, recalculated, reports the
/// same maximum, so the exchange does not exceed it. This holds when the first
/// entry with the id is the one changed and the plan's pension figures do not
/// reach `u32::MAX`.
pub proof fn lemma_maximum_sacrifice_is_accepted(
    entries: Seq<IncomeEntry>,
    i: int,
    exchange: SalaryExchange,
)
    requires
        0 <= i < entries.len(),
        first_index(entries, has_id(entries[i].id)) == Some(i),
        entries[i].salary_exchange == Some(exchange),
        pension_sums_fit(entries),
        pension_sums_fit(
            entries.update(
                i,
                with_exchange_sacrifice(
                    entries[i],
                    exchange,
                    spec_allowance(entries, entries[i].id).unwrap().maximum_sacrifice,
                ),
            ),
        ),
    ensures
        ({
            let id = entries[i].id;
            let maximum = spec_allowance(entries, id).unwrap().maximum_sacrifice;
            let updated = entries.update(i, with_exchange_sacrifice(entries[i], exchange, maximum));
            &&& spec_allowance(updated, id) is Some
            &&& spec_allowance(updated, id).unwrap().maximum_sacrifice == maximum
            &&& !exceeds_allowance(updated)(updated[i])
        }),
{
    let id = entries[i].id;
    let e = entries[i];
    let maximum = spec_allowance(entries, id).unwrap().maximum_sacrifice;
    let changed = with_exchange_sacrifice(e, exchange, maximum);
    let updated = entries.update(i, changed);
    lemma_first_index_update_same_id(entries, i, changed, id);
    assert(updated[i] == changed);
    lemma_pension_totals_exact(entries);
    lemma_pension_totals_exact(updated);
    lemma_field_sum_update(entries, i, changed, regular_premium_of());
    lemma_field_sum_update(entries, i, changed, vacation_premium_of());
    lemma_field_sum_update(entries, i, changed, exchange_contribution_of());
    lemma_field_sum_update(entries, i, changed, pension_basis_of());
    lemma_prorated_total_same_period(changed, e, 12);
    assert(spec_regular_premium(changed) == spec_regular_premium(e));
    assert(spec_vacation_premium(changed) == spec_vacation_premium(e));
    let c = spec_context(entries, e);
    let c2 = spec_context(updated, changed);
    assert(c2 == c);
    let changed_exchange = with_sacrifice(exchange, maximum);
    assert(contributions_before(c, changed_exchange) == contributions_before(c, exchange));
    assert(basis_before(c, e.amount, e.included_in_pension_salary_basis, changed_exchange)
        == basis_before(c, e.amount, e.included_in_pension_salary_basis, exchange));
    lemma_maximum_sacrifice_ignores_current(
        exchange,
        maximum,
        e.amount,
        basis_before(c, e.amount, e.included_in_pension_salary_basis, exchange),
        contributions_before(c, exchange),
        sacrifice_lowers_basis(e.included_in_pension_salary_basis, exchange),
    );
}

/// Entries that all satisfy `p` survive filtering unchanged.
proof fn lemma_filter_keeps_all(s: Seq<IncomeEntry>, p: spec_fn(IncomeEntry) -> bool)
    requires
        forall|i: int| 0 <= i < s.len() ==> p(#[trigger] s[i]),
    ensures
        s.filter(p) == s,
    decreases s.len(),
{
    reveal(Seq::filter);
    if s.len() > 0 {
        lemma_filter_keeps_all(s.drop_last(), p);
        assert(s.drop_last().push(s.last()) =~= s);
    } else {
        assert(s.filter(p) =~= s);
    }
}

/// Removing the row that was just added, by its fresh id, gives back the rows
/// the plan had before.
pub proof fn lemma_remove_added_entry(before: Seq<IncomeEntry>, added: IncomeEntry)
    requires
        forall|i: int| 0 <= i < before.len() ==> (#[trigger] before[i]).id != added.id,
    ensures
        before.push(added).filter(lacks_id(added.id)) == before,
{
    reveal(Seq::filter);
    let p = lacks_id(added.id);
    assert(before.push(added).drop_last() =~= before);
    assert forall|i: int| 0 <= i < before.len() implies p(#[trigger] before[i]) by {}
    lemma_filter_keeps_all(before, p);
}

// ---------------------------------------------------------------------------
// Operations
// ---------------------------------------------------------------------------

impl Default for IncomePlanTotals {
    fn default() -> (t: Self)
        ensures
            t == zero_totals(),
    {
        IncomePlanTotals {
            work_income: 0,
            pension_income: 0,
            dividend_income: 0,
            sgi_annual_rate: 0,
            adjustment_basis_work_income: 0,
            pension_salary_basis: 0,
            regular_pension_premiums: 0,
            vacation_pension_premiums: 0,
            salary_exchange_sacrifice: 0,
            salary_exchange_pension_contributions: 0,
        }
    }
}

impl IncomePlanTotals {
    pub fn ordinary_income(self) -> (r: u32)
        ensures
            r == spec_ordinary_income(self),
    {
        self.work_income.saturating_add(self.pension_income)
    }

    /// Average monthly taxable salary and pension represented by this plan.
    pub fn monthly_taxable_income(self) -> (r: u32)
        ensures
            r == spec_ordinary_income(self) / 12,
    {
        self.ordinary_income() / 12
    }

    pub fn gross_income(self) -> (r: u32)
        ensures
            r == cap_u32(spec_ordinary_income(self) + self.dividend_income),
    {
        self.ordinary_income().saturating_add(self.dividend_income)
    }

    pub fn annual_profile(self) -> (r: AnnualIncomeProfile)
        ensures
            r == (AnnualIncomeProfile {
                work_income: self.work_income,
                pension_income: self.pension_income,
            }),
    {
        AnnualIncomeProfile { work_income: self.work_income, pension_income: self.pension_income }
    }

    pub fn total_employer_pension_contributions(self) -> (r: u32)
        ensures
            r == spec_total_employer_contributions(self),
    {
        self.regular_pension_premiums.saturating_add(self.vacation_pension_premiums).saturating_add(
            self.salary_exchange_pension_contributions,
        )
    }
}

impl Default for SalaryExchangeContext {
    fn default() -> (c: Self)
        ensures
            c == (SalaryExchangeContext {
                regular_pension_premiums: 0,
                vacation_pension_premiums: 0,
                other_exchange_contributions: 0,
                other_pension_salary_basis: 0,
            }),
    {
        SalaryExchangeContext {
            regular_pension_premiums: 0,
            vacation_pension_premiums: 0,
            other_exchange_contributions: 0,
            other_pension_salary_basis: 0,
        }
    }
}

impl SalaryExchangeContext {
    /// The allowance for a one-time payment of `payment_amount` with `exchange`:
    /// the 35% ceiling on employer pension costs, the largest sacrifice that
    /// fits it, and the contributions once the requested sacrifice, limited to
    /// that maximum, is applied.
    pub fn allowance_for(
        self,
        payment_amount: u32,
        included_in_pension_salary_basis: bool,
        exchange: SalaryExchange,
    ) -> (a: SalaryExchangeAllowance)
        ensures
            a == spec_allowance_for(self, payment_amount, included_in_pension_salary_basis, exchange),
    {
        let pension_contributions_before = match exchange.pension_and_insurance_costs_before_exchange {
            Some(costs) => costs,
            None => self.regular_pension_premiums.saturating_add(
                self.vacation_pension_premiums,
            ).saturating_add(self.other_exchange_contributions),
        };
        let payment_in_basis = if included_in_pension_salary_basis {
            payment_amount
        } else {
            0
        };
        let pension_salary_basis_before = match exchange.previous_year_pension_salary_basis {
            Some(basis) => basis,
            None => self.other_pension_salary_basis.saturating_add(payment_in_basis),
        };
        let lowers_basis = included_in_pension_salary_basis
            && exchange.previous_year_pension_salary_basis.is_none();
        let maximum_sacrifice = exchange.maximum_sacrifice(
            payment_amount,
            pension_salary_basis_before,
            pension_contributions_before,
            lowers_basis,
        );
        let sacrifice = if exchange.sacrificed_salary <= maximum_sacrifice {
            exchange.sacrificed_salary
        } else {
            maximum_sacrifice
        };
        let pension_salary_basis_after = if lowers_basis {
            pension_salary_basis_before.saturating_sub(sacrifice)
        } else {
            pension_salary_basis_before
        };
        let ceiling = SalaryExchange::allowance_ceiling(pension_salary_basis_after);
        let mut applied_exchange = exchange;
        applied_exchange.sacrificed_salary = sacrifice;
        let selected_exchange_contribution = applied_exchange.pension_contribution();
        SalaryExchangeAllowance {
            ceiling,
            previous_year_pension_salary_basis: exchange.previous_year_pension_salary_basis,
            pension_and_insurance_costs_before_exchange: exchange.pension_and_insurance_costs_before_exchange,
            pension_salary_basis_before,
            pension_salary_basis_after,
            pension_contributions_before,
            regular_pension_premiums: self.regular_pension_premiums,
            vacation_pension_premiums: self.vacation_pension_premiums,
            other_exchange_contributions: self.other_exchange_contributions,
            selected_exchange_contribution,
            total_employer_pension_contributions: pension_contributions_before.saturating_add(
                selected_exchange_contribution,
            ),
            available_contribution: ceiling.saturating_sub(pension_contributions_before),
            maximum_sacrifice,
        }
    }
}

fn add_entry_to_totals(t: IncomePlanTotals, e: &IncomeEntry) -> (r: IncomePlanTotals)
    ensures
        r == add_to_totals(t, *e),
{
    let amount = e.total_annual_amount();
    let mut totals = t;
    totals.regular_pension_premiums = totals.regular_pension_premiums.saturating_add(
        e.regular_pension_premium_amount(),
    );
    totals.vacation_pension_premiums = totals.vacation_pension_premiums.saturating_add(
        e.vacation_pension_premium_amount(),
    );
    totals.pension_salary_basis = totals.pension_salary_basis.saturating_add(
        e.pension_salary_basis_amount(),
    );
    totals.adjustment_basis_work_income = totals.adjustment_basis_work_income.saturating_add(
        e.full_year_adjustment_basis_amount(),
    );
    totals.salary_exchange_sacrifice = totals.salary_exchange_sacrifice.saturating_add(
        e.salary_exchange_sacrifice(),
    );
    totals.salary_exchange_pension_contributions = totals.salary_exchange_pension_contributions.saturating_add(
        e.salary_exchange_pension_contribution(),
    );
    match e.kind.tax_category() {
        IncomeTaxCategory::Work => {
            totals.work_income = totals.work_income.saturating_add(amount);
        },
        IncomeTaxCategory::Pension => {
            totals.pension_income = totals.pension_income.saturating_add(amount);
        },
        IncomeTaxCategory::Dividend => {
            totals.dividend_income = totals.dividend_income.saturating_add(amount);
        },
    }
    match e.sgi_annual_rate() {
        Some(rate) => {
            totals.sgi_annual_rate = totals.sgi_annual_rate.saturating_add(rate);
        },
        None => {},
    }
    totals
}

impl IncomePlan {
    /// A plan with one ordinary annual salary.
    pub fn with_annual_salary(amount: u32) -> (p: Self)
        ensures
            p.entries@.len() == 1,
            has_default_fields(
                IncomeEntry { amount: 0, ..p.entries@[0] },
                1,
                IncomeKind::AnnualSalary,
            ),
            p.entries@[0].description@ == "Ordinary income"@,
            p.entries@[0].amount == amount,
            p.adjustment_percent is None,
            p.dividend_allowance == default_dividend_inputs(),
            p.next_id == 2,
    {
        let mut entry = IncomeEntry::new(1, IncomeKind::AnnualSalary);
        entry.description = "Ordinary income".to_owned();
        entry.amount = amount;
        IncomePlan {
            entries: vec![entry],
            adjustment_percent: None,
            dividend_allowance: DividendAllowanceInputs2027::default(),
            next_id: 2,
        }
    }

    /// A plan with one ordinary monthly salary paid over the whole year.
    pub fn with_monthly_salary(amount: u32) -> (p: Self)
        ensures
            p.entries@.len() == 1,
            has_default_fields(
                IncomeEntry { amount: 0, ..p.entries@[0] },
                1,
                IncomeKind::MonthlySalary,
            ),
            p.entries@[0].description@ == "Ordinary income"@,
            p.entries@[0].amount == amount,
            p.adjustment_percent is None,
            p.dividend_allowance == default_dividend_inputs(),
            p.next_id == 2,
    {
        let mut entry = IncomeEntry::new(1, IncomeKind::MonthlySalary);
        entry.description = "Ordinary income".to_owned();
        entry.amount = amount;
        IncomePlan {
            entries: vec![entry],
            adjustment_percent: None,
            dividend_allowance: DividendAllowanceInputs2027::default(),
            next_id: 2,
        }
    }

    /// Appends a new row of `kind` and returns its id. A main payer of a
    /// non-dividend row follows an enabled jämkning decision by default.
    pub fn add_entry(&mut self, kind: IncomeKind) -> (id: u64)
        ensures
            id == old(self).next_id,
            final(self).next_id == (if old(self).next_id < u64::MAX {
                (old(self).next_id + 1) as u64
            } else {
                u64::MAX
            }),
            final(self).entries@.len() == old(self).entries@.len() + 1,
            final(self).entries@.drop_last() == old(self).entries@,
            is_added_entry(
                final(self).entries@.last(),
                id,
                kind,
                old(self).adjustment_percent is Some,
            ),
            final(self).adjustment_percent == old(self).adjustment_percent,
            final(self).dividend_allowance == old(self).dividend_allowance,
    {
        let id = self.next_id;
        self.next_id = self.next_id.saturating_add(1);
        let mut entry = IncomeEntry::new(id, kind);
        entry.adjustment_applies = self.adjustment_percent.is_some() && !kind.is_dividend();
        self.entries.push(entry);
        assert(self.entries@.drop_last() =~= old(self).entries@);
        id
    }

    /// Enables or disables a percentage jämkning decision. When enabled for
    /// the first time, non-dividend main payers use it by default.
    pub fn set_adjustment_enabled(&mut self, enabled: bool)
        ensures
            enabled == (old(self).adjustment_percent is Some) ==> *final(self) == *old(self),
            enabled != (old(self).adjustment_percent is Some) ==> {
                &&& final(self).adjustment_percent == (if enabled {
                    Some(30u32)
                } else {
                    None
                })
                &&& final(self).entries@ == old(self).entries@.map_values(
                    |e: IncomeEntry| with_adjustment_default(e, enabled),
                )
                &&& final(self).dividend_allowance == old(self).dividend_allowance
                &&& final(self).next_id == old(self).next_id
            },
    {
        if enabled == self.adjustment_percent.is_some() {
            return;
        }
        self.adjustment_percent = if enabled {
            Some(30)
        } else {
            None
        };
        let n = self.entries.len();
        let mut i: usize = 0;
        while i < n
            invariant
                0 <= i <= n,
                n == old(self).entries@.len(),
                self.entries@.len() == n,
                self.adjustment_percent == (if enabled {
                    Some(30u32)
                } else {
                    None
                }),
                self.dividend_allowance == old(self).dividend_allowance,
                self.next_id == old(self).next_id,
                forall|j: int|
                    0 <= j < i ==> #[trigger] self.entries@[j] == with_adjustment_default(
                        old(self).entries@[j],
                        enabled,
                    ),
                forall|j: int| i <= j < n ==> #[trigger] self.entries@[j] == old(self).entries@[j],
            decreases n - i,
        {
            let entry = &mut self.entries[i];
            entry.adjustment_applies = enabled && entry.payer_role == PayerRole::Main
                && !entry.kind.is_dividend();
            i = i + 1;
        }
        assert(self.entries@ =~= old(self).entries@.map_values(
            |e: IncomeEntry| with_adjustment_default(e, enabled),
        ));
    }

    /// Removes every row with `id`. A plan is never left empty: when no row
    /// remains, a new ordinary annual salary is added.
    pub fn remove_entry(&mut self, id: u64)
        ensures
            ({
                let kept = old(self).entries@.filter(lacks_id(id));
                &&& kept.len() > 0 ==> final(self).entries@ == kept && final(self).next_id
                    == old(self).next_id
                &&& kept.len() == 0 ==> {
                    &&& final(self).entries@.len() == 1
                    &&& is_added_entry(
                        final(self).entries@[0],
                        old(self).next_id,
                        IncomeKind::AnnualSalary,
                        old(self).adjustment_percent is Some,
                    )
                    &&& final(self).next_id == (if old(self).next_id < u64::MAX {
                        (old(self).next_id + 1) as u64
                    } else {
                        u64::MAX
                    })
                }
            }),
            final(self).adjustment_percent == old(self).adjustment_percent,
            final(self).dividend_allowance == old(self).dividend_allowance,
    {
        let ghost original = self.entries@;
        let ghost keep = lacks_id(id);
        let mut i: usize = 0;
        let ghost mut k: int = 0;
        while i < self.entries.len()
            invariant
                0 <= i <= self.entries@.len(),
                0 <= k <= original.len(),
                self.entries@.len() - i == original.len() - k,
                self.entries@.subrange(0, i as int) == original.subrange(0, k).filter(keep),
                self.entries@.subrange(i as int, self.entries@.len() as int) == original.subrange(
                    k,
                    original.len() as int,
                ),
                original == old(self).entries@,
                keep == lacks_id(id),
                self.adjustment_percent == old(self).adjustment_percent,
                self.dividend_allowance == old(self).dividend_allowance,
                self.next_id == old(self).next_id,
            decreases self.entries@.len() - i,
        {
            let ghost before = self.entries@;
            proof {
                reveal(Seq::filter);
            }
            assert(original.subrange(0, k + 1).drop_last() =~= original.subrange(0, k));
            assert(before[i as int] == original[k]) by {
                assert(before.subrange(i as int, before.len() as int)[0] == before[i as int]);
            }
            assert(before.subrange(i + 1, before.len() as int) =~= original.subrange(
                k + 1,
                original.len() as int,
            )) by {
                let tail = before.subrange(i as int, before.len() as int);
                assert(before.subrange(i + 1, before.len() as int) =~= tail.subrange(
                    1,
                    tail.len() as int,
                ));
                assert(original.subrange(k + 1, original.len() as int) =~= original.subrange(
                    k,
                    original.len() as int,
                ).subrange(1, tail.len() as int));
            }
            if self.entries[i].id == id {
                self.entries.remove(i);
                proof {
                    assert(self.entries@.subrange(0, i as int) =~= before.subrange(0, i as int));
                    assert(self.entries@.subrange(i as int, self.entries@.len() as int)
                        =~= before.subrange(i + 1, before.len() as int));
                    k = k + 1;
                }
            } else {
                proof {
                    assert(self.entries@.subrange(0, i + 1) =~= before.subrange(0, i as int).push(
                        before[i as int],
                    ));
                    k = k + 1;
                }
                i = i + 1;
            }
        }
        proof {
            assert(original.subrange(k, original.len() as int).len() == 0);
            assert(original.subrange(0, k) =~= original);
            assert(self.entries@.subrange(0, i as int) =~= self.entries@);
        }
        if self.entries.len() == 0 {
            self.add_entry(IncomeKind::AnnualSalary);
        }
    }

    fn find_entry(&self, id: u64) -> (r: Option<usize>)
        ensures
            match r {
                Some(i) => first_index(self.entries@, has_id(id)) == Some(i as int) && i
                    < self.entries@.len(),
                None => first_index(self.entries@, has_id(id)) is None,
            },
    {
        let n = self.entries.len();
        let mut i: usize = 0;
        while i < n
            invariant
                0 <= i <= n,
                n == self.entries@.len(),
                first_index(self.entries@.subrange(0, i as int), has_id(id)) is None,
            decreases n - i,
        {
            if self.entries[i].id == id {
                proof {
                    lemma_first_index_found(self.entries@, has_id(id), i as int);
                }
                return Some(i);
            }
            proof {
                lemma_first_index_step(self.entries@, has_id(id), i as int);
            }
            i = i + 1;
        }
        assert(self.entries@.subrange(0, n as int) =~= self.entries@);
        None
    }

    pub fn totals(&self) -> (t: IncomePlanTotals)
        ensures
            t == spec_totals(self.entries@),
    {
        let mut totals = IncomePlanTotals::default();
        let n = self.entries.len();
        let mut i: usize = 0;
        while i < n
            invariant
                0 <= i <= n,
                n == self.entries@.len(),
                totals == spec_totals(self.entries@.subrange(0, i as int)),
            decreases n - i,
        {
            assert(self.entries@.subrange(0, i + 1).drop_last() =~= self.entries@.subrange(
                0,
                i as int,
            ));
            totals = add_entry_to_totals(totals, &self.entries[i]);
            i = i + 1;
        }
        assert(self.entries@.subrange(0, n as int) =~= self.entries@);
        totals
    }

    /// What the rest of the plan contributes to the exchange of the first row
    /// with `entry_id`; `None` when no row has that id.
    pub fn salary_exchange_context(&self, entry_id: u64) -> (r: Option<SalaryExchangeContext>)
        ensures
            r == spec_context_of(self.entries@, entry_id),
    {
        let index = match self.find_entry(entry_id) {
            Some(index) => index,
            None => {
                return None;
            },
        };
        let entry = &self.entries[index];
        let totals = self.totals();
        Some(
            SalaryExchangeContext {
                regular_pension_premiums: totals.regular_pension_premiums,
                vacation_pension_premiums: totals.vacation_pension_premiums,
                other_exchange_contributions: totals.salary_exchange_pension_contributions.saturating_sub(
                    entry.salary_exchange_pension_contribution(),
                ),
                other_pension_salary_basis: totals.pension_salary_basis.saturating_sub(
                    entry.pension_salary_basis_amount(),
                ),
            },
        )
    }

    /// The allowance of the first row with `entry_id`; `None` when no row has
    /// that id or the row has no salary exchange.
    pub fn salary_exchange_allowance(&self, entry_id: u64) -> (r: Option<SalaryExchangeAllowance>)
        ensures
            r == spec_allowance(self.entries@, entry_id),
    {
        let index = match self.find_entry(entry_id) {
            Some(index) => index,
            None => {
                return None;
            },
        };
        let entry = &self.entries[index];
        let exchange = match entry.salary_exchange {
            Some(exchange) => exchange,
            None => {
                return None;
            },
        };
        let context = match self.salary_exchange_context(entry_id) {
            Some(context) => context,
            None => {
                return None;
            },
        };
        Some(context.allowance_for(entry.amount, entry.included_in_pension_salary_basis, exchange))
    }

    pub fn validation_issue(&self) -> (r: Option<IncomePlanValidationIssue>)
        ensures
            r == spec_validation_issue(self.entries@),
    {
        let n = self.entries.len();
        let mut i: usize = 0;
        while i < n
            invariant
                0 <= i <= n,
                n == self.entries@.len(),
                first_index(self.entries@.subrange(0, i as int), is_invalid_entry()) is None,
            decreases n - i,
        {
            if !self.entries[i].is_valid() {
                proof {
                    lemma_first_index_found(self.entries@, is_invalid_entry(), i as int);
                }
                return Some(
                    IncomePlanValidationIssue::InvalidPaymentPeriod { entry_id: self.entries[i].id },
                );
            }
            proof {
                lemma_first_index_step(self.entries@, is_invalid_entry(), i as int);
            }
            i = i + 1;
        }
        assert(self.entries@.subrange(0, n as int) =~= self.entries@);
        let ghost exceeds = exceeds_allowance(self.entries@);
        let mut i: usize = 0;
        while i < n
            invariant
                0 <= i <= n,
                n == self.entries@.len(),
                first_index(self.entries@, is_invalid_entry()) is None,
                exceeds == exceeds_allowance(self.entries@),
                first_index(self.entries@.subrange(0, i as int), exceeds) is None,
            decreases n - i,
        {
            let entry = &self.entries[i];
            let issue = match entry.salary_exchange {
                Some(exchange) => match self.salary_exchange_allowance(entry.id) {
                    Some(allowance) => if exchange.sacrificed_salary > allowance.maximum_sacrifice {
                        Some(allowance.maximum_sacrifice)
                    } else {
                        None
                    },
                    None => None,
                },
                None => None,
            };
            match issue {
                Some(maximum) => {
                    proof {
                        lemma_first_index_found(self.entries@, exceeds, i as int);
                    }
                    return Some(
                        IncomePlanValidationIssue::SalaryExchangeExceedsAllowance {
                            entry_id: entry.id,
                            maximum,
                        },
                    );
                },
                None => {},
            }
            proof {
                lemma_first_index_step(self.entries@, exceeds, i as int);
            }
            i = i + 1;
        }
        assert(self.entries@.subrange(0, n as int) =~= self.entries@);
        None
    }

    pub fn is_valid(&self) -> (b: bool)
        ensures
            b == (spec_validation_issue(self.entries@) is None),
    {
        self.validation_issue().is_none()
    }

    /// Whether the plan can be represented by a simple monthly table reference
    /// without hiding payer or period differences.
    pub fn has_uniform_monthly_table_reference(&self) -> (b: bool)
        ensures
            b == spec_uniform_reference(self.entries@),
    {
        if self.entries.len() != 1 {
            return false;
        }
        let entry = &self.entries[0];
        if entry.payer_role != PayerRole::Main || entry.adjustment_applies
            || entry.additional_withholding_per_payment.is_some()
            || entry.actual_withholding.is_some() || entry.vacation_compensation_amount() > 0 {
            return false;
        }
        match entry.kind {
            IncomeKind::AnnualSalary => true,
            IncomeKind::MonthlySalary => entry.start.clamped() == Date2026::new(1, 1)
                && entry.end.clamped() == Date2026::new(12, 31),
            _ => false,
        }
    }

    /// 2026 cash salary marked as paid by the owner's company/group and used
    /// in the preliminary 2027 gränsbelopp.
    pub fn own_company_sourced_work_income(&self) -> (r: u32)
        ensures
            r == own_company_total(self.entries@),
    {
        let mut total: u32 = 0;
        let n = self.entries.len();
        let mut i: usize = 0;
        while i < n
            invariant
                0 <= i <= n,
                n == self.entries@.len(),
                total == own_company_total(self.entries@.subrange(0, i as int)),
            decreases n - i,
        {
            assert(self.entries@.subrange(0, i + 1).drop_last() =~= self.entries@.subrange(
                0,
                i as int,
            ));
            let entry = &self.entries[i];
            if entry.kind.is_salary() && entry.own_company_sourced {
                total = total.saturating_add(entry.total_annual_amount());
            }
            i = i + 1;
        }
        assert(self.entries@.subrange(0, n as int) =~= self.entries@);
        total
    }

    /// Preliminary 2027 allowance using marked 2026 own-company cash salary.
    pub fn dividend_allowance_2027(&self) -> (r: Result<
        DividendAllowance2027,
        DividendAllowanceIssue,
    >)
        ensures
            r == spec_dividend_allowance(self.dividend_allowance, own_company_total(self.entries@)),
    {
        self.dividend_allowance.calculate(self.own_company_sourced_work_income())
    }
}

} // verus!
