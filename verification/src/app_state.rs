//! Settings that native frontends persist between sessions.
use vstd::prelude::*;

use crate::dividend_allowance::default_dividend_inputs;
use crate::entry::{has_default_fields, IncomeEntry};
use crate::income_kind::IncomeKind;
use crate::plan::IncomePlan;
use crate::tables::{MAX_TAX_TABLE, MIN_TAX_TABLE};
use crate::withholding::TaxAgeGroup;

verus! {

/// Default monthly salary: the highest whole monthly amount whose annualized
/// income stays below the 2026 state-tax breakpoint of 660 400 kr.
pub const DEFAULT_MONTHLY_INCOME: u32 = 55_033;

/// Application settings shared by native frontends.
#[derive(Clone, Debug, PartialEq, Eq)]
pub struct PersistedAppState {
    pub table: u8,
    pub age_group: TaxAgeGroup,
    pub income_plan: IncomePlan,
}

impl PersistedAppState {
    pub fn new(table: u8, age_group: TaxAgeGroup, income_plan: IncomePlan) -> (s: Self)
        ensures
            s == (PersistedAppState { table, age_group, income_plan }),
    {
        PersistedAppState { table, age_group, income_plan }
    }

    /// Only the published tables 29 through 42 are supported.
    pub fn is_supported(&self) -> (b: bool)
        ensures
            b == (MIN_TAX_TABLE <= self.table <= MAX_TAX_TABLE),
    {
        MIN_TAX_TABLE <= self.table && self.table <= MAX_TAX_TABLE
    }
}

impl Default for PersistedAppState {
    /// Table 32, under 66, and one monthly salary of [`DEFAULT_MONTHLY_INCOME`].
    fn default() -> (s: Self)
        ensures
            s.table == 32,
            s.age_group == TaxAgeGroup::Under66AtYearStart,
            s.income_plan.entries@.len() == 1,
            has_default_fields(
                IncomeEntry { amount: 0, ..s.income_plan.entries@[0] },
                1,
                IncomeKind::MonthlySalary,
            ),
            s.income_plan.entries@[0].description@ == "Ordinary income"@,
            s.income_plan.entries@[0].amount == DEFAULT_MONTHLY_INCOME,
            s.income_plan.adjustment_percent is None,
            s.income_plan.dividend_allowance == default_dividend_inputs(),
            s.income_plan.next_id == 2,
    {
        Self::new(
            32,
            TaxAgeGroup::Under66AtYearStart,
            IncomePlan::with_monthly_salary(DEFAULT_MONTHLY_INCOME),
        )
    }
}

} // verus!
