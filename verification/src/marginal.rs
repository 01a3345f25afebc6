//! The withholding on either side of a 1 000 kr monthly interval, from which
//! the marginal tax rate of a table column is read.
use vstd::prelude::*;

use crate::columns::{TaxColumn, TaxDeduction};
use crate::tables::{
    monthly_deduction, spec_monthly_deduction, MonthlyTables, TableRow, MAX_TAX_TABLE, MIN_TAX_TABLE,
};

verus! {

/// Width in kronor of the interval over which the marginal rate is measured.
pub const MARGINAL_INCOME_INTERVAL: u32 = 1_000;

/// Table withholding at both ends of a marginal interval.
#[derive(Clone, Copy, Debug, PartialEq, Eq, Structural)]
pub struct MarginalWithholding {
    pub lower_income: u32,
    pub upper_income: u32,
    pub lower_withheld: u32,
    pub upper_withheld: u32,
}

/// Withholding for a monthly income under a table entry; a percentage is taken
/// of the income and truncated to `u32`.
pub open spec fn spec_entry_withholding(income: u32, deduction: TaxDeduction) -> u32 {
    match deduction {
        TaxDeduction::Amount(amount) => amount,
        TaxDeduction::Percent(percent) => (income * percent / 100) as u32,
    }
}

/// The interval starts at `monthly_income` and ends 1 000 kr higher, or at
/// `u32::MAX` when that is nearer; at `u32::MAX` itself it starts 1 000 kr lower.
pub open spec fn spec_marginal_withholding(
    tables: Seq<Seq<TableRow>>,
    table: u8,
    column: TaxColumn,
    monthly_income: u32,
) -> Option<MarginalWithholding> {
    let upper: u32 = if monthly_income as int + MARGINAL_INCOME_INTERVAL <= u32::MAX {
        (monthly_income + MARGINAL_INCOME_INTERVAL) as u32
    } else {
        u32::MAX
    };
    let lower: u32 = if upper == monthly_income {
        (monthly_income - MARGINAL_INCOME_INTERVAL) as u32
    } else {
        monthly_income
    };
    match (
        spec_monthly_deduction(tables, table, column, lower),
        spec_monthly_deduction(tables, table, column, upper),
    ) {
        (Some(low), Some(high)) => Some(
            MarginalWithholding {
                lower_income: lower,
                upper_income: upper,
                lower_withheld: spec_entry_withholding(lower, low),
                upper_withheld: spec_entry_withholding(upper, high),
            },
        ),
        _ => None,
    }
}

fn entry_withholding(income: u32, deduction: TaxDeduction) -> (r: u32)
    ensures
        r == spec_entry_withholding(income, deduction),
{
    match deduction {
        TaxDeduction::Amount(amount) => amount,
        TaxDeduction::Percent(percent) => {
            proof {
                vstd::arithmetic::mul::lemma_mul_upper_bound(
                    income as int,
                    u32::MAX as int,
                    percent as int,
                    u32::MAX as int,
                );
                vstd::arithmetic::mul::lemma_mul_nonnegative(income as int, percent as int);
            }
            let share = income as u64 * percent as u64 / 100;
            #[verifier::truncate]
            (share as u32)
        },
    }
}

/// The withholding at `monthly_income` and 1 000 kr above it (or the 1 000 kr
/// below the largest income); `None` for an unsupported table.
pub fn marginal_withholding(
    tables: &MonthlyTables,
    table: u8,
    column: TaxColumn,
    monthly_income: u32,
) -> (r: Option<MarginalWithholding>)
    ensures
        r == spec_marginal_withholding(tables@, table, column, monthly_income),
{
    let upper_income = monthly_income.saturating_add(MARGINAL_INCOME_INTERVAL);
    let lower_income = if upper_income == monthly_income {
        monthly_income - MARGINAL_INCOME_INTERVAL
    } else {
        monthly_income
    };
    let lower = match monthly_deduction(tables, table, column, lower_income) {
        Some(deduction) => deduction,
        None => {
            return None;
        },
    };
    let upper = match monthly_deduction(tables, table, column, upper_income) {
        Some(deduction) => deduction,
        None => {
            return None;
        },
    };
    Some(
        MarginalWithholding {
            lower_income,
            upper_income,
            lower_withheld: entry_withholding(lower_income, lower),
            upper_withheld: entry_withholding(upper_income, upper),
        },
    )
}

/// Each end of the interval is withheld under its own table entry: an amount
/// entry is withheld as it stands, and a percentage entry as that percentage of
/// the end's own income (truncated to `u32`). The interval starts at the given
/// income, except at `u32::MAX`, and there is a result exactly for the
/// supported tables.
pub proof fn lemma_each_end_uses_its_own_entry(
    tables: Seq<Seq<TableRow>>,
    table: u8,
    column: TaxColumn,
    monthly_income: u32,
)
    ensures
        spec_marginal_withholding(tables, table, column, monthly_income) is Some <==> (
        MIN_TAX_TABLE <= table <= MAX_TAX_TABLE),
        spec_marginal_withholding(tables, table, column, monthly_income) matches Some(m) ==> {
            &&& monthly_income < u32::MAX ==> m.lower_income == monthly_income
            &&& m.lower_income < m.upper_income
            &&& match spec_monthly_deduction(tables, table, column, m.lower_income) {
                Some(TaxDeduction::Amount(a)) => m.lower_withheld == a,
                Some(TaxDeduction::Percent(p)) => m.lower_withheld == (m.lower_income * p
                    / 100) as u32,
                None => false,
            }
            &&& match spec_monthly_deduction(tables, table, column, m.upper_income) {
                Some(TaxDeduction::Amount(a)) => m.upper_withheld == a,
                Some(TaxDeduction::Percent(p)) => m.upper_withheld == (m.upper_income * p
                    / 100) as u32,
                None => false,
            }
        },
{
}

/// The interval is 1 000 kr wide unless it is cut short by the top of the
/// `u32` range.
pub proof fn lemma_marginal_interval_width(
    tables: Seq<Seq<TableRow>>,
    table: u8,
    column: TaxColumn,
    monthly_income: u32,
)
    requires
        spec_marginal_withholding(tables, table, column, monthly_income) is Some,
        monthly_income as int + MARGINAL_INCOME_INTERVAL <= u32::MAX || monthly_income == u32::MAX,
    ensures
        ({
            let m = spec_marginal_withholding(tables, table, column, monthly_income).unwrap();
            m.upper_income - m.lower_income == MARGINAL_INCOME_INTERVAL
        }),
{
}

} // verus!
