//! Estimates how selected income uses the 2026 PGI and SGI ceilings.
//!
//! PGI figures follow Skatteverket and Pensionsmyndigheten. SGI figures follow
//! Försäkringskassan. The SGI result is only an estimate; Försäkringskassan
//! determines an individual's SGI when a qualifying benefit is claimed.
use vstd::prelude::*;

use crate::annual::{pension_fee, round_down_hundred, spec_annual_tax, spec_pension_fee};
use crate::columns::TaxColumn;

verus! {

/// Lowest 2026 annual income that can produce pensionable income (PGI).
pub const MINIMUM_PENSIONABLE_INCOME: u32 = 25_042;

/// Highest pensionable income (PGI) for income year 2026.
pub const MAXIMUM_PENSIONABLE_INCOME: u32 = 625_500;

/// 2026 income ceiling used when calculating the general pension fee.
pub const GENERAL_PENSION_FEE_INCOME_CEILING: u32 = 673_038;

/// Lowest 2026 annual work income that can produce an SGI.
pub const MINIMUM_SGI_INCOME: u32 = 14_200;

/// Highest sickness-benefit qualifying income (SGI) for 2026.
pub const MAXIMUM_SGI: u32 = 592_000;

/// An estimated annual income basis and its applicable 2026 ceiling.
#[derive(Clone, Copy, Debug, PartialEq, Eq, Structural)]
pub struct IncomeBasisProgress {
    pub estimated_basis: u32,
    pub maximum_basis: u32,
}

impl IncomeBasisProgress {
    fn new(estimated_basis: u32, maximum_basis: u32) -> (p: Self)
        ensures
            p == (IncomeBasisProgress { estimated_basis, maximum_basis }),
    {
        Self { estimated_basis, maximum_basis }
    }
}

/// Whether the selected income is sufficient to estimate an income basis.
#[derive(Clone, Copy, Debug, PartialEq, Eq, Structural)]
pub enum IncomeBasisEstimate {
    Estimated(IncomeBasisProgress),
    NotBasedOnSelectedIncome,
    RequiresAdditionalInformation,
}

/// PGI: the assessed income after the general pension fee, zero below the
/// minimum and capped at the maximum.
pub open spec fn spec_pensionable_income(gross_yearly_income: u32) -> int {
    let assessed = round_down_hundred(gross_yearly_income as int);
    if assessed < MINIMUM_PENSIONABLE_INCOME {
        0
    } else {
        let after_fee = if assessed >= spec_pension_fee(assessed) {
            assessed - spec_pension_fee(assessed)
        } else {
            0
        };
        if after_fee <= MAXIMUM_PENSIONABLE_INCOME {
            after_fee
        } else {
            MAXIMUM_PENSIONABLE_INCOME as int
        }
    }
}

pub open spec fn spec_public_pension_progress_for_income(gross_yearly_income: u32) -> IncomeBasisEstimate {
    IncomeBasisEstimate::Estimated(
        IncomeBasisProgress {
            estimated_basis: spec_pensionable_income(gross_yearly_income) as u32,
            maximum_basis: MAXIMUM_PENSIONABLE_INCOME,
        },
    )
}

/// SGI: the annual rate, zero below the minimum and capped at the maximum.
pub open spec fn spec_estimated_sgi(gross_yearly_income: u32) -> u32 {
    if gross_yearly_income < MINIMUM_SGI_INCOME {
        0
    } else if gross_yearly_income <= MAXIMUM_SGI {
        gross_yearly_income
    } else {
        MAXIMUM_SGI
    }
}

pub open spec fn spec_estimated_sgi_progress_for_income(gross_yearly_income: u32) -> IncomeBasisEstimate {
    IncomeBasisEstimate::Estimated(
        IncomeBasisProgress {
            estimated_basis: spec_estimated_sgi(gross_yearly_income),
            maximum_basis: MAXIMUM_SGI,
        },
    )
}

/// Estimates 2026 pensionable income (PGI) from the selected annual income.
///
/// Salary and other compensation subject to the general pension fee can be
/// estimated directly. Pension payments do not produce new pension rights.
/// Sickness and activity compensation can include a pensionable amount based
/// on an assumed former income, which cannot be inferred from the payment.
pub fn public_pension_progress(column: TaxColumn, gross_yearly_income: u32) -> (r: IncomeBasisEstimate)
    ensures
        r == (match column {
            TaxColumn::Column1 | TaxColumn::Column3 | TaxColumn::Column5 => {
                spec_public_pension_progress_for_income(gross_yearly_income)
            },
            TaxColumn::Column2 | TaxColumn::Column6 => IncomeBasisEstimate::NotBasedOnSelectedIncome,
            TaxColumn::Column4 => IncomeBasisEstimate::RequiresAdditionalInformation,
        }),
{
    match column {
        TaxColumn::Column1 | TaxColumn::Column3 | TaxColumn::Column5 => {},
        TaxColumn::Column2 | TaxColumn::Column6 => {
            return IncomeBasisEstimate::NotBasedOnSelectedIncome;
        },
        TaxColumn::Column4 => {
            return IncomeBasisEstimate::RequiresAdditionalInformation;
        },
    }
    public_pension_progress_for_income(gross_yearly_income)
}

/// Estimates 2026 PGI from aggregate pensionable work income.
pub fn public_pension_progress_for_income(gross_yearly_income: u32) -> (r: IncomeBasisEstimate)
    ensures
        r == spec_public_pension_progress_for_income(gross_yearly_income),
{
    let assessed_income = gross_yearly_income / 100 * 100;
    let pensionable_income = if assessed_income < MINIMUM_PENSIONABLE_INCOME {
        0
    } else {
        let after_fee = assessed_income.saturating_sub(pension_fee(assessed_income));
        if after_fee <= MAXIMUM_PENSIONABLE_INCOME {
            after_fee
        } else {
            MAXIMUM_PENSIONABLE_INCOME
        }
    };
    IncomeBasisEstimate::Estimated(
        IncomeBasisProgress::new(pensionable_income, MAXIMUM_PENSIONABLE_INCOME),
    )
}

/// Estimates 2026 sickness-benefit qualifying income (SGI).
///
/// The estimate applies only to salary columns and assumes recurring work.
/// Försäkringskassan determines the actual SGI when a benefit is claimed and
/// may take protected prior income and other work income into account.
pub fn estimated_sgi_progress(column: TaxColumn, gross_yearly_income: u32) -> (r: IncomeBasisEstimate)
    ensures
        r == (if column == TaxColumn::Column1 || column == TaxColumn::Column3 {
            spec_estimated_sgi_progress_for_income(gross_yearly_income)
        } else {
            IncomeBasisEstimate::NotBasedOnSelectedIncome
        }),
{
    if !matches!(column, TaxColumn::Column1 | TaxColumn::Column3) {
        return IncomeBasisEstimate::NotBasedOnSelectedIncome;
    }
    estimated_sgi_progress_for_income(gross_yearly_income)
}

/// Estimates 2026 SGI from an annualized recurring-work-income rate.
pub fn estimated_sgi_progress_for_income(gross_yearly_income: u32) -> (r: IncomeBasisEstimate)
    ensures
        r == spec_estimated_sgi_progress_for_income(gross_yearly_income),
{
    let estimated_sgi = if gross_yearly_income < MINIMUM_SGI_INCOME {
        0
    } else if gross_yearly_income <= MAXIMUM_SGI {
        gross_yearly_income
    } else {
        MAXIMUM_SGI
    };
    IncomeBasisEstimate::Estimated(IncomeBasisProgress::new(estimated_sgi, MAXIMUM_SGI))
}

/// Pensionable income is what remains of the assessed income after the
/// general pension fee that the annual tax charges on salary, from 25 042 kr
/// assessed income up to the 625 500 kr ceiling; the same for every table.
pub proof fn lemma_pgi_is_income_after_pension_fee(table: u8, gross_yearly_income: u32)
    ensures
        ({
            let t = spec_annual_tax(table, TaxColumn::Column1, gross_yearly_income);
            let pgi = spec_public_pension_progress_for_income(gross_yearly_income)->Estimated_0;
            &&& pgi.maximum_basis == 625_500
            &&& t.assessed_income < 25_042 ==> pgi.estimated_basis == 0
            &&& t.assessed_income >= 25_042 ==> pgi.estimated_basis == (if t.assessed_income
                - t.pension_fee <= 625_500 {
                t.assessed_income - t.pension_fee
            } else {
                625_500
            })
        }),
{
    let a = gross_yearly_income as int / 100 * 100;
    if a >= 25_042 {
        let c = if a <= 673_038 {
            a
        } else {
            673_038
        };
        assert(c * 100_000_000 * 7 / 100 == c * 7_000_000) by (nonlinear_arith);
        let q = (c * 7_000_000 + 50 * 100_000_000 - 1) / (10_000_000_000int);
        assert(0 <= q && q * 100 <= c && q <= 471) by (nonlinear_arith)
            requires
                25_042 <= c <= 673_038,
                q == (c * 7_000_000 + 50 * 100_000_000 - 1) / (10_000_000_000int),
        ;
        assert(spec_pension_fee(a) == q * 100);
    }
}

/// The SGI estimate is the annual rate itself between 14 200 kr and the
/// 592 000 kr ceiling, nothing below, and never falls as the rate grows.
pub proof fn lemma_sgi_follows_the_rate(lower: u32, higher: u32)
    requires
        lower <= higher,
    ensures
        ({
            let sgi = spec_estimated_sgi_progress_for_income(higher)->Estimated_0;
            &&& sgi.maximum_basis == 592_000
            &&& higher < 14_200 ==> sgi.estimated_basis == 0
            &&& 14_200 <= higher <= 592_000 ==> sgi.estimated_basis == higher
            &&& higher > 592_000 ==> sgi.estimated_basis == 592_000
            &&& spec_estimated_sgi_progress_for_income(lower)->Estimated_0.estimated_basis
                <= sgi.estimated_basis
        }),
{
}

/// An estimated basis never exceeds its ceiling.
pub proof fn lemma_estimates_within_ceiling(gross_yearly_income: u32)
    ensures
        spec_public_pension_progress_for_income(gross_yearly_income)->Estimated_0.estimated_basis
            <= MAXIMUM_PENSIONABLE_INCOME,
        spec_estimated_sgi_progress_for_income(gross_yearly_income)->Estimated_0.estimated_basis
            <= MAXIMUM_SGI,
{
}

} // verus!
