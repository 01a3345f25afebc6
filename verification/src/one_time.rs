//! Preliminary withholding on one-time payments (engångsbelopp) for 2026.
use vstd::prelude::*;

use crate::columns::TaxColumn;

verus! {

/// The 2026 one-time-payment rate in percent for an annual income.
///
/// Each column's table lists the highest annual income of each rate; the
/// last bracket is open-ended.
pub open spec fn spec_one_time_withholding_rate(column: TaxColumn, annual_income: u32) -> u32 {
    let i = annual_income;
    match column {
        TaxColumn::Column1 => if i <= 25_041 {
            0
        } else if i <= 82_800 {
            10
        } else if i <= 192_000 {
            21
        } else if i <= 477_600 {
            26
        } else if i <= 660_000 {
            34
        } else {
            54
        },
        TaxColumn::Column2 => if i <= 65_800 {
            0
        } else if i <= 477_600 {
            26
        } else if i <= 660_000 {
            34
        } else {
            55
        },
        TaxColumn::Column3 => if i <= 25_041 {
            0
        } else if i <= 331_200 {
            10
        } else if i <= 477_600 {
            26
        } else if i <= 660_000 {
            34
        } else {
            55
        },
        TaxColumn::Column4 => if i <= 25_041 {
            0
        } else if i <= 54_000 {
            3
        } else if i <= 192_000 {
            22
        } else if i <= 660_000 {
            26
        } else {
            46
        },
        TaxColumn::Column5 => if i <= 25_041 {
            0
        } else if i <= 32_400 {
            10
        } else if i <= 160_800 {
            29
        } else if i <= 184_800 {
            34
        } else if i <= 660_000 {
            38
        } else {
            54
        },
        TaxColumn::Column6 => if i <= 25_041 {
            0
        } else if i <= 160_800 {
            29
        } else if i <= 184_800 {
            34
        } else if i <= 660_000 {
            38
        } else {
            54
        },
    }
}

/// Returns the 2026 preliminary withholding rate for a one-time payment.
///
/// The applicable table is selected by the tax-table column used for the
/// recipient's main income. `annual_income` is the payer's estimated total
/// annual payment, including the one-time amount.
pub fn one_time_withholding_rate(column: TaxColumn, annual_income: u32) -> (rate: u32)
    ensures
        rate == spec_one_time_withholding_rate(column, annual_income),
        rate <= 55,
{
    let i = annual_income;
    match column {
        TaxColumn::Column1 => if i <= 25_041 {
            0
        } else if i <= 82_800 {
            10
        } else if i <= 192_000 {
            21
        } else if i <= 477_600 {
            26
        } else if i <= 660_000 {
            34
        } else {
            54
        },
        TaxColumn::Column2 => if i <= 65_800 {
            0
        } else if i <= 477_600 {
            26
        } else if i <= 660_000 {
            34
        } else {
            55
        },
        TaxColumn::Column3 => if i <= 25_041 {
            0
        } else if i <= 331_200 {
            10
        } else if i <= 477_600 {
            26
        } else if i <= 660_000 {
            34
        } else {
            55
        },
        TaxColumn::Column4 => if i <= 25_041 {
            0
        } else if i <= 54_000 {
            3
        } else if i <= 192_000 {
            22
        } else if i <= 660_000 {
            26
        } else {
            46
        },
        TaxColumn::Column5 => if i <= 25_041 {
            0
        } else if i <= 32_400 {
            10
        } else if i <= 160_800 {
            29
        } else if i <= 184_800 {
            34
        } else if i <= 660_000 {
            38
        } else {
            54
        },
        TaxColumn::Column6 => if i <= 25_041 {
            0
        } else if i <= 160_800 {
            29
        } else if i <= 184_800 {
            34
        } else if i <= 660_000 {
            38
        } else {
            54
        },
    }
}

/// The published 2026 one-time-payment tables: each column's rate for every
/// annual income, bracket by bracket.
pub proof fn lemma_published_one_time_rates()
    ensures
        forall|i: u32| i <= 25_041 ==> #[trigger] spec_one_time_withholding_rate(TaxColumn::Column1, i) == 0,
        forall|i: u32| 25_042 <= i <= 82_800 ==> #[trigger] spec_one_time_withholding_rate(TaxColumn::Column1, i) == 10,
        forall|i: u32| 82_801 <= i <= 192_000 ==> #[trigger] spec_one_time_withholding_rate(TaxColumn::Column1, i) == 21,
        forall|i: u32| 192_001 <= i <= 477_600 ==> #[trigger] spec_one_time_withholding_rate(TaxColumn::Column1, i) == 26,
        forall|i: u32| 477_601 <= i <= 660_000 ==> #[trigger] spec_one_time_withholding_rate(TaxColumn::Column1, i) == 34,
        forall|i: u32| 660_001 <= i ==> #[trigger] spec_one_time_withholding_rate(TaxColumn::Column1, i) == 54,
        forall|i: u32| i <= 65_800 ==> #[trigger] spec_one_time_withholding_rate(TaxColumn::Column2, i) == 0,
        forall|i: u32| 65_801 <= i <= 477_600 ==> #[trigger] spec_one_time_withholding_rate(TaxColumn::Column2, i) == 26,
        forall|i: u32| 477_601 <= i <= 660_000 ==> #[trigger] spec_one_time_withholding_rate(TaxColumn::Column2, i) == 34,
        forall|i: u32| 660_001 <= i ==> #[trigger] spec_one_time_withholding_rate(TaxColumn::Column2, i) == 55,
        forall|i: u32| i <= 25_041 ==> #[trigger] spec_one_time_withholding_rate(TaxColumn::Column3, i) == 0,
        forall|i: u32| 25_042 <= i <= 331_200 ==> #[trigger] spec_one_time_withholding_rate(TaxColumn::Column3, i) == 10,
        forall|i: u32| 331_201 <= i <= 477_600 ==> #[trigger] spec_one_time_withholding_rate(TaxColumn::Column3, i) == 26,
        forall|i: u32| 477_601 <= i <= 660_000 ==> #[trigger] spec_one_time_withholding_rate(TaxColumn::Column3, i) == 34,
        forall|i: u32| 660_001 <= i ==> #[trigger] spec_one_time_withholding_rate(TaxColumn::Column3, i) == 55,
        forall|i: u32| i <= 25_041 ==> #[trigger] spec_one_time_withholding_rate(TaxColumn::Column4, i) == 0,
        forall|i: u32| 25_042 <= i <= 54_000 ==> #[trigger] spec_one_time_withholding_rate(TaxColumn::Column4, i) == 3,
        forall|i: u32| 54_001 <= i <= 192_000 ==> #[trigger] spec_one_time_withholding_rate(TaxColumn::Column4, i) == 22,
        forall|i: u32| 192_001 <= i <= 660_000 ==> #[trigger] spec_one_time_withholding_rate(TaxColumn::Column4, i) == 26,
        forall|i: u32| 660_001 <= i ==> #[trigger] spec_one_time_withholding_rate(TaxColumn::Column4, i) == 46,
        forall|i: u32| i <= 25_041 ==> #[trigger] spec_one_time_withholding_rate(TaxColumn::Column5, i) == 0,
        forall|i: u32| 25_042 <= i <= 32_400 ==> #[trigger] spec_one_time_withholding_rate(TaxColumn::Column5, i) == 10,
        forall|i: u32| 32_401 <= i <= 160_800 ==> #[trigger] spec_one_time_withholding_rate(TaxColumn::Column5, i) == 29,
        forall|i: u32| 160_801 <= i <= 184_800 ==> #[trigger] spec_one_time_withholding_rate(TaxColumn::Column5, i) == 34,
        forall|i: u32| 184_801 <= i <= 660_000 ==> #[trigger] spec_one_time_withholding_rate(TaxColumn::Column5, i) == 38,
        forall|i: u32| 660_001 <= i ==> #[trigger] spec_one_time_withholding_rate(TaxColumn::Column5, i) == 54,
        forall|i: u32| i <= 25_041 ==> #[trigger] spec_one_time_withholding_rate(TaxColumn::Column6, i) == 0,
        forall|i: u32| 25_042 <= i <= 160_800 ==> #[trigger] spec_one_time_withholding_rate(TaxColumn::Column6, i) == 29,
        forall|i: u32| 160_801 <= i <= 184_800 ==> #[trigger] spec_one_time_withholding_rate(TaxColumn::Column6, i) == 34,
        forall|i: u32| 184_801 <= i <= 660_000 ==> #[trigger] spec_one_time_withholding_rate(TaxColumn::Column6, i) == 38,
        forall|i: u32| 660_001 <= i ==> #[trigger] spec_one_time_withholding_rate(TaxColumn::Column6, i) == 54,
{
}

/// No one-time rate exceeds 55%.
pub proof fn lemma_one_time_rate_at_most(column: TaxColumn, annual_income: u32)
    ensures
        spec_one_time_withholding_rate(column, annual_income) <= 55,
{
}

/// A higher annual income never gets a lower one-time rate.
pub proof fn lemma_one_time_rate_monotone(column: TaxColumn, lower: u32, higher: u32)
    requires
        lower <= higher,
    ensures
        spec_one_time_withholding_rate(column, lower) <= spec_one_time_withholding_rate(
            column,
            higher,
        ),
{
}

} // verus!
