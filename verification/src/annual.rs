//! The preliminary annual tax of SKV 433, edition 36 (income year 2026).
//!
//! Amounts that the technical description states as fractions of the price
//! base amount are computed exactly, scaled by 10^8, and rounded only where
//! SKV 433 rounds.
use vstd::prelude::*;

use crate::columns::TaxColumn;
use crate::tables::{MAX_TAX_TABLE, MIN_TAX_TABLE};

verus! {

/// Component breakdown of the 2026 preliminary annual tax in SEK.
///
/// The calculation has the same simplifying assumptions as the tax tables:
/// unchanged income throughout the year, no other taxable income, and no
/// deductions or tax credits beyond those built into the selected column.
#[derive(Clone, Copy, Debug, PartialEq, Eq, Structural)]
pub struct AnnualTax {
    pub assessed_income: u32,
    pub basic_allowance: u32,
    pub taxable_income: u32,
    pub state_income_tax: u32,
    pub municipal_income_tax: u32,
    pub burial_and_religious_fee: u32,
    pub pension_fee: u32,
    pub pension_fee_credit: u32,
    pub work_income_credit: u32,
    pub sickness_compensation_credit: u32,
    pub earned_income_credit: u32,
    pub public_service_fee: u32,
    pub total: u32,
}

/// Price base amount (prisbasbelopp) for 2026.
pub const PRICE_BASE_AMOUNT: u32 = 59_200;

/// Taxable income above which state income tax applies.
pub const STATE_TAX_THRESHOLD: u32 = 643_000;

/// Burial and religious fee, in hundredths of a percent.
pub const BURIAL_AND_RELIGIOUS_RATE: u32 = 116;

/// Highest public service fee.
pub const PUBLIC_SERVICE_FEE_MAXIMUM: u32 = 1_184;

/// Fixed-point scale of the exact intermediate amounts.
pub const SCALE: u128 = 100_000_000;

// ---------------------------------------------------------------------------
// Specification
// ---------------------------------------------------------------------------

pub open spec fn scaled(value: int) -> int {
    value * SCALE
}

/// `numerator / denominator` of the price base amount, scaled.
pub open spec fn pbb(numerator: int, denominator: int) -> int {
    PRICE_BASE_AMOUNT * SCALE * numerator / denominator
}

pub open spec fn ratio(value: int, numerator: int, denominator: int) -> int {
    value * numerator / denominator
}

pub open spec fn min(a: int, b: int) -> int {
    if a <= b {
        a
    } else {
        b
    }
}

pub open spec fn max(a: int, b: int) -> int {
    if a >= b {
        a
    } else {
        b
    }
}

/// `a.saturating_sub(b)` for amounts.
pub open spec fn sat_sub(a: int, b: int) -> int {
    max(a - b, 0)
}

/// Income rounded down to a whole hundred SEK.
pub open spec fn round_down_hundred(value: int) -> int {
    value / 100 * 100
}

pub open spec fn round_scaled_up_to_hundred(value: int) -> int {
    (value + 100 * SCALE - 1) / (100 * SCALE) * 100
}

/// Ordinary basic allowance (grundavdrag), scaled.
pub open spec fn ordinary_basic_allowance_scaled(income: int) -> int {
    if income <= 58_608 {
        pbb(423, 1_000)
    } else if income <= 161_024 {
        pbb(423, 1_000) + ratio(scaled(income - 58_608), 20, 100)
    } else if income <= 184_112 {
        pbb(77, 100)
    } else if income <= 466_496 {
        pbb(77, 100) - ratio(scaled(income - 184_112), 10, 100)
    } else {
        pbb(293, 1_000)
    }
}

/// Additional allowance for those who were 66 or older at the start of the year, scaled.
pub open spec fn enhanced_basic_allowance_part_scaled(income: int) -> int {
    if income <= 53_872 {
        pbb(687, 1_000)
    } else if income <= 65_712 {
        pbb(885, 1_000) - ratio(scaled(income), 20, 100)
    } else if income <= 116_328 {
        pbb(600, 1_000) + ratio(scaled(income), 57, 1_000)
    } else if income <= 161_024 {
        pbb(333, 1_000) + ratio(scaled(income), 1_949, 10_000)
    } else if income <= 184_112 {
        ratio(scaled(income), 3_949, 10_000) - pbb(212, 1_000)
    } else if income <= 191_808 {
        ratio(scaled(income), 4_949, 10_000) - pbb(523, 1_000)
    } else if income <= 296_000 {
        ratio(scaled(income), 356, 1_000) - pbb(73, 1_000)
    } else if income <= 466_496 {
        pbb(17, 1_000) + ratio(scaled(income), 338, 1_000)
    } else if income <= 478_336 {
        pbb(703, 1_000) + ratio(scaled(income), 251, 1_000)
    } else if income <= 660_672 {
        pbb(2_732, 1_000)
    } else if income <= 760_128 {
        pbb(9_651, 1_000) - ratio(scaled(income), 62, 100)
    } else {
        pbb(1_691, 1_000)
    }
}

/// The basic allowance in SEK, never above the income, rounded up to a hundred.
pub open spec fn spec_basic_allowance(income: int, enhanced: bool) -> int {
    let ordinary = ordinary_basic_allowance_scaled(income);
    let raw = if enhanced {
        ordinary + enhanced_basic_allowance_part_scaled(income)
    } else {
        ordinary
    };
    round_scaled_up_to_hundred(min(raw, scaled(income)))
}

/// General pension fee: 7% of income up to the ceiling, rounded to a hundred.
pub open spec fn spec_pension_fee(income: int) -> int {
    if income < 25_042 {
        0
    } else {
        let raw = ratio(scaled(min(income, 673_038)), 7, 100);
        (raw + 50 * SCALE - 1) / (100 * SCALE) * 100
    }
}

pub open spec fn scaled_percentage_floor(value: int, numerator: int, denominator: int) -> int {
    value * numerator / denominator / (SCALE as int)
}

pub open spec fn percentage_floor(value: int, numerator: int, denominator: int) -> int {
    value * numerator / denominator
}

/// Work income credit (jobbskatteavdrag) for those under 66.
pub open spec fn spec_work_income_credit_under_66(income: int, allowance: int, rate: int) -> int {
    let base = if income <= 53_872 {
        scaled(income)
    } else if income <= 191_808 {
        pbb(91, 100) + ratio(scaled(income - 53_872), 3_874, 10_000)
    } else if income <= 478_336 {
        pbb(1_813, 1_000) + ratio(scaled(income - 191_808), 251, 1_000)
    } else {
        pbb(3_027, 1_000)
    };
    scaled_percentage_floor(max(base - scaled(allowance), 0), rate, 10_000)
}

/// Work income credit for those who were 66 or older at the start of the year.
pub open spec fn spec_work_income_credit_over_66(income: int) -> int {
    let credit = if income <= 103_600 {
        ratio(scaled(income), 22, 100)
    } else if income <= 310_208 {
        pbb(2_635, 10_000) + ratio(scaled(income), 7, 100)
    } else {
        pbb(6_293, 10_000)
    };
    credit / (SCALE as int)
}

/// Tax credit for sickness and activity compensation.
pub open spec fn spec_sickness_compensation_credit(income: int, allowance: int, rate: int) -> int {
    let base = if income <= 53_872 {
        scaled(income)
    } else if income <= 191_808 {
        pbb(91, 100) + ratio(scaled(income - 53_872), 3_874, 10_000)
    } else {
        pbb(1_813, 1_000) + ratio(scaled(income - 191_808), 251, 1_000)
    };
    let calculated = scaled_percentage_floor(max(base - scaled(allowance), 0), rate, 10_000);
    let minimum = scaled_percentage_floor(ratio(scaled(income), 45, 1_000), rate, 10_000);
    max(calculated, minimum)
}

/// Earned income credit before it is limited by the remaining municipal tax.
pub open spec fn spec_earned_income_credit(taxable_income: int) -> int {
    if taxable_income <= 40_000 {
        0
    } else if taxable_income <= 240_000 {
        (taxable_income - 40_000) * 75 / 10_000
    } else {
        1_500
    }
}

pub open spec fn has_enhanced_allowance(column: TaxColumn) -> bool {
    column == TaxColumn::Column2 || column == TaxColumn::Column3
}

pub open spec fn has_pension_fee(column: TaxColumn) -> bool {
    column == TaxColumn::Column1 || column == TaxColumn::Column3 || column == TaxColumn::Column5
}

/// Municipal tax rate of a table in hundredths of a percent, after the
/// burial and religious fee.
pub open spec fn municipal_rate(table: u8) -> int {
    table * 100 - BURIAL_AND_RELIGIOUS_RATE
}

/// The SKV 433 annual calculation for a supported table.
///
/// Credits are consumed in SKV 433 order: the pension-fee credit may use the
/// state tax first; the remaining credits reduce municipal income tax only.
pub open spec fn spec_annual_tax(table: u8, column: TaxColumn, gross_yearly_income: u32) -> AnnualTax {
    let assessed = round_down_hundred(gross_yearly_income as int);
    let allowance = spec_basic_allowance(assessed, has_enhanced_allowance(column));
    let taxable = sat_sub(assessed, allowance);
    let state = if taxable >= STATE_TAX_THRESHOLD + 200 {
        (taxable - STATE_TAX_THRESHOLD) * 20 / 100
    } else {
        0
    };
    let rate = municipal_rate(table);
    let municipal = percentage_floor(taxable, rate, 10_000);
    let burial = percentage_floor(taxable, BURIAL_AND_RELIGIOUS_RATE as int, 10_000);
    let fee = if has_pension_fee(column) {
        spec_pension_fee(assessed)
    } else {
        0
    };
    let public_service = min(taxable / 100, PUBLIC_SERVICE_FEE_MAXIMUM as int);
    let fee_credit = min(fee, state + municipal);
    let municipal_left = sat_sub(municipal, sat_sub(fee_credit, state));
    let calculated_work = if column == TaxColumn::Column1 {
        spec_work_income_credit_under_66(assessed, allowance, rate)
    } else if column == TaxColumn::Column3 {
        spec_work_income_credit_over_66(assessed)
    } else {
        0
    };
    let work = min(calculated_work, municipal_left);
    let left_after_work = municipal_left - work;
    let calculated_sickness = if column == TaxColumn::Column4 {
        spec_sickness_compensation_credit(assessed, allowance, rate)
    } else {
        0
    };
    let sickness = min(calculated_sickness, left_after_work);
    let left_after_sickness = left_after_work - sickness;
    let earned = min(spec_earned_income_credit(taxable), left_after_sickness);
    AnnualTax {
        assessed_income: assessed as u32,
        basic_allowance: allowance as u32,
        taxable_income: taxable as u32,
        state_income_tax: state as u32,
        municipal_income_tax: municipal as u32,
        burial_and_religious_fee: burial as u32,
        pension_fee: fee as u32,
        pension_fee_credit: fee_credit as u32,
        work_income_credit: work as u32,
        sickness_compensation_credit: sickness as u32,
        earned_income_credit: earned as u32,
        public_service_fee: public_service as u32,
        total: (state + municipal + burial + fee + public_service - fee_credit - work - sickness
            - earned) as u32,
    }
}

// ---------------------------------------------------------------------------
// Laws
// ---------------------------------------------------------------------------

/// The basic allowance depends on age through the column: those 66 or older
/// (columns 2 and 3) get the ordinary allowance plus the enhanced part, everyone
/// else the ordinary allowance; either way the allowance is at most the assessed
/// income (a whole hundred below the yearly income), rounded up to a hundred, and
/// the taxable income is what the allowance leaves of the assessed income.
pub proof fn lemma_basic_allowance_by_age(table: u8, column: TaxColumn, gross_yearly_income: u32)
    ensures
        ({
            let t = spec_annual_tax(table, column, gross_yearly_income);
            let a = gross_yearly_income as int / 100 * 100;
            let ordinary = ordinary_basic_allowance_scaled(a);
            let raw = if column == TaxColumn::Column2 || column == TaxColumn::Column3 {
                ordinary + enhanced_basic_allowance_part_scaled(a)
            } else {
                ordinary
            };
            let limited = if raw <= a * SCALE {
                raw
            } else {
                a * SCALE
            };
            &&& t.assessed_income == a
            &&& t.basic_allowance == (limited + 100 * SCALE - 1) / (100 * SCALE) * 100
            &&& t.taxable_income == (if a >= t.basic_allowance {
                a - t.basic_allowance
            } else {
                0
            })
        }),
{
    let a = round_down_hundred(gross_yearly_income as int);
    let allowance = spec_basic_allowance(a, has_enhanced_allowance(column));
    assert(0 <= allowance <= u32::MAX) by {
        let ordinary = ordinary_basic_allowance_scaled(a);
        let raw = if has_enhanced_allowance(column) {
            ordinary + enhanced_basic_allowance_part_scaled(a)
        } else {
            ordinary
        };
        let limited = min(raw, scaled(a));
        assert(a <= u32::MAX);
        assert(limited <= a * SCALE);
        assert((limited + 100 * SCALE - 1) / (100 * SCALE) <= a / 100 + 1) by (nonlinear_arith)
            requires
                limited <= a * SCALE,
                a >= 0,
                SCALE == 100_000_000,
        ;
        lemma_allowance_nonnegative(a, has_enhanced_allowance(column));
    }
}

proof fn lemma_allowance_nonnegative(a: int, enhanced: bool)
    requires
        0 <= a <= u32::MAX,
    ensures
        spec_basic_allowance(a, enhanced) >= 0,
{
    let ordinary = ordinary_basic_allowance_scaled(a);
    let e = enhanced_basic_allowance_part_scaled(a);
    assert(ordinary >= 0) by {
        assert(pbb(293, 1_000) > 0);
        if 184_112 < a <= 466_496 {
            assert(ratio(scaled(a - 184_112), 10, 100) <= scaled(466_496 - 184_112) * 10 / 100);
        }
    }
    let raw = if enhanced {
        ordinary + e
    } else {
        ordinary
    };
    assert(raw >= 0) by {
        if enhanced {
            lemma_enhanced_part_nonnegative(a);
        }
    }
}

proof fn lemma_enhanced_part_nonnegative(a: int)
    requires
        0 <= a <= u32::MAX,
    ensures
        enhanced_basic_allowance_part_scaled(a) >= 0,
{
    assert(ratio(scaled(a), 20, 100) <= scaled(65_712) * 20 / 100 || a > 65_712);
    assert(a > 184_112 || a <= 161_024 || ratio(scaled(a), 3_949, 10_000) >= scaled(161_024) * 3_949 / 10_000) by (nonlinear_arith)
        requires
            0 <= a,
    {
        if 161_024 < a {
            assert(scaled(a) >= scaled(161_024));
        }
    }
    assert(a <= 184_112 || a > 191_808 || ratio(scaled(a), 4_949, 10_000) >= scaled(184_112) * 4_949 / 10_000) by (nonlinear_arith)
        requires
            0 <= a,
    {
        if 184_112 < a {
            assert(scaled(a) >= scaled(184_112));
        }
    }
    assert(a <= 191_808 || a > 296_000 || ratio(scaled(a), 356, 1_000) >= scaled(191_808) * 356 / 1_000) by (nonlinear_arith)
        requires
            0 <= a,
    {
        if 191_808 < a {
            assert(scaled(a) >= scaled(191_808));
        }
    }
    assert(a <= 660_672 || a > 760_128 || ratio(scaled(a), 62, 100) <= scaled(760_128) * 62 / 100) by (nonlinear_arith)
        requires
            0 <= a,
    {
        if a <= 760_128 {
            assert(scaled(a) <= scaled(760_128));
        }
    }
}

/// Columns of the same age group get the same basic allowance: columns 2 and 3
/// share the enhanced allowance, and columns 1, 4, 5 and 6 the ordinary one.
pub proof fn lemma_basic_allowance_shared_by_age_group(table: u8, gross_yearly_income: u32)
    ensures
        spec_annual_tax(table, TaxColumn::Column2, gross_yearly_income).basic_allowance
            == spec_annual_tax(table, TaxColumn::Column3, gross_yearly_income).basic_allowance,
        spec_annual_tax(table, TaxColumn::Column1, gross_yearly_income).basic_allowance
            == spec_annual_tax(table, TaxColumn::Column4, gross_yearly_income).basic_allowance,
        spec_annual_tax(table, TaxColumn::Column1, gross_yearly_income).basic_allowance
            == spec_annual_tax(table, TaxColumn::Column5, gross_yearly_income).basic_allowance,
        spec_annual_tax(table, TaxColumn::Column1, gross_yearly_income).basic_allowance
            == spec_annual_tax(table, TaxColumn::Column6, gross_yearly_income).basic_allowance,
{
    lemma_basic_allowance_by_age(table, TaxColumn::Column1, gross_yearly_income);
    lemma_basic_allowance_by_age(table, TaxColumn::Column2, gross_yearly_income);
    lemma_basic_allowance_by_age(table, TaxColumn::Column3, gross_yearly_income);
    lemma_basic_allowance_by_age(table, TaxColumn::Column4, gross_yearly_income);
    lemma_basic_allowance_by_age(table, TaxColumn::Column5, gross_yearly_income);
    lemma_basic_allowance_by_age(table, TaxColumn::Column6, gross_yearly_income);
}

/// SKV 433's worked examples, and one taxpayer of 66 or older.
pub proof fn lemma_worked_examples()
    ensures
        spec_annual_tax(34, TaxColumn::Column1, 216_000) == (AnnualTax {
            assessed_income: 216_000,
            basic_allowance: 42_400,
            taxable_income: 173_600,
            state_income_tax: 0,
            municipal_income_tax: 57_010,
            burial_and_religious_fee: 2_013,
            pension_fee: 15_100,
            pension_fee_credit: 15_100,
            work_income_credit: 23_316,
            sickness_compensation_credit: 0,
            earned_income_credit: 1_002,
            public_service_fee: 1_184,
            total: 35_889,
        }),
        spec_annual_tax(34, TaxColumn::Column1, 1_020_000).total == 359_353,
        spec_annual_tax(34, TaxColumn::Column1, 1_020_000).state_income_tax == 71_920,
        spec_annual_tax(34, TaxColumn::Column1, 31_200).total == 2_331,
        spec_annual_tax(32, TaxColumn::Column3, 300_000).basic_allowance == 136_500,
        spec_annual_tax(32, TaxColumn::Column3, 300_000).total == 24_080,
{
    assert(spec_basic_allowance(216_000, false) == 42_400);
    assert(spec_pension_fee(216_000) == 15_100);
    assert(percentage_floor(173_600, 3_284, 10_000) == 57_010);
    assert(spec_work_income_credit_under_66(216_000, 42_400, 3_284) == 23_316);
    assert(spec_basic_allowance(1_020_000, false) == 17_400);
    assert(spec_pension_fee(1_020_000) == 47_100);
    assert(percentage_floor(1_002_600, 3_284, 10_000) == 329_253);
    assert(spec_work_income_credit_under_66(1_020_000, 17_400, 3_284) == 53_134);
    assert(spec_basic_allowance(300_000, true) == 136_500);
    assert(spec_pension_fee(300_000) == 21_000);
    assert(percentage_floor(163_500, 3_084, 10_000) == 50_423);
    assert(spec_work_income_credit_over_66(300_000) == 36_599);
}

// ---------------------------------------------------------------------------
// Implementation
// ---------------------------------------------------------------------------

const PBB_SCALED: u128 = 5_920_000_000_000;

fn scaled_exec(value: u32) -> (r: u128)
    ensures
        r == scaled(value as int),
        r <= u32::MAX * SCALE,
{
    value as u128 * SCALE
}

fn ordinary_basic_allowance_exec(income: u32) -> (r: u128)
    ensures
        r == ordinary_basic_allowance_scaled(income as int),
        0 <= r <= PBB_SCALED,
{
    if income <= 58_608 {
        PBB_SCALED * 423 / 1_000
    } else if income <= 161_024 {
        PBB_SCALED * 423 / 1_000 + scaled_exec(income - 58_608) * 20 / 100
    } else if income <= 184_112 {
        PBB_SCALED * 77 / 100
    } else if income <= 466_496 {
        PBB_SCALED * 77 / 100 - scaled_exec(income - 184_112) * 10 / 100
    } else {
        PBB_SCALED * 293 / 1_000
    }
}

fn enhanced_basic_allowance_exec(income: u32) -> (r: u128)
    ensures
        r == enhanced_basic_allowance_part_scaled(income as int),
        0 <= r <= 4 * PBB_SCALED,
{
    let s = scaled_exec(income);
    if income <= 53_872 {
        PBB_SCALED * 687 / 1_000
    } else if income <= 65_712 {
        PBB_SCALED * 885 / 1_000 - s * 20 / 100
    } else if income <= 116_328 {
        PBB_SCALED * 600 / 1_000 + s * 57 / 1_000
    } else if income <= 161_024 {
        PBB_SCALED * 333 / 1_000 + s * 1_949 / 10_000
    } else if income <= 184_112 {
        s * 3_949 / 10_000 - PBB_SCALED * 212 / 1_000
    } else if income <= 191_808 {
        s * 4_949 / 10_000 - PBB_SCALED * 523 / 1_000
    } else if income <= 296_000 {
        s * 356 / 1_000 - PBB_SCALED * 73 / 1_000
    } else if income <= 466_496 {
        PBB_SCALED * 17 / 1_000 + s * 338 / 1_000
    } else if income <= 478_336 {
        PBB_SCALED * 703 / 1_000 + s * 251 / 1_000
    } else if income <= 660_672 {
        PBB_SCALED * 2_732 / 1_000
    } else if income <= 760_128 {
        PBB_SCALED * 9_651 / 1_000 - s * 62 / 100
    } else {
        PBB_SCALED * 1_691 / 1_000
    }
}

/// The basic allowance of an assessed income that is a whole hundred.
fn basic_allowance(income: u32, enhanced: bool) -> (r: u32)
    requires
        income % 100 == 0,
    ensures
        r == spec_basic_allowance(income as int, enhanced),
        r <= income,
{
    let ordinary = ordinary_basic_allowance_exec(income);
    let raw = if enhanced {
        ordinary + enhanced_basic_allowance_exec(income)
    } else {
        ordinary
    };
    let cap = scaled_exec(income);
    let limited = if raw <= cap {
        raw
    } else {
        cap
    };
    let rounded = (limited + 100 * SCALE - 1) / (100 * SCALE) * 100;
    proof {
        assert(rounded <= income) by {
            let q = income / 100;
            assert(income == q * 100);
            assert(limited <= q * (100 * SCALE));
            assert((limited + 100 * SCALE - 1) / (100 * SCALE) <= q);
        }
    }
    rounded as u32
}

pub(crate) fn pension_fee(income: u32) -> (r: u32)
    ensures
        r == spec_pension_fee(income as int),
        r <= 47_200,
{
    if income < 25_042 {
        return 0;
    }
    let capped = if income <= 673_038 {
        income
    } else {
        673_038
    };
    let raw = scaled_exec(capped) * 7 / 100;
    ((raw + 50 * SCALE - 1) / (100 * SCALE) * 100) as u32
}

fn scaled_percentage_floor_exec(value: u128, rate: u32) -> (r: u128)
    requires
        value <= u32::MAX * SCALE,
        rate <= 10_000,
    ensures
        r == scaled_percentage_floor(value as int, rate as int, 10_000),
        r <= value / SCALE,
{
    proof {
        vstd::arithmetic::mul::lemma_mul_upper_bound(
            value as int,
            (u32::MAX * SCALE) as int,
            rate as int,
            10_000,
        );
        vstd::arithmetic::mul::lemma_mul_inequality(rate as int, 10_000, value as int);
        vstd::arithmetic::div_mod::lemma_div_is_ordered(
            (value * rate) as int,
            (value * 10_000) as int,
            10_000,
        );
        vstd::arithmetic::div_mod::lemma_div_multiples_vanish(value as int, 10_000);
        vstd::arithmetic::mul::lemma_mul_is_commutative(value as int, 10_000);
        vstd::arithmetic::div_mod::lemma_div_is_ordered(
            (value * rate / 10_000) as int,
            value as int,
            SCALE as int,
        );
    }
    value * rate as u128 / 10_000 / SCALE
}

fn work_income_credit_under_66(income: u32, allowance: u32, rate: u32) -> (r: u32)
    requires
        rate <= 10_000,
    ensures
        r == spec_work_income_credit_under_66(income as int, allowance as int, rate as int),
        r <= 236_800,
{
    let base = if income <= 53_872 {
        scaled_exec(income)
    } else if income <= 191_808 {
        PBB_SCALED * 91 / 100 + scaled_exec(income - 53_872) * 3_874 / 10_000
    } else if income <= 478_336 {
        PBB_SCALED * 1_813 / 1_000 + scaled_exec(income - 191_808) * 251 / 1_000
    } else {
        PBB_SCALED * 3_027 / 1_000
    };
    let allowance_scaled = scaled_exec(allowance);
    let above = if base > allowance_scaled {
        base - allowance_scaled
    } else {
        0
    };
    let r = scaled_percentage_floor_exec(above, rate);
    r as u32
}

fn work_income_credit_over_66(income: u32) -> (r: u32)
    ensures
        r == spec_work_income_credit_over_66(income as int),
        r <= 59_200,
{
    let credit = if income <= 103_600 {
        scaled_exec(income) * 22 / 100
    } else if income <= 310_208 {
        PBB_SCALED * 2_635 / 10_000 + scaled_exec(income) * 7 / 100
    } else {
        PBB_SCALED * 6_293 / 10_000
    };
    (credit / SCALE) as u32
}

fn sickness_compensation_credit(income: u32, allowance: u32, rate: u32) -> (r: u32)
    requires
        rate <= 10_000,
    ensures
        r == spec_sickness_compensation_credit(income as int, allowance as int, rate as int),
{
    let base = if income <= 53_872 {
        scaled_exec(income)
    } else if income <= 191_808 {
        PBB_SCALED * 91 / 100 + scaled_exec(income - 53_872) * 3_874 / 10_000
    } else {
        PBB_SCALED * 1_813 / 1_000 + scaled_exec(income - 191_808) * 251 / 1_000
    };
    let allowance_scaled = scaled_exec(allowance);
    let above = if base > allowance_scaled {
        base - allowance_scaled
    } else {
        0
    };
    let calculated = scaled_percentage_floor_exec(above, rate);
    let minimum_base = scaled_exec(income) * 45 / 1_000;
    let minimum = scaled_percentage_floor_exec(minimum_base, rate);
    let r = if calculated >= minimum {
        calculated
    } else {
        minimum
    };
    r as u32
}

proof fn lemma_share(v: int, n: int, d: int, cap: int)
    requires
        0 <= v,
        0 <= n <= cap,
        0 < d,
    ensures
        (v * n / d) * d <= v * cap,
        0 <= v * n / d,
{
    let q = v * n / d;
    vstd::arithmetic::div_mod::lemma_fundamental_div_mod(v * n, d);
    vstd::arithmetic::div_mod::lemma_mod_bound(v * n, d);
    vstd::arithmetic::mul::lemma_mul_nonnegative(v, n);
    vstd::arithmetic::div_mod::lemma_div_pos_is_pos(v * n, d);
    assert(q * d <= v * n) by (nonlinear_arith)
        requires
            v * n == d * q + (v * n) % d,
            (v * n) % d >= 0,
    ;
    assert(v * n <= v * cap) by (nonlinear_arith)
        requires
            0 <= v,
            n <= cap,
    ;
}

/// `value * numerator / denominator`, rounded down.
fn percentage_floor_exec(value: u32, numerator: u32, denominator: u32) -> (r: u32)
    requires
        0 < denominator,
        numerator <= denominator,
    ensures
        r == percentage_floor(value as int, numerator as int, denominator as int),
        r * denominator <= value * numerator,
        r <= value,
{
    proof {
        let v = value as int;
        let n = numerator as int;
        let d = denominator as int;
        vstd::arithmetic::mul::lemma_mul_upper_bound(v, u32::MAX as int, n, u32::MAX as int);
        lemma_share(v, n, d, n);
        lemma_share(v, n, d, d);
        let q = v * n / d;
        vstd::arithmetic::mul::lemma_mul_is_commutative(v, d);
        if q > v {
            vstd::arithmetic::mul::lemma_mul_strict_inequality(v, q, d);
        }
    }
    (value as u64 * numerator as u64 / denominator as u64) as u32
}

/// Calculates preliminary annual tax for a yearly gross income in SEK.
///
/// Tables 29 through 42 are supported. Income is rounded down to a whole
/// hundred SEK as required by SKV 433. The selected column determines which
/// allowance, fee, and tax-credit rules apply.
#[verifier::rlimit(60)]
pub fn annual_tax(table: u8, column: TaxColumn, gross_yearly_income: u32) -> (r: Option<AnnualTax>)
    ensures
        r == (if MIN_TAX_TABLE <= table <= MAX_TAX_TABLE {
            Some(spec_annual_tax(table, column, gross_yearly_income))
        } else {
            None
        }),
        r matches Some(t) ==> {
            &&& t.assessed_income == gross_yearly_income / 100 * 100
            &&& t.basic_allowance <= t.assessed_income
            &&& t.taxable_income == t.assessed_income - t.basic_allowance
            &&& t.state_income_tax == (if t.taxable_income >= 643_200 {
                (t.taxable_income - 643_000) / 5
            } else {
                0
            })
            &&& t.municipal_income_tax == t.taxable_income * (table * 100 - 116) / 10_000
            &&& t.burial_and_religious_fee == t.taxable_income * 116 / 10_000
            &&& t.public_service_fee == (if t.taxable_income / 100 <= 1_184 {
                t.taxable_income / 100
            } else {
                1_184
            })
            &&& t.pension_fee_credit == (if t.pension_fee <= t.state_income_tax
                + t.municipal_income_tax {
                t.pension_fee as int
            } else {
                t.state_income_tax + t.municipal_income_tax
            })
            &&& !(column == TaxColumn::Column1 || column == TaxColumn::Column3 || column
                == TaxColumn::Column5) ==> t.pension_fee == 0
            &&& !(column == TaxColumn::Column1 || column == TaxColumn::Column3)
                ==> t.work_income_credit == 0
            &&& column != TaxColumn::Column4 ==> t.sickness_compensation_credit == 0
            &&& t.work_income_credit + t.sickness_compensation_credit + t.earned_income_credit + (
            if t.pension_fee_credit >= t.state_income_tax {
                t.pension_fee_credit - t.state_income_tax
            } else {
                0
            }) <= t.municipal_income_tax
            &&& t.total == t.state_income_tax + t.municipal_income_tax + t.burial_and_religious_fee
                + t.pension_fee + t.public_service_fee - t.pension_fee_credit - t.work_income_credit
                - t.sickness_compensation_credit - t.earned_income_credit
        },
{
    if table < MIN_TAX_TABLE || table > MAX_TAX_TABLE {
        return None;
    }
    let assessed = gross_yearly_income / 100 * 100;
    let enhanced = matches!(column, TaxColumn::Column2 | TaxColumn::Column3);
    let allowance = basic_allowance(assessed, enhanced);
    let taxable = assessed - allowance;
    let state: u32 = if taxable >= STATE_TAX_THRESHOLD + 200 {
        (taxable - STATE_TAX_THRESHOLD) / 5
    } else {
        0
    };
    assert(state == (if taxable >= STATE_TAX_THRESHOLD + 200 {
        (taxable - STATE_TAX_THRESHOLD) * 20 / 100
    } else {
        0
    }));
    let rate = table as u32 * 100 - BURIAL_AND_RELIGIOUS_RATE;
    let municipal = percentage_floor_exec(taxable, rate, 10_000);
    let burial = percentage_floor_exec(taxable, BURIAL_AND_RELIGIOUS_RATE, 10_000);
    proof {
        lemma_share(taxable as int, rate as int, 10_000, 4_084);
        lemma_share(taxable as int, BURIAL_AND_RELIGIOUS_RATE as int, 10_000, 116);
    }
    let with_fee = matches!(column, TaxColumn::Column1 | TaxColumn::Column3 | TaxColumn::Column5);
    let fee = if with_fee {
        pension_fee(assessed)
    } else {
        0
    };
    let public_service = if taxable / 100 <= PUBLIC_SERVICE_FEE_MAXIMUM {
        taxable / 100
    } else {
        PUBLIC_SERVICE_FEE_MAXIMUM
    };
    let fee_credit = if fee <= state + municipal {
        fee
    } else {
        state + municipal
    };
    let credit_against_municipal = fee_credit.saturating_sub(state);
    let municipal_left = municipal.saturating_sub(credit_against_municipal);
    let calculated_work = match column {
        TaxColumn::Column1 => work_income_credit_under_66(assessed, allowance, rate),
        TaxColumn::Column3 => work_income_credit_over_66(assessed),
        _ => 0,
    };
    let work = if calculated_work <= municipal_left {
        calculated_work
    } else {
        municipal_left
    };
    let left_after_work = municipal_left - work;
    let calculated_sickness = match column {
        TaxColumn::Column4 => sickness_compensation_credit(assessed, allowance, rate),
        _ => 0,
    };
    let sickness = if calculated_sickness <= left_after_work {
        calculated_sickness
    } else {
        left_after_work
    };
    let left_after_sickness = left_after_work - sickness;
    let calculated_earned: u32 = if taxable <= 40_000 {
        0
    } else if taxable <= 240_000 {
        (taxable - 40_000) * 75 / 10_000
    } else {
        1_500
    };
    let earned = if calculated_earned <= left_after_sickness {
        calculated_earned
    } else {
        left_after_sickness
    };
    let total = state + municipal + burial + fee + public_service - fee_credit - work - sickness
        - earned;
    Some(
        AnnualTax {
            assessed_income: assessed,
            basic_allowance: allowance,
            taxable_income: taxable,
            state_income_tax: state,
            municipal_income_tax: municipal,
            burial_and_religious_fee: burial,
            pension_fee: fee,
            pension_fee_credit: fee_credit,
            work_income_credit: work,
            sickness_compensation_credit: sickness,
            earned_income_credit: earned,
            public_service_fee: public_service,
            total,
        },
    )
}

} // verus!
