//! Estimated preliminary tax withheld over 2026 for each row of an income plan.
use vstd::prelude::*;

use crate::arith::{cap_u32, sat_sub};
use crate::columns::{TaxColumn, TaxDeduction};
use crate::entry::{
    spec_amount_for_month, spec_annual_amount, spec_requested_additional,
    spec_total_annual_amount, spec_vacation_compensation_amount, IncomeEntry,
};
use crate::income_kind::{spec_is_dividend, spec_is_monthly, spec_is_pension, IncomeKind, PayerRole};
use crate::one_time::{
    lemma_one_time_rate_at_most, lemma_published_one_time_rates, one_time_withholding_rate,
    spec_one_time_withholding_rate,
};
use crate::pension::SECONDARY_WITHHOLDING_PERCENT;
use crate::plan::{spec_totals, IncomePlan};
use crate::tables::{monthly_deduction, spec_monthly_deduction, MonthlyTables, TableRow};

verus! {

/// Whether the taxpayer had turned 66 when the year began, which selects the
/// table columns for salary and for pension.
#[derive(Clone, Copy, Debug, PartialEq, Eq, Structural)]
pub enum TaxAgeGroup {
    Under66AtYearStart,
    AtLeast66AtYearStart,
}

pub open spec fn spec_salary_column(age_group: TaxAgeGroup) -> TaxColumn {
    match age_group {
        TaxAgeGroup::Under66AtYearStart => TaxColumn::Column1,
        TaxAgeGroup::AtLeast66AtYearStart => TaxColumn::Column3,
    }
}

pub open spec fn spec_pension_column(age_group: TaxAgeGroup) -> TaxColumn {
    match age_group {
        TaxAgeGroup::Under66AtYearStart => TaxColumn::Column6,
        TaxAgeGroup::AtLeast66AtYearStart => TaxColumn::Column2,
    }
}

impl TaxAgeGroup {
    pub fn salary_column(self) -> (c: TaxColumn)
        ensures
            c == spec_salary_column(self),
    {
        match self {
            TaxAgeGroup::Under66AtYearStart => TaxColumn::Column1,
            TaxAgeGroup::AtLeast66AtYearStart => TaxColumn::Column3,
        }
    }

    pub fn pension_column(self) -> (c: TaxColumn)
        ensures
            c == spec_pension_column(self),
    {
        match self {
            TaxAgeGroup::Under66AtYearStart => TaxColumn::Column6,
            TaxAgeGroup::AtLeast66AtYearStart => TaxColumn::Column2,
        }
    }
}

/// The rule that decided an entry's withholding.
#[derive(Clone, Copy, Debug, PartialEq, Eq, Structural)]
pub enum AppliedWithholding {
    ActualAmount,
    Table(TaxColumn),
    TableAndOneTime(TaxColumn, u32),
    OneTimeTable(u32),
    Secondary30,
    AdjustmentPercent(u32),
    NoWithholding,
}

#[derive(Clone, Copy, Debug, PartialEq, Eq, Structural)]
pub struct EntryWithholding {
    pub entry_id: u64,
    pub gross: u32,
    pub withheld: u32,
    pub regular_withheld: u32,
    pub supplemental_withheld: u32,
    pub additional_withheld: u32,
    pub rule: AppliedWithholding,
}

#[derive(Clone, Debug, PartialEq, Eq)]
pub struct WithholdingSummary {
    pub total: u32,
    pub entries: Vec<EntryWithholding>,
}

// ---------------------------------------------------------------------------
// Model
// ---------------------------------------------------------------------------

/// Whole percent of an amount, rounded down.
pub open spec fn spec_percentage(amount: u32, percent: u32) -> u32 {
    cap_u32(amount * percent / 100)
}

/// Monthly withholding from the table for one month's income.
pub open spec fn spec_table_withholding(
    tables: Seq<Seq<TableRow>>,
    table: u8,
    column: TaxColumn,
    income: u32,
) -> u32 {
    match spec_monthly_deduction(tables, table, column, income) {
        Some(TaxDeduction::Amount(amount)) => amount,
        Some(TaxDeduction::Percent(percent)) => spec_percentage(income, percent),
        None => 0,
    }
}

/// Withholding for an annual amount paid evenly over twelve months: twelve
/// times the table amount for a twelfth, or the table percentage of the whole.
pub open spec fn spec_annualized_table_withholding(
    tables: Seq<Seq<TableRow>>,
    table: u8,
    column: TaxColumn,
    annual_income: u32,
) -> u32 {
    match spec_monthly_deduction(tables, table, column, (annual_income / 12) as u32) {
        Some(TaxDeduction::Amount(amount)) => cap_u32(amount * 12),
        Some(TaxDeduction::Percent(percent)) => spec_percentage(annual_income, percent),
        None => 0,
    }
}

/// Saturating sum of the table withholding of months `1..=months` of an entry.
pub open spec fn monthly_table_total(
    tables: Seq<Seq<TableRow>>,
    table: u8,
    column: TaxColumn,
    e: IncomeEntry,
    months: int,
) -> u32
    decreases months,
{
    if months <= 0 {
        0
    } else {
        cap_u32(
            monthly_table_total(tables, table, column, e, months - 1) + spec_table_withholding(
                tables,
                table,
                column,
                spec_amount_for_month(e, months),
            ),
        )
    }
}

/// The column for an entry: the pension column for pension, else the salary column.
pub open spec fn entry_column(e: IncomeEntry, age_group: TaxAgeGroup) -> TaxColumn {
    if spec_is_pension(e.kind) {
        spec_pension_column(age_group)
    } else {
        spec_salary_column(age_group)
    }
}

/// The estimate before any voluntary extra tax, as (total, regular part,
/// one-time part on vacation pay, rule). A jämkning percentage applies first,
/// then a secondary payer's flat 30%, then the one-time table for a one-time
/// salary, and otherwise the monthly table, with vacation pay withheld at the
/// one-time rate for the plan's work income.
pub open spec fn spec_base_withholding(
    tables: Seq<Seq<TableRow>>,
    adjustment_percent: Option<u32>,
    work_income: u32,
    e: IncomeEntry,
    table: u8,
    age_group: TaxAgeGroup,
) -> (u32, u32, u32, AppliedWithholding) {
    let gross = spec_total_annual_amount(e);
    let column = entry_column(e, age_group);
    if e.adjustment_applies && adjustment_percent is Some {
        let percent = adjustment_percent.unwrap();
        let w = spec_percentage(gross, percent);
        (w, w, 0, AppliedWithholding::AdjustmentPercent(percent))
    } else if e.payer_role == PayerRole::Secondary {
        let w = spec_percentage(gross, SECONDARY_WITHHOLDING_PERCENT);
        (w, w, 0, AppliedWithholding::Secondary30)
    } else if e.kind == IncomeKind::OneTimeSalary {
        let rate = spec_one_time_withholding_rate(column, work_income);
        let w = spec_percentage(gross, rate);
        (w, w, 0, AppliedWithholding::OneTimeTable(rate))
    } else {
        let regular = if spec_is_monthly(e.kind) {
            monthly_table_total(tables, table, column, e, 12)
        } else {
            spec_annualized_table_withholding(tables, table, column, spec_annual_amount(e))
        };
        let vacation = spec_vacation_compensation_amount(e);
        if vacation == 0 {
            (regular, regular, 0, AppliedWithholding::Table(column))
        } else {
            let rate = spec_one_time_withholding_rate(column, work_income);
            let supplemental = spec_percentage(vacation, rate);
            (
                cap_u32(regular + supplemental),
                regular,
                supplemental,
                AppliedWithholding::TableAndOneTime(column, rate),
            )
        }
    }
}

/// The estimate for one entry: an actual amount overrides everything, a
/// dividend has no default withholding, and otherwise the requested extra tax
/// is added as far as the gross amount left after the base estimate allows.
pub open spec fn spec_entry_withholding(
    tables: Seq<Seq<TableRow>>,
    adjustment_percent: Option<u32>,
    work_income: u32,
    e: IncomeEntry,
    table: u8,
    age_group: TaxAgeGroup,
) -> EntryWithholding {
    let gross = spec_total_annual_amount(e);
    match e.actual_withholding {
        Some(withheld) => EntryWithholding {
            entry_id: e.id,
            gross,
            withheld,
            regular_withheld: withheld,
            supplemental_withheld: 0,
            additional_withheld: 0,
            rule: AppliedWithholding::ActualAmount,
        },
        None => if spec_is_dividend(e.kind) {
            EntryWithholding {
                entry_id: e.id,
                gross,
                withheld: 0,
                regular_withheld: 0,
                supplemental_withheld: 0,
                additional_withheld: 0,
                rule: AppliedWithholding::NoWithholding,
            }
        } else {
            let (base, regular, supplemental, rule) = spec_base_withholding(
                tables,
                adjustment_percent,
                work_income,
                e,
                table,
                age_group,
            );
            let room = sat_sub(gross, base);
            let requested = spec_requested_additional(e);
            let additional = if requested <= room {
                requested
            } else {
                room
            };
            EntryWithholding {
                entry_id: e.id,
                gross,
                withheld: cap_u32(base + additional),
                regular_withheld: regular,
                supplemental_withheld: supplemental,
                additional_withheld: additional,
                rule,
            }
        },
    }
}

/// The estimate of every entry of a plan, in the plan's order.
pub open spec fn spec_withholding_entries(
    tables: Seq<Seq<TableRow>>,
    plan_entries: Seq<IncomeEntry>,
    adjustment_percent: Option<u32>,
    table: u8,
    age_group: TaxAgeGroup,
) -> Seq<EntryWithholding> {
    let work_income = spec_totals(plan_entries).work_income;
    plan_entries.map_values(
        |e: IncomeEntry|
            spec_entry_withholding(tables, adjustment_percent, work_income, e, table, age_group),
    )
}

/// Saturating sum of what the entries withhold.
pub open spec fn withheld_total(entries: Seq<EntryWithholding>) -> u32
    decreases entries.len(),
{
    if entries.len() == 0 {
        0
    } else {
        cap_u32(withheld_total(entries.drop_last()) + entries.last().withheld)
    }
}

// ---------------------------------------------------------------------------
// Laws
// ---------------------------------------------------------------------------

/// A recorded actual withholding is what the entry withholds, whatever its
/// kind, payer or jämkning.
pub proof fn lemma_actual_withholding_overrides(
    tables: Seq<Seq<TableRow>>,
    adjustment_percent: Option<u32>,
    work_income: u32,
    e: IncomeEntry,
    table: u8,
    age_group: TaxAgeGroup,
)
    requires
        e.actual_withholding is Some,
    ensures
        ({
            let w = spec_entry_withholding(tables, adjustment_percent, work_income, e, table, age_group);
            &&& w.withheld == e.actual_withholding.unwrap()
            &&& w.additional_withheld == 0
            &&& w.rule == AppliedWithholding::ActualAmount
        }),
{
}

/// Without a recorded amount, a dividend withholds nothing.
pub proof fn lemma_dividend_withholds_nothing(
    tables: Seq<Seq<TableRow>>,
    adjustment_percent: Option<u32>,
    work_income: u32,
    e: IncomeEntry,
    table: u8,
    age_group: TaxAgeGroup,
)
    requires
        e.actual_withholding is None,
        spec_is_dividend(e.kind),
    ensures
        spec_entry_withholding(tables, adjustment_percent, work_income, e, table, age_group).withheld
            == 0,
{
}

/// Voluntary extra tax never takes an estimate above the gross amount: the
/// estimate is the base plus an extra part of at most what the base leaves.
pub proof fn lemma_additional_within_gross(
    tables: Seq<Seq<TableRow>>,
    adjustment_percent: Option<u32>,
    work_income: u32,
    e: IncomeEntry,
    table: u8,
    age_group: TaxAgeGroup,
)
    requires
        e.actual_withholding is None,
        !spec_is_dividend(e.kind),
    ensures
        ({
            let w = spec_entry_withholding(tables, adjustment_percent, work_income, e, table, age_group);
            let base = spec_base_withholding(
                tables,
                adjustment_percent,
                work_income,
                e,
                table,
                age_group,
            ).0;
            &&& w.additional_withheld <= spec_requested_additional(e)
            &&& w.withheld == base + w.additional_withheld
            &&& base <= w.gross ==> w.withheld <= w.gross
        }),
{
}

/// A main-payer annual row (salary or pension, no jämkning, no extra tax) is
/// withheld as twelve monthly payments of a twelfth: when the twelfth's table
/// entry is an amount, the year's withholding is twelve times the month's
/// (saturating), and when it is a percentage, that percentage of the whole
/// annual amount, rounded down.
pub proof fn lemma_annual_row_is_twelve_months(
    tables: Seq<Seq<TableRow>>,
    adjustment_percent: Option<u32>,
    work_income: u32,
    e: IncomeEntry,
    table: u8,
    age_group: TaxAgeGroup,
)
    requires
        e.actual_withholding is None,
        e.kind == IncomeKind::AnnualSalary || e.kind == IncomeKind::AnnualOccupationalPension,
        e.payer_role == PayerRole::Main,
        !(e.adjustment_applies && adjustment_percent is Some),
        e.additional_withholding_per_payment is None,
    ensures
        ({
            let w = spec_entry_withholding(tables, adjustment_percent, work_income, e, table, age_group);
            let column = entry_column(e, age_group);
            let twelfth = (e.amount / 12) as u32;
            &&& w.gross == e.amount
            &&& w.rule == AppliedWithholding::Table(column)
            &&& w.additional_withheld == 0
            &&& spec_monthly_deduction(tables, table, column, twelfth) matches Some(
                TaxDeduction::Amount(_),
            ) ==> w.withheld == (if 12 * spec_table_withholding(tables, table, column, twelfth)
                <= u32::MAX {
                12 * spec_table_withholding(tables, table, column, twelfth)
            } else {
                u32::MAX as int
            })
            &&& spec_monthly_deduction(tables, table, column, twelfth) matches Some(
                TaxDeduction::Percent(p),
            ) ==> w.withheld == (if e.amount * p / 100 <= u32::MAX {
                e.amount * p / 100
            } else {
                u32::MAX as int
            })
        }),
{
}

/// The flat-rate rules take whole percent of the row's gross amount, rounded
/// down: a jämkning decision its own percentage, a secondary payer 30%, and a
/// main payer's one-time salary the one-time table's rate for the plan's work
/// income in the row's column. Vacation pay on a monthly salary is withheld at
/// that one-time rate on top of the monthly table.
pub proof fn lemma_flat_rate_rules(
    tables: Seq<Seq<TableRow>>,
    adjustment_percent: Option<u32>,
    work_income: u32,
    e: IncomeEntry,
    table: u8,
    age_group: TaxAgeGroup,
)
    requires
        e.actual_withholding is None,
        !spec_is_dividend(e.kind),
        e.additional_withholding_per_payment is None,
    ensures
        ({
            let w = spec_entry_withholding(tables, adjustment_percent, work_income, e, table, age_group);
            let g = w.gross as int;
            let column = entry_column(e, age_group);
            let one_time_rate = spec_one_time_withholding_rate(column, work_income);
            &&& w.gross == spec_total_annual_amount(e)
            &&& (e.adjustment_applies && adjustment_percent is Some) ==> {
                let p = adjustment_percent.unwrap();
                w.withheld == (if g * p / 100 <= u32::MAX {
                    g * p / 100
                } else {
                    u32::MAX as int
                }) && w.rule == AppliedWithholding::AdjustmentPercent(p)
            }
            &&& !(e.adjustment_applies && adjustment_percent is Some) && e.payer_role
                == PayerRole::Secondary ==> w.withheld == g * 30 / 100 && w.rule
                == AppliedWithholding::Secondary30
            &&& !(e.adjustment_applies && adjustment_percent is Some) && e.payer_role
                == PayerRole::Main && e.kind == IncomeKind::OneTimeSalary ==> w.withheld == g
                * one_time_rate / 100 && w.rule == AppliedWithholding::OneTimeTable(one_time_rate)
            &&& !(e.adjustment_applies && adjustment_percent is Some) && e.payer_role
                == PayerRole::Main && e.kind == IncomeKind::MonthlySalary
                && spec_vacation_compensation_amount(e) > 0 ==> w.supplemental_withheld
                == spec_vacation_compensation_amount(e) * one_time_rate / 100 && w.rule
                == AppliedWithholding::TableAndOneTime(column, one_time_rate)
        }),
{
    let column = entry_column(e, age_group);
    let rate = spec_one_time_withholding_rate(column, work_income);
    lemma_published_one_time_rates();
    assert(rate <= 55) by {
        lemma_one_time_rate_at_most(column, work_income);
    }
    let g = spec_total_annual_amount(e) as int;
    assert(g * 30 / 100 <= u32::MAX) by (nonlinear_arith)
        requires
            0 <= g <= u32::MAX,
    ;
    assert(g * rate / 100 <= u32::MAX) by (nonlinear_arith)
        requires
            0 <= g <= u32::MAX,
            0 <= rate <= 55,
    ;
    let v = spec_vacation_compensation_amount(e) as int;
    assert(v * rate / 100 <= u32::MAX) by (nonlinear_arith)
        requires
            0 <= v <= u32::MAX,
            0 <= rate <= 55,
    ;
}

// ---------------------------------------------------------------------------
// Operations
// ---------------------------------------------------------------------------

fn percentage(amount: u32, percent: u32) -> (r: u32)
    ensures
        r == spec_percentage(amount, percent),
{
    proof {
        vstd::arithmetic::mul::lemma_mul_upper_bound(
            amount as int,
            u32::MAX as int,
            percent as int,
            u32::MAX as int,
        );
        vstd::arithmetic::mul::lemma_mul_nonnegative(amount as int, percent as int);
    }
    let value = amount as u64 * percent as u64 / 100;
    if value > u32::MAX as u64 {
        u32::MAX
    } else {
        value as u32
    }
}

fn table_withholding(tables: &MonthlyTables, table: u8, column: TaxColumn, income: u32) -> (r: u32)
    ensures
        r == spec_table_withholding(tables@, table, column, income),
{
    match monthly_deduction(tables, table, column, income) {
        Some(TaxDeduction::Amount(amount)) => amount,
        Some(TaxDeduction::Percent(percent)) => percentage(income, percent),
        None => 0,
    }
}

fn annualized_table_withholding(
    tables: &MonthlyTables,
    table: u8,
    column: TaxColumn,
    annual_income: u32,
) -> (r: u32)
    ensures
        r == spec_annualized_table_withholding(tables@, table, column, annual_income),
{
    match monthly_deduction(tables, table, column, annual_income / 12) {
        Some(TaxDeduction::Amount(amount)) => crate::arith::sat_mul(amount, 12),
        Some(TaxDeduction::Percent(percent)) => percentage(annual_income, percent),
        None => 0,
    }
}

fn monthly_withholding(tables: &MonthlyTables, table: u8, column: TaxColumn, entry: &IncomeEntry) -> (r: u32)
    ensures
        r == monthly_table_total(tables@, table, column, *entry, 12),
{
    let mut total: u32 = 0;
    let mut month: u8 = 1;
    while month <= 12
        invariant
            1 <= month <= 13,
            total == monthly_table_total(tables@, table, column, *entry, month - 1),
        decreases 13 - month,
    {
        total = total.saturating_add(
            table_withholding(tables, table, column, entry.amount_for_month(month)),
        );
        month = month + 1;
    }
    total
}

fn base_entry_withholding(
    tables: &MonthlyTables,
    adjustment_percent: Option<u32>,
    work_income: u32,
    entry: &IncomeEntry,
    table: u8,
    age_group: TaxAgeGroup,
) -> (r: (u32, u32, u32, AppliedWithholding))
    ensures
        r == spec_base_withholding(tables@, adjustment_percent, work_income, *entry, table, age_group),
{
    let gross = entry.total_annual_amount();
    if entry.adjustment_applies {
        match adjustment_percent {
            Some(percent) => {
                let withheld = percentage(gross, percent);
                return (withheld, withheld, 0, AppliedWithholding::AdjustmentPercent(percent));
            },
            None => {},
        }
    }
    if entry.payer_role == PayerRole::Secondary {
        let withheld = percentage(gross, SECONDARY_WITHHOLDING_PERCENT);
        return (withheld, withheld, 0, AppliedWithholding::Secondary30);
    }
    let column = if entry.kind.is_pension() {
        age_group.pension_column()
    } else {
        age_group.salary_column()
    };
    if entry.kind == IncomeKind::OneTimeSalary {
        let percent = one_time_withholding_rate(column, work_income);
        let withheld = percentage(gross, percent);
        return (withheld, withheld, 0, AppliedWithholding::OneTimeTable(percent));
    }
    let regular_withheld = if entry.kind.is_monthly() {
        monthly_withholding(tables, table, column, entry)
    } else {
        annualized_table_withholding(tables, table, column, entry.annual_amount())
    };
    let vacation_gross = entry.vacation_compensation_amount();
    if vacation_gross == 0 {
        return (regular_withheld, regular_withheld, 0, AppliedWithholding::Table(column));
    }
    let percent = one_time_withholding_rate(column, work_income);
    let supplemental_withheld = percentage(vacation_gross, percent);
    (
        regular_withheld.saturating_add(supplemental_withheld),
        regular_withheld,
        supplemental_withheld,
        AppliedWithholding::TableAndOneTime(column, percent),
    )
}

fn entry_withholding(
    tables: &MonthlyTables,
    adjustment_percent: Option<u32>,
    work_income: u32,
    entry: &IncomeEntry,
    table: u8,
    age_group: TaxAgeGroup,
) -> (r: EntryWithholding)
    ensures
        r == spec_entry_withholding(tables@, adjustment_percent, work_income, *entry, table, age_group),
{
    let gross = entry.total_annual_amount();
    match entry.actual_withholding {
        Some(withheld) => {
            return EntryWithholding {
                entry_id: entry.id,
                gross,
                withheld,
                regular_withheld: withheld,
                supplemental_withheld: 0,
                additional_withheld: 0,
                rule: AppliedWithholding::ActualAmount,
            };
        },
        None => {},
    }
    if entry.kind.is_dividend() {
        return EntryWithholding {
            entry_id: entry.id,
            gross,
            withheld: 0,
            regular_withheld: 0,
            supplemental_withheld: 0,
            additional_withheld: 0,
            rule: AppliedWithholding::NoWithholding,
        };
    }
    let (base, regular_withheld, supplemental_withheld, rule) = base_entry_withholding(
        tables,
        adjustment_percent,
        work_income,
        entry,
        table,
        age_group,
    );
    let room = gross.saturating_sub(base);
    let requested = entry.requested_additional_withholding();
    let additional_withheld = if requested <= room {
        requested
    } else {
        room
    };
    EntryWithholding {
        entry_id: entry.id,
        gross,
        withheld: base.saturating_add(additional_withheld),
        regular_withheld,
        supplemental_withheld,
        additional_withheld,
        rule,
    }
}

impl IncomePlan {
    /// The withholding estimate of every entry, in the plan's order, and their
    /// saturating total, for tax table `table` and the taxpayer's age group.
    pub fn estimated_withholding(
        &self,
        tables: &MonthlyTables,
        table: u8,
        age_group: TaxAgeGroup,
    ) -> (r: WithholdingSummary)
        ensures
            r.entries@ == spec_withholding_entries(
                tables@,
                self.entries@,
                self.adjustment_percent,
                table,
                age_group,
            ),
            r.total == withheld_total(r.entries@),
    {
        let totals = self.totals();
        let ghost expected = spec_withholding_entries(
            tables@,
            self.entries@,
            self.adjustment_percent,
            table,
            age_group,
        );
        let n = self.entries.len();
        let mut entries: Vec<EntryWithholding> = Vec::new();
        let mut total: u32 = 0;
        let mut i: usize = 0;
        while i < n
            invariant
                0 <= i <= n,
                n == self.entries@.len(),
                totals == spec_totals(self.entries@),
                expected == spec_withholding_entries(
                    tables@,
                    self.entries@,
                    self.adjustment_percent,
                    table,
                    age_group,
                ),
                entries@ == expected.subrange(0, i as int),
                total == withheld_total(entries@),
            decreases n - i,
        {
            let estimate = entry_withholding(
                tables,
                self.adjustment_percent,
                totals.work_income,
                &self.entries[i],
                table,
                age_group,
            );
            let ghost before = entries@;
            entries.push(estimate);
            total = total.saturating_add(estimate.withheld);
            assert(entries@ =~= expected.subrange(0, i + 1));
            assert(entries@.drop_last() =~= before);
            i = i + 1;
        }
        assert(entries@ =~= expected);
        WithholdingSummary { total, entries }
    }
}

} // verus!
