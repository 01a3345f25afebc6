//! Swedish preliminary tax for income year 2026: monthly table lookups,
//! the SKV 433 annual formula, one-time withholding rates and income planning.
use vstd::prelude::*;

pub mod annual;
pub mod app_state;
pub mod arith;
pub mod columns;
pub mod dates;
pub mod dividend_allowance;
pub mod display;
pub mod entry;
pub mod income_bases;
pub mod income_kind;
pub mod marginal;
pub mod one_time;
pub mod pension;
pub mod plan;
pub mod tables;
pub mod text;
pub mod withholding;

pub use annual::{annual_tax, AnnualTax};
pub use app_state::{PersistedAppState, DEFAULT_MONTHLY_INCOME};
pub use columns::{TaxColumn, TaxDeduction};
pub use dates::Date2026;
pub use dividend_allowance::{
    DividendAllowance2027, DividendAllowanceInputs2027, DividendAllowanceIssue,
};
pub use entry::IncomeEntry;
pub use income_bases::{
    estimated_sgi_progress, estimated_sgi_progress_for_income, public_pension_progress,
    public_pension_progress_for_income, IncomeBasisEstimate, IncomeBasisProgress,
};
pub use income_kind::{IncomeKind, IncomeTaxCategory, PayerRole};
pub use one_time::one_time_withholding_rate;
pub use pension::{
    RegularPensionPremium, SalaryExchange, VacationCompensation,
    DEFAULT_SALARY_EXCHANGE_UPLIFT_BASIS_POINTS, DEFAULT_VACATION_COMPENSATION_RATE_BASIS_POINTS,
    EMPLOYER_PENSION_ALLOWANCE_MAXIMUM, EMPLOYER_PENSION_ALLOWANCE_RATE_BASIS_POINTS,
    REGULAR_PENSION_LOWER_RATE_BASIS_POINTS, REGULAR_PENSION_MONTHLY_THRESHOLD,
    REGULAR_PENSION_UPPER_RATE_BASIS_POINTS, SECONDARY_WITHHOLDING_PERCENT,
};
pub use plan::{
    AnnualIncomeProfile, IncomePlan, IncomePlanTotals, IncomePlanValidationIssue,
    SalaryExchangeAllowance, SalaryExchangeContext,
};
pub use tables::{
    monthly_deduction, parse_monthly_tables, MonthlyTables, RecordField, RowKind, TableRow,
    TableSourceError, MAX_TAX_TABLE, MIN_TAX_TABLE, RECORD_COUNT, RECORD_LENGTH, TABLE_COUNT,
};
pub use withholding::{AppliedWithholding, EntryWithholding, TaxAgeGroup, WithholdingSummary};
pub use display::{
    cash_income_equation, entry_period_text, income_entry_name, validation_message,
    withholding_equation,
    dividend_allowance_issue_text, format_basis_points_percentage, format_credit,
    format_delta_sek, format_sek, format_signed_sek, grouped_digits, income_basis_trace_value,
    income_eligibility, income_eligibility_short, income_kind_short, month_name, optional_sek,
    parse_basis_points_percentage, sanitize_percentage_text, table_deduction_text, tax_balance,
    tax_balance_summary, tax_balance_value, withholding_rule_text, TaxBalance,
};
pub use marginal::{marginal_withholding, MarginalWithholding, MARGINAL_INCOME_INTERVAL};
