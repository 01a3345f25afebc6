//! Kinds of income in a plan and who pays them.
use vstd::prelude::*;

verus! {

#[derive(Clone, Copy, Debug, PartialEq, Eq, Structural)]
pub enum IncomeKind {
    AnnualSalary,
    MonthlySalary,
    OneTimeSalary,
    MonthlyOccupationalPension,
    AnnualOccupationalPension,
    OwnCompanyDividend,
}

#[derive(Clone, Copy, Debug, PartialEq, Eq, Structural)]
pub enum IncomeTaxCategory {
    Work,
    Pension,
    Dividend,
}

#[derive(Clone, Copy, Debug, PartialEq, Eq, Structural)]
pub enum PayerRole {
    Main,
    Secondary,
}

pub open spec fn spec_is_monthly(kind: IncomeKind) -> bool {
    kind == IncomeKind::MonthlySalary || kind == IncomeKind::MonthlyOccupationalPension
}

pub open spec fn spec_is_dividend(kind: IncomeKind) -> bool {
    kind == IncomeKind::OwnCompanyDividend
}

pub open spec fn spec_is_salary(kind: IncomeKind) -> bool {
    kind == IncomeKind::AnnualSalary || kind == IncomeKind::MonthlySalary || kind
        == IncomeKind::OneTimeSalary
}

pub open spec fn spec_is_pension(kind: IncomeKind) -> bool {
    kind == IncomeKind::MonthlyOccupationalPension || kind == IncomeKind::AnnualOccupationalPension
}

/// Recurring salary that carries a regular occupational-pension premium.
pub open spec fn spec_is_recurring_salary(kind: IncomeKind) -> bool {
    kind == IncomeKind::AnnualSalary || kind == IncomeKind::MonthlySalary
}

pub open spec fn spec_tax_category(kind: IncomeKind) -> IncomeTaxCategory {
    if spec_is_dividend(kind) {
        IncomeTaxCategory::Dividend
    } else if spec_is_pension(kind) {
        IncomeTaxCategory::Pension
    } else {
        IncomeTaxCategory::Work
    }
}

impl IncomeKind {
    pub const ALL: [IncomeKind; 6] = [
        IncomeKind::AnnualSalary,
        IncomeKind::MonthlySalary,
        IncomeKind::OneTimeSalary,
        IncomeKind::MonthlyOccupationalPension,
        IncomeKind::AnnualOccupationalPension,
        IncomeKind::OwnCompanyDividend,
    ];

    pub fn label(self) -> (s: &'static str)
        ensures
            s@ == (match self {
                IncomeKind::AnnualSalary => "Ordinary salary — annual total"@,
                IncomeKind::MonthlySalary => "Salary — monthly over a period"@,
                IncomeKind::OneTimeSalary => "One-time salary / termination payment"@,
                IncomeKind::MonthlyOccupationalPension => "Tjänstepension — monthly over a period"@,
                IncomeKind::AnnualOccupationalPension => "Tjänstepension — annual total"@,
                IncomeKind::OwnCompanyDividend => "Dividend from own AB"@,
            }),
    {
        match self {
            IncomeKind::AnnualSalary => "Ordinary salary — annual total",
            IncomeKind::MonthlySalary => "Salary — monthly over a period",
            IncomeKind::OneTimeSalary => "One-time salary / termination payment",
            IncomeKind::MonthlyOccupationalPension => "Tjänstepension — monthly over a period",
            IncomeKind::AnnualOccupationalPension => "Tjänstepension — annual total",
            IncomeKind::OwnCompanyDividend => "Dividend from own AB",
        }
    }

    pub fn is_monthly(self) -> (b: bool)
        ensures
            b == spec_is_monthly(self),
    {
        matches!(self, IncomeKind::MonthlySalary | IncomeKind::MonthlyOccupationalPension)
    }

    pub fn is_dividend(self) -> (b: bool)
        ensures
            b == spec_is_dividend(self),
    {
        matches!(self, IncomeKind::OwnCompanyDividend)
    }

    pub fn is_salary(self) -> (b: bool)
        ensures
            b == spec_is_salary(self),
    {
        matches!(
            self,
            IncomeKind::AnnualSalary | IncomeKind::MonthlySalary | IncomeKind::OneTimeSalary
        )
    }

    pub fn is_pension(self) -> (b: bool)
        ensures
            b == spec_is_pension(self),
    {
        matches!(
            self,
            IncomeKind::MonthlyOccupationalPension | IncomeKind::AnnualOccupationalPension
        )
    }

    pub fn tax_category(self) -> (c: IncomeTaxCategory)
        ensures
            c == spec_tax_category(self),
    {
        if self.is_dividend() {
            IncomeTaxCategory::Dividend
        } else if self.is_pension() {
            IncomeTaxCategory::Pension
        } else {
            IncomeTaxCategory::Work
        }
    }

    /// Salary earns pensionable income (PGI).
    pub fn is_pgi_eligible(self) -> (b: bool)
        ensures
            b == spec_is_salary(self),
    {
        matches!(
            self,
            IncomeKind::AnnualSalary | IncomeKind::MonthlySalary | IncomeKind::OneTimeSalary
        )
    }

    /// Recurring salary establishes a sickness-benefit qualifying income (SGI).
    pub fn is_sgi_eligible(self) -> (b: bool)
        ensures
            b == spec_is_recurring_salary(self),
    {
        matches!(self, IncomeKind::AnnualSalary | IncomeKind::MonthlySalary)
    }
}

} // verus!
