//! Preliminary 2027 dividend allowance (gränsbelopp) under the 3:12 rules for
//! qualified shares, based on 2026 salaries.
use vstd::prelude::*;

use crate::arith::{cap_u32, sat_mul, sat_sub};

verus! {

/// 2027 basic amount for qualified shares.
pub const DIVIDEND_BASIC_AMOUNT_2027: u32 = 333_600;

/// Deduction from the joint wage basis before the wage-based allowance.
pub const DIVIDEND_WAGE_DEDUCTION_2027: u32 = 667_200;

pub const DIVIDEND_WAGE_ALLOWANCE_PERCENT: u32 = 50;

pub const DIVIDEND_WAGE_CAP_MULTIPLIER: u32 = 50;

pub const DIVIDEND_ACQUISITION_COST_THRESHOLD: u32 = 100_000;

pub const QUALIFIED_DIVIDEND_TAX_PERCENT: u32 = 20;

#[derive(Clone, Copy, Debug, PartialEq, Eq, Structural)]
pub struct DividendAllowanceInputs2027 {
    /// When true, the owner's marked 2026 cash salary is the complete wage basis.
    pub one_person_company: bool,
    /// Hundredths of one percent; 10_000 means 100%.
    pub ownership_basis_points: u32,
    /// Sum of this owner's percentages in other companies with qualified shares.
    /// This can exceed 100% when the owner has shares in several companies.
    pub other_qualified_ownership_basis_points: u32,
    /// A spouse's ownership in this company, used for the mandatory joint wage calculation.
    pub spouse_ownership_basis_points: u32,
    /// Cash compensation paid by the company and qualifying subsidiaries in 2026.
    pub company_cash_payroll_2026: u32,
    /// Highest 2026 cash compensation paid to a related person by the company/group.
    pub highest_related_cash_salary_2026: u32,
    /// Acquisition cost for this owner's shares at the beginning of 2027.
    pub acquisition_cost: u32,
    /// Total 2027 interest rate: the 30 November 2026 government borrowing rate plus 9%.
    pub acquisition_cost_interest_basis_points: Option<u32>,
    /// Saved dividend allowance brought into income year 2027.
    pub saved_allowance: u32,
}

/// The default inputs: sole owner of a one-person company with nothing else entered.
pub open spec fn default_dividend_inputs() -> DividendAllowanceInputs2027 {
    DividendAllowanceInputs2027 {
        one_person_company: true,
        ownership_basis_points: 10_000,
        other_qualified_ownership_basis_points: 0,
        spouse_ownership_basis_points: 0,
        company_cash_payroll_2026: 0,
        highest_related_cash_salary_2026: 0,
        acquisition_cost: 0,
        acquisition_cost_interest_basis_points: None,
        saved_allowance: 0,
    }
}

impl Default for DividendAllowanceInputs2027 {
    fn default() -> (d: Self)
        ensures
            d == default_dividend_inputs(),
    {
        Self {
            one_person_company: true,
            ownership_basis_points: 10_000,
            other_qualified_ownership_basis_points: 0,
            spouse_ownership_basis_points: 0,
            company_cash_payroll_2026: 0,
            highest_related_cash_salary_2026: 0,
            acquisition_cost: 0,
            acquisition_cost_interest_basis_points: None,
            saved_allowance: 0,
        }
    }
}

#[derive(Clone, Copy, Debug, PartialEq, Eq, Structural)]
pub enum DividendAllowanceIssue {
    OwnershipExceedsOneHundredPercent,
    SpouseOwnershipExceedsCompany,
    PersonalSalaryExceedsCompanyPayroll,
    MissingAcquisitionCostInterestRate,
}

#[derive(Clone, Copy, Debug, PartialEq, Eq, Structural)]
pub struct DividendAllowance2027 {
    pub basic_amount: u32,
    pub owner_cash_salary: u32,
    pub company_cash_payroll: u32,
    pub joint_wage_basis: u32,
    pub joint_wage_basis_after_deduction: u32,
    pub wage_allowance_before_cap: u32,
    pub wage_cap_salary: u32,
    pub wage_cap: u32,
    pub wage_allowance: u32,
    pub acquisition_cost_interest_basis: u32,
    pub acquisition_cost_interest: u32,
    pub saved_allowance: u32,
    pub total: u32,
}

/// `amount × numerator / denominator` rounded down and limited to `u32`;
/// zero for a zero denominator.
pub open spec fn spec_proportion_floor(amount: u32, numerator: u32, denominator: u32) -> u32 {
    if denominator == 0 {
        0
    } else {
        cap_u32(amount * numerator / (denominator as int))
    }
}

/// The preliminary 2027 allowance for the owner's 2026 cash salary, or the
/// first inconsistency in the inputs.
pub open spec fn spec_dividend_allowance(
    inputs: DividendAllowanceInputs2027,
    owner_cash_salary_2026: u32,
) -> Result<DividendAllowance2027, DividendAllowanceIssue> {
    let joint_ownership = cap_u32(
        inputs.ownership_basis_points + inputs.spouse_ownership_basis_points,
    );
    let company_cash_payroll = if inputs.one_person_company {
        owner_cash_salary_2026
    } else {
        inputs.company_cash_payroll_2026
    };
    let highest_related = if inputs.one_person_company {
        0
    } else {
        inputs.highest_related_cash_salary_2026
    };
    let interest_basis = sat_sub(inputs.acquisition_cost, DIVIDEND_ACQUISITION_COST_THRESHOLD);
    if inputs.ownership_basis_points > 10_000 {
        Err(DividendAllowanceIssue::OwnershipExceedsOneHundredPercent)
    } else if joint_ownership > 10_000 {
        Err(DividendAllowanceIssue::SpouseOwnershipExceedsCompany)
    } else if owner_cash_salary_2026 > company_cash_payroll || highest_related > company_cash_payroll {
        Err(DividendAllowanceIssue::PersonalSalaryExceedsCompanyPayroll)
    } else if interest_basis != 0 && inputs.acquisition_cost_interest_basis_points is None {
        Err(DividendAllowanceIssue::MissingAcquisitionCostInterestRate)
    } else {
        let basic_denominator = if cap_u32(
            inputs.ownership_basis_points + inputs.other_qualified_ownership_basis_points,
        ) >= 10_000 {
            cap_u32(inputs.ownership_basis_points + inputs.other_qualified_ownership_basis_points)
        } else {
            10_000
        };
        let basic_amount = spec_proportion_floor(
            DIVIDEND_BASIC_AMOUNT_2027,
            inputs.ownership_basis_points,
            basic_denominator,
        );
        let joint_wage_basis = spec_proportion_floor(company_cash_payroll, joint_ownership, 10_000);
        let after_deduction = sat_sub(joint_wage_basis, DIVIDEND_WAGE_DEDUCTION_2027);
        let joint_wage_allowance = spec_proportion_floor(
            after_deduction,
            DIVIDEND_WAGE_ALLOWANCE_PERCENT,
            100,
        );
        let before_cap = if joint_ownership == 0 {
            0
        } else {
            spec_proportion_floor(joint_wage_allowance, inputs.ownership_basis_points, joint_ownership)
        };
        let cap_salary = if owner_cash_salary_2026 >= highest_related {
            owner_cash_salary_2026
        } else {
            highest_related
        };
        let wage_cap = cap_u32(cap_salary * DIVIDEND_WAGE_CAP_MULTIPLIER);
        let wage_allowance = if before_cap <= wage_cap {
            before_cap
        } else {
            wage_cap
        };
        let interest = if interest_basis == 0 {
            0
        } else {
            spec_proportion_floor(
                interest_basis,
                inputs.acquisition_cost_interest_basis_points->0,
                10_000,
            )
        };
        Ok(
            DividendAllowance2027 {
                basic_amount,
                owner_cash_salary: owner_cash_salary_2026,
                company_cash_payroll,
                joint_wage_basis,
                joint_wage_basis_after_deduction: after_deduction,
                wage_allowance_before_cap: before_cap,
                wage_cap_salary: cap_salary,
                wage_cap,
                wage_allowance,
                acquisition_cost_interest_basis: interest_basis,
                acquisition_cost_interest: interest,
                saved_allowance: inputs.saved_allowance,
                total: cap_u32(basic_amount + wage_allowance + interest + inputs.saved_allowance),
            },
        )
    }
}

/// The allowance never gives more than the rules admit: the basic amount is at
/// most the full 2027 basic amount, shared in proportion to ownership, and the
/// wage-based part is at most both its uncapped value and fifty times the
/// highest salary.
pub proof fn lemma_allowance_within_limits(inputs: DividendAllowanceInputs2027, owner_cash_salary_2026: u32)
    requires
        spec_dividend_allowance(inputs, owner_cash_salary_2026) is Ok,
    ensures
        ({
            let a = spec_dividend_allowance(inputs, owner_cash_salary_2026)->Ok_0;
            &&& a.basic_amount <= DIVIDEND_BASIC_AMOUNT_2027
            &&& a.wage_allowance <= a.wage_allowance_before_cap
            &&& a.wage_allowance <= a.wage_cap
        }),
{
    let own = inputs.ownership_basis_points as int;
    let combined = cap_u32(inputs.ownership_basis_points + inputs.other_qualified_ownership_basis_points) as int;
    let denominator = if combined >= 10_000 {
        combined
    } else {
        10_000
    };
    assert(own <= denominator);
    assert(333_600 * own / denominator <= 333_600) by (nonlinear_arith)
        requires
            0 <= own <= denominator,
            denominator > 0,
    {
        assert(333_600 * own <= 333_600 * denominator);
        vstd::arithmetic::div_mod::lemma_div_is_ordered(333_600 * own, 333_600 * denominator, denominator);
        vstd::arithmetic::div_mod::lemma_div_multiples_vanish(333_600, denominator);
    }
}

/// The allowance is the sum of its parts: the basic amount, the wage-based
/// part, the acquisition-cost interest and the whole saved allowance carried
/// in from earlier years (the sum saturating at `u32::MAX`).
pub proof fn lemma_allowance_is_sum_of_parts(
    inputs: DividendAllowanceInputs2027,
    owner_cash_salary_2026: u32,
)
    requires
        spec_dividend_allowance(inputs, owner_cash_salary_2026) is Ok,
    ensures
        ({
            let a = spec_dividend_allowance(inputs, owner_cash_salary_2026)->Ok_0;
            &&& a.saved_allowance == inputs.saved_allowance
            &&& a.owner_cash_salary == owner_cash_salary_2026
            &&& a.total as int == (if a.basic_amount + a.wage_allowance + a.acquisition_cost_interest
                + a.saved_allowance <= u32::MAX {
                a.basic_amount + a.wage_allowance + a.acquisition_cost_interest + a.saved_allowance
            } else {
                u32::MAX as int
            })
        }),
{
}

/// The basic amount is the owner's share of 333 600 kr, shared with other
/// qualifying holdings when they add up to more than one company (rounded down);
/// the wage cap is fifty times the highest of the owner's and, outside a
/// one-person company, a related person's salary; a one-person company's payroll
/// is the owner's own salary.
pub proof fn lemma_allowance_shares(inputs: DividendAllowanceInputs2027, owner_cash_salary_2026: u32)
    requires
        spec_dividend_allowance(inputs, owner_cash_salary_2026) is Ok,
    ensures
        ({
            let a = spec_dividend_allowance(inputs, owner_cash_salary_2026)->Ok_0;
            let own = inputs.ownership_basis_points as int;
            let combined = own + inputs.other_qualified_ownership_basis_points;
            let shares = if combined >= 10_000 {
                combined
            } else {
                10_000
            };
            let related = if inputs.one_person_company {
                0
            } else {
                inputs.highest_related_cash_salary_2026 as int
            };
            &&& combined <= u32::MAX ==> a.basic_amount * shares <= 333_600 * own < (a.basic_amount
                + 1) * shares
            &&& a.wage_cap_salary == (if owner_cash_salary_2026 >= related {
                owner_cash_salary_2026 as int
            } else {
                related
            })
            &&& a.wage_cap == (if a.wage_cap_salary * 50 <= u32::MAX {
                a.wage_cap_salary * 50
            } else {
                u32::MAX as int
            })
            &&& inputs.one_person_company ==> a.company_cash_payroll == owner_cash_salary_2026
            &&& !inputs.one_person_company ==> a.company_cash_payroll
                == inputs.company_cash_payroll_2026
        }),
{
    let own = inputs.ownership_basis_points as int;
    let combined = own + inputs.other_qualified_ownership_basis_points;
    if combined <= u32::MAX {
        let shares = if combined >= 10_000 {
            combined
        } else {
            10_000
        };
        let b = 333_600 * own / shares;
        assert(b <= 333_600) by (nonlinear_arith)
            requires
                0 <= own <= shares,
                shares > 0,
                b == 333_600 * own / shares,
        {
            vstd::arithmetic::div_mod::lemma_div_is_ordered(333_600 * own, 333_600 * shares, shares);
            vstd::arithmetic::div_mod::lemma_div_multiples_vanish(333_600, shares);
        }
        assert(b * shares <= 333_600 * own < (b + 1) * shares) by (nonlinear_arith)
            requires
                shares > 0,
                own >= 0,
                b == 333_600 * own / shares,
        {
            vstd::arithmetic::div_mod::lemma_fundamental_div_mod(333_600 * own, shares);
            vstd::arithmetic::div_mod::lemma_mod_bound(333_600 * own, shares);
        }
    }
}

/// Saving more allowance from earlier years raises the total by exactly that
/// much, as long as the total stays below `u32::MAX`, and changes no other part.
pub proof fn lemma_saved_allowance_adds_to_total(
    inputs: DividendAllowanceInputs2027,
    owner_cash_salary_2026: u32,
    more_saved: u32,
)
    requires
        spec_dividend_allowance(inputs, owner_cash_salary_2026) is Ok,
        spec_dividend_allowance(inputs, owner_cash_salary_2026)->Ok_0.total + more_saved < u32::MAX,
        inputs.saved_allowance + more_saved <= u32::MAX,
    ensures
        ({
            let before = spec_dividend_allowance(inputs, owner_cash_salary_2026)->Ok_0;
            let more = DividendAllowanceInputs2027 {
                saved_allowance: (inputs.saved_allowance + more_saved) as u32,
                ..inputs
            };
            &&& spec_dividend_allowance(more, owner_cash_salary_2026) is Ok
            &&& spec_dividend_allowance(more, owner_cash_salary_2026)->Ok_0.total == before.total
                + more_saved
            &&& spec_dividend_allowance(more, owner_cash_salary_2026)->Ok_0.basic_amount
                == before.basic_amount
            &&& spec_dividend_allowance(more, owner_cash_salary_2026)->Ok_0.wage_allowance
                == before.wage_allowance
        }),
{
    lemma_allowance_is_sum_of_parts(inputs, owner_cash_salary_2026);
}

fn proportion_floor(amount: u32, numerator: u32, denominator: u32) -> (r: u32)
    ensures
        r == spec_proportion_floor(amount, numerator, denominator),
{
    if denominator == 0 {
        return 0;
    }
    proof {
        vstd::arithmetic::mul::lemma_mul_upper_bound(
            amount as int,
            u32::MAX as int,
            numerator as int,
            u32::MAX as int,
        );
    }
    let product = amount as u64 * numerator as u64;
    let quotient = product / denominator as u64;
    if quotient > u32::MAX as u64 {
        u32::MAX
    } else {
        quotient as u32
    }
}

fn percentage_floor(amount: u32, percent: u32) -> (r: u32)
    ensures
        r == spec_proportion_floor(amount, percent, 100),
{
    proportion_floor(amount, percent, 100)
}

fn basis_points_floor(amount: u32, basis_points: u32) -> (r: u32)
    ensures
        r == spec_proportion_floor(amount, basis_points, 10_000),
{
    proportion_floor(amount, basis_points, 10_000)
}

impl DividendAllowanceInputs2027 {
    /// Calculates the preliminary 2027 allowance from the owner's 2026 cash salary.
    pub fn calculate(self, owner_cash_salary_2026: u32) -> (r: Result<
        DividendAllowance2027,
        DividendAllowanceIssue,
    >)
        ensures
            r == spec_dividend_allowance(self, owner_cash_salary_2026),
    {
        if self.ownership_basis_points > 10_000 {
            return Err(DividendAllowanceIssue::OwnershipExceedsOneHundredPercent);
        }
        let joint_ownership = self.ownership_basis_points.saturating_add(
            self.spouse_ownership_basis_points,
        );
        if joint_ownership > 10_000 {
            return Err(DividendAllowanceIssue::SpouseOwnershipExceedsCompany);
        }
        let company_cash_payroll = if self.one_person_company {
            owner_cash_salary_2026
        } else {
            self.company_cash_payroll_2026
        };
        let highest_related_cash_salary = if self.one_person_company {
            0
        } else {
            self.highest_related_cash_salary_2026
        };
        if owner_cash_salary_2026 > company_cash_payroll || highest_related_cash_salary
            > company_cash_payroll {
            return Err(DividendAllowanceIssue::PersonalSalaryExceedsCompanyPayroll);
        }
        let combined = self.ownership_basis_points.saturating_add(
            self.other_qualified_ownership_basis_points,
        );
        let basic_denominator = if combined >= 10_000 {
            combined
        } else {
            10_000
        };
        let basic_amount = proportion_floor(
            DIVIDEND_BASIC_AMOUNT_2027,
            self.ownership_basis_points,
            basic_denominator,
        );
        let joint_wage_basis = proportion_floor(company_cash_payroll, joint_ownership, 10_000);
        let joint_wage_basis_after_deduction = joint_wage_basis.saturating_sub(
            DIVIDEND_WAGE_DEDUCTION_2027,
        );
        let joint_wage_allowance = percentage_floor(
            joint_wage_basis_after_deduction,
            DIVIDEND_WAGE_ALLOWANCE_PERCENT,
        );
        let wage_allowance_before_cap = if joint_ownership == 0 {
            0
        } else {
            proportion_floor(joint_wage_allowance, self.ownership_basis_points, joint_ownership)
        };
        let wage_cap_salary = if owner_cash_salary_2026 >= highest_related_cash_salary {
            owner_cash_salary_2026
        } else {
            highest_related_cash_salary
        };
        let wage_cap = sat_mul(wage_cap_salary, DIVIDEND_WAGE_CAP_MULTIPLIER);
        let wage_allowance = if wage_allowance_before_cap <= wage_cap {
            wage_allowance_before_cap
        } else {
            wage_cap
        };
        let acquisition_cost_interest_basis = self.acquisition_cost.saturating_sub(
            DIVIDEND_ACQUISITION_COST_THRESHOLD,
        );
        let acquisition_cost_interest = if acquisition_cost_interest_basis == 0 {
            0
        } else {
            match self.acquisition_cost_interest_basis_points {
                Some(rate) => basis_points_floor(acquisition_cost_interest_basis, rate),
                None => {
                    return Err(DividendAllowanceIssue::MissingAcquisitionCostInterestRate);
                },
            }
        };
        let total = basic_amount.saturating_add(wage_allowance).saturating_add(
            acquisition_cost_interest,
        ).saturating_add(self.saved_allowance);
        Ok(
            DividendAllowance2027 {
                basic_amount,
                owner_cash_salary: owner_cash_salary_2026,
                company_cash_payroll,
                joint_wage_basis,
                joint_wage_basis_after_deduction,
                wage_allowance_before_cap,
                wage_cap_salary,
                wage_cap,
                wage_allowance,
                acquisition_cost_interest_basis,
                acquisition_cost_interest,
                saved_allowance: self.saved_allowance,
                total,
            },
        )
    }
}

/// Tax at 20% on the whole allowance, rounded down.
pub open spec fn spec_tax_at_twenty_percent(allowance: DividendAllowance2027) -> u32 {
    spec_proportion_floor(allowance.total, QUALIFIED_DIVIDEND_TAX_PERCENT, 100)
}

impl DividendAllowance2027 {
    pub fn tax_at_twenty_percent(self) -> (r: u32)
        ensures
            r == spec_tax_at_twenty_percent(self),
    {
        percentage_floor(self.total, QUALIFIED_DIVIDEND_TAX_PERCENT)
    }

    pub fn net_after_twenty_percent_tax(self) -> (r: u32)
        ensures
            r == sat_sub(self.total, spec_tax_at_twenty_percent(self)),
            r + spec_tax_at_twenty_percent(self) == self.total,
    {
        self.total.saturating_sub(self.tax_at_twenty_percent())
    }
}

} // verus!
