use swedish_tax::{DividendAllowanceInputs2027, DividendAllowanceIssue};

#[test]
fn new_one_person_company_uses_2026_salary_for_2027_allowance() {
    let result = DividendAllowanceInputs2027::default()
        .calculate(800_000)
        .unwrap();

    assert_eq!(result.basic_amount, 333_600);
    assert_eq!(result.company_cash_payroll, 800_000);
    assert_eq!(result.joint_wage_basis_after_deduction, 132_800);
    assert_eq!(result.wage_allowance, 66_400);
    assert_eq!(result.total, 400_000);
}

#[test]
fn salary_below_the_2027_deduction_adds_no_wage_allowance() {
    let result = DividendAllowanceInputs2027::default()
        .calculate(500_000)
        .unwrap();

    assert_eq!(result.wage_allowance, 0);
    assert_eq!(result.total, 333_600);
}

#[test]
fn acquisition_cost_above_threshold_needs_the_later_2027_rate() {
    let inputs = DividendAllowanceInputs2027 {
        acquisition_cost: 250_000,
        ..Default::default()
    };

    assert_eq!(
        inputs.calculate(0),
        Err(DividendAllowanceIssue::MissingAcquisitionCostInterestRate)
    );

    let result = DividendAllowanceInputs2027 {
        acquisition_cost_interest_basis_points: Some(1_155),
        ..inputs
    }
    .calculate(0)
    .unwrap();
    assert_eq!(result.acquisition_cost_interest, 17_325);
}

#[test]
fn basic_amount_is_proportionally_limited_across_multiple_companies() {
    let result = DividendAllowanceInputs2027 {
        ownership_basis_points: 2_500,
        other_qualified_ownership_basis_points: 17_500,
        ..Default::default()
    }
    .calculate(0)
    .unwrap();

    assert_eq!(result.basic_amount, 41_700);
}

#[test]
fn spouse_wage_calculation_is_joint_then_allocated_by_ownership() {
    let result = DividendAllowanceInputs2027 {
        ownership_basis_points: 6_000,
        spouse_ownership_basis_points: 4_000,
        one_person_company: false,
        company_cash_payroll_2026: 4_000_000,
        ..Default::default()
    }
    .calculate(500_000)
    .unwrap();

    assert_eq!(result.wage_allowance_before_cap, 999_840);
    assert_eq!(result.wage_allowance, 999_840);
}

#[test]
fn wage_allowance_is_capped_at_fifty_times_salary() {
    let result = DividendAllowanceInputs2027 {
        one_person_company: false,
        company_cash_payroll_2026: 10_000_000,
        ..Default::default()
    }
    .calculate(20_000)
    .unwrap();

    assert!(result.wage_allowance_before_cap > 1_000_000);
    assert_eq!(result.wage_cap, 1_000_000);
    assert_eq!(result.wage_allowance, 1_000_000);
}

#[test]
fn highest_related_salary_can_set_the_wage_cap() {
    let result = DividendAllowanceInputs2027 {
        one_person_company: false,
        company_cash_payroll_2026: 10_000_000,
        highest_related_cash_salary_2026: 30_000,
        ..Default::default()
    }
    .calculate(10_000)
    .unwrap();

    assert_eq!(result.wage_cap_salary, 30_000);
    assert_eq!(result.wage_cap, 1_500_000);
    assert_eq!(result.wage_allowance, 1_500_000);
}

#[test]
fn personal_salary_cannot_exceed_total_company_payroll() {
    let issue = DividendAllowanceInputs2027 {
        one_person_company: false,
        company_cash_payroll_2026: 500_000,
        ..Default::default()
    }
    .calculate(600_000)
    .unwrap_err();

    assert_eq!(
        issue,
        DividendAllowanceIssue::PersonalSalaryExceedsCompanyPayroll
    );
}

#[test]
fn ownership_above_one_hundred_percent_is_rejected() {
    let issue = DividendAllowanceInputs2027 {
        ownership_basis_points: 10_001,
        ..Default::default()
    }
    .calculate(0)
    .unwrap_err();
    assert_eq!(issue, DividendAllowanceIssue::OwnershipExceedsOneHundredPercent);
}

#[test]
fn spouse_ownership_beyond_the_company_is_rejected() {
    let issue = DividendAllowanceInputs2027 {
        ownership_basis_points: 6_000,
        spouse_ownership_basis_points: 4_001,
        ..Default::default()
    }
    .calculate(0)
    .unwrap_err();
    assert_eq!(issue, DividendAllowanceIssue::SpouseOwnershipExceedsCompany);
}

#[test]
fn tax_and_net_use_twenty_percent_of_the_allowance() {
    let allowance = DividendAllowanceInputs2027::default()
        .calculate(800_000)
        .unwrap();
    assert_eq!(allowance.tax_at_twenty_percent(), 80_000);
    assert_eq!(allowance.net_after_twenty_percent_tax(), 320_000);
}
