use swedish_tax::{
    cash_income_equation, entry_period_text, income_entry_name, validation_message,
    withholding_equation, Date2026,
    EntryWithholding, IncomeEntry, IncomePlanValidationIssue, SalaryExchange, VacationCompensation,
};
use swedish_tax::{
    dividend_allowance_issue_text, format_basis_points_percentage, format_credit,
    format_delta_sek, format_sek, format_signed_sek, grouped_digits, income_basis_trace_value,
    income_eligibility, income_eligibility_short, income_kind_short, month_name, optional_sek,
    parse_basis_points_percentage, sanitize_percentage_text, table_deduction_text, tax_balance,
    tax_balance_summary, tax_balance_value, withholding_rule_text, AppliedWithholding,
    DividendAllowanceIssue, IncomeBasisEstimate, IncomeBasisProgress, IncomeKind, TaxBalance,
    TaxColumn, TaxDeduction,
};

#[test]
fn formatting_groups_sek_without_locale_dependencies() {
    assert_eq!(format_sek(0), "0 SEK");
    assert_eq!(format_sek(1_234_567), "1 234 567 SEK");
    assert_eq!(
        tax_balance_summary(TaxBalance::Debt(2_400)),
        "Expected balance: −2 400 SEK · Tax debt"
    );
    assert_eq!(
        tax_balance_summary(TaxBalance::Refund(350)),
        "Expected balance: +350 SEK · Tax refund"
    );
}

#[test]
fn basis_point_percentages_use_exact_text_conversion() {
    assert_eq!(format_basis_points_percentage(0), "0");
    assert_eq!(format_basis_points_percentage(570), "5.7");
    assert_eq!(format_basis_points_percentage(576), "5.76");
    assert_eq!(parse_basis_points_percentage("5.76"), Some(576));
    assert_eq!(parse_basis_points_percentage(",5"), Some(50));
    assert_eq!(parse_basis_points_percentage("5."), Some(500));
    assert_eq!(parse_basis_points_percentage("5.123"), None);
    assert_eq!(parse_basis_points_percentage("42949673"), None);
}

#[test]
fn grouping_starts_from_the_right() {
    assert_eq!(grouped_digits(7), "7");
    assert_eq!(grouped_digits(999), "999");
    assert_eq!(grouped_digits(1_000), "1 000");
    assert_eq!(grouped_digits(10_005), "10 005");
    assert_eq!(grouped_digits(u32::MAX), "4 294 967 295");
}

#[test]
fn signs_follow_the_direction_of_an_amount() {
    assert_eq!(format_signed_sek(-1_500), "−1 500 SEK");
    assert_eq!(format_signed_sek(1_500), "1 500 SEK");
    assert_eq!(format_delta_sek(1_500), "+1 500 SEK");
    assert_eq!(format_delta_sek(-1_500), "−1 500 SEK");
    assert_eq!(format_delta_sek(0), "0 SEK");
    assert_eq!(format_credit(0), "0 SEK");
    assert_eq!(format_credit(2_000), "-2 000 SEK");
    assert_eq!(optional_sek(0), "—");
    assert_eq!(optional_sek(12), "12 SEK");
}

#[test]
fn balances_compare_final_tax_with_withholding() {
    assert_eq!(tax_balance(10_000, 7_600), TaxBalance::Debt(2_400));
    assert_eq!(tax_balance(10_000, 10_350), TaxBalance::Refund(350));
    assert_eq!(tax_balance(10_000, 10_000), TaxBalance::Settled);
    assert_eq!(tax_balance_value(TaxBalance::Settled), "0 SEK");
    assert_eq!(
        tax_balance_summary(TaxBalance::Settled),
        "No expected balance · Settled"
    );
}

#[test]
fn percentage_text_parsing_rejects_malformed_input() {
    assert_eq!(parse_basis_points_percentage(""), Some(0));
    assert_eq!(parse_basis_points_percentage("12"), Some(1_200));
    assert_eq!(parse_basis_points_percentage("1,25"), Some(125));
    assert_eq!(parse_basis_points_percentage("1.2.3"), None);
    assert_eq!(parse_basis_points_percentage("1a"), None);
    assert_eq!(parse_basis_points_percentage("-1"), None);
    assert_eq!(parse_basis_points_percentage("42949672.95"), Some(u32::MAX));
    assert_eq!(parse_basis_points_percentage("42949672.96"), None);
    assert_eq!(parse_basis_points_percentage("123456789012345678901234567890"), None);
}

#[test]
fn formatted_percentages_parse_back_to_the_same_basis_points() {
    for basis_points in [0, 1, 9, 10, 55, 100, 576, 999, 3_500, 10_000, u32::MAX] {
        let text = format_basis_points_percentage(basis_points);
        assert_eq!(parse_basis_points_percentage(&text), Some(basis_points));
    }
}

#[test]
fn sanitizing_keeps_digits_one_separator_and_two_decimals() {
    assert_eq!(sanitize_percentage_text("5,765"), "5.76");
    assert_eq!(sanitize_percentage_text("a1b2.3.4"), "12.34");
    assert_eq!(sanitize_percentage_text(",,9"), ".9");
    assert_eq!(sanitize_percentage_text("12 %"), "12");
}

#[test]
fn descriptions_name_rules_and_kinds() {
    assert_eq!(
        withholding_rule_text(AppliedWithholding::TableAndOneTime(TaxColumn::Column1, 54)),
        "table column 1 plus one-time-payment table at 54%"
    );
    assert_eq!(
        withholding_rule_text(AppliedWithholding::Secondary30),
        "secondary payer at 30%"
    );
    assert_eq!(
        withholding_rule_text(AppliedWithholding::NoWithholding),
        "no preliminary withholding"
    );
    assert_eq!(
        table_deduction_text(TaxDeduction::Amount(25_944)),
        "25 944 SEK / month"
    );
    assert_eq!(table_deduction_text(TaxDeduction::Percent(32)), "32% of payment");
    assert_eq!(month_name(0), "January");
    assert_eq!(month_name(10), "October");
    assert_eq!(month_name(13), "December");
    assert_eq!(income_kind_short(IncomeKind::OwnCompanyDividend), "Own-AB dividend");
    assert_eq!(income_eligibility_short(IncomeKind::OneTimeSalary), "PGI");
    assert_eq!(
        income_eligibility(IncomeKind::MonthlySalary),
        "PGI eligible · SGI estimate eligible"
    );
    assert_eq!(
        dividend_allowance_issue_text(DividendAllowanceIssue::OwnershipExceedsOneHundredPercent),
        "Your ownership in one company cannot exceed 100%."
    );
    assert_eq!(
        income_basis_trace_value(IncomeBasisEstimate::Estimated(IncomeBasisProgress {
            estimated_basis: 474_300,
            maximum_basis: 625_500,
        })),
        "474 300 SEK of 625 500 SEK"
    );
}

#[test]
fn amounts_beyond_u32_show_their_low_bits() {
    assert_eq!(format_signed_sek(-(1_i64 << 32) - 5), "−5 SEK");
    assert_eq!(format_signed_sek(i64::MIN), "−0 SEK");
    assert_eq!(format_delta_sek((1_i64 << 32) + 7), "+7 SEK");
}

#[test]
fn explanations_follow_the_plan_figures() {
    let mut salary = IncomeEntry::new(1, IncomeKind::MonthlySalary);
    salary.amount = 93_000;
    salary.end = Date2026::new(10, 18);
    assert_eq!(entry_period_text(&salary), "January 1 – October 18");
    assert_eq!(
        cash_income_equation(&salary),
        "93 000 SEK/month over January 1 – October 18 = 891 000 SEK"
    );
    salary.vacation_compensation = Some(VacationCompensation::suggested(30, salary.start, salary.end));
    assert_eq!(
        cash_income_equation(&salary),
        "93 000 SEK/month over January 1 – October 18 = 891 000 SEK + 120 528 SEK vacation compensation"
    );

    let mut lump = IncomeEntry::new(2, IncomeKind::OneTimeSalary);
    lump.amount = 372_000;
    let mut exchange = SalaryExchange::new();
    exchange.sacrificed_salary = 100_000;
    lump.salary_exchange = Some(exchange);
    assert_eq!(
        cash_income_equation(&lump),
        "Entered amount 372 000 SEK − 100 000 SEK salary exchange"
    );

    let estimate = EntryWithholding {
        entry_id: 2,
        gross: 272_000,
        withheld: 149_880,
        regular_withheld: 146_880,
        supplemental_withheld: 0,
        additional_withheld: 3_000,
        rule: AppliedWithholding::OneTimeTable(54),
    };
    assert_eq!(
        withholding_equation(&lump, estimate, 32, 1_011_528),
        "272 000 SEK × one-time table 54% (rate selected from 1 011 528 SEK annual work income) + 3 000 SEK voluntary extra withholding"
    );
    let table_estimate = EntryWithholding {
        rule: AppliedWithholding::Table(TaxColumn::Column1),
        additional_withheld: 0,
        ..estimate
    };
    assert_eq!(
        withholding_equation(&salary, table_estimate, 32, 0),
        "Table 32, column 1, summed for each paid month"
    );

    assert_eq!(
        validation_message(Some(IncomePlanValidationIssue::SalaryExchangeExceedsAllowance {
            entry_id: 2,
            maximum: 168_231,
        })),
        "Salary exchange exceeds the current maximum of 168 231 SEK. Open the income row and reduce it."
    );
    assert_eq!(
        validation_message(None),
        "Check the income-plan values and try again."
    );
}

#[test]
fn rows_are_named_by_their_trimmed_description() {
    let mut entry = IncomeEntry::new(4, IncomeKind::AnnualSalary);
    assert_eq!(income_entry_name(&entry, 2), "Income 3");
    entry.description = " \u{a0}\t ".to_owned();
    assert_eq!(income_entry_name(&entry, 9), "Income 10");
    entry.description = "  Consulting\u{3000}".to_owned();
    assert_eq!(income_entry_name(&entry, 0), "Consulting");
    entry.description = "Salary  and bonus".to_owned();
    assert_eq!(income_entry_name(&entry, 0), "Salary  and bonus");
}
