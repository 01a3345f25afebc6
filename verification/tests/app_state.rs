use swedish_tax::{
    IncomeKind, IncomePlan, PersistedAppState, TaxAgeGroup, DEFAULT_MONTHLY_INCOME, MIN_TAX_TABLE,
};

#[test]
fn unsupported_tables_are_rejected() {
    let mut state = PersistedAppState::default();
    assert!(state.is_supported());
    state.table = MIN_TAX_TABLE - 1;
    assert!(!state.is_supported());
}

#[test]
fn default_state_is_table_32_with_the_default_monthly_salary() {
    let state = PersistedAppState::default();
    assert_eq!(state.table, 32);
    assert_eq!(state.age_group, TaxAgeGroup::Under66AtYearStart);
    assert_eq!(state.income_plan, IncomePlan::with_monthly_salary(DEFAULT_MONTHLY_INCOME));
    assert_eq!(DEFAULT_MONTHLY_INCOME, 660_400 / 12);
    assert!(u64::from(DEFAULT_MONTHLY_INCOME + 1) * 12 > 660_400);
}

#[test]
fn new_state_keeps_its_plan() {
    let mut plan = IncomePlan::with_monthly_salary(93_000);
    plan.add_entry(IncomeKind::MonthlyOccupationalPension);
    let state = PersistedAppState::new(42, TaxAgeGroup::AtLeast66AtYearStart, plan.clone());
    assert!(state.is_supported());
    assert_eq!(state.income_plan, plan);
    assert!(!PersistedAppState::new(43, TaxAgeGroup::AtLeast66AtYearStart, plan).is_supported());
}
