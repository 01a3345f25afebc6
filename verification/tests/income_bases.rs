use swedish_tax::income_bases::{MAXIMUM_PENSIONABLE_INCOME, MAXIMUM_SGI};
use swedish_tax::{
    estimated_sgi_progress, estimated_sgi_progress_for_income, public_pension_progress,
    public_pension_progress_for_income, IncomeBasisEstimate, IncomeBasisProgress, TaxColumn,
};

#[test]
fn public_pension_progress_uses_pgi_after_the_general_pension_fee() {
    let estimate = public_pension_progress(TaxColumn::Column1, 510_000);

    assert_eq!(
        estimate,
        IncomeBasisEstimate::Estimated(IncomeBasisProgress {
            estimated_basis: 474_300,
            maximum_basis: MAXIMUM_PENSIONABLE_INCOME,
        })
    );
}

#[test]
fn public_pension_progress_observes_the_minimum_and_maximum() {
    assert_eq!(
        public_pension_progress(TaxColumn::Column1, 25_000),
        IncomeBasisEstimate::Estimated(IncomeBasisProgress {
            estimated_basis: 0,
            maximum_basis: MAXIMUM_PENSIONABLE_INCOME,
        })
    );
    assert_eq!(
        public_pension_progress(TaxColumn::Column1, 672_600),
        IncomeBasisEstimate::Estimated(IncomeBasisProgress {
            estimated_basis: MAXIMUM_PENSIONABLE_INCOME,
            maximum_basis: MAXIMUM_PENSIONABLE_INCOME,
        })
    );
    assert_eq!(
        public_pension_progress(TaxColumn::Column5, 1_000_000),
        IncomeBasisEstimate::Estimated(IncomeBasisProgress {
            estimated_basis: MAXIMUM_PENSIONABLE_INCOME,
            maximum_basis: MAXIMUM_PENSIONABLE_INCOME,
        })
    );
}

#[test]
fn public_pension_progress_reports_columns_that_need_other_treatment() {
    for column in [TaxColumn::Column2, TaxColumn::Column6] {
        assert_eq!(
            public_pension_progress(column, 500_000),
            IncomeBasisEstimate::NotBasedOnSelectedIncome
        );
    }
    assert_eq!(
        public_pension_progress(TaxColumn::Column4, 500_000),
        IncomeBasisEstimate::RequiresAdditionalInformation
    );
}

#[test]
fn estimated_sgi_uses_unrounded_annual_salary_and_caps_at_the_maximum() {
    assert_eq!(
        estimated_sgi_progress(TaxColumn::Column1, 14_199),
        IncomeBasisEstimate::Estimated(IncomeBasisProgress {
            estimated_basis: 0,
            maximum_basis: MAXIMUM_SGI,
        })
    );
    assert_eq!(
        estimated_sgi_progress(TaxColumn::Column1, 14_201),
        IncomeBasisEstimate::Estimated(IncomeBasisProgress {
            estimated_basis: 14_201,
            maximum_basis: MAXIMUM_SGI,
        })
    );
    assert_eq!(
        estimated_sgi_progress(TaxColumn::Column3, 700_000),
        IncomeBasisEstimate::Estimated(IncomeBasisProgress {
            estimated_basis: MAXIMUM_SGI,
            maximum_basis: MAXIMUM_SGI,
        })
    );
}

#[test]
fn estimated_sgi_is_not_derived_from_non_salary_columns() {
    for column in [
        TaxColumn::Column2,
        TaxColumn::Column4,
        TaxColumn::Column5,
        TaxColumn::Column6,
    ] {
        assert_eq!(
            estimated_sgi_progress(column, 500_000),
            IncomeBasisEstimate::NotBasedOnSelectedIncome
        );
    }
}

#[test]
fn income_based_estimates_match_the_salary_column() {
    assert_eq!(
        public_pension_progress_for_income(510_000),
        public_pension_progress(TaxColumn::Column1, 510_000)
    );
    assert_eq!(
        estimated_sgi_progress_for_income(300_000),
        estimated_sgi_progress(TaxColumn::Column1, 300_000)
    );
}

#[test]
fn estimates_never_exceed_their_ceiling() {
    for income in [0, 14_200, 25_042, 300_000, 625_500, 700_000, u32::MAX] {
        for estimate in [
            public_pension_progress_for_income(income),
            estimated_sgi_progress_for_income(income),
        ] {
            if let IncomeBasisEstimate::Estimated(progress) = estimate {
                assert!(progress.estimated_basis <= progress.maximum_basis);
            }
        }
    }
}
