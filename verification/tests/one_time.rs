use swedish_tax::{one_time_withholding_rate, TaxColumn};

#[test]
fn column_one_matches_the_2026_official_boundaries() {
    assert_eq!(one_time_withholding_rate(TaxColumn::Column1, 25_041), 0);
    assert_eq!(one_time_withholding_rate(TaxColumn::Column1, 25_042), 10);
    assert_eq!(one_time_withholding_rate(TaxColumn::Column1, 82_800), 10);
    assert_eq!(one_time_withholding_rate(TaxColumn::Column1, 82_801), 21);
    assert_eq!(one_time_withholding_rate(TaxColumn::Column1, 660_000), 34);
    assert_eq!(one_time_withholding_rate(TaxColumn::Column1, 660_001), 54);
}

#[test]
fn every_column_uses_its_high_income_rate() {
    let expected = [54, 55, 55, 46, 54, 54];
    let columns = [
        TaxColumn::Column1,
        TaxColumn::Column2,
        TaxColumn::Column3,
        TaxColumn::Column4,
        TaxColumn::Column5,
        TaxColumn::Column6,
    ];

    for (column, rate) in columns.into_iter().zip(expected) {
        assert_eq!(one_time_withholding_rate(column, u32::MAX), rate);
    }
}

#[test]
fn one_time_rate_never_falls_as_income_grows() {
    let columns = [
        TaxColumn::Column1,
        TaxColumn::Column2,
        TaxColumn::Column3,
        TaxColumn::Column4,
        TaxColumn::Column5,
        TaxColumn::Column6,
    ];
    for column in columns {
        let mut previous = 0;
        for income in (0..=700_000).step_by(100) {
            let rate = one_time_withholding_rate(column, income);
            assert!(rate >= previous);
            previous = rate;
        }
    }
}
