use swedish_tax::Date2026;

#[test]
fn dates_clamp_into_2026() {
    assert_eq!(Date2026::new(0, 0).clamped(), Date2026::new(1, 1));
    assert_eq!(Date2026::new(2, 30).clamped(), Date2026::new(2, 28));
    assert_eq!(Date2026::new(13, 40).clamped(), Date2026::new(12, 31));
    assert_eq!(Date2026::days_in_month(4), 30);
    assert_eq!(Date2026::days_in_month(14), 31);
}

#[test]
fn ordinals_count_days_of_the_year_in_order() {
    assert_eq!(Date2026::new(1, 1).ordinal(), 1);
    assert_eq!(Date2026::new(10, 18).ordinal(), 291);
    assert_eq!(Date2026::new(12, 31).ordinal(), 365);
    let mut previous = 0;
    for month in 1..=12 {
        for day in 1..=Date2026::days_in_month(month) {
            let ordinal = Date2026::new(month, day).ordinal();
            assert_eq!(ordinal, previous + 1);
            previous = ordinal;
        }
    }
    assert!(Date2026::new(3, 5).is_on_or_before(Date2026::new(3, 5)));
    assert!(!Date2026::new(3, 6).is_on_or_before(Date2026::new(3, 5)));
}
