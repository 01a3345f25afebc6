use swedish_tax::{
    annual_tax, marginal_withholding, monthly_deduction, parse_monthly_tables, AnnualTax, MonthlyTables, RecordField,
    RowKind, TableSourceError, TaxColumn, TaxDeduction, MAX_TAX_TABLE, MIN_TAX_TABLE,
};

const COLUMNS: [TaxColumn; 6] = [
    TaxColumn::Column1,
    TaxColumn::Column2,
    TaxColumn::Column3,
    TaxColumn::Column4,
    TaxColumn::Column5,
    TaxColumn::Column6,
];

/// One 49-byte record of the monthly-table file format.
fn record(kind: char, table: u8, minimum: u32, maximum: Option<u32>, values: [u32; 6]) -> String {
    let maximum = maximum.map_or_else(|| " ".repeat(7), |value| format!("{value:>7}"));
    let mut line = format!("30{kind}{table:02}{minimum:>7}{maximum}");
    for value in values {
        line.push_str(&format!("{value:>5}"));
    }
    assert_eq!(line.len(), 49);
    line
}

/// A complete source in the official layout: for each table, 400 amount rows of
/// 200 kr up to 80 000 kr and 169 percentage rows above, the last one open-ended.
/// Amounts follow the annual formula, as the published tables do.
fn source_lines() -> Vec<String> {
    let mut lines = Vec::new();
    for table in MIN_TAX_TABLE..=MAX_TAX_TABLE {
        for i in 0..400_u32 {
            let minimum = i * 200 + 1;
            let maximum = (i + 1) * 200;
            let mut values = [0; 6];
            for (index, column) in COLUMNS.into_iter().enumerate() {
                values[index] = annual_tax(table, column, maximum * 12).unwrap().total / 12;
            }
            lines.push(record('B', table, minimum, Some(maximum), values));
        }
        for j in 0..169_u32 {
            let minimum = 80_001 + j * 1_000;
            let maximum = (j < 168).then_some(minimum + 999);
            let mut values = [0; 6];
            for (index, column) in COLUMNS.into_iter().enumerate() {
                let annual = minimum * 12;
                values[index] = annual_tax(table, column, annual).unwrap().total * 100 / annual;
            }
            lines.push(record('%', table, minimum, maximum, values));
        }
    }
    lines
}

fn source() -> Vec<u8> {
    source_lines().join("\n").into_bytes()
}

fn tables() -> MonthlyTables {
    parse_monthly_tables(&source()).unwrap()
}

#[test]
fn tables_cover_every_positive_income_without_gaps() {
    let tables = tables();
    assert_eq!(
        (MIN_TAX_TABLE..=MAX_TAX_TABLE)
            .map(|table| tables.rows(table).unwrap().len())
            .sum::<usize>(),
        7_966
    );
    for table in MIN_TAX_TABLE..=MAX_TAX_TABLE {
        let rows = tables.rows(table).unwrap();
        assert_eq!(rows.first().unwrap().minimum, 1, "table {table}");
        assert_eq!(rows.last().unwrap().maximum, u32::MAX, "table {table}");
        for pair in rows.windows(2) {
            assert_eq!(pair[0].maximum + 1, pair[1].minimum, "table {table}");
        }
        for row in rows {
            for (index, column) in COLUMNS.into_iter().enumerate() {
                let expected = Some(match row.kind {
                    RowKind::Amount => TaxDeduction::Amount(row.values[index]),
                    RowKind::Percent => TaxDeduction::Percent(row.values[index]),
                });
                assert_eq!(monthly_deduction(&tables, table, column, row.minimum), expected);
                assert_eq!(monthly_deduction(&tables, table, column, row.maximum), expected);
            }
        }
    }
}

#[test]
fn annual_formula_matches_skv_433_worked_examples() {
    assert_eq!(
        annual_tax(34, TaxColumn::Column1, 216_000),
        Some(AnnualTax {
            assessed_income: 216_000,
            basic_allowance: 42_400,
            taxable_income: 173_600,
            state_income_tax: 0,
            municipal_income_tax: 57_010,
            burial_and_religious_fee: 2_013,
            pension_fee: 15_100,
            pension_fee_credit: 15_100,
            work_income_credit: 23_316,
            sickness_compensation_credit: 0,
            earned_income_credit: 1_002,
            public_service_fee: 1_184,
            total: 35_889,
        })
    );

    assert_eq!(
        annual_tax(34, TaxColumn::Column1, 31_200),
        Some(AnnualTax {
            assessed_income: 31_200,
            basic_allowance: 25_100,
            taxable_income: 6_100,
            state_income_tax: 0,
            municipal_income_tax: 2_003,
            burial_and_religious_fee: 70,
            pension_fee: 2_200,
            pension_fee_credit: 2_003,
            work_income_credit: 0,
            sickness_compensation_credit: 0,
            earned_income_credit: 0,
            public_service_fee: 61,
            total: 2_331,
        })
    );

    assert_eq!(
        annual_tax(34, TaxColumn::Column1, 1_020_000),
        Some(AnnualTax {
            assessed_income: 1_020_000,
            basic_allowance: 17_400,
            taxable_income: 1_002_600,
            state_income_tax: 71_920,
            municipal_income_tax: 329_253,
            burial_and_religious_fee: 11_630,
            pension_fee: 47_100,
            pension_fee_credit: 47_100,
            work_income_credit: 53_134,
            sickness_compensation_credit: 0,
            earned_income_credit: 1_500,
            public_service_fee: 1_184,
            total: 359_353,
        })
    );
}

#[test]
fn unsupported_tables_are_not_found_and_zero_income_has_zero_tax() {
    let tables = tables();
    assert_eq!(monthly_deduction(&tables, 28, TaxColumn::Column1, 50_000), None);
    assert_eq!(monthly_deduction(&tables, 43, TaxColumn::Column1, 50_000), None);
    assert_eq!(
        monthly_deduction(&tables, 32, TaxColumn::Column1, 0),
        Some(TaxDeduction::Amount(0))
    );
    assert_eq!(annual_tax(28, TaxColumn::Column1, 50_000), None);
    assert_eq!(annual_tax(43, TaxColumn::Column1, 50_000), None);
}

#[test]
fn lookup_finds_the_bracket_of_an_income() {
    let tables = tables();
    let rows = tables.rows(32).unwrap();
    let row = rows[123];
    let middle = row.minimum + 50;
    assert_eq!(
        monthly_deduction(&tables, 32, TaxColumn::Column3, middle),
        Some(TaxDeduction::Amount(row.values[2]))
    );
    assert_eq!(
        monthly_deduction(&tables, 32, TaxColumn::Column1, u32::MAX),
        Some(TaxDeduction::Percent(rows.last().unwrap().values[0]))
    );
}

#[test]
fn a_leading_byte_order_mark_and_crlf_line_ends_are_accepted() {
    let mut bytes = vec![0xEF, 0xBB, 0xBF];
    bytes.extend(source_lines().join("\r\n").into_bytes());
    let with_bom = parse_monthly_tables(&bytes).unwrap();
    assert_eq!(with_bom.rows(29).unwrap(), tables().rows(29).unwrap());
}

#[test]
fn short_records_are_rejected_with_their_line() {
    let mut lines = source_lines();
    lines[4].pop();
    assert_eq!(
        parse_monthly_tables(lines.join("\n").as_bytes()).unwrap_err(),
        TableSourceError::RecordLength { line: 5 }
    );
}

#[test]
fn unknown_record_types_and_row_kinds_are_rejected() {
    let mut lines = source_lines();
    lines[0].replace_range(0..2, "31");
    assert_eq!(
        parse_monthly_tables(lines.join("\n").as_bytes()).unwrap_err(),
        TableSourceError::RecordType { line: 1 }
    );
    let mut lines = source_lines();
    lines[1].replace_range(2..3, "X");
    assert_eq!(
        parse_monthly_tables(lines.join("\n").as_bytes()).unwrap_err(),
        TableSourceError::RowKind { line: 2 }
    );
}

#[test]
fn unreadable_numbers_name_their_field() {
    let cases = [(3..5, RecordField::Table), (5..12, RecordField::Minimum), (12..19, RecordField::Maximum), (19..24, RecordField::ColumnValue)];
    for (range, field) in cases {
        let mut lines = source_lines();
        let width = range.len();
        lines[2].replace_range(range, &"x".repeat(width));
        assert_eq!(
            parse_monthly_tables(lines.join("\n").as_bytes()).unwrap_err(),
            TableSourceError::InvalidNumber { line: 3, field }
        );
    }
}

#[test]
fn tables_outside_29_through_42_are_rejected() {
    let mut lines = source_lines();
    lines[7].replace_range(3..5, "43");
    assert_eq!(
        parse_monthly_tables(lines.join("\n").as_bytes()).unwrap_err(),
        TableSourceError::UnsupportedTable { line: 8 }
    );
}

#[test]
fn the_record_count_must_match_the_published_file() {
    let mut lines = source_lines();
    lines.pop();
    assert_eq!(
        parse_monthly_tables(lines.join("\n").as_bytes()).unwrap_err(),
        TableSourceError::RecordCount { found: 7_965 }
    );
}

#[test]
fn tables_must_start_at_one_end_open_and_be_contiguous() {
    let mut lines = source_lines();
    lines[0].replace_range(5..12, &format!("{:>7}", 2));
    assert_eq!(
        parse_monthly_tables(lines.join("\n").as_bytes()).unwrap_err(),
        TableSourceError::MissingFirstIncome { table: 29 }
    );

    let mut lines = source_lines();
    lines[568].replace_range(12..19, &format!("{:>7}", 999_999));
    assert_eq!(
        parse_monthly_tables(lines.join("\n").as_bytes()).unwrap_err(),
        TableSourceError::MissingOpenEnd { table: 29 }
    );

    let mut lines = source_lines();
    lines[569 + 10].replace_range(12..19, &format!("{:>7}", 2_150));
    assert_eq!(
        parse_monthly_tables(lines.join("\n").as_bytes()).unwrap_err(),
        TableSourceError::GapOrOverlap { table: 30 }
    );
}

#[test]
fn a_bracket_may_not_end_before_it_starts() {
    let mut lines = source_lines();
    let lower = 569 * 2 + 10;
    lines[lower].replace_range(12..19, &format!("{:>7}", 2_000));
    lines[lower + 1].replace_range(5..12, &format!("{:>7}", 2_001));
    lines[lower + 1].replace_range(12..19, &format!("{:>7}", 2_000));
    lines[lower + 2].replace_range(5..12, &format!("{:>7}", 2_001));
    assert_eq!(
        parse_monthly_tables(lines.join("\n").as_bytes()).unwrap_err(),
        TableSourceError::EmptyBracket { table: 31 }
    );
}

#[test]
fn column_numbers_and_indexes_follow_the_published_order() {
    for (index, column) in COLUMNS.into_iter().enumerate() {
        assert_eq!(column.index(), index);
        assert_eq!(usize::from(column.number()), index + 1);
    }
}

#[test]
fn marginal_withholding_spans_one_thousand_kronor() {
    let tables = tables();
    let interval = marginal_withholding(&tables, 34, TaxColumn::Column1, 18_000).unwrap();
    assert_eq!(interval.lower_income, 18_000);
    assert_eq!(interval.upper_income, 19_000);
    let rows = tables.rows(34).unwrap();
    assert_eq!(interval.lower_withheld, rows[89].values[0]);
    assert_eq!(interval.upper_withheld, rows[94].values[0]);

    let top = marginal_withholding(&tables, 29, TaxColumn::Column1, u32::MAX).unwrap();
    assert_eq!(top.upper_income, u32::MAX);
    assert_eq!(top.lower_income, u32::MAX - 1_000);
    let percent = u64::from(tables.rows(29).unwrap().last().unwrap().values[0]);
    assert_eq!(u64::from(top.upper_withheld), u64::from(u32::MAX) * percent / 100);

    assert_eq!(marginal_withholding(&tables, 28, TaxColumn::Column1, 18_000), None);
}
