//! Skatteverket's general monthly tax tables 29 through 42 for 2026.
//!
//! The tables are read from the official fixed-width record file
//! (`allmanna-tabeller-manad`): 49-byte records of type `30`, row kind `B`
//! (amount) or `%` (percentage), the table number, the income bracket and the
//! six column values. [`parse_monthly_tables`] checks the file and groups its
//! rows per table; [`monthly_deduction`] looks an income up.
use vstd::prelude::*;

use crate::columns::{column_number, TaxColumn, TaxDeduction};
use crate::text::{first_non_space, parse_trimmed_u32, parse_u32, trim};

verus! {

/// Lowest general monthly tax table published for income year 2026.
pub const MIN_TAX_TABLE: u8 = 29;

/// Highest general monthly tax table published for income year 2026.
pub const MAX_TAX_TABLE: u8 = 42;

/// Number of tables between [`MIN_TAX_TABLE`] and [`MAX_TAX_TABLE`].
pub const TABLE_COUNT: usize = 14;

/// Number of records in the 2026 source file.
pub const RECORD_COUNT: usize = 7966;

/// Length in bytes of one record.
pub const RECORD_LENGTH: usize = 49;

#[derive(Clone, Copy, Debug, PartialEq, Eq, Structural)]
pub enum RowKind {
    Amount,
    Percent,
}

/// One income bracket of a monthly table.
#[derive(Clone, Copy, Debug, PartialEq, Eq)]
pub struct TableRow {
    pub minimum: u32,
    pub maximum: u32,
    pub values: [u32; 6],
    pub kind: RowKind,
}

/// Which numeric field of a record could not be read.
#[derive(Clone, Copy, Debug, PartialEq, Eq, Structural)]
pub enum RecordField {
    Table,
    Minimum,
    Maximum,
    ColumnValue,
}

/// Why a table source was rejected. Line numbers are one-based.
#[derive(Clone, Copy, Debug, PartialEq, Eq, Structural)]
pub enum TableSourceError {
    RecordLength { line: usize },
    RecordType { line: usize },
    RowKind { line: usize },
    InvalidNumber { line: usize, field: RecordField },
    UnsupportedTable { line: usize },
    RecordCount { found: usize },
    MissingFirstIncome { table: u8 },
    MissingOpenEnd { table: u8 },
    GapOrOverlap { table: u8 },
    EmptyBracket { table: u8 },
}

// ---------------------------------------------------------------------------
// Specification of the source format
// ---------------------------------------------------------------------------

/// A parsed record: the table it belongs to and its row.
#[derive(Clone, Copy, Debug)]
pub struct TableRecord {
    pub table: u8,
    pub row: TableRow,
}

/// The source without a leading UTF-8 byte-order mark.
pub open spec fn strip_bom(s: Seq<u8>) -> Seq<u8> {
    if s.len() >= 3 && s[0] == 0xEF && s[1] == 0xBB && s[2] == 0xBF {
        s.subrange(3, s.len() as int)
    } else {
        s
    }
}

/// Index of the first `\n` at or after `i`, or `s.len()`.
pub open spec fn next_newline(s: Seq<u8>, i: int) -> int
    decreases s.len() - i,
{
    if i >= s.len() {
        s.len() as int
    } else if s[i] == 10 {
        i
    } else {
        next_newline(s, i + 1)
    }
}

pub proof fn lemma_next_newline(s: Seq<u8>, i: int)
    requires
        0 <= i <= s.len(),
    ensures
        i <= next_newline(s, i) <= s.len(),
        next_newline(s, i) < s.len() ==> s[next_newline(s, i)] == 10,
        forall|k: int| i <= k < next_newline(s, i) ==> #[trigger] s[k] != 10,
    decreases s.len() - i,
{
    if i < s.len() && s[i] != 10 {
        lemma_next_newline(s, i + 1);
    }
}

/// A line that was ended by `\n` loses one trailing `\r`, as in `str::lines`.
pub open spec fn strip_cr(line: Seq<u8>) -> Seq<u8> {
    if line.len() > 0 && line.last() == 13 {
        line.drop_last()
    } else {
        line
    }
}

/// The lines of `s` from byte `i` on, with `str::lines` semantics.
pub open spec fn lines_from(s: Seq<u8>, i: int) -> Seq<Seq<u8>>
    decreases s.len() - i,
{
    if i < 0 || i >= s.len() {
        Seq::empty()
    } else {
        let e = next_newline(s, i);
        proof {
            lemma_next_newline(s, i);
        }
        if e < s.len() {
            seq![strip_cr(s.subrange(i, e))] + lines_from(s, e + 1)
        } else {
            seq![s.subrange(i, s.len() as int)]
        }
    }
}

pub open spec fn source_lines(source: Seq<u8>) -> Seq<Seq<u8>> {
    lines_from(strip_bom(source), 0)
}

pub open spec fn field(line: Seq<u8>, start: int, end: int) -> Seq<u8> {
    line.subrange(start, end)
}

pub open spec fn column_field(line: Seq<u8>, i: int) -> Seq<u8> {
    field(line, 19 + 5 * i, 24 + 5 * i)
}

pub open spec fn columns_parse(line: Seq<u8>) -> bool {
    forall|i: int| 0 <= i < 6 ==> parse_u32(trim(#[trigger] column_field(line, i))) is Some
}

pub open spec fn spec_maximum(line: Seq<u8>) -> Option<u32> {
    let t = trim(field(line, 12, 19));
    if t.len() == 0 {
        Some(u32::MAX)
    } else {
        parse_u32(t)
    }
}

/// What one record says, or the first problem with it.
pub open spec fn parse_record(line: Seq<u8>, line_number: usize) -> Result<
    TableRecord,
    TableSourceError,
> {
    if line.len() != RECORD_LENGTH {
        Err(TableSourceError::RecordLength { line: line_number })
    } else if !(line[0] == 51 && line[1] == 48) {
        Err(TableSourceError::RecordType { line: line_number })
    } else if !(line[2] == 66 || line[2] == 37) {
        Err(TableSourceError::RowKind { line: line_number })
    } else if parse_u32(trim(field(line, 3, 5))) is None {
        Err(TableSourceError::InvalidNumber { line: line_number, field: RecordField::Table })
    } else if !(MIN_TAX_TABLE <= parse_u32(trim(field(line, 3, 5)))->0 <= MAX_TAX_TABLE) {
        Err(TableSourceError::UnsupportedTable { line: line_number })
    } else if parse_u32(trim(field(line, 5, 12))) is None {
        Err(TableSourceError::InvalidNumber { line: line_number, field: RecordField::Minimum })
    } else if spec_maximum(line) is None {
        Err(TableSourceError::InvalidNumber { line: line_number, field: RecordField::Maximum })
    } else if !columns_parse(line) {
        Err(TableSourceError::InvalidNumber { line: line_number, field: RecordField::ColumnValue })
    } else {
        Ok(
            TableRecord {
                table: parse_u32(trim(field(line, 3, 5)))->0 as u8,
                row: TableRow {
                    minimum: parse_u32(trim(field(line, 5, 12)))->0,
                    maximum: spec_maximum(line)->0,
                    values: [
                        parse_u32(trim(column_field(line, 0)))->0,
                        parse_u32(trim(column_field(line, 1)))->0,
                        parse_u32(trim(column_field(line, 2)))->0,
                        parse_u32(trim(column_field(line, 3)))->0,
                        parse_u32(trim(column_field(line, 4)))->0,
                        parse_u32(trim(column_field(line, 5)))->0,
                    ],
                    kind: if line[2] == 66 {
                        RowKind::Amount
                    } else {
                        RowKind::Percent
                    },
                },
            },
        )
    }
}

/// The records of `lines` in order, or the error of the first bad line.
pub open spec fn parse_records(lines: Seq<Seq<u8>>) -> Result<Seq<TableRecord>, TableSourceError>
    decreases lines.len(),
{
    if lines.len() == 0 {
        Ok(Seq::empty())
    } else {
        match parse_records(lines.drop_last()) {
            Err(e) => Err(e),
            Ok(records) => match parse_record(lines.last(), lines.len() as usize) {
                Err(e) => Err(e),
                Ok(record) => Ok(records.push(record)),
            },
        }
    }
}

/// The rows of each table, in file order.
pub open spec fn group_rows(records: Seq<TableRecord>) -> Seq<Seq<TableRow>>
    decreases records.len(),
{
    if records.len() == 0 {
        Seq::new(TABLE_COUNT as nat, |k: int| Seq::<TableRow>::empty())
    } else {
        let g = group_rows(records.drop_last());
        let k = records.last().table - MIN_TAX_TABLE;
        g.update(k, g[k].push(records.last().row))
    }
}

pub open spec fn contiguous(rows: Seq<TableRow>) -> bool {
    forall|i: int| 0 <= i < rows.len() - 1 ==> rows[i].maximum + 1 == #[trigger] rows[i + 1].minimum
}

pub open spec fn nonempty_brackets(rows: Seq<TableRow>) -> bool {
    forall|i: int| 0 <= i < rows.len() ==> #[trigger] rows[i].minimum <= rows[i].maximum
}

/// The first problem with one table's rows, checked in the source's order.
pub open spec fn table_issue(rows: Seq<TableRow>, table: u8) -> Option<TableSourceError> {
    if rows.len() == 0 || rows[0].minimum != 1 {
        Some(TableSourceError::MissingFirstIncome { table })
    } else if rows.last().maximum != u32::MAX {
        Some(TableSourceError::MissingOpenEnd { table })
    } else if !contiguous(rows) {
        Some(TableSourceError::GapOrOverlap { table })
    } else if !nonempty_brackets(rows) {
        Some(TableSourceError::EmptyBracket { table })
    } else {
        None
    }
}

/// The problem of the lowest-numbered table from position `k` on.
pub open spec fn tables_issue(tables: Seq<Seq<TableRow>>, k: int) -> Option<TableSourceError>
    decreases TABLE_COUNT - k,
{
    if k < 0 || k >= TABLE_COUNT {
        None
    } else {
        match table_issue(tables[k], (MIN_TAX_TABLE + k) as u8) {
            Some(e) => Some(e),
            None => tables_issue(tables, k + 1),
        }
    }
}

/// The outcome of reading a complete source file.
pub open spec fn spec_parse_tables(source: Seq<u8>) -> Result<Seq<Seq<TableRow>>, TableSourceError> {
    let lines = source_lines(source);
    match parse_records(lines) {
        Err(e) => Err(e),
        Ok(records) => if lines.len() != RECORD_COUNT {
            Err(TableSourceError::RecordCount { found: lines.len() as usize })
        } else {
            match tables_issue(group_rows(records), 0) {
                Some(e) => Err(e),
                None => Ok(group_rows(records)),
            }
        },
    }
}

/// A table that assigns every positive income to exactly one bracket.
pub open spec fn rows_well_formed(rows: Seq<TableRow>) -> bool {
    &&& rows.len() > 0
    &&& rows[0].minimum == 1
    &&& rows.last().maximum == u32::MAX
    &&& contiguous(rows)
    &&& nonempty_brackets(rows)
}

pub open spec fn tables_well_formed(tables: Seq<Seq<TableRow>>) -> bool {
    &&& tables.len() == TABLE_COUNT
    &&& forall|k: int| 0 <= k < TABLE_COUNT ==> rows_well_formed(#[trigger] tables[k])
}

// ---------------------------------------------------------------------------
// The lookup
// ---------------------------------------------------------------------------

pub open spec fn bracket_contains(row: TableRow, income: int) -> bool {
    row.minimum <= income <= row.maximum
}

/// The bracket of a table that contains `income`.
pub open spec fn bracket_index(rows: Seq<TableRow>, income: int) -> int {
    choose|i: int| 0 <= i < rows.len() && bracket_contains(rows[i], income)
}

pub open spec fn deduction_of(row: TableRow, column: TaxColumn) -> TaxDeduction {
    let value = row.values[column_number(column) - 1];
    match row.kind {
        RowKind::Amount => TaxDeduction::Amount(value),
        RowKind::Percent => TaxDeduction::Percent(value),
    }
}

/// The entry for a monthly income: `None` for an unsupported table, a zero
/// amount for zero income, otherwise the column of the income's bracket.
pub open spec fn spec_monthly_deduction(
    tables: Seq<Seq<TableRow>>,
    table: u8,
    column: TaxColumn,
    income: u32,
) -> Option<TaxDeduction> {
    if !(MIN_TAX_TABLE <= table <= MAX_TAX_TABLE) {
        None
    } else if income == 0 {
        Some(TaxDeduction::Amount(0))
    } else {
        let rows = tables[table - MIN_TAX_TABLE];
        Some(deduction_of(rows[bracket_index(rows, income as int)], column))
    }
}

/// Brackets further down a well-formed table start above earlier ones.
pub proof fn lemma_brackets_ordered(rows: Seq<TableRow>, i: int, j: int)
    requires
        rows_well_formed(rows),
        0 <= i < j < rows.len(),
    ensures
        rows[i].maximum < rows[j].minimum,
    decreases j - i,
{
    if j - i > 1 {
        lemma_brackets_ordered(rows, i, j - 1);
        assert(rows[j - 1].minimum <= rows[j - 1].maximum);
    }
    let k = j - 1;
    assert(rows[k].maximum + 1 == rows[k + 1].minimum);
}

/// Every positive income lies in one bracket of a well-formed table.
pub proof fn lemma_bracket_exists(rows: Seq<TableRow>, income: int)
    requires
        rows_well_formed(rows),
        1 <= income <= u32::MAX,
    ensures
        exists|i: int| 0 <= i < rows.len() && bracket_contains(rows[i], income),
    decreases rows.len(),
{
    let last = rows.len() - 1;
    if rows.len() == 1 || income >= rows[last].minimum {
        assert(bracket_contains(rows[last], income));
    } else {
        let shorter = rows.drop_last();
        assert(shorter.len() > 0);
        assert(shorter[0] == rows[0]);
        let widened = shorter.update(
            last - 1,
            TableRow { maximum: u32::MAX, ..shorter[last - 1] },
        );
        assert(rows_well_formed(widened)) by {
            assert forall|i: int| 0 <= i < widened.len() - 1 implies widened[i].maximum + 1
                == #[trigger] widened[i + 1].minimum by {
                assert(rows[i].maximum + 1 == rows[i + 1].minimum);
            }
            assert forall|i: int| 0 <= i < widened.len() implies #[trigger] widened[i].minimum
                <= widened[i].maximum by {
                assert(rows[i].minimum <= rows[i].maximum);
            }
        }
        lemma_bracket_exists(widened, income);
        let i = choose|i: int| 0 <= i < widened.len() && bracket_contains(widened[i], income);
        let k = last - 1;
        assert(rows[k].maximum + 1 == rows[k + 1].minimum);
        assert(bracket_contains(rows[i], income));
    }
}

/// The bracket containing an income is unique.
pub proof fn lemma_bracket_unique(rows: Seq<TableRow>, income: int, i: int, j: int)
    requires
        rows_well_formed(rows),
        0 <= i < rows.len(),
        0 <= j < rows.len(),
        bracket_contains(rows[i], income),
        bracket_contains(rows[j], income),
    ensures
        i == j,
{
    if i < j {
        lemma_brackets_ordered(rows, i, j);
    } else if j < i {
        lemma_brackets_ordered(rows, j, i);
    }
}


// ---------------------------------------------------------------------------
// Parsing
// ---------------------------------------------------------------------------

/// The monthly tables 29 through 42, each assigning every positive income to
/// exactly one bracket.
#[derive(Debug)]
pub struct MonthlyTables {
    tables: Vec<Vec<TableRow>>,
}

/// The rows of each table.
pub open spec fn rows_view(tables: Seq<Vec<TableRow>>) -> Seq<Seq<TableRow>> {
    tables.map_values(|rows: Vec<TableRow>| rows@)
}

impl View for MonthlyTables {
    type V = Seq<Seq<TableRow>>;

    closed spec fn view(&self) -> Seq<Seq<TableRow>> {
        rows_view(self.tables@)
    }
}

impl MonthlyTables {
    #[verifier::type_invariant]
    spec fn well_formed(self) -> bool {
        tables_well_formed(self@)
    }

    /// The rows of one table, or `None` outside tables 29 through 42.
    pub fn rows(&self, table: u8) -> (rows: Option<&[TableRow]>)
        ensures
            match rows {
                Some(rows) => MIN_TAX_TABLE <= table <= MAX_TAX_TABLE && rows@ == self@[table
                    - MIN_TAX_TABLE],
                None => !(MIN_TAX_TABLE <= table <= MAX_TAX_TABLE),
            },
    {
        proof {
            use_type_invariant(self);
        }
        if table < MIN_TAX_TABLE || table > MAX_TAX_TABLE {
            return None;
        }
        let k = (table - MIN_TAX_TABLE) as usize;
        assert(self@[k as int] == self.tables@[k as int]@);
        Some(self.tables[k].as_slice())
    }
}

/// The deduction for a positive income in a supported table is the entry, in
/// the requested column, of the one bracket that contains the income.
pub proof fn lemma_deduction_of_containing_bracket(
    tables: Seq<Seq<TableRow>>,
    table: u8,
    column: TaxColumn,
    income: u32,
    i: int,
)
    requires
        tables_well_formed(tables),
        MIN_TAX_TABLE <= table <= MAX_TAX_TABLE,
        1 <= income,
        0 <= i < tables[table - MIN_TAX_TABLE].len(),
        bracket_contains(tables[table - MIN_TAX_TABLE][i], income as int),
    ensures
        spec_monthly_deduction(tables, table, column, income) == Some(
            deduction_of(tables[table - MIN_TAX_TABLE][i], column),
        ),
{
    let rows = tables[table - MIN_TAX_TABLE];
    assert(rows_well_formed(rows));
    lemma_bracket_exists(rows, income as int);
    let b = bracket_index(rows, income as int);
    lemma_bracket_unique(rows, income as int, b, i);
}

/// A table read from a valid source assigns every income to one bracket.
pub proof fn lemma_parsed_tables_well_formed(source: Seq<u8>)
    requires
        spec_parse_tables(source) is Ok,
    ensures
        tables_well_formed(spec_parse_tables(source)->Ok_0),
{
    let lines = source_lines(source);
    let records = parse_records(lines)->Ok_0;
    let g = group_rows(records);
    lemma_records_valid(lines);
    lemma_group_rows_len(records);
    assert forall|k: int| 0 <= k < TABLE_COUNT implies rows_well_formed(#[trigger] g[k]) by {
        lemma_tables_issue_none(g, 0, k);
    }
}

proof fn lemma_group_rows_len(records: Seq<TableRecord>)
    requires
        forall|i: int| 0 <= i < records.len() ==> MIN_TAX_TABLE <= #[trigger] records[i].table
            <= MAX_TAX_TABLE,
    ensures
        group_rows(records).len() == TABLE_COUNT,
    decreases records.len(),
{
    if records.len() > 0 {
        lemma_group_rows_len(records.drop_last());
    }
}

proof fn lemma_tables_issue_none(g: Seq<Seq<TableRow>>, k: int, j: int)
    requires
        0 <= k <= j < TABLE_COUNT,
        tables_issue(g, k) is None,
    ensures
        table_issue(g[j], (MIN_TAX_TABLE + j) as u8) is None,
    decreases j - k,
{
    if k < j {
        lemma_tables_issue_none(g, k + 1, j);
    }
}

proof fn lemma_records_valid(lines: Seq<Seq<u8>>)
    requires
        parse_records(lines) is Ok,
    ensures
        forall|i: int| 0 <= i < parse_records(lines)->Ok_0.len() ==> MIN_TAX_TABLE
            <= #[trigger] parse_records(lines)->Ok_0[i].table <= MAX_TAX_TABLE,
        parse_records(lines)->Ok_0.len() == lines.len(),
    decreases lines.len(),
{
    if lines.len() > 0 {
        lemma_records_valid(lines.drop_last());
    }
}

proof fn lemma_records_error_persists(lines: Seq<Seq<u8>>, more: Seq<Seq<u8>>)
    requires
        parse_records(lines) is Err,
    ensures
        parse_records(lines + more) == parse_records(lines),
    decreases more.len(),
{
    if more.len() > 0 {
        lemma_records_error_persists(lines, more.drop_last());
        assert((lines + more).drop_last() =~= lines + more.drop_last());
    } else {
        assert(lines + more =~= lines);
    }
}

proof fn lemma_lines_step(s: Seq<u8>, i: int)
    requires
        0 <= i < s.len(),
    ensures
        next_newline(s, i) < s.len() ==> lines_from(s, i) == seq![
            strip_cr(s.subrange(i, next_newline(s, i))),
        ] + lines_from(s, next_newline(s, i) + 1),
        next_newline(s, i) >= s.len() ==> lines_from(s, i) == seq![s.subrange(i, s.len() as int)],
{
}

/// Reads one record from `source[start..start + len]`.
#[verifier::loop_isolation(false)]
fn parse_record_at(source: &[u8], start: usize, len: usize, line_number: usize) -> (r: Result<
    TableRecord,
    TableSourceError,
>)
    requires
        start + len <= source@.len(),
    ensures
        r == parse_record(source@.subrange(start as int, start + len), line_number),
{
    let ghost line = source@.subrange(start as int, start + len);
    if len != RECORD_LENGTH {
        return Err(TableSourceError::RecordLength { line: line_number });
    }
    assert(forall|a: int, b: int|
        0 <= a <= b <= RECORD_LENGTH ==> #[trigger] field(line, a, b) =~= source@.subrange(
            start + a,
            start + b,
        ));
    if !(source[start] == 51 && source[start + 1] == 48) {
        return Err(TableSourceError::RecordType { line: line_number });
    }
    let kind_byte = source[start + 2];
    if !(kind_byte == 66 || kind_byte == 37) {
        return Err(TableSourceError::RowKind { line: line_number });
    }
    assert(field(line, 3, 5) =~= source@.subrange(start + 3, start + 5));
    let table = match parse_trimmed_u32(source, start + 3, start + 5) {
        Some(t) => t,
        None => {
            return Err(
                TableSourceError::InvalidNumber { line: line_number, field: RecordField::Table },
            );
        },
    };
    if table < 29 || table > 42 {
        return Err(TableSourceError::UnsupportedTable { line: line_number });
    }
    assert(field(line, 5, 12) =~= source@.subrange(start + 5, start + 12));
    let minimum = match parse_trimmed_u32(source, start + 5, start + 12) {
        Some(v) => v,
        None => {
            return Err(
                TableSourceError::InvalidNumber { line: line_number, field: RecordField::Minimum },
            );
        },
    };
    assert(field(line, 12, 19) =~= source@.subrange(start + 12, start + 19));
    assert(spec_maximum(line) == (if trim(source@.subrange(start + 12, start + 19)).len() == 0 {
        Some(u32::MAX)
    } else {
        parse_u32(trim(source@.subrange(start + 12, start + 19)))
    }));
    let maximum = match maximum_at(source, start + 12, start + 19) {
        Some(v) => v,
        None => {
            return Err(
                TableSourceError::InvalidNumber { line: line_number, field: RecordField::Maximum },
            );
        },
    };
    let mut values = [0u32; 6];
    let mut i: usize = 0;
    while i < 6
        invariant
            0 <= i <= 6,
            start + RECORD_LENGTH <= source.len(),
            line == source@.subrange(start as int, start + RECORD_LENGTH),
            forall|j: int| 0 <= j < i ==> parse_u32(trim(#[trigger] column_field(line, j))) == Some(
                values[j],
            ),
        decreases 6 - i,
    {
        let from = start + 19 + 5 * i;
        assert(column_field(line, i as int) =~= source@.subrange(from as int, from + 5));
        match parse_trimmed_u32(source, from, from + 5) {
            Some(v) => {
                values[i] = v;
            },
            None => {
                assert(!columns_parse(line));
                return Err(
                    TableSourceError::InvalidNumber {
                        line: line_number,
                        field: RecordField::ColumnValue,
                    },
                );
            },
        }
        i = i + 1;
    }
    let kind = if kind_byte == 66 {
        RowKind::Amount
    } else {
        RowKind::Percent
    };
    let ghost expected = parse_record(line, line_number);
    assert(columns_parse(line));
    assert(values =~= [
        parse_u32(trim(column_field(line, 0)))->0,
        parse_u32(trim(column_field(line, 1)))->0,
        parse_u32(trim(column_field(line, 2)))->0,
        parse_u32(trim(column_field(line, 3)))->0,
        parse_u32(trim(column_field(line, 4)))->0,
        parse_u32(trim(column_field(line, 5)))->0,
    ]);
    Ok(
        TableRecord {
            table: table as u8,
            row: TableRow { minimum, maximum, values, kind },
        },
    )
}

/// The bracket maximum: a blank field means open-ended.
fn maximum_at(source: &[u8], from: usize, to: usize) -> (r: Option<u32>)
    requires
        from <= to <= source@.len(),
    ensures
        r == (if trim(source@.subrange(from as int, to as int)).len() == 0 {
            Some(u32::MAX)
        } else {
            parse_u32(trim(source@.subrange(from as int, to as int)))
        }),
{
    let ghost f = source@.subrange(from as int, to as int);
    let mut a = from;
    while a < to && (source[a] == 9 || source[a] == 10 || source[a] == 11 || source[a] == 12
        || source[a] == 13 || source[a] == 32)
        invariant
            from <= a <= to <= source@.len(),
            f == source@.subrange(from as int, to as int),
            first_non_space(f, 0) == first_non_space(f, a - from),
        decreases to - a,
    {
        a = a + 1;
    }
    if a == to {
        assert(trim(f) =~= Seq::<u8>::empty());
        Some(u32::MAX)
    } else {
        proof {
            crate::text::lemma_trim_nonempty(f, (a - from) as int);
        }
        parse_trimmed_u32(source, from, to)
    }
}

/// Where the line starting at `pos` ends: the index of its `\n` (or the end
/// of the source) and the end of its content.
fn line_bounds(source: &[u8], first: usize, pos: usize) -> (r: (usize, usize))
    requires
        first <= pos < source@.len(),
    ensures
        ({
            let s = source@.subrange(first as int, source@.len() as int);
            &&& pos <= r.1 <= r.0 <= source@.len()
            &&& r.0 == first + next_newline(s, pos - first)
            &&& r.0 < source@.len() ==> source@.subrange(pos as int, r.1 as int) == strip_cr(
                s.subrange(pos - first, r.0 - first),
            )
            &&& r.0 >= source@.len() ==> source@.subrange(pos as int, r.1 as int) == s.subrange(
                pos - first,
                s.len() as int,
            )
        }),
{
    let n = source.len();
    let ghost s = source@.subrange(first as int, n as int);
    let mut e = pos;
    while e < n && source[e] != 10
        invariant
            first <= pos <= e <= n,
            n == source@.len(),
            s == source@.subrange(first as int, n as int),
            next_newline(s, pos - first) == next_newline(s, e - first),
        decreases n - e,
    {
        assert(s[e - first] == source@[e as int]);
        e = e + 1;
    }
    proof {
        lemma_next_newline(s, e - first);
        if e < n {
            assert(s[e - first] == source@[e as int]);
        }
    }
    let line_end = if e < n && e > pos && source[e - 1] == 13 {
        e - 1
    } else {
        e
    };
    assert(e < n ==> source@.subrange(pos as int, line_end as int) =~= strip_cr(
        s.subrange(pos - first, e - first),
    ));
    assert(e >= n ==> source@.subrange(pos as int, line_end as int) =~= s.subrange(
        pos - first,
        s.len() as int,
    ));
    (e, line_end)
}

proof fn lemma_line_error(
    source: Seq<u8>,
    done: Seq<Seq<u8>>,
    line: Seq<u8>,
    rest: Seq<Seq<u8>>,
    err: TableSourceError,
)
    requires
        source_lines(source) == done.push(line) + rest,
        parse_records(done) is Ok,
        parse_record(line, (done.len() + 1) as usize) == Err::<TableRecord, TableSourceError>(err),
    ensures
        spec_parse_tables(source) == Err::<Seq<Seq<TableRow>>, TableSourceError>(err),
{
    assert(done.push(line).drop_last() =~= done);
    lemma_records_error_persists(done.push(line), rest);
}

proof fn lemma_group_push(
    before: Seq<Vec<TableRow>>,
    after: Seq<Vec<TableRow>>,
    records: Seq<TableRecord>,
    rec: TableRecord,
)
    requires
        rows_view(before) == group_rows(records),
        before.len() == TABLE_COUNT,
        MIN_TAX_TABLE <= rec.table <= MAX_TAX_TABLE,
        after.len() == TABLE_COUNT,
        forall|j: int|
            0 <= j < TABLE_COUNT && j != rec.table - MIN_TAX_TABLE ==> #[trigger] after[j] == before[j],
        after[rec.table - MIN_TAX_TABLE]@ == before[rec.table - MIN_TAX_TABLE]@.push(rec.row),
    ensures
        rows_view(after) == group_rows(records.push(rec)),
{
    assert(records.push(rec).drop_last() =~= records);
    let g = group_rows(records);
    let k = rec.table - MIN_TAX_TABLE;
    assert(rows_view(after) =~= g.update(k, g[k].push(rec.row))) by {
        assert forall|j: int| 0 <= j < TABLE_COUNT implies #[trigger] rows_view(after)[j] == g.update(k, g[k].push(rec.row))[j] by {
            assert(rows_view(before)[j] == before[j]@);
        }
    }
}

/// Reads the monthly tables from the bytes of the official record file.
///
/// The file must consist of exactly [`RECORD_COUNT`] well-formed records and
/// every table must assign each positive income to exactly one bracket;
/// otherwise the first problem found is returned.
#[verifier::rlimit(50)]
#[verifier::spinoff_prover]
pub fn parse_monthly_tables(source: &[u8]) -> (r: Result<MonthlyTables, TableSourceError>)
    ensures
        match r {
            Ok(tables) => spec_parse_tables(source@) == Ok::<Seq<Seq<TableRow>>, TableSourceError>(
                tables@,
            ),
            Err(e) => spec_parse_tables(source@) == Err::<Seq<Seq<TableRow>>, TableSourceError>(e),
        },
{
    let n = source.len();
    let first = if n >= 3 && source[0] == 0xEF && source[1] == 0xBB && source[2] == 0xBF {
        3
    } else {
        0
    };
    let ghost s = strip_bom(source@);
    assert(s =~= source@.subrange(first as int, n as int));
    let mut tables: Vec<Vec<TableRow>> = Vec::new();
    let mut k: usize = 0;
    while k < TABLE_COUNT
        invariant
            0 <= k <= TABLE_COUNT,
            tables@.len() == k,
            forall|j: int| 0 <= j < k ==> (#[trigger] tables@[j])@.len() == 0,
        decreases TABLE_COUNT - k,
    {
        tables.push(Vec::new());
        k = k + 1;
    }
    let ghost mut done: Seq<Seq<u8>> = Seq::empty();
    let ghost mut records: Seq<TableRecord> = Seq::empty();
    assert(rows_view(tables@) =~= group_rows(records)) by {
        assert forall|j: int| 0 <= j < TABLE_COUNT implies #[trigger] rows_view(tables@)[j] == group_rows(records)[j] by {
            assert(tables@[j]@ =~= Seq::<TableRow>::empty());
        }
    }
    let mut pos = first;
    let mut count: usize = 0;
    while pos < n
        invariant
            first <= pos <= n,
            n == source@.len(),
            s == source@.subrange(first as int, n as int),
            s == strip_bom(source@),
            lines_from(s, 0) == done + lines_from(s, pos - first),
            parse_records(done) == Ok::<Seq<TableRecord>, TableSourceError>(records),
            rows_view(tables@) == group_rows(records),
            tables@.len() == TABLE_COUNT,
            forall|i: int| 0 <= i < records.len() ==> MIN_TAX_TABLE <= #[trigger] records[i].table
                <= MAX_TAX_TABLE,
            count == done.len(),
            count <= pos,
        decreases n - pos,
    {
        let (e, line_end) = line_bounds(source, first, pos);
        proof {
            lemma_lines_step(s, pos - first);
        }
        let ghost line = source@.subrange(pos as int, line_end as int);
        let record = parse_record_at(source, pos, line_end - pos, count + 1);
        let ghost rest = if e < n {
            lines_from(s, e - first + 1)
        } else {
            Seq::empty()
        };
        assert(lines_from(s, 0) == done.push(line) + rest) by {
            assert(done + (seq![line] + rest) =~= done.push(line) + rest);
        }
        assert(done.push(line).drop_last() =~= done);
        match record {
            Err(err) => {
                proof {
                    lemma_line_error(source@, done, line, rest, err);
                }
                return Err(err);
            },
            Ok(rec) => {
                let slot = (rec.table - MIN_TAX_TABLE) as usize;
                let ghost before = tables@;
                let mut rows: Vec<TableRow> = Vec::new();
                tables.set_and_swap(slot, &mut rows);
                rows.push(rec.row);
                tables.set(slot, rows);
                proof {
                    lemma_group_push(before, tables@, records, rec);
                    done = done.push(line);
                    records = records.push(rec);
                }
            },
        }
        count = count + 1;
        pos = if e < n {
            e + 1
        } else {
            n
        };
        assert(e >= n ==> lines_from(s, pos - first) =~= Seq::<Seq<u8>>::empty());
    }
    proof {
        assert(lines_from(s, pos - first) =~= Seq::<Seq<u8>>::empty());
        assert(done + Seq::<Seq<u8>>::empty() =~= done);
        lemma_group_rows_len(records);
    }
    if count != RECORD_COUNT {
        return Err(TableSourceError::RecordCount { found: count });
    }
    assert(spec_parse_tables(source@) == (match tables_issue(group_rows(records), 0) {
        Some(e) => Err(e),
        None => Ok(group_rows(records)),
    }));
    let mut k: usize = 0;
    while k < TABLE_COUNT
        invariant
            0 <= k <= TABLE_COUNT,
            tables@.len() == TABLE_COUNT,
            rows_view(tables@) == group_rows(records),
            tables_issue(group_rows(records), 0) == tables_issue(group_rows(records), k as int),
            spec_parse_tables(source@) == (match tables_issue(group_rows(records), 0) {
                Some(e) => Err(e),
                None => Ok(group_rows(records)),
            }),
        decreases TABLE_COUNT - k,
    {
        let table = MIN_TAX_TABLE + k as u8;
        let rows = &tables[k];
        assert(rows_view(tables@)[k as int] == tables@[k as int]@);
        match table_problem(rows.as_slice(), table) {
            Some(err) => {
                return Err(err);
            },
            None => {},
        }
        k = k + 1;
    }
    let ghost g = group_rows(records);
    assert(tables_issue(g, 0) is None);
    assert forall|j: int| 0 <= j < TABLE_COUNT implies rows_well_formed(
        #[trigger] rows_view(tables@)[j],
    ) by {
        lemma_tables_issue_none(g, 0, j);
    }
    Ok(MonthlyTables { tables })
}

/// The first problem with one table's rows.
#[verifier::loop_isolation(false)]
fn table_problem(rows: &[TableRow], table: u8) -> (r: Option<TableSourceError>)
    ensures
        r == table_issue(rows@, table),
{
    let n = rows.len();
    if n == 0 || rows[0].minimum != 1 {
        return Some(TableSourceError::MissingFirstIncome { table });
    }
    if rows[n - 1].maximum != u32::MAX {
        return Some(TableSourceError::MissingOpenEnd { table });
    }
    assert(rows@.last() == rows@[n - 1]);
    let mut i: usize = 0;
    while i + 1 < n
        invariant
            0 <= i < n,
            n == rows@.len(),
            forall|j: int| 0 <= j < i ==> rows@[j].maximum + 1 == #[trigger] rows@[j + 1].minimum,
        decreases n - i,
    {
        if rows[i].maximum == u32::MAX || rows[i].maximum + 1 != rows[i + 1].minimum {
            assert(!(rows@[i as int].maximum + 1 == rows@[i as int + 1].minimum));
            assert(!contiguous(rows@));
            return Some(TableSourceError::GapOrOverlap { table });
        }
        i = i + 1;
    }
    assert(contiguous(rows@));
    let mut i: usize = 0;
    while i < n
        invariant
            0 <= i <= n,
            n == rows@.len(),
            contiguous(rows@),
            forall|j: int| 0 <= j < i ==> #[trigger] rows@[j].minimum <= rows@[j].maximum,
        decreases n - i,
    {
        if rows[i].minimum > rows[i].maximum {
            assert(!(rows@[i as int].minimum <= rows@[i as int].maximum));
            return Some(TableSourceError::EmptyBracket { table });
        }
        i = i + 1;
    }
    None
}

/// Looks up the withholding entry for a gross monthly income in SEK.
///
/// Returns `None` for tables outside 29 through 42. Income zero has no
/// source row but naturally produces a zero deduction.
#[verifier::loop_isolation(false)]
pub fn monthly_deduction(
    tables: &MonthlyTables,
    table: u8,
    column: TaxColumn,
    gross_monthly_income: u32,
) -> (r: Option<TaxDeduction>)
    ensures
        r == spec_monthly_deduction(tables@, table, column, gross_monthly_income),
{
    proof {
        use_type_invariant(tables);
    }
    let rows = match tables.rows(table) {
        Some(rows) => rows,
        None => {
            return None;
        },
    };
    if gross_monthly_income == 0 {
        return Some(TaxDeduction::Amount(0));
    }
    let ghost seq = rows@;
    assert(rows_well_formed(seq));
    proof {
        lemma_bracket_exists(seq, gross_monthly_income as int);
    }
    let mut lo: usize = 0;
    let mut hi: usize = rows.len();
    while lo < hi
        invariant
            0 <= lo <= hi <= seq.len(),
            seq == rows@,
            rows_well_formed(seq),
            exists|i: int| 0 <= i < seq.len() && bracket_contains(seq[i], gross_monthly_income as int),
            forall|i: int|
                0 <= i < seq.len() && bracket_contains(#[trigger] seq[i], gross_monthly_income as int)
                    ==> lo <= i < hi,
        decreases hi - lo,
    {
        let mid = lo + (hi - lo) / 2;
        let row = rows[mid];
        if gross_monthly_income < row.minimum {
            proof {
                assert forall|i: int|
                    0 <= i < seq.len() && bracket_contains(#[trigger] seq[i], gross_monthly_income as int)
                        implies i < mid by {
                    if i > mid {
                        lemma_brackets_ordered(seq, mid as int, i);
                    }
                }
            }
            hi = mid;
        } else if gross_monthly_income > row.maximum {
            proof {
                assert forall|i: int|
                    0 <= i < seq.len() && bracket_contains(#[trigger] seq[i], gross_monthly_income as int)
                        implies mid < i by {
                    if i < mid {
                        lemma_brackets_ordered(seq, i, mid as int);
                    }
                }
            }
            lo = mid + 1;
        } else {
            proof {
                let b = bracket_index(seq, gross_monthly_income as int);
                lemma_bracket_unique(seq, gross_monthly_income as int, b, mid as int);
                assert(seq[bracket_index(seq, gross_monthly_income as int)] == row);
            }
            let value = row.values[column.index()];
            assert(value == row.values[column_number(column) - 1]);
            assert(seq == tables@[table - MIN_TAX_TABLE]);
            return Some(
                match row.kind {
                    RowKind::Amount => TaxDeduction::Amount(value),
                    RowKind::Percent => TaxDeduction::Percent(value),
                },
            );
        }
    }
    None
}

} // verus!
