use vstd::prelude::*;

verus! {

/// The column of a tax table selected by the employee's tax decision.
#[derive(Clone, Copy, Debug, PartialEq, Eq, Structural)]
pub enum TaxColumn {
    Column1,
    Column2,
    Column3,
    Column4,
    Column5,
    Column6,
}

/// One-based column number as printed in the published tables.
pub open spec fn column_number(column: TaxColumn) -> nat {
    match column {
        TaxColumn::Column1 => 1,
        TaxColumn::Column2 => 2,
        TaxColumn::Column3 => 3,
        TaxColumn::Column4 => 4,
        TaxColumn::Column5 => 5,
        TaxColumn::Column6 => 6,
    }
}

impl TaxColumn {
    /// The one-based column number, 1 through 6.
    pub fn number(self) -> (n: u8)
        ensures
            n == column_number(self),
    {
        match self {
            TaxColumn::Column1 => 1,
            TaxColumn::Column2 => 2,
            TaxColumn::Column3 => 3,
            TaxColumn::Column4 => 4,
            TaxColumn::Column5 => 5,
            TaxColumn::Column6 => 6,
        }
    }

    /// Zero-based position of the column's value in a table row.
    pub fn index(self) -> (i: usize)
        ensures
            i == column_number(self) - 1,
            i < 6,
    {
        match self {
            TaxColumn::Column1 => 0,
            TaxColumn::Column2 => 1,
            TaxColumn::Column3 => 2,
            TaxColumn::Column4 => 3,
            TaxColumn::Column5 => 4,
            TaxColumn::Column6 => 5,
        }
    }
}

/// A monthly table entry: a fixed SEK amount or a whole percentage of the payment.
#[derive(Clone, Copy, Debug, PartialEq, Eq, Structural)]
pub enum TaxDeduction {
    Amount(u32),
    Percent(u32),
}

} // verus!
