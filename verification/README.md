# swedish_tax

Swedish preliminary tax for income year 2026, written in Verus: every function
of the library carries a contract that the verifier proves.

## Layout

- `src/tables.rs` reads Skatteverket's fixed-width file of monthly tables 29–42
  and looks a monthly income up in them.
- `src/annual.rs` is the SKV 433 annual formula; `src/one_time.rs` the 2026
  withholding rates for one-time payments; `src/marginal.rs` the withholding on
  either side of a marginal interval.
- `src/income_bases.rs` estimates pensionable income (PGI) and SGI.
- `src/dividend_allowance.rs` is the preliminary 2027 3:12 allowance.
- `src/dates.rs`, `src/income_kind.rs`, `src/pension.rs`, `src/entry.rs` and
  `src/plan.rs` model an income plan: its rows, proration, occupational-pension
  premiums, salary exchange and the 35% allowance, totals and validation.
- `src/withholding.rs` estimates what each payer withholds over the year.
- `src/display.rs` formats and reads amounts and percentages as text.
- `app/main.rs` is a command-line front end; it reads the table file from disk.

The monthly tables are not built into the library: `parse_monthly_tables`
takes the bytes of the published record file and checks that every table
covers every positive income exactly once.
