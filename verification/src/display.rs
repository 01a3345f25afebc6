//! Locale-independent text for amounts, percentages and rules, as shown to users.
use vstd::prelude::*;

use crate::columns::{column_number, TaxDeduction};
use crate::dividend_allowance::DividendAllowanceIssue;
use crate::income_bases::IncomeBasisEstimate;
use crate::entry::{
    spec_annual_amount, spec_sacrifice, spec_vacation_compensation_amount, IncomeEntry,
};
use crate::income_kind::{spec_is_monthly, spec_is_recurring_salary, spec_is_salary, IncomeKind};
use crate::plan::IncomePlanValidationIssue;
use crate::withholding::{AppliedWithholding, EntryWithholding};

verus! {

/// What remains to settle after withholding: tax still owed, an amount to be
/// refunded, or nothing.
#[derive(Clone, Copy, Debug, PartialEq, Eq, Structural)]
pub enum TaxBalance {
    Debt(u32),
    Refund(u32),
    Settled,
}

pub open spec fn spec_tax_balance(total_tax: u32, withheld_tax: u32) -> TaxBalance {
    if total_tax > withheld_tax {
        TaxBalance::Debt((total_tax - withheld_tax) as u32)
    } else if total_tax < withheld_tax {
        TaxBalance::Refund((withheld_tax - total_tax) as u32)
    } else {
        TaxBalance::Settled
    }
}

/// The balance of a year's final tax against what was withheld.
pub fn tax_balance(total_tax: u32, withheld_tax: u32) -> (b: TaxBalance)
    ensures
        b == spec_tax_balance(total_tax, withheld_tax),
{
    if total_tax > withheld_tax {
        TaxBalance::Debt(total_tax - withheld_tax)
    } else if total_tax < withheld_tax {
        TaxBalance::Refund(withheld_tax - total_tax)
    } else {
        TaxBalance::Settled
    }
}

// ---------------------------------------------------------------------------
// Decimal text
// ---------------------------------------------------------------------------

/// The ASCII digit for `d` in 0..=9.
pub open spec fn digit_char(d: int) -> char {
    (d + 48) as char
}

/// The decimal digits of `v`, without leading zeros.
pub open spec fn decimal(v: nat) -> Seq<char>
    decreases v,
{
    if v < 10 {
        seq![digit_char(v as int)]
    } else {
        decimal(v / 10).push(digit_char((v % 10) as int))
    }
}

/// Three digits of `r` in 0..1000, zero-padded.
pub open spec fn three_digits(r: nat) -> Seq<char> {
    seq![digit_char((r / 100) as int), digit_char((r / 10 % 10) as int), digit_char((r % 10) as int)]
}

/// The decimal digits of `v` in groups of three from the right, separated by spaces.
pub open spec fn grouped(v: nat) -> Seq<char>
    decreases v,
{
    if v < 1000 {
        decimal(v)
    } else {
        grouped(v / 1000) + seq![' '] + three_digits(v % 1000)
    }
}

pub open spec fn spec_format_sek(v: u32) -> Seq<char> {
    grouped(v as nat) + " SEK"@
}

/// The minus sign used for negative amounts.
pub open spec fn minus() -> char {
    '\u{2212}'
}

/// Trusted: calls `String::push`, which std documents as appending `c` to the
/// end of the string; the contract states exactly that of the character sequence.
#[verifier::external_body]
fn push_char(text: &mut String, c: char)
    ensures
        final(text)@ == old(text)@.push(c),
{
    text.push(c);
}

/// Appends the characters of `s`.
fn push_str(text: &mut String, s: &str)
    ensures
        final(text)@ == old(text)@ + s@,
{
    let n = s.unicode_len();
    let mut i: usize = 0;
    while i < n
        invariant
            0 <= i <= n,
            n == s@.len(),
            text@ == old(text)@ + s@.subrange(0, i as int),
        decreases n - i,
    {
        let c = s.get_char(i);
        push_char(text, c);
        assert(s@.subrange(0, i + 1) =~= s@.subrange(0, i as int).push(c));
        i = i + 1;
    }
    assert(s@.subrange(0, n as int) =~= s@);
}

fn push_digit(text: &mut String, d: u32)
    requires
        d < 10,
    ensures
        final(text)@ == old(text)@.push(digit_char(d as int)),
{
    let c = match d {
        0 => '0',
        1 => '1',
        2 => '2',
        3 => '3',
        4 => '4',
        5 => '5',
        6 => '6',
        7 => '7',
        8 => '8',
        _ => '9',
    };
    push_char(text, c);
}

fn push_decimal(text: &mut String, v: u32)
    ensures
        final(text)@ == old(text)@ + decimal(v as nat),
    decreases v,
{
    if v >= 10 {
        push_decimal(text, v / 10);
    }
    push_digit(text, v % 10);
    proof {
        if v >= 10 {
            assert(old(text)@ + decimal((v / 10) as nat) + seq![digit_char((v % 10) as int)]
                =~= old(text)@ + decimal(v as nat));
        } else {
            assert(old(text)@.push(digit_char((v % 10) as int)) =~= old(text)@ + decimal(v as nat));
        }
    }
}

fn push_grouped(text: &mut String, v: u32)
    ensures
        final(text)@ == old(text)@ + grouped(v as nat),
    decreases v,
{
    if v < 1000 {
        push_decimal(text, v);
    } else {
        push_grouped(text, v / 1000);
        push_char(text, ' ');
        let r = v % 1000;
        push_digit(text, r / 100);
        push_digit(text, r / 10 % 10);
        push_digit(text, r % 10);
        assert(text@ =~= old(text)@ + grouped(v as nat));
    }
}

/// The digits of `value` grouped in threes with spaces, as in "1 234 567".
pub fn grouped_digits(value: u32) -> (s: String)
    ensures
        s@ == grouped(value as nat),
{
    let mut text = String::new();
    push_grouped(&mut text, value);
    assert(text@ =~= grouped(value as nat));
    text
}

/// An amount in kronor, as in "1 234 567 SEK".
pub fn format_sek(value: u32) -> (s: String)
    ensures
        s@ == spec_format_sek(value),
{
    let mut text = String::new();
    push_grouped(&mut text, value);
    push_str(&mut text, " SEK");
    assert(text@ =~= spec_format_sek(value));
    text
}

/// A dash for zero, otherwise the amount.
pub fn optional_sek(value: u32) -> (s: String)
    ensures
        s@ == (if value == 0 {
            "—"@
        } else {
            spec_format_sek(value)
        }),
{
    if value == 0 {
        "—".to_owned()
    } else {
        format_sek(value)
    }
}

/// A credit shown as a deduction: "-" before a non-zero amount.
pub fn format_credit(value: u32) -> (s: String)
    ensures
        s@ == (if value == 0 {
            spec_format_sek(0)
        } else {
            seq!['-'] + spec_format_sek(value)
        }),
{
    if value == 0 {
        format_sek(0)
    } else {
        let mut text = String::new();
        push_char(&mut text, '-');
        let amount = format_sek(value);
        push_str(&mut text, amount.as_str());
        assert(text@ =~= seq!['-'] + spec_format_sek(value));
        text
    }
}

pub open spec fn spec_tax_balance_value(balance: TaxBalance) -> Seq<char> {
    match balance {
        TaxBalance::Debt(amount) => seq![minus()] + spec_format_sek(amount),
        TaxBalance::Refund(amount) => seq!['+'] + spec_format_sek(amount),
        TaxBalance::Settled => spec_format_sek(0),
    }
}

fn signed_sek(sign: char, amount: u32) -> (s: String)
    ensures
        s@ == seq![sign] + spec_format_sek(amount),
{
    let mut text = String::new();
    push_char(&mut text, sign);
    push_grouped(&mut text, amount);
    push_str(&mut text, " SEK");
    assert(text@ =~= seq![sign] + spec_format_sek(amount));
    text
}

/// The balance with its sign: "−" for a debt, "+" for a refund.
pub fn tax_balance_value(balance: TaxBalance) -> (s: String)
    ensures
        s@ == spec_tax_balance_value(balance),
{
    match balance {
        TaxBalance::Debt(amount) => signed_sek('\u{2212}', amount),
        TaxBalance::Refund(amount) => signed_sek('+', amount),
        TaxBalance::Settled => format_sek(0),
    }
}

/// A one-line description of the balance.
pub fn tax_balance_summary(balance: TaxBalance) -> (s: String)
    ensures
        s@ == (match balance {
            TaxBalance::Debt(_) => "Expected balance: "@ + spec_tax_balance_value(balance)
                + " · Tax debt"@,
            TaxBalance::Refund(_) => "Expected balance: "@ + spec_tax_balance_value(balance)
                + " · Tax refund"@,
            TaxBalance::Settled => "No expected balance · Settled"@,
        }),
{
    match balance {
        TaxBalance::Settled => "No expected balance · Settled".to_owned(),
        TaxBalance::Debt(_) => {
            let mut text = "Expected balance: ".to_owned();
            let value = tax_balance_value(balance);
            push_str(&mut text, value.as_str());
            push_str(&mut text, " · Tax debt");
            text
        },
        TaxBalance::Refund(_) => {
            let mut text = "Expected balance: ".to_owned();
            let value = tax_balance_value(balance);
            push_str(&mut text, value.as_str());
            push_str(&mut text, " · Tax refund");
            text
        },
    }
}

/// The low 32 bits of an amount's magnitude, which is what is shown of an
/// amount beyond the `u32` range.
pub open spec fn low_bits(magnitude: int) -> u32 {
    magnitude as u32
}

fn magnitude_low_bits(value: i64) -> (r: u32)
    ensures
        r == low_bits(if value < 0 {
            -(value as int)
        } else {
            value as int
        }),
{
    let magnitude: u64 = if value < 0 {
        (-(value + 1)) as u64 + 1
    } else {
        value as u64
    };
    #[verifier::truncate]
    (magnitude as u32)
}

/// A signed amount: "−" before a negative amount, none before others.
pub fn format_signed_sek(value: i64) -> (s: String)
    ensures
        s@ == (if value < 0 {
            seq![minus()] + spec_format_sek(low_bits(-(value as int)))
        } else {
            spec_format_sek(low_bits(value as int))
        }),
{
    let amount = magnitude_low_bits(value);
    if value < 0 {
        signed_sek('\u{2212}', amount)
    } else {
        format_sek(amount)
    }
}

/// A change: "+" before an increase, "−" before a decrease.
pub fn format_delta_sek(value: i64) -> (s: String)
    ensures
        s@ == (if value > 0 {
            seq!['+'] + spec_format_sek(low_bits(value as int))
        } else if value < 0 {
            seq![minus()] + spec_format_sek(low_bits(-(value as int)))
        } else {
            spec_format_sek(0)
        }),
{
    if value > 0 {
        signed_sek('+', magnitude_low_bits(value))
    } else {
        format_signed_sek(value)
    }
}

/// Basis points as a percentage with at most two decimals and no trailing
/// zeros: 576 is "5.76", 570 is "5.7", 500 is "5".
pub open spec fn spec_basis_points_text(basis_points: u32) -> Seq<char> {
    let whole = decimal((basis_points / 100) as nat);
    let fraction = basis_points % 100;
    if fraction == 0 {
        whole
    } else if fraction % 10 == 0 {
        whole + seq!['.', digit_char((fraction / 10) as int)]
    } else {
        whole + seq!['.', digit_char((fraction / 10) as int), digit_char((fraction % 10) as int)]
    }
}

pub fn format_basis_points_percentage(basis_points: u32) -> (s: String)
    ensures
        s@ == spec_basis_points_text(basis_points),
{
    let mut text = String::new();
    push_decimal(&mut text, basis_points / 100);
    let fraction = basis_points % 100;
    if fraction != 0 {
        push_char(&mut text, '.');
        push_digit(&mut text, fraction / 10);
        if fraction % 10 != 0 {
            push_digit(&mut text, fraction % 10);
        }
    }
    assert(text@ =~= spec_basis_points_text(basis_points));
    text
}

/// A monthly table entry: an amount per month or a percentage of the payment.
pub fn table_deduction_text(deduction: TaxDeduction) -> (s: String)
    ensures
        s@ == (match deduction {
            TaxDeduction::Amount(amount) => spec_format_sek(amount) + " / month"@,
            TaxDeduction::Percent(percent) => decimal(percent as nat) + "% of payment"@,
        }),
{
    match deduction {
        TaxDeduction::Amount(amount) => {
            let mut text = format_sek(amount);
            push_str(&mut text, " / month");
            text
        },
        TaxDeduction::Percent(percent) => {
            let mut text = String::new();
            push_decimal(&mut text, percent);
            push_str(&mut text, "% of payment");
            assert(text@ =~= decimal(percent as nat) + "% of payment"@);
            text
        },
    }
}


// ---------------------------------------------------------------------------
// Percentage text entered by a user
// ---------------------------------------------------------------------------

pub open spec fn is_ascii_digit(c: char) -> bool {
    '0' <= c <= '9'
}

/// A decimal separator: a point or, as written in Swedish, a comma.
pub open spec fn is_separator(c: char) -> bool {
    c == '.' || c == ','
}

pub open spec fn all_digits(s: Seq<char>) -> bool {
    forall|i: int| 0 <= i < s.len() ==> is_ascii_digit(#[trigger] s[i])
}

pub open spec fn digit_value(c: char) -> nat {
    (c as int - 48) as nat
}

/// The number written by a run of decimal digits; zero for none.
pub open spec fn digits_value(s: Seq<char>) -> nat
    decreases s.len(),
{
    if s.len() == 0 {
        0
    } else {
        digits_value(s.drop_last()) * 10 + digit_value(s.last())
    }
}

/// The index of the first separator, or the length when there is none.
pub open spec fn first_separator(s: Seq<char>) -> int
    decreases s.len(),
{
    if s.len() == 0 {
        0
    } else if first_separator(s.drop_last()) < s.len() - 1 {
        first_separator(s.drop_last())
    } else if is_separator(s.last()) {
        s.len() - 1
    } else {
        s.len() as int
    }
}

/// Hundredths of a percent written by at most two decimals.
pub open spec fn fraction_value(f: Seq<char>) -> nat {
    if f.len() == 0 {
        0
    } else if f.len() == 1 {
        digit_value(f[0]) * 10
    } else {
        digit_value(f[0]) * 10 + digit_value(f[1])
    }
}

/// A percentage with at most two decimals after one separator, read as basis
/// points; `None` for any other text or a value beyond `u32`. An empty whole
/// or decimal part counts as zero.
pub open spec fn spec_parse_basis_points(s: Seq<char>) -> Option<u32> {
    let p = first_separator(s);
    let whole = s.subrange(0, p);
    let fraction = if p < s.len() {
        s.subrange(p + 1, s.len() as int)
    } else {
        Seq::<char>::empty()
    };
    let value = digits_value(whole) * 100 + fraction_value(fraction);
    if fraction.len() <= 2 && all_digits(whole) && all_digits(fraction) && value <= u32::MAX {
        Some(value as u32)
    } else {
        None
    }
}

proof fn lemma_first_separator_bounds(s: Seq<char>)
    ensures
        0 <= first_separator(s) <= s.len(),
        first_separator(s) < s.len() ==> is_separator(s[first_separator(s)]),
        forall|i: int| 0 <= i < first_separator(s) ==> !is_separator(#[trigger] s[i]),
    decreases s.len(),
{
    if s.len() > 0 {
        lemma_first_separator_bounds(s.drop_last());
        assert forall|i: int| 0 <= i < s.len() - 1 implies s.drop_last()[i] == s[i] by {}
    }
}

fn find_separator(text: &str) -> (p: usize)
    ensures
        p == first_separator(text@),
{
    let n = text.unicode_len();
    let mut i: usize = 0;
    while i < n
        invariant
            0 <= i <= n,
            n == text@.len(),
            first_separator(text@.subrange(0, i as int)) == i,
        decreases n - i,
    {
        let c = text.get_char(i);
        assert(text@.subrange(0, i + 1).drop_last() =~= text@.subrange(0, i as int));
        if c == '.' || c == ',' {
            proof {
                lemma_first_separator_prefix(text@, i + 1);
            }
            return i;
        }
        i = i + 1;
    }
    assert(text@.subrange(0, n as int) =~= text@);
    n
}

proof fn lemma_first_separator_prefix(s: Seq<char>, k: int)
    requires
        0 <= k <= s.len(),
        first_separator(s.subrange(0, k)) < k,
    ensures
        first_separator(s) == first_separator(s.subrange(0, k)),
    decreases s.len(),
{
    if k == s.len() {
        assert(s.subrange(0, k) =~= s);
    } else {
        assert(s.drop_last().subrange(0, k) =~= s.subrange(0, k));
        lemma_first_separator_prefix(s.drop_last(), k);
    }
}

/// One more than `u32::MAX`: every larger whole part is out of range too.
const WHOLE_CAP: u64 = 0x1_0000_0000;

/// The value of the digits in `text[start..end]`, limited to [`WHOLE_CAP`];
/// `None` when a character is not a digit.
fn capped_digits_value(text: &str, start: usize, end: usize) -> (r: Option<u64>)
    requires
        start <= end <= text@.len(),
    ensures
        match r {
            Some(v) => all_digits(text@.subrange(start as int, end as int)) && v == (if digits_value(
                text@.subrange(start as int, end as int),
            ) < WHOLE_CAP {
                digits_value(text@.subrange(start as int, end as int))
            } else {
                WHOLE_CAP as nat
            }),
            None => !all_digits(text@.subrange(start as int, end as int)),
        },
{
    let mut value: u64 = 0;
    let mut i: usize = start;
    while i < end
        invariant
            start <= i <= end,
            end <= text@.len(),
            all_digits(text@.subrange(start as int, i as int)),
            value == (if digits_value(text@.subrange(start as int, i as int)) < WHOLE_CAP {
                digits_value(text@.subrange(start as int, i as int))
            } else {
                WHOLE_CAP as nat
            }),
        decreases end - i,
    {
        let c = text.get_char(i);
        let ghost prefix = text@.subrange(start as int, i as int);
        let ghost next = text@.subrange(start as int, i + 1);
        assert(next.drop_last() =~= prefix);
        assert(next.last() == c);
        if c < '0' || c > '9' {
            assert(!is_ascii_digit(next[next.len() - 1]));
            return None;
        }
        let d = if c == '0' {
            0
        } else if c == '1' {
            1
        } else if c == '2' {
            2
        } else if c == '3' {
            3
        } else if c == '4' {
            4
        } else if c == '5' {
            5
        } else if c == '6' {
            6
        } else if c == '7' {
            7
        } else if c == '8' {
            8
        } else {
            9u64
        };
        assert(d == digit_value(c));
        if value < WHOLE_CAP {
            let grown = value * 10 + d;
            value = if grown < WHOLE_CAP {
                grown
            } else {
                WHOLE_CAP
            };
        }
        assert(all_digits(next)) by {
            assert forall|j: int| 0 <= j < next.len() implies is_ascii_digit(#[trigger] next[j]) by {
                if j < prefix.len() {
                    assert(next[j] == prefix[j]);
                }
            }
        }
        i = i + 1;
    }
    Some(value)
}

/// Reads a percentage such as "5.76", "5,7" or "5." as basis points.
pub fn parse_basis_points_percentage(text: &str) -> (r: Option<u32>)
    ensures
        r == spec_parse_basis_points(text@),
{
    let n = text.unicode_len();
    let p = find_separator(text);
    proof {
        lemma_first_separator_bounds(text@);
    }
    let fraction_start = if p < n {
        p + 1
    } else {
        n
    };
    let ghost fraction = if p < n {
        text@.subrange(p + 1, n as int)
    } else {
        Seq::<char>::empty()
    };
    assert(fraction =~= text@.subrange(fraction_start as int, n as int));
    if n - fraction_start > 2 {
        return None;
    }
    let whole = match capped_digits_value(text, 0, p) {
        Some(whole) => whole,
        None => {
            return None;
        },
    };
    let fraction_digits = match capped_digits_value(text, fraction_start, n) {
        Some(value) => value,
        None => {
            return None;
        },
    };
    if whole >= WHOLE_CAP {
        return None;
    }
    proof {
        if fraction.len() == 1 {
            assert(fraction.drop_last() =~= Seq::<char>::empty());
            assert(digits_value(fraction.drop_last()) == 0);
            assert(digits_value(fraction) == digit_value(fraction[0]));
        } else if fraction.len() == 2 {
            let first = fraction.drop_last();
            assert(first.drop_last() =~= Seq::<char>::empty());
            assert(digits_value(first.drop_last()) == 0);
            assert(first.last() == fraction[0]);
            assert(digits_value(first) == digit_value(fraction[0]));
            assert(digits_value(fraction) == digit_value(fraction[0]) * 10 + digit_value(
                fraction[1],
            ));
        } else {
            assert(fraction.len() == 0);
        }
        assert(digits_value(fraction) < WHOLE_CAP);
    }
    let fraction_points = if n - fraction_start == 1 {
        fraction_digits * 10
    } else {
        fraction_digits
    };
    assert(fraction_points == fraction_value(fraction));
    let total = whole * 100 + fraction_points;
    if total > u32::MAX as u64 {
        None
    } else {
        Some(total as u32)
    }
}

/// The state of [`sanitize_percentage_text`] after a prefix of the input:
/// the text kept so far, whether a separator was kept, and how many decimals.
pub open spec fn sanitize_state(s: Seq<char>) -> (Seq<char>, bool, nat)
    decreases s.len(),
{
    if s.len() == 0 {
        (Seq::empty(), false, 0)
    } else {
        let (kept, separated, decimals) = sanitize_state(s.drop_last());
        let c = s.last();
        if is_ascii_digit(c) {
            if !separated || decimals < 2 {
                (kept.push(c), separated, if separated {
                    decimals + 1
                } else {
                    decimals
                })
            } else {
                (kept, separated, decimals)
            }
        } else if is_separator(c) && !separated {
            (kept.push('.'), true, decimals)
        } else {
            (kept, separated, decimals)
        }
    }
}

/// Keeps what a percentage field accepts while typing: digits, the first
/// separator written as a point, and at most two decimals after it.
pub fn sanitize_percentage_text(input: &str) -> (s: String)
    ensures
        s@ == sanitize_state(input@).0,
{
    let n = input.unicode_len();
    let mut output = String::new();
    let mut has_separator = false;
    let mut fractional_digits: u32 = 0;
    let mut i: usize = 0;
    while i < n
        invariant
            0 <= i <= n,
            n == input@.len(),
            sanitize_state(input@.subrange(0, i as int)) == (
                output@,
                has_separator,
                fractional_digits as nat,
            ),
            fractional_digits <= 2,
        decreases n - i,
    {
        let c = input.get_char(i);
        assert(input@.subrange(0, i + 1).drop_last() =~= input@.subrange(0, i as int));
        if '0' <= c && c <= '9' {
            if !has_separator || fractional_digits < 2 {
                push_char(&mut output, c);
                if has_separator {
                    fractional_digits = fractional_digits + 1;
                }
            }
        } else if (c == '.' || c == ',') && !has_separator {
            push_char(&mut output, '.');
            has_separator = true;
        }
        i = i + 1;
    }
    assert(input@.subrange(0, n as int) =~= input@);
    output
}

// ---------------------------------------------------------------------------
// Names and descriptions
// ---------------------------------------------------------------------------

/// The English name of a month; out-of-range months are clamped to 1..=12.
pub open spec fn spec_month_name(month: u8) -> Seq<char> {
    if month <= 1 {
        "January"@
    } else if month == 2 {
        "February"@
    } else if month == 3 {
        "March"@
    } else if month == 4 {
        "April"@
    } else if month == 5 {
        "May"@
    } else if month == 6 {
        "June"@
    } else if month == 7 {
        "July"@
    } else if month == 8 {
        "August"@
    } else if month == 9 {
        "September"@
    } else if month == 10 {
        "October"@
    } else if month == 11 {
        "November"@
    } else {
        "December"@
    }
}

pub fn month_name(month: u8) -> (s: &'static str)
    ensures
        s@ == spec_month_name(month),
{
    if month <= 1 {
        "January"
    } else if month == 2 {
        "February"
    } else if month == 3 {
        "March"
    } else if month == 4 {
        "April"
    } else if month == 5 {
        "May"
    } else if month == 6 {
        "June"
    } else if month == 7 {
        "July"
    } else if month == 8 {
        "August"
    } else if month == 9 {
        "September"
    } else if month == 10 {
        "October"
    } else if month == 11 {
        "November"
    } else {
        "December"
    }
}

pub fn income_kind_short(kind: IncomeKind) -> (s: &'static str)
    ensures
        s@ == (match kind {
            IncomeKind::AnnualSalary => "Annual salary"@,
            IncomeKind::MonthlySalary => "Monthly salary"@,
            IncomeKind::OneTimeSalary => "One-time salary"@,
            IncomeKind::MonthlyOccupationalPension => "Monthly tjänstepension"@,
            IncomeKind::AnnualOccupationalPension => "Annual tjänstepension"@,
            IncomeKind::OwnCompanyDividend => "Own-AB dividend"@,
        }),
{
    match kind {
        IncomeKind::AnnualSalary => "Annual salary",
        IncomeKind::MonthlySalary => "Monthly salary",
        IncomeKind::OneTimeSalary => "One-time salary",
        IncomeKind::MonthlyOccupationalPension => "Monthly tjänstepension",
        IncomeKind::AnnualOccupationalPension => "Annual tjänstepension",
        IncomeKind::OwnCompanyDividend => "Own-AB dividend",
    }
}

/// Which income bases a kind of income builds, in short.
pub fn income_eligibility_short(kind: IncomeKind) -> (s: &'static str)
    ensures
        s@ == (if spec_is_recurring_salary(kind) {
            "PGI + SGI"@
        } else if spec_is_salary(kind) {
            "PGI"@
        } else {
            "—"@
        }),
{
    match (kind.is_pgi_eligible(), kind.is_sgi_eligible()) {
        (true, true) => "PGI + SGI",
        (true, false) => "PGI",
        _ => "—",
    }
}

/// Which income bases a kind of income builds.
pub fn income_eligibility(kind: IncomeKind) -> (s: &'static str)
    ensures
        s@ == (if spec_is_recurring_salary(kind) {
            "PGI eligible · SGI estimate eligible"@
        } else if spec_is_salary(kind) {
            "PGI eligible · does not establish ongoing SGI"@
        } else {
            "PGI — · SGI —"@
        }),
{
    match (kind.is_pgi_eligible(), kind.is_sgi_eligible()) {
        (true, true) => "PGI eligible · SGI estimate eligible",
        (true, false) => "PGI eligible · does not establish ongoing SGI",
        _ => "PGI — · SGI —",
    }
}

pub fn dividend_allowance_issue_text(issue: DividendAllowanceIssue) -> (s: &'static str)
    ensures
        s@ == (match issue {
            DividendAllowanceIssue::OwnershipExceedsOneHundredPercent => "Your ownership in one company cannot exceed 100%."@,
            DividendAllowanceIssue::SpouseOwnershipExceedsCompany => "Your and your spouse's combined ownership cannot exceed 100%."@,
            DividendAllowanceIssue::PersonalSalaryExceedsCompanyPayroll => "Owner or related-person salary cannot exceed the total company/group payroll."@,
            DividendAllowanceIssue::MissingAcquisitionCostInterestRate => "The exact 2027 acquisition-cost interest rate is not known until the government borrowing rate for 30 November 2026 has been established."@,
        }),
{
    match issue {
        DividendAllowanceIssue::OwnershipExceedsOneHundredPercent => "Your ownership in one company cannot exceed 100%.",
        DividendAllowanceIssue::SpouseOwnershipExceedsCompany => "Your and your spouse's combined ownership cannot exceed 100%.",
        DividendAllowanceIssue::PersonalSalaryExceedsCompanyPayroll => "Owner or related-person salary cannot exceed the total company/group payroll.",
        DividendAllowanceIssue::MissingAcquisitionCostInterestRate => "The exact 2027 acquisition-cost interest rate is not known until the government borrowing rate for 30 November 2026 has been established.",
    }
}

pub open spec fn spec_rule_text(rule: AppliedWithholding) -> Seq<char> {
    match rule {
        AppliedWithholding::ActualAmount => "entered actual amount"@,
        AppliedWithholding::Table(column) => "table column "@ + decimal(column_number(column)),
        AppliedWithholding::TableAndOneTime(column, percent) => "table column "@ + decimal(
            column_number(column),
        ) + " plus one-time-payment table at "@ + decimal(percent as nat) + "%"@,
        AppliedWithholding::OneTimeTable(percent) => "one-time-payment table at "@ + decimal(
            percent as nat,
        ) + "%"@,
        AppliedWithholding::Secondary30 => "secondary payer at "@ + decimal(30) + "%"@,
        AppliedWithholding::AdjustmentPercent(percent) => "percentage jämkning at "@ + decimal(
            percent as nat,
        ) + "%"@,
        AppliedWithholding::NoWithholding => "no preliminary withholding"@,
    }
}

/// How an entry's withholding was decided, in words.
pub fn withholding_rule_text(rule: AppliedWithholding) -> (s: String)
    ensures
        s@ == spec_rule_text(rule),
{
    let mut text = String::new();
    match rule {
        AppliedWithholding::ActualAmount => push_str(&mut text, "entered actual amount"),
        AppliedWithholding::Table(column) => {
            push_str(&mut text, "table column ");
            push_decimal(&mut text, column.number() as u32);
        },
        AppliedWithholding::TableAndOneTime(column, percent) => {
            push_str(&mut text, "table column ");
            push_decimal(&mut text, column.number() as u32);
            push_str(&mut text, " plus one-time-payment table at ");
            push_decimal(&mut text, percent);
            push_str(&mut text, "%");
        },
        AppliedWithholding::OneTimeTable(percent) => {
            push_str(&mut text, "one-time-payment table at ");
            push_decimal(&mut text, percent);
            push_str(&mut text, "%");
        },
        AppliedWithholding::Secondary30 => {
            push_str(&mut text, "secondary payer at ");
            push_decimal(&mut text, crate::pension::SECONDARY_WITHHOLDING_PERCENT);
            push_str(&mut text, "%");
        },
        AppliedWithholding::AdjustmentPercent(percent) => {
            push_str(&mut text, "percentage jämkning at ");
            push_decimal(&mut text, percent);
            push_str(&mut text, "%");
        },
        AppliedWithholding::NoWithholding => push_str(&mut text, "no preliminary withholding"),
    }
    assert(text@ =~= spec_rule_text(rule));
    text
}

/// An income-basis estimate in words: "x of y", or why there is none.
pub fn income_basis_trace_value(estimate: IncomeBasisEstimate) -> (s: String)
    ensures
        s@ == (match estimate {
            IncomeBasisEstimate::Estimated(progress) => spec_format_sek(progress.estimated_basis)
                + " of "@ + spec_format_sek(progress.maximum_basis),
            IncomeBasisEstimate::NotBasedOnSelectedIncome => "Not based on selected income"@,
            IncomeBasisEstimate::RequiresAdditionalInformation => "Requires additional information"@,
        }),
{
    match estimate {
        IncomeBasisEstimate::Estimated(progress) => {
            let mut text = format_sek(progress.estimated_basis);
            push_str(&mut text, " of ");
            let maximum = format_sek(progress.maximum_basis);
            push_str(&mut text, maximum.as_str());
            text
        },
        IncomeBasisEstimate::NotBasedOnSelectedIncome => "Not based on selected income".to_owned(),
        IncomeBasisEstimate::RequiresAdditionalInformation => "Requires additional information".to_owned(),
    }
}

// ---------------------------------------------------------------------------
// Explanations of a plan's figures
// ---------------------------------------------------------------------------

fn push_sek(text: &mut String, value: u32)
    ensures
        final(text)@ == old(text)@ + spec_format_sek(value),
{
    push_grouped(text, value);
    push_str(text, " SEK");
    assert(final(text)@ =~= old(text)@ + spec_format_sek(value));
}

pub open spec fn spec_period_text(e: IncomeEntry) -> Seq<char> {
    spec_month_name(e.start.month) + " "@ + decimal(e.start.day as nat) + " – "@
        + spec_month_name(e.end.month) + " "@ + decimal(e.end.day as nat)
}

/// The payment period as entered, as in "January 1 – October 18".
pub fn entry_period_text(entry: &IncomeEntry) -> (s: String)
    ensures
        s@ == spec_period_text(*entry),
{
    let mut text = String::new();
    push_str(&mut text, month_name(entry.start.month));
    push_str(&mut text, " ");
    push_decimal(&mut text, entry.start.day as u32);
    push_str(&mut text, " – ");
    push_str(&mut text, month_name(entry.end.month));
    push_str(&mut text, " ");
    push_decimal(&mut text, entry.end.day as u32);
    assert(text@ =~= spec_period_text(*entry));
    text
}

pub open spec fn spec_cash_income_equation(e: IncomeEntry) -> Seq<char> {
    let base = spec_annual_amount(e);
    let vacation = spec_vacation_compensation_amount(e);
    let exchange = spec_sacrifice(e);
    let base_text = if spec_is_monthly(e.kind) {
        spec_format_sek(e.amount) + "/month over "@ + spec_period_text(e) + " = "@
            + spec_format_sek(base)
    } else {
        "Entered amount "@ + spec_format_sek(base)
    };
    let with_vacation = if vacation > 0 {
        base_text + " + "@ + spec_format_sek(vacation) + " vacation compensation"@
    } else {
        base_text
    };
    if exchange > 0 {
        with_vacation + " − "@ + spec_format_sek(exchange) + " salary exchange"@
    } else {
        with_vacation
    }
}

/// How the cash amount used for tax is made up: the base amount, plus vacation
/// compensation, minus salary given up in an exchange.
pub fn cash_income_equation(entry: &IncomeEntry) -> (s: String)
    ensures
        s@ == spec_cash_income_equation(*entry),
{
    let base = entry.annual_amount();
    let vacation = entry.vacation_compensation_amount();
    let exchange = entry.salary_exchange_sacrifice();
    let mut text = String::new();
    if entry.kind.is_monthly() {
        push_sek(&mut text, entry.amount);
        push_str(&mut text, "/month over ");
        let period = entry_period_text(entry);
        push_str(&mut text, period.as_str());
        push_str(&mut text, " = ");
        push_sek(&mut text, base);
    } else {
        push_str(&mut text, "Entered amount ");
        push_sek(&mut text, base);
    }
    let ghost base_text = text@;
    if vacation > 0 {
        push_str(&mut text, " + ");
        push_sek(&mut text, vacation);
        push_str(&mut text, " vacation compensation");
    }
    let ghost with_vacation = text@;
    if exchange > 0 {
        push_str(&mut text, " − ");
        push_sek(&mut text, exchange);
        push_str(&mut text, " salary exchange");
    }
    proof {
        if spec_is_monthly(entry.kind) {
            assert(base_text =~= spec_format_sek(entry.amount) + "/month over "@ + spec_period_text(
                *entry,
            ) + " = "@ + spec_format_sek(base));
        } else {
            assert(base_text =~= "Entered amount "@ + spec_format_sek(base));
        }
        if vacation > 0 {
            assert(with_vacation =~= base_text + " + "@ + spec_format_sek(vacation)
                + " vacation compensation"@);
        }
        if exchange > 0 {
            assert(text@ =~= with_vacation + " − "@ + spec_format_sek(exchange)
                + " salary exchange"@);
        }
    }
    text
}

pub open spec fn spec_withholding_base_text(
    e: IncomeEntry,
    w: EntryWithholding,
    table: u8,
    annual_work_income: u32,
) -> Seq<char> {
    match w.rule {
        AppliedWithholding::ActualAmount => "Actual tax withheld entered for this income row"@,
        AppliedWithholding::Table(column) => if spec_is_monthly(e.kind) {
            "Table "@ + decimal(table as nat) + ", column "@ + decimal(column_number(column))
                + ", summed for each paid month"@
        } else {
            "Table "@ + decimal(table as nat) + ", column "@ + decimal(column_number(column))
                + ", annual amount divided by 12 and applied for 12 months"@
        },
        AppliedWithholding::TableAndOneTime(column, percent) => spec_format_sek(w.regular_withheld)
            + " regular table withholding (table "@ + decimal(table as nat) + ", column "@ + decimal(
            column_number(column),
        ) + ") + "@ + spec_format_sek(spec_vacation_compensation_amount(e)) + " vacation × "@
            + decimal(percent as nat) + "% (rate selected from "@ + spec_format_sek(
            annual_work_income,
        ) + " annual work income)"@,
        AppliedWithholding::OneTimeTable(percent) => spec_format_sek(w.gross) + " × one-time table "@
            + decimal(percent as nat) + "% (rate selected from "@ + spec_format_sek(
            annual_work_income,
        ) + " annual work income)"@,
        AppliedWithholding::Secondary30 => spec_format_sek(w.gross) + " × secondary-payer "@
            + decimal(30) + "%"@,
        AppliedWithholding::AdjustmentPercent(percent) => spec_format_sek(w.gross)
            + " × percentage jämkning "@ + decimal(percent as nat) + "%"@,
        AppliedWithholding::NoWithholding => "No preliminary withholding for this income type"@,
    }
}

pub open spec fn spec_withholding_equation(
    e: IncomeEntry,
    w: EntryWithholding,
    table: u8,
    annual_work_income: u32,
) -> Seq<char> {
    let base = spec_withholding_base_text(e, w, table, annual_work_income);
    if w.additional_withheld > 0 {
        base + " + "@ + spec_format_sek(w.additional_withheld) + " voluntary extra withholding"@
    } else {
        base
    }
}

/// How an entry's estimated withholding was calculated, in words.
pub fn withholding_equation(
    entry: &IncomeEntry,
    estimate: EntryWithholding,
    table: u8,
    annual_work_income: u32,
) -> (s: String)
    ensures
        s@ == spec_withholding_equation(*entry, estimate, table, annual_work_income),
{
    let mut text = String::new();
    match estimate.rule {
        AppliedWithholding::ActualAmount => {
            push_str(&mut text, "Actual tax withheld entered for this income row");
        },
        AppliedWithholding::Table(column) => {
            push_str(&mut text, "Table ");
            push_decimal(&mut text, table as u32);
            push_str(&mut text, ", column ");
            push_decimal(&mut text, column.number() as u32);
            if entry.kind.is_monthly() {
                push_str(&mut text, ", summed for each paid month");
            } else {
                push_str(&mut text, ", annual amount divided by 12 and applied for 12 months");
            }
        },
        AppliedWithholding::TableAndOneTime(column, percent) => {
            push_sek(&mut text, estimate.regular_withheld);
            push_str(&mut text, " regular table withholding (table ");
            push_decimal(&mut text, table as u32);
            push_str(&mut text, ", column ");
            push_decimal(&mut text, column.number() as u32);
            push_str(&mut text, ") + ");
            push_sek(&mut text, entry.vacation_compensation_amount());
            push_str(&mut text, " vacation × ");
            push_decimal(&mut text, percent);
            push_str(&mut text, "% (rate selected from ");
            push_sek(&mut text, annual_work_income);
            push_str(&mut text, " annual work income)");
        },
        AppliedWithholding::OneTimeTable(percent) => {
            push_sek(&mut text, estimate.gross);
            push_str(&mut text, " × one-time table ");
            push_decimal(&mut text, percent);
            push_str(&mut text, "% (rate selected from ");
            push_sek(&mut text, annual_work_income);
            push_str(&mut text, " annual work income)");
        },
        AppliedWithholding::Secondary30 => {
            push_sek(&mut text, estimate.gross);
            push_str(&mut text, " × secondary-payer ");
            push_decimal(&mut text, crate::pension::SECONDARY_WITHHOLDING_PERCENT);
            push_str(&mut text, "%");
        },
        AppliedWithholding::AdjustmentPercent(percent) => {
            push_sek(&mut text, estimate.gross);
            push_str(&mut text, " × percentage jämkning ");
            push_decimal(&mut text, percent);
            push_str(&mut text, "%");
        },
        AppliedWithholding::NoWithholding => {
            push_str(&mut text, "No preliminary withholding for this income type");
        },
    }
    let ghost base = text@;
    assert(base =~= spec_withholding_base_text(*entry, estimate, table, annual_work_income));
    if estimate.additional_withheld > 0 {
        push_str(&mut text, " + ");
        push_sek(&mut text, estimate.additional_withheld);
        push_str(&mut text, " voluntary extra withholding");
        assert(text@ =~= base + " + "@ + spec_format_sek(estimate.additional_withheld)
            + " voluntary extra withholding"@);
    }
    text
}

/// What to tell a user about a plan that cannot be calculated.
pub fn validation_message(issue: Option<IncomePlanValidationIssue>) -> (s: String)
    ensures
        s@ == (match issue {
            Some(IncomePlanValidationIssue::InvalidPaymentPeriod { .. }) => "Check that each payment period's last day is on or after its first day."@,
            Some(IncomePlanValidationIssue::SalaryExchangeExceedsAllowance { maximum, .. }) => "Salary exchange exceeds the current maximum of "@ + spec_format_sek(maximum)
                + ". Open the income row and reduce it."@,
            None => "Check the income-plan values and try again."@,
        }),
{
    match issue {
        Some(IncomePlanValidationIssue::InvalidPaymentPeriod { .. }) => "Check that each payment period's last day is on or after its first day.".to_owned(),
        Some(IncomePlanValidationIssue::SalaryExchangeExceedsAllowance { maximum, .. }) => {
            let mut text = "Salary exchange exceeds the current maximum of ".to_owned();
            push_sek(&mut text, maximum);
            push_str(&mut text, ". Open the income row and reduce it.");
            text
        },
        None => "Check the income-plan values and try again.".to_owned(),
    }
}

/// Unicode White_Space, as `char::is_whitespace` documents it.
pub open spec fn is_whitespace(c: char) -> bool {
    ||| '\u{9}' <= c <= '\u{d}'
    ||| c == ' '
    ||| c == '\u{85}'
    ||| c == '\u{a0}'
    ||| c == '\u{1680}'
    ||| '\u{2000}' <= c <= '\u{200a}'
    ||| c == '\u{2028}'
    ||| c == '\u{2029}'
    ||| c == '\u{202f}'
    ||| c == '\u{205f}'
    ||| c == '\u{3000}'
}

fn char_is_whitespace(c: char) -> (b: bool)
    ensures
        b == is_whitespace(c),
{
    ('\u{9}' <= c && c <= '\u{d}') || c == ' ' || c == '\u{85}' || c == '\u{a0}' || c == '\u{1680}'
        || ('\u{2000}' <= c && c <= '\u{200a}') || c == '\u{2028}' || c == '\u{2029}' || c
        == '\u{202f}' || c == '\u{205f}' || c == '\u{3000}'
}

/// `s` without leading and trailing whitespace: the part from the first to the
/// last character that is not whitespace, or nothing.
pub open spec fn trimmed(s: Seq<char>) -> Seq<char> {
    if forall|i: int| 0 <= i < s.len() ==> is_whitespace(#[trigger] s[i]) {
        Seq::empty()
    } else {
        let first = choose|a: int|
            0 <= a < s.len() && !is_whitespace(s[a]) && forall|i: int|
                0 <= i < a ==> is_whitespace(#[trigger] s[i]);
        let last = choose|b: int|
            0 <= b < s.len() && !is_whitespace(s[b]) && forall|i: int|
                b < i < s.len() ==> is_whitespace(#[trigger] s[i]);
        s.subrange(first, last + 1)
    }
}

/// The name of an income row: its description without surrounding
/// whitespace, or "Income n" for the row at zero-based `index` when that is empty.
pub fn income_entry_name(entry: &IncomeEntry, index: usize) -> (s: String)
    requires
        index < usize::MAX,
    ensures
        s@ == (if trimmed(entry.description@).len() == 0 {
            "Income "@ + decimal(index as nat + 1)
        } else {
            trimmed(entry.description@)
        }),
{
    let d = entry.description.as_str();
    let n = d.unicode_len();
    let mut first: usize = 0;
    while first < n
        invariant
            0 <= first <= n,
            n == d@.len(),
            forall|i: int| 0 <= i < first ==> is_whitespace(#[trigger] d@[i]),
        ensures
            0 <= first <= n,
            forall|i: int| 0 <= i < first ==> is_whitespace(#[trigger] d@[i]),
            first < n ==> !is_whitespace(d@[first as int]),
        decreases n - first,
    {
        if !char_is_whitespace(d.get_char(first)) {
            break;
        }
        first = first + 1;
    }
    if first == n {
        let mut text = "Income ".to_owned();
        push_decimal_usize(&mut text, index + 1);
        return text;
    }
    let mut end: usize = n;
    while end > first + 1
        invariant
            first < end <= n,
            n == d@.len(),
            !is_whitespace(d@[first as int]),
            forall|i: int| end <= i < n ==> is_whitespace(#[trigger] d@[i]),
        ensures
            first < end <= n,
            forall|i: int| end <= i < n ==> is_whitespace(#[trigger] d@[i]),
            end == first + 1 || !is_whitespace(d@[end - 1]),
        decreases end,
    {
        if !char_is_whitespace(d.get_char(end - 1)) {
            break;
        }
        end = end - 1;
    }
    let ghost a = first as int;
    let ghost b = end - 1;
    proof {
        if b > a {
            assert(!is_whitespace(d@[b]));
        }
        let fa = choose|a: int|
            0 <= a < d@.len() && !is_whitespace(d@[a]) && forall|i: int|
                0 <= i < a ==> is_whitespace(#[trigger] d@[i]);
        let lb = choose|b: int|
            0 <= b < d@.len() && !is_whitespace(d@[b]) && forall|i: int|
                b < i < d@.len() ==> is_whitespace(#[trigger] d@[i]);
        assert(0 <= a < d@.len() && !is_whitespace(d@[a]) && forall|i: int|
            0 <= i < a ==> is_whitespace(#[trigger] d@[i]));
        assert(fa == a) by {
            if fa < a {
                assert(is_whitespace(d@[fa]));
            }
            if fa > a {
                assert(is_whitespace(d@[a]));
            }
        }
        assert(0 <= b < d@.len() && !is_whitespace(d@[b]) && forall|i: int|
            b < i < d@.len() ==> is_whitespace(#[trigger] d@[i]));
        assert(lb == b) by {
            if lb < b {
                assert(is_whitespace(d@[b]));
            }
            if lb > b {
                assert(is_whitespace(d@[lb]));
            }
        }
        assert(!(forall|i: int| 0 <= i < d@.len() ==> is_whitespace(#[trigger] d@[i])));
    }
    let mut text = String::new();
    let mut i: usize = first;
    while i < end
        invariant
            first <= i <= end <= n,
            n == d@.len(),
            text@ == d@.subrange(first as int, i as int),
        decreases end - i,
    {
        push_char(&mut text, d.get_char(i));
        assert(d@.subrange(first as int, i + 1) =~= d@.subrange(first as int, i as int).push(
            d@[i as int],
        ));
        i = i + 1;
    }
    text
}

fn push_decimal_usize(text: &mut String, v: usize)
    ensures
        final(text)@ == old(text)@ + decimal(v as nat),
    decreases v,
{
    if v >= 10 {
        push_decimal_usize(text, v / 10);
    }
    push_digit(text, (v % 10) as u32);
    proof {
        if v >= 10 {
            assert(old(text)@ + decimal((v / 10) as nat) + seq![digit_char((v % 10) as int)]
                =~= old(text)@ + decimal(v as nat));
        } else {
            assert(old(text)@.push(digit_char((v % 10) as int)) =~= old(text)@ + decimal(v as nat));
        }
    }
}

// ---------------------------------------------------------------------------
// Laws
// ---------------------------------------------------------------------------

proof fn lemma_digit_char(d: int)
    requires
        0 <= d < 10,
    ensures
        is_ascii_digit(digit_char(d)),
        digit_value(digit_char(d)) == d,
        !is_separator(digit_char(d)),
{
}

proof fn lemma_decimal(v: nat)
    ensures
        decimal(v).len() >= 1,
        all_digits(decimal(v)),
        digits_value(decimal(v)) == v,
    decreases v,
{
    if v < 10 {
        lemma_digit_char(v as int);
        assert(decimal(v).drop_last() =~= Seq::<char>::empty());
        assert(digits_value(decimal(v).drop_last()) == 0);
    } else {
        lemma_decimal(v / 10);
        lemma_digit_char((v % 10) as int);
        let d = decimal(v);
        assert(d.drop_last() =~= decimal(v / 10));
        assert forall|i: int| 0 <= i < d.len() implies is_ascii_digit(#[trigger] d[i]) by {
            if i < d.len() - 1 {
                assert(d[i] == decimal(v / 10)[i]);
            }
        }
    }
}

proof fn lemma_digits_have_no_separator(s: Seq<char>)
    requires
        all_digits(s),
    ensures
        first_separator(s) == s.len(),
    decreases s.len(),
{
    if s.len() > 0 {
        assert(all_digits(s.drop_last())) by {
            assert forall|i: int| 0 <= i < s.drop_last().len() implies is_ascii_digit(
                #[trigger] s.drop_last()[i],
            ) by {
                assert(s.drop_last()[i] == s[i]);
            }
        }
        lemma_digits_have_no_separator(s.drop_last());
        assert(is_ascii_digit(s[s.len() - 1]));
    }
}

/// Reading back a formatted percentage gives the same basis points: the text
/// conversion is exact in both directions.
pub proof fn lemma_basis_points_round_trip(basis_points: u32)
    ensures
        spec_parse_basis_points(spec_basis_points_text(basis_points)) == Some(basis_points),
{
    let whole_value = (basis_points / 100) as nat;
    let fraction = basis_points % 100;
    let w = decimal(whole_value);
    let text = spec_basis_points_text(basis_points);
    lemma_decimal(whole_value);
    lemma_digits_have_no_separator(w);
    if fraction == 0 {
        assert(text.subrange(0, text.len() as int) =~= text);
    } else {
        let tail = if fraction % 10 == 0 {
            seq!['.', digit_char((fraction / 10) as int)]
        } else {
            seq!['.', digit_char((fraction / 10) as int), digit_char((fraction % 10) as int)]
        };
        assert(text =~= w + tail);
        let k = w.len() as int;
        assert(text.subrange(0, k + 1) =~= w.push('.'));
        assert(w.push('.').drop_last() =~= w);
        lemma_first_separator_prefix(text, k + 1);
        assert(first_separator(text) == k);
        assert(text.subrange(0, k) =~= w);
        let f = text.subrange(k + 1, text.len() as int);
        lemma_digit_char((fraction / 10) as int);
        lemma_digit_char((fraction % 10) as int);
        assert(f =~= tail.subrange(1, tail.len() as int));
        assert(all_digits(f));
        assert(fraction_value(f) == fraction);
    }
}
} // verus!
