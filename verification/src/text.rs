//! Byte-level helpers for the fixed-width table source: whitespace trimming and
//! unsigned decimal parsing with the semantics of `str::trim` followed by
//! `u32::from_str` on ASCII input.
use vstd::prelude::*;

verus! {

/// ASCII whitespace as recognised by `char::is_whitespace`.
pub open spec fn is_space(b: u8) -> bool {
    b == 9 || b == 10 || b == 11 || b == 12 || b == 13 || b == 32
}

pub open spec fn is_digit(b: u8) -> bool {
    48 <= b <= 57
}

/// Index of the first non-whitespace byte at or after `i` (or `s.len()`).
pub open spec fn first_non_space(s: Seq<u8>, i: int) -> int
    decreases s.len() - i,
{
    if i >= s.len() {
        s.len() as int
    } else if is_space(s[i]) {
        first_non_space(s, i + 1)
    } else {
        i
    }
}

/// End (exclusive) of the last non-whitespace byte before `j` (or 0).
pub open spec fn last_non_space_end(s: Seq<u8>, j: int) -> int
    decreases j,
{
    if j <= 0 {
        0
    } else if is_space(s[j - 1]) {
        last_non_space_end(s, j - 1)
    } else {
        j
    }
}

/// `s` without leading and trailing whitespace.
pub open spec fn trim(s: Seq<u8>) -> Seq<u8> {
    let a = first_non_space(s, 0);
    if a >= s.len() {
        Seq::empty()
    } else {
        s.subrange(a, last_non_space_end(s, s.len() as int))
    }
}

/// Decimal value of a sequence of ASCII digits.
pub open spec fn digits_value(d: Seq<u8>) -> nat
    decreases d.len(),
{
    if d.len() == 0 {
        0
    } else {
        digits_value(d.drop_last()) * 10 + (d.last() - 48) as nat
    }
}

pub open spec fn all_digits(d: Seq<u8>) -> bool {
    forall|i: int| 0 <= i < d.len() ==> is_digit(#[trigger] d[i])
}

/// `u32::from_str`: an optional `+` followed by at least one digit, in range.
pub open spec fn parse_u32(t: Seq<u8>) -> Option<u32> {
    let d = if t.len() > 0 && t[0] == 43 {
        t.drop_first()
    } else {
        t
    };
    if d.len() > 0 && all_digits(d) && digits_value(d) <= u32::MAX {
        Some(digits_value(d) as u32)
    } else {
        None
    }
}

proof fn lemma_first_non_space_bounds(s: Seq<u8>, i: int)
    requires
        0 <= i <= s.len(),
    ensures
        i <= first_non_space(s, i) <= s.len(),
        forall|k: int| i <= k < first_non_space(s, i) ==> is_space(#[trigger] s[k]),
        first_non_space(s, i) < s.len() ==> !is_space(s[first_non_space(s, i)]),
    decreases s.len() - i,
{
    if i < s.len() && is_space(s[i]) {
        lemma_first_non_space_bounds(s, i + 1);
    }
}

proof fn lemma_last_non_space_bounds(s: Seq<u8>, j: int)
    requires
        0 <= j <= s.len(),
    ensures
        0 <= last_non_space_end(s, j) <= j,
        forall|k: int| last_non_space_end(s, j) <= k < j ==> is_space(#[trigger] s[k]),
        last_non_space_end(s, j) > 0 ==> !is_space(s[last_non_space_end(s, j) - 1]),
    decreases j,
{
    if j > 0 && is_space(s[j - 1]) {
        lemma_last_non_space_bounds(s, j - 1);
    }
}

/// A field whose first non-whitespace byte exists trims to a non-empty value.
pub proof fn lemma_trim_nonempty(s: Seq<u8>, a: int)
    requires
        0 <= a < s.len(),
        first_non_space(s, 0) == first_non_space(s, a),
        !is_space(s[a]),
    ensures
        trim(s).len() > 0,
{
    lemma_first_non_space_bounds(s, 0);
    lemma_last_non_space_bounds(s, s.len() as int);
    assert(first_non_space(s, a) == a);
    if last_non_space_end(s, s.len() as int) <= a {
        assert(is_space(s[a]));
    }
}

proof fn lemma_digits_value_step(d: Seq<u8>, k: int)
    requires
        0 <= k < d.len(),
    ensures
        digits_value(d.take(k + 1)) == digits_value(d.take(k)) * 10 + (d[k] - 48) as nat,
{
    assert(d.take(k + 1).drop_last() =~= d.take(k));
}

proof fn lemma_digits_value_grows(d: Seq<u8>, k: int)
    requires
        0 <= k <= d.len(),
        all_digits(d),
    ensures
        digits_value(d.take(k)) <= digits_value(d),
    decreases d.len() - k,
{
    if k < d.len() {
        lemma_digits_value_step(d, k);
        lemma_digits_value_grows(d, k + 1);
    } else {
        assert(d.take(k) =~= d);
    }
}

/// Parses `s[start..end]` as `str::trim` followed by `u32::from_str` would.
pub fn parse_trimmed_u32(s: &[u8], start: usize, end: usize) -> (r: Option<u32>)
    requires
        start <= end <= s@.len(),
    ensures
        r == parse_u32(trim(s@.subrange(start as int, end as int))),
{
    let ghost f = s@.subrange(start as int, end as int);
    let mut a = start;
    while a < end && (s[a] == 9 || s[a] == 10 || s[a] == 11 || s[a] == 12 || s[a] == 13
        || s[a] == 32)
        invariant
            start <= a <= end <= s@.len(),
            f == s@.subrange(start as int, end as int),
            first_non_space(f, 0) == first_non_space(f, a - start),
        decreases end - a,
    {
        a = a + 1;
    }
    proof {
        lemma_first_non_space_bounds(f, 0);
    }
    if a == end {
        proof {
            assert(trim(f) =~= Seq::<u8>::empty());
        }
        return None;
    }
    let mut b = end;
    while b > a && (s[b - 1] == 9 || s[b - 1] == 10 || s[b - 1] == 11 || s[b - 1] == 12
        || s[b - 1] == 13 || s[b - 1] == 32)
        invariant
            start <= a < end <= s@.len(),
            a < b + 1,
            b <= end,
            f == s@.subrange(start as int, end as int),
            first_non_space(f, 0) == a - start,
            !is_space(s@[a as int]),
            a < b,
            last_non_space_end(f, f.len() as int) == last_non_space_end(f, b - start),
        decreases b,
    {
        b = b - 1;
    }
    proof {
        lemma_last_non_space_bounds(f, (b - start) as int);
    }
    let ghost t = trim(f);
    assert(t =~= s@.subrange(a as int, b as int));
    let mut i = a;
    if s[a] == 43 {
        i = a + 1;
    }
    let ghost d = s@.subrange(i as int, b as int);
    assert(d == (if t.len() > 0 && t[0] == 43 { t.drop_first() } else { t }));
    if i == b {
        return None;
    }
    assert(parse_u32(trim(s@.subrange(start as int, end as int))) == (if d.len() > 0 && all_digits(d)
        && digits_value(d) <= u32::MAX {
        Some(digits_value(d) as u32)
    } else {
        None
    }));
    let mut value: u64 = 0;
    let mut k = i;
    while k < b
        invariant
            a <= i <= k <= b <= s@.len(),
            i < b,
            d == s@.subrange(i as int, b as int),
            parse_u32(trim(s@.subrange(start as int, end as int))) == (if d.len() > 0 && all_digits(
                d,
            ) && digits_value(d) <= u32::MAX {
                Some(digits_value(d) as u32)
            } else {
                None
            }),
            all_digits(d.take(k - i)),
            value == digits_value(d.take(k - i)),
            value <= u32::MAX,
        decreases b - k,
    {
        let c = s[k];
        assert(c == d[k - i]);
        if c < 48 || c > 57 {
            proof {
                assert(!is_digit(d[k - i]));
                assert(!all_digits(d));
            }
            return None;
        }
        proof {
            lemma_digits_value_step(d, (k - i) as int);
            assert forall|j: int| 0 <= j < k - i + 1 implies is_digit(#[trigger] d.take(k - i + 1)[j]) by {
                if j < k - i {
                    assert(d.take(k - i + 1)[j] == d.take(k - i)[j]);
                }
            }
        }
        let next = value * 10 + (c - 48) as u64;
        if next > 4294967295 {
            proof {
                assert(digits_value(d.take(k - i + 1)) == next);
                // any longer run of digits is at least as large
                if all_digits(d) {
                    lemma_digits_value_grows(d, (k - i + 1) as int);
                }
            }
            return None;
        }
        value = next;
        k = k + 1;
    }
    proof {
        assert(d.take(k - i) =~= d);
    }
    Some(value as u32)
}

} // verus!
