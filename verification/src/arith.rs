//! Saturating amount arithmetic shared by the income calculations.
use vstd::prelude::*;

verus! {

/// An amount limited to what a `u32` can hold.
pub open spec fn cap_u32(v: int) -> u32 {
    if v <= u32::MAX {
        if v >= 0 {
            v as u32
        } else {
            0
        }
    } else {
        u32::MAX
    }
}

/// `a.saturating_sub(b)`.
pub open spec fn sat_sub(a: u32, b: u32) -> u32 {
    if a >= b {
        (a - b) as u32
    } else {
        0
    }
}

/// `a.saturating_mul(b)`.
pub fn sat_mul(a: u32, b: u32) -> (r: u32)
    ensures
        r == cap_u32(a * b),
{
    proof {
        vstd::arithmetic::mul::lemma_mul_upper_bound(a as int, u32::MAX as int, b as int, u32::MAX as int);
        vstd::arithmetic::mul::lemma_mul_nonnegative(a as int, b as int);
    }
    let product = a as u64 * b as u64;
    if product > u32::MAX as u64 {
        u32::MAX
    } else {
        product as u32
    }
}

} // verus!
