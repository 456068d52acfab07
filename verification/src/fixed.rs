//! Fixed-point arithmetic helpers.
//!
//! World coordinates and trigonometric samples are scaled integers
//! ([`crate::FP`] units per pixel, or per unit of a ratio). The ray march
//! divides scaled quantities; [`div_trunc`] is that division, rounding
//! toward zero as exact real division followed by dropping the fraction
//! would.

use vstd::prelude::*;

verus! {

/// Absolute value, as a mathematical integer.
pub open spec fn spec_abs(a: int) -> int {
    if a < 0 {
        -a
    } else {
        a
    }
}

/// Quotient of `a` and `b` with the fraction dropped: the magnitudes are
/// divided and the quotient carries the sign of the exact ratio.
pub open spec fn spec_div_trunc(a: int, b: int) -> int {
    let q = spec_abs(a) / spec_abs(b);
    if (a < 0) != (b < 0) {
        -q
    } else {
        q
    }
}

/// Magnitude of `a` as an unsigned value.
fn abs_u64(a: i64) -> (r: u64)
    requires
        a != i64::MIN,
    ensures
        r == spec_abs(a as int),
{
    if a < 0 {
        (-a) as u64
    } else {
        a as u64
    }
}

/// Divides `a` by `b`, rounding toward zero.
pub fn div_trunc(a: i64, b: i64) -> (r: i64)
    requires
        b != 0,
        a != i64::MIN,
        b != i64::MIN,
    ensures
        r == spec_div_trunc(a as int, b as int),
        spec_abs(r as int) <= spec_abs(a as int),
{
    let am = abs_u64(a);
    let bm = abs_u64(b);
    let q = am / bm;
    proof {
        vstd::arithmetic::div_mod::lemma_div_nonincreasing(am as int, bm as int);
        vstd::arithmetic::div_mod::lemma_div_pos_is_pos(am as int, bm as int);
    }
    if (a < 0) != (b < 0) {
        -(q as i64)
    } else {
        q as i64
    }
}

/// If the magnitude of `a` is at most `m` times that of `b`, the
/// truncated quotient of `a` and `b` has magnitude at most `m`.
pub proof fn lemma_div_trunc_bound(a: int, b: int, m: int)
    requires
        b != 0,
        0 <= m,
        spec_abs(a) <= m * spec_abs(b),
    ensures
        spec_abs(spec_div_trunc(a, b)) <= m,
{
    vstd::arithmetic::div_mod::lemma_multiply_divide_le(spec_abs(a), spec_abs(b), m);
}

} // verus!
