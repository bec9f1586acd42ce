//! Fixed-point arithmetic helpers.
//!
//! The controller measures lengths and speeds in thousandths of a world unit
//! (milli-units), times in microseconds and dimensionless factors in
//! thousandths. Scaling a quantity by such a factor is a multiply followed by
//! a truncating divide on the magnitude, with the sign carried through.

use vstd::prelude::*;

verus! {

/// Magnitude of `v` as a mathematical integer.
pub open spec fn spec_abs(v: int) -> int {
    if v >= 0 {
        v
    } else {
        -v
    }
}

/// `v * num / den`, dividing the magnitude and keeping the sign of `v`.
pub open spec fn spec_scale(v: int, num: int, den: int) -> int {
    if v >= 0 {
        (v * num) / den
    } else {
        -((-v * num) / den)
    }
}

/// `v` clamped into `[lo, hi]`.
pub open spec fn spec_clamp(v: int, lo: int, hi: int) -> int {
    if v < lo {
        lo
    } else if v > hi {
        hi
    } else {
        v
    }
}

/// Sign of `v`: `-1`, `0` or `1`.
pub open spec fn spec_sign(v: int) -> int {
    if v > 0 {
        1
    } else if v < 0 {
        -1
    } else {
        0
    }
}

/// Scales `v` by the ratio `num / den`, truncating the magnitude toward zero.
pub fn scale(v: i64, num: u64, den: u64) -> (r: i64)
    requires
        0 < den,
        spec_abs(v as int) <= 0x4000_0000_0000_0000,
        num <= 0x4000_0000_0000_0000,
        spec_scale(v as int, num as int, den as int) <= i64::MAX,
        -spec_scale(v as int, num as int, den as int) <= i64::MAX,
    ensures
        r == spec_scale(v as int, num as int, den as int),
{
    if v >= 0 {
        proof {
            assert((v as int) * (num as int) <= 0x4000_0000_0000_0000 * 0x4000_0000_0000_0000)
                by (nonlinear_arith)
                requires
                    0 <= v as int <= 0x4000_0000_0000_0000,
                    0 <= num as int <= 0x4000_0000_0000_0000,
            ;
        }
        let mag: u128 = (v as u128) * (num as u128);
        let q: u128 = mag / (den as u128);
        q as i64
    } else {
        let neg: i64 = -v;
        proof {
            assert((neg as int) * (num as int) <= 0x4000_0000_0000_0000 * 0x4000_0000_0000_0000)
                by (nonlinear_arith)
                requires
                    0 <= neg as int <= 0x4000_0000_0000_0000,
                    0 <= num as int <= 0x4000_0000_0000_0000,
            ;
        }
        let mag: u128 = (neg as u128) * (num as u128);
        let q: u128 = mag / (den as u128);
        -(q as i64)
    }
}

/// Clamps `v` into `[lo, hi]`.
pub fn clamp(v: i64, lo: i64, hi: i64) -> (r: i64)
    requires
        lo <= hi,
    ensures
        r == spec_clamp(v as int, lo as int, hi as int),
{
    if v < lo {
        lo
    } else if v > hi {
        hi
    } else {
        v
    }
}

/// Magnitude of `v`.
pub fn abs64(v: i64) -> (r: i64)
    requires
        v != i64::MIN,
    ensures
        r == spec_abs(v as int),
{
    if v >= 0 {
        v
    } else {
        -v
    }
}

/// Sign of `v`: `-1`, `0` or `1`.
pub fn sign64(v: i64) -> (r: i64)
    ensures
        r == spec_sign(v as int),
{
    if v > 0 {
        1
    } else if v < 0 {
        -1
    } else {
        0
    }
}

/// Bounds on a scaled value: the scaled magnitude times the denominator
/// never exceeds the original magnitude times the numerator, and a ratio
/// of at most one never grows the magnitude.
pub proof fn lemma_scale_magnitude(v: int, num: int, den: int)
    requires
        0 < den,
        0 <= num,
    ensures
        spec_abs(spec_scale(v, num, den)) * den <= spec_abs(v) * num,
        0 <= spec_abs(spec_scale(v, num, den)),
        num <= den ==> spec_abs(spec_scale(v, num, den)) <= spec_abs(v),
        v >= 0 ==> spec_scale(v, num, den) == spec_abs(spec_scale(v, num, den)),
        v < 0 ==> spec_scale(v, num, den) == -spec_abs(spec_scale(v, num, den)),
{
    let a = spec_abs(v);
    let q = (a * num) / den;
    vstd::arithmetic::mul::lemma_mul_nonnegative(a, num);
    vstd::arithmetic::div_mod::lemma_div_pos_is_pos(a * num, den);
    vstd::arithmetic::div_mod::lemma_remainder_lower(a * num, den);
    assert(spec_abs(spec_scale(v, num, den)) == q);
    if num <= den {
        vstd::arithmetic::mul::lemma_mul_inequality(num, den, a);
        vstd::arithmetic::mul::lemma_mul_is_commutative(a, num);
        vstd::arithmetic::mul::lemma_mul_is_commutative(a, den);
        vstd::arithmetic::div_mod::lemma_div_is_ordered(a * num, a * den, den);
        vstd::arithmetic::div_mod::lemma_div_multiples_vanish(a, den);
        vstd::arithmetic::mul::lemma_mul_is_commutative(den, a);
    }
}

/// The integer square root of a nonnegative `n`: the unique `r >= 0` with
/// `r * r <= n < (r + 1) * (r + 1)`.
pub open spec fn spec_isqrt(n: int) -> int {
    choose|r: int| r >= 0 && #[trigger] (r * r) <= n < (r + 1) * (r + 1)
}

/// A witness pins the integer square root down.
pub proof fn lemma_isqrt_unique(n: int, r: int)
    requires
        0 <= r,
        r * r <= n,
        n < (r + 1) * (r + 1),
    ensures
        spec_isqrt(n) == r,
{
    assert(r >= 0 && r * r <= n < (r + 1) * (r + 1));
    let c = spec_isqrt(n);
    assert(c >= 0 && c * c <= n < (c + 1) * (c + 1)) by {
        assert(exists|q: int| q >= 0 && #[trigger] (q * q) <= n < (q + 1) * (q + 1)) by {
            assert(r >= 0 && r * r <= n < (r + 1) * (r + 1));
        }
    }
    assert(c == r) by (nonlinear_arith)
        requires
            c >= 0,
            c * c <= n,
            n < (c + 1) * (c + 1),
            r >= 0,
            r * r <= n,
            n < (r + 1) * (r + 1),
    ;
}

/// Integer square root: the greatest `r` with `r * r <= n`.
pub fn isqrt(n: u64) -> (r: u64)
    ensures
        r * r <= n,
        n < (r + 1) * (r + 1),
        r == spec_isqrt(n as int),
{
    let mut lo: u64 = 0;
    let mut hi: u64 = 0x1_0000_0000;
    while lo + 1 < hi
        invariant
            lo < hi <= 0x1_0000_0000,
            lo * lo <= n,
            n < hi * hi,
        decreases hi - lo,
    {
        let mid: u64 = lo + (hi - lo) / 2;
        proof {
            assert((mid as int) * (mid as int) <= 0x1_0000_0000 * 0x1_0000_0000)
                by (nonlinear_arith)
                requires
                    0 <= mid as int <= 0x1_0000_0000,
            ;
        }
        let sq: u128 = (mid as u128) * (mid as u128);
        if sq <= n as u128 {
            lo = mid;
        } else {
            hi = mid;
        }
    }
    proof {
        lemma_isqrt_unique(n as int, lo as int);
    }
    lo
}

} // verus!
