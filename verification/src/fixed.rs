//! Fixed-point scalar arithmetic.
//!
//! A scalar is an `i64` holding a world-space value in thousandths of a
//! unit: the world value `v` is stored as `v * SCALE`. Results of the
//! arithmetic helpers saturate at `CAP` (one million world units, a
//! thousand arenas wide), so every operation is total: a simulation can
//! never halt mid-run on an arithmetic fault.

use vstd::prelude::*;

verus! {

/// Number of stored ticks per world unit.
pub const SCALE: i64 = 1000;

/// Saturation bound for stored scalars: one million world units.
pub const CAP: i64 = 1_000_000_000;

/// Largest argument `isqrt64` accepts: two squared `CAP`s, so that the
/// squared norm of any saturated vector is admitted.
pub const NORM_SQ_MAX: u64 = 2_000_000_000_000_000_000;

/// Whether `v` lies within the saturation bound of stored scalars.
pub open spec fn in_range(v: int) -> bool {
    -(CAP as int) <= v <= CAP as int
}

/// `v` pulled back into `[-CAP, CAP]`.
pub open spec fn clamped(v: int) -> int {
    if v > CAP {
        CAP as int
    } else if v < -CAP {
        -CAP as int
    } else {
        v
    }
}

/// Division truncating toward zero (the direction executable `/` rounds),
/// defined for positive divisors.
pub open spec fn tdiv(a: int, b: int) -> int {
    if a >= 0 {
        a / b
    } else {
        -((-a) / b)
    }
}

/// Fixed-point product: `a` times `b` rescaled, truncated toward zero,
/// saturated.
pub open spec fn fmul(a: int, b: int) -> int {
    clamped(tdiv(a * b, SCALE as int))
}

/// Integer square root: the largest `r` with `r * r <= n`.
pub open spec fn isqrt(n: nat) -> nat
    decreases n,
{
    if n == 0 {
        0
    } else {
        let r = isqrt((n - 1) as nat);
        if (r + 1) * (r + 1) <= n {
            r + 1
        } else {
            r
        }
    }
}

/// `isqrt` is characterized by the two-sided square bound.
pub proof fn lemma_isqrt_bounds(n: nat)
    ensures
        isqrt(n) * isqrt(n) <= n,
        n < (isqrt(n) + 1) * (isqrt(n) + 1),
    decreases n,
{
    if n == 0 {
        assert(isqrt(0) == 0);
        assert(n < (isqrt(n) + 1) * (isqrt(n) + 1)) by (nonlinear_arith)
            requires
                n == 0,
                isqrt(n) == 0,
        ;
    } else {
        let m = (n - 1) as nat;
        let r = isqrt(m);
        lemma_isqrt_bounds(m);
        assert(n <= (r + 1) * (r + 1));
        if (r + 1) * (r + 1) <= n {
            assert(isqrt(n) == r + 1);
            assert(n < (r + 1 + 1) * (r + 1 + 1)) by (nonlinear_arith)
                requires
                    n <= (r + 1) * (r + 1),
                    r >= 0,
            ;
            assert(n < (isqrt(n) + 1) * (isqrt(n) + 1));
        } else {
            assert(isqrt(n) == r);
            assert(n < (r + 1) * (r + 1));
            assert(n < (isqrt(n) + 1) * (isqrt(n) + 1));
        }
    }
}

/// Any `r` meeting the two-sided square bound is `isqrt(n)`.
pub proof fn lemma_isqrt_unique(n: nat, r: nat)
    requires
        r * r <= n,
        n < (r + 1) * (r + 1),
    ensures
        r == isqrt(n),
{
    lemma_isqrt_bounds(n);
    let s = isqrt(n);
    assert(r == s) by (nonlinear_arith)
        requires
            r * r <= n,
            n < (r + 1) * (r + 1),
            s * s <= n,
            n < (s + 1) * (s + 1),
    ;
}

/// Saturates a wide intermediate back into a stored scalar.
pub fn clamp_i128(v: i128) -> (r: i64)
    ensures
        r as int == clamped(v as int),
{
    if v > CAP as i128 {
        CAP
    } else if v < -(CAP as i128) {
        -CAP
    } else {
        v as i64
    }
}

/// Quotient of non-negative wide operands.
fn div_nonneg(a: i128, b: i128) -> (q: i128)
    requires
        0 <= a,
        0 < b,
    ensures
        q == a as int / b as int,
{
    ((a as u128) / (b as u128)) as i128
}

/// Truncating division of a wide intermediate by a positive divisor.
pub fn tdiv_i128(a: i128, b: i128) -> (q: i128)
    requires
        0 < b,
        i128::MIN < a,
    ensures
        q == tdiv(a as int, b as int),
{
    if a >= 0 {
        div_nonneg(a, b)
    } else {
        let p = div_nonneg(-a, b);
        assert(p <= -a as int) by {
            assert((-a as int) / (b as int) <= -a as int) by (nonlinear_arith)
                requires
                    0 <= -a as int,
                    0 < b as int,
            ;
        }
        -p
    }
}

/// Fixed-point multiplication, saturated.
pub fn mul_fx(a: i64, b: i64) -> (r: i64)
    ensures
        r as int == fmul(a as int, b as int),
{
    assert(i128::MIN < a as int * b as int <= i128::MAX) by (nonlinear_arith)
        requires
            -0x8000_0000_0000_0000 <= a as int <= 0x7fff_ffff_ffff_ffff,
            -0x8000_0000_0000_0000 <= b as int <= 0x7fff_ffff_ffff_ffff,
    ;
    let p: i128 = (a as i128) * (b as i128);
    clamp_i128(tdiv_i128(p, SCALE as i128))
}

/// Integer square root of a squared norm.
pub fn isqrt64(n: u64) -> (r: u64)
    requires
        n <= NORM_SQ_MAX,
    ensures
        r == isqrt(n as nat),
        r * r <= n,
        r <= 1_500_000_000,
{
    if n == 0 {
        proof {
            assert(isqrt(0) == 0);
        }
        return 0;
    }
    let mut lo: u64 = 0;
    let mut hi: u64 = 1_500_000_000;
    assert((hi * hi) as int > n as int) by (nonlinear_arith)
        requires
            hi == 1_500_000_000int,
            n <= 2_000_000_000_000_000_000int,
    ;
    while lo + 1 < hi
        invariant
            lo < hi <= 1_500_000_000,
            lo * lo <= n,
            n < hi * hi,
        decreases hi - lo,
    {
        let mid: u64 = lo + (hi - lo) / 2;
        assert(lo < mid < hi);
        assert(mid * mid <= 1_500_000_000 * 1_500_000_000) by (nonlinear_arith)
            requires
                0 <= mid as int <= 1_500_000_000,
        ;
        if mid * mid <= n {
            lo = mid;
        } else {
            hi = mid;
        }
    }
    proof {
        assert(n < (lo + 1) * (lo + 1)) by (nonlinear_arith)
            requires
                lo + 1 == hi,
                n < hi * hi,
        ;
        lemma_isqrt_unique(n as nat, lo as nat);
    }
    lo
}

} // verus!
