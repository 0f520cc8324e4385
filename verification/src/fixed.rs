//! Fixed-point arithmetic in micro-units.
//!
//! A quantity `q` in micro-units stands for the real value `q / 1_000_000`.
//! Division always truncates toward zero, matching the behaviour of taking
//! the integer part of the exact ratio.

use vstd::prelude::*;

verus! {

/// One whole unit in micro-units.
pub const MICRO: i64 = 1_000_000;

/// Bound on the magnitude of any physical quantity the library computes with
/// (positions, velocities, accelerations, elapsed time). Generous enough for
/// every real signal, small enough that intermediate products fit in 128 bits.
pub const VALUE_LIMIT: i64 = 1_000_000_000_000;

/// Truncating division (toward zero) of `a` by a positive `b`.
pub open spec fn div_trunc(a: int, b: int) -> int
    recommends
        b > 0,
{
    if a >= 0 {
        a / b
    } else {
        -((-a) / b)
    }
}

/// Magnitude of an integer.
pub open spec fn abs_int(a: int) -> int {
    if a >= 0 {
        a
    } else {
        -a
    }
}

/// Truncating division never increases the magnitude of a quotient bound:
/// if `abs_int(a) <= k * b` then `abs_int(div_trunc(a, b)) <= k`.
pub proof fn lemma_div_trunc_bound(a: int, b: int, k: int)
    requires
        b > 0,
        k >= 0,
        abs_int(a) <= k * b,
    ensures
        abs_int(div_trunc(a, b)) <= k,
{
    if a >= 0 {
        assert(a / b <= k) by (nonlinear_arith)
            requires
                b > 0,
                a >= 0,
                a <= k * b,
        ;
        assert(a / b >= 0) by (nonlinear_arith)
            requires
                b > 0,
                a >= 0,
        ;
    } else {
        assert((-a) / b <= k) by (nonlinear_arith)
            requires
                b > 0,
                a < 0,
                -a <= k * b,
        ;
        assert((-a) / b >= 0) by (nonlinear_arith)
            requires
                b > 0,
                a < 0,
        ;
    }
}

/// `x` limited to the closed interval `[lo, hi]`.
pub open spec fn clamp_int(x: int, lo: int, hi: int) -> int
    recommends
        lo <= hi,
{
    if x < lo {
        lo
    } else if x > hi {
        hi
    } else {
        x
    }
}

/// Clamps `x` into the closed interval `[lo, hi]`.
pub fn clamp_i64(x: i64, lo: i64, hi: i64) -> (r: i64)
    requires
        lo <= hi,
    ensures
        r == clamp_int(x as int, lo as int, hi as int),
        lo <= r <= hi,
{
    if x < lo {
        lo
    } else if x > hi {
        hi
    } else {
        x
    }
}

/// Magnitude of `x` as an unsigned 128-bit value.
fn abs_u128(x: i64) -> (r: u128)
    requires
        -VALUE_LIMIT <= x <= VALUE_LIMIT,
    ensures
        r == abs_int(x as int),
{
    if x >= 0 {
        x as u128
    } else {
        (-x) as u128
    }
}

/// Truncating division of a signed 128-bit numerator by a positive divisor,
/// where both magnitudes are known to be small enough to fit.
pub(crate) fn div_trunc_i128(num: i128, den: u64) -> (r: i128)
    requires
        den > 0,
        abs_int(num as int) <= 0x7fff_ffff_ffff_ffff_ffff_ffff_ffff_ffff,
    ensures
        r as int == div_trunc(num as int, den as int),
{
    if num >= 0 {
        let q: u128 = (num as u128) / (den as u128);
        proof {
            assert(q <= num as u128) by (nonlinear_arith)
                requires
                    den as u128 >= 1,
                    q == (num as u128) / (den as u128),
            ;
        }
        q as i128
    } else {
        let mag: u128 = (-num) as u128;
        let q: u128 = mag / (den as u128);
        proof {
            assert(q <= mag) by (nonlinear_arith)
                requires
                    den as u128 >= 1,
                    q == mag / (den as u128),
            ;
        }
        -(q as i128)
    }
}

/// Scales `a` by the ratio `num / den`, truncating toward zero.
pub fn scale_trunc(a: i64, num: u32, den: u32) -> (r: i64)
    requires
        den > 0,
        -VALUE_LIMIT <= a <= VALUE_LIMIT,
        abs_int(a as int) * num <= VALUE_LIMIT * den,
    ensures
        r as int == div_trunc(a as int * num as int, den as int),
        -VALUE_LIMIT <= r <= VALUE_LIMIT,
{
    let mag: u128 = abs_u128(a);
    let prod: u128 = mag * (num as u128);
    let q: u128 = prod / (den as u128);
    proof {
        assert(q <= VALUE_LIMIT) by (nonlinear_arith)
            requires
                den as u128 >= 1,
                prod <= VALUE_LIMIT * (den as u128),
                q == prod / (den as u128),
                VALUE_LIMIT == 1_000_000_000_000,
        ;
        if a >= 0 {
            assert(prod as int == a as int * num as int);
            assert(div_trunc(a as int * num as int, den as int) == q as int);
        } else {
            assert((-(a as int)) * (num as int) == -(a as int * num as int))
                by (nonlinear_arith);
            assert(prod as int == -(a as int * num as int));
            assert(div_trunc(a as int * num as int, den as int) == -(q as int));
        }
    }
    if a >= 0 {
        q as i64
    } else {
        -(q as i64)
    }
}

/// Scales a micro-unit value by a factor given in parts per million.
pub fn scale_by_ppm(a: i64, ppm: u32) -> (r: i64)
    requires
        ppm <= MICRO,
        -VALUE_LIMIT <= a <= VALUE_LIMIT,
    ensures
        r as int == div_trunc(a as int * ppm as int, MICRO as int),
        -VALUE_LIMIT <= r <= VALUE_LIMIT,
{
    proof {
        assert(abs_int(a as int) * ppm <= VALUE_LIMIT * (MICRO as int)) by (nonlinear_arith)
            requires
                0 <= ppm <= MICRO,
                abs_int(a as int) <= VALUE_LIMIT,
                MICRO == 1_000_000,
                VALUE_LIMIT == 1_000_000_000_000,
        ;
    }
    scale_trunc(a, ppm, MICRO as u32)
}

/// The integer square root: the unique `r` with `r * r <= x < (r+1) * (r+1)`.
pub open spec fn isqrt_spec(x: nat) -> nat {
    choose|r: nat| #[trigger] (r * r) <= x < (r + 1) * (r + 1)
}

/// Two integer square roots of the same value are equal.
pub proof fn lemma_isqrt_unique(x: nat, r1: nat, r2: nat)
    requires
        r1 * r1 <= x < (r1 + 1) * (r1 + 1),
        r2 * r2 <= x < (r2 + 1) * (r2 + 1),
    ensures
        r1 == r2,
{
    assert(r1 == r2) by (nonlinear_arith)
        requires
            r1 * r1 <= x < (r1 + 1) * (r1 + 1),
            r2 * r2 <= x < (r2 + 1) * (r2 + 1),
            r1 >= 0,
            r2 >= 0,
    ;
}

/// Integer square root: the largest `r` with `r * r <= x`.
pub fn isqrt_u64(x: u64) -> (r: u64)
    ensures
        r * r <= x < (r + 1) * (r + 1),
        r == isqrt_spec(x as nat),
{
    let mut lo: u64 = 0;
    let mut hi: u64 = 0x1_0000_0000;
    while hi - lo > 1
        invariant
            lo < hi <= 0x1_0000_0000,
            lo * lo <= x,
            x < hi * hi,
        decreases hi - lo,
    {
        let mid: u64 = lo + (hi - lo) / 2;
        assert(lo < mid < hi);
        proof {
            assert((mid as int) * (mid as int) < 0x1_0000_0000_0000_0000) by (nonlinear_arith)
                requires
                    mid < 0x1_0000_0000,
            ;
        }
        if mid * mid <= x {
            lo = mid;
        } else {
            hi = mid;
        }
    }
    proof {
        assert(exists|r: nat| (#[trigger] (r * r) <= x as nat && (x as nat) < (r + 1) * (r
            + 1))) by {
            assert((lo as nat) * (lo as nat) <= x as nat && (x as nat) < ((lo as nat) + 1) * ((
            lo as nat) + 1));
        }
        lemma_isqrt_unique(x as nat, lo as nat, isqrt_spec(x as nat));
    }
    lo
}

} // verus!
