//! Arithmetic helpers for the movement core: sign, truncating division,
//! clamping, and an integer square root used for dash distances.
//!
//! Quantities are fixed-point: `SCALE` sub-units make one world unit and
//! one second, so products must be divided back by `SCALE`. Division here
//! truncates toward zero, like Rust's `/` on signed integers.

use vstd::prelude::*;
use vstd::arithmetic::div_mod::{lemma_div_pos_is_pos, lemma_div_nonincreasing};

verus! {

/// Mathematical sign of an integer: -1, 0 or 1.
pub open spec fn sgn(x: int) -> int {
    if x > 0 {
        1
    } else if x < 0 {
        -1
    } else {
        0
    }
}

/// Executable sign, matching `sgn`.
pub fn sgn_i64(x: i64) -> (r: i64)
    ensures
        r == sgn(x as int),
{
    if x > 0 {
        1
    } else if x < 0 {
        -1
    } else {
        0
    }
}

/// Division rounding toward zero, as Rust's `/` does on signed integers.
/// Meaningful for positive divisors only.
pub open spec fn div_trunc(x: int, d: int) -> int {
    if x >= 0 {
        x / d
    } else {
        -((-x) / d)
    }
}

/// For a positive divisor, truncating division never grows the magnitude
/// and keeps the sign.
pub proof fn lemma_div_trunc_bounds(x: int, d: int)
    requires
        d >= 1,
    ensures
        x >= 0 ==> 0 <= div_trunc(x, d) <= x,
        x < 0 ==> x <= div_trunc(x, d) <= 0,
{
    if x >= 0 {
        lemma_div_pos_is_pos(x, d);
        lemma_div_nonincreasing(x, d);
    } else {
        lemma_div_pos_is_pos(-x, d);
        lemma_div_nonincreasing(-x, d);
    }
}

/// Truncating division of nonnegative values is monotone in the numerator.
pub proof fn lemma_div_trunc_ordered(x: int, y: int, d: int)
    requires
        0 <= x <= y,
        d >= 1,
    ensures
        div_trunc(x, d) <= div_trunc(y, d),
{
    vstd::arithmetic::div_mod::lemma_div_is_ordered(x, y, d);
}

/// A numerator bounded in magnitude gives a quotient bounded in magnitude
/// by the bound's quotient.
pub proof fn lemma_div_trunc_abs_le(x: int, b: int, d: int)
    requires
        d >= 1,
        -b <= x <= b,
    ensures
        -div_trunc(b, d) <= div_trunc(x, d) <= div_trunc(b, d),
{
    lemma_div_trunc_bounds(x, d);
    lemma_div_trunc_bounds(b, d);
    if x >= 0 {
        lemma_div_trunc_ordered(x, b, d);
    } else {
        lemma_div_trunc_ordered(-x, b, d);
    }
}

/// Executable truncating division for a positive divisor.
pub fn div_fx(n: i64, d: i64) -> (r: i64)
    requires
        d >= 1,
    ensures
        r == div_trunc(n as int, d as int),
        n >= 0 ==> 0 <= r <= n,
        n < 0 ==> n <= r <= 0,
{
    proof {
        lemma_div_trunc_bounds(n as int, d as int);
    }
    n.checked_div(d).unwrap()
}

/// A product of bounded factors is bounded by the product of the bounds.
pub proof fn lemma_mul_bounds(a: int, b: int, ab: int, bb: int)
    requires
        -ab <= a <= ab,
        -bb <= b <= bb,
        ab >= 0,
        bb >= 0,
    ensures
        -(ab * bb) <= a * b <= ab * bb,
{
    assert(-(ab * bb) <= a * b <= ab * bb) by (nonlinear_arith)
        requires
            -ab <= a <= ab,
            -bb <= b <= bb,
            ab >= 0,
            bb >= 0,
    ;
}

/// Dividing a value no larger in magnitude than `c * d` by `d` gives a
/// quotient no larger in magnitude than `c`.
pub proof fn lemma_div_trunc_ratio(x: int, d: int, c: int)
    requires
        d >= 1,
        c >= 0,
        -(c * d) <= x <= c * d,
    ensures
        -c <= div_trunc(x, d) <= c,
{
    lemma_div_trunc_bounds(x, d);
    if x >= 0 {
        assert(x / d <= c) by (nonlinear_arith)
            requires
                d >= 1,
                c >= 0,
                x >= 0,
                x <= c * d,
        ;
    } else {
        assert((-x) / d <= c) by (nonlinear_arith)
            requires
                d >= 1,
                c >= 0,
                -x >= 0,
                -x <= c * d,
        ;
    }
}

/// Clamp of an integer to a closed interval.
pub open spec fn clamp(v: int, lo: int, hi: int) -> int {
    if v < lo {
        lo
    } else if v > hi {
        hi
    } else {
        v
    }
}

/// Executable clamp, matching `clamp`.
pub fn clamp_i64(v: i64, lo: i64, hi: i64) -> (r: i64)
    requires
        lo <= hi,
    ensures
        r == clamp(v as int, lo as int, hi as int),
{
    if v < lo {
        lo
    } else if v > hi {
        hi
    } else {
        v
    }
}

/// Absolute value that stays in `i64`.
pub fn abs_i64(x: i64) -> (r: i64)
    requires
        x > i64::MIN,
    ensures
        r == vstd::math::abs(x as int),
{
    if x < 0 {
        -x
    } else {
        x
    }
}

/// Largest `r` with `r * r <= n`: the floor of the square root.
pub open spec fn sqrt_floor(n: nat) -> nat
    decreases n,
{
    if n == 0 {
        0
    } else {
        let p = sqrt_floor((n - 1) as nat);
        if (p + 1) * (p + 1) <= n {
            p + 1
        } else {
            p
        }
    }
}

/// `sqrt_floor(n)` squared is at most `n`, and the next square is above it.
pub proof fn lemma_sqrt_floor_bounds(n: nat)
    ensures
        sqrt_floor(n) * sqrt_floor(n) <= n,
        n < (sqrt_floor(n) + 1) * (sqrt_floor(n) + 1),
    decreases n,
{
    if n == 0 {
        assert(sqrt_floor(n) == 0);
        assert((sqrt_floor(n) + 1) * (sqrt_floor(n) + 1) == 1) by (nonlinear_arith)
            requires
                sqrt_floor(n) == 0,
        ;
    } else {
        lemma_sqrt_floor_bounds((n - 1) as nat);
        let p = sqrt_floor((n - 1) as nat);
        if (p + 1) * (p + 1) <= n {
            assert(sqrt_floor(n) == p + 1);
            assert(n < (p + 2) * (p + 2)) by (nonlinear_arith)
                requires
                    n <= (p + 1) * (p + 1),
                    p >= 0,
            ;
            assert(sqrt_floor(n) * sqrt_floor(n) <= n);
            assert(n < (sqrt_floor(n) + 1) * (sqrt_floor(n) + 1));
        } else {
            assert(sqrt_floor(n) == p);
            assert(p * p <= n);
            assert(sqrt_floor(n) * sqrt_floor(n) <= n);
            assert(n < (sqrt_floor(n) + 1) * (sqrt_floor(n) + 1));
        }
    }
}

/// Any `r` with `r * r <= n < (r + 1) * (r + 1)` is `sqrt_floor(n)`.
pub proof fn lemma_sqrt_floor_unique(n: nat, r: nat)
    requires
        r * r <= n,
        n < (r + 1) * (r + 1),
    ensures
        r == sqrt_floor(n),
{
    lemma_sqrt_floor_bounds(n);
    let s = sqrt_floor(n);
    if r < s {
        assert((r + 1) * (r + 1) <= s * s) by (nonlinear_arith)
            requires
                r + 1 <= s,
                r >= 0,
        ;
    }
    if s < r {
        assert((s + 1) * (s + 1) <= r * r) by (nonlinear_arith)
            requires
                s + 1 <= r,
                s >= 0,
        ;
    }
}

/// Binary search for the floor of the square root of a `u128`.
pub fn isqrt_u128(n: u128) -> (r: u64)
    requires
        (n as int) < 0xffff_ffff_ffff_ffff * 0xffff_ffff_ffff_ffff,
    ensures
        r * r <= n,
        (n as int) < (r + 1) * (r + 1),
        r as nat == sqrt_floor(n as nat),
{
    let mut lo: u64 = 0;
    let mut hi: u64 = 0xffff_ffff_ffff_ffff;
    while hi - lo > 1
        invariant
            lo < hi,
            (lo as int) * (lo as int) <= n as int,
            (n as int) < (hi as int) * (hi as int),
        decreases hi - lo,
    {
        let mid = lo + (hi - lo) / 2;
        proof {
            assert((mid as int) * (mid as int) < 0x1_0000_0000_0000_0000_0000_0000_0000_0000int)
                by (nonlinear_arith)
                requires
                    0 <= (mid as int) <= 0xffff_ffff_ffff_ffff,
            ;
        }
        if (mid as u128) * (mid as u128) <= n {
            lo = mid;
        } else {
            hi = mid;
        }
    }
    proof {
        lemma_sqrt_floor_unique(n as nat, lo as nat);
    }
    lo
}

/// Euclidean distance, rounded down, between two points in space given by
/// their coordinates.
pub open spec fn dist3(ax: int, ay: int, az: int, bx: int, by: int, bz: int) -> int {
    sqrt_floor(((bx - ax) * (bx - ax) + (by - ay) * (by - ay) + (bz - az) * (bz - az)) as nat) as int
}

/// Executable distance between two points, matching `dist3`.
pub fn dist3_i64(ax: i64, ay: i64, az: i64, bx: i64, by: i64, bz: i64) -> (r: i64)
    requires
        -1_000_000_000_000_000 <= ax <= 1_000_000_000_000_000,
        -1_000_000_000_000_000 <= ay <= 1_000_000_000_000_000,
        -1_000_000_000_000_000 <= az <= 1_000_000_000_000_000,
        -1_000_000_000_000_000 <= bx <= 1_000_000_000_000_000,
        -1_000_000_000_000_000 <= by <= 1_000_000_000_000_000,
        -1_000_000_000_000_000 <= bz <= 1_000_000_000_000_000,
    ensures
        r == dist3(ax as int, ay as int, az as int, bx as int, by as int, bz as int),
        0 <= r <= 4_000_000_000_000_000,
{
    let dx = abs_i64(bx - ax) as u64;
    let dy = abs_i64(by - ay) as u64;
    let dz = abs_i64(bz - az) as u64;
    proof {
        assert((dx as int) * (dx as int) == ((bx - ax) as int) * ((bx - ax) as int)
            && (dx as int) * (dx as int) <= 4_000_000_000_000_000_000_000_000_000_000int)
            by (nonlinear_arith)
            requires
                dx == vstd::math::abs((bx - ax) as int),
                -2_000_000_000_000_000 <= (bx - ax) as int <= 2_000_000_000_000_000,
        ;
        assert((dy as int) * (dy as int) == ((by - ay) as int) * ((by - ay) as int)
            && (dy as int) * (dy as int) <= 4_000_000_000_000_000_000_000_000_000_000int)
            by (nonlinear_arith)
            requires
                dy == vstd::math::abs((by - ay) as int),
                -2_000_000_000_000_000 <= (by - ay) as int <= 2_000_000_000_000_000,
        ;
        assert((dz as int) * (dz as int) == ((bz - az) as int) * ((bz - az) as int)
            && (dz as int) * (dz as int) <= 4_000_000_000_000_000_000_000_000_000_000int)
            by (nonlinear_arith)
            requires
                dz == vstd::math::abs((bz - az) as int),
                -2_000_000_000_000_000 <= (bz - az) as int <= 2_000_000_000_000_000,
        ;
    }
    let sq: u128 = (dx as u128) * (dx as u128) + (dy as u128) * (dy as u128) + (dz as u128) * (dz
        as u128);
    let r = isqrt_u128(sq);
    proof {
        assert(r <= 4_000_000_000_000_000) by (nonlinear_arith)
            requires
                (r as int) * (r as int) <= sq as int,
                sq as int <= 12_000_000_000_000_000_000_000_000_000_000int,
                r >= 0,
        ;
    }
    r as i64
}

} // verus!
