//! The fixed-point scalar of the renderer.
//!
//! A scalar is an `i64` counting millionths of a world unit. `SCALE` raw
//! steps make one unit, and the single raw step is exactly `ETA`, the
//! self-intersection threshold used by the acceleration layer. Products and
//! quotients truncate toward zero, and the square root rounds down; the spec
//! functions in this module state those roundings exactly, and every
//! executable operation is proved to return precisely its spec value.

use vstd::arithmetic::div_mod::{
    lemma_div_is_ordered, lemma_div_is_ordered_by_denominator, lemma_div_nonincreasing,
    lemma_div_pos_is_pos, lemma_fundamental_div_mod, lemma_mod_bound,
};
use vstd::prelude::*;

verus! {

/// Raw steps per world unit: one scalar unit is `SCALE` millionths.
pub const SCALE: i64 = 1_000_000;

/// The error threshold of the renderer: the smallest positive scalar.
pub const ETA: i64 = 1;

/// The error threshold, as a convenience function.
pub fn eta() -> (r: i64)
    ensures
        r == ETA,
{
    ETA
}

/// Division truncating toward zero, for a positive divisor. This is the
/// rounding that the executable scalar operations perform.
pub open spec fn div_down(a: int, b: int) -> int {
    if a >= 0 {
        a / b
    } else {
        -((-a) / b)
    }
}

/// What the fixed-point product of two raw scalars is.
pub open spec fn mul_fx_s(a: int, b: int) -> int {
    div_down(a * b, SCALE as int)
}

/// What the fixed-point quotient of two raw scalars is (positive divisor).
pub open spec fn div_fx_s(a: int, b: int) -> int {
    div_down(a * (SCALE as int), b)
}

/// The integer square root: the unique `r >= 0` with `r * r <= n < (r+1)^2`.
pub open spec fn sqrt_val(n: int) -> int {
    choose|r: int| 0 <= r && #[trigger] (r * r) <= n && n < (r + 1) * (r + 1)
}

/// Fixed-point square root of a nonnegative raw scalar.
pub open spec fn sqrt_fx_s(a: int) -> int {
    sqrt_val(a * (SCALE as int))
}

/// The integer square root is pinned down by its defining inequalities.
pub proof fn lemma_sqrt_is(n: int, r: int)
    requires
        0 <= r,
        r * r <= n,
        n < (r + 1) * (r + 1),
    ensures
        r == sqrt_val(n),
{
    assert(exists|x: int| 0 <= x && #[trigger] (x * x) <= n && n < (x + 1) * (x + 1)) by {
        assert(0 <= r && r * r <= n && n < (r + 1) * (r + 1));
    }
    let c = sqrt_val(n);
    assert(0 <= c && c * c <= n && n < (c + 1) * (c + 1));
    if c < r {
        assert(false) by (nonlinear_arith)
            requires
                0 <= c,
                c < r,
                r * r <= n,
                n < (c + 1) * (c + 1),
        ;
    }
    if r < c {
        assert(false) by (nonlinear_arith)
            requires
                0 <= r,
                r < c,
                c * c <= n,
                n < (r + 1) * (r + 1),
        ;
    }
}

/// Magnitude bound for a product from magnitude bounds on the factors.
pub proof fn lemma_mul_mag(a: int, b: int, ma: int, mb: int)
    requires
        -ma <= a <= ma,
        -mb <= b <= mb,
        0 <= ma,
        0 <= mb,
    ensures
        -(ma * mb) <= a * b <= ma * mb,
{
    assert(-(ma * mb) <= a * b <= ma * mb) by (nonlinear_arith)
        requires
            -ma <= a <= ma,
            -mb <= b <= mb,
            0 <= ma,
            0 <= mb,
    ;
}

/// Truncating division does not increase magnitude.
pub proof fn lemma_div_down_mag(a: int, b: int, m: int)
    requires
        b >= 1,
        -m <= a <= m,
        0 <= m,
    ensures
        -m <= div_down(a, b) <= m,
{
    if a >= 0 {
        lemma_div_pos_is_pos(a, b);
        lemma_div_nonincreasing(a, b);
    } else {
        lemma_div_pos_is_pos(-a, b);
        lemma_div_nonincreasing(-a, b);
    }
}

/// A fixed-point product bounded through a bound on the integer product.
pub proof fn lemma_mul_fx_s_bound(a: int, b: int, m: int)
    requires
        0 <= m,
        -(m * 1_000_000) <= a * b <= m * 1_000_000,
    ensures
        -m <= mul_fx_s(a, b) <= m,
{
    let p = a * b;
    if p >= 0 {
        lemma_div_pos_is_pos(p, 1_000_000);
        lemma_div_is_ordered(p, m * 1_000_000, 1_000_000);
        assert((m * 1_000_000) / 1_000_000 == m) by (nonlinear_arith);
    } else {
        lemma_div_pos_is_pos(-p, 1_000_000);
        lemma_div_is_ordered(-p, m * 1_000_000, 1_000_000);
        assert((m * 1_000_000) / 1_000_000 == m) by (nonlinear_arith);
    }
}

/// A fixed-point product, rescaled, misses the integer product by less
/// than one scale step in either direction.
pub proof fn lemma_mul_fx_err(a: int, b: int)
    ensures
        a * b - 1_000_000 < 1_000_000 * mul_fx_s(a, b),
        1_000_000 * mul_fx_s(a, b) < a * b + 1_000_000,
{
    let x = a * b;
    let q = div_down(x, 1_000_000);
    if x >= 0 {
        lemma_fundamental_div_mod(x, 1_000_000);
        lemma_mod_bound(x, 1_000_000);
        assert(1_000_000 * q == x - x % 1_000_000);
    } else {
        lemma_fundamental_div_mod(-x, 1_000_000);
        lemma_mod_bound(-x, 1_000_000);
        assert(q == -((-x) / 1_000_000));
        assert(1_000_000 * q == x + (-x) % 1_000_000) by (nonlinear_arith)
            requires
                q == -((-x) / 1_000_000),
                1_000_000 * ((-x) / 1_000_000) == (-x) - (-x) % 1_000_000,
        ;
    }
}

/// A truncated quotient, scaled back by its divisor, misses the dividend
/// by less than the divisor in either direction.
pub proof fn lemma_div_scale_err(x: int, m: int)
    requires
        1 <= m,
    ensures
        x - m < div_down(x, m) * m,
        div_down(x, m) * m < x + m,
{
    let q = div_down(x, m);
    if x >= 0 {
        lemma_fundamental_div_mod(x, m);
        lemma_mod_bound(x, m);
        assert(q * m == x - x % m) by (nonlinear_arith)
            requires
                q == x / m,
                m * (x / m) == x - x % m,
        ;
    } else {
        lemma_fundamental_div_mod(-x, m);
        lemma_mod_bound(-x, m);
        assert(q == -((-x) / m));
        assert(q * m == x + (-x) % m) by (nonlinear_arith)
            requires
                q == -((-x) / m),
                m * ((-x) / m) == (-x) - (-x) % m,
        ;
    }
}

/// Range bound for a product with a nonnegative left factor.
pub proof fn lemma_mul_range(a: int, b: int, ma: int, lo: int, hi: int)
    requires
        0 <= a <= ma,
        lo <= b <= hi,
        lo <= 0 <= hi,
    ensures
        ma * lo <= a * b <= ma * hi,
{
    assert(ma * lo <= a * b <= ma * hi) by (nonlinear_arith)
        requires
            0 <= a <= ma,
            lo <= b <= hi,
            lo <= 0 <= hi,
    ;
}

/// A fixed-point product bounded through an asymmetric range on the
/// integer product.
pub proof fn lemma_mul_fx_s_range(a: int, b: int, lo: int, hi: int)
    requires
        lo <= 0 <= hi,
        lo * 1_000_000 <= a * b <= hi * 1_000_000,
    ensures
        lo <= mul_fx_s(a, b) <= hi,
{
    let p = a * b;
    if p >= 0 {
        lemma_div_pos_is_pos(p, 1_000_000);
        lemma_div_is_ordered(p, hi * 1_000_000, 1_000_000);
        assert((hi * 1_000_000) / 1_000_000int == hi) by (nonlinear_arith);
    } else {
        lemma_div_pos_is_pos(-p, 1_000_000);
        lemma_div_is_ordered(-p, (-lo) * 1_000_000, 1_000_000);
        assert(((-lo) * 1_000_000) / 1_000_000int == -lo) by (nonlinear_arith);
    }
}

/// A fixed-point quotient bounded through a numerator bound and a lower
/// bound on the positive divisor.
pub proof fn lemma_div_fx_mag_denom(a: int, b: int, ma: int, mb: int)
    requires
        1 <= mb <= b,
        -ma <= a * 1_000_000 <= ma,
        0 <= ma,
    ensures
        -(ma / mb) <= div_fx_s(a, b) <= ma / mb,
{
    let p = a * 1_000_000;
    if p >= 0 {
        lemma_div_pos_is_pos(p, b);
        lemma_div_is_ordered(p, ma, b);
        lemma_div_is_ordered_by_denominator(ma, mb, b);
        lemma_div_pos_is_pos(ma, mb);
    } else {
        lemma_div_pos_is_pos(-p, b);
        lemma_div_is_ordered(-p, ma, b);
        lemma_div_is_ordered_by_denominator(ma, mb, b);
        lemma_div_pos_is_pos(ma, mb);
    }
}

/// A product of nonnegative scalars keeps a nonnegative fixed-point value.
pub proof fn lemma_mul_fx_s_nonneg(a: int, b: int)
    requires
        0 <= a,
        0 <= b,
    ensures
        0 <= mul_fx_s(a, b),
{
    assert(0 <= a * b) by (nonlinear_arith)
        requires
            0 <= a,
            0 <= b,
    ;
    lemma_div_pos_is_pos(a * b, 1_000_000);
}

/// Division of a nonnegative scalar by a positive one, exact against the
/// mathematical quotient.
pub fn div_pos(a: i64, b: i64) -> (r: i64)
    requires
        0 <= a,
        1 <= b,
    ensures
        r == (a as int) / (b as int),
        0 <= r <= a,
{
    proof {
        lemma_div_pos_is_pos(a as int, b as int);
        lemma_div_nonincreasing(a as int, b as int);
    }
    (((a as u64) / (b as u64)) as i64)
}

/// Plain division of a scalar by a positive scalar, truncating toward
/// zero (the averaging step of the pixel driver).
pub fn div_trunc(a: i64, b: i64) -> (r: i64)
    requires
        b >= 1,
        -0x7fff_ffff_ffff_ffff <= a,
    ensures
        r == div_down(a as int, b as int),
{
    proof {
        if a >= 0 {
            lemma_div_pos_is_pos(a as int, b as int);
            lemma_div_nonincreasing(a as int, b as int);
        } else {
            lemma_div_pos_is_pos(-(a as int), b as int);
            lemma_div_nonincreasing(-(a as int), b as int);
        }
    }
    if a >= 0 {
        (((a as u64) / (b as u64)) as i64)
    } else {
        -((((-a) as u64) / (b as u64)) as i64)
    }
}

/// Fixed-point multiplication: exact down to its truncation.
pub fn mul_fx(a: i64, b: i64) -> (r: i64)
    requires
        -(9_223_372_036_854_775_807 * 1_000_000) <= (a as int) * (b as int)
            <= 9_223_372_036_854_775_807 * 1_000_000,
    ensures
        r == mul_fx_s(a as int, b as int),
{
    proof {
        lemma_mul_mag(a as int, b as int, 0x8000_0000_0000_0000, 0x8000_0000_0000_0000);
    }
    let p: i128 = (a as i128) * (b as i128);
    proof {
        lemma_div_down_mag(
            (a as int) * (b as int),
            1_000_000int,
            9_223_372_036_854_775_807int * 1_000_000,
        );
        if p >= 0 {
            lemma_div_is_ordered(p as int, 9_223_372_036_854_775_807int * 1_000_000, 1_000_000int);
            lemma_div_pos_is_pos(p as int, 1_000_000);
        } else {
            lemma_div_is_ordered(-(p as int), 9_223_372_036_854_775_807int * 1_000_000, 1_000_000int);
            lemma_div_pos_is_pos(-(p as int), 1_000_000);
        }
        assert((9_223_372_036_854_775_807int * 1_000_000) / 1_000_000int
            == 9_223_372_036_854_775_807) by (nonlinear_arith);
    }
    let r: i128 = if p >= 0 {
        (((p as u128) / 1_000_000u128) as i128)
    } else {
        -((((-p) as u128) / 1_000_000u128) as i128)
    };
    r as i64
}

/// Fixed-point division by a positive scalar: exact down to its truncation.
pub fn div_fx(a: i64, b: i64) -> (r: i64)
    requires
        b >= 1,
        -9_223_372_036_854_775_807 <= (a as int) * 1_000_000 <= 9_223_372_036_854_775_807,
    ensures
        r == div_fx_s(a as int, b as int),
{
    let num: i64 = a * SCALE;
    proof {
        lemma_div_down_mag(num as int, b as int, 9_223_372_036_854_775_807);
        if num >= 0 {
            lemma_div_pos_is_pos(num as int, b as int);
            lemma_div_nonincreasing(num as int, b as int);
        } else {
            lemma_div_pos_is_pos(-(num as int), b as int);
            lemma_div_nonincreasing(-(num as int), b as int);
        }
    }
    if num >= 0 {
        (((num as u64) / (b as u64)) as i64)
    } else {
        -((((-num) as u64) / (b as u64)) as i64)
    }
}

/// Fixed-point division that reports an out-of-range quotient instead of
/// overflowing; the renderer treats such intersections as out of reach.
pub fn div_fx_checked(a: i64, b: i64) -> (r: Option<i64>)
    requires
        b >= 1,
    ensures
        match r {
            Some(v) => v == div_fx_s(a as int, b as int),
            None => !(-0x8000_0000_0000_0000 <= div_fx_s(a as int, b as int)
                <= 0x7fff_ffff_ffff_ffff),
        },
{
    let p: i128 = (a as i128) * 1_000_000;
    proof {
        lemma_mul_mag(a as int, 1_000_000, 0x8000_0000_0000_0000, 1_000_000);
        if p >= 0 {
            lemma_div_pos_is_pos(p as int, b as int);
            lemma_div_nonincreasing(p as int, b as int);
        } else {
            lemma_div_pos_is_pos(-(p as int), b as int);
            lemma_div_nonincreasing(-(p as int), b as int);
        }
    }
    let q: i128 = if p >= 0 {
        (((p as u128) / (b as u128)) as i128)
    } else {
        -((((-p) as u128) / (b as u128)) as i128)
    };
    if q >= -0x8000_0000_0000_0000i128 && q <= 0x7fff_ffff_ffff_ffffi128 {
        Some(q as i64)
    } else {
        None
    }
}

/// Fixed-point square root, rounded down.
pub fn sqrt_fx(x: i64) -> (r: i64)
    requires
        0 <= x,
    ensures
        r == sqrt_fx_s(x as int),
        0 <= r,
        (r as int) * (r as int) <= (x as int) * 1_000_000,
        (x as int) * 1_000_000 < ((r + 1) as int) * ((r + 1) as int),
{
    let n: u128 = (x as u128) * 1_000_000;
    let mut lo: u128 = 0;
    let mut hi: u128 = 4_000_000_000_000;
    assert((n as int) < 4_000_000_000_000 * 4_000_000_000_000) by (nonlinear_arith)
        requires
            n as int <= 9_223_372_036_854_775_807 * 1_000_000,
    ;
    while lo + 1 < hi
        invariant
            (lo as int) * (lo as int) <= n as int,
            (n as int) < (hi as int) * (hi as int),
            lo < hi,
            hi <= 4_000_000_000_000,
        decreases hi - lo,
    {
        let mid: u128 = lo + (hi - lo) / 2;
        assert(lo < mid < hi);
        proof {
            lemma_mul_mag(mid as int, mid as int, 4_000_000_000_000int, 4_000_000_000_000int);
        }
        if mid * mid <= n {
            lo = mid;
        } else {
            hi = mid;
        }
    }
    proof {
        lemma_sqrt_is((x as int) * 1_000_000, lo as int);
    }
    lo as i64
}

} // verus!
