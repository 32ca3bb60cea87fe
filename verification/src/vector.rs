//! Three-component vectors over the fixed-point scalar.
//!
//! A vector's view is the triple of its raw components as mathematical
//! integers; every operation is specified exactly against that view.

use crate::fixed::{
    div_down, div_fx, div_fx_s, lemma_mul_fx_s_bound, lemma_mul_mag, mul_fx, mul_fx_s, sqrt_fx,
    sqrt_fx_s, sqrt_val, SCALE,
};
use vstd::arithmetic::div_mod::{
    lemma_div_is_ordered, lemma_div_pos_is_pos, lemma_fundamental_div_mod,
    lemma_remainder_lower, lemma_remainder_upper,
};
use vstd::prelude::*;

verus! {

/// A vector (or an RGB color) in fixed-point world coordinates.
#[derive(Clone, Copy, PartialEq, Eq, Structural, Debug)]
pub struct Vec3 {
    pub x: i64,
    pub y: i64,
    pub z: i64,
}

impl View for Vec3 {
    type V = (int, int, int);

    open spec fn view(&self) -> (int, int, int) {
        (self.x as int, self.y as int, self.z as int)
    }
}

impl Vec3 {
    /// Build a vector from its three raw components.
    pub fn new(x: i64, y: i64, z: i64) -> (r: Vec3)
        ensures
            r@ == (x as int, y as int, z as int),
    {
        Vec3 { x, y, z }
    }
}

/// Every component within `[-m, m]`.
pub open spec fn bounded3(v: (int, int, int), m: int) -> bool {
    &&& -m <= v.0 <= m
    &&& -m <= v.1 <= m
    &&& -m <= v.2 <= m
}

/// The fixed-point product of `a` and `b` stays representable.
pub open spec fn prod_ok(a: int, b: int) -> bool {
    -(9_223_372_036_854_775_807int * 1_000_000) <= a * b <= 9_223_372_036_854_775_807int
        * 1_000_000
}

pub open spec fn vadd_s(a: (int, int, int), b: (int, int, int)) -> (int, int, int) {
    (a.0 + b.0, a.1 + b.1, a.2 + b.2)
}

pub open spec fn vsub_s(a: (int, int, int), b: (int, int, int)) -> (int, int, int) {
    (a.0 - b.0, a.1 - b.1, a.2 - b.2)
}

pub open spec fn vneg_s(a: (int, int, int)) -> (int, int, int) {
    (-a.0, -a.1, -a.2)
}

/// Componentwise fixed-point scaling by a scalar.
pub open spec fn vscale_s(a: (int, int, int), s: int) -> (int, int, int) {
    (mul_fx_s(a.0, s), mul_fx_s(a.1, s), mul_fx_s(a.2, s))
}

/// Componentwise fixed-point product (attenuation of a color).
pub open spec fn velem_s(a: (int, int, int), b: (int, int, int)) -> (int, int, int) {
    (mul_fx_s(a.0, b.0), mul_fx_s(a.1, b.1), mul_fx_s(a.2, b.2))
}

/// The fixed-point dot product.
pub open spec fn dot3_s(a: (int, int, int), b: (int, int, int)) -> int {
    mul_fx_s(a.0, b.0) + mul_fx_s(a.1, b.1) + mul_fx_s(a.2, b.2)
}

/// The fixed-point cross product.
pub open spec fn cross3_s(a: (int, int, int), b: (int, int, int)) -> (int, int, int) {
    (
        mul_fx_s(a.1, b.2) - mul_fx_s(a.2, b.1),
        mul_fx_s(a.2, b.0) - mul_fx_s(a.0, b.2),
        mul_fx_s(a.0, b.1) - mul_fx_s(a.1, b.0),
    )
}

/// The fixed-point squared magnitude.
pub open spec fn mag2_s(v: (int, int, int)) -> int {
    dot3_s(v, v)
}

/// The fixed-point magnitude: square root of the squared magnitude.
pub open spec fn mag_s(v: (int, int, int)) -> int {
    sqrt_fx_s(mag2_s(v))
}

/// What normalizing a vector returns: each component divided by the
/// magnitude, or the vector itself when the magnitude rounds to zero.
pub open spec fn normalize_s(v: (int, int, int)) -> (int, int, int) {
    let m = mag_s(v);
    if m == 0 {
        v
    } else {
        (div_fx_s(v.0, m), div_fx_s(v.1, m), div_fx_s(v.2, m))
    }
}

/// Clamp each component of a vector into `[-m, m]`.
pub open spec fn cap3_s(v: (int, int, int), m: int) -> (int, int, int) {
    (
        if v.0 > m { m } else if v.0 < -m { -m } else { v.0 },
        if v.1 > m { m } else if v.1 < -m { -m } else { v.1 },
        if v.2 > m { m } else if v.2 < -m { -m } else { v.2 },
    )
}

/// Clamp each component of a vector into `[-m, m]`; camera construction
/// saturates extreme configurations with this.
pub fn vec_cap(a: Vec3, m: i64) -> (r: Vec3)
    requires
        0 <= m,
    ensures
        r@ == cap3_s(a@, m as int),
        bounded3(r@, m as int),
{
    let x: i64 = if a.x > m { m } else if a.x < -m { -m } else { a.x };
    let y: i64 = if a.y > m { m } else if a.y < -m { -m } else { a.y };
    let z: i64 = if a.z > m { m } else if a.z < -m { -m } else { a.z };
    Vec3 { x, y, z }
}

/// Whether every component lies within `[-m, m]`.
pub fn vec_in_range(a: Vec3, m: i64) -> (r: bool)
    requires
        0 <= m,
    ensures
        r == bounded3(a@, m as int),
{
    -m <= a.x && a.x <= m && -m <= a.y && a.y <= m && -m <= a.z && a.z <= m
}

/// A fixed-point square is never negative.
pub proof fn lemma_sq_fx_nonneg(a: int)
    ensures
        0 <= mul_fx_s(a, a),
{
    assert(0 <= a * a) by (nonlinear_arith);
    lemma_div_pos_is_pos(a * a, 1_000_000);
}

/// A dot product of vectors bounded by `ma` and `mb` is bounded by
/// `3 * ma * mb / SCALE` (stated over the scaled product to stay linear).
pub proof fn lemma_dot3_bound(a: (int, int, int), b: (int, int, int), ma: int, mb: int, m: int)
    requires
        bounded3(a, ma),
        bounded3(b, mb),
        0 <= ma,
        0 <= mb,
        ma * mb <= m * 1_000_000,
        0 <= m <= 9_223_372_036_854_775_807,
    ensures
        -(3 * m) <= dot3_s(a, b) <= 3 * m,
        -m <= mul_fx_s(a.0, b.0) <= m,
        -m <= mul_fx_s(a.1, b.1) <= m,
        -m <= mul_fx_s(a.2, b.2) <= m,
        prod_ok(a.0, b.0),
        prod_ok(a.1, b.1),
        prod_ok(a.2, b.2),
{
    lemma_mul_mag(a.0, b.0, ma, mb);
    lemma_mul_mag(a.1, b.1, ma, mb);
    lemma_mul_mag(a.2, b.2, ma, mb);
    lemma_mul_fx_s_bound(a.0, b.0, m);
    lemma_mul_fx_s_bound(a.1, b.1, m);
    lemma_mul_fx_s_bound(a.2, b.2, m);
}

/// A cross product of vectors bounded by `ma` and `mb` is bounded
/// componentwise by `2 * ma * mb / SCALE`.
pub proof fn lemma_cross3_bound(a: (int, int, int), b: (int, int, int), ma: int, mb: int, m: int)
    requires
        bounded3(a, ma),
        bounded3(b, mb),
        0 <= ma,
        0 <= mb,
        ma * mb <= m * 1_000_000,
        0 <= m <= 9_223_372_036_854_775_807,
    ensures
        bounded3(cross3_s(a, b), 2 * m),
        prod_ok(a.1, b.2) && prod_ok(a.2, b.1),
        prod_ok(a.2, b.0) && prod_ok(a.0, b.2),
        prod_ok(a.0, b.1) && prod_ok(a.1, b.0),
{
    lemma_mul_mag(a.0, b.0, ma, mb);
    lemma_mul_mag(a.0, b.1, ma, mb);
    lemma_mul_mag(a.0, b.2, ma, mb);
    lemma_mul_mag(a.1, b.0, ma, mb);
    lemma_mul_mag(a.1, b.1, ma, mb);
    lemma_mul_mag(a.1, b.2, ma, mb);
    lemma_mul_mag(a.2, b.0, ma, mb);
    lemma_mul_mag(a.2, b.1, ma, mb);
    lemma_mul_mag(a.2, b.2, ma, mb);
    lemma_mul_fx_s_bound(a.0, b.1, m);
    lemma_mul_fx_s_bound(a.0, b.2, m);
    lemma_mul_fx_s_bound(a.1, b.0, m);
    lemma_mul_fx_s_bound(a.1, b.2, m);
    lemma_mul_fx_s_bound(a.2, b.0, m);
    lemma_mul_fx_s_bound(a.2, b.1, m);
}

/// Componentwise vector sum.
pub fn vec_add(a: Vec3, b: Vec3) -> (r: Vec3)
    requires
        -0x7fff_ffff_ffff_ffff <= a@.0 + b@.0 <= 0x7fff_ffff_ffff_ffff,
        -0x7fff_ffff_ffff_ffff <= a@.1 + b@.1 <= 0x7fff_ffff_ffff_ffff,
        -0x7fff_ffff_ffff_ffff <= a@.2 + b@.2 <= 0x7fff_ffff_ffff_ffff,
    ensures
        r@ == vadd_s(a@, b@),
{
    Vec3 { x: a.x + b.x, y: a.y + b.y, z: a.z + b.z }
}

/// Componentwise vector difference.
pub fn vec_sub(a: Vec3, b: Vec3) -> (r: Vec3)
    requires
        -0x7fff_ffff_ffff_ffff <= a@.0 - b@.0 <= 0x7fff_ffff_ffff_ffff,
        -0x7fff_ffff_ffff_ffff <= a@.1 - b@.1 <= 0x7fff_ffff_ffff_ffff,
        -0x7fff_ffff_ffff_ffff <= a@.2 - b@.2 <= 0x7fff_ffff_ffff_ffff,
    ensures
        r@ == vsub_s(a@, b@),
{
    Vec3 { x: a.x - b.x, y: a.y - b.y, z: a.z - b.z }
}

/// Componentwise negation.
pub fn vec_neg(a: Vec3) -> (r: Vec3)
    requires
        -0x7fff_ffff_ffff_ffff <= a@.0 <= 0x7fff_ffff_ffff_ffff,
        -0x7fff_ffff_ffff_ffff <= a@.1 <= 0x7fff_ffff_ffff_ffff,
        -0x7fff_ffff_ffff_ffff <= a@.2 <= 0x7fff_ffff_ffff_ffff,
    ensures
        r@ == vneg_s(a@),
{
    Vec3 { x: -a.x, y: -a.y, z: -a.z }
}

/// Fixed-point scaling of a vector by a scalar.
pub fn vec_scale(a: Vec3, s: i64) -> (r: Vec3)
    requires
        prod_ok(a@.0, s as int),
        prod_ok(a@.1, s as int),
        prod_ok(a@.2, s as int),
    ensures
        r@ == vscale_s(a@, s as int),
{
    Vec3 { x: mul_fx(a.x, s), y: mul_fx(a.y, s), z: mul_fx(a.z, s) }
}

/// Componentwise fixed-point product.
pub fn vec_elem_mul(a: Vec3, b: Vec3) -> (r: Vec3)
    requires
        prod_ok(a@.0, b@.0),
        prod_ok(a@.1, b@.1),
        prod_ok(a@.2, b@.2),
    ensures
        r@ == velem_s(a@, b@),
{
    Vec3 { x: mul_fx(a.x, b.x), y: mul_fx(a.y, b.y), z: mul_fx(a.z, b.z) }
}

/// Fixed-point dot product.
pub fn vec_dot(a: Vec3, b: Vec3) -> (r: i64)
    requires
        prod_ok(a@.0, b@.0),
        prod_ok(a@.1, b@.1),
        prod_ok(a@.2, b@.2),
        -0x7fff_ffff_ffff_ffff <= mul_fx_s(a@.0, b@.0) + mul_fx_s(a@.1, b@.1)
            <= 0x7fff_ffff_ffff_ffff,
        -0x7fff_ffff_ffff_ffff <= dot3_s(a@, b@) <= 0x7fff_ffff_ffff_ffff,
    ensures
        r == dot3_s(a@, b@),
{
    mul_fx(a.x, b.x) + mul_fx(a.y, b.y) + mul_fx(a.z, b.z)
}

/// Fixed-point cross product.
pub fn vec_cross(a: Vec3, b: Vec3) -> (r: Vec3)
    requires
        prod_ok(a@.1, b@.2) && prod_ok(a@.2, b@.1),
        prod_ok(a@.2, b@.0) && prod_ok(a@.0, b@.2),
        prod_ok(a@.0, b@.1) && prod_ok(a@.1, b@.0),
        -0x7fff_ffff_ffff_ffff <= mul_fx_s(a@.1, b@.2) - mul_fx_s(a@.2, b@.1)
            <= 0x7fff_ffff_ffff_ffff,
        -0x7fff_ffff_ffff_ffff <= mul_fx_s(a@.2, b@.0) - mul_fx_s(a@.0, b@.2)
            <= 0x7fff_ffff_ffff_ffff,
        -0x7fff_ffff_ffff_ffff <= mul_fx_s(a@.0, b@.1) - mul_fx_s(a@.1, b@.0)
            <= 0x7fff_ffff_ffff_ffff,
    ensures
        r@ == cross3_s(a@, b@),
{
    Vec3 {
        x: mul_fx(a.y, b.z) - mul_fx(a.z, b.y),
        y: mul_fx(a.z, b.x) - mul_fx(a.x, b.z),
        z: mul_fx(a.x, b.y) - mul_fx(a.y, b.x),
    }
}

/// Fixed-point squared magnitude. For components within `10^12` the result
/// is within `3 * 10^18` and never negative.
pub fn vec_mag2(a: Vec3) -> (r: i64)
    requires
        bounded3(a@, 1_000_000_000_000),
    ensures
        r == mag2_s(a@),
        0 <= r <= 3_000_000_000_000_000_000,
{
    proof {
        lemma_dot3_bound(a@, a@, 1_000_000_000_000, 1_000_000_000_000, 1_000_000_000_000_000_000);
        lemma_sq_fx_nonneg(a@.0);
        lemma_sq_fx_nonneg(a@.1);
        lemma_sq_fx_nonneg(a@.2);
    }
    vec_dot(a, a)
}

/// The squared magnitude of a bounded vector is at least each component's
/// fixed-point square.
pub proof fn lemma_mag2_component(v: (int, int, int))
    ensures
        mul_fx_s(v.0, v.0) <= mag2_s(v),
        mul_fx_s(v.1, v.1) <= mag2_s(v),
        mul_fx_s(v.2, v.2) <= mag2_s(v),
        0 <= mag2_s(v),
{
    lemma_sq_fx_nonneg(v.0);
    lemma_sq_fx_nonneg(v.1);
    lemma_sq_fx_nonneg(v.2);
}

/// When the squared magnitude rounds to zero every component is tiny.
pub proof fn lemma_mag2_zero_small(v: (int, int, int))
    requires
        mag2_s(v) == 0,
    ensures
        bounded3(v, 999),
{
    lemma_sq_fx_nonneg(v.0);
    lemma_sq_fx_nonneg(v.1);
    lemma_sq_fx_nonneg(v.2);
    lemma_mag2_zero_one(v.0);
    lemma_mag2_zero_one(v.1);
    lemma_mag2_zero_one(v.2);
}

proof fn lemma_mag2_zero_one(c: int)
    requires
        mul_fx_s(c, c) <= 0,
    ensures
        -999 <= c <= 999,
{
    assert(0 <= c * c) by (nonlinear_arith);
    lemma_div_pos_is_pos(c * c, 1_000_000);
    assert(c * c / 1_000_000int == 0);
    lemma_fundamental_div_mod(c * c, 1_000_000);
    lemma_remainder_upper(c * c, 1_000_000);
    assert(c * c < 1_000_000);
    assert(-999 <= c <= 999) by (nonlinear_arith)
        requires
            c * c < 1_000_000,
    ;
}

/// The key bound on normalizing: the result of `vec_normalize` on a vector
/// with components within `10^12` has components within `2 * SCALE`
/// (a little over unit length, never wildly larger).
proof fn lemma_normalize_component(c: int, m2: int, m: int)
    requires
        0 <= m2,
        mul_fx_s(c, c) <= m2,
        0 <= m,
        m * m <= m2 * 1_000_000,
        m2 * 1_000_000 < (m + 1) * (m + 1),
        1 <= m2,
    ensures
        1000 <= m,
        -2_000_000 <= div_fx_s(c, m) <= 2_000_000,
{
    // m >= 1000 since (m+1)^2 > 10^6
    assert(1_000_000 < (m + 1) * (m + 1));
    assert(1000 <= m) by (nonlinear_arith)
        requires
            0 <= m,
            1_000_000 < (m + 1) * (m + 1),
    ;
    // |c| <= m + 1000
    assert(0 <= c * c) by (nonlinear_arith);
    lemma_fundamental_div_mod(c * c, 1_000_000);
    lemma_remainder_upper(c * c, 1_000_000);
    lemma_remainder_lower(c * c, 1_000_000);
    assert(c * c < (mul_fx_s(c, c) + 1) * 1_000_000) by {
        lemma_div_pos_is_pos(c * c, 1_000_000);
    }
    assert(c * c < (m + 1) * (m + 1) + 1_000_000);
    assert(-(m + 1000) <= c <= m + 1000) by (nonlinear_arith)
        requires
            1000 <= m,
            c * c < (m + 1) * (m + 1) + 1_000_000,
    ;
    // |c| * 10^6 / m <= (m + 1000) * 10^6 / m <= 2 * 10^6
    assert((m + 1000) * 1_000_000 <= 2_000_000 * m) by (nonlinear_arith)
        requires
            1000 <= m,
    ;
    if c >= 0 {
        lemma_div_is_ordered(c * 1_000_000, (m + 1000) * 1_000_000, m);
        assert((2_000_000 * m) / m == 2_000_000) by (nonlinear_arith)
            requires
                1 <= m,
        ;
        lemma_div_is_ordered((m + 1000) * 1_000_000, 2_000_000 * m, m);
        lemma_div_pos_is_pos(c * 1_000_000, m);
    } else {
        lemma_div_is_ordered(-(c * 1_000_000), (m + 1000) * 1_000_000, m);
        assert((2_000_000 * m) / m == 2_000_000) by (nonlinear_arith)
            requires
                1 <= m,
        ;
        lemma_div_is_ordered((m + 1000) * 1_000_000, 2_000_000 * m, m);
        lemma_div_pos_is_pos(-(c * 1_000_000), m);
    }
}

/// Truncating division against its exact value: the rounded quotient
/// scaled back misses the dividend by less than the divisor, and never
/// overshoots it in magnitude.
proof fn lemma_trunc_times_divisor(x: int, m: int)
    requires
        1 <= m,
    ensures
        (div_down(x, m) * m - x) * (div_down(x, m) * m - x) < m * m,
        (div_down(x, m) * m) * (div_down(x, m) * m) <= x * x,
{
    let q = div_down(x, m);
    if x >= 0 {
        lemma_fundamental_div_mod(x, m);
        lemma_remainder_upper(x, m);
        lemma_remainder_lower(x, m);
        lemma_div_pos_is_pos(x, m);
        assert(q * m == x - x % m);
        assert(0 <= x % m < m);
        assert(0 <= q * m <= x);
    } else {
        lemma_fundamental_div_mod(-x, m);
        lemma_remainder_upper(-x, m);
        lemma_remainder_lower(-x, m);
        lemma_div_pos_is_pos(-x, m);
        assert(q == -((-x) / m));
        assert(q <= 0);
        assert(q * m == x + (-x) % m) by (nonlinear_arith)
            requires
                q == -((-x) / m),
                ((-x) / m) * m == (-x) - (-x) % m,
        ;
        assert(0 <= (-x) % m < m);
        assert(x <= q * m && q * m - x < m);
        assert(q * m <= 0) by (nonlinear_arith)
            requires
                q <= 0,
                m >= 1,
        ;
    }
    assert((q * m - x) * (q * m - x) < m * m) by (nonlinear_arith)
        requires
            (0 <= q * m <= x) || (x <= q * m <= 0),
            (x >= 0 ==> x - q * m < m),
            (x < 0 ==> q * m - x < m),
            1 <= m,
    ;
    assert((q * m) * (q * m) <= x * x) by (nonlinear_arith)
        requires
            (0 <= q * m <= x) || (x <= q * m <= 0),
    ;
}

/// One normalized component, squared and scaled by the magnitude squared,
/// sits between the exact square and the exact square less a rounding
/// margin of twice the component.
proof fn lemma_normalize_sq_component(a: int, m: int)
    requires
        1 <= m,
    ensures
        div_fx_s(a, m) * div_fx_s(a, m) * (m * m) <= a * a * 1_000_000_000_000,
        div_fx_s(a, m) * div_fx_s(a, m) * (m * m) >= a * a * 1_000_000_000_000 - 2 * abs_i(a)
            * 1_000_000 * m,
{
    let x = a * 1_000_000;
    let q = div_down(x, m);
    lemma_trunc_times_divisor(x, m);
    assert(x * x == a * a * 1_000_000_000_000) by (nonlinear_arith)
        requires
            x == a * 1_000_000,
    ;
    assert(q * q * (m * m) == (q * m) * (q * m)) by (nonlinear_arith);
    // Upper bound.
    assert((q * m) * (q * m) <= x * x);
    // Lower bound: (qm)^2 = (x + e)^2 >= x^2 - 2|x| m with |e| < m.
    let e = q * m - x;
    assert(e * e < m * m);
    assert((q * m) * (q * m) >= x * x - 2 * abs_i(a) * 1_000_000 * m) by (nonlinear_arith)
        requires
            q * m == x + e,
            e * e < m * m,
            x == a * 1_000_000,
            abs_i(a) * 1_000_000 >= 0,
            (a >= 0 ==> abs_i(a) == a) && (a < 0 ==> abs_i(a) == -a),
            1 <= m,
    ;
}

/// The absolute value of an integer.
pub open spec fn abs_i(a: int) -> int {
    if a >= 0 {
        a
    } else {
        -a
    }
}

/// The near-unit-normal law: normalizing any vector of at least half unit
/// length gives a vector whose squared magnitude is within a few
/// millionths of one -- the rounding of the division and of the square
/// root cannot push it further.
pub proof fn lemma_normalize_near_unit(v: (int, int, int))
    requires
        mag2_s(v) >= 250_000,
    ensures
        1_000_000 - 8 <= mag2_s(normalize_s(v)) <= 1_000_000 + 18,
{
    let m2 = mag2_s(v);
    let m = mag_s(v);
    let (a, b, c) = v;
    let s_exact = a * a + b * b + c * c;

    // The fixed-point squared magnitude brackets the exact one.
    assert(0 <= a * a && 0 <= b * b && 0 <= c * c) by (nonlinear_arith);
    lemma_fundamental_div_mod(a * a, 1_000_000);
    lemma_fundamental_div_mod(b * b, 1_000_000);
    lemma_fundamental_div_mod(c * c, 1_000_000);
    lemma_remainder_upper(a * a, 1_000_000);
    lemma_remainder_upper(b * b, 1_000_000);
    lemma_remainder_upper(c * c, 1_000_000);
    lemma_remainder_lower(a * a, 1_000_000);
    lemma_remainder_lower(b * b, 1_000_000);
    lemma_remainder_lower(c * c, 1_000_000);
    lemma_sq_fx_nonneg(a);
    lemma_sq_fx_nonneg(b);
    lemma_sq_fx_nonneg(c);
    assert(1_000_000 * m2 <= s_exact < 1_000_000 * m2 + 3_000_000);

    // The rounded square root brackets the scaled magnitude.
    assert(m * m <= m2 * 1_000_000 < (m + 1) * (m + 1) && m >= 0) by {
        lemma_sqrt_val_bounds(m2 * 1_000_000);
    }
    assert(m >= 500_000) by (nonlinear_arith)
        requires
            m >= 0,
            (m + 1) * (m + 1) > 250_000int * 1_000_000,
    ;
    assert(m != 0);

    // Each normalized component squared, against the exact squares.
    lemma_normalize_sq_component(a, m);
    lemma_normalize_sq_component(b, m);
    lemma_normalize_sq_component(c, m);
    let qa = div_fx_s(a, m);
    let qb = div_fx_s(b, m);
    let qc = div_fx_s(c, m);
    let qs = qa * qa + qb * qb + qc * qc;
    let t = abs_i(a) + abs_i(b) + abs_i(c);
    assert(qs * (m * m) == qa * qa * (m * m) + qb * qb * (m * m) + qc * qc * (m * m))
        by (nonlinear_arith)
        requires
            qs == qa * qa + qb * qb + qc * qc,
    ;
    assert(s_exact * 1_000_000_000_000 == a * a * 1_000_000_000_000 + b * b * 1_000_000_000_000
        + c * c * 1_000_000_000_000) by (nonlinear_arith)
        requires
            s_exact == a * a + b * b + c * c,
    ;
    assert(2 * t * 1_000_000 * m == 2 * abs_i(a) * 1_000_000 * m + 2 * abs_i(b) * 1_000_000 * m
        + 2 * abs_i(c) * 1_000_000 * m) by (nonlinear_arith)
        requires
            t == abs_i(a) + abs_i(b) + abs_i(c),
    ;
    assert(qs * (m * m) <= s_exact * 1_000_000_000_000);
    assert(qs * (m * m) >= s_exact * 1_000_000_000_000 - 2 * t * 1_000_000 * m);

    // The sum of absolute values against the sum of squares.
    assert(t * t <= 3 * s_exact) by (nonlinear_arith)
        requires
            t == abs_i(a) + abs_i(b) + abs_i(c),
            s_exact == a * a + b * b + c * c,
            (a >= 0 ==> abs_i(a) == a) && (a < 0 ==> abs_i(a) == -a),
            (b >= 0 ==> abs_i(b) == b) && (b < 0 ==> abs_i(b) == -b),
            (c >= 0 ==> abs_i(c) == c) && (c < 0 ==> abs_i(c) == -c),
    ;
    assert(t <= 2 * m + 8) by (nonlinear_arith)
        requires
            t * t <= 3 * s_exact,
            s_exact < (m + 1) * (m + 1) + 3_000_000,
            t >= 0,
            m >= 500_000,
    ;

    // The fixed-point squared magnitude of the result brackets its exact
    // squared length.
    let r = normalize_s(v);
    assert(r == (qa, qb, qc));
    assert(0 <= qa * qa && 0 <= qb * qb && 0 <= qc * qc) by (nonlinear_arith);
    lemma_fundamental_div_mod(qa * qa, 1_000_000);
    lemma_fundamental_div_mod(qb * qb, 1_000_000);
    lemma_fundamental_div_mod(qc * qc, 1_000_000);
    lemma_remainder_upper(qa * qa, 1_000_000);
    lemma_remainder_upper(qb * qb, 1_000_000);
    lemma_remainder_upper(qc * qc, 1_000_000);
    lemma_remainder_lower(qa * qa, 1_000_000);
    lemma_remainder_lower(qb * qb, 1_000_000);
    lemma_remainder_lower(qc * qc, 1_000_000);
    lemma_sq_fx_nonneg(qa);
    lemma_sq_fx_nonneg(qb);
    lemma_sq_fx_nonneg(qc);
    let r2 = mag2_s(r);
    assert(1_000_000 * r2 <= qs < 1_000_000 * r2 + 3_000_000);

    // Upper bound: r2 <= 1_000_000 + 18.
    assert(s_exact <= m * m + 2 * m + 3_000_000) by (nonlinear_arith)
        requires
            s_exact < m2 * 1_000_000 + 3_000_000,
            m2 * 1_000_000 < (m + 1) * (m + 1),
    ;
    assert(1_000_000 * r2 * (m * m) <= qs * (m * m)) by (nonlinear_arith)
        requires
            1_000_000 * r2 <= qs,
    ;
    assert(s_exact * 1_000_000_000_000 <= (m * m) * 1_000_000_000_000 + 2 * m
        * 1_000_000_000_000 + 3_000_000 * 1_000_000_000_000) by (nonlinear_arith)
        requires
            s_exact <= m * m + 2 * m + 3_000_000,
    ;
    assert(r2 <= 1_000_000 + 18) by (nonlinear_arith)
        requires
            1_000_000 * r2 * (m * m) <= (m * m) * 1_000_000_000_000 + 2 * m * 1_000_000_000_000
                + 3_000_000 * 1_000_000_000_000,
            m >= 500_000,
    ;

    // Lower bound: r2 >= 1_000_000 - 8.
    assert(s_exact >= m * m);
    assert(qs * (m * m) >= (m * m) * 1_000_000_000_000 - 2 * (2 * m + 8) * 1_000_000 * m)
        by (nonlinear_arith)
        requires
            qs * (m * m) >= s_exact * 1_000_000_000_000 - 2 * t * 1_000_000 * m,
            s_exact >= m * m,
            0 <= t <= 2 * m + 8,
            m >= 500_000,
    ;
    assert(qs * (m * m) < (1_000_000 * r2 + 3_000_000) * (m * m)) by (nonlinear_arith)
        requires
            qs < 1_000_000 * r2 + 3_000_000,
            m >= 500_000,
    ;
    assert(r2 >= 1_000_000 - 8) by (nonlinear_arith)
        requires
            (1_000_000 * r2 + 3_000_000) * (m * m) > (m * m) * 1_000_000_000_000 - 2 * (2 * m
                + 8) * 1_000_000 * m,
            m >= 500_000,
    ;
}

/// The integer square root's defining inequalities, recovered from the
/// witness the executable square root establishes.
pub proof fn lemma_sqrt_val_bounds(n: int)
    requires
        0 <= n,
    ensures
        sqrt_val(n) >= 0,
        sqrt_val(n) * sqrt_val(n) <= n,
        n < (sqrt_val(n) + 1) * (sqrt_val(n) + 1),
{
    lemma_sqrt_exists(n, 0);
    let c = sqrt_val(n);
    assert(0 <= c && c * c <= n && n < (c + 1) * (c + 1));
}

/// Every nonnegative integer has an integer square root at or above any
/// candidate whose square does not exceed it.
proof fn lemma_sqrt_exists(n: int, lo: int)
    requires
        0 <= lo,
        lo * lo <= n,
    ensures
        exists|x: int| 0 <= x && #[trigger] (x * x) <= n && n < (x + 1) * (x + 1),
    decreases n - lo * lo,
{
    if n < (lo + 1) * (lo + 1) {
        assert(0 <= lo && lo * lo <= n && n < (lo + 1) * (lo + 1));
    } else {
        assert((lo + 1) * (lo + 1) > lo * lo) by (nonlinear_arith)
            requires
                lo >= 0,
        ;
        lemma_sqrt_exists(n, lo + 1);
    }
}

/// Normalize a vector: divide by the fixed-point magnitude, or return the
/// vector unchanged when the magnitude rounds to zero. The result's
/// components always lie within twice the unit scale.
pub fn vec_normalize(a: Vec3) -> (r: Vec3)
    requires
        bounded3(a@, 1_000_000_000_000),
    ensures
        r@ == normalize_s(a@),
        bounded3(r@, 2_000_000),
{
    let m2: i64 = vec_mag2(a);
    let m: i64 = sqrt_fx(m2);
    if m == 0 {
        proof {
            if m2 >= 1 {
                assert((m2 as int) * 1_000_000 >= 1_000_000);
                assert(m == 0);
                assert(((m + 1) as int) * ((m + 1) as int) == 1) by (nonlinear_arith)
                    requires
                        m == 0,
                ;
                assert(false);
            }
            lemma_mag2_zero_small(a@);
        }
        a
    } else {
        proof {
            lemma_mag2_component(a@);
            if m2 == 0 {
                assert(false) by (nonlinear_arith)
                    requires
                        1 <= m,
                        (m as int) * (m as int) <= 0,
                ;
            }
            lemma_normalize_component(a@.0, m2 as int, m as int);
            lemma_normalize_component(a@.1, m2 as int, m as int);
            lemma_normalize_component(a@.2, m2 as int, m as int);
        }
        Vec3 { x: div_fx(a.x, m), y: div_fx(a.y, m), z: div_fx(a.z, m) }
    }
}

} // verus!
