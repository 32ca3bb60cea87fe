//! Utility math functions of the renderer.

use crate::fixed::{
    div_fx, div_fx_s, lemma_div_scale_err, lemma_mul_fx_err, lemma_mul_fx_s_bound, lemma_mul_mag,
    mul_fx, mul_fx_s,
};
use crate::vector::{
    bounded3, dot3_s, lemma_dot3_bound, mag2_s, mag_s, normalize_s, vec_dot, vec_scale, vec_sub,
    vscale_s, vsub_s, Vec3,
};
use vstd::arithmetic::div_mod::{lemma_div_is_ordered, lemma_div_pos_is_pos};
use vstd::prelude::*;

verus! {

/// What mirroring a vector about a normal returns: `v - 2 (v . n) n` over
/// the fixed-point operations.
pub open spec fn mirror_s(v: (int, int, int), n: (int, int, int)) -> (int, int, int) {
    vsub_s(v, vscale_s(n, 2 * dot3_s(v, n)))
}

/// Mirror a vector about a unit direction: the reflection law
/// `r = v - 2 (v . n) n`, exact down to the fixed-point truncations.
pub fn mirror(vector: &Vec3, normal: &Vec3) -> (r: Vec3)
    requires
        bounded3(vector@, 4_000_000),
        bounded3(normal@, 2_000_000),
    ensures
        r@ == mirror_s(vector@, normal@),
        bounded3(r@, 100_000_000),
{
    proof {
        lemma_dot3_bound(vector@, normal@, 4_000_000, 2_000_000, 8_000_000);
    }
    let d: i64 = vec_dot(*vector, *normal);
    let s: i64 = 2 * d;
    proof {
        lemma_mul_mag(normal@.0, s as int, 2_000_000, 48_000_000);
        lemma_mul_mag(normal@.1, s as int, 2_000_000, 48_000_000);
        lemma_mul_mag(normal@.2, s as int, 2_000_000, 48_000_000);
        lemma_mul_fx_s_bound(normal@.0, s as int, 96_000_000);
        lemma_mul_fx_s_bound(normal@.1, s as int, 96_000_000);
        lemma_mul_fx_s_bound(normal@.2, s as int, 96_000_000);
    }
    let scaled: Vec3 = vec_scale(*normal, s);
    vec_sub(*vector, scaled)
}

/// The fifth power of a scalar, in the association the Schlick computation
/// uses: `((x^2)^2) * x`.
pub open spec fn pow5_fx_s(x: int) -> int {
    let x2 = mul_fx_s(x, x);
    let x4 = mul_fx_s(x2, x2);
    mul_fx_s(x4, x)
}

/// What Schlick's approximation returns over the fixed-point scalar:
/// `r0 + (1 - r0)(1 - cos)^5` with `r0 = ((1 - n)/(1 + n))^2`.
pub open spec fn schlick_s(cosine: int, ref_idx: int) -> int {
    let r0a = div_fx_s(1_000_000 - ref_idx, 1_000_000 + ref_idx);
    let r0 = mul_fx_s(r0a, r0a);
    r0 + mul_fx_s(1_000_000 - r0, pow5_fx_s(1_000_000 - cosine))
}

/// Schlick's approximation of the Fresnel factor of a specular reflection.
pub fn schlick(cosine: i64, ref_idx: i64) -> (r: i64)
    requires
        1_000_000 <= ref_idx <= 5_000_000,
        -300_000_000 <= cosine <= 300_000_000,
    ensures
        r == schlick_s(cosine as int, ref_idx as int),
{
    let num: i64 = 1_000_000 - ref_idx;
    let den: i64 = 1_000_000 + ref_idx;
    let r0a: i64 = div_fx(num, den);
    proof {
        // |r0a| <= SCALE because |num| <= den.
        lemma_div_pos_is_pos(-(num as int) * 1_000_000, den as int);
        lemma_div_is_ordered(-(num as int) * 1_000_000, (den as int) * 1_000_000, den as int);
        assert(((den as int) * 1_000_000) / (den as int) == 1_000_000) by (nonlinear_arith)
            requires
                1 <= den,
        ;
        assert(-1_000_000 <= div_fx_s(num as int, den as int) <= 1_000_000);
        lemma_mul_mag(r0a as int, r0a as int, 1_000_000, 1_000_000);
        lemma_mul_fx_s_bound(r0a as int, r0a as int, 1_000_000);
        crate::vector::lemma_sq_fx_nonneg(r0a as int);
    }
    let r0: i64 = mul_fx(r0a, r0a);
    let x: i64 = 1_000_000 - cosine;
    proof {
        lemma_mul_mag(x as int, x as int, 301_000_000, 301_000_000);
        lemma_mul_fx_s_bound(x as int, x as int, 90_601_000_000);
        crate::vector::lemma_sq_fx_nonneg(x as int);
    }
    let x2: i64 = mul_fx(x, x);
    proof {
        lemma_mul_mag(x2 as int, x2 as int, 90_601_000_000, 90_601_000_000);
        lemma_mul_fx_s_bound(x2 as int, x2 as int, 8_208_541_201_000_000);
        crate::vector::lemma_sq_fx_nonneg(x2 as int);
    }
    let x4: i64 = mul_fx(x2, x2);
    proof {
        lemma_mul_mag(x4 as int, x as int, 8_208_541_201_000_000, 301_000_000);
        lemma_mul_fx_s_bound(x4 as int, x as int, 2_470_770_901_501_000_000);
    }
    let x5: i64 = mul_fx(x4, x);
    proof {
        lemma_mul_mag(1_000_000 - r0 as int, x5 as int, 1_000_000, 2_470_770_901_501_000_000);
        lemma_mul_fx_s_bound(1_000_000 - r0 as int, x5 as int, 2_470_770_901_501_000_000);
    }
    let tail: i64 = mul_fx(1_000_000 - r0, x5);
    r0 + tail
}

/// A unit normal that the fixed-point scalar represents exactly: one
/// component is plus or minus one, the others are zero.
pub open spec fn axis_unit_s(n: (int, int, int)) -> bool {
    ||| (n.0 == 1_000_000 || n.0 == -1_000_000) && n.1 == 0 && n.2 == 0
    ||| n.0 == 0 && (n.1 == 1_000_000 || n.1 == -1_000_000) && n.2 == 0
    ||| n.0 == 0 && n.1 == 0 && (n.2 == 1_000_000 || n.2 == -1_000_000)
}

/// Scaling by zero, one and minus one is exact in the fixed-point scalar.
pub proof fn lemma_mul_fx_unit(x: int)
    ensures
        mul_fx_s(x, 1_000_000) == x,
        mul_fx_s(1_000_000, x) == x,
        mul_fx_s(x, -1_000_000) == -x,
        mul_fx_s(-1_000_000, x) == -x,
        mul_fx_s(x, 0) == 0,
        mul_fx_s(0, x) == 0,
{
    if x >= 0 {
        assert((x * 1_000_000) / 1_000_000int == x) by (nonlinear_arith);
    } else {
        assert(((-x) * 1_000_000) / 1_000_000int == -x) by (nonlinear_arith);
        assert(x * 1_000_000 == -((-x) * 1_000_000)) by (nonlinear_arith);
    }
    assert(x * 1_000_000 == 1_000_000 * x) by (nonlinear_arith);
    assert(x * -1_000_000 == -(x * 1_000_000)) by (nonlinear_arith);
    assert(-1_000_000 * x == -(x * 1_000_000)) by (nonlinear_arith);
    assert(x * 0 == 0) by (nonlinear_arith);
    assert(0 * x == 0) by (nonlinear_arith);
    assert(0int / 1_000_000int == 0);
}

/// The reflection law, exactly, for the unit normals the scalar represents
/// exactly: mirroring about an axis-aligned unit normal flips the normal
/// component of the vector and nothing else, so the reflected direction
/// satisfies `r . n == -(d . n)` -- the outgoing ray leaves the surface
/// whenever the incoming one approached it.
pub proof fn lemma_mirror_reflection_axis(d: (int, int, int), n: (int, int, int))
    requires
        axis_unit_s(n),
    ensures
        dot3_s(mirror_s(d, n), n) == -dot3_s(d, n),
        dot3_s(d, n) < 0 ==> dot3_s(mirror_s(d, n), n) > 0,
{
    lemma_mul_fx_unit(d.0);
    lemma_mul_fx_unit(d.1);
    lemma_mul_fx_unit(d.2);
    lemma_mul_fx_unit(2 * dot3_s(d, n));
    let r = mirror_s(d, n);
    lemma_mul_fx_unit(r.0);
    lemma_mul_fx_unit(r.1);
    lemma_mul_fx_unit(r.2);
}

/// The reflection law's facing clause for every near-unit normal: when
/// the incoming direction approaches the surface by more than a whisper
/// of a margin (twenty scalar steps of `d . n`), the reflected direction
/// leaves it, truncation notwithstanding.
pub proof fn lemma_mirror_faces_out(d: (int, int, int), n: (int, int, int))
    requires
        bounded3(d, 4_000_000),
        bounded3(n, 2_000_000),
        1_000_000 - 8 <= mag2_s(n) <= 1_000_000 + 18,
        dot3_s(d, n) <= -20,
    ensures
        dot3_s(mirror_s(d, n), n) > 0,
        1_000_000_000_000 * dot3_s(mirror_s(d, n), n) > (-dot3_s(d, n)) * (1_000_000_000_000
            - 22_000_000) - 12_000_000_000_000,
{
    let dd = dot3_s(d, n);
    let s = 2 * dd;
    let p = d.0 * n.0 + d.1 * n.1 + d.2 * n.2;

    // The fixed-point dot product misses the integer one by under three
    // scale steps.
    lemma_mul_fx_err(d.0, n.0);
    lemma_mul_fx_err(d.1, n.1);
    lemma_mul_fx_err(d.2, n.2);
    assert(p - 3_000_000 < 1_000_000 * dd < p + 3_000_000);

    // The scaled normal's components, rescaled, miss `n_i * s` by under
    // one step each.
    let q0 = mul_fx_s(n.0, s);
    let q1 = mul_fx_s(n.1, s);
    let q2 = mul_fx_s(n.2, s);
    lemma_mul_fx_err(n.0, s);
    lemma_mul_fx_err(n.1, s);
    lemma_mul_fx_err(n.2, s);
    let u0 = 1_000_000 * q0;
    let u1 = 1_000_000 * q1;
    let u2 = 1_000_000 * q2;
    assert((n.0 * n.0) * s - 2_000_000_000_000 < u0 * n.0 < (n.0 * n.0) * s
        + 2_000_000_000_000) by (nonlinear_arith)
        requires
            n.0 * s - 1_000_000 < u0 < n.0 * s + 1_000_000,
            -2_000_000 <= n.0 <= 2_000_000,
    ;
    assert((n.1 * n.1) * s - 2_000_000_000_000 < u1 * n.1 < (n.1 * n.1) * s
        + 2_000_000_000_000) by (nonlinear_arith)
        requires
            n.1 * s - 1_000_000 < u1 < n.1 * s + 1_000_000,
            -2_000_000 <= n.1 <= 2_000_000,
    ;
    assert((n.2 * n.2) * s - 2_000_000_000_000 < u2 * n.2 < (n.2 * n.2) * s
        + 2_000_000_000_000) by (nonlinear_arith)
        requires
            n.2 * s - 1_000_000 < u2 < n.2 * s + 1_000_000,
            -2_000_000 <= n.2 <= 2_000_000,
    ;
    let s2 = n.0 * n.0 + n.1 * n.1 + n.2 * n.2;
    assert(s2 * s == (n.0 * n.0) * s + (n.1 * n.1) * s + (n.2 * n.2) * s) by (nonlinear_arith)
        requires
            s2 == n.0 * n.0 + n.1 * n.1 + n.2 * n.2,
    ;
    assert(s2 * s - 6_000_000_000_000 < u0 * n.0 + u1 * n.1 + u2 * n.2 < s2 * s
        + 6_000_000_000_000);

    // The squared length of the normal, in integer terms.
    lemma_mul_fx_err(n.0, n.0);
    lemma_mul_fx_err(n.1, n.1);
    lemma_mul_fx_err(n.2, n.2);
    assert(s2 - 3_000_000 < 1_000_000 * mag2_s(n) < s2 + 3_000_000);
    assert(s2 > 1_000_000_000_000 - 11_000_000);
    assert(s2 < 1_000_000_000_000 + 21_000_000);

    // The reflected components and their integer dot with the normal.
    let r = mirror_s(d, n);
    assert(r == (d.0 - q0, d.1 - q1, d.2 - q2));
    let w = r.0 * n.0 + r.1 * n.1 + r.2 * n.2;
    assert(r.0 * n.0 == d.0 * n.0 - q0 * n.0) by (nonlinear_arith)
        requires
            r.0 == d.0 - q0,
    ;
    assert(r.1 * n.1 == d.1 * n.1 - q1 * n.1) by (nonlinear_arith)
        requires
            r.1 == d.1 - q1,
    ;
    assert(r.2 * n.2 == d.2 * n.2 - q2 * n.2) by (nonlinear_arith)
        requires
            r.2 == d.2 - q2,
    ;
    assert(u0 * n.0 == 1_000_000 * (q0 * n.0)) by (nonlinear_arith)
        requires
            u0 == 1_000_000 * q0,
    ;
    assert(u1 * n.1 == 1_000_000 * (q1 * n.1)) by (nonlinear_arith)
        requires
            u1 == 1_000_000 * q1,
    ;
    assert(u2 * n.2 == 1_000_000 * (q2 * n.2)) by (nonlinear_arith)
        requires
            u2 == 1_000_000 * q2,
    ;
    assert(1_000_000 * w == 1_000_000 * p - (u0 * n.0 + u1 * n.1 + u2 * n.2));
    assert(1_000_000 * w > 1_000_000 * p - s2 * s - 6_000_000_000_000);

    // The fixed-point result against the integer dot.
    let rr = dot3_s(r, n);
    lemma_mul_fx_err(r.0, n.0);
    lemma_mul_fx_err(r.1, n.1);
    lemma_mul_fx_err(r.2, n.2);
    assert(1_000_000 * rr > w - 3_000_000);
    assert(1_000_000_000_000 * rr > 1_000_000 * w - 3_000_000_000_000);
    assert(1_000_000_000_000 * rr > 1_000_000 * p - s2 * s - 9_000_000_000_000);
    assert(1_000_000 * p > 1_000_000_000_000 * dd - 3_000_000_000_000);

    // The approach margin dominates every rounding term.
    assert(-(s2 * s) >= (1_000_000_000_000 - 11_000_000) * (-s)) by (nonlinear_arith)
        requires
            s2 > 1_000_000_000_000 - 11_000_000,
            s <= -40,
    ;
    assert(1_000_000_000_000 * rr > (-dd) * (1_000_000_000_000 - 22_000_000)
        - 12_000_000_000_000) by (nonlinear_arith)
        requires
            1_000_000_000_000 * rr > 1_000_000_000_000 * dd + (1_000_000_000_000 - 11_000_000) * (
            -s) - 12_000_000_000_000,
            s == 2 * dd,
    ;
    assert(rr > 0) by (nonlinear_arith)
        requires
            1_000_000_000_000 * rr > (-dd) * (1_000_000_000_000 - 22_000_000)
                - 12_000_000_000_000,
            dd <= -20,
    ;
}

/// The reflection law's facing clause, through the normalization that the
/// mirror material applies: for every near-unit normal, when the incoming
/// direction approaches the surface by more than a sliver of a margin
/// (two thousandths of `d . n`), the normalized reflected direction still
/// leaves the surface.
pub proof fn lemma_mirror_normalized_faces_out(d: (int, int, int), n: (int, int, int))
    requires
        bounded3(d, 4_000_000),
        bounded3(n, 2_000_000),
        1_000_000 - 8 <= mag2_s(n) <= 1_000_000 + 18,
        dot3_s(d, n) <= -2_000,
    ensures
        dot3_s(normalize_s(mirror_s(d, n)), n) > 0,
{
    lemma_mirror_faces_out(d, n);
    let r = mirror_s(d, n);
    let rr = dot3_s(r, n);
    assert(rr >= 1_988) by (nonlinear_arith)
        requires
            1_000_000_000_000 * rr > (-dot3_s(d, n)) * (1_000_000_000_000 - 22_000_000)
                - 12_000_000_000_000,
            dot3_s(d, n) <= -2_000,
    ;

    // The reflected components are bounded, so its magnitude is too.
    crate::vector::lemma_dot3_bound(d, n, 4_000_000, 2_000_000, 8_000_000);
    let dd = dot3_s(d, n);
    let s = 2 * dd;
    lemma_mul_mag(n.0, s, 2_000_000, 48_000_000);
    lemma_mul_mag(n.1, s, 2_000_000, 48_000_000);
    lemma_mul_mag(n.2, s, 2_000_000, 48_000_000);
    lemma_mul_fx_s_bound(n.0, s, 96_000_000);
    lemma_mul_fx_s_bound(n.1, s, 96_000_000);
    lemma_mul_fx_s_bound(n.2, s, 96_000_000);
    assert(bounded3(r, 100_000_000));
    crate::vector::lemma_dot3_bound(r, r, 100_000_000, 100_000_000, 10_000_000_000);
    let m2 = mag2_s(r);
    let m = mag_s(r);
    crate::vector::lemma_mag2_component(r);
    if m == 0 {
        assert(normalize_s(r) == r);
    } else {
        assert(m * m <= m2 * 1_000_000 && m2 * 1_000_000 < (m + 1) * (m + 1) && m >= 0) by {
            crate::vector::lemma_sqrt_val_bounds(m2 * 1_000_000);
        }
        assert(m <= 180_000_000) by (nonlinear_arith)
            requires
                0 <= m,
                m * m <= m2 * 1_000_000,
                m2 <= 30_000_000_000,
        ;

        // Each normalized component, scaled back by the magnitude, misses
        // the scaled reflected component by less than the magnitude.
        let z = normalize_s(r);
        lemma_div_scale_err(r.0 * 1_000_000, m);
        lemma_div_scale_err(r.1 * 1_000_000, m);
        lemma_div_scale_err(r.2 * 1_000_000, m);
        assert(z == (div_fx_s(r.0, m), div_fx_s(r.1, m), div_fx_s(r.2, m)));
        let z0 = z.0;
        let z1 = z.1;
        let z2 = z.2;
        assert((r.0 * 1_000_000) * n.0 - 2_000_000 * m < (z0 * m) * n.0 < (r.0 * 1_000_000) * n.0
            + 2_000_000 * m) by (nonlinear_arith)
            requires
                r.0 * 1_000_000 - m < z0 * m < r.0 * 1_000_000 + m,
                -2_000_000 <= n.0 <= 2_000_000,
                1 <= m,
        ;
        assert((r.1 * 1_000_000) * n.1 - 2_000_000 * m < (z1 * m) * n.1 < (r.1 * 1_000_000) * n.1
            + 2_000_000 * m) by (nonlinear_arith)
            requires
                r.1 * 1_000_000 - m < z1 * m < r.1 * 1_000_000 + m,
                -2_000_000 <= n.1 <= 2_000_000,
                1 <= m,
        ;
        assert((r.2 * 1_000_000) * n.2 - 2_000_000 * m < (z2 * m) * n.2 < (r.2 * 1_000_000) * n.2
            + 2_000_000 * m) by (nonlinear_arith)
            requires
                r.2 * 1_000_000 - m < z2 * m < r.2 * 1_000_000 + m,
                -2_000_000 <= n.2 <= 2_000_000,
                1 <= m,
        ;

        // Assemble the integer dot products on both sides.
        let w = r.0 * n.0 + r.1 * n.1 + r.2 * n.2;
        let zw = z0 * n.0 + z1 * n.1 + z2 * n.2;
        assert((r.0 * 1_000_000) * n.0 == 1_000_000 * (r.0 * n.0)) by (nonlinear_arith);
        assert((r.1 * 1_000_000) * n.1 == 1_000_000 * (r.1 * n.1)) by (nonlinear_arith);
        assert((r.2 * 1_000_000) * n.2 == 1_000_000 * (r.2 * n.2)) by (nonlinear_arith);
        assert((z0 * m) * n.0 == (z0 * n.0) * m) by (nonlinear_arith);
        assert((z1 * m) * n.1 == (z1 * n.1) * m) by (nonlinear_arith);
        assert((z2 * m) * n.2 == (z2 * n.2) * m) by (nonlinear_arith);
        assert(zw * m == (z0 * n.0) * m + (z1 * n.1) * m + (z2 * n.2) * m) by (nonlinear_arith)
            requires
                zw == z0 * n.0 + z1 * n.1 + z2 * n.2,
        ;
        assert(zw * m > 1_000_000 * w - 6_000_000 * m);

        // The integer dot against the fixed-point ones on each side.
        lemma_mul_fx_err(r.0, n.0);
        lemma_mul_fx_err(r.1, n.1);
        lemma_mul_fx_err(r.2, n.2);
        assert(w > 1_000_000 * rr - 3_000_000);
        lemma_mul_fx_err(z0, n.0);
        lemma_mul_fx_err(z1, n.1);
        lemma_mul_fx_err(z2, n.2);
        let res = dot3_s(z, n);
        assert(1_000_000 * res > zw - 3_000_000);
        assert(1_000_000 * res * m > zw * m - 3_000_000 * m) by (nonlinear_arith)
            requires
                1_000_000 * res > zw - 3_000_000,
                1 <= m,
        ;
        assert(1_000_000 * res * m > 1_000_000 * (1_000_000 * rr - 3_000_000) - 9_000_000 * m);
        assert(res > 0) by (nonlinear_arith)
            requires
                1_000_000 * res * m > 1_000_000_000_000 * rr - 3_000_000_000_000 - 9_000_000 * m,
                rr >= 1_988,
                1 <= m <= 180_000_000,
    ;
    }
}

} // verus!
