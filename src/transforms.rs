//! Clarke and Park frame transforms and their inverses, in Q16.16.
//!
//! The Clarke transform is amplitude invariant. The Park transforms take the sine and
//! cosine of the electrical angle, so that one evaluation serves every transform of a
//! control cycle.
use vstd::prelude::*;
use vstd::arithmetic::div_mod::lemma_div_by_multiple;
use crate::fixed::{abs, div_trunc, div_trunc_exec, lemma_div_trunc_residue, lemma_div_trunc_shrinks, ONE};

verus! {

/// `sqrt(3) / 2` in Q16.16.
pub const SQRT3_2: i32 = 56756;

/// `1 / sqrt(3)` in Q16.16.
pub const INV_SQRT3: i32 = 37837;

/// `1 / 2` in Q16.16.
pub const HALF: i32 = 32768;

/// Stationary-frame `alpha` of the phase quantities `(a, b, c)`: `(2a - b - c) / 3`.
pub open spec fn clarke_alpha(a: int, b: int, c: int) -> int {
    div_trunc(2 * a - b - c, 3)
}

/// Stationary-frame `beta` of the phase quantities `(b, c)`: `(b - c) / sqrt(3)`.
pub open spec fn clarke_beta(b: int, c: int) -> int {
    div_trunc((b - c) * INV_SQRT3, ONE as int)
}

/// Phase quantity of the phase at `sign * 120` degrees: `-alpha / 2 + sign * sqrt(3) / 2 * beta`.
pub open spec fn inverse_clarke_phase(alpha: int, beta: int, sign: int) -> int {
    div_trunc(sign * (SQRT3_2 * beta) - HALF * alpha, ONE as int)
}

/// `(x * cos + y * sin)` in Q16.16: the first coordinate of `(x, y)` turned by `-angle`.
pub open spec fn rotate_first(x: int, y: int, sin: int, cos: int) -> int {
    div_trunc(cos * x + sin * y, ONE as int)
}

/// `(-x * sin + y * cos)` in Q16.16: the second coordinate of `(x, y)` turned by `-angle`.
pub open spec fn rotate_second(x: int, y: int, sin: int, cos: int) -> int {
    div_trunc(cos * y - sin * x, ONE as int)
}

proof fn lemma_product_bounds(x: int, k: int)
    requires
        i32::MIN <= x <= i32::MAX,
        i32::MIN <= k <= i32::MAX,
    ensures
        -0x4000_0000_0000_0000 <= x * k <= 0x4000_0000_0000_0000,
{
    assert(-0x4000_0000_0000_0000 <= x * k <= 0x4000_0000_0000_0000) by (nonlinear_arith)
        requires
            -0x8000_0000 <= x < 0x8000_0000,
            -0x8000_0000 <= k < 0x8000_0000,
    ;
}

/// Projects the three phase quantities onto the stationary `(alpha, beta)` frame.
pub fn clarke_transform(a: i32, b: i32, c: i32) -> (r: (i64, i64))
    ensures
        r.0 == clarke_alpha(a as int, b as int, c as int),
        r.1 == clarke_beta(b as int, c as int),
{
    let sum = 2 * (a as i128) - b as i128 - c as i128;
    proof {
        lemma_div_trunc_shrinks(sum as int, 3);
    }
    let alpha = div_trunc_exec(sum, 3);
    let diff = b as i128 - c as i128;
    assert(-0x1_0000_0000_0000_0000 <= diff * INV_SQRT3 <= 0x1_0000_0000_0000_0000) by (nonlinear_arith)
        requires
            -0x1_0000_0000 <= diff <= 0x1_0000_0000,
    ;
    let scaled = diff * INV_SQRT3 as i128;
    proof {
        lemma_div_trunc_shrinks(scaled as int, ONE as int);
        assert(-0x1_0000_0000_0000 <= div_trunc(scaled as int, ONE as int) <= 0x1_0000_0000_0000) by {
            crate::fixed::lemma_div_trunc_bounds(
                scaled as int,
                ONE as int,
                -0x1_0000_0000_0000,
                0x1_0000_0000_0000,
            );
        }
    }
    let beta = div_trunc_exec(scaled, ONE as i128);
    (alpha as i64, beta as i64)
}

/// Rebuilds the three phase quantities from the stationary `(alpha, beta)` frame.
pub fn inverse_clarke_transform(alpha: i32, beta: i32) -> (r: (i64, i64, i64))
    ensures
        r.0 == alpha,
        r.1 == inverse_clarke_phase(alpha as int, beta as int, 1),
        r.2 == inverse_clarke_phase(alpha as int, beta as int, -1),
{
    proof {
        lemma_product_bounds(SQRT3_2 as int, beta as int);
        lemma_product_bounds(HALF as int, alpha as int);
    }
    let sb = SQRT3_2 as i128 * beta as i128;
    let ha = HALF as i128 * alpha as i128;
    proof {
        crate::fixed::lemma_div_trunc_bounds(sb - ha, ONE as int, -0x1_0000_0000_0000, 0x1_0000_0000_0000);
        crate::fixed::lemma_div_trunc_bounds(-sb - ha, ONE as int, -0x1_0000_0000_0000, 0x1_0000_0000_0000);
    }
    let b = div_trunc_exec(sb - ha, ONE as i128);
    let c = div_trunc_exec(-sb - ha, ONE as i128);
    assert(sb - ha == 1 * (SQRT3_2 * beta) - HALF * alpha);
    assert(-sb - ha == -1 * (SQRT3_2 * beta) - HALF * alpha);
    (alpha as i64, b as i64, c as i64)
}

/// Turns the stationary `(alpha, beta)` frame into the rotating `(d, q)` frame of the
/// angle whose sine and cosine are given.
pub fn park_transform(alpha: i32, beta: i32, angle_sin: i32, angle_cos: i32) -> (r: (i64, i64))
    ensures
        r.0 == rotate_first(alpha as int, beta as int, angle_sin as int, angle_cos as int),
        r.1 == rotate_second(alpha as int, beta as int, angle_sin as int, angle_cos as int),
{
    rotate_wide(alpha as i128, beta as i128, angle_sin as i128, angle_cos as i128)
}

/// Turns the rotating `(d, q)` frame back into the stationary `(alpha, beta)` frame.
pub fn inverse_park_transform(d: i32, q: i32, angle_sin: i32, angle_cos: i32) -> (r: (i64, i64))
    ensures
        r.0 == rotate_first(d as int, q as int, -angle_sin, angle_cos as int),
        r.1 == rotate_second(d as int, q as int, -angle_sin, angle_cos as int),
{
    rotate_wide(d as i128, q as i128, -(angle_sin as i128), angle_cos as i128)
}

/// `(x, y)` turned by the angle of sine `-sin` and cosine `cos`.
fn rotate_wide(x: i128, y: i128, sin: i128, cos: i128) -> (r: (i64, i64))
    requires
        i32::MIN <= x <= i32::MAX,
        i32::MIN <= y <= i32::MAX,
        -0x8000_0000 <= sin <= 0x8000_0000,
        i32::MIN <= cos <= i32::MAX,
    ensures
        r.0 == rotate_first(x as int, y as int, sin as int, cos as int),
        r.1 == rotate_second(x as int, y as int, sin as int, cos as int),
{
    proof {
        assert(-0x4000_0000_0000_0000 <= cos * x <= 0x4000_0000_0000_0000) by (nonlinear_arith)
            requires
                -0x8000_0000 <= x <= 0x8000_0000,
                -0x8000_0000 <= cos <= 0x8000_0000,
        ;
        assert(-0x4000_0000_0000_0000 <= cos * y <= 0x4000_0000_0000_0000) by (nonlinear_arith)
            requires
                -0x8000_0000 <= y <= 0x8000_0000,
                -0x8000_0000 <= cos <= 0x8000_0000,
        ;
        assert(-0x4000_0000_0000_0000 <= sin * x <= 0x4000_0000_0000_0000) by (nonlinear_arith)
            requires
                -0x8000_0000 <= x <= 0x8000_0000,
                -0x8000_0000 <= sin <= 0x8000_0000,
        ;
        assert(-0x4000_0000_0000_0000 <= sin * y <= 0x4000_0000_0000_0000) by (nonlinear_arith)
            requires
                -0x8000_0000 <= y <= 0x8000_0000,
                -0x8000_0000 <= sin <= 0x8000_0000,
        ;
    }
    let first = cos * x + sin * y;
    let second = cos * y - sin * x;
    proof {
        crate::fixed::lemma_div_trunc_bounds(first as int, ONE as int, -0x1_0000_0000_0000, 0x1_0000_0000_0000);
        crate::fixed::lemma_div_trunc_bounds(second as int, ONE as int, -0x1_0000_0000_0000, 0x1_0000_0000_0000);
    }
    (div_trunc_exec(first, ONE as i128) as i64, div_trunc_exec(second, ONE as i128) as i64)
}

/// The inverse Clarke transform rebuilds a balanced triple (`a + b + c == 0`) from its
/// Clarke transform: `a` exactly, `b` and `c` to within two units plus `|b - c| / 2^19`
/// (the rounding of the constants and of each quotient).
pub proof fn lemma_clarke_round_trip(a: int, b: int, c: int)
    requires
        a + b + c == 0,
    ensures
        clarke_alpha(a, b, c) == a,
        abs(inverse_clarke_phase(a, clarke_beta(b, c), 1) - b) * 0x8_0000 <= abs(b - c)
            + 0x10_0000,
        abs(inverse_clarke_phase(a, clarke_beta(b, c), -1) - c) * 0x8_0000 <= abs(b - c)
            + 0x10_0000,
{
    if a >= 0 {
        lemma_div_by_multiple(a, 3);
    } else {
        lemma_div_by_multiple(-a, 3);
    }
    assert(2 * a - b - c == a * 3);
    let one = ONE as int;
    let d = b - c;
    let beta = clarke_beta(b, c);
    lemma_div_trunc_residue(d * INV_SQRT3, one);
    let e1 = d * INV_SQRT3 - one * beta;
    let xb = 1 * (SQRT3_2 * beta) - HALF * a;
    let xc = -1 * (SQRT3_2 * beta) - HALF * a;
    lemma_div_trunc_residue(xb, one);
    lemma_div_trunc_residue(xc, one);
    let b2 = inverse_clarke_phase(a, beta, 1);
    let c2 = inverse_clarke_phase(a, beta, -1);
    let e2 = xb - one * b2;
    let e3 = xc - one * c2;
    assert(one * one * (b2 - b) == -6876 * d - SQRT3_2 * e1 - one * e2) by (nonlinear_arith)
        requires
            one == 65536,
            e1 == d * INV_SQRT3 - one * beta,
            e2 == xb - one * b2,
            xb == 1 * (SQRT3_2 * beta) - HALF * a,
            d == b - c,
            a + b + c == 0,
            INV_SQRT3 == 37837,
            SQRT3_2 == 56756,
            HALF == 32768,
    ;
    assert(one * one * (c2 - c) == 6876 * d + SQRT3_2 * e1 - one * e3) by (nonlinear_arith)
        requires
            one == 65536,
            e1 == d * INV_SQRT3 - one * beta,
            e3 == xc - one * c2,
            xc == -1 * (SQRT3_2 * beta) - HALF * a,
            d == b - c,
            a + b + c == 0,
            INV_SQRT3 == 37837,
            SQRT3_2 == 56756,
            HALF == 32768,
    ;
    assert(abs(b2 - b) * 0x8_0000 <= abs(d) + 0x10_0000) by (nonlinear_arith)
        requires
            one == 65536,
            one * one * (b2 - b) == -6876 * d - SQRT3_2 * e1 - one * e2,
            -one < e1 < one,
            -one < e2 < one,
            SQRT3_2 == 56756,
    ;
    assert(abs(c2 - c) * 0x8_0000 <= abs(d) + 0x10_0000) by (nonlinear_arith)
        requires
            one == 65536,
            one * one * (c2 - c) == 6876 * d + SQRT3_2 * e1 - one * e3,
            -one < e1 < one,
            -one < e3 < one,
            SQRT3_2 == 56756,
    ;
}

proof fn lemma_small_product(k: int, e: int)
    requires
        abs(k) <= ONE,
        abs(e) < ONE,
    ensures
        abs(k * e) <= ONE * ONE,
{
    assert(abs(k * e) <= ONE * ONE) by (nonlinear_arith)
        requires
            -65536 <= k <= 65536,
            -65536 < e < 65536,
    ;
}

/// The inverse Park transform undoes the Park transform of the same angle: with sine and
/// cosine of magnitude at most one, `ONE^2 * |x' - x|` is at most
/// `|sin^2 + cos^2 - ONE^2| * |x| + 3 * ONE^2`, and likewise for `y`; so for a sine and
/// cosine whose squares sum to `ONE^2` the error is under three units.
pub proof fn lemma_park_round_trip(x: int, y: int, sin: int, cos: int)
    requires
        abs(sin) <= ONE,
        abs(cos) <= ONE,
    ensures
        ({
            let d = rotate_first(x, y, sin, cos);
            let q = rotate_second(x, y, sin, cos);
            let n = sin * sin + cos * cos - ONE * ONE;
            &&& ONE * ONE * abs(rotate_first(d, q, -sin, cos) - x) <= abs(n) * abs(x) + 3 * ONE
                * ONE
            &&& ONE * ONE * abs(rotate_second(d, q, -sin, cos) - y) <= abs(n) * abs(y) + 3 * ONE
                * ONE
        }),
{
    let one = ONE as int;
    let d = rotate_first(x, y, sin, cos);
    let q = rotate_second(x, y, sin, cos);
    let x2 = rotate_first(d, q, -sin, cos);
    let y2 = rotate_second(d, q, -sin, cos);
    let n = sin * sin + cos * cos - one * one;
    lemma_div_trunc_residue(cos * x + sin * y, one);
    lemma_div_trunc_residue(cos * y - sin * x, one);
    lemma_div_trunc_residue(cos * d + (-sin) * q, one);
    lemma_div_trunc_residue(cos * q - (-sin) * d, one);
    let e1 = cos * x + sin * y - one * d;
    let e2 = cos * y - sin * x - one * q;
    let e3 = cos * d + (-sin) * q - one * x2;
    let e4 = cos * q - (-sin) * d - one * y2;
    let pd = one * d;
    let pq = one * q;
    assert(one * (one * x2) == cos * pd - sin * pq - one * e3) by (nonlinear_arith)
        requires
            e3 == cos * d + (-sin) * q - one * x2,
            pd == one * d,
            pq == one * q,
    ;
    assert((-sin) * d == -(sin * d)) by (nonlinear_arith);
    assert(one * y2 == cos * q + sin * d - e4);
    assert(one * (one * y2) == cos * pq + sin * pd - one * e4) by (nonlinear_arith)
        requires
            one * y2 == cos * q + sin * d - e4,
            pd == one * d,
            pq == one * q,
    ;
    assert(cos * pd == cos * (cos * x) + cos * (sin * y) - cos * e1) by (nonlinear_arith)
        requires
            pd == cos * x + sin * y - e1,
    ;
    assert(sin * pq == sin * (cos * y) - sin * (sin * x) - sin * e2) by (nonlinear_arith)
        requires
            pq == cos * y - sin * x - e2,
    ;
    assert(cos * pq == cos * (cos * y) - cos * (sin * x) - cos * e2) by (nonlinear_arith)
        requires
            pq == cos * y - sin * x - e2,
    ;
    assert(sin * pd == sin * (cos * x) + sin * (sin * y) - sin * e1) by (nonlinear_arith)
        requires
            pd == cos * x + sin * y - e1,
    ;
    assert(cos * (sin * y) == sin * (cos * y)) by (nonlinear_arith);
    assert(cos * (sin * x) == sin * (cos * x)) by (nonlinear_arith);
    assert(n * x == sin * (sin * x) + cos * (cos * x) - one * (one * x)) by (nonlinear_arith)
        requires
            n == sin * sin + cos * cos - one * one,
    ;
    assert(n * y == sin * (sin * y) + cos * (cos * y) - one * (one * y)) by (nonlinear_arith)
        requires
            n == sin * sin + cos * cos - one * one,
    ;
    assert(one * one * (x2 - x) == one * (one * x2) - one * (one * x)) by (nonlinear_arith);
    assert(one * one * (y2 - y) == one * (one * y2) - one * (one * y)) by (nonlinear_arith);
    assert(one * one * (x2 - x) == n * x - cos * e1 + sin * e2 - one * e3);
    assert(one * one * (y2 - y) == n * y - cos * e2 - sin * e1 - one * e4);
    lemma_small_product(cos, e1);
    lemma_small_product(sin, e2);
    lemma_small_product(cos, e2);
    lemma_small_product(sin, e1);
    lemma_small_product(one, e3);
    lemma_small_product(one, e4);
    assert(abs(n * x) == abs(n) * abs(x)) by (nonlinear_arith);
    assert(abs(n * y) == abs(n) * abs(y)) by (nonlinear_arith);
}

} // verus!
