//! Fixed-point arithmetic shared by the control pipeline.
//!
//! Signals (voltages, currents), gains, time steps and sine/cosine values are `i32`
//! numbers in the Q16.16 format: the raw value `x` stands for `x / 65536`.
//! Angles are Q16.16 degrees. Time steps are Q16.16 numbers of a time unit that the
//! caller picks (milliseconds give a resolution of about 15 ns); integral and
//! derivative gains are then per that unit. Results are truncated toward zero, as
//! Rust's `/` does.
use vstd::prelude::*;
use vstd::arithmetic::div_mod::{
    lemma_div_by_multiple, lemma_div_is_ordered, lemma_div_pos_is_pos, lemma_fundamental_div_mod,
    lemma_mod_bound,
};

verus! {

/// Raw value of 1.0 in Q16.16.
pub const ONE: i32 = 65536;

/// Quotient of `a` by `b > 0`, truncated toward zero.
pub open spec fn div_trunc(a: int, b: int) -> int {
    if a >= 0 {
        a / b
    } else {
        -((-a) / b)
    }
}

/// Product of two Q16.16 numbers, truncated toward zero.
pub open spec fn fx_mul(a: int, b: int) -> int {
    div_trunc(a * b, ONE as int)
}

/// Quotient of two Q16.16 numbers (`b > 0`), truncated toward zero.
pub open spec fn fx_div(a: int, b: int) -> int {
    div_trunc(a * ONE, b)
}

/// `a / b` truncated toward zero.
pub fn div_trunc_exec(a: i128, b: i128) -> (r: i128)
    requires
        b > 0,
        a > i128::MIN,
    ensures
        r == div_trunc(a as int, b as int),
{
    if a >= 0 {
        a / b
    } else {
        -((-a) / b)
    }
}

/// A truncated quotient stays between the bounds that the dividend has in multiples
/// of the divisor.
pub proof fn lemma_div_trunc_bounds(a: int, b: int, lo: int, hi: int)
    requires
        b > 0,
        lo <= 0 <= hi,
        lo * b <= a <= hi * b,
    ensures
        lo <= div_trunc(a, b) <= hi,
{
    if a >= 0 {
        lemma_div_is_ordered(a, hi * b, b);
        lemma_div_by_multiple(hi, b);
        lemma_div_pos_is_pos(a, b);
    } else {
        assert(-a <= (-lo) * b) by (nonlinear_arith)
            requires
                lo * b <= a,
        ;
        lemma_div_is_ordered(-a, (-lo) * b, b);
        lemma_div_by_multiple(-lo, b);
        lemma_div_pos_is_pos(-a, b);
    }
}

/// A truncated quotient by a divisor of at least one is no larger in magnitude than the
/// dividend.
pub proof fn lemma_div_trunc_shrinks(a: int, b: int)
    requires
        b >= 1,
    ensures
        a >= 0 ==> 0 <= div_trunc(a, b) <= a,
        a < 0 ==> a <= div_trunc(a, b) <= 0,
{
    if a >= 0 {
        assert(0 * b <= a <= a * b) by (nonlinear_arith)
            requires
                a >= 0,
                b >= 1,
        ;
        lemma_div_trunc_bounds(a, b, 0, a);
    } else {
        assert(a * b <= a <= 0 * b) by (nonlinear_arith)
            requires
                a < 0,
                b >= 1,
        ;
        lemma_div_trunc_bounds(a, b, a, 0);
    }
}

/// Magnitude of `x`.
pub open spec fn abs(x: int) -> int {
    if x < 0 {
        -x
    } else {
        x
    }
}

/// Truncation toward zero loses less than one divisor.
pub proof fn lemma_div_trunc_residue(a: int, b: int)
    requires
        b > 0,
    ensures
        -b < a - b * div_trunc(a, b) < b,
        a >= 0 ==> a - b * div_trunc(a, b) >= 0,
        a < 0 ==> a - b * div_trunc(a, b) <= 0,
{
    if a >= 0 {
        lemma_fundamental_div_mod(a, b);
        lemma_mod_bound(a, b);
    } else {
        lemma_fundamental_div_mod(-a, b);
        lemma_mod_bound(-a, b);
        assert(b * (-((-a) / b)) == -(b * ((-a) / b))) by (nonlinear_arith);
    }
}

} // verus!
