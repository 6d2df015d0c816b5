//! Space-vector PWM: per-phase on-times from a stationary-frame voltage reference.
//!
//! Voltages, times, sines and cosines are Q16.16 numbers; angles are Q16.16 degrees.
use vstd::prelude::*;
use vstd::arithmetic::div_mod::{lemma_fundamental_div_mod, lemma_fundamental_div_mod_converse, lemma_mod_bound};
use crate::fixed::{div_trunc, div_trunc_exec, lemma_div_trunc_bounds, lemma_div_trunc_residue, ONE};
use crate::transforms::{HALF, SQRT3_2};

verus! {

/// A full turn, 360 degrees, in Q16.16.
pub const TURN: i64 = 23592960;

/// The width of a sector, 60 degrees, in Q16.16.
pub const SECTOR_WIDTH: i64 = 3932160;

/// Why a reference cannot be modulated.
#[derive(Debug, Clone, Copy, PartialEq, Eq, Structural)]
pub enum SvpwmError {
    /// The reference's magnitude exceeds the DC link voltage.
    OverModulation,
}

/// Sector `1..=6` of an angle: the 60-degree slice of `angle mod 360` that holds it,
/// each slice holding its lower edge.
pub open spec fn sector_of(angle: int) -> int {
    (angle % (TURN as int)) / (SECTOR_WIDTH as int) + 1
}

/// Sine of `k * 60` degrees in Q16.16.
pub open spec fn sin_sixth(k: int) -> int {
    if k == 1 || k == 2 {
        SQRT3_2 as int
    } else if k == 4 || k == 5 {
        -SQRT3_2
    } else {
        0
    }
}

/// Cosine of `k * 60` degrees in Q16.16.
pub open spec fn cos_sixth(k: int) -> int {
    if k == 0 || k == 6 {
        ONE as int
    } else if k == 1 || k == 5 {
        HALF as int
    } else if k == 2 || k == 4 {
        -HALF
    } else {
        -ONE
    }
}

/// `sin(k * 60 - angle)` in Q32.32, from the angle's sine and cosine.
pub open spec fn lead_weight(k: int, sin: int, cos: int) -> int {
    sin_sixth(k) * cos - cos_sixth(k) * sin
}

/// `sin(angle - (k - 1) * 60)` in Q32.32, from the angle's sine and cosine.
pub open spec fn lag_weight(k: int, sin: int, cos: int) -> int {
    sin * cos_sixth(k - 1) - cos * sin_sixth(k - 1)
}

/// `r` is the integer square root of `n`.
pub open spec fn is_sqrt(n: int, r: int) -> bool {
    0 <= r && r * r <= n < (r + 1) * (r + 1)
}

/// The integer square root of `n >= 0`.
pub open spec fn sqrt_floor(n: int) -> int {
    choose|r: int| is_sqrt(n, r)
}

proof fn lemma_sqrt_unique(n: int, r1: int, r2: int)
    requires
        is_sqrt(n, r1),
        is_sqrt(n, r2),
    ensures
        r1 == r2,
{
    if r1 < r2 {
        assert((r1 + 1) * (r1 + 1) <= r2 * r2) by (nonlinear_arith)
            requires
                0 <= r1 + 1 <= r2,
        ;
    } else if r2 < r1 {
        assert((r2 + 1) * (r2 + 1) <= r1 * r1) by (nonlinear_arith)
            requires
                0 <= r2 + 1 <= r1,
        ;
    }
}

proof fn lemma_sqrt_exists(n: nat)
    ensures
        is_sqrt(n as int, sqrt_floor(n as int)),
    decreases n,
{
    if n == 0 {
        assert(is_sqrt(0, 0));
    } else {
        lemma_sqrt_exists((n - 1) as nat);
        let r = sqrt_floor(n - 1);
        if (r + 1) * (r + 1) <= n {
            assert((r + 1) * (r + 1) < (r + 2) * (r + 2)) by (nonlinear_arith)
                requires
                    r >= 0,
            ;
            assert(is_sqrt(n as int, r + 1));
        } else {
            assert(is_sqrt(n as int, r));
        }
    }
}

proof fn lemma_sqrt_floor(n: int, r: int)
    requires
        is_sqrt(n, r),
    ensures
        sqrt_floor(n) == r,
{
    lemma_sqrt_unique(n, r, sqrt_floor(n));
}

/// Dwell time of an active vector: `|v| / v_dc * period * weight`.
pub open spec fn active_time(magnitude: int, period: int, weight: int, v_dc: int) -> int {
    div_trunc(magnitude * period * weight, v_dc * ONE * ONE)
}

/// Phase on-times of sector `k` from the active times `t1`, `t2` and the period; the null
/// time is split evenly before and after the active vectors.
pub open spec fn phase_times(k: int, t1: int, t2: int, period: int) -> (int, int, int) {
    let h = div_trunc(period - t1 - t2, 2);
    if k == 1 {
        (h + t1 + t2, h + t2, h)
    } else if k == 2 {
        (h + t1, h + t1 + t2, h)
    } else if k == 3 {
        (h, h + t1 + t2, h + t2)
    } else if k == 4 {
        (h, h + t1, h + t1 + t2)
    } else if k == 5 {
        (h + t2, h, h + t1 + t2)
    } else {
        (h + t1 + t2, h, h + t1)
    }
}

/// On-times for a reference of integer magnitude `magnitude` at `angle`.
pub open spec fn svpwm_times(
    magnitude: int,
    angle: int,
    sin: int,
    cos: int,
    v_dc: int,
    period: int,
) -> (int, int, int) {
    let k = sector_of(angle);
    let t1 = active_time(magnitude, period, lead_weight(k, sin, cos), v_dc);
    let t2 = active_time(magnitude, period, lag_weight(k, sin, cos), v_dc);
    phase_times(k, t1, t2, period)
}

/// The reference `(v_alpha, v_beta)` is at least as long as `v_dc`.
pub open spec fn over_modulated(v_alpha: int, v_beta: int, v_dc: int) -> bool {
    v_alpha * v_alpha + v_beta * v_beta >= v_dc * v_dc
}

/// Integer square root.
pub fn isqrt(n: u64) -> (r: u64)
    ensures
        is_sqrt(n as int, r as int),
{
    let mut lo: u128 = 0;
    let mut hi: u128 = 0x1_0000_0000;
    assert(hi * hi > u64::MAX) by (nonlinear_arith)
        requires
            hi == 0x1_0000_0000u128,
    ;
    while hi - lo > 1
        invariant
            lo < hi <= 0x1_0000_0000,
            lo * lo <= n,
            n < hi * hi,
        decreases hi - lo,
    {
        let mid = lo + (hi - lo) / 2;
        assert(mid * mid <= 0x1_0000_0000 * 0x1_0000_0000) by (nonlinear_arith)
            requires
                mid <= 0x1_0000_0000,
        ;
        if mid * mid <= n as u128 {
            lo = mid;
        } else {
            hi = mid;
        }
    }
    assert(hi == lo + 1);
    lo as u64
}

/// Sine and cosine of `k * 60` degrees in Q16.16.
fn sixth(k: u8) -> (r: (i64, i64))
    requires
        k <= 6,
    ensures
        r.0 == sin_sixth(k as int),
        r.1 == cos_sixth(k as int),
{
    let s = SQRT3_2 as i64;
    let h = HALF as i64;
    let one = ONE as i64;
    if k == 0 || k == 6 {
        (0, one)
    } else if k == 1 {
        (s, h)
    } else if k == 2 {
        (s, -h)
    } else if k == 3 {
        (0, -one)
    } else if k == 4 {
        (-s, -h)
    } else {
        (-s, h)
    }
}

/// Dwell time of an active vector, in wide arithmetic.
fn active(magnitude: i128, period: i128, weight: i128, v_dc: i128) -> (r: i128)
    requires
        0 <= magnitude <= v_dc,
        0 < v_dc <= i32::MAX,
        i32::MIN <= period <= i32::MAX,
        -0x1_0000_0000_0000 <= weight <= 0x1_0000_0000_0000,
    ensures
        r == active_time(magnitude as int, period as int, weight as int, v_dc as int),
        -0x8000_0000_0000 <= r <= 0x8000_0000_0000,
{
    let one = ONE as i128;
    let ghost pw_bound: int = 0x8000_0000int * 0x1_0000_0000_0000int;
    assert(-pw_bound <= period * weight <= pw_bound) by (nonlinear_arith)
        requires
            -0x8000_0000 <= period <= 0x8000_0000,
            -0x1_0000_0000_0000 <= weight <= 0x1_0000_0000_0000,
            pw_bound == 0x8000_0000 * 0x1_0000_0000_0000,
    ;
    let pw = period * weight;
    assert(-v_dc * pw_bound <= magnitude * pw <= v_dc * pw_bound) by (nonlinear_arith)
        requires
            0 <= magnitude <= v_dc,
            -pw_bound <= pw <= pw_bound,
            pw_bound > 0,
    ;
    assert(v_dc * pw_bound <= 0x8000_0000 * pw_bound) by (nonlinear_arith)
        requires
            v_dc <= 0x8000_0000,
            pw_bound > 0,
    ;
    let num = magnitude * pw;
    let den = v_dc * one * one;
    proof {
        assert(magnitude * period * weight == magnitude * pw) by (nonlinear_arith)
            requires
                pw == period * weight,
        ;
        assert((-0x8000_0000_0000) * den == -v_dc * pw_bound);
        assert(0x8000_0000_0000 * den == v_dc * pw_bound);
        lemma_div_trunc_bounds(num as int, den as int, -0x8000_0000_0000, 0x8000_0000_0000);
    }
    div_trunc_exec(num, den)
}

/// On-times of the three phases for the reference `(v_alpha, v_beta)` at `angle`, whose
/// sine and cosine are given, from a DC link of `v_dc` over `switching_period`.
/// A reference at least as long as `v_dc` cannot be modulated and is refused.
pub fn svpwm(
    v_alpha: i32,
    v_beta: i32,
    angle: i32,
    angle_sin: i32,
    angle_cos: i32,
    v_dc: i32,
    switching_period: i32,
) -> (r: Result<(i64, i64, i64), SvpwmError>)
    requires
        v_dc > 0,
    ensures
        r is Err <==> over_modulated(v_alpha as int, v_beta as int, v_dc as int),
        r matches Ok(t) ==> (t.0 as int, t.1 as int, t.2 as int) == svpwm_times(
            sqrt_floor(v_alpha * v_alpha + v_beta * v_beta),
            angle as int,
            angle_sin as int,
            angle_cos as int,
            v_dc as int,
            switching_period as int,
        ),
{
    let a = v_alpha as i128;
    let b = v_beta as i128;
    assert(a * a <= 0x4000_0000_0000_0000 && b * b <= 0x4000_0000_0000_0000) by (nonlinear_arith)
        requires
            -0x8000_0000 <= a <= 0x8000_0000,
            -0x8000_0000 <= b <= 0x8000_0000,
    ;
    assert(a * a >= 0 && b * b >= 0) by (nonlinear_arith);
    let n = a * a + b * b;
    let dc = v_dc as i128;
    assert(dc * dc <= 0x4000_0000_0000_0000) by (nonlinear_arith)
        requires
            0 < dc <= 0x8000_0000,
    ;
    if n >= dc * dc {
        return Err(SvpwmError::OverModulation);
    }
    let magnitude = isqrt(n as u64) as i128;
    proof {
        lemma_sqrt_floor(n as int, magnitude as int);
        if magnitude > dc {
            assert(dc * dc < magnitude * magnitude) by (nonlinear_arith)
                requires
                    0 < dc < magnitude,
            ;
        }
    }
    let k = sector(angle);
    let (s1, c1) = sixth(k);
    let (s0, c0) = sixth(k - 1);
    let sin = angle_sin as i128;
    let cos = angle_cos as i128;
    proof {
        assert(-0x8000_0000_0000 <= s1 * cos <= 0x8000_0000_0000) by (nonlinear_arith)
            requires
                -0x1_0000 <= s1 <= 0x1_0000,
                -0x8000_0000 <= cos <= 0x8000_0000,
        ;
        assert(-0x8000_0000_0000 <= c1 * sin <= 0x8000_0000_0000) by (nonlinear_arith)
            requires
                -0x1_0000 <= c1 <= 0x1_0000,
                -0x8000_0000 <= sin <= 0x8000_0000,
        ;
        assert(-0x8000_0000_0000 <= sin * c0 <= 0x8000_0000_0000) by (nonlinear_arith)
            requires
                -0x1_0000 <= c0 <= 0x1_0000,
                -0x8000_0000 <= sin <= 0x8000_0000,
        ;
        assert(-0x8000_0000_0000 <= cos * s0 <= 0x8000_0000_0000) by (nonlinear_arith)
            requires
                -0x1_0000 <= s0 <= 0x1_0000,
                -0x8000_0000 <= cos <= 0x8000_0000,
        ;
    }
    let lead = s1 as i128 * cos - c1 as i128 * sin;
    let lag = sin * c0 as i128 - cos * s0 as i128;
    let period = switching_period as i128;
    let t1 = active(magnitude, period, lead, dc);
    let t2 = active(magnitude, period, lag, dc);
    let h = div_trunc_exec(period - t1 - t2, 2);
    proof {
        lemma_div_trunc_bounds((period - t1 - t2) as int, 2, -0x2_0000_0000_0000, 0x2_0000_0000_0000);
    }
    let t = if k == 1 {
        (h + t1 + t2, h + t2, h)
    } else if k == 2 {
        (h + t1, h + t1 + t2, h)
    } else if k == 3 {
        (h, h + t1 + t2, h + t2)
    } else if k == 4 {
        (h, h + t1, h + t1 + t2)
    } else if k == 5 {
        (h + t2, h, h + t1 + t2)
    } else {
        (h + t1 + t2, h, h + t1)
    };
    Ok((t.0 as i64, t.1 as i64, t.2 as i64))
}

/// Sector `1..=6` of `angle` (Q16.16 degrees, any turn).
pub fn sector(angle: i32) -> (r: u8)
    ensures
        r == sector_of(angle as int),
        1 <= r <= 6,
{
    let a = angle as i64;
    let wrapped: i64 = if a >= 0 {
        a % TURN
    } else {
        let m = (-a) % TURN;
        if m == 0 {
            0
        } else {
            TURN - m
        }
    };
    proof {
        let t = TURN as int;
        if a >= 0 {
        } else {
            lemma_fundamental_div_mod(-a, t);
            lemma_mod_bound(-a, t);
            let q = (-a) / t;
            let m = (-a) % t;
            if m == 0 {
                assert(a == t * (-q) + 0);
                lemma_fundamental_div_mod_converse(a as int, t, -q, 0);
            } else {
                assert(a == t * (-q - 1) + (t - m)) by (nonlinear_arith)
                    requires
                        -a == t * q + m,
                ;
                lemma_fundamental_div_mod_converse(a as int, t, -q - 1, t - m);
            }
        }
        assert(wrapped == (a as int) % t);
    }
    (wrapped / SECTOR_WIDTH + 1) as u8
}

/// A zero reference is pure null vector: every phase is on for half the period, whatever
/// the angle.
pub proof fn lemma_zero_reference(angle: int, sin: int, cos: int, v_dc: int, period: int)
    requires
        v_dc > 0,
    ensures
        !over_modulated(0, 0, v_dc),
        svpwm_times(sqrt_floor(0), angle, sin, cos, v_dc, period) == (
            div_trunc(period, 2),
            div_trunc(period, 2),
            div_trunc(period, 2),
        ),
{
    assert(v_dc * v_dc > 0) by (nonlinear_arith)
        requires
            v_dc > 0,
    ;
    lemma_sqrt_floor(0, 0);
    let k = sector_of(angle);
    assert(0 * period * lead_weight(k, sin, cos) == 0);
    assert(0 * period * lag_weight(k, sin, cos) == 0);
}

/// For a reference shorter than `v_dc`, and a sine and cosine that point into the
/// angle's sector (both active weights non-negative, summing to at most one), every
/// on-time lies within `[0, period]`.
pub proof fn lemma_times_within_period(
    v_alpha: int,
    v_beta: int,
    angle: int,
    sin: int,
    cos: int,
    v_dc: int,
    period: int,
)
    requires
        v_dc > 0,
        period >= 0,
        !over_modulated(v_alpha, v_beta, v_dc),
        lead_weight(sector_of(angle), sin, cos) >= 0,
        lag_weight(sector_of(angle), sin, cos) >= 0,
        lead_weight(sector_of(angle), sin, cos) + lag_weight(sector_of(angle), sin, cos) <= ONE
            * ONE,
    ensures
        ({
            let t = svpwm_times(
                sqrt_floor(v_alpha * v_alpha + v_beta * v_beta),
                angle,
                sin,
                cos,
                v_dc,
                period,
            );
            &&& 0 <= t.0 <= period
            &&& 0 <= t.1 <= period
            &&& 0 <= t.2 <= period
        }),
{
    let n = v_alpha * v_alpha + v_beta * v_beta;
    assert(n >= 0) by (nonlinear_arith)
        requires
            n == v_alpha * v_alpha + v_beta * v_beta,
    ;
    lemma_sqrt_exists(n as nat);
    let m = sqrt_floor(n);
    if m > v_dc {
        assert(v_dc * v_dc < m * m) by (nonlinear_arith)
            requires
                0 < v_dc < m,
        ;
    }
    let k = sector_of(angle);
    let w1 = lead_weight(k, sin, cos);
    let w2 = lag_weight(k, sin, cos);
    let den = v_dc * ONE * ONE;
    assert(den > 0) by (nonlinear_arith)
        requires
            v_dc > 0,
            den == v_dc * ONE * ONE,
    ;
    let x1 = m * period * w1;
    let x2 = m * period * w2;
    assert(x1 >= 0 && x2 >= 0) by (nonlinear_arith)
        requires
            m >= 0,
            period >= 0,
            w1 >= 0,
            w2 >= 0,
            x1 == m * period * w1,
            x2 == m * period * w2,
    ;
    let t1 = active_time(m, period, w1, v_dc);
    let t2 = active_time(m, period, w2, v_dc);
    lemma_div_trunc_residue(x1, den);
    lemma_div_trunc_residue(x2, den);
    assert(t1 >= 0 && t2 >= 0) by (nonlinear_arith)
        requires
            den > 0,
            x1 - den * t1 < den,
            x2 - den * t2 < den,
            x1 >= 0,
            x2 >= 0,
    ;
    assert(x1 + x2 <= den * period) by (nonlinear_arith)
        requires
            0 <= m <= v_dc,
            period >= 0,
            w1 + w2 <= ONE * ONE,
            x1 == m * period * w1,
            x2 == m * period * w2,
            den == v_dc * ONE * ONE,
    ;
    assert(t1 + t2 <= period) by (nonlinear_arith)
        requires
            den > 0,
            den * t1 <= x1,
            den * t2 <= x2,
            x1 + x2 <= den * period,
    ;
    lemma_div_trunc_residue(period - t1 - t2, 2);
}

/// Each sector holds its lower edge: the angle `k * 60` degrees lies in sector `k + 1`,
/// and the angle just below it in sector `k` (or in sector 6 for `k == 0`).
pub proof fn lemma_sector_edges(k: int)
    requires
        0 <= k < 6,
    ensures
        sector_of(k * SECTOR_WIDTH) == k + 1,
        sector_of(k * SECTOR_WIDTH - 1) == if k == 0 {
            6
        } else {
            k
        },
{
    let t = TURN as int;
    let w = SECTOR_WIDTH as int;
    lemma_fundamental_div_mod_converse(k * w, t, 0, k * w);
    if k == 0 {
        lemma_fundamental_div_mod_converse(-1, t, -1, t - 1);
        lemma_fundamental_div_mod_converse(t - 1, w, 5, w - 1);
    } else {
        lemma_fundamental_div_mod_converse(k * w - 1, t, 0, k * w - 1);
        lemma_fundamental_div_mod_converse(k * w - 1, w, k - 1, w - 1);
    }
    lemma_fundamental_div_mod_converse(k * w, w, k, 0);
}

} // verus!
