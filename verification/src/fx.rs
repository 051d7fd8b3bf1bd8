//! Fixed-point arithmetic for the simulation.
//!
//! Every physical quantity in the engine is an `i64` holding the physical
//! value scaled by [`SCALE`] (= 10^9): a reactivity of -0.05 dk/k is stored
//! as -50_000_000, a temperature of 300 K as 300 * SCALE, and so on.
//! Products of two scaled values are divided by `SCALE` again; the division
//! truncates toward zero, like Rust's integer division.

use vstd::prelude::*;

verus! {

/// One whole physical unit in fixed-point representation (10^9).
pub const SCALE: i64 = 1_000_000_000;

/// Truncating division of `a` by a positive divisor `d` (rounds toward zero,
/// like Rust's `/` on integers).
pub open spec fn tdiv(a: int, d: int) -> int
    recommends
        d > 0,
{
    if a >= 0 {
        a / d
    } else {
        -((-a) / d)
    }
}

/// The mathematical value of a fixed-point product: `a * b / SCALE`,
/// truncated toward zero.
pub open spec fn fmul(a: int, b: int) -> int {
    tdiv(a * b, SCALE as int)
}

/// The mathematical value of a fixed-point quotient: `a * SCALE / b`,
/// truncated toward zero.
pub open spec fn fdiv(a: int, b: int) -> int
    recommends
        b > 0,
{
    tdiv(a * (SCALE as int), b)
}

/// `x` limited to the closed interval `[lo, hi]`.
pub open spec fn clip(x: int, lo: int, hi: int) -> int
    recommends
        lo <= hi,
{
    if x < lo {
        lo
    } else if x > hi {
        hi
    } else {
        x
    }
}

/// Magnitude of an integer.
pub open spec fn abs_i(x: int) -> int {
    if x >= 0 {
        x
    } else {
        -x
    }
}

/// Truncating division shrinks magnitudes: `|tdiv(a, d)| == |a| / d`.
pub proof fn lemma_tdiv_abs(a: int, d: int)
    requires
        d > 0,
    ensures
        abs_i(tdiv(a, d)) == abs_i(a) / d,
        abs_i(tdiv(a, d)) <= abs_i(a),
{
    if a >= 0 {
        vstd::arithmetic::div_mod::lemma_div_nonincreasing(a, d);
        vstd::arithmetic::div_mod::lemma_div_pos_is_pos(a, d);
    } else {
        vstd::arithmetic::div_mod::lemma_div_nonincreasing(-a, d);
        vstd::arithmetic::div_mod::lemma_div_pos_is_pos(-a, d);
    }
}

/// Division by a positive divisor is monotone in the numerator.
pub proof fn lemma_div_le(x: int, y: int, d: int)
    requires
        0 <= x <= y,
        d > 0,
    ensures
        x / d <= y / d,
{
    vstd::arithmetic::div_mod::lemma_div_is_ordered(x, y, d);
}

/// Bound on a fixed-point product from bounds on its factors.
pub proof fn lemma_fmul_fits(a: int, b: int, aa: int, bb: int)
    requires
        abs_i(a) <= aa,
        abs_i(b) <= bb,
    ensures
        abs_i(fmul(a, b)) <= (aa * bb) / (SCALE as int),
        abs_i(fmul(a, b)) <= aa * bb,
{
    assert(abs_i(a * b) <= aa * bb) by (nonlinear_arith)
        requires
            abs_i(a) <= aa,
            abs_i(b) <= bb,
    ;
    lemma_tdiv_abs(a * b, SCALE as int);
    lemma_div_le(abs_i(a * b), aa * bb, SCALE as int);
    vstd::arithmetic::div_mod::lemma_div_nonincreasing(aa * bb, SCALE as int);
}

/// Bound on a general scaled quotient from bounds on the inputs.
pub proof fn lemma_muldiv_fits(a: int, b: int, d: int, aa: int, bb: int, dmin: int)
    requires
        abs_i(a) <= aa,
        abs_i(b) <= bb,
        0 < dmin <= d,
    ensures
        abs_i(tdiv(a * b, d)) <= (aa * bb) / dmin,
{
    assert(abs_i(a * b) <= aa * bb) by (nonlinear_arith)
        requires
            abs_i(a) <= aa,
            abs_i(b) <= bb,
    ;
    lemma_tdiv_abs(a * b, d);
    lemma_div_le(abs_i(a * b), aa * bb, d);
    vstd::arithmetic::div_mod::lemma_div_is_ordered_by_denominator(aa * bb, dmin, d);
}

proof fn lemma_tdiv_bound(a: int, d: int)
    requires
        d > 0,
    ensures
        a >= 0 ==> 0 <= tdiv(a, d) <= a,
        a < 0 ==> a <= tdiv(a, d) <= 0,
{
    if a >= 0 {
        vstd::arithmetic::div_mod::lemma_div_is_ordered_by_denominator(a, 1, d);
        vstd::arithmetic::div_mod::lemma_div_basics(a);
    } else {
        vstd::arithmetic::div_mod::lemma_div_is_ordered_by_denominator(-a, 1, d);
        vstd::arithmetic::div_mod::lemma_div_basics(-a);
    }
}

/// First-order relaxation of `x` toward `target` over a step `dt` with
/// time constant `tau`: `x + (target - x) * dt / (tau + dt)`. This is the
/// standard discrete form of exponential smoothing; the result always lies
/// between `x` and `target`.
pub open spec fn relax(x: int, target: int, dt: int, tau: int) -> int
    recommends
        dt >= 0,
        tau + dt > 0,
{
    x + tdiv((target - x) * dt, tau + dt)
}

/// The relaxed value lies between the old value and the target.
pub proof fn lemma_relax_between(x: int, target: int, dt: int, tau: int)
    requires
        dt >= 0,
        tau >= 0,
        tau + dt > 0,
    ensures
        x <= target ==> x <= relax(x, target, dt, tau) <= target,
        x >= target ==> target <= relax(x, target, dt, tau) <= x,
{
    let num = (target - x) * dt;
    let den = tau + dt;
    if target >= x {
        assert(num >= 0 && num <= den * (target - x)) by (nonlinear_arith)
            requires
                num == (target - x) * dt,
                target - x >= 0,
                0 <= dt <= den,
        ;
        vstd::arithmetic::div_mod::lemma_div_pos_is_pos(num, den);
        vstd::arithmetic::div_mod::lemma_multiply_divide_le(num, den, target - x);
    } else {
        assert(-num >= 0 && -num <= den * (x - target)) by (nonlinear_arith)
            requires
                num == (target - x) * dt,
                x - target >= 0,
                0 <= dt <= den,
        ;
        vstd::arithmetic::div_mod::lemma_div_pos_is_pos(-num, den);
        vstd::arithmetic::div_mod::lemma_multiply_divide_le(-num, den, x - target);
    }
}

/// First-order relaxation of `x` toward `target` (see [`relax`]).
pub fn relax_fx(x: i64, target: i64, dt: i64, tau: i64) -> (r: i64)
    requires
        0 <= dt,
        0 < tau,
        tau + dt <= i64::MAX,
        abs_i(x as int) <= 4_000_000_000_000_000,
        abs_i(target as int) <= 4_000_000_000_000_000,
    ensures
        r as int == relax(x as int, target as int, dt as int, tau as int),
        x <= target ==> x <= r <= target,
        x >= target ==> target <= r <= x,
{
    proof {
        lemma_relax_between(x as int, target as int, dt as int, tau as int);
    }
    let delta: i64 = mul_div(target - x, dt, tau + dt);
    x + delta
}

/// `tdiv(a * b, d)` computed exactly through 128-bit intermediates.
///
/// The requirement is only that the mathematical result fits in an `i64`;
/// the 128-bit product itself can never overflow.
pub fn mul_div(a: i64, b: i64, d: i64) -> (r: i64)
    requires
        d > 0,
        -i64::MAX <= tdiv(a as int * b as int, d as int) <= i64::MAX,
    ensures
        r as int == tdiv(a as int * b as int, d as int),
{
    proof {
        assert(-0x4000_0000_0000_0000_0000_0000_0000_0000 <= (a as int) * (b as int)
            <= 0x4000_0000_0000_0000_0000_0000_0000_0000) by (nonlinear_arith)
            requires
                -0x8000_0000_0000_0000 <= a as int <= 0x7FFF_FFFF_FFFF_FFFF,
                -0x8000_0000_0000_0000 <= b as int <= 0x7FFF_FFFF_FFFF_FFFF,
        ;
    }
    let p: i128 = (a as i128) * (b as i128);
    if p >= 0 {
        let q: u128 = (p as u128) / (d as u128);
        proof {
            lemma_tdiv_bound(p as int, d as int);
        }
        q as i64
    } else {
        let q: u128 = ((-p) as u128) / (d as u128);
        proof {
            lemma_tdiv_bound(p as int, d as int);
        }
        -(q as i64)
    }
}

/// Fixed-point product `a * b / SCALE`, truncated toward zero.
pub fn mul_fx(a: i64, b: i64) -> (r: i64)
    requires
        -i64::MAX <= fmul(a as int, b as int) <= i64::MAX,
    ensures
        r as int == fmul(a as int, b as int),
{
    mul_div(a, b, SCALE)
}

/// Fixed-point quotient `a * SCALE / b`, truncated toward zero; `b > 0`.
pub fn div_fx(a: i64, b: i64) -> (r: i64)
    requires
        b > 0,
        -i64::MAX <= fdiv(a as int, b as int) <= i64::MAX,
    ensures
        r as int == fdiv(a as int, b as int),
{
    mul_div(a, SCALE, b)
}

/// `x` limited to `[lo, hi]`.
pub fn clamp_fx(x: i64, lo: i64, hi: i64) -> (r: i64)
    requires
        lo <= hi,
    ensures
        r as int == clip(x as int, lo as int, hi as int),
        lo <= r <= hi,
{
    if x < lo {
        lo
    } else if x > hi {
        hi
    } else {
        x
    }
}

} // verus!
