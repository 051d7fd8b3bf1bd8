//! Point-kinetics engine: six-group delayed-neutron equations integrated
//! by fourth-order Runge-Kutta, with internal Doppler feedback and
//! sub-stepping while strongly subcritical.
//!
//! Precursor concentrations are carried in a scaled variable: group `g`
//! holds `lambda_g * Lambda` times the textbook concentration, so that its
//! equilibrium value is exactly `beta_g * n`. In this variable the system
//! reads
//!
//! ```text
//! dn/dt  = ((rho_eff - beta) * n + sum_g c_g) / Lambda + source
//! dc_g/dt = lambda_g * (beta_g * n - c_g)
//! ```
//!
//! `rho_eff` re-derives Doppler feedback from the evolving fuel
//! temperature at every Runge-Kutta stage; the feedback is suppressed
//! entirely while strongly subcritical and capped on the positive side
//! otherwise. Every stage point and every output is clamped to the
//! physical ranges, so the integrator cannot run away numerically.

use vstd::prelude::*;

verus! {

use crate::fx::{SCALE, tdiv, fmul, fdiv, clip, abs_i, mul_div, mul_fx, div_fx, clamp_fx,
    lemma_fmul_fits, lemma_muldiv_fits, lemma_div_le};
use crate::params::{BETA_EFF, NEUTRON_LIFETIME, NUM_DELAYED_GROUPS, spec_beta_g, spec_lambda_g,
    beta_g, lambda_g, NEUTRON_MIN, NEUTRON_MAX, PRECURSOR_MAX, RHO_STIFF, DOPPLER_COEF,
    FUEL_TEMP_REF, DOPPLER_POS_CAP, TEMP_MIN, FUEL_TEMP_MAX, FUEL_TEMP_BASE, FUEL_TEMP_RISE,
    FUEL_TAU, RHO_MIN, RHO_MAX, SOURCE_MAX, DT_MIN, DT_MAX, SUBSTEP_MAX, LAMBDA_EFF,
    PERIOD_MAX, PERIOD_INFINITE, NEAR_ZERO_N};

// ---------------------------------------------------------------------------
// Ghost model of the kinetics state
// ---------------------------------------------------------------------------

/// Mathematical kinetics state: neutron population, the six scaled
/// precursor concentrations, and the fuel temperature that evolves inside
/// the solver.
pub ghost struct KinS {
    pub n: int,
    pub c0: int,
    pub c1: int,
    pub c2: int,
    pub c3: int,
    pub c4: int,
    pub c5: int,
    pub t: int,
}

/// All components inside their physical clamp ranges.
pub open spec fn kin_in_range(y: KinS) -> bool {
    &&& NEUTRON_MIN <= y.n <= NEUTRON_MAX
    &&& 0 <= y.c0 <= PRECURSOR_MAX
    &&& 0 <= y.c1 <= PRECURSOR_MAX
    &&& 0 <= y.c2 <= PRECURSOR_MAX
    &&& 0 <= y.c3 <= PRECURSOR_MAX
    &&& 0 <= y.c4 <= PRECURSOR_MAX
    &&& 0 <= y.c5 <= PRECURSOR_MAX
    &&& TEMP_MIN <= y.t <= FUEL_TEMP_MAX
}

/// Doppler term re-derived inside the solver: zero while strongly
/// subcritical, otherwise `-DOPPLER_COEF * (t - FUEL_TEMP_REF)` capped on
/// the positive (cold-fuel) side.
pub open spec fn spec_doppler_inner(rho_in: int, t: int) -> int {
    if rho_in < RHO_STIFF {
        0
    } else {
        let raw: int = -fmul(DOPPLER_COEF as int, t - FUEL_TEMP_REF);
        if raw > DOPPLER_POS_CAP {
            DOPPLER_POS_CAP as int
        } else {
            raw
        }
    }
}

/// Sum of the six scaled precursor concentrations.
pub open spec fn spec_sum_c(y: KinS) -> int {
    y.c0 + y.c1 + y.c2 + y.c3 + y.c4 + y.c5
}

/// Fuel temperature target as a function of power fraction.
pub open spec fn spec_fuel_target(n: int) -> int {
    FUEL_TEMP_BASE + fmul(FUEL_TEMP_RISE as int, n)
}

/// Derivative of one precursor group.
pub open spec fn spec_deriv_c(n: int, cg: int, g: int) -> int {
    fmul(spec_lambda_g(g), fmul(spec_beta_g(g), n) - cg)
}

/// Derivative of the full kinetics state at `y`.
pub open spec fn spec_deriv(y: KinS, rho_in: int, source: int) -> KinS {
    KinS {
        n: fdiv(fmul(rho_in + spec_doppler_inner(rho_in, y.t) - BETA_EFF, y.n) + spec_sum_c(y),
            NEUTRON_LIFETIME as int) + source,
        c0: spec_deriv_c(y.n, y.c0, 0),
        c1: spec_deriv_c(y.n, y.c1, 1),
        c2: spec_deriv_c(y.n, y.c2, 2),
        c3: spec_deriv_c(y.n, y.c3, 3),
        c4: spec_deriv_c(y.n, y.c4, 4),
        c5: spec_deriv_c(y.n, y.c5, 5),
        t: fdiv(spec_fuel_target(y.n) - y.t, FUEL_TAU as int),
    }
}

/// One component advanced by `h * k` and clamped back into its range.
pub open spec fn spec_adv(y: int, h: int, k: int, lo: int, hi: int) -> int {
    clip(y + fmul(h, k), lo, hi)
}

/// Stage point `y + h * k`, clamped componentwise to the physical ranges.
pub open spec fn spec_stage(y: KinS, k: KinS, h: int) -> KinS {
    KinS {
        n: spec_adv(y.n, h, k.n, NEUTRON_MIN as int, NEUTRON_MAX as int),
        c0: spec_adv(y.c0, h, k.c0, 0, PRECURSOR_MAX as int),
        c1: spec_adv(y.c1, h, k.c1, 0, PRECURSOR_MAX as int),
        c2: spec_adv(y.c2, h, k.c2, 0, PRECURSOR_MAX as int),
        c3: spec_adv(y.c3, h, k.c3, 0, PRECURSOR_MAX as int),
        c4: spec_adv(y.c4, h, k.c4, 0, PRECURSOR_MAX as int),
        c5: spec_adv(y.c5, h, k.c5, 0, PRECURSOR_MAX as int),
        t: spec_adv(y.t, h, k.t, TEMP_MIN as int, FUEL_TEMP_MAX as int),
    }
}

/// Runge-Kutta combination of one component:
/// `y + h * (k1 + 2 k2 + 2 k3 + k4) / 6`, clamped.
pub open spec fn spec_comb(y: int, k1: int, k2: int, k3: int, k4: int, h: int, lo: int,
    hi: int) -> int {
    clip(y + tdiv(h * (k1 + 2 * k2 + 2 * k3 + k4), 6 * (SCALE as int)), lo, hi)
}

/// One fourth-order Runge-Kutta sub-step of size `h`.
#[verifier::opaque]
pub open spec fn spec_substep(y: KinS, rho_in: int, source: int, h: int) -> KinS {
    let h2: int = tdiv(h, 2);
    let k1: KinS = spec_deriv(y, rho_in, source);
    let k2: KinS = spec_deriv(spec_stage(y, k1, h2), rho_in, source);
    let k3: KinS = spec_deriv(spec_stage(y, k2, h2), rho_in, source);
    let k4: KinS = spec_deriv(spec_stage(y, k3, h), rho_in, source);
    KinS {
        n: spec_comb(y.n, k1.n, k2.n, k3.n, k4.n, h, NEUTRON_MIN as int, NEUTRON_MAX as int),
        c0: spec_comb(y.c0, k1.c0, k2.c0, k3.c0, k4.c0, h, 0, PRECURSOR_MAX as int),
        c1: spec_comb(y.c1, k1.c1, k2.c1, k3.c1, k4.c1, h, 0, PRECURSOR_MAX as int),
        c2: spec_comb(y.c2, k1.c2, k2.c2, k3.c2, k4.c2, h, 0, PRECURSOR_MAX as int),
        c3: spec_comb(y.c3, k1.c3, k2.c3, k3.c3, k4.c3, h, 0, PRECURSOR_MAX as int),
        c4: spec_comb(y.c4, k1.c4, k2.c4, k3.c4, k4.c4, h, 0, PRECURSOR_MAX as int),
        c5: spec_comb(y.c5, k1.c5, k2.c5, k3.c5, k4.c5, h, 0, PRECURSOR_MAX as int),
        t: spec_comb(y.t, k1.t, k2.t, k3.t, k4.t, h, TEMP_MIN as int, FUEL_TEMP_MAX as int),
    }
}

/// `k` sub-steps applied in sequence.
pub open spec fn spec_substeps(y: KinS, rho_in: int, source: int, h: int, k: nat) -> KinS
    decreases k,
{
    if k == 0 {
        y
    } else {
        spec_substep(spec_substeps(y, rho_in, source, h, (k - 1) as nat), rho_in, source, h)
    }
}

/// Number of sub-steps: the step is subdivided into pieces of at most
/// [`SUBSTEP_MAX`] while strongly subcritical, and taken whole otherwise.
pub open spec fn spec_num_substeps(rho_in: int, dt: int) -> int {
    if rho_in < RHO_STIFF {
        tdiv(dt + SUBSTEP_MAX - 1, SUBSTEP_MAX as int)
    } else {
        1
    }
}

/// The full solver: `spec_num_substeps` Runge-Kutta sub-steps of equal
/// size `dt / spec_num_substeps`.
pub open spec fn spec_kinetics_6group(y: KinS, rho_in: int, source: int, dt: int) -> KinS {
    let ns: int = spec_num_substeps(rho_in, dt);
    spec_substeps(y, rho_in, source, tdiv(dt, ns), ns as nat)
}

// ---------------------------------------------------------------------------
// Executable solver
// ---------------------------------------------------------------------------

/// Doppler term re-derived inside the solver (see [`spec_doppler_inner`]).
fn doppler_inner(rho_in: i64, t: i64) -> (r: i64)
    requires
        RHO_MIN <= rho_in <= RHO_MAX,
        TEMP_MIN <= t <= FUEL_TEMP_MAX,
    ensures
        r as int == spec_doppler_inner(rho_in as int, t as int),
        abs_i(r as int) <= 52_000_000,
{
    if rho_in < RHO_STIFF {
        0
    } else {
        proof {
            lemma_fmul_fits(DOPPLER_COEF as int, t - FUEL_TEMP_REF, 12_000, 4_300_000_000_000);
        }
        let raw: i64 = -mul_fx(DOPPLER_COEF, t - FUEL_TEMP_REF);
        if raw > DOPPLER_POS_CAP {
            DOPPLER_POS_CAP
        } else {
            raw
        }
    }
}

/// Derivative of the kinetics state (see [`spec_deriv`]); all components
/// returned with proven magnitude bounds.
#[allow(clippy::type_complexity)]
fn kin_deriv(n: i64, c0: i64, c1: i64, c2: i64, c3: i64, c4: i64, c5: i64, t: i64, rho_in: i64,
    source: i64) -> (r: (i64, i64, i64, i64, i64, i64, i64, i64))
    requires
        kin_in_range(KinS { n: n as int, c0: c0 as int, c1: c1 as int, c2: c2 as int,
            c3: c3 as int, c4: c4 as int, c5: c5 as int, t: t as int }),
        RHO_MIN <= rho_in <= RHO_MAX,
        0 <= source <= SOURCE_MAX,
    ensures
        ({ let y = KinS { n: n as int, c0: c0 as int, c1: c1 as int, c2: c2 as int, c3: c3 as int,
            c4: c4 as int, c5: c5 as int, t: t as int };
           let k = spec_deriv(y, rho_in as int, source as int);
           &&& r.0 as int == k.n
           &&& r.1 as int == k.c0
           &&& r.2 as int == k.c1
           &&& r.3 as int == k.c2
           &&& r.4 as int == k.c3
           &&& r.5 as int == k.c4
           &&& r.6 as int == k.c5
           &&& r.7 as int == k.t
        }),
        abs_i(r.0 as int) <= 8_000_000_000_000_000,
        abs_i(r.1 as int) <= 4_000_000_000_000,
        abs_i(r.2 as int) <= 4_000_000_000_000,
        abs_i(r.3 as int) <= 4_000_000_000_000,
        abs_i(r.4 as int) <= 4_000_000_000_000,
        abs_i(r.5 as int) <= 4_000_000_000_000,
        abs_i(r.6 as int) <= 4_000_000_000_000,
        abs_i(r.7 as int) <= 2_000_000_000_000,
{
    let dop: i64 = doppler_inner(rho_in, t);
    let sumc: i64 = c0 + c1 + c2 + c3 + c4 + c5;
    proof {
        lemma_fmul_fits(rho_in + dop - BETA_EFF, n as int, 160_000_000, 10_000_000_000);
    }
    let prompt: i64 = mul_fx(rho_in + dop - BETA_EFF, n);
    proof {
        lemma_muldiv_fits(prompt + sumc, SCALE as int, NEUTRON_LIFETIME as int,
            7_000_000_000_000, SCALE as int, NEUTRON_LIFETIME as int);
    }
    let kn: i64 = div_fx(prompt + sumc, NEUTRON_LIFETIME) + source;
    let kc0: i64 = kin_deriv_c(n, c0, 0);
    let kc1: i64 = kin_deriv_c(n, c1, 1);
    let kc2: i64 = kin_deriv_c(n, c2, 2);
    let kc3: i64 = kin_deriv_c(n, c3, 3);
    let kc4: i64 = kin_deriv_c(n, c4, 4);
    let kc5: i64 = kin_deriv_c(n, c5, 5);
    proof {
        lemma_fmul_fits(FUEL_TEMP_RISE as int, n as int, 500_000_000_000, 10_000_000_000);
    }
    let target: i64 = FUEL_TEMP_BASE + mul_fx(FUEL_TEMP_RISE, n);
    proof {
        lemma_muldiv_fits(target - t, SCALE as int, FUEL_TAU as int, 9_000_000_000_000,
            SCALE as int, FUEL_TAU as int);
    }
    let kt: i64 = div_fx(target - t, FUEL_TAU);
    (kn, kc0, kc1, kc2, kc3, kc4, kc5, kt)
}

/// Derivative of one precursor group (see [`spec_deriv_c`]).
fn kin_deriv_c(n: i64, cg: i64, g: usize) -> (r: i64)
    requires
        g < NUM_DELAYED_GROUPS,
        NEUTRON_MIN <= n <= NEUTRON_MAX,
        0 <= cg <= PRECURSOR_MAX,
    ensures
        r as int == spec_deriv_c(n as int, cg as int, g as int),
        abs_i(r as int) <= 4_000_000_000_000,
{
    let b: i64 = beta_g(g);
    let l: i64 = lambda_g(g);
    proof {
        lemma_fmul_fits(b as int, n as int, 2_568_000, 10_000_000_000);
    }
    let prod: i64 = mul_fx(b, n);
    proof {
        lemma_fmul_fits(l as int, prod - cg, 3_010_000_000, 1_100_000_000_000);
    }
    mul_fx(l, prod - cg)
}

/// One component advanced by `h * k` and clamped (see [`spec_adv`]).
fn kin_adv(y: i64, h: i64, k: i64, lo: i64, hi: i64) -> (r: i64)
    requires
        lo <= hi,
        abs_i(y as int) <= 10_000_000_000_000,
        abs_i(k as int) <= 8_000_000_000_000_000,
        0 <= h <= DT_MAX,
    ensures
        r as int == spec_adv(y as int, h as int, k as int, lo as int, hi as int),
        lo <= r <= hi,
{
    proof {
        lemma_fmul_fits(h as int, k as int, DT_MAX as int, 8_000_000_000_000_000);
    }
    let d: i64 = mul_fx(h, k);
    clamp_fx(y + d, lo, hi)
}

/// Runge-Kutta combination of one component (see [`spec_comb`]).
fn kin_comb(y: i64, k1: i64, k2: i64, k3: i64, k4: i64, h: i64, lo: i64, hi: i64) -> (r: i64)
    requires
        lo <= hi,
        abs_i(y as int) <= 10_000_000_000_000,
        abs_i(k1 as int) <= 8_000_000_000_000_000,
        abs_i(k2 as int) <= 8_000_000_000_000_000,
        abs_i(k3 as int) <= 8_000_000_000_000_000,
        abs_i(k4 as int) <= 8_000_000_000_000_000,
        0 < h <= DT_MAX,
    ensures
        r as int == spec_comb(y as int, k1 as int, k2 as int, k3 as int, k4 as int, h as int,
            lo as int, hi as int),
        lo <= r <= hi,
{
    let s: i64 = k1 + 2 * k2 + 2 * k3 + k4;
    proof {
        lemma_muldiv_fits(h as int, s as int, 6 * (SCALE as int), DT_MAX as int,
            48_000_000_000_000_000, 6 * (SCALE as int));
    }
    let d: i64 = mul_div(h, s, 6 * SCALE);
    clamp_fx(y + d, lo, hi)
}

/// One Runge-Kutta sub-step of size `h` (see [`spec_substep`]).
#[allow(clippy::type_complexity)]
fn kin_substep(n: i64, c0: i64, c1: i64, c2: i64, c3: i64, c4: i64, c5: i64, t: i64, rho_in: i64,
    source: i64, h: i64) -> (r: (i64, i64, i64, i64, i64, i64, i64, i64))
    requires
        kin_in_range(KinS { n: n as int, c0: c0 as int, c1: c1 as int, c2: c2 as int,
            c3: c3 as int, c4: c4 as int, c5: c5 as int, t: t as int }),
        RHO_MIN <= rho_in <= RHO_MAX,
        0 <= source <= SOURCE_MAX,
        0 < h <= DT_MAX,
    ensures
        ({ let y = KinS { n: n as int, c0: c0 as int, c1: c1 as int, c2: c2 as int, c3: c3 as int,
            c4: c4 as int, c5: c5 as int, t: t as int };
           let z = spec_substep(y, rho_in as int, source as int, h as int);
           &&& r.0 as int == z.n
           &&& r.1 as int == z.c0
           &&& r.2 as int == z.c1
           &&& r.3 as int == z.c2
           &&& r.4 as int == z.c3
           &&& r.5 as int == z.c4
           &&& r.6 as int == z.c5
           &&& r.7 as int == z.t
        }),
        kin_in_range(KinS { n: r.0 as int, c0: r.1 as int, c1: r.2 as int, c2: r.3 as int,
            c3: r.4 as int, c4: r.5 as int, c5: r.6 as int, t: r.7 as int }),
{
    proof {
        reveal(spec_substep);
    }
    let h2: i64 = mul_div(h, 1, 2);
    let k1: (i64, i64, i64, i64, i64, i64, i64, i64) = kin_deriv(n, c0, c1, c2, c3, c4, c5, t,
        rho_in, source);
    let y2n: i64 = kin_adv(n, h2, k1.0, NEUTRON_MIN, NEUTRON_MAX);
    let y2c0: i64 = kin_adv(c0, h2, k1.1, 0, PRECURSOR_MAX);
    let y2c1: i64 = kin_adv(c1, h2, k1.2, 0, PRECURSOR_MAX);
    let y2c2: i64 = kin_adv(c2, h2, k1.3, 0, PRECURSOR_MAX);
    let y2c3: i64 = kin_adv(c3, h2, k1.4, 0, PRECURSOR_MAX);
    let y2c4: i64 = kin_adv(c4, h2, k1.5, 0, PRECURSOR_MAX);
    let y2c5: i64 = kin_adv(c5, h2, k1.6, 0, PRECURSOR_MAX);
    let y2t: i64 = kin_adv(t, h2, k1.7, TEMP_MIN, FUEL_TEMP_MAX);
    let k2: (i64, i64, i64, i64, i64, i64, i64, i64) = kin_deriv(y2n, y2c0, y2c1, y2c2, y2c3,
        y2c4, y2c5, y2t, rho_in, source);
    let y3n: i64 = kin_adv(n, h2, k2.0, NEUTRON_MIN, NEUTRON_MAX);
    let y3c0: i64 = kin_adv(c0, h2, k2.1, 0, PRECURSOR_MAX);
    let y3c1: i64 = kin_adv(c1, h2, k2.2, 0, PRECURSOR_MAX);
    let y3c2: i64 = kin_adv(c2, h2, k2.3, 0, PRECURSOR_MAX);
    let y3c3: i64 = kin_adv(c3, h2, k2.4, 0, PRECURSOR_MAX);
    let y3c4: i64 = kin_adv(c4, h2, k2.5, 0, PRECURSOR_MAX);
    let y3c5: i64 = kin_adv(c5, h2, k2.6, 0, PRECURSOR_MAX);
    let y3t: i64 = kin_adv(t, h2, k2.7, TEMP_MIN, FUEL_TEMP_MAX);
    let k3: (i64, i64, i64, i64, i64, i64, i64, i64) = kin_deriv(y3n, y3c0, y3c1, y3c2, y3c3,
        y3c4, y3c5, y3t, rho_in, source);
    let y4n: i64 = kin_adv(n, h, k3.0, NEUTRON_MIN, NEUTRON_MAX);
    let y4c0: i64 = kin_adv(c0, h, k3.1, 0, PRECURSOR_MAX);
    let y4c1: i64 = kin_adv(c1, h, k3.2, 0, PRECURSOR_MAX);
    let y4c2: i64 = kin_adv(c2, h, k3.3, 0, PRECURSOR_MAX);
    let y4c3: i64 = kin_adv(c3, h, k3.4, 0, PRECURSOR_MAX);
    let y4c4: i64 = kin_adv(c4, h, k3.5, 0, PRECURSOR_MAX);
    let y4c5: i64 = kin_adv(c5, h, k3.6, 0, PRECURSOR_MAX);
    let y4t: i64 = kin_adv(t, h, k3.7, TEMP_MIN, FUEL_TEMP_MAX);
    let k4: (i64, i64, i64, i64, i64, i64, i64, i64) = kin_deriv(y4n, y4c0, y4c1, y4c2, y4c3,
        y4c4, y4c5, y4t, rho_in, source);
    let rn: i64 = kin_comb(n, k1.0, k2.0, k3.0, k4.0, h, NEUTRON_MIN, NEUTRON_MAX);
    let rc0: i64 = kin_comb(c0, k1.1, k2.1, k3.1, k4.1, h, 0, PRECURSOR_MAX);
    let rc1: i64 = kin_comb(c1, k1.2, k2.2, k3.2, k4.2, h, 0, PRECURSOR_MAX);
    let rc2: i64 = kin_comb(c2, k1.3, k2.3, k3.3, k4.3, h, 0, PRECURSOR_MAX);
    let rc3: i64 = kin_comb(c3, k1.4, k2.4, k3.4, k4.4, h, 0, PRECURSOR_MAX);
    let rc4: i64 = kin_comb(c4, k1.5, k2.5, k3.5, k4.5, h, 0, PRECURSOR_MAX);
    let rc5: i64 = kin_comb(c5, k1.6, k2.6, k3.6, k4.6, h, 0, PRECURSOR_MAX);
    let rt: i64 = kin_comb(t, k1.7, k2.7, k3.7, k4.7, h, TEMP_MIN, FUEL_TEMP_MAX);
    (rn, rc0, rc1, rc2, rc3, rc4, rc5, rt)
}

/// Solve the six-group point-kinetics system over `dt`.
///
/// While the supplied reactivity is strongly negative the step is
/// subdivided into sub-steps of at most 10 ms; each sub-step is a
/// fourth-order Runge-Kutta step with Doppler feedback re-derived from the
/// evolving fuel temperature. Outputs are clamped: neutron population to
/// its floor and 10x nominal, precursors to non-negative values, the fuel
/// temperature to its physical range.
pub fn solve_kinetics_6group(n: i64, precursors_6: &[i64; 6], fuel_temp: i64, reactivity: i64,
    source_term: i64, dt: i64) -> (r: (i64, [i64; 6], i64))
    requires
        NEUTRON_MIN <= n <= NEUTRON_MAX,
        forall|g: int| 0 <= g < 6 ==> 0 <= #[trigger] precursors_6[g] <= PRECURSOR_MAX,
        TEMP_MIN <= fuel_temp <= FUEL_TEMP_MAX,
        RHO_MIN <= reactivity <= RHO_MAX,
        0 <= source_term <= SOURCE_MAX,
        DT_MIN <= dt <= DT_MAX,
    ensures
        ({ let y = KinS { n: n as int, c0: precursors_6[0] as int, c1: precursors_6[1] as int,
            c2: precursors_6[2] as int, c3: precursors_6[3] as int, c4: precursors_6[4] as int,
            c5: precursors_6[5] as int, t: fuel_temp as int };
           let z = spec_kinetics_6group(y, reactivity as int, source_term as int, dt as int);
           &&& r.0 as int == z.n
           &&& r.1[0] as int == z.c0
           &&& r.1[1] as int == z.c1
           &&& r.1[2] as int == z.c2
           &&& r.1[3] as int == z.c3
           &&& r.1[4] as int == z.c4
           &&& r.1[5] as int == z.c5
           &&& r.2 as int == z.t
        }),
        NEUTRON_MIN <= r.0 <= NEUTRON_MAX,
        forall|g: int| 0 <= g < 6 ==> 0 <= #[trigger] r.1[g] <= PRECURSOR_MAX,
        TEMP_MIN <= r.2 <= FUEL_TEMP_MAX,
{
    let ns: i64 = if reactivity < RHO_STIFF {
        proof {
            lemma_div_le(dt + SUBSTEP_MAX - 1, DT_MAX as int + SUBSTEP_MAX as int - 1,
                SUBSTEP_MAX as int);
            lemma_div_le(SUBSTEP_MAX as int, dt + SUBSTEP_MAX - 1, SUBSTEP_MAX as int);
        }
        mul_div(dt + SUBSTEP_MAX - 1, 1, SUBSTEP_MAX)
    } else {
        1
    };
    assert(ns as int == spec_num_substeps(reactivity as int, dt as int));
    assert(1 <= ns <= 101);
    proof {
        lemma_div_le(dt as int, DT_MAX as int, ns as int);
        lemma_div_le(ns as int, dt as int, ns as int);
        vstd::arithmetic::div_mod::lemma_div_is_ordered_by_denominator(dt as int, 1, ns as int);
    }
    let h: i64 = mul_div(dt, 1, ns);
    assert(h as int == tdiv(dt as int, ns as int));
    assert(1 <= h <= DT_MAX);
    let ghost y0 = KinS { n: n as int, c0: precursors_6[0] as int, c1: precursors_6[1] as int,
        c2: precursors_6[2] as int, c3: precursors_6[3] as int, c4: precursors_6[4] as int,
        c5: precursors_6[5] as int, t: fuel_temp as int };
    let mut cn: i64 = n;
    let mut cc0: i64 = precursors_6[0];
    let mut cc1: i64 = precursors_6[1];
    let mut cc2: i64 = precursors_6[2];
    let mut cc3: i64 = precursors_6[3];
    let mut cc4: i64 = precursors_6[4];
    let mut cc5: i64 = precursors_6[5];
    let mut ct: i64 = fuel_temp;
    let mut i: i64 = 0;
    while i < ns
        invariant
            0 <= i <= ns,
            1 <= ns <= 101,
            1 <= h <= DT_MAX,
            RHO_MIN <= reactivity <= RHO_MAX,
            0 <= source_term <= SOURCE_MAX,
            ({ let cur = spec_substeps(y0, reactivity as int, source_term as int, h as int,
                i as nat);
               &&& cn as int == cur.n
               &&& cc0 as int == cur.c0
               &&& cc1 as int == cur.c1
               &&& cc2 as int == cur.c2
               &&& cc3 as int == cur.c3
               &&& cc4 as int == cur.c4
               &&& cc5 as int == cur.c5
               &&& ct as int == cur.t
            }),
            kin_in_range(KinS { n: cn as int, c0: cc0 as int, c1: cc1 as int, c2: cc2 as int,
                c3: cc3 as int, c4: cc4 as int, c5: cc5 as int, t: ct as int }),
        decreases ns - i,
    {
        let s: (i64, i64, i64, i64, i64, i64, i64, i64) = kin_substep(cn, cc0, cc1, cc2, cc3,
            cc4, cc5, ct, reactivity, source_term, h);
        proof {
            let cur = spec_substeps(y0, reactivity as int, source_term as int, h as int, i as nat);
            assert(KinS { n: cn as int, c0: cc0 as int, c1: cc1 as int, c2: cc2 as int,
                c3: cc3 as int, c4: cc4 as int, c5: cc5 as int, t: ct as int } == cur);
            assert(spec_substeps(y0, reactivity as int, source_term as int, h as int,
                (i + 1) as nat) == spec_substep(cur, reactivity as int, source_term as int,
                h as int));
        }
        cn = s.0;
        cc0 = s.1;
        cc1 = s.2;
        cc2 = s.3;
        cc3 = s.4;
        cc4 = s.5;
        cc5 = s.6;
        ct = s.7;
        i = i + 1;
    }
    (cn, [cc0, cc1, cc2, cc3, cc4, cc5], ct)
}

/// Steady-state precursor concentrations for a given neutron population:
/// in the scaled precursor variable the equilibrium of group `g` is
/// exactly `beta_g * n`.
pub fn init_precursors_6group(n_neutrons: i64) -> (r: [i64; 6])
    requires
        NEUTRON_MIN <= n_neutrons <= NEUTRON_MAX,
    ensures
        forall|g: int| 0 <= g < 6 ==> #[trigger] r[g] as int == fmul(spec_beta_g(g),
            n_neutrons as int),
        forall|g: int| 0 <= g < 6 ==> 0 <= #[trigger] r[g] <= PRECURSOR_MAX,
{
    let mut out: [i64; 6] = [0; 6];
    let b0: i64 = beta_g(0);
    let b1: i64 = beta_g(1);
    let b2: i64 = beta_g(2);
    let b3: i64 = beta_g(3);
    let b4: i64 = beta_g(4);
    let b5: i64 = beta_g(5);
    proof {
        lemma_fmul_fits(spec_beta_g(0), n_neutrons as int, 2_568_000, 10_000_000_000);
        lemma_fmul_fits(spec_beta_g(1), n_neutrons as int, 2_568_000, 10_000_000_000);
        lemma_fmul_fits(spec_beta_g(2), n_neutrons as int, 2_568_000, 10_000_000_000);
        lemma_fmul_fits(spec_beta_g(3), n_neutrons as int, 2_568_000, 10_000_000_000);
        lemma_fmul_fits(spec_beta_g(4), n_neutrons as int, 2_568_000, 10_000_000_000);
        lemma_fmul_fits(spec_beta_g(5), n_neutrons as int, 2_568_000, 10_000_000_000);
    }
    let r0: i64 = mul_fx(b0, n_neutrons);
    let r1: i64 = mul_fx(b1, n_neutrons);
    let r2: i64 = mul_fx(b2, n_neutrons);
    let r3: i64 = mul_fx(b3, n_neutrons);
    let r4: i64 = mul_fx(b4, n_neutrons);
    let r5: i64 = mul_fx(b5, n_neutrons);
    proof {
        crate::fx::lemma_tdiv_abs(spec_beta_g(0) * n_neutrons, SCALE as int);
        crate::fx::lemma_tdiv_abs(spec_beta_g(1) * n_neutrons, SCALE as int);
        crate::fx::lemma_tdiv_abs(spec_beta_g(2) * n_neutrons, SCALE as int);
        crate::fx::lemma_tdiv_abs(spec_beta_g(3) * n_neutrons, SCALE as int);
        crate::fx::lemma_tdiv_abs(spec_beta_g(4) * n_neutrons, SCALE as int);
        crate::fx::lemma_tdiv_abs(spec_beta_g(5) * n_neutrons, SCALE as int);
    }
    assert(r0 >= 0 && r1 >= 0 && r2 >= 0 && r3 >= 0 && r4 >= 0 && r5 >= 0) by {
        assert(spec_beta_g(0) * n_neutrons >= 0) by (nonlinear_arith)
            requires n_neutrons >= 0;
        assert(spec_beta_g(1) * n_neutrons >= 0) by (nonlinear_arith)
            requires n_neutrons >= 0;
        assert(spec_beta_g(2) * n_neutrons >= 0) by (nonlinear_arith)
            requires n_neutrons >= 0;
        assert(spec_beta_g(3) * n_neutrons >= 0) by (nonlinear_arith)
            requires n_neutrons >= 0;
        assert(spec_beta_g(4) * n_neutrons >= 0) by (nonlinear_arith)
            requires n_neutrons >= 0;
        assert(spec_beta_g(5) * n_neutrons >= 0) by (nonlinear_arith)
            requires n_neutrons >= 0;
    };
    out = [r0, r1, r2, r3, r4, r5];
    out
}

// ---------------------------------------------------------------------------
// One-group solvers
// ---------------------------------------------------------------------------

/// Mathematical one-group kinetics state.
pub ghost struct Kin1 {
    pub n: int,
    pub c: int,
    pub t: int,
}

/// One-group neutron derivative. The one-group precursor variable is
/// scaled like the six-group ones: its equilibrium value is `beta * n`.
pub open spec fn spec_deriv1_n(n: int, c: int, rho_eff: int) -> int {
    fdiv(fmul(rho_eff - BETA_EFF, n) + c, NEUTRON_LIFETIME as int)
}

/// One-group precursor derivative.
pub open spec fn spec_deriv1_c(n: int, c: int) -> int {
    fmul(LAMBDA_EFF as int, fmul(BETA_EFF as int, n) - c)
}

/// Forward-Euler update of the one-group system, outputs clamped.
pub open spec fn spec_euler1(n: int, c: int, rho: int, dt: int) -> (int, int) {
    (clip(n + fmul(dt, spec_deriv1_n(n, c, rho)), NEUTRON_MIN as int, NEUTRON_MAX as int),
        clip(c + fmul(dt, spec_deriv1_c(n, c)), 0, PRECURSOR_MAX as int))
}

/// One-group derivative with Doppler feedback, for the Runge-Kutta
/// variant.
pub open spec fn spec_deriv1(y: Kin1, rho_in: int) -> Kin1 {
    Kin1 {
        n: spec_deriv1_n(y.n, y.c, rho_in + spec_doppler_inner(rho_in, y.t)),
        c: spec_deriv1_c(y.n, y.c),
        t: fdiv(spec_fuel_target(y.n) - y.t, FUEL_TAU as int),
    }
}

/// Stage point of the one-group system, clamped componentwise.
pub open spec fn spec_stage1(y: Kin1, k: Kin1, h: int) -> Kin1 {
    Kin1 {
        n: spec_adv(y.n, h, k.n, NEUTRON_MIN as int, NEUTRON_MAX as int),
        c: spec_adv(y.c, h, k.c, 0, PRECURSOR_MAX as int),
        t: spec_adv(y.t, h, k.t, TEMP_MIN as int, FUEL_TEMP_MAX as int),
    }
}

/// One fourth-order Runge-Kutta step of the one-group system.
#[verifier::opaque]
pub open spec fn spec_rk4_1group(y: Kin1, rho_in: int, dt: int) -> Kin1 {
    let h2: int = tdiv(dt, 2);
    let k1: Kin1 = spec_deriv1(y, rho_in);
    let k2: Kin1 = spec_deriv1(spec_stage1(y, k1, h2), rho_in);
    let k3: Kin1 = spec_deriv1(spec_stage1(y, k2, h2), rho_in);
    let k4: Kin1 = spec_deriv1(spec_stage1(y, k3, dt), rho_in);
    Kin1 {
        n: spec_comb(y.n, k1.n, k2.n, k3.n, k4.n, dt, NEUTRON_MIN as int, NEUTRON_MAX as int),
        c: spec_comb(y.c, k1.c, k2.c, k3.c, k4.c, dt, 0, PRECURSOR_MAX as int),
        t: spec_comb(y.t, k1.t, k2.t, k3.t, k4.t, dt, TEMP_MIN as int, FUEL_TEMP_MAX as int),
    }
}

/// One-group derivative with proven magnitude bounds.
fn kin1_deriv(n: i64, c: i64, t: i64, rho_in: i64) -> (r: (i64, i64, i64))
    requires
        NEUTRON_MIN <= n <= NEUTRON_MAX,
        0 <= c <= PRECURSOR_MAX,
        TEMP_MIN <= t <= FUEL_TEMP_MAX,
        RHO_MIN <= rho_in <= RHO_MAX,
    ensures
        ({ let k = spec_deriv1(Kin1 { n: n as int, c: c as int, t: t as int }, rho_in as int);
           r.0 as int == k.n && r.1 as int == k.c && r.2 as int == k.t
        }),
        abs_i(r.0 as int) <= 8_000_000_000_000_000,
        abs_i(r.1 as int) <= 4_000_000_000_000,
        abs_i(r.2 as int) <= 2_000_000_000_000,
{
    let dop: i64 = doppler_inner(rho_in, t);
    proof {
        lemma_fmul_fits(rho_in + dop - BETA_EFF, n as int, 160_000_000, 10_000_000_000);
    }
    let prompt: i64 = mul_fx(rho_in + dop - BETA_EFF, n);
    proof {
        lemma_muldiv_fits(prompt + c, SCALE as int, NEUTRON_LIFETIME as int, 2_000_000_000_000,
            SCALE as int, NEUTRON_LIFETIME as int);
    }
    let kn: i64 = div_fx(prompt + c, NEUTRON_LIFETIME);
    proof {
        lemma_fmul_fits(BETA_EFF as int, n as int, BETA_EFF as int, NEUTRON_MAX as int);
    }
    let prod: i64 = mul_fx(BETA_EFF, n);
    proof {
        lemma_fmul_fits(LAMBDA_EFF as int, prod - c, LAMBDA_EFF as int, 1_100_000_000_000);
    }
    let kc: i64 = mul_fx(LAMBDA_EFF, prod - c);
    proof {
        lemma_fmul_fits(FUEL_TEMP_RISE as int, n as int, 500_000_000_000, 10_000_000_000);
    }
    let target: i64 = FUEL_TEMP_BASE + mul_fx(FUEL_TEMP_RISE, n);
    proof {
        lemma_muldiv_fits(target - t, SCALE as int, FUEL_TAU as int, 9_000_000_000_000,
            SCALE as int, FUEL_TAU as int);
    }
    let kt: i64 = div_fx(target - t, FUEL_TAU);
    (kn, kc, kt)
}

/// Solve the one-group point-kinetics system for one time step by forward
/// Euler, without temperature feedback. Outputs are clamped.
pub fn solve_kinetics(n_neutrons: i64, precursors: i64, reactivity: i64, dt: i64) -> (r: (i64,
    i64))
    requires
        NEUTRON_MIN <= n_neutrons <= NEUTRON_MAX,
        0 <= precursors <= PRECURSOR_MAX,
        RHO_MIN <= reactivity <= RHO_MAX,
        DT_MIN <= dt <= DT_MAX,
    ensures
        (r.0 as int, r.1 as int) == spec_euler1(n_neutrons as int, precursors as int,
            reactivity as int, dt as int),
        NEUTRON_MIN <= r.0 <= NEUTRON_MAX,
        0 <= r.1 <= PRECURSOR_MAX,
{
    proof {
        lemma_fmul_fits(reactivity - BETA_EFF, n_neutrons as int, 110_000_000, 10_000_000_000);
    }
    let prompt: i64 = mul_fx(reactivity - BETA_EFF, n_neutrons);
    proof {
        lemma_muldiv_fits(prompt + precursors, SCALE as int, NEUTRON_LIFETIME as int,
            2_000_000_000_000, SCALE as int, NEUTRON_LIFETIME as int);
    }
    let dn: i64 = div_fx(prompt + precursors, NEUTRON_LIFETIME);
    proof {
        lemma_fmul_fits(BETA_EFF as int, n_neutrons as int, BETA_EFF as int, NEUTRON_MAX as int);
    }
    let prod: i64 = mul_fx(BETA_EFF, n_neutrons);
    proof {
        lemma_fmul_fits(LAMBDA_EFF as int, prod - precursors, LAMBDA_EFF as int,
            1_100_000_000_000);
    }
    let dc: i64 = mul_fx(LAMBDA_EFF, prod - precursors);
    proof {
        lemma_fmul_fits(dt as int, dn as int, DT_MAX as int, 2_000_000_000_000_000);
        lemma_fmul_fits(dt as int, dc as int, DT_MAX as int, 4_000_000_000_000);
    }
    let n_new: i64 = clamp_fx(n_neutrons + mul_fx(dt, dn), NEUTRON_MIN, NEUTRON_MAX);
    let c_new: i64 = clamp_fx(precursors + mul_fx(dt, dc), 0, PRECURSOR_MAX);
    (n_new, c_new)
}

/// Solve the one-group point-kinetics system for one time step by
/// fourth-order Runge-Kutta with Doppler feedback re-derived from the
/// evolving fuel temperature. Outputs are clamped.
pub fn solve_kinetics_rk4(n_neutrons: i64, precursors: i64, fuel_temp: i64, reactivity: i64,
    dt: i64) -> (r: (i64, i64, i64))
    requires
        NEUTRON_MIN <= n_neutrons <= NEUTRON_MAX,
        0 <= precursors <= PRECURSOR_MAX,
        TEMP_MIN <= fuel_temp <= FUEL_TEMP_MAX,
        RHO_MIN <= reactivity <= RHO_MAX,
        DT_MIN <= dt <= DT_MAX,
    ensures
        ({ let z = spec_rk4_1group(Kin1 { n: n_neutrons as int, c: precursors as int,
            t: fuel_temp as int }, reactivity as int, dt as int);
           r.0 as int == z.n && r.1 as int == z.c && r.2 as int == z.t
        }),
        NEUTRON_MIN <= r.0 <= NEUTRON_MAX,
        0 <= r.1 <= PRECURSOR_MAX,
        TEMP_MIN <= r.2 <= FUEL_TEMP_MAX,
{
    proof {
        reveal(spec_rk4_1group);
    }
    let h2: i64 = mul_div(dt, 1, 2);
    let k1: (i64, i64, i64) = kin1_deriv(n_neutrons, precursors, fuel_temp, reactivity);
    let y2n: i64 = kin_adv(n_neutrons, h2, k1.0, NEUTRON_MIN, NEUTRON_MAX);
    let y2c: i64 = kin_adv(precursors, h2, k1.1, 0, PRECURSOR_MAX);
    let y2t: i64 = kin_adv(fuel_temp, h2, k1.2, TEMP_MIN, FUEL_TEMP_MAX);
    let k2: (i64, i64, i64) = kin1_deriv(y2n, y2c, y2t, reactivity);
    let y3n: i64 = kin_adv(n_neutrons, h2, k2.0, NEUTRON_MIN, NEUTRON_MAX);
    let y3c: i64 = kin_adv(precursors, h2, k2.1, 0, PRECURSOR_MAX);
    let y3t: i64 = kin_adv(fuel_temp, h2, k2.2, TEMP_MIN, FUEL_TEMP_MAX);
    let k3: (i64, i64, i64) = kin1_deriv(y3n, y3c, y3t, reactivity);
    let y4n: i64 = kin_adv(n_neutrons, dt, k3.0, NEUTRON_MIN, NEUTRON_MAX);
    let y4c: i64 = kin_adv(precursors, dt, k3.1, 0, PRECURSOR_MAX);
    let y4t: i64 = kin_adv(fuel_temp, dt, k3.2, TEMP_MIN, FUEL_TEMP_MAX);
    let k4: (i64, i64, i64) = kin1_deriv(y4n, y4c, y4t, reactivity);
    let rn: i64 = kin_comb(n_neutrons, k1.0, k2.0, k3.0, k4.0, dt, NEUTRON_MIN, NEUTRON_MAX);
    let rc: i64 = kin_comb(precursors, k1.1, k2.1, k3.1, k4.1, dt, 0, PRECURSOR_MAX);
    let rt: i64 = kin_comb(fuel_temp, k1.2, k2.2, k3.2, k4.2, dt, TEMP_MIN, FUEL_TEMP_MAX);
    (rn, rc, rt)
}

// ---------------------------------------------------------------------------
// Reactor period and dollars
// ---------------------------------------------------------------------------

/// Asymptotic reactor period from reactivity alone: `Lambda / (rho - beta)`
/// prompt supercritical, `(beta - rho) / (lambda_eff * rho)` otherwise;
/// unbounded at zero reactivity or a vanishing denominator.
pub open spec fn spec_period_asymptotic(rho: int) -> int {
    if rho > BETA_EFF {
        fdiv(NEUTRON_LIFETIME as int, rho - BETA_EFF)
    } else if fmul(LAMBDA_EFF as int, rho) > 0 {
        fdiv(BETA_EFF - rho, fmul(LAMBDA_EFF as int, rho))
    } else if fmul(LAMBDA_EFF as int, rho) < 0 {
        -fdiv(BETA_EFF - rho, -fmul(LAMBDA_EFF as int, rho))
    } else {
        PERIOD_INFINITE as int
    }
}

/// Asymptotic reactor period from reactivity (see
/// [`spec_period_asymptotic`]).
pub fn calculate_reactor_period(reactivity: i64) -> (r: i64)
    requires
        RHO_MIN <= reactivity <= RHO_MAX,
    ensures
        r as int == spec_period_asymptotic(reactivity as int),
{
    if reactivity > BETA_EFF {
        proof {
            lemma_muldiv_fits(NEUTRON_LIFETIME as int, SCALE as int, reactivity - BETA_EFF,
                NEUTRON_LIFETIME as int, SCALE as int, 1);
        }
        div_fx(NEUTRON_LIFETIME, reactivity - BETA_EFF)
    } else {
        proof {
            lemma_fmul_fits(LAMBDA_EFF as int, reactivity as int, LAMBDA_EFF as int,
                100_000_000);
        }
        let denom: i64 = mul_fx(LAMBDA_EFF, reactivity);
        if denom > 0 {
            proof {
                lemma_muldiv_fits(BETA_EFF - reactivity, SCALE as int, denom as int,
                    110_000_000, SCALE as int, 1);
            }
            div_fx(BETA_EFF - reactivity, denom)
        } else if denom < 0 {
            proof {
                lemma_muldiv_fits(BETA_EFF - reactivity, SCALE as int, -denom as int,
                    110_000_000, SCALE as int, 1);
            }
            -div_fx(BETA_EFF - reactivity, -denom)
        } else {
            PERIOD_INFINITE
        }
    }
}

/// Reactor period derived from the realized rate of change of the neutron
/// population over one step: `n_old * dt / (n_new - n_old)`, reported as
/// unbounded when the population is near zero or stationary, or when the
/// magnitude would exceed [`PERIOD_MAX`].
pub open spec fn spec_period_from_rate(n0: int, n1: int, dt: int) -> int {
    let d: int = n1 - n0;
    if n0 < NEAR_ZERO_N || d == 0 {
        PERIOD_INFINITE as int
    } else if n0 * dt > (PERIOD_MAX as int) * abs_i(d) {
        PERIOD_INFINITE as int
    } else if d > 0 {
        tdiv(n0 * dt, d)
    } else {
        -tdiv(n0 * dt, -d)
    }
}

/// Reactor period from the realized rate of change (see
/// [`spec_period_from_rate`]).
pub fn period_from_rate(n_old: i64, n_new: i64, dt: i64) -> (r: i64)
    requires
        0 <= n_old <= NEUTRON_MAX,
        0 <= n_new <= NEUTRON_MAX,
        DT_MIN <= dt <= DT_MAX,
    ensures
        r as int == spec_period_from_rate(n_old as int, n_new as int, dt as int),
{
    let d: i64 = n_new - n_old;
    if n_old < NEAR_ZERO_N || d == 0 {
        return PERIOD_INFINITE;
    }
    let mag: i64 = if d > 0 {
        d
    } else {
        -d
    };
    proof {
        assert(0 <= n_old as int * dt as int <= 10_000_000_000_000_000_000) by (nonlinear_arith)
            requires
                0 <= n_old <= NEUTRON_MAX,
                0 <= dt <= DT_MAX,
        ;
        assert(0 <= (PERIOD_MAX as int) * (mag as int) <= 100_000_000_000_000_000_000_000_000)
            by (nonlinear_arith)
            requires
                0 < mag <= NEUTRON_MAX,
        ;
    }
    let lhs: i128 = (n_old as i128) * (dt as i128);
    let rhs: i128 = (PERIOD_MAX as i128) * (mag as i128);
    if lhs > rhs {
        return PERIOD_INFINITE;
    }
    proof {
        vstd::arithmetic::div_mod::lemma_multiply_divide_le(n_old as int * dt as int,
            mag as int, PERIOD_MAX as int);
        vstd::arithmetic::div_mod::lemma_div_pos_is_pos(n_old as int * dt as int, mag as int);
        assert(n_old as int * dt as int >= 0) by (nonlinear_arith)
            requires
                n_old >= 0,
                dt >= 0,
        ;
        assert(n_old as int * dt as int <= mag as int * (PERIOD_MAX as int))
            by (nonlinear_arith)
            requires
                n_old as int * dt as int <= (PERIOD_MAX as int) * (mag as int),
        ;
    }
    if d > 0 {
        mul_div(n_old, dt, d)
    } else {
        -mul_div(n_old, dt, mag)
    }
}

/// Reactivity expressed in dollars: `rho / BETA_EFF`.
pub fn reactivity_to_dollars(reactivity: i64) -> (r: i64)
    requires
        -SCALE <= reactivity <= SCALE,
    ensures
        r as int == fdiv(reactivity as int, BETA_EFF as int),
{
    proof {
        lemma_muldiv_fits(reactivity as int, SCALE as int, BETA_EFF as int, SCALE as int,
            SCALE as int, BETA_EFF as int);
    }
    div_fx(reactivity, BETA_EFF)
}

/// Sum of the six precursor-group concentrations.
pub fn sum_precursors_6group(precursors_6: &[i64; 6]) -> (r: i64)
    requires
        forall|g: int| 0 <= g < 6 ==> 0 <= #[trigger] precursors_6[g] <= PRECURSOR_MAX,
    ensures
        r as int == precursors_6[0] + precursors_6[1] + precursors_6[2] + precursors_6[3]
            + precursors_6[4] + precursors_6[5],
        0 <= r <= 6 * PRECURSOR_MAX,
{
    precursors_6[0] + precursors_6[1] + precursors_6[2] + precursors_6[3] + precursors_6[4]
        + precursors_6[5]
}


/// The solver's outputs are clamped regardless of its inputs: for any
/// starting point and any accepted step size, every component of the
/// solved state lies in its physical range — the population between its
/// floor and ten times nominal, every precursor group non-negative and
/// below its sentinel, the fuel temperature within its clamps.
#[verifier::rlimit(100)]
pub proof fn lemma_kinetics_outputs_clamped(y: KinS, rho_in: int, source: int, dt: int)
    requires
        DT_MIN <= dt <= DT_MAX,
    ensures
        kin_in_range(spec_kinetics_6group(y, rho_in, source, dt)),
{
    reveal(spec_substep);
    let ns = spec_num_substeps(rho_in, dt);
    if rho_in < RHO_STIFF {
        vstd::arithmetic::div_mod::lemma_div_non_zero(dt + SUBSTEP_MAX - 1,
            SUBSTEP_MAX as int);
    }
    assert(ns >= 1);
    let h = tdiv(dt, ns);
    let z = spec_substeps(y, rho_in, source, h, ns as nat);
    assert(z == spec_substep(spec_substeps(y, rho_in, source, h, (ns - 1) as nat), rho_in,
        source, h));
}

} // verus!
