//! Reactivity feedback model: the instantaneous reactivity as the sum of
//! base excess reactivity, Doppler, graphite, void, xenon and rod terms;
//! exponential smoothing toward that sum with a state-dependent time
//! constant; and the clamp band within which reactivity is reported.

use vstd::prelude::*;

verus! {

use crate::fx::{SCALE, fmul, fdiv, clip, relax, abs_i, mul_fx, div_fx, mul_div, clamp_fx,
    relax_fx, lemma_fmul_fits, lemma_muldiv_fits};
use crate::params::{BASE_EXCESS_REACTIVITY, DOPPLER_COEF, FUEL_TEMP_REF, DOPPLER_POS_CAP,
    GRAPHITE_COEF, GRAPHITE_TEMP_REF, VOID_COEF, XENON_COEF, RHO_MIN, RHO_MAX, TAU_RHO_NORMAL,
    TAU_RHO_SCRAM, KEFF_DENOM_MIN, KEFF_PINNED_HIGH, TEMP_MIN, FUEL_TEMP_MAX,
    GRAPHITE_TEMP_MAX, VOID_MAX, CONCENTRATION_MAX, DT_MIN, DT_MAX, NOMINAL_POWER_MW_FX,
    NEUTRON_MAX};

// ---------------------------------------------------------------------------
// Individual feedback terms
// ---------------------------------------------------------------------------

/// Doppler (fuel temperature) feedback: negative and proportional to the
/// departure from the reference temperature, with the positive (cold-fuel)
/// side capped.
pub open spec fn spec_doppler_term(t_fuel: int) -> int {
    let raw: int = -fmul(DOPPLER_COEF as int, t_fuel - FUEL_TEMP_REF);
    if raw > DOPPLER_POS_CAP {
        DOPPLER_POS_CAP as int
    } else {
        raw
    }
}

/// Graphite temperature feedback: positive and proportional, the
/// characteristic positive moderator coefficient of this design.
pub open spec fn spec_graphite_term(t_graphite: int) -> int {
    fmul(GRAPHITE_COEF as int, t_graphite - GRAPHITE_TEMP_REF)
}

/// Void feedback: strongly positive and proportional to void fraction,
/// the dominant destabilizing term.
pub open spec fn spec_void_term(void: int) -> int {
    fmul(VOID_COEF as int, void)
}

/// Xenon feedback: negative and proportional to the Xe-135 concentration.
pub open spec fn spec_xenon_term(xenon: int) -> int {
    -fmul(XENON_COEF as int, xenon)
}

/// The instantaneous reactivity: base excess reactivity plus all feedback
/// terms minus the inserted rod worth.
pub open spec fn spec_rho_instant(t_fuel: int, t_graphite: int, void: int, xenon: int,
    rod_worth: int) -> int {
    BASE_EXCESS_REACTIVITY + spec_doppler_term(t_fuel) + spec_graphite_term(t_graphite)
        + spec_void_term(void) + spec_xenon_term(xenon) - rod_worth
}

/// The smoothing time constant: fast while the emergency shutdown is
/// active, slower in normal operation.
pub open spec fn spec_rho_tau(scram_active: bool) -> int {
    if scram_active {
        TAU_RHO_SCRAM as int
    } else {
        TAU_RHO_NORMAL as int
    }
}

/// The reported reactivity after one step: the previous smoothed value
/// relaxed toward the instantaneous sum, then clamped to the band.
pub open spec fn spec_total_reactivity(t_fuel: int, t_graphite: int, void: int, xenon: int,
    rod_worth: int, smoothed: int, dt: int, scram_active: bool) -> int {
    clip(relax(smoothed, spec_rho_instant(t_fuel, t_graphite, void, xenon, rod_worth), dt,
        spec_rho_tau(scram_active)), RHO_MIN as int, RHO_MAX as int)
}

/// Inputs to the feedback model within their physical ranges, and a rod
/// worth that a bounded rod bank can produce.
pub open spec fn feedback_inputs_ok(t_fuel: int, t_graphite: int, void: int, xenon: int,
    rod_worth: int) -> bool {
    &&& TEMP_MIN <= t_fuel <= FUEL_TEMP_MAX
    &&& TEMP_MIN <= t_graphite <= GRAPHITE_TEMP_MAX
    &&& 0 <= void <= VOID_MAX
    &&& 0 <= xenon <= CONCENTRATION_MAX
    &&& 0 <= rod_worth <= 20_000_000_000
}

/// Doppler feedback term (see [`spec_doppler_term`]).
pub fn doppler_term(t_fuel: i64) -> (r: i64)
    requires
        TEMP_MIN <= t_fuel <= FUEL_TEMP_MAX,
    ensures
        r as int == spec_doppler_term(t_fuel as int),
        -52_000_000 <= r <= DOPPLER_POS_CAP,
{
    proof {
        lemma_fmul_fits(DOPPLER_COEF as int, t_fuel - FUEL_TEMP_REF, 12_000,
            4_300_000_000_000);
    }
    let raw: i64 = -mul_fx(DOPPLER_COEF, t_fuel - FUEL_TEMP_REF);
    if raw > DOPPLER_POS_CAP {
        DOPPLER_POS_CAP
    } else {
        raw
    }
}

/// The instantaneous reactivity (see [`spec_rho_instant`]).
pub fn rho_instant(t_fuel: i64, t_graphite: i64, void: i64, xenon: i64, rod_worth: i64) -> (r:
    i64)
    requires
        feedback_inputs_ok(t_fuel as int, t_graphite as int, void as int, xenon as int,
            rod_worth as int),
    ensures
        r as int == spec_rho_instant(t_fuel as int, t_graphite as int, void as int,
            xenon as int, rod_worth as int),
        abs_i(r as int) <= 50_000_000_000,
{
    let dop: i64 = doppler_term(t_fuel);
    proof {
        lemma_fmul_fits(GRAPHITE_COEF as int, t_graphite - GRAPHITE_TEMP_REF, 2_000,
            2_300_000_000_000);
        lemma_fmul_fits(VOID_COEF as int, void as int, VOID_COEF as int, VOID_MAX as int);
        lemma_fmul_fits(XENON_COEF as int, xenon as int, XENON_COEF as int,
            CONCENTRATION_MAX as int);
    }
    let graph: i64 = mul_fx(GRAPHITE_COEF, t_graphite - GRAPHITE_TEMP_REF);
    let void_t: i64 = mul_fx(VOID_COEF, void);
    let xe_t: i64 = -mul_fx(XENON_COEF, xenon);
    BASE_EXCESS_REACTIVITY + dop + graph + void_t + xe_t - rod_worth
}

/// Total reactivity for one step: instantaneous sum, smoothed and clamped
/// (see [`spec_total_reactivity`]). The result is always inside the band,
/// and it never exceeds the previous smoothed value when the
/// instantaneous sum lies below the band floor.
pub fn calc_total_reactivity(fuel_temp: i64, graphite_temp: i64, coolant_void: i64,
    xenon_135: i64, rod_worth: i64, smoothed_reactivity: i64, dt: i64, scram_active: bool) -> (r:
    i64)
    requires
        feedback_inputs_ok(fuel_temp as int, graphite_temp as int, coolant_void as int,
            xenon_135 as int, rod_worth as int),
        RHO_MIN <= smoothed_reactivity <= RHO_MAX,
        DT_MIN <= dt <= DT_MAX,
    ensures
        r as int == spec_total_reactivity(fuel_temp as int, graphite_temp as int,
            coolant_void as int, xenon_135 as int, rod_worth as int,
            smoothed_reactivity as int, dt as int, scram_active),
        RHO_MIN <= r <= RHO_MAX,
        spec_rho_instant(fuel_temp as int, graphite_temp as int, coolant_void as int,
            xenon_135 as int, rod_worth as int) <= smoothed_reactivity
            ==> r <= smoothed_reactivity,
{
    let inst: i64 = rho_instant(fuel_temp, graphite_temp, coolant_void, xenon_135, rod_worth);
    let tau: i64 = if scram_active {
        TAU_RHO_SCRAM
    } else {
        TAU_RHO_NORMAL
    };
    let smoothed: i64 = relax_fx(smoothed_reactivity, inst, dt, tau);
    clamp_fx(smoothed, RHO_MIN, RHO_MAX)
}

/// Reactivity derived from a multiplication factor plus feedback terms:
/// `(k_eff - 1) / k_eff` plus Doppler, void, xenon and graphite feedback.
pub open spec fn spec_calc_reactivity(k_eff: int, t_fuel: int, void: int, xenon: int,
    t_graphite: int) -> int {
    fdiv(k_eff - SCALE, k_eff) + spec_doppler_term(t_fuel) + spec_void_term(void)
        + spec_xenon_term(xenon) + spec_graphite_term(t_graphite)
}

/// Reactivity from a multiplication factor and the feedback inputs (see
/// [`spec_calc_reactivity`]).
pub fn calc_reactivity(k_eff: i64, fuel_temp: i64, coolant_void: i64, xe_concentration: i64,
    graphite_temp: i64) -> (r: i64)
    requires
        KEFF_DENOM_MIN <= k_eff <= KEFF_PINNED_HIGH,
        TEMP_MIN <= fuel_temp <= FUEL_TEMP_MAX,
        0 <= coolant_void <= VOID_MAX,
        0 <= xe_concentration <= CONCENTRATION_MAX,
        TEMP_MIN <= graphite_temp <= GRAPHITE_TEMP_MAX,
    ensures
        r as int == spec_calc_reactivity(k_eff as int, fuel_temp as int, coolant_void as int,
            xe_concentration as int, graphite_temp as int),
{
    proof {
        lemma_muldiv_fits(k_eff - SCALE, SCALE as int, k_eff as int, 1_000_000_000_000,
            SCALE as int, KEFF_DENOM_MIN as int);
    }
    let base: i64 = div_fx(k_eff - SCALE, k_eff);
    let dop: i64 = doppler_term(fuel_temp);
    proof {
        lemma_fmul_fits(VOID_COEF as int, coolant_void as int, VOID_COEF as int,
            VOID_MAX as int);
        lemma_fmul_fits(XENON_COEF as int, xe_concentration as int, XENON_COEF as int,
            CONCENTRATION_MAX as int);
        lemma_fmul_fits(GRAPHITE_COEF as int, graphite_temp - GRAPHITE_TEMP_REF, 2_000,
            2_300_000_000_000);
    }
    let void_t: i64 = mul_fx(VOID_COEF, coolant_void);
    let xe_t: i64 = -mul_fx(XENON_COEF, xe_concentration);
    let graph: i64 = mul_fx(GRAPHITE_COEF, graphite_temp - GRAPHITE_TEMP_REF);
    base + dop + void_t + xe_t + graph
}

// ---------------------------------------------------------------------------
// Derived quantities
// ---------------------------------------------------------------------------

/// Effective multiplication factor from reactivity: `1 / (1 - rho)`,
/// pinned to a sentinel rather than dividing when the denominator comes
/// close to zero.
pub open spec fn spec_k_eff(rho: int) -> int {
    if SCALE - rho < KEFF_DENOM_MIN {
        KEFF_PINNED_HIGH as int
    } else {
        fdiv(SCALE as int, SCALE - rho)
    }
}

/// Effective multiplication factor from reactivity (see [`spec_k_eff`]).
pub fn k_eff_from_reactivity(rho: i64) -> (r: i64)
    requires
        RHO_MIN <= rho <= RHO_MAX,
    ensures
        r as int == spec_k_eff(rho as int),
        0 < r <= KEFF_PINNED_HIGH,
{
    if SCALE - rho < KEFF_DENOM_MIN {
        KEFF_PINNED_HIGH
    } else {
        proof {
            lemma_muldiv_fits(SCALE as int, SCALE as int, SCALE - rho, SCALE as int,
                SCALE as int, KEFF_DENOM_MIN as int);
            vstd::arithmetic::div_mod::lemma_div_non_zero((SCALE as int) * (SCALE as int),
                SCALE - rho);
            assert((SCALE as int) * (SCALE as int) >= SCALE - rho) by (nonlinear_arith)
                requires
                    KEFF_DENOM_MIN <= SCALE - rho <= 2_000_000_000,
            ;
            vstd::arithmetic::div_mod::lemma_multiply_divide_le((SCALE as int) * (SCALE as int),
                SCALE - rho, KEFF_PINNED_HIGH as int);
            assert((SCALE as int) * (SCALE as int) > 0) by (nonlinear_arith);
            assert((SCALE - rho) * (KEFF_PINNED_HIGH as int) >= (SCALE as int) * (SCALE as int))
                by (nonlinear_arith)
                requires
                    SCALE - rho >= KEFF_DENOM_MIN,
            ;
        }
        div_fx(SCALE, SCALE - rho)
    }
}

/// Thermal power in fixed-point MW from the neutron population relative
/// to a nominal reference population.
pub fn calc_power(n_neutrons: i64, n_nominal: i64) -> (r: i64)
    requires
        0 <= n_neutrons <= NEUTRON_MAX,
        100_000_000 <= n_nominal <= NEUTRON_MAX,
    ensures
        r as int == crate::fx::tdiv(n_neutrons as int * (NOMINAL_POWER_MW_FX as int),
            n_nominal as int),
{
    proof {
        lemma_muldiv_fits(n_neutrons as int, NOMINAL_POWER_MW_FX as int, n_nominal as int,
            NEUTRON_MAX as int, NOMINAL_POWER_MW_FX as int, 100_000_000);
    }
    mul_div(n_neutrons, NOMINAL_POWER_MW_FX, n_nominal)
}

} // verus!
