//! Thermal-hydraulic model: fuel, coolant and graphite temperatures relax
//! toward power-dependent targets with deliberately different time
//! constants, and void fraction forms above the coolant saturation
//! temperature and collapses below it.

use vstd::prelude::*;

verus! {

use crate::fx::{fmul, clip, relax, mul_fx, mul_div, clamp_fx, relax_fx, lemma_fmul_fits,
    tdiv};
use crate::params::{FUEL_TEMP_BASE, FUEL_TEMP_RISE, FUEL_TAU, COOLANT_TEMP_BASE,
    COOLANT_TEMP_RISE, COOLANT_TAU, GRAPHITE_TEMP_BASE, GRAPHITE_TEMP_RISE, GRAPHITE_TAU,
    COOLANT_SAT_TEMP, VOID_PER_K, VOID_TAU, VOID_MAX, TEMP_MIN, FUEL_TEMP_MAX,
    COOLANT_TEMP_MAX, GRAPHITE_TEMP_MAX, DT_MIN, DT_MAX};

/// Power fraction from power percent: `power_percent / 100`.
pub open spec fn spec_power_fraction(power_percent: int) -> int {
    tdiv(power_percent, 100)
}

/// Power-dependent temperature target: `base + rise * power_fraction`.
pub open spec fn spec_temp_target(base: int, rise: int, pf: int) -> int {
    base + fmul(rise, pf)
}

/// New fuel temperature: relaxed toward its target and clamped.
pub open spec fn spec_fuel_temp_next(t: int, pf: int, dt: int) -> int {
    clip(relax(t, spec_temp_target(FUEL_TEMP_BASE as int, FUEL_TEMP_RISE as int, pf), dt,
        FUEL_TAU as int), TEMP_MIN as int, FUEL_TEMP_MAX as int)
}

/// New coolant temperature: relaxed toward its target and clamped.
pub open spec fn spec_coolant_temp_next(t: int, pf: int, dt: int) -> int {
    clip(relax(t, spec_temp_target(COOLANT_TEMP_BASE as int, COOLANT_TEMP_RISE as int, pf), dt,
        COOLANT_TAU as int), TEMP_MIN as int, COOLANT_TEMP_MAX as int)
}

/// New graphite temperature: relaxed toward its target (much more slowly)
/// and clamped.
pub open spec fn spec_graphite_temp_next(t: int, pf: int, dt: int) -> int {
    clip(relax(t, spec_temp_target(GRAPHITE_TEMP_BASE as int, GRAPHITE_TEMP_RISE as int, pf),
        dt, GRAPHITE_TAU as int), TEMP_MIN as int, GRAPHITE_TEMP_MAX as int)
}

/// New void fraction: proportional to the coolant temperature excess over
/// saturation (up to the cap) while above threshold, collapsing toward
/// zero below it.
pub open spec fn spec_void_next(void: int, t_coolant_new: int, dt: int) -> int {
    if t_coolant_new > COOLANT_SAT_TEMP {
        clip(fmul(VOID_PER_K as int, t_coolant_new - COOLANT_SAT_TEMP), 0, VOID_MAX as int)
    } else {
        clip(relax(void, 0, dt, VOID_TAU as int), 0, VOID_MAX as int)
    }
}

/// Update all temperatures and the void fraction for one time step.
///
/// Returns `(fuel_temp, coolant_temp, graphite_temp, coolant_void)`, each
/// clamped to its physical range.
pub fn update_temperatures(power_percent: i64, fuel_temp: i64, coolant_temp: i64,
    graphite_temp: i64, coolant_void: i64, dt: i64) -> (r: (i64, i64, i64, i64))
    requires
        0 <= power_percent <= 1_100_000_000_000,
        TEMP_MIN <= fuel_temp <= FUEL_TEMP_MAX,
        TEMP_MIN <= coolant_temp <= COOLANT_TEMP_MAX,
        TEMP_MIN <= graphite_temp <= GRAPHITE_TEMP_MAX,
        0 <= coolant_void <= VOID_MAX,
        DT_MIN <= dt <= DT_MAX,
    ensures
        ({ let pf = spec_power_fraction(power_percent as int);
           &&& r.0 as int == spec_fuel_temp_next(fuel_temp as int, pf, dt as int)
           &&& r.1 as int == spec_coolant_temp_next(coolant_temp as int, pf, dt as int)
           &&& r.2 as int == spec_graphite_temp_next(graphite_temp as int, pf, dt as int)
           &&& r.3 as int == spec_void_next(coolant_void as int, r.1 as int, dt as int)
        }),
        TEMP_MIN <= r.0 <= FUEL_TEMP_MAX,
        TEMP_MIN <= r.1 <= COOLANT_TEMP_MAX,
        TEMP_MIN <= r.2 <= GRAPHITE_TEMP_MAX,
        0 <= r.3 <= VOID_MAX,
{
    let pf: i64 = mul_div(power_percent, 1, 100);
    proof {
        lemma_fmul_fits(FUEL_TEMP_RISE as int, pf as int, FUEL_TEMP_RISE as int,
            11_000_000_000);
        lemma_fmul_fits(COOLANT_TEMP_RISE as int, pf as int, COOLANT_TEMP_RISE as int,
            11_000_000_000);
        lemma_fmul_fits(GRAPHITE_TEMP_RISE as int, pf as int, GRAPHITE_TEMP_RISE as int,
            11_000_000_000);
    }
    let fuel_target: i64 = FUEL_TEMP_BASE + mul_fx(FUEL_TEMP_RISE, pf);
    let coolant_target: i64 = COOLANT_TEMP_BASE + mul_fx(COOLANT_TEMP_RISE, pf);
    let graphite_target: i64 = GRAPHITE_TEMP_BASE + mul_fx(GRAPHITE_TEMP_RISE, pf);
    let fuel_new: i64 = clamp_fx(relax_fx(fuel_temp, fuel_target, dt, FUEL_TAU), TEMP_MIN,
        FUEL_TEMP_MAX);
    let coolant_new: i64 = clamp_fx(relax_fx(coolant_temp, coolant_target, dt, COOLANT_TAU),
        TEMP_MIN, COOLANT_TEMP_MAX);
    let graphite_new: i64 = clamp_fx(relax_fx(graphite_temp, graphite_target, dt,
        GRAPHITE_TAU), TEMP_MIN, GRAPHITE_TEMP_MAX);
    let void_new: i64 = if coolant_new > COOLANT_SAT_TEMP {
        proof {
            lemma_fmul_fits(VOID_PER_K as int, coolant_new - COOLANT_SAT_TEMP,
                VOID_PER_K as int, 142_000_000_000);
        }
        clamp_fx(mul_fx(VOID_PER_K, coolant_new - COOLANT_SAT_TEMP), 0, VOID_MAX)
    } else {
        clamp_fx(relax_fx(coolant_void, 0, dt, VOID_TAU), 0, VOID_MAX)
    };
    (fuel_new, coolant_new, graphite_new, void_new)
}

} // verus!
