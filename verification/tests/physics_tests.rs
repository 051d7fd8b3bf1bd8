//! Tests of the feedback, thermal-hydraulic and xenon models against
//! exact expected values. All values are fixed-point: one unit is 10^-9.

use rbmk_core::fx::SCALE;
use rbmk_core::params::{DT_DEFAULT, VOID_MAX, RHO_MIN, RHO_MAX, CONCENTRATION_MAX};
use rbmk_core::feedback::{calc_reactivity, calc_total_reactivity, k_eff_from_reactivity,
    calc_power, doppler_term, rho_instant};
use rbmk_core::thermal::update_temperatures;
use rbmk_core::xenon::{calc_xenon, calc_equilibrium_xenon};

#[test]
fn test_reactivity() {
    // At k_eff = 1.0 with both temperatures at their references, no void
    // and no xenon, the base reactivity is zero.
    let rho = calc_reactivity(SCALE, 800_000_000_000, 0, 0, 600_000_000_000);
    assert!(rho.abs() < 100_000_000);
}

#[test]
fn fortran_ffi_test_reactivity() {
    // The same point with an equilibrium-scale xenon load (one relative
    // unit stands for 10^15 atoms/cm^3): still well within a tenth.
    let rho = calc_reactivity(SCALE, 800_000_000_000, 0, 1_000_000_000, 600_000_000_000);
    assert!(rho.abs() < 100_000_000);
}

#[test]
fn doppler_is_capped_when_cold() {
    // Cold fuel far below the reference would give a large positive
    // term; it is capped at +0.005.
    assert_eq!(doppler_term(300_000_000_000), 5_000_000);
    // At the reference temperature the term vanishes.
    assert_eq!(doppler_term(800_000_000_000), 0);
    // Hot fuel gives an uncapped negative term: -1.2e-5 per K.
    assert_eq!(doppler_term(1_800_000_000_000), -12_000_000);
}

#[test]
fn instant_reactivity_is_a_plain_sum() {
    // All feedback terms at their references, no rods: the base excess
    // reactivity alone.
    let rho = rho_instant(800_000_000_000, 600_000_000_000, 0, 0, 0);
    assert_eq!(rho, 48_640_000);
    // A rod worth subtracts one for one.
    let rho2 = rho_instant(800_000_000_000, 600_000_000_000, 0, 0, 48_640_000);
    assert_eq!(rho2, 0);
}

#[test]
fn total_reactivity_stays_in_band() {
    // A huge positive instantaneous sum is smoothed and clamped to the
    // band ceiling; a huge negative one to the floor.
    let hi = calc_total_reactivity(800_000_000_000, 2_400_000_000_000, VOID_MAX, 0, 0,
        RHO_MAX, 1_000_000_000, false);
    assert!(RHO_MIN <= hi && hi <= RHO_MAX);
    let lo = calc_total_reactivity(800_000_000_000, 600_000_000_000, 0, CONCENTRATION_MAX,
        20_000_000_000, RHO_MIN, 1_000_000_000, true);
    assert!(RHO_MIN <= lo && lo <= RHO_MAX);
}

#[test]
fn k_eff_branches() {
    // Critical: exactly one.
    assert_eq!(k_eff_from_reactivity(0), SCALE);
    // Subcritical -0.05: 1 / 1.05 truncated.
    assert_eq!(k_eff_from_reactivity(-50_000_000), 952_380_952);
    // Slightly supercritical: above one.
    assert!(k_eff_from_reactivity(10_000_000) > SCALE);
}

#[test]
fn power_scales_with_population() {
    // Nominal population at a nominal reference: full power.
    assert_eq!(calc_power(SCALE, SCALE), 3_200_000_000_000);
    // Half population: half power.
    assert_eq!(calc_power(SCALE / 2, SCALE), 1_600_000_000_000);
}

#[test]
fn temperatures_rest_at_zero_power() {
    // Cold reactor at zero power: every target equals the base, nothing
    // moves, no void forms.
    let (f, c, g, v) = update_temperatures(0, 300_000_000_000, 300_000_000_000,
        300_000_000_000, 0, DT_DEFAULT);
    assert_eq!(f, 300_000_000_000);
    assert_eq!(c, 300_000_000_000);
    assert_eq!(g, 300_000_000_000);
    assert_eq!(v, 0);
}

#[test]
fn temperatures_rise_toward_power_targets() {
    let (f, c, g, _v) = update_temperatures(100_000_000_000, 300_000_000_000,
        300_000_000_000, 300_000_000_000, 0, 1_000_000_000);
    // At 100% power every temperature moves toward its hot target...
    assert!(f > 300_000_000_000);
    assert!(c > 300_000_000_000);
    assert!(g > 300_000_000_000);
    // ...and the graphite, with its 60 s constant, lags far behind the
    // coolant (3 s): the deliberate delayed positive feedback.
    assert!(g - 300_000_000_000 < c - 300_000_000_000);
}

#[test]
fn void_forms_above_saturation_and_collapses_below() {
    // Coolant held just above saturation: void proportional to the
    // excess, 2% per K.
    let (_f, c, _g, v) = update_temperatures(0, 800_000_000_000, 600_000_000_000,
        600_000_000_000, 0, 1_000_000);
    assert!(c > 558_000_000_000);
    assert!(v > 0 && v <= VOID_MAX);
    // Below saturation an existing void decays toward zero.
    let (_f2, c2, _g2, v2) = update_temperatures(0, 300_000_000_000, 300_000_000_000,
        300_000_000_000, 40_000_000_000, DT_DEFAULT);
    assert!(c2 < 558_000_000_000);
    assert!(v2 < 40_000_000_000);
    assert!(v2 >= 0);
}

#[test]
fn xenon_equilibrium_is_exact() {
    // The constants are tuned so that nominal flux gives exactly 1.0
    // relative iodine and 3.0 relative xenon at equilibrium.
    let (i_eq, xe_eq) = calc_equilibrium_xenon(SCALE);
    assert_eq!(i_eq, SCALE);
    assert_eq!(xe_eq, 3 * SCALE);
}

#[test]
fn xenon_dynamics_move_toward_equilibrium() {
    // Fresh fuel at nominal flux: iodine and xenon grow.
    let (i1, xe1) = calc_xenon(0, 0, SCALE, 1_000_000_000);
    assert!(i1 > 0);
    assert!(xe1 > 0);
    // Far above equilibrium with no flux: both decay.
    let (i2, xe2) = calc_xenon(10 * SCALE, 10 * SCALE, 0, 1_000_000_000);
    assert!(i2 < 10 * SCALE);
    assert!(xe2 > 0 && xe2 < 10 * SCALE + i2);
}
