//! Tests of the point-kinetics engine and the derived period and dollar
//! figures. All values are fixed-point: one unit is 10^-9.

use rbmk_core::fx::SCALE;
use rbmk_core::params::{BETA_EFF, PERIOD_INFINITE, DT_DEFAULT};
use rbmk_core::kinetics::{solve_kinetics, solve_kinetics_rk4, solve_kinetics_6group,
    init_precursors_6group, sum_precursors_6group, calculate_reactor_period, period_from_rate,
    reactivity_to_dollars};
use rbmk_core::flux::{calc_neutron_flux, update_axial_flux};

#[test]
fn test_kinetics() {
    // One-group Euler step at zero reactivity from equilibrium
    // (n = 1.0, scaled precursors = 0.0065): the population is stable.
    let (n, _c) = solve_kinetics(SCALE, 6_500_000, 0, 100_000_000);
    assert!((n - SCALE).abs() < 100_000_000);
}

#[test]
fn test_neutron_flux() {
    // 50 samples of 14 cm each: a positive k_eff and a non-negative
    // fundamental-mode profile.
    let (flux, k_eff) = calc_neutron_flux(50, 14_000_000_000);
    assert!(k_eff > 0);
    assert!(flux.iter().all(|&x| x >= 0));
}

#[test]
fn fortran_ffi_test_neutron_flux() {
    let (flux, k_eff) = calc_neutron_flux(50, 14_000_000_000);
    assert_eq!(flux.len(), 50);
    assert!(k_eff > 0);
}

#[test]
fn test_rod_worth() {
    let worth_inserted = rbmk_core::rods::calc_rod_worth(0, 50_000_000);
    let worth_withdrawn = rbmk_core::rods::calc_rod_worth(SCALE, 50_000_000);
    // Fully inserted carries the full worth, fully withdrawn none.
    assert!(worth_inserted > worth_withdrawn);
    assert_eq!(worth_inserted, 50_000_000);
    assert_eq!(worth_withdrawn, 0);
}

#[test]
fn six_group_equilibrium_is_stationary() {
    // At zero reactivity with equilibrium precursors and the reference
    // fuel temperature, one full step leaves the population nearly
    // unchanged (the tiny drift comes from the six group yields summing
    // to 0.0065020 against the 0.0065 total).
    let groups = init_precursors_6group(SCALE);
    let (n, groups2, t) = solve_kinetics_6group(SCALE, &groups, 800_000_000_000, 0, 0,
        DT_DEFAULT);
    assert!((n - SCALE).abs() < 1_000_000, "population drifted: {}", n);
    assert!((t - 800_000_000_000).abs() < 1_000_000_000);
    for g in 0..6 {
        assert!(groups2[g] >= 0);
    }
}

#[test]
fn six_group_negative_reactivity_decays() {
    let groups = init_precursors_6group(SCALE);
    let (n, _, _) = solve_kinetics_6group(SCALE, &groups, 800_000_000_000, -50_000_000, 0,
        DT_DEFAULT);
    assert!(n < SCALE);
}

#[test]
fn rk4_one_group_stable_at_critical() {
    let (n, _c, _t) = solve_kinetics_rk4(SCALE, 6_500_000, 800_000_000_000, 0, DT_DEFAULT);
    assert!((n - SCALE).abs() < 1_000_000);
}

#[test]
fn precursor_init_and_sum() {
    let groups = init_precursors_6group(SCALE);
    // In the scaled precursor variable, equilibrium of group g is
    // exactly beta_g * n.
    assert_eq!(groups[0], 215_000);
    assert_eq!(groups[3], 2_568_000);
    let total = sum_precursors_6group(&groups);
    assert_eq!(total, 6_502_000);
}

#[test]
fn asymptotic_period_signs() {
    // Zero reactivity: unbounded period.
    assert_eq!(calculate_reactor_period(0), PERIOD_INFINITE);
    // Positive reactivity: a positive period.
    assert!(calculate_reactor_period(1_000_000) > 0);
    // Negative reactivity: a negative period (decay).
    assert!(calculate_reactor_period(-1_000_000) < 0);
}

#[test]
fn realized_period_cases() {
    // Stationary population: unbounded.
    assert_eq!(period_from_rate(SCALE, SCALE, DT_DEFAULT), PERIOD_INFINITE);
    // Near-zero population: unbounded.
    assert_eq!(period_from_rate(10, 20, DT_DEFAULT), PERIOD_INFINITE);
    // Population doubling over one default step: period == dt.
    assert_eq!(period_from_rate(SCALE, 2 * SCALE, DT_DEFAULT), DT_DEFAULT);
    // Decaying population: a negative period.
    assert!(period_from_rate(SCALE, SCALE / 2, DT_DEFAULT) < 0);
}

#[test]
fn dollars_conversion_is_exact() {
    // One beta of reactivity is exactly one dollar.
    assert_eq!(reactivity_to_dollars(BETA_EFF), SCALE);
    assert_eq!(reactivity_to_dollars(-BETA_EFF), -SCALE);
    assert_eq!(reactivity_to_dollars(0), 0);
}

#[test]
fn axial_profile_shape() {
    let profile = update_axial_flux(50, SCALE);
    assert_eq!(profile.len(), 50);
    // Symmetric about the midplane and peaked there.
    assert_eq!(profile[0], profile[49]);
    assert!(profile[24] > profile[0]);
    assert!(profile[24] > profile[40]);
    // At nominal population the peak approaches 1.0.
    assert!(profile[24] > 990_000_000 && profile[24] <= SCALE);
}
