//! Tests of the simulation orchestrator: the control surface, its
//! clamping behavior, the reference startup equilibrium, the emergency
//! shutdown, and the real-time pacing.

use rbmk_core::fx::SCALE;
use rbmk_core::params::{DT_DEFAULT, DT_MIN, DT_MAX, PERIOD_INFINITE, REFERENCE_ROD_POSITION};
use rbmk_core::sim::ReactorSimulator;
use rbmk_core::rods::{RodType, RodLabel};

#[test]
fn default_state_is_documented() {
    let sim = ReactorSimulator::new();
    let st = sim.get_state();
    assert_eq!(st.time, 0);
    assert_eq!(st.dt, DT_DEFAULT);
    assert_eq!(st.power_mw, 0);
    assert_eq!(st.power_percent, 0);
    assert_eq!(st.neutron_population, 1_000);
    assert_eq!(st.precursors, 0);
    assert_eq!(st.precursors_6, [0i64; 6]);
    assert_eq!(st.k_eff, 950_000_000);
    assert_eq!(st.reactivity, -50_000_000);
    assert_eq!(st.period, PERIOD_INFINITE);
    assert_eq!(st.iodine_135, 0);
    assert_eq!(st.xenon_135, 0);
    assert_eq!(st.avg_fuel_temp, 300_000_000_000);
    assert_eq!(st.avg_coolant_temp, 300_000_000_000);
    assert_eq!(st.avg_graphite_temp, 300_000_000_000);
    assert_eq!(st.avg_coolant_void, 0);
    assert!(!st.scram_active);
    assert_eq!(st.scram_time, 0);
    assert!(st.axial_flux.iter().all(|&x| x == 0));
    assert!(st.alerts.is_empty());
    assert!(!st.explosion_occurred);
    assert_eq!(st.smoothed_reactivity, -50_000_000);
}

#[test]
fn reset_reproduces_default_exactly() {
    // Disturb everything, then reset: the snapshot is the documented
    // default again (time restarts at zero).
    let mut sim = ReactorSimulator::new();
    sim.set_time_step(500_000_000);
    sim.set_target_power(50_000_000_000);
    sim.set_auto_regulator_enabled(true);
    sim.move_rod_group(RodType::Manual, SCALE);
    for _ in 0..5 {
        sim.step();
    }
    sim.scram();
    sim.reset();
    let st = sim.get_state();
    assert_eq!(st.time, 0);
    assert_eq!(st.dt, DT_DEFAULT);
    assert_eq!(st.neutron_population, 1_000);
    assert_eq!(st.reactivity, -50_000_000);
    assert_eq!(st.smoothed_reactivity, -50_000_000);
    assert_eq!(st.avg_fuel_temp, 300_000_000_000);
    assert_eq!(st.avg_coolant_void, 0);
    assert!(!st.scram_active);
    assert!(!st.explosion_occurred);
    assert!(!st.auto_regulator.enabled);
    assert_eq!(st.auto_regulator.target_power, 100_000_000_000);
    assert!(st.alerts.is_empty());
    // Every rod is fully inserted and every channel cold again.
    assert!(sim.get_control_rods().iter().all(|r| r.position == 0));
    assert!(sim.get_fuel_channels().iter().all(|c| c.fuel_temp == 300_000_000_000
        && c.coolant_void == 0 && c.xenon_135 == 0 && c.neutron_flux == 1_000));
}

#[test]
fn target_power_round_trip_is_clamped() {
    let mut sim = ReactorSimulator::new();
    sim.set_target_power(90_000_000_000);
    assert_eq!(sim.get_auto_regulator().target_power, 90_000_000_000);
    // Above the ceiling: clamped to 110%.
    sim.set_target_power(400_000_000_000);
    assert_eq!(sim.get_auto_regulator().target_power, 110_000_000_000);
    // Below the floor: clamped to 5%.
    sim.set_target_power(-7_000_000_000);
    assert_eq!(sim.get_auto_regulator().target_power, 5_000_000_000);
}

#[test]
fn time_step_is_clamped() {
    let mut sim = ReactorSimulator::new();
    sim.set_time_step(5_000_000_000);
    assert_eq!(sim.get_state().dt, DT_MAX);
    sim.set_time_step(1);
    assert_eq!(sim.get_state().dt, DT_MIN);
    sim.set_time_step(250_000_000);
    assert_eq!(sim.get_state().dt, 250_000_000);
}

#[test]
fn rod_moves_are_clamped_and_unknown_ids_are_noops() {
    let mut sim = ReactorSimulator::new();
    sim.move_rod(0, 5 * SCALE);
    assert_eq!(sim.get_control_rods()[0].position, SCALE);
    sim.move_rod(0, -SCALE);
    assert_eq!(sim.get_control_rods()[0].position, 0);
    // An unknown index changes nothing.
    let before = sim.get_control_rods();
    sim.move_rod(100_000, SCALE);
    let after = sim.get_control_rods();
    assert_eq!(before.len(), after.len());
    assert!(before.iter().zip(after.iter()).all(|(a, b)| a.position == b.position));
}

#[test]
fn group_and_label_moves_address_the_right_rods() {
    let mut sim = ReactorSimulator::new();
    sim.move_rod_group(RodType::Manual, 700_000_000);
    for rod in sim.get_control_rods() {
        if rod.rod_type == RodType::Manual {
            assert_eq!(rod.position, 700_000_000);
        } else {
            assert_eq!(rod.position, 0);
        }
    }
    sim.move_rod_group_by_channel_type(RodLabel::Az, 300_000_000);
    for rod in sim.get_control_rods() {
        if rod.channel_type == RodLabel::Az {
            assert_eq!(rod.position, 300_000_000);
        }
    }
}

#[test]
fn grid_addressed_move_finds_the_rod() {
    let mut sim = ReactorSimulator::new();
    let rods = sim.get_control_rods();
    let (gx, gy) = (rods[0].grid_x, rods[0].grid_y);
    assert!(sim.move_rod_by_grid_position(gx, gy, 600_000_000));
    assert_eq!(sim.get_control_rods()[0].position, 600_000_000);
    // An empty grid position reports no rod.
    assert!(!sim.move_rod_by_grid_position(47, 47, 600_000_000));
}

#[test]
fn reference_startup_is_near_critical() {
    // One step from the defined reference startup configuration changes
    // the neutron population by less than 1e-3.
    let mut sim = ReactorSimulator::reference_startup();
    assert_eq!(sim.get_state().neutron_population, SCALE);
    assert_eq!(sim.get_state().reactivity, 0);
    sim.step();
    let st = sim.get_state();
    assert!((st.neutron_population - SCALE).abs() < 1_000_000,
        "population moved to {}", st.neutron_population);
    // Reactivity stays essentially zero.
    assert!(st.reactivity.abs() < 1_000_000, "reactivity {}", st.reactivity);
}

#[test]
fn scram_inserts_all_rods_and_goes_deeply_subcritical() {
    // All rods inserted and the shutdown triggered: reactivity falls
    // below minus five dollars within the same call.
    let mut sim = ReactorSimulator::reference_startup();
    sim.move_rod_group(RodType::Manual, 0);
    sim.move_rod_group(RodType::Automatic, 0);
    sim.move_rod_group(RodType::Shortened, 0);
    sim.move_rod_group(RodType::Emergency, 0);
    sim.scram();
    let st = sim.get_state();
    assert!(st.scram_active);
    assert!(sim.get_control_rods().iter().all(|r| r.position == 0));
    assert!(st.reactivity_dollars < -5_000_000_000, "dollars {}", st.reactivity_dollars);
    // Re-triggering while active is a no-op on the state.
    let before = sim.get_state();
    sim.scram();
    let after = sim.get_state();
    assert_eq!(before.reactivity, after.reactivity);
    assert_eq!(before.scram_time, after.scram_time);
}

#[test]
fn scram_population_is_nonincreasing() {
    // From the reference equilibrium, the population never rises while
    // the shutdown stays active and the feedback state stays cold.
    let mut sim = ReactorSimulator::reference_startup();
    sim.scram();
    let mut last = sim.get_state().neutron_population;
    for _ in 0..10 {
        sim.step();
        let n = sim.get_state().neutron_population;
        assert!(n <= last, "population rose from {} to {}", last, n);
        assert!(sim.get_state().scram_active);
        last = n;
    }
}

#[test]
fn reset_scram_clears_flag_without_moving_rods() {
    let mut sim = ReactorSimulator::reference_startup();
    sim.scram();
    assert!(sim.get_state().scram_active);
    sim.reset_scram();
    let st = sim.get_state();
    assert!(!st.scram_active);
    assert_eq!(st.scram_time, 0);
    // The rods stay where the shutdown drove them.
    assert!(sim.get_control_rods().iter().all(|r| r.position == 0));
}

#[test]
fn realtime_pacing_accumulates_fractions() {
    // A tiny layout keeps the cost of each step negligible.
    let fuel = vec![(10, 10), (10, 11), (11, 10)];
    let rods: Vec<(i32, i32, RodLabel)> = Vec::new();
    let mut sim = ReactorSimulator::from_layout(&fuel, &rods);
    // 0.35 s of wall time at speed 1 with dt = 0.1 s: three steps, with
    // 0.05 s kept in the accumulator.
    let steps = sim.step_realtime(350_000_000, SCALE);
    assert_eq!(steps, 3);
    // Another 0.05 s: the fraction completes one more step.
    let steps2 = sim.step_realtime(50_000_000, SCALE);
    assert_eq!(steps2, 1);
    // A huge backlog is capped at 1000 steps per call.
    let steps3 = sim.step_realtime(1_000_000_000_000, 1_000_000_000_000);
    assert_eq!(steps3, 1000);
}

#[test]
fn power_distribution_has_requested_shape() {
    let sim = ReactorSimulator::reference_startup();
    let grid = sim.power_distribution(20);
    assert_eq!(grid.len(), 20);
    assert!(grid.iter().all(|row| row.len() == 20));
    assert!(grid.iter().all(|row| row.iter().all(|&v| v >= 0)));
    // At full power the core interior carries signal.
    assert!(grid.iter().any(|row| row.iter().any(|&v| v > 0)));
}

#[test]
fn reference_rods_sit_at_reference_position() {
    let sim = ReactorSimulator::reference_startup();
    assert!(sim.get_control_rods().iter().all(|r| r.position == REFERENCE_ROD_POSITION));
    assert_eq!(sim.get_control_rods().len(), 211);
}

#[test]
fn empty_layout_degrades_gracefully() {
    // No channels and no rods at all: the engine still steps, the scalar
    // state keeps its previous values where there is nothing to average.
    let fuel: Vec<(i32, i32)> = Vec::new();
    let rods: Vec<(i32, i32, RodLabel)> = Vec::new();
    let mut sim = ReactorSimulator::from_layout(&fuel, &rods);
    let n_before = sim.get_state().neutron_population;
    sim.step();
    let st = sim.get_state();
    assert_eq!(st.neutron_population, n_before);
    assert_eq!(st.time, DT_DEFAULT);
}

#[test]
fn off_grid_layout_coordinates_are_dropped() {
    // Malformed external input is substituted, not propagated: cells off
    // the 48-grid simply do not become channels or rods.
    let fuel = vec![(10, 10), (-5, 3), (10, 11), (100, 2), (12, 48)];
    let rods = vec![(9, 9, RodLabel::Ar), (-1, 0, RodLabel::Az), (9, 12, RodLabel::Rr)];
    let sim = ReactorSimulator::from_layout(&fuel, &rods);
    assert_eq!(sim.get_fuel_channels().len(), 2);
    assert_eq!(sim.get_control_rods().len(), 2);
}

#[test]
fn extreme_time_steps_keep_invariants() {
    let fuel = vec![(20, 20), (20, 21)];
    let rods: Vec<(i32, i32, RodLabel)> = Vec::new();
    // Largest accepted step.
    let mut sim = ReactorSimulator::from_layout(&fuel, &rods);
    sim.set_time_step(DT_MAX);
    for _ in 0..20 {
        sim.step();
        let st = sim.get_state();
        assert!(st.neutron_population >= 0);
        assert!(st.reactivity >= rbmk_core::params::RHO_MIN
            && st.reactivity <= rbmk_core::params::RHO_MAX);
    }
    // Smallest accepted step.
    let mut sim2 = ReactorSimulator::from_layout(&fuel, &rods);
    sim2.set_time_step(DT_MIN);
    for _ in 0..20 {
        sim2.step();
        assert!(sim2.get_state().neutron_population >= 0);
    }
}

#[test]
fn realtime_with_no_elapsed_time_runs_nothing() {
    let fuel = vec![(10, 10)];
    let rods: Vec<(i32, i32, RodLabel)> = Vec::new();
    let mut sim = ReactorSimulator::from_layout(&fuel, &rods);
    assert_eq!(sim.step_realtime(0, SCALE), 0);
    assert_eq!(sim.get_state().time, 0);
    // A fraction below one step accumulates without stepping.
    assert_eq!(sim.step_realtime(60_000_000, SCALE), 0);
    assert_eq!(sim.get_state().time, 0);
    // The next fraction completes the step.
    assert_eq!(sim.step_realtime(60_000_000, SCALE), 1);
}
