//! Whole-engine scenarios: invariants along a transient, the regulator
//! closed loop, the safety alerts and the one-way accident flag.

use rbmk_core::fx::SCALE;
use rbmk_core::params::{RHO_MIN, RHO_MAX, VOID_MAX};
use rbmk_core::sim::ReactorSimulator;
use rbmk_core::rods::{RodType, RodLabel};
use rbmk_core::safety::Alert;

fn assert_invariants(sim: &ReactorSimulator) {
    let st = sim.get_state();
    // Non-negativity of every physical inventory.
    assert!(st.neutron_population >= 0);
    assert!(st.precursors >= 0);
    for g in 0..6 {
        assert!(st.precursors_6[g] >= 0);
    }
    assert!(st.iodine_135 >= 0);
    assert!(st.xenon_135 >= 0);
    assert!(st.avg_coolant_void >= 0 && st.avg_coolant_void <= VOID_MAX);
    // Reactivity within the configured clamp band.
    assert!(st.reactivity >= RHO_MIN && st.reactivity <= RHO_MAX);
}

#[test]
fn invariants_hold_along_a_startup_transient() {
    let mut sim = ReactorSimulator::new();
    assert_invariants(&sim);
    // Withdraw the manual bank far enough to go supercritical from the
    // cold shutdown state, and step through the rise.
    sim.move_rod_group(RodType::Manual, SCALE);
    sim.move_rod_group(RodType::Shortened, SCALE);
    for _ in 0..10 {
        sim.step();
        assert_invariants(&sim);
    }
}

#[test]
fn runaway_excursion_latches_the_accident_flag() {
    // Every bank fully withdrawn from cold shutdown: the base excess
    // reactivity drives an uncontrolled excursion from the subcritical
    // source level; the severity score eventually latches the terminal
    // flag, which then never reverts.
    let mut sim = ReactorSimulator::new();
    sim.move_rod_group(RodType::Manual, SCALE);
    sim.move_rod_group(RodType::Shortened, SCALE);
    sim.move_rod_group(RodType::Automatic, SCALE);
    sim.move_rod_group(RodType::Emergency, SCALE);
    let mut exploded_at: Option<usize> = None;
    for k in 0..400 {
        sim.step();
        assert_invariants(&sim);
        if sim.get_state().explosion_occurred {
            exploded_at = Some(k);
            break;
        }
    }
    assert!(exploded_at.is_some(), "the unprotected excursion never latched the flag");
    assert!(sim.get_state().alerts.contains(&Alert::Explosion));
    // Once set, the flag survives further steps and even a shutdown.
    for _ in 0..10 {
        sim.step();
        assert!(sim.get_state().explosion_occurred);
    }
    sim.scram();
    assert!(sim.get_state().explosion_occurred);
    for _ in 0..5 {
        sim.step();
        assert!(sim.get_state().explosion_occurred);
    }
}

#[test]
fn excursion_raises_the_expected_alerts() {
    let mut sim = ReactorSimulator::new();
    sim.move_rod_group(RodType::Manual, SCALE);
    sim.move_rod_group(RodType::Shortened, SCALE);
    sim.move_rod_group(RodType::Automatic, SCALE);
    sim.move_rod_group(RodType::Emergency, SCALE);
    let mut saw_prompt = false;
    let mut saw_power = false;
    let mut saw_void = false;
    for _ in 0..400 {
        sim.step();
        let st = sim.get_state();
        if st.alerts.contains(&Alert::PromptCritical) {
            saw_prompt = true;
        }
        if st.alerts.contains(&Alert::PowerHigh) {
            saw_power = true;
        }
        if st.alerts.contains(&Alert::VoidHigh) {
            saw_void = true;
        }
        if st.explosion_occurred {
            break;
        }
    }
    assert!(saw_prompt, "prompt-critical alert never raised");
    assert!(saw_power, "power alert never raised");
    assert!(saw_void, "void alert never raised");
}

#[test]
fn scram_raises_its_alert() {
    let mut sim = ReactorSimulator::reference_startup();
    sim.scram();
    assert!(sim.get_state().alerts.contains(&Alert::ScramInitiated));
}

#[test]
fn regulator_restores_power_toward_target() {
    // Insert the automatic bank a little: the power drops well below
    // nominal. Then hand control to the regulator with the nominal
    // target. The aggressive default gains give one bounded initial
    // surge (the population clamp bounds it); after it the power settles
    // into a narrow band about the target and approaches it. The rod
    // movement per tick is proved never to exceed the speed limit.
    let mut sim = ReactorSimulator::reference_startup();
    sim.move_rod_group(RodType::Automatic, 772_000_000);
    for _ in 0..30 {
        sim.step();
    }
    let depressed = sim.get_state().power_percent;
    assert!(depressed < 90_000_000_000, "power did not drop: {}", depressed);
    sim.set_auto_regulator_enabled(true);
    sim.set_target_power(100_000_000_000);
    let mut late_max: i64 = 0;
    let mut late_min: i64 = i64::MAX;
    for k in 0..400 {
        sim.step();
        let p = sim.get_state().power_percent;
        if k >= 250 {
            if p > late_max {
                late_max = p;
            }
            if p < late_min {
                late_min = p;
            }
        }
    }
    let recovered = sim.get_state().power_percent;
    assert!(recovered > depressed, "no recovery: {} -> {}", depressed, recovered);
    assert!(recovered > 90_000_000_000, "recovery fell short: {}", recovered);
    // Once the transient has died away the power stays in a band about
    // the target.
    assert!(late_max < 120_000_000_000, "late overshoot: {}", late_max);
    assert!(late_min > 85_000_000_000, "late undershoot: {}", late_min);
    // The regulator acted through the automatic bank alone.
    for rod in sim.get_control_rods() {
        if rod.rod_type != RodType::Automatic {
            assert_eq!(rod.position, 800_000_000);
        }
    }
}

#[test]
fn regulator_holds_still_inside_deadband() {
    // With the target set to the current power, the error sits inside
    // the deadband and the regulator does not move the rods.
    let mut sim = ReactorSimulator::reference_startup();
    let current = sim.get_state().power_percent;
    sim.set_auto_regulator_enabled(true);
    sim.set_target_power(current);
    let before: Vec<i64> = sim.get_control_rods().iter().map(|r| r.position).collect();
    sim.step();
    let after: Vec<i64> = sim.get_control_rods().iter().map(|r| r.position).collect();
    assert_eq!(before, after);
}

#[test]
fn time_advances_by_dt_each_step() {
    let mut sim = ReactorSimulator::new();
    sim.set_time_step(250_000_000);
    for k in 1..=4i64 {
        sim.step();
        assert_eq!(sim.get_state().time, k * 250_000_000);
    }
    sim.step_n(4);
    assert_eq!(sim.get_state().time, 8 * 250_000_000);
}
