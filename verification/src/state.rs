//! The scalar reactor state snapshot: global power, neutronics,
//! poisoning, temperatures, control flags, the regulator, the axial flux
//! profile and the per-tick alerts. Every scalar here is derived from the
//! per-channel state by the spatial step.

use vstd::prelude::*;

verus! {

use crate::fx::{SCALE, fdiv};
use crate::params::{DT_MIN, DT_MAX, DT_DEFAULT, NEUTRON_MIN, NEUTRON_MAX, PRECURSOR_MAX,
    RHO_MIN, RHO_MAX, TEMP_MIN, FUEL_TEMP_MAX, COOLANT_TEMP_MAX, GRAPHITE_TEMP_MAX, VOID_MAX,
    CONCENTRATION_MAX, AXIAL_POINTS, PERIOD_INFINITE, KEFF_PINNED_HIGH, BETA_EFF};
use crate::regulator::{AutoRegulatorSettings, wf_regulator, spec_default_regulator};
use crate::safety::Alert;

/// Upper bound kept on the simulation clock; once reached, time stops
/// accumulating rather than wrapping.
pub const TIME_CAP: i64 = 4_000_000_000_000_000_000;

/// Complete scalar reactor state.
#[derive(Clone, Debug)]
pub struct ReactorState {
    /// Simulation time, fixed-point s.
    pub time: i64,
    /// Time step, fixed-point s.
    pub dt: i64,
    /// Thermal power, fixed-point MW.
    pub power_mw: i64,
    /// Power as percent of nominal, fixed-point.
    pub power_percent: i64,
    /// Neutron population, relative units (1.0 = nominal).
    pub neutron_population: i64,
    /// Total delayed-neutron precursors (sum of the six groups).
    pub precursors: i64,
    /// The six delayed-neutron precursor group concentrations.
    pub precursors_6: [i64; 6],
    /// Effective multiplication factor.
    pub k_eff: i64,
    /// Total reactivity, fixed-point dk/k.
    pub reactivity: i64,
    /// Reactivity in dollars.
    pub reactivity_dollars: i64,
    /// Reactor period, fixed-point s ([`PERIOD_INFINITE`] = unbounded).
    pub period: i64,
    /// I-135 concentration, relative units.
    pub iodine_135: i64,
    /// Xe-135 concentration, relative units.
    pub xenon_135: i64,
    /// Reactivity held down by Xe-135, fixed-point dk/k.
    pub xenon_reactivity: i64,
    /// Core-average fuel temperature, fixed-point K.
    pub avg_fuel_temp: i64,
    /// Core-average coolant temperature, fixed-point K.
    pub avg_coolant_temp: i64,
    /// Core-average graphite temperature, fixed-point K.
    pub avg_graphite_temp: i64,
    /// Core-average void fraction, fixed-point percent.
    pub avg_coolant_void: i64,
    /// Whether the emergency shutdown is active.
    pub scram_active: bool,
    /// Time since the emergency shutdown was triggered, fixed-point s.
    pub scram_time: i64,
    /// The automatic power regulator.
    pub auto_regulator: AutoRegulatorSettings,
    /// Axial flux profile, [`AXIAL_POINTS`] ordered samples.
    pub axial_flux: Vec<i64>,
    /// Alerts of the current tick, cleared and rebuilt every step.
    pub alerts: Vec<Alert>,
    /// Whether the terminal accident has occurred; never reverts.
    pub explosion_occurred: bool,
    /// Time at which the accident occurred, fixed-point s.
    pub explosion_time: i64,
    /// Smoothed reactivity carried between steps for the finite response
    /// time of the feedback.
    pub smoothed_reactivity: i64,
}

/// A scalar state within all its physical bounds.
pub open spec fn wf_state(s: ReactorState) -> bool {
    &&& 0 <= s.time <= TIME_CAP + DT_MAX
    &&& DT_MIN <= s.dt <= DT_MAX
    &&& 0 <= s.power_mw <= 1_000_000_000_000_000_000
    &&& 0 <= s.power_percent <= 1_100_000_000_000
    &&& NEUTRON_MIN <= s.neutron_population <= NEUTRON_MAX
    &&& forall|g: int| 0 <= g < 6 ==> 0 <= #[trigger] s.precursors_6[g] <= PRECURSOR_MAX
    &&& 0 <= s.precursors <= 6 * PRECURSOR_MAX
    &&& 0 < s.k_eff <= KEFF_PINNED_HIGH
    &&& RHO_MIN <= s.reactivity <= RHO_MAX
    &&& RHO_MIN <= s.smoothed_reactivity <= RHO_MAX
    &&& -200_000_000_000 <= s.reactivity_dollars <= 200_000_000_000
    &&& 0 <= s.iodine_135 <= CONCENTRATION_MAX
    &&& 0 <= s.xenon_135 <= CONCENTRATION_MAX
    &&& -20_000_000_000 <= s.xenon_reactivity <= 0
    &&& TEMP_MIN <= s.avg_fuel_temp <= FUEL_TEMP_MAX
    &&& TEMP_MIN <= s.avg_coolant_temp <= COOLANT_TEMP_MAX
    &&& TEMP_MIN <= s.avg_graphite_temp <= GRAPHITE_TEMP_MAX
    &&& 0 <= s.avg_coolant_void <= VOID_MAX
    &&& 0 <= s.scram_time <= TIME_CAP + DT_MAX
    &&& wf_regulator(s.auto_regulator)
    &&& s.axial_flux@.len() == AXIAL_POINTS
    &&& 0 <= s.explosion_time <= TIME_CAP + DT_MAX
}

/// Whether `s` is the documented default state: cold shutdown, a tiny
/// subcritical neutron source, fresh fuel with no poison history, all
/// alerts clear and no accident.
pub open spec fn spec_is_default_state(s: ReactorState) -> bool {
    &&& s.time == 0
    &&& s.dt == DT_DEFAULT
    &&& s.power_mw == 0
    &&& s.power_percent == 0
    &&& s.neutron_population == 1_000
    &&& s.precursors == 0
    &&& forall|g: int| 0 <= g < 6 ==> #[trigger] s.precursors_6[g] == 0
    &&& s.k_eff == 950_000_000
    &&& s.reactivity == -50_000_000
    &&& s.reactivity_dollars == fdiv(-50_000_000, BETA_EFF as int)
    &&& s.period == PERIOD_INFINITE
    &&& s.iodine_135 == 0
    &&& s.xenon_135 == 0
    &&& s.xenon_reactivity == 0
    &&& s.avg_fuel_temp == 300_000_000_000
    &&& s.avg_coolant_temp == 300_000_000_000
    &&& s.avg_graphite_temp == 300_000_000_000
    &&& s.avg_coolant_void == 0
    &&& s.scram_active == false
    &&& s.scram_time == 0
    &&& s.auto_regulator == spec_default_regulator()
    &&& s.axial_flux@.len() == AXIAL_POINTS
    &&& forall|k: int| 0 <= k < AXIAL_POINTS ==> #[trigger] s.axial_flux@[k] == 0
    &&& s.alerts@ == Seq::<Alert>::empty()
    &&& s.explosion_occurred == false
    &&& s.explosion_time == 0
    &&& s.smoothed_reactivity == -50_000_000
}

/// Deep equality of two states (sequence fields compared by content).
pub open spec fn spec_state_eq(a: ReactorState, b: ReactorState) -> bool {
    &&& a.time == b.time
    &&& a.dt == b.dt
    &&& a.power_mw == b.power_mw
    &&& a.power_percent == b.power_percent
    &&& a.neutron_population == b.neutron_population
    &&& a.precursors == b.precursors
    &&& a.precursors_6 == b.precursors_6
    &&& a.k_eff == b.k_eff
    &&& a.reactivity == b.reactivity
    &&& a.reactivity_dollars == b.reactivity_dollars
    &&& a.period == b.period
    &&& a.iodine_135 == b.iodine_135
    &&& a.xenon_135 == b.xenon_135
    &&& a.xenon_reactivity == b.xenon_reactivity
    &&& a.avg_fuel_temp == b.avg_fuel_temp
    &&& a.avg_coolant_temp == b.avg_coolant_temp
    &&& a.avg_graphite_temp == b.avg_graphite_temp
    &&& a.avg_coolant_void == b.avg_coolant_void
    &&& a.scram_active == b.scram_active
    &&& a.scram_time == b.scram_time
    &&& a.auto_regulator == b.auto_regulator
    &&& a.axial_flux@ == b.axial_flux@
    &&& a.alerts@ == b.alerts@
    &&& a.explosion_occurred == b.explosion_occurred
    &&& a.explosion_time == b.explosion_time
    &&& a.smoothed_reactivity == b.smoothed_reactivity
}

/// Two states equal in everything but the regulator.
pub open spec fn spec_state_same_except_regulator(a: ReactorState, b: ReactorState) -> bool {
    &&& a.time == b.time
    &&& a.dt == b.dt
    &&& a.power_mw == b.power_mw
    &&& a.power_percent == b.power_percent
    &&& a.neutron_population == b.neutron_population
    &&& a.precursors == b.precursors
    &&& a.precursors_6 == b.precursors_6
    &&& a.k_eff == b.k_eff
    &&& a.reactivity == b.reactivity
    &&& a.reactivity_dollars == b.reactivity_dollars
    &&& a.period == b.period
    &&& a.iodine_135 == b.iodine_135
    &&& a.xenon_135 == b.xenon_135
    &&& a.xenon_reactivity == b.xenon_reactivity
    &&& a.avg_fuel_temp == b.avg_fuel_temp
    &&& a.avg_coolant_temp == b.avg_coolant_temp
    &&& a.avg_graphite_temp == b.avg_graphite_temp
    &&& a.avg_coolant_void == b.avg_coolant_void
    &&& a.scram_active == b.scram_active
    &&& a.scram_time == b.scram_time
    &&& a.axial_flux@ == b.axial_flux@
    &&& a.alerts@ == b.alerts@
    &&& a.explosion_occurred == b.explosion_occurred
    &&& a.explosion_time == b.explosion_time
    &&& a.smoothed_reactivity == b.smoothed_reactivity
}

/// Two states equal in everything but the shutdown flags, the reported
/// reactivity figures and the alert list.
pub open spec fn spec_state_same_except_scram(a: ReactorState, b: ReactorState) -> bool {
    &&& a.time == b.time
    &&& a.dt == b.dt
    &&& a.power_mw == b.power_mw
    &&& a.power_percent == b.power_percent
    &&& a.neutron_population == b.neutron_population
    &&& a.precursors == b.precursors
    &&& a.precursors_6 == b.precursors_6
    &&& a.k_eff == b.k_eff
    &&& a.period == b.period
    &&& a.iodine_135 == b.iodine_135
    &&& a.xenon_135 == b.xenon_135
    &&& a.xenon_reactivity == b.xenon_reactivity
    &&& a.avg_fuel_temp == b.avg_fuel_temp
    &&& a.avg_coolant_temp == b.avg_coolant_temp
    &&& a.avg_graphite_temp == b.avg_graphite_temp
    &&& a.avg_coolant_void == b.avg_coolant_void
    &&& a.auto_regulator == b.auto_regulator
    &&& a.axial_flux@ == b.axial_flux@
    &&& a.explosion_occurred == b.explosion_occurred
    &&& a.explosion_time == b.explosion_time
}

/// Two states equal in everything but the time step.
pub open spec fn spec_state_same_except_dt(a: ReactorState, b: ReactorState) -> bool {
    &&& a.time == b.time
    &&& a.power_mw == b.power_mw
    &&& a.power_percent == b.power_percent
    &&& a.neutron_population == b.neutron_population
    &&& a.precursors == b.precursors
    &&& a.precursors_6 == b.precursors_6
    &&& a.k_eff == b.k_eff
    &&& a.reactivity == b.reactivity
    &&& a.reactivity_dollars == b.reactivity_dollars
    &&& a.period == b.period
    &&& a.iodine_135 == b.iodine_135
    &&& a.xenon_135 == b.xenon_135
    &&& a.xenon_reactivity == b.xenon_reactivity
    &&& a.avg_fuel_temp == b.avg_fuel_temp
    &&& a.avg_coolant_temp == b.avg_coolant_temp
    &&& a.avg_graphite_temp == b.avg_graphite_temp
    &&& a.avg_coolant_void == b.avg_coolant_void
    &&& a.scram_active == b.scram_active
    &&& a.scram_time == b.scram_time
    &&& a.auto_regulator == b.auto_regulator
    &&& a.axial_flux@ == b.axial_flux@
    &&& a.alerts@ == b.alerts@
    &&& a.explosion_occurred == b.explosion_occurred
    &&& a.explosion_time == b.explosion_time
    &&& a.smoothed_reactivity == b.smoothed_reactivity
}

impl Default for ReactorState {
    /// The documented default state (see [`spec_is_default_state`]).
    fn default() -> (r: Self)
        ensures
            spec_is_default_state(r),
            wf_state(r),
    {
        let mut axial_flux: Vec<i64> = Vec::new();
        let mut k: usize = 0;
        while k < AXIAL_POINTS
            invariant
                0 <= k <= AXIAL_POINTS,
                axial_flux@.len() == k,
                forall|t: int| 0 <= t < k ==> #[trigger] axial_flux@[t] == 0,
            decreases AXIAL_POINTS - k,
        {
            axial_flux.push(0);
            k = k + 1;
        }
        proof {
            crate::fx::lemma_muldiv_fits(-50_000_000, SCALE as int, BETA_EFF as int,
                50_000_000, SCALE as int, BETA_EFF as int);
        }
        let dollars: i64 = crate::fx::div_fx(-50_000_000, BETA_EFF);
        let r = ReactorState {
            time: 0,
            dt: DT_DEFAULT,
            power_mw: 0,
            power_percent: 0,
            neutron_population: 1_000,
            precursors: 0,
            precursors_6: [0i64; 6],
            k_eff: 950_000_000,
            reactivity: -50_000_000,
            reactivity_dollars: dollars,
            period: PERIOD_INFINITE,
            iodine_135: 0,
            xenon_135: 0,
            xenon_reactivity: 0,
            avg_fuel_temp: 300_000_000_000,
            avg_coolant_temp: 300_000_000_000,
            avg_graphite_temp: 300_000_000_000,
            avg_coolant_void: 0,
            scram_active: false,
            scram_time: 0,
            auto_regulator: AutoRegulatorSettings::default(),
            axial_flux,
            alerts: Vec::new(),
            explosion_occurred: false,
            explosion_time: 0,
            smoothed_reactivity: -50_000_000,
        };
        proof {
            assert(r.alerts@ =~= Seq::<Alert>::empty());
        }
        r
    }
}

} // verus!
