//! The simulation orchestrator: owns the scalar state, the rod bank and
//! the channel list, sequences the physics every step, and exposes the
//! whole control surface.

use vstd::prelude::*;

verus! {

use crate::fx::{SCALE, tdiv, fmul, fdiv, clip, abs_i, mul_fx, mul_div, clamp_fx,
    lemma_fmul_fits, lemma_muldiv_fits, lemma_tdiv_abs};
use crate::params::{DT_MIN, DT_MAX, RHO_MIN, RHO_MAX, BETA_EFF, AXIAL_POINTS, GRID_SIZE,
    TARGET_POWER_MIN, TARGET_POWER_MAX, UNITS_MAX};
use crate::state::{ReactorState, wf_state, spec_is_default_state, spec_state_eq,
    spec_state_same_except_regulator, spec_state_same_except_scram, spec_state_same_except_dt,
    TIME_CAP};
use crate::rods::{RodType, RodLabel, ControlRod, wf_rods, rod_with_position,
    spec_total_worth, spec_group_moved, spec_label_moved, spec_all_inserted,
    spec_first_rod_at, calculate_total_rod_worth, move_rod_in_bank, move_rod_group_in_bank,
    move_rod_label_in_bank, move_rod_at_grid, insert_all_rods};
use crate::geometry::{FuelChannel, wf_channels, wf_channel, spec_channel_eq, copy_channel,
    create_fallback_channels, create_fallback_control_rods, channels_from_grid,
    rods_from_grid, build_neighbor_map, spec_valid_coords, spec_rods_from_grid,
    spec_fallback_cells, spec_fallback_rods_upto, spec_is_default_channel,
    spec_channel_identity, spec_cold_channel_fields, spec_channel_neighbors,
    spec_same_but_neighbors, spec_same_coords, lemma_channel_neighbors_coords};
use crate::regulator::{AutoRegulatorSettings, wf_regulator, regulator_set_enabled,
    regulator_retarget, spec_regulator_set_enabled, spec_regulator_retarget};
use crate::feedback::{calc_total_reactivity, spec_total_reactivity, spec_rho_instant,
    k_eff_from_reactivity, spec_k_eff};
use crate::safety::{Alert, check_safety_limits, spec_alerts, detect_explosion,
    spec_explosion_severity};
use crate::kinetics::{reactivity_to_dollars, period_from_rate, spec_period_from_rate,
    init_precursors_6group};
use crate::params::{spec_beta_g, REFERENCE_ROD_POSITION, POWER_PER_CHANNEL_MW_FX,
    PERIOD_INFINITE, DT_DEFAULT};
use crate::spatial::{step_channel, spec_cell_stepped, nb_flux_diff, spec_nb_flux_diff,
    local_rod_deviation, spec_local_rod_deviation, sum_channels, ChannelSums, mean_of_sum,
    spec_sum, spec_mean, lemma_sum_bound, seq_fuel, seq_coolant, seq_graphite, seq_void,
    seq_power, seq_xenon, seq_iodine, seq_flux, seq_rho, seq_group};
use crate::rods::{spec_shift_automatic, shift_automatic_rods};
use crate::regulator::{calculate_ar_adjustment, regulator_after_step, spec_ar_adjustment,
    spec_regulator_after_step};
use crate::flux::{update_axial_flux, spec_axial_shape};
use crate::params::{EXPLOSION_THRESHOLD, XENON_COEF, NEUTRON_MIN, NEUTRON_MAX,
    PRECURSOR_MAX, TEMP_MIN, FUEL_TEMP_MAX, COOLANT_TEMP_MAX, GRAPHITE_TEMP_MAX, VOID_MAX,
    CONCENTRATION_MAX};

/// Upper bound kept on the real-time pacing accumulator (in fixed-point
/// seconds of simulation time still owed).
pub const ACCUMULATOR_CAP: i64 = 2_000_000_000_000;

/// The simulation engine: the scalar state, the rod bank, the channel
/// list, and the fractional-step accumulator of the real-time driver.
pub struct ReactorSimulator {
    /// Global scalar state, derived from the channels every step.
    pub state: ReactorState,
    /// The control-rod bank.
    pub control_rods: Vec<ControlRod>,
    /// The fuel channels with their independent per-cell state.
    pub fuel_channels: Vec<FuelChannel>,
    /// Simulation time owed but not yet stepped by the real-time driver.
    pub time_accumulator: i64,
}

/// The whole simulator in a well-formed state.
pub open spec fn wf_sim(s: ReactorSimulator) -> bool {
    &&& wf_state(s.state)
    &&& wf_rods(s.control_rods@)
    &&& wf_channels(s.fuel_channels@)
    &&& 0 <= s.time_accumulator <= ACCUMULATOR_CAP + ACCUMULATOR_CAP
}


/// What one spatial step leaves in the scalar state, given the stepped
/// channel list `ch`, the previous state `ost` and the rod bank after
/// the regulator acted.
pub open spec fn spec_scalars_after_step(st: ReactorState, ost: ReactorState,
    ch: Seq<FuelChannel>) -> bool {
    let dt: int = ost.dt as int;
    let n_pop: int = spec_mean(seq_flux(ch), ost.neutron_population as int);
    let rho: int = spec_mean(seq_rho(ch), ost.smoothed_reactivity as int);
    let dollars: int = fdiv(rho, BETA_EFF as int);
    let power_mw: int = spec_sum(seq_power(ch));
    let ppct: int = clip(tdiv(power_mw, 32), 0, 1_100_000_000_000);
    let xe: int = spec_mean(seq_xenon(ch), 0);
    let period: int = spec_period_from_rate(ost.neutron_population as int, n_pop, dt);
    let fuel: int = spec_mean(seq_fuel(ch), 300_000_000_000);
    let coolant: int = spec_mean(seq_coolant(ch), 300_000_000_000);
    let void: int = spec_mean(seq_void(ch), 0);
    let sev: int = spec_explosion_severity(fuel, coolant, void, dollars, ppct);
    let newly: bool = !ost.explosion_occurred && sev >= EXPLOSION_THRESHOLD;
    &&& st.dt == dt
    &&& st.neutron_population == n_pop
    &&& st.reactivity == rho
    &&& st.smoothed_reactivity == rho
    &&& st.reactivity_dollars == dollars
    &&& st.k_eff == spec_k_eff(rho)
    &&& st.power_mw == power_mw
    &&& st.power_percent == ppct
    &&& st.period == period
    &&& st.avg_fuel_temp == fuel
    &&& st.avg_coolant_temp == coolant
    &&& st.avg_graphite_temp == spec_mean(seq_graphite(ch), 300_000_000_000)
    &&& st.avg_coolant_void == void
    &&& st.iodine_135 == spec_mean(seq_iodine(ch), 0)
    &&& st.xenon_135 == xe
    &&& st.xenon_reactivity == -fmul(XENON_COEF as int, xe)
    &&& forall|g: int| 0 <= g < 6 ==> #[trigger] st.precursors_6[g] == spec_mean(seq_group(ch,
        g), 0)
    &&& st.precursors == st.precursors_6[0] + st.precursors_6[1] + st.precursors_6[2]
        + st.precursors_6[3] + st.precursors_6[4] + st.precursors_6[5]
    &&& st.scram_active == ost.scram_active
    &&& st.scram_time == (if ost.scram_active {
        if ost.scram_time <= TIME_CAP {
            ost.scram_time + dt
        } else {
            ost.scram_time as int
        }
    } else {
        ost.scram_time as int
    })
    &&& st.auto_regulator == spec_regulator_after_step(ost.auto_regulator, ppct, dt,
        ost.scram_active)
    &&& st.axial_flux@.len() == AXIAL_POINTS
    &&& forall|k: int| 0 <= k < AXIAL_POINTS ==> #[trigger] st.axial_flux@[k] == fmul(n_pop,
        spec_axial_shape(k, AXIAL_POINTS as int))
    &&& st.explosion_occurred == (ost.explosion_occurred || newly)
    &&& st.explosion_time == (if newly {
        ost.time as int
    } else {
        ost.explosion_time as int
    })
    &&& st.alerts@ == (if newly {
        spec_alerts(ppct, dollars, fuel, void, period).push(Alert::Explosion)
    } else {
        spec_alerts(ppct, dollars, fuel, void, period)
    })
    &&& st.time == (if ost.time <= TIME_CAP {
        ost.time + dt
    } else {
        ost.time as int
    })
}

/// The complete one-step relation of the engine: how one call of
/// `step` (equivalently `step_spatial`) takes the simulator from `pre`
/// to `post`. The regulator shifts the automatic bank first; every cell
/// advances by [`spec_cell_stepped`] against the shifted bank; the
/// scalar state is re-derived by [`spec_scalars_after_step`]. Together
/// these determine every field of `post` from `pre`.
pub open spec fn spec_sim_step_rel(pre: ReactorSimulator, post: ReactorSimulator) -> bool {
    let ost = pre.state;
    let reg_on = ost.auto_regulator.enabled && !ost.scram_active;
    let adj = spec_ar_adjustment(ost.auto_regulator, ost.power_percent as int, ost.dt as int);
    let rods1 = if reg_on {
        spec_shift_automatic(pre.control_rods@, adj)
    } else {
        pre.control_rods@
    };
    let worth = spec_total_worth(rods1);
    &&& wf_sim(post)
    &&& post.fuel_channels@.len() == pre.fuel_channels@.len()
    &&& post.time_accumulator == pre.time_accumulator
    &&& post.control_rods@ == rods1
    &&& forall|j: int| 0 <= j < pre.fuel_channels@.len() ==> spec_cell_stepped(
        #[trigger] post.fuel_channels@[j], pre.fuel_channels@[j], spec_nb_flux_diff(
        pre.fuel_channels@, j, 0), clip(worth + spec_local_rod_deviation(rods1,
        pre.fuel_channels@[j].grid_x as int, pre.fuel_channels@[j].grid_y as int), 0,
        20_000_000_000), ost.dt as int, ost.scram_active)
    &&& spec_scalars_after_step(post.state, ost, post.fuel_channels@)
}

/// `post` is reachable from `pre` by exactly `k` applications of the
/// one-step relation.
pub open spec fn spec_stepped_n(pre: ReactorSimulator, post: ReactorSimulator, k: nat) -> bool
    decreases k,
{
    if k == 0 {
        post == pre
    } else {
        exists|mid: ReactorSimulator| spec_stepped_n(pre, mid, (k - 1) as nat)
            && #[trigger] spec_sim_step_rel(mid, post)
    }
}

/// A channel returned to the cold-shutdown state: thermal state,
/// neutronics, poisoning and burnup reset; identity, position,
/// enrichment, rod linkage and the neighbor graph kept. A linked rod is
/// left fully inserted.
pub open spec fn spec_channel_reset(c2: FuelChannel, c1: FuelChannel) -> bool {
    &&& c2.id == c1.id
    &&& c2.grid_x == c1.grid_x
    &&& c2.grid_y == c1.grid_y
    &&& c2.x == c1.x
    &&& c2.y == c1.y
    &&& c2.fuel_temp == 300_000_000_000
    &&& c2.coolant_temp == 300_000_000_000
    &&& c2.graphite_temp == 300_000_000_000
    &&& c2.coolant_void == 0
    &&& c2.pressure == 7_000_000_000
    &&& c2.flow_rate == 5_500_000_000
    &&& c2.inlet_temp == 543_000_000_000
    &&& c2.outlet_temp == 557_000_000_000
    &&& c2.neutron_flux == 1_000
    &&& c2.precursors == 0
    &&& forall|g: int| 0 <= g < 6 ==> #[trigger] c2.precursor_groups[g] == 0
    &&& c2.power_density == 0
    &&& c2.local_power == 0
    &&& c2.iodine_135 == 0
    &&& c2.xenon_135 == 0
    &&& c2.burnup == 0
    &&& c2.enrichment == c1.enrichment
    &&& c2.has_control_rod == c1.has_control_rod
    &&& c2.control_rod_id == c1.control_rod_id
    &&& c2.local_rod_position == (if c1.has_control_rod {
        0
    } else {
        c1.local_rod_position as int
    })
    &&& c2.neighbors@ == c1.neighbors@
    &&& c2.local_reactivity == 0
}

/// The simulation clock advanced by `dt`, stopping at the cap instead of
/// wrapping.
fn advance_clock(t: i64, dt: i64) -> (r: i64)
    requires
        0 <= t <= TIME_CAP + DT_MAX,
        0 <= dt <= DT_MAX,
    ensures
        r as int == (if t <= TIME_CAP {
            t + dt
        } else {
            t as int
        }),
        t <= r <= TIME_CAP + DT_MAX,
{
    if t <= TIME_CAP {
        t + dt
    } else {
        t
    }
}


/// A channel in the reference startup configuration: nominal flux,
/// equilibrium precursors, reference temperatures, no void and no
/// poison; identity, geometry and the neighbor graph kept from `c1`.
pub open spec fn spec_is_reference_channel(c2: FuelChannel, c1: FuelChannel) -> bool {
    &&& c2.id == c1.id
    &&& c2.grid_x == c1.grid_x
    &&& c2.grid_y == c1.grid_y
    &&& c2.x == c1.x
    &&& c2.y == c1.y
    &&& c2.fuel_temp == 800_000_000_000
    &&& c2.coolant_temp == 550_000_000_000
    &&& c2.graphite_temp == 600_000_000_000
    &&& c2.coolant_void == 0
    &&& c2.pressure == 7_000_000_000
    &&& c2.flow_rate == 5_500_000_000
    &&& c2.inlet_temp == 543_000_000_000
    &&& c2.outlet_temp == 557_000_000_000
    &&& c2.neutron_flux == SCALE
    &&& forall|g: int| 0 <= g < 6 ==> #[trigger] c2.precursor_groups[g] == spec_beta_g(g)
    &&& c2.precursors == 6_502_000
    &&& c2.power_density == 0
    &&& c2.local_power == POWER_PER_CHANNEL_MW_FX
    &&& c2.iodine_135 == 0
    &&& c2.xenon_135 == 0
    &&& c2.burnup == 0
    &&& c2.enrichment == c1.enrichment
    &&& c2.has_control_rod == c1.has_control_rod
    &&& c2.control_rod_id == c1.control_rod_id
    &&& c2.local_rod_position == c1.local_rod_position
    &&& c2.neighbors@ == c1.neighbors@
    &&& c2.local_reactivity == 0
}

/// The physical fields of a channel in the reference startup
/// configuration: nominal flux with the exact equilibrium precursors,
/// reference temperatures, no void, no poison, fresh fuel and no linked
/// rod.
pub open spec fn spec_reference_channel_fields(c: FuelChannel) -> bool {
    &&& c.fuel_temp == 800_000_000_000
    &&& c.coolant_temp == 550_000_000_000
    &&& c.graphite_temp == 600_000_000_000
    &&& c.coolant_void == 0
    &&& c.pressure == 7_000_000_000
    &&& c.flow_rate == 5_500_000_000
    &&& c.inlet_temp == 543_000_000_000
    &&& c.outlet_temp == 557_000_000_000
    &&& c.neutron_flux == SCALE
    &&& forall|g: int| 0 <= g < 6 ==> #[trigger] c.precursor_groups[g] == spec_beta_g(g)
    &&& c.precursors == 6_502_000
    &&& c.power_density == 0
    &&& c.local_power == POWER_PER_CHANNEL_MW_FX
    &&& c.iodine_135 == 0
    &&& c.xenon_135 == 0
    &&& c.burnup == 0
    &&& c.enrichment == 2_000_000_000
    &&& c.has_control_rod == false
    &&& c.control_rod_id is None
    &&& c.local_rod_position == SCALE
    &&& c.local_reactivity == 0
}

/// The scalar state of the reference startup configuration over
/// `n_channels` cells: exactly critical at nominal flux with reference
/// temperatures, no void, no poison, the shutdown inactive and the
/// regulator at its defaults. The power figures equal what the
/// aggregation recomputes, so the whole display is stationary.
pub open spec fn spec_is_reference_state(st: ReactorState, n_channels: int) -> bool {
    &&& st.time == 0
    &&& st.dt == DT_DEFAULT
    &&& st.power_mw == n_channels * POWER_PER_CHANNEL_MW_FX
    &&& st.power_percent == clip(tdiv(n_channels * POWER_PER_CHANNEL_MW_FX, 32), 0,
        1_100_000_000_000)
    &&& st.neutron_population == SCALE
    &&& forall|g: int| 0 <= g < 6 ==> #[trigger] st.precursors_6[g] == spec_beta_g(g)
    &&& st.precursors == 6_502_000
    &&& st.k_eff == SCALE
    &&& st.reactivity == 0
    &&& st.reactivity_dollars == 0
    &&& st.smoothed_reactivity == 0
    &&& st.period == PERIOD_INFINITE
    &&& st.iodine_135 == 0
    &&& st.xenon_135 == 0
    &&& st.xenon_reactivity == 0
    &&& st.avg_fuel_temp == 800_000_000_000
    &&& st.avg_coolant_temp == 550_000_000_000
    &&& st.avg_graphite_temp == 600_000_000_000
    &&& st.avg_coolant_void == 0
    &&& st.scram_active == false
    &&& st.scram_time == 0
    &&& st.auto_regulator == crate::regulator::spec_default_regulator()
    &&& st.axial_flux@.len() == AXIAL_POINTS
    &&& st.alerts@ == Seq::<Alert>::empty()
    &&& st.explosion_occurred == false
    &&& st.explosion_time == 0
}


/// Raster bin of a grid coordinate on a `gs` by `gs` display grid.
pub open spec fn spec_bin_of(g: int, gs: int) -> int {
    g * gs / 48
}

/// Display value of one channel: its local flux scaled by the global
/// power percentage.
pub open spec fn spec_cell_display(c: FuelChannel, percent: int) -> int {
    tdiv(fmul(c.neutron_flux as int, percent), 100)
}

/// Value of display bin `(x, y)`: the display value of the last channel
/// whose grid position maps to the bin, or zero when none does.
pub open spec fn spec_bin_value(s: Seq<FuelChannel>, percent: int, gs: int, x: int, y: int) ->
    int
    decreases s.len(),
{
    if s.len() == 0 {
        0
    } else if spec_bin_of(s.last().grid_x as int, gs) == x && spec_bin_of(
        s.last().grid_y as int, gs) == y {
        spec_cell_display(s.last(), percent)
    } else {
        spec_bin_value(s.drop_last(), percent, gs, x, y)
    }
}

impl Default for ReactorSimulator {
    /// The engine on the synthetic fallback layout (see
    /// [`ReactorSimulator::new`]).
    fn default() -> (r: Self)
        ensures
            wf_sim(r),
            spec_is_default_state(r.state),
    {
        ReactorSimulator::new()
    }
}

impl ReactorSimulator {
    /// Build the engine on the synthetic fallback layout: the circular
    /// channel arrangement with its neighbor graph, the fallback rod
    /// bank, and the default cold-shutdown state.
    pub fn new() -> (r: ReactorSimulator)
        ensures
            wf_sim(r),
            spec_is_default_state(r.state),
            r.control_rods@ == spec_fallback_rods_upto((41 * 41) as nat),
            r.fuel_channels@.len() == spec_fallback_cells((41 * 41) as nat).len(),
            forall|j: int| 0 <= j < r.fuel_channels@.len() ==> spec_channel_identity(
                #[trigger] r.fuel_channels@[j], j, spec_fallback_cells((41 * 41) as nat)[j].0,
                spec_fallback_cells((41 * 41) as nat)[j].1, 41),
            forall|j: int| 0 <= j < r.fuel_channels@.len() ==> spec_cold_channel_fields(
                #[trigger] r.fuel_channels@[j]),
            forall|j: int| 0 <= j < r.fuel_channels@.len() ==> #[trigger] r.fuel_channels@[
                j].neighbors@ == spec_channel_neighbors(r.fuel_channels@, j),
            r.time_accumulator == 0,
    {
        let mut channels: Vec<FuelChannel> = create_fallback_channels();
        let ghost ch0 = channels@;
        build_neighbor_map(&mut channels);
        proof {
            assert(spec_same_coords(ch0, channels@)) by {
                assert forall|j: int| 0 <= j < ch0.len() implies #[trigger] ch0[j].grid_x
                    == channels@[j].grid_x && ch0[j].grid_y == channels@[j].grid_y by {
                    assert(spec_same_but_neighbors(channels@[j], ch0[j]));
                };
            };
            assert forall|j: int| 0 <= j < channels@.len() implies spec_channel_identity(
                #[trigger] channels@[j], j, spec_fallback_cells((41 * 41) as nat)[j].0,
                spec_fallback_cells((41 * 41) as nat)[j].1, 41) && spec_cold_channel_fields(
                channels@[j]) && channels@[j].neighbors@ == spec_channel_neighbors(channels@,
                j) by {
                assert(spec_is_default_channel(ch0[j], j, spec_fallback_cells((41 * 41)
                    as nat)[j].0, spec_fallback_cells((41 * 41) as nat)[j].1, 41));
                assert(spec_same_but_neighbors(channels@[j], ch0[j]));
                lemma_channel_neighbors_coords(ch0, channels@, j);
            };
        }
        let rods: Vec<ControlRod> = create_fallback_control_rods();
        ReactorSimulator {
            state: ReactorState::default(),
            control_rods: rods,
            fuel_channels: channels,
            time_accumulator: 0,
        }
    }

    /// Build the engine from external layout data: fuel-cell grid
    /// coordinates and labeled rod coordinates. Coordinates off the grid
    /// are dropped.
    pub fn from_layout(fuel_cells: &Vec<(i32, i32)>, rod_cells: &Vec<(i32, i32, RodLabel)>) ->
        (r: ReactorSimulator)
        requires
            fuel_cells@.len() <= UNITS_MAX,
            rod_cells@.len() <= UNITS_MAX,
        ensures
            wf_sim(r),
            spec_is_default_state(r.state),
            r.control_rods@ == spec_rods_from_grid(rod_cells@),
            r.fuel_channels@.len() == spec_valid_coords(fuel_cells@).len(),
            forall|j: int| 0 <= j < r.fuel_channels@.len() ==> spec_channel_identity(
                #[trigger] r.fuel_channels@[j], j, spec_valid_coords(fuel_cells@)[j].0 as int,
                spec_valid_coords(fuel_cells@)[j].1 as int, GRID_SIZE as int),
            forall|j: int| 0 <= j < r.fuel_channels@.len() ==> spec_cold_channel_fields(
                #[trigger] r.fuel_channels@[j]),
            forall|j: int| 0 <= j < r.fuel_channels@.len() ==> #[trigger] r.fuel_channels@[
                j].neighbors@ == spec_channel_neighbors(r.fuel_channels@, j),
            r.time_accumulator == 0,
    {
        let mut channels: Vec<FuelChannel> = channels_from_grid(fuel_cells);
        let ghost ch0 = channels@;
        build_neighbor_map(&mut channels);
        proof {
            assert(spec_same_coords(ch0, channels@)) by {
                assert forall|j: int| 0 <= j < ch0.len() implies #[trigger] ch0[j].grid_x
                    == channels@[j].grid_x && ch0[j].grid_y == channels@[j].grid_y by {
                    assert(spec_same_but_neighbors(channels@[j], ch0[j]));
                };
            };
            assert forall|j: int| 0 <= j < channels@.len() implies spec_channel_identity(
                #[trigger] channels@[j], j, spec_valid_coords(fuel_cells@)[j].0 as int,
                spec_valid_coords(fuel_cells@)[j].1 as int, GRID_SIZE as int)
                && spec_cold_channel_fields(channels@[j]) && channels@[j].neighbors@
                == spec_channel_neighbors(channels@, j) by {
                assert(spec_is_default_channel(ch0[j], j, spec_valid_coords(fuel_cells@)[
                    j].0 as int, spec_valid_coords(fuel_cells@)[j].1 as int,
                    GRID_SIZE as int));
                assert(spec_same_but_neighbors(channels@[j], ch0[j]));
                lemma_channel_neighbors_coords(ch0, channels@, j);
            };
        }
        let rods: Vec<ControlRod> = rods_from_grid(rod_cells);
        ReactorSimulator {
            state: ReactorState::default(),
            control_rods: rods,
            fuel_channels: channels,
            time_accumulator: 0,
        }
    }

    /// A consistent snapshot of the scalar state.
    pub fn get_state(&self) -> (r: ReactorState)
        ensures
            spec_state_eq(r, self.state),
    {
        let mut axial: Vec<i64> = Vec::new();
        let mut k: usize = 0;
        let n_ax: usize = self.state.axial_flux.len();
        while k < n_ax
            invariant
                0 <= k <= n_ax,
                n_ax == self.state.axial_flux@.len(),
                axial@ == self.state.axial_flux@.take(k as int),
            decreases n_ax - k,
        {
            axial.push(self.state.axial_flux[k]);
            proof {
                assert(axial@ =~= self.state.axial_flux@.take(k + 1));
            }
            k = k + 1;
        }
        let mut alerts: Vec<Alert> = Vec::new();
        let mut t: usize = 0;
        let n_al: usize = self.state.alerts.len();
        while t < n_al
            invariant
                0 <= t <= n_al,
                n_al == self.state.alerts@.len(),
                alerts@ == self.state.alerts@.take(t as int),
            decreases n_al - t,
        {
            alerts.push(self.state.alerts[t]);
            proof {
                assert(alerts@ =~= self.state.alerts@.take(t + 1));
            }
            t = t + 1;
        }
        proof {
            assert(axial@ =~= self.state.axial_flux@);
            assert(alerts@ =~= self.state.alerts@);
        }
        ReactorState {
            time: self.state.time,
            dt: self.state.dt,
            power_mw: self.state.power_mw,
            power_percent: self.state.power_percent,
            neutron_population: self.state.neutron_population,
            precursors: self.state.precursors,
            precursors_6: self.state.precursors_6,
            k_eff: self.state.k_eff,
            reactivity: self.state.reactivity,
            reactivity_dollars: self.state.reactivity_dollars,
            period: self.state.period,
            iodine_135: self.state.iodine_135,
            xenon_135: self.state.xenon_135,
            xenon_reactivity: self.state.xenon_reactivity,
            avg_fuel_temp: self.state.avg_fuel_temp,
            avg_coolant_temp: self.state.avg_coolant_temp,
            avg_graphite_temp: self.state.avg_graphite_temp,
            avg_coolant_void: self.state.avg_coolant_void,
            scram_active: self.state.scram_active,
            scram_time: self.state.scram_time,
            auto_regulator: self.state.auto_regulator,
            axial_flux: axial,
            alerts,
            explosion_occurred: self.state.explosion_occurred,
            explosion_time: self.state.explosion_time,
            smoothed_reactivity: self.state.smoothed_reactivity,
        }
    }

    /// A snapshot of the rod bank.
    pub fn get_control_rods(&self) -> (r: Vec<ControlRod>)
        ensures
            r@ == self.control_rods@,
    {
        let mut out: Vec<ControlRod> = Vec::new();
        let mut i: usize = 0;
        let n: usize = self.control_rods.len();
        while i < n
            invariant
                0 <= i <= n,
                n == self.control_rods@.len(),
                out@ == self.control_rods@.take(i as int),
            decreases n - i,
        {
            out.push(self.control_rods[i]);
            proof {
                assert(out@ =~= self.control_rods@.take(i + 1));
            }
            i = i + 1;
        }
        proof {
            assert(out@ =~= self.control_rods@);
        }
        out
    }

    /// A snapshot of the fuel channels with their independent per-cell
    /// state.
    pub fn get_fuel_channels(&self) -> (r: Vec<FuelChannel>)
        ensures
            r@.len() == self.fuel_channels@.len(),
            forall|i: int| 0 <= i < r@.len() ==> spec_channel_eq(#[trigger] r@[i],
                self.fuel_channels@[i]),
    {
        let mut out: Vec<FuelChannel> = Vec::new();
        let mut i: usize = 0;
        let n: usize = self.fuel_channels.len();
        while i < n
            invariant
                0 <= i <= n,
                n == self.fuel_channels@.len(),
                out@.len() == i,
                forall|j: int| 0 <= j < i ==> spec_channel_eq(#[trigger] out@[j],
                    self.fuel_channels@[j]),
            decreases n - i,
        {
            let c = copy_channel(&self.fuel_channels[i]);
            out.push(c);
            i = i + 1;
        }
        out
    }

    /// A snapshot of the fuel channels (the per-cell state is the
    /// authoritative one; there is no separate synchronized view).
    pub fn get_fuel_channels_synchronized(&self) -> (r: Vec<FuelChannel>)
        ensures
            r@.len() == self.fuel_channels@.len(),
            forall|i: int| 0 <= i < r@.len() ==> spec_channel_eq(#[trigger] r@[i],
                self.fuel_channels@[i]),
    {
        self.get_fuel_channels()
    }

    /// The current regulator settings.
    pub fn get_auto_regulator(&self) -> (r: AutoRegulatorSettings)
        ensures
            r == self.state.auto_regulator,
    {
        self.state.auto_regulator
    }

    /// Move a single rod to a clamped position; an unknown index is a
    /// no-op.
    pub fn move_rod(&mut self, rod_id: usize, new_position: i64)
        requires
            wf_sim(*old(self)),
        ensures
            wf_sim(*final(self)),
            final(self).state == old(self).state,
            final(self).fuel_channels@ == old(self).fuel_channels@,
            final(self).time_accumulator == old(self).time_accumulator,
            rod_id < old(self).control_rods@.len() ==> final(self).control_rods@
                == old(self).control_rods@.update(rod_id as int, rod_with_position(
                old(self).control_rods@[rod_id as int], clip(new_position as int, 0,
                SCALE as int))),
            rod_id >= old(self).control_rods@.len() ==> final(self).control_rods@
                == old(self).control_rods@,
    {
        move_rod_in_bank(&mut self.control_rods, rod_id, new_position);
    }

    /// Move all rods of a category to a clamped position.
    pub fn move_rod_group(&mut self, rod_type: RodType, new_position: i64)
        requires
            wf_sim(*old(self)),
        ensures
            wf_sim(*final(self)),
            final(self).state == old(self).state,
            final(self).fuel_channels@ == old(self).fuel_channels@,
            final(self).time_accumulator == old(self).time_accumulator,
            final(self).control_rods@ == spec_group_moved(old(self).control_rods@, rod_type,
                clip(new_position as int, 0, SCALE as int)),
    {
        move_rod_group_in_bank(&mut self.control_rods, rod_type, new_position);
    }

    /// Move all rods of an original layout channel-type label to a
    /// clamped position; finer-grained than category movement.
    pub fn move_rod_group_by_channel_type(&mut self, channel_type: RodLabel,
        new_position: i64)
        requires
            wf_sim(*old(self)),
        ensures
            wf_sim(*final(self)),
            final(self).state == old(self).state,
            final(self).fuel_channels@ == old(self).fuel_channels@,
            final(self).time_accumulator == old(self).time_accumulator,
            final(self).control_rods@ == spec_label_moved(old(self).control_rods@,
                channel_type, clip(new_position as int, 0, SCALE as int)),
    {
        move_rod_label_in_bank(&mut self.control_rods, channel_type, new_position);
    }

    /// Move the rod at a grid position to a clamped position; reports
    /// whether one was found there.
    pub fn move_rod_by_grid_position(&mut self, grid_x: i32, grid_y: i32, new_position: i64)
        -> (found: bool)
        requires
            wf_sim(*old(self)),
        ensures
            wf_sim(*final(self)),
            final(self).state == old(self).state,
            final(self).fuel_channels@ == old(self).fuel_channels@,
            final(self).time_accumulator == old(self).time_accumulator,
            ({ let idx = spec_first_rod_at(old(self).control_rods@, grid_x as int,
                grid_y as int, 0);
               &&& found <==> idx < old(self).control_rods@.len()
               &&& found ==> final(self).control_rods@ == old(self).control_rods@.update(idx,
                   rod_with_position(old(self).control_rods@[idx], clip(new_position as int,
                   0, SCALE as int)))
               &&& !found ==> final(self).control_rods@ == old(self).control_rods@
            }),
    {
        move_rod_at_grid(&mut self.control_rods, grid_x, grid_y, new_position)
    }

    /// Trigger the emergency shutdown: all rods are forced fully in at
    /// once, and (unless the shutdown is already active) the resulting
    /// rod worth immediately recomputes the reported reactivity with the
    /// fast shutdown smoothing, the shutdown flag is set, the elapsed
    /// counter restarts and the alert is raised. Re-triggering while
    /// active only re-inserts the rods.
    pub fn scram(&mut self)
        requires
            wf_sim(*old(self)),
        ensures
            wf_sim(*final(self)),
            final(self).control_rods@ == spec_all_inserted(old(self).control_rods@),
            forall|i: int| 0 <= i < final(self).control_rods@.len()
                ==> #[trigger] final(self).control_rods@[i].position == 0,
            final(self).fuel_channels@ == old(self).fuel_channels@,
            final(self).time_accumulator == old(self).time_accumulator,
            final(self).state.scram_active,
            old(self).state.scram_active ==> final(self).state == old(self).state,
            !old(self).state.scram_active ==> ({
                let worth = spec_total_worth(spec_all_inserted(old(self).control_rods@));
                let rho = spec_total_reactivity(old(self).state.avg_fuel_temp as int,
                    old(self).state.avg_graphite_temp as int,
                    old(self).state.avg_coolant_void as int, old(self).state.xenon_135 as int,
                    worth, old(self).state.smoothed_reactivity as int,
                    old(self).state.dt as int, true);
                &&& spec_state_same_except_scram(final(self).state, old(self).state)
                &&& final(self).state.scram_time == 0
                &&& final(self).state.reactivity == rho
                &&& final(self).state.smoothed_reactivity == rho
                &&& final(self).state.reactivity_dollars == fdiv(rho, BETA_EFF as int)
                &&& final(self).state.reactivity <= old(self).state.smoothed_reactivity
                    || spec_rho_instant(old(self).state.avg_fuel_temp as int,
                        old(self).state.avg_graphite_temp as int,
                        old(self).state.avg_coolant_void as int,
                        old(self).state.xenon_135 as int, worth)
                        > old(self).state.smoothed_reactivity
                &&& final(self).state.alerts@ == old(self).state.alerts@.push(
                    Alert::ScramInitiated)
            }),
    {
        insert_all_rods(&mut self.control_rods);
        if !self.state.scram_active {
            self.state.scram_active = true;
            self.state.scram_time = 0;
            let worth: i64 = calculate_total_rod_worth(&self.control_rods);
            let rho: i64 = calc_total_reactivity(self.state.avg_fuel_temp,
                self.state.avg_graphite_temp, self.state.avg_coolant_void,
                self.state.xenon_135, worth, self.state.smoothed_reactivity, self.state.dt,
                true);
            self.state.smoothed_reactivity = rho;
            self.state.reactivity = rho;
            proof {
                lemma_muldiv_fits(rho as int, SCALE as int, BETA_EFF as int, 100_000_000,
                    SCALE as int, BETA_EFF as int);
            }
            self.state.reactivity_dollars = reactivity_to_dollars(rho);
            self.state.alerts.push(Alert::ScramInitiated);
        }
    }

    /// Clear the shutdown flag and its elapsed counter without moving
    /// any rod.
    pub fn reset_scram(&mut self)
        requires
            wf_sim(*old(self)),
        ensures
            wf_sim(*final(self)),
            final(self).control_rods@ == old(self).control_rods@,
            final(self).fuel_channels@ == old(self).fuel_channels@,
            final(self).time_accumulator == old(self).time_accumulator,
            spec_state_same_except_scram(final(self).state, old(self).state),
            !final(self).state.scram_active,
            final(self).state.scram_time == 0,
            final(self).state.reactivity == old(self).state.reactivity,
            final(self).state.reactivity_dollars == old(self).state.reactivity_dollars,
            final(self).state.smoothed_reactivity == old(self).state.smoothed_reactivity,
            final(self).state.alerts@ == old(self).state.alerts@,
    {
        self.state.scram_active = false;
        self.state.scram_time = 0;
    }

    /// Switch the automatic regulator on or off; enabling it resets the
    /// accumulated PID terms.
    pub fn set_auto_regulator_enabled(&mut self, enabled: bool)
        requires
            wf_sim(*old(self)),
        ensures
            wf_sim(*final(self)),
            final(self).control_rods@ == old(self).control_rods@,
            final(self).fuel_channels@ == old(self).fuel_channels@,
            final(self).time_accumulator == old(self).time_accumulator,
            spec_state_same_except_regulator(final(self).state, old(self).state),
            final(self).state.auto_regulator == spec_regulator_set_enabled(
                old(self).state.auto_regulator, enabled),
    {
        self.state.auto_regulator = regulator_set_enabled(&self.state.auto_regulator, enabled);
    }

    /// Set the regulator's target power; the stored target is the
    /// request clamped to its range, and a large change pre-seeds the
    /// integral term.
    pub fn set_target_power(&mut self, target_percent: i64)
        requires
            wf_sim(*old(self)),
        ensures
            wf_sim(*final(self)),
            final(self).control_rods@ == old(self).control_rods@,
            final(self).fuel_channels@ == old(self).fuel_channels@,
            final(self).time_accumulator == old(self).time_accumulator,
            spec_state_same_except_regulator(final(self).state, old(self).state),
            final(self).state.auto_regulator == spec_regulator_retarget(
                old(self).state.auto_regulator, target_percent as int),
            final(self).state.auto_regulator.target_power as int == clip(target_percent as int,
                TARGET_POWER_MIN as int, TARGET_POWER_MAX as int),
    {
        self.state.auto_regulator = regulator_retarget(&self.state.auto_regulator,
            target_percent);
    }

    /// Set the simulation time step, clamped to its accepted range.
    pub fn set_time_step(&mut self, dt: i64)
        requires
            wf_sim(*old(self)),
        ensures
            wf_sim(*final(self)),
            final(self).control_rods@ == old(self).control_rods@,
            final(self).fuel_channels@ == old(self).fuel_channels@,
            final(self).time_accumulator == old(self).time_accumulator,
            spec_state_same_except_dt(final(self).state, old(self).state),
            final(self).state.dt as int == clip(dt as int, DT_MIN as int, DT_MAX as int),
    {
        self.state.dt = clamp_fx(dt, DT_MIN, DT_MAX);
    }

    /// One full spatial simulation step: the regulator adjusts the
    /// automatic rods; every fuel cell independently runs its kinetics,
    /// feedback, thermal and xenon update with diffusion coupling to its
    /// neighbors and the distance-weighted local rod influence; the
    /// global scalars are re-derived from the cells; the safety monitor
    /// rebuilds the alerts and the accident detector may latch its
    /// one-way flag; the clock advances.
    #[verifier::rlimit(80)]
    pub fn step_spatial(&mut self)
        requires
            wf_sim(*old(self)),
        ensures
            wf_sim(*final(self)),
            spec_sim_step_rel(*old(self), *final(self)),
            RHO_MIN <= final(self).state.reactivity <= RHO_MAX,
            old(self).state.explosion_occurred ==> final(self).state.explosion_occurred,
            final(self).state.time >= old(self).state.time,
    {
        let dt: i64 = self.state.dt;
        let scram: bool = self.state.scram_active;
        let reg_on: bool = self.state.auto_regulator.enabled && !scram;
        if reg_on {
            let adj: i64 = calculate_ar_adjustment(&self.state.auto_regulator,
                self.state.power_percent, dt);
            proof {
                lemma_fmul_fits(self.state.auto_regulator.rod_speed as int, dt as int,
                    SCALE as int, DT_MAX as int);
                assert(abs_i(adj as int) <= SCALE);
            }
            shift_automatic_rods(&mut self.control_rods, adj);
        }
        let ghost rods1 = self.control_rods@;
        let total_worth: i64 = calculate_total_rod_worth(&self.control_rods);
        let n: usize = self.fuel_channels.len();
        let ghost orig_ch = self.fuel_channels@;
        let mut new_channels: Vec<FuelChannel> = Vec::new();
        let mut i: usize = 0;
        while i < n
            invariant
                0 <= i <= n,
                n == self.fuel_channels@.len(),
                self.fuel_channels@ == orig_ch,
                self.control_rods@ == rods1,
                self.state == old(self).state,
                self.time_accumulator == old(self).time_accumulator,
                wf_channels(orig_ch),
                wf_rods(rods1),
                total_worth as int == spec_total_worth(rods1),
                0 <= total_worth <= 20_000_000_000,
                DT_MIN <= dt <= DT_MAX,
                new_channels@.len() == i,
                forall|j: int| 0 <= j < i ==> spec_cell_stepped(#[trigger] new_channels@[j],
                    orig_ch[j], spec_nb_flux_diff(orig_ch, j, 0), clip(
                    spec_total_worth(rods1) + spec_local_rod_deviation(rods1,
                    orig_ch[j].grid_x as int, orig_ch[j].grid_y as int), 0, 20_000_000_000),
                    dt as int, scram),
                forall|j: int| 0 <= j < i ==> wf_channel(#[trigger] new_channels@[j],
                    n as int),
            decreases n - i,
        {
            proof {
                assert(wf_channel(orig_ch[i as int], n as int));
            }
            let gx: i32 = self.fuel_channels[i].grid_x;
            let gy: i32 = self.fuel_channels[i].grid_y;
            let dev: i64 = local_rod_deviation(&self.control_rods, gx, gy);
            let rwc: i64 = clamp_fx(total_worth + dev, 0, 20_000_000_000);
            let nbd: i64 = nb_flux_diff(&self.fuel_channels, i);
            let c2: FuelChannel = step_channel(&self.fuel_channels[i], nbd, rwc, dt, scram);
            new_channels.push(c2);
            i = i + 1;
        }
        self.fuel_channels = new_channels;
        let sums: ChannelSums = sum_channels(&self.fuel_channels);
        let ghost ch = self.fuel_channels@;
        proof {
            assert forall|j: int| 0 <= j < ch.len() implies NEUTRON_MIN
                <= #[trigger] seq_flux(ch)[j] <= NEUTRON_MAX by {
                assert(wf_channel(ch[j], ch.len() as int));
            };
            assert forall|j: int| 0 <= j < ch.len() implies RHO_MIN
                <= #[trigger] seq_rho(ch)[j] <= RHO_MAX by {
                assert(wf_channel(ch[j], ch.len() as int));
            };
            assert forall|j: int| 0 <= j < ch.len() implies TEMP_MIN
                <= #[trigger] seq_fuel(ch)[j] <= FUEL_TEMP_MAX by {
                assert(wf_channel(ch[j], ch.len() as int));
            };
            assert forall|j: int| 0 <= j < ch.len() implies TEMP_MIN
                <= #[trigger] seq_coolant(ch)[j] <= COOLANT_TEMP_MAX by {
                assert(wf_channel(ch[j], ch.len() as int));
            };
            assert forall|j: int| 0 <= j < ch.len() implies TEMP_MIN
                <= #[trigger] seq_graphite(ch)[j] <= GRAPHITE_TEMP_MAX by {
                assert(wf_channel(ch[j], ch.len() as int));
            };
            assert forall|j: int| 0 <= j < ch.len() implies 0 <= #[trigger] seq_void(ch)[j]
                <= VOID_MAX by {
                assert(wf_channel(ch[j], ch.len() as int));
            };
            assert forall|j: int| 0 <= j < ch.len() implies 0 <= #[trigger] seq_xenon(ch)[j]
                <= CONCENTRATION_MAX by {
                assert(wf_channel(ch[j], ch.len() as int));
            };
            assert forall|j: int| 0 <= j < ch.len() implies 0 <= #[trigger] seq_iodine(ch)[j]
                <= CONCENTRATION_MAX by {
                assert(wf_channel(ch[j], ch.len() as int));
            };
            assert forall|g: int, j: int| 0 <= g < 6 && 0 <= j < ch.len() implies 0
                <= #[trigger] seq_group(ch, g)[j] <= PRECURSOR_MAX by {
                assert(wf_channel(ch[j], ch.len() as int));
            };
            lemma_sum_bound(seq_flux(ch), NEUTRON_MIN as int, NEUTRON_MAX as int);
            lemma_sum_bound(seq_rho(ch), RHO_MIN as int, RHO_MAX as int);
            lemma_sum_bound(seq_fuel(ch), TEMP_MIN as int, FUEL_TEMP_MAX as int);
            lemma_sum_bound(seq_coolant(ch), TEMP_MIN as int, COOLANT_TEMP_MAX as int);
            lemma_sum_bound(seq_graphite(ch), TEMP_MIN as int, GRAPHITE_TEMP_MAX as int);
            lemma_sum_bound(seq_void(ch), 0, VOID_MAX as int);
            lemma_sum_bound(seq_xenon(ch), 0, CONCENTRATION_MAX as int);
            lemma_sum_bound(seq_iodine(ch), 0, CONCENTRATION_MAX as int);
            lemma_sum_bound(seq_group(ch, 0), 0, PRECURSOR_MAX as int);
            lemma_sum_bound(seq_group(ch, 1), 0, PRECURSOR_MAX as int);
            lemma_sum_bound(seq_group(ch, 2), 0, PRECURSOR_MAX as int);
            lemma_sum_bound(seq_group(ch, 3), 0, PRECURSOR_MAX as int);
            lemma_sum_bound(seq_group(ch, 4), 0, PRECURSOR_MAX as int);
            lemma_sum_bound(seq_group(ch, 5), 0, PRECURSOR_MAX as int);
            assert(UNITS_MAX * 3_500_000_000_000 <= 1_000_000_000_000_000_000
                && UNITS_MAX * 1_000_000_000_000 <= 1_000_000_000_000_000_000
                && UNITS_MAX * 100_000_000 <= 1_000_000_000_000_000_000
                && UNITS_MAX * 10_000_000_000 <= 1_000_000_000_000_000_000);
            assert(ch.len() * NEUTRON_MAX <= UNITS_MAX * NEUTRON_MAX) by (nonlinear_arith)
                requires
                    0 <= ch.len() <= UNITS_MAX,
            ;
            assert(ch.len() * FUEL_TEMP_MAX <= UNITS_MAX * FUEL_TEMP_MAX) by (nonlinear_arith)
                requires
                    0 <= ch.len() <= UNITS_MAX,
            ;
            assert(ch.len() * COOLANT_TEMP_MAX <= UNITS_MAX * FUEL_TEMP_MAX)
                by (nonlinear_arith)
                requires
                    0 <= ch.len() <= UNITS_MAX,
            ;
            assert(ch.len() * GRAPHITE_TEMP_MAX <= UNITS_MAX * FUEL_TEMP_MAX)
                by (nonlinear_arith)
                requires
                    0 <= ch.len() <= UNITS_MAX,
            ;
            assert(ch.len() * VOID_MAX <= UNITS_MAX * VOID_MAX) by (nonlinear_arith)
                requires
                    0 <= ch.len() <= UNITS_MAX,
            ;
            assert(ch.len() * CONCENTRATION_MAX <= UNITS_MAX * CONCENTRATION_MAX)
                by (nonlinear_arith)
                requires
                    0 <= ch.len() <= UNITS_MAX,
            ;
            assert(ch.len() * PRECURSOR_MAX <= UNITS_MAX * PRECURSOR_MAX) by (nonlinear_arith)
                requires
                    0 <= ch.len() <= UNITS_MAX,
            ;
            assert(ch.len() * RHO_MIN >= UNITS_MAX * (-100_000_000)
                && ch.len() * RHO_MAX <= UNITS_MAX * 100_000_000) by (nonlinear_arith)
                requires
                    0 <= ch.len() <= UNITS_MAX,
            ;
        }
        let old_n_pop: i64 = self.state.neutron_population;
        let n_pop: i64 = mean_of_sum(sums.flux, n, NEUTRON_MIN, NEUTRON_MAX, old_n_pop);
        let rho: i64 = mean_of_sum(sums.rho, n, RHO_MIN, RHO_MAX,
            self.state.smoothed_reactivity);
        proof {
            lemma_muldiv_fits(rho as int, SCALE as int, BETA_EFF as int, 100_000_000,
                SCALE as int, BETA_EFF as int);
            lemma_muldiv_fits(sums.power as int, 1, 32, 1_000_000_000_000_000_000, 1, 1);
        }
        let dollars: i64 = reactivity_to_dollars(rho);
        let power_mw: i64 = sums.power;
        let ppct: i64 = clamp_fx(mul_div(power_mw, 1, 32), 0, 1_100_000_000_000);
        let xe: i64 = mean_of_sum(sums.xenon, n, 0, CONCENTRATION_MAX, 0);
        let iodine: i64 = mean_of_sum(sums.iodine, n, 0, CONCENTRATION_MAX, 0);
        let fuel: i64 = mean_of_sum(sums.fuel, n, TEMP_MIN, FUEL_TEMP_MAX, 300_000_000_000);
        let coolant: i64 = mean_of_sum(sums.coolant, n, TEMP_MIN, COOLANT_TEMP_MAX,
            300_000_000_000);
        let graphite: i64 = mean_of_sum(sums.graphite, n, TEMP_MIN, GRAPHITE_TEMP_MAX,
            300_000_000_000);
        let void: i64 = mean_of_sum(sums.void_f, n, 0, VOID_MAX, 0);
        let groups: [i64; 6] = sums.groups;
        let p0: i64 = mean_of_sum(groups[0], n, 0, PRECURSOR_MAX, 0);
        let p1: i64 = mean_of_sum(groups[1], n, 0, PRECURSOR_MAX, 0);
        let p2: i64 = mean_of_sum(groups[2], n, 0, PRECURSOR_MAX, 0);
        let p3: i64 = mean_of_sum(groups[3], n, 0, PRECURSOR_MAX, 0);
        let p4: i64 = mean_of_sum(groups[4], n, 0, PRECURSOR_MAX, 0);
        let p5: i64 = mean_of_sum(groups[5], n, 0, PRECURSOR_MAX, 0);
        let period: i64 = period_from_rate(old_n_pop, n_pop, dt);
        proof {
            lemma_fmul_fits(XENON_COEF as int, xe as int, XENON_COEF as int,
                CONCENTRATION_MAX as int);
            assert(XENON_COEF as int * (xe as int) >= 0) by (nonlinear_arith)
                requires
                    xe >= 0,
            ;
            lemma_tdiv_abs(XENON_COEF as int * (xe as int), SCALE as int);
        }
        let xe_rho: i64 = -mul_fx(XENON_COEF, xe);
        self.state.neutron_population = n_pop;
        self.state.reactivity = rho;
        self.state.smoothed_reactivity = rho;
        self.state.reactivity_dollars = dollars;
        self.state.k_eff = k_eff_from_reactivity(rho);
        self.state.power_mw = power_mw;
        self.state.power_percent = ppct;
        self.state.period = period;
        self.state.avg_fuel_temp = fuel;
        self.state.avg_coolant_temp = coolant;
        self.state.avg_graphite_temp = graphite;
        self.state.avg_coolant_void = void;
        self.state.iodine_135 = iodine;
        self.state.xenon_135 = xe;
        self.state.xenon_reactivity = xe_rho;
        self.state.precursors_6 = [p0, p1, p2, p3, p4, p5];
        self.state.precursors = p0 + p1 + p2 + p3 + p4 + p5;
        if scram {
            self.state.scram_time = advance_clock(self.state.scram_time, dt);
        }
        self.state.auto_regulator = regulator_after_step(&self.state.auto_regulator, ppct, dt,
            scram);
        self.state.axial_flux = update_axial_flux(AXIAL_POINTS, n_pop);
        let mut alerts: Vec<Alert> = check_safety_limits(ppct, dollars, fuel, void, period);
        if !self.state.explosion_occurred {
            let sev: i64 = detect_explosion(fuel, coolant, void, dollars, ppct);
            if sev >= EXPLOSION_THRESHOLD {
                self.state.explosion_occurred = true;
                self.state.explosion_time = self.state.time;
                alerts.push(Alert::Explosion);
            }
        }
        self.state.alerts = alerts;
        self.state.time = advance_clock(self.state.time, dt);
    }

    /// One simulation step. The spatial per-cell model is the single
    /// physics path; the scalar state is always derived from it.
    pub fn step(&mut self)
        requires
            wf_sim(*old(self)),
        ensures
            wf_sim(*final(self)),
            spec_sim_step_rel(*old(self), *final(self)),
            spec_scalars_after_step(final(self).state, old(self).state,
                final(self).fuel_channels@),
            RHO_MIN <= final(self).state.reactivity <= RHO_MAX,
            old(self).state.explosion_occurred ==> final(self).state.explosion_occurred,
            final(self).state.time >= old(self).state.time,
            final(self).state.dt == old(self).state.dt,
    {
        self.step_spatial();
    }

    /// Run `count` steps in sequence: the final state is reachable from
    /// the initial one by exactly `count` applications of the one-step
    /// relation, and below the clock cap the simulation time advances by
    /// exactly `count` times the step size.
    pub fn step_n(&mut self, count: usize)
        requires
            wf_sim(*old(self)),
        ensures
            wf_sim(*final(self)),
            spec_stepped_n(*old(self), *final(self), count as nat),
            final(self).time_accumulator == old(self).time_accumulator,
            old(self).state.explosion_occurred ==> final(self).state.explosion_occurred,
            final(self).state.time >= old(self).state.time,
            final(self).state.dt == old(self).state.dt,
            old(self).state.time + count * old(self).state.dt <= TIME_CAP
                ==> final(self).state.time == old(self).state.time + count * old(
                self).state.dt,
            count > 0 ==> RHO_MIN <= final(self).state.reactivity <= RHO_MAX,
            count == 0 ==> *final(self) == *old(self),
    {
        let mut i: usize = 0;
        while i < count
            invariant
                0 <= i <= count,
                wf_sim(*self),
                spec_stepped_n(*old(self), *self, i as nat),
                self.time_accumulator == old(self).time_accumulator,
                old(self).state.explosion_occurred ==> self.state.explosion_occurred,
                self.state.time >= old(self).state.time,
                self.state.dt == old(self).state.dt,
                old(self).state.time + i * old(self).state.dt <= TIME_CAP
                    ==> self.state.time == old(self).state.time + i * old(self).state.dt,
                i == 0 ==> *self == *old(self),
                i > 0 ==> RHO_MIN <= self.state.reactivity <= RHO_MAX,
            decreases count - i,
        {
            let ghost mid = *self;
            self.step();
            proof {
                assert(spec_sim_step_rel(mid, *self));
                assert(spec_stepped_n(*old(self), *self, (i + 1) as nat));
                let dt0 = old(self).state.dt as int;
                let i0 = i as int;
                assert((i0 + 1) * dt0 == i0 * dt0 + dt0 && i0 * dt0 <= (i0 + 1) * dt0)
                    by (nonlinear_arith)
                    requires
                        dt0 >= 0,
                        i0 >= 0,
                ;
            }
            i = i + 1;
        }
    }

    /// Advance the simulation in real time: the elapsed wall-clock time
    /// times the speed multiplier is added to a persistent accumulator;
    /// as many whole steps as the accumulator covers are run (capped to
    /// bound the latency of one call), and the consumed time is
    /// subtracted. Returns the number of steps run.
    pub fn step_realtime(&mut self, elapsed_wall_seconds: i64, speed_multiplier: i64) -> (steps:
        usize)
        requires
            wf_sim(*old(self)),
            0 <= elapsed_wall_seconds <= 1_000_000_000_000,
            0 <= speed_multiplier <= 1_000_000_000_000,
        ensures
            wf_sim(*final(self)),
            old(self).state.explosion_occurred ==> final(self).state.explosion_occurred,
            final(self).state.time >= old(self).state.time,
            final(self).state.dt == old(self).state.dt,
            steps <= 1000,
            ({ let gained = fmul(elapsed_wall_seconds as int, speed_multiplier as int);
               let acc = if old(self).time_accumulator + gained <= 2 * ACCUMULATOR_CAP {
                   old(self).time_accumulator + gained
               } else {
                   2 * ACCUMULATOR_CAP as int
               };
               let want = tdiv(acc, old(self).state.dt as int);
               &&& steps == (if want < 1000 { want } else { 1000int })
               &&& final(self).time_accumulator == acc - steps * old(self).state.dt
            }),
            exists|mid: ReactorSimulator| #[trigger] spec_stepped_n(mid, *final(self),
                steps as nat) && mid.state == old(self).state && mid.control_rods@ == old(
                self).control_rods@ && mid.fuel_channels@ == old(self).fuel_channels@,
            old(self).state.time + steps * old(self).state.dt <= TIME_CAP
                ==> final(self).state.time == old(self).state.time + steps * old(
                self).state.dt,
    {
        proof {
            lemma_fmul_fits(elapsed_wall_seconds as int, speed_multiplier as int,
                1_000_000_000_000, 1_000_000_000_000);
        }
        let gained: i64 = mul_fx(elapsed_wall_seconds, speed_multiplier);
        let acc: i64 = if self.time_accumulator + gained <= 2 * ACCUMULATOR_CAP {
            self.time_accumulator + gained
        } else {
            2 * ACCUMULATOR_CAP
        };
        let dt: i64 = self.state.dt;
        proof {
            lemma_muldiv_fits(acc as int, 1, dt as int, 2 * ACCUMULATOR_CAP as int, 1,
                DT_MIN as int);
            lemma_tdiv_abs(acc as int, dt as int);
            vstd::arithmetic::div_mod::lemma_div_pos_is_pos(acc as int, dt as int);
        }
        let want: i64 = mul_div(acc, 1, dt);
        let steps: i64 = if want < 1000 {
            want
        } else {
            1000
        };
        proof {
            assert(0 <= steps * dt <= 1000 * DT_MAX) by (nonlinear_arith)
                requires
                    0 <= steps <= 1000,
                    0 < dt <= DT_MAX,
            ;
            assert(steps * dt <= acc) by {
                if steps == want {
                    lemma_tdiv_abs(acc as int, dt as int);
                    vstd::arithmetic::div_mod::lemma_fundamental_div_mod(acc as int, dt as int);
                    assert((acc as int) / (dt as int) * (dt as int) <= acc as int);
                    assert(steps * dt == (acc as int) / (dt as int) * (dt as int))
                        by (nonlinear_arith)
                        requires
                            steps as int == (acc as int) / (dt as int),
                    ;
                } else {
                    assert(want > 1000);
                    assert((acc as int) / (dt as int) >= 1000);
                    vstd::arithmetic::div_mod::lemma_fundamental_div_mod(acc as int, dt as int);
                    assert(acc as int >= 1000 * (dt as int)) by (nonlinear_arith)
                        requires
                            (acc as int) / (dt as int) >= 1000,
                            acc >= 0,
                            dt > 0,
                            acc as int == (dt as int) * ((acc as int) / (dt as int)) + (
                            acc as int) % (dt as int),
                            (acc as int) % (dt as int) >= 0,
                    ;
                }
            };
        }
        self.time_accumulator = acc - steps * dt;
        let count: usize = steps as usize;
        let ghost pre = *self;
        self.step_n(count);
        proof {
            assert(spec_stepped_n(pre, *self, count as nat));
            assert(pre.state == old(self).state);
            assert(pre.control_rods@ == old(self).control_rods@);
            assert(pre.fuel_channels@ == old(self).fuel_channels@);
        }
        count
    }

    /// Return the engine to the defined cold-shutdown startup state: the
    /// documented default scalar state, every rod fully inserted, every
    /// channel back to its cold defaults (geometry, enrichment and the
    /// neighbor graph are structural and kept).
    pub fn reset(&mut self)
        requires
            wf_sim(*old(self)),
        ensures
            wf_sim(*final(self)),
            spec_is_default_state(final(self).state),
            final(self).control_rods@ == spec_all_inserted(old(self).control_rods@),
            final(self).fuel_channels@.len() == old(self).fuel_channels@.len(),
            forall|i: int| 0 <= i < final(self).fuel_channels@.len() ==> spec_channel_reset(
                #[trigger] final(self).fuel_channels@[i], old(self).fuel_channels@[i]),
            final(self).time_accumulator == old(self).time_accumulator,
    {
        self.state = ReactorState::default();
        insert_all_rods(&mut self.control_rods);
        let ghost orig_ch = self.fuel_channels@;
        let n: usize = self.fuel_channels.len();
        let mut i: usize = 0;
        while i < n
            invariant
                0 <= i <= n,
                n == self.fuel_channels@.len(),
                n == orig_ch.len(),
                wf_channels(orig_ch),
                spec_is_default_state(self.state),
                wf_state(self.state),
                self.control_rods@ == spec_all_inserted(old(self).control_rods@),
                wf_rods(self.control_rods@),
                self.time_accumulator == old(self).time_accumulator,
                forall|j: int| 0 <= j < i ==> spec_channel_reset(
                    #[trigger] self.fuel_channels@[j], orig_ch[j]),
                forall|j: int| 0 <= j < i ==> wf_channel(#[trigger] self.fuel_channels@[j],
                    n as int),
                forall|j: int| i <= j < n ==> #[trigger] self.fuel_channels@[j] == orig_ch[j],
            decreases n - i,
        {
            proof {
                assert(wf_channel(orig_ch[i as int], n as int));
            }
            let c = &self.fuel_channels[i];
            let mut nb: Vec<usize> = Vec::new();
            let mut k: usize = 0;
            let n_nb: usize = c.neighbors.len();
            while k < n_nb
                invariant
                    0 <= k <= n_nb,
                    n_nb == c.neighbors@.len(),
                    nb@ == c.neighbors@.take(k as int),
                decreases n_nb - k,
            {
                nb.push(c.neighbors[k]);
                proof {
                    assert(nb@ =~= c.neighbors@.take(k + 1));
                }
                k = k + 1;
            }
            proof {
                assert(nb@ =~= c.neighbors@);
            }
            let lrp: i64 = if c.has_control_rod {
                0
            } else {
                c.local_rod_position
            };
            let updated = FuelChannel {
                id: c.id,
                grid_x: c.grid_x,
                grid_y: c.grid_y,
                x: c.x,
                y: c.y,
                fuel_temp: 300_000_000_000,
                coolant_temp: 300_000_000_000,
                graphite_temp: 300_000_000_000,
                coolant_void: 0,
                pressure: 7_000_000_000,
                flow_rate: 5_500_000_000,
                inlet_temp: 543_000_000_000,
                outlet_temp: 557_000_000_000,
                neutron_flux: 1_000,
                precursors: 0,
                precursor_groups: [0i64; 6],
                power_density: 0,
                local_power: 0,
                iodine_135: 0,
                xenon_135: 0,
                burnup: 0,
                enrichment: c.enrichment,
                has_control_rod: c.has_control_rod,
                control_rod_id: c.control_rod_id,
                local_rod_position: lrp,
                neighbors: nb,
                local_reactivity: 0,
            };
            self.fuel_channels.set(i, updated);
            i = i + 1;
        }
    }

    /// Build the engine in the defined reference startup configuration:
    /// the fallback layout with every rod at the reference position, all
    /// cells at nominal flux with equilibrium precursors and reference
    /// temperatures, and the scalar state exactly critical. One step from
    /// here leaves the neutron population nearly unchanged.
    pub fn reference_startup() -> (r: ReactorSimulator)
        ensures
            wf_sim(r),
            spec_is_reference_state(r.state, r.fuel_channels@.len() as int),
            forall|i: int| 0 <= i < r.control_rods@.len() ==> #[trigger] r.control_rods@[
                i].position == REFERENCE_ROD_POSITION,
            r.fuel_channels@.len() == spec_fallback_cells((41 * 41) as nat).len(),
            forall|j: int| 0 <= j < r.fuel_channels@.len() ==> spec_channel_identity(
                #[trigger] r.fuel_channels@[j], j, spec_fallback_cells((41 * 41) as nat)[j].0,
                spec_fallback_cells((41 * 41) as nat)[j].1, 41),
            forall|j: int| 0 <= j < r.fuel_channels@.len() ==> spec_reference_channel_fields(
                #[trigger] r.fuel_channels@[j]),
            forall|j: int| 0 <= j < r.fuel_channels@.len() ==> #[trigger] r.fuel_channels@[
                j].neighbors@ == spec_channel_neighbors(r.fuel_channels@, j),
            r.time_accumulator == 0,
    {
        let mut sim: ReactorSimulator = ReactorSimulator::new();
        crate::rods::move_rod_group_in_bank(&mut sim.control_rods, RodType::Manual,
            REFERENCE_ROD_POSITION);
        crate::rods::move_rod_group_in_bank(&mut sim.control_rods, RodType::Automatic,
            REFERENCE_ROD_POSITION);
        crate::rods::move_rod_group_in_bank(&mut sim.control_rods, RodType::Shortened,
            REFERENCE_ROD_POSITION);
        crate::rods::move_rod_group_in_bank(&mut sim.control_rods, RodType::Emergency,
            REFERENCE_ROD_POSITION);
        proof {
            assert forall|i: int| 0 <= i < sim.control_rods@.len()
                implies #[trigger] sim.control_rods@[i].position == REFERENCE_ROD_POSITION
            by {
                assert(clip(REFERENCE_ROD_POSITION as int, 0, SCALE as int)
                    == REFERENCE_ROD_POSITION);
            };
        }
        let groups: [i64; 6] = init_precursors_6group(SCALE);
        proof {
            assert forall|g: int| 0 <= g < 6 implies #[trigger] groups[g] as int
                == spec_beta_g(g) by {
                vstd::arithmetic::div_mod::lemma_div_by_multiple(spec_beta_g(g), SCALE as int);
                assert(fmul(spec_beta_g(g), SCALE as int) == spec_beta_g(g));
            };
        }
        let n: usize = sim.fuel_channels.len();
        let ghost orig_ch = sim.fuel_channels@;
        proof {
            assert(forall|j: int| 0 <= j < orig_ch.len() ==> spec_channel_identity(
                #[trigger] orig_ch[j], j, spec_fallback_cells((41 * 41) as nat)[j].0,
                spec_fallback_cells((41 * 41) as nat)[j].1, 41));
            assert(forall|j: int| 0 <= j < orig_ch.len() ==> spec_cold_channel_fields(
                #[trigger] orig_ch[j]));
            assert(forall|j: int| 0 <= j < orig_ch.len() ==> #[trigger] orig_ch[j].neighbors@
                == spec_channel_neighbors(orig_ch, j));
        }
        let mut i: usize = 0;
        while i < n
            invariant
                0 <= i <= n,
                n == sim.fuel_channels@.len(),
                n == orig_ch.len(),
                wf_channels(orig_ch),
                forall|j: int| 0 <= j < orig_ch.len() ==> spec_channel_identity(
                    #[trigger] orig_ch[j], j, spec_fallback_cells((41 * 41) as nat)[j].0,
                    spec_fallback_cells((41 * 41) as nat)[j].1, 41),
                forall|j: int| 0 <= j < orig_ch.len() ==> spec_cold_channel_fields(
                    #[trigger] orig_ch[j]),
                forall|j: int| 0 <= j < orig_ch.len() ==> #[trigger] orig_ch[j].neighbors@
                    == spec_channel_neighbors(orig_ch, j),
                wf_state(sim.state),
                spec_is_default_state(sim.state),
                wf_rods(sim.control_rods@),
                forall|t: int| 0 <= t < sim.control_rods@.len()
                    ==> #[trigger] sim.control_rods@[t].position == REFERENCE_ROD_POSITION,
                sim.time_accumulator == 0,
                forall|g: int| 0 <= g < 6 ==> #[trigger] groups[g] as int == spec_beta_g(g),
                forall|j: int| 0 <= j < i ==> spec_is_reference_channel(
                    #[trigger] sim.fuel_channels@[j], orig_ch[j]),
                forall|j: int| 0 <= j < i ==> wf_channel(#[trigger] sim.fuel_channels@[j],
                    n as int),
                forall|j: int| i <= j < n ==> #[trigger] sim.fuel_channels@[j] == orig_ch[j],
            decreases n - i,
        {
            proof {
                assert(wf_channel(orig_ch[i as int], n as int));
            }
            let c = &sim.fuel_channels[i];
            let mut nb: Vec<usize> = Vec::new();
            let mut k: usize = 0;
            let n_nb: usize = c.neighbors.len();
            while k < n_nb
                invariant
                    0 <= k <= n_nb,
                    n_nb == c.neighbors@.len(),
                    nb@ == c.neighbors@.take(k as int),
                decreases n_nb - k,
            {
                nb.push(c.neighbors[k]);
                proof {
                    assert(nb@ =~= c.neighbors@.take(k + 1));
                }
                k = k + 1;
            }
            proof {
                assert(nb@ =~= c.neighbors@);
            }
            let updated = FuelChannel {
                id: c.id,
                grid_x: c.grid_x,
                grid_y: c.grid_y,
                x: c.x,
                y: c.y,
                fuel_temp: 800_000_000_000,
                coolant_temp: 550_000_000_000,
                graphite_temp: 600_000_000_000,
                coolant_void: 0,
                pressure: 7_000_000_000,
                flow_rate: 5_500_000_000,
                inlet_temp: 543_000_000_000,
                outlet_temp: 557_000_000_000,
                neutron_flux: SCALE,
                precursors: 6_502_000,
                precursor_groups: groups,
                power_density: 0,
                local_power: POWER_PER_CHANNEL_MW_FX,
                iodine_135: 0,
                xenon_135: 0,
                burnup: 0,
                enrichment: c.enrichment,
                has_control_rod: c.has_control_rod,
                control_rod_id: c.control_rod_id,
                local_rod_position: c.local_rod_position,
                neighbors: nb,
                local_reactivity: 0,
            };
            sim.fuel_channels.set(i, updated);
            i = i + 1;
        }
        proof {
            assert(spec_same_coords(orig_ch, sim.fuel_channels@)) by {
                assert forall|j: int| 0 <= j < orig_ch.len() implies #[trigger] orig_ch[
                    j].grid_x == sim.fuel_channels@[j].grid_x && orig_ch[j].grid_y
                    == sim.fuel_channels@[j].grid_y by {
                    assert(spec_is_reference_channel(sim.fuel_channels@[j], orig_ch[j]));
                };
            };
            assert forall|j: int| 0 <= j < sim.fuel_channels@.len() implies
                spec_channel_identity(#[trigger] sim.fuel_channels@[j], j,
                spec_fallback_cells((41 * 41) as nat)[j].0, spec_fallback_cells((41 * 41)
                as nat)[j].1, 41) && spec_reference_channel_fields(sim.fuel_channels@[j])
                && sim.fuel_channels@[j].neighbors@ == spec_channel_neighbors(
                sim.fuel_channels@, j) by {
                assert(spec_is_reference_channel(sim.fuel_channels@[j], orig_ch[j]));
                assert(spec_channel_identity(orig_ch[j], j, spec_fallback_cells((41 * 41)
                    as nat)[j].0, spec_fallback_cells((41 * 41) as nat)[j].1, 41));
                assert(spec_cold_channel_fields(orig_ch[j]));
                assert(orig_ch[j].neighbors@ == spec_channel_neighbors(orig_ch, j));
                lemma_channel_neighbors_coords(orig_ch, sim.fuel_channels@, j);
            };
        }
        proof {
            assert(0 <= n * POWER_PER_CHANNEL_MW_FX <= UNITS_MAX * POWER_PER_CHANNEL_MW_FX)
                by (nonlinear_arith)
                requires
                    0 <= n <= UNITS_MAX,
            ;
            lemma_muldiv_fits((n * POWER_PER_CHANNEL_MW_FX) as int, 1, 32,
                UNITS_MAX as int * POWER_PER_CHANNEL_MW_FX as int, 1, 1);
        }
        let power_mw: i64 = (n as i64) * POWER_PER_CHANNEL_MW_FX;
        sim.state.power_mw = power_mw;
        sim.state.power_percent = clamp_fx(mul_div(power_mw, 1, 32), 0, 1_100_000_000_000);
        sim.state.neutron_population = SCALE;
        sim.state.precursors_6 = groups;
        sim.state.precursors = 6_502_000;
        sim.state.k_eff = SCALE;
        sim.state.reactivity = 0;
        sim.state.reactivity_dollars = 0;
        sim.state.smoothed_reactivity = 0;
        sim.state.avg_fuel_temp = 800_000_000_000;
        sim.state.avg_coolant_temp = 550_000_000_000;
        sim.state.avg_graphite_temp = 600_000_000_000;
        sim
    }

    /// The two-dimensional power-distribution grid for visualization:
    /// channel positions binned on a `grid_size` by `grid_size` raster.
    /// Each bin holds the display value of the last channel that maps to
    /// it (local flux scaled by the global power percentage); bins with
    /// no channel stay zero.
    pub fn power_distribution(&self, grid_size: usize) -> (r: Vec<Vec<i64>>)
        requires
            wf_sim(*self),
            0 < grid_size <= 1_000,
        ensures
            r@.len() == grid_size,
            forall|i: int| 0 <= i < grid_size ==> #[trigger] r@[i]@.len() == grid_size,
            forall|i: int, j: int| 0 <= i < grid_size && 0 <= j < grid_size
                ==> #[trigger] r@[i]@[j] as int == spec_bin_value(self.fuel_channels@,
                self.state.power_percent as int, grid_size as int, i, j),
    {
        let gs: usize = grid_size;
        let percent: i64 = self.state.power_percent;
        let mut grid: Vec<Vec<i64>> = Vec::new();
        let mut i: usize = 0;
        while i < gs
            invariant
                0 <= i <= gs,
                grid@.len() == i,
                forall|t: int| 0 <= t < i ==> #[trigger] grid@[t]@.len() == gs,
                forall|t: int, j: int| 0 <= t < i && 0 <= j < gs ==> #[trigger] grid@[t]@[j]
                    == 0,
            decreases gs - i,
        {
            let mut row: Vec<i64> = Vec::new();
            let mut j: usize = 0;
            while j < gs
                invariant
                    0 <= j <= gs,
                    row@.len() == j,
                    forall|t: int| 0 <= t < j ==> #[trigger] row@[t] == 0,
                decreases gs - j,
            {
                row.push(0);
                j = j + 1;
            }
            grid.push(row);
            i = i + 1;
        }
        proof {
            assert(self.fuel_channels@.take(0) =~= Seq::<FuelChannel>::empty());
        }
        let n: usize = self.fuel_channels.len();
        let mut c: usize = 0;
        while c < n
            invariant
                0 <= c <= n,
                n == self.fuel_channels@.len(),
                wf_sim(*self),
                0 < gs <= 1_000,
                percent == self.state.power_percent,
                grid@.len() == gs,
                forall|t: int| 0 <= t < gs ==> #[trigger] grid@[t]@.len() == gs,
                forall|x: int, y: int| 0 <= x < gs && 0 <= y < gs ==> #[trigger] grid@[x]@[
                    y] as int == spec_bin_value(self.fuel_channels@.take(c as int),
                    percent as int, gs as int, x, y),
            decreases n - c,
        {
            proof {
                assert(wf_channel(self.fuel_channels@[c as int],
                    self.fuel_channels@.len() as int));
            }
            let ch = &self.fuel_channels[c];
            let gx: i64 = ch.grid_x as i64;
            let gy: i64 = ch.grid_y as i64;
            proof {
                assert(0 <= gx * (gs as i64) <= 48_000 && 0 <= gy * (gs as i64) <= 48_000)
                    by (nonlinear_arith)
                    requires
                        0 <= gx < 48,
                        0 <= gy < 48,
                        0 < gs <= 1_000,
                ;
                assert(gx * (gs as i64) < 48 * (gs as int)) by (nonlinear_arith)
                    requires
                        0 <= gx < 48,
                        0 < gs,
                ;
                assert(gy * (gs as i64) < 48 * (gs as int)) by (nonlinear_arith)
                    requires
                        0 <= gy < 48,
                        0 < gs,
                ;
                vstd::arithmetic::div_mod::lemma_multiply_divide_lt(gx * (gs as int), 48,
                    gs as int);
                vstd::arithmetic::div_mod::lemma_multiply_divide_lt(gy * (gs as int), 48,
                    gs as int);
                vstd::arithmetic::div_mod::lemma_div_pos_is_pos(gx * (gs as int), 48);
                vstd::arithmetic::div_mod::lemma_div_pos_is_pos(gy * (gs as int), 48);
            }
            let bx: i64 = gx * (gs as i64) / 48;
            let by: i64 = gy * (gs as i64) / 48;
            proof {
                lemma_fmul_fits(ch.neutron_flux as int, percent as int, NEUTRON_MAX as int,
                    1_100_000_000_000);
                assert(ch.neutron_flux as int * (percent as int) >= 0) by (nonlinear_arith)
                    requires
                        ch.neutron_flux >= 0,
                        percent >= 0,
                ;
                lemma_tdiv_abs(ch.neutron_flux as int * (percent as int), SCALE as int);
                lemma_muldiv_fits(fmul(ch.neutron_flux as int, percent as int), 1, 100,
                    11_000_000_000_000, 1, 100);
            }
            let v: i64 = mul_div(mul_fx(ch.neutron_flux, percent), 1, 100);
            let bxu: usize = bx as usize;
            let byu: usize = by as usize;
            let mut row: Vec<i64> = Vec::new();
            let mut j: usize = 0;
            while j < gs
                invariant
                    0 <= j <= gs,
                    row@.len() == j,
                    grid@.len() == gs,
                    bxu < gs,
                    byu < gs,
                    forall|t: int| 0 <= t < gs ==> #[trigger] grid@[t]@.len() == gs,
                    forall|t: int| 0 <= t < j && t != byu ==> #[trigger] row@[t]
                        == grid@[bxu as int]@[t],
                    forall|t: int| 0 <= t < j && t == byu ==> #[trigger] row@[t] == v,
                decreases gs - j,
            {
                if j == byu {
                    row.push(v);
                } else {
                    row.push(grid[bxu][j]);
                }
                j = j + 1;
            }
            grid.set(bxu, row);
            proof {
                let pre = self.fuel_channels@.take(c as int);
                let post = self.fuel_channels@.take(c + 1);
                assert(post.drop_last() =~= pre);
                assert(post.last() == self.fuel_channels@[c as int]);
                assert forall|x: int, y: int| 0 <= x < gs && 0 <= y < gs
                    implies #[trigger] grid@[x]@[y] as int == spec_bin_value(post,
                    percent as int, gs as int, x, y) by {
                    if x == bxu as int && y == byu as int {
                        assert(grid@[x]@[y] == v);
                    } else {
                        assert(grid@[x]@[y] as int == spec_bin_value(pre, percent as int,
                            gs as int, x, y));
                    }
                };
            }
            c = c + 1;
        }
        proof {
            assert(self.fuel_channels@.take(n as int) =~= self.fuel_channels@);
        }
        grid
    }
}

} // verus!
