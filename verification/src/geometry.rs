//! Core geometry: fuel channels with their per-cell physical state,
//! construction from external layout data, the synthetic fallback layout,
//! and the 4-connectivity neighbor graph used by the spatial diffusion
//! coupling.

use vstd::prelude::*;

verus! {

use crate::fx::{SCALE};
use crate::params::{NEUTRON_MIN, NEUTRON_MAX, PRECURSOR_MAX, TEMP_MIN, FUEL_TEMP_MAX,
    COOLANT_TEMP_MAX, GRAPHITE_TEMP_MAX, VOID_MAX, CONCENTRATION_MAX, RHO_MIN, RHO_MAX,
    UNITS_MAX, GRID_SIZE, MAX_NEIGHBORS, NUM_CONTROL_RODS, WORTH_MANUAL, WORTH_AUTOMATIC,
    WORTH_SHORTENED, WORTH_EMERGENCY};
use crate::rods::{RodType, RodLabel, ControlRod, wf_rod, wf_rods};

/// State of a single fuel channel: identity and position, independent
/// thermal state, thermal-hydraulic parameters, neutronics (with its own
/// six precursor groups), poisoning, fuel state, optional control-rod
/// linkage, the neighbor list for diffusion, and the local reactivity
/// contribution.
#[derive(Clone, Debug)]
pub struct FuelChannel {
    /// Stable index of the channel.
    pub id: usize,
    /// Grid column.
    pub grid_x: i32,
    /// Grid row.
    pub grid_y: i32,
    /// Physical x position from core center, fixed-point cm.
    pub x: i64,
    /// Physical y position from core center, fixed-point cm.
    pub y: i64,
    /// Fuel temperature, fixed-point K.
    pub fuel_temp: i64,
    /// Coolant temperature, fixed-point K.
    pub coolant_temp: i64,
    /// Graphite moderator temperature, fixed-point K.
    pub graphite_temp: i64,
    /// Void fraction, fixed-point percent.
    pub coolant_void: i64,
    /// Coolant pressure, fixed-point MPa.
    pub pressure: i64,
    /// Coolant mass flow rate, fixed-point kg/s.
    pub flow_rate: i64,
    /// Coolant inlet temperature, fixed-point K.
    pub inlet_temp: i64,
    /// Coolant outlet temperature, fixed-point K.
    pub outlet_temp: i64,
    /// Local neutron flux, relative units (1.0 = nominal).
    pub neutron_flux: i64,
    /// Total delayed-neutron precursors: the sum of the six groups.
    pub precursors: i64,
    /// The six delayed-neutron precursor groups of this channel.
    pub precursor_groups: [i64; 6],
    /// Local power density, fixed-point MW/m^3.
    pub power_density: i64,
    /// Channel thermal power, fixed-point MW.
    pub local_power: i64,
    /// I-135 concentration, relative units.
    pub iodine_135: i64,
    /// Xe-135 concentration, relative units.
    pub xenon_135: i64,
    /// Fuel burnup, fixed-point MWd/kgU.
    pub burnup: i64,
    /// U-235 enrichment, fixed-point percent.
    pub enrichment: i64,
    /// Whether a control rod is linked to this cell.
    pub has_control_rod: bool,
    /// Index of the linked control rod, if any.
    pub control_rod_id: Option<usize>,
    /// Position of the linked rod (withdrawn when there is none).
    pub local_rod_position: i64,
    /// Indices of the neighboring channels (von Neumann, at most four).
    pub neighbors: Vec<usize>,
    /// Local reactivity contribution.
    pub local_reactivity: i64,
}

/// A channel in a well-formed state, with its neighbor indices bounded
/// by the channel count `n`.
pub open spec fn wf_channel(c: FuelChannel, n: int) -> bool {
    &&& NEUTRON_MIN <= c.neutron_flux <= NEUTRON_MAX
    &&& forall|g: int| 0 <= g < 6 ==> 0 <= #[trigger] c.precursor_groups[g] <= PRECURSOR_MAX
    &&& 0 <= c.precursors <= 6 * PRECURSOR_MAX
    &&& TEMP_MIN <= c.fuel_temp <= FUEL_TEMP_MAX
    &&& TEMP_MIN <= c.coolant_temp <= COOLANT_TEMP_MAX
    &&& TEMP_MIN <= c.graphite_temp <= GRAPHITE_TEMP_MAX
    &&& 0 <= c.coolant_void <= VOID_MAX
    &&& 0 <= c.iodine_135 <= CONCENTRATION_MAX
    &&& 0 <= c.xenon_135 <= CONCENTRATION_MAX
    &&& 0 <= c.local_power <= 100_000_000_000_000
    &&& RHO_MIN <= c.local_reactivity <= RHO_MAX
    &&& 0 <= c.grid_x < GRID_SIZE
    &&& 0 <= c.grid_y < GRID_SIZE
    &&& 0 <= c.local_rod_position <= SCALE
    &&& 0 <= c.flow_rate <= 1_000_000_000_000
    &&& 0 <= c.pressure <= 100_000_000_000
    &&& 0 <= c.inlet_temp <= 3_000_000_000_000
    &&& 0 <= c.outlet_temp <= 3_000_000_000_000
    &&& c.neighbors@.len() <= MAX_NEIGHBORS
    &&& forall|k: int| 0 <= k < c.neighbors@.len() ==> #[trigger] c.neighbors@[k] < n
}

/// A well-formed channel list: every channel well-formed against the
/// list's own length, and few enough channels that sums stay in range.
pub open spec fn wf_channels(s: Seq<FuelChannel>) -> bool {
    &&& s.len() <= UNITS_MAX
    &&& forall|i: int| 0 <= i < s.len() ==> wf_channel(#[trigger] s[i], s.len() as int)
}

/// Physical coordinate (fixed-point cm from core center) of grid index
/// `g` on a grid of `size` cells of 25 cm each.
pub open spec fn spec_grid_to_cm(g: int, size: int) -> int {
    (2 * g + 1 - size) * 12_500_000_000
}

/// Physical coordinate of grid index `g` (see [`spec_grid_to_cm`]).
pub fn grid_to_cm(g: i32, size: i32) -> (r: i64)
    requires
        0 <= g < 64,
        0 < size <= 64,
    ensures
        r as int == spec_grid_to_cm(g as int, size as int),
{
    let f: i64 = 2 * (g as i64) + 1 - (size as i64);
    f * 12_500_000_000
}

/// The identity and placement of a channel: its stable index and grid
/// position on a grid of `size` cells, with the derived physical
/// coordinates.
pub open spec fn spec_channel_identity(c: FuelChannel, id: int, gx: int, gy: int,
    size: int) -> bool {
    &&& c.id == id
    &&& c.grid_x == gx
    &&& c.grid_y == gy
    &&& c.x == spec_grid_to_cm(gx, size)
    &&& c.y == spec_grid_to_cm(gy, size)
}

/// The physical fields of a channel in the cold-shutdown state: room
/// temperatures, no void, nominal hydraulics, a tiny subcritical neutron
/// source, fresh fuel, no poison and no linked rod.
pub open spec fn spec_cold_channel_fields(c: FuelChannel) -> bool {
    &&& c.fuel_temp == 300_000_000_000
    &&& c.coolant_temp == 300_000_000_000
    &&& c.graphite_temp == 300_000_000_000
    &&& c.coolant_void == 0
    &&& c.pressure == 7_000_000_000
    &&& c.flow_rate == 5_500_000_000
    &&& c.inlet_temp == 543_000_000_000
    &&& c.outlet_temp == 557_000_000_000
    &&& c.neutron_flux == 1_000
    &&& c.precursors == 0
    &&& forall|g: int| 0 <= g < 6 ==> #[trigger] c.precursor_groups[g] == 0
    &&& c.power_density == 0
    &&& c.local_power == 0
    &&& c.iodine_135 == 0
    &&& c.xenon_135 == 0
    &&& c.burnup == 0
    &&& c.enrichment == 2_000_000_000
    &&& c.has_control_rod == false
    &&& c.control_rod_id is None
    &&& c.local_rod_position == SCALE
    &&& c.local_reactivity == 0
}

/// Whether `c` is a fresh fuel channel in the cold-shutdown state at the
/// given grid position (on a grid of `size` cells), with no neighbors
/// yet.
pub open spec fn spec_is_default_channel(c: FuelChannel, id: int, gx: int, gy: int,
    size: int) -> bool {
    &&& spec_channel_identity(c, id, gx, gy, size)
    &&& spec_cold_channel_fields(c)
    &&& c.neighbors@ == Seq::<usize>::empty()
}

/// Build a fresh channel in the cold-shutdown state (see
/// [`spec_is_default_channel`]).
pub fn default_channel(id: usize, gx: i32, gy: i32, size: i32) -> (r: FuelChannel)
    requires
        0 <= gx < 64,
        0 <= gy < 64,
        0 < size <= 64,
        gx < size,
        gy < size,
        size <= GRID_SIZE,
    ensures
        spec_is_default_channel(r, id as int, gx as int, gy as int, size as int),
        wf_channel(r, 0),
{
    let x: i64 = grid_to_cm(gx, size);
    let y: i64 = grid_to_cm(gy, size);
    let r = FuelChannel {
        id,
        grid_x: gx,
        grid_y: gy,
        x,
        y,
        fuel_temp: 300_000_000_000,
        coolant_temp: 300_000_000_000,
        graphite_temp: 300_000_000_000,
        coolant_void: 0,
        pressure: 7_000_000_000,
        flow_rate: 5_500_000_000,
        inlet_temp: 543_000_000_000,
        outlet_temp: 557_000_000_000,
        neutron_flux: 1_000,
        precursors: 0,
        precursor_groups: [0i64; 6],
        power_density: 0,
        local_power: 0,
        iodine_135: 0,
        xenon_135: 0,
        burnup: 0,
        enrichment: 2_000_000_000,
        has_control_rod: false,
        control_rod_id: None,
        local_rod_position: SCALE,
        neighbors: Vec::new(),
        local_reactivity: 0,
    };
    proof {
        assert(r.neighbors@ =~= Seq::<usize>::empty());
    }
    r
}

/// Whether a coordinate pair lies on the channel grid.
pub open spec fn spec_on_grid(gx: int, gy: int) -> bool {
    0 <= gx < GRID_SIZE && 0 <= gy < GRID_SIZE
}

/// The grid coordinates of a layout list that lie on the grid, in
/// order: coordinates off the grid are dropped (malformed input is
/// substituted, not propagated).
pub open spec fn spec_valid_coords(coords: Seq<(i32, i32)>) -> Seq<(i32, i32)>
    decreases coords.len(),
{
    if coords.len() == 0 {
        Seq::empty()
    } else {
        let rest = spec_valid_coords(coords.drop_last());
        let c = coords.last();
        if spec_on_grid(c.0 as int, c.1 as int) {
            rest.push(c)
        } else {
            rest
        }
    }
}

/// Build the channel list from external layout coordinates: one fresh
/// cold-shutdown channel per valid coordinate, with sequential indices.
pub fn channels_from_grid(coords: &Vec<(i32, i32)>) -> (r: Vec<FuelChannel>)
    requires
        coords@.len() <= UNITS_MAX,
    ensures
        r@.len() == spec_valid_coords(coords@).len(),
        forall|j: int| 0 <= j < r@.len() ==> spec_is_default_channel(#[trigger] r@[j], j,
            spec_valid_coords(coords@)[j].0 as int, spec_valid_coords(coords@)[j].1 as int,
            GRID_SIZE as int),
        wf_channels(r@),
{
    let mut out: Vec<FuelChannel> = Vec::new();
    let mut i: usize = 0;
    proof {
        assert(coords@.take(0) =~= Seq::<(i32, i32)>::empty());
    }
    while i < coords.len()
        invariant
            0 <= i <= coords@.len(),
            coords@.len() <= UNITS_MAX,
            out@.len() == spec_valid_coords(coords@.take(i as int)).len(),
            forall|j: int| 0 <= j < out@.len() ==> spec_is_default_channel(#[trigger] out@[j],
                j, spec_valid_coords(coords@.take(i as int))[j].0 as int,
                spec_valid_coords(coords@.take(i as int))[j].1 as int, GRID_SIZE as int),
            forall|j: int| 0 <= j < out@.len() ==> wf_channel(#[trigger] out@[j], 0),
            out@.len() <= i,
        decreases coords@.len() - i,
    {
        let (gx, gy): (i32, i32) = coords[i];
        proof {
            assert(coords@.take(i + 1).drop_last() =~= coords@.take(i as int));
            assert(coords@.take(i + 1).last() == coords@[i as int]);
        }
        if 0 <= gx && gx < GRID_SIZE && 0 <= gy && gy < GRID_SIZE {
            let c = default_channel(out.len(), gx, gy, GRID_SIZE);
            out.push(c);
        }
        i = i + 1;
    }
    proof {
        assert(coords@.take(coords@.len() as int) =~= coords@);
        assert forall|j: int| 0 <= j < out@.len() implies wf_channel(#[trigger] out@[j],
            out@.len() as int) by {
            assert(spec_is_default_channel(out@[j], j, spec_valid_coords(coords@)[j].0 as int,
                spec_valid_coords(coords@)[j].1 as int, GRID_SIZE as int));
            assert(out@[j].neighbors@.len() == 0);
            assert(wf_channel(out@[j], 0));
        };
    }
    out
}

/// Whether a fallback grid cell lies inside the circular core (the
/// synthetic layout uses a 41 by 41 grid).
pub open spec fn spec_in_fallback_circle(gx: int, gy: int) -> bool {
    (2 * gx + 1 - 41) * (2 * gx + 1 - 41) + (2 * gy + 1 - 41) * (2 * gy + 1 - 41) <= 41 * 41
}

/// The fallback cell coordinates up to flat scan index `k`: a square
/// grid scan keeping the cells inside the circular core.
pub open spec fn spec_fallback_cells(k: nat) -> Seq<(int, int)>
    decreases k,
{
    if k == 0 {
        Seq::empty()
    } else {
        let rest = spec_fallback_cells((k - 1) as nat);
        let gx: int = ((k - 1) as int) / 41;
        let gy: int = ((k - 1) as int) % 41;
        if spec_in_fallback_circle(gx, gy) {
            rest.push((gx, gy))
        } else {
            rest
        }
    }
}

/// Generate the synthetic fallback channel layout: a circular
/// arrangement of cells on a 41 by 41 grid, used when no external layout
/// is available.
pub fn create_fallback_channels() -> (r: Vec<FuelChannel>)
    ensures
        r@.len() == spec_fallback_cells((41 * 41) as nat).len(),
        forall|j: int| 0 <= j < r@.len() ==> spec_is_default_channel(#[trigger] r@[j], j,
            spec_fallback_cells((41 * 41) as nat)[j].0, spec_fallback_cells((41 * 41) as nat)[
            j].1, 41),
        wf_channels(r@),
{
    let mut out: Vec<FuelChannel> = Vec::new();
    let mut k: usize = 0;
    while k < 41 * 41
        invariant
            0 <= k <= 41 * 41,
            out@.len() == spec_fallback_cells(k as nat).len(),
            forall|j: int| 0 <= j < out@.len() ==> spec_is_default_channel(#[trigger] out@[j],
                j, spec_fallback_cells(k as nat)[j].0, spec_fallback_cells(k as nat)[j].1, 41),
            forall|j: int| 0 <= j < out@.len() ==> wf_channel(#[trigger] out@[j], 0),
            out@.len() <= k,
        decreases 41 * 41 - k,
    {
        let gx: usize = k / 41;
        let gy: usize = k % 41;
        proof {
            crate::fx::lemma_div_le(k as int, 1680, 41);
            vstd::arithmetic::div_mod::lemma_fundamental_div_mod_converse_div(1680, 41, 40,
                40);
        }
        let fx_i: i64 = 2 * (gx as i64) + 1 - 41;
        let fy_i: i64 = 2 * (gy as i64) + 1 - 41;
        proof {
            assert(0 <= fx_i * fx_i <= 10_000 && 0 <= fy_i * fy_i <= 10_000)
                by (nonlinear_arith)
                requires
                    -41 <= fx_i <= 41,
                    -41 <= fy_i <= 41,
            ;
        }
        if fx_i * fx_i + fy_i * fy_i <= 41 * 41 {
            let c = default_channel(out.len(), gx as i32, gy as i32, 41);
            out.push(c);
        }
        k = k + 1;
    }
    proof {
        assert forall|j: int| 0 <= j < out@.len() implies wf_channel(#[trigger] out@[j],
            out@.len() as int) by {
            assert(spec_is_default_channel(out@[j], j, spec_fallback_cells((41 * 41) as nat)[
                j].0, spec_fallback_cells((41 * 41) as nat)[j].1, 41));
            assert(out@[j].neighbors@.len() == 0);
            assert(wf_channel(out@[j], 0));
        };
    }
    out
}

/// Category of the `i`-th fallback rod: the first 24 are emergency rods,
/// the next 24 automatic, the next 24 shortened, the remainder manual.
pub open spec fn spec_fallback_rod_type(i: int) -> RodType {
    if i < 24 {
        RodType::Emergency
    } else if i < 48 {
        RodType::Automatic
    } else if i < 72 {
        RodType::Shortened
    } else {
        RodType::Manual
    }
}

/// Layout label of the `i`-th fallback rod.
pub open spec fn spec_fallback_rod_label(i: int) -> RodLabel {
    if i < 24 {
        RodLabel::Az
    } else if i < 48 {
        RodLabel::Ar
    } else if i < 72 {
        RodLabel::Usp
    } else {
        RodLabel::Rr
    }
}

/// Worth of a rod of the given category.
pub open spec fn spec_type_worth(t: RodType) -> int {
    match t {
        RodType::Emergency => WORTH_EMERGENCY as int,
        RodType::Automatic => WORTH_AUTOMATIC as int,
        RodType::Shortened => WORTH_SHORTENED as int,
        RodType::Manual => WORTH_MANUAL as int,
    }
}

/// Worth of a rod of the given category (see [`spec_type_worth`]).
pub fn type_worth(t: RodType) -> (r: i64)
    ensures
        r as int == spec_type_worth(t),
        0 < r <= WORTH_EMERGENCY,
{
    match t {
        RodType::Emergency => WORTH_EMERGENCY,
        RodType::Automatic => WORTH_AUTOMATIC,
        RodType::Shortened => WORTH_SHORTENED,
        RodType::Manual => WORTH_MANUAL,
    }
}

/// A fully inserted rod of the given identity, position and category.
pub open spec fn spec_new_rod(id: int, gx: int, gy: int, size: int, t: RodType, label: RodLabel)
    -> ControlRod {
    ControlRod {
        id: id as usize,
        grid_x: gx as i32,
        grid_y: gy as i32,
        x: spec_grid_to_cm(gx, size) as i64,
        y: spec_grid_to_cm(gy, size) as i64,
        position: 0,
        rod_type: t,
        worth: spec_type_worth(t) as i64,
        channel_type: label,
    }
}

/// Whether a fallback cell carries a control rod: a sparse sub-lattice
/// of the circular core.
pub open spec fn spec_fallback_rod_cell(gx: int, gy: int) -> bool {
    spec_in_fallback_circle(gx, gy) && (3 * gx + gy) % 6 == 0
}

/// The synthetic fallback rod layout up to flat cell index `k`, capped
/// at the expected rod count.
pub open spec fn spec_fallback_rods_upto(k: nat) -> Seq<ControlRod>
    decreases k,
{
    if k == 0 {
        Seq::empty()
    } else {
        let rest = spec_fallback_rods_upto((k - 1) as nat);
        let gx: int = ((k - 1) as int) / 41;
        let gy: int = ((k - 1) as int) % 41;
        if spec_fallback_rod_cell(gx, gy) && rest.len() < NUM_CONTROL_RODS {
            rest.push(spec_new_rod(rest.len() as int, gx, gy, 41,
                spec_fallback_rod_type(rest.len() as int),
                spec_fallback_rod_label(rest.len() as int)))
        } else {
            rest
        }
    }
}

/// Generate the synthetic fallback rod arrangement: rods of the expected
/// cardinalities on a sparse sub-lattice of the circular core, all fully
/// inserted (shutdown).
pub fn create_fallback_control_rods() -> (r: Vec<ControlRod>)
    ensures
        r@ == spec_fallback_rods_upto((41 * 41) as nat),
        wf_rods(r@),
{
    let mut out: Vec<ControlRod> = Vec::new();
    let mut k: usize = 0;
    while k < 41 * 41
        invariant
            0 <= k <= 41 * 41,
            out@ == spec_fallback_rods_upto(k as nat),
            out@.len() <= NUM_CONTROL_RODS,
            forall|j: int| 0 <= j < out@.len() ==> wf_rod(#[trigger] out@[j]),
        decreases 41 * 41 - k,
    {
        let gx: usize = k / 41;
        let gy: usize = k % 41;
        proof {
            crate::fx::lemma_div_le(k as int, 1680, 41);
            vstd::arithmetic::div_mod::lemma_fundamental_div_mod_converse_div(1680, 41, 40,
                40);
        }
        let fx_i: i64 = 2 * (gx as i64) + 1 - 41;
        let fy_i: i64 = 2 * (gy as i64) + 1 - 41;
        proof {
            assert(0 <= fx_i * fx_i <= 10_000 && 0 <= fy_i * fy_i <= 10_000)
                by (nonlinear_arith)
                requires
                    -41 <= fx_i <= 41,
                    -41 <= fy_i <= 41,
            ;
        }
        if fx_i * fx_i + fy_i * fy_i <= 41 * 41 && (3 * gx + gy) % 6 == 0
            && out.len() < NUM_CONTROL_RODS {
            let id: usize = out.len();
            let t: RodType = if id < 24 {
                RodType::Emergency
            } else if id < 48 {
                RodType::Automatic
            } else if id < 72 {
                RodType::Shortened
            } else {
                RodType::Manual
            };
            let label: RodLabel = if id < 24 {
                RodLabel::Az
            } else if id < 48 {
                RodLabel::Ar
            } else if id < 72 {
                RodLabel::Usp
            } else {
                RodLabel::Rr
            };
            let w: i64 = type_worth(t);
            let x: i64 = grid_to_cm(gx as i32, 41);
            let y: i64 = grid_to_cm(gy as i32, 41);
            let rod = ControlRod {
                id,
                grid_x: gx as i32,
                grid_y: gy as i32,
                x,
                y,
                position: 0,
                rod_type: t,
                worth: w,
                channel_type: label,
            };
            out.push(rod);
        }
        k = k + 1;
    }
    out
}

/// Rod category belonging to a layout label.
pub open spec fn spec_label_type(label: RodLabel) -> RodType {
    match label {
        RodLabel::Rr => RodType::Manual,
        RodLabel::Ar => RodType::Automatic,
        RodLabel::Lar => RodType::Automatic,
        RodLabel::Usp => RodType::Shortened,
        RodLabel::Az => RodType::Emergency,
    }
}

/// Rod category belonging to a layout label (see [`spec_label_type`]).
pub fn label_type(label: RodLabel) -> (r: RodType)
    ensures
        r == spec_label_type(label),
{
    match label {
        RodLabel::Rr => RodType::Manual,
        RodLabel::Ar => RodType::Automatic,
        RodLabel::Lar => RodType::Automatic,
        RodLabel::Usp => RodType::Shortened,
        RodLabel::Az => RodType::Emergency,
    }
}

/// Rods built from a list of labeled grid coordinates: coordinates off
/// the grid are dropped, the rest become fully inserted rods with
/// sequential indices, category and worth derived from the label.
pub open spec fn spec_rods_from_grid(coords: Seq<(i32, i32, RodLabel)>) -> Seq<ControlRod>
    decreases coords.len(),
{
    if coords.len() == 0 {
        Seq::empty()
    } else {
        let rest = spec_rods_from_grid(coords.drop_last());
        let c = coords.last();
        if spec_on_grid(c.0 as int, c.1 as int) {
            rest.push(spec_new_rod(rest.len() as int, c.0 as int, c.1 as int, GRID_SIZE as int,
                spec_label_type(c.2), c.2))
        } else {
            rest
        }
    }
}

/// Build the rod bank from external layout data (see
/// [`spec_rods_from_grid`]).
pub fn rods_from_grid(coords: &Vec<(i32, i32, RodLabel)>) -> (r: Vec<ControlRod>)
    requires
        coords@.len() <= UNITS_MAX,
    ensures
        r@ == spec_rods_from_grid(coords@),
        wf_rods(r@),
{
    let mut out: Vec<ControlRod> = Vec::new();
    let mut i: usize = 0;
    proof {
        assert(coords@.take(0) =~= Seq::<(i32, i32, RodLabel)>::empty());
    }
    while i < coords.len()
        invariant
            0 <= i <= coords@.len(),
            coords@.len() <= UNITS_MAX,
            out@ == spec_rods_from_grid(coords@.take(i as int)),
            out@.len() <= i,
            forall|j: int| 0 <= j < out@.len() ==> wf_rod(#[trigger] out@[j]),
        decreases coords@.len() - i,
    {
        let (gx, gy, label): (i32, i32, RodLabel) = coords[i];
        proof {
            assert(coords@.take(i + 1).drop_last() =~= coords@.take(i as int));
            assert(coords@.take(i + 1).last() == coords@[i as int]);
        }
        if 0 <= gx && gx < GRID_SIZE && 0 <= gy && gy < GRID_SIZE {
            let t: RodType = label_type(label);
            let w: i64 = type_worth(t);
            let x: i64 = grid_to_cm(gx, GRID_SIZE);
            let y: i64 = grid_to_cm(gy, GRID_SIZE);
            let rod = ControlRod {
                id: out.len(),
                grid_x: gx,
                grid_y: gy,
                x,
                y,
                position: 0,
                rod_type: t,
                worth: w,
                channel_type: label,
            };
            out.push(rod);
        }
        i = i + 1;
    }
    proof {
        assert(coords@.take(coords@.len() as int) =~= coords@);
    }
    out
}


/// Index of the first channel at the given grid position, searching from
/// `i`; the length when there is none.
pub open spec fn spec_first_channel_at(s: Seq<FuelChannel>, gx: int, gy: int, i: int) -> int
    decreases s.len() - i when 0 <= i <= s.len()
{
    if i >= s.len() {
        s.len() as int
    } else if s[i].grid_x == gx && s[i].grid_y == gy {
        i
    } else {
        spec_first_channel_at(s, gx, gy, i + 1)
    }
}

/// Find the first channel at a grid position; returns the channel count
/// when there is none (see [`spec_first_channel_at`]).
pub fn find_channel_at(channels: &Vec<FuelChannel>, gx: i32, gy: i32) -> (r: usize)
    ensures
        r as int == spec_first_channel_at(channels@, gx as int, gy as int, 0),
        r <= channels@.len(),
        r < channels@.len() ==> channels@[r as int].grid_x == gx && channels@[
            r as int].grid_y == gy,
{
    let n: usize = channels.len();
    let mut i: usize = 0;
    while i < n
        invariant
            0 <= i <= n,
            n == channels@.len(),
            spec_first_channel_at(channels@, gx as int, gy as int, 0)
                == spec_first_channel_at(channels@, gx as int, gy as int, i as int),
        decreases n - i,
    {
        if channels[i].grid_x == gx && channels[i].grid_y == gy {
            proof {
                assert(spec_first_channel_at(channels@, gx as int, gy as int, i as int)
                    == i as int);
            }
            return i;
        }
        proof {
            assert(spec_first_channel_at(channels@, gx as int, gy as int, i as int)
                == spec_first_channel_at(channels@, gx as int, gy as int, i + 1));
        }
        i = i + 1;
    }
    proof {
        assert(spec_first_channel_at(channels@, gx as int, gy as int, n as int)
            == channels@.len() as int);
    }
    n
}

/// The neighbor list of channel `i`: the first channel found one cell
/// up, down, left and right of it, in that order, where one exists.
pub open spec fn spec_channel_neighbors(s: Seq<FuelChannel>, i: int) -> Seq<usize> {
    let gx: int = s[i].grid_x as int;
    let gy: int = s[i].grid_y as int;
    let up: int = spec_first_channel_at(s, gx, gy - 1, 0);
    let down: int = spec_first_channel_at(s, gx, gy + 1, 0);
    let left: int = spec_first_channel_at(s, gx - 1, gy, 0);
    let right: int = spec_first_channel_at(s, gx + 1, gy, 0);
    let a0: Seq<usize> = if up < s.len() { seq![up as usize] } else { seq![] };
    let a1: Seq<usize> = if down < s.len() { seq![down as usize] } else { seq![] };
    let a2: Seq<usize> = if left < s.len() { seq![left as usize] } else { seq![] };
    let a3: Seq<usize> = if right < s.len() { seq![right as usize] } else { seq![] };
    a0 + a1 + a2 + a3
}

/// Two channels equal in every field except possibly the neighbor list.
pub open spec fn spec_same_but_neighbors(a: FuelChannel, b: FuelChannel) -> bool {
    &&& a.id == b.id
    &&& a.grid_x == b.grid_x
    &&& a.grid_y == b.grid_y
    &&& a.x == b.x
    &&& a.y == b.y
    &&& a.fuel_temp == b.fuel_temp
    &&& a.coolant_temp == b.coolant_temp
    &&& a.graphite_temp == b.graphite_temp
    &&& a.coolant_void == b.coolant_void
    &&& a.pressure == b.pressure
    &&& a.flow_rate == b.flow_rate
    &&& a.inlet_temp == b.inlet_temp
    &&& a.outlet_temp == b.outlet_temp
    &&& a.neutron_flux == b.neutron_flux
    &&& a.precursors == b.precursors
    &&& a.precursor_groups == b.precursor_groups
    &&& a.power_density == b.power_density
    &&& a.local_power == b.local_power
    &&& a.iodine_135 == b.iodine_135
    &&& a.xenon_135 == b.xenon_135
    &&& a.burnup == b.burnup
    &&& a.enrichment == b.enrichment
    &&& a.has_control_rod == b.has_control_rod
    &&& a.control_rod_id == b.control_rod_id
    &&& a.local_rod_position == b.local_rod_position
    &&& a.local_reactivity == b.local_reactivity
}

/// Deep equality of two channels (the neighbor list compared by
/// content).
pub open spec fn spec_channel_eq(a: FuelChannel, b: FuelChannel) -> bool {
    spec_same_but_neighbors(a, b) && a.neighbors@ == b.neighbors@
}

/// An exact copy of a channel.
pub fn copy_channel(c: &FuelChannel) -> (r: FuelChannel)
    ensures
        spec_channel_eq(r, *c),
{
    let mut nb: Vec<usize> = Vec::new();
    let mut k: usize = 0;
    let n_nb: usize = c.neighbors.len();
    while k < n_nb
        invariant
            0 <= k <= n_nb,
            n_nb == c.neighbors@.len(),
            nb@ == c.neighbors@.take(k as int),
        decreases n_nb - k,
    {
        nb.push(c.neighbors[k]);
        proof {
            assert(nb@ =~= c.neighbors@.take(k + 1));
        }
        k = k + 1;
    }
    proof {
        assert(nb@ =~= c.neighbors@);
    }
    FuelChannel {
        id: c.id,
        grid_x: c.grid_x,
        grid_y: c.grid_y,
        x: c.x,
        y: c.y,
        fuel_temp: c.fuel_temp,
        coolant_temp: c.coolant_temp,
        graphite_temp: c.graphite_temp,
        coolant_void: c.coolant_void,
        pressure: c.pressure,
        flow_rate: c.flow_rate,
        inlet_temp: c.inlet_temp,
        outlet_temp: c.outlet_temp,
        neutron_flux: c.neutron_flux,
        precursors: c.precursors,
        precursor_groups: c.precursor_groups,
        power_density: c.power_density,
        local_power: c.local_power,
        iodine_135: c.iodine_135,
        xenon_135: c.xenon_135,
        burnup: c.burnup,
        enrichment: c.enrichment,
        has_control_rod: c.has_control_rod,
        control_rod_id: c.control_rod_id,
        local_rod_position: c.local_rod_position,
        neighbors: nb,
        local_reactivity: c.local_reactivity,
    }
}

/// Build the 4-connectivity neighbor graph: each channel's neighbor list
/// becomes the indices of the channels exactly one grid cell up, down,
/// left and right of it. Nothing else changes.
pub fn build_neighbor_map(channels: &mut Vec<FuelChannel>)
    requires
        wf_channels(old(channels)@),
    ensures
        wf_channels(final(channels)@),
        final(channels)@.len() == old(channels)@.len(),
        forall|i: int| 0 <= i < final(channels)@.len() ==> spec_same_but_neighbors(
            #[trigger] final(channels)@[i], old(channels)@[i]),
        forall|i: int| 0 <= i < final(channels)@.len() ==> #[trigger] final(channels)@[
            i].neighbors@ == spec_channel_neighbors(old(channels)@, i),
{
    let ghost orig = channels@;
    let n: usize = channels.len();
    let mut lists: Vec<[usize; 4]> = Vec::new();
    let mut counts: Vec<usize> = Vec::new();
    let mut i: usize = 0;
    while i < n
        invariant
            0 <= i <= n,
            n == channels@.len(),
            channels@ == orig,
            wf_channels(orig),
            lists@.len() == i,
            counts@.len() == i,
            forall|t: int| 0 <= t < i ==> #[trigger] counts@[t]
                <= 4 && spec_neighbors_listed(orig, t, lists@[t], counts@[t] as int),
        decreases n - i,
    {
        let gx: i32 = channels[i].grid_x;
        let gy: i32 = channels[i].grid_y;
        let up: usize = find_channel_at(channels, gx, gy - 1);
        let down: usize = find_channel_at(channels, gx, gy + 1);
        let left: usize = find_channel_at(channels, gx - 1, gy);
        let right: usize = find_channel_at(channels, gx + 1, gy);
        let mut buf: [usize; 4] = [0; 4];
        let mut cnt: usize = 0;
        if up < n {
            buf[0] = up;
            cnt = 1;
        }
        if down < n {
            buf[cnt] = down;
            cnt = cnt + 1;
        }
        if left < n {
            buf[cnt] = left;
            cnt = cnt + 1;
        }
        if right < n {
            buf[cnt] = right;
            cnt = cnt + 1;
        }
        proof {
            assert(spec_neighbors_listed(orig, i as int, buf, cnt as int)) by {
                assert(spec_prefix_of(buf, cnt as int) =~= spec_channel_neighbors(orig,
                    i as int));
            };
        }
        lists.push(buf);
        counts.push(cnt);
        i = i + 1;
    }
    let mut j: usize = 0;
    while j < n
        invariant
            0 <= j <= n,
            n == channels@.len(),
            n == orig.len(),
            wf_channels(orig),
            lists@.len() == n,
            counts@.len() == n,
            forall|t: int| 0 <= t < n ==> #[trigger] counts@[t]
                <= 4 && spec_neighbors_listed(orig, t, lists@[t], counts@[t] as int),
            forall|t: int| j <= t < n ==> #[trigger] channels@[t] == orig[t],
            forall|t: int| 0 <= t < j ==> spec_same_but_neighbors(#[trigger] channels@[t],
                orig[t]),
            forall|t: int| 0 <= t < j ==> #[trigger] channels@[t].neighbors@
                == spec_channel_neighbors(orig, t),
            forall|t: int| 0 <= t < j ==> #[trigger] channels@[t].neighbors@.len() <= 4
                && (forall|k: int| 0 <= k < channels@[t].neighbors@.len()
                    ==> #[trigger] channels@[t].neighbors@[k] < n),
        decreases n - j,
    {
        let buf: [usize; 4] = lists[j];
        let cnt: usize = counts[j];
        let mut nb: Vec<usize> = Vec::new();
        let mut k: usize = 0;
        while k < cnt
            invariant
                0 <= k <= cnt,
                cnt <= 4,
                nb@ == spec_prefix_of(buf, k as int),
                nb@.len() == k,
            decreases cnt - k,
        {
            nb.push(buf[k]);
            proof {
                assert(nb@ =~= spec_prefix_of(buf, k + 1));
            }
            k = k + 1;
        }
        let c = &channels[j];
        let updated = FuelChannel {
            id: c.id,
            grid_x: c.grid_x,
            grid_y: c.grid_y,
            x: c.x,
            y: c.y,
            fuel_temp: c.fuel_temp,
            coolant_temp: c.coolant_temp,
            graphite_temp: c.graphite_temp,
            coolant_void: c.coolant_void,
            pressure: c.pressure,
            flow_rate: c.flow_rate,
            inlet_temp: c.inlet_temp,
            outlet_temp: c.outlet_temp,
            neutron_flux: c.neutron_flux,
            precursors: c.precursors,
            precursor_groups: c.precursor_groups,
            power_density: c.power_density,
            local_power: c.local_power,
            iodine_135: c.iodine_135,
            xenon_135: c.xenon_135,
            burnup: c.burnup,
            enrichment: c.enrichment,
            has_control_rod: c.has_control_rod,
            control_rod_id: c.control_rod_id,
            local_rod_position: c.local_rod_position,
            neighbors: nb,
            local_reactivity: c.local_reactivity,
        };
        channels.set(j, updated);
        j = j + 1;
    }
    proof {
        assert forall|i2: int| 0 <= i2 < channels@.len() implies wf_channel(
            #[trigger] channels@[i2], channels@.len() as int) by {
            assert(spec_same_but_neighbors(channels@[i2], orig[i2]));
            assert(wf_channel(orig[i2], orig.len() as int));
        };
    }
}

/// The first `cnt` entries of a neighbor buffer, as a sequence.
pub open spec fn spec_prefix_of(buf: [usize; 4], cnt: int) -> Seq<usize> {
    Seq::new(cnt as nat, |k: int| buf[k])
}

/// The buffer's first `cnt` entries are exactly the neighbor list of
/// channel `t`, and all of them are valid indices.
pub open spec fn spec_neighbors_listed(s: Seq<FuelChannel>, t: int, buf: [usize; 4],
    cnt: int) -> bool {
    &&& 0 <= cnt <= 4
    &&& spec_prefix_of(buf, cnt) == spec_channel_neighbors(s, t)
    &&& forall|k: int| 0 <= k < cnt ==> #[trigger] buf[k] < s.len()
}


/// Two channel lists with the same length and the same grid coordinates
/// position for position.
pub open spec fn spec_same_coords(s1: Seq<FuelChannel>, s2: Seq<FuelChannel>) -> bool {
    &&& s1.len() == s2.len()
    &&& forall|j: int| 0 <= j < s1.len() ==> #[trigger] s1[j].grid_x == s2[j].grid_x
        && s1[j].grid_y == s2[j].grid_y
}

/// The first-match search depends on the grid coordinates alone.
pub proof fn lemma_first_channel_at_coords(s1: Seq<FuelChannel>, s2: Seq<FuelChannel>,
    gx: int, gy: int, i: int)
    requires
        spec_same_coords(s1, s2),
        0 <= i <= s1.len(),
    ensures
        spec_first_channel_at(s1, gx, gy, i) == spec_first_channel_at(s2, gx, gy, i),
    decreases s1.len() - i,
{
    if i < s1.len() {
        lemma_first_channel_at_coords(s1, s2, gx, gy, i + 1);
    }
}

/// The neighbor graph depends on the grid coordinates alone: two lists
/// with the same coordinates have the same neighbor lists.
pub proof fn lemma_channel_neighbors_coords(s1: Seq<FuelChannel>, s2: Seq<FuelChannel>,
    i: int)
    requires
        spec_same_coords(s1, s2),
        0 <= i < s1.len(),
    ensures
        spec_channel_neighbors(s1, i) == spec_channel_neighbors(s2, i),
{
    let gx: int = s1[i].grid_x as int;
    let gy: int = s1[i].grid_y as int;
    lemma_first_channel_at_coords(s1, s2, gx, gy - 1, 0);
    lemma_first_channel_at_coords(s1, s2, gx, gy + 1, 0);
    lemma_first_channel_at_coords(s1, s2, gx - 1, gy, 0);
    lemma_first_channel_at_coords(s1, s2, gx + 1, gy, 0);
}

} // verus!
