//! Spatial diffusion coupling: the distance-weighted local control-rod
//! influence of each cell, the neighbor flux exchange, and the sums and
//! averages that derive the global scalar state from the per-cell state.

use vstd::prelude::*;

verus! {

use crate::fx::{SCALE, tdiv, fmul, clip, abs_i, mul_fx, mul_div, clamp_fx, lemma_fmul_fits,
    lemma_muldiv_fits, lemma_tdiv_abs, lemma_div_le};
use crate::params::{ROD_INFLUENCE_RADIUS, LOCAL_ROD_WORTH_MAX,
    DEFAULT_NEIGHBORHOOD_POSITION, spec_gauss_weight, gauss_weight, UNITS_MAX, NEUTRON_MAX};
use crate::rods::{RodType, ControlRod, wf_rods};
use crate::geometry::{FuelChannel, wf_channels, wf_channel};

// ---------------------------------------------------------------------------
// Local rod influence
// ---------------------------------------------------------------------------

/// Gaussian influence weight of a rod on the cell at `(gx, gy)`:
/// emergency rods are excluded (normally fully withdrawn, they would
/// fake local hot spots), as are rods beyond the Manhattan cutoff.
pub open spec fn spec_rod_weight(r: ControlRod, gx: int, gy: int) -> int {
    let dx: int = abs_i(gx - r.grid_x);
    let dy: int = abs_i(gy - r.grid_y);
    if r.rod_type == RodType::Emergency || dx + dy > ROD_INFLUENCE_RADIUS {
        0
    } else {
        spec_gauss_weight(dx * dx + dy * dy)
    }
}

/// Weighted sum of rod positions around a cell.
pub open spec fn spec_wsum(s: Seq<ControlRod>, gx: int, gy: int) -> int
    decreases s.len(),
{
    if s.len() == 0 {
        0
    } else {
        spec_wsum(s.drop_last(), gx, gy) + fmul(s.last().position as int,
            spec_rod_weight(s.last(), gx, gy))
    }
}

/// Total influence weight around a cell.
pub open spec fn spec_wtot(s: Seq<ControlRod>, gx: int, gy: int) -> int
    decreases s.len(),
{
    if s.len() == 0 {
        0
    } else {
        spec_wtot(s.drop_last(), gx, gy) + spec_rod_weight(s.last(), gx, gy)
    }
}

/// Average rod position in a cell's neighborhood: the weighted mean when
/// any rod is near, a neutral default otherwise.
pub open spec fn spec_avg_local_position(s: Seq<ControlRod>, gx: int, gy: int) -> int {
    if spec_wtot(s, gx, gy) > 0 {
        tdiv(spec_wsum(s, gx, gy) * SCALE, spec_wtot(s, gx, gy))
    } else {
        DEFAULT_NEIGHBORHOOD_POSITION as int
    }
}

/// Average position of the whole non-emergency rod bank.
pub open spec fn spec_bank_position_sum(s: Seq<ControlRod>) -> int
    decreases s.len(),
{
    if s.len() == 0 {
        0
    } else {
        spec_bank_position_sum(s.drop_last()) + (if s.last().rod_type == RodType::Emergency {
            0
        } else {
            s.last().position as int
        })
    }
}

/// Number of non-emergency rods in the bank.
pub open spec fn spec_bank_count(s: Seq<ControlRod>) -> int
    decreases s.len(),
{
    if s.len() == 0 {
        0
    } else {
        spec_bank_count(s.drop_last()) + (if s.last().rod_type == RodType::Emergency {
            0int
        } else {
            1int
        })
    }
}

/// Bank-average position of the non-emergency rods, or the neutral
/// default when there are none.
pub open spec fn spec_bank_avg_position(s: Seq<ControlRod>) -> int {
    if spec_bank_count(s) > 0 {
        tdiv(spec_bank_position_sum(s), spec_bank_count(s))
    } else {
        DEFAULT_NEIGHBORHOOD_POSITION as int
    }
}

/// Local rod-worth deviation of a cell: positive where the neighborhood
/// rods sit deeper than the bank average (extra absorption), negative
/// where they are pulled further out (a local hot spot). Zero when the
/// bank is uniform, and zero for a cell with no rod within the cutoff
/// (no local information, so no deviation).
pub open spec fn spec_local_rod_deviation(s: Seq<ControlRod>, gx: int, gy: int) -> int {
    if spec_wtot(s, gx, gy) > 0 {
        fmul(LOCAL_ROD_WORTH_MAX as int, spec_bank_avg_position(s) - spec_avg_local_position(
            s, gx, gy))
    } else {
        0
    }
}

/// Weighted neighborhood sums of rod positions around a cell (see
/// [`spec_wsum`] and [`spec_wtot`]).
pub fn rod_neighborhood_sums(rods: &Vec<ControlRod>, gx: i32, gy: i32) -> (r: (i64, i64))
    requires
        wf_rods(rods@),
        0 <= gx < 64,
        0 <= gy < 64,
    ensures
        r.0 as int == spec_wsum(rods@, gx as int, gy as int),
        r.1 as int == spec_wtot(rods@, gx as int, gy as int),
        0 <= r.0 <= r.1,
        r.1 <= rods@.len() * SCALE,
{
    let mut wsum: i64 = 0;
    let mut wtot: i64 = 0;
    let mut i: usize = 0;
    proof {
        assert(rods@.take(0) =~= Seq::<ControlRod>::empty());
    }
    while i < rods.len()
        invariant
            0 <= i <= rods@.len(),
            wf_rods(rods@),
            0 <= gx < 64,
            0 <= gy < 64,
            wsum as int == spec_wsum(rods@.take(i as int), gx as int, gy as int),
            wtot as int == spec_wtot(rods@.take(i as int), gx as int, gy as int),
            0 <= wsum <= wtot,
            wtot <= i * SCALE,
        decreases rods@.len() - i,
    {
        let rod = &rods[i];
        let dx: i64 = if gx >= rod.grid_x {
            (gx - rod.grid_x) as i64
        } else {
            (rod.grid_x - gx) as i64
        };
        let dy: i64 = if gy >= rod.grid_y {
            (gy - rod.grid_y) as i64
        } else {
            (rod.grid_y - gy) as i64
        };
        let w: i64 = if rod.rod_type == RodType::Emergency || dx + dy > ROD_INFLUENCE_RADIUS
            as i64 {
            0
        } else {
            proof {
                assert(0 <= dx * dx <= 36 && 0 <= dy * dy <= 36) by (nonlinear_arith)
                    requires
                        0 <= dx <= 6,
                        0 <= dy <= 6,
                ;
            }
            gauss_weight(dx * dx + dy * dy)
        };
        proof {
            assert(w as int == spec_rod_weight(rods@[i as int], gx as int, gy as int));
            lemma_fmul_fits(rod.position as int, w as int, SCALE as int, SCALE as int);
            assert(0 <= rod.position as int * (w as int) <= (w as int) * (SCALE as int))
                by (nonlinear_arith)
                requires
                    0 <= rod.position <= SCALE,
                    0 <= w,
            ;
            lemma_tdiv_abs(rod.position as int * (w as int), SCALE as int);
            lemma_div_le(rod.position as int * (w as int), (w as int) * (SCALE as int),
                SCALE as int);
            vstd::arithmetic::div_mod::lemma_div_by_multiple(w as int, SCALE as int);
            assert(rods@.take(i + 1).drop_last() =~= rods@.take(i as int));
            assert(rods@.take(i + 1).last() == rods@[i as int]);
            assert((i + 1) * SCALE == i * SCALE + SCALE) by (nonlinear_arith);
            assert(i * SCALE <= UNITS_MAX * SCALE) by (nonlinear_arith)
                requires
                    0 <= i <= UNITS_MAX,
            ;
        }
        let weighted: i64 = mul_fx(rod.position, w);
        wsum = wsum + weighted;
        wtot = wtot + w;
        i = i + 1;
    }
    proof {
        assert(rods@.take(rods@.len() as int) =~= rods@);
    }
    (wsum, wtot)
}

/// Average rod position in a cell's neighborhood (see
/// [`spec_avg_local_position`]).
pub fn avg_local_position(rods: &Vec<ControlRod>, gx: i32, gy: i32) -> (r: i64)
    requires
        wf_rods(rods@),
        0 <= gx < 64,
        0 <= gy < 64,
    ensures
        r as int == spec_avg_local_position(rods@, gx as int, gy as int),
        0 <= r <= SCALE,
{
    let (wsum, wtot): (i64, i64) = rod_neighborhood_sums(rods, gx, gy);
    if wtot > 0 {
        proof {
            lemma_muldiv_fits(wsum as int, SCALE as int, wtot as int,
                4_100_000_000_000, SCALE as int, 1);
            assert(0 <= wsum as int * (SCALE as int) <= (wtot as int) * (SCALE as int))
                by (nonlinear_arith)
                requires
                    0 <= wsum <= wtot,
            ;
            lemma_tdiv_abs(wsum as int * (SCALE as int), wtot as int);
            vstd::arithmetic::div_mod::lemma_div_pos_is_pos(wsum as int * (SCALE as int),
                wtot as int);
            vstd::arithmetic::div_mod::lemma_multiply_divide_le(wsum as int * (SCALE as int),
                wtot as int, SCALE as int);
        }
        mul_div(wsum, SCALE, wtot)
    } else {
        DEFAULT_NEIGHBORHOOD_POSITION
    }
}

/// Bank-average position of the non-emergency rods (see
/// [`spec_bank_avg_position`]).
pub fn bank_avg_position(rods: &Vec<ControlRod>) -> (r: i64)
    requires
        wf_rods(rods@),
    ensures
        r as int == spec_bank_avg_position(rods@),
        0 <= r <= SCALE,
{
    let mut psum: i64 = 0;
    let mut cnt: i64 = 0;
    let mut i: usize = 0;
    proof {
        assert(rods@.take(0) =~= Seq::<ControlRod>::empty());
    }
    while i < rods.len()
        invariant
            0 <= i <= rods@.len(),
            wf_rods(rods@),
            psum as int == spec_bank_position_sum(rods@.take(i as int)),
            cnt as int == spec_bank_count(rods@.take(i as int)),
            0 <= cnt <= i,
            0 <= psum <= cnt * SCALE,
        decreases rods@.len() - i,
    {
        let rod = &rods[i];
        proof {
            assert(rods@.take(i + 1).drop_last() =~= rods@.take(i as int));
            assert(rods@.take(i + 1).last() == rods@[i as int]);
            assert((cnt + 1) * SCALE == cnt * SCALE + SCALE) by (nonlinear_arith);
            assert(cnt * SCALE <= UNITS_MAX * SCALE) by (nonlinear_arith)
                requires
                    0 <= cnt <= UNITS_MAX,
            ;
        }
        if !matches!(rod.rod_type, RodType::Emergency) {
            psum = psum + rod.position;
            cnt = cnt + 1;
        }
        i = i + 1;
    }
    proof {
        assert(rods@.take(rods@.len() as int) =~= rods@);
    }
    if cnt > 0 {
        proof {
            lemma_tdiv_abs(psum as int, cnt as int);
            vstd::arithmetic::div_mod::lemma_div_pos_is_pos(psum as int, cnt as int);
            vstd::arithmetic::div_mod::lemma_multiply_divide_le(psum as int, cnt as int,
                SCALE as int);
        }
        mul_div(psum, 1, cnt)
    } else {
        DEFAULT_NEIGHBORHOOD_POSITION
    }
}

/// Local rod-worth deviation of a cell (see
/// [`spec_local_rod_deviation`]).
pub fn local_rod_deviation(rods: &Vec<ControlRod>, gx: i32, gy: i32) -> (r: i64)
    requires
        wf_rods(rods@),
        0 <= gx < 64,
        0 <= gy < 64,
    ensures
        r as int == spec_local_rod_deviation(rods@, gx as int, gy as int),
        abs_i(r as int) <= LOCAL_ROD_WORTH_MAX,
{
    let (_, wtot): (i64, i64) = rod_neighborhood_sums(rods, gx, gy);
    if wtot > 0 {
        let bank: i64 = bank_avg_position(rods);
        let local: i64 = avg_local_position(rods, gx, gy);
        proof {
            lemma_fmul_fits(LOCAL_ROD_WORTH_MAX as int, bank - local,
                LOCAL_ROD_WORTH_MAX as int, SCALE as int);
        }
        mul_fx(LOCAL_ROD_WORTH_MAX, bank - local)
    } else {
        0
    }
}

// ---------------------------------------------------------------------------
// Neighbor flux coupling
// ---------------------------------------------------------------------------

/// Sum of `flux_j - flux_i` over the listed neighbors of channel `i`,
/// walking the neighbor list from position `k`.
pub open spec fn spec_nb_flux_diff(s: Seq<FuelChannel>, i: int, k: int) -> int
    decreases s[i].neighbors@.len() - k when 0 <= i < s.len() && 0 <= k <= s[i].neighbors@.len()
        && (forall|t: int| 0 <= t < s[i].neighbors@.len() ==> #[trigger] s[i].neighbors@[t]
        < s.len())
{
    if k >= s[i].neighbors@.len() {
        0
    } else {
        (s[s[i].neighbors@[k] as int].neutron_flux - s[i].neutron_flux) + spec_nb_flux_diff(s,
            i, k + 1)
    }
}

/// Sum of neighbor flux differences of channel `i` (see
/// [`spec_nb_flux_diff`]).
pub fn nb_flux_diff(channels: &Vec<FuelChannel>, i: usize) -> (r: i64)
    requires
        wf_channels(channels@),
        i < channels@.len(),
    ensures
        r as int == spec_nb_flux_diff(channels@, i as int, 0),
        abs_i(r as int) <= 4 * NEUTRON_MAX,
{
    let n_nb: usize = channels[i].neighbors.len();
    let mut acc: i64 = 0;
    let mut k: usize = n_nb;
    proof {
        assert(spec_nb_flux_diff(channels@, i as int, n_nb as int) == 0);
    }
    while k > 0
        invariant
            0 <= k <= n_nb,
            wf_channels(channels@),
            i < channels@.len(),
            n_nb == channels@[i as int].neighbors@.len(),
            n_nb <= 4,
            acc as int == spec_nb_flux_diff(channels@, i as int, k as int),
            abs_i(acc as int) <= (n_nb - k) * NEUTRON_MAX,
        decreases k,
    {
        k = k - 1;
        let j: usize = channels[i].neighbors[k];
        let d: i64 = channels[j].neutron_flux - channels[i].neutron_flux;
        proof {
            assert((n_nb - k) * NEUTRON_MAX <= 4 * NEUTRON_MAX) by (nonlinear_arith)
                requires
                    0 <= n_nb - k <= 4,
            ;
            assert((n_nb - (k + 1)) * NEUTRON_MAX + NEUTRON_MAX == (n_nb - k) * NEUTRON_MAX)
                by (nonlinear_arith);
        }
        acc = acc + d;
    }
    acc
}

// ---------------------------------------------------------------------------
// Sums and averages over the channel list
// ---------------------------------------------------------------------------

/// Sum of a sequence of integers.
pub open spec fn spec_sum(s: Seq<int>) -> int
    decreases s.len(),
{
    if s.len() == 0 {
        0
    } else {
        spec_sum(s.drop_last()) + s.last()
    }
}

/// A sum of elementwise-bounded values is bounded by the count times the
/// bounds.
pub proof fn lemma_sum_bound(s: Seq<int>, lo: int, hi: int)
    requires
        forall|i: int| 0 <= i < s.len() ==> lo <= #[trigger] s[i] <= hi,
    ensures
        s.len() * lo <= spec_sum(s) <= s.len() * hi,
    decreases s.len(),
{
    if s.len() == 0 {
        assert(s.len() * lo == 0) by (nonlinear_arith)
            requires
                s.len() == 0,
        ;
        assert(s.len() * hi == 0) by (nonlinear_arith)
            requires
                s.len() == 0,
        ;
    } else {
        lemma_sum_bound(s.drop_last(), lo, hi);
        assert(s.len() * lo == (s.len() - 1) * lo + lo) by (nonlinear_arith);
        assert(s.len() * hi == (s.len() - 1) * hi + hi) by (nonlinear_arith);
        assert(lo <= s.last() <= hi);
    }
}

/// The mean of a sequence: its sum divided by its length, or a default
/// for an empty sequence.
pub open spec fn spec_mean(s: Seq<int>, dflt: int) -> int {
    if s.len() > 0 {
        tdiv(spec_sum(s), s.len() as int)
    } else {
        dflt
    }
}


// ---------------------------------------------------------------------------
// The per-cell step
// ---------------------------------------------------------------------------

/// How one cell advances over a tick. `nbdiff` is the neighbor flux
/// difference sum of the cell, `rod_worth_cell` the rod worth it sees
/// (global worth plus local deviation). The cell runs the full point
/// model: smoothed local reactivity, six-group kinetics with the
/// diffusion term folded into the flux, thermal relaxation, void
/// formation and xenon kinetics, then the derived power figures.
pub open spec fn spec_cell_stepped(c2: FuelChannel, c1: FuelChannel, nbdiff: int,
    rod_worth_cell: int, dt: int, scram: bool) -> bool {
    let rho: int = crate::feedback::spec_total_reactivity(c1.fuel_temp as int,
        c1.graphite_temp as int, c1.coolant_void as int, c1.xenon_135 as int, rod_worth_cell,
        c1.local_reactivity as int, dt, scram);
    let y0 = crate::kinetics::KinS {
        n: c1.neutron_flux as int,
        c0: c1.precursor_groups[0] as int,
        c1: c1.precursor_groups[1] as int,
        c2: c1.precursor_groups[2] as int,
        c3: c1.precursor_groups[3] as int,
        c4: c1.precursor_groups[4] as int,
        c5: c1.precursor_groups[5] as int,
        t: c1.fuel_temp as int,
    };
    let z = crate::kinetics::spec_kinetics_6group(y0, rho, 0, dt);
    let flux: int = clip(z.n + fmul(dt, fmul(crate::params::DIFFUSION_COEF as int, nbdiff)),
        crate::params::NEUTRON_MIN as int, NEUTRON_MAX as int);
    let ppct: int = fmul(flux, crate::params::HUNDRED_PERCENT as int);
    let pf: int = crate::thermal::spec_power_fraction(ppct);
    let coolant: int = crate::thermal::spec_coolant_temp_next(c1.coolant_temp as int, pf, dt);
    let graphite: int = crate::thermal::spec_graphite_temp_next(c1.graphite_temp as int, pf,
        dt);
    let void: int = crate::thermal::spec_void_next(c1.coolant_void as int, coolant, dt);
    let iodine: int = crate::xenon::spec_iodine_next(c1.iodine_135 as int, flux, dt);
    let xenon: int = crate::xenon::spec_xenon_next(c1.iodine_135 as int, c1.xenon_135 as int,
        flux, dt);
    let local_power: int = fmul(flux, crate::params::POWER_PER_CHANNEL_MW_FX as int);
    let density: int = tdiv(local_power * SCALE, crate::params::CHANNEL_VOLUME_M3_FX as int);
    let denom: int = fmul(c1.flow_rate as int, crate::params::CP_WATER_FX as int);
    let outlet: int = if denom >= crate::params::MIN_FLOW_DENOM {
        clip(c1.inlet_temp + tdiv(local_power * (crate::params::MW_TO_W_FX as int), denom),
            crate::params::TEMP_MIN as int, crate::params::OUTLET_TEMP_MAX as int)
    } else {
        c1.outlet_temp as int
    };
    &&& c2.id == c1.id
    &&& c2.grid_x == c1.grid_x
    &&& c2.grid_y == c1.grid_y
    &&& c2.x == c1.x
    &&& c2.y == c1.y
    &&& c2.fuel_temp == z.t
    &&& c2.coolant_temp == coolant
    &&& c2.graphite_temp == graphite
    &&& c2.coolant_void == void
    &&& c2.pressure == c1.pressure
    &&& c2.flow_rate == c1.flow_rate
    &&& c2.inlet_temp == c1.inlet_temp
    &&& c2.outlet_temp == outlet
    &&& c2.neutron_flux == flux
    &&& c2.precursor_groups[0] == z.c0
    &&& c2.precursor_groups[1] == z.c1
    &&& c2.precursor_groups[2] == z.c2
    &&& c2.precursor_groups[3] == z.c3
    &&& c2.precursor_groups[4] == z.c4
    &&& c2.precursor_groups[5] == z.c5
    &&& c2.precursors == z.c0 + z.c1 + z.c2 + z.c3 + z.c4 + z.c5
    &&& c2.power_density == density
    &&& c2.local_power == local_power
    &&& c2.iodine_135 == iodine
    &&& c2.xenon_135 == xenon
    &&& c2.burnup == c1.burnup
    &&& c2.enrichment == c1.enrichment
    &&& c2.has_control_rod == c1.has_control_rod
    &&& c2.control_rod_id == c1.control_rod_id
    &&& c2.local_rod_position == c1.local_rod_position
    &&& c2.neighbors@ == c1.neighbors@
    &&& c2.local_reactivity == rho
}

/// Advance one cell by one tick (see [`spec_cell_stepped`]).
pub fn step_channel(c: &FuelChannel, nbdiff: i64, rod_worth_cell: i64, dt: i64,
    scram: bool) -> (r: FuelChannel)
    requires
        wf_channel(*c, UNITS_MAX as int),
        abs_i(nbdiff as int) <= 4 * NEUTRON_MAX,
        0 <= rod_worth_cell <= 20_000_000_000,
        crate::params::DT_MIN <= dt <= crate::params::DT_MAX,
    ensures
        spec_cell_stepped(r, *c, nbdiff as int, rod_worth_cell as int, dt as int, scram),
        forall|n: int| wf_channel(*c, n) ==> wf_channel(r, n),
{
    let rho: i64 = crate::feedback::calc_total_reactivity(c.fuel_temp, c.graphite_temp,
        c.coolant_void, c.xenon_135, rod_worth_cell, c.local_reactivity, dt, scram);
    let kin: (i64, [i64; 6], i64) = crate::kinetics::solve_kinetics_6group(c.neutron_flux,
        &c.precursor_groups, c.fuel_temp, rho, 0, dt);
    proof {
        lemma_fmul_fits(crate::params::DIFFUSION_COEF as int, nbdiff as int,
            crate::params::DIFFUSION_COEF as int, 4 * NEUTRON_MAX as int);
        lemma_fmul_fits(dt as int, fmul(crate::params::DIFFUSION_COEF as int, nbdiff as int),
            crate::params::DT_MAX as int, 2_000_000_000);
    }
    let diffusion: i64 = mul_fx(dt, mul_fx(crate::params::DIFFUSION_COEF, nbdiff));
    let flux: i64 = clamp_fx(kin.0 + diffusion, crate::params::NEUTRON_MIN, NEUTRON_MAX);
    proof {
        lemma_fmul_fits(flux as int, crate::params::HUNDRED_PERCENT as int,
            NEUTRON_MAX as int, crate::params::HUNDRED_PERCENT as int);
    }
    let ppct: i64 = mul_fx(flux, crate::params::HUNDRED_PERCENT);
    let th: (i64, i64, i64, i64) = crate::thermal::update_temperatures(ppct, c.fuel_temp,
        c.coolant_temp, c.graphite_temp, c.coolant_void, dt);
    let xe: (i64, i64) = crate::xenon::calc_xenon(c.iodine_135, c.xenon_135, flux, dt);
    proof {
        lemma_fmul_fits(flux as int, crate::params::POWER_PER_CHANNEL_MW_FX as int,
            NEUTRON_MAX as int, crate::params::POWER_PER_CHANNEL_MW_FX as int);
    }
    let local_power: i64 = mul_fx(flux, crate::params::POWER_PER_CHANNEL_MW_FX);
    proof {
        lemma_muldiv_fits(local_power as int, SCALE as int,
            crate::params::CHANNEL_VOLUME_M3_FX as int, 20_000_000_000, SCALE as int,
            crate::params::CHANNEL_VOLUME_M3_FX as int);
        lemma_tdiv_abs(local_power as int * (SCALE as int),
            crate::params::CHANNEL_VOLUME_M3_FX as int);
        assert(local_power as int * (SCALE as int) >= 0) by (nonlinear_arith)
            requires
                local_power >= 0,
        ;
        lemma_fmul_fits(c.flow_rate as int, crate::params::CP_WATER_FX as int,
            abs_i(c.flow_rate as int), crate::params::CP_WATER_FX as int);
    }
    let density: i64 = mul_div(local_power, SCALE, crate::params::CHANNEL_VOLUME_M3_FX);
    let denom: i64 = mul_fx(c.flow_rate, crate::params::CP_WATER_FX);
    let outlet: i64 = if denom >= crate::params::MIN_FLOW_DENOM {
        proof {
            lemma_muldiv_fits(local_power as int, crate::params::MW_TO_W_FX as int,
                denom as int, 20_000_000_000, crate::params::MW_TO_W_FX as int,
                crate::params::MIN_FLOW_DENOM as int);
        }
        let delta: i64 = mul_div(local_power, crate::params::MW_TO_W_FX, denom);
        clamp_fx(c.inlet_temp + delta, crate::params::TEMP_MIN,
            crate::params::OUTLET_TEMP_MAX)
    } else {
        c.outlet_temp
    };
    let groups: [i64; 6] = kin.1;
    let psum: i64 = crate::kinetics::sum_precursors_6group(&groups);
    let mut nb: Vec<usize> = Vec::new();
    let mut k: usize = 0;
    let n_nb: usize = c.neighbors.len();
    while k < n_nb
        invariant
            0 <= k <= n_nb,
            n_nb == c.neighbors@.len(),
            nb@ == c.neighbors@.take(k as int),
        decreases n_nb - k,
    {
        nb.push(c.neighbors[k]);
        proof {
            assert(nb@ =~= c.neighbors@.take(k + 1));
        }
        k = k + 1;
    }
    proof {
        assert(nb@ =~= c.neighbors@);
    }
    FuelChannel {
        id: c.id,
        grid_x: c.grid_x,
        grid_y: c.grid_y,
        x: c.x,
        y: c.y,
        fuel_temp: kin.2,
        coolant_temp: th.1,
        graphite_temp: th.2,
        coolant_void: th.3,
        pressure: c.pressure,
        flow_rate: c.flow_rate,
        inlet_temp: c.inlet_temp,
        outlet_temp: outlet,
        neutron_flux: flux,
        precursors: psum,
        precursor_groups: groups,
        power_density: density,
        local_power: local_power,
        iodine_135: xe.0,
        xenon_135: xe.1,
        burnup: c.burnup,
        enrichment: c.enrichment,
        has_control_rod: c.has_control_rod,
        control_rod_id: c.control_rod_id,
        local_rod_position: c.local_rod_position,
        neighbors: nb,
        local_reactivity: rho,
    }
}


// ---------------------------------------------------------------------------
// Aggregation of the per-cell state into global scalars
// ---------------------------------------------------------------------------

/// The fuel temperatures of a channel list.
pub open spec fn seq_fuel(s: Seq<FuelChannel>) -> Seq<int> {
    s.map_values(|c: FuelChannel| c.fuel_temp as int)
}

/// The coolant temperatures of a channel list.
pub open spec fn seq_coolant(s: Seq<FuelChannel>) -> Seq<int> {
    s.map_values(|c: FuelChannel| c.coolant_temp as int)
}

/// The graphite temperatures of a channel list.
pub open spec fn seq_graphite(s: Seq<FuelChannel>) -> Seq<int> {
    s.map_values(|c: FuelChannel| c.graphite_temp as int)
}

/// The void fractions of a channel list.
pub open spec fn seq_void(s: Seq<FuelChannel>) -> Seq<int> {
    s.map_values(|c: FuelChannel| c.coolant_void as int)
}

/// The local powers of a channel list.
pub open spec fn seq_power(s: Seq<FuelChannel>) -> Seq<int> {
    s.map_values(|c: FuelChannel| c.local_power as int)
}

/// The xenon concentrations of a channel list.
pub open spec fn seq_xenon(s: Seq<FuelChannel>) -> Seq<int> {
    s.map_values(|c: FuelChannel| c.xenon_135 as int)
}

/// The iodine concentrations of a channel list.
pub open spec fn seq_iodine(s: Seq<FuelChannel>) -> Seq<int> {
    s.map_values(|c: FuelChannel| c.iodine_135 as int)
}

/// The neutron fluxes of a channel list.
pub open spec fn seq_flux(s: Seq<FuelChannel>) -> Seq<int> {
    s.map_values(|c: FuelChannel| c.neutron_flux as int)
}

/// The local reactivities of a channel list.
pub open spec fn seq_rho(s: Seq<FuelChannel>) -> Seq<int> {
    s.map_values(|c: FuelChannel| c.local_reactivity as int)
}

/// The precursor concentrations of group `g` of a channel list.
pub open spec fn seq_group(s: Seq<FuelChannel>, g: int) -> Seq<int> {
    s.map_values(|c: FuelChannel| c.precursor_groups[g] as int)
}

/// One scan step of every per-field sum at once.
proof fn lemma_sums_take_step(s: Seq<FuelChannel>, i: int)
    requires
        0 <= i < s.len(),
    ensures
        spec_sum(seq_fuel(s.take(i + 1))) == spec_sum(seq_fuel(s.take(i)))
            + s[i].fuel_temp,
        spec_sum(seq_coolant(s.take(i + 1))) == spec_sum(seq_coolant(s.take(i)))
            + s[i].coolant_temp,
        spec_sum(seq_graphite(s.take(i + 1))) == spec_sum(seq_graphite(s.take(i)))
            + s[i].graphite_temp,
        spec_sum(seq_void(s.take(i + 1))) == spec_sum(seq_void(s.take(i)))
            + s[i].coolant_void,
        spec_sum(seq_power(s.take(i + 1))) == spec_sum(seq_power(s.take(i)))
            + s[i].local_power,
        spec_sum(seq_xenon(s.take(i + 1))) == spec_sum(seq_xenon(s.take(i)))
            + s[i].xenon_135,
        spec_sum(seq_iodine(s.take(i + 1))) == spec_sum(seq_iodine(s.take(i)))
            + s[i].iodine_135,
        spec_sum(seq_flux(s.take(i + 1))) == spec_sum(seq_flux(s.take(i)))
            + s[i].neutron_flux,
        spec_sum(seq_rho(s.take(i + 1))) == spec_sum(seq_rho(s.take(i)))
            + s[i].local_reactivity,
        forall|g: int| 0 <= g < 6 ==> spec_sum(#[trigger] seq_group(s.take(i + 1), g))
            == spec_sum(seq_group(s.take(i), g)) + s[i].precursor_groups[g],
{
    assert(seq_fuel(s.take(i + 1)).drop_last() =~= seq_fuel(s.take(i)));
    assert(seq_coolant(s.take(i + 1)).drop_last() =~= seq_coolant(s.take(i)));
    assert(seq_graphite(s.take(i + 1)).drop_last() =~= seq_graphite(s.take(i)));
    assert(seq_void(s.take(i + 1)).drop_last() =~= seq_void(s.take(i)));
    assert(seq_power(s.take(i + 1)).drop_last() =~= seq_power(s.take(i)));
    assert(seq_xenon(s.take(i + 1)).drop_last() =~= seq_xenon(s.take(i)));
    assert(seq_iodine(s.take(i + 1)).drop_last() =~= seq_iodine(s.take(i)));
    assert(seq_flux(s.take(i + 1)).drop_last() =~= seq_flux(s.take(i)));
    assert(seq_rho(s.take(i + 1)).drop_last() =~= seq_rho(s.take(i)));
    assert forall|g: int| 0 <= g < 6 implies spec_sum(#[trigger] seq_group(s.take(i + 1), g))
        == spec_sum(seq_group(s.take(i), g)) + s[i].precursor_groups[g] by {
        assert(seq_group(s.take(i + 1), g).drop_last() =~= seq_group(s.take(i), g));
        assert(seq_group(s.take(i + 1), g).last() == s[i].precursor_groups[g] as int);
    };
}

/// Per-field sums over the whole channel list.
pub struct ChannelSums {
    /// Sum of fuel temperatures.
    pub fuel: i64,
    /// Sum of coolant temperatures.
    pub coolant: i64,
    /// Sum of graphite temperatures.
    pub graphite: i64,
    /// Sum of void fractions.
    pub void_f: i64,
    /// Sum of local powers (the total core power).
    pub power: i64,
    /// Sum of xenon concentrations.
    pub xenon: i64,
    /// Sum of iodine concentrations.
    pub iodine: i64,
    /// Sum of neutron fluxes.
    pub flux: i64,
    /// Sum of local reactivities.
    pub rho: i64,
    /// Sums of the six precursor groups.
    pub groups: [i64; 6],
}

/// Sum every per-cell field of the channel list in one pass (see the
/// `seq_*` field projections).
pub fn sum_channels(channels: &Vec<FuelChannel>) -> (r: ChannelSums)
    requires
        wf_channels(channels@),
    ensures
        r.fuel as int == spec_sum(seq_fuel(channels@)),
        r.coolant as int == spec_sum(seq_coolant(channels@)),
        r.graphite as int == spec_sum(seq_graphite(channels@)),
        r.void_f as int == spec_sum(seq_void(channels@)),
        r.power as int == spec_sum(seq_power(channels@)),
        r.xenon as int == spec_sum(seq_xenon(channels@)),
        r.iodine as int == spec_sum(seq_iodine(channels@)),
        r.flux as int == spec_sum(seq_flux(channels@)),
        r.rho as int == spec_sum(seq_rho(channels@)),
        forall|g: int| 0 <= g < 6 ==> #[trigger] r.groups[g] as int == spec_sum(seq_group(
            channels@, g)),
        0 <= r.power <= 1_000_000_000_000_000_000,
{
    let n: usize = channels.len();
    let mut fuel: i64 = 0;
    let mut coolant: i64 = 0;
    let mut graphite: i64 = 0;
    let mut void_f: i64 = 0;
    let mut power: i64 = 0;
    let mut xenon: i64 = 0;
    let mut iodine: i64 = 0;
    let mut flux: i64 = 0;
    let mut rho: i64 = 0;
    let mut g0: i64 = 0;
    let mut g1: i64 = 0;
    let mut g2: i64 = 0;
    let mut g3: i64 = 0;
    let mut g4: i64 = 0;
    let mut g5: i64 = 0;
    let mut i: usize = 0;
    proof {
        assert(channels@.take(0) =~= Seq::<FuelChannel>::empty());
        assert(seq_fuel(channels@.take(0)) =~= Seq::<int>::empty());
        assert(seq_coolant(channels@.take(0)) =~= Seq::<int>::empty());
        assert(seq_graphite(channels@.take(0)) =~= Seq::<int>::empty());
        assert(seq_void(channels@.take(0)) =~= Seq::<int>::empty());
        assert(seq_power(channels@.take(0)) =~= Seq::<int>::empty());
        assert(seq_xenon(channels@.take(0)) =~= Seq::<int>::empty());
        assert(seq_iodine(channels@.take(0)) =~= Seq::<int>::empty());
        assert(seq_flux(channels@.take(0)) =~= Seq::<int>::empty());
        assert(seq_rho(channels@.take(0)) =~= Seq::<int>::empty());
        assert forall|g: int| 0 <= g < 6 implies #[trigger] seq_group(channels@.take(0), g)
            =~= Seq::<int>::empty() by {};
    }
    while i < n
        invariant
            0 <= i <= n,
            n == channels@.len(),
            wf_channels(channels@),
            fuel as int == spec_sum(seq_fuel(channels@.take(i as int))),
            coolant as int == spec_sum(seq_coolant(channels@.take(i as int))),
            graphite as int == spec_sum(seq_graphite(channels@.take(i as int))),
            void_f as int == spec_sum(seq_void(channels@.take(i as int))),
            power as int == spec_sum(seq_power(channels@.take(i as int))),
            xenon as int == spec_sum(seq_xenon(channels@.take(i as int))),
            iodine as int == spec_sum(seq_iodine(channels@.take(i as int))),
            flux as int == spec_sum(seq_flux(channels@.take(i as int))),
            rho as int == spec_sum(seq_rho(channels@.take(i as int))),
            g0 as int == spec_sum(seq_group(channels@.take(i as int), 0)),
            g1 as int == spec_sum(seq_group(channels@.take(i as int), 1)),
            g2 as int == spec_sum(seq_group(channels@.take(i as int), 2)),
            g3 as int == spec_sum(seq_group(channels@.take(i as int), 3)),
            g4 as int == spec_sum(seq_group(channels@.take(i as int), 4)),
            g5 as int == spec_sum(seq_group(channels@.take(i as int), 5)),
            0 <= fuel <= i * 3_500_000_000_000,
            0 <= coolant <= i * 700_000_000_000,
            0 <= graphite <= i * 2_500_000_000_000,
            0 <= void_f <= i * 80_000_000_000,
            0 <= power <= i * 100_000_000_000_000,
            0 <= xenon <= i * 1_000_000_000_000,
            0 <= iodine <= i * 1_000_000_000_000,
            0 <= flux <= i * 10_000_000_000,
            abs_i(rho as int) <= i * 100_000_000,
            0 <= g0 <= i * 1_000_000_000_000,
            0 <= g1 <= i * 1_000_000_000_000,
            0 <= g2 <= i * 1_000_000_000_000,
            0 <= g3 <= i * 1_000_000_000_000,
            0 <= g4 <= i * 1_000_000_000_000,
            0 <= g5 <= i * 1_000_000_000_000,
        decreases n - i,
    {
        let c = &channels[i];
        proof {
            lemma_sums_take_step(channels@, i as int);
            assert((i + 1) * 3_500_000_000_000 == i * 3_500_000_000_000 + 3_500_000_000_000)
                by (nonlinear_arith);
            assert((i + 1) * 700_000_000_000 == i * 700_000_000_000 + 700_000_000_000)
                by (nonlinear_arith);
            assert((i + 1) * 2_500_000_000_000 == i * 2_500_000_000_000 + 2_500_000_000_000)
                by (nonlinear_arith);
            assert((i + 1) * 80_000_000_000 == i * 80_000_000_000 + 80_000_000_000)
                by (nonlinear_arith);
            assert((i + 1) * 100_000_000_000_000 == i * 100_000_000_000_000
                + 100_000_000_000_000) by (nonlinear_arith);
            assert((i + 1) * 1_000_000_000_000 == i * 1_000_000_000_000 + 1_000_000_000_000)
                by (nonlinear_arith);
            assert((i + 1) * 10_000_000_000 == i * 10_000_000_000 + 10_000_000_000)
                by (nonlinear_arith);
            assert((i + 1) * 100_000_000 == i * 100_000_000 + 100_000_000)
                by (nonlinear_arith);
            assert(i * 3_500_000_000_000 <= UNITS_MAX * 3_500_000_000_000
                && i * 700_000_000_000 <= UNITS_MAX * 700_000_000_000
                && i * 2_500_000_000_000 <= UNITS_MAX * 2_500_000_000_000
                && i * 80_000_000_000 <= UNITS_MAX * 80_000_000_000
                && i * 100_000_000_000_000 <= UNITS_MAX * 100_000_000_000_000
                && i * 1_000_000_000_000 <= UNITS_MAX * 1_000_000_000_000
                && i * 10_000_000_000 <= UNITS_MAX * 10_000_000_000
                && i * 100_000_000 <= UNITS_MAX * 100_000_000) by (nonlinear_arith)
                requires
                    0 <= i <= UNITS_MAX,
            ;
        }
        fuel = fuel + c.fuel_temp;
        coolant = coolant + c.coolant_temp;
        graphite = graphite + c.graphite_temp;
        void_f = void_f + c.coolant_void;
        power = power + c.local_power;
        xenon = xenon + c.xenon_135;
        iodine = iodine + c.iodine_135;
        flux = flux + c.neutron_flux;
        rho = rho + c.local_reactivity;
        let groups: [i64; 6] = c.precursor_groups;
        g0 = g0 + groups[0];
        g1 = g1 + groups[1];
        g2 = g2 + groups[2];
        g3 = g3 + groups[3];
        g4 = g4 + groups[4];
        g5 = g5 + groups[5];
        i = i + 1;
    }
    proof {
        assert(channels@.take(n as int) =~= channels@);
        assert(i * 100_000_000_000_000 <= UNITS_MAX * 100_000_000_000_000)
            by (nonlinear_arith)
            requires
                0 <= i <= UNITS_MAX,
        ;
    }
    ChannelSums {
        fuel,
        coolant,
        graphite,
        void_f,
        power,
        xenon,
        iodine,
        flux,
        rho,
        groups: [g0, g1, g2, g3, g4, g5],
    }
}

/// The mean of a sum of `count` elementwise-bounded values, clamped-free:
/// the mean of values in `[lo, hi]` is itself in `[lo, hi]`; an empty
/// list yields the default.
pub fn mean_of_sum(sum: i64, count: usize, lo: i64, hi: i64, dflt: i64) -> (r: i64)
    requires
        count <= UNITS_MAX,
        lo <= dflt <= hi,
        0 <= hi,
        -1_000_000_000_000_000_000 <= sum <= 1_000_000_000_000_000_000,
        count > 0 ==> (count as int) * (lo as int) <= sum as int <= (count as int) * (
        hi as int),
    ensures
        r as int == (if count > 0 {
            tdiv(sum as int, count as int)
        } else {
            dflt as int
        }),
        lo <= r <= hi,
{
    if count == 0 {
        dflt
    } else {
        proof {
            let su = sum as int;
            let cn = count as int;
            lemma_muldiv_fits(su, 1, cn, 1_000_000_000_000_000_000, 1, 1);
            if su >= 0 {
                lemma_tdiv_abs(su, cn);
                vstd::arithmetic::div_mod::lemma_div_pos_is_pos(su, cn);
                assert(su <= cn * (hi as int));
                vstd::arithmetic::div_mod::lemma_multiply_divide_le(su, cn, hi as int);
                if lo > 0 {
                    vstd::arithmetic::div_mod::lemma_div_is_ordered((lo as int) * cn, su, cn);
                    vstd::arithmetic::div_mod::lemma_div_by_multiple(lo as int, cn);
                }
            } else {
                lemma_tdiv_abs(su, cn);
                assert(-su <= cn * (-(lo as int))) by (nonlinear_arith)
                    requires
                        cn * (lo as int) <= su,
                ;
                vstd::arithmetic::div_mod::lemma_div_pos_is_pos(-su, cn);
                vstd::arithmetic::div_mod::lemma_multiply_divide_le(-su, cn, -(lo as int));
            }
        }
        mul_div(sum, 1, count as i64)
    }
}

/// Core-wide averages derived from the per-cell state: simple means of
/// the temperatures, void and xenon, and the total power as a sum.
pub struct GlobalAverages {
    /// Mean fuel temperature, fixed-point K.
    pub avg_fuel_temp: i64,
    /// Mean coolant temperature, fixed-point K.
    pub avg_coolant_temp: i64,
    /// Mean graphite temperature, fixed-point K.
    pub avg_graphite_temp: i64,
    /// Mean void fraction, fixed-point percent.
    pub avg_void: i64,
    /// Total thermal power, fixed-point MW.
    pub total_power: i64,
    /// Mean xenon concentration, relative units.
    pub avg_xenon: i64,
}

/// Recompute the global averages from the per-cell state (see
/// [`GlobalAverages`]); an empty channel list yields the cold defaults.
pub fn calculate_global_averages(channels: &Vec<FuelChannel>) -> (r: GlobalAverages)
    requires
        wf_channels(channels@),
    ensures
        r.avg_fuel_temp as int == spec_mean(seq_fuel(channels@), 300_000_000_000),
        r.avg_coolant_temp as int == spec_mean(seq_coolant(channels@), 300_000_000_000),
        r.avg_graphite_temp as int == spec_mean(seq_graphite(channels@), 300_000_000_000),
        r.avg_void as int == spec_mean(seq_void(channels@), 0),
        r.total_power as int == spec_sum(seq_power(channels@)),
        r.avg_xenon as int == spec_mean(seq_xenon(channels@), 0),
{
    let sums: ChannelSums = sum_channels(channels);
    let n: usize = channels.len();
    proof {
        lemma_sum_bound(seq_fuel(channels@), 250_000_000_000, 3_500_000_000_000);
        lemma_sum_bound(seq_coolant(channels@), 250_000_000_000, 700_000_000_000);
        lemma_sum_bound(seq_graphite(channels@), 250_000_000_000, 2_500_000_000_000);
        lemma_sum_bound(seq_void(channels@), 0, 80_000_000_000);
        lemma_sum_bound(seq_xenon(channels@), 0, 1_000_000_000_000);
    }
    GlobalAverages {
        avg_fuel_temp: mean_of_sum(sums.fuel, n, 250_000_000_000, 3_500_000_000_000,
            300_000_000_000),
        avg_coolant_temp: mean_of_sum(sums.coolant, n, 250_000_000_000, 700_000_000_000,
            300_000_000_000),
        avg_graphite_temp: mean_of_sum(sums.graphite, n, 250_000_000_000, 2_500_000_000_000,
            300_000_000_000),
        avg_void: mean_of_sum(sums.void_f, n, 0, 80_000_000_000, 0),
        total_power: sums.power,
        avg_xenon: mean_of_sum(sums.xenon, n, 0, 1_000_000_000_000, 0),
    }
}

} // verus!
