//! The global guarantees of the engine, stated and proved once, in one
//! place: non-negativity of every physical inventory, the reactivity
//! band, the monotone accident flag, the effect of the emergency
//! shutdown on reactivity, and the round trips of the configuration
//! surface.

use vstd::prelude::*;

verus! {

use crate::fx::{SCALE, tdiv, fdiv, clip, relax, lemma_fmul_fits, lemma_tdiv_abs,
    lemma_relax_between, lemma_div_le};
use crate::params::{RHO_MIN, RHO_MAX, BETA_EFF, TAU_RHO_SCRAM, DT_DEFAULT, DT_MAX, VOID_MAX,
    XENON_COEF, BASE_EXCESS_REACTIVITY, DOPPLER_POS_CAP, GRAPHITE_COEF, GRAPHITE_TEMP_REF,
    VOID_COEF, GRAPHITE_TEMP_MAX, CONCENTRATION_MAX};
use crate::state::{ReactorState, wf_state, spec_is_default_state, spec_state_eq};
use crate::feedback::{feedback_inputs_ok, spec_rho_instant, spec_total_reactivity,
    spec_doppler_term, spec_xenon_term, spec_rho_tau};

/// Non-negativity: in every well-formed state the neutron population,
/// all six precursor concentrations, iodine and xenon are non-negative,
/// and the void fraction lies between zero and its cap. Every public
/// operation of the engine returns a well-formed state, so this holds of
/// all reachable states.
pub proof fn lemma_state_nonnegative(st: ReactorState)
    requires
        wf_state(st),
    ensures
        st.neutron_population >= 0,
        forall|g: int| 0 <= g < 6 ==> #[trigger] st.precursors_6[g] >= 0,
        st.precursors >= 0,
        st.iodine_135 >= 0,
        st.xenon_135 >= 0,
        0 <= st.avg_coolant_void <= VOID_MAX,
{
}

/// Reactivity band: in every well-formed state — and so after every
/// step, which returns one — the reported reactivity lies within the
/// configured clamp band.
pub proof fn lemma_reactivity_within_band(st: ReactorState)
    requires
        wf_state(st),
    ensures
        RHO_MIN <= st.reactivity <= RHO_MAX,
        RHO_MIN <= st.smoothed_reactivity <= RHO_MAX,
{
}

/// Accident monotonicity: the scalar outcome of a step never clears the
/// accident flag; once it is set it stays set through every subsequent
/// tick.
pub proof fn lemma_explosion_latches(st: ReactorState, ost: ReactorState,
    ch: Seq<crate::geometry::FuelChannel>)
    requires
        crate::sim::spec_scalars_after_step(st, ost, ch),
        ost.explosion_occurred,
    ensures
        st.explosion_occurred,
{
}

/// Non-negativity of one cell step: whatever neighbor coupling and rod
/// worth the orchestrator hands a cell, the stepped cell's population,
/// precursor groups, poison concentrations, void fraction, fuel
/// temperature and local reactivity all lie in their physical ranges.
pub proof fn lemma_cell_step_ranges(c2: crate::geometry::FuelChannel,
    c1: crate::geometry::FuelChannel, nbdiff: int, rod_worth_cell: int, dt: int, scram: bool)
    requires
        crate::spatial::spec_cell_stepped(c2, c1, nbdiff, rod_worth_cell, dt, scram),
        crate::params::DT_MIN <= dt <= DT_MAX,
    ensures
        crate::params::NEUTRON_MIN <= c2.neutron_flux <= crate::params::NEUTRON_MAX,
        forall|g: int| 0 <= g < 6 ==> 0 <= #[trigger] c2.precursor_groups[g]
            <= crate::params::PRECURSOR_MAX,
        0 <= c2.precursors,
        0 <= c2.iodine_135 <= CONCENTRATION_MAX,
        0 <= c2.xenon_135 <= CONCENTRATION_MAX,
        0 <= c2.coolant_void <= VOID_MAX,
        RHO_MIN <= c2.local_reactivity <= RHO_MAX,
        crate::params::TEMP_MIN <= c2.fuel_temp <= crate::params::FUEL_TEMP_MAX,
{
    let rho = spec_total_reactivity(c1.fuel_temp as int, c1.graphite_temp as int,
        c1.coolant_void as int, c1.xenon_135 as int, rod_worth_cell,
        c1.local_reactivity as int, dt, scram);
    let y0 = crate::kinetics::KinS {
        n: c1.neutron_flux as int,
        c0: c1.precursor_groups[0] as int,
        c1: c1.precursor_groups[1] as int,
        c2: c1.precursor_groups[2] as int,
        c3: c1.precursor_groups[3] as int,
        c4: c1.precursor_groups[4] as int,
        c5: c1.precursor_groups[5] as int,
        t: c1.fuel_temp as int,
    };
    crate::kinetics::lemma_kinetics_outputs_clamped(y0, rho, 0, dt);
    let z = crate::kinetics::spec_kinetics_6group(y0, rho, 0, dt);
    assert forall|g: int| 0 <= g < 6 implies 0 <= #[trigger] c2.precursor_groups[g]
        <= crate::params::PRECURSOR_MAX by {
        if g == 0 {
            assert(c2.precursor_groups[0] == z.c0);
        } else if g == 1 {
            assert(c2.precursor_groups[1] == z.c1);
        } else if g == 2 {
            assert(c2.precursor_groups[2] == z.c2);
        } else if g == 3 {
            assert(c2.precursor_groups[3] == z.c3);
        } else if g == 4 {
            assert(c2.precursor_groups[4] == z.c4);
        } else {
            assert(c2.precursor_groups[5] == z.c5);
        }
    };
}

/// Reset round trip: a state that satisfies the documented default and a
/// deep-equal copy of it (as `get_state` returns) is itself the
/// documented default.
pub proof fn lemma_reset_reports_default(s1: ReactorState, s2: ReactorState)
    requires
        spec_is_default_state(s1),
        spec_state_eq(s2, s1),
    ensures
        spec_is_default_state(s2),
{
}

/// Target-power round trip: whatever target is requested, the regulator
/// afterwards reports exactly that request clamped to the accepted
/// range.
pub proof fn lemma_target_power_round_trip(s: crate::regulator::AutoRegulatorSettings,
    target_percent: int)
    requires
        crate::regulator::wf_regulator(s),
    ensures
        crate::regulator::spec_regulator_retarget(s, target_percent).target_power as int
            == clip(target_percent, crate::params::TARGET_POWER_MIN as int,
            crate::params::TARGET_POWER_MAX as int),
{
}

/// Emergency shutdown reactivity: with every rod inserted, a rod bank
/// worth at least 0.18 dk/k drives the reactivity reported by the
/// shutdown recomputation below minus five dollars, for any feedback
/// state and any time step at or above the default. (With a time step
/// far below the default, the smoothing has too little time to act in a
/// single recomputation and only monotone descent is guaranteed.)
pub proof fn lemma_scram_drives_deeply_subcritical(t_fuel: int, t_graphite: int, void: int,
    xenon: int, rod_worth: int, smoothed: int, dt: int)
    requires
        feedback_inputs_ok(t_fuel, t_graphite, void, xenon, rod_worth),
        rod_worth >= 180_000_000,
        RHO_MIN <= smoothed <= RHO_MAX,
        DT_DEFAULT <= dt <= DT_MAX,
    ensures
        spec_total_reactivity(t_fuel, t_graphite, void, xenon, rod_worth, smoothed, dt, true)
            <= -32_500_000,
        fdiv(spec_total_reactivity(t_fuel, t_graphite, void, xenon, rod_worth, smoothed, dt,
            true), BETA_EFF as int) <= -5_000_000_000,
{
    let inst = spec_rho_instant(t_fuel, t_graphite, void, xenon, rod_worth);
    assert(spec_doppler_term(t_fuel) <= DOPPLER_POS_CAP);
    lemma_fmul_fits(GRAPHITE_COEF as int, t_graphite - GRAPHITE_TEMP_REF, GRAPHITE_COEF as int,
        2_300_000_000_000);
    lemma_fmul_fits(VOID_COEF as int, void, VOID_COEF as int, VOID_MAX as int);
    assert(XENON_COEF as int * xenon >= 0) by (nonlinear_arith)
        requires
            xenon >= 0,
    ;
    lemma_tdiv_abs(XENON_COEF as int * xenon, SCALE as int);
    assert(spec_xenon_term(xenon) <= 0);
    assert(inst <= BASE_EXCESS_REACTIVITY + DOPPLER_POS_CAP + 4_600_000 + 23_400_000
        - 180_000_000);
    assert(inst <= -98_000_000);
    let tau = spec_rho_tau(true);
    assert(tau == TAU_RHO_SCRAM);
    let den = tau + dt;
    let r = relax(smoothed, inst, dt, tau);
    lemma_relax_between(smoothed, inst, dt, tau);
    if smoothed <= -32_500_000 {
        assert(r <= -32_500_000);
    } else {
        let c = smoothed + 32_500_000;
        assert(c >= 0);
        let a = (smoothed - inst) * dt;
        assert(a >= c * den) by (nonlinear_arith)
            requires
                a == (smoothed - inst) * dt,
                smoothed - inst >= smoothed + 98_000_000,
                c == smoothed + 32_500_000,
                den == TAU_RHO_SCRAM + dt,
                -32_500_000 < smoothed <= RHO_MAX,
                DT_DEFAULT <= dt <= DT_MAX,
        ;
        vstd::arithmetic::div_mod::lemma_div_is_ordered(c * den, a, den);
        vstd::arithmetic::div_mod::lemma_div_by_multiple(c, den);
        assert(a / den >= c);
        assert(a >= 0) by (nonlinear_arith)
            requires
                smoothed - inst >= 0,
                dt >= 0,
                a == (smoothed - inst) * dt,
        ;
        assert((inst - smoothed) * dt == -a) by (nonlinear_arith)
            requires
                a == (smoothed - inst) * dt,
        ;
        assert(tdiv((inst - smoothed) * dt, den) == -(a / den));
        assert(r == smoothed - a / den);
        assert(r <= smoothed - c);
        assert(r <= -32_500_000);
    }
    let clamped = clip(r, RHO_MIN as int, RHO_MAX as int);
    assert(clamped <= -32_500_000);
    assert(spec_total_reactivity(t_fuel, t_graphite, void, xenon, rod_worth, smoothed, dt,
        true) == clamped);
    assert(fdiv(clamped, BETA_EFF as int) <= -5_000_000_000) by {
        lemma_tdiv_abs(clamped * (SCALE as int), BETA_EFF as int);
        assert(-(clamped * (SCALE as int)) >= 32_500_000 * (SCALE as int))
            by (nonlinear_arith)
            requires
                clamped <= -32_500_000,
        ;
        lemma_div_le(32_500_000 * (SCALE as int), -(clamped * (SCALE as int)),
            BETA_EFF as int);
        assert(32_500_000 * (SCALE as int) == 5_000_000_000 * (BETA_EFF as int));
        vstd::arithmetic::div_mod::lemma_div_by_multiple(5_000_000_000, BETA_EFF as int);
        assert(clamped * (SCALE as int) < 0) by (nonlinear_arith)
            requires
                clamped <= -32_500_000,
        ;
    };
}

} // verus!
