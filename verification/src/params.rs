//! Named configuration parameters of the engine.
//!
//! Every physical coefficient, threshold and default lives here as a named
//! constant so that it can be recalibrated without touching the physics
//! code. All fixed-point values use the scale of [`crate::fx::SCALE`]
//! (one unit = 10^-9); the unit of each constant is given in its comment.

use vstd::prelude::*;

verus! {

// ---------------------------------------------------------------------------
// Time stepping
// ---------------------------------------------------------------------------

/// Smallest accepted time step: 0.001 s.
pub const DT_MIN: i64 = 1_000_000;

/// Largest accepted time step: 1.0 s.
pub const DT_MAX: i64 = 1_000_000_000;

/// Default time step: 0.1 s.
pub const DT_DEFAULT: i64 = 100_000_000;

/// Largest kinetics sub-step while strongly subcritical: 10 ms.
pub const SUBSTEP_MAX: i64 = 10_000_000;

/// Hard cap on the number of steps a single real-time call may run.
pub const REALTIME_STEP_CAP: u64 = 1000;

// ---------------------------------------------------------------------------
// Point kinetics (six delayed-neutron groups)
// ---------------------------------------------------------------------------

/// Total effective delayed-neutron fraction (0.0065, defines one dollar).
pub const BETA_EFF: i64 = 6_500_000;

/// Prompt neutron lifetime for a graphite-moderated lattice: 1 ms,
/// expressed in fixed-point seconds.
pub const NEUTRON_LIFETIME: i64 = 1_000_000;

/// Number of delayed-neutron precursor groups.
pub const NUM_DELAYED_GROUPS: usize = 6;

/// Delayed-neutron yield fraction of group `g` (U-235 values).
pub open spec fn spec_beta_g(g: int) -> int {
    if g == 0 {
        215_000
    } else if g == 1 {
        1_424_000
    } else if g == 2 {
        1_274_000
    } else if g == 3 {
        2_568_000
    } else if g == 4 {
        748_000
    } else {
        273_000
    }
}

/// Decay constant of precursor group `g` in 1/s (U-235 values).
pub open spec fn spec_lambda_g(g: int) -> int {
    if g == 0 {
        12_400_000
    } else if g == 1 {
        30_500_000
    } else if g == 2 {
        111_000_000
    } else if g == 3 {
        301_000_000
    } else if g == 4 {
        1_140_000_000
    } else {
        3_010_000_000
    }
}

/// Delayed-neutron yield fraction of group `g`.
pub fn beta_g(g: usize) -> (r: i64)
    requires
        g < NUM_DELAYED_GROUPS,
    ensures
        r as int == spec_beta_g(g as int),
        0 < r <= 2_568_000,
{
    if g == 0 {
        215_000
    } else if g == 1 {
        1_424_000
    } else if g == 2 {
        1_274_000
    } else if g == 3 {
        2_568_000
    } else if g == 4 {
        748_000
    } else {
        273_000
    }
}

/// Decay constant of precursor group `g` in 1/s.
pub fn lambda_g(g: usize) -> (r: i64)
    requires
        g < NUM_DELAYED_GROUPS,
    ensures
        r as int == spec_lambda_g(g as int),
        0 < r <= 3_010_000_000,
{
    if g == 0 {
        12_400_000
    } else if g == 1 {
        30_500_000
    } else if g == 2 {
        111_000_000
    } else if g == 3 {
        301_000_000
    } else if g == 4 {
        1_140_000_000
    } else {
        3_010_000_000
    }
}

/// Effective one-group precursor decay constant (yield-weighted mean of
/// the six groups): about 0.0767 1/s.
pub const LAMBDA_EFF: i64 = 76_700_000;

/// Largest accepted external neutron source rate, 1/s.
pub const SOURCE_MAX: i64 = 1_000_000_000;

/// Neutron population below which the reactor period counts as undefined
/// (population near zero).
pub const NEAR_ZERO_N: i64 = 1_000;

/// Lower clamp of the neutron population (smallest positive fixed-point
/// value; the population never reaches zero, only this floor).
pub const NEUTRON_MIN: i64 = 1;

/// Upper clamp of the neutron population: 10x nominal.
pub const NEUTRON_MAX: i64 = 10_000_000_000;

/// Generous upper sentinel for a single precursor-group concentration.
pub const PRECURSOR_MAX: i64 = 1_000_000_000_000;

/// Reactivity below which the kinetics become stiff and the step is
/// subdivided, and below which temperature feedback is suppressed: -0.01.
pub const RHO_STIFF: i64 = -10_000_000;

/// Longest reported reactor period: 10^6 s; beyond it the period counts as
/// unbounded.
pub const PERIOD_MAX: i64 = 1_000_000_000_000_000;

/// Sentinel for an unbounded (infinite) reactor period.
pub const PERIOD_INFINITE: i64 = i64::MAX;

// ---------------------------------------------------------------------------
// Reactivity feedback
// ---------------------------------------------------------------------------

/// Base excess reactivity with the rods at their reference startup
/// positions; chosen so that the reference startup configuration is
/// exactly critical.
pub const BASE_EXCESS_REACTIVITY: i64 = 48_640_000;

/// Reference rod position of the startup configuration (0.8 withdrawn).
pub const REFERENCE_ROD_POSITION: i64 = 800_000_000;

/// Doppler (fuel temperature) coefficient, dk/k per K; applied negatively.
pub const DOPPLER_COEF: i64 = 12_000;

/// Fuel reference temperature for Doppler feedback: 800 K (fixed-point K).
pub const FUEL_TEMP_REF: i64 = 800_000_000_000;

/// Positive cap of the Doppler term when the fuel is cold: +0.005 dk/k.
pub const DOPPLER_POS_CAP: i64 = 5_000_000;

/// Graphite temperature coefficient, dk/k per K; applied positively.
pub const GRAPHITE_COEF: i64 = 2_000;

/// Graphite reference temperature: 600 K.
pub const GRAPHITE_TEMP_REF: i64 = 600_000_000_000;

/// Void coefficient, dk/k per percent void (about 4.5 beta per 100% void).
pub const VOID_COEF: i64 = 292_500;

/// Xenon reactivity coefficient, dk/k per relative xenon unit; applied
/// negatively. One relative xenon unit stands for 10^15 atoms/cm^3.
pub const XENON_COEF: i64 = 10_000_000;

/// Lower edge of the reactivity clamp band: -0.10 dk/k.
pub const RHO_MIN: i64 = -100_000_000;

/// Upper edge of the reactivity clamp band: +0.02 dk/k.
pub const RHO_MAX: i64 = 20_000_000;

/// Reactivity smoothing time constant in normal operation: 0.3 s.
pub const TAU_RHO_NORMAL: i64 = 300_000_000;

/// Reactivity smoothing time constant while the emergency shutdown is
/// active: 0.05 s.
pub const TAU_RHO_SCRAM: i64 = 50_000_000;

/// Smallest denominator accepted when deriving k_eff from reactivity;
/// below it k_eff is pinned to a sentinel instead of dividing.
pub const KEFF_DENOM_MIN: i64 = 1_000_000;

/// Sentinel k_eff when reactivity approaches +1.
pub const KEFF_PINNED_HIGH: i64 = 1_000_000_000_000;

// ---------------------------------------------------------------------------
// Control rods
// ---------------------------------------------------------------------------

/// Worth of a manual rod, dk/k when fully inserted.
pub const WORTH_MANUAL: i64 = 800_000;

/// Worth of an automatic-regulator rod.
pub const WORTH_AUTOMATIC: i64 = 1_500_000;

/// Worth of a shortened absorber rod.
pub const WORTH_SHORTENED: i64 = 1_000_000;

/// Worth of an emergency-protection rod.
pub const WORTH_EMERGENCY: i64 = 3_000_000;

/// Largest single-rod worth.
pub const WORTH_MAX: i64 = 3_000_000;

/// Number of control rods in the fallback layout.
pub const NUM_CONTROL_RODS: usize = 211;

/// Number of fuel channels of the full core.
pub const NUM_FUEL_CHANNELS: usize = 1661;

/// Upper bound kept on the number of rods and channels, so that sums over
/// them stay within machine range.
pub const UNITS_MAX: usize = 4096;

// ---------------------------------------------------------------------------
// Thermal-hydraulics
// ---------------------------------------------------------------------------

/// Fuel temperature at zero power, K.
pub const FUEL_TEMP_BASE: i64 = 300_000_000_000;

/// Fuel temperature rise from zero to nominal power, K.
pub const FUEL_TEMP_RISE: i64 = 500_000_000_000;

/// Fuel temperature relaxation time constant: 5 s.
pub const FUEL_TAU: i64 = 5_000_000_000;

/// Coolant temperature at zero power, K.
pub const COOLANT_TEMP_BASE: i64 = 300_000_000_000;

/// Coolant temperature rise from zero to nominal power, K.
pub const COOLANT_TEMP_RISE: i64 = 250_000_000_000;

/// Coolant relaxation time constant: 3 s.
pub const COOLANT_TAU: i64 = 3_000_000_000;

/// Graphite temperature at zero power, K.
pub const GRAPHITE_TEMP_BASE: i64 = 300_000_000_000;

/// Graphite temperature rise from zero to nominal power, K.
pub const GRAPHITE_TEMP_RISE: i64 = 300_000_000_000;

/// Graphite relaxation time constant: 60 s — deliberately much slower than
/// the coolant, producing the delayed positive reactivity insertion that
/// characterizes this reactor class.
pub const GRAPHITE_TAU: i64 = 60_000_000_000;

/// Saturation temperature of the coolant at operating pressure: 558 K.
pub const COOLANT_SAT_TEMP: i64 = 558_000_000_000;

/// Void formed per K of coolant temperature above saturation: 2 %/K.
pub const VOID_PER_K: i64 = 2_000_000_000;

/// Void collapse time constant below saturation: 0.5 s.
pub const VOID_TAU: i64 = 500_000_000;

/// Void fraction cap: 80 %.
pub const VOID_MAX: i64 = 80_000_000_000;

/// Lower clamp of every temperature: 250 K.
pub const TEMP_MIN: i64 = 250_000_000_000;

/// Upper clamp of the fuel temperature: 3500 K.
pub const FUEL_TEMP_MAX: i64 = 3_500_000_000_000;

/// Upper clamp of the coolant temperature: 700 K.
pub const COOLANT_TEMP_MAX: i64 = 700_000_000_000;

/// Upper clamp of the graphite temperature: 2500 K.
pub const GRAPHITE_TEMP_MAX: i64 = 2_500_000_000_000;

// ---------------------------------------------------------------------------
// Xenon poisoning (relative units: 1.0 = 10^15 atoms/cm^3)
// ---------------------------------------------------------------------------

/// Iodine-135 decay constant: 2.9e-5 1/s.
pub const LAMBDA_IODINE: i64 = 29_000;

/// Xenon-135 decay constant: 2.1e-5 1/s.
pub const LAMBDA_XENON: i64 = 21_000;

/// Iodine production rate per unit relative flux, chosen so that the
/// equilibrium iodine concentration at nominal flux is 1.0.
pub const IODINE_YIELD_RATE: i64 = 29_000;

/// Direct xenon production rate per unit relative flux.
pub const XENON_YIELD_RATE: i64 = 49_000;

/// Xenon burn-off rate per unit relative flux: 5e-6 1/s, chosen so that
/// the equilibrium xenon concentration at nominal flux is 3.0.
pub const XENON_ABSORB_RATE: i64 = 5_000;

/// Generous upper sentinel for iodine and xenon concentrations.
pub const CONCENTRATION_MAX: i64 = 1_000_000_000_000;

// ---------------------------------------------------------------------------
// Power
// ---------------------------------------------------------------------------

/// Nominal thermal power, MW (plain integer, not fixed-point).
pub const NOMINAL_POWER_MW: i64 = 3200;

/// Nominal thermal power in fixed-point MW.
pub const NOMINAL_POWER_MW_FX: i64 = 3_200_000_000_000;

/// One hundred percent, fixed-point.
pub const HUNDRED_PERCENT: i64 = 100_000_000_000;

/// Number of samples of the axial flux profile.
pub const AXIAL_POINTS: usize = 50;

/// Infinite-medium multiplication factor used by the one-group axial
/// flux estimate.
pub const K_INFINITY: i64 = 1_050_000_000;

/// Migration area times pi squared, cm^2, for the geometric-buckling
/// correction of the one-group k_eff estimate.
pub const MIGRATION_PI2_CM2: i64 = 2_961;

/// Core height, cm.
pub const CORE_HEIGHT_CM: i64 = 700;

/// Core radius, cm.
pub const CORE_RADIUS_CM: i64 = 593;

// ---------------------------------------------------------------------------
// Spatial coupling
// ---------------------------------------------------------------------------

/// Side of the square channel grid.
pub const GRID_SIZE: i32 = 48;

/// Grid spacing in fixed-point cm (25 cm graphite block).
pub const GRID_SPACING_CM_FX: i64 = 25_000_000_000;

/// Manhattan-distance cutoff for local rod influence, in cells.
pub const ROD_INFLUENCE_RADIUS: i32 = 6;

/// Local rod worth of a cell whose neighborhood rods are all inserted.
pub const LOCAL_ROD_WORTH_MAX: i64 = 30_000_000;

/// Neighborhood rod position assumed where no rod is within the cutoff.
pub const DEFAULT_NEIGHBORHOOD_POSITION: i64 = 500_000_000;

/// Flux diffusion exchange coefficient toward each neighbor, 1/s.
pub const DIFFUSION_COEF: i64 = 50_000_000;

/// Most neighbors a cell can have (von Neumann connectivity).
pub const MAX_NEIGHBORS: usize = 4;

/// Nominal thermal power of one channel, fixed-point MW (the core power
/// divided over the full channel count).
pub const POWER_PER_CHANNEL_MW_FX: i64 = 1_926_550_271;

/// Volume of one channel, fixed-point m^3 (about 1.017e-3 m^3).
pub const CHANNEL_VOLUME_M3_FX: i64 = 1_017_000;

/// Specific heat of the coolant, fixed-point J/(kg K).
pub const CP_WATER_FX: i64 = 4_500_000_000_000;

/// One megawatt in fixed-point watts.
pub const MW_TO_W_FX: i64 = 1_000_000_000_000_000;

/// Smallest coolant heat-capacity flow (`flow * cp`) for which the
/// outlet temperature is recomputed; below it the flow counts as
/// stagnant and the outlet temperature is left as it is.
pub const MIN_FLOW_DENOM: i64 = 1_000_000_000_000;

/// Upper clamp of the computed outlet temperature.
pub const OUTLET_TEMP_MAX: i64 = 3_000_000_000_000;

/// Gaussian decay weight for local rod influence: exp(-d2 / (2 * 2.5^2))
/// in fixed point, for the squared Euclidean distances that occur within
/// the Manhattan cutoff.
pub open spec fn spec_gauss_weight(d2: int) -> int {
    if d2 == 0 {
        1_000_000_000
    } else if d2 == 1 {
        923_116_346
    } else if d2 == 2 {
        852_143_789
    } else if d2 == 4 {
        726_149_037
    } else if d2 == 5 {
        670_320_046
    } else if d2 == 8 {
        527_292_424
    } else if d2 == 9 {
        486_752_256
    } else if d2 == 10 {
        449_328_964
    } else if d2 == 13 {
        353_454_682
    } else if d2 == 16 {
        278_037_300
    } else if d2 == 17 {
        256_660_777
    } else if d2 == 18 {
        236_927_759
    } else if d2 == 20 {
        201_896_518
    } else if d2 == 25 {
        135_335_283
    } else if d2 == 26 {
        124_930_212
    } else if d2 == 36 {
        56_134_763
    } else {
        0
    }
}

/// Gaussian decay weight for local rod influence.
pub fn gauss_weight(d2: i64) -> (r: i64)
    ensures
        r as int == spec_gauss_weight(d2 as int),
        0 <= r <= 1_000_000_000,
{
    if d2 == 0 {
        1_000_000_000
    } else if d2 == 1 {
        923_116_346
    } else if d2 == 2 {
        852_143_789
    } else if d2 == 4 {
        726_149_037
    } else if d2 == 5 {
        670_320_046
    } else if d2 == 8 {
        527_292_424
    } else if d2 == 9 {
        486_752_256
    } else if d2 == 10 {
        449_328_964
    } else if d2 == 13 {
        353_454_682
    } else if d2 == 16 {
        278_037_300
    } else if d2 == 17 {
        256_660_777
    } else if d2 == 18 {
        236_927_759
    } else if d2 == 20 {
        201_896_518
    } else if d2 == 25 {
        135_335_283
    } else if d2 == 26 {
        124_930_212
    } else if d2 == 36 {
        56_134_763
    } else {
        0
    }
}

// ---------------------------------------------------------------------------
// Automatic regulator
// ---------------------------------------------------------------------------

/// Proportional gain.
pub const REGULATOR_KP: i64 = 10_000_000;

/// Integral gain.
pub const REGULATOR_KI: i64 = 1_000_000;

/// Derivative gain.
pub const REGULATOR_KD: i64 = 5_000_000;

/// Maximum rod movement speed, fraction of full travel per second.
pub const REGULATOR_ROD_SPEED: i64 = 20_000_000;

/// Power-error deadband, percent.
pub const REGULATOR_DEADBAND: i64 = 200_000_000;

/// Default target power, percent.
pub const TARGET_POWER_DEFAULT: i64 = 100_000_000_000;

/// Anti-windup clamp of the accumulated integral error.
pub const INTEGRAL_MAX: i64 = 100_000_000_000;

/// Integral decay factor applied inside the deadband: 0.99.
pub const INTEGRAL_DECAY: i64 = 990_000_000;

/// Power error considered large, percent: above it the regulator always
/// acts and its output is boosted.
pub const LARGE_ERROR: i64 = 2_000_000_000;

/// Divisor of the boost ramp: each 10% of error above the large-error
/// threshold adds 1x to the boost factor.
pub const BOOST_RAMP_DIV: i64 = 10;

/// Cap of the boost factor: 3x.
pub const BOOST_CAP: i64 = 3_000_000_000;

/// Lowest accepted target power, percent.
pub const TARGET_POWER_MIN: i64 = 5_000_000_000;

/// Highest accepted target power, percent.
pub const TARGET_POWER_MAX: i64 = 110_000_000_000;

/// Target-power change above which the integral term is pre-seeded.
pub const TARGET_CHANGE_SMALL: i64 = 1_000_000_000;

/// Factor by which a large target change pre-seeds the integral term.
pub const PRESEED_FACTOR: i64 = 5;

// ---------------------------------------------------------------------------
// Safety monitor and accident detection
// ---------------------------------------------------------------------------

/// Power alert threshold, percent.
pub const ALERT_POWER_LIMIT: i64 = 110_000_000_000;

/// Reactivity warning threshold, dollars.
pub const ALERT_RHO_DOLLARS: i64 = 500_000_000;

/// Prompt-critical threshold, dollars.
pub const PROMPT_CRITICAL_DOLLARS: i64 = 1_000_000_000;

/// Structural fuel temperature alert limit, K.
pub const ALERT_FUEL_TEMP: i64 = 2_800_000_000_000;

/// Void fraction alert threshold, percent.
pub const ALERT_VOID: i64 = 50_000_000_000;

/// Upper edge of the short-period alert band, s.
pub const ALERT_PERIOD_SHORT: i64 = 30_000_000_000;

/// Fuel temperature at which melting severity starts accumulating, K.
pub const MELT_TEMP_START: i64 = 2_800_000_000_000;

/// Fuel temperature of full melting severity, K.
pub const MELT_TEMP_FULL: i64 = 3_100_000_000_000;

/// Void fraction above which steam-generation severity contributes.
pub const EXPLOSION_VOID: i64 = 60_000_000_000;

/// Coolant temperature above which steam-generation severity contributes.
pub const EXPLOSION_COOLANT_TEMP: i64 = 560_000_000_000;

/// Severity contribution of combined high void and hot coolant.
pub const SEVERITY_STEAM: i64 = 400_000_000;

/// Severity contribution of prompt-critical reactivity.
pub const SEVERITY_PROMPT: i64 = 400_000_000;

/// Severity contribution of an extreme power excursion at positive
/// reactivity.
pub const SEVERITY_POWER: i64 = 400_000_000;

/// Power excursion threshold of the severity score, percent.
pub const EXPLOSION_POWER: i64 = 500_000_000_000;

/// Reactivity in dollars below which the reactor counts as unambiguously
/// shutting down and accident detection is bypassed.
pub const DEEP_NEGATIVE_DOLLARS: i64 = -1_000_000_000;

/// Severity score at which the accident flag latches.
pub const EXPLOSION_THRESHOLD: i64 = 1_000_000_000;

} // verus!
