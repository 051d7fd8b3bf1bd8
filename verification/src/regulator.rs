//! Automatic power regulator: a PID loop that drives the Automatic-rod
//! bank toward a target power, with deadband, anti-windup, boosted
//! response to large errors, and a hard limit on rod speed.

use vstd::prelude::*;

verus! {

use crate::fx::{SCALE, fmul, fdiv, tdiv, clip, abs_i, mul_fx, div_fx, mul_div, clamp_fx,
    lemma_fmul_fits, lemma_muldiv_fits, lemma_tdiv_abs};
use crate::params::{REGULATOR_KP, REGULATOR_KI, REGULATOR_KD, REGULATOR_ROD_SPEED,
    REGULATOR_DEADBAND, TARGET_POWER_DEFAULT, INTEGRAL_MAX, INTEGRAL_DECAY, LARGE_ERROR,
    BOOST_RAMP_DIV, BOOST_CAP, TARGET_POWER_MIN, TARGET_POWER_MAX, TARGET_CHANGE_SMALL,
    PRESEED_FACTOR, DT_MIN, DT_MAX};

/// Settings and state of the automatic power regulator.
#[derive(Clone, Copy, Debug, PartialEq, Eq, Structural)]
pub struct AutoRegulatorSettings {
    /// Whether automatic regulation is active.
    pub enabled: bool,
    /// Target power, percent of nominal.
    pub target_power: i64,
    /// Proportional gain.
    pub kp: i64,
    /// Integral gain.
    pub ki: i64,
    /// Derivative gain.
    pub kd: i64,
    /// Accumulated integral error.
    pub integral_error: i64,
    /// Previous power error, for the derivative term.
    pub last_error: i64,
    /// Maximum rod movement speed, fraction of travel per second.
    pub rod_speed: i64,
    /// Power-error deadband, percent.
    pub deadband: i64,
}

/// A regulator in a well-formed state: target within its clamp range,
/// gains and speeds bounded, accumulated terms bounded.
pub open spec fn wf_regulator(s: AutoRegulatorSettings) -> bool {
    &&& TARGET_POWER_MIN <= s.target_power <= TARGET_POWER_MAX
    &&& 0 <= s.kp <= 100_000_000
    &&& 0 <= s.ki <= 100_000_000
    &&& 0 <= s.kd <= 100_000_000
    &&& 0 <= s.rod_speed <= SCALE
    &&& 0 <= s.deadband <= 10_000_000_000
    &&& abs_i(s.integral_error as int) <= 600_000_000_000
    &&& abs_i(s.last_error as int) <= 2_000_000_000_000
}

/// The default regulator configuration: disabled, targeting nominal
/// power, with the tuned gains and a realistic rod speed.
pub open spec fn spec_default_regulator() -> AutoRegulatorSettings {
    AutoRegulatorSettings {
        enabled: false,
        target_power: TARGET_POWER_DEFAULT,
        kp: REGULATOR_KP,
        ki: REGULATOR_KI,
        kd: REGULATOR_KD,
        integral_error: 0,
        last_error: 0,
        rod_speed: REGULATOR_ROD_SPEED,
        deadband: REGULATOR_DEADBAND,
    }
}

impl Default for AutoRegulatorSettings {
    /// The default regulator configuration (see
    /// [`spec_default_regulator`]).
    fn default() -> (r: Self)
        ensures
            r == spec_default_regulator(),
            wf_regulator(r),
    {
        AutoRegulatorSettings {
            enabled: false,
            target_power: TARGET_POWER_DEFAULT,
            kp: REGULATOR_KP,
            ki: REGULATOR_KI,
            kd: REGULATOR_KD,
            integral_error: 0,
            last_error: 0,
            rod_speed: REGULATOR_ROD_SPEED,
            deadband: REGULATOR_DEADBAND,
        }
    }
}

/// The boost factor applied to the PID output for large errors: one plus
/// one tenth of the error excess over the large-error threshold, capped.
pub open spec fn spec_boost(err_abs: int) -> int {
    let raw: int = SCALE + tdiv(err_abs - LARGE_ERROR, BOOST_RAMP_DIV as int);
    if raw > BOOST_CAP {
        BOOST_CAP as int
    } else {
        raw
    }
}

/// The rod adjustment the regulator commands for one tick: zero inside
/// the deadband unless the error is large; otherwise the PID output,
/// boosted for large errors, clamped to the maximum rod travel for this
/// tick (`rod_speed * dt`).
pub open spec fn spec_ar_adjustment(s: AutoRegulatorSettings, current_power: int, dt: int) ->
    int {
    let error: int = s.target_power - current_power;
    if abs_i(error) <= s.deadband && abs_i(error) < LARGE_ERROR {
        0
    } else {
        let p_term: int = fmul(s.kp as int, error);
        let i_term: int = fmul(s.ki as int, s.integral_error as int);
        let d_term: int = fdiv(fmul(s.kd as int, error - s.last_error), dt);
        let out: int = p_term + i_term + d_term;
        let boosted: int = if abs_i(error) > LARGE_ERROR {
            fmul(out, spec_boost(abs_i(error)))
        } else {
            out
        };
        let max_move: int = fmul(s.rod_speed as int, dt);
        clip(boosted, -max_move, max_move)
    }
}

/// Rod adjustment for one tick (see [`spec_ar_adjustment`]). The result
/// never exceeds the maximum rod travel `rod_speed * dt` in magnitude.
pub fn calculate_ar_adjustment(s: &AutoRegulatorSettings, current_power: i64, dt: i64) -> (r:
    i64)
    requires
        wf_regulator(*s),
        0 <= current_power <= 1_100_000_000_000,
        DT_MIN <= dt <= DT_MAX,
    ensures
        r as int == spec_ar_adjustment(*s, current_power as int, dt as int),
        abs_i(r as int) <= fmul(s.rod_speed as int, dt as int),
{
    let error: i64 = s.target_power - current_power;
    let err_abs: i64 = if error >= 0 {
        error
    } else {
        -error
    };
    proof {
        lemma_fmul_fits(s.rod_speed as int, dt as int, SCALE as int, DT_MAX as int);
        assert(s.rod_speed as int * dt as int >= 0) by (nonlinear_arith)
            requires
                s.rod_speed >= 0,
                dt >= 0,
        ;
        lemma_tdiv_abs(s.rod_speed as int * dt as int, SCALE as int);
    }
    let max_move: i64 = mul_fx(s.rod_speed, dt);
    if err_abs <= s.deadband && err_abs < LARGE_ERROR {
        proof {
            assert(clip(0, -max_move as int, max_move as int) == 0);
        }
        0
    } else {
        proof {
            lemma_fmul_fits(s.kp as int, error as int, 100_000_000, 1_200_000_000_000);
            lemma_fmul_fits(s.ki as int, s.integral_error as int, 100_000_000,
                600_000_000_000);
            lemma_fmul_fits(s.kd as int, error - s.last_error, 100_000_000, 3_200_000_000_000);
        }
        let p_term: i64 = mul_fx(s.kp, error);
        let i_term: i64 = mul_fx(s.ki, s.integral_error);
        let d_num: i64 = mul_fx(s.kd, error - s.last_error);
        proof {
            lemma_muldiv_fits(d_num as int, SCALE as int, dt as int, 320_000_000_000,
                SCALE as int, DT_MIN as int);
        }
        let d_term: i64 = div_fx(d_num, dt);
        let out: i64 = p_term + i_term + d_term;
        let boosted: i64 = if err_abs > LARGE_ERROR {
            let raw: i64 = SCALE + mul_div(err_abs - LARGE_ERROR, 1, BOOST_RAMP_DIV);
            let boost: i64 = if raw > BOOST_CAP {
                BOOST_CAP
            } else {
                raw
            };
            proof {
                lemma_fmul_fits(out as int, boost as int, 400_000_000_000_000,
                    BOOST_CAP as int);
            }
            mul_fx(out, boost)
        } else {
            out
        };
        clamp_fx(boosted, -max_move, max_move)
    }
}

/// The regulator state after one tick at `current_power`: the integral
/// error accumulates (clamped) outside the deadband and decays inside
/// it, and the error is remembered for the derivative term. Only applied
/// while enabled and the emergency shutdown is inactive.
pub open spec fn spec_regulator_after_step(s: AutoRegulatorSettings, current_power: int,
    dt: int, scram_active: bool) -> AutoRegulatorSettings {
    if s.enabled && !scram_active {
        let error: int = s.target_power - current_power;
        let integral: int = if abs_i(error) > s.deadband {
            clip(s.integral_error + fmul(error, dt), -(INTEGRAL_MAX as int), INTEGRAL_MAX as int)
        } else {
            fmul(s.integral_error as int, INTEGRAL_DECAY as int)
        };
        AutoRegulatorSettings {
            integral_error: integral as i64,
            last_error: error as i64,
            ..s
        }
    } else {
        s
    }
}

/// Advance the regulator's PID state by one tick (see
/// [`spec_regulator_after_step`]).
pub fn regulator_after_step(s: &AutoRegulatorSettings, current_power: i64, dt: i64,
    scram_active: bool) -> (r: AutoRegulatorSettings)
    requires
        wf_regulator(*s),
        0 <= current_power <= 1_100_000_000_000,
        DT_MIN <= dt <= DT_MAX,
    ensures
        r == spec_regulator_after_step(*s, current_power as int, dt as int, scram_active),
        wf_regulator(r),
{
    if s.enabled && !scram_active {
        let error: i64 = s.target_power - current_power;
        let err_abs: i64 = if error >= 0 {
            error
        } else {
            -error
        };
        let integral: i64 = if err_abs > s.deadband {
            proof {
                lemma_fmul_fits(error as int, dt as int, 1_200_000_000_000, DT_MAX as int);
            }
            clamp_fx(s.integral_error + mul_fx(error, dt), -INTEGRAL_MAX, INTEGRAL_MAX)
        } else {
            proof {
                lemma_fmul_fits(s.integral_error as int, INTEGRAL_DECAY as int,
                    600_000_000_000, INTEGRAL_DECAY as int);
            }
            mul_fx(s.integral_error, INTEGRAL_DECAY)
        };
        AutoRegulatorSettings {
            integral_error: integral,
            last_error: error,
            ..*s
        }
    } else {
        *s
    }
}

/// The regulator after its enabled flag is switched: enabling resets the
/// accumulated PID terms.
pub open spec fn spec_regulator_set_enabled(s: AutoRegulatorSettings, enabled: bool) ->
    AutoRegulatorSettings {
    if enabled {
        AutoRegulatorSettings { enabled: true, integral_error: 0, last_error: 0, ..s }
    } else {
        AutoRegulatorSettings { enabled: false, ..s }
    }
}

/// Switch the regulator on or off (see [`spec_regulator_set_enabled`]).
pub fn regulator_set_enabled(s: &AutoRegulatorSettings, enabled: bool) -> (r:
    AutoRegulatorSettings)
    requires
        wf_regulator(*s),
    ensures
        r == spec_regulator_set_enabled(*s, enabled),
        wf_regulator(r),
{
    if enabled {
        AutoRegulatorSettings { enabled: true, integral_error: 0, last_error: 0, ..*s }
    } else {
        AutoRegulatorSettings { enabled: false, ..*s }
    }
}

/// The regulator after a new target power is set: the target is clamped
/// to its range; a large change pre-seeds the integral term (to cut the
/// response lag) and a small one clears it.
pub open spec fn spec_regulator_retarget(s: AutoRegulatorSettings, target_percent: int) ->
    AutoRegulatorSettings {
    let new_target: int = clip(target_percent, TARGET_POWER_MIN as int, TARGET_POWER_MAX as int);
    let change: int = new_target - s.target_power;
    if abs_i(change) > TARGET_CHANGE_SMALL {
        AutoRegulatorSettings {
            target_power: new_target as i64,
            integral_error: (change * PRESEED_FACTOR) as i64,
            last_error: change as i64,
            ..s
        }
    } else {
        AutoRegulatorSettings { target_power: new_target as i64, integral_error: 0, ..s }
    }
}

/// Set a new target power (see [`spec_regulator_retarget`]). The stored
/// target is exactly the requested one clamped to its range.
pub fn regulator_retarget(s: &AutoRegulatorSettings, target_percent: i64) -> (r:
    AutoRegulatorSettings)
    requires
        wf_regulator(*s),
    ensures
        r == spec_regulator_retarget(*s, target_percent as int),
        r.target_power as int == clip(target_percent as int, TARGET_POWER_MIN as int,
            TARGET_POWER_MAX as int),
        wf_regulator(r),
{
    let new_target: i64 = clamp_fx(target_percent, TARGET_POWER_MIN, TARGET_POWER_MAX);
    let change: i64 = new_target - s.target_power;
    let change_abs: i64 = if change >= 0 {
        change
    } else {
        -change
    };
    if change_abs > TARGET_CHANGE_SMALL {
        AutoRegulatorSettings {
            target_power: new_target,
            integral_error: change * PRESEED_FACTOR,
            last_error: change,
            ..*s
        }
    } else {
        AutoRegulatorSettings { target_power: new_target, integral_error: 0, ..*s }
    }
}

} // verus!
