//! Safety monitor and accident detector: per-tick alerts recomputed from
//! scratch against fixed thresholds, and the one-shot severity score that
//! latches the terminal accident flag.

use vstd::prelude::*;

verus! {

use crate::fx::{SCALE, tdiv, clip, mul_div, clamp_fx, lemma_muldiv_fits};
use crate::params::{ALERT_POWER_LIMIT, ALERT_RHO_DOLLARS, PROMPT_CRITICAL_DOLLARS,
    ALERT_FUEL_TEMP, ALERT_VOID, ALERT_PERIOD_SHORT, MELT_TEMP_START, MELT_TEMP_FULL,
    EXPLOSION_VOID, EXPLOSION_COOLANT_TEMP, SEVERITY_STEAM, SEVERITY_PROMPT, SEVERITY_POWER,
    EXPLOSION_POWER, DEEP_NEGATIVE_DOLLARS, TEMP_MIN, FUEL_TEMP_MAX, COOLANT_TEMP_MAX,
    VOID_MAX};

/// A safety alert raised for the current tick.
#[derive(Clone, Copy, Debug, PartialEq, Eq, Structural)]
pub enum Alert {
    /// Power above 110% of nominal.
    PowerHigh,
    /// Reactivity above the warning threshold of half a dollar.
    ReactivityHigh,
    /// Reactivity above one dollar: prompt critical.
    PromptCritical,
    /// Fuel temperature above the structural limit.
    FuelTempHigh,
    /// Void fraction above half, feeding the positive void coefficient.
    VoidHigh,
    /// Reactor period positive and dangerously short.
    ShortPeriod,
    /// The emergency shutdown was triggered this tick.
    ScramInitiated,
    /// The terminal accident has occurred.
    Explosion,
}

impl Alert {
    /// Operator-facing text of the alert.
    pub fn message(&self) -> (r: &'static str) {
        match self {
            Alert::PowerHigh => "WARNING: Power exceeds 110% nominal!",
            Alert::ReactivityHigh => "WARNING: Reactivity exceeds 0.5$!",
            Alert::PromptCritical => "CRITICAL: Prompt critical condition!",
            Alert::FuelTempHigh => "WARNING: Fuel temperature exceeds limit!",
            Alert::VoidHigh => "WARNING: High void fraction - positive reactivity feedback!",
            Alert::ShortPeriod => "WARNING: Short reactor period!",
            Alert::ScramInitiated => "SCRAM INITIATED!",
            Alert::Explosion => "*** STEAM EXPLOSION - CORE DESTRUCTION ***",
        }
    }
}

/// The alert list recomputed for one tick, in a fixed order, one entry
/// per threshold crossed.
pub open spec fn spec_alerts(power_percent: int, reactivity_dollars: int, fuel_temp: int,
    coolant_void: int, period: int) -> Seq<Alert> {
    let a0: Seq<Alert> = if power_percent > ALERT_POWER_LIMIT {
        seq![Alert::PowerHigh]
    } else {
        seq![]
    };
    let a1: Seq<Alert> = if reactivity_dollars > ALERT_RHO_DOLLARS {
        seq![Alert::ReactivityHigh]
    } else {
        seq![]
    };
    let a2: Seq<Alert> = if reactivity_dollars > PROMPT_CRITICAL_DOLLARS {
        seq![Alert::PromptCritical]
    } else {
        seq![]
    };
    let a3: Seq<Alert> = if fuel_temp > ALERT_FUEL_TEMP {
        seq![Alert::FuelTempHigh]
    } else {
        seq![]
    };
    let a4: Seq<Alert> = if coolant_void > ALERT_VOID {
        seq![Alert::VoidHigh]
    } else {
        seq![]
    };
    let a5: Seq<Alert> = if 0 < period < ALERT_PERIOD_SHORT {
        seq![Alert::ShortPeriod]
    } else {
        seq![]
    };
    a0 + a1 + a2 + a3 + a4 + a5
}

/// Recompute the alert list for the current tick (see [`spec_alerts`]).
pub fn check_safety_limits(power_percent: i64, reactivity_dollars: i64, fuel_temp: i64,
    coolant_void: i64, period: i64) -> (r: Vec<Alert>)
    ensures
        r@ == spec_alerts(power_percent as int, reactivity_dollars as int, fuel_temp as int,
            coolant_void as int, period as int),
{
    let mut alerts: Vec<Alert> = Vec::new();
    if power_percent > ALERT_POWER_LIMIT {
        alerts.push(Alert::PowerHigh);
    }
    if reactivity_dollars > ALERT_RHO_DOLLARS {
        alerts.push(Alert::ReactivityHigh);
    }
    if reactivity_dollars > PROMPT_CRITICAL_DOLLARS {
        alerts.push(Alert::PromptCritical);
    }
    if fuel_temp > ALERT_FUEL_TEMP {
        alerts.push(Alert::FuelTempHigh);
    }
    if coolant_void > ALERT_VOID {
        alerts.push(Alert::VoidHigh);
    }
    if 0 < period && period < ALERT_PERIOD_SHORT {
        alerts.push(Alert::ShortPeriod);
    }
    proof {
        assert(alerts@ =~= spec_alerts(power_percent as int, reactivity_dollars as int,
            fuel_temp as int, coolant_void as int, period as int));
    }
    alerts
}

/// Severity of fuel melting: ramps from zero at the onset temperature to
/// one at full melting.
pub open spec fn spec_melt_severity(fuel_temp: int) -> int {
    clip(tdiv((fuel_temp - MELT_TEMP_START) * SCALE, MELT_TEMP_FULL - MELT_TEMP_START), 0,
        SCALE as int)
}

/// Accident severity score for the current tick: zero while the reactor
/// is unambiguously shutting down (deeply negative reactivity);
/// otherwise the sum of the melting ramp, a steam-generation
/// contribution (high void with hot coolant), a prompt-criticality
/// contribution, and an extreme-power contribution at positive
/// reactivity.
pub open spec fn spec_explosion_severity(fuel_temp: int, coolant_temp: int, coolant_void: int,
    reactivity_dollars: int, power_percent: int) -> int {
    if reactivity_dollars <= DEEP_NEGATIVE_DOLLARS {
        0
    } else {
        let melt: int = spec_melt_severity(fuel_temp);
        let steam: int = if coolant_void > EXPLOSION_VOID && coolant_temp
            > EXPLOSION_COOLANT_TEMP {
            SEVERITY_STEAM as int
        } else {
            0
        };
        let prompt: int = if reactivity_dollars > PROMPT_CRITICAL_DOLLARS {
            SEVERITY_PROMPT as int
        } else {
            0
        };
        let excursion: int = if power_percent > EXPLOSION_POWER && reactivity_dollars > 0 {
            SEVERITY_POWER as int
        } else {
            0
        };
        melt + steam + prompt + excursion
    }
}

/// Accident severity score (see [`spec_explosion_severity`]); the caller
/// latches the terminal flag once it reaches the threshold.
pub fn detect_explosion(fuel_temp: i64, coolant_temp: i64, coolant_void: i64,
    reactivity_dollars: i64, power_percent: i64) -> (r: i64)
    requires
        TEMP_MIN <= fuel_temp <= FUEL_TEMP_MAX,
        TEMP_MIN <= coolant_temp <= COOLANT_TEMP_MAX,
        0 <= coolant_void <= VOID_MAX,
        -200_000_000_000 <= reactivity_dollars <= 200_000_000_000,
        0 <= power_percent <= 1_100_000_000_000,
    ensures
        r as int == spec_explosion_severity(fuel_temp as int, coolant_temp as int,
            coolant_void as int, reactivity_dollars as int, power_percent as int),
        0 <= r <= 3 * SCALE,
{
    if reactivity_dollars <= DEEP_NEGATIVE_DOLLARS {
        0
    } else {
        proof {
            lemma_muldiv_fits(fuel_temp - MELT_TEMP_START, SCALE as int,
                MELT_TEMP_FULL - MELT_TEMP_START, 4_000_000_000_000, SCALE as int,
                MELT_TEMP_FULL - MELT_TEMP_START);
        }
        let melt: i64 = clamp_fx(mul_div(fuel_temp - MELT_TEMP_START, SCALE,
            MELT_TEMP_FULL - MELT_TEMP_START), 0, SCALE);
        let steam: i64 = if coolant_void > EXPLOSION_VOID && coolant_temp
            > EXPLOSION_COOLANT_TEMP {
            SEVERITY_STEAM
        } else {
            0
        };
        let prompt: i64 = if reactivity_dollars > PROMPT_CRITICAL_DOLLARS {
            SEVERITY_PROMPT
        } else {
            0
        };
        let excursion: i64 = if power_percent > EXPLOSION_POWER && reactivity_dollars > 0 {
            SEVERITY_POWER
        } else {
            0
        };
        melt + steam + prompt + excursion
    }
}

} // verus!
