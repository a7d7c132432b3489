use vstd::prelude::*;

use crate::prices::{SpotPrice, window_wf, valid_price, TIME_LIMIT};

verus! {

/// The state a run reads at its start and writes at its end: whether the
/// continuous-disinfection mode is on, when the last disinfection cycle
/// finished, and the window the run planned (kept for diagnostics).
pub struct State {
    pub desinfection_enabled: bool,
    pub desinfection_finished_at: Option<i64>,
    pub planned_spot_prices: Option<Vec<SpotPrice>>,
}

/// Seconds in the seven days assumed since the last disinfection when no
/// prior state says otherwise.
pub const DEFAULT_LOOKBACK_SECONDS: i64 = 604_800;

/// The temperature, in tenths of a degree, the tap water is driven to while
/// a disinfection cycle is scheduled.
pub const MAXIMUM_TAP_WATER_TEMPERATURE_TENTHS: i64 = 580;

/// Whether the prior state says the continuous-disinfection mode is on; a
/// missing state means off.
pub fn prior_desinfection_enabled(prior: &Option<State>) -> (r: bool)
    ensures
        r == (match *prior {
            Some(st) => st.desinfection_enabled,
            None => false,
        }),
{
    match prior {
        Some(st) => st.desinfection_enabled,
        None => false,
    }
}

/// When the last disinfection cycle finished: taken from the prior state,
/// or assumed seven days before now when nothing was recorded.
pub fn prior_desinfection_finished_at(prior: &Option<State>, now: i64) -> (r: i64)
    requires
        -TIME_LIMIT <= now <= TIME_LIMIT,
    ensures
        r as int == (match *prior {
            Some(st) => (match st.desinfection_finished_at {
                Some(at) => at as int,
                None => now - DEFAULT_LOOKBACK_SECONDS,
            }),
            None => now - DEFAULT_LOOKBACK_SECONDS,
        }),
{
    match prior {
        Some(st) => match st.desinfection_finished_at {
            Some(at) => at,
            None => now - DEFAULT_LOOKBACK_SECONDS,
        },
        None => now - DEFAULT_LOOKBACK_SECONDS,
    }
}

/// What a run leaves behind once the chosen window has been applied to the
/// device.
pub struct RunOutcome {
    pub toggle_desinfection: bool,
    pub target_temperature_tenths: i64,
    pub new_state: State,
}

/// Settles the end of a run over a non-empty chosen window (after any
/// jitter): the disinfection toggle is pressed only when the desired mode
/// differs from the recorded one; the setpoint goes to the disinfection
/// ceiling during a disinfection and to the configured temperature
/// otherwise; and the new state records the desired mode, moves the
/// finished-at mark to the window's end only for a disinfection, and keeps
/// the window itself.
pub fn finalize_run(
    current_enabled: bool,
    desinfection_finished_at: i64,
    desinfection_desired: bool,
    window: Vec<SpotPrice>,
    desired_tap_water_temperature_tenths: i64,
) -> (r: RunOutcome)
    requires
        window@.len() > 0,
        window_wf(window@),
    ensures
        r.toggle_desinfection == (desinfection_desired != current_enabled),
        r.target_temperature_tenths == if desinfection_desired {
            MAXIMUM_TAP_WATER_TEMPERATURE_TENTHS as int
        } else {
            desired_tap_water_temperature_tenths as int
        },
        r.new_state.desinfection_enabled == desinfection_desired,
        r.new_state.desinfection_finished_at == Some(
            if desinfection_desired {
                window@.last().till
            } else {
                desinfection_finished_at
            },
        ),
        (match r.new_state.planned_spot_prices {
            Some(w) => w@ == window@,
            None => false,
        }),
{
    let toggle = desinfection_desired != current_enabled;
    let target = if desinfection_desired {
        MAXIMUM_TAP_WATER_TEMPERATURE_TENTHS
    } else {
        desired_tap_water_temperature_tenths
    };
    let finished_at = if desinfection_desired {
        proof {
            assert(valid_price(window@[window@.len() - 1]));
        }
        window[window.len() - 1].till
    } else {
        desinfection_finished_at
    };
    RunOutcome {
        toggle_desinfection: toggle,
        target_temperature_tenths: target,
        new_state: State {
            desinfection_enabled: desinfection_desired,
            desinfection_finished_at: Some(finished_at),
            planned_spot_prices: Some(window),
        },
    }
}

} // verus!
