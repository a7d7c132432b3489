use vstd::prelude::*;

use crate::gestures::Gesture;

verus! {

/// Tenths of a degree moved per directional pulse: the device adjusts its
/// setpoint in half-degree steps.
pub const STEP_TENTHS: i64 = 5;

/// Largest setpoint magnitude accepted, in tenths of a degree.
pub const TEMPERATURE_LIMIT: i64 = 10_000;

/// The number of pulses needed to move the setpoint from the current reading
/// to the target: the difference divided by the step size, rounded up.
pub open spec fn pulse_count_spec(current_tenths: int, target_tenths: int) -> int {
    let diff = if target_tenths >= current_tenths {
        target_tenths - current_tenths
    } else {
        current_tenths - target_tenths
    };
    (diff + 4) / 5
}

/// The fixed button-press script that moves the setpoint from the current
/// reading to the target, starting from the remote-control home screen: into
/// the menu, to the hot-water section, to the temperature screen, to the
/// desired-value field, then one pulse per half-degree step (right to raise,
/// left to lower), confirm, apply, and back home. An already matching
/// setpoint needs no gestures at all.
pub open spec fn temperature_script(current_tenths: int, target_tenths: int) -> Seq<Gesture> {
    if current_tenths == target_tenths {
        Seq::empty()
    } else {
        let dir = if target_tenths > current_tenths {
            Gesture::MoveRight
        } else {
            Gesture::MoveLeft
        };
        seq![
            Gesture::Click,
            Gesture::MoveRight,
            Gesture::MoveRight,
            Gesture::MoveRight,
            Gesture::Click,
            Gesture::MoveRight,
            Gesture::Click,
            Gesture::Click,
        ] + Seq::new(pulse_count_spec(current_tenths, target_tenths) as nat, |i: int| dir) + seq![
            Gesture::Click,
            Gesture::Click,
            Gesture::Click,
            Gesture::Click,
            Gesture::Click,
        ]
    }
}

/// Builds the gesture list that adjusts the tap-water setpoint from the
/// current reading to the target, both in tenths of a degree.
pub fn temperature_gestures(current_tenths: i64, target_tenths: i64) -> (r: Vec<Gesture>)
    requires
        -TEMPERATURE_LIMIT <= current_tenths <= TEMPERATURE_LIMIT,
        -TEMPERATURE_LIMIT <= target_tenths <= TEMPERATURE_LIMIT,
    ensures
        r@ == temperature_script(current_tenths as int, target_tenths as int),
{
    let mut v: Vec<Gesture> = Vec::new();
    if current_tenths == target_tenths {
        proof {
            assert(v@ =~= temperature_script(current_tenths as int, target_tenths as int));
        }
        return v;
    }
    let diff = if target_tenths >= current_tenths {
        target_tenths - current_tenths
    } else {
        current_tenths - target_tenths
    };
    let pulses = ((diff + 4) as u64) / 5;
    let dir = if target_tenths > current_tenths {
        Gesture::MoveRight
    } else {
        Gesture::MoveLeft
    };
    v.push(Gesture::Click);
    v.push(Gesture::MoveRight);
    v.push(Gesture::MoveRight);
    v.push(Gesture::MoveRight);
    v.push(Gesture::Click);
    v.push(Gesture::MoveRight);
    v.push(Gesture::Click);
    v.push(Gesture::Click);
    let mut i: u64 = 0;
    while i < pulses
        invariant
            0 <= i <= pulses,
            pulses == pulse_count_spec(current_tenths as int, target_tenths as int),
            v@.len() == 8 + i,
            v@ =~= seq![
                Gesture::Click,
                Gesture::MoveRight,
                Gesture::MoveRight,
                Gesture::MoveRight,
                Gesture::Click,
                Gesture::MoveRight,
                Gesture::Click,
                Gesture::Click,
            ] + Seq::new(i as nat, |j: int| dir),
        decreases pulses - i,
    {
        v.push(dir);
        i = i + 1;
    }
    v.push(Gesture::Click);
    v.push(Gesture::Click);
    v.push(Gesture::Click);
    v.push(Gesture::Click);
    v.push(Gesture::Click);
    proof {
        assert(v@ =~= temperature_script(current_tenths as int, target_tenths as int));
    }
    v
}

} // verus!
