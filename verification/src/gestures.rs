use vstd::prelude::*;

use vstd::string::StringExecFns;

verus! {

/// One simulated remote-control action: a directional pulse or a select
/// click. On the wire every gesture is the gesture's own pulse followed by a
/// cursor-confirm pulse.
#[derive(Debug, Clone, Copy, PartialEq, Eq, Structural)]
pub enum Gesture {
    MoveRight,
    MoveLeft,
    Click,
}

/// The first protocol message of a gesture.
pub open spec fn gesture_pulse_spec(g: Gesture) -> Seq<char> {
    match g {
        Gesture::MoveRight => "MOVE;0"@,
        Gesture::MoveLeft => "MOVE;1"@,
        Gesture::Click => "MOVE;2"@,
    }
}

/// The cursor-confirm message that follows every gesture pulse.
pub open spec fn confirm_pulse_spec() -> Seq<char> {
    "MOVE;6"@
}

/// The two protocol exchanges of one gesture, in order.
pub fn gesture_messages(g: &Gesture) -> (r: (String, String))
    ensures
        r.0@ == gesture_pulse_spec(*g),
        r.1@ == confirm_pulse_spec(),
{
    let pulse = match g {
        Gesture::MoveRight => String::from_str("MOVE;0"),
        Gesture::MoveLeft => String::from_str("MOVE;1"),
        Gesture::Click => String::from_str("MOVE;2"),
    };
    (pulse, String::from_str("MOVE;6"))
}

/// The fixed button-press script that toggles the continuous-disinfection
/// checkbox from the remote-control home screen: into the menu, to the
/// hot-water section, to the maintenance programme, to the thermal
/// disinfection screen, across to the continuous checkbox, toggle, apply, and
/// back home. The script is data tied to the target firmware's menu layout.
pub open spec fn toggle_disinfection_script() -> Seq<Gesture> {
    seq![
        Gesture::Click,
        Gesture::MoveRight,
        Gesture::MoveRight,
        Gesture::MoveRight,
        Gesture::Click,
        Gesture::MoveRight,
        Gesture::MoveRight,
        Gesture::MoveRight,
        Gesture::MoveRight,
        Gesture::Click,
        Gesture::Click,
        Gesture::MoveRight,
        Gesture::MoveRight,
        Gesture::MoveRight,
        Gesture::MoveRight,
        Gesture::MoveRight,
        Gesture::MoveRight,
        Gesture::MoveRight,
        Gesture::Click,
        Gesture::MoveRight,
        Gesture::Click,
        Gesture::Click,
        Gesture::Click,
        Gesture::Click,
        Gesture::Click,
    ]
}

/// The menu path from which the toggle script starts.
pub fn remote_control_path() -> (r: &'static str)
    ensures
        r@ == "Afstandbediening"@,
{
    "Afstandbediening"
}

/// The menu path of the tap-water weekly schedule screen.
pub fn tap_water_schedule_path() -> (r: &'static str)
    ensures
        r@ == "Klokprogramma > Warmwater > Week"@,
{
    "Klokprogramma > Warmwater > Week"
}

/// The menu path of the heating weekly schedule screen.
pub fn heating_schedule_path() -> (r: &'static str)
    ensures
        r@ == "Klokprogramma > Verwarmen > Week"@,
{
    "Klokprogramma > Verwarmen > Week"
}

/// The menu path of the temperature listing screen.
pub fn temperatures_path() -> (r: &'static str)
    ensures
        r@ == "Informatie > Temperaturen"@,
{
    "Informatie > Temperaturen"
}

/// The field of the temperature listing that shows the configured tap-water
/// setpoint.
pub fn tap_water_setpoint_field() -> (r: &'static str)
    ensures
        r@ == "Tapwater ingesteld"@,
{
    "Tapwater ingesteld"
}

/// Builds the toggle script as a gesture list.
pub fn toggle_disinfection_gestures() -> (r: Vec<Gesture>)
    ensures
        r@ == toggle_disinfection_script(),
{
    let mut v: Vec<Gesture> = Vec::new();
    v.push(Gesture::Click);
    v.push(Gesture::MoveRight);
    v.push(Gesture::MoveRight);
    v.push(Gesture::MoveRight);
    v.push(Gesture::Click);
    v.push(Gesture::MoveRight);
    v.push(Gesture::MoveRight);
    v.push(Gesture::MoveRight);
    v.push(Gesture::MoveRight);
    v.push(Gesture::Click);
    v.push(Gesture::Click);
    v.push(Gesture::MoveRight);
    v.push(Gesture::MoveRight);
    v.push(Gesture::MoveRight);
    v.push(Gesture::MoveRight);
    v.push(Gesture::MoveRight);
    v.push(Gesture::MoveRight);
    v.push(Gesture::MoveRight);
    v.push(Gesture::Click);
    v.push(Gesture::MoveRight);
    v.push(Gesture::Click);
    v.push(Gesture::Click);
    v.push(Gesture::Click);
    v.push(Gesture::Click);
    v.push(Gesture::Click);
    proof {
        assert(v@ =~= toggle_disinfection_script());
    }
    v
}

} // verus!
