use heatpump_planner::gestures::{Gesture, gesture_messages, toggle_disinfection_gestures};
use heatpump_planner::messages::{get_message, login_message, save_message, set_message};
use heatpump_planner::schedule::{
    heating_schedule_messages, pack_slot, tap_water_schedule_messages, unpack_slot,
};
use heatpump_planner::temperature::temperature_gestures;

fn two_slots() -> Vec<String> {
    vec!["0xa57344".to_string(), "0xa53c8c".to_string()]
}

fn five_slots() -> Vec<String> {
    vec![
        "0xa57344".to_string(),
        "0xa53c8c".to_string(),
        "0xa47ee4".to_string(),
        "0xa6630c".to_string(),
        "0xa68d74".to_string(),
    ]
}

#[test]
fn packing_matches_the_device_fixture_values() {
    // a slot showing 00:00 - 01:00 carries 65536 * 60
    assert_eq!(pack_slot(0, 60), 3932160);
    // a slot showing 10:00 - 00:00 carries 600
    assert_eq!(pack_slot(600, 0), 600);
    // a slot showing 00:00 - 03:00 carries 65536 * 180
    assert_eq!(pack_slot(0, 180), 11796480);
}

#[test]
fn packing_round_trips() {
    assert_eq!(unpack_slot(pack_slot(600, 0)), (600, 0));
    assert_eq!(unpack_slot(pack_slot(0, 180)), (0, 180));
    assert_eq!(unpack_slot(pack_slot(180, 1320)), (180, 1320));
    assert_eq!(unpack_slot(86507700), (180, 1320));
}

#[test]
fn heating_schedule_encodes_a_morning_block_into_the_first_slot() {
    // blocking [00:00, 10:00) in a two-slot schedule: slot one carries
    // 65536 * 600, slot two stays cleared
    let messages = heating_schedule_messages(&two_slots(), Some((0, 600)));

    assert_eq!(
        messages,
        vec![
            "SET;set_0xa57344;0".to_string(),
            "SET;set_0xa53c8c;0".to_string(),
            "SET;set_0xa57344;39321600".to_string(),
        ]
    );
}

#[test]
fn tap_water_schedule_encodes_a_wrapping_interval_into_one_slot() {
    // heating tap water over [22:00, 03:00) crosses midnight: the single
    // inactive remainder [03:00, 22:00) goes into the first slot
    let messages = tap_water_schedule_messages(&two_slots(), Some((1320, 180)));

    assert_eq!(
        messages,
        vec![
            "SET;set_0xa57344;0".to_string(),
            "SET;set_0xa53c8c;0".to_string(),
            "SET;set_0xa57344;86507700".to_string(),
        ]
    );
}

#[test]
fn tap_water_schedule_brackets_a_daytime_interval() {
    // heating tap water over [03:00, 05:00): the first slot blocks
    // [00:00, 03:00), the last slot blocks [05:00, 00:00)
    let messages = tap_water_schedule_messages(&five_slots(), Some((180, 300)));

    assert_eq!(
        messages,
        vec![
            "SET;set_0xa57344;0".to_string(),
            "SET;set_0xa53c8c;0".to_string(),
            "SET;set_0xa47ee4;0".to_string(),
            "SET;set_0xa6630c;0".to_string(),
            "SET;set_0xa68d74;0".to_string(),
            "SET;set_0xa57344;11796480".to_string(),
            "SET;set_0xa68d74;300".to_string(),
        ]
    );
}

#[test]
fn schedules_without_a_usable_window_only_reset() {
    let messages = tap_water_schedule_messages(&five_slots(), None);
    assert_eq!(messages.len(), 5);
    assert_eq!(messages[4], "SET;set_0xa68d74;0".to_string());

    // a single-slot schedule is never written beyond the reset
    let one = vec!["0xa57344".to_string()];
    let messages = heating_schedule_messages(&one, Some((0, 600)));
    assert_eq!(messages, vec!["SET;set_0xa57344;0".to_string()]);
}

#[test]
fn heating_schedule_splits_a_wrapping_block_across_first_and_last_slots() {
    // blocking [22:00, 03:00): slot one blocks [22:00, 00:00), the last
    // slot blocks [00:00, 03:00)
    let messages = heating_schedule_messages(&five_slots(), Some((1320, 180)));

    assert_eq!(messages[5], "SET;set_0xa57344;1320".to_string());
    assert_eq!(messages[6], "SET;set_0xa68d74;11796480".to_string());
}

#[test]
fn protocol_messages_render_exactly() {
    assert_eq!(login_message("999999"), "LOGIN;999999".to_string());
    assert_eq!(get_message("0x45df90"), "GET;0x45df90".to_string());
    assert_eq!(set_message("0xa57344", 39321600), "SET;set_0xa57344;39321600".to_string());
    assert_eq!(set_message("0xa57344", 0), "SET;set_0xa57344;0".to_string());
    assert_eq!(save_message(), "SAVE;1".to_string());
}

#[test]
fn gestures_render_their_pulse_pairs() {
    assert_eq!(
        gesture_messages(&Gesture::MoveRight),
        ("MOVE;0".to_string(), "MOVE;6".to_string())
    );
    assert_eq!(
        gesture_messages(&Gesture::MoveLeft),
        ("MOVE;1".to_string(), "MOVE;6".to_string())
    );
    assert_eq!(
        gesture_messages(&Gesture::Click),
        ("MOVE;2".to_string(), "MOVE;6".to_string())
    );

    let script = toggle_disinfection_gestures();
    assert_eq!(script.len(), 25);
    assert_eq!(script[0], Gesture::Click);
    assert_eq!(script[1], Gesture::MoveRight);
    assert_eq!(script[4], Gesture::Click);
    assert_eq!(script[24], Gesture::Click);
}

#[test]
fn temperature_gestures_step_by_half_degrees() {

    // already on target: nothing to do
    assert_eq!(temperature_gestures(500, 500).len(), 0);

    // raising from 57.0 to 58.0 takes two pulses to the right
    let raise = temperature_gestures(570, 580);
    assert_eq!(raise.len(), 8 + 2 + 5);
    assert_eq!(raise[8], Gesture::MoveRight);
    assert_eq!(raise[9], Gesture::MoveRight);
    assert_eq!(raise[10], Gesture::Click);

    // lowering from 58.0 to 50.0 takes sixteen pulses to the left
    let lower = temperature_gestures(580, 500);
    assert_eq!(lower.len(), 8 + 16 + 5);
    assert_eq!(lower[8], Gesture::MoveLeft);
    assert_eq!(lower[23], Gesture::MoveLeft);

    // an odd difference rounds the pulse count up
    let nudge = temperature_gestures(500, 503);
    assert_eq!(nudge.len(), 8 + 1 + 5);
}

#[test]
fn set_messages_render_large_values_digit_by_digit() {
    assert_eq!(set_message("0x1", 4294967295), "SET;set_0x1;4294967295".to_string());
    assert_eq!(set_message("0x1", 10), "SET;set_0x1;10".to_string());
    assert_eq!(set_message("0x1", 7), "SET;set_0x1;7".to_string());
}
