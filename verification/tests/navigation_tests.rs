use heatpump_planner::PlannerError;
use heatpump_planner::navigation::{Navigation, NavigationItem};
use heatpump_planner::session::{DeviceSession, SessionState};
use heatpump_planner::session::{Frame, FrameAction, frame_action};

fn sample_navigation() -> Navigation {
    Navigation {
        items: vec![
            NavigationItem {
                id: "0x45df90".to_string(),
                name: "Informatie".to_string(),
                items: vec![
                    NavigationItem {
                        id: "0x45df90".to_string(),
                        name: "Temperaturen".to_string(),
                        items: vec![],
                    },
                    NavigationItem {
                        id: "0x455968".to_string(),
                        name: "Ingangen".to_string(),
                        items: vec![],
                    },
                ],
            },
            NavigationItem {
                id: "0x450798".to_string(),
                name: "Instelling".to_string(),
                items: vec![],
            },
            NavigationItem {
                id: "0x3dc420".to_string(),
                name: "Klokprogramma".to_string(),
                items: vec![],
            },
            NavigationItem {
                id: "0x45c7b0".to_string(),
                name: "Toegang: Gebruiker".to_string(),
                items: vec![],
            },
        ],
    }
}

#[test]
fn get_navigation_item_id_returns_id_if_it_exists() {
    let navigation = sample_navigation();

    let item_id = navigation.get_navigation_item_id("Informatie").unwrap();

    assert_eq!(item_id, "0x45df90".to_string());
}

#[test]
fn get_navigation_item_id_returns_id_if_it_exists_as_nested_item_inside_top_level_item() {
    let navigation = sample_navigation();

    let item_id = navigation.get_navigation_item_id("Informatie > Ingangen").unwrap();

    assert_eq!(item_id, "0x455968".to_string());
}

#[test]
fn get_navigation_item_id_names_the_missing_segment() {
    let navigation = sample_navigation();

    let err = navigation.get_navigation_item_id("Informatie > Uitgangen").unwrap_err();

    assert_eq!(err, PlannerError::PathNotFound("Uitgangen".to_string()));
}

#[test]
fn get_navigation_item_id_stops_at_the_first_missing_segment() {
    let navigation = sample_navigation();

    let err = navigation.get_navigation_item_id("Instelling > X > Y").unwrap_err();

    assert_eq!(err, PlannerError::PathNotFound("X".to_string()));
}

#[test]
fn deserialize_navigation_xml() {
    let xml_string = "<Navigation id=\"0x45cd88\"><item id=\"0x45df90\"><name>Informatie</name><item id=\"0x45df90\"><name>Temperaturen</name></item><item id=\"0x455968\"><name>Ingangen</name></item></item><item id=\"0x450798\"><name>Instelling</name></item><item id=\"0x3dc420\"><name>Klokprogramma</name></item><item id=\"0x45c7b0\"><name>Toegang: Gebruiker</name></item></Navigation>";

    let navigation = heatpump_planner::xml::parse_navigation_response(xml_string).unwrap();

    assert_eq!(navigation.items.len(), 4);
    assert_eq!(navigation.items[0].name, "Informatie".to_string());
    assert_eq!(navigation.items[0].items.len(), 2);
    assert_eq!(navigation.items[0].items[0].name, "Temperaturen".to_string());
    assert_eq!(navigation.items[0].items[0].id, "0x45df90".to_string());
    assert_eq!(navigation.items[0].items[1].name, "Ingangen".to_string());
    assert_eq!(navigation.items[0].items[1].id, "0x455968".to_string());
}

#[test]
fn deserialize_navigation_xml_with_read_only_markers_and_single_quotes() {
    let xml_string = "<Navigation id='0x45cd88'><item id='0x3dc420'><name>Klokprogramma</name><readOnly>true</readOnly><item id='0x43e8e8'><name>Warmwater</name><readOnly>true</readOnly><item id='0x4642a8'><name>Week</name></item></item></item></Navigation>";

    let navigation = heatpump_planner::xml::parse_navigation_response(xml_string).unwrap();

    assert_eq!(navigation.items.len(), 1);
    assert_eq!(navigation.items[0].name, "Klokprogramma".to_string());
    assert_eq!(navigation.items[0].items[0].name, "Warmwater".to_string());
    assert_eq!(navigation.items[0].items[0].items[0].name, "Week".to_string());
    assert_eq!(navigation.items[0].items[0].items[0].id, "0x4642a8".to_string());

    let id = navigation.get_navigation_item_id("Klokprogramma > Warmwater > Week").unwrap();
    assert_eq!(id, "0x4642a8".to_string());
}

#[test]
fn deserialize_navigation_xml_rejects_malformed_markup() {
    match heatpump_planner::xml::parse_navigation_response("<Navigation><item id='0x1'>") {
        Ok(_) => panic!("malformed markup was accepted"),
        Err(err) => assert_eq!(err, PlannerError::ProtocolViolation),
    }
}

#[test]
fn session_hands_out_protocol_commands_only_when_logged_in() {

    let mut session = DeviceSession::new();
    assert_eq!(session.state, SessionState::Disconnected);
    assert_eq!(
        session.login_request("999999").unwrap_err(),
        PlannerError::ConnectionFailure
    );
    assert_eq!(
        session.navigate_request("Informatie").unwrap_err(),
        PlannerError::NotLoggedIn
    );

    session.mark_connected().unwrap();
    assert_eq!(session.login_request("999999").unwrap(), "LOGIN;999999".to_string());

    let xml_string = "<Navigation id='0x45cd88'><item id='0x45e068'><name>Informatie</name><item id='0x455968'><name>Ingangen</name></item></item></Navigation>";
    session.complete_login(xml_string).unwrap();
    assert_eq!(session.state, SessionState::LoggedIn);

    assert_eq!(
        session.navigate_request("Informatie > Ingangen").unwrap(),
        "GET;0x455968".to_string()
    );
    assert_eq!(
        session.navigate_request("Informatie > Uitgangen").unwrap_err(),
        PlannerError::PathNotFound("Uitgangen".to_string())
    );

    session.disconnect();
    assert_eq!(session.state, SessionState::Disconnected);
}

#[test]
fn frame_action_answers_control_frames_and_delivers_text() {

    assert!(matches!(
        frame_action(Frame::Text("hello".to_string())),
        FrameAction::Deliver(t) if t == "hello"
    ));
    assert!(matches!(
        frame_action(Frame::Ping(vec![1, 2])),
        FrameAction::ReplyPong(d) if d == vec![1, 2]
    ));
    assert!(matches!(frame_action(Frame::Close), FrameAction::ReplyClose));
    assert!(matches!(frame_action(Frame::Pong(vec![])), FrameAction::Ignore));
    assert!(matches!(frame_action(Frame::Binary(vec![9])), FrameAction::Ignore));
}
