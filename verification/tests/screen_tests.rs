use heatpump_planner::PlannerError;
use heatpump_planner::screen::read_value;

const TEMPERATURES_SCREEN: &str = "<Content><item id='0x4816ac'><name>Aanvoer</name><value>22.3\u{b0}C</value></item><item id='0x457724'><name>Tapwater gemeten</name><value>54.2\u{b0}C</value></item><item id='0x45e97c'><name>Tapwater ingesteld</name><value>57.0\u{b0}C</value></item><item id='0x43e60c'><name>Oververhitting</name><value>4.8 K</value></item><item id='0x45a514'><name>Zonnecollector</name><value>---</value></item><item id='0x448894'><name>Buitentemperatuur</name><value>-11.6\u{b0}C</value></item><name>Temperaturen</name></Content>";

#[test]
fn read_value_extracts_a_named_reading_in_tenths() {
    assert_eq!(read_value("Aanvoer", TEMPERATURES_SCREEN).unwrap(), 223);
    assert_eq!(read_value("Tapwater ingesteld", TEMPERATURES_SCREEN).unwrap(), 570);
    assert_eq!(read_value("Oververhitting", TEMPERATURES_SCREEN).unwrap(), 48);
}

#[test]
fn read_value_fails_for_an_absent_field() {
    assert_eq!(
        read_value("X", TEMPERATURES_SCREEN).unwrap_err(),
        PlannerError::FieldNotFound("X".to_string())
    );
}

#[test]
fn read_value_maps_the_sentinel_to_zero() {
    assert_eq!(read_value("Zonnecollector", TEMPERATURES_SCREEN).unwrap(), 0);
}

#[test]
fn read_value_reads_negative_readings() {
    assert_eq!(read_value("Buitentemperatuur", TEMPERATURES_SCREEN).unwrap(), -116);
}

#[test]
fn read_value_rejects_an_unreadable_value() {
    let screen = "<item id='0x1'><name>Aanvoer</name><value>warm</value></item>";
    assert_eq!(
        read_value("Aanvoer", screen).unwrap_err(),
        PlannerError::ProtocolViolation
    );
}

#[test]
fn deserialize_content() {
    let response = "<Content>\n        <item>\n          <name>Maandag - Zondag</name>\n          <item id='0xa57344'>\n            <value>10:00 - 00:00</value>\n            <name>1)</name>\n            <type>timer</type>\n            <raw>600</raw>\n          </item>\n          <item id='0xa53c8c'>\n            <value>00:00 - 03:00</value>\n            <name>2)</name>\n            <type>timer</type>\n            <raw>11796480</raw>\n          </item>\n          <item id='0xa47ee4'>\n            <value>00:00 - 00:00</value>\n            <name>3)</name>\n            <type>timer</type>\n            <raw>0</raw>\n          </item>\n          <item id='0xa6630c'>\n            <value>00:00 - 00:00</value>\n            <name>4)</name>\n            <type>timer</type>\n            <raw>0</raw>\n          </item>\n          <item id='0xa68d74'>\n            <value>00:00 - 00:00</value>\n            <name>5)</name>\n            <type>timer</type>\n            <raw>0</raw>\n          </item>\n        </item>\n      </Content>";

    let content = heatpump_planner::xml::parse_content_response(response).unwrap();

    assert_eq!(content.item.name, "Maandag - Zondag");
    assert_eq!(content.item.item.len(), 5);
    assert_eq!(content.item.item[0].id, "0xa57344".to_string());
    assert_eq!(content.item.item[0].value, "10:00 - 00:00".to_string());
    assert_eq!(content.item.item[0].name, "1)".to_string());
    assert_eq!(content.item.item[0].kind, "timer".to_string());
    assert_eq!(content.item.item[0].raw, "600".to_string());
}

#[test]
fn deserialize_content_rejects_malformed_markup() {
    assert_eq!(
        heatpump_planner::xml::parse_content_response("<Content><item><name>x</name>").unwrap_err(),
        PlannerError::ProtocolViolation
    );
}
