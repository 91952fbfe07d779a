//! Validation of payload frames: addressing bounds, frame length,
//! format and unit compatibility.

use coe::Format;

#[test]
fn parse_payload_frame_to_small() {
    let raw_bytes = [16, 8, 1, 0, 4, 0, 0];
    let payload: Result<coe::Payload, coe::ParseCOEError> = coe::Payload::try_from_bytes(&raw_bytes[0..7]);
    assert_eq!(
        payload,
        Err(coe::ParseCOEError::PayloadFrameLengthIncorrect(7))
    );
}

#[test]
fn parse_payload_frame_to_large() {
    let raw_bytes = [16, 8, 1, 0, 0, 4, 3, 2, 1, 0];
    let payload: Result<coe::Payload, coe::ParseCOEError> = coe::Payload::try_from_bytes(&raw_bytes[0..10]);
    assert_eq!(
        payload,
        Err(coe::ParseCOEError::PayloadFrameLengthIncorrect(10))
    );
}

#[test]
fn parse_value_incorrect_length() {
    let unit_id = 0;
    let raw_bytes = [1, 0, 0, 4, 0];
    let value: Result<coe::AnalogueCOEValue, coe::ParseCOEError> = coe::AnalogueCOEValue::try_from_bytes(unit_id, &raw_bytes[0..5]);
    assert_eq!(value, Err(coe::ParseCOEError::ValueSize(5_usize)));
}

#[test]
fn parse_value_not_bool() {
    let unit_id = 43;
    let raw_bytes = [0, 0, 1, 0];
    let value: Result<coe::DigitalCOEValue, coe::ParseCOEError> = coe::DigitalCOEValue::try_from_bytes(unit_id, &raw_bytes[0..4]);
    assert_eq!(value, Err(coe::ParseCOEError::ValueNotBool(raw_bytes)));
}

#[test]
fn parse_value_digital_but_unit_is_analogue() {
    let unit_id = 0;
    let raw_bytes = [1, 0, 0, 0];
    let value: Result<coe::DigitalCOEValue, coe::ParseCOEError> = coe::DigitalCOEValue::try_from_bytes(unit_id, &raw_bytes[0..4]);
    assert_eq!(
        value,
        Err(coe::ParseCOEError::FormatAndUnitIncompatible(
            Format::Digital,
            0
        ))
    );
}

#[test]
fn parse_value_analogue_but_unit_is_digital() {
    let unit_id = 43;
    let raw_bytes = [1, 0, 0, 0];
    let value: Result<coe::AnalogueCOEValue, coe::ParseCOEError> = coe::AnalogueCOEValue::try_from_bytes(unit_id, &raw_bytes[0..4]);
    assert_eq!(
        value,
        Err(coe::ParseCOEError::FormatAndUnitIncompatible(
            Format::Analogue,
            43
        ))
    );
}

#[test]
fn parse_value_digital_unit_does_not_exist() {
    let unit_id = 123;
    let raw_bytes = [1, 0, 0, 0];
    let value: Result<coe::DigitalCOEValue, coe::ParseCOEError> = coe::DigitalCOEValue::try_from_bytes(unit_id, &raw_bytes[0..4]);
    assert_eq!(
        value,
        Err(coe::ParseCOEError::FormatAndUnitIncompatible(
            Format::Digital,
            123
        ))
    );
}

#[test]
fn parse_value_analogue_unit_does_not_exist() {
    let unit_id = 123;
    let raw_bytes = [0, 0, 0, 1];
    let value: Result<coe::AnalogueCOEValue, coe::ParseCOEError> = coe::AnalogueCOEValue::try_from_bytes(unit_id, &raw_bytes[0..4]);
    assert_eq!(
        value,
        Err(coe::ParseCOEError::FormatAndUnitIncompatible(
            Format::Analogue,
            123
        ))
    );
}

#[test]
fn parse_payload_node_to_small() {
    let raw_bytes = [0_u8, 8, 1, 75, 0, 0, 4, 0];
    let error: coe::ParseCOEError = coe::Payload::try_from_bytes(&raw_bytes[0..8])
        .expect_err("This Packet is not parsable.");
    assert_eq!(error, coe::ParseCOEError::NodeDisallowed(0u8));
}

#[test]
fn parse_payload_node_to_large() {
    let raw_bytes = [63_u8, 8, 1, 75, 0, 0, 4, 0];
    let error: coe::ParseCOEError = coe::Payload::try_from_bytes(&raw_bytes[0..8])
        .expect_err("This Packet is not parsable.");
    assert_eq!(error, coe::ParseCOEError::NodeDisallowed(63_u8));
}

#[test]
fn parse_payload_node_1() {
    let raw_bytes = [1, 8, 1, 60, 0, 4, 0, 0];
    let payload: coe::Payload = coe::Payload::try_from_bytes(&raw_bytes[0..8]).expect("This Packet is parsable.");
    assert_eq!(
        payload,
        coe::Payload {
            node: 1,
            pdo_index: 8,
            value: coe::COEValue::Analogue(coe::AnalogueCOEValue::Time(4 * 256))
        }
    );
}

#[test]
fn parse_payload_node_62() {
    let raw_bytes = [62, 8, 1, 60, 0, 4, 0, 0];
    let payload: coe::Payload = coe::Payload::try_from_bytes(&raw_bytes[0..8]).expect("This Packet is parsable.");
    assert_eq!(
        payload,
        coe::Payload {
            node: 62,
            pdo_index: 8,
            value: coe::COEValue::Analogue(coe::AnalogueCOEValue::Time(4 * 256))
        }
    );
}

#[test]
fn parse_payload_pdo_to_large() {
    let raw_bytes = [12_u8, 64, 1, 75, 0, 4, 0, 0];
    let error: coe::ParseCOEError = coe::Payload::try_from_bytes(&raw_bytes[0..8])
        .expect_err("This Packet is not parsable.");
    assert_eq!(error, coe::ParseCOEError::PDOIndexDisallowed(64_u8));
}

#[test]
fn parse_payload_pdo_0() {
    let raw_bytes = [1, 0, 1, 60, 0, 4, 0, 0];
    let payload: coe::Payload = coe::Payload::try_from_bytes(&raw_bytes[0..8]).expect("This Packet is parsable.");
    assert_eq!(payload.unit_id(), 60);
    assert_eq!(
        payload,
        coe::Payload {
            node: 1,
            pdo_index: 0,
            value: coe::COEValue::Analogue(coe::AnalogueCOEValue::Time(4 * 256))
        }
    );
}

#[test]
fn parse_payload_pdo_63() {
    let raw_bytes = [62, 63, 1, 60, 0, 4, 0, 0];
    let payload: coe::Payload = coe::Payload::try_from_bytes(&raw_bytes[0..8]).expect("This Packet is parsable.");
    assert_eq!(payload.unit_id(), 60);
    assert_eq!(
        payload,
        coe::Payload {
            node: 62,
            pdo_index: 63,
            value: coe::COEValue::Analogue(coe::AnalogueCOEValue::Time(4 * 256))
        }
    );
}

#[test]
fn parse_payload_format_unknown() {
    let raw_bytes = [12_u8, 4, 3, 75, 0, 4, 0, 0];
    let error: coe::ParseCOEError = coe::Payload::try_from_bytes(&raw_bytes[0..8])
        .expect_err("This Packet is not parsable.");
    assert_eq!(error, coe::ParseCOEError::FormatUnknown(3_u8));
}
