//! Round trips between in-memory values and wire bytes: every analogue
//! unit code, every digital pattern, and whole packets.

use coe::{
    AnalogueCOEValue, COEValue, DigitalCOEValue, Format, Packet, ParseCOEError, Payload,
};

const DIGITAL_CODES: [u8; 4] = [43, 44, 45, 47];

fn is_digital_code(code: u8) -> bool {
    DIGITAL_CODES.contains(&code)
}

#[test]
fn every_analogue_code_roundtrips_arbitrary_bytes() {
    for code in 0..=75u8 {
        if is_digital_code(code) {
            continue;
        }
        let frame = [5, 7, 1, code, 0xfe, 0x01, 0x80, 0x7f];
        let payload = Payload::try_from_bytes(&frame)
            .expect("every defined analogue code accepts any four value bytes");
        assert_eq!(payload.unit_id(), code);
        assert_eq!(payload.wire_bytes(), frame.to_vec());
    }
}

#[test]
fn undefined_analogue_codes_are_rejected() {
    for code in [76u8, 100, 255] {
        let frame = [5, 7, 1, code, 0, 0, 0, 0];
        assert_eq!(
            Payload::try_from_bytes(&frame),
            Err(ParseCOEError::FormatAndUnitIncompatible(Format::Analogue, code))
        );
    }
}

#[test]
fn digital_byte_patterns() {
    for code in DIGITAL_CODES {
        let low = DigitalCOEValue::try_from_bytes(code, &[0, 0, 0, 0]).unwrap();
        let high = DigitalCOEValue::try_from_bytes(code, &[1, 0, 0, 0]).unwrap();
        assert_eq!(low.unit_code(), code);
        assert_eq!(high.unit_code(), code);
        assert!(!low.value());
        assert!(high.value());
        for bad in [[2, 0, 0, 0], [0, 1, 0, 0], [0, 0, 1, 0], [0, 0, 0, 1], [1, 1, 1, 1]] {
            assert_eq!(
                DigitalCOEValue::try_from_bytes(code, &bad),
                Err(ParseCOEError::ValueNotBool(bad))
            );
        }
    }
}

#[test]
fn negative_value_wire_bytes() {
    let payload = Payload::new(
        1,
        1,
        COEValue::Analogue(AnalogueCOEValue::DegreeCentigrade_Tens(-102)),
    );
    assert_eq!(payload.wire_bytes(), vec![1, 1, 1, 1, 154, 255, 255, 255]);
}

#[test]
fn packet_roundtrip_mixed_payloads() {
    let payloads = [
        Payload::new(1, 0, COEValue::Analogue(AnalogueCOEValue::Dimensionless(i32::MIN))),
        Payload::new(62, 63, COEValue::Analogue(AnalogueCOEValue::Date(29, 2, 2024))),
        Payload::new(7, 12, COEValue::Digital(DigitalCOEValue::Mixer(true))),
        Payload::new(33, 1, COEValue::Analogue(AnalogueCOEValue::Lux_Tens(i32::MAX))),
    ];
    let packet = Packet::try_from_payloads(&payloads).unwrap();
    let bytes = packet.to_bytes();
    assert_eq!(bytes.len(), packet.wire_size());
    let decoded = Packet::try_from_bytes(&bytes).unwrap();
    assert_eq!(decoded, packet);
    for (i, payload) in payloads.iter().enumerate() {
        assert_eq!(decoded.get(i), *payload);
    }
}

#[test]
fn empty_packet_roundtrips() {
    let packet = Packet::new();
    assert!(packet.is_empty());
    assert_eq!(packet.wire_size(), 4);
    let bytes = packet.to_bytes();
    assert_eq!(bytes, vec![2, 0, 4, 0]);
    let decoded = Packet::try_from_bytes(&bytes).unwrap();
    assert_eq!(decoded.len(), 0);
}

#[test]
fn serialize_into_too_small_buffer_fails() {
    let payloads = [Payload::default(); 2];
    let packet = Packet::try_from_payloads(&payloads).unwrap();
    let mut buf = [0xaa_u8; 19];
    assert_eq!(packet.try_serialize_into(&mut buf), None);
    assert_eq!(buf, [0xaa_u8; 19]);
}

#[test]
fn serialize_into_leaves_tail_untouched() {
    let payloads = [Payload::default(); 1];
    let packet = Packet::try_from_payloads(&payloads).unwrap();
    let mut buf = [0xaa_u8; 16];
    assert_eq!(packet.try_serialize_into(&mut buf), Some(12));
    assert_eq!(&buf[0..4], &[2, 0, 12, 1]);
    assert_eq!(&buf[12..16], &[0xaa; 4]);
}

#[test]
fn append_from_slice_is_transactional() {
    let mut packet = Packet::try_from_payloads(&[Payload::default(); 30]).unwrap();
    let more = [Payload::default(); 5];
    assert_eq!(packet.try_append_from_slice(&more), None);
    assert_eq!(packet.len(), 30);
    assert_eq!(packet.try_append_from_slice(&more[0..1]), Some(()));
    assert_eq!(packet.len(), 31);
}

#[test]
fn first_bad_frame_error_propagates() {
    // Second frame has node byte 0.
    let raw_bytes = [
        2, 0, 20, 2, 3, 0, 1, 1, 95, 0, 0, 0, 0, 0, 0, 43, 1, 0, 0, 0,
    ];
    assert_eq!(
        Packet::try_from_bytes(&raw_bytes),
        Err(ParseCOEError::NodeDisallowed(0))
    );
}

#[test]
fn payload_frame_length_errors() {
    let raw_bytes = [5, 7, 1, 0, 1, 2, 3, 4, 5];
    assert_eq!(
        Payload::try_from_bytes(&raw_bytes[0..0]),
        Err(ParseCOEError::PayloadFrameLengthIncorrect(0))
    );
    assert_eq!(
        Payload::try_from_bytes(&raw_bytes[0..9]),
        Err(ParseCOEError::PayloadFrameLengthIncorrect(9))
    );
}

#[test]
fn format_discriminants() {
    // Format byte 2 is neither digital (0) nor analogue (1).
    let frame = [5, 7, 2, 0, 1, 0, 0, 0];
    assert_eq!(
        Payload::try_from_bytes(&frame),
        Err(ParseCOEError::FormatUnknown(2))
    );
}

#[test]
fn get_and_set_payloads() {
    let mut packet = Packet::try_from_payloads(&[Payload::default(); 3]).unwrap();
    let replacement = Payload::new(9, 2, COEValue::Digital(DigitalCOEValue::YesNo(true)));
    packet.set(1, replacement);
    assert_eq!(packet.get(0), Payload::default());
    assert_eq!(packet.get(1), replacement);
    assert_eq!(packet.get(2), Payload::default());
    assert_eq!(packet.len(), 3);
}
