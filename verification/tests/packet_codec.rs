//! Whole-packet decoding and serializing: header validation, payload
//! extraction, and the round trip back onto the wire.

use coe::{AnalogueCOEValue, COEValue, DigitalCOEValue, Packet, ParseCOEError, Payload};

fn example_packet_payloads() -> [Payload; 2] {
    [
        Payload {
            node: 3,
            pdo_index: 0,
            value: COEValue::Analogue(AnalogueCOEValue::DegreeCentigrade_Tens(95)),
        },
        Payload {
            node: 3,
            pdo_index: 0,
            value: COEValue::Digital(DigitalCOEValue::OnOff(true)),
        },
    ]
}

#[test]
fn packet_alloc_parse_packet_success() {
    let raw_bytes = [
        2, 0, 20, 2, 3, 0, 1, 1, 95, 0, 0, 0, 3, 0, 0, 43, 1, 0, 0, 0,
    ];
    let packet: Packet = Packet::try_from_bytes(&raw_bytes[0..20]).expect("This Packet is parsable.");
    let expected = Packet::try_from_payloads(&example_packet_payloads())
        .expect("two payloads fit in one packet");
    assert_eq!(packet, expected);
    assert_eq!(packet.version().major(), 2);
    assert_eq!(packet.version().minor(), 0);
}

#[test]
fn packet_alloc_parse_packet_below_header_length() {
    let raw_bytes = [2, 0, 20];
    let err: ParseCOEError =
        Packet::try_from_bytes(&raw_bytes[0..3]).expect_err("This Packet is not parsable.");
    assert_eq!(err, ParseCOEError::PacketBelowHeaderLength);
}

#[test]
fn packet_alloc_parse_packet_packet_length_inconsistent() {
    let raw_bytes = [
        2, 0, 21, 2, 3, 0, 1, 1, 0, 0, 0, 95, 3, 0, 0, 43, 0, 0, 0, 1,
    ];
    let err: ParseCOEError =
        Packet::try_from_bytes(&raw_bytes[0..20]).expect_err("This Packet is not parsable");
    assert_eq!(err, ParseCOEError::PacketLengthInconsistent(21_u8, 2_u8));
}

#[test]
fn packet_alloc_parse_packet_packet_length_inconsistent_2() {
    let raw_bytes = [
        2, 0, 20, 3, 3, 0, 1, 1, 0, 0, 0, 95, 3, 0, 0, 43, 0, 0, 0, 1,
    ];
    let err: ParseCOEError =
        Packet::try_from_bytes(&raw_bytes[0..20]).expect_err("This Packet is not parsable");
    assert_eq!(err, ParseCOEError::PacketLengthInconsistent(20_u8, 3_u8));
}

#[test]
fn packet_alloc_parse_packet_packet_size_conflicts_with_header() {
    let raw_bytes = [
        2, 0, 12, 1, 3, 0, 1, 1, 0, 0, 0, 95, 3, 0, 0, 43, 0, 0, 0, 1,
    ];
    let err: ParseCOEError =
        Packet::try_from_bytes(&raw_bytes[0..20]).expect_err("This Packet is not parsable");
    assert_eq!(err, ParseCOEError::PacketSizeConflictsWithHeader(12, 20));
}

#[test]
fn packet_no_alloc_parse_packet_success() {
    let raw_bytes = [
        2, 0, 20, 2, 3, 0, 1, 1, 95, 0, 0, 0, 3, 0, 0, 43, 1, 0, 0, 0,
    ];
    let packet: Packet = Packet::try_from_bytes(&raw_bytes[0..20]).expect("This Packet is parsable.");
    let expected = Packet::try_from_payloads(&example_packet_payloads())
        .expect("two payloads fit in one packet");
    assert_eq!(packet, expected);
    assert_eq!(packet.len(), 2);
}

#[test]
fn packet_no_alloc_parse_packet_below_header_length() {
    let raw_bytes = [2, 0, 20];
    let err: ParseCOEError =
        Packet::try_from_bytes(&raw_bytes[0..3]).expect_err("This Packet is not parsable.");
    assert_eq!(err, ParseCOEError::PacketBelowHeaderLength);
}

#[test]
fn packet_no_alloc_parse_packet_packet_length_inconsistent() {
    let raw_bytes = [
        2, 0, 21, 2, 3, 0, 1, 1, 0, 0, 0, 95, 3, 0, 0, 43, 0, 0, 0, 1,
    ];
    let err: ParseCOEError =
        Packet::try_from_bytes(&raw_bytes[0..20]).expect_err("This Packet is not parsable");
    assert_eq!(err, ParseCOEError::PacketLengthInconsistent(21_u8, 2_u8));
}

#[test]
fn packet_no_alloc_parse_packet_packet_length_inconsistent_2() {
    let raw_bytes = [
        2, 0, 20, 3, 3, 0, 1, 1, 0, 0, 0, 95, 3, 0, 0, 43, 0, 0, 0, 1,
    ];
    let err: ParseCOEError =
        Packet::try_from_bytes(&raw_bytes[0..20]).expect_err("This Packet is not parsable");
    assert_eq!(err, ParseCOEError::PacketLengthInconsistent(20_u8, 3_u8));
}

#[test]
fn packet_no_alloc_parse_packet_packet_size_conflicts_with_header() {
    let raw_bytes = [
        2, 0, 12, 1, 3, 0, 1, 1, 0, 0, 0, 95, 3, 0, 0, 43, 0, 0, 0, 1,
    ];
    let err: ParseCOEError =
        Packet::try_from_bytes(&raw_bytes[0..20]).expect_err("This Packet is not parsable");
    assert_eq!(err, ParseCOEError::PacketSizeConflictsWithHeader(12, 20));
}

#[test]
fn parse_version_implemented() {
    let major = 2;
    let minor = 0;
    let version: coe::COEVersion =
        coe::COEVersion::try_from_parts(major, minor).expect("Version 2.0 is implemented");
    assert_eq!(version.major(), major);
    assert_eq!(version.minor(), minor);
}

#[test]
fn parse_version_not_implemented() {
    let major = 0;
    let minor = 1;
    let version: ParseCOEError = coe::COEVersion::try_from_parts(major, minor)
        .expect_err("Version 0.1 is not implemented");
    assert_eq!(version, ParseCOEError::VersionNotImplemented(major, minor));
}

#[test]
fn deser_ser() {
    let raw_bytes = [
        2, 0, 20, 2, 3, 0, 1, 1, 95, 0, 0, 0, 3, 0, 0, 43, 1, 0, 0, 0,
    ];
    let packet: Packet = Packet::try_from_bytes(&raw_bytes[0..20]).expect("This Packet is parsable.");
    assert_eq!(packet.len(), 2);
    let mut re_serialized = [0_u8; 20];
    packet.try_serialize_into(&mut re_serialized).unwrap();
    assert_eq!(re_serialized, raw_bytes);
}

#[test]
fn too_many_payloads() {
    let payload = Payload {
        node: 16,
        pdo_index: 8,
        value: COEValue::Analogue(AnalogueCOEValue::Colon(256)),
    };
    let payloads = [payload; 32];
    let res = Packet::try_from_payloads(&payloads);
    assert_eq!(res, None);

    let mut res = Packet::try_from_payloads(&payloads[..31]).unwrap();
    assert_eq!(res.try_push(payload), None);
}

#[test]
fn packets_from_payloads() {
    let payload = Payload {
        node: 16,
        pdo_index: 8,
        value: COEValue::Analogue(AnalogueCOEValue::Colon(256)),
    };
    let payloads = [payload; 64];
    let packets = coe::packets_from_payloads(&payloads);
    assert_eq!(packets.len(), 3);
}

#[test]
fn packet_iteration() {
    let raw_bytes = [
        2, 0, 20, 2, 3, 0, 1, 1, 95, 0, 0, 0, 3, 0, 0, 43, 1, 0, 0, 0,
    ];
    let packet: Packet = Packet::try_from_bytes(&raw_bytes[0..20]).expect("This Packet is parsable.");
    let version = packet.version();
    assert_eq!(version.major(), 2);
    assert_eq!(version.minor(), 0);

    let mut packet_iter = packet.iter();
    let mut count = 0;
    while let Some(_payload) = packet_iter.next() {
        count += 1;
    }
    assert_eq!(count, 2);
}
