//! One addressed value within a packet: destination node, output index and
//! the value itself, together with its 8-byte wire frame.

use crate::errors::ParseCOEError;
use crate::values::{
    lemma_value_roundtrip, lemma_value_wire_roundtrip, spec_value_from_wire, AnalogueCOEValue,
    COEValue, DigitalCOEValue,
};
use vstd::prelude::*;

verus! {

/// A single payload that can be sent in a CoE packet.
///
/// It holds the destination (node and PDO index) and the actual value.
/// The PDO index is the on-wire form, without the offset of one that GUIs
/// display.
#[derive(Hash, Debug, PartialEq, Eq, Structural, Copy, Clone)]
pub struct Payload {
    /// The virtual CAN node (1-62) the value is addressed to.
    pub node: u8,
    /// The output index (0-63) of the value on `node`.
    pub pdo_index: u8,
    /// The value itself; its unit determines the format on the wire.
    pub value: COEValue,
}

impl Payload {
    /// Whether the addressing fields are allowed on the wire:
    /// node 0 and nodes 63 and above are reserved, and the PDO index
    /// must stay below 64.
    pub open spec fn wf(self) -> bool {
        &&& 1 <= self.node <= 62
        &&& self.pdo_index < 64
    }

    /// The eight wire bytes of this payload: node, PDO index, then the six
    /// wire bytes of the value.
    pub open spec fn spec_wire_bytes(self) -> Seq<u8> {
        seq![self.node, self.pdo_index] + self.value.spec_wire_bytes()
    }

    /// Create a new payload from the given destination and value.
    pub fn new(node: u8, pdo_index: u8, value: COEValue) -> (p: Payload)
        ensures
            p == (Payload { node, pdo_index, value }),
    {
        Payload { node, pdo_index, value }
    }

    /// The unit code of the value this payload carries.
    pub fn unit_id(&self) -> (code: u8)
        ensures
            code == self.value.spec_unit_code(),
    {
        self.value.unit_code()
    }

    /// The eight wire bytes of this payload.
    pub fn wire_bytes(&self) -> (bytes: Vec<u8>)
        ensures
            bytes@ == self.spec_wire_bytes(),
            bytes@.len() == 8,
    {
        let mut bytes: Vec<u8> = Vec::new();
        bytes.push(self.node);
        bytes.push(self.pdo_index);
        let mut rest = self.value.wire_bytes();
        bytes.append(&mut rest);
        proof {
            assert(bytes@ =~= self.spec_wire_bytes());
        }
        bytes
    }

    /// Decode one payload from its wire frame.
    ///
    /// The node and the PDO index sit at fixed early offsets and are
    /// validated first, so a frame of the wrong length can still report a
    /// bad node or index; after those two checks the frame must be exactly
    /// 8 bytes long.
    pub fn try_from_bytes(frame: &[u8]) -> (r: Result<Payload, ParseCOEError>)
        ensures
            r == spec_decode_payload(frame@),
            frame@.len() >= 1 && (frame@[0] == 0 || frame@[0] >= 63) ==> r == Err::<
                Payload,
                ParseCOEError,
            >(ParseCOEError::NodeDisallowed(frame@[0])),
            frame@.len() >= 2 && !(frame@[0] == 0 || frame@[0] >= 63) && frame@[1] >= 64 ==> r
                == Err::<Payload, ParseCOEError>(ParseCOEError::PDOIndexDisallowed(frame@[1])),
    {
        if frame.len() >= 1 && (frame[0] == 0 || frame[0] >= 63) {
            return Err(ParseCOEError::NodeDisallowed(frame[0]));
        }
        if frame.len() >= 2 && frame[1] >= 64 {
            return Err(ParseCOEError::PDOIndexDisallowed(frame[1]));
        }
        if frame.len() != 8 {
            return Err(ParseCOEError::PayloadFrameLengthIncorrect(frame.len()));
        }
        match frame[2] {
            0 => {
                match DigitalCOEValue::try_from_bytes(frame[3], &frame[4..8]) {
                    Ok(v) => Ok(
                        Payload {
                            node: frame[0],
                            pdo_index: frame[1],
                            value: COEValue::Digital(v),
                        },
                    ),
                    Err(e) => Err(e),
                }
            },
            1 => {
                match AnalogueCOEValue::try_from_bytes(frame[3], &frame[4..8]) {
                    Ok(v) => Ok(
                        Payload {
                            node: frame[0],
                            pdo_index: frame[1],
                            value: COEValue::Analogue(v),
                        },
                    ),
                    Err(e) => Err(e),
                }
            },
            _ => Err(ParseCOEError::FormatUnknown(frame[2])),
        }
    }
}

impl Default for Payload {
    /// The default payload: node 1, index 0, a dimensionless zero.
    fn default() -> (p: Payload)
        ensures
            p == (Payload {
                node: 1u8,
                pdo_index: 0u8,
                value: COEValue::Analogue(AnalogueCOEValue::Dimensionless(0i32)),
            }),
    {
        Payload { node: 1, pdo_index: 0, value: COEValue::Analogue(AnalogueCOEValue::Dimensionless(0)) }
    }
}

/// The result of decoding one payload frame.
///
/// The node is validated first, then the PDO index, then the frame length,
/// then the format discriminant, unit code and value bytes.
pub open spec fn spec_decode_payload(frame: Seq<u8>) -> Result<Payload, ParseCOEError> {
    if frame.len() >= 1 && (frame[0] == 0 || frame[0] >= 63) {
        Err(ParseCOEError::NodeDisallowed(frame[0]))
    } else if frame.len() >= 2 && frame[1] >= 64 {
        Err(ParseCOEError::PDOIndexDisallowed(frame[1]))
    } else if frame.len() != 8 {
        Err(ParseCOEError::PayloadFrameLengthIncorrect(frame.len() as usize))
    } else {
        match spec_value_from_wire(frame[2], frame[3], frame.subrange(4, 8)) {
            Ok(v) => Ok(Payload { node: frame[0], pdo_index: frame[1], value: v }),
            Err(e) => Err(e),
        }
    }
}

/// Decoding the wire bytes of a well-formed payload yields the payload back.
pub proof fn lemma_payload_roundtrip(p: Payload)
    requires
        p.wf(),
    ensures
        p.spec_wire_bytes().len() == 8,
        spec_decode_payload(p.spec_wire_bytes()) == Ok::<Payload, ParseCOEError>(p),
{
    lemma_value_roundtrip(p.value);
    let w = p.spec_wire_bytes();
    let vw = p.value.spec_wire_bytes();
    assert(w.subrange(4, 8) =~= vw.subrange(2, 6));
    assert(w[2] == vw[0] && w[3] == vw[1]);
}

/// A successfully decoded payload is well-formed and re-encodes to exactly
/// the frame it was decoded from.
pub proof fn lemma_payload_wire_roundtrip(frame: Seq<u8>)
    ensures
        spec_decode_payload(frame) matches Ok(p) ==> p.wf() && p.spec_wire_bytes() == frame,
{
    match spec_decode_payload(frame) {
        Ok(p) => {
            lemma_value_wire_roundtrip(frame[2], frame[3], frame.subrange(4, 8));
            assert(p.spec_wire_bytes() =~= frame);
        },
        Err(_) => {},
    }
}

} // verus!
