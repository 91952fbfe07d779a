//! The closed set of failures that decoding CoE bytes can report.

use crate::values::Format;
use vstd::prelude::*;

verus! {

/// All the errors that can appear when parsing a CoE packet.
///
/// Every failure is a local validation error surfaced to the caller;
/// the codec never recovers from malformed input by guessing.
#[derive(Hash, Debug, PartialEq, Eq, Clone)]
pub enum ParseCOEError {
    /// The node value is not allowed (only 1-62 may appear on the wire).
    NodeDisallowed(u8),
    /// The PDO index is not allowed (only 0-63 may appear on the wire).
    PDOIndexDisallowed(u8),
    /// The format (analogue or digital) and the unit code are not compatible:
    /// the unit code is not defined for the format that was requested.
    FormatAndUnitIncompatible(Format, u8),
    /// The format discriminant is neither digital (0) nor analogue (1).
    FormatUnknown(u8),
    /// The slice holding a value had the wrong length (4 bytes expected).
    ValueSize(usize),
    /// A boolean value was expected because of the format, but the four
    /// value bytes are neither `[0, 0, 0, 0]` nor `[1, 0, 0, 0]`.
    ValueNotBool([u8; 4]),
    /// The packet is shorter than the 4-byte CoE header.
    PacketBelowHeaderLength,
    /// The CoE protocol version is not implemented (only 2.0 is).
    VersionNotImplemented(u8, u8),
    /// The declared packet size and the declared payload count disagree:
    /// the size must equal `4 + 8 * count`.
    PacketLengthInconsistent(u8, u8),
    /// The packet size declared in the header is not the length of the
    /// buffer actually given.
    PacketSizeConflictsWithHeader(u8, usize),
    /// A payload frame was not exactly 8 bytes long.
    PayloadFrameLengthIncorrect(usize),
}

} // verus!
