//! A CoE packet: a 4-byte header followed by up to 31 payload frames of
//! 8 bytes each, together with its decoder and serializer.
//!
//! The payload count is capped at 31 because the header stores the total
//! wire size in one byte: `4 + 8 * 31 == 252` is the largest size that
//! fits.

use crate::errors::ParseCOEError;
use crate::payload::{
    lemma_payload_roundtrip, lemma_payload_wire_roundtrip, spec_decode_payload, Payload,
};
use crate::values::lemma_value_roundtrip;
use vstd::prelude::*;

verus! {

/// The version of the CoE protocol used. Only 2.0 is implemented.
#[derive(Hash, Debug, PartialEq, Eq, Structural, Copy, Clone)]
pub struct COEVersion {
    major: u8,
    minor: u8,
}

impl COEVersion {
    /// The major version number.
    pub closed spec fn spec_major(self) -> u8 {
        self.major
    }

    /// The minor version number.
    pub closed spec fn spec_minor(self) -> u8 {
        self.minor
    }

    /// The major version number.
    pub fn major(&self) -> (r: u8)
        ensures
            r == self.spec_major(),
    {
        self.major
    }

    /// The minor version number.
    pub fn minor(&self) -> (r: u8)
        ensures
            r == self.spec_minor(),
    {
        self.minor
    }

    /// Accept a version read from the wire. Only 2.0 is implemented;
    /// anything else is a `VersionNotImplemented` error.
    pub fn try_from_parts(major: u8, minor: u8) -> (r: Result<COEVersion, ParseCOEError>)
        ensures
            major == 2 && minor == 0 ==> (r matches Ok(v) && v.spec_major() == 2
                && v.spec_minor() == 0),
            !(major == 2 && minor == 0) ==> r == Err::<COEVersion, ParseCOEError>(
                ParseCOEError::VersionNotImplemented(major, minor),
            ),
    {
        if major != 2 || minor != 0 {
            return Err(ParseCOEError::VersionNotImplemented(major, minor));
        }
        Ok(COEVersion { major: 2, minor: 0 })
    }
}

/// The header bytes of a packet holding `ps`: version 2.0, the total wire
/// size, and the payload count.
pub open spec fn spec_packet_header(ps: Seq<Payload>) -> Seq<u8>
    recommends
        ps.len() <= 31,
{
    seq![2u8, 0u8, (4 + 8 * ps.len()) as u8, ps.len() as u8]
}

/// The concatenated wire frames of a sequence of payloads.
pub open spec fn spec_payloads_bytes(ps: Seq<Payload>) -> Seq<u8>
    decreases ps.len(),
{
    if ps.len() == 0 {
        Seq::empty()
    } else {
        spec_payloads_bytes(ps.drop_last()) + ps.last().spec_wire_bytes()
    }
}

/// The full wire encoding of a packet holding `ps`.
pub open spec fn spec_encode_packet(ps: Seq<Payload>) -> Seq<u8>
    recommends
        ps.len() <= 31,
{
    spec_packet_header(ps) + spec_payloads_bytes(ps)
}

/// The result of decoding `count` consecutive 8-byte payload frames:
/// the first failure propagates, otherwise all decoded payloads in order.
pub open spec fn spec_decode_frames(fb: Seq<u8>, count: nat) -> Result<Seq<Payload>, ParseCOEError>
    recommends
        fb.len() == 8 * count,
    decreases count,
{
    if count == 0 {
        Ok(Seq::empty())
    } else {
        match spec_decode_payload(fb.subrange(0, 8)) {
            Ok(p) => match spec_decode_frames(fb.skip(8), (count - 1) as nat) {
                Ok(ps) => Ok(seq![p] + ps),
                Err(e) => Err(e),
            },
            Err(e) => Err(e),
        }
    }
}

/// The result of decoding a whole packet byte stream: the four header
/// checks in their fixed order, then the payload frames.
pub open spec fn spec_decode_packet(b: Seq<u8>) -> Result<Seq<Payload>, ParseCOEError> {
    if b.len() < 4 {
        Err(ParseCOEError::PacketBelowHeaderLength)
    } else if !(b[0] == 2 && b[1] == 0) {
        Err(ParseCOEError::VersionNotImplemented(b[0], b[1]))
    } else if b[2] != 4 + 8 * (b[3] as int) {
        Err(ParseCOEError::PacketLengthInconsistent(b[2], b[3]))
    } else if b.len() != b[2] {
        Err(ParseCOEError::PacketSizeConflictsWithHeader(b[2], b.len() as usize))
    } else {
        spec_decode_frames(b.skip(4), b[3] as nat)
    }
}

/// Every payload frame is 8 bytes long.
pub proof fn lemma_payload_wire_len(p: Payload)
    ensures
        p.spec_wire_bytes().len() == 8,
{
    lemma_value_roundtrip(p.value);
}

/// Concatenated frames of `ps` take exactly `8 * ps.len()` bytes.
pub proof fn lemma_payloads_bytes_len(ps: Seq<Payload>)
    ensures
        spec_payloads_bytes(ps).len() == 8 * ps.len(),
    decreases ps.len(),
{
    if ps.len() > 0 {
        lemma_payloads_bytes_len(ps.drop_last());
        lemma_payload_wire_len(ps.last());
    }
}

/// Appending one frame at the end of a frame sequence appends its decoded
/// payload at the end of the decoded sequence, or propagates an error.
pub proof fn lemma_decode_frames_snoc(fb: Seq<u8>, n: nat, f: Seq<u8>)
    requires
        fb.len() == 8 * n,
        f.len() == 8,
    ensures
        spec_decode_frames(fb + f, n + 1) == match spec_decode_frames(fb, n) {
            Ok(ps) => match spec_decode_payload(f) {
                Ok(p) => Ok::<Seq<Payload>, ParseCOEError>(ps.push(p)),
                Err(e) => Err::<Seq<Payload>, ParseCOEError>(e),
            },
            Err(e) => Err::<Seq<Payload>, ParseCOEError>(e),
        },
    decreases n,
{
    let g = fb + f;
    if n == 0 {
        assert(g.subrange(0, 8) =~= f);
        assert(g.skip(8) =~= Seq::<u8>::empty());
        assert(spec_decode_frames(g.skip(8), 0) == Ok::<Seq<Payload>, ParseCOEError>(
            Seq::<Payload>::empty(),
        ));
        assert(spec_decode_frames(fb, 0) == Ok::<Seq<Payload>, ParseCOEError>(
            Seq::<Payload>::empty(),
        ));
        match spec_decode_payload(f) {
            Ok(p) => {
                assert(seq![p] + Seq::<Payload>::empty() =~= Seq::<Payload>::empty().push(p));
            },
            Err(_) => {},
        }
    } else {
        assert(g.subrange(0, 8) =~= fb.subrange(0, 8));
        assert(g.skip(8) =~= fb.skip(8) + f);
        lemma_decode_frames_snoc(fb.skip(8), (n - 1) as nat, f);
        match spec_decode_payload(fb.subrange(0, 8)) {
            Ok(p) => {
                match spec_decode_frames(fb.skip(8), (n - 1) as nat) {
                    Ok(ps) => {
                        match spec_decode_payload(f) {
                            Ok(q) => {
                                assert(seq![p] + ps.push(q) =~= (seq![p] + ps).push(q));
                            },
                            Err(_) => {},
                        }
                    },
                    Err(_) => {},
                }
            },
            Err(_) => {},
        }
    }
}

/// If a prefix of the frames already fails to decode, the whole frame
/// sequence fails with the same error.
pub proof fn lemma_decode_frames_prefix_err(fb: Seq<u8>, j: nat, n: nat, e: ParseCOEError)
    requires
        fb.len() == 8 * n,
        j <= n,
        spec_decode_frames(fb.take(8 * j as int), j) == Err::<Seq<Payload>, ParseCOEError>(e),
    ensures
        spec_decode_frames(fb, n) == Err::<Seq<Payload>, ParseCOEError>(e),
    decreases j,
{
    let pre = fb.take(8 * j as int);
    assert(j > 0);
    assert(pre.subrange(0, 8) =~= fb.subrange(0, 8));
    match spec_decode_payload(fb.subrange(0, 8)) {
        Ok(p) => {
            assert(pre.skip(8) =~= fb.skip(8).take(8 * (j - 1) as int));
            lemma_decode_frames_prefix_err(fb.skip(8), (j - 1) as nat, (n - 1) as nat, e);
        },
        Err(_) => {},
    }
}

/// Decoding the concatenated frames of well-formed payloads yields exactly
/// those payloads.
pub proof fn lemma_frames_roundtrip(ps: Seq<Payload>)
    requires
        forall|i: int| 0 <= i < ps.len() ==> (#[trigger] ps[i]).wf(),
    ensures
        spec_decode_frames(spec_payloads_bytes(ps), ps.len() as nat) == Ok::<
            Seq<Payload>,
            ParseCOEError,
        >(ps),
    decreases ps.len(),
{
    if ps.len() == 0 {
        assert(spec_payloads_bytes(ps) =~= Seq::<u8>::empty());
        assert(ps =~= Seq::<Payload>::empty());
    } else {
        let pre = ps.drop_last();
        lemma_frames_roundtrip(pre);
        lemma_payloads_bytes_len(pre);
        lemma_payload_roundtrip(ps.last());
        lemma_decode_frames_snoc(
            spec_payloads_bytes(pre),
            pre.len() as nat,
            ps.last().spec_wire_bytes(),
        );
        assert(pre.push(ps.last()) =~= ps);
    }
}

/// Round trip: decoding the encoding of any well-formed packet contents
/// yields the contents back.
pub proof fn lemma_packet_roundtrip(ps: Seq<Payload>)
    requires
        ps.len() <= 31,
        forall|i: int| 0 <= i < ps.len() ==> (#[trigger] ps[i]).wf(),
    ensures
        spec_encode_packet(ps).len() == 4 + 8 * ps.len(),
        spec_decode_packet(spec_encode_packet(ps)) == Ok::<Seq<Payload>, ParseCOEError>(ps),
{
    let b = spec_encode_packet(ps);
    lemma_payloads_bytes_len(ps);
    assert(b[0] == 2 && b[1] == 0);
    assert(b[2] == 4 + 8 * ps.len());
    assert(b[3] == ps.len());
    assert(b.skip(4) =~= spec_payloads_bytes(ps));
    lemma_frames_roundtrip(ps);
}

/// Prepending one payload's frame prepends its wire bytes to the
/// concatenated frames.
pub proof fn lemma_payloads_bytes_cons(p: Payload, ps: Seq<Payload>)
    ensures
        spec_payloads_bytes(seq![p] + ps) == p.spec_wire_bytes() + spec_payloads_bytes(ps),
    decreases ps.len(),
{
    let q = seq![p] + ps;
    if ps.len() == 0 {
        assert(q.drop_last() =~= Seq::<Payload>::empty());
        assert(spec_payloads_bytes(Seq::<Payload>::empty()) =~= Seq::<u8>::empty());
        assert(q.last() == p);
        assert(spec_payloads_bytes(q) =~= p.spec_wire_bytes() + spec_payloads_bytes(ps));
    } else {
        lemma_payloads_bytes_cons(p, ps.drop_last());
        assert(q.drop_last() =~= seq![p] + ps.drop_last());
        assert(q.last() == ps.last());
        assert(spec_payloads_bytes(q) =~= p.spec_wire_bytes() + spec_payloads_bytes(ps));
    }
}

/// Frames that decode successfully are the frames of well-formed payloads:
/// re-encoding the decoded sequence yields the bytes back.
pub proof fn lemma_decode_frames_encode(fb: Seq<u8>, n: nat)
    requires
        fb.len() == 8 * n,
    ensures
        spec_decode_frames(fb, n) matches Ok(ps) ==> {
            &&& ps.len() == n
            &&& spec_payloads_bytes(ps) == fb
            &&& forall|i: int| 0 <= i < ps.len() ==> (#[trigger] ps[i]).wf()
        },
    decreases n,
{
    if n == 0 {
        match spec_decode_frames(fb, n) {
            Ok(ps) => {
                assert(spec_payloads_bytes(ps) =~= fb);
            },
            Err(_) => {},
        }
    } else {
        let front = fb.subrange(0, 8);
        lemma_payload_wire_roundtrip(front);
        lemma_decode_frames_encode(fb.skip(8), (n - 1) as nat);
        match spec_decode_payload(front) {
            Ok(p) => {
                match spec_decode_frames(fb.skip(8), (n - 1) as nat) {
                    Ok(rest) => {
                        lemma_payloads_bytes_cons(p, rest);
                        assert(spec_payloads_bytes(seq![p] + rest) =~= fb);
                    },
                    Err(_) => {},
                }
            },
            Err(_) => {},
        }
    }
}

/// Byte-level round trip: re-encoding any successfully decoded packet
/// yields exactly the byte stream it was decoded from.
pub proof fn lemma_packet_bytes_roundtrip(b: Seq<u8>)
    ensures
        spec_decode_packet(b) matches Ok(ps) ==> ps.len() <= 31 && spec_encode_packet(ps) == b,
{
    match spec_decode_packet(b) {
        Ok(ps) => {
            lemma_decode_frames_encode(b.skip(4), b[3] as nat);
            assert(spec_encode_packet(ps) =~= b);
        },
        Err(_) => {},
    }
}

/// A CoE packet: its protocol version and up to 31 payloads.
///
/// Packets are created empty and grown by appending; appending never grows
/// a packet past 31 payloads, so serializing a packet always succeeds.
#[derive(Hash, Debug)]
pub struct Packet {
    /// The CoE version used. Only 2.0 is supported.
    version: COEVersion,
    /// The actual payloads.
    payloads: Vec<Payload>,
}

impl View for Packet {
    type V = Seq<Payload>;

    closed spec fn view(&self) -> Seq<Payload> {
        self.payloads@
    }
}

impl Packet {
    /// The payload count stays below 32, so that the one-byte size field of
    /// the header can always hold the wire size.
    #[verifier::type_invariant]
    spec fn inv(self) -> bool {
        &&& self.payloads@.len() <= 31
        &&& self.version.major == 2
        &&& self.version.minor == 0
    }

    /// Create a packet without payloads.
    pub fn new() -> (p: Packet)
        ensures
            p@ == Seq::<Payload>::empty(),
    {
        Packet { version: COEVersion { major: 2, minor: 0 }, payloads: Vec::new() }
    }

    /// The number of payloads in this packet.
    pub fn len(&self) -> (n: usize)
        ensures
            n == self@.len(),
    {
        self.payloads.len()
    }

    /// Whether this packet holds no payloads.
    pub fn is_empty(&self) -> (r: bool)
        ensures
            r == (self@.len() == 0),
    {
        self.payloads.len() == 0
    }

    /// The size this packet would have on the wire, in bytes.
    pub fn wire_size(&self) -> (n: usize)
        ensures
            n == 4 + 8 * self@.len(),
    {
        proof {
            use_type_invariant(&*self);
        }
        4 + self.payloads.len() * 8
    }

    /// The CoE version of this packet: always 2.0.
    pub fn version(&self) -> (v: COEVersion)
        ensures
            v.spec_major() == 2,
            v.spec_minor() == 0,
    {
        proof {
            use_type_invariant(&*self);
        }
        self.version
    }

    /// The payload at the given position.
    pub fn get(&self, i: usize) -> (p: Payload)
        requires
            i < self@.len(),
        ensures
            p == self@[i as int],
    {
        self.payloads[i]
    }

    /// Replace the payload at the given position.
    pub fn set(&mut self, i: usize, payload: Payload)
        requires
            i < old(self)@.len(),
        ensures
            final(self)@ == old(self)@.update(i as int, payload),
    {
        proof {
            use_type_invariant(&*self);
        }
        let mut ps: Vec<Payload> = Vec::new();
        core::mem::swap(&mut ps, &mut self.payloads);
        ps[i] = payload;
        core::mem::swap(&mut ps, &mut self.payloads);
    }

    /// An iterator over the payloads of this packet.
    pub fn iter(&self) -> (it: PacketIterator)
        ensures
            it@ == self@,
            it.spec_pos() == 0,
    {
        PacketIterator::new(self)
    }

    /// Create a packet holding the given payloads. Fails if more than 31
    /// payloads are given.
    pub fn try_from_payloads(payloads: &[Payload]) -> (r: Option<Packet>)
        ensures
            payloads@.len() <= 31 ==> (r matches Some(p) && p@ == payloads@),
            payloads@.len() > 31 ==> r is None,
    {
        let mut p = Packet::new();
        match p.try_append_from_slice(payloads) {
            Some(_) => {
                proof {
                    assert(p@ =~= payloads@);
                }
                Some(p)
            },
            None => None,
        }
    }

    /// Try to append one payload to this packet.
    ///
    /// Fails, leaving the packet unmodified, if the packet already holds 31
    /// payloads, so that the wire size can never reach 255 bytes.
    pub fn try_push(&mut self, payload: Payload) -> (r: Option<()>)
        ensures
            old(self)@.len() < 31 ==> r is Some && final(self)@ == old(self)@.push(payload),
            old(self)@.len() >= 31 ==> r is None && final(self)@ == old(self)@,
    {
        proof {
            use_type_invariant(&*self);
        }
        if (self.payloads.len() + 1) * 8 + 4 >= 255 {
            return None;
        }
        let mut ps: Vec<Payload> = Vec::new();
        core::mem::swap(&mut ps, &mut self.payloads);
        ps.push(payload);
        core::mem::swap(&mut ps, &mut self.payloads);
        Some(())
    }

    /// Try to append all the given payloads to this packet.
    ///
    /// Fails, leaving the packet unmodified, if the resulting packet would
    /// hold more than 31 payloads.
    pub fn try_append_from_slice(&mut self, payloads: &[Payload]) -> (r: Option<()>)
        ensures
            old(self)@.len() + payloads@.len() <= 31 ==> r is Some && final(self)@ == old(self)@
                + payloads@,
            old(self)@.len() + payloads@.len() > 31 ==> r is None && final(self)@ == old(self)@,
    {
        proof {
            use_type_invariant(&*self);
        }
        if payloads.len() > 31 {
            return None;
        }
        if (self.payloads.len() + payloads.len()) * 8 + 4 >= 255 {
            return None;
        }
        let mut ps: Vec<Payload> = Vec::new();
        core::mem::swap(&mut ps, &mut self.payloads);
        let mut i: usize = 0;
        while i < payloads.len()
            invariant
                i <= payloads@.len(),
                payloads@.len() <= 31,
                old(self)@.len() + payloads@.len() <= 31,
                ps@ == old(self)@ + payloads@.take(i as int),
            decreases payloads@.len() - i,
        {
            ps.push(payloads[i]);
            proof {
                assert(payloads@.take(i + 1) =~= payloads@.take(i as int).push(payloads@[i as int]));
            }
            i += 1;
        }
        proof {
            assert(payloads@.take(payloads@.len() as int) =~= payloads@);
        }
        core::mem::swap(&mut ps, &mut self.payloads);
        Some(())
    }

    /// Serialize this packet into a fresh byte vector.
    ///
    /// This always succeeds: the packet never holds more than 31 payloads,
    /// so the encoding is at most 252 bytes long.
    pub fn to_bytes(&self) -> (bytes: Vec<u8>)
        ensures
            bytes@ == spec_encode_packet(self@),
            bytes@.len() == 4 + 8 * self@.len(),
    {
        proof {
            use_type_invariant(&*self);
        }
        let n = self.payloads.len();
        let mut bytes: Vec<u8> = Vec::new();
        bytes.push(2);
        bytes.push(0);
        bytes.push((4 + 8 * n) as u8);
        bytes.push(n as u8);
        proof {
            assert(bytes@ =~= spec_packet_header(self@) + spec_payloads_bytes(self@.take(0)));
        }
        let mut i: usize = 0;
        while i < n
            invariant
                i <= n,
                n == self@.len(),
                n <= 31,
                bytes@ == spec_packet_header(self@) + spec_payloads_bytes(self@.take(i as int)),
            decreases n - i,
        {
            let mut frame = self.payloads[i].wire_bytes();
            let ghost fbytes = frame@;
            bytes.append(&mut frame);
            proof {
                assert(self@.take(i as int + 1).drop_last() =~= self@.take(i as int));
                assert(self@.take(i as int + 1).last() == self@[i as int]);
                assert(bytes@ =~= spec_packet_header(self@) + spec_payloads_bytes(
                    self@.take(i as int + 1),
                ));
            }
            i += 1;
        }
        proof {
            assert(self@.take(n as int) =~= self@);
            lemma_payloads_bytes_len(self@);
        }
        bytes
    }

    /// Serialize this packet into the given buffer.
    ///
    /// Fails, leaving the buffer unmodified, if the buffer is smaller than
    /// the wire size; otherwise the encoding is written at the start of the
    /// buffer, the rest of the buffer is left as it was, and the number of
    /// bytes written is returned.
    pub fn try_serialize_into(&self, buf: &mut [u8]) -> (r: Option<usize>)
        ensures
            old(buf)@.len() < 4 + 8 * self@.len() ==> r is None && final(buf)@ == old(buf)@,
            old(buf)@.len() >= 4 + 8 * self@.len() ==> {
                &&& r == Some((4 + 8 * self@.len()) as usize)
                &&& final(buf)@.len() == old(buf)@.len()
                &&& final(buf)@.subrange(0, 4 + 8 * self@.len() as int) == spec_encode_packet(self@)
                &&& final(buf)@.skip(4 + 8 * self@.len() as int) == old(buf)@.skip(4 + 8 * self@.len() as int)
            },
    {
        proof {
            use_type_invariant(&*self);
        }
        let ws = self.wire_size();
        if buf.len() < ws {
            return None;
        }
        let bytes = self.to_bytes();
        let mut i: usize = 0;
        while i < ws
            invariant
                i <= ws,
                ws == bytes@.len(),
                ws <= buf@.len(),
                buf@.len() == old(buf)@.len(),
                forall|j: int| 0 <= j < i ==> buf@[j] == bytes@[j],
                forall|j: int| i <= j < buf@.len() ==> buf@[j] == old(buf)@[j],
            decreases ws - i,
        {
            buf[i] = bytes[i];
            i += 1;
        }
        proof {
            assert(buf@.subrange(0, ws as int) =~= bytes@);
            assert(buf@.skip(ws as int) =~= old(buf)@.skip(ws as int));
        }
        Some(ws)
    }

    /// Decode a packet from a byte stream.
    ///
    /// The checks run in a fixed order: the 4-byte header must be present,
    /// the version must be 2.0, the declared size must match the declared
    /// payload count, the buffer length must match the declared size, and
    /// then every 8-byte payload frame must decode; the first failure is
    /// returned.
    pub fn try_from_bytes(bytes: &[u8]) -> (r: Result<Packet, ParseCOEError>)
        ensures
            match spec_decode_packet(bytes@) {
                Ok(ps) => r matches Ok(p) && p@ == ps,
                Err(e) => r matches Err(e2) && e2 == e,
            },
    {
        if bytes.len() < 4 {
            return Err(ParseCOEError::PacketBelowHeaderLength);
        }
        if bytes[0] != 2 || bytes[1] != 0 {
            return Err(ParseCOEError::VersionNotImplemented(bytes[0], bytes[1]));
        }
        let declared_size = bytes[2];
        let count = bytes[3];
        if declared_size as usize != 4 + 8 * (count as usize) {
            return Err(ParseCOEError::PacketLengthInconsistent(declared_size, count));
        }
        if bytes.len() != declared_size as usize {
            return Err(ParseCOEError::PacketSizeConflictsWithHeader(declared_size, bytes.len()));
        }
        let ghost fb = bytes@.skip(4);
        let mut payloads: Vec<Payload> = Vec::new();
        let mut i: usize = 0;
        while i < count as usize
            invariant
                i <= count as int,
                count == bytes@[3],
                bytes@[0] == 2,
                bytes@[1] == 0,
                bytes@[2] == 4 + 8 * (bytes@[3] as int),
                bytes@.len() == bytes@[2],
                bytes@.len() == 4 + 8 * (count as int),
                fb == bytes@.skip(4),
                payloads@.len() == i,
                spec_decode_frames(fb.take(8 * i as int), i as nat) == Ok::<
                    Seq<Payload>,
                    ParseCOEError,
                >(payloads@),
            decreases count as int - i,
        {
            let frame = &bytes[4 + 8 * i..12 + 8 * i];
            proof {
                assert(frame@ =~= fb.subrange(8 * i as int, 8 * i as int + 8));
                assert(fb.take(8 * (i + 1) as int) =~= fb.take(8 * i as int) + frame@);
                lemma_decode_frames_snoc(fb.take(8 * i as int), i as nat, frame@);
            }
            match Payload::try_from_bytes(frame) {
                Ok(p) => payloads.push(p),
                Err(e) => {
                    proof {
                        assert(spec_decode_frames(
                            fb.take(8 * (i + 1) as int),
                            (i + 1) as nat,
                        ) == Err::<Seq<Payload>, ParseCOEError>(e));
                        lemma_decode_frames_prefix_err(fb, (i + 1) as nat, count as nat, e);
                        assert(spec_decode_packet(bytes@) == Err::<Seq<Payload>, ParseCOEError>(e));
                    }
                    return Err(e);
                },
            }
            i += 1;
        }
        proof {
            assert(fb.take(8 * (count as int)) =~= fb);
        }
        Ok(Packet { version: COEVersion { major: 2, minor: 0 }, payloads })
    }
}

impl Default for Packet {
    /// The default packet is the empty packet.
    fn default() -> (p: Packet)
        ensures
            p@ == Seq::<Payload>::empty(),
    {
        Packet::new()
    }
}

impl PartialEq for Packet {
    /// Two packets are equal when they hold the same payloads in the same
    /// order (the version is always 2.0).
    fn eq(&self, other: &Packet) -> (r: bool)
        ensures
            r == (self@ == other@),
    {
        if self.payloads.len() != other.payloads.len() {
            proof {
                assert(self@ != other@);
            }
            return false;
        }
        let n = self.payloads.len();
        let mut i: usize = 0;
        while i < n
            invariant
                i <= n,
                n == self@.len(),
                n == other@.len(),
                forall|j: int| 0 <= j < i ==> self@[j] == other@[j],
            decreases n - i,
        {
            if self.payloads[i] != other.payloads[i] {
                proof {
                    assert(self@[i as int] != other@[i as int]);
                }
                return false;
            }
            i += 1;
        }
        proof {
            assert(self@ =~= other@);
        }
        true
    }
}

impl vstd::std_specs::cmp::PartialEqSpecImpl for Packet {
    open spec fn obeys_eq_spec() -> bool {
        true
    }

    open spec fn eq_spec(&self, other: &Packet) -> bool {
        self@ == other@
    }
}

/// An iterator over the payloads of a packet, front to back.
pub struct PacketIterator {
    payloads: Vec<Payload>,
    idx: usize,
}

impl View for PacketIterator {
    type V = Seq<Payload>;

    closed spec fn view(&self) -> Seq<Payload> {
        self.payloads@
    }
}

impl PacketIterator {
    /// The position of the next payload to hand out.
    pub closed spec fn spec_pos(self) -> int {
        self.idx as int
    }

    /// Start iterating over the payloads of the given packet.
    pub fn new(packet: &Packet) -> (it: PacketIterator)
        ensures
            it@ == packet@,
            it.spec_pos() == 0,
    {
        PacketIterator {
            payloads: vstd::slice::slice_to_vec(packet.payloads.as_slice()),
            idx: 0,
        }
    }

    /// The next payload, or `None` when all have been handed out.
    pub fn next(&mut self) -> (r: Option<Payload>)
        ensures
            final(self)@ == old(self)@,
            old(self).spec_pos() < old(self)@.len() ==> {
                &&& r == Some(old(self)@[old(self).spec_pos()])
                &&& final(self).spec_pos() == old(self).spec_pos() + 1
            },
            old(self).spec_pos() >= old(self)@.len() ==> r is None && final(self).spec_pos()
                == old(self).spec_pos(),
    {
        if self.idx < self.payloads.len() {
            let p = self.payloads[self.idx];
            self.idx += 1;
            Some(p)
        } else {
            None
        }
    }
}

/// Split a sequence of payloads into as few packets as possible: every
/// packet but the last holds exactly 31 payloads, the last holds the rest.
/// This never fails, because every chunk satisfies the append contract.
pub fn packets_from_payloads(payloads: &[Payload]) -> (r: Vec<Packet>)
    ensures
        payloads@.len() == 0 ==> r@.len() == 0,
        payloads@.len() > 0 ==> r@.len() == (payloads@.len() - 1) / 31 + 1,
        forall|i: int|
            0 <= i < r@.len() ==> (#[trigger] r@[i])@ == payloads@.subrange(
                31 * i,
                if 31 * (i + 1) <= payloads@.len() {
                    31 * (i + 1)
                } else {
                    payloads@.len() as int
                },
            ),
{
    let mut out: Vec<Packet> = Vec::new();
    let mut start: usize = 0;
    while start < payloads.len()
        invariant
            start <= payloads@.len(),
            start < payloads@.len() ==> start == 31 * out@.len(),
            31 * (out@.len() as int - 1) < start as int <= 31 * out@.len(),
            forall|i: int|
                0 <= i < out@.len() ==> (#[trigger] out@[i])@ == payloads@.subrange(
                    31 * i,
                    if 31 * (i + 1) <= payloads@.len() {
                        31 * (i + 1)
                    } else {
                        payloads@.len() as int
                    },
                ),
        decreases payloads@.len() - start,
    {
        let end = if payloads.len() - start > 31 {
            start + 31
        } else {
            payloads.len()
        };
        let chunk = &payloads[start..end];
        match Packet::try_from_payloads(chunk) {
            Some(p) => out.push(p),
            None => {
                proof {
                    assert(false);
                }
            },
        }
        start = end;
    }
    proof {
        if payloads@.len() > 0 {
            let k = out@.len() as int;
            let len = payloads@.len() as int;
            vstd::arithmetic::div_mod::lemma_fundamental_div_mod_converse(
                len - 1,
                31,
                k - 1,
                len - 1 - 31 * (k - 1),
            );
        }
    }
    out
}

} // verus!
