//! Two's-complement view of the signed 32-bit values that travel on the wire,
//! and their little-endian byte layout.
//!
//! The wire format stores every analogue value as a little-endian `i32`.
//! `vstd::bytes` already relates `u32` to its little-endian bytes, so this
//! module only has to relate `i32` to the `u32` holding its bit pattern.

use vstd::bytes::{spec_u32_from_le_bytes, spec_u32_to_le_bytes};
use vstd::bytes::lemma_auto_spec_u32_to_from_le_bytes;
use vstd::prelude::*;

verus! {

/// The `u32` whose bit pattern equals the two's-complement representation of `x`.
pub open spec fn u32_bits_of_i32(x: i32) -> u32 {
    if x >= 0 {
        x as u32
    } else {
        (x + 0x1_0000_0000) as u32
    }
}

/// The `i32` whose two's-complement representation is the bit pattern of `u`.
pub open spec fn i32_of_u32_bits(u: u32) -> i32 {
    if u < 0x8000_0000 {
        u as i32
    } else {
        (u - 0x1_0000_0000) as i32
    }
}

/// The signed value described by four little-endian bytes.
pub open spec fn spec_i32_from_le_bytes(s: Seq<u8>) -> i32
    recommends
        s.len() == 4,
{
    i32_of_u32_bits(spec_u32_from_le_bytes(s))
}

/// The four little-endian bytes of a signed value.
pub open spec fn spec_i32_to_le_bytes(x: i32) -> Seq<u8> {
    spec_u32_to_le_bytes(u32_bits_of_i32(x))
}

/// The two's-complement maps between `i32` and `u32` invert each other.
pub proof fn lemma_i32_u32_bits_inverse()
    ensures
        forall|x: i32| #[trigger] i32_of_u32_bits(u32_bits_of_i32(x)) == x,
        forall|u: u32| #[trigger] u32_bits_of_i32(i32_of_u32_bits(u)) == u,
{
}

/// Reading four little-endian bytes back from `spec_i32_to_le_bytes` yields the
/// value, and writing the value read by `spec_i32_from_le_bytes` yields the bytes.
pub proof fn lemma_i32_le_bytes_roundtrip()
    ensures
        forall|x: i32| #[trigger] spec_i32_to_le_bytes(x).len() == 4,
        forall|x: i32| #[trigger] spec_i32_from_le_bytes(spec_i32_to_le_bytes(x)) == x,
        forall|s: Seq<u8>|
            s.len() == 4 ==> #[trigger] spec_i32_to_le_bytes(spec_i32_from_le_bytes(s)) == s,
{
    lemma_auto_spec_u32_to_from_le_bytes();
    lemma_i32_u32_bits_inverse();
    assert forall|x: i32| #[trigger] spec_i32_from_le_bytes(spec_i32_to_le_bytes(x)) == x by {
        let u = u32_bits_of_i32(x);
        assert(spec_u32_to_le_bytes(u).len() == 4);
        assert(spec_u32_from_le_bytes(spec_u32_to_le_bytes(u)) == u);
    }
    assert forall|s: Seq<u8>|
        s.len() == 4 implies #[trigger] spec_i32_to_le_bytes(spec_i32_from_le_bytes(s)) == s by {
        let u = spec_u32_from_le_bytes(s);
        assert(u32_bits_of_i32(i32_of_u32_bits(u)) == u);
        assert(spec_u32_to_le_bytes(spec_u32_from_le_bytes(s)) == s);
    }
}

/// Decode the signed 32-bit value stored in four little-endian bytes.
pub fn i32_from_le_slice(s: &[u8]) -> (x: i32)
    requires
        s@.len() == 4,
    ensures
        x == spec_i32_from_le_bytes(s@),
{
    let u = vstd::bytes::u32_from_le_bytes(s);
    if u < 0x8000_0000 {
        u as i32
    } else {
        let t: u32 = u - 0x8000_0000;
        (t as i32) - 0x7fff_ffff - 1
    }
}

/// Encode a signed 32-bit value as four little-endian bytes.
pub fn i32_to_le_vec(x: i32) -> (s: Vec<u8>)
    ensures
        s@ == spec_i32_to_le_bytes(x),
        s@.len() == 4,
{
    let u: u32 = if x >= 0 {
        x as u32
    } else {
        let t: i32 = (x + 0x7fff_ffff) + 1;
        (t as u32) + 0x8000_0000
    };
    assert(u == u32_bits_of_i32(x));
    let s = vstd::bytes::u32_to_le_bytes(u);
    proof {
        lemma_auto_spec_u32_to_from_le_bytes();
    }
    s
}

} // verus!
