//! Big-endian encoding and decoding of the two header fields: the 64-bit
//! magic number and the 16-bit version number.

use vstd::prelude::*;

verus! {

/// The eight bytes of `x` in big-endian order: most significant byte first.
pub open spec fn spec_u64_to_be_bytes(x: u64) -> Seq<u8> {
    seq![
        ((x >> 56) & 0xff) as u8,
        ((x >> 48) & 0xff) as u8,
        ((x >> 40) & 0xff) as u8,
        ((x >> 32) & 0xff) as u8,
        ((x >> 24) & 0xff) as u8,
        ((x >> 16) & 0xff) as u8,
        ((x >> 8) & 0xff) as u8,
        (x & 0xff) as u8,
    ]
}

/// The 64-bit value whose big-endian bytes are `s`.
pub open spec fn spec_u64_from_be_bytes(s: Seq<u8>) -> u64
    recommends
        s.len() == 8,
{
    (s[0] as u64) << 56 | (s[1] as u64) << 48 | (s[2] as u64) << 40 | (s[3] as u64) << 32
        | (s[4] as u64) << 24 | (s[5] as u64) << 16 | (s[6] as u64) << 8 | (s[7] as u64)
}

/// The two bytes of `x` in big-endian order.
pub open spec fn spec_u16_to_be_bytes(x: u16) -> Seq<u8> {
    seq![((x >> 8) & 0xff) as u8, (x & 0xff) as u8]
}

/// The 16-bit value whose big-endian bytes are `s`.
pub open spec fn spec_u16_from_be_bytes(s: Seq<u8>) -> u16
    recommends
        s.len() == 2,
{
    (s[0] as u16) << 8 | (s[1] as u16)
}

/// Decoding inverts encoding: every 64-bit value comes back from its own
/// big-endian bytes.
pub proof fn lemma_u64_be_bytes_roundtrip(x: u64)
    ensures
        spec_u64_to_be_bytes(x).len() == 8,
        spec_u64_from_be_bytes(spec_u64_to_be_bytes(x)) == x,
{
    assert(((((x >> 56) & 0xff) as u8) as u64) << 56 | ((((x >> 48) & 0xff) as u8) as u64) << 48
        | ((((x >> 40) & 0xff) as u8) as u64) << 40 | ((((x >> 32) & 0xff) as u8) as u64) << 32
        | ((((x >> 24) & 0xff) as u8) as u64) << 24 | ((((x >> 16) & 0xff) as u8) as u64) << 16
        | ((((x >> 8) & 0xff) as u8) as u64) << 8 | (((x & 0xff) as u8) as u64) == x)
        by (bit_vector);
}

/// Encoding inverts decoding: every eight-byte sequence comes back from the
/// value it decodes to. Together with the round trip above this makes the
/// big-endian encoding a bijection between 64-bit values and byte octets.
pub proof fn lemma_u64_be_bytes_inverse(s: Seq<u8>)
    requires
        s.len() == 8,
    ensures
        spec_u64_to_be_bytes(spec_u64_from_be_bytes(s)) == s,
{
    let x = spec_u64_from_be_bytes(s);
    let s0 = s[0] as u64;
    let s1 = s[1] as u64;
    let s2 = s[2] as u64;
    let s3 = s[3] as u64;
    let s4 = s[4] as u64;
    let s5 = s[5] as u64;
    let s6 = s[6] as u64;
    let s7 = s[7] as u64;
    assert((x == s0 << 56 | s1 << 48 | s2 << 40 | s3 << 32 | s4 << 24 | s5 << 16 | s6 << 8 | s7
        && s0 < 256 && s1 < 256 && s2 < 256 && s3 < 256 && s4 < 256 && s5 < 256 && s6 < 256 && s7
        < 256) ==> s0 == ((x >> 56) & 0xff) && s1 == ((x >> 48) & 0xff) && s2 == ((x >> 40) & 0xff)
        && s3 == ((x >> 32) & 0xff) && s4 == ((x >> 24) & 0xff) && s5 == ((x >> 16) & 0xff) && s6
        == ((x >> 8) & 0xff) && s7 == (x & 0xff)) by (bit_vector);
    assert(spec_u64_to_be_bytes(spec_u64_from_be_bytes(s)) =~= s);
}

/// Decoding inverts encoding for 16-bit values.
pub proof fn lemma_u16_be_bytes_roundtrip(x: u16)
    ensures
        spec_u16_to_be_bytes(x).len() == 2,
        spec_u16_from_be_bytes(spec_u16_to_be_bytes(x)) == x,
{
    assert(((((x >> 8) & 0xff) as u8) as u16) << 8 | (((x & 0xff) as u8) as u16) == x)
        by (bit_vector);
}

/// Encoding inverts decoding for two-byte sequences.
pub proof fn lemma_u16_be_bytes_inverse(s: Seq<u8>)
    requires
        s.len() == 2,
    ensures
        spec_u16_to_be_bytes(spec_u16_from_be_bytes(s)) == s,
{
    let x = spec_u16_from_be_bytes(s);
    let s0 = s[0] as u16;
    let s1 = s[1] as u16;
    assert((x == s0 << 8 | s1 && s0 < 256 && s1 < 256) ==> s0 == ((x >> 8) & 0xff) && s1 == (x
        & 0xff)) by (bit_vector);
    assert(spec_u16_to_be_bytes(spec_u16_from_be_bytes(s)) =~= s);
}

/// Encodes `x` as its eight big-endian bytes.
pub fn u64_to_be_bytes(x: u64) -> (s: Vec<u8>)
    ensures
        s@ == spec_u64_to_be_bytes(x),
        s@.len() == 8,
{
    proof {
        assert(((x >> 56) & 0xff) < 256 && ((x >> 48) & 0xff) < 256 && ((x >> 40) & 0xff) < 256 && (
        (x >> 32) & 0xff) < 256 && ((x >> 24) & 0xff) < 256 && ((x >> 16) & 0xff) < 256 && ((x >> 8)
            & 0xff) < 256 && (x & 0xff) < 256) by (bit_vector);
    }
    let mut s: Vec<u8> = Vec::new();
    s.push(((x >> 56) & 0xff) as u8);
    s.push(((x >> 48) & 0xff) as u8);
    s.push(((x >> 40) & 0xff) as u8);
    s.push(((x >> 32) & 0xff) as u8);
    s.push(((x >> 24) & 0xff) as u8);
    s.push(((x >> 16) & 0xff) as u8);
    s.push(((x >> 8) & 0xff) as u8);
    s.push((x & 0xff) as u8);
    proof {
        assert(s@ =~= spec_u64_to_be_bytes(x));
    }
    s
}

/// Decodes eight big-endian bytes into the 64-bit value they spell.
pub fn u64_from_be_bytes(s: &[u8]) -> (x: u64)
    requires
        s@.len() == 8,
    ensures
        x == spec_u64_from_be_bytes(s@),
{
    (s[0] as u64) << 56 | (s[1] as u64) << 48 | (s[2] as u64) << 40 | (s[3] as u64) << 32 | (
    s[4] as u64) << 24 | (s[5] as u64) << 16 | (s[6] as u64) << 8 | (s[7] as u64)
}

/// Encodes `x` as its two big-endian bytes.
pub fn u16_to_be_bytes(x: u16) -> (s: Vec<u8>)
    ensures
        s@ == spec_u16_to_be_bytes(x),
        s@.len() == 2,
{
    proof {
        assert(((x >> 8) & 0xff) < 256 && (x & 0xff) < 256) by (bit_vector);
    }
    let mut s: Vec<u8> = Vec::new();
    s.push(((x >> 8) & 0xff) as u8);
    s.push((x & 0xff) as u8);
    proof {
        assert(s@ =~= spec_u16_to_be_bytes(x));
    }
    s
}

/// Decodes two big-endian bytes into the 16-bit value they spell.
pub fn u16_from_be_bytes(s: &[u8]) -> (x: u16)
    requires
        s@.len() == 2,
    ensures
        x == spec_u16_from_be_bytes(s@),
{
    (s[0] as u16) << 8 | (s[1] as u16)
}

} // verus!
