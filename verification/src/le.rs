//! Numbers as bytes, lowest byte first.

use vstd::prelude::*;

verus! {

/// The number that two bytes spell, lowest first.
pub open spec fn u16_le(s: Seq<u8>) -> u16 {
    (s[0] as u16) | (s[1] as u16) << 8
}

/// The number that four bytes spell, lowest first.
pub open spec fn u32_le(s: Seq<u8>) -> u32 {
    (s[0] as u32) | (s[1] as u32) << 8 | (s[2] as u32) << 16 | (s[3] as u32) << 24
}

/// The number that eight bytes spell, lowest first.
pub open spec fn u64_le(s: Seq<u8>) -> u64 {
    (s[0] as u64) | (s[1] as u64) << 8 | (s[2] as u64) << 16 | (s[3] as u64) << 24 | (s[4] as u64)
        << 32 | (s[5] as u64) << 40 | (s[6] as u64) << 48 | (s[7] as u64) << 56
}

/// The two bytes of a number, lowest first.
pub open spec fn le_u16(x: u16) -> Seq<u8> {
    seq![x as u8, (x >> 8) as u8]
}

/// The four bytes of a number, lowest first.
pub open spec fn le_u32(x: u32) -> Seq<u8> {
    seq![x as u8, (x >> 8) as u8, (x >> 16) as u8, (x >> 24) as u8]
}

/// The eight bytes of a number, lowest first.
pub open spec fn le_u64(x: u64) -> Seq<u8> {
    seq![
        x as u8,
        (x >> 8) as u8,
        (x >> 16) as u8,
        (x >> 24) as u8,
        (x >> 32) as u8,
        (x >> 40) as u8,
        (x >> 48) as u8,
        (x >> 56) as u8,
    ]
}

/// The bytes of a number spell the number.
pub proof fn lemma_u16_le(x: u16)
    ensures
        le_u16(x).len() == 2,
        u16_le(le_u16(x)) == x,
{
    assert(((x as u8) as u16) | (((x >> 8) as u8) as u16) << 8 == x) by (bit_vector);
}

/// The bytes of a number spell the number.
pub proof fn lemma_u32_le(x: u32)
    ensures
        le_u32(x).len() == 4,
        u32_le(le_u32(x)) == x,
{
    assert(((x as u8) as u32) | (((x >> 8) as u8) as u32) << 8 | (((x >> 16) as u8) as u32) << 16 | (((x
        >> 24) as u8) as u32) << 24 == x) by (bit_vector);
}

/// The bytes of a number spell the number.
pub proof fn lemma_u64_le(x: u64)
    ensures
        le_u64(x).len() == 8,
        u64_le(le_u64(x)) == x,
{
    assert(((x as u8) as u64) | (((x >> 8) as u8) as u64) << 8 | (((x >> 16) as u8) as u64) << 16 | (((x
        >> 24) as u8) as u64) << 24 | (((x >> 32) as u8) as u64) << 32 | (((x >> 40) as u8) as u64)
        << 40 | (((x >> 48) as u8) as u64) << 48 | (((x >> 56) as u8) as u64) << 56 == x)
        by (bit_vector);
}

/// Reads the number that two bytes spell.
pub fn read_u16_le(bytes: &[u8]) -> (r: u16)
    requires
        bytes@.len() == 2,
    ensures
        r == u16_le(bytes@),
{
    (bytes[0] as u16) | (bytes[1] as u16) << 8
}

/// Reads the number that four bytes spell.
pub fn read_u32_le(bytes: &[u8]) -> (r: u32)
    requires
        bytes@.len() == 4,
    ensures
        r == u32_le(bytes@),
{
    (bytes[0] as u32) | (bytes[1] as u32) << 8 | (bytes[2] as u32) << 16 | (bytes[3] as u32) << 24
}

/// Reads the number that eight bytes spell.
pub fn read_u64_le(bytes: &[u8]) -> (r: u64)
    requires
        bytes@.len() == 8,
    ensures
        r == u64_le(bytes@),
{
    (bytes[0] as u64) | (bytes[1] as u64) << 8 | (bytes[2] as u64) << 16 | (bytes[3] as u64) << 24
        | (bytes[4] as u64) << 32 | (bytes[5] as u64) << 40 | (bytes[6] as u64) << 48 | (
    bytes[7] as u64) << 56
}

/// Writes the two bytes of a number.
pub fn write_u16_le(x: u16) -> (r: Vec<u8>)
    ensures
        r@ == le_u16(x),
{
    let mut out: Vec<u8> = Vec::new();
    out.push(x as u8);
    out.push((x >> 8) as u8);
    proof {
        assert(out@ =~= le_u16(x));
    }
    out
}

/// Writes the four bytes of a number.
pub fn write_u32_le(x: u32) -> (r: Vec<u8>)
    ensures
        r@ == le_u32(x),
{
    let mut out: Vec<u8> = Vec::new();
    out.push(x as u8);
    out.push((x >> 8) as u8);
    out.push((x >> 16) as u8);
    out.push((x >> 24) as u8);
    proof {
        assert(out@ =~= le_u32(x));
    }
    out
}

/// Writes the eight bytes of a number.
pub fn write_u64_le(x: u64) -> (r: Vec<u8>)
    ensures
        r@ == le_u64(x),
{
    let mut out: Vec<u8> = Vec::new();
    out.push(x as u8);
    out.push((x >> 8) as u8);
    out.push((x >> 16) as u8);
    out.push((x >> 24) as u8);
    out.push((x >> 32) as u8);
    out.push((x >> 40) as u8);
    out.push((x >> 48) as u8);
    out.push((x >> 56) as u8);
    proof {
        assert(out@ =~= le_u64(x));
    }
    out
}

} // verus!
