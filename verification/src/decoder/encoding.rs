//! The format the other way round: the bytes that spell an item, and the
//! proof that the decoder reads them back.

use crate::binary::instruction::{BlockType, MemArg};
use crate::decoder::grammar::{
    parse_block_type, parse_bytes, parse_f32, parse_f64, parse_i32, parse_i64, parse_limits,
    parse_mem_arg, parse_name, parse_reference_type, parse_size, parse_u64, parse_u8,
    parse_value_type,
};
use crate::types::{value_type_code, Limits, RefType, ValueType};
use crate::decoder::leb::{leb_signed_bits, leb_unsigned};
use crate::decoder::result::Failure;
use crate::le::{le_u32, le_u64, lemma_u32_le, lemma_u64_le};
use vstd::prelude::*;
use vstd::utf8::{encode_utf8, encode_utf8_decode_utf8, encode_utf8_valid_utf8};

verus! {

/// The bytes of an unsigned variable-length integer: seven bits a byte,
/// lowest first, each byte but the last with its top bit set.
pub open spec fn encode_unsigned(v: u64) -> Seq<u8>
    decreases v,
{
    if v < 128 {
        seq![v as u8]
    } else {
        seq![((v % 128) + 128) as u8] + encode_unsigned(v / 128)
    }
}

/// Whether `v` has no bits at or above the place `64 - shift`.
pub open spec fn fits_unsigned(v: u64, shift: u64) -> bool {
    shift == 0 || (shift < 64 && v < (1u64 << ((64 - shift) as u64)))
}

/// The decoder reads an unsigned integer back from its bytes, whatever
/// follows them: at the place `shift` it reads `v`, moved up by `shift`.
pub proof fn lemma_unsigned_round_trip(v: u64, shift: u64, rest: Seq<u8>)
    requires
        shift <= 63,
        shift % 7 == 0,
        fits_unsigned(v, shift),
    ensures
        leb_unsigned(encode_unsigned(v) + rest, shift) == Some(
            ((v << shift), encode_unsigned(v).len()),
        ),
    decreases v,
{
    let s = encode_unsigned(v) + rest;
    if v < 128 {
        let b = v as u8;
        assert(s[0] == b);
        assert(b & 0x80 == 0 && ((b & 0x7f) as u64) << shift == v << shift) by (bit_vector)
            requires
                v < 128,
                b == v as u8,
        ;
        assert(shift == 63 ==> b == 0 || b == 1) by (bit_vector)
            requires
                shift == 63 ==> v < (1u64 << ((64 - shift) as u64)),
                b == v as u8,
                v < 128,
        ;
    } else {
        let b = ((v % 128) + 128) as u8;
        let next = v / 128;
        assert(s[0] == b);
        assert(s.drop_first() =~= encode_unsigned(next) + rest);
        assert(shift <= 56) by (bit_vector)
            requires
                shift <= 63,
                shift % 7 == 0,
                v >= 128,
                shift == 0 || (shift < 64 && v < (1u64 << ((64 - shift) as u64))),
        ;
        assert(b & 0x80 != 0 && ((b & 0x7f) as u64) == v % 128) by (bit_vector)
            requires
                b == ((v % 128) + 128) as u8,
        ;
        assert(fits_unsigned(next, (shift + 7) as u64)) by (bit_vector)
            requires
                shift <= 56,
                next == v / 128,
                shift == 0 || (shift < 64 && v < (1u64 << ((64 - shift) as u64))),
        ;
        lemma_unsigned_round_trip(next, (shift + 7) as u64, rest);
        assert((((v % 128) << shift) | ((v / 128) << ((shift + 7) as u64))) == v << shift)
            by (bit_vector)
            requires
                shift <= 56,
        ;
    }
}

/// A number as it is after seven of its bits are taken off the low end,
/// with its sign kept.
pub open spec fn shifted_right_7(u: u64) -> u64 {
    if u & 0x8000_0000_0000_0000u64 != 0 {
        (u >> 7) | 0xfe00_0000_0000_0000u64
    } else {
        u >> 7
    }
}

/// The bytes of a signed variable-length integer with the two's
/// complement `u`, in at most `n` bytes: seven bits a byte, lowest first.
/// The last byte is the first after which only copies of the sign are left,
/// and the sign is its second highest bit.
pub open spec fn encode_signed_bits(u: u64, n: nat) -> Seq<u8>
    decreases n,
{
    let byte = u & 0x7f;
    let rest = shifted_right_7(u);
    if n <= 1 || (rest == 0 && byte & 0x40 == 0) || (rest == 0xffff_ffff_ffff_ffffu64 && byte & 0x40
        != 0) {
        seq![byte as u8]
    } else {
        seq![(byte | 0x80) as u8] + encode_signed_bits(rest, (n - 1) as nat)
    }
}

/// The bytes of a signed variable-length integer.
pub open spec fn encode_signed(v: i64) -> Seq<u8> {
    encode_signed_bits(v as u64, 10)
}

/// Whether all bits of `u` from the place `63 - shift` up are the same:
/// the number is a signed one of `64 - shift` bits.
pub open spec fn fits_signed(u: u64, shift: u64) -> bool {
    shift == 0 || (shift <= 63 && ((u >> ((63 - shift) as u64)) == 0 || (u >> ((63 - shift) as u64))
        == (0xffff_ffff_ffff_ffffu64 >> ((63 - shift) as u64))))
}

/// The decoder reads the bits of a signed integer back from its bytes,
/// whatever follows them.
pub proof fn lemma_signed_round_trip(u: u64, n: nat, shift: u64, rest: Seq<u8>)
    requires
        1 <= n <= 10,
        shift == 70 - 7 * n,
        fits_signed(u, shift),
    ensures
        leb_signed_bits(encode_signed_bits(u, n) + rest, shift) == Some(
            ((u << shift), encode_signed_bits(u, n).len()),
        ),
    decreases n,
{
    let s = encode_signed_bits(u, n) + rest;
    let byte = u & 0x7f;
    let next = shifted_right_7(u);
    assert(shift <= 63 && shift % 7 == 0);
    assert(shift == 63 ==> (next == 0 && byte & 0x40 == 0) || (next == 0xffff_ffff_ffff_ffffu64 && byte
        & 0x40 != 0)) by (bit_vector)
        requires
            byte == u & 0x7f,
            next == if u & 0x8000_0000_0000_0000u64 != 0 {
                (u >> 7) | 0xfe00_0000_0000_0000u64
            } else {
                u >> 7
            },
            shift == 63 ==> ((u >> ((63 - shift) as u64)) == 0 || (u >> ((63 - shift) as u64)) == (
            0xffff_ffff_ffff_ffffu64 >> ((63 - shift) as u64))),
    ;
    if (next == 0 && byte & 0x40 == 0) || (next == 0xffff_ffff_ffff_ffffu64 && byte & 0x40 != 0) {
        let b = #[verifier::truncate] (byte as u8);
        assert(s[0] == b);
        assert(b & 0x80 == 0 && (b & 0x7f) as u64 == byte && (b & 0x40 == 0x40) == (byte & 0x40
            != 0)) by (bit_vector)
            requires
                byte == u & 0x7f,
                b == byte as u8,
        ;
        assert(shift == 63 ==> b == 0x00 || b == 0x7f) by (bit_vector)
            requires
                byte == u & 0x7f,
                b == byte as u8,
                shift == 63 ==> ((u >> ((63 - shift) as u64)) == 0 || (u >> ((63 - shift) as u64))
                    == (0xffff_ffff_ffff_ffffu64 >> ((63 - shift) as u64))),
        ;
        assert((if shift + 7 < 64 && byte & 0x40 != 0 {
            (byte << shift) | (0xffff_ffff_ffff_ffffu64 << ((shift + 7) as u64))
        } else {
            byte << shift
        }) == u << shift) by (bit_vector)
            requires
                shift <= 63,
                byte == u & 0x7f,
                next == if u & 0x8000_0000_0000_0000u64 != 0 {
                    (u >> 7) | 0xfe00_0000_0000_0000u64
                } else {
                    u >> 7
                },
                (next == 0 && byte & 0x40 == 0) || (next == 0xffff_ffff_ffff_ffffu64 && byte & 0x40
                    != 0),
        ;
    } else {
        let b = #[verifier::truncate] ((byte | 0x80) as u8);
        assert(n > 1);
        assert(s[0] == b);
        assert(s.drop_first() =~= encode_signed_bits(next, (n - 1) as nat) + rest);
        assert(b & 0x80 != 0 && (b & 0x7f) as u64 == byte) by (bit_vector)
            requires
                byte == u & 0x7f,
                b == (byte | 0x80) as u8,
        ;
        assert(fits_signed(next, (shift + 7) as u64)) by (bit_vector)
            requires
                shift <= 56,
                next == if u & 0x8000_0000_0000_0000u64 != 0 {
                    (u >> 7) | 0xfe00_0000_0000_0000u64
                } else {
                    u >> 7
                },
                shift == 0 || (shift <= 63 && ((u >> ((63 - shift) as u64)) == 0 || (u >> ((63
                    - shift) as u64)) == (0xffff_ffff_ffff_ffffu64 >> ((63 - shift) as u64)))),
        ;
        lemma_signed_round_trip(next, (n - 1) as nat, (shift + 7) as u64, rest);
        assert(((byte << shift) | (next << ((shift + 7) as u64))) == u << shift) by (bit_vector)
            requires
                shift <= 56,
                byte == u & 0x7f,
                next == if u & 0x8000_0000_0000_0000u64 != 0 {
                    (u >> 7) | 0xfe00_0000_0000_0000u64
                } else {
                    u >> 7
                },
        ;
    }
}

/// One byte is read back.
pub proof fn lemma_u8_round_trip(x: u8, pre: Seq<u8>, post: Seq<u8>)
    ensures
        parse_u8(pre + seq![x] + post, pre.len() as int) == Ok::<(u8, int), Failure>(
            (x, pre.len() as int + 1),
        ),
{
}

/// Bytes are read back.
pub proof fn lemma_bytes_round_trip(s: Seq<u8>, pre: Seq<u8>, post: Seq<u8>)
    ensures
        parse_bytes(pre + s + post, pre.len() as int, s.len() as int) == Ok::<(Seq<u8>, int), Failure>(
            (s, pre.len() as int + s.len()),
        ),
{
    let b = pre + s + post;
    assert(b.subrange(pre.len() as int, pre.len() as int + s.len()) =~= s);
}

/// An unsigned integer is read back.
pub proof fn lemma_u64_round_trip(v: u64, pre: Seq<u8>, post: Seq<u8>)
    ensures
        parse_u64(pre + encode_unsigned(v) + post, pre.len() as int) == Ok::<(u64, int), Failure>(
            (v, pre.len() as int + encode_unsigned(v).len()),
        ),
{
    let b = pre + encode_unsigned(v) + post;
    assert(b.subrange(pre.len() as int, b.len() as int) =~= encode_unsigned(v) + post);
    lemma_unsigned_round_trip(v, 0, post);
    assert(v << 0u64 == v) by (bit_vector);
}

/// The bytes of a size or an index.
pub open spec fn encode_size(v: u32) -> Seq<u8> {
    encode_unsigned(v as u64)
}

/// A size or an index is read back.
pub proof fn lemma_size_round_trip(v: u32, pre: Seq<u8>, post: Seq<u8>)
    ensures
        parse_size(pre + encode_size(v) + post, pre.len() as int) == Ok::<(u32, int), Failure>(
            (v, pre.len() as int + encode_size(v).len()),
        ),
{
    lemma_u64_round_trip(v as u64, pre, post);
    assert((v as u64) as u32 == v) by (bit_vector);
}

/// A signed integer of 64 bits is read back.
pub proof fn lemma_i64_round_trip(v: i64, pre: Seq<u8>, post: Seq<u8>)
    ensures
        parse_i64(pre + encode_signed(v) + post, pre.len() as int) == Ok::<(i64, int), Failure>(
            (v, pre.len() as int + encode_signed(v).len()),
        ),
{
    let b = pre + encode_signed(v) + post;
    let u = v as u64;
    assert(b.subrange(pre.len() as int, b.len() as int) =~= encode_signed(v) + post);
    lemma_signed_round_trip(u, 10, 0, post);
    assert(u << 0u64 == u) by (bit_vector);
    assert(u as i64 == v) by (bit_vector)
        requires
            u == v as u64,
    ;
}

/// A signed integer of 32 bits is read back.
pub proof fn lemma_i32_round_trip(v: i32, pre: Seq<u8>, post: Seq<u8>)
    ensures
        parse_i32(pre + encode_signed(v as i64) + post, pre.len() as int) == Ok::<(i32, int), Failure>(
            (v, pre.len() as int + encode_signed(v as i64).len()),
        ),
{
    lemma_i64_round_trip(v as i64, pre, post);
    assert((v as i64) as i32 == v) by (bit_vector);
}

/// The bits of a single-precision number are read back.
pub proof fn lemma_f32_round_trip(bits: u32, pre: Seq<u8>, post: Seq<u8>)
    ensures
        le_u32(bits).len() == 4,
        parse_f32(pre + le_u32(bits) + post, pre.len() as int) == Ok::<
            (u32, int),
            Failure,
        >((bits, pre.len() as int + 4)),
{
    lemma_u32_le(bits);
    lemma_bytes_round_trip(le_u32(bits), pre, post);
}

/// The bits of a double-precision number are read back.
pub proof fn lemma_f64_round_trip(bits: u64, pre: Seq<u8>, post: Seq<u8>)
    ensures
        le_u64(bits).len() == 8,
        parse_f64(pre + le_u64(bits) + post, pre.len() as int) == Ok::<
            (u64, int),
            Failure,
        >((bits, pre.len() as int + 8)),
{
    lemma_u64_le(bits);
    lemma_bytes_round_trip(le_u64(bits), pre, post);
}

/// The bytes of a name: the number of its bytes, then its UTF-8.
pub open spec fn encode_name(name: Seq<char>) -> Seq<u8> {
    encode_size(encode_utf8(name).len() as u32) + encode_utf8(name)
}

/// Whether a name is short enough to be written: its UTF-8 has fewer than
/// 2^32 bytes.
pub open spec fn name_fits(name: Seq<char>) -> bool {
    encode_utf8(name).len() <= u32::MAX
}

/// A name is read back.
pub proof fn lemma_name_round_trip(name: Seq<char>, pre: Seq<u8>, post: Seq<u8>)
    requires
        name_fits(name),
    ensures
        parse_name(pre + encode_name(name) + post, pre.len() as int) == Ok::<(Seq<char>, int), Failure>(
            (name, pre.len() as int + encode_name(name).len()),
        ),
{
    let bytes = encode_utf8(name);
    let size = encode_size(bytes.len() as u32);
    let b = pre + encode_name(name) + post;
    assert(b =~= pre + size + (bytes + post));
    lemma_size_round_trip(bytes.len() as u32, pre, bytes + post);
    assert(b =~= (pre + size) + bytes + post);
    lemma_bytes_round_trip(bytes, pre + size, post);
    encode_utf8_valid_utf8(name);
    encode_utf8_decode_utf8(name);
}

/// The byte of a value type is read back.
pub proof fn lemma_value_type_round_trip(t: ValueType, pre: Seq<u8>, post: Seq<u8>)
    ensures
        parse_value_type(pre + seq![value_type_code(t)] + post, pre.len() as int) == Ok::<
            (ValueType, int),
            Failure,
        >((t, pre.len() as int + 1)),
{
}

/// The byte of a reference type.
pub open spec fn ref_type_code(t: RefType) -> u8 {
    match t {
        RefType::FuncRef => 0x70,
        RefType::ExternRef => 0x6F,
    }
}

/// The byte of a reference type is read back.
pub proof fn lemma_reference_type_round_trip(t: RefType, pre: Seq<u8>, post: Seq<u8>)
    ensures
        parse_reference_type(pre + seq![ref_type_code(t)] + post, pre.len() as int) == Ok::<
            (RefType, int),
            Failure,
        >((t, pre.len() as int + 1)),
{
}

/// The byte of a block type. A block type that names a function type has
/// none.
pub open spec fn block_type_code(t: BlockType) -> u8 {
    match t {
        BlockType::Empty => 0x40,
        BlockType::Value(v) => value_type_code(v),
        BlockType::TypeIndex(_) => 0x40,
    }
}

/// The byte of a block type is read back.
pub proof fn lemma_block_type_round_trip(t: BlockType, pre: Seq<u8>, post: Seq<u8>)
    requires
        !(t is TypeIndex),
    ensures
        parse_block_type(pre + seq![block_type_code(t)] + post, pre.len() as int) == Ok::<
            (BlockType, int),
            Failure,
        >((t, pre.len() as int + 1)),
{
}

/// The bytes of limits.
pub open spec fn encode_limits(l: Limits) -> Seq<u8> {
    match l.max {
        None => seq![0x00u8] + encode_size(l.min),
        Some(max) => seq![0x01u8] + encode_size(l.min) + encode_size(max),
    }
}

/// Limits are read back.
pub proof fn lemma_limits_round_trip(l: Limits, pre: Seq<u8>, post: Seq<u8>)
    ensures
        parse_limits(pre + encode_limits(l) + post, pre.len() as int) == Ok::<(Limits, int), Failure>(
            (l, pre.len() as int + encode_limits(l).len()),
        ),
{
    let b = pre + encode_limits(l) + post;
    match l.max {
        None => {
            assert(b =~= pre + seq![0x00u8] + (encode_size(l.min) + post));
            assert(b =~= (pre + seq![0x00u8]) + encode_size(l.min) + post);
            lemma_size_round_trip(l.min, pre + seq![0x00u8], post);
        },
        Some(max) => {
            assert(b =~= pre + seq![0x01u8] + (encode_size(l.min) + encode_size(max) + post));
            assert(b =~= (pre + seq![0x01u8]) + encode_size(l.min) + (encode_size(max) + post));
            lemma_size_round_trip(l.min, pre + seq![0x01u8], encode_size(max) + post);
            assert(b =~= (pre + seq![0x01u8] + encode_size(l.min)) + encode_size(max) + post);
            lemma_size_round_trip(max, pre + seq![0x01u8] + encode_size(l.min), post);
        },
    }
}

/// The bytes of the operand of a load or store.
pub open spec fn encode_mem_arg(m: MemArg) -> Seq<u8> {
    encode_size(m.align) + encode_size(m.offset)
}

/// The operand of a load or store is read back.
pub proof fn lemma_mem_arg_round_trip(m: MemArg, pre: Seq<u8>, post: Seq<u8>)
    ensures
        parse_mem_arg(pre + encode_mem_arg(m) + post, pre.len() as int) == Ok::<(MemArg, int), Failure>(
            (m, pre.len() as int + encode_mem_arg(m).len()),
        ),
{
    let b = pre + encode_mem_arg(m) + post;
    assert(b =~= pre + encode_size(m.align) + (encode_size(m.offset) + post));
    lemma_size_round_trip(m.align, pre, encode_size(m.offset) + post);
    assert(b =~= (pre + encode_size(m.align)) + encode_size(m.offset) + post);
    lemma_size_round_trip(m.offset, pre + encode_size(m.align), post);
}

} // verus!
