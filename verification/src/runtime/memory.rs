//! Values in linear memory.

use crate::runtime::operation::{access_ok, Access};
use crate::runtime::value::Val;
use crate::types::ValueType;
use crate::le::{
    le_u16, le_u32, le_u64, read_u16_le, read_u32_le, read_u64_le, u16_le, u32_le, u64_le,
    write_u16_le, write_u32_le, write_u64_le,
};
use vstd::prelude::*;

verus! {

/// The number that bytes spell, lowest byte first. The bytes must be 1, 2,
/// 4 or 8.
pub open spec fn le_number(bytes: Seq<u8>) -> u64 {
    if bytes.len() == 1 {
        bytes[0] as u64
    } else if bytes.len() == 2 {
        u16_le(bytes) as u64
    } else if bytes.len() == 4 {
        u32_le(bytes) as u64
    } else {
        u64_le(bytes)
    }
}

/// The `width` low bytes of a number, lowest first. The width must be 1,
/// 2, 4 or 8.
pub open spec fn le_bytes(x: u64, width: u8) -> Seq<u8> {
    if width == 1 {
        seq![x as u8]
    } else if width == 2 {
        le_u16(x as u16)
    } else if width == 4 {
        le_u32(x as u32)
    } else {
        le_u64(x)
    }
}

/// A number of `width` bytes as 64 bits: with its sign where `signed`,
/// else filled with zeros.
pub open spec fn extended(x: u64, width: u8, signed: bool) -> u64 {
    if !signed || width >= 8 {
        x
    } else if width == 1 {
        ((x as u8) as i8) as u64
    } else if width == 2 {
        ((x as u16) as i16) as u64
    } else {
        ((x as u32) as i32) as u64
    }
}

/// The value that a load makes of the bytes it has read.
pub open spec fn loaded_value(access: Access, bytes: Seq<u8>) -> Val {
    let x = extended(le_number(bytes), access.width, access.signed);
    match access.value_type {
        ValueType::I32 => Val::I32((x as u32) as i32),
        ValueType::I64 => Val::I64(x as i64),
        ValueType::F32 => Val::F32(x as u32),
        ValueType::F64 => Val::F64(x),
    }
}

/// The bits of a value of the type that the access names. `None` for a
/// value of another type.
pub open spec fn raw_bits(access: Access, value: Val) -> Option<u64> {
    match (access.value_type, value) {
        (ValueType::I32, Val::I32(v)) => Some((v as u32) as u64),
        (ValueType::I64, Val::I64(v)) => Some(v as u64),
        (ValueType::F32, Val::F32(v)) => Some(v as u64),
        (ValueType::F64, Val::F64(v)) => Some(v),
        _ => None,
    }
}

/// The bytes that a store writes for a value: its low bytes, lowest first.
pub open spec fn stored_bytes(access: Access, value: Val) -> Option<Seq<u8>> {
    match raw_bits(access, value) {
        Some(x) => Some(le_bytes(x, access.width)),
        None => None,
    }
}

/// The memory `data` with `bytes` written from `at` on.
pub open spec fn written(data: Seq<u8>, at: int, bytes: Seq<u8>) -> Seq<u8> {
    Seq::new(
        data.len(),
        |i: int|
            if at <= i < at + bytes.len() {
                bytes[i - at]
            } else {
                data[i]
            },
    )
}

/// The bytes of a number have the width asked for.
pub proof fn lemma_le_bytes_len(x: u64, width: u8)
    requires
        width == 1 || width == 2 || width == 4 || width == 8,
    ensures
        le_bytes(x, width).len() == width,
{

}

/// Reads the number that `bytes` spell.
pub fn read_le(bytes: &[u8]) -> (r: u64)
    requires
        bytes@.len() == 1 || bytes@.len() == 2 || bytes@.len() == 4 || bytes@.len() == 8,
    ensures
        r == le_number(bytes@),
{
    if bytes.len() == 1 {
        bytes[0] as u64
    } else if bytes.len() == 2 {
        read_u16_le(bytes) as u64
    } else if bytes.len() == 4 {
        read_u32_le(bytes) as u64
    } else {
        read_u64_le(bytes)
    }
}

/// The value that a load makes of the bytes it has read.
pub fn load_value(access: Access, bytes: &[u8]) -> (r: Val)
    requires
        access_ok(access),
        bytes@.len() == access.width,
    ensures
        r == loaded_value(access, bytes@),
{
    let raw = read_le(bytes);
    let x: u64 = if !access.signed || access.width >= 8 {
        raw
    } else if access.width == 1 {
        ((raw as u8) as i8) as u64
    } else if access.width == 2 {
        ((raw as u16) as i16) as u64
    } else {
        ((raw as u32) as i32) as u64
    };
    match access.value_type {
        ValueType::I32 => Val::I32((x as u32) as i32),
        ValueType::I64 => Val::I64(x as i64),
        ValueType::F32 => Val::F32(x as u32),
        ValueType::F64 => Val::F64(x),
    }
}

/// The bytes that a store writes for a value.
pub fn store_bytes(access: Access, value: Val) -> (r: Option<Vec<u8>>)
    requires
        access_ok(access),
    ensures
        match stored_bytes(access, value) {
            Some(bytes) => r matches Some(v) && v@ == bytes && v@.len() == access.width,
            None => r is None,
        },
{
    let x: u64 = match (access.value_type, value) {
        (ValueType::I32, Val::I32(v)) => (v as u32) as u64,
        (ValueType::I64, Val::I64(v)) => v as u64,
        (ValueType::F32, Val::F32(v)) => v as u64,
        (ValueType::F64, Val::F64(v)) => v,
        _ => {
            return None;
        },
    };
    proof {
        lemma_le_bytes_len(x, access.width);
    }
    if access.width == 1 {
        let mut out: Vec<u8> = Vec::new();
        out.push(x as u8);
        proof {
            assert(out@ =~= seq![x as u8]);
        }
        Some(out)
    } else if access.width == 2 {
        Some(write_u16_le(x as u16))
    } else if access.width == 4 {
        Some(write_u32_le(x as u32))
    } else {
        Some(write_u64_le(x))
    }
}

/// Writes `bytes` into `data` from `at` on.
pub fn write_bytes(data: &mut Vec<u8>, at: usize, bytes: &Vec<u8>)
    requires
        at + bytes.len() <= old(data).len(),
    ensures
        final(data)@ == written(old(data)@, at as int, bytes@),
{
    let mut k: usize = 0;
    while k < bytes.len()
        invariant
            k <= bytes.len(),
            at + bytes.len() <= data.len(),
            data.len() == old(data).len(),
            data@ == written(old(data)@, at as int, bytes@.subrange(0, k as int)),
        decreases bytes.len() - k,
    {
        data.set(at + k, bytes[k]);
        k = k + 1;
        proof {
            assert(data@ =~= written(old(data)@, at as int, bytes@.subrange(0, k as int)));
        }
    }
    proof {
        assert(bytes@.subrange(0, bytes.len() as int) =~= bytes@);
        assert(written(old(data)@, at as int, Seq::<u8>::empty()) =~= old(data)@);
    }
}

} // verus!
