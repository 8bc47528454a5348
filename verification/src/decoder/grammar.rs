//! The binary format, as functions from bytes and a position to the item
//! that stands there and the position behind it.

use crate::binary::instruction::{
    index_instruction, is_index_opcode, is_memory_opcode, memory_instruction, plain_instruction,
    Block, BlockType, Instr, InstructionView, MemArg,
};
use crate::decoder::decoder::Decoder;
use crate::decoder::encoding::{encode_size, lemma_size_round_trip, lemma_value_type_round_trip};
use crate::decoder::leb::{
    leb_signed_bits, leb_signed_taken, leb_unsigned, leb_unsigned_taken,
};
use crate::decoder::result::{Error, Failure, Result};
use crate::types::{value_type_code, value_type_of, Limits, RefType, ValueType};
use crate::views::views;
use crate::le::{u32_le, u64_le};
use vstd::prelude::*;
use vstd::utf8::{decode_utf8, valid_utf8};

verus! {

/// An item and the position behind it, or why none stands there and where
/// the decoder stands after it has found that out.
pub type Parsed<T> = core::result::Result<(T, int), Failure>;

/// The read that fails with `error` and leaves the decoder at `at`.
pub open spec fn failed<T>(error: Error, at: int) -> Parsed<T> {
    Err(Failure { error, at })
}

/// One byte.
pub open spec fn parse_u8(b: Seq<u8>, pos: int) -> Parsed<u8> {
    if 0 <= pos < b.len() {
        Ok((b[pos], pos + 1))
    } else {
        failed(Error::UnexpectedEof, b.len() as int)
    }
}

/// The next `n` bytes.
pub open spec fn parse_bytes(b: Seq<u8>, pos: int, n: int) -> Parsed<Seq<u8>> {
    if 0 <= pos && 0 <= n && pos + n <= b.len() {
        Ok((b.subrange(pos, pos + n), pos + n))
    } else {
        failed(Error::UnexpectedEof, b.len() as int)
    }
}

/// An unsigned variable-length integer of up to 64 bits.
pub open spec fn parse_u64(b: Seq<u8>, pos: int) -> Parsed<u64> {
    if 0 <= pos <= b.len() {
        match leb_unsigned(b.subrange(pos, b.len() as int), 0) {
            Some((v, n)) => Ok((v, pos + n)),
            None => failed(
                Error::UnexpectedEof,
                pos + leb_unsigned_taken(b.subrange(pos, b.len() as int), 0),
            ),
        }
    } else {
        failed(Error::UnexpectedEof, b.len() as int)
    }
}

/// A size or an index: an unsigned variable-length integer, of which the low
/// 32 bits are kept.
pub open spec fn parse_size(b: Seq<u8>, pos: int) -> Parsed<u32> {
    match parse_u64(b, pos) {
        Ok((v, next)) => Ok((v as u32, next)),
        Err(e) => Err(e),
    }
}

/// A signed variable-length integer of up to 64 bits.
pub open spec fn parse_i64(b: Seq<u8>, pos: int) -> Parsed<i64> {
    if 0 <= pos <= b.len() {
        match leb_signed_bits(b.subrange(pos, b.len() as int), 0) {
            Some((v, n)) => Ok((v as i64, pos + n)),
            None => failed(
                Error::UnexpectedEof,
                pos + leb_signed_taken(b.subrange(pos, b.len() as int), 0),
            ),
        }
    } else {
        failed(Error::UnexpectedEof, b.len() as int)
    }
}

/// A signed variable-length integer, of which the low 32 bits are kept.
pub open spec fn parse_i32(b: Seq<u8>, pos: int) -> Parsed<i32> {
    match parse_i64(b, pos) {
        Ok((v, next)) => Ok((v as i32, next)),
        Err(e) => Err(e),
    }
}

/// The bits of a single-precision number: four bytes, lowest first.
pub open spec fn parse_f32(b: Seq<u8>, pos: int) -> Parsed<u32> {
    match parse_bytes(b, pos, 4) {
        Ok((s, next)) => Ok((u32_le(s), next)),
        Err(e) => Err(e),
    }
}

/// The bits of a double-precision number: eight bytes, lowest first.
pub open spec fn parse_f64(b: Seq<u8>, pos: int) -> Parsed<u64> {
    match parse_bytes(b, pos, 8) {
        Ok((s, next)) => Ok((u64_le(s), next)),
        Err(e) => Err(e),
    }
}

/// A name: its length in bytes, then that many bytes of UTF-8.
pub open spec fn parse_name(b: Seq<u8>, pos: int) -> Parsed<Seq<char>> {
    match parse_size(b, pos) {
        Ok((n, p)) => match parse_bytes(b, p, n as int) {
            Ok((s, next)) => if valid_utf8(s) {
                Ok((decode_utf8(s), next))
            } else {
                failed(Error::InvalidName, next)
            },
            Err(e) => Err(e),
        },
        Err(e) => Err(e),
    }
}

/// A value type.
pub open spec fn parse_value_type(b: Seq<u8>, pos: int) -> Parsed<ValueType> {
    match parse_u8(b, pos) {
        Ok((byte, next)) => match value_type_of(byte) {
            Some(t) => Ok((t, next)),
            None => failed(Error::InvalidValueType(byte), next),
        },
        Err(e) => Err(e),
    }
}

/// A reference type.
pub open spec fn parse_reference_type(b: Seq<u8>, pos: int) -> Parsed<RefType> {
    match parse_u8(b, pos) {
        Ok((byte, next)) => if byte == 0x70 {
            Ok((RefType::FuncRef, next))
        } else if byte == 0x6F {
            Ok((RefType::ExternRef, next))
        } else {
            failed(Error::InvalidRefType, next)
        },
        Err(e) => Err(e),
    }
}

/// A block type: empty, or one value type.
pub open spec fn parse_block_type(b: Seq<u8>, pos: int) -> Parsed<BlockType> {
    match parse_u8(b, pos) {
        Ok((byte, next)) => if byte == 0x40 {
            Ok((BlockType::Empty, next))
        } else {
            match value_type_of(byte) {
                Some(t) => Ok((BlockType::Value(t), next)),
                None => failed(Error::InvalidBlockType, next),
            }
        },
        Err(e) => Err(e),
    }
}

/// Limits: a flag, the lower bound and, where the flag is 1, the upper bound.
pub open spec fn parse_limits(b: Seq<u8>, pos: int) -> Parsed<Limits> {
    match parse_u8(b, pos) {
        Ok((flag, p)) => if flag == 0x00 {
            match parse_size(b, p) {
                Ok((min, next)) => Ok((Limits { min, max: None }, next)),
                Err(e) => Err(e),
            }
        } else if flag == 0x01 {
            match parse_size(b, p) {
                Ok((min, q)) => match parse_size(b, q) {
                    Ok((max, next)) => Ok((Limits { min, max: Some(max) }, next)),
                    Err(e) => Err(e),
                },
                Err(e) => Err(e),
            }
        } else {
            failed(Error::InvalidLimitsKind, p)
        },
        Err(e) => Err(e),
    }
}

/// The operand of a load or store: the alignment, then the offset.
pub open spec fn parse_mem_arg(b: Seq<u8>, pos: int) -> Parsed<MemArg> {
    match parse_size(b, pos) {
        Ok((align, p)) => match parse_size(b, p) {
            Ok((offset, next)) => Ok((MemArg { align, offset }, next)),
            Err(e) => Err(e),
        },
        Err(e) => Err(e),
    }
}

/// A kind of item that the format holds in vectors: how it is spelled, and
/// how the decoder reads it.
pub trait Item: View + Sized {
    /// The item that stands at `pos`.
    spec fn parse(b: Seq<u8>, pos: int) -> Parsed<Self::V>;

    /// Reads one item.
    fn read(d: &mut Decoder) -> (r: Result<Self>)
        ensures
            Decoder::reads(
                *old(d),
                *final(d),
                result_view(r),
                Self::parse(old(d).input(), old(d).position()),
            ),
    ;

    /// The bytes that spell the item.
    spec fn encode(v: Self::V) -> Seq<u8>;

    /// Whether the item can be written: its sizes fit the format.
    spec fn encodable(v: Self::V) -> bool;

    /// The item is read back from its bytes, whatever stands before and
    /// behind them.
    proof fn lemma_round_trip(v: Self::V, pre: Seq<u8>, post: Seq<u8>)
        requires
            Self::encodable(v),
        ensures
            Self::parse(pre + Self::encode(v) + post, pre.len() as int) == Ok::<(Self::V, int), Failure>(
                (v, pre.len() as int + Self::encode(v).len()),
            ),
    ;
}

/// The result of a read, with what was read as its view.
pub open spec fn result_view<T: View>(r: Result<T>) -> Result<T::V> {
    match r {
        Ok(v) => Ok(v@),
        Err(e) => Err(e),
    }
}

/// The result of reading a vector, with what was read as the views of its items.
pub open spec fn result_views<T: View>(r: Result<Vec<T>>) -> Result<Seq<T::V>> {
    match r {
        Ok(v) => Ok(views(v@)),
        Err(e) => Err(e),
    }
}

/// `n` items in a row.
pub open spec fn parse_items<T: Item>(b: Seq<u8>, pos: int, n: nat) -> Parsed<Seq<T::V>>
    decreases n,
{
    if n == 0 {
        Ok((Seq::empty(), pos))
    } else {
        match T::parse(b, pos) {
            Ok((v, p)) => match parse_items::<T>(b, p, (n - 1) as nat) {
                Ok((vs, next)) => Ok((seq![v] + vs, next)),
                Err(e) => Err(e),
            },
            Err(e) => Err(e),
        }
    }
}

/// A vector: the number of its items, then the items.
pub open spec fn parse_vec<T: Item>(b: Seq<u8>, pos: int) -> Parsed<Seq<T::V>> {
    match parse_size(b, pos) {
        Ok((n, p)) => parse_items::<T>(b, p, n as nat),
        Err(e) => Err(e),
    }
}

impl Item for u32 {
    open spec fn parse(b: Seq<u8>, pos: int) -> Parsed<u32> {
        parse_size(b, pos)
    }

    fn read(d: &mut Decoder) -> (r: Result<u32>) {
        d.read_size()
    }

    open spec fn encode(v: u32) -> Seq<u8> {
        encode_size(v)
    }

    open spec fn encodable(v: u32) -> bool {
        true
    }

    proof fn lemma_round_trip(v: u32, pre: Seq<u8>, post: Seq<u8>) {
        lemma_size_round_trip(v, pre, post);
    }
}

impl View for ValueType {
    type V = ValueType;

    open spec fn view(&self) -> ValueType {
        *self
    }
}

impl Item for ValueType {
    open spec fn parse(b: Seq<u8>, pos: int) -> Parsed<ValueType> {
        parse_value_type(b, pos)
    }

    fn read(d: &mut Decoder) -> (r: Result<ValueType>) {
        let byte = d.read_u8()?;
        match ValueType::from_byte(byte) {
            Some(t) => Ok(t),
            None => Err(Error::InvalidValueType(byte)),
        }
    }

    open spec fn encode(v: ValueType) -> Seq<u8> {
        seq![value_type_code(v)]
    }

    open spec fn encodable(v: ValueType) -> bool {
        true
    }

    proof fn lemma_round_trip(v: ValueType, pre: Seq<u8>, post: Seq<u8>) {
        lemma_value_type_round_trip(v, pre, post);
    }
}

/// The views of plain items are the items.
pub proof fn lemma_views_u32(s: Seq<u32>)
    ensures
        views(s) == s,
{
    assert(views(s) =~= s);
}

/// The views of plain items are the items.
pub proof fn lemma_views_value_type(s: Seq<ValueType>)
    ensures
        views(s) == s,
{
    assert(views(s) =~= s);
}

/// A constant expression: one of the four constant instructions, then one
/// more byte, which closes the expression and is not looked at.
pub open spec fn parse_const_expr(b: Seq<u8>, pos: int) -> Parsed<InstructionView> {
    match parse_u8(b, pos) {
        Ok((opcode, p)) => {
            let value: Parsed<InstructionView> = if opcode == 0x41 {
                match parse_i32(b, p) {
                    Ok((value, q)) => Ok((Instr::I32Const { value }, q)),
                    Err(e) => Err(e),
                }
            } else if opcode == 0x42 {
                match parse_i64(b, p) {
                    Ok((value, q)) => Ok((Instr::I64Const { value }, q)),
                    Err(e) => Err(e),
                }
            } else if opcode == 0x43 {
                match parse_f32(b, p) {
                    Ok((value, q)) => Ok((Instr::F32Const { value }, q)),
                    Err(e) => Err(e),
                }
            } else if opcode == 0x44 {
                match parse_f64(b, p) {
                    Ok((value, q)) => Ok((Instr::F64Const { value }, q)),
                    Err(e) => Err(e),
                }
            } else {
                failed(Error::ExpectedConstExpression, p)
            };
            match value {
                Ok((i, q)) => match parse_u8(b, q) {
                    Ok((_, next)) => Ok((i, next)),
                    Err(e) => Err(e),
                },
                Err(e) => Err(e),
            }
        },
        Err(e) => Err(e),
    }
}

/// The instruction that follows `0xFC` and the number `id`.
pub open spec fn parse_sub_instruction(b: Seq<u8>, pos: int, id: u32) -> Parsed<InstructionView> {
    if id == 8 {
        match parse_size(b, pos) {
            Ok((data_index, p)) => match parse_u8(b, p) {
                Ok((_, next)) => Ok((Instr::MemoryInit { data_index }, next)),
                Err(e) => Err(e),
            },
            Err(e) => Err(e),
        }
    } else if id == 9 {
        match parse_size(b, pos) {
            Ok((data_index, next)) => Ok((Instr::DataDrop { data_index }, next)),
            Err(e) => Err(e),
        }
    } else if id == 10 {
        match parse_u8(b, pos) {
            Ok((_, p)) => match parse_u8(b, p) {
                Ok((_, next)) => Ok((Instr::MemoryCopy, next)),
                Err(e) => Err(e),
            },
            Err(e) => Err(e),
        }
    } else if id == 11 {
        match parse_u8(b, pos) {
            Ok((_, next)) => Ok((Instr::MemoryFill, next)),
            Err(e) => Err(e),
        }
    } else if id == 12 {
        match parse_size(b, pos) {
            Ok((element_index, p)) => match parse_size(b, p) {
                Ok((table_index, next)) => Ok((Instr::TableInit { element_index, table_index }, next)),
                Err(e) => Err(e),
            },
            Err(e) => Err(e),
        }
    } else if id == 13 {
        match parse_size(b, pos) {
            Ok((element_index, next)) => Ok((Instr::ElemDrop { element_index }, next)),
            Err(e) => Err(e),
        }
    } else if id == 14 {
        match parse_size(b, pos) {
            Ok((dst_table_index, p)) => match parse_size(b, p) {
                Ok((src_table_index, next)) => Ok(
                    (Instr::TableCopy { dst_table_index, src_table_index }, next),
                ),
                Err(e) => Err(e),
            },
            Err(e) => Err(e),
        }
    } else if id == 15 {
        match parse_size(b, pos) {
            Ok((table_index, next)) => Ok((Instr::TableGrow { table_index }, next)),
            Err(e) => Err(e),
        }
    } else if id == 16 {
        match parse_size(b, pos) {
            Ok((table_index, next)) => Ok((Instr::TableSize { table_index }, next)),
            Err(e) => Err(e),
        }
    } else if id == 17 {
        match parse_size(b, pos) {
            Ok((table_index, next)) => Ok((Instr::TableFill { table_index }, next)),
            Err(e) => Err(e),
        }
    } else {
        failed(Error::InvalidSubInstrId, pos)
    }
}

/// The instruction whose opcode is `opcode` and whose operands start at `pos`.
pub open spec fn parse_operands(b: Seq<u8>, pos: int, opcode: u8) -> Parsed<InstructionView> {
    if plain_instruction(opcode) is Some {
        Ok((plain_instruction(opcode)->0, pos))
    } else if is_memory_opcode(opcode) {
        match parse_mem_arg(b, pos) {
            Ok((mem_arg, next)) => Ok((memory_instruction(opcode, mem_arg)->0, next)),
            Err(e) => Err(e),
        }
    } else if is_index_opcode(opcode) {
        match parse_size(b, pos) {
            Ok((index, next)) => Ok((index_instruction(opcode, index)->0, next)),
            Err(e) => Err(e),
        }
    } else if opcode == 0x02 || opcode == 0x03 || opcode == 0x04 {
        match parse_block_type(b, pos) {
            Ok((block_type, next)) => {
                let block = Block { block_type };
                if opcode == 0x02 {
                    Ok((Instr::Block { block }, next))
                } else if opcode == 0x03 {
                    Ok((Instr::Loop { block }, next))
                } else {
                    Ok((Instr::If { block }, next))
                }
            },
            Err(e) => Err(e),
        }
    } else if opcode == 0x0E {
        match parse_vec::<u32>(b, pos) {
            Ok((label_indexes, p)) => match parse_size(b, p) {
                Ok((default_index, next)) => Ok(
                    (Instr::BrTable { label_indexes, default_index }, next),
                ),
                Err(e) => Err(e),
            },
            Err(e) => Err(e),
        }
    } else if opcode == 0x11 {
        match parse_size(b, pos) {
            Ok((type_index, p)) => match parse_size(b, p) {
                Ok((table_index, next)) => Ok((Instr::CallIndirect { type_index, table_index }, next)),
                Err(e) => Err(e),
            },
            Err(e) => Err(e),
        }
    } else if opcode == 0xD0 {
        match parse_reference_type(b, pos) {
            Ok((ref_type, next)) => Ok((Instr::RefNull { ref_type }, next)),
            Err(e) => Err(e),
        }
    } else if opcode == 0x1B {
        Ok((Instr::Select { result_types: None }, pos))
    } else if opcode == 0x1C {
        match parse_vec::<ValueType>(b, pos) {
            Ok((types, next)) => Ok((Instr::Select { result_types: Some(types) }, next)),
            Err(e) => Err(e),
        }
    } else if opcode == 0xFC {
        match parse_size(b, pos) {
            Ok((id, p)) => parse_sub_instruction(b, p, id),
            Err(e) => Err(e),
        }
    } else if opcode == 0x3F {
        match parse_u8(b, pos) {
            Ok((_, next)) => Ok((Instr::MemorySize, next)),
            Err(e) => Err(e),
        }
    } else if opcode == 0x40 {
        match parse_u8(b, pos) {
            Ok((_, next)) => Ok((Instr::MemoryGrow, next)),
            Err(e) => Err(e),
        }
    } else if opcode == 0x41 {
        match parse_i32(b, pos) {
            Ok((value, next)) => Ok((Instr::I32Const { value }, next)),
            Err(e) => Err(e),
        }
    } else if opcode == 0x42 {
        match parse_i64(b, pos) {
            Ok((value, next)) => Ok((Instr::I64Const { value }, next)),
            Err(e) => Err(e),
        }
    } else if opcode == 0x43 {
        match parse_f32(b, pos) {
            Ok((value, next)) => Ok((Instr::F32Const { value }, next)),
            Err(e) => Err(e),
        }
    } else if opcode == 0x44 {
        match parse_f64(b, pos) {
            Ok((value, next)) => Ok((Instr::F64Const { value }, next)),
            Err(e) => Err(e),
        }
    } else {
        failed(Error::UnsupportedOpcode(opcode), pos)
    }
}

/// One instruction: its opcode, then its operands.
pub open spec fn parse_instruction(b: Seq<u8>, pos: int) -> Parsed<InstructionView> {
    match parse_u8(b, pos) {
        Ok((opcode, p)) => parse_operands(b, p, opcode),
        Err(e) => Err(e),
    }
}

/// Instructions up to the end of `b`.
pub open spec fn parse_instructions(b: Seq<u8>, pos: int) -> core::result::Result<
    Seq<InstructionView>,
    Failure,
>
    decreases b.len() - pos,
{
    if pos < 0 || pos >= b.len() {
        Ok(Seq::empty())
    } else {
        match parse_instruction(b, pos) {
            Ok((i, next)) => if pos < next <= b.len() {
                match parse_instructions(b, next) {
                    Ok(rest) => Ok(seq![i] + rest),
                    Err(e) => Err(e),
                }
            } else {
                Err(Failure { error: Error::UnexpectedEof, at: b.len() as int })
            },
            Err(e) => Err(e),
        }
    }
}

} // verus!
