//! The decoder: a cursor over the bytes of a module.

use crate::binary::instruction::{
    index_instruction_of, memory_instruction_of, plain_instruction_of, takes_index, Block,
    BlockType, Instr, Instruction, MemArg,
};
use crate::decoder::grammar::{
    lemma_views_u32, lemma_views_value_type, parse_block_type, parse_bytes, parse_const_expr,
    parse_f32, parse_f64, parse_i32, parse_i64, parse_instruction, parse_instructions,
    parse_items, parse_limits, parse_mem_arg, parse_name, parse_operands, parse_reference_type,
    parse_size, parse_sub_instruction, parse_u64, parse_u8, parse_vec, result_view, result_views,
    Item, Parsed,
};
use crate::types::{Limits, RefType, ValueType};
use crate::views::{lemma_views_empty, lemma_views_push, views};
use crate::decoder::leb::{
    lemma_leb_signed_len, lemma_leb_unsigned_len, read_signed, read_unsigned,
};
use crate::decoder::result::{Error, Failure, Result};
use crate::le::{read_u32_le, read_u64_le};
use vstd::prelude::*;
use vstd::slice::{slice_subrange, slice_to_vec};
use vstd::utf8::{decode_utf8, valid_utf8};

verus! {

/// Reads a module from a sequence of bytes, item by item. After a failed
/// read the decoder stands behind the bytes that the read has taken: at the
/// end of its input where the input ran out.
pub struct Decoder {
    bytes: Vec<u8>,
    pos: usize,
}

/// Calls `String::from_utf8`: the string that `bytes` encode, if they are
/// UTF-8.
#[verifier::external_body]
fn string_from_utf8(bytes: Vec<u8>) -> (r: Option<String>)
    ensures
        r is Some <==> valid_utf8(bytes@),
        r matches Some(s) ==> s@ == decode_utf8(bytes@),
{
    match String::from_utf8(bytes) {
        Ok(s) => Some(s),
        Err(_) => None,
    }
}

impl Decoder {
    #[verifier::type_invariant]
    spec fn in_bounds(self) -> bool {
        self.pos <= self.bytes.len()
    }

    /// The bytes that the decoder reads from.
    pub closed spec fn input(self) -> Seq<u8> {
        self.bytes@
    }

    /// The place of the next byte to read.
    pub closed spec fn position(self) -> int {
        self.pos as int
    }

    /// Whether a read that took `pre` to `post` and returned `got` did what
    /// `want` says: on success the item was returned and the decoder stands
    /// behind it; on failure the error was returned and the decoder stands
    /// where the failure says. The input is never changed.
    pub open spec fn reads<V>(pre: Decoder, post: Decoder, got: Result<V>, want: Parsed<V>) -> bool {
        &&& post.input() == pre.input()
        &&& 0 <= pre.position() <= post.position() <= post.input().len()
        &&& match want {
            Ok((v, next)) => got == Ok::<V, Error>(v) && post.position() == next,
            Err(f) => got == Err::<V, Error>(f.error) && post.position() == f.at,
        }
    }

    /// A decoder at the start of a copy of `reader`.
    pub fn new(reader: &[u8]) -> (r: Decoder)
        ensures
            r.input() == reader@,
            r.position() == 0,
    {
        Decoder { bytes: slice_to_vec(reader), pos: 0 }
    }

    /// How many bytes are left to read.
    pub(crate) fn bytes_left(&self) -> (r: usize)
        ensures
            r == self.input().len() - self.position(),
            0 <= self.position() <= self.input().len(),
    {
        proof {
            use_type_invariant(self);
        }
        self.bytes.len() - self.pos
    }

    /// Gives up with `error`. The decoder stays where it is.
    pub fn refuse<T>(&self, error: Error) -> (r: Result<T>)
        ensures
            r == Err::<T, Error>(error),
            0 <= self.position() <= self.input().len(),
    {
        proof {
            use_type_invariant(self);
        }
        Err(error)
    }

    /// Reads `size` bytes.
    pub fn read_bytes(&mut self, size: usize) -> (r: Result<Vec<u8>>)
        ensures
            Self::reads(
                *old(self),
                *final(self),
                match r {
                    Ok(v) => Ok(v@),
                    Err(e) => Err(e),
                },
                parse_bytes(old(self).input(), old(self).position(), size as int),
            ),
    {
        proof {
            use_type_invariant(&*self);
        }
        if size <= self.bytes.len() - self.pos {
            let out = slice_to_vec(slice_subrange(self.bytes.as_slice(), self.pos, self.pos + size));
            self.pos = self.pos + size;
            Ok(out)
        } else {
            self.pos = self.bytes.len();
            Err(Error::UnexpectedEof)
        }
    }

    /// Reads one byte.
    pub fn read_u8(&mut self) -> (r: Result<u8>)
        ensures
            Self::reads(*old(self), *final(self), r, parse_u8(old(self).input(), old(self).position())),
    {
        proof {
            use_type_invariant(&*self);
        }
        if self.pos < self.bytes.len() {
            let byte = self.bytes[self.pos];
            self.pos = self.pos + 1;
            Ok(byte)
        } else {
            Err(Error::UnexpectedEof)
        }
    }

    /// Reads an unsigned variable-length integer of up to 64 bits.
    pub fn read_u64(&mut self) -> (r: Result<u64>)
        ensures
            Self::reads(*old(self), *final(self), r, parse_u64(old(self).input(), old(self).position())),
    {
        proof {
            use_type_invariant(&*self);
            lemma_leb_unsigned_len(self.bytes@.subrange(self.pos as int, self.bytes.len() as int), 0);
        }
        let len = self.bytes.len();
        let (value, left) = read_unsigned(slice_subrange(self.bytes.as_slice(), self.pos, len));
        self.pos = len - left;
        match value {
            Some(value) => Ok(value),
            None => Err(Error::UnexpectedEof),
        }
    }

    /// Reads a size or an index: an unsigned variable-length integer, cut to
    /// its low 32 bits.
    pub fn read_size(&mut self) -> (r: Result<u32>)
        ensures
            Self::reads(*old(self), *final(self), r, parse_size(old(self).input(), old(self).position())),
    {
        match self.read_u64() {
            Ok(value) => Ok(value as u32),
            Err(e) => Err(e),
        }
    }

    /// Reads a signed variable-length integer of up to 64 bits.
    pub fn read_i64(&mut self) -> (r: Result<i64>)
        ensures
            Self::reads(*old(self), *final(self), r, parse_i64(old(self).input(), old(self).position())),
    {
        proof {
            use_type_invariant(&*self);
            lemma_leb_signed_len(self.bytes@.subrange(self.pos as int, self.bytes.len() as int), 0);
        }
        let len = self.bytes.len();
        let (value, left) = read_signed(slice_subrange(self.bytes.as_slice(), self.pos, len));
        self.pos = len - left;
        match value {
            Some(value) => Ok(value),
            None => Err(Error::UnexpectedEof),
        }
    }

    /// Reads a signed variable-length integer, cut to its low 32 bits.
    pub fn read_i32(&mut self) -> (r: Result<i32>)
        ensures
            Self::reads(*old(self), *final(self), r, parse_i32(old(self).input(), old(self).position())),
    {
        match self.read_i64() {
            Ok(value) => Ok(value as i32),
            Err(e) => Err(e),
        }
    }

    /// Reads the bits of a single-precision number.
    pub fn read_f32(&mut self) -> (r: Result<u32>)
        ensures
            Self::reads(*old(self), *final(self), r, parse_f32(old(self).input(), old(self).position())),
    {
        match self.read_bytes(4) {
            Ok(bytes) => Ok(read_u32_le(bytes.as_slice())),
            Err(e) => Err(e),
        }
    }

    /// Reads the bits of a double-precision number.
    pub fn read_f64(&mut self) -> (r: Result<u64>)
        ensures
            Self::reads(*old(self), *final(self), r, parse_f64(old(self).input(), old(self).position())),
    {
        match self.read_bytes(8) {
            Ok(bytes) => Ok(read_u64_le(bytes.as_slice())),
            Err(e) => Err(e),
        }
    }

    /// Reads a name.
    pub fn read_name(&mut self) -> (r: Result<String>)
        ensures
            Self::reads(
                *old(self),
                *final(self),
                match r {
                    Ok(s) => Ok(s@),
                    Err(e) => Err(e),
                },
                parse_name(old(self).input(), old(self).position()),
            ),
    {
        let size = self.read_size()?;
        let bytes = self.read_bytes(size as usize)?;
        match string_from_utf8(bytes) {
            Some(name) => Ok(name),
            None => Err(Error::InvalidName),
        }
    }

    /// Reads a vector: the number of its items, then the items.
    pub fn read_vec<T: Item>(&mut self) -> (r: Result<Vec<T>>)
        ensures
            Self::reads(
                *old(self),
                *final(self),
                result_views(r),
                parse_vec::<T>(old(self).input(), old(self).position()),
            ),
    {
        let n = self.read_size()?;
        let ghost b = self.input();
        let ghost start = self.position();
        let mut items: Vec<T> = Vec::new();
        let mut i: u32 = 0;
        proof {
            lemma_views_empty::<T>();
            match parse_items::<T>(b, start, n as nat) {
                Ok((vs, _)) => assert(Seq::<T::V>::empty() + vs =~= vs),
                Err(_) => {},
            }
        }
        while i < n
            invariant
                self.input() == b,
                old(self).input() == b,
                parse_size(b, old(self).position()) == Ok::<(u32, int), Failure>((n, start)),
                0 <= old(self).position() <= self.position() <= b.len(),
                i <= n,
                parse_items::<T>(b, start, n as nat) == match parse_items::<T>(
                    b,
                    self.position(),
                    (n - i) as nat,
                ) {
                    Ok((vs, next)) => Ok::<(Seq<T::V>, int), Failure>((views(items@) + vs, next)),
                    Err(e) => Err::<(Seq<T::V>, int), Failure>(e),
                },
            decreases n - i,
        {
            let ghost before = self.position();
            match T::read(self) {
                Ok(item) => {
                    proof {
                        lemma_views_push(items@, item);
                        match parse_items::<T>(b, self.position(), (n - i - 1) as nat) {
                            Ok((vs, _)) => assert(views(items@) + (seq![item@] + vs) =~= views(
                                items@,
                            ).push(item@) + vs),
                            Err(_) => {},
                        }
                    }
                    items.push(item);
                },
                Err(e) => {
                    proof {
                        assert(parse_items::<T>(b, before, (n - i) as nat) is Err);
                    }
                    return Err(e);
                },
            }
            i = i + 1;
        }
        proof {
            assert(views(items@) + Seq::<T::V>::empty() =~= views(items@));
        }
        Ok(items)
    }

    /// Reads a reference type.
    pub fn read_reference_type(&mut self) -> (r: Result<RefType>)
        ensures
            Self::reads(
                *old(self),
                *final(self),
                r,
                parse_reference_type(old(self).input(), old(self).position()),
            ),
    {
        let type_id = self.read_u8()?;
        match type_id {
            0x70 => Ok(RefType::FuncRef),
            0x6F => Ok(RefType::ExternRef),
            _ => Err(Error::InvalidRefType),
        }
    }

    /// Reads a block type.
    pub fn read_block_type(&mut self) -> (r: Result<BlockType>)
        ensures
            Self::reads(
                *old(self),
                *final(self),
                r,
                parse_block_type(old(self).input(), old(self).position()),
            ),
    {
        let type_id = self.read_u8()?;
        if type_id == 0x40 {
            Ok(BlockType::Empty)
        } else {
            match ValueType::from_byte(type_id) {
                Some(t) => Ok(BlockType::Value(t)),
                None => Err(Error::InvalidBlockType),
            }
        }
    }

    /// Reads limits.
    pub fn read_limits(&mut self) -> (r: Result<Limits>)
        ensures
            Self::reads(*old(self), *final(self), r, parse_limits(old(self).input(), old(self).position())),
    {
        let flag = self.read_u8()?;
        match flag {
            0x00 => {
                let min = self.read_size()?;
                Ok(Limits { min, max: None })
            },
            0x01 => {
                let min = self.read_size()?;
                let max = self.read_size()?;
                Ok(Limits { min, max: Some(max) })
            },
            _ => Err(Error::InvalidLimitsKind),
        }
    }

    /// Reads the operand of a load or store.
    pub fn read_mem_arg(&mut self) -> (r: Result<MemArg>)
        ensures
            Self::reads(*old(self), *final(self), r, parse_mem_arg(old(self).input(), old(self).position())),
    {
        let align = self.read_size()?;
        let offset = self.read_size()?;
        Ok(MemArg { align, offset })
    }

    /// Reads a constant expression: a constant instruction and the byte that
    /// closes the expression.
    pub fn read_const_expr(&mut self) -> (r: Result<Instruction>)
        ensures
            Self::reads(
                *old(self),
                *final(self),
                result_view(r),
                parse_const_expr(old(self).input(), old(self).position()),
            ),
    {
        let opcode = self.read_u8()?;
        let result: Instruction = match opcode {
            0x41 => Instr::I32Const { value: self.read_i32()? },
            0x42 => Instr::I64Const { value: self.read_i64()? },
            0x43 => Instr::F32Const { value: self.read_f32()? },
            0x44 => Instr::F64Const { value: self.read_f64()? },
            _ => {
                return Err(Error::ExpectedConstExpression);
            },
        };
        self.read_u8()?;
        Ok(result)
    }

    /// Reads the operands of the instruction that follows `0xFC` and `id`.
    fn read_sub_instruction(&mut self, id: u32) -> (r: Result<Instruction>)
        ensures
            Self::reads(
                *old(self),
                *final(self),
                result_view(r),
                parse_sub_instruction(old(self).input(), old(self).position(), id),
            ),
    {
        proof {
            use_type_invariant(&*self);
        }
        match id {
            8 => {
                let data_index = self.read_size()?;
                self.read_u8()?;
                Ok(Instr::MemoryInit { data_index })
            },
            9 => Ok(Instr::DataDrop { data_index: self.read_size()? }),
            10 => {
                self.read_u8()?;
                self.read_u8()?;
                Ok(Instr::MemoryCopy)
            },
            11 => {
                self.read_u8()?;
                Ok(Instr::MemoryFill)
            },
            12 => {
                let element_index = self.read_size()?;
                let table_index = self.read_size()?;
                Ok(Instr::TableInit { element_index, table_index })
            },
            13 => Ok(Instr::ElemDrop { element_index: self.read_size()? }),
            14 => {
                let dst_table_index = self.read_size()?;
                let src_table_index = self.read_size()?;
                Ok(Instr::TableCopy { dst_table_index, src_table_index })
            },
            15 => Ok(Instr::TableGrow { table_index: self.read_size()? }),
            16 => Ok(Instr::TableSize { table_index: self.read_size()? }),
            17 => Ok(Instr::TableFill { table_index: self.read_size()? }),
            _ => Err(Error::InvalidSubInstrId),
        }
    }

    /// Reads the operands of the instruction with the given opcode.
    fn read_operands(&mut self, opcode: u8) -> (r: Result<Instruction>)
        ensures
            Self::reads(
                *old(self),
                *final(self),
                result_view(r),
                parse_operands(old(self).input(), old(self).position(), opcode),
            ),
    {
        proof {
            use_type_invariant(&*self);
        }
        match plain_instruction_of(opcode) {
            Some(i) => {
                return Ok(i);
            },
            None => {},
        }
        if 0x28 <= opcode && opcode <= 0x3E {
            let mem_arg = self.read_mem_arg()?;
            return match memory_instruction_of(opcode, mem_arg) {
                Some(i) => Ok(i),
                None => Err(Error::UnsupportedOpcode(opcode)),
            };
        }
        if takes_index(opcode) {
            let index = self.read_size()?;
            return match index_instruction_of(opcode, index) {
                Some(i) => Ok(i),
                None => Err(Error::UnsupportedOpcode(opcode)),
            };
        }
        match opcode {
            0x02 => Ok(Instr::Block { block: Block { block_type: self.read_block_type()? } }),
            0x03 => Ok(Instr::Loop { block: Block { block_type: self.read_block_type()? } }),
            0x04 => Ok(Instr::If { block: Block { block_type: self.read_block_type()? } }),
            0x0E => {
                let label_indexes = self.read_vec::<u32>()?;
                let default_index = self.read_size()?;
                proof {
                    lemma_views_u32(label_indexes@);
                }
                Ok(Instr::BrTable { label_indexes, default_index })
            },
            0x11 => {
                let type_index = self.read_size()?;
                let table_index = self.read_size()?;
                Ok(Instr::CallIndirect { type_index, table_index })
            },
            0xD0 => Ok(Instr::RefNull { ref_type: self.read_reference_type()? }),
            0x1B => Ok(Instr::Select { result_types: None }),
            0x1C => {
                let types = self.read_vec::<ValueType>()?;
                proof {
                    lemma_views_value_type(types@);
                }
                Ok(Instr::Select { result_types: Some(types) })
            },
            0xFC => {
                let id = self.read_size()?;
                self.read_sub_instruction(id)
            },
            0x3F => {
                self.read_u8()?;
                Ok(Instr::MemorySize)
            },
            0x40 => {
                self.read_u8()?;
                Ok(Instr::MemoryGrow)
            },
            0x41 => Ok(Instr::I32Const { value: self.read_i32()? }),
            0x42 => Ok(Instr::I64Const { value: self.read_i64()? }),
            0x43 => Ok(Instr::F32Const { value: self.read_f32()? }),
            0x44 => Ok(Instr::F64Const { value: self.read_f64()? }),
            _ => Err(Error::UnsupportedOpcode(opcode)),
        }
    }

    /// Reads one instruction.
    pub fn read_instruction(&mut self) -> (r: Result<Instruction>)
        ensures
            Self::reads(
                *old(self),
                *final(self),
                result_view(r),
                parse_instruction(old(self).input(), old(self).position()),
            ),
            r is Ok ==> old(self).position() < final(self).position(),
    {
        let opcode = self.read_u8()?;
        self.read_operands(opcode)
    }

    /// Reads instructions up to the end of the input.
    pub fn read_instructions(&mut self) -> (r: Result<Vec<Instruction>>)
        ensures
            final(self).input() == old(self).input(),
            match parse_instructions(old(self).input(), old(self).position()) {
                Ok(code) => result_views(r) == Ok::<Seq<crate::binary::InstructionView>, Error>(code)
                    && final(self).position() == old(self).input().len(),
                Err(f) => result_views(r) == Err::<Seq<crate::binary::InstructionView>, Error>(
                    f.error,
                ) && final(self).position() == f.at,
            },
    {
        proof {
            use_type_invariant(&*self);
        }
        let ghost b = self.input();
        let ghost start = self.position();
        let mut instructions: Vec<Instruction> = Vec::new();
        proof {
            lemma_views_empty::<Instruction>();
            match parse_instructions(b, start) {
                Ok(rest) => assert(Seq::<crate::binary::InstructionView>::empty() + rest =~= rest),
                Err(_) => {},
            }
        }
        while self.pos < self.bytes.len()
            invariant
                self.input() == b,
                old(self).input() == b,
                old(self).position() == start,
                0 <= self.position() <= b.len(),
                self.position() == self.pos,
                b.len() == self.bytes.len(),
                parse_instructions(b, start) == match parse_instructions(b, self.position()) {
                    Ok(rest) => Ok::<Seq<crate::binary::InstructionView>, Failure>(
                        views(instructions@) + rest,
                    ),
                    Err(e) => Err::<Seq<crate::binary::InstructionView>, Failure>(e),
                },
            decreases b.len() - self.position(),
        {
            let ghost before = self.position();
            match self.read_instruction() {
                Ok(i) => {
                    proof {
                        lemma_views_push(instructions@, i);
                        match parse_instructions(b, self.position()) {
                            Ok(rest) => assert(views(instructions@) + (seq![i@] + rest) =~= views(
                                instructions@,
                            ).push(i@) + rest),
                            Err(_) => {},
                        }
                    }
                    instructions.push(i);
                },
                Err(e) => {
                    proof {
                        assert(parse_instructions(b, before) is Err);
                    }
                    return Err(e);
                },
            }
            proof {
                use_type_invariant(&*self);
            }
        }
        proof {
            assert(views(instructions@) + Seq::<crate::binary::InstructionView>::empty() =~= views(
                instructions@,
            ));
        }
        Ok(instructions)
    }
}

} // verus!
