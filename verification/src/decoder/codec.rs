//! The bytes of instructions, and the proof that the decoder reads them
//! back.

use crate::binary::instruction::{
    is_index_opcode, is_memory_opcode, plain_instruction, Block, Instr, InstructionView,
};
use crate::decoder::encoding::{
    block_type_code, encode_mem_arg, encode_signed, encode_size, lemma_block_type_round_trip,
    lemma_f32_round_trip, lemma_f64_round_trip, lemma_i32_round_trip, lemma_i64_round_trip,
    lemma_mem_arg_round_trip, lemma_reference_type_round_trip, lemma_size_round_trip,
    lemma_u8_round_trip, lemma_value_type_round_trip, ref_type_code,
};
use crate::decoder::grammar::{parse_instruction, parse_instructions, parse_items, parse_vec};
use crate::decoder::result::Failure;
use crate::types::{value_type_code, ValueType};
use crate::le::{le_u32, le_u64};
use vstd::prelude::*;

verus! {

/// The bytes of sizes in a row.
pub open spec fn encode_sizes(items: Seq<u32>) -> Seq<u8>
    decreases items.len(),
{
    if items.len() == 0 {
        Seq::empty()
    } else {
        encode_size(items[0]) + encode_sizes(items.drop_first())
    }
}

/// Sizes in a row are read back.
pub proof fn lemma_sizes_round_trip(items: Seq<u32>, pre: Seq<u8>, post: Seq<u8>)
    ensures
        parse_items::<u32>(pre + encode_sizes(items) + post, pre.len() as int, items.len()) == Ok::<
            (Seq<u32>, int),
            Failure,
        >((items, pre.len() as int + encode_sizes(items).len())),
    decreases items.len(),
{
    let b = pre + encode_sizes(items) + post;
    if items.len() == 0 {
        assert(items =~= Seq::empty());
    } else {
        let first = encode_size(items[0]);
        let others = encode_sizes(items.drop_first());
        assert(b =~= pre + first + (others + post));
        lemma_size_round_trip(items[0], pre, others + post);
        assert(b =~= (pre + first) + others + post);
        lemma_sizes_round_trip(items.drop_first(), pre + first, post);
        assert(seq![items[0]] + items.drop_first() =~= items);
    }
}

/// The bytes of a vector of sizes: their number, then the sizes.
pub open spec fn encode_size_vec(items: Seq<u32>) -> Seq<u8> {
    encode_size(items.len() as u32) + encode_sizes(items)
}

/// A vector of sizes is read back.
pub proof fn lemma_size_vec_round_trip(items: Seq<u32>, pre: Seq<u8>, post: Seq<u8>)
    requires
        items.len() <= u32::MAX,
    ensures
        parse_vec::<u32>(pre + encode_size_vec(items) + post, pre.len() as int) == Ok::<
            (Seq<u32>, int),
            Failure,
        >((items, pre.len() as int + encode_size_vec(items).len())),
{
    let b = pre + encode_size_vec(items) + post;
    let count = encode_size(items.len() as u32);
    assert(b =~= pre + count + (encode_sizes(items) + post));
    lemma_size_round_trip(items.len() as u32, pre, encode_sizes(items) + post);
    assert(b =~= (pre + count) + encode_sizes(items) + post);
    lemma_sizes_round_trip(items, pre + count, post);
}

/// The bytes of value types in a row.
pub open spec fn encode_value_types(items: Seq<ValueType>) -> Seq<u8>
    decreases items.len(),
{
    if items.len() == 0 {
        Seq::empty()
    } else {
        seq![value_type_code(items[0])] + encode_value_types(items.drop_first())
    }
}

/// Value types in a row are read back.
pub proof fn lemma_value_types_round_trip(items: Seq<ValueType>, pre: Seq<u8>, post: Seq<u8>)
    ensures
        parse_items::<ValueType>(
            pre + encode_value_types(items) + post,
            pre.len() as int,
            items.len(),
        ) == Ok::<(Seq<ValueType>, int), Failure>(
            (items, pre.len() as int + encode_value_types(items).len()),
        ),
    decreases items.len(),
{
    let b = pre + encode_value_types(items) + post;
    if items.len() == 0 {
        assert(items =~= Seq::empty());
    } else {
        let first = seq![value_type_code(items[0])];
        let others = encode_value_types(items.drop_first());
        assert(b =~= pre + first + (others + post));
        lemma_value_type_round_trip(items[0], pre, others + post);
        assert(b =~= (pre + first) + others + post);
        lemma_value_types_round_trip(items.drop_first(), pre + first, post);
        assert(seq![items[0]] + items.drop_first() =~= items);
    }
}

/// The bytes of a vector of value types: their number, then the types.
pub open spec fn encode_value_type_vec(items: Seq<ValueType>) -> Seq<u8> {
    encode_size(items.len() as u32) + encode_value_types(items)
}

/// A vector of value types is read back.
pub proof fn lemma_value_type_vec_round_trip(items: Seq<ValueType>, pre: Seq<u8>, post: Seq<u8>)
    requires
        items.len() <= u32::MAX,
    ensures
        parse_vec::<ValueType>(pre + encode_value_type_vec(items) + post, pre.len() as int) == Ok::<
            (Seq<ValueType>, int),
            Failure,
        >((items, pre.len() as int + encode_value_type_vec(items).len())),
{
    let b = pre + encode_value_type_vec(items) + post;
    let count = encode_size(items.len() as u32);
    assert(b =~= pre + count + (encode_value_types(items) + post));
    lemma_size_round_trip(items.len() as u32, pre, encode_value_types(items) + post);
    assert(b =~= (pre + count) + encode_value_types(items) + post);
    lemma_value_types_round_trip(items, pre + count, post);
}

/// The bytes that stand behind the opcode of an instruction.
pub open spec fn encode_operands(i: InstructionView) -> Seq<u8> {
    match i {
        Instr::Block { block } => seq![block_type_code(block.block_type)],
        Instr::Loop { block } => seq![block_type_code(block.block_type)],
        Instr::If { block } => seq![block_type_code(block.block_type)],
        Instr::Br { level } => encode_size(level),
        Instr::BrIf { level } => encode_size(level),
        Instr::BrTable { label_indexes, default_index } => encode_size_vec(label_indexes) + encode_size(default_index),
        Instr::Call { func_index } => encode_size(func_index),
        Instr::CallIndirect { type_index, table_index } => encode_size(type_index) + encode_size(table_index),
        Instr::RefNull { ref_type } => seq![ref_type_code(ref_type)],
        Instr::RefFunc { func_index } => encode_size(func_index),
        Instr::Select { result_types } => match result_types {
            Some(types) => encode_value_type_vec(types),
            None => Seq::empty(),
        },
        Instr::LocalGet { local_index } => encode_size(local_index),
        Instr::LocalSet { local_index } => encode_size(local_index),
        Instr::LocalTee { local_index } => encode_size(local_index),
        Instr::GlobalGet { global_index } => encode_size(global_index),
        Instr::GlobalSet { global_index } => encode_size(global_index),
        Instr::TableGet { table_index } => encode_size(table_index),
        Instr::TableSet { table_index } => encode_size(table_index),
        Instr::TableInit { element_index, table_index } => encode_size(12) + encode_size(element_index) + encode_size(table_index),
        Instr::ElemDrop { element_index } => encode_size(13) + encode_size(element_index),
        Instr::TableCopy { dst_table_index, src_table_index } => encode_size(14) + encode_size(dst_table_index) + encode_size(src_table_index),
        Instr::TableGrow { table_index } => encode_size(15) + encode_size(table_index),
        Instr::TableSize { table_index } => encode_size(16) + encode_size(table_index),
        Instr::TableFill { table_index } => encode_size(17) + encode_size(table_index),
        Instr::I32Load { mem_arg } => encode_mem_arg(mem_arg),
        Instr::I64Load { mem_arg } => encode_mem_arg(mem_arg),
        Instr::F32Load { mem_arg } => encode_mem_arg(mem_arg),
        Instr::F64Load { mem_arg } => encode_mem_arg(mem_arg),
        Instr::I32Load8S { mem_arg } => encode_mem_arg(mem_arg),
        Instr::I32Load8U { mem_arg } => encode_mem_arg(mem_arg),
        Instr::I32Load16S { mem_arg } => encode_mem_arg(mem_arg),
        Instr::I32Load16U { mem_arg } => encode_mem_arg(mem_arg),
        Instr::I64Load8S { mem_arg } => encode_mem_arg(mem_arg),
        Instr::I64Load8U { mem_arg } => encode_mem_arg(mem_arg),
        Instr::I64Load16S { mem_arg } => encode_mem_arg(mem_arg),
        Instr::I64Load16U { mem_arg } => encode_mem_arg(mem_arg),
        Instr::I64Load32S { mem_arg } => encode_mem_arg(mem_arg),
        Instr::I64Load32U { mem_arg } => encode_mem_arg(mem_arg),
        Instr::I32Store { mem_arg } => encode_mem_arg(mem_arg),
        Instr::I64Store { mem_arg } => encode_mem_arg(mem_arg),
        Instr::F32Store { mem_arg } => encode_mem_arg(mem_arg),
        Instr::F64Store { mem_arg } => encode_mem_arg(mem_arg),
        Instr::I32Store8 { mem_arg } => encode_mem_arg(mem_arg),
        Instr::I32Store16 { mem_arg } => encode_mem_arg(mem_arg),
        Instr::I64Store8 { mem_arg } => encode_mem_arg(mem_arg),
        Instr::I64Store16 { mem_arg } => encode_mem_arg(mem_arg),
        Instr::I64Store32 { mem_arg } => encode_mem_arg(mem_arg),
        Instr::MemorySize => seq![0x00u8],
        Instr::MemoryGrow => seq![0x00u8],
        Instr::MemoryInit { data_index } => encode_size(8) + encode_size(data_index) + seq![0x00u8],
        Instr::DataDrop { data_index } => encode_size(9) + encode_size(data_index),
        Instr::MemoryCopy => encode_size(10) + seq![0x00u8, 0x00u8],
        Instr::MemoryFill => encode_size(11) + seq![0x00u8],
        Instr::I32Const { value } => encode_signed(value as i64),
        Instr::I64Const { value } => encode_signed(value),
        Instr::F32Const { value } => le_u32(value),
        Instr::F64Const { value } => le_u64(value),
        _ => Seq::empty(),
    }
}

/// The opcode of an instruction.
pub open spec fn opcode_of(i: InstructionView) -> u8 {
    match i {
        Instr::Unreachable => 0x00,
        Instr::Nop => 0x01,
        Instr::Block { .. } => 0x02,
        Instr::Loop { .. } => 0x03,
        Instr::If { .. } => 0x04,
        Instr::Else => 0x05,
        Instr::End => 0x0B,
        Instr::Br { .. } => 0x0C,
        Instr::BrIf { .. } => 0x0D,
        Instr::BrTable { .. } => 0x0E,
        Instr::Return => 0x0F,
        Instr::Call { .. } => 0x10,
        Instr::CallIndirect { .. } => 0x11,
        Instr::RefNull { .. } => 0xD0,
        Instr::RefIsNull => 0xD1,
        Instr::RefFunc { .. } => 0xD2,
        Instr::Drop => 0x1A,
        Instr::Select { result_types } => if result_types is Some {
            0x1C
        } else {
            0x1B
        },
        Instr::LocalGet { .. } => 0x20,
        Instr::LocalSet { .. } => 0x21,
        Instr::LocalTee { .. } => 0x22,
        Instr::GlobalGet { .. } => 0x23,
        Instr::GlobalSet { .. } => 0x24,
        Instr::TableGet { .. } => 0x25,
        Instr::TableSet { .. } => 0x26,
        Instr::TableInit { .. } => 0xFC,
        Instr::ElemDrop { .. } => 0xFC,
        Instr::TableCopy { .. } => 0xFC,
        Instr::TableGrow { .. } => 0xFC,
        Instr::TableSize { .. } => 0xFC,
        Instr::TableFill { .. } => 0xFC,
        Instr::I32Load { .. } => 0x28,
        Instr::I64Load { .. } => 0x29,
        Instr::F32Load { .. } => 0x2A,
        Instr::F64Load { .. } => 0x2B,
        Instr::I32Load8S { .. } => 0x2C,
        Instr::I32Load8U { .. } => 0x2D,
        Instr::I32Load16S { .. } => 0x2E,
        Instr::I32Load16U { .. } => 0x2F,
        Instr::I64Load8S { .. } => 0x30,
        Instr::I64Load8U { .. } => 0x31,
        Instr::I64Load16S { .. } => 0x32,
        Instr::I64Load16U { .. } => 0x33,
        Instr::I64Load32S { .. } => 0x34,
        Instr::I64Load32U { .. } => 0x35,
        Instr::I32Store { .. } => 0x36,
        Instr::I64Store { .. } => 0x37,
        Instr::F32Store { .. } => 0x38,
        Instr::F64Store { .. } => 0x39,
        Instr::I32Store8 { .. } => 0x3A,
        Instr::I32Store16 { .. } => 0x3B,
        Instr::I64Store8 { .. } => 0x3C,
        Instr::I64Store16 { .. } => 0x3D,
        Instr::I64Store32 { .. } => 0x3E,
        Instr::MemorySize => 0x3F,
        Instr::MemoryGrow => 0x40,
        Instr::MemoryInit { .. } => 0xFC,
        Instr::DataDrop { .. } => 0xFC,
        Instr::MemoryCopy => 0xFC,
        Instr::MemoryFill => 0xFC,
        Instr::I32Const { .. } => 0x41,
        Instr::I64Const { .. } => 0x42,
        Instr::F32Const { .. } => 0x43,
        Instr::F64Const { .. } => 0x44,
        Instr::I32Eqz => 0x45,
        Instr::I32Eq => 0x46,
        Instr::I32Ne => 0x47,
        Instr::I32LtS => 0x48,
        Instr::I32LtU => 0x49,
        Instr::I32GtS => 0x4A,
        Instr::I32GtU => 0x4B,
        Instr::I32LeS => 0x4C,
        Instr::I32LeU => 0x4D,
        Instr::I32GeS => 0x4E,
        Instr::I32GeU => 0x4F,
        Instr::I64Eqz => 0x50,
        Instr::I64Eq => 0x51,
        Instr::I64Ne => 0x52,
        Instr::I64LtS => 0x53,
        Instr::I64LtU => 0x54,
        Instr::I64GtS => 0x55,
        Instr::I64GtU => 0x56,
        Instr::I64LeS => 0x57,
        Instr::I64LeU => 0x58,
        Instr::I64GeS => 0x59,
        Instr::I64GeU => 0x5A,
        Instr::F32Eq => 0x5B,
        Instr::F32Ne => 0x5C,
        Instr::F32Lt => 0x5D,
        Instr::F32Gt => 0x5E,
        Instr::F32Le => 0x5F,
        Instr::F32Ge => 0x60,
        Instr::F64Eq => 0x61,
        Instr::F64Ne => 0x62,
        Instr::F64Lt => 0x63,
        Instr::F64Gt => 0x64,
        Instr::F64Le => 0x65,
        Instr::F64Ge => 0x66,
        Instr::I32Clz => 0x67,
        Instr::I32Ctz => 0x68,
        Instr::I32Popcnt => 0x69,
        Instr::I32Add => 0x6A,
        Instr::I32Sub => 0x6B,
        Instr::I32Mul => 0x6C,
        Instr::I32DivS => 0x6D,
        Instr::I32DivU => 0x6E,
        Instr::I32RemS => 0x6F,
        Instr::I32RemU => 0x70,
        Instr::I32And => 0x71,
        Instr::I32Or => 0x72,
        Instr::I32Xor => 0x73,
        Instr::I32Shl => 0x74,
        Instr::I32ShrS => 0x75,
        Instr::I32ShrU => 0x76,
        Instr::I32Rotl => 0x77,
        Instr::I32Rotr => 0x78,
        Instr::I64Clz => 0x79,
        Instr::I64Ctz => 0x7A,
        Instr::I64Popcnt => 0x7B,
        Instr::I64Add => 0x7C,
        Instr::I64Sub => 0x7D,
        Instr::I64Mul => 0x7E,
        Instr::I64DivS => 0x7F,
        Instr::I64DivU => 0x80,
        Instr::I64RemS => 0x81,
        Instr::I64RemU => 0x82,
        Instr::I64And => 0x83,
        Instr::I64Or => 0x84,
        Instr::I64Xor => 0x85,
        Instr::I64Shl => 0x86,
        Instr::I64ShrS => 0x87,
        Instr::I64ShrU => 0x88,
        Instr::I64Rotl => 0x89,
        Instr::I64Rotr => 0x8A,
        Instr::F32Abs => 0x8B,
        Instr::F32Neg => 0x8C,
        Instr::F32Ceil => 0x8D,
        Instr::F32Floor => 0x8E,
        Instr::F32Trunc => 0x8F,
        Instr::F32Nearest => 0x90,
        Instr::F32Sqrt => 0x91,
        Instr::F32Add => 0x92,
        Instr::F32Sub => 0x93,
        Instr::F32Mul => 0x94,
        Instr::F32Div => 0x95,
        Instr::F32Min => 0x96,
        Instr::F32Max => 0x97,
        Instr::F32Copysign => 0x98,
        Instr::F64Abs => 0x99,
        Instr::F64Neg => 0x9A,
        Instr::F64Ceil => 0x9B,
        Instr::F64Floor => 0x9C,
        Instr::F64Trunc => 0x9D,
        Instr::F64Nearest => 0x9E,
        Instr::F64Sqrt => 0x9F,
        Instr::F64Add => 0xA0,
        Instr::F64Sub => 0xA1,
        Instr::F64Mul => 0xA2,
        Instr::F64Div => 0xA3,
        Instr::F64Min => 0xA4,
        Instr::F64Max => 0xA5,
        Instr::F64Copysign => 0xA6,
        Instr::I32WrapI64 => 0xA7,
        Instr::I32TruncF32S => 0xA8,
        Instr::I32TruncF32U => 0xA9,
        Instr::I32TruncF64S => 0xAA,
        Instr::I32TruncF64U => 0xAB,
        Instr::I64ExtendI32S => 0xAC,
        Instr::I64ExtendI32U => 0xAD,
        Instr::I64TruncF32S => 0xAE,
        Instr::I64TruncF32U => 0xAF,
        Instr::I64TruncF64S => 0xB0,
        Instr::I64TruncF64U => 0xB1,
        Instr::F32ConvertI32S => 0xB2,
        Instr::F32ConvertI32U => 0xB3,
        Instr::F32ConvertI64S => 0xB4,
        Instr::F32ConvertI64U => 0xB5,
        Instr::F32DemoteF64 => 0xB6,
        Instr::F64ConvertI32S => 0xB7,
        Instr::F64ConvertI32U => 0xB8,
        Instr::F64ConvertI64S => 0xB9,
        Instr::F64ConvertI64U => 0xBA,
        Instr::F64PromoteF32 => 0xBB,
        Instr::I32ReinterpretF32 => 0xBC,
        Instr::I64ReinterpretF64 => 0xBD,
        Instr::F32ReinterpretI32 => 0xBE,
        Instr::F64ReinterpretI64 => 0xBF,
        Instr::I32Extend8S => 0xC0,
        Instr::I32Extend16S => 0xC1,
        Instr::I64Extend8S => 0xC2,
        Instr::I64Extend16S => 0xC3,
        Instr::I64Extend32S => 0xC4,
    }
}

/// The bytes of an instruction: its opcode, then its operands.
pub open spec fn encode_instruction(i: InstructionView) -> Seq<u8> {
    seq![opcode_of(i)] + encode_operands(i)
}

/// Whether an instruction can be written: its block type, if it has one,
/// names no function type, and its vector, if it has one, has fewer than
/// 2^32 items.
pub open spec fn instruction_encodable(i: InstructionView) -> bool {
    match i {
        Instr::Block { block } | Instr::Loop { block } | Instr::If { block } => !(block.block_type
            is TypeIndex),
        Instr::BrTable { label_indexes, .. } => label_indexes.len() <= u32::MAX,
        Instr::Select { result_types: Some(types) } => types.len() <= u32::MAX,
        _ => true,
    }
}

/// Which of the four proofs below is about an instruction.
pub open spec fn proof_group(i: InstructionView) -> nat {
    if plain_instruction(opcode_of(i)) is Some {
        0
    } else if is_memory_opcode(opcode_of(i)) {
        1
    } else if is_index_opcode(opcode_of(i)) {
        2
    } else {
        3
    }
}

/// What it is for an instruction to be read back from its bytes, whatever
/// stands before and behind them.
pub open spec fn instruction_reads_back(i: InstructionView, pre: Seq<u8>, post: Seq<u8>) -> bool {
    parse_instruction(pre + encode_instruction(i) + post, pre.len() as int) == Ok::<
        (InstructionView, int),
        Failure,
    >((i, pre.len() as int + encode_instruction(i).len()))
}

#[verifier::rlimit(60)]
/// An instruction without operands is read back.
proof fn lemma_plain_round_trip(i: InstructionView, pre: Seq<u8>, post: Seq<u8>)
    requires
        instruction_encodable(i),
        proof_group(i) == 0,
    ensures
        instruction_reads_back(i, pre, post),
{
    let b = pre + encode_instruction(i) + post;
    let op = seq![opcode_of(i)];
    let args = encode_operands(i);
    assert(b =~= pre + op + (args + post));
    lemma_u8_round_trip(opcode_of(i), pre, args + post);
    assert(b =~= (pre + op) + args + post);
    match i {
        Instr::Unreachable => {
            assert(args =~= Seq::empty());
            assert(b =~= pre + op + post);
        },
        Instr::Nop => {
            assert(args =~= Seq::empty());
            assert(b =~= pre + op + post);
        },
        Instr::Else => {
            assert(args =~= Seq::empty());
            assert(b =~= pre + op + post);
        },
        Instr::End => {
            assert(args =~= Seq::empty());
            assert(b =~= pre + op + post);
        },
        Instr::Return => {
            assert(args =~= Seq::empty());
            assert(b =~= pre + op + post);
        },
        Instr::RefIsNull => {
            assert(args =~= Seq::empty());
            assert(b =~= pre + op + post);
        },
        Instr::Drop => {
            assert(args =~= Seq::empty());
            assert(b =~= pre + op + post);
        },
        Instr::I32Eqz => {
            assert(args =~= Seq::empty());
            assert(b =~= pre + op + post);
        },
        Instr::I32Eq => {
            assert(args =~= Seq::empty());
            assert(b =~= pre + op + post);
        },
        Instr::I32Ne => {
            assert(args =~= Seq::empty());
            assert(b =~= pre + op + post);
        },
        Instr::I32LtS => {
            assert(args =~= Seq::empty());
            assert(b =~= pre + op + post);
        },
        Instr::I32LtU => {
            assert(args =~= Seq::empty());
            assert(b =~= pre + op + post);
        },
        Instr::I32GtS => {
            assert(args =~= Seq::empty());
            assert(b =~= pre + op + post);
        },
        Instr::I32GtU => {
            assert(args =~= Seq::empty());
            assert(b =~= pre + op + post);
        },
        Instr::I32LeS => {
            assert(args =~= Seq::empty());
            assert(b =~= pre + op + post);
        },
        Instr::I32LeU => {
            assert(args =~= Seq::empty());
            assert(b =~= pre + op + post);
        },
        Instr::I32GeS => {
            assert(args =~= Seq::empty());
            assert(b =~= pre + op + post);
        },
        Instr::I32GeU => {
            assert(args =~= Seq::empty());
            assert(b =~= pre + op + post);
        },
        Instr::I64Eqz => {
            assert(args =~= Seq::empty());
            assert(b =~= pre + op + post);
        },
        Instr::I64Eq => {
            assert(args =~= Seq::empty());
            assert(b =~= pre + op + post);
        },
        Instr::I64Ne => {
            assert(args =~= Seq::empty());
            assert(b =~= pre + op + post);
        },
        Instr::I64LtS => {
            assert(args =~= Seq::empty());
            assert(b =~= pre + op + post);
        },
        Instr::I64LtU => {
            assert(args =~= Seq::empty());
            assert(b =~= pre + op + post);
        },
        Instr::I64GtS => {
            assert(args =~= Seq::empty());
            assert(b =~= pre + op + post);
        },
        Instr::I64GtU => {
            assert(args =~= Seq::empty());
            assert(b =~= pre + op + post);
        },
        Instr::I64LeS => {
            assert(args =~= Seq::empty());
            assert(b =~= pre + op + post);
        },
        Instr::I64LeU => {
            assert(args =~= Seq::empty());
            assert(b =~= pre + op + post);
        },
        Instr::I64GeS => {
            assert(args =~= Seq::empty());
            assert(b =~= pre + op + post);
        },
        Instr::I64GeU => {
            assert(args =~= Seq::empty());
            assert(b =~= pre + op + post);
        },
        Instr::F32Eq => {
            assert(args =~= Seq::empty());
            assert(b =~= pre + op + post);
        },
        Instr::F32Ne => {
            assert(args =~= Seq::empty());
            assert(b =~= pre + op + post);
        },
        Instr::F32Lt => {
            assert(args =~= Seq::empty());
            assert(b =~= pre + op + post);
        },
        Instr::F32Gt => {
            assert(args =~= Seq::empty());
            assert(b =~= pre + op + post);
        },
        Instr::F32Le => {
            assert(args =~= Seq::empty());
            assert(b =~= pre + op + post);
        },
        Instr::F32Ge => {
            assert(args =~= Seq::empty());
            assert(b =~= pre + op + post);
        },
        Instr::F64Eq => {
            assert(args =~= Seq::empty());
            assert(b =~= pre + op + post);
        },
        Instr::F64Ne => {
            assert(args =~= Seq::empty());
            assert(b =~= pre + op + post);
        },
        Instr::F64Lt => {
            assert(args =~= Seq::empty());
            assert(b =~= pre + op + post);
        },
        Instr::F64Gt => {
            assert(args =~= Seq::empty());
            assert(b =~= pre + op + post);
        },
        Instr::F64Le => {
            assert(args =~= Seq::empty());
            assert(b =~= pre + op + post);
        },
        Instr::F64Ge => {
            assert(args =~= Seq::empty());
            assert(b =~= pre + op + post);
        },
        Instr::I32Clz => {
            assert(args =~= Seq::empty());
            assert(b =~= pre + op + post);
        },
        Instr::I32Ctz => {
            assert(args =~= Seq::empty());
            assert(b =~= pre + op + post);
        },
        Instr::I32Popcnt => {
            assert(args =~= Seq::empty());
            assert(b =~= pre + op + post);
        },
        Instr::I32Add => {
            assert(args =~= Seq::empty());
            assert(b =~= pre + op + post);
        },
        Instr::I32Sub => {
            assert(args =~= Seq::empty());
            assert(b =~= pre + op + post);
        },
        Instr::I32Mul => {
            assert(args =~= Seq::empty());
            assert(b =~= pre + op + post);
        },
        Instr::I32DivS => {
            assert(args =~= Seq::empty());
            assert(b =~= pre + op + post);
        },
        Instr::I32DivU => {
            assert(args =~= Seq::empty());
            assert(b =~= pre + op + post);
        },
        Instr::I32RemS => {
            assert(args =~= Seq::empty());
            assert(b =~= pre + op + post);
        },
        Instr::I32RemU => {
            assert(args =~= Seq::empty());
            assert(b =~= pre + op + post);
        },
        Instr::I32And => {
            assert(args =~= Seq::empty());
            assert(b =~= pre + op + post);
        },
        Instr::I32Or => {
            assert(args =~= Seq::empty());
            assert(b =~= pre + op + post);
        },
        Instr::I32Xor => {
            assert(args =~= Seq::empty());
            assert(b =~= pre + op + post);
        },
        Instr::I32Shl => {
            assert(args =~= Seq::empty());
            assert(b =~= pre + op + post);
        },
        Instr::I32ShrS => {
            assert(args =~= Seq::empty());
            assert(b =~= pre + op + post);
        },
        Instr::I32ShrU => {
            assert(args =~= Seq::empty());
            assert(b =~= pre + op + post);
        },
        Instr::I32Rotl => {
            assert(args =~= Seq::empty());
            assert(b =~= pre + op + post);
        },
        Instr::I32Rotr => {
            assert(args =~= Seq::empty());
            assert(b =~= pre + op + post);
        },
        Instr::I64Clz => {
            assert(args =~= Seq::empty());
            assert(b =~= pre + op + post);
        },
        Instr::I64Ctz => {
            assert(args =~= Seq::empty());
            assert(b =~= pre + op + post);
        },
        Instr::I64Popcnt => {
            assert(args =~= Seq::empty());
            assert(b =~= pre + op + post);
        },
        Instr::I64Add => {
            assert(args =~= Seq::empty());
            assert(b =~= pre + op + post);
        },
        Instr::I64Sub => {
            assert(args =~= Seq::empty());
            assert(b =~= pre + op + post);
        },
        Instr::I64Mul => {
            assert(args =~= Seq::empty());
            assert(b =~= pre + op + post);
        },
        Instr::I64DivS => {
            assert(args =~= Seq::empty());
            assert(b =~= pre + op + post);
        },
        Instr::I64DivU => {
            assert(args =~= Seq::empty());
            assert(b =~= pre + op + post);
        },
        Instr::I64RemS => {
            assert(args =~= Seq::empty());
            assert(b =~= pre + op + post);
        },
        Instr::I64RemU => {
            assert(args =~= Seq::empty());
            assert(b =~= pre + op + post);
        },
        Instr::I64And => {
            assert(args =~= Seq::empty());
            assert(b =~= pre + op + post);
        },
        Instr::I64Or => {
            assert(args =~= Seq::empty());
            assert(b =~= pre + op + post);
        },
        Instr::I64Xor => {
            assert(args =~= Seq::empty());
            assert(b =~= pre + op + post);
        },
        Instr::I64Shl => {
            assert(args =~= Seq::empty());
            assert(b =~= pre + op + post);
        },
        Instr::I64ShrS => {
            assert(args =~= Seq::empty());
            assert(b =~= pre + op + post);
        },
        Instr::I64ShrU => {
            assert(args =~= Seq::empty());
            assert(b =~= pre + op + post);
        },
        Instr::I64Rotl => {
            assert(args =~= Seq::empty());
            assert(b =~= pre + op + post);
        },
        Instr::I64Rotr => {
            assert(args =~= Seq::empty());
            assert(b =~= pre + op + post);
        },
        Instr::F32Abs => {
            assert(args =~= Seq::empty());
            assert(b =~= pre + op + post);
        },
        Instr::F32Neg => {
            assert(args =~= Seq::empty());
            assert(b =~= pre + op + post);
        },
        Instr::F32Ceil => {
            assert(args =~= Seq::empty());
            assert(b =~= pre + op + post);
        },
        Instr::F32Floor => {
            assert(args =~= Seq::empty());
            assert(b =~= pre + op + post);
        },
        Instr::F32Trunc => {
            assert(args =~= Seq::empty());
            assert(b =~= pre + op + post);
        },
        Instr::F32Nearest => {
            assert(args =~= Seq::empty());
            assert(b =~= pre + op + post);
        },
        Instr::F32Sqrt => {
            assert(args =~= Seq::empty());
            assert(b =~= pre + op + post);
        },
        Instr::F32Add => {
            assert(args =~= Seq::empty());
            assert(b =~= pre + op + post);
        },
        Instr::F32Sub => {
            assert(args =~= Seq::empty());
            assert(b =~= pre + op + post);
        },
        Instr::F32Mul => {
            assert(args =~= Seq::empty());
            assert(b =~= pre + op + post);
        },
        Instr::F32Div => {
            assert(args =~= Seq::empty());
            assert(b =~= pre + op + post);
        },
        Instr::F32Min => {
            assert(args =~= Seq::empty());
            assert(b =~= pre + op + post);
        },
        Instr::F32Max => {
            assert(args =~= Seq::empty());
            assert(b =~= pre + op + post);
        },
        Instr::F32Copysign => {
            assert(args =~= Seq::empty());
            assert(b =~= pre + op + post);
        },
        Instr::F64Abs => {
            assert(args =~= Seq::empty());
            assert(b =~= pre + op + post);
        },
        Instr::F64Neg => {
            assert(args =~= Seq::empty());
            assert(b =~= pre + op + post);
        },
        Instr::F64Ceil => {
            assert(args =~= Seq::empty());
            assert(b =~= pre + op + post);
        },
        Instr::F64Floor => {
            assert(args =~= Seq::empty());
            assert(b =~= pre + op + post);
        },
        Instr::F64Trunc => {
            assert(args =~= Seq::empty());
            assert(b =~= pre + op + post);
        },
        Instr::F64Nearest => {
            assert(args =~= Seq::empty());
            assert(b =~= pre + op + post);
        },
        Instr::F64Sqrt => {
            assert(args =~= Seq::empty());
            assert(b =~= pre + op + post);
        },
        Instr::F64Add => {
            assert(args =~= Seq::empty());
            assert(b =~= pre + op + post);
        },
        Instr::F64Sub => {
            assert(args =~= Seq::empty());
            assert(b =~= pre + op + post);
        },
        Instr::F64Mul => {
            assert(args =~= Seq::empty());
            assert(b =~= pre + op + post);
        },
        Instr::F64Div => {
            assert(args =~= Seq::empty());
            assert(b =~= pre + op + post);
        },
        Instr::F64Min => {
            assert(args =~= Seq::empty());
            assert(b =~= pre + op + post);
        },
        Instr::F64Max => {
            assert(args =~= Seq::empty());
            assert(b =~= pre + op + post);
        },
        Instr::F64Copysign => {
            assert(args =~= Seq::empty());
            assert(b =~= pre + op + post);
        },
        Instr::I32WrapI64 => {
            assert(args =~= Seq::empty());
            assert(b =~= pre + op + post);
        },
        Instr::I32TruncF32S => {
            assert(args =~= Seq::empty());
            assert(b =~= pre + op + post);
        },
        Instr::I32TruncF32U => {
            assert(args =~= Seq::empty());
            assert(b =~= pre + op + post);
        },
        Instr::I32TruncF64S => {
            assert(args =~= Seq::empty());
            assert(b =~= pre + op + post);
        },
        Instr::I32TruncF64U => {
            assert(args =~= Seq::empty());
            assert(b =~= pre + op + post);
        },
        Instr::I64ExtendI32S => {
            assert(args =~= Seq::empty());
            assert(b =~= pre + op + post);
        },
        Instr::I64ExtendI32U => {
            assert(args =~= Seq::empty());
            assert(b =~= pre + op + post);
        },
        Instr::I64TruncF32S => {
            assert(args =~= Seq::empty());
            assert(b =~= pre + op + post);
        },
        Instr::I64TruncF32U => {
            assert(args =~= Seq::empty());
            assert(b =~= pre + op + post);
        },
        Instr::I64TruncF64S => {
            assert(args =~= Seq::empty());
            assert(b =~= pre + op + post);
        },
        Instr::I64TruncF64U => {
            assert(args =~= Seq::empty());
            assert(b =~= pre + op + post);
        },
        Instr::F32ConvertI32S => {
            assert(args =~= Seq::empty());
            assert(b =~= pre + op + post);
        },
        Instr::F32ConvertI32U => {
            assert(args =~= Seq::empty());
            assert(b =~= pre + op + post);
        },
        Instr::F32ConvertI64S => {
            assert(args =~= Seq::empty());
            assert(b =~= pre + op + post);
        },
        Instr::F32ConvertI64U => {
            assert(args =~= Seq::empty());
            assert(b =~= pre + op + post);
        },
        Instr::F32DemoteF64 => {
            assert(args =~= Seq::empty());
            assert(b =~= pre + op + post);
        },
        Instr::F64ConvertI32S => {
            assert(args =~= Seq::empty());
            assert(b =~= pre + op + post);
        },
        Instr::F64ConvertI32U => {
            assert(args =~= Seq::empty());
            assert(b =~= pre + op + post);
        },
        Instr::F64ConvertI64S => {
            assert(args =~= Seq::empty());
            assert(b =~= pre + op + post);
        },
        Instr::F64ConvertI64U => {
            assert(args =~= Seq::empty());
            assert(b =~= pre + op + post);
        },
        Instr::F64PromoteF32 => {
            assert(args =~= Seq::empty());
            assert(b =~= pre + op + post);
        },
        Instr::I32ReinterpretF32 => {
            assert(args =~= Seq::empty());
            assert(b =~= pre + op + post);
        },
        Instr::I64ReinterpretF64 => {
            assert(args =~= Seq::empty());
            assert(b =~= pre + op + post);
        },
        Instr::F32ReinterpretI32 => {
            assert(args =~= Seq::empty());
            assert(b =~= pre + op + post);
        },
        Instr::F64ReinterpretI64 => {
            assert(args =~= Seq::empty());
            assert(b =~= pre + op + post);
        },
        Instr::I32Extend8S => {
            assert(args =~= Seq::empty());
            assert(b =~= pre + op + post);
        },
        Instr::I32Extend16S => {
            assert(args =~= Seq::empty());
            assert(b =~= pre + op + post);
        },
        Instr::I64Extend8S => {
            assert(args =~= Seq::empty());
            assert(b =~= pre + op + post);
        },
        Instr::I64Extend16S => {
            assert(args =~= Seq::empty());
            assert(b =~= pre + op + post);
        },
        Instr::I64Extend32S => {
            assert(args =~= Seq::empty());
            assert(b =~= pre + op + post);
        },
        _ => {},
    }
}

#[verifier::rlimit(40)]
/// A load or store is read back.
proof fn lemma_memory_round_trip(i: InstructionView, pre: Seq<u8>, post: Seq<u8>)
    requires
        instruction_encodable(i),
        proof_group(i) == 1,
    ensures
        instruction_reads_back(i, pre, post),
{
    let b = pre + encode_instruction(i) + post;
    let op = seq![opcode_of(i)];
    let args = encode_operands(i);
    assert(b =~= pre + op + (args + post));
    lemma_u8_round_trip(opcode_of(i), pre, args + post);
    assert(b =~= (pre + op) + args + post);
    match i {
        Instr::I32Load { mem_arg } => {
            lemma_mem_arg_round_trip(mem_arg, pre + op, post);
        },
        Instr::I64Load { mem_arg } => {
            lemma_mem_arg_round_trip(mem_arg, pre + op, post);
        },
        Instr::F32Load { mem_arg } => {
            lemma_mem_arg_round_trip(mem_arg, pre + op, post);
        },
        Instr::F64Load { mem_arg } => {
            lemma_mem_arg_round_trip(mem_arg, pre + op, post);
        },
        Instr::I32Load8S { mem_arg } => {
            lemma_mem_arg_round_trip(mem_arg, pre + op, post);
        },
        Instr::I32Load8U { mem_arg } => {
            lemma_mem_arg_round_trip(mem_arg, pre + op, post);
        },
        Instr::I32Load16S { mem_arg } => {
            lemma_mem_arg_round_trip(mem_arg, pre + op, post);
        },
        Instr::I32Load16U { mem_arg } => {
            lemma_mem_arg_round_trip(mem_arg, pre + op, post);
        },
        Instr::I64Load8S { mem_arg } => {
            lemma_mem_arg_round_trip(mem_arg, pre + op, post);
        },
        Instr::I64Load8U { mem_arg } => {
            lemma_mem_arg_round_trip(mem_arg, pre + op, post);
        },
        Instr::I64Load16S { mem_arg } => {
            lemma_mem_arg_round_trip(mem_arg, pre + op, post);
        },
        Instr::I64Load16U { mem_arg } => {
            lemma_mem_arg_round_trip(mem_arg, pre + op, post);
        },
        Instr::I64Load32S { mem_arg } => {
            lemma_mem_arg_round_trip(mem_arg, pre + op, post);
        },
        Instr::I64Load32U { mem_arg } => {
            lemma_mem_arg_round_trip(mem_arg, pre + op, post);
        },
        Instr::I32Store { mem_arg } => {
            lemma_mem_arg_round_trip(mem_arg, pre + op, post);
        },
        Instr::I64Store { mem_arg } => {
            lemma_mem_arg_round_trip(mem_arg, pre + op, post);
        },
        Instr::F32Store { mem_arg } => {
            lemma_mem_arg_round_trip(mem_arg, pre + op, post);
        },
        Instr::F64Store { mem_arg } => {
            lemma_mem_arg_round_trip(mem_arg, pre + op, post);
        },
        Instr::I32Store8 { mem_arg } => {
            lemma_mem_arg_round_trip(mem_arg, pre + op, post);
        },
        Instr::I32Store16 { mem_arg } => {
            lemma_mem_arg_round_trip(mem_arg, pre + op, post);
        },
        Instr::I64Store8 { mem_arg } => {
            lemma_mem_arg_round_trip(mem_arg, pre + op, post);
        },
        Instr::I64Store16 { mem_arg } => {
            lemma_mem_arg_round_trip(mem_arg, pre + op, post);
        },
        Instr::I64Store32 { mem_arg } => {
            lemma_mem_arg_round_trip(mem_arg, pre + op, post);
        },
        _ => {},
    }
}

#[verifier::rlimit(40)]
/// An instruction with one index is read back.
proof fn lemma_index_round_trip(i: InstructionView, pre: Seq<u8>, post: Seq<u8>)
    requires
        instruction_encodable(i),
        proof_group(i) == 2,
    ensures
        instruction_reads_back(i, pre, post),
{
    let b = pre + encode_instruction(i) + post;
    let op = seq![opcode_of(i)];
    let args = encode_operands(i);
    assert(b =~= pre + op + (args + post));
    lemma_u8_round_trip(opcode_of(i), pre, args + post);
    assert(b =~= (pre + op) + args + post);
    match i {
        Instr::Br { level } => {
            lemma_size_round_trip(level, pre + op, post);
        },
        Instr::BrIf { level } => {
            lemma_size_round_trip(level, pre + op, post);
        },
        Instr::Call { func_index } => {
            lemma_size_round_trip(func_index, pre + op, post);
        },
        Instr::RefFunc { func_index } => {
            lemma_size_round_trip(func_index, pre + op, post);
        },
        Instr::LocalGet { local_index } => {
            lemma_size_round_trip(local_index, pre + op, post);
        },
        Instr::LocalSet { local_index } => {
            lemma_size_round_trip(local_index, pre + op, post);
        },
        Instr::LocalTee { local_index } => {
            lemma_size_round_trip(local_index, pre + op, post);
        },
        Instr::GlobalGet { global_index } => {
            lemma_size_round_trip(global_index, pre + op, post);
        },
        Instr::GlobalSet { global_index } => {
            lemma_size_round_trip(global_index, pre + op, post);
        },
        Instr::TableGet { table_index } => {
            lemma_size_round_trip(table_index, pre + op, post);
        },
        Instr::TableSet { table_index } => {
            lemma_size_round_trip(table_index, pre + op, post);
        },
        _ => {},
    }
}

/// `Block` is read back.
proof fn lemma_block_round_trip(i: InstructionView, pre: Seq<u8>, post: Seq<u8>)
    requires
        instruction_encodable(i),
        i is Block,
    ensures
        instruction_reads_back(i, pre, post),
{
    let b = pre + encode_instruction(i) + post;
    let op = seq![opcode_of(i)];
    let args = encode_operands(i);
    assert(b =~= pre + op + (args + post));
    lemma_u8_round_trip(opcode_of(i), pre, args + post);
    assert(b =~= (pre + op) + args + post);
    match i {
        Instr::Block { block } => {
            lemma_block_type_round_trip(block.block_type, pre + op, post);
        },
        _ => {},
    }
}

/// `Loop` is read back.
proof fn lemma_loop_round_trip(i: InstructionView, pre: Seq<u8>, post: Seq<u8>)
    requires
        instruction_encodable(i),
        i is Loop,
    ensures
        instruction_reads_back(i, pre, post),
{
    let b = pre + encode_instruction(i) + post;
    let op = seq![opcode_of(i)];
    let args = encode_operands(i);
    assert(b =~= pre + op + (args + post));
    lemma_u8_round_trip(opcode_of(i), pre, args + post);
    assert(b =~= (pre + op) + args + post);
    match i {
        Instr::Loop { block } => {
            lemma_block_type_round_trip(block.block_type, pre + op, post);
        },
        _ => {},
    }
}

/// `If` is read back.
proof fn lemma_if_round_trip(i: InstructionView, pre: Seq<u8>, post: Seq<u8>)
    requires
        instruction_encodable(i),
        i is If,
    ensures
        instruction_reads_back(i, pre, post),
{
    let b = pre + encode_instruction(i) + post;
    let op = seq![opcode_of(i)];
    let args = encode_operands(i);
    assert(b =~= pre + op + (args + post));
    lemma_u8_round_trip(opcode_of(i), pre, args + post);
    assert(b =~= (pre + op) + args + post);
    match i {
        Instr::If { block } => {
            lemma_block_type_round_trip(block.block_type, pre + op, post);
        },
        _ => {},
    }
}

/// `BrTable` is read back.
proof fn lemma_brtable_round_trip(i: InstructionView, pre: Seq<u8>, post: Seq<u8>)
    requires
        instruction_encodable(i),
        i is BrTable,
    ensures
        instruction_reads_back(i, pre, post),
{
    let b = pre + encode_instruction(i) + post;
    let op = seq![opcode_of(i)];
    let args = encode_operands(i);
    assert(b =~= pre + op + (args + post));
    lemma_u8_round_trip(opcode_of(i), pre, args + post);
    assert(b =~= (pre + op) + args + post);
    match i {
        Instr::BrTable { label_indexes, default_index } => {
            let labels = encode_size_vec(label_indexes);
            assert(b =~= (pre + op) + labels + (encode_size(default_index) + post));
            lemma_size_vec_round_trip(label_indexes, pre + op, encode_size(default_index) + post);
            assert(b =~= (pre + op + labels) + encode_size(default_index) + post);
            lemma_size_round_trip(default_index, pre + op + labels, post);
        },
        _ => {},
    }
}

/// `CallIndirect` is read back.
proof fn lemma_callindirect_round_trip(i: InstructionView, pre: Seq<u8>, post: Seq<u8>)
    requires
        instruction_encodable(i),
        i is CallIndirect,
    ensures
        instruction_reads_back(i, pre, post),
{
    let b = pre + encode_instruction(i) + post;
    let op = seq![opcode_of(i)];
    let args = encode_operands(i);
    assert(b =~= pre + op + (args + post));
    lemma_u8_round_trip(opcode_of(i), pre, args + post);
    assert(b =~= (pre + op) + args + post);
    match i {
        Instr::CallIndirect { type_index, table_index } => {
            assert(b =~= (pre + op) + encode_size(type_index) + (encode_size(table_index) + post));
            lemma_size_round_trip(type_index, pre + op, encode_size(table_index) + post);
            assert(b =~= (pre + op + encode_size(type_index)) + encode_size(table_index) + post);
            lemma_size_round_trip(table_index, pre + op + encode_size(type_index), post);
        },
        _ => {},
    }
}

/// `RefNull` is read back.
proof fn lemma_refnull_round_trip(i: InstructionView, pre: Seq<u8>, post: Seq<u8>)
    requires
        instruction_encodable(i),
        i is RefNull,
    ensures
        instruction_reads_back(i, pre, post),
{
    let b = pre + encode_instruction(i) + post;
    let op = seq![opcode_of(i)];
    let args = encode_operands(i);
    assert(b =~= pre + op + (args + post));
    lemma_u8_round_trip(opcode_of(i), pre, args + post);
    assert(b =~= (pre + op) + args + post);
    match i {
        Instr::RefNull { ref_type } => {
            lemma_reference_type_round_trip(ref_type, pre + op, post);
        },
        _ => {},
    }
}

/// `Select` is read back.
proof fn lemma_select_round_trip(i: InstructionView, pre: Seq<u8>, post: Seq<u8>)
    requires
        instruction_encodable(i),
        i is Select,
    ensures
        instruction_reads_back(i, pre, post),
{
    let b = pre + encode_instruction(i) + post;
    let op = seq![opcode_of(i)];
    let args = encode_operands(i);
    assert(b =~= pre + op + (args + post));
    lemma_u8_round_trip(opcode_of(i), pre, args + post);
    assert(b =~= (pre + op) + args + post);
    match i {
        Instr::Select { result_types } => {
            match result_types {
                Some(types) => {
                    lemma_value_type_vec_round_trip(types, pre + op, post);
                },
                None => {
                    assert(b =~= pre + op + post);
                },
            }
        },
        _ => {},
    }
}

/// `TableInit` is read back.
proof fn lemma_tableinit_round_trip(i: InstructionView, pre: Seq<u8>, post: Seq<u8>)
    requires
        instruction_encodable(i),
        i is TableInit,
    ensures
        instruction_reads_back(i, pre, post),
{
    let b = pre + encode_instruction(i) + post;
    let op = seq![opcode_of(i)];
    let args = encode_operands(i);
    assert(b =~= pre + op + (args + post));
    lemma_u8_round_trip(opcode_of(i), pre, args + post);
    assert(b =~= (pre + op) + args + post);
    match i {
        Instr::TableInit { element_index, table_index } => {
            let id = encode_size(12);
            let head = pre + op + id;
            let tail = encode_size(element_index) + encode_size(table_index);
            assert(args =~= id + tail);
            assert(b =~= (pre + op) + id + (tail + post));
            lemma_size_round_trip(12, pre + op, tail + post);
            assert(b =~= head + tail + post);
            assert(b =~= (head) + encode_size(element_index) + (encode_size(table_index) + post));
            lemma_size_round_trip(element_index, head, encode_size(table_index) + post);
            assert(b =~= (head + encode_size(element_index)) + encode_size(table_index) + post);
            lemma_size_round_trip(table_index, head + encode_size(element_index), post);
        },
        _ => {},
    }
}

/// `ElemDrop` is read back.
proof fn lemma_elemdrop_round_trip(i: InstructionView, pre: Seq<u8>, post: Seq<u8>)
    requires
        instruction_encodable(i),
        i is ElemDrop,
    ensures
        instruction_reads_back(i, pre, post),
{
    let b = pre + encode_instruction(i) + post;
    let op = seq![opcode_of(i)];
    let args = encode_operands(i);
    assert(b =~= pre + op + (args + post));
    lemma_u8_round_trip(opcode_of(i), pre, args + post);
    assert(b =~= (pre + op) + args + post);
    match i {
        Instr::ElemDrop { element_index } => {
            let id = encode_size(13);
            let head = pre + op + id;
            let tail = encode_size(element_index);
            assert(args =~= id + tail);
            assert(b =~= (pre + op) + id + (tail + post));
            lemma_size_round_trip(13, pre + op, tail + post);
            assert(b =~= head + tail + post);
            lemma_size_round_trip(element_index, head, post);
        },
        _ => {},
    }
}

/// `TableCopy` is read back.
proof fn lemma_tablecopy_round_trip(i: InstructionView, pre: Seq<u8>, post: Seq<u8>)
    requires
        instruction_encodable(i),
        i is TableCopy,
    ensures
        instruction_reads_back(i, pre, post),
{
    let b = pre + encode_instruction(i) + post;
    let op = seq![opcode_of(i)];
    let args = encode_operands(i);
    assert(b =~= pre + op + (args + post));
    lemma_u8_round_trip(opcode_of(i), pre, args + post);
    assert(b =~= (pre + op) + args + post);
    match i {
        Instr::TableCopy { dst_table_index, src_table_index } => {
            let id = encode_size(14);
            let head = pre + op + id;
            let tail = encode_size(dst_table_index) + encode_size(src_table_index);
            assert(args =~= id + tail);
            assert(b =~= (pre + op) + id + (tail + post));
            lemma_size_round_trip(14, pre + op, tail + post);
            assert(b =~= head + tail + post);
            assert(b =~= (head) + encode_size(dst_table_index) + (encode_size(src_table_index) + post));
            lemma_size_round_trip(dst_table_index, head, encode_size(src_table_index) + post);
            assert(b =~= (head + encode_size(dst_table_index)) + encode_size(src_table_index) + post);
            lemma_size_round_trip(src_table_index, head + encode_size(dst_table_index), post);
        },
        _ => {},
    }
}

/// `TableGrow` is read back.
proof fn lemma_tablegrow_round_trip(i: InstructionView, pre: Seq<u8>, post: Seq<u8>)
    requires
        instruction_encodable(i),
        i is TableGrow,
    ensures
        instruction_reads_back(i, pre, post),
{
    let b = pre + encode_instruction(i) + post;
    let op = seq![opcode_of(i)];
    let args = encode_operands(i);
    assert(b =~= pre + op + (args + post));
    lemma_u8_round_trip(opcode_of(i), pre, args + post);
    assert(b =~= (pre + op) + args + post);
    match i {
        Instr::TableGrow { table_index } => {
            let id = encode_size(15);
            let head = pre + op + id;
            let tail = encode_size(table_index);
            assert(args =~= id + tail);
            assert(b =~= (pre + op) + id + (tail + post));
            lemma_size_round_trip(15, pre + op, tail + post);
            assert(b =~= head + tail + post);
            lemma_size_round_trip(table_index, head, post);
        },
        _ => {},
    }
}

/// `TableSize` is read back.
proof fn lemma_tablesize_round_trip(i: InstructionView, pre: Seq<u8>, post: Seq<u8>)
    requires
        instruction_encodable(i),
        i is TableSize,
    ensures
        instruction_reads_back(i, pre, post),
{
    let b = pre + encode_instruction(i) + post;
    let op = seq![opcode_of(i)];
    let args = encode_operands(i);
    assert(b =~= pre + op + (args + post));
    lemma_u8_round_trip(opcode_of(i), pre, args + post);
    assert(b =~= (pre + op) + args + post);
    match i {
        Instr::TableSize { table_index } => {
            let id = encode_size(16);
            let head = pre + op + id;
            let tail = encode_size(table_index);
            assert(args =~= id + tail);
            assert(b =~= (pre + op) + id + (tail + post));
            lemma_size_round_trip(16, pre + op, tail + post);
            assert(b =~= head + tail + post);
            lemma_size_round_trip(table_index, head, post);
        },
        _ => {},
    }
}

/// `TableFill` is read back.
proof fn lemma_tablefill_round_trip(i: InstructionView, pre: Seq<u8>, post: Seq<u8>)
    requires
        instruction_encodable(i),
        i is TableFill,
    ensures
        instruction_reads_back(i, pre, post),
{
    let b = pre + encode_instruction(i) + post;
    let op = seq![opcode_of(i)];
    let args = encode_operands(i);
    assert(b =~= pre + op + (args + post));
    lemma_u8_round_trip(opcode_of(i), pre, args + post);
    assert(b =~= (pre + op) + args + post);
    match i {
        Instr::TableFill { table_index } => {
            let id = encode_size(17);
            let head = pre + op + id;
            let tail = encode_size(table_index);
            assert(args =~= id + tail);
            assert(b =~= (pre + op) + id + (tail + post));
            lemma_size_round_trip(17, pre + op, tail + post);
            assert(b =~= head + tail + post);
            lemma_size_round_trip(table_index, head, post);
        },
        _ => {},
    }
}

/// `MemorySize` is read back.
proof fn lemma_memorysize_round_trip(i: InstructionView, pre: Seq<u8>, post: Seq<u8>)
    requires
        instruction_encodable(i),
        i is MemorySize,
    ensures
        instruction_reads_back(i, pre, post),
{
    let b = pre + encode_instruction(i) + post;
    let op = seq![opcode_of(i)];
    let args = encode_operands(i);
    assert(b =~= pre + op + (args + post));
    lemma_u8_round_trip(opcode_of(i), pre, args + post);
    assert(b =~= (pre + op) + args + post);
    match i {
        Instr::MemorySize => {
            lemma_u8_round_trip(0x00, pre + op, post);
        },
        _ => {},
    }
}

/// `MemoryGrow` is read back.
proof fn lemma_memorygrow_round_trip(i: InstructionView, pre: Seq<u8>, post: Seq<u8>)
    requires
        instruction_encodable(i),
        i is MemoryGrow,
    ensures
        instruction_reads_back(i, pre, post),
{
    let b = pre + encode_instruction(i) + post;
    let op = seq![opcode_of(i)];
    let args = encode_operands(i);
    assert(b =~= pre + op + (args + post));
    lemma_u8_round_trip(opcode_of(i), pre, args + post);
    assert(b =~= (pre + op) + args + post);
    match i {
        Instr::MemoryGrow => {
            lemma_u8_round_trip(0x00, pre + op, post);
        },
        _ => {},
    }
}

/// `MemoryInit` is read back.
proof fn lemma_memoryinit_round_trip(i: InstructionView, pre: Seq<u8>, post: Seq<u8>)
    requires
        instruction_encodable(i),
        i is MemoryInit,
    ensures
        instruction_reads_back(i, pre, post),
{
    let b = pre + encode_instruction(i) + post;
    let op = seq![opcode_of(i)];
    let args = encode_operands(i);
    assert(b =~= pre + op + (args + post));
    lemma_u8_round_trip(opcode_of(i), pre, args + post);
    assert(b =~= (pre + op) + args + post);
    match i {
        Instr::MemoryInit { data_index } => {
            let id = encode_size(8);
            let head = pre + op + id;
            let tail = encode_size(data_index) + seq![0x00u8];
            assert(args =~= id + tail);
            assert(b =~= (pre + op) + id + (tail + post));
            lemma_size_round_trip(8, pre + op, tail + post);
            assert(b =~= head + tail + post);
            assert(b =~= head + encode_size(data_index) + (seq![0x00u8] + post));
            lemma_size_round_trip(data_index, head, seq![0x00u8] + post);
            assert(b =~= (head + encode_size(data_index)) + seq![0x00u8] + post);
            lemma_u8_round_trip(0x00, head + encode_size(data_index), post);
        },
        _ => {},
    }
}

/// `DataDrop` is read back.
proof fn lemma_datadrop_round_trip(i: InstructionView, pre: Seq<u8>, post: Seq<u8>)
    requires
        instruction_encodable(i),
        i is DataDrop,
    ensures
        instruction_reads_back(i, pre, post),
{
    let b = pre + encode_instruction(i) + post;
    let op = seq![opcode_of(i)];
    let args = encode_operands(i);
    assert(b =~= pre + op + (args + post));
    lemma_u8_round_trip(opcode_of(i), pre, args + post);
    assert(b =~= (pre + op) + args + post);
    match i {
        Instr::DataDrop { data_index } => {
            let id = encode_size(9);
            let head = pre + op + id;
            let tail = encode_size(data_index);
            assert(args =~= id + tail);
            assert(b =~= (pre + op) + id + (tail + post));
            lemma_size_round_trip(9, pre + op, tail + post);
            assert(b =~= head + tail + post);
            lemma_size_round_trip(data_index, head, post);
        },
        _ => {},
    }
}

/// `MemoryCopy` is read back.
proof fn lemma_memorycopy_round_trip(i: InstructionView, pre: Seq<u8>, post: Seq<u8>)
    requires
        instruction_encodable(i),
        i is MemoryCopy,
    ensures
        instruction_reads_back(i, pre, post),
{
    let b = pre + encode_instruction(i) + post;
    let op = seq![opcode_of(i)];
    let args = encode_operands(i);
    assert(b =~= pre + op + (args + post));
    lemma_u8_round_trip(opcode_of(i), pre, args + post);
    assert(b =~= (pre + op) + args + post);
    match i {
        Instr::MemoryCopy => {
            let id = encode_size(10);
            let head = pre + op + id;
            let tail = seq![0x00u8, 0x00u8];
            assert(args =~= id + tail);
            assert(b =~= (pre + op) + id + (tail + post));
            lemma_size_round_trip(10, pre + op, tail + post);
            assert(b =~= head + tail + post);
            assert(b =~= head + seq![0x00u8] + (seq![0x00u8] + post));
            lemma_u8_round_trip(0x00, head, seq![0x00u8] + post);
            assert(b =~= (head + seq![0x00u8]) + seq![0x00u8] + post);
            lemma_u8_round_trip(0x00, head + seq![0x00u8], post);
        },
        _ => {},
    }
}

/// `MemoryFill` is read back.
proof fn lemma_memoryfill_round_trip(i: InstructionView, pre: Seq<u8>, post: Seq<u8>)
    requires
        instruction_encodable(i),
        i is MemoryFill,
    ensures
        instruction_reads_back(i, pre, post),
{
    let b = pre + encode_instruction(i) + post;
    let op = seq![opcode_of(i)];
    let args = encode_operands(i);
    assert(b =~= pre + op + (args + post));
    lemma_u8_round_trip(opcode_of(i), pre, args + post);
    assert(b =~= (pre + op) + args + post);
    match i {
        Instr::MemoryFill => {
            let id = encode_size(11);
            let head = pre + op + id;
            let tail = seq![0x00u8];
            assert(args =~= id + tail);
            assert(b =~= (pre + op) + id + (tail + post));
            lemma_size_round_trip(11, pre + op, tail + post);
            assert(b =~= head + tail + post);
            lemma_u8_round_trip(0x00, head, post);
        },
        _ => {},
    }
}

/// `I32Const` is read back.
proof fn lemma_i32const_round_trip(i: InstructionView, pre: Seq<u8>, post: Seq<u8>)
    requires
        instruction_encodable(i),
        i is I32Const,
    ensures
        instruction_reads_back(i, pre, post),
{
    let b = pre + encode_instruction(i) + post;
    let op = seq![opcode_of(i)];
    let args = encode_operands(i);
    assert(b =~= pre + op + (args + post));
    lemma_u8_round_trip(opcode_of(i), pre, args + post);
    assert(b =~= (pre + op) + args + post);
    match i {
        Instr::I32Const { value } => {
            lemma_i32_round_trip(value, pre + op, post);
        },
        _ => {},
    }
}

/// `I64Const` is read back.
proof fn lemma_i64const_round_trip(i: InstructionView, pre: Seq<u8>, post: Seq<u8>)
    requires
        instruction_encodable(i),
        i is I64Const,
    ensures
        instruction_reads_back(i, pre, post),
{
    let b = pre + encode_instruction(i) + post;
    let op = seq![opcode_of(i)];
    let args = encode_operands(i);
    assert(b =~= pre + op + (args + post));
    lemma_u8_round_trip(opcode_of(i), pre, args + post);
    assert(b =~= (pre + op) + args + post);
    match i {
        Instr::I64Const { value } => {
            lemma_i64_round_trip(value, pre + op, post);
        },
        _ => {},
    }
}

/// `F32Const` is read back.
proof fn lemma_f32const_round_trip(i: InstructionView, pre: Seq<u8>, post: Seq<u8>)
    requires
        instruction_encodable(i),
        i is F32Const,
    ensures
        instruction_reads_back(i, pre, post),
{
    let b = pre + encode_instruction(i) + post;
    let op = seq![opcode_of(i)];
    let args = encode_operands(i);
    assert(b =~= pre + op + (args + post));
    lemma_u8_round_trip(opcode_of(i), pre, args + post);
    assert(b =~= (pre + op) + args + post);
    match i {
        Instr::F32Const { value } => {
            lemma_f32_round_trip(value, pre + op, post);
        },
        _ => {},
    }
}

/// `F64Const` is read back.
proof fn lemma_f64const_round_trip(i: InstructionView, pre: Seq<u8>, post: Seq<u8>)
    requires
        instruction_encodable(i),
        i is F64Const,
    ensures
        instruction_reads_back(i, pre, post),
{
    let b = pre + encode_instruction(i) + post;
    let op = seq![opcode_of(i)];
    let args = encode_operands(i);
    assert(b =~= pre + op + (args + post));
    lemma_u8_round_trip(opcode_of(i), pre, args + post);
    assert(b =~= (pre + op) + args + post);
    match i {
        Instr::F64Const { value } => {
            lemma_f64_round_trip(value, pre + op, post);
        },
        _ => {},
    }
}

/// An instruction with other operands is read back.
proof fn lemma_other_round_trip(i: InstructionView, pre: Seq<u8>, post: Seq<u8>)
    requires
        instruction_encodable(i),
        proof_group(i) == 3,
    ensures
        instruction_reads_back(i, pre, post),
{
    match i {
        Instr::Block { .. } => lemma_block_round_trip(i, pre, post),
        Instr::Loop { .. } => lemma_loop_round_trip(i, pre, post),
        Instr::If { .. } => lemma_if_round_trip(i, pre, post),
        Instr::BrTable { .. } => lemma_brtable_round_trip(i, pre, post),
        Instr::CallIndirect { .. } => lemma_callindirect_round_trip(i, pre, post),
        Instr::RefNull { .. } => lemma_refnull_round_trip(i, pre, post),
        Instr::Select { .. } => lemma_select_round_trip(i, pre, post),
        Instr::TableInit { .. } => lemma_tableinit_round_trip(i, pre, post),
        Instr::ElemDrop { .. } => lemma_elemdrop_round_trip(i, pre, post),
        Instr::TableCopy { .. } => lemma_tablecopy_round_trip(i, pre, post),
        Instr::TableGrow { .. } => lemma_tablegrow_round_trip(i, pre, post),
        Instr::TableSize { .. } => lemma_tablesize_round_trip(i, pre, post),
        Instr::TableFill { .. } => lemma_tablefill_round_trip(i, pre, post),
        Instr::MemorySize => lemma_memorysize_round_trip(i, pre, post),
        Instr::MemoryGrow => lemma_memorygrow_round_trip(i, pre, post),
        Instr::MemoryInit { .. } => lemma_memoryinit_round_trip(i, pre, post),
        Instr::DataDrop { .. } => lemma_datadrop_round_trip(i, pre, post),
        Instr::MemoryCopy => lemma_memorycopy_round_trip(i, pre, post),
        Instr::MemoryFill => lemma_memoryfill_round_trip(i, pre, post),
        Instr::I32Const { .. } => lemma_i32const_round_trip(i, pre, post),
        Instr::I64Const { .. } => lemma_i64const_round_trip(i, pre, post),
        Instr::F32Const { .. } => lemma_f32const_round_trip(i, pre, post),
        Instr::F64Const { .. } => lemma_f64const_round_trip(i, pre, post),
        _ => {},
    }
}

/// An instruction is read back from its bytes, whatever stands before
/// and behind them.
pub proof fn lemma_instruction_round_trip(i: InstructionView, pre: Seq<u8>, post: Seq<u8>)
    requires
        instruction_encodable(i),
    ensures
        instruction_reads_back(i, pre, post),
{
    if proof_group(i) == 0 {
        lemma_plain_round_trip(i, pre, post);
    } else if proof_group(i) == 1 {
        lemma_memory_round_trip(i, pre, post);
    } else if proof_group(i) == 2 {
        lemma_index_round_trip(i, pre, post);
    } else {
        lemma_other_round_trip(i, pre, post);
    }
}

/// The bytes of instructions in a row.
pub open spec fn encode_instructions(code: Seq<InstructionView>) -> Seq<u8>
    decreases code.len(),
{
    if code.len() == 0 {
        Seq::empty()
    } else {
        encode_instruction(code[0]) + encode_instructions(code.drop_first())
    }
}

/// Whether all instructions of a sequence can be written.
pub open spec fn instructions_encodable(code: Seq<InstructionView>) -> bool {
    forall|k: int| 0 <= k < code.len() ==> instruction_encodable(#[trigger] code[k])
}

/// Instructions are read back from their bytes where nothing follows
/// them, whatever stands before them.
pub proof fn lemma_instructions_round_trip(code: Seq<InstructionView>, pre: Seq<u8>)
    requires
        instructions_encodable(code),
    ensures
        parse_instructions(pre + encode_instructions(code), pre.len() as int) == Ok::<
            Seq<InstructionView>,
            Failure,
        >(code),
    decreases code.len(),
{
    let b = pre + encode_instructions(code);
    if code.len() == 0 {
        assert(code =~= Seq::empty());
        assert(b =~= pre);
    } else {
        let first = encode_instruction(code[0]);
        let others = encode_instructions(code.drop_first());
        assert(b =~= pre + first + others);
        lemma_instruction_round_trip(code[0], pre, others);
        assert(b =~= (pre + first) + others);
        assert(instructions_encodable(code.drop_first())) by {
            assert forall|k: int| 0 <= k < code.drop_first().len() implies instruction_encodable(
                #[trigger] code.drop_first()[k],
            ) by {
                assert(code.drop_first()[k] == code[k + 1]);
            }
        }
        lemma_instructions_round_trip(code.drop_first(), pre + first);
        assert(seq![code[0]] + code.drop_first() =~= code);
    }
}

} // verus!
