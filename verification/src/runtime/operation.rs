//! What each instruction asks of the machine.

use crate::binary::instruction::{BlockType, Instr, Instruction, InstructionView, MemArg};
use crate::runtime::operators::{BinOp, UnOp};
use crate::runtime::value::Val;
use crate::types::ValueType;
use vstd::prelude::*;

verus! {

/// How a load or store reads memory: the type of the value on the stack,
/// how many bytes stand for it in memory, and whether a load of fewer bytes
/// than the value has keeps the sign.
#[derive(Debug, Clone, Copy, PartialEq, Eq, Structural)]
pub struct Access {
    pub value_type: ValueType,
    pub width: u8,
    pub signed: bool,
}

/// Whether an access names a width that memory knows: 1, 2, 4 or 8 bytes.
pub open spec fn access_ok(a: Access) -> bool {
    a.width == 1 || a.width == 2 || a.width == 4 || a.width == 8
}

/// What an instruction asks of the machine. Instructions that differ only
/// in the type of their operands ask for the same operator: the operands on
/// the stack decide which arithmetic is done.
#[derive(Debug, Clone, Copy, PartialEq, Eq, Structural)]
pub enum Operation {
    Unreachable,
    Nop,
    Block(BlockType),
    Loop(BlockType),
    If(BlockType),
    Else,
    End,
    Br(u32),
    BrIf(u32),
    Return,
    Call(u32),
    CallIndirect(u32, u32),
    Drop,
    Select,
    LocalGet(u32),
    LocalSet(u32),
    LocalTee(u32),
    GlobalGet(u32),
    GlobalSet(u32),
    Load(Access, MemArg),
    Store(Access, MemArg),
    MemorySize,
    Const(Val),
    Unary(UnOp),
    Binary(BinOp),
    /// The machine does not run the instruction.
    Unsupported,
}

/// What the instruction `i` asks of the machine.
pub open spec fn operation(i: InstructionView) -> Operation {
    match i {
        Instr::Unreachable => Operation::Unreachable,
        Instr::Nop => Operation::Nop,
        Instr::Block { block } => Operation::Block(block.block_type),
        Instr::Loop { block } => Operation::Loop(block.block_type),
        Instr::If { block } => Operation::If(block.block_type),
        Instr::Else => Operation::Else,
        Instr::End => Operation::End,
        Instr::Br { level } => Operation::Br(level),
        Instr::BrIf { level } => Operation::BrIf(level),
        Instr::Return => Operation::Return,
        Instr::Call { func_index } => Operation::Call(func_index),
        Instr::CallIndirect { type_index, table_index } => Operation::CallIndirect(type_index, table_index),
        Instr::Drop => Operation::Drop,
        Instr::Select { result_types } => Operation::Select,
        Instr::LocalGet { local_index } => Operation::LocalGet(local_index),
        Instr::LocalSet { local_index } => Operation::LocalSet(local_index),
        Instr::LocalTee { local_index } => Operation::LocalTee(local_index),
        Instr::GlobalGet { global_index } => Operation::GlobalGet(global_index),
        Instr::GlobalSet { global_index } => Operation::GlobalSet(global_index),
        Instr::I32Load { mem_arg } => Operation::Load(
            Access { value_type: ValueType::I32, width: 4, signed: false },
            mem_arg,
        ),
        Instr::I64Load { mem_arg } => Operation::Load(
            Access { value_type: ValueType::I64, width: 8, signed: false },
            mem_arg,
        ),
        Instr::F32Load { mem_arg } => Operation::Load(
            Access { value_type: ValueType::F32, width: 4, signed: false },
            mem_arg,
        ),
        Instr::F64Load { mem_arg } => Operation::Load(
            Access { value_type: ValueType::F64, width: 8, signed: false },
            mem_arg,
        ),
        Instr::I32Load8S { mem_arg } => Operation::Load(
            Access { value_type: ValueType::I32, width: 1, signed: true },
            mem_arg,
        ),
        Instr::I32Load8U { mem_arg } => Operation::Load(
            Access { value_type: ValueType::I32, width: 1, signed: false },
            mem_arg,
        ),
        Instr::I32Load16S { mem_arg } => Operation::Load(
            Access { value_type: ValueType::I32, width: 2, signed: true },
            mem_arg,
        ),
        Instr::I32Load16U { mem_arg } => Operation::Load(
            Access { value_type: ValueType::I32, width: 2, signed: false },
            mem_arg,
        ),
        Instr::I64Load8S { mem_arg } => Operation::Load(
            Access { value_type: ValueType::I64, width: 1, signed: true },
            mem_arg,
        ),
        Instr::I64Load8U { mem_arg } => Operation::Load(
            Access { value_type: ValueType::I64, width: 1, signed: false },
            mem_arg,
        ),
        Instr::I64Load16S { mem_arg } => Operation::Load(
            Access { value_type: ValueType::I64, width: 2, signed: true },
            mem_arg,
        ),
        Instr::I64Load16U { mem_arg } => Operation::Load(
            Access { value_type: ValueType::I64, width: 2, signed: false },
            mem_arg,
        ),
        Instr::I64Load32S { mem_arg } => Operation::Load(
            Access { value_type: ValueType::I64, width: 4, signed: true },
            mem_arg,
        ),
        Instr::I64Load32U { mem_arg } => Operation::Load(
            Access { value_type: ValueType::I64, width: 4, signed: false },
            mem_arg,
        ),
        Instr::I32Store { mem_arg } => Operation::Store(
            Access { value_type: ValueType::I32, width: 4, signed: false },
            mem_arg,
        ),
        Instr::I64Store { mem_arg } => Operation::Store(
            Access { value_type: ValueType::I64, width: 8, signed: false },
            mem_arg,
        ),
        Instr::F32Store { mem_arg } => Operation::Store(
            Access { value_type: ValueType::F32, width: 4, signed: false },
            mem_arg,
        ),
        Instr::F64Store { mem_arg } => Operation::Store(
            Access { value_type: ValueType::F64, width: 8, signed: false },
            mem_arg,
        ),
        Instr::I32Store8 { mem_arg } => Operation::Store(
            Access { value_type: ValueType::I32, width: 1, signed: false },
            mem_arg,
        ),
        Instr::I32Store16 { mem_arg } => Operation::Store(
            Access { value_type: ValueType::I32, width: 2, signed: false },
            mem_arg,
        ),
        Instr::I64Store8 { mem_arg } => Operation::Store(
            Access { value_type: ValueType::I64, width: 1, signed: false },
            mem_arg,
        ),
        Instr::I64Store16 { mem_arg } => Operation::Store(
            Access { value_type: ValueType::I64, width: 2, signed: false },
            mem_arg,
        ),
        Instr::I64Store32 { mem_arg } => Operation::Store(
            Access { value_type: ValueType::I64, width: 4, signed: false },
            mem_arg,
        ),
        Instr::MemorySize => Operation::MemorySize,
        Instr::I32Const { value } => Operation::Const(Val::I32(value)),
        Instr::I64Const { value } => Operation::Const(Val::I64(value)),
        Instr::F32Const { value } => Operation::Const(Val::F32(value)),
        Instr::F64Const { value } => Operation::Const(Val::F64(value)),
        Instr::I32Eqz
        | Instr::I64Eqz => Operation::Unary(UnOp::Eqz),
        Instr::I32Eq
        | Instr::I64Eq
        | Instr::F32Eq
        | Instr::F64Eq => Operation::Binary(BinOp::Eq),
        Instr::I32Ne
        | Instr::I64Ne
        | Instr::F32Ne
        | Instr::F64Ne => Operation::Binary(BinOp::Ne),
        Instr::I32LtS
        | Instr::I64LtS => Operation::Binary(BinOp::LtS),
        Instr::I32LtU
        | Instr::I64LtU => Operation::Binary(BinOp::LtU),
        Instr::I32GtS
        | Instr::I64GtS => Operation::Binary(BinOp::GtS),
        Instr::I32GtU
        | Instr::I64GtU => Operation::Binary(BinOp::GtU),
        Instr::I32LeS
        | Instr::I64LeS => Operation::Binary(BinOp::LeS),
        Instr::I32LeU
        | Instr::I64LeU => Operation::Binary(BinOp::LeU),
        Instr::I32GeS
        | Instr::I64GeS => Operation::Binary(BinOp::GeS),
        Instr::I32GeU
        | Instr::I64GeU => Operation::Binary(BinOp::GeU),
        Instr::F32Lt
        | Instr::F64Lt => Operation::Binary(BinOp::Lt),
        Instr::F32Gt
        | Instr::F64Gt => Operation::Binary(BinOp::Gt),
        Instr::F32Le
        | Instr::F64Le => Operation::Binary(BinOp::Le),
        Instr::F32Ge
        | Instr::F64Ge => Operation::Binary(BinOp::Ge),
        Instr::I32Clz
        | Instr::I64Clz => Operation::Unary(UnOp::Clz),
        Instr::I32Ctz
        | Instr::I64Ctz => Operation::Unary(UnOp::Ctz),
        Instr::I32Popcnt
        | Instr::I64Popcnt => Operation::Unary(UnOp::Popcnt),
        Instr::I32Add
        | Instr::I64Add
        | Instr::F32Add
        | Instr::F64Add => Operation::Binary(BinOp::Add),
        Instr::I32Sub
        | Instr::I64Sub
        | Instr::F32Sub
        | Instr::F64Sub => Operation::Binary(BinOp::Sub),
        Instr::I32Mul
        | Instr::I64Mul
        | Instr::F32Mul
        | Instr::F64Mul => Operation::Binary(BinOp::Mul),
        Instr::I32DivS
        | Instr::I64DivS => Operation::Binary(BinOp::DivS),
        Instr::I32DivU
        | Instr::I64DivU => Operation::Binary(BinOp::DivU),
        Instr::I32RemS
        | Instr::I64RemS => Operation::Binary(BinOp::RemS),
        Instr::I32RemU
        | Instr::I64RemU => Operation::Binary(BinOp::RemU),
        Instr::I32And
        | Instr::I64And => Operation::Binary(BinOp::And),
        Instr::I32Or
        | Instr::I64Or => Operation::Binary(BinOp::Or),
        Instr::I32Xor
        | Instr::I64Xor => Operation::Binary(BinOp::Xor),
        Instr::I32Shl
        | Instr::I64Shl => Operation::Binary(BinOp::Shl),
        Instr::I32ShrS
        | Instr::I64ShrS => Operation::Binary(BinOp::ShrS),
        Instr::I32ShrU
        | Instr::I64ShrU => Operation::Binary(BinOp::ShrU),
        Instr::I32Rotl
        | Instr::I64Rotl => Operation::Binary(BinOp::Rotl),
        Instr::I32Rotr
        | Instr::I64Rotr => Operation::Binary(BinOp::Rotr),
        Instr::F32Abs
        | Instr::F64Abs => Operation::Unary(UnOp::Abs),
        Instr::F32Neg
        | Instr::F64Neg => Operation::Unary(UnOp::Neg),
        Instr::F32Ceil
        | Instr::F64Ceil => Operation::Unary(UnOp::Ceil),
        Instr::F32Floor
        | Instr::F64Floor => Operation::Unary(UnOp::Floor),
        Instr::F32Trunc
        | Instr::F64Trunc => Operation::Unary(UnOp::Trunc),
        Instr::F32Nearest
        | Instr::F64Nearest => Operation::Unary(UnOp::Nearest),
        Instr::F32Sqrt
        | Instr::F64Sqrt => Operation::Unary(UnOp::Sqrt),
        Instr::F32Div
        | Instr::F64Div => Operation::Binary(BinOp::Div),
        Instr::F32Min
        | Instr::F64Min => Operation::Binary(BinOp::Min),
        Instr::F32Max
        | Instr::F64Max => Operation::Binary(BinOp::Max),
        Instr::F32Copysign
        | Instr::F64Copysign => Operation::Binary(BinOp::Copysign),
        Instr::I32WrapI64 => Operation::Unary(UnOp::I32WrapI64),
        Instr::I32TruncF32S
        | Instr::I32TruncF64S => Operation::Unary(UnOp::I32TruncS),
        Instr::I32TruncF32U
        | Instr::I32TruncF64U => Operation::Unary(UnOp::I32TruncU),
        Instr::I64ExtendI32S => Operation::Unary(UnOp::I64ExtendI32S),
        Instr::I64ExtendI32U => Operation::Unary(UnOp::I64ExtendI32U),
        Instr::F32ConvertI32S
        | Instr::F32ConvertI64S => Operation::Unary(UnOp::F32ConvertS),
        Instr::F32ConvertI32U
        | Instr::F32ConvertI64U => Operation::Unary(UnOp::F32ConvertU),
        Instr::F32DemoteF64 => Operation::Unary(UnOp::F32DemoteF64),
        Instr::F64ConvertI32S
        | Instr::F64ConvertI64S => Operation::Unary(UnOp::F64ConvertS),
        Instr::F64ConvertI32U
        | Instr::F64ConvertI64U => Operation::Unary(UnOp::F64ConvertU),
        Instr::F64PromoteF32 => Operation::Unary(UnOp::F64PromoteF32),
        Instr::I32ReinterpretF32 => Operation::Unary(UnOp::I32ReinterpretF32),
        Instr::I64ReinterpretF64 => Operation::Unary(UnOp::I64ReinterpretF64),
        Instr::F32ReinterpretI32 => Operation::Unary(UnOp::F32ReinterpretI32),
        Instr::F64ReinterpretI64 => Operation::Unary(UnOp::F64ReinterpretI64),
        Instr::I32Extend8S => Operation::Unary(UnOp::I32Extend8S),
        Instr::I32Extend16S => Operation::Unary(UnOp::I32Extend16S),
        Instr::I64Extend8S => Operation::Unary(UnOp::I64Extend8S),
        Instr::I64Extend16S => Operation::Unary(UnOp::I64Extend16S),
        Instr::I64Extend32S => Operation::Unary(UnOp::I64Extend32S),
        _ => Operation::Unsupported,
    }
}

/// What the instruction `i` asks of the machine.
pub fn operation_of(i: &Instruction) -> (r: Operation)
    ensures
        r == operation(i@),
        r matches Operation::Load(a, _) ==> access_ok(a),
        r matches Operation::Store(a, _) ==> access_ok(a),
{
    match i {
        Instr::Unreachable => Operation::Unreachable,
        Instr::Nop => Operation::Nop,
        Instr::Block { block } => Operation::Block(block.block_type),
        Instr::Loop { block } => Operation::Loop(block.block_type),
        Instr::If { block } => Operation::If(block.block_type),
        Instr::Else => Operation::Else,
        Instr::End => Operation::End,
        Instr::Br { level } => Operation::Br(*level),
        Instr::BrIf { level } => Operation::BrIf(*level),
        Instr::Return => Operation::Return,
        Instr::Call { func_index } => Operation::Call(*func_index),
        Instr::CallIndirect { type_index, table_index } => Operation::CallIndirect(
            *type_index,
            *table_index,
        ),
        Instr::Drop => Operation::Drop,
        Instr::Select { result_types } => Operation::Select,
        Instr::LocalGet { local_index } => Operation::LocalGet(*local_index),
        Instr::LocalSet { local_index } => Operation::LocalSet(*local_index),
        Instr::LocalTee { local_index } => Operation::LocalTee(*local_index),
        Instr::GlobalGet { global_index } => Operation::GlobalGet(*global_index),
        Instr::GlobalSet { global_index } => Operation::GlobalSet(*global_index),
        Instr::I32Load { mem_arg } => Operation::Load(
            Access { value_type: ValueType::I32, width: 4, signed: false },
            *mem_arg,
        ),
        Instr::I64Load { mem_arg } => Operation::Load(
            Access { value_type: ValueType::I64, width: 8, signed: false },
            *mem_arg,
        ),
        Instr::F32Load { mem_arg } => Operation::Load(
            Access { value_type: ValueType::F32, width: 4, signed: false },
            *mem_arg,
        ),
        Instr::F64Load { mem_arg } => Operation::Load(
            Access { value_type: ValueType::F64, width: 8, signed: false },
            *mem_arg,
        ),
        Instr::I32Load8S { mem_arg } => Operation::Load(
            Access { value_type: ValueType::I32, width: 1, signed: true },
            *mem_arg,
        ),
        Instr::I32Load8U { mem_arg } => Operation::Load(
            Access { value_type: ValueType::I32, width: 1, signed: false },
            *mem_arg,
        ),
        Instr::I32Load16S { mem_arg } => Operation::Load(
            Access { value_type: ValueType::I32, width: 2, signed: true },
            *mem_arg,
        ),
        Instr::I32Load16U { mem_arg } => Operation::Load(
            Access { value_type: ValueType::I32, width: 2, signed: false },
            *mem_arg,
        ),
        Instr::I64Load8S { mem_arg } => Operation::Load(
            Access { value_type: ValueType::I64, width: 1, signed: true },
            *mem_arg,
        ),
        Instr::I64Load8U { mem_arg } => Operation::Load(
            Access { value_type: ValueType::I64, width: 1, signed: false },
            *mem_arg,
        ),
        Instr::I64Load16S { mem_arg } => Operation::Load(
            Access { value_type: ValueType::I64, width: 2, signed: true },
            *mem_arg,
        ),
        Instr::I64Load16U { mem_arg } => Operation::Load(
            Access { value_type: ValueType::I64, width: 2, signed: false },
            *mem_arg,
        ),
        Instr::I64Load32S { mem_arg } => Operation::Load(
            Access { value_type: ValueType::I64, width: 4, signed: true },
            *mem_arg,
        ),
        Instr::I64Load32U { mem_arg } => Operation::Load(
            Access { value_type: ValueType::I64, width: 4, signed: false },
            *mem_arg,
        ),
        Instr::I32Store { mem_arg } => Operation::Store(
            Access { value_type: ValueType::I32, width: 4, signed: false },
            *mem_arg,
        ),
        Instr::I64Store { mem_arg } => Operation::Store(
            Access { value_type: ValueType::I64, width: 8, signed: false },
            *mem_arg,
        ),
        Instr::F32Store { mem_arg } => Operation::Store(
            Access { value_type: ValueType::F32, width: 4, signed: false },
            *mem_arg,
        ),
        Instr::F64Store { mem_arg } => Operation::Store(
            Access { value_type: ValueType::F64, width: 8, signed: false },
            *mem_arg,
        ),
        Instr::I32Store8 { mem_arg } => Operation::Store(
            Access { value_type: ValueType::I32, width: 1, signed: false },
            *mem_arg,
        ),
        Instr::I32Store16 { mem_arg } => Operation::Store(
            Access { value_type: ValueType::I32, width: 2, signed: false },
            *mem_arg,
        ),
        Instr::I64Store8 { mem_arg } => Operation::Store(
            Access { value_type: ValueType::I64, width: 1, signed: false },
            *mem_arg,
        ),
        Instr::I64Store16 { mem_arg } => Operation::Store(
            Access { value_type: ValueType::I64, width: 2, signed: false },
            *mem_arg,
        ),
        Instr::I64Store32 { mem_arg } => Operation::Store(
            Access { value_type: ValueType::I64, width: 4, signed: false },
            *mem_arg,
        ),
        Instr::MemorySize => Operation::MemorySize,
        Instr::I32Const { value } => Operation::Const(Val::I32(*value)),
        Instr::I64Const { value } => Operation::Const(Val::I64(*value)),
        Instr::F32Const { value } => Operation::Const(Val::F32(*value)),
        Instr::F64Const { value } => Operation::Const(Val::F64(*value)),
        Instr::I32Eqz
        | Instr::I64Eqz => Operation::Unary(UnOp::Eqz),
        Instr::I32Eq
        | Instr::I64Eq
        | Instr::F32Eq
        | Instr::F64Eq => Operation::Binary(BinOp::Eq),
        Instr::I32Ne
        | Instr::I64Ne
        | Instr::F32Ne
        | Instr::F64Ne => Operation::Binary(BinOp::Ne),
        Instr::I32LtS
        | Instr::I64LtS => Operation::Binary(BinOp::LtS),
        Instr::I32LtU
        | Instr::I64LtU => Operation::Binary(BinOp::LtU),
        Instr::I32GtS
        | Instr::I64GtS => Operation::Binary(BinOp::GtS),
        Instr::I32GtU
        | Instr::I64GtU => Operation::Binary(BinOp::GtU),
        Instr::I32LeS
        | Instr::I64LeS => Operation::Binary(BinOp::LeS),
        Instr::I32LeU
        | Instr::I64LeU => Operation::Binary(BinOp::LeU),
        Instr::I32GeS
        | Instr::I64GeS => Operation::Binary(BinOp::GeS),
        Instr::I32GeU
        | Instr::I64GeU => Operation::Binary(BinOp::GeU),
        Instr::F32Lt
        | Instr::F64Lt => Operation::Binary(BinOp::Lt),
        Instr::F32Gt
        | Instr::F64Gt => Operation::Binary(BinOp::Gt),
        Instr::F32Le
        | Instr::F64Le => Operation::Binary(BinOp::Le),
        Instr::F32Ge
        | Instr::F64Ge => Operation::Binary(BinOp::Ge),
        Instr::I32Clz
        | Instr::I64Clz => Operation::Unary(UnOp::Clz),
        Instr::I32Ctz
        | Instr::I64Ctz => Operation::Unary(UnOp::Ctz),
        Instr::I32Popcnt
        | Instr::I64Popcnt => Operation::Unary(UnOp::Popcnt),
        Instr::I32Add
        | Instr::I64Add
        | Instr::F32Add
        | Instr::F64Add => Operation::Binary(BinOp::Add),
        Instr::I32Sub
        | Instr::I64Sub
        | Instr::F32Sub
        | Instr::F64Sub => Operation::Binary(BinOp::Sub),
        Instr::I32Mul
        | Instr::I64Mul
        | Instr::F32Mul
        | Instr::F64Mul => Operation::Binary(BinOp::Mul),
        Instr::I32DivS
        | Instr::I64DivS => Operation::Binary(BinOp::DivS),
        Instr::I32DivU
        | Instr::I64DivU => Operation::Binary(BinOp::DivU),
        Instr::I32RemS
        | Instr::I64RemS => Operation::Binary(BinOp::RemS),
        Instr::I32RemU
        | Instr::I64RemU => Operation::Binary(BinOp::RemU),
        Instr::I32And
        | Instr::I64And => Operation::Binary(BinOp::And),
        Instr::I32Or
        | Instr::I64Or => Operation::Binary(BinOp::Or),
        Instr::I32Xor
        | Instr::I64Xor => Operation::Binary(BinOp::Xor),
        Instr::I32Shl
        | Instr::I64Shl => Operation::Binary(BinOp::Shl),
        Instr::I32ShrS
        | Instr::I64ShrS => Operation::Binary(BinOp::ShrS),
        Instr::I32ShrU
        | Instr::I64ShrU => Operation::Binary(BinOp::ShrU),
        Instr::I32Rotl
        | Instr::I64Rotl => Operation::Binary(BinOp::Rotl),
        Instr::I32Rotr
        | Instr::I64Rotr => Operation::Binary(BinOp::Rotr),
        Instr::F32Abs
        | Instr::F64Abs => Operation::Unary(UnOp::Abs),
        Instr::F32Neg
        | Instr::F64Neg => Operation::Unary(UnOp::Neg),
        Instr::F32Ceil
        | Instr::F64Ceil => Operation::Unary(UnOp::Ceil),
        Instr::F32Floor
        | Instr::F64Floor => Operation::Unary(UnOp::Floor),
        Instr::F32Trunc
        | Instr::F64Trunc => Operation::Unary(UnOp::Trunc),
        Instr::F32Nearest
        | Instr::F64Nearest => Operation::Unary(UnOp::Nearest),
        Instr::F32Sqrt
        | Instr::F64Sqrt => Operation::Unary(UnOp::Sqrt),
        Instr::F32Div
        | Instr::F64Div => Operation::Binary(BinOp::Div),
        Instr::F32Min
        | Instr::F64Min => Operation::Binary(BinOp::Min),
        Instr::F32Max
        | Instr::F64Max => Operation::Binary(BinOp::Max),
        Instr::F32Copysign
        | Instr::F64Copysign => Operation::Binary(BinOp::Copysign),
        Instr::I32WrapI64 => Operation::Unary(UnOp::I32WrapI64),
        Instr::I32TruncF32S
        | Instr::I32TruncF64S => Operation::Unary(UnOp::I32TruncS),
        Instr::I32TruncF32U
        | Instr::I32TruncF64U => Operation::Unary(UnOp::I32TruncU),
        Instr::I64ExtendI32S => Operation::Unary(UnOp::I64ExtendI32S),
        Instr::I64ExtendI32U => Operation::Unary(UnOp::I64ExtendI32U),
        Instr::F32ConvertI32S
        | Instr::F32ConvertI64S => Operation::Unary(UnOp::F32ConvertS),
        Instr::F32ConvertI32U
        | Instr::F32ConvertI64U => Operation::Unary(UnOp::F32ConvertU),
        Instr::F32DemoteF64 => Operation::Unary(UnOp::F32DemoteF64),
        Instr::F64ConvertI32S
        | Instr::F64ConvertI64S => Operation::Unary(UnOp::F64ConvertS),
        Instr::F64ConvertI32U
        | Instr::F64ConvertI64U => Operation::Unary(UnOp::F64ConvertU),
        Instr::F64PromoteF32 => Operation::Unary(UnOp::F64PromoteF32),
        Instr::I32ReinterpretF32 => Operation::Unary(UnOp::I32ReinterpretF32),
        Instr::I64ReinterpretF64 => Operation::Unary(UnOp::I64ReinterpretF64),
        Instr::F32ReinterpretI32 => Operation::Unary(UnOp::F32ReinterpretI32),
        Instr::F64ReinterpretI64 => Operation::Unary(UnOp::F64ReinterpretI64),
        Instr::I32Extend8S => Operation::Unary(UnOp::I32Extend8S),
        Instr::I32Extend16S => Operation::Unary(UnOp::I32Extend16S),
        Instr::I64Extend8S => Operation::Unary(UnOp::I64Extend8S),
        Instr::I64Extend16S => Operation::Unary(UnOp::I64Extend16S),
        Instr::I64Extend32S => Operation::Unary(UnOp::I64Extend32S),
        _ => Operation::Unsupported,
    }
}

} // verus!
