//! The instruction set, as one flat enumeration.

use crate::types::{RefType, ValueType};
use crate::views::views;
use vstd::prelude::*;

verus! {

/// What a block leaves on the operand stack.
#[derive(Clone, Copy, Debug, PartialEq, Eq, Structural)]
pub enum BlockType {
    Empty,
    Value(ValueType),
    TypeIndex(u32),
}

/// The number of results of a block type that names no function type.
pub open spec fn block_result_count(t: BlockType) -> Option<usize> {
    match t {
        BlockType::Empty => Some(0usize),
        BlockType::Value(_) => Some(1usize),
        BlockType::TypeIndex(_) => None,
    }
}

impl BlockType {
    /// How many values the block leaves; `None` where the block type is an
    /// index into the type section.
    pub fn result_count(&self) -> (r: Option<usize>)
        ensures
            r == block_result_count(*self),
    {
        match self {
            BlockType::Empty => Some(0),
            BlockType::Value(_) => Some(1),
            BlockType::TypeIndex(_) => None,
        }
    }
}

/// The header of a `block`, `loop` or `if`. Bodies are not nested: the
/// instructions of the block follow in the same flat sequence.
#[derive(Clone, Copy, Debug, PartialEq, Eq, Structural)]
pub struct Block {
    pub block_type: BlockType,
}

/// The alignment hint and the constant offset of a memory access.
#[derive(Clone, Copy, Debug, PartialEq, Eq, Structural)]
pub struct MemArg {
    pub align: u32,
    pub offset: u32,
}

/// One instruction. `L` is the list of labels of a `br_table` and `T` the
/// list of types of a typed `select`: vectors in executable code, sequences
/// in specifications. Floating-point constants are held as their bits.
#[derive(Clone, Debug, PartialEq)]
pub enum Instr<L, T> {
    Unreachable,
    Nop,
    Block { block: Block },
    Loop { block: Block },
    If { block: Block },
    Else,
    End,
    Br { level: u32 },
    BrIf { level: u32 },
    BrTable { label_indexes: L, default_index: u32 },
    Return,
    Call { func_index: u32 },
    CallIndirect { type_index: u32, table_index: u32 },
    RefNull { ref_type: RefType },
    RefIsNull,
    RefFunc { func_index: u32 },
    Drop,
    Select { result_types: Option<T> },
    LocalGet { local_index: u32 },
    LocalSet { local_index: u32 },
    LocalTee { local_index: u32 },
    GlobalGet { global_index: u32 },
    GlobalSet { global_index: u32 },
    TableGet { table_index: u32 },
    TableSet { table_index: u32 },
    TableInit { element_index: u32, table_index: u32 },
    ElemDrop { element_index: u32 },
    TableCopy { dst_table_index: u32, src_table_index: u32 },
    TableGrow { table_index: u32 },
    TableSize { table_index: u32 },
    TableFill { table_index: u32 },
    I32Load { mem_arg: MemArg },
    I64Load { mem_arg: MemArg },
    F32Load { mem_arg: MemArg },
    F64Load { mem_arg: MemArg },
    I32Load8S { mem_arg: MemArg },
    I32Load8U { mem_arg: MemArg },
    I32Load16S { mem_arg: MemArg },
    I32Load16U { mem_arg: MemArg },
    I64Load8S { mem_arg: MemArg },
    I64Load8U { mem_arg: MemArg },
    I64Load16S { mem_arg: MemArg },
    I64Load16U { mem_arg: MemArg },
    I64Load32S { mem_arg: MemArg },
    I64Load32U { mem_arg: MemArg },
    I32Store { mem_arg: MemArg },
    I64Store { mem_arg: MemArg },
    F32Store { mem_arg: MemArg },
    F64Store { mem_arg: MemArg },
    I32Store8 { mem_arg: MemArg },
    I32Store16 { mem_arg: MemArg },
    I64Store8 { mem_arg: MemArg },
    I64Store16 { mem_arg: MemArg },
    I64Store32 { mem_arg: MemArg },
    MemorySize,
    MemoryGrow,
    MemoryInit { data_index: u32 },
    DataDrop { data_index: u32 },
    MemoryCopy,
    MemoryFill,
    I32Const { value: i32 },
    I64Const { value: i64 },
    F32Const { value: u32 },
    F64Const { value: u64 },
    I32Eqz,
    I32Eq,
    I32Ne,
    I32LtS,
    I32LtU,
    I32GtS,
    I32GtU,
    I32LeS,
    I32LeU,
    I32GeS,
    I32GeU,
    I64Eqz,
    I64Eq,
    I64Ne,
    I64LtS,
    I64LtU,
    I64GtS,
    I64GtU,
    I64LeS,
    I64LeU,
    I64GeS,
    I64GeU,
    F32Eq,
    F32Ne,
    F32Lt,
    F32Gt,
    F32Le,
    F32Ge,
    F64Eq,
    F64Ne,
    F64Lt,
    F64Gt,
    F64Le,
    F64Ge,
    I32Clz,
    I32Ctz,
    I32Popcnt,
    I32Add,
    I32Sub,
    I32Mul,
    I32DivS,
    I32DivU,
    I32RemS,
    I32RemU,
    I32And,
    I32Or,
    I32Xor,
    I32Shl,
    I32ShrS,
    I32ShrU,
    I32Rotl,
    I32Rotr,
    I64Clz,
    I64Ctz,
    I64Popcnt,
    I64Add,
    I64Sub,
    I64Mul,
    I64DivS,
    I64DivU,
    I64RemS,
    I64RemU,
    I64And,
    I64Or,
    I64Xor,
    I64Shl,
    I64ShrS,
    I64ShrU,
    I64Rotl,
    I64Rotr,
    F32Abs,
    F32Neg,
    F32Ceil,
    F32Floor,
    F32Trunc,
    F32Nearest,
    F32Sqrt,
    F32Add,
    F32Sub,
    F32Mul,
    F32Div,
    F32Min,
    F32Max,
    F32Copysign,
    F64Abs,
    F64Neg,
    F64Ceil,
    F64Floor,
    F64Trunc,
    F64Nearest,
    F64Sqrt,
    F64Add,
    F64Sub,
    F64Mul,
    F64Div,
    F64Min,
    F64Max,
    F64Copysign,
    I32WrapI64,
    I32TruncF32S,
    I32TruncF32U,
    I32TruncF64S,
    I32TruncF64U,
    I64ExtendI32S,
    I64ExtendI32U,
    I64TruncF32S,
    I64TruncF32U,
    I64TruncF64S,
    I64TruncF64U,
    F32ConvertI32S,
    F32ConvertI32U,
    F32ConvertI64S,
    F32ConvertI64U,
    F32DemoteF64,
    F64ConvertI32S,
    F64ConvertI32U,
    F64ConvertI64S,
    F64ConvertI64U,
    F64PromoteF32,
    I32ReinterpretF32,
    I64ReinterpretF64,
    F32ReinterpretI32,
    F64ReinterpretI64,
    I32Extend8S,
    I32Extend16S,
    I64Extend8S,
    I64Extend16S,
    I64Extend32S,
}

/// An instruction as the decoder builds it and the machine runs it.
pub type Instruction = Instr<Vec<u32>, Vec<ValueType>>;

/// An instruction as specifications see it.
pub type InstructionView = Instr<Seq<u32>, Seq<ValueType>>;

impl View for Instruction {
    type V = InstructionView;

    open spec fn view(&self) -> InstructionView {
        match *self {
            Instr::Unreachable => Instr::Unreachable,
            Instr::Nop => Instr::Nop,
            Instr::Block { block } => Instr::Block { block },
            Instr::Loop { block } => Instr::Loop { block },
            Instr::If { block } => Instr::If { block },
            Instr::Else => Instr::Else,
            Instr::End => Instr::End,
            Instr::Br { level } => Instr::Br { level },
            Instr::BrIf { level } => Instr::BrIf { level },
            Instr::BrTable { label_indexes, default_index } => Instr::BrTable {
                label_indexes: label_indexes@,
                default_index,
            },
            Instr::Return => Instr::Return,
            Instr::Call { func_index } => Instr::Call { func_index },
            Instr::CallIndirect { type_index, table_index } => Instr::CallIndirect {
                type_index,
                table_index,
            },
            Instr::RefNull { ref_type } => Instr::RefNull { ref_type },
            Instr::RefIsNull => Instr::RefIsNull,
            Instr::RefFunc { func_index } => Instr::RefFunc { func_index },
            Instr::Drop => Instr::Drop,
            Instr::Select { result_types } => Instr::Select {
                result_types: match result_types { Some(v) => Some(v@), None => None },
            },
            Instr::LocalGet { local_index } => Instr::LocalGet { local_index },
            Instr::LocalSet { local_index } => Instr::LocalSet { local_index },
            Instr::LocalTee { local_index } => Instr::LocalTee { local_index },
            Instr::GlobalGet { global_index } => Instr::GlobalGet { global_index },
            Instr::GlobalSet { global_index } => Instr::GlobalSet { global_index },
            Instr::TableGet { table_index } => Instr::TableGet { table_index },
            Instr::TableSet { table_index } => Instr::TableSet { table_index },
            Instr::TableInit { element_index, table_index } => Instr::TableInit {
                element_index,
                table_index,
            },
            Instr::ElemDrop { element_index } => Instr::ElemDrop { element_index },
            Instr::TableCopy { dst_table_index, src_table_index } => Instr::TableCopy {
                dst_table_index,
                src_table_index,
            },
            Instr::TableGrow { table_index } => Instr::TableGrow { table_index },
            Instr::TableSize { table_index } => Instr::TableSize { table_index },
            Instr::TableFill { table_index } => Instr::TableFill { table_index },
            Instr::I32Load { mem_arg } => Instr::I32Load { mem_arg },
            Instr::I64Load { mem_arg } => Instr::I64Load { mem_arg },
            Instr::F32Load { mem_arg } => Instr::F32Load { mem_arg },
            Instr::F64Load { mem_arg } => Instr::F64Load { mem_arg },
            Instr::I32Load8S { mem_arg } => Instr::I32Load8S { mem_arg },
            Instr::I32Load8U { mem_arg } => Instr::I32Load8U { mem_arg },
            Instr::I32Load16S { mem_arg } => Instr::I32Load16S { mem_arg },
            Instr::I32Load16U { mem_arg } => Instr::I32Load16U { mem_arg },
            Instr::I64Load8S { mem_arg } => Instr::I64Load8S { mem_arg },
            Instr::I64Load8U { mem_arg } => Instr::I64Load8U { mem_arg },
            Instr::I64Load16S { mem_arg } => Instr::I64Load16S { mem_arg },
            Instr::I64Load16U { mem_arg } => Instr::I64Load16U { mem_arg },
            Instr::I64Load32S { mem_arg } => Instr::I64Load32S { mem_arg },
            Instr::I64Load32U { mem_arg } => Instr::I64Load32U { mem_arg },
            Instr::I32Store { mem_arg } => Instr::I32Store { mem_arg },
            Instr::I64Store { mem_arg } => Instr::I64Store { mem_arg },
            Instr::F32Store { mem_arg } => Instr::F32Store { mem_arg },
            Instr::F64Store { mem_arg } => Instr::F64Store { mem_arg },
            Instr::I32Store8 { mem_arg } => Instr::I32Store8 { mem_arg },
            Instr::I32Store16 { mem_arg } => Instr::I32Store16 { mem_arg },
            Instr::I64Store8 { mem_arg } => Instr::I64Store8 { mem_arg },
            Instr::I64Store16 { mem_arg } => Instr::I64Store16 { mem_arg },
            Instr::I64Store32 { mem_arg } => Instr::I64Store32 { mem_arg },
            Instr::MemorySize => Instr::MemorySize,
            Instr::MemoryGrow => Instr::MemoryGrow,
            Instr::MemoryInit { data_index } => Instr::MemoryInit { data_index },
            Instr::DataDrop { data_index } => Instr::DataDrop { data_index },
            Instr::MemoryCopy => Instr::MemoryCopy,
            Instr::MemoryFill => Instr::MemoryFill,
            Instr::I32Const { value } => Instr::I32Const { value },
            Instr::I64Const { value } => Instr::I64Const { value },
            Instr::F32Const { value } => Instr::F32Const { value },
            Instr::F64Const { value } => Instr::F64Const { value },
            Instr::I32Eqz => Instr::I32Eqz,
            Instr::I32Eq => Instr::I32Eq,
            Instr::I32Ne => Instr::I32Ne,
            Instr::I32LtS => Instr::I32LtS,
            Instr::I32LtU => Instr::I32LtU,
            Instr::I32GtS => Instr::I32GtS,
            Instr::I32GtU => Instr::I32GtU,
            Instr::I32LeS => Instr::I32LeS,
            Instr::I32LeU => Instr::I32LeU,
            Instr::I32GeS => Instr::I32GeS,
            Instr::I32GeU => Instr::I32GeU,
            Instr::I64Eqz => Instr::I64Eqz,
            Instr::I64Eq => Instr::I64Eq,
            Instr::I64Ne => Instr::I64Ne,
            Instr::I64LtS => Instr::I64LtS,
            Instr::I64LtU => Instr::I64LtU,
            Instr::I64GtS => Instr::I64GtS,
            Instr::I64GtU => Instr::I64GtU,
            Instr::I64LeS => Instr::I64LeS,
            Instr::I64LeU => Instr::I64LeU,
            Instr::I64GeS => Instr::I64GeS,
            Instr::I64GeU => Instr::I64GeU,
            Instr::F32Eq => Instr::F32Eq,
            Instr::F32Ne => Instr::F32Ne,
            Instr::F32Lt => Instr::F32Lt,
            Instr::F32Gt => Instr::F32Gt,
            Instr::F32Le => Instr::F32Le,
            Instr::F32Ge => Instr::F32Ge,
            Instr::F64Eq => Instr::F64Eq,
            Instr::F64Ne => Instr::F64Ne,
            Instr::F64Lt => Instr::F64Lt,
            Instr::F64Gt => Instr::F64Gt,
            Instr::F64Le => Instr::F64Le,
            Instr::F64Ge => Instr::F64Ge,
            Instr::I32Clz => Instr::I32Clz,
            Instr::I32Ctz => Instr::I32Ctz,
            Instr::I32Popcnt => Instr::I32Popcnt,
            Instr::I32Add => Instr::I32Add,
            Instr::I32Sub => Instr::I32Sub,
            Instr::I32Mul => Instr::I32Mul,
            Instr::I32DivS => Instr::I32DivS,
            Instr::I32DivU => Instr::I32DivU,
            Instr::I32RemS => Instr::I32RemS,
            Instr::I32RemU => Instr::I32RemU,
            Instr::I32And => Instr::I32And,
            Instr::I32Or => Instr::I32Or,
            Instr::I32Xor => Instr::I32Xor,
            Instr::I32Shl => Instr::I32Shl,
            Instr::I32ShrS => Instr::I32ShrS,
            Instr::I32ShrU => Instr::I32ShrU,
            Instr::I32Rotl => Instr::I32Rotl,
            Instr::I32Rotr => Instr::I32Rotr,
            Instr::I64Clz => Instr::I64Clz,
            Instr::I64Ctz => Instr::I64Ctz,
            Instr::I64Popcnt => Instr::I64Popcnt,
            Instr::I64Add => Instr::I64Add,
            Instr::I64Sub => Instr::I64Sub,
            Instr::I64Mul => Instr::I64Mul,
            Instr::I64DivS => Instr::I64DivS,
            Instr::I64DivU => Instr::I64DivU,
            Instr::I64RemS => Instr::I64RemS,
            Instr::I64RemU => Instr::I64RemU,
            Instr::I64And => Instr::I64And,
            Instr::I64Or => Instr::I64Or,
            Instr::I64Xor => Instr::I64Xor,
            Instr::I64Shl => Instr::I64Shl,
            Instr::I64ShrS => Instr::I64ShrS,
            Instr::I64ShrU => Instr::I64ShrU,
            Instr::I64Rotl => Instr::I64Rotl,
            Instr::I64Rotr => Instr::I64Rotr,
            Instr::F32Abs => Instr::F32Abs,
            Instr::F32Neg => Instr::F32Neg,
            Instr::F32Ceil => Instr::F32Ceil,
            Instr::F32Floor => Instr::F32Floor,
            Instr::F32Trunc => Instr::F32Trunc,
            Instr::F32Nearest => Instr::F32Nearest,
            Instr::F32Sqrt => Instr::F32Sqrt,
            Instr::F32Add => Instr::F32Add,
            Instr::F32Sub => Instr::F32Sub,
            Instr::F32Mul => Instr::F32Mul,
            Instr::F32Div => Instr::F32Div,
            Instr::F32Min => Instr::F32Min,
            Instr::F32Max => Instr::F32Max,
            Instr::F32Copysign => Instr::F32Copysign,
            Instr::F64Abs => Instr::F64Abs,
            Instr::F64Neg => Instr::F64Neg,
            Instr::F64Ceil => Instr::F64Ceil,
            Instr::F64Floor => Instr::F64Floor,
            Instr::F64Trunc => Instr::F64Trunc,
            Instr::F64Nearest => Instr::F64Nearest,
            Instr::F64Sqrt => Instr::F64Sqrt,
            Instr::F64Add => Instr::F64Add,
            Instr::F64Sub => Instr::F64Sub,
            Instr::F64Mul => Instr::F64Mul,
            Instr::F64Div => Instr::F64Div,
            Instr::F64Min => Instr::F64Min,
            Instr::F64Max => Instr::F64Max,
            Instr::F64Copysign => Instr::F64Copysign,
            Instr::I32WrapI64 => Instr::I32WrapI64,
            Instr::I32TruncF32S => Instr::I32TruncF32S,
            Instr::I32TruncF32U => Instr::I32TruncF32U,
            Instr::I32TruncF64S => Instr::I32TruncF64S,
            Instr::I32TruncF64U => Instr::I32TruncF64U,
            Instr::I64ExtendI32S => Instr::I64ExtendI32S,
            Instr::I64ExtendI32U => Instr::I64ExtendI32U,
            Instr::I64TruncF32S => Instr::I64TruncF32S,
            Instr::I64TruncF32U => Instr::I64TruncF32U,
            Instr::I64TruncF64S => Instr::I64TruncF64S,
            Instr::I64TruncF64U => Instr::I64TruncF64U,
            Instr::F32ConvertI32S => Instr::F32ConvertI32S,
            Instr::F32ConvertI32U => Instr::F32ConvertI32U,
            Instr::F32ConvertI64S => Instr::F32ConvertI64S,
            Instr::F32ConvertI64U => Instr::F32ConvertI64U,
            Instr::F32DemoteF64 => Instr::F32DemoteF64,
            Instr::F64ConvertI32S => Instr::F64ConvertI32S,
            Instr::F64ConvertI32U => Instr::F64ConvertI32U,
            Instr::F64ConvertI64S => Instr::F64ConvertI64S,
            Instr::F64ConvertI64U => Instr::F64ConvertI64U,
            Instr::F64PromoteF32 => Instr::F64PromoteF32,
            Instr::I32ReinterpretF32 => Instr::I32ReinterpretF32,
            Instr::I64ReinterpretF64 => Instr::I64ReinterpretF64,
            Instr::F32ReinterpretI32 => Instr::F32ReinterpretI32,
            Instr::F64ReinterpretI64 => Instr::F64ReinterpretI64,
            Instr::I32Extend8S => Instr::I32Extend8S,
            Instr::I32Extend16S => Instr::I32Extend16S,
            Instr::I64Extend8S => Instr::I64Extend8S,
            Instr::I64Extend16S => Instr::I64Extend16S,
            Instr::I64Extend32S => Instr::I64Extend32S,
        }
    }
}

/// Copies a list of integers.
pub fn copy_u32s(v: &Vec<u32>) -> (r: Vec<u32>)
    ensures
        r@ == v@,
{
    let mut r: Vec<u32> = Vec::new();
    let mut i: usize = 0;
    while i < v.len()
        invariant
            i <= v.len(),
            r@ == v@.subrange(0, i as int),
        decreases v.len() - i,
    {
        r.push(v[i]);
        proof {
            assert(r@ =~= v@.subrange(0, i + 1));
        }
        i = i + 1;
    }
    proof {
        assert(r@ =~= v@);
    }
    r
}

/// Copies a list of value types.
pub fn copy_value_types(v: &Vec<ValueType>) -> (r: Vec<ValueType>)
    ensures
        r@ == v@,
{
    let mut r: Vec<ValueType> = Vec::new();
    let mut i: usize = 0;
    while i < v.len()
        invariant
            i <= v.len(),
            r@ == v@.subrange(0, i as int),
        decreases v.len() - i,
    {
        r.push(v[i]);
        proof {
            assert(r@ =~= v@.subrange(0, i + 1));
        }
        i = i + 1;
    }
    proof {
        assert(r@ =~= v@);
    }
    r
}

impl Instr<Vec<u32>, Vec<ValueType>> {
    /// A copy of the instruction: one with the same view.
    pub fn duplicate(&self) -> (r: Instruction)
        ensures
            r@ == self@,
    {
        match self {
            Instr::Unreachable => Instr::Unreachable,
            Instr::Nop => Instr::Nop,
            Instr::Block { block } => Instr::Block { block: *block },
            Instr::Loop { block } => Instr::Loop { block: *block },
            Instr::If { block } => Instr::If { block: *block },
            Instr::Else => Instr::Else,
            Instr::End => Instr::End,
            Instr::Br { level } => Instr::Br { level: *level },
            Instr::BrIf { level } => Instr::BrIf { level: *level },
            Instr::BrTable { label_indexes, default_index } => Instr::BrTable {
                label_indexes: copy_u32s(label_indexes),
                default_index: *default_index,
            },
            Instr::Return => Instr::Return,
            Instr::Call { func_index } => Instr::Call { func_index: *func_index },
            Instr::CallIndirect { type_index, table_index } => Instr::CallIndirect {
                type_index: *type_index,
                table_index: *table_index,
            },
            Instr::RefNull { ref_type } => Instr::RefNull { ref_type: *ref_type },
            Instr::RefIsNull => Instr::RefIsNull,
            Instr::RefFunc { func_index } => Instr::RefFunc { func_index: *func_index },
            Instr::Drop => Instr::Drop,
            Instr::Select { result_types } => Instr::Select {
                result_types: match result_types { Some(v) => Some(copy_value_types(v)), None => None },
            },
            Instr::LocalGet { local_index } => Instr::LocalGet { local_index: *local_index },
            Instr::LocalSet { local_index } => Instr::LocalSet { local_index: *local_index },
            Instr::LocalTee { local_index } => Instr::LocalTee { local_index: *local_index },
            Instr::GlobalGet { global_index } => Instr::GlobalGet { global_index: *global_index },
            Instr::GlobalSet { global_index } => Instr::GlobalSet { global_index: *global_index },
            Instr::TableGet { table_index } => Instr::TableGet { table_index: *table_index },
            Instr::TableSet { table_index } => Instr::TableSet { table_index: *table_index },
            Instr::TableInit { element_index, table_index } => Instr::TableInit {
                element_index: *element_index,
                table_index: *table_index,
            },
            Instr::ElemDrop { element_index } => Instr::ElemDrop { element_index: *element_index },
            Instr::TableCopy { dst_table_index, src_table_index } => Instr::TableCopy {
                dst_table_index: *dst_table_index,
                src_table_index: *src_table_index,
            },
            Instr::TableGrow { table_index } => Instr::TableGrow { table_index: *table_index },
            Instr::TableSize { table_index } => Instr::TableSize { table_index: *table_index },
            Instr::TableFill { table_index } => Instr::TableFill { table_index: *table_index },
            Instr::I32Load { mem_arg } => Instr::I32Load { mem_arg: *mem_arg },
            Instr::I64Load { mem_arg } => Instr::I64Load { mem_arg: *mem_arg },
            Instr::F32Load { mem_arg } => Instr::F32Load { mem_arg: *mem_arg },
            Instr::F64Load { mem_arg } => Instr::F64Load { mem_arg: *mem_arg },
            Instr::I32Load8S { mem_arg } => Instr::I32Load8S { mem_arg: *mem_arg },
            Instr::I32Load8U { mem_arg } => Instr::I32Load8U { mem_arg: *mem_arg },
            Instr::I32Load16S { mem_arg } => Instr::I32Load16S { mem_arg: *mem_arg },
            Instr::I32Load16U { mem_arg } => Instr::I32Load16U { mem_arg: *mem_arg },
            Instr::I64Load8S { mem_arg } => Instr::I64Load8S { mem_arg: *mem_arg },
            Instr::I64Load8U { mem_arg } => Instr::I64Load8U { mem_arg: *mem_arg },
            Instr::I64Load16S { mem_arg } => Instr::I64Load16S { mem_arg: *mem_arg },
            Instr::I64Load16U { mem_arg } => Instr::I64Load16U { mem_arg: *mem_arg },
            Instr::I64Load32S { mem_arg } => Instr::I64Load32S { mem_arg: *mem_arg },
            Instr::I64Load32U { mem_arg } => Instr::I64Load32U { mem_arg: *mem_arg },
            Instr::I32Store { mem_arg } => Instr::I32Store { mem_arg: *mem_arg },
            Instr::I64Store { mem_arg } => Instr::I64Store { mem_arg: *mem_arg },
            Instr::F32Store { mem_arg } => Instr::F32Store { mem_arg: *mem_arg },
            Instr::F64Store { mem_arg } => Instr::F64Store { mem_arg: *mem_arg },
            Instr::I32Store8 { mem_arg } => Instr::I32Store8 { mem_arg: *mem_arg },
            Instr::I32Store16 { mem_arg } => Instr::I32Store16 { mem_arg: *mem_arg },
            Instr::I64Store8 { mem_arg } => Instr::I64Store8 { mem_arg: *mem_arg },
            Instr::I64Store16 { mem_arg } => Instr::I64Store16 { mem_arg: *mem_arg },
            Instr::I64Store32 { mem_arg } => Instr::I64Store32 { mem_arg: *mem_arg },
            Instr::MemorySize => Instr::MemorySize,
            Instr::MemoryGrow => Instr::MemoryGrow,
            Instr::MemoryInit { data_index } => Instr::MemoryInit { data_index: *data_index },
            Instr::DataDrop { data_index } => Instr::DataDrop { data_index: *data_index },
            Instr::MemoryCopy => Instr::MemoryCopy,
            Instr::MemoryFill => Instr::MemoryFill,
            Instr::I32Const { value } => Instr::I32Const { value: *value },
            Instr::I64Const { value } => Instr::I64Const { value: *value },
            Instr::F32Const { value } => Instr::F32Const { value: *value },
            Instr::F64Const { value } => Instr::F64Const { value: *value },
            Instr::I32Eqz => Instr::I32Eqz,
            Instr::I32Eq => Instr::I32Eq,
            Instr::I32Ne => Instr::I32Ne,
            Instr::I32LtS => Instr::I32LtS,
            Instr::I32LtU => Instr::I32LtU,
            Instr::I32GtS => Instr::I32GtS,
            Instr::I32GtU => Instr::I32GtU,
            Instr::I32LeS => Instr::I32LeS,
            Instr::I32LeU => Instr::I32LeU,
            Instr::I32GeS => Instr::I32GeS,
            Instr::I32GeU => Instr::I32GeU,
            Instr::I64Eqz => Instr::I64Eqz,
            Instr::I64Eq => Instr::I64Eq,
            Instr::I64Ne => Instr::I64Ne,
            Instr::I64LtS => Instr::I64LtS,
            Instr::I64LtU => Instr::I64LtU,
            Instr::I64GtS => Instr::I64GtS,
            Instr::I64GtU => Instr::I64GtU,
            Instr::I64LeS => Instr::I64LeS,
            Instr::I64LeU => Instr::I64LeU,
            Instr::I64GeS => Instr::I64GeS,
            Instr::I64GeU => Instr::I64GeU,
            Instr::F32Eq => Instr::F32Eq,
            Instr::F32Ne => Instr::F32Ne,
            Instr::F32Lt => Instr::F32Lt,
            Instr::F32Gt => Instr::F32Gt,
            Instr::F32Le => Instr::F32Le,
            Instr::F32Ge => Instr::F32Ge,
            Instr::F64Eq => Instr::F64Eq,
            Instr::F64Ne => Instr::F64Ne,
            Instr::F64Lt => Instr::F64Lt,
            Instr::F64Gt => Instr::F64Gt,
            Instr::F64Le => Instr::F64Le,
            Instr::F64Ge => Instr::F64Ge,
            Instr::I32Clz => Instr::I32Clz,
            Instr::I32Ctz => Instr::I32Ctz,
            Instr::I32Popcnt => Instr::I32Popcnt,
            Instr::I32Add => Instr::I32Add,
            Instr::I32Sub => Instr::I32Sub,
            Instr::I32Mul => Instr::I32Mul,
            Instr::I32DivS => Instr::I32DivS,
            Instr::I32DivU => Instr::I32DivU,
            Instr::I32RemS => Instr::I32RemS,
            Instr::I32RemU => Instr::I32RemU,
            Instr::I32And => Instr::I32And,
            Instr::I32Or => Instr::I32Or,
            Instr::I32Xor => Instr::I32Xor,
            Instr::I32Shl => Instr::I32Shl,
            Instr::I32ShrS => Instr::I32ShrS,
            Instr::I32ShrU => Instr::I32ShrU,
            Instr::I32Rotl => Instr::I32Rotl,
            Instr::I32Rotr => Instr::I32Rotr,
            Instr::I64Clz => Instr::I64Clz,
            Instr::I64Ctz => Instr::I64Ctz,
            Instr::I64Popcnt => Instr::I64Popcnt,
            Instr::I64Add => Instr::I64Add,
            Instr::I64Sub => Instr::I64Sub,
            Instr::I64Mul => Instr::I64Mul,
            Instr::I64DivS => Instr::I64DivS,
            Instr::I64DivU => Instr::I64DivU,
            Instr::I64RemS => Instr::I64RemS,
            Instr::I64RemU => Instr::I64RemU,
            Instr::I64And => Instr::I64And,
            Instr::I64Or => Instr::I64Or,
            Instr::I64Xor => Instr::I64Xor,
            Instr::I64Shl => Instr::I64Shl,
            Instr::I64ShrS => Instr::I64ShrS,
            Instr::I64ShrU => Instr::I64ShrU,
            Instr::I64Rotl => Instr::I64Rotl,
            Instr::I64Rotr => Instr::I64Rotr,
            Instr::F32Abs => Instr::F32Abs,
            Instr::F32Neg => Instr::F32Neg,
            Instr::F32Ceil => Instr::F32Ceil,
            Instr::F32Floor => Instr::F32Floor,
            Instr::F32Trunc => Instr::F32Trunc,
            Instr::F32Nearest => Instr::F32Nearest,
            Instr::F32Sqrt => Instr::F32Sqrt,
            Instr::F32Add => Instr::F32Add,
            Instr::F32Sub => Instr::F32Sub,
            Instr::F32Mul => Instr::F32Mul,
            Instr::F32Div => Instr::F32Div,
            Instr::F32Min => Instr::F32Min,
            Instr::F32Max => Instr::F32Max,
            Instr::F32Copysign => Instr::F32Copysign,
            Instr::F64Abs => Instr::F64Abs,
            Instr::F64Neg => Instr::F64Neg,
            Instr::F64Ceil => Instr::F64Ceil,
            Instr::F64Floor => Instr::F64Floor,
            Instr::F64Trunc => Instr::F64Trunc,
            Instr::F64Nearest => Instr::F64Nearest,
            Instr::F64Sqrt => Instr::F64Sqrt,
            Instr::F64Add => Instr::F64Add,
            Instr::F64Sub => Instr::F64Sub,
            Instr::F64Mul => Instr::F64Mul,
            Instr::F64Div => Instr::F64Div,
            Instr::F64Min => Instr::F64Min,
            Instr::F64Max => Instr::F64Max,
            Instr::F64Copysign => Instr::F64Copysign,
            Instr::I32WrapI64 => Instr::I32WrapI64,
            Instr::I32TruncF32S => Instr::I32TruncF32S,
            Instr::I32TruncF32U => Instr::I32TruncF32U,
            Instr::I32TruncF64S => Instr::I32TruncF64S,
            Instr::I32TruncF64U => Instr::I32TruncF64U,
            Instr::I64ExtendI32S => Instr::I64ExtendI32S,
            Instr::I64ExtendI32U => Instr::I64ExtendI32U,
            Instr::I64TruncF32S => Instr::I64TruncF32S,
            Instr::I64TruncF32U => Instr::I64TruncF32U,
            Instr::I64TruncF64S => Instr::I64TruncF64S,
            Instr::I64TruncF64U => Instr::I64TruncF64U,
            Instr::F32ConvertI32S => Instr::F32ConvertI32S,
            Instr::F32ConvertI32U => Instr::F32ConvertI32U,
            Instr::F32ConvertI64S => Instr::F32ConvertI64S,
            Instr::F32ConvertI64U => Instr::F32ConvertI64U,
            Instr::F32DemoteF64 => Instr::F32DemoteF64,
            Instr::F64ConvertI32S => Instr::F64ConvertI32S,
            Instr::F64ConvertI32U => Instr::F64ConvertI32U,
            Instr::F64ConvertI64S => Instr::F64ConvertI64S,
            Instr::F64ConvertI64U => Instr::F64ConvertI64U,
            Instr::F64PromoteF32 => Instr::F64PromoteF32,
            Instr::I32ReinterpretF32 => Instr::I32ReinterpretF32,
            Instr::I64ReinterpretF64 => Instr::I64ReinterpretF64,
            Instr::F32ReinterpretI32 => Instr::F32ReinterpretI32,
            Instr::F64ReinterpretI64 => Instr::F64ReinterpretI64,
            Instr::I32Extend8S => Instr::I32Extend8S,
            Instr::I32Extend16S => Instr::I32Extend16S,
            Instr::I64Extend8S => Instr::I64Extend8S,
            Instr::I64Extend16S => Instr::I64Extend16S,
            Instr::I64Extend32S => Instr::I64Extend32S,
        }
    }
}

/// Copies a list of instructions.
pub fn copy_instructions(code: &Vec<Instruction>) -> (r: Vec<Instruction>)
    ensures
        views(r@) == views(code@),
{
    let mut r: Vec<Instruction> = Vec::new();
    let mut i: usize = 0;
    while i < code.len()
        invariant
            i <= code.len(),
            r.len() == i,
            forall|j: int| 0 <= j < i ==> (#[trigger] r@[j])@ == code@[j]@,
        decreases code.len() - i,
    {
        r.push(code[i].duplicate());
        i = i + 1;
    }
    proof {
        assert(views(r@) =~= views(code@));
    }
    r
}

/// The instruction that an opcode without operands stands for.
pub open spec fn plain_instruction(opcode: u8) -> Option<InstructionView> {
    if opcode == 0x00 {
        Some(Instr::Unreachable)
    } else if opcode == 0x01 {
        Some(Instr::Nop)
    } else if opcode == 0x05 {
        Some(Instr::Else)
    } else if opcode == 0x0B {
        Some(Instr::End)
    } else if opcode == 0x0F {
        Some(Instr::Return)
    } else if opcode == 0x1A {
        Some(Instr::Drop)
    } else if opcode == 0x45 {
        Some(Instr::I32Eqz)
    } else if opcode == 0x46 {
        Some(Instr::I32Eq)
    } else if opcode == 0x47 {
        Some(Instr::I32Ne)
    } else if opcode == 0x48 {
        Some(Instr::I32LtS)
    } else if opcode == 0x49 {
        Some(Instr::I32LtU)
    } else if opcode == 0x4A {
        Some(Instr::I32GtS)
    } else if opcode == 0x4B {
        Some(Instr::I32GtU)
    } else if opcode == 0x4C {
        Some(Instr::I32LeS)
    } else if opcode == 0x4D {
        Some(Instr::I32LeU)
    } else if opcode == 0x4E {
        Some(Instr::I32GeS)
    } else if opcode == 0x4F {
        Some(Instr::I32GeU)
    } else if opcode == 0x50 {
        Some(Instr::I64Eqz)
    } else if opcode == 0x51 {
        Some(Instr::I64Eq)
    } else if opcode == 0x52 {
        Some(Instr::I64Ne)
    } else if opcode == 0x53 {
        Some(Instr::I64LtS)
    } else if opcode == 0x54 {
        Some(Instr::I64LtU)
    } else if opcode == 0x55 {
        Some(Instr::I64GtS)
    } else if opcode == 0x56 {
        Some(Instr::I64GtU)
    } else if opcode == 0x57 {
        Some(Instr::I64LeS)
    } else if opcode == 0x58 {
        Some(Instr::I64LeU)
    } else if opcode == 0x59 {
        Some(Instr::I64GeS)
    } else if opcode == 0x5A {
        Some(Instr::I64GeU)
    } else if opcode == 0x5B {
        Some(Instr::F32Eq)
    } else if opcode == 0x5C {
        Some(Instr::F32Ne)
    } else if opcode == 0x5D {
        Some(Instr::F32Lt)
    } else if opcode == 0x5E {
        Some(Instr::F32Gt)
    } else if opcode == 0x5F {
        Some(Instr::F32Le)
    } else if opcode == 0x60 {
        Some(Instr::F32Ge)
    } else if opcode == 0x61 {
        Some(Instr::F64Eq)
    } else if opcode == 0x62 {
        Some(Instr::F64Ne)
    } else if opcode == 0x63 {
        Some(Instr::F64Lt)
    } else if opcode == 0x64 {
        Some(Instr::F64Gt)
    } else if opcode == 0x65 {
        Some(Instr::F64Le)
    } else if opcode == 0x66 {
        Some(Instr::F64Ge)
    } else if opcode == 0x67 {
        Some(Instr::I32Clz)
    } else if opcode == 0x68 {
        Some(Instr::I32Ctz)
    } else if opcode == 0x69 {
        Some(Instr::I32Popcnt)
    } else if opcode == 0x6A {
        Some(Instr::I32Add)
    } else if opcode == 0x6B {
        Some(Instr::I32Sub)
    } else if opcode == 0x6C {
        Some(Instr::I32Mul)
    } else if opcode == 0x6D {
        Some(Instr::I32DivS)
    } else if opcode == 0x6E {
        Some(Instr::I32DivU)
    } else if opcode == 0x6F {
        Some(Instr::I32RemS)
    } else if opcode == 0x70 {
        Some(Instr::I32RemU)
    } else if opcode == 0x71 {
        Some(Instr::I32And)
    } else if opcode == 0x72 {
        Some(Instr::I32Or)
    } else if opcode == 0x73 {
        Some(Instr::I32Xor)
    } else if opcode == 0x74 {
        Some(Instr::I32Shl)
    } else if opcode == 0x75 {
        Some(Instr::I32ShrS)
    } else if opcode == 0x76 {
        Some(Instr::I32ShrU)
    } else if opcode == 0x77 {
        Some(Instr::I32Rotl)
    } else if opcode == 0x78 {
        Some(Instr::I32Rotr)
    } else if opcode == 0x79 {
        Some(Instr::I64Clz)
    } else if opcode == 0x7A {
        Some(Instr::I64Ctz)
    } else if opcode == 0x7B {
        Some(Instr::I64Popcnt)
    } else if opcode == 0x7C {
        Some(Instr::I64Add)
    } else if opcode == 0x7D {
        Some(Instr::I64Sub)
    } else if opcode == 0x7E {
        Some(Instr::I64Mul)
    } else if opcode == 0x7F {
        Some(Instr::I64DivS)
    } else if opcode == 0x80 {
        Some(Instr::I64DivU)
    } else if opcode == 0x81 {
        Some(Instr::I64RemS)
    } else if opcode == 0x82 {
        Some(Instr::I64RemU)
    } else if opcode == 0x83 {
        Some(Instr::I64And)
    } else if opcode == 0x84 {
        Some(Instr::I64Or)
    } else if opcode == 0x85 {
        Some(Instr::I64Xor)
    } else if opcode == 0x86 {
        Some(Instr::I64Shl)
    } else if opcode == 0x87 {
        Some(Instr::I64ShrS)
    } else if opcode == 0x88 {
        Some(Instr::I64ShrU)
    } else if opcode == 0x89 {
        Some(Instr::I64Rotl)
    } else if opcode == 0x8A {
        Some(Instr::I64Rotr)
    } else if opcode == 0x8B {
        Some(Instr::F32Abs)
    } else if opcode == 0x8C {
        Some(Instr::F32Neg)
    } else if opcode == 0x8D {
        Some(Instr::F32Ceil)
    } else if opcode == 0x8E {
        Some(Instr::F32Floor)
    } else if opcode == 0x8F {
        Some(Instr::F32Trunc)
    } else if opcode == 0x90 {
        Some(Instr::F32Nearest)
    } else if opcode == 0x91 {
        Some(Instr::F32Sqrt)
    } else if opcode == 0x92 {
        Some(Instr::F32Add)
    } else if opcode == 0x93 {
        Some(Instr::F32Sub)
    } else if opcode == 0x94 {
        Some(Instr::F32Mul)
    } else if opcode == 0x95 {
        Some(Instr::F32Div)
    } else if opcode == 0x96 {
        Some(Instr::F32Min)
    } else if opcode == 0x97 {
        Some(Instr::F32Max)
    } else if opcode == 0x98 {
        Some(Instr::F32Copysign)
    } else if opcode == 0x99 {
        Some(Instr::F64Abs)
    } else if opcode == 0x9A {
        Some(Instr::F64Neg)
    } else if opcode == 0x9B {
        Some(Instr::F64Ceil)
    } else if opcode == 0x9C {
        Some(Instr::F64Floor)
    } else if opcode == 0x9D {
        Some(Instr::F64Trunc)
    } else if opcode == 0x9E {
        Some(Instr::F64Nearest)
    } else if opcode == 0x9F {
        Some(Instr::F64Sqrt)
    } else if opcode == 0xA0 {
        Some(Instr::F64Add)
    } else if opcode == 0xA1 {
        Some(Instr::F64Sub)
    } else if opcode == 0xA2 {
        Some(Instr::F64Mul)
    } else if opcode == 0xA3 {
        Some(Instr::F64Div)
    } else if opcode == 0xA4 {
        Some(Instr::F64Min)
    } else if opcode == 0xA5 {
        Some(Instr::F64Max)
    } else if opcode == 0xA6 {
        Some(Instr::F64Copysign)
    } else if opcode == 0xA7 {
        Some(Instr::I32WrapI64)
    } else if opcode == 0xA8 {
        Some(Instr::I32TruncF32S)
    } else if opcode == 0xA9 {
        Some(Instr::I32TruncF32U)
    } else if opcode == 0xAA {
        Some(Instr::I32TruncF64S)
    } else if opcode == 0xAB {
        Some(Instr::I32TruncF64U)
    } else if opcode == 0xAC {
        Some(Instr::I64ExtendI32S)
    } else if opcode == 0xAD {
        Some(Instr::I64ExtendI32U)
    } else if opcode == 0xAE {
        Some(Instr::I64TruncF32S)
    } else if opcode == 0xAF {
        Some(Instr::I64TruncF32U)
    } else if opcode == 0xB0 {
        Some(Instr::I64TruncF64S)
    } else if opcode == 0xB1 {
        Some(Instr::I64TruncF64U)
    } else if opcode == 0xB2 {
        Some(Instr::F32ConvertI32S)
    } else if opcode == 0xB3 {
        Some(Instr::F32ConvertI32U)
    } else if opcode == 0xB4 {
        Some(Instr::F32ConvertI64S)
    } else if opcode == 0xB5 {
        Some(Instr::F32ConvertI64U)
    } else if opcode == 0xB6 {
        Some(Instr::F32DemoteF64)
    } else if opcode == 0xB7 {
        Some(Instr::F64ConvertI32S)
    } else if opcode == 0xB8 {
        Some(Instr::F64ConvertI32U)
    } else if opcode == 0xB9 {
        Some(Instr::F64ConvertI64S)
    } else if opcode == 0xBA {
        Some(Instr::F64ConvertI64U)
    } else if opcode == 0xBB {
        Some(Instr::F64PromoteF32)
    } else if opcode == 0xBC {
        Some(Instr::I32ReinterpretF32)
    } else if opcode == 0xBD {
        Some(Instr::I64ReinterpretF64)
    } else if opcode == 0xBE {
        Some(Instr::F32ReinterpretI32)
    } else if opcode == 0xBF {
        Some(Instr::F64ReinterpretI64)
    } else if opcode == 0xC0 {
        Some(Instr::I32Extend8S)
    } else if opcode == 0xC1 {
        Some(Instr::I32Extend16S)
    } else if opcode == 0xC2 {
        Some(Instr::I64Extend8S)
    } else if opcode == 0xC3 {
        Some(Instr::I64Extend16S)
    } else if opcode == 0xC4 {
        Some(Instr::I64Extend32S)
    } else if opcode == 0xD1 {
        Some(Instr::RefIsNull)
    } else {
        None
    }
}

/// The instruction that `opcode` stands for where it takes no operands.
pub fn plain_instruction_of(opcode: u8) -> (r: Option<Instruction>)
    ensures
        match r {
            Some(i) => plain_instruction(opcode) == Some(i@),
            None => plain_instruction(opcode) is None,
        },
{
    match opcode {
        0x00 => Some(Instr::Unreachable),
        0x01 => Some(Instr::Nop),
        0x05 => Some(Instr::Else),
        0x0B => Some(Instr::End),
        0x0F => Some(Instr::Return),
        0x1A => Some(Instr::Drop),
        0x45 => Some(Instr::I32Eqz),
        0x46 => Some(Instr::I32Eq),
        0x47 => Some(Instr::I32Ne),
        0x48 => Some(Instr::I32LtS),
        0x49 => Some(Instr::I32LtU),
        0x4A => Some(Instr::I32GtS),
        0x4B => Some(Instr::I32GtU),
        0x4C => Some(Instr::I32LeS),
        0x4D => Some(Instr::I32LeU),
        0x4E => Some(Instr::I32GeS),
        0x4F => Some(Instr::I32GeU),
        0x50 => Some(Instr::I64Eqz),
        0x51 => Some(Instr::I64Eq),
        0x52 => Some(Instr::I64Ne),
        0x53 => Some(Instr::I64LtS),
        0x54 => Some(Instr::I64LtU),
        0x55 => Some(Instr::I64GtS),
        0x56 => Some(Instr::I64GtU),
        0x57 => Some(Instr::I64LeS),
        0x58 => Some(Instr::I64LeU),
        0x59 => Some(Instr::I64GeS),
        0x5A => Some(Instr::I64GeU),
        0x5B => Some(Instr::F32Eq),
        0x5C => Some(Instr::F32Ne),
        0x5D => Some(Instr::F32Lt),
        0x5E => Some(Instr::F32Gt),
        0x5F => Some(Instr::F32Le),
        0x60 => Some(Instr::F32Ge),
        0x61 => Some(Instr::F64Eq),
        0x62 => Some(Instr::F64Ne),
        0x63 => Some(Instr::F64Lt),
        0x64 => Some(Instr::F64Gt),
        0x65 => Some(Instr::F64Le),
        0x66 => Some(Instr::F64Ge),
        0x67 => Some(Instr::I32Clz),
        0x68 => Some(Instr::I32Ctz),
        0x69 => Some(Instr::I32Popcnt),
        0x6A => Some(Instr::I32Add),
        0x6B => Some(Instr::I32Sub),
        0x6C => Some(Instr::I32Mul),
        0x6D => Some(Instr::I32DivS),
        0x6E => Some(Instr::I32DivU),
        0x6F => Some(Instr::I32RemS),
        0x70 => Some(Instr::I32RemU),
        0x71 => Some(Instr::I32And),
        0x72 => Some(Instr::I32Or),
        0x73 => Some(Instr::I32Xor),
        0x74 => Some(Instr::I32Shl),
        0x75 => Some(Instr::I32ShrS),
        0x76 => Some(Instr::I32ShrU),
        0x77 => Some(Instr::I32Rotl),
        0x78 => Some(Instr::I32Rotr),
        0x79 => Some(Instr::I64Clz),
        0x7A => Some(Instr::I64Ctz),
        0x7B => Some(Instr::I64Popcnt),
        0x7C => Some(Instr::I64Add),
        0x7D => Some(Instr::I64Sub),
        0x7E => Some(Instr::I64Mul),
        0x7F => Some(Instr::I64DivS),
        0x80 => Some(Instr::I64DivU),
        0x81 => Some(Instr::I64RemS),
        0x82 => Some(Instr::I64RemU),
        0x83 => Some(Instr::I64And),
        0x84 => Some(Instr::I64Or),
        0x85 => Some(Instr::I64Xor),
        0x86 => Some(Instr::I64Shl),
        0x87 => Some(Instr::I64ShrS),
        0x88 => Some(Instr::I64ShrU),
        0x89 => Some(Instr::I64Rotl),
        0x8A => Some(Instr::I64Rotr),
        0x8B => Some(Instr::F32Abs),
        0x8C => Some(Instr::F32Neg),
        0x8D => Some(Instr::F32Ceil),
        0x8E => Some(Instr::F32Floor),
        0x8F => Some(Instr::F32Trunc),
        0x90 => Some(Instr::F32Nearest),
        0x91 => Some(Instr::F32Sqrt),
        0x92 => Some(Instr::F32Add),
        0x93 => Some(Instr::F32Sub),
        0x94 => Some(Instr::F32Mul),
        0x95 => Some(Instr::F32Div),
        0x96 => Some(Instr::F32Min),
        0x97 => Some(Instr::F32Max),
        0x98 => Some(Instr::F32Copysign),
        0x99 => Some(Instr::F64Abs),
        0x9A => Some(Instr::F64Neg),
        0x9B => Some(Instr::F64Ceil),
        0x9C => Some(Instr::F64Floor),
        0x9D => Some(Instr::F64Trunc),
        0x9E => Some(Instr::F64Nearest),
        0x9F => Some(Instr::F64Sqrt),
        0xA0 => Some(Instr::F64Add),
        0xA1 => Some(Instr::F64Sub),
        0xA2 => Some(Instr::F64Mul),
        0xA3 => Some(Instr::F64Div),
        0xA4 => Some(Instr::F64Min),
        0xA5 => Some(Instr::F64Max),
        0xA6 => Some(Instr::F64Copysign),
        0xA7 => Some(Instr::I32WrapI64),
        0xA8 => Some(Instr::I32TruncF32S),
        0xA9 => Some(Instr::I32TruncF32U),
        0xAA => Some(Instr::I32TruncF64S),
        0xAB => Some(Instr::I32TruncF64U),
        0xAC => Some(Instr::I64ExtendI32S),
        0xAD => Some(Instr::I64ExtendI32U),
        0xAE => Some(Instr::I64TruncF32S),
        0xAF => Some(Instr::I64TruncF32U),
        0xB0 => Some(Instr::I64TruncF64S),
        0xB1 => Some(Instr::I64TruncF64U),
        0xB2 => Some(Instr::F32ConvertI32S),
        0xB3 => Some(Instr::F32ConvertI32U),
        0xB4 => Some(Instr::F32ConvertI64S),
        0xB5 => Some(Instr::F32ConvertI64U),
        0xB6 => Some(Instr::F32DemoteF64),
        0xB7 => Some(Instr::F64ConvertI32S),
        0xB8 => Some(Instr::F64ConvertI32U),
        0xB9 => Some(Instr::F64ConvertI64S),
        0xBA => Some(Instr::F64ConvertI64U),
        0xBB => Some(Instr::F64PromoteF32),
        0xBC => Some(Instr::I32ReinterpretF32),
        0xBD => Some(Instr::I64ReinterpretF64),
        0xBE => Some(Instr::F32ReinterpretI32),
        0xBF => Some(Instr::F64ReinterpretI64),
        0xC0 => Some(Instr::I32Extend8S),
        0xC1 => Some(Instr::I32Extend16S),
        0xC2 => Some(Instr::I64Extend8S),
        0xC3 => Some(Instr::I64Extend16S),
        0xC4 => Some(Instr::I64Extend32S),
        0xD1 => Some(Instr::RefIsNull),
        _ => None,
    }
}

/// The load or store that an opcode stands for, with its memory operand.
pub open spec fn memory_instruction(opcode: u8, mem_arg: MemArg) -> Option<InstructionView> {
    if opcode == 0x28 {
        Some(Instr::I32Load { mem_arg })
    } else if opcode == 0x29 {
        Some(Instr::I64Load { mem_arg })
    } else if opcode == 0x2A {
        Some(Instr::F32Load { mem_arg })
    } else if opcode == 0x2B {
        Some(Instr::F64Load { mem_arg })
    } else if opcode == 0x2C {
        Some(Instr::I32Load8S { mem_arg })
    } else if opcode == 0x2D {
        Some(Instr::I32Load8U { mem_arg })
    } else if opcode == 0x2E {
        Some(Instr::I32Load16S { mem_arg })
    } else if opcode == 0x2F {
        Some(Instr::I32Load16U { mem_arg })
    } else if opcode == 0x30 {
        Some(Instr::I64Load8S { mem_arg })
    } else if opcode == 0x31 {
        Some(Instr::I64Load8U { mem_arg })
    } else if opcode == 0x32 {
        Some(Instr::I64Load16S { mem_arg })
    } else if opcode == 0x33 {
        Some(Instr::I64Load16U { mem_arg })
    } else if opcode == 0x34 {
        Some(Instr::I64Load32S { mem_arg })
    } else if opcode == 0x35 {
        Some(Instr::I64Load32U { mem_arg })
    } else if opcode == 0x36 {
        Some(Instr::I32Store { mem_arg })
    } else if opcode == 0x37 {
        Some(Instr::I64Store { mem_arg })
    } else if opcode == 0x38 {
        Some(Instr::F32Store { mem_arg })
    } else if opcode == 0x39 {
        Some(Instr::F64Store { mem_arg })
    } else if opcode == 0x3A {
        Some(Instr::I32Store8 { mem_arg })
    } else if opcode == 0x3B {
        Some(Instr::I32Store16 { mem_arg })
    } else if opcode == 0x3C {
        Some(Instr::I64Store8 { mem_arg })
    } else if opcode == 0x3D {
        Some(Instr::I64Store16 { mem_arg })
    } else if opcode == 0x3E {
        Some(Instr::I64Store32 { mem_arg })
    } else {
        None
    }
}

/// Whether `opcode` is a load or a store.
pub open spec fn is_memory_opcode(opcode: u8) -> bool {
    0x28 <= opcode <= 0x3E
}

/// The load or store that `opcode` stands for.
pub fn memory_instruction_of(opcode: u8, mem_arg: MemArg) -> (r: Option<Instruction>)
    ensures
        match r {
            Some(i) => memory_instruction(opcode, mem_arg) == Some(i@),
            None => memory_instruction(opcode, mem_arg) is None,
        },
        r is Some <==> is_memory_opcode(opcode),
{
    match opcode {
        0x28 => Some(Instr::I32Load { mem_arg }),
        0x29 => Some(Instr::I64Load { mem_arg }),
        0x2A => Some(Instr::F32Load { mem_arg }),
        0x2B => Some(Instr::F64Load { mem_arg }),
        0x2C => Some(Instr::I32Load8S { mem_arg }),
        0x2D => Some(Instr::I32Load8U { mem_arg }),
        0x2E => Some(Instr::I32Load16S { mem_arg }),
        0x2F => Some(Instr::I32Load16U { mem_arg }),
        0x30 => Some(Instr::I64Load8S { mem_arg }),
        0x31 => Some(Instr::I64Load8U { mem_arg }),
        0x32 => Some(Instr::I64Load16S { mem_arg }),
        0x33 => Some(Instr::I64Load16U { mem_arg }),
        0x34 => Some(Instr::I64Load32S { mem_arg }),
        0x35 => Some(Instr::I64Load32U { mem_arg }),
        0x36 => Some(Instr::I32Store { mem_arg }),
        0x37 => Some(Instr::I64Store { mem_arg }),
        0x38 => Some(Instr::F32Store { mem_arg }),
        0x39 => Some(Instr::F64Store { mem_arg }),
        0x3A => Some(Instr::I32Store8 { mem_arg }),
        0x3B => Some(Instr::I32Store16 { mem_arg }),
        0x3C => Some(Instr::I64Store8 { mem_arg }),
        0x3D => Some(Instr::I64Store16 { mem_arg }),
        0x3E => Some(Instr::I64Store32 { mem_arg }),
        _ => None,
    }
}

/// The instruction that an opcode with one index operand stands for.
pub open spec fn index_instruction(opcode: u8, index: u32) -> Option<InstructionView> {
    if opcode == 0x0C {
        Some(Instr::Br { level: index })
    } else if opcode == 0x0D {
        Some(Instr::BrIf { level: index })
    } else if opcode == 0x10 {
        Some(Instr::Call { func_index: index })
    } else if opcode == 0x20 {
        Some(Instr::LocalGet { local_index: index })
    } else if opcode == 0x21 {
        Some(Instr::LocalSet { local_index: index })
    } else if opcode == 0x22 {
        Some(Instr::LocalTee { local_index: index })
    } else if opcode == 0x23 {
        Some(Instr::GlobalGet { global_index: index })
    } else if opcode == 0x24 {
        Some(Instr::GlobalSet { global_index: index })
    } else if opcode == 0x25 {
        Some(Instr::TableGet { table_index: index })
    } else if opcode == 0x26 {
        Some(Instr::TableSet { table_index: index })
    } else if opcode == 0xD2 {
        Some(Instr::RefFunc { func_index: index })
    } else {
        None
    }
}

/// Whether `opcode` takes exactly one index as its operand.
pub open spec fn is_index_opcode(opcode: u8) -> bool {
    index_instruction(opcode, 0) is Some
}

/// Whether `opcode` takes exactly one index as its operand.
pub fn takes_index(opcode: u8) -> (r: bool)
    ensures
        r == is_index_opcode(opcode),
{
    match opcode {
        0x0C | 0x0D | 0x10 | 0x20 | 0x21 | 0x22 | 0x23 | 0x24 | 0x25 | 0x26 | 0xD2 => true,
        _ => false,
    }
}

/// The instruction that `opcode` stands for, with its index operand.
pub fn index_instruction_of(opcode: u8, index: u32) -> (r: Option<Instruction>)
    ensures
        match r {
            Some(i) => index_instruction(opcode, index) == Some(i@),
            None => index_instruction(opcode, index) is None,
        },
{
    match opcode {
        0x0C => Some(Instr::Br { level: index }),
        0x0D => Some(Instr::BrIf { level: index }),
        0x10 => Some(Instr::Call { func_index: index }),
        0x20 => Some(Instr::LocalGet { local_index: index }),
        0x21 => Some(Instr::LocalSet { local_index: index }),
        0x22 => Some(Instr::LocalTee { local_index: index }),
        0x23 => Some(Instr::GlobalGet { global_index: index }),
        0x24 => Some(Instr::GlobalSet { global_index: index }),
        0x25 => Some(Instr::TableGet { table_index: index }),
        0x26 => Some(Instr::TableSet { table_index: index }),
        0xD2 => Some(Instr::RefFunc { func_index: index }),
        _ => None,
    }
}

} // verus!
