//! The operators of the machine, by name, and what each gives on values.

use crate::runtime::result::Result;
use crate::runtime::rust_value::{
    count_ones, flag, rotate_left_32, rotate_left_64, rotate_right_32, rotate_right_64, IntOp,
};
use crate::runtime::value::Val;
use vstd::prelude::*;
use vstd::std_specs::bits::{
    u32_leading_zeros, u32_trailing_zeros, u64_leading_zeros, u64_trailing_zeros,
};

verus! {

/// An operator with one operand.
#[derive(Debug, Clone, Copy, PartialEq, Eq, Structural)]
pub enum UnOp {
    Eqz,
    Clz,
    Ctz,
    Popcnt,
    Abs,
    Neg,
    Ceil,
    Floor,
    Trunc,
    Nearest,
    Sqrt,
    I32WrapI64,
    I32TruncS,
    I32TruncU,
    I64ExtendI32S,
    I64ExtendI32U,
    F32ConvertS,
    F32ConvertU,
    F32DemoteF64,
    F64ConvertS,
    F64ConvertU,
    F64PromoteF32,
    I32ReinterpretF32,
    I64ReinterpretF64,
    F32ReinterpretI32,
    F64ReinterpretI64,
    I32Extend8S,
    I32Extend16S,
    I64Extend8S,
    I64Extend16S,
    I64Extend32S,
}

/// An operator with two operands.
#[derive(Debug, Clone, Copy, PartialEq, Eq, Structural)]
pub enum BinOp {
    Add,
    Sub,
    Mul,
    Eq,
    Ne,
    DivS,
    DivU,
    LtS,
    LtU,
    GtS,
    GtU,
    LeS,
    LeU,
    GeS,
    GeU,
    RemS,
    RemU,
    And,
    Or,
    Xor,
    Shl,
    ShrS,
    ShrU,
    Rotl,
    Rotr,
    Lt,
    Gt,
    Le,
    Ge,
    Div,
    Min,
    Max,
    Copysign,
}

/// What an operator gives on its operands.
#[derive(Debug, Clone, Copy, PartialEq, Eq, Structural)]
pub enum Outcome {
    /// This value.
    Value(Val),
    /// A value that only floating-point arithmetic can give.
    Float,
    /// Nothing: the operator is not defined on these operands.
    Undefined,
}

/// What a unary operator gives on a 32-bit integer.
pub open spec fn unary_i32(op: UnOp, x: i32) -> Outcome {
    match op {
        UnOp::Eqz => Outcome::Value(Val::I32(flag(x == 0))),
        UnOp::Clz => Outcome::Value(Val::I32(u32_leading_zeros(x as u32) as i32)),
        UnOp::Ctz => Outcome::Value(Val::I32(u32_trailing_zeros(x as u32) as i32)),
        UnOp::Popcnt => Outcome::Value(Val::I32(count_ones((x as u32) as u64) as i32)),
        UnOp::I64ExtendI32S => Outcome::Value(Val::I64(x as i64)),
        UnOp::I64ExtendI32U => Outcome::Value(Val::I64(((x as u32) as u64) as i64)),
        UnOp::I32Extend8S => Outcome::Value(Val::I32((x as i8) as i32)),
        UnOp::I32Extend16S => Outcome::Value(Val::I32((x as i16) as i32)),
        UnOp::F32ReinterpretI32 => Outcome::Value(Val::F32(x as u32)),
        UnOp::F32ConvertS | UnOp::F32ConvertU | UnOp::F64ConvertS
        | UnOp::F64ConvertU => Outcome::Float,
        _ => Outcome::Undefined,
    }
}

/// What a unary operator gives on a 64-bit integer.
pub open spec fn unary_i64(op: UnOp, x: i64) -> Outcome {
    match op {
        UnOp::Eqz => Outcome::Value(Val::I32(flag(x == 0))),
        UnOp::Clz => Outcome::Value(Val::I64(u64_leading_zeros(x as u64) as i64)),
        UnOp::Ctz => Outcome::Value(Val::I64(u64_trailing_zeros(x as u64) as i64)),
        UnOp::Popcnt => Outcome::Value(Val::I64(count_ones(x as u64) as i64)),
        UnOp::I32WrapI64 => Outcome::Value(Val::I32(x as i32)),
        UnOp::I64Extend8S => Outcome::Value(Val::I64((x as i8) as i64)),
        UnOp::I64Extend16S => Outcome::Value(Val::I64((x as i16) as i64)),
        UnOp::I64Extend32S => Outcome::Value(Val::I64((x as i32) as i64)),
        UnOp::F64ReinterpretI64 => Outcome::Value(Val::F64(x as u64)),
        UnOp::F32ConvertS | UnOp::F32ConvertU | UnOp::F64ConvertS
        | UnOp::F64ConvertU => Outcome::Float,
        _ => Outcome::Undefined,
    }
}

/// Whether a unary operator on a single-precision number needs
/// floating-point arithmetic.
pub open spec fn unary_on_f32(op: UnOp) -> bool {
    match op {
        UnOp::Abs | UnOp::Neg | UnOp::Ceil | UnOp::Floor | UnOp::Trunc | UnOp::Nearest
        | UnOp::Sqrt | UnOp::I32TruncS | UnOp::I32TruncU | UnOp::F64PromoteF32 => true,
        _ => false,
    }
}

/// Whether a unary operator on a double-precision number needs
/// floating-point arithmetic.
pub open spec fn unary_on_f64(op: UnOp) -> bool {
    match op {
        UnOp::Abs | UnOp::Neg | UnOp::Ceil | UnOp::Floor | UnOp::Trunc | UnOp::Nearest
        | UnOp::Sqrt | UnOp::I32TruncS | UnOp::I32TruncU | UnOp::F32DemoteF64 => true,
        _ => false,
    }
}

/// What a unary operator gives on a value. The four reinterpretations
/// hand the bits of their operand on as they are.
pub open spec fn unary_outcome(op: UnOp, v: Val) -> Outcome {
    match v {
        Val::I32(x) => unary_i32(op, x),
        Val::I64(x) => unary_i64(op, x),
        Val::F32(bits) => if op is I32ReinterpretF32 {
            Outcome::Value(Val::I32(bits as i32))
        } else if unary_on_f32(op) {
            Outcome::Float
        } else {
            Outcome::Undefined
        },
        Val::F64(bits) => if op is I64ReinterpretF64 {
            Outcome::Value(Val::I64(bits as i64))
        } else if unary_on_f64(op) {
            Outcome::Float
        } else {
            Outcome::Undefined
        },
        Val::Void => Outcome::Undefined,
    }
}

/// What a binary operator gives on two 32-bit integers.
pub open spec fn binary_i32(op: BinOp, a: i32, b: i32) -> Outcome {
    match op {
        BinOp::Add => Outcome::Value(Val::I32(a.wrapping_add(b))),
        BinOp::Sub => Outcome::Value(Val::I32(a.wrapping_sub(b))),
        BinOp::Mul => Outcome::Value(Val::I32(a.wrapping_mul(b))),
        BinOp::Eq => Outcome::Value(Val::I32(flag(a == b))),
        BinOp::Ne => Outcome::Value(Val::I32(flag(a != b))),
        BinOp::DivS => match a.checked_div(b) {
                Some(v) => Outcome::Value(Val::I32(v)),
                None => Outcome::Undefined,
            },
        BinOp::DivU => match (a as u32).checked_div(b as u32) {
                Some(v) => Outcome::Value(Val::I32(v as i32)),
                None => Outcome::Undefined,
            },
        BinOp::LtS => Outcome::Value(Val::I32(flag(a < b))),
        BinOp::LtU => Outcome::Value(Val::I32(flag((a as u32) < (b as u32)))),
        BinOp::GtS => Outcome::Value(Val::I32(flag(a > b))),
        BinOp::GtU => Outcome::Value(Val::I32(flag((a as u32) > (b as u32)))),
        BinOp::LeS => Outcome::Value(Val::I32(flag(a <= b))),
        BinOp::LeU => Outcome::Value(Val::I32(flag((a as u32) <= (b as u32)))),
        BinOp::GeS => Outcome::Value(Val::I32(flag(a >= b))),
        BinOp::GeU => Outcome::Value(Val::I32(flag((a as u32) >= (b as u32)))),
        BinOp::RemS => match a.checked_rem(b) {
                Some(v) => Outcome::Value(Val::I32(v)),
                None => Outcome::Undefined,
            },
        BinOp::RemU => match (a as u32).checked_rem(b as u32) {
                Some(v) => Outcome::Value(Val::I32(v as i32)),
                None => Outcome::Undefined,
            },
        BinOp::And => Outcome::Value(Val::I32(a & b)),
        BinOp::Or => Outcome::Value(Val::I32(a | b)),
        BinOp::Xor => Outcome::Value(Val::I32(a ^ b)),
        BinOp::Shl => Outcome::Value(Val::I32(a.wrapping_shl(b as u32))),
        BinOp::ShrS => Outcome::Value(Val::I32(a.wrapping_shr(b as u32))),
        BinOp::ShrU => Outcome::Value(Val::I32((a as u32).wrapping_shr(b as u32) as i32)),
        BinOp::Rotl => Outcome::Value(Val::I32(rotate_left_32(a as u32, b as u32) as i32)),
        BinOp::Rotr => Outcome::Value(Val::I32(rotate_right_32(a as u32, b as u32) as i32)),
        _ => Outcome::Undefined,
    }
}

/// What a binary operator gives on two 64-bit integers.
pub open spec fn binary_i64(op: BinOp, a: i64, b: i64) -> Outcome {
    match op {
        BinOp::Add => Outcome::Value(Val::I64(a.wrapping_add(b))),
        BinOp::Sub => Outcome::Value(Val::I64(a.wrapping_sub(b))),
        BinOp::Mul => Outcome::Value(Val::I64(a.wrapping_mul(b))),
        BinOp::Eq => Outcome::Value(Val::I32(flag(a == b))),
        BinOp::Ne => Outcome::Value(Val::I32(flag(a != b))),
        BinOp::DivS => match a.checked_div(b) {
                Some(v) => Outcome::Value(Val::I64(v)),
                None => Outcome::Undefined,
            },
        BinOp::DivU => match (a as u64).checked_div(b as u64) {
                Some(v) => Outcome::Value(Val::I64(v as i64)),
                None => Outcome::Undefined,
            },
        BinOp::LtS => Outcome::Value(Val::I32(flag(a < b))),
        BinOp::LtU => Outcome::Value(Val::I32(flag((a as u64) < (b as u64)))),
        BinOp::GtS => Outcome::Value(Val::I32(flag(a > b))),
        BinOp::GtU => Outcome::Value(Val::I32(flag((a as u64) > (b as u64)))),
        BinOp::LeS => Outcome::Value(Val::I32(flag(a <= b))),
        BinOp::LeU => Outcome::Value(Val::I32(flag((a as u64) <= (b as u64)))),
        BinOp::GeS => Outcome::Value(Val::I32(flag(a >= b))),
        BinOp::GeU => Outcome::Value(Val::I32(flag((a as u64) >= (b as u64)))),
        BinOp::RemS => match a.checked_rem(b) {
                Some(v) => Outcome::Value(Val::I64(v)),
                None => Outcome::Undefined,
            },
        BinOp::RemU => match (a as u64).checked_rem(b as u64) {
                Some(v) => Outcome::Value(Val::I64(v as i64)),
                None => Outcome::Undefined,
            },
        BinOp::And => Outcome::Value(Val::I64(a & b)),
        BinOp::Or => Outcome::Value(Val::I64(a | b)),
        BinOp::Xor => Outcome::Value(Val::I64(a ^ b)),
        BinOp::Shl => Outcome::Value(Val::I64(a.wrapping_shl(b as u32))),
        BinOp::ShrS => Outcome::Value(Val::I64(a.wrapping_shr(b as u32))),
        BinOp::ShrU => Outcome::Value(Val::I64((a as u64).wrapping_shr(b as u32) as i64)),
        BinOp::Rotl => Outcome::Value(Val::I64(rotate_left_64(a as u64, b as u32) as i64)),
        BinOp::Rotr => Outcome::Value(Val::I64(rotate_right_64(a as u64, b as u32) as i64)),
        _ => Outcome::Undefined,
    }
}

/// Whether a binary operator is defined on two floating-point numbers.
pub open spec fn binary_on_floats(op: BinOp) -> bool {
    match op {
        BinOp::Add | BinOp::Sub | BinOp::Mul | BinOp::Eq | BinOp::Ne | BinOp::Lt | BinOp::Gt
        | BinOp::Le | BinOp::Ge | BinOp::Div | BinOp::Min | BinOp::Max | BinOp::Copysign => true,
        _ => false,
    }
}

/// What a binary operator gives on two values. The operands must be of one
/// kind.
pub open spec fn binary_outcome(op: BinOp, lhs: Val, rhs: Val) -> Outcome {
    match (lhs, rhs) {
        (Val::I32(a), Val::I32(b)) => binary_i32(op, a, b),
        (Val::I64(a), Val::I64(b)) => binary_i64(op, a, b),
        (Val::F32(_), Val::F32(_)) | (Val::F64(_), Val::F64(_)) => if binary_on_floats(op) {
            Outcome::Float
        } else {
            Outcome::Undefined
        },
        _ => Outcome::Undefined,
    }
}

/// The value of a result, or `Undefined` for a failure.
fn outcome_of(r: Result<Val>) -> (o: Outcome)
    ensures
        o == match r {
            Ok(v) => Outcome::Value(v),
            Err(_) => Outcome::Undefined,
        },
{
    match r {
        Ok(v) => Outcome::Value(v),
        Err(_) => Outcome::Undefined,
    }
}

/// The 32-bit integer of a result, or `Undefined` for a failure.
fn outcome_i32(r: Result<i32>) -> (o: Outcome)
    ensures
        o == match r {
            Ok(v) => Outcome::Value(Val::I32(v)),
            Err(_) => Outcome::Undefined,
        },
{
    match r {
        Ok(v) => Outcome::Value(Val::I32(v)),
        Err(_) => Outcome::Undefined,
    }
}

/// The 64-bit integer of a result, or `Undefined` for a failure.
fn outcome_i64(r: Result<i64>) -> (o: Outcome)
    ensures
        o == match r {
            Ok(v) => Outcome::Value(Val::I64(v)),
            Err(_) => Outcome::Undefined,
        },
{
    match r {
        Ok(v) => Outcome::Value(Val::I64(v)),
        Err(_) => Outcome::Undefined,
    }
}

impl Val {
    /// Applies a unary operator.
    pub fn unary(&self, op: UnOp) -> (r: Outcome)
        ensures
            r == unary_outcome(op, *self),
    {
        match self {
            Val::I32(x) => match op {
                UnOp::Eqz => outcome_i32(x.eqz()),
                UnOp::Clz => outcome_i32(x.clz()),
                UnOp::Ctz => outcome_i32(x.ctz()),
                UnOp::Popcnt => outcome_i32(x.popcnt()),
                UnOp::I64ExtendI32S => outcome_of(self.i64_extend_i32_s()),
                UnOp::I64ExtendI32U => outcome_of(self.i64_extend_i32_u()),
                UnOp::I32Extend8S => outcome_of(self.i32_extend8_s()),
                UnOp::I32Extend16S => outcome_of(self.i32_extend16_s()),
                UnOp::F32ReinterpretI32 => outcome_of(self.f32_reinterpret_i32()),
                UnOp::F32ConvertS | UnOp::F32ConvertU | UnOp::F64ConvertS
                | UnOp::F64ConvertU => Outcome::Float,
                _ => Outcome::Undefined,
            },
            Val::I64(x) => match op {
                UnOp::Eqz => outcome_i32(x.eqz()),
                UnOp::Clz => outcome_i64(x.clz()),
                UnOp::Ctz => outcome_i64(x.ctz()),
                UnOp::Popcnt => outcome_i64(x.popcnt()),
                UnOp::I32WrapI64 => outcome_of(self.i32_wrap_i64()),
                UnOp::I64Extend8S => outcome_of(self.i64_extend8_s()),
                UnOp::I64Extend16S => outcome_of(self.i64_extend16_s()),
                UnOp::I64Extend32S => outcome_of(self.i64_extend32_s()),
                UnOp::F64ReinterpretI64 => outcome_of(self.f64_reinterpret_i64()),
                UnOp::F32ConvertS | UnOp::F32ConvertU | UnOp::F64ConvertS
                | UnOp::F64ConvertU => Outcome::Float,
                _ => Outcome::Undefined,
            },
            Val::F32(_) => match op {
                UnOp::I32ReinterpretF32 => outcome_of(self.i32_reinterpret_f32()),
                UnOp::Abs | UnOp::Neg | UnOp::Ceil | UnOp::Floor | UnOp::Trunc | UnOp::Nearest
                | UnOp::Sqrt | UnOp::I32TruncS | UnOp::I32TruncU
                | UnOp::F64PromoteF32 => Outcome::Float,
                _ => Outcome::Undefined,
            },
            Val::F64(_) => match op {
                UnOp::I64ReinterpretF64 => outcome_of(self.i64_reinterpret_f64()),
                UnOp::Abs | UnOp::Neg | UnOp::Ceil | UnOp::Floor | UnOp::Trunc | UnOp::Nearest
                | UnOp::Sqrt | UnOp::I32TruncS | UnOp::I32TruncU
                | UnOp::F32DemoteF64 => Outcome::Float,
                _ => Outcome::Undefined,
            },
            Val::Void => Outcome::Undefined,
        }
    }

    /// Applies a binary operator.
    pub fn binary(&self, op: BinOp, rhs: &Val) -> (r: Outcome)
        ensures
            r == binary_outcome(op, *self, *rhs),
    {
        match (self, rhs) {
            (Val::I32(a), Val::I32(b)) => match op {
                BinOp::Add => outcome_i32(a.add(b)),
                BinOp::Sub => outcome_i32(a.sub(b)),
                BinOp::Mul => outcome_i32(a.mul(b)),
                BinOp::Eq => outcome_i32(a.equal(b)),
                BinOp::Ne => outcome_i32(a.not_equal(b)),
                BinOp::DivS => outcome_i32(a.div_s(b)),
                BinOp::DivU => outcome_i32(a.div_u(b)),
                BinOp::LtS => outcome_i32(a.lt_s(b)),
                BinOp::LtU => outcome_i32(a.lt_u(b)),
                BinOp::GtS => outcome_i32(a.gt_s(b)),
                BinOp::GtU => outcome_i32(a.gt_u(b)),
                BinOp::LeS => outcome_i32(a.le_s(b)),
                BinOp::LeU => outcome_i32(a.le_u(b)),
                BinOp::GeS => outcome_i32(a.ge_s(b)),
                BinOp::GeU => outcome_i32(a.ge_u(b)),
                BinOp::RemS => outcome_i32(a.rem_s(b)),
                BinOp::RemU => outcome_i32(a.rem_u(b)),
                BinOp::And => outcome_i32(a.and(b)),
                BinOp::Or => outcome_i32(a.or(b)),
                BinOp::Xor => outcome_i32(a.xor(b)),
                BinOp::Shl => outcome_i32(a.shl(b)),
                BinOp::ShrS => outcome_i32(a.shr_s(b)),
                BinOp::ShrU => outcome_i32(a.shr_u(b)),
                BinOp::Rotl => outcome_i32(a.rotl(b)),
                BinOp::Rotr => outcome_i32(a.rotr(b)),
                _ => Outcome::Undefined,
            },
            (Val::I64(a), Val::I64(b)) => match op {
                BinOp::Add => outcome_i64(a.add(b)),
                BinOp::Sub => outcome_i64(a.sub(b)),
                BinOp::Mul => outcome_i64(a.mul(b)),
                BinOp::Eq => outcome_i32(a.equal(b)),
                BinOp::Ne => outcome_i32(a.not_equal(b)),
                BinOp::DivS => outcome_i64(a.div_s(b)),
                BinOp::DivU => outcome_i64(a.div_u(b)),
                BinOp::LtS => outcome_i32(a.lt_s(b)),
                BinOp::LtU => outcome_i32(a.lt_u(b)),
                BinOp::GtS => outcome_i32(a.gt_s(b)),
                BinOp::GtU => outcome_i32(a.gt_u(b)),
                BinOp::LeS => outcome_i32(a.le_s(b)),
                BinOp::LeU => outcome_i32(a.le_u(b)),
                BinOp::GeS => outcome_i32(a.ge_s(b)),
                BinOp::GeU => outcome_i32(a.ge_u(b)),
                BinOp::RemS => outcome_i64(a.rem_s(b)),
                BinOp::RemU => outcome_i64(a.rem_u(b)),
                BinOp::And => outcome_i64(a.and(b)),
                BinOp::Or => outcome_i64(a.or(b)),
                BinOp::Xor => outcome_i64(a.xor(b)),
                BinOp::Shl => outcome_i64(a.shl(b)),
                BinOp::ShrS => outcome_i64(a.shr_s(b)),
                BinOp::ShrU => outcome_i64(a.shr_u(b)),
                BinOp::Rotl => outcome_i64(a.rotl(b)),
                BinOp::Rotr => outcome_i64(a.rotr(b)),
                _ => Outcome::Undefined,
            },
            (Val::F32(_), Val::F32(_)) | (Val::F64(_), Val::F64(_)) => match op {
                BinOp::Add | BinOp::Sub | BinOp::Mul | BinOp::Eq | BinOp::Ne | BinOp::Lt | BinOp::Gt
                | BinOp::Le | BinOp::Ge | BinOp::Div | BinOp::Min | BinOp::Max
                | BinOp::Copysign => Outcome::Float,
                _ => Outcome::Undefined,
            },
            _ => Outcome::Undefined,
        }
    }
}

} // verus!
