//! The values that the machine computes with.

use crate::runtime::result::{Error, Result};
use crate::types::ValueType;
use vstd::prelude::*;

verus! {

/// A value on the operand stack. A floating-point number is held as its
/// bits. `Void` stands for the result of a function that returns nothing.
#[derive(Debug, Clone, Copy, PartialEq, Eq, Structural)]
pub enum Val {
    I32(i32),
    I64(i64),
    F32(u32),
    F64(u64),
    Void,
}

/// The address of something that a module exports.
#[derive(Debug, Clone, Copy, PartialEq, Eq, Structural)]
pub enum ExternalVal {
    FuncAddr(usize),
    TableAddr(usize),
    MemAddr(usize),
    GlobalAddr(usize),
}

/// An entry of a table.
#[derive(Debug, Clone, Copy, PartialEq, Eq, Structural)]
pub enum Ref {
    Null,
    Func(usize),
    Extern(usize),
}

/// The zero of a value type.
pub open spec fn default_val(ty: ValueType) -> Val {
    match ty {
        ValueType::I32 => Val::I32(0),
        ValueType::I64 => Val::I64(0),
        ValueType::F32 => Val::F32(0),
        ValueType::F64 => Val::F64(0),
    }
}

/// Whether a value is a 32-bit integer other than 0.
pub open spec fn val_is_true(v: Val) -> bool {
    v matches Val::I32(x) && x != 0
}

/// Whether a value is the 32-bit integer 0.
pub open spec fn val_is_false(v: Val) -> bool {
    v matches Val::I32(x) && x == 0
}

impl Val {
    /// Whether the value is a 32-bit integer other than 0.
    pub fn is_true(&self) -> (r: bool)
        ensures
            r == val_is_true(*self),
    {
        match self {
            Val::I32(val) => *val != 0,
            _ => false,
        }
    }

    /// Whether the value is the 32-bit integer 0.
    pub fn is_false(&self) -> (r: bool)
        ensures
            r == val_is_false(*self),
    {
        match self {
            Val::I32(val) => *val == 0,
            _ => false,
        }
    }

    /// The zero of a value type.
    pub fn default_of(ty: &ValueType) -> (r: Val)
        ensures
            r == default_val(*ty),
    {
        match ty {
            ValueType::I32 => Val::I32(0),
            ValueType::I64 => Val::I64(0),
            ValueType::F32 => Val::F32(0),
            ValueType::F64 => Val::F64(0),
        }
    }

    /// The low 32 bits of a 64-bit integer.
    pub fn i32_wrap_i64(&self) -> (r: Result<Val>)
        requires
            self is I64,
        ensures
            r == Ok::<Val, Error>(Val::I32(self->I64_0 as i32)),
    {
        match self {
            Val::I64(v) => Ok(Val::I32(*v as i32)),
            _ => Err(Error::UndefinedUnaryOp),
        }
    }

    /// A 32-bit integer as a 64-bit one, with its sign.
    pub fn i64_extend_i32_s(&self) -> (r: Result<Val>)
        requires
            self is I32,
        ensures
            r == Ok::<Val, Error>(Val::I64(self->I32_0 as i64)),
    {
        match self {
            Val::I32(v) => Ok(Val::I64(*v as i64)),
            _ => Err(Error::UndefinedUnaryOp),
        }
    }

    /// A 32-bit integer as a 64-bit one, read as unsigned.
    pub fn i64_extend_i32_u(&self) -> (r: Result<Val>)
        requires
            self is I32,
        ensures
            r == Ok::<Val, Error>(Val::I64(((self->I32_0 as u32) as u64) as i64)),
    {
        match self {
            Val::I32(v) => Ok(Val::I64(((*v as u32) as u64) as i64)),
            _ => Err(Error::UndefinedUnaryOp),
        }
    }

    /// The bits of a single-precision number as a 32-bit integer.
    pub fn i32_reinterpret_f32(&self) -> (r: Result<Val>)
        requires
            self is F32,
        ensures
            r == Ok::<Val, Error>(Val::I32(self->F32_0 as i32)),
    {
        match self {
            Val::F32(v) => Ok(Val::I32(*v as i32)),
            _ => Err(Error::UndefinedUnaryOp),
        }
    }

    /// The bits of a double-precision number as a 64-bit integer.
    pub fn i64_reinterpret_f64(&self) -> (r: Result<Val>)
        requires
            self is F64,
        ensures
            r == Ok::<Val, Error>(Val::I64(self->F64_0 as i64)),
    {
        match self {
            Val::F64(v) => Ok(Val::I64(*v as i64)),
            _ => Err(Error::UndefinedUnaryOp),
        }
    }

    /// The bits of a 32-bit integer as a single-precision number.
    pub fn f32_reinterpret_i32(&self) -> (r: Result<Val>)
        requires
            self is I32,
        ensures
            r == Ok::<Val, Error>(Val::F32(self->I32_0 as u32)),
    {
        match self {
            Val::I32(v) => Ok(Val::F32(*v as u32)),
            _ => Err(Error::UndefinedUnaryOp),
        }
    }

    /// The bits of a 64-bit integer as a double-precision number.
    pub fn f64_reinterpret_i64(&self) -> (r: Result<Val>)
        requires
            self is I64,
        ensures
            r == Ok::<Val, Error>(Val::F64(self->I64_0 as u64)),
    {
        match self {
            Val::I64(v) => Ok(Val::F64(*v as u64)),
            _ => Err(Error::UndefinedUnaryOp),
        }
    }

    /// The low 8 bits of a 32-bit integer, with their sign.
    pub fn i32_extend8_s(&self) -> (r: Result<Val>)
        requires
            self is I32,
        ensures
            r == Ok::<Val, Error>(Val::I32((self->I32_0 as i8) as i32)),
    {
        match self {
            Val::I32(v) => Ok(Val::I32((*v as i8) as i32)),
            _ => Err(Error::UndefinedUnaryOp),
        }
    }

    /// The low 16 bits of a 32-bit integer, with their sign.
    pub fn i32_extend16_s(&self) -> (r: Result<Val>)
        requires
            self is I32,
        ensures
            r == Ok::<Val, Error>(Val::I32((self->I32_0 as i16) as i32)),
    {
        match self {
            Val::I32(v) => Ok(Val::I32((*v as i16) as i32)),
            _ => Err(Error::UndefinedUnaryOp),
        }
    }

    /// The low 8 bits of a 64-bit integer, with their sign.
    pub fn i64_extend8_s(&self) -> (r: Result<Val>)
        requires
            self is I64,
        ensures
            r == Ok::<Val, Error>(Val::I64((self->I64_0 as i8) as i64)),
    {
        match self {
            Val::I64(v) => Ok(Val::I64((*v as i8) as i64)),
            _ => Err(Error::UndefinedUnaryOp),
        }
    }

    /// The low 16 bits of a 64-bit integer, with their sign.
    pub fn i64_extend16_s(&self) -> (r: Result<Val>)
        requires
            self is I64,
        ensures
            r == Ok::<Val, Error>(Val::I64((self->I64_0 as i16) as i64)),
    {
        match self {
            Val::I64(v) => Ok(Val::I64((*v as i16) as i64)),
            _ => Err(Error::UndefinedUnaryOp),
        }
    }

    /// The low 32 bits of a 64-bit integer, with their sign.
    pub fn i64_extend32_s(&self) -> (r: Result<Val>)
        requires
            self is I64,
        ensures
            r == Ok::<Val, Error>(Val::I64((self->I64_0 as i32) as i64)),
    {
        match self {
            Val::I64(v) => Ok(Val::I64((*v as i32) as i64)),
            _ => Err(Error::UndefinedUnaryOp),
        }
    }
}

impl From<i32> for Val {
    fn from(value: i32) -> (r: Val) {
        Val::I32(value)
    }
}

impl vstd::std_specs::convert::FromSpecImpl<i32> for Val {
    open spec fn obeys_from_spec() -> bool {
        true
    }

    open spec fn from_spec(value: i32) -> Val {
        Val::I32(value)
    }
}

impl From<i64> for Val {
    fn from(value: i64) -> (r: Val) {
        Val::I64(value)
    }
}

impl vstd::std_specs::convert::FromSpecImpl<i64> for Val {
    open spec fn obeys_from_spec() -> bool {
        true
    }

    open spec fn from_spec(value: i64) -> Val {
        Val::I64(value)
    }
}

impl From<bool> for Val {
    /// 1 for true, 0 for false.
    fn from(value: bool) -> (r: Val) {
        if value {
            Val::I32(1)
        } else {
            Val::I32(0)
        }
    }
}

impl vstd::std_specs::convert::FromSpecImpl<bool> for Val {
    open spec fn obeys_from_spec() -> bool {
        true
    }

    open spec fn from_spec(value: bool) -> Val {
        if value {
            Val::I32(1)
        } else {
            Val::I32(0)
        }
    }
}

} // verus!
