//! The types of values, functions, globals, tables and memories.

use vstd::prelude::*;

verus! {

/// The type of a number on the operand stack.
#[derive(Clone, Copy, Debug, PartialEq, Eq, Structural)]
pub enum ValueType {
    I32,
    I64,
    F32,
    F64,
}

/// The byte that stands for a value type in the binary format.
pub open spec fn value_type_code(t: ValueType) -> u8 {
    match t {
        ValueType::I32 => 0x7Fu8,
        ValueType::I64 => 0x7Eu8,
        ValueType::F32 => 0x7Du8,
        ValueType::F64 => 0x7Cu8,
    }
}

/// The value type that a byte stands for, if any.
pub open spec fn value_type_of(byte: u8) -> Option<ValueType> {
    if byte == 0x7F {
        Some(ValueType::I32)
    } else if byte == 0x7E {
        Some(ValueType::I64)
    } else if byte == 0x7D {
        Some(ValueType::F32)
    } else if byte == 0x7C {
        Some(ValueType::F64)
    } else {
        None
    }
}

impl ValueType {
    /// Reads a value type from its byte; `None` for any other byte.
    pub fn from_byte(byte: u8) -> (r: Option<ValueType>)
        ensures
            r == value_type_of(byte),
    {
        if byte == 0x7F {
            Some(ValueType::I32)
        } else if byte == 0x7E {
            Some(ValueType::I64)
        } else if byte == 0x7D {
            Some(ValueType::F32)
        } else if byte == 0x7C {
            Some(ValueType::F64)
        } else {
            None
        }
    }
}

impl ValueType {
    /// The value type that `value` stands for. The byte must be one of the four codes.
    pub fn from(value: u8) -> (r: ValueType)
        requires
            value_type_of(value) is Some,
        ensures
            Some(r) == value_type_of(value),
    {
        if value == 0x7F {
            ValueType::I32
        } else if value == 0x7E {
            ValueType::I64
        } else if value == 0x7D {
            ValueType::F32
        } else {
            ValueType::F64
        }
    }
}

/// A list of value types: the parameters or the results of a function.
pub type ResultType = Vec<ValueType>;

/// The parameters and results of a function.
#[derive(Clone, Debug, PartialEq, Eq)]
pub struct FuncType {
    pub params: ResultType,
    pub results: ResultType,
}

/// A function type as sequences.
pub struct FuncTypeView {
    pub params: Seq<ValueType>,
    pub results: Seq<ValueType>,
}

impl View for FuncType {
    type V = FuncTypeView;

    open spec fn view(&self) -> FuncTypeView {
        FuncTypeView { params: self.params@, results: self.results@ }
    }
}

/// Whether a reference points to a function or to a host object.
#[derive(Clone, Copy, Debug, PartialEq, Eq, Structural)]
pub enum RefType {
    FuncRef,
    ExternRef,
}

/// A lower bound and an optional upper bound, in pages or entries.
#[derive(Clone, Copy, Debug, PartialEq, Eq, Structural)]
pub struct Limits {
    pub min: u32,
    pub max: Option<u32>,
}

/// The type of a global: what it holds and whether it can be written.
#[derive(Clone, Copy, Debug, PartialEq, Eq, Structural)]
pub struct GlobalType {
    pub value_type: ValueType,
    pub mutable: bool,
}

/// The type of a table.
#[derive(Clone, Copy, Debug, PartialEq, Eq, Structural)]
pub struct TableType {
    pub element_type: RefType,
    pub limits: Limits,
}

/// The type of a linear memory.
#[derive(Clone, Copy, Debug, PartialEq, Eq, Structural)]
pub struct MemoryType {
    pub limits: Limits,
}

} // verus!
