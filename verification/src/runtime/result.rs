//! What can go wrong while a module is set up or run.

use crate::runtime::instances::ExportInst;
use vstd::prelude::*;

verus! {

/// Why an instantiation or an invocation stopped.
#[derive(Debug, Clone, PartialEq)]
pub enum Error {
    /// The bytes are no module.
    DecodeError(crate::decoder::Error),
    InvalidIndexForType(usize),
    InvalidIndexForFunc(usize),
    /// A `call_indirect` names a function type that is not there.
    InvalidIndexForFuncType(usize),
    InvalidIndexForCode(usize),
    InvalidIndexForMem(usize),
    InvalidIndexForGlobal(usize),
    /// The code holds a `global.set` of the global with this index, which
    /// cannot be written.
    ImmutableGlobal(usize),
    /// `unreachable` was reached; memory or a table was touched outside its
    /// bounds; an indirect call met no function of the right type; or, at
    /// instantiation, an element segment did not fit its table.
    Trapped,
    /// A call has run past its last instruction.
    ExpectedInstruction,
    /// The operand stack holds too few values.
    ExpectedValue,
    /// A branch names a label that is not there.
    ExpectedLabel,
    /// The condition of an `if` is no 32-bit integer.
    IfConditionShouldBeI32,
    LocalNotFound,
    GlobalNotFound,
    /// No export has this name.
    ExportNotFound(String),
    ExpectFuncAddr(ExportInst),
    ExpectMemAddr(ExportInst),
    ExpectGlobalAddr(ExportInst),
    /// A binary operator met operands that it is not defined on.
    UndefinedBinaryOp,
    /// A unary operator met an operand that it is not defined on.
    UndefinedUnaryOp,
    EmptyCallStack(String),
    /// The end of a block was looked for and the instructions ran out.
    UnexpectedEndOfInput,
    /// The machine does not run this instruction.
    UnsupportedInstruction,
    /// An imported function was called and no hook is registered.
    ExternalHookNotSet,
    /// A floating-point operator was due and no floating-point unit is registered.
    FloatUnitNotSet,
    /// The budget of steps is used up.
    StepLimitExceeded,
}

pub type Result<T> = core::result::Result<T, Error>;

} // verus!
