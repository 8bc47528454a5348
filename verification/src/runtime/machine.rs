//! The machine as mathematics: its states, and what one step makes of a state.

use crate::binary::instruction::{block_result_count, BlockType, Instr, InstructionView, MemArg};
use crate::runtime::frame::{new_frame, FrameView};
use crate::runtime::instances::{
    ExportInstView, ExternalFuncInstView, FuncInstView, GlobalInst, InternalFuncInstView,
    MemInstView,
};
use crate::runtime::label::{Label, LabelKind};
use crate::runtime::memory::{loaded_value, stored_bytes, written};
use crate::runtime::operation::{operation, Access, Operation};
use crate::runtime::operators::{binary_outcome, unary_outcome, BinOp, Outcome, UnOp};
use crate::runtime::result::Error;
use crate::runtime::store::{StoreView, PAGE_SIZE};
use crate::runtime::value::{default_val, val_is_false, val_is_true, Ref, Val};
use crate::types::{FuncTypeView, ValueType};
use vstd::prelude::*;

verus! {

/// A state of the machine: the store, the operand stack, the calls under
/// way with the innermost last, and whether a hook for imported functions
/// and a floating-point unit are registered.
pub struct RuntimeView {
    pub store: StoreView,
    pub value_stack: Seq<Val>,
    pub call_stack: Seq<FrameView>,
    pub has_hook: bool,
    pub has_float_unit: bool,
}

/// What a step makes of a state: the next state, or a failure. A step
/// that fails leaves the state as it is.
pub enum Step {
    Next(RuntimeView),
    Fault(Error),
}

/// What the machine asks of the outside before it can finish a step.
pub enum Request {
    /// The result of an imported function on these arguments.
    External { func: ExternalFuncInstView, args: Seq<Val> },
    /// The result of a floating-point operator with one operand.
    Unary { op: UnOp, operand: Val },
    /// The result of a floating-point operator with two operands.
    Binary { op: BinOp, lhs: Val, rhs: Val },
}

/// The place behind `pc`.
pub open spec fn succ(pc: usize) -> usize {
    if pc < usize::MAX {
        (pc + 1) as usize
    } else {
        pc
    }
}

/// The innermost call.
pub open spec fn top(s: RuntimeView) -> FrameView {
    s.call_stack.last()
}

/// The state with `f` in place of the innermost call.
pub open spec fn with_top(s: RuntimeView, f: FrameView) -> RuntimeView {
    RuntimeView { call_stack: s.call_stack.update(s.call_stack.len() - 1, f), ..s }
}

/// The state with the innermost call standing at `pc`.
pub open spec fn at(s: RuntimeView, pc: usize) -> RuntimeView {
    with_top(s, FrameView { pc, ..top(s) })
}

/// The state with the innermost call moved on by one instruction. Where no
/// call is left the state stays as it is.
pub open spec fn advance(s: RuntimeView) -> RuntimeView {
    if s.call_stack.len() == 0 {
        s
    } else {
        at(s, succ(top(s).pc))
    }
}

/// The state with another operand stack.
pub open spec fn with_stack(s: RuntimeView, stack: Seq<Val>) -> RuntimeView {
    RuntimeView { value_stack: stack, ..s }
}

/// The instruction that is due: the one at which the innermost call
/// stands. `None` where no call is under way or the call has run past its
/// last instruction.
pub open spec fn current(s: RuntimeView) -> Option<InstructionView> {
    if s.call_stack.len() > 0 && top(s).pc < top(s).instructions.len() {
        Some(top(s).instructions[top(s).pc as int])
    } else {
        None
    }
}

/// The first `n` values of a stack; the whole stack where it is shorter.
pub open spec fn truncated(stack: Seq<Val>, n: usize) -> Seq<Val> {
    if n <= stack.len() {
        stack.subrange(0, n as int)
    } else {
        stack
    }
}

/// The operand stack after a block or a call that was entered at depth
/// `sp` is left. With an arity of 0 the stack is cut back to `sp`. With any
/// other arity the topmost value is kept on top of the stack cut back to
/// `sp`; `None` where the stack is empty.
pub open spec fn cleaned(stack: Seq<Val>, arity: usize, sp: usize) -> Option<Seq<Val>> {
    if arity > 0 {
        if stack.len() == 0 {
            None
        } else {
            Some(truncated(stack.drop_last(), sp).push(stack.last()))
        }
    } else {
        Some(truncated(stack, sp))
    }
}

/// Where the block ends that is open at `pos`, which lies `depth` blocks
/// deep inside it: the place of the first `end` from `pos` on that closes no
/// block opened in between. With `stop_at_else`, an `else` of the block
/// itself counts as its end. `None` where the instructions run out.
pub open spec fn scan_end(code: Seq<InstructionView>, pos: int, depth: nat, stop_at_else: bool) -> Option<
    usize,
>
    decreases code.len() - pos,
{
    if pos < 0 || pos >= code.len() || pos > usize::MAX {
        None
    } else {
        match code[pos] {
            Instr::If { .. } | Instr::Block { .. } | Instr::Loop { .. } => scan_end(
                code,
                pos + 1,
                depth + 1,
                stop_at_else,
            ),
            Instr::End => if depth == 0 {
                Some(pos as usize)
            } else {
                scan_end(code, pos + 1, (depth - 1) as nat, stop_at_else)
            },
            Instr::Else => if depth == 0 && stop_at_else {
                Some(pos as usize)
            } else {
                scan_end(code, pos + 1, depth, stop_at_else)
            },
            _ => scan_end(code, pos + 1, depth, stop_at_else),
        }
    }
}

/// The place of the `end` of the block that opens at `pc`.
pub open spec fn end_pc(code: Seq<InstructionView>, pc: usize) -> Option<usize> {
    scan_end(code, pc + 1, 0, false)
}

/// The place of the `else` of the `if` that opens at `pc`, or of its `end`
/// where it has no `else`.
pub open spec fn else_or_end_pc(code: Seq<InstructionView>, pc: usize) -> Option<usize> {
    scan_end(code, pc + 1, 0, true)
}

/// The zeros of a list of value types.
pub open spec fn defaults(types: Seq<ValueType>) -> Seq<Val> {
    Seq::new(types.len(), |i: int| default_val(types[i]))
}

/// A block is entered: a label is pushed and the call moves to `next`.
pub open spec fn enter(s: RuntimeView, kind: LabelKind, block_type: BlockType, next: usize) -> Step {
    match end_pc(top(s).instructions, top(s).pc) {
        None => Step::Fault(Error::UnexpectedEndOfInput),
        Some(end) => match block_result_count(block_type) {
            None => Step::Fault(Error::UnsupportedInstruction),
            Some(arity) => {
                let label = Label {
                    pc: end,
                    sp: s.value_stack.len() as usize,
                    arity,
                    kind,
                    result_type: block_type,
                };
                Step::Next(
                    with_top(
                        s,
                        FrameView {
                            pc: next,
                            label_stack: top(s).label_stack.push(label),
                            ..top(s)
                        },
                    ),
                )
            },
        },
    }
}

/// `if`: the condition is popped. Where it is the integer 0 the call goes
/// on behind the `else`, or at the `end` where there is no `else`;
/// otherwise it goes on with the next instruction. A condition that is no
/// 32-bit integer fails with `IfConditionShouldBeI32`.
pub open spec fn step_if(s: RuntimeView, block_type: BlockType) -> Step {
    if s.value_stack.len() == 0 {
        Step::Fault(Error::ExpectedValue)
    } else if !(s.value_stack.last() is I32) {
        Step::Fault(Error::IfConditionShouldBeI32)
    } else {
        let condition = s.value_stack.last();
        let popped = with_stack(s, s.value_stack.drop_last());
        let code = top(s).instructions;
        let pc = top(s).pc;
        if val_is_false(condition) {
            match else_or_end_pc(code, pc) {
                Some(target) => enter(
                    popped,
                    LabelKind::If,
                    block_type,
                    if code[target as int] is Else {
                        succ(target)
                    } else {
                        target
                    },
                ),
                None => Step::Fault(Error::UnexpectedEndOfInput),
            }
        } else {
            enter(popped, LabelKind::If, block_type, succ(pc))
        }
    }
}

/// `else`, reached at the end of the first branch: the label is popped and
/// the call goes on behind the `end` of the `if`.
pub open spec fn step_else(s: RuntimeView) -> Step {
    let labels = top(s).label_stack;
    if labels.len() == 0 {
        Step::Fault(Error::ExpectedLabel)
    } else {
        Step::Next(
            with_top(
                s,
                FrameView { pc: succ(labels.last().pc), label_stack: labels.drop_last(), ..top(s) },
            ),
        )
    }
}

/// The innermost call returns: its frame is popped, the operand stack is
/// cleaned by the frame's arity and depth, and the caller moves on.
pub open spec fn leave_frame(s: RuntimeView) -> Step {
    match cleaned(s.value_stack, top(s).arity, top(s).sp) {
        None => Step::Fault(Error::ExpectedValue),
        Some(stack) => Step::Next(
            advance(
                RuntimeView { value_stack: stack, call_stack: s.call_stack.drop_last(), ..s },
            ),
        ),
    }
}

/// `end`: the innermost label is popped, the operand stack is cleaned by
/// the label's arity and depth, and the call goes on behind the label's
/// end. Where no label is open the call returns.
pub open spec fn step_end(s: RuntimeView) -> Step {
    let labels = top(s).label_stack;
    if labels.len() == 0 {
        leave_frame(s)
    } else {
        let label = labels.last();
        match cleaned(s.value_stack, label.arity, label.sp) {
            None => Step::Fault(Error::ExpectedValue),
            Some(stack) => Step::Next(
                with_top(
                    with_stack(s, stack),
                    FrameView { pc: succ(label.pc), label_stack: labels.drop_last(), ..top(s) },
                ),
            ),
        }
    }
}

/// A branch to the label `level` blocks out. The operand stack is cleaned
/// by the label. A loop keeps its label and goes on with its first
/// instruction; any other block loses its label and goes on behind its end.
/// The labels further in are dropped either way.
pub open spec fn step_br(s: RuntimeView, level: u32) -> Step {
    let labels = top(s).label_stack;
    if level >= labels.len() {
        Step::Fault(Error::ExpectedLabel)
    } else {
        let index = labels.len() - 1 - level;
        let label = labels[index];
        match cleaned(s.value_stack, label.arity, label.sp) {
            None => Step::Fault(Error::ExpectedValue),
            Some(stack) => match label.kind {
                LabelKind::Loop { start_pc } => Step::Next(
                    with_top(
                        with_stack(s, stack),
                        FrameView {
                            pc: succ(start_pc),
                            label_stack: labels.subrange(0, index + 1),
                            ..top(s)
                        },
                    ),
                ),
                _ => Step::Next(
                    with_top(
                        with_stack(s, stack),
                        FrameView {
                            pc: succ(label.pc),
                            label_stack: labels.subrange(0, index),
                            ..top(s)
                        },
                    ),
                ),
            },
        }
    }
}

/// `br_if`: the condition is popped; where it is an integer other than 0
/// the branch is taken.
pub open spec fn step_br_if(s: RuntimeView, level: u32) -> Step {
    if s.value_stack.len() == 0 {
        Step::Fault(Error::ExpectedValue)
    } else {
        let popped = with_stack(s, s.value_stack.drop_last());
        if val_is_true(s.value_stack.last()) {
            step_br(popped, level)
        } else {
            Step::Next(advance(popped))
        }
    }
}

/// A function of the module is entered: its arguments are taken off the
/// operand stack and become its first locals, the locals that its body
/// declares follow as zeros, and a frame for it is pushed. The caller stays
/// at its `call`.
pub open spec fn enter_function(s: RuntimeView, f: InternalFuncInstView) -> Step {
    let n = f.func_type.params.len();
    let len = s.value_stack.len();
    if len < n {
        Step::Fault(Error::ExpectedValue)
    } else {
        let rest = s.value_stack.subrange(0, len - n);
        let locals = s.value_stack.subrange(len - n, len as int) + defaults(f.body.locals);
        Step::Next(
            RuntimeView {
                value_stack: rest,
                call_stack: s.call_stack.push(
                    new_frame(
                        locals,
                        f.func_type.results.len() as usize,
                        rest.len() as usize,
                        f.body.code,
                    ),
                ),
                ..s
            },
        )
    }
}

/// An imported function has returned `answer`: its arguments are taken off
/// the operand stack, its result is pushed where its type declares one, and
/// the caller moves on.
pub open spec fn finish_external(s: RuntimeView, f: ExternalFuncInstView, answer: Val) -> RuntimeView {
    let rest = s.value_stack.subrange(0, s.value_stack.len() - f.func_type.params.len());
    advance(
        with_stack(
            s,
            if f.func_type.results.len() > 0 {
                rest.push(answer)
            } else {
                rest
            },
        ),
    )
}

/// The function at `addr` is called.
pub open spec fn call_function(s: RuntimeView, addr: usize, answer: Val) -> Step {
    if addr >= s.store.funcs.len() {
        Step::Fault(Error::InvalidIndexForFunc(addr))
    } else {
        match s.store.funcs[addr as int] {
            FuncInstView::Internal(f) => enter_function(s, f),
            FuncInstView::External(f) => if s.value_stack.len() < f.func_type.params.len() {
                Step::Fault(Error::ExpectedValue)
            } else if !s.has_hook {
                Step::Fault(Error::ExternalHookNotSet)
            } else {
                Step::Next(finish_external(s, f, answer))
            },
        }
    }
}

/// `call`.
pub open spec fn step_call(s: RuntimeView, func_index: u32, answer: Val) -> Step {
    call_function(s, func_index as usize, answer)
}

/// The type of a function.
pub open spec fn type_of(f: FuncInstView) -> FuncTypeView {
    match f {
        FuncInstView::Internal(f) => f.func_type,
        FuncInstView::External(f) => f.func_type,
    }
}

/// The function that a `call_indirect` names, in a state from which the
/// index into the table has been popped as `index`. Fails with `Trapped`
/// where the index is no 32-bit integer, the table is not there, the
/// entry is not there or refers to no function, or the function is not of
/// the type with index `type_index`.
pub open spec fn indirect_target(s: RuntimeView, index: Val, type_index: u32, table_index: u32) -> core::result::Result<
    usize,
    Error,
> {
    match index {
        Val::I32(i) => if table_index >= s.store.tables.len() {
            Err(Error::Trapped)
        } else {
            let elems = s.store.tables[table_index as int].elems;
            if (i as u32) >= elems.len() {
                Err(Error::Trapped)
            } else {
                match elems[(i as u32) as int] {
                    Ref::Func(addr) => if addr >= s.store.funcs.len() {
                        Err(Error::InvalidIndexForFunc(addr))
                    } else if type_index >= s.store.module.types.len() {
                        Err(Error::InvalidIndexForFuncType(type_index as usize))
                    } else if type_of(s.store.funcs[addr as int])
                        != s.store.module.types[type_index as int] {
                        Err(Error::Trapped)
                    } else {
                        Ok(addr)
                    },
                    _ => Err(Error::Trapped),
                }
            }
        },
        _ => Err(Error::Trapped),
    }
}

/// `call_indirect`: the index into the table is popped and the function
/// that the entry refers to is called.
pub open spec fn step_call_indirect(s: RuntimeView, type_index: u32, table_index: u32, answer: Val) -> Step {
    if s.value_stack.len() == 0 {
        Step::Fault(Error::ExpectedValue)
    } else {
        let popped = with_stack(s, s.value_stack.drop_last());
        match indirect_target(popped, s.value_stack.last(), type_index, table_index) {
            Ok(addr) => call_function(popped, addr, answer),
            Err(e) => Step::Fault(e),
        }
    }
}

/// `local.get`.
pub open spec fn step_local_get(s: RuntimeView, index: u32) -> Step {
    if index >= top(s).locals.len() {
        Step::Fault(Error::LocalNotFound)
    } else {
        Step::Next(advance(with_stack(s, s.value_stack.push(top(s).locals[index as int]))))
    }
}

/// `local.set` where `keep` is false, `local.tee` where it is true.
pub open spec fn step_local_set(s: RuntimeView, index: u32, keep: bool) -> Step {
    if s.value_stack.len() == 0 {
        Step::Fault(Error::ExpectedValue)
    } else if index >= top(s).locals.len() {
        Step::Fault(Error::LocalNotFound)
    } else {
        let stack = if keep {
            s.value_stack
        } else {
            s.value_stack.drop_last()
        };
        Step::Next(
            advance(
                with_top(
                    with_stack(s, stack),
                    FrameView {
                        locals: top(s).locals.update(index as int, s.value_stack.last()),
                        ..top(s)
                    },
                ),
            ),
        )
    }
}

/// `global.get`.
pub open spec fn step_global_get(s: RuntimeView, index: u32) -> Step {
    if index >= s.store.globals.len() {
        Step::Fault(Error::GlobalNotFound)
    } else {
        Step::Next(advance(with_stack(s, s.value_stack.push(s.store.globals[index as int].value))))
    }
}

/// `global.set`. Whether the global may be written is not looked at.
pub open spec fn step_global_set(s: RuntimeView, index: u32) -> Step {
    if s.value_stack.len() == 0 {
        Step::Fault(Error::ExpectedValue)
    } else if index >= s.store.globals.len() {
        Step::Fault(Error::GlobalNotFound)
    } else {
        let global = s.store.globals[index as int];
        Step::Next(
            advance(
                RuntimeView {
                    value_stack: s.value_stack.drop_last(),
                    store: StoreView {
                        globals: s.store.globals.update(
                            index as int,
                            GlobalInst { value: s.value_stack.last(), ..global },
                        ),
                        ..s.store
                    },
                    ..s
                },
            ),
        )
    }
}

/// The address that a load or store touches first: the operand, read as
/// an unsigned number, plus the offset of the instruction. `None` where
/// the operand is no 32-bit integer.
pub open spec fn effective_address(base: Val, mem_arg: MemArg) -> Option<nat> {
    match base {
        Val::I32(b) => Some(((b as u32) as nat) + (mem_arg.offset as nat)),
        _ => None,
    }
}

/// A load from memory 0. Fails with `Trapped` where the address is no
/// 32-bit integer or the bytes lie outside the memory.
pub open spec fn step_load(s: RuntimeView, access: Access, mem_arg: MemArg) -> Step {
    if s.value_stack.len() == 0 {
        Step::Fault(Error::ExpectedValue)
    } else if s.store.mems.len() == 0 {
        Step::Fault(Error::InvalidIndexForMem(0))
    } else {
        let data = s.store.mems[0].data;
        match effective_address(s.value_stack.last(), mem_arg) {
            Some(ea) if ea + access.width <= data.len() => Step::Next(
                advance(
                    with_stack(
                        s,
                        s.value_stack.drop_last().push(
                            loaded_value(access, data.subrange(ea as int, ea + access.width)),
                        ),
                    ),
                ),
            ),
            _ => Step::Fault(Error::Trapped),
        }
    }
}

/// A store to memory 0. Fails with `Trapped` where the address is no
/// 32-bit integer, the value is not of the type that the instruction
/// stores, or the bytes lie outside the memory.
pub open spec fn step_store(s: RuntimeView, access: Access, mem_arg: MemArg) -> Step {
    if s.value_stack.len() < 2 {
        Step::Fault(Error::ExpectedValue)
    } else if s.store.mems.len() == 0 {
        Step::Fault(Error::InvalidIndexForMem(0))
    } else {
        let value = s.value_stack.last();
        let base = s.value_stack[s.value_stack.len() - 2];
        let mem = s.store.mems[0];
        match (effective_address(base, mem_arg), stored_bytes(access, value)) {
            (Some(ea), Some(bytes)) if ea + access.width <= mem.data.len() => Step::Next(
                advance(
                    RuntimeView {
                        value_stack: s.value_stack.subrange(0, s.value_stack.len() - 2),
                        store: StoreView {
                            mems: s.store.mems.update(
                                0,
                                MemInstView { data: written(mem.data, ea as int, bytes), ..mem },
                            ),
                            ..s.store
                        },
                        ..s
                    },
                ),
            ),
            _ => Step::Fault(Error::Trapped),
        }
    }
}

/// `memory.size`: the number of pages of memory 0.
pub open spec fn step_memory_size(s: RuntimeView) -> Step {
    if s.store.mems.len() == 0 {
        Step::Fault(Error::InvalidIndexForMem(0))
    } else {
        Step::Next(
            advance(
                with_stack(
                    s,
                    s.value_stack.push(Val::I32((s.store.mems[0].data.len() / PAGE_SIZE as nat) as i32)),
                ),
            ),
        )
    }
}

/// An operator with one operand. Where only floating-point arithmetic can
/// give the result, the result is `answer`.
pub open spec fn step_unary(s: RuntimeView, op: UnOp, answer: Val) -> Step {
    if s.value_stack.len() == 0 {
        Step::Fault(Error::ExpectedValue)
    } else {
        let rest = s.value_stack.drop_last();
        match unary_outcome(op, s.value_stack.last()) {
            Outcome::Value(v) => Step::Next(advance(with_stack(s, rest.push(v)))),
            Outcome::Float => if s.has_float_unit {
                Step::Next(advance(with_stack(s, rest.push(answer))))
            } else {
                Step::Fault(Error::FloatUnitNotSet)
            },
            Outcome::Undefined => Step::Fault(Error::UndefinedUnaryOp),
        }
    }
}

/// An operator with two operands, of which the second is on top. Where
/// only floating-point arithmetic can give the result, the result is
/// `answer`.
pub open spec fn step_binary(s: RuntimeView, op: BinOp, answer: Val) -> Step {
    if s.value_stack.len() < 2 {
        Step::Fault(Error::ExpectedValue)
    } else {
        let rhs = s.value_stack.last();
        let lhs = s.value_stack[s.value_stack.len() - 2];
        let rest = s.value_stack.subrange(0, s.value_stack.len() - 2);
        match binary_outcome(op, lhs, rhs) {
            Outcome::Value(v) => Step::Next(advance(with_stack(s, rest.push(v)))),
            Outcome::Float => if s.has_float_unit {
                Step::Next(advance(with_stack(s, rest.push(answer))))
            } else {
                Step::Fault(Error::FloatUnitNotSet)
            },
            Outcome::Undefined => Step::Fault(Error::UndefinedBinaryOp),
        }
    }
}

/// `select`: of the two values under the condition, the lower one where
/// the condition is an integer other than 0, else the upper one.
pub open spec fn step_select(s: RuntimeView) -> Step {
    let len = s.value_stack.len();
    if len < 3 {
        Step::Fault(Error::ExpectedValue)
    } else {
        let chosen = if val_is_true(s.value_stack[len - 1]) {
            s.value_stack[len - 3]
        } else {
            s.value_stack[len - 2]
        };
        Step::Next(advance(with_stack(s, s.value_stack.subrange(0, len - 3).push(chosen))))
    }
}

/// What the operation `op` makes of the state `s`, in which a call is
/// under way. `answer` is what the outside has answered, where the
/// operation asks it.
pub open spec fn apply(s: RuntimeView, op: Operation, answer: Val) -> Step {
    match op {
        Operation::Unreachable => Step::Fault(Error::Trapped),
        Operation::Nop => Step::Next(advance(s)),
        Operation::Block(t) => enter(s, LabelKind::Block, t, succ(top(s).pc)),
        Operation::Loop(t) => enter(s, LabelKind::Loop { start_pc: top(s).pc }, t, succ(top(s).pc)),
        Operation::If(t) => step_if(s, t),
        Operation::Else => step_else(s),
        Operation::End => step_end(s),
        Operation::Br(level) => step_br(s, level),
        Operation::BrIf(level) => step_br_if(s, level),
        Operation::Return => leave_frame(s),
        Operation::Call(func_index) => step_call(s, func_index, answer),
        Operation::CallIndirect(type_index, table_index) => step_call_indirect(
            s,
            type_index,
            table_index,
            answer,
        ),
        Operation::Drop => if s.value_stack.len() == 0 {
            Step::Fault(Error::ExpectedValue)
        } else {
            Step::Next(advance(with_stack(s, s.value_stack.drop_last())))
        },
        Operation::Select => step_select(s),
        Operation::LocalGet(index) => step_local_get(s, index),
        Operation::LocalSet(index) => step_local_set(s, index, false),
        Operation::LocalTee(index) => step_local_set(s, index, true),
        Operation::GlobalGet(index) => step_global_get(s, index),
        Operation::GlobalSet(index) => step_global_set(s, index),
        Operation::Load(access, mem_arg) => step_load(s, access, mem_arg),
        Operation::Store(access, mem_arg) => step_store(s, access, mem_arg),
        Operation::MemorySize => step_memory_size(s),
        Operation::Const(v) => Step::Next(advance(with_stack(s, s.value_stack.push(v)))),
        Operation::Unary(op) => step_unary(s, op, answer),
        Operation::Binary(op) => step_binary(s, op, answer),
        Operation::Unsupported => Step::Fault(Error::UnsupportedInstruction),
    }
}

/// What a call of the function at `addr` asks of the outside: the result
/// of an imported function on the topmost values of the stack, as many as
/// it has parameters.
pub open spec fn function_request(s: RuntimeView, addr: usize) -> Option<Request> {
    if addr < s.store.funcs.len() {
        match s.store.funcs[addr as int] {
            FuncInstView::External(f) => if s.value_stack.len() >= f.func_type.params.len()
                && s.has_hook {
                Some(
                    Request::External {
                        func: f,
                        args: s.value_stack.subrange(
                            s.value_stack.len() - f.func_type.params.len(),
                            s.value_stack.len() as int,
                        ),
                    },
                )
            } else {
                None
            },
            _ => None,
        }
    } else {
        None
    }
}

/// What a `call` asks of the outside.
pub open spec fn call_request(s: RuntimeView, func_index: u32) -> Option<Request> {
    function_request(s, func_index as usize)
}

/// What a `call_indirect` asks of the outside.
pub open spec fn indirect_request(s: RuntimeView, type_index: u32, table_index: u32) -> Option<Request> {
    if s.value_stack.len() == 0 {
        None
    } else {
        let popped = with_stack(s, s.value_stack.drop_last());
        match indirect_target(popped, s.value_stack.last(), type_index, table_index) {
            Ok(addr) => function_request(popped, addr),
            Err(_) => None,
        }
    }
}

/// What an operator with one operand asks of the outside.
pub open spec fn unary_request(s: RuntimeView, op: UnOp) -> Option<Request> {
    if s.value_stack.len() >= 1 && s.has_float_unit && unary_outcome(op, s.value_stack.last())
        is Float {
        Some(Request::Unary { op, operand: s.value_stack.last() })
    } else {
        None
    }
}

/// What an operator with two operands asks of the outside.
pub open spec fn binary_request(s: RuntimeView, op: BinOp) -> Option<Request> {
    if s.value_stack.len() >= 2 && s.has_float_unit && binary_outcome(
        op,
        s.value_stack[s.value_stack.len() - 2],
        s.value_stack.last(),
    ) is Float {
        Some(
            Request::Binary {
                op,
                lhs: s.value_stack[s.value_stack.len() - 2],
                rhs: s.value_stack.last(),
            },
        )
    } else {
        None
    }
}

/// What the operation `op` asks of the outside in the state `s`.
pub open spec fn asked(s: RuntimeView, op: Operation) -> Option<Request> {
    match op {
        Operation::Call(func_index) => call_request(s, func_index),
        Operation::CallIndirect(type_index, table_index) => indirect_request(
            s,
            type_index,
            table_index,
        ),
        Operation::Unary(op) => unary_request(s, op),
        Operation::Binary(op) => binary_request(s, op),
        _ => None,
    }
}

/// What the machine asks of the outside in the state `s`, if anything:
/// the step that is due needs the answer to this request.
#[verifier::opaque]
pub open spec fn request(s: RuntimeView) -> Option<Request> {
    match current(s) {
        None => None,
        Some(i) => asked(s, operation(i)),
    }
}

/// `br_table`: the index is popped, and the branch goes to the label that
/// the table gives for it, or to the default where the table is too short.
/// Fails with `Trapped` where the index is no 32-bit integer.
pub open spec fn step_br_table(s: RuntimeView, table: Seq<u32>, default: u32) -> Step {
    if s.value_stack.len() == 0 {
        Step::Fault(Error::ExpectedValue)
    } else {
        let popped = with_stack(s, s.value_stack.drop_last());
        match s.value_stack.last() {
            Val::I32(i) => step_br(
                popped,
                if (i as u32) < table.len() {
                    table[(i as u32) as int]
                } else {
                    default
                },
            ),
            _ => Step::Fault(Error::Trapped),
        }
    }
}

/// One step from the state `s`, in which an instruction is due.
#[verifier::opaque]
pub open spec fn step(s: RuntimeView, answer: Val) -> Step {
    match current(s)->0 {
        Instr::BrTable { label_indexes, default_index } => step_br_table(
            s,
            label_indexes,
            default_index,
        ),
        i => apply(s, operation(i), answer),
    }
}

/// How a run ends: in a state in which no call is under way, or with a
/// failure, in the state that the steps before the failing one have left.
pub enum Run {
    Done(RuntimeView),
    Fault(Error, RuntimeView),
}

/// The run of at most `fuel` steps from the state `s`. The run is done
/// when no call is under way. Each request of the machine is answered by
/// the next of `answers`. The run fails with `ExpectedInstruction` where a
/// call has run past its last instruction, and with `StepLimitExceeded`
/// where a call is still under way after `fuel` steps. A run that fails
/// stops in the state in which the failure arose: what the steps before
/// have written to globals and memories stays written.
pub open spec fn run(s: RuntimeView, fuel: nat, answers: Seq<Val>) -> Run
    decreases fuel,
{
    if s.call_stack.len() == 0 {
        Run::Done(s)
    } else if current(s) is None {
        Run::Fault(Error::ExpectedInstruction, s)
    } else if fuel == 0 {
        Run::Fault(Error::StepLimitExceeded, s)
    } else {
        let asks = request(s) is Some && answers.len() > 0;
        let answer = if asks {
            answers[0]
        } else {
            Val::Void
        };
        let rest = if asks {
            answers.drop_first()
        } else {
            answers
        };
        match step(s, answer) {
            Step::Next(next) => run(next, (fuel - 1) as nat, rest),
            Step::Fault(e) => Run::Fault(e, s),
        }
    }
}

/// The export with the given name: the last one, where several have it.
pub open spec fn find_export(exports: Seq<ExportInstView>, name: Seq<char>) -> Option<ExportInstView>
    decreases exports.len(),
{
    if exports.len() == 0 {
        None
    } else if exports.last().name == name {
        Some(exports.last())
    } else {
        find_export(exports.drop_last(), name)
    }
}

/// The state in which a call of `f` on `args` starts from outside: the
/// operand stack is empty and the call is the only one under way. Its locals
/// are the arguments, then zeros for the locals that its body declares.
pub open spec fn entered(s: RuntimeView, f: InternalFuncInstView, args: Seq<Val>) -> RuntimeView {
    RuntimeView {
        value_stack: Seq::empty(),
        call_stack: seq![
            new_frame(
                args + defaults(f.body.locals),
                f.func_type.results.len() as usize,
                0,
                f.body.code,
            ),
        ],
        ..s
    }
}

/// How a call from outside ends: with a value and a state, or with a
/// failure and the state in which it arose.
pub enum Called {
    Returned(Val, RuntimeView),
    Fault(Error, RuntimeView),
}

/// What a call of the function at `addr` on `args` gives, from the state
/// `s`, within `fuel` steps, where the outside answers with `answers`.
/// A function of the module runs until no call is under way; then the
/// topmost value of the stack is taken off and returned where the function
/// has a result, and `Val::Void` is returned where it has none. An imported
/// function is what the hook answers.
pub open spec fn called(s: RuntimeView, fuel: nat, addr: usize, args: Seq<Val>, answers: Seq<Val>) -> Called {
    if addr >= s.store.funcs.len() {
        Called::Fault(Error::InvalidIndexForFunc(addr), s)
    } else {
        match s.store.funcs[addr as int] {
            FuncInstView::Internal(f) => match run(entered(s, f, args), fuel, answers) {
                Run::Done(end) => if f.func_type.results.len() > 0 {
                    if end.value_stack.len() == 0 {
                        Called::Fault(Error::ExpectedValue, end)
                    } else {
                        Called::Returned(
                            end.value_stack.last(),
                            with_stack(end, end.value_stack.drop_last()),
                        )
                    }
                } else {
                    Called::Returned(Val::Void, end)
                },
                Run::Fault(e, stopped) => Called::Fault(e, stopped),
            },
            FuncInstView::External(f) => if !s.has_hook {
                Called::Fault(Error::ExternalHookNotSet, s)
            } else if answers.len() > 0 {
                Called::Returned(answers[0], s)
            } else {
                Called::Returned(Val::Void, s)
            },
        }
    }
}

} // verus!
