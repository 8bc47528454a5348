//! The machine itself.

use crate::binary::instruction::{copy_instructions, BlockType, Instr, MemArg};
use crate::runtime::frame::Frame;
use crate::runtime::instances::{ExportInst, ExternalFuncInst, FuncInst, FuncInstView};
use crate::runtime::label::{Label, LabelKind};
use crate::runtime::laws::{lemma_requests_need_registrations, lemma_step_keeps_registrations};
use crate::runtime::machine::{
    advance, apply, asked, at, binary_request, call_function, call_request, called, cleaned,
    current, defaults, else_or_end_pc, end_pc, enter, entered, find_export, finish_external,
    function_request, indirect_request, indirect_target, leave_frame, request, run, scan_end, step,
    step_binary, step_br, step_br_if, step_call, step_call_indirect, step_else, step_end,
    step_global_get, step_global_set, step_if, step_load, step_local_get, step_local_set,
    step_memory_size, step_select, step_store, step_unary, succ, top, unary_request, with_stack,
    Called, Request, Run, RuntimeView, Step,
};
use crate::runtime::memory::{load_value, store_bytes, write_bytes};
use crate::runtime::operation::{access_ok, operation_of, Access, Operation};
use crate::runtime::operators::{BinOp, Outcome, UnOp};
use crate::runtime::result::{Error, Result};
use crate::runtime::store::{PAGE_SIZE, Store};
use crate::runtime::value::{ExternalVal, Ref, Val};
use crate::types::ValueType;
use crate::views::{lemma_views_push, views};
use vstd::slice::{slice_subrange, slice_to_vec};
use vstd::prelude::*;

verus! {

/// What the embedder provides for the functions that a module imports.
pub trait ExternalHook {
    /// Whether `answer` is something that this hook has given, or gives,
    /// for `request`. The hook says what this means; the library only notes
    /// that every answer it uses is one that a call of the hook has given
    /// for the request in question. A hook that says nothing of it accepts
    /// every answer.
    open spec fn answered(&self, request: Request, answer: Val) -> bool {
        true
    }

    /// The result of the imported function `func` on `args`; `Val::Void`
    /// where it returns nothing.
    fn call(&self, func: &ExternalFuncInst, args: &Vec<Val>) -> (r: Val)
        ensures
            self.answered(Request::External { func: func@, args: args@ }, r),
    ;
}

/// What the embedder provides for floating-point arithmetic, which this
/// library does not do itself. Numbers go in and out as their bits.
pub trait FloatUnit {
    /// Whether `answer` is something that this unit has given, or gives,
    /// for `request`. The unit says what this means; one that says nothing
    /// of it accepts every answer.
    open spec fn answered(&self, request: Request, answer: Val) -> bool {
        true
    }

    /// The result of the operator `op` on `operand`.
    fn unary(&self, op: UnOp, operand: Val) -> (r: Val)
        ensures
            self.answered(Request::Unary { op, operand }, r),
    ;

    /// The result of the operator `op` on `lhs` and `rhs`.
    fn binary(&self, op: BinOp, lhs: Val, rhs: Val) -> (r: Val)
        ensures
            self.answered(Request::Binary { op, lhs, rhs }, r),
    ;
}

/// Whether `answer` was given for `request` by what is registered: by the
/// hook for an imported function, by the floating-point unit for an
/// operator.
pub open spec fn told(
    hook: Option<Box<dyn ExternalHook>>,
    unit: Option<Box<dyn FloatUnit>>,
    request: Request,
    answer: Val,
) -> bool {
    match request {
        Request::External { .. } => hook matches Some(h) && h.answered(request, answer),
        _ => unit matches Some(u) && u.answered(request, answer),
    }
}

/// Whether every answer that the run of at most `fuel` steps from `s`
/// uses was given for the request that it answers: the machine has asked
/// what is registered, with just that request, and used what it was told.
pub open spec fn heard(
    hook: Option<Box<dyn ExternalHook>>,
    unit: Option<Box<dyn FloatUnit>>,
    s: RuntimeView,
    fuel: nat,
    answers: Seq<Val>,
) -> bool
    decreases fuel,
{
    if s.call_stack.len() == 0 || current(s) is None || fuel == 0 {
        true
    } else {
        let asks = request(s) is Some && answers.len() > 0;
        let answer = if asks {
            answers[0]
        } else {
            Val::Void
        };
        let rest = if asks {
            answers.drop_first()
        } else {
            answers
        };
        &&& asks ==> told(hook, unit, request(s)->0, answer)
        &&& match step(s, answer) {
            Step::Next(next) => heard(hook, unit, next, (fuel - 1) as nat, rest),
            Step::Fault(_) => true,
        }
    }
}

/// Whether every answer that a call of the function at `addr` from
/// outside uses was given for the request that it answers. An imported
/// function called from outside is asked of the hook with the arguments of
/// the call.
pub open spec fn heard_call(
    hook: Option<Box<dyn ExternalHook>>,
    unit: Option<Box<dyn FloatUnit>>,
    s: RuntimeView,
    fuel: nat,
    addr: usize,
    args: Seq<Val>,
    answers: Seq<Val>,
) -> bool {
    if addr >= s.store.funcs.len() {
        true
    } else {
        match s.store.funcs[addr as int] {
            FuncInstView::Internal(f) => heard(hook, unit, entered(s, f, args), fuel, answers),
            FuncInstView::External(f) => s.has_hook ==> answers.len() == 1 && told(
                hook,
                unit,
                Request::External { func: f, args },
                answers[0],
            ),
        }
    }
}

/// The machine: a store, the operand stack and the calls under way.
pub struct Runtime {
    store: Store,
    value_stack: Vec<Val>,
    call_stack: Vec<Frame>,
    hook: Option<Box<dyn ExternalHook>>,
    float_unit: Option<Box<dyn FloatUnit>>,
    step_limit: u64,
}

impl View for Runtime {
    type V = RuntimeView;

    closed spec fn view(&self) -> RuntimeView {
        RuntimeView {
            store: self.store@,
            value_stack: self.value_stack@,
            call_stack: views(self.call_stack@),
            has_hook: self.hook is Some,
            has_float_unit: self.float_unit is Some,
        }
    }
}

/// Whether what a step did is what `want` says: on success the machine is
/// in the next state; on failure the error was returned and the machine is
/// in the state it was in.
pub open spec fn lands(pre: RuntimeView, post: RuntimeView, r: Result<()>, want: Step) -> bool {
    match want {
        Step::Next(s) => r is Ok && post == s,
        Step::Fault(e) => r == Err::<(), Error>(e) && post == pre,
    }
}

/// The machine at rest: nothing on the operand stack, no call under way,
/// nothing registered.
pub open spec fn at_rest(store: crate::runtime::store::StoreView) -> RuntimeView {
    RuntimeView {
        store,
        value_stack: Seq::empty(),
        call_stack: Seq::empty(),
        has_hook: false,
        has_float_unit: false,
    }
}

/// Whether what a run did is what `want` says.
pub open spec fn ends(post: RuntimeView, r: Result<()>, want: Run) -> bool {
    match want {
        Run::Done(s) => r is Ok && post == s,
        Run::Fault(e, s) => r == Err::<(), Error>(e) && post == s,
    }
}

/// Whether what a call did is what `want` says.
pub open spec fn gives(post: RuntimeView, r: Result<Val>, want: Called) -> bool {
    match want {
        Called::Returned(v, s) => r == Ok::<Val, Error>(v) && post == s,
        Called::Fault(e, s) => r == Err::<Val, Error>(e) && post == s,
    }
}

/// A frame of the call stack replaced by another.
proof fn lemma_views_update(frames: Seq<Frame>, i: int, f: Frame)
    requires
        0 <= i < frames.len(),
    ensures
        views(frames.update(i, f)) == views(frames).update(i, f@),
{
    assert(views(frames.update(i, f)) =~= views(frames).update(i, f@));
}

impl Runtime {
    /// How many steps one run may take.
    pub closed spec fn step_budget(&self) -> nat {
        self.step_limit as nat
    }

    /// The hook that is registered for imported functions, if one is.
    pub closed spec fn registered_hook(&self) -> Option<Box<dyn ExternalHook>> {
        self.hook
    }

    /// The floating-point unit that is registered, if one is.
    pub closed spec fn registered_float_unit(&self) -> Option<Box<dyn FloatUnit>> {
        self.float_unit
    }

    /// Whether two machines have the same budget of steps, the same hook
    /// and the same floating-point unit.
    pub open spec fn keeps_setup(pre: Runtime, post: Runtime) -> bool {
        &&& post.step_budget() == pre.step_budget()
        &&& post.registered_hook() == pre.registered_hook()
        &&& post.registered_float_unit() == pre.registered_float_unit()
    }

    /// What is registered is what the state says is registered.
    pub proof fn lemma_registered(&self)
        ensures
            self@.has_hook == (self.registered_hook() is Some),
            self@.has_float_unit == (self.registered_float_unit() is Some),
    {
    }

    /// A machine for `store`, at rest: nothing on the operand stack, no
    /// call under way, nothing registered. A run may take `u64::MAX` steps.
    pub fn new(store: Store) -> (r: Runtime)
        ensures
            r@ == at_rest(store@),
            r.step_budget() == u64::MAX,
            r.registered_hook() is None,
            r.registered_float_unit() is None,
    {
        let r = Runtime {
            store,
            value_stack: Vec::new(),
            call_stack: Vec::new(),
            hook: None,
            float_unit: None,
            step_limit: u64::MAX,
        };
        proof {
            assert(r@.call_stack =~= Seq::empty());
            assert(r@.value_stack =~= Seq::empty());
        }
        r
    }

    /// Moves the innermost call to `pc`.
    fn set_pc(&mut self, pc: usize)
        requires
            old(self)@.call_stack.len() > 0,
        ensures
            final(self)@ == at(old(self)@, pc),
            Self::keeps_setup(*old(self), *final(self)),
    {
        let last = self.call_stack.len() - 1;
        let ghost frames = self.call_stack@;
        self.call_stack[last].pc = pc;
        proof {
            lemma_views_update(frames, last as int, self.call_stack@[last as int]);
            assert(self.call_stack@ =~= frames.update(last as int, self.call_stack@[last as int]));
        }
    }

    /// Moves the innermost call on by one instruction, if a call is left.
    fn increment_pc(&mut self)
        ensures
            final(self)@ == advance(old(self)@),
            Self::keeps_setup(*old(self), *final(self)),
    {
        if self.call_stack.len() > 0 {
            let last = self.call_stack.len() - 1;
            let pc = self.call_stack[last].pc;
            self.set_pc(if pc < usize::MAX { pc + 1 } else { pc });
        }
    }

    /// Cleans the operand stack behind a block or a call.
    fn clean_value_stack(&mut self, arity: usize, sp: usize) -> (r: Result<()>)
        ensures
            Self::keeps_setup(*old(self), *final(self)),
            match cleaned(old(self)@.value_stack, arity, sp) {
                Some(stack) => r is Ok && final(self)@ == with_stack(old(self)@, stack),
                None => r == Err::<(), Error>(Error::ExpectedValue) && final(self)@ == old(self)@,
            },
    {
        if arity > 0 {
            match self.value_stack.pop() {
                Some(value) => {
                    self.value_stack.truncate(sp);
                    self.value_stack.push(value);
                },
                None => {
                    return Err(Error::ExpectedValue);
                },
            }
        } else {
            self.value_stack.truncate(sp);
        }
        Ok(())
    }

    /// `local.get`.
    fn r_local_get(&mut self, local_index: u32) -> (r: Result<()>)
        requires
            old(self)@.call_stack.len() > 0,
        ensures
            Self::keeps_setup(*old(self), *final(self)),
            lands(old(self)@, final(self)@, r, step_local_get(old(self)@, local_index)),
    {
        let last = self.call_stack.len() - 1;
        if (local_index as usize) >= self.call_stack[last].locals.len() {
            return Err(Error::LocalNotFound);
        }
        let value = self.call_stack[last].locals[local_index as usize];
        self.value_stack.push(value);
        self.increment_pc();
        Ok(())
    }

    /// `local.set` where `keep` is false, `local.tee` where it is true.
    fn r_local_set(&mut self, local_index: u32, keep: bool) -> (r: Result<()>)
        requires
            old(self)@.call_stack.len() > 0,
        ensures
            Self::keeps_setup(*old(self), *final(self)),
            lands(old(self)@, final(self)@, r, step_local_set(old(self)@, local_index, keep)),
    {
        let last = self.call_stack.len() - 1;
        let depth = self.value_stack.len();
        if depth == 0 {
            return Err(Error::ExpectedValue);
        }
        if (local_index as usize) >= self.call_stack[last].locals.len() {
            return Err(Error::LocalNotFound);
        }
        let value = self.value_stack[depth - 1];
        if !keep {
            self.value_stack.pop();
        }
        let ghost frames = self.call_stack@;
        self.call_stack[last].locals.set(local_index as usize, value);
        proof {
            lemma_views_update(frames, last as int, self.call_stack@[last as int]);
            assert(self.call_stack@ =~= frames.update(last as int, self.call_stack@[last as int]));
        }
        self.increment_pc();
        Ok(())
    }

    /// `global.get`.
    fn r_global_get(&mut self, global_index: u32) -> (r: Result<()>)
        requires
            old(self)@.call_stack.len() > 0,
        ensures
            Self::keeps_setup(*old(self), *final(self)),
            lands(old(self)@, final(self)@, r, step_global_get(old(self)@, global_index)),
    {
        if (global_index as usize) >= self.store.globals.len() {
            return Err(Error::GlobalNotFound);
        }
        let value = self.store.globals[global_index as usize].value;
        self.value_stack.push(value);
        self.increment_pc();
        Ok(())
    }

    /// `global.set`.
    fn r_global_set(&mut self, global_index: u32) -> (r: Result<()>)
        requires
            old(self)@.call_stack.len() > 0,
        ensures
            Self::keeps_setup(*old(self), *final(self)),
            lands(old(self)@, final(self)@, r, step_global_set(old(self)@, global_index)),
    {
        let depth = self.value_stack.len();
        if depth == 0 {
            return Err(Error::ExpectedValue);
        }
        if (global_index as usize) >= self.store.globals.len() {
            return Err(Error::GlobalNotFound);
        }
        let value = self.value_stack[depth - 1];
        self.value_stack.pop();
        self.store.globals[global_index as usize].value = value;
        self.increment_pc();
        Ok(())
    }

    /// Looks for the end of the block that opens where the innermost call
    /// stands; with `stop_at_else`, for its `else` or its end.
    fn find_end(&self, stop_at_else: bool) -> (r: Option<usize>)
        requires
            current(self@) is Some,
        ensures
            r == scan_end(top(self@).instructions, top(self@).pc + 1, 0, stop_at_else),
            r matches Some(t) ==> top(self@).pc < t < top(self@).instructions.len(),
    {
        let frame = &self.call_stack[self.call_stack.len() - 1];
        let ghost code = views(frame.instructions@);
        proof {
            assert(top(self@) == frame@);
            assert(code.len() == frame.instructions.len());
        }
        let start = frame.pc + 1;
        let mut pos = start;
        let mut depth: usize = 0;
        while pos < frame.instructions.len()
            invariant
                code == views(frame.instructions@),
                code == top(self@).instructions,
                start == top(self@).pc + 1,
                start <= pos <= frame.instructions.len(),
                depth <= pos - start,
                scan_end(code, start as int, 0, stop_at_else) == scan_end(
                    code,
                    pos as int,
                    depth as nat,
                    stop_at_else,
                ),
            decreases frame.instructions.len() - pos,
        {
            proof {
                assert(code[pos as int] == frame.instructions@[pos as int]@);
            }
            match &frame.instructions[pos] {
                Instr::If { .. } | Instr::Block { .. } | Instr::Loop { .. } => {
                    depth = depth + 1;
                },
                Instr::End => {
                    if depth == 0 {
                        return Some(pos);
                    }
                    depth = depth - 1;
                },
                Instr::Else => {
                    if depth == 0 && stop_at_else {
                        return Some(pos);
                    }
                },
                _ => {},
            }
            pos = pos + 1;
        }
        None
    }

    /// The place of the `end` of the block that opens where the innermost
    /// call stands.
    fn get_end_pc(&self) -> (r: Result<usize>)
        requires
            current(self@) is Some,
        ensures
            match end_pc(top(self@).instructions, top(self@).pc) {
                Some(end) => r == Ok::<usize, Error>(end),
                None => r == Err::<usize, Error>(Error::UnexpectedEndOfInput),
            },
            r matches Ok(t) ==> top(self@).pc < t < top(self@).instructions.len(),
    {
        match self.find_end(false) {
            Some(end) => Ok(end),
            None => Err(Error::UnexpectedEndOfInput),
        }
    }

    /// The place of the `else` of the `if` that opens where the innermost
    /// call stands, or of its `end` where it has no `else`.
    fn get_else_or_end_pc(&self) -> (r: Result<usize>)
        requires
            current(self@) is Some,
        ensures
            match else_or_end_pc(top(self@).instructions, top(self@).pc) {
                Some(end) => r == Ok::<usize, Error>(end),
                None => r == Err::<usize, Error>(Error::UnexpectedEndOfInput),
            },
            r matches Ok(t) ==> top(self@).pc < t < top(self@).instructions.len(),
    {
        match self.find_end(true) {
            Some(end) => Ok(end),
            None => Err(Error::UnexpectedEndOfInput),
        }
    }

    /// Enters a block: pushes its label and moves to `next`.
    fn enter_block(&mut self, kind: LabelKind, block_type: BlockType, next: usize) -> (r: Result<()>)
        requires
            current(old(self)@) is Some,
        ensures
            Self::keeps_setup(*old(self), *final(self)),
            lands(old(self)@, final(self)@, r, enter(old(self)@, kind, block_type, next)),
    {
        let end = self.get_end_pc()?;
        let arity = match block_type.result_count() {
            Some(arity) => arity,
            None => {
                return Err(Error::UnsupportedInstruction);
            },
        };
        let label = Label { pc: end, sp: self.value_stack.len(), arity, kind, result_type: block_type };
        let last = self.call_stack.len() - 1;
        let ghost frames = self.call_stack@;
        self.call_stack[last].label_stack.push(label);
        proof {
            lemma_views_update(frames, last as int, self.call_stack@[last as int]);
            assert(self.call_stack@ =~= frames.update(last as int, self.call_stack@[last as int]));
        }
        self.set_pc(next);
        proof {
            assert(final(self)@.call_stack =~= enter(old(self)@, kind, block_type, next)->Next_0.call_stack);
        }
        Ok(())
    }

    /// `block`.
    fn r_block(&mut self, block_type: BlockType) -> (r: Result<()>)
        requires
            current(old(self)@) is Some,
        ensures
            Self::keeps_setup(*old(self), *final(self)),
            lands(
                old(self)@,
                final(self)@,
                r,
                enter(old(self)@, LabelKind::Block, block_type, succ(top(old(self)@).pc)),
            ),
    {
        let pc = self.pc();
        self.enter_block(LabelKind::Block, block_type, pc + 1)
    }

    /// `loop`.
    fn r_loop(&mut self, block_type: BlockType) -> (r: Result<()>)
        requires
            current(old(self)@) is Some,
        ensures
            Self::keeps_setup(*old(self), *final(self)),
            lands(
                old(self)@,
                final(self)@,
                r,
                enter(
                    old(self)@,
                    LabelKind::Loop { start_pc: top(old(self)@).pc },
                    block_type,
                    succ(top(old(self)@).pc),
                ),
            ),
    {
        let pc = self.pc();
        self.enter_block(LabelKind::Loop { start_pc: pc }, block_type, pc + 1)
    }

    /// Where the innermost call stands.
    fn pc(&self) -> (r: usize)
        requires
            current(self@) is Some,
        ensures
            r == top(self@).pc,
            r < usize::MAX,
    {
        let frame = &self.call_stack[self.call_stack.len() - 1];
        proof {
            assert(top(self@) == frame@);
            assert(views(frame.instructions@).len() == frame.instructions.len());
        }
        frame.pc
    }

    /// `if`.
    fn r_if(&mut self, block_type: BlockType) -> (r: Result<()>)
        requires
            current(old(self)@) is Some,
        ensures
            Self::keeps_setup(*old(self), *final(self)),
            lands(old(self)@, final(self)@, r, step_if(old(self)@, block_type)),
    {
        let condition = match self.value_stack.pop() {
            Some(condition) => condition,
            None => {
                return Err(Error::ExpectedValue);
            },
        };
        match condition {
            Val::I32(_) => {},
            _ => {
                self.value_stack.push(condition);
                proof {
                    assert(self@.value_stack =~= old(self)@.value_stack);
                }
                return Err(Error::IfConditionShouldBeI32);
            },
        }
        let pc = self.pc();
        let ghost popped = self@;
        let entered = if condition.is_false() {
            let target = match self.get_else_or_end_pc() {
                Ok(target) => target,
                Err(e) => {
                    self.value_stack.push(condition);
                    proof {
                        assert(self@.value_stack =~= old(self)@.value_stack);
                    }
                    return Err(e);
                },
            };
            let frame = &self.call_stack[self.call_stack.len() - 1];
            proof {
                assert(top(self@) == frame@);
                assert(views(frame.instructions@).len() == frame.instructions.len());
                assert(views(frame.instructions@)[target as int] == frame.instructions@[target as int]@);
            }
            let next = match &frame.instructions[target] {
                Instr::Else => if target < usize::MAX {
                    target + 1
                } else {
                    target
                },
                _ => target,
            };
            self.enter_block(LabelKind::If, block_type, next)
        } else {
            self.enter_block(LabelKind::If, block_type, pc + 1)
        };
        if entered.is_err() {
            self.value_stack.push(condition);
            proof {
                assert(self@.value_stack =~= old(self)@.value_stack);
            }
        }
        entered
    }

    /// `else`.
    fn r_else(&mut self) -> (r: Result<()>)
        requires
            old(self)@.call_stack.len() > 0,
        ensures
            Self::keeps_setup(*old(self), *final(self)),
            lands(old(self)@, final(self)@, r, step_else(old(self)@)),
    {
        let last = self.call_stack.len() - 1;
        let ghost frames = self.call_stack@;
        if self.call_stack[last].label_stack.len() == 0 {
            return Err(Error::ExpectedLabel);
        }
        let label = match self.call_stack[last].label_stack.pop() {
            Some(label) => label,
            None => {
                return Err(Error::ExpectedLabel);
            },
        };
        proof {
            lemma_views_update(frames, last as int, self.call_stack@[last as int]);
            assert(self.call_stack@ =~= frames.update(last as int, self.call_stack@[last as int]));
        }
        self.set_pc(if label.pc < usize::MAX { label.pc + 1 } else { label.pc });
        proof {
            assert(final(self)@.call_stack =~= step_else(old(self)@)->Next_0.call_stack);
        }
        Ok(())
    }

    /// The innermost call returns.
    fn r_return(&mut self) -> (r: Result<()>)
        requires
            old(self)@.call_stack.len() > 0,
        ensures
            Self::keeps_setup(*old(self), *final(self)),
            lands(old(self)@, final(self)@, r, leave_frame(old(self)@)),
    {
        let last = self.call_stack.len() - 1;
        let arity = self.call_stack[last].arity;
        let sp = self.call_stack[last].sp;
        proof {
            assert(top(self@) == self.call_stack@[last as int]@);
        }
        self.clean_value_stack(arity, sp)?;
        let ghost frames = self.call_stack@;
        self.call_stack.pop();
        proof {
            assert(views(self.call_stack@) =~= views(frames).drop_last());
        }
        self.increment_pc();
        Ok(())
    }

    /// `end`.
    fn r_end(&mut self) -> (r: Result<()>)
        requires
            old(self)@.call_stack.len() > 0,
        ensures
            Self::keeps_setup(*old(self), *final(self)),
            lands(old(self)@, final(self)@, r, step_end(old(self)@)),
    {
        let last = self.call_stack.len() - 1;
        let open = self.call_stack[last].label_stack.len();
        proof {
            assert(top(self@) == self.call_stack@[last as int]@);
        }
        if open == 0 {
            return self.r_return();
        }
        let label = self.call_stack[last].label_stack[open - 1];
        self.clean_value_stack(label.arity, label.sp)?;
        let ghost frames = self.call_stack@;
        self.call_stack[last].label_stack.pop();
        proof {
            lemma_views_update(frames, last as int, self.call_stack@[last as int]);
            assert(self.call_stack@ =~= frames.update(last as int, self.call_stack@[last as int]));
        }
        self.set_pc(if label.pc < usize::MAX { label.pc + 1 } else { label.pc });
        proof {
            assert(final(self)@.call_stack =~= step_end(old(self)@)->Next_0.call_stack);
        }
        Ok(())
    }

    /// `br`.
    fn r_br(&mut self, level: u32) -> (r: Result<()>)
        requires
            old(self)@.call_stack.len() > 0,
        ensures
            Self::keeps_setup(*old(self), *final(self)),
            lands(old(self)@, final(self)@, r, step_br(old(self)@, level)),
    {
        let last = self.call_stack.len() - 1;
        let count = self.call_stack[last].label_stack.len();
        if (level as usize) >= count {
            return Err(Error::ExpectedLabel);
        }
        let index = count - 1 - level as usize;
        let label = self.call_stack[last].label_stack[index];
        self.clean_value_stack(label.arity, label.sp)?;
        let ghost frames = self.call_stack@;
        let pc = match label.kind {
            LabelKind::Loop { start_pc } => {
                self.call_stack[last].label_stack.truncate(index + 1);
                start_pc
            },
            _ => {
                self.call_stack[last].label_stack.truncate(index);
                label.pc
            },
        };
        proof {
            lemma_views_update(frames, last as int, self.call_stack@[last as int]);
            assert(self.call_stack@ =~= frames.update(last as int, self.call_stack@[last as int]));
        }
        self.set_pc(if pc < usize::MAX { pc + 1 } else { pc });
        proof {
            assert(final(self)@.call_stack =~= step_br(old(self)@, level)->Next_0.call_stack);
        }
        Ok(())
    }

    /// `br_if`.
    fn r_br_if(&mut self, level: u32) -> (r: Result<()>)
        requires
            old(self)@.call_stack.len() > 0,
        ensures
            Self::keeps_setup(*old(self), *final(self)),
            lands(old(self)@, final(self)@, r, step_br_if(old(self)@, level)),
    {
        let value = match self.value_stack.pop() {
            Some(value) => value,
            None => {
                return Err(Error::ExpectedValue);
            },
        };
        if value.is_true() {
            let branched = self.r_br(level);
            if branched.is_err() {
                self.value_stack.push(value);
                proof {
                    assert(self@.value_stack =~= old(self)@.value_stack);
                }
            }
            branched
        } else {
            self.increment_pc();
            Ok(())
        }
    }

    /// The zeros of a list of value types.
    fn zeros(types: &Vec<ValueType>) -> (r: Vec<Val>)
        ensures
            r@ == defaults(types@),
    {
        let mut out: Vec<Val> = Vec::new();
        let mut i: usize = 0;
        while i < types.len()
            invariant
                i <= types.len(),
                out.len() == i,
                forall|j: int| 0 <= j < i ==> #[trigger] out@[j] == defaults(types@)[j],
            decreases types.len() - i,
        {
            out.push(Val::default_of(&types[i]));
            i = i + 1;
        }
        proof {
            assert(out@ =~= defaults(types@));
        }
        out
    }

    /// Calls the function at `index`. The second result is what the hook
    /// answered, where it was asked.
    fn call_addr(&mut self, index: usize) -> (r: (Result<()>, Ghost<Val>))
        requires
            old(self)@.call_stack.len() > 0,
        ensures
            Self::keeps_setup(*old(self), *final(self)),
            lands(old(self)@, final(self)@, r.0, call_function(old(self)@, index, r.1@)),
            function_request(old(self)@, index) is None ==> r.1@ == Val::Void,
            function_request(old(self)@, index) matches Some(asked) ==> told(
                old(self).registered_hook(),
                old(self).registered_float_unit(),
                asked,
                r.1@,
            ),
    {
        if index >= self.store.funcs.len() {
            return (Err(Error::InvalidIndexForFunc(index)), Ghost(Val::Void));
        }
        proof {
            assert(self@.store.funcs[index as int] == self.store.funcs@[index as int]@);
        }
        let depth = self.value_stack.len();
        match &self.store.funcs[index] {
            FuncInst::Internal(func) => {
                let n = func.func_type.params.len();
                if depth < n {
                    return (Err(Error::ExpectedValue), Ghost(Val::Void));
                }
                let mut tail = Self::zeros(&func.body.locals);
                let code = copy_instructions(&func.body.code);
                let arity = func.func_type.results.len();
                let mut locals = self.value_stack.split_off(depth - n);
                locals.append(&mut tail);
                let sp = self.value_stack.len();
                let frame = Frame::new(locals, arity, sp, code);
                proof {
                    lemma_views_push(self.call_stack@, frame);
                }
                self.call_stack.push(frame);
                (Ok(()), Ghost(Val::Void))
            },
            FuncInst::External(func) => {
                let n = func.func_type.params.len();
                if depth < n {
                    return (Err(Error::ExpectedValue), Ghost(Val::Void));
                }
                let answer = match (&self.hook, self.external_request(index)) {
                    (Some(hook), Some((asked, args))) => hook.call(asked, &args),
                    _ => {
                        return (Err(Error::ExternalHookNotSet), Ghost(Val::Void));
                    },
                };
                self.answer_external(index, answer);
                (Ok(()), Ghost(answer))
            },
        }
    }

    /// What the hook is to be asked when the function at `index` is
    /// called: the imported function and its arguments, which are the
    /// topmost values of the operand stack, as many as the function has
    /// parameters, in the order in which they were pushed. `None` where the
    /// machine asks nothing: the function is not there or is one of the
    /// module, the stack holds too few values, or no hook is registered.
    pub fn external_request(&self, index: usize) -> (r: Option<(&ExternalFuncInst, Vec<Val>)>)
        ensures
            match function_request(self@, index) {
                Some(Request::External { func, args }) => r matches Some(asked) && asked.0@ == func
                    && asked.1@ == args,
                _ => r is None,
            },
    {
        if index >= self.store.funcs.len() || self.hook.is_none() {
            return None;
        }
        proof {
            assert(self@.store.funcs[index as int] == self.store.funcs@[index as int]@);
        }
        match &self.store.funcs[index] {
            FuncInst::External(func) => {
                let n = func.func_type.params.len();
                let depth = self.value_stack.len();
                if depth < n {
                    return None;
                }
                let args = slice_to_vec(slice_subrange(self.value_stack.as_slice(), depth - n, depth));
                Some((func, args))
            },
            _ => None,
        }
    }

    /// Takes in what the hook has answered for the imported function at
    /// `index`: the arguments are taken off the operand stack, the answer is
    /// pushed where the function has a result, and the caller moves on.
    fn answer_external(&mut self, index: usize, answer: Val)
        requires
            old(self)@.call_stack.len() > 0,
            function_request(old(self)@, index) is Some,
        ensures
            Self::keeps_setup(*old(self), *final(self)),
            old(self)@.store.funcs[index as int] matches FuncInstView::External(f) && final(self)@
                == finish_external(old(self)@, f, answer),
    {
        proof {
            assert(self@.store.funcs[index as int] == self.store.funcs@[index as int]@);
        }
        let depth = self.value_stack.len();
        let (n, has_result) = match &self.store.funcs[index] {
            FuncInst::External(func) => (
                func.func_type.params.len(),
                func.func_type.results.len() > 0,
            ),
            FuncInst::Internal(func) => (
                func.func_type.params.len(),
                func.func_type.results.len() > 0,
            ),
        };
        self.value_stack.truncate(depth - n);
        if has_result {
            self.value_stack.push(answer);
        }
        self.increment_pc();
    }

    /// `call`. The second result is what the hook answered, where it was
    /// asked.
    fn r_call(&mut self, func_index: u32) -> (r: (Result<()>, Ghost<Val>))
        requires
            old(self)@.call_stack.len() > 0,
        ensures
            Self::keeps_setup(*old(self), *final(self)),
            lands(old(self)@, final(self)@, r.0, step_call(old(self)@, func_index, r.1@)),
            call_request(old(self)@, func_index) is None ==> r.1@ == Val::Void,
            call_request(old(self)@, func_index) matches Some(asked) ==> told(
                old(self).registered_hook(),
                old(self).registered_float_unit(),
                asked,
                r.1@,
            ),
    {
        self.call_addr(func_index as usize)
    }

    /// Whether two lists of value types are the same.
    fn same_types(a: &Vec<ValueType>, b: &Vec<ValueType>) -> (r: bool)
        ensures
            r == (a@ == b@),
    {
        if a.len() != b.len() {
            return false;
        }
        let mut i: usize = 0;
        while i < a.len()
            invariant
                a.len() == b.len(),
                i <= a.len(),
                forall|j: int| 0 <= j < i ==> a@[j] == b@[j],
            decreases a.len() - i,
        {
            if a[i] != b[i] {
                return false;
            }
            i = i + 1;
        }
        proof {
            assert(a@ =~= b@);
        }
        true
    }

    /// The function that a `call_indirect` names.
    fn indirect_target(&self, index: Val, type_index: u32, table_index: u32) -> (r: Result<usize>)
        ensures
            r == indirect_target(self@, index, type_index, table_index),
    {
        let i = match index {
            Val::I32(i) => (i as u32) as usize,
            _ => {
                return Err(Error::Trapped);
            },
        };
        if (table_index as usize) >= self.store.tables.len() {
            return Err(Error::Trapped);
        }
        proof {
            assert(self@.store.tables[table_index as int] == self.store.tables@[table_index as int]@);
        }
        let elems = &self.store.tables[table_index as usize].elems;
        if i >= elems.len() {
            return Err(Error::Trapped);
        }
        match elems[i] {
            Ref::Func(addr) => {
                if addr >= self.store.funcs.len() {
                    return Err(Error::InvalidIndexForFunc(addr));
                }
                if (type_index as usize) >= self.store.module.types.len() {
                    return Err(Error::InvalidIndexForFuncType(type_index as usize));
                }
                proof {
                    assert(self@.store.funcs[addr as int] == self.store.funcs@[addr as int]@);
                    assert(self@.store.module.types[type_index as int]
                        == self.store.module.types@[type_index as int]@);
                }
                let wanted = &self.store.module.types[type_index as usize];
                let found = match &self.store.funcs[addr] {
                    FuncInst::Internal(f) => &f.func_type,
                    FuncInst::External(f) => &f.func_type,
                };
                if Self::same_types(&found.params, &wanted.params) && Self::same_types(
                    &found.results,
                    &wanted.results,
                ) {
                    Ok(addr)
                } else {
                    Err(Error::Trapped)
                }
            },
            _ => Err(Error::Trapped),
        }
    }

    /// `call_indirect`. The second result is what the hook answered, where
    /// it was asked.
    fn r_call_indirect(&mut self, type_index: u32, table_index: u32) -> (r: (Result<()>, Ghost<Val>))
        requires
            old(self)@.call_stack.len() > 0,
        ensures
            Self::keeps_setup(*old(self), *final(self)),
            lands(
                old(self)@,
                final(self)@,
                r.0,
                step_call_indirect(old(self)@, type_index, table_index, r.1@),
            ),
            indirect_request(old(self)@, type_index, table_index) is None ==> r.1@ == Val::Void,
            indirect_request(old(self)@, type_index, table_index) matches Some(asked) ==> told(
                old(self).registered_hook(),
                old(self).registered_float_unit(),
                asked,
                r.1@,
            ),
    {
        let index = match self.value_stack.pop() {
            Some(index) => index,
            None => {
                return (Err(Error::ExpectedValue), Ghost(Val::Void));
            },
        };
        let called = match self.indirect_target(index, type_index, table_index) {
            Ok(addr) => self.call_addr(addr),
            Err(e) => (Err(e), Ghost(Val::Void)),
        };
        if called.0.is_err() {
            self.value_stack.push(index);
            proof {
                assert(self@.value_stack =~= old(self)@.value_stack);
            }
        }
        called
    }

    /// `drop`.
    fn r_drop(&mut self) -> (r: Result<()>)
        requires
            old(self)@.call_stack.len() > 0,
        ensures
            Self::keeps_setup(*old(self), *final(self)),
            lands(old(self)@, final(self)@, r, apply(old(self)@, Operation::Drop, Val::Void)),
    {
        match self.value_stack.pop() {
            Some(_) => {
                self.increment_pc();
                Ok(())
            },
            None => Err(Error::ExpectedValue),
        }
    }

    /// `select`.
    fn r_select(&mut self) -> (r: Result<()>)
        requires
            old(self)@.call_stack.len() > 0,
        ensures
            Self::keeps_setup(*old(self), *final(self)),
            lands(old(self)@, final(self)@, r, step_select(old(self)@)),
    {
        let depth = self.value_stack.len();
        if depth < 3 {
            return Err(Error::ExpectedValue);
        }
        let chosen = if self.value_stack[depth - 1].is_true() {
            self.value_stack[depth - 3]
        } else {
            self.value_stack[depth - 2]
        };
        self.value_stack.truncate(depth - 3);
        self.value_stack.push(chosen);
        self.increment_pc();
        Ok(())
    }

    /// An operator with one operand. The second result is what the
    /// floating-point unit answered, where it was asked.
    fn r_unary(&mut self, op: UnOp) -> (r: (Result<()>, Ghost<Val>))
        requires
            old(self)@.call_stack.len() > 0,
        ensures
            Self::keeps_setup(*old(self), *final(self)),
            lands(old(self)@, final(self)@, r.0, step_unary(old(self)@, op, r.1@)),
            unary_request(old(self)@, op) is None ==> r.1@ == Val::Void,
            unary_request(old(self)@, op) matches Some(asked) ==> told(
                old(self).registered_hook(),
                old(self).registered_float_unit(),
                asked,
                r.1@,
            ),
    {
        let depth = self.value_stack.len();
        if depth == 0 {
            return (Err(Error::ExpectedValue), Ghost(Val::Void));
        }
        let operand = self.value_stack[depth - 1];
        let (result, answer) = match operand.unary(op) {
            Outcome::Value(v) => (v, Ghost(Val::Void)),
            Outcome::Float => match &self.float_unit {
                Some(unit) => {
                    let v = unit.unary(op, operand);
                    (v, Ghost(v))
                },
                None => {
                    return (Err(Error::FloatUnitNotSet), Ghost(Val::Void));
                },
            },
            Outcome::Undefined => {
                return (Err(Error::UndefinedUnaryOp), Ghost(Val::Void));
            },
        };
        self.value_stack.pop();
        self.value_stack.push(result);
        self.increment_pc();
        (Ok(()), answer)
    }

    /// An operator with two operands. The second result is what the
    /// floating-point unit answered, where it was asked.
    fn r_binary(&mut self, op: BinOp) -> (r: (Result<()>, Ghost<Val>))
        requires
            old(self)@.call_stack.len() > 0,
        ensures
            Self::keeps_setup(*old(self), *final(self)),
            lands(old(self)@, final(self)@, r.0, step_binary(old(self)@, op, r.1@)),
            binary_request(old(self)@, op) is None ==> r.1@ == Val::Void,
            binary_request(old(self)@, op) matches Some(asked) ==> told(
                old(self).registered_hook(),
                old(self).registered_float_unit(),
                asked,
                r.1@,
            ),
    {
        let depth = self.value_stack.len();
        if depth < 2 {
            return (Err(Error::ExpectedValue), Ghost(Val::Void));
        }
        let rhs = self.value_stack[depth - 1];
        let lhs = self.value_stack[depth - 2];
        let (result, answer) = match lhs.binary(op, &rhs) {
            Outcome::Value(v) => (v, Ghost(Val::Void)),
            Outcome::Float => match &self.float_unit {
                Some(unit) => {
                    let v = unit.binary(op, lhs, rhs);
                    (v, Ghost(v))
                },
                None => {
                    return (Err(Error::FloatUnitNotSet), Ghost(Val::Void));
                },
            },
            Outcome::Undefined => {
                return (Err(Error::UndefinedBinaryOp), Ghost(Val::Void));
            },
        };
        self.value_stack.truncate(depth - 2);
        self.value_stack.push(result);
        self.increment_pc();
        (Ok(()), answer)
    }

    /// A load from memory 0.
    fn r_load(&mut self, access: Access, mem_arg: MemArg) -> (r: Result<()>)
        requires
            old(self)@.call_stack.len() > 0,
            access_ok(access),
        ensures
            Self::keeps_setup(*old(self), *final(self)),
            lands(old(self)@, final(self)@, r, step_load(old(self)@, access, mem_arg)),
    {
        let depth = self.value_stack.len();
        if depth == 0 {
            return Err(Error::ExpectedValue);
        }
        let base = self.value_stack[depth - 1];
        if self.store.mems.len() == 0 {
            return Err(Error::InvalidIndexForMem(0));
        }
        proof {
            assert(self@.store.mems[0] == self.store.mems@[0]@);
        }
        let address: u64 = match base {
            Val::I32(b) => ((b as u32) as u64) + (mem_arg.offset as u64),
            _ => {
                return Err(Error::Trapped);
            },
        };
        let data = &self.store.mems[0].data;
        if address + (access.width as u64) > data.len() as u64 {
            return Err(Error::Trapped);
        }
        let start = address as usize;
        let value = load_value(
            access,
            slice_subrange(data.as_slice(), start, start + access.width as usize),
        );
        self.value_stack.pop();
        self.value_stack.push(value);
        self.increment_pc();
        Ok(())
    }

    /// A store to memory 0.
    fn r_store(&mut self, access: Access, mem_arg: MemArg) -> (r: Result<()>)
        requires
            old(self)@.call_stack.len() > 0,
            access_ok(access),
        ensures
            Self::keeps_setup(*old(self), *final(self)),
            lands(old(self)@, final(self)@, r, step_store(old(self)@, access, mem_arg)),
    {
        let depth = self.value_stack.len();
        if depth < 2 {
            return Err(Error::ExpectedValue);
        }
        let value = self.value_stack[depth - 1];
        let base = self.value_stack[depth - 2];
        if self.store.mems.len() == 0 {
            return Err(Error::InvalidIndexForMem(0));
        }
        proof {
            assert(self@.store.mems[0] == self.store.mems@[0]@);
        }
        let address: u64 = match base {
            Val::I32(b) => ((b as u32) as u64) + (mem_arg.offset as u64),
            _ => {
                return Err(Error::Trapped);
            },
        };
        let bytes = match store_bytes(access, value) {
            Some(bytes) => bytes,
            None => {
                return Err(Error::Trapped);
            },
        };
        if address + (access.width as u64) > self.store.mems[0].data.len() as u64 {
            return Err(Error::Trapped);
        }
        self.value_stack.truncate(depth - 2);
        let ghost mems = self.store.mems@;
        write_bytes(&mut self.store.mems[0].data, address as usize, &bytes);
        proof {
            assert(views(self.store.mems@) =~= views(mems).update(0, self.store.mems@[0]@));
        }
        self.increment_pc();
        Ok(())
    }

    /// `memory.size`.
    fn r_memory_size(&mut self) -> (r: Result<()>)
        requires
            old(self)@.call_stack.len() > 0,
        ensures
            Self::keeps_setup(*old(self), *final(self)),
            lands(old(self)@, final(self)@, r, step_memory_size(old(self)@)),
    {
        if self.store.mems.len() == 0 {
            return Err(Error::InvalidIndexForMem(0));
        }
        proof {
            assert(self@.store.mems[0] == self.store.mems@[0]@);
        }
        let pages = self.store.mems[0].data.len() / PAGE_SIZE;
        self.value_stack.push(Val::I32(pages as i32));
        self.increment_pc();
        Ok(())
    }

    /// Whether an instruction is due.
    fn has_current(&self) -> (r: bool)
        ensures
            r == (current(self@) is Some),
    {
        let depth = self.call_stack.len();
        if depth == 0 {
            return false;
        }
        let frame = &self.call_stack[depth - 1];
        proof {
            assert(top(self@) == frame@);
            assert(views(frame.instructions@).len() == frame.instructions.len());
        }
        frame.pc < frame.instructions.len()
    }

    /// Takes one step. The second result is what the outside answered,
    /// where it was asked.
    #[verifier::rlimit(40)]
    fn step(&mut self) -> (r: (Result<()>, Ghost<Val>))
        requires
            current(old(self)@) is Some,
        ensures
            Self::keeps_setup(*old(self), *final(self)),
            lands(old(self)@, final(self)@, r.0, step(old(self)@, r.1@)),
            request(old(self)@) is None ==> r.1@ == Val::Void,
            request(old(self)@) matches Some(asked) ==> told(
                old(self).registered_hook(),
                old(self).registered_float_unit(),
                asked,
                r.1@,
            ),
            request(old(self)@) is Some ==> r.0 is Ok,
    {
        let frame = &self.call_stack[self.call_stack.len() - 1];
        proof {
            reveal(step);
            reveal(request);
            assert(top(self@) == frame@);
            assert(views(frame.instructions@).len() == frame.instructions.len());
            assert(views(frame.instructions@)[frame.pc as int] == frame.instructions@[frame.pc as int]@);
        }
        match &frame.instructions[frame.pc] {
            Instr::BrTable { label_indexes, default_index } => {
                let depth = self.value_stack.len();
                if depth == 0 {
                    return (Err(Error::ExpectedValue), Ghost(Val::Void));
                }
                let level = match self.value_stack[depth - 1] {
                    Val::I32(i) => {
                        let k = (i as u32) as usize;
                        if k < label_indexes.len() {
                            label_indexes[k]
                        } else {
                            *default_index
                        }
                    },
                    _ => {
                        return (Err(Error::Trapped), Ghost(Val::Void));
                    },
                };
                let index = self.value_stack[depth - 1];
                self.value_stack.pop();
                let branched = self.r_br(level);
                if branched.is_err() {
                    self.value_stack.push(index);
                    proof {
                        assert(self@.value_stack =~= old(self)@.value_stack);
                    }
                }
                return (branched, Ghost(Val::Void));
            },
            _ => {},
        }
        let frame = &self.call_stack[self.call_stack.len() - 1];
        let op = operation_of(&frame.instructions[frame.pc]);
        self.perform(op)
    }

    /// Does what an instruction asks. The second result is what the
    /// outside answered, where it was asked.
    #[verifier::rlimit(60)]
    fn perform(&mut self, op: Operation) -> (r: (Result<()>, Ghost<Val>))
        requires
            current(old(self)@) is Some,
            op matches Operation::Load(a, _) ==> access_ok(a),
            op matches Operation::Store(a, _) ==> access_ok(a),
        ensures
            Self::keeps_setup(*old(self), *final(self)),
            lands(old(self)@, final(self)@, r.0, apply(old(self)@, op, r.1@)),
            asked(old(self)@, op) is None ==> r.1@ == Val::Void,
            asked(old(self)@, op) matches Some(request) ==> r.0 is Ok && told(
                old(self).registered_hook(),
                old(self).registered_float_unit(),
                request,
                r.1@,
            ),
    {
        match op {
            Operation::Unreachable => (Err(Error::Trapped), Ghost(Val::Void)),
            Operation::Nop => {
                self.increment_pc();
                (Ok(()), Ghost(Val::Void))
            },
            Operation::Block(t) => (self.r_block(t), Ghost(Val::Void)),
            Operation::Loop(t) => (self.r_loop(t), Ghost(Val::Void)),
            Operation::If(t) => (self.r_if(t), Ghost(Val::Void)),
            Operation::Else => (self.r_else(), Ghost(Val::Void)),
            Operation::End => (self.r_end(), Ghost(Val::Void)),
            Operation::Br(level) => (self.r_br(level), Ghost(Val::Void)),
            Operation::BrIf(level) => (self.r_br_if(level), Ghost(Val::Void)),
            Operation::Return => (self.r_return(), Ghost(Val::Void)),
            Operation::Call(func_index) => self.r_call(func_index),
            Operation::CallIndirect(type_index, table_index) => self.r_call_indirect(
                type_index,
                table_index,
            ),
            Operation::Drop => (self.r_drop(), Ghost(Val::Void)),
            Operation::Select => (self.r_select(), Ghost(Val::Void)),
            Operation::LocalGet(index) => (self.r_local_get(index), Ghost(Val::Void)),
            Operation::LocalSet(index) => (self.r_local_set(index, false), Ghost(Val::Void)),
            Operation::LocalTee(index) => (self.r_local_set(index, true), Ghost(Val::Void)),
            Operation::GlobalGet(index) => (self.r_global_get(index), Ghost(Val::Void)),
            Operation::GlobalSet(index) => (self.r_global_set(index), Ghost(Val::Void)),
            Operation::Load(access, mem_arg) => (self.r_load(access, mem_arg), Ghost(Val::Void)),
            Operation::Store(access, mem_arg) => (self.r_store(access, mem_arg), Ghost(Val::Void)),
            Operation::MemorySize => (self.r_memory_size(), Ghost(Val::Void)),
            Operation::Const(v) => {
                self.value_stack.push(v);
                self.increment_pc();
                (Ok(()), Ghost(Val::Void))
            },
            Operation::Unary(op) => self.r_unary(op),
            Operation::Binary(op) => self.r_binary(op),
            Operation::Unsupported => (Err(Error::UnsupportedInstruction), Ghost(Val::Void)),
        }
    }

    /// Runs until no call is under way, for at most as many steps as the
    /// budget allows. The second result is what the outside answered, in
    /// order.
    fn execute(&mut self) -> (r: (Result<()>, Ghost<Seq<Val>>))
        ensures
            Self::keeps_setup(*old(self), *final(self)),
            ends(final(self)@, r.0, run(old(self)@, old(self).step_budget(), r.1@)),
            heard(
                old(self).registered_hook(),
                old(self).registered_float_unit(),
                old(self)@,
                old(self).step_budget(),
                r.1@,
            ),
            !old(self)@.has_hook && !old(self)@.has_float_unit ==> r.1@ == Seq::<Val>::empty(),
    {
        let ghost start = self@;
        let ghost budget = self.step_budget();
        let ghost mut trace: Seq<Val> = Seq::empty();
        let ghost hook = self.registered_hook();
        let ghost unit = self.registered_float_unit();
        let mut fuel = self.step_limit;
        proof {
            assert forall|tail: Seq<Val>| #[trigger]
                run(start, budget, trace + tail) == run(self@, fuel as nat, tail) by {
                assert(trace + tail =~= tail);
            }
            assert forall|tail: Seq<Val>| #[trigger]
                heard(hook, unit, start, budget, trace + tail) == heard(
                    hook,
                    unit,
                    self@,
                    fuel as nat,
                    tail,
                ) by {
                assert(trace + tail =~= tail);
            }
        }
        loop
            invariant
                start == old(self)@,
                budget == old(self).step_budget(),
                Self::keeps_setup(*old(self), *self),
                self@.has_hook == start.has_hook,
                self@.has_float_unit == start.has_float_unit,
                !start.has_hook && !start.has_float_unit ==> trace == Seq::<Val>::empty(),
                forall|tail: Seq<Val>| #[trigger]
                    run(start, budget, trace + tail) == run(self@, fuel as nat, tail),
                hook == old(self).registered_hook(),
                unit == old(self).registered_float_unit(),
                forall|tail: Seq<Val>| #[trigger]
                    heard(hook, unit, start, budget, trace + tail) == heard(
                        hook,
                        unit,
                        self@,
                        fuel as nat,
                        tail,
                    ),
            decreases fuel,
        {
            proof {
                assert(trace + Seq::<Val>::empty() =~= trace);
            }
            if self.call_stack.len() == 0 {
                return (Ok(()), Ghost(trace));
            }
            if !self.has_current() {
                return (Err(Error::ExpectedInstruction), Ghost(trace));
            }
            if fuel == 0 {
                return (Err(Error::StepLimitExceeded), Ghost(trace));
            }
            let ghost before = self@;
            let (r, answer) = self.step();
            match r {
                Err(e) => {
                    proof {
                        assert(run(before, fuel as nat, Seq::<Val>::empty()) == Run::Fault(e, before));
                    }
                    return (Err(e), Ghost(trace));
                },
                Ok(_) => {
                    proof {
                        lemma_step_keeps_registrations(before, answer@);
                        if request(before) is Some {
                            lemma_requests_need_registrations(before);
                            let longer = trace.push(answer@);
                            assert forall|tail: Seq<Val>| #[trigger]
                                run(start, budget, longer + tail) == run(
                                    self@,
                                    (fuel - 1) as nat,
                                    tail,
                                ) by {
                                let more = seq![answer@] + tail;
                                assert(longer + tail =~= trace + more);
                                assert(more[0] == answer@);
                                assert(more.drop_first() =~= tail);
                                assert(run(start, budget, trace + more) == run(
                                    before,
                                    fuel as nat,
                                    more,
                                ));
                            }
                            assert forall|tail: Seq<Val>| #[trigger]
                                heard(hook, unit, start, budget, longer + tail) == heard(
                                    hook,
                                    unit,
                                    self@,
                                    (fuel - 1) as nat,
                                    tail,
                                ) by {
                                let more = seq![answer@] + tail;
                                assert(longer + tail =~= trace + more);
                                assert(more[0] == answer@);
                                assert(more.drop_first() =~= tail);
                                assert(heard(hook, unit, start, budget, trace + more) == heard(
                                    hook,
                                    unit,
                                    before,
                                    fuel as nat,
                                    more,
                                ));
                            }
                            trace = longer;
                        } else {
                            assert forall|tail: Seq<Val>| #[trigger]
                                run(start, budget, trace + tail) == run(
                                    self@,
                                    (fuel - 1) as nat,
                                    tail,
                                ) by {
                                assert(run(start, budget, trace + tail) == run(
                                    before,
                                    fuel as nat,
                                    tail,
                                ));
                            }
                            assert forall|tail: Seq<Val>| #[trigger]
                                heard(hook, unit, start, budget, trace + tail) == heard(
                                    hook,
                                    unit,
                                    self@,
                                    (fuel - 1) as nat,
                                    tail,
                                ) by {
                                assert(heard(hook, unit, start, budget, trace + tail) == heard(
                                    hook,
                                    unit,
                                    before,
                                    fuel as nat,
                                    tail,
                                ));
                            }
                        }
                    }
                },
            }
            fuel = fuel - 1;
        }
    }

    /// Registers the hook that is called for imported functions.
    pub fn set_call_external_hook(&mut self, hook: Box<dyn ExternalHook>)
        ensures
            final(self)@ == (RuntimeView { has_hook: true, ..old(self)@ }),
            final(self).registered_hook() == Some(hook),
            final(self).registered_float_unit() == old(self).registered_float_unit(),
            final(self).step_budget() == old(self).step_budget(),
    {
        let registered = Some(hook);
        self.hook = registered;
    }

    /// Registers the unit that is asked for floating-point arithmetic.
    pub fn set_float_unit(&mut self, unit: Box<dyn FloatUnit>)
        ensures
            final(self)@ == (RuntimeView { has_float_unit: true, ..old(self)@ }),
            final(self).registered_float_unit() == Some(unit),
            final(self).registered_hook() == old(self).registered_hook(),
            final(self).step_budget() == old(self).step_budget(),
    {
        let registered = Some(unit);
        self.float_unit = registered;
    }

    /// Sets how many steps one run may take.
    pub fn set_step_limit(&mut self, limit: u64)
        ensures
            final(self)@ == old(self)@,
            final(self).step_budget() == limit,
            final(self).registered_hook() == old(self).registered_hook(),
            final(self).registered_float_unit() == old(self).registered_float_unit(),
    {
        self.step_limit = limit;
    }

    /// Looks an export up by its name.
    fn export(&self, name: &str) -> (r: Option<&ExportInst>)
        ensures
            match find_export(self@.store.module.exports, name@) {
                Some(e) => r matches Some(x) && x@ == e,
                None => r is None,
            },
    {
        let wanted = name.to_owned();
        let exports = &self.store.module.exports;
        let ghost all = views(exports@);
        let mut i = exports.len();
        proof {
            assert(all.subrange(0, i as int) =~= all);
        }
        while i > 0
            invariant
                all == views(exports@),
                all == self@.store.module.exports,
                wanted@ == name@,
                i <= exports.len(),
                find_export(all, name@) == find_export(all.subrange(0, i as int), name@),
            decreases i,
        {
            i = i - 1;
            proof {
                assert(all.subrange(0, i + 1).last() == exports@[i as int]@);
                assert(all.subrange(0, i + 1).drop_last() =~= all.subrange(0, i as int));
            }
            if exports[i].name == wanted {
                proof {
                    assert(find_export(all.subrange(0, i + 1), name@) == Some(exports@[i as int]@));
                }
                return Some(&exports[i]);
            }
        }
        None
    }

    /// Calls the function at `addr` on `args`. The second result is what
    /// the outside answered, in order.
    fn invoke_addr(&mut self, addr: usize, args: &[Val]) -> (r: (Result<Val>, Ghost<Seq<Val>>))
        ensures
            Self::keeps_setup(*old(self), *final(self)),
            gives(
                final(self)@,
                r.0,
                called(old(self)@, old(self).step_budget(), addr, args@, r.1@),
            ),
            heard_call(
                old(self).registered_hook(),
                old(self).registered_float_unit(),
                old(self)@,
                old(self).step_budget(),
                addr,
                args@,
                r.1@,
            ),
            !old(self)@.has_hook && !old(self)@.has_float_unit ==> r.1@ == Seq::<Val>::empty(),
    {
        if addr >= self.store.funcs.len() {
            return (Err(Error::InvalidIndexForFunc(addr)), Ghost(Seq::empty()));
        }
        proof {
            assert(self@.store.funcs[addr as int] == self.store.funcs@[addr as int]@);
        }
        match &self.store.funcs[addr] {
            FuncInst::Internal(func) => {
                let has_result = func.func_type.results.len() > 0;
                let mut locals = slice_to_vec(args);
                let mut tail = Self::zeros(&func.body.locals);
                locals.append(&mut tail);
                let frame = Frame::new(
                    locals,
                    func.func_type.results.len(),
                    0,
                    copy_instructions(&func.body.code),
                );
                let ghost func_view = func@;
                let mut frames: Vec<Frame> = Vec::new();
                proof {
                    lemma_views_push(frames@, frame);
                    assert(views(frames@) =~= Seq::empty());
                }
                frames.push(frame);
                self.call_stack = frames;
                self.value_stack = Vec::new();
                proof {
                    assert(self@.call_stack =~= entered(old(self)@, func_view, args@).call_stack);
                    assert(self@.value_stack =~= entered(old(self)@, func_view, args@).value_stack);
                }
                let (r, answers) = self.execute();
                match r {
                    Err(e) => (Err(e), answers),
                    Ok(_) => {
                        if has_result {
                            match self.value_stack.pop() {
                                Some(value) => (Ok(value), answers),
                                None => (Err(Error::ExpectedValue), answers),
                            }
                        } else {
                            (Ok(Val::Void), answers)
                        }
                    },
                }
            },
            FuncInst::External(func) => match &self.hook {
                Some(hook) => {
                    let arguments = slice_to_vec(args);
                    let answer = hook.call(func, &arguments);
                    let ghost answers = Seq::<Val>::empty().push(answer);
                    (Ok(answer), Ghost(answers))
                },
                None => (Err(Error::ExternalHookNotSet), Ghost(Seq::empty())),
            },
        }
    }

    /// Calls the exported function `fn_name` on `args` and returns its
    /// result, or `Val::Void` where it has none. A run that was under way is
    /// given up. Where the name is that of no exported function, the machine
    /// stays as it is. Where the run fails, the machine is left in the state
    /// in which the failure arose: what was written to globals and memories
    /// before stays written.
    /// What the hook and the floating-point unit answer decides the rest:
    /// every answer that the run uses is one that the hook or the unit has
    /// given for the request in question. Where neither is registered,
    /// nothing is asked and the outcome is one.
    pub fn invoke(&mut self, fn_name: &str, args: &[Val]) -> (r: Result<Val>)
        ensures
            Self::keeps_setup(*old(self), *final(self)),
            match find_export(old(self)@.store.module.exports, fn_name@) {
                None => r matches Err(Error::ExportNotFound(name)) && name@ == fn_name@
                    && final(self)@ == old(self)@,
                Some(e) => match e.value {
                    ExternalVal::FuncAddr(addr) => exists|answers: Seq<Val>|
                        gives(
                            final(self)@,
                            r,
                            #[trigger] called(
                                old(self)@,
                                old(self).step_budget(),
                                addr,
                                args@,
                                answers,
                            ),
                        ) && heard_call(
                            old(self).registered_hook(),
                            old(self).registered_float_unit(),
                            old(self)@,
                            old(self).step_budget(),
                            addr,
                            args@,
                            answers,
                        ) && (!old(self)@.has_hook && !old(self)@.has_float_unit ==> answers
                            == Seq::<Val>::empty()),
                    _ => r matches Err(Error::ExpectFuncAddr(x)) && x@ == e && final(self)@ == old(
                        self,
                    )@,
                },
            },
    {
        let func_addr = match self.export(fn_name) {
            None => {
                return Err(Error::ExportNotFound(fn_name.to_owned()));
            },
            Some(export) => match export.value {
                ExternalVal::FuncAddr(addr) => addr,
                _ => {
                    return Err(
                        Error::ExpectFuncAddr(
                            ExportInst { name: export.name.clone(), value: export.value },
                        ),
                    );
                },
            },
        };
        let (r, answers) = self.invoke_addr(func_addr, args);
        r
    }

    /// Runs the start function of the module, if it names one.
    pub fn start(&mut self) -> (r: Result<()>)
        ensures
            Self::keeps_setup(*old(self), *final(self)),
            match old(self)@.store.start_func_index {
                None => r is Ok && final(self)@ == old(self)@,
                Some(index) => exists|answers: Seq<Val>|
                    (match #[trigger] called(
                        old(self)@,
                        old(self).step_budget(),
                        index as usize,
                        Seq::empty(),
                        answers,
                    ) {
                        Called::Returned(_, s) => r is Ok && final(self)@ == s,
                        Called::Fault(e, s) => r == Err::<(), Error>(e) && final(self)@ == s,
                    }) && heard_call(
                        old(self).registered_hook(),
                        old(self).registered_float_unit(),
                        old(self)@,
                        old(self).step_budget(),
                        index as usize,
                        Seq::empty(),
                        answers,
                    ) && (!old(self)@.has_hook && !old(self)@.has_float_unit ==> answers
                        == Seq::<Val>::empty()),
            },
    {
        match self.store.start_func_index {
            None => Ok(()),
            Some(index) => {
                let none: Vec<Val> = Vec::new();
                let (r, answers) = self.invoke_addr(index as usize, none.as_slice());
                match r {
                    Ok(_) => Ok(()),
                    Err(e) => Err(e),
                }
            },
        }
    }

    /// What the exported global `name` holds.
    pub fn get_global(&self, name: &str) -> (r: Result<Val>)
        ensures
            match find_export(self@.store.module.exports, name@) {
                None => r matches Err(Error::ExportNotFound(n)) && n@ == name@,
                Some(e) => match e.value {
                    ExternalVal::GlobalAddr(addr) => if addr < self@.store.globals.len() {
                        r == Ok::<Val, Error>(self@.store.globals[addr as int].value)
                    } else {
                        r == Err::<Val, Error>(Error::InvalidIndexForGlobal(addr))
                    },
                    _ => r matches Err(Error::ExpectGlobalAddr(x)) && x@ == e,
                },
            },
    {
        match self.export(name) {
            None => Err(Error::ExportNotFound(name.to_owned())),
            Some(export) => match export.value {
                ExternalVal::GlobalAddr(addr) => {
                    if addr < self.store.globals.len() {
                        Ok(self.store.globals[addr].value)
                    } else {
                        Err(Error::InvalidIndexForGlobal(addr))
                    }
                },
                _ => Err(
                    Error::ExpectGlobalAddr(ExportInst { name: export.name.clone(), value: export.value }),
                ),
            },
        }
    }

    /// The bytes of the exported memory `name`.
    pub fn get_memory(&self, name: &str) -> (r: Result<&Vec<u8>>)
        ensures
            match find_export(self@.store.module.exports, name@) {
                None => r matches Err(Error::ExportNotFound(n)) && n@ == name@,
                Some(e) => match e.value {
                    ExternalVal::MemAddr(addr) => if addr < self@.store.mems.len() {
                        r matches Ok(data) && data@ == self@.store.mems[addr as int].data
                    } else {
                        r matches Err(Error::InvalidIndexForMem(a)) && a == addr
                    },
                    _ => r matches Err(Error::ExpectMemAddr(x)) && x@ == e,
                },
            },
    {
        match self.export(name) {
            None => Err(Error::ExportNotFound(name.to_owned())),
            Some(export) => match export.value {
                ExternalVal::MemAddr(addr) => {
                    if addr < self.store.mems.len() {
                        proof {
                            assert(self@.store.mems[addr as int] == self.store.mems@[addr as int]@);
                        }
                        Ok(&self.store.mems[addr].data)
                    } else {
                        Err(Error::InvalidIndexForMem(addr))
                    }
                },
                _ => Err(
                    Error::ExpectMemAddr(ExportInst { name: export.name.clone(), value: export.value }),
                ),
            },
        }
    }

    /// The function that is exported as `name`.
    pub fn get_func(&self, name: &str) -> (r: Result<&FuncInst>)
        ensures
            match find_export(self@.store.module.exports, name@) {
                None => r matches Err(Error::ExportNotFound(n)) && n@ == name@,
                Some(e) => match e.value {
                    ExternalVal::FuncAddr(addr) => if addr < self@.store.funcs.len() {
                        r matches Ok(f) && f@ == self@.store.funcs[addr as int]
                    } else {
                        r matches Err(Error::InvalidIndexForFunc(a)) && a == addr
                    },
                    _ => r matches Err(Error::ExpectFuncAddr(x)) && x@ == e,
                },
            },
    {
        match self.export(name) {
            None => Err(Error::ExportNotFound(name.to_owned())),
            Some(export) => match export.value {
                ExternalVal::FuncAddr(addr) => {
                    if addr < self.store.funcs.len() {
                        proof {
                            assert(self@.store.funcs[addr as int] == self.store.funcs@[addr as int]@);
                        }
                        Ok(&self.store.funcs[addr])
                    } else {
                        Err(Error::InvalidIndexForFunc(addr))
                    }
                },
                _ => Err(
                    Error::ExpectFuncAddr(ExportInst { name: export.name.clone(), value: export.value }),
                ),
            },
        }
    }
}

} // verus!
