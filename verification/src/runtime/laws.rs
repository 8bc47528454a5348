//! What holds of the machine, whatever the module.

use crate::binary::instruction::{Instr, InstructionView};
use crate::binary::module::ModuleView;
use crate::runtime::instances::{ExternalFuncInstView, FuncInstView, InternalFuncInstView};
use crate::runtime::label::LabelKind;
use crate::runtime::machine::{
    advance, asked, at, called, cleaned, current, entered, enter, finish_external, leave_frame,
    request, run, step, step_br, succ, top, truncated, with_stack, Called, Request, Run,
    RuntimeView, Step,
};
use crate::runtime::memory::{le_bytes, loaded_value, raw_bits, stored_bytes, written};
use crate::runtime::operation::{operation, Access, Operation};
use crate::runtime::store::{init_value, instantiate, PAGE_SIZE};
use crate::runtime::value::Val;
use crate::types::ValueType;
use crate::le::{lemma_u32_le, lemma_u64_le};
use crate::runtime::frame::FrameView;
use vstd::prelude::*;

verus! {

/// A function whose body is one constant and `end` returns the constant:
/// called from outside with a budget of two steps or more, it gives the
/// constant unchanged and leaves nothing on the operand stack and no call
/// under way, whatever its arguments.
pub proof fn lemma_constant_return(
    s: RuntimeView,
    addr: usize,
    f: InternalFuncInstView,
    constant: InstructionView,
    value: Val,
    args: Seq<Val>,
    fuel: nat,
    answers: Seq<Val>,
)
    requires
        addr < s.store.funcs.len(),
        s.store.funcs[addr as int] == FuncInstView::Internal(f),
        f.body.code == seq![constant, Instr::End],
        operation(constant) == Operation::Const(value),
        f.func_type.results.len() == 1,
        fuel >= 2,
    ensures
        called(s, fuel, addr, args, answers) matches Called::Returned(v, end) && v == value
            && end.value_stack.len() == 0 && end.call_stack.len() == 0 && end.store == s.store,
{
    reveal(step);
    reveal(request);
    let s0 = entered(s, f, args);
    assert(current(s0) == Some(constant));
    assert(request(s0) is None);
    let s1 = advance(with_stack(s0, s0.value_stack.push(value)));
    assert(step(s0, Val::Void) == Step::Next(s1));
    assert(s1.call_stack.len() == 1);
    assert(top(s1).pc == 1);
    assert(current(s1) == Some(Instr::<Seq<u32>, Seq<ValueType>>::End));
    assert(request(s1) is None);
    assert(s1.value_stack =~= seq![value]);
    assert(truncated(s1.value_stack.drop_last(), 0) =~= Seq::<Val>::empty());
    assert(cleaned(s1.value_stack, 1, 0) == Some(seq![value])) by {
        assert(Seq::<Val>::empty().push(value) =~= seq![value]);
    }
    let s2 = RuntimeView { value_stack: seq![value], call_stack: s1.call_stack.drop_last(), ..s1 };
    assert(step(s1, Val::Void) == Step::Next(s2));
    assert(s2.call_stack.len() == 0);
    assert(current(s2) is None);
    reveal_with_fuel(run, 3);
    assert(run(s0, fuel, answers) == Run::Done(s2));
    assert(s2.value_stack.drop_last() =~= Seq::<Val>::empty());
}

/// Stack discipline, in numbers: where a stack holds at least `sp + arity`
/// values and the arity is 0 or 1, cleaning it leaves exactly `sp + arity`
/// values, and with an arity of 1 the topmost value stays on top.
pub proof fn lemma_cleaned_depth(stack: Seq<Val>, arity: usize, sp: usize)
    requires
        arity <= 1,
        stack.len() >= sp + arity,
    ensures
        cleaned(stack, arity, sp) matches Some(after) && after.len() == sp + arity && (arity == 1
            ==> after.last() == stack.last()) && after.subrange(0, sp as int) == stack.subrange(
            0,
            sp as int,
        ),
{
    let after = cleaned(stack, arity, sp)->0;
    assert(after.subrange(0, sp as int) =~= stack.subrange(0, sp as int));
}

/// A block records the depth at which it is entered: the label that
/// `block`, `loop` and `if` push holds the depth of the operand stack at
/// that moment and the arity that the block declares.
pub proof fn lemma_entry_records_depth(s: RuntimeView, kind: LabelKind, block_type: crate::binary::BlockType, next: usize)
    requires
        s.call_stack.len() > 0,
        s.value_stack.len() <= usize::MAX,
        enter(s, kind, block_type, next) is Next,
    ensures
        ({
            let after = enter(s, kind, block_type, next)->Next_0;
            let label = top(after).label_stack.last();
            &&& after.value_stack == s.value_stack
            &&& top(after).label_stack.len() == top(s).label_stack.len() + 1
            &&& label.sp == s.value_stack.len()
            &&& Some(label.arity) == crate::binary::instruction::block_result_count(block_type)
        }),
{
}

/// Stack discipline for blocks: where `end` closes a block of arity 0 or
/// 1 and the operand stack is no less deep than the block's depth at entry
/// plus its arity, it is exactly that deep afterwards, however many values
/// the body has pushed. The values below the block's depth stay, the
/// topmost value stays on top where the arity is 1, the label is gone and
/// the labels below it and the calls under way stay.
pub proof fn lemma_block_exit_depth(s: RuntimeView)
    requires
        current(s) == Some(Instr::<Seq<u32>, Seq<ValueType>>::End),
        top(s).label_stack.len() > 0,
        top(s).label_stack.last().arity <= 1,
        s.value_stack.len() >= top(s).label_stack.last().sp + top(s).label_stack.last().arity,
    ensures
        step(s, Val::Void) matches Step::Next(after) && after.value_stack.len() == top(
            s,
        ).label_stack.last().sp + top(s).label_stack.last().arity && top(after).label_stack
            == top(s).label_stack.drop_last(),
        ({
            let after = step(s, Val::Void)->Next_0;
            let label = top(s).label_stack.last();
            &&& after.value_stack.subrange(0, label.sp as int) == s.value_stack.subrange(
                0,
                label.sp as int,
            )
            &&& label.arity == 1 ==> after.value_stack.last() == s.value_stack.last()
            &&& after.call_stack.len() == s.call_stack.len()
            &&& after.store == s.store
        }),
{
    reveal(step);
    reveal(request);
    let label = top(s).label_stack.last();
    lemma_cleaned_depth(s.value_stack, label.arity, label.sp);
}

/// Stack discipline for branches: a branch to a label of arity 0 or 1
/// leaves the operand stack exactly as deep as the label's depth at entry
/// plus its arity.
pub proof fn lemma_branch_depth(s: RuntimeView, level: u32)
    requires
        s.call_stack.len() > 0,
        level < top(s).label_stack.len(),
        top(s).label_stack[top(s).label_stack.len() - 1 - level].arity <= 1,
        s.value_stack.len() >= top(s).label_stack[top(s).label_stack.len() - 1 - level].sp + top(
            s,
        ).label_stack[top(s).label_stack.len() - 1 - level].arity,
    ensures
        step_br(s, level) matches Step::Next(after) && after.value_stack.len() == top(
            s,
        ).label_stack[top(s).label_stack.len() - 1 - level].sp + top(
            s,
        ).label_stack[top(s).label_stack.len() - 1 - level].arity,
{
    let label = top(s).label_stack[top(s).label_stack.len() - 1 - level];
    lemma_cleaned_depth(s.value_stack, label.arity, label.sp);
}

/// Stack discipline for functions: where a call of arity 0 or 1 returns,
/// by `return` or by its last `end`, and the operand stack is no less deep
/// than at the call plus the arity, it is exactly that deep afterwards, and
/// the call is gone. The values below the depth at the call stay, the
/// topmost value stays on top where the arity is 1, and the calls below stay
/// as they are but for the caller, which moves on by one instruction.
pub proof fn lemma_function_exit_depth(s: RuntimeView)
    requires
        s.call_stack.len() > 0,
        top(s).arity <= 1,
        s.value_stack.len() >= top(s).sp + top(s).arity,
    ensures
        leave_frame(s) matches Step::Next(after) && after.value_stack.len() == top(s).sp + top(
            s,
        ).arity && after.call_stack.len() == s.call_stack.len() - 1,
        ({
            let after = leave_frame(s)->Next_0;
            let frame = top(s);
            &&& after.value_stack.subrange(0, frame.sp as int) == s.value_stack.subrange(
                0,
                frame.sp as int,
            )
            &&& frame.arity == 1 ==> after.value_stack.last() == s.value_stack.last()
            &&& forall|i: int|
                0 <= i < after.call_stack.len() - 1 ==> after.call_stack[i] == s.call_stack[i]
            &&& after.call_stack.len() > 0 ==> after.call_stack.last() == (FrameView {
                pc: succ(s.call_stack[s.call_stack.len() - 2].pc),
                ..s.call_stack[s.call_stack.len() - 2]
            })
            &&& after.store == s.store
        }),
{
    lemma_cleaned_depth(s.value_stack, top(s).arity, top(s).sp);
}

/// A function is entered at the depth that its arguments leave: the frame
/// of a call holds the depth of the operand stack without the arguments,
/// and the number of results as its arity.
pub proof fn lemma_call_records_depth(s: RuntimeView, f: InternalFuncInstView)
    requires
        s.value_stack.len() >= f.func_type.params.len(),
        s.value_stack.len() <= usize::MAX,
        f.func_type.results.len() <= usize::MAX,
    ensures
        crate::runtime::machine::enter_function(s, f) matches Step::Next(after) && top(after).sp
            == s.value_stack.len() - f.func_type.params.len() && after.value_stack.len() == top(
            after,
        ).sp && top(after).arity == f.func_type.results.len(),
{
}

/// Globals start with the values of their initializers.
pub proof fn lemma_globals_start_with_their_initializers(m: ModuleView, i: int)
    requires
        instantiate(m) is Ok,
        0 <= i < m.global_section.len(),
    ensures
        instantiate(m)->Ok_0.globals.len() == m.global_section.len(),
        instantiate(m)->Ok_0.globals[i].value == init_value(m.global_section[i].init_expr),
        instantiate(m)->Ok_0.globals[i].global_type == m.global_section[i].global_type,
{
}

/// `global.set` followed by `global.get` of the same global observes the
/// new value: the two steps leave the operand stack as it was, with the
/// value on top, and the global holds the value.
pub proof fn lemma_global_get_after_set(s: RuntimeView, index: u32)
    requires
        s.call_stack.len() > 0,
        top(s).pc + 1 < top(s).instructions.len() <= usize::MAX,
        operation(top(s).instructions[top(s).pc as int]) == Operation::GlobalSet(index),
        operation(top(s).instructions[top(s).pc + 1]) == Operation::GlobalGet(index),
        index < s.store.globals.len(),
        s.value_stack.len() > 0,
    ensures
        step(s, Val::Void) matches Step::Next(set) && step(set, Val::Void) matches Step::Next(got)
            && got.value_stack == s.value_stack && got.store.globals[index as int].value
            == s.value_stack.last() && top(got).pc == top(s).pc + 2,
{
    reveal(step);
    reveal(request);
    let set = step(s, Val::Void)->Next_0;
    assert(top(set).pc == top(s).pc + 1);
    assert(top(set).instructions == top(s).instructions);
    let got = step(set, Val::Void)->Next_0;
    assert(got.value_stack =~= s.value_stack);
}

/// A fresh memory is one page of zeros.
pub proof fn lemma_memory_starts_zeroed(m: ModuleView, i: int, address: int)
    requires
        instantiate(m) is Ok,
        0 <= i < m.memory_section.len(),
        0 <= address < PAGE_SIZE,
    ensures
        instantiate(m)->Ok_0.mems.len() == m.memory_section.len(),
        instantiate(m)->Ok_0.mems[i].data.len() == PAGE_SIZE,
        instantiate(m)->Ok_0.mems[i].data[address] == 0,
{
}

/// What was written is what is read: the bytes of a memory from `at` on,
/// after `bytes` were written there, are `bytes`, and the other bytes are
/// as before.
pub proof fn lemma_read_after_write(data: Seq<u8>, at: int, bytes: Seq<u8>)
    requires
        0 <= at,
        at + bytes.len() <= data.len(),
    ensures
        written(data, at, bytes).len() == data.len(),
        written(data, at, bytes).subrange(at, at + bytes.len()) == bytes,
        forall|i: int|
            0 <= i < data.len() && !(at <= i < at + bytes.len()) ==> written(data, at, bytes)[i]
                == data[i],
{
    assert(written(data, at, bytes).subrange(at, at + bytes.len()) =~= bytes);
}

/// Whether an access reads or writes a whole value as it is: four bytes
/// for a 32-bit type, eight for a 64-bit type.
pub open spec fn whole(access: Access) -> bool {
    !access.signed && match access.value_type {
        ValueType::I32 | ValueType::F32 => access.width == 4,
        ValueType::I64 | ValueType::F64 => access.width == 8,
    }
}

/// A store followed by a load at the same address returns the stored
/// value: the store writes the bits of the value lowest byte first, and
/// the load of a whole value reads them back.
pub proof fn lemma_load_after_store(access: Access, value: Val, data: Seq<u8>, at: int)
    requires
        whole(access),
        raw_bits(access, value) is Some,
        0 <= at,
        at + access.width <= data.len(),
    ensures
        stored_bytes(access, value) matches Some(bytes) && bytes.len() == access.width && bytes
            == le_bytes(raw_bits(access, value)->0, access.width) && loaded_value(
            access,
            written(data, at, bytes).subrange(at, at + access.width),
        ) == value,
{
    match value {
        Val::I32(v) => lemma_u32_le(v as u32),
        Val::I64(v) => lemma_u64_le(v as u64),
        Val::F32(v) => lemma_u32_le(v),
        Val::F64(v) => lemma_u64_le(v),
        _ => {},
    }
    let bytes = stored_bytes(access, value)->0;
    lemma_read_after_write(data, at, bytes);
    match value {
        Val::I32(v) => {
            let u = v as u32;
            assert((u as u64) as u32 == u) by (bit_vector);
            assert(((u as u64) as u32) as i32 == u as i32) by (bit_vector);
            assert(u as i32 == v) by (bit_vector)
                requires
                    u == v as u32,
            ;
        },
        Val::I64(v) => {
            let u = v as u64;
            assert(u as i64 == v) by (bit_vector)
                requires
                    u == v as u64,
            ;
        },
        Val::F32(v) => {
            assert((v as u64) as u32 == v) by (bit_vector);
            assert((((v as u64) as u32) as u64) as u32 == v) by (bit_vector);
        },
        _ => {},
    }
}

/// A call of an imported function goes to the hook once, with the
/// function as imported and its arguments: where `call` names an imported
/// function, enough arguments are on the operand stack and a hook is
/// registered, the machine asks for the result of that function, with its
/// two names, on the topmost values of the stack, as many as it has
/// parameters; the step takes the arguments off, pushes the answer where
/// the function has a result, and leaves the call site; and a run uses up
/// one answer for it.
pub proof fn lemma_external_call_is_asked_once(
    s: RuntimeView,
    func_index: u32,
    f: ExternalFuncInstView,
    fuel: nat,
    answers: Seq<Val>,
)
    requires
        current(s) is Some,
        operation(current(s)->0) == Operation::Call(func_index),
        func_index < s.store.funcs.len(),
        s.store.funcs[func_index as int] == FuncInstView::External(f),
        s.value_stack.len() >= f.func_type.params.len(),
        s.has_hook,
        fuel > 0,
        answers.len() > 0,
    ensures
        request(s) == Some(
            Request::External {
                func: f,
                args: s.value_stack.subrange(
                    s.value_stack.len() - f.func_type.params.len(),
                    s.value_stack.len() as int,
                ),
            },
        ),
        step(s, answers[0]) == Step::Next(finish_external(s, f, answers[0])),
        top(finish_external(s, f, answers[0])).pc == succ(top(s).pc),
        finish_external(s, f, answers[0]).call_stack.len() == s.call_stack.len(),
        finish_external(s, f, answers[0]).value_stack == (if f.func_type.results.len() > 0 {
            s.value_stack.subrange(0, s.value_stack.len() - f.func_type.params.len()).push(
                answers[0],
            )
        } else {
            s.value_stack.subrange(0, s.value_stack.len() - f.func_type.params.len())
        }),
        finish_external(s, f, answers[0]).store == s.store,
        run(s, fuel, answers) == run(
            finish_external(s, f, answers[0]),
            (fuel - 1) as nat,
            answers.drop_first(),
        ),
{
    reveal(step);
    reveal(request);
}

/// Nothing but an imported function or floating-point arithmetic is asked
/// of the outside: where the machine asks nothing, a step does not depend
/// on the answer.
pub proof fn lemma_unasked_steps_ignore_the_answer(s: RuntimeView, a: Val, b: Val)
    requires
        current(s) is Some,
        request(s) is None,
    ensures
        step(s, a) == step(s, b),
{
    reveal(step);
    reveal(request);
}

/// Where the search for a `global.set` of a global that cannot be
/// written finds nothing from a place on, no instruction from that place
/// on is one.
pub proof fn lemma_no_immutable_write_in(
    code: Seq<InstructionView>,
    globals: Seq<crate::binary::module::Global>,
    from: int,
    i: int,
    index: u32,
)
    requires
        0 <= from <= i < code.len(),
        crate::runtime::store::immutable_write_in(code, globals, from) is None,
        code[i] == (Instr::<Seq<u32>, Seq<ValueType>>::GlobalSet { global_index: index }),
        index < globals.len(),
    ensures
        globals[index as int].global_type.mutable,
    decreases i - from,
{
    if from < i {
        lemma_no_immutable_write_in(code, globals, from + 1, i, index);
    }
}

/// Where the search finds nothing from a function body on, it finds
/// nothing in any body from there on.
pub proof fn lemma_no_immutable_write(m: ModuleView, from: int, k: int)
    requires
        0 <= from <= k < m.code_section.len(),
        crate::runtime::store::immutable_write(m, from) is None,
    ensures
        crate::runtime::store::immutable_write_in(m.code_section[k].code, m.global_section, 0)
            is None,
    decreases k - from,
{
    if from < k {
        lemma_no_immutable_write(m, from + 1, k);
    }
}

/// A global that cannot be written is not written: the code of a module
/// that was made into a store holds no `global.set` of such a global.
pub proof fn lemma_immutable_globals_are_not_set(m: ModuleView, k: int, i: int, index: u32)
    requires
        instantiate(m) is Ok,
        0 <= k < m.code_section.len(),
        0 <= i < m.code_section[k].code.len(),
        m.code_section[k].code[i] == (Instr::<Seq<u32>, Seq<ValueType>>::GlobalSet {
            global_index: index,
        }),
        index < m.global_section.len(),
    ensures
        m.global_section[index as int].global_type.mutable,
        instantiate(m)->Ok_0.globals[index as int].global_type.mutable,
{
    lemma_no_immutable_write(m, 0, k);
    lemma_no_immutable_write_in(m.code_section[k].code, m.global_section, 0, i, index);
}

/// A step changes neither what is registered nor the functions of the
/// store.
pub proof fn lemma_step_keeps_registrations(s: RuntimeView, answer: Val)
    requires
        current(s) is Some,
        step(s, answer) is Next,
    ensures
        step(s, answer)->Next_0.has_hook == s.has_hook,
        step(s, answer)->Next_0.has_float_unit == s.has_float_unit,
        step(s, answer)->Next_0.store.funcs == s.store.funcs,
{
    reveal(step);
}

/// The machine asks nothing of the outside unless a hook or a
/// floating-point unit is registered.
pub proof fn lemma_requests_need_registrations(s: RuntimeView)
    requires
        request(s) is Some,
    ensures
        s.has_hook || s.has_float_unit,
{
    reveal(request);
}

} // verus!
