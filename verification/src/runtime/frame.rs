//! Frames: the calls that are under way.

use crate::binary::instruction::{Instruction, InstructionView};
use crate::runtime::label::Label;
use crate::runtime::value::Val;
use crate::views::views;
use vstd::prelude::*;

verus! {

/// One call under way: its locals, where it stands in its instructions,
/// its open blocks, how deep the operand stack was when it was entered, and
/// how many values it returns.
#[derive(Debug, Clone, PartialEq)]
pub struct Frame {
    pub locals: Vec<Val>,
    pub arity: usize,
    pub sp: usize,
    pub pc: usize,
    pub instructions: Vec<Instruction>,
    pub label_stack: Vec<Label>,
}

/// A frame, as sequences.
pub struct FrameView {
    pub locals: Seq<Val>,
    pub arity: usize,
    pub sp: usize,
    pub pc: usize,
    pub instructions: Seq<InstructionView>,
    pub label_stack: Seq<Label>,
}

impl View for Frame {
    type V = FrameView;

    open spec fn view(&self) -> FrameView {
        FrameView {
            locals: self.locals@,
            arity: self.arity,
            sp: self.sp,
            pc: self.pc,
            instructions: views(self.instructions@),
            label_stack: self.label_stack@,
        }
    }
}

/// The frame of a call that has not run yet.
pub open spec fn new_frame(locals: Seq<Val>, arity: usize, sp: usize, instructions: Seq<InstructionView>) -> FrameView {
    FrameView { locals, arity, sp, pc: 0, instructions, label_stack: Seq::empty() }
}

impl Frame {
    /// The frame of a call that has not run yet: it stands at its first
    /// instruction and has no open block.
    pub fn new(locals: Vec<Val>, arity: usize, sp: usize, instructions: Vec<Instruction>) -> (r: Frame)
        ensures
            r@ == new_frame(locals@, arity, sp, views(instructions@)),
    {
        Frame { locals, arity, sp, pc: 0, instructions, label_stack: Vec::new() }
    }
}

} // verus!
