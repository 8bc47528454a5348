//! Labels: the open blocks of a frame.

use crate::binary::instruction::BlockType;
use vstd::prelude::*;

verus! {

/// What opened a label.
#[derive(Debug, Clone, Copy, PartialEq, Eq, Structural)]
pub enum LabelKind {
    If,
    Block,
    /// A loop, with the place of its `loop` instruction.
    Loop { start_pc: usize },
}

/// An open block: where it ends, how deep the operand stack was when it
/// was entered, and how many values it leaves.
#[derive(Debug, Clone, Copy, PartialEq, Eq, Structural)]
pub struct Label {
    pub pc: usize,
    pub sp: usize,
    pub arity: usize,
    pub kind: LabelKind,
    pub result_type: BlockType,
}

} // verus!
