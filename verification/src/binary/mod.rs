//! The module as it stands in memory after decoding.

pub mod instruction;
pub mod module;

pub use instruction::{Block, BlockType, Instr, Instruction, InstructionView, MemArg};
pub use module::{
    CodeSection, Element, ElementMode, ElementSection, Export, ExportDesc, ExportSection, FuncBody,
    FunctionSection, Global, GlobalInitExpr, GlobalSection, Import, ImportDesc, ImportSection,
    MemorySection, Module, StartSection, TableSection, Type, TypeSection,
};
