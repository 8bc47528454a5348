//! What can go wrong while decoding.

use crate::decoder::section_id::SectionId;
use vstd::prelude::*;

verus! {

/// Why a byte sequence was refused.
#[derive(Clone, Copy, Debug, PartialEq, Eq, Structural)]
pub enum Error {
    /// The first four bytes are not `\0asm`.
    InvalidMagicHeader,
    /// The version is not 1.
    InvalidVersion,
    /// A section opens with a number that names none.
    InvalidSectionId(SectionId),
    InvalidRefType,
    /// The number after `0xFC` names no instruction.
    InvalidSubInstrId,
    /// The input ended inside an item.
    UnexpectedEof,
    InvalidBlockType,
    /// An entry of the type section does not open with `0x60`.
    InvalidTypeKind,
    InvalidImportDesc,
    InvalidExportDesc,
    InvalidGlobalInitExpr,
    InvalidLimitsKind,
    ExpectedConstExpression,
    UnsupportedElementPrefix,
    /// A byte that should name a value type names none.
    InvalidValueType(u8),
    /// A name is not UTF-8.
    InvalidName,
    /// The opcode is one that this decoder does not know.
    UnsupportedOpcode(u8),
    /// The section is one that this decoder does not read.
    UnsupportedSection(SectionId),
}

pub type Result<T> = core::result::Result<T, Error>;

/// A failed read: why it failed, and where the decoder stands afterwards.
pub struct Failure {
    pub error: Error,
    pub at: int,
}

} // verus!
