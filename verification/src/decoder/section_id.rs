//! The numbers that open the sections of a module.

use vstd::prelude::*;

verus! {

/// Which section follows. `Unknown` keeps a number that names none.
#[derive(Clone, Copy, Debug, PartialEq, Eq, Structural)]
pub enum SectionId {
    Custom,
    Type,
    Import,
    Function,
    Table,
    Memory,
    Global,
    Export,
    Start,
    Element,
    Code,
    Data,
    DataCount,
    Unknown(u8),
}

/// The section that a number names.
pub open spec fn section_id_of(id: u8) -> SectionId {
    if id == 0 {
        SectionId::Custom
    } else if id == 1 {
        SectionId::Type
    } else if id == 2 {
        SectionId::Import
    } else if id == 3 {
        SectionId::Function
    } else if id == 4 {
        SectionId::Table
    } else if id == 5 {
        SectionId::Memory
    } else if id == 6 {
        SectionId::Global
    } else if id == 7 {
        SectionId::Export
    } else if id == 8 {
        SectionId::Start
    } else if id == 9 {
        SectionId::Element
    } else if id == 10 {
        SectionId::Code
    } else if id == 11 {
        SectionId::Data
    } else if id == 12 {
        SectionId::DataCount
    } else {
        SectionId::Unknown(id)
    }
}

impl SectionId {
    /// The section that `id` names.
    pub fn from(id: u8) -> (r: SectionId)
        ensures
            r == section_id_of(id),
    {
        match id {
            0 => SectionId::Custom,
            1 => SectionId::Type,
            2 => SectionId::Import,
            3 => SectionId::Function,
            4 => SectionId::Table,
            5 => SectionId::Memory,
            6 => SectionId::Global,
            7 => SectionId::Export,
            8 => SectionId::Start,
            9 => SectionId::Element,
            10 => SectionId::Code,
            11 => SectionId::Data,
            12 => SectionId::DataCount,
            _ => SectionId::Unknown(id),
        }
    }

    /// Whether the number named no section.
    pub fn is_unknown(&self) -> (r: bool)
        ensures
            r == (*self is Unknown),
    {
        match self {
            SectionId::Unknown(_) => true,
            _ => false,
        }
    }
}

} // verus!
