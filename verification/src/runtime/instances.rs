//! What a store holds.

use crate::binary::module::{FuncBody, FuncBodyView};
use crate::runtime::value::{ExternalVal, Ref, Val};
use crate::types::{FuncType, FuncTypeView, GlobalType, Limits, RefType, TableType};
use crate::views::views;
use vstd::prelude::*;

verus! {

/// A function of the module itself: its type and its body.
#[derive(Debug, Clone, PartialEq)]
pub struct InternalFuncInst {
    pub func_type: FuncType,
    pub body: FuncBody,
}

/// A function of the module, as sequences.
pub struct InternalFuncInstView {
    pub func_type: FuncTypeView,
    pub body: FuncBodyView,
}

impl View for InternalFuncInst {
    type V = InternalFuncInstView;

    open spec fn view(&self) -> InternalFuncInstView {
        InternalFuncInstView { func_type: self.func_type@, body: self.body@ }
    }
}

/// A function that the host provides: the names under which the module
/// imports it, and its type.
#[derive(Debug, Clone, PartialEq)]
pub struct ExternalFuncInst {
    pub module: String,
    pub field: String,
    pub func_type: FuncType,
}

/// A host function, as sequences.
pub struct ExternalFuncInstView {
    pub module: Seq<char>,
    pub field: Seq<char>,
    pub func_type: FuncTypeView,
}

impl View for ExternalFuncInst {
    type V = ExternalFuncInstView;

    open spec fn view(&self) -> ExternalFuncInstView {
        ExternalFuncInstView { module: self.module@, field: self.field@, func_type: self.func_type@ }
    }
}

impl ExternalFuncInst {
    /// Whether the function is imported under these two names.
    pub fn match_module_field(&self, module: &str, field: &str) -> (r: bool)
        ensures
            r == (self.module@ == module@ && self.field@ == field@),
    {
        self.module == module.to_owned() && self.field == field.to_owned()
    }
}

/// A function in the store.
#[derive(Debug, Clone, PartialEq)]
pub enum FuncInst {
    Internal(InternalFuncInst),
    External(ExternalFuncInst),
}

/// A function in the store, as sequences.
pub enum FuncInstView {
    Internal(InternalFuncInstView),
    External(ExternalFuncInstView),
}

impl View for FuncInst {
    type V = FuncInstView;

    open spec fn view(&self) -> FuncInstView {
        match *self {
            FuncInst::Internal(f) => FuncInstView::Internal(f@),
            FuncInst::External(f) => FuncInstView::External(f@),
        }
    }
}

/// A global: its type and what it holds now.
#[derive(Debug, Clone, Copy, PartialEq, Eq, Structural)]
pub struct GlobalInst {
    pub global_type: GlobalType,
    pub value: Val,
}

/// A linear memory: its limits and its bytes.
#[derive(Debug, Clone, PartialEq)]
pub struct MemInst {
    pub mem_type: Limits,
    pub data: Vec<u8>,
}

/// A memory, as a sequence of bytes.
pub struct MemInstView {
    pub mem_type: Limits,
    pub data: Seq<u8>,
}

impl View for MemInst {
    type V = MemInstView;

    open spec fn view(&self) -> MemInstView {
        MemInstView { mem_type: self.mem_type, data: self.data@ }
    }
}

/// A table: its type and its entries.
#[derive(Debug, Clone, PartialEq)]
pub struct TableInst {
    pub table_type: TableType,
    pub elems: Vec<Ref>,
}

/// A table, as a sequence.
pub struct TableInstView {
    pub table_type: TableType,
    pub elems: Seq<Ref>,
}

impl View for TableInst {
    type V = TableInstView;

    open spec fn view(&self) -> TableInstView {
        TableInstView { table_type: self.table_type, elems: self.elems@ }
    }
}

/// An element segment in the store.
#[derive(Debug, Clone, PartialEq)]
pub struct ElemInst {
    pub ref_type: RefType,
    pub elems: Vec<Ref>,
}

/// An element segment, as a sequence.
pub struct ElemInstView {
    pub ref_type: RefType,
    pub elems: Seq<Ref>,
}

impl View for ElemInst {
    type V = ElemInstView;

    open spec fn view(&self) -> ElemInstView {
        ElemInstView { ref_type: self.ref_type, elems: self.elems@ }
    }
}

/// An export: its name and the address of what it names.
#[derive(Debug, Clone, PartialEq)]
pub struct ExportInst {
    pub name: String,
    pub value: ExternalVal,
}

/// An export with its name as characters.
pub struct ExportInstView {
    pub name: Seq<char>,
    pub value: ExternalVal,
}

impl View for ExportInst {
    type V = ExportInstView;

    open spec fn view(&self) -> ExportInstView {
        ExportInstView { name: self.name@, value: self.value }
    }
}

/// What a store knows of the module it was made from: its types, and its
/// exports in the order of the export section.
#[derive(Debug, Clone, PartialEq)]
pub struct ModuleInst {
    pub types: Vec<FuncType>,
    pub exports: Vec<ExportInst>,
}

/// The module's types and exports, as sequences.
pub struct ModuleInstView {
    pub types: Seq<FuncTypeView>,
    pub exports: Seq<ExportInstView>,
}

impl View for ModuleInst {
    type V = ModuleInstView;

    open spec fn view(&self) -> ModuleInstView {
        ModuleInstView { types: views(self.types@), exports: views(self.exports@) }
    }
}

} // verus!
