//! The sections of a module.

use crate::binary::instruction::{Instruction, InstructionView};
use crate::types::{FuncType, FuncTypeView, GlobalType, MemoryType, RefType, TableType, ValueType};
use crate::views::views;
use vstd::prelude::*;

verus! {

/// An entry of the type section.
#[derive(Clone, Debug, PartialEq)]
pub enum Type {
    Func(FuncType),
}

/// An entry of the type section, as sequences.
pub enum TypeView {
    Func(FuncTypeView),
}

impl View for Type {
    type V = TypeView;

    open spec fn view(&self) -> TypeView {
        match *self {
            Type::Func(t) => TypeView::Func(t@),
        }
    }
}

/// What an import brings in.
#[derive(Clone, Copy, Debug, PartialEq, Eq, Structural)]
pub enum ImportDesc {
    /// A function of the type with this index.
    Func(u32),
}

/// One import: the two names under which the host offers it, and what it is.
#[derive(Clone, Debug, PartialEq, Eq)]
pub struct Import {
    pub module: String,
    pub field: String,
    pub desc: ImportDesc,
}

/// An import with its names as characters.
pub struct ImportView {
    pub module: Seq<char>,
    pub field: Seq<char>,
    pub desc: ImportDesc,
}

impl View for Import {
    type V = ImportView;

    open spec fn view(&self) -> ImportView {
        ImportView { module: self.module@, field: self.field@, desc: self.desc }
    }
}

/// What an export hands out: an index into one of the four index spaces.
#[derive(Clone, Copy, Debug, PartialEq, Eq, Structural)]
pub enum ExportDesc {
    Func(u32),
    Table(u32),
    Mem(u32),
    Global(u32),
}

/// One export.
#[derive(Clone, Debug, PartialEq)]
pub struct Export {
    pub name: String,
    pub desc: ExportDesc,
}

/// An export with its name as characters.
pub struct ExportView {
    pub name: Seq<char>,
    pub desc: ExportDesc,
}

impl View for Export {
    type V = ExportView;

    open spec fn view(&self) -> ExportView {
        ExportView { name: self.name@, desc: self.desc }
    }
}

/// The constant that gives a global its first value. Floating-point
/// constants are held as their bits.
#[derive(Clone, Copy, Debug, PartialEq, Eq, Structural)]
pub enum GlobalInitExpr {
    I32Const { value: i32 },
    I64Const { value: i64 },
    F32Const { value: u32 },
    F64Const { value: u64 },
}

/// One global: its type and its first value.
#[derive(Clone, Copy, Debug, PartialEq, Eq, Structural)]
pub struct Global {
    pub global_type: GlobalType,
    pub init_expr: GlobalInitExpr,
}

/// How an element segment is used.
#[derive(Clone, Copy, Debug, PartialEq, Eq, Structural)]
pub enum ElementMode {
    Passive,
    /// Copied into a table at instantiation, from `offset` on.
    Active { table_index: u32, offset: i32 },
    Declarative,
}

/// An element segment: function indices for a table.
#[derive(Clone, Debug, PartialEq)]
pub struct Element {
    pub mode: ElementMode,
    pub ref_type: RefType,
    pub init: Vec<u32>,
}

/// An element segment as a sequence.
pub struct ElementView {
    pub mode: ElementMode,
    pub ref_type: RefType,
    pub init: Seq<u32>,
}

impl View for Element {
    type V = ElementView;

    open spec fn view(&self) -> ElementView {
        ElementView { mode: self.mode, ref_type: self.ref_type, init: self.init@ }
    }
}

/// The start section: the function to run at instantiation, if any.
#[derive(Clone, Copy, Debug, PartialEq, Eq, Structural)]
pub struct StartSection {
    pub func_index: Option<u32>,
}

/// The body of a function: the types of its locals, one entry for each
/// local, and its instructions in one flat sequence.
#[derive(Clone, Debug, PartialEq)]
pub struct FuncBody {
    pub locals: Vec<ValueType>,
    pub code: Vec<Instruction>,
}

/// A function body as sequences.
pub struct FuncBodyView {
    pub locals: Seq<ValueType>,
    pub code: Seq<InstructionView>,
}

impl View for FuncBody {
    type V = FuncBodyView;

    open spec fn view(&self) -> FuncBodyView {
        FuncBodyView { locals: self.locals@, code: views(self.code@) }
    }
}

pub type TypeSection = Vec<Type>;

pub type ImportSection = Vec<Import>;

pub type FunctionSection = Vec<u32>;

pub type TableSection = Vec<TableType>;

pub type MemorySection = Vec<MemoryType>;

pub type GlobalSection = Vec<Global>;

pub type ExportSection = Vec<Export>;

pub type ElementSection = Vec<Element>;

pub type CodeSection = Vec<FuncBody>;

/// A decoded module. A section that the input did not hold is empty.
#[derive(Debug, PartialEq)]
pub struct Module {
    pub custom_section: (),
    pub type_section: TypeSection,
    pub import_section: ImportSection,
    pub function_section: FunctionSection,
    pub table_section: TableSection,
    pub memory_section: MemorySection,
    pub global_section: GlobalSection,
    pub export_section: ExportSection,
    pub start_section: StartSection,
    pub element_section: ElementSection,
    pub code_section: CodeSection,
}

/// A module as sequences.
pub struct ModuleView {
    pub type_section: Seq<TypeView>,
    pub import_section: Seq<ImportView>,
    pub function_section: Seq<u32>,
    pub table_section: Seq<TableType>,
    pub memory_section: Seq<MemoryType>,
    pub global_section: Seq<Global>,
    pub export_section: Seq<ExportView>,
    pub start_section: StartSection,
    pub element_section: Seq<ElementView>,
    pub code_section: Seq<FuncBodyView>,
}

impl View for Module {
    type V = ModuleView;

    open spec fn view(&self) -> ModuleView {
        ModuleView {
            type_section: views(self.type_section@),
            import_section: views(self.import_section@),
            function_section: self.function_section@,
            table_section: self.table_section@,
            memory_section: self.memory_section@,
            global_section: self.global_section@,
            export_section: views(self.export_section@),
            start_section: self.start_section,
            element_section: views(self.element_section@),
            code_section: views(self.code_section@),
        }
    }
}

/// The module without any section.
pub open spec fn empty_module() -> ModuleView {
    ModuleView {
        type_section: Seq::empty(),
        import_section: Seq::empty(),
        function_section: Seq::empty(),
        table_section: Seq::empty(),
        memory_section: Seq::empty(),
        global_section: Seq::empty(),
        export_section: Seq::empty(),
        start_section: StartSection { func_index: None },
        element_section: Seq::empty(),
        code_section: Seq::empty(),
    }
}

impl Default for Module {
    fn default() -> (r: Module)
        ensures
            r@ == empty_module(),
    {
        let r = Module {
            custom_section: (),
            type_section: Vec::new(),
            import_section: Vec::new(),
            function_section: Vec::new(),
            table_section: Vec::new(),
            memory_section: Vec::new(),
            global_section: Vec::new(),
            export_section: Vec::new(),
            start_section: StartSection { func_index: None },
            element_section: Vec::new(),
            code_section: Vec::new(),
        };
        proof {
            assert(r@.type_section =~= Seq::empty());
            assert(r@.import_section =~= Seq::empty());
            assert(r@.export_section =~= Seq::empty());
            assert(r@.element_section =~= Seq::empty());
            assert(r@.code_section =~= Seq::empty());
        }
        r
    }
}

} // verus!
