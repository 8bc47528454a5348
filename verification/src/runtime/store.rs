//! The store: a module made ready to run.

use crate::binary::instruction::{copy_instructions, copy_value_types, Instr, InstructionView};
use crate::binary::module::{
    ElementMode, ElementView, ExportDesc, ExportView, FuncBody, Global, GlobalInitExpr, ImportDesc,
    ImportView, Module, ModuleView, Type, TypeView,
};
use crate::runtime::instances::{
    ElemInst, ElemInstView, ExportInst, ExportInstView, ExternalFuncInst, ExternalFuncInstView,
    FuncInst, FuncInstView, GlobalInst, InternalFuncInst, InternalFuncInstView, MemInst,
    MemInstView, ModuleInst, ModuleInstView, TableInst, TableInstView,
};
use crate::runtime::result::{Error, Result};
use crate::runtime::value::{ExternalVal, Ref, Val};
use crate::types::{FuncType, FuncTypeView, MemoryType, TableType};
use crate::views::{lemma_views_empty, lemma_views_push, views};
use vstd::prelude::*;

verus! {

/// The number of bytes of a memory: one page.
pub const PAGE_SIZE: usize = 65536;

/// A module made ready to run: its functions, imported ones first, its
/// tables, memories and globals, and its exports by name.
#[derive(Debug, Clone, PartialEq)]
pub struct Store {
    pub funcs: Vec<FuncInst>,
    pub tables: Vec<TableInst>,
    pub mems: Vec<MemInst>,
    pub globals: Vec<GlobalInst>,
    pub elems: Vec<ElemInst>,
    pub module: ModuleInst,
    pub start_func_index: Option<u32>,
}

/// A store, as sequences.
pub struct StoreView {
    pub funcs: Seq<FuncInstView>,
    pub tables: Seq<TableInstView>,
    pub mems: Seq<MemInstView>,
    pub globals: Seq<GlobalInst>,
    pub elems: Seq<ElemInstView>,
    pub module: ModuleInstView,
    pub start_func_index: Option<u32>,
}

impl View for Store {
    type V = StoreView;

    open spec fn view(&self) -> StoreView {
        StoreView {
            funcs: views(self.funcs@),
            tables: views(self.tables@),
            mems: views(self.mems@),
            globals: self.globals@,
            elems: views(self.elems@),
            module: self.module@,
            start_func_index: self.start_func_index,
        }
    }
}

/// The function type of an entry of the type section.
pub open spec fn func_type_of(t: TypeView) -> FuncTypeView {
    match t {
        TypeView::Func(f) => f,
    }
}

/// The function types of the type section.
pub open spec fn module_types(types: Seq<TypeView>) -> Seq<FuncTypeView> {
    Seq::new(types.len(), |i: int| func_type_of(types[i]))
}

/// The host functions that the imports ask for, in order; the first import
/// whose type index names no type fails with that index.
pub open spec fn imported_funcs(imports: Seq<ImportView>, types: Seq<TypeView>) -> core::result::Result<
    Seq<FuncInstView>,
    Error,
>
    decreases imports.len(),
{
    if imports.len() == 0 {
        Ok(Seq::empty())
    } else {
        match imported_funcs(imports.drop_last(), types) {
            Ok(funcs) => match imports.last().desc {
                ImportDesc::Func(t) => if t < types.len() {
                    Ok(
                        funcs.push(
                            FuncInstView::External(
                                ExternalFuncInstView {
                                    module: imports.last().module,
                                    field: imports.last().field,
                                    func_type: func_type_of(types[t as int]),
                                },
                            ),
                        ),
                    )
                } else {
                    Err(Error::InvalidIndexForType(t as usize))
                },
            },
            Err(e) => Err(e),
        }
    }
}

/// The first `n` functions of the module itself, each with its body and
/// its type; the first one that lacks a body, or whose type index names no
/// type, fails with that index.
pub open spec fn defined_funcs(m: ModuleView, n: nat) -> core::result::Result<
    Seq<FuncInstView>,
    Error,
>
    decreases n,
{
    if n == 0 {
        Ok(Seq::empty())
    } else {
        match defined_funcs(m, (n - 1) as nat) {
            Ok(funcs) => {
                let i = n - 1;
                let t = m.function_section[i];
                if i >= m.code_section.len() {
                    Err(Error::InvalidIndexForCode(i as usize))
                } else if t >= m.type_section.len() {
                    Err(Error::InvalidIndexForType(t as usize))
                } else {
                    Ok(
                        funcs.push(
                            FuncInstView::Internal(
                                InternalFuncInstView {
                                    func_type: func_type_of(m.type_section[t as int]),
                                    body: m.code_section[i],
                                },
                            ),
                        ),
                    )
                }
            },
            Err(e) => Err(e),
        }
    }
}

/// The value of a constant initializer.
pub open spec fn init_value(e: GlobalInitExpr) -> Val {
    match e {
        GlobalInitExpr::I32Const { value } => Val::I32(value),
        GlobalInitExpr::I64Const { value } => Val::I64(value),
        GlobalInitExpr::F32Const { value } => Val::F32(value),
        GlobalInitExpr::F64Const { value } => Val::F64(value),
    }
}

/// The globals of a module at the start: each holds the value of its
/// initializer.
pub open spec fn initial_globals(globals: Seq<Global>) -> Seq<GlobalInst> {
    Seq::new(
        globals.len(),
        |i: int| GlobalInst { global_type: globals[i].global_type, value: init_value(globals[i].init_expr) },
    )
}

/// The index of the first global from the place `from` on that the code
/// sets though it cannot be written, if there is one.
pub open spec fn immutable_write_in(code: Seq<InstructionView>, globals: Seq<Global>, from: int) -> Option<
    u32,
>
    decreases code.len() - from,
{
    if from < 0 || from >= code.len() {
        None
    } else {
        match code[from] {
            Instr::GlobalSet { global_index } if global_index < globals.len()
                && !globals[global_index as int].global_type.mutable => Some(global_index),
            _ => immutable_write_in(code, globals, from + 1),
        }
    }
}

/// The index of the first global that a function body from the one with
/// the number `from` on sets though it cannot be written, if there is one.
pub open spec fn immutable_write(m: ModuleView, from: int) -> Option<u32>
    decreases m.code_section.len() - from,
{
    if from < 0 || from >= m.code_section.len() {
        None
    } else {
        match immutable_write_in(m.code_section[from].code, m.global_section, 0) {
            Some(index) => Some(index),
            None => immutable_write(m, from + 1),
        }
    }
}

/// The address that an export names.
pub open spec fn export_address(desc: ExportDesc) -> ExternalVal {
    match desc {
        ExportDesc::Func(i) => ExternalVal::FuncAddr(i as usize),
        ExportDesc::Table(i) => ExternalVal::TableAddr(i as usize),
        ExportDesc::Mem(i) => ExternalVal::MemAddr(i as usize),
        ExportDesc::Global(i) => ExternalVal::GlobalAddr(i as usize),
    }
}

/// The exports of a module with `func_count` functions, in order; the
/// first export of a function that is not there fails with its index.
pub open spec fn resolved_exports(exports: Seq<ExportView>, func_count: nat) -> core::result::Result<
    Seq<ExportInstView>,
    Error,
>
    decreases exports.len(),
{
    if exports.len() == 0 {
        Ok(Seq::empty())
    } else {
        match resolved_exports(exports.drop_last(), func_count) {
            Ok(done) => match exports.last().desc {
                ExportDesc::Func(i) if i >= func_count => Err(Error::InvalidIndexForFunc(i as usize)),
                desc => Ok(
                    done.push(ExportInstView { name: exports.last().name, value: export_address(desc) }),
                ),
            },
            Err(e) => Err(e),
        }
    }
}

/// The memories of a module at the start: one page of zeros each.
pub open spec fn initial_mems(mems: Seq<MemoryType>) -> Seq<MemInstView> {
    Seq::new(
        mems.len(),
        |i: int| MemInstView { mem_type: mems[i].limits, data: Seq::new(PAGE_SIZE as nat, |j: int| 0u8) },
    )
}

/// The tables of a module before the element segments are written: as many
/// null entries as the lower limit says.
pub open spec fn empty_tables(tables: Seq<TableType>) -> Seq<TableInstView> {
    Seq::new(
        tables.len(),
        |i: int| TableInstView {
            table_type: tables[i],
            elems: Seq::new(tables[i].limits.min as nat, |j: int| Ref::Null),
        },
    )
}

/// The entries that an element segment holds: a reference to each of its
/// functions.
pub open spec fn segment_refs(init: Seq<u32>) -> Seq<Ref> {
    Seq::new(init.len(), |i: int| Ref::Func(init[i] as usize))
}

/// Where an active segment starts in its table: its offset, read as an
/// unsigned number.
pub open spec fn segment_start(offset: i32) -> nat {
    (offset as u32) as nat
}

/// The tables after the segment `e` is written: an active segment
/// overwrites the entries of its table from its offset on, and fails with
/// `Trapped` where the table is not there or is too short; the other
/// segments leave the tables as they are.
pub open spec fn write_segment(tables: Seq<TableInstView>, e: ElementView) -> core::result::Result<
    Seq<TableInstView>,
    Error,
> {
    match e.mode {
        ElementMode::Active { table_index, offset } => {
            if table_index >= tables.len() {
                Err(Error::Trapped)
            } else {
                let t = tables[table_index as int];
                let start = segment_start(offset);
                if start + e.init.len() > t.elems.len() {
                    Err(Error::Trapped)
                } else {
                    Ok(
                        tables.update(
                            table_index as int,
                            TableInstView {
                                table_type: t.table_type,
                                elems: Seq::new(
                                    t.elems.len(),
                                    |i: int|
                                        if start <= i < start + e.init.len() {
                                            Ref::Func(e.init[i - start] as usize)
                                        } else {
                                            t.elems[i]
                                        },
                                ),
                            },
                        ),
                    )
                }
            }
        },
        _ => Ok(tables),
    }
}

/// The tables after the first `n` segments are written, in order.
pub open spec fn write_segments(tables: Seq<TableInstView>, elements: Seq<ElementView>, n: nat) -> core::result::Result<
    Seq<TableInstView>,
    Error,
>
    decreases n,
{
    if n == 0 {
        Ok(tables)
    } else {
        match write_segments(tables, elements, (n - 1) as nat) {
            Ok(t) => write_segment(t, elements[n - 1]),
            Err(e) => Err(e),
        }
    }
}

/// The segments of a module as the store keeps them.
pub open spec fn initial_elems(elements: Seq<ElementView>) -> Seq<ElemInstView> {
    Seq::new(
        elements.len(),
        |i: int| ElemInstView { ref_type: elements[i].ref_type, elems: segment_refs(elements[i].init) },
    )
}

/// What is left of the making of a store once the functions are there:
/// the exports, then the element segments.
pub open spec fn instantiate_rest(m: ModuleView, imported: Seq<FuncInstView>, defined: Seq<FuncInstView>) -> core::result::Result<
    StoreView,
    Error,
> {
    match resolved_exports(m.export_section, (imported + defined).len()) {
        Err(e) => Err(e),
        Ok(exports) => match write_segments(
            empty_tables(m.table_section),
            m.element_section,
            m.element_section.len(),
        ) {
            Err(e) => Err(e),
            Ok(tables) => Ok(
                StoreView {
                    funcs: imported + defined,
                    tables,
                    mems: initial_mems(m.memory_section),
                    globals: initial_globals(m.global_section),
                    elems: initial_elems(m.element_section),
                    module: ModuleInstView { types: module_types(m.type_section), exports },
                    start_func_index: m.start_section.func_index,
                },
            ),
        },
    }
}

/// The store of a module. Its functions are the imported ones, then the
/// module's own. The steps are taken in this order, and the first that
/// fails gives the error:
/// - imports: `InvalidIndexForType` for an import of a type that is not
///   there;
/// - functions: `InvalidIndexForCode` for a function without a body,
///   `InvalidIndexForType` for one of a type that is not there;
/// - the search for a `global.set` of a global that cannot be written:
///   `ImmutableGlobal`;
/// - exports: `InvalidIndexForFunc` for an export of a function that is
///   not there;
/// - element segments: `Trapped` for an active segment whose table is not
///   there or is too short for it.
pub open spec fn instantiate(m: ModuleView) -> core::result::Result<StoreView, Error> {
    match imported_funcs(m.import_section, m.type_section) {
        Err(e) => Err(e),
        Ok(imported) => match defined_funcs(m, m.function_section.len()) {
            Err(e) => Err(e),
            Ok(defined) => match immutable_write(m, 0) {
                Some(index) => Err(Error::ImmutableGlobal(index as usize)),
                None => instantiate_rest(m, imported, defined),
            },
        },
    }
}

/// Copies a function type.
pub fn copy_func_type(t: &FuncType) -> (r: FuncType)
    ensures
        r@ == t@,
{
    FuncType { params: copy_value_types(&t.params), results: copy_value_types(&t.results) }
}

/// Copies a function body.
pub fn copy_func_body(body: &FuncBody) -> (r: FuncBody)
    ensures
        r@ == body@,
{
    FuncBody { locals: copy_value_types(&body.locals), code: copy_instructions(&body.code) }
}

/// One page of zeros.
pub fn zero_page() -> (r: Vec<u8>)
    ensures
        r@ == Seq::new(PAGE_SIZE as nat, |j: int| 0u8),
{
    let mut data: Vec<u8> = Vec::new();
    let mut i: usize = 0;
    while i < PAGE_SIZE
        invariant
            i <= PAGE_SIZE,
            data@ == Seq::new(i as nat, |j: int| 0u8),
        decreases PAGE_SIZE - i,
    {
        data.push(0);
        i = i + 1;
        proof {
            assert(data@ =~= Seq::new(i as nat, |j: int| 0u8));
        }
    }
    data
}

/// `n` null entries.
pub fn null_refs(n: u32) -> (r: Vec<Ref>)
    ensures
        r@ == Seq::new(n as nat, |j: int| Ref::Null),
{
    let mut refs: Vec<Ref> = Vec::new();
    let mut i: u32 = 0;
    while i < n
        invariant
            i <= n,
            refs@ == Seq::new(i as nat, |j: int| Ref::Null),
        decreases n - i,
    {
        refs.push(Ref::Null);
        i = i + 1;
        proof {
            assert(refs@ =~= Seq::new(i as nat, |j: int| Ref::Null));
        }
    }
    refs
}

impl Store {
    /// The function types of the module.
    fn types_of(module: &Module) -> (r: Vec<FuncType>)
        ensures
            views(r@) == module_types(module@.type_section),
    {
        let mut types: Vec<FuncType> = Vec::new();
        let mut i: usize = 0;
        while i < module.type_section.len()
            invariant
                i <= module.type_section.len(),
                types.len() == i,
                forall|j: int| 0 <= j < i ==> (#[trigger] types@[j])@ == func_type_of(module.type_section@[j]@),
            decreases module.type_section.len() - i,
        {
            match &module.type_section[i] {
                Type::Func(t) => {
                    types.push(copy_func_type(t));
                },
            }
            i = i + 1;
        }
        proof {
            assert(views(types@) =~= module_types(module@.type_section));
        }
        types
    }

    /// The host functions that the imports ask for.
    fn import_funcs(module: &Module) -> (r: Result<Vec<FuncInst>>)
        ensures
            match imported_funcs(module@.import_section, module@.type_section) {
                Ok(funcs) => r matches Ok(v) && views(v@) == funcs,
                Err(e) => r matches Err(x) && x == e,
            },
    {
        let ghost imports = module@.import_section;
        let ghost types = module@.type_section;
        let mut funcs: Vec<FuncInst> = Vec::new();
        let mut i: usize = 0;
        proof {
            lemma_views_empty::<FuncInst>();
            assert(imports.subrange(0, 0) =~= Seq::empty());
        }
        while i < module.import_section.len()
            invariant
                imports == module@.import_section,
                types == module@.type_section,
                i <= module.import_section.len(),
                imported_funcs(imports.subrange(0, i as int), types) == Ok::<Seq<FuncInstView>, Error>(
                    views(funcs@),
                ),
            decreases module.import_section.len() - i,
        {
            let import = &module.import_section[i];
            proof {
                assert(imports.subrange(0, i + 1).drop_last() =~= imports.subrange(0, i as int));
                assert(imports.subrange(0, i + 1).last() == import@);
            }
            match import.desc {
                ImportDesc::Func(type_idx) => {
                    if (type_idx as usize) < module.type_section.len() {
                        match &module.type_section[type_idx as usize] {
                            Type::Func(func_type) => {
                                let func = FuncInst::External(
                                    ExternalFuncInst {
                                        module: import.module.clone(),
                                        field: import.field.clone(),
                                        func_type: copy_func_type(func_type),
                                    },
                                );
                                proof {
                                    lemma_views_push(funcs@, func);
                                }
                                funcs.push(func);
                            },
                        }
                    } else {
                        proof {
                            lemma_imported_funcs_fails(imports, types, i as int + 1);
                        }
                        return Err(Error::InvalidIndexForType(type_idx as usize));
                    }
                },
            }
            i = i + 1;
        }
        proof {
            assert(imports.subrange(0, i as int) =~= imports);
        }
        Ok(funcs)
    }

    /// The functions of the module itself.
    fn define_funcs(module: &Module) -> (r: Result<Vec<FuncInst>>)
        ensures
            match defined_funcs(module@, module@.function_section.len()) {
                Ok(funcs) => r matches Ok(v) && views(v@) == funcs,
                Err(e) => r matches Err(x) && x == e,
            },
    {
        let mut funcs: Vec<FuncInst> = Vec::new();
        let mut i: usize = 0;
        proof {
            lemma_views_empty::<FuncInst>();
        }
        while i < module.function_section.len()
            invariant
                i <= module.function_section.len(),
                defined_funcs(module@, i as nat) == Ok::<Seq<FuncInstView>, Error>(views(funcs@)),
            decreases module.function_section.len() - i,
        {
            let type_index = module.function_section[i];
            if i >= module.code_section.len() {
                proof {
                    lemma_defined_funcs_fails(module@, i as nat + 1, module@.function_section.len());
                }
                return Err(Error::InvalidIndexForCode(i));
            }
            if (type_index as usize) >= module.type_section.len() {
                proof {
                    lemma_defined_funcs_fails(module@, i as nat + 1, module@.function_section.len());
                }
                return Err(Error::InvalidIndexForType(type_index as usize));
            }
            match &module.type_section[type_index as usize] {
                Type::Func(func_type) => {
                    let func = FuncInst::Internal(
                        InternalFuncInst {
                            func_type: copy_func_type(func_type),
                            body: copy_func_body(&module.code_section[i]),
                        },
                    );
                    proof {
                        lemma_views_push(funcs@, func);
                    }
                    funcs.push(func);
                },
            }
            i = i + 1;
        }
        Ok(funcs)
    }

    /// The globals at the start.
    fn init_globals(module: &Module) -> (r: Vec<GlobalInst>)
        ensures
            r@ == initial_globals(module@.global_section),
    {
        let mut globals: Vec<GlobalInst> = Vec::new();
        let mut i: usize = 0;
        while i < module.global_section.len()
            invariant
                i <= module.global_section.len(),
                globals.len() == i,
                forall|j: int| 0 <= j < i ==> #[trigger] globals@[j] == initial_globals(module@.global_section)[j],
            decreases module.global_section.len() - i,
        {
            let global = module.global_section[i];
            let value = match global.init_expr {
                GlobalInitExpr::I32Const { value } => Val::I32(value),
                GlobalInitExpr::I64Const { value } => Val::I64(value),
                GlobalInitExpr::F32Const { value } => Val::F32(value),
                GlobalInitExpr::F64Const { value } => Val::F64(value),
            };
            globals.push(GlobalInst { global_type: global.global_type, value });
            i = i + 1;
        }
        proof {
            assert(globals@ =~= initial_globals(module@.global_section));
        }
        globals
    }

    /// The exports, each with the address that it names.
    fn resolve_exports(module: &Module, func_count: usize) -> (r: Result<Vec<ExportInst>>)
        ensures
            match resolved_exports(module@.export_section, func_count as nat) {
                Ok(exports) => r matches Ok(v) && views(v@) == exports,
                Err(e) => r matches Err(x) && x == e,
            },
    {
        let ghost all = module@.export_section;
        let mut exports: Vec<ExportInst> = Vec::new();
        let mut i: usize = 0;
        proof {
            lemma_views_empty::<ExportInst>();
            assert(all.subrange(0, 0) =~= Seq::empty());
        }
        while i < module.export_section.len()
            invariant
                all == module@.export_section,
                i <= module.export_section.len(),
                resolved_exports(all.subrange(0, i as int), func_count as nat) == Ok::<
                    Seq<ExportInstView>,
                    Error,
                >(views(exports@)),
            decreases module.export_section.len() - i,
        {
            let export = &module.export_section[i];
            proof {
                assert(all.subrange(0, i + 1).drop_last() =~= all.subrange(0, i as int));
                assert(all.subrange(0, i + 1).last() == export@);
            }
            let value = match export.desc {
                ExportDesc::Func(func_index) => {
                    if (func_index as usize) >= func_count {
                        proof {
                            lemma_resolved_exports_fails(all, func_count as nat, i as int + 1);
                        }
                        return Err(Error::InvalidIndexForFunc(func_index as usize));
                    }
                    ExternalVal::FuncAddr(func_index as usize)
                },
                ExportDesc::Table(table_index) => ExternalVal::TableAddr(table_index as usize),
                ExportDesc::Mem(mem_index) => ExternalVal::MemAddr(mem_index as usize),
                ExportDesc::Global(global_index) => ExternalVal::GlobalAddr(global_index as usize),
            };
            let inst = ExportInst { name: export.name.clone(), value };
            proof {
                lemma_views_push(exports@, inst);
            }
            exports.push(inst);
            i = i + 1;
        }
        proof {
            assert(all.subrange(0, i as int) =~= all);
        }
        Ok(exports)
    }

    /// The memories at the start.
    fn init_mems(module: &Module) -> (r: Vec<MemInst>)
        ensures
            views(r@) == initial_mems(module@.memory_section),
    {
        let mut mems: Vec<MemInst> = Vec::new();
        let mut i: usize = 0;
        while i < module.memory_section.len()
            invariant
                i <= module.memory_section.len(),
                mems.len() == i,
                forall|j: int| 0 <= j < i ==> (#[trigger] mems@[j])@ == initial_mems(module@.memory_section)[j],
            decreases module.memory_section.len() - i,
        {
            mems.push(MemInst { mem_type: module.memory_section[i].limits, data: zero_page() });
            i = i + 1;
        }
        proof {
            assert(views(mems@) =~= initial_mems(module@.memory_section));
        }
        mems
    }
}

impl Store {
    /// The tables before the element segments are written.
    fn init_tables(module: &Module) -> (r: Vec<TableInst>)
        ensures
            views(r@) == empty_tables(module@.table_section),
    {
        let mut tables: Vec<TableInst> = Vec::new();
        let mut i: usize = 0;
        while i < module.table_section.len()
            invariant
                i <= module.table_section.len(),
                tables.len() == i,
                forall|j: int| 0 <= j < i ==> (#[trigger] tables@[j])@ == empty_tables(module@.table_section)[j],
            decreases module.table_section.len() - i,
        {
            let table_type = module.table_section[i];
            tables.push(TableInst { table_type, elems: null_refs(table_type.limits.min) });
            i = i + 1;
        }
        proof {
            assert(views(tables@) =~= empty_tables(module@.table_section));
        }
        tables
    }

    /// The references that an element segment holds.
    fn refs_of(init: &Vec<u32>) -> (r: Vec<Ref>)
        ensures
            r@ == segment_refs(init@),
    {
        let mut refs: Vec<Ref> = Vec::new();
        let mut i: usize = 0;
        while i < init.len()
            invariant
                i <= init.len(),
                refs.len() == i,
                forall|j: int| 0 <= j < i ==> #[trigger] refs@[j] == Ref::Func(init@[j] as usize),
            decreases init.len() - i,
        {
            refs.push(Ref::Func(init[i] as usize));
            i = i + 1;
        }
        proof {
            assert(refs@ =~= segment_refs(init@));
        }
        refs
    }

    /// The element segments as the store keeps them.
    fn init_elems(module: &Module) -> (r: Vec<ElemInst>)
        ensures
            views(r@) == initial_elems(module@.element_section),
    {
        let mut elems: Vec<ElemInst> = Vec::new();
        let mut i: usize = 0;
        while i < module.element_section.len()
            invariant
                i <= module.element_section.len(),
                elems.len() == i,
                forall|j: int| 0 <= j < i ==> (#[trigger] elems@[j])@ == initial_elems(module@.element_section)[j],
            decreases module.element_section.len() - i,
        {
            let element = &module.element_section[i];
            elems.push(ElemInst { ref_type: element.ref_type, elems: Self::refs_of(&element.init) });
            i = i + 1;
        }
        proof {
            assert(views(elems@) =~= initial_elems(module@.element_section));
        }
        elems
    }

    /// The entries of a table with a segment written over them from
    /// `start` on. The segment must fit.
    fn overwrite(elems: &Vec<Ref>, start: usize, init: &Vec<u32>) -> (r: Vec<Ref>)
        requires
            start + init.len() <= elems.len(),
        ensures
            r@ == Seq::new(
                elems@.len(),
                |i: int|
                    if start <= i < start + init@.len() {
                        Ref::Func(init@[i - start] as usize)
                    } else {
                        elems@[i]
                    },
            ),
    {
        let mut out: Vec<Ref> = Vec::new();
        let mut i: usize = 0;
        while i < elems.len()
            invariant
                start + init.len() <= elems.len(),
                i <= elems.len(),
                out.len() == i,
                forall|j: int|
                    0 <= j < i ==> #[trigger] out@[j] == if start <= j < start + init@.len() {
                        Ref::Func(init@[j - start] as usize)
                    } else {
                        elems@[j]
                    },
            decreases elems.len() - i,
        {
            if start <= i && i - start < init.len() {
                out.push(Ref::Func(init[i - start] as usize));
            } else {
                out.push(elems[i]);
            }
            i = i + 1;
        }
        proof {
            assert(out@ =~= Seq::new(
                elems@.len(),
                |i: int|
                    if start <= i < start + init@.len() {
                        Ref::Func(init@[i - start] as usize)
                    } else {
                        elems@[i]
                    },
            ));
        }
        out
    }

    /// Writes the active element segments into the tables.
    fn write_elements(module: &Module, tables: Vec<TableInst>) -> (r: Result<Vec<TableInst>>)
        ensures
            match write_segments(
                views(tables@),
                module@.element_section,
                module@.element_section.len(),
            ) {
                Ok(t) => r matches Ok(v) && views(v@) == t,
                Err(e) => r matches Err(x) && x == e,
            },
    {
        let ghost before = views(tables@);
        let ghost elements = module@.element_section;
        let mut current = tables;
        let mut k: usize = 0;
        while k < module.element_section.len()
            invariant
                elements == module@.element_section,
                before == views(tables@),
                k <= module.element_section.len(),
                write_segments(before, elements, k as nat) == Ok::<Seq<TableInstView>, Error>(
                    views(current@),
                ),
            decreases module.element_section.len() - k,
        {
            let element = &module.element_section[k];
            proof {
                assert(elements[k as int] == element@);
                assert(views(current@).len() == current.len());
            }
            match element.mode {
                ElementMode::Active { table_index, offset } => {
                    let index = table_index as usize;
                    let start = (#[verifier::truncate] (offset as u32)) as usize;
                    proof {
                        if index < current.len() {
                            assert(views(current@)[index as int] == current@[index as int]@);
                        }
                    }
                    if index >= current.len() || element.init.len() > current[index].elems.len()
                        || start > current[index].elems.len() - element.init.len() {
                        proof {
                            lemma_write_segments_fails(before, elements, k as nat + 1, elements.len());
                        }
                        return Err(Error::Trapped);
                    }
                    let elems = Self::overwrite(&current[index].elems, start, &element.init);
                    let table = TableInst { table_type: current[index].table_type, elems };
                    let ghost old_tables = current@;
                    current.set(index, table);
                    proof {
                        assert(views(current@) =~= views(old_tables).update(index as int, table@));
                    }
                },
                _ => {},
            }
            k = k + 1;
        }
        Ok(current)
    }

    /// Looks for a `global.set` of a global that cannot be written.
    fn find_immutable_write(module: &Module) -> (r: Option<u32>)
        ensures
            r == immutable_write(module@, 0),
    {
        let ghost globals = module@.global_section;
        let mut k: usize = 0;
        while k < module.code_section.len()
            invariant
                globals == module@.global_section,
                globals == module.global_section@,
                k <= module.code_section.len(),
                immutable_write(module@, 0) == immutable_write(module@, k as int),
            decreases module.code_section.len() - k,
        {
            let body = &module.code_section[k];
            let ghost code = views(body.code@);
            proof {
                assert(module@.code_section[k as int] == body@);
            }
            let mut i: usize = 0;
            while i < body.code.len()
                invariant
                    globals == module.global_section@,
                    globals == module@.global_section,
                    code == views(body.code@),
                    k < module.code_section.len(),
                    module@.code_section[k as int].code == code,
                    immutable_write(module@, 0) == immutable_write(module@, k as int),
                    i <= body.code.len(),
                    immutable_write_in(code, globals, 0) == immutable_write_in(code, globals, i as int),
                decreases body.code.len() - i,
            {
                proof {
                    assert(code[i as int] == body.code@[i as int]@);
                }
                match &body.code[i] {
                    Instr::GlobalSet { global_index } => {
                        let index = *global_index;
                        if (index as usize) < module.global_section.len()
                            && !module.global_section[index as usize].global_type.mutable {
                            return Some(index);
                        }
                    },
                    _ => {},
                }
                i = i + 1;
            }
            k = k + 1;
        }
        None
    }

    /// Makes a module ready to run. Fails as `instantiate` says: with
    /// `InvalidIndexForType`, `InvalidIndexForCode`, `ImmutableGlobal`,
    /// `InvalidIndexForFunc`, or with `Trapped` where an element segment
    /// does not fit its table.
    pub fn from_module(module: Module) -> (r: Result<Store>)
        ensures
            match instantiate(module@) {
                Ok(store) => r matches Ok(s) && s@ == store,
                Err(e) => r matches Err(x) && x == e,
            },
    {
        let mut funcs = Self::import_funcs(&module)?;
        let mut defined = Self::define_funcs(&module)?;
        let ghost imported = funcs@;
        let ghost own = defined@;
        funcs.append(&mut defined);
        proof {
            assert(views(funcs@) =~= views(imported) + views(own));
        }
        let globals = Self::init_globals(&module);
        match Self::find_immutable_write(&module) {
            Some(index) => {
                return Err(Error::ImmutableGlobal(index as usize));
            },
            None => {},
        }
        let exports = Self::resolve_exports(&module, funcs.len())?;
        let tables = Self::write_elements(&module, Self::init_tables(&module))?;
        let mems = Self::init_mems(&module);
        let elems = Self::init_elems(&module);
        let types = Self::types_of(&module);
        Ok(
            Store {
                funcs,
                tables,
                mems,
                globals,
                elems,
                module: ModuleInst { types, exports },
                start_func_index: module.start_section.func_index,
            },
        )
    }
}

/// Where the first `n` segments cannot be written, no greater number of
/// them can, with the same error.
pub proof fn lemma_write_segments_fails(tables: Seq<TableInstView>, elements: Seq<ElementView>, n: nat, total: nat)
    requires
        n <= total,
        write_segments(tables, elements, n) is Err,
    ensures
        write_segments(tables, elements, total) == write_segments(tables, elements, n),
    decreases total - n,
{
    if n < total {
        lemma_write_segments_fails(tables, elements, n + 1, total);
    }
}

/// Where the imports up to `n` fail, all of them fail, with the same error.
pub proof fn lemma_imported_funcs_fails(imports: Seq<ImportView>, types: Seq<TypeView>, n: int)
    requires
        0 <= n <= imports.len(),
        imported_funcs(imports.subrange(0, n), types) is Err,
    ensures
        imported_funcs(imports, types) == imported_funcs(imports.subrange(0, n), types),
    decreases imports.len() - n,
{
    if n < imports.len() {
        assert(imports.subrange(0, n + 1).drop_last() =~= imports.subrange(0, n));
        lemma_imported_funcs_fails(imports, types, n + 1);
    } else {
        assert(imports.subrange(0, n) =~= imports);
    }
}

/// Where the first `n` functions fail, any greater number of them fails,
/// with the same error.
pub proof fn lemma_defined_funcs_fails(m: ModuleView, n: nat, total: nat)
    requires
        n <= total,
        defined_funcs(m, n) is Err,
    ensures
        defined_funcs(m, total) == defined_funcs(m, n),
    decreases total - n,
{
    if n < total {
        lemma_defined_funcs_fails(m, n + 1, total);
    }
}

/// Where the exports up to `n` fail, all of them fail, with the same error.
pub proof fn lemma_resolved_exports_fails(exports: Seq<ExportView>, func_count: nat, n: int)
    requires
        0 <= n <= exports.len(),
        resolved_exports(exports.subrange(0, n), func_count) is Err,
    ensures
        resolved_exports(exports, func_count) == resolved_exports(exports.subrange(0, n), func_count),
    decreases exports.len() - n,
{
    if n < exports.len() {
        assert(exports.subrange(0, n + 1).drop_last() =~= exports.subrange(0, n));
        lemma_resolved_exports_fails(exports, func_count, n + 1);
    } else {
        assert(exports.subrange(0, n) =~= exports);
    }
}

} // verus!
