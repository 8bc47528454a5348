//! The entries of the sections, and the module as a whole.

use crate::binary::instruction::Instr;
use crate::binary::module::{
    Element, ElementMode, ElementView, Export, ExportDesc, ExportView, FuncBody, FuncBodyView,
    Global, GlobalInitExpr, Import, ImportDesc, ImportView, Type, TypeView,
};
use crate::decoder::codec::{
    encode_instructions, encode_size_vec, encode_value_type_vec, instructions_encodable,
    lemma_instructions_round_trip, lemma_size_vec_round_trip, lemma_value_type_vec_round_trip,
};
use crate::decoder::decoder::Decoder;
use crate::decoder::encoding::{
    encode_limits, encode_name, encode_signed, encode_size, lemma_bytes_round_trip,
    lemma_f32_round_trip, lemma_f64_round_trip, lemma_i32_round_trip, lemma_i64_round_trip,
    lemma_limits_round_trip, lemma_name_round_trip, lemma_reference_type_round_trip,
    lemma_size_round_trip, lemma_u8_round_trip, lemma_value_type_round_trip, name_fits,
    ref_type_code,
};
use crate::types::value_type_code;
use crate::decoder::grammar::{
    lemma_views_u32, lemma_views_value_type, parse_bytes, parse_const_expr, parse_f32, parse_f64,
    parse_i32, parse_i64, parse_instructions, parse_items, parse_limits, parse_name,
    parse_reference_type, parse_size, parse_u8, parse_value_type, parse_vec, Item, Parsed,
};
use crate::decoder::grammar::failed;
use crate::decoder::result::{Error, Failure, Result};
use crate::types::{FuncType, FuncTypeView, GlobalType, MemoryType, RefType, TableType, ValueType};
use crate::views::views;
use crate::le::{le_u32, le_u64};
use vstd::prelude::*;

verus! {

impl Item for Type {
    /// `0x60`, the parameter types, the result types.
    open spec fn parse(b: Seq<u8>, pos: int) -> Parsed<TypeView> {
        match parse_u8(b, pos) {
            Ok((kind, p)) => if kind != 0x60 {
                failed(Error::InvalidTypeKind, p)
            } else {
                match parse_vec::<ValueType>(b, p) {
                    Ok((params, q)) => match parse_vec::<ValueType>(b, q) {
                        Ok((results, next)) => Ok(
                            (TypeView::Func(FuncTypeView { params, results }), next),
                        ),
                        Err(e) => Err(e),
                    },
                    Err(e) => Err(e),
                }
            },
            Err(e) => Err(e),
        }
    }

    fn read(d: &mut Decoder) -> (r: Result<Type>) {
        let kind = d.read_u8()?;
        if kind != 0x60 {
            return Err(Error::InvalidTypeKind);
        }
        let params = d.read_vec::<ValueType>()?;
        let results = d.read_vec::<ValueType>()?;
        proof {
            lemma_views_value_type(params@);
            lemma_views_value_type(results@);
        }
        Ok(Type::Func(FuncType { params, results }))
    }

    open spec fn encode(v: TypeView) -> Seq<u8> {
        match v {
            TypeView::Func(f) => seq![0x60u8] + encode_value_type_vec(f.params)
                + encode_value_type_vec(f.results),
        }
    }

    open spec fn encodable(v: TypeView) -> bool {
        match v {
            TypeView::Func(f) => f.params.len() <= u32::MAX && f.results.len() <= u32::MAX,
        }
    }

    proof fn lemma_round_trip(v: TypeView, pre: Seq<u8>, post: Seq<u8>) {
        let b = pre + Self::encode(v) + post;
        match v {
            TypeView::Func(f) => {
                let kind = seq![0x60u8];
                let params = encode_value_type_vec(f.params);
                let results = encode_value_type_vec(f.results);
                assert(b =~= pre + kind + (params + results + post));
                lemma_u8_round_trip(0x60, pre, params + results + post);
                assert(b =~= (pre + kind) + params + (results + post));
                lemma_value_type_vec_round_trip(f.params, pre + kind, results + post);
                assert(b =~= (pre + kind + params) + results + post);
                lemma_value_type_vec_round_trip(f.results, pre + kind + params, post);
            },
        }
    }
}

impl Item for Import {
    /// The two names, then `0x00` and the index of the function's type.
    open spec fn parse(b: Seq<u8>, pos: int) -> Parsed<ImportView> {
        match parse_name(b, pos) {
            Ok((module, p)) => match parse_name(b, p) {
                Ok((field, q)) => match parse_u8(b, q) {
                    Ok((kind, r)) => if kind == 0x00 {
                        match parse_size(b, r) {
                            Ok((type_index, next)) => Ok(
                                (ImportView { module, field, desc: ImportDesc::Func(type_index) }, next),
                            ),
                            Err(e) => Err(e),
                        }
                    } else {
                        failed(Error::InvalidImportDesc, r)
                    },
                    Err(e) => Err(e),
                },
                Err(e) => Err(e),
            },
            Err(e) => Err(e),
        }
    }

    fn read(d: &mut Decoder) -> (r: Result<Import>) {
        let module = d.read_name()?;
        let field = d.read_name()?;
        let kind = d.read_u8()?;
        if kind != 0x00 {
            return Err(Error::InvalidImportDesc);
        }
        let type_index = d.read_size()?;
        Ok(Import { module, field, desc: ImportDesc::Func(type_index) })
    }

    open spec fn encode(v: ImportView) -> Seq<u8> {
        match v.desc {
            ImportDesc::Func(type_index) => encode_name(v.module) + encode_name(v.field)
                + seq![0x00u8] + encode_size(type_index),
        }
    }

    open spec fn encodable(v: ImportView) -> bool {
        name_fits(v.module) && name_fits(v.field)
    }

    proof fn lemma_round_trip(v: ImportView, pre: Seq<u8>, post: Seq<u8>) {
        let b = pre + Self::encode(v) + post;
        match v.desc {
            ImportDesc::Func(type_index) => {
                let module = encode_name(v.module);
                let field = encode_name(v.field);
                let kind = seq![0x00u8];
                let index = encode_size(type_index);
                assert(b =~= pre + module + (field + kind + index + post));
                lemma_name_round_trip(v.module, pre, field + kind + index + post);
                assert(b =~= (pre + module) + field + (kind + index + post));
                lemma_name_round_trip(v.field, pre + module, kind + index + post);
                assert(b =~= (pre + module + field) + kind + (index + post));
                lemma_u8_round_trip(0x00, pre + module + field, index + post);
                assert(b =~= (pre + module + field + kind) + index + post);
                lemma_size_round_trip(type_index, pre + module + field + kind, post);
            },
        }
    }
}

impl View for TableType {
    type V = TableType;

    open spec fn view(&self) -> TableType {
        *self
    }
}

impl Item for TableType {
    /// The type of the entries, then the limits.
    open spec fn parse(b: Seq<u8>, pos: int) -> Parsed<TableType> {
        match parse_reference_type(b, pos) {
            Ok((element_type, p)) => match parse_limits(b, p) {
                Ok((limits, next)) => Ok((TableType { element_type, limits }, next)),
                Err(e) => Err(e),
            },
            Err(e) => Err(e),
        }
    }

    fn read(d: &mut Decoder) -> (r: Result<TableType>) {
        let element_type = d.read_reference_type()?;
        let limits = d.read_limits()?;
        Ok(TableType { element_type, limits })
    }

    open spec fn encode(v: TableType) -> Seq<u8> {
        seq![ref_type_code(v.element_type)] + encode_limits(v.limits)
    }

    open spec fn encodable(v: TableType) -> bool {
        true
    }

    proof fn lemma_round_trip(v: TableType, pre: Seq<u8>, post: Seq<u8>) {
        let b = pre + Self::encode(v) + post;
        let kind = seq![ref_type_code(v.element_type)];
        assert(b =~= pre + kind + (encode_limits(v.limits) + post));
        lemma_reference_type_round_trip(v.element_type, pre, encode_limits(v.limits) + post);
        assert(b =~= (pre + kind) + encode_limits(v.limits) + post);
        lemma_limits_round_trip(v.limits, pre + kind, post);
    }
}

impl View for MemoryType {
    type V = MemoryType;

    open spec fn view(&self) -> MemoryType {
        *self
    }
}

impl Item for MemoryType {
    /// The limits, in pages.
    open spec fn parse(b: Seq<u8>, pos: int) -> Parsed<MemoryType> {
        match parse_limits(b, pos) {
            Ok((limits, next)) => Ok((MemoryType { limits }, next)),
            Err(e) => Err(e),
        }
    }

    fn read(d: &mut Decoder) -> (r: Result<MemoryType>) {
        let limits = d.read_limits()?;
        Ok(MemoryType { limits })
    }

    open spec fn encode(v: MemoryType) -> Seq<u8> {
        encode_limits(v.limits)
    }

    open spec fn encodable(v: MemoryType) -> bool {
        true
    }

    proof fn lemma_round_trip(v: MemoryType, pre: Seq<u8>, post: Seq<u8>) {
        lemma_limits_round_trip(v.limits, pre, post);
    }
}

/// The first value of a global: one constant instruction, closed by `0x0B`.
pub open spec fn parse_global_init_expr(b: Seq<u8>, pos: int) -> Parsed<GlobalInitExpr> {
    match parse_u8(b, pos) {
        Ok((opcode, p)) => {
            let value: Parsed<GlobalInitExpr> = if opcode == 0x41 {
                match parse_i32(b, p) {
                    Ok((value, q)) => Ok((GlobalInitExpr::I32Const { value }, q)),
                    Err(e) => Err(e),
                }
            } else if opcode == 0x42 {
                match parse_i64(b, p) {
                    Ok((value, q)) => Ok((GlobalInitExpr::I64Const { value }, q)),
                    Err(e) => Err(e),
                }
            } else if opcode == 0x43 {
                match parse_f32(b, p) {
                    Ok((value, q)) => Ok((GlobalInitExpr::F32Const { value }, q)),
                    Err(e) => Err(e),
                }
            } else if opcode == 0x44 {
                match parse_f64(b, p) {
                    Ok((value, q)) => Ok((GlobalInitExpr::F64Const { value }, q)),
                    Err(e) => Err(e),
                }
            } else {
                failed(Error::InvalidGlobalInitExpr, p)
            };
            match value {
                Ok((expr, q)) => match parse_u8(b, q) {
                    Ok((end, next)) => if end == 0x0B {
                        Ok((expr, next))
                    } else {
                        failed(Error::InvalidGlobalInitExpr, next)
                    },
                    Err(e) => Err(e),
                },
                Err(e) => Err(e),
            }
        },
        Err(e) => Err(e),
    }
}

impl View for Global {
    type V = Global;

    open spec fn view(&self) -> Global {
        *self
    }
}

impl Item for Global {
    /// The type of the value, a byte that is 1 where the global can be
    /// written, and the first value.
    open spec fn parse(b: Seq<u8>, pos: int) -> Parsed<Global> {
        match parse_value_type(b, pos) {
            Ok((value_type, p)) => match parse_u8(b, p) {
                Ok((flag, q)) => match parse_global_init_expr(b, q) {
                    Ok((init_expr, next)) => Ok(
                        (
                            Global {
                                global_type: GlobalType { value_type, mutable: flag == 0x01 },
                                init_expr,
                            },
                            next,
                        ),
                    ),
                    Err(e) => Err(e),
                },
                Err(e) => Err(e),
            },
            Err(e) => Err(e),
        }
    }

    fn read(d: &mut Decoder) -> (r: Result<Global>) {
        let value_type = ValueType::read(d)?;
        let mutable = d.read_u8()? == 0x01;
        let init_expr = d.read_global_init_expr()?;
        Ok(Global { global_type: GlobalType { value_type, mutable }, init_expr })
    }

    open spec fn encode(v: Global) -> Seq<u8> {
        seq![value_type_code(v.global_type.value_type)] + seq![
            if v.global_type.mutable {
                0x01u8
            } else {
                0x00u8
            },
        ] + encode_global_init_expr(v.init_expr)
    }

    open spec fn encodable(v: Global) -> bool {
        true
    }

    proof fn lemma_round_trip(v: Global, pre: Seq<u8>, post: Seq<u8>) {
        let b = pre + Self::encode(v) + post;
        let ty = seq![value_type_code(v.global_type.value_type)];
        let flag: u8 = if v.global_type.mutable {
            0x01u8
        } else {
            0x00u8
        };
        let init = encode_global_init_expr(v.init_expr);
        assert(b =~= pre + ty + (seq![flag] + init + post));
        lemma_value_type_round_trip(v.global_type.value_type, pre, seq![flag] + init + post);
        assert(b =~= (pre + ty) + seq![flag] + (init + post));
        lemma_u8_round_trip(flag, pre + ty, init + post);
        assert(b =~= (pre + ty + seq![flag]) + init + post);
        lemma_global_init_expr_round_trip(v.init_expr, pre + ty + seq![flag], post);
    }
}

impl Item for Export {
    /// The name, the kind of what is exported, and its index.
    open spec fn parse(b: Seq<u8>, pos: int) -> Parsed<ExportView> {
        match parse_name(b, pos) {
            Ok((name, p)) => match parse_u8(b, p) {
                Ok((kind, q)) => if kind > 0x03 {
                    failed(Error::InvalidExportDesc, q)
                } else {
                    match parse_size(b, q) {
                        Ok((index, next)) => Ok(
                            (
                                ExportView {
                                    name,
                                    desc: if kind == 0x00 {
                                        ExportDesc::Func(index)
                                    } else if kind == 0x01 {
                                        ExportDesc::Table(index)
                                    } else if kind == 0x02 {
                                        ExportDesc::Mem(index)
                                    } else {
                                        ExportDesc::Global(index)
                                    },
                                },
                                next,
                            ),
                        ),
                        Err(e) => Err(e),
                    }
                },
                Err(e) => Err(e),
            },
            Err(e) => Err(e),
        }
    }

    fn read(d: &mut Decoder) -> (r: Result<Export>) {
        let name = d.read_name()?;
        let kind = d.read_u8()?;
        let desc = match kind {
            0x00 => ExportDesc::Func(d.read_size()?),
            0x01 => ExportDesc::Table(d.read_size()?),
            0x02 => ExportDesc::Mem(d.read_size()?),
            0x03 => ExportDesc::Global(d.read_size()?),
            _ => {
                return Err(Error::InvalidExportDesc);
            },
        };
        Ok(Export { name, desc })
    }

    open spec fn encode(v: ExportView) -> Seq<u8> {
        encode_name(v.name) + match v.desc {
            ExportDesc::Func(index) => seq![0x00u8] + encode_size(index),
            ExportDesc::Table(index) => seq![0x01u8] + encode_size(index),
            ExportDesc::Mem(index) => seq![0x02u8] + encode_size(index),
            ExportDesc::Global(index) => seq![0x03u8] + encode_size(index),
        }
    }

    open spec fn encodable(v: ExportView) -> bool {
        name_fits(v.name)
    }

    proof fn lemma_round_trip(v: ExportView, pre: Seq<u8>, post: Seq<u8>) {
        let b = pre + Self::encode(v) + post;
        let name = encode_name(v.name);
        let (kind, index): (u8, u32) = match v.desc {
            ExportDesc::Func(index) => (0x00u8, index),
            ExportDesc::Table(index) => (0x01u8, index),
            ExportDesc::Mem(index) => (0x02u8, index),
            ExportDesc::Global(index) => (0x03u8, index),
        };
        assert(b =~= pre + name + (seq![kind] + encode_size(index) + post));
        lemma_name_round_trip(v.name, pre, seq![kind] + encode_size(index) + post);
        assert(b =~= (pre + name) + seq![kind] + (encode_size(index) + post));
        lemma_u8_round_trip(kind, pre + name, encode_size(index) + post);
        assert(b =~= (pre + name + seq![kind]) + encode_size(index) + post);
        lemma_size_round_trip(index, pre + name + seq![kind], post);
    }
}

impl Item for Element {
    /// The prefix 0, the offset as a constant expression of 32 bits, and the
    /// indices of the functions. The segment is active in table 0.
    open spec fn parse(b: Seq<u8>, pos: int) -> Parsed<ElementView> {
        match parse_size(b, pos) {
            Ok((prefix, p)) => if prefix != 0 {
                failed(Error::UnsupportedElementPrefix, p)
            } else {
                match parse_const_expr(b, p) {
                    Ok((expr, q)) => match expr {
                        Instr::I32Const { value: offset } => match parse_vec::<u32>(b, q) {
                            Ok((init, next)) => Ok(
                                (
                                    ElementView {
                                        mode: ElementMode::Active { table_index: 0, offset },
                                        ref_type: RefType::FuncRef,
                                        init,
                                    },
                                    next,
                                ),
                            ),
                            Err(e) => Err(e),
                        },
                        _ => failed(Error::ExpectedConstExpression, q),
                    },
                    Err(e) => Err(e),
                }
            },
            Err(e) => Err(e),
        }
    }

    fn read(d: &mut Decoder) -> (r: Result<Element>) {
        let prefix = d.read_size()?;
        if prefix != 0 {
            return Err(Error::UnsupportedElementPrefix);
        }
        let offset = match d.read_const_expr()? {
            Instr::I32Const { value } => value,
            _ => {
                return Err(Error::ExpectedConstExpression);
            },
        };
        let init = d.read_vec::<u32>()?;
        proof {
            lemma_views_u32(init@);
        }
        Ok(
            Element {
                mode: ElementMode::Active { table_index: 0, offset },
                ref_type: RefType::FuncRef,
                init,
            },
        )
    }

    open spec fn encode(v: ElementView) -> Seq<u8> {
        match v.mode {
            ElementMode::Active { offset, .. } => encode_size(0) + (seq![0x41u8] + encode_signed(
                offset as i64,
            ) + seq![0x0Bu8]) + encode_size_vec(v.init),
            _ => Seq::empty(),
        }
    }

    open spec fn encodable(v: ElementView) -> bool {
        v.mode matches ElementMode::Active { table_index, .. } && table_index == 0 && v.ref_type
            == RefType::FuncRef && v.init.len() <= u32::MAX
    }

    #[verifier::rlimit(60)]
    proof fn lemma_round_trip(v: ElementView, pre: Seq<u8>, post: Seq<u8>) {
        let b = pre + Self::encode(v) + post;
        match v.mode {
            ElementMode::Active { offset, .. } => {
                let prefix = encode_size(0);
                let op = seq![0x41u8];
                let value = encode_signed(offset as i64);
                let end = seq![0x0Bu8];
                let init = encode_size_vec(v.init);
                assert(b =~= pre + prefix + (op + value + end + init + post));
                lemma_size_round_trip(0, pre, op + value + end + init + post);
                let at = pre + prefix;
                assert(b =~= at + op + (value + end + init + post));
                lemma_u8_round_trip(0x41, at, value + end + init + post);
                assert(b =~= (at + op) + value + (end + init + post));
                lemma_i32_round_trip(offset, at + op, end + init + post);
                assert(b =~= (at + op + value) + end + (init + post));
                lemma_u8_round_trip(0x0B, at + op + value, init + post);
                assert(b =~= (at + op + value + end) + init + post);
                lemma_size_vec_round_trip(v.init, at + op + value + end, post);
            },
            _ => {},
        }
    }
}

/// A run of locals of one type, as a function body declares them.
#[derive(Clone, Copy, Debug, PartialEq, Eq, Structural)]
pub struct LocalGroup {
    pub count: u32,
    pub value_type: ValueType,
}

impl View for LocalGroup {
    type V = LocalGroup;

    open spec fn view(&self) -> LocalGroup {
        *self
    }
}

impl Item for LocalGroup {
    /// How many locals, then their type.
    open spec fn parse(b: Seq<u8>, pos: int) -> Parsed<LocalGroup> {
        match parse_size(b, pos) {
            Ok((count, p)) => match parse_value_type(b, p) {
                Ok((value_type, next)) => Ok((LocalGroup { count, value_type }, next)),
                Err(e) => Err(e),
            },
            Err(e) => Err(e),
        }
    }

    fn read(d: &mut Decoder) -> (r: Result<LocalGroup>) {
        let count = d.read_size()?;
        let value_type = ValueType::read(d)?;
        Ok(LocalGroup { count, value_type })
    }

    open spec fn encode(v: LocalGroup) -> Seq<u8> {
        encode_size(v.count) + seq![value_type_code(v.value_type)]
    }

    open spec fn encodable(v: LocalGroup) -> bool {
        true
    }

    proof fn lemma_round_trip(v: LocalGroup, pre: Seq<u8>, post: Seq<u8>) {
        lemma_local_group_round_trip(v, pre, post);
    }
}

/// The types of the locals that the groups declare: each group's type as
/// often as its count says, group after group.
pub open spec fn expand_locals(groups: Seq<LocalGroup>) -> Seq<ValueType>
    decreases groups.len(),
{
    if groups.len() == 0 {
        Seq::empty()
    } else {
        expand_locals(groups.drop_last()) + Seq::new(
            groups.last().count as nat,
            |i: int| groups.last().value_type,
        )
    }
}

/// Writes out the locals that the groups declare.
pub fn expand_local_groups(groups: &Vec<LocalGroup>) -> (locals: Vec<ValueType>)
    ensures
        locals@ == expand_locals(groups@),
{
    let mut locals: Vec<ValueType> = Vec::new();
    let mut j: usize = 0;
    while j < groups.len()
        invariant
            j <= groups.len(),
            locals@ == expand_locals(groups@.subrange(0, j as int)),
        decreases groups.len() - j,
    {
        let group = groups[j];
        let ghost done = locals@;
        let mut k: u32 = 0;
        while k < group.count
            invariant
                k <= group.count,
                locals@ == done + Seq::new(k as nat, |i: int| group.value_type),
            decreases group.count - k,
        {
            locals.push(group.value_type);
            k = k + 1;
            proof {
                assert(locals@ =~= done + Seq::new(k as nat, |i: int| group.value_type));
            }
        }
        proof {
            let next = groups@.subrange(0, j + 1);
            assert(next.drop_last() =~= groups@.subrange(0, j as int));
            assert(next.last() == group);
        }
        j = j + 1;
    }
    proof {
        assert(groups@.subrange(0, groups.len() as int) =~= groups@);
    }
    locals
}

/// A function body on its own: the groups of locals, then instructions up
/// to the last byte.
pub open spec fn parse_body(body: Seq<u8>) -> core::result::Result<FuncBodyView, Error> {
    match parse_vec::<LocalGroup>(body, 0) {
        Ok((groups, p)) => match parse_instructions(body, p) {
            Ok(code) => Ok(FuncBodyView { locals: expand_locals(groups), code }),
            Err(f) => Err(f.error),
        },
        Err(f) => Err(f.error),
    }
}

/// The views of plain items are the items.
pub proof fn lemma_views_local_group(s: Seq<LocalGroup>)
    ensures
        views(s) == s,
{
    assert(views(s) =~= s);
}

impl Item for FuncBody {
    /// The size of the body in bytes, then the body. Where the body fails
    /// to read, the decoder stands behind it.
    open spec fn parse(b: Seq<u8>, pos: int) -> Parsed<FuncBodyView> {
        match parse_size(b, pos) {
            Ok((size, p)) => match parse_bytes(b, p, size as int) {
                Ok((body, next)) => match parse_body(body) {
                    Ok(func) => Ok((func, next)),
                    Err(e) => failed(e, next),
                },
                Err(e) => Err(e),
            },
            Err(e) => Err(e),
        }
    }

    fn read(d: &mut Decoder) -> (r: Result<FuncBody>) {
        let size = d.read_size()?;
        let bytes = d.read_bytes(size as usize)?;
        let mut inner = Decoder::new(bytes.as_slice());
        let groups = match inner.read_vec::<LocalGroup>() {
            Ok(groups) => groups,
            Err(e) => {
                return Err(e);
            },
        };
        proof {
            lemma_views_local_group(groups@);
        }
        let locals = expand_local_groups(&groups);
        match inner.read_instructions() {
            Ok(code) => Ok(FuncBody { locals, code }),
            Err(e) => Err(e),
        }
    }

    open spec fn encode(v: FuncBodyView) -> Seq<u8> {
        encode_size(encode_body(v).len() as u32) + encode_body(v)
    }

    open spec fn encodable(v: FuncBodyView) -> bool {
        v.locals.len() <= u32::MAX && encode_body(v).len() <= u32::MAX && instructions_encodable(
            v.code,
        )
    }

    proof fn lemma_round_trip(v: FuncBodyView, pre: Seq<u8>, post: Seq<u8>) {
        let b = pre + Self::encode(v) + post;
        let body = encode_body(v);
        let size = encode_size(body.len() as u32);
        assert(b =~= pre + size + (body + post));
        lemma_size_round_trip(body.len() as u32, pre, body + post);
        assert(b =~= (pre + size) + body + post);
        lemma_bytes_round_trip(body, pre + size, post);
        lemma_body_round_trip(v);
    }
}

/// The bytes of the first value of a global.
pub open spec fn encode_global_init_expr(e: GlobalInitExpr) -> Seq<u8> {
    match e {
        GlobalInitExpr::I32Const { value } => seq![0x41u8] + encode_signed(value as i64) + seq![
            0x0Bu8,
        ],
        GlobalInitExpr::I64Const { value } => seq![0x42u8] + encode_signed(value) + seq![0x0Bu8],
        GlobalInitExpr::F32Const { value } => seq![0x43u8] + le_u32(value) + seq![
            0x0Bu8,
        ],
        GlobalInitExpr::F64Const { value } => seq![0x44u8] + le_u64(value) + seq![
            0x0Bu8,
        ],
    }
}

/// The first value of a global is read back.
#[verifier::rlimit(60)]
pub proof fn lemma_global_init_expr_round_trip(e: GlobalInitExpr, pre: Seq<u8>, post: Seq<u8>)
    ensures
        parse_global_init_expr(pre + encode_global_init_expr(e) + post, pre.len() as int) == Ok::<
            (GlobalInitExpr, int),
            Failure,
        >((e, pre.len() as int + encode_global_init_expr(e).len())),
{
    let b = pre + encode_global_init_expr(e) + post;
    let end = seq![0x0Bu8];
    match e {
        GlobalInitExpr::I32Const { value } => {
            let op = seq![0x41u8];
            let v = encode_signed(value as i64);
            assert(b =~= pre + op + (v + end + post));
            lemma_u8_round_trip(0x41, pre, v + end + post);
            assert(b =~= (pre + op) + v + (end + post));
            lemma_i32_round_trip(value, pre + op, end + post);
            assert(b =~= (pre + op + v) + end + post);
            lemma_u8_round_trip(0x0B, pre + op + v, post);
        },
        GlobalInitExpr::I64Const { value } => {
            let op = seq![0x42u8];
            let v = encode_signed(value);
            assert(b =~= pre + op + (v + end + post));
            lemma_u8_round_trip(0x42, pre, v + end + post);
            assert(b =~= (pre + op) + v + (end + post));
            lemma_i64_round_trip(value, pre + op, end + post);
            assert(b =~= (pre + op + v) + end + post);
            lemma_u8_round_trip(0x0B, pre + op + v, post);
        },
        GlobalInitExpr::F32Const { value } => {
            let op = seq![0x43u8];
            let v = le_u32(value);
            assert(b =~= pre + op + (v + end + post));
            lemma_u8_round_trip(0x43, pre, v + end + post);
            assert(b =~= (pre + op) + v + (end + post));
            lemma_f32_round_trip(value, pre + op, end + post);
            assert(b =~= (pre + op + v) + end + post);
            lemma_u8_round_trip(0x0B, pre + op + v, post);
        },
        GlobalInitExpr::F64Const { value } => {
            let op = seq![0x44u8];
            let v = le_u64(value);
            assert(b =~= pre + op + (v + end + post));
            lemma_u8_round_trip(0x44, pre, v + end + post);
            assert(b =~= (pre + op) + v + (end + post));
            lemma_f64_round_trip(value, pre + op, end + post);
            assert(b =~= (pre + op + v) + end + post);
            lemma_u8_round_trip(0x0B, pre + op + v, post);
        },
    }
}

/// A group of locals is read back.
pub proof fn lemma_local_group_round_trip(v: LocalGroup, pre: Seq<u8>, post: Seq<u8>)
    ensures
        LocalGroup::parse(pre + LocalGroup::encode(v) + post, pre.len() as int) == Ok::<
            (LocalGroup, int),
            Failure,
        >((v, pre.len() as int + LocalGroup::encode(v).len())),
{
    let b = pre + LocalGroup::encode(v) + post;
    let count = encode_size(v.count);
    let ty = seq![value_type_code(v.value_type)];
    assert(b =~= pre + count + (ty + post));
    lemma_size_round_trip(v.count, pre, ty + post);
    assert(b =~= (pre + count) + ty + post);
    lemma_value_type_round_trip(v.value_type, pre + count, post);
}

/// The groups that declare the given locals one by one.
pub open spec fn single_groups(locals: Seq<ValueType>) -> Seq<LocalGroup> {
    Seq::new(locals.len(), |i: int| LocalGroup { count: 1, value_type: locals[i] })
}

/// Groups of one local each declare just those locals.
pub proof fn lemma_single_groups_expand(locals: Seq<ValueType>)
    ensures
        expand_locals(single_groups(locals)) == locals,
    decreases locals.len(),
{
    let groups = single_groups(locals);
    if locals.len() == 0 {
        assert(locals =~= Seq::empty());
    } else {
        assert(groups.drop_last() =~= single_groups(locals.drop_last()));
        lemma_single_groups_expand(locals.drop_last());
        assert(Seq::new(groups.last().count as nat, |i: int| groups.last().value_type) =~= seq![
            locals.last(),
        ]);
        assert(locals.drop_last() + seq![locals.last()] =~= locals);
    }
}

/// The bytes of groups of locals in a row.
pub open spec fn encode_groups(groups: Seq<LocalGroup>) -> Seq<u8>
    decreases groups.len(),
{
    if groups.len() == 0 {
        Seq::empty()
    } else {
        LocalGroup::encode(groups[0]) + encode_groups(groups.drop_first())
    }
}

/// Groups of locals in a row are read back.
pub proof fn lemma_groups_round_trip(groups: Seq<LocalGroup>, pre: Seq<u8>, post: Seq<u8>)
    ensures
        parse_items::<LocalGroup>(pre + encode_groups(groups) + post, pre.len() as int, groups.len())
            == Ok::<(Seq<LocalGroup>, int), Failure>(
            (groups, pre.len() as int + encode_groups(groups).len()),
        ),
    decreases groups.len(),
{
    let b = pre + encode_groups(groups) + post;
    if groups.len() == 0 {
        assert(groups =~= Seq::empty());
    } else {
        let first = LocalGroup::encode(groups[0]);
        let others = encode_groups(groups.drop_first());
        assert(b =~= pre + first + (others + post));
        lemma_local_group_round_trip(groups[0], pre, others + post);
        assert(b =~= (pre + first) + others + post);
        lemma_groups_round_trip(groups.drop_first(), pre + first, post);
        assert(seq![groups[0]] + groups.drop_first() =~= groups);
    }
}

/// The bytes of a function body without its size: its locals, declared
/// one by one, then its instructions.
pub open spec fn encode_body(v: FuncBodyView) -> Seq<u8> {
    encode_size(v.locals.len() as u32) + encode_groups(single_groups(v.locals))
        + encode_instructions(v.code)
}

/// A function body on its own is read back.
pub proof fn lemma_body_round_trip(v: FuncBodyView)
    requires
        v.locals.len() <= u32::MAX,
        instructions_encodable(v.code),
    ensures
        parse_body(encode_body(v)) == Ok::<FuncBodyView, Error>(v),
{
    let b = encode_body(v);
    let none = Seq::<u8>::empty();
    let groups = single_groups(v.locals);
    let count = encode_size(v.locals.len() as u32);
    let code = encode_instructions(v.code);
    assert(b =~= none + count + (encode_groups(groups) + code));
    lemma_size_round_trip(v.locals.len() as u32, none, encode_groups(groups) + code);
    assert(b =~= (none + count) + encode_groups(groups) + code);
    lemma_groups_round_trip(groups, none + count, code);
    assert(b =~= (none + count + encode_groups(groups)) + code);
    lemma_instructions_round_trip(v.code, none + count + encode_groups(groups));
    lemma_single_groups_expand(v.locals);
}

impl Decoder {
    /// Reads the first value of a global.
    pub fn read_global_init_expr(&mut self) -> (r: Result<GlobalInitExpr>)
        ensures
            Self::reads(
                *old(self),
                *final(self),
                r,
                parse_global_init_expr(old(self).input(), old(self).position()),
            ),
    {
        let opcode = self.read_u8()?;
        let expr = match opcode {
            0x41 => GlobalInitExpr::I32Const { value: self.read_i32()? },
            0x42 => GlobalInitExpr::I64Const { value: self.read_i64()? },
            0x43 => GlobalInitExpr::F32Const { value: self.read_f32()? },
            0x44 => GlobalInitExpr::F64Const { value: self.read_f64()? },
            _ => {
                return Err(Error::InvalidGlobalInitExpr);
            },
        };
        let end = self.read_u8()?;
        if end != 0x0B {
            return Err(Error::InvalidGlobalInitExpr);
        }
        Ok(expr)
    }
}

} // verus!
