//! The module as a whole: the header, then section after section.

use crate::binary::module::{
    empty_module, CodeSection, Element, ElementSection, Export, ExportSection, FuncBody,
    FunctionSection, Global, GlobalSection, Import, ImportSection, MemorySection, Module,
    ModuleView, StartSection, TableSection, Type, TypeSection,
};
use crate::decoder::decoder::Decoder;
use crate::decoder::grammar::{
    lemma_views_u32, parse_bytes, parse_size, parse_u8, parse_vec, result_view, result_views,
    Parsed,
};
use crate::decoder::grammar::failed;
use crate::decoder::result::{Error, Result};
use crate::decoder::section_id::{section_id_of, SectionId};
use crate::types::{MemoryType, TableType};
use crate::views::views;
use crate::le::{read_u32_le, u32_le};
use vstd::prelude::*;

verus! {

/// The four bytes that open every module: `\0asm`.
pub open spec fn magic() -> Seq<u8> {
    seq![0x00u8, 0x61u8, 0x73u8, 0x6du8]
}

/// Whether the four bytes at `pos` are the magic header.
pub open spec fn has_magic(b: Seq<u8>, pos: int) -> bool {
    0 <= pos && pos + 4 <= b.len() && b.subrange(pos, pos + 4) == magic()
}

/// The version that the four bytes at `pos` spell, lowest byte first.
pub open spec fn version_at(b: Seq<u8>, pos: int) -> u32 {
    u32_le(b.subrange(pos, pos + 4))
}

/// The head of a section: its number, which must name a section, and its
/// size in bytes.
pub open spec fn parse_section_head(b: Seq<u8>, pos: int) -> Parsed<(SectionId, u32)> {
    match parse_u8(b, pos) {
        Ok((id, p)) => if section_id_of(id) is Unknown {
            failed(Error::InvalidSectionId(section_id_of(id)), p)
        } else {
            match parse_size(b, p) {
                Ok((size, next)) => Ok(((section_id_of(id), size), next)),
                Err(e) => Err(e),
            }
        },
        Err(e) => Err(e),
    }
}

/// The module `m` with the section of kind `id` that stands at `pos` put
/// in place of the one it had. A custom section is `size` bytes that are
/// passed over; the other sections end where their last entry ends.
pub open spec fn parse_section_body(b: Seq<u8>, pos: int, id: SectionId, size: u32, m: ModuleView) -> Parsed<
    ModuleView,
> {
    match id {
        SectionId::Custom => match parse_bytes(b, pos, size as int) {
            Ok((_, next)) => Ok((m, next)),
            Err(e) => Err(e),
        },
        SectionId::Type => match parse_vec::<Type>(b, pos) {
            Ok((s, next)) => Ok((ModuleView { type_section: s, ..m }, next)),
            Err(e) => Err(e),
        },
        SectionId::Import => match parse_vec::<Import>(b, pos) {
            Ok((s, next)) => Ok((ModuleView { import_section: s, ..m }, next)),
            Err(e) => Err(e),
        },
        SectionId::Function => match parse_vec::<u32>(b, pos) {
            Ok((s, next)) => Ok((ModuleView { function_section: s, ..m }, next)),
            Err(e) => Err(e),
        },
        SectionId::Table => match parse_vec::<TableType>(b, pos) {
            Ok((s, next)) => Ok((ModuleView { table_section: s, ..m }, next)),
            Err(e) => Err(e),
        },
        SectionId::Memory => match parse_vec::<MemoryType>(b, pos) {
            Ok((s, next)) => Ok((ModuleView { memory_section: s, ..m }, next)),
            Err(e) => Err(e),
        },
        SectionId::Global => match parse_vec::<Global>(b, pos) {
            Ok((s, next)) => Ok((ModuleView { global_section: s, ..m }, next)),
            Err(e) => Err(e),
        },
        SectionId::Export => match parse_vec::<Export>(b, pos) {
            Ok((s, next)) => Ok((ModuleView { export_section: s, ..m }, next)),
            Err(e) => Err(e),
        },
        SectionId::Start => match parse_size(b, pos) {
            Ok((index, next)) => Ok(
                (ModuleView { start_section: StartSection { func_index: Some(index) }, ..m }, next),
            ),
            Err(e) => Err(e),
        },
        SectionId::Element => match parse_vec::<Element>(b, pos) {
            Ok((s, next)) => Ok((ModuleView { element_section: s, ..m }, next)),
            Err(e) => Err(e),
        },
        SectionId::Code => match parse_vec::<FuncBody>(b, pos) {
            Ok((s, next)) => Ok((ModuleView { code_section: s, ..m }, next)),
            Err(e) => Err(e),
        },
        _ => failed(Error::UnsupportedSection(id), pos),
    }
}

/// One section: its head, then its body.
pub open spec fn parse_section(b: Seq<u8>, pos: int, m: ModuleView) -> Parsed<ModuleView> {
    match parse_section_head(b, pos) {
        Ok(((id, size), p)) => parse_section_body(b, p, id, size, m),
        Err(e) => Err(e),
    }
}

/// The module that the sections from `pos` on make of `m`. Where the input
/// ends, at the head of a section or inside one, the module is as the
/// sections before have left it. Any other error is the result.
pub open spec fn parse_sections(b: Seq<u8>, pos: int, m: ModuleView) -> core::result::Result<
    ModuleView,
    Error,
>
    decreases b.len() - pos,
{
    match parse_section(b, pos, m) {
        Ok((m2, next)) => if pos < next <= b.len() {
            parse_sections(b, next, m2)
        } else {
            Ok(m2)
        },
        Err(f) => if f.error is UnexpectedEof {
            Ok(m)
        } else {
            Err(f.error)
        },
    }
}

/// Where the decoder stands after the sections from `pos` on are read:
/// behind the last section that was read whole, or where the failure that
/// ended the reading has left it.
pub open spec fn sections_end(b: Seq<u8>, pos: int, m: ModuleView) -> int
    decreases b.len() - pos,
{
    match parse_section(b, pos, m) {
        Ok((m2, next)) => if pos < next <= b.len() {
            sections_end(b, next, m2)
        } else {
            next
        },
        Err(f) => f.at,
    }
}

/// Where the decoder stands after a module is read from `pos` on: behind
/// the four bytes of a wrong header or a wrong version, at the end of an
/// input that is too short for them, and else where the sections leave it.
pub open spec fn module_end(b: Seq<u8>, pos: int) -> int {
    if pos < 0 || pos + 4 > b.len() {
        b.len() as int
    } else if !has_magic(b, pos) {
        pos + 4
    } else if pos + 8 > b.len() {
        b.len() as int
    } else if version_at(b, pos + 4) != 1 {
        pos + 8
    } else {
        sections_end(b, pos + 8, empty_module())
    }
}

/// The module that the bytes from `pos` on spell: the magic header, the
/// version 1, then the sections.
pub open spec fn parse_module(b: Seq<u8>, pos: int) -> core::result::Result<ModuleView, Error> {
    if !has_magic(b, pos) {
        Err(Error::InvalidMagicHeader)
    } else if pos + 8 > b.len() || version_at(b, pos + 4) != 1 {
        Err(Error::InvalidVersion)
    } else {
        parse_sections(b, pos + 8, empty_module())
    }
}

/// The views of plain items are the items.
pub proof fn lemma_views_plain_sections(t: Seq<TableType>, m: Seq<MemoryType>, g: Seq<Global>)
    ensures
        views(t) == t,
        views(m) == m,
        views(g) == g,
{
    assert(views(t) =~= t);
    assert(views(m) =~= m);
    assert(views(g) =~= g);
}

impl Decoder {
    /// Checks that the next four bytes are the magic header. The four
    /// bytes are passed whether they are the header or not; where fewer are
    /// left, all are passed.
    pub fn validate_magic_header(&mut self) -> (r: Result<()>)
        ensures
            final(self).input() == old(self).input(),
            0 <= old(self).position() <= final(self).position() <= old(self).input().len(),
            old(self).position() + 4 <= old(self).input().len() ==> final(self).position() == old(
                self,
            ).position() + 4,
            old(self).position() + 4 > old(self).input().len() ==> final(self).position() == old(
                self,
            ).input().len(),
            r == (if has_magic(old(self).input(), old(self).position()) {
                Ok::<(), Error>(())
            } else {
                Err::<(), Error>(Error::InvalidMagicHeader)
            }),
    {
        match self.read_bytes(4) {
            Ok(head) => {
                if head[0] == 0x00 && head[1] == 0x61 && head[2] == 0x73 && head[3] == 0x6d {
                    proof {
                        assert(head@ =~= magic());
                    }
                    Ok(())
                } else {
                    Err(Error::InvalidMagicHeader)
                }
            },
            Err(_) => Err(Error::InvalidMagicHeader),
        }
    }

    /// How many bytes are left to read.
    pub fn remaining(&self) -> (r: usize)
        ensures
            r == self.input().len() - self.position(),
            0 <= self.position() <= self.input().len(),
    {
        self.bytes_left()
    }

    /// Reads the version: four bytes, lowest first. At least four bytes
    /// must be left.
    pub fn get_version(&mut self) -> (r: u32)
        requires
            old(self).position() + 4 <= old(self).input().len(),
        ensures
            final(self).input() == old(self).input(),
            final(self).position() == old(self).position() + 4,
            r == version_at(old(self).input(), old(self).position()),
    {
        match self.read_bytes(4) {
            Ok(bytes) => read_u32_le(bytes.as_slice()),
            Err(_) => 0,
        }
    }

    /// Reads the head of a section: which section follows, and its size.
    pub fn decode_section(&mut self) -> (r: Result<(SectionId, u32)>)
        ensures
            Self::reads(
                *old(self),
                *final(self),
                r,
                parse_section_head(old(self).input(), old(self).position()),
            ),
            r is Ok ==> old(self).position() < final(self).position(),
    {
        let id = SectionId::from(self.read_u8()?);
        if id.is_unknown() {
            return Err(Error::InvalidSectionId(id));
        }
        let size = self.read_size()?;
        Ok((id, size))
    }

    /// Reads the entries of the type section.
    pub fn decode_type_section(&mut self) -> (r: Result<TypeSection>)
        ensures
            Self::reads(
                *old(self),
                *final(self),
                result_views(r),
                parse_vec::<Type>(old(self).input(), old(self).position()),
            ),
    {
        self.read_vec::<Type>()
    }

    /// Reads the entries of the import section.
    pub fn decode_import_section(&mut self) -> (r: Result<ImportSection>)
        ensures
            Self::reads(
                *old(self),
                *final(self),
                result_views(r),
                parse_vec::<Import>(old(self).input(), old(self).position()),
            ),
    {
        self.read_vec::<Import>()
    }

    /// Reads the function section: for each function the index of its type.
    pub fn decode_function_section(&mut self) -> (r: Result<FunctionSection>)
        ensures
            Self::reads(
                *old(self),
                *final(self),
                result_views(r),
                parse_vec::<u32>(old(self).input(), old(self).position()),
            ),
    {
        self.read_vec::<u32>()
    }

    /// Reads the entries of the table section.
    pub fn decode_table_section(&mut self) -> (r: Result<TableSection>)
        ensures
            Self::reads(
                *old(self),
                *final(self),
                result_views(r),
                parse_vec::<TableType>(old(self).input(), old(self).position()),
            ),
    {
        self.read_vec::<TableType>()
    }

    /// Reads the entries of the memory section.
    pub fn decode_memory_section(&mut self) -> (r: Result<MemorySection>)
        ensures
            Self::reads(
                *old(self),
                *final(self),
                result_views(r),
                parse_vec::<MemoryType>(old(self).input(), old(self).position()),
            ),
    {
        self.read_vec::<MemoryType>()
    }

    /// Reads the entries of the global section.
    pub fn decode_global_section(&mut self) -> (r: Result<GlobalSection>)
        ensures
            Self::reads(
                *old(self),
                *final(self),
                result_views(r),
                parse_vec::<Global>(old(self).input(), old(self).position()),
            ),
    {
        self.read_vec::<Global>()
    }

    /// Reads the entries of the export section.
    pub fn decode_export_section(&mut self) -> (r: Result<ExportSection>)
        ensures
            Self::reads(
                *old(self),
                *final(self),
                result_views(r),
                parse_vec::<Export>(old(self).input(), old(self).position()),
            ),
    {
        self.read_vec::<Export>()
    }

    /// Reads the start section: the index of one function.
    pub fn decode_start_section(&mut self) -> (r: Result<StartSection>)
        ensures
            Self::reads(
                *old(self),
                *final(self),
                r,
                match parse_size(old(self).input(), old(self).position()) {
                    Ok((index, next)) => Ok((StartSection { func_index: Some(index) }, next)),
                    Err(e) => Err(e),
                },
            ),
    {
        Ok(StartSection { func_index: Some(self.read_size()?) })
    }

    /// Reads the entries of the element section.
    pub fn decode_element_section(&mut self) -> (r: Result<ElementSection>)
        ensures
            Self::reads(
                *old(self),
                *final(self),
                result_views(r),
                parse_vec::<Element>(old(self).input(), old(self).position()),
            ),
    {
        self.read_vec::<Element>()
    }

    /// Reads the entries of the code section.
    pub fn decode_code_section(&mut self) -> (r: Result<CodeSection>)
        ensures
            Self::reads(
                *old(self),
                *final(self),
                result_views(r),
                parse_vec::<FuncBody>(old(self).input(), old(self).position()),
            ),
    {
        self.read_vec::<FuncBody>()
    }

    /// Reads the body of the section of kind `id` and puts it into `module`.
    /// On failure `module` is as it was.
    pub fn decode_section_body(&mut self, id: SectionId, size: u32, module: &mut Module) -> (r: Result<()>)
        ensures
            Self::reads(
                *old(self),
                *final(self),
                match r {
                    Ok(_) => Ok(final(module)@),
                    Err(e) => Err(e),
                },
                parse_section_body(old(self).input(), old(self).position(), id, size, old(module)@),
            ),
            r is Err ==> final(module)@ == old(module)@,
    {
        proof {
            lemma_views_u32(module.function_section@);
            lemma_views_plain_sections(
                module.table_section@,
                module.memory_section@,
                module.global_section@,
            );
        }
        match id {
            SectionId::Custom => {
                self.read_bytes(size as usize)?;
            },
            SectionId::Type => {
                module.type_section = self.decode_type_section()?;
            },
            SectionId::Import => {
                module.import_section = self.decode_import_section()?;
            },
            SectionId::Function => {
                let section = self.decode_function_section()?;
                proof {
                    lemma_views_u32(section@);
                }
                module.function_section = section;
            },
            SectionId::Table => {
                let section = self.decode_table_section()?;
                proof {
                    lemma_views_plain_sections(section@, Seq::empty(), Seq::empty());
                }
                module.table_section = section;
            },
            SectionId::Memory => {
                let section = self.decode_memory_section()?;
                proof {
                    lemma_views_plain_sections(Seq::empty(), section@, Seq::empty());
                }
                module.memory_section = section;
            },
            SectionId::Global => {
                let section = self.decode_global_section()?;
                proof {
                    lemma_views_plain_sections(Seq::empty(), Seq::empty(), section@);
                }
                module.global_section = section;
            },
            SectionId::Export => {
                module.export_section = self.decode_export_section()?;
            },
            SectionId::Start => {
                module.start_section = self.decode_start_section()?;
            },
            SectionId::Element => {
                module.element_section = self.decode_element_section()?;
            },
            SectionId::Code => {
                module.code_section = self.decode_code_section()?;
            },
            _ => {
                return self.refuse(Error::UnsupportedSection(id));
            },
        }
        Ok(())
    }

    /// Reads a module: the header, then sections until the input ends or a
    /// read fails.
    pub fn decode(&mut self) -> (r: Result<Module>)
        ensures
            final(self).input() == old(self).input(),
            final(self).position() == module_end(old(self).input(), old(self).position()),
            result_view(r) == parse_module(old(self).input(), old(self).position()),
    {
        let ghost b = self.input();
        let ghost origin = self.position();
        self.validate_magic_header()?;
        if self.remaining() < 4 {
            let _ = self.read_bytes(4);
            return Err(Error::InvalidVersion);
        }
        let version = self.get_version();
        if version != 1 {
            return Err(Error::InvalidVersion);
        }
        let mut module = Module::default();
        loop
            invariant
                self.input() == b,
                old(self).input() == b,
                old(self).position() == origin,
                0 <= self.position() <= b.len(),
                parse_module(b, origin) == parse_sections(b, self.position(), module@),
                module_end(b, origin) == sections_end(b, self.position(), module@),
            decreases b.len() - self.position(),
        {
            let (id, size) = match self.decode_section() {
                Ok(head) => head,
                Err(Error::UnexpectedEof) => {
                    return Ok(module);
                },
                Err(e) => {
                    return Err(e);
                },
            };
            match self.decode_section_body(id, size, &mut module) {
                Ok(_) => {},
                Err(Error::UnexpectedEof) => {
                    return Ok(module);
                },
                Err(e) => {
                    return Err(e);
                },
            }
        }
    }
}

} // verus!
