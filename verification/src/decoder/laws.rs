//! What holds of the decoder, whatever the bytes.

use crate::binary::module::{
    empty_module, Element, Export, FuncBody, Global, Import, ModuleView, StartSection, Type,
};
use crate::decoder::encoding::{encode_size, lemma_size_round_trip, lemma_u8_round_trip};
use crate::decoder::grammar::{parse_items, parse_vec, Item};
use crate::decoder::module::{
    has_magic, magic, parse_module, parse_section, parse_section_head, parse_sections, version_at,
};
use crate::decoder::result::{Error, Failure};
use crate::decoder::section_id::{section_id_of, SectionId};
use crate::types::{MemoryType, TableType};
use crate::le::{le_u32, lemma_u32_le, u32_le};
use vstd::prelude::*;

verus! {

/// The header is checked before anything else, whatever follows it: bytes
/// that do not start with the magic header are refused with
/// `InvalidMagicHeader`, and bytes that start with it and go on with
/// another version than 1, or with fewer than four bytes, are refused with
/// `InvalidVersion`.
pub proof fn lemma_header_validation(b: Seq<u8>)
    ensures
        !has_magic(b, 0) ==> parse_module(b, 0) == Err::<ModuleView, Error>(
            Error::InvalidMagicHeader,
        ),
        has_magic(b, 0) && (b.len() < 8 || version_at(b, 4) != 1) ==> parse_module(b, 0) == Err::<
            ModuleView,
            Error,
        >(Error::InvalidVersion),
{
}

/// One wrong byte among the first four spoils the magic header.
pub proof fn lemma_corrupted_magic_header(b: Seq<u8>, i: int)
    requires
        0 <= i < 4,
        b.len() < 4 || b[i] != magic()[i],
    ensures
        !has_magic(b, 0),
        parse_module(b, 0) == Err::<ModuleView, Error>(Error::InvalidMagicHeader),
{
    if b.len() >= 4 {
        assert(b.subrange(0, 4)[i] == b[i]);
    }
}

/// The bytes of items in a row.
pub open spec fn encode_items<T: Item>(items: Seq<T::V>) -> Seq<u8>
    decreases items.len(),
{
    if items.len() == 0 {
        Seq::empty()
    } else {
        T::encode(items[0]) + encode_items::<T>(items.drop_first())
    }
}

/// Whether a vector can be written: it has fewer than 2^32 items, and
/// each of them can be written.
pub open spec fn vec_encodable<T: Item>(items: Seq<T::V>) -> bool {
    &&& items.len() <= u32::MAX
    &&& forall|k: int| 0 <= k < items.len() ==> T::encodable(#[trigger] items[k])
}

/// Items in a row are read back.
pub proof fn lemma_items_round_trip<T: Item>(items: Seq<T::V>, pre: Seq<u8>, post: Seq<u8>)
    requires
        forall|k: int| 0 <= k < items.len() ==> T::encodable(#[trigger] items[k]),
    ensures
        parse_items::<T>(pre + encode_items::<T>(items) + post, pre.len() as int, items.len())
            == Ok::<(Seq<T::V>, int), Failure>(
            (items, pre.len() as int + encode_items::<T>(items).len()),
        ),
    decreases items.len(),
{
    let b = pre + encode_items::<T>(items) + post;
    if items.len() == 0 {
        assert(items =~= Seq::empty());
    } else {
        let first = T::encode(items[0]);
        let others = encode_items::<T>(items.drop_first());
        assert(b =~= pre + first + (others + post));
        T::lemma_round_trip(items[0], pre, others + post);
        assert(b =~= (pre + first) + others + post);
        assert forall|k: int| 0 <= k < items.drop_first().len() implies T::encodable(
            #[trigger] items.drop_first()[k],
        ) by {
            assert(items.drop_first()[k] == items[k + 1]);
        }
        lemma_items_round_trip::<T>(items.drop_first(), pre + first, post);
        assert(seq![items[0]] + items.drop_first() =~= items);
    }
}

/// The bytes of a vector: the number of its items, then the items.
pub open spec fn encode_vec<T: Item>(items: Seq<T::V>) -> Seq<u8> {
    encode_size(items.len() as u32) + encode_items::<T>(items)
}

/// A vector is read back from its bytes, whatever stands before and
/// behind them.
pub proof fn lemma_vec_round_trip<T: Item>(items: Seq<T::V>, pre: Seq<u8>, post: Seq<u8>)
    requires
        vec_encodable::<T>(items),
    ensures
        parse_vec::<T>(pre + encode_vec::<T>(items) + post, pre.len() as int) == Ok::<
            (Seq<T::V>, int),
            Failure,
        >((items, pre.len() as int + encode_vec::<T>(items).len())),
{
    let b = pre + encode_vec::<T>(items) + post;
    let count = encode_size(items.len() as u32);
    assert(b =~= pre + count + (encode_items::<T>(items) + post));
    lemma_size_round_trip(items.len() as u32, pre, encode_items::<T>(items) + post);
    assert(b =~= (pre + count) + encode_items::<T>(items) + post);
    lemma_items_round_trip::<T>(items, pre + count, post);
}

/// The bytes of a section: its number, the size of its body, its body.
pub open spec fn encode_section(id: u8, body: Seq<u8>) -> Seq<u8> {
    seq![id] + encode_size(body.len() as u32) + body
}

/// The head of a section is read back, and leaves the decoder at the
/// body.
pub proof fn lemma_section_head_round_trip(id: u8, body: Seq<u8>, pre: Seq<u8>, post: Seq<u8>)
    requires
        id <= 12,
        body.len() <= u32::MAX,
    ensures
        parse_section_head(pre + encode_section(id, body) + post, pre.len() as int) == Ok::<
            ((SectionId, u32), int),
            Failure,
        >(
            (
                (section_id_of(id), body.len() as u32),
                pre.len() as int + 1 + encode_size(body.len() as u32).len(),
            ),
        ),
        pre + encode_section(id, body) + post == (pre + seq![id] + encode_size(body.len() as u32))
            + body + post,
{
    let b = pre + encode_section(id, body) + post;
    let size = encode_size(body.len() as u32);
    assert(b =~= pre + seq![id] + (size + body + post));
    lemma_u8_round_trip(id, pre, size + body + post);
    assert(b =~= (pre + seq![id]) + size + (body + post));
    lemma_size_round_trip(body.len() as u32, pre + seq![id], body + post);
    assert(b =~= (pre + seq![id] + size) + body + post);
}

/// The bytes of the start section, if the module has one.
pub open spec fn encode_start(start: StartSection) -> Seq<u8> {
    match start.func_index {
        Some(index) => encode_section(8, encode_size(index)),
        None => Seq::empty(),
    }
}

/// The bytes of the section with the number `id`, from 1 to 10. Every
/// section is written, empty or not, but for the start section of a module
/// that has none.
pub open spec fn section_bytes(m: ModuleView, id: nat) -> Seq<u8> {
    if id == 1 {
        encode_section(1, encode_vec::<Type>(m.type_section))
    } else if id == 2 {
        encode_section(2, encode_vec::<Import>(m.import_section))
    } else if id == 3 {
        encode_section(3, encode_vec::<u32>(m.function_section))
    } else if id == 4 {
        encode_section(4, encode_vec::<TableType>(m.table_section))
    } else if id == 5 {
        encode_section(5, encode_vec::<MemoryType>(m.memory_section))
    } else if id == 6 {
        encode_section(6, encode_vec::<Global>(m.global_section))
    } else if id == 7 {
        encode_section(7, encode_vec::<Export>(m.export_section))
    } else if id == 8 {
        encode_start(m.start_section)
    } else if id == 9 {
        encode_section(9, encode_vec::<Element>(m.element_section))
    } else {
        encode_section(10, encode_vec::<FuncBody>(m.code_section))
    }
}

/// The bytes of the sections of a module from the one with the number
/// `from` on, in the order of their numbers.
pub open spec fn encode_sections(m: ModuleView, from: nat) -> Seq<u8>
    decreases 11 - from,
{
    if from < 1 || from > 10 {
        Seq::empty()
    } else {
        section_bytes(m, from) + encode_sections(m, from + 1)
    }
}

/// The bytes of a module: the magic header, the version 1, and its
/// sections.
pub open spec fn encode_module(m: ModuleView) -> Seq<u8> {
    magic() + le_u32(1) + encode_sections(m, 1)
}

/// Whether a module can be written: each of its vectors can, and the
/// body of each section has fewer than 2^32 bytes.
pub open spec fn module_encodable(m: ModuleView) -> bool {
    &&& vec_encodable::<Type>(m.type_section)
    &&& vec_encodable::<Import>(m.import_section)
    &&& vec_encodable::<u32>(m.function_section)
    &&& vec_encodable::<TableType>(m.table_section)
    &&& vec_encodable::<MemoryType>(m.memory_section)
    &&& vec_encodable::<Global>(m.global_section)
    &&& vec_encodable::<Export>(m.export_section)
    &&& vec_encodable::<Element>(m.element_section)
    &&& vec_encodable::<FuncBody>(m.code_section)
    &&& encode_vec::<Type>(m.type_section).len() <= u32::MAX
    &&& encode_vec::<Import>(m.import_section).len() <= u32::MAX
    &&& encode_vec::<u32>(m.function_section).len() <= u32::MAX
    &&& encode_vec::<TableType>(m.table_section).len() <= u32::MAX
    &&& encode_vec::<MemoryType>(m.memory_section).len() <= u32::MAX
    &&& encode_vec::<Global>(m.global_section).len() <= u32::MAX
    &&& encode_vec::<Export>(m.export_section).len() <= u32::MAX
    &&& encode_vec::<Element>(m.element_section).len() <= u32::MAX
    &&& encode_vec::<FuncBody>(m.code_section).len() <= u32::MAX
}

/// A section that holds a vector is read back into the module: the
/// section with the number `id` whose body is the vector `items` of `T`,
/// standing behind `pre` and before `post`, is read as `items`, and the
/// decoder is left behind it.
pub proof fn lemma_vec_section_round_trip<T: Item>(
    id: u8,
    items: Seq<T::V>,
    pre: Seq<u8>,
    post: Seq<u8>,
)
    requires
        id <= 12,
        vec_encodable::<T>(items),
        encode_vec::<T>(items).len() <= u32::MAX,
    ensures
        parse_section_head(
            pre + encode_section(id, encode_vec::<T>(items)) + post,
            pre.len() as int,
        ) == Ok::<((SectionId, u32), int), Failure>(
            (
                (section_id_of(id), encode_vec::<T>(items).len() as u32),
                pre.len() as int + 1 + encode_size(encode_vec::<T>(items).len() as u32).len(),
            ),
        ),
        parse_vec::<T>(
            pre + encode_section(id, encode_vec::<T>(items)) + post,
            pre.len() as int + 1 + encode_size(encode_vec::<T>(items).len() as u32).len(),
        ) == Ok::<(Seq<T::V>, int), Failure>(
            (items, pre.len() as int + encode_section(id, encode_vec::<T>(items)).len()),
        ),
{
    let body = encode_vec::<T>(items);
    lemma_section_head_round_trip(id, body, pre, post);
    lemma_vec_round_trip::<T>(items, pre + seq![id] + encode_size(body.len() as u32), post);
}

/// The number below which an unsigned integer takes at most `n` bytes:
/// 128 to the power of `n`.
pub open spec fn seven_bits(n: nat) -> nat
    decreases n,
{
    if n == 0 {
        1
    } else {
        128 * seven_bits((n - 1) as nat)
    }
}

/// An unsigned integer below 128 to the power of `n` takes at most `n`
/// bytes, and any takes one at least.
pub proof fn lemma_unsigned_is_short(v: u64, n: nat)
    requires
        n >= 1,
        v < seven_bits(n),
    ensures
        1 <= crate::decoder::encoding::encode_unsigned(v).len() <= n,
    decreases v,
{
    if v >= 128 {
        assert(n > 1) by {
            reveal_with_fuel(seven_bits, 2);
        }
        lemma_unsigned_is_short(v / 128, (n - 1) as nat);
    }
}

/// A size takes at most five bytes.
pub proof fn lemma_size_is_short(v: u32)
    ensures
        1 <= encode_size(v).len() <= 5,
{
    assert(seven_bits(5) == 34359738368) by {
        reveal_with_fuel(seven_bits, 6);
    }
    lemma_unsigned_is_short(v as u64, 5);
}

/// Where a section is read, the sections from there on are read as the
/// sections behind it.
proof fn lemma_sections_step(b: Seq<u8>, pos: int, next: int, m: ModuleView, after: ModuleView)
    requires
        parse_section(b, pos, m) == Ok::<(ModuleView, int), Failure>((after, next)),
        pos < next <= b.len(),
    ensures
        parse_sections(b, pos, m) == parse_sections(b, next, after),
{
}

/// At the end of the input the module is as the sections have left it.
proof fn lemma_sections_end(b: Seq<u8>, m: ModuleView)
    ensures
        parse_sections(b, b.len() as int, m) == Ok::<ModuleView, Error>(m),
{
}


/// One section is read into the module, and the sections behind it are
/// read next: the section with the number `id`, standing behind `pre` and
/// before `post`, turns a module that holds the sections before it into one
/// that holds it too.
#[verifier::rlimit(100)]
proof fn lemma_section(m: ModuleView, id: nat, pre: Seq<u8>, post: Seq<u8>)
    requires
        1 <= id <= 10,
        module_encodable(m),
    ensures
        parse_sections(
            pre + section_bytes(m, id) + post,
            pre.len() as int,
            sections_upto(m, (id - 1) as nat),
        ) == parse_sections(
            pre + section_bytes(m, id) + post,
            pre.len() as int + section_bytes(m, id).len(),
            sections_upto(m, id),
        ),
{
    let section = section_bytes(m, id);
    let b = pre + section + post;
    let before = sections_upto(m, (id - 1) as nat);
    let after = sections_upto(m, id);
    let here = pre.len() as int;
    let next = pre.len() as int + section.len();
    if id == 1 {
        lemma_vec_section_round_trip::<Type>(1, m.type_section, pre, post);
        assert(parse_section(b, here, before) == Ok::<(ModuleView, int), Failure>((after, next)));
        lemma_sections_step(b, here, next, before, after);
    } else if id == 2 {
        lemma_vec_section_round_trip::<Import>(2, m.import_section, pre, post);
        assert(parse_section(b, here, before) == Ok::<(ModuleView, int), Failure>((after, next)));
        lemma_sections_step(b, here, next, before, after);
    } else if id == 3 {
        lemma_vec_section_round_trip::<u32>(3, m.function_section, pre, post);
        assert(parse_section(b, here, before) == Ok::<(ModuleView, int), Failure>((after, next)));
        lemma_sections_step(b, here, next, before, after);
    } else if id == 4 {
        lemma_vec_section_round_trip::<TableType>(4, m.table_section, pre, post);
        assert(parse_section(b, here, before) == Ok::<(ModuleView, int), Failure>((after, next)));
        lemma_sections_step(b, here, next, before, after);
    } else if id == 5 {
        lemma_vec_section_round_trip::<MemoryType>(5, m.memory_section, pre, post);
        assert(parse_section(b, here, before) == Ok::<(ModuleView, int), Failure>((after, next)));
        lemma_sections_step(b, here, next, before, after);
    } else if id == 6 {
        lemma_vec_section_round_trip::<Global>(6, m.global_section, pre, post);
        assert(parse_section(b, here, before) == Ok::<(ModuleView, int), Failure>((after, next)));
        lemma_sections_step(b, here, next, before, after);
    } else if id == 7 {
        lemma_vec_section_round_trip::<Export>(7, m.export_section, pre, post);
        assert(parse_section(b, here, before) == Ok::<(ModuleView, int), Failure>((after, next)));
        lemma_sections_step(b, here, next, before, after);
    } else if id == 8 {
        match m.start_section.func_index {
            Some(index) => {
                let body = encode_size(index);
                lemma_size_is_short(index);
                lemma_section_head_round_trip(8, body, pre, post);
                lemma_size_round_trip(index, pre + seq![8u8] + encode_size(body.len() as u32), post);
                assert(parse_section(b, here, before) == Ok::<(ModuleView, int), Failure>(
                    (after, next),
                ));
                lemma_sections_step(b, here, next, before, after);
            },
            None => {
                assert(after == before);
            },
        }
    } else if id == 9 {
        lemma_vec_section_round_trip::<Element>(9, m.element_section, pre, post);
        assert(parse_section(b, here, before) == Ok::<(ModuleView, int), Failure>((after, next)));
        lemma_sections_step(b, here, next, before, after);
    } else {
        lemma_vec_section_round_trip::<FuncBody>(10, m.code_section, pre, post);
        assert(parse_section(b, here, before) == Ok::<(ModuleView, int), Failure>((after, next)));
        lemma_sections_step(b, here, next, before, after);
    }
}

/// The module with its sections up to the number `upto` as in `m`, and
/// without the others.
pub open spec fn sections_upto(m: ModuleView, upto: nat) -> ModuleView {
    let none = empty_module();
    ModuleView {
        type_section: if upto >= 1 {
            m.type_section
        } else {
            none.type_section
        },
        import_section: if upto >= 2 {
            m.import_section
        } else {
            none.import_section
        },
        function_section: if upto >= 3 {
            m.function_section
        } else {
            none.function_section
        },
        table_section: if upto >= 4 {
            m.table_section
        } else {
            none.table_section
        },
        memory_section: if upto >= 5 {
            m.memory_section
        } else {
            none.memory_section
        },
        global_section: if upto >= 6 {
            m.global_section
        } else {
            none.global_section
        },
        export_section: if upto >= 7 {
            m.export_section
        } else {
            none.export_section
        },
        start_section: if upto >= 8 {
            m.start_section
        } else {
            none.start_section
        },
        element_section: if upto >= 9 {
            m.element_section
        } else {
            none.element_section
        },
        code_section: if upto >= 10 {
            m.code_section
        } else {
            none.code_section
        },
    }
}


/// The sections from the number `from` on are read back into a module
/// that holds the sections before them.
proof fn lemma_sections_from(m: ModuleView, from: nat, pre: Seq<u8>)
    requires
        1 <= from <= 11,
        module_encodable(m),
    ensures
        parse_sections(
            pre + encode_sections(m, from),
            pre.len() as int,
            sections_upto(m, (from - 1) as nat),
        ) == Ok::<ModuleView, Error>(m),
    decreases 11 - from,
{
    let b = pre + encode_sections(m, from);
    if from > 10 {
        assert(b =~= pre);
        lemma_sections_end(pre, sections_upto(m, 10));
        assert(sections_upto(m, 10) == m);
    } else {
        let section = section_bytes(m, from);
        let tail = encode_sections(m, from + 1);
        assert(b =~= pre + section + tail);
        lemma_section(m, from, pre, tail);
        lemma_sections_from(m, from + 1, pre + section);
    }
}

/// Round trip: a module that can be written is read back from its
/// bytes as it is.
pub proof fn lemma_round_trip(m: ModuleView)
    requires
        module_encodable(m),
    ensures
        parse_module(encode_module(m), 0) == Ok::<ModuleView, Error>(m),
{
    let b = encode_module(m);
    let version = le_u32(1);
    let head = magic() + version;
    assert(version.len() == 4 && u32_le(version) == 1) by {
        lemma_u32_le(1);
    }
    assert(b.subrange(0, 4) =~= magic());
    assert(b.subrange(4, 8) =~= version);
    assert(sections_upto(m, 0) == empty_module());
    lemma_sections_from(m, 1, head);
}

} // verus!
