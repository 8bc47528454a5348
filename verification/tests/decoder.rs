use wasmarch::binary::{
    Block, BlockType, Element, ElementMode, Export, ExportDesc, FuncBody, Global, GlobalInitExpr,
    Import, ImportDesc, Instruction, MemArg, StartSection, Type,
};
use wasmarch::decoder::{Decoder, Error, SectionId};
use wasmarch::types::{FuncType, GlobalType, Limits, MemoryType, RefType, TableType, ValueType};

const HEADER: [u8; 8] = [0x00, 0x61, 0x73, 0x6d, 0x01, 0x00, 0x00, 0x00];

fn unsigned(value: u64) -> Vec<u8> {
    let mut out = Vec::new();
    leb128::write::unsigned(&mut out, value).unwrap();
    out
}

fn signed(value: i64) -> Vec<u8> {
    let mut out = Vec::new();
    leb128::write::signed(&mut out, value).unwrap();
    out
}

fn section(id: u8, body: &[u8]) -> Vec<u8> {
    let mut out = vec![id];
    out.extend(unsigned(body.len() as u64));
    out.extend_from_slice(body);
    out
}

fn module(sections: &[Vec<u8>]) -> Vec<u8> {
    let mut out = HEADER.to_vec();
    for s in sections {
        out.extend_from_slice(s);
    }
    out
}

fn decode(bytes: &[u8]) -> Result<wasmarch::binary::Module, Error> {
    Decoder::new(bytes).decode()
}

#[test]
fn test_should_returns_error_when_magic_header_is_invalid() {
    let mut wasm = module(&[]);
    wasm[0] = 0x01;

    let mut decoder = Decoder::new(&wasm[..]);
    let result = decoder.decode();

    assert_eq!(result.err(), Some(Error::InvalidMagicHeader));
}

#[test]
fn test_should_returns_error_when_version_is_not_supported() {
    let mut wasm = module(&[]);
    wasm[4] = 0x02;

    let mut decoder = Decoder::new(&wasm[..]);
    let result = decoder.decode();

    assert_eq!(result.err(), Some(Error::InvalidVersion));
}

#[test]
fn test_should_decode_type_section() {
    // (module (type $returns_i32 (func (param i64) (result i32))))
    let wasm = module(&[section(1, &[0x01, 0x60, 0x01, 0x7e, 0x01, 0x7f])]);

    let mut decoder = Decoder::new(&wasm[..]);
    let result = decoder.decode().unwrap();

    assert_eq!(
        result.type_section,
        vec![Type::Func(FuncType { params: vec![ValueType::I64], results: vec![ValueType::I32] })]
    );
}

#[test]
fn test_should_decode_import_section() {
    // (import "env" "add" (func (param i32 i32) (result i32)))
    // (import "env" "addf" (func (param f32 f32) (result f32)))
    let types = [0x02, 0x60, 0x02, 0x7f, 0x7f, 0x01, 0x7f, 0x60, 0x02, 0x7d, 0x7d, 0x01, 0x7d];
    let mut imports = vec![0x02];
    imports.extend_from_slice(&[0x03, b'e', b'n', b'v', 0x03, b'a', b'd', b'd', 0x00, 0x00]);
    imports.extend_from_slice(&[0x03, b'e', b'n', b'v', 0x04, b'a', b'd', b'd', b'f', 0x00, 0x01]);
    let wasm = module(&[section(1, &types), section(2, &imports)]);

    let mut decoder = Decoder::new(&wasm[..]);
    let result = decoder.decode().unwrap();

    assert_eq!(
        result.import_section,
        vec![
            Import { module: "env".to_string(), field: "add".to_string(), desc: ImportDesc::Func(0) },
            Import { module: "env".to_string(), field: "addf".to_string(), desc: ImportDesc::Func(1) },
        ]
    );
}

#[test]
fn test_should_decode_function_section() {
    // (func $add (param i32 i32) (result i32) local.get 0 local.get 1 i32.add)
    let wasm = module(&[
        section(1, &[0x01, 0x60, 0x02, 0x7f, 0x7f, 0x01, 0x7f]),
        section(3, &[0x01, 0x00]),
        section(10, &[0x01, 0x07, 0x00, 0x20, 0x00, 0x20, 0x01, 0x6a, 0x0b]),
    ]);

    let mut decoder = Decoder::new(&wasm[..]);
    let result = decoder.decode().unwrap();

    assert_eq!(result.function_section, vec![0]);
    assert_eq!(
        result.code_section,
        vec![FuncBody {
            locals: vec![],
            code: vec![
                Instruction::LocalGet { local_index: 0 },
                Instruction::LocalGet { local_index: 1 },
                Instruction::I32Add,
                Instruction::End,
            ],
        }]
    )
}

#[test]
fn empty_module_has_no_sections() {
    let m = decode(&module(&[])).unwrap();
    assert_eq!(m, wasmarch::binary::Module::default());
}

#[test]
fn short_input_has_no_magic_header() {
    assert_eq!(decode(&[]).err(), Some(Error::InvalidMagicHeader));
    assert_eq!(decode(&[0x00, 0x61, 0x73]).err(), Some(Error::InvalidMagicHeader));
}

#[test]
fn header_is_checked_whatever_follows() {
    let mut wasm = module(&[section(1, &[0x01, 0x60, 0x00, 0x00])]);
    wasm[3] = 0x00;
    assert_eq!(decode(&wasm).err(), Some(Error::InvalidMagicHeader));
    let mut wasm = module(&[section(1, &[0x01, 0x60, 0x00, 0x00])]);
    wasm[7] = 0x01;
    assert_eq!(decode(&wasm).err(), Some(Error::InvalidVersion));
    assert_eq!(decode(&[0x00, 0x61, 0x73, 0x6d, 0x01, 0x00]).err(), Some(Error::InvalidVersion));
}

#[test]
fn unknown_section_is_refused() {
    let wasm = module(&[vec![13, 0x00]]);
    assert_eq!(decode(&wasm).err(), Some(Error::InvalidSectionId(SectionId::Unknown(13))));
}

#[test]
fn data_sections_are_not_read() {
    let wasm = module(&[section(11, &[0x00])]);
    assert_eq!(decode(&wasm).err(), Some(Error::UnsupportedSection(SectionId::Data)));
    let wasm = module(&[section(12, &[0x00])]);
    assert_eq!(decode(&wasm).err(), Some(Error::UnsupportedSection(SectionId::DataCount)));
}

#[test]
fn custom_section_is_passed_over() {
    let wasm = module(&[section(0, &[0x01, b'x', 0xff, 0xff]), section(3, &[0x02, 0x05, 0x06])]);
    let m = decode(&wasm).unwrap();
    assert_eq!(m.function_section, vec![5, 6]);
}

#[test]
fn truncated_module_keeps_the_sections_before() {
    let full = module(&[section(3, &[0x01, 0x07]), section(1, &[0x01, 0x60, 0x01, 0x7f, 0x00])]);
    // cut inside the head of the second section
    let m = decode(&full[..full.len() - 6]).unwrap();
    assert_eq!(m.function_section, vec![7]);
    assert!(m.type_section.is_empty());
    // cut inside the body of the second section
    let m = decode(&full[..full.len() - 2]).unwrap();
    assert_eq!(m.function_section, vec![7]);
    assert!(m.type_section.is_empty());
    // uncut
    let m = decode(&full).unwrap();
    assert_eq!(m.type_section.len(), 1);
}

#[test]
fn type_section_errors() {
    assert_eq!(decode(&module(&[section(1, &[0x01, 0x61, 0x00, 0x00])])).err(), Some(Error::InvalidTypeKind));
    assert_eq!(
        decode(&module(&[section(1, &[0x01, 0x60, 0x01, 0x7b, 0x00])])).err(),
        Some(Error::InvalidValueType(0x7b))
    );
}

#[test]
fn import_and_export_errors() {
    let import = [0x01, 0x01, b'a', 0x01, b'b', 0x01, 0x00];
    assert_eq!(decode(&module(&[section(2, &import)])).err(), Some(Error::InvalidImportDesc));
    let export = [0x01, 0x01, b'a', 0x04, 0x00];
    assert_eq!(decode(&module(&[section(7, &export)])).err(), Some(Error::InvalidExportDesc));
    let bad_name = [0x01, 0x02, 0xc3, 0x28, 0x00, 0x00];
    assert_eq!(decode(&module(&[section(7, &bad_name)])).err(), Some(Error::InvalidName));
}

#[test]
fn export_section_holds_all_kinds() {
    let body = [
        0x04, 0x01, b'f', 0x00, 0x01, 0x01, b't', 0x01, 0x02, 0x01, b'm', 0x02, 0x03, 0x01, b'g', 0x03,
        0x04,
    ];
    let m = decode(&module(&[section(7, &body)])).unwrap();
    assert_eq!(
        m.export_section,
        vec![
            Export { name: "f".to_string(), desc: ExportDesc::Func(1) },
            Export { name: "t".to_string(), desc: ExportDesc::Table(2) },
            Export { name: "m".to_string(), desc: ExportDesc::Mem(3) },
            Export { name: "g".to_string(), desc: ExportDesc::Global(4) },
        ]
    );
}

#[test]
fn table_and_memory_sections() {
    let m = decode(&module(&[
        section(4, &[0x02, 0x70, 0x00, 0x02, 0x6f, 0x01, 0x01, 0x08]),
        section(5, &[0x01, 0x01, 0x01, 0x02]),
    ]))
    .unwrap();
    assert_eq!(
        m.table_section,
        vec![
            TableType { element_type: RefType::FuncRef, limits: Limits { min: 2, max: None } },
            TableType { element_type: RefType::ExternRef, limits: Limits { min: 1, max: Some(8) } },
        ]
    );
    assert_eq!(m.memory_section, vec![MemoryType { limits: Limits { min: 1, max: Some(2) } }]);
    assert_eq!(decode(&module(&[section(5, &[0x01, 0x02, 0x01])])).err(), Some(Error::InvalidLimitsKind));
    assert_eq!(decode(&module(&[section(4, &[0x01, 0x71, 0x00, 0x01])])).err(), Some(Error::InvalidRefType));
}

#[test]
fn global_section() {
    let mut body = vec![0x04];
    body.extend_from_slice(&[0x7f, 0x01, 0x41]);
    body.extend(signed(-5));
    body.push(0x0b);
    body.extend_from_slice(&[0x7e, 0x00, 0x42]);
    body.extend(signed(i64::MAX));
    body.push(0x0b);
    body.extend_from_slice(&[0x7d, 0x00, 0x43]);
    body.extend_from_slice(&3.14f32.to_le_bytes());
    body.push(0x0b);
    body.extend_from_slice(&[0x7c, 0x02, 0x44]);
    body.extend_from_slice(&(-3.14f64).to_le_bytes());
    body.push(0x0b);
    let m = decode(&module(&[section(6, &body)])).unwrap();
    assert_eq!(
        m.global_section,
        vec![
            Global {
                global_type: GlobalType { value_type: ValueType::I32, mutable: true },
                init_expr: GlobalInitExpr::I32Const { value: -5 },
            },
            Global {
                global_type: GlobalType { value_type: ValueType::I64, mutable: false },
                init_expr: GlobalInitExpr::I64Const { value: i64::MAX },
            },
            Global {
                global_type: GlobalType { value_type: ValueType::F32, mutable: false },
                init_expr: GlobalInitExpr::F32Const { value: 3.14f32.to_bits() },
            },
            Global {
                global_type: GlobalType { value_type: ValueType::F64, mutable: false },
                init_expr: GlobalInitExpr::F64Const { value: (-3.14f64).to_bits() },
            },
        ]
    );
}

#[test]
fn global_initializer_errors() {
    assert_eq!(
        decode(&module(&[section(6, &[0x01, 0x7f, 0x00, 0x20, 0x00, 0x0b])])).err(),
        Some(Error::InvalidGlobalInitExpr)
    );
    assert_eq!(
        decode(&module(&[section(6, &[0x01, 0x7f, 0x00, 0x41, 0x00, 0x0c])])).err(),
        Some(Error::InvalidGlobalInitExpr)
    );
}

#[test]
fn start_and_element_sections() {
    let m = decode(&module(&[
        section(8, &[0x03]),
        section(9, &[0x01, 0x00, 0x41, 0x02, 0x0b, 0x02, 0x05, 0x06]),
    ]))
    .unwrap();
    assert_eq!(m.start_section, StartSection { func_index: Some(3) });
    assert_eq!(
        m.element_section,
        vec![Element {
            mode: ElementMode::Active { table_index: 0, offset: 2 },
            ref_type: RefType::FuncRef,
            init: vec![5, 6],
        }]
    );
    assert_eq!(
        decode(&module(&[section(9, &[0x01, 0x01, 0x00])])).err(),
        Some(Error::UnsupportedElementPrefix)
    );
    assert_eq!(
        decode(&module(&[section(9, &[0x01, 0x00, 0x23, 0x00, 0x0b, 0x00])])).err(),
        Some(Error::ExpectedConstExpression)
    );
    assert_eq!(
        decode(&module(&[section(9, &[0x01, 0x00, 0x42, 0x00, 0x0b, 0x00])])).err(),
        Some(Error::ExpectedConstExpression)
    );
}

fn code_of(instructions: &[u8]) -> Result<Vec<Instruction>, Error> {
    let mut body = vec![0x00];
    body.extend_from_slice(instructions);
    let mut code = vec![0x01];
    code.extend(unsigned(body.len() as u64));
    code.extend(body);
    decode(&module(&[section(10, &code)])).map(|mut m| m.code_section.remove(0).code)
}

#[test]
fn locals_are_written_out_group_by_group() {
    let body = [0x02, 0x02, 0x7f, 0x01, 0x7c, 0x0b];
    let mut code = vec![0x01, body.len() as u8];
    code.extend_from_slice(&body);
    let m = decode(&module(&[section(10, &code)])).unwrap();
    assert_eq!(m.code_section[0].locals, vec![ValueType::I32, ValueType::I32, ValueType::F64]);
    assert_eq!(m.code_section[0].code, vec![Instruction::End]);
}

#[test]
fn control_instructions() {
    let code = code_of(&[
        0x00, 0x01, 0x02, 0x40, 0x03, 0x7f, 0x04, 0x7c, 0x05, 0x0b, 0x0c, 0x01, 0x0d, 0x02, 0x0e, 0x02,
        0x00, 0x01, 0x03, 0x0f, 0x10, 0x07, 0x11, 0x01, 0x00,
    ])
    .unwrap();
    assert_eq!(
        code,
        vec![
            Instruction::Unreachable,
            Instruction::Nop,
            Instruction::Block { block: Block { block_type: BlockType::Empty } },
            Instruction::Loop { block: Block { block_type: BlockType::Value(ValueType::I32) } },
            Instruction::If { block: Block { block_type: BlockType::Value(ValueType::F64) } },
            Instruction::Else,
            Instruction::End,
            Instruction::Br { level: 1 },
            Instruction::BrIf { level: 2 },
            Instruction::BrTable { label_indexes: vec![0, 1], default_index: 3 },
            Instruction::Return,
            Instruction::Call { func_index: 7 },
            Instruction::CallIndirect { type_index: 1, table_index: 0 },
        ]
    );
    assert_eq!(code_of(&[0x02, 0x41]).err(), Some(Error::InvalidBlockType));
}

#[test]
fn variable_memory_and_constant_instructions() {
    let mut bytes = vec![0x20, 0x80, 0x01, 0x21, 0x01, 0x22, 0x02, 0x23, 0x03, 0x24, 0x04];
    bytes.extend_from_slice(&[0x28, 0x02, 0x10, 0x36, 0x02, 0x00, 0x2d, 0x00, 0x01, 0x3f, 0x00, 0x40, 0x00]);
    bytes.push(0x41);
    bytes.extend(signed(i32::MIN as i64));
    bytes.push(0x42);
    bytes.extend(signed(i64::MIN));
    bytes.push(0x43);
    bytes.extend_from_slice(&1.5f32.to_le_bytes());
    bytes.push(0x44);
    bytes.extend_from_slice(&(-2.25f64).to_le_bytes());
    bytes.extend_from_slice(&[0x1a, 0x1b, 0x1c, 0x01, 0x7e, 0xd0, 0x70, 0xd1, 0xd2, 0x09]);
    assert_eq!(
        code_of(&bytes).unwrap(),
        vec![
            Instruction::LocalGet { local_index: 128 },
            Instruction::LocalSet { local_index: 1 },
            Instruction::LocalTee { local_index: 2 },
            Instruction::GlobalGet { global_index: 3 },
            Instruction::GlobalSet { global_index: 4 },
            Instruction::I32Load { mem_arg: MemArg { align: 2, offset: 16 } },
            Instruction::I32Store { mem_arg: MemArg { align: 2, offset: 0 } },
            Instruction::I32Load8U { mem_arg: MemArg { align: 0, offset: 1 } },
            Instruction::MemorySize,
            Instruction::MemoryGrow,
            Instruction::I32Const { value: i32::MIN },
            Instruction::I64Const { value: i64::MIN },
            Instruction::F32Const { value: 1.5f32.to_bits() },
            Instruction::F64Const { value: (-2.25f64).to_bits() },
            Instruction::Drop,
            Instruction::Select { result_types: None },
            Instruction::Select { result_types: Some(vec![ValueType::I64]) },
            Instruction::RefNull { ref_type: RefType::FuncRef },
            Instruction::RefIsNull,
            Instruction::RefFunc { func_index: 9 },
        ]
    );
}

#[test]
fn prefixed_instructions() {
    let code = code_of(&[
        0xfc, 0x08, 0x01, 0x00, 0xfc, 0x09, 0x02, 0xfc, 0x0a, 0x00, 0x00, 0xfc, 0x0b, 0x00, 0xfc, 0x0c, 0x01,
        0x02, 0xfc, 0x0d, 0x03, 0xfc, 0x0e, 0x04, 0x05, 0xfc, 0x0f, 0x06, 0xfc, 0x10, 0x07, 0xfc, 0x11, 0x08,
        0x25, 0x01, 0x26, 0x02,
    ])
    .unwrap();
    assert_eq!(
        code,
        vec![
            Instruction::MemoryInit { data_index: 1 },
            Instruction::DataDrop { data_index: 2 },
            Instruction::MemoryCopy,
            Instruction::MemoryFill,
            Instruction::TableInit { element_index: 1, table_index: 2 },
            Instruction::ElemDrop { element_index: 3 },
            Instruction::TableCopy { dst_table_index: 4, src_table_index: 5 },
            Instruction::TableGrow { table_index: 6 },
            Instruction::TableSize { table_index: 7 },
            Instruction::TableFill { table_index: 8 },
            Instruction::TableGet { table_index: 1 },
            Instruction::TableSet { table_index: 2 },
        ]
    );
    assert_eq!(code_of(&[0xfc, 0x07]).err(), Some(Error::InvalidSubInstrId));
}

#[test]
fn numeric_opcodes_in_order() {
    let bytes: Vec<u8> = (0x45..=0xc4).collect();
    let code = code_of(&bytes).unwrap();
    assert_eq!(code.len(), 128);
    assert_eq!(code[0], Instruction::I32Eqz);
    assert_eq!(code[0x6a - 0x45], Instruction::I32Add);
    assert_eq!(code[0x7c - 0x45], Instruction::I64Add);
    assert_eq!(code[0x98 - 0x45], Instruction::F32Copysign);
    assert_eq!(code[0xa7 - 0x45], Instruction::I32WrapI64);
    assert_eq!(code[0xbf - 0x45], Instruction::F64ReinterpretI64);
    assert_eq!(code[127], Instruction::I64Extend32S);
}

#[test]
fn unknown_opcode_is_an_error() {
    assert_eq!(code_of(&[0x06]).err(), Some(Error::UnsupportedOpcode(0x06)));
    assert_eq!(code_of(&[0xc5]).err(), Some(Error::UnsupportedOpcode(0xc5)));
    assert_eq!(code_of(&[0xff]).err(), Some(Error::UnsupportedOpcode(0xff)));
}

#[test]
fn variable_length_integers() {
    for value in [0u64, 1, 127, 128, 300, 16384, u32::MAX as u64] {
        let mut d = Decoder::new(&unsigned(value));
        assert_eq!(d.read_size(), Ok(value as u32));
        assert_eq!(d.remaining(), 0);
    }
    // more than 32 bits: the low 32 are kept
    let mut d = Decoder::new(&unsigned(0x1_0000_0005));
    assert_eq!(d.read_size(), Ok(5));
    let mut d = Decoder::new(&unsigned(u64::MAX));
    assert_eq!(d.read_u64(), Ok(u64::MAX));
    for value in [0i64, 1, -1, 63, 64, -64, -65, i32::MAX as i64, i32::MIN as i64, i64::MAX, i64::MIN] {
        let mut d = Decoder::new(&signed(value));
        assert_eq!(d.read_i64(), Ok(value));
        assert_eq!(d.remaining(), 0);
        let mut d = Decoder::new(&signed(value));
        assert_eq!(d.read_i32(), Ok(value as i32));
    }
    // unfinished and overlong numbers
    assert_eq!(Decoder::new(&[0x80]).read_size(), Err(Error::UnexpectedEof));
    assert_eq!(Decoder::new(&[]).read_i32(), Err(Error::UnexpectedEof));
    let overlong = [0xff, 0xff, 0xff, 0xff, 0xff, 0xff, 0xff, 0xff, 0xff, 0x02];
    assert_eq!(Decoder::new(&overlong).read_u64(), Err(Error::UnexpectedEof));
    assert_eq!(Decoder::new(&overlong).read_i64(), Err(Error::UnexpectedEof));
}

#[test]
fn a_failed_read_leaves_the_decoder_behind_what_it_took() {
    // a wrong tag: the tag is taken, the rest is not
    let mut d = Decoder::new(&[0x71, 0x01, 0x02]);
    assert_eq!(d.read_reference_type(), Err(Error::InvalidRefType));
    assert_eq!(d.remaining(), 2);
    assert_eq!(d.read_u8(), Ok(1));
    let mut d = Decoder::new(&[0x02, 0x05, 0x06, 0x07]);
    assert_eq!(d.read_limits(), Err(Error::InvalidLimitsKind));
    assert_eq!(d.read_u8(), Ok(5));
    // the end of the input: all of it is taken
    let mut d = Decoder::new(&[0x01, 0x02]);
    assert_eq!(d.read_bytes(3), Err(Error::UnexpectedEof));
    assert_eq!(d.remaining(), 0);
    let mut d = Decoder::new(&[0x80, 0x80]);
    assert_eq!(d.read_size(), Err(Error::UnexpectedEof));
    assert_eq!(d.remaining(), 0);
    // a number that is too large: its bytes are passed over
    let mut d = Decoder::new(&[0xff, 0xff, 0xff, 0xff, 0xff, 0xff, 0xff, 0xff, 0xff, 0x82, 0x83, 0x04, 0x2a]);
    assert_eq!(d.read_u64(), Err(Error::UnexpectedEof));
    assert_eq!(d.read_u8(), Ok(0x2a));
    let mut d = Decoder::new(&[0xff, 0xff, 0xff, 0xff, 0xff, 0xff, 0xff, 0xff, 0xff, 0x02, 0x2b]);
    assert_eq!(d.read_i64(), Err(Error::UnexpectedEof));
    assert_eq!(d.read_u8(), Ok(0x2b));
}

#[test]
fn the_magic_header_takes_four_bytes_either_way() {
    let mut d = Decoder::new(&[0x00, 0x61, 0x73, 0x6d, 0x09, 0x0a]);
    assert_eq!(d.validate_magic_header(), Ok(()));
    assert_eq!(d.read_u8(), Ok(0x09));
    let mut d = Decoder::new(&[0x01, 0x61, 0x73, 0x6d, 0x09, 0x0a]);
    assert_eq!(d.validate_magic_header(), Err(Error::InvalidMagicHeader));
    assert_eq!(d.remaining(), 2);
    assert_eq!(d.read_u8(), Ok(0x09));
    let mut d = Decoder::new(&[0x00, 0x61]);
    assert_eq!(d.validate_magic_header(), Err(Error::InvalidMagicHeader));
    assert_eq!(d.remaining(), 0);
    // after a wrong version the decoder stands behind it
    let mut d = Decoder::new(&[0x00, 0x61, 0x73, 0x6d, 0x02, 0x00, 0x00, 0x00, 0x07]);
    assert_eq!(d.decode().err(), Some(Error::InvalidVersion));
    assert_eq!(d.read_u8(), Ok(0x07));
    // after a section of an unknown kind the decoder stands behind its number
    let mut d = Decoder::new(&[0x00, 0x61, 0x73, 0x6d, 0x01, 0x00, 0x00, 0x00, 0x0d, 0x07]);
    assert_eq!(d.decode().err(), Some(Error::InvalidSectionId(SectionId::Unknown(13))));
    assert_eq!(d.read_u8(), Ok(0x07));
}

#[test]
fn fixed_width_numbers_are_read_lowest_byte_first() {
    let mut d = Decoder::new(&[0x04, 0x03, 0x02, 0x01, 0x08, 0x07, 0x06, 0x05, 0x04, 0x03, 0x02, 0x01]);
    assert_eq!(d.read_f32(), Ok(0x01020304));
    assert_eq!(d.read_f64(), Ok(0x0102030405060708));
    assert_eq!(wasmarch::le::write_u32_le(0x01020304), vec![0x04, 0x03, 0x02, 0x01]);
    assert_eq!(wasmarch::le::write_u16_le(0x0102), vec![0x02, 0x01]);
    assert_eq!(wasmarch::le::write_u64_le(1), vec![1, 0, 0, 0, 0, 0, 0, 0]);
    assert_eq!(wasmarch::le::read_u16_le(&[0x02, 0x01]), 0x0102);
    assert_eq!(wasmarch::le::read_u32_le(&[0xff, 0, 0, 0x80]), 0x800000ff);
    assert_eq!(wasmarch::le::read_u64_le(&[0, 0, 0, 0, 0, 0, 0, 0x80]), 1 << 63);
}

#[test]
fn primitive_reads() {
    let mut d = Decoder::new(&[0x07, 0x01, 0x02, 0x03, 0x78, 0x56, 0x34, 0x12, 0x02, b'h', b'i']);
    assert_eq!(d.read_u8(), Ok(7));
    assert_eq!(d.read_bytes(3), Ok(vec![1, 2, 3]));
    assert_eq!(d.get_version(), 0x12345678);
    assert_eq!(d.read_name(), Ok("hi".to_string()));
    assert_eq!(d.read_bytes(1), Err(Error::UnexpectedEof));
    let mut d = Decoder::new(&[0x00, 0x61, 0x73, 0x6d, 0x09]);
    assert_eq!(d.validate_magic_header(), Ok(()));
    assert_eq!(d.decode_section(), Err(Error::UnexpectedEof));
    let mut d = Decoder::new(&[0x0a, 0x85, 0x01]);
    assert_eq!(d.decode_section(), Ok((SectionId::Code, 133)));
    let mut d = Decoder::new(&[0x02, 0x08, 0x09, 0x01, 0x03]);
    assert_eq!(d.read_vec::<u32>(), Ok(vec![8, 9]));
    assert_eq!(d.read_mem_arg(), Ok(MemArg { align: 1, offset: 3 }));
    let mut d = Decoder::new(&[0x41, 0x7f, 0x0b, 0x7f, 0x01, 0x05, 0x0a]);
    assert_eq!(d.read_const_expr(), Ok(Instruction::I32Const { value: -1 }));
    assert_eq!(d.read_block_type(), Ok(BlockType::Value(ValueType::I32)));
    assert_eq!(d.read_limits(), Ok(Limits { min: 5, max: Some(10) }));
    assert_eq!(ValueType::from(0x7e), ValueType::I64);
    assert_eq!(SectionId::from(10), SectionId::Code);
    assert!(SectionId::from(200).is_unknown());
}

#[test]
fn a_whole_module_is_read_back() {
    let mut sections = vec![
        section(1, &[0x01, 0x60, 0x01, 0x7f, 0x01, 0x7e]),
        section(2, &[0x01, 0x01, b'm', 0x01, b'f', 0x00, 0x00]),
        section(3, &[0x01, 0x00]),
        section(4, &[0x01, 0x70, 0x00, 0x02]),
        section(5, &[0x01, 0x00, 0x01]),
    ];
    let mut global = vec![0x01, 0x7e, 0x01, 0x42];
    global.extend(signed(-1_000_000_000_000));
    global.push(0x0b);
    sections.push(section(6, &global));
    sections.push(section(7, &[0x01, 0x02, b'g', b'o', 0x00, 0x01]));
    sections.push(section(8, &[0x01]));
    sections.push(section(9, &[0x01, 0x00, 0x41, 0x01, 0x0b, 0x01, 0x01]));
    let mut body = vec![0x01, 0x02, 0x7d, 0x20, 0x00];
    body.extend_from_slice(&[0x42]);
    body.extend(unsigned(0));
    body.extend_from_slice(&[0x1a, 0x0b]);
    let mut code = vec![0x01];
    code.extend(unsigned(body.len() as u64));
    code.extend(body);
    sections.push(section(10, &code));

    let m = decode(&module(&sections)).unwrap();

    let ty = FuncType { params: vec![ValueType::I32], results: vec![ValueType::I64] };
    assert_eq!(
        m,
        wasmarch::binary::Module {
            custom_section: (),
            type_section: vec![Type::Func(ty)],
            import_section: vec![Import {
                module: "m".to_string(),
                field: "f".to_string(),
                desc: ImportDesc::Func(0),
            }],
            function_section: vec![0],
            table_section: vec![TableType {
                element_type: RefType::FuncRef,
                limits: Limits { min: 2, max: None },
            }],
            memory_section: vec![MemoryType { limits: Limits { min: 1, max: None } }],
            global_section: vec![Global {
                global_type: GlobalType { value_type: ValueType::I64, mutable: true },
                init_expr: GlobalInitExpr::I64Const { value: -1_000_000_000_000 },
            }],
            export_section: vec![Export { name: "go".to_string(), desc: ExportDesc::Func(1) }],
            start_section: StartSection { func_index: Some(1) },
            element_section: vec![Element {
                mode: ElementMode::Active { table_index: 0, offset: 1 },
                ref_type: RefType::FuncRef,
                init: vec![1],
            }],
            code_section: vec![FuncBody {
                locals: vec![ValueType::F32, ValueType::F32],
                code: vec![
                    Instruction::LocalGet { local_index: 0 },
                    Instruction::I64Const { value: 0 },
                    Instruction::Drop,
                    Instruction::End,
                ],
            }],
        }
    );
}
