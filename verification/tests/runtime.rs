use std::cell::RefCell;
use std::rc::Rc;
use wasmarch::runtime::instances::ExternalFuncInst;
use wasmarch::runtime::operators::{BinOp, UnOp};
use wasmarch::runtime::value::Val;
use wasmarch::runtime::{instantiate, Error, ExternalHook, FloatUnit, Runtime};

const I32: u8 = 0x7f;
const I64: u8 = 0x7e;
const F32: u8 = 0x7d;
const F64: u8 = 0x7c;

fn unsigned(value: u64) -> Vec<u8> {
    let mut out = Vec::new();
    leb128::write::unsigned(&mut out, value).unwrap();
    out
}

fn signed(value: i64) -> Vec<u8> {
    let mut out = Vec::new();
    leb128::write::signed(&mut out, value).unwrap();
    out
}

fn flat(parts: &[Vec<u8>]) -> Vec<u8> {
    parts.iter().flatten().copied().collect()
}

fn vector(items: &[Vec<u8>]) -> Vec<u8> {
    let mut out = unsigned(items.len() as u64);
    out.extend(flat(items));
    out
}

fn name(s: &str) -> Vec<u8> {
    let mut out = unsigned(s.len() as u64);
    out.extend_from_slice(s.as_bytes());
    out
}

fn section(id: u8, body: Vec<u8>) -> Vec<u8> {
    let mut out = vec![id];
    out.extend(unsigned(body.len() as u64));
    out.extend(body);
    out
}

fn func_type(params: &[u8], results: &[u8]) -> Vec<u8> {
    let mut out = vec![0x60];
    out.extend(unsigned(params.len() as u64));
    out.extend_from_slice(params);
    out.extend(unsigned(results.len() as u64));
    out.extend_from_slice(results);
    out
}

fn i32_const(v: i32) -> Vec<u8> {
    flat(&[vec![0x41], signed(v as i64)])
}

fn i64_const(v: i64) -> Vec<u8> {
    flat(&[vec![0x42], signed(v)])
}

fn f32_const(v: f32) -> Vec<u8> {
    flat(&[vec![0x43], v.to_le_bytes().to_vec()])
}

fn f64_const(v: f64) -> Vec<u8> {
    flat(&[vec![0x44], v.to_le_bytes().to_vec()])
}

/// A function: its parameter and result types, the types of its locals,
/// its instructions (without the closing `end`), and the name under which
/// it is exported.
struct Func {
    params: Vec<u8>,
    results: Vec<u8>,
    locals: Vec<u8>,
    code: Vec<u8>,
    export: &'static str,
}

fn func(export: &'static str, params: &[u8], results: &[u8], locals: &[u8], code: &[Vec<u8>]) -> Func {
    Func {
        params: params.to_vec(),
        results: results.to_vec(),
        locals: locals.to_vec(),
        code: flat(code),
        export,
    }
}

/// What a module holds besides its functions.
#[derive(Default)]
struct Extra {
    imports: Vec<(&'static str, &'static str, Vec<u8>, Vec<u8>)>,
    globals: Vec<Vec<u8>>,
    memories: u32,
    table: Option<u32>,
    elements: Vec<(i32, Vec<u32>)>,
    exports: Vec<(&'static str, u8, u32)>,
    start: Option<u32>,
}

fn module(funcs: &[Func], extra: &Extra) -> Vec<u8> {
    let mut out = vec![0x00, 0x61, 0x73, 0x6d, 0x01, 0x00, 0x00, 0x00];
    let mut types: Vec<Vec<u8>> = extra.imports.iter().map(|i| func_type(&i.2, &i.3)).collect();
    types.extend(funcs.iter().map(|f| func_type(&f.params, &f.results)));
    out.extend(section(1, vector(&types)));
    if !extra.imports.is_empty() {
        let imports: Vec<Vec<u8>> = extra
            .imports
            .iter()
            .enumerate()
            .map(|(i, imp)| flat(&[name(imp.0), name(imp.1), vec![0x00], unsigned(i as u64)]))
            .collect();
        out.extend(section(2, vector(&imports)));
    }
    let first = extra.imports.len();
    let indices: Vec<Vec<u8>> = (0..funcs.len()).map(|i| unsigned((first + i) as u64)).collect();
    out.extend(section(3, vector(&indices)));
    if let Some(min) = extra.table {
        out.extend(section(4, vector(&[flat(&[vec![0x70, 0x00], unsigned(min as u64)])])));
    }
    if extra.memories > 0 {
        let mems: Vec<Vec<u8>> = (0..extra.memories).map(|_| vec![0x00, 0x01]).collect();
        out.extend(section(5, vector(&mems)));
    }
    if !extra.globals.is_empty() {
        out.extend(section(6, vector(&extra.globals)));
    }
    let mut exports: Vec<Vec<u8>> = funcs
        .iter()
        .enumerate()
        .filter(|(_, f)| !f.export.is_empty())
        .map(|(i, f)| flat(&[name(f.export), vec![0x00], unsigned((first + i) as u64)]))
        .collect();
    exports.extend(extra.exports.iter().map(|e| flat(&[name(e.0), vec![e.1], unsigned(e.2 as u64)])));
    out.extend(section(7, vector(&exports)));
    if let Some(index) = extra.start {
        out.extend(section(8, unsigned(index as u64)));
    }
    if !extra.elements.is_empty() {
        let elements: Vec<Vec<u8>> = extra
            .elements
            .iter()
            .map(|(offset, init)| {
                let items: Vec<Vec<u8>> = init.iter().map(|i| unsigned(*i as u64)).collect();
                flat(&[vec![0x00], i32_const(*offset), vec![0x0b], vector(&items)])
            })
            .collect();
        out.extend(section(9, vector(&elements)));
    }
    let bodies: Vec<Vec<u8>> = funcs
        .iter()
        .map(|f| {
            let groups: Vec<Vec<u8>> = f.locals.iter().map(|t| vec![0x01, *t]).collect();
            let body = flat(&[vector(&groups), f.code.clone(), vec![0x0b]]);
            flat(&[unsigned(body.len() as u64), body])
        })
        .collect();
    out.extend(section(10, vector(&bodies)));
    out
}

fn instance(funcs: &[Func]) -> Runtime {
    instantiate(&module(funcs, &Extra::default())).unwrap()
}

/// Floating-point arithmetic for the machine.
struct Floats;

impl FloatUnit for Floats {
    fn unary(&self, op: UnOp, operand: Val) -> Val {
        match (op, operand) {
            (UnOp::Neg, Val::F32(x)) => Val::F32((-f32::from_bits(x)).to_bits()),
            (UnOp::Sqrt, Val::F64(x)) => Val::F64(f64::from_bits(x).sqrt().to_bits()),
            (UnOp::F64ConvertS, Val::I32(x)) => Val::F64((x as f64).to_bits()),
            (UnOp::I32TruncS, Val::F64(x)) => Val::I32(f64::from_bits(x) as i32),
            _ => panic!("not needed here"),
        }
    }

    fn binary(&self, op: BinOp, lhs: Val, rhs: Val) -> Val {
        match (op, lhs, rhs) {
            (BinOp::Add, Val::F32(a), Val::F32(b)) => {
                Val::F32((f32::from_bits(a) + f32::from_bits(b)).to_bits())
            }
            (BinOp::Mul, Val::F64(a), Val::F64(b)) => {
                Val::F64((f64::from_bits(a) * f64::from_bits(b)).to_bits())
            }
            (BinOp::Lt, Val::F64(a), Val::F64(b)) => {
                Val::I32((f64::from_bits(a) < f64::from_bits(b)) as i32)
            }
            _ => panic!("not needed here"),
        }
    }
}

#[test]
fn test_return_const() {
    let mut instance = instance(&[
        func("returns_i32", &[], &[I32], &[], &[i32_const(1234)]),
        func("returns_i64", &[], &[I64], &[], &[i64_const(9_223_372_036_854_775_807)]),
        func("returns_f32", &[], &[F32], &[], &[f32_const(3.14)]),
        func("returns_f64", &[], &[F64], &[], &[f64_const(-3.14)]),
    ]);

    let val_i32 = instance.invoke("returns_i32", &[]).unwrap();
    let val_i64 = instance.invoke("returns_i64", &[]).unwrap();
    let val_f32 = instance.invoke("returns_f32", &[]).unwrap();
    let val_f64 = instance.invoke("returns_f64", &[]).unwrap();

    assert_eq!(val_i32, Val::I32(1234));
    assert_eq!(val_i64, Val::I64(9_223_372_036_854_775_807));
    assert_eq!(val_f32, Val::F32(3.14f32.to_bits()));
    assert_eq!(val_f64, Val::F64((-3.14f64).to_bits()));
}

#[test]
fn constants_at_the_bounds() {
    let mut instance = instance(&[
        func("max32", &[], &[I32], &[], &[i32_const(i32::MAX)]),
        func("min32", &[], &[I32], &[], &[i32_const(i32::MIN)]),
        func("min64", &[], &[I64], &[], &[i64_const(i64::MIN)]),
        func("nan", &[], &[F32], &[], &[f32_const(f32::NAN)]),
    ]);
    assert_eq!(instance.invoke("max32", &[]), Ok(Val::I32(i32::MAX)));
    assert_eq!(instance.invoke("min32", &[]), Ok(Val::I32(i32::MIN)));
    assert_eq!(instance.invoke("min64", &[]), Ok(Val::I64(i64::MIN)));
    assert_eq!(instance.invoke("nan", &[]), Ok(Val::F32(f32::NAN.to_bits())));
}

#[test]
fn test_return() {
    // i32.const 1  return  i32.const 2
    let mut instance = instance(&[func("return_1", &[], &[I32], &[], &[i32_const(1), vec![0x0f], i32_const(2)])]);

    let return_1 = instance.invoke("return_1", &[]).unwrap();

    assert_eq!(return_1, Val::I32(1));
}

fn if_else(condition: i32, then: i32, otherwise: i32) -> Vec<u8> {
    flat(&[i32_const(condition), vec![0x04, I32], i32_const(then), vec![0x05], i32_const(otherwise), vec![0x0b]])
}

#[test]
fn test_if_else() {
    let nested = |outer: i32| {
        flat(&[
            i32_const(outer),
            vec![0x04, I32],
            if_else(1, 1, 0),
            vec![0x05],
            if_else(0, 1, 0),
            vec![0x0b],
        ])
    };
    let mut instance = instance(&[
        func("if_1", &[], &[I32], &[], &[if_else(1, 1, 0)]),
        func("if_0", &[], &[I32], &[], &[if_else(0, 1, 0)]),
        func("if_if_1", &[], &[I32], &[], &[nested(1)]),
        func("if_if_0", &[], &[I32], &[], &[nested(0)]),
    ]);

    let if_1 = instance.invoke("if_1", &[]).unwrap();
    assert_eq!(if_1, Val::I32(1));

    let if_0 = instance.invoke("if_0", &[]).unwrap();
    assert_eq!(if_0, Val::I32(0));

    let if_if_1 = instance.invoke("if_if_1", &[]).unwrap();
    assert_eq!(if_if_1, Val::I32(1));

    let if_if_0 = instance.invoke("if_if_0", &[]).unwrap();
    assert_eq!(if_if_0, Val::I32(0));
}

#[test]
fn if_takes_the_branch_that_the_condition_names() {
    let mut instance = instance(&[
        func("one", &[], &[I32], &[], &[if_else(1, 2, 3)]),
        func("zero", &[], &[I32], &[], &[if_else(0, 2, 3)]),
        func("minus", &[], &[I32], &[], &[if_else(-7, 2, 3)]),
        // if without else: the body is passed over where the condition is 0
        func(
            "no_else",
            &[I32],
            &[I32],
            &[I32],
            &[
                i32_const(5),
                vec![0x21, 0x01],
                vec![0x20, 0x00, 0x04, 0x40],
                i32_const(9),
                vec![0x21, 0x01, 0x0b],
                vec![0x20, 0x01],
            ],
        ),
    ]);
    assert_eq!(instance.invoke("one", &[]), Ok(Val::I32(2)));
    assert_eq!(instance.invoke("zero", &[]), Ok(Val::I32(3)));
    assert_eq!(instance.invoke("minus", &[]), Ok(Val::I32(2)));
    assert_eq!(instance.invoke("no_else", &[Val::I32(1)]), Ok(Val::I32(9)));
    assert_eq!(instance.invoke("no_else", &[Val::I32(0)]), Ok(Val::I32(5)));
}

#[test]
fn test_local() {
    let mut instance =
        instance(&[func("local_get", &[], &[I32], &[I32], &[i32_const(1234), vec![0x21, 0x00, 0x20, 0x00]])]);

    let local_get = instance.invoke("local_get", &[]).unwrap();

    assert_eq!(local_get, Val::I32(1234));
}

fn add() -> Func {
    func("add", &[I32, I32], &[I32], &[], &[vec![0x20, 0x00, 0x20, 0x01, 0x6a]])
}

#[test]
fn test_param() {
    let mut instance = instance(&[add()]);

    let add_5 = instance.invoke("add", &[Val::I32(2), Val::I32(3)]).unwrap();

    assert_eq!(add_5, Val::I32(5));
}

#[test]
fn test_call_internal() {
    let mut instance =
        instance(&[add(), func("call_internal", &[], &[I32], &[], &[i32_const(3), i32_const(4), vec![0x10, 0x00]])]);

    let result = instance.invoke("call_internal", &[]).unwrap();

    assert_eq!(result, Val::from(7));
}

fn fib() -> Func {
    func(
        "fib_rec",
        &[I32],
        &[I32],
        &[],
        &[
            vec![0x20, 0x00],
            i32_const(2),
            vec![0x48, 0x04, I32, 0x20, 0x00, 0x05],
            vec![0x20, 0x00],
            i32_const(1),
            vec![0x6b, 0x10, 0x00, 0x20, 0x00],
            i32_const(2),
            vec![0x6b, 0x10, 0x00, 0x6a, 0x0b],
        ],
    )
}

#[test]
fn test_fib() {
    let mut instance = instance(&[fib()]);

    let result = instance.invoke("fib_rec", &[Val::I32(10)]).unwrap();
    assert_eq!(result, Val::I32(55));

    let result = instance.invoke("fib_rec", &[Val::I32(20)]).unwrap();
    assert_eq!(result, Val::I32(6765));
}

fn global_module() -> Runtime {
    let extra = Extra {
        globals: vec![flat(&[vec![I32, 0x01], i32_const(10), vec![0x0b]])],
        exports: vec![("counter", 0x03, 0)],
        ..Extra::default()
    };
    instantiate(&module(
        &[
            func("get_global", &[], &[I32], &[], &[vec![0x23, 0x00]]),
            func("set_global", &[I32], &[], &[], &[vec![0x20, 0x00, 0x24, 0x00]]),
        ],
        &extra,
    ))
    .unwrap()
}

#[test]
fn test_global() {
    let mut instance = global_module();

    let get_10 = instance.invoke("get_global", &[]).unwrap();
    instance.invoke("set_global", &[Val::I32(20)]).unwrap();
    let get_20 = instance.invoke("get_global", &[]).unwrap();

    assert_eq!(get_10, Val::from(10));
    assert_eq!(get_20, Val::from(20));
}

#[test]
fn globals_are_seen_from_outside() {
    let mut instance = global_module();
    assert_eq!(instance.get_global("counter"), Ok(Val::I32(10)));
    assert_eq!(instance.invoke("set_global", &[Val::I32(-3)]), Ok(Val::Void));
    assert_eq!(instance.get_global("counter"), Ok(Val::I32(-3)));
    assert_eq!(instance.get_global("nothing"), Err(Error::ExportNotFound("nothing".to_string())));
    assert!(matches!(instance.get_global("get_global"), Err(Error::ExpectGlobalAddr(_))));
    assert!(matches!(instance.get_memory("counter"), Err(Error::ExpectMemAddr(_))));
    assert!(matches!(instance.invoke("counter", &[]), Err(Error::ExpectFuncAddr(_))));
}

fn table_module() -> Runtime {
    let extra = Extra { table: Some(3), elements: vec![(0, vec![0, 1])], ..Extra::default() };
    instantiate(&module(
        &[
            func("ten", &[], &[I32], &[], &[i32_const(10)]),
            func("twenty", &[], &[I32], &[], &[i32_const(20)]),
            func("call_by_index", &[I32], &[I32], &[], &[vec![0x20, 0x00, 0x11, 0x00, 0x00]]),
            func("call_as_other_type", &[I32], &[I32], &[], &[vec![0x20, 0x00, 0x20, 0x00, 0x11, 0x02, 0x00]]),
            func("call_as_no_type", &[I32], &[I32], &[], &[vec![0x20, 0x00, 0x11, 0x09, 0x00]]),
        ],
        &extra,
    ))
    .unwrap()
}

#[test]
fn test_table() {
    let mut instance = table_module();

    let should_be_10 = instance.invoke("call_by_index", &[Val::I32(0)]).unwrap();
    assert_eq!(should_be_10, Val::from(10));

    let should_be_20 = instance.invoke("call_by_index", &[Val::I32(1)]).unwrap();
    assert_eq!(should_be_20, Val::from(20));
}

#[test]
fn indirect_calls_are_guarded() {
    let mut instance = table_module();
    // an entry that was never written
    assert_eq!(instance.invoke("call_by_index", &[Val::I32(2)]), Err(Error::Trapped));
    // an entry outside the table
    assert_eq!(instance.invoke("call_by_index", &[Val::I32(3)]), Err(Error::Trapped));
    assert_eq!(instance.invoke("call_by_index", &[Val::I32(-1)]), Err(Error::Trapped));
    // a function of another type than the instruction names
    assert_eq!(instance.invoke("call_as_other_type", &[Val::I32(0)]), Err(Error::Trapped));
    assert_eq!(instance.invoke("call_as_no_type", &[Val::I32(0)]), Err(Error::InvalidIndexForFuncType(9)));
}

fn memory_module() -> Runtime {
    let extra = Extra { memories: 1, exports: vec![("memory", 0x02, 0)], ..Extra::default() };
    instantiate(&module(
        &[
            func("set_memory", &[I32], &[], &[], &[i32_const(0), vec![0x20, 0x00, 0x36, 0x02, 0x00]]),
            func("store_at", &[I32, I32], &[], &[], &[vec![0x20, 0x00, 0x20, 0x01, 0x36, 0x02, 0x04]]),
            func("load_at", &[I32], &[I32], &[], &[vec![0x20, 0x00, 0x28, 0x02, 0x04]]),
            func("load8_s", &[I32], &[I32], &[], &[vec![0x20, 0x00, 0x2c, 0x00, 0x00]]),
            func("load8_u", &[I32], &[I32], &[], &[vec![0x20, 0x00, 0x2d, 0x00, 0x00]]),
            func("load16_s", &[I32], &[I64], &[], &[vec![0x20, 0x00, 0x32, 0x00, 0x00]]),
            func("store64", &[I64], &[], &[], &[i32_const(8), vec![0x20, 0x00, 0x37, 0x03, 0x00]]),
            func("load64", &[], &[I64], &[], &[i32_const(8), vec![0x29, 0x03, 0x00]]),
            func("store_f32", &[F32], &[], &[], &[i32_const(16), vec![0x20, 0x00, 0x38, 0x02, 0x00]]),
            func("load_f32", &[], &[F32], &[], &[i32_const(16), vec![0x2a, 0x02, 0x00]]),
            func("size", &[], &[I32], &[], &[vec![0x3f, 0x00]]),
            func("grow", &[], &[I32], &[], &[i32_const(1), vec![0x40, 0x00]]),
        ],
        &extra,
    ))
    .unwrap()
}

#[test]
fn test_memory() {
    let mut instance = memory_module();

    let memory = instance.get_memory("memory").unwrap();
    assert_eq!(memory.clone().drain(0..4).as_slice(), [0, 0, 0, 0]);

    instance.invoke("set_memory", &[Val::I32(10)]).unwrap();
    let memory = instance.get_memory("memory").unwrap();
    assert_eq!(memory.clone().drain(0..4).as_slice(), [10, 0, 0, 0]);
}

#[test]
fn memory_starts_as_one_page_of_zeros() {
    let instance = memory_module();
    let memory = instance.get_memory("memory").unwrap();
    assert_eq!(memory.len(), 65536);
    assert!(memory.iter().all(|b| *b == 0));
}

#[test]
fn loads_read_what_stores_wrote() {
    let mut instance = memory_module();
    assert_eq!(instance.invoke("store_at", &[Val::I32(100), Val::I32(0x12345678)]), Ok(Val::Void));
    assert_eq!(instance.get_memory("memory").unwrap()[104..108], [0x78, 0x56, 0x34, 0x12]);
    assert_eq!(instance.invoke("load_at", &[Val::I32(100)]), Ok(Val::I32(0x12345678)));
    assert_eq!(instance.invoke("store_at", &[Val::I32(0), Val::I32(-2)]), Ok(Val::Void));
    assert_eq!(instance.invoke("load_at", &[Val::I32(0)]), Ok(Val::I32(-2)));
    assert_eq!(instance.invoke("load8_s", &[Val::I32(4)]), Ok(Val::I32(-2)));
    assert_eq!(instance.invoke("load8_u", &[Val::I32(4)]), Ok(Val::I32(254)));
    assert_eq!(instance.invoke("load16_s", &[Val::I32(4)]), Ok(Val::I64(-2)));
    assert_eq!(instance.invoke("store64", &[Val::I64(i64::MIN + 5)]), Ok(Val::Void));
    assert_eq!(instance.invoke("load64", &[]), Ok(Val::I64(i64::MIN + 5)));
    assert_eq!(instance.invoke("store_f32", &[Val::F32(2.5f32.to_bits())]), Ok(Val::Void));
    assert_eq!(instance.invoke("load_f32", &[]), Ok(Val::F32(2.5f32.to_bits())));
    assert_eq!(instance.invoke("size", &[]), Ok(Val::I32(1)));
}

#[test]
fn memory_is_guarded() {
    let mut instance = memory_module();
    assert_eq!(instance.invoke("load_at", &[Val::I32(65528)]), Ok(Val::I32(0)));
    assert_eq!(instance.invoke("load_at", &[Val::I32(65529)]), Err(Error::Trapped));
    assert_eq!(instance.invoke("load_at", &[Val::I32(-1)]), Err(Error::Trapped));
    assert_eq!(instance.invoke("store_at", &[Val::I32(65530), Val::I32(1)]), Err(Error::Trapped));
    assert_eq!(instance.invoke("store_at", &[Val::I64(0), Val::I32(1)]), Err(Error::Trapped));
    assert_eq!(instance.invoke("grow", &[]), Err(Error::UnsupportedInstruction));
    let mut none = instance_without_memory();
    assert_eq!(none.invoke("load", &[]), Err(Error::InvalidIndexForMem(0)));
}

fn instance_without_memory() -> Runtime {
    instance(&[func("load", &[], &[I32], &[], &[i32_const(0), vec![0x28, 0x02, 0x00]])])
}

/// A hook that notes what it is called with.
struct Recorder {
    calls: Rc<RefCell<Vec<(String, String, Vec<Val>)>>>,
}

impl ExternalHook for Recorder {
    fn call(&self, func: &ExternalFuncInst, args: &Vec<Val>) -> Val {
        self.calls.borrow_mut().push((func.module.clone(), func.field.clone(), args.clone()));
        if func.match_module_field("env", "log_i32") {
            println!("log: {:?}", args[0]);
            Val::Void
        } else if func.match_module_field("env", "cos") {
            match args[0] {
                Val::F32(bits) => Val::F32(f32::from_bits(bits).cos().to_bits()),
                _ => panic!("cos of {:?}", args[0]),
            }
        } else {
            panic!("cannot hook: {:?}", func);
        }
    }
}

fn external_module() -> Vec<u8> {
    let extra = Extra {
        imports: vec![("env", "log_i32", vec![I32], vec![]), ("env", "cos", vec![F32], vec![F32])],
        ..Extra::default()
    };
    module(
        &[
            func("main", &[], &[F32], &[], &[i32_const(42), vec![0x10, 0x00], f32_const(0.0), vec![0x10, 0x01]]),
            func("twice", &[], &[], &[], &[i32_const(1), vec![0x10, 0x00], i32_const(2), vec![0x10, 0x00]]),
        ],
        &extra,
    )
}

#[test]
fn test_call_external() {
    let mut instance = instantiate(&external_module()).unwrap();
    instance.set_call_external_hook(Box::new(Recorder { calls: Rc::new(RefCell::new(Vec::new())) }));

    let result = instance.invoke("main", &[]).unwrap();
    println!("result: {:?}", result);
}

#[test]
fn the_hook_is_asked_once_for_each_call() {
    let calls = Rc::new(RefCell::new(Vec::new()));
    let mut instance = instantiate(&external_module()).unwrap();
    assert_eq!(instance.invoke("main", &[]), Err(Error::ExternalHookNotSet));
    instance.set_call_external_hook(Box::new(Recorder { calls: calls.clone() }));
    assert_eq!(instance.invoke("main", &[]), Ok(Val::F32(1.0f32.to_bits())));
    assert_eq!(
        *calls.borrow(),
        vec![
            ("env".to_string(), "log_i32".to_string(), vec![Val::I32(42)]),
            ("env".to_string(), "cos".to_string(), vec![Val::F32(0)]),
        ]
    );
    calls.borrow_mut().clear();
    assert_eq!(instance.invoke("twice", &[]), Ok(Val::Void));
    assert_eq!(
        *calls.borrow(),
        vec![
            ("env".to_string(), "log_i32".to_string(), vec![Val::I32(1)]),
            ("env".to_string(), "log_i32".to_string(), vec![Val::I32(2)]),
        ]
    );
}

#[test]
fn blocks_leave_what_they_declare() {
    let mut instance = instance(&[
        // block (result i32) 1 2 3 end  -> 3, and nothing else is left
        func(
            "keep_one",
            &[],
            &[I32],
            &[],
            &[i32_const(7), vec![0x02, I32], i32_const(1), i32_const(2), i32_const(3), vec![0x0b, 0x6a]],
        ),
        // block 1 2 end  -> the two values are dropped
        func(
            "keep_none",
            &[],
            &[I32],
            &[],
            &[i32_const(7), vec![0x02, 0x40], i32_const(1), i32_const(2), vec![0x0b]],
        ),
        // a function leaves one value whatever it has pushed
        func("many", &[], &[I32], &[], &[i32_const(1), i32_const(2), i32_const(3)]),
        func("call_many", &[], &[I32], &[], &[i32_const(10), vec![0x10, 0x02, 0x6a]]),
    ]);
    assert_eq!(instance.invoke("keep_one", &[]), Ok(Val::I32(10)));
    assert_eq!(instance.invoke("keep_none", &[]), Ok(Val::I32(7)));
    assert_eq!(instance.invoke("call_many", &[]), Ok(Val::I32(13)));
}

#[test]
fn loops_and_branches() {
    let mut instance = instance(&[
        // sum of 1..=n: block loop (n == 0 -> br 1) acc += n; n -= 1; br 0 end end
        func(
            "sum",
            &[I32],
            &[I32],
            &[I32],
            &[
                vec![0x02, 0x40, 0x03, 0x40],
                vec![0x20, 0x00, 0x45, 0x0d, 0x01],
                vec![0x20, 0x01, 0x20, 0x00, 0x6a, 0x21, 0x01],
                vec![0x20, 0x00],
                i32_const(1),
                vec![0x6b, 0x21, 0x00],
                vec![0x0c, 0x00, 0x0b, 0x0b],
                vec![0x20, 0x01],
            ],
        ),
        // br out of a block with a result
        func(
            "br_value",
            &[],
            &[I32],
            &[],
            &[vec![0x02, I32], i32_const(4), i32_const(5), vec![0x0c, 0x00], i32_const(6), vec![0x0b]],
        ),
        func("bad_label", &[], &[], &[], &[vec![0x0c, 0x00]]),
        func("open_block", &[], &[], &[], &[]),
        func("forever", &[], &[], &[], &[vec![0x03, 0x40, 0x0c, 0x00, 0x0b]]),
    ]);
    assert_eq!(instance.invoke("sum", &[Val::I32(10)]), Ok(Val::I32(55)));
    assert_eq!(instance.invoke("sum", &[Val::I32(0)]), Ok(Val::I32(0)));
    assert_eq!(instance.invoke("br_value", &[]), Ok(Val::I32(5)));
    assert_eq!(instance.invoke("bad_label", &[]), Err(Error::ExpectedLabel));
    instance.set_step_limit(1000);
    assert_eq!(instance.invoke("forever", &[]), Err(Error::StepLimitExceeded));
}

#[test]
fn br_table_picks_its_label() {
    // block block block (br_table 0 1 default 2) end 10 return end 20 return end 30
    let mut instance = instance(&[func(
        "pick",
        &[I32],
        &[I32],
        &[],
        &[
            vec![0x02, 0x40, 0x02, 0x40, 0x02, 0x40],
            vec![0x20, 0x00, 0x0e, 0x02, 0x00, 0x01, 0x02, 0x0b],
            i32_const(10),
            vec![0x0f, 0x0b],
            i32_const(20),
            vec![0x0f, 0x0b],
            i32_const(30),
        ],
    )]);
    assert_eq!(instance.invoke("pick", &[Val::I32(0)]), Ok(Val::I32(10)));
    assert_eq!(instance.invoke("pick", &[Val::I32(1)]), Ok(Val::I32(20)));
    assert_eq!(instance.invoke("pick", &[Val::I32(2)]), Ok(Val::I32(30)));
    assert_eq!(instance.invoke("pick", &[Val::I32(-1)]), Ok(Val::I32(30)));
    assert_eq!(instance.invoke("pick", &[Val::I64(0)]), Err(Error::Trapped));
}

#[test]
fn immutable_globals_cannot_be_set() {
    let set = func("set", &[I32], &[], &[], &[vec![0x20, 0x00, 0x24, 0x01]]);
    let globals = |second_mutable: u8| Extra {
        globals: vec![
            flat(&[vec![I32, 0x01], i32_const(1), vec![0x0b]]),
            flat(&[vec![I32, second_mutable], i32_const(2), vec![0x0b]]),
        ],
        ..Extra::default()
    };
    assert_eq!(instantiate(&module(&[set], &globals(0x00))).err(), Some(Error::ImmutableGlobal(1)));
    let set = func("set", &[I32], &[], &[], &[vec![0x20, 0x00, 0x24, 0x01]]);
    assert!(instantiate(&module(&[set], &globals(0x01))).is_ok());
}

#[test]
fn faults_are_reported() {
    let mut instance = instance(&[
        func("trap", &[], &[], &[], &[vec![0x00]]),
        func("no_value", &[], &[I32], &[], &[vec![0x6a]]),
        func("no_local", &[], &[I32], &[], &[vec![0x20, 0x03]]),
        func("no_global", &[], &[I32], &[], &[vec![0x23, 0x00]]),
        func("no_func", &[], &[], &[], &[vec![0x10, 0x63]]),
        func("div", &[I32, I32], &[I32], &[], &[vec![0x20, 0x00, 0x20, 0x01, 0x6d]]),
        func("mixed", &[], &[I32], &[], &[i32_const(1), i64_const(1), vec![0x6a]]),
        func("clz_of_float", &[], &[I32], &[], &[f32_const(1.0), vec![0x67]]),
        func("no_end", &[], &[], &[], &[vec![0x02, 0x40, 0x02, 0x40]]),
        func("table_call", &[], &[], &[], &[i32_const(0), vec![0x11, 0x00, 0x00]]),
        func("ref_null", &[], &[], &[], &[vec![0xd0, 0x70]]),
        func("falls_off", &[], &[], &[], &[vec![0x02, 0x40]]),
        func("if_on_i64", &[], &[], &[], &[i64_const(1), vec![0x04, 0x40, 0x0b]]),
        func("float_add", &[], &[F32], &[], &[f32_const(1.0), f32_const(2.0), vec![0x92]]),
    ]);
    assert_eq!(instance.invoke("trap", &[]), Err(Error::Trapped));
    assert_eq!(instance.invoke("no_value", &[]), Err(Error::ExpectedValue));
    assert_eq!(instance.invoke("no_local", &[]), Err(Error::LocalNotFound));
    assert_eq!(instance.invoke("no_global", &[]), Err(Error::GlobalNotFound));
    assert_eq!(instance.invoke("no_func", &[]), Err(Error::InvalidIndexForFunc(0x63)));
    assert_eq!(instance.invoke("div", &[Val::I32(7), Val::I32(0)]), Err(Error::UndefinedBinaryOp));
    assert_eq!(instance.invoke("div", &[Val::I32(i32::MIN), Val::I32(-1)]), Err(Error::UndefinedBinaryOp));
    assert_eq!(instance.invoke("div", &[Val::I32(-7), Val::I32(2)]), Ok(Val::I32(-3)));
    assert_eq!(instance.invoke("mixed", &[]), Err(Error::UndefinedBinaryOp));
    assert_eq!(instance.invoke("clz_of_float", &[]), Err(Error::UndefinedUnaryOp));
    assert_eq!(instance.invoke("float_add", &[]), Err(Error::FloatUnitNotSet));
    assert_eq!(instance.invoke("table_call", &[]), Err(Error::Trapped));
    assert_eq!(instance.invoke("ref_null", &[]), Err(Error::UnsupportedInstruction));
    assert_eq!(instance.invoke("falls_off", &[]), Err(Error::ExpectedInstruction));
    assert_eq!(instance.invoke("if_on_i64", &[]), Err(Error::IfConditionShouldBeI32));
    assert_eq!(instance.invoke("no_end", &[]), Err(Error::UnexpectedEndOfInput));
    assert_eq!(instance.invoke("missing", &[]), Err(Error::ExportNotFound("missing".to_string())));
}

#[test]
fn floating_point_goes_to_the_unit() {
    let mut instance = instance(&[
        func("add", &[F32, F32], &[F32], &[], &[vec![0x20, 0x00, 0x20, 0x01, 0x92]]),
        func("neg", &[F32], &[F32], &[], &[vec![0x20, 0x00, 0x8c]]),
        func("area", &[F64], &[F64], &[], &[vec![0x20, 0x00, 0x20, 0x00, 0xa2, 0x9f]]),
        func("as_f64", &[I32], &[F64], &[], &[vec![0x20, 0x00, 0xb7]]),
        func("as_i32", &[F64], &[I32], &[], &[vec![0x20, 0x00, 0xaa]]),
        func("less", &[F64, F64], &[I32], &[], &[vec![0x20, 0x00, 0x20, 0x01, 0x63]]),
    ]);
    instance.set_float_unit(Box::new(Floats));
    let f = |x: f32| Val::F32(x.to_bits());
    let d = |x: f64| Val::F64(x.to_bits());
    assert_eq!(instance.invoke("add", &[f(1.5), f(2.25)]), Ok(f(3.75)));
    assert_eq!(instance.invoke("neg", &[f(1.5)]), Ok(f(-1.5)));
    assert_eq!(instance.invoke("area", &[d(3.0)]), Ok(d(3.0)));
    assert_eq!(instance.invoke("as_f64", &[Val::I32(-4)]), Ok(d(-4.0)));
    assert_eq!(instance.invoke("as_i32", &[d(-4.75)]), Ok(Val::I32(-4)));
    assert_eq!(instance.invoke("less", &[d(1.0), d(2.0)]), Ok(Val::I32(1)));
}

fn binary(op: u8, ty: u8, a: Val, b: Val) -> Result<Val, Error> {
    let result = if (0x46..=0x5a).contains(&op) { I32 } else { ty };
    let mut instance = instance(&[func("f", &[ty, ty], &[result], &[], &[vec![0x20, 0x00, 0x20, 0x01, op]])]);
    instance.invoke("f", &[a, b])
}

fn unary(op: u8, ty: u8, result: u8, a: Val) -> Result<Val, Error> {
    let mut instance = instance(&[func("f", &[ty], &[result], &[], &[vec![0x20, 0x00, op]])]);
    instance.invoke("f", &[a])
}

#[test]
fn integer_arithmetic_of_32_bits() {
    let i = Val::I32;
    assert_eq!(binary(0x6a, I32, i(i32::MAX), i(1)), Ok(i(i32::MIN)));
    assert_eq!(binary(0x6b, I32, i(i32::MIN), i(1)), Ok(i(i32::MAX)));
    assert_eq!(binary(0x6c, I32, i(0x10000), i(0x10000)), Ok(i(0)));
    assert_eq!(binary(0x6c, I32, i(-3), i(5)), Ok(i(-15)));
    assert_eq!(binary(0x6d, I32, i(-7), i(2)), Ok(i(-3)));
    assert_eq!(binary(0x6e, I32, i(-7), i(2)), Ok(i(0x7ffffffc)));
    assert_eq!(binary(0x6f, I32, i(-7), i(2)), Ok(i(-1)));
    assert_eq!(binary(0x70, I32, i(-7), i(2)), Ok(i(1)));
    assert_eq!(binary(0x70, I32, i(1), i(0)), Err(Error::UndefinedBinaryOp));
    assert_eq!(binary(0x71, I32, i(0b1100), i(0b1010)), Ok(i(0b1000)));
    assert_eq!(binary(0x72, I32, i(0b1100), i(0b1010)), Ok(i(0b1110)));
    assert_eq!(binary(0x73, I32, i(0b1100), i(0b1010)), Ok(i(0b0110)));
    assert_eq!(binary(0x74, I32, i(1), i(33)), Ok(i(2)));
    assert_eq!(binary(0x75, I32, i(-8), i(1)), Ok(i(-4)));
    assert_eq!(binary(0x76, I32, i(-8), i(1)), Ok(i(0x7ffffffc)));
    assert_eq!(binary(0x76, I32, i(-8), i(32)), Ok(i(-8)));
    assert_eq!(binary(0x77, I32, i(0x80000001u32 as i32), i(1)), Ok(i(3)));
    assert_eq!(binary(0x77, I32, i(0x12345678), i(36)), Ok(i(0x23456781)));
    assert_eq!(binary(0x78, I32, i(3), i(1)), Ok(i(0x80000001u32 as i32)));
    assert_eq!(binary(0x78, I32, i(5), i(0)), Ok(i(5)));
    assert_eq!(unary(0x67, I32, I32, i(1)), Ok(i(31)));
    assert_eq!(unary(0x67, I32, I32, i(0)), Ok(i(32)));
    assert_eq!(unary(0x68, I32, I32, i(8)), Ok(i(3)));
    assert_eq!(unary(0x68, I32, I32, i(0)), Ok(i(32)));
    assert_eq!(unary(0x69, I32, I32, i(-1)), Ok(i(32)));
    assert_eq!(unary(0x69, I32, I32, i(0b1011)), Ok(i(3)));
    assert_eq!(unary(0x45, I32, I32, i(0)), Ok(i(1)));
    assert_eq!(unary(0x45, I32, I32, i(9)), Ok(i(0)));
    assert_eq!(unary(0xc0, I32, I32, i(0x1ff)), Ok(i(-1)));
    assert_eq!(unary(0xc1, I32, I32, i(0x18000)), Ok(i(-32768)));
}

#[test]
fn comparisons_of_32_bits() {
    let i = Val::I32;
    assert_eq!(binary(0x46, I32, i(3), i(3)), Ok(i(1)));
    assert_eq!(binary(0x47, I32, i(3), i(3)), Ok(i(0)));
    assert_eq!(binary(0x48, I32, i(-1), i(1)), Ok(i(1)));
    assert_eq!(binary(0x49, I32, i(-1), i(1)), Ok(i(0)));
    assert_eq!(binary(0x4a, I32, i(-1), i(1)), Ok(i(0)));
    assert_eq!(binary(0x4b, I32, i(-1), i(1)), Ok(i(1)));
    assert_eq!(binary(0x4b, I32, i(1), i(-2)), Ok(i(0)));
    assert_eq!(binary(0x4c, I32, i(2), i(2)), Ok(i(1)));
    assert_eq!(binary(0x4d, I32, i(-1), i(1)), Ok(i(0)));
    assert_eq!(binary(0x4e, I32, i(-1), i(1)), Ok(i(0)));
    assert_eq!(binary(0x4f, I32, i(-1), i(1)), Ok(i(1)));
}

#[test]
fn integer_arithmetic_of_64_bits() {
    let l = Val::I64;
    assert_eq!(binary(0x7c, I64, l(i64::MAX), l(1)), Ok(l(i64::MIN)));
    assert_eq!(binary(0x7d, I64, l(0), l(1)), Ok(l(-1)));
    assert_eq!(binary(0x7e, I64, l(1 << 32), l(1 << 32)), Ok(l(0)));
    assert_eq!(binary(0x7f, I64, l(-9), l(2)), Ok(l(-4)));
    assert_eq!(binary(0x7f, I64, l(i64::MIN), l(-1)), Err(Error::UndefinedBinaryOp));
    assert_eq!(binary(0x80, I64, l(-1), l(2)), Ok(l(i64::MAX)));
    assert_eq!(binary(0x81, I64, l(-9), l(2)), Ok(l(-1)));
    assert_eq!(binary(0x82, I64, l(-1), l(10)), Ok(l(5)));
    assert_eq!(binary(0x86, I64, l(1), l(65)), Ok(l(2)));
    assert_eq!(binary(0x87, I64, l(-8), l(1)), Ok(l(-4)));
    assert_eq!(binary(0x88, I64, l(-8), l(1)), Ok(l(0x7ffffffffffffffc)));
    assert_eq!(binary(0x89, I64, l(i64::MIN + 1), l(1)), Ok(l(3)));
    assert_eq!(binary(0x8a, I64, l(3), l(1)), Ok(l(i64::MIN + 1)));
    assert_eq!(binary(0x54, I64, l(-1), l(1)), Ok(Val::I32(0)));
    assert_eq!(binary(0x53, I64, l(-1), l(1)), Ok(Val::I32(1)));
    assert_eq!(unary(0x79, I64, I64, l(1)), Ok(l(63)));
    assert_eq!(unary(0x7a, I64, I64, l(0)), Ok(l(64)));
    assert_eq!(unary(0x7b, I64, I64, l(-1)), Ok(l(64)));
    assert_eq!(unary(0x50, I64, I32, l(0)), Ok(Val::I32(1)));
    assert_eq!(unary(0xa7, I64, I32, l(0x1_0000_0007)), Ok(Val::I32(7)));
    assert_eq!(unary(0xac, I32, I64, Val::I32(-1)), Ok(l(-1)));
    assert_eq!(unary(0xad, I32, I64, Val::I32(-1)), Ok(l(0xffff_ffff)));
    assert_eq!(unary(0xc2, I64, I64, l(0x80)), Ok(l(-128)));
    assert_eq!(unary(0xc3, I64, I64, l(0xffff)), Ok(l(-1)));
    assert_eq!(unary(0xc4, I64, I64, l(0x8000_0000)), Ok(l(i32::MIN as i64)));
}

#[test]
fn operands_decide_the_arithmetic() {
    // an `i64.add` on two 32-bit integers adds them as such
    assert_eq!(binary(0x7c, I32, Val::I32(i32::MAX), Val::I32(1)), Ok(Val::I32(i32::MIN)));
}

#[test]
fn values_from_numbers() {
    assert_eq!(Val::from(5i32), Val::I32(5));
    assert_eq!(Val::from(-5i64), Val::I64(-5));
    assert_eq!(Val::from(true), Val::I32(1));
    assert_eq!(Val::from(false), Val::I32(0));
    assert!(Val::I32(-1).is_true());
    assert!(!Val::I32(0).is_true());
    assert!(Val::I32(0).is_false());
    assert!(!Val::I64(0).is_false());
    assert!(!Val::I64(1).is_true());
}

#[test]
fn reinterpretations_copy_the_bits() {
    assert_eq!(unary(0xbc, F32, I32, Val::F32(1.0f32.to_bits())), Ok(Val::I32(0x3f800000)));
    assert_eq!(unary(0xbe, I32, F32, Val::I32(0x3f800000)), Ok(Val::F32(1.0f32.to_bits())));
    assert_eq!(unary(0xbd, F64, I64, Val::F64((-2.0f64).to_bits())), Ok(Val::I64((-2.0f64).to_bits() as i64)));
    assert_eq!(unary(0xbf, I64, F64, Val::I64(-1)), Ok(Val::F64(u64::MAX)));
    assert_eq!(unary(0xbc, I32, I32, Val::I32(1)), Err(Error::UndefinedUnaryOp));
    assert_eq!(Val::F32(7).i32_reinterpret_f32(), Ok(Val::I32(7)));
    assert_eq!(Val::I64(-1).f64_reinterpret_i64(), Ok(Val::F64(u64::MAX)));
}

#[test]
fn a_failed_call_leaves_what_was_written() {
    let extra = Extra {
        globals: vec![flat(&[vec![I32, 0x01], i32_const(1), vec![0x0b]])],
        memories: 1,
        exports: vec![("g", 0x03, 0), ("m", 0x02, 0)],
        ..Extra::default()
    };
    // g = 5; memory[0] = 9; unreachable
    let code = [
        i32_const(5),
        vec![0x24, 0x00],
        i32_const(0),
        i32_const(9),
        vec![0x36, 0x02, 0x00],
        vec![0x00],
    ];
    let mut instance = instantiate(&module(&[func("run", &[], &[], &[], &code)], &extra)).unwrap();
    assert_eq!(instance.invoke("run", &[]), Err(Error::Trapped));
    assert_eq!(instance.get_global("g"), Ok(Val::I32(5)));
    assert_eq!(instance.get_memory("m").unwrap()[0], 9);
    // a name that is not exported changes nothing
    assert_eq!(instance.invoke("nothing", &[]), Err(Error::ExportNotFound("nothing".to_string())));
    assert!(matches!(instance.invoke("g", &[]), Err(Error::ExpectFuncAddr(_))));
    assert_eq!(instance.get_global("g"), Ok(Val::I32(5)));
    assert_eq!(instance.get_memory("m").unwrap()[0], 9);
}

#[test]
fn the_hook_is_asked_with_the_topmost_values() {
    let mut instance = instantiate(&external_module()).unwrap();
    assert!(instance.external_request(0).is_none());
    instance.set_call_external_hook(Box::new(Recorder { calls: Rc::new(RefCell::new(Vec::new())) }));
    // nothing is on the stack at rest: the first import has one parameter
    assert!(instance.external_request(0).is_none());
    assert!(instance.external_request(2).is_none());
    assert!(instance.external_request(9).is_none());
}

#[test]
fn drop_and_select() {
    let mut instance = instance(&[
        func("drop", &[], &[I32], &[], &[i32_const(1), i32_const(2), vec![0x1a]]),
        func("select", &[I32], &[I32], &[], &[i32_const(10), i32_const(20), vec![0x20, 0x00, 0x1b]]),
        func("tee", &[], &[I32], &[I32], &[i32_const(6), vec![0x22, 0x00, 0x20, 0x00, 0x6a]]),
    ]);
    assert_eq!(instance.invoke("drop", &[]), Ok(Val::I32(1)));
    assert_eq!(instance.invoke("select", &[Val::I32(1)]), Ok(Val::I32(10)));
    assert_eq!(instance.invoke("select", &[Val::I32(0)]), Ok(Val::I32(20)));
    assert_eq!(instance.invoke("tee", &[]), Ok(Val::I32(12)));
}

#[test]
fn start_function_runs_on_request() {
    let extra = Extra {
        globals: vec![flat(&[vec![I32, 0x01], i32_const(1), vec![0x0b]])],
        exports: vec![("g", 0x03, 0)],
        start: Some(0),
        ..Extra::default()
    };
    let mut instance =
        instantiate(&module(&[func("", &[], &[], &[], &[i32_const(99), vec![0x24, 0x00]])], &extra)).unwrap();
    assert_eq!(instance.get_global("g"), Ok(Val::I32(1)));
    assert_eq!(instance.start(), Ok(()));
    assert_eq!(instance.get_global("g"), Ok(Val::I32(99)));
}

#[test]
fn instantiation_errors() {
    let header = vec![0x00, 0x61, 0x73, 0x6d, 0x01, 0x00, 0x00, 0x00];
    let with = |sections: &[Vec<u8>]| instantiate(&flat(&[header.clone(), flat(sections)])).err();
    assert_eq!(with(&[vec![0x01]]), None);
    assert_eq!(
        instantiate(&[0x01]).err(),
        Some(Error::DecodeError(wasmarch::decoder::Error::InvalidMagicHeader))
    );
    // an import of a type that is not there
    let import = section(2, vector(&[flat(&[name("a"), name("b"), vec![0x00, 0x05]])]));
    assert_eq!(with(&[import]), Some(Error::InvalidIndexForType(5)));
    // a function without a body
    let types = section(1, vector(&[func_type(&[], &[])]));
    assert_eq!(with(&[types.clone(), section(3, vec![0x01, 0x00])]), Some(Error::InvalidIndexForCode(0)));
    // a function of a type that is not there
    let code = section(10, vector(&[vec![0x02, 0x00, 0x0b]]));
    assert_eq!(
        with(&[types.clone(), section(3, vec![0x01, 0x02]), code.clone()]),
        Some(Error::InvalidIndexForType(2))
    );
    // an export of a function that is not there
    let export = section(7, vector(&[flat(&[name("f"), vec![0x00, 0x01]])]));
    assert_eq!(
        with(&[types.clone(), section(3, vec![0x01, 0x00]), export, code.clone()]),
        Some(Error::InvalidIndexForFunc(1))
    );
    // a segment that does not fit its table
    let table = section(4, vec![0x01, 0x70, 0x00, 0x01]);
    let element = section(9, vec![0x01, 0x00, 0x41, 0x00, 0x0b, 0x02, 0x00, 0x00]);
    assert_eq!(with(&[table, element]), Some(Error::Trapped));
}

#[test]
fn exports_of_what_is_not_there() {
    let extra = Extra { exports: vec![("g", 0x03, 5), ("m", 0x02, 2)], ..Extra::default() };
    let instance = instantiate(&module(&[], &extra)).unwrap();
    assert_eq!(instance.get_global("g"), Err(Error::InvalidIndexForGlobal(5)));
    assert_eq!(instance.get_memory("m").err(), Some(Error::InvalidIndexForMem(2)));
}

#[test]
fn later_exports_win() {
    let mut instance = instance(&[
        func("f", &[], &[I32], &[], &[i32_const(1)]),
        func("f", &[], &[I32], &[], &[i32_const(2)]),
    ]);
    assert_eq!(instance.invoke("f", &[]), Ok(Val::I32(2)));
}
