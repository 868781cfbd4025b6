use chisel::ast::{ExportEntry, ExportInternal, FuncBody, FuncSig, LocalGroup, Module, ValType};
use chisel::checkfloat::CheckFloat;
use chisel::instr::Instr;
use chisel::ModuleError;
use parity_wasm::elements::Instruction as PI;

fn vt(v: parity_wasm::elements::ValueType) -> ValType {
    match v {
        parity_wasm::elements::ValueType::I32 => ValType::I32,
        parity_wasm::elements::ValueType::I64 => ValType::I64,
        parity_wasm::elements::ValueType::F32 => ValType::F32,
        parity_wasm::elements::ValueType::F64 => ValType::F64,
    }
}

fn instr(i: &PI) -> Instr {
    match i {
        PI::Unreachable => Instr::Unreachable,
        PI::Nop => Instr::Nop,
        PI::End => Instr::End,
        PI::Return => Instr::Return,
        PI::Drop => Instr::Drop,
        PI::Call(x) => Instr::Call(*x),
        PI::CallIndirect(x, r) => Instr::CallIndirect(*x, *r),
        PI::GetLocal(x) => Instr::GetLocal(*x),
        PI::SetLocal(x) => Instr::SetLocal(*x),
        PI::TeeLocal(x) => Instr::TeeLocal(*x),
        PI::GetGlobal(x) => Instr::GetGlobal(*x),
        PI::SetGlobal(x) => Instr::SetGlobal(*x),
        PI::I32Const(v) => Instr::I32Const(*v),
        PI::I64Const(v) => Instr::I64Const(*v),
        PI::F32Const(b) => Instr::F32Const(*b),
        PI::F64Const(b) => Instr::F64Const(*b),
        PI::I32Load(a, o) => Instr::I32Load(*a, *o),
        PI::I32Store(a, o) => Instr::I32Store(*a, *o),
        PI::I32Add => Instr::I32Add,
        PI::I32Sub => Instr::I32Sub,
        PI::F32Add => Instr::F32Add,
        PI::F64Add => Instr::F64Add,
        other => panic!("instruction not handled by this test helper: {:?}", other),
    }
}

/// Converts the subset of the binary module representation these tests
/// exercise into the library's own structured form.
fn from_parity(pm: &parity_wasm::elements::Module) -> Module {
    let mut m = Module::empty();
    if let Some(ts) = pm.type_section() {
        for t in ts.types() {
            let parity_wasm::elements::Type::Function(ft) = t;
            m.types.push(FuncSig {
                params: ft.params().iter().map(|v| vt(*v)).collect(),
                ret: ft.results().first().map(|v| vt(*v)),
            });
        }
    }
    if let Some(fs) = pm.function_section() {
        for f in fs.entries() {
            m.functions.push(f.type_ref());
        }
    }
    if let Some(es) = pm.export_section() {
        for e in es.entries() {
            let internal = match e.internal() {
                parity_wasm::elements::Internal::Function(i) => ExportInternal::Function(*i),
                parity_wasm::elements::Internal::Table(i) => ExportInternal::Table(*i),
                parity_wasm::elements::Internal::Memory(i) => ExportInternal::Memory(*i),
                parity_wasm::elements::Internal::Global(i) => ExportInternal::Global(*i),
            };
            m.exports.push(ExportEntry { field: e.field().to_string(), internal });
        }
    }
    if let Some(cs) = pm.code_section() {
        let mut bodies: Vec<FuncBody> = Vec::new();
        for b in cs.bodies() {
            bodies.push(FuncBody {
                locals: b
                    .locals()
                    .iter()
                    .map(|l| LocalGroup { count: l.count(), ty: vt(l.value_type()) })
                    .collect(),
                code: b.code().elements().iter().map(instr).collect(),
            });
        }
        m.code = Some(bodies);
    }
    m
}

#[test]
fn add_i32_no_fp() {
    //  (module
    //    (func $add (param $lhs i32) (param $rhs i32) (result i32)
    //      get_local $lhs
    //      get_local $rhs
    //      i32.add)
    //    (export "add" (func $add))
    //  )
    let wasm: Vec<u8> = vec![
        0x00, 0x61, 0x73, 0x6d, 0x01, 0x00, 0x00, 0x00, 0x01, 0x07, 0x01, 0x60, 0x02, 0x7f, 0x7f,
        0x01, 0x7f, 0x03, 0x02, 0x01, 0x00, 0x07, 0x07, 0x01, 0x03, 0x61, 0x64, 0x64, 0x00, 0x00,
        0x0a, 0x09, 0x01, 0x07, 0x00, 0x20, 0x00, 0x20, 0x01, 0x6a, 0x0b,
    ];
    let pm = parity_wasm::elements::deserialize_buffer::<parity_wasm::elements::Module>(&wasm)
        .unwrap();
    let module = from_parity(&pm);
    let checker = CheckFloat::new();
    let result = checker.validate(&module).unwrap();
    assert_eq!(true, result);
}

#[test]
fn add_f32_fp() {
    //  (module
    //    (func $add (param $lhs f32) (param $rhs f32) (result f32)
    //      get_local $lhs
    //      get_local $rhs
    //      f32.add)
    //    (export "add" (func $add))
    //  )
    let wasm: Vec<u8> = vec![
        0x00, 0x61, 0x73, 0x6d, 0x01, 0x00, 0x00, 0x00, 0x01, 0x07, 0x01, 0x60, 0x02, 0x7d, 0x7d,
        0x01, 0x7d, 0x03, 0x02, 0x01, 0x00, 0x07, 0x07, 0x01, 0x03, 0x61, 0x64, 0x64, 0x00, 0x00,
        0x0a, 0x09, 0x01, 0x07, 0x00, 0x20, 0x00, 0x20, 0x01, 0x92, 0x0b,
    ];
    let pm = parity_wasm::elements::deserialize_buffer::<parity_wasm::elements::Module>(&wasm)
        .unwrap();
    let module = from_parity(&pm);
    let checker = CheckFloat::new();
    let result = checker.validate(&module).unwrap();
    assert_eq!(false, result);
}

#[test]
fn add_f64_fp() {
    //  (module
    //    (func $add (param $lhs f64) (param $rhs f64) (result f64)
    //      get_local $lhs
    //      get_local $rhs
    //      f64.add)
    //    (export "add" (func $add))
    //  )
    let wasm: Vec<u8> = vec![
        0x00, 0x61, 0x73, 0x6d, 0x01, 0x00, 0x00, 0x00, 0x01, 0x07, 0x01, 0x60, 0x02, 0x7c, 0x7c,
        0x01, 0x7c, 0x03, 0x02, 0x01, 0x00, 0x07, 0x07, 0x01, 0x03, 0x61, 0x64, 0x64, 0x00, 0x00,
        0x0a, 0x09, 0x01, 0x07, 0x00, 0x20, 0x00, 0x20, 0x01, 0xa0, 0x0b,
    ];
    let pm = parity_wasm::elements::deserialize_buffer::<parity_wasm::elements::Module>(&wasm)
        .unwrap();
    let module = from_parity(&pm);
    let checker = CheckFloat::new();
    let result = checker.validate(&module).unwrap();
    assert_eq!(false, result);
}

#[test]
fn no_code_section() {
    let pm = parity_wasm::builder::module().build();
    let module = from_parity(&pm);
    let checker = CheckFloat::new();
    let result = checker.validate(&module);
    assert_eq!(true, result.is_err());
    assert_eq!(result.err().unwrap(), ModuleError::NotFound)
}

#[test]
fn one_float_instruction_rejects() {
    let mut m = Module::empty();
    m.types.push(FuncSig { params: Vec::new(), ret: None });
    m.functions.push(0);
    m.code = Some(vec![FuncBody { locals: Vec::new(), code: vec![Instr::F32Sqrt, Instr::End] }]);
    let checker = CheckFloat::new();
    assert_eq!(checker.validate(&m).unwrap(), false);
}

#[test]
fn empty_code_section_accepts() {
    let mut m = Module::empty();
    m.code = Some(Vec::new());
    let checker = CheckFloat::new();
    assert_eq!(checker.validate(&m).unwrap(), true);
}
