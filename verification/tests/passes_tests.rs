use chisel::ast::{
    CustomSection, ExportEntry, ExportInternal, External, FuncBody, FuncSig, ImportEntry, Module,
    ValType,
};
use chisel::checkstartfunc::CheckStartFunc;
use chisel::dropsection::DropSection;
use chisel::encode::encode_module;
use chisel::instr::Instr;
use chisel::remapimports::RemapImports;
use chisel::remapstart::RemapStart;
use chisel::repack::Repack;
use chisel::snip::Snip;
use chisel::trimexports::TrimExports;
use chisel::trimstartfunc::TrimStartFunc;

fn unit_type() -> FuncSig {
    FuncSig { params: Vec::new(), ret: None }
}

fn body(code: Vec<Instr>) -> FuncBody {
    FuncBody { locals: Vec::new(), code }
}

#[test]
fn snip_removes_unreachable_and_renumbers() {
    // Four local functions; "main" exports the first, which calls the
    // third; the second and fourth are unreachable.
    let mut m = Module::empty();
    m.types.push(unit_type());
    m.functions = vec![0, 0, 0, 0];
    m.code = Some(vec![
        body(vec![Instr::Call(2), Instr::End]),
        body(vec![Instr::End]),
        body(vec![Instr::End]),
        body(vec![Instr::Call(1), Instr::End]),
    ]);
    m.exports.push(ExportEntry { field: "main".to_string(), internal: ExportInternal::Function(0) });
    let changed = Snip::new().translate_inplace(&mut m).unwrap();
    assert_eq!(changed, true);
    assert_eq!(m.functions.len(), 2);
    let bodies = m.code.as_ref().unwrap();
    assert_eq!(bodies.len(), 2);
    // the surviving call now points at the renumbered target
    assert_eq!(bodies[0].code, vec![Instr::Call(1), Instr::End]);
    assert_eq!(bodies[1].code, vec![Instr::End]);
    assert!(matches!(m.exports[0].internal, ExportInternal::Function(0)));
    // every surviving operand is below the new function count
    for b in bodies {
        for ins in &b.code {
            if let Instr::Call(t) = ins {
                assert!((*t as usize) < m.functions.len());
            }
        }
    }
}

#[test]
fn snip_keeps_everything_reachable() {
    let mut m = Module::empty();
    m.types.push(unit_type());
    m.functions = vec![0, 0];
    m.code = Some(vec![
        body(vec![Instr::Call(1), Instr::End]),
        body(vec![Instr::End]),
    ]);
    m.exports.push(ExportEntry { field: "main".to_string(), internal: ExportInternal::Function(0) });
    let before = encode_module(&m);
    let changed = Snip::new().translate_inplace(&mut m).unwrap();
    assert_eq!(changed, false);
    assert_eq!(encode_module(&m), before);
}

#[test]
fn snip_respects_start_and_element_roots() {
    let mut m = Module::empty();
    m.types.push(unit_type());
    m.functions = vec![0, 0, 0];
    m.code = Some(vec![
        body(vec![Instr::End]),
        body(vec![Instr::End]),
        body(vec![Instr::End]),
    ]);
    m.start = Some(1);
    m.tables.push(chisel::ast::Limits { initial: 1, maximum: None });
    m.elements.push(chisel::ast::ElementSegment { index: 0, offset: 0, members: vec![2] });
    let changed = Snip::new().translate_inplace(&mut m).unwrap();
    // only function 0 is unreachable
    assert_eq!(changed, true);
    assert_eq!(m.functions.len(), 2);
    assert_eq!(m.start, Some(0));
    assert_eq!(m.elements[0].members, vec![1]);
}

#[test]
fn dropsection_twice_is_idempotent() {
    let mut m = Module::empty();
    m.customs.push(CustomSection { name: "name".to_string(), payload: vec![1, 2, 3] });
    let d = DropSection::NamesSection;
    let first = d.translate_inplace(&mut m).unwrap();
    assert_eq!(first, true);
    let after_first = encode_module(&m);
    let second = d.translate_inplace(&mut m).unwrap();
    assert_eq!(second, false);
    let after_second = encode_module(&m);
    assert_eq!(after_first, after_second);
}

#[test]
fn dropsection_by_name_leaves_others() {
    let mut m = Module::empty();
    m.customs.push(CustomSection { name: "keep".to_string(), payload: vec![9] });
    m.customs.push(CustomSection { name: "drop".to_string(), payload: vec![8] });
    let d = DropSection::CustomSectionByName("drop".to_string());
    assert_eq!(d.translate_inplace(&mut m).unwrap(), true);
    assert_eq!(m.customs.len(), 1);
    assert_eq!(m.customs[0].name, "keep");
}

#[test]
fn checkstartfunc_matches_expectation() {
    let mut m = Module::empty();
    let wants_none = CheckStartFunc::new(false);
    let wants_start = CheckStartFunc::new(true);
    assert_eq!(wants_none.validate(&m).unwrap(), true);
    assert_eq!(wants_start.validate(&m).unwrap(), false);
    m.start = Some(0);
    assert_eq!(wants_none.validate(&m).unwrap(), false);
    assert_eq!(wants_start.validate(&m).unwrap(), true);
}

#[test]
fn trimstartfunc_clears_start() {
    let mut m = Module::empty();
    m.start = Some(3);
    let t = TrimStartFunc::with_preset("ewasm").unwrap();
    assert_eq!(t.translate_inplace(&mut m).unwrap(), true);
    assert_eq!(m.start, None);
    assert_eq!(t.translate_inplace(&mut m).unwrap(), false);
}

#[test]
fn remapstart_exports_former_start_as_main() {
    let mut m = Module::empty();
    m.start = Some(2);
    let t = RemapStart::with_preset("ewasm").unwrap();
    assert_eq!(t.translate_inplace(&mut m).unwrap(), true);
    assert_eq!(m.start, None);
    assert_eq!(m.exports.len(), 1);
    assert_eq!(m.exports[0].field, "main");
    assert!(matches!(m.exports[0].internal, ExportInternal::Function(2)));
}

#[test]
fn remapstart_keeps_existing_main() {
    let mut m = Module::empty();
    m.start = Some(2);
    m.exports.push(ExportEntry { field: "main".to_string(), internal: ExportInternal::Function(0) });
    let t = RemapStart::with_preset("ewasm").unwrap();
    assert_eq!(t.translate_inplace(&mut m).unwrap(), true);
    assert_eq!(m.start, None);
    assert_eq!(m.exports.len(), 1);
}

#[test]
fn trimexports_removes_strays() {
    let mut m = Module::empty();
    m.exports.push(ExportEntry { field: "main".to_string(), internal: ExportInternal::Function(0) });
    m.exports.push(ExportEntry { field: "debugHook".to_string(), internal: ExportInternal::Function(1) });
    m.exports.push(ExportEntry { field: "memory".to_string(), internal: ExportInternal::Memory(0) });
    let t = TrimExports::with_preset("ewasm").unwrap();
    assert_eq!(t.translate_inplace(&mut m).unwrap(), true);
    assert_eq!(m.exports.len(), 2);
    assert_eq!(m.exports[0].field, "main");
    assert_eq!(m.exports[1].field, "memory");
    assert_eq!(t.translate_inplace(&mut m).unwrap(), false);
}

#[test]
fn remapimports_renames_legacy_namespace() {
    let mut m = Module::empty();
    m.types.push(FuncSig { params: vec![ValType::I64], ret: None });
    m.imports.push(ImportEntry {
        module: "env".to_string(),
        field: "ethereum_useGas".to_string(),
        external: External::Function(0),
    });
    m.imports.push(ImportEntry {
        module: "env".to_string(),
        field: "somethingElse".to_string(),
        external: External::Function(0),
    });
    let t = RemapImports::with_preset("ewasm").unwrap();
    assert_eq!(t.translate_inplace(&mut m).unwrap(), true);
    assert_eq!(m.imports[0].module, "ethereum");
    assert_eq!(m.imports[0].field, "useGas");
    assert_eq!(m.imports[1].module, "env");
    assert_eq!(m.imports[1].field, "somethingElse");
    assert_eq!(t.translate_inplace(&mut m).unwrap(), false);
}

#[test]
fn repack_drops_unreferenced_types() {
    let mut m = Module::empty();
    m.types.push(unit_type());
    m.types.push(FuncSig { params: vec![ValType::I32], ret: None });
    m.types.push(FuncSig { params: vec![ValType::I64], ret: None });
    m.functions = vec![2];
    m.code = Some(vec![body(vec![Instr::End])]);
    let t = Repack::new();
    assert_eq!(t.translate_inplace(&mut m).unwrap(), true);
    assert_eq!(m.types.len(), 1);
    assert_eq!(m.types[0].params, vec![ValType::I64]);
    assert_eq!(m.functions, vec![0]);
    assert_eq!(t.translate_inplace(&mut m).unwrap(), false);
}
