use chisel::ast::{FuncSig, ImportEntry, External, Module, ValType};
use chisel::imports::{ImportList, ImportType};
use chisel::verifyimports::VerifyImports;
use chisel::ModuleError;

#[test]
fn lookup_by_field_ewasm_good() {
    let list = ImportList::with_preset("ewasm").unwrap();
    assert!(list.lookup_by_field("useGas").is_some());
}

#[test]
fn lookup_by_field_ewasm_not_found() {
    let list = ImportList::with_preset("ewasm").unwrap();
    assert!(list.lookup_by_field("foo").is_none());
}

#[test]
fn preset_catalog_sizes() {
    assert_eq!(ImportList::with_preset("ewasm").unwrap().entries().len(), 33);
    assert_eq!(ImportList::with_preset("eth2").unwrap().entries().len(), 5);
    assert_eq!(ImportList::with_preset("debug").unwrap().entries().len(), 6);
    assert_eq!(ImportList::with_preset("bignum").unwrap().entries().len(), 2);
    assert_eq!(ImportList::with_preset("wasi").unwrap().entries().len(), 45);
    assert_eq!(ImportList::with_preset("nope").err().unwrap(), ModuleError::NotSupported);
}

#[test]
fn lookup_finds_exact_signature() {
    let list = ImportList::with_preset("ewasm").unwrap();
    let entry = list.lookup_by_field("useGas").unwrap();
    assert_eq!(entry.module(), "ethereum");
    assert_eq!(entry.field(), "useGas");
    let sig = entry.signature().unwrap();
    assert_eq!(sig.params, vec![ValType::I64]);
    assert_eq!(sig.ret, None);
}

#[test]
fn list_construction_and_concatenation() {
    let mut list = ImportList::new();
    assert_eq!(list.entries().len(), 0);
    let other = ImportList::with_entries(vec![ImportType::Global(
        "env".to_string(),
        "g".to_string(),
    )]);
    list.concatenate(other);
    assert_eq!(list.entries().len(), 1);
    assert_eq!(list.lookup_by_field("g").unwrap().module(), "env");
    let inner = list.into_inner();
    assert_eq!(inner.len(), 1);
}

fn use_gas_module(param: ValType) -> Module {
    let mut m = Module::empty();
    m.types.push(FuncSig { params: vec![param], ret: None });
    m.imports.push(ImportEntry {
        module: "ethereum".to_string(),
        field: "useGas".to_string(),
        external: External::Function(0),
    });
    m
}

#[test]
fn verifyimports_use_gas_good() {
    let m = use_gas_module(ValType::I64);
    let v = VerifyImports::with_preset("ewasm").unwrap();
    assert_eq!(v.validate(&m).unwrap(), true);
}

#[test]
fn verifyimports_use_gas_bad_signature() {
    let m = use_gas_module(ValType::I32);
    let v = VerifyImports::with_preset("ewasm").unwrap();
    assert_eq!(v.validate(&m).unwrap(), false);
}

#[test]
fn verifyimports_unknown_field_rejected() {
    let mut m = Module::empty();
    m.imports.push(ImportEntry {
        module: "ethereum".to_string(),
        field: "notInCatalog".to_string(),
        external: External::Global(ValType::I32, false),
    });
    let v = VerifyImports::with_preset("ewasm").unwrap();
    assert_eq!(v.validate(&m).unwrap(), false);
}

#[test]
fn verifyimports_wrong_namespace_rejected() {
    let mut m = Module::empty();
    m.types.push(FuncSig { params: vec![ValType::I64], ret: None });
    m.imports.push(ImportEntry {
        module: "env".to_string(),
        field: "useGas".to_string(),
        external: External::Function(0),
    });
    let v = VerifyImports::with_preset("ewasm").unwrap();
    assert_eq!(v.validate(&m).unwrap(), false);
}

#[test]
fn verifyimports_empty_module_passes() {
    let m = Module::empty();
    let v = VerifyImports::with_preset("ewasm").unwrap();
    assert_eq!(v.validate(&m).unwrap(), true);
}
