use chisel::ast::{ExportEntry, ExportInternal, External, FuncSig, ImportEntry, Module, ValType};
use chisel::config::{ChiselContext, ModuleContext};
use chisel::pipeline::{execute_module, run_ruleset, ExecutionOutcome};

fn pass(name: &str, preset: &str) -> ModuleContext {
    ModuleContext { module_name: name.to_string(), preset: preset.to_string() }
}

fn ruleset(passes: Vec<ModuleContext>) -> ChiselContext {
    ChiselContext {
        ruleset_name: "test".to_string(),
        file: "in.wasm".to_string(),
        outfile: None,
        modules: passes,
    }
}

#[test]
fn aggregate_fails_on_validator_even_if_translator_is_noop() {
    // A module whose one import is not in the ewasm catalog, and whose
    // exports are already clean: verifyimports fails, trimexports finds
    // nothing to do, and the ruleset still aggregates to failure
    // without a mutation.
    let mut m = Module::empty();
    m.types.push(FuncSig { params: vec![ValType::I32], ret: None });
    m.imports.push(ImportEntry {
        module: "ethereum".to_string(),
        field: "useGas".to_string(),
        external: External::Function(0),
    });
    m.exports.push(ExportEntry { field: "main".to_string(), internal: ExportInternal::Function(0) });
    let ctx = ruleset(vec![pass("verifyimports", "ewasm"), pass("trimexports", "ewasm")]);
    let r = run_ruleset(&ctx, &mut m);
    assert_eq!(
        r.outcomes,
        vec![ExecutionOutcome::ValidatedFalse, ExecutionOutcome::NotTranslated],
    );
    assert_eq!(r.success, false);
    assert_eq!(r.mutated, false);
}

#[test]
fn aggregate_succeeds_and_reports_mutation() {
    // trimexports removes a stray export (a change), and the start-func
    // check passes on a start-free module: overall success with a
    // mutation that asks for a write-back.
    let mut m = Module::empty();
    m.exports.push(ExportEntry { field: "stray".to_string(), internal: ExportInternal::Global(0) });
    let ctx = ruleset(vec![pass("trimexports", "ewasm"), pass("checkstartfunc", "ewasm")]);
    let r = run_ruleset(&ctx, &mut m);
    assert_eq!(
        r.outcomes,
        vec![ExecutionOutcome::Translated, ExecutionOutcome::ValidatedTrue],
    );
    assert_eq!(r.success, true);
    assert_eq!(r.mutated, true);
    assert_eq!(m.exports.len(), 0);
}

#[test]
fn unknown_pass_name_fails_only_that_pass() {
    let mut m = Module::empty();
    let ctx = ruleset(vec![pass("nonsense", "ewasm"), pass("checkstartfunc", "ewasm")]);
    let r = run_ruleset(&ctx, &mut m);
    assert_eq!(r.outcomes, vec![ExecutionOutcome::Failed, ExecutionOutcome::ValidatedTrue]);
    assert_eq!(r.success, false);
    assert_eq!(r.mutated, false);
}

#[test]
fn unknown_preset_fails_construction() {
    let mut m = Module::empty();
    let outcome = execute_module(&pass("trimexports", "wat"), &mut m);
    assert_eq!(outcome, ExecutionOutcome::Failed);
}

#[test]
fn deployer_pass_replaces_module() {
    let mut m = Module::empty();
    let outcome = execute_module(&pass("deployer", "memory"), &mut m);
    assert_eq!(outcome, ExecutionOutcome::Translated);
    // the replacement exports "main" and "memory"
    assert_eq!(m.exports.len(), 2);
    assert_eq!(m.exports[0].field, "main");
    assert_eq!(m.exports[1].field, "memory");
    assert_eq!(m.data.len(), 1);
}

#[test]
fn dropnames_pass_through_pipeline() {
    let mut m = Module::empty();
    m.customs.push(chisel::ast::CustomSection { name: "name".to_string(), payload: vec![0] });
    let ctx = ruleset(vec![pass("dropnames", ""), pass("dropnames", "")]);
    let r = run_ruleset(&ctx, &mut m);
    assert_eq!(r.outcomes, vec![ExecutionOutcome::Translated, ExecutionOutcome::NotTranslated]);
    assert_eq!(r.success, true);
    assert_eq!(r.mutated, true);
}

#[test]
fn snip_after_trim_sees_reduced_root_set() {
    // Passes run in configured order against the same module: once
    // trimexports has removed the stray export, the function it rooted
    // becomes unreachable and the eliminator removes it.
    let mut m = Module::empty();
    m.types.push(FuncSig { params: Vec::new(), ret: None });
    m.functions = vec![0, 0];
    m.code = Some(vec![
        chisel::ast::FuncBody { locals: Vec::new(), code: vec![chisel::instr::Instr::End] },
        chisel::ast::FuncBody { locals: Vec::new(), code: vec![chisel::instr::Instr::End] },
    ]);
    m.exports.push(ExportEntry { field: "main".to_string(), internal: ExportInternal::Function(0) });
    m.exports.push(ExportEntry { field: "extra".to_string(), internal: ExportInternal::Function(1) });
    let ctx = ruleset(vec![pass("trimexports", "ewasm"), pass("snip", "")]);
    let r = run_ruleset(&ctx, &mut m);
    assert_eq!(r.outcomes, vec![ExecutionOutcome::Translated, ExecutionOutcome::Translated]);
    assert_eq!(r.success, true);
    assert_eq!(m.functions.len(), 1);
    assert_eq!(m.exports.len(), 1);
}
