use vstd::prelude::*;

use crate::ast::{str_eq, Module, ModuleV};
use crate::checkstartfunc::CheckStartFunc;
use crate::config::{module_ctx_views, ChiselContext, ModuleContext, ModuleContextV};
use crate::deployer::{spec_custom_deployer, spec_memory_deployer, Deployer};
use crate::dropsection::{first_custom_index, spec_drop_section, DropSection};
use crate::encode::enc_module;
use crate::remapimports::{import_remaps, spec_remap_imports, RemapImports};
use crate::remapstart::{spec_remap_start, RemapStart};
use crate::repack::{all_types_used, spec_repack, Repack};
use crate::snip::{all_locals_reachable, snip_applicable, spec_snip, Snip};
use crate::trimexports::{spec_trim_exports, TrimExports};
use crate::trimstartfunc::{spec_trim_start, TrimStartFunc};
use crate::verifyexports::{all_exports_allowed, VerifyExports};
use crate::verifyimports::{all_imports_allowed, VerifyImports};

verus! {

/// What one pass did: a validator's verdict, a translator's report of
/// whether it changed anything, or a failure to construct or run the
/// pass at all.
#[derive(Clone, Copy, Debug, PartialEq, Eq, Structural)]
pub enum ExecutionOutcome {
    ValidatedTrue,
    ValidatedFalse,
    Translated,
    NotTranslated,
    Failed,
}

/// The capability of a pass: answering a policy question, rewriting the
/// module, or both.
#[derive(Clone, Copy, Debug, PartialEq, Eq, Structural)]
pub enum ModuleKind {
    Validator,
    Translator,
    Both,
}

/// How an outcome folds into the ruleset aggregate: a rejected
/// validation and a failed pass count against it; a translator that
/// found nothing to change does not.
pub open spec fn outcome_success(o: ExecutionOutcome) -> bool {
    match o {
        ExecutionOutcome::ValidatedFalse => false,
        ExecutionOutcome::Failed => false,
        _ => true,
    }
}

/// The capability of each catalogued pass name, or nothing for an
/// unknown name. The orchestrator's dispatch and the front end's
/// reporting both follow this tag rather than pass identity.
pub open spec fn spec_pass_kind(name: Seq<char>) -> Option<ModuleKind> {
    if name == "verifyexports"@ || name == "verifyimports"@ || name == "checkstartfunc"@ {
        Option::Some(ModuleKind::Validator)
    } else if name == "trimexports"@ || name == "trimstartfunc"@ || name == "remapimports"@
        || name == "remapstart"@ || name == "deployer"@ || name == "repack"@ || name == "snip"@
        || name == "dropnames"@ {
        Option::Some(ModuleKind::Translator)
    } else {
        Option::None
    }
}

/// Looks a pass name up in the catalog's capability table.
pub fn pass_kind(name: &str) -> (r: Option<ModuleKind>)
    ensures
        r == spec_pass_kind(name@),
{
    if str_eq(name, "verifyexports") || str_eq(name, "verifyimports") || str_eq(
        name,
        "checkstartfunc",
    ) {
        Option::Some(ModuleKind::Validator)
    } else if str_eq(name, "trimexports") || str_eq(name, "trimstartfunc") || str_eq(
        name,
        "remapimports",
    ) || str_eq(name, "remapstart") || str_eq(name, "deployer") || str_eq(name, "repack")
        || str_eq(name, "snip") || str_eq(name, "dropnames") {
        Option::Some(ModuleKind::Translator)
    } else {
        Option::None
    }
}

pub open spec fn spec_validated(b: bool) -> ExecutionOutcome {
    if b {
        ExecutionOutcome::ValidatedTrue
    } else {
        ExecutionOutcome::ValidatedFalse
    }
}

pub open spec fn spec_translated(b: bool) -> ExecutionOutcome {
    if b {
        ExecutionOutcome::Translated
    } else {
        ExecutionOutcome::NotTranslated
    }
}

/// What one configured pass does to a module: the module afterwards and
/// the recorded outcome. An unknown pass name, an unknown preset, or an
/// input beyond the machine limits of a pass leaves the module alone
/// and records a failure.
#[verifier::opaque]
pub open spec fn apply_pass(m: ModuleV, name: Seq<char>, preset: Seq<char>) -> (ModuleV,
    ExecutionOutcome,
) {
    if name == "verifyexports"@ {
        if preset == "ewasm"@ {
            (m, spec_validated(all_exports_allowed(m)))
        } else {
            (m, ExecutionOutcome::Failed)
        }
    } else if name == "verifyimports"@ {
        if preset == "ewasm"@ {
            (m, spec_validated(all_imports_allowed(m, crate::imports::ewasm_list())))
        } else if preset == "eth2"@ {
            (m, spec_validated(all_imports_allowed(m, crate::imports::eth2_list())))
        } else if preset == "debug"@ {
            (m, spec_validated(all_imports_allowed(m, crate::imports::debug_list())))
        } else if preset == "bignum"@ {
            (m, spec_validated(all_imports_allowed(m, crate::imports::bignum_list())))
        } else if preset == "wasi"@ {
            (m, spec_validated(all_imports_allowed(m, crate::imports::wasi_list())))
        } else {
            (m, ExecutionOutcome::Failed)
        }
    } else if name == "checkstartfunc"@ {
        (m, spec_validated(m.start is None))
    } else if name == "trimexports"@ {
        if preset == "ewasm"@ {
            (spec_trim_exports(m), spec_translated(!all_exports_allowed(m)))
        } else {
            (m, ExecutionOutcome::Failed)
        }
    } else if name == "trimstartfunc"@ {
        if preset == "ewasm"@ {
            (spec_trim_start(m), spec_translated(m.start is Some))
        } else {
            (m, ExecutionOutcome::Failed)
        }
    } else if name == "remapimports"@ {
        if preset == "ewasm"@ {
            (
                spec_remap_imports(m, crate::imports::ewasm_list()),
                spec_translated(
                    exists|i: int|
                        0 <= i < m.imports.len() && import_remaps(
                            crate::imports::ewasm_list(),
                            m.imports[i],
                        ),
                ),
            )
        } else {
            (m, ExecutionOutcome::Failed)
        }
    } else if name == "remapstart"@ {
        if preset == "ewasm"@ {
            (spec_remap_start(m), spec_translated(m.start is Some))
        } else {
            (m, ExecutionOutcome::Failed)
        }
    } else if name == "deployer"@ {
        if preset == "memory"@ {
            if enc_module(m).len() <= 0x7fff_ffff {
                (spec_memory_deployer(enc_module(m)), ExecutionOutcome::Translated)
            } else {
                (m, ExecutionOutcome::Failed)
            }
        } else if preset == "customsection"@ {
            if enc_module(m).len() <= 0x7fff_ffff {
                (spec_custom_deployer(enc_module(m)), ExecutionOutcome::Translated)
            } else {
                (m, ExecutionOutcome::Failed)
            }
        } else {
            (m, ExecutionOutcome::Failed)
        }
    } else if name == "repack"@ {
        if m.types.len() <= 0xffff_ffff {
            (spec_repack(m), spec_translated(!all_types_used(m)))
        } else {
            (m, ExecutionOutcome::Failed)
        }
    } else if name == "snip"@ {
        if m.imports.len() + m.functions.len() <= 0xffff_ffff && m.types.len() <= 0xffff_ffff {
            (spec_snip(m), spec_translated(snip_applicable(m) && !all_locals_reachable(m)))
        } else {
            (m, ExecutionOutcome::Failed)
        }
    } else if name == "dropnames"@ {
        (
            spec_drop_section(m, "name"@),
            spec_translated(first_custom_index(m.customs, "name"@) is Some),
        )
    } else {
        (m, ExecutionOutcome::Failed)
    }
}

proof fn lemma_apply_verifyexports(m: ModuleV, name: Seq<char>, preset: Seq<char>)
    requires
        name == "verifyexports"@,
    ensures
        apply_pass(m, name, preset) == (if preset == "ewasm"@ {
            (m, spec_validated(all_exports_allowed(m)))
        } else {
            (m, ExecutionOutcome::Failed)
        }),
{
    reveal(apply_pass);
}

proof fn lemma_apply_verifyimports(m: ModuleV, name: Seq<char>, preset: Seq<char>)
    requires
        name != "verifyexports"@,
        name == "verifyimports"@,
    ensures
        apply_pass(m, name, preset) == (if preset == "ewasm"@ {
            (m, spec_validated(all_imports_allowed(m, crate::imports::ewasm_list())))
        } else if preset == "eth2"@ {
            (m, spec_validated(all_imports_allowed(m, crate::imports::eth2_list())))
        } else if preset == "debug"@ {
            (m, spec_validated(all_imports_allowed(m, crate::imports::debug_list())))
        } else if preset == "bignum"@ {
            (m, spec_validated(all_imports_allowed(m, crate::imports::bignum_list())))
        } else if preset == "wasi"@ {
            (m, spec_validated(all_imports_allowed(m, crate::imports::wasi_list())))
        } else {
            (m, ExecutionOutcome::Failed)
        }),
{
    reveal(apply_pass);
}

proof fn lemma_apply_checkstartfunc(m: ModuleV, name: Seq<char>, preset: Seq<char>)
    requires
        name != "verifyexports"@,
        name != "verifyimports"@,
        name == "checkstartfunc"@,
    ensures
        apply_pass(m, name, preset) == (m, spec_validated(m.start is None)),
{
    reveal(apply_pass);
}

proof fn lemma_apply_trimexports(m: ModuleV, name: Seq<char>, preset: Seq<char>)
    requires
        name != "verifyexports"@,
        name != "verifyimports"@,
        name != "checkstartfunc"@,
        name == "trimexports"@,
    ensures
        apply_pass(m, name, preset) == (if preset == "ewasm"@ {
            (spec_trim_exports(m), spec_translated(!all_exports_allowed(m)))
        } else {
            (m, ExecutionOutcome::Failed)
        }),
{
    reveal(apply_pass);
}

proof fn lemma_apply_trimstartfunc(m: ModuleV, name: Seq<char>, preset: Seq<char>)
    requires
        name != "verifyexports"@,
        name != "verifyimports"@,
        name != "checkstartfunc"@,
        name != "trimexports"@,
        name == "trimstartfunc"@,
    ensures
        apply_pass(m, name, preset) == (if preset == "ewasm"@ {
            (spec_trim_start(m), spec_translated(m.start is Some))
        } else {
            (m, ExecutionOutcome::Failed)
        }),
{
    reveal(apply_pass);
}

proof fn lemma_apply_remapimports(m: ModuleV, name: Seq<char>, preset: Seq<char>)
    requires
        name != "verifyexports"@,
        name != "verifyimports"@,
        name != "checkstartfunc"@,
        name != "trimexports"@,
        name != "trimstartfunc"@,
        name == "remapimports"@,
    ensures
        apply_pass(m, name, preset) == (if preset == "ewasm"@ {
            (
                spec_remap_imports(m, crate::imports::ewasm_list()),
                spec_translated(
                    exists|i: int|
                        0 <= i < m.imports.len() && import_remaps(
                            crate::imports::ewasm_list(),
                            m.imports[i],
                        ),
                ),
            )
        } else {
            (m, ExecutionOutcome::Failed)
        }),
{
    reveal(apply_pass);
}

proof fn lemma_apply_remapstart(m: ModuleV, name: Seq<char>, preset: Seq<char>)
    requires
        name != "verifyexports"@,
        name != "verifyimports"@,
        name != "checkstartfunc"@,
        name != "trimexports"@,
        name != "trimstartfunc"@,
        name != "remapimports"@,
        name == "remapstart"@,
    ensures
        apply_pass(m, name, preset) == (if preset == "ewasm"@ {
            (spec_remap_start(m), spec_translated(m.start is Some))
        } else {
            (m, ExecutionOutcome::Failed)
        }),
{
    reveal(apply_pass);
}

proof fn lemma_apply_deployer(m: ModuleV, name: Seq<char>, preset: Seq<char>)
    requires
        name != "verifyexports"@,
        name != "verifyimports"@,
        name != "checkstartfunc"@,
        name != "trimexports"@,
        name != "trimstartfunc"@,
        name != "remapimports"@,
        name != "remapstart"@,
        name == "deployer"@,
    ensures
        apply_pass(m, name, preset) == (if preset == "memory"@ {
            if enc_module(m).len() <= 0x7fff_ffff {
                (spec_memory_deployer(enc_module(m)), ExecutionOutcome::Translated)
            } else {
                (m, ExecutionOutcome::Failed)
            }
        } else if preset == "customsection"@ {
            if enc_module(m).len() <= 0x7fff_ffff {
                (spec_custom_deployer(enc_module(m)), ExecutionOutcome::Translated)
            } else {
                (m, ExecutionOutcome::Failed)
            }
        } else {
            (m, ExecutionOutcome::Failed)
        }),
{
    reveal(apply_pass);
}

proof fn lemma_apply_repack(m: ModuleV, name: Seq<char>, preset: Seq<char>)
    requires
        name != "verifyexports"@,
        name != "verifyimports"@,
        name != "checkstartfunc"@,
        name != "trimexports"@,
        name != "trimstartfunc"@,
        name != "remapimports"@,
        name != "remapstart"@,
        name != "deployer"@,
        name == "repack"@,
    ensures
        apply_pass(m, name, preset) == (if m.types.len() <= 0xffff_ffff {
            (spec_repack(m), spec_translated(!all_types_used(m)))
        } else {
            (m, ExecutionOutcome::Failed)
        }),
{
    reveal(apply_pass);
}

proof fn lemma_apply_snip(m: ModuleV, name: Seq<char>, preset: Seq<char>)
    requires
        name != "verifyexports"@,
        name != "verifyimports"@,
        name != "checkstartfunc"@,
        name != "trimexports"@,
        name != "trimstartfunc"@,
        name != "remapimports"@,
        name != "remapstart"@,
        name != "deployer"@,
        name != "repack"@,
        name == "snip"@,
    ensures
        apply_pass(m, name, preset) == (if m.imports.len() + m.functions.len() <= 0xffff_ffff && m.types.len()
            <= 0xffff_ffff {
            (spec_snip(m), spec_translated(snip_applicable(m) && !all_locals_reachable(m)))
        } else {
            (m, ExecutionOutcome::Failed)
        }),
{
    reveal(apply_pass);
}

proof fn lemma_apply_dropnames(m: ModuleV, name: Seq<char>, preset: Seq<char>)
    requires
        name != "verifyexports"@,
        name != "verifyimports"@,
        name != "checkstartfunc"@,
        name != "trimexports"@,
        name != "trimstartfunc"@,
        name != "remapimports"@,
        name != "remapstart"@,
        name != "deployer"@,
        name != "repack"@,
        name != "snip"@,
        name == "dropnames"@,
    ensures
        apply_pass(m, name, preset) == (
            spec_drop_section(m, "name"@),
            spec_translated(first_custom_index(m.customs, "name"@) is Some),
        ),
{
    reveal(apply_pass);
}

proof fn lemma_apply_unknown(m: ModuleV, name: Seq<char>, preset: Seq<char>)
    requires
        name != "verifyexports"@,
        name != "verifyimports"@,
        name != "checkstartfunc"@,
        name != "trimexports"@,
        name != "trimstartfunc"@,
        name != "remapimports"@,
        name != "remapstart"@,
        name != "deployer"@,
        name != "repack"@,
        name != "snip"@,
        name != "dropnames"@,
    ensures
        apply_pass(m, name, preset) == (m, ExecutionOutcome::Failed),
{
    reveal(apply_pass);
}
/// Runs one configured pass against the module: constructs the pass
/// from its name and preset, dispatches on its capability, applies the
/// in-place-or-replacement protocol for translators, and maps the
/// result to an outcome. Construction failures and unknown names only
/// fail this pass.
#[verifier::rlimit(100)]
pub fn execute_module(context: &ModuleContext, module: &mut Module) -> (r: ExecutionOutcome)
    ensures
        final(module)@ == apply_pass(
            old(module)@,
            context@.module_name,
            context@.preset,
        ).0,
        r == apply_pass(old(module)@, context@.module_name, context@.preset).1,
{
    let (name, preset) = context.fields();
    let name = name.as_str();
    let preset = preset.as_str();
    if str_eq(name, "verifyexports") {
        proof {
            lemma_apply_verifyexports(module@, context@.module_name, context@.preset);
        }
        match VerifyExports::with_preset(preset) {
            Result::Ok(v) => match v.validate(module) {
                Result::Ok(b) => validated(b),
                Result::Err(_) => ExecutionOutcome::ValidatedFalse,
            },
            Result::Err(_) => ExecutionOutcome::Failed,
        }
    } else if str_eq(name, "verifyimports") {
        proof {
            lemma_apply_verifyimports(module@, context@.module_name, context@.preset);
        }
        match VerifyImports::with_preset(preset) {
            Result::Ok(v) => match v.validate(module) {
                Result::Ok(b) => validated(b),
                Result::Err(_) => ExecutionOutcome::ValidatedFalse,
            },
            Result::Err(_) => ExecutionOutcome::Failed,
        }
    } else if str_eq(name, "checkstartfunc") {
        proof {
            lemma_apply_checkstartfunc(module@, context@.module_name, context@.preset);
        }
        let v = CheckStartFunc::new(false);
        match v.validate(module) {
            Result::Ok(b) => validated(b),
            Result::Err(_) => ExecutionOutcome::ValidatedFalse,
        }
    } else if str_eq(name, "trimexports") {
        proof {
            lemma_apply_trimexports(module@, context@.module_name, context@.preset);
        }
        match TrimExports::with_preset(preset) {
            Result::Ok(t) => match t.translate_inplace(module) {
                Result::Ok(b) => translated(b),
                Result::Err(_) => ExecutionOutcome::Failed,
            },
            Result::Err(_) => ExecutionOutcome::Failed,
        }
    } else if str_eq(name, "trimstartfunc") {
        proof {
            lemma_apply_trimstartfunc(module@, context@.module_name, context@.preset);
        }
        match TrimStartFunc::with_preset(preset) {
            Result::Ok(t) => match t.translate_inplace(module) {
                Result::Ok(b) => translated(b),
                Result::Err(_) => ExecutionOutcome::Failed,
            },
            Result::Err(_) => ExecutionOutcome::Failed,
        }
    } else if str_eq(name, "remapimports") {
        proof {
            lemma_apply_remapimports(module@, context@.module_name, context@.preset);
        }
        match RemapImports::with_preset(preset) {
            Result::Ok(t) => match t.translate_inplace(module) {
                Result::Ok(b) => translated(b),
                Result::Err(_) => ExecutionOutcome::Failed,
            },
            Result::Err(_) => ExecutionOutcome::Failed,
        }
    } else if str_eq(name, "remapstart") {
        proof {
            lemma_apply_remapstart(module@, context@.module_name, context@.preset);
        }
        match RemapStart::with_preset(preset) {
            Result::Ok(t) => match t.translate_inplace(module) {
                Result::Ok(b) => translated(b),
                Result::Err(_) => ExecutionOutcome::Failed,
            },
            Result::Err(_) => ExecutionOutcome::Failed,
        }
    } else if str_eq(name, "deployer") {
        proof {
            lemma_apply_deployer(module@, context@.module_name, context@.preset);
            reveal_strlit("memory");
            reveal_strlit("customsection");
            assert("memory"@[0] == 'm' && "customsection"@[0] == 'c');
            assert("memory"@ != "customsection"@);
        }
        match Deployer::with_preset(preset) {
            Result::Ok(d) => {
                let payload = crate::encode::encode_module(module);
                if payload.len() <= 0x7fff_ffff {
                    match translate_module(&d, module) {
                        Result::Ok(b) => translated(b),
                        Result::Err(_) => ExecutionOutcome::Failed,
                    }
                } else {
                    ExecutionOutcome::Failed
                }
            },
            Result::Err(_) => ExecutionOutcome::Failed,
        }
    } else if str_eq(name, "repack") {
        proof {
            lemma_apply_repack(module@, context@.module_name, context@.preset);
        }
        let t = Repack::new();
        if module.types.len() <= 0xffff_ffff {
            proof {
                assert(module@.types.len() <= 0xffff_ffff);
            }
            match t.translate_inplace(module) {
                Result::Ok(b) => translated(b),
                Result::Err(_) => ExecutionOutcome::Failed,
            }
        } else {
            ExecutionOutcome::Failed
        }
    } else if str_eq(name, "snip") {
        proof {
            lemma_apply_snip(module@, context@.module_name, context@.preset);
        }
        let t = Snip::new();
        if module.imports.len() <= 0xffff_ffff && module.functions.len() <= 0xffff_ffff
            - module.imports.len() && module.types.len() <= 0xffff_ffff {
            proof {
                assert(module@.imports.len() + module@.functions.len() <= 0xffff_ffff);
                assert(module@.types.len() <= 0xffff_ffff);
            }
            match t.translate_inplace(module) {
                Result::Ok(b) => translated(b),
                Result::Err(_) => ExecutionOutcome::Failed,
            }
        } else {
            ExecutionOutcome::Failed
        }
    } else if str_eq(name, "dropnames") {
        proof {
            lemma_apply_dropnames(module@, context@.module_name, context@.preset);
        }
        let t = DropSection::NamesSection;
        match t.translate_inplace(module) {
            Result::Ok(b) => translated(b),
            Result::Err(_) => ExecutionOutcome::Failed,
        }
    } else {
        proof {
            lemma_apply_unknown(module@, context@.module_name, context@.preset);
        }
        ExecutionOutcome::Failed
    }
}

fn validated(b: bool) -> (r: ExecutionOutcome)
    ensures
        r == spec_validated(b),
{
    if b {
        ExecutionOutcome::ValidatedTrue
    } else {
        ExecutionOutcome::ValidatedFalse
    }
}

fn translated(b: bool) -> (r: ExecutionOutcome)
    ensures
        r == spec_translated(b),
{
    if b {
        ExecutionOutcome::Translated
    } else {
        ExecutionOutcome::NotTranslated
    }
}

/// The in-place-or-replacement protocol for a translator that cannot
/// rewrite in place: attempt the in-place rewrite; on refusal fall back
/// to whole replacement and swap the module for the fresh result. The
/// module is never left partially rewritten.
fn translate_module(translator: &Deployer, module: &mut Module) -> (r: Result<bool, crate::ModuleError>)
    requires
        enc_module(old(module)@).len() <= 0x7fff_ffff,
    ensures
        r == Result::<bool, crate::ModuleError>::Ok(true),
        final(module)@ == (match translator {
            Deployer::Memory => spec_memory_deployer(enc_module(old(module)@)),
            Deployer::CustomSection => spec_custom_deployer(enc_module(old(module)@)),
        }),
{
    match translator.translate_inplace(module) {
        Result::Ok(b) => Result::Ok(b),
        Result::Err(_) => {
            match translator.translate(module) {
                Result::Ok(Option::Some(replacement)) => {
                    *module = replacement;
                    Result::Ok(true)
                },
                Result::Ok(Option::None) => Result::Ok(false),
                Result::Err(e) => Result::Err(e),
            }
        },
    }
}

/// What a whole ruleset reports: the per-pass outcome records in order,
/// their aggregate, and whether the module now differs from the
/// snapshot taken before the first pass.
pub struct RulesetOutcome {
    pub outcomes: Vec<ExecutionOutcome>,
    pub success: bool,
    pub mutated: bool,
}

/// The module and outcome list after running a list of configured
/// passes in order, each seeing the mutations of those before it.
pub open spec fn run_passes(m: ModuleV, ctxs: Seq<ModuleContextV>) -> (ModuleV, Seq<
    ExecutionOutcome,
>)
    decreases ctxs.len(),
{
    if ctxs.len() == 0 {
        (m, Seq::empty())
    } else {
        let step = apply_pass(m, ctxs[0].module_name, ctxs[0].preset);
        let rest = run_passes(step.0, ctxs.drop_first());
        (rest.0, seq![step.1] + rest.1)
    }
}

/// The ruleset aggregate: the conjunction over all outcomes.
pub open spec fn all_success(os: Seq<ExecutionOutcome>) -> bool {
    forall|i: int| 0 <= i < os.len() ==> outcome_success(os[i])
}

/// Runs every configured pass of a ruleset, in order, against the one
/// module; reports the outcome records, their aggregate, and whether
/// the module changed relative to the pre-pipeline snapshot.
#[verifier::rlimit(100)]
pub fn run_ruleset(ctx: &ChiselContext, module: &mut Module) -> (r: RulesetOutcome)
    ensures
        final(module)@ == run_passes(old(module)@, ctx@.modules).0,
        r.outcomes@ == run_passes(old(module)@, ctx@.modules).1,
        r.success == all_success(r.outcomes@),
        r.mutated == (final(module)@ != old(module)@),
{
    let snapshot = module.duplicate();
    let ghost ctxs = ctx@.modules;
    let passes = ctx.get_modules();
    proof {
        assert(ctxs.skip(0) =~= ctxs);
    }
    let mut outcomes: Vec<ExecutionOutcome> = Vec::new();
    let mut success = true;
    let mut i: usize = 0;
    while i < passes.len()
        invariant
            i <= passes.len(),
            snapshot@ == old(module)@,
            ctxs == module_ctx_views(passes@),
            run_passes(old(module)@, ctxs).0 == run_passes(module@, ctxs.skip(i as int)).0,
            run_passes(old(module)@, ctxs).1 == outcomes@ + run_passes(
                module@,
                ctxs.skip(i as int),
            ).1,
            success == all_success(outcomes@),
        decreases passes.len() - i,
    {
        proof {
            assert(ctxs.skip(i as int)[0] == ctxs[i as int]);
            assert(ctxs.skip(i as int).drop_first() =~= ctxs.skip(i as int + 1));
            assert(ctxs[i as int] == passes@[i as int]@);
        }
        let ghost before = module@;
        let outcome = execute_module(&passes[i], module);
        let ghost prev_out = outcomes@;
        let ghost prev_success = success;
        outcomes.push(outcome);
        if !outcome_ok(&outcome) {
            success = false;
        }
        proof {
            assert(outcomes@ =~= prev_out.push(outcome));
            let step = apply_pass(before, ctxs[i as int].module_name, ctxs[i as int].preset);
            assert(module@ == step.0 && outcome == step.1);
            assert(prev_out + (seq![step.1] + run_passes(module@, ctxs.skip(i as int + 1)).1)
                =~= outcomes@ + run_passes(module@, ctxs.skip(i as int + 1)).1);
            if success {
                assert forall|k: int| 0 <= k < outcomes@.len() implies outcome_success(
                    outcomes@[k],
                ) by {
                    if k < prev_out.len() {
                        assert(outcome_success(prev_out[k]));
                    } else {
                        assert(outcomes@[k] == outcome);
                    }
                }
            } else {
                if !outcome_success(outcome) {
                    assert(!outcome_success(outcomes@[prev_out.len() as int]));
                } else {
                    let bad = choose|k: int|
                        0 <= k < prev_out.len() && !outcome_success(prev_out[k]);
                    assert(!outcome_success(outcomes@[bad]));
                }
            }
            assert(success == all_success(outcomes@));
        }
        i += 1;
    }
    proof {
        assert(ctxs.skip(i as int).len() == 0);
        assert(outcomes@ + Seq::<ExecutionOutcome>::empty() =~= outcomes@);
    }
    let unchanged = module.structurally_equal(&snapshot);
    RulesetOutcome { outcomes, success, mutated: !unchanged }
}

fn outcome_ok(o: &ExecutionOutcome) -> (r: bool)
    ensures
        r == outcome_success(*o),
{
    match o {
        ExecutionOutcome::ValidatedFalse => false,
        ExecutionOutcome::Failed => false,
        _ => true,
    }
}

} // verus!
