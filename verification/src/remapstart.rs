use vstd::prelude::*;

use crate::ast::{export_views, str_eq, ExportEntry, ExportEntryV, ExportInternal, Module, ModuleV};
use crate::ModuleError;

verus! {

/// The translator that turns a start-function designation into an
/// ordinary entry point: it clears the start index and, when the module
/// exports no "main" yet, exports the former start function under that
/// name.
pub struct RemapStart {}

/// Whether some export carries the field name "main".
pub open spec fn has_main_export(exports: Seq<ExportEntryV>) -> bool {
    exists|i: int| 0 <= i < exports.len() && exports[i].field == "main"@
}

/// The module after the start remap.
pub open spec fn spec_remap_start(m: ModuleV) -> ModuleV {
    match m.start {
        Option::None => m,
        Option::Some(s) => if has_main_export(m.exports) {
            ModuleV { start: Option::None, ..m }
        } else {
            ModuleV {
                start: Option::None,
                exports: m.exports.push(
                    ExportEntryV { field: "main"@, internal: ExportInternal::Function(s) },
                ),
                ..m
            }
        },
    }
}

impl RemapStart {
    /// Constructed from the `ewasm` preset; no other preset is known.
    pub fn with_preset(preset: &str) -> (r: Result<RemapStart, ModuleError>)
        ensures
            r is Ok <==> preset@ == "ewasm"@,
            r is Err ==> r->Err_0 == ModuleError::NotSupported,
    {
        if str_eq(preset, "ewasm") {
            Result::Ok(RemapStart {  })
        } else {
            Result::Err(ModuleError::NotSupported)
        }
    }

    /// Performs the remap; reports a change exactly when the module had
    /// a start-function designation. Never fails.
    pub fn translate_inplace(&self, module: &mut Module) -> (r: Result<bool, ModuleError>)
        ensures
            r == Result::<bool, ModuleError>::Ok(old(module)@.start is Some),
            final(module)@ == spec_remap_start(old(module)@),
    {
        let start = match &module.start {
            Option::None => {
                proof {
                    assert(module@ =~= spec_remap_start(old(module)@));
                }
                return Result::Ok(false);
            },
            Option::Some(s) => *s,
        };
        let n = module.exports.len();
        let mut found = false;
        let mut i: usize = 0;
        while i < n
            invariant
                i <= n,
                n == module.exports.len(),
                module@ == old(module)@,
                old(module)@.start == Option::Some(start),
                found ==> has_main_export(module@.exports),
                !found ==> forall|k: int|
                    0 <= k < i ==> export_views(module.exports@)[k].field != "main"@,
            decreases n - i,
        {
            if !found && str_eq(module.exports[i].field.as_str(), "main") {
                proof {
                    assert(export_views(module.exports@)[i as int] == module.exports@[i as int]@);
                }
                found = true;
            }
            i += 1;
        }
        module.start = Option::None;
        if !found {
            proof {
                assert(!has_main_export(old(module)@.exports));
            }
            let ghost prev = module@;
            module.exports.push(
                ExportEntry { field: "main".to_owned(), internal: ExportInternal::Function(start) },
            );
            proof {
                assert(export_views(module.exports@) =~= prev.exports.push(
                    ExportEntryV { field: "main"@, internal: ExportInternal::Function(start) },
                ));
                assert(module@ =~= spec_remap_start(old(module)@));
            }
        } else {
            proof {
                assert(module@ =~= spec_remap_start(old(module)@));
            }
        }
        Result::Ok(true)
    }
}

} // verus!
