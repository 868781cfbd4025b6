use vstd::prelude::*;

use crate::ast::{export_views, str_eq, ExportEntryV, ExportInternal, Module, ModuleV};
use crate::ModuleError;

verus! {

/// Whether one export entry belongs to the `ewasm` interface: a
/// function exported as "main", or a memory exported as "memory".
pub open spec fn ewasm_export_allowed(e: ExportEntryV) -> bool {
    ||| (e.field == "main"@ && e.internal is Function)
    ||| (e.field == "memory"@ && e.internal is Memory)
}

/// Whether every export of the module belongs to the interface.
pub open spec fn all_exports_allowed(m: ModuleV) -> bool {
    forall|i: int| 0 <= i < m.exports.len() ==> ewasm_export_allowed(m.exports[i])
}

/// Decides `ewasm_export_allowed` for one entry.
pub fn export_allowed(e: &crate::ast::ExportEntry) -> (r: bool)
    ensures
        r == ewasm_export_allowed(e@),
{
    let name_main = str_eq(e.field.as_str(), "main");
    let name_memory = str_eq(e.field.as_str(), "memory");
    match e.internal {
        ExportInternal::Function(_) => name_main,
        ExportInternal::Memory(_) => name_memory,
        _ => false,
    }
}

/// The validator that holds every export of a module against the
/// `ewasm` interface allow-list.
pub struct VerifyExports {}

impl VerifyExports {
    /// Constructed from the `ewasm` preset; no other preset is known.
    pub fn with_preset(preset: &str) -> (r: Result<VerifyExports, ModuleError>)
        ensures
            r is Ok <==> preset@ == "ewasm"@,
            r is Err ==> r->Err_0 == ModuleError::NotSupported,
    {
        if str_eq(preset, "ewasm") {
            Result::Ok(VerifyExports {  })
        } else {
            Result::Err(ModuleError::NotSupported)
        }
    }

    /// Answers whether every export entry belongs to the allow-list. A
    /// stray or miskinded export yields `false`, never an error.
    pub fn validate(&self, module: &Module) -> (r: Result<bool, ModuleError>)
        ensures
            r == Result::<bool, ModuleError>::Ok(all_exports_allowed(module@)),
    {
        let n = module.exports.len();
        let mut i: usize = 0;
        while i < n
            invariant
                i <= n,
                n == module.exports.len(),
                forall|k: int|
                    0 <= k < i ==> ewasm_export_allowed(export_views(module.exports@)[k]),
            decreases n - i,
        {
            let ok = export_allowed(&module.exports[i]);
            proof {
                assert(export_views(module.exports@)[i as int] == module.exports@[i as int]@);
            }
            if !ok {
                proof {
                    assert(!ewasm_export_allowed(module@.exports[i as int]));
                }
                return Result::Ok(false);
            }
            i += 1;
        }
        Result::Ok(true)
    }
}

} // verus!
