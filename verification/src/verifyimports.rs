use vstd::prelude::*;

use crate::ast::{import_views, sig_eq, External, ImportEntryV, Module, ModuleV};
use crate::imports::{
    entry_module, spec_lookup_by_field, ImportList, ImportType, ImportTypeV,
};
use crate::ModuleError;

verus! {

/// The validator that holds every import of a module against a preset
/// allow-list: the entry must be present under its field name, come from
/// the listed namespace, and carry the listed kind and signature.
pub struct VerifyImports {
    pub list: ImportList,
}

/// Whether a module import's shape agrees with an allow-list entry:
/// kinds correspond, and a function import's declared type must exist
/// and equal the listed signature.
pub open spec fn import_shape_matches(m: ModuleV, ext: External, e: ImportTypeV) -> bool {
    match (ext, e) {
        (External::Function(t), ImportTypeV::Function(_, _, sig)) => 0 <= t < m.types.len()
            && m.types[t as int] == sig,
        (External::Global(_, _), ImportTypeV::Global(_, _)) => true,
        (External::Memory(_), ImportTypeV::Memory(_, _)) => true,
        (External::Table(_), ImportTypeV::Table(_, _)) => true,
        _ => false,
    }
}

/// Whether one module import is covered by the allow-list: its field
/// name is found (first match wins), the namespaces agree, and the
/// shape matches.
pub open spec fn import_allowed(m: ModuleV, list: Seq<ImportTypeV>, imp: ImportEntryV) -> bool {
    match spec_lookup_by_field(list, imp.field) {
        Option::None => false,
        Option::Some(e) => entry_module(e) == imp.module && import_shape_matches(
            m,
            imp.external,
            e,
        ),
    }
}

/// Whether every import of the module is covered by the allow-list.
pub open spec fn all_imports_allowed(m: ModuleV, list: Seq<ImportTypeV>) -> bool {
    forall|i: int| 0 <= i < m.imports.len() ==> import_allowed(m, list, m.imports[i])
}

impl VerifyImports {
    /// Constructed from a preset naming one of the fixed import
    /// catalogs.
    pub fn with_preset(preset: &str) -> (r: Result<VerifyImports, ModuleError>)
        ensures
            preset@ == "ewasm"@ ==> r is Ok && r->Ok_0.list@ == crate::imports::ewasm_list(),
            preset@ == "eth2"@ ==> r is Ok && r->Ok_0.list@ == crate::imports::eth2_list(),
            preset@ == "debug"@ ==> r is Ok && r->Ok_0.list@ == crate::imports::debug_list(),
            preset@ == "bignum"@ ==> r is Ok && r->Ok_0.list@ == crate::imports::bignum_list(),
            preset@ == "wasi"@ ==> r is Ok && r->Ok_0.list@ == crate::imports::wasi_list(),
            r is Err ==> r->Err_0 == ModuleError::NotSupported && preset@ != "ewasm"@ && preset@
                != "eth2"@ && preset@ != "debug"@ && preset@ != "bignum"@ && preset@ != "wasi"@,
            r is Ok ==> preset@ == "ewasm"@ || preset@ == "eth2"@ || preset@ == "debug"@
                || preset@ == "bignum"@ || preset@ == "wasi"@,
    {
        match ImportList::with_preset(preset) {
            Result::Ok(list) => Result::Ok(VerifyImports { list }),
            Result::Err(e) => Result::Err(e),
        }
    }

    /// Answers whether every import entry of the module appears in the
    /// allow-list with a matching namespace, kind and signature. A
    /// missing or mismatched import yields `false`, never an error.
    pub fn validate(&self, module: &Module) -> (r: Result<bool, ModuleError>)
        ensures
            r == Result::<bool, ModuleError>::Ok(all_imports_allowed(module@, self.list@)),
    {
        let n = module.imports.len();
        let mut i: usize = 0;
        while i < n
            invariant
                i <= n,
                n == module.imports.len(),
                forall|k: int|
                    0 <= k < i ==> import_allowed(
                        module@,
                        self.list@,
                        import_views(module.imports@)[k],
                    ),
            decreases n - i,
        {
            let imp = &module.imports[i];
            proof {
                assert(import_views(module.imports@)[i as int] == imp@);
            }
            let ok: bool = match self.list.lookup_by_field(imp.field.as_str()) {
                Option::None => false,
                Option::Some(e) => {
                    let ns_ok = imp.module == *e.module();
                    let shape_ok: bool = match (&imp.external, e) {
                        (External::Function(t), ImportType::Function(_, _, sig)) => {
                            if (*t as usize) < module.types.len() {
                                sig_eq(&module.types[*t as usize], sig)
                            } else {
                                false
                            }
                        },
                        (External::Global(_, _), ImportType::Global(_, _)) => true,
                        (External::Memory(_), ImportType::Memory(_, _)) => true,
                        (External::Table(_), ImportType::Table(_, _)) => true,
                        _ => false,
                    };
                    ns_ok && shape_ok
                },
            };
            if !ok {
                proof {
                    assert(!import_allowed(module@, self.list@, module@.imports[i as int]));
                }
                return Result::Ok(false);
            }
            i += 1;
        }
        Result::Ok(true)
    }
}

} // verus!
