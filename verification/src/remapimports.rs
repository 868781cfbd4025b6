use vstd::prelude::*;

use crate::ast::{import_views, str_eq, ImportEntry, ImportEntryV, Module, ModuleV};
use crate::imports::{entry_field, ewasm_list, ImportList, ImportType, ImportTypeV};
use crate::ModuleError;

verus! {

/// The translator that renames imports from the legacy flat namespace:
/// an import of `env.ethereum_<f>`, where `<f>` is a field of the
/// `ewasm` catalog, becomes an import of `ethereum.<f>` with its
/// signature untouched.
pub struct RemapImports {
    pub list: ImportList,
}

/// The catalog field `f` such that `"ethereum_" + f` equals the given
/// field name, searching the catalog in order.
pub open spec fn remap_lookup(list: Seq<ImportTypeV>, field: Seq<char>) -> Option<Seq<char>>
    decreases list.len(),
{
    if list.len() == 0 {
        Option::None
    } else if "ethereum_"@ + entry_field(list[0]) == field {
        Option::Some(entry_field(list[0]))
    } else {
        remap_lookup(list.drop_first(), field)
    }
}

/// Whether the remapper rewrites this import entry.
pub open spec fn import_remaps(list: Seq<ImportTypeV>, e: ImportEntryV) -> bool {
    e.module == "env"@ && remap_lookup(list, e.field) is Some
}

/// One import entry after the remap.
pub open spec fn spec_remap_import(list: Seq<ImportTypeV>, e: ImportEntryV) -> ImportEntryV {
    if e.module == "env"@ {
        match remap_lookup(list, e.field) {
            Option::None => e,
            Option::Some(f) => ImportEntryV {
                module: "ethereum"@,
                field: f,
                external: e.external,
            },
        }
    } else {
        e
    }
}

/// The module with every matching import renamed.
pub open spec fn spec_remap_imports(m: ModuleV, list: Seq<ImportTypeV>) -> ModuleV {
    ModuleV {
        imports: Seq::new(m.imports.len(), |i: int| spec_remap_import(list, m.imports[i])),
        ..m
    }
}

fn remap_match<'a>(list: &'a ImportList, field: &String) -> (r: Option<&'a ImportType>)
    ensures
        match r {
            Option::None => remap_lookup(list@, field@) is None,
            Option::Some(e) => remap_lookup(list@, field@) == Option::Some(entry_field(e@)),
        },
{
    let ghost lv = list@;
    proof {
        assert(lv.skip(0) =~= lv);
    }
    let mut j: usize = 0;
    while j < list.0.len()
        invariant
            j <= list.0.len(),
            lv == list@,
            remap_lookup(lv, field@) == remap_lookup(lv.skip(j as int), field@),
        decreases list.0.len() - j,
    {
        proof {
            assert(lv.skip(j as int)[0] == lv[j as int]);
            assert(lv.skip(j as int).drop_first() =~= lv.skip(j as int + 1));
        }
        let probe: String = "ethereum_".to_owned().concat(list.0[j].field().as_str());
        if probe == *field {
            proof {
                assert(lv[j as int] == list.0@[j as int]@);
            }
            return Option::Some(&list.0[j]);
        }
        j += 1;
    }
    proof {
        assert(lv.skip(j as int).len() == 0);
    }
    Option::None
}

impl RemapImports {
    /// Constructed from the `ewasm` preset; no other preset is known.
    pub fn with_preset(preset: &str) -> (r: Result<RemapImports, ModuleError>)
        ensures
            r is Ok <==> preset@ == "ewasm"@,
            r is Ok ==> r->Ok_0.list@ == ewasm_list(),
            r is Err ==> r->Err_0 == ModuleError::NotSupported,
    {
        if str_eq(preset, "ewasm") {
            match ImportList::with_preset(preset) {
                Result::Ok(list) => Result::Ok(RemapImports { list }),
                Result::Err(_) => {
                    proof {
                        assert(false);
                    }
                    Result::Err(ModuleError::NotSupported)
                },
            }
        } else {
            Result::Err(ModuleError::NotSupported)
        }
    }

    /// Renames every matching import; reports a change exactly when at
    /// least one entry matched. Never fails.
    pub fn translate_inplace(&self, module: &mut Module) -> (r: Result<bool, ModuleError>)
        ensures
            r == Result::<bool, ModuleError>::Ok(
                exists|i: int|
                    0 <= i < old(module)@.imports.len() && import_remaps(
                        self.list@,
                        old(module)@.imports[i],
                    ),
            ),
            final(module)@ == spec_remap_imports(old(module)@, self.list@),
    {
        let ghost impsv = import_views(old(module).imports@);
        let n = module.imports.len();
        let mut out: Vec<ImportEntry> = Vec::new();
        let mut any = false;
        let mut i: usize = 0;
        while i < n
            invariant
                i <= n,
                n == module.imports.len(),
                module@ == old(module)@,
                impsv == import_views(module.imports@),
                out@.len() == i,
                forall|k: int|
                    0 <= k < i ==> out@[k]@ == spec_remap_import(self.list@, impsv[k]),
                any == exists|k: int| 0 <= k < i && import_remaps(self.list@, impsv[k]),
            decreases n - i,
        {
            let imp = &module.imports[i];
            proof {
                assert(impsv[i as int] == imp@);
            }
            if str_eq(imp.module.as_str(), "env") {
                match remap_match(&self.list, &imp.field) {
                    Option::Some(e) => {
                        out.push(
                            ImportEntry {
                                module: "ethereum".to_owned(),
                                field: e.field().clone(),
                                external: imp.external,
                            },
                        );
                        proof {
                            assert(import_remaps(self.list@, impsv[i as int]));
                        }
                        any = true;
                    },
                    Option::None => {
                        out.push(imp.duplicate());
                        proof {
                            assert(!import_remaps(self.list@, impsv[i as int]));
                        }
                    },
                }
            } else {
                out.push(imp.duplicate());
                proof {
                    assert(!import_remaps(self.list@, impsv[i as int]));
                }
            }
            i += 1;
        }
        module.imports = out;
        proof {
            assert(import_views(module.imports@) =~= Seq::new(
                old(module)@.imports.len(),
                |k: int| spec_remap_import(self.list@, old(module)@.imports[k]),
            ));
            assert(module@ =~= spec_remap_imports(old(module)@, self.list@));
        }
        Result::Ok(any)
    }
}

} // verus!
