use vstd::prelude::*;

use crate::ast::{
    import_views, sig_views, External, FuncSig, ImportEntry, ImportEntryV, Module, ModuleV,
};
use crate::renumber::{
    build_renumber, count_kept, filter_by_mask, lemma_count_lt_if_dropped,
    lemma_filter_by_mask_len, lemma_filter_by_mask_take_snoc, lemma_rank_below_all_kept,
    rank_below,
};
use crate::ModuleError;

verus! {

/// Whether an import entry is a function import of type `t`.
pub open spec fn import_refs_type(e: ImportEntryV, t: int) -> bool {
    match e.external {
        External::Function(x) => x == t,
        _ => false,
    }
}

/// Whether type-section entry `t` is referenced by a function import or
/// by the function section.
pub open spec fn type_used(m: ModuleV, t: int) -> bool {
    ||| exists|i: int| 0 <= i < m.imports.len() && #[trigger] import_refs_type(m.imports[i], t)
    ||| exists|i: int| 0 <= i < m.functions.len() && m.functions[i] == t
}

/// The keep-mask over the type section.
pub open spec fn types_keep_mask(m: ModuleV) -> Seq<bool> {
    Seq::new(m.types.len(), |t: int| type_used(m, t))
}

/// Whether every type-section entry is referenced.
pub open spec fn all_types_used(m: ModuleV) -> bool {
    forall|t: int| 0 <= t < m.types.len() ==> type_used(m, t)
}

/// A type reference after the unreferenced entries are dropped: kept
/// entries keep their relative order, so a reference moves down by the
/// number of dropped entries before it. Out-of-range references are
/// left alone.
pub open spec fn type_ref_renumber(mask: Seq<bool>, x: u32) -> u32 {
    if x < mask.len() {
        rank_below(mask, x as int) as u32
    } else {
        x
    }
}

/// One import entry with its type reference renumbered.
pub open spec fn spec_repack_import(mask: Seq<bool>, e: ImportEntryV) -> ImportEntryV {
    match e.external {
        External::Function(x) => ImportEntryV {
            external: External::Function(type_ref_renumber(mask, x)),
            ..e
        },
        _ => e,
    }
}

/// The module in canonical form: unreferenced type entries removed and
/// every type reference renumbered accordingly.
pub open spec fn spec_repack(m: ModuleV) -> ModuleV {
    let mask = types_keep_mask(m);
    ModuleV {
        types: filter_by_mask(m.types, mask),
        imports: m.imports.map_values(|e: ImportEntryV| spec_repack_import(mask, e)),
        functions: m.functions.map_values(|x: u32| type_ref_renumber(mask, x)),
        ..m
    }
}

/// Decides whether type-section entry `t` is referenced.
fn type_used_exec(module: &Module, t: usize) -> (r: bool)
    ensures
        r == type_used(module@, t as int),
{
    let mut i: usize = 0;
    while i < module.imports.len()
        invariant
            i <= module.imports.len(),
            forall|k: int|
                0 <= k < i ==> !import_refs_type(import_views(module.imports@)[k], t as int),
        decreases module.imports.len() - i,
    {
        proof {
            assert(import_views(module.imports@)[i as int] == module.imports@[i as int]@);
        }
        match &module.imports[i].external {
            External::Function(x) => {
                if *x as usize == t {
                    proof {
                        assert(import_refs_type(import_views(module.imports@)[i as int], t as int));
                        assert(0 <= i < module@.imports.len() && import_refs_type(
                            module@.imports[i as int],
                            t as int,
                        ));
                    }
                    return true;
                }
            },
            _ => {},
        }
        proof {
            assert(!import_refs_type(import_views(module.imports@)[i as int], t as int));
        }
        i += 1;
    }
    let mut i: usize = 0;
    while i < module.functions.len()
        invariant
            i <= module.functions.len(),
            forall|k: int| 0 <= k < i ==> module@.functions[k] != t,
            forall|k: int|
                0 <= k < module.imports@.len() ==> !import_refs_type(
                    import_views(module.imports@)[k],
                    t as int,
                ),
        decreases module.functions.len() - i,
    {
        if module.functions[i] as usize == t {
            proof {
                assert(0 <= i < module@.functions.len() && module@.functions[i as int] == t as int);
            }
            return true;
        }
        i += 1;
    }
    false
}

/// Rebuilds the module with unreferenced type entries dropped and all
/// type references renumbered; reports whether anything was dropped.
pub fn repack_module(module: &mut Module) -> (r: bool)
    requires
        old(module)@.types.len() <= 0xffff_ffff,
    ensures
        r == !all_types_used(old(module)@),
        final(module)@ == spec_repack(old(module)@),
{
    let ghost mv = old(module)@;
    let ghost mask = types_keep_mask(mv);
    let n_types = module.types.len();
    let mut keep: Vec<bool> = Vec::new();
    let mut t: usize = 0;
    while t < n_types
        invariant
            t <= n_types,
            n_types == module.types.len(),
            module@ == mv,
            mv == old(module)@,
            keep@.len() == t,
            forall|k: int| 0 <= k < t ==> keep@[k] == type_used(mv, k),
        decreases n_types - t,
    {
        let used = type_used_exec(module, t);
        keep.push(used);
        t += 1;
    }
    proof {
        assert(keep@ =~= mask);
    }
    let ren = build_renumber(&keep);
    // the surviving type entries, in order
    let mut new_types: Vec<FuncSig> = Vec::new();
    let mut t: usize = 0;
    while t < n_types
        invariant
            t <= n_types,
            n_types == module.types.len(),
            module@ == mv,
            mv == old(module)@,
            keep@ == mask,
            mask == types_keep_mask(mv),
            mask.len() == n_types,
            sig_views(new_types@) =~= filter_by_mask(mv.types.take(t as int), mask.take(t as int)),
        decreases n_types - t,
    {
        proof {
            assert(mv.types[t as int] == module.types@[t as int]@);
        }
        if keep[t] {
            let ghost prev = new_types@;
            new_types.push(module.types[t].duplicate());
            proof {
                assert(sig_views(new_types@) =~= sig_views(prev).push(mv.types[t as int]));
            }
        }
        proof {
            lemma_filter_by_mask_take_snoc(mv.types, mask, t as int);
        }
        t += 1;
    }
    let changed = new_types.len() < n_types;
    proof {
        assert(mv.types.take(n_types as int) =~= mv.types);
        assert(mask.take(n_types as int) =~= mask);
        lemma_filter_by_mask_len(mv.types, mask, n_types as int);
        if changed {
            if all_types_used(mv) {
                lemma_rank_below_all_kept(mask, n_types as int);
            }
        } else {
            assert forall|k: int| 0 <= k < n_types implies type_used(mv, k) by {
                if !mask[k] {
                    lemma_count_lt_if_dropped(mask, k);
                }
            }
        }
    }
    // imports with their type references renumbered
    let n_imports = module.imports.len();
    let mut new_imports: Vec<ImportEntry> = Vec::new();
    let mut i: usize = 0;
    while i < n_imports
        invariant
            i <= n_imports,
            n_imports == module.imports.len(),
            module@ == mv,
            mv == old(module)@,
            keep@ == mask,
            mask == types_keep_mask(mv),
            mask.len() == module.types@.len(),
            ren@.len() == mask.len(),
            forall|k: int| 0 <= k < mask.len() ==> ren@[k] == rank_below(mask, k) as u32,
            new_imports@.len() == i,
            forall|k: int|
                0 <= k < i ==> new_imports@[k]@ == spec_repack_import(
                    mask,
                    import_views(module.imports@)[k],
                ),
        decreases n_imports - i,
    {
        let imp = &module.imports[i];
        proof {
            assert(import_views(module.imports@)[i as int] == imp@);
        }
        match &imp.external {
            External::Function(x) => {
                let nx: u32 = if (*x as usize) < keep.len() {
                    ren[*x as usize]
                } else {
                    *x
                };
                new_imports.push(
                    ImportEntry {
                        module: imp.module.clone(),
                        field: imp.field.clone(),
                        external: External::Function(nx),
                    },
                );
            },
            _ => {
                new_imports.push(imp.duplicate());
            },
        }
        i += 1;
    }
    // function-section type references renumbered
    let n_funcs = module.functions.len();
    let mut new_funcs: Vec<u32> = Vec::new();
    let mut i: usize = 0;
    while i < n_funcs
        invariant
            i <= n_funcs,
            n_funcs == module.functions.len(),
            module@ == mv,
            mv == old(module)@,
            keep@ == mask,
            mask == types_keep_mask(mv),
            mask.len() == module.types@.len(),
            ren@.len() == mask.len(),
            forall|k: int| 0 <= k < mask.len() ==> ren@[k] == rank_below(mask, k) as u32,
            new_funcs@.len() == i,
            forall|k: int|
                0 <= k < i ==> new_funcs@[k] == type_ref_renumber(mask, module@.functions[k]),
        decreases n_funcs - i,
    {
        let x = module.functions[i];
        let nx: u32 = if (x as usize) < keep.len() {
            ren[x as usize]
        } else {
            x
        };
        new_funcs.push(nx);
        i += 1;
    }
    module.types = new_types;
    module.imports = new_imports;
    module.functions = new_funcs;
    proof {
        assert(import_views(module.imports@) =~= mv.imports.map_values(
            |e: ImportEntryV| spec_repack_import(mask, e),
        ));
        assert(module.functions@ =~= mv.functions.map_values(
            |x: u32| type_ref_renumber(mask, x),
        ));
        assert(module@ =~= spec_repack(old(module)@));
    }
    changed
}

/// The translator that rebuilds a module in canonical form,
/// deduplicating nothing but dropping every type entry no import or
/// function refers to.
pub struct Repack {}

impl Repack {
    pub fn new() -> (r: Repack) {
        Repack {  }
    }

    /// Canonicalizes in place; reports a change exactly when some type
    /// entry was unreferenced. Never fails.
    pub fn translate_inplace(&self, module: &mut Module) -> (r: Result<bool, ModuleError>)
        requires
            old(module)@.types.len() <= 0xffff_ffff,
        ensures
            r == Result::<bool, ModuleError>::Ok(!all_types_used(old(module)@)),
            final(module)@ == spec_repack(old(module)@),
    {
        Result::Ok(repack_module(module))
    }
}

} // verus!
