use vstd::prelude::*;

use crate::ast::{export_views, str_eq, ExportEntry, ExportEntryV, Module, ModuleV};
use crate::renumber::{
    filter_by_mask, lemma_count_lt_if_dropped, lemma_filter_by_mask_len,
    lemma_filter_by_mask_take_snoc, lemma_rank_below_all_kept,
};
use crate::verifyexports::{all_exports_allowed, ewasm_export_allowed, export_allowed};
use crate::ModuleError;

verus! {

/// The translator that removes every export not belonging to the
/// `ewasm` interface, keeping the surviving exports in order.
pub struct TrimExports {}

/// The keep-mask over a module's exports: a position is kept when its
/// entry belongs to the interface.
pub open spec fn allowed_mask(exports: Seq<ExportEntryV>) -> Seq<bool> {
    Seq::new(exports.len(), |i: int| ewasm_export_allowed(exports[i]))
}

/// The module with its disallowed exports removed.
pub open spec fn spec_trim_exports(m: ModuleV) -> ModuleV {
    ModuleV { exports: filter_by_mask(m.exports, allowed_mask(m.exports)), ..m }
}

impl TrimExports {
    /// Constructed from the `ewasm` preset; no other preset is known.
    pub fn with_preset(preset: &str) -> (r: Result<TrimExports, ModuleError>)
        ensures
            r is Ok <==> preset@ == "ewasm"@,
            r is Err ==> r->Err_0 == ModuleError::NotSupported,
    {
        if str_eq(preset, "ewasm") {
            Result::Ok(TrimExports {  })
        } else {
            Result::Err(ModuleError::NotSupported)
        }
    }

    /// Removes every export outside the allow-list; reports a change
    /// exactly when at least one entry was removed. Never fails.
    pub fn translate_inplace(&self, module: &mut Module) -> (r: Result<bool, ModuleError>)
        ensures
            r == Result::<bool, ModuleError>::Ok(!all_exports_allowed(old(module)@)),
            final(module)@ == spec_trim_exports(old(module)@),
    {
        let ghost evs = export_views(old(module).exports@);
        let ghost mask = allowed_mask(evs);
        let n = module.exports.len();
        let mut kept: Vec<ExportEntry> = Vec::new();
        let mut i: usize = 0;
        while i < n
            invariant
                i <= n,
                n == module.exports.len(),
                module@ == old(module)@,
                evs == export_views(module.exports@),
                mask == allowed_mask(evs),
                export_views(kept@) =~= filter_by_mask(evs.take(i as int), mask.take(i as int)),
            decreases n - i,
        {
            let e = &module.exports[i];
            proof {
                assert(evs[i as int] == e@);
            }
            if export_allowed(e) {
                let ghost prev = kept@;
                kept.push(e.duplicate());
                proof {
                    assert(export_views(kept@) =~= export_views(prev).push(evs[i as int]));
                }
            }
            proof {
                lemma_filter_by_mask_take_snoc(evs, mask, i as int);
            }
            i += 1;
        }
        let changed = kept.len() < n;
        proof {
            assert(evs.take(n as int) =~= evs);
            assert(mask.take(n as int) =~= mask);
            lemma_filter_by_mask_len(evs, mask, n as int);
            if changed {
                if all_exports_allowed(old(module)@) {
                    lemma_rank_below_all_kept(mask, n as int);
                }
            } else {
                assert forall|k: int| 0 <= k < n implies ewasm_export_allowed(
                    old(module)@.exports[k],
                ) by {
                    if !mask[k] {
                        lemma_count_lt_if_dropped(mask, k);
                    }
                }
            }
        }
        module.exports = kept;
        proof {
            assert(module@ =~= spec_trim_exports(old(module)@));
        }
        Result::Ok(changed)
    }
}

} // verus!
