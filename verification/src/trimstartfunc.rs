use vstd::prelude::*;

use crate::ast::{str_eq, Module, ModuleV};
use crate::ModuleError;

verus! {

/// The translator that removes the start-function designation.
pub struct TrimStartFunc {}

/// The module with its start-function designation removed.
pub open spec fn spec_trim_start(m: ModuleV) -> ModuleV {
    ModuleV { start: Option::None, ..m }
}

impl TrimStartFunc {
    /// Constructed from the `ewasm` preset; no other preset is known.
    pub fn with_preset(preset: &str) -> (r: Result<TrimStartFunc, ModuleError>)
        ensures
            r is Ok <==> preset@ == "ewasm"@,
            r is Err ==> r->Err_0 == ModuleError::NotSupported,
    {
        if str_eq(preset, "ewasm") {
            Result::Ok(TrimStartFunc {  })
        } else {
            Result::Err(ModuleError::NotSupported)
        }
    }

    /// Clears the start-function index; reports a change exactly when
    /// one was present. Never fails.
    pub fn translate_inplace(&self, module: &mut Module) -> (r: Result<bool, ModuleError>)
        ensures
            r == Result::<bool, ModuleError>::Ok(old(module)@.start is Some),
            final(module)@ == spec_trim_start(old(module)@),
    {
        let had_start = match &module.start {
            Option::Some(_) => true,
            Option::None => false,
        };
        module.start = Option::None;
        proof {
            assert(module@ =~= spec_trim_start(old(module)@));
        }
        Result::Ok(had_start)
    }
}

} // verus!
