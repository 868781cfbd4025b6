use vstd::prelude::*;

use crate::ast::Module;
use crate::ModuleError;

verus! {

/// The validator that checks the presence or absence of a start
/// function against a boolean configuration: with `true` a module must
/// have a start-function index, with `false` it must have none.
pub struct CheckStartFunc {
    pub start_required: bool,
}

impl CheckStartFunc {
    pub fn new(require_start: bool) -> (r: CheckStartFunc)
        ensures
            r.start_required == require_start,
    {
        CheckStartFunc { start_required: require_start }
    }

    /// Answers whether the module's start-function presence matches the
    /// configured expectation. Never fails and never mutates.
    pub fn validate(&self, module: &Module) -> (r: Result<bool, ModuleError>)
        ensures
            r == Result::<bool, ModuleError>::Ok(
                (module@.start is Some) == self.start_required,
            ),
    {
        let has_start = match &module.start {
            Option::Some(_) => true,
            Option::None => false,
        };
        Result::Ok(has_start == self.start_required)
    }
}

} // verus!
