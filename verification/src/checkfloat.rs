use vstd::prelude::*;

use crate::ast::{body_views, FuncBodyV, Module, ModuleV};
use crate::instr::{instr_is_float, is_float_instr};
use crate::ModuleError;

verus! {

/// Whether any instruction of one function body belongs to the
/// floating-point categories.
pub open spec fn body_has_float(b: FuncBodyV) -> bool {
    exists|i: int| 0 <= i < b.code.len() && is_float_instr(b.code[i])
}

/// Whether any function body of the module holds a floating-point
/// instruction. Meaningful only when the module has a code section.
pub open spec fn module_has_float(m: ModuleV) -> bool {
    &&& m.code is Some
    &&& exists|j: int|
        0 <= j < m.code->Some_0.len() && body_has_float(m.code->Some_0[j])
}

/// The validator pass that rejects any module touching floating point:
/// float arithmetic is not bit-reproducible across hosts, so
/// deterministic-execution environments refuse modules that use it.
pub struct CheckFloat {}

impl CheckFloat {
    pub fn new() -> (r: CheckFloat) {
        CheckFloat {  }
    }

    /// Scans every instruction of every function body. Fails with
    /// `NotFound` exactly when the module has no code section; otherwise
    /// answers `true` exactly when no instruction of any body is a
    /// floating-point instruction.
    pub fn validate(&self, module: &Module) -> (r: Result<bool, ModuleError>)
        ensures
            module@.code is None <==> r == Result::<bool, ModuleError>::Err(ModuleError::NotFound),
            module@.code is Some ==> r == Result::<bool, ModuleError>::Ok(
                !module_has_float(module@),
            ),
    {
        match &module.code {
            Option::None => Result::Err(ModuleError::NotFound),
            Option::Some(bodies) => {
                proof {
                    assert(module@.code == Option::Some(body_views(bodies@)));
                }
                let n = bodies.len();
                let mut j: usize = 0;
                while j < n
                    invariant
                        j <= n,
                        n == bodies.len(),
                        module@.code == Option::Some(body_views(bodies@)),
                        forall|k: int| 0 <= k < j ==> !body_has_float(body_views(bodies@)[k]),
                    decreases n - j,
                {
                    let body = &bodies[j];
                    let m2 = body.code.len();
                    let mut i: usize = 0;
                    while i < m2
                        invariant
                            i <= m2,
                            j < n,
                            n == bodies.len(),
                            m2 == body.code.len(),
                            *body == bodies@[j as int],
                            module@.code == Option::Some(body_views(bodies@)),
                            forall|k: int| 0 <= k < i ==> !is_float_instr(body.code@[k]),
                        decreases m2 - i,
                    {
                        if instr_is_float(&body.code[i]) {
                            proof {
                                assert(body_views(bodies@)[j as int] == body@);
                                assert(0 <= i < body@.code.len() && is_float_instr(
                                    body@.code[i as int],
                                ));
                                assert(body_has_float(body_views(bodies@)[j as int]));
                                assert(0 <= j < module@.code->Some_0.len() && body_has_float(
                                    module@.code->Some_0[j as int],
                                ));
                                assert(module_has_float(module@));
                            }
                            return Result::Ok(false);
                        }
                        i += 1;
                    }
                    proof {
                        assert(body_views(bodies@)[j as int] == body@);
                        assert(!body_has_float(body_views(bodies@)[j as int]));
                    }
                    j += 1;
                }
                proof {
                    assert(!module_has_float(module@));
                }
                Result::Ok(true)
            },
        }
    }
}

} // verus!
