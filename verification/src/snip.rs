use vstd::prelude::*;

use crate::ast::{
    body_views, element_views, export_views, import_views, ElementSegment, ElementSegmentV,
    ExportEntry, ExportEntryV, ExportInternal, External, FuncBody, FuncBodyV, ImportEntryV,
    Module, ModuleV,
};
use crate::instr::Instr;
use crate::renumber::{
    build_renumber, count_kept, filter_by_mask, lemma_count_lt_if_dropped,
    lemma_filter_by_mask_len, lemma_filter_by_mask_take_snoc, lemma_rank_below_all_kept,
    rank_below,
};
use crate::repack::{repack_module, spec_repack};
use crate::ModuleError;

verus! {

/// Whether an import entry occupies a slot of the function index space.
pub open spec fn is_func_import(e: ImportEntryV) -> bool {
    e.external is Function
}

/// The mask of function imports among all imports.
pub open spec fn func_import_mask(m: ModuleV) -> Seq<bool> {
    Seq::new(m.imports.len(), |i: int| is_func_import(m.imports[i]))
}

/// How many function indices the imports occupy: indices `0` up to this
/// count name imported functions, later indices name the module's own.
pub open spec fn n_imported(m: ModuleV) -> nat {
    count_kept(func_import_mask(m))
}

/// The size of the function index space.
pub open spec fn total_funcs(m: ModuleV) -> nat {
    n_imported(m) + m.functions.len()
}

/// The function bodies, or an empty sequence when there is no code
/// section.
pub open spec fn bodies_of(m: ModuleV) -> Seq<FuncBodyV> {
    match m.code {
        Option::Some(b) => b,
        Option::None => Seq::empty(),
    }
}

/// The eliminator acts only on a module whose code section is present
/// and declares exactly one body per function-section entry.
pub open spec fn snip_applicable(m: ModuleV) -> bool {
    m.code is Some && bodies_of(m).len() == m.functions.len()
}

/// Whether a body holds a direct call to function index `t`.
pub open spec fn body_calls(b: FuncBodyV, t: int) -> bool {
    exists|i: int| 0 <= i < b.code.len() && b.code[i] == Instr::Call(t as u32) && 0 <= t
        < 0x1_0000_0000
}

/// Whether an export entry names function index `t`.
pub open spec fn export_refs_func(e: ExportEntryV, t: int) -> bool {
    match e.internal {
        ExportInternal::Function(x) => x == t,
        _ => false,
    }
}

/// Whether an element segment places function index `t` in a table.
pub open spec fn seg_has_member(el: ElementSegmentV, t: int) -> bool {
    exists|j: int| 0 <= j < el.members.len() && el.members[j] == t
}

/// The roots of the reachability analysis: every imported function
/// (imports are never removed), every exported function index, the
/// start function, and — conservatively — every function index any
/// table's element segments can hand to an indirect call.
pub open spec fn is_root(m: ModuleV, t: int) -> bool {
    ||| t < n_imported(m)
    ||| exists|i: int| 0 <= i < m.exports.len() && #[trigger] export_refs_func(m.exports[i], t)
    ||| (m.start matches Option::Some(s) && s == t)
    ||| exists|i: int| 0 <= i < m.elements.len() && #[trigger] seg_has_member(m.elements[i], t)
}

pub open spec fn roots_mask(m: ModuleV) -> Seq<bool> {
    Seq::new(total_funcs(m), |t: int| is_root(m, t))
}

/// Whether some already-marked local function calls index `t` directly.
pub open spec fn marked_caller(m: ModuleV, marks: Seq<bool>, t: int) -> bool {
    exists|j: int|
        0 <= j < m.functions.len() && n_imported(m) + j < marks.len() && marks[n_imported(m) + j]
            && #[trigger] body_calls(bodies_of(m)[j], t)
}

/// One round of mark propagation over the call graph.
pub open spec fn step(m: ModuleV, marks: Seq<bool>) -> Seq<bool> {
    Seq::new(marks.len(), |t: int| marks[t] || marked_caller(m, marks, t))
}

/// The marks after `k` propagation rounds from the roots.
pub open spec fn reach_k(m: ModuleV, k: nat) -> Seq<bool>
    decreases k,
{
    if k == 0 {
        roots_mask(m)
    } else {
        step(m, reach_k(m, (k - 1) as nat))
    }
}

/// The reachable function indices: as many rounds as there are
/// functions always suffice to reach the fixed point.
pub open spec fn reachable_mask(m: ModuleV) -> Seq<bool> {
    reach_k(m, total_funcs(m))
}

/// The reachability mask restricted to the module's own functions.
pub open spec fn locals_mask(m: ModuleV) -> Seq<bool> {
    reachable_mask(m).subrange(n_imported(m) as int, total_funcs(m) as int)
}

/// Whether every local function is reachable, in which case the
/// eliminator finds nothing to remove.
pub open spec fn all_locals_reachable(m: ModuleV) -> bool {
    forall|j: int|
        0 <= j < m.functions.len() ==> #[trigger] reachable_mask(m)[n_imported(m) + j]
}

/// A function index after renumbering: kept indices keep their relative
/// order. Out-of-range references are left alone.
pub open spec fn func_ref_renumber(mask: Seq<bool>, x: u32) -> u32 {
    if x < mask.len() {
        rank_below(mask, x as int) as u32
    } else {
        x
    }
}

pub open spec fn remap_instr(mask: Seq<bool>, ins: Instr) -> Instr {
    match ins {
        Instr::Call(x) => Instr::Call(func_ref_renumber(mask, x)),
        _ => ins,
    }
}

pub open spec fn remap_body(mask: Seq<bool>, b: FuncBodyV) -> FuncBodyV {
    FuncBodyV { locals: b.locals, code: b.code.map_values(|ins: Instr| remap_instr(mask, ins)) }
}

pub open spec fn remap_export(mask: Seq<bool>, e: ExportEntryV) -> ExportEntryV {
    match e.internal {
        ExportInternal::Function(x) => ExportEntryV {
            internal: ExportInternal::Function(func_ref_renumber(mask, x)),
            ..e
        },
        _ => e,
    }
}

pub open spec fn remap_element(mask: Seq<bool>, el: ElementSegmentV) -> ElementSegmentV {
    ElementSegmentV {
        members: el.members.map_values(|x: u32| func_ref_renumber(mask, x)),
        ..el
    }
}

/// The module after unreachable local functions are removed and every
/// function reference is renumbered; types are not yet collected.
pub open spec fn spec_snip_funcs(m: ModuleV) -> ModuleV {
    let mask = reachable_mask(m);
    ModuleV {
        functions: filter_by_mask(m.functions, locals_mask(m)),
        code: Option::Some(
            filter_by_mask(bodies_of(m), locals_mask(m)).map_values(
                |b: FuncBodyV| remap_body(mask, b),
            ),
        ),
        exports: m.exports.map_values(|e: ExportEntryV| remap_export(mask, e)),
        start: match m.start {
            Option::None => Option::None,
            Option::Some(s) => Option::Some(func_ref_renumber(mask, s)),
        },
        elements: m.elements.map_values(|el: ElementSegmentV| remap_element(mask, el)),
        ..m
    }
}

/// The whole pass: when it applies and finds unreachable local
/// functions, it removes them, renumbers every function reference, and
/// drops the type entries that became unreferenced; otherwise the
/// module is untouched.
pub open spec fn spec_snip(m: ModuleV) -> ModuleV {
    if snip_applicable(m) && !all_locals_reachable(m) {
        spec_repack(spec_snip_funcs(m))
    } else {
        m
    }
}

fn count_func_imports(module: &Module) -> (r: usize)
    ensures
        r == n_imported(module@),
        r <= module.imports@.len(),
{
    let ghost mask = func_import_mask(module@);
    let n = module.imports.len();
    let mut count: usize = 0;
    let mut i: usize = 0;
    while i < n
        invariant
            i <= n,
            n == module.imports.len(),
            mask == func_import_mask(module@),
            count == rank_below(mask, i as int),
            count <= i,
        decreases n - i,
    {
        proof {
            assert(mask[i as int] == is_func_import(import_views(module.imports@)[i as int]));
            assert(import_views(module.imports@)[i as int] == module.imports@[i as int]@);
        }
        match &module.imports[i].external {
            External::Function(_) => {
                count += 1;
            },
            _ => {},
        }
        i += 1;
    }
    proof {
        assert(mask.len() == n);
    }
    count
}

fn is_root_exec(module: &Module, t: usize, n_imp: usize) -> (r: bool)
    requires
        n_imp == n_imported(module@),
    ensures
        r == is_root(module@, t as int),
{
    if t < n_imp {
        return true;
    }
    match &module.start {
        Option::Some(s) => {
            if *s as usize == t {
                return true;
            }
        },
        Option::None => {},
    }
    let mut i: usize = 0;
    while i < module.exports.len()
        invariant
            i <= module.exports.len(),
            forall|k: int|
                0 <= k < i ==> !export_refs_func(export_views(module.exports@)[k], t as int),
        decreases module.exports.len() - i,
    {
        proof {
            assert(export_views(module.exports@)[i as int] == module.exports@[i as int]@);
        }
        match &module.exports[i].internal {
            ExportInternal::Function(x) => {
                if *x as usize == t {
                    proof {
                        assert(0 <= i < module@.exports.len() && export_refs_func(
                            module@.exports[i as int],
                            t as int,
                        ));
                    }
                    return true;
                }
            },
            _ => {},
        }
        i += 1;
    }
    let mut i: usize = 0;
    while i < module.elements.len()
        invariant
            i <= module.elements.len(),
            forall|k: int|
                0 <= k < module.exports@.len() ==> !export_refs_func(
                    export_views(module.exports@)[k],
                    t as int,
                ),
            forall|k: int|
                0 <= k < i ==> !seg_has_member(element_views(module.elements@)[k], t as int),
        decreases module.elements.len() - i,
    {
        proof {
            assert(element_views(module.elements@)[i as int] == module.elements@[i as int]@);
        }
        let seg = &module.elements[i];
        let mut j: usize = 0;
        let mut hit = false;
        while j < seg.members.len()
            invariant
                j <= seg.members.len(),
                *seg == module.elements@[i as int],
                hit ==> seg_has_member(seg@, t as int),
                !hit ==> forall|k: int| 0 <= k < j ==> seg@.members[k] != t as int,
            decreases seg.members.len() - j,
        {
            if !hit && seg.members[j] as usize == t {
                proof {
                    assert(0 <= j < seg@.members.len() && seg@.members[j as int] == t as int);
                }
                hit = true;
            }
            j += 1;
        }
        if hit {
            proof {
                assert(0 <= i < module@.elements.len() && seg_has_member(
                    module@.elements[i as int],
                    t as int,
                ));
            }
            return true;
        }
        i += 1;
    }
    proof {
        assert(!is_root(module@, t as int));
    }
    false
}

fn has_marked_call(module: &Module, bodies: &Vec<FuncBody>, marks: &Vec<bool>, t: usize, n_imp:
    usize) -> (r: bool)
    requires
        n_imp == n_imported(module@),
        module@.code == Option::Some(body_views(bodies@)),
        bodies@.len() == module.functions@.len(),
        marks@.len() == total_funcs(module@),
    ensures
        r == marked_caller(module@, marks@, t as int),
{
    let n = module.functions.len();
    let ml = marks.len();
    let mut j: usize = 0;
    while j < n
        invariant
            j <= n,
            n == module.functions.len(),
            n == bodies.len(),
            ml == marks.len(),
            n_imp == n_imported(module@),
            module@.code == Option::Some(body_views(bodies@)),
            marks@.len() == total_funcs(module@),
            forall|k: int|
                0 <= k < j ==> !(marks@[n_imported(module@) + k] && body_calls(
                    bodies_of(module@)[k],
                    t as int,
                )),
        decreases n - j,
    {
        proof {
            assert(bodies_of(module@)[j as int] == bodies@[j as int]@);
            assert(marks@.len() == n_imported(module@) + module@.functions.len());
            assert(n_imp + j < ml);
        }
        if marks[n_imp + j] {
            let body = &bodies[j];
            let code_len = body.code.len();
            let mut i: usize = 0;
            let mut hit = false;
            while i < code_len
                invariant
                    i <= code_len,
                    code_len == body.code.len(),
                    *body == bodies@[j as int],
                    hit ==> body_calls(body@, t as int),
                    !hit ==> forall|k: int|
                        0 <= k < i ==> !(body.code@[k] == Instr::Call(t as u32) && 0 <= (t as int)
                            < 0x1_0000_0000),
                decreases code_len - i,
            {
                if !hit {
                    match &body.code[i] {
                        Instr::Call(x) => {
                            if *x as usize == t {
                                proof {
                                    assert(0 <= i < body@.code.len() && body@.code[i as int]
                                        == Instr::Call(t as u32) && 0 <= (t as int)
                                        < 0x1_0000_0000);
                                }
                                hit = true;
                            }
                        },
                        _ => {},
                    }
                }
                i += 1;
            }
            if hit {
                proof {
                    assert(0 <= j < module@.functions.len() && n_imported(module@) + j
                        < marks@.len() && marks@[n_imported(module@) + j as int] && body_calls(
                        bodies_of(module@)[j as int],
                        t as int,
                    ));
                }
                return true;
            }
        }
        j += 1;
    }
    proof {
        assert(!marked_caller(module@, marks@, t as int));
    }
    false
}

fn step_exec(module: &Module, bodies: &Vec<FuncBody>, marks: &Vec<bool>, n_imp: usize) -> (r: Vec<
    bool,
>)
    requires
        n_imp == n_imported(module@),
        module@.code == Option::Some(body_views(bodies@)),
        bodies@.len() == module.functions@.len(),
        marks@.len() == total_funcs(module@),
    ensures
        r@ == step(module@, marks@),
{
    let n = marks.len();
    let mut out: Vec<bool> = Vec::new();
    let mut t: usize = 0;
    while t < n
        invariant
            t <= n,
            n == marks.len(),
            n_imp == n_imported(module@),
            module@.code == Option::Some(body_views(bodies@)),
            bodies@.len() == module.functions@.len(),
            marks@.len() == total_funcs(module@),
            out@.len() == t,
            forall|k: int| 0 <= k < t ==> out@[k] == step(module@, marks@)[k],
        decreases n - t,
    {
        let b = marks[t] || has_marked_call(module, bodies, marks, t, n_imp);
        out.push(b);
        t += 1;
    }
    proof {
        assert(out@ =~= step(module@, marks@));
    }
    out
}

/// The dead-code eliminator: removes every local function unreachable
/// from the module's exports, start function and table contents, and
/// renumbers every function reference consistently.
pub struct Snip {}

impl Snip {
    pub fn new() -> (r: Snip) {
        Snip {  }
    }

    /// Runs the mark-and-sweep: reports `Ok(true)` and rewrites the
    /// module exactly when the pass applies (a code section matching
    /// the function section) and some local function is unreachable;
    /// otherwise the module is left untouched. Never fails.
    pub fn translate_inplace(&self, module: &mut Module) -> (r: Result<bool, ModuleError>)
        requires
            old(module)@.imports.len() + old(module)@.functions.len() <= 0xffff_ffff,
            old(module)@.types.len() <= 0xffff_ffff,
        ensures
            r == Result::<bool, ModuleError>::Ok(
                snip_applicable(old(module)@) && !all_locals_reachable(old(module)@),
            ),
            final(module)@ == spec_snip(old(module)@),
    {
        let ghost mv = old(module)@;
        let applicable: bool = match &module.code {
            Option::None => false,
            Option::Some(b) => b.len() == module.functions.len(),
        };
        if !applicable {
            proof {
                assert(!snip_applicable(mv));
                assert(module@ == spec_snip(mv));
            }
            return Result::Ok(false);
        }
        let n_imp = count_func_imports(module);
        let n_locals = module.functions.len();
        let total = n_imp + n_locals;
        proof {
            assert(total == total_funcs(mv));
        }
        // the roots of the call graph
        let mut marks: Vec<bool> = Vec::new();
        let mut t: usize = 0;
        while t < total
            invariant
                t <= total,
                n_imp == n_imported(module@),
                module@ == mv,
                total == total_funcs(mv),
                marks@.len() == t,
                forall|k: int| 0 <= k < t ==> marks@[k] == is_root(mv, k),
            decreases total - t,
        {
            let b = is_root_exec(module, t, n_imp);
            marks.push(b);
            t += 1;
        }
        proof {
            assert(marks@ =~= roots_mask(mv));
            assert(marks@ == reach_k(mv, 0));
        }
        // propagate marks along direct calls; as many rounds as there
        // are function indices reach the fixed point
        let mut k: usize = 0;
        while k < total
            invariant
                k <= total,
                n_imp == n_imported(module@),
                module@ == mv,
                total == total_funcs(mv),
                snip_applicable(mv),
                marks@ == reach_k(mv, k as nat),
                marks@.len() == total,
            decreases total - k,
        {
            let marks2 = match &module.code {
                Option::Some(bodies) => step_exec(module, bodies, &marks, n_imp),
                Option::None => {
                    proof {
                        assert(false);
                    }
                    Vec::new()
                },
            };
            marks = marks2;
            k += 1;
        }
        proof {
            assert(marks@ == reachable_mask(mv));
        }
        // decide what survives
        let mut keep_locals: Vec<bool> = Vec::new();
        let mut j: usize = 0;
        while j < n_locals
            invariant
                j <= n_locals,
                n_locals == module.functions@.len(),
                module@ == mv,
                total == total_funcs(mv),
                n_imp == n_imported(mv),
                marks@ == reachable_mask(mv),
                marks@.len() == total,
                keep_locals@.len() == j,
                forall|k2: int| 0 <= k2 < j ==> keep_locals@[k2] == marks@[n_imp + k2],
            decreases n_locals - j,
        {
            keep_locals.push(marks[n_imp + j]);
            j += 1;
        }
        proof {
            assert(keep_locals@ =~= locals_mask(mv));
        }
        let ren = build_renumber(&marks);
        let ghost mask = reachable_mask(mv);
        // surviving function-section entries
        let mut new_functions: Vec<u32> = Vec::new();
        let mut j: usize = 0;
        while j < n_locals
            invariant
                j <= n_locals,
                n_locals == module.functions@.len(),
                module@ == mv,
                keep_locals@ == locals_mask(mv),
                keep_locals@.len() == n_locals,
                new_functions@ =~= filter_by_mask(
                    mv.functions.take(j as int),
                    locals_mask(mv).take(j as int),
                ),
            decreases n_locals - j,
        {
            if keep_locals[j] {
                new_functions.push(module.functions[j]);
            }
            proof {
                lemma_filter_by_mask_take_snoc(mv.functions, locals_mask(mv), j as int);
            }
            j += 1;
        }
        let changed = new_functions.len() < n_locals;
        proof {
            assert(mv.functions.take(n_locals as int) =~= mv.functions);
            assert(locals_mask(mv).take(n_locals as int) =~= locals_mask(mv));
            lemma_filter_by_mask_len(mv.functions, locals_mask(mv), n_locals as int);
            if changed {
                if all_locals_reachable(mv) {
                    assert forall|k2: int| 0 <= k2 < n_locals implies locals_mask(mv)[k2] by {
                        assert(reachable_mask(mv)[n_imported(mv) + k2]);
                    }
                    lemma_rank_below_all_kept(locals_mask(mv), n_locals as int);
                }
            } else {
                assert forall|k2: int|
                    0 <= k2 < mv.functions.len() implies #[trigger] reachable_mask(
                    mv,
                )[n_imported(mv) + k2] by {
                    if !locals_mask(mv)[k2] {
                        lemma_count_lt_if_dropped(locals_mask(mv), k2);
                    }
                }
            }
        }
        if !changed {
            proof {
                assert(module@ == spec_snip(mv));
            }
            return Result::Ok(false);
        }
        // surviving bodies, with their call operands renumbered
        let new_bodies: Vec<FuncBody> = match &module.code {
            Option::Some(bodies) => {
                let mut out: Vec<FuncBody> = Vec::new();
                let mut j: usize = 0;
                while j < n_locals
                    invariant
                        j <= n_locals,
                        n_locals == bodies@.len(),
                        module@ == mv,
                        module@.code == Option::Some(body_views(bodies@)),
                        keep_locals@ == locals_mask(mv),
                        keep_locals@.len() == n_locals,
                        mask == reachable_mask(mv),
                        ren@.len() == mask.len(),
                        forall|k2: int|
                            0 <= k2 < mask.len() ==> ren@[k2] == rank_below(mask, k2) as u32,
                        body_views(out@) =~= filter_by_mask(
                            bodies_of(mv).take(j as int),
                            locals_mask(mv).take(j as int),
                        ).map_values(|b: FuncBodyV| remap_body(mask, b)),
                    decreases n_locals - j,
                {
                    proof {
                        assert(bodies_of(mv)[j as int] == bodies@[j as int]@);
                    }
                    if keep_locals[j] {
                        let body = &bodies[j];
                        let mut code: Vec<Instr> = Vec::new();
                        let code_len = body.code.len();
                        let mut i: usize = 0;
                        while i < code_len
                            invariant
                                i <= code_len,
                                code_len == body.code.len(),
                                *body == bodies@[j as int],
                                mask == reachable_mask(mv),
                                ren@.len() == mask.len(),
                                forall|k2: int|
                                    0 <= k2 < mask.len() ==> ren@[k2] == rank_below(
                                        mask,
                                        k2,
                                    ) as u32,
                                code@.len() == i,
                                forall|k2: int|
                                    0 <= k2 < i ==> code@[k2] == remap_instr(
                                        mask,
                                        body.code@[k2],
                                    ),
                            decreases code_len - i,
                        {
                            let ins = &body.code[i];
                            match ins {
                                Instr::Call(x) => {
                                    let nx: u32 = if (*x as usize) < ren.len() {
                                        ren[*x as usize]
                                    } else {
                                        *x
                                    };
                                    code.push(Instr::Call(nx));
                                },
                                _ => {
                                    code.push(*ins);
                                },
                            }
                            i += 1;
                        }
                        let ghost prev = out@;
                        out.push(
                            FuncBody { locals: crate::ast::dup_copy_vec(&body.locals), code },
                        );
                        proof {
                            assert(code@ =~= body@.code.map_values(
                                |ins: Instr| remap_instr(mask, ins),
                            ));
                            assert(body_views(out@) =~= body_views(prev).push(
                                remap_body(mask, bodies_of(mv)[j as int]),
                            ));
                            lemma_filter_by_mask_take_snoc(
                                bodies_of(mv),
                                locals_mask(mv),
                                j as int,
                            );
                        }
                    } else {
                        proof {
                            lemma_filter_by_mask_take_snoc(
                                bodies_of(mv),
                                locals_mask(mv),
                                j as int,
                            );
                        }
                    }
                    j += 1;
                }
                proof {
                    assert(bodies_of(mv).take(n_locals as int) =~= bodies_of(mv));
                    assert(locals_mask(mv).take(n_locals as int) =~= locals_mask(mv));
                }
                out
            },
            Option::None => {
                proof {
                    assert(false);
                }
                Vec::new()
            },
        };
        // exports with their function references renumbered
        let mut new_exports: Vec<ExportEntry> = Vec::new();
        let mut i: usize = 0;
        while i < module.exports.len()
            invariant
                i <= module.exports.len(),
                module@ == mv,
                mask == reachable_mask(mv),
                ren@.len() == mask.len(),
                forall|k2: int| 0 <= k2 < mask.len() ==> ren@[k2] == rank_below(mask, k2) as u32,
                new_exports@.len() == i,
                forall|k2: int|
                    0 <= k2 < i ==> new_exports@[k2]@ == remap_export(
                        mask,
                        export_views(module.exports@)[k2],
                    ),
            decreases module.exports.len() - i,
        {
            let e = &module.exports[i];
            proof {
                assert(export_views(module.exports@)[i as int] == e@);
            }
            match e.internal {
                ExportInternal::Function(x) => {
                    let nx: u32 = if (x as usize) < ren.len() {
                        ren[x as usize]
                    } else {
                        x
                    };
                    new_exports.push(
                        ExportEntry {
                            field: e.field.clone(),
                            internal: ExportInternal::Function(nx),
                        },
                    );
                },
                _ => {
                    new_exports.push(e.duplicate());
                },
            }
            i += 1;
        }
        // the start function, renumbered
        let new_start: Option<u32> = match &module.start {
            Option::None => Option::None,
            Option::Some(s) => Option::Some(
                if (*s as usize) < ren.len() {
                    ren[*s as usize]
                } else {
                    *s
                },
            ),
        };
        // element segments with their members renumbered
        let mut new_elements: Vec<ElementSegment> = Vec::new();
        let mut i: usize = 0;
        while i < module.elements.len()
            invariant
                i <= module.elements.len(),
                module@ == mv,
                mask == reachable_mask(mv),
                ren@.len() == mask.len(),
                forall|k2: int| 0 <= k2 < mask.len() ==> ren@[k2] == rank_below(mask, k2) as u32,
                new_elements@.len() == i,
                forall|k2: int|
                    0 <= k2 < i ==> new_elements@[k2]@ == remap_element(
                        mask,
                        element_views(module.elements@)[k2],
                    ),
            decreases module.elements.len() - i,
        {
            let seg = &module.elements[i];
            proof {
                assert(element_views(module.elements@)[i as int] == seg@);
            }
            let mut members: Vec<u32> = Vec::new();
            let mut j2: usize = 0;
            while j2 < seg.members.len()
                invariant
                    j2 <= seg.members.len(),
                    *seg == module.elements@[i as int],
                    mask == reachable_mask(mv),
                    ren@.len() == mask.len(),
                    forall|k2: int|
                        0 <= k2 < mask.len() ==> ren@[k2] == rank_below(mask, k2) as u32,
                    members@.len() == j2,
                    forall|k2: int|
                        0 <= k2 < j2 ==> members@[k2] == func_ref_renumber(
                            mask,
                            seg@.members[k2],
                        ),
                decreases seg.members.len() - j2,
            {
                let x = seg.members[j2];
                let nx: u32 = if (x as usize) < ren.len() {
                    ren[x as usize]
                } else {
                    x
                };
                members.push(nx);
                j2 += 1;
            }
            proof {
                assert(members@ =~= seg@.members.map_values(
                    |x: u32| func_ref_renumber(mask, x),
                ));
            }
            new_elements.push(ElementSegment { index: seg.index, offset: seg.offset, members });
            i += 1;
        }
        module.functions = new_functions;
        module.code = Option::Some(new_bodies);
        module.exports = new_exports;
        module.start = new_start;
        module.elements = new_elements;
        proof {
            assert(export_views(module.exports@) =~= mv.exports.map_values(
                |e: ExportEntryV| remap_export(mask, e),
            ));
            assert(element_views(module.elements@) =~= mv.elements.map_values(
                |el: ElementSegmentV| remap_element(mask, el),
            ));
            assert(module@ =~= spec_snip_funcs(mv));
        }
        let _ = repack_module(module);
        proof {
            assert(module@ == spec_snip(mv));
        }
        Result::Ok(true)
    }
}


/// Every index marked before a propagation round stays marked after it.
proof fn lemma_step_superset(m: ModuleV, marks: Seq<bool>)
    ensures
        step(m, marks).len() == marks.len(),
        forall|t: int| 0 <= t < marks.len() && marks[t] ==> step(m, marks)[t],
{
}

/// Propagation is monotone in the mark set.
proof fn lemma_step_monotone(m: ModuleV, a: Seq<bool>, b: Seq<bool>)
    requires
        a.len() == b.len(),
        forall|t: int| 0 <= t < a.len() && a[t] ==> b[t],
    ensures
        forall|t: int| 0 <= t < a.len() && step(m, a)[t] ==> step(m, b)[t],
{
    assert forall|t: int| 0 <= t < a.len() && step(m, a)[t] implies step(m, b)[t] by {
        if !a[t] {
            let j = choose|j: int|
                0 <= j < m.functions.len() && n_imported(m) + j < a.len() && a[n_imported(m) + j]
                    && #[trigger] body_calls(bodies_of(m)[j], t);
            assert(b[n_imported(m) + j] && body_calls(bodies_of(m)[j], t));
            assert(marked_caller(m, b, t));
        }
    }
}

/// Each round's marks contain the previous round's.
proof fn lemma_reach_chain(m: ModuleV, k: nat)
    ensures
        reach_k(m, k).len() == total_funcs(m),
        forall|t: int|
            0 <= t < total_funcs(m) && reach_k(m, k)[t] ==> reach_k(m, (k + 1) as nat)[t],
    decreases k,
{
    if k == 0 {
        lemma_step_superset(m, reach_k(m, 0));
    } else {
        lemma_reach_chain(m, (k - 1) as nat);
        lemma_step_monotone(m, reach_k(m, (k - 1) as nat), reach_k(m, k));
        lemma_step_superset(m, reach_k(m, (k - 1) as nat));
    }
}

proof fn lemma_rank_le_pointwise(a: Seq<bool>, b: Seq<bool>, i: int)
    requires
        a.len() == b.len(),
        forall|t: int| 0 <= t < a.len() && a[t] ==> b[t],
        0 <= i <= a.len(),
    ensures
        rank_below(a, i) <= rank_below(b, i),
    decreases i,
{
    if i > 0 {
        lemma_rank_le_pointwise(a, b, i - 1);
    }
}

/// A strictly larger mark set has a strictly larger count.
proof fn lemma_count_strict(a: Seq<bool>, b: Seq<bool>, w: int)
    requires
        a.len() == b.len(),
        forall|t: int| 0 <= t < a.len() && a[t] ==> b[t],
        0 <= w < a.len(),
        !a[w],
        b[w],
    ensures
        count_kept(a) < count_kept(b),
{
    lemma_rank_le_pointwise(a, b, w);
    assert(rank_below(b, w + 1) >= rank_below(a, w + 1) + 1);
    lemma_rank_ge_propagates(a, b, w + 1, a.len() as int);
}

proof fn lemma_rank_ge_propagates(a: Seq<bool>, b: Seq<bool>, i: int, j: int)
    requires
        a.len() == b.len(),
        forall|t: int| 0 <= t < a.len() && a[t] ==> b[t],
        0 <= i <= j <= a.len(),
        rank_below(b, i) >= rank_below(a, i) + 1,
    ensures
        rank_below(b, j) >= rank_below(a, j) + 1,
    decreases j - i,
{
    if i < j {
        lemma_rank_ge_propagates(a, b, i + 1, j);
    }
}

/// Once one round changes nothing, no later round does.
proof fn lemma_stable_propagates(m: ModuleV, k: nat, j: nat)
    requires
        step(m, reach_k(m, k)) == reach_k(m, k),
        j >= k,
    ensures
        reach_k(m, j) == reach_k(m, k),
    decreases j,
{
    if j > k {
        lemma_stable_propagates(m, k, (j - 1) as nat);
    }
}

/// Either the marks have stabilized after `k` rounds, or they hold at
/// least `k` marked indices.
proof fn lemma_fix_aux(m: ModuleV, k: nat)
    requires
        k <= total_funcs(m),
    ensures
        step(m, reach_k(m, k)) == reach_k(m, k) || count_kept(reach_k(m, k)) >= k,
    decreases k,
{
    if k > 0 {
        let prev = reach_k(m, (k - 1) as nat);
        let cur = reach_k(m, k);
        lemma_fix_aux(m, (k - 1) as nat);
        lemma_reach_chain(m, (k - 1) as nat);
        if step(m, prev) == prev {
            assert(cur == prev);
            assert(step(m, cur) == cur);
        } else {
            assert(cur == step(m, prev));
            if cur == prev {
                assert(step(m, prev) == prev);
                assert(false);
            }
            lemma_step_superset(m, prev);
            if forall|t: int| 0 <= t < prev.len() ==> prev[t] == cur[t] {
                assert(prev =~= cur);
                assert(false);
            }
            let w = choose|t: int| 0 <= t < prev.len() && !(prev[t] == cur[t]);
            assert(!prev[w] && cur[w]);
            lemma_count_strict(prev, cur, w);
        }
    }
}

/// The marks reached after as many rounds as there are function indices
/// are closed under one more round: the full reachable set.
proof fn lemma_reach_fixpoint(m: ModuleV)
    ensures
        step(m, reachable_mask(m)) == reachable_mask(m),
{
    let total = total_funcs(m);
    let mask = reachable_mask(m);
    lemma_fix_aux(m, total);
    lemma_reach_chain(m, total);
    if step(m, mask) != mask {
        assert(count_kept(mask) >= total);
        crate::renumber::lemma_rank_below_le(mask, total as int);
        assert(count_kept(mask) == total);
        assert forall|t: int| 0 <= t < mask.len() implies mask[t] by {
            if !mask[t] {
                crate::renumber::lemma_count_lt_if_dropped(mask, t);
            }
        }
        lemma_step_superset(m, mask);
        assert(step(m, mask) =~= mask);
    }
}

/// Every root is in the reachable set.
proof fn lemma_roots_reachable(m: ModuleV, t: int)
    requires
        0 <= t < total_funcs(m),
        is_root(m, t),
    ensures
        reachable_mask(m)[t],
{
    lemma_roots_reach_k(m, t, total_funcs(m));
}

proof fn lemma_roots_reach_k(m: ModuleV, t: int, k: nat)
    requires
        0 <= t < total_funcs(m),
        is_root(m, t),
    ensures
        reach_k(m, k)[t],
    decreases k,
{
    if k > 0 {
        lemma_roots_reach_k(m, t, (k - 1) as nat);
        lemma_reach_chain(m, (k - 1) as nat);
    }
}

proof fn lemma_rank_split(keep: Seq<bool>, i: int, j: int)
    requires
        0 <= i <= j <= keep.len(),
    ensures
        rank_below(keep, j) == rank_below(keep, i) + rank_below(
            keep.subrange(i, keep.len() as int),
            j - i,
        ),
    decreases j - i,
{
    if j > i {
        lemma_rank_split(keep, i, j - 1);
        assert(keep.subrange(i, keep.len() as int)[j - 1 - i] == keep[j - 1]);
    }
}

/// Every instruction of a body refers below `bound` wherever it is a
/// direct call.
pub open spec fn body_targets_in(b: FuncBodyV, bound: int) -> bool {
    forall|i: int|
        0 <= i < b.code.len() ==> (#[trigger] b.code[i] matches Instr::Call(x) ==> x < bound)
}

/// How many function indices the eliminated module has.
pub open spec fn snip_new_total(m: ModuleV) -> int {
    n_imported(m) + spec_snip(m).functions.len() as int
}

/// Dead-code elimination leaves exactly the reachable local functions:
/// the output's function count is the number of reachable local
/// functions, and — imports being untouched — its function index space
/// is the reachable set's size.
pub proof fn lemma_snip_function_count(m: ModuleV)
    requires
        snip_applicable(m),
        !all_locals_reachable(m),
    ensures
        spec_snip(m).functions.len() == count_kept(locals_mask(m)),
        spec_snip(m).functions.len() < m.functions.len(),
        snip_new_total(m) == count_kept(reachable_mask(m)),
    decreases 0int,
{
    let mask = reachable_mask(m);
    let lm = locals_mask(m);
    let n_imp = n_imported(m);
    let total = total_funcs(m);
    lemma_reach_chain(m, total);
    assert(mask.len() == total);
    assert(m.functions.take(m.functions.len() as int) =~= m.functions);
    assert(lm.take(lm.len() as int) =~= lm);
    lemma_filter_by_mask_len(m.functions, lm, m.functions.len() as int);
    assert(spec_snip(m).functions == spec_snip_funcs(m).functions.map_values(
        |x: u32| crate::repack::type_ref_renumber(
            crate::repack::types_keep_mask(spec_snip_funcs(m)),
            x,
        ),
    ));
    assert(spec_snip(m).functions.len() == count_kept(lm));
    let j = choose|j: int|
        0 <= j < m.functions.len() && !(#[trigger] reachable_mask(m)[n_imported(m) + j]);
    assert(!lm[j]);
    lemma_count_lt_if_dropped(lm, j);
    // imports are all roots, hence all kept
    assert forall|t: int| 0 <= t < n_imp implies mask[t] by {
        lemma_roots_reachable(m, t);
    }
    lemma_rank_split(mask, n_imp as int, total as int);
    crate::renumber::lemma_rank_below_all_kept(mask, n_imp as int);
    assert(mask.subrange(n_imp as int, mask.len() as int) =~= lm);
    assert(count_kept(mask) == n_imp + count_kept(lm));
}

/// After dead-code elimination, every direct-call operand of every
/// surviving body refers to a surviving function: no operand points at
/// or past the new function count. Holds of any module whose call
/// operands were in range to begin with.
pub proof fn lemma_snip_calls_in_range(m: ModuleV)
    requires
        snip_applicable(m),
        !all_locals_reachable(m),
        forall|j: int|
            0 <= j < bodies_of(m).len() ==> body_targets_in(
                #[trigger] bodies_of(m)[j],
                total_funcs(m) as int,
            ),
    ensures
        spec_snip(m).code is Some,
        forall|j: int|
            0 <= j < spec_snip(m).code->Some_0.len() ==> body_targets_in(
                #[trigger] spec_snip(m).code->Some_0[j],
                snip_new_total(m),
            ),
{
    let mask = reachable_mask(m);
    let lm = locals_mask(m);
    let n_imp = n_imported(m);
    let total = total_funcs(m);
    lemma_snip_function_count(m);
    lemma_reach_chain(m, total);
    lemma_reach_fixpoint(m);
    let out_bodies = spec_snip(m).code->Some_0;
    let kept = filter_by_mask(bodies_of(m), lm);
    assert(out_bodies == kept.map_values(|b: FuncBodyV| remap_body(mask, b)));
    assert forall|j2: int| 0 <= j2 < out_bodies.len() implies body_targets_in(
        #[trigger] out_bodies[j2],
        snip_new_total(m),
    ) by {
        let b2 = out_bodies[j2];
        lemma_filter_keeps_marked(bodies_of(m), lm, j2);
        let j = choose|j: int|
            0 <= j < bodies_of(m).len() && lm[j] && kept[j2] == bodies_of(m)[j];
        let b = bodies_of(m)[j];
        assert(b2 == remap_body(mask, b));
        assert forall|i: int|
            0 <= i < b2.code.len() implies (#[trigger] b2.code[i] matches Instr::Call(x) ==> x
            < snip_new_total(m)) by {
            assert(b2.code[i] == remap_instr(mask, b.code[i]));
            match b.code[i] {
                Instr::Call(x0) => {
                    assert(x0 < total);
                    assert(mask[n_imp + j]);
                    assert(body_calls(b, x0 as int));
                    assert(marked_caller(m, mask, x0 as int));
                    assert(step(m, mask)[x0 as int]);
                    assert(mask[x0 as int]);
                    crate::renumber::lemma_rank_below_lt_count(mask, x0 as int);
                    assert(b2.code[i] == Instr::Call(func_ref_renumber(mask, x0)));
                },
                _ => {},
            }
        }
    }
}

/// A filtered element comes from some kept position.
proof fn lemma_filter_keeps_marked(s: Seq<FuncBodyV>, keep: Seq<bool>, j2: int)
    requires
        s.len() == keep.len(),
        0 <= j2 < filter_by_mask(s, keep).len(),
    ensures
        exists|j: int|
            0 <= j < s.len() && keep[j] && #[trigger] filter_by_mask(s, keep)[j2] == s[j],
    decreases s.len(),
{
    if s.len() > 0 {
        if 0 < keep.len() && keep[0] {
            if j2 == 0 {
                assert(filter_by_mask(s, keep)[0] == s[0]);
            } else {
                lemma_filter_keeps_marked(s.drop_first(), keep.drop_first(), j2 - 1);
                let j = choose|j: int|
                    0 <= j < s.drop_first().len() && keep.drop_first()[j] && #[trigger] filter_by_mask(
                        s.drop_first(),
                        keep.drop_first(),
                    )[j2 - 1] == s.drop_first()[j];
                assert(filter_by_mask(s, keep)[j2] == filter_by_mask(
                    s.drop_first(),
                    keep.drop_first(),
                )[j2 - 1]);
                assert(keep[j + 1] && filter_by_mask(s, keep)[j2] == s[j + 1]);
            }
        } else {
            lemma_filter_keeps_marked(s.drop_first(), keep.drop_first(), j2);
            let j = choose|j: int|
                0 <= j < s.drop_first().len() && keep.drop_first()[j] && #[trigger] filter_by_mask(
                    s.drop_first(),
                    keep.drop_first(),
                )[j2] == s.drop_first()[j];
            assert(keep[j + 1] && filter_by_mask(s, keep)[j2] == s[j + 1]);
        }
    }
}

} // verus!
