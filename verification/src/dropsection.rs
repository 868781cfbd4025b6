use vstd::prelude::*;

use crate::ast::{custom_views, str_eq, CustomSectionV, Module, ModuleV};
use crate::encode::enc_module;
use crate::ModuleError;

verus! {

/// The translator that removes one named custom section — most often
/// the debug name map — if the module holds one.
pub enum DropSection {
    NamesSection,
    CustomSectionByName(String),
}

/// The name of the custom section a configured dropper removes.
pub open spec fn drop_target_name(d: &DropSection) -> Seq<char> {
    match d {
        DropSection::NamesSection => "name"@,
        DropSection::CustomSectionByName(s) => s@,
    }
}

/// Index of the first custom section with the given name, if any.
pub open spec fn first_custom_index(customs: Seq<CustomSectionV>, name: Seq<char>) -> Option<int>
    decreases customs.len(),
{
    if customs.len() == 0 {
        Option::None
    } else if customs[0].name == name {
        Option::Some(0)
    } else {
        match first_custom_index(customs.drop_first(), name) {
            Option::None => Option::None,
            Option::Some(i) => Option::Some(i + 1),
        }
    }
}

/// How many custom sections carry the given name.
pub open spec fn count_custom(customs: Seq<CustomSectionV>, name: Seq<char>) -> nat
    decreases customs.len(),
{
    if customs.len() == 0 {
        0
    } else {
        (if customs[0].name == name {
            1nat
        } else {
            0nat
        }) + count_custom(customs.drop_first(), name)
    }
}

/// The module after one drop: its first custom section with the given
/// name removed, or the module unchanged when there is none.
pub open spec fn spec_drop_section(m: ModuleV, name: Seq<char>) -> ModuleV {
    match first_custom_index(m.customs, name) {
        Option::None => m,
        Option::Some(i) => ModuleV { customs: m.customs.remove(i), ..m },
    }
}

pub proof fn lemma_first_custom_index_found(customs: Seq<CustomSectionV>, name: Seq<char>, i: int)
    requires
        0 <= i < customs.len(),
        customs[i].name == name,
        forall|k: int| 0 <= k < i ==> customs[k].name != name,
    ensures
        first_custom_index(customs, name) == Option::Some(i),
    decreases i,
{
    if i > 0 {
        lemma_first_custom_index_found(customs.drop_first(), name, i - 1);
    }
}

pub proof fn lemma_first_custom_index_none(customs: Seq<CustomSectionV>, name: Seq<char>)
    requires
        forall|k: int| 0 <= k < customs.len() ==> customs[k].name != name,
    ensures
        first_custom_index(customs, name) is None,
    decreases customs.len(),
{
    if customs.len() > 0 {
        lemma_first_custom_index_none(customs.drop_first(), name);
    }
}

proof fn lemma_first_custom_index_in_range(customs: Seq<CustomSectionV>, name: Seq<char>)
    requires
        first_custom_index(customs, name) is Some,
    ensures
        0 <= first_custom_index(customs, name)->Some_0 < customs.len(),
        customs[first_custom_index(customs, name)->Some_0].name == name,
        forall|k: int|
            0 <= k < first_custom_index(customs, name)->Some_0 ==> customs[k].name != name,
    decreases customs.len(),
{
    if customs.len() > 0 && customs[0].name != name {
        lemma_first_custom_index_in_range(customs.drop_first(), name);
        let j = first_custom_index(customs, name)->Some_0;
        assert(customs.drop_first()[j - 1] == customs[j]);
        assert forall|k: int| 0 <= k < j implies customs[k].name != name by {
            if k > 0 {
                assert(customs.drop_first()[k - 1] == customs[k]);
            }
        }
    }
}

proof fn lemma_count_custom_remove_first(customs: Seq<CustomSectionV>, name: Seq<char>, i: int)
    requires
        first_custom_index(customs, name) == Option::Some(i),
    ensures
        count_custom(customs.remove(i), name) + 1 == count_custom(customs, name),
    decreases customs.len(),
{
    lemma_first_custom_index_in_range(customs, name);
    if i == 0 {
        assert(customs.remove(0) =~= customs.drop_first());
        lemma_count_custom_zero_iff(customs.drop_first(), name);
    } else {
        assert(customs.remove(i).drop_first() =~= customs.drop_first().remove(i - 1));
        lemma_first_custom_index_found(customs.drop_first(), name, i - 1);
        lemma_count_custom_remove_first(customs.drop_first(), name, i - 1);
        assert(customs.remove(i)[0] == customs[0]);
    }
}

proof fn lemma_count_custom_zero_iff(customs: Seq<CustomSectionV>, name: Seq<char>)
    ensures
        count_custom(customs, name) == 0 <==> (forall|k: int|
            0 <= k < customs.len() ==> customs[k].name != name),
    decreases customs.len(),
{
    if customs.len() > 0 {
        lemma_count_custom_zero_iff(customs.drop_first(), name);
        if count_custom(customs, name) == 0 {
            assert forall|k: int| 0 <= k < customs.len() implies customs[k].name != name by {
                if k > 0 {
                    assert(customs.drop_first()[k - 1] == customs[k]);
                }
            }
        } else {
            if customs[0].name != name {
                let k = choose|k: int|
                    0 <= k < customs.drop_first().len() && customs.drop_first()[k].name == name;
                assert(customs[k + 1].name == name);
            }
        }
    }
}

/// Dropping a named custom section is idempotent wherever the module
/// holds at most one section of that name: the first run removes it (if
/// present), the second finds nothing, reports no change, and leaves the
/// module — and therefore its encoding — untouched.
pub proof fn lemma_drop_section_idempotent(m: ModuleV, name: Seq<char>)
    requires
        count_custom(m.customs, name) <= 1,
    ensures
        first_custom_index(spec_drop_section(m, name).customs, name) is None,
        spec_drop_section(spec_drop_section(m, name), name) == spec_drop_section(m, name),
        enc_module(spec_drop_section(spec_drop_section(m, name), name)) == enc_module(
            spec_drop_section(m, name),
        ),
{
    let m1 = spec_drop_section(m, name);
    match first_custom_index(m.customs, name) {
        Option::None => {
            lemma_first_custom_index_in_range_contra(m.customs, name);
        },
        Option::Some(i) => {
            lemma_count_custom_remove_first(m.customs, name, i);
            lemma_count_custom_zero_iff(m1.customs, name);
            lemma_first_custom_index_none(m1.customs, name);
        },
    }
}

proof fn lemma_first_custom_index_in_range_contra(customs: Seq<CustomSectionV>, name: Seq<char>)
    requires
        first_custom_index(customs, name) is None,
    ensures
        forall|k: int| 0 <= k < customs.len() ==> customs[k].name != name,
    decreases customs.len(),
{
    if customs.len() > 0 && customs[0].name != name {
        lemma_first_custom_index_in_range_contra(customs.drop_first(), name);
        assert forall|k: int| 0 <= k < customs.len() implies customs[k].name != name by {
            if k > 0 {
                assert(customs.drop_first()[k - 1] == customs[k]);
            }
        }
    }
}

impl DropSection {
    /// Removes the first custom section carrying the configured name;
    /// reports a change exactly when one existed. Never fails.
    pub fn translate_inplace(&self, module: &mut Module) -> (r: Result<bool, ModuleError>)
        ensures
            r == Result::<bool, ModuleError>::Ok(
                first_custom_index(old(module)@.customs, drop_target_name(self)) is Some,
            ),
            final(module)@ == spec_drop_section(old(module)@, drop_target_name(self)),
    {
        let name: &str = match self {
            DropSection::NamesSection => "name",
            DropSection::CustomSectionByName(s) => s.as_str(),
        };
        let ghost target = drop_target_name(self);
        proof {
            assert(name@ == target);
        }
        let n = module.customs.len();
        let mut i: usize = 0;
        while i < n
            invariant
                i <= n,
                n == module.customs.len(),
                module@ == old(module)@,
                name@ == target,
                target == drop_target_name(self),
                forall|k: int| 0 <= k < i ==> custom_views(module.customs@)[k].name != target,
            decreases n - i,
        {
            if str_eq(module.customs[i].name.as_str(), name) {
                proof {
                    assert(custom_views(module.customs@)[i as int] == module.customs@[i as int]@);
                    assert(custom_views(module.customs@)[i as int].name == target);
                    lemma_first_custom_index_found(
                        custom_views(module.customs@),
                        target,
                        i as int,
                    );
                }
                let ghost prev = module@;
                module.customs.remove(i);
                proof {
                    assert(custom_views(module.customs@) =~= prev.customs.remove(i as int));
                    assert(module@ =~= spec_drop_section(old(module)@, target));
                }
                return Result::Ok(true);
            }
            i += 1;
        }
        proof {
            lemma_first_custom_index_none(custom_views(module.customs@), target);
            assert(module@ =~= spec_drop_section(old(module)@, target));
        }
        Result::Ok(false)
    }
}

} // verus!
