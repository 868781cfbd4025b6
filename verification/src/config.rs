use vstd::prelude::*;

verus! {

/// A configuration document node, as the ruleset file provides one
/// after parsing: a scalar string, a key-ordered mapping, or any other
/// node kind (which this library only ever skips or rejects).
pub enum ConfigValue {
    Text(String),
    Mapping(Vec<(ConfigValue, ConfigValue)>),
    Other,
}

#[verifier::ext_equal]
pub ghost enum ConfigValueV {
    Text(Seq<char>),
    Mapping(Seq<(ConfigValueV, ConfigValueV)>),
    Other,
}

pub open spec fn config_view(c: ConfigValue) -> ConfigValueV
    decreases c,
{
    match c {
        ConfigValue::Text(s) => ConfigValueV::Text(s@),
        ConfigValue::Mapping(entries) => ConfigValueV::Mapping(mapping_views(entries@)),
        ConfigValue::Other => ConfigValueV::Other,
    }
}

/// The views of a mapping's entries, element by element.
pub open spec fn mapping_views(v: Seq<(ConfigValue, ConfigValue)>) -> Seq<(
    ConfigValueV,
    ConfigValueV,
)>
    decreases v,
{
    if v.len() == 0 {
        Seq::empty()
    } else {
        seq![(config_view(v[0].0), config_view(v[0].1))] + mapping_views(v.drop_first())
    }
}

pub proof fn lemma_mapping_views(v: Seq<(ConfigValue, ConfigValue)>)
    ensures
        mapping_views(v).len() == v.len(),
        forall|i: int|
            0 <= i < v.len() ==> mapping_views(v)[i] == (config_view(v[i].0), config_view(
                v[i].1,
            )),
    decreases v.len(),
{
    if v.len() > 0 {
        lemma_mapping_views(v.drop_first());
        assert forall|i: int|
            0 <= i < v.len() implies mapping_views(v)[i] == (config_view(v[i].0), config_view(
            v[i].1,
        )) by {
            if i > 0 {
                assert(v.drop_first()[i - 1] == v[i]);
                assert(mapping_views(v)[i] == mapping_views(v.drop_first())[i - 1]);
            }
        }
    }
}

impl View for ConfigValue {
    type V = ConfigValueV;

    open spec fn view(&self) -> ConfigValueV {
        config_view(*self)
    }
}

/// Why a configuration document was rejected. Each variant corresponds
/// to one fatal diagnostic of the command-line front end.
#[derive(Clone, Copy, Debug, PartialEq, Eq, Structural)]
pub enum ConfigError {
    TopLevelNotMapping,
    MissingFile,
    FileNotText,
    OutputNotText,
    PresetMissing,
    PresetNotText,
    ModuleNotPair,
    MalformedRulesetField,
}

/// One configured pass: its pass name and the preset it runs with.
pub struct ModuleContext {
    pub module_name: String,
    pub preset: String,
}

#[verifier::ext_equal]
pub ghost struct ModuleContextV {
    pub module_name: Seq<char>,
    pub preset: Seq<char>,
}

impl View for ModuleContext {
    type V = ModuleContextV;

    open spec fn view(&self) -> ModuleContextV {
        ModuleContextV { module_name: self.module_name@, preset: self.preset@ }
    }
}

/// One ruleset: a target file, an optional output path, and the ordered
/// passes to run over the decoded module.
pub struct ChiselContext {
    pub ruleset_name: String,
    pub file: String,
    pub outfile: Option<String>,
    pub modules: Vec<ModuleContext>,
}

#[verifier::ext_equal]
pub ghost struct ChiselContextV {
    pub ruleset_name: Seq<char>,
    pub file: Seq<char>,
    pub outfile: Option<Seq<char>>,
    pub modules: Seq<ModuleContextV>,
}

pub open spec fn module_ctx_views(v: Seq<ModuleContext>) -> Seq<ModuleContextV> {
    v.map_values(|c: ModuleContext| c@)
}

impl View for ChiselContext {
    type V = ChiselContextV;

    open spec fn view(&self) -> ChiselContextV {
        ChiselContextV {
            ruleset_name: self.ruleset_name@,
            file: self.file@,
            outfile: match self.outfile {
                Option::None => Option::None,
                Option::Some(s) => Option::Some(s@),
            },
            modules: module_ctx_views(self.modules@),
        }
    }
}

/// First value stored under a string key of a mapping's entry list.
pub open spec fn spec_get_field(entries: Seq<(ConfigValueV, ConfigValueV)>, key: Seq<char>) -> Option<
    ConfigValueV,
>
    decreases entries.len(),
{
    if entries.len() == 0 {
        Option::None
    } else if entries[0].0 == ConfigValueV::Text(key) {
        Option::Some(entries[0].1)
    } else {
        spec_get_field(entries.drop_first(), key)
    }
}

/// Looks a string key up in a mapping's entry list; the value's kind
/// is left to the caller.
pub fn get_field<'a>(entries: &'a Vec<(ConfigValue, ConfigValue)>, key: &str) -> (r: Option<
    &'a ConfigValue,
>)
    ensures
        match r {
            Option::None => spec_get_field(mapping_views(entries@), key@) is None,
            Option::Some(v) => spec_get_field(mapping_views(entries@), key@) == Option::Some(v@),
        },
{
    let ghost evs = mapping_views(entries@);
    proof {
        lemma_mapping_views(entries@);
        assert(evs.skip(0) =~= evs);
    }
    let mut i: usize = 0;
    while i < entries.len()
        invariant
            i <= entries.len(),
            evs == mapping_views(entries@),
            evs.len() == entries@.len(),
            spec_get_field(evs, key@) == spec_get_field(evs.skip(i as int), key@),
        decreases entries.len() - i,
    {
        proof {
            lemma_mapping_views(entries@);
            assert(evs.skip(i as int)[0] == evs[i as int]);
            assert(evs.skip(i as int).drop_first() =~= evs.skip(i as int + 1));
            assert(evs[i as int] == (config_view(entries@[i as int].0), config_view(
                entries@[i as int].1,
            )));
        }
        match &entries[i].0 {
            ConfigValue::Text(s) => {
                if crate::ast::str_eq(s.as_str(), key) {
                    return Option::Some(&entries[i].1);
                }
            },
            _ => {},
        }
        i += 1;
    }
    proof {
        assert(evs.skip(i as int).len() == 0);
    }
    Option::None
}

/// One pass entry read from a ruleset mapping: the key must be a
/// string and the value a mapping holding a string under "preset".
pub open spec fn spec_module_ctx(entry: (ConfigValueV, ConfigValueV)) -> Result<
    ModuleContextV,
    ConfigError,
> {
    match entry {
        (ConfigValueV::Text(name), ConfigValueV::Mapping(flags)) => match spec_get_field(
            flags,
            "preset"@,
        ) {
            Option::Some(ConfigValueV::Text(p)) => Result::Ok(
                ModuleContextV { module_name: name, preset: p },
            ),
            Option::Some(_) => Result::Err(ConfigError::PresetNotText),
            Option::None => Result::Err(ConfigError::PresetMissing),
        },
        (ConfigValueV::Text(_), _) => Result::Err(ConfigError::ModuleNotPair),
        _ => Result::Err(ConfigError::MalformedRulesetField),
    }
}

impl ModuleContext {
    /// Reads one pass entry; fails with the diagnostic the front end
    /// reports for each malformed shape.
    pub fn from_yaml(entry: &(ConfigValue, ConfigValue)) -> (r: Result<
        ModuleContext,
        ConfigError,
    >)
        ensures
            match r {
                Result::Ok(c) => spec_module_ctx((entry.0@, entry.1@)) == Result::<
                    ModuleContextV,
                    ConfigError,
                >::Ok(c@),
                Result::Err(e) => spec_module_ctx((entry.0@, entry.1@)) == Result::<
                    ModuleContextV,
                    ConfigError,
                >::Err(e),
            },
    {
        match (&entry.0, &entry.1) {
            (ConfigValue::Text(name), ConfigValue::Mapping(flags)) => {
                match get_field(flags, "preset") {
                    Option::Some(v) => match v {
                        ConfigValue::Text(p) => Result::Ok(
                            ModuleContext { module_name: name.clone(), preset: p.clone() },
                        ),
                        _ => Result::Err(ConfigError::PresetNotText),
                    },
                    Option::None => Result::Err(ConfigError::PresetMissing),
                }
            },
            (ConfigValue::Text(_), _) => Result::Err(ConfigError::ModuleNotPair),
            _ => Result::Err(ConfigError::MalformedRulesetField),
        }
    }

    /// The pass name and preset, as a pair.
    pub fn fields(&self) -> (r: (&String, &String))
        ensures
            r.0@ == self@.module_name,
            r.1@ == self@.preset,
    {
        (&self.module_name, &self.preset)
    }
}

/// Whether a ruleset mapping key is one of the two reserved fields.
pub open spec fn is_reserved_key(k: ConfigValueV) -> bool {
    k == ConfigValueV::Text("file"@) || k == ConfigValueV::Text("output"@)
}

/// The pass entries of a ruleset: every non-reserved entry, read in
/// order, the first malformed one rejecting the whole document.
pub open spec fn spec_ruleset_modules(entries: Seq<(ConfigValueV, ConfigValueV)>) -> Result<
    Seq<ModuleContextV>,
    ConfigError,
>
    decreases entries.len(),
{
    if entries.len() == 0 {
        Result::Ok(Seq::empty())
    } else if is_reserved_key(entries[0].0) {
        spec_ruleset_modules(entries.drop_first())
    } else {
        match spec_module_ctx(entries[0]) {
            Result::Err(e) => Result::Err(e),
            Result::Ok(c) => match spec_ruleset_modules(entries.drop_first()) {
                Result::Err(e) => Result::Err(e),
                Result::Ok(rest) => Result::Ok(seq![c] + rest),
            },
        }
    }
}

/// One ruleset read from its name and mapping: the required "file"
/// string, the optional "output" string, and the pass entries.
pub open spec fn spec_context(name: Seq<char>, entries: Seq<(ConfigValueV, ConfigValueV)>) -> Result<
    ChiselContextV,
    ConfigError,
> {
    match spec_get_field(entries, "file"@) {
        Option::None => Result::Err(ConfigError::MissingFile),
        Option::Some(ConfigValueV::Text(file)) => {
            let outfile: Result<Option<Seq<char>>, ConfigError> = match spec_get_field(
                entries,
                "output"@,
            ) {
                Option::None => Result::Ok(Option::None),
                Option::Some(ConfigValueV::Text(o)) => Result::Ok(Option::Some(o)),
                Option::Some(_) => Result::Err(ConfigError::OutputNotText),
            };
            match outfile {
                Result::Err(e) => Result::Err(e),
                Result::Ok(out) => match spec_ruleset_modules(entries) {
                    Result::Err(e) => Result::Err(e),
                    Result::Ok(mods) => Result::Ok(
                        ChiselContextV {
                            ruleset_name: name,
                            file: file,
                            outfile: out,
                            modules: mods,
                        },
                    ),
                },
            }
        },
        Option::Some(_) => Result::Err(ConfigError::FileNotText),
    }
}

/// The rulesets of a whole document: every (string, mapping) pair of
/// the top-level mapping, in order; other pairs are skipped; anything
/// but a mapping at the top level is rejected.
pub open spec fn spec_rulesets(entries: Seq<(ConfigValueV, ConfigValueV)>) -> Result<
    Seq<ChiselContextV>,
    ConfigError,
>
    decreases entries.len(),
{
    if entries.len() == 0 {
        Result::Ok(Seq::empty())
    } else {
        match entries[0] {
            (ConfigValueV::Text(name), ConfigValueV::Mapping(cfg)) => match spec_context(
                name,
                cfg,
            ) {
                Result::Err(e) => Result::Err(e),
                Result::Ok(c) => match spec_rulesets(entries.drop_first()) {
                    Result::Err(e) => Result::Err(e),
                    Result::Ok(rest) => Result::Ok(seq![c] + rest),
                },
            },
            _ => spec_rulesets(entries.drop_first()),
        }
    }
}

pub open spec fn spec_from_ruleset(v: ConfigValueV) -> Result<Seq<ChiselContextV>, ConfigError> {
    match v {
        ConfigValueV::Mapping(entries) => spec_rulesets(entries),
        _ => Result::Err(ConfigError::TopLevelNotMapping),
    }
}

impl ChiselContext {
    /// Reads every ruleset out of a parsed configuration document,
    /// rejecting the document on the first malformed field.
    pub fn from_ruleset(ruleset: &ConfigValue) -> (r: Result<Vec<ChiselContext>, ConfigError>)
        ensures
            match r {
                Result::Ok(ctxs) => spec_from_ruleset(ruleset@) == Result::<
                    Seq<ChiselContextV>,
                    ConfigError,
                >::Ok(ctxs@.map_values(|c: ChiselContext| c@)),
                Result::Err(e) => spec_from_ruleset(ruleset@) == Result::<
                    Seq<ChiselContextV>,
                    ConfigError,
                >::Err(e),
            },
    {
        let rules: &Vec<(ConfigValue, ConfigValue)> = match ruleset {
            ConfigValue::Mapping(rules) => rules,
            _ => {
                return Result::Err(ConfigError::TopLevelNotMapping);
            },
        };
        let ghost evs = mapping_views(rules@);
        proof {
            lemma_mapping_views(rules@);
            assert(evs.skip(0) =~= evs);
            assert(ruleset@ == ConfigValueV::Mapping(evs));
        }
        let mut out: Vec<ChiselContext> = Vec::new();
        let mut i: usize = 0;
        while i < rules.len()
            invariant
                i <= rules.len(),
                evs == mapping_views(rules@),
                evs.len() == rules@.len(),
                ruleset@ == ConfigValueV::Mapping(evs),
                spec_rulesets(evs) == (match spec_rulesets(evs.skip(i as int)) {
                    Result::Err(e) => Result::<Seq<ChiselContextV>, ConfigError>::Err(e),
                    Result::Ok(rest) => Result::Ok(
                        out@.map_values(|c: ChiselContext| c@) + rest,
                    ),
                }),
            decreases rules.len() - i,
        {
            proof {
                lemma_mapping_views(rules@);
                assert(evs.skip(i as int)[0] == evs[i as int]);
                assert(evs.skip(i as int).drop_first() =~= evs.skip(i as int + 1));
                assert(evs[i as int] == (config_view(rules@[i as int].0), config_view(
                    rules@[i as int].1,
                )));
            }
            match (&rules[i].0, &rules[i].1) {
                (ConfigValue::Text(name), ConfigValue::Mapping(cfg)) => {
                    match Self::context_of(name, cfg) {
                        Result::Ok(c) => {
                            let ghost prev = out@;
                            out.push(c);
                            proof {
                                assert(out@.map_values(|c2: ChiselContext| c2@) =~= prev
                                    .map_values(|c2: ChiselContext| c2@).push(c@));
                                assert forall|rest: Seq<ChiselContextV>|
                                    prev.map_values(|c2: ChiselContext| c2@) + (seq![c@]
                                        + rest) =~= out@.map_values(|c2: ChiselContext| c2@)
                                        + rest by {}
                            }
                        },
                        Result::Err(e) => {
                            proof {
                                assert(evs[i as int].0 == ConfigValueV::Text(name@));
                                assert(evs[i as int].1 == ConfigValueV::Mapping(
                                    mapping_views(cfg@),
                                ));
                                assert(spec_rulesets(evs.skip(i as int)) == Result::<
                                    Seq<ChiselContextV>,
                                    ConfigError,
                                >::Err(e));
                            }
                            return Result::Err(e);
                        },
                    }
                },
                _ => {},
            }
            i += 1;
        }
        proof {
            assert(evs.skip(i as int).len() == 0);
            assert(out@.map_values(|c: ChiselContext| c@) + Seq::<ChiselContextV>::empty()
                =~= out@.map_values(|c: ChiselContext| c@));
        }
        Result::Ok(out)
    }

    /// Reads one ruleset out of its name and mapping entries.
    fn context_of(name: &String, entries: &Vec<(ConfigValue, ConfigValue)>) -> (r: Result<
        ChiselContext,
        ConfigError,
    >)
        ensures
            match r {
                Result::Ok(c) => spec_context(name@, mapping_views(entries@)) == Result::<
                    ChiselContextV,
                    ConfigError,
                >::Ok(c@),
                Result::Err(e) => spec_context(name@, mapping_views(entries@)) == Result::<
                    ChiselContextV,
                    ConfigError,
                >::Err(e),
            },
    {
        let ghost evs = mapping_views(entries@);
        let file: String = match get_field(entries, "file") {
            Option::None => {
                return Result::Err(ConfigError::MissingFile);
            },
            Option::Some(v) => match v {
                ConfigValue::Text(f) => f.clone(),
                _ => {
                    return Result::Err(ConfigError::FileNotText);
                },
            },
        };
        let outfile: Option<String> = match get_field(entries, "output") {
            Option::None => Option::None,
            Option::Some(v) => match v {
                ConfigValue::Text(o) => Option::Some(o.clone()),
                _ => {
                    return Result::Err(ConfigError::OutputNotText);
                },
            },
        };
        let mut modules: Vec<ModuleContext> = Vec::new();
        proof {
            lemma_mapping_views(entries@);
            assert(evs.skip(0) =~= evs);
        }
        let mut i: usize = 0;
        while i < entries.len()
            invariant
                i <= entries.len(),
                evs == mapping_views(entries@),
                evs.len() == entries@.len(),
                spec_get_field(evs, "file"@) == Option::Some(ConfigValueV::Text(file@)),
                (match outfile {
                    Option::None => spec_get_field(evs, "output"@) is None,
                    Option::Some(o) => spec_get_field(evs, "output"@) == Option::Some(
                        ConfigValueV::Text(o@),
                    ),
                }),
                spec_ruleset_modules(evs) == (match spec_ruleset_modules(evs.skip(i as int)) {
                    Result::Err(e) => Result::<Seq<ModuleContextV>, ConfigError>::Err(e),
                    Result::Ok(rest) => Result::Ok(module_ctx_views(modules@) + rest),
                }),
            decreases entries.len() - i,
        {
            proof {
                lemma_mapping_views(entries@);
                assert(evs.skip(i as int)[0] == evs[i as int]);
                assert(evs.skip(i as int).drop_first() =~= evs.skip(i as int + 1));
                assert(evs[i as int] == (config_view(entries@[i as int].0), config_view(
                    entries@[i as int].1,
                )));
            }
            let reserved = match &entries[i].0 {
                ConfigValue::Text(k) => crate::ast::str_eq(k.as_str(), "file")
                    || crate::ast::str_eq(k.as_str(), "output"),
                _ => false,
            };
            if !reserved {
                proof {
                    assert(!is_reserved_key(evs[i as int].0));
                }
                match ModuleContext::from_yaml(&entries[i]) {
                    Result::Ok(c) => {
                        let ghost prev = modules@;
                        modules.push(c);
                        proof {
                            assert(module_ctx_views(modules@) =~= module_ctx_views(prev).push(
                                c@,
                            ));
                            assert forall|rest: Seq<ModuleContextV>|
                                module_ctx_views(prev) + (seq![c@] + rest) =~= module_ctx_views(
                                    modules@,
                                ) + rest by {}
                        }
                    },
                    Result::Err(e) => {
                        proof {
                            assert(spec_module_ctx(evs[i as int]) == Result::<
                                ModuleContextV,
                                ConfigError,
                            >::Err(e));
                            assert(spec_ruleset_modules(evs.skip(i as int)) == Result::<
                                Seq<ModuleContextV>,
                                ConfigError,
                            >::Err(e));
                        }
                        return Result::Err(e);
                    },
                }
            } else {
                proof {
                    assert(is_reserved_key(evs[i as int].0));
                }
            }
            i += 1;
        }
        proof {
            assert(evs.skip(i as int).len() == 0);
            assert(module_ctx_views(modules@) + Seq::<ModuleContextV>::empty()
                =~= module_ctx_views(modules@));
        }
        let c = ChiselContext { ruleset_name: name.clone(), file, outfile, modules };
        Result::Ok(c)
    }

    /// The ruleset's name.
    pub fn name(&self) -> (r: &String)
        ensures
            r@ == self@.ruleset_name,
    {
        &self.ruleset_name
    }

    /// The target file path.
    pub fn file(&self) -> (r: &String)
        ensures
            r@ == self@.file,
    {
        &self.file
    }

    /// The output file path, when one was configured.
    pub fn outfile(&self) -> (r: &Option<String>)
        ensures
            (r is Some) == (self@.outfile is Some),
            r matches Option::Some(s) ==> self@.outfile == Option::Some(s@),
    {
        &self.outfile
    }

    /// The configured passes, in document order.
    pub fn get_modules(&self) -> (r: &Vec<ModuleContext>)
        ensures
            module_ctx_views(r@) == self@.modules,
    {
        &self.modules
    }
}

} // verus!
