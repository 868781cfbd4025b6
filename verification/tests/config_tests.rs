use chisel::config::{ChiselContext, ConfigError, ConfigValue, ModuleContext};

fn text(s: &str) -> ConfigValue {
    ConfigValue::Text(s.to_string())
}

fn mapping(entries: Vec<(ConfigValue, ConfigValue)>) -> ConfigValue {
    ConfigValue::Mapping(entries)
}

fn preset_flags(p: &str) -> ConfigValue {
    mapping(vec![(text("preset"), text(p))])
}

#[test]
fn from_ruleset_reads_file_output_and_passes() {
    let doc = mapping(vec![(
        text("rules"),
        mapping(vec![
            (text("file"), text("in.wasm")),
            (text("output"), text("out.wasm")),
            (text("verifyimports"), preset_flags("ewasm")),
            (text("snip"), preset_flags("ewasm")),
        ]),
    )]);
    let ctxs = ChiselContext::from_ruleset(&doc).unwrap();
    assert_eq!(ctxs.len(), 1);
    let c = &ctxs[0];
    assert_eq!(c.name(), "rules");
    assert_eq!(c.file(), "in.wasm");
    assert_eq!(c.outfile().as_ref().unwrap(), "out.wasm");
    let mods = c.get_modules();
    assert_eq!(mods.len(), 2);
    let (n0, p0) = mods[0].fields();
    assert_eq!(n0, "verifyimports");
    assert_eq!(p0, "ewasm");
    let (n1, _) = mods[1].fields();
    assert_eq!(n1, "snip");
}

#[test]
fn from_ruleset_output_is_optional() {
    let doc = mapping(vec![(
        text("r"),
        mapping(vec![(text("file"), text("a.wasm"))]),
    )]);
    let ctxs = ChiselContext::from_ruleset(&doc).unwrap();
    assert!(ctxs[0].outfile().is_none());
    assert_eq!(ctxs[0].get_modules().len(), 0);
}

#[test]
fn from_ruleset_skips_non_mapping_rulesets() {
    let doc = mapping(vec![
        (text("junk"), text("scalar")),
        (text("r"), mapping(vec![(text("file"), text("a.wasm"))])),
    ]);
    let ctxs = ChiselContext::from_ruleset(&doc).unwrap();
    assert_eq!(ctxs.len(), 1);
    assert_eq!(ctxs[0].name(), "r");
}

#[test]
fn from_ruleset_requires_mapping_at_top() {
    assert_eq!(
        ChiselContext::from_ruleset(&text("nope")).err().unwrap(),
        ConfigError::TopLevelNotMapping,
    );
}

#[test]
fn from_ruleset_requires_file() {
    let doc = mapping(vec![(text("r"), mapping(vec![]))]);
    assert_eq!(ChiselContext::from_ruleset(&doc).err().unwrap(), ConfigError::MissingFile);
}

#[test]
fn from_ruleset_rejects_non_text_file() {
    let doc = mapping(vec![(
        text("r"),
        mapping(vec![(text("file"), mapping(vec![]))]),
    )]);
    assert_eq!(ChiselContext::from_ruleset(&doc).err().unwrap(), ConfigError::FileNotText);
}

#[test]
fn from_ruleset_rejects_non_text_output() {
    let doc = mapping(vec![(
        text("r"),
        mapping(vec![
            (text("file"), text("a.wasm")),
            (text("output"), ConfigValue::Other),
        ]),
    )]);
    assert_eq!(ChiselContext::from_ruleset(&doc).err().unwrap(), ConfigError::OutputNotText);
}

#[test]
fn module_entry_requires_preset() {
    let entry = (text("snip"), mapping(vec![]));
    assert_eq!(ModuleContext::from_yaml(&entry).err().unwrap(), ConfigError::PresetMissing);
    let entry = (text("snip"), mapping(vec![(text("preset"), ConfigValue::Other)]));
    assert_eq!(ModuleContext::from_yaml(&entry).err().unwrap(), ConfigError::PresetNotText);
    let entry = (text("snip"), text("notamap"));
    assert_eq!(ModuleContext::from_yaml(&entry).err().unwrap(), ConfigError::ModuleNotPair);
    let entry = (ConfigValue::Other, text("x"));
    assert_eq!(
        ModuleContext::from_yaml(&entry).err().unwrap(),
        ConfigError::MalformedRulesetField,
    );
}

#[test]
fn module_entry_reads_name_and_preset() {
    let entry = (text("deployer"), preset_flags("memory"));
    let c = ModuleContext::from_yaml(&entry).unwrap();
    let (n, p) = c.fields();
    assert_eq!(n, "deployer");
    assert_eq!(p, "memory");
}
