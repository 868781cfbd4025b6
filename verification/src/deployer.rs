use vstd::prelude::*;

use crate::ast::{
    dup_copy_vec, str_eq, CustomSection, CustomSectionV, DataSegment, DataSegmentV, ExportEntry,
    ExportEntryV, ExportInternal, External, FuncBody, FuncBodyV, FuncSig, FuncSigV, ImportEntry,
    ImportEntryV, Limits, LocalGroup, Module, ModuleV, ValType,
};
use crate::encode::{enc_module, encode_module};
use crate::instr::Instr;
use crate::leb128::{push_le32, spec_le32};
use crate::ModuleError;

verus! {

/// The payload-embedding translator: wraps the serialized bytes of the
/// module it is given inside a freshly built deployment wrapper, in one
/// of two shapes.
pub enum Deployer {
    Memory,
    CustomSection,
}

/// Initial page count of the wrapper's memory: one page for every
/// complete 64 KiB of payload, plus one.
pub open spec fn spec_page_count(len: nat) -> nat {
    len / 65536 + 1
}

/// The hand-authored bootstrap wrapper of the custom-section variant: at
/// run time its `main` copies the running module's own code into linear
/// memory, reads the 32-bit little-endian payload length stored
/// immediately before the code's end, and returns exactly that many
/// bytes located directly before the length trailer.
pub open spec fn spec_bootstrap_module() -> ModuleV {
    ModuleV {
        types: seq![
            FuncSigV { params: seq![], ret: Option::Some(ValType::I32) },
            FuncSigV {
                params: seq![ValType::I32, ValType::I32, ValType::I32],
                ret: Option::None,
            },
            FuncSigV { params: seq![ValType::I32, ValType::I32], ret: Option::None },
            FuncSigV { params: seq![], ret: Option::None },
        ],
        imports: seq![
            ImportEntryV {
                module: "ethereum"@,
                field: "getCodeSize"@,
                external: External::Function(0),
            },
            ImportEntryV {
                module: "ethereum"@,
                field: "codeCopy"@,
                external: External::Function(1),
            },
            ImportEntryV {
                module: "ethereum"@,
                field: "finish"@,
                external: External::Function(2),
            },
        ],
        functions: seq![3u32],
        tables: seq![],
        memories: seq![Limits { initial: 1, maximum: Option::None }],
        globals: seq![],
        exports: seq![
            ExportEntryV { field: "memory"@, internal: ExportInternal::Memory(0) },
            ExportEntryV { field: "main"@, internal: ExportInternal::Function(3) },
        ],
        start: Option::None,
        elements: seq![],
        code: Option::Some(
            seq![
                FuncBodyV {
                    locals: seq![LocalGroup { count: 3, ty: ValType::I32 }],
                    code: seq![
                        Instr::Call(0),
                        Instr::SetLocal(0),
                        Instr::I32Const(0),
                        Instr::I32Const(0),
                        Instr::GetLocal(0),
                        Instr::Call(1),
                        Instr::GetLocal(0),
                        Instr::I32Const(4),
                        Instr::I32Sub,
                        Instr::I32Load(2, 0),
                        Instr::SetLocal(2),
                        Instr::GetLocal(0),
                        Instr::I32Const(4),
                        Instr::I32Sub,
                        Instr::GetLocal(2),
                        Instr::I32Sub,
                        Instr::SetLocal(1),
                        Instr::GetLocal(1),
                        Instr::GetLocal(2),
                        Instr::Call(2),
                        Instr::End,
                    ],
                },
            ],
        ),
        data: seq![],
        customs: seq![],
    }
}

/// The custom-section wrapper around a payload: the bootstrap module,
/// with its memory's initial page count adjusted to hold the payload and
/// a custom section named "deployer" appended, whose content is the
/// payload followed by its 32-bit little-endian length.
pub open spec fn spec_custom_deployer(p: Seq<u8>) -> ModuleV {
    ModuleV {
        memories: seq![
            Limits { initial: spec_page_count(p.len()) as u32, maximum: Option::None },
        ],
        customs: seq![
            CustomSectionV { name: "deployer"@, payload: p + spec_le32(p.len() as u32) },
        ],
        ..spec_bootstrap_module()
    }
}

/// The memory-embedding wrapper around a payload: a module built from
/// scratch that imports `ethereum.finish`, stores the payload in its
/// linear memory at offset zero, exports that memory as "memory", and
/// exports a `main` whose body hands the payload to `finish`.
pub open spec fn spec_memory_deployer(p: Seq<u8>) -> ModuleV {
    ModuleV {
        types: seq![
            FuncSigV { params: seq![ValType::I32, ValType::I32], ret: Option::None },
            FuncSigV { params: seq![], ret: Option::None },
        ],
        imports: seq![
            ImportEntryV {
                module: "ethereum"@,
                field: "finish"@,
                external: External::Function(0),
            },
        ],
        functions: seq![0u32, 1u32],
        tables: seq![],
        memories: seq![
            Limits { initial: spec_page_count(p.len()) as u32, maximum: Option::None },
        ],
        globals: seq![],
        exports: seq![
            ExportEntryV { field: "main"@, internal: ExportInternal::Function(2) },
            ExportEntryV { field: "memory"@, internal: ExportInternal::Memory(0) },
        ],
        start: Option::None,
        elements: seq![],
        code: Option::Some(
            seq![
                FuncBodyV { locals: seq![], code: seq![Instr::End] },
                FuncBodyV {
                    locals: seq![],
                    code: seq![
                        Instr::I32Const(0),
                        Instr::I32Const(p.len() as i32),
                        Instr::Call(0),
                        Instr::End,
                    ],
                },
            ],
        ),
        data: seq![DataSegmentV { index: 0, offset: 0, data: p }],
        customs: seq![],
    }
}

/// The raw bytes of the bootstrap wrapper module; `bootstrap_module`
/// holds the same module in structured form.
pub fn deployer_code() -> (r: Vec<u8>)
    ensures
        r@ == enc_module(spec_bootstrap_module()),
{
    let m = bootstrap_module();
    encode_module(&m)
}

/// Builds the bootstrap wrapper in structured form.
pub fn bootstrap_module() -> (r: Module)
    ensures
        r@ == spec_bootstrap_module(),
{
    let types: Vec<FuncSig> = vec![
        FuncSig { params: Vec::new(), ret: Option::Some(ValType::I32) },
        FuncSig {
            params: vec![ValType::I32, ValType::I32, ValType::I32],
            ret: Option::None,
        },
        FuncSig { params: vec![ValType::I32, ValType::I32], ret: Option::None },
        FuncSig { params: Vec::new(), ret: Option::None },
    ];
    let imports: Vec<ImportEntry> = vec![
        ImportEntry {
            module: "ethereum".to_owned(),
            field: "getCodeSize".to_owned(),
            external: External::Function(0),
        },
        ImportEntry {
            module: "ethereum".to_owned(),
            field: "codeCopy".to_owned(),
            external: External::Function(1),
        },
        ImportEntry {
            module: "ethereum".to_owned(),
            field: "finish".to_owned(),
            external: External::Function(2),
        },
    ];
    let exports: Vec<ExportEntry> = vec![
        ExportEntry { field: "memory".to_owned(), internal: ExportInternal::Memory(0) },
        ExportEntry { field: "main".to_owned(), internal: ExportInternal::Function(3) },
    ];
    let body = FuncBody {
        locals: vec![LocalGroup { count: 3, ty: ValType::I32 }],
        code: vec![
            Instr::Call(0),
            Instr::SetLocal(0),
            Instr::I32Const(0),
            Instr::I32Const(0),
            Instr::GetLocal(0),
            Instr::Call(1),
            Instr::GetLocal(0),
            Instr::I32Const(4),
            Instr::I32Sub,
            Instr::I32Load(2, 0),
            Instr::SetLocal(2),
            Instr::GetLocal(0),
            Instr::I32Const(4),
            Instr::I32Sub,
            Instr::GetLocal(2),
            Instr::I32Sub,
            Instr::SetLocal(1),
            Instr::GetLocal(1),
            Instr::GetLocal(2),
            Instr::Call(2),
            Instr::End,
        ],
    };
    let m = Module {
        types,
        imports,
        functions: vec![3u32],
        tables: Vec::new(),
        memories: vec![Limits { initial: 1, maximum: Option::None }],
        globals: Vec::new(),
        exports,
        start: Option::None,
        elements: Vec::new(),
        code: Option::Some(vec![body]),
        data: Vec::new(),
        customs: Vec::new(),
    };
    proof {
        assert(m@ =~~= spec_bootstrap_module());
    }
    m
}

/// Builds the custom-section wrapper around the given payload bytes.
pub fn create_custom_deployer(payload: &Vec<u8>) -> (r: Result<Module, ModuleError>)
    requires
        payload@.len() <= 0xffff_ffff,
    ensures
        r is Ok,
        r->Ok_0@ == spec_custom_deployer(payload@),
{
    let mut m = bootstrap_module();
    let pages: u32 = (payload.len() as u32) / 65536 + 1;
    m.memories = vec![Limits { initial: pages, maximum: Option::None }];
    let mut content: Vec<u8> = dup_copy_vec(payload);
    push_le32(&mut content, payload.len() as u32);
    m.customs = vec![CustomSection { name: "deployer".to_owned(), payload: content }];
    proof {
        assert(m@ =~~= spec_custom_deployer(payload@));
    }
    Result::Ok(m)
}

/// Builds the memory-embedding wrapper around the given payload bytes.
pub fn create_memory_deployer(payload: &Vec<u8>) -> (r: Module)
    requires
        payload@.len() <= 0x7fff_ffff,
    ensures
        r@ == spec_memory_deployer(payload@),
{
    let types: Vec<FuncSig> = vec![
        FuncSig { params: vec![ValType::I32, ValType::I32], ret: Option::None },
        FuncSig { params: Vec::new(), ret: Option::None },
    ];
    let imports: Vec<ImportEntry> = vec![
        ImportEntry {
            module: "ethereum".to_owned(),
            field: "finish".to_owned(),
            external: External::Function(0),
        },
    ];
    let exports: Vec<ExportEntry> = vec![
        ExportEntry { field: "main".to_owned(), internal: ExportInternal::Function(2) },
        ExportEntry { field: "memory".to_owned(), internal: ExportInternal::Memory(0) },
    ];
    let bodies: Vec<FuncBody> = vec![
        FuncBody { locals: Vec::new(), code: vec![Instr::End] },
        FuncBody {
            locals: Vec::new(),
            code: vec![
                Instr::I32Const(0),
                Instr::I32Const(payload.len() as i32),
                Instr::Call(0),
                Instr::End,
            ],
        },
    ];
    let pages: u32 = (payload.len() as u32) / 65536 + 1;
    let m = Module {
        types,
        imports,
        functions: vec![0u32, 1u32],
        tables: Vec::new(),
        memories: vec![Limits { initial: pages, maximum: Option::None }],
        globals: Vec::new(),
        exports,
        start: Option::None,
        elements: Vec::new(),
        code: Option::Some(bodies),
        data: vec![
            DataSegment { index: 0, offset: 0, data: dup_copy_vec(payload) },
        ],
        customs: Vec::new(),
    };
    proof {
        assert(m@ =~~= spec_memory_deployer(payload@));
    }
    m
}

impl Deployer {
    /// Constructs the variant a preset names: "memory" or
    /// "customsection"; any other preset is refused.
    pub fn with_preset(preset: &str) -> (r: Result<Deployer, ModuleError>)
        ensures
            match r {
                Result::Ok(Deployer::Memory) => preset@ == "memory"@,
                Result::Ok(Deployer::CustomSection) => preset@ == "customsection"@,
                Result::Err(e) => e == ModuleError::NotSupported && preset@ != "memory"@
                    && preset@ != "customsection"@,
            },
    {
        if str_eq(preset, "memory") {
            Result::Ok(Deployer::Memory)
        } else if str_eq(preset, "customsection") {
            Result::Ok(Deployer::CustomSection)
        } else {
            Result::Err(ModuleError::NotSupported)
        }
    }

    /// Construction without configuration is refused: this pass needs a
    /// preset to pick its variant.
    pub fn with_defaults() -> (r: Result<Deployer, ModuleError>)
        ensures
            r == Result::<Deployer, ModuleError>::Err(ModuleError::NotSupported),
    {
        Result::Err(ModuleError::NotSupported)
    }

    /// Construction from a generic configuration map: delegates to the
    /// value of its "preset" key, and is refused when that key is absent.
    pub fn with_config(config: &Vec<(String, String)>) -> (r: Result<Deployer, ModuleError>)
        ensures
            match spec_config_lookup(config@.map_values(|p: (String, String)| (p.0@, p.1@)), "preset"@) {
                Option::None => r == Result::<Deployer, ModuleError>::Err(
                    ModuleError::NotSupported,
                ),
                Option::Some(p) => match r {
                    Result::Ok(Deployer::Memory) => p == "memory"@,
                    Result::Ok(Deployer::CustomSection) => p == "customsection"@,
                    Result::Err(e) => e == ModuleError::NotSupported && p != "memory"@ && p
                        != "customsection"@,
                },
            },
    {
        let mut i: usize = 0;
        let ghost cfg = config@.map_values(|p: (String, String)| (p.0@, p.1@));
        proof {
            assert(cfg.skip(0) =~= cfg);
        }
        while i < config.len()
            invariant
                i <= config.len(),
                cfg == config@.map_values(|p: (String, String)| (p.0@, p.1@)),
                forall|j: int| 0 <= j < i ==> cfg[j].0 != "preset"@,
                spec_config_lookup(cfg, "preset"@) == spec_config_lookup(
                    cfg.skip(i as int),
                    "preset"@,
                ),
            decreases config.len() - i,
        {
            if str_eq(config[i].0.as_str(), "preset") {
                proof {
                    assert(cfg.skip(i as int)[0] == cfg[i as int]);
                    assert(spec_config_lookup(cfg, "preset"@) == Option::Some(cfg[i as int].1));
                }
                return Deployer::with_preset(config[i].1.as_str());
            }
            proof {
                assert(cfg.skip(i as int)[0] == cfg[i as int]);
                assert(cfg.skip(i as int).drop_first() =~= cfg.skip(i as int + 1));
            }
            i += 1;
        }
        proof {
            assert(cfg.skip(i as int).len() == 0);
        }
        Result::Err(ModuleError::NotSupported)
    }

    /// This translator cannot rewrite in place: its output bears no
    /// structural relation to its input. The module is left untouched.
    pub fn translate_inplace(&self, module: &mut Module) -> (r: Result<bool, ModuleError>)
        ensures
            r == Result::<bool, ModuleError>::Err(ModuleError::NotSupported),
            final(module)@ == old(module)@,
    {
        Result::Err(ModuleError::NotSupported)
    }

    /// Translation by replacement: serializes the input module and wraps
    /// those bytes per the configured variant. Always returns a fresh
    /// module.
    pub fn translate(&self, module: &Module) -> (r: Result<Option<Module>, ModuleError>)
        requires
            enc_module(module@).len() <= 0x7fff_ffff,
        ensures
            r is Ok && r->Ok_0 is Some,
            r->Ok_0->Some_0@ == (match self {
                Deployer::Memory => spec_memory_deployer(enc_module(module@)),
                Deployer::CustomSection => spec_custom_deployer(enc_module(module@)),
            }),
    {
        let payload = encode_module(module);
        let output = match self {
            Deployer::Memory => create_memory_deployer(&payload),
            Deployer::CustomSection => {
                match create_custom_deployer(&payload) {
                    Result::Ok(m) => m,
                    Result::Err(_) => {
                        proof {
                            assert(false);
                        }
                        Module::empty()
                    },
                }
            },
        };
        Result::Ok(Option::Some(output))
    }
}

/// First-match lookup of a key in an ordered configuration map.
pub open spec fn spec_config_lookup(cfg: Seq<(Seq<char>, Seq<char>)>, key: Seq<char>) -> Option<
    Seq<char>,
>
    decreases cfg.len(),
{
    if cfg.len() == 0 {
        Option::None
    } else if cfg[0].0 == key {
        Option::Some(cfg[0].1)
    } else {
        spec_config_lookup(cfg.drop_first(), key)
    }
}

} // verus!
