use vstd::prelude::*;

use crate::ast::{str_eq, FuncSig, FuncSigV, ValType};
use crate::ModuleError;

verus! {

/// One entry of an import allow-list: the source namespace, the field
/// name, and — for function imports — the exact signature.
pub enum ImportType {
    Function(String, String, FuncSig),
    Global(String, String),
    Memory(String, String),
    Table(String, String),
}

#[verifier::ext_equal]
pub ghost enum ImportTypeV {
    Function(Seq<char>, Seq<char>, FuncSigV),
    Global(Seq<char>, Seq<char>),
    Memory(Seq<char>, Seq<char>),
    Table(Seq<char>, Seq<char>),
}

impl View for ImportType {
    type V = ImportTypeV;

    open spec fn view(&self) -> ImportTypeV {
        match self {
            ImportType::Function(m, f, s) => ImportTypeV::Function(m@, f@, s@),
            ImportType::Global(m, f) => ImportTypeV::Global(m@, f@),
            ImportType::Memory(m, f) => ImportTypeV::Memory(m@, f@),
            ImportType::Table(m, f) => ImportTypeV::Table(m@, f@),
        }
    }
}

/// The namespace of an allow-list entry.
pub open spec fn entry_module(e: ImportTypeV) -> Seq<char> {
    match e {
        ImportTypeV::Function(m, _, _) => m,
        ImportTypeV::Global(m, _) => m,
        ImportTypeV::Memory(m, _) => m,
        ImportTypeV::Table(m, _) => m,
    }
}

/// The field name of an allow-list entry.
pub open spec fn entry_field(e: ImportTypeV) -> Seq<char> {
    match e {
        ImportTypeV::Function(_, f, _) => f,
        ImportTypeV::Global(_, f) => f,
        ImportTypeV::Memory(_, f) => f,
        ImportTypeV::Table(_, f) => f,
    }
}

impl ImportType {
    /// The namespace the entry imports from.
    pub fn module(&self) -> (r: &String)
        ensures
            r@ == entry_module(self@),
    {
        match self {
            ImportType::Function(module, _, _) => module,
            ImportType::Global(module, _) => module,
            ImportType::Memory(module, _) => module,
            ImportType::Table(module, _) => module,
        }
    }

    /// The field name the entry imports.
    pub fn field(&self) -> (r: &String)
        ensures
            r@ == entry_field(self@),
    {
        match self {
            ImportType::Function(_, field, _) => field,
            ImportType::Global(_, field) => field,
            ImportType::Memory(_, field) => field,
            ImportType::Table(_, field) => field,
        }
    }

    /// The signature of a function entry; other kinds have none.
    pub fn signature(&self) -> (r: Result<&FuncSig, ()>)
        ensures
            match self@ {
                ImportTypeV::Function(_, _, sig) => r is Ok && r->Ok_0@ == sig,
                _ => r is Err,
            },
    {
        match self {
            ImportType::Function(_, _, sig) => Result::Ok(sig),
            _ => Result::Err(()),
        }
    }
}

/// An ordered import allow-list associated with a preset environment.
pub struct ImportList(pub Vec<ImportType>);

pub open spec fn import_type_views(v: Seq<ImportType>) -> Seq<ImportTypeV> {
    v.map_values(|e: ImportType| e@)
}

impl View for ImportList {
    type V = Seq<ImportTypeV>;

    open spec fn view(&self) -> Seq<ImportTypeV> {
        import_type_views(self.0@)
    }
}

/// First-match lookup by field name, as the list's own lookup performs
/// it: earlier entries win on duplicate field names.
pub open spec fn spec_lookup_by_field(list: Seq<ImportTypeV>, name: Seq<char>) -> Option<
    ImportTypeV,
>
    decreases list.len(),
{
    if list.len() == 0 {
        Option::None
    } else if entry_field(list[0]) == name {
        Option::Some(list[0])
    } else {
        spec_lookup_by_field(list.drop_first(), name)
    }
}

impl ImportList {
    /// An empty allow-list.
    pub fn new() -> (r: ImportList)
        ensures
            r@ == Seq::<ImportTypeV>::empty(),
    {
        let r = ImportList(Vec::new());
        proof {
            assert(r@ =~= Seq::<ImportTypeV>::empty());
        }
        r
    }

    /// The entries, in order.
    pub fn entries(&self) -> (r: &Vec<ImportType>)
        ensures
            import_type_views(r@) == self@,
    {
        &self.0
    }

    /// Mutable access to the entries.
    pub fn entries_mut(&mut self) -> (r: &mut Vec<ImportType>)
        ensures
            *r == old(self).0,
            final(self).0 == *final(r),
    {
        &mut self.0
    }

    /// The entries by value.
    pub fn into_inner(self) -> (r: Vec<ImportType>)
        ensures
            import_type_views(r@) == self@,
    {
        self.0
    }

    /// A list made of the given entries.
    pub fn with_entries(entries: Vec<ImportType>) -> (r: ImportList)
        ensures
            r@ == import_type_views(entries@),
    {
        ImportList(entries)
    }

    /// Appends every entry of `other`, in order, after this list's own.
    pub fn concatenate(&mut self, other: ImportList)
        ensures
            final(self)@ == old(self)@ + other@,
    {
        let ImportList(mut to_append) = other;
        let ghost othv = import_type_views(to_append@);
        let mut i: usize = 0;
        while i < to_append.len()
            invariant
                i <= to_append.len(),
                othv == import_type_views(to_append@),
                import_type_views(self.0@) =~= old(self)@ + othv.take(i as int),
            decreases to_append.len() - i,
        {
            let e = to_append[i].duplicate();
            let ghost prev = self.0@;
            self.0.push(e);
            proof {
                assert(import_type_views(self.0@) =~= import_type_views(prev).push(e@));
                assert(othv.take(i as int + 1) =~= othv.take(i as int).push(othv[i as int]));
                assert(import_type_views(self.0@) =~= old(self)@ + othv.take(i as int + 1));
            }
            i += 1;
        }
        proof {
            assert(othv.take(to_append@.len() as int) =~= othv);
            assert(final(self)@ =~= old(self)@ + othv);
        }
    }

    /// First entry whose field name equals `name`, if any.
    pub fn lookup_by_field(&self, name: &str) -> (r: Option<&ImportType>)
        ensures
            match r {
                Option::None => spec_lookup_by_field(self@, name@) is None,
                Option::Some(e) => spec_lookup_by_field(self@, name@) == Option::Some(e@),
            },
    {
        let ghost list = self@;
        proof {
            assert(list.skip(0) =~= list);
        }
        let mut i: usize = 0;
        while i < self.0.len()
            invariant
                i <= self.0.len(),
                list == self@,
                spec_lookup_by_field(list, name@) == spec_lookup_by_field(
                    list.skip(i as int),
                    name@,
                ),
            decreases self.0.len() - i,
        {
            proof {
                assert(list.skip(i as int)[0] == list[i as int]);
                assert(list.skip(i as int).drop_first() =~= list.skip(i as int + 1));
            }
            if str_eq(self.0[i].field().as_str(), name) {
                return Option::Some(&self.0[i]);
            }
            i += 1;
        }
        proof {
            assert(list.skip(i as int).len() == 0);
        }
        Option::None
    }

    /// The fixed catalog a preset names: `ewasm`, `eth2`, `debug`,
    /// `bignum` or `wasi`; any other preset is refused.
    pub fn with_preset(preset: &str) -> (r: Result<ImportList, ModuleError>)
        ensures
            preset@ == "ewasm"@ ==> r is Ok && r->Ok_0@ == ewasm_list(),
            preset@ == "eth2"@ ==> r is Ok && r->Ok_0@ == eth2_list(),
            preset@ == "debug"@ ==> r is Ok && r->Ok_0@ == debug_list(),
            preset@ == "bignum"@ ==> r is Ok && r->Ok_0@ == bignum_list(),
            preset@ == "wasi"@ ==> r is Ok && r->Ok_0@ == wasi_list(),
            r is Err ==> r->Err_0 == ModuleError::NotSupported && preset@ != "ewasm"@ && preset@
                != "eth2"@ && preset@ != "debug"@ && preset@ != "bignum"@ && preset@ != "wasi"@,
            r is Ok ==> preset@ == "ewasm"@ || preset@ == "eth2"@ || preset@ == "debug"@
                || preset@ == "bignum"@ || preset@ == "wasi"@,
    {
        proof {
            reveal_strlit("ewasm");
            reveal_strlit("eth2");
            reveal_strlit("debug");
            reveal_strlit("bignum");
            reveal_strlit("wasi");
            assert("ewasm"@[0] == 'e' && "ewasm"@[1] == 'w' && "eth2"@[0] == 'e' && "eth2"@[1]
                == 't' && "debug"@[0] == 'd' && "bignum"@[0] == 'b' && "wasi"@[0] == 'w');
            assert("ewasm"@ != "eth2"@ && "ewasm"@ != "debug"@ && "ewasm"@ != "bignum"@
                && "ewasm"@ != "wasi"@);
            assert("eth2"@ != "debug"@ && "eth2"@ != "bignum"@ && "eth2"@ != "wasi"@);
            assert("debug"@ != "bignum"@ && "debug"@ != "wasi"@);
            assert("bignum"@ != "wasi"@);
        }
        if str_eq(preset, "ewasm") {
            Result::Ok(ewasm_import_list())
        } else if str_eq(preset, "eth2") {
            Result::Ok(eth2_import_list())
        } else if str_eq(preset, "debug") {
            Result::Ok(debug_import_list())
        } else if str_eq(preset, "bignum") {
            Result::Ok(bignum_import_list())
        } else if str_eq(preset, "wasi") {
            Result::Ok(wasi_import_list())
        } else {
            Result::Err(ModuleError::NotSupported)
        }
    }
}

impl ImportType {
    /// A structurally identical copy of the entry.
    pub fn duplicate(&self) -> (r: ImportType)
        ensures
            r@ == self@,
    {
        match self {
            ImportType::Function(m, f, s) => ImportType::Function(
                m.clone(),
                f.clone(),
                s.duplicate(),
            ),
            ImportType::Global(m, f) => ImportType::Global(m.clone(), f.clone()),
            ImportType::Memory(m, f) => ImportType::Memory(m.clone(), f.clone()),
            ImportType::Table(m, f) => ImportType::Table(m.clone(), f.clone()),
        }
    }
}

/// A function allow-list entry from plain parts.
fn func_entry(ns: &str, field: &str, params: Vec<ValType>, ret: Option<ValType>) -> (r: ImportType)
    ensures
        r@ == ImportTypeV::Function(ns@, field@, FuncSigV { params: params@, ret }),
{
    ImportType::Function(ns.to_owned(), field.to_owned(), FuncSig { params, ret })
}

/// The `ewasm` preset's import catalog.
#[verifier::opaque]
pub open spec fn ewasm_list() -> Seq<ImportTypeV> {
    seq![
        ImportTypeV::Function(
            "ethereum"@,
            "useGas"@,
            FuncSigV { params: seq![ValType::I64], ret: Option::None },
        ),
        ImportTypeV::Function(
            "ethereum"@,
            "getGasLeft"@,
            FuncSigV { params: seq![], ret: Option::Some(ValType::I64) },
        ),
        ImportTypeV::Function(
            "ethereum"@,
            "getAddress"@,
            FuncSigV { params: seq![ValType::I32], ret: Option::None },
        ),
        ImportTypeV::Function(
            "ethereum"@,
            "getExternalBalance"@,
            FuncSigV { params: seq![ValType::I32, ValType::I32], ret: Option::None },
        ),
        ImportTypeV::Function(
            "ethereum"@,
            "getBlockHash"@,
            FuncSigV { params: seq![ValType::I64, ValType::I32], ret: Option::Some(ValType::I32) },
        ),
        ImportTypeV::Function(
            "ethereum"@,
            "call"@,
            FuncSigV { params: seq![ValType::I64, ValType::I32, ValType::I32, ValType::I32, ValType::I32], ret: Option::Some(ValType::I32) },
        ),
        ImportTypeV::Function(
            "ethereum"@,
            "callCode"@,
            FuncSigV { params: seq![ValType::I64, ValType::I32, ValType::I32, ValType::I32, ValType::I32], ret: Option::Some(ValType::I32) },
        ),
        ImportTypeV::Function(
            "ethereum"@,
            "callDelegate"@,
            FuncSigV { params: seq![ValType::I64, ValType::I32, ValType::I32, ValType::I32], ret: Option::Some(ValType::I32) },
        ),
        ImportTypeV::Function(
            "ethereum"@,
            "callStatic"@,
            FuncSigV { params: seq![ValType::I64, ValType::I32, ValType::I32, ValType::I32], ret: Option::Some(ValType::I32) },
        ),
        ImportTypeV::Function(
            "ethereum"@,
            "create"@,
            FuncSigV { params: seq![ValType::I64, ValType::I32, ValType::I32, ValType::I32], ret: Option::Some(ValType::I32) },
        ),
        ImportTypeV::Function(
            "ethereum"@,
            "callDataCopy"@,
            FuncSigV { params: seq![ValType::I32, ValType::I32, ValType::I32], ret: Option::None },
        ),
        ImportTypeV::Function(
            "ethereum"@,
            "getCallDataSize"@,
            FuncSigV { params: seq![], ret: Option::Some(ValType::I32) },
        ),
        ImportTypeV::Function(
            "ethereum"@,
            "getCodeSize"@,
            FuncSigV { params: seq![], ret: Option::Some(ValType::I32) },
        ),
        ImportTypeV::Function(
            "ethereum"@,
            "getExternalCodeSize"@,
            FuncSigV { params: seq![ValType::I32], ret: Option::Some(ValType::I32) },
        ),
        ImportTypeV::Function(
            "ethereum"@,
            "externalCodeCopy"@,
            FuncSigV { params: seq![ValType::I32, ValType::I32, ValType::I32, ValType::I32], ret: Option::None },
        ),
        ImportTypeV::Function(
            "ethereum"@,
            "codeCopy"@,
            FuncSigV { params: seq![ValType::I32, ValType::I32, ValType::I32], ret: Option::None },
        ),
        ImportTypeV::Function(
            "ethereum"@,
            "getCaller"@,
            FuncSigV { params: seq![ValType::I32], ret: Option::None },
        ),
        ImportTypeV::Function(
            "ethereum"@,
            "getCallValue"@,
            FuncSigV { params: seq![ValType::I32], ret: Option::None },
        ),
        ImportTypeV::Function(
            "ethereum"@,
            "getBlockDifficulty"@,
            FuncSigV { params: seq![ValType::I32], ret: Option::None },
        ),
        ImportTypeV::Function(
            "ethereum"@,
            "getBlockCoinbase"@,
            FuncSigV { params: seq![ValType::I32], ret: Option::None },
        ),
        ImportTypeV::Function(
            "ethereum"@,
            "getBlockNumber"@,
            FuncSigV { params: seq![], ret: Option::Some(ValType::I64) },
        ),
        ImportTypeV::Function(
            "ethereum"@,
            "getBlockGasLimit"@,
            FuncSigV { params: seq![], ret: Option::Some(ValType::I64) },
        ),
        ImportTypeV::Function(
            "ethereum"@,
            "getBlockTimestamp"@,
            FuncSigV { params: seq![], ret: Option::Some(ValType::I64) },
        ),
        ImportTypeV::Function(
            "ethereum"@,
            "getTxGasPrice"@,
            FuncSigV { params: seq![ValType::I32], ret: Option::None },
        ),
        ImportTypeV::Function(
            "ethereum"@,
            "getTxOrigin"@,
            FuncSigV { params: seq![ValType::I32], ret: Option::None },
        ),
        ImportTypeV::Function(
            "ethereum"@,
            "storageStore"@,
            FuncSigV { params: seq![ValType::I32, ValType::I32], ret: Option::None },
        ),
        ImportTypeV::Function(
            "ethereum"@,
            "storageLoad"@,
            FuncSigV { params: seq![ValType::I32, ValType::I32], ret: Option::None },
        ),
        ImportTypeV::Function(
            "ethereum"@,
            "log"@,
            FuncSigV { params: seq![ValType::I32, ValType::I32, ValType::I32, ValType::I32, ValType::I32, ValType::I32, ValType::I32], ret: Option::None },
        ),
        ImportTypeV::Function(
            "ethereum"@,
            "getReturnDataSize"@,
            FuncSigV { params: seq![], ret: Option::Some(ValType::I32) },
        ),
        ImportTypeV::Function(
            "ethereum"@,
            "returnDataCopy"@,
            FuncSigV { params: seq![ValType::I32, ValType::I32, ValType::I32], ret: Option::None },
        ),
        ImportTypeV::Function(
            "ethereum"@,
            "finish"@,
            FuncSigV { params: seq![ValType::I32, ValType::I32], ret: Option::None },
        ),
        ImportTypeV::Function(
            "ethereum"@,
            "revert"@,
            FuncSigV { params: seq![ValType::I32, ValType::I32], ret: Option::None },
        ),
        ImportTypeV::Function(
            "ethereum"@,
            "selfDestruct"@,
            FuncSigV { params: seq![ValType::I32], ret: Option::None },
        ),
    ]
}

fn ewasm_import_list() -> (r: ImportList)
    ensures
        r@ == ewasm_list(),
{
    let entries: Vec<ImportType> = vec![
        func_entry("ethereum", "useGas", vec![ValType::I64], Option::None),
        func_entry("ethereum", "getGasLeft", vec![], Option::Some(ValType::I64)),
        func_entry("ethereum", "getAddress", vec![ValType::I32], Option::None),
        func_entry("ethereum", "getExternalBalance", vec![ValType::I32, ValType::I32], Option::None),
        func_entry("ethereum", "getBlockHash", vec![ValType::I64, ValType::I32], Option::Some(ValType::I32)),
        func_entry("ethereum", "call", vec![ValType::I64, ValType::I32, ValType::I32, ValType::I32, ValType::I32], Option::Some(ValType::I32)),
        func_entry("ethereum", "callCode", vec![ValType::I64, ValType::I32, ValType::I32, ValType::I32, ValType::I32], Option::Some(ValType::I32)),
        func_entry("ethereum", "callDelegate", vec![ValType::I64, ValType::I32, ValType::I32, ValType::I32], Option::Some(ValType::I32)),
        func_entry("ethereum", "callStatic", vec![ValType::I64, ValType::I32, ValType::I32, ValType::I32], Option::Some(ValType::I32)),
        func_entry("ethereum", "create", vec![ValType::I64, ValType::I32, ValType::I32, ValType::I32], Option::Some(ValType::I32)),
        func_entry("ethereum", "callDataCopy", vec![ValType::I32, ValType::I32, ValType::I32], Option::None),
        func_entry("ethereum", "getCallDataSize", vec![], Option::Some(ValType::I32)),
        func_entry("ethereum", "getCodeSize", vec![], Option::Some(ValType::I32)),
        func_entry("ethereum", "getExternalCodeSize", vec![ValType::I32], Option::Some(ValType::I32)),
        func_entry("ethereum", "externalCodeCopy", vec![ValType::I32, ValType::I32, ValType::I32, ValType::I32], Option::None),
        func_entry("ethereum", "codeCopy", vec![ValType::I32, ValType::I32, ValType::I32], Option::None),
        func_entry("ethereum", "getCaller", vec![ValType::I32], Option::None),
        func_entry("ethereum", "getCallValue", vec![ValType::I32], Option::None),
        func_entry("ethereum", "getBlockDifficulty", vec![ValType::I32], Option::None),
        func_entry("ethereum", "getBlockCoinbase", vec![ValType::I32], Option::None),
        func_entry("ethereum", "getBlockNumber", vec![], Option::Some(ValType::I64)),
        func_entry("ethereum", "getBlockGasLimit", vec![], Option::Some(ValType::I64)),
        func_entry("ethereum", "getBlockTimestamp", vec![], Option::Some(ValType::I64)),
        func_entry("ethereum", "getTxGasPrice", vec![ValType::I32], Option::None),
        func_entry("ethereum", "getTxOrigin", vec![ValType::I32], Option::None),
        func_entry("ethereum", "storageStore", vec![ValType::I32, ValType::I32], Option::None),
        func_entry("ethereum", "storageLoad", vec![ValType::I32, ValType::I32], Option::None),
        func_entry("ethereum", "log", vec![ValType::I32, ValType::I32, ValType::I32, ValType::I32, ValType::I32, ValType::I32, ValType::I32], Option::None),
        func_entry("ethereum", "getReturnDataSize", vec![], Option::Some(ValType::I32)),
        func_entry("ethereum", "returnDataCopy", vec![ValType::I32, ValType::I32, ValType::I32], Option::None),
        func_entry("ethereum", "finish", vec![ValType::I32, ValType::I32], Option::None),
        func_entry("ethereum", "revert", vec![ValType::I32, ValType::I32], Option::None),
        func_entry("ethereum", "selfDestruct", vec![ValType::I32], Option::None),
    ];
    let r = ImportList(entries);
    proof {
        reveal(ewasm_list);
        assert(r@ =~~= ewasm_list());
    }
    r
}

/// The `eth2` preset's import catalog.
#[verifier::opaque]
pub open spec fn eth2_list() -> Seq<ImportTypeV> {
    seq![
        ImportTypeV::Function(
            "eth2"@,
            "loadPreStateRoot"@,
            FuncSigV { params: seq![ValType::I32], ret: Option::None },
        ),
        ImportTypeV::Function(
            "eth2"@,
            "blockDataSize"@,
            FuncSigV { params: seq![], ret: Option::Some(ValType::I32) },
        ),
        ImportTypeV::Function(
            "eth2"@,
            "blockDataCopy"@,
            FuncSigV { params: seq![ValType::I32, ValType::I32, ValType::I32], ret: Option::None },
        ),
        ImportTypeV::Function(
            "eth2"@,
            "savePostStateRoot"@,
            FuncSigV { params: seq![ValType::I32], ret: Option::None },
        ),
        ImportTypeV::Function(
            "eth2"@,
            "pushNewDeposit"@,
            FuncSigV { params: seq![ValType::I32, ValType::I32], ret: Option::None },
        ),
    ]
}

fn eth2_import_list() -> (r: ImportList)
    ensures
        r@ == eth2_list(),
{
    let entries: Vec<ImportType> = vec![
        func_entry("eth2", "loadPreStateRoot", vec![ValType::I32], Option::None),
        func_entry("eth2", "blockDataSize", vec![], Option::Some(ValType::I32)),
        func_entry("eth2", "blockDataCopy", vec![ValType::I32, ValType::I32, ValType::I32], Option::None),
        func_entry("eth2", "savePostStateRoot", vec![ValType::I32], Option::None),
        func_entry("eth2", "pushNewDeposit", vec![ValType::I32, ValType::I32], Option::None),
    ];
    let r = ImportList(entries);
    proof {
        reveal(eth2_list);
        assert(r@ =~~= eth2_list());
    }
    r
}

/// The `debug` preset's import catalog.
#[verifier::opaque]
pub open spec fn debug_list() -> Seq<ImportTypeV> {
    seq![
        ImportTypeV::Function(
            "debug"@,
            "print32"@,
            FuncSigV { params: seq![ValType::I32], ret: Option::None },
        ),
        ImportTypeV::Function(
            "debug"@,
            "print64"@,
            FuncSigV { params: seq![ValType::I64], ret: Option::None },
        ),
        ImportTypeV::Function(
            "debug"@,
            "printMem"@,
            FuncSigV { params: seq![ValType::I32, ValType::I32], ret: Option::None },
        ),
        ImportTypeV::Function(
            "debug"@,
            "printMemHex"@,
            FuncSigV { params: seq![ValType::I32, ValType::I32], ret: Option::None },
        ),
        ImportTypeV::Function(
            "debug"@,
            "printStorage"@,
            FuncSigV { params: seq![ValType::I32], ret: Option::None },
        ),
        ImportTypeV::Function(
            "debug"@,
            "printStorageHex"@,
            FuncSigV { params: seq![ValType::I32], ret: Option::None },
        ),
    ]
}

fn debug_import_list() -> (r: ImportList)
    ensures
        r@ == debug_list(),
{
    let entries: Vec<ImportType> = vec![
        func_entry("debug", "print32", vec![ValType::I32], Option::None),
        func_entry("debug", "print64", vec![ValType::I64], Option::None),
        func_entry("debug", "printMem", vec![ValType::I32, ValType::I32], Option::None),
        func_entry("debug", "printMemHex", vec![ValType::I32, ValType::I32], Option::None),
        func_entry("debug", "printStorage", vec![ValType::I32], Option::None),
        func_entry("debug", "printStorageHex", vec![ValType::I32], Option::None),
    ];
    let r = ImportList(entries);
    proof {
        reveal(debug_list);
        assert(r@ =~~= debug_list());
    }
    r
}

/// The `bignum` preset's import catalog.
#[verifier::opaque]
pub open spec fn bignum_list() -> Seq<ImportTypeV> {
    seq![
        ImportTypeV::Function(
            "bignum"@,
            "mul256"@,
            FuncSigV { params: seq![ValType::I32, ValType::I32, ValType::I32], ret: Option::None },
        ),
        ImportTypeV::Function(
            "bignum"@,
            "umulmod256"@,
            FuncSigV { params: seq![ValType::I32, ValType::I32, ValType::I32, ValType::I32], ret: Option::None },
        ),
    ]
}

fn bignum_import_list() -> (r: ImportList)
    ensures
        r@ == bignum_list(),
{
    let entries: Vec<ImportType> = vec![
        func_entry("bignum", "mul256", vec![ValType::I32, ValType::I32, ValType::I32], Option::None),
        func_entry("bignum", "umulmod256", vec![ValType::I32, ValType::I32, ValType::I32, ValType::I32], Option::None),
    ];
    let r = ImportList(entries);
    proof {
        reveal(bignum_list);
        assert(r@ =~~= bignum_list());
    }
    r
}

/// The `wasi` preset's import catalog.
#[verifier::opaque]
pub open spec fn wasi_list() -> Seq<ImportTypeV> {
    seq![
        ImportTypeV::Function(
            "wasi_unstable"@,
            "args_get"@,
            FuncSigV { params: seq![ValType::I32, ValType::I32], ret: Option::Some(ValType::I32) },
        ),
        ImportTypeV::Function(
            "wasi_unstable"@,
            "args_sizes_get"@,
            FuncSigV { params: seq![ValType::I32, ValType::I32], ret: Option::Some(ValType::I32) },
        ),
        ImportTypeV::Function(
            "wasi_unstable"@,
            "environ_get"@,
            FuncSigV { params: seq![ValType::I32, ValType::I32], ret: Option::Some(ValType::I32) },
        ),
        ImportTypeV::Function(
            "wasi_unstable"@,
            "environ_sizes_get"@,
            FuncSigV { params: seq![ValType::I32, ValType::I32], ret: Option::Some(ValType::I32) },
        ),
        ImportTypeV::Function(
            "wasi_unstable"@,
            "clock_res_get"@,
            FuncSigV { params: seq![ValType::I32, ValType::I32], ret: Option::Some(ValType::I32) },
        ),
        ImportTypeV::Function(
            "wasi_unstable"@,
            "clock_time_get"@,
            FuncSigV { params: seq![ValType::I32, ValType::I64, ValType::I32], ret: Option::Some(ValType::I32) },
        ),
        ImportTypeV::Function(
            "wasi_unstable"@,
            "fd_advise"@,
            FuncSigV { params: seq![ValType::I32, ValType::I64, ValType::I64, ValType::I32], ret: Option::Some(ValType::I32) },
        ),
        ImportTypeV::Function(
            "wasi_unstable"@,
            "fd_allocate"@,
            FuncSigV { params: seq![ValType::I32, ValType::I64, ValType::I64], ret: Option::Some(ValType::I32) },
        ),
        ImportTypeV::Function(
            "wasi_unstable"@,
            "fd_close"@,
            FuncSigV { params: seq![ValType::I32], ret: Option::Some(ValType::I32) },
        ),
        ImportTypeV::Function(
            "wasi_unstable"@,
            "fd_datasync"@,
            FuncSigV { params: seq![ValType::I32], ret: Option::Some(ValType::I32) },
        ),
        ImportTypeV::Function(
            "wasi_unstable"@,
            "fd_fdstat_get"@,
            FuncSigV { params: seq![ValType::I32, ValType::I32], ret: Option::Some(ValType::I32) },
        ),
        ImportTypeV::Function(
            "wasi_unstable"@,
            "fd_fdstat_set_flags"@,
            FuncSigV { params: seq![ValType::I32, ValType::I32], ret: Option::Some(ValType::I32) },
        ),
        ImportTypeV::Function(
            "wasi_unstable"@,
            "fd_fdstat_set_rights"@,
            FuncSigV { params: seq![ValType::I32, ValType::I64, ValType::I64], ret: Option::Some(ValType::I32) },
        ),
        ImportTypeV::Function(
            "wasi_unstable"@,
            "fd_filestat_get"@,
            FuncSigV { params: seq![ValType::I32, ValType::I32], ret: Option::Some(ValType::I32) },
        ),
        ImportTypeV::Function(
            "wasi_unstable"@,
            "fd_filestat_set_size"@,
            FuncSigV { params: seq![ValType::I32, ValType::I64], ret: Option::Some(ValType::I32) },
        ),
        ImportTypeV::Function(
            "wasi_unstable"@,
            "fd_filestat_set_times"@,
            FuncSigV { params: seq![ValType::I32, ValType::I64, ValType::I64, ValType::I32], ret: Option::Some(ValType::I32) },
        ),
        ImportTypeV::Function(
            "wasi_unstable"@,
            "fd_pread"@,
            FuncSigV { params: seq![ValType::I32, ValType::I32, ValType::I32, ValType::I64, ValType::I32], ret: Option::Some(ValType::I32) },
        ),
        ImportTypeV::Function(
            "wasi_unstable"@,
            "fd_prestat_get"@,
            FuncSigV { params: seq![ValType::I32, ValType::I32], ret: Option::Some(ValType::I32) },
        ),
        ImportTypeV::Function(
            "wasi_unstable"@,
            "fd_prestat_dir_name"@,
            FuncSigV { params: seq![ValType::I32, ValType::I32, ValType::I32], ret: Option::Some(ValType::I32) },
        ),
        ImportTypeV::Function(
            "wasi_unstable"@,
            "fd_pwrite"@,
            FuncSigV { params: seq![ValType::I32, ValType::I32, ValType::I32, ValType::I64, ValType::I32], ret: Option::Some(ValType::I32) },
        ),
        ImportTypeV::Function(
            "wasi_unstable"@,
            "fd_read"@,
            FuncSigV { params: seq![ValType::I32, ValType::I32, ValType::I32, ValType::I32], ret: Option::Some(ValType::I32) },
        ),
        ImportTypeV::Function(
            "wasi_unstable"@,
            "fd_readdir"@,
            FuncSigV { params: seq![ValType::I32, ValType::I32, ValType::I32, ValType::I64, ValType::I32], ret: Option::Some(ValType::I32) },
        ),
        ImportTypeV::Function(
            "wasi_unstable"@,
            "fd_renumber"@,
            FuncSigV { params: seq![ValType::I32, ValType::I32], ret: Option::Some(ValType::I32) },
        ),
        ImportTypeV::Function(
            "wasi_unstable"@,
            "fd_seek"@,
            FuncSigV { params: seq![ValType::I32, ValType::I64, ValType::I32, ValType::I32], ret: Option::Some(ValType::I32) },
        ),
        ImportTypeV::Function(
            "wasi_unstable"@,
            "fd_sync"@,
            FuncSigV { params: seq![ValType::I32], ret: Option::Some(ValType::I32) },
        ),
        ImportTypeV::Function(
            "wasi_unstable"@,
            "fd_tell"@,
            FuncSigV { params: seq![ValType::I32, ValType::I32], ret: Option::Some(ValType::I32) },
        ),
        ImportTypeV::Function(
            "wasi_unstable"@,
            "fd_write"@,
            FuncSigV { params: seq![ValType::I32, ValType::I32, ValType::I32, ValType::I32], ret: Option::Some(ValType::I32) },
        ),
        ImportTypeV::Function(
            "wasi_unstable"@,
            "path_create_directory"@,
            FuncSigV { params: seq![ValType::I32, ValType::I32, ValType::I32], ret: Option::Some(ValType::I32) },
        ),
        ImportTypeV::Function(
            "wasi_unstable"@,
            "path_filestat_get"@,
            FuncSigV { params: seq![ValType::I32, ValType::I32, ValType::I32, ValType::I32, ValType::I32], ret: Option::Some(ValType::I32) },
        ),
        ImportTypeV::Function(
            "wasi_unstable"@,
            "path_filestat_set_times"@,
            FuncSigV { params: seq![ValType::I32, ValType::I32, ValType::I32, ValType::I32, ValType::I64, ValType::I64, ValType::I32], ret: Option::Some(ValType::I32) },
        ),
        ImportTypeV::Function(
            "wasi_unstable"@,
            "path_link"@,
            FuncSigV { params: seq![ValType::I32, ValType::I32, ValType::I32, ValType::I32, ValType::I32, ValType::I32, ValType::I32], ret: Option::Some(ValType::I32) },
        ),
        ImportTypeV::Function(
            "wasi_unstable"@,
            "path_open"@,
            FuncSigV { params: seq![ValType::I32, ValType::I32, ValType::I32, ValType::I32, ValType::I32, ValType::I64, ValType::I64, ValType::I32, ValType::I32], ret: Option::Some(ValType::I32) },
        ),
        ImportTypeV::Function(
            "wasi_unstable"@,
            "path_readlink"@,
            FuncSigV { params: seq![ValType::I32, ValType::I32, ValType::I32, ValType::I32, ValType::I32, ValType::I32], ret: Option::Some(ValType::I32) },
        ),
        ImportTypeV::Function(
            "wasi_unstable"@,
            "path_remove_directory"@,
            FuncSigV { params: seq![ValType::I32, ValType::I32, ValType::I32], ret: Option::Some(ValType::I32) },
        ),
        ImportTypeV::Function(
            "wasi_unstable"@,
            "path_rename"@,
            FuncSigV { params: seq![ValType::I32, ValType::I32, ValType::I32, ValType::I32, ValType::I32, ValType::I32], ret: Option::Some(ValType::I32) },
        ),
        ImportTypeV::Function(
            "wasi_unstable"@,
            "path_symlink"@,
            FuncSigV { params: seq![ValType::I32, ValType::I32, ValType::I32, ValType::I32, ValType::I32], ret: Option::Some(ValType::I32) },
        ),
        ImportTypeV::Function(
            "wasi_unstable"@,
            "path_unlink_file"@,
            FuncSigV { params: seq![ValType::I32, ValType::I32, ValType::I32], ret: Option::Some(ValType::I32) },
        ),
        ImportTypeV::Function(
            "wasi_unstable"@,
            "poll_oneoff"@,
            FuncSigV { params: seq![ValType::I32, ValType::I32, ValType::I32, ValType::I32], ret: Option::Some(ValType::I32) },
        ),
        ImportTypeV::Function(
            "wasi_unstable"@,
            "proc_exit"@,
            FuncSigV { params: seq![ValType::I32], ret: Option::None },
        ),
        ImportTypeV::Function(
            "wasi_unstable"@,
            "proc_raise"@,
            FuncSigV { params: seq![ValType::I32], ret: Option::Some(ValType::I32) },
        ),
        ImportTypeV::Function(
            "wasi_unstable"@,
            "sched_yield"@,
            FuncSigV { params: seq![], ret: Option::Some(ValType::I32) },
        ),
        ImportTypeV::Function(
            "wasi_unstable"@,
            "random_get"@,
            FuncSigV { params: seq![ValType::I32, ValType::I32], ret: Option::Some(ValType::I32) },
        ),
        ImportTypeV::Function(
            "wasi_unstable"@,
            "sock_recv"@,
            FuncSigV { params: seq![ValType::I32, ValType::I32, ValType::I32, ValType::I32, ValType::I32, ValType::I32], ret: Option::Some(ValType::I32) },
        ),
        ImportTypeV::Function(
            "wasi_unstable"@,
            "sock_send"@,
            FuncSigV { params: seq![ValType::I32, ValType::I32, ValType::I32, ValType::I32, ValType::I32], ret: Option::Some(ValType::I32) },
        ),
        ImportTypeV::Function(
            "wasi_unstable"@,
            "sock_shutdown"@,
            FuncSigV { params: seq![ValType::I32, ValType::I32], ret: Option::Some(ValType::I32) },
        ),
    ]
}

fn wasi_import_list() -> (r: ImportList)
    ensures
        r@ == wasi_list(),
{
    let entries: Vec<ImportType> = vec![
        func_entry("wasi_unstable", "args_get", vec![ValType::I32, ValType::I32], Option::Some(ValType::I32)),
        func_entry("wasi_unstable", "args_sizes_get", vec![ValType::I32, ValType::I32], Option::Some(ValType::I32)),
        func_entry("wasi_unstable", "environ_get", vec![ValType::I32, ValType::I32], Option::Some(ValType::I32)),
        func_entry("wasi_unstable", "environ_sizes_get", vec![ValType::I32, ValType::I32], Option::Some(ValType::I32)),
        func_entry("wasi_unstable", "clock_res_get", vec![ValType::I32, ValType::I32], Option::Some(ValType::I32)),
        func_entry("wasi_unstable", "clock_time_get", vec![ValType::I32, ValType::I64, ValType::I32], Option::Some(ValType::I32)),
        func_entry("wasi_unstable", "fd_advise", vec![ValType::I32, ValType::I64, ValType::I64, ValType::I32], Option::Some(ValType::I32)),
        func_entry("wasi_unstable", "fd_allocate", vec![ValType::I32, ValType::I64, ValType::I64], Option::Some(ValType::I32)),
        func_entry("wasi_unstable", "fd_close", vec![ValType::I32], Option::Some(ValType::I32)),
        func_entry("wasi_unstable", "fd_datasync", vec![ValType::I32], Option::Some(ValType::I32)),
        func_entry("wasi_unstable", "fd_fdstat_get", vec![ValType::I32, ValType::I32], Option::Some(ValType::I32)),
        func_entry("wasi_unstable", "fd_fdstat_set_flags", vec![ValType::I32, ValType::I32], Option::Some(ValType::I32)),
        func_entry("wasi_unstable", "fd_fdstat_set_rights", vec![ValType::I32, ValType::I64, ValType::I64], Option::Some(ValType::I32)),
        func_entry("wasi_unstable", "fd_filestat_get", vec![ValType::I32, ValType::I32], Option::Some(ValType::I32)),
        func_entry("wasi_unstable", "fd_filestat_set_size", vec![ValType::I32, ValType::I64], Option::Some(ValType::I32)),
        func_entry("wasi_unstable", "fd_filestat_set_times", vec![ValType::I32, ValType::I64, ValType::I64, ValType::I32], Option::Some(ValType::I32)),
        func_entry("wasi_unstable", "fd_pread", vec![ValType::I32, ValType::I32, ValType::I32, ValType::I64, ValType::I32], Option::Some(ValType::I32)),
        func_entry("wasi_unstable", "fd_prestat_get", vec![ValType::I32, ValType::I32], Option::Some(ValType::I32)),
        func_entry("wasi_unstable", "fd_prestat_dir_name", vec![ValType::I32, ValType::I32, ValType::I32], Option::Some(ValType::I32)),
        func_entry("wasi_unstable", "fd_pwrite", vec![ValType::I32, ValType::I32, ValType::I32, ValType::I64, ValType::I32], Option::Some(ValType::I32)),
        func_entry("wasi_unstable", "fd_read", vec![ValType::I32, ValType::I32, ValType::I32, ValType::I32], Option::Some(ValType::I32)),
        func_entry("wasi_unstable", "fd_readdir", vec![ValType::I32, ValType::I32, ValType::I32, ValType::I64, ValType::I32], Option::Some(ValType::I32)),
        func_entry("wasi_unstable", "fd_renumber", vec![ValType::I32, ValType::I32], Option::Some(ValType::I32)),
        func_entry("wasi_unstable", "fd_seek", vec![ValType::I32, ValType::I64, ValType::I32, ValType::I32], Option::Some(ValType::I32)),
        func_entry("wasi_unstable", "fd_sync", vec![ValType::I32], Option::Some(ValType::I32)),
        func_entry("wasi_unstable", "fd_tell", vec![ValType::I32, ValType::I32], Option::Some(ValType::I32)),
        func_entry("wasi_unstable", "fd_write", vec![ValType::I32, ValType::I32, ValType::I32, ValType::I32], Option::Some(ValType::I32)),
        func_entry("wasi_unstable", "path_create_directory", vec![ValType::I32, ValType::I32, ValType::I32], Option::Some(ValType::I32)),
        func_entry("wasi_unstable", "path_filestat_get", vec![ValType::I32, ValType::I32, ValType::I32, ValType::I32, ValType::I32], Option::Some(ValType::I32)),
        func_entry("wasi_unstable", "path_filestat_set_times", vec![ValType::I32, ValType::I32, ValType::I32, ValType::I32, ValType::I64, ValType::I64, ValType::I32], Option::Some(ValType::I32)),
        func_entry("wasi_unstable", "path_link", vec![ValType::I32, ValType::I32, ValType::I32, ValType::I32, ValType::I32, ValType::I32, ValType::I32], Option::Some(ValType::I32)),
        func_entry("wasi_unstable", "path_open", vec![ValType::I32, ValType::I32, ValType::I32, ValType::I32, ValType::I32, ValType::I64, ValType::I64, ValType::I32, ValType::I32], Option::Some(ValType::I32)),
        func_entry("wasi_unstable", "path_readlink", vec![ValType::I32, ValType::I32, ValType::I32, ValType::I32, ValType::I32, ValType::I32], Option::Some(ValType::I32)),
        func_entry("wasi_unstable", "path_remove_directory", vec![ValType::I32, ValType::I32, ValType::I32], Option::Some(ValType::I32)),
        func_entry("wasi_unstable", "path_rename", vec![ValType::I32, ValType::I32, ValType::I32, ValType::I32, ValType::I32, ValType::I32], Option::Some(ValType::I32)),
        func_entry("wasi_unstable", "path_symlink", vec![ValType::I32, ValType::I32, ValType::I32, ValType::I32, ValType::I32], Option::Some(ValType::I32)),
        func_entry("wasi_unstable", "path_unlink_file", vec![ValType::I32, ValType::I32, ValType::I32], Option::Some(ValType::I32)),
        func_entry("wasi_unstable", "poll_oneoff", vec![ValType::I32, ValType::I32, ValType::I32, ValType::I32], Option::Some(ValType::I32)),
        func_entry("wasi_unstable", "proc_exit", vec![ValType::I32], Option::None),
        func_entry("wasi_unstable", "proc_raise", vec![ValType::I32], Option::Some(ValType::I32)),
        func_entry("wasi_unstable", "sched_yield", vec![], Option::Some(ValType::I32)),
        func_entry("wasi_unstable", "random_get", vec![ValType::I32, ValType::I32], Option::Some(ValType::I32)),
        func_entry("wasi_unstable", "sock_recv", vec![ValType::I32, ValType::I32, ValType::I32, ValType::I32, ValType::I32, ValType::I32], Option::Some(ValType::I32)),
        func_entry("wasi_unstable", "sock_send", vec![ValType::I32, ValType::I32, ValType::I32, ValType::I32, ValType::I32], Option::Some(ValType::I32)),
        func_entry("wasi_unstable", "sock_shutdown", vec![ValType::I32, ValType::I32], Option::Some(ValType::I32)),
    ];
    let r = ImportList(entries);
    proof {
        reveal(wasi_list);
        assert(r@ =~~= wasi_list());
    }
    r
}

} // verus!
