use vstd::prelude::*;

use crate::instr::Instr;

verus! {

/// A value type of the bytecode format. The float types can occur in the
/// signatures of decoded modules; the library never computes with floats.
#[derive(Clone, Copy, Debug, PartialEq, Eq, Structural)]
pub enum ValType {
    I32,
    I64,
    F32,
    F64,
    V128,
}

/// Size limits of a linear memory or of a table: an initial size in pages
/// (respectively entries) and an optional maximum.
#[derive(Clone, Copy, Debug)]
pub struct Limits {
    pub initial: u32,
    pub maximum: Option<u32>,
}

/// A function type: its parameters and at most one result.
#[derive(Debug)]
pub struct FuncSig {
    pub params: Vec<ValType>,
    pub ret: Option<ValType>,
}

#[verifier::ext_equal]
pub ghost struct FuncSigV {
    pub params: Seq<ValType>,
    pub ret: Option<ValType>,
}

impl View for FuncSig {
    type V = FuncSigV;

    open spec fn view(&self) -> FuncSigV {
        FuncSigV { params: self.params@, ret: self.ret }
    }
}

/// What an import entry binds: a function of a declared type, or a table,
/// memory or global of the given shape.
#[derive(Clone, Copy, Debug)]
pub enum External {
    Function(u32),
    Table(Limits),
    Memory(Limits),
    Global(ValType, bool),
}

/// One import entry: source namespace, field name, and what is imported.
#[derive(Debug)]
pub struct ImportEntry {
    pub module: String,
    pub field: String,
    pub external: External,
}

#[verifier::ext_equal]
pub ghost struct ImportEntryV {
    pub module: Seq<char>,
    pub field: Seq<char>,
    pub external: External,
}

impl View for ImportEntry {
    type V = ImportEntryV;

    open spec fn view(&self) -> ImportEntryV {
        ImportEntryV { module: self.module@, field: self.field@, external: self.external }
    }
}

/// The index space an export entry refers into.
#[derive(Clone, Copy, Debug)]
pub enum ExportInternal {
    Function(u32),
    Table(u32),
    Memory(u32),
    Global(u32),
}

/// One export entry: the exported field name and what it refers to.
#[derive(Debug)]
pub struct ExportEntry {
    pub field: String,
    pub internal: ExportInternal,
}

#[verifier::ext_equal]
pub ghost struct ExportEntryV {
    pub field: Seq<char>,
    pub internal: ExportInternal,
}

impl View for ExportEntry {
    type V = ExportEntryV;

    open spec fn view(&self) -> ExportEntryV {
        ExportEntryV { field: self.field@, internal: self.internal }
    }
}

/// A run of identically-typed locals at the head of a function body.
#[derive(Clone, Copy, Debug)]
pub struct LocalGroup {
    pub count: u32,
    pub ty: ValType,
}

/// The body of one function: its local declarations and its instruction
/// sequence (terminated by an explicit `End` instruction).
#[derive(Debug)]
pub struct FuncBody {
    pub locals: Vec<LocalGroup>,
    pub code: Vec<Instr>,
}

#[verifier::ext_equal]
pub ghost struct FuncBodyV {
    pub locals: Seq<LocalGroup>,
    pub code: Seq<Instr>,
}

impl View for FuncBody {
    type V = FuncBodyV;

    open spec fn view(&self) -> FuncBodyV {
        FuncBodyV { locals: self.locals@, code: self.code@ }
    }
}

/// One global of the module, with its constant initialiser expression.
#[derive(Debug)]
pub struct GlobalEntry {
    pub ty: ValType,
    pub mutable: bool,
    pub init: Vec<Instr>,
}

#[verifier::ext_equal]
pub ghost struct GlobalEntryV {
    pub ty: ValType,
    pub mutable: bool,
    pub init: Seq<Instr>,
}

impl View for GlobalEntry {
    type V = GlobalEntryV;

    open spec fn view(&self) -> GlobalEntryV {
        GlobalEntryV { ty: self.ty, mutable: self.mutable, init: self.init@ }
    }
}

/// One data segment: target memory, constant offset, and raw bytes.
#[derive(Debug)]
pub struct DataSegment {
    pub index: u32,
    pub offset: i32,
    pub data: Vec<u8>,
}

#[verifier::ext_equal]
pub ghost struct DataSegmentV {
    pub index: u32,
    pub offset: i32,
    pub data: Seq<u8>,
}

impl View for DataSegment {
    type V = DataSegmentV;

    open spec fn view(&self) -> DataSegmentV {
        DataSegmentV { index: self.index, offset: self.offset, data: self.data@ }
    }
}

/// One element segment: target table, constant offset, and the function
/// indices it places in the table.
#[derive(Debug)]
pub struct ElementSegment {
    pub index: u32,
    pub offset: i32,
    pub members: Vec<u32>,
}

#[verifier::ext_equal]
pub ghost struct ElementSegmentV {
    pub index: u32,
    pub offset: i32,
    pub members: Seq<u32>,
}

impl View for ElementSegment {
    type V = ElementSegmentV;

    open spec fn view(&self) -> ElementSegmentV {
        ElementSegmentV { index: self.index, offset: self.offset, members: self.members@ }
    }
}

/// One named custom section with an opaque payload.
#[derive(Debug)]
pub struct CustomSection {
    pub name: String,
    pub payload: Vec<u8>,
}

#[verifier::ext_equal]
pub ghost struct CustomSectionV {
    pub name: Seq<char>,
    pub payload: Seq<u8>,
}

impl View for CustomSection {
    type V = CustomSectionV;

    open spec fn view(&self) -> CustomSectionV {
        CustomSectionV { name: self.name@, payload: self.payload@ }
    }
}

/// The in-memory form of one binary module, one field per section kind.
/// An empty list stands for an absent section, except for the code
/// section, whose absence several passes must distinguish from emptiness.
#[derive(Debug)]
pub struct Module {
    pub types: Vec<FuncSig>,
    pub imports: Vec<ImportEntry>,
    pub functions: Vec<u32>,
    pub tables: Vec<Limits>,
    pub memories: Vec<Limits>,
    pub globals: Vec<GlobalEntry>,
    pub exports: Vec<ExportEntry>,
    pub start: Option<u32>,
    pub elements: Vec<ElementSegment>,
    pub code: Option<Vec<FuncBody>>,
    pub data: Vec<DataSegment>,
    pub customs: Vec<CustomSection>,
}

#[verifier::ext_equal]
pub ghost struct ModuleV {
    pub types: Seq<FuncSigV>,
    pub imports: Seq<ImportEntryV>,
    pub functions: Seq<u32>,
    pub tables: Seq<Limits>,
    pub memories: Seq<Limits>,
    pub globals: Seq<GlobalEntryV>,
    pub exports: Seq<ExportEntryV>,
    pub start: Option<u32>,
    pub elements: Seq<ElementSegmentV>,
    pub code: Option<Seq<FuncBodyV>>,
    pub data: Seq<DataSegmentV>,
    pub customs: Seq<CustomSectionV>,
}

pub open spec fn sig_views(v: Seq<FuncSig>) -> Seq<FuncSigV> {
    v.map_values(|t: FuncSig| t@)
}

pub open spec fn import_views(v: Seq<ImportEntry>) -> Seq<ImportEntryV> {
    v.map_values(|e: ImportEntry| e@)
}

pub open spec fn export_views(v: Seq<ExportEntry>) -> Seq<ExportEntryV> {
    v.map_values(|e: ExportEntry| e@)
}

pub open spec fn global_views(v: Seq<GlobalEntry>) -> Seq<GlobalEntryV> {
    v.map_values(|g: GlobalEntry| g@)
}

pub open spec fn element_views(v: Seq<ElementSegment>) -> Seq<ElementSegmentV> {
    v.map_values(|e: ElementSegment| e@)
}

pub open spec fn body_views(v: Seq<FuncBody>) -> Seq<FuncBodyV> {
    v.map_values(|b: FuncBody| b@)
}

pub open spec fn data_views(v: Seq<DataSegment>) -> Seq<DataSegmentV> {
    v.map_values(|d: DataSegment| d@)
}

pub open spec fn custom_views(v: Seq<CustomSection>) -> Seq<CustomSectionV> {
    v.map_values(|c: CustomSection| c@)
}

impl View for Module {
    type V = ModuleV;

    open spec fn view(&self) -> ModuleV {
        ModuleV {
            types: sig_views(self.types@),
            imports: import_views(self.imports@),
            functions: self.functions@,
            tables: self.tables@,
            memories: self.memories@,
            globals: global_views(self.globals@),
            exports: export_views(self.exports@),
            start: self.start,
            elements: element_views(self.elements@),
            code: match &self.code {
                Option::None => Option::None,
                Option::Some(bodies) => Option::Some(body_views(bodies@)),
            },
            data: data_views(self.data@),
            customs: custom_views(self.customs@),
        }
    }
}

impl Module {
    /// A module with no sections at all.
    pub fn empty() -> (r: Module)
        ensures
            r@ == spec_empty_module(),
    {
        let m = Module {
            types: Vec::new(),
            imports: Vec::new(),
            functions: Vec::new(),
            tables: Vec::new(),
            memories: Vec::new(),
            globals: Vec::new(),
            exports: Vec::new(),
            start: Option::None,
            elements: Vec::new(),
            code: Option::None,
            data: Vec::new(),
            customs: Vec::new(),
        };
        proof {
            assert(m@ =~= spec_empty_module());
        }
        m
    }
}

/// The view of a module with no sections.
pub open spec fn spec_empty_module() -> ModuleV {
    ModuleV {
        types: Seq::empty(),
        imports: Seq::empty(),
        functions: Seq::empty(),
        tables: Seq::empty(),
        memories: Seq::empty(),
        globals: Seq::empty(),
        exports: Seq::empty(),
        start: Option::None,
        elements: Seq::empty(),
        code: Option::None,
        data: Seq::empty(),
        customs: Seq::empty(),
    }
}

/// Equality of two string slices by their character sequences.
pub fn str_eq(a: &str, b: &str) -> (r: bool)
    ensures
        r == (a@ == b@),
{
    let x: String = a.to_owned();
    let y: String = b.to_owned();
    x == y
}

/// Equality of two optional indices.
pub fn opt_u32_eq(a: &Option<u32>, b: &Option<u32>) -> (r: bool)
    ensures
        r == (*a == *b),
{
    match (a, b) {
        (Option::None, Option::None) => true,
        (Option::Some(x), Option::Some(y)) => *x == *y,
        _ => false,
    }
}

pub fn valtype_opt_eq(a: &Option<ValType>, b: &Option<ValType>) -> (r: bool)
    ensures
        r == (*a == *b),
{
    match (a, b) {
        (Option::None, Option::None) => true,
        (Option::Some(x), Option::Some(y)) => *x == *y,
        _ => false,
    }
}

pub fn limits_eq(a: &Limits, b: &Limits) -> (r: bool)
    ensures
        r == (*a == *b),
{
    a.initial == b.initial && opt_u32_eq(&a.maximum, &b.maximum)
}

pub fn external_eq(a: &External, b: &External) -> (r: bool)
    ensures
        r == (*a == *b),
{
    match (a, b) {
        (External::Function(x), External::Function(y)) => *x == *y,
        (External::Table(x), External::Table(y)) => limits_eq(x, y),
        (External::Memory(x), External::Memory(y)) => limits_eq(x, y),
        (External::Global(t, m), External::Global(u, n)) => *t == *u && *m == *n,
        _ => false,
    }
}

pub fn export_internal_eq(a: &ExportInternal, b: &ExportInternal) -> (r: bool)
    ensures
        r == (*a == *b),
{
    match (a, b) {
        (ExportInternal::Function(x), ExportInternal::Function(y)) => *x == *y,
        (ExportInternal::Table(x), ExportInternal::Table(y)) => *x == *y,
        (ExportInternal::Memory(x), ExportInternal::Memory(y)) => *x == *y,
        (ExportInternal::Global(x), ExportInternal::Global(y)) => *x == *y,
        _ => false,
    }
}

pub fn sig_eq(a: &FuncSig, b: &FuncSig) -> (r: bool)
    ensures
        r == (a@ == b@),
{
    if a.params.len() != b.params.len() {
        return false;
    }
    let n = a.params.len();
    let mut i: usize = 0;
    while i < n
        invariant
            i <= n,
            n == a.params.len() == b.params.len(),
            forall|j: int| 0 <= j < i ==> a.params@[j] == b.params@[j],
        decreases n - i,
    {
        if a.params[i] != b.params[i] {
            return false;
        }
        i += 1;
    }
    proof {
        assert(a@.params =~= b@.params);
    }
    let rets = valtype_opt_eq(&a.ret, &b.ret);
    proof {
        if rets {
            assert(a@ =~= b@);
        }
    }
    rets
}

pub fn import_eq(a: &ImportEntry, b: &ImportEntry) -> (r: bool)
    ensures
        r == (a@ == b@),
{
    let r = a.module == b.module && a.field == b.field && external_eq(&a.external, &b.external);
    proof {
        if r {
            assert(a@ =~= b@);
        }
    }
    r
}

pub fn export_eq(a: &ExportEntry, b: &ExportEntry) -> (r: bool)
    ensures
        r == (a@ == b@),
{
    let r = a.field == b.field && export_internal_eq(&a.internal, &b.internal);
    proof {
        if r {
            assert(a@ =~= b@);
        }
    }
    r
}

pub fn u32_vec_eq(a: &Vec<u32>, b: &Vec<u32>) -> (r: bool)
    ensures
        r == (a@ == b@),
{
    if a.len() != b.len() {
        return false;
    }
    let n = a.len();
    let mut i: usize = 0;
    while i < n
        invariant
            i <= n,
            n == a.len() == b.len(),
            forall|j: int| 0 <= j < i ==> a@[j] == b@[j],
        decreases n - i,
    {
        if a[i] != b[i] {
            return false;
        }
        i += 1;
    }
    proof {
        assert(a@ =~= b@);
    }
    true
}

pub fn byte_vec_eq(a: &Vec<u8>, b: &Vec<u8>) -> (r: bool)
    ensures
        r == (a@ == b@),
{
    if a.len() != b.len() {
        return false;
    }
    let n = a.len();
    let mut i: usize = 0;
    while i < n
        invariant
            i <= n,
            n == a.len() == b.len(),
            forall|j: int| 0 <= j < i ==> a@[j] == b@[j],
        decreases n - i,
    {
        if a[i] != b[i] {
            return false;
        }
        i += 1;
    }
    proof {
        assert(a@ =~= b@);
    }
    true
}

pub fn instr_vec_eq(a: &Vec<Instr>, b: &Vec<Instr>) -> (r: bool)
    ensures
        r == (a@ == b@),
{
    if a.len() != b.len() {
        return false;
    }
    let n = a.len();
    let mut i: usize = 0;
    while i < n
        invariant
            i <= n,
            n == a.len() == b.len(),
            forall|j: int| 0 <= j < i ==> a@[j] == b@[j],
        decreases n - i,
    {
        if a[i] != b[i] {
            return false;
        }
        i += 1;
    }
    proof {
        assert(a@ =~= b@);
    }
    true
}

pub fn body_eq(a: &FuncBody, b: &FuncBody) -> (r: bool)
    ensures
        r == (a@ == b@),
{
    if a.locals.len() != b.locals.len() {
        return false;
    }
    let n = a.locals.len();
    let mut i: usize = 0;
    while i < n
        invariant
            i <= n,
            n == a.locals.len() == b.locals.len(),
            forall|j: int| 0 <= j < i ==> a.locals@[j] == b.locals@[j],
        decreases n - i,
    {
        let x = a.locals[i];
        let y = b.locals[i];
        if x.count != y.count || x.ty != y.ty {
            return false;
        }
        i += 1;
    }
    proof {
        assert(a@.locals =~= b@.locals);
    }
    let r = instr_vec_eq(&a.code, &b.code);
    proof {
        if r {
            assert(a@ =~= b@);
        }
    }
    r
}

pub fn global_eq(a: &GlobalEntry, b: &GlobalEntry) -> (r: bool)
    ensures
        r == (a@ == b@),
{
    let r = a.ty == b.ty && a.mutable == b.mutable && instr_vec_eq(&a.init, &b.init);
    proof {
        if r {
            assert(a@ =~= b@);
        }
    }
    r
}

pub fn data_segment_eq(a: &DataSegment, b: &DataSegment) -> (r: bool)
    ensures
        r == (a@ == b@),
{
    let r = a.index == b.index && a.offset == b.offset && byte_vec_eq(&a.data, &b.data);
    proof {
        if r {
            assert(a@ =~= b@);
        }
    }
    r
}

pub fn element_segment_eq(a: &ElementSegment, b: &ElementSegment) -> (r: bool)
    ensures
        r == (a@ == b@),
{
    let r = a.index == b.index && a.offset == b.offset && u32_vec_eq(&a.members, &b.members);
    proof {
        if r {
            assert(a@ =~= b@);
        }
    }
    r
}

pub fn custom_eq(a: &CustomSection, b: &CustomSection) -> (r: bool)
    ensures
        r == (a@ == b@),
{
    let r = a.name == b.name && byte_vec_eq(&a.payload, &b.payload);
    proof {
        if r {
            assert(a@ =~= b@);
        }
    }
    r
}


/// Copies a vector of plain values.
pub fn dup_copy_vec<T: Copy>(v: &Vec<T>) -> (r: Vec<T>)
    ensures
        r@ == v@,
{
    let mut out: Vec<T> = Vec::new();
    let mut i: usize = 0;
    while i < v.len()
        invariant
            i <= v.len(),
            out@ =~= v@.take(i as int),
        decreases v.len() - i,
    {
        out.push(v[i]);
        proof {
            assert(out@ =~= v@.take(i as int + 1));
        }
        i += 1;
    }
    proof {
        assert(out@ =~= v@);
    }
    out
}

pub fn limits_vec_eq(a: &Vec<Limits>, b: &Vec<Limits>) -> (r: bool)
    ensures
        r == (a@ == b@),
{
    if a.len() != b.len() {
        return false;
    }
    let n = a.len();
    let mut i: usize = 0;
    while i < n
        invariant
            i <= n,
            n == a.len() == b.len(),
            forall|j: int| 0 <= j < i ==> a@[j] == b@[j],
        decreases n - i,
    {
        if !limits_eq(&a[i], &b[i]) {
            return false;
        }
        i += 1;
    }
    proof {
        assert(a@ =~= b@);
    }
    true
}

impl FuncSig {
    pub fn duplicate(&self) -> (r: FuncSig)
        ensures
            r@ == self@,
    {
        let r = FuncSig { params: dup_copy_vec(&self.params), ret: self.ret };
        proof {
            assert(r@ =~= self@);
        }
        r
    }
}

impl ImportEntry {
    pub fn duplicate(&self) -> (r: ImportEntry)
        ensures
            r@ == self@,
    {
        let r = ImportEntry {
            module: self.module.clone(),
            field: self.field.clone(),
            external: self.external,
        };
        proof {
            assert(r@ =~= self@);
        }
        r
    }
}

impl ExportEntry {
    pub fn duplicate(&self) -> (r: ExportEntry)
        ensures
            r@ == self@,
    {
        let r = ExportEntry { field: self.field.clone(), internal: self.internal };
        proof {
            assert(r@ =~= self@);
        }
        r
    }
}

impl GlobalEntry {
    pub fn duplicate(&self) -> (r: GlobalEntry)
        ensures
            r@ == self@,
    {
        let r = GlobalEntry { ty: self.ty, mutable: self.mutable, init: dup_copy_vec(&self.init) };
        proof {
            assert(r@ =~= self@);
        }
        r
    }
}

impl ElementSegment {
    pub fn duplicate(&self) -> (r: ElementSegment)
        ensures
            r@ == self@,
    {
        let r = ElementSegment {
            index: self.index,
            offset: self.offset,
            members: dup_copy_vec(&self.members),
        };
        proof {
            assert(r@ =~= self@);
        }
        r
    }
}

impl DataSegment {
    pub fn duplicate(&self) -> (r: DataSegment)
        ensures
            r@ == self@,
    {
        let r = DataSegment {
            index: self.index,
            offset: self.offset,
            data: dup_copy_vec(&self.data),
        };
        proof {
            assert(r@ =~= self@);
        }
        r
    }
}

impl CustomSection {
    pub fn duplicate(&self) -> (r: CustomSection)
        ensures
            r@ == self@,
    {
        let r = CustomSection { name: self.name.clone(), payload: dup_copy_vec(&self.payload) };
        proof {
            assert(r@ =~= self@);
        }
        r
    }
}

impl FuncBody {
    pub fn duplicate(&self) -> (r: FuncBody)
        ensures
            r@ == self@,
    {
        let r = FuncBody { locals: dup_copy_vec(&self.locals), code: dup_copy_vec(&self.code) };
        proof {
            assert(r@ =~= self@);
        }
        r
    }
}

pub fn sig_vec_eq(a: &Vec<FuncSig>, b: &Vec<FuncSig>) -> (r: bool)
    ensures
        r == (sig_views(a@) == sig_views(b@)),
{
    if a.len() != b.len() {
        return false;
    }
    let n = a.len();
    let mut i: usize = 0;
    while i < n
        invariant
            i <= n,
            n == a.len() == b.len(),
            forall|j: int| 0 <= j < i ==> a@[j]@ == b@[j]@,
        decreases n - i,
    {
        if !sig_eq(&a[i], &b[i]) {
            proof {
                assert(sig_views(a@)[i as int] != sig_views(b@)[i as int]);
            }
            return false;
        }
        i += 1;
    }
    proof {
        assert(sig_views(a@) =~= sig_views(b@));
    }
    true
}

pub fn import_vec_eq(a: &Vec<ImportEntry>, b: &Vec<ImportEntry>) -> (r: bool)
    ensures
        r == (import_views(a@) == import_views(b@)),
{
    if a.len() != b.len() {
        return false;
    }
    let n = a.len();
    let mut i: usize = 0;
    while i < n
        invariant
            i <= n,
            n == a.len() == b.len(),
            forall|j: int| 0 <= j < i ==> a@[j]@ == b@[j]@,
        decreases n - i,
    {
        if !import_eq(&a[i], &b[i]) {
            proof {
                assert(import_views(a@)[i as int] != import_views(b@)[i as int]);
            }
            return false;
        }
        i += 1;
    }
    proof {
        assert(import_views(a@) =~= import_views(b@));
    }
    true
}

pub fn export_vec_eq(a: &Vec<ExportEntry>, b: &Vec<ExportEntry>) -> (r: bool)
    ensures
        r == (export_views(a@) == export_views(b@)),
{
    if a.len() != b.len() {
        return false;
    }
    let n = a.len();
    let mut i: usize = 0;
    while i < n
        invariant
            i <= n,
            n == a.len() == b.len(),
            forall|j: int| 0 <= j < i ==> a@[j]@ == b@[j]@,
        decreases n - i,
    {
        if !export_eq(&a[i], &b[i]) {
            proof {
                assert(export_views(a@)[i as int] != export_views(b@)[i as int]);
            }
            return false;
        }
        i += 1;
    }
    proof {
        assert(export_views(a@) =~= export_views(b@));
    }
    true
}

pub fn global_vec_eq(a: &Vec<GlobalEntry>, b: &Vec<GlobalEntry>) -> (r: bool)
    ensures
        r == (global_views(a@) == global_views(b@)),
{
    if a.len() != b.len() {
        return false;
    }
    let n = a.len();
    let mut i: usize = 0;
    while i < n
        invariant
            i <= n,
            n == a.len() == b.len(),
            forall|j: int| 0 <= j < i ==> a@[j]@ == b@[j]@,
        decreases n - i,
    {
        if !global_eq(&a[i], &b[i]) {
            proof {
                assert(global_views(a@)[i as int] != global_views(b@)[i as int]);
            }
            return false;
        }
        i += 1;
    }
    proof {
        assert(global_views(a@) =~= global_views(b@));
    }
    true
}

pub fn element_vec_eq(a: &Vec<ElementSegment>, b: &Vec<ElementSegment>) -> (r: bool)
    ensures
        r == (element_views(a@) == element_views(b@)),
{
    if a.len() != b.len() {
        return false;
    }
    let n = a.len();
    let mut i: usize = 0;
    while i < n
        invariant
            i <= n,
            n == a.len() == b.len(),
            forall|j: int| 0 <= j < i ==> a@[j]@ == b@[j]@,
        decreases n - i,
    {
        if !element_segment_eq(&a[i], &b[i]) {
            proof {
                assert(element_views(a@)[i as int] != element_views(b@)[i as int]);
            }
            return false;
        }
        i += 1;
    }
    proof {
        assert(element_views(a@) =~= element_views(b@));
    }
    true
}

pub fn data_vec_eq(a: &Vec<DataSegment>, b: &Vec<DataSegment>) -> (r: bool)
    ensures
        r == (data_views(a@) == data_views(b@)),
{
    if a.len() != b.len() {
        return false;
    }
    let n = a.len();
    let mut i: usize = 0;
    while i < n
        invariant
            i <= n,
            n == a.len() == b.len(),
            forall|j: int| 0 <= j < i ==> a@[j]@ == b@[j]@,
        decreases n - i,
    {
        if !data_segment_eq(&a[i], &b[i]) {
            proof {
                assert(data_views(a@)[i as int] != data_views(b@)[i as int]);
            }
            return false;
        }
        i += 1;
    }
    proof {
        assert(data_views(a@) =~= data_views(b@));
    }
    true
}

pub fn custom_vec_eq(a: &Vec<CustomSection>, b: &Vec<CustomSection>) -> (r: bool)
    ensures
        r == (custom_views(a@) == custom_views(b@)),
{
    if a.len() != b.len() {
        return false;
    }
    let n = a.len();
    let mut i: usize = 0;
    while i < n
        invariant
            i <= n,
            n == a.len() == b.len(),
            forall|j: int| 0 <= j < i ==> a@[j]@ == b@[j]@,
        decreases n - i,
    {
        if !custom_eq(&a[i], &b[i]) {
            proof {
                assert(custom_views(a@)[i as int] != custom_views(b@)[i as int]);
            }
            return false;
        }
        i += 1;
    }
    proof {
        assert(custom_views(a@) =~= custom_views(b@));
    }
    true
}

pub fn body_vec_eq(a: &Vec<FuncBody>, b: &Vec<FuncBody>) -> (r: bool)
    ensures
        r == (body_views(a@) == body_views(b@)),
{
    if a.len() != b.len() {
        return false;
    }
    let n = a.len();
    let mut i: usize = 0;
    while i < n
        invariant
            i <= n,
            n == a.len() == b.len(),
            forall|j: int| 0 <= j < i ==> a@[j]@ == b@[j]@,
        decreases n - i,
    {
        if !body_eq(&a[i], &b[i]) {
            proof {
                assert(body_views(a@)[i as int] != body_views(b@)[i as int]);
            }
            return false;
        }
        i += 1;
    }
    proof {
        assert(body_views(a@) =~= body_views(b@));
    }
    true
}

pub fn sig_vec_dup(v: &Vec<FuncSig>) -> (r: Vec<FuncSig>)
    ensures
        sig_views(r@) == sig_views(v@),
{
    let mut out: Vec<FuncSig> = Vec::new();
    let mut i: usize = 0;
    while i < v.len()
        invariant
            i <= v.len(),
            out@.len() == i,
            forall|j: int| 0 <= j < i ==> out@[j]@ == v@[j]@,
        decreases v.len() - i,
    {
        out.push(v[i].duplicate());
        i += 1;
    }
    proof {
        assert(sig_views(out@) =~= sig_views(v@));
    }
    out
}

pub fn import_vec_dup(v: &Vec<ImportEntry>) -> (r: Vec<ImportEntry>)
    ensures
        import_views(r@) == import_views(v@),
{
    let mut out: Vec<ImportEntry> = Vec::new();
    let mut i: usize = 0;
    while i < v.len()
        invariant
            i <= v.len(),
            out@.len() == i,
            forall|j: int| 0 <= j < i ==> out@[j]@ == v@[j]@,
        decreases v.len() - i,
    {
        out.push(v[i].duplicate());
        i += 1;
    }
    proof {
        assert(import_views(out@) =~= import_views(v@));
    }
    out
}

pub fn export_vec_dup(v: &Vec<ExportEntry>) -> (r: Vec<ExportEntry>)
    ensures
        export_views(r@) == export_views(v@),
{
    let mut out: Vec<ExportEntry> = Vec::new();
    let mut i: usize = 0;
    while i < v.len()
        invariant
            i <= v.len(),
            out@.len() == i,
            forall|j: int| 0 <= j < i ==> out@[j]@ == v@[j]@,
        decreases v.len() - i,
    {
        out.push(v[i].duplicate());
        i += 1;
    }
    proof {
        assert(export_views(out@) =~= export_views(v@));
    }
    out
}

pub fn global_vec_dup(v: &Vec<GlobalEntry>) -> (r: Vec<GlobalEntry>)
    ensures
        global_views(r@) == global_views(v@),
{
    let mut out: Vec<GlobalEntry> = Vec::new();
    let mut i: usize = 0;
    while i < v.len()
        invariant
            i <= v.len(),
            out@.len() == i,
            forall|j: int| 0 <= j < i ==> out@[j]@ == v@[j]@,
        decreases v.len() - i,
    {
        out.push(v[i].duplicate());
        i += 1;
    }
    proof {
        assert(global_views(out@) =~= global_views(v@));
    }
    out
}

pub fn element_vec_dup(v: &Vec<ElementSegment>) -> (r: Vec<ElementSegment>)
    ensures
        element_views(r@) == element_views(v@),
{
    let mut out: Vec<ElementSegment> = Vec::new();
    let mut i: usize = 0;
    while i < v.len()
        invariant
            i <= v.len(),
            out@.len() == i,
            forall|j: int| 0 <= j < i ==> out@[j]@ == v@[j]@,
        decreases v.len() - i,
    {
        out.push(v[i].duplicate());
        i += 1;
    }
    proof {
        assert(element_views(out@) =~= element_views(v@));
    }
    out
}

pub fn data_vec_dup(v: &Vec<DataSegment>) -> (r: Vec<DataSegment>)
    ensures
        data_views(r@) == data_views(v@),
{
    let mut out: Vec<DataSegment> = Vec::new();
    let mut i: usize = 0;
    while i < v.len()
        invariant
            i <= v.len(),
            out@.len() == i,
            forall|j: int| 0 <= j < i ==> out@[j]@ == v@[j]@,
        decreases v.len() - i,
    {
        out.push(v[i].duplicate());
        i += 1;
    }
    proof {
        assert(data_views(out@) =~= data_views(v@));
    }
    out
}

pub fn custom_vec_dup(v: &Vec<CustomSection>) -> (r: Vec<CustomSection>)
    ensures
        custom_views(r@) == custom_views(v@),
{
    let mut out: Vec<CustomSection> = Vec::new();
    let mut i: usize = 0;
    while i < v.len()
        invariant
            i <= v.len(),
            out@.len() == i,
            forall|j: int| 0 <= j < i ==> out@[j]@ == v@[j]@,
        decreases v.len() - i,
    {
        out.push(v[i].duplicate());
        i += 1;
    }
    proof {
        assert(custom_views(out@) =~= custom_views(v@));
    }
    out
}

pub fn body_vec_dup(v: &Vec<FuncBody>) -> (r: Vec<FuncBody>)
    ensures
        body_views(r@) == body_views(v@),
{
    let mut out: Vec<FuncBody> = Vec::new();
    let mut i: usize = 0;
    while i < v.len()
        invariant
            i <= v.len(),
            out@.len() == i,
            forall|j: int| 0 <= j < i ==> out@[j]@ == v@[j]@,
        decreases v.len() - i,
    {
        out.push(v[i].duplicate());
        i += 1;
    }
    proof {
        assert(body_views(out@) =~= body_views(v@));
    }
    out
}

impl Module {
    /// A structurally identical copy, used to snapshot a module before a
    /// pass pipeline runs over it.
    pub fn duplicate(&self) -> (r: Module)
        ensures
            r@ == self@,
    {
        let code: Option<Vec<FuncBody>> = match &self.code {
            Option::None => Option::None,
            Option::Some(bodies) => Option::Some(body_vec_dup(bodies)),
        };
        let r = Module {
            types: sig_vec_dup(&self.types),
            imports: import_vec_dup(&self.imports),
            functions: dup_copy_vec(&self.functions),
            tables: dup_copy_vec(&self.tables),
            memories: dup_copy_vec(&self.memories),
            globals: global_vec_dup(&self.globals),
            exports: export_vec_dup(&self.exports),
            start: self.start,
            elements: element_vec_dup(&self.elements),
            code,
            data: data_vec_dup(&self.data),
            customs: custom_vec_dup(&self.customs),
        };
        proof {
            assert(r@ =~= self@);
        }
        r
    }

    /// Structural equality of two modules, section by section: the test
    /// the pipeline uses to decide whether its passes changed anything.
    pub fn structurally_equal(&self, other: &Module) -> (r: bool)
        ensures
            r == (self@ == other@),
    {
        let code_ok: bool = match (&self.code, &other.code) {
            (Option::None, Option::None) => true,
            (Option::Some(a), Option::Some(b)) => body_vec_eq(a, b),
            _ => false,
        };
        let r = code_ok && sig_vec_eq(&self.types, &other.types)
            && import_vec_eq(&self.imports, &other.imports)
            && u32_vec_eq(&self.functions, &other.functions)
            && limits_vec_eq(&self.tables, &other.tables)
            && limits_vec_eq(&self.memories, &other.memories)
            && global_vec_eq(&self.globals, &other.globals)
            && export_vec_eq(&self.exports, &other.exports)
            && opt_u32_eq(&self.start, &other.start)
            && element_vec_eq(&self.elements, &other.elements)
            && data_vec_eq(&self.data, &other.data)
            && custom_vec_eq(&self.customs, &other.customs);
        proof {
            if r {
                assert(self@ =~= other@);
            }
        }
        r
    }
}

} // verus!
