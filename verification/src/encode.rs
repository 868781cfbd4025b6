use vstd::prelude::*;

use crate::ast::{
    body_views, custom_views, data_views, element_views, export_views, global_views, import_views,
    sig_views, CustomSection, CustomSectionV, DataSegment, DataSegmentV, ElementSegment, ElementSegmentV, ExportEntry, ExportEntryV, ExportInternal,
    External, FuncBody, FuncBodyV, FuncSig, FuncSigV, GlobalEntry, GlobalEntryV, ImportEntry,
    ImportEntryV, Limits, LocalGroup, Module, ModuleV, ValType,
};
use crate::instr::{instr_bytes, push_instr, Instr};
use crate::leb128::{push_leb_u32, push_leb_usize, push_sleb_i32, spec_leb, spec_sleb};
use vstd::string::StringSliceAdditionalSpecFns;
use vstd::utf8::encode_utf8;

verus! {

/// The concatenation of `f` applied to every element of `s`, in order.
pub open spec fn concat_map<T>(s: Seq<T>, f: spec_fn(T) -> Seq<u8>) -> Seq<u8>
    decreases s.len(),
{
    if s.len() == 0 {
        Seq::empty()
    } else {
        f(s[0]) + concat_map(s.drop_first(), f)
    }
}

pub proof fn lemma_concat_map_take_snoc<T>(s: Seq<T>, f: spec_fn(T) -> Seq<u8>, i: int)
    requires
        0 <= i < s.len(),
    ensures
        concat_map(s.take(i + 1), f) == concat_map(s.take(i), f) + f(s[i]),
    decreases i,
{
    if i == 0 {
        assert(s.take(1) =~= seq![s[0]]);
        assert(s.take(1).drop_first() =~= Seq::<T>::empty());
        assert(s.take(0) =~= Seq::<T>::empty());
        assert(concat_map(s.take(0), f) + f(s[0]) =~= f(s[0]));
        assert(concat_map(s.take(1), f) =~= f(s[0]));
    } else {
        let t = s.drop_first();
        assert(s.take(i + 1).drop_first() =~= t.take(i));
        assert(s.take(i).drop_first() =~= t.take(i - 1));
        lemma_concat_map_take_snoc(t, f, i - 1);
        assert(s.take(i + 1)[0] == s[0]);
        assert(s.take(i)[0] == s[0]);
        assert(t[i - 1] == s[i]);
        assert(concat_map(s.take(i + 1), f) =~= concat_map(s.take(i), f) + f(s[i]));
    }
}

/// A length-prefixed vector as the binary format encodes one.
pub open spec fn enc_vector<T>(s: Seq<T>, f: spec_fn(T) -> Seq<u8>) -> Seq<u8> {
    spec_leb(s.len() as nat) + concat_map(s, f)
}

/// A name: the length of its UTF-8 encoding, then those bytes.
pub open spec fn enc_name(s: Seq<char>) -> Seq<u8> {
    spec_leb(encode_utf8(s).len() as nat) + encode_utf8(s)
}

pub open spec fn enc_valtype(t: ValType) -> Seq<u8> {
    match t {
        ValType::I32 => seq![0x7fu8],
        ValType::I64 => seq![0x7eu8],
        ValType::F32 => seq![0x7du8],
        ValType::F64 => seq![0x7cu8],
        ValType::V128 => seq![0x7bu8],
    }
}

pub open spec fn enc_valtype_fn() -> spec_fn(ValType) -> Seq<u8> {
    |t: ValType| enc_valtype(t)
}

pub open spec fn enc_sig(t: FuncSigV) -> Seq<u8> {
    seq![0x60u8] + enc_vector(t.params, enc_valtype_fn()) + (match t.ret {
        Option::None => seq![0x00u8],
        Option::Some(v) => seq![0x01u8] + enc_valtype(v),
    })
}

pub open spec fn enc_sig_fn() -> spec_fn(FuncSigV) -> Seq<u8> {
    |t: FuncSigV| enc_sig(t)
}

pub open spec fn enc_limits(l: Limits) -> Seq<u8> {
    match l.maximum {
        Option::None => seq![0x00u8] + spec_leb(l.initial as nat),
        Option::Some(m) => seq![0x01u8] + spec_leb(l.initial as nat) + spec_leb(m as nat),
    }
}

pub open spec fn enc_limits_fn() -> spec_fn(Limits) -> Seq<u8> {
    |l: Limits| enc_limits(l)
}

pub open spec fn enc_table(l: Limits) -> Seq<u8> {
    seq![0x70u8] + enc_limits(l)
}

pub open spec fn enc_table_fn() -> spec_fn(Limits) -> Seq<u8> {
    |l: Limits| enc_table(l)
}

pub open spec fn enc_external(e: External) -> Seq<u8> {
    match e {
        External::Function(t) => seq![0x00u8] + spec_leb(t as nat),
        External::Table(l) => seq![0x01u8] + enc_table(l),
        External::Memory(l) => seq![0x02u8] + enc_limits(l),
        External::Global(t, m) => seq![0x03u8] + enc_valtype(t) + seq![
            (if m {
                0x01u8
            } else {
                0x00u8
            }),
        ],
    }
}

pub open spec fn enc_import(e: ImportEntryV) -> Seq<u8> {
    enc_name(e.module) + enc_name(e.field) + enc_external(e.external)
}

pub open spec fn enc_import_fn() -> spec_fn(ImportEntryV) -> Seq<u8> {
    |e: ImportEntryV| enc_import(e)
}

pub open spec fn enc_export(e: ExportEntryV) -> Seq<u8> {
    enc_name(e.field) + (match e.internal {
        ExportInternal::Function(i) => seq![0x00u8] + spec_leb(i as nat),
        ExportInternal::Table(i) => seq![0x01u8] + spec_leb(i as nat),
        ExportInternal::Memory(i) => seq![0x02u8] + spec_leb(i as nat),
        ExportInternal::Global(i) => seq![0x03u8] + spec_leb(i as nat),
    })
}

pub open spec fn enc_export_fn() -> spec_fn(ExportEntryV) -> Seq<u8> {
    |e: ExportEntryV| enc_export(e)
}

pub open spec fn instr_bytes_fn() -> spec_fn(Instr) -> Seq<u8> {
    |i: Instr| instr_bytes(i)
}

pub open spec fn enc_global(g: GlobalEntryV) -> Seq<u8> {
    enc_valtype(g.ty) + seq![
        (if g.mutable {
            0x01u8
        } else {
            0x00u8
        }),
    ] + concat_map(g.init, instr_bytes_fn())
}

pub open spec fn enc_global_fn() -> spec_fn(GlobalEntryV) -> Seq<u8> {
    |g: GlobalEntryV| enc_global(g)
}

pub open spec fn enc_local(l: LocalGroup) -> Seq<u8> {
    spec_leb(l.count as nat) + enc_valtype(l.ty)
}

pub open spec fn enc_local_fn() -> spec_fn(LocalGroup) -> Seq<u8> {
    |l: LocalGroup| enc_local(l)
}

pub open spec fn enc_body(b: FuncBodyV) -> Seq<u8> {
    spec_leb(
        (enc_vector(b.locals, enc_local_fn()) + concat_map(b.code, instr_bytes_fn())).len() as nat,
    ) + enc_vector(b.locals, enc_local_fn()) + concat_map(b.code, instr_bytes_fn())
}

pub open spec fn enc_body_fn() -> spec_fn(FuncBodyV) -> Seq<u8> {
    |b: FuncBodyV| enc_body(b)
}

pub open spec fn enc_leb_u32_fn() -> spec_fn(u32) -> Seq<u8> {
    |x: u32| spec_leb(x as nat)
}

/// A constant `i32` initialiser expression, as data and element segments
/// carry one: `i32.const` of the offset, then `end`.
pub open spec fn enc_init_i32(offset: i32) -> Seq<u8> {
    seq![0x41u8] + spec_sleb(offset as int) + seq![0x0bu8]
}

pub open spec fn enc_data_segment(d: DataSegmentV) -> Seq<u8> {
    spec_leb(d.index as nat) + enc_init_i32(d.offset) + spec_leb(d.data.len() as nat) + d.data
}

pub open spec fn enc_data_fn() -> spec_fn(DataSegmentV) -> Seq<u8> {
    |d: DataSegmentV| enc_data_segment(d)
}

pub open spec fn enc_element_segment(e: ElementSegmentV) -> Seq<u8> {
    spec_leb(e.index as nat) + enc_init_i32(e.offset) + enc_vector(e.members, enc_leb_u32_fn())
}

pub open spec fn enc_elem_fn() -> spec_fn(ElementSegmentV) -> Seq<u8> {
    |e: ElementSegmentV| enc_element_segment(e)
}

/// A whole section: its one-byte identifier, the byte length of its
/// content, then the content.
pub open spec fn enc_section(id: u8, content: Seq<u8>) -> Seq<u8> {
    seq![id] + spec_leb(content.len() as nat) + content
}

/// A custom section: identifier zero, with the name inside the content.
pub open spec fn enc_custom(c: CustomSectionV) -> Seq<u8> {
    enc_section(0x00u8, enc_name(c.name) + c.payload)
}

pub open spec fn enc_custom_fn() -> spec_fn(CustomSectionV) -> Seq<u8> {
    |c: CustomSectionV| enc_custom(c)
}

/// A section holding a counted vector of entries; absent when empty.
pub open spec fn enc_vec_section<T>(id: u8, s: Seq<T>, f: spec_fn(T) -> Seq<u8>) -> Seq<u8> {
    if s.len() == 0 {
        Seq::empty()
    } else {
        enc_section(id, enc_vector(s, f))
    }
}

/// The magic number and version that open every encoded module.
pub open spec fn spec_header() -> Seq<u8> {
    seq![0x00u8, 0x61u8, 0x73u8, 0x6du8, 0x01u8, 0x00u8, 0x00u8, 0x00u8]
}

/// The full binary encoding of a module: header, then every non-empty
/// numbered section in ascending order, then the custom sections.
#[verifier::opaque]
pub open spec fn enc_module(m: ModuleV) -> Seq<u8> {
    spec_header() + enc_vec_section(1, m.types, enc_sig_fn()) + enc_vec_section(
        2,
        m.imports,
        enc_import_fn(),
    ) + enc_vec_section(3, m.functions, enc_leb_u32_fn()) + enc_vec_section(
        4,
        m.tables,
        enc_table_fn(),
    ) + enc_vec_section(5, m.memories, enc_limits_fn()) + enc_vec_section(
        6,
        m.globals,
        enc_global_fn(),
    ) + enc_vec_section(7, m.exports, enc_export_fn()) + enc_start_section(m.start)
        + enc_vec_section(9, m.elements, enc_elem_fn()) + enc_code_section(m.code)
        + enc_vec_section(11, m.data, enc_data_fn()) + concat_map(m.customs, enc_custom_fn())
}

/// Appends a byte slice.
pub fn push_bytes(out: &mut Vec<u8>, b: &[u8])
    ensures
        final(out)@ == old(out)@ + b@,
{
    out.extend_from_slice(b);
    proof {
        assert(out@ =~= old(out)@ + b@);
    }
}

/// Appends a name: length of the UTF-8 bytes, then the bytes.
pub fn push_name(out: &mut Vec<u8>, s: &String)
    ensures
        final(out)@ == old(out)@ + enc_name(s@),
{
    let bytes = s.as_str().as_bytes();
    push_leb_usize(out, bytes.len());
    push_bytes(out, bytes);
    assert(out@ =~= old(out)@ + enc_name(s@));
}

pub fn push_valtype(out: &mut Vec<u8>, t: &ValType)
    ensures
        final(out)@ == old(out)@ + enc_valtype(*t),
{
    match t {
        ValType::I32 => out.push(0x7f),
        ValType::I64 => out.push(0x7e),
        ValType::F32 => out.push(0x7d),
        ValType::F64 => out.push(0x7c),
        ValType::V128 => out.push(0x7b),
    }
    assert(out@ =~= old(out)@ + enc_valtype(*t));
}

pub fn push_limits(out: &mut Vec<u8>, l: &Limits)
    ensures
        final(out)@ == old(out)@ + enc_limits(*l),
{
    match l.maximum {
        Option::None => {
            out.push(0x00);
            push_leb_u32(out, l.initial);
        },
        Option::Some(m) => {
            out.push(0x01);
            push_leb_u32(out, l.initial);
            push_leb_u32(out, m);
        },
    }
    assert(out@ =~= old(out)@ + enc_limits(*l));
}

pub fn push_table(out: &mut Vec<u8>, l: &Limits)
    ensures
        final(out)@ == old(out)@ + enc_table(*l),
{
    out.push(0x70);
    push_limits(out, l);
    assert(out@ =~= old(out)@ + enc_table(*l));
}

pub fn push_external(out: &mut Vec<u8>, e: &External)
    ensures
        final(out)@ == old(out)@ + enc_external(*e),
{
    match e {
        External::Function(t) => {
            out.push(0x00);
            push_leb_u32(out, *t);
        },
        External::Table(l) => {
            out.push(0x01);
            push_table(out, l);
        },
        External::Memory(l) => {
            out.push(0x02);
            push_limits(out, l);
        },
        External::Global(t, m) => {
            out.push(0x03);
            push_valtype(out, t);
            out.push(if *m {
                0x01
            } else {
                0x00
            });
        },
    }
    assert(out@ =~= old(out)@ + enc_external(*e));
}

pub fn push_import(out: &mut Vec<u8>, e: &ImportEntry)
    ensures
        final(out)@ == old(out)@ + enc_import(e@),
{
    push_name(out, &e.module);
    push_name(out, &e.field);
    push_external(out, &e.external);
    assert(out@ =~= old(out)@ + enc_import(e@));
}

pub fn push_export(out: &mut Vec<u8>, e: &ExportEntry)
    ensures
        final(out)@ == old(out)@ + enc_export(e@),
{
    push_name(out, &e.field);
    match e.internal {
        ExportInternal::Function(i) => {
            out.push(0x00);
            push_leb_u32(out, i);
        },
        ExportInternal::Table(i) => {
            out.push(0x01);
            push_leb_u32(out, i);
        },
        ExportInternal::Memory(i) => {
            out.push(0x02);
            push_leb_u32(out, i);
        },
        ExportInternal::Global(i) => {
            out.push(0x03);
            push_leb_u32(out, i);
        },
    }
    assert(out@ =~= old(out)@ + enc_export(e@));
}

pub fn push_local(out: &mut Vec<u8>, l: &LocalGroup)
    ensures
        final(out)@ == old(out)@ + enc_local(*l),
{
    push_leb_u32(out, l.count);
    push_valtype(out, &l.ty);
    assert(out@ =~= old(out)@ + enc_local(*l));
}

pub fn push_init_i32(out: &mut Vec<u8>, offset: i32)
    ensures
        final(out)@ == old(out)@ + enc_init_i32(offset),
{
    out.push(0x41);
    push_sleb_i32(out, offset);
    out.push(0x0b);
    assert(out@ =~= old(out)@ + enc_init_i32(offset));
}

pub fn push_valtypes(out: &mut Vec<u8>, v: &Vec<ValType>)
    ensures
        final(out)@ == old(out)@ + concat_map(v@, enc_valtype_fn()),
{
    let mut i: usize = 0;
    while i < v.len()
        invariant
            i <= v.len(),
            out@ == old(out)@ + concat_map(v@.take(i as int), enc_valtype_fn()),
        decreases v.len() - i,
    {
        push_valtype(out, &v[i]);
        proof {
            lemma_concat_map_take_snoc(v@, enc_valtype_fn(), i as int);
            assert(out@ =~= old(out)@ + concat_map(v@.take(i as int + 1), enc_valtype_fn()));
        }
        i += 1;
    }
    proof {
        assert(v@.take(v@.len() as int) =~= v@);
    }
}

pub fn push_sigs(out: &mut Vec<u8>, v: &Vec<FuncSig>)
    ensures
        final(out)@ == old(out)@ + concat_map(sig_views(v@), enc_sig_fn()),
{
    let mut i: usize = 0;
    while i < v.len()
        invariant
            i <= v.len(),
            out@ == old(out)@ + concat_map(sig_views(v@).take(i as int), enc_sig_fn()),
        decreases v.len() - i,
    {
        push_sig(out, &v[i]);
        proof {
            lemma_concat_map_take_snoc(sig_views(v@), enc_sig_fn(), i as int);
            assert(out@ =~= old(out)@ + concat_map(sig_views(v@).take(i as int + 1), enc_sig_fn()));
        }
        i += 1;
    }
    proof {
        assert(sig_views(v@).take(v@.len() as int) =~= sig_views(v@));
    }
}

pub fn push_imports(out: &mut Vec<u8>, v: &Vec<ImportEntry>)
    ensures
        final(out)@ == old(out)@ + concat_map(import_views(v@), enc_import_fn()),
{
    let mut i: usize = 0;
    while i < v.len()
        invariant
            i <= v.len(),
            out@ == old(out)@ + concat_map(import_views(v@).take(i as int), enc_import_fn()),
        decreases v.len() - i,
    {
        push_import(out, &v[i]);
        proof {
            lemma_concat_map_take_snoc(import_views(v@), enc_import_fn(), i as int);
            assert(out@ =~= old(out)@ + concat_map(import_views(v@).take(i as int + 1), enc_import_fn()));
        }
        i += 1;
    }
    proof {
        assert(import_views(v@).take(v@.len() as int) =~= import_views(v@));
    }
}

pub fn push_exports(out: &mut Vec<u8>, v: &Vec<ExportEntry>)
    ensures
        final(out)@ == old(out)@ + concat_map(export_views(v@), enc_export_fn()),
{
    let mut i: usize = 0;
    while i < v.len()
        invariant
            i <= v.len(),
            out@ == old(out)@ + concat_map(export_views(v@).take(i as int), enc_export_fn()),
        decreases v.len() - i,
    {
        push_export(out, &v[i]);
        proof {
            lemma_concat_map_take_snoc(export_views(v@), enc_export_fn(), i as int);
            assert(out@ =~= old(out)@ + concat_map(export_views(v@).take(i as int + 1), enc_export_fn()));
        }
        i += 1;
    }
    proof {
        assert(export_views(v@).take(v@.len() as int) =~= export_views(v@));
    }
}

pub fn push_u32s(out: &mut Vec<u8>, v: &Vec<u32>)
    ensures
        final(out)@ == old(out)@ + concat_map(v@, enc_leb_u32_fn()),
{
    let mut i: usize = 0;
    while i < v.len()
        invariant
            i <= v.len(),
            out@ == old(out)@ + concat_map(v@.take(i as int), enc_leb_u32_fn()),
        decreases v.len() - i,
    {
        push_leb_u32(out, v[i]);
        proof {
            lemma_concat_map_take_snoc(v@, enc_leb_u32_fn(), i as int);
            assert(out@ =~= old(out)@ + concat_map(v@.take(i as int + 1), enc_leb_u32_fn()));
        }
        i += 1;
    }
    proof {
        assert(v@.take(v@.len() as int) =~= v@);
    }
}

pub fn push_tables(out: &mut Vec<u8>, v: &Vec<Limits>)
    ensures
        final(out)@ == old(out)@ + concat_map(v@, enc_table_fn()),
{
    let mut i: usize = 0;
    while i < v.len()
        invariant
            i <= v.len(),
            out@ == old(out)@ + concat_map(v@.take(i as int), enc_table_fn()),
        decreases v.len() - i,
    {
        push_table(out, &v[i]);
        proof {
            lemma_concat_map_take_snoc(v@, enc_table_fn(), i as int);
            assert(out@ =~= old(out)@ + concat_map(v@.take(i as int + 1), enc_table_fn()));
        }
        i += 1;
    }
    proof {
        assert(v@.take(v@.len() as int) =~= v@);
    }
}

pub fn push_mems(out: &mut Vec<u8>, v: &Vec<Limits>)
    ensures
        final(out)@ == old(out)@ + concat_map(v@, enc_limits_fn()),
{
    let mut i: usize = 0;
    while i < v.len()
        invariant
            i <= v.len(),
            out@ == old(out)@ + concat_map(v@.take(i as int), enc_limits_fn()),
        decreases v.len() - i,
    {
        push_limits(out, &v[i]);
        proof {
            lemma_concat_map_take_snoc(v@, enc_limits_fn(), i as int);
            assert(out@ =~= old(out)@ + concat_map(v@.take(i as int + 1), enc_limits_fn()));
        }
        i += 1;
    }
    proof {
        assert(v@.take(v@.len() as int) =~= v@);
    }
}

pub fn push_globals(out: &mut Vec<u8>, v: &Vec<GlobalEntry>)
    ensures
        final(out)@ == old(out)@ + concat_map(global_views(v@), enc_global_fn()),
{
    let mut i: usize = 0;
    while i < v.len()
        invariant
            i <= v.len(),
            out@ == old(out)@ + concat_map(global_views(v@).take(i as int), enc_global_fn()),
        decreases v.len() - i,
    {
        push_global(out, &v[i]);
        proof {
            lemma_concat_map_take_snoc(global_views(v@), enc_global_fn(), i as int);
            assert(out@ =~= old(out)@ + concat_map(global_views(v@).take(i as int + 1), enc_global_fn()));
        }
        i += 1;
    }
    proof {
        assert(global_views(v@).take(v@.len() as int) =~= global_views(v@));
    }
}

pub fn push_locals(out: &mut Vec<u8>, v: &Vec<LocalGroup>)
    ensures
        final(out)@ == old(out)@ + concat_map(v@, enc_local_fn()),
{
    let mut i: usize = 0;
    while i < v.len()
        invariant
            i <= v.len(),
            out@ == old(out)@ + concat_map(v@.take(i as int), enc_local_fn()),
        decreases v.len() - i,
    {
        push_local(out, &v[i]);
        proof {
            lemma_concat_map_take_snoc(v@, enc_local_fn(), i as int);
            assert(out@ =~= old(out)@ + concat_map(v@.take(i as int + 1), enc_local_fn()));
        }
        i += 1;
    }
    proof {
        assert(v@.take(v@.len() as int) =~= v@);
    }
}

pub fn push_instrs(out: &mut Vec<u8>, v: &Vec<Instr>)
    ensures
        final(out)@ == old(out)@ + concat_map(v@, instr_bytes_fn()),
{
    let mut i: usize = 0;
    while i < v.len()
        invariant
            i <= v.len(),
            out@ == old(out)@ + concat_map(v@.take(i as int), instr_bytes_fn()),
        decreases v.len() - i,
    {
        push_instr(out, &v[i]);
        proof {
            lemma_concat_map_take_snoc(v@, instr_bytes_fn(), i as int);
            assert(out@ =~= old(out)@ + concat_map(v@.take(i as int + 1), instr_bytes_fn()));
        }
        i += 1;
    }
    proof {
        assert(v@.take(v@.len() as int) =~= v@);
    }
}

pub fn push_bodies(out: &mut Vec<u8>, v: &Vec<FuncBody>)
    ensures
        final(out)@ == old(out)@ + concat_map(body_views(v@), enc_body_fn()),
{
    let mut i: usize = 0;
    while i < v.len()
        invariant
            i <= v.len(),
            out@ == old(out)@ + concat_map(body_views(v@).take(i as int), enc_body_fn()),
        decreases v.len() - i,
    {
        push_body(out, &v[i]);
        proof {
            lemma_concat_map_take_snoc(body_views(v@), enc_body_fn(), i as int);
            assert(out@ =~= old(out)@ + concat_map(body_views(v@).take(i as int + 1), enc_body_fn()));
        }
        i += 1;
    }
    proof {
        assert(body_views(v@).take(v@.len() as int) =~= body_views(v@));
    }
}

pub fn push_datas(out: &mut Vec<u8>, v: &Vec<DataSegment>)
    ensures
        final(out)@ == old(out)@ + concat_map(data_views(v@), enc_data_fn()),
{
    let mut i: usize = 0;
    while i < v.len()
        invariant
            i <= v.len(),
            out@ == old(out)@ + concat_map(data_views(v@).take(i as int), enc_data_fn()),
        decreases v.len() - i,
    {
        push_data_segment(out, &v[i]);
        proof {
            lemma_concat_map_take_snoc(data_views(v@), enc_data_fn(), i as int);
            assert(out@ =~= old(out)@ + concat_map(data_views(v@).take(i as int + 1), enc_data_fn()));
        }
        i += 1;
    }
    proof {
        assert(data_views(v@).take(v@.len() as int) =~= data_views(v@));
    }
}

pub fn push_elems(out: &mut Vec<u8>, v: &Vec<ElementSegment>)
    ensures
        final(out)@ == old(out)@ + concat_map(element_views(v@), enc_elem_fn()),
{
    let mut i: usize = 0;
    while i < v.len()
        invariant
            i <= v.len(),
            out@ == old(out)@ + concat_map(element_views(v@).take(i as int), enc_elem_fn()),
        decreases v.len() - i,
    {
        push_elem_segment(out, &v[i]);
        proof {
            lemma_concat_map_take_snoc(element_views(v@), enc_elem_fn(), i as int);
            assert(out@ =~= old(out)@ + concat_map(element_views(v@).take(i as int + 1), enc_elem_fn()));
        }
        i += 1;
    }
    proof {
        assert(element_views(v@).take(v@.len() as int) =~= element_views(v@));
    }
}

pub fn push_customs(out: &mut Vec<u8>, v: &Vec<CustomSection>)
    ensures
        final(out)@ == old(out)@ + concat_map(custom_views(v@), enc_custom_fn()),
{
    let mut i: usize = 0;
    while i < v.len()
        invariant
            i <= v.len(),
            out@ == old(out)@ + concat_map(custom_views(v@).take(i as int), enc_custom_fn()),
        decreases v.len() - i,
    {
        push_custom(out, &v[i]);
        proof {
            lemma_concat_map_take_snoc(custom_views(v@), enc_custom_fn(), i as int);
            assert(out@ =~= old(out)@ + concat_map(custom_views(v@).take(i as int + 1), enc_custom_fn()));
        }
        i += 1;
    }
    proof {
        assert(custom_views(v@).take(v@.len() as int) =~= custom_views(v@));
    }
}

pub fn push_sig(out: &mut Vec<u8>, s: &FuncSig)
    ensures
        final(out)@ == old(out)@ + enc_sig(s@),
{
    out.push(0x60);
    push_leb_usize(out, s.params.len());
    push_valtypes(out, &s.params);
    match &s.ret {
        Option::None => out.push(0x00),
        Option::Some(t) => {
            out.push(0x01);
            push_valtype(out, t);
        },
    }
    assert(out@ =~= old(out)@ + enc_sig(s@));
}

pub fn push_global(out: &mut Vec<u8>, g: &GlobalEntry)
    ensures
        final(out)@ == old(out)@ + enc_global(g@),
{
    push_valtype(out, &g.ty);
    out.push(if g.mutable {
        0x01
    } else {
        0x00
    });
    push_instrs(out, &g.init);
    assert(out@ =~= old(out)@ + enc_global(g@));
}

pub fn push_body(out: &mut Vec<u8>, b: &FuncBody)
    ensures
        final(out)@ == old(out)@ + enc_body(b@),
{
    let mut content: Vec<u8> = Vec::new();
    push_leb_usize(&mut content, b.locals.len());
    push_locals(&mut content, &b.locals);
    push_instrs(&mut content, &b.code);
    proof {
        assert(content@ =~= enc_vector(b@.locals, enc_local_fn()) + concat_map(
            b@.code,
            instr_bytes_fn(),
        ));
    }
    push_leb_usize(out, content.len());
    push_bytes(out, content.as_slice());
    assert(out@ =~= old(out)@ + enc_body(b@));
}

pub fn push_data_segment(out: &mut Vec<u8>, d: &DataSegment)
    ensures
        final(out)@ == old(out)@ + enc_data_segment(d@),
{
    push_leb_u32(out, d.index);
    push_init_i32(out, d.offset);
    push_leb_usize(out, d.data.len());
    push_bytes(out, d.data.as_slice());
    assert(out@ =~= old(out)@ + enc_data_segment(d@));
}

pub fn push_elem_segment(out: &mut Vec<u8>, e: &ElementSegment)
    ensures
        final(out)@ == old(out)@ + enc_element_segment(e@),
{
    push_leb_u32(out, e.index);
    push_init_i32(out, e.offset);
    push_leb_usize(out, e.members.len());
    push_u32s(out, &e.members);
    assert(out@ =~= old(out)@ + enc_element_segment(e@));
}

pub fn push_custom(out: &mut Vec<u8>, c: &CustomSection)
    ensures
        final(out)@ == old(out)@ + enc_custom(c@),
{
    let mut content: Vec<u8> = Vec::new();
    push_name(&mut content, &c.name);
    push_bytes(&mut content, c.payload.as_slice());
    out.push(0x00);
    push_leb_usize(out, content.len());
    push_bytes(out, content.as_slice());
    assert(out@ =~= old(out)@ + enc_custom(c@));
}

fn emit_types_section(out: &mut Vec<u8>, v: &Vec<FuncSig>)
    ensures
        final(out)@ == old(out)@ + enc_vec_section(1, sig_views(v@), enc_sig_fn()),
{
    if v.len() > 0 {
        let mut content: Vec<u8> = Vec::new();
        push_leb_usize(&mut content, v.len());
        push_sigs(&mut content, v);
        out.push(1);
        push_leb_usize(out, content.len());
        push_bytes(out, content.as_slice());
        assert(out@ =~= old(out)@ + enc_vec_section(1, sig_views(v@), enc_sig_fn()));
    } else {
        assert(out@ =~= old(out)@ + enc_vec_section(1, sig_views(v@), enc_sig_fn()));
    }
}

fn emit_imports_section(out: &mut Vec<u8>, v: &Vec<ImportEntry>)
    ensures
        final(out)@ == old(out)@ + enc_vec_section(2, import_views(v@), enc_import_fn()),
{
    if v.len() > 0 {
        let mut content: Vec<u8> = Vec::new();
        push_leb_usize(&mut content, v.len());
        push_imports(&mut content, v);
        out.push(2);
        push_leb_usize(out, content.len());
        push_bytes(out, content.as_slice());
        assert(out@ =~= old(out)@ + enc_vec_section(2, import_views(v@), enc_import_fn()));
    } else {
        assert(out@ =~= old(out)@ + enc_vec_section(2, import_views(v@), enc_import_fn()));
    }
}

fn emit_functions_section(out: &mut Vec<u8>, v: &Vec<u32>)
    ensures
        final(out)@ == old(out)@ + enc_vec_section(3, v@, enc_leb_u32_fn()),
{
    if v.len() > 0 {
        let mut content: Vec<u8> = Vec::new();
        push_leb_usize(&mut content, v.len());
        push_u32s(&mut content, v);
        out.push(3);
        push_leb_usize(out, content.len());
        push_bytes(out, content.as_slice());
        assert(out@ =~= old(out)@ + enc_vec_section(3, v@, enc_leb_u32_fn()));
    } else {
        assert(out@ =~= old(out)@ + enc_vec_section(3, v@, enc_leb_u32_fn()));
    }
}

fn emit_tables_section(out: &mut Vec<u8>, v: &Vec<Limits>)
    ensures
        final(out)@ == old(out)@ + enc_vec_section(4, v@, enc_table_fn()),
{
    if v.len() > 0 {
        let mut content: Vec<u8> = Vec::new();
        push_leb_usize(&mut content, v.len());
        push_tables(&mut content, v);
        out.push(4);
        push_leb_usize(out, content.len());
        push_bytes(out, content.as_slice());
        assert(out@ =~= old(out)@ + enc_vec_section(4, v@, enc_table_fn()));
    } else {
        assert(out@ =~= old(out)@ + enc_vec_section(4, v@, enc_table_fn()));
    }
}

fn emit_memories_section(out: &mut Vec<u8>, v: &Vec<Limits>)
    ensures
        final(out)@ == old(out)@ + enc_vec_section(5, v@, enc_limits_fn()),
{
    if v.len() > 0 {
        let mut content: Vec<u8> = Vec::new();
        push_leb_usize(&mut content, v.len());
        push_mems(&mut content, v);
        out.push(5);
        push_leb_usize(out, content.len());
        push_bytes(out, content.as_slice());
        assert(out@ =~= old(out)@ + enc_vec_section(5, v@, enc_limits_fn()));
    } else {
        assert(out@ =~= old(out)@ + enc_vec_section(5, v@, enc_limits_fn()));
    }
}

fn emit_globals_section(out: &mut Vec<u8>, v: &Vec<GlobalEntry>)
    ensures
        final(out)@ == old(out)@ + enc_vec_section(6, global_views(v@), enc_global_fn()),
{
    if v.len() > 0 {
        let mut content: Vec<u8> = Vec::new();
        push_leb_usize(&mut content, v.len());
        push_globals(&mut content, v);
        out.push(6);
        push_leb_usize(out, content.len());
        push_bytes(out, content.as_slice());
        assert(out@ =~= old(out)@ + enc_vec_section(6, global_views(v@), enc_global_fn()));
    } else {
        assert(out@ =~= old(out)@ + enc_vec_section(6, global_views(v@), enc_global_fn()));
    }
}

fn emit_exports_section(out: &mut Vec<u8>, v: &Vec<ExportEntry>)
    ensures
        final(out)@ == old(out)@ + enc_vec_section(7, export_views(v@), enc_export_fn()),
{
    if v.len() > 0 {
        let mut content: Vec<u8> = Vec::new();
        push_leb_usize(&mut content, v.len());
        push_exports(&mut content, v);
        out.push(7);
        push_leb_usize(out, content.len());
        push_bytes(out, content.as_slice());
        assert(out@ =~= old(out)@ + enc_vec_section(7, export_views(v@), enc_export_fn()));
    } else {
        assert(out@ =~= old(out)@ + enc_vec_section(7, export_views(v@), enc_export_fn()));
    }
}

fn emit_elements_section(out: &mut Vec<u8>, v: &Vec<ElementSegment>)
    ensures
        final(out)@ == old(out)@ + enc_vec_section(9, element_views(v@), enc_elem_fn()),
{
    if v.len() > 0 {
        let mut content: Vec<u8> = Vec::new();
        push_leb_usize(&mut content, v.len());
        push_elems(&mut content, v);
        out.push(9);
        push_leb_usize(out, content.len());
        push_bytes(out, content.as_slice());
        assert(out@ =~= old(out)@ + enc_vec_section(9, element_views(v@), enc_elem_fn()));
    } else {
        assert(out@ =~= old(out)@ + enc_vec_section(9, element_views(v@), enc_elem_fn()));
    }
}

fn emit_data_section(out: &mut Vec<u8>, v: &Vec<DataSegment>)
    ensures
        final(out)@ == old(out)@ + enc_vec_section(11, data_views(v@), enc_data_fn()),
{
    if v.len() > 0 {
        let mut content: Vec<u8> = Vec::new();
        push_leb_usize(&mut content, v.len());
        push_datas(&mut content, v);
        out.push(11);
        push_leb_usize(out, content.len());
        push_bytes(out, content.as_slice());
        assert(out@ =~= old(out)@ + enc_vec_section(11, data_views(v@), enc_data_fn()));
    } else {
        assert(out@ =~= old(out)@ + enc_vec_section(11, data_views(v@), enc_data_fn()));
    }
}

/// The encoding of an optional start section.
pub open spec fn enc_start_section(start: Option<u32>) -> Seq<u8> {
    match start {
        Option::None => Seq::<u8>::empty(),
        Option::Some(i) => enc_section(8, spec_leb(i as nat)),
    }
}

fn emit_start_section(out: &mut Vec<u8>, v: &Option<u32>)
    ensures
        final(out)@ == old(out)@ + enc_start_section(*v),
{
    match v {
        Option::None => {
            assert(out@ =~= old(out)@ + enc_start_section(*v));
        },
        Option::Some(idx) => {
            let mut content: Vec<u8> = Vec::new();
            push_leb_u32(&mut content, *idx);
            out.push(8);
            push_leb_usize(out, content.len());
            push_bytes(out, content.as_slice());
            assert(out@ =~= old(out)@ + enc_start_section(*v));
        },
    }
}

/// The encoding of an optional code section.
pub open spec fn enc_code_section(code: Option<Seq<FuncBodyV>>) -> Seq<u8> {
    match code {
        Option::None => Seq::<u8>::empty(),
        Option::Some(bodies) => enc_section(
            10,
            spec_leb(bodies.len() as nat) + concat_map(bodies, enc_body_fn()),
        ),
    }
}

fn emit_code_section(out: &mut Vec<u8>, v: &Option<Vec<FuncBody>>)
    ensures
        final(out)@ == old(out)@ + enc_code_section(
            match v {
                Option::None => Option::None,
                Option::Some(bodies) => Option::Some(body_views(bodies@)),
            },
        ),
{
    match v {
        Option::None => {
        },
        Option::Some(bodies) => {
            let mut content: Vec<u8> = Vec::new();
            push_leb_usize(&mut content, bodies.len());
            push_bodies(&mut content, bodies);
            out.push(10);
            push_leb_usize(out, content.len());
            push_bytes(out, content.as_slice());
            assert(out@ =~= old(out)@ + enc_code_section(
                Option::Some(body_views(bodies@)),
            ));
        },
    }
}

/// Encodes a module to its binary form.
pub fn encode_module(m: &Module) -> (r: Vec<u8>)
    ensures
        r@ == enc_module(m@),
{
    let mut out: Vec<u8> = Vec::new();
    out.push(0x00);
    out.push(0x61);
    out.push(0x73);
    out.push(0x6d);
    out.push(0x01);
    out.push(0x00);
    out.push(0x00);
    out.push(0x00);
    proof {
        assert(out@ =~= spec_header());
    }
    emit_types_section(&mut out, &m.types);
    emit_imports_section(&mut out, &m.imports);
    emit_functions_section(&mut out, &m.functions);
    emit_tables_section(&mut out, &m.tables);
    emit_memories_section(&mut out, &m.memories);
    emit_globals_section(&mut out, &m.globals);
    emit_exports_section(&mut out, &m.exports);
    emit_start_section(&mut out, &m.start);
    emit_elements_section(&mut out, &m.elements);
    emit_code_section(&mut out, &m.code);
    emit_data_section(&mut out, &m.data);
    push_customs(&mut out, &m.customs);
    proof {
        reveal(enc_module);
        assert(enc_start_section(m.start) == enc_start_section(m@.start));
        match &m.code {
            Option::None => {
                assert(m@.code is None);
            },
            Option::Some(bodies) => {
                assert(m@.code == Option::Some(body_views(bodies@)));
            },
        }
        assert(out@ == enc_module(m@));
    }
    out
}

} // verus!
