use vstd::prelude::*;

use crate::leb128::{spec_leb, spec_sleb, spec_le32, spec_le64, push_leb_u32, push_sleb_i32, push_sleb_i64, push_le32, push_le64};

verus! {

/// One instruction of a function body, as far as the passes of this
/// library read them: the full set of floating-point instructions the
/// float scanner must recognise (scalar and packed-vector forms), and
/// the integer and control instructions that the other passes and the
/// generated deployment wrappers use.
#[derive(Clone, Copy, Debug, PartialEq, Eq, Structural)]
pub enum Instr {
    Unreachable,
    Nop,
    End,
    Return,
    Drop,
    I32Add,
    I32Sub,
    Call(u32),
    GetLocal(u32),
    SetLocal(u32),
    TeeLocal(u32),
    GetGlobal(u32),
    SetGlobal(u32),
    CallIndirect(u32, u8),
    I32Load(u32, u32),
    I64Load(u32, u32),
    I32Store(u32, u32),
    I64Store(u32, u32),
    I32Const(i32),
    I64Const(i64),
    F32Const(u32),
    F64Const(u64),
    F32Eq,
    F32Ne,
    F32Lt,
    F32Gt,
    F32Le,
    F32Ge,
    F64Eq,
    F64Ne,
    F64Lt,
    F64Gt,
    F64Le,
    F64Ge,
    F32Abs,
    F32Neg,
    F32Ceil,
    F32Floor,
    F32Trunc,
    F32Nearest,
    F32Sqrt,
    F32Add,
    F32Sub,
    F32Mul,
    F32Div,
    F32Min,
    F32Max,
    F32Copysign,
    F64Abs,
    F64Neg,
    F64Ceil,
    F64Floor,
    F64Trunc,
    F64Nearest,
    F64Sqrt,
    F64Add,
    F64Sub,
    F64Mul,
    F64Div,
    F64Min,
    F64Max,
    F64Copysign,
    I32TruncSF32,
    I32TruncUF32,
    I32TruncSF64,
    I32TruncUF64,
    I64TruncSF32,
    I64TruncUF32,
    I64TruncSF64,
    I64TruncUF64,
    F32ConvertSI32,
    F32ConvertUI32,
    F32ConvertSI64,
    F32ConvertUI64,
    F32DemoteF64,
    F64ConvertSI32,
    F64ConvertUI32,
    F64ConvertSI64,
    F64ConvertUI64,
    F64PromoteF32,
    I32ReinterpretF32,
    I64ReinterpretF64,
    F32ReinterpretI32,
    F64ReinterpretI64,
    F32Load(u32, u32),
    F64Load(u32, u32),
    F32Store(u32, u32),
    F64Store(u32, u32),
    F32x4Splat,
    F64x2Splat,
    F32x4Eq,
    F32x4Ne,
    F32x4Lt,
    F32x4Gt,
    F32x4Le,
    F32x4Ge,
    F64x2Eq,
    F64x2Ne,
    F64x2Lt,
    F64x2Gt,
    F64x2Le,
    F64x2Ge,
    F32x4Abs,
    F32x4Neg,
    F32x4Sqrt,
    F32x4Add,
    F32x4Sub,
    F32x4Mul,
    F32x4Div,
    F32x4Min,
    F32x4Max,
    F64x2Abs,
    F64x2Neg,
    F64x2Sqrt,
    F64x2Add,
    F64x2Sub,
    F64x2Mul,
    F64x2Div,
    F64x2Min,
    F64x2Max,
    I32x4TruncSF32x4Sat,
    I32x4TruncUF32x4Sat,
    I64x2TruncSF64x2Sat,
    I64x2TruncUF64x2Sat,
    F32x4ConvertSI32x4,
    F32x4ConvertUI32x4,
    F64x2ConvertSI64x2,
    F64x2ConvertUI64x2,
    F32x4ExtractLane(u8),
    F32x4ReplaceLane(u8),
    F64x2ExtractLane(u8),
    F64x2ReplaceLane(u8),
}

/// Whether an instruction belongs to the floating-point categories that
/// a deterministic-execution environment rejects: float comparison,
/// arithmetic, rounding, sqrt, min/max, copysign, every conversion and
/// bit-reinterpretation between float and integer, float constants,
/// loads and stores, and the packed-vector forms of all of these.
pub open spec fn is_float_instr(i: Instr) -> bool {
    match i {
        Instr::F32Eq
        | Instr::F32Ne
        | Instr::F32Lt
        | Instr::F32Gt
        | Instr::F32Le
        | Instr::F32Ge
        | Instr::F64Eq
        | Instr::F64Ne
        | Instr::F64Lt
        | Instr::F64Gt
        | Instr::F64Le
        | Instr::F64Ge
        | Instr::F32Abs
        | Instr::F32Neg
        | Instr::F32Ceil
        | Instr::F32Floor
        | Instr::F32Trunc
        | Instr::F32Nearest
        | Instr::F32Sqrt
        | Instr::F32Add
        | Instr::F32Sub
        | Instr::F32Mul
        | Instr::F32Div
        | Instr::F32Min
        | Instr::F32Max
        | Instr::F32Copysign
        | Instr::F64Abs
        | Instr::F64Neg
        | Instr::F64Ceil
        | Instr::F64Floor
        | Instr::F64Trunc
        | Instr::F64Nearest
        | Instr::F64Sqrt
        | Instr::F64Add
        | Instr::F64Sub
        | Instr::F64Mul
        | Instr::F64Div
        | Instr::F64Min
        | Instr::F64Max
        | Instr::F64Copysign
        | Instr::I32TruncSF32
        | Instr::I32TruncUF32
        | Instr::I32TruncSF64
        | Instr::I32TruncUF64
        | Instr::I64TruncSF32
        | Instr::I64TruncUF32
        | Instr::I64TruncSF64
        | Instr::I64TruncUF64
        | Instr::F32ConvertSI32
        | Instr::F32ConvertUI32
        | Instr::F32ConvertSI64
        | Instr::F32ConvertUI64
        | Instr::F32DemoteF64
        | Instr::F64ConvertSI32
        | Instr::F64ConvertUI32
        | Instr::F64ConvertSI64
        | Instr::F64ConvertUI64
        | Instr::F64PromoteF32
        | Instr::I32ReinterpretF32
        | Instr::I64ReinterpretF64
        | Instr::F32ReinterpretI32
        | Instr::F64ReinterpretI64
        | Instr::F32Load(_, _)
        | Instr::F64Load(_, _)
        | Instr::F32Store(_, _)
        | Instr::F64Store(_, _)
        | Instr::F32x4Splat
        | Instr::F64x2Splat
        | Instr::F32x4Eq
        | Instr::F32x4Ne
        | Instr::F32x4Lt
        | Instr::F32x4Gt
        | Instr::F32x4Le
        | Instr::F32x4Ge
        | Instr::F64x2Eq
        | Instr::F64x2Ne
        | Instr::F64x2Lt
        | Instr::F64x2Gt
        | Instr::F64x2Le
        | Instr::F64x2Ge
        | Instr::F32x4Abs
        | Instr::F32x4Neg
        | Instr::F32x4Sqrt
        | Instr::F32x4Add
        | Instr::F32x4Sub
        | Instr::F32x4Mul
        | Instr::F32x4Div
        | Instr::F32x4Min
        | Instr::F32x4Max
        | Instr::F64x2Abs
        | Instr::F64x2Neg
        | Instr::F64x2Sqrt
        | Instr::F64x2Add
        | Instr::F64x2Sub
        | Instr::F64x2Mul
        | Instr::F64x2Div
        | Instr::F64x2Min
        | Instr::F64x2Max
        | Instr::I32x4TruncSF32x4Sat
        | Instr::I32x4TruncUF32x4Sat
        | Instr::I64x2TruncSF64x2Sat
        | Instr::I64x2TruncUF64x2Sat
        | Instr::F32x4ConvertSI32x4
        | Instr::F32x4ConvertUI32x4
        | Instr::F64x2ConvertSI64x2
        | Instr::F64x2ConvertUI64x2
        | Instr::F32x4ExtractLane(_)
        | Instr::F32x4ReplaceLane(_)
        | Instr::F64x2ExtractLane(_)
        | Instr::F64x2ReplaceLane(_)
        | Instr::F32Const(_)
        | Instr::F64Const(_) => true,
        _ => false,
    }
}

/// Executable form of `is_float_instr`.
pub fn instr_is_float(i: &Instr) -> (r: bool)
    ensures
        r == is_float_instr(*i),
{
    match i {
        Instr::F32Eq
        | Instr::F32Ne
        | Instr::F32Lt
        | Instr::F32Gt
        | Instr::F32Le
        | Instr::F32Ge
        | Instr::F64Eq
        | Instr::F64Ne
        | Instr::F64Lt
        | Instr::F64Gt
        | Instr::F64Le
        | Instr::F64Ge
        | Instr::F32Abs
        | Instr::F32Neg
        | Instr::F32Ceil
        | Instr::F32Floor
        | Instr::F32Trunc
        | Instr::F32Nearest
        | Instr::F32Sqrt
        | Instr::F32Add
        | Instr::F32Sub
        | Instr::F32Mul
        | Instr::F32Div
        | Instr::F32Min
        | Instr::F32Max
        | Instr::F32Copysign
        | Instr::F64Abs
        | Instr::F64Neg
        | Instr::F64Ceil
        | Instr::F64Floor
        | Instr::F64Trunc
        | Instr::F64Nearest
        | Instr::F64Sqrt
        | Instr::F64Add
        | Instr::F64Sub
        | Instr::F64Mul
        | Instr::F64Div
        | Instr::F64Min
        | Instr::F64Max
        | Instr::F64Copysign
        | Instr::I32TruncSF32
        | Instr::I32TruncUF32
        | Instr::I32TruncSF64
        | Instr::I32TruncUF64
        | Instr::I64TruncSF32
        | Instr::I64TruncUF32
        | Instr::I64TruncSF64
        | Instr::I64TruncUF64
        | Instr::F32ConvertSI32
        | Instr::F32ConvertUI32
        | Instr::F32ConvertSI64
        | Instr::F32ConvertUI64
        | Instr::F32DemoteF64
        | Instr::F64ConvertSI32
        | Instr::F64ConvertUI32
        | Instr::F64ConvertSI64
        | Instr::F64ConvertUI64
        | Instr::F64PromoteF32
        | Instr::I32ReinterpretF32
        | Instr::I64ReinterpretF64
        | Instr::F32ReinterpretI32
        | Instr::F64ReinterpretI64
        | Instr::F32Load(_, _)
        | Instr::F64Load(_, _)
        | Instr::F32Store(_, _)
        | Instr::F64Store(_, _)
        | Instr::F32x4Splat
        | Instr::F64x2Splat
        | Instr::F32x4Eq
        | Instr::F32x4Ne
        | Instr::F32x4Lt
        | Instr::F32x4Gt
        | Instr::F32x4Le
        | Instr::F32x4Ge
        | Instr::F64x2Eq
        | Instr::F64x2Ne
        | Instr::F64x2Lt
        | Instr::F64x2Gt
        | Instr::F64x2Le
        | Instr::F64x2Ge
        | Instr::F32x4Abs
        | Instr::F32x4Neg
        | Instr::F32x4Sqrt
        | Instr::F32x4Add
        | Instr::F32x4Sub
        | Instr::F32x4Mul
        | Instr::F32x4Div
        | Instr::F32x4Min
        | Instr::F32x4Max
        | Instr::F64x2Abs
        | Instr::F64x2Neg
        | Instr::F64x2Sqrt
        | Instr::F64x2Add
        | Instr::F64x2Sub
        | Instr::F64x2Mul
        | Instr::F64x2Div
        | Instr::F64x2Min
        | Instr::F64x2Max
        | Instr::I32x4TruncSF32x4Sat
        | Instr::I32x4TruncUF32x4Sat
        | Instr::I64x2TruncSF64x2Sat
        | Instr::I64x2TruncUF64x2Sat
        | Instr::F32x4ConvertSI32x4
        | Instr::F32x4ConvertUI32x4
        | Instr::F64x2ConvertSI64x2
        | Instr::F64x2ConvertUI64x2
        | Instr::F32x4ExtractLane(_)
        | Instr::F32x4ReplaceLane(_)
        | Instr::F64x2ExtractLane(_)
        | Instr::F64x2ReplaceLane(_)
        | Instr::F32Const(_)
        | Instr::F64Const(_) => true,
        _ => false,
    }
}

/// The byte encoding of one instruction in the binary module format,
/// including the prefixed encoding of the packed-vector instructions.
pub open spec fn instr_bytes(i: Instr) -> Seq<u8> {
    match i {
        Instr::Unreachable => seq![0x00u8],
        Instr::Nop => seq![0x01u8],
        Instr::End => seq![0x0bu8],
        Instr::Return => seq![0x0fu8],
        Instr::Drop => seq![0x1au8],
        Instr::I32Add => seq![0x6au8],
        Instr::I32Sub => seq![0x6bu8],
        Instr::Call(x) => seq![0x10u8] + spec_leb(x as nat),
        Instr::GetLocal(x) => seq![0x20u8] + spec_leb(x as nat),
        Instr::SetLocal(x) => seq![0x21u8] + spec_leb(x as nat),
        Instr::TeeLocal(x) => seq![0x22u8] + spec_leb(x as nat),
        Instr::GetGlobal(x) => seq![0x23u8] + spec_leb(x as nat),
        Instr::SetGlobal(x) => seq![0x24u8] + spec_leb(x as nat),
        Instr::CallIndirect(x, r) => seq![0x11u8] + spec_leb(x as nat) + seq![r],
        Instr::I32Load(a, o) => seq![0x28u8] + spec_leb(a as nat) + spec_leb(o as nat),
        Instr::I64Load(a, o) => seq![0x29u8] + spec_leb(a as nat) + spec_leb(o as nat),
        Instr::I32Store(a, o) => seq![0x36u8] + spec_leb(a as nat) + spec_leb(o as nat),
        Instr::I64Store(a, o) => seq![0x37u8] + spec_leb(a as nat) + spec_leb(o as nat),
        Instr::I32Const(v) => seq![0x41u8] + spec_sleb(v as int),
        Instr::I64Const(v) => seq![0x42u8] + spec_sleb(v as int),
        Instr::F32Const(b) => seq![0x43u8] + spec_le32(b),
        Instr::F64Const(b) => seq![0x44u8] + spec_le64(b),
        Instr::F32Eq => seq![0x5bu8],
        Instr::F32Ne => seq![0x5cu8],
        Instr::F32Lt => seq![0x5du8],
        Instr::F32Gt => seq![0x5eu8],
        Instr::F32Le => seq![0x5fu8],
        Instr::F32Ge => seq![0x60u8],
        Instr::F64Eq => seq![0x61u8],
        Instr::F64Ne => seq![0x62u8],
        Instr::F64Lt => seq![0x63u8],
        Instr::F64Gt => seq![0x64u8],
        Instr::F64Le => seq![0x65u8],
        Instr::F64Ge => seq![0x66u8],
        Instr::F32Abs => seq![0x8bu8],
        Instr::F32Neg => seq![0x8cu8],
        Instr::F32Ceil => seq![0x8du8],
        Instr::F32Floor => seq![0x8eu8],
        Instr::F32Trunc => seq![0x8fu8],
        Instr::F32Nearest => seq![0x90u8],
        Instr::F32Sqrt => seq![0x91u8],
        Instr::F32Add => seq![0x92u8],
        Instr::F32Sub => seq![0x93u8],
        Instr::F32Mul => seq![0x94u8],
        Instr::F32Div => seq![0x95u8],
        Instr::F32Min => seq![0x96u8],
        Instr::F32Max => seq![0x97u8],
        Instr::F32Copysign => seq![0x98u8],
        Instr::F64Abs => seq![0x99u8],
        Instr::F64Neg => seq![0x9au8],
        Instr::F64Ceil => seq![0x9bu8],
        Instr::F64Floor => seq![0x9cu8],
        Instr::F64Trunc => seq![0x9du8],
        Instr::F64Nearest => seq![0x9eu8],
        Instr::F64Sqrt => seq![0x9fu8],
        Instr::F64Add => seq![0xa0u8],
        Instr::F64Sub => seq![0xa1u8],
        Instr::F64Mul => seq![0xa2u8],
        Instr::F64Div => seq![0xa3u8],
        Instr::F64Min => seq![0xa4u8],
        Instr::F64Max => seq![0xa5u8],
        Instr::F64Copysign => seq![0xa6u8],
        Instr::I32TruncSF32 => seq![0xa8u8],
        Instr::I32TruncUF32 => seq![0xa9u8],
        Instr::I32TruncSF64 => seq![0xaau8],
        Instr::I32TruncUF64 => seq![0xabu8],
        Instr::I64TruncSF32 => seq![0xaeu8],
        Instr::I64TruncUF32 => seq![0xafu8],
        Instr::I64TruncSF64 => seq![0xb0u8],
        Instr::I64TruncUF64 => seq![0xb1u8],
        Instr::F32ConvertSI32 => seq![0xb2u8],
        Instr::F32ConvertUI32 => seq![0xb3u8],
        Instr::F32ConvertSI64 => seq![0xb4u8],
        Instr::F32ConvertUI64 => seq![0xb5u8],
        Instr::F32DemoteF64 => seq![0xb6u8],
        Instr::F64ConvertSI32 => seq![0xb7u8],
        Instr::F64ConvertUI32 => seq![0xb8u8],
        Instr::F64ConvertSI64 => seq![0xb9u8],
        Instr::F64ConvertUI64 => seq![0xbau8],
        Instr::F64PromoteF32 => seq![0xbbu8],
        Instr::I32ReinterpretF32 => seq![0xbcu8],
        Instr::I64ReinterpretF64 => seq![0xbdu8],
        Instr::F32ReinterpretI32 => seq![0xbeu8],
        Instr::F64ReinterpretI64 => seq![0xbfu8],
        Instr::F32Load(a, o) => seq![0x2au8] + spec_leb(a as nat) + spec_leb(o as nat),
        Instr::F64Load(a, o) => seq![0x2bu8] + spec_leb(a as nat) + spec_leb(o as nat),
        Instr::F32Store(a, o) => seq![0x38u8] + spec_leb(a as nat) + spec_leb(o as nat),
        Instr::F64Store(a, o) => seq![0x39u8] + spec_leb(a as nat) + spec_leb(o as nat),
        Instr::F32x4Splat => seq![0xfdu8] + spec_leb(0x12 as nat),
        Instr::F64x2Splat => seq![0xfdu8] + spec_leb(0x15 as nat),
        Instr::F32x4Eq => seq![0xfdu8] + spec_leb(0x40 as nat),
        Instr::F32x4Ne => seq![0xfdu8] + spec_leb(0x41 as nat),
        Instr::F32x4Lt => seq![0xfdu8] + spec_leb(0x42 as nat),
        Instr::F32x4Gt => seq![0xfdu8] + spec_leb(0x43 as nat),
        Instr::F32x4Le => seq![0xfdu8] + spec_leb(0x44 as nat),
        Instr::F32x4Ge => seq![0xfdu8] + spec_leb(0x45 as nat),
        Instr::F64x2Eq => seq![0xfdu8] + spec_leb(0x46 as nat),
        Instr::F64x2Ne => seq![0xfdu8] + spec_leb(0x47 as nat),
        Instr::F64x2Lt => seq![0xfdu8] + spec_leb(0x48 as nat),
        Instr::F64x2Gt => seq![0xfdu8] + spec_leb(0x49 as nat),
        Instr::F64x2Le => seq![0xfdu8] + spec_leb(0x4a as nat),
        Instr::F64x2Ge => seq![0xfdu8] + spec_leb(0x4b as nat),
        Instr::F32x4Abs => seq![0xfdu8] + spec_leb(0x95 as nat),
        Instr::F32x4Neg => seq![0xfdu8] + spec_leb(0x96 as nat),
        Instr::F32x4Sqrt => seq![0xfdu8] + spec_leb(0x97 as nat),
        Instr::F32x4Add => seq![0xfdu8] + spec_leb(0x9a as nat),
        Instr::F32x4Sub => seq![0xfdu8] + spec_leb(0x9b as nat),
        Instr::F32x4Mul => seq![0xfdu8] + spec_leb(0x9c as nat),
        Instr::F32x4Div => seq![0xfdu8] + spec_leb(0x9d as nat),
        Instr::F32x4Min => seq![0xfdu8] + spec_leb(0x9e as nat),
        Instr::F32x4Max => seq![0xfdu8] + spec_leb(0x9f as nat),
        Instr::F64x2Abs => seq![0xfdu8] + spec_leb(0xa0 as nat),
        Instr::F64x2Neg => seq![0xfdu8] + spec_leb(0xa1 as nat),
        Instr::F64x2Sqrt => seq![0xfdu8] + spec_leb(0xa2 as nat),
        Instr::F64x2Add => seq![0xfdu8] + spec_leb(0xa5 as nat),
        Instr::F64x2Sub => seq![0xfdu8] + spec_leb(0xa6 as nat),
        Instr::F64x2Mul => seq![0xfdu8] + spec_leb(0xa7 as nat),
        Instr::F64x2Div => seq![0xfdu8] + spec_leb(0xa8 as nat),
        Instr::F64x2Min => seq![0xfdu8] + spec_leb(0xa9 as nat),
        Instr::F64x2Max => seq![0xfdu8] + spec_leb(0xaa as nat),
        Instr::I32x4TruncSF32x4Sat => seq![0xfdu8] + spec_leb(0xab as nat),
        Instr::I32x4TruncUF32x4Sat => seq![0xfdu8] + spec_leb(0xac as nat),
        Instr::I64x2TruncSF64x2Sat => seq![0xfdu8] + spec_leb(0xad as nat),
        Instr::I64x2TruncUF64x2Sat => seq![0xfdu8] + spec_leb(0xae as nat),
        Instr::F32x4ConvertSI32x4 => seq![0xfdu8] + spec_leb(0xaf as nat),
        Instr::F32x4ConvertUI32x4 => seq![0xfdu8] + spec_leb(0xb0 as nat),
        Instr::F64x2ConvertSI64x2 => seq![0xfdu8] + spec_leb(0xb1 as nat),
        Instr::F64x2ConvertUI64x2 => seq![0xfdu8] + spec_leb(0xb2 as nat),
        Instr::F32x4ExtractLane(l) => seq![0xfdu8] + spec_leb(0x13 as nat) + seq![l],
        Instr::F32x4ReplaceLane(l) => seq![0xfdu8] + spec_leb(0x14 as nat) + seq![l],
        Instr::F64x2ExtractLane(l) => seq![0xfdu8] + spec_leb(0x16 as nat) + seq![l],
        Instr::F64x2ReplaceLane(l) => seq![0xfdu8] + spec_leb(0x17 as nat) + seq![l],
    }
}

/// Appends the byte encoding of one instruction.
pub fn push_instr(out: &mut Vec<u8>, i: &Instr)
    ensures
        final(out)@ == old(out)@ + instr_bytes(*i),
{
    match i {
        Instr::Unreachable => {
            out.push(0x00);
        }
        Instr::Nop => {
            out.push(0x01);
        }
        Instr::End => {
            out.push(0x0b);
        }
        Instr::Return => {
            out.push(0x0f);
        }
        Instr::Drop => {
            out.push(0x1a);
        }
        Instr::I32Add => {
            out.push(0x6a);
        }
        Instr::I32Sub => {
            out.push(0x6b);
        }
        Instr::Call(x) => {
            out.push(0x10);
            push_leb_u32(out, *x);
        }
        Instr::GetLocal(x) => {
            out.push(0x20);
            push_leb_u32(out, *x);
        }
        Instr::SetLocal(x) => {
            out.push(0x21);
            push_leb_u32(out, *x);
        }
        Instr::TeeLocal(x) => {
            out.push(0x22);
            push_leb_u32(out, *x);
        }
        Instr::GetGlobal(x) => {
            out.push(0x23);
            push_leb_u32(out, *x);
        }
        Instr::SetGlobal(x) => {
            out.push(0x24);
            push_leb_u32(out, *x);
        }
        Instr::CallIndirect(x, r) => {
            out.push(0x11);
            push_leb_u32(out, *x);
            out.push(*r);
        }
        Instr::I32Load(a, o) => {
            out.push(0x28);
            push_leb_u32(out, *a);
            push_leb_u32(out, *o);
        }
        Instr::I64Load(a, o) => {
            out.push(0x29);
            push_leb_u32(out, *a);
            push_leb_u32(out, *o);
        }
        Instr::I32Store(a, o) => {
            out.push(0x36);
            push_leb_u32(out, *a);
            push_leb_u32(out, *o);
        }
        Instr::I64Store(a, o) => {
            out.push(0x37);
            push_leb_u32(out, *a);
            push_leb_u32(out, *o);
        }
        Instr::I32Const(v) => {
            out.push(0x41);
            push_sleb_i32(out, *v);
        }
        Instr::I64Const(v) => {
            out.push(0x42);
            push_sleb_i64(out, *v);
        }
        Instr::F32Const(b) => {
            out.push(0x43);
            push_le32(out, *b);
        }
        Instr::F64Const(b) => {
            out.push(0x44);
            push_le64(out, *b);
        }
        Instr::F32Eq => {
            out.push(0x5b);
        }
        Instr::F32Ne => {
            out.push(0x5c);
        }
        Instr::F32Lt => {
            out.push(0x5d);
        }
        Instr::F32Gt => {
            out.push(0x5e);
        }
        Instr::F32Le => {
            out.push(0x5f);
        }
        Instr::F32Ge => {
            out.push(0x60);
        }
        Instr::F64Eq => {
            out.push(0x61);
        }
        Instr::F64Ne => {
            out.push(0x62);
        }
        Instr::F64Lt => {
            out.push(0x63);
        }
        Instr::F64Gt => {
            out.push(0x64);
        }
        Instr::F64Le => {
            out.push(0x65);
        }
        Instr::F64Ge => {
            out.push(0x66);
        }
        Instr::F32Abs => {
            out.push(0x8b);
        }
        Instr::F32Neg => {
            out.push(0x8c);
        }
        Instr::F32Ceil => {
            out.push(0x8d);
        }
        Instr::F32Floor => {
            out.push(0x8e);
        }
        Instr::F32Trunc => {
            out.push(0x8f);
        }
        Instr::F32Nearest => {
            out.push(0x90);
        }
        Instr::F32Sqrt => {
            out.push(0x91);
        }
        Instr::F32Add => {
            out.push(0x92);
        }
        Instr::F32Sub => {
            out.push(0x93);
        }
        Instr::F32Mul => {
            out.push(0x94);
        }
        Instr::F32Div => {
            out.push(0x95);
        }
        Instr::F32Min => {
            out.push(0x96);
        }
        Instr::F32Max => {
            out.push(0x97);
        }
        Instr::F32Copysign => {
            out.push(0x98);
        }
        Instr::F64Abs => {
            out.push(0x99);
        }
        Instr::F64Neg => {
            out.push(0x9a);
        }
        Instr::F64Ceil => {
            out.push(0x9b);
        }
        Instr::F64Floor => {
            out.push(0x9c);
        }
        Instr::F64Trunc => {
            out.push(0x9d);
        }
        Instr::F64Nearest => {
            out.push(0x9e);
        }
        Instr::F64Sqrt => {
            out.push(0x9f);
        }
        Instr::F64Add => {
            out.push(0xa0);
        }
        Instr::F64Sub => {
            out.push(0xa1);
        }
        Instr::F64Mul => {
            out.push(0xa2);
        }
        Instr::F64Div => {
            out.push(0xa3);
        }
        Instr::F64Min => {
            out.push(0xa4);
        }
        Instr::F64Max => {
            out.push(0xa5);
        }
        Instr::F64Copysign => {
            out.push(0xa6);
        }
        Instr::I32TruncSF32 => {
            out.push(0xa8);
        }
        Instr::I32TruncUF32 => {
            out.push(0xa9);
        }
        Instr::I32TruncSF64 => {
            out.push(0xaa);
        }
        Instr::I32TruncUF64 => {
            out.push(0xab);
        }
        Instr::I64TruncSF32 => {
            out.push(0xae);
        }
        Instr::I64TruncUF32 => {
            out.push(0xaf);
        }
        Instr::I64TruncSF64 => {
            out.push(0xb0);
        }
        Instr::I64TruncUF64 => {
            out.push(0xb1);
        }
        Instr::F32ConvertSI32 => {
            out.push(0xb2);
        }
        Instr::F32ConvertUI32 => {
            out.push(0xb3);
        }
        Instr::F32ConvertSI64 => {
            out.push(0xb4);
        }
        Instr::F32ConvertUI64 => {
            out.push(0xb5);
        }
        Instr::F32DemoteF64 => {
            out.push(0xb6);
        }
        Instr::F64ConvertSI32 => {
            out.push(0xb7);
        }
        Instr::F64ConvertUI32 => {
            out.push(0xb8);
        }
        Instr::F64ConvertSI64 => {
            out.push(0xb9);
        }
        Instr::F64ConvertUI64 => {
            out.push(0xba);
        }
        Instr::F64PromoteF32 => {
            out.push(0xbb);
        }
        Instr::I32ReinterpretF32 => {
            out.push(0xbc);
        }
        Instr::I64ReinterpretF64 => {
            out.push(0xbd);
        }
        Instr::F32ReinterpretI32 => {
            out.push(0xbe);
        }
        Instr::F64ReinterpretI64 => {
            out.push(0xbf);
        }
        Instr::F32Load(a, o) => {
            out.push(0x2a);
            push_leb_u32(out, *a);
            push_leb_u32(out, *o);
        }
        Instr::F64Load(a, o) => {
            out.push(0x2b);
            push_leb_u32(out, *a);
            push_leb_u32(out, *o);
        }
        Instr::F32Store(a, o) => {
            out.push(0x38);
            push_leb_u32(out, *a);
            push_leb_u32(out, *o);
        }
        Instr::F64Store(a, o) => {
            out.push(0x39);
            push_leb_u32(out, *a);
            push_leb_u32(out, *o);
        }
        Instr::F32x4Splat => {
            out.push(0xfd);
            push_leb_u32(out, 0x12);
        }
        Instr::F64x2Splat => {
            out.push(0xfd);
            push_leb_u32(out, 0x15);
        }
        Instr::F32x4Eq => {
            out.push(0xfd);
            push_leb_u32(out, 0x40);
        }
        Instr::F32x4Ne => {
            out.push(0xfd);
            push_leb_u32(out, 0x41);
        }
        Instr::F32x4Lt => {
            out.push(0xfd);
            push_leb_u32(out, 0x42);
        }
        Instr::F32x4Gt => {
            out.push(0xfd);
            push_leb_u32(out, 0x43);
        }
        Instr::F32x4Le => {
            out.push(0xfd);
            push_leb_u32(out, 0x44);
        }
        Instr::F32x4Ge => {
            out.push(0xfd);
            push_leb_u32(out, 0x45);
        }
        Instr::F64x2Eq => {
            out.push(0xfd);
            push_leb_u32(out, 0x46);
        }
        Instr::F64x2Ne => {
            out.push(0xfd);
            push_leb_u32(out, 0x47);
        }
        Instr::F64x2Lt => {
            out.push(0xfd);
            push_leb_u32(out, 0x48);
        }
        Instr::F64x2Gt => {
            out.push(0xfd);
            push_leb_u32(out, 0x49);
        }
        Instr::F64x2Le => {
            out.push(0xfd);
            push_leb_u32(out, 0x4a);
        }
        Instr::F64x2Ge => {
            out.push(0xfd);
            push_leb_u32(out, 0x4b);
        }
        Instr::F32x4Abs => {
            out.push(0xfd);
            push_leb_u32(out, 0x95);
        }
        Instr::F32x4Neg => {
            out.push(0xfd);
            push_leb_u32(out, 0x96);
        }
        Instr::F32x4Sqrt => {
            out.push(0xfd);
            push_leb_u32(out, 0x97);
        }
        Instr::F32x4Add => {
            out.push(0xfd);
            push_leb_u32(out, 0x9a);
        }
        Instr::F32x4Sub => {
            out.push(0xfd);
            push_leb_u32(out, 0x9b);
        }
        Instr::F32x4Mul => {
            out.push(0xfd);
            push_leb_u32(out, 0x9c);
        }
        Instr::F32x4Div => {
            out.push(0xfd);
            push_leb_u32(out, 0x9d);
        }
        Instr::F32x4Min => {
            out.push(0xfd);
            push_leb_u32(out, 0x9e);
        }
        Instr::F32x4Max => {
            out.push(0xfd);
            push_leb_u32(out, 0x9f);
        }
        Instr::F64x2Abs => {
            out.push(0xfd);
            push_leb_u32(out, 0xa0);
        }
        Instr::F64x2Neg => {
            out.push(0xfd);
            push_leb_u32(out, 0xa1);
        }
        Instr::F64x2Sqrt => {
            out.push(0xfd);
            push_leb_u32(out, 0xa2);
        }
        Instr::F64x2Add => {
            out.push(0xfd);
            push_leb_u32(out, 0xa5);
        }
        Instr::F64x2Sub => {
            out.push(0xfd);
            push_leb_u32(out, 0xa6);
        }
        Instr::F64x2Mul => {
            out.push(0xfd);
            push_leb_u32(out, 0xa7);
        }
        Instr::F64x2Div => {
            out.push(0xfd);
            push_leb_u32(out, 0xa8);
        }
        Instr::F64x2Min => {
            out.push(0xfd);
            push_leb_u32(out, 0xa9);
        }
        Instr::F64x2Max => {
            out.push(0xfd);
            push_leb_u32(out, 0xaa);
        }
        Instr::I32x4TruncSF32x4Sat => {
            out.push(0xfd);
            push_leb_u32(out, 0xab);
        }
        Instr::I32x4TruncUF32x4Sat => {
            out.push(0xfd);
            push_leb_u32(out, 0xac);
        }
        Instr::I64x2TruncSF64x2Sat => {
            out.push(0xfd);
            push_leb_u32(out, 0xad);
        }
        Instr::I64x2TruncUF64x2Sat => {
            out.push(0xfd);
            push_leb_u32(out, 0xae);
        }
        Instr::F32x4ConvertSI32x4 => {
            out.push(0xfd);
            push_leb_u32(out, 0xaf);
        }
        Instr::F32x4ConvertUI32x4 => {
            out.push(0xfd);
            push_leb_u32(out, 0xb0);
        }
        Instr::F64x2ConvertSI64x2 => {
            out.push(0xfd);
            push_leb_u32(out, 0xb1);
        }
        Instr::F64x2ConvertUI64x2 => {
            out.push(0xfd);
            push_leb_u32(out, 0xb2);
        }
        Instr::F32x4ExtractLane(l) => {
            out.push(0xfd);
            push_leb_u32(out, 0x13);
            out.push(*l);
        }
        Instr::F32x4ReplaceLane(l) => {
            out.push(0xfd);
            push_leb_u32(out, 0x14);
            out.push(*l);
        }
        Instr::F64x2ExtractLane(l) => {
            out.push(0xfd);
            push_leb_u32(out, 0x16);
            out.push(*l);
        }
        Instr::F64x2ReplaceLane(l) => {
            out.push(0xfd);
            push_leb_u32(out, 0x17);
            out.push(*l);
        }
    }
    assert(out@ =~= old(out)@ + instr_bytes(*i));
}

} // verus!
