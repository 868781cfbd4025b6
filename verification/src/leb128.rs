use vstd::prelude::*;

verus! {

/// Unsigned little-endian base-128 encoding, as the binary module format
/// uses for counts, sizes and indices.
pub open spec fn spec_leb(v: nat) -> Seq<u8>
    decreases v,
{
    if v < 128 {
        seq![v as u8]
    } else {
        seq![(v % 128 + 128) as u8] + spec_leb(v / 128)
    }
}

/// Signed little-endian base-128 encoding (two's complement), as the
/// binary module format uses for constant operands.
pub open spec fn spec_sleb(v: int) -> Seq<u8>
    decreases (if v < 0 { -v } else { v }),
{
    if -64 <= v && v < 64 {
        seq![(v % 128) as u8]
    } else {
        seq![(v % 128 + 128) as u8] + spec_sleb(v / 128)
    }
}

/// The four bytes of a 32-bit value, least significant first.
pub open spec fn spec_le32(v: u32) -> Seq<u8> {
    seq![
        (v % 256) as u8,
        (v / 256 % 256) as u8,
        (v / 65536 % 256) as u8,
        (v / 16777216 % 256) as u8,
    ]
}

/// The eight bytes of a 64-bit value, least significant first.
pub open spec fn spec_le64(v: u64) -> Seq<u8> {
    seq![
        (v % 256) as u8,
        (v / 256 % 256) as u8,
        (v / 65536 % 256) as u8,
        (v / 16777216 % 256) as u8,
        (v / 4294967296 % 256) as u8,
        (v / 1099511627776 % 256) as u8,
        (v / 281474976710656 % 256) as u8,
        (v / 72057594037927936 % 256) as u8,
    ]
}

pub fn push_leb_u64(out: &mut Vec<u8>, v: u64)
    ensures
        final(out)@ == old(out)@ + spec_leb(v as nat),
    decreases v,
{
    if v < 128 {
        out.push(v as u8);
        assert(out@ =~= old(out)@ + spec_leb(v as nat));
    } else {
        out.push((v % 128 + 128) as u8);
        push_leb_u64(out, v / 128);
        assert(out@ =~= old(out)@ + spec_leb(v as nat));
    }
}

pub fn push_leb_u32(out: &mut Vec<u8>, v: u32)
    ensures
        final(out)@ == old(out)@ + spec_leb(v as nat),
{
    push_leb_u64(out, v as u64);
}

pub fn push_leb_usize(out: &mut Vec<u8>, v: usize)
    ensures
        final(out)@ == old(out)@ + spec_leb(v as nat),
{
    push_leb_u64(out, v as u64);
}

pub fn push_sleb_i64(out: &mut Vec<u8>, v: i64)
    ensures
        final(out)@ == old(out)@ + spec_sleb(v as int),
    decreases (if v < 0 { -(v as int) } else { v as int }),
{
    if -64 <= v && v < 64 {
        let b: u8 = if v < 0 { (v + 128) as u8 } else { v as u8 };
        assert(b == (v as int) % 128);
        out.push(b);
        assert(out@ =~= old(out)@ + spec_sleb(v as int));
    } else if v >= 64 {
        let m: u64 = (v as u64) % 128;
        out.push((m + 128) as u8);
        push_sleb_i64(out, v / 128);
        assert(out@ =~= old(out)@ + spec_sleb(v as int));
    } else {
        let w: u64 = (-(v + 1)) as u64;
        let m: u64 = 127 - w % 128;
        let q: i64 = -1 - (w / 128) as i64;
        proof {
            assert(m == (v as int) % 128);
            assert(q == (v as int) / 128);
        }
        out.push((m + 128) as u8);
        push_sleb_i64(out, q);
        assert(out@ =~= old(out)@ + spec_sleb(v as int));
    }
}

pub fn push_sleb_i32(out: &mut Vec<u8>, v: i32)
    ensures
        final(out)@ == old(out)@ + spec_sleb(v as int),
{
    push_sleb_i64(out, v as i64);
}

pub fn push_le32(out: &mut Vec<u8>, v: u32)
    ensures
        final(out)@ == old(out)@ + spec_le32(v),
{
    out.push((v % 256) as u8);
    out.push((v / 256 % 256) as u8);
    out.push((v / 65536 % 256) as u8);
    out.push((v / 16777216 % 256) as u8);
    assert(out@ =~= old(out)@ + spec_le32(v));
}

pub fn push_le64(out: &mut Vec<u8>, v: u64)
    ensures
        final(out)@ == old(out)@ + spec_le64(v),
{
    out.push((v % 256) as u8);
    out.push((v / 256 % 256) as u8);
    out.push((v / 65536 % 256) as u8);
    out.push((v / 16777216 % 256) as u8);
    out.push((v / 4294967296 % 256) as u8);
    out.push((v / 1099511627776 % 256) as u8);
    out.push((v / 281474976710656 % 256) as u8);
    out.push((v / 72057594037927936 % 256) as u8);
    assert(out@ =~= old(out)@ + spec_le64(v));
}

} // verus!
