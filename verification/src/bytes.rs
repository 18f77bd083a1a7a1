use vstd::prelude::*;

verus! {

/// The two little-endian bytes of a 16-bit value.
pub open spec fn le16(v: int) -> Seq<u8> {
    seq![(v % 256) as u8, (v / 256 % 256) as u8]
}

/// The four little-endian bytes of a 32-bit value.
pub open spec fn le32(v: int) -> Seq<u8> {
    seq![(v % 256) as u8, (v / 0x100 % 256) as u8, (v / 0x1_0000 % 256) as u8, (v / 0x100_0000 % 256) as u8]
}

/// The eight little-endian bytes of a 64-bit value.
pub open spec fn le64(v: int) -> Seq<u8> {
    le32(v % 0x1_0000_0000) + le32(v / 0x1_0000_0000)
}

/// The value that four little-endian bytes encode.
pub open spec fn read_le32(b: Seq<u8>, at: int) -> int {
    b[at] + b[at + 1] * 0x100 + b[at + 2] * 0x1_0000 + b[at + 3] * 0x100_0000
}

/// The two's-complement 32-bit pattern of a signed value.
pub open spec fn twos32(v: int) -> int {
    if v >= 0 { v } else { v + 0x1_0000_0000 }
}

/// The signed value of a 32-bit pattern.
pub open spec fn signed32(v: int) -> int {
    if v < 0x8000_0000 { v } else { v - 0x1_0000_0000 }
}

/// `bytes` written over `s` at `offset`.
pub open spec fn splice(s: Seq<u8>, offset: int, bytes: Seq<u8>) -> Seq<u8> {
    s.subrange(0, offset) + bytes + s.subrange(offset + bytes.len(), s.len() as int)
}

/// Buffers that machine code and images are built in stay far from `usize::MAX`.
pub open spec fn has_room(s: Seq<u8>) -> bool {
    s.len() < 0x1000_0000
}

/// The bound on buffers that the primitive writers accept; a whole emitter grows a buffer
/// with room by a few kilobytes at most.
pub open spec fn fits(s: Seq<u8>) -> bool {
    s.len() < 0x4000_0000
}

/// Appends bytes.
pub fn push_bytes(code: &mut Vec<u8>, bytes: &[u8])
    ensures
        final(code)@ == old(code)@ + bytes@,
{
    let mut i: usize = 0;
    while i < bytes.len()
        invariant
            0 <= i <= bytes@.len(),
            code@ == old(code)@ + bytes@.subrange(0, i as int),
        decreases bytes@.len() - i,
    {
        code.push(bytes[i]);
        i = i + 1;
        assert(code@ =~= old(code)@ + bytes@.subrange(0, i as int));
    }
    assert(bytes@.subrange(0, i as int) =~= bytes@);
}

/// Appends a 16-bit value in little-endian order.
pub fn push_u16(code: &mut Vec<u8>, value: u16)
    ensures
        final(code)@ == old(code)@ + le16(value as int),
{
    code.push((value % 256) as u8);
    code.push((value / 256 % 256) as u8);
    assert(code@ =~= old(code)@ + le16(value as int));
}

/// Appends a 32-bit value in little-endian order.
pub fn push_u32(code: &mut Vec<u8>, value: u32)
    ensures
        final(code)@ == old(code)@ + le32(value as int),
{
    code.push((value % 256) as u8);
    code.push((value / 0x100 % 256) as u8);
    code.push((value / 0x1_0000 % 256) as u8);
    code.push((value / 0x100_0000 % 256) as u8);
    assert(code@ =~= old(code)@ + le32(value as int));
}

/// Appends a signed 32-bit value in little-endian two's complement.
pub fn push_i32(code: &mut Vec<u8>, value: i32)
    ensures
        final(code)@ == old(code)@ + le32(twos32(value as int)),
{
    let bits: u32 = if value >= 0 { value as u32 } else { (0x1_0000_0000i64 + value as i64) as u32 };
    push_u32(code, bits);
}

/// Appends a 64-bit value in little-endian order.
pub fn push_u64(code: &mut Vec<u8>, value: u64)
    ensures
        final(code)@ == old(code)@ + le64(value as int),
{
    push_u32(code, (value % 0x1_0000_0000) as u32);
    push_u32(code, (value / 0x1_0000_0000) as u32);
    assert(code@ =~= old(code)@ + le64(value as int));
}

/// Overwrites bytes at `offset`.
pub fn write_bytes(out: &mut Vec<u8>, offset: usize, bytes: &[u8])
    requires
        offset + bytes@.len() <= old(out)@.len(),
        fits(old(out)@),
    ensures
        final(out)@ == splice(old(out)@, offset as int, bytes@),
{
    let mut i: usize = 0;
    while i < bytes.len()
        invariant
            0 <= i <= bytes@.len(),
            offset + bytes@.len() <= out@.len(),
            out@.len() == old(out)@.len(),
            fits(old(out)@),
            out@ == splice(old(out)@, offset as int, bytes@.subrange(0, i as int)),
        decreases bytes@.len() - i,
    {
        out.set(offset + i, bytes[i]);
        i = i + 1;
        assert(out@ =~= splice(old(out)@, offset as int, bytes@.subrange(0, i as int)));
    }
    assert(bytes@.subrange(0, i as int) =~= bytes@);
}

/// Overwrites a 16-bit little-endian value at `offset`.
pub fn write_u16(out: &mut Vec<u8>, offset: usize, value: u16)
    requires
        offset + 2 <= old(out)@.len(),
        fits(old(out)@),
    ensures
        final(out)@ == splice(old(out)@, offset as int, le16(value as int)),
{
    out.set(offset, (value % 256) as u8);
    out.set(offset + 1, (value / 256 % 256) as u8);
    assert(out@ =~= splice(old(out)@, offset as int, le16(value as int)));
}

/// Overwrites a 32-bit little-endian value at `offset`.
pub fn write_u32(out: &mut Vec<u8>, offset: usize, value: u32)
    requires
        offset + 4 <= old(out)@.len(),
        fits(old(out)@),
    ensures
        final(out)@ == splice(old(out)@, offset as int, le32(value as int)),
{
    out.set(offset, (value % 256) as u8);
    out.set(offset + 1, (value / 0x100 % 256) as u8);
    out.set(offset + 2, (value / 0x1_0000 % 256) as u8);
    out.set(offset + 3, (value / 0x100_0000 % 256) as u8);
    assert(out@ =~= splice(old(out)@, offset as int, le32(value as int)));
}

/// Overwrites a 64-bit little-endian value at `offset`.
pub fn write_u64(out: &mut Vec<u8>, offset: usize, value: u64)
    requires
        offset + 8 <= old(out)@.len(),
        fits(old(out)@),
    ensures
        final(out)@ == splice(old(out)@, offset as int, le64(value as int)),
{
    write_u32(out, offset, (value % 0x1_0000_0000) as u32);
    let ghost mid = out@;
    write_u32(out, offset + 4, (value / 0x1_0000_0000) as u32);
    assert(out@ =~= splice(old(out)@, offset as int, le64(value as int)));
}

/// `value` rounded up to a multiple of `alignment`.
pub open spec fn spec_align_to(value: int, alignment: int) -> int {
    (value + alignment - 1) / alignment * alignment
}

/// Rounds up to a multiple of `alignment`.
pub fn align_to(value: usize, alignment: usize) -> (r: usize)
    requires
        alignment > 0,
        value + alignment <= usize::MAX,
    ensures
        r as int == spec_align_to(value as int, alignment as int),
        r >= value,
        r < value + alignment,
        r % alignment == 0,
{
    proof {
        let v = value as int;
        let a = alignment as int;
        let q = (v + a - 1) / a;
        vstd::arithmetic::div_mod::lemma_fundamental_div_mod(v + a - 1, a);
        assert(q * a >= v && q * a < v + a) by (nonlinear_arith)
            requires a > 0, v + a - 1 == a * q + (v + a - 1) % a, 0 <= (v + a - 1) % a < a;
        vstd::arithmetic::div_mod::lemma_mod_multiples_basic(q, a);
        assert(q * a == a * q) by (nonlinear_arith);
    }
    let r = (value + alignment - 1) / alignment * alignment;
    r
}

/// `bytes` followed by zeros up to a multiple of `alignment`.
pub open spec fn padded(bytes: Seq<u8>, alignment: int) -> Seq<u8> {
    bytes + Seq::new((spec_align_to(bytes.len() as int, alignment) - bytes.len()) as nat, |i: int| 0u8)
}

/// Appends zeros until the length is a multiple of `alignment`.
pub fn pad_to(bytes: &mut Vec<u8>, alignment: usize)
    requires
        alignment > 0,
        old(bytes)@.len() + alignment <= usize::MAX,
    ensures
        final(bytes)@ == padded(old(bytes)@, alignment as int),
        final(bytes)@.len() as int % alignment as int == 0,
        old(bytes)@.len() <= final(bytes)@.len() < old(bytes)@.len() + alignment,
{
    let target = align_to(bytes.len(), alignment);
    while bytes.len() < target
        invariant
            alignment > 0,
            old(bytes)@.len() <= bytes@.len() <= target,
            target as int == spec_align_to(old(bytes)@.len() as int, alignment as int),
            target % alignment == 0,
            bytes@ =~= old(bytes)@ + Seq::new((bytes@.len() - old(bytes)@.len()) as nat, |i: int| 0u8),
        decreases target - bytes@.len(),
    {
        bytes.push(0);
        assert(bytes@ =~= old(bytes)@ + Seq::new((bytes@.len() - old(bytes)@.len()) as nat, |i: int| 0u8));
    }
}

/// A splice puts its bytes where it says and keeps the length.
pub proof fn lemma_splice_sets(s: Seq<u8>, off: int, b: Seq<u8>)
    requires
        0 <= off,
        off + b.len() <= s.len(),
    ensures
        splice(s, off, b).subrange(off, off + b.len()) == b,
        splice(s, off, b).len() == s.len(),
{
    assert(splice(s, off, b).subrange(off, off + b.len()) =~= b);
}

/// Bytes outside `[x, y)` are the same in both buffers.
pub open spec fn same_outside(a: Seq<u8>, b: Seq<u8>, x: int, y: int) -> bool {
    &&& a.len() == b.len()
    &&& forall|i: int| 0 <= i < a.len() && !(x <= i < y) ==> #[trigger] a[i] == b[i]
}

/// A splice changes nothing outside the bytes it writes.
pub proof fn lemma_splice_same_outside(s: Seq<u8>, off: int, b: Seq<u8>)
    requires
        0 <= off,
        off + b.len() <= s.len(),
    ensures
        same_outside(splice(s, off, b), s, off, off + b.len()),
        splice(s, off, b).subrange(off, off + b.len()) == b,
{
    lemma_splice_sets(s, off, b);
}

/// A range that lies outside the changed part is the same in both buffers.
pub proof fn lemma_range_kept(a: Seq<u8>, b: Seq<u8>, x: int, y: int, lo: int, hi: int)
    requires
        same_outside(a, b, x, y),
        0 <= lo <= hi <= a.len(),
        hi <= x || y <= lo,
    ensures
        a.subrange(lo, hi) == b.subrange(lo, hi),
{
    assert(a.subrange(lo, hi) =~= b.subrange(lo, hi));
}

} // verus!
