use vstd::prelude::*;
use crate::bytes::{fits, le32, push_bytes, read_le32, signed32, splice, twos32, write_u32};

verus! {

/// The byte that encodes a short relative displacement.
pub open spec fn rel8(r: int) -> u8 {
    if r >= 0 { r as u8 } else { (r + 256) as u8 }
}

/// The signed value of a displacement byte.
pub open spec fn signed8(b: u8) -> int {
    if b < 128 { b as int } else { b as int - 256 }
}

/// Where the short jump whose displacement byte sits at `d` lands.
pub open spec fn short_jump_target(code: Seq<u8>, d: int) -> int {
    d + 1 + signed8(code[d])
}

/// Where the near jump or call whose 32-bit displacement sits at `d` lands.
pub open spec fn near_jump_target(code: Seq<u8>, d: int) -> int {
    d + 4 + signed32(read_le32(code, d))
}

/// The four bytes of a 32-bit relative displacement.
pub open spec fn rel32_bytes(r: int) -> Seq<u8> {
    le32(twos32(r))
}

/// Appends a short conditional jump with an empty displacement and returns where it sits.
pub fn emit_short_jump_placeholder(code: &mut Vec<u8>, opcode: u8) -> (offset: usize)
    requires
        fits(old(code)@),
    ensures
        final(code)@ == old(code)@ + seq![opcode, 0u8],
        offset == old(code)@.len() + 1,
{
    code.push(opcode);
    let offset = code.len();
    code.push(0);
    assert(code@ =~= old(code)@ + seq![opcode, 0u8]);
    offset
}

/// Appends a two-byte near jump opcode with an empty displacement and returns where it sits.
pub fn emit_near_jump_placeholder(code: &mut Vec<u8>, first: u8, second: u8) -> (offset: usize)
    requires
        fits(old(code)@),
    ensures
        final(code)@ == old(code)@ + seq![first, second, 0u8, 0u8, 0u8, 0u8],
        offset == old(code)@.len() + 2,
{
    push_bytes(code, &[first, second]);
    let offset = code.len();
    push_bytes(code, &[0, 0, 0, 0]);
    assert(code@ =~= old(code)@ + seq![first, second, 0u8, 0u8, 0u8, 0u8]);
    offset
}

/// Appends `jmp rel32` with an empty displacement and returns where it sits.
pub fn emit_near_unconditional_placeholder(code: &mut Vec<u8>) -> (offset: usize)
    requires
        fits(old(code)@),
    ensures
        final(code)@ == old(code)@ + seq![0xe9u8, 0u8, 0u8, 0u8, 0u8],
        offset == old(code)@.len() + 1,
{
    code.push(0xe9);
    let offset = code.len();
    push_bytes(code, &[0, 0, 0, 0]);
    assert(code@ =~= old(code)@ + seq![0xe9u8, 0u8, 0u8, 0u8, 0u8]);
    offset
}

/// Fills in a short displacement so that the jump lands on `target`.
pub fn patch_short_jump(code: &mut Vec<u8>, displacement: usize, target: usize)
    requires
        displacement < old(code)@.len(),
        fits(old(code)@),
        -128 <= target - (displacement + 1) <= 127,
    ensures
        final(code)@ == old(code)@.update(displacement as int, rel8(target - (displacement + 1))),
        short_jump_target(final(code)@, displacement as int) == target,
{
    let next = displacement + 1;
    let byte: u8 = if target >= next { (target - next) as u8 } else { (256 - (next - target)) as u8 };
    code.set(displacement, byte);
}

/// Fills in a short displacement with the low byte of the distance to `target`. Within the
/// short range the jump lands on `target`; beyond it the byte wraps around.
pub fn patch_short_jump_wrapping(code: &mut Vec<u8>, displacement: usize, target: usize)
    requires
        displacement < old(code)@.len(),
        fits(old(code)@),
        target < 0x4000_0000,
    ensures
        final(code)@ == old(code)@.update(displacement as int, ((target - (displacement + 1)) % 256) as u8),
        -128 <= target - (displacement + 1) <= 127 ==> short_jump_target(final(code)@, displacement as int) == target,
{
    let next = displacement + 1;
    let byte: u8 = if target >= next { ((target - next) % 256) as u8 } else { ((256 - (next - target) % 256) % 256) as u8 };
    proof {
        let d = target - next;
        if target < next {
            let m = (next - target) as int;
            assert((256 - m % 256) % 256 == d % 256) by (nonlinear_arith)
                requires d == -m, m > 0;
        }
    }
    code.set(displacement, byte);
}

/// Fills in a near displacement so that the jump or call lands on `target`.
pub fn patch_near_jump(code: &mut Vec<u8>, displacement: usize, target: usize)
    requires
        displacement + 4 <= old(code)@.len(),
        fits(old(code)@),
        target < 0x4000_0000,
    ensures
        final(code)@ == splice(old(code)@, displacement as int, rel32_bytes(target - (displacement + 4))),
        near_jump_target(final(code)@, displacement as int) == target,
{
    let next = displacement + 4;
    let bits: u32 = if target >= next { (target - next) as u32 } else { (0x1_0000_0000u64 - (next - target) as u64) as u32 };
    write_u32(code, displacement, bits);
    proof {
        let v = bits as int;
        let b = code@;
        assert(b[displacement as int] == (v % 256) as u8);
        assert(b[displacement + 1] == (v / 0x100 % 256) as u8);
        assert(b[displacement + 2] == (v / 0x1_0000 % 256) as u8);
        assert(b[displacement + 3] == (v / 0x100_0000 % 256) as u8);
        assert(read_le32(b, displacement as int) == v) by (nonlinear_arith)
            requires
                0 <= v < 0x1_0000_0000,
                b[displacement as int] == (v % 256) as u8,
                b[displacement + 1] == (v / 0x100 % 256) as u8,
                b[displacement + 2] == (v / 0x1_0000 % 256) as u8,
                b[displacement + 3] == (v / 0x100_0000 % 256) as u8;
    }
}

/// Fills in a near displacement so that the jump lands on `target`, stated byte by byte:
/// the four bytes of the displacement change and every other byte stays.
pub fn patch_jump(code: &mut Vec<u8>, displacement: usize, target: usize)
    requires
        displacement + 4 <= old(code)@.len(),
        old(code)@.len() < 0x4000_0000,
        target < 0x4000_0000,
    ensures
        final(code)@.len() == old(code)@.len(),
        forall|j: int| 0 <= j < old(code)@.len() ==> #[trigger] final(code)@[j] == (if displacement <= j < displacement + 4 {
            rel32_bytes(target - (displacement + 4))[j - displacement]
        } else {
            old(code)@[j]
        }),
{
    patch_near_jump(code, displacement, target);
}

/// Appends `jmp rel8` back to an earlier `target`.
pub fn emit_short_jump_back(code: &mut Vec<u8>, target: usize)
    requires
        fits(old(code)@),
        target <= old(code)@.len(),
        old(code)@.len() + 2 - target <= 128,
    ensures
        final(code)@ == old(code)@ + seq![0xebu8, rel8(target - (old(code)@.len() + 2))],
{
    code.push(0xeb);
    let next = code.len() + 1;
    code.push((256 - (next - target)) as u8);
    assert(code@ =~= old(code)@ + seq![0xebu8, rel8(target - (old(code)@.len() + 2))]);
}

/// Appends `call rel32` to `target` within the same code.
pub fn emit_internal_call(code: &mut Vec<u8>, target: usize)
    requires
        old(code)@.len() < 0x3000_0000,
        target < 0x4000_0000,
    ensures
        final(code)@ == old(code)@ + seq![0xe8u8] + rel32_bytes(target - (old(code)@.len() + 5)),
{
    code.push(0xe8);
    let displacement = code.len();
    push_bytes(code, &[0, 0, 0, 0]);
    patch_near_jump(code, displacement, target);
    assert(code@ =~= old(code)@ + seq![0xe8u8] + rel32_bytes(target - (old(code)@.len() + 5)));
}

} // verus!
