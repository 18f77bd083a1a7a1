//! Machine code of the Linux runtime routines that walk strings as UTF-8.
use vstd::prelude::*;
use crate::bytes::{has_room, push_bytes};
use crate::jumps::{emit_internal_call, emit_near_jump_placeholder, emit_near_unconditional_placeholder, patch_jump, patch_near_jump, rel32_bytes};

verus! {

/// The bytes of a check that the byte register `modrm` (with prefix `rex`, none where it is
/// 0) holds a continuation byte, 0x80 through 0xbf, with two empty near jumps taken where
/// it does not.
pub open spec fn continuation_check_code(rex: u8, modrm: u8) -> Seq<u8> {
    if rex != 0 {
        seq![rex, 0x80u8, modrm, 0x80u8, 0x0fu8, 0x82u8, 0u8, 0u8, 0u8, 0u8, rex, 0x80u8, modrm, 0xbfu8, 0x0fu8, 0x87u8, 0u8, 0u8, 0u8, 0u8]
    } else {
        seq![0x80u8, modrm, 0x80u8, 0x0fu8, 0x82u8, 0u8, 0u8, 0u8, 0u8, 0x80u8, modrm, 0xbfu8, 0x0fu8, 0x87u8, 0u8, 0u8, 0u8, 0u8]
    }
}

/// Appends a continuation-byte check and returns where its two jump displacements sit.
pub(crate) fn emit_utf8_continuation_check(code: &mut Vec<u8>, rex: u8, modrm: u8) -> (jumps: (usize, usize))
    requires
        old(code)@.len() < 0x2000_0000,
    ensures
        final(code)@ == old(code)@ + continuation_check_code(rex, modrm),
        jumps.0 == old(code)@.len() + (if rex != 0 { 6int } else { 5int }),
        jumps.1 == old(code)@.len() + (if rex != 0 { 16int } else { 14int }),
{
    if rex != 0 {
        push_bytes(code, &[rex, 0x80, modrm, 0x80]);
    } else {
        push_bytes(code, &[0x80, modrm, 0x80]);
    }
    let below = emit_near_jump_placeholder(code, 0x0f, 0x82);
    if rex != 0 {
        push_bytes(code, &[rex, 0x80, modrm, 0xbf]);
    } else {
        push_bytes(code, &[0x80, modrm, 0xbf]);
    }
    let above = emit_near_jump_placeholder(code, 0x0f, 0x87);
    assert(code@ =~= old(code)@ + continuation_check_code(rex, modrm));
    (below, above)
}

/// Appends the step past a character of `amount` bytes that counts it and jumps back to
/// the decoding loop, and returns where the jump's displacement sits.
fn emit_codepoint_advance_and_loop(code: &mut Vec<u8>, amount: u8) -> (displacement: usize)
    requires
        old(code)@.len() < 0x2000_0000,
    ensures
        final(code)@ == old(code)@ + seq![0x49u8, 0x83, 0xc0, amount, 0x49, 0xff, 0xc1, 0xe9, 0, 0, 0, 0],
        displacement == old(code)@.len() + 8,
{
    push_bytes(code, &[0x49, 0x83, 0xc0, amount, 0x49, 0xff, 0xc1]);
    let displacement = emit_near_unconditional_placeholder(code);
    assert(code@ =~= old(code)@ + seq![0x49u8, 0x83, 0xc0, amount, 0x49, 0xff, 0xc1, 0xe9, 0, 0, 0, 0]);
    displacement
}

/// The machine code of the Linux routine that decodes the code point at a character index, or -1.
pub closed spec fn string_utf8_codepoint_at_code() -> Seq<u8> {
    seq![
            0x48u8, 0x85, 0xff, 0x0f, 0x84, 0xfe, 0x00, 0x00, 0x00, 0x49, 0x89, 0xf8, 0x45, 0x31, 0xc9, 0x45,
            0x8a, 0x10, 0x45, 0x84, 0xd2, 0x0f, 0x84, 0xec, 0x00, 0x00, 0x00, 0x49, 0x39, 0xf1, 0x0f, 0x85,
            0x95, 0x00, 0x00, 0x00, 0x41, 0x80, 0xfa, 0x80, 0x0f, 0x82, 0x49, 0x00, 0x00, 0x00, 0x41, 0x80,
            0xfa, 0xe0, 0x0f, 0x82, 0x44, 0x00, 0x00, 0x00, 0x41, 0x80, 0xfa, 0xf0, 0x0f, 0x82, 0x51, 0x00,
            0x00, 0x00, 0x41, 0x0f, 0xb6, 0xc2, 0x83, 0xe0, 0x07, 0xc1, 0xe0, 0x06, 0x45, 0x0f, 0xb6, 0x58,
            0x01, 0x41, 0x83, 0xe3, 0x3f, 0x44, 0x09, 0xd8, 0xc1, 0xe0, 0x06, 0x45, 0x0f, 0xb6, 0x58, 0x02,
            0x41, 0x83, 0xe3, 0x3f, 0x44, 0x09, 0xd8, 0xc1, 0xe0, 0x06, 0x45, 0x0f, 0xb6, 0x58, 0x03, 0x41,
            0x83, 0xe3, 0x3f, 0x44, 0x09, 0xd8, 0xc3, 0x41, 0x0f, 0xb6, 0xc2, 0xc3, 0x41, 0x0f, 0xb6, 0xc2,
            0x83, 0xe0, 0x1f, 0xc1, 0xe0, 0x06, 0x45, 0x0f, 0xb6, 0x58, 0x01, 0x41, 0x83, 0xe3, 0x3f, 0x44,
            0x09, 0xd8, 0xc3, 0x41, 0x0f, 0xb6, 0xc2, 0x83, 0xe0, 0x0f, 0xc1, 0xe0, 0x06, 0x45, 0x0f, 0xb6,
            0x58, 0x01, 0x41, 0x83, 0xe3, 0x3f, 0x44, 0x09, 0xd8, 0xc1, 0xe0, 0x06, 0x45, 0x0f, 0xb6, 0x58,
            0x02, 0x41, 0x83, 0xe3, 0x3f, 0x44, 0x09, 0xd8, 0xc3, 0x41, 0x80, 0xfa, 0x80, 0x0f, 0x82, 0x38,
            0x00, 0x00, 0x00, 0x41, 0x80, 0xfa, 0xe0, 0x0f, 0x82, 0x22, 0x00, 0x00, 0x00, 0x41, 0x80, 0xfa,
            0xf0, 0x0f, 0x82, 0x0c, 0x00, 0x00, 0x00, 0x49, 0x83, 0xc0, 0x04, 0x49, 0xff, 0xc1, 0xe9, 0x2c,
            0xff, 0xff, 0xff, 0x49, 0x83, 0xc0, 0x03, 0x49, 0xff, 0xc1, 0xe9, 0x20, 0xff, 0xff, 0xff, 0x49,
            0x83, 0xc0, 0x02, 0x49, 0xff, 0xc1, 0xe9, 0x14, 0xff, 0xff, 0xff, 0x49, 0x83, 0xc0, 0x01, 0x49,
            0xff, 0xc1, 0xe9, 0x08, 0xff, 0xff, 0xff, 0x48, 0xc7, 0xc0, 0xff, 0xff, 0xff, 0xff, 0xc3,
        ]
}

#[verifier::spinoff_prover]
#[verifier::rlimit(100)]
pub(crate) fn emit_string_utf8_codepoint_at_runtime(code: &mut Vec<u8>)
    ensures
        final(code)@ == old(code)@ + string_utf8_codepoint_at_code(),
{
    let mut routine: Vec<u8> = Vec::new();
    push_bytes(&mut routine, &[0x48, 0x85, 0xff]);
    let null_value = emit_near_jump_placeholder(&mut routine, 0x0f, 0x84);
    push_bytes(&mut routine, &[0x49, 0x89, 0xf8, 0x45, 0x31, 0xc9]);
    let loop_start = routine.len();
    push_bytes(&mut routine, &[0x45, 0x8a, 0x10, 0x45, 0x84, 0xd2]);
    let end = emit_near_jump_placeholder(&mut routine, 0x0f, 0x84);
    push_bytes(&mut routine, &[0x49, 0x39, 0xf1]);
    let skip = emit_near_jump_placeholder(&mut routine, 0x0f, 0x85);
    push_bytes(&mut routine, &[0x41, 0x80, 0xfa, 0x80]);
    let ascii = emit_near_jump_placeholder(&mut routine, 0x0f, 0x82);
    push_bytes(&mut routine, &[0x41, 0x80, 0xfa, 0xe0]);
    let two = emit_near_jump_placeholder(&mut routine, 0x0f, 0x82);
    push_bytes(&mut routine, &[0x41, 0x80, 0xfa, 0xf0]);
    let three = emit_near_jump_placeholder(&mut routine, 0x0f, 0x82);
    push_bytes(&mut routine, &[0x41, 0x0f, 0xb6, 0xc2, 0x83, 0xe0, 0x07, 0xc1, 0xe0, 0x06, 0x45, 0x0f, 0xb6, 0x58, 0x01, 0x41, 0x83, 0xe3, 0x3f, 0x44, 0x09, 0xd8, 0xc1, 0xe0, 0x06, 0x45, 0x0f, 0xb6, 0x58, 0x02, 0x41, 0x83, 0xe3, 0x3f, 0x44, 0x09, 0xd8, 0xc1, 0xe0, 0x06, 0x45, 0x0f, 0xb6, 0x58, 0x03, 0x41, 0x83, 0xe3, 0x3f, 0x44, 0x09, 0xd8, 0xc3]);
    let ascii_target = routine.len();
    push_bytes(&mut routine, &[0x41, 0x0f, 0xb6, 0xc2, 0xc3]);
    let two_target = routine.len();
    push_bytes(&mut routine, &[0x41, 0x0f, 0xb6, 0xc2, 0x83, 0xe0, 0x1f, 0xc1, 0xe0, 0x06, 0x45, 0x0f, 0xb6, 0x58, 0x01, 0x41, 0x83, 0xe3, 0x3f, 0x44, 0x09, 0xd8, 0xc3]);
    let three_target = routine.len();
    push_bytes(&mut routine, &[0x41, 0x0f, 0xb6, 0xc2, 0x83, 0xe0, 0x0f, 0xc1, 0xe0, 0x06, 0x45, 0x0f, 0xb6, 0x58, 0x01, 0x41, 0x83, 0xe3, 0x3f, 0x44, 0x09, 0xd8, 0xc1, 0xe0, 0x06, 0x45, 0x0f, 0xb6, 0x58, 0x02, 0x41, 0x83, 0xe3, 0x3f, 0x44, 0x09, 0xd8, 0xc3]);
    let skip_target = routine.len();
    push_bytes(&mut routine, &[0x41, 0x80, 0xfa, 0x80]);
    let advance_one = emit_near_jump_placeholder(&mut routine, 0x0f, 0x82);
    push_bytes(&mut routine, &[0x41, 0x80, 0xfa, 0xe0]);
    let advance_two = emit_near_jump_placeholder(&mut routine, 0x0f, 0x82);
    push_bytes(&mut routine, &[0x41, 0x80, 0xfa, 0xf0]);
    let advance_three = emit_near_jump_placeholder(&mut routine, 0x0f, 0x82);
    let advance_four = emit_codepoint_advance_and_loop(&mut routine, 4);
    let advance_three_target = routine.len();
    let back_three = emit_codepoint_advance_and_loop(&mut routine, 3);
    let advance_two_target = routine.len();
    let back_two = emit_codepoint_advance_and_loop(&mut routine, 2);
    let advance_one_target = routine.len();
    let back_one = emit_codepoint_advance_and_loop(&mut routine, 1);
    let failure = routine.len();
    push_bytes(&mut routine, &[0x48, 0xc7, 0xc0, 0xff, 0xff, 0xff, 0xff, 0xc3]);
    assert(routine@ =~= seq![
            0x48u8, 0x85, 0xff, 0x0f, 0x84, 0x00, 0x00, 0x00, 0x00, 0x49, 0x89, 0xf8, 0x45, 0x31, 0xc9, 0x45,
            0x8a, 0x10, 0x45, 0x84, 0xd2, 0x0f, 0x84, 0x00, 0x00, 0x00, 0x00, 0x49, 0x39, 0xf1, 0x0f, 0x85,
            0x00, 0x00, 0x00, 0x00, 0x41, 0x80, 0xfa, 0x80, 0x0f, 0x82, 0x00, 0x00, 0x00, 0x00, 0x41, 0x80,
            0xfa, 0xe0, 0x0f, 0x82, 0x00, 0x00, 0x00, 0x00, 0x41, 0x80, 0xfa, 0xf0, 0x0f, 0x82, 0x00, 0x00,
            0x00, 0x00, 0x41, 0x0f, 0xb6, 0xc2, 0x83, 0xe0, 0x07, 0xc1, 0xe0, 0x06, 0x45, 0x0f, 0xb6, 0x58,
            0x01, 0x41, 0x83, 0xe3, 0x3f, 0x44, 0x09, 0xd8, 0xc1, 0xe0, 0x06, 0x45, 0x0f, 0xb6, 0x58, 0x02,
            0x41, 0x83, 0xe3, 0x3f, 0x44, 0x09, 0xd8, 0xc1, 0xe0, 0x06, 0x45, 0x0f, 0xb6, 0x58, 0x03, 0x41,
            0x83, 0xe3, 0x3f, 0x44, 0x09, 0xd8, 0xc3, 0x41, 0x0f, 0xb6, 0xc2, 0xc3, 0x41, 0x0f, 0xb6, 0xc2,
            0x83, 0xe0, 0x1f, 0xc1, 0xe0, 0x06, 0x45, 0x0f, 0xb6, 0x58, 0x01, 0x41, 0x83, 0xe3, 0x3f, 0x44,
            0x09, 0xd8, 0xc3, 0x41, 0x0f, 0xb6, 0xc2, 0x83, 0xe0, 0x0f, 0xc1, 0xe0, 0x06, 0x45, 0x0f, 0xb6,
            0x58, 0x01, 0x41, 0x83, 0xe3, 0x3f, 0x44, 0x09, 0xd8, 0xc1, 0xe0, 0x06, 0x45, 0x0f, 0xb6, 0x58,
            0x02, 0x41, 0x83, 0xe3, 0x3f, 0x44, 0x09, 0xd8, 0xc3, 0x41, 0x80, 0xfa, 0x80, 0x0f, 0x82, 0x00,
            0x00, 0x00, 0x00, 0x41, 0x80, 0xfa, 0xe0, 0x0f, 0x82, 0x00, 0x00, 0x00, 0x00, 0x41, 0x80, 0xfa,
            0xf0, 0x0f, 0x82, 0x00, 0x00, 0x00, 0x00, 0x49, 0x83, 0xc0, 0x04, 0x49, 0xff, 0xc1, 0xe9, 0x00,
            0x00, 0x00, 0x00, 0x49, 0x83, 0xc0, 0x03, 0x49, 0xff, 0xc1, 0xe9, 0x00, 0x00, 0x00, 0x00, 0x49,
            0x83, 0xc0, 0x02, 0x49, 0xff, 0xc1, 0xe9, 0x00, 0x00, 0x00, 0x00, 0x49, 0x83, 0xc0, 0x01, 0x49,
            0xff, 0xc1, 0xe9, 0x00, 0x00, 0x00, 0x00, 0x48, 0xc7, 0xc0, 0xff, 0xff, 0xff, 0xff, 0xc3,
        ]);
    patch_near_jump(&mut routine, null_value, failure);
    patch_near_jump(&mut routine, end, failure);
    patch_near_jump(&mut routine, skip, skip_target);
    patch_near_jump(&mut routine, ascii, ascii_target);
    patch_near_jump(&mut routine, two, two_target);
    patch_near_jump(&mut routine, three, three_target);
    patch_near_jump(&mut routine, advance_one, advance_one_target);
    patch_near_jump(&mut routine, advance_two, advance_two_target);
    patch_near_jump(&mut routine, advance_three, advance_three_target);
    patch_near_jump(&mut routine, advance_four, loop_start);
    patch_near_jump(&mut routine, back_one, loop_start);
    patch_near_jump(&mut routine, back_two, loop_start);
    patch_near_jump(&mut routine, back_three, loop_start);
    assert(routine@ =~= string_utf8_codepoint_at_code());
    push_bytes(code, routine.as_slice());
}


/// The machine code of the Linux routine at position `at` that finds the character index of
/// a code point by calling the decoder at `codepoint_at` for each index in turn, or -1.
pub closed spec fn string_utf8_find_codepoint_code(at: int, codepoint_at: int) -> Seq<u8> {
    seq![
        0x48u8, 0x83, 0xec, 0x28, 0x48, 0x89, 0x3c, 0x24, 0x48, 0x89, 0x74, 0x24, 0x08, 0x48, 0x31, 0xc0,
        0x48, 0x89, 0x44, 0x24, 0x10, 0x48, 0x8b, 0x3c, 0x24, 0x48, 0x8b, 0x74, 0x24, 0x10, 0xe8,
    ]
        + rel32_bytes(codepoint_at - (at + 35))
        + seq![
        0x48u8, 0x83, 0xf8, 0xff, 0x0f, 0x84, 0x1f, 0x00, 0x00, 0x00, 0x48, 0x3b, 0x44, 0x24, 0x08, 0x0f,
        0x84, 0x0a, 0x00, 0x00, 0x00, 0x48, 0xff, 0x44, 0x24, 0x10, 0xe9, 0xd3, 0xff, 0xff, 0xff, 0x48,
        0x8b, 0x44, 0x24, 0x10, 0x48, 0x83, 0xc4, 0x28, 0xc3, 0x48, 0xc7, 0xc0, 0xff, 0xff, 0xff, 0xff,
        0x48, 0x83, 0xc4, 0x28, 0xc3,
    ]
}

#[verifier::spinoff_prover]
#[verifier::rlimit(50)]
pub(crate) fn emit_string_utf8_find_codepoint_runtime(code: &mut Vec<u8>, codepoint_target: usize)
    requires
        has_room(old(code)@),
        codepoint_target < 0x1000_0000,
    ensures
        final(code)@ == old(code)@ + string_utf8_find_codepoint_code(old(code)@.len() as int, codepoint_target as int),
{
    push_bytes(
        code,
        &[
            0x48, 0x83, 0xec, 0x28,
            0x48, 0x89, 0x3c, 0x24, 0x48, 0x89, 0x74, 0x24, 0x08, 0x48, 0x31, 0xc0, 0x48, 0x89, 0x44, 0x24, 0x10,
        ],
    );
    let loop_start = code.len();
    push_bytes(code, &[0x48, 0x8b, 0x3c, 0x24, 0x48, 0x8b, 0x74, 0x24, 0x10]);
    emit_internal_call(code, codepoint_target);
    push_bytes(code, &[0x48, 0x83, 0xf8, 0xff]);
    let end = emit_near_jump_placeholder(code, 0x0f, 0x84);
    push_bytes(code, &[0x48, 0x3b, 0x44, 0x24, 0x08]);
    let found = emit_near_jump_placeholder(code, 0x0f, 0x84);
    push_bytes(code, &[0x48, 0xff, 0x44, 0x24, 0x10]);
    let advance = emit_near_unconditional_placeholder(code);
    let found_target = code.len();
    push_bytes(code, &[0x48, 0x8b, 0x44, 0x24, 0x10, 0x48, 0x83, 0xc4, 0x28, 0xc3]);
    let failure = code.len();
    push_bytes(code, &[0x48, 0xc7, 0xc0, 0xff, 0xff, 0xff, 0xff, 0x48, 0x83, 0xc4, 0x28, 0xc3]);
    patch_near_jump(code, end, failure);
    patch_near_jump(code, found, found_target);
    patch_near_jump(code, advance, loop_start);
    assert(code@ =~= old(code)@ + string_utf8_find_codepoint_code(old(code)@.len() as int, codepoint_target as int));
}


/// How long the code point routines are.
pub proof fn lemma_codepoint_lengths()
    ensures
        string_utf8_codepoint_at_code().len() <= 512,
        forall|at: int, codepoint_at: int| #[trigger] string_utf8_find_codepoint_code(at, codepoint_at).len() <= 512,
{
    assert(string_utf8_codepoint_at_code().len() == 271);
}

/// The labels of the UTF-8 validation routine.
struct Utf8ValidLabels {
    null_value: usize,
    loop_start: usize,
    done: usize,
    ascii: usize,
    invalid_lead: usize,
    two: usize,
    three: usize,
    four_invalid: usize,
    four_second_checks: (usize, usize),
    four_third_checks: (usize, usize),
    four_fourth_checks: (usize, usize),
    four_second_low: usize,
    four_not_f4: usize,
    four_second_high: usize,
    four_advance: usize,
    four_loop: usize,
    three_target: usize,
    three_second_checks: (usize, usize),
    three_third_checks: (usize, usize),
    three_not_e0: usize,
    three_e0_low: usize,
    three_e0_done: usize,
    three_ed_check: usize,
    three_not_ed: usize,
    three_ed_high: usize,
    three_advance: usize,
    three_loop: usize,
    two_target: usize,
    two_checks: (usize, usize),
    two_loop: usize,
    ascii_target: usize,
    ascii_loop: usize,
    success: usize,
    failure: usize,
}

/// Where the labels of the routine lie.
spec fn utf8_valid_labels() -> Utf8ValidLabels {
    Utf8ValidLabels {
        null_value: 5,
        loop_start: 12,
        done: 20,
        ascii: 30,
        invalid_lead: 40,
        two: 50,
        three: 60,
        four_invalid: 70,
        four_second_checks: (93, 103),
        four_third_checks: (113, 123),
        four_fourth_checks: (132, 141),
        four_second_low: 151,
        four_not_f4: 161,
        four_second_high: 171,
        four_advance: 175,
        four_loop: 180,
        three_target: 184,
        three_second_checks: (198, 208),
        three_third_checks: (218, 228),
        three_not_e0: 238,
        three_e0_low: 248,
        three_e0_done: 253,
        three_ed_check: 257,
        three_not_ed: 263,
        three_ed_high: 273,
        three_advance: 277,
        three_loop: 282,
        two_target: 286,
        two_checks: (296, 306),
        two_loop: 315,
        ascii_target: 319,
        ascii_loop: 323,
        success: 327,
        failure: 333,
    }
}

/// The routine before its jumps are filled in.
closed spec fn utf8_valid_skeleton() -> Seq<u8> {
    seq![
            0x48u8, 0x85, 0xff, 0x0f, 0x84, 0x00, 0x00, 0x00, 0x00, 0x49, 0x89, 0xf8, 0x45, 0x8a, 0x08, 0x45,
            0x84, 0xc9, 0x0f, 0x84, 0x00, 0x00, 0x00, 0x00, 0x41, 0x80, 0xf9, 0x80, 0x0f, 0x82, 0x00, 0x00,
            0x00, 0x00, 0x41, 0x80, 0xf9, 0xc2, 0x0f, 0x82, 0x00, 0x00, 0x00, 0x00, 0x41, 0x80, 0xf9, 0xe0,
            0x0f, 0x82, 0x00, 0x00, 0x00, 0x00, 0x41, 0x80, 0xf9, 0xf0, 0x0f, 0x82, 0x00, 0x00, 0x00, 0x00,
            0x41, 0x80, 0xf9, 0xf5, 0x0f, 0x87, 0x00, 0x00, 0x00, 0x00, 0x45, 0x8a, 0x50, 0x01, 0x45, 0x8a,
            0x58, 0x02, 0x41, 0x8a, 0x4c, 0x20, 0x03, 0x41, 0x80, 0xfa, 0x80, 0x0f, 0x82, 0x00, 0x00, 0x00,
            0x00, 0x41, 0x80, 0xfa, 0xbf, 0x0f, 0x87, 0x00, 0x00, 0x00, 0x00, 0x41, 0x80, 0xfb, 0x80, 0x0f,
            0x82, 0x00, 0x00, 0x00, 0x00, 0x41, 0x80, 0xfb, 0xbf, 0x0f, 0x87, 0x00, 0x00, 0x00, 0x00, 0x80,
            0xf9, 0x80, 0x0f, 0x82, 0x00, 0x00, 0x00, 0x00, 0x80, 0xf9, 0xbf, 0x0f, 0x87, 0x00, 0x00, 0x00,
            0x00, 0x41, 0x80, 0xfa, 0x90, 0x0f, 0x82, 0x00, 0x00, 0x00, 0x00, 0x41, 0x80, 0xf9, 0xf4, 0x0f,
            0x85, 0x00, 0x00, 0x00, 0x00, 0x41, 0x80, 0xfa, 0x8f, 0x0f, 0x87, 0x00, 0x00, 0x00, 0x00, 0x49,
            0x83, 0xc0, 0x04, 0xe9, 0x00, 0x00, 0x00, 0x00, 0x45, 0x8a, 0x50, 0x01, 0x45, 0x8a, 0x58, 0x02,
            0x41, 0x80, 0xfa, 0x80, 0x0f, 0x82, 0x00, 0x00, 0x00, 0x00, 0x41, 0x80, 0xfa, 0xbf, 0x0f, 0x87,
            0x00, 0x00, 0x00, 0x00, 0x41, 0x80, 0xfb, 0x80, 0x0f, 0x82, 0x00, 0x00, 0x00, 0x00, 0x41, 0x80,
            0xfb, 0xbf, 0x0f, 0x87, 0x00, 0x00, 0x00, 0x00, 0x41, 0x80, 0xf9, 0xe0, 0x0f, 0x85, 0x00, 0x00,
            0x00, 0x00, 0x41, 0x80, 0xfa, 0xa0, 0x0f, 0x82, 0x00, 0x00, 0x00, 0x00, 0xe9, 0x00, 0x00, 0x00,
            0x00, 0x41, 0x80, 0xf9, 0xed, 0x0f, 0x85, 0x00, 0x00, 0x00, 0x00, 0x41, 0x80, 0xfa, 0x9f, 0x0f,
            0x87, 0x00, 0x00, 0x00, 0x00, 0x49, 0x83, 0xc0, 0x03, 0xe9, 0x00, 0x00, 0x00, 0x00, 0x45, 0x8a,
            0x50, 0x01, 0x41, 0x80, 0xfa, 0x80, 0x0f, 0x82, 0x00, 0x00, 0x00, 0x00, 0x41, 0x80, 0xfa, 0xbf,
            0x0f, 0x87, 0x00, 0x00, 0x00, 0x00, 0x49, 0x83, 0xc0, 0x02, 0xe9, 0x00, 0x00, 0x00, 0x00, 0x49,
            0xff, 0xc0, 0xe9, 0x00, 0x00, 0x00, 0x00, 0xb8, 0x01, 0x00, 0x00, 0x00, 0xc3, 0x31, 0xc0, 0xc3,
        ]
}

/// Appends the routine with empty jumps and returns where its labels lie.
#[verifier::spinoff_prover]
#[verifier::rlimit(100)]
fn emit_utf8_valid_skeleton(routine: &mut Vec<u8>) -> (labels: Utf8ValidLabels)
    requires
        old(routine)@.len() == 0,
    ensures
        final(routine)@ == utf8_valid_skeleton(),
        labels == utf8_valid_labels(),
{
    push_bytes(routine, &[0x48, 0x85, 0xff]);
    let null_value = emit_near_jump_placeholder(routine, 0x0f, 0x84);
    push_bytes(routine, &[0x49, 0x89, 0xf8]);
    let loop_start = routine.len();
    push_bytes(routine, &[0x45, 0x8a, 0x08, 0x45, 0x84, 0xc9]);
    let done = emit_near_jump_placeholder(routine, 0x0f, 0x84);
    push_bytes(routine, &[0x41, 0x80, 0xf9, 0x80]);
    let ascii = emit_near_jump_placeholder(routine, 0x0f, 0x82);
    push_bytes(routine, &[0x41, 0x80, 0xf9, 0xc2]);
    let invalid_lead = emit_near_jump_placeholder(routine, 0x0f, 0x82);
    push_bytes(routine, &[0x41, 0x80, 0xf9, 0xe0]);
    let two = emit_near_jump_placeholder(routine, 0x0f, 0x82);
    push_bytes(routine, &[0x41, 0x80, 0xf9, 0xf0]);
    let three = emit_near_jump_placeholder(routine, 0x0f, 0x82);
    push_bytes(routine, &[0x41, 0x80, 0xf9, 0xf5]);
    let four_invalid = emit_near_jump_placeholder(routine, 0x0f, 0x87);
    push_bytes(routine, &[0x45, 0x8a, 0x50, 0x01, 0x45, 0x8a, 0x58, 0x02, 0x41, 0x8a, 0x4c, 0x20, 0x03]);
    let four_second_checks = emit_utf8_continuation_check(routine, 0x41, 0xfa);
    let four_third_checks = emit_utf8_continuation_check(routine, 0x41, 0xfb);
    let four_fourth_checks = emit_utf8_continuation_check(routine, 0x00, 0xf9);
    push_bytes(routine, &[0x41, 0x80, 0xfa, 0x90]);
    let four_second_low = emit_near_jump_placeholder(routine, 0x0f, 0x82);
    push_bytes(routine, &[0x41, 0x80, 0xf9, 0xf4]);
    let four_not_f4 = emit_near_jump_placeholder(routine, 0x0f, 0x85);
    push_bytes(routine, &[0x41, 0x80, 0xfa, 0x8f]);
    let four_second_high = emit_near_jump_placeholder(routine, 0x0f, 0x87);
    let four_advance = routine.len();
    push_bytes(routine, &[0x49, 0x83, 0xc0, 0x04]);
    let four_loop = emit_near_unconditional_placeholder(routine);
    let three_target = routine.len();
    push_bytes(routine, &[0x45, 0x8a, 0x50, 0x01, 0x45, 0x8a, 0x58, 0x02]);
    let three_second_checks = emit_utf8_continuation_check(routine, 0x41, 0xfa);
    let three_third_checks = emit_utf8_continuation_check(routine, 0x41, 0xfb);
    push_bytes(routine, &[0x41, 0x80, 0xf9, 0xe0]);
    let three_not_e0 = emit_near_jump_placeholder(routine, 0x0f, 0x85);
    push_bytes(routine, &[0x41, 0x80, 0xfa, 0xa0]);
    let three_e0_low = emit_near_jump_placeholder(routine, 0x0f, 0x82);
    let three_e0_done = emit_near_unconditional_placeholder(routine);
    let three_ed_check = routine.len();
    push_bytes(routine, &[0x41, 0x80, 0xf9, 0xed]);
    let three_not_ed = emit_near_jump_placeholder(routine, 0x0f, 0x85);
    push_bytes(routine, &[0x41, 0x80, 0xfa, 0x9f]);
    let three_ed_high = emit_near_jump_placeholder(routine, 0x0f, 0x87);
    let three_advance = routine.len();
    push_bytes(routine, &[0x49, 0x83, 0xc0, 0x03]);
    let three_loop = emit_near_unconditional_placeholder(routine);
    let two_target = routine.len();
    push_bytes(routine, &[0x45, 0x8a, 0x50, 0x01]);
    let two_checks = emit_utf8_continuation_check(routine, 0x41, 0xfa);
    push_bytes(routine, &[0x49, 0x83, 0xc0, 0x02]);
    let two_loop = emit_near_unconditional_placeholder(routine);
    let ascii_target = routine.len();
    push_bytes(routine, &[0x49, 0xff, 0xc0]);
    let ascii_loop = emit_near_unconditional_placeholder(routine);
    let success = routine.len();
    push_bytes(routine, &[0xb8, 0x01, 0x00, 0x00, 0x00, 0xc3]);
    let failure = routine.len();
    push_bytes(routine, &[0x31, 0xc0, 0xc3]);
    assert(routine@ =~= utf8_valid_skeleton());
    Utf8ValidLabels {
        null_value,
        loop_start,
        done,
        ascii,
        invalid_lead,
        two,
        three,
        four_invalid,
        four_second_checks,
        four_third_checks,
        four_fourth_checks,
        four_second_low,
        four_not_f4,
        four_second_high,
        four_advance,
        four_loop,
        three_target,
        three_second_checks,
        three_third_checks,
        three_not_e0,
        three_e0_low,
        three_e0_done,
        three_ed_check,
        three_not_ed,
        three_ed_high,
        three_advance,
        three_loop,
        two_target,
        two_checks,
        two_loop,
        ascii_target,
        ascii_loop,
        success,
        failure,
    }
}

/// Fills in the jumps of the routine.
#[verifier::spinoff_prover]
#[verifier::rlimit(100)]
fn patch_utf8_valid_jumps(routine: &mut Vec<u8>, labels: &Utf8ValidLabels)
    requires
        old(routine)@ == utf8_valid_skeleton(),
        *labels == utf8_valid_labels(),
    ensures
        final(routine)@ == string_utf8_valid_code(),
{
    patch_jump(routine, labels.null_value, labels.success);
    patch_jump(routine, labels.done, labels.success);
    patch_jump(routine, labels.ascii, labels.ascii_target);
    patch_jump(routine, labels.invalid_lead, labels.failure);
    patch_jump(routine, labels.two, labels.two_target);
    patch_jump(routine, labels.three, labels.three_target);
    patch_jump(routine, labels.four_invalid, labels.failure);
    patch_jump(routine, labels.four_second_low, labels.failure);
    patch_jump(routine, labels.four_not_f4, labels.four_advance);
    patch_jump(routine, labels.four_second_high, labels.failure);
    patch_jump(routine, labels.three_not_e0, labels.three_ed_check);
    patch_jump(routine, labels.three_e0_low, labels.failure);
    patch_jump(routine, labels.three_e0_done, labels.three_advance);
    patch_jump(routine, labels.three_not_ed, labels.three_advance);
    patch_jump(routine, labels.three_ed_high, labels.failure);
    patch_jump(routine, labels.four_loop, labels.loop_start);
    patch_jump(routine, labels.three_loop, labels.loop_start);
    patch_jump(routine, labels.two_loop, labels.loop_start);
    patch_jump(routine, labels.ascii_loop, labels.loop_start);
    patch_jump(routine, labels.four_second_checks.0, labels.failure);
    patch_jump(routine, labels.four_second_checks.1, labels.failure);
    patch_jump(routine, labels.four_third_checks.0, labels.failure);
    patch_jump(routine, labels.four_third_checks.1, labels.failure);
    patch_jump(routine, labels.four_fourth_checks.0, labels.failure);
    patch_jump(routine, labels.four_fourth_checks.1, labels.failure);
    patch_jump(routine, labels.three_second_checks.0, labels.failure);
    patch_jump(routine, labels.three_second_checks.1, labels.failure);
    patch_jump(routine, labels.three_third_checks.0, labels.failure);
    patch_jump(routine, labels.three_third_checks.1, labels.failure);
    patch_jump(routine, labels.two_checks.0, labels.failure);
    patch_jump(routine, labels.two_checks.1, labels.failure);
    assert(routine@ =~= string_utf8_valid_code());
}

/// The machine code of the Linux UTF-8 validation routine: 1 where the string is well-formed UTF-8 (or null), 0 where it is not.
pub closed spec fn string_utf8_valid_code() -> Seq<u8> {
    seq![
            0x48u8, 0x85, 0xff, 0x0f, 0x84, 0x3e, 0x01, 0x00, 0x00, 0x49, 0x89, 0xf8, 0x45, 0x8a, 0x08, 0x45,
            0x84, 0xc9, 0x0f, 0x84, 0x2f, 0x01, 0x00, 0x00, 0x41, 0x80, 0xf9, 0x80, 0x0f, 0x82, 0x1d, 0x01,
            0x00, 0x00, 0x41, 0x80, 0xf9, 0xc2, 0x0f, 0x82, 0x21, 0x01, 0x00, 0x00, 0x41, 0x80, 0xf9, 0xe0,
            0x0f, 0x82, 0xe8, 0x00, 0x00, 0x00, 0x41, 0x80, 0xf9, 0xf0, 0x0f, 0x82, 0x78, 0x00, 0x00, 0x00,
            0x41, 0x80, 0xf9, 0xf5, 0x0f, 0x87, 0x03, 0x01, 0x00, 0x00, 0x45, 0x8a, 0x50, 0x01, 0x45, 0x8a,
            0x58, 0x02, 0x41, 0x8a, 0x4c, 0x20, 0x03, 0x41, 0x80, 0xfa, 0x80, 0x0f, 0x82, 0xec, 0x00, 0x00,
            0x00, 0x41, 0x80, 0xfa, 0xbf, 0x0f, 0x87, 0xe2, 0x00, 0x00, 0x00, 0x41, 0x80, 0xfb, 0x80, 0x0f,
            0x82, 0xd8, 0x00, 0x00, 0x00, 0x41, 0x80, 0xfb, 0xbf, 0x0f, 0x87, 0xce, 0x00, 0x00, 0x00, 0x80,
            0xf9, 0x80, 0x0f, 0x82, 0xc5, 0x00, 0x00, 0x00, 0x80, 0xf9, 0xbf, 0x0f, 0x87, 0xbc, 0x00, 0x00,
            0x00, 0x41, 0x80, 0xfa, 0x90, 0x0f, 0x82, 0xb2, 0x00, 0x00, 0x00, 0x41, 0x80, 0xf9, 0xf4, 0x0f,
            0x85, 0x0a, 0x00, 0x00, 0x00, 0x41, 0x80, 0xfa, 0x8f, 0x0f, 0x87, 0x9e, 0x00, 0x00, 0x00, 0x49,
            0x83, 0xc0, 0x04, 0xe9, 0x54, 0xff, 0xff, 0xff, 0x45, 0x8a, 0x50, 0x01, 0x45, 0x8a, 0x58, 0x02,
            0x41, 0x80, 0xfa, 0x80, 0x0f, 0x82, 0x83, 0x00, 0x00, 0x00, 0x41, 0x80, 0xfa, 0xbf, 0x0f, 0x87,
            0x79, 0x00, 0x00, 0x00, 0x41, 0x80, 0xfb, 0x80, 0x0f, 0x82, 0x6f, 0x00, 0x00, 0x00, 0x41, 0x80,
            0xfb, 0xbf, 0x0f, 0x87, 0x65, 0x00, 0x00, 0x00, 0x41, 0x80, 0xf9, 0xe0, 0x0f, 0x85, 0x0f, 0x00,
            0x00, 0x00, 0x41, 0x80, 0xfa, 0xa0, 0x0f, 0x82, 0x51, 0x00, 0x00, 0x00, 0xe9, 0x14, 0x00, 0x00,
            0x00, 0x41, 0x80, 0xf9, 0xed, 0x0f, 0x85, 0x0a, 0x00, 0x00, 0x00, 0x41, 0x80, 0xfa, 0x9f, 0x0f,
            0x87, 0x38, 0x00, 0x00, 0x00, 0x49, 0x83, 0xc0, 0x03, 0xe9, 0xee, 0xfe, 0xff, 0xff, 0x45, 0x8a,
            0x50, 0x01, 0x41, 0x80, 0xfa, 0x80, 0x0f, 0x82, 0x21, 0x00, 0x00, 0x00, 0x41, 0x80, 0xfa, 0xbf,
            0x0f, 0x87, 0x17, 0x00, 0x00, 0x00, 0x49, 0x83, 0xc0, 0x02, 0xe9, 0xcd, 0xfe, 0xff, 0xff, 0x49,
            0xff, 0xc0, 0xe9, 0xc5, 0xfe, 0xff, 0xff, 0xb8, 0x01, 0x00, 0x00, 0x00, 0xc3, 0x31, 0xc0, 0xc3,
        ]
}

pub(crate) fn emit_string_utf8_valid_runtime(code: &mut Vec<u8>)
    ensures
        final(code)@ == old(code)@ + string_utf8_valid_code(),
{
    let mut routine: Vec<u8> = Vec::new();
    let labels = emit_utf8_valid_skeleton(&mut routine);
    patch_utf8_valid_jumps(&mut routine, &labels);
    push_bytes(code, routine.as_slice());
}

/// How long the validation routine is.
pub proof fn lemma_validation_length()
    ensures
        string_utf8_valid_code().len() <= 512,
{
    assert(string_utf8_valid_code().len() == 336);
}

/// What a UTF-8 navigation routine computes: the byte offset of a character index, the
/// offset of the next or the previous character, the character index at a byte offset, or
/// whether a byte offset starts a character.
#[derive(Debug, Clone, Copy, PartialEq, Eq, Structural)]
pub enum Utf8NavigationKind {
    ByteOffset,
    NextOffset,
    PrevOffset,
    IndexAt,
    IsBoundary,
}

/// The return sequence of a navigation routine, at a character boundary or at the end.
pub closed spec fn navigation_result_code(kind: Utf8NavigationKind, at_boundary: bool) -> Seq<u8> {
    match kind {
        Utf8NavigationKind::ByteOffset => seq![0x48u8, 0x89, 0xc0, 0x41, 0x5c, 0xc3],
        Utf8NavigationKind::NextOffset => if at_boundary {
            seq![0x4cu8, 0x01, 0xd8, 0x41, 0x5c, 0xc3]
        } else {
            seq![0x48u8, 0x89, 0xc0, 0x41, 0x5c, 0xc3]
        },
        Utf8NavigationKind::PrevOffset => seq![0x4cu8, 0x89, 0xd0, 0x41, 0x5c, 0xc3],
        Utf8NavigationKind::IndexAt => seq![0x4cu8, 0x89, 0xe0, 0x41, 0x5c, 0xc3],
        Utf8NavigationKind::IsBoundary => seq![0xb8u8, 0x01, 0x00, 0x00, 0x00, 0x41, 0x5c, 0xc3],
    }
}

fn emit_navigation_result(code: &mut Vec<u8>, kind: Utf8NavigationKind, at_boundary: bool)
    ensures
        final(code)@ == old(code)@ + navigation_result_code(kind, at_boundary),
{
    match kind {
        Utf8NavigationKind::ByteOffset => push_bytes(code, &[0x48, 0x89, 0xc0, 0x41, 0x5c, 0xc3]),
        Utf8NavigationKind::NextOffset => if at_boundary {
            push_bytes(code, &[0x4c, 0x01, 0xd8, 0x41, 0x5c, 0xc3])
        } else {
            push_bytes(code, &[0x48, 0x89, 0xc0, 0x41, 0x5c, 0xc3])
        },
        Utf8NavigationKind::PrevOffset => push_bytes(code, &[0x4c, 0x89, 0xd0, 0x41, 0x5c, 0xc3]),
        Utf8NavigationKind::IndexAt => push_bytes(code, &[0x4c, 0x89, 0xe0, 0x41, 0x5c, 0xc3]),
        Utf8NavigationKind::IsBoundary => push_bytes(code, &[0xb8, 0x01, 0x00, 0x00, 0x00, 0x41, 0x5c, 0xc3]),
    }
    assert(code@ =~= old(code)@ + navigation_result_code(kind, at_boundary));
}

/// The failure return of a navigation routine: 0 for the boundary test, -1 otherwise.
pub closed spec fn navigation_failure_code(kind: Utf8NavigationKind) -> Seq<u8> {
    if kind == Utf8NavigationKind::IsBoundary {
        seq![0x31u8, 0xc0, 0x41, 0x5c, 0xc3]
    } else {
        seq![0x48u8, 0xc7, 0xc0, 0xff, 0xff, 0xff, 0xff, 0x41, 0x5c, 0xc3]
    }
}

fn emit_navigation_failure(code: &mut Vec<u8>, kind: Utf8NavigationKind)
    ensures
        final(code)@ == old(code)@ + navigation_failure_code(kind),
{
    if matches!(kind, Utf8NavigationKind::IsBoundary) {
        push_bytes(code, &[0x31, 0xc0, 0x41, 0x5c, 0xc3]);
    } else {
        push_bytes(code, &[0x48, 0xc7, 0xc0, 0xff, 0xff, 0xff, 0xff, 0x41, 0x5c, 0xc3]);
    }
    assert(code@ =~= old(code)@ + navigation_failure_code(kind));
}

/// The labels of a navigation routine.
struct NavigationLabels {
    null_value: usize,
    loop_start: usize,
    end: usize,
    width_one: usize,
    width_two: usize,
    width_three: usize,
    invalid: usize,
    width_four_loop: usize,
    width_three_target: usize,
    width_three_loop: usize,
    width_two_target: usize,
    width_two_loop: usize,
    width_one_target: usize,
    width_one_loop: usize,
    width_ready: usize,
    boundary: Option<usize>,
    inside: Option<usize>,
    advance: usize,
    boundary_target: usize,
    end_target: usize,
    end_match: usize,
    failure: usize,
    success: usize,
}

/// Where the labels of a navigation routine lie.
spec fn navigation_labels(kind: Utf8NavigationKind) -> NavigationLabels {
    match kind {
        Utf8NavigationKind::ByteOffset => NavigationLabels {
            null_value: 5,
            loop_start: 22,
            end: 30,
            width_one: 40,
            width_two: 50,
            width_three: 60,
            invalid: 70,
            width_four_loop: 81,
            width_three_target: 85,
            width_three_loop: 92,
            width_two_target: 96,
            width_two_loop: 103,
            width_one_target: 107,
            width_one_loop: 114,
            width_ready: 118,
            boundary: Some(123),
            inside: None,
            advance: 140,
            boundary_target: 144,
            end_target: 150,
            end_match: 155,
            failure: 159,
            success: 169,
        },
        Utf8NavigationKind::NextOffset => NavigationLabels {
            null_value: 5,
            loop_start: 22,
            end: 30,
            width_one: 40,
            width_two: 50,
            width_three: 60,
            invalid: 70,
            width_four_loop: 81,
            width_three_target: 85,
            width_three_loop: 92,
            width_two_target: 96,
            width_two_loop: 103,
            width_one_target: 107,
            width_one_loop: 114,
            width_ready: 118,
            boundary: Some(123),
            inside: Some(138),
            advance: 155,
            boundary_target: 159,
            end_target: 165,
            end_match: 170,
            failure: 174,
            success: 184,
        },
        Utf8NavigationKind::PrevOffset => NavigationLabels {
            null_value: 5,
            loop_start: 22,
            end: 30,
            width_one: 40,
            width_two: 50,
            width_three: 60,
            invalid: 70,
            width_four_loop: 81,
            width_three_target: 85,
            width_three_loop: 92,
            width_two_target: 96,
            width_two_loop: 103,
            width_one_target: 107,
            width_one_loop: 114,
            width_ready: 118,
            boundary: Some(123),
            inside: Some(138),
            advance: 155,
            boundary_target: 159,
            end_target: 165,
            end_match: 170,
            failure: 174,
            success: 184,
        },
        Utf8NavigationKind::IndexAt => NavigationLabels {
            null_value: 5,
            loop_start: 22,
            end: 30,
            width_one: 40,
            width_two: 50,
            width_three: 60,
            invalid: 70,
            width_four_loop: 81,
            width_three_target: 85,
            width_three_loop: 92,
            width_two_target: 96,
            width_two_loop: 103,
            width_one_target: 107,
            width_one_loop: 114,
            width_ready: 118,
            boundary: Some(123),
            inside: Some(138),
            advance: 155,
            boundary_target: 159,
            end_target: 165,
            end_match: 170,
            failure: 174,
            success: 184,
        },
        Utf8NavigationKind::IsBoundary => NavigationLabels {
            null_value: 5,
            loop_start: 22,
            end: 30,
            width_one: 40,
            width_two: 50,
            width_three: 60,
            invalid: 70,
            width_four_loop: 81,
            width_three_target: 85,
            width_three_loop: 92,
            width_two_target: 96,
            width_two_loop: 103,
            width_one_target: 107,
            width_one_loop: 114,
            width_ready: 118,
            boundary: Some(123),
            inside: Some(138),
            advance: 155,
            boundary_target: 159,
            end_target: 167,
            end_match: 172,
            failure: 176,
            success: 181,
        },
    }
}

/// A navigation routine before its jumps are filled in.
pub closed spec fn navigation_skeleton(kind: Utf8NavigationKind) -> Seq<u8> {
    match kind {
        Utf8NavigationKind::ByteOffset => seq![
                0x48u8, 0x85, 0xff, 0x0f, 0x84, 0x00, 0x00, 0x00, 0x00, 0x41, 0x54, 0x49, 0x89, 0xf8, 0x31, 0xc0,
                0x45, 0x31, 0xd2, 0x45, 0x31, 0xe4, 0x45, 0x8a, 0x08, 0x45, 0x84, 0xc9, 0x0f, 0x84, 0x00, 0x00,
                0x00, 0x00, 0x41, 0x80, 0xf9, 0x80, 0x0f, 0x82, 0x00, 0x00, 0x00, 0x00, 0x41, 0x80, 0xf9, 0xe0,
                0x0f, 0x82, 0x00, 0x00, 0x00, 0x00, 0x41, 0x80, 0xf9, 0xf0, 0x0f, 0x82, 0x00, 0x00, 0x00, 0x00,
                0x41, 0x80, 0xf9, 0xf5, 0x0f, 0x83, 0x00, 0x00, 0x00, 0x00, 0x41, 0xbb, 0x04, 0x00, 0x00, 0x00,
                0xe9, 0x00, 0x00, 0x00, 0x00, 0x41, 0xbb, 0x03, 0x00, 0x00, 0x00, 0xe9, 0x00, 0x00, 0x00, 0x00,
                0x41, 0xbb, 0x02, 0x00, 0x00, 0x00, 0xe9, 0x00, 0x00, 0x00, 0x00, 0x41, 0xbb, 0x01, 0x00, 0x00,
                0x00, 0xe9, 0x00, 0x00, 0x00, 0x00, 0x4c, 0x39, 0xe6, 0x0f, 0x84, 0x00, 0x00, 0x00, 0x00, 0x49,
                0x89, 0xc2, 0x4c, 0x01, 0xd8, 0x4d, 0x01, 0xd8, 0x49, 0xff, 0xc4, 0xe9, 0x00, 0x00, 0x00, 0x00,
                0x48, 0x89, 0xc0, 0x41, 0x5c, 0xc3, 0x4c, 0x39, 0xe6, 0x0f, 0x84, 0x00, 0x00, 0x00, 0x00, 0x48,
                0xc7, 0xc0, 0xff, 0xff, 0xff, 0xff, 0x41, 0x5c, 0xc3, 0x48, 0x89, 0xc0, 0x41, 0x5c, 0xc3,
            ],
        Utf8NavigationKind::NextOffset => seq![
                0x48u8, 0x85, 0xff, 0x0f, 0x84, 0x00, 0x00, 0x00, 0x00, 0x41, 0x54, 0x49, 0x89, 0xf8, 0x31, 0xc0,
                0x45, 0x31, 0xd2, 0x45, 0x31, 0xe4, 0x45, 0x8a, 0x08, 0x45, 0x84, 0xc9, 0x0f, 0x84, 0x00, 0x00,
                0x00, 0x00, 0x41, 0x80, 0xf9, 0x80, 0x0f, 0x82, 0x00, 0x00, 0x00, 0x00, 0x41, 0x80, 0xf9, 0xe0,
                0x0f, 0x82, 0x00, 0x00, 0x00, 0x00, 0x41, 0x80, 0xf9, 0xf0, 0x0f, 0x82, 0x00, 0x00, 0x00, 0x00,
                0x41, 0x80, 0xf9, 0xf5, 0x0f, 0x83, 0x00, 0x00, 0x00, 0x00, 0x41, 0xbb, 0x04, 0x00, 0x00, 0x00,
                0xe9, 0x00, 0x00, 0x00, 0x00, 0x41, 0xbb, 0x03, 0x00, 0x00, 0x00, 0xe9, 0x00, 0x00, 0x00, 0x00,
                0x41, 0xbb, 0x02, 0x00, 0x00, 0x00, 0xe9, 0x00, 0x00, 0x00, 0x00, 0x41, 0xbb, 0x01, 0x00, 0x00,
                0x00, 0xe9, 0x00, 0x00, 0x00, 0x00, 0x48, 0x39, 0xf0, 0x0f, 0x84, 0x00, 0x00, 0x00, 0x00, 0x48,
                0x89, 0xc2, 0x4c, 0x01, 0xda, 0x48, 0x39, 0xd6, 0x0f, 0x82, 0x00, 0x00, 0x00, 0x00, 0x49, 0x89,
                0xc2, 0x4c, 0x01, 0xd8, 0x4d, 0x01, 0xd8, 0x49, 0xff, 0xc4, 0xe9, 0x00, 0x00, 0x00, 0x00, 0x4c,
                0x01, 0xd8, 0x41, 0x5c, 0xc3, 0x48, 0x39, 0xf0, 0x0f, 0x84, 0x00, 0x00, 0x00, 0x00, 0x48, 0xc7,
                0xc0, 0xff, 0xff, 0xff, 0xff, 0x41, 0x5c, 0xc3, 0x48, 0x89, 0xc0, 0x41, 0x5c, 0xc3,
            ],
        Utf8NavigationKind::PrevOffset => seq![
                0x48u8, 0x85, 0xff, 0x0f, 0x84, 0x00, 0x00, 0x00, 0x00, 0x41, 0x54, 0x49, 0x89, 0xf8, 0x31, 0xc0,
                0x45, 0x31, 0xd2, 0x45, 0x31, 0xe4, 0x45, 0x8a, 0x08, 0x45, 0x84, 0xc9, 0x0f, 0x84, 0x00, 0x00,
                0x00, 0x00, 0x41, 0x80, 0xf9, 0x80, 0x0f, 0x82, 0x00, 0x00, 0x00, 0x00, 0x41, 0x80, 0xf9, 0xe0,
                0x0f, 0x82, 0x00, 0x00, 0x00, 0x00, 0x41, 0x80, 0xf9, 0xf0, 0x0f, 0x82, 0x00, 0x00, 0x00, 0x00,
                0x41, 0x80, 0xf9, 0xf5, 0x0f, 0x83, 0x00, 0x00, 0x00, 0x00, 0x41, 0xbb, 0x04, 0x00, 0x00, 0x00,
                0xe9, 0x00, 0x00, 0x00, 0x00, 0x41, 0xbb, 0x03, 0x00, 0x00, 0x00, 0xe9, 0x00, 0x00, 0x00, 0x00,
                0x41, 0xbb, 0x02, 0x00, 0x00, 0x00, 0xe9, 0x00, 0x00, 0x00, 0x00, 0x41, 0xbb, 0x01, 0x00, 0x00,
                0x00, 0xe9, 0x00, 0x00, 0x00, 0x00, 0x48, 0x39, 0xf0, 0x0f, 0x84, 0x00, 0x00, 0x00, 0x00, 0x48,
                0x89, 0xc2, 0x4c, 0x01, 0xda, 0x48, 0x39, 0xd6, 0x0f, 0x82, 0x00, 0x00, 0x00, 0x00, 0x49, 0x89,
                0xc2, 0x4c, 0x01, 0xd8, 0x4d, 0x01, 0xd8, 0x49, 0xff, 0xc4, 0xe9, 0x00, 0x00, 0x00, 0x00, 0x4c,
                0x89, 0xd0, 0x41, 0x5c, 0xc3, 0x48, 0x39, 0xf0, 0x0f, 0x84, 0x00, 0x00, 0x00, 0x00, 0x48, 0xc7,
                0xc0, 0xff, 0xff, 0xff, 0xff, 0x41, 0x5c, 0xc3, 0x4c, 0x89, 0xd0, 0x41, 0x5c, 0xc3,
            ],
        Utf8NavigationKind::IndexAt => seq![
                0x48u8, 0x85, 0xff, 0x0f, 0x84, 0x00, 0x00, 0x00, 0x00, 0x41, 0x54, 0x49, 0x89, 0xf8, 0x31, 0xc0,
                0x45, 0x31, 0xd2, 0x45, 0x31, 0xe4, 0x45, 0x8a, 0x08, 0x45, 0x84, 0xc9, 0x0f, 0x84, 0x00, 0x00,
                0x00, 0x00, 0x41, 0x80, 0xf9, 0x80, 0x0f, 0x82, 0x00, 0x00, 0x00, 0x00, 0x41, 0x80, 0xf9, 0xe0,
                0x0f, 0x82, 0x00, 0x00, 0x00, 0x00, 0x41, 0x80, 0xf9, 0xf0, 0x0f, 0x82, 0x00, 0x00, 0x00, 0x00,
                0x41, 0x80, 0xf9, 0xf5, 0x0f, 0x83, 0x00, 0x00, 0x00, 0x00, 0x41, 0xbb, 0x04, 0x00, 0x00, 0x00,
                0xe9, 0x00, 0x00, 0x00, 0x00, 0x41, 0xbb, 0x03, 0x00, 0x00, 0x00, 0xe9, 0x00, 0x00, 0x00, 0x00,
                0x41, 0xbb, 0x02, 0x00, 0x00, 0x00, 0xe9, 0x00, 0x00, 0x00, 0x00, 0x41, 0xbb, 0x01, 0x00, 0x00,
                0x00, 0xe9, 0x00, 0x00, 0x00, 0x00, 0x48, 0x39, 0xf0, 0x0f, 0x84, 0x00, 0x00, 0x00, 0x00, 0x48,
                0x89, 0xc2, 0x4c, 0x01, 0xda, 0x48, 0x39, 0xd6, 0x0f, 0x82, 0x00, 0x00, 0x00, 0x00, 0x49, 0x89,
                0xc2, 0x4c, 0x01, 0xd8, 0x4d, 0x01, 0xd8, 0x49, 0xff, 0xc4, 0xe9, 0x00, 0x00, 0x00, 0x00, 0x4c,
                0x89, 0xe0, 0x41, 0x5c, 0xc3, 0x48, 0x39, 0xf0, 0x0f, 0x84, 0x00, 0x00, 0x00, 0x00, 0x48, 0xc7,
                0xc0, 0xff, 0xff, 0xff, 0xff, 0x41, 0x5c, 0xc3, 0x4c, 0x89, 0xe0, 0x41, 0x5c, 0xc3,
            ],
        Utf8NavigationKind::IsBoundary => seq![
                0x48u8, 0x85, 0xff, 0x0f, 0x84, 0x00, 0x00, 0x00, 0x00, 0x41, 0x54, 0x49, 0x89, 0xf8, 0x31, 0xc0,
                0x45, 0x31, 0xd2, 0x45, 0x31, 0xe4, 0x45, 0x8a, 0x08, 0x45, 0x84, 0xc9, 0x0f, 0x84, 0x00, 0x00,
                0x00, 0x00, 0x41, 0x80, 0xf9, 0x80, 0x0f, 0x82, 0x00, 0x00, 0x00, 0x00, 0x41, 0x80, 0xf9, 0xe0,
                0x0f, 0x82, 0x00, 0x00, 0x00, 0x00, 0x41, 0x80, 0xf9, 0xf0, 0x0f, 0x82, 0x00, 0x00, 0x00, 0x00,
                0x41, 0x80, 0xf9, 0xf5, 0x0f, 0x83, 0x00, 0x00, 0x00, 0x00, 0x41, 0xbb, 0x04, 0x00, 0x00, 0x00,
                0xe9, 0x00, 0x00, 0x00, 0x00, 0x41, 0xbb, 0x03, 0x00, 0x00, 0x00, 0xe9, 0x00, 0x00, 0x00, 0x00,
                0x41, 0xbb, 0x02, 0x00, 0x00, 0x00, 0xe9, 0x00, 0x00, 0x00, 0x00, 0x41, 0xbb, 0x01, 0x00, 0x00,
                0x00, 0xe9, 0x00, 0x00, 0x00, 0x00, 0x48, 0x39, 0xf0, 0x0f, 0x84, 0x00, 0x00, 0x00, 0x00, 0x48,
                0x89, 0xc2, 0x4c, 0x01, 0xda, 0x48, 0x39, 0xd6, 0x0f, 0x82, 0x00, 0x00, 0x00, 0x00, 0x49, 0x89,
                0xc2, 0x4c, 0x01, 0xd8, 0x4d, 0x01, 0xd8, 0x49, 0xff, 0xc4, 0xe9, 0x00, 0x00, 0x00, 0x00, 0xb8,
                0x01, 0x00, 0x00, 0x00, 0x41, 0x5c, 0xc3, 0x48, 0x39, 0xf0, 0x0f, 0x84, 0x00, 0x00, 0x00, 0x00,
                0x31, 0xc0, 0x41, 0x5c, 0xc3, 0xb8, 0x01, 0x00, 0x00, 0x00, 0x41, 0x5c, 0xc3,
            ],
    }
}

/// The machine code of the Linux UTF-8 navigation routines.
pub closed spec fn string_utf8_navigation_code(kind: Utf8NavigationKind) -> Seq<u8> {
    match kind {
        Utf8NavigationKind::ByteOffset => seq![
                0x48u8, 0x85, 0xff, 0x0f, 0x84, 0x96, 0x00, 0x00, 0x00, 0x41, 0x54, 0x49, 0x89, 0xf8, 0x31, 0xc0,
                0x45, 0x31, 0xd2, 0x45, 0x31, 0xe4, 0x45, 0x8a, 0x08, 0x45, 0x84, 0xc9, 0x0f, 0x84, 0x74, 0x00,
                0x00, 0x00, 0x41, 0x80, 0xf9, 0x80, 0x0f, 0x82, 0x3f, 0x00, 0x00, 0x00, 0x41, 0x80, 0xf9, 0xe0,
                0x0f, 0x82, 0x2a, 0x00, 0x00, 0x00, 0x41, 0x80, 0xf9, 0xf0, 0x0f, 0x82, 0x15, 0x00, 0x00, 0x00,
                0x41, 0x80, 0xf9, 0xf5, 0x0f, 0x83, 0x55, 0x00, 0x00, 0x00, 0x41, 0xbb, 0x04, 0x00, 0x00, 0x00,
                0xe9, 0x21, 0x00, 0x00, 0x00, 0x41, 0xbb, 0x03, 0x00, 0x00, 0x00, 0xe9, 0x16, 0x00, 0x00, 0x00,
                0x41, 0xbb, 0x02, 0x00, 0x00, 0x00, 0xe9, 0x0b, 0x00, 0x00, 0x00, 0x41, 0xbb, 0x01, 0x00, 0x00,
                0x00, 0xe9, 0x00, 0x00, 0x00, 0x00, 0x4c, 0x39, 0xe6, 0x0f, 0x84, 0x11, 0x00, 0x00, 0x00, 0x49,
                0x89, 0xc2, 0x4c, 0x01, 0xd8, 0x4d, 0x01, 0xd8, 0x49, 0xff, 0xc4, 0xe9, 0x86, 0xff, 0xff, 0xff,
                0x48, 0x89, 0xc0, 0x41, 0x5c, 0xc3, 0x4c, 0x39, 0xe6, 0x0f, 0x84, 0x0a, 0x00, 0x00, 0x00, 0x48,
                0xc7, 0xc0, 0xff, 0xff, 0xff, 0xff, 0x41, 0x5c, 0xc3, 0x48, 0x89, 0xc0, 0x41, 0x5c, 0xc3,
            ],
        Utf8NavigationKind::NextOffset => seq![
                0x48u8, 0x85, 0xff, 0x0f, 0x84, 0xa5, 0x00, 0x00, 0x00, 0x41, 0x54, 0x49, 0x89, 0xf8, 0x31, 0xc0,
                0x45, 0x31, 0xd2, 0x45, 0x31, 0xe4, 0x45, 0x8a, 0x08, 0x45, 0x84, 0xc9, 0x0f, 0x84, 0x83, 0x00,
                0x00, 0x00, 0x41, 0x80, 0xf9, 0x80, 0x0f, 0x82, 0x3f, 0x00, 0x00, 0x00, 0x41, 0x80, 0xf9, 0xe0,
                0x0f, 0x82, 0x2a, 0x00, 0x00, 0x00, 0x41, 0x80, 0xf9, 0xf0, 0x0f, 0x82, 0x15, 0x00, 0x00, 0x00,
                0x41, 0x80, 0xf9, 0xf5, 0x0f, 0x83, 0x64, 0x00, 0x00, 0x00, 0x41, 0xbb, 0x04, 0x00, 0x00, 0x00,
                0xe9, 0x21, 0x00, 0x00, 0x00, 0x41, 0xbb, 0x03, 0x00, 0x00, 0x00, 0xe9, 0x16, 0x00, 0x00, 0x00,
                0x41, 0xbb, 0x02, 0x00, 0x00, 0x00, 0xe9, 0x0b, 0x00, 0x00, 0x00, 0x41, 0xbb, 0x01, 0x00, 0x00,
                0x00, 0xe9, 0x00, 0x00, 0x00, 0x00, 0x48, 0x39, 0xf0, 0x0f, 0x84, 0x20, 0x00, 0x00, 0x00, 0x48,
                0x89, 0xc2, 0x4c, 0x01, 0xda, 0x48, 0x39, 0xd6, 0x0f, 0x82, 0x20, 0x00, 0x00, 0x00, 0x49, 0x89,
                0xc2, 0x4c, 0x01, 0xd8, 0x4d, 0x01, 0xd8, 0x49, 0xff, 0xc4, 0xe9, 0x77, 0xff, 0xff, 0xff, 0x4c,
                0x01, 0xd8, 0x41, 0x5c, 0xc3, 0x48, 0x39, 0xf0, 0x0f, 0x84, 0x0a, 0x00, 0x00, 0x00, 0x48, 0xc7,
                0xc0, 0xff, 0xff, 0xff, 0xff, 0x41, 0x5c, 0xc3, 0x48, 0x89, 0xc0, 0x41, 0x5c, 0xc3,
            ],
        Utf8NavigationKind::PrevOffset => seq![
                0x48u8, 0x85, 0xff, 0x0f, 0x84, 0xa5, 0x00, 0x00, 0x00, 0x41, 0x54, 0x49, 0x89, 0xf8, 0x31, 0xc0,
                0x45, 0x31, 0xd2, 0x45, 0x31, 0xe4, 0x45, 0x8a, 0x08, 0x45, 0x84, 0xc9, 0x0f, 0x84, 0x83, 0x00,
                0x00, 0x00, 0x41, 0x80, 0xf9, 0x80, 0x0f, 0x82, 0x3f, 0x00, 0x00, 0x00, 0x41, 0x80, 0xf9, 0xe0,
                0x0f, 0x82, 0x2a, 0x00, 0x00, 0x00, 0x41, 0x80, 0xf9, 0xf0, 0x0f, 0x82, 0x15, 0x00, 0x00, 0x00,
                0x41, 0x80, 0xf9, 0xf5, 0x0f, 0x83, 0x64, 0x00, 0x00, 0x00, 0x41, 0xbb, 0x04, 0x00, 0x00, 0x00,
                0xe9, 0x21, 0x00, 0x00, 0x00, 0x41, 0xbb, 0x03, 0x00, 0x00, 0x00, 0xe9, 0x16, 0x00, 0x00, 0x00,
                0x41, 0xbb, 0x02, 0x00, 0x00, 0x00, 0xe9, 0x0b, 0x00, 0x00, 0x00, 0x41, 0xbb, 0x01, 0x00, 0x00,
                0x00, 0xe9, 0x00, 0x00, 0x00, 0x00, 0x48, 0x39, 0xf0, 0x0f, 0x84, 0x20, 0x00, 0x00, 0x00, 0x48,
                0x89, 0xc2, 0x4c, 0x01, 0xda, 0x48, 0x39, 0xd6, 0x0f, 0x82, 0x20, 0x00, 0x00, 0x00, 0x49, 0x89,
                0xc2, 0x4c, 0x01, 0xd8, 0x4d, 0x01, 0xd8, 0x49, 0xff, 0xc4, 0xe9, 0x77, 0xff, 0xff, 0xff, 0x4c,
                0x89, 0xd0, 0x41, 0x5c, 0xc3, 0x48, 0x39, 0xf0, 0x0f, 0x84, 0x0a, 0x00, 0x00, 0x00, 0x48, 0xc7,
                0xc0, 0xff, 0xff, 0xff, 0xff, 0x41, 0x5c, 0xc3, 0x4c, 0x89, 0xd0, 0x41, 0x5c, 0xc3,
            ],
        Utf8NavigationKind::IndexAt => seq![
                0x48u8, 0x85, 0xff, 0x0f, 0x84, 0xa5, 0x00, 0x00, 0x00, 0x41, 0x54, 0x49, 0x89, 0xf8, 0x31, 0xc0,
                0x45, 0x31, 0xd2, 0x45, 0x31, 0xe4, 0x45, 0x8a, 0x08, 0x45, 0x84, 0xc9, 0x0f, 0x84, 0x83, 0x00,
                0x00, 0x00, 0x41, 0x80, 0xf9, 0x80, 0x0f, 0x82, 0x3f, 0x00, 0x00, 0x00, 0x41, 0x80, 0xf9, 0xe0,
                0x0f, 0x82, 0x2a, 0x00, 0x00, 0x00, 0x41, 0x80, 0xf9, 0xf0, 0x0f, 0x82, 0x15, 0x00, 0x00, 0x00,
                0x41, 0x80, 0xf9, 0xf5, 0x0f, 0x83, 0x64, 0x00, 0x00, 0x00, 0x41, 0xbb, 0x04, 0x00, 0x00, 0x00,
                0xe9, 0x21, 0x00, 0x00, 0x00, 0x41, 0xbb, 0x03, 0x00, 0x00, 0x00, 0xe9, 0x16, 0x00, 0x00, 0x00,
                0x41, 0xbb, 0x02, 0x00, 0x00, 0x00, 0xe9, 0x0b, 0x00, 0x00, 0x00, 0x41, 0xbb, 0x01, 0x00, 0x00,
                0x00, 0xe9, 0x00, 0x00, 0x00, 0x00, 0x48, 0x39, 0xf0, 0x0f, 0x84, 0x20, 0x00, 0x00, 0x00, 0x48,
                0x89, 0xc2, 0x4c, 0x01, 0xda, 0x48, 0x39, 0xd6, 0x0f, 0x82, 0x20, 0x00, 0x00, 0x00, 0x49, 0x89,
                0xc2, 0x4c, 0x01, 0xd8, 0x4d, 0x01, 0xd8, 0x49, 0xff, 0xc4, 0xe9, 0x77, 0xff, 0xff, 0xff, 0x4c,
                0x89, 0xe0, 0x41, 0x5c, 0xc3, 0x48, 0x39, 0xf0, 0x0f, 0x84, 0x0a, 0x00, 0x00, 0x00, 0x48, 0xc7,
                0xc0, 0xff, 0xff, 0xff, 0xff, 0x41, 0x5c, 0xc3, 0x4c, 0x89, 0xe0, 0x41, 0x5c, 0xc3,
            ],
        Utf8NavigationKind::IsBoundary => seq![
                0x48u8, 0x85, 0xff, 0x0f, 0x84, 0xa7, 0x00, 0x00, 0x00, 0x41, 0x54, 0x49, 0x89, 0xf8, 0x31, 0xc0,
                0x45, 0x31, 0xd2, 0x45, 0x31, 0xe4, 0x45, 0x8a, 0x08, 0x45, 0x84, 0xc9, 0x0f, 0x84, 0x85, 0x00,
                0x00, 0x00, 0x41, 0x80, 0xf9, 0x80, 0x0f, 0x82, 0x3f, 0x00, 0x00, 0x00, 0x41, 0x80, 0xf9, 0xe0,
                0x0f, 0x82, 0x2a, 0x00, 0x00, 0x00, 0x41, 0x80, 0xf9, 0xf0, 0x0f, 0x82, 0x15, 0x00, 0x00, 0x00,
                0x41, 0x80, 0xf9, 0xf5, 0x0f, 0x83, 0x66, 0x00, 0x00, 0x00, 0x41, 0xbb, 0x04, 0x00, 0x00, 0x00,
                0xe9, 0x21, 0x00, 0x00, 0x00, 0x41, 0xbb, 0x03, 0x00, 0x00, 0x00, 0xe9, 0x16, 0x00, 0x00, 0x00,
                0x41, 0xbb, 0x02, 0x00, 0x00, 0x00, 0xe9, 0x0b, 0x00, 0x00, 0x00, 0x41, 0xbb, 0x01, 0x00, 0x00,
                0x00, 0xe9, 0x00, 0x00, 0x00, 0x00, 0x48, 0x39, 0xf0, 0x0f, 0x84, 0x20, 0x00, 0x00, 0x00, 0x48,
                0x89, 0xc2, 0x4c, 0x01, 0xda, 0x48, 0x39, 0xd6, 0x0f, 0x82, 0x22, 0x00, 0x00, 0x00, 0x49, 0x89,
                0xc2, 0x4c, 0x01, 0xd8, 0x4d, 0x01, 0xd8, 0x49, 0xff, 0xc4, 0xe9, 0x77, 0xff, 0xff, 0xff, 0xb8,
                0x01, 0x00, 0x00, 0x00, 0x41, 0x5c, 0xc3, 0x48, 0x39, 0xf0, 0x0f, 0x84, 0x05, 0x00, 0x00, 0x00,
                0x31, 0xc0, 0x41, 0x5c, 0xc3, 0xb8, 0x01, 0x00, 0x00, 0x00, 0x41, 0x5c, 0xc3,
            ],
    }
}

/// Appends a navigation routine with empty jumps and returns where its labels lie.
#[verifier::spinoff_prover]
#[verifier::rlimit(100)]
fn emit_navigation_skeleton(routine: &mut Vec<u8>, kind: Utf8NavigationKind) -> (labels: NavigationLabels)
    requires
        old(routine)@.len() == 0,
    ensures
        final(routine)@ == navigation_skeleton(kind),
        labels == navigation_labels(kind),
{
    push_bytes(routine, &[0x48, 0x85, 0xff]);
    let null_value = emit_near_jump_placeholder(routine, 0x0f, 0x84);
    push_bytes(routine, &[0x41, 0x54]);
    push_bytes(routine, &[0x49, 0x89, 0xf8, 0x31, 0xc0, 0x45, 0x31, 0xd2, 0x45, 0x31, 0xe4]);
    let loop_start = routine.len();
    push_bytes(routine, &[0x45, 0x8a, 0x08, 0x45, 0x84, 0xc9]);
    let end = emit_near_jump_placeholder(routine, 0x0f, 0x84);
    push_bytes(routine, &[0x41, 0x80, 0xf9, 0x80]);
    let width_one = emit_near_jump_placeholder(routine, 0x0f, 0x82);
    push_bytes(routine, &[0x41, 0x80, 0xf9, 0xe0]);
    let width_two = emit_near_jump_placeholder(routine, 0x0f, 0x82);
    push_bytes(routine, &[0x41, 0x80, 0xf9, 0xf0]);
    let width_three = emit_near_jump_placeholder(routine, 0x0f, 0x82);
    push_bytes(routine, &[0x41, 0x80, 0xf9, 0xf5]);
    let invalid = emit_near_jump_placeholder(routine, 0x0f, 0x83);

    push_bytes(routine, &[0x41, 0xbb, 0x04, 0x00, 0x00, 0x00]);
    let width_four_loop = emit_near_unconditional_placeholder(routine);
    let width_three_target = routine.len();
    push_bytes(routine, &[0x41, 0xbb, 0x03, 0x00, 0x00, 0x00]);
    let width_three_loop = emit_near_unconditional_placeholder(routine);
    let width_two_target = routine.len();
    push_bytes(routine, &[0x41, 0xbb, 0x02, 0x00, 0x00, 0x00]);
    let width_two_loop = emit_near_unconditional_placeholder(routine);
    let width_one_target = routine.len();
    push_bytes(routine, &[0x41, 0xbb, 0x01, 0x00, 0x00, 0x00]);
    let width_one_loop = emit_near_unconditional_placeholder(routine);
    let width_ready = routine.len();

    let (boundary, inside) = if matches!(kind, Utf8NavigationKind::ByteOffset) {
        push_bytes(routine, &[0x4c, 0x39, 0xe6]);
        (Some(emit_near_jump_placeholder(routine, 0x0f, 0x84)), None)
    } else {
        push_bytes(routine, &[0x48, 0x39, 0xf0]);
        let boundary = emit_near_jump_placeholder(routine, 0x0f, 0x84);
        push_bytes(routine, &[0x48, 0x89, 0xc2, 0x4c, 0x01, 0xda, 0x48, 0x39, 0xd6]);
        (Some(boundary), Some(emit_near_jump_placeholder(routine, 0x0f, 0x82)))
    };
    push_bytes(routine, &[0x49, 0x89, 0xc2, 0x4c, 0x01, 0xd8, 0x4d, 0x01, 0xd8, 0x49, 0xff, 0xc4]);
    let advance = emit_near_unconditional_placeholder(routine);

    let boundary_target = routine.len();
    emit_navigation_result(routine, kind, true);
    let end_target = routine.len();
    if matches!(kind, Utf8NavigationKind::ByteOffset) {
        push_bytes(routine, &[0x4c, 0x39, 0xe6]);
    } else {
        push_bytes(routine, &[0x48, 0x39, 0xf0]);
    }
    let end_match = emit_near_jump_placeholder(routine, 0x0f, 0x84);
    let failure = routine.len();
    emit_navigation_failure(routine, kind);
    let success = routine.len();
    emit_navigation_result(routine, kind, false);
    proof {
        match kind {

            Utf8NavigationKind::ByteOffset => assert(routine@ =~= navigation_skeleton(kind)),
            Utf8NavigationKind::NextOffset => assert(routine@ =~= navigation_skeleton(kind)),
            Utf8NavigationKind::PrevOffset => assert(routine@ =~= navigation_skeleton(kind)),
            Utf8NavigationKind::IndexAt => assert(routine@ =~= navigation_skeleton(kind)),
            Utf8NavigationKind::IsBoundary => assert(routine@ =~= navigation_skeleton(kind)),
        }
    }
    NavigationLabels {
        null_value,
        loop_start,
        end,
        width_one,
        width_two,
        width_three,
        invalid,
        width_four_loop,
        width_three_target,
        width_three_loop,
        width_two_target,
        width_two_loop,
        width_one_target,
        width_one_loop,
        width_ready,
        boundary,
        inside,
        advance,
        boundary_target,
        end_target,
        end_match,
        failure,
        success,
    }
}

/// Fills in the jumps of a navigation routine.
#[verifier::spinoff_prover]
#[verifier::rlimit(100)]
fn patch_navigation_jumps(routine: &mut Vec<u8>, kind: Utf8NavigationKind, labels: &NavigationLabels)
    requires
        old(routine)@ == navigation_skeleton(kind),
        *labels == navigation_labels(kind),
    ensures
        final(routine)@ == string_utf8_navigation_code(kind),
{
    patch_jump(routine, labels.null_value, labels.failure);
    patch_jump(routine, labels.end, labels.end_target);
    patch_jump(routine, labels.end_match, labels.success);
    patch_jump(routine, labels.invalid, labels.failure);
    patch_jump(routine, labels.advance, labels.loop_start);
    patch_jump(routine, labels.width_one, labels.width_one_target);
    patch_jump(routine, labels.width_two, labels.width_two_target);
    patch_jump(routine, labels.width_three, labels.width_three_target);
    patch_jump(routine, labels.width_four_loop, labels.width_ready);
    patch_jump(routine, labels.width_three_loop, labels.width_ready);
    patch_jump(routine, labels.width_two_loop, labels.width_ready);
    patch_jump(routine, labels.width_one_loop, labels.width_ready);
    if let Some(boundary) = labels.boundary {
        patch_jump(routine, boundary, labels.boundary_target);
    }
    if let Some(inside) = labels.inside {
        patch_jump(routine, inside, labels.failure);
    }
    proof {
        match kind {
            Utf8NavigationKind::ByteOffset => assert(routine@ =~= string_utf8_navigation_code(kind)),
            Utf8NavigationKind::NextOffset => assert(routine@ =~= string_utf8_navigation_code(kind)),
            Utf8NavigationKind::PrevOffset => assert(routine@ =~= string_utf8_navigation_code(kind)),
            Utf8NavigationKind::IndexAt => assert(routine@ =~= string_utf8_navigation_code(kind)),
            Utf8NavigationKind::IsBoundary => assert(routine@ =~= string_utf8_navigation_code(kind)),
        }
    }
}

/// Appends a UTF-8 navigation routine.
pub(crate) fn emit_string_utf8_navigation_runtime(code: &mut Vec<u8>, kind: Utf8NavigationKind)
    ensures
        final(code)@ == old(code)@ + string_utf8_navigation_code(kind),
{
    let mut routine: Vec<u8> = Vec::new();
    let labels = emit_navigation_skeleton(&mut routine, kind);
    patch_navigation_jumps(&mut routine, kind, &labels);
    push_bytes(code, routine.as_slice());
}

/// How long the navigation routines are.
pub proof fn lemma_navigation_length(kind: Utf8NavigationKind)
    ensures
        string_utf8_navigation_code(kind).len() <= 512,
        kind == Utf8NavigationKind::ByteOffset ==> string_utf8_navigation_code(kind).len() <= 192,
{
    match kind {
        Utf8NavigationKind::ByteOffset => assert(string_utf8_navigation_code(kind).len() == 175),
        Utf8NavigationKind::NextOffset => assert(string_utf8_navigation_code(kind).len() == 190),
        Utf8NavigationKind::PrevOffset => assert(string_utf8_navigation_code(kind).len() == 190),
        Utf8NavigationKind::IndexAt => assert(string_utf8_navigation_code(kind).len() == 190),
        Utf8NavigationKind::IsBoundary => assert(string_utf8_navigation_code(kind).len() == 189),
    }
}


/// The machine code of the Linux routine at position `at` that slices a string by character
/// indices: it finds both byte offsets with the routine at `byte_offset`, clamps a missing
/// end to the string's length from the routine at `string_len`, and copies the bytes with
/// the routine at `string_slice`; null where the range is invalid.
pub closed spec fn string_utf8_slice_code(at: int, byte_offset: int, string_len: int, string_slice: int) -> Seq<u8> {
    seq![
        0x48u8, 0x83, 0xec, 0x38, 0x48, 0x89, 0x3c, 0x24, 0x48, 0x89, 0x74, 0x24, 0x08, 0x48, 0x89, 0x54,
        0x24, 0x10, 0x48, 0x8b, 0x3c, 0x24, 0x48, 0x8b, 0x74, 0x24, 0x08, 0xe8,
    ]
        + rel32_bytes(byte_offset - (at + 32))
        + seq![
        0x48u8, 0x83, 0xf8, 0xff, 0x0f, 0x84, 0x61, 0x00, 0x00, 0x00, 0x48, 0x89, 0x44, 0x24, 0x18, 0x48,
        0x8b, 0x3c, 0x24, 0x48, 0x8b, 0x74, 0x24, 0x10, 0xe8,
    ]
        + rel32_bytes(byte_offset - (at + 61))
        + seq![
        0x48u8, 0x83, 0xf8, 0xff, 0x0f, 0x84, 0x0a, 0x00, 0x00, 0x00, 0x48, 0x89, 0x44, 0x24, 0x20, 0xe9,
        0x0f, 0x00, 0x00, 0x00, 0x48, 0x8b, 0x7c, 0x24, 0x00, 0xe8,
    ]
        + rel32_bytes(string_len - (at + 91))
        + seq![
        0x48u8, 0x89, 0x44, 0x24, 0x20, 0x48, 0x8b, 0x44, 0x24, 0x20, 0x48, 0x3b, 0x44, 0x24, 0x18, 0x0f,
        0x82, 0x1b, 0x00, 0x00, 0x00, 0x48, 0x2b, 0x44, 0x24, 0x18, 0x48, 0x8b, 0x3c, 0x24, 0x48, 0x8b,
        0x74, 0x24, 0x18, 0x48, 0x89, 0xc2, 0xe8,
    ]
        + rel32_bytes(string_slice - (at + 134))
        + seq![0x48u8, 0x83, 0xc4, 0x38, 0xc3, 0x31, 0xc0, 0x48, 0x83, 0xc4, 0x38, 0xc3]
}

#[verifier::spinoff_prover]
#[verifier::rlimit(100)]
pub(crate) fn emit_string_utf8_slice_runtime(
    code: &mut Vec<u8>,
    byte_offset_target: usize,
    string_len_target: usize,
    string_slice_target: usize,
)
    requires
        has_room(old(code)@),
        byte_offset_target < 0x1000_0000,
        string_len_target < 0x1000_0000,
        string_slice_target < 0x1000_0000,
    ensures
        final(code)@ == old(code)@ + string_utf8_slice_code(
            old(code)@.len() as int,
            byte_offset_target as int,
            string_len_target as int,
            string_slice_target as int,
        ),
{
    push_bytes(
        code,
        &[
            0x48, 0x83, 0xec, 0x38,
            0x48, 0x89, 0x3c, 0x24, 0x48, 0x89, 0x74, 0x24, 0x08, 0x48, 0x89, 0x54, 0x24, 0x10,
            0x48, 0x8b, 0x3c, 0x24, 0x48, 0x8b, 0x74, 0x24, 0x08,
        ],
    );
    emit_internal_call(code, byte_offset_target);
    push_bytes(code, &[0x48, 0x83, 0xf8, 0xff]);
    let start_failed = emit_near_jump_placeholder(code, 0x0f, 0x84);
    push_bytes(
        code,
        &[
            0x48, 0x89, 0x44, 0x24, 0x18,
            0x48, 0x8b, 0x3c, 0x24, 0x48, 0x8b, 0x74, 0x24, 0x10,
        ],
    );
    emit_internal_call(code, byte_offset_target);
    push_bytes(code, &[0x48, 0x83, 0xf8, 0xff]);
    let end_clamp = emit_near_jump_placeholder(code, 0x0f, 0x84);
    push_bytes(code, &[0x48, 0x89, 0x44, 0x24, 0x20]);
    let skip_end_clamp = emit_near_unconditional_placeholder(code);
    let end_clamp_target = code.len();
    push_bytes(code, &[0x48, 0x8b, 0x7c, 0x24, 0x00]);
    emit_internal_call(code, string_len_target);
    push_bytes(code, &[0x48, 0x89, 0x44, 0x24, 0x20]);
    let end_ready = code.len();
    push_bytes(code, &[0x48, 0x8b, 0x44, 0x24, 0x20, 0x48, 0x3b, 0x44, 0x24, 0x18]);
    let invalid_range = emit_near_jump_placeholder(code, 0x0f, 0x82);
    push_bytes(
        code,
        &[
            0x48, 0x2b, 0x44, 0x24, 0x18,
            0x48, 0x8b, 0x3c, 0x24, 0x48, 0x8b, 0x74, 0x24, 0x18, 0x48, 0x89, 0xc2,
        ],
    );
    emit_internal_call(code, string_slice_target);
    push_bytes(code, &[0x48, 0x83, 0xc4, 0x38, 0xc3]);
    let failure = code.len();
    push_bytes(code, &[0x31, 0xc0, 0x48, 0x83, 0xc4, 0x38, 0xc3]);
    patch_near_jump(code, start_failed, failure);
    patch_near_jump(code, end_clamp, end_clamp_target);
    patch_near_jump(code, skip_end_clamp, end_ready);
    patch_near_jump(code, invalid_range, failure);
    assert(code@ =~= old(code)@ + string_utf8_slice_code(
        old(code)@.len() as int,
        byte_offset_target as int,
        string_len_target as int,
        string_slice_target as int,
    ));
}

/// The machine code of the Linux routine at position `at` that takes the character at an
/// index as a one-character string, through the slicing routine at `slice`.
pub closed spec fn string_utf8_char_at_code(at: int, slice: int) -> Seq<u8> {
    seq![0x48u8, 0x89, 0xf2, 0x48, 0xff, 0xc2, 0xe8] + rel32_bytes(slice - (at + 11)) + seq![0xc3u8]
}

pub(crate) fn emit_string_utf8_char_at_runtime(code: &mut Vec<u8>, slice_target: usize)
    requires
        has_room(old(code)@),
        slice_target < 0x1000_0000,
    ensures
        final(code)@ == old(code)@ + string_utf8_char_at_code(old(code)@.len() as int, slice_target as int),
{
    push_bytes(code, &[0x48, 0x89, 0xf2, 0x48, 0xff, 0xc2]);
    emit_internal_call(code, slice_target);
    code.push(0xc3);
    assert(code@ =~= old(code)@ + string_utf8_char_at_code(old(code)@.len() as int, slice_target as int));
}

/// How long the slicing routines are.
pub proof fn lemma_slice_lengths()
    ensures
        forall|at: int, b: int, l: int, s: int| #[trigger] string_utf8_slice_code(at, b, l, s).len() <= 160,
        forall|at: int, s: int| #[trigger] string_utf8_char_at_code(at, s).len() <= 16,
{
}

} // verus!
