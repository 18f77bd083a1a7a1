//! The helper routines of compiled Windows images that the position-independent set in
//! `pe_helpers` does not hold: allocation, files and the console, and the remaining string,
//! array and memory routines.
//!
//! Each routine is a fixed byte sequence with every internal jump resolved; where it calls
//! through the import address table, or reaches another routine or a data address, the
//! operand is the 32-bit distance from the end of the operand to that address.
use vstd::prelude::*;
use crate::bytes::{push_bytes, push_i32};
use crate::pe::{rel32_to, slots_below, Layout};

verus! {

/// The addresses the routines reach stay below 2^30, so every operand fits in `i32`.
pub open spec fn routine_targets(l: Layout) -> bool {
    &&& l.text_rva < 0x1000_0000
    &&& l.written_rva < 0x4000_0000
    &&& slots_below(l, 0x4000_0000)
}

/// Appends the 32-bit distance from the end of the appended operand to `target`.
pub(crate) fn emit_rel32(code: &mut Vec<u8>, text_rva: u32, target: u32)
    requires
        old(code)@.len() < 0x3000_0000,
        text_rva < 0x1000_0000,
        target < 0x4000_0000,
    ensures
        final(code)@ == old(code)@ + rel32_to(target as int, (text_rva + old(code)@.len() + 4) as nat),
{
    let next: u32 = text_rva + code.len() as u32 + 4;
    push_i32(code, (target as i64 - next as i64) as i32);
}

/// The machine code of the Windows `string_utf8_codepoint_at` helper routine.
pub open spec fn string_utf8_codepoint_at_code() -> Seq<u8> {
    seq![
        0x48u8, 0x85, 0xc9, 0x0f, 0x84, 0x0e, 0x01, 0x00, 0x00, 0x49, 0x89, 0xc8, 0x45, 0x31, 0xc9, 0x45,
        0x8a, 0x10, 0x45, 0x84, 0xd2, 0x0f, 0x84, 0xfc, 0x00, 0x00, 0x00, 0x49, 0x39, 0xd1, 0x0f, 0x85,
        0x95, 0x00, 0x00, 0x00, 0x41, 0x80, 0xfa, 0x80, 0x0f, 0x82, 0x49, 0x00, 0x00, 0x00, 0x41, 0x80,
        0xfa, 0xe0, 0x0f, 0x82, 0x44, 0x00, 0x00, 0x00, 0x41, 0x80, 0xfa, 0xf0, 0x0f, 0x82, 0x51, 0x00,
        0x00, 0x00, 0x41, 0x0f, 0xb6, 0xc2, 0x83, 0xe0, 0x07, 0xc1, 0xe0, 0x06, 0x45, 0x0f, 0xb6, 0x58,
        0x01, 0x41, 0x83, 0xe3, 0x3f, 0x44, 0x09, 0xd8, 0xc1, 0xe0, 0x06, 0x45, 0x0f, 0xb6, 0x58, 0x02,
        0x41, 0x83, 0xe3, 0x3f, 0x44, 0x09, 0xd8, 0xc1, 0xe0, 0x06, 0x45, 0x0f, 0xb6, 0x58, 0x03, 0x41,
        0x83, 0xe3, 0x3f, 0x44, 0x09, 0xd8, 0xc3, 0x41, 0x0f, 0xb6, 0xc2, 0xc3, 0x41, 0x0f, 0xb6, 0xc2,
        0x83, 0xe0, 0x1f, 0xc1, 0xe0, 0x06, 0x45, 0x0f, 0xb6, 0x58, 0x01, 0x41, 0x83, 0xe3, 0x3f, 0x44,
        0x09, 0xd8, 0xc3, 0x41, 0x0f, 0xb6, 0xc2, 0x83, 0xe0, 0x0f, 0xc1, 0xe0, 0x06, 0x45, 0x0f, 0xb6,
        0x58, 0x01, 0x41, 0x83, 0xe3, 0x3f, 0x44, 0x09, 0xd8, 0xc1, 0xe0, 0x06, 0x45, 0x0f, 0xb6, 0x58,
        0x02, 0x41, 0x83, 0xe3, 0x3f, 0x44, 0x09, 0xd8, 0xc3, 0x41, 0x80, 0xfa, 0x80, 0x0f, 0x82, 0x44,
        0x00, 0x00, 0x00, 0x41, 0x80, 0xfa, 0xe0, 0x0f, 0x82, 0x2a, 0x00, 0x00, 0x00, 0x41, 0x80, 0xfa,
        0xf0, 0x0f, 0x82, 0x10, 0x00, 0x00, 0x00, 0x49, 0x83, 0xc0, 0x04, 0x49, 0xff, 0xc1, 0x45, 0x39,
        0xc9, 0x0f, 0x84, 0x28, 0xff, 0xff, 0xff, 0x49, 0x83, 0xc0, 0x03, 0x49, 0xff, 0xc1, 0x45, 0x39,
        0xc9, 0x0f, 0x84, 0x18, 0xff, 0xff, 0xff, 0x49, 0x83, 0xc0, 0x02, 0x49, 0xff, 0xc1, 0x45, 0x39,
        0xc9, 0x0f, 0x84, 0x08, 0xff, 0xff, 0xff, 0x49, 0x83, 0xc0, 0x01, 0x49, 0xff, 0xc1, 0x45, 0x39,
        0xc9, 0x0f, 0x84, 0xf8, 0xfe, 0xff, 0xff, 0x48, 0xc7, 0xc0, 0xff, 0xff, 0xff, 0xff, 0xc3,
    ]
}

pub(crate) fn emit_string_utf8_codepoint_at_helper(code: &mut Vec<u8>)
    ensures
        final(code)@ == old(code)@ + string_utf8_codepoint_at_code(),
        final(code)@.len() == old(code)@.len() + 287,
{
    let ghost start = code@;
    push_bytes(
        code,
        &[
            0x48, 0x85, 0xc9, 0x0f, 0x84, 0x0e, 0x01, 0x00, 0x00, 0x49, 0x89, 0xc8, 0x45, 0x31, 0xc9, 0x45,
            0x8a, 0x10, 0x45, 0x84, 0xd2, 0x0f, 0x84, 0xfc, 0x00, 0x00, 0x00, 0x49, 0x39, 0xd1, 0x0f, 0x85,
            0x95, 0x00, 0x00, 0x00, 0x41, 0x80, 0xfa, 0x80, 0x0f, 0x82, 0x49, 0x00, 0x00, 0x00, 0x41, 0x80,
            0xfa, 0xe0, 0x0f, 0x82, 0x44, 0x00, 0x00, 0x00, 0x41, 0x80, 0xfa, 0xf0, 0x0f, 0x82, 0x51, 0x00,
            0x00, 0x00, 0x41, 0x0f, 0xb6, 0xc2, 0x83, 0xe0, 0x07, 0xc1, 0xe0, 0x06, 0x45, 0x0f, 0xb6, 0x58,
            0x01, 0x41, 0x83, 0xe3, 0x3f, 0x44, 0x09, 0xd8, 0xc1, 0xe0, 0x06, 0x45, 0x0f, 0xb6, 0x58, 0x02,
            0x41, 0x83, 0xe3, 0x3f, 0x44, 0x09, 0xd8, 0xc1, 0xe0, 0x06, 0x45, 0x0f, 0xb6, 0x58, 0x03, 0x41,
            0x83, 0xe3, 0x3f, 0x44, 0x09, 0xd8, 0xc3, 0x41, 0x0f, 0xb6, 0xc2, 0xc3, 0x41, 0x0f, 0xb6, 0xc2,
            0x83, 0xe0, 0x1f, 0xc1, 0xe0, 0x06, 0x45, 0x0f, 0xb6, 0x58, 0x01, 0x41, 0x83, 0xe3, 0x3f, 0x44,
            0x09, 0xd8, 0xc3, 0x41, 0x0f, 0xb6, 0xc2, 0x83, 0xe0, 0x0f, 0xc1, 0xe0, 0x06, 0x45, 0x0f, 0xb6,
            0x58, 0x01, 0x41, 0x83, 0xe3, 0x3f, 0x44, 0x09, 0xd8, 0xc1, 0xe0, 0x06, 0x45, 0x0f, 0xb6, 0x58,
            0x02, 0x41, 0x83, 0xe3, 0x3f, 0x44, 0x09, 0xd8, 0xc3, 0x41, 0x80, 0xfa, 0x80, 0x0f, 0x82, 0x44,
            0x00, 0x00, 0x00, 0x41, 0x80, 0xfa, 0xe0, 0x0f, 0x82, 0x2a, 0x00, 0x00, 0x00, 0x41, 0x80, 0xfa,
            0xf0, 0x0f, 0x82, 0x10, 0x00, 0x00, 0x00, 0x49, 0x83, 0xc0, 0x04, 0x49, 0xff, 0xc1, 0x45, 0x39,
            0xc9, 0x0f, 0x84, 0x28, 0xff, 0xff, 0xff, 0x49, 0x83, 0xc0, 0x03, 0x49, 0xff, 0xc1, 0x45, 0x39,
            0xc9, 0x0f, 0x84, 0x18, 0xff, 0xff, 0xff, 0x49, 0x83, 0xc0, 0x02, 0x49, 0xff, 0xc1, 0x45, 0x39,
            0xc9, 0x0f, 0x84, 0x08, 0xff, 0xff, 0xff, 0x49, 0x83, 0xc0, 0x01, 0x49, 0xff, 0xc1, 0x45, 0x39,
            0xc9, 0x0f, 0x84, 0xf8, 0xfe, 0xff, 0xff, 0x48, 0xc7, 0xc0, 0xff, 0xff, 0xff, 0xff, 0xc3,
        ],
    );
    assert(code@ =~= start + string_utf8_codepoint_at_code());
}

/// The machine code of the Windows `string_utf8_byte_offset` helper routine.
pub open spec fn string_utf8_byte_offset_code() -> Seq<u8> {
    seq![
        0x48u8, 0x85, 0xc9, 0x0f, 0x84, 0x99, 0x00, 0x00, 0x00, 0x41, 0x54, 0x49, 0x89, 0xc8, 0x48, 0x89,
        0xd6, 0x31, 0xc0, 0x45, 0x31, 0xd2, 0x45, 0x31, 0xe4, 0x45, 0x8a, 0x08, 0x45, 0x84, 0xc9, 0x0f,
        0x84, 0x74, 0x00, 0x00, 0x00, 0x41, 0x80, 0xf9, 0x80, 0x0f, 0x82, 0x3f, 0x00, 0x00, 0x00, 0x41,
        0x80, 0xf9, 0xe0, 0x0f, 0x82, 0x2a, 0x00, 0x00, 0x00, 0x41, 0x80, 0xf9, 0xf0, 0x0f, 0x82, 0x15,
        0x00, 0x00, 0x00, 0x41, 0x80, 0xf9, 0xf5, 0x0f, 0x83, 0x55, 0x00, 0x00, 0x00, 0x41, 0xbb, 0x04,
        0x00, 0x00, 0x00, 0xe9, 0x21, 0x00, 0x00, 0x00, 0x41, 0xbb, 0x03, 0x00, 0x00, 0x00, 0xe9, 0x16,
        0x00, 0x00, 0x00, 0x41, 0xbb, 0x02, 0x00, 0x00, 0x00, 0xe9, 0x0b, 0x00, 0x00, 0x00, 0x41, 0xbb,
        0x01, 0x00, 0x00, 0x00, 0xe9, 0x00, 0x00, 0x00, 0x00, 0x4c, 0x39, 0xe6, 0x0f, 0x84, 0x11, 0x00,
        0x00, 0x00, 0x49, 0x89, 0xc2, 0x4c, 0x01, 0xd8, 0x4d, 0x01, 0xd8, 0x49, 0xff, 0xc4, 0xe9, 0x86,
        0xff, 0xff, 0xff, 0x48, 0x89, 0xc0, 0x41, 0x5c, 0xc3, 0x4c, 0x39, 0xe6, 0x0f, 0x84, 0x0a, 0x00,
        0x00, 0x00, 0x48, 0xc7, 0xc0, 0xff, 0xff, 0xff, 0xff, 0x41, 0x5c, 0xc3, 0x48, 0x89, 0xc0, 0x41,
        0x5c, 0xc3,
    ]
}

pub(crate) fn emit_string_utf8_byte_offset_helper(code: &mut Vec<u8>)
    ensures
        final(code)@ == old(code)@ + string_utf8_byte_offset_code(),
        final(code)@.len() == old(code)@.len() + 178,
{
    let ghost start = code@;
    push_bytes(
        code,
        &[
            0x48, 0x85, 0xc9, 0x0f, 0x84, 0x99, 0x00, 0x00, 0x00, 0x41, 0x54, 0x49, 0x89, 0xc8, 0x48, 0x89,
            0xd6, 0x31, 0xc0, 0x45, 0x31, 0xd2, 0x45, 0x31, 0xe4, 0x45, 0x8a, 0x08, 0x45, 0x84, 0xc9, 0x0f,
            0x84, 0x74, 0x00, 0x00, 0x00, 0x41, 0x80, 0xf9, 0x80, 0x0f, 0x82, 0x3f, 0x00, 0x00, 0x00, 0x41,
            0x80, 0xf9, 0xe0, 0x0f, 0x82, 0x2a, 0x00, 0x00, 0x00, 0x41, 0x80, 0xf9, 0xf0, 0x0f, 0x82, 0x15,
            0x00, 0x00, 0x00, 0x41, 0x80, 0xf9, 0xf5, 0x0f, 0x83, 0x55, 0x00, 0x00, 0x00, 0x41, 0xbb, 0x04,
            0x00, 0x00, 0x00, 0xe9, 0x21, 0x00, 0x00, 0x00, 0x41, 0xbb, 0x03, 0x00, 0x00, 0x00, 0xe9, 0x16,
            0x00, 0x00, 0x00, 0x41, 0xbb, 0x02, 0x00, 0x00, 0x00, 0xe9, 0x0b, 0x00, 0x00, 0x00, 0x41, 0xbb,
            0x01, 0x00, 0x00, 0x00, 0xe9, 0x00, 0x00, 0x00, 0x00, 0x4c, 0x39, 0xe6, 0x0f, 0x84, 0x11, 0x00,
            0x00, 0x00, 0x49, 0x89, 0xc2, 0x4c, 0x01, 0xd8, 0x4d, 0x01, 0xd8, 0x49, 0xff, 0xc4, 0xe9, 0x86,
            0xff, 0xff, 0xff, 0x48, 0x89, 0xc0, 0x41, 0x5c, 0xc3, 0x4c, 0x39, 0xe6, 0x0f, 0x84, 0x0a, 0x00,
            0x00, 0x00, 0x48, 0xc7, 0xc0, 0xff, 0xff, 0xff, 0xff, 0x41, 0x5c, 0xc3, 0x48, 0x89, 0xc0, 0x41,
            0x5c, 0xc3,
        ],
    );
    assert(code@ =~= start + string_utf8_byte_offset_code());
}

/// The machine code of the Windows `string_utf8_next_offset` helper routine.
pub open spec fn string_utf8_next_offset_code() -> Seq<u8> {
    seq![
        0x48u8, 0x85, 0xc9, 0x0f, 0x84, 0xa8, 0x00, 0x00, 0x00, 0x41, 0x54, 0x49, 0x89, 0xc8, 0x48, 0x89,
        0xd6, 0x31, 0xc0, 0x45, 0x31, 0xd2, 0x45, 0x31, 0xe4, 0x45, 0x8a, 0x08, 0x45, 0x84, 0xc9, 0x0f,
        0x84, 0x83, 0x00, 0x00, 0x00, 0x41, 0x80, 0xf9, 0x80, 0x0f, 0x82, 0x3f, 0x00, 0x00, 0x00, 0x41,
        0x80, 0xf9, 0xe0, 0x0f, 0x82, 0x2a, 0x00, 0x00, 0x00, 0x41, 0x80, 0xf9, 0xf0, 0x0f, 0x82, 0x15,
        0x00, 0x00, 0x00, 0x41, 0x80, 0xf9, 0xf5, 0x0f, 0x83, 0x64, 0x00, 0x00, 0x00, 0x41, 0xbb, 0x04,
        0x00, 0x00, 0x00, 0xe9, 0x21, 0x00, 0x00, 0x00, 0x41, 0xbb, 0x03, 0x00, 0x00, 0x00, 0xe9, 0x16,
        0x00, 0x00, 0x00, 0x41, 0xbb, 0x02, 0x00, 0x00, 0x00, 0xe9, 0x0b, 0x00, 0x00, 0x00, 0x41, 0xbb,
        0x01, 0x00, 0x00, 0x00, 0xe9, 0x00, 0x00, 0x00, 0x00, 0x48, 0x39, 0xf0, 0x0f, 0x84, 0x20, 0x00,
        0x00, 0x00, 0x48, 0x89, 0xc2, 0x4c, 0x01, 0xda, 0x48, 0x39, 0xd6, 0x0f, 0x82, 0x20, 0x00, 0x00,
        0x00, 0x49, 0x89, 0xc2, 0x4c, 0x01, 0xd8, 0x4d, 0x01, 0xd8, 0x49, 0xff, 0xc4, 0xe9, 0x77, 0xff,
        0xff, 0xff, 0x4c, 0x01, 0xd8, 0x41, 0x5c, 0xc3, 0x48, 0x39, 0xf0, 0x0f, 0x84, 0x0a, 0x00, 0x00,
        0x00, 0x48, 0xc7, 0xc0, 0xff, 0xff, 0xff, 0xff, 0x41, 0x5c, 0xc3, 0x48, 0x89, 0xc0, 0x41, 0x5c,
        0xc3,
    ]
}

pub(crate) fn emit_string_utf8_next_offset_helper(code: &mut Vec<u8>)
    ensures
        final(code)@ == old(code)@ + string_utf8_next_offset_code(),
        final(code)@.len() == old(code)@.len() + 193,
{
    let ghost start = code@;
    push_bytes(
        code,
        &[
            0x48, 0x85, 0xc9, 0x0f, 0x84, 0xa8, 0x00, 0x00, 0x00, 0x41, 0x54, 0x49, 0x89, 0xc8, 0x48, 0x89,
            0xd6, 0x31, 0xc0, 0x45, 0x31, 0xd2, 0x45, 0x31, 0xe4, 0x45, 0x8a, 0x08, 0x45, 0x84, 0xc9, 0x0f,
            0x84, 0x83, 0x00, 0x00, 0x00, 0x41, 0x80, 0xf9, 0x80, 0x0f, 0x82, 0x3f, 0x00, 0x00, 0x00, 0x41,
            0x80, 0xf9, 0xe0, 0x0f, 0x82, 0x2a, 0x00, 0x00, 0x00, 0x41, 0x80, 0xf9, 0xf0, 0x0f, 0x82, 0x15,
            0x00, 0x00, 0x00, 0x41, 0x80, 0xf9, 0xf5, 0x0f, 0x83, 0x64, 0x00, 0x00, 0x00, 0x41, 0xbb, 0x04,
            0x00, 0x00, 0x00, 0xe9, 0x21, 0x00, 0x00, 0x00, 0x41, 0xbb, 0x03, 0x00, 0x00, 0x00, 0xe9, 0x16,
            0x00, 0x00, 0x00, 0x41, 0xbb, 0x02, 0x00, 0x00, 0x00, 0xe9, 0x0b, 0x00, 0x00, 0x00, 0x41, 0xbb,
            0x01, 0x00, 0x00, 0x00, 0xe9, 0x00, 0x00, 0x00, 0x00, 0x48, 0x39, 0xf0, 0x0f, 0x84, 0x20, 0x00,
            0x00, 0x00, 0x48, 0x89, 0xc2, 0x4c, 0x01, 0xda, 0x48, 0x39, 0xd6, 0x0f, 0x82, 0x20, 0x00, 0x00,
            0x00, 0x49, 0x89, 0xc2, 0x4c, 0x01, 0xd8, 0x4d, 0x01, 0xd8, 0x49, 0xff, 0xc4, 0xe9, 0x77, 0xff,
            0xff, 0xff, 0x4c, 0x01, 0xd8, 0x41, 0x5c, 0xc3, 0x48, 0x39, 0xf0, 0x0f, 0x84, 0x0a, 0x00, 0x00,
            0x00, 0x48, 0xc7, 0xc0, 0xff, 0xff, 0xff, 0xff, 0x41, 0x5c, 0xc3, 0x48, 0x89, 0xc0, 0x41, 0x5c,
            0xc3,
        ],
    );
    assert(code@ =~= start + string_utf8_next_offset_code());
}

/// The machine code of the Windows `string_utf8_prev_offset` helper routine.
pub open spec fn string_utf8_prev_offset_code() -> Seq<u8> {
    seq![
        0x48u8, 0x85, 0xc9, 0x0f, 0x84, 0xa8, 0x00, 0x00, 0x00, 0x41, 0x54, 0x49, 0x89, 0xc8, 0x48, 0x89,
        0xd6, 0x31, 0xc0, 0x45, 0x31, 0xd2, 0x45, 0x31, 0xe4, 0x45, 0x8a, 0x08, 0x45, 0x84, 0xc9, 0x0f,
        0x84, 0x83, 0x00, 0x00, 0x00, 0x41, 0x80, 0xf9, 0x80, 0x0f, 0x82, 0x3f, 0x00, 0x00, 0x00, 0x41,
        0x80, 0xf9, 0xe0, 0x0f, 0x82, 0x2a, 0x00, 0x00, 0x00, 0x41, 0x80, 0xf9, 0xf0, 0x0f, 0x82, 0x15,
        0x00, 0x00, 0x00, 0x41, 0x80, 0xf9, 0xf5, 0x0f, 0x83, 0x64, 0x00, 0x00, 0x00, 0x41, 0xbb, 0x04,
        0x00, 0x00, 0x00, 0xe9, 0x21, 0x00, 0x00, 0x00, 0x41, 0xbb, 0x03, 0x00, 0x00, 0x00, 0xe9, 0x16,
        0x00, 0x00, 0x00, 0x41, 0xbb, 0x02, 0x00, 0x00, 0x00, 0xe9, 0x0b, 0x00, 0x00, 0x00, 0x41, 0xbb,
        0x01, 0x00, 0x00, 0x00, 0xe9, 0x00, 0x00, 0x00, 0x00, 0x48, 0x39, 0xf0, 0x0f, 0x84, 0x20, 0x00,
        0x00, 0x00, 0x48, 0x89, 0xc2, 0x4c, 0x01, 0xda, 0x48, 0x39, 0xd6, 0x0f, 0x82, 0x20, 0x00, 0x00,
        0x00, 0x49, 0x89, 0xc2, 0x4c, 0x01, 0xd8, 0x4d, 0x01, 0xd8, 0x49, 0xff, 0xc4, 0xe9, 0x77, 0xff,
        0xff, 0xff, 0x4c, 0x89, 0xd0, 0x41, 0x5c, 0xc3, 0x48, 0x39, 0xf0, 0x0f, 0x84, 0x0a, 0x00, 0x00,
        0x00, 0x48, 0xc7, 0xc0, 0xff, 0xff, 0xff, 0xff, 0x41, 0x5c, 0xc3, 0x4c, 0x89, 0xd0, 0x41, 0x5c,
        0xc3,
    ]
}

pub(crate) fn emit_string_utf8_prev_offset_helper(code: &mut Vec<u8>)
    ensures
        final(code)@ == old(code)@ + string_utf8_prev_offset_code(),
        final(code)@.len() == old(code)@.len() + 193,
{
    let ghost start = code@;
    push_bytes(
        code,
        &[
            0x48, 0x85, 0xc9, 0x0f, 0x84, 0xa8, 0x00, 0x00, 0x00, 0x41, 0x54, 0x49, 0x89, 0xc8, 0x48, 0x89,
            0xd6, 0x31, 0xc0, 0x45, 0x31, 0xd2, 0x45, 0x31, 0xe4, 0x45, 0x8a, 0x08, 0x45, 0x84, 0xc9, 0x0f,
            0x84, 0x83, 0x00, 0x00, 0x00, 0x41, 0x80, 0xf9, 0x80, 0x0f, 0x82, 0x3f, 0x00, 0x00, 0x00, 0x41,
            0x80, 0xf9, 0xe0, 0x0f, 0x82, 0x2a, 0x00, 0x00, 0x00, 0x41, 0x80, 0xf9, 0xf0, 0x0f, 0x82, 0x15,
            0x00, 0x00, 0x00, 0x41, 0x80, 0xf9, 0xf5, 0x0f, 0x83, 0x64, 0x00, 0x00, 0x00, 0x41, 0xbb, 0x04,
            0x00, 0x00, 0x00, 0xe9, 0x21, 0x00, 0x00, 0x00, 0x41, 0xbb, 0x03, 0x00, 0x00, 0x00, 0xe9, 0x16,
            0x00, 0x00, 0x00, 0x41, 0xbb, 0x02, 0x00, 0x00, 0x00, 0xe9, 0x0b, 0x00, 0x00, 0x00, 0x41, 0xbb,
            0x01, 0x00, 0x00, 0x00, 0xe9, 0x00, 0x00, 0x00, 0x00, 0x48, 0x39, 0xf0, 0x0f, 0x84, 0x20, 0x00,
            0x00, 0x00, 0x48, 0x89, 0xc2, 0x4c, 0x01, 0xda, 0x48, 0x39, 0xd6, 0x0f, 0x82, 0x20, 0x00, 0x00,
            0x00, 0x49, 0x89, 0xc2, 0x4c, 0x01, 0xd8, 0x4d, 0x01, 0xd8, 0x49, 0xff, 0xc4, 0xe9, 0x77, 0xff,
            0xff, 0xff, 0x4c, 0x89, 0xd0, 0x41, 0x5c, 0xc3, 0x48, 0x39, 0xf0, 0x0f, 0x84, 0x0a, 0x00, 0x00,
            0x00, 0x48, 0xc7, 0xc0, 0xff, 0xff, 0xff, 0xff, 0x41, 0x5c, 0xc3, 0x4c, 0x89, 0xd0, 0x41, 0x5c,
            0xc3,
        ],
    );
    assert(code@ =~= start + string_utf8_prev_offset_code());
}

/// The machine code of the Windows `string_utf8_index_at` helper routine.
pub open spec fn string_utf8_index_at_code() -> Seq<u8> {
    seq![
        0x48u8, 0x85, 0xc9, 0x0f, 0x84, 0xa8, 0x00, 0x00, 0x00, 0x41, 0x54, 0x49, 0x89, 0xc8, 0x48, 0x89,
        0xd6, 0x31, 0xc0, 0x45, 0x31, 0xd2, 0x45, 0x31, 0xe4, 0x45, 0x8a, 0x08, 0x45, 0x84, 0xc9, 0x0f,
        0x84, 0x83, 0x00, 0x00, 0x00, 0x41, 0x80, 0xf9, 0x80, 0x0f, 0x82, 0x3f, 0x00, 0x00, 0x00, 0x41,
        0x80, 0xf9, 0xe0, 0x0f, 0x82, 0x2a, 0x00, 0x00, 0x00, 0x41, 0x80, 0xf9, 0xf0, 0x0f, 0x82, 0x15,
        0x00, 0x00, 0x00, 0x41, 0x80, 0xf9, 0xf5, 0x0f, 0x83, 0x64, 0x00, 0x00, 0x00, 0x41, 0xbb, 0x04,
        0x00, 0x00, 0x00, 0xe9, 0x21, 0x00, 0x00, 0x00, 0x41, 0xbb, 0x03, 0x00, 0x00, 0x00, 0xe9, 0x16,
        0x00, 0x00, 0x00, 0x41, 0xbb, 0x02, 0x00, 0x00, 0x00, 0xe9, 0x0b, 0x00, 0x00, 0x00, 0x41, 0xbb,
        0x01, 0x00, 0x00, 0x00, 0xe9, 0x00, 0x00, 0x00, 0x00, 0x48, 0x39, 0xf0, 0x0f, 0x84, 0x20, 0x00,
        0x00, 0x00, 0x48, 0x89, 0xc2, 0x4c, 0x01, 0xda, 0x48, 0x39, 0xd6, 0x0f, 0x82, 0x20, 0x00, 0x00,
        0x00, 0x49, 0x89, 0xc2, 0x4c, 0x01, 0xd8, 0x4d, 0x01, 0xd8, 0x49, 0xff, 0xc4, 0xe9, 0x77, 0xff,
        0xff, 0xff, 0x4c, 0x89, 0xe0, 0x41, 0x5c, 0xc3, 0x48, 0x39, 0xf0, 0x0f, 0x84, 0x0a, 0x00, 0x00,
        0x00, 0x48, 0xc7, 0xc0, 0xff, 0xff, 0xff, 0xff, 0x41, 0x5c, 0xc3, 0x4c, 0x89, 0xe0, 0x41, 0x5c,
        0xc3,
    ]
}

pub(crate) fn emit_string_utf8_index_at_helper(code: &mut Vec<u8>)
    ensures
        final(code)@ == old(code)@ + string_utf8_index_at_code(),
        final(code)@.len() == old(code)@.len() + 193,
{
    let ghost start = code@;
    push_bytes(
        code,
        &[
            0x48, 0x85, 0xc9, 0x0f, 0x84, 0xa8, 0x00, 0x00, 0x00, 0x41, 0x54, 0x49, 0x89, 0xc8, 0x48, 0x89,
            0xd6, 0x31, 0xc0, 0x45, 0x31, 0xd2, 0x45, 0x31, 0xe4, 0x45, 0x8a, 0x08, 0x45, 0x84, 0xc9, 0x0f,
            0x84, 0x83, 0x00, 0x00, 0x00, 0x41, 0x80, 0xf9, 0x80, 0x0f, 0x82, 0x3f, 0x00, 0x00, 0x00, 0x41,
            0x80, 0xf9, 0xe0, 0x0f, 0x82, 0x2a, 0x00, 0x00, 0x00, 0x41, 0x80, 0xf9, 0xf0, 0x0f, 0x82, 0x15,
            0x00, 0x00, 0x00, 0x41, 0x80, 0xf9, 0xf5, 0x0f, 0x83, 0x64, 0x00, 0x00, 0x00, 0x41, 0xbb, 0x04,
            0x00, 0x00, 0x00, 0xe9, 0x21, 0x00, 0x00, 0x00, 0x41, 0xbb, 0x03, 0x00, 0x00, 0x00, 0xe9, 0x16,
            0x00, 0x00, 0x00, 0x41, 0xbb, 0x02, 0x00, 0x00, 0x00, 0xe9, 0x0b, 0x00, 0x00, 0x00, 0x41, 0xbb,
            0x01, 0x00, 0x00, 0x00, 0xe9, 0x00, 0x00, 0x00, 0x00, 0x48, 0x39, 0xf0, 0x0f, 0x84, 0x20, 0x00,
            0x00, 0x00, 0x48, 0x89, 0xc2, 0x4c, 0x01, 0xda, 0x48, 0x39, 0xd6, 0x0f, 0x82, 0x20, 0x00, 0x00,
            0x00, 0x49, 0x89, 0xc2, 0x4c, 0x01, 0xd8, 0x4d, 0x01, 0xd8, 0x49, 0xff, 0xc4, 0xe9, 0x77, 0xff,
            0xff, 0xff, 0x4c, 0x89, 0xe0, 0x41, 0x5c, 0xc3, 0x48, 0x39, 0xf0, 0x0f, 0x84, 0x0a, 0x00, 0x00,
            0x00, 0x48, 0xc7, 0xc0, 0xff, 0xff, 0xff, 0xff, 0x41, 0x5c, 0xc3, 0x4c, 0x89, 0xe0, 0x41, 0x5c,
            0xc3,
        ],
    );
    assert(code@ =~= start + string_utf8_index_at_code());
}

/// The machine code of the Windows `string_utf8_is_boundary` helper routine.
pub open spec fn string_utf8_is_boundary_code() -> Seq<u8> {
    seq![
        0x48u8, 0x85, 0xc9, 0x0f, 0x84, 0xaa, 0x00, 0x00, 0x00, 0x41, 0x54, 0x49, 0x89, 0xc8, 0x48, 0x89,
        0xd6, 0x31, 0xc0, 0x45, 0x31, 0xd2, 0x45, 0x31, 0xe4, 0x45, 0x8a, 0x08, 0x45, 0x84, 0xc9, 0x0f,
        0x84, 0x85, 0x00, 0x00, 0x00, 0x41, 0x80, 0xf9, 0x80, 0x0f, 0x82, 0x3f, 0x00, 0x00, 0x00, 0x41,
        0x80, 0xf9, 0xe0, 0x0f, 0x82, 0x2a, 0x00, 0x00, 0x00, 0x41, 0x80, 0xf9, 0xf0, 0x0f, 0x82, 0x15,
        0x00, 0x00, 0x00, 0x41, 0x80, 0xf9, 0xf5, 0x0f, 0x83, 0x66, 0x00, 0x00, 0x00, 0x41, 0xbb, 0x04,
        0x00, 0x00, 0x00, 0xe9, 0x21, 0x00, 0x00, 0x00, 0x41, 0xbb, 0x03, 0x00, 0x00, 0x00, 0xe9, 0x16,
        0x00, 0x00, 0x00, 0x41, 0xbb, 0x02, 0x00, 0x00, 0x00, 0xe9, 0x0b, 0x00, 0x00, 0x00, 0x41, 0xbb,
        0x01, 0x00, 0x00, 0x00, 0xe9, 0x00, 0x00, 0x00, 0x00, 0x48, 0x39, 0xf0, 0x0f, 0x84, 0x20, 0x00,
        0x00, 0x00, 0x48, 0x89, 0xc2, 0x4c, 0x01, 0xda, 0x48, 0x39, 0xd6, 0x0f, 0x82, 0x22, 0x00, 0x00,
        0x00, 0x49, 0x89, 0xc2, 0x4c, 0x01, 0xd8, 0x4d, 0x01, 0xd8, 0x49, 0xff, 0xc4, 0xe9, 0x77, 0xff,
        0xff, 0xff, 0xb8, 0x01, 0x00, 0x00, 0x00, 0x41, 0x5c, 0xc3, 0x48, 0x39, 0xf0, 0x0f, 0x84, 0x05,
        0x00, 0x00, 0x00, 0x31, 0xc0, 0x41, 0x5c, 0xc3, 0xb8, 0x01, 0x00, 0x00, 0x00, 0x41, 0x5c, 0xc3,
    ]
}

pub(crate) fn emit_string_utf8_is_boundary_helper(code: &mut Vec<u8>)
    ensures
        final(code)@ == old(code)@ + string_utf8_is_boundary_code(),
        final(code)@.len() == old(code)@.len() + 192,
{
    let ghost start = code@;
    push_bytes(
        code,
        &[
            0x48, 0x85, 0xc9, 0x0f, 0x84, 0xaa, 0x00, 0x00, 0x00, 0x41, 0x54, 0x49, 0x89, 0xc8, 0x48, 0x89,
            0xd6, 0x31, 0xc0, 0x45, 0x31, 0xd2, 0x45, 0x31, 0xe4, 0x45, 0x8a, 0x08, 0x45, 0x84, 0xc9, 0x0f,
            0x84, 0x85, 0x00, 0x00, 0x00, 0x41, 0x80, 0xf9, 0x80, 0x0f, 0x82, 0x3f, 0x00, 0x00, 0x00, 0x41,
            0x80, 0xf9, 0xe0, 0x0f, 0x82, 0x2a, 0x00, 0x00, 0x00, 0x41, 0x80, 0xf9, 0xf0, 0x0f, 0x82, 0x15,
            0x00, 0x00, 0x00, 0x41, 0x80, 0xf9, 0xf5, 0x0f, 0x83, 0x66, 0x00, 0x00, 0x00, 0x41, 0xbb, 0x04,
            0x00, 0x00, 0x00, 0xe9, 0x21, 0x00, 0x00, 0x00, 0x41, 0xbb, 0x03, 0x00, 0x00, 0x00, 0xe9, 0x16,
            0x00, 0x00, 0x00, 0x41, 0xbb, 0x02, 0x00, 0x00, 0x00, 0xe9, 0x0b, 0x00, 0x00, 0x00, 0x41, 0xbb,
            0x01, 0x00, 0x00, 0x00, 0xe9, 0x00, 0x00, 0x00, 0x00, 0x48, 0x39, 0xf0, 0x0f, 0x84, 0x20, 0x00,
            0x00, 0x00, 0x48, 0x89, 0xc2, 0x4c, 0x01, 0xda, 0x48, 0x39, 0xd6, 0x0f, 0x82, 0x22, 0x00, 0x00,
            0x00, 0x49, 0x89, 0xc2, 0x4c, 0x01, 0xd8, 0x4d, 0x01, 0xd8, 0x49, 0xff, 0xc4, 0xe9, 0x77, 0xff,
            0xff, 0xff, 0xb8, 0x01, 0x00, 0x00, 0x00, 0x41, 0x5c, 0xc3, 0x48, 0x39, 0xf0, 0x0f, 0x84, 0x05,
            0x00, 0x00, 0x00, 0x31, 0xc0, 0x41, 0x5c, 0xc3, 0xb8, 0x01, 0x00, 0x00, 0x00, 0x41, 0x5c, 0xc3,
        ],
    );
    assert(code@ =~= start + string_utf8_is_boundary_code());
}

/// The machine code of the Windows `array_new` helper routine placed at `at` in the text.
pub open spec fn array_new_code(l: Layout, at: int) -> Seq<u8> {
    seq![
        0x48u8, 0x83, 0xec, 0x48, 0x48, 0x89, 0x4c, 0x24, 0x28, 0x48, 0x89, 0x54, 0x24, 0x30, 0x48, 0x0f,
        0xaf, 0xca, 0x48, 0x83, 0xc1, 0x20, 0x48, 0x89, 0xca, 0x31, 0xc9, 0x41, 0xb8, 0x00, 0x30, 0x00,
        0x00, 0x41, 0xb9, 0x04, 0x00, 0x00, 0x00, 0xff, 0x15,
    ]
        + rel32_to(l.virtual_alloc_iat as int, (l.text_rva + at + 41 + 4) as nat)
        + seq![
        0x48u8, 0x85, 0xc0, 0x0f, 0x84, 0x30, 0x00, 0x00, 0x00, 0x48, 0x89, 0x44, 0x24, 0x38, 0x48, 0x8d,
        0x50, 0x20, 0x48, 0x89, 0x10, 0x48, 0xc7, 0x40, 0x08, 0x00, 0x00, 0x00, 0x00, 0x48, 0x8b, 0x4c,
        0x24, 0x30, 0x48, 0x89, 0x48, 0x10, 0x48, 0x8b, 0x4c, 0x24, 0x28, 0x48, 0x89, 0x48, 0x18, 0x48,
        0x8b, 0x44, 0x24, 0x38, 0x48, 0x83, 0xc4, 0x48, 0xc3, 0x31, 0xc0, 0x48, 0x83, 0xc4, 0x48, 0xc3,
    ]
}

#[verifier::spinoff_prover]
pub(crate) fn emit_array_new_helper(code: &mut Vec<u8>, layout: &Layout)
    requires
        old(code)@.len() < 0x2000_0000,
        routine_targets(*layout),
    ensures
        final(code)@ == old(code)@ + array_new_code(*layout, old(code)@.len() as int),
        final(code)@.len() == old(code)@.len() + 109,
{
    let ghost start = code@;
    push_bytes(
        code,
        &[
            0x48, 0x83, 0xec, 0x48, 0x48, 0x89, 0x4c, 0x24, 0x28, 0x48, 0x89, 0x54, 0x24, 0x30, 0x48, 0x0f,
            0xaf, 0xca, 0x48, 0x83, 0xc1, 0x20, 0x48, 0x89, 0xca, 0x31, 0xc9, 0x41, 0xb8, 0x00, 0x30, 0x00,
            0x00, 0x41, 0xb9, 0x04, 0x00, 0x00, 0x00, 0xff, 0x15,
        ],
    );
    emit_rel32(code, layout.text_rva, layout.virtual_alloc_iat);
    push_bytes(
        code,
        &[
            0x48, 0x85, 0xc0, 0x0f, 0x84, 0x30, 0x00, 0x00, 0x00, 0x48, 0x89, 0x44, 0x24, 0x38, 0x48, 0x8d,
            0x50, 0x20, 0x48, 0x89, 0x10, 0x48, 0xc7, 0x40, 0x08, 0x00, 0x00, 0x00, 0x00, 0x48, 0x8b, 0x4c,
            0x24, 0x30, 0x48, 0x89, 0x48, 0x10, 0x48, 0x8b, 0x4c, 0x24, 0x28, 0x48, 0x89, 0x48, 0x18, 0x48,
            0x8b, 0x44, 0x24, 0x38, 0x48, 0x83, 0xc4, 0x48, 0xc3, 0x31, 0xc0, 0x48, 0x83, 0xc4, 0x48, 0xc3,
        ],
    );
    assert(code@ =~= start + array_new_code(*layout, start.len() as int));
}

/// The machine code of the Windows `array_clone` helper routine placed at `at` in the text.
pub open spec fn array_clone_code(l: Layout, at: int) -> Seq<u8> {
    seq![
        0x48u8, 0x83, 0xec, 0x58, 0x48, 0x89, 0x4c, 0x24, 0x40, 0x48, 0x85, 0xc9, 0x0f, 0x84, 0xb5, 0x00,
        0x00, 0x00, 0x48, 0x8b, 0x41, 0x18, 0x48, 0x89, 0x44, 0x24, 0x28, 0x48, 0x8b, 0x41, 0x10, 0x48,
        0x89, 0x44, 0x24, 0x30, 0x48, 0x8b, 0x41, 0x08, 0x48, 0x89, 0x44, 0x24, 0x38, 0x48, 0x8b, 0x44,
        0x24, 0x30, 0x48, 0x0f, 0xaf, 0x44, 0x24, 0x28, 0x48, 0x83, 0xc0, 0x20, 0x48, 0x89, 0xc2, 0x31,
        0xc9, 0x41, 0xb8, 0x00, 0x30, 0x00, 0x00, 0x41, 0xb9, 0x04, 0x00, 0x00, 0x00, 0xff, 0x15,
    ]
        + rel32_to(l.virtual_alloc_iat as int, (l.text_rva + at + 79 + 4) as nat)
        + seq![
        0x48u8, 0x85, 0xc0, 0x0f, 0x84, 0x6b, 0x00, 0x00, 0x00, 0x48, 0x89, 0x44, 0x24, 0x48, 0x48, 0x8b,
        0x4c, 0x24, 0x48, 0x48, 0x8d, 0x50, 0x20, 0x48, 0x89, 0x10, 0x48, 0x8b, 0x44, 0x24, 0x38, 0x48,
        0x89, 0x41, 0x08, 0x48, 0x8b, 0x44, 0x24, 0x30, 0x48, 0x89, 0x41, 0x10, 0x48, 0x8b, 0x44, 0x24,
        0x28, 0x48, 0x89, 0x41, 0x18, 0x48, 0x8b, 0x44, 0x24, 0x38, 0x48, 0x0f, 0xaf, 0x44, 0x24, 0x28,
        0x48, 0x8b, 0x54, 0x24, 0x48, 0x4c, 0x8b, 0x12, 0x48, 0x8b, 0x4c, 0x24, 0x40, 0x4c, 0x8b, 0x19,
        0x48, 0x85, 0xc0, 0x0f, 0x84, 0x11, 0x00, 0x00, 0x00, 0x45, 0x8a, 0x0b, 0x45, 0x88, 0x0a, 0x49,
        0xff, 0xc2, 0x49, 0xff, 0xc3, 0x48, 0xff, 0xc8, 0xeb, 0xe6, 0x48, 0x8b, 0x44, 0x24, 0x48, 0x48,
        0x83, 0xc4, 0x58, 0xc3, 0x31, 0xc0, 0x48, 0x83, 0xc4, 0x58, 0xc3,
    ]
}

#[verifier::spinoff_prover]
pub(crate) fn emit_array_clone_helper(code: &mut Vec<u8>, layout: &Layout)
    requires
        old(code)@.len() < 0x2000_0000,
        routine_targets(*layout),
    ensures
        final(code)@ == old(code)@ + array_clone_code(*layout, old(code)@.len() as int),
        final(code)@.len() == old(code)@.len() + 206,
{
    let ghost start = code@;
    push_bytes(
        code,
        &[
            0x48, 0x83, 0xec, 0x58, 0x48, 0x89, 0x4c, 0x24, 0x40, 0x48, 0x85, 0xc9, 0x0f, 0x84, 0xb5, 0x00,
            0x00, 0x00, 0x48, 0x8b, 0x41, 0x18, 0x48, 0x89, 0x44, 0x24, 0x28, 0x48, 0x8b, 0x41, 0x10, 0x48,
            0x89, 0x44, 0x24, 0x30, 0x48, 0x8b, 0x41, 0x08, 0x48, 0x89, 0x44, 0x24, 0x38, 0x48, 0x8b, 0x44,
            0x24, 0x30, 0x48, 0x0f, 0xaf, 0x44, 0x24, 0x28, 0x48, 0x83, 0xc0, 0x20, 0x48, 0x89, 0xc2, 0x31,
            0xc9, 0x41, 0xb8, 0x00, 0x30, 0x00, 0x00, 0x41, 0xb9, 0x04, 0x00, 0x00, 0x00, 0xff, 0x15,
        ],
    );
    emit_rel32(code, layout.text_rva, layout.virtual_alloc_iat);
    push_bytes(
        code,
        &[
            0x48, 0x85, 0xc0, 0x0f, 0x84, 0x6b, 0x00, 0x00, 0x00, 0x48, 0x89, 0x44, 0x24, 0x48, 0x48, 0x8b,
            0x4c, 0x24, 0x48, 0x48, 0x8d, 0x50, 0x20, 0x48, 0x89, 0x10, 0x48, 0x8b, 0x44, 0x24, 0x38, 0x48,
            0x89, 0x41, 0x08, 0x48, 0x8b, 0x44, 0x24, 0x30, 0x48, 0x89, 0x41, 0x10, 0x48, 0x8b, 0x44, 0x24,
            0x28, 0x48, 0x89, 0x41, 0x18, 0x48, 0x8b, 0x44, 0x24, 0x38, 0x48, 0x0f, 0xaf, 0x44, 0x24, 0x28,
            0x48, 0x8b, 0x54, 0x24, 0x48, 0x4c, 0x8b, 0x12, 0x48, 0x8b, 0x4c, 0x24, 0x40, 0x4c, 0x8b, 0x19,
            0x48, 0x85, 0xc0, 0x0f, 0x84, 0x11, 0x00, 0x00, 0x00, 0x45, 0x8a, 0x0b, 0x45, 0x88, 0x0a, 0x49,
            0xff, 0xc2, 0x49, 0xff, 0xc3, 0x48, 0xff, 0xc8, 0xeb, 0xe6, 0x48, 0x8b, 0x44, 0x24, 0x48, 0x48,
            0x83, 0xc4, 0x58, 0xc3, 0x31, 0xc0, 0x48, 0x83, 0xc4, 0x58, 0xc3,
        ],
    );
    assert(code@ =~= start + array_clone_code(*layout, start.len() as int));
}

/// The machine code of the Windows `array_reserve` helper routine placed at `at` in the text.
pub open spec fn array_reserve_code(l: Layout, at: int) -> Seq<u8> {
    seq![
        0x48u8, 0x83, 0xec, 0x60, 0x48, 0x89, 0x4c, 0x24, 0x40, 0x48, 0x89, 0x54, 0x24, 0x48, 0x48, 0x85,
        0xc9, 0x0f, 0x84, 0xd3, 0x00, 0x00, 0x00, 0x48, 0x3b, 0x51, 0x10, 0x0f, 0x86, 0xbf, 0x00, 0x00,
        0x00, 0x48, 0x8b, 0x41, 0x18, 0x48, 0x89, 0x44, 0x24, 0x28, 0x48, 0x8b, 0x41, 0x08, 0x48, 0x89,
        0x44, 0x24, 0x38, 0x48, 0x8b, 0x44, 0x24, 0x48, 0x48, 0x0f, 0xaf, 0x44, 0x24, 0x28, 0x48, 0x83,
        0xc0, 0x20, 0x48, 0x89, 0xc2, 0x31, 0xc9, 0x41, 0xb8, 0x00, 0x30, 0x00, 0x00, 0x41, 0xb9, 0x04,
        0x00, 0x00, 0x00, 0xff, 0x15,
    ]
        + rel32_to(l.virtual_alloc_iat as int, (l.text_rva + at + 85 + 4) as nat)
        + seq![
        0x48u8, 0x85, 0xc0, 0x0f, 0x84, 0x88, 0x00, 0x00, 0x00, 0x48, 0x89, 0x44, 0x24, 0x50, 0x48, 0x8b,
        0x4c, 0x24, 0x50, 0x48, 0x8d, 0x50, 0x20, 0x48, 0x89, 0x10, 0x48, 0x8b, 0x44, 0x24, 0x38, 0x48,
        0x89, 0x41, 0x08, 0x48, 0x8b, 0x44, 0x24, 0x48, 0x48, 0x89, 0x41, 0x10, 0x48, 0x8b, 0x44, 0x24,
        0x28, 0x48, 0x89, 0x41, 0x18, 0x48, 0x8b, 0x44, 0x24, 0x38, 0x48, 0x0f, 0xaf, 0x44, 0x24, 0x28,
        0x48, 0x8b, 0x54, 0x24, 0x50, 0x4c, 0x8b, 0x12, 0x48, 0x8b, 0x4c, 0x24, 0x40, 0x4c, 0x8b, 0x19,
        0x48, 0x85, 0xc0, 0x0f, 0x84, 0x11, 0x00, 0x00, 0x00, 0x45, 0x8a, 0x0b, 0x45, 0x88, 0x0a, 0x49,
        0xff, 0xc2, 0x49, 0xff, 0xc3, 0x48, 0xff, 0xc8, 0xeb, 0xe6, 0x48, 0x8b, 0x4c, 0x24, 0x40, 0x31,
        0xd2, 0x41, 0xb8, 0x00, 0x80, 0x00, 0x00, 0xff, 0x15,
    ]
        + rel32_to(l.virtual_free_iat as int, (l.text_rva + at + 210 + 4) as nat)
        + seq![
        0x48u8, 0x8b, 0x44, 0x24, 0x50, 0x48, 0x83, 0xc4, 0x60, 0xc3, 0x48, 0x8b, 0x44, 0x24, 0x40, 0x48,
        0x83, 0xc4, 0x60, 0xc3, 0x31, 0xc0, 0x48, 0x83, 0xc4, 0x60, 0xc3,
    ]
}

#[verifier::spinoff_prover]
pub(crate) fn emit_array_reserve_helper(code: &mut Vec<u8>, layout: &Layout)
    requires
        old(code)@.len() < 0x2000_0000,
        routine_targets(*layout),
    ensures
        final(code)@ == old(code)@ + array_reserve_code(*layout, old(code)@.len() as int),
        final(code)@.len() == old(code)@.len() + 241,
{
    let ghost start = code@;
    push_bytes(
        code,
        &[
            0x48, 0x83, 0xec, 0x60, 0x48, 0x89, 0x4c, 0x24, 0x40, 0x48, 0x89, 0x54, 0x24, 0x48, 0x48, 0x85,
            0xc9, 0x0f, 0x84, 0xd3, 0x00, 0x00, 0x00, 0x48, 0x3b, 0x51, 0x10, 0x0f, 0x86, 0xbf, 0x00, 0x00,
            0x00, 0x48, 0x8b, 0x41, 0x18, 0x48, 0x89, 0x44, 0x24, 0x28, 0x48, 0x8b, 0x41, 0x08, 0x48, 0x89,
            0x44, 0x24, 0x38, 0x48, 0x8b, 0x44, 0x24, 0x48, 0x48, 0x0f, 0xaf, 0x44, 0x24, 0x28, 0x48, 0x83,
            0xc0, 0x20, 0x48, 0x89, 0xc2, 0x31, 0xc9, 0x41, 0xb8, 0x00, 0x30, 0x00, 0x00, 0x41, 0xb9, 0x04,
            0x00, 0x00, 0x00, 0xff, 0x15,
        ],
    );
    emit_rel32(code, layout.text_rva, layout.virtual_alloc_iat);
    push_bytes(
        code,
        &[
            0x48, 0x85, 0xc0, 0x0f, 0x84, 0x88, 0x00, 0x00, 0x00, 0x48, 0x89, 0x44, 0x24, 0x50, 0x48, 0x8b,
            0x4c, 0x24, 0x50, 0x48, 0x8d, 0x50, 0x20, 0x48, 0x89, 0x10, 0x48, 0x8b, 0x44, 0x24, 0x38, 0x48,
            0x89, 0x41, 0x08, 0x48, 0x8b, 0x44, 0x24, 0x48, 0x48, 0x89, 0x41, 0x10, 0x48, 0x8b, 0x44, 0x24,
            0x28, 0x48, 0x89, 0x41, 0x18, 0x48, 0x8b, 0x44, 0x24, 0x38, 0x48, 0x0f, 0xaf, 0x44, 0x24, 0x28,
            0x48, 0x8b, 0x54, 0x24, 0x50, 0x4c, 0x8b, 0x12, 0x48, 0x8b, 0x4c, 0x24, 0x40, 0x4c, 0x8b, 0x19,
            0x48, 0x85, 0xc0, 0x0f, 0x84, 0x11, 0x00, 0x00, 0x00, 0x45, 0x8a, 0x0b, 0x45, 0x88, 0x0a, 0x49,
            0xff, 0xc2, 0x49, 0xff, 0xc3, 0x48, 0xff, 0xc8, 0xeb, 0xe6, 0x48, 0x8b, 0x4c, 0x24, 0x40, 0x31,
            0xd2, 0x41, 0xb8, 0x00, 0x80, 0x00, 0x00, 0xff, 0x15,
        ],
    );
    emit_rel32(code, layout.text_rva, layout.virtual_free_iat);
    push_bytes(
        code,
        &[
            0x48, 0x8b, 0x44, 0x24, 0x50, 0x48, 0x83, 0xc4, 0x60, 0xc3, 0x48, 0x8b, 0x44, 0x24, 0x40, 0x48,
            0x83, 0xc4, 0x60, 0xc3, 0x31, 0xc0, 0x48, 0x83, 0xc4, 0x60, 0xc3,
        ],
    );
    assert(code@ =~= start + array_reserve_code(*layout, start.len() as int));
}

/// The machine code of the Windows `array_index_of` helper routine.
pub open spec fn array_index_of_code() -> Seq<u8> {
    seq![
        0x48u8, 0x85, 0xc9, 0x74, 0x28, 0x45, 0x8a, 0x1a, 0x4c, 0x8b, 0x49, 0x08, 0x4c, 0x8b, 0x01, 0x45,
        0x31, 0xd2, 0x31, 0xc0, 0x4d, 0x85, 0xc9, 0x74, 0x14, 0x45, 0x38, 0x18, 0x74, 0x0b, 0x49, 0xff,
        0xc0, 0x49, 0xff, 0xc2, 0x49, 0xff, 0xc9, 0xeb, 0xeb, 0x4c, 0x89, 0xd8, 0xc3, 0x48, 0xc7, 0xc0,
        0xff, 0xff, 0xff, 0xff, 0xc3,
    ]
}

pub(crate) fn emit_array_index_of_helper(code: &mut Vec<u8>)
    ensures
        final(code)@ == old(code)@ + array_index_of_code(),
        final(code)@.len() == old(code)@.len() + 53,
{
    let ghost start = code@;
    push_bytes(
        code,
        &[
            0x48, 0x85, 0xc9, 0x74, 0x28, 0x45, 0x8a, 0x1a, 0x4c, 0x8b, 0x49, 0x08, 0x4c, 0x8b, 0x01, 0x45,
            0x31, 0xd2, 0x31, 0xc0, 0x4d, 0x85, 0xc9, 0x74, 0x14, 0x45, 0x38, 0x18, 0x74, 0x0b, 0x49, 0xff,
            0xc0, 0x49, 0xff, 0xc2, 0x49, 0xff, 0xc9, 0xeb, 0xeb, 0x4c, 0x89, 0xd8, 0xc3, 0x48, 0xc7, 0xc0,
            0xff, 0xff, 0xff, 0xff, 0xc3,
        ],
    );
    assert(code@ =~= start + array_index_of_code());
}

/// The machine code of the Windows `array_last_index_of` helper routine.
pub open spec fn array_last_index_of_code() -> Seq<u8> {
    seq![
        0x48u8, 0x85, 0xc9, 0x74, 0x38, 0x45, 0x8a, 0x1a, 0x4c, 0x8b, 0x49, 0x08, 0x4c, 0x8b, 0x01, 0x45,
        0x31, 0xd2, 0x48, 0xc7, 0xc0, 0xff, 0xff, 0xff, 0xff, 0x4d, 0x85, 0xc9, 0x74, 0x1e, 0x45, 0x38,
        0x18, 0x74, 0x0b, 0x49, 0xff, 0xc0, 0x49, 0xff, 0xc2, 0x49, 0xff, 0xc9, 0xeb, 0xeb, 0x4c, 0x89,
        0xd8, 0x49, 0xff, 0xc0, 0x49, 0xff, 0xc2, 0x49, 0xff, 0xc9, 0xeb, 0xdd, 0xc3, 0x48, 0xc7, 0xc0,
        0xff, 0xff, 0xff, 0xff, 0xc3,
    ]
}

pub(crate) fn emit_array_last_index_of_helper(code: &mut Vec<u8>)
    ensures
        final(code)@ == old(code)@ + array_last_index_of_code(),
        final(code)@.len() == old(code)@.len() + 69,
{
    let ghost start = code@;
    push_bytes(
        code,
        &[
            0x48, 0x85, 0xc9, 0x74, 0x38, 0x45, 0x8a, 0x1a, 0x4c, 0x8b, 0x49, 0x08, 0x4c, 0x8b, 0x01, 0x45,
            0x31, 0xd2, 0x48, 0xc7, 0xc0, 0xff, 0xff, 0xff, 0xff, 0x4d, 0x85, 0xc9, 0x74, 0x1e, 0x45, 0x38,
            0x18, 0x74, 0x0b, 0x49, 0xff, 0xc0, 0x49, 0xff, 0xc2, 0x49, 0xff, 0xc9, 0xeb, 0xeb, 0x4c, 0x89,
            0xd8, 0x49, 0xff, 0xc0, 0x49, 0xff, 0xc2, 0x49, 0xff, 0xc9, 0xeb, 0xdd, 0xc3, 0x48, 0xc7, 0xc0,
            0xff, 0xff, 0xff, 0xff, 0xc3,
        ],
    );
    assert(code@ =~= start + array_last_index_of_code());
}

/// The machine code of the Windows `array_contains` helper routine.
pub open spec fn array_contains_code() -> Seq<u8> {
    seq![
        0x48u8, 0x85, 0xc9, 0x74, 0x33, 0x45, 0x8a, 0x1a, 0x4c, 0x8b, 0x49, 0x08, 0x4c, 0x8b, 0x01, 0x45,
        0x31, 0xd2, 0x31, 0xc0, 0x4d, 0x85, 0xc9, 0x74, 0x1e, 0x45, 0x38, 0x18, 0x74, 0x0b, 0x49, 0xff,
        0xc0, 0x49, 0xff, 0xc2, 0x49, 0xff, 0xc9, 0xeb, 0xeb, 0x48, 0xff, 0xc0, 0x49, 0xff, 0xc0, 0x49,
        0xff, 0xc2, 0x49, 0xff, 0xc9, 0xeb, 0xdd, 0xc3, 0x31, 0xc0, 0xc3,
    ]
}

pub(crate) fn emit_array_contains_helper(code: &mut Vec<u8>)
    ensures
        final(code)@ == old(code)@ + array_contains_code(),
        final(code)@.len() == old(code)@.len() + 59,
{
    let ghost start = code@;
    push_bytes(
        code,
        &[
            0x48, 0x85, 0xc9, 0x74, 0x33, 0x45, 0x8a, 0x1a, 0x4c, 0x8b, 0x49, 0x08, 0x4c, 0x8b, 0x01, 0x45,
            0x31, 0xd2, 0x31, 0xc0, 0x4d, 0x85, 0xc9, 0x74, 0x1e, 0x45, 0x38, 0x18, 0x74, 0x0b, 0x49, 0xff,
            0xc0, 0x49, 0xff, 0xc2, 0x49, 0xff, 0xc9, 0xeb, 0xeb, 0x48, 0xff, 0xc0, 0x49, 0xff, 0xc0, 0x49,
            0xff, 0xc2, 0x49, 0xff, 0xc9, 0xeb, 0xdd, 0xc3, 0x31, 0xc0, 0xc3,
        ],
    );
    assert(code@ =~= start + array_contains_code());
}

/// The machine code of the Windows `array_free` helper routine placed at `at` in the text.
pub open spec fn array_free_code(l: Layout, at: int) -> Seq<u8> {
    seq![
        0x48u8, 0x83, 0xec, 0x28, 0x48, 0x85, 0xc9, 0x74, 0x19, 0x31, 0xd2, 0x41, 0xb8, 0x00, 0x80, 0x00,
        0x00, 0xff, 0x15,
    ]
        + rel32_to(l.virtual_free_iat as int, (l.text_rva + at + 19 + 4) as nat)
        + seq![
        0x85u8, 0xc0, 0x74, 0x07, 0x31, 0xc0, 0x48, 0x83, 0xc4, 0x28, 0xc3, 0xb8, 0x01, 0x00, 0x00, 0x00,
        0x48, 0x83, 0xc4, 0x28, 0xc3,
    ]
}

#[verifier::spinoff_prover]
pub(crate) fn emit_array_free_helper(code: &mut Vec<u8>, layout: &Layout)
    requires
        old(code)@.len() < 0x2000_0000,
        routine_targets(*layout),
    ensures
        final(code)@ == old(code)@ + array_free_code(*layout, old(code)@.len() as int),
        final(code)@.len() == old(code)@.len() + 44,
{
    let ghost start = code@;
    push_bytes(
        code,
        &[
            0x48, 0x83, 0xec, 0x28, 0x48, 0x85, 0xc9, 0x74, 0x19, 0x31, 0xd2, 0x41, 0xb8, 0x00, 0x80, 0x00,
            0x00, 0xff, 0x15,
        ],
    );
    emit_rel32(code, layout.text_rva, layout.virtual_free_iat);
    push_bytes(
        code,
        &[
            0x85, 0xc0, 0x74, 0x07, 0x31, 0xc0, 0x48, 0x83, 0xc4, 0x28, 0xc3, 0xb8, 0x01, 0x00, 0x00, 0x00,
            0x48, 0x83, 0xc4, 0x28, 0xc3,
        ],
    );
    assert(code@ =~= start + array_free_code(*layout, start.len() as int));
}

/// The machine code of the Windows `string_concat` helper routine placed at `at` in the text.
pub open spec fn string_concat_code(l: Layout, at: int, string_len_rva: int) -> Seq<u8> {
    seq![
        0x48u8, 0x83, 0xec, 0x38, 0x49, 0x89, 0xca, 0x49, 0x89, 0xd3, 0x4c, 0x89, 0x54, 0x24, 0x20, 0x4c,
        0x89, 0x5c, 0x24, 0x28, 0x4c, 0x89, 0xd1, 0xe8,
    ]
        + rel32_to(string_len_rva as int, (l.text_rva + at + 24 + 4) as nat)
        + seq![
        0x49u8, 0x89, 0xc0, 0x4c, 0x89, 0xd9, 0xe8,
    ]
        + rel32_to(string_len_rva as int, (l.text_rva + at + 35 + 4) as nat)
        + seq![
        0x4cu8, 0x01, 0xc0, 0x48, 0xff, 0xc0, 0x48, 0x89, 0xc2, 0x31, 0xc9, 0x41, 0xb8, 0x00, 0x30, 0x00,
        0x00, 0x41, 0xb9, 0x40, 0x00, 0x00, 0x00, 0xff, 0x15,
    ]
        + rel32_to(l.virtual_alloc_iat as int, (l.text_rva + at + 64 + 4) as nat)
        + seq![
        0x48u8, 0x85, 0xc0, 0x74, 0x43, 0x4c, 0x8b, 0x54, 0x24, 0x20, 0x4c, 0x8b, 0x5c, 0x24, 0x28, 0x48,
        0x89, 0xc2, 0x49, 0x89, 0xc1, 0x4d, 0x89, 0xd0, 0x41, 0x8a, 0x00, 0x84, 0xc0, 0x74, 0x0b, 0x41,
        0x88, 0x01, 0x49, 0xff, 0xc0, 0x49, 0xff, 0xc1, 0xeb, 0xee, 0x41, 0x8a, 0x03, 0x84, 0xc0, 0x74,
        0x0b, 0x41, 0x88, 0x01, 0x49, 0xff, 0xc3, 0x49, 0xff, 0xc1, 0xeb, 0xee, 0x41, 0xc6, 0x01, 0x00,
        0x48, 0x83, 0xc4, 0x38, 0x48, 0x89, 0xd0, 0xc3, 0x31, 0xc0, 0x48, 0x83, 0xc4, 0x38, 0xc3,
    ]
}

#[verifier::spinoff_prover]
pub(crate) fn emit_string_concat_helper(code: &mut Vec<u8>, layout: &Layout, string_len_rva: u32)
    requires
        old(code)@.len() < 0x2000_0000,
        routine_targets(*layout),
        string_len_rva < 0x4000_0000,
    ensures
        final(code)@ == old(code)@ + string_concat_code(*layout, old(code)@.len() as int, string_len_rva as int),
        final(code)@.len() == old(code)@.len() + 147,
{
    let ghost start = code@;
    push_bytes(
        code,
        &[
            0x48, 0x83, 0xec, 0x38, 0x49, 0x89, 0xca, 0x49, 0x89, 0xd3, 0x4c, 0x89, 0x54, 0x24, 0x20, 0x4c,
            0x89, 0x5c, 0x24, 0x28, 0x4c, 0x89, 0xd1, 0xe8,
        ],
    );
    emit_rel32(code, layout.text_rva, string_len_rva);
    push_bytes(
        code,
        &[
            0x49, 0x89, 0xc0, 0x4c, 0x89, 0xd9, 0xe8,
        ],
    );
    emit_rel32(code, layout.text_rva, string_len_rva);
    push_bytes(
        code,
        &[
            0x4c, 0x01, 0xc0, 0x48, 0xff, 0xc0, 0x48, 0x89, 0xc2, 0x31, 0xc9, 0x41, 0xb8, 0x00, 0x30, 0x00,
            0x00, 0x41, 0xb9, 0x40, 0x00, 0x00, 0x00, 0xff, 0x15,
        ],
    );
    emit_rel32(code, layout.text_rva, layout.virtual_alloc_iat);
    push_bytes(
        code,
        &[
            0x48, 0x85, 0xc0, 0x74, 0x43, 0x4c, 0x8b, 0x54, 0x24, 0x20, 0x4c, 0x8b, 0x5c, 0x24, 0x28, 0x48,
            0x89, 0xc2, 0x49, 0x89, 0xc1, 0x4d, 0x89, 0xd0, 0x41, 0x8a, 0x00, 0x84, 0xc0, 0x74, 0x0b, 0x41,
            0x88, 0x01, 0x49, 0xff, 0xc0, 0x49, 0xff, 0xc1, 0xeb, 0xee, 0x41, 0x8a, 0x03, 0x84, 0xc0, 0x74,
            0x0b, 0x41, 0x88, 0x01, 0x49, 0xff, 0xc3, 0x49, 0xff, 0xc1, 0xeb, 0xee, 0x41, 0xc6, 0x01, 0x00,
            0x48, 0x83, 0xc4, 0x38, 0x48, 0x89, 0xd0, 0xc3, 0x31, 0xc0, 0x48, 0x83, 0xc4, 0x38, 0xc3,
        ],
    );
    assert(code@ =~= start + string_concat_code(*layout, start.len() as int, string_len_rva as int));
}

/// The machine code of the Windows `string_contains` helper routine.
pub open spec fn string_contains_code() -> Seq<u8> {
    seq![
        0x49u8, 0x89, 0xc8, 0x8a, 0x02, 0x84, 0xc0, 0x74, 0x2b, 0x41, 0x80, 0x38, 0x00, 0x74, 0x2b, 0x4d,
        0x89, 0xc1, 0x49, 0x89, 0xd2, 0x41, 0x8a, 0x02, 0x84, 0xc0, 0x74, 0x18, 0x41, 0x80, 0x39, 0x00,
        0x74, 0x0d, 0x41, 0x3a, 0x01, 0x75, 0x08, 0x49, 0xff, 0xc1, 0x49, 0xff, 0xc2, 0xeb, 0xe6, 0x49,
        0xff, 0xc0, 0xeb, 0xcf, 0xb8, 0x01, 0x00, 0x00, 0x00, 0xc3, 0x31, 0xc0, 0xc3,
    ]
}

pub(crate) fn emit_string_contains_helper(code: &mut Vec<u8>)
    ensures
        final(code)@ == old(code)@ + string_contains_code(),
        final(code)@.len() == old(code)@.len() + 61,
{
    let ghost start = code@;
    push_bytes(
        code,
        &[
            0x49, 0x89, 0xc8, 0x8a, 0x02, 0x84, 0xc0, 0x74, 0x2b, 0x41, 0x80, 0x38, 0x00, 0x74, 0x2b, 0x4d,
            0x89, 0xc1, 0x49, 0x89, 0xd2, 0x41, 0x8a, 0x02, 0x84, 0xc0, 0x74, 0x18, 0x41, 0x80, 0x39, 0x00,
            0x74, 0x0d, 0x41, 0x3a, 0x01, 0x75, 0x08, 0x49, 0xff, 0xc1, 0x49, 0xff, 0xc2, 0xeb, 0xe6, 0x49,
            0xff, 0xc0, 0xeb, 0xcf, 0xb8, 0x01, 0x00, 0x00, 0x00, 0xc3, 0x31, 0xc0, 0xc3,
        ],
    );
    assert(code@ =~= start + string_contains_code());
}

/// The machine code of the Windows `string_starts_with` helper routine.
pub open spec fn string_starts_with_code() -> Seq<u8> {
    seq![
        0x8au8, 0x02, 0x84, 0xc0, 0x74, 0x15, 0x44, 0x8a, 0x01, 0x45, 0x84, 0xc0, 0x74, 0x13, 0x41, 0x38,
        0xc0, 0x75, 0x0e, 0x48, 0xff, 0xc1, 0x48, 0xff, 0xc2, 0xeb, 0xe5, 0xb8, 0x01, 0x00, 0x00, 0x00,
        0xc3, 0x31, 0xc0, 0xc3,
    ]
}

pub(crate) fn emit_string_starts_with_helper(code: &mut Vec<u8>)
    ensures
        final(code)@ == old(code)@ + string_starts_with_code(),
        final(code)@.len() == old(code)@.len() + 36,
{
    let ghost start = code@;
    push_bytes(
        code,
        &[
            0x8a, 0x02, 0x84, 0xc0, 0x74, 0x15, 0x44, 0x8a, 0x01, 0x45, 0x84, 0xc0, 0x74, 0x13, 0x41, 0x38,
            0xc0, 0x75, 0x0e, 0x48, 0xff, 0xc1, 0x48, 0xff, 0xc2, 0xeb, 0xe5, 0xb8, 0x01, 0x00, 0x00, 0x00,
            0xc3, 0x31, 0xc0, 0xc3,
        ],
    );
    assert(code@ =~= start + string_starts_with_code());
}

/// The machine code of the Windows `string_ends_with` helper routine.
pub open spec fn string_ends_with_code() -> Seq<u8> {
    seq![
        0x4du8, 0x31, 0xc0, 0x42, 0x80, 0x3c, 0x01, 0x00, 0x74, 0x05, 0x49, 0xff, 0xc0, 0xeb, 0xf4, 0x4d,
        0x31, 0xc9, 0x42, 0x80, 0x3c, 0x0a, 0x00, 0x74, 0x05, 0x49, 0xff, 0xc1, 0xeb, 0xf4, 0x4d, 0x39,
        0xc8, 0x72, 0x1e, 0x4c, 0x01, 0xc1, 0x4c, 0x29, 0xc9, 0x8a, 0x02, 0x84, 0xc0, 0x74, 0x0c, 0x38,
        0x01, 0x75, 0x0e, 0x48, 0xff, 0xc1, 0x48, 0xff, 0xc2, 0xeb, 0xee, 0xb8, 0x01, 0x00, 0x00, 0x00,
        0xc3, 0x31, 0xc0, 0xc3,
    ]
}

pub(crate) fn emit_string_ends_with_helper(code: &mut Vec<u8>)
    ensures
        final(code)@ == old(code)@ + string_ends_with_code(),
        final(code)@.len() == old(code)@.len() + 68,
{
    let ghost start = code@;
    push_bytes(
        code,
        &[
            0x4d, 0x31, 0xc0, 0x42, 0x80, 0x3c, 0x01, 0x00, 0x74, 0x05, 0x49, 0xff, 0xc0, 0xeb, 0xf4, 0x4d,
            0x31, 0xc9, 0x42, 0x80, 0x3c, 0x0a, 0x00, 0x74, 0x05, 0x49, 0xff, 0xc1, 0xeb, 0xf4, 0x4d, 0x39,
            0xc8, 0x72, 0x1e, 0x4c, 0x01, 0xc1, 0x4c, 0x29, 0xc9, 0x8a, 0x02, 0x84, 0xc0, 0x74, 0x0c, 0x38,
            0x01, 0x75, 0x0e, 0x48, 0xff, 0xc1, 0x48, 0xff, 0xc2, 0xeb, 0xee, 0xb8, 0x01, 0x00, 0x00, 0x00,
            0xc3, 0x31, 0xc0, 0xc3,
        ],
    );
    assert(code@ =~= start + string_ends_with_code());
}

/// The machine code of the Windows `string_eq` helper routine.
pub open spec fn string_eq_code() -> Seq<u8> {
    seq![
        0x44u8, 0x0f, 0xb6, 0x01, 0x44, 0x0f, 0xb6, 0x0a, 0x45, 0x39, 0xc8, 0x75, 0x13, 0x45, 0x84, 0xc0,
        0x74, 0x08, 0x48, 0xff, 0xc1, 0x48, 0xff, 0xc2, 0xeb, 0xe6, 0xb8, 0x01, 0x00, 0x00, 0x00, 0xc3,
        0x31, 0xc0, 0xc3,
    ]
}

pub(crate) fn emit_string_eq_helper(code: &mut Vec<u8>)
    ensures
        final(code)@ == old(code)@ + string_eq_code(),
        final(code)@.len() == old(code)@.len() + 35,
{
    let ghost start = code@;
    push_bytes(
        code,
        &[
            0x44, 0x0f, 0xb6, 0x01, 0x44, 0x0f, 0xb6, 0x0a, 0x45, 0x39, 0xc8, 0x75, 0x13, 0x45, 0x84, 0xc0,
            0x74, 0x08, 0x48, 0xff, 0xc1, 0x48, 0xff, 0xc2, 0xeb, 0xe6, 0xb8, 0x01, 0x00, 0x00, 0x00, 0xc3,
            0x31, 0xc0, 0xc3,
        ],
    );
    assert(code@ =~= start + string_eq_code());
}

/// The machine code of the Windows `string_not_eq` helper routine.
pub open spec fn string_not_eq_code() -> Seq<u8> {
    seq![
        0x44u8, 0x0f, 0xb6, 0x01, 0x44, 0x0f, 0xb6, 0x0a, 0x45, 0x39, 0xc8, 0x75, 0x10, 0x45, 0x84, 0xc0,
        0x74, 0x08, 0x48, 0xff, 0xc1, 0x48, 0xff, 0xc2, 0xeb, 0xe6, 0x31, 0xc0, 0xc3, 0xb8, 0x01, 0x00,
        0x00, 0x00, 0xc3,
    ]
}

pub(crate) fn emit_string_not_eq_helper(code: &mut Vec<u8>)
    ensures
        final(code)@ == old(code)@ + string_not_eq_code(),
        final(code)@.len() == old(code)@.len() + 35,
{
    let ghost start = code@;
    push_bytes(
        code,
        &[
            0x44, 0x0f, 0xb6, 0x01, 0x44, 0x0f, 0xb6, 0x0a, 0x45, 0x39, 0xc8, 0x75, 0x10, 0x45, 0x84, 0xc0,
            0x74, 0x08, 0x48, 0xff, 0xc1, 0x48, 0xff, 0xc2, 0xeb, 0xe6, 0x31, 0xc0, 0xc3, 0xb8, 0x01, 0x00,
            0x00, 0x00, 0xc3,
        ],
    );
    assert(code@ =~= start + string_not_eq_code());
}

/// The machine code of the Windows `string_less_or_equal` helper routine.
pub open spec fn string_less_or_equal_code() -> Seq<u8> {
    seq![
        0x44u8, 0x0f, 0xb6, 0x01, 0x44, 0x0f, 0xb6, 0x0a, 0x45, 0x39, 0xc8, 0x75, 0x13, 0x45, 0x84, 0xc0,
        0x74, 0x08, 0x48, 0xff, 0xc1, 0x48, 0xff, 0xc2, 0xeb, 0xe6, 0xb8, 0x01, 0x00, 0x00, 0x00, 0xc3,
        0x0f, 0x96, 0xc0, 0x0f, 0xb6, 0xc0, 0xc3,
    ]
}

pub(crate) fn emit_string_less_or_equal_helper(code: &mut Vec<u8>)
    ensures
        final(code)@ == old(code)@ + string_less_or_equal_code(),
        final(code)@.len() == old(code)@.len() + 39,
{
    let ghost start = code@;
    push_bytes(
        code,
        &[
            0x44, 0x0f, 0xb6, 0x01, 0x44, 0x0f, 0xb6, 0x0a, 0x45, 0x39, 0xc8, 0x75, 0x13, 0x45, 0x84, 0xc0,
            0x74, 0x08, 0x48, 0xff, 0xc1, 0x48, 0xff, 0xc2, 0xeb, 0xe6, 0xb8, 0x01, 0x00, 0x00, 0x00, 0xc3,
            0x0f, 0x96, 0xc0, 0x0f, 0xb6, 0xc0, 0xc3,
        ],
    );
    assert(code@ =~= start + string_less_or_equal_code());
}

/// The machine code of the Windows `string_greater_or_equal` helper routine.
pub open spec fn string_greater_or_equal_code() -> Seq<u8> {
    seq![
        0x44u8, 0x0f, 0xb6, 0x01, 0x44, 0x0f, 0xb6, 0x0a, 0x45, 0x39, 0xc8, 0x75, 0x13, 0x45, 0x84, 0xc0,
        0x74, 0x08, 0x48, 0xff, 0xc1, 0x48, 0xff, 0xc2, 0xeb, 0xe6, 0xb8, 0x01, 0x00, 0x00, 0x00, 0xc3,
        0x0f, 0x93, 0xc0, 0x0f, 0xb6, 0xc0, 0xc3,
    ]
}

pub(crate) fn emit_string_greater_or_equal_helper(code: &mut Vec<u8>)
    ensures
        final(code)@ == old(code)@ + string_greater_or_equal_code(),
        final(code)@.len() == old(code)@.len() + 39,
{
    let ghost start = code@;
    push_bytes(
        code,
        &[
            0x44, 0x0f, 0xb6, 0x01, 0x44, 0x0f, 0xb6, 0x0a, 0x45, 0x39, 0xc8, 0x75, 0x13, 0x45, 0x84, 0xc0,
            0x74, 0x08, 0x48, 0xff, 0xc1, 0x48, 0xff, 0xc2, 0xeb, 0xe6, 0xb8, 0x01, 0x00, 0x00, 0x00, 0xc3,
            0x0f, 0x93, 0xc0, 0x0f, 0xb6, 0xc0, 0xc3,
        ],
    );
    assert(code@ =~= start + string_greater_or_equal_code());
}

/// The machine code of the Windows `string_is_ascii` helper routine.
pub open spec fn string_is_ascii_code() -> Seq<u8> {
    seq![
        0x44u8, 0x8a, 0x01, 0x45, 0x84, 0xc0, 0x74, 0x0b, 0x41, 0x80, 0xf8, 0x7f, 0x77, 0x0b, 0x48, 0xff,
        0xc1, 0xeb, 0xed, 0xb8, 0x01, 0x00, 0x00, 0x00, 0xc3, 0x31, 0xc0, 0xc3,
    ]
}

pub(crate) fn emit_string_is_ascii_helper(code: &mut Vec<u8>)
    ensures
        final(code)@ == old(code)@ + string_is_ascii_code(),
        final(code)@.len() == old(code)@.len() + 28,
{
    let ghost start = code@;
    push_bytes(
        code,
        &[
            0x44, 0x8a, 0x01, 0x45, 0x84, 0xc0, 0x74, 0x0b, 0x41, 0x80, 0xf8, 0x7f, 0x77, 0x0b, 0x48, 0xff,
            0xc1, 0xeb, 0xed, 0xb8, 0x01, 0x00, 0x00, 0x00, 0xc3, 0x31, 0xc0, 0xc3,
        ],
    );
    assert(code@ =~= start + string_is_ascii_code());
}

/// The machine code of the Windows `string_is_ascii_digit` helper routine.
pub open spec fn string_is_ascii_digit_code() -> Seq<u8> {
    seq![
        0x44u8, 0x8a, 0x01, 0x45, 0x84, 0xc0, 0x74, 0x1d, 0x41, 0x80, 0xf8, 0x30, 0x72, 0x17, 0x41, 0x80,
        0xf8, 0x39, 0x77, 0x11, 0x48, 0xff, 0xc1, 0x44, 0x8a, 0x01, 0x45, 0x84, 0xc0, 0x75, 0xe9, 0xb8,
        0x01, 0x00, 0x00, 0x00, 0xc3, 0x31, 0xc0, 0xc3,
    ]
}

pub(crate) fn emit_string_is_ascii_digit_helper(code: &mut Vec<u8>)
    ensures
        final(code)@ == old(code)@ + string_is_ascii_digit_code(),
        final(code)@.len() == old(code)@.len() + 40,
{
    let ghost start = code@;
    push_bytes(
        code,
        &[
            0x44, 0x8a, 0x01, 0x45, 0x84, 0xc0, 0x74, 0x1d, 0x41, 0x80, 0xf8, 0x30, 0x72, 0x17, 0x41, 0x80,
            0xf8, 0x39, 0x77, 0x11, 0x48, 0xff, 0xc1, 0x44, 0x8a, 0x01, 0x45, 0x84, 0xc0, 0x75, 0xe9, 0xb8,
            0x01, 0x00, 0x00, 0x00, 0xc3, 0x31, 0xc0, 0xc3,
        ],
    );
    assert(code@ =~= start + string_is_ascii_digit_code());
}

/// The machine code of the Windows `string_is_ascii_hex_digit` helper routine.
pub open spec fn string_is_ascii_hex_digit_code() -> Seq<u8> {
    seq![
        0x44u8, 0x8a, 0x01, 0x45, 0x84, 0xc0, 0x74, 0x35, 0x41, 0x80, 0xf8, 0x30, 0x72, 0x2f, 0x41, 0x80,
        0xf8, 0x39, 0x76, 0x18, 0x41, 0x80, 0xf8, 0x41, 0x72, 0x23, 0x41, 0x80, 0xf8, 0x46, 0x76, 0x0c,
        0x41, 0x80, 0xf8, 0x61, 0x72, 0x17, 0x41, 0x80, 0xf8, 0x66, 0x77, 0x11, 0x48, 0xff, 0xc1, 0x44,
        0x8a, 0x01, 0x45, 0x84, 0xc0, 0x75, 0xd1, 0xb8, 0x01, 0x00, 0x00, 0x00, 0xc3, 0x31, 0xc0, 0xc3,
    ]
}

pub(crate) fn emit_string_is_ascii_hex_digit_helper(code: &mut Vec<u8>)
    ensures
        final(code)@ == old(code)@ + string_is_ascii_hex_digit_code(),
        final(code)@.len() == old(code)@.len() + 64,
{
    let ghost start = code@;
    push_bytes(
        code,
        &[
            0x44, 0x8a, 0x01, 0x45, 0x84, 0xc0, 0x74, 0x35, 0x41, 0x80, 0xf8, 0x30, 0x72, 0x2f, 0x41, 0x80,
            0xf8, 0x39, 0x76, 0x18, 0x41, 0x80, 0xf8, 0x41, 0x72, 0x23, 0x41, 0x80, 0xf8, 0x46, 0x76, 0x0c,
            0x41, 0x80, 0xf8, 0x61, 0x72, 0x17, 0x41, 0x80, 0xf8, 0x66, 0x77, 0x11, 0x48, 0xff, 0xc1, 0x44,
            0x8a, 0x01, 0x45, 0x84, 0xc0, 0x75, 0xd1, 0xb8, 0x01, 0x00, 0x00, 0x00, 0xc3, 0x31, 0xc0, 0xc3,
        ],
    );
    assert(code@ =~= start + string_is_ascii_hex_digit_code());
}

/// The machine code of the Windows `string_is_ascii_alpha` helper routine.
pub open spec fn string_is_ascii_alpha_code() -> Seq<u8> {
    seq![
        0x44u8, 0x8a, 0x01, 0x45, 0x84, 0xc0, 0x74, 0x29, 0x41, 0x80, 0xf8, 0x41, 0x72, 0x23, 0x41, 0x80,
        0xf8, 0x5a, 0x76, 0x0c, 0x41, 0x80, 0xf8, 0x61, 0x72, 0x17, 0x41, 0x80, 0xf8, 0x7a, 0x77, 0x11,
        0x48, 0xff, 0xc1, 0x44, 0x8a, 0x01, 0x45, 0x84, 0xc0, 0x75, 0xdd, 0xb8, 0x01, 0x00, 0x00, 0x00,
        0xc3, 0x31, 0xc0, 0xc3,
    ]
}

pub(crate) fn emit_string_is_ascii_alpha_helper(code: &mut Vec<u8>)
    ensures
        final(code)@ == old(code)@ + string_is_ascii_alpha_code(),
        final(code)@.len() == old(code)@.len() + 52,
{
    let ghost start = code@;
    push_bytes(
        code,
        &[
            0x44, 0x8a, 0x01, 0x45, 0x84, 0xc0, 0x74, 0x29, 0x41, 0x80, 0xf8, 0x41, 0x72, 0x23, 0x41, 0x80,
            0xf8, 0x5a, 0x76, 0x0c, 0x41, 0x80, 0xf8, 0x61, 0x72, 0x17, 0x41, 0x80, 0xf8, 0x7a, 0x77, 0x11,
            0x48, 0xff, 0xc1, 0x44, 0x8a, 0x01, 0x45, 0x84, 0xc0, 0x75, 0xdd, 0xb8, 0x01, 0x00, 0x00, 0x00,
            0xc3, 0x31, 0xc0, 0xc3,
        ],
    );
    assert(code@ =~= start + string_is_ascii_alpha_code());
}

/// The machine code of the Windows `string_is_ascii_lower` helper routine.
pub open spec fn string_is_ascii_lower_code() -> Seq<u8> {
    seq![
        0x44u8, 0x8a, 0x01, 0x45, 0x84, 0xc0, 0x74, 0x1d, 0x41, 0x80, 0xf8, 0x61, 0x72, 0x17, 0x41, 0x80,
        0xf8, 0x7a, 0x77, 0x11, 0x48, 0xff, 0xc1, 0x44, 0x8a, 0x01, 0x45, 0x84, 0xc0, 0x75, 0xe9, 0xb8,
        0x01, 0x00, 0x00, 0x00, 0xc3, 0x31, 0xc0, 0xc3,
    ]
}

pub(crate) fn emit_string_is_ascii_lower_helper(code: &mut Vec<u8>)
    ensures
        final(code)@ == old(code)@ + string_is_ascii_lower_code(),
        final(code)@.len() == old(code)@.len() + 40,
{
    let ghost start = code@;
    push_bytes(
        code,
        &[
            0x44, 0x8a, 0x01, 0x45, 0x84, 0xc0, 0x74, 0x1d, 0x41, 0x80, 0xf8, 0x61, 0x72, 0x17, 0x41, 0x80,
            0xf8, 0x7a, 0x77, 0x11, 0x48, 0xff, 0xc1, 0x44, 0x8a, 0x01, 0x45, 0x84, 0xc0, 0x75, 0xe9, 0xb8,
            0x01, 0x00, 0x00, 0x00, 0xc3, 0x31, 0xc0, 0xc3,
        ],
    );
    assert(code@ =~= start + string_is_ascii_lower_code());
}

/// The machine code of the Windows `string_is_ascii_upper` helper routine.
pub open spec fn string_is_ascii_upper_code() -> Seq<u8> {
    seq![
        0x44u8, 0x8a, 0x01, 0x45, 0x84, 0xc0, 0x74, 0x1d, 0x41, 0x80, 0xf8, 0x41, 0x72, 0x17, 0x41, 0x80,
        0xf8, 0x5a, 0x77, 0x11, 0x48, 0xff, 0xc1, 0x44, 0x8a, 0x01, 0x45, 0x84, 0xc0, 0x75, 0xe9, 0xb8,
        0x01, 0x00, 0x00, 0x00, 0xc3, 0x31, 0xc0, 0xc3,
    ]
}

pub(crate) fn emit_string_is_ascii_upper_helper(code: &mut Vec<u8>)
    ensures
        final(code)@ == old(code)@ + string_is_ascii_upper_code(),
        final(code)@.len() == old(code)@.len() + 40,
{
    let ghost start = code@;
    push_bytes(
        code,
        &[
            0x44, 0x8a, 0x01, 0x45, 0x84, 0xc0, 0x74, 0x1d, 0x41, 0x80, 0xf8, 0x41, 0x72, 0x17, 0x41, 0x80,
            0xf8, 0x5a, 0x77, 0x11, 0x48, 0xff, 0xc1, 0x44, 0x8a, 0x01, 0x45, 0x84, 0xc0, 0x75, 0xe9, 0xb8,
            0x01, 0x00, 0x00, 0x00, 0xc3, 0x31, 0xc0, 0xc3,
        ],
    );
    assert(code@ =~= start + string_is_ascii_upper_code());
}

/// The machine code of the Windows `string_is_ascii_alnum` helper routine.
pub open spec fn string_is_ascii_alnum_code() -> Seq<u8> {
    seq![
        0x44u8, 0x8a, 0x01, 0x45, 0x84, 0xc0, 0x74, 0x35, 0x41, 0x80, 0xf8, 0x30, 0x72, 0x2f, 0x41, 0x80,
        0xf8, 0x39, 0x76, 0x18, 0x41, 0x80, 0xf8, 0x41, 0x72, 0x23, 0x41, 0x80, 0xf8, 0x5a, 0x76, 0x0c,
        0x41, 0x80, 0xf8, 0x61, 0x72, 0x17, 0x41, 0x80, 0xf8, 0x7a, 0x77, 0x11, 0x48, 0xff, 0xc1, 0x44,
        0x8a, 0x01, 0x45, 0x84, 0xc0, 0x75, 0xd1, 0xb8, 0x01, 0x00, 0x00, 0x00, 0xc3, 0x31, 0xc0, 0xc3,
    ]
}

pub(crate) fn emit_string_is_ascii_alnum_helper(code: &mut Vec<u8>)
    ensures
        final(code)@ == old(code)@ + string_is_ascii_alnum_code(),
        final(code)@.len() == old(code)@.len() + 64,
{
    let ghost start = code@;
    push_bytes(
        code,
        &[
            0x44, 0x8a, 0x01, 0x45, 0x84, 0xc0, 0x74, 0x35, 0x41, 0x80, 0xf8, 0x30, 0x72, 0x2f, 0x41, 0x80,
            0xf8, 0x39, 0x76, 0x18, 0x41, 0x80, 0xf8, 0x41, 0x72, 0x23, 0x41, 0x80, 0xf8, 0x5a, 0x76, 0x0c,
            0x41, 0x80, 0xf8, 0x61, 0x72, 0x17, 0x41, 0x80, 0xf8, 0x7a, 0x77, 0x11, 0x48, 0xff, 0xc1, 0x44,
            0x8a, 0x01, 0x45, 0x84, 0xc0, 0x75, 0xd1, 0xb8, 0x01, 0x00, 0x00, 0x00, 0xc3, 0x31, 0xc0, 0xc3,
        ],
    );
    assert(code@ =~= start + string_is_ascii_alnum_code());
}

/// The machine code of the Windows `string_is_ascii_identifier` helper routine.
pub open spec fn string_is_ascii_identifier_code() -> Seq<u8> {
    seq![
        0x44u8, 0x8a, 0x01, 0x45, 0x84, 0xc0, 0x74, 0x64, 0x41, 0x80, 0xf8, 0x5f, 0x74, 0x18, 0x41, 0x80,
        0xf8, 0x41, 0x72, 0x58, 0x41, 0x80, 0xf8, 0x5a, 0x76, 0x0c, 0x41, 0x80, 0xf8, 0x61, 0x72, 0x4c,
        0x41, 0x80, 0xf8, 0x7a, 0x77, 0x46, 0x48, 0xff, 0xc1, 0x44, 0x8a, 0x01, 0x45, 0x84, 0xc0, 0x74,
        0x35, 0x41, 0x80, 0xf8, 0x5f, 0x74, 0x24, 0x41, 0x80, 0xf8, 0x30, 0x72, 0x2f, 0x41, 0x80, 0xf8,
        0x39, 0x76, 0x18, 0x41, 0x80, 0xf8, 0x41, 0x72, 0x23, 0x41, 0x80, 0xf8, 0x5a, 0x76, 0x0c, 0x41,
        0x80, 0xf8, 0x61, 0x72, 0x17, 0x41, 0x80, 0xf8, 0x7a, 0x77, 0x11, 0x48, 0xff, 0xc1, 0x44, 0x8a,
        0x01, 0x45, 0x84, 0xc0, 0x75, 0xcb, 0xb8, 0x01, 0x00, 0x00, 0x00, 0xc3, 0x31, 0xc0, 0xc3,
    ]
}

pub(crate) fn emit_string_is_ascii_identifier_helper(code: &mut Vec<u8>)
    ensures
        final(code)@ == old(code)@ + string_is_ascii_identifier_code(),
        final(code)@.len() == old(code)@.len() + 111,
{
    let ghost start = code@;
    push_bytes(
        code,
        &[
            0x44, 0x8a, 0x01, 0x45, 0x84, 0xc0, 0x74, 0x64, 0x41, 0x80, 0xf8, 0x5f, 0x74, 0x18, 0x41, 0x80,
            0xf8, 0x41, 0x72, 0x58, 0x41, 0x80, 0xf8, 0x5a, 0x76, 0x0c, 0x41, 0x80, 0xf8, 0x61, 0x72, 0x4c,
            0x41, 0x80, 0xf8, 0x7a, 0x77, 0x46, 0x48, 0xff, 0xc1, 0x44, 0x8a, 0x01, 0x45, 0x84, 0xc0, 0x74,
            0x35, 0x41, 0x80, 0xf8, 0x5f, 0x74, 0x24, 0x41, 0x80, 0xf8, 0x30, 0x72, 0x2f, 0x41, 0x80, 0xf8,
            0x39, 0x76, 0x18, 0x41, 0x80, 0xf8, 0x41, 0x72, 0x23, 0x41, 0x80, 0xf8, 0x5a, 0x76, 0x0c, 0x41,
            0x80, 0xf8, 0x61, 0x72, 0x17, 0x41, 0x80, 0xf8, 0x7a, 0x77, 0x11, 0x48, 0xff, 0xc1, 0x44, 0x8a,
            0x01, 0x45, 0x84, 0xc0, 0x75, 0xcb, 0xb8, 0x01, 0x00, 0x00, 0x00, 0xc3, 0x31, 0xc0, 0xc3,
        ],
    );
    assert(code@ =~= start + string_is_ascii_identifier_code());
}

/// The machine code of the Windows `string_is_ascii_whitespace` helper routine.
pub open spec fn string_is_ascii_whitespace_code() -> Seq<u8> {
    seq![
        0x44u8, 0x8a, 0x01, 0x45, 0x84, 0xc0, 0x74, 0x23, 0x41, 0x80, 0xf8, 0x20, 0x74, 0x0c, 0x41, 0x80,
        0xf8, 0x09, 0x72, 0x17, 0x41, 0x80, 0xf8, 0x0d, 0x77, 0x11, 0x48, 0xff, 0xc1, 0x44, 0x8a, 0x01,
        0x45, 0x84, 0xc0, 0x75, 0xe3, 0xb8, 0x01, 0x00, 0x00, 0x00, 0xc3, 0x31, 0xc0, 0xc3,
    ]
}

pub(crate) fn emit_string_is_ascii_whitespace_helper(code: &mut Vec<u8>)
    ensures
        final(code)@ == old(code)@ + string_is_ascii_whitespace_code(),
        final(code)@.len() == old(code)@.len() + 46,
{
    let ghost start = code@;
    push_bytes(
        code,
        &[
            0x44, 0x8a, 0x01, 0x45, 0x84, 0xc0, 0x74, 0x23, 0x41, 0x80, 0xf8, 0x20, 0x74, 0x0c, 0x41, 0x80,
            0xf8, 0x09, 0x72, 0x17, 0x41, 0x80, 0xf8, 0x0d, 0x77, 0x11, 0x48, 0xff, 0xc1, 0x44, 0x8a, 0x01,
            0x45, 0x84, 0xc0, 0x75, 0xe3, 0xb8, 0x01, 0x00, 0x00, 0x00, 0xc3, 0x31, 0xc0, 0xc3,
        ],
    );
    assert(code@ =~= start + string_is_ascii_whitespace_code());
}

/// The machine code of the Windows `string_parse_int` helper routine.
pub open spec fn string_parse_int_code() -> Seq<u8> {
    seq![
        0x49u8, 0x89, 0xc8, 0x49, 0x31, 0xc9, 0x49, 0xc7, 0xc2, 0x01, 0x00, 0x00, 0x00, 0x41, 0x8a, 0x00,
        0x3c, 0x20, 0x74, 0xf9, 0x3c, 0x09, 0x74, 0xf5, 0x3c, 0x0a, 0x74, 0xf1, 0x3c, 0x0d, 0x74, 0xed,
        0x3c, 0x0b, 0x74, 0xe9, 0x3c, 0x0c, 0x74, 0xe5, 0x3c, 0x2d, 0x75, 0x0c, 0x49, 0xc7, 0xc2, 0xff,
        0xff, 0xff, 0xff, 0x49, 0xff, 0xc0, 0xeb, 0x09, 0x3c, 0x2b, 0x75, 0x05, 0x49, 0xff, 0xc0, 0xeb,
        0x00, 0x41, 0x8a, 0x00, 0x3c, 0x30, 0x72, 0x18, 0x3c, 0x39, 0x77, 0x14, 0x4c, 0x0f, 0xb6, 0xd8,
        0x49, 0x83, 0xeb, 0x30, 0x4d, 0x6b, 0xc9, 0x0a, 0x4d, 0x01, 0xd9, 0x49, 0xff, 0xc0, 0xeb, 0xe1,
        0x4d, 0x0f, 0xaf, 0xca, 0x4c, 0x89, 0xc8, 0xc3,
    ]
}

pub(crate) fn emit_string_parse_int_helper(code: &mut Vec<u8>)
    ensures
        final(code)@ == old(code)@ + string_parse_int_code(),
        final(code)@.len() == old(code)@.len() + 104,
{
    let ghost start = code@;
    push_bytes(
        code,
        &[
            0x49, 0x89, 0xc8, 0x49, 0x31, 0xc9, 0x49, 0xc7, 0xc2, 0x01, 0x00, 0x00, 0x00, 0x41, 0x8a, 0x00,
            0x3c, 0x20, 0x74, 0xf9, 0x3c, 0x09, 0x74, 0xf5, 0x3c, 0x0a, 0x74, 0xf1, 0x3c, 0x0d, 0x74, 0xed,
            0x3c, 0x0b, 0x74, 0xe9, 0x3c, 0x0c, 0x74, 0xe5, 0x3c, 0x2d, 0x75, 0x0c, 0x49, 0xc7, 0xc2, 0xff,
            0xff, 0xff, 0xff, 0x49, 0xff, 0xc0, 0xeb, 0x09, 0x3c, 0x2b, 0x75, 0x05, 0x49, 0xff, 0xc0, 0xeb,
            0x00, 0x41, 0x8a, 0x00, 0x3c, 0x30, 0x72, 0x18, 0x3c, 0x39, 0x77, 0x14, 0x4c, 0x0f, 0xb6, 0xd8,
            0x49, 0x83, 0xeb, 0x30, 0x4d, 0x6b, 0xc9, 0x0a, 0x4d, 0x01, 0xd9, 0x49, 0xff, 0xc0, 0xeb, 0xe1,
            0x4d, 0x0f, 0xaf, 0xca, 0x4c, 0x89, 0xc8, 0xc3,
        ],
    );
    assert(code@ =~= start + string_parse_int_code());
}

/// The machine code of the Windows `bounds_check` helper routine placed at `at` in the text.
pub open spec fn bounds_check_code(l: Layout, at: int) -> Seq<u8> {
    seq![
        0x48u8, 0x39, 0xd1, 0x73, 0x01, 0xc3, 0x48, 0x83, 0xec, 0x28, 0xb9, 0x01, 0x00, 0x00, 0x00, 0xff,
        0x15,
    ]
        + rel32_to(l.exit_process_iat as int, (l.text_rva + at + 17 + 4) as nat)
}

#[verifier::spinoff_prover]
pub(crate) fn emit_bounds_check_helper(code: &mut Vec<u8>, layout: &Layout)
    requires
        old(code)@.len() < 0x2000_0000,
        routine_targets(*layout),
    ensures
        final(code)@ == old(code)@ + bounds_check_code(*layout, old(code)@.len() as int),
        final(code)@.len() == old(code)@.len() + 21,
{
    let ghost start = code@;
    push_bytes(
        code,
        &[
            0x48, 0x39, 0xd1, 0x73, 0x01, 0xc3, 0x48, 0x83, 0xec, 0x28, 0xb9, 0x01, 0x00, 0x00, 0x00, 0xff,
            0x15,
        ],
    );
    emit_rel32(code, layout.text_rva, layout.exit_process_iat);
    assert(code@ =~= start + bounds_check_code(*layout, start.len() as int));
}

/// The machine code of the Windows `print` helper routine placed at `at` in the text.
pub open spec fn print_code(l: Layout, at: int) -> Seq<u8> {
    seq![
        0x48u8, 0x83, 0xec, 0x48, 0x48, 0x89, 0x4c, 0x24, 0x28, 0x4c, 0x8b, 0x54, 0x24, 0x28, 0x4d, 0x31,
        0xc0, 0x43, 0x80, 0x3c, 0x02, 0x00, 0x74, 0x05, 0x49, 0xff, 0xc0, 0xeb, 0xf4, 0x4c, 0x89, 0xc0,
        0x4c, 0x89, 0x44, 0x24, 0x30, 0xb9, 0xf5, 0xff, 0xff, 0xff, 0xff, 0x15,
    ]
        + rel32_to(l.get_std_handle_iat as int, (l.text_rva + at + 44 + 4) as nat)
        + seq![
        0x48u8, 0x89, 0xc1, 0x48, 0x8b, 0x54, 0x24, 0x28, 0x4c, 0x8b, 0x44, 0x24, 0x30, 0x4c, 0x8d, 0x0d,
    ]
        + rel32_to(l.written_rva as int, (l.text_rva + at + 64 + 4) as nat)
        + seq![
        0x48u8, 0xc7, 0x44, 0x24, 0x20, 0x00, 0x00, 0x00, 0x00, 0xff, 0x15,
    ]
        + rel32_to(l.write_file_iat as int, (l.text_rva + at + 79 + 4) as nat)
        + seq![
        0x48u8, 0x83, 0xc4, 0x48, 0xc3,
    ]
}

#[verifier::spinoff_prover]
pub(crate) fn emit_print_helper(code: &mut Vec<u8>, layout: &Layout)
    requires
        old(code)@.len() < 0x2000_0000,
        routine_targets(*layout),
    ensures
        final(code)@ == old(code)@ + print_code(*layout, old(code)@.len() as int),
        final(code)@.len() == old(code)@.len() + 88,
{
    let ghost start = code@;
    push_bytes(
        code,
        &[
            0x48, 0x83, 0xec, 0x48, 0x48, 0x89, 0x4c, 0x24, 0x28, 0x4c, 0x8b, 0x54, 0x24, 0x28, 0x4d, 0x31,
            0xc0, 0x43, 0x80, 0x3c, 0x02, 0x00, 0x74, 0x05, 0x49, 0xff, 0xc0, 0xeb, 0xf4, 0x4c, 0x89, 0xc0,
            0x4c, 0x89, 0x44, 0x24, 0x30, 0xb9, 0xf5, 0xff, 0xff, 0xff, 0xff, 0x15,
        ],
    );
    emit_rel32(code, layout.text_rva, layout.get_std_handle_iat);
    push_bytes(
        code,
        &[
            0x48, 0x89, 0xc1, 0x48, 0x8b, 0x54, 0x24, 0x28, 0x4c, 0x8b, 0x44, 0x24, 0x30, 0x4c, 0x8d, 0x0d,
        ],
    );
    emit_rel32(code, layout.text_rva, layout.written_rva);
    push_bytes(
        code,
        &[
            0x48, 0xc7, 0x44, 0x24, 0x20, 0x00, 0x00, 0x00, 0x00, 0xff, 0x15,
        ],
    );
    emit_rel32(code, layout.text_rva, layout.write_file_iat);
    push_bytes(
        code,
        &[
            0x48, 0x83, 0xc4, 0x48, 0xc3,
        ],
    );
    assert(code@ =~= start + print_code(*layout, start.len() as int));
}

/// The machine code of the Windows `println` helper routine placed at `at` in the text.
pub open spec fn println_code(l: Layout, at: int, print_rva: int, newline_rva: int) -> Seq<u8> {
    seq![
        0x48u8, 0x83, 0xec, 0x28, 0xe8,
    ]
        + rel32_to(print_rva as int, (l.text_rva + at + 5 + 4) as nat)
        + seq![
        0xb9u8, 0xf5, 0xff, 0xff, 0xff, 0xff, 0x15,
    ]
        + rel32_to(l.get_std_handle_iat as int, (l.text_rva + at + 16 + 4) as nat)
        + seq![
        0x48u8, 0x89, 0xc1, 0x48, 0x8d, 0x15,
    ]
        + rel32_to(newline_rva as int, (l.text_rva + at + 26 + 4) as nat)
        + seq![
        0x41u8, 0xb8, 0x01, 0x00, 0x00, 0x00, 0x4c, 0x8d, 0x0d,
    ]
        + rel32_to(l.written_rva as int, (l.text_rva + at + 39 + 4) as nat)
        + seq![
        0x48u8, 0xc7, 0x44, 0x24, 0x20, 0x00, 0x00, 0x00, 0x00, 0xff, 0x15,
    ]
        + rel32_to(l.write_file_iat as int, (l.text_rva + at + 54 + 4) as nat)
        + seq![
        0x48u8, 0x83, 0xc4, 0x28, 0xc3,
    ]
}

#[verifier::spinoff_prover]
pub(crate) fn emit_println_helper(code: &mut Vec<u8>, layout: &Layout, print_rva: u32, newline_rva: u32)
    requires
        old(code)@.len() < 0x2000_0000,
        routine_targets(*layout),
        print_rva < 0x4000_0000,
        newline_rva < 0x4000_0000,
    ensures
        final(code)@ == old(code)@ + println_code(*layout, old(code)@.len() as int, print_rva as int, newline_rva as int),
        final(code)@.len() == old(code)@.len() + 63,
{
    let ghost start = code@;
    push_bytes(
        code,
        &[
            0x48, 0x83, 0xec, 0x28, 0xe8,
        ],
    );
    emit_rel32(code, layout.text_rva, print_rva);
    push_bytes(
        code,
        &[
            0xb9, 0xf5, 0xff, 0xff, 0xff, 0xff, 0x15,
        ],
    );
    emit_rel32(code, layout.text_rva, layout.get_std_handle_iat);
    push_bytes(
        code,
        &[
            0x48, 0x89, 0xc1, 0x48, 0x8d, 0x15,
        ],
    );
    emit_rel32(code, layout.text_rva, newline_rva);
    push_bytes(
        code,
        &[
            0x41, 0xb8, 0x01, 0x00, 0x00, 0x00, 0x4c, 0x8d, 0x0d,
        ],
    );
    emit_rel32(code, layout.text_rva, layout.written_rva);
    push_bytes(
        code,
        &[
            0x48, 0xc7, 0x44, 0x24, 0x20, 0x00, 0x00, 0x00, 0x00, 0xff, 0x15,
        ],
    );
    emit_rel32(code, layout.text_rva, layout.write_file_iat);
    push_bytes(
        code,
        &[
            0x48, 0x83, 0xc4, 0x28, 0xc3,
        ],
    );
    assert(code@ =~= start + println_code(*layout, start.len() as int, print_rva as int, newline_rva as int));
}

/// The machine code of the Windows `alloc` helper routine placed at `at` in the text.
pub open spec fn alloc_code(l: Layout, at: int) -> Seq<u8> {
    seq![
        0x48u8, 0x83, 0xec, 0x28, 0x48, 0x89, 0xca, 0x31, 0xc9, 0x41, 0xb8, 0x00, 0x30, 0x00, 0x00, 0x41,
        0xb9, 0x04, 0x00, 0x00, 0x00, 0xff, 0x15,
    ]
        + rel32_to(l.virtual_alloc_iat as int, (l.text_rva + at + 23 + 4) as nat)
        + seq![
        0x48u8, 0x83, 0xc4, 0x28, 0xc3,
    ]
}

#[verifier::spinoff_prover]
pub(crate) fn emit_alloc_helper(code: &mut Vec<u8>, layout: &Layout)
    requires
        old(code)@.len() < 0x2000_0000,
        routine_targets(*layout),
    ensures
        final(code)@ == old(code)@ + alloc_code(*layout, old(code)@.len() as int),
        final(code)@.len() == old(code)@.len() + 32,
{
    let ghost start = code@;
    push_bytes(
        code,
        &[
            0x48, 0x83, 0xec, 0x28, 0x48, 0x89, 0xca, 0x31, 0xc9, 0x41, 0xb8, 0x00, 0x30, 0x00, 0x00, 0x41,
            0xb9, 0x04, 0x00, 0x00, 0x00, 0xff, 0x15,
        ],
    );
    emit_rel32(code, layout.text_rva, layout.virtual_alloc_iat);
    push_bytes(
        code,
        &[
            0x48, 0x83, 0xc4, 0x28, 0xc3,
        ],
    );
    assert(code@ =~= start + alloc_code(*layout, start.len() as int));
}

/// The machine code of the Windows `alloc_array` helper routine placed at `at` in the text.
pub open spec fn alloc_array_code(l: Layout, at: int) -> Seq<u8> {
    seq![
        0x48u8, 0x83, 0xec, 0x28, 0x48, 0x0f, 0xaf, 0xca, 0x48, 0x89, 0xca, 0x31, 0xc9, 0x41, 0xb8, 0x00,
        0x30, 0x00, 0x00, 0x41, 0xb9, 0x04, 0x00, 0x00, 0x00, 0xff, 0x15,
    ]
        + rel32_to(l.virtual_alloc_iat as int, (l.text_rva + at + 27 + 4) as nat)
        + seq![
        0x48u8, 0x83, 0xc4, 0x28, 0xc3,
    ]
}

#[verifier::spinoff_prover]
pub(crate) fn emit_alloc_array_helper(code: &mut Vec<u8>, layout: &Layout)
    requires
        old(code)@.len() < 0x2000_0000,
        routine_targets(*layout),
    ensures
        final(code)@ == old(code)@ + alloc_array_code(*layout, old(code)@.len() as int),
        final(code)@.len() == old(code)@.len() + 36,
{
    let ghost start = code@;
    push_bytes(
        code,
        &[
            0x48, 0x83, 0xec, 0x28, 0x48, 0x0f, 0xaf, 0xca, 0x48, 0x89, 0xca, 0x31, 0xc9, 0x41, 0xb8, 0x00,
            0x30, 0x00, 0x00, 0x41, 0xb9, 0x04, 0x00, 0x00, 0x00, 0xff, 0x15,
        ],
    );
    emit_rel32(code, layout.text_rva, layout.virtual_alloc_iat);
    push_bytes(
        code,
        &[
            0x48, 0x83, 0xc4, 0x28, 0xc3,
        ],
    );
    assert(code@ =~= start + alloc_array_code(*layout, start.len() as int));
}

/// The machine code of the Windows `mem_copy` helper routine.
pub open spec fn mem_copy_code() -> Seq<u8> {
    seq![
        0x49u8, 0x89, 0xca, 0x49, 0x89, 0xd3, 0x4c, 0x89, 0xc0, 0x48, 0x85, 0xc0, 0x74, 0x11, 0x41, 0x8a,
        0x13, 0x41, 0x88, 0x12, 0x49, 0xff, 0xc2, 0x49, 0xff, 0xc3, 0x48, 0xff, 0xc8, 0x75, 0xef, 0x31,
        0xc0, 0xc3,
    ]
}

pub(crate) fn emit_mem_copy_helper(code: &mut Vec<u8>)
    ensures
        final(code)@ == old(code)@ + mem_copy_code(),
        final(code)@.len() == old(code)@.len() + 34,
{
    let ghost start = code@;
    push_bytes(
        code,
        &[
            0x49, 0x89, 0xca, 0x49, 0x89, 0xd3, 0x4c, 0x89, 0xc0, 0x48, 0x85, 0xc0, 0x74, 0x11, 0x41, 0x8a,
            0x13, 0x41, 0x88, 0x12, 0x49, 0xff, 0xc2, 0x49, 0xff, 0xc3, 0x48, 0xff, 0xc8, 0x75, 0xef, 0x31,
            0xc0, 0xc3,
        ],
    );
    assert(code@ =~= start + mem_copy_code());
}

/// The machine code of the Windows `mem_zero` helper routine.
pub open spec fn mem_zero_code() -> Seq<u8> {
    seq![
        0x49u8, 0x89, 0xca, 0x48, 0x89, 0xd0, 0x48, 0x85, 0xc0, 0x74, 0x0c, 0x41, 0xc6, 0x02, 0x00, 0x49,
        0xff, 0xc2, 0x48, 0xff, 0xc8, 0x75, 0xf4, 0x31, 0xc0, 0xc3,
    ]
}

pub(crate) fn emit_mem_zero_helper(code: &mut Vec<u8>)
    ensures
        final(code)@ == old(code)@ + mem_zero_code(),
        final(code)@.len() == old(code)@.len() + 26,
{
    let ghost start = code@;
    push_bytes(
        code,
        &[
            0x49, 0x89, 0xca, 0x48, 0x89, 0xd0, 0x48, 0x85, 0xc0, 0x74, 0x0c, 0x41, 0xc6, 0x02, 0x00, 0x49,
            0xff, 0xc2, 0x48, 0xff, 0xc8, 0x75, 0xf4, 0x31, 0xc0, 0xc3,
        ],
    );
    assert(code@ =~= start + mem_zero_code());
}

/// The machine code of the Windows `mem_move` helper routine.
pub open spec fn mem_move_code() -> Seq<u8> {
    seq![
        0x48u8, 0x39, 0xd1, 0x76, 0x29, 0x49, 0x89, 0xca, 0x4d, 0x01, 0xc2, 0x49, 0x89, 0xd3, 0x4d, 0x01,
        0xc3, 0x49, 0xff, 0xca, 0x49, 0xff, 0xcb, 0x4c, 0x89, 0xc0, 0x41, 0x8a, 0x13, 0x41, 0x88, 0x12,
        0x49, 0xff, 0xca, 0x49, 0xff, 0xcb, 0x48, 0xff, 0xc8, 0x75, 0xef, 0x31, 0xc0, 0xc3, 0x49, 0x89,
        0xca, 0x49, 0x89, 0xd3, 0x4c, 0x89, 0xc0, 0x41, 0x8a, 0x13, 0x41, 0x88, 0x12, 0x49, 0xff, 0xc2,
        0x49, 0xff, 0xc3, 0x48, 0xff, 0xc8, 0x75, 0xef, 0x31, 0xc0, 0xc3,
    ]
}

pub(crate) fn emit_mem_move_helper(code: &mut Vec<u8>)
    ensures
        final(code)@ == old(code)@ + mem_move_code(),
        final(code)@.len() == old(code)@.len() + 75,
{
    let ghost start = code@;
    push_bytes(
        code,
        &[
            0x48, 0x39, 0xd1, 0x76, 0x29, 0x49, 0x89, 0xca, 0x4d, 0x01, 0xc2, 0x49, 0x89, 0xd3, 0x4d, 0x01,
            0xc3, 0x49, 0xff, 0xca, 0x49, 0xff, 0xcb, 0x4c, 0x89, 0xc0, 0x41, 0x8a, 0x13, 0x41, 0x88, 0x12,
            0x49, 0xff, 0xca, 0x49, 0xff, 0xcb, 0x48, 0xff, 0xc8, 0x75, 0xef, 0x31, 0xc0, 0xc3, 0x49, 0x89,
            0xca, 0x49, 0x89, 0xd3, 0x4c, 0x89, 0xc0, 0x41, 0x8a, 0x13, 0x41, 0x88, 0x12, 0x49, 0xff, 0xc2,
            0x49, 0xff, 0xc3, 0x48, 0xff, 0xc8, 0x75, 0xef, 0x31, 0xc0, 0xc3,
        ],
    );
    assert(code@ =~= start + mem_move_code());
}

/// The machine code of the Windows `string_from_byte` helper routine placed at `at` in the text.
pub open spec fn string_from_byte_code(l: Layout, at: int) -> Seq<u8> {
    seq![
        0x48u8, 0x83, 0xec, 0x28, 0x89, 0x4c, 0x24, 0x20, 0x31, 0xc9, 0xba, 0x02, 0x00, 0x00, 0x00, 0x41,
        0xb8, 0x00, 0x30, 0x00, 0x00, 0x41, 0xb9, 0x04, 0x00, 0x00, 0x00, 0xff, 0x15,
    ]
        + rel32_to(l.virtual_alloc_iat as int, (l.text_rva + at + 29 + 4) as nat)
        + seq![
        0x48u8, 0x85, 0xc0, 0x74, 0x0f, 0x8a, 0x54, 0x24, 0x20, 0x88, 0x10, 0xc6, 0x40, 0x01, 0x00, 0x48,
        0x83, 0xc4, 0x28, 0xc3, 0x31, 0xc0, 0x48, 0x83, 0xc4, 0x28, 0xc3,
    ]
}

#[verifier::spinoff_prover]
pub(crate) fn emit_string_from_byte_helper(code: &mut Vec<u8>, layout: &Layout)
    requires
        old(code)@.len() < 0x2000_0000,
        routine_targets(*layout),
    ensures
        final(code)@ == old(code)@ + string_from_byte_code(*layout, old(code)@.len() as int),
        final(code)@.len() == old(code)@.len() + 60,
{
    let ghost start = code@;
    push_bytes(
        code,
        &[
            0x48, 0x83, 0xec, 0x28, 0x89, 0x4c, 0x24, 0x20, 0x31, 0xc9, 0xba, 0x02, 0x00, 0x00, 0x00, 0x41,
            0xb8, 0x00, 0x30, 0x00, 0x00, 0x41, 0xb9, 0x04, 0x00, 0x00, 0x00, 0xff, 0x15,
        ],
    );
    emit_rel32(code, layout.text_rva, layout.virtual_alloc_iat);
    push_bytes(
        code,
        &[
            0x48, 0x85, 0xc0, 0x74, 0x0f, 0x8a, 0x54, 0x24, 0x20, 0x88, 0x10, 0xc6, 0x40, 0x01, 0x00, 0x48,
            0x83, 0xc4, 0x28, 0xc3, 0x31, 0xc0, 0x48, 0x83, 0xc4, 0x28, 0xc3,
        ],
    );
    assert(code@ =~= start + string_from_byte_code(*layout, start.len() as int));
}

/// The machine code of the Windows `string_clone` helper routine placed at `at` in the text.
pub open spec fn string_clone_code(l: Layout, at: int) -> Seq<u8> {
    seq![
        0x48u8, 0x83, 0xec, 0x58, 0x48, 0x89, 0x4c, 0x24, 0x40, 0x48, 0x89, 0xca, 0x48, 0x31, 0xc0, 0x80,
        0x3c, 0x02, 0x00, 0x74, 0x05, 0x48, 0xff, 0xc0, 0xeb, 0xf5, 0x48, 0x89, 0x44, 0x24, 0x38, 0x48,
        0xff, 0xc0, 0x48, 0x89, 0xc2, 0x31, 0xc9, 0x41, 0xb8, 0x00, 0x30, 0x00, 0x00, 0x41, 0xb9, 0x04,
        0x00, 0x00, 0x00, 0xff, 0x15,
    ]
        + rel32_to(l.virtual_alloc_iat as int, (l.text_rva + at + 53 + 4) as nat)
        + seq![
        0x48u8, 0x85, 0xc0, 0x74, 0x31, 0x48, 0x89, 0x44, 0x24, 0x48, 0x48, 0x8b, 0x54, 0x24, 0x40, 0x4c,
        0x8b, 0x54, 0x24, 0x48, 0x48, 0x8b, 0x4c, 0x24, 0x38, 0x4d, 0x31, 0xdb, 0x46, 0x8a, 0x0c, 0x1a,
        0x47, 0x88, 0x0c, 0x1a, 0x49, 0xff, 0xc3, 0x48, 0xff, 0xc9, 0x75, 0xf0, 0x48, 0x8b, 0x44, 0x24,
        0x48, 0x48, 0x83, 0xc4, 0x58, 0xc3, 0x31, 0xc0, 0x48, 0x83, 0xc4, 0x58, 0xc3,
    ]
}

#[verifier::spinoff_prover]
pub(crate) fn emit_string_clone_helper(code: &mut Vec<u8>, layout: &Layout)
    requires
        old(code)@.len() < 0x2000_0000,
        routine_targets(*layout),
    ensures
        final(code)@ == old(code)@ + string_clone_code(*layout, old(code)@.len() as int),
        final(code)@.len() == old(code)@.len() + 118,
{
    let ghost start = code@;
    push_bytes(
        code,
        &[
            0x48, 0x83, 0xec, 0x58, 0x48, 0x89, 0x4c, 0x24, 0x40, 0x48, 0x89, 0xca, 0x48, 0x31, 0xc0, 0x80,
            0x3c, 0x02, 0x00, 0x74, 0x05, 0x48, 0xff, 0xc0, 0xeb, 0xf5, 0x48, 0x89, 0x44, 0x24, 0x38, 0x48,
            0xff, 0xc0, 0x48, 0x89, 0xc2, 0x31, 0xc9, 0x41, 0xb8, 0x00, 0x30, 0x00, 0x00, 0x41, 0xb9, 0x04,
            0x00, 0x00, 0x00, 0xff, 0x15,
        ],
    );
    emit_rel32(code, layout.text_rva, layout.virtual_alloc_iat);
    push_bytes(
        code,
        &[
            0x48, 0x85, 0xc0, 0x74, 0x31, 0x48, 0x89, 0x44, 0x24, 0x48, 0x48, 0x8b, 0x54, 0x24, 0x40, 0x4c,
            0x8b, 0x54, 0x24, 0x48, 0x48, 0x8b, 0x4c, 0x24, 0x38, 0x4d, 0x31, 0xdb, 0x46, 0x8a, 0x0c, 0x1a,
            0x47, 0x88, 0x0c, 0x1a, 0x49, 0xff, 0xc3, 0x48, 0xff, 0xc9, 0x75, 0xf0, 0x48, 0x8b, 0x44, 0x24,
            0x48, 0x48, 0x83, 0xc4, 0x58, 0xc3, 0x31, 0xc0, 0x48, 0x83, 0xc4, 0x58, 0xc3,
        ],
    );
    assert(code@ =~= start + string_clone_code(*layout, start.len() as int));
}

/// The machine code of the Windows `string_slice` helper routine placed at `at` in the text.
pub open spec fn string_slice_code(l: Layout, at: int) -> Seq<u8> {
    seq![
        0x48u8, 0x83, 0xec, 0x78, 0x48, 0x89, 0x4c, 0x24, 0x40, 0x48, 0x89, 0x54, 0x24, 0x48, 0x4c, 0x89,
        0x44, 0x24, 0x50, 0x48, 0x85, 0xc9, 0x0f, 0x84, 0xc9, 0x00, 0x00, 0x00, 0x49, 0x89, 0xca, 0x31,
        0xc0, 0x41, 0x80, 0x3a, 0x00, 0x0f, 0x84, 0x38, 0x00, 0x00, 0x00, 0x49, 0xff, 0xc2, 0x48, 0xff,
        0xc0, 0xeb, 0xee, 0x48, 0x89, 0x44, 0x24, 0x58, 0x48, 0x8b, 0x54, 0x24, 0x48, 0x48, 0x39, 0xc2,
        0x0f, 0x83, 0x90, 0x00, 0x00, 0x00, 0x4c, 0x8b, 0x44, 0x24, 0x50, 0x4d, 0x85, 0xc0, 0x0f, 0x84,
        0x73, 0x00, 0x00, 0x00, 0x48, 0x2b, 0xc2, 0x49, 0x39, 0xc0, 0x0f, 0x87, 0x00, 0x00, 0x00, 0x00,
        0x49, 0x89, 0xc0, 0x4c, 0x89, 0x44, 0x24, 0x60, 0x4c, 0x89, 0xc2, 0x48, 0xff, 0xc2, 0x31, 0xc9,
        0x41, 0xb8, 0x00, 0x30, 0x00, 0x00, 0x41, 0xb9, 0x04, 0x00, 0x00, 0x00, 0xff, 0x15,
    ]
        + rel32_to(l.virtual_alloc_iat as int, (l.text_rva + at + 126 + 4) as nat)
        + seq![
        0x48u8, 0x85, 0xc0, 0x0f, 0x84, 0x5a, 0x00, 0x00, 0x00, 0x48, 0x89, 0x44, 0x24, 0x68, 0x4c, 0x8b,
        0x54, 0x24, 0x40, 0x4c, 0x03, 0x54, 0x24, 0x48, 0x4c, 0x8b, 0x58, 0x68, 0x4c, 0x8b, 0x4c, 0x24,
        0x60, 0x4d, 0x85, 0xc9, 0x0f, 0x84, 0x11, 0x00, 0x00, 0x00, 0x41, 0x8a, 0x02, 0x41, 0x88, 0x03,
        0x49, 0xff, 0xc2, 0x49, 0xff, 0xc3, 0x49, 0xff, 0xc9, 0xeb, 0xe6, 0x48, 0x8b, 0x44, 0x24, 0x68,
        0x48, 0x83, 0xc4, 0x78, 0xc3, 0x48, 0x8b, 0x44, 0x24, 0x40, 0x48, 0x03, 0x44, 0x24, 0x48, 0x48,
        0x83, 0xc4, 0x78, 0xc3, 0x48, 0x8b, 0x44, 0x24, 0x40, 0x48, 0x03, 0x44, 0x24, 0x58, 0x48, 0x83,
        0xc4, 0x78, 0xc3, 0x31, 0xc0, 0x48, 0x83, 0xc4, 0x78, 0xc3,
    ]
}

#[verifier::spinoff_prover]
pub(crate) fn emit_string_slice_helper(code: &mut Vec<u8>, layout: &Layout)
    requires
        old(code)@.len() < 0x2000_0000,
        routine_targets(*layout),
    ensures
        final(code)@ == old(code)@ + string_slice_code(*layout, old(code)@.len() as int),
        final(code)@.len() == old(code)@.len() + 236,
{
    let ghost start = code@;
    push_bytes(
        code,
        &[
            0x48, 0x83, 0xec, 0x78, 0x48, 0x89, 0x4c, 0x24, 0x40, 0x48, 0x89, 0x54, 0x24, 0x48, 0x4c, 0x89,
            0x44, 0x24, 0x50, 0x48, 0x85, 0xc9, 0x0f, 0x84, 0xc9, 0x00, 0x00, 0x00, 0x49, 0x89, 0xca, 0x31,
            0xc0, 0x41, 0x80, 0x3a, 0x00, 0x0f, 0x84, 0x38, 0x00, 0x00, 0x00, 0x49, 0xff, 0xc2, 0x48, 0xff,
            0xc0, 0xeb, 0xee, 0x48, 0x89, 0x44, 0x24, 0x58, 0x48, 0x8b, 0x54, 0x24, 0x48, 0x48, 0x39, 0xc2,
            0x0f, 0x83, 0x90, 0x00, 0x00, 0x00, 0x4c, 0x8b, 0x44, 0x24, 0x50, 0x4d, 0x85, 0xc0, 0x0f, 0x84,
            0x73, 0x00, 0x00, 0x00, 0x48, 0x2b, 0xc2, 0x49, 0x39, 0xc0, 0x0f, 0x87, 0x00, 0x00, 0x00, 0x00,
            0x49, 0x89, 0xc0, 0x4c, 0x89, 0x44, 0x24, 0x60, 0x4c, 0x89, 0xc2, 0x48, 0xff, 0xc2, 0x31, 0xc9,
            0x41, 0xb8, 0x00, 0x30, 0x00, 0x00, 0x41, 0xb9, 0x04, 0x00, 0x00, 0x00, 0xff, 0x15,
        ],
    );
    emit_rel32(code, layout.text_rva, layout.virtual_alloc_iat);
    push_bytes(
        code,
        &[
            0x48, 0x85, 0xc0, 0x0f, 0x84, 0x5a, 0x00, 0x00, 0x00, 0x48, 0x89, 0x44, 0x24, 0x68, 0x4c, 0x8b,
            0x54, 0x24, 0x40, 0x4c, 0x03, 0x54, 0x24, 0x48, 0x4c, 0x8b, 0x58, 0x68, 0x4c, 0x8b, 0x4c, 0x24,
            0x60, 0x4d, 0x85, 0xc9, 0x0f, 0x84, 0x11, 0x00, 0x00, 0x00, 0x41, 0x8a, 0x02, 0x41, 0x88, 0x03,
            0x49, 0xff, 0xc2, 0x49, 0xff, 0xc3, 0x49, 0xff, 0xc9, 0xeb, 0xe6, 0x48, 0x8b, 0x44, 0x24, 0x68,
            0x48, 0x83, 0xc4, 0x78, 0xc3, 0x48, 0x8b, 0x44, 0x24, 0x40, 0x48, 0x03, 0x44, 0x24, 0x48, 0x48,
            0x83, 0xc4, 0x78, 0xc3, 0x48, 0x8b, 0x44, 0x24, 0x40, 0x48, 0x03, 0x44, 0x24, 0x58, 0x48, 0x83,
            0xc4, 0x78, 0xc3, 0x31, 0xc0, 0x48, 0x83, 0xc4, 0x78, 0xc3,
        ],
    );
    assert(code@ =~= start + string_slice_code(*layout, start.len() as int));
}

/// The machine code of the Windows `alloc_copy` helper routine placed at `at` in the text.
pub open spec fn alloc_copy_code(l: Layout, at: int) -> Seq<u8> {
    seq![
        0x48u8, 0x83, 0xec, 0x48, 0x48, 0x89, 0x4c, 0x24, 0x38, 0x48, 0x89, 0x54, 0x24, 0x40, 0x48, 0x85,
        0xd2, 0x74, 0x56, 0x31, 0xc9, 0x48, 0x8b, 0x54, 0x24, 0x40, 0x41, 0xb8, 0x00, 0x30, 0x00, 0x00,
        0x41, 0xb9, 0x04, 0x00, 0x00, 0x00, 0xff, 0x15,
    ]
        + rel32_to(l.virtual_alloc_iat as int, (l.text_rva + at + 40 + 4) as nat)
        + seq![
        0x48u8, 0x85, 0xc0, 0x74, 0x31, 0x48, 0x89, 0x44, 0x24, 0x20, 0x48, 0x8b, 0x54, 0x24, 0x38, 0x4c,
        0x8b, 0x54, 0x24, 0x20, 0x48, 0x8b, 0x4c, 0x24, 0x40, 0x4d, 0x31, 0xdb, 0x46, 0x8a, 0x0c, 0x1a,
        0x47, 0x88, 0x0c, 0x1a, 0x49, 0xff, 0xc3, 0x48, 0xff, 0xc9, 0x75, 0xf0, 0x48, 0x8b, 0x44, 0x24,
        0x20, 0x48, 0x83, 0xc4, 0x48, 0xc3, 0x31, 0xc0, 0x48, 0x83, 0xc4, 0x48, 0xc3, 0x31, 0xc0, 0x48,
        0x83, 0xc4, 0x48, 0xc3,
    ]
}

#[verifier::spinoff_prover]
pub(crate) fn emit_alloc_copy_helper(code: &mut Vec<u8>, layout: &Layout)
    requires
        old(code)@.len() < 0x2000_0000,
        routine_targets(*layout),
    ensures
        final(code)@ == old(code)@ + alloc_copy_code(*layout, old(code)@.len() as int),
        final(code)@.len() == old(code)@.len() + 112,
{
    let ghost start = code@;
    push_bytes(
        code,
        &[
            0x48, 0x83, 0xec, 0x48, 0x48, 0x89, 0x4c, 0x24, 0x38, 0x48, 0x89, 0x54, 0x24, 0x40, 0x48, 0x85,
            0xd2, 0x74, 0x56, 0x31, 0xc9, 0x48, 0x8b, 0x54, 0x24, 0x40, 0x41, 0xb8, 0x00, 0x30, 0x00, 0x00,
            0x41, 0xb9, 0x04, 0x00, 0x00, 0x00, 0xff, 0x15,
        ],
    );
    emit_rel32(code, layout.text_rva, layout.virtual_alloc_iat);
    push_bytes(
        code,
        &[
            0x48, 0x85, 0xc0, 0x74, 0x31, 0x48, 0x89, 0x44, 0x24, 0x20, 0x48, 0x8b, 0x54, 0x24, 0x38, 0x4c,
            0x8b, 0x54, 0x24, 0x20, 0x48, 0x8b, 0x4c, 0x24, 0x40, 0x4d, 0x31, 0xdb, 0x46, 0x8a, 0x0c, 0x1a,
            0x47, 0x88, 0x0c, 0x1a, 0x49, 0xff, 0xc3, 0x48, 0xff, 0xc9, 0x75, 0xf0, 0x48, 0x8b, 0x44, 0x24,
            0x20, 0x48, 0x83, 0xc4, 0x48, 0xc3, 0x31, 0xc0, 0x48, 0x83, 0xc4, 0x48, 0xc3, 0x31, 0xc0, 0x48,
            0x83, 0xc4, 0x48, 0xc3,
        ],
    );
    assert(code@ =~= start + alloc_copy_code(*layout, start.len() as int));
}

/// The machine code of the Windows `process_exit` helper routine placed at `at` in the text.
pub open spec fn process_exit_code(l: Layout, at: int) -> Seq<u8> {
    seq![
        0x48u8, 0x83, 0xec, 0x28, 0xff, 0x15,
    ]
        + rel32_to(l.exit_process_iat as int, (l.text_rva + at + 6 + 4) as nat)
        + seq![
        0x48u8, 0x83, 0xc4, 0x28, 0xc3,
    ]
}

#[verifier::spinoff_prover]
pub(crate) fn emit_process_exit_helper(code: &mut Vec<u8>, layout: &Layout)
    requires
        old(code)@.len() < 0x2000_0000,
        routine_targets(*layout),
    ensures
        final(code)@ == old(code)@ + process_exit_code(*layout, old(code)@.len() as int),
        final(code)@.len() == old(code)@.len() + 15,
{
    let ghost start = code@;
    push_bytes(
        code,
        &[
            0x48, 0x83, 0xec, 0x28, 0xff, 0x15,
        ],
    );
    emit_rel32(code, layout.text_rva, layout.exit_process_iat);
    push_bytes(
        code,
        &[
            0x48, 0x83, 0xc4, 0x28, 0xc3,
        ],
    );
    assert(code@ =~= start + process_exit_code(*layout, start.len() as int));
}

/// The machine code of the Windows `read_file` helper routine placed at `at` in the text.
pub open spec fn read_file_code(l: Layout, at: int) -> Seq<u8> {
    seq![
        0x48u8, 0x83, 0xec, 0x58, 0x48, 0x89, 0x4c, 0x24, 0x40, 0xba, 0x00, 0x00, 0x00, 0x80, 0x41, 0xb8,
        0x01, 0x00, 0x00, 0x00, 0x45, 0x31, 0xc9, 0x48, 0xc7, 0x44, 0x24, 0x20, 0x03, 0x00, 0x00, 0x00,
        0x48, 0xc7, 0x44, 0x24, 0x28, 0x00, 0x00, 0x00, 0x00, 0x48, 0xc7, 0x44, 0x24, 0x30, 0x00, 0x00,
        0x00, 0x00, 0xff, 0x15,
    ]
        + rel32_to(l.create_file_iat as int, (l.text_rva + at + 52 + 4) as nat)
        + seq![
        0x48u8, 0x89, 0x44, 0x24, 0x30, 0x48, 0x83, 0xf8, 0xff, 0x0f, 0x84, 0x9c, 0x00, 0x00, 0x00, 0x48,
        0x8b, 0x4c, 0x24, 0x30, 0x31, 0xd2, 0xff, 0x15,
    ]
        + rel32_to(l.get_file_size_iat as int, (l.text_rva + at + 80 + 4) as nat)
        + seq![
        0x89u8, 0x44, 0x24, 0x38, 0x48, 0xff, 0xc0, 0x48, 0x89, 0xc2, 0x31, 0xc9, 0x41, 0xb8, 0x00, 0x30,
        0x00, 0x00, 0x41, 0xb9, 0x04, 0x00, 0x00, 0x00, 0xff, 0x15,
    ]
        + rel32_to(l.virtual_alloc_iat as int, (l.text_rva + at + 110 + 4) as nat)
        + seq![
        0x48u8, 0x89, 0x44, 0x24, 0x48, 0x48, 0x85, 0xc0, 0x0f, 0x84, 0x51, 0x00, 0x00, 0x00, 0x48, 0x8b,
        0x4c, 0x24, 0x30, 0x48, 0x8b, 0x54, 0x24, 0x48, 0x44, 0x8b, 0x44, 0x24, 0x38, 0x4c, 0x8d, 0x4c,
        0x24, 0x3c, 0x48, 0xc7, 0x44, 0x24, 0x20, 0x00, 0x00, 0x00, 0x00, 0xff, 0x15,
    ]
        + rel32_to(l.read_file_iat as int, (l.text_rva + at + 159 + 4) as nat)
        + seq![
        0x85u8, 0xc0, 0x0f, 0x84, 0x26, 0x00, 0x00, 0x00, 0x48, 0x8b, 0x44, 0x24, 0x48, 0x8b, 0x4c, 0x24,
        0x3c, 0x88, 0x0c, 0x08, 0x48, 0x8b, 0x44, 0x24, 0x48, 0x48, 0x8b, 0x4c, 0x24, 0x30, 0xff, 0x15,
    ]
        + rel32_to(l.close_handle_iat as int, (l.text_rva + at + 195 + 4) as nat)
        + seq![
        0x48u8, 0x8b, 0x44, 0x24, 0x48, 0x48, 0x83, 0xc4, 0x58, 0xc3, 0x48, 0x8b, 0x4c, 0x24, 0x30, 0xff,
        0x15,
    ]
        + rel32_to(l.close_handle_iat as int, (l.text_rva + at + 216 + 4) as nat)
        + seq![
        0x31u8, 0xc0, 0x48, 0x83, 0xc4, 0x58, 0xc3, 0x31, 0xc0, 0x48, 0x83, 0xc4, 0x58, 0xc3,
    ]
}

#[verifier::spinoff_prover]
pub(crate) fn emit_read_file_helper(code: &mut Vec<u8>, layout: &Layout)
    requires
        old(code)@.len() < 0x2000_0000,
        routine_targets(*layout),
    ensures
        final(code)@ == old(code)@ + read_file_code(*layout, old(code)@.len() as int),
        final(code)@.len() == old(code)@.len() + 234,
{
    let ghost start = code@;
    push_bytes(
        code,
        &[
            0x48, 0x83, 0xec, 0x58, 0x48, 0x89, 0x4c, 0x24, 0x40, 0xba, 0x00, 0x00, 0x00, 0x80, 0x41, 0xb8,
            0x01, 0x00, 0x00, 0x00, 0x45, 0x31, 0xc9, 0x48, 0xc7, 0x44, 0x24, 0x20, 0x03, 0x00, 0x00, 0x00,
            0x48, 0xc7, 0x44, 0x24, 0x28, 0x00, 0x00, 0x00, 0x00, 0x48, 0xc7, 0x44, 0x24, 0x30, 0x00, 0x00,
            0x00, 0x00, 0xff, 0x15,
        ],
    );
    emit_rel32(code, layout.text_rva, layout.create_file_iat);
    push_bytes(
        code,
        &[
            0x48, 0x89, 0x44, 0x24, 0x30, 0x48, 0x83, 0xf8, 0xff, 0x0f, 0x84, 0x9c, 0x00, 0x00, 0x00, 0x48,
            0x8b, 0x4c, 0x24, 0x30, 0x31, 0xd2, 0xff, 0x15,
        ],
    );
    emit_rel32(code, layout.text_rva, layout.get_file_size_iat);
    push_bytes(
        code,
        &[
            0x89, 0x44, 0x24, 0x38, 0x48, 0xff, 0xc0, 0x48, 0x89, 0xc2, 0x31, 0xc9, 0x41, 0xb8, 0x00, 0x30,
            0x00, 0x00, 0x41, 0xb9, 0x04, 0x00, 0x00, 0x00, 0xff, 0x15,
        ],
    );
    emit_rel32(code, layout.text_rva, layout.virtual_alloc_iat);
    push_bytes(
        code,
        &[
            0x48, 0x89, 0x44, 0x24, 0x48, 0x48, 0x85, 0xc0, 0x0f, 0x84, 0x51, 0x00, 0x00, 0x00, 0x48, 0x8b,
            0x4c, 0x24, 0x30, 0x48, 0x8b, 0x54, 0x24, 0x48, 0x44, 0x8b, 0x44, 0x24, 0x38, 0x4c, 0x8d, 0x4c,
            0x24, 0x3c, 0x48, 0xc7, 0x44, 0x24, 0x20, 0x00, 0x00, 0x00, 0x00, 0xff, 0x15,
        ],
    );
    emit_rel32(code, layout.text_rva, layout.read_file_iat);
    push_bytes(
        code,
        &[
            0x85, 0xc0, 0x0f, 0x84, 0x26, 0x00, 0x00, 0x00, 0x48, 0x8b, 0x44, 0x24, 0x48, 0x8b, 0x4c, 0x24,
            0x3c, 0x88, 0x0c, 0x08, 0x48, 0x8b, 0x44, 0x24, 0x48, 0x48, 0x8b, 0x4c, 0x24, 0x30, 0xff, 0x15,
        ],
    );
    emit_rel32(code, layout.text_rva, layout.close_handle_iat);
    push_bytes(
        code,
        &[
            0x48, 0x8b, 0x44, 0x24, 0x48, 0x48, 0x83, 0xc4, 0x58, 0xc3, 0x48, 0x8b, 0x4c, 0x24, 0x30, 0xff,
            0x15,
        ],
    );
    emit_rel32(code, layout.text_rva, layout.close_handle_iat);
    push_bytes(
        code,
        &[
            0x31, 0xc0, 0x48, 0x83, 0xc4, 0x58, 0xc3, 0x31, 0xc0, 0x48, 0x83, 0xc4, 0x58, 0xc3,
        ],
    );
    assert(code@ =~= start + read_file_code(*layout, start.len() as int));
}

/// The machine code of the Windows `read_file_or` helper routine placed at `at` in the text.
pub open spec fn read_file_or_code(l: Layout, at: int, read_file_rva: int) -> Seq<u8> {
    seq![
        0x48u8, 0x83, 0xec, 0x28, 0x48, 0x89, 0x54, 0x24, 0x20, 0xe8,
    ]
        + rel32_to(read_file_rva as int, (l.text_rva + at + 10 + 4) as nat)
        + seq![
        0x48u8, 0x85, 0xc0, 0x75, 0x05, 0x48, 0x8b, 0x44, 0x24, 0x20, 0x48, 0x83, 0xc4, 0x28, 0xc3,
    ]
}

#[verifier::spinoff_prover]
pub(crate) fn emit_read_file_or_helper(code: &mut Vec<u8>, layout: &Layout, read_file_rva: u32)
    requires
        old(code)@.len() < 0x2000_0000,
        routine_targets(*layout),
        read_file_rva < 0x4000_0000,
    ensures
        final(code)@ == old(code)@ + read_file_or_code(*layout, old(code)@.len() as int, read_file_rva as int),
        final(code)@.len() == old(code)@.len() + 29,
{
    let ghost start = code@;
    push_bytes(
        code,
        &[
            0x48, 0x83, 0xec, 0x28, 0x48, 0x89, 0x54, 0x24, 0x20, 0xe8,
        ],
    );
    emit_rel32(code, layout.text_rva, read_file_rva);
    push_bytes(
        code,
        &[
            0x48, 0x85, 0xc0, 0x75, 0x05, 0x48, 0x8b, 0x44, 0x24, 0x20, 0x48, 0x83, 0xc4, 0x28, 0xc3,
        ],
    );
    assert(code@ =~= start + read_file_or_code(*layout, start.len() as int, read_file_rva as int));
}

/// The machine code of the Windows `write_file` helper routine placed at `at` in the text.
pub open spec fn write_file_code(l: Layout, at: int) -> Seq<u8> {
    seq![
        0x48u8, 0x83, 0xec, 0x58, 0x48, 0x89, 0x4c, 0x24, 0x40, 0x48, 0x89, 0x54, 0x24, 0x48, 0x48, 0x85,
        0xd2, 0x0f, 0x84, 0xaa, 0x00, 0x00, 0x00, 0x49, 0x89, 0xd2, 0x31, 0xc0, 0x41, 0x80, 0x3a, 0x00,
        0x74, 0x08, 0x49, 0xff, 0xc2, 0x48, 0xff, 0xc0, 0xeb, 0xf2, 0x48, 0x89, 0x44, 0x24, 0x50, 0x48,
        0x8b, 0x4c, 0x24, 0x40, 0xba, 0x00, 0x00, 0x00, 0x40, 0x45, 0x31, 0xc0, 0x45, 0x31, 0xc9, 0x48,
        0xc7, 0x44, 0x24, 0x20, 0x02, 0x00, 0x00, 0x00, 0x48, 0xc7, 0x44, 0x24, 0x28, 0x00, 0x00, 0x00,
        0x00, 0x48, 0xc7, 0x44, 0x24, 0x30, 0x00, 0x00, 0x00, 0x00, 0xff, 0x15,
    ]
        + rel32_to(l.create_file_iat as int, (l.text_rva + at + 92 + 4) as nat)
        + seq![
        0x48u8, 0x89, 0x44, 0x24, 0x30, 0x48, 0x83, 0xf8, 0xff, 0x0f, 0x84, 0x3d, 0x00, 0x00, 0x00, 0x48,
        0x8b, 0x4c, 0x24, 0x30, 0x48, 0x8b, 0x54, 0x24, 0x48, 0x44, 0x8b, 0x44, 0x24, 0x50, 0x4c, 0x8d,
        0x4c, 0x24, 0x3c, 0x48, 0xc7, 0x44, 0x24, 0x20, 0x00, 0x00, 0x00, 0x00, 0xff, 0x15,
    ]
        + rel32_to(l.write_file_iat as int, (l.text_rva + at + 142 + 4) as nat)
        + seq![
        0x85u8, 0xc0, 0x0f, 0x84, 0x12, 0x00, 0x00, 0x00, 0x48, 0x8b, 0x4c, 0x24, 0x30, 0xff, 0x15,
    ]
        + rel32_to(l.close_handle_iat as int, (l.text_rva + at + 161 + 4) as nat)
        + seq![
        0x31u8, 0xc0, 0x48, 0x83, 0xc4, 0x58, 0xc3, 0x48, 0x8b, 0x4c, 0x24, 0x30, 0xff, 0x15,
    ]
        + rel32_to(l.close_handle_iat as int, (l.text_rva + at + 179 + 4) as nat)
        + seq![
        0xb8u8, 0x01, 0x00, 0x00, 0x00, 0x48, 0x83, 0xc4, 0x58, 0xc3, 0xb8, 0x01, 0x00, 0x00, 0x00, 0x48,
        0x83, 0xc4, 0x58, 0xc3,
    ]
}

#[verifier::spinoff_prover]
pub(crate) fn emit_write_file_helper(code: &mut Vec<u8>, layout: &Layout)
    requires
        old(code)@.len() < 0x2000_0000,
        routine_targets(*layout),
    ensures
        final(code)@ == old(code)@ + write_file_code(*layout, old(code)@.len() as int),
        final(code)@.len() == old(code)@.len() + 203,
{
    let ghost start = code@;
    push_bytes(
        code,
        &[
            0x48, 0x83, 0xec, 0x58, 0x48, 0x89, 0x4c, 0x24, 0x40, 0x48, 0x89, 0x54, 0x24, 0x48, 0x48, 0x85,
            0xd2, 0x0f, 0x84, 0xaa, 0x00, 0x00, 0x00, 0x49, 0x89, 0xd2, 0x31, 0xc0, 0x41, 0x80, 0x3a, 0x00,
            0x74, 0x08, 0x49, 0xff, 0xc2, 0x48, 0xff, 0xc0, 0xeb, 0xf2, 0x48, 0x89, 0x44, 0x24, 0x50, 0x48,
            0x8b, 0x4c, 0x24, 0x40, 0xba, 0x00, 0x00, 0x00, 0x40, 0x45, 0x31, 0xc0, 0x45, 0x31, 0xc9, 0x48,
            0xc7, 0x44, 0x24, 0x20, 0x02, 0x00, 0x00, 0x00, 0x48, 0xc7, 0x44, 0x24, 0x28, 0x00, 0x00, 0x00,
            0x00, 0x48, 0xc7, 0x44, 0x24, 0x30, 0x00, 0x00, 0x00, 0x00, 0xff, 0x15,
        ],
    );
    emit_rel32(code, layout.text_rva, layout.create_file_iat);
    push_bytes(
        code,
        &[
            0x48, 0x89, 0x44, 0x24, 0x30, 0x48, 0x83, 0xf8, 0xff, 0x0f, 0x84, 0x3d, 0x00, 0x00, 0x00, 0x48,
            0x8b, 0x4c, 0x24, 0x30, 0x48, 0x8b, 0x54, 0x24, 0x48, 0x44, 0x8b, 0x44, 0x24, 0x50, 0x4c, 0x8d,
            0x4c, 0x24, 0x3c, 0x48, 0xc7, 0x44, 0x24, 0x20, 0x00, 0x00, 0x00, 0x00, 0xff, 0x15,
        ],
    );
    emit_rel32(code, layout.text_rva, layout.write_file_iat);
    push_bytes(
        code,
        &[
            0x85, 0xc0, 0x0f, 0x84, 0x12, 0x00, 0x00, 0x00, 0x48, 0x8b, 0x4c, 0x24, 0x30, 0xff, 0x15,
        ],
    );
    emit_rel32(code, layout.text_rva, layout.close_handle_iat);
    push_bytes(
        code,
        &[
            0x31, 0xc0, 0x48, 0x83, 0xc4, 0x58, 0xc3, 0x48, 0x8b, 0x4c, 0x24, 0x30, 0xff, 0x15,
        ],
    );
    emit_rel32(code, layout.text_rva, layout.close_handle_iat);
    push_bytes(
        code,
        &[
            0xb8, 0x01, 0x00, 0x00, 0x00, 0x48, 0x83, 0xc4, 0x58, 0xc3, 0xb8, 0x01, 0x00, 0x00, 0x00, 0x48,
            0x83, 0xc4, 0x58, 0xc3,
        ],
    );
    assert(code@ =~= start + write_file_code(*layout, start.len() as int));
}

/// The machine code of the Windows `append_file` helper routine placed at `at` in the text.
pub open spec fn append_file_code(l: Layout, at: int) -> Seq<u8> {
    seq![
        0x48u8, 0x83, 0xec, 0x58, 0x48, 0x89, 0x4c, 0x24, 0x40, 0x48, 0x89, 0x54, 0x24, 0x48, 0x48, 0x85,
        0xc9, 0x0f, 0x84, 0xc2, 0x00, 0x00, 0x00, 0x48, 0x85, 0xd2, 0x0f, 0x84, 0x14, 0x00, 0x00, 0x00,
        0x49, 0x89, 0xd2, 0x45, 0x31, 0xdb, 0x45, 0x80, 0x3a, 0x00, 0x74, 0x08, 0x49, 0xff, 0xc2, 0x49,
        0xff, 0xc3, 0xeb, 0xf2, 0x4c, 0x89, 0x5c, 0x24, 0x50, 0x48, 0x8b, 0x4c, 0x24, 0x40, 0xba, 0x04,
        0x00, 0x00, 0x00, 0x45, 0x31, 0xc0, 0x45, 0x31, 0xc9, 0x48, 0xc7, 0x44, 0x24, 0x20, 0x04, 0x00,
        0x00, 0x00, 0x48, 0xc7, 0x44, 0x24, 0x28, 0x00, 0x00, 0x00, 0x00, 0x48, 0xc7, 0x44, 0x24, 0x30,
        0x00, 0x00, 0x00, 0x00, 0xff, 0x15,
    ]
        + rel32_to(l.create_file_iat as int, (l.text_rva + at + 102 + 4) as nat)
        + seq![
        0x48u8, 0x89, 0x44, 0x24, 0x30, 0x48, 0x83, 0xf8, 0xff, 0x0f, 0x84, 0x60, 0x00, 0x00, 0x00, 0x48,
        0x8b, 0x4c, 0x24, 0x30, 0x48, 0x8b, 0x54, 0x24, 0x48, 0x44, 0x8b, 0x44, 0x24, 0x50, 0x4c, 0x8d,
        0x4c, 0x24, 0x3c, 0x48, 0xc7, 0x44, 0x24, 0x20, 0x00, 0x00, 0x00, 0x00, 0xff, 0x15,
    ]
        + rel32_to(l.write_file_iat as int, (l.text_rva + at + 152 + 4) as nat)
        + seq![
        0x85u8, 0xc0, 0x0f, 0x84, 0x20, 0x00, 0x00, 0x00, 0x8b, 0x44, 0x24, 0x3c, 0x3b, 0x44, 0x24, 0x50,
        0x0f, 0x85, 0x12, 0x00, 0x00, 0x00, 0x48, 0x8b, 0x4c, 0x24, 0x30, 0xff, 0x15,
    ]
        + rel32_to(l.close_handle_iat as int, (l.text_rva + at + 185 + 4) as nat)
        + seq![
        0x31u8, 0xc0, 0x48, 0x83, 0xc4, 0x58, 0xc3, 0x48, 0x8b, 0x4c, 0x24, 0x30, 0xff, 0x15,
    ]
        + rel32_to(l.close_handle_iat as int, (l.text_rva + at + 203 + 4) as nat)
        + seq![
        0xb8u8, 0x01, 0x00, 0x00, 0x00, 0x48, 0x83, 0xc4, 0x58, 0xc3, 0xb8, 0x01, 0x00, 0x00, 0x00, 0x48,
        0x83, 0xc4, 0x58, 0xc3,
    ]
}

#[verifier::spinoff_prover]
pub(crate) fn emit_append_file_helper(code: &mut Vec<u8>, layout: &Layout)
    requires
        old(code)@.len() < 0x2000_0000,
        routine_targets(*layout),
    ensures
        final(code)@ == old(code)@ + append_file_code(*layout, old(code)@.len() as int),
        final(code)@.len() == old(code)@.len() + 227,
{
    let ghost start = code@;
    push_bytes(
        code,
        &[
            0x48, 0x83, 0xec, 0x58, 0x48, 0x89, 0x4c, 0x24, 0x40, 0x48, 0x89, 0x54, 0x24, 0x48, 0x48, 0x85,
            0xc9, 0x0f, 0x84, 0xc2, 0x00, 0x00, 0x00, 0x48, 0x85, 0xd2, 0x0f, 0x84, 0x14, 0x00, 0x00, 0x00,
            0x49, 0x89, 0xd2, 0x45, 0x31, 0xdb, 0x45, 0x80, 0x3a, 0x00, 0x74, 0x08, 0x49, 0xff, 0xc2, 0x49,
            0xff, 0xc3, 0xeb, 0xf2, 0x4c, 0x89, 0x5c, 0x24, 0x50, 0x48, 0x8b, 0x4c, 0x24, 0x40, 0xba, 0x04,
            0x00, 0x00, 0x00, 0x45, 0x31, 0xc0, 0x45, 0x31, 0xc9, 0x48, 0xc7, 0x44, 0x24, 0x20, 0x04, 0x00,
            0x00, 0x00, 0x48, 0xc7, 0x44, 0x24, 0x28, 0x00, 0x00, 0x00, 0x00, 0x48, 0xc7, 0x44, 0x24, 0x30,
            0x00, 0x00, 0x00, 0x00, 0xff, 0x15,
        ],
    );
    emit_rel32(code, layout.text_rva, layout.create_file_iat);
    push_bytes(
        code,
        &[
            0x48, 0x89, 0x44, 0x24, 0x30, 0x48, 0x83, 0xf8, 0xff, 0x0f, 0x84, 0x60, 0x00, 0x00, 0x00, 0x48,
            0x8b, 0x4c, 0x24, 0x30, 0x48, 0x8b, 0x54, 0x24, 0x48, 0x44, 0x8b, 0x44, 0x24, 0x50, 0x4c, 0x8d,
            0x4c, 0x24, 0x3c, 0x48, 0xc7, 0x44, 0x24, 0x20, 0x00, 0x00, 0x00, 0x00, 0xff, 0x15,
        ],
    );
    emit_rel32(code, layout.text_rva, layout.write_file_iat);
    push_bytes(
        code,
        &[
            0x85, 0xc0, 0x0f, 0x84, 0x20, 0x00, 0x00, 0x00, 0x8b, 0x44, 0x24, 0x3c, 0x3b, 0x44, 0x24, 0x50,
            0x0f, 0x85, 0x12, 0x00, 0x00, 0x00, 0x48, 0x8b, 0x4c, 0x24, 0x30, 0xff, 0x15,
        ],
    );
    emit_rel32(code, layout.text_rva, layout.close_handle_iat);
    push_bytes(
        code,
        &[
            0x31, 0xc0, 0x48, 0x83, 0xc4, 0x58, 0xc3, 0x48, 0x8b, 0x4c, 0x24, 0x30, 0xff, 0x15,
        ],
    );
    emit_rel32(code, layout.text_rva, layout.close_handle_iat);
    push_bytes(
        code,
        &[
            0xb8, 0x01, 0x00, 0x00, 0x00, 0x48, 0x83, 0xc4, 0x58, 0xc3, 0xb8, 0x01, 0x00, 0x00, 0x00, 0x48,
            0x83, 0xc4, 0x58, 0xc3,
        ],
    );
    assert(code@ =~= start + append_file_code(*layout, start.len() as int));
}

/// The machine code of the Windows `touch_file` helper routine placed at `at` in the text.
pub open spec fn touch_file_code(l: Layout, at: int) -> Seq<u8> {
    seq![
        0x48u8, 0x83, 0xec, 0x48, 0x48, 0x89, 0x4c, 0x24, 0x38, 0x48, 0x85, 0xc9, 0x0f, 0x84, 0x4b, 0x00,
        0x00, 0x00, 0x48, 0x8b, 0x4c, 0x24, 0x38, 0xba, 0x00, 0x00, 0x00, 0x40, 0x45, 0x31, 0xc0, 0x45,
        0x31, 0xc9, 0x48, 0xc7, 0x44, 0x24, 0x20, 0x04, 0x00, 0x00, 0x00, 0x48, 0xc7, 0x44, 0x24, 0x28,
        0x00, 0x00, 0x00, 0x00, 0x48, 0xc7, 0x44, 0x24, 0x30, 0x00, 0x00, 0x00, 0x00, 0xff, 0x15,
    ]
        + rel32_to(l.create_file_iat as int, (l.text_rva + at + 63 + 4) as nat)
        + seq![
        0x48u8, 0x83, 0xf8, 0xff, 0x0f, 0x84, 0x10, 0x00, 0x00, 0x00, 0x48, 0x89, 0xc1, 0xff, 0x15,
    ]
        + rel32_to(l.close_handle_iat as int, (l.text_rva + at + 82 + 4) as nat)
        + seq![
        0x31u8, 0xc0, 0x48, 0x83, 0xc4, 0x48, 0xc3, 0xb8, 0x01, 0x00, 0x00, 0x00, 0x48, 0x83, 0xc4, 0x48,
        0xc3,
    ]
}

#[verifier::spinoff_prover]
pub(crate) fn emit_touch_file_helper(code: &mut Vec<u8>, layout: &Layout)
    requires
        old(code)@.len() < 0x2000_0000,
        routine_targets(*layout),
    ensures
        final(code)@ == old(code)@ + touch_file_code(*layout, old(code)@.len() as int),
        final(code)@.len() == old(code)@.len() + 103,
{
    let ghost start = code@;
    push_bytes(
        code,
        &[
            0x48, 0x83, 0xec, 0x48, 0x48, 0x89, 0x4c, 0x24, 0x38, 0x48, 0x85, 0xc9, 0x0f, 0x84, 0x4b, 0x00,
            0x00, 0x00, 0x48, 0x8b, 0x4c, 0x24, 0x38, 0xba, 0x00, 0x00, 0x00, 0x40, 0x45, 0x31, 0xc0, 0x45,
            0x31, 0xc9, 0x48, 0xc7, 0x44, 0x24, 0x20, 0x04, 0x00, 0x00, 0x00, 0x48, 0xc7, 0x44, 0x24, 0x28,
            0x00, 0x00, 0x00, 0x00, 0x48, 0xc7, 0x44, 0x24, 0x30, 0x00, 0x00, 0x00, 0x00, 0xff, 0x15,
        ],
    );
    emit_rel32(code, layout.text_rva, layout.create_file_iat);
    push_bytes(
        code,
        &[
            0x48, 0x83, 0xf8, 0xff, 0x0f, 0x84, 0x10, 0x00, 0x00, 0x00, 0x48, 0x89, 0xc1, 0xff, 0x15,
        ],
    );
    emit_rel32(code, layout.text_rva, layout.close_handle_iat);
    push_bytes(
        code,
        &[
            0x31, 0xc0, 0x48, 0x83, 0xc4, 0x48, 0xc3, 0xb8, 0x01, 0x00, 0x00, 0x00, 0x48, 0x83, 0xc4, 0x48,
            0xc3,
        ],
    );
    assert(code@ =~= start + touch_file_code(*layout, start.len() as int));
}

/// The machine code of the Windows `remove_file` helper routine placed at `at` in the text.
pub open spec fn remove_file_code(l: Layout, at: int) -> Seq<u8> {
    seq![
        0x48u8, 0x85, 0xc9, 0x74, 0x0d, 0xff, 0x15,
    ]
        + rel32_to(l.delete_file_iat as int, (l.text_rva + at + 7 + 4) as nat)
        + seq![
        0x85u8, 0xc0, 0x74, 0x03, 0x31, 0xc0, 0xc3, 0xb8, 0x01, 0x00, 0x00, 0x00, 0xc3,
    ]
}

#[verifier::spinoff_prover]
pub(crate) fn emit_remove_file_helper(code: &mut Vec<u8>, layout: &Layout)
    requires
        old(code)@.len() < 0x2000_0000,
        routine_targets(*layout),
    ensures
        final(code)@ == old(code)@ + remove_file_code(*layout, old(code)@.len() as int),
        final(code)@.len() == old(code)@.len() + 24,
{
    let ghost start = code@;
    push_bytes(
        code,
        &[
            0x48, 0x85, 0xc9, 0x74, 0x0d, 0xff, 0x15,
        ],
    );
    emit_rel32(code, layout.text_rva, layout.delete_file_iat);
    push_bytes(
        code,
        &[
            0x85, 0xc0, 0x74, 0x03, 0x31, 0xc0, 0xc3, 0xb8, 0x01, 0x00, 0x00, 0x00, 0xc3,
        ],
    );
    assert(code@ =~= start + remove_file_code(*layout, start.len() as int));
}

/// The machine code of the Windows `file_open` helper routine placed at `at` in the text.
pub open spec fn file_open_code(l: Layout, at: int) -> Seq<u8> {
    seq![
        0x48u8, 0x83, 0xec, 0x48, 0x48, 0x89, 0x4c, 0x24, 0x38, 0x48, 0x85, 0xc9, 0x0f, 0x84, 0x39, 0x00,
        0x00, 0x00, 0x48, 0x8b, 0x4c, 0x24, 0x38, 0xba, 0x00, 0x00, 0x00, 0x80, 0x41, 0xb8, 0x01, 0x00,
        0x00, 0x00, 0x45, 0x31, 0xc9, 0x48, 0xc7, 0x44, 0x24, 0x20, 0x03, 0x00, 0x00, 0x00, 0x48, 0xc7,
        0x44, 0x24, 0x28, 0x00, 0x00, 0x00, 0x00, 0x48, 0xc7, 0x44, 0x24, 0x30, 0x00, 0x00, 0x00, 0x00,
        0xff, 0x15,
    ]
        + rel32_to(l.create_file_iat as int, (l.text_rva + at + 66 + 4) as nat)
        + seq![
        0x48u8, 0x83, 0xc4, 0x48, 0xc3, 0x48, 0xc7, 0xc0, 0xff, 0xff, 0xff, 0xff, 0x48, 0x83, 0xc4, 0x48,
        0xc3,
    ]
}

#[verifier::spinoff_prover]
pub(crate) fn emit_file_open_helper(code: &mut Vec<u8>, layout: &Layout)
    requires
        old(code)@.len() < 0x2000_0000,
        routine_targets(*layout),
    ensures
        final(code)@ == old(code)@ + file_open_code(*layout, old(code)@.len() as int),
        final(code)@.len() == old(code)@.len() + 87,
{
    let ghost start = code@;
    push_bytes(
        code,
        &[
            0x48, 0x83, 0xec, 0x48, 0x48, 0x89, 0x4c, 0x24, 0x38, 0x48, 0x85, 0xc9, 0x0f, 0x84, 0x39, 0x00,
            0x00, 0x00, 0x48, 0x8b, 0x4c, 0x24, 0x38, 0xba, 0x00, 0x00, 0x00, 0x80, 0x41, 0xb8, 0x01, 0x00,
            0x00, 0x00, 0x45, 0x31, 0xc9, 0x48, 0xc7, 0x44, 0x24, 0x20, 0x03, 0x00, 0x00, 0x00, 0x48, 0xc7,
            0x44, 0x24, 0x28, 0x00, 0x00, 0x00, 0x00, 0x48, 0xc7, 0x44, 0x24, 0x30, 0x00, 0x00, 0x00, 0x00,
            0xff, 0x15,
        ],
    );
    emit_rel32(code, layout.text_rva, layout.create_file_iat);
    push_bytes(
        code,
        &[
            0x48, 0x83, 0xc4, 0x48, 0xc3, 0x48, 0xc7, 0xc0, 0xff, 0xff, 0xff, 0xff, 0x48, 0x83, 0xc4, 0x48,
            0xc3,
        ],
    );
    assert(code@ =~= start + file_open_code(*layout, start.len() as int));
}

/// The machine code of the Windows `file_open_write` helper routine placed at `at` in the text.
pub open spec fn file_open_write_code(l: Layout, at: int) -> Seq<u8> {
    seq![
        0x48u8, 0x83, 0xec, 0x48, 0x48, 0x89, 0x4c, 0x24, 0x38, 0x48, 0x85, 0xc9, 0x0f, 0x84, 0x39, 0x00,
        0x00, 0x00, 0x48, 0x8b, 0x4c, 0x24, 0x38, 0xba, 0x00, 0x00, 0x00, 0x40, 0x41, 0xb8, 0x00, 0x00,
        0x00, 0x00, 0x45, 0x31, 0xc9, 0x48, 0xc7, 0x44, 0x24, 0x20, 0x02, 0x00, 0x00, 0x00, 0x48, 0xc7,
        0x44, 0x24, 0x28, 0x00, 0x00, 0x00, 0x00, 0x48, 0xc7, 0x44, 0x24, 0x30, 0x00, 0x00, 0x00, 0x00,
        0xff, 0x15,
    ]
        + rel32_to(l.create_file_iat as int, (l.text_rva + at + 66 + 4) as nat)
        + seq![
        0x48u8, 0x83, 0xc4, 0x48, 0xc3, 0x48, 0xc7, 0xc0, 0xff, 0xff, 0xff, 0xff, 0x48, 0x83, 0xc4, 0x48,
        0xc3,
    ]
}

#[verifier::spinoff_prover]
pub(crate) fn emit_file_open_write_helper(code: &mut Vec<u8>, layout: &Layout)
    requires
        old(code)@.len() < 0x2000_0000,
        routine_targets(*layout),
    ensures
        final(code)@ == old(code)@ + file_open_write_code(*layout, old(code)@.len() as int),
        final(code)@.len() == old(code)@.len() + 87,
{
    let ghost start = code@;
    push_bytes(
        code,
        &[
            0x48, 0x83, 0xec, 0x48, 0x48, 0x89, 0x4c, 0x24, 0x38, 0x48, 0x85, 0xc9, 0x0f, 0x84, 0x39, 0x00,
            0x00, 0x00, 0x48, 0x8b, 0x4c, 0x24, 0x38, 0xba, 0x00, 0x00, 0x00, 0x40, 0x41, 0xb8, 0x00, 0x00,
            0x00, 0x00, 0x45, 0x31, 0xc9, 0x48, 0xc7, 0x44, 0x24, 0x20, 0x02, 0x00, 0x00, 0x00, 0x48, 0xc7,
            0x44, 0x24, 0x28, 0x00, 0x00, 0x00, 0x00, 0x48, 0xc7, 0x44, 0x24, 0x30, 0x00, 0x00, 0x00, 0x00,
            0xff, 0x15,
        ],
    );
    emit_rel32(code, layout.text_rva, layout.create_file_iat);
    push_bytes(
        code,
        &[
            0x48, 0x83, 0xc4, 0x48, 0xc3, 0x48, 0xc7, 0xc0, 0xff, 0xff, 0xff, 0xff, 0x48, 0x83, 0xc4, 0x48,
            0xc3,
        ],
    );
    assert(code@ =~= start + file_open_write_code(*layout, start.len() as int));
}

/// The machine code of the Windows `file_open_append` helper routine placed at `at` in the text.
pub open spec fn file_open_append_code(l: Layout, at: int) -> Seq<u8> {
    seq![
        0x48u8, 0x83, 0xec, 0x48, 0x48, 0x89, 0x4c, 0x24, 0x38, 0x48, 0x85, 0xc9, 0x0f, 0x84, 0x39, 0x00,
        0x00, 0x00, 0x48, 0x8b, 0x4c, 0x24, 0x38, 0xba, 0x04, 0x00, 0x00, 0x00, 0x41, 0xb8, 0x00, 0x00,
        0x00, 0x00, 0x45, 0x31, 0xc9, 0x48, 0xc7, 0x44, 0x24, 0x20, 0x04, 0x00, 0x00, 0x00, 0x48, 0xc7,
        0x44, 0x24, 0x28, 0x00, 0x00, 0x00, 0x00, 0x48, 0xc7, 0x44, 0x24, 0x30, 0x00, 0x00, 0x00, 0x00,
        0xff, 0x15,
    ]
        + rel32_to(l.create_file_iat as int, (l.text_rva + at + 66 + 4) as nat)
        + seq![
        0x48u8, 0x83, 0xc4, 0x48, 0xc3, 0x48, 0xc7, 0xc0, 0xff, 0xff, 0xff, 0xff, 0x48, 0x83, 0xc4, 0x48,
        0xc3,
    ]
}

#[verifier::spinoff_prover]
pub(crate) fn emit_file_open_append_helper(code: &mut Vec<u8>, layout: &Layout)
    requires
        old(code)@.len() < 0x2000_0000,
        routine_targets(*layout),
    ensures
        final(code)@ == old(code)@ + file_open_append_code(*layout, old(code)@.len() as int),
        final(code)@.len() == old(code)@.len() + 87,
{
    let ghost start = code@;
    push_bytes(
        code,
        &[
            0x48, 0x83, 0xec, 0x48, 0x48, 0x89, 0x4c, 0x24, 0x38, 0x48, 0x85, 0xc9, 0x0f, 0x84, 0x39, 0x00,
            0x00, 0x00, 0x48, 0x8b, 0x4c, 0x24, 0x38, 0xba, 0x04, 0x00, 0x00, 0x00, 0x41, 0xb8, 0x00, 0x00,
            0x00, 0x00, 0x45, 0x31, 0xc9, 0x48, 0xc7, 0x44, 0x24, 0x20, 0x04, 0x00, 0x00, 0x00, 0x48, 0xc7,
            0x44, 0x24, 0x28, 0x00, 0x00, 0x00, 0x00, 0x48, 0xc7, 0x44, 0x24, 0x30, 0x00, 0x00, 0x00, 0x00,
            0xff, 0x15,
        ],
    );
    emit_rel32(code, layout.text_rva, layout.create_file_iat);
    push_bytes(
        code,
        &[
            0x48, 0x83, 0xc4, 0x48, 0xc3, 0x48, 0xc7, 0xc0, 0xff, 0xff, 0xff, 0xff, 0x48, 0x83, 0xc4, 0x48,
            0xc3,
        ],
    );
    assert(code@ =~= start + file_open_append_code(*layout, start.len() as int));
}

/// The machine code of the Windows `file_write` helper routine placed at `at` in the text.
pub open spec fn file_write_code(l: Layout, at: int) -> Seq<u8> {
    seq![
        0x48u8, 0x83, 0xec, 0x58, 0x48, 0x89, 0x4c, 0x24, 0x40, 0x48, 0x89, 0x54, 0x24, 0x48, 0x49, 0x89,
        0xd2, 0x45, 0x31, 0xdb, 0x48, 0x85, 0xd2, 0x0f, 0x84, 0x0e, 0x00, 0x00, 0x00, 0x45, 0x80, 0x3a,
        0x00, 0x74, 0x08, 0x49, 0xff, 0xc2, 0x49, 0xff, 0xc3, 0xeb, 0xf2, 0x4c, 0x89, 0x5c, 0x24, 0x50,
        0x48, 0x8b, 0x4c, 0x24, 0x40, 0x48, 0x8b, 0x54, 0x24, 0x48, 0x44, 0x8b, 0x44, 0x24, 0x50, 0x4c,
        0x8d, 0x4c, 0x24, 0x3c, 0x48, 0xc7, 0x44, 0x24, 0x20, 0x00, 0x00, 0x00, 0x00, 0xff, 0x15,
    ]
        + rel32_to(l.write_file_iat as int, (l.text_rva + at + 79 + 4) as nat)
        + seq![
        0x85u8, 0xc0, 0x0f, 0x84, 0x15, 0x00, 0x00, 0x00, 0x8b, 0x44, 0x24, 0x3c, 0x3b, 0x44, 0x24, 0x50,
        0x0f, 0x85, 0x07, 0x00, 0x00, 0x00, 0x31, 0xc0, 0x48, 0x83, 0xc4, 0x58, 0xc3, 0xb8, 0x01, 0x00,
        0x00, 0x00, 0x48, 0x83, 0xc4, 0x58, 0xc3,
    ]
}

#[verifier::spinoff_prover]
pub(crate) fn emit_file_write_helper(code: &mut Vec<u8>, layout: &Layout)
    requires
        old(code)@.len() < 0x2000_0000,
        routine_targets(*layout),
    ensures
        final(code)@ == old(code)@ + file_write_code(*layout, old(code)@.len() as int),
        final(code)@.len() == old(code)@.len() + 122,
{
    let ghost start = code@;
    push_bytes(
        code,
        &[
            0x48, 0x83, 0xec, 0x58, 0x48, 0x89, 0x4c, 0x24, 0x40, 0x48, 0x89, 0x54, 0x24, 0x48, 0x49, 0x89,
            0xd2, 0x45, 0x31, 0xdb, 0x48, 0x85, 0xd2, 0x0f, 0x84, 0x0e, 0x00, 0x00, 0x00, 0x45, 0x80, 0x3a,
            0x00, 0x74, 0x08, 0x49, 0xff, 0xc2, 0x49, 0xff, 0xc3, 0xeb, 0xf2, 0x4c, 0x89, 0x5c, 0x24, 0x50,
            0x48, 0x8b, 0x4c, 0x24, 0x40, 0x48, 0x8b, 0x54, 0x24, 0x48, 0x44, 0x8b, 0x44, 0x24, 0x50, 0x4c,
            0x8d, 0x4c, 0x24, 0x3c, 0x48, 0xc7, 0x44, 0x24, 0x20, 0x00, 0x00, 0x00, 0x00, 0xff, 0x15,
        ],
    );
    emit_rel32(code, layout.text_rva, layout.write_file_iat);
    push_bytes(
        code,
        &[
            0x85, 0xc0, 0x0f, 0x84, 0x15, 0x00, 0x00, 0x00, 0x8b, 0x44, 0x24, 0x3c, 0x3b, 0x44, 0x24, 0x50,
            0x0f, 0x85, 0x07, 0x00, 0x00, 0x00, 0x31, 0xc0, 0x48, 0x83, 0xc4, 0x58, 0xc3, 0xb8, 0x01, 0x00,
            0x00, 0x00, 0x48, 0x83, 0xc4, 0x58, 0xc3,
        ],
    );
    assert(code@ =~= start + file_write_code(*layout, start.len() as int));
}

/// The machine code of the Windows `file_close` helper routine placed at `at` in the text.
pub open spec fn file_close_code(l: Layout, at: int) -> Seq<u8> {
    seq![
        0x48u8, 0x83, 0xec, 0x28, 0xff, 0x15,
    ]
        + rel32_to(l.close_handle_iat as int, (l.text_rva + at + 6 + 4) as nat)
        + seq![
        0x31u8, 0xc0, 0x48, 0x83, 0xc4, 0x28, 0xc3,
    ]
}

#[verifier::spinoff_prover]
pub(crate) fn emit_file_close_helper(code: &mut Vec<u8>, layout: &Layout)
    requires
        old(code)@.len() < 0x2000_0000,
        routine_targets(*layout),
    ensures
        final(code)@ == old(code)@ + file_close_code(*layout, old(code)@.len() as int),
        final(code)@.len() == old(code)@.len() + 17,
{
    let ghost start = code@;
    push_bytes(
        code,
        &[
            0x48, 0x83, 0xec, 0x28, 0xff, 0x15,
        ],
    );
    emit_rel32(code, layout.text_rva, layout.close_handle_iat);
    push_bytes(
        code,
        &[
            0x31, 0xc0, 0x48, 0x83, 0xc4, 0x28, 0xc3,
        ],
    );
    assert(code@ =~= start + file_close_code(*layout, start.len() as int));
}

/// The machine code of the Windows `file_read_to_string` helper routine placed at `at` in the text.
pub open spec fn file_read_to_string_code(l: Layout, at: int) -> Seq<u8> {
    seq![
        0x48u8, 0x83, 0xec, 0x58, 0x48, 0x89, 0x4c, 0x24, 0x30, 0x48, 0x85, 0xc9, 0x0f, 0x84, 0x84, 0x00,
        0x00, 0x00, 0x48, 0x8b, 0x4c, 0x24, 0x30, 0x31, 0xd2, 0xff, 0x15,
    ]
        + rel32_to(l.get_file_size_iat as int, (l.text_rva + at + 27 + 4) as nat)
        + seq![
        0x89u8, 0x44, 0x24, 0x38, 0x83, 0xf8, 0xff, 0x0f, 0x84, 0x6a, 0x00, 0x00, 0x00, 0x48, 0xff, 0xc0,
        0x48, 0x89, 0xc2, 0x31, 0xc9, 0x41, 0xb8, 0x00, 0x30, 0x00, 0x00, 0x41, 0xb9, 0x04, 0x00, 0x00,
        0x00, 0xff, 0x15,
    ]
        + rel32_to(l.virtual_alloc_iat as int, (l.text_rva + at + 66 + 4) as nat)
        + seq![
        0x48u8, 0x89, 0x44, 0x24, 0x40, 0x48, 0x85, 0xc0, 0x0f, 0x84, 0x42, 0x00, 0x00, 0x00, 0x48, 0x8b,
        0x4c, 0x24, 0x30, 0x48, 0x8b, 0x54, 0x24, 0x40, 0x44, 0x8b, 0x44, 0x24, 0x38, 0x4c, 0x8d, 0x4c,
        0x24, 0x48, 0x48, 0xc7, 0x44, 0x24, 0x20, 0x00, 0x00, 0x00, 0x00, 0xff, 0x15,
    ]
        + rel32_to(l.read_file_iat as int, (l.text_rva + at + 115 + 4) as nat)
        + seq![
        0x85u8, 0xc0, 0x0f, 0x84, 0x17, 0x00, 0x00, 0x00, 0x48, 0x8b, 0x44, 0x24, 0x40, 0x8b, 0x4c, 0x24,
        0x48, 0xc6, 0x04, 0x08, 0x00, 0x48, 0x8b, 0x44, 0x24, 0x40, 0x48, 0x83, 0xc4, 0x58, 0xc3, 0x31,
        0xc0, 0x48, 0x83, 0xc4, 0x58, 0xc3,
    ]
}

#[verifier::spinoff_prover]
pub(crate) fn emit_file_read_to_string_helper(code: &mut Vec<u8>, layout: &Layout)
    requires
        old(code)@.len() < 0x2000_0000,
        routine_targets(*layout),
    ensures
        final(code)@ == old(code)@ + file_read_to_string_code(*layout, old(code)@.len() as int),
        final(code)@.len() == old(code)@.len() + 157,
{
    let ghost start = code@;
    push_bytes(
        code,
        &[
            0x48, 0x83, 0xec, 0x58, 0x48, 0x89, 0x4c, 0x24, 0x30, 0x48, 0x85, 0xc9, 0x0f, 0x84, 0x84, 0x00,
            0x00, 0x00, 0x48, 0x8b, 0x4c, 0x24, 0x30, 0x31, 0xd2, 0xff, 0x15,
        ],
    );
    emit_rel32(code, layout.text_rva, layout.get_file_size_iat);
    push_bytes(
        code,
        &[
            0x89, 0x44, 0x24, 0x38, 0x83, 0xf8, 0xff, 0x0f, 0x84, 0x6a, 0x00, 0x00, 0x00, 0x48, 0xff, 0xc0,
            0x48, 0x89, 0xc2, 0x31, 0xc9, 0x41, 0xb8, 0x00, 0x30, 0x00, 0x00, 0x41, 0xb9, 0x04, 0x00, 0x00,
            0x00, 0xff, 0x15,
        ],
    );
    emit_rel32(code, layout.text_rva, layout.virtual_alloc_iat);
    push_bytes(
        code,
        &[
            0x48, 0x89, 0x44, 0x24, 0x40, 0x48, 0x85, 0xc0, 0x0f, 0x84, 0x42, 0x00, 0x00, 0x00, 0x48, 0x8b,
            0x4c, 0x24, 0x30, 0x48, 0x8b, 0x54, 0x24, 0x40, 0x44, 0x8b, 0x44, 0x24, 0x38, 0x4c, 0x8d, 0x4c,
            0x24, 0x48, 0x48, 0xc7, 0x44, 0x24, 0x20, 0x00, 0x00, 0x00, 0x00, 0xff, 0x15,
        ],
    );
    emit_rel32(code, layout.text_rva, layout.read_file_iat);
    push_bytes(
        code,
        &[
            0x85, 0xc0, 0x0f, 0x84, 0x17, 0x00, 0x00, 0x00, 0x48, 0x8b, 0x44, 0x24, 0x40, 0x8b, 0x4c, 0x24,
            0x48, 0xc6, 0x04, 0x08, 0x00, 0x48, 0x8b, 0x44, 0x24, 0x40, 0x48, 0x83, 0xc4, 0x58, 0xc3, 0x31,
            0xc0, 0x48, 0x83, 0xc4, 0x58, 0xc3,
        ],
    );
    assert(code@ =~= start + file_read_to_string_code(*layout, start.len() as int));
}

/// The machine code of the Windows `file_size` helper routine placed at `at` in the text.
pub open spec fn file_size_code(l: Layout, at: int) -> Seq<u8> {
    seq![
        0x48u8, 0x83, 0xec, 0x48, 0x48, 0x89, 0x4c, 0x24, 0x38, 0x48, 0x85, 0xc9, 0x74, 0x5f, 0xba, 0x00,
        0x00, 0x00, 0x80, 0x41, 0xb8, 0x01, 0x00, 0x00, 0x00, 0x45, 0x31, 0xc9, 0x48, 0xc7, 0x44, 0x24,
        0x20, 0x03, 0x00, 0x00, 0x00, 0x48, 0xc7, 0x44, 0x24, 0x28, 0x00, 0x00, 0x00, 0x00, 0x48, 0xc7,
        0x44, 0x24, 0x30, 0x00, 0x00, 0x00, 0x00, 0xff, 0x15,
    ]
        + rel32_to(l.create_file_iat as int, (l.text_rva + at + 57 + 4) as nat)
        + seq![
        0x48u8, 0x89, 0x44, 0x24, 0x30, 0x48, 0x83, 0xf8, 0xff, 0x74, 0x25, 0x48, 0x8b, 0x4c, 0x24, 0x30,
        0x31, 0xd2, 0xff, 0x15,
    ]
        + rel32_to(l.get_file_size_iat as int, (l.text_rva + at + 81 + 4) as nat)
        + seq![
        0x89u8, 0x44, 0x24, 0x40, 0x48, 0x8b, 0x4c, 0x24, 0x30, 0xff, 0x15,
    ]
        + rel32_to(l.close_handle_iat as int, (l.text_rva + at + 96 + 4) as nat)
        + seq![
        0x8bu8, 0x44, 0x24, 0x40, 0x48, 0x83, 0xc4, 0x48, 0xc3, 0x31, 0xc0, 0x48, 0x83, 0xc4, 0x48, 0xc3,
    ]
}

#[verifier::spinoff_prover]
pub(crate) fn emit_file_size_helper(code: &mut Vec<u8>, layout: &Layout)
    requires
        old(code)@.len() < 0x2000_0000,
        routine_targets(*layout),
    ensures
        final(code)@ == old(code)@ + file_size_code(*layout, old(code)@.len() as int),
        final(code)@.len() == old(code)@.len() + 116,
{
    let ghost start = code@;
    push_bytes(
        code,
        &[
            0x48, 0x83, 0xec, 0x48, 0x48, 0x89, 0x4c, 0x24, 0x38, 0x48, 0x85, 0xc9, 0x74, 0x5f, 0xba, 0x00,
            0x00, 0x00, 0x80, 0x41, 0xb8, 0x01, 0x00, 0x00, 0x00, 0x45, 0x31, 0xc9, 0x48, 0xc7, 0x44, 0x24,
            0x20, 0x03, 0x00, 0x00, 0x00, 0x48, 0xc7, 0x44, 0x24, 0x28, 0x00, 0x00, 0x00, 0x00, 0x48, 0xc7,
            0x44, 0x24, 0x30, 0x00, 0x00, 0x00, 0x00, 0xff, 0x15,
        ],
    );
    emit_rel32(code, layout.text_rva, layout.create_file_iat);
    push_bytes(
        code,
        &[
            0x48, 0x89, 0x44, 0x24, 0x30, 0x48, 0x83, 0xf8, 0xff, 0x74, 0x25, 0x48, 0x8b, 0x4c, 0x24, 0x30,
            0x31, 0xd2, 0xff, 0x15,
        ],
    );
    emit_rel32(code, layout.text_rva, layout.get_file_size_iat);
    push_bytes(
        code,
        &[
            0x89, 0x44, 0x24, 0x40, 0x48, 0x8b, 0x4c, 0x24, 0x30, 0xff, 0x15,
        ],
    );
    emit_rel32(code, layout.text_rva, layout.close_handle_iat);
    push_bytes(
        code,
        &[
            0x8b, 0x44, 0x24, 0x40, 0x48, 0x83, 0xc4, 0x48, 0xc3, 0x31, 0xc0, 0x48, 0x83, 0xc4, 0x48, 0xc3,
        ],
    );
    assert(code@ =~= start + file_size_code(*layout, start.len() as int));
}

/// The machine code of the Windows `file_is_empty` helper routine placed at `at` in the text.
pub open spec fn file_is_empty_code(l: Layout, at: int, file_size_rva: int) -> Seq<u8> {
    seq![
        0x48u8, 0x83, 0xec, 0x28, 0xe8,
    ]
        + rel32_to(file_size_rva as int, (l.text_rva + at + 5 + 4) as nat)
        + seq![
        0x48u8, 0x85, 0xc0, 0x0f, 0x94, 0xc0, 0x0f, 0xb6, 0xc0, 0x48, 0x83, 0xc4, 0x28, 0xc3,
    ]
}

#[verifier::spinoff_prover]
pub(crate) fn emit_file_is_empty_helper(code: &mut Vec<u8>, layout: &Layout, file_size_rva: u32)
    requires
        old(code)@.len() < 0x2000_0000,
        routine_targets(*layout),
        file_size_rva < 0x4000_0000,
    ensures
        final(code)@ == old(code)@ + file_is_empty_code(*layout, old(code)@.len() as int, file_size_rva as int),
        final(code)@.len() == old(code)@.len() + 23,
{
    let ghost start = code@;
    push_bytes(
        code,
        &[
            0x48, 0x83, 0xec, 0x28, 0xe8,
        ],
    );
    emit_rel32(code, layout.text_rva, file_size_rva);
    push_bytes(
        code,
        &[
            0x48, 0x85, 0xc0, 0x0f, 0x94, 0xc0, 0x0f, 0xb6, 0xc0, 0x48, 0x83, 0xc4, 0x28, 0xc3,
        ],
    );
    assert(code@ =~= start + file_is_empty_code(*layout, start.len() as int, file_size_rva as int));
}

/// The machine code of the Windows `file_is_file` helper routine placed at `at` in the text.
pub open spec fn file_is_file_code(l: Layout, at: int) -> Seq<u8> {
    seq![
        0x48u8, 0x85, 0xc9, 0x74, 0x18, 0xff, 0x15,
    ]
        + rel32_to(l.get_file_attributes_iat as int, (l.text_rva + at + 7 + 4) as nat)
        + seq![
        0x83u8, 0xf8, 0xff, 0x74, 0x0d, 0xf7, 0xc0, 0x10, 0x00, 0x00, 0x00, 0x0f, 0x94, 0xc0, 0x0f, 0xb6,
        0xc0, 0xc3, 0x31, 0xc0, 0xc3,
    ]
}

#[verifier::spinoff_prover]
pub(crate) fn emit_file_is_file_helper(code: &mut Vec<u8>, layout: &Layout)
    requires
        old(code)@.len() < 0x2000_0000,
        routine_targets(*layout),
    ensures
        final(code)@ == old(code)@ + file_is_file_code(*layout, old(code)@.len() as int),
        final(code)@.len() == old(code)@.len() + 32,
{
    let ghost start = code@;
    push_bytes(
        code,
        &[
            0x48, 0x85, 0xc9, 0x74, 0x18, 0xff, 0x15,
        ],
    );
    emit_rel32(code, layout.text_rva, layout.get_file_attributes_iat);
    push_bytes(
        code,
        &[
            0x83, 0xf8, 0xff, 0x74, 0x0d, 0xf7, 0xc0, 0x10, 0x00, 0x00, 0x00, 0x0f, 0x94, 0xc0, 0x0f, 0xb6,
            0xc0, 0xc3, 0x31, 0xc0, 0xc3,
        ],
    );
    assert(code@ =~= start + file_is_file_code(*layout, start.len() as int));
}

/// The machine code of the Windows `file_is_dir` helper routine placed at `at` in the text.
pub open spec fn file_is_dir_code(l: Layout, at: int) -> Seq<u8> {
    seq![
        0x48u8, 0x85, 0xc9, 0x74, 0x18, 0xff, 0x15,
    ]
        + rel32_to(l.get_file_attributes_iat as int, (l.text_rva + at + 7 + 4) as nat)
        + seq![
        0x83u8, 0xf8, 0xff, 0x74, 0x0d, 0xf7, 0xc0, 0x10, 0x00, 0x00, 0x00, 0x0f, 0x95, 0xc0, 0x0f, 0xb6,
        0xc0, 0xc3, 0x31, 0xc0, 0xc3,
    ]
}

#[verifier::spinoff_prover]
pub(crate) fn emit_file_is_dir_helper(code: &mut Vec<u8>, layout: &Layout)
    requires
        old(code)@.len() < 0x2000_0000,
        routine_targets(*layout),
    ensures
        final(code)@ == old(code)@ + file_is_dir_code(*layout, old(code)@.len() as int),
        final(code)@.len() == old(code)@.len() + 32,
{
    let ghost start = code@;
    push_bytes(
        code,
        &[
            0x48, 0x85, 0xc9, 0x74, 0x18, 0xff, 0x15,
        ],
    );
    emit_rel32(code, layout.text_rva, layout.get_file_attributes_iat);
    push_bytes(
        code,
        &[
            0x83, 0xf8, 0xff, 0x74, 0x0d, 0xf7, 0xc0, 0x10, 0x00, 0x00, 0x00, 0x0f, 0x95, 0xc0, 0x0f, 0xb6,
            0xc0, 0xc3, 0x31, 0xc0, 0xc3,
        ],
    );
    assert(code@ =~= start + file_is_dir_code(*layout, start.len() as int));
}

/// The machine code of the Windows `file_exists` helper routine placed at `at` in the text.
pub open spec fn file_exists_code(l: Layout, at: int) -> Seq<u8> {
    seq![
        0x48u8, 0x85, 0xc9, 0x75, 0x03, 0x31, 0xc0, 0xc3, 0xff, 0x15,
    ]
        + rel32_to(l.get_file_attributes_iat as int, (l.text_rva + at + 10 + 4) as nat)
        + seq![
        0x83u8, 0xf8, 0xff, 0x74, 0x06, 0xb8, 0x01, 0x00, 0x00, 0x00, 0xc3, 0x31, 0xc0, 0xc3,
    ]
}

#[verifier::spinoff_prover]
pub(crate) fn emit_file_exists_helper(code: &mut Vec<u8>, layout: &Layout)
    requires
        old(code)@.len() < 0x2000_0000,
        routine_targets(*layout),
    ensures
        final(code)@ == old(code)@ + file_exists_code(*layout, old(code)@.len() as int),
        final(code)@.len() == old(code)@.len() + 28,
{
    let ghost start = code@;
    push_bytes(
        code,
        &[
            0x48, 0x85, 0xc9, 0x75, 0x03, 0x31, 0xc0, 0xc3, 0xff, 0x15,
        ],
    );
    emit_rel32(code, layout.text_rva, layout.get_file_attributes_iat);
    push_bytes(
        code,
        &[
            0x83, 0xf8, 0xff, 0x74, 0x06, 0xb8, 0x01, 0x00, 0x00, 0x00, 0xc3, 0x31, 0xc0, 0xc3,
        ],
    );
    assert(code@ =~= start + file_exists_code(*layout, start.len() as int));
}

/// The machine code of the Windows `read_line` helper routine placed at `at` in the text.
pub open spec fn read_line_code(l: Layout, at: int) -> Seq<u8> {
    seq![
        0x48u8, 0x83, 0xec, 0x48, 0xb9, 0xf6, 0xff, 0xff, 0xff, 0xff, 0x15,
    ]
        + rel32_to(l.get_std_handle_iat as int, (l.text_rva + at + 11 + 4) as nat)
        + seq![
        0x48u8, 0x89, 0x44, 0x24, 0x38, 0x31, 0xc9, 0xba, 0x00, 0x10, 0x00, 0x00, 0x41, 0xb8, 0x00, 0x30,
        0x00, 0x00, 0x41, 0xb9, 0x04, 0x00, 0x00, 0x00, 0xff, 0x15,
    ]
        + rel32_to(l.virtual_alloc_iat as int, (l.text_rva + at + 41 + 4) as nat)
        + seq![
        0x48u8, 0x89, 0x44, 0x24, 0x40, 0x48, 0x85, 0xc0, 0x0f, 0x84, 0x5d, 0x00, 0x00, 0x00, 0x48, 0x8b,
        0x4c, 0x24, 0x38, 0x48, 0x8b, 0x54, 0x24, 0x40, 0x41, 0xb8, 0xff, 0x0f, 0x00, 0x00, 0x4c, 0x8d,
        0x4c, 0x24, 0x34, 0x48, 0xc7, 0x44, 0x24, 0x20, 0x00, 0x00, 0x00, 0x00, 0xff, 0x15,
    ]
        + rel32_to(l.read_file_iat as int, (l.text_rva + at + 91 + 4) as nat)
        + seq![
        0x85u8, 0xc0, 0x0f, 0x84, 0x31, 0x00, 0x00, 0x00, 0x4c, 0x8b, 0x44, 0x24, 0x40, 0x8b, 0x4c, 0x24,
        0x34, 0x48, 0x89, 0xca, 0x31, 0xc0, 0x48, 0x39, 0xd0, 0x73, 0x0f, 0x41, 0x80, 0x3c, 0x00, 0x0a,
        0x74, 0x05, 0x48, 0xff, 0xc0, 0xeb, 0xef, 0x48, 0xff, 0xc0, 0x41, 0xc6, 0x04, 0x00, 0x00, 0x48,
        0x8b, 0x44, 0x24, 0x40, 0x48, 0x83, 0xc4, 0x48, 0xc3, 0x31, 0xc0, 0x48, 0x83, 0xc4, 0x48, 0xc3,
    ]
}

#[verifier::spinoff_prover]
pub(crate) fn emit_read_line_helper(code: &mut Vec<u8>, layout: &Layout)
    requires
        old(code)@.len() < 0x2000_0000,
        routine_targets(*layout),
    ensures
        final(code)@ == old(code)@ + read_line_code(*layout, old(code)@.len() as int),
        final(code)@.len() == old(code)@.len() + 159,
{
    let ghost start = code@;
    push_bytes(
        code,
        &[
            0x48, 0x83, 0xec, 0x48, 0xb9, 0xf6, 0xff, 0xff, 0xff, 0xff, 0x15,
        ],
    );
    emit_rel32(code, layout.text_rva, layout.get_std_handle_iat);
    push_bytes(
        code,
        &[
            0x48, 0x89, 0x44, 0x24, 0x38, 0x31, 0xc9, 0xba, 0x00, 0x10, 0x00, 0x00, 0x41, 0xb8, 0x00, 0x30,
            0x00, 0x00, 0x41, 0xb9, 0x04, 0x00, 0x00, 0x00, 0xff, 0x15,
        ],
    );
    emit_rel32(code, layout.text_rva, layout.virtual_alloc_iat);
    push_bytes(
        code,
        &[
            0x48, 0x89, 0x44, 0x24, 0x40, 0x48, 0x85, 0xc0, 0x0f, 0x84, 0x5d, 0x00, 0x00, 0x00, 0x48, 0x8b,
            0x4c, 0x24, 0x38, 0x48, 0x8b, 0x54, 0x24, 0x40, 0x41, 0xb8, 0xff, 0x0f, 0x00, 0x00, 0x4c, 0x8d,
            0x4c, 0x24, 0x34, 0x48, 0xc7, 0x44, 0x24, 0x20, 0x00, 0x00, 0x00, 0x00, 0xff, 0x15,
        ],
    );
    emit_rel32(code, layout.text_rva, layout.read_file_iat);
    push_bytes(
        code,
        &[
            0x85, 0xc0, 0x0f, 0x84, 0x31, 0x00, 0x00, 0x00, 0x4c, 0x8b, 0x44, 0x24, 0x40, 0x8b, 0x4c, 0x24,
            0x34, 0x48, 0x89, 0xca, 0x31, 0xc0, 0x48, 0x39, 0xd0, 0x73, 0x0f, 0x41, 0x80, 0x3c, 0x00, 0x0a,
            0x74, 0x05, 0x48, 0xff, 0xc0, 0xeb, 0xef, 0x48, 0xff, 0xc0, 0x41, 0xc6, 0x04, 0x00, 0x00, 0x48,
            0x8b, 0x44, 0x24, 0x40, 0x48, 0x83, 0xc4, 0x48, 0xc3, 0x31, 0xc0, 0x48, 0x83, 0xc4, 0x48, 0xc3,
        ],
    );
    assert(code@ =~= start + read_line_code(*layout, start.len() as int));
}

} // verus!
