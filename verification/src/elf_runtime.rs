//! Machine code of the Linux runtime routines that executables link against.
//!
//! Each routine is a fixed byte sequence; its emitter appends exactly that sequence,
//! with every internal jump resolved against the routine's own labels.
use vstd::prelude::*;
use crate::bytes::{has_room, push_bytes};
use crate::elf_utf8::{emit_string_utf8_codepoint_at_runtime, emit_string_utf8_navigation_runtime, emit_string_utf8_valid_runtime, string_utf8_codepoint_at_code, string_utf8_navigation_code, string_utf8_valid_code, Utf8NavigationKind};
use crate::text::str_eq;
use crate::jumps::{emit_near_jump_placeholder, emit_near_unconditional_placeholder, emit_short_jump_back, emit_short_jump_placeholder, emit_internal_call, patch_near_jump, patch_short_jump, patch_short_jump_wrapping};

verus! {

/// The machine code of the Linux `string_byte_at` runtime routine.
pub closed spec fn string_byte_at_code() -> Seq<u8> {
    seq![
        0x31u8, 0xc0, 0x48, 0x85, 0xff, 0x74, 0x0b, 0x80, 0x3c, 0x37, 0x00, 0x74, 0x05, 0x0f, 0xb6, 0x04,
        0x37, 0xc3, 0xc3,
    ]
}

fn emit_string_byte_at_runtime(code: &mut Vec<u8>)
    requires
        has_room(old(code)@),
    ensures
        final(code)@ == old(code)@ + string_byte_at_code(),
{
    push_bytes(code, &[0x31, 0xc0, 0x48, 0x85, 0xff]);
    let null_value = emit_short_jump_placeholder(code, 0x74);
    push_bytes(code, &[0x80, 0x3c, 0x37, 0x00]);
    let end = emit_short_jump_placeholder(code, 0x74);
    push_bytes(code, &[0x0f, 0xb6, 0x04, 0x37, 0xc3]);
    let end_target = code.len();
    push_bytes(code, &[0xc3]);
    patch_short_jump(code, null_value, end_target);
    patch_short_jump(code, end, end_target);
    assert(code@ =~= old(code)@ + string_byte_at_code());
}

/// The machine code of the Linux `string_is_empty` runtime routine.
pub closed spec fn string_is_empty_code() -> Seq<u8> {
    seq![
        0x48u8, 0x85, 0xff, 0x74, 0x05, 0x80, 0x3f, 0x00, 0x75, 0x06, 0xb8, 0x01, 0x00, 0x00, 0x00, 0xc3,
        0x31, 0xc0, 0xc3,
    ]
}

fn emit_string_is_empty_runtime(code: &mut Vec<u8>)
    requires
        has_room(old(code)@),
    ensures
        final(code)@ == old(code)@ + string_is_empty_code(),
{
    push_bytes(code, &[0x48, 0x85, 0xff]);
    let null_value = emit_short_jump_placeholder(code, 0x74);
    push_bytes(code, &[0x80, 0x3f, 0x00]);
    let non_empty = emit_short_jump_placeholder(code, 0x75);
    let empty_target = code.len();
    push_bytes(code, &[0xb8, 0x01, 0x00, 0x00, 0x00, 0xc3]);
    let non_empty_target = code.len();
    push_bytes(code, &[0x31, 0xc0, 0xc3]);
    patch_short_jump(code, null_value, empty_target);
    patch_short_jump(code, non_empty, non_empty_target);
    assert(code@ =~= old(code)@ + string_is_empty_code());
}

/// The machine code of the Linux `string_is_ascii` runtime routine.
pub closed spec fn string_is_ascii_code() -> Seq<u8> {
    seq![
        0x48u8, 0x85, 0xff, 0x74, 0x0f, 0x80, 0x3f, 0x00, 0x74, 0x0a, 0x80, 0x3f, 0x7f, 0x77, 0x0b, 0x48,
        0xff, 0xc7, 0xeb, 0xf1, 0xb8, 0x01, 0x00, 0x00, 0x00, 0xc3, 0x31, 0xc0, 0xc3,
    ]
}

#[verifier::spinoff_prover]
#[verifier::rlimit(100)]
fn emit_string_is_ascii_runtime(code: &mut Vec<u8>)
    requires
        has_room(old(code)@),
    ensures
        final(code)@ == old(code)@ + string_is_ascii_code(),
{
    push_bytes(code, &[0x48, 0x85, 0xff]);
    let null_value = emit_short_jump_placeholder(code, 0x74);
    let loop_start = code.len();
    push_bytes(code, &[0x80, 0x3f, 0x00]);
    let done = emit_short_jump_placeholder(code, 0x74);
    push_bytes(code, &[0x80, 0x3f, 0x7f]);
    let invalid = emit_short_jump_placeholder(code, 0x77);
    push_bytes(code, &[0x48, 0xff, 0xc7]);
    emit_short_jump_back(code, loop_start);
    let done_target = code.len();
    push_bytes(code, &[0xb8, 0x01, 0x00, 0x00, 0x00, 0xc3]);
    let invalid_target = code.len();
    push_bytes(code, &[0x31, 0xc0, 0xc3]);
    patch_short_jump(code, null_value, done_target);
    patch_short_jump(code, done, done_target);
    patch_short_jump(code, invalid, invalid_target);
    assert(code@ =~= old(code)@ + string_is_ascii_code());
}

/// The machine code of the Linux `string_find_byte` runtime routine.
pub closed spec fn string_find_byte_code() -> Seq<u8> {
    seq![
        0x48u8, 0x31, 0xc9, 0x48, 0x85, 0xff, 0x74, 0x14, 0x41, 0x89, 0xf0, 0x80, 0x3c, 0x0f, 0x00, 0x74,
        0x0b, 0x44, 0x38, 0x04, 0x0f, 0x74, 0x0d, 0x48, 0xff, 0xc1, 0xeb, 0xef, 0x48, 0xc7, 0xc0, 0xff,
        0xff, 0xff, 0xff, 0xc3, 0x48, 0x89, 0xc8, 0xc3,
    ]
}

#[verifier::spinoff_prover]
#[verifier::rlimit(100)]
fn emit_string_find_byte_runtime(code: &mut Vec<u8>)
    requires
        has_room(old(code)@),
    ensures
        final(code)@ == old(code)@ + string_find_byte_code(),
{
    push_bytes(code, &[0x48, 0x31, 0xc9, 0x48, 0x85, 0xff]);
    let missing = emit_short_jump_placeholder(code, 0x74);
    push_bytes(code, &[0x41, 0x89, 0xf0]);
    let loop_start = code.len();
    push_bytes(code, &[0x80, 0x3c, 0x0f, 0x00]);
    let end = emit_short_jump_placeholder(code, 0x74);
    push_bytes(code, &[0x44, 0x38, 0x04, 0x0f]);
    let found = emit_short_jump_placeholder(code, 0x74);
    push_bytes(code, &[0x48, 0xff, 0xc1]);
    emit_short_jump_back(code, loop_start);
    let missing_target = code.len();
    push_bytes(code, &[0x48, 0xc7, 0xc0, 0xff, 0xff, 0xff, 0xff, 0xc3]);
    let found_target = code.len();
    push_bytes(code, &[0x48, 0x89, 0xc8, 0xc3]);
    patch_short_jump(code, missing, missing_target);
    patch_short_jump(code, end, missing_target);
    patch_short_jump(code, found, found_target);
    assert(code@ =~= old(code)@ + string_find_byte_code());
}

/// The machine code of the Linux `string_last_find_byte` runtime routine.
pub closed spec fn string_last_find_byte_code() -> Seq<u8> {
    seq![
        0x83u8, 0xfe, 0x00, 0x7c, 0x29, 0x81, 0xfe, 0xff, 0x00, 0x00, 0x00, 0x7f, 0x21, 0x41, 0x89, 0xf0,
        0x49, 0xc7, 0xc2, 0xff, 0xff, 0xff, 0xff, 0x48, 0x31, 0xc9, 0x80, 0x3c, 0x0f, 0x00, 0x74, 0x0e,
        0x44, 0x38, 0x04, 0x0f, 0x75, 0x03, 0x49, 0x89, 0xca, 0x48, 0xff, 0xc1, 0xeb, 0xec, 0x4c, 0x89,
        0xd0, 0xc3,
    ]
}

#[verifier::spinoff_prover]
#[verifier::rlimit(100)]
fn emit_string_last_find_byte_runtime(code: &mut Vec<u8>)
    requires
        has_room(old(code)@),
    ensures
        final(code)@ == old(code)@ + string_last_find_byte_code(),
{
    push_bytes(code, &[0x83, 0xfe, 0x00]);
    let below_zero = emit_short_jump_placeholder(code, 0x7c);
    push_bytes(code, &[0x81, 0xfe, 0xff, 0x00, 0x00, 0x00]);
    let above_byte = emit_short_jump_placeholder(code, 0x7f);
    push_bytes(
        code,
        &[
            0x41, 0x89, 0xf0,
            0x49, 0xc7, 0xc2, 0xff, 0xff, 0xff, 0xff,
            0x48, 0x31, 0xc9,
        ],
    );
    let loop_start = code.len();
    push_bytes(code, &[0x80, 0x3c, 0x0f, 0x00]);
    let end = emit_short_jump_placeholder(code, 0x74);
    push_bytes(code, &[0x44, 0x38, 0x04, 0x0f]);
    let no_match = emit_short_jump_placeholder(code, 0x75);
    push_bytes(code, &[0x49, 0x89, 0xca]);
    let advance = code.len();
    push_bytes(code, &[0x48, 0xff, 0xc1]);
    emit_short_jump_back(code, loop_start);
    let end_target = code.len();
    push_bytes(code, &[0x4c, 0x89, 0xd0, 0xc3]);
    patch_short_jump(code, below_zero, end_target);
    patch_short_jump(code, above_byte, end_target);
    patch_short_jump(code, end, end_target);
    patch_short_jump(code, no_match, advance);
    assert(code@ =~= old(code)@ + string_last_find_byte_code());
}

/// The machine code of the Linux `string_contains` runtime routine.
pub closed spec fn string_contains_code() -> Seq<u8> {
    seq![
        0x48u8, 0x85, 0xf6, 0x74, 0x32, 0x80, 0x3e, 0x00, 0x74, 0x2d, 0x48, 0x85, 0xff, 0x74, 0x2e, 0x48,
        0x31, 0xc9, 0x80, 0x3c, 0x0f, 0x00, 0x74, 0x25, 0x4c, 0x8d, 0x0c, 0x0f, 0x4d, 0x31, 0xc0, 0x42,
        0x8a, 0x04, 0x06, 0x84, 0xc0, 0x74, 0x10, 0x43, 0x38, 0x04, 0x01, 0x75, 0x05, 0x49, 0xff, 0xc0,
        0xeb, 0xed, 0x48, 0xff, 0xc1, 0xeb, 0xdb, 0xb8, 0x01, 0x00, 0x00, 0x00, 0xc3, 0x31, 0xc0, 0xc3,
    ]
}

#[verifier::spinoff_prover]
#[verifier::rlimit(100)]
fn emit_string_contains_runtime(code: &mut Vec<u8>)
    requires
        has_room(old(code)@),
    ensures
        final(code)@ == old(code)@ + string_contains_code(),
{
    push_bytes(code, &[0x48, 0x85, 0xf6]);
    let null_needle = emit_short_jump_placeholder(code, 0x74);
    push_bytes(code, &[0x80, 0x3e, 0x00]);
    let empty_needle = emit_short_jump_placeholder(code, 0x74);
    push_bytes(code, &[0x48, 0x85, 0xff]);
    let missing = emit_short_jump_placeholder(code, 0x74);
    push_bytes(code, &[0x48, 0x31, 0xc9]);
    let outer = code.len();
    push_bytes(code, &[0x80, 0x3c, 0x0f, 0x00]);
    let no_match = emit_short_jump_placeholder(code, 0x74);
    push_bytes(code, &[0x4c, 0x8d, 0x0c, 0x0f, 0x4d, 0x31, 0xc0]);
    let inner = code.len();
    push_bytes(
        code,
        &[
            0x42, 0x8a, 0x04, 0x06,
            0x84, 0xc0,
        ],
    );
    let matched = emit_short_jump_placeholder(code, 0x74);
    push_bytes(code, &[0x43, 0x38, 0x04, 0x01]);
    let mismatch = emit_short_jump_placeholder(code, 0x75);
    push_bytes(code, &[0x49, 0xff, 0xc0]);
    emit_short_jump_back(code, inner);
    let advance = code.len();
    push_bytes(code, &[0x48, 0xff, 0xc1]);
    emit_short_jump_back(code, outer);
    let true_target = code.len();
    push_bytes(code, &[0xb8, 0x01, 0x00, 0x00, 0x00, 0xc3]);
    let false_target = code.len();
    push_bytes(code, &[0x31, 0xc0, 0xc3]);
    patch_short_jump(code, null_needle, true_target);
    patch_short_jump(code, empty_needle, true_target);
    patch_short_jump(code, missing, false_target);
    patch_short_jump(code, no_match, false_target);
    patch_short_jump(code, matched, true_target);
    patch_short_jump(code, mismatch, advance);
    assert(code@ =~= old(code)@ + string_contains_code());
}

/// The machine code of the Linux `string_starts_with` runtime routine.
pub closed spec fn string_starts_with_code() -> Seq<u8> {
    seq![
        0x48u8, 0x85, 0xf6, 0x74, 0x1d, 0x48, 0x85, 0xff, 0x74, 0x1e, 0x48, 0x31, 0xc9, 0x8a, 0x04, 0x0e,
        0x84, 0xc0, 0x74, 0x0e, 0x44, 0x8a, 0x04, 0x0f, 0x44, 0x38, 0xc0, 0x75, 0x0b, 0x48, 0xff, 0xc1,
        0xeb, 0xeb, 0xb8, 0x01, 0x00, 0x00, 0x00, 0xc3, 0x31, 0xc0, 0xc3,
    ]
}

#[verifier::spinoff_prover]
#[verifier::rlimit(100)]
fn emit_string_starts_with_runtime(code: &mut Vec<u8>)
    requires
        has_room(old(code)@),
    ensures
        final(code)@ == old(code)@ + string_starts_with_code(),
{
    push_bytes(code, &[0x48, 0x85, 0xf6]);
    let null_prefix = emit_short_jump_placeholder(code, 0x74);
    push_bytes(code, &[0x48, 0x85, 0xff]);
    let missing = emit_short_jump_placeholder(code, 0x74);
    push_bytes(code, &[0x48, 0x31, 0xc9]);
    let loop_start = code.len();
    push_bytes(
        code,
        &[
            0x8a, 0x04, 0x0e,
            0x84, 0xc0,
        ],
    );
    let matched = emit_short_jump_placeholder(code, 0x74);
    push_bytes(
        code,
        &[
            0x44, 0x8a, 0x04, 0x0f,
            0x44, 0x38, 0xc0,
        ],
    );
    let mismatch = emit_short_jump_placeholder(code, 0x75);
    push_bytes(code, &[0x48, 0xff, 0xc1]);
    emit_short_jump_back(code, loop_start);
    let true_target = code.len();
    push_bytes(code, &[0xb8, 0x01, 0x00, 0x00, 0x00, 0xc3]);
    let false_target = code.len();
    push_bytes(code, &[0x31, 0xc0, 0xc3]);
    patch_short_jump(code, null_prefix, true_target);
    patch_short_jump(code, missing, false_target);
    patch_short_jump(code, matched, true_target);
    patch_short_jump(code, mismatch, false_target);
    assert(code@ =~= old(code)@ + string_starts_with_code());
}

/// The machine code of the Linux `string_ends_with` runtime routine.
pub closed spec fn string_ends_with_code() -> Seq<u8> {
    seq![
        0x48u8, 0x31, 0xc9, 0x48, 0x85, 0xff, 0x74, 0x49, 0x80, 0x3c, 0x0f, 0x00, 0x74, 0x05, 0x48, 0xff,
        0xc1, 0xeb, 0xf5, 0x45, 0x31, 0xc0, 0x48, 0x85, 0xf6, 0x74, 0x30, 0x42, 0x80, 0x3c, 0x06, 0x00,
        0x74, 0x05, 0x49, 0xff, 0xc0, 0xeb, 0xf4, 0x4c, 0x39, 0xc1, 0x72, 0x25, 0x4c, 0x29, 0xc1, 0x4d,
        0x31, 0xc9, 0x4c, 0x8d, 0x14, 0x0f, 0x4a, 0x8a, 0x04, 0x0e, 0x4f, 0x8a, 0x1c, 0x0a, 0x44, 0x38,
        0xd8, 0x75, 0x0e, 0x49, 0xff, 0xc1, 0x49, 0xff, 0xc8, 0x75, 0xe7, 0xb8, 0x01, 0x00, 0x00, 0x00,
        0xc3, 0x31, 0xc0, 0xc3,
    ]
}

#[verifier::spinoff_prover]
#[verifier::rlimit(100)]
fn emit_string_ends_with_runtime(code: &mut Vec<u8>)
    requires
        has_room(old(code)@),
    ensures
        final(code)@ == old(code)@ + string_ends_with_code(),
{
    push_bytes(
        code,
        &[
            0x48, 0x31, 0xc9,
            0x48, 0x85, 0xff,
        ],
    );
    let source_missing = emit_short_jump_placeholder(code, 0x74);
    let source_length_loop = code.len();
    push_bytes(code, &[0x80, 0x3c, 0x0f, 0x00]);
    let source_length_done = emit_short_jump_placeholder(code, 0x74);
    push_bytes(code, &[0x48, 0xff, 0xc1]);
    emit_short_jump_back(code, source_length_loop);
    let source_length_target = code.len();
    push_bytes(code, &[0x45, 0x31, 0xc0, 0x48, 0x85, 0xf6]);
    let suffix_missing = emit_short_jump_placeholder(code, 0x74);
    let suffix_length_loop = code.len();
    push_bytes(code, &[0x42, 0x80, 0x3c, 0x06, 0x00]);
    let suffix_length_done = emit_short_jump_placeholder(code, 0x74);
    push_bytes(code, &[0x49, 0xff, 0xc0]);
    emit_short_jump_back(code, suffix_length_loop);
    let suffix_length_target = code.len();
    push_bytes(code, &[0x4c, 0x39, 0xc1]);
    let too_long = emit_short_jump_placeholder(code, 0x72);
    push_bytes(code, &[0x4c, 0x29, 0xc1, 0x4d, 0x31, 0xc9]);
    let compare_loop = code.len();
    push_bytes(
        code,
        &[
            0x4c, 0x8d, 0x14, 0x0f,
            0x4a, 0x8a, 0x04, 0x0e,
            0x4f, 0x8a, 0x1c, 0x0a,
            0x44, 0x38, 0xd8,
        ],
    );
    let mismatch = emit_short_jump_placeholder(code, 0x75);
    push_bytes(
        code,
        &[
            0x49, 0xff, 0xc1,
            0x49, 0xff, 0xc8,
        ],
    );
    let compare_next = emit_short_jump_placeholder(code, 0x75);
    let true_target = code.len();
    push_bytes(code, &[0xb8, 0x01, 0x00, 0x00, 0x00, 0xc3]);
    let false_target = code.len();
    push_bytes(code, &[0x31, 0xc0, 0xc3]);
    patch_short_jump(code, source_missing, false_target);
    patch_short_jump(code, source_length_done, source_length_target);
    patch_short_jump(code, suffix_missing, true_target);
    patch_short_jump(code, suffix_length_done, suffix_length_target);
    patch_short_jump(code, too_long, false_target);
    patch_short_jump(code, mismatch, false_target);
    patch_short_jump(code, compare_next, compare_loop);
    assert(code@ =~= old(code)@ + string_ends_with_code());
}

/// The machine code of the Linux `string_index_of` runtime routine.
pub closed spec fn string_index_of_code() -> Seq<u8> {
    seq![
        0x48u8, 0x85, 0xf6, 0x74, 0x32, 0x80, 0x3e, 0x00, 0x74, 0x2d, 0x48, 0x85, 0xff, 0x74, 0x2c, 0x48,
        0x31, 0xc9, 0x80, 0x3c, 0x0f, 0x00, 0x74, 0x23, 0x4c, 0x8d, 0x0c, 0x0f, 0x4d, 0x31, 0xc0, 0x42,
        0x8a, 0x04, 0x06, 0x84, 0xc0, 0x74, 0x10, 0x43, 0x38, 0x04, 0x01, 0x75, 0x05, 0x49, 0xff, 0xc0,
        0xeb, 0xed, 0x48, 0xff, 0xc1, 0xeb, 0xdb, 0x48, 0x89, 0xc8, 0xc3, 0x48, 0xc7, 0xc0, 0xff, 0xff,
        0xff, 0xff, 0xc3,
    ]
}

#[verifier::spinoff_prover]
#[verifier::rlimit(100)]
fn emit_string_index_of_runtime(code: &mut Vec<u8>)
    requires
        has_room(old(code)@),
    ensures
        final(code)@ == old(code)@ + string_index_of_code(),
{
    push_bytes(code, &[0x48, 0x85, 0xf6]);
    let null_needle = emit_short_jump_placeholder(code, 0x74);
    push_bytes(code, &[0x80, 0x3e, 0x00]);
    let empty_needle = emit_short_jump_placeholder(code, 0x74);
    push_bytes(code, &[0x48, 0x85, 0xff]);
    let missing = emit_short_jump_placeholder(code, 0x74);
    push_bytes(code, &[0x48, 0x31, 0xc9]);
    let outer = code.len();
    push_bytes(code, &[0x80, 0x3c, 0x0f, 0x00]);
    let no_match = emit_short_jump_placeholder(code, 0x74);
    push_bytes(code, &[0x4c, 0x8d, 0x0c, 0x0f, 0x4d, 0x31, 0xc0]);
    let inner = code.len();
    push_bytes(
        code,
        &[
            0x42, 0x8a, 0x04, 0x06,
            0x84, 0xc0,
        ],
    );
    let matched = emit_short_jump_placeholder(code, 0x74);
    push_bytes(code, &[0x43, 0x38, 0x04, 0x01]);
    let mismatch = emit_short_jump_placeholder(code, 0x75);
    push_bytes(code, &[0x49, 0xff, 0xc0]);
    emit_short_jump_back(code, inner);
    let advance = code.len();
    push_bytes(code, &[0x48, 0xff, 0xc1]);
    emit_short_jump_back(code, outer);
    let found_target = code.len();
    push_bytes(code, &[0x48, 0x89, 0xc8, 0xc3]);
    let missing_target = code.len();
    push_bytes(code, &[0x48, 0xc7, 0xc0, 0xff, 0xff, 0xff, 0xff, 0xc3]);
    patch_short_jump(code, null_needle, found_target);
    patch_short_jump(code, empty_needle, found_target);
    patch_short_jump(code, missing, missing_target);
    patch_short_jump(code, no_match, missing_target);
    patch_short_jump(code, matched, found_target);
    patch_short_jump(code, mismatch, advance);
    assert(code@ =~= old(code)@ + string_index_of_code());
}

/// The machine code of the Linux `string_last_index_of` runtime routine.
pub closed spec fn string_last_index_of_code() -> Seq<u8> {
    seq![
        0x48u8, 0x31, 0xc9, 0x49, 0xc7, 0xc2, 0xff, 0xff, 0xff, 0xff, 0x74, 0x39, 0x80, 0x3e, 0x00, 0x74,
        0x34, 0x80, 0x3c, 0x0f, 0x00, 0x74, 0x2e, 0x4c, 0x8d, 0x1c, 0x0f, 0x4d, 0x31, 0xc9, 0x4a, 0x8a,
        0x04, 0x0e, 0x84, 0xc0, 0x74, 0x12, 0x4b, 0x80, 0x3c, 0x0b, 0x00, 0x74, 0x13, 0x4b, 0x38, 0x04,
        0x0b, 0x75, 0x0d, 0x49, 0xff, 0xc1, 0xeb, 0xe6, 0x49, 0x89, 0xca, 0x48, 0xff, 0xc1, 0xeb, 0xd1,
        0x48, 0xff, 0xc1, 0xeb, 0xcc, 0x4c, 0x89, 0xd0, 0xc3,
    ]
}

#[verifier::spinoff_prover]
#[verifier::rlimit(100)]
fn emit_string_last_index_of_runtime(code: &mut Vec<u8>)
    requires
        has_room(old(code)@),
    ensures
        final(code)@ == old(code)@ + string_last_index_of_code(),
{
    push_bytes(
        code,
        &[
            0x48, 0x31, 0xc9,
            0x49, 0xc7, 0xc2, 0xff, 0xff, 0xff, 0xff,
        ],
    );
    let null_needle = emit_short_jump_placeholder(code, 0x74);
    push_bytes(code, &[0x80, 0x3e, 0x00]);
    let empty_needle = emit_short_jump_placeholder(code, 0x74);
    let outer = code.len();
    push_bytes(code, &[0x80, 0x3c, 0x0f, 0x00]);
    let finished = emit_short_jump_placeholder(code, 0x74);
    push_bytes(code, &[0x4c, 0x8d, 0x1c, 0x0f, 0x4d, 0x31, 0xc9]);
    let inner = code.len();
    push_bytes(
        code,
        &[
            0x4a, 0x8a, 0x04, 0x0e,
            0x84, 0xc0,
        ],
    );
    let matched = emit_short_jump_placeholder(code, 0x74);
    push_bytes(code, &[0x4b, 0x80, 0x3c, 0x0b, 0x00]);
    let advance = emit_short_jump_placeholder(code, 0x74);
    push_bytes(code, &[0x4b, 0x38, 0x04, 0x0b]);
    let mismatch = emit_short_jump_placeholder(code, 0x75);
    push_bytes(code, &[0x49, 0xff, 0xc1]);
    emit_short_jump_back(code, inner);
    let match_target = code.len();
    push_bytes(code, &[0x49, 0x89, 0xca, 0x48, 0xff, 0xc1]);
    emit_short_jump_back(code, outer);
    let advance_target = code.len();
    push_bytes(code, &[0x48, 0xff, 0xc1]);
    emit_short_jump_back(code, outer);
    let finished_target = code.len();
    push_bytes(code, &[0x4c, 0x89, 0xd0, 0xc3]);
    patch_short_jump(code, null_needle, finished_target);
    patch_short_jump(code, empty_needle, finished_target);
    patch_short_jump(code, finished, finished_target);
    patch_short_jump(code, matched, match_target);
    patch_short_jump(code, advance, advance_target);
    patch_short_jump(code, mismatch, advance_target);
    assert(code@ =~= old(code)@ + string_last_index_of_code());
}

/// The machine code of the Linux `string_count` runtime routine.
pub closed spec fn string_count_code() -> Seq<u8> {
    seq![
        0x45u8, 0x31, 0xc0, 0x48, 0x85, 0xf6, 0x74, 0x43, 0x42, 0x80, 0x3c, 0x06, 0x00, 0x74, 0x3c, 0x49,
        0xff, 0xc0, 0xeb, 0xf4, 0x45, 0x31, 0xd2, 0x48, 0x31, 0xc9, 0x80, 0x3c, 0x0f, 0x00, 0x74, 0x27,
        0x4c, 0x8d, 0x1c, 0x0f, 0x4d, 0x31, 0xc9, 0x4a, 0x8a, 0x04, 0x0e, 0x84, 0xc0, 0x74, 0x0b, 0x4b,
        0x38, 0x04, 0x0b, 0x75, 0x0d, 0x49, 0xff, 0xc1, 0xeb, 0xed, 0x49, 0xff, 0xc2, 0x4c, 0x01, 0xc1,
        0xeb, 0xd8, 0x48, 0xff, 0xc1, 0xeb, 0xd3, 0x4c, 0x89, 0xd0, 0xc3, 0x31, 0xc0, 0xc3,
    ]
}

#[verifier::spinoff_prover]
#[verifier::rlimit(100)]
fn emit_string_count_runtime(code: &mut Vec<u8>)
    requires
        has_room(old(code)@),
    ensures
        final(code)@ == old(code)@ + string_count_code(),
{
    push_bytes(code, &[0x45, 0x31, 0xc0, 0x48, 0x85, 0xf6]);
    let no_needle = emit_short_jump_placeholder(code, 0x74);
    let needle_loop = code.len();
    push_bytes(code, &[0x42, 0x80, 0x3c, 0x06, 0x00]);
    let needle_done = emit_short_jump_placeholder(code, 0x74);
    push_bytes(code, &[0x49, 0xff, 0xc0]);
    emit_short_jump_back(code, needle_loop);
    push_bytes(code, &[0x45, 0x31, 0xd2, 0x48, 0x31, 0xc9]);
    let outer = code.len();
    push_bytes(code, &[0x80, 0x3c, 0x0f, 0x00]);
    let finished = emit_short_jump_placeholder(code, 0x74);
    push_bytes(code, &[0x4c, 0x8d, 0x1c, 0x0f, 0x4d, 0x31, 0xc9]);
    let inner = code.len();
    push_bytes(
        code,
        &[
            0x4a, 0x8a, 0x04, 0x0e,
            0x84, 0xc0,
        ],
    );
    let matched = emit_short_jump_placeholder(code, 0x74);
    push_bytes(code, &[0x4b, 0x38, 0x04, 0x0b]);
    let mismatch = emit_short_jump_placeholder(code, 0x75);
    push_bytes(code, &[0x49, 0xff, 0xc1]);
    emit_short_jump_back(code, inner);
    let match_target = code.len();
    push_bytes(
        code,
        &[
            0x49, 0xff, 0xc2,
            0x4c, 0x01, 0xc1,
        ],
    );
    emit_short_jump_back(code, outer);
    let mismatch_target = code.len();
    push_bytes(code, &[0x48, 0xff, 0xc1]);
    emit_short_jump_back(code, outer);
    let finished_target = code.len();
    push_bytes(code, &[0x4c, 0x89, 0xd0, 0xc3]);
    let empty_target = code.len();
    push_bytes(code, &[0x31, 0xc0, 0xc3]);
    patch_short_jump(code, no_needle, empty_target);
    patch_short_jump(code, needle_done, empty_target);
    patch_short_jump(code, finished, finished_target);
    patch_short_jump(code, matched, match_target);
    patch_short_jump(code, mismatch, mismatch_target);
    assert(code@ =~= old(code)@ + string_count_code());
}

/// The machine code of the Linux `string_len` runtime routine.
pub closed spec fn string_len_code() -> Seq<u8> {
    seq![
        0x48u8, 0x85, 0xff, 0x74, 0x15, 0x48, 0x89, 0xfe, 0x31, 0xc0, 0x0f, 0xb6, 0x0e, 0x85, 0xc9, 0x74,
        0x08, 0x48, 0xff, 0xc6, 0x48, 0xff, 0xc0, 0xeb, 0xf1, 0xc3, 0x31, 0xc0, 0xc3,
    ]
}

pub(crate) fn emit_string_len_runtime(code: &mut Vec<u8>)
    requires
        has_room(old(code)@),
    ensures
        final(code)@ == old(code)@ + string_len_code(),
{
    push_bytes(
        code,
        &[
            0x48, 0x85, 0xff, 0x74, 0x15,
            0x48, 0x89, 0xfe,
            0x31, 0xc0,
            0x0f, 0xb6, 0x0e,
            0x85, 0xc9,
            0x74, 0x08,
            0x48, 0xff, 0xc6,
            0x48, 0xff, 0xc0,
            0xeb, 0xf1, 0xc3,
            0x31, 0xc0, 0xc3,
        ],
    );
    assert(code@ =~= old(code)@ + string_len_code());
}

/// The machine code of the Linux `string_utf8_len` runtime routine.
pub closed spec fn string_utf8_len_code() -> Seq<u8> {
    seq![
        0x48u8, 0x85, 0xff, 0x74, 0x1c, 0x48, 0x89, 0xfe, 0x31, 0xc0, 0x8a, 0x16, 0x84, 0xd2, 0x74, 0x10,
        0x80, 0xe2, 0xc0, 0x80, 0xfa, 0x80, 0x74, 0x03, 0x48, 0xff, 0xc0, 0x48, 0xff, 0xc6, 0xeb, 0xea,
        0xc3, 0x31, 0xc0, 0xc3,
    ]
}

#[verifier::spinoff_prover]
#[verifier::rlimit(100)]
fn emit_string_utf8_len_runtime(code: &mut Vec<u8>)
    requires
        has_room(old(code)@),
    ensures
        final(code)@ == old(code)@ + string_utf8_len_code(),
{
    push_bytes(code, &[0x48, 0x85, 0xff]);
    let null_value = emit_short_jump_placeholder(code, 0x74);
    push_bytes(code, &[0x48, 0x89, 0xfe, 0x31, 0xc0]);
    let loop_start = code.len();
    push_bytes(code, &[0x8a, 0x16, 0x84, 0xd2]);
    let done = emit_short_jump_placeholder(code, 0x74);
    push_bytes(code, &[0x80, 0xe2, 0xc0, 0x80, 0xfa, 0x80]);
    let continuation = emit_short_jump_placeholder(code, 0x74);
    push_bytes(code, &[0x48, 0xff, 0xc0]);
    let next = code.len();
    push_bytes(code, &[0x48, 0xff, 0xc6]);
    emit_short_jump_back(code, loop_start);
    let done_target = code.len();
    push_bytes(code, &[0xc3]);
    let null_target = code.len();
    push_bytes(code, &[0x31, 0xc0, 0xc3]);
    patch_short_jump(code, null_value, null_target);
    patch_short_jump(code, done, done_target);
    patch_short_jump(code, continuation, next);
    assert(code@ =~= old(code)@ + string_utf8_len_code());
}

/// The machine code of the Linux `array_new` runtime routine.
pub closed spec fn array_new_code() -> Seq<u8> {
    seq![
        0x48u8, 0x83, 0xec, 0x28, 0x48, 0x89, 0x3c, 0x24, 0x48, 0x89, 0x74, 0x24, 0x08, 0x48, 0x89, 0xf8,
        0x48, 0x0f, 0xaf, 0xc6, 0x48, 0x83, 0xc0, 0x20, 0x48, 0x89, 0xc6, 0x31, 0xff, 0xba, 0x03, 0x00,
        0x00, 0x00, 0x41, 0xba, 0x22, 0x00, 0x00, 0x00, 0x49, 0xc7, 0xc0, 0xff, 0xff, 0xff, 0xff, 0x45,
        0x31, 0xc9, 0xb8, 0x09, 0x00, 0x00, 0x00, 0x0f, 0x05, 0x48, 0x85, 0xc0, 0x0f, 0x88, 0x25, 0x00,
        0x00, 0x00, 0x48, 0x8d, 0x50, 0x20, 0x48, 0x89, 0x10, 0x48, 0xc7, 0x40, 0x08, 0x00, 0x00, 0x00,
        0x00, 0x48, 0x8b, 0x4c, 0x24, 0x08, 0x48, 0x89, 0x48, 0x10, 0x48, 0x8b, 0x0c, 0x24, 0x48, 0x89,
        0x48, 0x18, 0x48, 0x83, 0xc4, 0x28, 0xc3, 0x31, 0xc0, 0x48, 0x83, 0xc4, 0x28, 0xc3,
    ]
}

#[verifier::spinoff_prover]
#[verifier::rlimit(100)]
fn emit_array_new_runtime(code: &mut Vec<u8>)
    requires
        has_room(old(code)@),
    ensures
        final(code)@ == old(code)@ + array_new_code(),
{
    push_bytes(
        code,
        &[
            0x48, 0x83, 0xec, 0x28, 0x48, 0x89, 0x3c, 0x24, 0x48, 0x89, 0x74, 0x24, 0x08,
            0x48, 0x89, 0xf8, 0x48, 0x0f, 0xaf, 0xc6, 0x48, 0x83, 0xc0, 0x20, 0x48, 0x89, 0xc6,
            0x31, 0xff, 0xba, 0x03, 0x00, 0x00, 0x00, 0x41, 0xba, 0x22, 0x00, 0x00, 0x00,
            0x49, 0xc7, 0xc0, 0xff, 0xff, 0xff, 0xff, 0x45, 0x31, 0xc9, 0xb8, 0x09, 0x00, 0x00, 0x00, 0x0f, 0x05, 0x48, 0x85, 0xc0,
        ],
    );
    let failed = emit_near_jump_placeholder(code, 0x0f, 0x88);
    push_bytes(
        code,
        &[
            0x48, 0x8d, 0x50, 0x20, 0x48, 0x89, 0x10, 0x48, 0xc7, 0x40, 0x08, 0x00, 0x00, 0x00, 0x00,
            0x48, 0x8b, 0x4c, 0x24, 0x08, 0x48, 0x89, 0x48, 0x10, 0x48, 0x8b, 0x0c, 0x24, 0x48, 0x89, 0x48, 0x18,
            0x48, 0x83, 0xc4, 0x28, 0xc3,
        ],
    );
    let failure = code.len();
    push_bytes(code, &[0x31, 0xc0, 0x48, 0x83, 0xc4, 0x28, 0xc3]);
    patch_near_jump(code, failed, failure);
    assert(code@ =~= old(code)@ + array_new_code());
}

/// The machine code of the Linux `array_len` runtime routine.
pub closed spec fn array_len_code() -> Seq<u8> {
    seq![
        0x48u8, 0x85, 0xff, 0x74, 0x05, 0x48, 0x8b, 0x47, 0x08, 0xc3, 0x31, 0xc0, 0xc3,
    ]
}

fn emit_array_len_runtime(code: &mut Vec<u8>)
    requires
        has_room(old(code)@),
    ensures
        final(code)@ == old(code)@ + array_len_code(),
{
    push_bytes(code, &[0x48, 0x85, 0xff]);
    let null = emit_short_jump_placeholder(code, 0x74);
    push_bytes(code, &[0x48, 0x8b, 0x47, 0x08, 0xc3]);
    let zero = code.len();
    push_bytes(code, &[0x31, 0xc0, 0xc3]);
    patch_short_jump(code, null, zero);
    assert(code@ =~= old(code)@ + array_len_code());
}

/// The machine code of the Linux `array_clone` runtime routine.
pub closed spec fn array_clone_code() -> Seq<u8> {
    seq![
        0x48u8, 0x83, 0xec, 0x38, 0x48, 0x89, 0x3c, 0x24, 0x48, 0x85, 0xff, 0x0f, 0x84, 0xb0, 0x00, 0x00,
        0x00, 0x48, 0x8b, 0x47, 0x18, 0x48, 0x89, 0x44, 0x24, 0x08, 0x48, 0x8b, 0x47, 0x10, 0x48, 0x89,
        0x44, 0x24, 0x10, 0x48, 0x8b, 0x47, 0x08, 0x48, 0x89, 0x44, 0x24, 0x18, 0x48, 0x8b, 0x44, 0x24,
        0x10, 0x48, 0x0f, 0xaf, 0x44, 0x24, 0x08, 0x48, 0x83, 0xc0, 0x20, 0x48, 0x89, 0x44, 0x24, 0x20,
        0x31, 0xff, 0x48, 0x8b, 0x74, 0x24, 0x20, 0xba, 0x03, 0x00, 0x00, 0x00, 0x41, 0xba, 0x22, 0x00,
        0x00, 0x00, 0x49, 0xc7, 0xc0, 0xff, 0xff, 0xff, 0xff, 0x45, 0x31, 0xc9, 0xb8, 0x09, 0x00, 0x00,
        0x00, 0x0f, 0x05, 0x48, 0x85, 0xc0, 0x0f, 0x84, 0x55, 0x00, 0x00, 0x00, 0x48, 0x89, 0x44, 0x24,
        0x28, 0x48, 0x8d, 0x50, 0x20, 0x48, 0x89, 0x10, 0x48, 0x8b, 0x4c, 0x24, 0x18, 0x48, 0x89, 0x48,
        0x08, 0x48, 0x8b, 0x4c, 0x24, 0x10, 0x48, 0x89, 0x48, 0x10, 0x48, 0x8b, 0x4c, 0x24, 0x08, 0x48,
        0x89, 0x48, 0x18, 0x48, 0x8b, 0x44, 0x24, 0x18, 0x48, 0x0f, 0xaf, 0x44, 0x24, 0x08, 0x48, 0x89,
        0xc1, 0x48, 0x8b, 0x34, 0x24, 0x48, 0x8b, 0x7c, 0x24, 0x28, 0x48, 0x8b, 0x3f, 0x48, 0x8b, 0x54,
        0x24, 0x28, 0x48, 0x8b, 0x36, 0xf3, 0xa4, 0x48, 0x8b, 0x44, 0x24, 0x28, 0x48, 0x83, 0xc4, 0x38,
        0xc3, 0x31, 0xc0, 0x48, 0x83, 0xc4, 0x38, 0xc3,
    ]
}

#[verifier::spinoff_prover]
#[verifier::rlimit(100)]
fn emit_array_clone_runtime(code: &mut Vec<u8>)
    requires
        has_room(old(code)@),
    ensures
        final(code)@ == old(code)@ + array_clone_code(),
{
    push_bytes(code, &[0x48, 0x83, 0xec, 0x38, 0x48, 0x89, 0x3c, 0x24, 0x48, 0x85, 0xff]);
    let null = emit_near_jump_placeholder(code, 0x0f, 0x84);
    push_bytes(code, &[0x48, 0x8b, 0x47, 0x18, 0x48, 0x89, 0x44, 0x24, 0x08, 0x48, 0x8b, 0x47, 0x10, 0x48, 0x89, 0x44, 0x24, 0x10, 0x48, 0x8b, 0x47, 0x08, 0x48, 0x89, 0x44, 0x24, 0x18, 0x48, 0x8b, 0x44, 0x24, 0x10, 0x48, 0x0f, 0xaf, 0x44, 0x24, 0x08, 0x48, 0x83, 0xc0, 0x20, 0x48, 0x89, 0x44, 0x24, 0x20, 0x31, 0xff, 0x48, 0x8b, 0x74, 0x24, 0x20, 0xba, 0x03, 0x00, 0x00, 0x00, 0x41, 0xba, 0x22, 0x00, 0x00, 0x00, 0x49, 0xc7, 0xc0, 0xff, 0xff, 0xff, 0xff, 0x45, 0x31, 0xc9, 0xb8, 0x09, 0x00, 0x00, 0x00, 0x0f, 0x05, 0x48, 0x85, 0xc0]);
    let allocation_failed = emit_near_jump_placeholder(code, 0x0f, 0x84);
    push_bytes(code, &[0x48, 0x89, 0x44, 0x24, 0x28, 0x48, 0x8d, 0x50, 0x20, 0x48, 0x89, 0x10, 0x48, 0x8b, 0x4c, 0x24, 0x18, 0x48, 0x89, 0x48, 0x08, 0x48, 0x8b, 0x4c, 0x24, 0x10, 0x48, 0x89, 0x48, 0x10, 0x48, 0x8b, 0x4c, 0x24, 0x08, 0x48, 0x89, 0x48, 0x18, 0x48, 0x8b, 0x44, 0x24, 0x18, 0x48, 0x0f, 0xaf, 0x44, 0x24, 0x08, 0x48, 0x89, 0xc1, 0x48, 0x8b, 0x34, 0x24, 0x48, 0x8b, 0x7c, 0x24, 0x28, 0x48, 0x8b, 0x3f, 0x48, 0x8b, 0x54, 0x24, 0x28, 0x48, 0x8b, 0x36, 0xf3, 0xa4, 0x48, 0x8b, 0x44, 0x24, 0x28, 0x48, 0x83, 0xc4, 0x38, 0xc3]);
    let failure = code.len();
    push_bytes(code, &[0x31, 0xc0, 0x48, 0x83, 0xc4, 0x38, 0xc3]);
    patch_near_jump(code, null, failure);
    patch_near_jump(code, allocation_failed, failure);
    assert(code@ =~= old(code)@ + array_clone_code());
}

/// The machine code of the Linux `array_reserve` runtime routine.
pub closed spec fn array_reserve_code() -> Seq<u8> {
    seq![
        0x48u8, 0x83, 0xec, 0x38, 0x48, 0x89, 0x3c, 0x24, 0x48, 0x89, 0x74, 0x24, 0x08, 0x48, 0x85, 0xff,
        0x0f, 0x84, 0xda, 0x00, 0x00, 0x00, 0x48, 0x8b, 0x47, 0x10, 0x48, 0x39, 0xc6, 0x0f, 0x86, 0xc4,
        0x00, 0x00, 0x00, 0x48, 0x8b, 0x47, 0x18, 0x48, 0x89, 0x44, 0x24, 0x10, 0x48, 0x8b, 0x47, 0x08,
        0x48, 0x89, 0x44, 0x24, 0x18, 0x48, 0x8b, 0x44, 0x24, 0x08, 0x48, 0x0f, 0xaf, 0x44, 0x24, 0x10,
        0x48, 0x83, 0xc0, 0x20, 0x48, 0x89, 0x44, 0x24, 0x20, 0x31, 0xff, 0x48, 0x8b, 0x74, 0x24, 0x20,
        0xba, 0x03, 0x00, 0x00, 0x00, 0x41, 0xba, 0x22, 0x00, 0x00, 0x00, 0x49, 0xc7, 0xc0, 0xff, 0xff,
        0xff, 0xff, 0x45, 0x31, 0xc9, 0xb8, 0x09, 0x00, 0x00, 0x00, 0x0f, 0x05, 0x48, 0x85, 0xc0, 0x0f,
        0x84, 0x7b, 0x00, 0x00, 0x00, 0x48, 0x89, 0x44, 0x24, 0x28, 0x48, 0x8d, 0x50, 0x20, 0x48, 0x89,
        0x10, 0x48, 0x8b, 0x4c, 0x24, 0x18, 0x48, 0x89, 0x48, 0x08, 0x48, 0x8b, 0x4c, 0x24, 0x08, 0x48,
        0x89, 0x48, 0x10, 0x48, 0x8b, 0x4c, 0x24, 0x10, 0x48, 0x89, 0x48, 0x18, 0x48, 0x8b, 0x44, 0x24,
        0x18, 0x48, 0x0f, 0xaf, 0x44, 0x24, 0x10, 0x48, 0x89, 0xc1, 0x48, 0x8b, 0x34, 0x24, 0x48, 0x8b,
        0x7c, 0x24, 0x28, 0x48, 0x8b, 0x3f, 0x48, 0x8b, 0x36, 0xf3, 0xa4, 0x48, 0x8b, 0x3c, 0x24, 0x48,
        0x8b, 0x47, 0x10, 0x48, 0x8b, 0x4f, 0x18, 0x48, 0x0f, 0xaf, 0xc8, 0x48, 0x83, 0xc1, 0x20, 0x48,
        0x89, 0xce, 0x48, 0x8b, 0x3c, 0x24, 0xb8, 0x0b, 0x00, 0x00, 0x00, 0x0f, 0x05, 0x48, 0x8b, 0x44,
        0x24, 0x28, 0x48, 0x83, 0xc4, 0x38, 0xc3, 0x48, 0x8b, 0x04, 0x24, 0x48, 0x83, 0xc4, 0x38, 0xc3,
        0x31, 0xc0, 0x48, 0x83, 0xc4, 0x38, 0xc3,
    ]
}

#[verifier::spinoff_prover]
#[verifier::rlimit(100)]
fn emit_array_reserve_runtime(code: &mut Vec<u8>)
    requires
        has_room(old(code)@),
    ensures
        final(code)@ == old(code)@ + array_reserve_code(),
{
    push_bytes(code, &[0x48, 0x83, 0xec, 0x38, 0x48, 0x89, 0x3c, 0x24, 0x48, 0x89, 0x74, 0x24, 0x08, 0x48, 0x85, 0xff]);
    let null = emit_near_jump_placeholder(code, 0x0f, 0x84);
    push_bytes(code, &[0x48, 0x8b, 0x47, 0x10, 0x48, 0x39, 0xc6]);
    let already_large = emit_near_jump_placeholder(code, 0x0f, 0x86);
    push_bytes(code, &[0x48, 0x8b, 0x47, 0x18, 0x48, 0x89, 0x44, 0x24, 0x10, 0x48, 0x8b, 0x47, 0x08, 0x48, 0x89, 0x44, 0x24, 0x18, 0x48, 0x8b, 0x44, 0x24, 0x08, 0x48, 0x0f, 0xaf, 0x44, 0x24, 0x10, 0x48, 0x83, 0xc0, 0x20, 0x48, 0x89, 0x44, 0x24, 0x20, 0x31, 0xff, 0x48, 0x8b, 0x74, 0x24, 0x20, 0xba, 0x03, 0x00, 0x00, 0x00, 0x41, 0xba, 0x22, 0x00, 0x00, 0x00, 0x49, 0xc7, 0xc0, 0xff, 0xff, 0xff, 0xff, 0x45, 0x31, 0xc9, 0xb8, 0x09, 0x00, 0x00, 0x00, 0x0f, 0x05, 0x48, 0x85, 0xc0]);
    let allocation_failed = emit_near_jump_placeholder(code, 0x0f, 0x84);
    push_bytes(code, &[0x48, 0x89, 0x44, 0x24, 0x28, 0x48, 0x8d, 0x50, 0x20, 0x48, 0x89, 0x10, 0x48, 0x8b, 0x4c, 0x24, 0x18, 0x48, 0x89, 0x48, 0x08, 0x48, 0x8b, 0x4c, 0x24, 0x08, 0x48, 0x89, 0x48, 0x10, 0x48, 0x8b, 0x4c, 0x24, 0x10, 0x48, 0x89, 0x48, 0x18, 0x48, 0x8b, 0x44, 0x24, 0x18, 0x48, 0x0f, 0xaf, 0x44, 0x24, 0x10, 0x48, 0x89, 0xc1, 0x48, 0x8b, 0x34, 0x24, 0x48, 0x8b, 0x7c, 0x24, 0x28, 0x48, 0x8b, 0x3f, 0x48, 0x8b, 0x36, 0xf3, 0xa4, 0x48, 0x8b, 0x3c, 0x24, 0x48, 0x8b, 0x47, 0x10, 0x48, 0x8b, 0x4f, 0x18, 0x48, 0x0f, 0xaf, 0xc8, 0x48, 0x83, 0xc1, 0x20, 0x48, 0x89, 0xce, 0x48, 0x8b, 0x3c, 0x24, 0xb8, 0x0b, 0x00, 0x00, 0x00, 0x0f, 0x05, 0x48, 0x8b, 0x44, 0x24, 0x28, 0x48, 0x83, 0xc4, 0x38, 0xc3]);
    let return_source = code.len();
    push_bytes(code, &[0x48, 0x8b, 0x04, 0x24, 0x48, 0x83, 0xc4, 0x38, 0xc3]);
    let failure = code.len();
    push_bytes(code, &[0x31, 0xc0, 0x48, 0x83, 0xc4, 0x38, 0xc3]);
    patch_near_jump(code, null, failure);
    patch_near_jump(code, already_large, return_source);
    patch_near_jump(code, allocation_failed, failure);
    assert(code@ =~= old(code)@ + array_reserve_code());
}

/// The machine code of the Linux `array_clear` runtime routine.
pub closed spec fn array_clear_code() -> Seq<u8> {
    seq![
        0x48u8, 0x85, 0xff, 0x74, 0x0b, 0x48, 0xc7, 0x47, 0x08, 0x00, 0x00, 0x00, 0x00, 0x31, 0xc0, 0xc3,
        0xb8, 0x01, 0x00, 0x00, 0x00, 0xc3,
    ]
}

fn emit_array_clear_runtime(code: &mut Vec<u8>)
    requires
        has_room(old(code)@),
    ensures
        final(code)@ == old(code)@ + array_clear_code(),
{
    push_bytes(code, &[0x48, 0x85, 0xff]);
    let null = emit_short_jump_placeholder(code, 0x74);
    push_bytes(code, &[0x48, 0xc7, 0x47, 0x08, 0x00, 0x00, 0x00, 0x00, 0x31, 0xc0, 0xc3]);
    let failure = code.len();
    push_bytes(code, &[0xb8, 0x01, 0x00, 0x00, 0x00, 0xc3]);
    patch_short_jump(code, null, failure);
    assert(code@ =~= old(code)@ + array_clear_code());
}

/// The machine code of the Linux `array_free` runtime routine.
pub closed spec fn array_free_code() -> Seq<u8> {
    seq![
        0x48u8, 0x85, 0xff, 0x74, 0x22, 0x48, 0x8b, 0x47, 0x10, 0x48, 0x8b, 0x4f, 0x18, 0x48, 0x0f, 0xaf,
        0xc8, 0x48, 0x83, 0xc1, 0x20, 0x48, 0x89, 0xce, 0xb8, 0x0b, 0x00, 0x00, 0x00, 0x0f, 0x05, 0x48,
        0x85, 0xc0, 0x75, 0x03, 0x31, 0xc0, 0xc3, 0xb8, 0x01, 0x00, 0x00, 0x00, 0xc3,
    ]
}

fn emit_array_free_runtime(code: &mut Vec<u8>)
    requires
        has_room(old(code)@),
    ensures
        final(code)@ == old(code)@ + array_free_code(),
{
    push_bytes(code, &[0x48, 0x85, 0xff]);
    let null = emit_short_jump_placeholder(code, 0x74);
    push_bytes(code, &[0x48, 0x8b, 0x47, 0x10, 0x48, 0x8b, 0x4f, 0x18, 0x48, 0x0f, 0xaf, 0xc8, 0x48, 0x83, 0xc1, 0x20, 0x48, 0x89, 0xce, 0xb8, 0x0b, 0x00, 0x00, 0x00, 0x0f, 0x05, 0x48, 0x85, 0xc0]);
    let failed = emit_short_jump_placeholder(code, 0x75);
    push_bytes(code, &[0x31, 0xc0, 0xc3]);
    let failure = code.len();
    push_bytes(code, &[0xb8, 0x01, 0x00, 0x00, 0x00, 0xc3]);
    patch_short_jump(code, null, failure);
    patch_short_jump(code, failed, failure);
    assert(code@ =~= old(code)@ + array_free_code());
}

/// The machine code of the Linux `array_capacity` runtime routine.
pub closed spec fn array_capacity_code() -> Seq<u8> {
    seq![
        0x48u8, 0x85, 0xff, 0x74, 0x05, 0x48, 0x8b, 0x47, 0x10, 0xc3, 0x31, 0xc0, 0xc3,
    ]
}

fn emit_array_capacity_runtime(code: &mut Vec<u8>)
    requires
        has_room(old(code)@),
    ensures
        final(code)@ == old(code)@ + array_capacity_code(),
{
    push_bytes(code, &[0x48, 0x85, 0xff]);
    let null = emit_short_jump_placeholder(code, 0x74);
    push_bytes(code, &[0x48, 0x8b, 0x47, 0x10, 0xc3]);
    let zero = code.len();
    push_bytes(code, &[0x31, 0xc0, 0xc3]);
    patch_short_jump(code, null, zero);
    assert(code@ =~= old(code)@ + array_capacity_code());
}

/// The machine code of the Linux `array_is_empty` runtime routine.
pub closed spec fn array_is_empty_code() -> Seq<u8> {
    seq![
        0x48u8, 0x85, 0xff, 0x74, 0x0a, 0x48, 0x83, 0x7f, 0x08, 0x00, 0x74, 0x03, 0x31, 0xc0, 0xc3, 0xb8,
        0x01, 0x00, 0x00, 0x00, 0xc3,
    ]
}

fn emit_array_is_empty_runtime(code: &mut Vec<u8>)
    requires
        has_room(old(code)@),
    ensures
        final(code)@ == old(code)@ + array_is_empty_code(),
{
    push_bytes(code, &[0x48, 0x85, 0xff]);
    let null = emit_short_jump_placeholder(code, 0x74);
    push_bytes(code, &[0x48, 0x83, 0x7f, 0x08, 0x00]);
    let done = emit_short_jump_placeholder(code, 0x74);
    push_bytes(code, &[0x31, 0xc0, 0xc3]);
    let empty = code.len();
    push_bytes(code, &[0xb8, 0x01, 0x00, 0x00, 0x00, 0xc3]);
    patch_short_jump(code, null, empty);
    patch_short_jump(code, done, empty);
    assert(code@ =~= old(code)@ + array_is_empty_code());
}

/// The machine code of the Linux `array_get` runtime routine.
pub closed spec fn array_get_code() -> Seq<u8> {
    seq![
        0x48u8, 0x85, 0xff, 0x74, 0x19, 0x48, 0x8b, 0x47, 0x08, 0x48, 0x39, 0xc6, 0x73, 0x10, 0x48, 0x8b,
        0x4f, 0x18, 0x48, 0x0f, 0xaf, 0xce, 0x48, 0x8b, 0x07, 0x48, 0x8d, 0x04, 0x08, 0xc3, 0x31, 0xc0,
        0xc3,
    ]
}

fn emit_array_get_runtime(code: &mut Vec<u8>)
    requires
        has_room(old(code)@),
    ensures
        final(code)@ == old(code)@ + array_get_code(),
{
    push_bytes(code, &[0x48, 0x85, 0xff]);
    let null = emit_short_jump_placeholder(code, 0x74);
    push_bytes(code, &[0x48, 0x8b, 0x47, 0x08, 0x48, 0x39, 0xc6]);
    let failed = emit_short_jump_placeholder(code, 0x73);
    push_bytes(code, &[0x48, 0x8b, 0x4f, 0x18, 0x48, 0x0f, 0xaf, 0xce, 0x48, 0x8b, 0x07, 0x48, 0x8d, 0x04, 0x08, 0xc3]);
    let failure = code.len();
    push_bytes(code, &[0x31, 0xc0, 0xc3]);
    patch_short_jump(code, null, failure);
    patch_short_jump(code, failed, failure);
    assert(code@ =~= old(code)@ + array_get_code());
}

/// The machine code of the Linux `array_set` runtime routine.
pub closed spec fn array_set_code() -> Seq<u8> {
    seq![
        0x48u8, 0x85, 0xff, 0x74, 0x28, 0x48, 0x8b, 0x47, 0x08, 0x48, 0x39, 0xc6, 0x73, 0x1f, 0x48, 0x8b,
        0x4f, 0x18, 0x49, 0x89, 0xc8, 0x48, 0x0f, 0xaf, 0xce, 0x48, 0x8b, 0x07, 0x48, 0x01, 0xc8, 0x4c,
        0x89, 0xc1, 0x48, 0x89, 0xc7, 0x48, 0x89, 0xd6, 0xf3, 0xa4, 0x31, 0xc0, 0xc3, 0xb8, 0x01, 0x00,
        0x00, 0x00, 0xc3,
    ]
}

fn emit_array_set_runtime(code: &mut Vec<u8>)
    requires
        has_room(old(code)@),
    ensures
        final(code)@ == old(code)@ + array_set_code(),
{
    push_bytes(code, &[0x48, 0x85, 0xff]);
    let null = emit_short_jump_placeholder(code, 0x74);
    push_bytes(code, &[0x48, 0x8b, 0x47, 0x08, 0x48, 0x39, 0xc6]);
    let failed = emit_short_jump_placeholder(code, 0x73);
    push_bytes(code, &[0x48, 0x8b, 0x4f, 0x18, 0x49, 0x89, 0xc8, 0x48, 0x0f, 0xaf, 0xce, 0x48, 0x8b, 0x07, 0x48, 0x01, 0xc8, 0x4c, 0x89, 0xc1, 0x48, 0x89, 0xc7, 0x48, 0x89, 0xd6, 0xf3, 0xa4, 0x31, 0xc0, 0xc3]);
    let failure = code.len();
    push_bytes(code, &[0xb8, 0x01, 0x00, 0x00, 0x00, 0xc3]);
    patch_short_jump(code, null, failure);
    patch_short_jump(code, failed, failure);
    assert(code@ =~= old(code)@ + array_set_code());
}

/// The machine code of the Linux `array_push` runtime routine.
pub closed spec fn array_push_code() -> Seq<u8> {
    seq![
        0x48u8, 0x85, 0xff, 0x74, 0x2a, 0x48, 0x8b, 0x47, 0x08, 0x48, 0x3b, 0x47, 0x10, 0x73, 0x20, 0x48,
        0x8b, 0x4f, 0x18, 0x49, 0x89, 0xc8, 0x48, 0x0f, 0xaf, 0xc8, 0x48, 0x8b, 0x17, 0x48, 0x01, 0xca,
        0x48, 0xff, 0x47, 0x08, 0x4c, 0x89, 0xc1, 0x48, 0x89, 0xd7, 0xf3, 0xa4, 0x31, 0xc0, 0xc3, 0xb8,
        0x01, 0x00, 0x00, 0x00, 0xc3,
    ]
}

fn emit_array_push_runtime(code: &mut Vec<u8>)
    requires
        has_room(old(code)@),
    ensures
        final(code)@ == old(code)@ + array_push_code(),
{
    push_bytes(code, &[0x48, 0x85, 0xff]);
    let failed = emit_short_jump_placeholder(code, 0x74);
    push_bytes(code, &[0x48, 0x8b, 0x47, 0x08, 0x48, 0x3b, 0x47, 0x10]);
    let full = emit_short_jump_placeholder(code, 0x73);
    push_bytes(code, &[0x48, 0x8b, 0x4f, 0x18, 0x49, 0x89, 0xc8, 0x48, 0x0f, 0xaf, 0xc8, 0x48, 0x8b, 0x17, 0x48, 0x01, 0xca, 0x48, 0xff, 0x47, 0x08, 0x4c, 0x89, 0xc1, 0x48, 0x89, 0xd7, 0xf3, 0xa4, 0x31, 0xc0, 0xc3]);
    let failure = code.len();
    push_bytes(code, &[0xb8, 0x01, 0x00, 0x00, 0x00, 0xc3]);
    patch_short_jump(code, failed, failure);
    patch_short_jump(code, full, failure);
    assert(code@ =~= old(code)@ + array_push_code());
}

/// The machine code of the Linux `array_truncate` runtime routine.
pub closed spec fn array_truncate_code() -> Seq<u8> {
    seq![
        0x48u8, 0x85, 0xff, 0x74, 0x0d, 0x48, 0x3b, 0x77, 0x08, 0x77, 0x07, 0x48, 0x89, 0x77, 0x08, 0x31,
        0xc0, 0xc3, 0xb8, 0x01, 0x00, 0x00, 0x00, 0xc3,
    ]
}

fn emit_array_truncate_runtime(code: &mut Vec<u8>)
    requires
        has_room(old(code)@),
    ensures
        final(code)@ == old(code)@ + array_truncate_code(),
{
    push_bytes(code, &[0x48, 0x85, 0xff]);
    let failed = emit_short_jump_placeholder(code, 0x74);
    push_bytes(code, &[0x48, 0x3b, 0x77, 0x08]);
    let too_large = emit_short_jump_placeholder(code, 0x77);
    push_bytes(code, &[0x48, 0x89, 0x77, 0x08, 0x31, 0xc0, 0xc3]);
    let failure = code.len();
    push_bytes(code, &[0xb8, 0x01, 0x00, 0x00, 0x00, 0xc3]);
    patch_short_jump(code, failed, failure);
    patch_short_jump(code, too_large, failure);
    assert(code@ =~= old(code)@ + array_truncate_code());
}

/// The machine code of the Linux `array_pop` runtime routine.
pub closed spec fn array_pop_code() -> Seq<u8> {
    seq![
        0x48u8, 0x85, 0xff, 0x74, 0x22, 0x48, 0x8b, 0x47, 0x08, 0x48, 0x85, 0xc0, 0x74, 0x19, 0x48, 0xff,
        0xc8, 0x48, 0x89, 0x47, 0x08, 0x48, 0x8b, 0x4f, 0x18, 0x48, 0x0f, 0xaf, 0xc8, 0x48, 0x8b, 0x17,
        0x48, 0x01, 0xca, 0x48, 0x89, 0xd0, 0xc3, 0x31, 0xc0, 0xc3,
    ]
}

fn emit_array_pop_runtime(code: &mut Vec<u8>)
    requires
        has_room(old(code)@),
    ensures
        final(code)@ == old(code)@ + array_pop_code(),
{
    push_bytes(code, &[0x48, 0x85, 0xff]);
    let failed = emit_short_jump_placeholder(code, 0x74);
    push_bytes(code, &[0x48, 0x8b, 0x47, 0x08, 0x48, 0x85, 0xc0]);
    let empty = emit_short_jump_placeholder(code, 0x74);
    push_bytes(code, &[0x48, 0xff, 0xc8, 0x48, 0x89, 0x47, 0x08, 0x48, 0x8b, 0x4f, 0x18, 0x48, 0x0f, 0xaf, 0xc8, 0x48, 0x8b, 0x17, 0x48, 0x01, 0xca, 0x48, 0x89, 0xd0, 0xc3]);
    let failure = code.len();
    push_bytes(code, &[0x31, 0xc0, 0xc3]);
    patch_short_jump(code, failed, failure);
    patch_short_jump(code, empty, failure);
    assert(code@ =~= old(code)@ + array_pop_code());
}

/// The machine code of the Linux `array_pop_first` runtime routine.
pub closed spec fn array_pop_first_code() -> Seq<u8> {
    seq![
        0x48u8, 0x85, 0xff, 0x74, 0x30, 0x48, 0x8b, 0x47, 0x08, 0x48, 0x85, 0xc0, 0x74, 0x27, 0x48, 0x8b,
        0x17, 0x48, 0xff, 0xc8, 0x48, 0x89, 0x47, 0x08, 0x4c, 0x8b, 0x4f, 0x18, 0x4c, 0x89, 0xc9, 0x48,
        0x0f, 0xaf, 0xc8, 0x48, 0x85, 0xc9, 0x74, 0x09, 0x4a, 0x8d, 0x34, 0x0a, 0x48, 0x89, 0xd7, 0xf3,
        0xa4, 0x48, 0x89, 0xd0, 0xc3, 0x31, 0xc0, 0xc3,
    ]
}

#[verifier::spinoff_prover]
#[verifier::rlimit(100)]
fn emit_array_pop_first_runtime(code: &mut Vec<u8>)
    requires
        has_room(old(code)@),
    ensures
        final(code)@ == old(code)@ + array_pop_first_code(),
{
    push_bytes(code, &[0x48, 0x85, 0xff]);
    let failed = emit_short_jump_placeholder(code, 0x74);
    push_bytes(code, &[0x48, 0x8b, 0x47, 0x08, 0x48, 0x85, 0xc0]);
    let empty = emit_short_jump_placeholder(code, 0x74);
    push_bytes(code, &[0x48, 0x8b, 0x17, 0x48, 0xff, 0xc8, 0x48, 0x89, 0x47, 0x08, 0x4c, 0x8b, 0x4f, 0x18, 0x4c, 0x89, 0xc9, 0x48, 0x0f, 0xaf, 0xc8, 0x48, 0x85, 0xc9]);
    let no_copy = emit_short_jump_placeholder(code, 0x74);
    push_bytes(code, &[0x4a, 0x8d, 0x34, 0x0a, 0x48, 0x89, 0xd7, 0xf3, 0xa4]);
    let success = code.len();
    push_bytes(code, &[0x48, 0x89, 0xd0, 0xc3]);
    let failure = code.len();
    push_bytes(code, &[0x31, 0xc0, 0xc3]);
    patch_short_jump(code, failed, failure);
    patch_short_jump(code, empty, failure);
    patch_short_jump(code, no_copy, success);
    assert(code@ =~= old(code)@ + array_pop_first_code());
}

/// The machine code of the Linux `array_swap` runtime routine.
pub closed spec fn array_swap_code() -> Seq<u8> {
    seq![
        0x48u8, 0x85, 0xff, 0x0f, 0x84, 0x54, 0x00, 0x00, 0x00, 0x48, 0x8b, 0x47, 0x08, 0x48, 0x39, 0xc6,
        0x0f, 0x83, 0x47, 0x00, 0x00, 0x00, 0x48, 0x39, 0xc2, 0x0f, 0x83, 0x3e, 0x00, 0x00, 0x00, 0x4c,
        0x8b, 0x47, 0x18, 0x4c, 0x8b, 0x0f, 0x49, 0x89, 0xf2, 0x4d, 0x0f, 0xaf, 0xd0, 0x4d, 0x01, 0xca,
        0x49, 0x89, 0xd3, 0x4d, 0x0f, 0xaf, 0xd8, 0x4d, 0x01, 0xcb, 0x45, 0x84, 0xc0, 0x0f, 0x84, 0x17,
        0x00, 0x00, 0x00, 0x41, 0x8a, 0x02, 0x41, 0x8a, 0x0b, 0x41, 0x88, 0x0a, 0x41, 0x88, 0x03, 0x49,
        0xff, 0xc2, 0x49, 0xff, 0xc3, 0x49, 0xff, 0xc8, 0xeb, 0xe0, 0x31, 0xc0, 0xc3, 0xb8, 0x01, 0x00,
        0x00, 0x00, 0xc3,
    ]
}

#[verifier::spinoff_prover]
#[verifier::rlimit(100)]
fn emit_array_swap_runtime(code: &mut Vec<u8>)
    requires
        has_room(old(code)@),
    ensures
        final(code)@ == old(code)@ + array_swap_code(),
{
    push_bytes(code, &[0x48, 0x85, 0xff]);
    let failed = emit_near_jump_placeholder(code, 0x0f, 0x84);
    push_bytes(code, &[0x48, 0x8b, 0x47, 0x08, 0x48, 0x39, 0xc6]);
    let left_invalid = emit_near_jump_placeholder(code, 0x0f, 0x83);
    push_bytes(code, &[0x48, 0x39, 0xc2]);
    let right_invalid = emit_near_jump_placeholder(code, 0x0f, 0x83);
    push_bytes(code, &[0x4c, 0x8b, 0x47, 0x18, 0x4c, 0x8b, 0x0f, 0x49, 0x89, 0xf2, 0x4d, 0x0f, 0xaf, 0xd0, 0x4d, 0x01, 0xca, 0x49, 0x89, 0xd3, 0x4d, 0x0f, 0xaf, 0xd8, 0x4d, 0x01, 0xcb]);
    let loop_start = code.len();
    push_bytes(code, &[0x45, 0x84, 0xc0]);
    let done = emit_near_jump_placeholder(code, 0x0f, 0x84);
    push_bytes(code, &[0x41, 0x8a, 0x02, 0x41, 0x8a, 0x0b, 0x41, 0x88, 0x0a, 0x41, 0x88, 0x03, 0x49, 0xff, 0xc2, 0x49, 0xff, 0xc3, 0x49, 0xff, 0xc8]);
    emit_short_jump_back(code, loop_start);
    let success = code.len();
    push_bytes(code, &[0x31, 0xc0, 0xc3]);
    let failure = code.len();
    push_bytes(code, &[0xb8, 0x01, 0x00, 0x00, 0x00, 0xc3]);
    patch_near_jump(code, failed, failure);
    patch_near_jump(code, left_invalid, failure);
    patch_near_jump(code, right_invalid, failure);
    patch_near_jump(code, done, success);
    assert(code@ =~= old(code)@ + array_swap_code());
}

/// The machine code of the Linux `array_swap_remove` runtime routine.
pub closed spec fn array_swap_remove_code() -> Seq<u8> {
    seq![
        0x48u8, 0x85, 0xff, 0x0f, 0x84, 0x4c, 0x00, 0x00, 0x00, 0x48, 0x8b, 0x47, 0x08, 0x48, 0x39, 0xc6,
        0x0f, 0x83, 0x3f, 0x00, 0x00, 0x00, 0x48, 0xff, 0xc8, 0x48, 0x89, 0x47, 0x08, 0x4c, 0x8b, 0x47,
        0x18, 0x4c, 0x8b, 0x0f, 0x49, 0x89, 0xf2, 0x4d, 0x0f, 0xaf, 0xd0, 0x4d, 0x01, 0xca, 0x49, 0x89,
        0xc3, 0x4d, 0x0f, 0xaf, 0xd8, 0x4d, 0x01, 0xcb, 0x45, 0x84, 0xc0, 0x0f, 0x84, 0x11, 0x00, 0x00,
        0x00, 0x41, 0x8a, 0x03, 0x41, 0x88, 0x02, 0x49, 0xff, 0xc2, 0x49, 0xff, 0xc3, 0x49, 0xff, 0xc8,
        0xeb, 0xe6, 0x31, 0xc0, 0xc3, 0xb8, 0x01, 0x00, 0x00, 0x00, 0xc3,
    ]
}

#[verifier::spinoff_prover]
#[verifier::rlimit(100)]
fn emit_array_swap_remove_runtime(code: &mut Vec<u8>)
    requires
        has_room(old(code)@),
    ensures
        final(code)@ == old(code)@ + array_swap_remove_code(),
{
    push_bytes(code, &[0x48, 0x85, 0xff]);
    let failed = emit_near_jump_placeholder(code, 0x0f, 0x84);
    push_bytes(code, &[0x48, 0x8b, 0x47, 0x08, 0x48, 0x39, 0xc6]);
    let invalid = emit_near_jump_placeholder(code, 0x0f, 0x83);
    push_bytes(code, &[0x48, 0xff, 0xc8, 0x48, 0x89, 0x47, 0x08, 0x4c, 0x8b, 0x47, 0x18, 0x4c, 0x8b, 0x0f, 0x49, 0x89, 0xf2, 0x4d, 0x0f, 0xaf, 0xd0, 0x4d, 0x01, 0xca, 0x49, 0x89, 0xc3, 0x4d, 0x0f, 0xaf, 0xd8, 0x4d, 0x01, 0xcb]);
    let loop_start = code.len();
    push_bytes(code, &[0x45, 0x84, 0xc0]);
    let done = emit_near_jump_placeholder(code, 0x0f, 0x84);
    push_bytes(code, &[0x41, 0x8a, 0x03, 0x41, 0x88, 0x02, 0x49, 0xff, 0xc2, 0x49, 0xff, 0xc3, 0x49, 0xff, 0xc8]);
    emit_short_jump_back(code, loop_start);
    let success = code.len();
    push_bytes(code, &[0x31, 0xc0, 0xc3]);
    let failure = code.len();
    push_bytes(code, &[0xb8, 0x01, 0x00, 0x00, 0x00, 0xc3]);
    patch_near_jump(code, failed, failure);
    patch_near_jump(code, invalid, failure);
    patch_near_jump(code, done, success);
    assert(code@ =~= old(code)@ + array_swap_remove_code());
}

/// The machine code of the Linux `array_remove` runtime routine.
pub closed spec fn array_remove_code() -> Seq<u8> {
    seq![
        0x48u8, 0x85, 0xff, 0x0f, 0x84, 0x40, 0x00, 0x00, 0x00, 0x48, 0x8b, 0x47, 0x08, 0x48, 0x39, 0xc6,
        0x0f, 0x83, 0x33, 0x00, 0x00, 0x00, 0x48, 0xff, 0xc8, 0x48, 0x89, 0x47, 0x08, 0x4c, 0x8b, 0x47,
        0x18, 0x4c, 0x8b, 0x0f, 0x49, 0x89, 0xf2, 0x4d, 0x0f, 0xaf, 0xd0, 0x4d, 0x01, 0xca, 0x4d, 0x89,
        0xd3, 0x4d, 0x01, 0xc3, 0x48, 0x29, 0xf0, 0x49, 0x0f, 0xaf, 0xc0, 0x48, 0x89, 0xd7, 0x4c, 0x89,
        0xde, 0x48, 0x89, 0xc1, 0xf3, 0xa4, 0x31, 0xc0, 0xc3, 0xb8, 0x01, 0x00, 0x00, 0x00, 0xc3,
    ]
}

fn emit_array_remove_runtime(code: &mut Vec<u8>)
    requires
        has_room(old(code)@),
    ensures
        final(code)@ == old(code)@ + array_remove_code(),
{
    push_bytes(code, &[0x48, 0x85, 0xff]);
    let failed = emit_near_jump_placeholder(code, 0x0f, 0x84);
    push_bytes(code, &[0x48, 0x8b, 0x47, 0x08, 0x48, 0x39, 0xc6]);
    let invalid = emit_near_jump_placeholder(code, 0x0f, 0x83);
    push_bytes(code, &[0x48, 0xff, 0xc8, 0x48, 0x89, 0x47, 0x08, 0x4c, 0x8b, 0x47, 0x18, 0x4c, 0x8b, 0x0f, 0x49, 0x89, 0xf2, 0x4d, 0x0f, 0xaf, 0xd0, 0x4d, 0x01, 0xca, 0x4d, 0x89, 0xd3, 0x4d, 0x01, 0xc3, 0x48, 0x29, 0xf0, 0x49, 0x0f, 0xaf, 0xc0, 0x48, 0x89, 0xd7, 0x4c, 0x89, 0xde, 0x48, 0x89, 0xc1, 0xf3, 0xa4, 0x31, 0xc0, 0xc3]);
    let failure = code.len();
    push_bytes(code, &[0xb8, 0x01, 0x00, 0x00, 0x00, 0xc3]);
    patch_near_jump(code, failed, failure);
    patch_near_jump(code, invalid, failure);
    assert(code@ =~= old(code)@ + array_remove_code());
}

/// The machine code of the Linux `array_insert` runtime routine.
pub closed spec fn array_insert_code() -> Seq<u8> {
    seq![
        0x48u8, 0x85, 0xff, 0x0f, 0x84, 0x63, 0x00, 0x00, 0x00, 0x48, 0x8b, 0x47, 0x08, 0x48, 0x39, 0xc6,
        0x0f, 0x87, 0x56, 0x00, 0x00, 0x00, 0x48, 0x3b, 0x47, 0x10, 0x0f, 0x83, 0x4c, 0x00, 0x00, 0x00,
        0x4c, 0x8b, 0x47, 0x18, 0x4c, 0x8b, 0x0f, 0x49, 0x89, 0xf2, 0x4d, 0x0f, 0xaf, 0xd0, 0x4d, 0x01,
        0xca, 0x48, 0xff, 0x47, 0x08, 0x48, 0x29, 0xf0, 0x49, 0x0f, 0xaf, 0xc0, 0x48, 0x85, 0xc0, 0x0f,
        0x84, 0x19, 0x00, 0x00, 0x00, 0x4c, 0x89, 0xd6, 0x48, 0x01, 0xc6, 0x48, 0x89, 0xf7, 0x4c, 0x01,
        0xc7, 0x48, 0xff, 0xce, 0x48, 0xff, 0xcf, 0x48, 0x89, 0xc1, 0xfd, 0xf3, 0xa4, 0xfc, 0x48, 0x89,
        0xd6, 0x4c, 0x89, 0xd7, 0x4c, 0x89, 0xc1, 0xf3, 0xa4, 0x31, 0xc0, 0xc3, 0xb8, 0x01, 0x00, 0x00,
        0x00, 0xc3,
    ]
}

#[verifier::spinoff_prover]
#[verifier::rlimit(100)]
fn emit_array_insert_runtime(code: &mut Vec<u8>)
    requires
        has_room(old(code)@),
    ensures
        final(code)@ == old(code)@ + array_insert_code(),
{
    push_bytes(code, &[0x48, 0x85, 0xff]);
    let failed = emit_near_jump_placeholder(code, 0x0f, 0x84);
    push_bytes(code, &[0x48, 0x8b, 0x47, 0x08, 0x48, 0x39, 0xc6]);
    let invalid_index = emit_near_jump_placeholder(code, 0x0f, 0x87);
    push_bytes(code, &[0x48, 0x3b, 0x47, 0x10]);
    let full = emit_near_jump_placeholder(code, 0x0f, 0x83);
    push_bytes(code, &[0x4c, 0x8b, 0x47, 0x18, 0x4c, 0x8b, 0x0f, 0x49, 0x89, 0xf2, 0x4d, 0x0f, 0xaf, 0xd0, 0x4d, 0x01, 0xca, 0x48, 0xff, 0x47, 0x08, 0x48, 0x29, 0xf0, 0x49, 0x0f, 0xaf, 0xc0, 0x48, 0x85, 0xc0]);
    let no_shift = emit_near_jump_placeholder(code, 0x0f, 0x84);
    push_bytes(code, &[0x4c, 0x89, 0xd6, 0x48, 0x01, 0xc6, 0x48, 0x89, 0xf7, 0x4c, 0x01, 0xc7, 0x48, 0xff, 0xce, 0x48, 0xff, 0xcf, 0x48, 0x89, 0xc1, 0xfd, 0xf3, 0xa4, 0xfc]);
    let copy_value = code.len();
    push_bytes(code, &[0x48, 0x89, 0xd6, 0x4c, 0x89, 0xd7, 0x4c, 0x89, 0xc1, 0xf3, 0xa4, 0x31, 0xc0, 0xc3]);
    let failure = code.len();
    push_bytes(code, &[0xb8, 0x01, 0x00, 0x00, 0x00, 0xc3]);
    patch_near_jump(code, failed, failure);
    patch_near_jump(code, invalid_index, failure);
    patch_near_jump(code, full, failure);
    patch_near_jump(code, no_shift, copy_value);
    assert(code@ =~= old(code)@ + array_insert_code());
}

/// The machine code of the Linux `array_extend` runtime routine.
pub closed spec fn array_extend_code() -> Seq<u8> {
    seq![
        0x48u8, 0x85, 0xff, 0x0f, 0x84, 0x5a, 0x00, 0x00, 0x00, 0x48, 0x85, 0xf6, 0x0f, 0x84, 0x51, 0x00,
        0x00, 0x00, 0x48, 0x8b, 0x4f, 0x08, 0x48, 0x8b, 0x56, 0x08, 0x48, 0x89, 0xc8, 0x48, 0x01, 0xd0,
        0x48, 0x3b, 0x47, 0x10, 0x0f, 0x87, 0x39, 0x00, 0x00, 0x00, 0x48, 0x89, 0x47, 0x08, 0x48, 0x89,
        0xc8, 0x48, 0x8b, 0x4f, 0x18, 0x48, 0x0f, 0xaf, 0xc8, 0x4c, 0x8b, 0x0f, 0x49, 0x01, 0xc9, 0x48,
        0x8b, 0x4f, 0x18, 0x48, 0x0f, 0xaf, 0xd1, 0x4c, 0x8b, 0x16, 0x48, 0x85, 0xd2, 0x74, 0x11, 0x41,
        0x8a, 0x02, 0x41, 0x88, 0x01, 0x49, 0xff, 0xc2, 0x49, 0xff, 0xc1, 0x48, 0xff, 0xca, 0x75, 0xef,
        0x31, 0xc0, 0xc3, 0xb8, 0x01, 0x00, 0x00, 0x00, 0xc3,
    ]
}

#[verifier::spinoff_prover]
#[verifier::rlimit(100)]
fn emit_array_extend_runtime(code: &mut Vec<u8>)
    requires
        has_room(old(code)@),
    ensures
        final(code)@ == old(code)@ + array_extend_code(),
{
    push_bytes(code, &[0x48, 0x85, 0xff]);
    let failed = emit_near_jump_placeholder(code, 0x0f, 0x84);
    push_bytes(code, &[0x48, 0x85, 0xf6]);
    let other_failed = emit_near_jump_placeholder(code, 0x0f, 0x84);
    push_bytes(code, &[0x48, 0x8b, 0x4f, 0x08, 0x48, 0x8b, 0x56, 0x08, 0x48, 0x89, 0xc8, 0x48, 0x01, 0xd0, 0x48, 0x3b, 0x47, 0x10]);
    let full = emit_near_jump_placeholder(code, 0x0f, 0x87);
    push_bytes(
        code,
        &[
            0x48, 0x89, 0x47, 0x08, 0x48, 0x89, 0xc8, 0x48, 0x8b, 0x4f, 0x18, 0x48, 0x0f, 0xaf, 0xc8, 0x4c, 0x8b, 0x0f, 0x49, 0x01, 0xc9, 0x48, 0x8b, 0x4f, 0x18, 0x48, 0x0f, 0xaf, 0xd1, 0x4c, 0x8b, 0x16,
            0x48, 0x85, 0xd2,
        ],
    );
    let skip_copy = emit_short_jump_placeholder(code, 0x74);
    let copy_loop = code.len();
    push_bytes(code, &[0x41, 0x8a, 0x02, 0x41, 0x88, 0x01, 0x49, 0xff, 0xc2, 0x49, 0xff, 0xc1, 0x48, 0xff, 0xca]);
    let copy_again = emit_short_jump_placeholder(code, 0x75);
    let after_copy = code.len();
    push_bytes(code, &[0x31, 0xc0, 0xc3]);
    let failure = code.len();
    push_bytes(code, &[0xb8, 0x01, 0x00, 0x00, 0x00, 0xc3]);
    patch_near_jump(code, failed, failure);
    patch_near_jump(code, other_failed, failure);
    patch_near_jump(code, full, failure);
    patch_short_jump(code, skip_copy, after_copy);
    patch_short_jump(code, copy_again, copy_loop);
    assert(code@ =~= old(code)@ + array_extend_code());
}

/// The machine code of the Linux `array_copy` runtime routine.
pub closed spec fn array_copy_code() -> Seq<u8> {
    seq![
        0x48u8, 0x85, 0xff, 0x0f, 0x84, 0x72, 0x00, 0x00, 0x00, 0x48, 0x85, 0xd2, 0x0f, 0x84, 0x69, 0x00,
        0x00, 0x00, 0x4d, 0x89, 0xc1, 0x4c, 0x8b, 0x47, 0x18, 0x4c, 0x3b, 0x42, 0x18, 0x0f, 0x85, 0x58,
        0x00, 0x00, 0x00, 0x4c, 0x8b, 0x57, 0x08, 0x49, 0x39, 0xf2, 0x0f, 0x86, 0x4b, 0x00, 0x00, 0x00,
        0x49, 0x29, 0xf2, 0x4d, 0x39, 0xca, 0x0f, 0x82, 0x3f, 0x00, 0x00, 0x00, 0x4c, 0x8b, 0x5a, 0x08,
        0x49, 0x39, 0xcb, 0x0f, 0x86, 0x32, 0x00, 0x00, 0x00, 0x49, 0x29, 0xcb, 0x4d, 0x39, 0xcb, 0x0f,
        0x82, 0x26, 0x00, 0x00, 0x00, 0x49, 0x0f, 0xaf, 0xf0, 0x49, 0x0f, 0xaf, 0xc8, 0x4d, 0x0f, 0xaf,
        0xc8, 0x4c, 0x8b, 0x1f, 0x49, 0x01, 0xf3, 0x4c, 0x8b, 0x12, 0x49, 0x01, 0xca, 0x4c, 0x89, 0xdf,
        0x4c, 0x89, 0xd6, 0x4c, 0x89, 0xc9, 0xf3, 0xa4, 0x31, 0xc0, 0xc3, 0xb8, 0x01, 0x00, 0x00, 0x00,
        0xc3,
    ]
}

#[verifier::spinoff_prover]
#[verifier::rlimit(100)]
fn emit_array_copy_runtime(code: &mut Vec<u8>)
    requires
        has_room(old(code)@),
    ensures
        final(code)@ == old(code)@ + array_copy_code(),
{
    push_bytes(code, &[0x48, 0x85, 0xff]);
    let failed = emit_near_jump_placeholder(code, 0x0f, 0x84);
    push_bytes(code, &[0x48, 0x85, 0xd2]);
    let source_failed = emit_near_jump_placeholder(code, 0x0f, 0x84);
    push_bytes(
        code,
        &[
            0x4d, 0x89, 0xc1,
            0x4c, 0x8b, 0x47, 0x18, 0x4c, 0x3b, 0x42, 0x18,
        ],
    );
    let mismatch = emit_near_jump_placeholder(code, 0x0f, 0x85);
    push_bytes(code, &[0x4c, 0x8b, 0x57, 0x08, 0x49, 0x39, 0xf2]);
    let dst_invalid = emit_near_jump_placeholder(code, 0x0f, 0x86);
    push_bytes(code, &[0x49, 0x29, 0xf2, 0x4d, 0x39, 0xca]);
    let dst_range = emit_near_jump_placeholder(code, 0x0f, 0x82);
    push_bytes(code, &[0x4c, 0x8b, 0x5a, 0x08, 0x49, 0x39, 0xcb]);
    let src_invalid = emit_near_jump_placeholder(code, 0x0f, 0x86);
    push_bytes(code, &[0x49, 0x29, 0xcb, 0x4d, 0x39, 0xcb]);
    let src_range = emit_near_jump_placeholder(code, 0x0f, 0x82);
    push_bytes(code, &[0x49, 0x0f, 0xaf, 0xf0, 0x49, 0x0f, 0xaf, 0xc8, 0x4d, 0x0f, 0xaf, 0xc8, 0x4c, 0x8b, 0x1f, 0x49, 0x01, 0xf3, 0x4c, 0x8b, 0x12, 0x49, 0x01, 0xca, 0x4c, 0x89, 0xdf, 0x4c, 0x89, 0xd6, 0x4c, 0x89, 0xc9, 0xf3, 0xa4, 0x31, 0xc0, 0xc3]);
    let failure = code.len();
    push_bytes(code, &[0xb8, 0x01, 0x00, 0x00, 0x00, 0xc3]);
    patch_near_jump(code, failed, failure);
    patch_near_jump(code, source_failed, failure);
    patch_near_jump(code, mismatch, failure);
    patch_near_jump(code, dst_invalid, failure);
    patch_near_jump(code, dst_range, failure);
    patch_near_jump(code, src_invalid, failure);
    patch_near_jump(code, src_range, failure);
    assert(code@ =~= old(code)@ + array_copy_code());
}

/// The machine code of the Linux `array_resize` runtime routine.
pub closed spec fn array_resize_code() -> Seq<u8> {
    seq![
        0x48u8, 0x85, 0xff, 0x0f, 0x84, 0x64, 0x00, 0x00, 0x00, 0x48, 0x3b, 0x77, 0x10, 0x0f, 0x87, 0x5a,
        0x00, 0x00, 0x00, 0x48, 0x8b, 0x47, 0x08, 0x48, 0x39, 0xc6, 0x0f, 0x86, 0x56, 0x00, 0x00, 0x00,
        0x48, 0x89, 0x77, 0x08, 0x48, 0x29, 0xc6, 0x48, 0x85, 0xf6, 0x74, 0x47, 0x48, 0x83, 0xec, 0x18,
        0x48, 0x89, 0x14, 0x24, 0x48, 0x89, 0x74, 0x24, 0x08, 0x48, 0x8b, 0x4f, 0x18, 0x48, 0x89, 0x4c,
        0x24, 0x10, 0x48, 0x0f, 0xaf, 0xc1, 0x48, 0x8b, 0x3f, 0x48, 0x01, 0xc7, 0x48, 0x8b, 0x44, 0x24,
        0x08, 0x48, 0x85, 0xc0, 0x74, 0x10, 0x48, 0x8b, 0x4c, 0x24, 0x10, 0x48, 0x8b, 0x34, 0x24, 0xf3,
        0xa4, 0x48, 0xff, 0xc8, 0xeb, 0xeb, 0x31, 0xc0, 0x48, 0x83, 0xc4, 0x18, 0xc3, 0xb8, 0x01, 0x00,
        0x00, 0x00, 0xc3, 0x31, 0xc0, 0xc3, 0x48, 0x89, 0x77, 0x08, 0x31, 0xc0, 0xc3,
    ]
}

#[verifier::spinoff_prover]
#[verifier::rlimit(100)]
fn emit_array_resize_runtime(code: &mut Vec<u8>)
    requires
        has_room(old(code)@),
    ensures
        final(code)@ == old(code)@ + array_resize_code(),
{
    push_bytes(code, &[0x48, 0x85, 0xff]);
    let failed = emit_near_jump_placeholder(code, 0x0f, 0x84);
    push_bytes(code, &[0x48, 0x3b, 0x77, 0x10]);
    let too_large = emit_near_jump_placeholder(code, 0x0f, 0x87);
    push_bytes(code, &[0x48, 0x8b, 0x47, 0x08, 0x48, 0x39, 0xc6]);
    let shrink = emit_near_jump_placeholder(code, 0x0f, 0x86);
    push_bytes(code, &[0x48, 0x89, 0x77, 0x08, 0x48, 0x29, 0xc6, 0x48, 0x85, 0xf6]);
    let no_fill = emit_short_jump_placeholder(code, 0x74);
    push_bytes(code, &[0x48, 0x83, 0xec, 0x18, 0x48, 0x89, 0x14, 0x24, 0x48, 0x89, 0x74, 0x24, 0x08, 0x48, 0x8b, 0x4f, 0x18, 0x48, 0x89, 0x4c, 0x24, 0x10, 0x48, 0x0f, 0xaf, 0xc1, 0x48, 0x8b, 0x3f, 0x48, 0x01, 0xc7, 0x48, 0x8b, 0x44, 0x24, 0x08]);
    let fill_loop = code.len();
    push_bytes(code, &[0x48, 0x85, 0xc0]);
    let fill_done = emit_short_jump_placeholder(code, 0x74);
    push_bytes(code, &[0x48, 0x8b, 0x4c, 0x24, 0x10, 0x48, 0x8b, 0x34, 0x24, 0xf3, 0xa4, 0x48, 0xff, 0xc8]);
    emit_short_jump_back(code, fill_loop);
    let fill_success = code.len();
    push_bytes(code, &[0x31, 0xc0, 0x48, 0x83, 0xc4, 0x18, 0xc3]);
    let failure = code.len();
    push_bytes(code, &[0xb8, 0x01, 0x00, 0x00, 0x00, 0xc3]);
    let empty_success = code.len();
    push_bytes(code, &[0x31, 0xc0, 0xc3]);
    let shrink_target = code.len();
    push_bytes(code, &[0x48, 0x89, 0x77, 0x08, 0x31, 0xc0, 0xc3]);
    patch_near_jump(code, failed, failure);
    patch_near_jump(code, too_large, failure);
    patch_near_jump(code, shrink, shrink_target);
    patch_short_jump(code, no_fill, empty_success);
    patch_short_jump(code, fill_done, fill_success);
    assert(code@ =~= old(code)@ + array_resize_code());
}

/// The machine code of the Linux `array_first` runtime routine.
pub closed spec fn array_first_code() -> Seq<u8> {
    seq![
        0x48u8, 0x85, 0xff, 0x74, 0x0b, 0x48, 0x83, 0x7f, 0x08, 0x00, 0x74, 0x04, 0x48, 0x8b, 0x07, 0xc3,
        0x31, 0xc0, 0xc3,
    ]
}

fn emit_array_first_runtime(code: &mut Vec<u8>)
    requires
        has_room(old(code)@),
    ensures
        final(code)@ == old(code)@ + array_first_code(),
{
    push_bytes(code, &[0x48, 0x85, 0xff]);
    let failed = emit_short_jump_placeholder(code, 0x74);
    push_bytes(code, &[0x48, 0x83, 0x7f, 0x08, 0x00]);
    let empty = emit_short_jump_placeholder(code, 0x74);
    push_bytes(code, &[0x48, 0x8b, 0x07, 0xc3]);
    let failure = code.len();
    push_bytes(code, &[0x31, 0xc0, 0xc3]);
    patch_short_jump(code, failed, failure);
    patch_short_jump(code, empty, failure);
    assert(code@ =~= old(code)@ + array_first_code());
}

/// The machine code of the Linux `array_last` runtime routine.
pub closed spec fn array_last_code() -> Seq<u8> {
    seq![
        0x48u8, 0x85, 0xff, 0x74, 0x13, 0x48, 0x8b, 0x47, 0x08, 0x48, 0x85, 0xc0, 0x74, 0x0a, 0x48, 0xff,
        0xc8, 0x48, 0x8b, 0x0f, 0x48, 0x01, 0xc8, 0xc3, 0x31, 0xc0, 0xc3,
    ]
}

fn emit_array_last_runtime(code: &mut Vec<u8>)
    requires
        has_room(old(code)@),
    ensures
        final(code)@ == old(code)@ + array_last_code(),
{
    push_bytes(code, &[0x48, 0x85, 0xff]);
    let failed = emit_short_jump_placeholder(code, 0x74);
    push_bytes(code, &[0x48, 0x8b, 0x47, 0x08, 0x48, 0x85, 0xc0]);
    let empty = emit_short_jump_placeholder(code, 0x74);
    push_bytes(code, &[0x48, 0xff, 0xc8, 0x48, 0x8b, 0x0f, 0x48, 0x01, 0xc8, 0xc3]);
    let failure = code.len();
    push_bytes(code, &[0x31, 0xc0, 0xc3]);
    patch_short_jump(code, failed, failure);
    patch_short_jump(code, empty, failure);
    assert(code@ =~= old(code)@ + array_last_code());
}

/// The machine code of the Linux `array_fill` runtime routine.
pub closed spec fn array_fill_code() -> Seq<u8> {
    seq![
        0x48u8, 0x85, 0xff, 0x74, 0x34, 0x48, 0x83, 0xec, 0x18, 0x48, 0x89, 0x34, 0x24, 0x48, 0x8b, 0x47,
        0x08, 0x48, 0x8b, 0x4f, 0x18, 0x48, 0x89, 0x4c, 0x24, 0x08, 0x48, 0x8b, 0x3f, 0x48, 0x85, 0xc0,
        0x74, 0x10, 0x48, 0x8b, 0x4c, 0x24, 0x08, 0x48, 0x8b, 0x34, 0x24, 0xf3, 0xa4, 0x48, 0xff, 0xc8,
        0xeb, 0xeb, 0x31, 0xc0, 0x48, 0x83, 0xc4, 0x18, 0xc3, 0xb8, 0x01, 0x00, 0x00, 0x00, 0xc3,
    ]
}

fn emit_array_fill_runtime(code: &mut Vec<u8>)
    requires
        has_room(old(code)@),
    ensures
        final(code)@ == old(code)@ + array_fill_code(),
{
    push_bytes(code, &[0x48, 0x85, 0xff]);
    let null = emit_short_jump_placeholder(code, 0x74);
    push_bytes(code, &[0x48, 0x83, 0xec, 0x18, 0x48, 0x89, 0x34, 0x24, 0x48, 0x8b, 0x47, 0x08, 0x48, 0x8b, 0x4f, 0x18, 0x48, 0x89, 0x4c, 0x24, 0x08, 0x48, 0x8b, 0x3f]);
    let loop_start = code.len();
    push_bytes(code, &[0x48, 0x85, 0xc0]);
    let done = emit_short_jump_placeholder(code, 0x74);
    push_bytes(code, &[0x48, 0x8b, 0x4c, 0x24, 0x08, 0x48, 0x8b, 0x34, 0x24, 0xf3, 0xa4, 0x48, 0xff, 0xc8]);
    emit_short_jump_back(code, loop_start);
    let success = code.len();
    push_bytes(code, &[0x31, 0xc0, 0x48, 0x83, 0xc4, 0x18, 0xc3]);
    let failure = code.len();
    push_bytes(code, &[0xb8, 0x01, 0x00, 0x00, 0x00, 0xc3]);
    patch_short_jump(code, null, failure);
    patch_short_jump(code, done, success);
    assert(code@ =~= old(code)@ + array_fill_code());
}

/// The machine code of the Linux `array_reverse` runtime routine.
pub closed spec fn array_reverse_code() -> Seq<u8> {
    seq![
        0x48u8, 0x85, 0xff, 0x74, 0x2f, 0x48, 0x8b, 0x47, 0x08, 0x48, 0x85, 0xc0, 0x74, 0x23, 0x48, 0xff,
        0xc8, 0x4c, 0x8b, 0x07, 0x4d, 0x8d, 0x0c, 0x00, 0x4d, 0x39, 0xc8, 0x73, 0x14, 0x45, 0x8a, 0x10,
        0x45, 0x8a, 0x19, 0x45, 0x88, 0x18, 0x45, 0x88, 0x11, 0x49, 0xff, 0xc0, 0x49, 0xff, 0xc9, 0xeb,
        0xe7, 0x31, 0xc0, 0xc3, 0xb8, 0x01, 0x00, 0x00, 0x00, 0xc3,
    ]
}

#[verifier::spinoff_prover]
#[verifier::rlimit(100)]
fn emit_array_reverse_runtime(code: &mut Vec<u8>)
    requires
        has_room(old(code)@),
    ensures
        final(code)@ == old(code)@ + array_reverse_code(),
{
    push_bytes(code, &[0x48, 0x85, 0xff]);
    let failed = emit_short_jump_placeholder(code, 0x74);
    push_bytes(code, &[0x48, 0x8b, 0x47, 0x08, 0x48, 0x85, 0xc0]);
    let empty = emit_short_jump_placeholder(code, 0x74);
    push_bytes(code, &[0x48, 0xff, 0xc8, 0x4c, 0x8b, 0x07, 0x4d, 0x8d, 0x0c, 0x00]);
    let loop_start = code.len();
    push_bytes(code, &[0x4d, 0x39, 0xc8]);
    let done = emit_short_jump_placeholder(code, 0x73);
    push_bytes(code, &[0x45, 0x8a, 0x10, 0x45, 0x8a, 0x19, 0x45, 0x88, 0x18, 0x45, 0x88, 0x11, 0x49, 0xff, 0xc0, 0x49, 0xff, 0xc9]);
    emit_short_jump_back(code, loop_start);
    let success = code.len();
    push_bytes(code, &[0x31, 0xc0, 0xc3]);
    let failure = code.len();
    push_bytes(code, &[0xb8, 0x01, 0x00, 0x00, 0x00, 0xc3]);
    patch_short_jump(code, failed, failure);
    patch_short_jump(code, empty, success);
    patch_short_jump(code, done, success);
    assert(code@ =~= old(code)@ + array_reverse_code());
}

/// The machine code of the Linux `bounds_check` runtime routine.
pub closed spec fn bounds_check_code() -> Seq<u8> {
    seq![
        0x48u8, 0x39, 0xf7, 0x73, 0x01, 0xc3, 0xbf, 0x01, 0x00, 0x00, 0x00, 0xb8, 0x3c, 0x00, 0x00, 0x00,
        0x0f, 0x05, 0xc3,
    ]
}

fn emit_bounds_check_runtime(code: &mut Vec<u8>)
    requires
        has_room(old(code)@),
    ensures
        final(code)@ == old(code)@ + bounds_check_code(),
{
    push_bytes(code, &[0x48, 0x39, 0xf7]);
    let failed = emit_short_jump_placeholder(code, 0x73);
    push_bytes(code, &[0xc3]);
    let failure = code.len();
    push_bytes(
        code,
        &[
            0xbf, 0x01, 0x00, 0x00, 0x00,
            0xb8, 0x3c, 0x00, 0x00, 0x00, 0x0f, 0x05,
            0xc3,
        ],
    );
    patch_short_jump(code, failed, failure);
    assert(code@ =~= old(code)@ + bounds_check_code());
}

/// The machine code of the Linux `string_concat` runtime routine.
pub closed spec fn string_concat_code() -> Seq<u8> {
    seq![
        0x48u8, 0x83, 0xec, 0x38, 0x48, 0x89, 0x3c, 0x24, 0x48, 0x89, 0x74, 0x24, 0x08, 0x48, 0x8b, 0x3c,
        0x24, 0x49, 0x89, 0xf8, 0x31, 0xc0, 0x41, 0x0f, 0xb6, 0x08, 0x85, 0xc9, 0x74, 0x08, 0x49, 0xff,
        0xc0, 0x48, 0xff, 0xc0, 0xeb, 0xf0, 0x48, 0x89, 0x44, 0x24, 0x10, 0x48, 0x8b, 0x74, 0x24, 0x08,
        0x49, 0x89, 0xf0, 0x31, 0xc0, 0x41, 0x0f, 0xb6, 0x08, 0x85, 0xc9, 0x74, 0x08, 0x49, 0xff, 0xc0,
        0x48, 0xff, 0xc0, 0xeb, 0xf0, 0x48, 0x89, 0x44, 0x24, 0x18, 0x48, 0x8b, 0x44, 0x24, 0x10, 0x48,
        0x03, 0x44, 0x24, 0x18, 0x48, 0xff, 0xc0, 0x31, 0xff, 0x48, 0x89, 0xc6, 0x48, 0x83, 0xc6, 0x08,
        0xba, 0x03, 0x00, 0x00, 0x00, 0x41, 0xba, 0x22, 0x00, 0x00, 0x00, 0x49, 0xc7, 0xc0, 0xff, 0xff,
        0xff, 0xff, 0x45, 0x31, 0xc9, 0xb8, 0x09, 0x00, 0x00, 0x00, 0x0f, 0x05, 0x48, 0x89, 0x30, 0x48,
        0x83, 0xc0, 0x08, 0x48, 0x89, 0x44, 0x24, 0x20, 0x48, 0x8b, 0x44, 0x24, 0x20, 0x49, 0x89, 0xc1,
        0x48, 0x8b, 0x3c, 0x24, 0x49, 0x89, 0xf8, 0x4c, 0x8b, 0x54, 0x24, 0x10, 0x49, 0x83, 0xfa, 0x00,
        0x74, 0x11, 0x41, 0x8a, 0x00, 0x41, 0x88, 0x01, 0x49, 0xff, 0xc0, 0x49, 0xff, 0xc1, 0x49, 0xff,
        0xca, 0xeb, 0xe9, 0x48, 0x8b, 0x74, 0x24, 0x08, 0x49, 0x89, 0xf0, 0x4c, 0x8b, 0x54, 0x24, 0x18,
        0x49, 0x83, 0xfa, 0x00, 0x74, 0x11, 0x41, 0x8a, 0x00, 0x41, 0x88, 0x01, 0x49, 0xff, 0xc0, 0x49,
        0xff, 0xc1, 0x49, 0xff, 0xca, 0xeb, 0xe9, 0x41, 0xc6, 0x01, 0x00, 0x48, 0x8b, 0x44, 0x24, 0x20,
        0x48, 0x83, 0xc4, 0x38, 0xc3,
    ]
}

#[verifier::spinoff_prover]
#[verifier::rlimit(100)]
fn emit_string_concat_runtime(code: &mut Vec<u8>)
    requires
        has_room(old(code)@),
    ensures
        final(code)@ == old(code)@ + string_concat_code(),
{
    push_bytes(
        code,
        &[
            0x48, 0x83, 0xec, 0x38,
            0x48, 0x89, 0x3c, 0x24,
            0x48, 0x89, 0x74, 0x24, 0x08,
            0x48, 0x8b, 0x3c, 0x24,
            0x49, 0x89, 0xf8,
            0x31, 0xc0,
        ],
    );
    let left_len_loop = code.len();
    push_bytes(
        code,
        &[
            0x41, 0x0f, 0xb6, 0x08,
            0x85, 0xc9,
        ],
    );
    let left_len_done = emit_short_jump_placeholder(code, 0x74);
    push_bytes(
        code,
        &[
            0x49, 0xff, 0xc0,
            0x48, 0xff, 0xc0,
        ],
    );
    emit_short_jump_back(code, left_len_loop);
    let left_len_target = code.len();
    push_bytes(
        code,
        &[
            0x48, 0x89, 0x44, 0x24, 0x10,
            0x48, 0x8b, 0x74, 0x24, 0x08,
            0x49, 0x89, 0xf0,
            0x31, 0xc0,
        ],
    );
    let right_len_loop = code.len();
    push_bytes(
        code,
        &[
            0x41, 0x0f, 0xb6, 0x08,
            0x85, 0xc9,
        ],
    );
    let right_len_done = emit_short_jump_placeholder(code, 0x74);
    push_bytes(
        code,
        &[
            0x49, 0xff, 0xc0,
            0x48, 0xff, 0xc0,
        ],
    );
    emit_short_jump_back(code, right_len_loop);
    let right_len_target = code.len();
    push_bytes(
        code,
        &[
            0x48, 0x89, 0x44, 0x24, 0x18,
            0x48, 0x8b, 0x44, 0x24, 0x10,
            0x48, 0x03, 0x44, 0x24, 0x18,
            0x48, 0xff, 0xc0,
            0x31, 0xff,
            0x48, 0x89, 0xc6,
            0x48, 0x83, 0xc6, 0x08,
            0xba, 0x03, 0x00, 0x00, 0x00,
            0x41, 0xba, 0x22, 0x00, 0x00, 0x00,
            0x49, 0xc7, 0xc0, 0xff, 0xff, 0xff, 0xff,
            0x45, 0x31, 0xc9,
            0xb8, 0x09, 0x00, 0x00, 0x00,
            0x0f, 0x05,
            0x48, 0x89, 0x30, 0x48, 0x83, 0xc0, 0x08, 0x48, 0x89, 0x44, 0x24, 0x20,
            0x48, 0x8b, 0x44, 0x24, 0x20,
            0x49, 0x89, 0xc1,
            0x48, 0x8b, 0x3c, 0x24,
            0x49, 0x89, 0xf8,
            0x4c, 0x8b, 0x54, 0x24, 0x10,
        ],
    );
    let left_copy_loop = code.len();
    push_bytes(code, &[0x49, 0x83, 0xfa, 0x00]);
    let left_copy_done = emit_short_jump_placeholder(code, 0x74);
    push_bytes(
        code,
        &[
            0x41, 0x8a, 0x00,
            0x41, 0x88, 0x01,
            0x49, 0xff, 0xc0,
            0x49, 0xff, 0xc1,
            0x49, 0xff, 0xca,
        ],
    );
    emit_short_jump_back(code, left_copy_loop);
    let left_copy_target = code.len();
    push_bytes(
        code,
        &[
            0x48, 0x8b, 0x74, 0x24, 0x08,
            0x49, 0x89, 0xf0,
            0x4c, 0x8b, 0x54, 0x24, 0x18,
        ],
    );
    let right_copy_loop = code.len();
    push_bytes(code, &[0x49, 0x83, 0xfa, 0x00]);
    let right_copy_done = emit_short_jump_placeholder(code, 0x74);
    push_bytes(
        code,
        &[
            0x41, 0x8a, 0x00,
            0x41, 0x88, 0x01,
            0x49, 0xff, 0xc0,
            0x49, 0xff, 0xc1,
            0x49, 0xff, 0xca,
        ],
    );
    emit_short_jump_back(code, right_copy_loop);
    let done = code.len();
    push_bytes(
        code,
        &[
            0x41, 0xc6, 0x01, 0x00,
            0x48, 0x8b, 0x44, 0x24, 0x20,
            0x48, 0x83, 0xc4, 0x38,
            0xc3,
        ],
    );
    patch_short_jump(code, left_len_done, left_len_target);
    patch_short_jump(code, right_len_done, right_len_target);
    patch_short_jump(code, left_copy_done, left_copy_target);
    patch_short_jump(code, right_copy_done, done);
    assert(code@ =~= old(code)@ + string_concat_code());
}

/// The machine code of the Linux `exit` runtime routine.
pub closed spec fn exit_code() -> Seq<u8> {
    seq![
        0xb8u8, 0x3c, 0x00, 0x00, 0x00, 0x0f, 0x05, 0xc3,
    ]
}

fn emit_exit_runtime(code: &mut Vec<u8>)
    requires
        has_room(old(code)@),
    ensures
        final(code)@ == old(code)@ + exit_code(),
{
    push_bytes(
        code,
        &[
            0xb8, 0x3c, 0x00, 0x00, 0x00, 0x0f, 0x05,
            0xc3,
        ],
    );
    assert(code@ =~= old(code)@ + exit_code());
}

/// The machine code of the Linux `free` runtime routine.
pub closed spec fn free_code() -> Seq<u8> {
    seq![
        0x48u8, 0x85, 0xff, 0x74, 0x16, 0x48, 0x83, 0xef, 0x08, 0x48, 0x8b, 0x37, 0xb8, 0x0b, 0x00, 0x00,
        0x00, 0x0f, 0x05, 0x48, 0x85, 0xc0, 0x78, 0x03, 0x31, 0xc0, 0xc3, 0xb8, 0x01, 0x00, 0x00, 0x00,
        0xc3,
    ]
}

fn emit_free_runtime(code: &mut Vec<u8>)
    requires
        has_room(old(code)@),
    ensures
        final(code)@ == old(code)@ + free_code(),
{
    push_bytes(code, &[0x48, 0x85, 0xff]);
    let null = emit_short_jump_placeholder(code, 0x74);
    push_bytes(code, &[0x48, 0x83, 0xef, 0x08, 0x48, 0x8b, 0x37, 0xb8, 0x0b, 0x00, 0x00, 0x00, 0x0f, 0x05, 0x48, 0x85, 0xc0]);
    let failed = emit_short_jump_placeholder(code, 0x78);
    push_bytes(code, &[0x31, 0xc0, 0xc3]);
    let failure = code.len();
    push_bytes(code, &[0xb8, 0x01, 0x00, 0x00, 0x00, 0xc3]);
    patch_short_jump(code, null, failure);
    patch_short_jump(code, failed, failure);
    assert(code@ =~= old(code)@ + free_code());
}

/// The machine code of the Linux `alloc_copy` runtime routine.
pub closed spec fn alloc_copy_code() -> Seq<u8> {
    seq![
        0x48u8, 0x83, 0xec, 0x28, 0x48, 0x89, 0x3c, 0x24, 0x48, 0x89, 0x74, 0x24, 0x08, 0x48, 0x85, 0xf6,
        0x74, 0x70, 0x31, 0xff, 0x48, 0x8b, 0x74, 0x24, 0x08, 0x48, 0x83, 0xc6, 0x08, 0x48, 0x89, 0x74,
        0x24, 0x18, 0x48, 0x89, 0xf2, 0xba, 0x03, 0x00, 0x00, 0x00, 0x41, 0xba, 0x22, 0x00, 0x00, 0x00,
        0x49, 0xc7, 0xc0, 0xff, 0xff, 0xff, 0xff, 0x45, 0x31, 0xc9, 0xb8, 0x09, 0x00, 0x00, 0x00, 0x0f,
        0x05, 0x48, 0x85, 0xc0, 0x0f, 0x88, 0x31, 0x00, 0x00, 0x00, 0x48, 0x89, 0x44, 0x24, 0x10, 0x48,
        0x8b, 0x54, 0x24, 0x18, 0x48, 0x89, 0x10, 0x48, 0x83, 0xc0, 0x08, 0x48, 0x89, 0x44, 0x24, 0x10,
        0x48, 0x8b, 0x74, 0x24, 0x00, 0x48, 0x8b, 0x7c, 0x24, 0x10, 0x48, 0x8b, 0x4c, 0x24, 0x08, 0xf3,
        0xa4, 0x48, 0x8b, 0x44, 0x24, 0x10, 0x48, 0x83, 0xc4, 0x28, 0xc3, 0x31, 0xc0, 0x48, 0x83, 0xc4,
        0x28, 0xc3, 0x31, 0xc0, 0x48, 0x83, 0xc4, 0x28, 0xc3,
    ]
}

#[verifier::spinoff_prover]
#[verifier::rlimit(100)]
fn emit_alloc_copy_runtime(code: &mut Vec<u8>)
    requires
        has_room(old(code)@),
    ensures
        final(code)@ == old(code)@ + alloc_copy_code(),
{
    push_bytes(
        code,
        &[
            0x48, 0x83, 0xec, 0x28,
            0x48, 0x89, 0x3c, 0x24,
            0x48, 0x89, 0x74, 0x24, 0x08,
            0x48, 0x85, 0xf6,
        ],
    );
    let empty = emit_short_jump_placeholder(code, 0x74);
    push_bytes(
        code,
        &[
            0x31, 0xff,
            0x48, 0x8b, 0x74, 0x24, 0x08,
            0x48, 0x83, 0xc6, 0x08, 0x48, 0x89, 0x74, 0x24, 0x18,
            0x48, 0x89, 0xf2,
            0xba, 0x03, 0x00, 0x00, 0x00,
            0x41, 0xba, 0x22, 0x00, 0x00, 0x00,
            0x49, 0xc7, 0xc0, 0xff, 0xff, 0xff, 0xff,
            0x45, 0x31, 0xc9,
            0xb8, 0x09, 0x00, 0x00, 0x00, 0x0f, 0x05,
            0x48, 0x85, 0xc0,
        ],
    );
    let failed = emit_near_jump_placeholder(code, 0x0f, 0x88);
    push_bytes(
        code,
        &[
            0x48, 0x89, 0x44, 0x24, 0x10, 0x48, 0x8b, 0x54, 0x24, 0x18, 0x48, 0x89, 0x10, 0x48, 0x83, 0xc0, 0x08, 0x48, 0x89, 0x44, 0x24, 0x10,
            0x48, 0x8b, 0x74, 0x24, 0x00,
            0x48, 0x8b, 0x7c, 0x24, 0x10,
            0x48, 0x8b, 0x4c, 0x24, 0x08,
            0xf3, 0xa4,
            0x48, 0x8b, 0x44, 0x24, 0x10,
            0x48, 0x83, 0xc4, 0x28, 0xc3,
        ],
    );
    let failure = code.len();
    push_bytes(code, &[0x31, 0xc0, 0x48, 0x83, 0xc4, 0x28, 0xc3]);
    let empty_target = code.len();
    push_bytes(code, &[0x31, 0xc0, 0x48, 0x83, 0xc4, 0x28, 0xc3]);
    patch_near_jump(code, failed, failure);
    patch_short_jump(code, empty, empty_target);
    assert(code@ =~= old(code)@ + alloc_copy_code());
}

/// The machine code of the Linux `write_file` runtime routine.
pub closed spec fn write_file_code() -> Seq<u8> {
    seq![
        0x48u8, 0x83, 0xec, 0x28, 0x48, 0x89, 0x3c, 0x24, 0x48, 0x89, 0x74, 0x24, 0x08, 0x49, 0x89, 0xf0,
        0x31, 0xd2, 0x41, 0x0f, 0xb6, 0x08, 0x85, 0xc9, 0x74, 0x07, 0x49, 0xff, 0xc0, 0xff, 0xc2, 0xeb,
        0xf1, 0x48, 0x89, 0x54, 0x24, 0x10, 0x48, 0x8b, 0x3c, 0x24, 0x48, 0xc7, 0xc6, 0x41, 0x02, 0x00,
        0x00, 0x48, 0xc7, 0xc2, 0xa4, 0x01, 0x00, 0x00, 0xb8, 0x02, 0x00, 0x00, 0x00, 0x0f, 0x05, 0x48,
        0x89, 0x44, 0x24, 0x18, 0x48, 0x85, 0xc0, 0x78, 0x31, 0x48, 0x8b, 0x7c, 0x24, 0x18, 0x48, 0x8b,
        0x74, 0x24, 0x08, 0x48, 0x8b, 0x54, 0x24, 0x10, 0xb8, 0x01, 0x00, 0x00, 0x00, 0x0f, 0x05, 0x48,
        0x89, 0x44, 0x24, 0x20, 0x48, 0x8b, 0x7c, 0x24, 0x18, 0xb8, 0x03, 0x00, 0x00, 0x00, 0x0f, 0x05,
        0x48, 0x8b, 0x44, 0x24, 0x20, 0x48, 0x83, 0xc4, 0x28, 0xc3, 0x48, 0xc7, 0xc0, 0xff, 0xff, 0xff,
        0xff, 0x48, 0x83, 0xc4, 0x28, 0xc3,
    ]
}

#[verifier::spinoff_prover]
#[verifier::rlimit(100)]
fn emit_write_file_runtime(code: &mut Vec<u8>)
    requires
        has_room(old(code)@),
    ensures
        final(code)@ == old(code)@ + write_file_code(),
{
    push_bytes(
        code,
        &[
            0x48, 0x83, 0xec, 0x28,
            0x48, 0x89, 0x3c, 0x24,
            0x48, 0x89, 0x74, 0x24, 0x08,
            0x49, 0x89, 0xf0,
            0x31, 0xd2,
        ],
    );
    let len_loop = code.len();
    push_bytes(
        code,
        &[
            0x41, 0x0f, 0xb6, 0x08,
            0x85, 0xc9,
        ],
    );
    let len_done = emit_short_jump_placeholder(code, 0x74);
    push_bytes(
        code,
        &[
            0x49, 0xff, 0xc0,
            0xff, 0xc2,
        ],
    );
    emit_short_jump_back(code, len_loop);
    let len_target = code.len();
    push_bytes(
        code,
        &[
            0x48, 0x89, 0x54, 0x24, 0x10,
            0x48, 0x8b, 0x3c, 0x24,
            0x48, 0xc7, 0xc6, 0x41, 0x02, 0x00, 0x00,
            0x48, 0xc7, 0xc2, 0xa4, 0x01, 0x00, 0x00,
            0xb8, 0x02, 0x00, 0x00, 0x00, 0x0f, 0x05,
            0x48, 0x89, 0x44, 0x24, 0x18,
            0x48, 0x85, 0xc0,
        ],
    );
    let open_failed = emit_short_jump_placeholder(code, 0x78);
    push_bytes(
        code,
        &[
            0x48, 0x8b, 0x7c, 0x24, 0x18,
            0x48, 0x8b, 0x74, 0x24, 0x08,
            0x48, 0x8b, 0x54, 0x24, 0x10,
            0xb8, 0x01, 0x00, 0x00, 0x00, 0x0f, 0x05,
            0x48, 0x89, 0x44, 0x24, 0x20,
            0x48, 0x8b, 0x7c, 0x24, 0x18,
            0xb8, 0x03, 0x00, 0x00, 0x00, 0x0f, 0x05,
            0x48, 0x8b, 0x44, 0x24, 0x20,
            0x48, 0x83, 0xc4, 0x28,
            0xc3,
        ],
    );
    let open_failed_target = code.len();
    push_bytes(
        code,
        &[
            0x48, 0xc7, 0xc0, 0xff, 0xff, 0xff, 0xff,
            0x48, 0x83, 0xc4, 0x28,
            0xc3,
        ],
    );
    patch_short_jump(code, len_done, len_target);
    patch_short_jump(code, open_failed, open_failed_target);
    assert(code@ =~= old(code)@ + write_file_code());
}

/// The machine code of the Linux `append_file` runtime routine.
pub closed spec fn append_file_code() -> Seq<u8> {
    seq![
        0x48u8, 0x83, 0xec, 0x28, 0x48, 0x89, 0x3c, 0x24, 0x48, 0x89, 0x74, 0x24, 0x08, 0x48, 0x85, 0xff,
        0x0f, 0x84, 0x8c, 0x00, 0x00, 0x00, 0x49, 0x89, 0xf0, 0x31, 0xd2, 0x41, 0x0f, 0xb6, 0x08, 0x85,
        0xc9, 0x74, 0x07, 0x49, 0xff, 0xc0, 0xff, 0xc2, 0xeb, 0xf1, 0x48, 0x89, 0x54, 0x24, 0x10, 0xbf,
        0x9c, 0xff, 0xff, 0xff, 0x48, 0x8b, 0x34, 0x24, 0xba, 0x41, 0x04, 0x00, 0x00, 0x41, 0xba, 0xa4,
        0x01, 0x00, 0x00, 0xb8, 0x01, 0x01, 0x00, 0x00, 0x0f, 0x05, 0x48, 0x89, 0x44, 0x24, 0x18, 0x48,
        0x85, 0xc0, 0x0f, 0x88, 0x34, 0x00, 0x00, 0x00, 0x48, 0x8b, 0x7c, 0x24, 0x18, 0x48, 0x8b, 0x74,
        0x24, 0x08, 0x48, 0x8b, 0x54, 0x24, 0x10, 0xb8, 0x01, 0x00, 0x00, 0x00, 0x0f, 0x05, 0x48, 0x3b,
        0x44, 0x24, 0x10, 0x0f, 0x85, 0x13, 0x00, 0x00, 0x00, 0x48, 0x8b, 0x7c, 0x24, 0x18, 0xb8, 0x03,
        0x00, 0x00, 0x00, 0x0f, 0x05, 0x31, 0xc0, 0x48, 0x83, 0xc4, 0x28, 0xc3, 0x48, 0x8b, 0x7c, 0x24,
        0x18, 0xb8, 0x03, 0x00, 0x00, 0x00, 0x0f, 0x05, 0xb8, 0x01, 0x00, 0x00, 0x00, 0x48, 0x83, 0xc4,
        0x28, 0xc3, 0xb8, 0x01, 0x00, 0x00, 0x00, 0x48, 0x83, 0xc4, 0x28, 0xc3,
    ]
}

#[verifier::spinoff_prover]
#[verifier::rlimit(100)]
fn emit_append_file_runtime(code: &mut Vec<u8>)
    requires
        has_room(old(code)@),
    ensures
        final(code)@ == old(code)@ + append_file_code(),
{
    push_bytes(
        code,
        &[
            0x48, 0x83, 0xec, 0x28,
            0x48, 0x89, 0x3c, 0x24,
            0x48, 0x89, 0x74, 0x24, 0x08,
            0x48, 0x85, 0xff,
        ],
    );
    let null_path = emit_near_jump_placeholder(code, 0x0f, 0x84);
    push_bytes(
        code,
        &[
            0x49, 0x89, 0xf0,
            0x31, 0xd2,
        ],
    );
    let len_loop = code.len();
    push_bytes(
        code,
        &[
            0x41, 0x0f, 0xb6, 0x08,
            0x85, 0xc9,
        ],
    );
    let len_done = emit_short_jump_placeholder(code, 0x74);
    push_bytes(
        code,
        &[
            0x49, 0xff, 0xc0,
            0xff, 0xc2,
        ],
    );
    emit_short_jump_back(code, len_loop);
    let len_target = code.len();
    push_bytes(
        code,
        &[
            0x48, 0x89, 0x54, 0x24, 0x10,
            0xbf, 0x9c, 0xff, 0xff, 0xff,
            0x48, 0x8b, 0x34, 0x24,
            0xba, 0x41, 0x04, 0x00, 0x00,
            0x41, 0xba, 0xa4, 0x01, 0x00, 0x00,
            0xb8, 0x01, 0x01, 0x00, 0x00, 0x0f, 0x05,
            0x48, 0x89, 0x44, 0x24, 0x18,
            0x48, 0x85, 0xc0,
        ],
    );
    let open_failed = emit_near_jump_placeholder(code, 0x0f, 0x88);
    push_bytes(
        code,
        &[
            0x48, 0x8b, 0x7c, 0x24, 0x18,
            0x48, 0x8b, 0x74, 0x24, 0x08,
            0x48, 0x8b, 0x54, 0x24, 0x10,
            0xb8, 0x01, 0x00, 0x00, 0x00, 0x0f, 0x05,
            0x48, 0x3b, 0x44, 0x24, 0x10,
        ],
    );
    let write_failed = emit_near_jump_placeholder(code, 0x0f, 0x85);
    push_bytes(
        code,
        &[
            0x48, 0x8b, 0x7c, 0x24, 0x18,
            0xb8, 0x03, 0x00, 0x00, 0x00, 0x0f, 0x05,
            0x31, 0xc0, 0x48, 0x83, 0xc4, 0x28, 0xc3,
        ],
    );
    let failure = code.len();
    push_bytes(
        code,
        &[
            0x48, 0x8b, 0x7c, 0x24, 0x18,
            0xb8, 0x03, 0x00, 0x00, 0x00, 0x0f, 0x05,
            0xb8, 0x01, 0x00, 0x00, 0x00, 0x48, 0x83, 0xc4, 0x28, 0xc3,
        ],
    );
    let null_path_target = code.len();
    push_bytes(code, &[0xb8, 0x01, 0x00, 0x00, 0x00, 0x48, 0x83, 0xc4, 0x28, 0xc3]);
    patch_short_jump(code, len_done, len_target);
    patch_near_jump(code, null_path, null_path_target);
    patch_near_jump(code, open_failed, failure);
    patch_near_jump(code, write_failed, failure);
    assert(code@ =~= old(code)@ + append_file_code());
}

/// The machine code of the Linux `touch_file` runtime routine.
pub closed spec fn touch_file_code() -> Seq<u8> {
    seq![
        0x48u8, 0x83, 0xec, 0x18, 0x48, 0x89, 0x3c, 0x24, 0x48, 0x85, 0xff, 0x0f, 0x84, 0x40, 0x00, 0x00,
        0x00, 0xbf, 0x9c, 0xff, 0xff, 0xff, 0x48, 0x8b, 0x74, 0x24, 0x00, 0xba, 0x41, 0x00, 0x00, 0x00,
        0x41, 0xba, 0xa4, 0x01, 0x00, 0x00, 0xb8, 0x01, 0x01, 0x00, 0x00, 0x0f, 0x05, 0x48, 0x85, 0xc0,
        0x0f, 0x88, 0x11, 0x00, 0x00, 0x00, 0x48, 0x89, 0xc7, 0xb8, 0x03, 0x00, 0x00, 0x00, 0x0f, 0x05,
        0x31, 0xc0, 0x48, 0x83, 0xc4, 0x18, 0xc3, 0xb8, 0x01, 0x00, 0x00, 0x00, 0x48, 0x83, 0xc4, 0x18,
        0xc3, 0xb8, 0x01, 0x00, 0x00, 0x00, 0x48, 0x83, 0xc4, 0x18, 0xc3,
    ]
}

fn emit_touch_file_runtime(code: &mut Vec<u8>)
    requires
        has_room(old(code)@),
    ensures
        final(code)@ == old(code)@ + touch_file_code(),
{
    push_bytes(
        code,
        &[
            0x48, 0x83, 0xec, 0x18,
            0x48, 0x89, 0x3c, 0x24,
            0x48, 0x85, 0xff,
        ],
    );
    let null_path = emit_near_jump_placeholder(code, 0x0f, 0x84);
    push_bytes(
        code,
        &[
            0xbf, 0x9c, 0xff, 0xff, 0xff,
            0x48, 0x8b, 0x74, 0x24, 0x00,
            0xba, 0x41, 0x00, 0x00, 0x00,
            0x41, 0xba, 0xa4, 0x01, 0x00, 0x00,
            0xb8, 0x01, 0x01, 0x00, 0x00, 0x0f, 0x05,
            0x48, 0x85, 0xc0,
        ],
    );
    let open_failed = emit_near_jump_placeholder(code, 0x0f, 0x88);
    push_bytes(
        code,
        &[
            0x48, 0x89, 0xc7,
            0xb8, 0x03, 0x00, 0x00, 0x00, 0x0f, 0x05,
            0x31, 0xc0, 0x48, 0x83, 0xc4, 0x18, 0xc3,
        ],
    );
    let failure = code.len();
    push_bytes(code, &[0xb8, 0x01, 0x00, 0x00, 0x00, 0x48, 0x83, 0xc4, 0x18, 0xc3]);
    let null_path_target = code.len();
    push_bytes(code, &[0xb8, 0x01, 0x00, 0x00, 0x00, 0x48, 0x83, 0xc4, 0x18, 0xc3]);
    patch_near_jump(code, null_path, null_path_target);
    patch_near_jump(code, open_failed, failure);
    assert(code@ =~= old(code)@ + touch_file_code());
}

/// The machine code of the Linux `remove_file` runtime routine.
pub closed spec fn remove_file_code() -> Seq<u8> {
    seq![
        0x48u8, 0x85, 0xff, 0x74, 0x0f, 0xb8, 0x57, 0x00, 0x00, 0x00, 0x0f, 0x05, 0x48, 0x85, 0xc0, 0x78,
        0x03, 0x31, 0xc0, 0xc3, 0xb8, 0x01, 0x00, 0x00, 0x00, 0xc3,
    ]
}

fn emit_remove_file_runtime(code: &mut Vec<u8>)
    requires
        has_room(old(code)@),
    ensures
        final(code)@ == old(code)@ + remove_file_code(),
{
    push_bytes(code, &[0x48, 0x85, 0xff]);
    let null_path = emit_short_jump_placeholder(code, 0x74);
    push_bytes(
        code,
        &[
            0xb8, 0x57, 0x00, 0x00, 0x00, 0x0f, 0x05,
            0x48, 0x85, 0xc0,
        ],
    );
    let failed = emit_short_jump_placeholder(code, 0x78);
    push_bytes(code, &[0x31, 0xc0, 0xc3]);
    let failure = code.len();
    push_bytes(code, &[0xb8, 0x01, 0x00, 0x00, 0x00, 0xc3]);
    patch_short_jump(code, null_path, failure);
    patch_short_jump(code, failed, failure);
    assert(code@ =~= old(code)@ + remove_file_code());
}

/// The machine code of the Linux `file_write` runtime routine.
pub closed spec fn file_write_code() -> Seq<u8> {
    seq![
        0x48u8, 0x83, 0xec, 0x28, 0x48, 0x89, 0x3c, 0x24, 0x48, 0x89, 0x74, 0x24, 0x08, 0x49, 0x89, 0xf0,
        0x31, 0xd2, 0x48, 0x85, 0xf6, 0x0f, 0x84, 0x0f, 0x00, 0x00, 0x00, 0x41, 0x0f, 0xb6, 0x08, 0x85,
        0xc9, 0x74, 0x07, 0x49, 0xff, 0xc0, 0xff, 0xc2, 0xeb, 0xf1, 0x48, 0x89, 0x54, 0x24, 0x10, 0x48,
        0x8b, 0x3c, 0x24, 0x48, 0x8b, 0x74, 0x24, 0x08, 0x48, 0x8b, 0x54, 0x24, 0x10, 0xb8, 0x01, 0x00,
        0x00, 0x00, 0x0f, 0x05, 0x48, 0x3b, 0x44, 0x24, 0x10, 0x0f, 0x85, 0x07, 0x00, 0x00, 0x00, 0x31,
        0xc0, 0x48, 0x83, 0xc4, 0x28, 0xc3, 0xb8, 0x01, 0x00, 0x00, 0x00, 0x48, 0x83, 0xc4, 0x28, 0xc3,
    ]
}

#[verifier::spinoff_prover]
#[verifier::rlimit(100)]
fn emit_file_write_runtime(code: &mut Vec<u8>)
    requires
        has_room(old(code)@),
    ensures
        final(code)@ == old(code)@ + file_write_code(),
{
    push_bytes(
        code,
        &[
            0x48, 0x83, 0xec, 0x28,
            0x48, 0x89, 0x3c, 0x24,
            0x48, 0x89, 0x74, 0x24, 0x08,
            0x49, 0x89, 0xf0,
            0x31, 0xd2,
            0x48, 0x85, 0xf6,
        ],
    );
    let null_data = emit_near_jump_placeholder(code, 0x0f, 0x84);
    let len_loop = code.len();
    push_bytes(
        code,
        &[
            0x41, 0x0f, 0xb6, 0x08,
            0x85, 0xc9,
        ],
    );
    let len_done = emit_short_jump_placeholder(code, 0x74);
    push_bytes(
        code,
        &[
            0x49, 0xff, 0xc0,
            0xff, 0xc2,
        ],
    );
    emit_short_jump_back(code, len_loop);
    let len_target = code.len();
    push_bytes(
        code,
        &[
            0x48, 0x89, 0x54, 0x24, 0x10,
            0x48, 0x8b, 0x3c, 0x24,
            0x48, 0x8b, 0x74, 0x24, 0x08,
            0x48, 0x8b, 0x54, 0x24, 0x10,
            0xb8, 0x01, 0x00, 0x00, 0x00, 0x0f, 0x05,
            0x48, 0x3b, 0x44, 0x24, 0x10,
        ],
    );
    let write_failed = emit_near_jump_placeholder(code, 0x0f, 0x85);
    push_bytes(code, &[0x31, 0xc0, 0x48, 0x83, 0xc4, 0x28, 0xc3]);
    let failure = code.len();
    push_bytes(code, &[0xb8, 0x01, 0x00, 0x00, 0x00, 0x48, 0x83, 0xc4, 0x28, 0xc3]);
    patch_near_jump(code, null_data, len_target);
    patch_near_jump(code, write_failed, failure);
    patch_short_jump(code, len_done, len_target);
    assert(code@ =~= old(code)@ + file_write_code());
}

/// The machine code of the Linux `file_close` runtime routine.
pub closed spec fn file_close_code() -> Seq<u8> {
    seq![
        0xb8u8, 0x03, 0x00, 0x00, 0x00, 0x0f, 0x05, 0x31, 0xc0, 0xc3,
    ]
}

fn emit_file_close_runtime(code: &mut Vec<u8>)
    requires
        has_room(old(code)@),
    ensures
        final(code)@ == old(code)@ + file_close_code(),
{
    push_bytes(
        code,
        &[
            0xb8, 0x03, 0x00, 0x00, 0x00, 0x0f, 0x05,
            0x31, 0xc0, 0xc3,
        ],
    );
    assert(code@ =~= old(code)@ + file_close_code());
}

/// The machine code of the Linux `file_read_to_string` runtime routine.
pub closed spec fn file_read_to_string_code() -> Seq<u8> {
    seq![
        0x48u8, 0x83, 0xec, 0x38, 0x48, 0x89, 0x3c, 0x24, 0x48, 0x8b, 0x3c, 0x24, 0x31, 0xf6, 0xba, 0x02,
        0x00, 0x00, 0x00, 0xb8, 0x08, 0x00, 0x00, 0x00, 0x0f, 0x05, 0x48, 0x89, 0x44, 0x24, 0x08, 0x48,
        0x85, 0xc0, 0x0f, 0x88, 0x83, 0x00, 0x00, 0x00, 0x48, 0xff, 0xc0, 0x48, 0x89, 0xc6, 0x48, 0x83,
        0xc6, 0x08, 0x31, 0xff, 0xba, 0x03, 0x00, 0x00, 0x00, 0x41, 0xba, 0x22, 0x00, 0x00, 0x00, 0x49,
        0xc7, 0xc0, 0xff, 0xff, 0xff, 0xff, 0x45, 0x31, 0xc9, 0xb8, 0x09, 0x00, 0x00, 0x00, 0x0f, 0x05,
        0x48, 0x89, 0x30, 0x48, 0x83, 0xc0, 0x08, 0x48, 0x89, 0x44, 0x24, 0x10, 0x48, 0x85, 0xc0, 0x0f,
        0x88, 0x46, 0x00, 0x00, 0x00, 0x48, 0x8b, 0x3c, 0x24, 0x31, 0xf6, 0x31, 0xd2, 0xb8, 0x08, 0x00,
        0x00, 0x00, 0x0f, 0x05, 0x48, 0x85, 0xc0, 0x0f, 0x88, 0x2e, 0x00, 0x00, 0x00, 0x48, 0x8b, 0x3c,
        0x24, 0x48, 0x8b, 0x74, 0x24, 0x10, 0x48, 0x8b, 0x54, 0x24, 0x08, 0x31, 0xc0, 0x0f, 0x05, 0x48,
        0x85, 0xc0, 0x0f, 0x88, 0x13, 0x00, 0x00, 0x00, 0x48, 0x8b, 0x4c, 0x24, 0x10, 0xc6, 0x04, 0x08,
        0x00, 0x48, 0x8b, 0x44, 0x24, 0x10, 0x48, 0x83, 0xc4, 0x38, 0xc3, 0x31, 0xc0, 0x48, 0x83, 0xc4,
        0x38, 0xc3,
    ]
}

#[verifier::spinoff_prover]
#[verifier::rlimit(100)]
fn emit_file_read_to_string_runtime(code: &mut Vec<u8>)
    requires
        has_room(old(code)@),
    ensures
        final(code)@ == old(code)@ + file_read_to_string_code(),
{
    push_bytes(
        code,
        &[
            0x48, 0x83, 0xec, 0x38,
            0x48, 0x89, 0x3c, 0x24,
            0x48, 0x8b, 0x3c, 0x24,
            0x31, 0xf6, 0xba, 0x02, 0x00, 0x00, 0x00,
            0xb8, 0x08, 0x00, 0x00, 0x00, 0x0f, 0x05,
            0x48, 0x89, 0x44, 0x24, 0x08,
            0x48, 0x85, 0xc0,
        ],
    );
    let seek_failed = emit_near_jump_placeholder(code, 0x0f, 0x88);
    push_bytes(
        code,
        &[
            0x48, 0xff, 0xc0,
            0x48, 0x89, 0xc6,
            0x48, 0x83, 0xc6, 0x08,
            0x31, 0xff, 0xba, 0x03, 0x00, 0x00, 0x00,
            0x41, 0xba, 0x22, 0x00, 0x00, 0x00,
            0x49, 0xc7, 0xc0, 0xff, 0xff, 0xff, 0xff,
            0x45, 0x31, 0xc9,
            0xb8, 0x09, 0x00, 0x00, 0x00, 0x0f, 0x05,
            0x48, 0x89, 0x30, 0x48, 0x83, 0xc0, 0x08, 0x48, 0x89, 0x44, 0x24, 0x10,
            0x48, 0x85, 0xc0,
        ],
    );
    let allocation_failed = emit_near_jump_placeholder(code, 0x0f, 0x88);
    push_bytes(
        code,
        &[
            0x48, 0x8b, 0x3c, 0x24,
            0x31, 0xf6, 0x31, 0xd2,
            0xb8, 0x08, 0x00, 0x00, 0x00, 0x0f, 0x05,
            0x48, 0x85, 0xc0,
        ],
    );
    let rewind_failed = emit_near_jump_placeholder(code, 0x0f, 0x88);
    push_bytes(
        code,
        &[
            0x48, 0x8b, 0x3c, 0x24,
            0x48, 0x8b, 0x74, 0x24, 0x10,
            0x48, 0x8b, 0x54, 0x24, 0x08,
            0x31, 0xc0, 0x0f, 0x05,
            0x48, 0x85, 0xc0,
        ],
    );
    let read_failed = emit_near_jump_placeholder(code, 0x0f, 0x88);
    push_bytes(
        code,
        &[
            0x48, 0x8b, 0x4c, 0x24, 0x10,
            0xc6, 0x04, 0x08, 0x00,
            0x48, 0x8b, 0x44, 0x24, 0x10,
            0x48, 0x83, 0xc4, 0x38, 0xc3,
        ],
    );
    let failure = code.len();
    push_bytes(code, &[0x31, 0xc0, 0x48, 0x83, 0xc4, 0x38, 0xc3]);
    patch_near_jump(code, seek_failed, failure);
    patch_near_jump(code, allocation_failed, failure);
    patch_near_jump(code, rewind_failed, failure);
    patch_near_jump(code, read_failed, failure);
    assert(code@ =~= old(code)@ + file_read_to_string_code());
}

/// The machine code of the Linux `read_file` runtime routine.
pub closed spec fn read_file_code() -> Seq<u8> {
    seq![
        0x48u8, 0x83, 0xec, 0x38, 0x48, 0x89, 0x3c, 0x24, 0x48, 0x8b, 0x3c, 0x24, 0x31, 0xf6, 0x31, 0xd2,
        0xb8, 0x02, 0x00, 0x00, 0x00, 0x0f, 0x05, 0x48, 0x89, 0x44, 0x24, 0x08, 0x48, 0x85, 0xc0, 0x0f,
        0x88, 0x97, 0x00, 0x00, 0x00, 0x48, 0x8b, 0x7c, 0x24, 0x08, 0x31, 0xf6, 0xba, 0x02, 0x00, 0x00,
        0x00, 0xb8, 0x08, 0x00, 0x00, 0x00, 0x0f, 0x05, 0x48, 0x89, 0x44, 0x24, 0x10, 0x48, 0x8b, 0x7c,
        0x24, 0x08, 0x31, 0xf6, 0x31, 0xd2, 0xb8, 0x08, 0x00, 0x00, 0x00, 0x0f, 0x05, 0x48, 0x8b, 0x44,
        0x24, 0x10, 0x48, 0xff, 0xc0, 0x48, 0x89, 0xc6, 0x31, 0xff, 0xba, 0x03, 0x00, 0x00, 0x00, 0x41,
        0xba, 0x22, 0x00, 0x00, 0x00, 0x49, 0xc7, 0xc0, 0xff, 0xff, 0xff, 0xff, 0x45, 0x31, 0xc9, 0xb8,
        0x09, 0x00, 0x00, 0x00, 0x0f, 0x05, 0x48, 0x89, 0x44, 0x24, 0x18, 0x48, 0x3d, 0x01, 0xf0, 0xff,
        0xff, 0x0f, 0x83, 0x35, 0x00, 0x00, 0x00, 0x48, 0x8b, 0x7c, 0x24, 0x08, 0x48, 0x8b, 0x74, 0x24,
        0x18, 0x48, 0x8b, 0x54, 0x24, 0x10, 0x31, 0xc0, 0x0f, 0x05, 0x4c, 0x8b, 0x44, 0x24, 0x18, 0x49,
        0x01, 0xc0, 0x41, 0xc6, 0x00, 0x00, 0x48, 0x8b, 0x7c, 0x24, 0x08, 0xb8, 0x03, 0x00, 0x00, 0x00,
        0x0f, 0x05, 0x48, 0x8b, 0x44, 0x24, 0x18, 0x48, 0x83, 0xc4, 0x38, 0xc3, 0x31, 0xc0, 0x48, 0x83,
        0xc4, 0x38, 0xc3,
    ]
}

#[verifier::spinoff_prover]
#[verifier::rlimit(100)]
pub(crate) fn emit_read_file_runtime(code: &mut Vec<u8>)
    requires
        has_room(old(code)@),
    ensures
        final(code)@ == old(code)@ + read_file_code(),
{
    push_bytes(
        code,
        &[
            0x48, 0x83, 0xec, 0x38,
            0x48, 0x89, 0x3c, 0x24,
            0x48, 0x8b, 0x3c, 0x24,
            0x31, 0xf6,
            0x31, 0xd2,
            0xb8, 0x02, 0x00, 0x00, 0x00, 0x0f, 0x05,
            0x48, 0x89, 0x44, 0x24, 0x08,
            0x48, 0x85, 0xc0,
        ],
    );
    let open_failed = emit_near_jump_placeholder(code, 0x0f, 0x88);
    push_bytes(
        code,
        &[
            0x48, 0x8b, 0x7c, 0x24, 0x08,
            0x31, 0xf6,
            0xba, 0x02, 0x00, 0x00, 0x00,
            0xb8, 0x08, 0x00, 0x00, 0x00, 0x0f, 0x05,
            0x48, 0x89, 0x44, 0x24, 0x10,
            0x48, 0x8b, 0x7c, 0x24, 0x08,
            0x31, 0xf6,
            0x31, 0xd2,
            0xb8, 0x08, 0x00, 0x00, 0x00, 0x0f, 0x05,
            0x48, 0x8b, 0x44, 0x24, 0x10,
            0x48, 0xff, 0xc0,
            0x48, 0x89, 0xc6,
            0x31, 0xff,
            0xba, 0x03, 0x00, 0x00, 0x00,
            0x41, 0xba, 0x22, 0x00, 0x00, 0x00,
            0x49, 0xc7, 0xc0, 0xff, 0xff, 0xff, 0xff,
            0x45, 0x31, 0xc9,
            0xb8, 0x09, 0x00, 0x00, 0x00, 0x0f, 0x05,
            0x48, 0x89, 0x44, 0x24, 0x18,
            0x48, 0x3d, 0x01, 0xf0, 0xff, 0xff,
        ],
    );
    let allocation_failed = emit_near_jump_placeholder(code, 0x0f, 0x83);
    push_bytes(
        code,
        &[
            0x48, 0x8b, 0x7c, 0x24, 0x08,
            0x48, 0x8b, 0x74, 0x24, 0x18,
            0x48, 0x8b, 0x54, 0x24, 0x10,
            0x31, 0xc0, 0x0f, 0x05,
            0x4c, 0x8b, 0x44, 0x24, 0x18,
            0x49, 0x01, 0xc0,
            0x41, 0xc6, 0x00, 0x00,
            0x48, 0x8b, 0x7c, 0x24, 0x08,
            0xb8, 0x03, 0x00, 0x00, 0x00, 0x0f, 0x05,
            0x48, 0x8b, 0x44, 0x24, 0x18,
            0x48, 0x83, 0xc4, 0x38,
            0xc3,
        ],
    );
    let failure_target = code.len();
    push_bytes(code, &[0x31, 0xc0, 0x48, 0x83, 0xc4, 0x38, 0xc3]);
    patch_near_jump(code, open_failed, failure_target);
    patch_near_jump(code, allocation_failed, failure_target);
    assert(code@ =~= old(code)@ + read_file_code());
}

/// The machine code of the Linux `read_line` runtime routine.
pub closed spec fn read_line_code() -> Seq<u8> {
    seq![
        0x48u8, 0x83, 0xec, 0x28, 0x31, 0xff, 0xbe, 0x00, 0x10, 0x00, 0x00, 0xba, 0x03, 0x00, 0x00, 0x00,
        0x41, 0xba, 0x22, 0x00, 0x00, 0x00, 0x49, 0xc7, 0xc0, 0xff, 0xff, 0xff, 0xff, 0x45, 0x31, 0xc9,
        0xb8, 0x09, 0x00, 0x00, 0x00, 0x0f, 0x05, 0x48, 0x89, 0x04, 0x24, 0x48, 0x85, 0xc0, 0x0f, 0x88,
        0x45, 0x00, 0x00, 0x00, 0x31, 0xff, 0x48, 0x8b, 0x34, 0x24, 0xba, 0xff, 0x0f, 0x00, 0x00, 0x31,
        0xc0, 0x0f, 0x05, 0x48, 0x85, 0xc0, 0x7e, 0x25, 0x49, 0x89, 0xc0, 0x31, 0xc9, 0x4c, 0x39, 0xc1,
        0x73, 0x0e, 0x80, 0x3c, 0x0e, 0x0a, 0x74, 0x05, 0x48, 0xff, 0xc1, 0xeb, 0xf0, 0x48, 0xff, 0xc1,
        0xc6, 0x04, 0x0e, 0x00, 0x48, 0x8b, 0x04, 0x24, 0x48, 0x83, 0xc4, 0x28, 0xc3, 0x48, 0x8b, 0x34,
        0x24, 0xc6, 0x06, 0x00, 0x48, 0x83, 0xc4, 0x28, 0xc3, 0x31, 0xc0, 0x48, 0x83, 0xc4, 0x28, 0xc3,
    ]
}

#[verifier::spinoff_prover]
#[verifier::rlimit(100)]
fn emit_read_line_runtime(code: &mut Vec<u8>)
    requires
        has_room(old(code)@),
    ensures
        final(code)@ == old(code)@ + read_line_code(),
{
    push_bytes(
        code,
        &[
            0x48, 0x83, 0xec, 0x28,
            0x31, 0xff,
            0xbe, 0x00, 0x10, 0x00, 0x00,
            0xba, 0x03, 0x00, 0x00, 0x00,
            0x41, 0xba, 0x22, 0x00, 0x00, 0x00,
            0x49, 0xc7, 0xc0, 0xff, 0xff, 0xff, 0xff,
            0x45, 0x31, 0xc9,
            0xb8, 0x09, 0x00, 0x00, 0x00, 0x0f, 0x05,
            0x48, 0x89, 0x04, 0x24,
            0x48, 0x85, 0xc0,
        ],
    );
    let allocation_failed = emit_near_jump_placeholder(code, 0x0f, 0x88);
    push_bytes(
        code,
        &[
            0x31, 0xff,
            0x48, 0x8b, 0x34, 0x24,
            0xba, 0xff, 0x0f, 0x00, 0x00,
            0x31, 0xc0, 0x0f, 0x05,
            0x48, 0x85, 0xc0,
        ],
    );
    let read_empty = emit_short_jump_placeholder(code, 0x7e);
    push_bytes(
        code,
        &[
            0x49, 0x89, 0xc0,
            0x31, 0xc9,
        ],
    );
    let scan = code.len();
    push_bytes(code, &[0x4c, 0x39, 0xc1]);
    let scan_done = emit_short_jump_placeholder(code, 0x73);
    push_bytes(code, &[0x80, 0x3c, 0x0e, 0x0a]);
    let newline = emit_short_jump_placeholder(code, 0x74);
    push_bytes(code, &[0x48, 0xff, 0xc1]);
    emit_short_jump_back(code, scan);
    let newline_target = code.len();
    push_bytes(code, &[0x48, 0xff, 0xc1]);
    let terminate = code.len();
    push_bytes(
        code,
        &[
            0xc6, 0x04, 0x0e, 0x00,
            0x48, 0x8b, 0x04, 0x24,
            0x48, 0x83, 0xc4, 0x28, 0xc3,
        ],
    );
    let empty = code.len();
    push_bytes(
        code,
        &[
            0x48, 0x8b, 0x34, 0x24,
            0xc6, 0x06, 0x00,
            0x48, 0x83, 0xc4, 0x28, 0xc3,
        ],
    );
    let failure = code.len();
    push_bytes(code, &[0x31, 0xc0, 0x48, 0x83, 0xc4, 0x28, 0xc3]);
    patch_near_jump(code, allocation_failed, failure);
    patch_short_jump(code, read_empty, empty);
    patch_short_jump(code, scan_done, terminate);
    patch_short_jump(code, newline, newline_target);
    assert(code@ =~= old(code)@ + read_line_code());
}

/// The machine code of the Linux `mem_copy` runtime routine.
pub closed spec fn mem_copy_code() -> Seq<u8> {
    seq![
        0x48u8, 0x89, 0xd1, 0xf3, 0xa4, 0x31, 0xc0, 0xc3,
    ]
}

fn emit_mem_copy_runtime(code: &mut Vec<u8>)
    requires
        has_room(old(code)@),
    ensures
        final(code)@ == old(code)@ + mem_copy_code(),
{
    push_bytes(
        code,
        &[
            0x48, 0x89, 0xd1,
            0xf3, 0xa4,
            0x31, 0xc0, 0xc3,
        ],
    );
    assert(code@ =~= old(code)@ + mem_copy_code());
}

/// The machine code of the Linux `mem_zero` runtime routine.
pub closed spec fn mem_zero_code() -> Seq<u8> {
    seq![
        0x48u8, 0x89, 0xf1, 0x31, 0xc0, 0xf3, 0xaa, 0x31, 0xc0, 0xc3,
    ]
}

fn emit_mem_zero_runtime(code: &mut Vec<u8>)
    requires
        has_room(old(code)@),
    ensures
        final(code)@ == old(code)@ + mem_zero_code(),
{
    push_bytes(
        code,
        &[
            0x48, 0x89, 0xf1,
            0x31, 0xc0,
            0xf3, 0xaa,
            0x31, 0xc0, 0xc3,
        ],
    );
    assert(code@ =~= old(code)@ + mem_zero_code());
}

/// The machine code of the Linux `mem_move` runtime routine.
pub closed spec fn mem_move_code() -> Seq<u8> {
    seq![
        0x48u8, 0x39, 0xf7, 0x76, 0x18, 0x48, 0x8d, 0x3c, 0x17, 0x48, 0x8d, 0x34, 0x16, 0x48, 0xff, 0xcf,
        0x48, 0xff, 0xce, 0x48, 0x89, 0xd1, 0xfd, 0xf3, 0xa4, 0xfc, 0x31, 0xc0, 0xc3, 0x48, 0x89, 0xd1,
        0xf3, 0xa4, 0x31, 0xc0, 0xc3,
    ]
}

fn emit_mem_move_runtime(code: &mut Vec<u8>)
    requires
        has_room(old(code)@),
    ensures
        final(code)@ == old(code)@ + mem_move_code(),
{
    push_bytes(code, &[0x48, 0x39, 0xf7]);
    let forward = emit_short_jump_placeholder(code, 0x76);
    push_bytes(
        code,
        &[
            0x48, 0x8d, 0x3c, 0x17,
            0x48, 0x8d, 0x34, 0x16,
            0x48, 0xff, 0xcf,
            0x48, 0xff, 0xce,
            0x48, 0x89, 0xd1,
            0xfd,
            0xf3, 0xa4,
            0xfc,
            0x31, 0xc0, 0xc3,
        ],
    );
    let forward_target = code.len();
    push_bytes(
        code,
        &[
            0x48, 0x89, 0xd1,
            0xf3, 0xa4,
            0x31, 0xc0, 0xc3,
        ],
    );
    patch_short_jump(code, forward, forward_target);
    assert(code@ =~= old(code)@ + mem_move_code());
}

/// The machine code of the Linux `mem_fill` runtime routine.
pub closed spec fn mem_fill_code() -> Seq<u8> {
    seq![
        0x48u8, 0x89, 0xf9, 0x48, 0x89, 0xf1, 0x88, 0xd0, 0xf3, 0xaa, 0x31, 0xc0, 0xc3,
    ]
}

fn emit_mem_fill_runtime(code: &mut Vec<u8>)
    requires
        has_room(old(code)@),
    ensures
        final(code)@ == old(code)@ + mem_fill_code(),
{
    push_bytes(
        code,
        &[
            0x48, 0x89, 0xf9,
            0x48, 0x89, 0xf1,
            0x88, 0xd0,
            0xf3, 0xaa,
            0x31, 0xc0, 0xc3,
        ],
    );
    assert(code@ =~= old(code)@ + mem_fill_code());
}

/// The machine code of the Linux `mem_find` runtime routine.
pub closed spec fn mem_find_code() -> Seq<u8> {
    seq![
        0x48u8, 0x31, 0xc0, 0x48, 0x85, 0xf6, 0x74, 0x0e, 0x38, 0x14, 0x07, 0x74, 0x08, 0x48, 0xff, 0xc0,
        0x48, 0xff, 0xce, 0xeb, 0xf3, 0xc3, 0x48, 0xc7, 0xc0, 0xff, 0xff, 0xff, 0xff, 0xc3,
    ]
}

fn emit_mem_find_runtime(code: &mut Vec<u8>)
    requires
        has_room(old(code)@),
    ensures
        final(code)@ == old(code)@ + mem_find_code(),
{
    push_bytes(
        code,
        &[
            0x48, 0x31, 0xc0,
            0x48, 0x85, 0xf6,
        ],
    );
    let empty = emit_short_jump_placeholder(code, 0x74);
    let loop_start = code.len();
    push_bytes(code, &[0x38, 0x14, 0x07]);
    let found = emit_short_jump_placeholder(code, 0x74);
    push_bytes(
        code,
        &[
            0x48, 0xff, 0xc0,
            0x48, 0xff, 0xce,
        ],
    );
    emit_short_jump_back(code, loop_start);
    let found_target = code.len();
    push_bytes(code, &[0xc3]);
    let not_found = code.len();
    push_bytes(code, &[0x48, 0xc7, 0xc0, 0xff, 0xff, 0xff, 0xff, 0xc3]);
    patch_short_jump(code, empty, not_found);
    patch_short_jump(code, found, found_target);
    assert(code@ =~= old(code)@ + mem_find_code());
}

/// The machine code of the Linux `mem_compare` runtime routine.
pub closed spec fn mem_compare_code() -> Seq<u8> {
    seq![
        0x48u8, 0x89, 0xd1, 0x48, 0x85, 0xc9, 0x74, 0x17, 0x0f, 0xb6, 0x07, 0x0f, 0xb6, 0x16, 0x39, 0xd0,
        0x72, 0x10, 0x77, 0x14, 0x48, 0xff, 0xc7, 0x48, 0xff, 0xc6, 0x48, 0xff, 0xc9, 0xeb, 0xe9, 0x31,
        0xc0, 0xc3, 0xb8, 0xff, 0xff, 0xff, 0xff, 0xc3, 0xb8, 0x01, 0x00, 0x00, 0x00, 0xc3,
    ]
}

#[verifier::spinoff_prover]
#[verifier::rlimit(100)]
fn emit_mem_compare_runtime(code: &mut Vec<u8>)
    requires
        has_room(old(code)@),
    ensures
        final(code)@ == old(code)@ + mem_compare_code(),
{
    push_bytes(
        code,
        &[
            0x48, 0x89, 0xd1,
            0x48, 0x85, 0xc9,
        ],
    );
    let empty = emit_short_jump_placeholder(code, 0x74);
    let loop_start = code.len();
    push_bytes(
        code,
        &[
            0x0f, 0xb6, 0x07,
            0x0f, 0xb6, 0x16,
            0x39, 0xd0,
        ],
    );
    let less = emit_short_jump_placeholder(code, 0x72);
    let greater = emit_short_jump_placeholder(code, 0x77);
    push_bytes(
        code,
        &[
            0x48, 0xff, 0xc7,
            0x48, 0xff, 0xc6,
            0x48, 0xff, 0xc9,
        ],
    );
    emit_short_jump_back(code, loop_start);
    let equal_target = code.len();
    push_bytes(code, &[0x31, 0xc0, 0xc3]);
    let less_target = code.len();
    push_bytes(code, &[0xb8, 0xff, 0xff, 0xff, 0xff, 0xc3]);
    let greater_target = code.len();
    push_bytes(code, &[0xb8, 0x01, 0x00, 0x00, 0x00, 0xc3]);
    patch_short_jump(code, empty, equal_target);
    patch_short_jump(code, less, less_target);
    patch_short_jump(code, greater, greater_target);
    assert(code@ =~= old(code)@ + mem_compare_code());
}

/// The machine code of the Linux `mem_equal` runtime routine.
pub closed spec fn mem_equal_code() -> Seq<u8> {
    seq![
        0x48u8, 0x85, 0xd2, 0x74, 0x15, 0x0f, 0xb6, 0x07, 0x0f, 0xb6, 0x0e, 0x39, 0xc8, 0x75, 0x11, 0x48,
        0xff, 0xc7, 0x48, 0xff, 0xc6, 0x48, 0xff, 0xca, 0xeb, 0xeb, 0xb8, 0x01, 0x00, 0x00, 0x00, 0xc3,
        0x31, 0xc0, 0xc3,
    ]
}

fn emit_mem_equal_runtime(code: &mut Vec<u8>)
    requires
        has_room(old(code)@),
    ensures
        final(code)@ == old(code)@ + mem_equal_code(),
{
    push_bytes(code, &[0x48, 0x85, 0xd2]);
    let empty = emit_short_jump_placeholder(code, 0x74);
    let loop_start = code.len();
    push_bytes(
        code,
        &[
            0x0f, 0xb6, 0x07,
            0x0f, 0xb6, 0x0e,
            0x39, 0xc8,
        ],
    );
    let not_equal = emit_short_jump_placeholder(code, 0x75);
    push_bytes(
        code,
        &[
            0x48, 0xff, 0xc7,
            0x48, 0xff, 0xc6,
            0x48, 0xff, 0xca,
        ],
    );
    emit_short_jump_back(code, loop_start);
    let equal_target = code.len();
    push_bytes(code, &[0xb8, 0x01, 0x00, 0x00, 0x00, 0xc3]);
    let false_target = code.len();
    push_bytes(code, &[0x31, 0xc0, 0xc3]);
    patch_short_jump(code, empty, equal_target);
    patch_short_jump(code, not_equal, false_target);
    assert(code@ =~= old(code)@ + mem_equal_code());
}

/// The machine code of the Linux `mem_is_zero` runtime routine.
pub closed spec fn mem_is_zero_code() -> Seq<u8> {
    seq![
        0x48u8, 0x85, 0xf6, 0x74, 0x0f, 0x0f, 0xb6, 0x07, 0x85, 0xc0, 0x75, 0x0e, 0x48, 0xff, 0xc7, 0x48,
        0xff, 0xce, 0xeb, 0xf1, 0xb8, 0x01, 0x00, 0x00, 0x00, 0xc3, 0x31, 0xc0, 0xc3,
    ]
}

fn emit_mem_is_zero_runtime(code: &mut Vec<u8>)
    requires
        has_room(old(code)@),
    ensures
        final(code)@ == old(code)@ + mem_is_zero_code(),
{
    push_bytes(code, &[0x48, 0x85, 0xf6]);
    let empty = emit_short_jump_placeholder(code, 0x74);
    let loop_start = code.len();
    push_bytes(
        code,
        &[
            0x0f, 0xb6, 0x07,
            0x85, 0xc0,
        ],
    );
    let not_zero = emit_short_jump_placeholder(code, 0x75);
    push_bytes(
        code,
        &[
            0x48, 0xff, 0xc7,
            0x48, 0xff, 0xce,
        ],
    );
    emit_short_jump_back(code, loop_start);
    let zero_target = code.len();
    push_bytes(code, &[0xb8, 0x01, 0x00, 0x00, 0x00, 0xc3]);
    let false_target = code.len();
    push_bytes(code, &[0x31, 0xc0, 0xc3]);
    patch_short_jump(code, empty, zero_target);
    patch_short_jump(code, not_zero, false_target);
    assert(code@ =~= old(code)@ + mem_is_zero_code());
}

/// The machine code of the Linux `mem_reverse` runtime routine.
pub closed spec fn mem_reverse_code() -> Seq<u8> {
    seq![
        0x48u8, 0x85, 0xf6, 0x74, 0x1c, 0x48, 0x8d, 0x54, 0x37, 0xff, 0x48, 0x39, 0xd7, 0x73, 0x12, 0x8a,
        0x07, 0x8a, 0x0a, 0x86, 0xc8, 0x88, 0x07, 0x88, 0x0a, 0x48, 0xff, 0xc7, 0x48, 0xff, 0xca, 0xeb,
        0xe9, 0x31, 0xc0, 0xc3,
    ]
}

fn emit_mem_reverse_runtime(code: &mut Vec<u8>)
    requires
        has_room(old(code)@),
    ensures
        final(code)@ == old(code)@ + mem_reverse_code(),
{
    push_bytes(code, &[0x48, 0x85, 0xf6]);
    let empty = emit_short_jump_placeholder(code, 0x74);
    push_bytes(code, &[0x48, 0x8d, 0x54, 0x37, 0xff]);
    let loop_start = code.len();
    push_bytes(code, &[0x48, 0x39, 0xd7]);
    let done = emit_short_jump_placeholder(code, 0x73);
    push_bytes(
        code,
        &[
            0x8a, 0x07,
            0x8a, 0x0a,
            0x86, 0xc8,
            0x88, 0x07,
            0x88, 0x0a,
            0x48, 0xff, 0xc7,
            0x48, 0xff, 0xca,
        ],
    );
    emit_short_jump_back(code, loop_start);
    let done_target = code.len();
    push_bytes(code, &[0x31, 0xc0, 0xc3]);
    patch_short_jump(code, empty, done_target);
    patch_short_jump(code, done, done_target);
    assert(code@ =~= old(code)@ + mem_reverse_code());
}

/// The machine code of the Linux `string_from_byte` runtime routine.
pub closed spec fn string_from_byte_code() -> Seq<u8> {
    seq![
        0x48u8, 0x83, 0xec, 0x18, 0x40, 0x88, 0x3c, 0x24, 0x31, 0xff, 0xbe, 0x0a, 0x00, 0x00, 0x00, 0xba,
        0x03, 0x00, 0x00, 0x00, 0x41, 0xba, 0x22, 0x00, 0x00, 0x00, 0x49, 0xc7, 0xc0, 0xff, 0xff, 0xff,
        0xff, 0x45, 0x31, 0xc9, 0xb8, 0x09, 0x00, 0x00, 0x00, 0x0f, 0x05, 0x48, 0x85, 0xc0, 0x0f, 0x88,
        0x15, 0x00, 0x00, 0x00, 0x48, 0x89, 0x30, 0x48, 0x83, 0xc0, 0x08, 0x8a, 0x14, 0x24, 0x88, 0x10,
        0xc6, 0x40, 0x01, 0x00, 0x48, 0x83, 0xc4, 0x18, 0xc3, 0x31, 0xc0, 0x48, 0x83, 0xc4, 0x18, 0xc3,
    ]
}

fn emit_string_from_byte_runtime(code: &mut Vec<u8>)
    requires
        has_room(old(code)@),
    ensures
        final(code)@ == old(code)@ + string_from_byte_code(),
{
    push_bytes(
        code,
        &[
            0x48, 0x83, 0xec, 0x18,
            0x40, 0x88, 0x3c, 0x24,
            0x31, 0xff,
            0xbe, 0x0a, 0x00, 0x00, 0x00,
            0xba, 0x03, 0x00, 0x00, 0x00,
            0x41, 0xba, 0x22, 0x00, 0x00, 0x00,
            0x49, 0xc7, 0xc0, 0xff, 0xff, 0xff, 0xff,
            0x45, 0x31, 0xc9,
            0xb8, 0x09, 0x00, 0x00, 0x00, 0x0f, 0x05,
            0x48, 0x85, 0xc0,
        ],
    );
    let failed = emit_near_jump_placeholder(code, 0x0f, 0x88);
    push_bytes(
        code,
        &[
            0x48, 0x89, 0x30, 0x48, 0x83, 0xc0, 0x08, 0x8a, 0x14, 0x24,
            0x88, 0x10,
            0xc6, 0x40, 0x01, 0x00,
            0x48, 0x83, 0xc4, 0x18, 0xc3,
        ],
    );
    let failure = code.len();
    push_bytes(code, &[0x31, 0xc0, 0x48, 0x83, 0xc4, 0x18, 0xc3]);
    patch_near_jump(code, failed, failure);
    assert(code@ =~= old(code)@ + string_from_byte_code());
}

/// The machine code of the Linux `integer_to_string` runtime routine.
pub closed spec fn integer_to_string_code() -> Seq<u8> {
    seq![
        0x48u8, 0x83, 0xec, 0x50, 0x48, 0x89, 0xf8, 0x45, 0x31, 0xc0, 0x48, 0x85, 0xc0, 0x0f, 0x89, 0x06,
        0x00, 0x00, 0x00, 0x48, 0xf7, 0xd8, 0x41, 0xb0, 0x01, 0x48, 0x8d, 0x74, 0x24, 0x40, 0xc6, 0x06,
        0x00, 0xb9, 0x0a, 0x00, 0x00, 0x00, 0x48, 0x85, 0xc0, 0x75, 0x08, 0x48, 0xff, 0xce, 0xc6, 0x06,
        0x30, 0xeb, 0x12, 0x31, 0xd2, 0x48, 0xf7, 0xf1, 0x80, 0xc2, 0x30, 0x48, 0xff, 0xce, 0x88, 0x16,
        0x48, 0x85, 0xc0, 0x75, 0xee, 0x45, 0x84, 0xc0, 0x74, 0x06, 0x48, 0xff, 0xce, 0xc6, 0x06, 0x2d,
        0x48, 0x8d, 0x54, 0x24, 0x40, 0x48, 0x29, 0xf2, 0x48, 0xff, 0xc2, 0x48, 0x89, 0x74, 0x24, 0x08,
        0x48, 0x89, 0x54, 0x24, 0x10, 0x48, 0x89, 0xd7, 0x48, 0x83, 0xc7, 0x08, 0x48, 0x89, 0xfe, 0x31,
        0xff, 0xba, 0x03, 0x00, 0x00, 0x00, 0x41, 0xba, 0x22, 0x00, 0x00, 0x00, 0x49, 0xc7, 0xc0, 0xff,
        0xff, 0xff, 0xff, 0x45, 0x31, 0xc9, 0xb8, 0x09, 0x00, 0x00, 0x00, 0x0f, 0x05, 0x48, 0x85, 0xc0,
        0x0f, 0x88, 0x1b, 0x00, 0x00, 0x00, 0x48, 0x89, 0x30, 0x48, 0x83, 0xc0, 0x08, 0x48, 0x8b, 0x4c,
        0x24, 0x10, 0x48, 0x8b, 0x74, 0x24, 0x08, 0x48, 0x89, 0xc7, 0xf3, 0xa4, 0x48, 0x83, 0xc4, 0x50,
        0xc3, 0x31, 0xc0, 0x48, 0x83, 0xc4, 0x50, 0xc3,
    ]
}

#[verifier::spinoff_prover]
#[verifier::rlimit(100)]
fn emit_integer_to_string_runtime(code: &mut Vec<u8>)
    requires
        has_room(old(code)@),
    ensures
        final(code)@ == old(code)@ + integer_to_string_code(),
{
    push_bytes(
        code,
        &[
            0x48, 0x83, 0xec, 0x50, 0x48, 0x89, 0xf8, 0x45, 0x31, 0xc0,
            0x48, 0x85, 0xc0,
        ],
    );
    let positive = emit_near_jump_placeholder(code, 0x0f, 0x89);
    push_bytes(code, &[0x48, 0xf7, 0xd8, 0x41, 0xb0, 0x01]);
    let digits_start = code.len();
    push_bytes(
        code,
        &[
            0x48, 0x8d, 0x74, 0x24, 0x40, 0xc6, 0x06, 0x00,
            0xb9, 0x0a, 0x00, 0x00, 0x00, 0x48, 0x85, 0xc0,
        ],
    );
    let nonzero = emit_short_jump_placeholder(code, 0x75);
    push_bytes(code, &[0x48, 0xff, 0xce, 0xc6, 0x06, 0x30]);
    let sign = emit_short_jump_placeholder(code, 0xeb);
    let digit_loop = code.len();
    push_bytes(
        code,
        &[
            0x31, 0xd2, 0x48, 0xf7, 0xf1, 0x80, 0xc2, 0x30, 0x48, 0xff, 0xce,
            0x88, 0x16, 0x48, 0x85, 0xc0,
        ],
    );
    let more = emit_short_jump_placeholder(code, 0x75);
    let sign_target = code.len();
    push_bytes(code, &[0x45, 0x84, 0xc0]);
    let allocate = emit_short_jump_placeholder(code, 0x74);
    push_bytes(code, &[0x48, 0xff, 0xce, 0xc6, 0x06, 0x2d]);
    let allocate_target = code.len();
    push_bytes(
        code,
        &[
            0x48, 0x8d, 0x54, 0x24, 0x40, 0x48, 0x29, 0xf2, 0x48, 0xff, 0xc2,
            0x48, 0x89, 0x74, 0x24, 0x08, 0x48, 0x89, 0x54, 0x24, 0x10,
            0x48, 0x89, 0xd7, 0x48, 0x83, 0xc7, 0x08, 0x48, 0x89, 0xfe,
            0x31, 0xff, 0xba, 0x03, 0x00, 0x00, 0x00, 0x41, 0xba, 0x22, 0x00, 0x00, 0x00,
            0x49, 0xc7, 0xc0, 0xff, 0xff, 0xff, 0xff, 0x45, 0x31, 0xc9,
            0xb8, 0x09, 0x00, 0x00, 0x00, 0x0f, 0x05, 0x48, 0x85, 0xc0,
        ],
    );
    let failed = emit_near_jump_placeholder(code, 0x0f, 0x88);
    push_bytes(
        code,
        &[
            0x48, 0x89, 0x30, 0x48, 0x83, 0xc0, 0x08, 0x48, 0x8b, 0x4c, 0x24, 0x10,
            0x48, 0x8b, 0x74, 0x24, 0x08, 0x48, 0x89, 0xc7, 0xf3, 0xa4, 0x48, 0x83, 0xc4, 0x50, 0xc3,
        ],
    );
    let failure = code.len();
    push_bytes(code, &[0x31, 0xc0, 0x48, 0x83, 0xc4, 0x50, 0xc3]);
    patch_near_jump(code, positive, digits_start);
    patch_short_jump(code, nonzero, digit_loop);
    patch_short_jump(code, sign, sign_target);
    patch_short_jump(code, allocate, allocate_target);
    patch_short_jump(code, more, digit_loop);
    patch_near_jump(code, failed, failure);
    assert(code@ =~= old(code)@ + integer_to_string_code());
}

/// The machine code of the Linux `bool_to_string` runtime routine.
pub closed spec fn bool_to_string_code() -> Seq<u8> {
    seq![
        0x48u8, 0x83, 0xec, 0x28, 0x40, 0x84, 0xff, 0x74, 0x13, 0xc7, 0x04, 0x24, 0x74, 0x72, 0x75, 0x65,
        0xc6, 0x44, 0x24, 0x04, 0x00, 0xc6, 0x44, 0x24, 0x05, 0x00, 0xeb, 0x11, 0xc7, 0x04, 0x24, 0x66,
        0x61, 0x6c, 0x73, 0xc6, 0x44, 0x24, 0x04, 0x65, 0xc6, 0x44, 0x24, 0x05, 0x00, 0xbf, 0x06, 0x00,
        0x00, 0x00, 0x48, 0x83, 0xc7, 0x08, 0x48, 0x89, 0xfe, 0x31, 0xff, 0xba, 0x03, 0x00, 0x00, 0x00,
        0x41, 0xba, 0x22, 0x00, 0x00, 0x00, 0x49, 0xc7, 0xc0, 0xff, 0xff, 0xff, 0xff, 0x45, 0x31, 0xc9,
        0xb8, 0x09, 0x00, 0x00, 0x00, 0x0f, 0x05, 0x48, 0x85, 0xc0, 0x78, 0x1b, 0x48, 0x89, 0x30, 0x48,
        0x83, 0xc0, 0x08, 0x48, 0x89, 0xc7, 0x48, 0x8d, 0x74, 0x24, 0x00, 0xb9, 0x06, 0x00, 0x00, 0x00,
        0xf3, 0xa4, 0x48, 0x83, 0xc4, 0x28, 0xc3, 0x31, 0xc0, 0x48, 0x83, 0xc4, 0x28, 0xc3,
    ]
}

#[verifier::spinoff_prover]
#[verifier::rlimit(100)]
fn emit_bool_to_string_runtime(code: &mut Vec<u8>)
    requires
        has_room(old(code)@),
    ensures
        final(code)@ == old(code)@ + bool_to_string_code(),
{
    push_bytes(code, &[0x48, 0x83, 0xec, 0x28, 0x40, 0x84, 0xff]);
    let false_value = emit_short_jump_placeholder(code, 0x74);
    push_bytes(code, &[0xc7, 0x04, 0x24, 0x74, 0x72, 0x75, 0x65, 0xc6, 0x44, 0x24, 0x04, 0x00, 0xc6, 0x44, 0x24, 0x05, 0x00]);
    let allocate = emit_short_jump_placeholder(code, 0xeb);
    let false_target = code.len();
    push_bytes(code, &[0xc7, 0x04, 0x24, 0x66, 0x61, 0x6c, 0x73, 0xc6, 0x44, 0x24, 0x04, 0x65, 0xc6, 0x44, 0x24, 0x05, 0x00]);
    let allocate_target = code.len();
    push_bytes(code, &[0xbf, 0x06, 0x00, 0x00, 0x00, 0x48, 0x83, 0xc7, 0x08, 0x48, 0x89, 0xfe, 0x31, 0xff, 0xba, 0x03, 0x00, 0x00, 0x00, 0x41, 0xba, 0x22, 0x00, 0x00, 0x00, 0x49, 0xc7, 0xc0, 0xff, 0xff, 0xff, 0xff, 0x45, 0x31, 0xc9, 0xb8, 0x09, 0x00, 0x00, 0x00, 0x0f, 0x05, 0x48, 0x85, 0xc0]);
    let failed = emit_short_jump_placeholder(code, 0x78);
    push_bytes(code, &[0x48, 0x89, 0x30, 0x48, 0x83, 0xc0, 0x08, 0x48, 0x89, 0xc7, 0x48, 0x8d, 0x74, 0x24, 0x00, 0xb9, 0x06, 0x00, 0x00, 0x00, 0xf3, 0xa4, 0x48, 0x83, 0xc4, 0x28, 0xc3]);
    let failure = code.len();
    push_bytes(code, &[0x31, 0xc0, 0x48, 0x83, 0xc4, 0x28, 0xc3]);
    patch_short_jump(code, false_value, false_target);
    patch_short_jump(code, allocate, allocate_target);
    patch_short_jump(code, failed, failure);
    assert(code@ =~= old(code)@ + bool_to_string_code());
}

/// The machine code of the Linux `string_clone` runtime routine.
pub closed spec fn string_clone_code() -> Seq<u8> {
    seq![
        0x48u8, 0x83, 0xec, 0x38, 0x48, 0x89, 0x3c, 0x24, 0x48, 0x89, 0xfe, 0x31, 0xc0, 0x80, 0x3c, 0x06,
        0x00, 0x74, 0x05, 0x48, 0xff, 0xc0, 0xeb, 0xf5, 0x48, 0x89, 0x44, 0x24, 0x08, 0x48, 0xff, 0xc0,
        0x48, 0x89, 0xc6, 0x48, 0x83, 0xc6, 0x08, 0x31, 0xff, 0xba, 0x03, 0x00, 0x00, 0x00, 0x41, 0xba,
        0x22, 0x00, 0x00, 0x00, 0x49, 0xc7, 0xc0, 0xff, 0xff, 0xff, 0xff, 0x45, 0x31, 0xc9, 0xb8, 0x09,
        0x00, 0x00, 0x00, 0x0f, 0x05, 0x48, 0x85, 0xc0, 0x0f, 0x88, 0x27, 0x00, 0x00, 0x00, 0x48, 0x89,
        0x30, 0x48, 0x83, 0xc0, 0x08, 0x48, 0x89, 0x44, 0x24, 0x10, 0x48, 0x8b, 0x74, 0x24, 0x00, 0x48,
        0x8b, 0x7c, 0x24, 0x10, 0x48, 0x8b, 0x4c, 0x24, 0x08, 0xf3, 0xa4, 0x48, 0x8b, 0x44, 0x24, 0x10,
        0x48, 0x83, 0xc4, 0x38, 0xc3, 0x31, 0xc0, 0x48, 0x83, 0xc4, 0x38, 0xc3,
    ]
}

#[verifier::spinoff_prover]
#[verifier::rlimit(100)]
fn emit_string_clone_runtime(code: &mut Vec<u8>)
    requires
        has_room(old(code)@),
    ensures
        final(code)@ == old(code)@ + string_clone_code(),
{
    push_bytes(
        code,
        &[
            0x48, 0x83, 0xec, 0x38,
            0x48, 0x89, 0x3c, 0x24,
            0x48, 0x89, 0xfe,
            0x31, 0xc0,
        ],
    );
    let length_loop = code.len();
    push_bytes(code, &[0x80, 0x3c, 0x06, 0x00]);
    let length_done = emit_short_jump_placeholder(code, 0x74);
    push_bytes(code, &[0x48, 0xff, 0xc0]);
    emit_short_jump_back(code, length_loop);
    let length_target = code.len();
    push_bytes(
        code,
        &[
            0x48, 0x89, 0x44, 0x24, 0x08,
            0x48, 0xff, 0xc0,
            0x48, 0x89, 0xc6,
            0x48, 0x83, 0xc6, 0x08,
            0x31, 0xff,
            0xba, 0x03, 0x00, 0x00, 0x00,
            0x41, 0xba, 0x22, 0x00, 0x00, 0x00,
            0x49, 0xc7, 0xc0, 0xff, 0xff, 0xff, 0xff,
            0x45, 0x31, 0xc9,
            0xb8, 0x09, 0x00, 0x00, 0x00, 0x0f, 0x05,
            0x48, 0x85, 0xc0,
        ],
    );
    let allocation_failed = emit_near_jump_placeholder(code, 0x0f, 0x88);
    push_bytes(
        code,
        &[
            0x48, 0x89, 0x30, 0x48, 0x83, 0xc0, 0x08, 0x48, 0x89, 0x44, 0x24, 0x10,
            0x48, 0x8b, 0x74, 0x24, 0x00,
            0x48, 0x8b, 0x7c, 0x24, 0x10,
            0x48, 0x8b, 0x4c, 0x24, 0x08,
            0xf3, 0xa4,
            0x48, 0x8b, 0x44, 0x24, 0x10,
            0x48, 0x83, 0xc4, 0x38, 0xc3,
        ],
    );
    let failure = code.len();
    push_bytes(code, &[0x31, 0xc0, 0x48, 0x83, 0xc4, 0x38, 0xc3]);
    patch_short_jump(code, length_done, length_target);
    patch_near_jump(code, allocation_failed, failure);
    assert(code@ =~= old(code)@ + string_clone_code());
}

/// The machine code of the Linux `string_slice` runtime routine.
pub closed spec fn string_slice_code() -> Seq<u8> {
    seq![
        0x48u8, 0x83, 0xec, 0x38, 0x48, 0x89, 0x3c, 0x24, 0x48, 0x89, 0x74, 0x24, 0x08, 0x48, 0x89, 0x54,
        0x24, 0x10, 0x48, 0x85, 0xff, 0x0f, 0x84, 0xb7, 0x00, 0x00, 0x00, 0x31, 0xc0, 0x80, 0x3c, 0x07,
        0x00, 0x0f, 0x84, 0x33, 0x00, 0x00, 0x00, 0x48, 0xff, 0xc0, 0xeb, 0xf1, 0x48, 0x89, 0x44, 0x24,
        0x18, 0x48, 0x8b, 0x4c, 0x24, 0x08, 0x48, 0x39, 0xc1, 0x0f, 0x83, 0x85, 0x00, 0x00, 0x00, 0x48,
        0x83, 0x7c, 0x24, 0x10, 0x00, 0x0f, 0x84, 0x6d, 0x00, 0x00, 0x00, 0x48, 0x29, 0xc8, 0x48, 0x39,
        0xc2, 0x0f, 0x87, 0x00, 0x00, 0x00, 0x00, 0x48, 0x89, 0xc2, 0x48, 0x89, 0x54, 0x24, 0x20, 0x48,
        0x8b, 0x74, 0x24, 0x08, 0x48, 0xff, 0xc6, 0x31, 0xff, 0xba, 0x03, 0x00, 0x00, 0x00, 0x41, 0xba,
        0x22, 0x00, 0x00, 0x00, 0x49, 0xc7, 0xc0, 0xff, 0xff, 0xff, 0xff, 0x45, 0x31, 0xc9, 0xb8, 0x09,
        0x00, 0x00, 0x00, 0x0f, 0x05, 0x48, 0x85, 0xc0, 0x0f, 0x88, 0x44, 0x00, 0x00, 0x00, 0x48, 0x89,
        0x44, 0x24, 0x28, 0x48, 0x8b, 0x3c, 0x24, 0x48, 0x8b, 0x74, 0x24, 0x08, 0x48, 0x01, 0xfe, 0x48,
        0x8b, 0x4c, 0x24, 0x20, 0x48, 0x8b, 0x44, 0x24, 0x28, 0x48, 0x89, 0xc7, 0xf3, 0xa4, 0x48, 0x8b,
        0x44, 0x24, 0x28, 0x48, 0x83, 0xc4, 0x38, 0xc3, 0x48, 0x8b, 0x04, 0x24, 0x48, 0x01, 0xc8, 0x48,
        0x83, 0xc4, 0x38, 0xc3, 0x48, 0x8b, 0x04, 0x24, 0x48, 0x03, 0x44, 0x24, 0x18, 0x48, 0x83, 0xc4,
        0x38, 0xc3, 0x31, 0xc0, 0x48, 0x83, 0xc4, 0x38, 0xc3,
    ]
}

#[verifier::spinoff_prover]
#[verifier::rlimit(100)]
pub(crate) fn emit_string_slice_runtime(code: &mut Vec<u8>)
    requires
        has_room(old(code)@),
    ensures
        final(code)@ == old(code)@ + string_slice_code(),
{
    push_bytes(
        code,
        &[
            0x48, 0x83, 0xec, 0x38,
            0x48, 0x89, 0x3c, 0x24,
            0x48, 0x89, 0x74, 0x24, 0x08,
            0x48, 0x89, 0x54, 0x24, 0x10,
            0x48, 0x85, 0xff,
        ],
    );
    let null_source = emit_near_jump_placeholder(code, 0x0f, 0x84);
    push_bytes(code, &[0x31, 0xc0]);
    let length_loop = code.len();
    push_bytes(code, &[0x80, 0x3c, 0x07, 0x00]);
    let length_done = emit_near_jump_placeholder(code, 0x0f, 0x84);
    push_bytes(code, &[0x48, 0xff, 0xc0]);
    emit_short_jump_back(code, length_loop);
    push_bytes(
        code,
        &[
            0x48, 0x89, 0x44, 0x24, 0x18,
            0x48, 0x8b, 0x4c, 0x24, 0x08,
            0x48, 0x39, 0xc1,
        ],
    );
    let start_out = emit_near_jump_placeholder(code, 0x0f, 0x83);
    push_bytes(code, &[0x48, 0x83, 0x7c, 0x24, 0x10, 0x00]);
    let zero_length = emit_near_jump_placeholder(code, 0x0f, 0x84);
    push_bytes(
        code,
        &[
            0x48, 0x29, 0xc8,
            0x48, 0x39, 0xc2,
        ],
    );
    let clamp_length = emit_near_jump_placeholder(code, 0x0f, 0x87);
    let clamp_target = code.len();
    push_bytes(code, &[0x48, 0x89, 0xc2]);
    let length_ready = code.len();
    push_bytes(
        code,
        &[
            0x48, 0x89, 0x54, 0x24, 0x20,
            0x48, 0x8b, 0x74, 0x24, 0x08,
            0x48, 0xff, 0xc6,
            0x31, 0xff, 0xba, 0x03, 0x00, 0x00, 0x00,
            0x41, 0xba, 0x22, 0x00, 0x00, 0x00,
            0x49, 0xc7, 0xc0, 0xff, 0xff, 0xff, 0xff,
            0x45, 0x31, 0xc9, 0xb8, 0x09, 0x00, 0x00, 0x00, 0x0f, 0x05,
            0x48, 0x85, 0xc0,
        ],
    );
    let allocation_failed = emit_near_jump_placeholder(code, 0x0f, 0x88);
    push_bytes(
        code,
        &[
            0x48, 0x89, 0x44, 0x24, 0x28,
            0x48, 0x8b, 0x3c, 0x24,
            0x48, 0x8b, 0x74, 0x24, 0x08,
            0x48, 0x01, 0xfe,
            0x48, 0x8b, 0x4c, 0x24, 0x20,
            0x48, 0x8b, 0x44, 0x24, 0x28,
            0x48, 0x89, 0xc7, 0xf3, 0xa4,
            0x48, 0x8b, 0x44, 0x24, 0x28,
            0x48, 0x83, 0xc4, 0x38, 0xc3,
        ],
    );
    let zero_target = code.len();
    push_bytes(
        code,
        &[
            0x48, 0x8b, 0x04, 0x24, 0x48, 0x01, 0xc8,
            0x48, 0x83, 0xc4, 0x38, 0xc3,
        ],
    );
    let start_out_target = code.len();
    push_bytes(
        code,
        &[
            0x48, 0x8b, 0x04, 0x24, 0x48, 0x03, 0x44, 0x24, 0x18,
            0x48, 0x83, 0xc4, 0x38, 0xc3,
        ],
    );
    let failure = code.len();
    push_bytes(code, &[0x31, 0xc0, 0x48, 0x83, 0xc4, 0x38, 0xc3]);
    patch_near_jump(code, null_source, failure);
    patch_near_jump(code, length_done, length_ready);
    patch_near_jump(code, start_out, start_out_target);
    patch_near_jump(code, zero_length, zero_target);
    patch_near_jump(code, clamp_length, clamp_target);
    patch_near_jump(code, allocation_failed, failure);
    assert(code@ =~= old(code)@ + string_slice_code());
}

/// The machine code of the Linux `file_exists` runtime routine: `access(path, F_OK)`, which
/// returns zero when the path exists.
pub closed spec fn file_exists_code() -> Seq<u8> {
    seq![
        0x48u8, 0x85, 0xff, 0x75, 0x03, 0x31, 0xc0, 0xc3, 0x31, 0xf6, 0xb8, 0x15, 0x00, 0x00, 0x00, 0x0f,
        0x05, 0x48, 0x85, 0xc0, 0x79, 0x03, 0x31, 0xc0, 0xc3, 0xb8, 0x01, 0x00, 0x00, 0x00, 0xc3,
    ]
}

fn emit_file_exists_runtime(code: &mut Vec<u8>)
    requires
        has_room(old(code)@),
    ensures
        final(code)@ == old(code)@ + file_exists_code(),
{
    push_bytes(code, &[0x48, 0x85, 0xff]);
    let non_null = emit_short_jump_placeholder(code, 0x75);
    push_bytes(code, &[0x31, 0xc0, 0xc3]);
    let call = code.len();
    push_bytes(
        code,
        &[
            0x31, 0xf6, 0xb8, 0x15, 0x00, 0x00, 0x00, 0x0f, 0x05,
            0x48, 0x85, 0xc0,
        ],
    );
    let exists = emit_short_jump_placeholder(code, 0x79);
    push_bytes(code, &[0x31, 0xc0, 0xc3]);
    let exists_target = code.len();
    push_bytes(code, &[0xb8, 0x01, 0x00, 0x00, 0x00, 0xc3]);
    patch_short_jump(code, non_null, call);
    patch_short_jump(code, exists, exists_target);
    assert(code@ =~= old(code)@ + file_exists_code());
}

/// The machine code of the Linux `realloc_geo` runtime routine. Its null-pointer jump spans more
/// than a short jump reaches, so its displacement byte wraps around, as the routine has always
/// been emitted.
pub closed spec fn realloc_code() -> Seq<u8> {
    seq![
        0x48u8, 0x85, 0xff, 0x74, 0x97, 0x48, 0x83, 0xec, 0x38, 0x48, 0x89, 0x3c, 0x24, 0x48, 0x89, 0x74,
        0x24, 0x08, 0x48, 0x8d, 0x47, 0xf8, 0x48, 0x89, 0x44, 0x24, 0x10, 0x48, 0x8b, 0x08, 0x48, 0x83,
        0xe9, 0x08, 0x48, 0x89, 0x4c, 0x24, 0x18, 0x48, 0x83, 0xc6, 0x08, 0x48, 0x89, 0x74, 0x24, 0x20,
        0x31, 0xff, 0xba, 0x03, 0x00, 0x00, 0x00, 0x41, 0xba, 0x22, 0x00, 0x00, 0x00, 0x49, 0xc7, 0xc0,
        0xff, 0xff, 0xff, 0xff, 0x45, 0x31, 0xc9, 0xb8, 0x09, 0x00, 0x00, 0x00, 0x0f, 0x05, 0x48, 0x85,
        0xc0, 0x78, 0x42, 0x48, 0x89, 0x30, 0x48, 0x83, 0xc0, 0x08, 0x48, 0x89, 0x44, 0x24, 0x28, 0x48,
        0x8b, 0x4c, 0x24, 0x18, 0x48, 0x3b, 0x4c, 0x24, 0x08, 0x76, 0x05, 0x48, 0x8b, 0x4c, 0x24, 0x08,
        0x48, 0x8b, 0x74, 0x24, 0x00, 0x48, 0x8b, 0x7c, 0x24, 0x28, 0xf3, 0xa4, 0x48, 0x8b, 0x7c, 0x24,
        0x10, 0x48, 0x8b, 0x37, 0xb8, 0x0b, 0x00, 0x00, 0x00, 0x0f, 0x05, 0x48, 0x8b, 0x44, 0x24, 0x28,
        0x48, 0x83, 0xc4, 0x38, 0xc3, 0x31, 0xc0, 0x48, 0x83, 0xc4, 0x38, 0xc3, 0x31, 0xc0, 0xc3,
    ]
}

#[verifier::spinoff_prover]
#[verifier::rlimit(100)]
fn emit_realloc_runtime(code: &mut Vec<u8>)
    requires
        has_room(old(code)@),
    ensures
        final(code)@ == old(code)@ + realloc_code(),
{
    push_bytes(code, &[0x48, 0x85, 0xff]);
    let null = emit_short_jump_placeholder(code, 0x74);
    push_bytes(code, &[0x48, 0x83, 0xec, 0x38, 0x48, 0x89, 0x3c, 0x24, 0x48, 0x89, 0x74, 0x24, 0x08, 0x48, 0x8d, 0x47, 0xf8, 0x48, 0x89, 0x44, 0x24, 0x10, 0x48, 0x8b, 0x08, 0x48, 0x83, 0xe9, 0x08, 0x48, 0x89, 0x4c, 0x24, 0x18, 0x48, 0x83, 0xc6, 0x08, 0x48, 0x89, 0x74, 0x24, 0x20, 0x31, 0xff, 0xba, 0x03, 0x00, 0x00, 0x00, 0x41, 0xba, 0x22, 0x00, 0x00, 0x00, 0x49, 0xc7, 0xc0, 0xff, 0xff, 0xff, 0xff, 0x45, 0x31, 0xc9, 0xb8, 0x09, 0x00, 0x00, 0x00, 0x0f, 0x05, 0x48, 0x85, 0xc0]);
    let allocation_failed = emit_short_jump_placeholder(code, 0x78);
    push_bytes(code, &[0x48, 0x89, 0x30, 0x48, 0x83, 0xc0, 0x08, 0x48, 0x89, 0x44, 0x24, 0x28, 0x48, 0x8b, 0x4c, 0x24, 0x18, 0x48, 0x3b, 0x4c, 0x24, 0x08]);
    let old_smaller = emit_short_jump_placeholder(code, 0x76);
    push_bytes(code, &[0x48, 0x8b, 0x4c, 0x24, 0x08]);
    let copy_start = code.len();
    push_bytes(
        code,
        &[
            0x48, 0x8b, 0x74, 0x24, 0x00, 0x48, 0x8b, 0x7c, 0x24, 0x28, 0xf3, 0xa4,
            0x48, 0x8b, 0x7c, 0x24, 0x10, 0x48, 0x8b, 0x37, 0xb8, 0x0b, 0x00, 0x00, 0x00, 0x0f, 0x05,
            0x48, 0x8b, 0x44, 0x24, 0x28, 0x48, 0x83, 0xc4, 0x38, 0xc3,
        ],
    );
    let failure = code.len();
    push_bytes(code, &[0x31, 0xc0, 0x48, 0x83, 0xc4, 0x38, 0xc3]);
    let null_target = code.len();
    push_bytes(code, &[0x31, 0xc0, 0xc3]);
    patch_short_jump_wrapping(code, null, null_target);
    patch_short_jump(code, allocation_failed, failure);
    patch_short_jump(code, old_smaller, copy_start);
    assert(code@ =~= old(code)@ + realloc_code());
}

/// The machine code of the Linux file-status routines: whether a path is a file, is a
/// directory, is empty, or its size.
pub closed spec fn file_stat_code(kind: FileStatKind) -> Seq<u8> {
    match kind {
        FileStatKind::File => seq![
                0x48u8, 0x81, 0xec, 0xa0, 0x00, 0x00, 0x00, 0x48, 0x85, 0xff, 0x74, 0x37, 0x48, 0x89, 0xfe, 0xbf,
                0x9c, 0xff, 0xff, 0xff, 0x48, 0x8d, 0x14, 0x24, 0x45, 0x31, 0xd2, 0xb8, 0x06, 0x01, 0x00, 0x00,
                0x0f, 0x05, 0x48, 0x85, 0xc0, 0x78, 0x1c, 0x8b, 0x44, 0x24, 0x18, 0x25, 0x00, 0xf0, 0x00, 0x00,
                0x3d, 0x00, 0x80, 0x00, 0x00, 0x0f, 0x94, 0xc0, 0x0f, 0xb6, 0xc0, 0x48, 0x81, 0xc4, 0xa0, 0x00,
                0x00, 0x00, 0xc3, 0x31, 0xc0, 0x48, 0x81, 0xc4, 0xa0, 0x00, 0x00, 0x00, 0xc3,
            ],
        FileStatKind::Directory => seq![
                0x48u8, 0x81, 0xec, 0xa0, 0x00, 0x00, 0x00, 0x48, 0x85, 0xff, 0x74, 0x37, 0x48, 0x89, 0xfe, 0xbf,
                0x9c, 0xff, 0xff, 0xff, 0x48, 0x8d, 0x14, 0x24, 0x45, 0x31, 0xd2, 0xb8, 0x06, 0x01, 0x00, 0x00,
                0x0f, 0x05, 0x48, 0x85, 0xc0, 0x78, 0x1c, 0x8b, 0x44, 0x24, 0x18, 0x25, 0x00, 0xf0, 0x00, 0x00,
                0x3d, 0x00, 0x40, 0x00, 0x00, 0x0f, 0x94, 0xc0, 0x0f, 0xb6, 0xc0, 0x48, 0x81, 0xc4, 0xa0, 0x00,
                0x00, 0x00, 0xc3, 0x31, 0xc0, 0x48, 0x81, 0xc4, 0xa0, 0x00, 0x00, 0x00, 0xc3,
            ],
        FileStatKind::Empty => seq![
                0x48u8, 0x81, 0xec, 0xa0, 0x00, 0x00, 0x00, 0x48, 0x85, 0xff, 0x74, 0x2f, 0x48, 0x89, 0xfe, 0xbf,
                0x9c, 0xff, 0xff, 0xff, 0x48, 0x8d, 0x14, 0x24, 0x45, 0x31, 0xd2, 0xb8, 0x06, 0x01, 0x00, 0x00,
                0x0f, 0x05, 0x48, 0x85, 0xc0, 0x78, 0x14, 0x48, 0x83, 0x7c, 0x24, 0x30, 0x00, 0x0f, 0x94, 0xc0,
                0x0f, 0xb6, 0xc0, 0x48, 0x81, 0xc4, 0xa0, 0x00, 0x00, 0x00, 0xc3, 0x31, 0xc0, 0x48, 0x81, 0xc4,
                0xa0, 0x00, 0x00, 0x00, 0xc3,
            ],
        FileStatKind::Size => seq![
                0x48u8, 0x81, 0xec, 0xa0, 0x00, 0x00, 0x00, 0x48, 0x85, 0xff, 0x74, 0x28, 0x48, 0x89, 0xfe, 0xbf,
                0x9c, 0xff, 0xff, 0xff, 0x48, 0x8d, 0x14, 0x24, 0x45, 0x31, 0xd2, 0xb8, 0x06, 0x01, 0x00, 0x00,
                0x0f, 0x05, 0x48, 0x85, 0xc0, 0x78, 0x0d, 0x48, 0x8b, 0x44, 0x24, 0x30, 0x48, 0x81, 0xc4, 0xa0,
                0x00, 0x00, 0x00, 0xc3, 0x31, 0xc0, 0x48, 0x81, 0xc4, 0xa0, 0x00, 0x00, 0x00, 0xc3,
            ],
    }
}

/// The machine code of the Linux string comparison routines: a byte-wise comparison loop
/// followed by the result for less, greater and equal strings.
pub closed spec fn string_compare_code(kind: StringCompareKind) -> Seq<u8> {
    match kind {
        StringCompareKind::Compare => seq![
                0x48u8, 0x31, 0xc9, 0x0f, 0xb6, 0x04, 0x0f, 0x0f, 0xb6, 0x14, 0x0e, 0x39, 0xd0, 0x72, 0x0b, 0x77,
                0x0f, 0x85, 0xc0, 0x74, 0x11, 0x48, 0xff, 0xc1, 0xeb, 0xe9, 0xb8, 0xff, 0xff, 0xff, 0xff, 0xc3,
                0xb8, 0x01, 0x00, 0x00, 0x00, 0xc3, 0xb8, 0x00, 0x00, 0x00, 0x00, 0xc3,
            ],
        StringCompareKind::Equal => seq![
                0x48u8, 0x31, 0xc9, 0x0f, 0xb6, 0x04, 0x0f, 0x0f, 0xb6, 0x14, 0x0e, 0x39, 0xd0, 0x72, 0x0b, 0x77,
                0x0f, 0x85, 0xc0, 0x74, 0x11, 0x48, 0xff, 0xc1, 0xeb, 0xe9, 0xb8, 0x00, 0x00, 0x00, 0x00, 0xc3,
                0xb8, 0x00, 0x00, 0x00, 0x00, 0xc3, 0xb8, 0x01, 0x00, 0x00, 0x00, 0xc3,
            ],
        StringCompareKind::NotEqual => seq![
                0x48u8, 0x31, 0xc9, 0x0f, 0xb6, 0x04, 0x0f, 0x0f, 0xb6, 0x14, 0x0e, 0x39, 0xd0, 0x72, 0x0b, 0x77,
                0x0f, 0x85, 0xc0, 0x74, 0x11, 0x48, 0xff, 0xc1, 0xeb, 0xe9, 0xb8, 0x01, 0x00, 0x00, 0x00, 0xc3,
                0xb8, 0x01, 0x00, 0x00, 0x00, 0xc3, 0xb8, 0x00, 0x00, 0x00, 0x00, 0xc3,
            ],
        StringCompareKind::Less => seq![
                0x48u8, 0x31, 0xc9, 0x0f, 0xb6, 0x04, 0x0f, 0x0f, 0xb6, 0x14, 0x0e, 0x39, 0xd0, 0x72, 0x0b, 0x77,
                0x0f, 0x85, 0xc0, 0x74, 0x11, 0x48, 0xff, 0xc1, 0xeb, 0xe9, 0xb8, 0x01, 0x00, 0x00, 0x00, 0xc3,
                0xb8, 0x00, 0x00, 0x00, 0x00, 0xc3, 0xb8, 0x00, 0x00, 0x00, 0x00, 0xc3,
            ],
        StringCompareKind::LessOrEqual => seq![
                0x48u8, 0x31, 0xc9, 0x0f, 0xb6, 0x04, 0x0f, 0x0f, 0xb6, 0x14, 0x0e, 0x39, 0xd0, 0x72, 0x0b, 0x77,
                0x0f, 0x85, 0xc0, 0x74, 0x11, 0x48, 0xff, 0xc1, 0xeb, 0xe9, 0xb8, 0x01, 0x00, 0x00, 0x00, 0xc3,
                0xb8, 0x00, 0x00, 0x00, 0x00, 0xc3, 0xb8, 0x01, 0x00, 0x00, 0x00, 0xc3,
            ],
        StringCompareKind::Greater => seq![
                0x48u8, 0x31, 0xc9, 0x0f, 0xb6, 0x04, 0x0f, 0x0f, 0xb6, 0x14, 0x0e, 0x39, 0xd0, 0x72, 0x0b, 0x77,
                0x0f, 0x85, 0xc0, 0x74, 0x11, 0x48, 0xff, 0xc1, 0xeb, 0xe9, 0xb8, 0x00, 0x00, 0x00, 0x00, 0xc3,
                0xb8, 0x01, 0x00, 0x00, 0x00, 0xc3, 0xb8, 0x00, 0x00, 0x00, 0x00, 0xc3,
            ],
        StringCompareKind::GreaterOrEqual => seq![
                0x48u8, 0x31, 0xc9, 0x0f, 0xb6, 0x04, 0x0f, 0x0f, 0xb6, 0x14, 0x0e, 0x39, 0xd0, 0x72, 0x0b, 0x77,
                0x0f, 0x85, 0xc0, 0x74, 0x11, 0x48, 0xff, 0xc1, 0xeb, 0xe9, 0xb8, 0x00, 0x00, 0x00, 0x00, 0xc3,
                0xb8, 0x01, 0x00, 0x00, 0x00, 0xc3, 0xb8, 0x01, 0x00, 0x00, 0x00, 0xc3,
            ],
    }
}

/// The machine code of the Linux array search routines: the first match's index, the last
/// match's index, or the number of matches.
pub closed spec fn array_search_code(last: bool, count: bool) -> Seq<u8> {
    if count {
        seq![
            0x48u8, 0x85, 0xff, 0x74, 0x32, 0x44, 0x8a, 0x0e, 0x48, 0x8b, 0x57, 0x08, 0x4c, 0x8b, 0x07, 0x31,
            0xc9, 0x31, 0xc0, 0x48, 0x85, 0xd2, 0x74, 0x1e, 0x45, 0x38, 0x08, 0x74, 0x0b, 0x49, 0xff, 0xc0,
            0x48, 0xff, 0xc1, 0x48, 0xff, 0xca, 0xeb, 0xeb, 0x48, 0xff, 0xc0, 0x49, 0xff, 0xc0, 0x48, 0xff,
            0xc1, 0x48, 0xff, 0xca, 0xeb, 0xdd, 0xc3, 0x31, 0xc0, 0xc3,
        ]
    } else if last {
        seq![
            0x48u8, 0x85, 0xff, 0x74, 0x37, 0x44, 0x8a, 0x0e, 0x48, 0x8b, 0x57, 0x08, 0x4c, 0x8b, 0x07, 0x31,
            0xc9, 0x48, 0xc7, 0xc0, 0xff, 0xff, 0xff, 0xff, 0x48, 0x85, 0xd2, 0x74, 0x1e, 0x45, 0x38, 0x08,
            0x74, 0x0b, 0x49, 0xff, 0xc0, 0x48, 0xff, 0xc1, 0x48, 0xff, 0xca, 0xeb, 0xeb, 0x48, 0x89, 0xc8,
            0x49, 0xff, 0xc0, 0x48, 0xff, 0xc1, 0x48, 0xff, 0xca, 0xeb, 0xdd, 0xc3, 0x48, 0xc7, 0xc0, 0xff,
            0xff, 0xff, 0xff, 0xc3,
        ]
    } else {
        seq![
            0x48u8, 0x85, 0xff, 0x74, 0x27, 0x44, 0x8a, 0x0e, 0x48, 0x8b, 0x57, 0x08, 0x4c, 0x8b, 0x07, 0x31,
            0xc9, 0x31, 0xc0, 0x48, 0x85, 0xd2, 0x74, 0x14, 0x45, 0x38, 0x08, 0x74, 0x0b, 0x49, 0xff, 0xc0,
            0x48, 0xff, 0xc1, 0x48, 0xff, 0xca, 0xeb, 0xeb, 0x48, 0x89, 0xc8, 0xc3, 0x48, 0xc7, 0xc0, 0xff,
            0xff, 0xff, 0xff, 0xc3,
        ]
    }
}

/// What a file-status routine reports.
#[derive(Debug, Clone, Copy, PartialEq, Eq, Structural)]
pub enum FileStatKind {
    File,
    Directory,
    Empty,
    Size,
}

#[verifier::spinoff_prover]
#[verifier::rlimit(50)]
fn emit_file_stat_runtime(code: &mut Vec<u8>, kind: FileStatKind)
    requires
        has_room(old(code)@),
    ensures
        final(code)@ == old(code)@ + file_stat_code(kind),
{
    push_bytes(code, &[0x48, 0x81, 0xec, 0xa0, 0x00, 0x00, 0x00, 0x48, 0x85, 0xff]);
    let null_path = emit_short_jump_placeholder(code, 0x74);
    push_bytes(
        code,
        &[
            0x48, 0x89, 0xfe,
            0xbf, 0x9c, 0xff, 0xff, 0xff,
            0x48, 0x8d, 0x14, 0x24,
            0x45, 0x31, 0xd2,
            0xb8, 0x06, 0x01, 0x00, 0x00, 0x0f, 0x05,
            0x48, 0x85, 0xc0,
        ],
    );
    let failed = emit_short_jump_placeholder(code, 0x78);
    match kind {
        FileStatKind::File | FileStatKind::Directory => {
            push_bytes(code, &[0x8b, 0x44, 0x24, 0x18, 0x25, 0x00, 0xf0, 0x00, 0x00, 0x3d]);
            let mode: u32 = if matches!(kind, FileStatKind::File) { 0x8000 } else { 0x4000 };
            crate::bytes::push_u32(code, mode);
            push_bytes(code, &[0x0f, 0x94, 0xc0, 0x0f, 0xb6, 0xc0]);
        },
        FileStatKind::Empty => {
            push_bytes(code, &[0x48, 0x83, 0x7c, 0x24, 0x30, 0x00, 0x0f, 0x94, 0xc0, 0x0f, 0xb6, 0xc0]);
        },
        FileStatKind::Size => {
            push_bytes(code, &[0x48, 0x8b, 0x44, 0x24, 0x30]);
        },
    }
    push_bytes(code, &[0x48, 0x81, 0xc4, 0xa0, 0x00, 0x00, 0x00, 0xc3]);
    let failure = code.len();
    push_bytes(code, &[0x31, 0xc0, 0x48, 0x81, 0xc4, 0xa0, 0x00, 0x00, 0x00, 0xc3]);
    patch_short_jump(code, null_path, failure);
    patch_short_jump(code, failed, failure);
    assert(code@ =~= old(code)@ + file_stat_code(kind));
}

/// What a string comparison routine returns.
#[derive(Debug, Clone, Copy, PartialEq, Eq, Structural)]
pub enum StringCompareKind {
    Compare,
    Equal,
    NotEqual,
    Less,
    LessOrEqual,
    Greater,
    GreaterOrEqual,
}

/// How two compared strings relate.
#[derive(Debug, Clone, Copy, PartialEq, Eq, Structural)]
pub enum CompareOutcome {
    Less,
    Equal,
    Greater,
}

/// The value a comparison routine returns for an outcome: -1, 0 or 1 for a three-way
/// comparison, else one where the relation holds and zero where it does not.
pub open spec fn compare_result_value(kind: StringCompareKind, outcome: CompareOutcome) -> int {
    match kind {
        StringCompareKind::Compare => match outcome {
            CompareOutcome::Less => -1,
            CompareOutcome::Equal => 0,
            CompareOutcome::Greater => 1,
        },
        StringCompareKind::Equal => if outcome is Equal { 1 } else { 0 },
        StringCompareKind::NotEqual => if outcome is Equal { 0 } else { 1 },
        StringCompareKind::Less => if outcome is Less { 1 } else { 0 },
        StringCompareKind::LessOrEqual => if outcome is Greater { 0 } else { 1 },
        StringCompareKind::Greater => if outcome is Greater { 1 } else { 0 },
        StringCompareKind::GreaterOrEqual => if outcome is Less { 0 } else { 1 },
    }
}

/// Appends `mov eax, value; ret` for an outcome.
fn emit_compare_result(code: &mut Vec<u8>, kind: StringCompareKind, outcome: CompareOutcome)
    ensures
        final(code)@ == old(code)@ + seq![0xb8u8]
            + crate::bytes::le32(crate::bytes::twos32(compare_result_value(kind, outcome))) + seq![0xc3u8],
{
    let value: i32 = match kind {
        StringCompareKind::Compare => match outcome {
            CompareOutcome::Less => -1,
            CompareOutcome::Equal => 0,
            CompareOutcome::Greater => 1,
        },
        StringCompareKind::Equal => if matches!(outcome, CompareOutcome::Equal) { 1 } else { 0 },
        StringCompareKind::NotEqual => if matches!(outcome, CompareOutcome::Equal) { 0 } else { 1 },
        StringCompareKind::Less => if matches!(outcome, CompareOutcome::Less) { 1 } else { 0 },
        StringCompareKind::LessOrEqual => if matches!(outcome, CompareOutcome::Greater) { 0 } else { 1 },
        StringCompareKind::Greater => if matches!(outcome, CompareOutcome::Greater) { 1 } else { 0 },
        StringCompareKind::GreaterOrEqual => if matches!(outcome, CompareOutcome::Less) { 0 } else { 1 },
    };
    code.push(0xb8);
    crate::bytes::push_i32(code, value);
    code.push(0xc3);
    assert(code@ =~= old(code)@ + seq![0xb8u8]
        + crate::bytes::le32(crate::bytes::twos32(compare_result_value(kind, outcome))) + seq![0xc3u8]);
}

#[verifier::spinoff_prover]
#[verifier::rlimit(50)]
fn emit_string_compare_runtime(code: &mut Vec<u8>, kind: StringCompareKind)
    requires
        has_room(old(code)@),
    ensures
        final(code)@ == old(code)@ + string_compare_code(kind),
{
    push_bytes(code, &[0x48, 0x31, 0xc9]);
    let loop_start = code.len();
    push_bytes(code, &[0x0f, 0xb6, 0x04, 0x0f, 0x0f, 0xb6, 0x14, 0x0e, 0x39, 0xd0]);
    let less = emit_short_jump_placeholder(code, 0x72);
    let greater = emit_short_jump_placeholder(code, 0x77);
    push_bytes(code, &[0x85, 0xc0]);
    let equal = emit_short_jump_placeholder(code, 0x74);
    push_bytes(code, &[0x48, 0xff, 0xc1]);
    emit_short_jump_back(code, loop_start);
    let less_target = code.len();
    emit_compare_result(code, kind, CompareOutcome::Less);
    let greater_target = code.len();
    emit_compare_result(code, kind, CompareOutcome::Greater);
    let equal_target = code.len();
    emit_compare_result(code, kind, CompareOutcome::Equal);
    patch_short_jump(code, less, less_target);
    patch_short_jump(code, greater, greater_target);
    patch_short_jump(code, equal, equal_target);
    assert(code@ =~= old(code)@ + string_compare_code(kind));
}

#[verifier::spinoff_prover]
#[verifier::rlimit(50)]
fn emit_array_search_runtime(code: &mut Vec<u8>, last: bool, count: bool)
    requires
        has_room(old(code)@),
        !(last && count),
    ensures
        final(code)@ == old(code)@ + array_search_code(last, count),
{
    push_bytes(code, &[0x48, 0x85, 0xff]);
    let failed = emit_short_jump_placeholder(code, 0x74);
    push_bytes(code, &[0x44, 0x8a, 0x0e, 0x48, 0x8b, 0x57, 0x08, 0x4c, 0x8b, 0x07, 0x31, 0xc9]);
    if last {
        push_bytes(code, &[0x48, 0xc7, 0xc0, 0xff, 0xff, 0xff, 0xff]);
    } else {
        push_bytes(code, &[0x31, 0xc0]);
    }
    let loop_start = code.len();
    push_bytes(code, &[0x48, 0x85, 0xd2]);
    let done = emit_short_jump_placeholder(code, 0x74);
    push_bytes(code, &[0x45, 0x38, 0x08]);
    let matched = emit_short_jump_placeholder(code, 0x74);
    push_bytes(code, &[0x49, 0xff, 0xc0, 0x48, 0xff, 0xc1, 0x48, 0xff, 0xca]);
    emit_short_jump_back(code, loop_start);
    let match_target = code.len();
    if count {
        push_bytes(code, &[0x48, 0xff, 0xc0, 0x49, 0xff, 0xc0, 0x48, 0xff, 0xc1, 0x48, 0xff, 0xca]);
        emit_short_jump_back(code, loop_start);
    } else if last {
        push_bytes(code, &[0x48, 0x89, 0xc8, 0x49, 0xff, 0xc0, 0x48, 0xff, 0xc1, 0x48, 0xff, 0xca]);
        emit_short_jump_back(code, loop_start);
    } else {
        push_bytes(code, &[0x48, 0x89, 0xc8, 0xc3]);
    }
    let result_done: Option<usize> = if last || count {
        let target = code.len();
        code.push(0xc3);
        Some(target)
    } else {
        None
    };
    let failure = code.len();
    if count {
        push_bytes(code, &[0x31, 0xc0, 0xc3]);
    } else {
        push_bytes(code, &[0x48, 0xc7, 0xc0, 0xff, 0xff, 0xff, 0xff, 0xc3]);
    }
    patch_short_jump(code, failed, failure);
    let done_target = match result_done {
        Some(t) => t,
        None => failure,
    };
    patch_short_jump(code, done, done_target);
    patch_short_jump(code, matched, match_target);
    assert(code@ =~= old(code)@ + array_search_code(last, count));
}

fn emit_array_index_of_runtime(code: &mut Vec<u8>)
    requires
        has_room(old(code)@),
    ensures
        final(code)@ == old(code)@ + array_search_code(false, false),
{
    emit_array_search_runtime(code, false, false);
}

fn emit_array_last_index_of_runtime(code: &mut Vec<u8>)
    requires
        has_room(old(code)@),
    ensures
        final(code)@ == old(code)@ + array_search_code(true, false),
{
    emit_array_search_runtime(code, true, false);
}

/// `contains` shares the counting routine: a non-zero count means the value is present.
fn emit_array_contains_runtime(code: &mut Vec<u8>)
    requires
        has_room(old(code)@),
    ensures
        final(code)@ == old(code)@ + array_search_code(false, true),
{
    emit_array_search_runtime(code, false, true);
}

fn emit_array_count_runtime(code: &mut Vec<u8>)
    requires
        has_room(old(code)@),
    ensures
        final(code)@ == old(code)@ + array_search_code(false, true),
{
    emit_array_search_runtime(code, false, true);
}

/// The machine code of the Linux print routines: measure the zero-terminated string, write
/// it to `fd`, and for `println` write a newline to standard output.
pub closed spec fn print_code(newline: bool, fd: u8) -> Seq<u8> {
    seq![
        0x48u8, 0x89, 0xfe, 0x49, 0x89, 0xf8, 0x31, 0xd2, 0x41, 0x0f, 0xb6, 0x08, 0x85, 0xc9, 0x74, 0x07,
        0x49, 0xff, 0xc0, 0xff, 0xc2, 0xeb, 0xf1, 0xb8, 0x01, 0x00, 0x00, 0x00, 0xbf, fd, 0x00, 0x00,
        0x00, 0x0f, 0x05,
    ] + (if newline {
        seq![
            0x48u8, 0x83, 0xec, 0x08, 0xc6, 0x04, 0x24, 0x0a, 0xb8, 0x01, 0x00, 0x00, 0x00, 0xbf, 0x01, 0x00,
            0x00, 0x00, 0x48, 0x89, 0xe6, 0xba, 0x01, 0x00, 0x00, 0x00, 0x0f, 0x05, 0x48, 0x83, 0xc4, 0x08,
        ]
    } else {
        seq![]
    }) + seq![0xc3u8]
}

fn emit_print_runtime(code: &mut Vec<u8>, newline: bool, fd: u8)
    ensures
        final(code)@ == old(code)@ + print_code(newline, fd),
{
    push_bytes(
        code,
        &[
            0x48, 0x89, 0xfe,
            0x49, 0x89, 0xf8,
            0x31, 0xd2,
            0x41, 0x0f, 0xb6, 0x08,
            0x85, 0xc9,
            0x74, 0x07,
            0x49, 0xff, 0xc0,
            0xff, 0xc2,
            0xeb, 0xf1,
            0xb8, 1, 0, 0, 0,
            0xbf, fd, 0, 0, 0,
            0x0f, 0x05,
        ],
    );
    if newline {
        push_bytes(
            code,
            &[
                0x48, 0x83, 0xec, 0x08,
                0xc6, 0x04, 0x24, 0x0a,
                0xb8, 1, 0, 0, 0,
                0xbf, 1, 0, 0, 0,
                0x48, 0x89, 0xe6,
                0xba, 1, 0, 0, 0,
                0x0f, 0x05,
                0x48, 0x83, 0xc4, 0x08,
            ],
        );
    }
    code.push(0xc3);
    assert(code@ =~= old(code)@ + print_code(newline, fd));
}

/// The machine code of the Linux allocation routines: map `size + 8` bytes (`count * size + 8`
/// for arrays), store the size in the first word and return the address after it, or zero.
pub closed spec fn alloc_code(array: bool) -> Seq<u8> {
    (if array { seq![0x48u8, 0x0f, 0xaf, 0xfe] } else { seq![] }) + seq![
        0x48u8, 0x83, 0xc7, 0x08, 0x48, 0x89, 0xfe, 0x31, 0xff, 0xba, 0x03, 0x00, 0x00, 0x00, 0x41, 0xba,
        0x22, 0x00, 0x00, 0x00, 0x49, 0xc7, 0xc0, 0xff, 0xff, 0xff, 0xff, 0x45, 0x31, 0xc9, 0xb8, 0x09,
        0x00, 0x00, 0x00, 0x0f, 0x05, 0x48, 0x85, 0xc0, 0x78, 0x08, 0x48, 0x89, 0x30, 0x48, 0x83, 0xc0,
        0x08, 0xc3, 0x31, 0xc0, 0xc3,
    ]
}

fn emit_alloc_runtime(code: &mut Vec<u8>, array: bool)
    requires
        has_room(old(code)@),
    ensures
        final(code)@ == old(code)@ + alloc_code(array),
{
    if array {
        push_bytes(code, &[0x48, 0x0f, 0xaf, 0xfe]);
    }
    push_bytes(
        code,
        &[
            0x48, 0x83, 0xc7, 0x08,
            0x48, 0x89, 0xfe,
            0x31, 0xff,
            0xba, 0x03, 0x00, 0x00, 0x00,
            0x41, 0xba, 0x22, 0x00, 0x00, 0x00,
            0x49, 0xc7, 0xc0, 0xff, 0xff, 0xff, 0xff,
            0x45, 0x31, 0xc9,
            0xb8, 0x09, 0x00, 0x00, 0x00, 0x0f, 0x05, 0x48, 0x85, 0xc0,
        ],
    );
    let failed = emit_short_jump_placeholder(code, 0x78);
    push_bytes(code, &[0x48, 0x89, 0x30, 0x48, 0x83, 0xc0, 0x08, 0xc3]);
    let failure = code.len();
    push_bytes(code, &[0x31, 0xc0, 0xc3]);
    patch_short_jump(code, failed, failure);
    assert(code@ =~= old(code)@ + alloc_code(array));
}

/// The machine code of the Linux file-open routines: `openat(AT_FDCWD, path, flags, mode)`,
/// with mode 0644 where the flags create files, returning the descriptor or -1.
pub closed spec fn file_open_code(flags: u32) -> Seq<u8> {
    seq![0x48u8, 0x83, 0xec, 0x18, 0x48, 0x89, 0x3c, 0x24, 0x48, 0x85, 0xff, 0x0f, 0x84]
        + crate::bytes::le32(if flags == 0 { 29 } else { 32 })
        + seq![0xbfu8, 0x9c, 0xff, 0xff, 0xff, 0x48, 0x8b, 0x34, 0x24, 0xba]
        + crate::bytes::le32(flags as int)
        + (if flags == 0 { seq![0x45u8, 0x31, 0xd2] } else { seq![0x41u8, 0xba, 0xa4, 0x01, 0x00, 0x00] })
        + seq![
            0xb8u8, 0x01, 0x01, 0x00, 0x00, 0x0f, 0x05, 0x48, 0x83, 0xc4, 0x18, 0xc3,
            0x48, 0xc7, 0xc0, 0xff, 0xff, 0xff, 0xff, 0x48, 0x83, 0xc4, 0x18, 0xc3,
        ]
}

#[verifier::spinoff_prover]
fn emit_file_open_runtime(code: &mut Vec<u8>, flags: u32)
    requires
        has_room(old(code)@),
    ensures
        final(code)@ == old(code)@ + file_open_code(flags),
{
    push_bytes(code, &[0x48, 0x83, 0xec, 0x18, 0x48, 0x89, 0x3c, 0x24, 0x48, 0x85, 0xff]);
    let null_path = emit_near_jump_placeholder(code, 0x0f, 0x84);
    push_bytes(code, &[0xbf, 0x9c, 0xff, 0xff, 0xff, 0x48, 0x8b, 0x34, 0x24]);
    code.push(0xba);
    crate::bytes::push_u32(code, flags);
    if flags == 0 {
        push_bytes(code, &[0x45, 0x31, 0xd2]);
    } else {
        push_bytes(code, &[0x41, 0xba, 0xa4, 0x01, 0x00, 0x00]);
    }
    push_bytes(code, &[0xb8, 0x01, 0x01, 0x00, 0x00, 0x0f, 0x05, 0x48, 0x83, 0xc4, 0x18, 0xc3]);
    let failure = code.len();
    push_bytes(code, &[0x48, 0xc7, 0xc0, 0xff, 0xff, 0xff, 0xff, 0x48, 0x83, 0xc4, 0x18, 0xc3]);
    patch_near_jump(code, null_path, failure);
    assert(code@ =~= old(code)@ + file_open_code(flags));
}

/// The machine code of the Linux `read_file_or` routine at position `at`: call `read_file`
/// at `read_file`, and return the fallback in the second argument where it fails.
pub closed spec fn read_file_or_code(at: int, read_file: int) -> Seq<u8> {
    seq![0x48u8, 0x83, 0xec, 0x18, 0x48, 0x89, 0x74, 0x24, 0x08, 0xe8]
        + crate::jumps::rel32_bytes(read_file - (at + 14))
        + seq![0x48u8, 0x85, 0xc0, 0x75, 0x05, 0x48, 0x8b, 0x44, 0x24, 0x08, 0x48, 0x83, 0xc4, 0x18, 0xc3]
}

pub(crate) fn emit_read_file_or_runtime(code: &mut Vec<u8>, read_file_offset: usize)
    requires
        old(code)@.len() < 0x1000_0000,
        read_file_offset < 0x1000_0000,
    ensures
        final(code)@ == old(code)@ + read_file_or_code(old(code)@.len() as int, read_file_offset as int),
{
    push_bytes(code, &[0x48, 0x83, 0xec, 0x18, 0x48, 0x89, 0x74, 0x24, 0x08]);
    emit_internal_call(code, read_file_offset);
    push_bytes(code, &[0x48, 0x85, 0xc0]);
    let has_value = code.len();
    push_bytes(code, &[0x75, 0x00]);
    push_bytes(code, &[0x48, 0x8b, 0x44, 0x24, 0x08]);
    let done = code.len();
    push_bytes(code, &[0x48, 0x83, 0xc4, 0x18, 0xc3]);
    patch_short_jump(code, has_value + 1, done);
    assert(code@ =~= old(code)@ + read_file_or_code(old(code)@.len() as int, read_file_offset as int));
}

/// The string length and code point routine that `name` calls for, where there is one.
pub closed spec fn length_routine_code(name: Seq<char>) -> Option<Seq<u8>> {
    if name == "__geo_bounds_check"@ {
        Some(bounds_check_code())
    } else if name == "string_len"@ {
        Some(string_len_code())
    } else if name == "string_utf8_len"@ {
        Some(string_utf8_len_code())
    } else if name == "string_utf8_codepoint_at"@ {
        Some(string_utf8_codepoint_at_code())
    } else if name == "string_is_utf8"@ {
        Some(string_utf8_valid_code())
    } else if name == "string_utf8_is_valid"@ {
        Some(string_utf8_valid_code())
    } else if name == "string_utf8_byte_offset"@ {
        Some(string_utf8_navigation_code(Utf8NavigationKind::ByteOffset))
    } else if name == "string_utf8_next_offset"@ {
        Some(string_utf8_navigation_code(Utf8NavigationKind::NextOffset))
    } else if name == "string_utf8_prev_offset"@ {
        Some(string_utf8_navigation_code(Utf8NavigationKind::PrevOffset))
    } else if name == "string_utf8_index_at"@ {
        Some(string_utf8_navigation_code(Utf8NavigationKind::IndexAt))
    } else if name == "string_utf8_is_boundary"@ {
        Some(string_utf8_navigation_code(Utf8NavigationKind::IsBoundary))
    } else {
        None
    }
}

/// Appends the string length and code point routine that `name` calls for, where there is one.
fn emit_length_routine(code: &mut Vec<u8>, name: &str) -> (emitted: bool)
    requires
        has_room(old(code)@),
    ensures
        emitted == length_routine_code(name@) is Some,
        emitted ==> final(code)@ == old(code)@ + length_routine_code(name@)->0,
        !emitted ==> final(code)@ == old(code)@,
        final(code)@.len() <= old(code)@.len() + 512,
{
    if str_eq(name, "__geo_bounds_check") {
        emit_bounds_check_runtime(code);
    } else if str_eq(name, "string_len") {
        emit_string_len_runtime(code);
    } else if str_eq(name, "string_utf8_len") {
        emit_string_utf8_len_runtime(code);
    } else if str_eq(name, "string_utf8_codepoint_at") {
        emit_string_utf8_codepoint_at_runtime(code);
        proof {
            crate::elf_utf8::lemma_codepoint_lengths();
        }
    } else if str_eq(name, "string_is_utf8") {
        emit_string_utf8_valid_runtime(code);
        proof {
            crate::elf_utf8::lemma_validation_length();
        }
    } else if str_eq(name, "string_utf8_is_valid") {
        emit_string_utf8_valid_runtime(code);
        proof {
            crate::elf_utf8::lemma_validation_length();
        }
    } else if str_eq(name, "string_utf8_byte_offset") {
        emit_string_utf8_navigation_runtime(code, Utf8NavigationKind::ByteOffset);
        proof {
            crate::elf_utf8::lemma_navigation_length(Utf8NavigationKind::ByteOffset);
        }
    } else if str_eq(name, "string_utf8_next_offset") {
        emit_string_utf8_navigation_runtime(code, Utf8NavigationKind::NextOffset);
        proof {
            crate::elf_utf8::lemma_navigation_length(Utf8NavigationKind::NextOffset);
        }
    } else if str_eq(name, "string_utf8_prev_offset") {
        emit_string_utf8_navigation_runtime(code, Utf8NavigationKind::PrevOffset);
        proof {
            crate::elf_utf8::lemma_navigation_length(Utf8NavigationKind::PrevOffset);
        }
    } else if str_eq(name, "string_utf8_index_at") {
        emit_string_utf8_navigation_runtime(code, Utf8NavigationKind::IndexAt);
        proof {
            crate::elf_utf8::lemma_navigation_length(Utf8NavigationKind::IndexAt);
        }
    } else if str_eq(name, "string_utf8_is_boundary") {
        emit_string_utf8_navigation_runtime(code, Utf8NavigationKind::IsBoundary);
        proof {
            crate::elf_utf8::lemma_navigation_length(Utf8NavigationKind::IsBoundary);
        }
    } else {
        return false;
    }
    true
}

/// The array routine that `name` calls for, where there is one.
pub closed spec fn array_routine_code(name: Seq<char>) -> Option<Seq<u8>> {
    if name == "array_new"@ {
        Some(array_new_code())
    } else if name == "array_clone"@ {
        Some(array_clone_code())
    } else if name == "array_reserve"@ {
        Some(array_reserve_code())
    } else if name == "array_len"@ {
        Some(array_len_code())
    } else if name == "array_capacity"@ {
        Some(array_capacity_code())
    } else if name == "array_is_empty"@ {
        Some(array_is_empty_code())
    } else if name == "array_get"@ {
        Some(array_get_code())
    } else if name == "array_set"@ {
        Some(array_set_code())
    } else if name == "array_push"@ {
        Some(array_push_code())
    } else if name == "array_truncate"@ {
        Some(array_truncate_code())
    } else if name == "array_pop"@ {
        Some(array_pop_code())
    } else if name == "array_pop_first"@ {
        Some(array_pop_first_code())
    } else if name == "array_swap"@ {
        Some(array_swap_code())
    } else if name == "array_swap_remove"@ {
        Some(array_swap_remove_code())
    } else if name == "array_remove"@ {
        Some(array_remove_code())
    } else if name == "array_insert"@ {
        Some(array_insert_code())
    } else if name == "array_extend"@ {
        Some(array_extend_code())
    } else if name == "array_copy"@ {
        Some(array_copy_code())
    } else if name == "array_resize"@ {
        Some(array_resize_code())
    } else if name == "array_first"@ {
        Some(array_first_code())
    } else if name == "array_last"@ {
        Some(array_last_code())
    } else if name == "array_fill"@ {
        Some(array_fill_code())
    } else if name == "array_reverse"@ {
        Some(array_reverse_code())
    } else if name == "array_index_of"@ {
        Some(array_search_code(false, false))
    } else if name == "array_last_index_of"@ {
        Some(array_search_code(true, false))
    } else if name == "array_contains"@ {
        Some(array_search_code(false, true))
    } else if name == "array_count"@ {
        Some(array_search_code(false, true))
    } else if name == "array_clear"@ {
        Some(array_clear_code())
    } else if name == "array_free"@ {
        Some(array_free_code())
    } else {
        None
    }
}

/// Appends the array routine that `name` calls for, where there is one.
fn emit_array_routine(code: &mut Vec<u8>, name: &str) -> (emitted: bool)
    requires
        has_room(old(code)@),
    ensures
        emitted == array_routine_code(name@) is Some,
        emitted ==> final(code)@ == old(code)@ + array_routine_code(name@)->0,
        !emitted ==> final(code)@ == old(code)@,
        final(code)@.len() <= old(code)@.len() + 512,
{
    if str_eq(name, "array_new") {
        emit_array_new_runtime(code);
    } else if str_eq(name, "array_clone") {
        emit_array_clone_runtime(code);
    } else if str_eq(name, "array_reserve") {
        emit_array_reserve_runtime(code);
    } else if str_eq(name, "array_len") {
        emit_array_len_runtime(code);
    } else if str_eq(name, "array_capacity") {
        emit_array_capacity_runtime(code);
    } else if str_eq(name, "array_is_empty") {
        emit_array_is_empty_runtime(code);
    } else if str_eq(name, "array_get") {
        emit_array_get_runtime(code);
    } else if str_eq(name, "array_set") {
        emit_array_set_runtime(code);
    } else if str_eq(name, "array_push") {
        emit_array_push_runtime(code);
    } else if str_eq(name, "array_truncate") {
        emit_array_truncate_runtime(code);
    } else if str_eq(name, "array_pop") {
        emit_array_pop_runtime(code);
    } else if str_eq(name, "array_pop_first") {
        emit_array_pop_first_runtime(code);
    } else if str_eq(name, "array_swap") {
        emit_array_swap_runtime(code);
    } else if str_eq(name, "array_swap_remove") {
        emit_array_swap_remove_runtime(code);
    } else if str_eq(name, "array_remove") {
        emit_array_remove_runtime(code);
    } else if str_eq(name, "array_insert") {
        emit_array_insert_runtime(code);
    } else if str_eq(name, "array_extend") {
        emit_array_extend_runtime(code);
    } else if str_eq(name, "array_copy") {
        emit_array_copy_runtime(code);
    } else if str_eq(name, "array_resize") {
        emit_array_resize_runtime(code);
    } else if str_eq(name, "array_first") {
        emit_array_first_runtime(code);
    } else if str_eq(name, "array_last") {
        emit_array_last_runtime(code);
    } else if str_eq(name, "array_fill") {
        emit_array_fill_runtime(code);
    } else if str_eq(name, "array_reverse") {
        emit_array_reverse_runtime(code);
    } else if str_eq(name, "array_index_of") {
        emit_array_index_of_runtime(code);
    } else if str_eq(name, "array_last_index_of") {
        emit_array_last_index_of_runtime(code);
    } else if str_eq(name, "array_contains") {
        emit_array_contains_runtime(code);
    } else if str_eq(name, "array_count") {
        emit_array_count_runtime(code);
    } else if str_eq(name, "array_clear") {
        emit_array_clear_runtime(code);
    } else if str_eq(name, "array_free") {
        emit_array_free_runtime(code);
    } else {
        return false;
    }
    true
}

/// The string search and comparison routine that `name` calls for, where there is one.
pub closed spec fn string_routine_code(name: Seq<char>) -> Option<Seq<u8>> {
    if name == "string_byte_at"@ {
        Some(string_byte_at_code())
    } else if name == "string_is_empty"@ {
        Some(string_is_empty_code())
    } else if name == "string_is_ascii"@ {
        Some(string_is_ascii_code())
    } else if name == "string_find_byte"@ {
        Some(string_find_byte_code())
    } else if name == "string_last_find_byte"@ {
        Some(string_last_find_byte_code())
    } else if name == "string_contains"@ {
        Some(string_contains_code())
    } else if name == "string_starts_with"@ {
        Some(string_starts_with_code())
    } else if name == "string_ends_with"@ {
        Some(string_ends_with_code())
    } else if name == "string_index_of"@ {
        Some(string_index_of_code())
    } else if name == "string_last_index_of"@ {
        Some(string_last_index_of_code())
    } else if name == "string_count"@ {
        Some(string_count_code())
    } else if name == "string_compare"@ {
        Some(string_compare_code(StringCompareKind::Compare))
    } else if name == "string_eq"@ {
        Some(string_compare_code(StringCompareKind::Equal))
    } else if name == "string_not_eq"@ {
        Some(string_compare_code(StringCompareKind::NotEqual))
    } else if name == "string_less"@ {
        Some(string_compare_code(StringCompareKind::Less))
    } else if name == "string_less_or_equal"@ {
        Some(string_compare_code(StringCompareKind::LessOrEqual))
    } else if name == "string_greater"@ {
        Some(string_compare_code(StringCompareKind::Greater))
    } else if name == "string_greater_or_equal"@ {
        Some(string_compare_code(StringCompareKind::GreaterOrEqual))
    } else {
        None
    }
}

/// Appends the string search and comparison routine that `name` calls for, where there is one.
fn emit_string_routine(code: &mut Vec<u8>, name: &str) -> (emitted: bool)
    requires
        has_room(old(code)@),
    ensures
        emitted == string_routine_code(name@) is Some,
        emitted ==> final(code)@ == old(code)@ + string_routine_code(name@)->0,
        !emitted ==> final(code)@ == old(code)@,
        final(code)@.len() <= old(code)@.len() + 512,
{
    if str_eq(name, "string_byte_at") {
        emit_string_byte_at_runtime(code);
    } else if str_eq(name, "string_is_empty") {
        emit_string_is_empty_runtime(code);
    } else if str_eq(name, "string_is_ascii") {
        emit_string_is_ascii_runtime(code);
    } else if str_eq(name, "string_find_byte") {
        emit_string_find_byte_runtime(code);
    } else if str_eq(name, "string_last_find_byte") {
        emit_string_last_find_byte_runtime(code);
    } else if str_eq(name, "string_contains") {
        emit_string_contains_runtime(code);
    } else if str_eq(name, "string_starts_with") {
        emit_string_starts_with_runtime(code);
    } else if str_eq(name, "string_ends_with") {
        emit_string_ends_with_runtime(code);
    } else if str_eq(name, "string_index_of") {
        emit_string_index_of_runtime(code);
    } else if str_eq(name, "string_last_index_of") {
        emit_string_last_index_of_runtime(code);
    } else if str_eq(name, "string_count") {
        emit_string_count_runtime(code);
    } else if str_eq(name, "string_compare") {
        emit_string_compare_runtime(code, StringCompareKind::Compare);
    } else if str_eq(name, "string_eq") {
        emit_string_compare_runtime(code, StringCompareKind::Equal);
    } else if str_eq(name, "string_not_eq") {
        emit_string_compare_runtime(code, StringCompareKind::NotEqual);
    } else if str_eq(name, "string_less") {
        emit_string_compare_runtime(code, StringCompareKind::Less);
    } else if str_eq(name, "string_less_or_equal") {
        emit_string_compare_runtime(code, StringCompareKind::LessOrEqual);
    } else if str_eq(name, "string_greater") {
        emit_string_compare_runtime(code, StringCompareKind::Greater);
    } else if str_eq(name, "string_greater_or_equal") {
        emit_string_compare_runtime(code, StringCompareKind::GreaterOrEqual);
    } else {
        return false;
    }
    true
}

/// The printing, allocation and memory routine that `name` calls for, where there is one.
pub closed spec fn memory_routine_code(name: Seq<char>) -> Option<Seq<u8>> {
    if name == "print"@ {
        Some(print_code(false, 1))
    } else if name == "println"@ {
        Some(print_code(true, 1))
    } else if name == "eprint"@ {
        Some(print_code(false, 2))
    } else if name == "string_concat"@ {
        Some(string_concat_code())
    } else if name == "exit_geo"@ {
        Some(exit_code())
    } else if name == "alloc"@ || name == "alloc_zeroed"@ {
        Some(alloc_code(false))
    } else if name == "alloc_array"@ {
        Some(alloc_code(true))
    } else if name == "free_geo"@ {
        Some(free_code())
    } else if name == "string_free"@ {
        Some(free_code())
    } else if name == "realloc_geo"@ {
        Some(realloc_code())
    } else if name == "alloc_copy"@ {
        Some(alloc_copy_code())
    } else if name == "mem_copy"@ {
        Some(mem_copy_code())
    } else if name == "mem_zero"@ {
        Some(mem_zero_code())
    } else if name == "mem_move"@ {
        Some(mem_move_code())
    } else if name == "mem_fill"@ {
        Some(mem_fill_code())
    } else if name == "mem_find"@ {
        Some(mem_find_code())
    } else if name == "mem_compare"@ {
        Some(mem_compare_code())
    } else if name == "mem_equal"@ {
        Some(mem_equal_code())
    } else if name == "mem_is_zero"@ {
        Some(mem_is_zero_code())
    } else if name == "mem_reverse"@ {
        Some(mem_reverse_code())
    } else {
        None
    }
}

/// Appends the printing, allocation and memory routine that `name` calls for, where there is one.
fn emit_memory_routine(code: &mut Vec<u8>, name: &str) -> (emitted: bool)
    requires
        has_room(old(code)@),
    ensures
        emitted == memory_routine_code(name@) is Some,
        emitted ==> final(code)@ == old(code)@ + memory_routine_code(name@)->0,
        !emitted ==> final(code)@ == old(code)@,
        final(code)@.len() <= old(code)@.len() + 512,
{
    if str_eq(name, "print") {
        emit_print_runtime(code, false, 1);
    } else if str_eq(name, "println") {
        emit_print_runtime(code, true, 1);
    } else if str_eq(name, "eprint") {
        emit_print_runtime(code, false, 2);
    } else if str_eq(name, "string_concat") {
        emit_string_concat_runtime(code);
    } else if str_eq(name, "exit_geo") {
        emit_exit_runtime(code);
    } else if str_eq(name, "alloc") || str_eq(name, "alloc_zeroed") {
        emit_alloc_runtime(code, false);
    } else if str_eq(name, "alloc_array") {
        emit_alloc_runtime(code, true);
    } else if str_eq(name, "free_geo") {
        emit_free_runtime(code);
    } else if str_eq(name, "string_free") {
        emit_free_runtime(code);
    } else if str_eq(name, "realloc_geo") {
        emit_realloc_runtime(code);
    } else if str_eq(name, "alloc_copy") {
        emit_alloc_copy_runtime(code);
    } else if str_eq(name, "mem_copy") {
        emit_mem_copy_runtime(code);
    } else if str_eq(name, "mem_zero") {
        emit_mem_zero_runtime(code);
    } else if str_eq(name, "mem_move") {
        emit_mem_move_runtime(code);
    } else if str_eq(name, "mem_fill") {
        emit_mem_fill_runtime(code);
    } else if str_eq(name, "mem_find") {
        emit_mem_find_runtime(code);
    } else if str_eq(name, "mem_compare") {
        emit_mem_compare_runtime(code);
    } else if str_eq(name, "mem_equal") {
        emit_mem_equal_runtime(code);
    } else if str_eq(name, "mem_is_zero") {
        emit_mem_is_zero_runtime(code);
    } else if str_eq(name, "mem_reverse") {
        emit_mem_reverse_runtime(code);
    } else {
        return false;
    }
    true
}

/// The value-to-string conversion and string copying routine that `name` calls for, where there is one.
pub closed spec fn conversion_routine_code(name: Seq<char>) -> Option<Seq<u8>> {
    if name == "string_from_byte"@ {
        Some(string_from_byte_code())
    } else if name == "int_to_string"@ || name == "usize_to_string"@ {
        Some(integer_to_string_code())
    } else if name == "bool_to_string"@ {
        Some(bool_to_string_code())
    } else if name == "string_clone"@ {
        Some(string_clone_code())
    } else if name == "string_slice"@ {
        Some(string_slice_code())
    } else {
        None
    }
}

/// Appends the value-to-string conversion and string copying routine that `name` calls for, where there is one.
fn emit_conversion_routine(code: &mut Vec<u8>, name: &str) -> (emitted: bool)
    requires
        has_room(old(code)@),
    ensures
        emitted == conversion_routine_code(name@) is Some,
        emitted ==> final(code)@ == old(code)@ + conversion_routine_code(name@)->0,
        !emitted ==> final(code)@ == old(code)@,
        final(code)@.len() <= old(code)@.len() + 512,
{
    if str_eq(name, "string_from_byte") {
        emit_string_from_byte_runtime(code);
    } else if str_eq(name, "int_to_string") || str_eq(name, "usize_to_string") {
        emit_integer_to_string_runtime(code);
    } else if str_eq(name, "bool_to_string") {
        emit_bool_to_string_runtime(code);
    } else if str_eq(name, "string_clone") {
        emit_string_clone_runtime(code);
    } else if str_eq(name, "string_slice") {
        emit_string_slice_runtime(code);
    } else {
        return false;
    }
    true
}

/// The file routine that `name` calls for, where there is one.
pub closed spec fn file_routine_code(name: Seq<char>) -> Option<Seq<u8>> {
    if name == "write_file"@ {
        Some(write_file_code())
    } else if name == "append_file"@ {
        Some(append_file_code())
    } else if name == "touch_file"@ {
        Some(touch_file_code())
    } else if name == "remove_file"@ {
        Some(remove_file_code())
    } else if name == "file_open"@ {
        Some(file_open_code(0))
    } else if name == "file_open_write"@ {
        Some(file_open_code(0x241))
    } else if name == "file_open_append"@ {
        Some(file_open_code(0x441))
    } else if name == "file_write"@ {
        Some(file_write_code())
    } else if name == "file_close"@ {
        Some(file_close_code())
    } else if name == "file_read"@ || name == "file_read_to_string"@ {
        Some(file_read_to_string_code())
    } else if name == "file_exists"@ {
        Some(file_exists_code())
    } else if name == "file_is_file"@ {
        Some(file_stat_code(FileStatKind::File))
    } else if name == "file_is_dir"@ {
        Some(file_stat_code(FileStatKind::Directory))
    } else if name == "file_is_empty"@ {
        Some(file_stat_code(FileStatKind::Empty))
    } else if name == "file_size"@ {
        Some(file_stat_code(FileStatKind::Size))
    } else if name == "read_file"@ {
        Some(read_file_code())
    } else if name == "read_line"@ {
        Some(read_line_code())
    } else {
        None
    }
}

/// Appends the file routine that `name` calls for, where there is one.
fn emit_file_routine(code: &mut Vec<u8>, name: &str) -> (emitted: bool)
    requires
        has_room(old(code)@),
    ensures
        emitted == file_routine_code(name@) is Some,
        emitted ==> final(code)@ == old(code)@ + file_routine_code(name@)->0,
        !emitted ==> final(code)@ == old(code)@,
        final(code)@.len() <= old(code)@.len() + 512,
{
    if str_eq(name, "write_file") {
        emit_write_file_runtime(code);
    } else if str_eq(name, "append_file") {
        emit_append_file_runtime(code);
    } else if str_eq(name, "touch_file") {
        emit_touch_file_runtime(code);
    } else if str_eq(name, "remove_file") {
        emit_remove_file_runtime(code);
    } else if str_eq(name, "file_open") {
        emit_file_open_runtime(code, 0);
    } else if str_eq(name, "file_open_write") {
        emit_file_open_runtime(code, 0x241);
    } else if str_eq(name, "file_open_append") {
        emit_file_open_runtime(code, 0x441);
    } else if str_eq(name, "file_write") {
        emit_file_write_runtime(code);
    } else if str_eq(name, "file_close") {
        emit_file_close_runtime(code);
    } else if str_eq(name, "file_read") || str_eq(name, "file_read_to_string") {
        emit_file_read_to_string_runtime(code);
    } else if str_eq(name, "file_exists") {
        emit_file_exists_runtime(code);
    } else if str_eq(name, "file_is_file") {
        emit_file_stat_runtime(code, FileStatKind::File);
    } else if str_eq(name, "file_is_dir") {
        emit_file_stat_runtime(code, FileStatKind::Directory);
    } else if str_eq(name, "file_is_empty") {
        emit_file_stat_runtime(code, FileStatKind::Empty);
    } else if str_eq(name, "file_size") {
        emit_file_stat_runtime(code, FileStatKind::Size);
    } else if str_eq(name, "read_file") {
        emit_read_file_runtime(code);
    } else if str_eq(name, "read_line") {
        emit_read_line_runtime(code);
    } else {
        return false;
    }
    true
}

/// The runtime routine that `name` calls for, where there is one that needs no other routine.
pub closed spec fn runtime_routine_code(name: Seq<char>) -> Option<Seq<u8>> {
    if length_routine_code(name) is Some {
        length_routine_code(name)
    } else if array_routine_code(name) is Some {
        array_routine_code(name)
    } else if string_routine_code(name) is Some {
        string_routine_code(name)
    } else if memory_routine_code(name) is Some {
        memory_routine_code(name)
    } else if conversion_routine_code(name) is Some {
        conversion_routine_code(name)
    } else {
        file_routine_code(name)
    }
}

/// Appends the runtime routine that `name` calls for, where there is one that needs no
/// other routine, and says whether there was.
pub(crate) fn emit_runtime_routine(code: &mut Vec<u8>, name: &str) -> (emitted: bool)
    requires
        has_room(old(code)@),
    ensures
        emitted == runtime_routine_code(name@) is Some,
        emitted ==> final(code)@ == old(code)@ + runtime_routine_code(name@)->0,
        !emitted ==> final(code)@ == old(code)@,
        final(code)@.len() <= old(code)@.len() + 512,
{
    emit_length_routine(code, name) || emit_array_routine(code, name) || emit_string_routine(code, name)
        || emit_memory_routine(code, name) || emit_conversion_routine(code, name) || emit_file_routine(code, name)
}

proof fn lemma_codepoint_at_is_a_length_routine()
    ensures
        length_routine_code("string_utf8_codepoint_at"@) == Some(string_utf8_codepoint_at_code()),
{
    reveal_strlit("string_utf8_codepoint_at");
    assert("string_utf8_codepoint_at"@.len() == 24);
    reveal_strlit("__geo_bounds_check");
    assert("__geo_bounds_check"@.len() == 18);
    reveal_strlit("string_len");
    assert("string_len"@.len() == 10);
    reveal_strlit("string_utf8_len");
    assert("string_utf8_len"@.len() == 15);
}

proof fn lemma_read_file_is_no_length_routine()
    ensures
        length_routine_code("read_file"@) is None,
{
    reveal_strlit("read_file");
    assert("read_file"@.len() == 9);
    reveal_strlit("__geo_bounds_check");
    assert("__geo_bounds_check"@.len() == 18);
    reveal_strlit("string_len");
    assert("string_len"@.len() == 10);
    reveal_strlit("string_utf8_len");
    assert("string_utf8_len"@.len() == 15);
    reveal_strlit("string_utf8_codepoint_at");
    assert("string_utf8_codepoint_at"@.len() == 24);
    reveal_strlit("string_is_utf8");
    assert("string_is_utf8"@.len() == 14);
    reveal_strlit("string_utf8_is_valid");
    assert("string_utf8_is_valid"@.len() == 20);
    reveal_strlit("string_utf8_byte_offset");
    assert("string_utf8_byte_offset"@.len() == 23);
    reveal_strlit("string_utf8_next_offset");
    assert("string_utf8_next_offset"@.len() == 23);
    reveal_strlit("string_utf8_prev_offset");
    assert("string_utf8_prev_offset"@.len() == 23);
    reveal_strlit("string_utf8_index_at");
    assert("string_utf8_index_at"@.len() == 20);
    reveal_strlit("string_utf8_is_boundary");
    assert("string_utf8_is_boundary"@.len() == 23);
}

proof fn lemma_read_file_is_no_array_routine()
    ensures
        array_routine_code("read_file"@) is None,
{
    reveal_strlit("read_file");
    assert("read_file"@.len() == 9);
    reveal_strlit("array_new");
    assert("array_new"@[0] == 'a');
    assert("read_file"@[0] == 'r');
    reveal_strlit("array_clone");
    assert("array_clone"@.len() == 11);
    reveal_strlit("array_reserve");
    assert("array_reserve"@.len() == 13);
    reveal_strlit("array_len");
    assert("array_len"@[0] == 'a');
    assert("read_file"@[0] == 'r');
    reveal_strlit("array_capacity");
    assert("array_capacity"@.len() == 14);
    reveal_strlit("array_is_empty");
    assert("array_is_empty"@.len() == 14);
    reveal_strlit("array_get");
    assert("array_get"@[0] == 'a');
    assert("read_file"@[0] == 'r');
    reveal_strlit("array_set");
    assert("array_set"@[0] == 'a');
    assert("read_file"@[0] == 'r');
    reveal_strlit("array_push");
    assert("array_push"@.len() == 10);
    reveal_strlit("array_truncate");
    assert("array_truncate"@.len() == 14);
    reveal_strlit("array_pop");
    assert("array_pop"@[0] == 'a');
    assert("read_file"@[0] == 'r');
    reveal_strlit("array_pop_first");
    assert("array_pop_first"@.len() == 15);
    reveal_strlit("array_swap");
    assert("array_swap"@.len() == 10);
    reveal_strlit("array_swap_remove");
    assert("array_swap_remove"@.len() == 17);
    reveal_strlit("array_remove");
    assert("array_remove"@.len() == 12);
    reveal_strlit("array_insert");
    assert("array_insert"@.len() == 12);
    reveal_strlit("array_extend");
    assert("array_extend"@.len() == 12);
    reveal_strlit("array_copy");
    assert("array_copy"@.len() == 10);
    reveal_strlit("array_resize");
    assert("array_resize"@.len() == 12);
    reveal_strlit("array_first");
    assert("array_first"@.len() == 11);
    reveal_strlit("array_last");
    assert("array_last"@.len() == 10);
    reveal_strlit("array_fill");
    assert("array_fill"@.len() == 10);
    reveal_strlit("array_reverse");
    assert("array_reverse"@.len() == 13);
    reveal_strlit("array_index_of");
    assert("array_index_of"@.len() == 14);
    reveal_strlit("array_last_index_of");
    assert("array_last_index_of"@.len() == 19);
    reveal_strlit("array_contains");
    assert("array_contains"@.len() == 14);
    reveal_strlit("array_count");
    assert("array_count"@.len() == 11);
    reveal_strlit("array_clear");
    assert("array_clear"@.len() == 11);
    reveal_strlit("array_free");
    assert("array_free"@.len() == 10);
}

proof fn lemma_read_file_is_no_string_routine()
    ensures
        string_routine_code("read_file"@) is None,
{
    reveal_strlit("read_file");
    assert("read_file"@.len() == 9);
    reveal_strlit("string_byte_at");
    assert("string_byte_at"@.len() == 14);
    reveal_strlit("string_is_empty");
    assert("string_is_empty"@.len() == 15);
    reveal_strlit("string_is_ascii");
    assert("string_is_ascii"@.len() == 15);
    reveal_strlit("string_find_byte");
    assert("string_find_byte"@.len() == 16);
    reveal_strlit("string_last_find_byte");
    assert("string_last_find_byte"@.len() == 21);
    reveal_strlit("string_contains");
    assert("string_contains"@.len() == 15);
    reveal_strlit("string_starts_with");
    assert("string_starts_with"@.len() == 18);
    reveal_strlit("string_ends_with");
    assert("string_ends_with"@.len() == 16);
    reveal_strlit("string_index_of");
    assert("string_index_of"@.len() == 15);
    reveal_strlit("string_last_index_of");
    assert("string_last_index_of"@.len() == 20);
    reveal_strlit("string_count");
    assert("string_count"@.len() == 12);
    reveal_strlit("string_compare");
    assert("string_compare"@.len() == 14);
    reveal_strlit("string_eq");
    assert("string_eq"@[0] == 's');
    assert("read_file"@[0] == 'r');
    reveal_strlit("string_not_eq");
    assert("string_not_eq"@.len() == 13);
    reveal_strlit("string_less");
    assert("string_less"@.len() == 11);
    reveal_strlit("string_less_or_equal");
    assert("string_less_or_equal"@.len() == 20);
    reveal_strlit("string_greater");
    assert("string_greater"@.len() == 14);
    reveal_strlit("string_greater_or_equal");
    assert("string_greater_or_equal"@.len() == 23);
}

proof fn lemma_read_file_is_no_memory_routine()
    ensures
        memory_routine_code("read_file"@) is None,
{
    reveal_strlit("read_file");
    assert("read_file"@.len() == 9);
    reveal_strlit("print");
    assert("print"@.len() == 5);
    reveal_strlit("println");
    assert("println"@.len() == 7);
    reveal_strlit("eprint");
    assert("eprint"@.len() == 6);
    reveal_strlit("string_concat");
    assert("string_concat"@.len() == 13);
    reveal_strlit("exit_geo");
    assert("exit_geo"@.len() == 8);
    reveal_strlit("alloc");
    assert("alloc"@.len() == 5);
    reveal_strlit("alloc_zeroed");
    assert("alloc_zeroed"@.len() == 12);
    reveal_strlit("alloc_array");
    assert("alloc_array"@.len() == 11);
    reveal_strlit("free_geo");
    assert("free_geo"@.len() == 8);
    reveal_strlit("string_free");
    assert("string_free"@.len() == 11);
    reveal_strlit("realloc_geo");
    assert("realloc_geo"@.len() == 11);
    reveal_strlit("alloc_copy");
    assert("alloc_copy"@.len() == 10);
    reveal_strlit("mem_copy");
    assert("mem_copy"@.len() == 8);
    reveal_strlit("mem_zero");
    assert("mem_zero"@.len() == 8);
    reveal_strlit("mem_move");
    assert("mem_move"@.len() == 8);
    reveal_strlit("mem_fill");
    assert("mem_fill"@.len() == 8);
    reveal_strlit("mem_find");
    assert("mem_find"@.len() == 8);
    reveal_strlit("mem_compare");
    assert("mem_compare"@.len() == 11);
    reveal_strlit("mem_equal");
    assert("mem_equal"@[0] == 'm');
    assert("read_file"@[0] == 'r');
    reveal_strlit("mem_is_zero");
    assert("mem_is_zero"@.len() == 11);
    reveal_strlit("mem_reverse");
    assert("mem_reverse"@.len() == 11);
}

proof fn lemma_read_file_is_no_conversion_routine()
    ensures
        conversion_routine_code("read_file"@) is None,
{
    reveal_strlit("read_file");
    assert("read_file"@.len() == 9);
    reveal_strlit("string_from_byte");
    assert("string_from_byte"@.len() == 16);
    reveal_strlit("int_to_string");
    assert("int_to_string"@.len() == 13);
    reveal_strlit("usize_to_string");
    assert("usize_to_string"@.len() == 15);
    reveal_strlit("bool_to_string");
    assert("bool_to_string"@.len() == 14);
    reveal_strlit("string_clone");
    assert("string_clone"@.len() == 12);
    reveal_strlit("string_slice");
    assert("string_slice"@.len() == 12);
}

proof fn lemma_read_file_is_a_file_routine()
    ensures
        file_routine_code("read_file"@) == Some(read_file_code()),
{
    reveal_strlit("read_file");
    assert("read_file"@.len() == 9);
    reveal_strlit("write_file");
    assert("write_file"@.len() == 10);
    reveal_strlit("append_file");
    assert("append_file"@.len() == 11);
    reveal_strlit("touch_file");
    assert("touch_file"@.len() == 10);
    reveal_strlit("remove_file");
    assert("remove_file"@.len() == 11);
    reveal_strlit("file_open");
    assert("file_open"@[0] == 'f');
    assert("read_file"@[0] == 'r');
    reveal_strlit("file_open_write");
    assert("file_open_write"@.len() == 15);
    reveal_strlit("file_open_append");
    assert("file_open_append"@.len() == 16);
    reveal_strlit("file_write");
    assert("file_write"@.len() == 10);
    reveal_strlit("file_close");
    assert("file_close"@.len() == 10);
    reveal_strlit("file_read");
    assert("file_read"@[0] == 'f');
    assert("read_file"@[0] == 'r');
    reveal_strlit("file_read_to_string");
    assert("file_read_to_string"@.len() == 19);
    reveal_strlit("file_exists");
    assert("file_exists"@.len() == 11);
    reveal_strlit("file_is_file");
    assert("file_is_file"@.len() == 12);
    reveal_strlit("file_is_dir");
    assert("file_is_dir"@.len() == 11);
    reveal_strlit("file_is_empty");
    assert("file_is_empty"@.len() == 13);
    reveal_strlit("file_size");
    assert("file_size"@[0] == 'f');
    assert("read_file"@[0] == 'r');
}


proof fn lemma_string_len_is_a_length_routine()
    ensures
        length_routine_code("string_len"@) == Some(string_len_code()),
{
    reveal_strlit("string_len");
    assert("string_len"@.len() == 10);
    reveal_strlit("__geo_bounds_check");
    assert("__geo_bounds_check"@.len() == 18);
}

proof fn lemma_byte_offset_is_a_length_routine()
    ensures
        length_routine_code("string_utf8_byte_offset"@) == Some(string_utf8_navigation_code(Utf8NavigationKind::ByteOffset)),
{
    reveal_strlit("string_utf8_byte_offset");
    assert("string_utf8_byte_offset"@.len() == 23);
    reveal_strlit("__geo_bounds_check");
    assert("__geo_bounds_check"@.len() == 18);
    reveal_strlit("string_len");
    assert("string_len"@.len() == 10);
    reveal_strlit("string_utf8_len");
    assert("string_utf8_len"@.len() == 15);
    reveal_strlit("string_utf8_codepoint_at");
    assert("string_utf8_codepoint_at"@.len() == 24);
    reveal_strlit("string_is_utf8");
    assert("string_is_utf8"@.len() == 14);
    reveal_strlit("string_utf8_is_valid");
    assert("string_utf8_is_valid"@.len() == 20);
}

proof fn lemma_string_slice_is_no_length_routine()
    ensures
        length_routine_code("string_slice"@) is None,
{
    reveal_strlit("string_slice");
    assert("string_slice"@.len() == 12);
    reveal_strlit("__geo_bounds_check");
    assert("__geo_bounds_check"@.len() == 18);
    reveal_strlit("string_len");
    assert("string_len"@.len() == 10);
    reveal_strlit("string_utf8_len");
    assert("string_utf8_len"@.len() == 15);
    reveal_strlit("string_utf8_codepoint_at");
    assert("string_utf8_codepoint_at"@.len() == 24);
    reveal_strlit("string_is_utf8");
    assert("string_is_utf8"@.len() == 14);
    reveal_strlit("string_utf8_is_valid");
    assert("string_utf8_is_valid"@.len() == 20);
    reveal_strlit("string_utf8_byte_offset");
    assert("string_utf8_byte_offset"@.len() == 23);
    reveal_strlit("string_utf8_next_offset");
    assert("string_utf8_next_offset"@.len() == 23);
    reveal_strlit("string_utf8_prev_offset");
    assert("string_utf8_prev_offset"@.len() == 23);
    reveal_strlit("string_utf8_index_at");
    assert("string_utf8_index_at"@.len() == 20);
    reveal_strlit("string_utf8_is_boundary");
    assert("string_utf8_is_boundary"@.len() == 23);
}

proof fn lemma_string_slice_is_no_array_routine()
    ensures
        array_routine_code("string_slice"@) is None,
{
    reveal_strlit("string_slice");
    assert("string_slice"@.len() == 12);
    reveal_strlit("array_new");
    assert("array_new"@.len() == 9);
    reveal_strlit("array_clone");
    assert("array_clone"@.len() == 11);
    reveal_strlit("array_reserve");
    assert("array_reserve"@.len() == 13);
    reveal_strlit("array_len");
    assert("array_len"@.len() == 9);
    reveal_strlit("array_capacity");
    assert("array_capacity"@.len() == 14);
    reveal_strlit("array_is_empty");
    assert("array_is_empty"@.len() == 14);
    reveal_strlit("array_get");
    assert("array_get"@.len() == 9);
    reveal_strlit("array_set");
    assert("array_set"@.len() == 9);
    reveal_strlit("array_push");
    assert("array_push"@.len() == 10);
    reveal_strlit("array_truncate");
    assert("array_truncate"@.len() == 14);
    reveal_strlit("array_pop");
    assert("array_pop"@.len() == 9);
    reveal_strlit("array_pop_first");
    assert("array_pop_first"@.len() == 15);
    reveal_strlit("array_swap");
    assert("array_swap"@.len() == 10);
    reveal_strlit("array_swap_remove");
    assert("array_swap_remove"@.len() == 17);
    reveal_strlit("array_remove");
    assert("array_remove"@[0] == 'a');
    assert("string_slice"@[0] == 's');
    reveal_strlit("array_insert");
    assert("array_insert"@[0] == 'a');
    assert("string_slice"@[0] == 's');
    reveal_strlit("array_extend");
    assert("array_extend"@[0] == 'a');
    assert("string_slice"@[0] == 's');
    reveal_strlit("array_copy");
    assert("array_copy"@.len() == 10);
    reveal_strlit("array_resize");
    assert("array_resize"@[0] == 'a');
    assert("string_slice"@[0] == 's');
    reveal_strlit("array_first");
    assert("array_first"@.len() == 11);
    reveal_strlit("array_last");
    assert("array_last"@.len() == 10);
    reveal_strlit("array_fill");
    assert("array_fill"@.len() == 10);
    reveal_strlit("array_reverse");
    assert("array_reverse"@.len() == 13);
    reveal_strlit("array_index_of");
    assert("array_index_of"@.len() == 14);
    reveal_strlit("array_last_index_of");
    assert("array_last_index_of"@.len() == 19);
    reveal_strlit("array_contains");
    assert("array_contains"@.len() == 14);
    reveal_strlit("array_count");
    assert("array_count"@.len() == 11);
    reveal_strlit("array_clear");
    assert("array_clear"@.len() == 11);
    reveal_strlit("array_free");
    assert("array_free"@.len() == 10);
}

proof fn lemma_string_slice_is_no_string_routine()
    ensures
        string_routine_code("string_slice"@) is None,
{
    reveal_strlit("string_slice");
    assert("string_slice"@.len() == 12);
    reveal_strlit("string_byte_at");
    assert("string_byte_at"@.len() == 14);
    reveal_strlit("string_is_empty");
    assert("string_is_empty"@.len() == 15);
    reveal_strlit("string_is_ascii");
    assert("string_is_ascii"@.len() == 15);
    reveal_strlit("string_find_byte");
    assert("string_find_byte"@.len() == 16);
    reveal_strlit("string_last_find_byte");
    assert("string_last_find_byte"@.len() == 21);
    reveal_strlit("string_contains");
    assert("string_contains"@.len() == 15);
    reveal_strlit("string_starts_with");
    assert("string_starts_with"@.len() == 18);
    reveal_strlit("string_ends_with");
    assert("string_ends_with"@.len() == 16);
    reveal_strlit("string_index_of");
    assert("string_index_of"@.len() == 15);
    reveal_strlit("string_last_index_of");
    assert("string_last_index_of"@.len() == 20);
    reveal_strlit("string_count");
    assert("string_count"@[7] == 'c');
    assert("string_slice"@[7] == 's');
    reveal_strlit("string_compare");
    assert("string_compare"@.len() == 14);
    reveal_strlit("string_eq");
    assert("string_eq"@.len() == 9);
    reveal_strlit("string_not_eq");
    assert("string_not_eq"@.len() == 13);
    reveal_strlit("string_less");
    assert("string_less"@.len() == 11);
    reveal_strlit("string_less_or_equal");
    assert("string_less_or_equal"@.len() == 20);
    reveal_strlit("string_greater");
    assert("string_greater"@.len() == 14);
    reveal_strlit("string_greater_or_equal");
    assert("string_greater_or_equal"@.len() == 23);
}

proof fn lemma_string_slice_is_no_memory_routine()
    ensures
        memory_routine_code("string_slice"@) is None,
{
    reveal_strlit("string_slice");
    assert("string_slice"@.len() == 12);
    reveal_strlit("print");
    assert("print"@.len() == 5);
    reveal_strlit("println");
    assert("println"@.len() == 7);
    reveal_strlit("eprint");
    assert("eprint"@.len() == 6);
    reveal_strlit("string_concat");
    assert("string_concat"@.len() == 13);
    reveal_strlit("exit_geo");
    assert("exit_geo"@.len() == 8);
    reveal_strlit("alloc");
    assert("alloc"@.len() == 5);
    reveal_strlit("alloc_zeroed");
    assert("alloc_zeroed"@[0] == 'a');
    assert("string_slice"@[0] == 's');
    reveal_strlit("alloc_array");
    assert("alloc_array"@.len() == 11);
    reveal_strlit("free_geo");
    assert("free_geo"@.len() == 8);
    reveal_strlit("string_free");
    assert("string_free"@.len() == 11);
    reveal_strlit("realloc_geo");
    assert("realloc_geo"@.len() == 11);
    reveal_strlit("alloc_copy");
    assert("alloc_copy"@.len() == 10);
    reveal_strlit("mem_copy");
    assert("mem_copy"@.len() == 8);
    reveal_strlit("mem_zero");
    assert("mem_zero"@.len() == 8);
    reveal_strlit("mem_move");
    assert("mem_move"@.len() == 8);
    reveal_strlit("mem_fill");
    assert("mem_fill"@.len() == 8);
    reveal_strlit("mem_find");
    assert("mem_find"@.len() == 8);
    reveal_strlit("mem_compare");
    assert("mem_compare"@.len() == 11);
    reveal_strlit("mem_equal");
    assert("mem_equal"@.len() == 9);
    reveal_strlit("mem_is_zero");
    assert("mem_is_zero"@.len() == 11);
    reveal_strlit("mem_reverse");
    assert("mem_reverse"@.len() == 11);
}

proof fn lemma_string_slice_is_a_conversion_routine()
    ensures
        conversion_routine_code("string_slice"@) == Some(string_slice_code()),
{
    reveal_strlit("string_slice");
    assert("string_slice"@.len() == 12);
    reveal_strlit("string_from_byte");
    assert("string_from_byte"@.len() == 16);
    reveal_strlit("int_to_string");
    assert("int_to_string"@.len() == 13);
    reveal_strlit("usize_to_string");
    assert("usize_to_string"@.len() == 15);
    reveal_strlit("bool_to_string");
    assert("bool_to_string"@.len() == 14);
    reveal_strlit("string_clone");
    assert("string_clone"@[7] == 'c');
    assert("string_slice"@[7] == 's');
}

/// The routines that other routines call: `read_file`, the code point decoder, the byte
/// offset of a character, the string length and the byte slice.
pub proof fn lemma_dependency_routines()
    ensures
        runtime_routine_code("read_file"@) == Some(read_file_code()),
        runtime_routine_code("string_utf8_codepoint_at"@) == Some(string_utf8_codepoint_at_code()),
        runtime_routine_code("string_utf8_byte_offset"@) == Some(string_utf8_navigation_code(Utf8NavigationKind::ByteOffset)),
        runtime_routine_code("string_len"@) == Some(string_len_code()),
        runtime_routine_code("string_slice"@) == Some(string_slice_code()),
        read_file_code().len() <= 512,
        string_utf8_codepoint_at_code().len() <= 512,
        forall|at: int, read_file: int| #[trigger] read_file_or_code(at, read_file).len() <= 512,
        string_utf8_navigation_code(Utf8NavigationKind::ByteOffset).len() <= 192,
        string_len_code().len() <= 64,
        string_slice_code().len() <= 256,
{
    lemma_read_file_is_no_length_routine();
    lemma_read_file_is_no_array_routine();
    lemma_read_file_is_no_string_routine();
    lemma_read_file_is_no_memory_routine();
    lemma_read_file_is_no_conversion_routine();
    lemma_read_file_is_a_file_routine();
    lemma_codepoint_at_is_a_length_routine();
    crate::elf_utf8::lemma_codepoint_lengths();
    crate::elf_utf8::lemma_navigation_length(Utf8NavigationKind::ByteOffset);
    lemma_string_len_is_a_length_routine();
    lemma_byte_offset_is_a_length_routine();
    lemma_string_slice_is_no_length_routine();
    lemma_string_slice_is_no_array_routine();
    lemma_string_slice_is_no_string_routine();
    lemma_string_slice_is_no_memory_routine();
    lemma_string_slice_is_a_conversion_routine();
    assert(read_file_code().len() == 195);
    assert(string_len_code().len() < 64);
    assert(string_slice_code().len() == 217);
}

} // verus!
