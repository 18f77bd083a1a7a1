//! Machine code of the Windows helper routines that PE images carry.
//!
//! Each helper is a fixed byte sequence; its emitter appends exactly that sequence,
//! with every internal jump resolved against the helper's own labels.
use vstd::prelude::*;
use crate::bytes::{has_room, push_bytes};
use crate::elf_utf8::emit_utf8_continuation_check;
use crate::jumps::{emit_near_jump_placeholder, emit_near_unconditional_placeholder, emit_short_jump_back, emit_short_jump_placeholder, patch_jump, patch_short_jump};

verus! {

/// The machine code of the Windows `string_len` helper routine.
pub open spec fn string_len_code() -> Seq<u8> {
    seq![
        0x48u8, 0x31, 0xc0, 0x80, 0x3c, 0x01, 0x00, 0x74, 0x05, 0x48, 0xff, 0xc0, 0xeb, 0xf5, 0xc3,
    ]
}

pub(crate) fn emit_string_len_helper(code: &mut Vec<u8>)
    requires
        has_room(old(code)@),
    ensures
        final(code)@ == old(code)@ + string_len_code(),
        final(code)@.len() == old(code)@.len() + 15,
{
    push_bytes(
        code,
        &[
            0x48, 0x31, 0xc0,
            0x80, 0x3c, 0x01, 0x00,
            0x74, 0x05,
            0x48, 0xff, 0xc0,
            0xeb, 0xf5,
            0xc3,
        ],
    );
    assert(code@ =~= old(code)@ + string_len_code());
}

/// The machine code of the Windows `string_utf8_len` helper routine.
pub open spec fn string_utf8_len_code() -> Seq<u8> {
    seq![
        0x48u8, 0x85, 0xc9, 0x74, 0x20, 0x48, 0x89, 0xca, 0x31, 0xc0, 0x44, 0x8a, 0x02, 0x45, 0x84, 0xc0,
        0x74, 0x12, 0x41, 0x80, 0xe0, 0xc0, 0x41, 0x80, 0xf8, 0x80, 0x74, 0x03, 0x48, 0xff, 0xc0, 0x48,
        0xff, 0xc2, 0xeb, 0xe6, 0xc3, 0x31, 0xc0, 0xc3,
    ]
}

#[verifier::spinoff_prover]
#[verifier::rlimit(100)]
pub(crate) fn emit_string_utf8_len_helper(code: &mut Vec<u8>)
    requires
        has_room(old(code)@),
    ensures
        final(code)@ == old(code)@ + string_utf8_len_code(),
        final(code)@.len() == old(code)@.len() + 40,
{
    push_bytes(code, &[0x48, 0x85, 0xc9]);
    let null_value = emit_short_jump_placeholder(code, 0x74);
    push_bytes(code, &[0x48, 0x89, 0xca, 0x31, 0xc0]);
    let loop_start = code.len();
    push_bytes(code, &[0x44, 0x8a, 0x02, 0x45, 0x84, 0xc0]);
    let done = emit_short_jump_placeholder(code, 0x74);
    push_bytes(code, &[0x41, 0x80, 0xe0, 0xc0, 0x41, 0x80, 0xf8, 0x80]);
    let continuation = emit_short_jump_placeholder(code, 0x74);
    push_bytes(code, &[0x48, 0xff, 0xc0]);
    let next = code.len();
    push_bytes(code, &[0x48, 0xff, 0xc2]);
    emit_short_jump_back(code, loop_start);
    let done_target = code.len();
    push_bytes(code, &[0xc3]);
    let null_target = code.len();
    push_bytes(code, &[0x31, 0xc0, 0xc3]);
    patch_short_jump(code, null_value, null_target);
    patch_short_jump(code, done, done_target);
    patch_short_jump(code, continuation, next);
    assert(code@ =~= old(code)@ + string_utf8_len_code());
}

/// The machine code of the Windows `array_clear` helper routine.
pub open spec fn array_clear_code() -> Seq<u8> {
    seq![
        0x48u8, 0x85, 0xc9, 0x74, 0x0b, 0x48, 0xc7, 0x41, 0x08, 0x00, 0x00, 0x00, 0x00, 0x31, 0xc0, 0xc3,
        0xb8, 0x01, 0x00, 0x00, 0x00, 0xc3,
    ]
}

pub(crate) fn emit_array_clear_helper(code: &mut Vec<u8>)
    requires
        has_room(old(code)@),
    ensures
        final(code)@ == old(code)@ + array_clear_code(),
        final(code)@.len() == old(code)@.len() + 22,
{
    push_bytes(code, &[0x48, 0x85, 0xc9]);
    let null = emit_short_jump_placeholder(code, 0x74);
    push_bytes(code, &[0x48, 0xc7, 0x41, 0x08, 0x00, 0x00, 0x00, 0x00, 0x31, 0xc0, 0xc3]);
    let failure = code.len();
    push_bytes(code, &[0xb8, 0x01, 0x00, 0x00, 0x00, 0xc3]);
    patch_short_jump(code, null, failure);
    assert(code@ =~= old(code)@ + array_clear_code());
}

/// The machine code of the Windows `array_first` helper routine.
pub open spec fn array_first_code() -> Seq<u8> {
    seq![
        0x48u8, 0x85, 0xc9, 0x74, 0x0b, 0x48, 0x83, 0x79, 0x08, 0x00, 0x74, 0x04, 0x48, 0x8b, 0x01, 0xc3,
        0x31, 0xc0, 0xc3,
    ]
}

pub(crate) fn emit_array_first_helper(code: &mut Vec<u8>)
    requires
        has_room(old(code)@),
    ensures
        final(code)@ == old(code)@ + array_first_code(),
        final(code)@.len() == old(code)@.len() + 19,
{
    push_bytes(code, &[0x48, 0x85, 0xc9]);
    let failed = emit_short_jump_placeholder(code, 0x74);
    push_bytes(code, &[0x48, 0x83, 0x79, 0x08, 0x00]);
    let empty = emit_short_jump_placeholder(code, 0x74);
    push_bytes(code, &[0x48, 0x8b, 0x01, 0xc3]);
    let failure = code.len();
    push_bytes(code, &[0x31, 0xc0, 0xc3]);
    patch_short_jump(code, failed, failure);
    patch_short_jump(code, empty, failure);
    assert(code@ =~= old(code)@ + array_first_code());
}

/// The machine code of the Windows `array_last` helper routine.
pub open spec fn array_last_code() -> Seq<u8> {
    seq![
        0x48u8, 0x85, 0xc9, 0x74, 0x13, 0x48, 0x8b, 0x41, 0x08, 0x48, 0x85, 0xc0, 0x74, 0x0a, 0x48, 0xff,
        0xc8, 0x48, 0x8b, 0x09, 0x48, 0x01, 0xc8, 0xc3, 0x31, 0xc0, 0xc3,
    ]
}

pub(crate) fn emit_array_last_helper(code: &mut Vec<u8>)
    requires
        has_room(old(code)@),
    ensures
        final(code)@ == old(code)@ + array_last_code(),
        final(code)@.len() == old(code)@.len() + 27,
{
    push_bytes(code, &[0x48, 0x85, 0xc9]);
    let failed = emit_short_jump_placeholder(code, 0x74);
    push_bytes(code, &[0x48, 0x8b, 0x41, 0x08, 0x48, 0x85, 0xc0]);
    let empty = emit_short_jump_placeholder(code, 0x74);
    push_bytes(code, &[0x48, 0xff, 0xc8, 0x48, 0x8b, 0x09, 0x48, 0x01, 0xc8, 0xc3]);
    let failure = code.len();
    push_bytes(code, &[0x31, 0xc0, 0xc3]);
    patch_short_jump(code, failed, failure);
    patch_short_jump(code, empty, failure);
    assert(code@ =~= old(code)@ + array_last_code());
}

/// The machine code of the Windows `array_fill` helper routine.
pub open spec fn array_fill_code() -> Seq<u8> {
    seq![
        0x48u8, 0x85, 0xc9, 0x74, 0x1d, 0x45, 0x8a, 0x1a, 0x48, 0x8b, 0x41, 0x08, 0x4c, 0x8b, 0x01, 0x48,
        0x85, 0xc0, 0x74, 0x0b, 0x45, 0x88, 0x18, 0x49, 0xff, 0xc0, 0x48, 0xff, 0xc8, 0xeb, 0xf0, 0x31,
        0xc0, 0xc3, 0xb8, 0x01, 0x00, 0x00, 0x00, 0xc3,
    ]
}

pub(crate) fn emit_array_fill_helper(code: &mut Vec<u8>)
    requires
        has_room(old(code)@),
    ensures
        final(code)@ == old(code)@ + array_fill_code(),
        final(code)@.len() == old(code)@.len() + 40,
{
    push_bytes(code, &[0x48, 0x85, 0xc9]);
    let failed = emit_short_jump_placeholder(code, 0x74);
    push_bytes(code, &[0x45, 0x8a, 0x1a, 0x48, 0x8b, 0x41, 0x08, 0x4c, 0x8b, 0x01]);
    let loop_start = code.len();
    push_bytes(code, &[0x48, 0x85, 0xc0]);
    let done = emit_short_jump_placeholder(code, 0x74);
    push_bytes(code, &[0x45, 0x88, 0x18, 0x49, 0xff, 0xc0, 0x48, 0xff, 0xc8]);
    emit_short_jump_back(code, loop_start);
    let success = code.len();
    push_bytes(code, &[0x31, 0xc0, 0xc3]);
    let failure = code.len();
    push_bytes(code, &[0xb8, 0x01, 0x00, 0x00, 0x00, 0xc3]);
    patch_short_jump(code, failed, failure);
    patch_short_jump(code, done, success);
    assert(code@ =~= old(code)@ + array_fill_code());
}

/// The machine code of the Windows `array_reverse` helper routine.
pub open spec fn array_reverse_code() -> Seq<u8> {
    seq![
        0x48u8, 0x85, 0xc9, 0x74, 0x2f, 0x48, 0x8b, 0x41, 0x08, 0x48, 0x85, 0xc0, 0x74, 0x23, 0x48, 0xff,
        0xc8, 0x4c, 0x8b, 0x01, 0x4d, 0x8d, 0x0c, 0x00, 0x4d, 0x39, 0xc8, 0x73, 0x14, 0x45, 0x8a, 0x10,
        0x45, 0x8a, 0x19, 0x45, 0x88, 0x18, 0x45, 0x88, 0x11, 0x49, 0xff, 0xc0, 0x49, 0xff, 0xc9, 0xeb,
        0xe7, 0x31, 0xc0, 0xc3, 0xb8, 0x01, 0x00, 0x00, 0x00, 0xc3,
    ]
}

#[verifier::spinoff_prover]
#[verifier::rlimit(100)]
pub(crate) fn emit_array_reverse_helper(code: &mut Vec<u8>)
    requires
        has_room(old(code)@),
    ensures
        final(code)@ == old(code)@ + array_reverse_code(),
        final(code)@.len() == old(code)@.len() + 58,
{
    push_bytes(code, &[0x48, 0x85, 0xc9]);
    let failed = emit_short_jump_placeholder(code, 0x74);
    push_bytes(code, &[0x48, 0x8b, 0x41, 0x08, 0x48, 0x85, 0xc0]);
    let empty = emit_short_jump_placeholder(code, 0x74);
    push_bytes(code, &[0x48, 0xff, 0xc8, 0x4c, 0x8b, 0x01, 0x4d, 0x8d, 0x0c, 0x00]);
    let loop_start = code.len();
    push_bytes(code, &[0x4d, 0x39, 0xc8]);
    let done = emit_short_jump_placeholder(code, 0x73);
    push_bytes(code, &[0x45, 0x8a, 0x10, 0x45, 0x8a, 0x19, 0x45, 0x88, 0x18, 0x45, 0x88, 0x11, 0x49, 0xff, 0xc0, 0x49, 0xff, 0xc9]);
    emit_short_jump_back(code, loop_start);
    let success = code.len();
    push_bytes(code, &[0x31, 0xc0, 0xc3]);
    let failure = code.len();
    push_bytes(code, &[0xb8, 0x01, 0x00, 0x00, 0x00, 0xc3]);
    patch_short_jump(code, failed, failure);
    patch_short_jump(code, empty, success);
    patch_short_jump(code, done, success);
    assert(code@ =~= old(code)@ + array_reverse_code());
}

/// The machine code of the Windows `array_len` helper routine.
pub open spec fn array_len_code() -> Seq<u8> {
    seq![
        0x48u8, 0x85, 0xc9, 0x74, 0x05, 0x48, 0x8b, 0x41, 0x08, 0xc3, 0x31, 0xc0, 0xc3,
    ]
}

pub(crate) fn emit_array_len_helper(code: &mut Vec<u8>)
    requires
        has_room(old(code)@),
    ensures
        final(code)@ == old(code)@ + array_len_code(),
        final(code)@.len() == old(code)@.len() + 13,
{
    push_bytes(code, &[0x48, 0x85, 0xc9]);
    let null = emit_short_jump_placeholder(code, 0x74);
    push_bytes(code, &[0x48, 0x8b, 0x41, 0x08, 0xc3]);
    let zero = code.len();
    push_bytes(code, &[0x31, 0xc0, 0xc3]);
    patch_short_jump(code, null, zero);
    assert(code@ =~= old(code)@ + array_len_code());
}

/// The machine code of the Windows `array_capacity` helper routine.
pub open spec fn array_capacity_code() -> Seq<u8> {
    seq![
        0x48u8, 0x85, 0xc9, 0x74, 0x05, 0x48, 0x8b, 0x41, 0x10, 0xc3, 0x31, 0xc0, 0xc3,
    ]
}

pub(crate) fn emit_array_capacity_helper(code: &mut Vec<u8>)
    requires
        has_room(old(code)@),
    ensures
        final(code)@ == old(code)@ + array_capacity_code(),
        final(code)@.len() == old(code)@.len() + 13,
{
    push_bytes(code, &[0x48, 0x85, 0xc9]);
    let null = emit_short_jump_placeholder(code, 0x74);
    push_bytes(code, &[0x48, 0x8b, 0x41, 0x10, 0xc3]);
    let zero = code.len();
    push_bytes(code, &[0x31, 0xc0, 0xc3]);
    patch_short_jump(code, null, zero);
    assert(code@ =~= old(code)@ + array_capacity_code());
}

/// The machine code of the Windows `array_is_empty` helper routine.
pub open spec fn array_is_empty_code() -> Seq<u8> {
    seq![
        0x48u8, 0x85, 0xc9, 0x74, 0x0a, 0x48, 0x83, 0x79, 0x08, 0x00, 0x74, 0x03, 0x31, 0xc0, 0xc3, 0xb8,
        0x01, 0x00, 0x00, 0x00, 0xc3,
    ]
}

pub(crate) fn emit_array_is_empty_helper(code: &mut Vec<u8>)
    requires
        has_room(old(code)@),
    ensures
        final(code)@ == old(code)@ + array_is_empty_code(),
        final(code)@.len() == old(code)@.len() + 21,
{
    push_bytes(code, &[0x48, 0x85, 0xc9]);
    let null = emit_short_jump_placeholder(code, 0x74);
    push_bytes(code, &[0x48, 0x83, 0x79, 0x08, 0x00]);
    let done = emit_short_jump_placeholder(code, 0x74);
    push_bytes(code, &[0x31, 0xc0, 0xc3]);
    let empty = code.len();
    push_bytes(code, &[0xb8, 0x01, 0x00, 0x00, 0x00, 0xc3]);
    patch_short_jump(code, null, empty);
    patch_short_jump(code, done, empty);
    assert(code@ =~= old(code)@ + array_is_empty_code());
}

/// The machine code of the Windows `array_get` helper routine.
pub open spec fn array_get_code() -> Seq<u8> {
    seq![
        0x48u8, 0x85, 0xc9, 0x74, 0x19, 0x48, 0x8b, 0x41, 0x08, 0x48, 0x39, 0xc2, 0x73, 0x10, 0x4c, 0x8b,
        0x49, 0x18, 0x4c, 0x0f, 0xaf, 0xca, 0x48, 0x8b, 0x01, 0x4a, 0x8d, 0x04, 0x08, 0xc3, 0x31, 0xc0,
        0xc3,
    ]
}

pub(crate) fn emit_array_get_helper(code: &mut Vec<u8>)
    requires
        has_room(old(code)@),
    ensures
        final(code)@ == old(code)@ + array_get_code(),
        final(code)@.len() == old(code)@.len() + 33,
{
    push_bytes(code, &[0x48, 0x85, 0xc9]);
    let null = emit_short_jump_placeholder(code, 0x74);
    push_bytes(code, &[0x48, 0x8b, 0x41, 0x08, 0x48, 0x39, 0xc2]);
    let failed = emit_short_jump_placeholder(code, 0x73);
    push_bytes(code, &[0x4c, 0x8b, 0x49, 0x18, 0x4c, 0x0f, 0xaf, 0xca, 0x48, 0x8b, 0x01, 0x4a, 0x8d, 0x04, 0x08, 0xc3]);
    let failure = code.len();
    push_bytes(code, &[0x31, 0xc0, 0xc3]);
    patch_short_jump(code, null, failure);
    patch_short_jump(code, failed, failure);
    assert(code@ =~= old(code)@ + array_get_code());
}

/// The machine code of the Windows `array_set` helper routine.
pub open spec fn array_set_code() -> Seq<u8> {
    seq![
        0x48u8, 0x85, 0xc9, 0x74, 0x1f, 0x48, 0x8b, 0x41, 0x08, 0x48, 0x39, 0xc2, 0x73, 0x16, 0x4c, 0x8b,
        0x49, 0x18, 0x4c, 0x0f, 0xaf, 0xca, 0x48, 0x8b, 0x01, 0x4c, 0x01, 0xc8, 0x41, 0x8a, 0x08, 0x88,
        0x08, 0x31, 0xc0, 0xc3, 0xb8, 0x01, 0x00, 0x00, 0x00, 0xc3,
    ]
}

pub(crate) fn emit_array_set_helper(code: &mut Vec<u8>)
    requires
        has_room(old(code)@),
    ensures
        final(code)@ == old(code)@ + array_set_code(),
        final(code)@.len() == old(code)@.len() + 42,
{
    push_bytes(code, &[0x48, 0x85, 0xc9]);
    let null = emit_short_jump_placeholder(code, 0x74);
    push_bytes(code, &[0x48, 0x8b, 0x41, 0x08, 0x48, 0x39, 0xc2]);
    let failed = emit_short_jump_placeholder(code, 0x73);
    push_bytes(code, &[0x4c, 0x8b, 0x49, 0x18, 0x4c, 0x0f, 0xaf, 0xca, 0x48, 0x8b, 0x01, 0x4c, 0x01, 0xc8, 0x41, 0x8a, 0x08, 0x88, 0x08, 0x31, 0xc0, 0xc3]);
    let failure = code.len();
    push_bytes(code, &[0xb8, 0x01, 0x00, 0x00, 0x00, 0xc3]);
    patch_short_jump(code, null, failure);
    patch_short_jump(code, failed, failure);
    assert(code@ =~= old(code)@ + array_set_code());
}

/// The machine code of the Windows `array_push` helper routine.
pub open spec fn array_push_code() -> Seq<u8> {
    seq![
        0x48u8, 0x85, 0xc9, 0x74, 0x25, 0x48, 0x8b, 0x41, 0x08, 0x48, 0x3b, 0x41, 0x10, 0x73, 0x1b, 0x4c,
        0x8b, 0x49, 0x18, 0x4c, 0x0f, 0xaf, 0xc8, 0x4c, 0x8b, 0x01, 0x4d, 0x01, 0xc8, 0x44, 0x8a, 0x0a,
        0x45, 0x88, 0x08, 0x48, 0xff, 0x41, 0x08, 0x31, 0xc0, 0xc3, 0xb8, 0x01, 0x00, 0x00, 0x00, 0xc3,
    ]
}

pub(crate) fn emit_array_push_helper(code: &mut Vec<u8>)
    requires
        has_room(old(code)@),
    ensures
        final(code)@ == old(code)@ + array_push_code(),
        final(code)@.len() == old(code)@.len() + 48,
{
    push_bytes(code, &[0x48, 0x85, 0xc9]);
    let failed = emit_short_jump_placeholder(code, 0x74);
    push_bytes(code, &[0x48, 0x8b, 0x41, 0x08, 0x48, 0x3b, 0x41, 0x10]);
    let full = emit_short_jump_placeholder(code, 0x73);
    push_bytes(code, &[0x4c, 0x8b, 0x49, 0x18, 0x4c, 0x0f, 0xaf, 0xc8, 0x4c, 0x8b, 0x01, 0x4d, 0x01, 0xc8, 0x44, 0x8a, 0x0a, 0x45, 0x88, 0x08, 0x48, 0xff, 0x41, 0x08, 0x31, 0xc0, 0xc3]);
    let failure = code.len();
    push_bytes(code, &[0xb8, 0x01, 0x00, 0x00, 0x00, 0xc3]);
    patch_short_jump(code, failed, failure);
    patch_short_jump(code, full, failure);
    assert(code@ =~= old(code)@ + array_push_code());
}

/// The machine code of the Windows `string_byte_at` helper routine.
pub open spec fn string_byte_at_code() -> Seq<u8> {
    seq![
        0x4du8, 0x31, 0xc0, 0x49, 0x39, 0xd0, 0x74, 0x0c, 0x42, 0x80, 0x3c, 0x01, 0x00, 0x74, 0x0f, 0x49,
        0xff, 0xc0, 0xeb, 0xef, 0x42, 0x0f, 0xb6, 0x04, 0x01, 0x84, 0xc0, 0x74, 0x01, 0xc3, 0x48, 0xc7,
        0xc0, 0xff, 0xff, 0xff, 0xff, 0xc3,
    ]
}

pub(crate) fn emit_string_byte_at_helper(code: &mut Vec<u8>)
    requires
        has_room(old(code)@),
    ensures
        final(code)@ == old(code)@ + string_byte_at_code(),
        final(code)@.len() == old(code)@.len() + 38,
{
    push_bytes(
        code,
        &[
            0x4d, 0x31, 0xc0,
            0x49, 0x39, 0xd0,
            0x74, 0x0c,
            0x42, 0x80, 0x3c, 0x01, 0x00,
            0x74, 0x0f,
            0x49, 0xff, 0xc0,
            0xeb, 0xef,
            0x42, 0x0f, 0xb6, 0x04, 0x01,
            0x84, 0xc0,
            0x74, 0x01,
            0xc3,
            0x48, 0xc7, 0xc0, 0xff, 0xff, 0xff, 0xff,
            0xc3,
        ],
    );
    assert(code@ =~= old(code)@ + string_byte_at_code());
}

/// The machine code of the Windows `string_compare` helper routine.
pub open spec fn string_compare_code() -> Seq<u8> {
    seq![
        0x44u8, 0x0f, 0xb6, 0x01, 0x44, 0x0f, 0xb6, 0x0a, 0x45, 0x39, 0xc8, 0x75, 0x0e, 0x45, 0x84, 0xc0,
        0x74, 0x07, 0x48, 0xff, 0xc1, 0x48, 0xff, 0xc2, 0xeb, 0xe7, 0x31, 0xc0, 0xc3, 0x44, 0x89, 0xc0,
        0x44, 0x29, 0xc8, 0xc3,
    ]
}

pub(crate) fn emit_string_compare_helper(code: &mut Vec<u8>)
    requires
        has_room(old(code)@),
    ensures
        final(code)@ == old(code)@ + string_compare_code(),
        final(code)@.len() == old(code)@.len() + 36,
{
    push_bytes(
        code,
        &[
            0x44, 0x0f, 0xb6, 0x01,
            0x44, 0x0f, 0xb6, 0x0a,
            0x45, 0x39, 0xc8,
            0x75, 0x0e,
            0x45, 0x84, 0xc0,
            0x74, 0x07,
            0x48, 0xff, 0xc1,
            0x48, 0xff, 0xc2,
            0xeb, 0xe7,
            0x31, 0xc0,
            0xc3,
            0x44, 0x89, 0xc0,
            0x44, 0x29, 0xc8,
            0xc3,
        ],
    );
    assert(code@ =~= old(code)@ + string_compare_code());
}

/// The machine code of the Windows `string_less` helper routine.
pub open spec fn string_less_code() -> Seq<u8> {
    seq![
        0x44u8, 0x0f, 0xb6, 0x01, 0x44, 0x0f, 0xb6, 0x0a, 0x45, 0x39, 0xc8, 0x75, 0x10, 0x45, 0x84, 0xc0,
        0x74, 0x08, 0x48, 0xff, 0xc1, 0x48, 0xff, 0xc2, 0xeb, 0xe6, 0x31, 0xc0, 0xc3, 0x0f, 0x92, 0xc0,
        0x0f, 0xb6, 0xc0, 0xc3,
    ]
}

pub(crate) fn emit_string_less_helper(code: &mut Vec<u8>)
    requires
        has_room(old(code)@),
    ensures
        final(code)@ == old(code)@ + string_less_code(),
        final(code)@.len() == old(code)@.len() + 36,
{
    let loop_start = code.len();
    push_bytes(
        code,
        &[
            0x44, 0x0f, 0xb6, 0x01,
            0x44, 0x0f, 0xb6, 0x0a,
            0x45, 0x39, 0xc8,
        ],
    );
    let difference = emit_short_jump_placeholder(code, 0x75);
    push_bytes(code, &[0x45, 0x84, 0xc0]);
    let matched = emit_short_jump_placeholder(code, 0x74);
    push_bytes(
        code,
        &[
            0x48, 0xff, 0xc1,
            0x48, 0xff, 0xc2,
        ],
    );
    emit_short_jump_back(code, loop_start);
    let false_target = code.len();
    push_bytes(
        code,
        &[
            0x31, 0xc0,
            0xc3,
        ],
    );
    let difference_target = code.len();
    push_bytes(
        code,
        &[
            0x0f, 0x92, 0xc0, 0x0f, 0xb6, 0xc0,
            0xc3,
        ],
    );
    patch_short_jump(code, difference, difference_target);
    patch_short_jump(code, matched, false_target);
    assert(code@ =~= old(code)@ + string_less_code());
}

/// The machine code of the Windows `string_greater` helper routine.
pub open spec fn string_greater_code() -> Seq<u8> {
    seq![
        0x44u8, 0x0f, 0xb6, 0x01, 0x44, 0x0f, 0xb6, 0x0a, 0x45, 0x39, 0xc8, 0x75, 0x10, 0x45, 0x84, 0xc0,
        0x74, 0x08, 0x48, 0xff, 0xc1, 0x48, 0xff, 0xc2, 0xeb, 0xe6, 0x31, 0xc0, 0xc3, 0x0f, 0x97, 0xc0,
        0x0f, 0xb6, 0xc0, 0xc3,
    ]
}

pub(crate) fn emit_string_greater_helper(code: &mut Vec<u8>)
    requires
        has_room(old(code)@),
    ensures
        final(code)@ == old(code)@ + string_greater_code(),
        final(code)@.len() == old(code)@.len() + 36,
{
    let loop_start = code.len();
    push_bytes(
        code,
        &[
            0x44, 0x0f, 0xb6, 0x01,
            0x44, 0x0f, 0xb6, 0x0a,
            0x45, 0x39, 0xc8,
        ],
    );
    let difference = emit_short_jump_placeholder(code, 0x75);
    push_bytes(code, &[0x45, 0x84, 0xc0]);
    let matched = emit_short_jump_placeholder(code, 0x74);
    push_bytes(
        code,
        &[
            0x48, 0xff, 0xc1,
            0x48, 0xff, 0xc2,
        ],
    );
    emit_short_jump_back(code, loop_start);
    let false_target = code.len();
    push_bytes(
        code,
        &[
            0x31, 0xc0,
            0xc3,
        ],
    );
    let difference_target = code.len();
    push_bytes(
        code,
        &[
            0x0f, 0x97, 0xc0, 0x0f, 0xb6, 0xc0,
            0xc3,
        ],
    );
    patch_short_jump(code, difference, difference_target);
    patch_short_jump(code, matched, false_target);
    assert(code@ =~= old(code)@ + string_greater_code());
}

/// The machine code of the Windows `string_is_empty` helper routine.
pub open spec fn string_is_empty_code() -> Seq<u8> {
    seq![
        0x31u8, 0xc0, 0x0f, 0xb6, 0x01, 0x85, 0xc0, 0x0f, 0x94, 0xc0, 0xc3,
    ]
}

pub(crate) fn emit_string_is_empty_helper(code: &mut Vec<u8>)
    requires
        has_room(old(code)@),
    ensures
        final(code)@ == old(code)@ + string_is_empty_code(),
        final(code)@.len() == old(code)@.len() + 11,
{
    push_bytes(
        code,
        &[
            0x31, 0xc0,
            0x0f, 0xb6, 0x01,
            0x85, 0xc0,
            0x0f, 0x94, 0xc0,
            0xc3,
        ],
    );
    assert(code@ =~= old(code)@ + string_is_empty_code());
}

/// The machine code of the Windows `string_find_byte` helper routine.
pub open spec fn string_find_byte_code() -> Seq<u8> {
    seq![
        0x83u8, 0xfa, 0x00, 0x7c, 0x20, 0x81, 0xfa, 0xff, 0x00, 0x00, 0x00, 0x7f, 0x18, 0x4d, 0x31, 0xc0,
        0x42, 0x8a, 0x04, 0x01, 0x84, 0xc0, 0x74, 0x0d, 0x38, 0xd0, 0x74, 0x05, 0x49, 0xff, 0xc0, 0xeb,
        0xef, 0x4c, 0x89, 0xc0, 0xc3, 0x48, 0xc7, 0xc0, 0xff, 0xff, 0xff, 0xff, 0xc3,
    ]
}

#[verifier::spinoff_prover]
#[verifier::rlimit(100)]
pub(crate) fn emit_string_find_byte_helper(code: &mut Vec<u8>)
    requires
        has_room(old(code)@),
    ensures
        final(code)@ == old(code)@ + string_find_byte_code(),
        final(code)@.len() == old(code)@.len() + 45,
{
    push_bytes(code, &[0x83, 0xfa, 0x00]);
    let below_zero = emit_short_jump_placeholder(code, 0x7c);
    push_bytes(code, &[0x81, 0xfa, 0xff, 0x00, 0x00, 0x00]);
    let above_byte = emit_short_jump_placeholder(code, 0x7f);
    push_bytes(code, &[0x4d, 0x31, 0xc0]);
    let loop_start = code.len();
    push_bytes(
        code,
        &[
            0x42, 0x8a, 0x04, 0x01,
            0x84, 0xc0,
        ],
    );
    let end = emit_short_jump_placeholder(code, 0x74);
    push_bytes(code, &[0x38, 0xd0]);
    let found = emit_short_jump_placeholder(code, 0x74);
    push_bytes(code, &[0x49, 0xff, 0xc0]);
    emit_short_jump_back(code, loop_start);
    let found_target = code.len();
    push_bytes(
        code,
        &[
            0x4c, 0x89, 0xc0,
            0xc3,
        ],
    );
    let not_found_target = code.len();
    push_bytes(
        code,
        &[
            0x48, 0xc7, 0xc0, 0xff, 0xff, 0xff, 0xff,
            0xc3,
        ],
    );
    patch_short_jump(code, below_zero, not_found_target);
    patch_short_jump(code, above_byte, not_found_target);
    patch_short_jump(code, end, not_found_target);
    patch_short_jump(code, found, found_target);
    assert(code@ =~= old(code)@ + string_find_byte_code());
}

/// The machine code of the Windows `string_last_find_byte` helper routine.
pub open spec fn string_last_find_byte_code() -> Seq<u8> {
    seq![
        0x83u8, 0xfa, 0x00, 0x7c, 0x26, 0x81, 0xfa, 0xff, 0x00, 0x00, 0x00, 0x7f, 0x1e, 0x49, 0xc7, 0xc1,
        0xff, 0xff, 0xff, 0xff, 0x4d, 0x31, 0xc0, 0x42, 0x8a, 0x04, 0x01, 0x84, 0xc0, 0x74, 0x0c, 0x38,
        0xd0, 0x75, 0x03, 0x4d, 0x89, 0xc1, 0x49, 0xff, 0xc0, 0xeb, 0xec, 0x4c, 0x89, 0xc8, 0xc3,
    ]
}

#[verifier::spinoff_prover]
#[verifier::rlimit(100)]
pub(crate) fn emit_string_last_find_byte_helper(code: &mut Vec<u8>)
    requires
        has_room(old(code)@),
    ensures
        final(code)@ == old(code)@ + string_last_find_byte_code(),
        final(code)@.len() == old(code)@.len() + 47,
{
    push_bytes(code, &[0x83, 0xfa, 0x00]);
    let below_zero = emit_short_jump_placeholder(code, 0x7c);
    push_bytes(code, &[0x81, 0xfa, 0xff, 0x00, 0x00, 0x00]);
    let above_byte = emit_short_jump_placeholder(code, 0x7f);
    push_bytes(
        code,
        &[
            0x49, 0xc7, 0xc1, 0xff, 0xff, 0xff, 0xff,
            0x4d, 0x31, 0xc0,
        ],
    );
    let loop_start = code.len();
    push_bytes(
        code,
        &[
            0x42, 0x8a, 0x04, 0x01,
            0x84, 0xc0,
        ],
    );
    let end = emit_short_jump_placeholder(code, 0x74);
    push_bytes(code, &[0x38, 0xd0]);
    let no_match = emit_short_jump_placeholder(code, 0x75);
    push_bytes(code, &[0x4d, 0x89, 0xc1]);
    let advance_target = code.len();
    push_bytes(code, &[0x49, 0xff, 0xc0]);
    emit_short_jump_back(code, loop_start);
    let end_target = code.len();
    push_bytes(code, &[0x4c, 0x89, 0xc8, 0xc3]);
    patch_short_jump(code, below_zero, end_target);
    patch_short_jump(code, above_byte, end_target);
    patch_short_jump(code, end, end_target);
    patch_short_jump(code, no_match, advance_target);
    assert(code@ =~= old(code)@ + string_last_find_byte_code());
}

/// The machine code of the Windows `string_index_of` helper routine.
pub open spec fn string_index_of_code() -> Seq<u8> {
    seq![
        0x49u8, 0x89, 0xc8, 0x4d, 0x31, 0xdb, 0x8a, 0x02, 0x84, 0xc0, 0x74, 0x2e, 0x41, 0x80, 0x38, 0x00,
        0x74, 0x2c, 0x4d, 0x89, 0xc1, 0x49, 0x89, 0xd2, 0x41, 0x8a, 0x02, 0x84, 0xc0, 0x74, 0x1b, 0x41,
        0x80, 0x39, 0x00, 0x74, 0x19, 0x41, 0x3a, 0x01, 0x75, 0x08, 0x49, 0xff, 0xc1, 0x49, 0xff, 0xc2,
        0xeb, 0xe6, 0x49, 0xff, 0xc0, 0x49, 0xff, 0xc3, 0xeb, 0xd2, 0x4c, 0x89, 0xd8, 0xc3, 0x48, 0xc7,
        0xc0, 0xff, 0xff, 0xff, 0xff, 0xc3,
    ]
}

#[verifier::spinoff_prover]
#[verifier::rlimit(100)]
pub(crate) fn emit_string_index_of_helper(code: &mut Vec<u8>)
    requires
        has_room(old(code)@),
    ensures
        final(code)@ == old(code)@ + string_index_of_code(),
        final(code)@.len() == old(code)@.len() + 70,
{
    push_bytes(
        code,
        &[
            0x49, 0x89, 0xc8,
            0x4d, 0x31, 0xdb,
            0x8a, 0x02,
            0x84, 0xc0,
        ],
    );
    let empty_needle = emit_short_jump_placeholder(code, 0x74);
    let outer = code.len();
    push_bytes(code, &[0x41, 0x80, 0x38, 0x00]);
    let haystack_end = emit_short_jump_placeholder(code, 0x74);
    push_bytes(
        code,
        &[
            0x4d, 0x89, 0xc1,
            0x49, 0x89, 0xd2,
        ],
    );
    let inner = code.len();
    push_bytes(
        code,
        &[
            0x41, 0x8a, 0x02,
            0x84, 0xc0,
        ],
    );
    let matched = emit_short_jump_placeholder(code, 0x74);
    push_bytes(code, &[0x41, 0x80, 0x39, 0x00]);
    let source_ended = emit_short_jump_placeholder(code, 0x74);
    push_bytes(code, &[0x41, 0x3a, 0x01]);
    let mismatch = emit_short_jump_placeholder(code, 0x75);
    push_bytes(
        code,
        &[
            0x49, 0xff, 0xc1,
            0x49, 0xff, 0xc2,
        ],
    );
    emit_short_jump_back(code, inner);
    let advance_target = code.len();
    push_bytes(
        code,
        &[
            0x49, 0xff, 0xc0,
            0x49, 0xff, 0xc3,
        ],
    );
    emit_short_jump_back(code, outer);
    let found_target = code.len();
    push_bytes(
        code,
        &[
            0x4c, 0x89, 0xd8,
            0xc3,
        ],
    );
    let not_found_target = code.len();
    push_bytes(
        code,
        &[
            0x48, 0xc7, 0xc0, 0xff, 0xff, 0xff, 0xff,
            0xc3,
        ],
    );
    patch_short_jump(code, empty_needle, found_target);
    patch_short_jump(code, matched, found_target);
    patch_short_jump(code, haystack_end, not_found_target);
    patch_short_jump(code, source_ended, not_found_target);
    patch_short_jump(code, mismatch, advance_target);
    assert(code@ =~= old(code)@ + string_index_of_code());
}

/// The machine code of the Windows `string_last_index_of` helper routine.
pub open spec fn string_last_index_of_code() -> Seq<u8> {
    seq![
        0x49u8, 0x89, 0xc8, 0x48, 0x31, 0xc9, 0x49, 0xc7, 0xc3, 0xff, 0xff, 0xff, 0xff, 0x80, 0x3a, 0x00,
        0x74, 0x35, 0x41, 0x80, 0x3c, 0x08, 0x00, 0x74, 0x2e, 0x4d, 0x8d, 0x0c, 0x08, 0x49, 0x89, 0xd2,
        0x41, 0x8a, 0x02, 0x84, 0xc0, 0x74, 0x13, 0x41, 0x80, 0x39, 0x00, 0x74, 0x15, 0x41, 0x3a, 0x01,
        0x75, 0x10, 0x49, 0xff, 0xc1, 0x49, 0xff, 0xc2, 0xeb, 0xe6, 0x49, 0x89, 0xcb, 0x48, 0xff, 0xc1,
        0xeb, 0xd0, 0x48, 0xff, 0xc1, 0xeb, 0xcb, 0x4c, 0x89, 0xd8, 0xc3,
    ]
}

#[verifier::spinoff_prover]
#[verifier::rlimit(100)]
pub(crate) fn emit_string_last_index_of_helper(code: &mut Vec<u8>)
    requires
        has_room(old(code)@),
    ensures
        final(code)@ == old(code)@ + string_last_index_of_code(),
        final(code)@.len() == old(code)@.len() + 75,
{
    push_bytes(
        code,
        &[
            0x49, 0x89, 0xc8,
            0x48, 0x31, 0xc9,
            0x49, 0xc7, 0xc3, 0xff, 0xff, 0xff, 0xff,
            0x80, 0x3a, 0x00,
        ],
    );
    let empty_needle = emit_short_jump_placeholder(code, 0x74);
    let outer = code.len();
    push_bytes(code, &[0x41, 0x80, 0x3c, 0x08, 0x00]);
    let source_end = emit_short_jump_placeholder(code, 0x74);
    push_bytes(
        code,
        &[
            0x4d, 0x8d, 0x0c, 0x08,
            0x49, 0x89, 0xd2,
        ],
    );
    let inner = code.len();
    push_bytes(
        code,
        &[
            0x41, 0x8a, 0x02,
            0x84, 0xc0,
        ],
    );
    let matched = emit_short_jump_placeholder(code, 0x74);
    push_bytes(code, &[0x41, 0x80, 0x39, 0x00]);
    let advance = emit_short_jump_placeholder(code, 0x74);
    push_bytes(code, &[0x41, 0x3a, 0x01]);
    let mismatch = emit_short_jump_placeholder(code, 0x75);
    push_bytes(
        code,
        &[
            0x49, 0xff, 0xc1,
            0x49, 0xff, 0xc2,
        ],
    );
    emit_short_jump_back(code, inner);
    let found_target = code.len();
    push_bytes(code, &[0x49, 0x89, 0xcb, 0x48, 0xff, 0xc1]);
    emit_short_jump_back(code, outer);
    let advance_target = code.len();
    push_bytes(code, &[0x48, 0xff, 0xc1]);
    emit_short_jump_back(code, outer);
    let return_target = code.len();
    push_bytes(
        code,
        &[
            0x4c, 0x89, 0xd8,
            0xc3,
        ],
    );
    patch_short_jump(code, empty_needle, return_target);
    patch_short_jump(code, source_end, return_target);
    patch_short_jump(code, matched, found_target);
    patch_short_jump(code, advance, advance_target);
    patch_short_jump(code, mismatch, advance_target);
    assert(code@ =~= old(code)@ + string_last_index_of_code());
}

/// The machine code of the Windows `string_count` helper routine.
pub open spec fn string_count_code() -> Seq<u8> {
    seq![
        0x49u8, 0x89, 0xc8, 0x4d, 0x31, 0xc9, 0x80, 0x3a, 0x00, 0x74, 0x33, 0x41, 0x80, 0x38, 0x00, 0x74,
        0x2d, 0x4d, 0x89, 0xc3, 0x49, 0x89, 0xd2, 0x41, 0x8a, 0x02, 0x84, 0xc0, 0x74, 0x13, 0x41, 0x80,
        0x3b, 0x00, 0x74, 0x1a, 0x41, 0x3a, 0x03, 0x75, 0x10, 0x49, 0xff, 0xc3, 0x49, 0xff, 0xc2, 0xeb,
        0xe6, 0x49, 0xff, 0xc1, 0x4d, 0x89, 0xd8, 0xeb, 0xd2, 0x49, 0xff, 0xc0, 0xeb, 0xcd, 0x4c, 0x89,
        0xc8, 0xc3,
    ]
}

#[verifier::spinoff_prover]
#[verifier::rlimit(100)]
pub(crate) fn emit_string_count_helper(code: &mut Vec<u8>)
    requires
        has_room(old(code)@),
    ensures
        final(code)@ == old(code)@ + string_count_code(),
        final(code)@.len() == old(code)@.len() + 66,
{
    push_bytes(
        code,
        &[
            0x49, 0x89, 0xc8,
            0x4d, 0x31, 0xc9,
            0x80, 0x3a, 0x00,
        ],
    );
    let empty_needle = emit_short_jump_placeholder(code, 0x74);
    let outer = code.len();
    push_bytes(code, &[0x41, 0x80, 0x38, 0x00]);
    let source_end = emit_short_jump_placeholder(code, 0x74);
    push_bytes(
        code,
        &[
            0x4d, 0x89, 0xc3,
            0x49, 0x89, 0xd2,
        ],
    );
    let inner = code.len();
    push_bytes(
        code,
        &[
            0x41, 0x8a, 0x02,
            0x84, 0xc0,
        ],
    );
    let matched = emit_short_jump_placeholder(code, 0x74);
    push_bytes(code, &[0x41, 0x80, 0x3b, 0x00]);
    let advance = emit_short_jump_placeholder(code, 0x74);
    push_bytes(code, &[0x41, 0x3a, 0x03]);
    let mismatch = emit_short_jump_placeholder(code, 0x75);
    push_bytes(
        code,
        &[
            0x49, 0xff, 0xc3,
            0x49, 0xff, 0xc2,
        ],
    );
    emit_short_jump_back(code, inner);
    let found_target = code.len();
    push_bytes(
        code,
        &[
            0x49, 0xff, 0xc1,
            0x4d, 0x89, 0xd8,
        ],
    );
    emit_short_jump_back(code, outer);
    let advance_target = code.len();
    push_bytes(code, &[0x49, 0xff, 0xc0]);
    emit_short_jump_back(code, outer);
    let return_target = code.len();
    push_bytes(
        code,
        &[
            0x4c, 0x89, 0xc8,
            0xc3,
        ],
    );
    patch_short_jump(code, empty_needle, return_target);
    patch_short_jump(code, source_end, return_target);
    patch_short_jump(code, matched, found_target);
    patch_short_jump(code, advance, return_target);
    patch_short_jump(code, mismatch, advance_target);
    assert(code@ =~= old(code)@ + string_count_code());
}

/// The machine code of the Windows `mem_fill` helper routine.
pub open spec fn mem_fill_code() -> Seq<u8> {
    seq![
        0x48u8, 0x89, 0xcf, 0x48, 0x89, 0xd1, 0x44, 0x88, 0xc0, 0xf3, 0xaa, 0x31, 0xc0, 0xc3,
    ]
}

pub(crate) fn emit_mem_fill_helper(code: &mut Vec<u8>)
    requires
        has_room(old(code)@),
    ensures
        final(code)@ == old(code)@ + mem_fill_code(),
        final(code)@.len() == old(code)@.len() + 14,
{
    push_bytes(
        code,
        &[
            0x48, 0x89, 0xcf,
            0x48, 0x89, 0xd1,
            0x44, 0x88, 0xc0,
            0xf3, 0xaa,
            0x31, 0xc0, 0xc3,
        ],
    );
    assert(code@ =~= old(code)@ + mem_fill_code());
}

/// The machine code of the Windows `mem_find` helper routine.
pub open spec fn mem_find_code() -> Seq<u8> {
    seq![
        0x4du8, 0x31, 0xc9, 0x48, 0x85, 0xd2, 0x74, 0x12, 0x46, 0x38, 0x04, 0x09, 0x74, 0x08, 0x49, 0xff,
        0xc1, 0x48, 0xff, 0xca, 0xeb, 0xf2, 0x4c, 0x89, 0xc8, 0xc3, 0x48, 0xc7, 0xc0, 0xff, 0xff, 0xff,
        0xff, 0xc3,
    ]
}

pub(crate) fn emit_mem_find_helper(code: &mut Vec<u8>)
    requires
        has_room(old(code)@),
    ensures
        final(code)@ == old(code)@ + mem_find_code(),
        final(code)@.len() == old(code)@.len() + 34,
{
    push_bytes(
        code,
        &[
            0x4d, 0x31, 0xc9,
            0x48, 0x85, 0xd2,
        ],
    );
    let empty = emit_short_jump_placeholder(code, 0x74);
    let loop_start = code.len();
    push_bytes(code, &[0x46, 0x38, 0x04, 0x09]);
    let found = emit_short_jump_placeholder(code, 0x74);
    push_bytes(
        code,
        &[
            0x49, 0xff, 0xc1,
            0x48, 0xff, 0xca,
        ],
    );
    emit_short_jump_back(code, loop_start);
    let found_target = code.len();
    push_bytes(code, &[0x4c, 0x89, 0xc8, 0xc3]);
    let not_found = code.len();
    push_bytes(code, &[0x48, 0xc7, 0xc0, 0xff, 0xff, 0xff, 0xff, 0xc3]);
    patch_short_jump(code, empty, not_found);
    patch_short_jump(code, found, found_target);
    assert(code@ =~= old(code)@ + mem_find_code());
}

/// The machine code of the Windows `mem_compare` helper routine.
pub open spec fn mem_compare_code() -> Seq<u8> {
    seq![
        0x4du8, 0x85, 0xc0, 0x74, 0x13, 0x8a, 0x01, 0x3a, 0x02, 0x72, 0x10, 0x77, 0x14, 0x48, 0xff, 0xc1,
        0x48, 0xff, 0xc2, 0x49, 0xff, 0xc8, 0xeb, 0xed, 0x31, 0xc0, 0xc3, 0xb8, 0xff, 0xff, 0xff, 0xff,
        0xc3, 0xb8, 0x01, 0x00, 0x00, 0x00, 0xc3,
    ]
}

#[verifier::spinoff_prover]
#[verifier::rlimit(100)]
pub(crate) fn emit_mem_compare_helper(code: &mut Vec<u8>)
    requires
        has_room(old(code)@),
    ensures
        final(code)@ == old(code)@ + mem_compare_code(),
        final(code)@.len() == old(code)@.len() + 39,
{
    push_bytes(code, &[0x4d, 0x85, 0xc0]);
    let empty = emit_short_jump_placeholder(code, 0x74);
    let loop_start = code.len();
    push_bytes(
        code,
        &[
            0x8a, 0x01,
            0x3a, 0x02,
        ],
    );
    let less = emit_short_jump_placeholder(code, 0x72);
    let greater = emit_short_jump_placeholder(code, 0x77);
    push_bytes(
        code,
        &[
            0x48, 0xff, 0xc1,
            0x48, 0xff, 0xc2,
            0x49, 0xff, 0xc8,
        ],
    );
    emit_short_jump_back(code, loop_start);
    let equal_target = code.len();
    push_bytes(code, &[0x31, 0xc0, 0xc3]);
    let less_target = code.len();
    push_bytes(code, &[0xb8, 0xff, 0xff, 0xff, 0xff, 0xc3]);
    let greater_target = code.len();
    push_bytes(code, &[0xb8, 0x01, 0x00, 0x00, 0x00, 0xc3]);
    patch_short_jump(code, empty, equal_target);
    patch_short_jump(code, less, less_target);
    patch_short_jump(code, greater, greater_target);
    assert(code@ =~= old(code)@ + mem_compare_code());
}

/// The machine code of the Windows `mem_equal` helper routine.
pub open spec fn mem_equal_code() -> Seq<u8> {
    seq![
        0x4du8, 0x85, 0xc0, 0x74, 0x11, 0x8a, 0x01, 0x3a, 0x02, 0x75, 0x11, 0x48, 0xff, 0xc1, 0x48, 0xff,
        0xc2, 0x49, 0xff, 0xc8, 0xeb, 0xef, 0xb8, 0x01, 0x00, 0x00, 0x00, 0xc3, 0x31, 0xc0, 0xc3,
    ]
}

pub(crate) fn emit_mem_equal_helper(code: &mut Vec<u8>)
    requires
        has_room(old(code)@),
    ensures
        final(code)@ == old(code)@ + mem_equal_code(),
        final(code)@.len() == old(code)@.len() + 31,
{
    push_bytes(code, &[0x4d, 0x85, 0xc0]);
    let empty = emit_short_jump_placeholder(code, 0x74);
    let loop_start = code.len();
    push_bytes(
        code,
        &[
            0x8a, 0x01,
            0x3a, 0x02,
        ],
    );
    let not_equal = emit_short_jump_placeholder(code, 0x75);
    push_bytes(
        code,
        &[
            0x48, 0xff, 0xc1,
            0x48, 0xff, 0xc2,
            0x49, 0xff, 0xc8,
        ],
    );
    emit_short_jump_back(code, loop_start);
    let equal_target = code.len();
    push_bytes(code, &[0xb8, 0x01, 0x00, 0x00, 0x00, 0xc3]);
    let false_target = code.len();
    push_bytes(code, &[0x31, 0xc0, 0xc3]);
    patch_short_jump(code, empty, equal_target);
    patch_short_jump(code, not_equal, false_target);
    assert(code@ =~= old(code)@ + mem_equal_code());
}

/// The machine code of the Windows `mem_is_zero` helper routine.
pub open spec fn mem_is_zero_code() -> Seq<u8> {
    seq![
        0x48u8, 0x85, 0xd2, 0x74, 0x0d, 0x80, 0x39, 0x00, 0x75, 0x0e, 0x48, 0xff, 0xc1, 0x48, 0xff, 0xca,
        0xeb, 0xf3, 0xb8, 0x01, 0x00, 0x00, 0x00, 0xc3, 0x31, 0xc0, 0xc3,
    ]
}

pub(crate) fn emit_mem_is_zero_helper(code: &mut Vec<u8>)
    requires
        has_room(old(code)@),
    ensures
        final(code)@ == old(code)@ + mem_is_zero_code(),
        final(code)@.len() == old(code)@.len() + 27,
{
    push_bytes(code, &[0x48, 0x85, 0xd2]);
    let empty = emit_short_jump_placeholder(code, 0x74);
    let loop_start = code.len();
    push_bytes(code, &[0x80, 0x39, 0x00]);
    let not_zero = emit_short_jump_placeholder(code, 0x75);
    push_bytes(
        code,
        &[
            0x48, 0xff, 0xc1,
            0x48, 0xff, 0xca,
        ],
    );
    emit_short_jump_back(code, loop_start);
    let zero_target = code.len();
    push_bytes(code, &[0xb8, 0x01, 0x00, 0x00, 0x00, 0xc3]);
    let false_target = code.len();
    push_bytes(code, &[0x31, 0xc0, 0xc3]);
    patch_short_jump(code, empty, zero_target);
    patch_short_jump(code, not_zero, false_target);
    assert(code@ =~= old(code)@ + mem_is_zero_code());
}

/// The machine code of the Windows `mem_reverse` helper routine.
pub open spec fn mem_reverse_code() -> Seq<u8> {
    seq![
        0x48u8, 0x85, 0xd2, 0x74, 0x1c, 0x48, 0x8d, 0x54, 0x11, 0xff, 0x48, 0x39, 0xd1, 0x73, 0x12, 0x8a,
        0x01, 0x44, 0x8a, 0x1a, 0x44, 0x88, 0x19, 0x88, 0x02, 0x48, 0xff, 0xc1, 0x48, 0xff, 0xca, 0xeb,
        0xe9, 0x31, 0xc0, 0xc3,
    ]
}

pub(crate) fn emit_mem_reverse_helper(code: &mut Vec<u8>)
    requires
        has_room(old(code)@),
    ensures
        final(code)@ == old(code)@ + mem_reverse_code(),
        final(code)@.len() == old(code)@.len() + 36,
{
    push_bytes(code, &[0x48, 0x85, 0xd2]);
    let empty = emit_short_jump_placeholder(code, 0x74);
    push_bytes(code, &[0x48, 0x8d, 0x54, 0x11, 0xff]);
    let loop_start = code.len();
    push_bytes(code, &[0x48, 0x39, 0xd1]);
    let done = emit_short_jump_placeholder(code, 0x73);
    push_bytes(
        code,
        &[
            0x8a, 0x01,
            0x44, 0x8a, 0x1a,
            0x44, 0x88, 0x19,
            0x88, 0x02,
            0x48, 0xff, 0xc1,
            0x48, 0xff, 0xca,
        ],
    );
    emit_short_jump_back(code, loop_start);
    let done_target = code.len();
    push_bytes(code, &[0x31, 0xc0, 0xc3]);
    patch_short_jump(code, empty, done_target);
    patch_short_jump(code, done, done_target);
    assert(code@ =~= old(code)@ + mem_reverse_code());
}

/// The labels of the Windows UTF-8 validation helper.
struct Utf8ValidHelperLabels {
    null_value: usize,
    loop_start: usize,
    done: usize,
    ascii: usize,
    invalid_lead: usize,
    two: usize,
    three: usize,
    four_invalid: usize,
    four_second_checks: (usize, usize),
    four_third_checks: (usize, usize),
    four_fourth_checks: (usize, usize),
    four_second_low: usize,
    four_not_f4: usize,
    four_second_high: usize,
    four_advance: usize,
    four_loop: usize,
    three_target: usize,
    three_second_checks: (usize, usize),
    three_third_checks: (usize, usize),
    three_not_e0: usize,
    three_e0_low: usize,
    three_e0_done: usize,
    three_ed_check: usize,
    three_not_ed: usize,
    three_ed_high: usize,
    three_advance: usize,
    three_loop: usize,
    two_target: usize,
    two_checks: (usize, usize),
    two_loop: usize,
    ascii_target: usize,
    ascii_loop: usize,
    success: usize,
    failure: usize,
}

/// Where the labels of the routine lie.
spec fn utf8_valid_helper_labels() -> Utf8ValidHelperLabels {
    Utf8ValidHelperLabels {
        null_value: 5,
        loop_start: 12,
        done: 20,
        ascii: 30,
        invalid_lead: 40,
        two: 50,
        three: 60,
        four_invalid: 70,
        four_second_checks: (93, 103),
        four_third_checks: (113, 123),
        four_fourth_checks: (132, 141),
        four_second_low: 151,
        four_not_f4: 161,
        four_second_high: 171,
        four_advance: 175,
        four_loop: 180,
        three_target: 184,
        three_second_checks: (198, 208),
        three_third_checks: (218, 228),
        three_not_e0: 238,
        three_e0_low: 248,
        three_e0_done: 253,
        three_ed_check: 257,
        three_not_ed: 263,
        three_ed_high: 273,
        three_advance: 277,
        three_loop: 282,
        two_target: 286,
        two_checks: (296, 306),
        two_loop: 315,
        ascii_target: 319,
        ascii_loop: 323,
        success: 327,
        failure: 333,
    }
}

/// The routine before its jumps are filled in.
closed spec fn utf8_valid_helper_skeleton() -> Seq<u8> {
    seq![
            0x48u8, 0x85, 0xc9, 0x0f, 0x84, 0x00, 0x00, 0x00, 0x00, 0x49, 0x89, 0xc8, 0x45, 0x8a, 0x08, 0x45,
            0x84, 0xc9, 0x0f, 0x84, 0x00, 0x00, 0x00, 0x00, 0x41, 0x80, 0xf9, 0x80, 0x0f, 0x82, 0x00, 0x00,
            0x00, 0x00, 0x41, 0x80, 0xf9, 0xc2, 0x0f, 0x82, 0x00, 0x00, 0x00, 0x00, 0x41, 0x80, 0xf9, 0xe0,
            0x0f, 0x82, 0x00, 0x00, 0x00, 0x00, 0x41, 0x80, 0xf9, 0xf0, 0x0f, 0x82, 0x00, 0x00, 0x00, 0x00,
            0x41, 0x80, 0xf9, 0xf5, 0x0f, 0x87, 0x00, 0x00, 0x00, 0x00, 0x45, 0x8a, 0x50, 0x01, 0x45, 0x8a,
            0x58, 0x02, 0x41, 0x8a, 0x4c, 0x20, 0x03, 0x41, 0x80, 0xfa, 0x80, 0x0f, 0x82, 0x00, 0x00, 0x00,
            0x00, 0x41, 0x80, 0xfa, 0xbf, 0x0f, 0x87, 0x00, 0x00, 0x00, 0x00, 0x41, 0x80, 0xfb, 0x80, 0x0f,
            0x82, 0x00, 0x00, 0x00, 0x00, 0x41, 0x80, 0xfb, 0xbf, 0x0f, 0x87, 0x00, 0x00, 0x00, 0x00, 0x80,
            0xf9, 0x80, 0x0f, 0x82, 0x00, 0x00, 0x00, 0x00, 0x80, 0xf9, 0xbf, 0x0f, 0x87, 0x00, 0x00, 0x00,
            0x00, 0x41, 0x80, 0xfa, 0x90, 0x0f, 0x82, 0x00, 0x00, 0x00, 0x00, 0x41, 0x80, 0xf9, 0xf4, 0x0f,
            0x85, 0x00, 0x00, 0x00, 0x00, 0x41, 0x80, 0xfa, 0x8f, 0x0f, 0x87, 0x00, 0x00, 0x00, 0x00, 0x49,
            0x83, 0xc0, 0x04, 0xe9, 0x00, 0x00, 0x00, 0x00, 0x45, 0x8a, 0x50, 0x01, 0x45, 0x8a, 0x58, 0x02,
            0x41, 0x80, 0xfa, 0x80, 0x0f, 0x82, 0x00, 0x00, 0x00, 0x00, 0x41, 0x80, 0xfa, 0xbf, 0x0f, 0x87,
            0x00, 0x00, 0x00, 0x00, 0x41, 0x80, 0xfb, 0x80, 0x0f, 0x82, 0x00, 0x00, 0x00, 0x00, 0x41, 0x80,
            0xfb, 0xbf, 0x0f, 0x87, 0x00, 0x00, 0x00, 0x00, 0x41, 0x80, 0xf9, 0xe0, 0x0f, 0x85, 0x00, 0x00,
            0x00, 0x00, 0x41, 0x80, 0xfa, 0xa0, 0x0f, 0x82, 0x00, 0x00, 0x00, 0x00, 0xe9, 0x00, 0x00, 0x00,
            0x00, 0x41, 0x80, 0xf9, 0xed, 0x0f, 0x85, 0x00, 0x00, 0x00, 0x00, 0x41, 0x80, 0xfa, 0x9f, 0x0f,
            0x87, 0x00, 0x00, 0x00, 0x00, 0x49, 0x83, 0xc0, 0x03, 0xe9, 0x00, 0x00, 0x00, 0x00, 0x45, 0x8a,
            0x50, 0x01, 0x41, 0x80, 0xfa, 0x80, 0x0f, 0x82, 0x00, 0x00, 0x00, 0x00, 0x41, 0x80, 0xfa, 0xbf,
            0x0f, 0x87, 0x00, 0x00, 0x00, 0x00, 0x49, 0x83, 0xc0, 0x02, 0xe9, 0x00, 0x00, 0x00, 0x00, 0x49,
            0xff, 0xc0, 0xe9, 0x00, 0x00, 0x00, 0x00, 0xb8, 0x01, 0x00, 0x00, 0x00, 0xc3, 0x31, 0xc0, 0xc3,
        ]
}

/// Appends the routine with empty jumps and returns where its labels lie.
#[verifier::spinoff_prover]
#[verifier::rlimit(100)]
fn emit_utf8_valid_helper_skeleton(routine: &mut Vec<u8>) -> (labels: Utf8ValidHelperLabels)
    requires
        old(routine)@.len() == 0,
    ensures
        final(routine)@ == utf8_valid_helper_skeleton(),
        labels == utf8_valid_helper_labels(),
{
    push_bytes(routine, &[0x48, 0x85, 0xc9]);
    let null_value = emit_near_jump_placeholder(routine, 0x0f, 0x84);
    push_bytes(routine, &[0x49, 0x89, 0xc8]);
    let loop_start = routine.len();
    push_bytes(routine, &[0x45, 0x8a, 0x08, 0x45, 0x84, 0xc9]);
    let done = emit_near_jump_placeholder(routine, 0x0f, 0x84);
    push_bytes(routine, &[0x41, 0x80, 0xf9, 0x80]);
    let ascii = emit_near_jump_placeholder(routine, 0x0f, 0x82);
    push_bytes(routine, &[0x41, 0x80, 0xf9, 0xc2]);
    let invalid_lead = emit_near_jump_placeholder(routine, 0x0f, 0x82);
    push_bytes(routine, &[0x41, 0x80, 0xf9, 0xe0]);
    let two = emit_near_jump_placeholder(routine, 0x0f, 0x82);
    push_bytes(routine, &[0x41, 0x80, 0xf9, 0xf0]);
    let three = emit_near_jump_placeholder(routine, 0x0f, 0x82);
    push_bytes(routine, &[0x41, 0x80, 0xf9, 0xf5]);
    let four_invalid = emit_near_jump_placeholder(routine, 0x0f, 0x87);
    push_bytes(routine, &[0x45, 0x8a, 0x50, 0x01, 0x45, 0x8a, 0x58, 0x02, 0x41, 0x8a, 0x4c, 0x20, 0x03]);
    let four_second_checks = emit_utf8_continuation_check(routine, 0x41, 0xfa);
    let four_third_checks = emit_utf8_continuation_check(routine, 0x41, 0xfb);
    let four_fourth_checks = emit_utf8_continuation_check(routine, 0x00, 0xf9);
    push_bytes(routine, &[0x41, 0x80, 0xfa, 0x90]);
    let four_second_low = emit_near_jump_placeholder(routine, 0x0f, 0x82);
    push_bytes(routine, &[0x41, 0x80, 0xf9, 0xf4]);
    let four_not_f4 = emit_near_jump_placeholder(routine, 0x0f, 0x85);
    push_bytes(routine, &[0x41, 0x80, 0xfa, 0x8f]);
    let four_second_high = emit_near_jump_placeholder(routine, 0x0f, 0x87);
    let four_advance = routine.len();
    push_bytes(routine, &[0x49, 0x83, 0xc0, 0x04]);
    let four_loop = emit_near_unconditional_placeholder(routine);
    let three_target = routine.len();
    push_bytes(routine, &[0x45, 0x8a, 0x50, 0x01, 0x45, 0x8a, 0x58, 0x02]);
    let three_second_checks = emit_utf8_continuation_check(routine, 0x41, 0xfa);
    let three_third_checks = emit_utf8_continuation_check(routine, 0x41, 0xfb);
    push_bytes(routine, &[0x41, 0x80, 0xf9, 0xe0]);
    let three_not_e0 = emit_near_jump_placeholder(routine, 0x0f, 0x85);
    push_bytes(routine, &[0x41, 0x80, 0xfa, 0xa0]);
    let three_e0_low = emit_near_jump_placeholder(routine, 0x0f, 0x82);
    let three_e0_done = emit_near_unconditional_placeholder(routine);
    let three_ed_check = routine.len();
    push_bytes(routine, &[0x41, 0x80, 0xf9, 0xed]);
    let three_not_ed = emit_near_jump_placeholder(routine, 0x0f, 0x85);
    push_bytes(routine, &[0x41, 0x80, 0xfa, 0x9f]);
    let three_ed_high = emit_near_jump_placeholder(routine, 0x0f, 0x87);
    let three_advance = routine.len();
    push_bytes(routine, &[0x49, 0x83, 0xc0, 0x03]);
    let three_loop = emit_near_unconditional_placeholder(routine);
    let two_target = routine.len();
    push_bytes(routine, &[0x45, 0x8a, 0x50, 0x01]);
    let two_checks = emit_utf8_continuation_check(routine, 0x41, 0xfa);
    push_bytes(routine, &[0x49, 0x83, 0xc0, 0x02]);
    let two_loop = emit_near_unconditional_placeholder(routine);
    let ascii_target = routine.len();
    push_bytes(routine, &[0x49, 0xff, 0xc0]);
    let ascii_loop = emit_near_unconditional_placeholder(routine);
    let success = routine.len();
    push_bytes(routine, &[0xb8, 0x01, 0x00, 0x00, 0x00, 0xc3]);
    let failure = routine.len();
    push_bytes(routine, &[0x31, 0xc0, 0xc3]);
    assert(routine@ =~= utf8_valid_helper_skeleton());
    Utf8ValidHelperLabels {
        null_value,
        loop_start,
        done,
        ascii,
        invalid_lead,
        two,
        three,
        four_invalid,
        four_second_checks,
        four_third_checks,
        four_fourth_checks,
        four_second_low,
        four_not_f4,
        four_second_high,
        four_advance,
        four_loop,
        three_target,
        three_second_checks,
        three_third_checks,
        three_not_e0,
        three_e0_low,
        three_e0_done,
        three_ed_check,
        three_not_ed,
        three_ed_high,
        three_advance,
        three_loop,
        two_target,
        two_checks,
        two_loop,
        ascii_target,
        ascii_loop,
        success,
        failure,
    }
}

/// Fills in the jumps of the routine.
#[verifier::spinoff_prover]
#[verifier::rlimit(100)]
fn patch_utf8_valid_helper_jumps(routine: &mut Vec<u8>, labels: &Utf8ValidHelperLabels)
    requires
        old(routine)@ == utf8_valid_helper_skeleton(),
        *labels == utf8_valid_helper_labels(),
    ensures
        final(routine)@ == string_utf8_valid_helper_code(),
{
    patch_jump(routine, labels.null_value, labels.success);
    patch_jump(routine, labels.done, labels.success);
    patch_jump(routine, labels.ascii, labels.ascii_target);
    patch_jump(routine, labels.invalid_lead, labels.failure);
    patch_jump(routine, labels.two, labels.two_target);
    patch_jump(routine, labels.three, labels.three_target);
    patch_jump(routine, labels.four_invalid, labels.failure);
    patch_jump(routine, labels.four_second_low, labels.failure);
    patch_jump(routine, labels.four_not_f4, labels.four_advance);
    patch_jump(routine, labels.four_second_high, labels.failure);
    patch_jump(routine, labels.three_not_e0, labels.three_ed_check);
    patch_jump(routine, labels.three_e0_low, labels.failure);
    patch_jump(routine, labels.three_e0_done, labels.three_advance);
    patch_jump(routine, labels.three_not_ed, labels.three_advance);
    patch_jump(routine, labels.three_ed_high, labels.failure);
    patch_jump(routine, labels.four_loop, labels.loop_start);
    patch_jump(routine, labels.three_loop, labels.loop_start);
    patch_jump(routine, labels.two_loop, labels.loop_start);
    patch_jump(routine, labels.ascii_loop, labels.loop_start);
    patch_jump(routine, labels.four_second_checks.0, labels.failure);
    patch_jump(routine, labels.four_second_checks.1, labels.failure);
    patch_jump(routine, labels.four_third_checks.0, labels.failure);
    patch_jump(routine, labels.four_third_checks.1, labels.failure);
    patch_jump(routine, labels.four_fourth_checks.0, labels.failure);
    patch_jump(routine, labels.four_fourth_checks.1, labels.failure);
    patch_jump(routine, labels.three_second_checks.0, labels.failure);
    patch_jump(routine, labels.three_second_checks.1, labels.failure);
    patch_jump(routine, labels.three_third_checks.0, labels.failure);
    patch_jump(routine, labels.three_third_checks.1, labels.failure);
    patch_jump(routine, labels.two_checks.0, labels.failure);
    patch_jump(routine, labels.two_checks.1, labels.failure);
    assert(routine@ =~= string_utf8_valid_helper_code());
}

/// The machine code of the Windows UTF-8 validation helper: 1 where the string in `rcx` is well-formed UTF-8 (or null), 0 where it is not.
pub open spec fn string_utf8_valid_helper_code() -> Seq<u8> {
    seq![
            0x48u8, 0x85, 0xc9, 0x0f, 0x84, 0x3e, 0x01, 0x00, 0x00, 0x49, 0x89, 0xc8, 0x45, 0x8a, 0x08, 0x45,
            0x84, 0xc9, 0x0f, 0x84, 0x2f, 0x01, 0x00, 0x00, 0x41, 0x80, 0xf9, 0x80, 0x0f, 0x82, 0x1d, 0x01,
            0x00, 0x00, 0x41, 0x80, 0xf9, 0xc2, 0x0f, 0x82, 0x21, 0x01, 0x00, 0x00, 0x41, 0x80, 0xf9, 0xe0,
            0x0f, 0x82, 0xe8, 0x00, 0x00, 0x00, 0x41, 0x80, 0xf9, 0xf0, 0x0f, 0x82, 0x78, 0x00, 0x00, 0x00,
            0x41, 0x80, 0xf9, 0xf5, 0x0f, 0x87, 0x03, 0x01, 0x00, 0x00, 0x45, 0x8a, 0x50, 0x01, 0x45, 0x8a,
            0x58, 0x02, 0x41, 0x8a, 0x4c, 0x20, 0x03, 0x41, 0x80, 0xfa, 0x80, 0x0f, 0x82, 0xec, 0x00, 0x00,
            0x00, 0x41, 0x80, 0xfa, 0xbf, 0x0f, 0x87, 0xe2, 0x00, 0x00, 0x00, 0x41, 0x80, 0xfb, 0x80, 0x0f,
            0x82, 0xd8, 0x00, 0x00, 0x00, 0x41, 0x80, 0xfb, 0xbf, 0x0f, 0x87, 0xce, 0x00, 0x00, 0x00, 0x80,
            0xf9, 0x80, 0x0f, 0x82, 0xc5, 0x00, 0x00, 0x00, 0x80, 0xf9, 0xbf, 0x0f, 0x87, 0xbc, 0x00, 0x00,
            0x00, 0x41, 0x80, 0xfa, 0x90, 0x0f, 0x82, 0xb2, 0x00, 0x00, 0x00, 0x41, 0x80, 0xf9, 0xf4, 0x0f,
            0x85, 0x0a, 0x00, 0x00, 0x00, 0x41, 0x80, 0xfa, 0x8f, 0x0f, 0x87, 0x9e, 0x00, 0x00, 0x00, 0x49,
            0x83, 0xc0, 0x04, 0xe9, 0x54, 0xff, 0xff, 0xff, 0x45, 0x8a, 0x50, 0x01, 0x45, 0x8a, 0x58, 0x02,
            0x41, 0x80, 0xfa, 0x80, 0x0f, 0x82, 0x83, 0x00, 0x00, 0x00, 0x41, 0x80, 0xfa, 0xbf, 0x0f, 0x87,
            0x79, 0x00, 0x00, 0x00, 0x41, 0x80, 0xfb, 0x80, 0x0f, 0x82, 0x6f, 0x00, 0x00, 0x00, 0x41, 0x80,
            0xfb, 0xbf, 0x0f, 0x87, 0x65, 0x00, 0x00, 0x00, 0x41, 0x80, 0xf9, 0xe0, 0x0f, 0x85, 0x0f, 0x00,
            0x00, 0x00, 0x41, 0x80, 0xfa, 0xa0, 0x0f, 0x82, 0x51, 0x00, 0x00, 0x00, 0xe9, 0x14, 0x00, 0x00,
            0x00, 0x41, 0x80, 0xf9, 0xed, 0x0f, 0x85, 0x0a, 0x00, 0x00, 0x00, 0x41, 0x80, 0xfa, 0x9f, 0x0f,
            0x87, 0x38, 0x00, 0x00, 0x00, 0x49, 0x83, 0xc0, 0x03, 0xe9, 0xee, 0xfe, 0xff, 0xff, 0x45, 0x8a,
            0x50, 0x01, 0x41, 0x80, 0xfa, 0x80, 0x0f, 0x82, 0x21, 0x00, 0x00, 0x00, 0x41, 0x80, 0xfa, 0xbf,
            0x0f, 0x87, 0x17, 0x00, 0x00, 0x00, 0x49, 0x83, 0xc0, 0x02, 0xe9, 0xcd, 0xfe, 0xff, 0xff, 0x49,
            0xff, 0xc0, 0xe9, 0xc5, 0xfe, 0xff, 0xff, 0xb8, 0x01, 0x00, 0x00, 0x00, 0xc3, 0x31, 0xc0, 0xc3,
        ]
}

pub(crate) fn emit_string_utf8_valid_helper(code: &mut Vec<u8>)
    ensures
        final(code)@ == old(code)@ + string_utf8_valid_helper_code(),
        final(code)@.len() == old(code)@.len() + 336,
{
    let mut routine: Vec<u8> = Vec::new();
    let labels = emit_utf8_valid_helper_skeleton(&mut routine);
    patch_utf8_valid_helper_jumps(&mut routine, &labels);
    push_bytes(code, routine.as_slice());
}

} // verus!
