//! Windows executables built from compiled code: an entry stub that calls `main` and exits
//! with its result, the code image's text, the helper routines that its relocations call for,
//! every relocation filled in, then the read-only data and the import table around it.
use vstd::prelude::*;
use crate::bytes::{pad_to, padded, push_bytes, spec_align_to};
use crate::elf::{find_function, first_offset, image_wf, requested, ObjectImage};
use crate::ir::IrProgram;
use crate::pe::{
    build_idata, build_image, emit_pe64_console, first_thunk_rva, fixed_placement, idata_describes, image_headers,
    layout_imports, plan_image, rdata_file_size, rdata_raw, rel32_to, run_function, slot_of, slots_below,
    slots_follow_imports, utf8_len, Import, Layout, ValueView, FILE_ALIGNMENT,
};
use crate::pe_helpers::{
    array_capacity_code, array_clear_code, array_fill_code, array_first_code, array_get_code,
    array_is_empty_code, array_last_code, array_len_code, array_push_code, array_reverse_code, array_set_code,
    emit_array_capacity_helper, emit_array_clear_helper, emit_array_fill_helper, emit_array_first_helper,
    emit_array_get_helper, emit_array_is_empty_helper, emit_array_last_helper, emit_array_len_helper,
    emit_array_push_helper, emit_array_reverse_helper, emit_array_set_helper, emit_mem_compare_helper,
    emit_mem_equal_helper, emit_mem_fill_helper, emit_mem_find_helper, emit_mem_is_zero_helper,
    emit_mem_reverse_helper, emit_string_byte_at_helper, emit_string_compare_helper, emit_string_count_helper,
    emit_string_find_byte_helper, emit_string_greater_helper, emit_string_index_of_helper,
    emit_string_is_empty_helper, emit_string_last_find_byte_helper, emit_string_last_index_of_helper,
    emit_string_len_helper, emit_string_less_helper, emit_string_utf8_len_helper,
    emit_string_utf8_valid_helper, mem_compare_code, mem_equal_code, mem_fill_code, mem_find_code,
    mem_is_zero_code, mem_reverse_code, string_byte_at_code, string_compare_code, string_count_code,
    string_find_byte_code, string_greater_code, string_index_of_code, string_is_empty_code,
    string_last_find_byte_code, string_last_index_of_code, string_len_code, string_less_code,
    string_utf8_len_code, string_utf8_valid_helper_code,
};
use crate::pe_link::{
    build_compiled_rdata, compiled_layout, compiled_rdata, compiled_relocated, needs_console_helpers, needs_file_metadata,
    needs_file_ops, needs_file_read, needs_virtual_alloc, patch_compiled_relocations, requests, symbol_rva, PeHelperRvas,
};
use crate::pe_routines::{
    alloc_array_code, alloc_code, alloc_copy_code, append_file_code, array_clone_code, array_contains_code,
    array_free_code, array_index_of_code, array_last_index_of_code, array_new_code, array_reserve_code,
    bounds_check_code, emit_alloc_array_helper, emit_alloc_copy_helper, emit_alloc_helper,
    emit_append_file_helper, emit_array_clone_helper, emit_array_contains_helper, emit_array_free_helper,
    emit_array_index_of_helper, emit_array_last_index_of_helper, emit_array_new_helper,
    emit_array_reserve_helper, emit_bounds_check_helper, emit_file_close_helper, emit_file_exists_helper,
    emit_file_is_dir_helper, emit_file_is_empty_helper, emit_file_is_file_helper,
    emit_file_open_append_helper, emit_file_open_helper, emit_file_open_write_helper,
    emit_file_read_to_string_helper, emit_file_size_helper, emit_file_write_helper, emit_mem_copy_helper,
    emit_mem_move_helper, emit_mem_zero_helper, emit_print_helper, emit_println_helper,
    emit_process_exit_helper, emit_read_file_helper, emit_read_file_or_helper, emit_read_line_helper,
    emit_remove_file_helper, emit_string_clone_helper, emit_string_concat_helper, emit_string_contains_helper,
    emit_string_ends_with_helper, emit_string_eq_helper, emit_string_from_byte_helper,
    emit_string_greater_or_equal_helper, emit_string_is_ascii_alnum_helper, emit_string_is_ascii_alpha_helper,
    emit_string_is_ascii_digit_helper, emit_string_is_ascii_helper, emit_string_is_ascii_hex_digit_helper,
    emit_string_is_ascii_identifier_helper, emit_string_is_ascii_lower_helper,
    emit_string_is_ascii_upper_helper, emit_string_is_ascii_whitespace_helper,
    emit_string_less_or_equal_helper, emit_string_not_eq_helper, emit_string_parse_int_helper,
    emit_string_slice_helper, emit_string_starts_with_helper, emit_string_utf8_byte_offset_helper,
    emit_string_utf8_codepoint_at_helper, emit_string_utf8_index_at_helper,
    emit_string_utf8_is_boundary_helper, emit_string_utf8_next_offset_helper,
    emit_string_utf8_prev_offset_helper, emit_touch_file_helper, emit_write_file_helper, file_close_code,
    file_exists_code, file_is_dir_code, file_is_empty_code, file_is_file_code, file_open_append_code,
    file_open_code, file_open_write_code, file_read_to_string_code, file_size_code, file_write_code,
    mem_copy_code, mem_move_code, mem_zero_code, print_code, println_code, process_exit_code, read_file_code,
    read_file_or_code, read_line_code, remove_file_code, string_clone_code, string_concat_code,
    string_contains_code, string_ends_with_code, string_eq_code, string_from_byte_code,
    string_greater_or_equal_code, string_is_ascii_alnum_code, string_is_ascii_alpha_code,
    string_is_ascii_code, string_is_ascii_digit_code, string_is_ascii_hex_digit_code,
    string_is_ascii_identifier_code, string_is_ascii_lower_code, string_is_ascii_upper_code,
    string_is_ascii_whitespace_code, string_less_or_equal_code, string_not_eq_code, string_parse_int_code,
    string_slice_code, string_starts_with_code, string_utf8_byte_offset_code, string_utf8_codepoint_at_code,
    string_utf8_index_at_code, string_utf8_is_boundary_code, string_utf8_next_offset_code,
    string_utf8_prev_offset_code, touch_file_code, write_file_code, routine_targets, emit_rel32,
};

verus! {

/// The helper routines of a compiled image, in the order in which they are laid out.
#[derive(Debug, Clone, Copy, PartialEq, Eq, Structural)]
pub enum PeHelper {
    StringLen,
    StringUtf8Len,
    StringUtf8CodepointAt,
    StringIsUtf8,
    StringUtf8IsValid,
    StringUtf8ByteOffset,
    StringUtf8NextOffset,
    StringUtf8PrevOffset,
    StringUtf8IndexAt,
    StringUtf8IsBoundary,
    ArrayNew,
    ArrayClone,
    ArrayReserve,
    ArrayFirst,
    ArrayLast,
    ArrayFill,
    ArrayReverse,
    ArrayIndexOf,
    ArrayLastIndexOf,
    ArrayContains,
    ArrayCount,
    ArrayLen,
    ArrayCapacity,
    ArrayIsEmpty,
    ArrayGet,
    ArraySet,
    ArrayPush,
    ArrayClear,
    ArrayFree,
    StringConcat,
    StringByteAt,
    StringCompare,
    StringContains,
    StringStartsWith,
    StringEndsWith,
    StringEq,
    StringNotEq,
    StringLess,
    StringLessOrEqual,
    StringGreater,
    StringGreaterOrEqual,
    StringIsEmpty,
    StringIsAscii,
    StringIsAsciiDigit,
    StringIsAsciiHexDigit,
    StringIsAsciiAlpha,
    StringIsAsciiLower,
    StringIsAsciiUpper,
    StringIsAsciiAlnum,
    StringIsAsciiIdentifier,
    StringIsAsciiWhitespace,
    StringFindByte,
    StringLastFindByte,
    StringIndexOf,
    StringLastIndexOf,
    StringCount,
    StringParseInt,
    BoundsCheck,
    Print,
    Println,
    Alloc,
    MemCopy,
    MemZero,
    MemMove,
    MemFill,
    MemFind,
    MemCompare,
    MemEqual,
    MemIsZero,
    MemReverse,
    StringFromByte,
    StringClone,
    StringSlice,
    AllocCopy,
    ExitProcess,
    ReadFile,
    ReadFileOr,
    WriteFile,
    AppendFile,
    TouchFile,
    RemoveFile,
    FileOpen,
    FileOpenWrite,
    FileOpenAppend,
    FileWrite,
    FileClose,
    FileReadToString,
    FileSize,
    FileIsEmpty,
    FileIsFile,
    FileIsDir,
    FileExists,
    ReadLine,
}

/// How many helper routines there are.
pub const HELPER_COUNT: usize = 93;

/// The helper routine at position `i` of the layout order.
#[verifier::opaque]
pub open spec fn helper_kind(i: int) -> PeHelper {
    if i == 0 {
        PeHelper::StringLen
    } else if i == 1 {
        PeHelper::StringUtf8Len
    } else if i == 2 {
        PeHelper::StringUtf8CodepointAt
    } else if i == 3 {
        PeHelper::StringIsUtf8
    } else if i == 4 {
        PeHelper::StringUtf8IsValid
    } else if i == 5 {
        PeHelper::StringUtf8ByteOffset
    } else if i == 6 {
        PeHelper::StringUtf8NextOffset
    } else if i == 7 {
        PeHelper::StringUtf8PrevOffset
    } else if i == 8 {
        PeHelper::StringUtf8IndexAt
    } else if i == 9 {
        PeHelper::StringUtf8IsBoundary
    } else if i == 10 {
        PeHelper::ArrayNew
    } else if i == 11 {
        PeHelper::ArrayClone
    } else if i == 12 {
        PeHelper::ArrayReserve
    } else if i == 13 {
        PeHelper::ArrayFirst
    } else if i == 14 {
        PeHelper::ArrayLast
    } else if i == 15 {
        PeHelper::ArrayFill
    } else if i == 16 {
        PeHelper::ArrayReverse
    } else if i == 17 {
        PeHelper::ArrayIndexOf
    } else if i == 18 {
        PeHelper::ArrayLastIndexOf
    } else if i == 19 {
        PeHelper::ArrayContains
    } else if i == 20 {
        PeHelper::ArrayCount
    } else if i == 21 {
        PeHelper::ArrayLen
    } else if i == 22 {
        PeHelper::ArrayCapacity
    } else if i == 23 {
        PeHelper::ArrayIsEmpty
    } else if i == 24 {
        PeHelper::ArrayGet
    } else if i == 25 {
        PeHelper::ArraySet
    } else if i == 26 {
        PeHelper::ArrayPush
    } else if i == 27 {
        PeHelper::ArrayClear
    } else if i == 28 {
        PeHelper::ArrayFree
    } else if i == 29 {
        PeHelper::StringConcat
    } else if i == 30 {
        PeHelper::StringByteAt
    } else if i == 31 {
        PeHelper::StringCompare
    } else if i == 32 {
        PeHelper::StringContains
    } else if i == 33 {
        PeHelper::StringStartsWith
    } else if i == 34 {
        PeHelper::StringEndsWith
    } else if i == 35 {
        PeHelper::StringEq
    } else if i == 36 {
        PeHelper::StringNotEq
    } else if i == 37 {
        PeHelper::StringLess
    } else if i == 38 {
        PeHelper::StringLessOrEqual
    } else if i == 39 {
        PeHelper::StringGreater
    } else if i == 40 {
        PeHelper::StringGreaterOrEqual
    } else if i == 41 {
        PeHelper::StringIsEmpty
    } else if i == 42 {
        PeHelper::StringIsAscii
    } else if i == 43 {
        PeHelper::StringIsAsciiDigit
    } else if i == 44 {
        PeHelper::StringIsAsciiHexDigit
    } else if i == 45 {
        PeHelper::StringIsAsciiAlpha
    } else if i == 46 {
        PeHelper::StringIsAsciiLower
    } else if i == 47 {
        PeHelper::StringIsAsciiUpper
    } else if i == 48 {
        PeHelper::StringIsAsciiAlnum
    } else if i == 49 {
        PeHelper::StringIsAsciiIdentifier
    } else if i == 50 {
        PeHelper::StringIsAsciiWhitespace
    } else if i == 51 {
        PeHelper::StringFindByte
    } else if i == 52 {
        PeHelper::StringLastFindByte
    } else if i == 53 {
        PeHelper::StringIndexOf
    } else if i == 54 {
        PeHelper::StringLastIndexOf
    } else if i == 55 {
        PeHelper::StringCount
    } else if i == 56 {
        PeHelper::StringParseInt
    } else if i == 57 {
        PeHelper::BoundsCheck
    } else if i == 58 {
        PeHelper::Print
    } else if i == 59 {
        PeHelper::Println
    } else if i == 60 {
        PeHelper::Alloc
    } else if i == 61 {
        PeHelper::MemCopy
    } else if i == 62 {
        PeHelper::MemZero
    } else if i == 63 {
        PeHelper::MemMove
    } else if i == 64 {
        PeHelper::MemFill
    } else if i == 65 {
        PeHelper::MemFind
    } else if i == 66 {
        PeHelper::MemCompare
    } else if i == 67 {
        PeHelper::MemEqual
    } else if i == 68 {
        PeHelper::MemIsZero
    } else if i == 69 {
        PeHelper::MemReverse
    } else if i == 70 {
        PeHelper::StringFromByte
    } else if i == 71 {
        PeHelper::StringClone
    } else if i == 72 {
        PeHelper::StringSlice
    } else if i == 73 {
        PeHelper::AllocCopy
    } else if i == 74 {
        PeHelper::ExitProcess
    } else if i == 75 {
        PeHelper::ReadFile
    } else if i == 76 {
        PeHelper::ReadFileOr
    } else if i == 77 {
        PeHelper::WriteFile
    } else if i == 78 {
        PeHelper::AppendFile
    } else if i == 79 {
        PeHelper::TouchFile
    } else if i == 80 {
        PeHelper::RemoveFile
    } else if i == 81 {
        PeHelper::FileOpen
    } else if i == 82 {
        PeHelper::FileOpenWrite
    } else if i == 83 {
        PeHelper::FileOpenAppend
    } else if i == 84 {
        PeHelper::FileWrite
    } else if i == 85 {
        PeHelper::FileClose
    } else if i == 86 {
        PeHelper::FileReadToString
    } else if i == 87 {
        PeHelper::FileSize
    } else if i == 88 {
        PeHelper::FileIsEmpty
    } else if i == 89 {
        PeHelper::FileIsFile
    } else if i == 90 {
        PeHelper::FileIsDir
    } else if i == 91 {
        PeHelper::FileExists
    } else {
        PeHelper::ReadLine
    }
}

/// The helper routine at position `i` of the layout order.
fn helper_kind_at(i: usize) -> (h: PeHelper)
    requires
        i < HELPER_COUNT,
    ensures
        h == helper_kind(i as int),
{
    reveal(helper_kind);
    match i {
        0 => PeHelper::StringLen,
        1 => PeHelper::StringUtf8Len,
        2 => PeHelper::StringUtf8CodepointAt,
        3 => PeHelper::StringIsUtf8,
        4 => PeHelper::StringUtf8IsValid,
        5 => PeHelper::StringUtf8ByteOffset,
        6 => PeHelper::StringUtf8NextOffset,
        7 => PeHelper::StringUtf8PrevOffset,
        8 => PeHelper::StringUtf8IndexAt,
        9 => PeHelper::StringUtf8IsBoundary,
        10 => PeHelper::ArrayNew,
        11 => PeHelper::ArrayClone,
        12 => PeHelper::ArrayReserve,
        13 => PeHelper::ArrayFirst,
        14 => PeHelper::ArrayLast,
        15 => PeHelper::ArrayFill,
        16 => PeHelper::ArrayReverse,
        17 => PeHelper::ArrayIndexOf,
        18 => PeHelper::ArrayLastIndexOf,
        19 => PeHelper::ArrayContains,
        20 => PeHelper::ArrayCount,
        21 => PeHelper::ArrayLen,
        22 => PeHelper::ArrayCapacity,
        23 => PeHelper::ArrayIsEmpty,
        24 => PeHelper::ArrayGet,
        25 => PeHelper::ArraySet,
        26 => PeHelper::ArrayPush,
        27 => PeHelper::ArrayClear,
        28 => PeHelper::ArrayFree,
        29 => PeHelper::StringConcat,
        30 => PeHelper::StringByteAt,
        31 => PeHelper::StringCompare,
        32 => PeHelper::StringContains,
        33 => PeHelper::StringStartsWith,
        34 => PeHelper::StringEndsWith,
        35 => PeHelper::StringEq,
        36 => PeHelper::StringNotEq,
        37 => PeHelper::StringLess,
        38 => PeHelper::StringLessOrEqual,
        39 => PeHelper::StringGreater,
        40 => PeHelper::StringGreaterOrEqual,
        41 => PeHelper::StringIsEmpty,
        42 => PeHelper::StringIsAscii,
        43 => PeHelper::StringIsAsciiDigit,
        44 => PeHelper::StringIsAsciiHexDigit,
        45 => PeHelper::StringIsAsciiAlpha,
        46 => PeHelper::StringIsAsciiLower,
        47 => PeHelper::StringIsAsciiUpper,
        48 => PeHelper::StringIsAsciiAlnum,
        49 => PeHelper::StringIsAsciiIdentifier,
        50 => PeHelper::StringIsAsciiWhitespace,
        51 => PeHelper::StringFindByte,
        52 => PeHelper::StringLastFindByte,
        53 => PeHelper::StringIndexOf,
        54 => PeHelper::StringLastIndexOf,
        55 => PeHelper::StringCount,
        56 => PeHelper::StringParseInt,
        57 => PeHelper::BoundsCheck,
        58 => PeHelper::Print,
        59 => PeHelper::Println,
        60 => PeHelper::Alloc,
        61 => PeHelper::MemCopy,
        62 => PeHelper::MemZero,
        63 => PeHelper::MemMove,
        64 => PeHelper::MemFill,
        65 => PeHelper::MemFind,
        66 => PeHelper::MemCompare,
        67 => PeHelper::MemEqual,
        68 => PeHelper::MemIsZero,
        69 => PeHelper::MemReverse,
        70 => PeHelper::StringFromByte,
        71 => PeHelper::StringClone,
        72 => PeHelper::StringSlice,
        73 => PeHelper::AllocCopy,
        74 => PeHelper::ExitProcess,
        75 => PeHelper::ReadFile,
        76 => PeHelper::ReadFileOr,
        77 => PeHelper::WriteFile,
        78 => PeHelper::AppendFile,
        79 => PeHelper::TouchFile,
        80 => PeHelper::RemoveFile,
        81 => PeHelper::FileOpen,
        82 => PeHelper::FileOpenWrite,
        83 => PeHelper::FileOpenAppend,
        84 => PeHelper::FileWrite,
        85 => PeHelper::FileClose,
        86 => PeHelper::FileReadToString,
        87 => PeHelper::FileSize,
        88 => PeHelper::FileIsEmpty,
        89 => PeHelper::FileIsFile,
        90 => PeHelper::FileIsDir,
        91 => PeHelper::FileExists,
        _ => PeHelper::ReadLine,
    }
}

/// Whether the image calls for a helper routine: some relocation names one of the symbols it serves.
#[verifier::opaque]
pub open spec fn helper_needed(image: ObjectImage, h: PeHelper) -> bool {
    match h {
        PeHelper::StringLen => requested(image, "string_len"@) || requested(image, "string_concat"@),
        PeHelper::StringUtf8Len => requested(image, "string_utf8_len"@),
        PeHelper::StringUtf8CodepointAt => requested(image, "string_utf8_codepoint_at"@),
        PeHelper::StringIsUtf8 => requested(image, "string_is_utf8"@),
        PeHelper::StringUtf8IsValid => requested(image, "string_utf8_is_valid"@),
        PeHelper::StringUtf8ByteOffset => requested(image, "string_utf8_byte_offset"@),
        PeHelper::StringUtf8NextOffset => requested(image, "string_utf8_next_offset"@),
        PeHelper::StringUtf8PrevOffset => requested(image, "string_utf8_prev_offset"@),
        PeHelper::StringUtf8IndexAt => requested(image, "string_utf8_index_at"@),
        PeHelper::StringUtf8IsBoundary => requested(image, "string_utf8_is_boundary"@),
        PeHelper::ArrayNew => requested(image, "array_new"@),
        PeHelper::ArrayClone => requested(image, "array_clone"@),
        PeHelper::ArrayReserve => requested(image, "array_reserve"@),
        PeHelper::ArrayFirst => requested(image, "array_first"@),
        PeHelper::ArrayLast => requested(image, "array_last"@),
        PeHelper::ArrayFill => requested(image, "array_fill"@),
        PeHelper::ArrayReverse => requested(image, "array_reverse"@),
        PeHelper::ArrayIndexOf => requested(image, "array_index_of"@),
        PeHelper::ArrayLastIndexOf => requested(image, "array_last_index_of"@),
        PeHelper::ArrayContains => requested(image, "array_contains"@),
        PeHelper::ArrayCount => requested(image, "array_count"@),
        PeHelper::ArrayLen => requested(image, "array_len"@),
        PeHelper::ArrayCapacity => requested(image, "array_capacity"@),
        PeHelper::ArrayIsEmpty => requested(image, "array_is_empty"@),
        PeHelper::ArrayGet => requested(image, "array_get"@),
        PeHelper::ArraySet => requested(image, "array_set"@),
        PeHelper::ArrayPush => requested(image, "array_push"@),
        PeHelper::ArrayClear => requested(image, "array_clear"@),
        PeHelper::ArrayFree => requested(image, "array_free"@),
        PeHelper::StringConcat => requested(image, "string_concat"@),
        PeHelper::StringByteAt => requested(image, "string_byte_at"@),
        PeHelper::StringCompare => requested(image, "string_compare"@),
        PeHelper::StringContains => requested(image, "string_contains"@),
        PeHelper::StringStartsWith => requested(image, "string_starts_with"@),
        PeHelper::StringEndsWith => requested(image, "string_ends_with"@),
        PeHelper::StringEq => requested(image, "string_eq"@),
        PeHelper::StringNotEq => requested(image, "string_not_eq"@),
        PeHelper::StringLess => requested(image, "string_less"@),
        PeHelper::StringLessOrEqual => requested(image, "string_less_or_equal"@),
        PeHelper::StringGreater => requested(image, "string_greater"@),
        PeHelper::StringGreaterOrEqual => requested(image, "string_greater_or_equal"@),
        PeHelper::StringIsEmpty => requested(image, "string_is_empty"@),
        PeHelper::StringIsAscii => requested(image, "string_is_ascii"@),
        PeHelper::StringIsAsciiDigit => requested(image, "string_is_ascii_digit"@),
        PeHelper::StringIsAsciiHexDigit => requested(image, "string_is_ascii_hex_digit"@),
        PeHelper::StringIsAsciiAlpha => requested(image, "string_is_ascii_alpha"@),
        PeHelper::StringIsAsciiLower => requested(image, "string_is_ascii_lower"@),
        PeHelper::StringIsAsciiUpper => requested(image, "string_is_ascii_upper"@),
        PeHelper::StringIsAsciiAlnum => requested(image, "string_is_ascii_alnum"@),
        PeHelper::StringIsAsciiIdentifier => requested(image, "string_is_ascii_identifier"@),
        PeHelper::StringIsAsciiWhitespace => requested(image, "string_is_ascii_whitespace"@),
        PeHelper::StringFindByte => requested(image, "string_find_byte"@),
        PeHelper::StringLastFindByte => requested(image, "string_last_find_byte"@),
        PeHelper::StringIndexOf => requested(image, "string_index_of"@),
        PeHelper::StringLastIndexOf => requested(image, "string_last_index_of"@),
        PeHelper::StringCount => requested(image, "string_count"@),
        PeHelper::StringParseInt => requested(image, "string_parse_int"@),
        PeHelper::BoundsCheck => requested(image, "__geo_bounds_check"@),
        PeHelper::Print => requested(image, "print"@) || requested(image, "println"@),
        PeHelper::Println => requested(image, "println"@),
        PeHelper::Alloc => requested(image, "array_new"@) || requested(image, "alloc"@) || requested(image, "alloc_zeroed"@) || requested(image, "alloc_array"@),
        PeHelper::MemCopy => requested(image, "mem_copy"@),
        PeHelper::MemZero => requested(image, "mem_zero"@),
        PeHelper::MemMove => requested(image, "mem_move"@),
        PeHelper::MemFill => requested(image, "mem_fill"@),
        PeHelper::MemFind => requested(image, "mem_find"@),
        PeHelper::MemCompare => requested(image, "mem_compare"@),
        PeHelper::MemEqual => requested(image, "mem_equal"@),
        PeHelper::MemIsZero => requested(image, "mem_is_zero"@),
        PeHelper::MemReverse => requested(image, "mem_reverse"@),
        PeHelper::StringFromByte => requested(image, "string_from_byte"@),
        PeHelper::StringClone => requested(image, "string_clone"@),
        PeHelper::StringSlice => requested(image, "string_slice"@),
        PeHelper::AllocCopy => requested(image, "alloc_copy"@),
        PeHelper::ExitProcess => requested(image, "exit_geo"@),
        PeHelper::ReadFile => requested(image, "read_file"@) || requested(image, "read_file_or"@) || requested(image, "file_read"@) || requested(image, "file_read_to_string"@),
        PeHelper::ReadFileOr => requested(image, "read_file_or"@),
        PeHelper::WriteFile => requested(image, "write_file"@),
        PeHelper::AppendFile => requested(image, "append_file"@),
        PeHelper::TouchFile => requested(image, "touch_file"@),
        PeHelper::RemoveFile => requested(image, "remove_file"@),
        PeHelper::FileOpen => requested(image, "file_open"@),
        PeHelper::FileOpenWrite => requested(image, "file_open_write"@),
        PeHelper::FileOpenAppend => requested(image, "file_open_append"@),
        PeHelper::FileWrite => requested(image, "file_write"@),
        PeHelper::FileClose => requested(image, "file_close"@),
        PeHelper::FileReadToString => requested(image, "file_read"@) || requested(image, "file_read_to_string"@) || requested(image, "file_size"@) || requested(image, "file_is_empty"@),
        PeHelper::FileSize => requested(image, "file_size"@) || requested(image, "file_is_empty"@),
        PeHelper::FileIsEmpty => requested(image, "file_is_empty"@),
        PeHelper::FileIsFile => requested(image, "file_is_file"@),
        PeHelper::FileIsDir => requested(image, "file_is_dir"@),
        PeHelper::FileExists => requested(image, "file_exists"@) || requested(image, "file_is_file"@) || requested(image, "file_is_dir"@) || requested(image, "file_is_empty"@) || requested(image, "file_size"@),
        PeHelper::ReadLine => requested(image, "read_line"@),
    }
}

fn helper_needed_exec(image: &ObjectImage, h: PeHelper) -> (r: bool)
    ensures
        r == helper_needed(*image, h),
{
    reveal(helper_needed);
    match h {
        PeHelper::StringLen => requests(image, "string_len") || requests(image, "string_concat"),
        PeHelper::StringUtf8Len => requests(image, "string_utf8_len"),
        PeHelper::StringUtf8CodepointAt => requests(image, "string_utf8_codepoint_at"),
        PeHelper::StringIsUtf8 => requests(image, "string_is_utf8"),
        PeHelper::StringUtf8IsValid => requests(image, "string_utf8_is_valid"),
        PeHelper::StringUtf8ByteOffset => requests(image, "string_utf8_byte_offset"),
        PeHelper::StringUtf8NextOffset => requests(image, "string_utf8_next_offset"),
        PeHelper::StringUtf8PrevOffset => requests(image, "string_utf8_prev_offset"),
        PeHelper::StringUtf8IndexAt => requests(image, "string_utf8_index_at"),
        PeHelper::StringUtf8IsBoundary => requests(image, "string_utf8_is_boundary"),
        PeHelper::ArrayNew => requests(image, "array_new"),
        PeHelper::ArrayClone => requests(image, "array_clone"),
        PeHelper::ArrayReserve => requests(image, "array_reserve"),
        PeHelper::ArrayFirst => requests(image, "array_first"),
        PeHelper::ArrayLast => requests(image, "array_last"),
        PeHelper::ArrayFill => requests(image, "array_fill"),
        PeHelper::ArrayReverse => requests(image, "array_reverse"),
        PeHelper::ArrayIndexOf => requests(image, "array_index_of"),
        PeHelper::ArrayLastIndexOf => requests(image, "array_last_index_of"),
        PeHelper::ArrayContains => requests(image, "array_contains"),
        PeHelper::ArrayCount => requests(image, "array_count"),
        PeHelper::ArrayLen => requests(image, "array_len"),
        PeHelper::ArrayCapacity => requests(image, "array_capacity"),
        PeHelper::ArrayIsEmpty => requests(image, "array_is_empty"),
        PeHelper::ArrayGet => requests(image, "array_get"),
        PeHelper::ArraySet => requests(image, "array_set"),
        PeHelper::ArrayPush => requests(image, "array_push"),
        PeHelper::ArrayClear => requests(image, "array_clear"),
        PeHelper::ArrayFree => requests(image, "array_free"),
        PeHelper::StringConcat => requests(image, "string_concat"),
        PeHelper::StringByteAt => requests(image, "string_byte_at"),
        PeHelper::StringCompare => requests(image, "string_compare"),
        PeHelper::StringContains => requests(image, "string_contains"),
        PeHelper::StringStartsWith => requests(image, "string_starts_with"),
        PeHelper::StringEndsWith => requests(image, "string_ends_with"),
        PeHelper::StringEq => requests(image, "string_eq"),
        PeHelper::StringNotEq => requests(image, "string_not_eq"),
        PeHelper::StringLess => requests(image, "string_less"),
        PeHelper::StringLessOrEqual => requests(image, "string_less_or_equal"),
        PeHelper::StringGreater => requests(image, "string_greater"),
        PeHelper::StringGreaterOrEqual => requests(image, "string_greater_or_equal"),
        PeHelper::StringIsEmpty => requests(image, "string_is_empty"),
        PeHelper::StringIsAscii => requests(image, "string_is_ascii"),
        PeHelper::StringIsAsciiDigit => requests(image, "string_is_ascii_digit"),
        PeHelper::StringIsAsciiHexDigit => requests(image, "string_is_ascii_hex_digit"),
        PeHelper::StringIsAsciiAlpha => requests(image, "string_is_ascii_alpha"),
        PeHelper::StringIsAsciiLower => requests(image, "string_is_ascii_lower"),
        PeHelper::StringIsAsciiUpper => requests(image, "string_is_ascii_upper"),
        PeHelper::StringIsAsciiAlnum => requests(image, "string_is_ascii_alnum"),
        PeHelper::StringIsAsciiIdentifier => requests(image, "string_is_ascii_identifier"),
        PeHelper::StringIsAsciiWhitespace => requests(image, "string_is_ascii_whitespace"),
        PeHelper::StringFindByte => requests(image, "string_find_byte"),
        PeHelper::StringLastFindByte => requests(image, "string_last_find_byte"),
        PeHelper::StringIndexOf => requests(image, "string_index_of"),
        PeHelper::StringLastIndexOf => requests(image, "string_last_index_of"),
        PeHelper::StringCount => requests(image, "string_count"),
        PeHelper::StringParseInt => requests(image, "string_parse_int"),
        PeHelper::BoundsCheck => requests(image, "__geo_bounds_check"),
        PeHelper::Print => requests(image, "print") || requests(image, "println"),
        PeHelper::Println => requests(image, "println"),
        PeHelper::Alloc => requests(image, "array_new") || requests(image, "alloc") || requests(image, "alloc_zeroed") || requests(image, "alloc_array"),
        PeHelper::MemCopy => requests(image, "mem_copy"),
        PeHelper::MemZero => requests(image, "mem_zero"),
        PeHelper::MemMove => requests(image, "mem_move"),
        PeHelper::MemFill => requests(image, "mem_fill"),
        PeHelper::MemFind => requests(image, "mem_find"),
        PeHelper::MemCompare => requests(image, "mem_compare"),
        PeHelper::MemEqual => requests(image, "mem_equal"),
        PeHelper::MemIsZero => requests(image, "mem_is_zero"),
        PeHelper::MemReverse => requests(image, "mem_reverse"),
        PeHelper::StringFromByte => requests(image, "string_from_byte"),
        PeHelper::StringClone => requests(image, "string_clone"),
        PeHelper::StringSlice => requests(image, "string_slice"),
        PeHelper::AllocCopy => requests(image, "alloc_copy"),
        PeHelper::ExitProcess => requests(image, "exit_geo"),
        PeHelper::ReadFile => requests(image, "read_file") || requests(image, "read_file_or") || requests(image, "file_read") || requests(image, "file_read_to_string"),
        PeHelper::ReadFileOr => requests(image, "read_file_or"),
        PeHelper::WriteFile => requests(image, "write_file"),
        PeHelper::AppendFile => requests(image, "append_file"),
        PeHelper::TouchFile => requests(image, "touch_file"),
        PeHelper::RemoveFile => requests(image, "remove_file"),
        PeHelper::FileOpen => requests(image, "file_open"),
        PeHelper::FileOpenWrite => requests(image, "file_open_write"),
        PeHelper::FileOpenAppend => requests(image, "file_open_append"),
        PeHelper::FileWrite => requests(image, "file_write"),
        PeHelper::FileClose => requests(image, "file_close"),
        PeHelper::FileReadToString => requests(image, "file_read") || requests(image, "file_read_to_string") || requests(image, "file_size") || requests(image, "file_is_empty"),
        PeHelper::FileSize => requests(image, "file_size") || requests(image, "file_is_empty"),
        PeHelper::FileIsEmpty => requests(image, "file_is_empty"),
        PeHelper::FileIsFile => requests(image, "file_is_file"),
        PeHelper::FileIsDir => requests(image, "file_is_dir"),
        PeHelper::FileExists => requests(image, "file_exists") || requests(image, "file_is_file") || requests(image, "file_is_dir") || requests(image, "file_is_empty") || requests(image, "file_size"),
        PeHelper::ReadLine => requests(image, "read_line"),
    }
}

/// No helper placed yet.
pub open spec fn no_helpers() -> PeHelperRvas {
    PeHelperRvas {
        bounds_check: None,
        print: None,
        println: None,
        exit_process: None,
        alloc: None,
        read_file: None,
        read_file_or: None,
        write_file: None,
        append_file: None,
        touch_file: None,
        remove_file: None,
        file_open: None,
        file_open_write: None,
        file_open_append: None,
        file_write: None,
        file_close: None,
        file_read_to_string: None,
        file_exists: None,
        file_is_file: None,
        file_is_dir: None,
        file_is_empty: None,
        file_size: None,
        read_line: None,
        mem_copy: None,
        mem_zero: None,
        mem_move: None,
        mem_fill: None,
        mem_find: None,
        mem_compare: None,
        mem_equal: None,
        mem_is_zero: None,
        mem_reverse: None,
        string_from_byte: None,
        string_clone: None,
        string_slice: None,
        alloc_copy: None,
        string_concat: None,
        string_len: None,
        string_utf8_len: None,
        string_utf8_codepoint_at: None,
        string_is_utf8: None,
        string_utf8_is_valid: None,
        string_utf8_byte_offset: None,
        string_utf8_next_offset: None,
        string_utf8_prev_offset: None,
        string_utf8_index_at: None,
        string_utf8_is_boundary: None,
        array_new: None,
        array_clone: None,
        array_reserve: None,
        array_first: None,
        array_last: None,
        array_fill: None,
        array_reverse: None,
        array_index_of: None,
        array_last_index_of: None,
        array_contains: None,
        array_count: None,
        array_len: None,
        array_capacity: None,
        array_is_empty: None,
        array_get: None,
        array_set: None,
        array_push: None,
        array_clear: None,
        array_free: None,
        string_byte_at: None,
        string_compare: None,
        string_contains: None,
        string_starts_with: None,
        string_ends_with: None,
        string_eq: None,
        string_not_eq: None,
        string_less: None,
        string_less_or_equal: None,
        string_greater: None,
        string_greater_or_equal: None,
        string_is_empty: None,
        string_is_ascii: None,
        string_is_ascii_digit: None,
        string_is_ascii_hex_digit: None,
        string_is_ascii_alpha: None,
        string_is_ascii_lower: None,
        string_is_ascii_upper: None,
        string_is_ascii_alnum: None,
        string_is_ascii_identifier: None,
        string_is_ascii_whitespace: None,
        string_find_byte: None,
        string_last_find_byte: None,
        string_index_of: None,
        string_last_index_of: None,
        string_count: None,
        string_parse_int: None,
    }
}

fn empty_helpers() -> (h: PeHelperRvas)
    ensures
        h == no_helpers(),
{
    PeHelperRvas {
        bounds_check: None,
        print: None,
        println: None,
        exit_process: None,
        alloc: None,
        read_file: None,
        read_file_or: None,
        write_file: None,
        append_file: None,
        touch_file: None,
        remove_file: None,
        file_open: None,
        file_open_write: None,
        file_open_append: None,
        file_write: None,
        file_close: None,
        file_read_to_string: None,
        file_exists: None,
        file_is_file: None,
        file_is_dir: None,
        file_is_empty: None,
        file_size: None,
        read_line: None,
        mem_copy: None,
        mem_zero: None,
        mem_move: None,
        mem_fill: None,
        mem_find: None,
        mem_compare: None,
        mem_equal: None,
        mem_is_zero: None,
        mem_reverse: None,
        string_from_byte: None,
        string_clone: None,
        string_slice: None,
        alloc_copy: None,
        string_concat: None,
        string_len: None,
        string_utf8_len: None,
        string_utf8_codepoint_at: None,
        string_is_utf8: None,
        string_utf8_is_valid: None,
        string_utf8_byte_offset: None,
        string_utf8_next_offset: None,
        string_utf8_prev_offset: None,
        string_utf8_index_at: None,
        string_utf8_is_boundary: None,
        array_new: None,
        array_clone: None,
        array_reserve: None,
        array_first: None,
        array_last: None,
        array_fill: None,
        array_reverse: None,
        array_index_of: None,
        array_last_index_of: None,
        array_contains: None,
        array_count: None,
        array_len: None,
        array_capacity: None,
        array_is_empty: None,
        array_get: None,
        array_set: None,
        array_push: None,
        array_clear: None,
        array_free: None,
        string_byte_at: None,
        string_compare: None,
        string_contains: None,
        string_starts_with: None,
        string_ends_with: None,
        string_eq: None,
        string_not_eq: None,
        string_less: None,
        string_less_or_equal: None,
        string_greater: None,
        string_greater_or_equal: None,
        string_is_empty: None,
        string_is_ascii: None,
        string_is_ascii_digit: None,
        string_is_ascii_hex_digit: None,
        string_is_ascii_alpha: None,
        string_is_ascii_lower: None,
        string_is_ascii_upper: None,
        string_is_ascii_alnum: None,
        string_is_ascii_identifier: None,
        string_is_ascii_whitespace: None,
        string_find_byte: None,
        string_last_find_byte: None,
        string_index_of: None,
        string_last_index_of: None,
        string_count: None,
        string_parse_int: None,
    }
}

/// The helper table with `h` placed at `rva`.
#[verifier::opaque]
pub open spec fn with_helper(helpers: PeHelperRvas, h: PeHelper, rva: u32) -> PeHelperRvas {
    match h {
        PeHelper::StringLen => PeHelperRvas { string_len: Some(rva), ..helpers },
        PeHelper::StringUtf8Len => PeHelperRvas { string_utf8_len: Some(rva), ..helpers },
        PeHelper::StringUtf8CodepointAt => PeHelperRvas { string_utf8_codepoint_at: Some(rva), ..helpers },
        PeHelper::StringIsUtf8 => PeHelperRvas { string_is_utf8: Some(rva), ..helpers },
        PeHelper::StringUtf8IsValid => PeHelperRvas { string_utf8_is_valid: Some(rva), ..helpers },
        PeHelper::StringUtf8ByteOffset => PeHelperRvas { string_utf8_byte_offset: Some(rva), ..helpers },
        PeHelper::StringUtf8NextOffset => PeHelperRvas { string_utf8_next_offset: Some(rva), ..helpers },
        PeHelper::StringUtf8PrevOffset => PeHelperRvas { string_utf8_prev_offset: Some(rva), ..helpers },
        PeHelper::StringUtf8IndexAt => PeHelperRvas { string_utf8_index_at: Some(rva), ..helpers },
        PeHelper::StringUtf8IsBoundary => PeHelperRvas { string_utf8_is_boundary: Some(rva), ..helpers },
        PeHelper::ArrayNew => PeHelperRvas { array_new: Some(rva), ..helpers },
        PeHelper::ArrayClone => PeHelperRvas { array_clone: Some(rva), ..helpers },
        PeHelper::ArrayReserve => PeHelperRvas { array_reserve: Some(rva), ..helpers },
        PeHelper::ArrayFirst => PeHelperRvas { array_first: Some(rva), ..helpers },
        PeHelper::ArrayLast => PeHelperRvas { array_last: Some(rva), ..helpers },
        PeHelper::ArrayFill => PeHelperRvas { array_fill: Some(rva), ..helpers },
        PeHelper::ArrayReverse => PeHelperRvas { array_reverse: Some(rva), ..helpers },
        PeHelper::ArrayIndexOf => PeHelperRvas { array_index_of: Some(rva), ..helpers },
        PeHelper::ArrayLastIndexOf => PeHelperRvas { array_last_index_of: Some(rva), ..helpers },
        PeHelper::ArrayContains => PeHelperRvas { array_contains: Some(rva), ..helpers },
        PeHelper::ArrayCount => PeHelperRvas { array_count: Some(rva), ..helpers },
        PeHelper::ArrayLen => PeHelperRvas { array_len: Some(rva), ..helpers },
        PeHelper::ArrayCapacity => PeHelperRvas { array_capacity: Some(rva), ..helpers },
        PeHelper::ArrayIsEmpty => PeHelperRvas { array_is_empty: Some(rva), ..helpers },
        PeHelper::ArrayGet => PeHelperRvas { array_get: Some(rva), ..helpers },
        PeHelper::ArraySet => PeHelperRvas { array_set: Some(rva), ..helpers },
        PeHelper::ArrayPush => PeHelperRvas { array_push: Some(rva), ..helpers },
        PeHelper::ArrayClear => PeHelperRvas { array_clear: Some(rva), ..helpers },
        PeHelper::ArrayFree => PeHelperRvas { array_free: Some(rva), ..helpers },
        PeHelper::StringConcat => PeHelperRvas { string_concat: Some(rva), ..helpers },
        PeHelper::StringByteAt => PeHelperRvas { string_byte_at: Some(rva), ..helpers },
        PeHelper::StringCompare => PeHelperRvas { string_compare: Some(rva), ..helpers },
        PeHelper::StringContains => PeHelperRvas { string_contains: Some(rva), ..helpers },
        PeHelper::StringStartsWith => PeHelperRvas { string_starts_with: Some(rva), ..helpers },
        PeHelper::StringEndsWith => PeHelperRvas { string_ends_with: Some(rva), ..helpers },
        PeHelper::StringEq => PeHelperRvas { string_eq: Some(rva), ..helpers },
        PeHelper::StringNotEq => PeHelperRvas { string_not_eq: Some(rva), ..helpers },
        PeHelper::StringLess => PeHelperRvas { string_less: Some(rva), ..helpers },
        PeHelper::StringLessOrEqual => PeHelperRvas { string_less_or_equal: Some(rva), ..helpers },
        PeHelper::StringGreater => PeHelperRvas { string_greater: Some(rva), ..helpers },
        PeHelper::StringGreaterOrEqual => PeHelperRvas { string_greater_or_equal: Some(rva), ..helpers },
        PeHelper::StringIsEmpty => PeHelperRvas { string_is_empty: Some(rva), ..helpers },
        PeHelper::StringIsAscii => PeHelperRvas { string_is_ascii: Some(rva), ..helpers },
        PeHelper::StringIsAsciiDigit => PeHelperRvas { string_is_ascii_digit: Some(rva), ..helpers },
        PeHelper::StringIsAsciiHexDigit => PeHelperRvas { string_is_ascii_hex_digit: Some(rva), ..helpers },
        PeHelper::StringIsAsciiAlpha => PeHelperRvas { string_is_ascii_alpha: Some(rva), ..helpers },
        PeHelper::StringIsAsciiLower => PeHelperRvas { string_is_ascii_lower: Some(rva), ..helpers },
        PeHelper::StringIsAsciiUpper => PeHelperRvas { string_is_ascii_upper: Some(rva), ..helpers },
        PeHelper::StringIsAsciiAlnum => PeHelperRvas { string_is_ascii_alnum: Some(rva), ..helpers },
        PeHelper::StringIsAsciiIdentifier => PeHelperRvas { string_is_ascii_identifier: Some(rva), ..helpers },
        PeHelper::StringIsAsciiWhitespace => PeHelperRvas { string_is_ascii_whitespace: Some(rva), ..helpers },
        PeHelper::StringFindByte => PeHelperRvas { string_find_byte: Some(rva), ..helpers },
        PeHelper::StringLastFindByte => PeHelperRvas { string_last_find_byte: Some(rva), ..helpers },
        PeHelper::StringIndexOf => PeHelperRvas { string_index_of: Some(rva), ..helpers },
        PeHelper::StringLastIndexOf => PeHelperRvas { string_last_index_of: Some(rva), ..helpers },
        PeHelper::StringCount => PeHelperRvas { string_count: Some(rva), ..helpers },
        PeHelper::StringParseInt => PeHelperRvas { string_parse_int: Some(rva), ..helpers },
        PeHelper::BoundsCheck => PeHelperRvas { bounds_check: Some(rva), ..helpers },
        PeHelper::Print => PeHelperRvas { print: Some(rva), ..helpers },
        PeHelper::Println => PeHelperRvas { println: Some(rva), ..helpers },
        PeHelper::Alloc => PeHelperRvas { alloc: Some(rva), ..helpers },
        PeHelper::MemCopy => PeHelperRvas { mem_copy: Some(rva), ..helpers },
        PeHelper::MemZero => PeHelperRvas { mem_zero: Some(rva), ..helpers },
        PeHelper::MemMove => PeHelperRvas { mem_move: Some(rva), ..helpers },
        PeHelper::MemFill => PeHelperRvas { mem_fill: Some(rva), ..helpers },
        PeHelper::MemFind => PeHelperRvas { mem_find: Some(rva), ..helpers },
        PeHelper::MemCompare => PeHelperRvas { mem_compare: Some(rva), ..helpers },
        PeHelper::MemEqual => PeHelperRvas { mem_equal: Some(rva), ..helpers },
        PeHelper::MemIsZero => PeHelperRvas { mem_is_zero: Some(rva), ..helpers },
        PeHelper::MemReverse => PeHelperRvas { mem_reverse: Some(rva), ..helpers },
        PeHelper::StringFromByte => PeHelperRvas { string_from_byte: Some(rva), ..helpers },
        PeHelper::StringClone => PeHelperRvas { string_clone: Some(rva), ..helpers },
        PeHelper::StringSlice => PeHelperRvas { string_slice: Some(rva), ..helpers },
        PeHelper::AllocCopy => PeHelperRvas { alloc_copy: Some(rva), ..helpers },
        PeHelper::ExitProcess => PeHelperRvas { exit_process: Some(rva), ..helpers },
        PeHelper::ReadFile => PeHelperRvas { read_file: Some(rva), ..helpers },
        PeHelper::ReadFileOr => PeHelperRvas { read_file_or: Some(rva), ..helpers },
        PeHelper::WriteFile => PeHelperRvas { write_file: Some(rva), ..helpers },
        PeHelper::AppendFile => PeHelperRvas { append_file: Some(rva), ..helpers },
        PeHelper::TouchFile => PeHelperRvas { touch_file: Some(rva), ..helpers },
        PeHelper::RemoveFile => PeHelperRvas { remove_file: Some(rva), ..helpers },
        PeHelper::FileOpen => PeHelperRvas { file_open: Some(rva), ..helpers },
        PeHelper::FileOpenWrite => PeHelperRvas { file_open_write: Some(rva), ..helpers },
        PeHelper::FileOpenAppend => PeHelperRvas { file_open_append: Some(rva), ..helpers },
        PeHelper::FileWrite => PeHelperRvas { file_write: Some(rva), ..helpers },
        PeHelper::FileClose => PeHelperRvas { file_close: Some(rva), ..helpers },
        PeHelper::FileReadToString => PeHelperRvas { file_read_to_string: Some(rva), ..helpers },
        PeHelper::FileSize => PeHelperRvas { file_size: Some(rva), ..helpers },
        PeHelper::FileIsEmpty => PeHelperRvas { file_is_empty: Some(rva), ..helpers },
        PeHelper::FileIsFile => PeHelperRvas { file_is_file: Some(rva), ..helpers },
        PeHelper::FileIsDir => PeHelperRvas { file_is_dir: Some(rva), ..helpers },
        PeHelper::FileExists => PeHelperRvas { file_exists: Some(rva), ..helpers },
        PeHelper::ReadLine => PeHelperRvas { read_line: Some(rva), ..helpers },
    }
}

fn place_helper(helpers: &mut PeHelperRvas, h: PeHelper, rva: u32)
    ensures
        *final(helpers) == with_helper(*old(helpers), h, rva),
{
    reveal(with_helper);
    match h {
        PeHelper::StringLen => helpers.string_len = Some(rva),
        PeHelper::StringUtf8Len => helpers.string_utf8_len = Some(rva),
        PeHelper::StringUtf8CodepointAt => helpers.string_utf8_codepoint_at = Some(rva),
        PeHelper::StringIsUtf8 => helpers.string_is_utf8 = Some(rva),
        PeHelper::StringUtf8IsValid => helpers.string_utf8_is_valid = Some(rva),
        PeHelper::StringUtf8ByteOffset => helpers.string_utf8_byte_offset = Some(rva),
        PeHelper::StringUtf8NextOffset => helpers.string_utf8_next_offset = Some(rva),
        PeHelper::StringUtf8PrevOffset => helpers.string_utf8_prev_offset = Some(rva),
        PeHelper::StringUtf8IndexAt => helpers.string_utf8_index_at = Some(rva),
        PeHelper::StringUtf8IsBoundary => helpers.string_utf8_is_boundary = Some(rva),
        PeHelper::ArrayNew => helpers.array_new = Some(rva),
        PeHelper::ArrayClone => helpers.array_clone = Some(rva),
        PeHelper::ArrayReserve => helpers.array_reserve = Some(rva),
        PeHelper::ArrayFirst => helpers.array_first = Some(rva),
        PeHelper::ArrayLast => helpers.array_last = Some(rva),
        PeHelper::ArrayFill => helpers.array_fill = Some(rva),
        PeHelper::ArrayReverse => helpers.array_reverse = Some(rva),
        PeHelper::ArrayIndexOf => helpers.array_index_of = Some(rva),
        PeHelper::ArrayLastIndexOf => helpers.array_last_index_of = Some(rva),
        PeHelper::ArrayContains => helpers.array_contains = Some(rva),
        PeHelper::ArrayCount => helpers.array_count = Some(rva),
        PeHelper::ArrayLen => helpers.array_len = Some(rva),
        PeHelper::ArrayCapacity => helpers.array_capacity = Some(rva),
        PeHelper::ArrayIsEmpty => helpers.array_is_empty = Some(rva),
        PeHelper::ArrayGet => helpers.array_get = Some(rva),
        PeHelper::ArraySet => helpers.array_set = Some(rva),
        PeHelper::ArrayPush => helpers.array_push = Some(rva),
        PeHelper::ArrayClear => helpers.array_clear = Some(rva),
        PeHelper::ArrayFree => helpers.array_free = Some(rva),
        PeHelper::StringConcat => helpers.string_concat = Some(rva),
        PeHelper::StringByteAt => helpers.string_byte_at = Some(rva),
        PeHelper::StringCompare => helpers.string_compare = Some(rva),
        PeHelper::StringContains => helpers.string_contains = Some(rva),
        PeHelper::StringStartsWith => helpers.string_starts_with = Some(rva),
        PeHelper::StringEndsWith => helpers.string_ends_with = Some(rva),
        PeHelper::StringEq => helpers.string_eq = Some(rva),
        PeHelper::StringNotEq => helpers.string_not_eq = Some(rva),
        PeHelper::StringLess => helpers.string_less = Some(rva),
        PeHelper::StringLessOrEqual => helpers.string_less_or_equal = Some(rva),
        PeHelper::StringGreater => helpers.string_greater = Some(rva),
        PeHelper::StringGreaterOrEqual => helpers.string_greater_or_equal = Some(rva),
        PeHelper::StringIsEmpty => helpers.string_is_empty = Some(rva),
        PeHelper::StringIsAscii => helpers.string_is_ascii = Some(rva),
        PeHelper::StringIsAsciiDigit => helpers.string_is_ascii_digit = Some(rva),
        PeHelper::StringIsAsciiHexDigit => helpers.string_is_ascii_hex_digit = Some(rva),
        PeHelper::StringIsAsciiAlpha => helpers.string_is_ascii_alpha = Some(rva),
        PeHelper::StringIsAsciiLower => helpers.string_is_ascii_lower = Some(rva),
        PeHelper::StringIsAsciiUpper => helpers.string_is_ascii_upper = Some(rva),
        PeHelper::StringIsAsciiAlnum => helpers.string_is_ascii_alnum = Some(rva),
        PeHelper::StringIsAsciiIdentifier => helpers.string_is_ascii_identifier = Some(rva),
        PeHelper::StringIsAsciiWhitespace => helpers.string_is_ascii_whitespace = Some(rva),
        PeHelper::StringFindByte => helpers.string_find_byte = Some(rva),
        PeHelper::StringLastFindByte => helpers.string_last_find_byte = Some(rva),
        PeHelper::StringIndexOf => helpers.string_index_of = Some(rva),
        PeHelper::StringLastIndexOf => helpers.string_last_index_of = Some(rva),
        PeHelper::StringCount => helpers.string_count = Some(rva),
        PeHelper::StringParseInt => helpers.string_parse_int = Some(rva),
        PeHelper::BoundsCheck => helpers.bounds_check = Some(rva),
        PeHelper::Print => helpers.print = Some(rva),
        PeHelper::Println => helpers.println = Some(rva),
        PeHelper::Alloc => helpers.alloc = Some(rva),
        PeHelper::MemCopy => helpers.mem_copy = Some(rva),
        PeHelper::MemZero => helpers.mem_zero = Some(rva),
        PeHelper::MemMove => helpers.mem_move = Some(rva),
        PeHelper::MemFill => helpers.mem_fill = Some(rva),
        PeHelper::MemFind => helpers.mem_find = Some(rva),
        PeHelper::MemCompare => helpers.mem_compare = Some(rva),
        PeHelper::MemEqual => helpers.mem_equal = Some(rva),
        PeHelper::MemIsZero => helpers.mem_is_zero = Some(rva),
        PeHelper::MemReverse => helpers.mem_reverse = Some(rva),
        PeHelper::StringFromByte => helpers.string_from_byte = Some(rva),
        PeHelper::StringClone => helpers.string_clone = Some(rva),
        PeHelper::StringSlice => helpers.string_slice = Some(rva),
        PeHelper::AllocCopy => helpers.alloc_copy = Some(rva),
        PeHelper::ExitProcess => helpers.exit_process = Some(rva),
        PeHelper::ReadFile => helpers.read_file = Some(rva),
        PeHelper::ReadFileOr => helpers.read_file_or = Some(rva),
        PeHelper::WriteFile => helpers.write_file = Some(rva),
        PeHelper::AppendFile => helpers.append_file = Some(rva),
        PeHelper::TouchFile => helpers.touch_file = Some(rva),
        PeHelper::RemoveFile => helpers.remove_file = Some(rva),
        PeHelper::FileOpen => helpers.file_open = Some(rva),
        PeHelper::FileOpenWrite => helpers.file_open_write = Some(rva),
        PeHelper::FileOpenAppend => helpers.file_open_append = Some(rva),
        PeHelper::FileWrite => helpers.file_write = Some(rva),
        PeHelper::FileClose => helpers.file_close = Some(rva),
        PeHelper::FileReadToString => helpers.file_read_to_string = Some(rva),
        PeHelper::FileSize => helpers.file_size = Some(rva),
        PeHelper::FileIsEmpty => helpers.file_is_empty = Some(rva),
        PeHelper::FileIsFile => helpers.file_is_file = Some(rva),
        PeHelper::FileIsDir => helpers.file_is_dir = Some(rva),
        PeHelper::FileExists => helpers.file_exists = Some(rva),
        PeHelper::ReadLine => helpers.read_line = Some(rva),
    }
}

/// The code of helper `h` placed `at` bytes into the text; `None` where a routine that it
/// calls has not been placed before it.
#[verifier::opaque]
pub open spec fn helper_code(l: Layout, image: ObjectImage, h: PeHelper, at: int, helpers: PeHelperRvas) -> Option<Seq<u8>> {
    match h {
        PeHelper::StringLen => Some(string_len_code()),
        PeHelper::StringUtf8Len => Some(string_utf8_len_code()),
        PeHelper::StringUtf8CodepointAt => Some(string_utf8_codepoint_at_code()),
        PeHelper::StringIsUtf8 => Some(string_utf8_valid_helper_code()),
        PeHelper::StringUtf8IsValid => Some(string_utf8_valid_helper_code()),
        PeHelper::StringUtf8ByteOffset => Some(string_utf8_byte_offset_code()),
        PeHelper::StringUtf8NextOffset => Some(string_utf8_next_offset_code()),
        PeHelper::StringUtf8PrevOffset => Some(string_utf8_prev_offset_code()),
        PeHelper::StringUtf8IndexAt => Some(string_utf8_index_at_code()),
        PeHelper::StringUtf8IsBoundary => Some(string_utf8_is_boundary_code()),
        PeHelper::ArrayNew => Some(array_new_code(l, at)),
        PeHelper::ArrayClone => Some(array_clone_code(l, at)),
        PeHelper::ArrayReserve => Some(array_reserve_code(l, at)),
        PeHelper::ArrayFirst => Some(array_first_code()),
        PeHelper::ArrayLast => Some(array_last_code()),
        PeHelper::ArrayFill => Some(array_fill_code()),
        PeHelper::ArrayReverse => Some(array_reverse_code()),
        PeHelper::ArrayIndexOf => Some(array_index_of_code()),
        PeHelper::ArrayLastIndexOf => Some(array_last_index_of_code()),
        PeHelper::ArrayContains => Some(array_contains_code()),
        PeHelper::ArrayCount => Some(array_contains_code()),
        PeHelper::ArrayLen => Some(array_len_code()),
        PeHelper::ArrayCapacity => Some(array_capacity_code()),
        PeHelper::ArrayIsEmpty => Some(array_is_empty_code()),
        PeHelper::ArrayGet => Some(array_get_code()),
        PeHelper::ArraySet => Some(array_set_code()),
        PeHelper::ArrayPush => Some(array_push_code()),
        PeHelper::ArrayClear => Some(array_clear_code()),
        PeHelper::ArrayFree => Some(array_free_code(l, at)),
        PeHelper::StringConcat => match helpers.string_len { Some(r) => Some(string_concat_code(l, at, r as int)), None => None },
        PeHelper::StringByteAt => Some(string_byte_at_code()),
        PeHelper::StringCompare => Some(string_compare_code()),
        PeHelper::StringContains => Some(string_contains_code()),
        PeHelper::StringStartsWith => Some(string_starts_with_code()),
        PeHelper::StringEndsWith => Some(string_ends_with_code()),
        PeHelper::StringEq => Some(string_eq_code()),
        PeHelper::StringNotEq => Some(string_not_eq_code()),
        PeHelper::StringLess => Some(string_less_code()),
        PeHelper::StringLessOrEqual => Some(string_less_or_equal_code()),
        PeHelper::StringGreater => Some(string_greater_code()),
        PeHelper::StringGreaterOrEqual => Some(string_greater_or_equal_code()),
        PeHelper::StringIsEmpty => Some(string_is_empty_code()),
        PeHelper::StringIsAscii => Some(string_is_ascii_code()),
        PeHelper::StringIsAsciiDigit => Some(string_is_ascii_digit_code()),
        PeHelper::StringIsAsciiHexDigit => Some(string_is_ascii_hex_digit_code()),
        PeHelper::StringIsAsciiAlpha => Some(string_is_ascii_alpha_code()),
        PeHelper::StringIsAsciiLower => Some(string_is_ascii_lower_code()),
        PeHelper::StringIsAsciiUpper => Some(string_is_ascii_upper_code()),
        PeHelper::StringIsAsciiAlnum => Some(string_is_ascii_alnum_code()),
        PeHelper::StringIsAsciiIdentifier => Some(string_is_ascii_identifier_code()),
        PeHelper::StringIsAsciiWhitespace => Some(string_is_ascii_whitespace_code()),
        PeHelper::StringFindByte => Some(string_find_byte_code()),
        PeHelper::StringLastFindByte => Some(string_last_find_byte_code()),
        PeHelper::StringIndexOf => Some(string_index_of_code()),
        PeHelper::StringLastIndexOf => Some(string_last_index_of_code()),
        PeHelper::StringCount => Some(string_count_code()),
        PeHelper::StringParseInt => Some(string_parse_int_code()),
        PeHelper::BoundsCheck => Some(bounds_check_code(l, at)),
        PeHelper::Print => Some(print_code(l, at)),
        PeHelper::Println => match helpers.print { Some(p) => Some(println_code(l, at, p as int, l.rdata_rva + image.rodata@.len())), None => None },
        PeHelper::Alloc => Some(if requested(image, "alloc_array"@) { alloc_array_code(l, at) } else { alloc_code(l, at) }),
        PeHelper::MemCopy => Some(mem_copy_code()),
        PeHelper::MemZero => Some(mem_zero_code()),
        PeHelper::MemMove => Some(mem_move_code()),
        PeHelper::MemFill => Some(mem_fill_code()),
        PeHelper::MemFind => Some(mem_find_code()),
        PeHelper::MemCompare => Some(mem_compare_code()),
        PeHelper::MemEqual => Some(mem_equal_code()),
        PeHelper::MemIsZero => Some(mem_is_zero_code()),
        PeHelper::MemReverse => Some(mem_reverse_code()),
        PeHelper::StringFromByte => Some(string_from_byte_code(l, at)),
        PeHelper::StringClone => Some(string_clone_code(l, at)),
        PeHelper::StringSlice => Some(string_slice_code(l, at)),
        PeHelper::AllocCopy => Some(alloc_copy_code(l, at)),
        PeHelper::ExitProcess => Some(process_exit_code(l, at)),
        PeHelper::ReadFile => Some(read_file_code(l, at)),
        PeHelper::ReadFileOr => match helpers.read_file { Some(r) => Some(read_file_or_code(l, at, r as int)), None => None },
        PeHelper::WriteFile => Some(write_file_code(l, at)),
        PeHelper::AppendFile => Some(append_file_code(l, at)),
        PeHelper::TouchFile => Some(touch_file_code(l, at)),
        PeHelper::RemoveFile => Some(remove_file_code(l, at)),
        PeHelper::FileOpen => Some(file_open_code(l, at)),
        PeHelper::FileOpenWrite => Some(file_open_write_code(l, at)),
        PeHelper::FileOpenAppend => Some(file_open_append_code(l, at)),
        PeHelper::FileWrite => Some(file_write_code(l, at)),
        PeHelper::FileClose => Some(file_close_code(l, at)),
        PeHelper::FileReadToString => Some(file_read_to_string_code(l, at)),
        PeHelper::FileSize => Some(file_size_code(l, at)),
        PeHelper::FileIsEmpty => match helpers.file_size { Some(r) => Some(file_is_empty_code(l, at, r as int)), None => None },
        PeHelper::FileIsFile => Some(file_is_file_code(l, at)),
        PeHelper::FileIsDir => Some(file_is_dir_code(l, at)),
        PeHelper::FileExists => Some(file_exists_code(l, at)),
        PeHelper::ReadLine => Some(read_line_code(l, at)),
    }
}

/// Every placed routine that another one calls lies below 2^30.
pub open spec fn callees_below(helpers: PeHelperRvas) -> bool {
    &&& helpers.string_len matches Some(r) ==> r < 0x3000_0000
    &&& helpers.print matches Some(r) ==> r < 0x3000_0000
    &&& helpers.read_file matches Some(r) ==> r < 0x3000_0000
    &&& helpers.file_size matches Some(r) ==> r < 0x3000_0000
}

/// Appends helper `h`, where the routines it calls have been placed.
#[verifier::spinoff_prover]
#[verifier::rlimit(50)]
fn emit_helper(code: &mut Vec<u8>, layout: &Layout, image: &ObjectImage, h: PeHelper, helpers: &PeHelperRvas) -> (r: bool)
    requires
        old(code)@.len() < 0x0f00_0000,
        routine_targets(*layout),
        layout.rdata_rva + image.rodata@.len() < 0x3000_0000,
        callees_below(*helpers),
    ensures
        match helper_code(*layout, *image, h, old(code)@.len() as int, *helpers) {
            Some(b) => r && final(code)@ == old(code)@ + b,
            None => !r && final(code)@ == old(code)@,
        },
        final(code)@.len() <= old(code)@.len() + 0x400,
{
    reveal(helper_code);
    match h {
        PeHelper::StringLen => emit_string_len_helper(code),
        PeHelper::StringUtf8Len => emit_string_utf8_len_helper(code),
        PeHelper::StringUtf8CodepointAt => emit_string_utf8_codepoint_at_helper(code),
        PeHelper::StringIsUtf8 => emit_string_utf8_valid_helper(code),
        PeHelper::StringUtf8IsValid => emit_string_utf8_valid_helper(code),
        PeHelper::StringUtf8ByteOffset => emit_string_utf8_byte_offset_helper(code),
        PeHelper::StringUtf8NextOffset => emit_string_utf8_next_offset_helper(code),
        PeHelper::StringUtf8PrevOffset => emit_string_utf8_prev_offset_helper(code),
        PeHelper::StringUtf8IndexAt => emit_string_utf8_index_at_helper(code),
        PeHelper::StringUtf8IsBoundary => emit_string_utf8_is_boundary_helper(code),
        PeHelper::ArrayNew => emit_array_new_helper(code, layout),
        PeHelper::ArrayClone => emit_array_clone_helper(code, layout),
        PeHelper::ArrayReserve => emit_array_reserve_helper(code, layout),
        PeHelper::ArrayFirst => emit_array_first_helper(code),
        PeHelper::ArrayLast => emit_array_last_helper(code),
        PeHelper::ArrayFill => emit_array_fill_helper(code),
        PeHelper::ArrayReverse => emit_array_reverse_helper(code),
        PeHelper::ArrayIndexOf => emit_array_index_of_helper(code),
        PeHelper::ArrayLastIndexOf => emit_array_last_index_of_helper(code),
        PeHelper::ArrayContains => emit_array_contains_helper(code),
        PeHelper::ArrayCount => emit_array_contains_helper(code),
        PeHelper::ArrayLen => emit_array_len_helper(code),
        PeHelper::ArrayCapacity => emit_array_capacity_helper(code),
        PeHelper::ArrayIsEmpty => emit_array_is_empty_helper(code),
        PeHelper::ArrayGet => emit_array_get_helper(code),
        PeHelper::ArraySet => emit_array_set_helper(code),
        PeHelper::ArrayPush => emit_array_push_helper(code),
        PeHelper::ArrayClear => emit_array_clear_helper(code),
        PeHelper::ArrayFree => emit_array_free_helper(code, layout),
        PeHelper::StringConcat => match helpers.string_len { Some(r) => emit_string_concat_helper(code, layout, r), None => return false },
        PeHelper::StringByteAt => emit_string_byte_at_helper(code),
        PeHelper::StringCompare => emit_string_compare_helper(code),
        PeHelper::StringContains => emit_string_contains_helper(code),
        PeHelper::StringStartsWith => emit_string_starts_with_helper(code),
        PeHelper::StringEndsWith => emit_string_ends_with_helper(code),
        PeHelper::StringEq => emit_string_eq_helper(code),
        PeHelper::StringNotEq => emit_string_not_eq_helper(code),
        PeHelper::StringLess => emit_string_less_helper(code),
        PeHelper::StringLessOrEqual => emit_string_less_or_equal_helper(code),
        PeHelper::StringGreater => emit_string_greater_helper(code),
        PeHelper::StringGreaterOrEqual => emit_string_greater_or_equal_helper(code),
        PeHelper::StringIsEmpty => emit_string_is_empty_helper(code),
        PeHelper::StringIsAscii => emit_string_is_ascii_helper(code),
        PeHelper::StringIsAsciiDigit => emit_string_is_ascii_digit_helper(code),
        PeHelper::StringIsAsciiHexDigit => emit_string_is_ascii_hex_digit_helper(code),
        PeHelper::StringIsAsciiAlpha => emit_string_is_ascii_alpha_helper(code),
        PeHelper::StringIsAsciiLower => emit_string_is_ascii_lower_helper(code),
        PeHelper::StringIsAsciiUpper => emit_string_is_ascii_upper_helper(code),
        PeHelper::StringIsAsciiAlnum => emit_string_is_ascii_alnum_helper(code),
        PeHelper::StringIsAsciiIdentifier => emit_string_is_ascii_identifier_helper(code),
        PeHelper::StringIsAsciiWhitespace => emit_string_is_ascii_whitespace_helper(code),
        PeHelper::StringFindByte => emit_string_find_byte_helper(code),
        PeHelper::StringLastFindByte => emit_string_last_find_byte_helper(code),
        PeHelper::StringIndexOf => emit_string_index_of_helper(code),
        PeHelper::StringLastIndexOf => emit_string_last_index_of_helper(code),
        PeHelper::StringCount => emit_string_count_helper(code),
        PeHelper::StringParseInt => emit_string_parse_int_helper(code),
        PeHelper::BoundsCheck => emit_bounds_check_helper(code, layout),
        PeHelper::Print => emit_print_helper(code, layout),
        PeHelper::Println => match helpers.print { Some(p) => emit_println_helper(code, layout, p, layout.rdata_rva + image.rodata.len() as u32), None => return false },
        PeHelper::Alloc => if requests(image, "alloc_array") { emit_alloc_array_helper(code, layout) } else { emit_alloc_helper(code, layout) },
        PeHelper::MemCopy => emit_mem_copy_helper(code),
        PeHelper::MemZero => emit_mem_zero_helper(code),
        PeHelper::MemMove => emit_mem_move_helper(code),
        PeHelper::MemFill => emit_mem_fill_helper(code),
        PeHelper::MemFind => emit_mem_find_helper(code),
        PeHelper::MemCompare => emit_mem_compare_helper(code),
        PeHelper::MemEqual => emit_mem_equal_helper(code),
        PeHelper::MemIsZero => emit_mem_is_zero_helper(code),
        PeHelper::MemReverse => emit_mem_reverse_helper(code),
        PeHelper::StringFromByte => emit_string_from_byte_helper(code, layout),
        PeHelper::StringClone => emit_string_clone_helper(code, layout),
        PeHelper::StringSlice => emit_string_slice_helper(code, layout),
        PeHelper::AllocCopy => emit_alloc_copy_helper(code, layout),
        PeHelper::ExitProcess => emit_process_exit_helper(code, layout),
        PeHelper::ReadFile => emit_read_file_helper(code, layout),
        PeHelper::ReadFileOr => match helpers.read_file { Some(r) => emit_read_file_or_helper(code, layout, r), None => return false },
        PeHelper::WriteFile => emit_write_file_helper(code, layout),
        PeHelper::AppendFile => emit_append_file_helper(code, layout),
        PeHelper::TouchFile => emit_touch_file_helper(code, layout),
        PeHelper::RemoveFile => emit_remove_file_helper(code, layout),
        PeHelper::FileOpen => emit_file_open_helper(code, layout),
        PeHelper::FileOpenWrite => emit_file_open_write_helper(code, layout),
        PeHelper::FileOpenAppend => emit_file_open_append_helper(code, layout),
        PeHelper::FileWrite => emit_file_write_helper(code, layout),
        PeHelper::FileClose => emit_file_close_helper(code, layout),
        PeHelper::FileReadToString => emit_file_read_to_string_helper(code, layout),
        PeHelper::FileSize => emit_file_size_helper(code, layout),
        PeHelper::FileIsEmpty => match helpers.file_size { Some(r) => emit_file_is_empty_helper(code, layout, r), None => return false },
        PeHelper::FileIsFile => emit_file_is_file_helper(code, layout),
        PeHelper::FileIsDir => emit_file_is_dir_helper(code, layout),
        PeHelper::FileExists => emit_file_exists_helper(code, layout),
        PeHelper::ReadLine => emit_read_line_helper(code, layout),
    }
    true
}

/// Whether the image calls for any helper routine but `write_file`: then the routines start
/// at a 16-byte boundary.
pub open spec fn calls_for_helpers(image: ObjectImage) -> bool {
    requested(image, "string_len"@)
        || requested(image, "string_concat"@)
        || requested(image, "string_utf8_len"@)
        || requested(image, "string_utf8_codepoint_at"@)
        || requested(image, "string_is_utf8"@)
        || requested(image, "string_utf8_is_valid"@)
        || requested(image, "string_utf8_byte_offset"@)
        || requested(image, "string_utf8_next_offset"@)
        || requested(image, "string_utf8_prev_offset"@)
        || requested(image, "string_utf8_index_at"@)
        || requested(image, "string_utf8_is_boundary"@)
        || requested(image, "array_new"@)
        || requested(image, "array_clone"@)
        || requested(image, "array_reserve"@)
        || requested(image, "array_first"@)
        || requested(image, "array_last"@)
        || requested(image, "array_fill"@)
        || requested(image, "array_reverse"@)
        || requested(image, "array_index_of"@)
        || requested(image, "array_last_index_of"@)
        || requested(image, "array_contains"@)
        || requested(image, "array_count"@)
        || requested(image, "array_len"@)
        || requested(image, "array_capacity"@)
        || requested(image, "array_is_empty"@)
        || requested(image, "array_get"@)
        || requested(image, "array_set"@)
        || requested(image, "array_push"@)
        || requested(image, "array_clear"@)
        || requested(image, "array_free"@)
        || requested(image, "string_byte_at"@)
        || requested(image, "string_compare"@)
        || requested(image, "string_contains"@)
        || requested(image, "string_starts_with"@)
        || requested(image, "string_ends_with"@)
        || requested(image, "string_eq"@)
        || requested(image, "string_not_eq"@)
        || requested(image, "string_less"@)
        || requested(image, "string_less_or_equal"@)
        || requested(image, "string_greater"@)
        || requested(image, "string_greater_or_equal"@)
        || requested(image, "string_is_empty"@)
        || requested(image, "string_is_ascii"@)
        || requested(image, "string_is_ascii_digit"@)
        || requested(image, "string_is_ascii_hex_digit"@)
        || requested(image, "string_is_ascii_alpha"@)
        || requested(image, "string_is_ascii_lower"@)
        || requested(image, "string_is_ascii_upper"@)
        || requested(image, "string_is_ascii_alnum"@)
        || requested(image, "string_is_ascii_identifier"@)
        || requested(image, "string_is_ascii_whitespace"@)
        || requested(image, "string_find_byte"@)
        || requested(image, "string_last_find_byte"@)
        || requested(image, "string_index_of"@)
        || requested(image, "string_last_index_of"@)
        || requested(image, "string_count"@)
        || requested(image, "string_parse_int"@)
        || requested(image, "__geo_bounds_check"@)
        || requested(image, "print"@)
        || requested(image, "println"@)
        || requested(image, "alloc"@)
        || requested(image, "alloc_zeroed"@)
        || requested(image, "alloc_array"@)
        || requested(image, "mem_copy"@)
        || requested(image, "mem_zero"@)
        || requested(image, "mem_move"@)
        || requested(image, "mem_fill"@)
        || requested(image, "mem_find"@)
        || requested(image, "mem_compare"@)
        || requested(image, "mem_equal"@)
        || requested(image, "mem_is_zero"@)
        || requested(image, "mem_reverse"@)
        || requested(image, "string_from_byte"@)
        || requested(image, "string_clone"@)
        || requested(image, "string_slice"@)
        || requested(image, "alloc_copy"@)
        || requested(image, "exit_geo"@)
        || requested(image, "read_file"@)
        || requested(image, "read_file_or"@)
        || requested(image, "file_read"@)
        || requested(image, "file_read_to_string"@)
        || requested(image, "append_file"@)
        || requested(image, "touch_file"@)
        || requested(image, "remove_file"@)
        || requested(image, "file_open"@)
        || requested(image, "file_open_write"@)
        || requested(image, "file_open_append"@)
        || requested(image, "file_write"@)
        || requested(image, "file_close"@)
        || requested(image, "file_size"@)
        || requested(image, "file_is_empty"@)
        || requested(image, "file_is_file"@)
        || requested(image, "file_is_dir"@)
        || requested(image, "file_exists"@)
        || requested(image, "read_line"@)
}

fn calls_for_helpers_exec(image: &ObjectImage) -> (r: bool)
    ensures
        r == calls_for_helpers(*image),
{
    requests(image, "string_len")
        || requests(image, "string_concat")
        || requests(image, "string_utf8_len")
        || requests(image, "string_utf8_codepoint_at")
        || requests(image, "string_is_utf8")
        || requests(image, "string_utf8_is_valid")
        || requests(image, "string_utf8_byte_offset")
        || requests(image, "string_utf8_next_offset")
        || requests(image, "string_utf8_prev_offset")
        || requests(image, "string_utf8_index_at")
        || requests(image, "string_utf8_is_boundary")
        || requests(image, "array_new")
        || requests(image, "array_clone")
        || requests(image, "array_reserve")
        || requests(image, "array_first")
        || requests(image, "array_last")
        || requests(image, "array_fill")
        || requests(image, "array_reverse")
        || requests(image, "array_index_of")
        || requests(image, "array_last_index_of")
        || requests(image, "array_contains")
        || requests(image, "array_count")
        || requests(image, "array_len")
        || requests(image, "array_capacity")
        || requests(image, "array_is_empty")
        || requests(image, "array_get")
        || requests(image, "array_set")
        || requests(image, "array_push")
        || requests(image, "array_clear")
        || requests(image, "array_free")
        || requests(image, "string_byte_at")
        || requests(image, "string_compare")
        || requests(image, "string_contains")
        || requests(image, "string_starts_with")
        || requests(image, "string_ends_with")
        || requests(image, "string_eq")
        || requests(image, "string_not_eq")
        || requests(image, "string_less")
        || requests(image, "string_less_or_equal")
        || requests(image, "string_greater")
        || requests(image, "string_greater_or_equal")
        || requests(image, "string_is_empty")
        || requests(image, "string_is_ascii")
        || requests(image, "string_is_ascii_digit")
        || requests(image, "string_is_ascii_hex_digit")
        || requests(image, "string_is_ascii_alpha")
        || requests(image, "string_is_ascii_lower")
        || requests(image, "string_is_ascii_upper")
        || requests(image, "string_is_ascii_alnum")
        || requests(image, "string_is_ascii_identifier")
        || requests(image, "string_is_ascii_whitespace")
        || requests(image, "string_find_byte")
        || requests(image, "string_last_find_byte")
        || requests(image, "string_index_of")
        || requests(image, "string_last_index_of")
        || requests(image, "string_count")
        || requests(image, "string_parse_int")
        || requests(image, "__geo_bounds_check")
        || requests(image, "print")
        || requests(image, "println")
        || requests(image, "alloc")
        || requests(image, "alloc_zeroed")
        || requests(image, "alloc_array")
        || requests(image, "mem_copy")
        || requests(image, "mem_zero")
        || requests(image, "mem_move")
        || requests(image, "mem_fill")
        || requests(image, "mem_find")
        || requests(image, "mem_compare")
        || requests(image, "mem_equal")
        || requests(image, "mem_is_zero")
        || requests(image, "mem_reverse")
        || requests(image, "string_from_byte")
        || requests(image, "string_clone")
        || requests(image, "string_slice")
        || requests(image, "alloc_copy")
        || requests(image, "exit_geo")
        || requests(image, "read_file")
        || requests(image, "read_file_or")
        || requests(image, "file_read")
        || requests(image, "file_read_to_string")
        || requests(image, "append_file")
        || requests(image, "touch_file")
        || requests(image, "remove_file")
        || requests(image, "file_open")
        || requests(image, "file_open_write")
        || requests(image, "file_open_append")
        || requests(image, "file_write")
        || requests(image, "file_close")
        || requests(image, "file_size")
        || requests(image, "file_is_empty")
        || requests(image, "file_is_file")
        || requests(image, "file_is_dir")
        || requests(image, "file_exists")
        || requests(image, "read_line")
}

/// The entry stub: reserve the shadow space, call `main` at `main_rva`, hand its result to
/// `ExitProcess`, then `int3` up to the 32 bytes where the image's text starts.
pub open spec fn entry_stub(l: Layout, main_rva: int) -> Seq<u8> {
    seq![0x48u8, 0x83, 0xec, 0x28, 0xe8] + rel32_to(main_rva, (l.text_rva + 9) as nat)
        + seq![0x89u8, 0xc1, 0xff, 0x15] + rel32_to(l.exit_process_iat as int, (l.text_rva + 17) as nat)
        + Seq::new(15, |i: int| 0xccu8)
}

/// `s` followed by `int3` bytes up to a multiple of 16.
pub open spec fn int3_padded(s: Seq<u8>) -> Seq<u8> {
    s + Seq::new((spec_align_to(s.len() as int, 16) - s.len()) as nat, |i: int| 0xccu8)
}

/// The code before the helper routines: the entry stub, the image's text, and the padding
/// to a 16-byte boundary where helpers follow.
pub open spec fn compiled_start(l: Layout, image: ObjectImage) -> Seq<u8> {
    let s = entry_stub(l, l.text_rva + 32 + first_offset(image.functions@, "main"@)->0) + image.text@;
    if calls_for_helpers(image) { int3_padded(s) } else { s }
}

/// The code, the helper table and whether every routine found its callees, after the first
/// `n` helper routines of the layout order were considered: each one that the image calls
/// for is appended and its address recorded.
pub open spec fn helpers_laid_out(l: Layout, image: ObjectImage, start: Seq<u8>, n: int) -> (Seq<u8>, PeHelperRvas, bool)
    decreases n,
{
    if n <= 0 {
        (start, no_helpers(), true)
    } else {
        let prev = helpers_laid_out(l, image, start, n - 1);
        let h = helper_kind(n - 1);
        if prev.2 && helper_needed(image, h) {
            match helper_code(l, image, h, prev.0.len() as int, prev.1) {
                Some(b) => (prev.0 + b, with_helper(prev.1, h, (l.text_rva + prev.0.len()) as u32), true),
                None => (prev.0, prev.1, false),
            }
        } else {
            prev
        }
    }
}

/// The text with all the helper routines, before relocation.
pub open spec fn compiled_code(l: Layout, image: ObjectImage) -> Seq<u8> {
    helpers_laid_out(l, image, compiled_start(l, image), HELPER_COUNT as int).0
}

/// Where the helper routines of a compiled image lie.
pub open spec fn helpers_of(l: Layout, image: ObjectImage) -> PeHelperRvas {
    helpers_laid_out(l, image, compiled_start(l, image), HELPER_COUNT as int).1
}

/// Every helper routine that another one calls was laid out before it.
pub open spec fn helpers_ok(l: Layout, image: ObjectImage) -> bool {
    helpers_laid_out(l, image, compiled_start(l, image), HELPER_COUNT as int).2
}

/// The text section of a compiled image: its code with every relocation filled in, padded
/// with zeros to the file alignment.
pub open spec fn compiled_text(l: Layout, image: ObjectImage) -> Seq<u8> {
    padded(
        compiled_relocated(compiled_code(l, image), image.relocations@, l, image, 32, helpers_of(l, image)),
        FILE_ALIGNMENT as int,
    )
}

/// Placing a routine below 2^30 keeps every callee below 2^30.
proof fn lemma_with_helper_callees(helpers: PeHelperRvas, h: PeHelper, rva: u32)
    requires
        callees_below(helpers),
        rva < 0x3000_0000,
    ensures
        callees_below(with_helper(helpers, h, rva)),
{
    reveal(with_helper);
}

/// Once a routine misses its callee, the layout stays failed.
proof fn lemma_failure_stays(l: Layout, image: ObjectImage, start: Seq<u8>, n: int, m: int)
    requires
        0 <= n <= m,
        !helpers_laid_out(l, image, start, n).2,
    ensures
        !helpers_laid_out(l, image, start, m).2,
    decreases m - n,
{
    if n < m {
        lemma_failure_stays(l, image, start, n, m - 1);
    }
}


proof fn lemma_with_helper_callee_fields(helpers: PeHelperRvas, h: PeHelper, rva: u32)
    ensures
        with_helper(helpers, h, rva).string_len == (if h == PeHelper::StringLen { Some(rva) } else { helpers.string_len }),
        with_helper(helpers, h, rva).print == (if h == PeHelper::Print { Some(rva) } else { helpers.print }),
        with_helper(helpers, h, rva).read_file == (if h == PeHelper::ReadFile { Some(rva) } else { helpers.read_file }),
        with_helper(helpers, h, rva).file_size == (if h == PeHelper::FileSize { Some(rva) } else { helpers.file_size }),
{
    reveal(with_helper);
}

proof fn lemma_helper_code_some(l: Layout, image: ObjectImage, h: PeHelper, at: int, helpers: PeHelperRvas)
    requires
        h == PeHelper::StringConcat ==> helpers.string_len is Some,
        h == PeHelper::Println ==> helpers.print is Some,
        h == PeHelper::ReadFileOr ==> helpers.read_file is Some,
        h == PeHelper::FileIsEmpty ==> helpers.file_size is Some,
    ensures
        helper_code(l, image, h, at, helpers) is Some,
{
    reveal(helper_code);
}

proof fn lemma_callees_needed(image: ObjectImage)
    ensures
        helper_needed(image, PeHelper::StringConcat) ==> helper_needed(image, PeHelper::StringLen),
        helper_needed(image, PeHelper::Println) ==> helper_needed(image, PeHelper::Print),
        helper_needed(image, PeHelper::ReadFileOr) ==> helper_needed(image, PeHelper::ReadFile),
        helper_needed(image, PeHelper::FileIsEmpty) ==> helper_needed(image, PeHelper::FileSize),
{
    reveal(helper_needed);
}

proof fn lemma_callee_order(i: int)
    requires
        0 <= i < HELPER_COUNT,
    ensures
        helper_kind(0) == PeHelper::StringLen,
        helper_kind(58) == PeHelper::Print,
        helper_kind(75) == PeHelper::ReadFile,
        helper_kind(87) == PeHelper::FileSize,
        helper_kind(i) == PeHelper::StringConcat ==> i == 29,
        helper_kind(i) == PeHelper::Println ==> i == 59,
        helper_kind(i) == PeHelper::ReadFileOr ==> i == 76,
        helper_kind(i) == PeHelper::FileIsEmpty ==> i == 88,
{
    reveal(helper_kind);
}

proof fn lemma_laid_out_ok(l: Layout, image: ObjectImage, start: Seq<u8>, n: int)
    requires
        0 <= n <= HELPER_COUNT,
    ensures
        helpers_laid_out(l, image, start, n).2,
        n > 0 && helper_needed(image, PeHelper::StringLen) ==> helpers_laid_out(l, image, start, n).1.string_len is Some,
        n > 58 && helper_needed(image, PeHelper::Print) ==> helpers_laid_out(l, image, start, n).1.print is Some,
        n > 75 && helper_needed(image, PeHelper::ReadFile) ==> helpers_laid_out(l, image, start, n).1.read_file is Some,
        n > 87 && helper_needed(image, PeHelper::FileSize) ==> helpers_laid_out(l, image, start, n).1.file_size is Some,
    decreases n,
{
    if n > 0 {
        lemma_laid_out_ok(l, image, start, n - 1);
        let prev = helpers_laid_out(l, image, start, n - 1);
        let h = helper_kind(n - 1);
        lemma_callee_order(n - 1);
        lemma_callees_needed(image);
        if helper_needed(image, h) {
            lemma_helper_code_some(l, image, h, prev.0.len() as int, prev.1);
        }
        lemma_with_helper_callee_fields(prev.1, h, (l.text_rva + prev.0.len()) as u32);
    }
}

/// Every helper routine that calls another (`string_concat`, `println`, `read_file_or`,
/// `file_is_empty`) finds it laid out before itself: the callee serves every symbol that the
/// caller does, and comes earlier in the layout order.
pub proof fn lemma_helpers_ok(l: Layout, image: ObjectImage)
    ensures
        helpers_ok(l, image),
{
    lemma_laid_out_ok(l, image, compiled_start(l, image), HELPER_COUNT as int);
}

/// Appends the entry stub.
fn emit_entry_stub(code: &mut Vec<u8>, layout: &Layout, main_rva: u32)
    requires
        old(code)@.len() == 0,
        layout.text_rva < 0x1000_0000,
        layout.exit_process_iat < 0x4000_0000,
        main_rva < 0x4000_0000,
    ensures
        final(code)@ == entry_stub(*layout, main_rva as int),
{
    push_bytes(code, &[0x48, 0x83, 0xec, 0x28, 0xe8]);
    emit_rel32(code, layout.text_rva, main_rva);
    push_bytes(code, &[0x89, 0xc1, 0xff, 0x15]);
    emit_rel32(code, layout.text_rva, layout.exit_process_iat);
    push_bytes(code, &[0xcc, 0xcc, 0xcc, 0xcc, 0xcc, 0xcc, 0xcc, 0xcc, 0xcc, 0xcc, 0xcc, 0xcc, 0xcc, 0xcc, 0xcc]);
    assert(code@ =~= entry_stub(*layout, main_rva as int));
}

/// Appends `int3` bytes up to a multiple of 16.
fn pad_with_int3(code: &mut Vec<u8>)
    requires
        old(code)@.len() < 0x0900_0000,
    ensures
        final(code)@ == int3_padded(old(code)@),
{
    let ghost s = code@;
    while code.len() % 16 != 0
        invariant
            s.len() <= code@.len() <= spec_align_to(s.len() as int, 16),
            s.len() < 0x0900_0000,
            code@ == s + Seq::new((code@.len() - s.len()) as nat, |i: int| 0xccu8),
        decreases spec_align_to(s.len() as int, 16) - code@.len(),
    {
        proof {
            assert(code@.len() < spec_align_to(s.len() as int, 16)) by (nonlinear_arith)
                requires
                    code@.len() <= spec_align_to(s.len() as int, 16),
                    code@.len() % 16 != 0,
                    spec_align_to(s.len() as int, 16) == (s.len() + 15) / 16 * 16;
        }
        code.push(0xcc);
        assert(code@ =~= s + Seq::new((code@.len() - s.len()) as nat, |i: int| 0xccu8));
    }
    proof {
        assert(code@.len() == spec_align_to(s.len() as int, 16)) by (nonlinear_arith)
            requires
                s.len() <= code@.len() <= spec_align_to(s.len() as int, 16),
                code@.len() % 16 == 0,
                spec_align_to(s.len() as int, 16) == (s.len() + 15) / 16 * 16;
    }
}

/// Appends, in layout order, every helper routine that the image calls for, and says where
/// each lies; `None` where a routine's callee is missing.
#[verifier::spinoff_prover]
fn lay_out_helpers(code: &mut Vec<u8>, layout: &Layout, image: &ObjectImage) -> (r: Option<PeHelperRvas>)
    requires
        old(code)@.len() < 0x0800_1000,
        routine_targets(*layout),
        layout.text_rva == 0x1000,
        layout.rdata_rva == 0x2000,
        image.rodata@.len() < 0x0800_0000,
    ensures
        ({
            let (c, h, ok) = helpers_laid_out(*layout, *image, old(code)@, HELPER_COUNT as int);
            &&& r is Some <==> ok
            &&& r matches Some(helpers) ==> helpers == h && final(code)@ == c
                && old(code)@.len() <= c.len() <= old(code)@.len() + 0x400 * HELPER_COUNT
        }),
{
    let ghost start = code@;
    let mut helpers = empty_helpers();
    let mut i: usize = 0;
    while i < HELPER_COUNT
        invariant
            i <= HELPER_COUNT,
            helpers_laid_out(*layout, *image, start, i as int) == (code@, helpers, true),
            start == old(code)@,
            start.len() <= code@.len() <= start.len() + 0x400 * i,
            start.len() < 0x0800_1000,
            callees_below(helpers),
            routine_targets(*layout),
            layout.text_rva == 0x1000,
            layout.rdata_rva == 0x2000,
            image.rodata@.len() < 0x0800_0000,
        decreases HELPER_COUNT - i,
    {
        let h = helper_kind_at(i);
        if helper_needed_exec(image, h) {
            let rva: u32 = layout.text_rva + code.len() as u32;
            let ok = emit_helper(code, layout, image, h, &helpers);
            if !ok {
                proof {
                    assert(!helpers_laid_out(*layout, *image, start, i + 1).2);
                    lemma_failure_stays(*layout, *image, start, i + 1, HELPER_COUNT as int);
                    assert(!helpers_laid_out(*layout, *image, old(code)@, HELPER_COUNT as int).2);
                }
                return None;
            }
            proof {
                lemma_with_helper_callees(helpers, h, rva);
            }
            place_helper(&mut helpers, h, rva);
        }
        i += 1;
    }
    Some(helpers)
}

/// Builds the text section of a Windows executable from compiled code.
#[verifier::spinoff_prover]
#[verifier::rlimit(50)]
pub fn build_compiled_text(layout: &Layout, image: &ObjectImage) -> (r: Option<Vec<u8>>)
    requires
        image_wf(*image),
        image.text@.len() < 0x0800_0000,
        image.rodata@.len() < 0x0800_0000,
        fixed_placement(*layout, image.rodata@.len() as int),
        slots_below(*layout, 0x4000),
    ensures
        r is Some <==> {
            &&& first_offset(image.functions@, "main"@) is Some
            &&& forall|k: int| 0 <= k < image.relocations@.len() ==> #[trigger] symbol_rva(
                *layout,
                *image,
                32,
                helpers_of(*layout, *image),
                image.relocations@[k].symbol@,
            ) is Some
        },
        r matches Some(c) ==> c@ == compiled_text(*layout, *image) && c@.len() < 0x0900_0000,
{
    proof {
        lemma_helpers_ok(*layout, *image);
    }
    let main_offset = match find_function(&image.functions, "main") {
        Some(offset) => offset,
        None => return None,
    };
    proof {
        crate::elf::lemma_first_offset_found(image.functions@, "main"@);
        let k = choose|k: int| 0 <= k < image.functions@.len() && #[trigger] image.functions@[k].offset == main_offset;
        assert(image.functions@[k].offset <= image.text@.len());
    }
    let main_rva: u32 = layout.text_rva + 32 + main_offset as u32;
    let mut code: Vec<u8> = Vec::new();
    emit_entry_stub(&mut code, layout, main_rva);
    push_bytes(&mut code, image.text.as_slice());
    if calls_for_helpers_exec(image) {
        pad_with_int3(&mut code);
    }
    let ghost start = code@;
    assert(start == compiled_start(*layout, *image));
    assert(slots_below(*layout, 0x4000_0000));
    let helpers = match lay_out_helpers(&mut code, layout, image) {
        Some(helpers) => helpers,
        None => return None,
    };
    match patch_compiled_relocations(&mut code, layout, image, 32, &helpers) {
        Some(()) => {},
        None => return None,
    }
    assert(code@.len() + 0x200 < 0x1_0000_0000);
    pad_to(&mut code, FILE_ALIGNMENT as usize);
    Some(code)
}

/// The layout of a compiled image: sections at their fixed places, and the imports that the
/// helpers it calls for use, in table order.
pub open spec fn laid_out_for(l: Layout, image: ObjectImage) -> bool {
    &&& fixed_placement(l, image.rodata@.len() as int)
    &&& l.has_console_io == needs_console_helpers(image)
    &&& l.has_virtual_alloc == (needs_virtual_alloc(image) || needs_file_read(image))
    &&& l.has_file_read == needs_file_read(image)
    &&& l.has_file_ops == needs_file_ops(image)
    &&& l.has_file_metadata == needs_file_metadata(image)
    &&& slots_follow_imports(l)
}

/// An image has one layout.
pub proof fn lemma_layout_unique(a: Layout, b: Layout, image: ObjectImage)
    requires
        laid_out_for(a, image),
        laid_out_for(b, image),
    ensures
        a == b,
{
    let imports = layout_imports(a);
    assert(layout_imports(b) == imports);
    assert forall|i: Import| slot_of(a, i) == slot_of(b, i) by {
        if imports.contains(i) {
            let k = choose|k: int| 0 <= k < imports.len() && imports[k] == i;
            assert(slot_of(a, imports[k]) == first_thunk_rva(a) + 8 * k);
            assert(slot_of(b, imports[k]) == first_thunk_rva(b) + 8 * k);
        }
    }
    assert(slot_of(a, Import::GetStdHandle) == slot_of(b, Import::GetStdHandle));
    assert(slot_of(a, Import::WriteFile) == slot_of(b, Import::WriteFile));
    assert(slot_of(a, Import::ExitProcess) == slot_of(b, Import::ExitProcess));
    assert(slot_of(a, Import::VirtualAlloc) == slot_of(b, Import::VirtualAlloc));
    assert(slot_of(a, Import::VirtualFree) == slot_of(b, Import::VirtualFree));
    assert(slot_of(a, Import::CreateFile) == slot_of(b, Import::CreateFile));
    assert(slot_of(a, Import::GetFileSize) == slot_of(b, Import::GetFileSize));
    assert(slot_of(a, Import::ReadFile) == slot_of(b, Import::ReadFile));
    assert(slot_of(a, Import::CloseHandle) == slot_of(b, Import::CloseHandle));
    assert(slot_of(a, Import::DeleteFile) == slot_of(b, Import::DeleteFile));
    assert(slot_of(a, Import::GetFileAttributes) == slot_of(b, Import::GetFileAttributes));
}

/// The text of a compiled image can be built in layout `l`: it has a `main`, and every
/// relocation reaches somewhere.
pub open spec fn compiled_text_ok(l: Layout, image: ObjectImage) -> bool {
    &&& first_offset(image.functions@, "main"@) is Some
    &&& forall|k: int| 0 <= k < image.relocations@.len() ==> #[trigger] symbol_rva(
        l,
        image,
        32,
        helpers_of(l, image),
        image.relocations@[k].symbol@,
    ) is Some
}

/// `img` is the executable of compiled code `image` in layout `l`: the headers, the compiled
/// text at 0x200, the read-only data and the import table, each at its file offset.
pub open spec fn is_compiled_image(img: Seq<u8>, image: ObjectImage, l: Layout) -> bool {
    let text = compiled_text(l, image);
    let rdata = compiled_rdata(image.rodata@, needs_console_helpers(image));
    let rr = rdata_raw(text.len() as int);
    let ir = rr + rdata_file_size(rdata.len() as int);
    &&& img.len() == ir + FILE_ALIGNMENT
    &&& img.subrange(0, 0x200) == image_headers(l, text.len() as int, rdata.len() as int, FILE_ALIGNMENT as int)
    &&& img.subrange(0x200, 0x200 + text.len() as int) == text
    &&& img.subrange(rr, rr + rdata.len()) == rdata
    &&& idata_describes(l, img.subrange(ir, ir + FILE_ALIGNMENT))
}

/// Builds a Windows console executable from compiled code: the text with its helper
/// routines, the read-only data and the imports that the helpers use. `None` where the code
/// has no `main` or a relocation reaches nowhere.
#[verifier::spinoff_prover]
pub fn emit_compiled_pe64_console(image: &ObjectImage) -> (r: Option<Vec<u8>>)
    requires
        image_wf(*image),
        image.text@.len() < 0x0800_0000,
        image.rodata@.len() < 0x0800_0000,
    ensures
        exists|l: Layout| laid_out_for(l, *image),
        r is Some <==> forall|l: Layout| laid_out_for(l, *image) ==> compiled_text_ok(l, *image),
        r matches Some(img) ==> forall|l: Layout| laid_out_for(l, *image) ==> is_compiled_image(img@, *image, l),
{
    let (layout, console) = compiled_layout(image);
    assert(laid_out_for(layout, *image));
    assert forall|l: Layout| laid_out_for(l, *image) implies l == layout by {
        lemma_layout_unique(l, layout, *image);
    }
    let text = match build_compiled_text(&layout, image) {
        Some(text) => text,
        None => return None,
    };
    let rdata = build_compiled_rdata(image, console);
    let idata = build_idata(&layout);
    proof {
        assert(rdata@.len() < 0x1000_0000) by {
            let n: int = image.rodata@.len() as int + 2;
            assert(spec_align_to(n, 0x200) <= n + 0x200) by (nonlinear_arith)
                requires n >= 0;
        }
    }
    let img = build_image(&layout, text.as_slice(), rdata.as_slice(), idata.as_slice());
    Some(img)
}

/// Emits a Windows console executable for a program: from its compiled code where that
/// links, else, as `emit_pe64_console` does, from the program run at compile time.
pub fn emit_pe64_console_with_code(program: &IrProgram, image: &ObjectImage) -> (r: Option<Vec<u8>>)
    requires
        image_wf(*image),
        image.text@.len() < 0x0800_0000,
        image.rodata@.len() < 0x0800_0000,
    ensures
        (forall|l: Layout| laid_out_for(l, *image) ==> compiled_text_ok(l, *image)) ==> (r matches Some(img)
            && forall|l: Layout| laid_out_for(l, *image) ==> is_compiled_image(img@, *image, l)),
        !(forall|l: Layout| laid_out_for(l, *image) ==> compiled_text_ok(l, *image)) ==> ({
            let (result, _, output) = run_function(*program, "main"@, seq![], 0, None);
            &&& r is Some <==> (result matches Some(ValueView::Int(_))
                && match output { Some(t) => utf8_len(t) < 0x0ff0_0000, None => true })
            &&& r matches Some(img) ==> result matches Some(ValueView::Int(code))
                && exists|l: Layout| #[trigger] plan_image(img@, output, code as u32, l)
        }),
{
    match emit_compiled_pe64_console(image) {
        Some(img) => Some(img),
        None => emit_pe64_console(program),
    }
}

} // verus!
