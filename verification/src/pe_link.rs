//! Linking of compiled code into a PE image: which imports and helpers an image calls for,
//! where each relocation reaches, the filled relocation fields and the read-only data.
use vstd::prelude::*;
use crate::bytes::{le32, lemma_range_kept, lemma_splice_same_outside, pad_to, padded, push_bytes, splice, write_u32};
use crate::elf::{find_function, first_offset, image_wf, lemma_first_offset_found, requested, ObjectImage, ObjectRelocation};
use crate::pe::{fixed_placement, slots_below, slots_follow_imports, Layout, FILE_ALIGNMENT};
use crate::text::str_eq;

verus! {

/// Where the helper routines of a compiled image lie, for those that it carries.
#[derive(Debug, Clone, Copy, Default)]
pub struct PeHelperRvas {
    pub bounds_check: Option<u32>,
    pub print: Option<u32>,
    pub println: Option<u32>,
    pub exit_process: Option<u32>,
    pub alloc: Option<u32>,
    pub read_file: Option<u32>,
    pub read_file_or: Option<u32>,
    pub write_file: Option<u32>,
    pub append_file: Option<u32>,
    pub touch_file: Option<u32>,
    pub remove_file: Option<u32>,
    pub file_open: Option<u32>,
    pub file_open_write: Option<u32>,
    pub file_open_append: Option<u32>,
    pub file_write: Option<u32>,
    pub file_close: Option<u32>,
    pub file_read_to_string: Option<u32>,
    pub file_exists: Option<u32>,
    pub file_is_file: Option<u32>,
    pub file_is_dir: Option<u32>,
    pub file_is_empty: Option<u32>,
    pub file_size: Option<u32>,
    pub read_line: Option<u32>,
    pub mem_copy: Option<u32>,
    pub mem_zero: Option<u32>,
    pub mem_move: Option<u32>,
    pub mem_fill: Option<u32>,
    pub mem_find: Option<u32>,
    pub mem_compare: Option<u32>,
    pub mem_equal: Option<u32>,
    pub mem_is_zero: Option<u32>,
    pub mem_reverse: Option<u32>,
    pub string_from_byte: Option<u32>,
    pub string_clone: Option<u32>,
    pub string_slice: Option<u32>,
    pub alloc_copy: Option<u32>,
    pub string_concat: Option<u32>,
    pub string_len: Option<u32>,
    pub string_utf8_len: Option<u32>,
    pub string_utf8_codepoint_at: Option<u32>,
    pub string_is_utf8: Option<u32>,
    pub string_utf8_is_valid: Option<u32>,
    pub string_utf8_byte_offset: Option<u32>,
    pub string_utf8_next_offset: Option<u32>,
    pub string_utf8_prev_offset: Option<u32>,
    pub string_utf8_index_at: Option<u32>,
    pub string_utf8_is_boundary: Option<u32>,
    pub array_new: Option<u32>,
    pub array_clone: Option<u32>,
    pub array_reserve: Option<u32>,
    pub array_first: Option<u32>,
    pub array_last: Option<u32>,
    pub array_fill: Option<u32>,
    pub array_reverse: Option<u32>,
    pub array_index_of: Option<u32>,
    pub array_last_index_of: Option<u32>,
    pub array_contains: Option<u32>,
    pub array_count: Option<u32>,
    pub array_len: Option<u32>,
    pub array_capacity: Option<u32>,
    pub array_is_empty: Option<u32>,
    pub array_get: Option<u32>,
    pub array_set: Option<u32>,
    pub array_push: Option<u32>,
    pub array_clear: Option<u32>,
    pub array_free: Option<u32>,
    pub string_byte_at: Option<u32>,
    pub string_compare: Option<u32>,
    pub string_contains: Option<u32>,
    pub string_starts_with: Option<u32>,
    pub string_ends_with: Option<u32>,
    pub string_eq: Option<u32>,
    pub string_not_eq: Option<u32>,
    pub string_less: Option<u32>,
    pub string_less_or_equal: Option<u32>,
    pub string_greater: Option<u32>,
    pub string_greater_or_equal: Option<u32>,
    pub string_is_empty: Option<u32>,
    pub string_is_ascii: Option<u32>,
    pub string_is_ascii_digit: Option<u32>,
    pub string_is_ascii_hex_digit: Option<u32>,
    pub string_is_ascii_alpha: Option<u32>,
    pub string_is_ascii_lower: Option<u32>,
    pub string_is_ascii_upper: Option<u32>,
    pub string_is_ascii_alnum: Option<u32>,
    pub string_is_ascii_identifier: Option<u32>,
    pub string_is_ascii_whitespace: Option<u32>,
    pub string_find_byte: Option<u32>,
    pub string_last_find_byte: Option<u32>,
    pub string_index_of: Option<u32>,
    pub string_last_index_of: Option<u32>,
    pub string_count: Option<u32>,
    pub string_parse_int: Option<u32>,
}

/// The helper slot that `symbol` names, where it names one.
pub open spec fn helper_slot(helpers: PeHelperRvas, symbol: Seq<char>) -> Option<Option<u32>> {
    if symbol == "__geo_bounds_check"@ {
        Some(helpers.bounds_check)
    } else if symbol == "print"@ {
        Some(helpers.print)
    } else if symbol == "println"@ {
        Some(helpers.println)
    } else if symbol == "string_concat"@ {
        Some(helpers.string_concat)
    } else if symbol == "string_len"@ {
        Some(helpers.string_len)
    } else if symbol == "string_utf8_len"@ {
        Some(helpers.string_utf8_len)
    } else if symbol == "string_utf8_codepoint_at"@ {
        Some(helpers.string_utf8_codepoint_at)
    } else if symbol == "string_is_utf8"@ {
        Some(helpers.string_is_utf8)
    } else if symbol == "string_utf8_is_valid"@ {
        Some(helpers.string_utf8_is_valid)
    } else if symbol == "string_utf8_byte_offset"@ {
        Some(helpers.string_utf8_byte_offset)
    } else if symbol == "string_utf8_next_offset"@ {
        Some(helpers.string_utf8_next_offset)
    } else if symbol == "string_utf8_prev_offset"@ {
        Some(helpers.string_utf8_prev_offset)
    } else if symbol == "string_utf8_index_at"@ {
        Some(helpers.string_utf8_index_at)
    } else if symbol == "string_utf8_is_boundary"@ {
        Some(helpers.string_utf8_is_boundary)
    } else if symbol == "array_new"@ {
        Some(helpers.array_new)
    } else if symbol == "array_clone"@ {
        Some(helpers.array_clone)
    } else if symbol == "array_reserve"@ {
        Some(helpers.array_reserve)
    } else if symbol == "array_first"@ {
        Some(helpers.array_first)
    } else if symbol == "array_last"@ {
        Some(helpers.array_last)
    } else if symbol == "array_fill"@ {
        Some(helpers.array_fill)
    } else if symbol == "array_reverse"@ {
        Some(helpers.array_reverse)
    } else if symbol == "array_index_of"@ {
        Some(helpers.array_index_of)
    } else if symbol == "array_last_index_of"@ {
        Some(helpers.array_last_index_of)
    } else if symbol == "array_contains"@ {
        Some(helpers.array_contains)
    } else if symbol == "array_count"@ {
        Some(helpers.array_count)
    } else if symbol == "array_len"@ {
        Some(helpers.array_len)
    } else if symbol == "array_capacity"@ {
        Some(helpers.array_capacity)
    } else if symbol == "array_is_empty"@ {
        Some(helpers.array_is_empty)
    } else if symbol == "array_get"@ {
        Some(helpers.array_get)
    } else if symbol == "array_set"@ {
        Some(helpers.array_set)
    } else if symbol == "array_push"@ {
        Some(helpers.array_push)
    } else if symbol == "array_clear"@ {
        Some(helpers.array_clear)
    } else if symbol == "array_free"@ {
        Some(helpers.array_free)
    } else if symbol == "string_byte_at"@ {
        Some(helpers.string_byte_at)
    } else if symbol == "string_compare"@ {
        Some(helpers.string_compare)
    } else if symbol == "string_contains"@ {
        Some(helpers.string_contains)
    } else if symbol == "string_starts_with"@ {
        Some(helpers.string_starts_with)
    } else if symbol == "string_ends_with"@ {
        Some(helpers.string_ends_with)
    } else if symbol == "string_eq"@ {
        Some(helpers.string_eq)
    } else if symbol == "string_not_eq"@ {
        Some(helpers.string_not_eq)
    } else if symbol == "string_less"@ {
        Some(helpers.string_less)
    } else if symbol == "string_less_or_equal"@ {
        Some(helpers.string_less_or_equal)
    } else if symbol == "string_greater"@ {
        Some(helpers.string_greater)
    } else if symbol == "string_greater_or_equal"@ {
        Some(helpers.string_greater_or_equal)
    } else if symbol == "string_is_empty"@ {
        Some(helpers.string_is_empty)
    } else if symbol == "string_is_ascii"@ {
        Some(helpers.string_is_ascii)
    } else if symbol == "string_is_ascii_digit"@ {
        Some(helpers.string_is_ascii_digit)
    } else if symbol == "string_is_ascii_hex_digit"@ {
        Some(helpers.string_is_ascii_hex_digit)
    } else if symbol == "string_is_ascii_alpha"@ {
        Some(helpers.string_is_ascii_alpha)
    } else if symbol == "string_is_ascii_lower"@ {
        Some(helpers.string_is_ascii_lower)
    } else if symbol == "string_is_ascii_upper"@ {
        Some(helpers.string_is_ascii_upper)
    } else if symbol == "string_is_ascii_alnum"@ {
        Some(helpers.string_is_ascii_alnum)
    } else if symbol == "string_is_ascii_identifier"@ {
        Some(helpers.string_is_ascii_identifier)
    } else if symbol == "string_is_ascii_whitespace"@ {
        Some(helpers.string_is_ascii_whitespace)
    } else if symbol == "string_find_byte"@ {
        Some(helpers.string_find_byte)
    } else if symbol == "string_last_find_byte"@ {
        Some(helpers.string_last_find_byte)
    } else if symbol == "string_index_of"@ {
        Some(helpers.string_index_of)
    } else if symbol == "string_last_index_of"@ {
        Some(helpers.string_last_index_of)
    } else if symbol == "string_count"@ {
        Some(helpers.string_count)
    } else if symbol == "string_parse_int"@ {
        Some(helpers.string_parse_int)
    } else if symbol == "alloc"@ || symbol == "alloc_zeroed"@ || symbol == "alloc_array"@ {
        Some(helpers.alloc)
    } else if symbol == "exit_geo"@ {
        Some(helpers.exit_process)
    } else if symbol == "read_file"@ {
        Some(helpers.read_file)
    } else if symbol == "read_file_or"@ {
        Some(helpers.read_file_or)
    } else if symbol == "write_file"@ {
        Some(helpers.write_file)
    } else if symbol == "append_file"@ {
        Some(helpers.append_file)
    } else if symbol == "touch_file"@ {
        Some(helpers.touch_file)
    } else if symbol == "remove_file"@ {
        Some(helpers.remove_file)
    } else if symbol == "file_open"@ {
        Some(helpers.file_open)
    } else if symbol == "file_open_write"@ {
        Some(helpers.file_open_write)
    } else if symbol == "file_open_append"@ {
        Some(helpers.file_open_append)
    } else if symbol == "file_write"@ {
        Some(helpers.file_write)
    } else if symbol == "file_close"@ {
        Some(helpers.file_close)
    } else if symbol == "file_read_to_string"@ {
        Some(helpers.file_read_to_string)
    } else if symbol == "file_read"@ {
        Some(helpers.file_read_to_string)
    } else if symbol == "file_exists"@ {
        Some(helpers.file_exists)
    } else if symbol == "file_is_file"@ {
        Some(helpers.file_is_file)
    } else if symbol == "file_is_dir"@ {
        Some(helpers.file_is_dir)
    } else if symbol == "file_is_empty"@ {
        Some(helpers.file_is_empty)
    } else if symbol == "file_size"@ {
        Some(helpers.file_size)
    } else if symbol == "read_line"@ {
        Some(helpers.read_line)
    } else if symbol == "mem_copy"@ {
        Some(helpers.mem_copy)
    } else if symbol == "mem_zero"@ {
        Some(helpers.mem_zero)
    } else if symbol == "mem_move"@ {
        Some(helpers.mem_move)
    } else if symbol == "mem_fill"@ {
        Some(helpers.mem_fill)
    } else if symbol == "mem_find"@ {
        Some(helpers.mem_find)
    } else if symbol == "mem_compare"@ {
        Some(helpers.mem_compare)
    } else if symbol == "mem_equal"@ {
        Some(helpers.mem_equal)
    } else if symbol == "mem_is_zero"@ {
        Some(helpers.mem_is_zero)
    } else if symbol == "mem_reverse"@ {
        Some(helpers.mem_reverse)
    } else if symbol == "string_from_byte"@ {
        Some(helpers.string_from_byte)
    } else if symbol == "string_clone"@ {
        Some(helpers.string_clone)
    } else if symbol == "string_slice"@ {
        Some(helpers.string_slice)
    } else if symbol == "alloc_copy"@ {
        Some(helpers.alloc_copy)
    } else {
        None
    }
}

/// The helper slot that `symbol` names, where it names one.
fn find_helper_slot(helpers: &PeHelperRvas, symbol: &str) -> (r: Option<Option<u32>>)
    ensures
        r == helper_slot(*helpers, symbol@),
{
    if str_eq(symbol, "__geo_bounds_check") {
        return Some(helpers.bounds_check);
    }
    if str_eq(symbol, "print") {
        return Some(helpers.print);
    }
    if str_eq(symbol, "println") {
        return Some(helpers.println);
    }
    if str_eq(symbol, "string_concat") {
        return Some(helpers.string_concat);
    }
    if str_eq(symbol, "string_len") {
        return Some(helpers.string_len);
    }
    if str_eq(symbol, "string_utf8_len") {
        return Some(helpers.string_utf8_len);
    }
    if str_eq(symbol, "string_utf8_codepoint_at") {
        return Some(helpers.string_utf8_codepoint_at);
    }
    if str_eq(symbol, "string_is_utf8") {
        return Some(helpers.string_is_utf8);
    }
    if str_eq(symbol, "string_utf8_is_valid") {
        return Some(helpers.string_utf8_is_valid);
    }
    if str_eq(symbol, "string_utf8_byte_offset") {
        return Some(helpers.string_utf8_byte_offset);
    }
    if str_eq(symbol, "string_utf8_next_offset") {
        return Some(helpers.string_utf8_next_offset);
    }
    if str_eq(symbol, "string_utf8_prev_offset") {
        return Some(helpers.string_utf8_prev_offset);
    }
    if str_eq(symbol, "string_utf8_index_at") {
        return Some(helpers.string_utf8_index_at);
    }
    if str_eq(symbol, "string_utf8_is_boundary") {
        return Some(helpers.string_utf8_is_boundary);
    }
    if str_eq(symbol, "array_new") {
        return Some(helpers.array_new);
    }
    if str_eq(symbol, "array_clone") {
        return Some(helpers.array_clone);
    }
    if str_eq(symbol, "array_reserve") {
        return Some(helpers.array_reserve);
    }
    if str_eq(symbol, "array_first") {
        return Some(helpers.array_first);
    }
    if str_eq(symbol, "array_last") {
        return Some(helpers.array_last);
    }
    if str_eq(symbol, "array_fill") {
        return Some(helpers.array_fill);
    }
    if str_eq(symbol, "array_reverse") {
        return Some(helpers.array_reverse);
    }
    if str_eq(symbol, "array_index_of") {
        return Some(helpers.array_index_of);
    }
    if str_eq(symbol, "array_last_index_of") {
        return Some(helpers.array_last_index_of);
    }
    if str_eq(symbol, "array_contains") {
        return Some(helpers.array_contains);
    }
    if str_eq(symbol, "array_count") {
        return Some(helpers.array_count);
    }
    if str_eq(symbol, "array_len") {
        return Some(helpers.array_len);
    }
    if str_eq(symbol, "array_capacity") {
        return Some(helpers.array_capacity);
    }
    if str_eq(symbol, "array_is_empty") {
        return Some(helpers.array_is_empty);
    }
    if str_eq(symbol, "array_get") {
        return Some(helpers.array_get);
    }
    if str_eq(symbol, "array_set") {
        return Some(helpers.array_set);
    }
    if str_eq(symbol, "array_push") {
        return Some(helpers.array_push);
    }
    if str_eq(symbol, "array_clear") {
        return Some(helpers.array_clear);
    }
    if str_eq(symbol, "array_free") {
        return Some(helpers.array_free);
    }
    if str_eq(symbol, "string_byte_at") {
        return Some(helpers.string_byte_at);
    }
    if str_eq(symbol, "string_compare") {
        return Some(helpers.string_compare);
    }
    if str_eq(symbol, "string_contains") {
        return Some(helpers.string_contains);
    }
    if str_eq(symbol, "string_starts_with") {
        return Some(helpers.string_starts_with);
    }
    if str_eq(symbol, "string_ends_with") {
        return Some(helpers.string_ends_with);
    }
    if str_eq(symbol, "string_eq") {
        return Some(helpers.string_eq);
    }
    if str_eq(symbol, "string_not_eq") {
        return Some(helpers.string_not_eq);
    }
    if str_eq(symbol, "string_less") {
        return Some(helpers.string_less);
    }
    if str_eq(symbol, "string_less_or_equal") {
        return Some(helpers.string_less_or_equal);
    }
    if str_eq(symbol, "string_greater") {
        return Some(helpers.string_greater);
    }
    if str_eq(symbol, "string_greater_or_equal") {
        return Some(helpers.string_greater_or_equal);
    }
    if str_eq(symbol, "string_is_empty") {
        return Some(helpers.string_is_empty);
    }
    if str_eq(symbol, "string_is_ascii") {
        return Some(helpers.string_is_ascii);
    }
    if str_eq(symbol, "string_is_ascii_digit") {
        return Some(helpers.string_is_ascii_digit);
    }
    if str_eq(symbol, "string_is_ascii_hex_digit") {
        return Some(helpers.string_is_ascii_hex_digit);
    }
    if str_eq(symbol, "string_is_ascii_alpha") {
        return Some(helpers.string_is_ascii_alpha);
    }
    if str_eq(symbol, "string_is_ascii_lower") {
        return Some(helpers.string_is_ascii_lower);
    }
    if str_eq(symbol, "string_is_ascii_upper") {
        return Some(helpers.string_is_ascii_upper);
    }
    if str_eq(symbol, "string_is_ascii_alnum") {
        return Some(helpers.string_is_ascii_alnum);
    }
    if str_eq(symbol, "string_is_ascii_identifier") {
        return Some(helpers.string_is_ascii_identifier);
    }
    if str_eq(symbol, "string_is_ascii_whitespace") {
        return Some(helpers.string_is_ascii_whitespace);
    }
    if str_eq(symbol, "string_find_byte") {
        return Some(helpers.string_find_byte);
    }
    if str_eq(symbol, "string_last_find_byte") {
        return Some(helpers.string_last_find_byte);
    }
    if str_eq(symbol, "string_index_of") {
        return Some(helpers.string_index_of);
    }
    if str_eq(symbol, "string_last_index_of") {
        return Some(helpers.string_last_index_of);
    }
    if str_eq(symbol, "string_count") {
        return Some(helpers.string_count);
    }
    if str_eq(symbol, "string_parse_int") {
        return Some(helpers.string_parse_int);
    }
    if str_eq(symbol, "alloc") || str_eq(symbol, "alloc_zeroed") || str_eq(symbol, "alloc_array") {
        return Some(helpers.alloc);
    }
    if str_eq(symbol, "exit_geo") {
        return Some(helpers.exit_process);
    }
    if str_eq(symbol, "read_file") {
        return Some(helpers.read_file);
    }
    if str_eq(symbol, "read_file_or") {
        return Some(helpers.read_file_or);
    }
    if str_eq(symbol, "write_file") {
        return Some(helpers.write_file);
    }
    if str_eq(symbol, "append_file") {
        return Some(helpers.append_file);
    }
    if str_eq(symbol, "touch_file") {
        return Some(helpers.touch_file);
    }
    if str_eq(symbol, "remove_file") {
        return Some(helpers.remove_file);
    }
    if str_eq(symbol, "file_open") {
        return Some(helpers.file_open);
    }
    if str_eq(symbol, "file_open_write") {
        return Some(helpers.file_open_write);
    }
    if str_eq(symbol, "file_open_append") {
        return Some(helpers.file_open_append);
    }
    if str_eq(symbol, "file_write") {
        return Some(helpers.file_write);
    }
    if str_eq(symbol, "file_close") {
        return Some(helpers.file_close);
    }
    if str_eq(symbol, "file_read_to_string") {
        return Some(helpers.file_read_to_string);
    }
    if str_eq(symbol, "file_read") {
        return Some(helpers.file_read_to_string);
    }
    if str_eq(symbol, "file_exists") {
        return Some(helpers.file_exists);
    }
    if str_eq(symbol, "file_is_file") {
        return Some(helpers.file_is_file);
    }
    if str_eq(symbol, "file_is_dir") {
        return Some(helpers.file_is_dir);
    }
    if str_eq(symbol, "file_is_empty") {
        return Some(helpers.file_is_empty);
    }
    if str_eq(symbol, "file_size") {
        return Some(helpers.file_size);
    }
    if str_eq(symbol, "read_line") {
        return Some(helpers.read_line);
    }
    if str_eq(symbol, "mem_copy") {
        return Some(helpers.mem_copy);
    }
    if str_eq(symbol, "mem_zero") {
        return Some(helpers.mem_zero);
    }
    if str_eq(symbol, "mem_move") {
        return Some(helpers.mem_move);
    }
    if str_eq(symbol, "mem_fill") {
        return Some(helpers.mem_fill);
    }
    if str_eq(symbol, "mem_find") {
        return Some(helpers.mem_find);
    }
    if str_eq(symbol, "mem_compare") {
        return Some(helpers.mem_compare);
    }
    if str_eq(symbol, "mem_equal") {
        return Some(helpers.mem_equal);
    }
    if str_eq(symbol, "mem_is_zero") {
        return Some(helpers.mem_is_zero);
    }
    if str_eq(symbol, "mem_reverse") {
        return Some(helpers.mem_reverse);
    }
    if str_eq(symbol, "string_from_byte") {
        return Some(helpers.string_from_byte);
    }
    if str_eq(symbol, "string_clone") {
        return Some(helpers.string_clone);
    }
    if str_eq(symbol, "string_slice") {
        return Some(helpers.string_slice);
    }
    if str_eq(symbol, "alloc_copy") {
        return Some(helpers.alloc_copy);
    }
    None
}

/// Where a relocation to `symbol` reaches in a compiled image: the helper that the symbol
/// names, where it names one; else the first function of that name, which lies
/// `function_base` into the text; else the first data of that name.
pub open spec fn symbol_rva(layout: Layout, image: ObjectImage, function_base: int, helpers: PeHelperRvas, symbol: Seq<char>) -> Option<u32> {
    match helper_slot(helpers, symbol) {
        Some(slot) => slot,
        None => match first_offset(image.functions@, symbol) {
            Some(offset) => Some((layout.text_rva + function_base + offset) as u32),
            None => match first_offset(image.data_symbols@, symbol) {
                Some(offset) => Some((layout.rdata_rva + offset) as u32),
                None => None,
            },
        },
    }
}

/// Where a relocation to `symbol` reaches in a compiled image.
pub fn compiled_symbol_rva(
    layout: &Layout,
    image: &ObjectImage,
    function_base: u32,
    helpers: &PeHelperRvas,
    symbol: &str,
) -> (r: Option<u32>)
    requires
        image_wf(*image),
        layout.text_rva < 0x1000_0000,
        layout.rdata_rva < 0x1000_0000,
        function_base < 0x1000_0000,
    ensures
        r == symbol_rva(*layout, *image, function_base as int, *helpers, symbol@),
        helper_slot(*helpers, symbol@) is None ==> (r matches Some(rva) ==> rva < 0x3000_0000),
{
    if let Some(slot) = find_helper_slot(helpers, symbol) {
        return slot;
    }
    if let Some(offset) = find_function(&image.functions, symbol) {
        proof {
            lemma_first_offset_found(image.functions@, symbol@);
            let k = choose|k: int| 0 <= k < image.functions@.len() && #[trigger] image.functions@[k].offset == offset;
            assert(image.functions@[k].offset <= image.text@.len());
        }
        return Some(layout.text_rva + function_base + offset as u32);
    }
    if let Some(offset) = find_function(&image.data_symbols, symbol) {
        proof {
            lemma_first_offset_found(image.data_symbols@, symbol@);
            let k = choose|k: int| 0 <= k < image.data_symbols@.len() && #[trigger] image.data_symbols@[k].offset == offset;
            assert(image.data_symbols@[k].offset <= image.rodata@.len());
        }
        return Some(layout.rdata_rva + offset as u32);
    }
    None
}

/// The read-only data of a compiled image: the image's own, then a newline and a terminator
/// where console helpers print lines, padded to the file alignment.
pub open spec fn compiled_rdata(rodata: Seq<u8>, needs_console_helpers: bool) -> Seq<u8> {
    padded(rodata + (if needs_console_helpers { seq![0x0au8, 0u8] } else { Seq::empty() }), FILE_ALIGNMENT as int)
}

/// Builds the read-only data of a compiled image.
pub fn build_compiled_rdata(image: &ObjectImage, needs_console_helpers: bool) -> (data: Vec<u8>)
    requires
        image.rodata@.len() <= 0x1000_0000,
    ensures
        data@ == compiled_rdata(image.rodata@, needs_console_helpers),
{
    let mut data: Vec<u8> = image.rodata.clone();
    let ghost start = data@;
    if needs_console_helpers {
        data.push(0x0a);
        data.push(0);
    }
    assert(data@ =~= image.rodata@ + (if needs_console_helpers { seq![0x0au8, 0u8] } else { Seq::empty() }));
    pad_to(&mut data, FILE_ALIGNMENT as usize);
    data
}


/// The four bytes of a compiled relocation field: the 32-bit distance from `next`, the end
/// of the field, to `target`.
pub open spec fn compiled_field(target: int, next: int) -> Seq<u8> {
    le32((target - next) % 0x1_0000_0000)
}

/// The code with the relocation fields of the text, which starts `function_base` into the
/// code, filled in one after the other, each with the distance to where its symbol lies.
pub open spec fn compiled_relocated(
    code: Seq<u8>,
    relocations: Seq<ObjectRelocation>,
    layout: Layout,
    image: ObjectImage,
    function_base: int,
    helpers: PeHelperRvas,
) -> Seq<u8>
    decreases relocations.len(),
{
    if relocations.len() == 0 {
        code
    } else {
        let last = relocations.last();
        let at = function_base + last.offset;
        splice(
            compiled_relocated(code, relocations.drop_last(), layout, image, function_base, helpers),
            at,
            compiled_field(symbol_rva(layout, image, function_base, helpers, last.symbol@)->0 as int, layout.text_rva + at + 4),
        )
    }
}

proof fn lemma_compiled_relocated_len(
    code: Seq<u8>,
    relocations: Seq<ObjectRelocation>,
    layout: Layout,
    image: ObjectImage,
    function_base: int,
    helpers: PeHelperRvas,
)
    requires
        0 <= function_base,
        forall|k: int| 0 <= k < relocations.len() ==> function_base + #[trigger] relocations[k].offset + 4 <= code.len(),
    ensures
        compiled_relocated(code, relocations, layout, image, function_base, helpers).len() == code.len(),
    decreases relocations.len(),
{
    if relocations.len() > 0 {
        assert forall|k: int| 0 <= k < relocations.drop_last().len() implies function_base + #[trigger] relocations.drop_last()[k].offset + 4 <= code.len() by {
            assert(relocations.drop_last()[k] == relocations[k]);
        }
        lemma_compiled_relocated_len(code, relocations.drop_last(), layout, image, function_base, helpers);
        assert(relocations[relocations.len() - 1].offset + function_base + 4 <= code.len());
    }
}

/// Fills in every relocation field of the text, which starts `function_base` into `code`,
/// with the distance to where its symbol lies. `None` at the first relocation whose symbol
/// lies nowhere.
pub fn patch_compiled_relocations(
    code: &mut Vec<u8>,
    layout: &Layout,
    image: &ObjectImage,
    function_base: u32,
    helpers: &PeHelperRvas,
) -> (r: Option<()>)
    requires
        image_wf(*image),
        layout.text_rva < 0x1000_0000,
        layout.rdata_rva < 0x1000_0000,
        function_base < 0x1000_0000,
        function_base + image.text@.len() <= old(code)@.len() < 0x4000_0000,
    ensures
        r is Some <==> forall|k: int| 0 <= k < image.relocations@.len() ==> #[trigger] symbol_rva(
            *layout,
            *image,
            function_base as int,
            *helpers,
            image.relocations@[k].symbol@,
        ) is Some,
        r is Some ==> final(code)@ == compiled_relocated(
            old(code)@,
            image.relocations@,
            *layout,
            *image,
            function_base as int,
            *helpers,
        ),
        final(code)@.len() == old(code)@.len(),
        r is None ==> exists|n: int| {
            &&& 0 <= n < image.relocations@.len()
            &&& #[trigger] symbol_rva(*layout, *image, function_base as int, *helpers, image.relocations@[n].symbol@) is None
            &&& forall|k: int| 0 <= k < n ==> #[trigger] symbol_rva(
                *layout,
                *image,
                function_base as int,
                *helpers,
                image.relocations@[k].symbol@,
            ) is Some
            &&& final(code)@ == compiled_relocated(
                old(code)@,
                image.relocations@.subrange(0, n),
                *layout,
                *image,
                function_base as int,
                *helpers,
            )
        },
{
    let mut i: usize = 0;
    assert(old(code)@ == compiled_relocated(old(code)@, image.relocations@.subrange(0, 0), *layout, *image, function_base as int, *helpers));
    while i < image.relocations.len()
        invariant
            image_wf(*image),
            layout.text_rva < 0x1000_0000,
            layout.rdata_rva < 0x1000_0000,
            function_base < 0x1000_0000,
            function_base + image.text@.len() <= old(code)@.len() < 0x4000_0000,
            i <= image.relocations@.len(),
            forall|k: int| 0 <= k < i ==> #[trigger] symbol_rva(*layout, *image, function_base as int, *helpers, image.relocations@[k].symbol@) is Some,
            code@ == compiled_relocated(old(code)@, image.relocations@.subrange(0, i as int), *layout, *image, function_base as int, *helpers),
            code@.len() == old(code)@.len(),
        decreases image.relocations@.len() - i,
    {
        let relocation = &image.relocations[i];
        let relocation_offset: u32 = function_base + relocation.offset as u32;
        let target_rva: u32 = match compiled_symbol_rva(layout, image, function_base, helpers, relocation.symbol.as_str()) {
            Some(rva) => rva,
            None => {
                assert(symbol_rva(*layout, *image, function_base as int, *helpers, image.relocations@[i as int].symbol@) is None);
                return None;
            },
        };
        let next_rva: u32 = layout.text_rva + relocation_offset + 4;
        let bits: u32 = if target_rva >= next_rva { target_rva - next_rva } else { (0x1_0000_0000u64 - (next_rva - target_rva) as u64) as u32 };
        proof {
            let d = target_rva - next_rva;
            if d < 0 {
                assert((0x1_0000_0000 - (next_rva - target_rva)) == d % 0x1_0000_0000);
            }
            let prefix = image.relocations@.subrange(0, i as int);
            let next = image.relocations@.subrange(0, i + 1);
            assert(next.drop_last() =~= prefix);
            assert forall|k: int| 0 <= k < prefix.len() implies function_base + #[trigger] prefix[k].offset + 4 <= old(code)@.len() by {
                assert(prefix[k] == image.relocations@[k]);
            }
            lemma_compiled_relocated_len(old(code)@, prefix, *layout, *image, function_base as int, *helpers);
        }
        write_u32(code, relocation_offset as usize, bits);
        i += 1;
    }
    assert(image.relocations@.subrange(0, i as int) =~= image.relocations@);
    Some(())
}


/// Every relocation field of the linked code holds the 32-bit distance from the end of the
/// field to where its symbol lies, and every other byte is the code's own.
pub proof fn lemma_compiled_relocated(
    code: Seq<u8>,
    layout: Layout,
    image: ObjectImage,
    function_base: int,
    helpers: PeHelperRvas,
)
    requires
        image_wf(image),
        crate::elf::relocations_apart(image),
        0 <= function_base,
        function_base + image.text@.len() <= code.len(),
    ensures
        compiled_relocated(code, image.relocations@, layout, image, function_base, helpers).len() == code.len(),
        forall|k: int| 0 <= k < image.relocations@.len() ==> {
            let relocation = #[trigger] image.relocations@[k];
            let at = function_base + relocation.offset;
            compiled_relocated(code, image.relocations@, layout, image, function_base, helpers).subrange(at, at + 4)
                == compiled_field(symbol_rva(layout, image, function_base, helpers, relocation.symbol@)->0 as int, layout.text_rva + at + 4)
        },
        forall|j: int| 0 <= j < code.len() && crate::elf::outside_fields(image.relocations@, j - function_base)
            ==> #[trigger] compiled_relocated(code, image.relocations@, layout, image, function_base, helpers)[j] == code[j],
{
    lemma_fields(code, image.relocations@, layout, image, function_base, helpers);
}

proof fn lemma_fields(
    code: Seq<u8>,
    relocations: Seq<ObjectRelocation>,
    layout: Layout,
    image: ObjectImage,
    function_base: int,
    helpers: PeHelperRvas,
)
    requires
        0 <= function_base,
        crate::elf::fields_apart(code.subrange(function_base, code.len() as int), relocations),
        function_base <= code.len(),
    ensures
        compiled_relocated(code, relocations, layout, image, function_base, helpers).len() == code.len(),
        forall|k: int| 0 <= k < relocations.len() ==> {
            let relocation = #[trigger] relocations[k];
            let at = function_base + relocation.offset;
            compiled_relocated(code, relocations, layout, image, function_base, helpers).subrange(at, at + 4)
                == compiled_field(symbol_rva(layout, image, function_base, helpers, relocation.symbol@)->0 as int, layout.text_rva + at + 4)
        },
        forall|j: int| 0 <= j < code.len() && crate::elf::outside_fields(relocations, j - function_base)
            ==> #[trigger] compiled_relocated(code, relocations, layout, image, function_base, helpers)[j] == code[j],
    decreases relocations.len(),
{
    let rest = code.subrange(function_base, code.len() as int);
    assert forall|k: int| 0 <= k < relocations.len() implies function_base + #[trigger] relocations[k].offset + 4 <= code.len() by {
        assert(relocations[k].offset + 4 <= rest.len());
    }
    lemma_compiled_relocated_len(code, relocations, layout, image, function_base, helpers);
    if relocations.len() > 0 {
        let before = relocations.drop_last();
        let n = relocations.len() - 1;
        let last = relocations[n];
        assert(relocations.last() == last);
        assert(crate::elf::fields_apart(rest, before)) by {
            assert forall|k: int| 0 <= k < before.len() implies #[trigger] before[k].offset + 4 <= rest.len() by {
                assert(before[k] == relocations[k]);
            }
            assert forall|i: int, j: int| 0 <= i < j < before.len() implies {
                ||| before[i].offset + 4 <= before[j].offset
                ||| before[j].offset + 4 <= before[i].offset
            } by {
                assert(before[i] == relocations[i] && before[j] == relocations[j]);
            }
        }
        lemma_fields(code, before, layout, image, function_base, helpers);
        let r = compiled_relocated(code, before, layout, image, function_base, helpers);
        let at = function_base + last.offset;
        let field = compiled_field(symbol_rva(layout, image, function_base, helpers, last.symbol@)->0 as int, layout.text_rva + at + 4);
        assert(last.offset + 4 <= rest.len());
        lemma_splice_same_outside(r, at, field);
        let whole = compiled_relocated(code, relocations, layout, image, function_base, helpers);
        assert forall|k: int| 0 <= k < relocations.len() implies {
            let relocation = #[trigger] relocations[k];
            let at_k = function_base + relocation.offset;
            whole.subrange(at_k, at_k + 4)
                == compiled_field(symbol_rva(layout, image, function_base, helpers, relocation.symbol@)->0 as int, layout.text_rva + at_k + 4)
        } by {
            if k < n {
                assert(before[k] == relocations[k]);
                lemma_range_kept(whole, r, at, at + 4, function_base + relocations[k].offset, function_base + relocations[k].offset + 4);
            }
        }
        assert forall|j: int| 0 <= j < code.len() && crate::elf::outside_fields(relocations, j - function_base) implies #[trigger] whole[j] == code[j] by {
            assert(!(relocations[n].offset <= j - function_base < relocations[n].offset + 4));
            assert(crate::elf::outside_fields(before, j - function_base)) by {
                assert forall|k: int| 0 <= k < before.len() implies !(#[trigger] before[k].offset <= j - function_base < before[k].offset + 4) by {
                    assert(before[k] == relocations[k]);
                    assert(!(relocations[k].offset <= j - function_base < relocations[k].offset + 4));
                }
            }
        }
    }
}


/// Whether some relocation of the image reaches for `name`.
pub(crate) fn requests(image: &ObjectImage, name: &str) -> (r: bool)
    ensures
        r == requested(*image, name@),
{
    let mut k: usize = 0;
    while k < image.relocations.len()
        invariant
            k <= image.relocations@.len(),
            forall|j: int| 0 <= j < k ==> #[trigger] image.relocations@[j].symbol@ != name@,
        decreases image.relocations@.len() - k,
    {
        if str_eq(image.relocations[k].symbol.as_str(), name) {
            return true;
        }
        k += 1;
    }
    false
}

/// Whether a compiled image calls for the console: printing, reading lines or writing files.
pub open spec fn needs_console_helpers(image: ObjectImage) -> bool {
    requested(image, "print"@)
        || requested(image, "println"@)
        || requested(image, "read_line"@)
        || requested(image, "write_file"@)
        || requested(image, "append_file"@)
        || requested(image, "file_write"@)
}

/// Whether a compiled image allocates memory.
pub open spec fn needs_virtual_alloc(image: ObjectImage) -> bool {
    requested(image, "string_concat"@)
        || requested(image, "array_new"@)
        || requested(image, "array_clone"@)
        || requested(image, "array_reserve"@)
        || requested(image, "alloc"@)
        || requested(image, "alloc_zeroed"@)
        || requested(image, "alloc_array"@)
        || requested(image, "string_from_byte"@)
        || requested(image, "string_clone"@)
        || requested(image, "alloc_copy"@)
}

/// Whether a compiled image reads files or lines.
pub open spec fn needs_file_read(image: ObjectImage) -> bool {
    requested(image, "read_file"@)
        || requested(image, "read_file_or"@)
        || requested(image, "read_line"@)
        || requested(image, "write_file"@)
        || requested(image, "file_read"@)
        || requested(image, "file_read_to_string"@)
        || requested(image, "file_size"@)
        || requested(image, "file_is_empty"@)
}

/// Whether a compiled image opens, writes, closes, touches or removes files.
pub open spec fn needs_file_ops(image: ObjectImage) -> bool {
    requested(image, "append_file"@)
        || requested(image, "touch_file"@)
        || requested(image, "remove_file"@)
        || requested(image, "file_open"@)
        || requested(image, "file_open_write"@)
        || requested(image, "file_open_append"@)
        || requested(image, "file_write"@)
        || requested(image, "file_close"@)
}

/// Whether a compiled image asks about files: whether they exist, what they are, their size.
pub open spec fn needs_file_metadata(image: ObjectImage) -> bool {
    requested(image, "file_exists"@)
        || requested(image, "file_is_file"@)
        || requested(image, "file_is_dir"@)
        || requested(image, "file_is_empty"@)
        || requested(image, "file_size"@)
}

/// The layout of a compiled image: its read-only data, and the imports that the helpers it
/// calls for use. Also says whether it needs the console helpers.
pub fn compiled_layout(image: &ObjectImage) -> (r: (Layout, bool))
    requires
        image.rodata@.len() <= 0x1000_0000,
    ensures
        fixed_placement(r.0, image.rodata@.len() as int),
        r.0.has_console_io == needs_console_helpers(*image),
        r.0.has_virtual_alloc == (needs_virtual_alloc(*image) || needs_file_read(*image)),
        r.0.has_file_read == needs_file_read(*image),
        r.0.has_file_ops == needs_file_ops(*image),
        r.0.has_file_metadata == needs_file_metadata(*image),
        slots_follow_imports(r.0),
        slots_below(r.0, 0x4000),
        r.1 == needs_console_helpers(*image),
{
    let needs_read_line = requests(image, "read_line");
    let needs_console_helpers = requests(image, "print") || requests(image, "println") || needs_read_line
        || requests(image, "write_file") || requests(image, "append_file") || requests(image, "file_write");
    let needs_string_concat = requests(image, "string_concat");
    let needs_virtual_alloc = needs_string_concat
        || requests(image, "array_new")
        || requests(image, "array_clone")
        || requests(image, "array_reserve")
        || requests(image, "alloc")
        || requests(image, "alloc_zeroed")
        || requests(image, "alloc_array")
        || requests(image, "string_from_byte")
        || requests(image, "string_clone")
        || requests(image, "alloc_copy");
    let needs_file_read = requests(image, "read_file")
        || requests(image, "read_file_or")
        || requests(image, "read_line")
        || requests(image, "write_file")
        || requests(image, "file_read")
        || requests(image, "file_read_to_string")
        || requests(image, "file_size")
        || requests(image, "file_is_empty");
    let needs_file_ops = requests(image, "append_file")
        || requests(image, "touch_file")
        || requests(image, "remove_file")
        || requests(image, "file_open")
        || requests(image, "file_open_write")
        || requests(image, "file_open_append")
        || requests(image, "file_write")
        || requests(image, "file_close");
    let needs_file_metadata = requests(image, "file_exists")
        || requests(image, "file_is_file")
        || requests(image, "file_is_dir")
        || requests(image, "file_is_empty")
        || requests(image, "file_size");
    let layout = Layout::new(
        image.rodata.len() as u32,
        needs_console_helpers,
        needs_virtual_alloc || needs_file_read,
        needs_file_read,
        needs_file_ops,
        needs_file_metadata,
    );
    (layout, needs_console_helpers)
}

} // verus!
