use geo::elf::{
    build_runtime_text, emit_elf64_executable, find_symbol, ObjectImage, ObjectRelocation, ObjectSymbol,
    RuntimeText,
};

fn symbol(name: &str, offset: u64) -> ObjectSymbol {
    ObjectSymbol { name: name.to_string(), offset }
}

fn relocation(name: &str, offset: u64) -> ObjectRelocation {
    ObjectRelocation { symbol: name.to_string(), offset }
}

fn image(text: Vec<u8>, rodata: Vec<u8>, functions: Vec<ObjectSymbol>, data: Vec<ObjectSymbol>, relocations: Vec<ObjectRelocation>) -> ObjectImage {
    ObjectImage { text, rodata, functions, data_symbols: data, relocations }
}

fn le32(bytes: &[u8], at: usize) -> u32 {
    u32::from_le_bytes([bytes[at], bytes[at + 1], bytes[at + 2], bytes[at + 3]])
}

fn le64(bytes: &[u8], at: usize) -> u64 {
    let mut b = [0u8; 8];
    b.copy_from_slice(&bytes[at..at + 8]);
    u64::from_le_bytes(b)
}

fn address(runtime: &RuntimeText, name: &str) -> Option<u64> {
    find_symbol(&runtime.symbols, name)
}

#[test]
fn executable_has_elf_headers_and_entry_stub() {
    let img = image(vec![0x31, 0xc0, 0xc3], vec![], vec![symbol("main", 0)], vec![], vec![]);
    let bytes = emit_elf64_executable(&img).expect("a program with main links");
    assert_eq!(&bytes[0..4], &[0x7f, b'E', b'L', b'F']);
    assert_eq!(bytes[4], 2);
    assert_eq!(u16::from_le_bytes([bytes[16], bytes[17]]), 2);
    assert_eq!(u16::from_le_bytes([bytes[18], bytes[19]]), 0x3e);
    assert_eq!(le64(&bytes, 24), 0x401000);
    assert_eq!(le64(&bytes, 32), 64);
    assert_eq!(le32(&bytes, 64), 1);
    assert_eq!(le32(&bytes, 68), 5);
    assert_eq!(le64(&bytes, 80), 0x400000);
    assert_eq!(le64(&bytes, 96), bytes.len() as u64);
    assert_eq!(le64(&bytes, 112), 0x1000);
    assert_eq!(bytes.len(), 0x2000);
    assert_eq!(&bytes[0x1000..0x100e], &[0xe8, 9, 0, 0, 0, 0x89, 0xc7, 0xb8, 60, 0, 0, 0, 0x0f, 0x05]);
    assert_eq!(&bytes[0x100e..0x1011], &[0x31, 0xc0, 0xc3]);
    assert!(bytes[120..0x1000].iter().all(|b| *b == 0));
}

#[test]
fn entry_stub_calls_main_where_it_lies() {
    let img = image(vec![0xc3, 0x31, 0xc0, 0xc3], vec![], vec![symbol("helper", 0), symbol("main", 1)], vec![], vec![]);
    let bytes = emit_elf64_executable(&img).unwrap();
    assert_eq!(le32(&bytes, 0x1001), 10);
}

#[test]
fn image_without_main_is_refused() {
    let img = image(vec![0xc3], vec![], vec![symbol("start", 0)], vec![], vec![]);
    assert!(emit_elf64_executable(&img).is_none());
}

#[test]
fn unknown_symbol_is_refused() {
    let img = image(vec![0xe8, 0, 0, 0, 0, 0xc3], vec![], vec![symbol("main", 0)], vec![], vec![relocation("no_such_routine", 1)]);
    assert!(emit_elf64_executable(&img).is_none());
}

#[test]
fn runtime_call_is_resolved_to_the_routine_after_the_text() {
    let img = image(vec![0xe8, 0, 0, 0, 0, 0xc3], vec![], vec![symbol("main", 0)], vec![], vec![relocation("print", 1)]);
    let runtime = build_runtime_text(&img);
    assert_eq!(runtime.symbols.len(), 1);
    assert_eq!(address(&runtime, "print"), Some(0x401000 + 14 + 6));
    let bytes = emit_elf64_executable(&img).unwrap();
    // The field ends at 0x401013; the routine starts at 0x401014.
    assert_eq!(le32(&bytes, 0x100f), 1);
    assert_eq!(&bytes[0x1014..0x1014 + runtime.code.len()], runtime.code.as_slice());
}

#[test]
fn data_relocation_reaches_the_read_only_data_page() {
    let img = image(
        vec![0x48, 0x8d, 0x05, 0, 0, 0, 0, 0xc3],
        b"hi\0".to_vec(),
        vec![symbol("main", 0)],
        vec![symbol("greeting", 0)],
        vec![relocation("greeting", 3)],
    );
    let bytes = emit_elf64_executable(&img).unwrap();
    assert_eq!(bytes.len(), 0x2003);
    assert_eq!(&bytes[0x2000..], b"hi\0");
    // Field at 0x401011, ends at 0x401015; data at 0x402000.
    assert_eq!(le32(&bytes, 0x1011), 0x402000 - 0x401015);
}

#[test]
fn backward_call_holds_a_negative_displacement() {
    let img = image(
        vec![0xc3, 0xe8, 0, 0, 0, 0, 0xc3],
        vec![],
        vec![symbol("helper", 0), symbol("main", 1)],
        vec![],
        vec![relocation("helper", 2)],
    );
    let bytes = emit_elf64_executable(&img).unwrap();
    // helper at 0x40100e, field ends at 0x401014.
    assert_eq!(le32(&bytes, 0x1010) as i32, -6);
}

#[test]
fn each_runtime_routine_comes_in_once() {
    let img = image(
        vec![0xe8, 0, 0, 0, 0, 0xe8, 0, 0, 0, 0, 0xc3],
        vec![],
        vec![symbol("main", 0)],
        vec![],
        vec![relocation("println", 1), relocation("println", 6)],
    );
    let runtime = build_runtime_text(&img);
    assert_eq!(runtime.symbols.len(), 1);
    let bytes = emit_elf64_executable(&img).unwrap();
    let target = 0x401000 + 14 + 11;
    assert_eq!(le32(&bytes, 0x100f) as i64, target - (0x40100f + 4));
    assert_eq!(le32(&bytes, 0x1014) as i64, target - (0x401014 + 4));
}

#[test]
fn read_file_or_brings_read_file_ahead_of_it() {
    let img = image(vec![0xe8, 0, 0, 0, 0, 0xc3], vec![], vec![symbol("main", 0)], vec![], vec![relocation("read_file_or", 1)]);
    let runtime = build_runtime_text(&img);
    assert_eq!(runtime.symbols.len(), 2);
    assert_eq!(runtime.symbols[0].name, "read_file");
    assert_eq!(runtime.symbols[1].name, "read_file_or");
    let base = 0x401000 + 14 + 6;
    assert_eq!(address(&runtime, "read_file"), Some(base));
    let wrapper = address(&runtime, "read_file_or").unwrap();
    assert!(wrapper > base);
    // The wrapper calls read_file: its call sits 9 bytes in.
    let at = (wrapper - base) as usize;
    assert_eq!(runtime.code[at + 9], 0xe8);
    let rel = i32::from_le_bytes([runtime.code[at + 10], runtime.code[at + 11], runtime.code[at + 12], runtime.code[at + 13]]);
    assert_eq!(at as i64 + 14 + rel as i64, 0);
}

#[test]
fn read_file_or_reuses_an_earlier_read_file() {
    let img = image(
        vec![0xe8, 0, 0, 0, 0, 0xe8, 0, 0, 0, 0, 0xc3],
        vec![],
        vec![symbol("main", 0)],
        vec![],
        vec![relocation("read_file", 1), relocation("read_file_or", 6)],
    );
    let runtime = build_runtime_text(&img);
    assert_eq!(runtime.symbols.len(), 2);
    assert_eq!(runtime.symbols[0].name, "read_file");
    assert_eq!(runtime.symbols[1].name, "read_file_or");
}

#[test]
fn find_codepoint_brings_the_decoder_ahead_of_it() {
    let img = image(vec![0xe8, 0, 0, 0, 0, 0xc3], vec![], vec![symbol("main", 0)], vec![], vec![relocation("string_utf8_find_codepoint", 1)]);
    let runtime = build_runtime_text(&img);
    assert_eq!(runtime.symbols.len(), 2);
    assert_eq!(runtime.symbols[0].name, "string_utf8_codepoint_at");
    assert_eq!(runtime.symbols[1].name, "string_utf8_find_codepoint");
}

#[test]
fn image_functions_shadow_runtime_routines() {
    let img = image(
        vec![0xe8, 0, 0, 0, 0, 0xc3, 0xc3],
        vec![],
        vec![symbol("main", 0), symbol("print", 6)],
        vec![],
        vec![relocation("print", 1)],
    );
    let runtime = build_runtime_text(&img);
    assert!(runtime.symbols.is_empty());
    assert!(runtime.code.is_empty());
    let bytes = emit_elf64_executable(&img).unwrap();
    // print at 0x401014, field ends at 0x401013.
    assert_eq!(le32(&bytes, 0x100f), 1);
}

#[test]
fn alias_names_share_a_routine() {
    let a = image(vec![0xe8, 0, 0, 0, 0, 0xc3], vec![], vec![symbol("main", 0)], vec![], vec![relocation("alloc", 1)]);
    let b = image(vec![0xe8, 0, 0, 0, 0, 0xc3], vec![], vec![symbol("main", 0)], vec![], vec![relocation("alloc_zeroed", 1)]);
    assert_eq!(build_runtime_text(&a).code, build_runtime_text(&b).code);
    assert!(!build_runtime_text(&a).code.is_empty());
}

fn names(runtime: &RuntimeText) -> Vec<String> {
    runtime.symbols.iter().map(|s| s.name.clone()).collect()
}

fn calls(names: &[&str]) -> ObjectImage {
    let mut text = Vec::new();
    let mut relocations = Vec::new();
    for name in names {
        relocations.push(relocation(name, text.len() as u64 + 1));
        text.extend_from_slice(&[0xe8, 0, 0, 0, 0]);
    }
    text.push(0xc3);
    image(text, vec![], vec![symbol("main", 0)], vec![], relocations)
}

#[test]
fn char_at_brings_the_slicing_routines_in_order() {
    let runtime = build_runtime_text(&calls(&["string_utf8_char_at"]));
    assert_eq!(
        names(&runtime),
        vec!["string_utf8_byte_offset", "string_len", "string_slice", "string_utf8_slice", "string_utf8_char_at"]
    );
    let char_at = address(&runtime, "string_utf8_char_at").unwrap();
    let slice = address(&runtime, "string_utf8_slice").unwrap();
    let base = 0x401000 + 14 + 6;
    let at = (char_at - base) as usize;
    assert_eq!(&runtime.code[at..at + 7], &[0x48, 0x89, 0xf2, 0x48, 0xff, 0xc2, 0xe8]);
    let rel = i32::from_le_bytes([runtime.code[at + 7], runtime.code[at + 8], runtime.code[at + 9], runtime.code[at + 10]]);
    assert_eq!(char_at as i64 + 11 + rel as i64, slice as i64);
    assert_eq!(runtime.code.len(), at + 12);
}

#[test]
fn slice_reuses_routines_already_there() {
    let runtime = build_runtime_text(&calls(&["string_len", "string_utf8_slice", "string_utf8_char_at"]));
    assert_eq!(
        names(&runtime),
        vec!["string_len", "string_utf8_byte_offset", "string_slice", "string_utf8_slice", "string_utf8_char_at"]
    );
}

#[test]
fn both_validation_names_share_a_routine() {
    let a = build_runtime_text(&calls(&["string_is_utf8"]));
    let b = build_runtime_text(&calls(&["string_utf8_is_valid"]));
    assert_eq!(a.code, b.code);
    assert_eq!(&a.code[0..3], &[0x48, 0x85, 0xff]);
    assert_eq!(*a.code.last().unwrap(), 0xc3);
}

#[test]
fn navigation_routines_differ_by_what_they_return() {
    let offset = build_runtime_text(&calls(&["string_utf8_byte_offset"])).code;
    let next = build_runtime_text(&calls(&["string_utf8_next_offset"])).code;
    let boundary = build_runtime_text(&calls(&["string_utf8_is_boundary"])).code;
    assert_ne!(offset, next);
    assert_ne!(next, boundary);
    // The boundary test fails with 0, the others with -1.
    assert!(boundary.windows(5).any(|w| w == [0x31, 0xc0, 0x41, 0x5c, 0xc3]));
    assert!(next.windows(7).any(|w| w == [0x48, 0xc7, 0xc0, 0xff, 0xff, 0xff, 0xff]));
}

#[test]
fn every_runtime_call_of_a_program_links() {
    let img = calls(&["print", "string_utf8_char_at", "read_file_or", "string_utf8_find_codepoint", "array_push", "file_size"]);
    let bytes = emit_elf64_executable(&img).unwrap();
    let runtime = build_runtime_text(&img);
    assert_eq!(runtime.symbols.len(), 12);
    for k in 0..img.relocations.len() {
        let field = 0x1000 + 14 + img.relocations[k].offset as usize;
        let target = address(&runtime, &img.relocations[k].symbol).unwrap() as i64;
        let rel = le32(&bytes, field) as i32 as i64;
        assert_eq!(0x400000 + field as i64 + 4 + rel, target);
    }
}
