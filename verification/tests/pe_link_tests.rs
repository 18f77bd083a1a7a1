use geo::elf::{ObjectImage, ObjectRelocation, ObjectSymbol};
use geo::pe::Layout;
use geo::pe_link::{build_compiled_rdata, compiled_layout, compiled_symbol_rva, patch_compiled_relocations, PeHelperRvas};

fn symbol(name: &str, offset: u64) -> ObjectSymbol {
    ObjectSymbol { name: name.to_string(), offset }
}

fn relocation(name: &str, offset: u64) -> ObjectRelocation {
    ObjectRelocation { symbol: name.to_string(), offset }
}

fn image(text: Vec<u8>, rodata: Vec<u8>, functions: Vec<ObjectSymbol>, data: Vec<ObjectSymbol>, relocations: Vec<ObjectRelocation>) -> ObjectImage {
    ObjectImage { text, rodata, functions, data_symbols: data, relocations }
}

fn layout() -> Layout {
    Layout::new(16, true, false, false, false, false)
}

#[test]
fn functions_lie_after_the_entry_stub_and_data_in_rdata() {
    let img = image(vec![0xc3; 8], vec![0; 16], vec![symbol("main", 0), symbol("helper", 5)], vec![symbol("greeting", 4)], vec![]);
    let helpers = PeHelperRvas::default();
    let l = layout();
    assert_eq!(compiled_symbol_rva(&l, &img, 32, &helpers, "helper"), Some(0x1000 + 32 + 5));
    assert_eq!(compiled_symbol_rva(&l, &img, 32, &helpers, "greeting"), Some(0x2000 + 4));
    assert_eq!(compiled_symbol_rva(&l, &img, 32, &helpers, "missing"), None);
}

#[test]
fn helper_names_go_to_their_helpers_before_functions() {
    let img = image(vec![0xc3; 8], vec![], vec![symbol("main", 0), symbol("print", 5)], vec![], vec![]);
    let mut helpers = PeHelperRvas::default();
    let l = layout();
    // A helper name that the image has no helper for reaches nowhere, even with a function of that name.
    assert_eq!(compiled_symbol_rva(&l, &img, 32, &helpers, "print"), None);
    helpers.print = Some(0x1100);
    helpers.alloc = Some(0x1200);
    helpers.file_read_to_string = Some(0x1300);
    assert_eq!(compiled_symbol_rva(&l, &img, 32, &helpers, "print"), Some(0x1100));
    assert_eq!(compiled_symbol_rva(&l, &img, 32, &helpers, "alloc_zeroed"), Some(0x1200));
    assert_eq!(compiled_symbol_rva(&l, &img, 32, &helpers, "alloc_array"), Some(0x1200));
    assert_eq!(compiled_symbol_rva(&l, &img, 32, &helpers, "file_read"), Some(0x1300));
}

#[test]
fn relocation_fields_hold_the_distance_to_their_target() {
    let text = vec![0xe8, 0, 0, 0, 0, 0xe8, 0, 0, 0, 0, 0xc3, 0xc3];
    let img = image(text.clone(), vec![], vec![symbol("main", 0), symbol("f", 11)], vec![], vec![relocation("f", 1), relocation("println", 6)]);
    let mut helpers = PeHelperRvas::default();
    helpers.println = Some(0x1000 + 0x40);
    let l = layout();
    let mut code = vec![0xcc; 32];
    code.extend_from_slice(&text);
    code.resize(0x60, 0xcc);
    assert_eq!(patch_compiled_relocations(&mut code, &l, &img, 32, &helpers), Some(()));
    // f at 0x1000 + 32 + 11; its field ends at 0x1000 + 32 + 5.
    assert_eq!(i32::from_le_bytes([code[33], code[34], code[35], code[36]]), 6);
    // println at 0x1040; its field ends at 0x1000 + 32 + 10.
    assert_eq!(i32::from_le_bytes([code[38], code[39], code[40], code[41]]), 0x40 - 42);
    assert_eq!(&code[0..32], &[0xcc; 32]);
    assert_eq!(code[32], 0xe8);
    assert_eq!(code[42], 0xc3);
}

#[test]
fn unresolved_relocation_is_refused() {
    let img = image(vec![0xe8, 0, 0, 0, 0, 0xc3], vec![], vec![symbol("main", 0)], vec![], vec![relocation("nowhere", 1)]);
    let helpers = PeHelperRvas::default();
    let mut code = vec![0; 64];
    assert_eq!(patch_compiled_relocations(&mut code, &layout(), &img, 32, &helpers), None);
}

#[test]
fn compiled_rdata_gets_a_newline_for_console_helpers() {
    let img = image(vec![], b"hi\0".to_vec(), vec![], vec![], vec![]);
    let with = build_compiled_rdata(&img, true);
    let without = build_compiled_rdata(&img, false);
    assert_eq!(with.len(), 0x200);
    assert_eq!(&with[0..5], b"hi\0\n\0");
    assert_eq!(without.len(), 0x200);
    assert_eq!(&without[0..4], b"hi\0\0");
    let empty = build_compiled_rdata(&image(vec![], vec![], vec![], vec![], vec![]), false);
    assert!(empty.is_empty());
}

#[test]
fn compiled_layout_imports_what_the_helpers_use() {
    let printing = image(vec![0xc3], vec![1, 2, 3], vec![symbol("main", 0)], vec![], vec![relocation("println", 0)]);
    let (l, console) = compiled_layout(&printing);
    assert!(console);
    assert!(l.has_console_io);
    assert!(!l.has_virtual_alloc && !l.has_file_read && !l.has_file_ops && !l.has_file_metadata);
    let reading = image(vec![0xc3], vec![], vec![symbol("main", 0)], vec![], vec![relocation("file_size", 0)]);
    let (l, console) = compiled_layout(&reading);
    assert!(!console);
    assert!(l.has_virtual_alloc && l.has_file_read && l.has_file_metadata && !l.has_file_ops);
    let allocating = image(vec![0xc3], vec![], vec![symbol("main", 0)], vec![], vec![relocation("string_concat", 0)]);
    let (l, _) = compiled_layout(&allocating);
    assert!(l.has_virtual_alloc && !l.has_file_read);
}

#[test]
fn overlapping_relocation_fields_are_filled_in_order() {
    let text = vec![0xc3; 12];
    let img = image(text.clone(), vec![], vec![symbol("main", 0), symbol("f", 8), symbol("g", 10)], vec![], vec![relocation("f", 1), relocation("g", 3)]);
    let helpers = PeHelperRvas::default();
    let l = layout();
    let mut code = vec![0xcc; 32];
    code.extend_from_slice(&text);
    code.resize(0x40, 0xcc);
    assert_eq!(patch_compiled_relocations(&mut code, &l, &img, 32, &helpers), Some(()));
    // f's field (33..37) is written first; g's field (35..39) overwrites its upper half.
    assert_eq!(&code[33..35], &[3, 0]);
    assert_eq!(i32::from_le_bytes([code[35], code[36], code[37], code[38]]), 3);
}
