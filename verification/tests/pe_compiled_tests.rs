use geo::elf::{ObjectImage, ObjectRelocation, ObjectSymbol};
use geo::ir::{Instruction, IrFunction, IrProgram, ValueId};
use geo::pe_compiled::{build_compiled_text, emit_compiled_pe64_console, emit_pe64_console_with_code};
use geo::pe_link::compiled_layout;

fn symbol(name: &str, offset: u64) -> ObjectSymbol {
    ObjectSymbol { name: name.to_string(), offset }
}

fn relocation(name: &str, offset: u64) -> ObjectRelocation {
    ObjectRelocation { symbol: name.to_string(), offset }
}

fn image(text: Vec<u8>, functions: Vec<ObjectSymbol>, relocations: Vec<ObjectRelocation>) -> ObjectImage {
    ObjectImage { text, rodata: Vec::new(), functions, data_symbols: Vec::new(), relocations }
}

fn le32(bytes: &[u8], at: usize) -> i32 {
    i32::from_le_bytes([bytes[at], bytes[at + 1], bytes[at + 2], bytes[at + 3]])
}

#[test]
fn the_entry_stub_calls_main_and_exits_with_its_result() {
    let img = image(vec![0x31, 0xc0, 0xc3], vec![symbol("main", 0)], Vec::new());
    let (layout, _) = compiled_layout(&img);
    let text = build_compiled_text(&layout, &img).unwrap();
    assert_eq!(text.len(), 0x200);
    assert_eq!(&text[0..5], &[0x48, 0x83, 0xec, 0x28, 0xe8]);
    // main lies 32 bytes into the text; the call ends 9 bytes in.
    assert_eq!(le32(&text, 5), 32 - 9);
    assert_eq!(&text[9..13], &[0x89, 0xc1, 0xff, 0x15]);
    assert_eq!(le32(&text, 13) as i64, layout.exit_process_iat as i64 - (0x1000 + 17));
    assert!(text[17..32].iter().all(|&b| b == 0xcc));
    assert_eq!(&text[32..35], &[0x31, 0xc0, 0xc3]);
    // No helper is called for, so the text is padded with zeros right after the code.
    assert!(text[35..].iter().all(|&b| b == 0));
}

#[test]
fn helpers_follow_the_text_at_a_sixteen_byte_boundary() {
    let code = vec![0xe8, 0, 0, 0, 0, 0xc3, 0xc3, 0xc3];
    let img = image(code, vec![symbol("main", 0)], vec![relocation("string_len", 1)]);
    let (layout, _) = compiled_layout(&img);
    let text = build_compiled_text(&layout, &img).unwrap();
    assert!(text[40..48].iter().all(|&b| b == 0xcc));
    assert_eq!(&text[48..63], &[0x48, 0x31, 0xc0, 0x80, 0x3c, 0x01, 0x00, 0x74, 0x05, 0x48, 0xff, 0xc0, 0xeb, 0xf5, 0xc3]);
    // The call's field ends at 32 + 5; string_len lies at 48.
    assert_eq!(le32(&text, 33), 48 - 37);
}

#[test]
fn println_calls_the_print_helper_laid_out_before_it() {
    let code = vec![0xe8, 0, 0, 0, 0, 0xc3];
    let img = image(code, vec![symbol("main", 0)], vec![relocation("println", 1)]);
    let (layout, _) = compiled_layout(&img);
    let text = build_compiled_text(&layout, &img).unwrap();
    // print at 48 (88 bytes), then println at 136.
    assert_eq!(&text[48..52], &[0x48, 0x83, 0xec, 0x48]);
    assert_eq!(&text[136..141], &[0x48, 0x83, 0xec, 0x28, 0xe8]);
    assert_eq!(le32(&text, 141), 48 - 145);
    assert_eq!(le32(&text, 33), 136 - 37);
}

#[test]
fn compiled_code_without_main_or_with_a_dangling_relocation_builds_nothing() {
    let no_main = image(vec![0xc3], vec![symbol("start", 0)], Vec::new());
    let (layout, _) = compiled_layout(&no_main);
    assert!(build_compiled_text(&layout, &no_main).is_none());
    assert!(emit_compiled_pe64_console(&no_main).is_none());
    let dangling = image(vec![0xe8, 0, 0, 0, 0, 0xc3], vec![symbol("main", 0)], vec![relocation("nowhere", 1)]);
    assert!(emit_compiled_pe64_console(&dangling).is_none());
}

#[test]
fn compiled_images_carry_headers_and_text() {
    let img = image(vec![0x31, 0xc0, 0xc3], vec![symbol("main", 0)], Vec::new());
    let exe = emit_compiled_pe64_console(&img).unwrap();
    assert_eq!(&exe[0..2], b"MZ");
    assert_eq!(&exe[0x80..0x84], b"PE\0\0");
    assert_eq!(&exe[0x200..0x205], &[0x48, 0x83, 0xec, 0x28, 0xe8]);
    assert_eq!(&exe[0x220..0x223], &[0x31, 0xc0, 0xc3]);
}

#[test]
fn the_console_emitter_prefers_compiled_code() {
    let program = IrProgram {
        functions: vec![IrFunction {
            name: "main".to_string(),
            params: Vec::new(),
            instructions: vec![
                Instruction::Const { dst: ValueId(0), value: 7 },
                Instruction::Return { value: ValueId(0) },
            ],
        }],
    };
    let compiled = image(vec![0x31, 0xc0, 0xc3], vec![symbol("main", 0)], Vec::new());
    assert_eq!(emit_pe64_console_with_code(&program, &compiled), emit_compiled_pe64_console(&compiled));
    let broken = image(vec![0xc3], Vec::new(), Vec::new());
    assert_eq!(emit_pe64_console_with_code(&program, &broken), geo::pe::emit_pe64_console(&program));
    assert!(emit_pe64_console_with_code(&program, &broken).is_some());
}
