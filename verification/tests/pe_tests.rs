use geo::ir::{CmpOp, Instruction, IrFunction, IrProgram, ValueId};
use geo::pe::{align_to, build_idata, build_rdata, emit_pe64_console, eval_compare, Layout, PeEvaluator, PePlan, PeValue};

#[test]
fn layout_places_write_file_count_after_compiled_rodata() {
    let layout = Layout::new(9, true, false, false, false, false);

    assert_eq!(layout.written_rva, 0x2010);
}

#[test]
fn layout_without_console_puts_exit_process_first() {
    let layout = Layout::new(0, false, false, false, false, false);
    // One import and the null entry.
    assert_eq!(layout.iat_size, 16);
    let first_thunk = 0x3000 + 40 + layout.iat_size;
    assert_eq!(layout.exit_process_iat, first_thunk);
    assert_eq!(layout.get_std_handle_iat, first_thunk);
    assert_eq!(layout.written_rva, 0x2000);
}

#[test]
fn layout_gives_every_import_its_own_slot_in_table_order() {
    let layout = Layout::new(3, true, true, true, true, true);
    // 2 console + exit + 2 alloc + 4 file + delete + attributes = 11 imports, plus the null entry.
    assert_eq!(layout.iat_size, 96);
    let ft = 0x3000 + 40 + 96;
    assert_eq!(layout.get_std_handle_iat, ft);
    assert_eq!(layout.write_file_iat, ft + 8);
    assert_eq!(layout.exit_process_iat, ft + 16);
    assert_eq!(layout.virtual_alloc_iat, ft + 24);
    assert_eq!(layout.virtual_free_iat, ft + 32);
    assert_eq!(layout.create_file_iat, ft + 40);
    assert_eq!(layout.get_file_size_iat, ft + 48);
    assert_eq!(layout.read_file_iat, ft + 56);
    assert_eq!(layout.close_handle_iat, ft + 64);
    assert_eq!(layout.delete_file_iat, ft + 72);
    assert_eq!(layout.get_file_attributes_iat, ft + 80);
    assert_eq!(layout.written_rva, 0x2008);
}

#[test]
fn layout_for_file_writes_only_opens_and_closes() {
    let layout = Layout::new(16, false, false, false, true, false);
    // exit + create + close + delete, plus the null entry.
    assert_eq!(layout.iat_size, 40);
    let ft = 0x3000 + 40 + 40;
    assert_eq!(layout.exit_process_iat, ft);
    assert_eq!(layout.create_file_iat, ft + 8);
    assert_eq!(layout.close_handle_iat, ft + 16);
    assert_eq!(layout.delete_file_iat, ft + 24);
    assert_eq!(layout.get_file_size_iat, ft);
    assert_eq!(layout.read_file_iat, ft);
}

#[test]
fn align_to_rounds_up_to_the_alignment() {
    assert_eq!(align_to(0, 8), 0);
    assert_eq!(align_to(1, 8), 8);
    assert_eq!(align_to(0x2009, 8), 0x2010);
    assert_eq!(align_to(0x200, 0x200), 0x200);
    assert_eq!(align_to(0x201, 0x200), 0x400);
}


fn program(functions: Vec<IrFunction>) -> IrProgram {
    IrProgram { functions }
}

fn hello_program() -> IrProgram {
    program(vec![IrFunction {
        name: "main".to_string(),
        params: Vec::new(),
        instructions: vec![
            Instruction::StringConst { dst: ValueId(0), label: "s".to_string(), value: "hi".to_string() },
            Instruction::Call { dst: ValueId(1), function: "println".to_string(), args: vec![ValueId(0)] },
            Instruction::Const { dst: ValueId(2), value: 7 },
            Instruction::Return { value: ValueId(2) },
        ],
    }])
}

#[test]
fn evaluation_prints_and_returns() {
    let p = hello_program();
    let plan = PePlan::from_program(&p).unwrap();
    assert_eq!(plan.output.as_deref(), Some("hi\n"));
    assert_eq!(plan.exit_code, 7);
}

#[test]
fn evaluation_follows_calls_and_loops() {
    // square(x) = x * x; main sums square(i) for i in 0..4 with a loop.
    let square = IrFunction {
        name: "square".to_string(),
        params: vec!["x".to_string()],
        instructions: vec![
            Instruction::Load { dst: ValueId(0), local: "x".to_string() },
            Instruction::Mul { dst: ValueId(1), left: ValueId(0), right: ValueId(0) },
            Instruction::Return { value: ValueId(1) },
        ],
    };
    let main = IrFunction {
        name: "main".to_string(),
        params: Vec::new(),
        instructions: vec![
            Instruction::Const { dst: ValueId(0), value: 0 },
            Instruction::Store { local: "i".to_string(), value: ValueId(0) },
            Instruction::Store { local: "sum".to_string(), value: ValueId(0) },
            Instruction::Label { name: "top".to_string() },
            Instruction::Load { dst: ValueId(1), local: "i".to_string() },
            Instruction::Const { dst: ValueId(2), value: 4 },
            Instruction::Cmp { dst: ValueId(3), op: CmpOp::Less, left: ValueId(1), right: ValueId(2) },
            Instruction::JumpIfZero { value: ValueId(3), label: "end".to_string() },
            Instruction::Call { dst: ValueId(4), function: "square".to_string(), args: vec![ValueId(1)] },
            Instruction::Load { dst: ValueId(5), local: "sum".to_string() },
            Instruction::Add { dst: ValueId(6), left: ValueId(5), right: ValueId(4) },
            Instruction::Store { local: "sum".to_string(), value: ValueId(6) },
            Instruction::Const { dst: ValueId(7), value: 1 },
            Instruction::Add { dst: ValueId(8), left: ValueId(1), right: ValueId(7) },
            Instruction::Store { local: "i".to_string(), value: ValueId(8) },
            Instruction::Jump { label: "top".to_string() },
            Instruction::Label { name: "end".to_string() },
            Instruction::Load { dst: ValueId(9), local: "sum".to_string() },
            Instruction::Return { value: ValueId(9) },
        ],
    };
    let p = program(vec![square, main]);
    let mut evaluator = PeEvaluator::new(&p);
    assert_eq!(evaluator.eval_function("main", Vec::new()), Some(PeValue::Int(14)));
    assert!(evaluator.output.is_none());
}

#[test]
fn evaluation_fails_on_division_by_zero_and_endless_loops() {
    let divide = program(vec![IrFunction {
        name: "main".to_string(),
        params: Vec::new(),
        instructions: vec![
            Instruction::Const { dst: ValueId(0), value: 1 },
            Instruction::Const { dst: ValueId(1), value: 0 },
            Instruction::Div { dst: ValueId(2), left: ValueId(0), right: ValueId(1) },
            Instruction::Return { value: ValueId(2) },
        ],
    }]);
    assert!(PePlan::from_program(&divide).is_none());
    let spin = program(vec![IrFunction {
        name: "main".to_string(),
        params: Vec::new(),
        instructions: vec![
            Instruction::Label { name: "l".to_string() },
            Instruction::Jump { label: "l".to_string() },
        ],
    }]);
    let mut evaluator = PeEvaluator::new(&spin);
    assert_eq!(evaluator.eval_function("main", Vec::new()), None);
    assert_eq!(evaluator.steps, 100_000);
    let mut missing = PeEvaluator::new(&spin);
    assert_eq!(missing.eval_function("nope", Vec::new()), None);
}

#[test]
fn comparisons_follow_their_operator() {
    assert!(eval_compare(CmpOp::Less, 1, 2));
    assert!(!eval_compare(CmpOp::Greater, 1, 2));
    assert!(eval_compare(CmpOp::GreaterEqual, 2, 2));
    assert!(eval_compare(CmpOp::NotEqual, 1, 2));
}

fn read_u64(bytes: &[u8], at: usize) -> u64 {
    let mut b = [0u8; 8];
    b.copy_from_slice(&bytes[at..at + 8]);
    u64::from_le_bytes(b)
}

#[test]
fn every_import_slot_points_at_its_name() {
    let layout = Layout::new(3, true, true, true, true, true);
    let idata = build_idata(&layout);
    assert_eq!(idata.len(), 0x200);
    let slots = [
        (layout.get_std_handle_iat, "GetStdHandle"),
        (layout.write_file_iat, "WriteFile"),
        (layout.exit_process_iat, "ExitProcess"),
        (layout.virtual_alloc_iat, "VirtualAlloc"),
        (layout.virtual_free_iat, "VirtualFree"),
        (layout.create_file_iat, "CreateFileA"),
        (layout.get_file_size_iat, "GetFileSize"),
        (layout.read_file_iat, "ReadFile"),
        (layout.close_handle_iat, "CloseHandle"),
        (layout.delete_file_iat, "DeleteFileA"),
        (layout.get_file_attributes_iat, "GetFileAttributesA"),
    ];
    for (slot, name) in slots {
        let entry = read_u64(&idata, (slot - 0x3000) as usize) as usize;
        let at = entry - 0x3000 + 2;
        assert_eq!(&idata[at..at + name.len()], name.as_bytes());
        assert_eq!(idata[at + name.len()], 0);
    }
    let dll = 40 + 2 * layout.iat_size as usize;
    assert_eq!(&idata[dll..dll + 12], b"KERNEL32.dll");
}

#[test]
fn read_only_data_holds_the_message_and_a_counter() {
    let data = build_rdata("hello");
    assert_eq!(data.len(), 0x200);
    assert_eq!(&data[0..6], b"hello\0");
    assert!(data[6..].iter().all(|b| *b == 0));
}

#[test]
fn a_printing_program_becomes_a_console_image() {
    let image = emit_pe64_console(&hello_program()).unwrap();
    assert_eq!(&image[0..2], b"MZ");
    assert_eq!(&image[0x80..0x84], b"PE\0\0");
    // text, read-only data and imports, one file-alignment unit each
    assert_eq!(image.len(), 0x800);
    assert_eq!(&image[0x400..0x404], b"hi\n\0");
    // the code starts by reserving shadow space
    assert_eq!(&image[0x200..0x204], &[0x48, 0x83, 0xec, 0x28]);
    // mov ecx, exit code 7 near the end of the code
    assert!(image[0x200..0x400].windows(5).any(|w| w == [0xb9, 7, 0, 0, 0]));
}

#[test]
fn the_last_function_of_a_name_is_the_one_that_runs() {
    let main = |value: i64| IrFunction {
        name: "main".to_string(),
        params: Vec::new(),
        instructions: vec![
            Instruction::Const { dst: ValueId(0), value },
            Instruction::Return { value: ValueId(0) },
        ],
    };
    let p = IrProgram { functions: vec![main(1), main(2)] };
    assert_eq!(PePlan::from_program(&p).unwrap().exit_code, 2);
}

#[test]
fn the_import_tables_end_in_null_entries() {
    let layout = Layout::new(3, true, false, false, false, false);
    let data = build_idata(&layout);
    let iat = layout.iat_size as usize;
    assert!(data[4..12].iter().all(|&b| b == 0));
    assert!(data[20..40].iter().all(|&b| b == 0));
    assert!(data[40 + iat - 8..40 + iat].iter().all(|&b| b == 0));
    assert!(data[40 + 2 * iat - 8..40 + 2 * iat].iter().all(|&b| b == 0));
    assert!(data[40..48].iter().any(|&b| b != 0));
}
