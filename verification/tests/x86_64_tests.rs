use geo::ir::{Instruction, IrFunction, IrProgram, ValueId};
use geo::target::Target;
use geo::x86_64::{emit_nasm, emit_nasm_for_target, emit_nasm_for_target_with_runtime_entry, is_emittable_program};

fn function(name: &str, params: &[&str], instructions: Vec<Instruction>) -> IrFunction {
    IrFunction { name: name.to_string(), params: params.iter().map(|p| p.to_string()).collect(), instructions }
}

fn return_42() -> IrProgram {
    IrProgram {
        functions: vec![function(
            "main",
            &[],
            vec![Instruction::Const { dst: ValueId(0), value: 42 }, Instruction::Return { value: ValueId(0) }],
        )],
    }
}

fn calls_print() -> IrProgram {
    IrProgram {
        functions: vec![function(
            "main",
            &[],
            vec![
                Instruction::Const { dst: ValueId(0), value: 7 },
                Instruction::Call { dst: ValueId(1), function: "print".to_string(), args: vec![ValueId(0)] },
                Instruction::Return { value: ValueId(1) },
            ],
        )],
    }
}

#[test]
fn returning_a_constant_is_a_small_frame_and_a_return() {
    let program = return_42();
    assert!(is_emittable_program(&program));
    assert_eq!(
        emit_nasm(&program),
        "global main\nsection .text\n\nmain:\n    push rbp\n    mov rbp, rsp\n    sub rsp, 16\n    mov qword [rbp - 8], 42\n    mov rax, [rbp - 8]\n    mov rsp, rbp\n    pop rbp\n    ret\n\n"
    );
}

#[test]
fn runtime_entry_renames_main() {
    let out = emit_nasm_for_target_with_runtime_entry(&return_42(), &Target::linux_x86_64(), true);
    assert!(out.starts_with("global geo_main\nsection .text\n\ngeo_main:\n"));
}

#[test]
fn calls_to_undefined_functions_are_declared_extern() {
    let out = emit_nasm(&calls_print());
    assert!(out.starts_with("global main\nextern print\n\nsection .text\n"));
    assert!(out.contains("    mov rdi, [rbp - 8]\n    call print\n    mov [rbp - 16], rax\n"));
}

#[test]
fn windows_calls_pass_in_rcx_with_shadow_space() {
    let out = emit_nasm_for_target(&calls_print(), &Target::windows_x86_64());
    assert!(out.contains("    sub rsp, 32\n    mov rcx, [rbp - 8]\n    call print\n    add rsp, 32\n    mov [rbp - 16], rax\n"));
}

#[test]
fn a_use_of_an_undefined_value_is_not_emittable() {
    let program = IrProgram { functions: vec![function("main", &[], vec![Instruction::Return { value: ValueId(3) }])] };
    assert!(!is_emittable_program(&program));
}
