use geo::ast::{BinaryOp, ConstDecl, Expr, Function, Param, Program, Stmt, Type, UnaryOp};
use geo::ir::{CmpOp, Instruction, ValueId};
use geo::lower;

fn program_with(functions: Vec<Function>, consts: Vec<ConstDecl>) -> Program {
    Program {
        imports: Vec::new(),
        type_aliases: Vec::new(),
        consts,
        structs: Vec::new(),
        enums: Vec::new(),
        externs: Vec::new(),
        functions,
    }
}

fn function(name: &str, params: Vec<Param>, return_type: Type, body: Vec<Stmt>) -> Function {
    Function {
        name: name.to_string(),
        params,
        return_type,
        body,
        span: Default::default(),
        statement_spans: Vec::new(),
        expression_spans: Vec::new(),
        statement_expression_ranges: Vec::new(),
        source_path: None,
    }
}

#[test]
fn lowering_produces_machine_independent_ir() {
    let program = Program {
        imports: Vec::new(),
        type_aliases: Vec::new(),
        consts: Vec::new(),
        structs: Vec::new(),
        enums: Vec::new(),
        externs: Vec::new(),
        functions: vec![Function {
            name: "main".to_string(),
            params: Vec::new(),
            return_type: Type::Int,
            body: vec![Stmt::Return(Some(geo::ast::Expr::Int(42)))],
            span: Default::default(),
            statement_spans: Vec::new(),
            expression_spans: Vec::new(),
            statement_expression_ranges: Vec::new(),
            source_path: None,
        }],
    };

    let ir = lower::lower(&program);
    assert_eq!(ir.functions.len(), 1);
    assert_eq!(ir.functions[0].name, "main");
}

#[test]
fn returning_a_literal_lowers_to_a_constant_and_a_return() {
    let program = program_with(
        vec![function("main", Vec::new(), Type::Int, vec![Stmt::Return(Some(Expr::Int(42)))])],
        Vec::new(),
    );
    let ir = lower::lower(&program);
    assert_eq!(
        ir.functions[0].instructions,
        vec![
            Instruction::Const { dst: ValueId(0), value: 42 },
            Instruction::Return { value: ValueId(0) },
        ]
    );
}

#[test]
fn a_body_without_return_gets_a_zero_return() {
    let program = program_with(vec![function("main", Vec::new(), Type::Unit, Vec::new())], Vec::new());
    let ir = lower::lower(&program);
    assert_eq!(
        ir.functions[0].instructions,
        vec![
            Instruction::Const { dst: ValueId(0), value: 0 },
            Instruction::Return { value: ValueId(0) },
        ]
    );
}

#[test]
fn a_trailing_expression_is_the_return_value() {
    let body = vec![Stmt::Expr(Expr::Binary {
        op: BinaryOp::Add,
        left: Box::new(Expr::Var("a".to_string())),
        right: Box::new(Expr::Var("b".to_string())),
    })];
    let params = vec![
        Param { name: "a".to_string(), ty: Type::Int },
        Param { name: "b".to_string(), ty: Type::Int },
    ];
    let program = program_with(vec![function("add", params, Type::Int, body)], Vec::new());
    let ir = lower::lower(&program);
    let f = &ir.functions[0];
    assert_eq!(f.params, vec!["a".to_string(), "b".to_string()]);
    assert_eq!(
        f.instructions,
        vec![
            Instruction::Load { dst: ValueId(0), local: "a".to_string() },
            Instruction::Load { dst: ValueId(1), local: "b".to_string() },
            Instruction::Add { dst: ValueId(2), left: ValueId(0), right: ValueId(1) },
            Instruction::Return { value: ValueId(2) },
        ]
    );
}

#[test]
fn constants_fold_to_their_value() {
    let consts = vec![
        ConstDecl { name: "A".to_string(), ty: Type::Int, value: Expr::Int(6) },
        ConstDecl {
            name: "B".to_string(),
            ty: Type::Int,
            value: Expr::Binary {
                op: BinaryOp::Mul,
                left: Box::new(Expr::Var("A".to_string())),
                right: Box::new(Expr::Int(7)),
            },
        },
    ];
    let program = program_with(
        vec![function("main", Vec::new(), Type::Int, vec![Stmt::Return(Some(Expr::Var("B".to_string())))])],
        consts,
    );
    let ir = lower::lower(&program);
    assert_eq!(
        ir.functions[0].instructions,
        vec![
            Instruction::Const { dst: ValueId(0), value: 42 },
            Instruction::Return { value: ValueId(0) },
        ]
    );
}

#[test]
fn a_while_loop_lowers_to_labels_and_a_conditional_jump() {
    let body = vec![
        Stmt::Let { name: "i".to_string(), mutable: true, ty: None, value: Expr::Int(0) },
        Stmt::While {
            condition: Expr::Binary {
                op: BinaryOp::Less,
                left: Box::new(Expr::Var("i".to_string())),
                right: Box::new(Expr::Int(3)),
            },
            body: vec![Stmt::Break],
        },
        Stmt::Return(Some(Expr::Var("i".to_string()))),
    ];
    let program = program_with(vec![function("main", Vec::new(), Type::Int, body)], Vec::new());
    let ir = lower::lower(&program);
    assert_eq!(
        ir.functions[0].instructions,
        vec![
            Instruction::Const { dst: ValueId(0), value: 0 },
            Instruction::Store { local: "i".to_string(), value: ValueId(0) },
            Instruction::Label { name: ".Lwhile_0".to_string() },
            Instruction::Load { dst: ValueId(1), local: "i".to_string() },
            Instruction::Const { dst: ValueId(2), value: 3 },
            Instruction::Cmp { dst: ValueId(3), op: CmpOp::Less, left: ValueId(1), right: ValueId(2) },
            Instruction::JumpIfZero { value: ValueId(3), label: ".Lendwhile_1".to_string() },
            Instruction::Jump { label: ".Lendwhile_1".to_string() },
            Instruction::Jump { label: ".Lwhile_0".to_string() },
            Instruction::Label { name: ".Lendwhile_1".to_string() },
            Instruction::Load { dst: ValueId(4), local: "i".to_string() },
            Instruction::Return { value: ValueId(4) },
        ]
    );
}

#[test]
fn constant_folding_refuses_overflow_and_division_by_zero() {
    assert_eq!(lower::fold_binary(BinaryOp::Add, 2, 3), Some(5));
    assert_eq!(lower::fold_binary(BinaryOp::Add, i64::MAX, 1), None);
    assert_eq!(lower::fold_binary(BinaryOp::Div, 7, 0), None);
    assert_eq!(lower::fold_binary(BinaryOp::Rem, 7, 0), None);
    assert_eq!(lower::fold_binary(BinaryOp::Div, i64::MIN, -1), None);
    assert_eq!(lower::fold_binary(BinaryOp::ShiftLeft, 1, 4), Some(16));
    assert_eq!(lower::fold_binary(BinaryOp::ShiftLeft, 1, 64), None);
    assert_eq!(lower::fold_binary(BinaryOp::ShiftRight, -8, 1), Some(-4));
    assert_eq!(lower::fold_binary(BinaryOp::Less, 1, 2), Some(1));
    assert_eq!(lower::fold_binary(BinaryOp::And, 1, 0), Some(0));
}

#[test]
fn pointer_plus_integer_is_scaled_by_the_element_size() {
    let body = vec![Stmt::Return(Some(Expr::Binary {
        op: BinaryOp::Add,
        left: Box::new(Expr::Var("p".to_string())),
        right: Box::new(Expr::Int(2)),
    }))];
    let params = vec![Param { name: "p".to_string(), ty: Type::Pointer(Box::new(Type::Int)) }];
    let program = program_with(
        vec![function("main", params, Type::Pointer(Box::new(Type::Int)), body)],
        Vec::new(),
    );
    let ir = lower::lower(&program);
    assert_eq!(
        ir.functions[0].instructions,
        vec![
            Instruction::Load { dst: ValueId(0), local: "p".to_string() },
            Instruction::Const { dst: ValueId(1), value: 2 },
            Instruction::Const { dst: ValueId(2), value: 8 },
            Instruction::Mul { dst: ValueId(3), left: ValueId(1), right: ValueId(2) },
            Instruction::Add { dst: ValueId(4), left: ValueId(0), right: ValueId(3) },
            Instruction::Return { value: ValueId(4) },
        ]
    );
}

#[test]
fn negation_subtracts_from_zero() {
    let body = vec![Stmt::Return(Some(Expr::Unary { op: UnaryOp::Neg, expr: Box::new(Expr::Int(5)) }))];
    let program = program_with(vec![function("main", Vec::new(), Type::Int, body)], Vec::new());
    let ir = lower::lower(&program);
    assert_eq!(
        ir.functions[0].instructions,
        vec![
            Instruction::Const { dst: ValueId(0), value: 0 },
            Instruction::Const { dst: ValueId(1), value: 5 },
            Instruction::Sub { dst: ValueId(2), left: ValueId(0), right: ValueId(1) },
            Instruction::Return { value: ValueId(2) },
        ]
    );
}

#[test]
fn a_for_loop_counts_up_to_its_end_and_advances_at_its_next_label() {
    let body = vec![Stmt::For {
        name: "i".to_string(),
        start: Expr::Int(0),
        end: Expr::Int(3),
        inclusive: false,
        body: Vec::new(),
    }];
    let program = program_with(vec![function("main", Vec::new(), Type::Unit, body)], Vec::new());
    let ir = lower::lower(&program);
    let end = "__geo_for_end_i_0".to_string();
    assert_eq!(
        ir.functions[0].instructions,
        vec![
            Instruction::Const { dst: ValueId(0), value: 0 },
            Instruction::Store { local: "i".to_string(), value: ValueId(0) },
            Instruction::Const { dst: ValueId(1), value: 3 },
            Instruction::Store { local: end.clone(), value: ValueId(1) },
            Instruction::Label { name: ".Lfor_0".to_string() },
            Instruction::Load { dst: ValueId(2), local: "i".to_string() },
            Instruction::Load { dst: ValueId(3), local: end },
            Instruction::Cmp { dst: ValueId(4), op: CmpOp::Less, left: ValueId(2), right: ValueId(3) },
            Instruction::JumpIfZero { value: ValueId(4), label: ".Lendfor_2".to_string() },
            Instruction::Label { name: ".Lfor_next_1".to_string() },
            Instruction::Load { dst: ValueId(5), local: "i".to_string() },
            Instruction::Const { dst: ValueId(6), value: 1 },
            Instruction::Add { dst: ValueId(7), left: ValueId(5), right: ValueId(6) },
            Instruction::Store { local: "i".to_string(), value: ValueId(7) },
            Instruction::Jump { label: ".Lfor_0".to_string() },
            Instruction::Label { name: ".Lendfor_2".to_string() },
            Instruction::Const { dst: ValueId(8), value: 0 },
            Instruction::Return { value: ValueId(8) },
        ]
    );
}

#[test]
fn a_local_shadows_a_constant_of_the_same_name() {
    let consts = vec![ConstDecl { name: "LIMIT".to_string(), ty: Type::Int, value: Expr::Int(40) }];
    let params = vec![Param { name: "LIMIT".to_string(), ty: Type::Int }];
    let body = vec![Stmt::Return(Some(Expr::Var("LIMIT".to_string())))];
    let program = program_with(vec![function("main", params, Type::Int, body)], consts);
    let ir = lower::lower(&program);
    assert_eq!(
        ir.functions[0].instructions,
        vec![
            Instruction::Load { dst: ValueId(0), local: "LIMIT".to_string() },
            Instruction::Return { value: ValueId(0) },
        ]
    );
}
