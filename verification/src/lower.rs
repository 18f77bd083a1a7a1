//! Lowering of a checked program to the machine-independent IR.
//!
//! Every source function becomes one IR function of the same name and parameters whose
//! instruction list ends in a `Return`. Aggregates (structs and fixed arrays) are
//! flattened into one named local per scalar slot, such as `p.x` or `xs[2]`.
//!
//! Lookups that the compiler keeps in hash maps are association lists here, searched
//! from the most recent entry, which is how an overwriting insert behaves. Expansion that
//! does not follow the syntax tree (a constant's definition, a struct's fields) is bounded
//! by a depth budget larger than the number of declarations, so a well-formed program
//! never exhausts it.
use vstd::prelude::*;
use crate::ast::{BinaryOp, Expr, Field, Function, MatchPattern, Program, Stmt, StructDecl, Type, UnaryOp};
use crate::ir::{CmpOp, Instruction, IrFunction, IrProgram, ValueId};
use crate::text::{push_decimal, str_eq};
use crate::lowering::{
    add_local, aggregate_into_spec, array_elems_spec, array_into_spec, canon, canon_all, compound_spec, const_value,
    copy_fields_state, copy_slot_state, emit, find_value, fresh_label_spec, fresh_string_spec, fresh_value, load_place_spec,
    body_state, copy_elems_state, function_env, initial_state, lower_stmts_until, lowered_body, lower_args_spec, lower_expr_spec, lower_stmt_spec, lower_stmts_spec, match_arms_spec, pattern_spec, place_state,
    pointer_binary_spec, pop_last, scale_spec, struct_fields_spec, struct_into_spec, LowerEnv, LowerState,
};

verus! {

/// The IR names of the parameters of a source function.
pub open spec fn param_names(function: Function) -> Seq<Seq<char>> {
    function.params@.map_values(|p: crate::ast::Param| p.name@)
}

/// An instruction list that ends in a `Return`.
pub open spec fn ends_in_return(instructions: Seq<Instruction>) -> bool {
    instructions.len() > 0 && instructions.last() is Return
}

/// What lowering keeps of each source function: its name, its parameters, and a body
/// that ends in a `Return`.
pub open spec fn lowers_function(source: Function, lowered: IrFunction) -> bool {
    &&& lowered.name@ == source.name@
    &&& lowered.params@.map_values(|s: String| s@) == param_names(source)
    &&& ends_in_return(lowered.instructions@)
}

/// Lowers a whole program, one IR function per source function, in order.
pub fn lower(program: &Program) -> (ir: IrProgram)
    ensures
        ir.functions@.len() == program.functions@.len(),
        forall|k: int| 0 <= k < program.functions@.len()
            ==> lowers_function(#[trigger] program.functions@[k], ir.functions@[k]),
        forall|k: int| 0 <= k < program.functions@.len()
            ==> canon_all(ir.functions@[k].instructions@) == lowered_body(*program, #[trigger] program.functions@[k]),
{
    let mut functions: Vec<IrFunction> = Vec::new();
    let mut k: usize = 0;
    while k < program.functions.len()
        invariant
            0 <= k <= program.functions@.len(),
            functions@.len() == k,
            forall|j: int| 0 <= j < k ==> lowers_function(#[trigger] program.functions@[j], functions@[j]),
            forall|j: int| 0 <= j < k
                ==> canon_all(functions@[j].instructions@) == lowered_body(*program, #[trigger] program.functions@[j]),
        decreases program.functions@.len() - k,
    {
        let f = lower_function(program, &program.functions[k]);
        functions.push(f);
        k = k + 1;
    }
    IrProgram { functions }
}

/// The `(dst, value)` constant instruction.
fn const_instruction(dst: ValueId, value: i64) -> (r: Instruction)
    ensures
        r == (Instruction::Const { dst, value }),
{
    Instruction::Const { dst, value }
}

/// Lowers one function.
pub fn lower_function(program: &Program, function: &Function) -> (r: IrFunction)
    ensures
        lowers_function(*function, r),
        canon_all(r.instructions@) == lowered_body(*program, *function),
{
    let budget = depth_budget(program);
    let mut ctx = LowerCtx {
        program,
        function_name: function.name.clone(),
        locals: Vec::new(),
        array_lengths: Vec::new(),
        next_value: 0,
        next_label: 0,
        next_string: 0,
        loop_stack: Vec::new(),
        instructions: Vec::new(),
        budget,
    };
    let ghost env = function_env(*program, *function);
    let mut i: usize = 0;
    proof {
        assert(locals_of(ctx.locals@) =~= Seq::new(0, |k: int| (function.params@[k].name@, function.params@[k].ty)));
    }
    while i < function.params.len()
        invariant
            0 <= i <= function.params@.len(),
            ctx.env() == env,
            env == function_env(*program, *function),
            ctx.instructions@ == Seq::<Instruction>::empty(),
            ctx.array_lengths@ == Seq::<(String, usize)>::empty(),
            ctx.loop_stack@ == Seq::<(String, String)>::empty(),
            ctx.next_value == 0 && ctx.next_label == 0 && ctx.next_string == 0,
            locals_of(ctx.locals@) == Seq::new(i as nat, |k: int| (function.params@[k].name@, function.params@[k].ty)),
        decreases function.params@.len() - i,
    {
        let param = &function.params[i];
        let ghost before = ctx.locals@;
        ctx.locals.push((param.name.clone(), param.ty.copy()));
        proof {
            assert(locals_of(ctx.locals@) =~= locals_of(before).push((function.params@[i as int].name@, function.params@[i as int].ty)));
            assert(locals_of(ctx.locals@) =~= Seq::new((i + 1) as nat, |k: int| (function.params@[k].name@, function.params@[k].ty)));
        }
        i = i + 1;
    }
    proof {
        assert(canon_all(ctx.instructions@) =~= Seq::<Instruction>::empty());
        assert(lengths_view(ctx.array_lengths@) =~= Seq::<(Seq<char>, usize)>::empty());
        assert(loops_of(ctx.loop_stack@) =~= Seq::<(Seq<char>, Seq<char>)>::empty());
        assert(ctx.state() =~= initial_state(*function));
    }
    let n = function.body.len();
    let tail_value = n > 0 && !is_unit(&function.return_type) && matches!(function.body[n - 1], Stmt::Expr(_));
    if tail_value {
        let mut j: usize = 0;
        while j < n - 1
            invariant
                n == function.body@.len(),
                n > 0,
                0 <= j <= n - 1,
                ctx.env() == env,
                env == function_env(*program, *function),
                lower_stmts_until(env, initial_state(*function), function.body, budget as nat, 0, (n - 1) as nat)
                    == lower_stmts_until(env, ctx.state(), function.body, budget as nat, j as nat, (n - 1) as nat),
            decreases n - 1 - j,
        {
            ctx.lower_stmt(&function.body[j], budget);
            j = j + 1;
        }
        if let Stmt::Expr(expr) = &function.body[n - 1] {
            let value = ctx.lower_expr(expr, budget);
            ctx.push(Instruction::Return { value });
        }
    } else {
        ctx.lower_stmts(&function.body, budget);
    }
    proof {
        assert(ctx.state() == body_state(*program, *function));
    }
    let len = ctx.instructions.len();
    let ends = len > 0 && matches!(ctx.instructions[len - 1], Instruction::Return { .. });
    proof {
        if len > 0 {
            assert(canon_all(ctx.instructions@).last() == canon(ctx.instructions@[len - 1]));
        }
    }
    if !ends {
        let value = ctx.fresh();
        ctx.push(const_instruction(value, 0));
        ctx.push(Instruction::Return { value });
    }
    let mut params: Vec<String> = Vec::new();
    let mut p: usize = 0;
    while p < function.params.len()
        invariant
            0 <= p <= function.params@.len(),
            params@.len() == p,
            forall|q: int| 0 <= q < p ==> #[trigger] params@[q]@ == function.params@[q].name@,
        decreases function.params@.len() - p,
    {
        params.push(function.params[p].name.clone());
        p = p + 1;
    }
    assert(params@.map_values(|s: String| s@) =~= param_names(*function));
    proof {
        let c = canon_all(ctx.instructions@);
        assert(c.last() == canon(ctx.instructions@[ctx.instructions@.len() - 1]));
    }
    IrFunction { name: function.name.clone(), params, instructions: ctx.instructions }
}

fn is_unit(ty: &Type) -> (r: bool)
    ensures
        r == (*ty is Unit),
{
    matches!(ty, Type::Unit)
}

/// The type of the last local named `name`.
pub open spec fn local_type_spec(locals: Seq<(String, Type)>, name: Seq<char>) -> Option<Type>
    decreases locals.len(),
{
    if locals.len() == 0 {
        None
    } else if locals.last().0@ == name {
        Some(locals.last().1)
    } else {
        local_type_spec(locals.drop_last(), name)
    }
}

/// The length recorded last for the array named `name`.
pub open spec fn array_length_spec(lengths: Seq<(String, usize)>, name: Seq<char>) -> Option<usize>
    decreases lengths.len(),
{
    if lengths.len() == 0 {
        None
    } else if lengths.last().0@ == name {
        Some(lengths.last().1)
    } else {
        array_length_spec(lengths.drop_last(), name)
    }
}

/// The last constant declared under `name`.
pub open spec fn last_const(consts: Seq<crate::ast::ConstDecl>, name: Seq<char>) -> Option<crate::ast::ConstDecl>
    decreases consts.len(),
{
    if consts.len() == 0 {
        None
    } else if consts.last().name@ == name {
        Some(consts.last())
    } else {
        last_const(consts.drop_last(), name)
    }
}

/// The last struct declared under `name`.
pub open spec fn last_struct(structs: Seq<StructDecl>, name: Seq<char>) -> Option<StructDecl>
    decreases structs.len(),
{
    if structs.len() == 0 {
        None
    } else if structs.last().name@ == name {
        Some(structs.last())
    } else {
        last_struct(structs.drop_last(), name)
    }
}

/// The return type of the last function declared under `name`.
pub open spec fn last_function_return(functions: Seq<Function>, name: Seq<char>) -> Option<Type>
    decreases functions.len(),
{
    if functions.len() == 0 {
        None
    } else if functions.last().name@ == name {
        Some(functions.last().return_type)
    } else {
        last_function_return(functions.drop_last(), name)
    }
}

/// The return type of the last extern declared under `name`.
pub open spec fn last_extern_return(externs: Seq<crate::ast::ExternFunction>, name: Seq<char>) -> Option<Type>
    decreases externs.len(),
{
    if externs.len() == 0 {
        None
    } else if externs.last().name@ == name {
        Some(externs.last().return_type)
    } else {
        last_extern_return(externs.drop_last(), name)
    }
}

/// The value of variant `j` of an enum: its explicit value, or one more than the previous
/// variant's (zero for the first), wrapping at the top of `i64`.
pub open spec fn variant_value(variants: Seq<crate::ast::EnumVariant>, j: nat) -> i64
    decreases j,
{
    match variants[j as int].value {
        Some(v) => v,
        None => if j == 0 {
            0
        } else {
            let p = variant_value(variants, (j - 1) as nat);
            if p < i64::MAX { (p + 1) as i64 } else { i64::MIN }
        },
    }
}

/// The value of the last of the first `n` variants named `variant`.
pub open spec fn variant_discriminant(variants: Seq<crate::ast::EnumVariant>, variant: Seq<char>, n: nat) -> Option<i64>
    decreases n,
{
    if n == 0 {
        None
    } else if variants[n - 1].name@ == variant {
        Some(variant_value(variants, (n - 1) as nat))
    } else {
        variant_discriminant(variants, variant, (n - 1) as nat)
    }
}

/// The discriminant of `enum_name::variant` among the first `n` enums: the last enum of that
/// name that has such a variant decides.
pub open spec fn enum_discriminant_spec(enums: Seq<crate::ast::EnumDecl>, enum_name: Seq<char>, variant: Seq<char>, n: nat) -> Option<i64>
    decreases n,
{
    if n == 0 {
        None
    } else {
        let e = enums[n - 1];
        let here = variant_discriminant(e.variants@, variant, e.variants@.len());
        if e.name@ == enum_name && here is Some {
            here
        } else {
            enum_discriminant_spec(enums, enum_name, variant, (n - 1) as nat)
        }
    }
}

/// The expansion budget: one more than the declarations that expansion can pass through.
fn depth_budget(program: &Program) -> (r: usize)
    ensures
        r >= 1,
        r == if program.consts@.len() < 0x1000_0000 && program.structs@.len() < 0x1000_0000 {
            program.consts@.len() + program.structs@.len() + 1
        } else {
            0x2000_0000
        },
{
    let c = program.consts.len();
    let s = program.structs.len();
    if c < 0x1000_0000 && s < 0x1000_0000 { c + s + 1 } else { 0x2000_0000 }
}

/// The state of lowering one function.
pub struct LowerCtx<'a> {
    pub program: &'a Program,
    pub function_name: String,
    pub locals: Vec<(String, Type)>,
    pub array_lengths: Vec<(String, usize)>,
    pub next_value: usize,
    pub next_label: usize,
    pub next_string: usize,
    pub loop_stack: Vec<(String, String)>,
    pub instructions: Vec<Instruction>,
    pub budget: usize,
}

/// `a` followed by `b`.
fn join2(a: &str, b: &str) -> (r: String)
    ensures
        r@ == a@ + b@,
{
    let mut s = String::from_str(a);
    s.append(b);
    s
}

/// `a` followed by `b` and `c`.
fn join3(a: &str, b: &str, c: &str) -> (r: String)
    ensures
        r@ == a@ + b@ + c@,
{
    let mut s = String::from_str(a);
    s.append(b);
    s.append(c);
    s
}

/// `prefix.field`, the slot of a struct field.
fn field_slot(prefix: &str, field: &str) -> (r: String)
    ensures
        r@ == prefix@ + "."@ + field@,
{
    join3(prefix, ".", field)
}

/// `prefix[index]`, the slot of an array element.
fn index_slot(prefix: &str, index: u64) -> (r: String)
    ensures
        r@ == prefix@ + "["@ + crate::text::decimal(index as nat) + "]"@,
{
    let mut s = join2(prefix, "[");
    push_decimal(&mut s, index);
    s.append("]");
    s
}

/// `index` as the unsigned number that renders like it.
fn index_number(index: i64) -> (r: String)
    ensures
        r@ == crate::text::signed_decimal(index as int),
{
    let mut s = String::new();
    crate::text::push_signed_decimal(&mut s, index);
    s
}

fn is_integer_type(ty: &Type) -> (r: bool)
    ensures
        r == (*ty is Int || *ty is Usize || *ty is I8 || *ty is I16 || *ty is I32 || *ty is I64
            || *ty is U8 || *ty is U16 || *ty is U32 || *ty is U64),
{
    matches!(
        ty,
        Type::Int | Type::Usize | Type::I8 | Type::I16 | Type::I32 | Type::I64 | Type::U8 | Type::U16 | Type::U32 | Type::U64
    )
}

fn is_aggregate_expr(value: &Expr) -> (r: bool)
    ensures
        r == (*value is Struct || *value is Array),
{
    matches!(value, Expr::Struct { .. } | Expr::Array(_))
}

fn is_string_type(ty: &Option<Type>) -> (r: bool)
    ensures
        r == (*ty matches Some(Type::String)),
{
    matches!(ty, Some(Type::String))
}

/// Rounds `value` up to a multiple of `align`; an alignment of one or less changes nothing.
fn align_to_i64(value: i64, align: i64) -> (r: i64)
    requires
        0 <= value < 0x1_0000_0000_0000,
        align < 0x1_0000,
    ensures
        align <= 1 ==> r == value,
        align > 1 ==> r == (value + align - 1) / (align as int) * align,
        value <= r < value + if align > 1 { align as int } else { 1 },
{
    if align <= 1 {
        value
    } else {
        let sum = value + align - 1;
        let q = sum / align;
        assert(value <= q * align <= sum) by (nonlinear_arith)
            requires
                align > 1,
                sum >= 0,
                sum == value + align - 1,
                q == sum / align;
        q * align
    }
}

fn compare_instruction(dst: ValueId, op: CmpOp, left: ValueId, right: ValueId) -> (r: Instruction)
    ensures
        r == (Instruction::Cmp { dst, op, left, right }),
{
    Instruction::Cmp { dst, op, left, right }
}

/// The IR instruction that applies a binary operator.
pub fn binary_instruction(op: BinaryOp, dst: ValueId, left: ValueId, right: ValueId) -> (r: Instruction)
    ensures
        r == binary_instruction_spec(op, dst, left, right),
{
    match op {
        BinaryOp::And => Instruction::And { dst, left, right },
        BinaryOp::Or => Instruction::Or { dst, left, right },
        BinaryOp::BitAnd => Instruction::BitAnd { dst, left, right },
        BinaryOp::BitOr => Instruction::BitOr { dst, left, right },
        BinaryOp::BitXor => Instruction::BitXor { dst, left, right },
        BinaryOp::ShiftLeft => Instruction::ShiftLeft { dst, left, right },
        BinaryOp::ShiftRight => Instruction::ShiftRight { dst, left, right },
        BinaryOp::Add => Instruction::Add { dst, left, right },
        BinaryOp::Sub => Instruction::Sub { dst, left, right },
        BinaryOp::Mul => Instruction::Mul { dst, left, right },
        BinaryOp::Div => Instruction::Div { dst, left, right },
        BinaryOp::Rem => Instruction::Rem { dst, left, right },
        BinaryOp::Equal => Instruction::Cmp { dst, op: CmpOp::Equal, left, right },
        BinaryOp::NotEqual => Instruction::Cmp { dst, op: CmpOp::NotEqual, left, right },
        BinaryOp::Less => Instruction::Cmp { dst, op: CmpOp::Less, left, right },
        BinaryOp::LessEqual => Instruction::Cmp { dst, op: CmpOp::LessEqual, left, right },
        BinaryOp::Greater => Instruction::Cmp { dst, op: CmpOp::Greater, left, right },
        BinaryOp::GreaterEqual => Instruction::Cmp { dst, op: CmpOp::GreaterEqual, left, right },
    }
}

/// The instruction a binary operator lowers to: the arithmetic and logical operators map to
/// the instruction of the same name, and the six comparisons to a `Cmp`.
pub open spec fn binary_instruction_spec(op: BinaryOp, dst: ValueId, left: ValueId, right: ValueId) -> Instruction {
    match op {
        BinaryOp::And => Instruction::And { dst, left, right },
        BinaryOp::Or => Instruction::Or { dst, left, right },
        BinaryOp::BitAnd => Instruction::BitAnd { dst, left, right },
        BinaryOp::BitOr => Instruction::BitOr { dst, left, right },
        BinaryOp::BitXor => Instruction::BitXor { dst, left, right },
        BinaryOp::ShiftLeft => Instruction::ShiftLeft { dst, left, right },
        BinaryOp::ShiftRight => Instruction::ShiftRight { dst, left, right },
        BinaryOp::Add => Instruction::Add { dst, left, right },
        BinaryOp::Sub => Instruction::Sub { dst, left, right },
        BinaryOp::Mul => Instruction::Mul { dst, left, right },
        BinaryOp::Div => Instruction::Div { dst, left, right },
        BinaryOp::Rem => Instruction::Rem { dst, left, right },
        BinaryOp::Equal => Instruction::Cmp { dst, op: CmpOp::Equal, left, right },
        BinaryOp::NotEqual => Instruction::Cmp { dst, op: CmpOp::NotEqual, left, right },
        BinaryOp::Less => Instruction::Cmp { dst, op: CmpOp::Less, left, right },
        BinaryOp::LessEqual => Instruction::Cmp { dst, op: CmpOp::LessEqual, left, right },
        BinaryOp::Greater => Instruction::Cmp { dst, op: CmpOp::Greater, left, right },
        BinaryOp::GreaterEqual => Instruction::Cmp { dst, op: CmpOp::GreaterEqual, left, right },
    }
}

/// The cap on type sizes and field offsets, far above any type a program declares.
pub const SIZE_CAP: i64 = 0x100_0000_0000;

/// The loop labels by their text.
pub open spec fn loops_of(loops: Seq<(String, String)>) -> Seq<(Seq<char>, Seq<char>)> {
    loops.map_values(|e: (String, String)| (e.0@, e.1@))
}

impl<'a> LowerCtx<'a> {
    /// What lowering has built so far.
    pub open spec fn state(self) -> LowerState {
        LowerState {
            instructions: canon_all(self.instructions@),
            locals: locals_of(self.locals@),
            array_lengths: lengths_view(self.array_lengths@),
            loop_stack: loops_of(self.loop_stack@),
            next_value: self.next_value,
            next_label: self.next_label,
            next_string: self.next_string,
        }
    }

    /// What lowering reads.
    pub open spec fn env(self) -> LowerEnv {
        LowerEnv { program: *self.program, function_name: self.function_name@, budget: self.budget }
    }

    /// A value id never handed out before in this function.
    fn fresh(&mut self) -> (v: ValueId)
        ensures
            (v, final(self).state()) == fresh_value(old(self).state()),
            final(self).env() == old(self).env(),
            v.0 == old(self).next_value,
            final(self).next_value == if old(self).next_value < usize::MAX { old(self).next_value + 1 } else { old(self).next_value as int },
            final(self).instructions@ == old(self).instructions@,
            final(self).program == old(self).program,
            final(self).budget == old(self).budget,
            final(self).array_lengths == old(self).array_lengths,
    {
        let value = ValueId(self.next_value);
        if self.next_value < usize::MAX {
            self.next_value = self.next_value + 1;
        }
        value
    }

    fn bump_label(&mut self)
        ensures
            final(self).state() == (LowerState { next_label: next_id(old(self).next_label), ..old(self).state() }),
            final(self).env() == old(self).env(),
            final(self).instructions@ == old(self).instructions@,
            final(self).program == old(self).program,
            final(self).next_label == if old(self).next_label < usize::MAX { old(self).next_label + 1 } else { old(self).next_label as int },
    {
        if self.next_label < usize::MAX {
            self.next_label = self.next_label + 1;
        }
    }

    /// `.L<prefix>_<n>`, a label that no earlier call returned.
    fn fresh_label(&mut self, prefix: &str) -> (r: String)
        ensures
            (r@, final(self).state()) == fresh_label_spec(old(self).state(), prefix@),
            final(self).env() == old(self).env(),
            final(self).instructions@ == old(self).instructions@,
            final(self).program == old(self).program,
            r@ == ".L"@ + prefix@ + "_"@ + crate::text::decimal(old(self).next_label as nat),
    {
        let mut label = join3(".L", prefix, "_");
        push_decimal(&mut label, self.next_label as u64);
        self.bump_label();
        label
    }

    /// `__geo_str_<function>_<n>`, the data label of the next string constant.
    fn fresh_string_label(&mut self) -> (r: String)
        ensures
            (r@, final(self).state()) == fresh_string_spec(old(self).env(), old(self).state()),
            final(self).env() == old(self).env(),
            final(self).instructions@ == old(self).instructions@,
            final(self).program == old(self).program,
            r@ == "__geo_str_"@ + old(self).function_name@ + "_"@ + crate::text::decimal(old(self).next_string as nat),
            final(self).next_string == if old(self).next_string < usize::MAX { old(self).next_string + 1 } else { old(self).next_string as int },
    {
        let mut label = join3("__geo_str_", self.function_name.as_str(), "_");
        push_decimal(&mut label, self.next_string as u64);
        if self.next_string < usize::MAX {
            self.next_string = self.next_string + 1;
        }
        label
    }

    /// A local named `<prefix><function>_<next label>`.
    fn scratch_local(&self, prefix: &str) -> (r: String)
        ensures
            r@ == prefix@ + self.function_name@ + "_"@ + crate::text::decimal(self.next_label as nat),
    {
        let mut name = join3(prefix, self.function_name.as_str(), "_");
        push_decimal(&mut name, self.next_label as u64);
        name
    }

    fn push(&mut self, instruction: Instruction)
        ensures
            final(self).state() == emit(old(self).state(), canon(instruction)),
            final(self).env() == old(self).env(),
            final(self).instructions@ == old(self).instructions@.push(instruction),
            final(self).program == old(self).program,
            final(self).next_value == old(self).next_value,
            final(self).array_lengths == old(self).array_lengths,
            final(self).budget == old(self).budget,
    {
        self.instructions.push(instruction);
        assert(canon_all(self.instructions@) =~= canon_all(old(self).instructions@).push(canon(instruction)));
    }

    fn lower_const_scalar(&mut self, value: i64) -> (r: ValueId)
        ensures
            (r, final(self).state()) == const_value(old(self).state(), value),
            final(self).env() == old(self).env(),
            r.0 == old(self).next_value,
            final(self).instructions@ == old(self).instructions@.push(Instruction::Const { dst: r, value }),
            final(self).program == old(self).program,
            final(self).array_lengths == old(self).array_lengths,
            final(self).next_value == if old(self).next_value < usize::MAX { old(self).next_value + 1 } else { old(self).next_value as int },
    {
        let dst = self.fresh();
        self.push(const_instruction(dst, value));
        dst
    }

    fn local_type(&self, name: &str) -> (r: Option<Type>)
        ensures
            r == local_type_spec(self.locals@, name@),
            r == local_type_of(locals_of(self.locals@), name@),
    {
        proof { lemma_local_type_of(self.locals@, name@); }
        let mut i = self.locals.len();
        assert(self.locals@.subrange(0, i as int) =~= self.locals@);
        while i > 0
            invariant
                i <= self.locals@.len(),
                local_type_spec(self.locals@, name@) == local_type_of(locals_of(self.locals@), name@),
                local_type_spec(self.locals@, name@) == local_type_spec(self.locals@.subrange(0, i as int), name@),
            decreases i,
        {
            assert(self.locals@.subrange(0, i - 1) =~= self.locals@.subrange(0, i as int).drop_last());
            i = i - 1;
            if str_eq(self.locals[i].0.as_str(), name) {
                return Some(self.locals[i].1.copy());
            }
        }
        None
    }

    fn has_local(&self, name: &str) -> (r: bool)
        ensures
            r == local_type_spec(self.locals@, name@) is Some,
            r == local_type_of(locals_of(self.locals@), name@) is Some,
    {
        proof { lemma_local_type_of(self.locals@, name@); }
        let mut i = self.locals.len();
        assert(self.locals@.subrange(0, i as int) =~= self.locals@);
        while i > 0
            invariant
                i <= self.locals@.len(),
                local_type_spec(self.locals@, name@) == local_type_of(locals_of(self.locals@), name@),
                local_type_spec(self.locals@, name@) == local_type_spec(self.locals@.subrange(0, i as int), name@),
            decreases i,
        {
            assert(self.locals@.subrange(0, i - 1) =~= self.locals@.subrange(0, i as int).drop_last());
            i = i - 1;
            if str_eq(self.locals[i].0.as_str(), name) {
                return true;
            }
        }
        false
    }

    fn insert_local(&mut self, name: &String, ty: Type)
        ensures
            final(self).state() == add_local(old(self).state(), name@, ty),
            final(self).env() == old(self).env(),
            final(self).locals@.len() == old(self).locals@.len() + 1,
            final(self).locals@.drop_last() == old(self).locals@,
            final(self).locals@.last().0@ == name@,
            final(self).locals@.last().1 == ty,
            final(self).instructions@ == old(self).instructions@,
            final(self).program == old(self).program,
            final(self).next_value == old(self).next_value,
    {
        let ghost t = ty;
        self.locals.push((name.clone(), ty));
        assert(locals_of(self.locals@) =~= locals_of(old(self).locals@).push((name@, t)));
    }

    /// The declaration of the named constant, the last one where names repeat.
    fn find_const(&self, name: &str) -> (r: Option<&'a crate::ast::ConstDecl>)
        ensures
            match last_const(self.program.consts@, name@) {
                Some(d) => r matches Some(e) && *e == d,
                None => r is None,
            },
    {
        let program: &'a Program = self.program;
        let mut i = program.consts.len();
        assert(program.consts@.subrange(0, i as int) =~= program.consts@);
        while i > 0
            invariant
                i <= program.consts@.len(),
                program == self.program,
                last_const(program.consts@, name@) == last_const(program.consts@.subrange(0, i as int), name@),
            decreases i,
        {
            assert(program.consts@.subrange(0, i - 1) =~= program.consts@.subrange(0, i as int).drop_last());
            i = i - 1;
            if str_eq(program.consts[i].name.as_str(), name) {
                return Some(&program.consts[i]);
            }
        }
        None
    }

    /// The declaration of the named struct, the last one where names repeat.
    fn find_struct(&self, name: &str) -> (r: Option<&'a StructDecl>)
        ensures
            match last_struct(self.program.structs@, name@) {
                Some(d) => r matches Some(e) && *e == d,
                None => r is None,
            },
    {
        let program: &'a Program = self.program;
        let mut i = program.structs.len();
        assert(program.structs@.subrange(0, i as int) =~= program.structs@);
        while i > 0
            invariant
                i <= program.structs@.len(),
                program == self.program,
                last_struct(program.structs@, name@) == last_struct(program.structs@.subrange(0, i as int), name@),
            decreases i,
        {
            assert(program.structs@.subrange(0, i - 1) =~= program.structs@.subrange(0, i as int).drop_last());
            i = i - 1;
            if str_eq(program.structs[i].name.as_str(), name) {
                return Some(&program.structs[i]);
            }
        }
        None
    }

    fn is_enum_name(&self, name: &str) -> (r: bool)
        ensures
            r == exists|k: int| 0 <= k < self.program.enums@.len() && #[trigger] self.program.enums@[k].name@ == name@,
    {
        let program: &'a Program = self.program;
        let mut i: usize = 0;
        while i < program.enums.len()
            invariant
                i <= program.enums@.len(),
                program == self.program,
                forall|k: int| 0 <= k < i ==> #[trigger] program.enums@[k].name@ != name@,
            decreases program.enums@.len() - i,
        {
            if str_eq(program.enums[i].name.as_str(), name) {
                return true;
            }
            i = i + 1;
        }
        false
    }

    /// The discriminant of `enum_name::variant`: its explicit value, or one more than the
    /// previous variant's (zero for the first).
    fn enum_discriminant(&self, enum_name: &str, variant: &str) -> (r: Option<i64>)
        ensures
            r == enum_discriminant_spec(self.program.enums@, enum_name@, variant@, self.program.enums@.len()),
    {
        let program: &'a Program = self.program;
        let mut found: Option<i64> = None;
        let mut i: usize = 0;
        while i < program.enums.len()
            invariant
                i <= program.enums@.len(),
                program == self.program,
                found == enum_discriminant_spec(program.enums@, enum_name@, variant@, i as nat),
            decreases program.enums@.len() - i,
        {
            let decl = &program.enums[i];
            let ghost before = found;
            let mut next: i64 = 0;
            let mut j: usize = 0;
            while j < decl.variants.len()
                invariant
                    j <= decl.variants@.len(),
                    decl == program.enums@[i as int],
                    before == enum_discriminant_spec(program.enums@, enum_name@, variant@, i as nat),
                    j == 0 ==> next == 0,
                    j > 0 ==> next == {
                        let p = variant_value(decl.variants@, (j - 1) as nat);
                        if p < i64::MAX { (p + 1) as i64 } else { i64::MIN }
                    },
                    found == if decl.name@ == enum_name@ && variant_discriminant(decl.variants@, variant@, j as nat) is Some {
                        variant_discriminant(decl.variants@, variant@, j as nat)
                    } else {
                        before
                    },
                decreases decl.variants@.len() - j,
            {
                let value = match decl.variants[j].value {
                    Some(v) => v,
                    None => next,
                };
                assert(value == variant_value(decl.variants@, j as nat));
                if str_eq(decl.name.as_str(), enum_name) && str_eq(decl.variants[j].name.as_str(), variant) {
                    found = Some(value);
                }
                next = if value < i64::MAX { value + 1 } else { i64::MIN };
                j = j + 1;
            }
            i = i + 1;
        }
        found
    }

    fn const_type(&self, name: &str) -> (r: Option<Type>)
        ensures
            r == match last_const(self.program.consts@, name@) { Some(d) => Some(d.ty), None => None },
    {
        match self.find_const(name) {
            Some(decl) => Some(decl.ty.copy()),
            None => None,
        }
    }

    /// The declared return type of a function of the program or an extern.
    fn function_return(&self, name: &str) -> (r: Option<Type>)
        ensures
            r == match last_function_return(self.program.functions@, name@) {
                Some(t) => Some(t),
                None => last_extern_return(self.program.externs@, name@),
            },
    {
        let program: &'a Program = self.program;
        let mut i = program.functions.len();
        assert(program.functions@.subrange(0, i as int) =~= program.functions@);
        while i > 0
            invariant
                i <= program.functions@.len(),
                program == self.program,
                last_function_return(program.functions@, name@) == last_function_return(program.functions@.subrange(0, i as int), name@),
            decreases i,
        {
            assert(program.functions@.subrange(0, i - 1) =~= program.functions@.subrange(0, i as int).drop_last());
            i = i - 1;
            if str_eq(program.functions[i].name.as_str(), name) {
                return Some(program.functions[i].return_type.copy());
            }
        }
        let mut e = program.externs.len();
        assert(program.externs@.subrange(0, e as int) =~= program.externs@);
        while e > 0
            invariant
                e <= program.externs@.len(),
                program == self.program,
                last_function_return(program.functions@, name@) is None,
                last_extern_return(program.externs@, name@) == last_extern_return(program.externs@.subrange(0, e as int), name@),
            decreases e,
        {
            assert(program.externs@.subrange(0, e - 1) =~= program.externs@.subrange(0, e as int).drop_last());
            e = e - 1;
            if str_eq(program.externs[e].name.as_str(), name) {
                return Some(program.externs[e].return_type.copy());
            }
        }
        None
    }

    fn array_length(&self, prefix: &str) -> (r: Option<usize>)
        ensures
            r == array_length_spec(self.array_lengths@, prefix@),
    {
        let mut i = self.array_lengths.len();
        assert(self.array_lengths@.subrange(0, i as int) =~= self.array_lengths@);
        while i > 0
            invariant
                i <= self.array_lengths@.len(),
                array_length_spec(self.array_lengths@, prefix@) == array_length_spec(self.array_lengths@.subrange(0, i as int), prefix@),
            decreases i,
        {
            assert(self.array_lengths@.subrange(0, i - 1) =~= self.array_lengths@.subrange(0, i as int).drop_last());
            i = i - 1;
            if str_eq(self.array_lengths[i].0.as_str(), prefix) {
                return Some(self.array_lengths[i].1);
            }
        }
        None
    }

    fn set_array_length(&mut self, prefix: &str, len: usize)
        ensures
            final(self).state() == (LowerState {
                array_lengths: old(self).state().array_lengths.push((prefix@, len)), ..old(self).state() }),
            final(self).env() == old(self).env(),
            final(self).array_lengths@.len() == old(self).array_lengths@.len() + 1,
            final(self).array_lengths@.drop_last() == old(self).array_lengths@,
            final(self).array_lengths@.last().0@ == prefix@,
            final(self).array_lengths@.last().1 == len,
            final(self).budget == old(self).budget,
            final(self).instructions@ == old(self).instructions@,
            final(self).program == old(self).program,
            final(self).next_value == old(self).next_value,
    {
        self.array_lengths.push((String::from_str(prefix), len));
        assert(lengths_view(self.array_lengths@) =~= lengths_view(old(self).array_lengths@).push((prefix@, len)));
    }

    /// Enters a loop with the given continue and break labels.
    fn push_loop(&mut self, continue_label: &String, break_label: &String)
        ensures
            final(self).state() == (LowerState {
                loop_stack: old(self).state().loop_stack.push((continue_label@, break_label@)), ..old(self).state() }),
            final(self).env() == old(self).env(),
    {
        self.loop_stack.push((continue_label.clone(), break_label.clone()));
        assert(loops_of(self.loop_stack@) =~= loops_of(old(self).loop_stack@).push((continue_label@, break_label@)));
    }

    /// Leaves the innermost loop.
    fn pop_loop(&mut self)
        ensures
            final(self).state() == (LowerState {
                loop_stack: pop_last(old(self).state().loop_stack), ..old(self).state() }),
            final(self).env() == old(self).env(),
    {
        if self.loop_stack.len() > 0 {
            self.loop_stack.pop();
            assert(loops_of(self.loop_stack@) =~= loops_of(old(self).loop_stack@).drop_last());
        }
    }
}

/// How many array types `ty` nests.
pub open spec fn array_depth(ty: Type) -> nat
    decreases ty,
{
    match ty {
        Type::Array(inner) => 1 + array_depth(*inner),
        _ => 0,
    }
}

/// `value` rounded up to a multiple of `align`; an alignment of one or less changes nothing.
pub open spec fn align_up(value: int, align: int) -> int {
    if align <= 1 { value } else { (value + align - 1) / align * align }
}

/// The alignment of a value of `ty`, with `fuel` levels of struct nesting resolved.
pub open spec fn type_align_spec(structs: Seq<StructDecl>, ty: Type, fuel: nat) -> i64
    decreases 2 * fuel + 1, array_depth(ty),
{
    match ty {
        Type::Unit | Type::Bool | Type::I8 | Type::U8 => 1,
        Type::I16 | Type::U16 => 2,
        Type::Char | Type::I32 | Type::U32 => 4,
        Type::Array(inner) => type_align_spec(structs, *inner, fuel),
        Type::Named(name) => match last_struct(structs, name@) {
            Some(decl) => fields_align(structs, decl.fields@, fuel, decl.fields@.len()),
            None => 8,
        },
        _ => 8,
    }
}

/// The largest alignment of the first `n` fields, one where there are none.
pub open spec fn fields_align(structs: Seq<StructDecl>, fields: Seq<Field>, fuel: nat, n: nat) -> i64
    decreases 2 * fuel, n,
{
    if n == 0 {
        1
    } else {
        let prev = fields_align(structs, fields, fuel, (n - 1) as nat);
        let a = if fuel == 0 { 8 } else { type_align_spec(structs, fields[n - 1].ty, (fuel - 1) as nat) };
        if a > prev { a } else { prev }
    }
}

/// The alignment a field is placed at.
pub open spec fn field_align_spec(structs: Seq<StructDecl>, field: Field, fuel: nat) -> i64 {
    if fuel == 0 { 8 } else { type_align_spec(structs, field.ty, (fuel - 1) as nat) }
}

/// The size of a value of `ty`, with `fuel` levels of struct nesting resolved.
pub open spec fn type_size_spec(structs: Seq<StructDecl>, ty: Type, fuel: nat) -> i64
    decreases 2 * fuel + 1, array_depth(ty),
{
    match ty {
        Type::Unit => 0,
        Type::Bool | Type::I8 | Type::U8 => 1,
        Type::I16 | Type::U16 => 2,
        Type::Char | Type::I32 | Type::U32 => 4,
        Type::Array(inner) => type_size_spec(structs, *inner, fuel),
        Type::Named(name) => match last_struct(structs, name@) {
            Some(decl) => struct_size_spec(structs, decl.fields@, fuel),
            None => 8,
        },
        _ => 8,
    }
}

/// The size of a struct: the end of its last field rounded up to its alignment, capped.
pub open spec fn struct_size_spec(structs: Seq<StructDecl>, fields: Seq<Field>, fuel: nat) -> i64
    decreases 2 * fuel, fields.len() + 1,
{
    let size = align_up(layout_end(structs, fields, fuel, fields.len()) as int, fields_align(structs, fields, fuel, fields.len()) as int);
    if size <= SIZE_CAP { size as i64 } else { SIZE_CAP }
}

/// The end of the first `n` fields laid out in order, each at the next multiple of its
/// alignment, capped.
pub open spec fn layout_end(structs: Seq<StructDecl>, fields: Seq<Field>, fuel: nat, n: nat) -> i64
    decreases 2 * fuel, n,
{
    if n == 0 {
        0
    } else {
        let prev = layout_end(structs, fields, fuel, (n - 1) as nat);
        let a = if fuel == 0 { 8 } else { type_align_spec(structs, fields[n - 1].ty, (fuel - 1) as nat) };
        let offset = align_up(prev as int, a as int);
        let size = if fuel == 0 { 8 } else { type_size_spec(structs, fields[n - 1].ty, (fuel - 1) as nat) };
        if offset + size <= SIZE_CAP { (offset + size) as i64 } else { SIZE_CAP }
    }
}

/// The offset of field `k`.
pub open spec fn field_offset_at(structs: Seq<StructDecl>, fields: Seq<Field>, fuel: nat, k: nat) -> i64 {
    align_up(layout_end(structs, fields, fuel, k) as int, field_align_spec(structs, fields[k as int], fuel) as int) as i64
}

/// The offset of the first field named `field` at or after field `k`; zero where there is
/// none.
pub open spec fn offset_search(structs: Seq<StructDecl>, fields: Seq<Field>, field: Seq<char>, fuel: nat, k: nat) -> i64
    decreases fields.len() - k,
{
    if k >= fields.len() {
        0
    } else if fields[k as int].name@ == field {
        let v = field_offset_at(structs, fields, fuel, k);
        if 0 <= v <= SIZE_CAP { v } else { 0 }
    } else {
        offset_search(structs, fields, field, fuel, k + 1)
    }
}

/// The offset of `field` in the struct type `ty`; zero where there is none.
pub open spec fn field_offset_spec(structs: Seq<StructDecl>, ty: Type, field: Seq<char>, fuel: nat) -> i64 {
    match ty {
        Type::Named(name) => match last_struct(structs, name@) {
            Some(decl) => offset_search(structs, decl.fields@, field, fuel, 0),
            None => 0,
        },
        _ => 0,
    }
}

impl<'a> LowerCtx<'a> {
    /// The fields of the named struct, if a struct has that name.
    fn struct_fields(&self, name: &str) -> (r: Option<&'a Vec<Field>>)
        ensures
            match last_struct(self.program.structs@, name@) {
                Some(d) => r matches Some(f) && *f == d.fields,
                None => r is None,
            },
    {
        match self.find_struct(name) {
            Some(decl) => Some(&decl.fields),
            None => None,
        }
    }

    /// The size in bytes of a value of `ty`.
    fn type_size(&self, ty: &Type, fuel: usize) -> (r: i64)
        ensures
            0 <= r <= SIZE_CAP,
            r == type_size_spec(self.program.structs@, *ty, fuel as nat),
        decreases 2 * fuel + 1, ty,
    {
        match ty {
            Type::Unit => 0,
            Type::Bool | Type::I8 | Type::U8 => 1,
            Type::I16 | Type::U16 => 2,
            Type::Char | Type::I32 | Type::U32 => 4,
            Type::Int | Type::String | Type::Usize | Type::I64 | Type::U64 | Type::Slice(_)
            | Type::Reference { .. } | Type::Pointer(_) => 8,
            Type::Array(inner) => self.type_size(inner, fuel),
            Type::Named(name) => {
                match self.find_struct(name.as_str()) {
                    Some(decl) => self.struct_layout(decl, fuel).0,
                    None => 8,
                }
            },
        }
    }

    /// The alignment in bytes of a value of `ty`.
    fn type_align(&self, ty: &Type, fuel: usize) -> (r: i64)
        ensures
            1 <= r <= 8,
            r == type_align_spec(self.program.structs@, *ty, fuel as nat),
        decreases 2 * fuel + 1, ty,
    {
        match ty {
            Type::Unit => 1,
            Type::Bool | Type::I8 | Type::U8 => 1,
            Type::I16 | Type::U16 => 2,
            Type::Char | Type::I32 | Type::U32 => 4,
            Type::Int | Type::String | Type::Usize | Type::I64 | Type::U64 | Type::Slice(_)
            | Type::Reference { .. } | Type::Pointer(_) => 8,
            Type::Array(inner) => self.type_align(inner, fuel),
            Type::Named(name) => {
                match self.find_struct(name.as_str()) {
                    Some(decl) => self.struct_align(decl, fuel),
                    None => 8,
                }
            },
        }
    }

    /// The largest alignment of a struct's fields, one for a struct without fields.
    fn struct_align(&self, decl: &StructDecl, fuel: usize) -> (r: i64)
        ensures
            1 <= r <= 8,
            r == fields_align(self.program.structs@, decl.fields@, fuel as nat, decl.fields@.len()),
        decreases 2 * fuel, decl,
    {
        let mut max_align: i64 = 1;
        let mut i: usize = 0;
        while i < decl.fields.len()
            invariant
                i <= decl.fields@.len(),
                1 <= max_align <= 8,
                max_align == fields_align(self.program.structs@, decl.fields@, fuel as nat, i as nat),
            decreases decl.fields@.len() - i,
        {
            let align = if fuel == 0 { 8 } else { self.type_align(&decl.fields[i].ty, fuel - 1) };
            if align > max_align {
                max_align = align;
            }
            i = i + 1;
        }
        max_align
    }

    /// The size of a struct and the offset of each field, each field placed at the next
    /// multiple of its alignment.
    fn struct_layout(&self, decl: &StructDecl, fuel: usize) -> (r: (i64, Vec<(String, i64)>))
        ensures
            0 <= r.0 <= SIZE_CAP,
            r.0 == struct_size_spec(self.program.structs@, decl.fields@, fuel as nat),
            r.1@.len() == decl.fields@.len(),
            forall|k: int| 0 <= k < decl.fields@.len() ==> (#[trigger] r.1@[k]).0@ == decl.fields@[k].name@
                && r.1@[k].1 == field_offset_at(self.program.structs@, decl.fields@, fuel as nat, k as nat),
        decreases 2 * fuel, decl,
    {
        let ghost structs = self.program.structs@;
        let mut offset: i64 = 0;
        let mut max_align: i64 = 1;
        let mut fields: Vec<(String, i64)> = Vec::new();
        let mut i: usize = 0;
        while i < decl.fields.len()
            invariant
                i <= decl.fields@.len(),
                structs == self.program.structs@,
                1 <= max_align <= 8,
                0 <= offset <= SIZE_CAP,
                max_align == fields_align(structs, decl.fields@, fuel as nat, i as nat),
                offset == layout_end(structs, decl.fields@, fuel as nat, i as nat),
                fields@.len() == i,
                forall|k: int| 0 <= k < i ==> (#[trigger] fields@[k]).0@ == decl.fields@[k].name@
                    && fields@[k].1 == field_offset_at(structs, decl.fields@, fuel as nat, k as nat),
            decreases decl.fields@.len() - i,
        {
            let field = &decl.fields[i];
            let align = if fuel == 0 { 8 } else { self.type_align(&field.ty, fuel - 1) };
            if align > max_align {
                max_align = align;
            }
            offset = align_to_i64(offset, align);
            fields.push((field.name.clone(), offset));
            let size = if fuel == 0 { 8 } else { self.type_size(&field.ty, fuel - 1) };
            offset = if offset + size <= SIZE_CAP { offset + size } else { SIZE_CAP };
            i = i + 1;
        }
        let size = align_to_i64(offset, max_align);
        (if size <= SIZE_CAP { size } else { SIZE_CAP }, fields)
    }

    /// The offset of a field of a struct type; zero where there is none.
    fn field_offset(&self, ty: &Type, field: &str, fuel: usize) -> (r: i64)
        ensures
            0 <= r <= SIZE_CAP,
            r == field_offset_spec(self.program.structs@, *ty, field@, fuel as nat),
    {
        let name = match ty {
            Type::Named(name) => name,
            _ => { return 0; },
        };
        let decl = match self.find_struct(name.as_str()) {
            Some(decl) => decl,
            None => { return 0; },
        };
        let (_, offsets) = self.struct_layout(decl, fuel);
        let ghost structs = self.program.structs@;
        let mut i: usize = 0;
        while i < offsets.len()
            invariant
                i <= offsets@.len(),
                structs == self.program.structs@,
                offsets@.len() == decl.fields@.len(),
                forall|k: int| 0 <= k < decl.fields@.len() ==> (#[trigger] offsets@[k]).0@ == decl.fields@[k].name@
                    && offsets@[k].1 == field_offset_at(structs, decl.fields@, fuel as nat, k as nat),
                field_offset_spec(structs, *ty, field@, fuel as nat) == offset_search(structs, decl.fields@, field@, fuel as nat, i as nat),
            decreases offsets@.len() - i,
        {
            if str_eq(offsets[i].0.as_str(), field) {
                let v = offsets[i].1;
                assert(decl.fields@[i as int].name@ == field@);
                assert(v == field_offset_at(structs, decl.fields@, fuel as nat, i as nat));
                return if 0 <= v && v <= SIZE_CAP { v } else { 0 };
            }
            i = i + 1;
        }
        0
    }

    fn pointer_scale(&self, inner: &Type) -> (r: i64)
        ensures
            1 <= r <= SIZE_CAP,
            r == if type_size_spec(self.program.structs@, *inner, self.budget as nat) < 1 { 1 } else { type_size_spec(self.program.structs@, *inner, self.budget as nat) },
    {
        let size = self.type_size(inner, self.budget);
        if size < 1 { 1 } else { size }
    }

    fn is_aggregate_type(&self, ty: &Type) -> (r: bool)
        ensures
            r == match *ty {
                Type::Named(name) => last_struct(self.program.structs@, name@) is Some,
                Type::Array(_) => true,
                _ => false,
            },
    {
        match ty {
            Type::Named(name) => self.find_struct(name.as_str()).is_some(),
            Type::Array(_) => true,
            _ => false,
        }
    }
}

/// `prefix[index]` for a signed index, as an index expression names an element slot.
fn signed_index_slot(prefix: &str, index: i64) -> (r: String)
    ensures
        r@ == prefix@ + "["@ + crate::text::signed_decimal(index as int) + "]"@,
{
    let mut s = join2(prefix, "[");
    crate::text::push_signed_decimal(&mut s, index);
    s.append("]");
    s
}

fn bool_value(b: bool) -> (r: i64)
    ensures
        r == if b { 1i64 } else { 0i64 },
{
    if b { 1 } else { 0 }
}

fn contains_name(names: &Vec<String>, name: &str) -> (r: bool)
    ensures
        r == exists|k: int| 0 <= k < names@.len() && #[trigger] names@[k]@ == name@,
{
    let mut i: usize = 0;
    while i < names.len()
        invariant
            i <= names@.len(),
            forall|k: int| 0 <= k < i ==> #[trigger] names@[k]@ != name@,
        decreases names@.len() - i,
    {
        if str_eq(names[i].as_str(), name) {
            return true;
        }
        i = i + 1;
    }
    false
}

/// The type of the first field named `name` at or after field `k`.
pub open spec fn field_type_search(fields: Seq<Field>, name: Seq<char>, k: nat) -> Option<Type>
    decreases fields.len() - k,
{
    if k >= fields.len() {
        None
    } else if fields[k as int].name@ == name {
        Some(fields[k as int].ty)
    } else {
        field_type_search(fields, name, k + 1)
    }
}

/// The width of a load or store of a value of the given size: clamped to 1..=8.
pub open spec fn deref_width(size: i64) -> u8 {
    if size < 1 { 1 } else if size > 8 { 8 } else { size as u8 }
}

/// The locals by name.
pub open spec fn locals_of(locals: Seq<(String, Type)>) -> Seq<(Seq<char>, Type)> {
    locals.map_values(|e: (String, Type)| (e.0@, e.1))
}

/// The type of the last local named `name`.
pub open spec fn local_type_of(locals: Seq<(Seq<char>, Type)>, name: Seq<char>) -> Option<Type>
    decreases locals.len(),
{
    if locals.len() == 0 {
        None
    } else if locals.last().0 == name {
        Some(locals.last().1)
    } else {
        local_type_of(locals.drop_last(), name)
    }
}

proof fn lemma_local_type_of(locals: Seq<(String, Type)>, name: Seq<char>)
    ensures
        local_type_spec(locals, name) == local_type_of(locals_of(locals), name),
    decreases locals.len(),
{
    if locals.len() > 0 {
        assert(locals_of(locals).drop_last() =~= locals_of(locals.drop_last()));
        lemma_local_type_of(locals.drop_last(), name);
    }
}

/// The static type of an expression, where lowering can tell it.
pub open spec fn expr_type_in(program: Program, locals: Seq<(Seq<char>, Type)>, expr: Expr) -> Option<Type>
    decreases expr,
{
    match expr {
        Expr::Int(_) => Some(Type::Int),
        Expr::TypedInt { ty, .. } => Some(ty),
        Expr::Bool(_) => Some(Type::Bool),
        Expr::Char(_) => Some(Type::Char),
        Expr::String(_) => Some(Type::String),
        Expr::Null => None,
        Expr::Var(name) => match local_type_of(locals, name@) {
            Some(t) => Some(t),
            None => if exists|k: int| 0 <= k < program.enums@.len() && #[trigger] program.enums@[k].name@ == name@ {
                Some(Type::Named(name))
            } else {
                match last_const(program.consts@, name@) {
                    Some(d) => Some(d.ty),
                    None => None,
                }
            },
        },
        Expr::Unary { op, expr: inner } => match op {
            UnaryOp::AddressOf | UnaryOp::MutableAddressOf => match expr_type_in(program, locals, *inner) {
                Some(t) => Some(Type::Reference { mutable: op is MutableAddressOf, inner: Box::new(t) }),
                None => None,
            },
            UnaryOp::Deref => match expr_type_in(program, locals, *inner) {
                Some(Type::Pointer(t)) => Some(*t),
                Some(Type::Reference { inner: t, .. }) => Some(*t),
                _ => None,
            },
            _ => expr_type_in(program, locals, *inner),
        },
        Expr::Cast { ty, .. } => Some(ty),
        Expr::SizeOf(_) => Some(Type::Usize),
        Expr::AlignOf(_) => Some(Type::Usize),
        Expr::OffsetOf { .. } => Some(Type::Usize),
        Expr::Binary { left, .. } => expr_type_in(program, locals, *left),
        Expr::Call { name, .. } => match last_function_return(program.functions@, name@) {
            Some(t) => Some(t),
            None => last_extern_return(program.externs@, name@),
        },
        Expr::Struct { name, .. } => Some(Type::Named(name)),
        Expr::Array(values) => if values@.len() == 0 {
            None
        } else {
            match expr_type_in(program, locals, values@[0]) {
                Some(t) => Some(Type::Array(Box::new(t))),
                None => None,
            }
        },
        Expr::Field { base, name } => {
            if *base matches Expr::Var(enum_name) && enum_discriminant_spec(program.enums@, enum_name@, name@, program.enums@.len()) is Some {
                Some(Type::Named(base->Var_0))
            } else {
                match expr_type_in(program, locals, *base) {
                    Some(Type::Named(n)) => match last_struct(program.structs@, n@) {
                        Some(d) => field_type_search(d.fields@, name@, 0),
                        None => None,
                    },
                    _ => None,
                }
            }
        },
        Expr::Index { base, .. } => match expr_type_in(program, locals, *base) {
            Some(Type::Array(t)) => Some(*t),
            Some(Type::Slice(t)) => Some(*t),
            Some(Type::String) => Some(Type::Char),
            _ => None,
        },
        Expr::Match { arms, .. } => if arms@.len() == 0 { None } else { expr_type_in(program, locals, arms@[0].value) },
        Expr::If { then_value, .. } => expr_type_in(program, locals, *then_value),
        Expr::Block { value, .. } => expr_type_in(program, locals, *value),
    }
}


/// Whether `name` refers to a constant here: no local shadows it and a constant has it.
pub open spec fn names_const_in(program: Program, locals: Seq<(Seq<char>, Type)>, name: Seq<char>) -> bool {
    local_type_of(locals, name) is None && last_const(program.consts@, name) is Some
}

/// Whether the expression names a constant that no local shadows.
pub open spec fn refs_const_in(program: Program, locals: Seq<(Seq<char>, Type)>, expr: Expr) -> bool
    decreases expr, 0int,
{
    match expr {
        Expr::Var(name) => names_const_in(program, locals, name@),
        Expr::Unary { expr: inner, .. } => refs_const_in(program, locals, *inner),
        Expr::Cast { expr: inner, .. } => refs_const_in(program, locals, *inner),
        Expr::Binary { left, right, .. } => refs_const_in(program, locals, *left) || refs_const_in(program, locals, *right),
        Expr::Call { args, .. } => exprs_ref_const_in(program, locals, args, 0),
        Expr::Array(args) => exprs_ref_const_in(program, locals, args, 0),
        Expr::Struct { fields, .. } => fields_ref_const_in(program, locals, fields, 0),
        Expr::Field { base, .. } => refs_const_in(program, locals, *base),
        Expr::Index { base, index } => refs_const_in(program, locals, *base) || refs_const_in(program, locals, *index),
        Expr::Match { value, arms } => refs_const_in(program, locals, *value) || arms_ref_const_in(program, locals, arms, 0),
        Expr::If { condition, then_value, else_value } =>
            refs_const_in(program, locals, *condition) || refs_const_in(program, locals, *then_value) || refs_const_in(program, locals, *else_value),
        Expr::Block { statements, value } => stmts_ref_const_in(program, locals, statements, 0) || refs_const_in(program, locals, *value),
        _ => false,
    }
}

/// Whether one of the expressions from index `k` on names a constant.
pub open spec fn exprs_ref_const_in(program: Program, locals: Seq<(Seq<char>, Type)>, exprs: Vec<Expr>, k: nat) -> bool
    decreases exprs, exprs@.len() - k,
{
    if k >= exprs@.len() {
        false
    } else {
        refs_const_in(program, locals, exprs@[k as int]) || exprs_ref_const_in(program, locals, exprs, k + 1)
    }
}

/// Whether one of the field values from index `k` on names a constant.
pub open spec fn fields_ref_const_in(program: Program, locals: Seq<(Seq<char>, Type)>, fields: Vec<(String, Expr)>, k: nat) -> bool
    decreases fields, fields@.len() - k,
{
    if k >= fields@.len() {
        false
    } else {
        refs_const_in(program, locals, fields@[k as int].1) || fields_ref_const_in(program, locals, fields, k + 1)
    }
}

/// Whether one of the arm values from index `k` on names a constant.
pub open spec fn arms_ref_const_in(program: Program, locals: Seq<(Seq<char>, Type)>, arms: Vec<crate::ast::MatchArm>, k: nat) -> bool
    decreases arms, arms@.len() - k,
{
    if k >= arms@.len() {
        false
    } else {
        refs_const_in(program, locals, arms@[k as int].value) || arms_ref_const_in(program, locals, arms, k + 1)
    }
}

/// Whether one of the statements from index `k` on names a constant.
pub open spec fn stmts_ref_const_in(program: Program, locals: Seq<(Seq<char>, Type)>, stmts: Vec<Stmt>, k: nat) -> bool
    decreases stmts, stmts@.len() - k,
{
    if k >= stmts@.len() {
        false
    } else {
        stmt_refs_const_in(program, locals, stmts@[k as int]) || stmts_ref_const_in(program, locals, stmts, k + 1)
    }
}

/// Whether the statement names a constant that no local shadows.
pub open spec fn stmt_refs_const_in(program: Program, locals: Seq<(Seq<char>, Type)>, stmt: Stmt) -> bool
    decreases stmt, 0int,
{
    match stmt {
        Stmt::Let { value, .. } => refs_const_in(program, locals, value),
        Stmt::Assign { value, .. } => refs_const_in(program, locals, value),
        Stmt::PointerAssign { value, .. } => refs_const_in(program, locals, value),
        Stmt::PlaceAssign { value, .. } => refs_const_in(program, locals, value),
        Stmt::Expr(value) => refs_const_in(program, locals, value),
        Stmt::Return(Some(value)) => refs_const_in(program, locals, value),
        Stmt::If { condition, then_body, else_body } =>
            refs_const_in(program, locals, condition) || stmts_ref_const_in(program, locals, then_body, 0) || stmts_ref_const_in(program, locals, else_body, 0),
        Stmt::While { condition, body } => refs_const_in(program, locals, condition) || stmts_ref_const_in(program, locals, body, 0),
        Stmt::For { start, end, body, .. } =>
            refs_const_in(program, locals, start) || refs_const_in(program, locals, end) || stmts_ref_const_in(program, locals, body, 0),
        Stmt::Unsafe(body) => stmts_ref_const_in(program, locals, body, 0),
        Stmt::Loop(body) => stmts_ref_const_in(program, locals, body, 0),
        _ => false,
    }
}


/// The value a constant expression folds to, with the constants in `visiting` being
/// expanded and `fuel` more expansions allowed.
pub open spec fn const_value_in(program: Program, locals: Seq<(Seq<char>, Type)>, budget: usize, expr: Expr, visiting: Seq<String>, fuel: nat) -> Option<i64>
    decreases fuel, expr,
{
    match expr {
        Expr::Int(value) => Some(value),
        Expr::TypedInt { value, .. } => Some(value),
        Expr::Bool(value) => Some(if value { 1i64 } else { 0i64 }),
        Expr::Char(value) => Some((value as u32) as i64),
        Expr::Null => Some(0),
        Expr::Var(name) => {
            if local_type_of(locals, name@) is Some {
                None
            } else if exists|k: int| 0 <= k < visiting.len() && #[trigger] visiting[k]@ == name@ {
                None
            } else {
                match last_const(program.consts@, name@) {
                    Some(decl) => if fuel == 0 {
                        None
                    } else {
                        const_value_in(program, locals, budget, decl.value, visiting.push(name), (fuel - 1) as nat)
                    },
                    None => None,
                }
            }
        },
        Expr::Unary { op, expr: inner } => match const_value_in(program, locals, budget, *inner, visiting, fuel) {
            Some(v) => match op {
                UnaryOp::Neg => 0i64.checked_sub(v),
                UnaryOp::Not => Some(if v == 0 { 1i64 } else { 0i64 }),
                UnaryOp::BitNot => Some(!v),
                _ => None,
            },
            None => None,
        },
        Expr::Binary { op, left, right } => match (const_value_in(program, locals, budget, *left, visiting, fuel), const_value_in(program, locals, budget, *right, visiting, fuel)) {
            (Some(l), Some(r)) => fold_binary_spec(op, l, r),
            _ => None,
        },
        Expr::Cast { expr: inner, .. } => const_value_in(program, locals, budget, *inner, visiting, fuel),
        Expr::SizeOf(ty) => Some(type_size_spec(program.structs@, ty, budget as nat)),
        Expr::AlignOf(ty) => Some(type_align_spec(program.structs@, ty, budget as nat)),
        Expr::OffsetOf { ty, field } => Some(field_offset_spec(program.structs@, ty, field@, budget as nat)),
        _ => None,
    }
}


/// The value a match pattern compares against: an integer, a boolean as 0 or 1, or an
/// enum variant's discriminant (zero for an unknown variant); none for the wildcard.
pub open spec fn pattern_value_in(program: Program, pattern: MatchPattern) -> Option<i64> {
    match pattern {
        MatchPattern::Wildcard => None,
        MatchPattern::Int(v) => Some(v),
        MatchPattern::Bool(b) => Some(if b { 1i64 } else { 0i64 }),
        MatchPattern::EnumVariant { enum_name, variant } =>
            match enum_discriminant_spec(program.enums@, enum_name@, variant@, program.enums@.len()) {
                Some(v) => Some(v),
                None => Some(0i64),
            },
    }
}


impl<'a> LowerCtx<'a> {
    /// The static type of an expression, where lowering can tell it.
    pub open spec fn expr_type_spec(self, expr: Expr) -> Option<Type> {
        expr_type_in(*self.program, locals_of(self.locals@), expr)
    }

    /// The static type of an expression, where lowering can tell it.
    fn expr_type(&self, expr: &Expr) -> (r: Option<Type>)
        ensures
            r == self.expr_type_spec(*expr),
        decreases expr,
    {
        match expr {
            Expr::Int(_) => Some(Type::Int),
            Expr::TypedInt { ty, .. } => Some(ty.copy()),
            Expr::Bool(_) => Some(Type::Bool),
            Expr::Char(_) => Some(Type::Char),
            Expr::String(_) => Some(Type::String),
            Expr::Null => None,
            Expr::Var(name) => {
                match self.local_type(name.as_str()) {
                    Some(t) => Some(t),
                    None => {
                        if self.is_enum_name(name.as_str()) {
                            Some(Type::Named(name.clone()))
                        } else {
                            self.const_type(name.as_str())
                        }
                    },
                }
            },
            Expr::Unary { op, expr: inner } => match op {
                UnaryOp::AddressOf | UnaryOp::MutableAddressOf => {
                    match self.expr_type(inner) {
                        Some(t) => Some(Type::Reference { mutable: matches!(op, UnaryOp::MutableAddressOf), inner: Box::new(t) }),
                        None => None,
                    }
                },
                UnaryOp::Deref => match self.expr_type(inner) {
                    Some(Type::Pointer(t)) => Some(*t),
                    Some(Type::Reference { inner: t, .. }) => Some(*t),
                    _ => None,
                },
                UnaryOp::Neg | UnaryOp::Not | UnaryOp::BitNot => self.expr_type(inner),
            },
            Expr::Cast { ty, .. } => Some(ty.copy()),
            Expr::SizeOf(_) => Some(Type::Usize),
            Expr::AlignOf(_) => Some(Type::Usize),
            Expr::OffsetOf { .. } => Some(Type::Usize),
            Expr::Binary { left, .. } => self.expr_type(left),
            Expr::Call { name, .. } => self.function_return(name.as_str()),
            Expr::Struct { name, .. } => Some(Type::Named(name.clone())),
            Expr::Array(values) => {
                if values.len() == 0 {
                    None
                } else {
                    match self.expr_type(&values[0]) {
                        Some(t) => Some(Type::Array(Box::new(t))),
                        None => None,
                    }
                }
            },
            Expr::Field { base, name } => {
                if let Expr::Var(enum_name) = &**base {
                    if self.enum_discriminant(enum_name.as_str(), name.as_str()).is_some() {
                        return Some(Type::Named(enum_name.clone()));
                    }
                }
                let struct_name = match self.expr_type(base) {
                    Some(Type::Named(n)) => n,
                    _ => { return None; },
                };
                let fields = match self.struct_fields(struct_name.as_str()) {
                    Some(fields) => fields,
                    None => { return None; },
                };
                let mut i: usize = 0;
                while i < fields.len()
                    invariant
                        i <= fields@.len(),
                        self.expr_type_spec(*expr) == field_type_search(fields@, name@, i as nat),
                    decreases fields@.len() - i,
                {
                    if str_eq(fields[i].name.as_str(), name.as_str()) {
                        return Some(fields[i].ty.copy());
                    }
                    i = i + 1;
                }
                None
            },
            Expr::Index { base, .. } => match self.expr_type(base) {
                Some(Type::Array(t)) => Some(*t),
                Some(Type::Slice(t)) => Some(*t),
                Some(Type::String) => Some(Type::Char),
                _ => None,
            },
            Expr::Match { arms, .. } => {
                if arms.len() == 0 {
                    None
                } else {
                    self.expr_type(&arms[0].value)
                }
            },
            Expr::If { then_value, .. } => self.expr_type(then_value),
            Expr::Block { value, .. } => self.expr_type(value),
        }
    }

    /// Whether the expression names a constant that is not shadowed by a local.
    fn contains_const_ref(&self, expr: &Expr) -> (r: bool)
        ensures
            r == refs_const_in(*self.program, locals_of(self.locals@), *expr),
        decreases expr,
    {
        match expr {
            Expr::Var(name) => !self.has_local(name.as_str()) && self.find_const(name.as_str()).is_some(),
            Expr::Unary { expr: inner, .. } => self.contains_const_ref(inner),
            Expr::Cast { expr: inner, .. } => self.contains_const_ref(inner),
            Expr::Binary { left, right, .. } => self.contains_const_ref(left) || self.contains_const_ref(right),
            Expr::Call { args, .. } | Expr::Array(args) => self.exprs_contain_const_ref(args),
            Expr::Struct { fields, .. } => self.fields_contain_const_ref(fields),
            Expr::Field { base, .. } => self.contains_const_ref(base),
            Expr::Index { base, index } => self.contains_const_ref(base) || self.contains_const_ref(index),
            Expr::Match { value, arms } => self.contains_const_ref(value) || self.arms_contain_const_ref(arms),
            Expr::If { condition, then_value, else_value } => {
                self.contains_const_ref(condition) || self.contains_const_ref(then_value) || self.contains_const_ref(else_value)
            },
            Expr::Block { statements, value } => self.stmts_contain_const_ref(statements) || self.contains_const_ref(value),
            Expr::Int(_) | Expr::TypedInt { .. } | Expr::Bool(_) | Expr::Char(_) | Expr::String(_) | Expr::Null
            | Expr::SizeOf(_) | Expr::AlignOf(_) | Expr::OffsetOf { .. } => false,
        }
    }

    fn exprs_contain_const_ref(&self, exprs: &Vec<Expr>) -> (r: bool)
        ensures
            r == exprs_ref_const_in(*self.program, locals_of(self.locals@), *exprs, 0),
        decreases exprs,
    {
        let mut i: usize = 0;
        while i < exprs.len()
            invariant
                i <= exprs@.len(),
                exprs_ref_const_in(*self.program, locals_of(self.locals@), *exprs, 0) == exprs_ref_const_in(*self.program, locals_of(self.locals@), *exprs, i as nat),
            decreases exprs@.len() - i,
        {
            if self.contains_const_ref(&exprs[i]) {
                return true;
            }
            i = i + 1;
        }
        false
    }

    fn fields_contain_const_ref(&self, fields: &Vec<(String, Expr)>) -> (r: bool)
        ensures
            r == fields_ref_const_in(*self.program, locals_of(self.locals@), *fields, 0),
        decreases fields,
    {
        let mut i: usize = 0;
        while i < fields.len()
            invariant
                i <= fields@.len(),
                fields_ref_const_in(*self.program, locals_of(self.locals@), *fields, 0) == fields_ref_const_in(*self.program, locals_of(self.locals@), *fields, i as nat),
            decreases fields@.len() - i,
        {
            if self.contains_const_ref(&fields[i].1) {
                return true;
            }
            i = i + 1;
        }
        false
    }

    fn arms_contain_const_ref(&self, arms: &Vec<crate::ast::MatchArm>) -> (r: bool)
        ensures
            r == arms_ref_const_in(*self.program, locals_of(self.locals@), *arms, 0),
        decreases arms,
    {
        let mut i: usize = 0;
        while i < arms.len()
            invariant
                i <= arms@.len(),
                arms_ref_const_in(*self.program, locals_of(self.locals@), *arms, 0) == arms_ref_const_in(*self.program, locals_of(self.locals@), *arms, i as nat),
            decreases arms@.len() - i,
        {
            if self.contains_const_ref(&arms[i].value) {
                return true;
            }
            i = i + 1;
        }
        false
    }

    fn stmts_contain_const_ref(&self, stmts: &Vec<Stmt>) -> (r: bool)
        ensures
            r == stmts_ref_const_in(*self.program, locals_of(self.locals@), *stmts, 0),
        decreases stmts,
    {
        let mut i: usize = 0;
        while i < stmts.len()
            invariant
                i <= stmts@.len(),
                stmts_ref_const_in(*self.program, locals_of(self.locals@), *stmts, 0) == stmts_ref_const_in(*self.program, locals_of(self.locals@), *stmts, i as nat),
            decreases stmts@.len() - i,
        {
            if self.stmt_contains_const_ref(&stmts[i]) {
                return true;
            }
            i = i + 1;
        }
        false
    }

    fn stmt_contains_const_ref(&self, stmt: &Stmt) -> (r: bool)
        ensures
            r == stmt_refs_const_in(*self.program, locals_of(self.locals@), *stmt),
        decreases stmt,
    {
        match stmt {
            Stmt::Let { value, .. } | Stmt::Assign { value, .. } | Stmt::PointerAssign { value, .. }
            | Stmt::PlaceAssign { value, .. } | Stmt::Expr(value) => self.contains_const_ref(value),
            Stmt::Return(Some(value)) => self.contains_const_ref(value),
            Stmt::If { condition, then_body, else_body } => {
                self.contains_const_ref(condition) || self.stmts_contain_const_ref(then_body)
                    || self.stmts_contain_const_ref(else_body)
            },
            Stmt::While { condition, body } => self.contains_const_ref(condition) || self.stmts_contain_const_ref(body),
            Stmt::For { start, end, body, .. } => {
                self.contains_const_ref(start) || self.contains_const_ref(end) || self.stmts_contain_const_ref(body)
            },
            Stmt::Unsafe(body) | Stmt::Loop(body) => self.stmts_contain_const_ref(body),
            Stmt::Return(None) | Stmt::Break | Stmt::Continue => false,
        }
    }

    /// The value of a constant expression, if it folds to an integer. A constant that refers
    /// back to itself, or arithmetic that leaves the 64-bit range, does not fold.
    fn const_scalar_value_inner(&self, expr: &Expr, visiting: &mut Vec<String>, fuel: usize) -> (r: Option<i64>)
        ensures
            final(visiting)@ == old(visiting)@,
            r == const_value_in(*self.program, locals_of(self.locals@), self.budget, *expr, old(visiting)@, fuel as nat),
        decreases fuel, expr,
    {
        match expr {
            Expr::Int(value) => Some(*value),
            Expr::TypedInt { value, .. } => Some(*value),
            Expr::Bool(value) => Some(bool_value(*value)),
            Expr::Char(value) => Some((*value as u32) as i64),
            Expr::Null => Some(0),
            Expr::Var(name) => {
                if self.has_local(name.as_str()) {
                    return None;
                }
                if contains_name(visiting, name.as_str()) {
                    return None;
                }
                let decl = match self.find_const(name.as_str()) {
                    Some(decl) => decl,
                    None => { return None; },
                };
                if fuel == 0 {
                    return None;
                }
                visiting.push(name.clone());
                let value = self.const_scalar_value_inner(&decl.value, visiting, fuel - 1);
                visiting.pop();
                value
            },
            Expr::Unary { op, expr: inner } => {
                let value = match self.const_scalar_value_inner(inner, visiting, fuel) {
                    Some(v) => v,
                    None => { return None; },
                };
                match op {
                    UnaryOp::Neg => 0i64.checked_sub(value),
                    UnaryOp::Not => Some(bool_value(value == 0)),
                    UnaryOp::BitNot => Some(!value),
                    UnaryOp::AddressOf | UnaryOp::MutableAddressOf | UnaryOp::Deref => None,
                }
            },
            Expr::Binary { op, left, right } => {
                let l = match self.const_scalar_value_inner(left, visiting, fuel) {
                    Some(v) => v,
                    None => { return None; },
                };
                let r = match self.const_scalar_value_inner(right, visiting, fuel) {
                    Some(v) => v,
                    None => { return None; },
                };
                fold_binary(*op, l, r)
            },
            Expr::Cast { expr: inner, .. } => self.const_scalar_value_inner(inner, visiting, fuel),
            Expr::SizeOf(ty) => Some(self.type_size(ty, self.budget)),
            Expr::AlignOf(ty) => Some(self.type_align(ty, self.budget)),
            Expr::OffsetOf { ty, field } => Some(self.field_offset(ty, field.as_str(), self.budget)),
            _ => None,
        }
    }

    fn const_scalar_value(&self, expr: &Expr) -> (r: Option<i64>)
        ensures
            r == const_value_in(*self.program, locals_of(self.locals@), self.budget, *expr, Seq::empty(), self.budget as nat),
    {
        let mut visiting: Vec<String> = Vec::new();
        self.const_scalar_value_inner(expr, &mut visiting, self.budget)
    }

    /// The width in bytes that a load or store through `expr` moves: the pointee's size
    /// clamped to 1..=8, and 8 where the pointee is unknown.
    fn pointer_deref_width(&self, expr: &Expr) -> (r: u8)
        ensures
            1 <= r <= 8,
            r == match self.expr_type_spec(*expr) {
                Some(Type::Pointer(t)) => deref_width(type_size_spec(self.program.structs@, *t, self.budget as nat)),
                Some(Type::Reference { inner: t, .. }) => deref_width(type_size_spec(self.program.structs@, *t, self.budget as nat)),
                _ => 8u8,
            },
    {
        let inner = match self.expr_type(expr) {
            Some(Type::Pointer(t)) => t,
            Some(Type::Reference { inner: t, .. }) => t,
            _ => { return 8; },
        };
        let size = self.type_size(&inner, self.budget);
        if size < 1 { 1 } else if size > 8 { 8 } else { size as u8 }
    }

    fn let_type(&self, annotated: &Option<Type>, value: &Expr) -> (r: Option<Type>)
        ensures
            r == match *annotated {
                Some(t) => Some(t),
                None => self.expr_type_spec(*value),
            },
    {
        match annotated {
            Some(t) => Some(t.copy()),
            None => self.expr_type(value),
        }
    }

    fn scale_value(&mut self, value: ValueId, scale: i64) -> (r: ValueId)
        ensures
            (r, final(self).state()) == scale_spec(old(self).state(), value, scale),
            final(self).env() == old(self).env(),
            final(self).program == old(self).program,
            scale == 1 ==> r == value && final(self).instructions@ == old(self).instructions@,
            scale != 1 ==> r.0 == (if old(self).next_value < usize::MAX { old(self).next_value + 1 } else { old(self).next_value as int })
                && final(self).instructions@ == old(self).instructions@
                    .push(Instruction::Const { dst: ValueId(old(self).next_value), value: scale })
                    .push(Instruction::Mul { dst: r, left: value, right: ValueId(old(self).next_value) }),
    {
        if scale == 1 {
            return value;
        }
        let scale_value = self.fresh();
        self.push(const_instruction(scale_value, scale));
        let dst = self.fresh();
        self.push(Instruction::Mul { dst, left: value, right: scale_value });
        dst
    }

    fn lower_match_pattern_value(&mut self, pattern: &MatchPattern) -> (r: Option<ValueId>)
        ensures
            (r, final(self).state()) == pattern_spec(old(self).env(), old(self).state(), *pattern),
            final(self).env() == old(self).env(),
            final(self).program == old(self).program,
            match pattern_value_in(*old(self).program, *pattern) {
                None => r is None && final(self).instructions@ == old(self).instructions@,
                Some(v) => r == Some(ValueId(old(self).next_value))
                    && final(self).instructions@ == old(self).instructions@.push(Instruction::Const { dst: ValueId(old(self).next_value), value: v }),
            },
    {
        let value = match pattern {
            MatchPattern::Wildcard => { return None; },
            MatchPattern::Int(v) => *v,
            MatchPattern::Bool(b) => bool_value(*b),
            MatchPattern::EnumVariant { enum_name, variant } => {
                match self.enum_discriminant(enum_name.as_str(), variant.as_str()) {
                    Some(v) => v,
                    None => 0,
                }
            },
        };
        let dst = self.fresh();
        self.push(const_instruction(dst, value));
        Some(dst)
    }

    /// The slot name of a place expression: a local, a field of a place, or a place
    /// indexed by an integer literal (with a bounds check where the array's length is known).
    fn aggregate_place(&mut self, expr: &Expr) -> (r: Option<String>)
        ensures
            (match r { Some(t) => Some(t@), None => None }, final(self).state()) == place_state(old(self).state(), *expr),
            final(self).env() == old(self).env(),
            ({
                let (slot, code, n) = place_spec(lengths_view(old(self).array_lengths@), *expr, old(self).next_value);
                &&& match r { Some(t) => slot == Some(t@), None => slot is None }
                &&& final(self).instructions@ == old(self).instructions@ + code
                &&& final(self).next_value == n
            }),
            final(self).program == old(self).program,
            final(self).array_lengths == old(self).array_lengths,
        decreases expr,
    {
        match expr {
            Expr::Var(name) => Some(name.clone()),
            Expr::Field { base, name } => match self.aggregate_place(base) {
                Some(b) => Some(field_slot(b.as_str(), name.as_str())),
                None => None,
            },
            Expr::Index { base, index } => {
                let i = match &**index {
                    Expr::Int(i) => *i,
                    _ => { return None; },
                };
                match self.aggregate_place(base) {
                    Some(b) => {
                        proof { lemma_length_of_view(self.array_lengths@, b@); }
                        if let Some(len) = self.array_length(b.as_str()) {
                            let index_value = self.fresh();
                            self.push(const_instruction(index_value, i));
                            self.push(Instruction::BoundsCheck { index: index_value, len });
                        }
                        Some(signed_index_slot(b.as_str(), i))
                    },
                    None => None,
                }
            },
            _ => None,
        }
    }

    fn copy_aggregate_slot(&mut self, target_slot: &str, ty: &Type, source_slot: &str, fuel: usize)
        ensures
            final(self).state() == copy_slot_state(old(self).env(), old(self).state(), target_slot@, *ty, source_slot@, fuel as nat),
            final(self).env() == old(self).env(),
            ({
                let (moves, lengths) = copy_slot_spec(old(self).program.structs@, lengths_view(old(self).array_lengths@),
                    target_slot@, *ty, source_slot@, fuel as nat);
                &&& moves_emitted(old(self).instructions@, final(self).instructions@, old(self).next_value, moves)
                &&& final(self).next_value == advance(old(self).next_value, moves.len())
                &&& lengths_view(final(self).array_lengths@) == lengths
            }),
            final(self).program == old(self).program,
            final(self).budget == old(self).budget,
        decreases fuel, ty, 0nat,
    {
        match ty {
            Type::Named(name) => {
                if fuel == 0 {
                    proof {
                        lemma_moves_none(self.instructions@, self.next_value);
                        assert(advance(self.next_value, 0) == self.next_value);
                    }
                    return;
                }
                let fields = match self.struct_fields(name.as_str()) {
                    Some(fields) => fields,
                    None => {
                        proof {
                            lemma_moves_none(self.instructions@, self.next_value);
                            assert(advance(self.next_value, 0) == self.next_value);
                        }
                        return;
                    },
                };
                let ghost structs = self.program.structs@;
                let ghost i0 = self.instructions@;
                let ghost n0 = self.next_value;
                let ghost all = copy_fields_spec(structs, lengths_view(self.array_lengths@), target_slot@, *fields, source_slot@, (fuel - 1) as nat, 0);
                let ghost mut done: Seq<(Seq<char>, Seq<char>)> = seq![];
                proof {
                    lemma_moves_none(self.instructions@, self.next_value);
                    assert(done + all.0 =~= all.0);
                }
                let mut i: usize = 0;
                while i < fields.len()
                    invariant
                        i <= fields@.len(),
                        fuel > 0,
                        all == copy_slot_spec(structs, lengths_view(old(self).array_lengths@), target_slot@, *ty, source_slot@, fuel as nat),
                        self.env() == old(self).env(),
                        copy_slot_state(old(self).env(), old(self).state(), target_slot@, *ty, source_slot@, fuel as nat)
                            == copy_fields_state(old(self).env(), self.state(), target_slot@, *fields, source_slot@, (fuel - 1) as nat, i as nat),
                        i0 == old(self).instructions@,
                        n0 == old(self).next_value,
                        structs == self.program.structs@,
                        self.program == old(self).program,
                        self.budget == old(self).budget,
                        moves_emitted(i0, self.instructions@, n0, done),
                        self.next_value == advance(n0, done.len()),
                        ({
                            let (mr, lr) = copy_fields_spec(structs, lengths_view(self.array_lengths@), target_slot@, *fields, source_slot@, (fuel - 1) as nat, i as nat);
                            all.0 == done + mr && all.1 == lr
                        }),
                    decreases fields@.len() - i,
                {
                    let field = &fields[i];
                    let target = field_slot(target_slot, field.name.as_str());
                    let source = field_slot(source_slot, field.name.as_str());
                    let ghost before = self.instructions@;
                    let ghost lv = lengths_view(self.array_lengths@);
                    self.copy_aggregate_slot(target.as_str(), &field.ty, source.as_str(), fuel - 1);
                    proof {
                        let (m1, l1) = copy_slot_spec(structs, lv, target@, field.ty, source@, (fuel - 1) as nat);
                        lemma_moves_concat(i0, before, self.instructions@, n0, done, m1);
                        lemma_advance_add(n0, done.len(), m1.len());
                        let (m2, l2) = copy_fields_spec(structs, l1, target_slot@, *fields, source_slot@, (fuel - 1) as nat, (i + 1) as nat);
                        assert(done + (m1 + m2) =~= (done + m1) + m2);
                        done = done + m1;
                    }
                    i = i + 1;
                }
                proof {
                    assert(all.0 =~= done);
                }
            },
            Type::Array(element_ty) => {
                self.copy_array_slots(target_slot, element_ty, source_slot, fuel);
            },
            _ => {
                let ghost before = self.instructions@;
                let value = self.fresh();
                self.push(Instruction::Load { dst: value, local: String::from_str(source_slot) });
                self.push(Instruction::Store { local: String::from_str(target_slot), value });
                proof {
                    assert(self.instructions@.subrange(0, before.len() as int) =~= before);
                    assert(advance(old(self).next_value, 0) == old(self).next_value);
                    assert(advance(old(self).next_value, 1) == next_id(old(self).next_value));
                    assert(is_move(self.instructions@[before.len() as int], self.instructions@[before.len() + 1int],
                        old(self).next_value, source_slot@, target_slot@));
                }
            },
        }
    }

    fn copy_array_slots(&mut self, target_prefix: &str, element_ty: &Type, source_prefix: &str, fuel: usize)
        ensures
            final(self).state() == copy_slot_state(old(self).env(), old(self).state(), target_prefix@, Type::Array(Box::new(*element_ty)), source_prefix@, fuel as nat),
            final(self).env() == old(self).env(),
            ({
                let (moves, lengths) = copy_slot_spec(old(self).program.structs@, lengths_view(old(self).array_lengths@),
                    target_prefix@, Type::Array(Box::new(*element_ty)), source_prefix@, fuel as nat);
                &&& moves_emitted(old(self).instructions@, final(self).instructions@, old(self).next_value, moves)
                &&& final(self).next_value == advance(old(self).next_value, moves.len())
                &&& lengths_view(final(self).array_lengths@) == lengths
            }),
            final(self).program == old(self).program,
            final(self).budget == old(self).budget,
        decreases fuel, element_ty, 1nat,
    {
        proof { lemma_length_of_view(self.array_lengths@, source_prefix@); }
        let length = match self.array_length(source_prefix) {
            Some(length) => length,
            None => {
                proof {
                    lemma_moves_none(self.instructions@, self.next_value);
                    assert(advance(self.next_value, 0) == self.next_value);
                }
                return;
            },
        };
        let ghost l0 = lengths_view(self.array_lengths@);
        self.set_array_length(target_prefix, length);
        proof {
            assert(lengths_view(self.array_lengths@) =~= l0.push((target_prefix@, length)));
        }
        let ghost structs = self.program.structs@;
        let ghost i0 = self.instructions@;
        let ghost n0 = self.next_value;
        let ghost all = copy_elems_spec(structs, lengths_view(self.array_lengths@), target_prefix@, *element_ty, source_prefix@, fuel as nat, length, 0);
        let ghost mut done: Seq<(Seq<char>, Seq<char>)> = seq![];
        proof {
            lemma_moves_none(self.instructions@, self.next_value);
            assert(done + all.0 =~= all.0);
        }
        let mut index: usize = 0;
        while index < length
            invariant
                index <= length,
                self.env() == old(self).env(),
                copy_slot_state(old(self).env(), old(self).state(), target_prefix@, Type::Array(Box::new(*element_ty)), source_prefix@, fuel as nat)
                    == copy_elems_state(old(self).env(), self.state(), target_prefix@, *element_ty, source_prefix@, fuel as nat, length, index as nat),
                structs == self.program.structs@,
                self.program == old(self).program,
                self.budget == old(self).budget,
                moves_emitted(i0, self.instructions@, n0, done),
                self.next_value == advance(n0, done.len()),
                ({
                    let (mr, lr) = copy_elems_spec(structs, lengths_view(self.array_lengths@), target_prefix@, *element_ty, source_prefix@, fuel as nat, length, index as nat);
                    all.0 == done + mr && all.1 == lr
                }),
            decreases length - index,
        {
            let target = index_slot(target_prefix, index as u64);
            let source = index_slot(source_prefix, index as u64);
            let ghost before = self.instructions@;
            let ghost lv = lengths_view(self.array_lengths@);
            self.copy_aggregate_slot(target.as_str(), element_ty, source.as_str(), fuel);
            proof {
                let (m1, l1) = copy_slot_spec(structs, lv, target@, *element_ty, source@, fuel as nat);
                lemma_moves_concat(i0, before, self.instructions@, n0, done, m1);
                lemma_advance_add(n0, done.len(), m1.len());
                let (m2, l2) = copy_elems_spec(structs, l1, target_prefix@, *element_ty, source_prefix@, fuel as nat, length, (index + 1) as nat);
                assert(done + (m1 + m2) =~= (done + m1) + m2);
                done = done + m1;
            }
            index = index + 1;
        }
        proof { assert(all.0 =~= done); }
    }
}

/// The value of a binary operation on two integers: `None` where it has no 64-bit result.
pub open spec fn fold_binary_spec(op: BinaryOp, left: i64, right: i64) -> Option<i64> {
    match op {
        BinaryOp::And => Some(if left != 0 && right != 0 { 1i64 } else { 0i64 }),
        BinaryOp::Or => Some(if left != 0 || right != 0 { 1i64 } else { 0i64 }),
        BinaryOp::BitAnd => Some(left & right),
        BinaryOp::BitOr => Some(left | right),
        BinaryOp::BitXor => Some(left ^ right),
        BinaryOp::ShiftLeft => if 0 <= right < 64 { Some(((left as u64) << (right as u64)) as i64) } else { None },
        BinaryOp::ShiftRight => if 0 <= right < 64 { Some(left >> right) } else { None },
        BinaryOp::Add => left.checked_add(right),
        BinaryOp::Sub => left.checked_sub(right),
        BinaryOp::Mul => left.checked_mul(right),
        BinaryOp::Div => if right != 0 { left.checked_div(right) } else { None },
        BinaryOp::Rem => if right != 0 { left.checked_rem(right) } else { None },
        BinaryOp::Equal => Some(if left == right { 1i64 } else { 0i64 }),
        BinaryOp::NotEqual => Some(if left != right { 1i64 } else { 0i64 }),
        BinaryOp::Less => Some(if left < right { 1i64 } else { 0i64 }),
        BinaryOp::LessEqual => Some(if left <= right { 1i64 } else { 0i64 }),
        BinaryOp::Greater => Some(if left > right { 1i64 } else { 0i64 }),
        BinaryOp::GreaterEqual => Some(if left >= right { 1i64 } else { 0i64 }),
    }
}

/// Folds a binary operator over two constants; `None` where the operation has no
/// 64-bit result (overflow, division by zero, a shift outside 0..64).
pub fn fold_binary(op: BinaryOp, left: i64, right: i64) -> (r: Option<i64>)
    ensures
        r == fold_binary_spec(op, left, right),
        op is Add ==> r == (if i64::MIN <= left + right <= i64::MAX { Some((left + right) as i64) } else { None }),
        op is Sub ==> r == (if i64::MIN <= left - right <= i64::MAX { Some((left - right) as i64) } else { None }),
        op is Mul ==> r == (if i64::MIN <= left * right <= i64::MAX { Some((left * right) as i64) } else { None }),
        op is Equal ==> r == Some(if left == right { 1i64 } else { 0i64 }),
        op is NotEqual ==> r == Some(if left != right { 1i64 } else { 0i64 }),
        op is Less ==> r == Some(if left < right { 1i64 } else { 0i64 }),
        op is LessEqual ==> r == Some(if left <= right { 1i64 } else { 0i64 }),
        op is Greater ==> r == Some(if left > right { 1i64 } else { 0i64 }),
        op is GreaterEqual ==> r == Some(if left >= right { 1i64 } else { 0i64 }),
        op is And ==> r == Some(if left != 0 && right != 0 { 1i64 } else { 0i64 }),
        op is Or ==> r == Some(if left != 0 || right != 0 { 1i64 } else { 0i64 }),
        (op is Div || op is Rem) && right == 0 ==> r is None,
{
    match op {
        BinaryOp::And => Some(bool_value(left != 0 && right != 0)),
        BinaryOp::Or => Some(bool_value(left != 0 || right != 0)),
        BinaryOp::BitAnd => Some(left & right),
        BinaryOp::BitOr => Some(left | right),
        BinaryOp::BitXor => Some(left ^ right),
        BinaryOp::ShiftLeft => {
            if 0 <= right && right < 64 {
                Some(((left as u64) << (right as u64)) as i64)
            } else {
                None
            }
        },
        BinaryOp::ShiftRight => {
            if 0 <= right && right < 64 {
                Some(left >> right)
            } else {
                None
            }
        },
        BinaryOp::Add => left.checked_add(right),
        BinaryOp::Sub => left.checked_sub(right),
        BinaryOp::Mul => left.checked_mul(right),
        BinaryOp::Div => if right != 0 { left.checked_div(right) } else { None },
        BinaryOp::Rem => if right != 0 { left.checked_rem(right) } else { None },
        BinaryOp::Equal => Some(bool_value(left == right)),
        BinaryOp::NotEqual => Some(bool_value(left != right)),
        BinaryOp::Less => Some(bool_value(left < right)),
        BinaryOp::LessEqual => Some(bool_value(left <= right)),
        BinaryOp::Greater => Some(bool_value(left > right)),
        BinaryOp::GreaterEqual => Some(bool_value(left >= right)),
    }
}

/// The value id after `next`: one more, or the same at the top of `usize`.
pub open spec fn next_id(next: usize) -> usize {
    if next < usize::MAX { (next + 1) as usize } else { next }
}

/// The slot a place expression names, the bounds checks that naming it emits, and the next
/// free value id afterwards: a local names itself, a field `base.field`, and an index by an
/// integer literal `base[i]`, checked against the array's length where it is known.
pub open spec fn place_spec(lengths: Seq<(Seq<char>, usize)>, expr: Expr, next: usize) -> (Option<Seq<char>>, Seq<Instruction>, usize)
    decreases expr,
{
    match expr {
        Expr::Var(name) => (Some(name@), seq![], next),
        Expr::Field { base, name } => {
            let (b, code, n) = place_spec(lengths, *base, next);
            match b {
                Some(bs) => (Some(bs + "."@ + name@), code, n),
                None => (None, code, n),
            }
        },
        Expr::Index { base, index } => match *index {
            Expr::Int(i) => {
                let (b, code, n) = place_spec(lengths, *base, next);
                match b {
                    Some(bs) => {
                        let slot = bs + "["@ + crate::text::signed_decimal(i as int) + "]"@;
                        match length_of(lengths, bs) {
                            Some(len) => (Some(slot), code + seq![
                                Instruction::Const { dst: ValueId(n), value: i },
                                Instruction::BoundsCheck { index: ValueId(n), len },
                            ], next_id(n)),
                            None => (Some(slot), code, n),
                        }
                    },
                    None => (None, code, n),
                }
            },
            _ => (None, seq![], next),
        },
        _ => (None, seq![], next),
    }
}

/// The array lengths seen by name: each entry's name as text.
pub open spec fn lengths_view(lengths: Seq<(String, usize)>) -> Seq<(Seq<char>, usize)> {
    lengths.map_values(|e: (String, usize)| (e.0@, e.1))
}

/// The length recorded last under `name`.
pub open spec fn length_of(lengths: Seq<(Seq<char>, usize)>, name: Seq<char>) -> Option<usize>
    decreases lengths.len(),
{
    if lengths.len() == 0 {
        None
    } else if lengths.last().0 == name {
        Some(lengths.last().1)
    } else {
        length_of(lengths.drop_last(), name)
    }
}

proof fn lemma_length_of_view(lengths: Seq<(String, usize)>, name: Seq<char>)
    ensures
        array_length_spec(lengths, name) == length_of(lengths_view(lengths), name),
    decreases lengths.len(),
{
    if lengths.len() > 0 {
        assert(lengths_view(lengths).drop_last() =~= lengths_view(lengths.drop_last()));
        lemma_length_of_view(lengths.drop_last(), name);
    }
}

/// `next` advanced by `k` fresh value ids.
pub open spec fn advance(next: usize, k: nat) -> usize
    decreases k,
{
    if k == 0 { next } else { next_id(advance(next, (k - 1) as nat)) }
}

proof fn lemma_advance_add(next: usize, a: nat, b: nat)
    ensures
        advance(advance(next, a), b) == advance(next, a + b),
    decreases b,
{
    if b > 0 {
        lemma_advance_add(next, a, (b - 1) as nat);
    }
}

/// A scalar copy from `source` to `target` through value `id`: a load, then a store.
pub open spec fn is_move(load: Instruction, store: Instruction, id: usize, source: Seq<char>, target: Seq<char>) -> bool {
    &&& load matches Instruction::Load { dst, local } && dst == ValueId(id) && local@ == source
    &&& store matches Instruction::Store { local, value } && value == ValueId(id) && local@ == target
}

/// `after` is `before` followed by one load and store per move, the `k`th move through the
/// `k`th fresh value id from `next`.
pub open spec fn moves_emitted(before: Seq<Instruction>, after: Seq<Instruction>, next: usize, moves: Seq<(Seq<char>, Seq<char>)>) -> bool {
    &&& after.len() == before.len() + 2 * moves.len()
    &&& after.subrange(0, before.len() as int) == before
    &&& forall|k: int| 0 <= k < moves.len() ==> is_move(#[trigger] after[before.len() + 2 * k], after[before.len() + 2 * k + 1],
        advance(next, k as nat), moves[k].0, moves[k].1)
}

proof fn lemma_moves_none(before: Seq<Instruction>, next: usize)
    ensures
        moves_emitted(before, before, next, seq![]),
{
    assert(before.subrange(0, before.len() as int) =~= before);
}

proof fn lemma_moves_concat(a: Seq<Instruction>, b: Seq<Instruction>, c: Seq<Instruction>, next: usize,
    m1: Seq<(Seq<char>, Seq<char>)>, m2: Seq<(Seq<char>, Seq<char>)>)
    requires
        moves_emitted(a, b, next, m1),
        moves_emitted(b, c, advance(next, m1.len()), m2),
    ensures
        moves_emitted(a, c, next, m1 + m2),
{
    assert(c.subrange(0, a.len() as int) =~= b.subrange(0, a.len() as int)) by {
        assert forall|j: int| 0 <= j < a.len() implies c.subrange(0, a.len() as int)[j] == b.subrange(0, a.len() as int)[j] by {
            assert(c.subrange(0, b.len() as int)[j] == b[j]);
        }
    }
    assert forall|k: int| 0 <= k < (m1 + m2).len() implies is_move(#[trigger] c[a.len() + 2 * k], c[a.len() + 2 * k + 1],
        advance(next, k as nat), (m1 + m2)[k].0, (m1 + m2)[k].1) by {
        if k < m1.len() {
            assert(c.subrange(0, b.len() as int)[a.len() + 2 * k] == b[a.len() + 2 * k]);
            assert(c.subrange(0, b.len() as int)[a.len() + 2 * k + 1] == b[a.len() + 2 * k + 1]);
            assert(is_move(b[a.len() + 2 * k], b[a.len() + 2 * k + 1], advance(next, k as nat), m1[k].0, m1[k].1));
        } else {
            let j = k - m1.len();
            lemma_advance_add(next, m1.len(), j as nat);
            assert(c[b.len() + 2 * j] == c[a.len() + 2 * k]);
            assert(is_move(c[b.len() + 2 * j], c[b.len() + 2 * j + 1], advance(advance(next, m1.len()), j as nat), m2[j].0, m2[j].1));
        }
    }
}

/// The scalar copies that copying a `ty` slot from `source` to `target` makes, in order, and
/// the array lengths afterwards: a struct copies field by field (with `fuel` levels of
/// nesting), an array of known length records the target's length and copies element by
/// element, and anything else is one copy.
pub open spec fn copy_slot_spec(structs: Seq<StructDecl>, lengths: Seq<(Seq<char>, usize)>, target: Seq<char>, ty: Type,
    source: Seq<char>, fuel: nat) -> (Seq<(Seq<char>, Seq<char>)>, Seq<(Seq<char>, usize)>)
    decreases 2 * fuel + 1, array_depth(ty), 0int, 0int,
{
    match ty {
        Type::Named(name) => if fuel == 0 {
            (seq![], lengths)
        } else {
            match last_struct(structs, name@) {
                Some(d) => copy_fields_spec(structs, lengths, target, d.fields, source, (fuel - 1) as nat, 0),
                None => (seq![], lengths),
            }
        },
        Type::Array(elem) => match length_of(lengths, source) {
            Some(len) => copy_elems_spec(structs, lengths.push((target, len)), target, *elem, source, fuel, len, 0),
            None => (seq![], lengths),
        },
        _ => (seq![(source, target)], lengths),
    }
}

/// The copies of the fields from index `i` on.
pub open spec fn copy_fields_spec(structs: Seq<StructDecl>, lengths: Seq<(Seq<char>, usize)>, target: Seq<char>, fields: Vec<Field>,
    source: Seq<char>, fuel: nat, i: nat) -> (Seq<(Seq<char>, Seq<char>)>, Seq<(Seq<char>, usize)>)
    decreases 2 * fuel + 2, 0int, 0int, fields@.len() - i,
{
    if i >= fields@.len() {
        (seq![], lengths)
    } else {
        let f = fields@[i as int];
        let (m1, l1) = copy_slot_spec(structs, lengths, target + "."@ + f.name@, f.ty, source + "."@ + f.name@, fuel);
        let (m2, l2) = copy_fields_spec(structs, l1, target, fields, source, fuel, i + 1);
        (m1 + m2, l2)
    }
}

/// The copies of the array elements from `index` on.
pub open spec fn copy_elems_spec(structs: Seq<StructDecl>, lengths: Seq<(Seq<char>, usize)>, target: Seq<char>, elem: Type,
    source: Seq<char>, fuel: nat, len: usize, index: nat) -> (Seq<(Seq<char>, Seq<char>)>, Seq<(Seq<char>, usize)>)
    decreases 2 * fuel + 1, array_depth(elem), 1int, len - index,
{
    if index >= len {
        (seq![], lengths)
    } else {
        let (m1, l1) = copy_slot_spec(structs, lengths, target + "["@ + crate::text::decimal(index) + "]"@, elem,
            source + "["@ + crate::text::decimal(index) + "]"@, fuel);
        let (m2, l2) = copy_elems_spec(structs, l1, target, elem, source, fuel, len, index + 1);
        (m1 + m2, l2)
    }
}

impl<'a> LowerCtx<'a> {
    fn lower_stmts(&mut self, stmts: &Vec<Stmt>, fuel: usize)
        ensures
            final(self).state() == lower_stmts_spec(old(self).env(), old(self).state(), *stmts, fuel as nat, 0),
            final(self).env() == old(self).env(),
        decreases fuel, stmts, 0nat,
    {
        let ghost env0 = self.env();
        let ghost goal = lower_stmts_spec(self.env(), self.state(), *stmts, fuel as nat, 0);
        let mut i: usize = 0;
        while i < stmts.len()
            invariant
                i <= stmts@.len(),
                self.env() == env0,
                env0 == old(self).env(),
                goal == lower_stmts_spec(old(self).env(), old(self).state(), *stmts, fuel as nat, 0),
                goal == lower_stmts_spec(env0, self.state(), *stmts, fuel as nat, i as nat),
            decreases stmts@.len() - i,
        {
            self.lower_stmt(&stmts[i], fuel);
            i = i + 1;
        }
    }

    /// Loads `name`, combines it with `value` by `op`, and returns the result; a pointer
    /// local moved by an integer is scaled by its pointee's size.
    fn lower_compound_assign(&mut self, name: &String, op: BinaryOp, value: &Expr, fuel: usize) -> (r: ValueId)
        ensures
            (r, final(self).state()) == compound_spec(old(self).env(), old(self).state(), name@, op, *value, fuel as nat),
            final(self).env() == old(self).env(),
        decreases fuel, value, 3nat,
    {
        let left = self.fresh();
        self.push(Instruction::Load { dst: left, local: name.clone() });
        if let Some(Type::Pointer(inner)) = self.local_type(name.as_str()) {
            let integer_value = match self.expr_type(value) {
                Some(t) => is_integer_type(&t),
                None => false,
            };
            if (matches!(op, BinaryOp::Add) || matches!(op, BinaryOp::Sub)) && integer_value {
                let right = self.lower_expr(value, fuel);
                let scale = self.pointer_scale(&inner);
                let scaled_right = self.scale_value(right, scale);
                let dst = self.fresh();
                let instruction = if matches!(op, BinaryOp::Add) {
                    Instruction::Add { dst, left, right: scaled_right }
                } else {
                    Instruction::Sub { dst, left, right: scaled_right }
                };
                self.push(instruction);
                return dst;
            }
        }
        let right = self.lower_expr(value, fuel);
        let dst = self.fresh();
        self.push(binary_instruction(op, dst, left, right));
        dst
    }

    #[verifier::spinoff_prover]
    #[verifier::rlimit(100)]
    fn lower_stmt(&mut self, stmt: &Stmt, fuel: usize)
        ensures
            final(self).state() == lower_stmt_spec(old(self).env(), old(self).state(), *stmt, fuel as nat),
            final(self).env() == old(self).env(),
        decreases fuel, stmt, 0nat,
    {
        match stmt {
            Stmt::Return(expr) => {
                let value = match expr {
                    Some(e) => self.lower_expr(e, fuel),
                    None => self.lower_const_scalar(0),
                };
                self.push(Instruction::Return { value });
            },
            Stmt::Let { name, ty, value, .. } => {
                let let_ty = self.let_type(ty, value);
                let aggregate = match &let_ty {
                    Some(t) => self.is_aggregate_type(t),
                    None => false,
                };
                if aggregate {
                    let t = match let_ty { Some(t) => t, None => Type::Int };
                    self.insert_local(name, t.copy());
                    self.lower_aggregate_into(name.as_str(), &t, value, fuel);
                } else {
                    let t = match let_ty { Some(t) => t, None => Type::Int };
                    self.insert_local(name, t);
                    let v = self.lower_expr(value, fuel);
                    self.push(Instruction::Store { local: name.clone(), value: v });
                }
            },
            Stmt::Assign { name, op, value } => {
                if op.is_none() && is_aggregate_expr(value) {
                    if let Some(t) = self.local_type(name.as_str()) {
                        self.lower_aggregate_into(name.as_str(), &t, value, fuel);
                    }
                    return;
                }
                let v = match op {
                    Some(op) => self.lower_compound_assign(name, *op, value, fuel),
                    None => self.lower_expr(value, fuel),
                };
                self.push(Instruction::Store { local: name.clone(), value: v });
            },
            Stmt::PointerAssign { pointer, op, value } => {
                let width = self.pointer_deref_width(pointer);
                let p = self.lower_expr(pointer, fuel);
                let v = match op {
                    Some(op) => {
                        let left = self.fresh();
                        self.push(Instruction::Deref { dst: left, pointer: p, width });
                        let right = self.lower_expr(value, fuel);
                        let dst = self.fresh();
                        self.push(binary_instruction(*op, dst, left, right));
                        dst
                    },
                    None => self.lower_expr(value, fuel),
                };
                self.push(Instruction::StoreDeref { pointer: p, value: v, width });
            },
            Stmt::PlaceAssign { target, op, value } => {
                let local = match self.aggregate_place(target) {
                    Some(local) => local,
                    None => { return; },
                };
                let v = match op {
                    Some(op) => {
                        let left = self.fresh();
                        self.push(Instruction::Load { dst: left, local: local.clone() });
                        let right = self.lower_expr(value, fuel);
                        let dst = self.fresh();
                        self.push(binary_instruction(*op, dst, left, right));
                        dst
                    },
                    None => self.lower_expr(value, fuel),
                };
                self.push(Instruction::Store { local, value: v });
            },
            Stmt::If { condition, then_body, else_body } => {
                let else_label = self.fresh_label("else");
                let end_label = self.fresh_label("endif");
                let c = self.lower_expr(condition, fuel);
                self.push(Instruction::JumpIfZero { value: c, label: else_label.clone() });
                self.lower_stmts(then_body, fuel);
                self.push(Instruction::Jump { label: end_label.clone() });
                self.push(Instruction::Label { name: else_label });
                self.lower_stmts(else_body, fuel);
                self.push(Instruction::Label { name: end_label });
            },
            Stmt::While { condition, body } => {
                let start_label = self.fresh_label("while");
                let end_label = self.fresh_label("endwhile");
                self.push_loop(&start_label, &end_label);
                self.push(Instruction::Label { name: start_label.clone() });
                let c = self.lower_expr(condition, fuel);
                self.push(Instruction::JumpIfZero { value: c, label: end_label.clone() });
                self.lower_stmts(body, fuel);
                self.pop_loop();
                self.push(Instruction::Jump { label: start_label });
                self.push(Instruction::Label { name: end_label });
            },
            Stmt::For { name, start, end, inclusive, body } => {
                let start_ty = match self.expr_type(start) {
                    Some(t) => t,
                    None => Type::Int,
                };
                self.insert_local(name, start_ty);
                let start_value = self.lower_expr(start, fuel);
                self.push(Instruction::Store { local: name.clone(), value: start_value });
                let end_value = self.lower_expr(end, fuel);
                let mut end_local = join3("__geo_for_end_", name.as_str(), "_");
                push_decimal(&mut end_local, self.next_label as u64);
                self.push(Instruction::Store { local: end_local.clone(), value: end_value });
                let start_label = self.fresh_label("for");
                let continue_label = self.fresh_label("for_next");
                let end_label = self.fresh_label("endfor");
                self.push_loop(&continue_label, &end_label);
                self.push(Instruction::Label { name: start_label.clone() });
                let current = self.fresh();
                self.push(Instruction::Load { dst: current, local: name.clone() });
                let limit = self.fresh();
                self.push(Instruction::Load { dst: limit, local: end_local });
                let condition = self.fresh();
                let op = if *inclusive { CmpOp::LessEqual } else { CmpOp::Less };
                self.push(compare_instruction(condition, op, current, limit));
                self.push(Instruction::JumpIfZero { value: condition, label: end_label.clone() });
                self.lower_stmts(body, fuel);
                self.push(Instruction::Label { name: continue_label });
                let current = self.fresh();
                self.push(Instruction::Load { dst: current, local: name.clone() });
                let one = self.fresh();
                self.push(const_instruction(one, 1));
                let next = self.fresh();
                self.push(Instruction::Add { dst: next, left: current, right: one });
                self.push(Instruction::Store { local: name.clone(), value: next });
                self.pop_loop();
                self.push(Instruction::Jump { label: start_label });
                self.push(Instruction::Label { name: end_label });
            },
            Stmt::Loop(body) => {
                let start_label = self.fresh_label("loop");
                let end_label = self.fresh_label("endloop");
                self.push_loop(&start_label, &end_label);
                self.push(Instruction::Label { name: start_label.clone() });
                self.lower_stmts(body, fuel);
                self.pop_loop();
                self.push(Instruction::Jump { label: start_label });
                self.push(Instruction::Label { name: end_label });
            },
            Stmt::Unsafe(body) => {
                self.lower_stmts(body, fuel);
            },
            Stmt::Break => {
                let n = self.loop_stack.len();
                if n > 0 {
                    let label = self.loop_stack[n - 1].1.clone();
                    self.push(Instruction::Jump { label });
                }
            },
            Stmt::Continue => {
                let n = self.loop_stack.len();
                if n > 0 {
                    let label = self.loop_stack[n - 1].0.clone();
                    self.push(Instruction::Jump { label });
                }
            },
            Stmt::Expr(expr) => {
                self.lower_expr(expr, fuel);
            },
        }
    }

    fn lower_args(&mut self, args: &Vec<Expr>, fuel: usize) -> (r: Vec<ValueId>)
        ensures
            (r@, final(self).state()) == lower_args_spec(old(self).env(), old(self).state(), *args, fuel as nat, 0, seq![]),
            final(self).env() == old(self).env(),
            r@.len() == args@.len(),
        decreases fuel, args, 0nat,
    {
        let mut values: Vec<ValueId> = Vec::new();
        let ghost env0 = self.env();
        let ghost goal = lower_args_spec(self.env(), self.state(), *args, fuel as nat, 0, seq![]);
        let mut i: usize = 0;
        while i < args.len()
            invariant
                i <= args@.len(),
                values@.len() == i,
                self.env() == env0,
                env0 == old(self).env(),
                goal == lower_args_spec(old(self).env(), old(self).state(), *args, fuel as nat, 0, seq![]),
                goal == lower_args_spec(env0, self.state(), *args, fuel as nat, i as nat, values@),
            decreases args@.len() - i,
        {
            let v = self.lower_expr(&args[i], fuel);
            values.push(v);
            i = i + 1;
        }
        values
    }

    /// Lowers the arms of a `match`: each arm with a value pattern compares the scrutinee
    /// and stores its value when equal; a wildcard arm stores its value and ends the chain.
    fn lower_match_arms(
        &mut self,
        arms: &Vec<crate::ast::MatchArm>,
        scrutinee: ValueId,
        result_local: &String,
        end_label: &String,
        fuel: usize,
    )
        ensures
            final(self).state() == match_arms_spec(old(self).env(), old(self).state(), *arms, scrutinee, result_local@, end_label@, fuel as nat, 0),
            final(self).env() == old(self).env(),
        decreases fuel, arms, 0nat,
    {
        let ghost env0 = self.env();
        let ghost goal = match_arms_spec(self.env(), self.state(), *arms, scrutinee, result_local@, end_label@, fuel as nat, 0);
        let mut i: usize = 0;
        while i < arms.len()
            invariant
                i <= arms@.len(),
                self.env() == env0,
                env0 == old(self).env(),
                goal == match_arms_spec(old(self).env(), old(self).state(), *arms, scrutinee, result_local@, end_label@, fuel as nat, 0),
                goal == match_arms_spec(env0, self.state(), *arms, scrutinee, result_local@, end_label@, fuel as nat, i as nat),
            decreases arms@.len() - i,
        {
            let arm = &arms[i];
            match self.lower_match_pattern_value(&arm.pattern) {
                Some(pattern_value) => {
                    let arm_label = self.fresh_label("match_arm");
                    let next_label = self.fresh_label("match_next");
                    let not_equal = self.fresh();
                    self.push(compare_instruction(not_equal, CmpOp::NotEqual, scrutinee, pattern_value));
                    self.push(Instruction::JumpIfZero { value: not_equal, label: arm_label.clone() });
                    self.push(Instruction::Jump { label: next_label.clone() });
                    self.push(Instruction::Label { name: arm_label });
                    let value = self.lower_expr(&arm.value, fuel);
                    self.push(Instruction::Store { local: result_local.clone(), value });
                    self.push(Instruction::Jump { label: end_label.clone() });
                    self.push(Instruction::Label { name: next_label });
                },
                None => {
                    let value = self.lower_expr(&arm.value, fuel);
                    self.push(Instruction::Store { local: result_local.clone(), value });
                    self.push(Instruction::Jump { label: end_label.clone() });
                    return;
                },
            }
            i = i + 1;
        }
    }

    /// Pointer arithmetic: a pointer moved by an integer (scaled by the pointee's size), or
    /// the distance between two pointers to the same type (divided by it).
    fn lower_pointer_binary(&mut self, expr: &Expr, fuel: usize) -> (r: Option<ValueId>)
        ensures
            match pointer_binary_spec(old(self).env(), old(self).state(), *expr, fuel as nat) {
                Some(res) => r == Some(res.0) && final(self).state() == res.1,
                None => r is None && final(self).state() == old(self).state(),
            },
            final(self).env() == old(self).env(),
        decreases fuel, expr, 1nat,
    {
        let (op, left, right) = match expr {
            Expr::Binary { op, left, right } => (*op, left, right),
            _ => { return None; },
        };
        let left_ty = self.expr_type(left);
        let right_ty = self.expr_type(right);
        let inner = match left_ty {
            Some(Type::Pointer(inner)) => inner,
            _ => { return None; },
        };
        let right_ty = match right_ty {
            Some(t) => t,
            None => { return None; },
        };
        if (matches!(op, BinaryOp::Add) || matches!(op, BinaryOp::Sub)) && is_integer_type(&right_ty) {
            let l = self.lower_expr(left, fuel);
            let r = self.lower_expr(right, fuel);
            let scale = self.pointer_scale(&inner);
            let scaled_right = self.scale_value(r, scale);
            let dst = self.fresh();
            let instruction = if matches!(op, BinaryOp::Add) {
                Instruction::Add { dst, left: l, right: scaled_right }
            } else {
                Instruction::Sub { dst, left: l, right: scaled_right }
            };
            self.push(instruction);
            return Some(dst);
        }
        if matches!(op, BinaryOp::Sub) {
            if let Type::Pointer(right_inner) = &right_ty {
                if inner.same(right_inner) {
                    let l = self.lower_expr(left, fuel);
                    let r = self.lower_expr(right, fuel);
                    let diff = self.fresh();
                    self.push(Instruction::Sub { dst: diff, left: l, right: r });
                    let scale = self.pointer_scale(&inner);
                    let scale_value = self.fresh();
                    self.push(const_instruction(scale_value, scale));
                    let dst = self.fresh();
                    self.push(Instruction::Div { dst, left: diff, right: scale_value });
                    return Some(dst);
                }
            }
        }
        None
    }

    fn load_place(&mut self, expr: &Expr) -> (v: ValueId)
        ensures
            (v, final(self).state()) == load_place_spec(old(self).state(), *expr),
            final(self).env() == old(self).env(),
            ({
                let (slot, code, n) = place_spec(lengths_view(old(self).array_lengths@), *expr, old(self).next_value);
                &&& v.0 == n
                &&& final(self).next_value == next_id(n)
                &&& match slot {
                    Some(t) => {
                        &&& final(self).instructions@.len() == old(self).instructions@.len() + code.len() + 1
                        &&& final(self).instructions@.drop_last() == old(self).instructions@ + code
                        &&& final(self).instructions@.last() matches Instruction::Load { dst, local } && dst == v && local@ == t
                    },
                    None => final(self).instructions@ == old(self).instructions@ + code + seq![Instruction::Const { dst: v, value: 0 }],
                }
            }),
            final(self).program == old(self).program,
            final(self).array_lengths == old(self).array_lengths,
    {
        match self.aggregate_place(expr) {
            Some(local) => {
                let dst = self.fresh();
                self.push(Instruction::Load { dst, local });
                dst
            },
            None => self.lower_const_scalar(0),
        }
    }

    #[verifier::spinoff_prover]
    #[verifier::rlimit(100)]
    fn lower_expr(&mut self, expr: &Expr, fuel: usize) -> (v: ValueId)
        ensures
            (v, final(self).state()) == lower_expr_spec(old(self).env(), old(self).state(), *expr, fuel as nat),
            final(self).env() == old(self).env(),
        decreases fuel, expr, 2nat,
    {
        if self.contains_const_ref(expr) {
            if let Some(value) = self.const_scalar_value(expr) {
                return self.lower_const_scalar(value);
            }
        }
        match expr {
            Expr::Int(value) => self.lower_const_scalar(*value),
            Expr::TypedInt { value, .. } => self.lower_const_scalar(*value),
            Expr::Bool(value) => self.lower_const_scalar(bool_value(*value)),
            Expr::Null => self.lower_const_scalar(0),
            Expr::Char(value) => self.lower_const_scalar((*value as u32) as i64),
            Expr::String(value) => {
                let dst = self.fresh();
                let label = self.fresh_string_label();
                self.push(Instruction::StringConst { dst, label, value: value.clone() });
                dst
            },
            Expr::Var(name) => {
                if !self.has_local(name.as_str()) {
                    if let Some(decl) = self.find_const(name.as_str()) {
                        if fuel > 0 {
                            return self.lower_expr(&decl.value, fuel - 1);
                        }
                    }
                }
                let dst = self.fresh();
                self.push(Instruction::Load { dst, local: name.clone() });
                dst
            },
            Expr::Binary { op, left, right } => {
                if matches!(op, BinaryOp::Add) && is_string_type(&self.expr_type(left))
                    && is_string_type(&self.expr_type(right)) {
                    let l = self.lower_expr(left, fuel);
                    let r = self.lower_expr(right, fuel);
                    let dst = self.fresh();
                    self.push(Instruction::Call { dst, function: String::from_str("string_concat"), args: vec![l, r] });
                    return dst;
                }
                if let Some(value) = self.lower_pointer_binary(expr, fuel) {
                    return value;
                }
                let l = self.lower_expr(left, fuel);
                let r = self.lower_expr(right, fuel);
                let dst = self.fresh();
                self.push(binary_instruction(*op, dst, l, r));
                dst
            },
            Expr::Unary { op, expr: inner } => match op {
                UnaryOp::Neg => {
                    let zero = self.lower_const_scalar(0);
                    let value = self.lower_expr(inner, fuel);
                    let dst = self.fresh();
                    self.push(Instruction::Sub { dst, left: zero, right: value });
                    dst
                },
                UnaryOp::Not => {
                    let value = self.lower_expr(inner, fuel);
                    let zero = self.lower_const_scalar(0);
                    let dst = self.fresh();
                    self.push(compare_instruction(dst, CmpOp::Equal, value, zero));
                    dst
                },
                UnaryOp::BitNot => {
                    let value = self.lower_expr(inner, fuel);
                    let dst = self.fresh();
                    self.push(Instruction::BitNot { dst, value });
                    dst
                },
                UnaryOp::AddressOf | UnaryOp::MutableAddressOf => {
                    match self.aggregate_place(inner) {
                        Some(local) => {
                            let dst = self.fresh();
                            self.push(Instruction::AddressOf { dst, local });
                            dst
                        },
                        None => self.lower_const_scalar(0),
                    }
                },
                UnaryOp::Deref => {
                    let width = self.pointer_deref_width(inner);
                    let pointer = self.lower_expr(inner, fuel);
                    let dst = self.fresh();
                    self.push(Instruction::Deref { dst, pointer, width });
                    dst
                },
            },
            Expr::Cast { expr: inner, .. } => self.lower_expr(inner, fuel),
            Expr::SizeOf(ty) => {
                let value = self.type_size(ty, self.budget);
                self.lower_const_scalar(value)
            },
            Expr::AlignOf(ty) => {
                let value = self.type_align(ty, self.budget);
                self.lower_const_scalar(value)
            },
            Expr::OffsetOf { ty, field } => {
                let value = self.field_offset(ty, field.as_str(), self.budget);
                self.lower_const_scalar(value)
            },
            Expr::Match { value, arms } => {
                let scrutinee = self.lower_expr(value, fuel);
                let result_local = self.scratch_local("__geo_match_");
                if let Some(result_ty) = self.expr_type(expr) {
                    self.insert_local(&result_local, result_ty);
                }
                let end_label = self.fresh_label("match_end");
                self.lower_match_arms(arms, scrutinee, &result_local, &end_label, fuel);
                let fallback = self.lower_const_scalar(0);
                self.push(Instruction::Store { local: result_local.clone(), value: fallback });
                self.push(Instruction::Label { name: end_label });
                let dst = self.fresh();
                self.push(Instruction::Load { dst, local: result_local });
                dst
            },
            Expr::If { condition, then_value, else_value } => {
                let result_local = self.scratch_local("__geo_if_");
                if let Some(result_ty) = self.expr_type(expr) {
                    self.insert_local(&result_local, result_ty);
                }
                let else_label = self.fresh_label("if_else");
                let end_label = self.fresh_label("if_end");
                let c = self.lower_expr(condition, fuel);
                self.push(Instruction::JumpIfZero { value: c, label: else_label.clone() });
                let t = self.lower_expr(then_value, fuel);
                self.push(Instruction::Store { local: result_local.clone(), value: t });
                self.push(Instruction::Jump { label: end_label.clone() });
                self.push(Instruction::Label { name: else_label });
                let e = self.lower_expr(else_value, fuel);
                self.push(Instruction::Store { local: result_local.clone(), value: e });
                self.push(Instruction::Label { name: end_label });
                let dst = self.fresh();
                self.push(Instruction::Load { dst, local: result_local });
                dst
            },
            Expr::Block { statements, value } => {
                self.lower_stmts(statements, fuel);
                self.lower_expr(value, fuel)
            },
            Expr::Call { name, args } => {
                let values = self.lower_args(args, fuel);
                let dst = self.fresh();
                self.push(Instruction::Call { dst, function: name.clone(), args: values });
                dst
            },
            Expr::Index { base, index } => {
                if is_string_type(&self.expr_type(base)) {
                    let b = self.lower_expr(base, fuel);
                    let i = self.lower_expr(index, fuel);
                    let dst = self.fresh();
                    self.push(Instruction::Call { dst, function: String::from_str("__geo_string_get"), args: vec![b, i] });
                    dst
                } else {
                    self.load_place(expr)
                }
            },
            Expr::Field { base, name } => {
                if let Expr::Var(enum_name) = &**base {
                    if let Some(discriminant) = self.enum_discriminant(enum_name.as_str(), name.as_str()) {
                        return self.lower_const_scalar(discriminant);
                    }
                }
                self.load_place(expr)
            },
            Expr::Struct { .. } | Expr::Array(_) => self.lower_const_scalar(0),
        }
    }

    /// Stores `value` into the slots under `prefix`: field by field for a struct, element by
    /// element for an array, and as one value otherwise.
    fn lower_aggregate_into(&mut self, prefix: &str, ty: &Type, value: &Expr, fuel: usize)
        ensures
            final(self).state() == aggregate_into_spec(old(self).env(), old(self).state(), prefix@, *ty, *value, fuel as nat),
            final(self).env() == old(self).env(),
        decreases fuel, value, 4nat,
    {
        match ty {
            Type::Named(name) => {
                if self.find_struct(name.as_str()).is_some() {
                    self.lower_struct_into(prefix, name.as_str(), value, fuel);
                    return;
                }
            },
            Type::Array(element_ty) => {
                self.lower_array_into(prefix, element_ty, value, fuel);
                return;
            },
            _ => {},
        }
        let v = self.lower_expr(value, fuel);
        self.push(Instruction::Store { local: String::from_str(prefix), value: v });
    }

    fn lower_struct_literal_fields(&mut self, prefix: &str, fields: &Vec<Field>, values: &Vec<(String, Expr)>, fuel: usize)
        ensures
            final(self).state() == struct_fields_spec(old(self).env(), old(self).state(), prefix@, *fields, *values, fuel as nat, 0),
            final(self).env() == old(self).env(),
        decreases fuel, values, 0nat,
    {
        let ghost env0 = self.env();
        let ghost goal = struct_fields_spec(self.env(), self.state(), prefix@, *fields, *values, fuel as nat, 0);
        let mut i: usize = 0;
        while i < fields.len()
            invariant
                i <= fields@.len(),
                self.env() == env0,
                env0 == old(self).env(),
                goal == struct_fields_spec(old(self).env(), old(self).state(), prefix@, *fields, *values, fuel as nat, 0),
                goal == struct_fields_spec(env0, self.state(), prefix@, *fields, *values, fuel as nat, i as nat),
            decreases fields@.len() - i,
        {
            let field = &fields[i];
            let mut j: usize = 0;
            let mut found: Option<usize> = None;
            while j < values.len()
                invariant_except_break
                    found is None,
                invariant
                    j <= values@.len(),
                    found is Some ==> found->0 < values@.len(),
                    find_value(values@, field.name@, 0) == find_value(values@, field.name@, j as nat),
                ensures
                    found matches Some(k) ==> k < values@.len() && find_value(values@, field.name@, 0) == Some(k as nat),
                    found is None ==> find_value(values@, field.name@, 0) is None,
                decreases values@.len() - j,
            {
                if str_eq(values[j].0.as_str(), field.name.as_str()) {
                    found = Some(j);
                    break;
                }
                j = j + 1;
            }
            if let Some(j) = found {
                let slot = field_slot(prefix, field.name.as_str());
                self.lower_aggregate_into(slot.as_str(), &field.ty, &values[j].1, fuel);
            }
            i = i + 1;
        }
    }

    fn copy_struct_fields(&mut self, prefix: &str, fields: &Vec<Field>, source: &str)
        ensures
            final(self).state() == copy_fields_state(old(self).env(), old(self).state(), prefix@, *fields, source@, old(self).budget as nat, 0),
            final(self).env() == old(self).env(),
            ({
                let (moves, lengths) = copy_fields_spec(old(self).program.structs@, lengths_view(old(self).array_lengths@),
                    prefix@, *fields, source@, old(self).budget as nat, 0);
                &&& moves_emitted(old(self).instructions@, final(self).instructions@, old(self).next_value, moves)
                &&& final(self).next_value == advance(old(self).next_value, moves.len())
                &&& lengths_view(final(self).array_lengths@) == lengths
            }),
            final(self).program == old(self).program,
            final(self).budget == old(self).budget,
    {
        let budget = self.budget;
        let ghost structs = self.program.structs@;
        let ghost i0 = self.instructions@;
        let ghost n0 = self.next_value;
        let ghost all = copy_fields_spec(structs, lengths_view(self.array_lengths@), prefix@, *fields, source@, budget as nat, 0);
        let ghost mut done: Seq<(Seq<char>, Seq<char>)> = seq![];
        proof {
            lemma_moves_none(self.instructions@, self.next_value);
            assert(done + all.0 =~= all.0);
        }
        let mut i: usize = 0;
        while i < fields.len()
            invariant
                i <= fields@.len(),
                structs == self.program.structs@,
                self.program == old(self).program,
                budget == self.budget,
                self.budget == old(self).budget,
                self.env() == old(self).env(),
                copy_fields_state(old(self).env(), old(self).state(), prefix@, *fields, source@, budget as nat, 0)
                    == copy_fields_state(old(self).env(), self.state(), prefix@, *fields, source@, budget as nat, i as nat),
                moves_emitted(i0, self.instructions@, n0, done),
                self.next_value == advance(n0, done.len()),
                ({
                    let (mr, lr) = copy_fields_spec(structs, lengths_view(self.array_lengths@), prefix@, *fields, source@, budget as nat, i as nat);
                    all.0 == done + mr && all.1 == lr
                }),
            decreases fields@.len() - i,
        {
            let field = &fields[i];
            let target_slot = field_slot(prefix, field.name.as_str());
            let source_slot = field_slot(source, field.name.as_str());
            let ghost before = self.instructions@;
            let ghost lv = lengths_view(self.array_lengths@);
            self.copy_aggregate_slot(target_slot.as_str(), &field.ty, source_slot.as_str(), budget);
            proof {
                let (m1, l1) = copy_slot_spec(structs, lv, target_slot@, field.ty, source_slot@, budget as nat);
                lemma_moves_concat(i0, before, self.instructions@, n0, done, m1);
                lemma_advance_add(n0, done.len(), m1.len());
                let (m2, l2) = copy_fields_spec(structs, l1, prefix@, *fields, source@, budget as nat, (i + 1) as nat);
                assert(done + (m1 + m2) =~= (done + m1) + m2);
                done = done + m1;
            }
            i = i + 1;
        }
        proof { assert(all.0 =~= done); }
    }

    fn lower_struct_into(&mut self, prefix: &str, name: &str, value: &Expr, fuel: usize)
        ensures
            final(self).state() == struct_into_spec(old(self).env(), old(self).state(), prefix@, name@, *value, fuel as nat),
            final(self).env() == old(self).env(),
        decreases fuel, value, 3nat,
    {
        let fields = match self.struct_fields(name) {
            Some(fields) => fields,
            None => { return; },
        };
        match value {
            Expr::Struct { fields: values, .. } => {
                self.lower_struct_literal_fields(prefix, fields, values, fuel);
            },
            Expr::Var(source) => {
                self.copy_struct_fields(prefix, fields, source.as_str());
            },
            Expr::Field { .. } | Expr::Index { .. } => {
                if let Some(source) = self.aggregate_place(value) {
                    self.copy_struct_fields(prefix, fields, source.as_str());
                }
            },
            _ => {},
        }
    }

    fn lower_array_elements(&mut self, prefix: &str, element_ty: &Type, elements: &Vec<Expr>, fuel: usize)
        ensures
            final(self).state() == array_elems_spec(old(self).env(), old(self).state(), prefix@, *element_ty, *elements, fuel as nat, 0),
            final(self).env() == old(self).env(),
        decreases fuel, elements, 0nat,
    {
        let ghost env0 = self.env();
        let ghost goal = array_elems_spec(self.env(), self.state(), prefix@, *element_ty, *elements, fuel as nat, 0);
        let mut index: usize = 0;
        while index < elements.len()
            invariant
                index <= elements@.len(),
                self.env() == env0,
                env0 == old(self).env(),
                goal == array_elems_spec(old(self).env(), old(self).state(), prefix@, *element_ty, *elements, fuel as nat, 0),
                goal == array_elems_spec(env0, self.state(), prefix@, *element_ty, *elements, fuel as nat, index as nat),
            decreases elements@.len() - index,
        {
            let slot = index_slot(prefix, index as u64);
            self.lower_aggregate_into(slot.as_str(), element_ty, &elements[index], fuel);
            index = index + 1;
        }
    }

    fn lower_array_into(&mut self, prefix: &str, element_ty: &Type, value: &Expr, fuel: usize)
        ensures
            final(self).state() == array_into_spec(old(self).env(), old(self).state(), prefix@, *element_ty, *value, fuel as nat),
            final(self).env() == old(self).env(),
        decreases fuel, value, 3nat,
    {
        match value {
            Expr::Array(elements) => {
                self.set_array_length(prefix, elements.len());
                self.lower_array_elements(prefix, element_ty, elements, fuel);
            },
            Expr::Var(_) | Expr::Field { .. } | Expr::Index { .. } => {
                if let Some(source) = self.aggregate_place(value) {
                    let budget = self.budget;
                    self.copy_array_slots(prefix, element_ty, source.as_str(), budget);
                }
            },
            _ => {},
        }
    }
}


/// Every comparison operator lowers to a `Cmp` on the same operands whose comparison holds
/// exactly where constant folding gives 1: `a >= b` is a `>=`, not a `>`.
pub proof fn lemma_comparisons_lower_to_their_test(op: BinaryOp, dst: ValueId, left: ValueId, right: ValueId)
    requires
        op is Equal || op is NotEqual || op is Less || op is LessEqual || op is Greater || op is GreaterEqual,
    ensures
        binary_instruction_spec(op, dst, left, right) matches Instruction::Cmp { dst: d, op: c, left: l, right: r }
            && d == dst && l == left && r == right
            && forall|x: i64, y: i64| #[trigger] crate::pe::compare_spec(c, x, y) <==> fold_binary_spec(op, x, y) == Some(1i64),
{
}


/// Every arithmetic and bitwise operator lowers to the instruction that the compile-time
/// evaluator runs as that same operator, on the same operands.
pub proof fn lemma_arithmetic_lowers_to_its_operator(op: BinaryOp, dst: ValueId, left: ValueId, right: ValueId)
    requires
        !(op is And || op is Or || op is Equal || op is NotEqual || op is Less || op is LessEqual || op is Greater
            || op is GreaterEqual),
    ensures
        crate::pe::arith_op(binary_instruction_spec(op, dst, left, right)) == Some((op, dst, left, right)),
{
}

} // verus!
