//! What lowering computes, as spec functions over the lowering state.
//!
//! Names in the IR (locals, labels, called functions) are strings that the lowering builds
//! from pieces, so the state keeps each of them by its text, and instructions are compared
//! after each string field is replaced by the one string of its text (`canon`).
use vstd::prelude::*;
use crate::ast::{BinaryOp, Expr, Field, MatchArm, MatchPattern, Program, Stmt, StructDecl, Type, UnaryOp};
use crate::ir::{CmpOp, Instruction, ValueId};
use crate::lower::{
    array_depth, binary_instruction_spec, const_value_in, deref_width, enum_discriminant_spec, expr_type_in, field_offset_spec,
    last_const, last_struct, length_of, local_type_of, next_id, pattern_value_in, refs_const_in, type_align_spec,
    type_size_spec,
};
use crate::ast::same_type;
use crate::text::{decimal, signed_decimal};

verus! {

/// The string whose text is `s`.
pub open spec fn text(s: Seq<char>) -> String {
    choose|t: String| t@ == s
}

/// The value-id vector whose elements are `s`.
pub open spec fn id_vec(s: Seq<ValueId>) -> Vec<ValueId> {
    choose|v: Vec<ValueId>| v@ == s
}

/// An instruction with every string and id list replaced by the one of the same contents.
pub open spec fn canon(i: Instruction) -> Instruction {
    match i {
        Instruction::StringConst { dst, label, value } => Instruction::StringConst { dst, label: text(label@), value: text(value@) },
        Instruction::Load { dst, local } => Instruction::Load { dst, local: text(local@) },
        Instruction::AddressOf { dst, local } => Instruction::AddressOf { dst, local: text(local@) },
        Instruction::Store { local, value } => Instruction::Store { local: text(local@), value },
        Instruction::Jump { label } => Instruction::Jump { label: text(label@) },
        Instruction::JumpIfZero { value, label } => Instruction::JumpIfZero { value, label: text(label@) },
        Instruction::Label { name } => Instruction::Label { name: text(name@) },
        Instruction::Call { dst, function, args } => Instruction::Call { dst, function: text(function@), args: id_vec(args@) },
        Instruction::CallAggregate { dst, function, args, buffer } =>
            Instruction::CallAggregate { dst: id_vec(dst@), function: text(function@), args: id_vec(args@), buffer },
        Instruction::ReturnAggregate { values } => Instruction::ReturnAggregate { values: id_vec(values@) },
        _ => i,
    }
}

/// Instructions compared by contents.
pub open spec fn canon_all(s: Seq<Instruction>) -> Seq<Instruction> {
    s.map_values(|i: Instruction| canon(i))
}

/// What lowering reads and does not change: the program, the function's name and the
/// expansion budget.
pub struct LowerEnv {
    pub program: Program,
    pub function_name: Seq<char>,
    pub budget: usize,
}

/// What lowering changes: the instructions so far, the locals and their types, the recorded
/// array lengths, the enclosing loops' continue and break labels, and the three counters
/// for value ids, labels and string constants.
#[verifier::ext_equal]
pub struct LowerState {
    pub instructions: Seq<Instruction>,
    pub locals: Seq<(Seq<char>, Type)>,
    pub array_lengths: Seq<(Seq<char>, usize)>,
    pub loop_stack: Seq<(Seq<char>, Seq<char>)>,
    pub next_value: usize,
    pub next_label: usize,
    pub next_string: usize,
}

/// `i` appended.
pub open spec fn emit(st: LowerState, i: Instruction) -> LowerState {
    LowerState { instructions: st.instructions.push(i), ..st }
}

/// A fresh value id.
pub open spec fn fresh_value(st: LowerState) -> (ValueId, LowerState) {
    (ValueId(st.next_value), LowerState { next_value: next_id(st.next_value), ..st })
}

/// `.L<prefix>_<n>`.
pub open spec fn label_text(prefix: Seq<char>, n: usize) -> Seq<char> {
    ".L"@ + prefix + "_"@ + decimal(n as nat)
}

/// A fresh label with the given prefix.
pub open spec fn fresh_label_spec(st: LowerState, prefix: Seq<char>) -> (Seq<char>, LowerState) {
    (label_text(prefix, st.next_label), LowerState { next_label: next_id(st.next_label), ..st })
}

/// `__geo_str_<function>_<n>`, the data label of the next string constant.
pub open spec fn fresh_string_spec(env: LowerEnv, st: LowerState) -> (Seq<char>, LowerState) {
    ("__geo_str_"@ + env.function_name + "_"@ + decimal(st.next_string as nat),
        LowerState { next_string: next_id(st.next_string), ..st })
}

/// `s` without its last element; the empty sequence stays empty.
pub open spec fn pop_last<T>(s: Seq<T>) -> Seq<T> {
    if s.len() > 0 { s.drop_last() } else { s }
}

/// A constant in a fresh value.
pub open spec fn const_value(st: LowerState, value: i64) -> (ValueId, LowerState) {
    let (d, s1) = fresh_value(st);
    (d, emit(s1, Instruction::Const { dst: d, value }))
}

/// `local: ty` added to the locals.
pub open spec fn add_local(st: LowerState, name: Seq<char>, ty: Type) -> LowerState {
    LowerState { locals: st.locals.push((name, ty)), ..st }
}

/// The loads and stores that scalar copies make, the `k`th through the `k`th fresh id.
pub open spec fn moves_code(moves: Seq<(Seq<char>, Seq<char>)>, next: usize) -> Seq<Instruction>
    decreases moves.len(),
{
    if moves.len() == 0 {
        seq![]
    } else {
        let id = ValueId(next);
        seq![Instruction::Load { dst: id, local: text(moves[0].0) }, Instruction::Store { local: text(moves[0].1), value: id }]
            + moves_code(moves.drop_first(), next_id(next))
    }
}


/// The static type of an expression in the current locals.
pub open spec fn expr_ty(env: LowerEnv, st: LowerState, e: Expr) -> Option<Type> {
    expr_type_in(env.program, st.locals, e)
}

/// The ten integer types.
pub open spec fn integer_type(t: Type) -> bool {
    t is Int || t is Usize || t is I8 || t is I16 || t is I32 || t is I64 || t is U8 || t is U16 || t is U32 || t is U64
}

/// The step of a pointer to `inner`: its size, at least one.
pub open spec fn pointer_scale_spec(env: LowerEnv, inner: Type) -> i64 {
    let size = type_size_spec(env.program.structs@, inner, env.budget as nat);
    if size < 1 { 1 } else { size }
}

/// The width a load or store through `e` moves.
pub open spec fn deref_width_spec(env: LowerEnv, st: LowerState, e: Expr) -> u8 {
    match expr_ty(env, st, e) {
        Some(Type::Pointer(t)) => deref_width(type_size_spec(env.program.structs@, *t, env.budget as nat)),
        Some(Type::Reference { inner: t, .. }) => deref_width(type_size_spec(env.program.structs@, *t, env.budget as nat)),
        _ => 8u8,
    }
}

/// Structs of the program and arrays are lowered slot by slot.
pub open spec fn aggregate_type(env: LowerEnv, ty: Type) -> bool {
    match ty {
        Type::Named(name) => last_struct(env.program.structs@, name@) is Some,
        Type::Array(_) => true,
        _ => false,
    }
}

/// A local named `<prefix><function>_<next label>`.
pub open spec fn scratch_spec(env: LowerEnv, st: LowerState, prefix: Seq<char>) -> Seq<char> {
    prefix + env.function_name + "_"@ + decimal(st.next_label as nat)
}

/// `value` multiplied by `scale`, with no code for a scale of one.
pub open spec fn scale_spec(st: LowerState, value: ValueId, scale: i64) -> (ValueId, LowerState) {
    if scale == 1 {
        (value, st)
    } else {
        let (sv, s1) = fresh_value(st);
        let s2 = emit(s1, Instruction::Const { dst: sv, value: scale });
        let (d, s3) = fresh_value(s2);
        (d, emit(s3, Instruction::Mul { dst: d, left: value, right: sv }))
    }
}

/// The value a match pattern compares against, in a fresh value; none for the wildcard.
pub open spec fn pattern_spec(env: LowerEnv, st: LowerState, pattern: MatchPattern) -> (Option<ValueId>, LowerState) {
    match pattern_value_in(env.program, pattern) {
        Some(v) => {
            let (d, s1) = const_value(st, v);
            (Some(d), s1)
        },
        None => (None, st),
    }
}

/// The slot a place expression names, after the bounds checks that naming it emits: a local
/// names itself, a field `base.field`, and an index by an integer literal `base[i]`, checked
/// against the array's length where it is known.
pub open spec fn place_state(st: LowerState, expr: Expr) -> (Option<Seq<char>>, LowerState)
    decreases expr,
{
    match expr {
        Expr::Var(name) => (Some(name@), st),
        Expr::Field { base, name } => {
            let (b, s1) = place_state(st, *base);
            match b {
                Some(bs) => (Some(bs + "."@ + name@), s1),
                None => (None, s1),
            }
        },
        Expr::Index { base, index } => match *index {
            Expr::Int(i) => {
                let (b, s1) = place_state(st, *base);
                match b {
                    Some(bs) => {
                        let slot = bs + "["@ + signed_decimal(i as int) + "]"@;
                        match length_of(s1.array_lengths, bs) {
                            Some(len) => {
                                let (d, s2) = fresh_value(s1);
                                let s3 = emit(s2, Instruction::Const { dst: d, value: i });
                                (Some(slot), emit(s3, Instruction::BoundsCheck { index: d, len }))
                            },
                            None => (Some(slot), s1),
                        }
                    },
                    None => (None, s1),
                }
            },
            _ => (None, st),
        },
        _ => (None, st),
    }
}

/// A load of the slot a place names, or zero where it names none.
pub open spec fn load_place_spec(st: LowerState, expr: Expr) -> (ValueId, LowerState) {
    let (slot, s1) = place_state(st, expr);
    match slot {
        Some(t) => {
            let (d, s2) = fresh_value(s1);
            (d, emit(s2, Instruction::Load { dst: d, local: text(t) }))
        },
        None => const_value(s1, 0),
    }
}

/// Copying a `ty` slot from `source` to `target`: a struct field by field (with `fuel`
/// levels of nesting), an array of known length records the target's length and copies
/// element by element, and anything else is one load and one store.
pub open spec fn copy_slot_state(env: LowerEnv, st: LowerState, target: Seq<char>, ty: Type, source: Seq<char>, fuel: nat) -> LowerState
    decreases 2 * fuel + 1, array_depth(ty), 0int, 0int,
{
    match ty {
        Type::Named(name) => if fuel == 0 {
            st
        } else {
            match last_struct(env.program.structs@, name@) {
                Some(d) => copy_fields_state(env, st, target, d.fields, source, (fuel - 1) as nat, 0),
                None => st,
            }
        },
        Type::Array(elem) => match length_of(st.array_lengths, source) {
            Some(len) => copy_elems_state(env, LowerState { array_lengths: st.array_lengths.push((target, len)), ..st },
                target, *elem, source, fuel, len, 0),
            None => st,
        },
        _ => {
            let (v, s1) = fresh_value(st);
            let s2 = emit(s1, Instruction::Load { dst: v, local: text(source) });
            emit(s2, Instruction::Store { local: text(target), value: v })
        },
    }
}

/// The copies of the fields from index `i` on.
pub open spec fn copy_fields_state(env: LowerEnv, st: LowerState, target: Seq<char>, fields: Vec<Field>, source: Seq<char>,
    fuel: nat, i: nat) -> LowerState
    decreases 2 * fuel + 2, 0int, 0int, fields@.len() - i,
{
    if i >= fields@.len() {
        st
    } else {
        let f = fields@[i as int];
        let s1 = copy_slot_state(env, st, target + "."@ + f.name@, f.ty, source + "."@ + f.name@, fuel);
        copy_fields_state(env, s1, target, fields, source, fuel, i + 1)
    }
}

/// The copies of the array elements from `index` on.
pub open spec fn copy_elems_state(env: LowerEnv, st: LowerState, target: Seq<char>, elem: Type, source: Seq<char>,
    fuel: nat, len: usize, index: nat) -> LowerState
    decreases 2 * fuel + 1, array_depth(elem), 1int, len - index,
{
    if index >= len {
        st
    } else {
        let s1 = copy_slot_state(env, st, target + "["@ + decimal(index) + "]"@, elem, source + "["@ + decimal(index) + "]"@, fuel);
        copy_elems_state(env, s1, target, elem, source, fuel, len, index + 1)
    }
}

/// The first value named `name` at or after index `j`.
pub open spec fn find_value(values: Seq<(String, Expr)>, name: Seq<char>, j: nat) -> Option<nat>
    decreases values.len() - j,
{
    if j >= values.len() {
        None
    } else if values[j as int].0@ == name {
        Some(j)
    } else {
        find_value(values, name, j + 1)
    }
}

/// Lowering an expression: the value that holds its result and the state afterwards. An
/// expression that names a constant and folds is one constant; otherwise each form lowers
/// its operands left to right and then computes into a fresh value.
pub open spec fn lower_expr_spec(env: LowerEnv, st: LowerState, expr: Expr, fuel: nat) -> (ValueId, LowerState)
    decreases fuel, expr, 2nat, 0int,
{
    let folded = const_value_in(env.program, st.locals, env.budget, expr, seq![], env.budget as nat);
    if refs_const_in(env.program, st.locals, expr) && folded is Some {
        const_value(st, folded->0)
    } else {
        match expr {
            Expr::Int(value) => const_value(st, value),
            Expr::TypedInt { value, .. } => const_value(st, value),
            Expr::Bool(value) => const_value(st, if value { 1 } else { 0 }),
            Expr::Null => const_value(st, 0),
            Expr::Char(value) => const_value(st, (value as u32) as i64),
            Expr::String(value) => {
                let (d, s1) = fresh_value(st);
                let (label, s2) = fresh_string_spec(env, s1);
                (d, emit(s2, Instruction::StringConst { dst: d, label: text(label), value: text(value@) }))
            },
            Expr::Var(name) => {
                if local_type_of(st.locals, name@) is None && last_const(env.program.consts@, name@) is Some && fuel > 0 {
                    lower_expr_spec(env, st, last_const(env.program.consts@, name@)->0.value, (fuel - 1) as nat)
                } else {
                    let (d, s1) = fresh_value(st);
                    (d, emit(s1, Instruction::Load { dst: d, local: text(name@) }))
                }
            },
            Expr::Binary { op, left, right } => {
                if op is Add && expr_ty(env, st, *left) == Some(Type::String) && expr_ty(env, st, *right) == Some(Type::String) {
                    let (l, s1) = lower_expr_spec(env, st, *left, fuel);
                    let (r, s2) = lower_expr_spec(env, s1, *right, fuel);
                    let (d, s3) = fresh_value(s2);
                    (d, emit(s3, Instruction::Call { dst: d, function: text("string_concat"@), args: id_vec(seq![l, r]) }))
                } else {
                    match pointer_binary_spec(env, st, expr, fuel) {
                        Some(res) => res,
                        None => {
                            let (l, s1) = lower_expr_spec(env, st, *left, fuel);
                            let (r, s2) = lower_expr_spec(env, s1, *right, fuel);
                            let (d, s3) = fresh_value(s2);
                            (d, emit(s3, binary_instruction_spec(op, d, l, r)))
                        },
                    }
                }
            },
            Expr::Unary { op, expr: inner } => match op {
                UnaryOp::Neg => {
                    let (z, s1) = const_value(st, 0);
                    let (v, s2) = lower_expr_spec(env, s1, *inner, fuel);
                    let (d, s3) = fresh_value(s2);
                    (d, emit(s3, Instruction::Sub { dst: d, left: z, right: v }))
                },
                UnaryOp::Not => {
                    let (v, s1) = lower_expr_spec(env, st, *inner, fuel);
                    let (z, s2) = const_value(s1, 0);
                    let (d, s3) = fresh_value(s2);
                    (d, emit(s3, Instruction::Cmp { dst: d, op: CmpOp::Equal, left: v, right: z }))
                },
                UnaryOp::BitNot => {
                    let (v, s1) = lower_expr_spec(env, st, *inner, fuel);
                    let (d, s2) = fresh_value(s1);
                    (d, emit(s2, Instruction::BitNot { dst: d, value: v }))
                },
                UnaryOp::Deref => {
                    let width = deref_width_spec(env, st, *inner);
                    let (p, s1) = lower_expr_spec(env, st, *inner, fuel);
                    let (d, s2) = fresh_value(s1);
                    (d, emit(s2, Instruction::Deref { dst: d, pointer: p, width }))
                },
                _ => {
                    let (slot, s1) = place_state(st, *inner);
                    match slot {
                        Some(t) => {
                            let (d, s2) = fresh_value(s1);
                            (d, emit(s2, Instruction::AddressOf { dst: d, local: text(t) }))
                        },
                        None => const_value(s1, 0),
                    }
                },
            },
            Expr::Cast { expr: inner, .. } => lower_expr_spec(env, st, *inner, fuel),
            Expr::SizeOf(ty) => const_value(st, type_size_spec(env.program.structs@, ty, env.budget as nat)),
            Expr::AlignOf(ty) => const_value(st, type_align_spec(env.program.structs@, ty, env.budget as nat)),
            Expr::OffsetOf { ty, field } => const_value(st, field_offset_spec(env.program.structs@, ty, field@, env.budget as nat)),
            Expr::Match { value, arms } => {
                let (scrutinee, s1) = lower_expr_spec(env, st, *value, fuel);
                let result = scratch_spec(env, s1, "__geo_match_"@);
                let s2 = match expr_ty(env, s1, expr) {
                    Some(t) => add_local(s1, result, t),
                    None => s1,
                };
                let (end_label, s3) = fresh_label_spec(s2, "match_end"@);
                let s4 = match_arms_spec(env, s3, arms, scrutinee, result, end_label, fuel, 0);
                let (fallback, s5) = const_value(s4, 0);
                let s6 = emit(s5, Instruction::Store { local: text(result), value: fallback });
                let s7 = emit(s6, Instruction::Label { name: text(end_label) });
                let (d, s8) = fresh_value(s7);
                (d, emit(s8, Instruction::Load { dst: d, local: text(result) }))
            },
            Expr::If { condition, then_value, else_value } => {
                let result = scratch_spec(env, st, "__geo_if_"@);
                let s1 = match expr_ty(env, st, expr) {
                    Some(t) => add_local(st, result, t),
                    None => st,
                };
                let (else_label, s2) = fresh_label_spec(s1, "if_else"@);
                let (end_label, s3) = fresh_label_spec(s2, "if_end"@);
                let (c, s4) = lower_expr_spec(env, s3, *condition, fuel);
                let s5 = emit(s4, Instruction::JumpIfZero { value: c, label: text(else_label) });
                let (t, s6) = lower_expr_spec(env, s5, *then_value, fuel);
                let s7 = emit(s6, Instruction::Store { local: text(result), value: t });
                let s8 = emit(s7, Instruction::Jump { label: text(end_label) });
                let s9 = emit(s8, Instruction::Label { name: text(else_label) });
                let (e, s10) = lower_expr_spec(env, s9, *else_value, fuel);
                let s11 = emit(s10, Instruction::Store { local: text(result), value: e });
                let s12 = emit(s11, Instruction::Label { name: text(end_label) });
                let (d, s13) = fresh_value(s12);
                (d, emit(s13, Instruction::Load { dst: d, local: text(result) }))
            },
            Expr::Block { statements, value } => {
                let s1 = lower_stmts_spec(env, st, statements, fuel, 0);
                lower_expr_spec(env, s1, *value, fuel)
            },
            Expr::Call { name, args } => {
                let (values, s1) = lower_args_spec(env, st, args, fuel, 0, seq![]);
                let (d, s2) = fresh_value(s1);
                (d, emit(s2, Instruction::Call { dst: d, function: text(name@), args: id_vec(values) }))
            },
            Expr::Index { base, index } => {
                if expr_ty(env, st, *base) == Some(Type::String) {
                    let (b, s1) = lower_expr_spec(env, st, *base, fuel);
                    let (i, s2) = lower_expr_spec(env, s1, *index, fuel);
                    let (d, s3) = fresh_value(s2);
                    (d, emit(s3, Instruction::Call { dst: d, function: text("__geo_string_get"@), args: id_vec(seq![b, i]) }))
                } else {
                    load_place_spec(st, expr)
                }
            },
            Expr::Field { base, name } => {
                if *base matches Expr::Var(e)
                    && enum_discriminant_spec(env.program.enums@, e@, name@, env.program.enums@.len()) is Some {
                    const_value(st, enum_discriminant_spec(env.program.enums@, base->Var_0@, name@, env.program.enums@.len())->0)
                } else {
                    load_place_spec(st, expr)
                }
            },
            _ => const_value(st, 0),
        }
    }
}

/// Pointer arithmetic: a pointer moved by an integer (scaled by the pointee's size), or the
/// distance between two pointers to the same type (divided by it); `None` for anything else,
/// with nothing emitted.
pub open spec fn pointer_binary_spec(env: LowerEnv, st: LowerState, expr: Expr, fuel: nat) -> Option<(ValueId, LowerState)>
    decreases fuel, expr, 1nat, 0int,
{
    match expr {
        Expr::Binary { op, left, right } => match (expr_ty(env, st, *left), expr_ty(env, st, *right)) {
            (Some(Type::Pointer(inner)), Some(rt)) => {
                if (op is Add || op is Sub) && integer_type(rt) {
                    let (l, s1) = lower_expr_spec(env, st, *left, fuel);
                    let (r, s2) = lower_expr_spec(env, s1, *right, fuel);
                    let (sr, s3) = scale_spec(s2, r, pointer_scale_spec(env, *inner));
                    let (d, s4) = fresh_value(s3);
                    Some((d, emit(s4, if op is Add {
                        Instruction::Add { dst: d, left: l, right: sr }
                    } else {
                        Instruction::Sub { dst: d, left: l, right: sr }
                    })))
                } else if op is Sub && (rt matches Type::Pointer(ri) && same_type(*inner, *ri)) {
                    let (l, s1) = lower_expr_spec(env, st, *left, fuel);
                    let (r, s2) = lower_expr_spec(env, s1, *right, fuel);
                    let (diff, s3) = fresh_value(s2);
                    let s4 = emit(s3, Instruction::Sub { dst: diff, left: l, right: r });
                    let (sv, s5) = fresh_value(s4);
                    let s6 = emit(s5, Instruction::Const { dst: sv, value: pointer_scale_spec(env, *inner) });
                    let (d, s7) = fresh_value(s6);
                    Some((d, emit(s7, Instruction::Div { dst: d, left: diff, right: sv })))
                } else {
                    None
                }
            },
            _ => None,
        },
        _ => None,
    }
}

/// The values of the arguments from index `i` on, after those in `done`.
pub open spec fn lower_args_spec(env: LowerEnv, st: LowerState, args: Vec<Expr>, fuel: nat, i: nat, done: Seq<ValueId>)
    -> (Seq<ValueId>, LowerState)
    decreases fuel, args, 0nat, args@.len() - i,
{
    if i >= args@.len() {
        (done, st)
    } else {
        let (v, s1) = lower_expr_spec(env, st, args@[i as int], fuel);
        lower_args_spec(env, s1, args, fuel, i + 1, done.push(v))
    }
}

/// The arms of a `match` from index `i` on: an arm with a value pattern compares the
/// scrutinee and stores its value when equal; a wildcard arm stores its value and ends
/// the chain.
pub open spec fn match_arms_spec(env: LowerEnv, st: LowerState, arms: Vec<MatchArm>, scrutinee: ValueId, result: Seq<char>,
    end_label: Seq<char>, fuel: nat, i: nat) -> LowerState
    decreases fuel, arms, 0nat, arms@.len() - i,
{
    if i >= arms@.len() {
        st
    } else {
        let (pv, s1) = pattern_spec(env, st, arms@[i as int].pattern);
        match pv {
            Some(p) => {
                let (arm_label, s2) = fresh_label_spec(s1, "match_arm"@);
                let (next_label, s3) = fresh_label_spec(s2, "match_next"@);
                let (ne, s4) = fresh_value(s3);
                let s5 = emit(s4, Instruction::Cmp { dst: ne, op: CmpOp::NotEqual, left: scrutinee, right: p });
                let s6 = emit(s5, Instruction::JumpIfZero { value: ne, label: text(arm_label) });
                let s7 = emit(s6, Instruction::Jump { label: text(next_label) });
                let s8 = emit(s7, Instruction::Label { name: text(arm_label) });
                let (v, s9) = lower_expr_spec(env, s8, arms@[i as int].value, fuel);
                let s10 = emit(s9, Instruction::Store { local: text(result), value: v });
                let s11 = emit(s10, Instruction::Jump { label: text(end_label) });
                let s12 = emit(s11, Instruction::Label { name: text(next_label) });
                match_arms_spec(env, s12, arms, scrutinee, result, end_label, fuel, i + 1)
            },
            None => {
                let (v, s2) = lower_expr_spec(env, s1, arms@[i as int].value, fuel);
                let s3 = emit(s2, Instruction::Store { local: text(result), value: v });
                emit(s3, Instruction::Jump { label: text(end_label) })
            },
        }
    }
}

/// `name op value` for a compound assignment; a pointer local moved by an integer is
/// scaled by its pointee's size.
pub open spec fn compound_spec(env: LowerEnv, st: LowerState, name: Seq<char>, op: BinaryOp, value: Expr, fuel: nat)
    -> (ValueId, LowerState)
    decreases fuel, value, 3nat, 0int,
{
    let (left, s1) = fresh_value(st);
    let s2 = emit(s1, Instruction::Load { dst: left, local: text(name) });
    let scaled = match local_type_of(s2.locals, name) {
        Some(Type::Pointer(_)) => (op is Add || op is Sub) && match expr_ty(env, s2, value) {
            Some(t) => integer_type(t),
            None => false,
        },
        _ => false,
    };
    if scaled {
        let inner = local_type_of(s2.locals, name)->0->Pointer_0;
        let (r, s3) = lower_expr_spec(env, s2, value, fuel);
        let (sr, s4) = scale_spec(s3, r, pointer_scale_spec(env, *inner));
        let (d, s5) = fresh_value(s4);
        (d, emit(s5, if op is Add {
            Instruction::Add { dst: d, left, right: sr }
        } else {
            Instruction::Sub { dst: d, left, right: sr }
        }))
    } else {
        let (r, s3) = lower_expr_spec(env, s2, value, fuel);
        let (d, s4) = fresh_value(s3);
        (d, emit(s4, binary_instruction_spec(op, d, left, r)))
    }
}

/// `op` applied to what `left` loads and the lowered `value`.
pub open spec fn combine_spec(env: LowerEnv, st: LowerState, left_load: Instruction, left: ValueId, op: BinaryOp, value: Expr,
    fuel: nat) -> (ValueId, LowerState)
    decreases fuel, value, 2nat, 1int,
{
    let s1 = emit(st, left_load);
    let (right, s2) = lower_expr_spec(env, s1, value, fuel);
    let (d, s3) = fresh_value(s2);
    (d, emit(s3, binary_instruction_spec(op, d, left, right)))
}

/// Lowering one statement.
pub open spec fn lower_stmt_spec(env: LowerEnv, st: LowerState, stmt: Stmt, fuel: nat) -> LowerState
    decreases fuel, stmt, 0nat, 0int,
{
    match stmt {
        Stmt::Return(e) => {
            let (v, s1) = match e {
                Some(x) => lower_expr_spec(env, st, x, fuel),
                None => const_value(st, 0),
            };
            emit(s1, Instruction::Return { value: v })
        },
        Stmt::Let { name, ty, value, .. } => {
            let lt = match ty {
                Some(t) => Some(t),
                None => expr_ty(env, st, value),
            };
            let t = match lt {
                Some(t) => t,
                None => Type::Int,
            };
            let s1 = add_local(st, name@, t);
            if lt is Some && aggregate_type(env, t) {
                aggregate_into_spec(env, s1, name@, t, value, fuel)
            } else {
                let (v, s2) = lower_expr_spec(env, s1, value, fuel);
                emit(s2, Instruction::Store { local: text(name@), value: v })
            }
        },
        Stmt::Assign { name, op, value } => {
            if op is None && (value is Struct || value is Array) {
                match local_type_of(st.locals, name@) {
                    Some(t) => aggregate_into_spec(env, st, name@, t, value, fuel),
                    None => st,
                }
            } else {
                let (v, s1) = match op {
                    Some(o) => compound_spec(env, st, name@, o, value, fuel),
                    None => lower_expr_spec(env, st, value, fuel),
                };
                emit(s1, Instruction::Store { local: text(name@), value: v })
            }
        },
        Stmt::PointerAssign { pointer, op, value } => {
            let width = deref_width_spec(env, st, pointer);
            let (p, s1) = lower_expr_spec(env, st, pointer, fuel);
            let (v, s2) = match op {
                Some(o) => {
                    let (left, a1) = fresh_value(s1);
                    combine_spec(env, a1, Instruction::Deref { dst: left, pointer: p, width }, left, o, value, fuel)
                },
                None => lower_expr_spec(env, s1, value, fuel),
            };
            emit(s2, Instruction::StoreDeref { pointer: p, value: v, width })
        },
        Stmt::PlaceAssign { target, op, value } => {
            let (slot, s1) = place_state(st, target);
            match slot {
                None => s1,
                Some(local) => {
                    let (v, s2) = match op {
                        Some(o) => {
                            let (left, a1) = fresh_value(s1);
                            combine_spec(env, a1, Instruction::Load { dst: left, local: text(local) }, left, o, value, fuel)
                        },
                        None => lower_expr_spec(env, s1, value, fuel),
                    };
                    emit(s2, Instruction::Store { local: text(local), value: v })
                },
            }
        },
        Stmt::If { condition, then_body, else_body } => {
            let (else_label, s1) = fresh_label_spec(st, "else"@);
            let (end_label, s2) = fresh_label_spec(s1, "endif"@);
            let (c, s3) = lower_expr_spec(env, s2, condition, fuel);
            let s4 = emit(s3, Instruction::JumpIfZero { value: c, label: text(else_label) });
            let s5 = lower_stmts_spec(env, s4, then_body, fuel, 0);
            let s6 = emit(s5, Instruction::Jump { label: text(end_label) });
            let s7 = emit(s6, Instruction::Label { name: text(else_label) });
            let s8 = lower_stmts_spec(env, s7, else_body, fuel, 0);
            emit(s8, Instruction::Label { name: text(end_label) })
        },
        Stmt::While { condition, body } => {
            let (start_label, s1) = fresh_label_spec(st, "while"@);
            let (end_label, s2) = fresh_label_spec(s1, "endwhile"@);
            let s3 = enter_loop(s2, start_label, end_label);
            let s4 = emit(s3, Instruction::Label { name: text(start_label) });
            let (c, s5) = lower_expr_spec(env, s4, condition, fuel);
            let s6 = emit(s5, Instruction::JumpIfZero { value: c, label: text(end_label) });
            let s7 = lower_stmts_spec(env, s6, body, fuel, 0);
            let s8 = leave_loop(s7);
            let s9 = emit(s8, Instruction::Jump { label: text(start_label) });
            emit(s9, Instruction::Label { name: text(end_label) })
        },
        Stmt::For { name, start, end, inclusive, body } => {
            let start_ty = match expr_ty(env, st, start) {
                Some(t) => t,
                None => Type::Int,
            };
            let s1 = add_local(st, name@, start_ty);
            let (sv, s2) = lower_expr_spec(env, s1, start, fuel);
            let s3 = emit(s2, Instruction::Store { local: text(name@), value: sv });
            let (ev, s4) = lower_expr_spec(env, s3, end, fuel);
            let end_local = "__geo_for_end_"@ + name@ + "_"@ + decimal(s4.next_label as nat);
            let s5 = emit(s4, Instruction::Store { local: text(end_local), value: ev });
            let (start_label, s6) = fresh_label_spec(s5, "for"@);
            let (continue_label, s7) = fresh_label_spec(s6, "for_next"@);
            let (end_label, s8) = fresh_label_spec(s7, "endfor"@);
            let s9 = enter_loop(s8, continue_label, end_label);
            let s10 = emit(s9, Instruction::Label { name: text(start_label) });
            let (current, s11) = fresh_value(s10);
            let s12 = emit(s11, Instruction::Load { dst: current, local: text(name@) });
            let (limit, s13) = fresh_value(s12);
            let s14 = emit(s13, Instruction::Load { dst: limit, local: text(end_local) });
            let (condition, s15) = fresh_value(s14);
            let s16 = emit(s15, Instruction::Cmp {
                dst: condition, op: if inclusive { CmpOp::LessEqual } else { CmpOp::Less }, left: current, right: limit });
            let s17 = emit(s16, Instruction::JumpIfZero { value: condition, label: text(end_label) });
            let s18 = lower_stmts_spec(env, s17, body, fuel, 0);
            let s19 = emit(s18, Instruction::Label { name: text(continue_label) });
            let (again, s20) = fresh_value(s19);
            let s21 = emit(s20, Instruction::Load { dst: again, local: text(name@) });
            let (one, s22) = fresh_value(s21);
            let s23 = emit(s22, Instruction::Const { dst: one, value: 1 });
            let (next, s24) = fresh_value(s23);
            let s25 = emit(s24, Instruction::Add { dst: next, left: again, right: one });
            let s26 = emit(s25, Instruction::Store { local: text(name@), value: next });
            let s27 = leave_loop(s26);
            let s28 = emit(s27, Instruction::Jump { label: text(start_label) });
            emit(s28, Instruction::Label { name: text(end_label) })
        },
        Stmt::Loop(body) => {
            let (start_label, s1) = fresh_label_spec(st, "loop"@);
            let (end_label, s2) = fresh_label_spec(s1, "endloop"@);
            let s3 = enter_loop(s2, start_label, end_label);
            let s4 = emit(s3, Instruction::Label { name: text(start_label) });
            let s5 = lower_stmts_spec(env, s4, body, fuel, 0);
            let s6 = leave_loop(s5);
            let s7 = emit(s6, Instruction::Jump { label: text(start_label) });
            emit(s7, Instruction::Label { name: text(end_label) })
        },
        Stmt::Unsafe(body) => lower_stmts_spec(env, st, body, fuel, 0),
        Stmt::Break => if st.loop_stack.len() > 0 {
            emit(st, Instruction::Jump { label: text(st.loop_stack.last().1) })
        } else {
            st
        },
        Stmt::Continue => if st.loop_stack.len() > 0 {
            emit(st, Instruction::Jump { label: text(st.loop_stack.last().0) })
        } else {
            st
        },
        Stmt::Expr(e) => lower_expr_spec(env, st, e, fuel).1,
    }
}

/// The statements from index `i` on, in order.
pub open spec fn lower_stmts_spec(env: LowerEnv, st: LowerState, stmts: Vec<Stmt>, fuel: nat, i: nat) -> LowerState
    decreases fuel, stmts, 0nat, stmts@.len() - i,
{
    if i >= stmts@.len() {
        st
    } else {
        lower_stmts_spec(env, lower_stmt_spec(env, st, stmts@[i as int], fuel), stmts, fuel, i + 1)
    }
}

/// Storing `value` into the slots under `prefix`: field by field for a struct of the
/// program, element by element for an array, and as one value otherwise.
pub open spec fn aggregate_into_spec(env: LowerEnv, st: LowerState, prefix: Seq<char>, ty: Type, value: Expr, fuel: nat) -> LowerState
    decreases fuel, value, 4nat, 0int,
{
    if ty matches Type::Named(name) && last_struct(env.program.structs@, name@) is Some {
        struct_into_spec(env, st, prefix, ty->Named_0@, value, fuel)
    } else if ty is Array {
        array_into_spec(env, st, prefix, *ty->Array_0, value, fuel)
    } else {
        let (v, s1) = lower_expr_spec(env, st, value, fuel);
        emit(s1, Instruction::Store { local: text(prefix), value: v })
    }
}

/// Storing a struct value: a literal field by field, a named struct or a place by copying.
pub open spec fn struct_into_spec(env: LowerEnv, st: LowerState, prefix: Seq<char>, name: Seq<char>, value: Expr, fuel: nat) -> LowerState
    decreases fuel, value, 3nat, 0int,
{
    match last_struct(env.program.structs@, name) {
        None => st,
        Some(d) => match value {
            Expr::Struct { fields: values, .. } => struct_fields_spec(env, st, prefix, d.fields, values, fuel, 0),
            Expr::Var(source) => copy_fields_state(env, st, prefix, d.fields, source@, env.budget as nat, 0),
            Expr::Field { .. } | Expr::Index { .. } => {
                let (slot, s1) = place_state(st, value);
                match slot {
                    Some(source) => copy_fields_state(env, s1, prefix, d.fields, source, env.budget as nat, 0),
                    None => s1,
                }
            },
            _ => st,
        },
    }
}

/// The fields of a struct literal from index `i` on, each stored from the value the literal
/// gives it; a field the literal leaves out is skipped.
pub open spec fn struct_fields_spec(env: LowerEnv, st: LowerState, prefix: Seq<char>, fields: Vec<Field>, values: Vec<(String, Expr)>,
    fuel: nat, i: nat) -> LowerState
    decreases fuel, values, 0nat, fields@.len() - i,
{
    if i >= fields@.len() {
        st
    } else {
        let f = fields@[i as int];
        let s1 = match find_value(values@, f.name@, 0) {
            Some(j) => if j < values@.len() {
                aggregate_into_spec(env, st, prefix + "."@ + f.name@, f.ty, values@[j as int].1, fuel)
            } else {
                st
            },
            None => st,
        };
        struct_fields_spec(env, s1, prefix, fields, values, fuel, i + 1)
    }
}

/// Storing an array value: a literal records its length and stores element by element, a
/// place is copied.
pub open spec fn array_into_spec(env: LowerEnv, st: LowerState, prefix: Seq<char>, elem: Type, value: Expr, fuel: nat) -> LowerState
    decreases fuel, value, 3nat, 0int,
{
    match value {
        Expr::Array(elements) => {
            let s1 = LowerState { array_lengths: st.array_lengths.push((prefix, elements@.len() as usize)), ..st };
            array_elems_spec(env, s1, prefix, elem, elements, fuel, 0)
        },
        Expr::Var(_) | Expr::Field { .. } | Expr::Index { .. } => {
            let (slot, s1) = place_state(st, value);
            match slot {
                Some(source) => copy_slot_state(env, s1, prefix, Type::Array(Box::new(elem)), source, env.budget as nat),
                None => s1,
            }
        },
        _ => st,
    }
}

/// The elements of an array literal from index `i` on.
pub open spec fn array_elems_spec(env: LowerEnv, st: LowerState, prefix: Seq<char>, elem: Type, elements: Vec<Expr>, fuel: nat,
    i: nat) -> LowerState
    decreases fuel, elements, 0nat, elements@.len() - i,
{
    if i >= elements@.len() {
        st
    } else {
        let s1 = aggregate_into_spec(env, st, prefix + "["@ + decimal(i) + "]"@, elem, elements@[i as int], fuel);
        array_elems_spec(env, s1, prefix, elem, elements, fuel, i + 1)
    }
}

/// Entering a loop with the given continue and break labels.
pub open spec fn enter_loop(st: LowerState, continue_label: Seq<char>, break_label: Seq<char>) -> LowerState {
    LowerState { loop_stack: st.loop_stack.push((continue_label, break_label)), ..st }
}

/// Leaving the innermost loop.
pub open spec fn leave_loop(st: LowerState) -> LowerState {
    LowerState { loop_stack: pop_last(st.loop_stack), ..st }
}


/// The expansion budget: one more than the declarations that expansion can pass through.
pub open spec fn depth_budget_spec(program: Program) -> usize {
    if program.consts@.len() < 0x1000_0000 && program.structs@.len() < 0x1000_0000 {
        (program.consts@.len() + program.structs@.len() + 1) as usize
    } else {
        0x2000_0000
    }
}

/// What lowering a function reads: the program, the function's name and the budget.
pub open spec fn function_env(program: Program, function: crate::ast::Function) -> LowerEnv {
    LowerEnv { program, function_name: function.name@, budget: depth_budget_spec(program) }
}

/// The state a function's lowering starts from: its parameters as locals, nothing else.
pub open spec fn initial_state(function: crate::ast::Function) -> LowerState {
    LowerState {
        instructions: seq![],
        locals: Seq::new(function.params@.len(), |k: int| (function.params@[k].name@, function.params@[k].ty)),
        array_lengths: seq![],
        loop_stack: seq![],
        next_value: 0,
        next_label: 0,
        next_string: 0,
    }
}

/// The statements from index `i` up to `end`.
pub open spec fn lower_stmts_until(env: LowerEnv, st: LowerState, stmts: Vec<Stmt>, fuel: nat, i: nat, end: nat) -> LowerState
    decreases end - i,
{
    if i >= end || i >= stmts@.len() {
        st
    } else {
        lower_stmts_until(env, lower_stmt_spec(env, st, stmts@[i as int], fuel), stmts, fuel, i + 1, end)
    }
}

/// Whether a function's last statement is an expression whose value it returns.
pub open spec fn returns_tail(function: crate::ast::Function) -> bool {
    let n = function.body@.len();
    n > 0 && !(function.return_type is Unit) && function.body@[n - 1] is Expr
}

/// A function's state after its body: the tail expression's value returned where the
/// function returns it, the statements in order otherwise.
pub open spec fn body_state(program: Program, function: crate::ast::Function) -> LowerState {
    let env = function_env(program, function);
    let fuel = env.budget as nat;
    let n = function.body@.len();
    if returns_tail(function) {
        let s1 = lower_stmts_until(env, initial_state(function), function.body, fuel, 0, (n - 1) as nat);
        let (v, s2) = lower_expr_spec(env, s1, function.body@[n - 1]->Expr_0, fuel);
        emit(s2, Instruction::Return { value: v })
    } else {
        lower_stmts_spec(env, initial_state(function), function.body, fuel, 0)
    }
}

/// The instructions a function lowers to: its body, then `return 0` unless the body
/// already ends in a `Return`.
pub open spec fn lowered_body(program: Program, function: crate::ast::Function) -> Seq<Instruction> {
    let st = body_state(program, function);
    if st.instructions.len() > 0 && st.instructions.last() is Return {
        st.instructions
    } else {
        let (v, s1) = fresh_value(st);
        emit(emit(s1, Instruction::Const { dst: v, value: 0 }), Instruction::Return { value: v }).instructions
    }
}

} // verus!
