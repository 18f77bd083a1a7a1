use vstd::prelude::*;
use vstd::string::StringExecFns;
use crate::ir::{CmpOp, Instruction, IrFunction, IrProgram, ValueId};
use crate::target::{Abi, Target};
use crate::text::{decimal, push_decimal, push_signed_decimal, signed_decimal, str_eq};

verus! {

// ---------------------------------------------------------------------------
// Stack layout of one function
// ---------------------------------------------------------------------------

/// One demand for an 8-byte stack slot, in the order in which the layout meets them.
pub enum SlotRequest {
    Local(Seq<char>),
    Value(usize),
}

/// The values that an instruction defines, in order.
pub open spec fn spec_defined_values(instruction: Instruction) -> Seq<ValueId> {
    match instruction {
        Instruction::Const { dst, .. } => seq![dst],
        Instruction::StringConst { dst, .. } => seq![dst],
        Instruction::And { dst, .. } => seq![dst],
        Instruction::Or { dst, .. } => seq![dst],
        Instruction::BitAnd { dst, .. } => seq![dst],
        Instruction::BitOr { dst, .. } => seq![dst],
        Instruction::BitXor { dst, .. } => seq![dst],
        Instruction::ShiftLeft { dst, .. } => seq![dst],
        Instruction::ShiftRight { dst, .. } => seq![dst],
        Instruction::Add { dst, .. } => seq![dst],
        Instruction::Sub { dst, .. } => seq![dst],
        Instruction::Mul { dst, .. } => seq![dst],
        Instruction::Div { dst, .. } => seq![dst],
        Instruction::Rem { dst, .. } => seq![dst],
        Instruction::Load { dst, .. } => seq![dst],
        Instruction::AddressOf { dst, .. } => seq![dst],
        Instruction::Deref { dst, .. } => seq![dst],
        Instruction::BitNot { dst, .. } => seq![dst],
        Instruction::Cmp { dst, .. } => seq![dst],
        Instruction::Call { dst, .. } => seq![dst],
        Instruction::CallAggregate { dst, .. } => dst@,
        _ => Seq::empty(),
    }
}

/// The slot requests of one instruction: its defined values, then the local it stores to.
pub open spec fn instruction_requests(instruction: Instruction) -> Seq<SlotRequest> {
    spec_defined_values(instruction).map_values(|v: ValueId| SlotRequest::Value(v.0)) + match instruction {
        Instruction::Store { local, .. } => seq![SlotRequest::Local(local@)],
        _ => Seq::empty(),
    }
}

pub open spec fn param_requests(params: Seq<String>) -> Seq<SlotRequest> {
    params.map_values(|p: String| SlotRequest::Local(p@))
}

pub open spec fn instructions_requests(instructions: Seq<Instruction>) -> Seq<SlotRequest>
    decreases instructions.len(),
{
    if instructions.len() == 0 {
        Seq::empty()
    } else {
        instructions_requests(instructions.drop_last()) + instruction_requests(instructions.last())
    }
}

/// Every slot request of a function: its parameters, then what its instructions define and store.
pub open spec fn layout_requests(function: IrFunction) -> Seq<SlotRequest> {
    param_requests(function.params@) + instructions_requests(function.instructions@)
}

/// The slot of a key in an association list (the last binding wins; keys are unique in layouts).
pub open spec fn lookup_value(slots: Seq<(usize, i32)>, key: usize) -> Option<i32>
    decreases slots.len(),
{
    if slots.len() == 0 {
        None
    } else if slots.last().0 == key {
        Some(slots.last().1)
    } else {
        lookup_value(slots.drop_last(), key)
    }
}

pub open spec fn lookup_local(slots: Seq<(Seq<char>, i32)>, key: Seq<char>) -> Option<i32>
    decreases slots.len(),
{
    if slots.len() == 0 {
        None
    } else if slots.last().0 == key {
        Some(slots.last().1)
    } else {
        lookup_local(slots.drop_last(), key)
    }
}

/// The state of slot assignment after some requests: the bindings made and the next free offset.
pub struct SlotState {
    pub values: Seq<(usize, i32)>,
    pub locals: Seq<(Seq<char>, i32)>,
    pub next: int,
}

/// A request that is already bound keeps its slot; a new one gets the next free offset.
pub open spec fn slot_step(state: SlotState, request: SlotRequest) -> SlotState {
    match request {
        SlotRequest::Value(v) => if lookup_value(state.values, v) is Some {
            state
        } else {
            SlotState { values: state.values.push((v, state.next as i32)), next: state.next + 8, ..state }
        },
        SlotRequest::Local(name) => if lookup_local(state.locals, name) is Some {
            state
        } else {
            SlotState { locals: state.locals.push((name, state.next as i32)), next: state.next + 8, ..state }
        },
    }
}

/// Slot assignment over a run of requests, starting at offset 8.
pub open spec fn assign_slots(requests: Seq<SlotRequest>) -> SlotState
    decreases requests.len(),
{
    if requests.len() == 0 {
        SlotState { values: Seq::empty(), locals: Seq::empty(), next: 8 }
    } else {
        slot_step(assign_slots(requests.drop_last()), requests.last())
    }
}

/// Aggregate return buffers: each buffer index gets, on its first use, room for all its values.
pub open spec fn assign_buffers(instructions: Seq<Instruction>, start: int) -> (Seq<(usize, i32)>, int)
    decreases instructions.len(),
{
    if instructions.len() == 0 {
        (Seq::empty(), start)
    } else {
        let (buffers, next) = assign_buffers(instructions.drop_last(), start);
        match instructions.last() {
            Instruction::CallAggregate { dst, buffer, .. } => if lookup_value(buffers, buffer) is Some {
                (buffers, next)
            } else {
                (buffers.push((buffer, next as i32)), next + dst.len() * 8)
            },
            _ => (buffers, next),
        }
    }
}

/// An upper bound on the bytes that aggregate buffers take.
pub open spec fn buffer_demand(instructions: Seq<Instruction>) -> int
    decreases instructions.len(),
{
    if instructions.len() == 0 {
        0
    } else {
        buffer_demand(instructions.drop_last()) + match instructions.last() {
            Instruction::CallAggregate { dst, .. } => dst.len() * 8,
            _ => 0,
        }
    }
}

/// How many stack slots a function may need: the limit below keeps every offset in `i32`.
pub open spec fn layout_demand(function: IrFunction) -> int {
    layout_requests(function).len() * 8 + buffer_demand(function.instructions@)
}

pub open spec fn small_function(function: IrFunction) -> bool {
    layout_demand(function) < 0x100_0000
}

/// The frame: the used bytes rounded up to a multiple of 16.
pub open spec fn frame_size_for(used: int) -> int {
    if used == 0 { 0 } else { ((used + 15) / 16) * 16 }
}

/// The stack layout of a function, as its values, locals and buffers receive their slots.
pub struct FunctionLayout {
    pub value_slots: Vec<(usize, i32)>,
    pub local_slots: Vec<(String, i32)>,
    pub aggregate_buffers: Vec<(usize, i32)>,
    pub frame_size: i32,
}

/// What a layout says: the slot of each value, local and buffer, and the frame size.
pub struct LayoutView {
    pub values: Seq<(usize, i32)>,
    pub locals: Seq<(Seq<char>, i32)>,
    pub buffers: Seq<(usize, i32)>,
    pub frame: int,
}

impl View for FunctionLayout {
    type V = LayoutView;

    open spec fn view(&self) -> LayoutView {
        LayoutView {
            values: self.value_slots@,
            locals: self.local_slots@.map_values(|e: (String, i32)| (e.0@, e.1)),
            buffers: self.aggregate_buffers@,
            frame: self.frame_size as int,
        }
    }
}

/// The layout that slot assignment gives a function.
pub open spec fn layout_of(function: IrFunction) -> LayoutView {
    let slots = assign_slots(layout_requests(function));
    let (buffers, next) = assign_buffers(function.instructions@, slots.next);
    LayoutView { values: slots.values, locals: slots.locals, buffers, frame: frame_size_for(next - 8) }
}

proof fn lemma_assign_slots_next(requests: Seq<SlotRequest>)
    ensures
        8 <= assign_slots(requests).next <= 8 + 8 * requests.len(),
    decreases requests.len(),
{
    if requests.len() > 0 {
        lemma_assign_slots_next(requests.drop_last());
    }
}

proof fn lemma_assign_buffers_next(instructions: Seq<Instruction>, start: int)
    ensures
        start <= assign_buffers(instructions, start).1 <= start + buffer_demand(instructions),
    decreases instructions.len(),
{
    if instructions.len() > 0 {
        lemma_assign_buffers_next(instructions.drop_last(), start);
    }
}

proof fn lemma_buffer_demand_nonneg(instructions: Seq<Instruction>)
    ensures
        buffer_demand(instructions) >= 0,
    decreases instructions.len(),
{
    if instructions.len() > 0 {
        lemma_buffer_demand_nonneg(instructions.drop_last());
    }
}

proof fn lemma_requests_push(instructions: Seq<Instruction>, i: int)
    requires
        0 <= i < instructions.len(),
    ensures
        instructions_requests(instructions.subrange(0, i + 1))
            == instructions_requests(instructions.subrange(0, i)) + instruction_requests(instructions[i]),
{
    assert(instructions.subrange(0, i + 1).drop_last() =~= instructions.subrange(0, i));
}

proof fn lemma_requests_len_mono(instructions: Seq<Instruction>, i: int)
    requires
        0 <= i <= instructions.len(),
    ensures
        instructions_requests(instructions.subrange(0, i)).len() <= instructions_requests(instructions).len(),
        buffer_demand(instructions.subrange(0, i)) <= buffer_demand(instructions),
    decreases instructions.len() - i,
{
    if i < instructions.len() {
        lemma_requests_len_mono(instructions, i + 1);
        lemma_requests_push(instructions, i);
        assert(instructions.subrange(0, i + 1).drop_last() =~= instructions.subrange(0, i));
    } else {
        assert(instructions.subrange(0, i) =~= instructions);
    }
}

fn lookup_value_slot(slots: &Vec<(usize, i32)>, key: usize) -> (r: Option<i32>)
    ensures
        r == lookup_value(slots@, key),
{
    let mut i = slots.len();
    assert(slots@.subrange(0, slots@.len() as int) =~= slots@);
    while i > 0
        invariant
            i <= slots@.len(),
            lookup_value(slots@, key) == lookup_value(slots@.subrange(0, i as int), key),
        decreases i,
    {
        let ghost prefix = slots@.subrange(0, i as int);
        assert(prefix.drop_last() =~= slots@.subrange(0, i - 1));
        if slots[i - 1].0 == key {
            return Some(slots[i - 1].1);
        }
        i = i - 1;
    }
    None
}

fn lookup_local_slot(slots: &Vec<(String, i32)>, key: &str) -> (r: Option<i32>)
    ensures
        r == lookup_local(slots@.map_values(|e: (String, i32)| (e.0@, e.1)), key@),
{
    let ghost view = slots@.map_values(|e: (String, i32)| (e.0@, e.1));
    let mut i = slots.len();
    assert(view.subrange(0, view.len() as int) =~= view);
    while i > 0
        invariant
            i <= slots@.len(),
            view == slots@.map_values(|e: (String, i32)| (e.0@, e.1)),
            lookup_local(view, key@) == lookup_local(view.subrange(0, i as int), key@),
        decreases i,
    {
        let ghost prefix = view.subrange(0, i as int);
        assert(prefix.drop_last() =~= view.subrange(0, i - 1));
        if str_eq(slots[i - 1].0.as_str(), key) {
            return Some(slots[i - 1].1);
        }
        i = i - 1;
    }
    None
}

/// The values that an instruction defines.
pub fn defined_values(instruction: &Instruction) -> (r: Vec<ValueId>)
    ensures
        r@ == spec_defined_values(*instruction),
{
    match instruction {
        Instruction::Const { dst, .. } => vec![*dst],
        Instruction::StringConst { dst, .. } => vec![*dst],
        Instruction::And { dst, .. } => vec![*dst],
        Instruction::Or { dst, .. } => vec![*dst],
        Instruction::BitAnd { dst, .. } => vec![*dst],
        Instruction::BitOr { dst, .. } => vec![*dst],
        Instruction::BitXor { dst, .. } => vec![*dst],
        Instruction::ShiftLeft { dst, .. } => vec![*dst],
        Instruction::ShiftRight { dst, .. } => vec![*dst],
        Instruction::Add { dst, .. } => vec![*dst],
        Instruction::Sub { dst, .. } => vec![*dst],
        Instruction::Mul { dst, .. } => vec![*dst],
        Instruction::Div { dst, .. } => vec![*dst],
        Instruction::Rem { dst, .. } => vec![*dst],
        Instruction::Load { dst, .. } => vec![*dst],
        Instruction::AddressOf { dst, .. } => vec![*dst],
        Instruction::Deref { dst, .. } => vec![*dst],
        Instruction::BitNot { dst, .. } => vec![*dst],
        Instruction::Cmp { dst, .. } => vec![*dst],
        Instruction::Call { dst, .. } => vec![*dst],
        Instruction::CallAggregate { dst, .. } => {
            let mut out: Vec<ValueId> = Vec::new();
            let mut i: usize = 0;
            while i < dst.len()
                invariant
                    i <= dst@.len(),
                    out@ == dst@.subrange(0, i as int),
                decreases dst@.len() - i,
            {
                out.push(dst[i]);
                i = i + 1;
                assert(out@ =~= dst@.subrange(0, i as int));
            }
            assert(dst@.subrange(0, dst@.len() as int) =~= dst@);
            out
        }
        _ => Vec::new(),
    }
}

/// Gives `request`'s slot if it is new, as `slot_step` does.
fn take_value_slot(values: &mut Vec<(usize, i32)>, next: &mut i32, v: usize)
    requires
        8 <= *old(next) < 0x1000_0000,
    ensures
        ({
            let s = slot_step(SlotState { values: old(values)@, locals: Seq::empty(), next: *old(next) as int }, SlotRequest::Value(v));
            final(values)@ == s.values && *final(next) as int == s.next
        }),
{
    if lookup_value_slot(values, v).is_none() {
        values.push((v, *next));
        *next = *next + 8;
    }
}

fn take_local_slot(locals: &mut Vec<(String, i32)>, next: &mut i32, name: &String)
    requires
        8 <= *old(next) < 0x1000_0000,
    ensures
        ({
            let s = slot_step(
                SlotState { values: Seq::empty(), locals: old(locals)@.map_values(|e: (String, i32)| (e.0@, e.1)), next: *old(next) as int },
                SlotRequest::Local(name@),
            );
            final(locals)@.map_values(|e: (String, i32)| (e.0@, e.1)) == s.locals && *final(next) as int == s.next
        }),
{
    if lookup_local_slot(locals, name.as_str()).is_none() {
        let ghost before = locals@;
        locals.push((name.clone(), *next));
        assert(locals@.map_values(|e: (String, i32)| (e.0@, e.1)) =~= before.map_values(|e: (String, i32)| (e.0@, e.1)).push((name@, *old(next))));
        *next = *next + 8;
    }
}


proof fn lemma_assign_push(requests: Seq<SlotRequest>, request: SlotRequest)
    ensures
        assign_slots(requests.push(request)) == slot_step(assign_slots(requests), request),
{
    assert(requests.push(request).drop_last() =~= requests);
}

proof fn lemma_buffers_push(instructions: Seq<Instruction>, i: int, start: int)
    requires
        0 <= i < instructions.len(),
    ensures
        assign_buffers(instructions.subrange(0, i + 1), start) == ({
            let (buffers, next) = assign_buffers(instructions.subrange(0, i), start);
            match instructions[i] {
                Instruction::CallAggregate { dst, buffer, .. } => if lookup_value(buffers, buffer) is Some {
                    (buffers, next)
                } else {
                    (buffers.push((buffer, next as i32)), next + dst.len() * 8)
                },
                _ => (buffers, next),
            }
        }),
{
    assert(instructions.subrange(0, i + 1).drop_last() =~= instructions.subrange(0, i));
}

/// Gives every parameter, defined value and stored local an 8-byte slot below `rbp`, then
/// places the aggregate return buffers, and rounds the frame up to 16 bytes.
pub fn build_layout(function: &IrFunction) -> (layout: FunctionLayout)
    requires
        small_function(*function),
    ensures
        layout@ == layout_of(*function),
{
    let ghost params = function.params@;
    let ghost instrs = function.instructions@;
    let ghost all = layout_requests(*function);
    let mut next: i32 = 8;
    let mut values: Vec<(usize, i32)> = Vec::new();
    let mut locals: Vec<(String, i32)> = Vec::new();
    proof {
        lemma_requests_len_mono(instrs, 0);
        lemma_buffer_demand_nonneg(instrs);
        assert(all == param_requests(params) + instructions_requests(instrs));
        assert(all.len() * 8 < 0x100_0000);
        assert(params.subrange(0, 0) =~= Seq::<String>::empty());
        assert(param_requests(params.subrange(0, 0)) =~= Seq::<SlotRequest>::empty());
        assert(locals@.map_values(|e: (String, i32)| (e.0@, e.1)) =~= Seq::<(Seq<char>, i32)>::empty());
    }
    let mut p: usize = 0;
    while p < function.params.len()
        invariant
            p <= params.len(),
            params == function.params@,
            instrs == function.instructions@,
            all == layout_requests(*function),
            all == param_requests(params) + instructions_requests(instrs),
            all.len() * 8 < 0x100_0000,
            small_function(*function),
            assign_slots(param_requests(params.subrange(0, p as int))) == (SlotState {
                values: values@,
                locals: locals@.map_values(|e: (String, i32)| (e.0@, e.1)),
                next: next as int,
            }),
        decreases params.len() - p,
    {
        proof {
            lemma_assign_slots_next(param_requests(params.subrange(0, p as int)));
            assert(param_requests(params.subrange(0, p as int)).len() == p);
            assert(param_requests(params).len() == params.len());
        }
        take_local_slot(&mut locals, &mut next, &function.params[p]);
        proof {
            assert(param_requests(params.subrange(0, p + 1)) =~= param_requests(params.subrange(0, p as int)).push(SlotRequest::Local(params[p as int]@)));
            lemma_assign_push(param_requests(params.subrange(0, p as int)), SlotRequest::Local(params[p as int]@));
        }
        p = p + 1;
    }
    proof {
        assert(params.subrange(0, params.len() as int) =~= params);
        assert(instrs.subrange(0, 0) =~= Seq::<Instruction>::empty());
        assert(param_requests(params) + instructions_requests(instrs.subrange(0, 0)) =~= param_requests(params));
    }
    let mut i: usize = 0;
    while i < function.instructions.len()
        invariant
            i <= instrs.len(),
            params == function.params@,
            instrs == function.instructions@,
            all == layout_requests(*function),
            all == param_requests(params) + instructions_requests(instrs),
            all.len() * 8 < 0x100_0000,
            layout_demand(*function) == all.len() * 8 + buffer_demand(instrs),
            buffer_demand(instrs) >= 0,
            small_function(*function),
            assign_slots(param_requests(params) + instructions_requests(instrs.subrange(0, i as int))) == (SlotState {
                values: values@,
                locals: locals@.map_values(|e: (String, i32)| (e.0@, e.1)),
                next: next as int,
            }),
        decreases instrs.len() - i,
    {
        let instruction = &function.instructions[i];
        let ghost base = param_requests(params) + instructions_requests(instrs.subrange(0, i as int));
        let ghost irs = instruction_requests(*instruction);
        proof {
            lemma_requests_push(instrs, i as int);
            lemma_requests_len_mono(instrs, i as int + 1);
            assert(irs.subrange(0, 0) =~= Seq::<SlotRequest>::empty());
            assert(base + irs.subrange(0, 0) =~= base);
        }
        let defined = defined_values(instruction);
        let mut j: usize = 0;
        while j < defined.len()
            invariant
                j <= defined@.len(),
                defined@ == spec_defined_values(*instruction),
                irs == instruction_requests(*instruction),
                base.len() + irs.len() <= all.len(),
                all.len() * 8 < 0x100_0000,
                assign_slots(base + irs.subrange(0, j as int)) == (SlotState {
                    values: values@,
                    locals: locals@.map_values(|e: (String, i32)| (e.0@, e.1)),
                    next: next as int,
                }),
            decreases defined@.len() - j,
        {
            proof {
                lemma_assign_slots_next(base + irs.subrange(0, j as int));
                assert(irs[j as int] == SlotRequest::Value(defined@[j as int].0));
                assert(base + irs.subrange(0, j + 1) =~= (base + irs.subrange(0, j as int)).push(irs[j as int]));
                lemma_assign_push(base + irs.subrange(0, j as int), irs[j as int]);
            }
            take_value_slot(&mut values, &mut next, defined[j].0);
            j = j + 1;
        }
        if let Instruction::Store { local, .. } = instruction {
            proof {
                lemma_assign_slots_next(base + irs.subrange(0, j as int));
                assert(irs.len() == defined@.len() + 1);
                assert(irs[j as int] == SlotRequest::Local(local@));
                assert(base + irs.subrange(0, j + 1) =~= (base + irs.subrange(0, j as int)).push(irs[j as int]));
                lemma_assign_push(base + irs.subrange(0, j as int), irs[j as int]);
            }
            take_local_slot(&mut locals, &mut next, local);
            proof {
                assert(irs.subrange(0, j + 1) =~= irs);
            }
        } else {
            proof {
                assert(irs.subrange(0, j as int) =~= irs);
            }
        }
        proof {
            assert(base + irs =~= param_requests(params) + instructions_requests(instrs.subrange(0, i + 1)));
        }
        i = i + 1;
    }
    proof {
        assert(instrs.subrange(0, instrs.len() as int) =~= instrs);
        lemma_assign_slots_next(all);
    }
    let ghost slot_next = next as int;
    proof {
        assert(slot_next <= 8 + 8 * all.len());
        assert(all.len() * 8 + buffer_demand(instrs) < 0x100_0000);
    }
    let mut buffers: Vec<(usize, i32)> = Vec::new();
    proof {
        assert(instrs.subrange(0, 0) =~= Seq::<Instruction>::empty());
    }
    let mut k: usize = 0;
    while k < function.instructions.len()
        invariant
            k <= instrs.len(),
            instrs == function.instructions@,
            slot_next + buffer_demand(instrs) < 0x100_0000 + 8,
            buffer_demand(instrs) >= 0,
            slot_next >= 8,
            assign_buffers(instrs.subrange(0, k as int), slot_next) == (buffers@, next as int),
        decreases instrs.len() - k,
    {
        proof {
            lemma_buffers_push(instrs, k as int, slot_next);
            lemma_requests_len_mono(instrs, k as int + 1);
            lemma_assign_buffers_next(instrs.subrange(0, k as int + 1), slot_next);
            lemma_assign_buffers_next(instrs.subrange(0, k as int), slot_next);
        }
        if let Instruction::CallAggregate { dst, buffer, .. } = &function.instructions[k] {
            if lookup_value_slot(&buffers, *buffer).is_none() {
                buffers.push((*buffer, next));
                next = next + (dst.len() as i32) * 8;
            }
        }
        k = k + 1;
    }
    proof {
        assert(instrs.subrange(0, instrs.len() as int) =~= instrs);
        lemma_assign_buffers_next(instrs, slot_next);
    }
    let used = next - 8;
    let frame_size = if used == 0 { 0 } else { ((used + 15) / 16) * 16 };
    FunctionLayout { value_slots: values, local_slots: locals, aggregate_buffers: buffers, frame_size }
}


// ---------------------------------------------------------------------------
// Assembly text
// ---------------------------------------------------------------------------

/// The slot of a value in a layout.
pub open spec fn slot_of(layout: LayoutView, v: ValueId) -> int {
    lookup_value(layout.values, v.0).unwrap() as int
}

pub open spec fn local_of(layout: LayoutView, name: Seq<char>) -> int {
    lookup_local(layout.locals, name).unwrap() as int
}

pub open spec fn buffer_of(layout: LayoutView, buffer: usize) -> int {
    lookup_value(layout.buffers, buffer).unwrap() as int
}

/// A line made of a prefix, a number and a suffix.
pub open spec fn num_line(prefix: Seq<char>, n: int, suffix: Seq<char>) -> Seq<char> {
    prefix + signed_decimal(n) + suffix
}

/// A line that reads or writes a value's slot.
pub open spec fn slot_line(layout: LayoutView, prefix: Seq<char>, v: ValueId, suffix: Seq<char>) -> Seq<char> {
    num_line(prefix, slot_of(layout, v), suffix)
}

pub open spec fn spec_arg_registers(abi: Abi) -> Seq<Seq<char>> {
    match abi {
        Abi::SystemV => seq!["rdi"@, "rsi"@, "rdx"@, "rcx"@, "r8"@, "r9"@],
        Abi::WindowsX64 => seq!["rcx"@, "rdx"@, "r8"@, "r9"@],
    }
}

pub open spec fn spec_stack_param_offset(abi: Abi, index: int) -> int {
    match abi {
        Abi::SystemV => 16 + (index - 6) * 8,
        Abi::WindowsX64 => 48 + (index - 4) * 8,
    }
}

pub open spec fn spec_setcc(op: CmpOp) -> Seq<char> {
    match op {
        CmpOp::Equal => "sete"@,
        CmpOp::NotEqual => "setne"@,
        CmpOp::Less => "setl"@,
        CmpOp::LessEqual => "setle"@,
        CmpOp::Greater => "setg"@,
        CmpOp::GreaterEqual => "setge"@,
    }
}

pub open spec fn binary_text(layout: LayoutView, dst: ValueId, left: ValueId, right: ValueId, op: Seq<char>) -> Seq<char> {
    slot_line(layout, "    mov rax, [rbp - "@, left, "]\n"@)
        + slot_line(layout, "    mov r10, [rbp - "@, right, "]\n"@)
        + "    "@ + op + " rax, r10\n"@
        + slot_line(layout, "    mov [rbp - "@, dst, "], rax\n"@)
}

pub open spec fn shift_text(layout: LayoutView, dst: ValueId, left: ValueId, right: ValueId, op: Seq<char>) -> Seq<char> {
    slot_line(layout, "    mov rax, [rbp - "@, left, "]\n"@)
        + slot_line(layout, "    mov rcx, [rbp - "@, right, "]\n"@)
        + "    "@ + op + " rax, cl\n"@
        + slot_line(layout, "    mov [rbp - "@, dst, "], rax\n"@)
}

pub open spec fn divide_text(layout: LayoutView, dst: ValueId, left: ValueId, right: ValueId, result: Seq<char>) -> Seq<char> {
    slot_line(layout, "    mov rax, [rbp - "@, left, "]\n"@)
        + "    cqo\n"@
        + slot_line(layout, "    mov r10, [rbp - "@, right, "]\n"@)
        + "    idiv r10\n"@
        + slot_line(layout, "    mov [rbp - "@, dst, result)
}

pub open spec fn win_only(abi: Abi, text: Seq<char>) -> Seq<char> {
    if abi == Abi::WindowsX64 { text } else { Seq::empty() }
}

/// `push qword` lines for `args[hi - 1]` down to `args[lo]`.
pub open spec fn push_lines(layout: LayoutView, args: Seq<ValueId>, lo: int, hi: int) -> Seq<char>
    decreases hi - lo,
{
    if hi <= lo {
        Seq::empty()
    } else {
        push_lines(layout, args, lo + 1, hi) + slot_line(layout, "    push qword [rbp - "@, args[lo], "]\n"@)
    }
}

/// Moves of `args[0..hi]` into the registers starting at `first`.
pub open spec fn register_moves(layout: LayoutView, regs: Seq<Seq<char>>, first: int, args: Seq<ValueId>, hi: int) -> Seq<char>
    decreases hi,
{
    if hi <= 0 {
        Seq::empty()
    } else {
        register_moves(layout, regs, first, args, hi - 1)
            + "    mov "@ + regs[first + hi - 1] + ", [rbp - "@ + signed_decimal(slot_of(layout, args[hi - 1])) + "]\n"@
    }
}

pub open spec fn cleanup_text(cleanup: int) -> Seq<char> {
    if cleanup > 0 { "    add rsp, "@ + decimal(cleanup as nat) + "\n"@ } else { Seq::empty() }
}

pub open spec fn min_int(a: int, b: int) -> int {
    if a < b { a } else { b }
}

pub open spec fn call_text(layout: LayoutView, abi: Abi, dst: ValueId, function: Seq<char>, args: Seq<ValueId>) -> Seq<char> {
    let regs = spec_arg_registers(abi);
    let n = regs.len() as int;
    let stack = if args.len() > n { args.len() - n } else { 0 };
    push_lines(layout, args, n, args.len() as int)
        + win_only(abi, "    sub rsp, 32\n"@)
        + register_moves(layout, regs, 0, args, min_int(args.len() as int, n))
        + "    call "@ + function + "\n"@
        + cleanup_text(stack * 8 + if abi == Abi::WindowsX64 { 32int } else { 0int })
        + slot_line(layout, "    mov [rbp - "@, dst, "], rax\n"@)
}

/// Copies of an aggregate result out of its buffer, for `dst[0..hi]`.
pub open spec fn buffer_copies(layout: LayoutView, buffer: int, dst: Seq<ValueId>, hi: int) -> Seq<char>
    decreases hi,
{
    if hi <= 0 {
        Seq::empty()
    } else {
        buffer_copies(layout, buffer, dst, hi - 1)
            + num_line("    mov rax, [rbp - "@, buffer + (hi - 1) * 8, "]\n"@)
            + slot_line(layout, "    mov [rbp - "@, dst[hi - 1], "], rax\n"@)
    }
}

pub open spec fn call_aggregate_text(
    layout: LayoutView,
    abi: Abi,
    dst: Seq<ValueId>,
    function: Seq<char>,
    args: Seq<ValueId>,
    buffer: usize,
) -> Seq<char> {
    let regs = spec_arg_registers(abi);
    let n = regs.len() as int;
    let total = args.len() + 1;
    let stack = if total > n { total - n } else { 0 };
    let slot = buffer_of(layout, buffer);
    call_aggregate_setup(layout, abi, args, slot)
        + ("    call "@ + function + "\n"@)
        + cleanup_text(stack * 8 + if abi == Abi::WindowsX64 { 32int } else { 0int })
        + buffer_copies(layout, slot, dst, dst.len() as int)
}

/// Stores of an aggregate return value through the hidden return pointer, for `values[0..hi]`.
pub open spec fn return_stores(layout: LayoutView, values: Seq<ValueId>, hi: int) -> Seq<char>
    decreases hi,
{
    if hi <= 0 {
        Seq::empty()
    } else {
        return_stores(layout, values, hi - 1)
            + slot_line(layout, "    mov r10, [rbp - "@, values[hi - 1], "]\n"@)
            + if hi - 1 == 0 {
                "    mov [rax], r10\n"@
            } else {
                num_line("    mov [rax - "@, (hi - 1) * 8, "], r10\n"@)
            }
    }
}

pub open spec fn width_load(width: u8) -> Seq<char> {
    if width == 1 {
        "    movzx eax, byte [rax]\n"@
    } else if width == 2 {
        "    movzx eax, word [rax]\n"@
    } else if width == 4 {
        "    mov eax, [rax]\n"@
    } else {
        "    mov rax, [rax]\n"@
    }
}

pub open spec fn width_store(width: u8) -> Seq<char> {
    if width == 1 {
        "    mov byte [rax], r10b\n"@
    } else if width == 2 {
        "    mov word [rax], r10w\n"@
    } else if width == 4 {
        "    mov dword [rax], r10d\n"@
    } else {
        "    mov [rax], r10\n"@
    }
}

/// The assembly text of one instruction.
pub open spec fn instruction_text(layout: LayoutView, abi: Abi, instruction: Instruction) -> Seq<char> {
    let regs = spec_arg_registers(abi);
    match instruction {
        Instruction::Const { dst, value } =>
            slot_line(layout, "    mov qword [rbp - "@, dst, "], "@) + signed_decimal(value as int) + "\n"@,
        Instruction::StringConst { dst, label, .. } =>
            "    lea rax, [rel "@ + label@ + "]\n"@ + slot_line(layout, "    mov [rbp - "@, dst, "], rax\n"@),
        Instruction::Load { dst, local } =>
            num_line("    mov rax, [rbp - "@, local_of(layout, local@), "]\n"@)
                + slot_line(layout, "    mov [rbp - "@, dst, "], rax\n"@),
        Instruction::AddressOf { dst, local } =>
            num_line("    lea rax, [rbp - "@, local_of(layout, local@), "]\n"@)
                + slot_line(layout, "    mov [rbp - "@, dst, "], rax\n"@),
        Instruction::Deref { dst, pointer, width } =>
            slot_line(layout, "    mov rax, [rbp - "@, pointer, "]\n"@) + width_load(width)
                + slot_line(layout, "    mov [rbp - "@, dst, "], rax\n"@),
        Instruction::BitNot { dst, value } =>
            slot_line(layout, "    mov rax, [rbp - "@, value, "]\n"@) + "    not rax\n"@
                + slot_line(layout, "    mov [rbp - "@, dst, "], rax\n"@),
        Instruction::BoundsCheck { index, len } =>
            win_only(abi, "    sub rsp, 32\n"@)
                + "    mov "@ + regs[0] + ", [rbp - "@ + signed_decimal(slot_of(layout, index)) + "]\n"@
                + "    mov "@ + regs[1] + ", "@ + decimal(len as nat) + "\n"@
                + "    call __geo_bounds_check\n"@
                + win_only(abi, "    add rsp, 32\n"@),
        Instruction::Store { local, value } =>
            slot_line(layout, "    mov rax, [rbp - "@, value, "]\n"@)
                + num_line("    mov [rbp - "@, local_of(layout, local@), "], rax\n"@),
        Instruction::StoreDeref { pointer, value, width } =>
            slot_line(layout, "    mov rax, [rbp - "@, pointer, "]\n"@)
                + slot_line(layout, "    mov r10, [rbp - "@, value, "]\n"@) + width_store(width),
        Instruction::And { dst, left, right } => binary_text(layout, dst, left, right, "and"@),
        Instruction::Or { dst, left, right } => binary_text(layout, dst, left, right, "or"@),
        Instruction::BitAnd { dst, left, right } => binary_text(layout, dst, left, right, "and"@),
        Instruction::BitOr { dst, left, right } => binary_text(layout, dst, left, right, "or"@),
        Instruction::BitXor { dst, left, right } => binary_text(layout, dst, left, right, "xor"@),
        Instruction::ShiftLeft { dst, left, right } => shift_text(layout, dst, left, right, "shl"@),
        Instruction::ShiftRight { dst, left, right } => shift_text(layout, dst, left, right, "sar"@),
        Instruction::Add { dst, left, right } => binary_text(layout, dst, left, right, "add"@),
        Instruction::Sub { dst, left, right } => binary_text(layout, dst, left, right, "sub"@),
        Instruction::Mul { dst, left, right } => binary_text(layout, dst, left, right, "imul"@),
        Instruction::Div { dst, left, right } => divide_text(layout, dst, left, right, "], rax\n"@),
        Instruction::Rem { dst, left, right } => divide_text(layout, dst, left, right, "], rdx\n"@),
        Instruction::Cmp { dst, op, left, right } =>
            slot_line(layout, "    mov rax, [rbp - "@, left, "]\n"@)
                + slot_line(layout, "    cmp rax, [rbp - "@, right, "]\n"@)
                + "    "@ + spec_setcc(op) + " al\n"@
                + "    movzx rax, al\n"@
                + slot_line(layout, "    mov [rbp - "@, dst, "], rax\n"@),
        Instruction::Jump { label } => "    jmp "@ + label@ + "\n"@,
        Instruction::JumpIfZero { value, label } =>
            slot_line(layout, "    mov rax, [rbp - "@, value, "]\n"@) + "    cmp rax, 0\n"@ + "    je "@ + label@ + "\n"@,
        Instruction::Label { name } => name@ + ":\n"@,
        Instruction::Call { dst, function, args } => call_text(layout, abi, dst, function@, args@),
        Instruction::CallAggregate { dst, function, args, buffer } =>
            call_aggregate_text(layout, abi, dst@, function@, args@, buffer),
        Instruction::ReturnAggregate { values } =>
            num_line("    mov rax, [rbp - "@, local_of(layout, "__geo_return_ptr"@), "]\n"@)
                + return_stores(layout, values@, values.len() as int)
                + "    mov rsp, rbp\n    pop rbp\n    ret\n"@,
        Instruction::Return { value } =>
            slot_line(layout, "    mov rax, [rbp - "@, value, "]\n"@)
                + "    mov rsp, rbp\n"@ + "    pop rbp\n"@ + "    ret\n"@,
    }
}


pub open spec fn has_value(layout: LayoutView, v: ValueId) -> bool {
    lookup_value(layout.values, v.0) is Some
}

pub open spec fn has_local(layout: LayoutView, name: Seq<char>) -> bool {
    lookup_local(layout.locals, name) is Some
}

pub open spec fn has_values(layout: LayoutView, values: Seq<ValueId>) -> bool {
    forall|i: int| 0 <= i < values.len() ==> has_value(layout, #[trigger] values[i])
}

/// Every slot and the frame stay far below `i32::MAX`.
pub open spec fn slots_bounded(layout: LayoutView) -> bool {
    &&& forall|i: int| 0 <= i < layout.values.len() ==> 0 <= (#[trigger] layout.values[i]).1 < 0x200_0000
    &&& forall|i: int| 0 <= i < layout.locals.len() ==> 0 <= (#[trigger] layout.locals[i]).1 < 0x200_0000
    &&& forall|i: int| 0 <= i < layout.buffers.len() ==> 0 <= (#[trigger] layout.buffers[i]).1 < 0x200_0000
    &&& 0 <= layout.frame < 0x200_0000
}

/// Every value, local and buffer that the instruction names has a slot, and its lists are short.
pub open spec fn instruction_resolves(layout: LayoutView, instruction: Instruction) -> bool {
    match instruction {
        Instruction::Const { dst, .. } => has_value(layout, dst),
        Instruction::StringConst { dst, .. } => has_value(layout, dst),
        Instruction::Load { dst, local } => has_value(layout, dst) && has_local(layout, local@),
        Instruction::AddressOf { dst, local } => has_value(layout, dst) && has_local(layout, local@),
        Instruction::Deref { dst, pointer, .. } => has_value(layout, dst) && has_value(layout, pointer),
        Instruction::BitNot { dst, value } => has_value(layout, dst) && has_value(layout, value),
        Instruction::BoundsCheck { index, .. } => has_value(layout, index),
        Instruction::Store { local, value } => has_value(layout, value) && has_local(layout, local@),
        Instruction::StoreDeref { pointer, value, .. } => has_value(layout, pointer) && has_value(layout, value),
        Instruction::And { dst, left, right } | Instruction::Or { dst, left, right }
        | Instruction::BitAnd { dst, left, right } | Instruction::BitOr { dst, left, right }
        | Instruction::BitXor { dst, left, right } | Instruction::ShiftLeft { dst, left, right }
        | Instruction::ShiftRight { dst, left, right } | Instruction::Add { dst, left, right }
        | Instruction::Sub { dst, left, right } | Instruction::Mul { dst, left, right }
        | Instruction::Div { dst, left, right } | Instruction::Rem { dst, left, right }
        | Instruction::Cmp { dst, left, right, .. } =>
            has_value(layout, dst) && has_value(layout, left) && has_value(layout, right),
        Instruction::Jump { .. } | Instruction::Label { .. } => true,
        Instruction::JumpIfZero { value, .. } => has_value(layout, value),
        Instruction::Call { dst, args, .. } =>
            has_value(layout, dst) && has_values(layout, args@) && args.len() < 0x1000_0000,
        Instruction::CallAggregate { dst, args, buffer, .. } =>
            has_values(layout, dst@) && has_values(layout, args@) && args.len() < 0x1000_0000
                && dst.len() < 0x20_0000 && lookup_value(layout.buffers, buffer) is Some,
        Instruction::ReturnAggregate { values } =>
            has_values(layout, values@) && values.len() < 0x20_0000 && has_local(layout, "__geo_return_ptr"@),
        Instruction::Return { value } => has_value(layout, value),
    }
}

proof fn lemma_lookup_value_in(slots: Seq<(usize, i32)>, key: usize)
    requires
        lookup_value(slots, key) is Some,
    ensures
        exists|i: int| 0 <= i < slots.len() && slots[i].1 == lookup_value(slots, key).unwrap(),
    decreases slots.len(),
{
    if slots.last().0 != key {
        lemma_lookup_value_in(slots.drop_last(), key);
        let i = choose|i: int| 0 <= i < slots.drop_last().len() && slots.drop_last()[i].1 == lookup_value(slots, key).unwrap();
        assert(slots[i] == slots.drop_last()[i]);
    } else {
        assert(slots[slots.len() - 1] == slots.last());
    }
}

proof fn lemma_lookup_local_in(slots: Seq<(Seq<char>, i32)>, key: Seq<char>)
    requires
        lookup_local(slots, key) is Some,
    ensures
        exists|i: int| 0 <= i < slots.len() && slots[i].1 == lookup_local(slots, key).unwrap(),
    decreases slots.len(),
{
    if slots.last().0 != key {
        lemma_lookup_local_in(slots.drop_last(), key);
        let i = choose|i: int| 0 <= i < slots.drop_last().len() && slots.drop_last()[i].1 == lookup_local(slots, key).unwrap();
        assert(slots[i] == slots.drop_last()[i]);
    } else {
        assert(slots[slots.len() - 1] == slots.last());
    }
}

/// The slot of a value (every value that an instruction uses has one).
fn slot(layout: &FunctionLayout, value: ValueId) -> (r: i32)
    requires
        has_value(layout@, value),
        slots_bounded(layout@),
    ensures
        r as int == slot_of(layout@, value),
        0 <= r < 0x200_0000,
{
    proof {
        lemma_lookup_value_in(layout@.values, value.0);
    }
    lookup_value_slot(&layout.value_slots, value.0).unwrap()
}

fn local_slot(layout: &FunctionLayout, local: &str) -> (r: i32)
    requires
        has_local(layout@, local@),
        slots_bounded(layout@),
    ensures
        r as int == local_of(layout@, local@),
        0 <= r < 0x200_0000,
{
    proof {
        lemma_lookup_local_in(layout@.locals, local@);
    }
    lookup_local_slot(&layout.local_slots, local).unwrap()
}

impl FunctionLayout {
    fn aggregate_buffer(&self, buffer: usize) -> (r: i32)
        requires
            lookup_value(self@.buffers, buffer) is Some,
            slots_bounded(self@),
        ensures
            r as int == buffer_of(self@, buffer),
            0 <= r < 0x200_0000,
    {
        proof {
            lemma_lookup_value_in(self@.buffers, buffer);
        }
        lookup_value_slot(&self.aggregate_buffers, buffer).unwrap()
    }
}

fn arg_registers(abi: Abi) -> (r: Vec<&'static str>)
    ensures
        r@.map_values(|s: &str| s@) == spec_arg_registers(abi),
        r@.len() == spec_arg_registers(abi).len(),
{
    let r = match abi {
        Abi::SystemV => vec!["rdi", "rsi", "rdx", "rcx", "r8", "r9"],
        Abi::WindowsX64 => vec!["rcx", "rdx", "r8", "r9"],
    };
    assert(r@.map_values(|s: &str| s@) =~= spec_arg_registers(abi));
    r
}

fn stack_param_offset(abi: Abi, param_index: usize) -> (r: usize)
    requires
        spec_arg_registers(abi).len() <= param_index < 0x1000_0000,
    ensures
        r as int == spec_stack_param_offset(abi, param_index as int),
{
    let register_count = arg_registers(abi).len();
    let stack_index = param_index - register_count;
    match abi {
        Abi::SystemV => 16 + stack_index * 8,
        Abi::WindowsX64 => 48 + stack_index * 8,
    }
}

fn setcc(op: CmpOp) -> (r: &'static str)
    ensures
        r@ == spec_setcc(op),
{
    match op {
        CmpOp::Equal => "sete",
        CmpOp::NotEqual => "setne",
        CmpOp::Less => "setl",
        CmpOp::LessEqual => "setle",
        CmpOp::Greater => "setg",
        CmpOp::GreaterEqual => "setge",
    }
}

/// Appends `prefix`, the number and `suffix`.
fn push_num_line(out: &mut String, prefix: &str, n: i32, suffix: &str)
    ensures
        final(out)@ == old(out)@ + num_line(prefix@, n as int, suffix@),
{
    out.append(prefix);
    push_signed_decimal(out, n as i64);
    out.append(suffix);
    assert(out@ =~= old(out)@ + num_line(prefix@, n as int, suffix@));
}

fn emit_binary(out: &mut String, layout: &FunctionLayout, dst: ValueId, left: ValueId, right: ValueId, op: &str)
    requires
        has_value(layout@, dst),
        has_value(layout@, left),
        has_value(layout@, right),
        slots_bounded(layout@),
    ensures
        final(out)@ == old(out)@ + binary_text(layout@, dst, left, right, op@),
{
    let d = slot(layout, dst);
    let l = slot(layout, left);
    let r = slot(layout, right);
    push_num_line(out, "    mov rax, [rbp - ", l, "]\n");
    push_num_line(out, "    mov r10, [rbp - ", r, "]\n");
    out.append("    ");
    out.append(op);
    out.append(" rax, r10\n");
    push_num_line(out, "    mov [rbp - ", d, "], rax\n");
    assert(out@ =~= old(out)@ + binary_text(layout@, dst, left, right, op@));
}

fn emit_shift(out: &mut String, layout: &FunctionLayout, dst: ValueId, left: ValueId, right: ValueId, op: &str)
    requires
        has_value(layout@, dst),
        has_value(layout@, left),
        has_value(layout@, right),
        slots_bounded(layout@),
    ensures
        final(out)@ == old(out)@ + shift_text(layout@, dst, left, right, op@),
{
    let d = slot(layout, dst);
    let l = slot(layout, left);
    let r = slot(layout, right);
    push_num_line(out, "    mov rax, [rbp - ", l, "]\n");
    push_num_line(out, "    mov rcx, [rbp - ", r, "]\n");
    out.append("    ");
    out.append(op);
    out.append(" rax, cl\n");
    push_num_line(out, "    mov [rbp - ", d, "], rax\n");
    assert(out@ =~= old(out)@ + shift_text(layout@, dst, left, right, op@));
}

fn emit_divide(out: &mut String, layout: &FunctionLayout, dst: ValueId, left: ValueId, right: ValueId, result: &str)
    requires
        has_value(layout@, dst),
        has_value(layout@, left),
        has_value(layout@, right),
        slots_bounded(layout@),
    ensures
        final(out)@ == old(out)@ + divide_text(layout@, dst, left, right, result@),
{
    let d = slot(layout, dst);
    let l = slot(layout, left);
    let r = slot(layout, right);
    push_num_line(out, "    mov rax, [rbp - ", l, "]\n");
    out.append("    cqo\n");
    push_num_line(out, "    mov r10, [rbp - ", r, "]\n");
    out.append("    idiv r10\n");
    push_num_line(out, "    mov [rbp - ", d, result);
    assert(out@ =~= old(out)@ + divide_text(layout@, dst, left, right, result@));
}

/// Pushes `args[hi - 1]` down to `args[lo]` onto the stack.
fn emit_stack_pushes(out: &mut String, layout: &FunctionLayout, args: &Vec<ValueId>, lo: usize)
    requires
        has_values(layout@, args@),
        slots_bounded(layout@),
    ensures
        final(out)@ == old(out)@ + push_lines(layout@, args@, lo as int, args@.len() as int),
{
    let mut k = args.len();
    if k <= lo {
        assert(out@ =~= old(out)@ + push_lines(layout@, args@, lo as int, args@.len() as int));
        return;
    }
    assert(out@ =~= old(out)@ + push_lines(layout@, args@, k as int, args@.len() as int));
    while k > lo
        invariant
            lo <= k <= args@.len(),
            has_values(layout@, args@),
            slots_bounded(layout@),
            out@ == old(out)@ + push_lines(layout@, args@, k as int, args@.len() as int),
        decreases k,
    {
        k = k - 1;
        let a = slot(layout, args[k]);
        push_num_line(out, "    push qword [rbp - ", a, "]\n");
        assert(out@ =~= old(out)@ + push_lines(layout@, args@, k as int, args@.len() as int));
    }
}

/// Moves `args[0..count]` into the registers from `regs[first]` on.
fn emit_register_moves(
    out: &mut String,
    layout: &FunctionLayout,
    regs: &Vec<&'static str>,
    first: usize,
    args: &Vec<ValueId>,
    count: usize,
)
    requires
        count <= args@.len(),
        first + count <= regs@.len() <= 8,
        has_values(layout@, args@),
        slots_bounded(layout@),
    ensures
        final(out)@ == old(out)@ + register_moves(layout@, regs@.map_values(|s: &str| s@), first as int, args@, count as int),
{
    let ghost rs = regs@.map_values(|s: &str| s@);
    let mut i: usize = 0;
    assert(out@ =~= old(out)@ + register_moves(layout@, rs, first as int, args@, 0));
    while i < count
        invariant
            i <= count,
            count <= args@.len(),
            first + count <= regs@.len() <= 8,
            rs == regs@.map_values(|s: &str| s@),
            has_values(layout@, args@),
            slots_bounded(layout@),
            out@ == old(out)@ + register_moves(layout@, rs, first as int, args@, i as int),
        decreases count - i,
    {
        let a = slot(layout, args[i]);
        assert(first + i < regs@.len());
        let reg = regs[first + i];
        out.append("    mov ");
        out.append(reg);
        push_num_line(out, ", [rbp - ", a, "]\n");
        i = i + 1;
        assert(out@ =~= old(out)@ + register_moves(layout@, rs, first as int, args@, i as int));
    }
}

fn emit_cleanup(out: &mut String, cleanup: usize)
    ensures
        final(out)@ == old(out)@ + cleanup_text(cleanup as int),
{
    if cleanup > 0 {
        out.append("    add rsp, ");
        push_decimal(out, cleanup as u64);
        out.append("\n");
        assert(out@ =~= old(out)@ + cleanup_text(cleanup as int));
    } else {
        assert(out@ =~= old(out)@ + cleanup_text(cleanup as int));
    }
}


fn emit_call(out: &mut String, layout: &FunctionLayout, abi: Abi, regs: &Vec<&'static str>, dst: ValueId, function: &String, args: &Vec<ValueId>)
    requires
        regs@.map_values(|s: &str| s@) == spec_arg_registers(abi),
        regs@.len() == spec_arg_registers(abi).len(),
        has_value(layout@, dst),
        has_values(layout@, args@),
        args@.len() < 0x1000_0000,
        slots_bounded(layout@),
    ensures
        final(out)@ == old(out)@ + call_text(layout@, abi, dst, function@, args@),
{
    let ghost s0 = out@;
    let ghost rs = spec_arg_registers(abi);
    let n = regs.len();
    let stack_arg_count = if args.len() > n { args.len() - n } else { 0 };
    emit_stack_pushes(out, layout, args, n);
    let ghost p = push_lines(layout@, args@, n as int, args@.len() as int);
    let ghost s1 = out@;
    if abi == Abi::WindowsX64 {
        out.append("    sub rsp, 32\n");
    }
    let ghost w = win_only(abi, "    sub rsp, 32\n"@);
    assert(out@ =~= s1 + w);
    let count = if args.len() < n { args.len() } else { n };
    emit_register_moves(out, layout, regs, 0, args, count);
    let ghost m = register_moves(layout@, rs, 0, args@, min_int(args@.len() as int, n as int));
    let ghost s3 = out@;
    out.append("    call ");
    out.append(function.as_str());
    out.append("\n");
    let ghost f = "    call "@ + function@ + "\n"@;
    assert(out@ =~= s3 + f);
    let cleanup = stack_arg_count * 8 + if abi == Abi::WindowsX64 { 32 } else { 0 };
    emit_cleanup(out, cleanup);
    let ghost c = cleanup_text(cleanup as int);
    let d = slot(layout, dst);
    push_num_line(out, "    mov [rbp - ", d, "], rax\n");
    let ghost e = slot_line(layout@, "    mov [rbp - "@, dst, "], rax\n"@);
    proof {
        assert(call_text(layout@, abi, dst, function@, args@) =~= p + w + m + f + c + e);
        vstd::seq_lib::lemma_concat_associative(s0, p + w + m + f + c, e);
        vstd::seq_lib::lemma_concat_associative(s0, p + w + m + f, c);
        vstd::seq_lib::lemma_concat_associative(s0, p + w + m, f);
        vstd::seq_lib::lemma_concat_associative(s0, p + w, m);
        vstd::seq_lib::lemma_concat_associative(s0, p, w);
    }
}

fn emit_buffer_copies(out: &mut String, layout: &FunctionLayout, buffer: i32, dst: &Vec<ValueId>)
    requires
        has_values(layout@, dst@),
        dst@.len() < 0x20_0000,
        0 <= buffer < 0x200_0000,
        slots_bounded(layout@),
    ensures
        final(out)@ == old(out)@ + buffer_copies(layout@, buffer as int, dst@, dst@.len() as int),
{
    let mut index: usize = 0;
    assert(out@ =~= old(out)@ + buffer_copies(layout@, buffer as int, dst@, 0));
    while index < dst.len()
        invariant
            index <= dst@.len(),
            has_values(layout@, dst@),
            dst@.len() < 0x20_0000,
            0 <= buffer < 0x200_0000,
            slots_bounded(layout@),
            out@ == old(out)@ + buffer_copies(layout@, buffer as int, dst@, index as int),
        decreases dst@.len() - index,
    {
        let d = slot(layout, dst[index]);
        let offset = buffer + index as i32 * 8;
        push_num_line(out, "    mov rax, [rbp - ", offset, "]\n");
        push_num_line(out, "    mov [rbp - ", d, "], rax\n");
        index = index + 1;
        assert(out@ =~= old(out)@ + buffer_copies(layout@, buffer as int, dst@, index as int));
    }
}

fn emit_lea_buffer(out: &mut String, reg: &str, slot: i32)
    ensures
        final(out)@ == old(out)@ + ("    lea "@ + reg@ + ", [rbp - "@ + signed_decimal(slot as int) + "]\n"@),
{
    out.append("    lea ");
    out.append(reg);
    push_num_line(out, ", [rbp - ", slot, "]\n");
    assert(out@ =~= old(out)@ + ("    lea "@ + reg@ + ", [rbp - "@ + signed_decimal(slot as int) + "]\n"@));
}

/// The part of an aggregate call before the `call` line.
pub open spec fn call_aggregate_setup(layout: LayoutView, abi: Abi, args: Seq<ValueId>, slot: int) -> Seq<char> {
    let regs = spec_arg_registers(abi);
    let n = regs.len() as int;
    push_lines(layout, args, n - 1, args.len() as int)
        + win_only(abi, "    sub rsp, 32\n"@)
        + ("    lea "@ + regs[0] + ", [rbp - "@ + signed_decimal(slot) + "]\n"@)
        + register_moves(layout, regs, 1, args, min_int(args.len() as int, n - 1))
}

fn emit_call_aggregate_setup(out: &mut String, layout: &FunctionLayout, abi: Abi, regs: &Vec<&'static str>, args: &Vec<ValueId>, buffer_slot: i32)
    requires
        regs@.map_values(|s: &str| s@) == spec_arg_registers(abi),
        regs@.len() == spec_arg_registers(abi).len(),
        has_values(layout@, args@),
        slots_bounded(layout@),
    ensures
        final(out)@ == old(out)@ + call_aggregate_setup(layout@, abi, args@, buffer_slot as int),
{
    let ghost s0 = out@;
    let ghost rs = spec_arg_registers(abi);
    let n = regs.len();
    emit_stack_pushes(out, layout, args, n - 1);
    let ghost p = push_lines(layout@, args@, n - 1, args@.len() as int);
    let ghost s1 = out@;
    if abi == Abi::WindowsX64 {
        out.append("    sub rsp, 32\n");
    }
    let ghost w = win_only(abi, "    sub rsp, 32\n"@);
    assert(out@ =~= s1 + w);
    emit_lea_buffer(out, regs[0], buffer_slot);
    let ghost l = "    lea "@ + rs[0] + ", [rbp - "@ + signed_decimal(buffer_slot as int) + "]\n"@;
    assert(regs@[0]@ == rs[0]);
    let count = if args.len() < n - 1 { args.len() } else { n - 1 };
    emit_register_moves(out, layout, regs, 1, args, count);
    let ghost m = register_moves(layout@, rs, 1, args@, min_int(args@.len() as int, n - 1));
    proof {
        assert(call_aggregate_setup(layout@, abi, args@, buffer_slot as int) == p + w + l + m);
        vstd::seq_lib::lemma_concat_associative(s0, p + w + l, m);
        vstd::seq_lib::lemma_concat_associative(s0, p + w, l);
        vstd::seq_lib::lemma_concat_associative(s0, p, w);
    }
}

fn emit_call_aggregate(
    out: &mut String,
    layout: &FunctionLayout,
    abi: Abi,
    regs: &Vec<&'static str>,
    dst: &Vec<ValueId>,
    function: &String,
    args: &Vec<ValueId>,
    buffer: usize,
)
    requires
        regs@.map_values(|s: &str| s@) == spec_arg_registers(abi),
        regs@.len() == spec_arg_registers(abi).len(),
        has_values(layout@, dst@),
        has_values(layout@, args@),
        args@.len() < 0x1000_0000,
        dst@.len() < 0x20_0000,
        lookup_value(layout@.buffers, buffer) is Some,
        slots_bounded(layout@),
    ensures
        final(out)@ == old(out)@ + call_aggregate_text(layout@, abi, dst@, function@, args@, buffer),
{
    let ghost s0 = out@;
    let n = regs.len();
    let total_args = args.len() + 1;
    let stack_arg_count = if total_args > n { total_args - n } else { 0 };
    let buffer_slot = layout.aggregate_buffer(buffer);
    emit_call_aggregate_setup(out, layout, abi, regs, args, buffer_slot);
    let ghost a = call_aggregate_setup(layout@, abi, args@, buffer_slot as int);
    let ghost s3 = out@;
    out.append("    call ");
    out.append(function.as_str());
    out.append("\n");
    let ghost f = "    call "@ + function@ + "\n"@;
    assert(out@ =~= s3 + f);
    let cleanup = stack_arg_count * 8 + if abi == Abi::WindowsX64 { 32 } else { 0 };
    emit_cleanup(out, cleanup);
    let ghost c = cleanup_text(cleanup as int);
    emit_buffer_copies(out, layout, buffer_slot, dst);
    let ghost e = buffer_copies(layout@, buffer_slot as int, dst@, dst@.len() as int);
    proof {
        assert(call_aggregate_text(layout@, abi, dst@, function@, args@, buffer) == a + f + c + e);
        vstd::seq_lib::lemma_concat_associative(s0, a + f + c, e);
        vstd::seq_lib::lemma_concat_associative(s0, a + f, c);
        vstd::seq_lib::lemma_concat_associative(s0, a, f);
    }
}

fn emit_return_aggregate(out: &mut String, layout: &FunctionLayout, values: &Vec<ValueId>)
    requires
        has_values(layout@, values@),
        values@.len() < 0x20_0000,
        has_local(layout@, "__geo_return_ptr"@),
        slots_bounded(layout@),
    ensures
        final(out)@ == old(out)@ + num_line("    mov rax, [rbp - "@, local_of(layout@, "__geo_return_ptr"@), "]\n"@)
            + return_stores(layout@, values@, values@.len() as int)
            + "    mov rsp, rbp\n    pop rbp\n    ret\n"@,
{
    let pointer = local_slot(layout, "__geo_return_ptr");
    push_num_line(out, "    mov rax, [rbp - ", pointer, "]\n");
    let ghost start = out@;
    let mut index: usize = 0;
    assert(out@ =~= start + return_stores(layout@, values@, 0));
    while index < values.len()
        invariant
            index <= values@.len(),
            has_values(layout@, values@),
            values@.len() < 0x20_0000,
            slots_bounded(layout@),
            out@ == start + return_stores(layout@, values@, index as int),
        decreases values@.len() - index,
    {
        let v = slot(layout, values[index]);
        let distance = (index * 8) as i32;
        push_num_line(out, "    mov r10, [rbp - ", v, "]\n");
        if distance == 0 {
            out.append("    mov [rax], r10\n");
        } else {
            push_num_line(out, "    mov [rax - ", distance, "], r10\n");
        }
        index = index + 1;
        assert(out@ =~= start + return_stores(layout@, values@, index as int));
    }
    out.append("    mov rsp, rbp\n    pop rbp\n    ret\n");
    assert(out@ =~= old(out)@ + num_line("    mov rax, [rbp - "@, local_of(layout@, "__geo_return_ptr"@), "]\n"@)
        + return_stores(layout@, values@, values@.len() as int)
        + "    mov rsp, rbp\n    pop rbp\n    ret\n"@);
}


fn emit_width_load(out: &mut String, width: u8)
    ensures
        final(out)@ == old(out)@ + width_load(width),
{
    match width {
        1 => out.append("    movzx eax, byte [rax]\n"),
        2 => out.append("    movzx eax, word [rax]\n"),
        4 => out.append("    mov eax, [rax]\n"),
        _ => out.append("    mov rax, [rax]\n"),
    }
}

fn emit_width_store(out: &mut String, width: u8)
    ensures
        final(out)@ == old(out)@ + width_store(width),
{
    match width {
        1 => out.append("    mov byte [rax], r10b\n"),
        2 => out.append("    mov word [rax], r10w\n"),
        4 => out.append("    mov dword [rax], r10d\n"),
        _ => out.append("    mov [rax], r10\n"),
    }
}

/// Appends the assembly of one instruction.
#[verifier::rlimit(60)]
fn emit_instruction(out: &mut String, layout: &FunctionLayout, abi: Abi, regs: &Vec<&'static str>, instruction: &Instruction)
    requires
        regs@.map_values(|s: &str| s@) == spec_arg_registers(abi),
        regs@.len() == spec_arg_registers(abi).len(),
        instruction_resolves(layout@, *instruction),
        slots_bounded(layout@),
    ensures
        final(out)@ == old(out)@ + instruction_text(layout@, abi, *instruction),
{
    let ghost s0 = out@;
    match instruction {
        Instruction::Const { dst, value } => {
            let d = slot(layout, *dst);
            push_num_line(out, "    mov qword [rbp - ", d, "], ");
            push_signed_decimal(out, *value);
            out.append("\n");
        }
        Instruction::StringConst { dst, label, .. } => {
            let d = slot(layout, *dst);
            out.append("    lea rax, [rel ");
            out.append(label.as_str());
            out.append("]\n");
            push_num_line(out, "    mov [rbp - ", d, "], rax\n");
        }
        Instruction::Load { dst, local } => {
            let d = slot(layout, *dst);
            let l = local_slot(layout, local.as_str());
            push_num_line(out, "    mov rax, [rbp - ", l, "]\n");
            push_num_line(out, "    mov [rbp - ", d, "], rax\n");
        }
        Instruction::AddressOf { dst, local } => {
            let d = slot(layout, *dst);
            let l = local_slot(layout, local.as_str());
            push_num_line(out, "    lea rax, [rbp - ", l, "]\n");
            push_num_line(out, "    mov [rbp - ", d, "], rax\n");
        }
        Instruction::Deref { dst, pointer, width } => {
            let d = slot(layout, *dst);
            let p = slot(layout, *pointer);
            push_num_line(out, "    mov rax, [rbp - ", p, "]\n");
            emit_width_load(out, *width);
            push_num_line(out, "    mov [rbp - ", d, "], rax\n");
        }
        Instruction::BitNot { dst, value } => {
            let d = slot(layout, *dst);
            let v = slot(layout, *value);
            push_num_line(out, "    mov rax, [rbp - ", v, "]\n");
            out.append("    not rax\n");
            push_num_line(out, "    mov [rbp - ", d, "], rax\n");
        }
        Instruction::BoundsCheck { index, len } => {
            let i = slot(layout, *index);
            if abi == Abi::WindowsX64 {
                out.append("    sub rsp, 32\n");
            }
            let ghost s1 = out@;
            out.append("    mov ");
            out.append(regs[0]);
            push_num_line(out, ", [rbp - ", i, "]\n");
            out.append("    mov ");
            out.append(regs[1]);
            out.append(", ");
            push_decimal(out, *len as u64);
            out.append("\n");
            out.append("    call __geo_bounds_check\n");
            let ghost s2 = out@;
            if abi == Abi::WindowsX64 {
                out.append("    add rsp, 32\n");
            }
            proof {
                assert(regs@[0]@ == spec_arg_registers(abi)[0]);
                assert(regs@[1]@ == spec_arg_registers(abi)[1]);
                assert(s0 + win_only(abi, "    sub rsp, 32\n"@) =~= s1);
                assert(out@ =~= s2 + win_only(abi, "    add rsp, 32\n"@));
            }
        }
        Instruction::Store { local, value } => {
            let v = slot(layout, *value);
            let l = local_slot(layout, local.as_str());
            push_num_line(out, "    mov rax, [rbp - ", v, "]\n");
            push_num_line(out, "    mov [rbp - ", l, "], rax\n");
        }
        Instruction::StoreDeref { pointer, value, width } => {
            let p = slot(layout, *pointer);
            let v = slot(layout, *value);
            push_num_line(out, "    mov rax, [rbp - ", p, "]\n");
            push_num_line(out, "    mov r10, [rbp - ", v, "]\n");
            emit_width_store(out, *width);
        }
        Instruction::And { dst, left, right } => emit_binary(out, layout, *dst, *left, *right, "and"),
        Instruction::Or { dst, left, right } => emit_binary(out, layout, *dst, *left, *right, "or"),
        Instruction::BitAnd { dst, left, right } => emit_binary(out, layout, *dst, *left, *right, "and"),
        Instruction::BitOr { dst, left, right } => emit_binary(out, layout, *dst, *left, *right, "or"),
        Instruction::BitXor { dst, left, right } => emit_binary(out, layout, *dst, *left, *right, "xor"),
        Instruction::ShiftLeft { dst, left, right } => emit_shift(out, layout, *dst, *left, *right, "shl"),
        Instruction::ShiftRight { dst, left, right } => emit_shift(out, layout, *dst, *left, *right, "sar"),
        Instruction::Add { dst, left, right } => emit_binary(out, layout, *dst, *left, *right, "add"),
        Instruction::Sub { dst, left, right } => emit_binary(out, layout, *dst, *left, *right, "sub"),
        Instruction::Mul { dst, left, right } => emit_binary(out, layout, *dst, *left, *right, "imul"),
        Instruction::Div { dst, left, right } => emit_divide(out, layout, *dst, *left, *right, "], rax\n"),
        Instruction::Rem { dst, left, right } => emit_divide(out, layout, *dst, *left, *right, "], rdx\n"),
        Instruction::Cmp { dst, op, left, right } => {
            let d = slot(layout, *dst);
            let l = slot(layout, *left);
            let r = slot(layout, *right);
            push_num_line(out, "    mov rax, [rbp - ", l, "]\n");
            push_num_line(out, "    cmp rax, [rbp - ", r, "]\n");
            out.append("    ");
            out.append(setcc(*op));
            out.append(" al\n");
            out.append("    movzx rax, al\n");
            push_num_line(out, "    mov [rbp - ", d, "], rax\n");
        }
        Instruction::Jump { label } => {
            out.append("    jmp ");
            out.append(label.as_str());
            out.append("\n");
        }
        Instruction::JumpIfZero { value, label } => {
            let v = slot(layout, *value);
            push_num_line(out, "    mov rax, [rbp - ", v, "]\n");
            out.append("    cmp rax, 0\n");
            out.append("    je ");
            out.append(label.as_str());
            out.append("\n");
        }
        Instruction::Label { name } => {
            out.append(name.as_str());
            out.append(":\n");
        }
        Instruction::Call { dst, function, args } => {
            emit_call(out, layout, abi, regs, *dst, function, args);
        }
        Instruction::CallAggregate { dst, function, args, buffer } => {
            emit_call_aggregate(out, layout, abi, regs, dst, function, args, *buffer);
        }
        Instruction::ReturnAggregate { values } => {
            emit_return_aggregate(out, layout, values);
        }
        Instruction::Return { value } => {
            let v = slot(layout, *value);
            push_num_line(out, "    mov rax, [rbp - ", v, "]\n");
            out.append("    mov rsp, rbp\n");
            out.append("    pop rbp\n");
            out.append("    ret\n");
        }
    }
    assert(out@ =~= s0 + instruction_text(layout@, abi, *instruction));
}


// ---------------------------------------------------------------------------
// Functions
// ---------------------------------------------------------------------------

pub open spec fn spec_emitted_name(name: Seq<char>, runtime_entry: bool) -> Seq<char> {
    if runtime_entry && name == "main"@ { "geo_main"@ } else { name }
}

/// The move of parameter `index` from its register or stack slot into its local slot.
pub open spec fn param_move(layout: LayoutView, abi: Abi, name: Seq<char>, index: int) -> Seq<char> {
    let regs = spec_arg_registers(abi);
    match lookup_local(layout.locals, name) {
        Some(slot) => if index < regs.len() {
            num_line("    mov [rbp - "@, slot as int, "], "@) + regs[index] + "\n"@
        } else {
            "    mov rax, [rbp + "@ + decimal(spec_stack_param_offset(abi, index) as nat) + "]\n"@
                + num_line("    mov [rbp - "@, slot as int, "], rax\n"@)
        },
        None => Seq::empty(),
    }
}

pub open spec fn param_moves(layout: LayoutView, abi: Abi, params: Seq<String>, hi: int) -> Seq<char>
    decreases hi,
{
    if hi <= 0 {
        Seq::empty()
    } else {
        param_moves(layout, abi, params, hi - 1) + param_move(layout, abi, params[hi - 1]@, hi - 1)
    }
}

pub open spec fn instructions_text(layout: LayoutView, abi: Abi, instructions: Seq<Instruction>, hi: int) -> Seq<char>
    decreases hi,
{
    if hi <= 0 {
        Seq::empty()
    } else {
        instructions_text(layout, abi, instructions, hi - 1) + instruction_text(layout, abi, instructions[hi - 1])
    }
}

/// The assembly of a function: label, prologue, parameter spills, body, blank line.
pub open spec fn function_prologue(function: IrFunction, runtime_entry: bool) -> Seq<char> {
    let layout = layout_of(function);
    spec_emitted_name(function.name@, runtime_entry) + ":\n"@
        + "    push rbp\n"@ + "    mov rbp, rsp\n"@
        + (if layout.frame > 0 { num_line("    sub rsp, "@, layout.frame, "\n"@) } else { Seq::empty() })
}

pub open spec fn function_text(function: IrFunction, abi: Abi, runtime_entry: bool) -> Seq<char> {
    let layout = layout_of(function);
    function_prologue(function, runtime_entry)
        + param_moves(layout, abi, function.params@, function.params.len() as int)
        + instructions_text(layout, abi, function.instructions@, function.instructions.len() as int)
        + "\n"@
}

/// A function that the emitter accepts: its slots fit in `i32` and everything it names has one.
pub open spec fn emittable_function(function: IrFunction) -> bool {
    &&& small_function(function)
    &&& forall|i: int| 0 <= i < function.instructions@.len()
        ==> instruction_resolves(layout_of(function), #[trigger] function.instructions@[i])
}

proof fn lemma_assign_slots_bounded(requests: Seq<SlotRequest>)
    requires
        requests.len() < 0x20_0000,
    ensures
        ({
            let s = assign_slots(requests);
            &&& 8 <= s.next <= 8 + 8 * requests.len()
            &&& forall|i: int| 0 <= i < s.values.len() ==> 8 <= (#[trigger] s.values[i]).1 < s.next
            &&& forall|i: int| 0 <= i < s.locals.len() ==> 8 <= (#[trigger] s.locals[i]).1 < s.next
        }),
    decreases requests.len(),
{
    if requests.len() > 0 {
        lemma_assign_slots_bounded(requests.drop_last());
        let prev = assign_slots(requests.drop_last());
        assert((prev.next as i32) as int == prev.next);
    }
}

proof fn lemma_assign_buffers_bounded(instructions: Seq<Instruction>, start: int)
    requires
        8 <= start,
        start + buffer_demand(instructions) < 0x200_0000,
    ensures
        ({
            let (buffers, next) = assign_buffers(instructions, start);
            &&& start <= next <= start + buffer_demand(instructions)
            &&& forall|i: int| 0 <= i < buffers.len() ==> start <= (#[trigger] buffers[i]).1 <= next
        }),
    decreases instructions.len(),
{
    if instructions.len() > 0 {
        lemma_buffer_demand_nonneg(instructions.drop_last());
        lemma_assign_buffers_bounded(instructions.drop_last(), start);
        let (buffers, next) = assign_buffers(instructions.drop_last(), start);
        assert((next as i32) as int == next);
    }
}

proof fn lemma_layout_bounded(function: IrFunction)
    requires
        small_function(function),
    ensures
        slots_bounded(layout_of(function)),
        layout_of(function).frame >= 0,
{
    let requests = layout_requests(function);
    lemma_buffer_demand_nonneg(function.instructions@);
    lemma_assign_slots_bounded(requests);
    let slots = assign_slots(requests);
    lemma_assign_buffers_bounded(function.instructions@, slots.next);
    let l = layout_of(function);
    assert forall|i: int| 0 <= i < l.values.len() implies 0 <= (#[trigger] l.values[i]).1 < 0x200_0000 by {
        assert(slots.values[i] == l.values[i]);
    }
    assert forall|i: int| 0 <= i < l.locals.len() implies 0 <= (#[trigger] l.locals[i]).1 < 0x200_0000 by {
        assert(slots.locals[i] == l.locals[i]);
    }
}

fn emitted_function_name<'a>(name: &'a str, runtime_entry: bool) -> (r: &'a str)
    ensures
        r@ == spec_emitted_name(name@, runtime_entry),
{
    if runtime_entry && str_eq(name, "main") {
        "geo_main"
    } else {
        name
    }
}

fn emit_param_moves(out: &mut String, layout: &FunctionLayout, abi: Abi, regs: &Vec<&'static str>, params: &Vec<String>)
    requires
        regs@.map_values(|s: &str| s@) == spec_arg_registers(abi),
        regs@.len() == spec_arg_registers(abi).len(),
        params@.len() < 0x1000_0000,
        slots_bounded(layout@),
    ensures
        final(out)@ == old(out)@ + param_moves(layout@, abi, params@, params@.len() as int),
{
    let mut idx: usize = 0;
    assert(out@ =~= old(out)@ + param_moves(layout@, abi, params@, 0));
    while idx < params.len()
        invariant
            idx <= params@.len(),
            params@.len() < 0x1000_0000,
            regs@.map_values(|s: &str| s@) == spec_arg_registers(abi),
            regs@.len() == spec_arg_registers(abi).len(),
            slots_bounded(layout@),
            out@ == old(out)@ + param_moves(layout@, abi, params@, idx as int),
        decreases params@.len() - idx,
    {
        let ghost before = out@;
        let found = lookup_local_slot(&layout.local_slots, params[idx].as_str());
        if let Some(slot) = found {
            proof {
                lemma_lookup_local_in(layout@.locals, params@[idx as int]@);
            }
            if idx < regs.len() {
                push_num_line(out, "    mov [rbp - ", slot, "], ");
                out.append(regs[idx]);
                out.append("\n");
            } else {
                let source = stack_param_offset(abi, idx);
                out.append("    mov rax, [rbp + ");
                push_decimal(out, source as u64);
                out.append("]\n");
                push_num_line(out, "    mov [rbp - ", slot, "], rax\n");
            }
        }
        assert(out@ =~= before + param_move(layout@, abi, params@[idx as int]@, idx as int));
        idx = idx + 1;
        assert(out@ =~= old(out)@ + param_moves(layout@, abi, params@, idx as int));
    }
}

/// Appends the assembly of one function.
pub fn emit_function(function: &IrFunction, target: &Target, runtime_entry: bool, out: &mut String)
    requires
        emittable_function(*function),
    ensures
        final(out)@ == old(out)@ + function_text(*function, target.abi, runtime_entry),
{
    let layout = build_layout(function);
    proof {
        lemma_layout_bounded(*function);
    }
    let ghost s0 = out@;
    out.append(emitted_function_name(function.name.as_str(), runtime_entry));
    out.append(":\n");
    out.append("    push rbp\n");
    out.append("    mov rbp, rsp\n");
    if layout.frame_size > 0 {
        push_num_line(out, "    sub rsp, ", layout.frame_size, "\n");
    }
    let ghost head = out@;
    assert(head =~= s0 + function_prologue(*function, runtime_entry));
    let regs = arg_registers(target.abi);
    proof {
        lemma_buffer_demand_nonneg(function.instructions@);
        assert(param_requests(function.params@).len() == function.params@.len());
        assert(function.params@.len() <= layout_requests(*function).len());
    }
    emit_param_moves(out, &layout, target.abi, &regs, &function.params);
    let ghost after_params = out@;
    let mut i: usize = 0;
    assert(out@ =~= after_params + instructions_text(layout@, target.abi, function.instructions@, 0));
    while i < function.instructions.len()
        invariant
            i <= function.instructions@.len(),
            emittable_function(*function),
            layout@ == layout_of(*function),
            slots_bounded(layout@),
            regs@.map_values(|s: &str| s@) == spec_arg_registers(target.abi),
            regs@.len() == spec_arg_registers(target.abi).len(),
            out@ == after_params + instructions_text(layout@, target.abi, function.instructions@, i as int),
        decreases function.instructions@.len() - i,
    {
        emit_instruction(out, &layout, target.abi, &regs, &function.instructions[i]);
        i = i + 1;
        assert(out@ =~= after_params + instructions_text(layout@, target.abi, function.instructions@, i as int));
    }
    let ghost before_end = out@;
    out.append("\n");
    proof {
        let pr = function_prologue(*function, runtime_entry);
        let pm = param_moves(layout@, target.abi, function.params@, function.params.len() as int);
        let it = instructions_text(layout@, target.abi, function.instructions@, function.instructions.len() as int);
        assert(function_text(*function, target.abi, runtime_entry) == pr + pm + it + "\n"@);
        vstd::seq_lib::lemma_concat_associative(s0, pr + pm + it, "\n"@);
        vstd::seq_lib::lemma_concat_associative(s0, pr + pm, it);
        vstd::seq_lib::lemma_concat_associative(s0, pr, pm);
    }
}


// ---------------------------------------------------------------------------
// Whole programs
// ---------------------------------------------------------------------------

/// Byte-wise lexicographic order, the order of `str`.
pub open spec fn bytes_lt(a: Seq<u8>, b: Seq<u8>) -> bool
    decreases a.len(),
{
    if a.len() == 0 {
        b.len() > 0
    } else if b.len() == 0 {
        false
    } else if a[0] < b[0] {
        true
    } else if a[0] > b[0] {
        false
    } else {
        bytes_lt(a.drop_first(), b.drop_first())
    }
}

proof fn lemma_bytes_lt_irreflexive(a: Seq<u8>)
    ensures
        !bytes_lt(a, a),
    decreases a.len(),
{
    if a.len() > 0 {
        lemma_bytes_lt_irreflexive(a.drop_first());
    }
}

proof fn lemma_bytes_lt_transitive(a: Seq<u8>, b: Seq<u8>, c: Seq<u8>)
    requires
        bytes_lt(a, b),
        bytes_lt(b, c),
    ensures
        bytes_lt(a, c),
    decreases a.len(),
{
    if a.len() > 0 && b.len() > 0 && c.len() > 0 && a[0] == b[0] && b[0] == c[0] {
        lemma_bytes_lt_transitive(a.drop_first(), b.drop_first(), c.drop_first());
    }
}

proof fn lemma_bytes_lt_total(a: Seq<u8>, b: Seq<u8>)
    ensures
        a == b || bytes_lt(a, b) || bytes_lt(b, a),
    decreases a.len(),
{
    if a.len() > 0 && b.len() > 0 && a[0] == b[0] {
        lemma_bytes_lt_total(a.drop_first(), b.drop_first());
        if a.drop_first() == b.drop_first() {
            assert(a =~= seq![a[0]] + a.drop_first());
            assert(b =~= seq![b[0]] + b.drop_first());
        }
    } else if a.len() == 0 && b.len() == 0 {
        assert(a =~= b);
    }
}

fn bytes_less(a: &[u8], b: &[u8]) -> (r: bool)
    ensures
        r == bytes_lt(a@, b@),
{
    let mut i: usize = 0;
    assert(a@.skip(0) =~= a@);
    assert(b@.skip(0) =~= b@);
    while i < a.len() && i < b.len()
        invariant
            i <= a@.len(),
            i <= b@.len(),
            bytes_lt(a@, b@) == bytes_lt(a@.skip(i as int), b@.skip(i as int)),
        decreases a@.len() - i,
    {
        if a[i] < b[i] {
            return true;
        }
        if a[i] > b[i] {
            return false;
        }
        assert(a@.skip(i as int).drop_first() =~= a@.skip(i + 1));
        assert(b@.skip(i as int).drop_first() =~= b@.skip(i + 1));
        i = i + 1;
    }
    i < b.len()
}

/// The UTF-8 bytes of a name.
pub open spec fn name_bytes(name: Seq<char>) -> Seq<u8> {
    vstd::utf8::encode_utf8(name)
}

/// Names in strictly increasing byte order (so without repeats).
pub open spec fn sorted_names(names: Seq<Seq<char>>) -> bool {
    forall|i: int, j: int| 0 <= i < j < names.len() ==> bytes_lt(name_bytes(#[trigger] names[i]), name_bytes(#[trigger] names[j]))
}

pub open spec fn defines(program: IrProgram, name: Seq<char>) -> bool {
    exists|k: int| 0 <= k < program.functions@.len() && (#[trigger] program.functions@[k]).name@ == name
}

/// The symbols that an instruction needs from outside the program.
pub open spec fn instruction_needs(program: IrProgram, instruction: Instruction, name: Seq<char>) -> bool {
    match instruction {
        Instruction::Call { function, .. } => function@ == name && !defines(program, name),
        Instruction::CallAggregate { function, .. } => function@ == name && !defines(program, name),
        Instruction::BoundsCheck { .. } => name == "__geo_bounds_check"@,
        _ => false,
    }
}

/// A symbol is external when some instruction of the program needs it.
pub open spec fn is_external(program: IrProgram, name: Seq<char>) -> bool {
    exists|k: int, i: int|
        0 <= k < program.functions@.len() && 0 <= i < program.functions@[k].instructions@.len()
            && instruction_needs(program, #[trigger] program.functions@[k].instructions@[i], name)
}

pub open spec fn extern_lines(names: Seq<Seq<char>>, hi: int) -> Seq<char>
    decreases hi,
{
    if hi <= 0 {
        Seq::empty()
    } else {
        extern_lines(names, hi - 1) + "extern "@ + names[hi - 1] + "\n"@
    }
}

/// The `extern` declarations, in byte order, followed by a blank line when there are any.
pub open spec fn extern_text(names: Seq<Seq<char>>) -> Seq<char> {
    extern_lines(names, names.len() as int) + if names.len() > 0 { "\n"@ } else { Seq::empty() }
}

proof fn lemma_extern_lines_push(names: Seq<Seq<char>>, n: Seq<char>)
    ensures
        extern_lines(names.push(n), names.len() as int + 1) == extern_lines(names, names.len() as int) + "extern "@ + n + "\n"@,
{
    lemma_extern_lines_prefix(names.push(n), names, names.len() as int);
}

proof fn lemma_extern_lines_prefix(a: Seq<Seq<char>>, b: Seq<Seq<char>>, hi: int)
    requires
        0 <= hi <= a.len(),
        hi <= b.len(),
        forall|i: int| 0 <= i < hi ==> a[i] == b[i],
    ensures
        extern_lines(a, hi) == extern_lines(b, hi),
    decreases hi,
{
    if hi > 0 {
        lemma_extern_lines_prefix(a, b, hi - 1);
    }
}

/// Inserts `name` into a strictly sorted list unless it is there already.
fn insert_sorted(names: &mut Vec<String>, name: &str)
    requires
        sorted_names(old(names)@.map_values(|s: String| s@)),
    ensures
        sorted_names(final(names)@.map_values(|s: String| s@)),
        final(names)@.map_values(|s: String| s@).to_set() == old(names)@.map_values(|s: String| s@).to_set().insert(name@),
{
    let ghost v0 = names@.map_values(|s: String| s@);
    let key = name.as_bytes();
    let mut k: usize = 0;
    while k < names.len() && bytes_less(names[k].as_str().as_bytes(), key)
        invariant
            k <= names@.len(),
            names@.map_values(|s: String| s@) == v0,
            key@ == name_bytes(name@),
            sorted_names(v0),
            forall|i: int| 0 <= i < k ==> bytes_lt(name_bytes(#[trigger] v0[i]), name_bytes(name@)),
        decreases names@.len() - k,
    {
        k = k + 1;
    }
    if k < names.len() && !bytes_less(key, names[k].as_str().as_bytes()) {
        proof {
            lemma_bytes_lt_total(name_bytes(v0[k as int]), name_bytes(name@));
            vstd::utf8::encode_utf8_decode_utf8(v0[k as int]);
            vstd::utf8::encode_utf8_decode_utf8(name@);
            assert(v0[k as int] == name@);
            assert(v0.to_set().insert(name@) =~= v0.to_set());
        }
        return;
    }
    names.insert(k, name.to_string());
    proof {
        let v1 = names@.map_values(|s: String| s@);
        assert(v1 =~= v0.insert(k as int, name@));
        assert forall|i: int, j: int| 0 <= i < j < v1.len() implies bytes_lt(name_bytes(#[trigger] v1[i]), name_bytes(#[trigger] v1[j])) by {
            if j == k {
                assert(v1[i] == v0[i]);
            } else if i == k {
                assert(v1[j] == v0[j - 1]);
                if k < v0.len() {
                    lemma_bytes_lt_total(name_bytes(v0[k as int]), name_bytes(name@));
                    if j - 1 > k {
                        lemma_bytes_lt_transitive(name_bytes(name@), name_bytes(v0[k as int]), name_bytes(v0[j - 1]));
                    }
                }
            } else if i < k && j > k {
                assert(v1[i] == v0[i]);
                assert(v1[j] == v0[j - 1]);
                if j - 1 > i {
                } else {
                }
            } else if j < k {
                assert(v1[i] == v0[i] && v1[j] == v0[j]);
            } else {
                assert(v1[i] == v0[i - 1] && v1[j] == v0[j - 1]);
            }
        }
        assert(v1.to_set() =~= v0.to_set().insert(name@)) by {
            assert forall|x: Seq<char>| v1.to_set().contains(x) <==> v0.to_set().insert(name@).contains(x) by {
                if v1.to_set().contains(x) {
                    let i = choose|i: int| 0 <= i < v1.len() && v1[i] == x;
                    if i < k {
                        assert(v0[i] == x);
                    } else if i > k {
                        assert(v0[i - 1] == x);
                    }
                }
                if v0.to_set().contains(x) {
                    let i = choose|i: int| 0 <= i < v0.len() && v0[i] == x;
                    if i < k {
                        assert(v1[i] == x);
                    } else {
                        assert(v1[i + 1] == x);
                    }
                }
                if x == name@ {
                    assert(v1[k as int] == x);
                }
            }
        }
    }
}


fn is_defined(program: &IrProgram, name: &str) -> (r: bool)
    ensures
        r == defines(*program, name@),
{
    let mut k: usize = 0;
    while k < program.functions.len()
        invariant
            k <= program.functions@.len(),
            forall|j: int| 0 <= j < k ==> (#[trigger] program.functions@[j]).name@ != name@,
        decreases program.functions@.len() - k,
    {
        if str_eq(program.functions[k].name.as_str(), name) {
            return true;
        }
        k = k + 1;
    }
    false
}

/// Some instruction before position `(k, i)` needs `name`.
pub open spec fn needed_before(program: IrProgram, k: int, i: int, name: Seq<char>) -> bool {
    exists|kk: int, ii: int|
        0 <= kk < program.functions@.len() && 0 <= ii < program.functions@[kk].instructions@.len()
            && (kk < k || (kk == k && ii < i))
            && instruction_needs(program, #[trigger] program.functions@[kk].instructions@[ii], name)
}

/// The external symbols of a program, strictly sorted by their bytes.
fn collect_externs(program: &IrProgram) -> (names: Vec<String>)
    ensures
        sorted_names(names@.map_values(|s: String| s@)),
        names@.map_values(|s: String| s@).to_set() == Set::new(|n: Seq<char>| is_external(*program, n)),
{
    let mut names: Vec<String> = Vec::new();
    proof {
        assert(names@.map_values(|s: String| s@).to_set() =~= Set::new(|n: Seq<char>| needed_before(*program, 0, 0, n)));
    }
    let mut k: usize = 0;
    while k < program.functions.len()
        invariant
            k <= program.functions@.len(),
            sorted_names(names@.map_values(|s: String| s@)),
            names@.map_values(|s: String| s@).to_set() == Set::new(|n: Seq<char>| needed_before(*program, k as int, 0, n)),
        decreases program.functions@.len() - k,
    {
        let function = &program.functions[k];
        let mut i: usize = 0;
        while i < function.instructions.len()
            invariant
                k < program.functions@.len(),
                *function == program.functions@[k as int],
                i <= function.instructions@.len(),
                sorted_names(names@.map_values(|s: String| s@)),
                names@.map_values(|s: String| s@).to_set() == Set::new(|n: Seq<char>| needed_before(*program, k as int, i as int, n)),
            decreases function.instructions@.len() - i,
        {
            let ghost before = names@.map_values(|s: String| s@).to_set();
            let instruction = &function.instructions[i];
            let ghost added: Option<Seq<char>> = None;
            match instruction {
                Instruction::Call { function: callee, .. } => {
                    if !is_defined(program, callee.as_str()) {
                        insert_sorted(&mut names, callee.as_str());
                        proof { added = Some(callee@); }
                    }
                }
                Instruction::CallAggregate { function: callee, .. } => {
                    if !is_defined(program, callee.as_str()) {
                        insert_sorted(&mut names, callee.as_str());
                        proof { added = Some(callee@); }
                    }
                }
                Instruction::BoundsCheck { .. } => {
                    insert_sorted(&mut names, "__geo_bounds_check");
                    proof { added = Some("__geo_bounds_check"@); }
                }
                _ => {}
            }
            proof {
                let after = Set::new(|n: Seq<char>| needed_before(*program, k as int, i + 1, n));
                assert forall|n: Seq<char>| after.contains(n) <==> (before.contains(n) || added == Some(n)) by {
                    if after.contains(n) {
                        let (kk, ii) = choose|kk: int, ii: int|
                            0 <= kk < program.functions@.len() && 0 <= ii < program.functions@[kk].instructions@.len()
                                && (kk < k || (kk == k && ii < i + 1))
                                && instruction_needs(*program, #[trigger] program.functions@[kk].instructions@[ii], n);
                        if !(kk < k || (kk == k && ii < i)) {
                            assert(kk == k && ii == i);
                        } else {
                            assert(needed_before(*program, k as int, i as int, n));
                        }
                    }
                    if before.contains(n) {
                        let (kk, ii) = choose|kk: int, ii: int|
                            0 <= kk < program.functions@.len() && 0 <= ii < program.functions@[kk].instructions@.len()
                                && (kk < k || (kk == k && ii < i))
                                && instruction_needs(*program, #[trigger] program.functions@[kk].instructions@[ii], n);
                        assert(needed_before(*program, k as int, i + 1, n));
                    }
                    if added == Some(n) {
                        assert(instruction_needs(*program, program.functions@[k as int].instructions@[i as int], n));
                        assert(needed_before(*program, k as int, i + 1, n));
                    }
                }
                assert(names@.map_values(|s: String| s@).to_set() =~= after);
            }
            i = i + 1;
        }
        proof {
            assert(Set::new(|n: Seq<char>| needed_before(*program, k as int, function.instructions@.len() as int, n))
                =~= Set::new(|n: Seq<char>| needed_before(*program, k + 1, 0, n)));
        }
        k = k + 1;
    }
    proof {
        assert(Set::new(|n: Seq<char>| needed_before(*program, k as int, 0, n)) =~= Set::new(|n: Seq<char>| is_external(*program, n)));
    }
    names
}

/// Writes the `extern` lines for every symbol the program uses but does not define.
fn emit_external_declarations(program: &IrProgram, out: &mut String) -> (names: Vec<String>)
    ensures
        sorted_names(names@.map_values(|s: String| s@)),
        names@.map_values(|s: String| s@).to_set() == Set::new(|n: Seq<char>| is_external(*program, n)),
        final(out)@ == old(out)@ + extern_text(names@.map_values(|s: String| s@)),
{
    let names = collect_externs(program);
    let ghost view = names@.map_values(|s: String| s@);
    let mut i: usize = 0;
    assert(out@ =~= old(out)@ + extern_lines(view, 0));
    while i < names.len()
        invariant
            i <= names@.len(),
            view == names@.map_values(|s: String| s@),
            out@ == old(out)@ + extern_lines(view, i as int),
        decreases names@.len() - i,
    {
        out.append("extern ");
        out.append(names[i].as_str());
        out.append("\n");
        i = i + 1;
        assert(out@ =~= old(out)@ + extern_lines(view, i as int));
    }
    if names.len() > 0 {
        out.append("\n");
    }
    assert(out@ =~= old(out)@ + extern_text(view));
    names
}

/// The string constants of instructions `0..hi`, as label and text.
pub open spec fn instruction_consts(instructions: Seq<Instruction>, hi: int) -> Seq<(Seq<char>, Seq<char>)>
    decreases hi,
{
    if hi <= 0 {
        Seq::empty()
    } else {
        instruction_consts(instructions, hi - 1) + match instructions[hi - 1] {
            Instruction::StringConst { label, value, .. } => seq![(label@, value@)],
            _ => Seq::empty(),
        }
    }
}

pub open spec fn program_consts(functions: Seq<IrFunction>, hi: int) -> Seq<(Seq<char>, Seq<char>)>
    decreases hi,
{
    if hi <= 0 {
        Seq::empty()
    } else {
        program_consts(functions, hi - 1)
            + instruction_consts(functions[hi - 1].instructions@, functions[hi - 1].instructions@.len() as int)
    }
}

/// `"b1, b2, ..., "` for the first `hi` bytes.
pub open spec fn db_items(bytes: Seq<u8>, hi: int) -> Seq<char>
    decreases hi,
{
    if hi <= 0 {
        Seq::empty()
    } else {
        db_items(bytes, hi - 1) + decimal(bytes[hi - 1] as nat) + ", "@
    }
}

/// The `db` operand list of a string: its bytes and a terminating zero.
pub open spec fn spec_nasm_bytes(bytes: Seq<u8>) -> Seq<char> {
    db_items(bytes, bytes.len() as int) + "0"@
}

pub open spec fn data_lines(consts: Seq<(Seq<char>, Seq<char>)>, hi: int) -> Seq<char>
    decreases hi,
{
    if hi <= 0 {
        Seq::empty()
    } else {
        data_lines(consts, hi - 1) + consts[hi - 1].0 + ": db "@ + spec_nasm_bytes(name_bytes(consts[hi - 1].1)) + "\n"@
    }
}

/// The data section: one `db` line per string constant, or nothing without constants.
pub open spec fn data_text(program: IrProgram) -> Seq<char> {
    let consts = program_consts(program.functions@, program.functions@.len() as int);
    if consts.len() == 0 {
        Seq::empty()
    } else {
        "section .data\n"@ + data_lines(consts, consts.len() as int) + "\n"@
    }
}

fn nasm_bytes(value: &str, out: &mut String)
    ensures
        final(out)@ == old(out)@ + spec_nasm_bytes(name_bytes(value@)),
{
    let bytes = value.as_bytes();
    let mut i: usize = 0;
    assert(out@ =~= old(out)@ + db_items(bytes@, 0));
    while i < bytes.len()
        invariant
            i <= bytes@.len(),
            bytes@ == name_bytes(value@),
            out@ == old(out)@ + db_items(bytes@, i as int),
        decreases bytes@.len() - i,
    {
        push_decimal(out, bytes[i] as u64);
        out.append(", ");
        i = i + 1;
        assert(out@ =~= old(out)@ + db_items(bytes@, i as int));
    }
    proof { reveal_strlit("0"); }
    out.append("0");
    assert(out@ =~= old(out)@ + spec_nasm_bytes(name_bytes(value@)));
}

proof fn lemma_program_consts_prefix(functions: Seq<IrFunction>, hi: int)
    requires
        0 <= hi <= functions.len(),
    ensures
        program_consts(functions, hi).len() <= program_consts(functions, functions.len() as int).len(),
    decreases functions.len() - hi,
{
    if hi < functions.len() {
        lemma_program_consts_prefix(functions, hi + 1);
    }
}

proof fn lemma_data_lines_prefix(a: Seq<(Seq<char>, Seq<char>)>, b: Seq<(Seq<char>, Seq<char>)>, hi: int)
    requires
        0 <= hi <= a.len(),
        hi <= b.len(),
        forall|i: int| 0 <= i < hi ==> a[i] == b[i],
    ensures
        data_lines(a, hi) == data_lines(b, hi),
    decreases hi,
{
    if hi > 0 {
        lemma_data_lines_prefix(a, b, hi - 1);
    }
}

/// Writes the data lines of every string constant, in program order.
fn emit_data_lines(program: &IrProgram, out: &mut String)
    ensures
        ({
            let consts = program_consts(program.functions@, program.functions@.len() as int);
            final(out)@ == old(out)@ + data_lines(consts, consts.len() as int)
        }),
{
    let mut k: usize = 0;
    proof { assert(out@ =~= old(out)@ + data_lines(program_consts(program.functions@, 0), 0)); }
    while k < program.functions.len()
        invariant
            k <= program.functions@.len(),
            out@ == old(out)@ + data_lines(program_consts(program.functions@, k as int), program_consts(program.functions@, k as int).len() as int),
        decreases program.functions@.len() - k,
    {
        let function = &program.functions[k];
        let ghost base = program_consts(program.functions@, k as int);
        let mut i: usize = 0;
        proof {
            assert(base + instruction_consts(function.instructions@, 0) =~= base);
        }
        while i < function.instructions.len()
            invariant
                k < program.functions@.len(),
                *function == program.functions@[k as int],
                i <= function.instructions@.len(),
                base == program_consts(program.functions@, k as int),
                out@ == old(out)@ + data_lines(base + instruction_consts(function.instructions@, i as int),
                    (base + instruction_consts(function.instructions@, i as int)).len() as int),
            decreases function.instructions@.len() - i,
        {
            let ghost cur = base + instruction_consts(function.instructions@, i as int);
            let ghost next = base + instruction_consts(function.instructions@, i + 1);
            if let Instruction::StringConst { label, value, .. } = &function.instructions[i] {
                out.append(label.as_str());
                out.append(": db ");
                nasm_bytes(value.as_str(), out);
                out.append("\n");
                proof {
                    assert(next =~= cur.push((label@, value@)));
                    lemma_data_lines_prefix(next, cur, cur.len() as int);
                    assert(out@ =~= old(out)@ + data_lines(next, next.len() as int));
                }
            } else {
                proof {
                    assert(next =~= cur);
                }
            }
            i = i + 1;
        }
        proof {
            assert(base + instruction_consts(function.instructions@, function.instructions@.len() as int)
                =~= program_consts(program.functions@, k + 1));
        }
        k = k + 1;
    }
}

fn has_string_consts(program: &IrProgram) -> (r: bool)
    ensures
        r == (program_consts(program.functions@, program.functions@.len() as int).len() > 0),
{
    let mut k: usize = 0;
    while k < program.functions.len()
        invariant
            k <= program.functions@.len(),
            program_consts(program.functions@, k as int).len() == 0,
        decreases program.functions@.len() - k,
    {
        let function = &program.functions[k];
        let mut i: usize = 0;
        while i < function.instructions.len()
            invariant
                k < program.functions@.len(),
                *function == program.functions@[k as int],
                i <= function.instructions@.len(),
                program_consts(program.functions@, k as int).len() == 0,
                instruction_consts(function.instructions@, i as int).len() == 0,
            decreases function.instructions@.len() - i,
        {
            if let Instruction::StringConst { .. } = &function.instructions[i] {
                proof {
                    lemma_instruction_consts_mono(function.instructions@, i + 1);
                    lemma_program_consts_prefix(program.functions@, k + 1);
                    assert(program_consts(program.functions@, k + 1).len() > 0);
                }
                return true;
            }
            i = i + 1;
        }
        k = k + 1;
    }
    false
}

proof fn lemma_instruction_consts_mono(instructions: Seq<Instruction>, hi: int)
    requires
        0 <= hi <= instructions.len(),
    ensures
        instruction_consts(instructions, hi).len() <= instruction_consts(instructions, instructions.len() as int).len(),
    decreases instructions.len() - hi,
{
    if hi < instructions.len() {
        lemma_instruction_consts_mono(instructions, hi + 1);
    }
}

/// Writes the data section when the program has string constants.
fn emit_data_section(program: &IrProgram, out: &mut String)
    ensures
        final(out)@ == old(out)@ + data_text(*program),
{
    if !has_string_consts(program) {
        assert(out@ =~= old(out)@ + data_text(*program));
        return;
    }
    out.append("section .data\n");
    emit_data_lines(program, out);
    out.append("\n");
    assert(out@ =~= old(out)@ + data_text(*program));
}


pub open spec fn functions_text(functions: Seq<IrFunction>, abi: Abi, runtime_entry: bool, hi: int) -> Seq<char>
    decreases hi,
{
    if hi <= 0 {
        Seq::empty()
    } else {
        functions_text(functions, abi, runtime_entry, hi - 1) + function_text(functions[hi - 1], abi, runtime_entry)
    }
}

/// A program that the emitter accepts: every function is emittable.
pub open spec fn emittable_program(program: IrProgram) -> bool {
    forall|k: int| 0 <= k < program.functions@.len() ==> emittable_function(#[trigger] program.functions@[k])
}

/// The whole assembly file for the given sorted external symbols.
pub open spec fn program_text(program: IrProgram, abi: Abi, runtime_entry: bool, externs: Seq<Seq<char>>) -> Seq<char> {
    (if runtime_entry { "global geo_main\n"@ } else { "global main\n"@ })
        + extern_text(externs)
        + data_text(program)
        + "section .text\n\n"@
        + functions_text(program.functions@, abi, runtime_entry, program.functions@.len() as int)
}

/// The assembly is `program_text` for the program's external symbols in byte order.
pub open spec fn is_program_assembly(program: IrProgram, abi: Abi, runtime_entry: bool, text: Seq<char>) -> bool {
    exists|externs: Seq<Seq<char>>|
        #![trigger program_text(program, abi, runtime_entry, externs)]
        sorted_names(externs) && externs.to_set() == Set::new(|n: Seq<char>| is_external(program, n))
            && text == program_text(program, abi, runtime_entry, externs)
}

/// Emits NASM assembly for the program; with `runtime_entry` the entry point is `geo_main`,
/// which the C runtime calls, in place of `main`.
pub fn emit_nasm_for_target_with_runtime_entry(program: &IrProgram, target: &Target, runtime_entry: bool) -> (out: String)
    requires
        emittable_program(*program),
    ensures
        is_program_assembly(*program, target.abi, runtime_entry, out@),
{
    let mut out = String::new();
    if runtime_entry {
        out.append("global geo_main\n");
    } else {
        out.append("global main\n");
    }
    let ghost s0 = out@;
    let names = emit_external_declarations(program, &mut out);
    let ghost externs = names@.map_values(|s: String| s@);
    let ghost s1 = out@;
    emit_data_section(program, &mut out);
    let ghost s2 = out@;
    out.append("section .text\n\n");
    let ghost s3 = out@;
    let mut k: usize = 0;
    assert(out@ =~= s3 + functions_text(program.functions@, target.abi, runtime_entry, 0));
    while k < program.functions.len()
        invariant
            k <= program.functions@.len(),
            emittable_program(*program),
            out@ == s3 + functions_text(program.functions@, target.abi, runtime_entry, k as int),
        decreases program.functions@.len() - k,
    {
        emit_function(&program.functions[k], target, runtime_entry, &mut out);
        k = k + 1;
        assert(out@ =~= s3 + functions_text(program.functions@, target.abi, runtime_entry, k as int));
    }
    proof {
        assert(out@ =~= program_text(*program, target.abi, runtime_entry, externs));
    }
    out
}

/// Emits NASM assembly with `main` as the entry point.
pub fn emit_nasm_for_target(program: &IrProgram, target: &Target) -> (out: String)
    requires
        emittable_program(*program),
    ensures
        is_program_assembly(*program, target.abi, false, out@),
{
    emit_nasm_for_target_with_runtime_entry(program, target, false)
}

/// Emits NASM assembly for x86-64 Linux.
pub fn emit_nasm(program: &IrProgram) -> (out: String)
    requires
        emittable_program(*program),
    ensures
        is_program_assembly(*program, Abi::SystemV, false, out@),
{
    emit_nasm_for_target(program, &Target::linux_x86_64())
}

/// The aggregate buffer bytes that one instruction reserves.
pub open spec fn instruction_buffer(instruction: Instruction) -> int {
    match instruction {
        Instruction::CallAggregate { dst, .. } => dst.len() * 8,
        _ => 0,
    }
}

/// The slot requests and aggregate buffer bytes of one instruction.
fn instruction_demand(instruction: &Instruction) -> (r: (usize, usize))
    ensures
        r.0 == instruction_requests(*instruction).len(),
        r.1 < 0x100_0000 ==> r.1 == instruction_buffer(*instruction),
        r.1 >= 0x100_0000 ==> instruction_buffer(*instruction) >= 0x100_0000,
{
    let defined = defined_values(instruction);
    let stores: usize = if matches!(instruction, Instruction::Store { .. }) { 1 } else { 0 };
    let buffer: usize = match instruction {
        Instruction::CallAggregate { dst, .. } => if dst.len() < 0x20_0000 { dst.len() * 8 } else { 0x100_0000 },
        _ => 0,
    };
    proof {
        assert(instruction_requests(*instruction).len() == defined@.len() + stores);
    }
    if defined.len() < usize::MAX {
        (defined.len() + stores, buffer)
    } else {
        (usize::MAX, buffer)
    }
}

/// Whether a function's slots and buffers stay within the frame limit.
pub fn is_small_function(function: &IrFunction) -> (r: bool)
    ensures
        r == small_function(*function),
{
    let ghost instrs = function.instructions@;
    let limit: usize = 0x100_0000;
    if function.params.len() >= 0x20_0000 {
        proof {
            lemma_requests_len_mono(instrs, 0);
            lemma_buffer_demand_nonneg(instrs);
        }
        return false;
    }
    let mut total: usize = function.params.len() * 8;
    let mut i: usize = 0;
    while i < function.instructions.len()
        invariant
            i <= instrs.len(),
            instrs == function.instructions@,
            total == param_requests(function.params@).len() * 8
                + instructions_requests(instrs.subrange(0, i as int)).len() * 8
                + buffer_demand(instrs.subrange(0, i as int)),
            total < limit,
            limit == 0x100_0000,
        decreases instrs.len() - i,
    {
        let (requests, buffer) = instruction_demand(&function.instructions[i]);
        proof {
            let p1 = instrs.subrange(0, i + 1);
            lemma_requests_push(instrs, i as int);
            assert(p1.drop_last() =~= instrs.subrange(0, i as int));
            assert(p1.last() == instrs[i as int]);
            assert(buffer_demand(p1) == buffer_demand(instrs.subrange(0, i as int)) + instruction_buffer(instrs[i as int]));
            lemma_requests_len_mono(instrs, i + 1);
            lemma_buffer_demand_nonneg(instrs);
        }
        if requests >= limit || buffer >= limit || total + requests * 8 + buffer >= limit {
            proof {
                assert(layout_demand(*function) >= limit);
            }
            return false;
        }
        total = total + requests * 8 + buffer;
        i = i + 1;
    }
    proof {
        assert(instrs.subrange(0, i as int) =~= instrs);
    }
    true
}

fn has_value_exec(layout: &FunctionLayout, value: ValueId) -> (r: bool)
    ensures
        r == has_value(layout@, value),
{
    lookup_value_slot(&layout.value_slots, value.0).is_some()
}

fn has_local_exec(layout: &FunctionLayout, local: &str) -> (r: bool)
    ensures
        r == has_local(layout@, local@),
{
    lookup_local_slot(&layout.local_slots, local).is_some()
}

fn has_values_exec(layout: &FunctionLayout, values: &Vec<ValueId>) -> (r: bool)
    ensures
        r == has_values(layout@, values@),
{
    let mut i: usize = 0;
    while i < values.len()
        invariant
            i <= values@.len(),
            forall|j: int| 0 <= j < i ==> has_value(layout@, #[trigger] values@[j]),
        decreases values@.len() - i,
    {
        if !has_value_exec(layout, values[i]) {
            return false;
        }
        i = i + 1;
    }
    true
}

/// Whether the layout has a slot for everything the instruction names.
fn instruction_resolves_exec(layout: &FunctionLayout, instruction: &Instruction) -> (r: bool)
    ensures
        r == instruction_resolves(layout@, *instruction),
{
    match instruction {
        Instruction::Const { dst, .. } | Instruction::StringConst { dst, .. } => has_value_exec(layout, *dst),
        Instruction::Load { dst, local } | Instruction::AddressOf { dst, local } =>
            has_value_exec(layout, *dst) && has_local_exec(layout, local.as_str()),
        Instruction::Deref { dst, pointer, .. } => has_value_exec(layout, *dst) && has_value_exec(layout, *pointer),
        Instruction::BitNot { dst, value } => has_value_exec(layout, *dst) && has_value_exec(layout, *value),
        Instruction::BoundsCheck { index, .. } => has_value_exec(layout, *index),
        Instruction::Store { local, value } => has_value_exec(layout, *value) && has_local_exec(layout, local.as_str()),
        Instruction::StoreDeref { pointer, value, .. } => has_value_exec(layout, *pointer) && has_value_exec(layout, *value),
        Instruction::And { dst, left, right } | Instruction::Or { dst, left, right }
        | Instruction::BitAnd { dst, left, right } | Instruction::BitOr { dst, left, right }
        | Instruction::BitXor { dst, left, right } | Instruction::ShiftLeft { dst, left, right }
        | Instruction::ShiftRight { dst, left, right } | Instruction::Add { dst, left, right }
        | Instruction::Sub { dst, left, right } | Instruction::Mul { dst, left, right }
        | Instruction::Div { dst, left, right } | Instruction::Rem { dst, left, right }
        | Instruction::Cmp { dst, left, right, .. } =>
            has_value_exec(layout, *dst) && has_value_exec(layout, *left) && has_value_exec(layout, *right),
        Instruction::Jump { .. } | Instruction::Label { .. } => true,
        Instruction::JumpIfZero { value, .. } => has_value_exec(layout, *value),
        Instruction::Call { dst, args, .. } =>
            has_value_exec(layout, *dst) && has_values_exec(layout, args) && args.len() < 0x1000_0000,
        Instruction::CallAggregate { dst, args, buffer, .. } =>
            has_values_exec(layout, dst) && has_values_exec(layout, args) && args.len() < 0x1000_0000
                && dst.len() < 0x20_0000 && lookup_value_slot(&layout.aggregate_buffers, *buffer).is_some(),
        Instruction::ReturnAggregate { values } => {
            proof { reveal_strlit("__geo_return_ptr"); }
            has_values_exec(layout, values) && values.len() < 0x20_0000 && has_local_exec(layout, "__geo_return_ptr")
        },
        Instruction::Return { value } => has_value_exec(layout, *value),
    }
}

/// Whether the emitter can lay out and emit a function.
pub fn is_emittable_function(function: &IrFunction) -> (r: bool)
    ensures
        r == emittable_function(*function),
{
    if !is_small_function(function) {
        return false;
    }
    let layout = build_layout(function);
    let mut i: usize = 0;
    while i < function.instructions.len()
        invariant
            i <= function.instructions@.len(),
            layout@ == layout_of(*function),
            small_function(*function),
            forall|j: int| 0 <= j < i ==> instruction_resolves(layout_of(*function), #[trigger] function.instructions@[j]),
        decreases function.instructions@.len() - i,
    {
        if !instruction_resolves_exec(&layout, &function.instructions[i]) {
            return false;
        }
        i = i + 1;
    }
    true
}

/// Whether the emitter can emit every function of a program.
pub fn is_emittable_program(program: &IrProgram) -> (r: bool)
    ensures
        r == emittable_program(*program),
{
    let mut k: usize = 0;
    while k < program.functions.len()
        invariant
            k <= program.functions@.len(),
            forall|j: int| 0 <= j < k ==> emittable_function(#[trigger] program.functions@[j]),
        decreases program.functions@.len() - k,
    {
        if !is_emittable_function(&program.functions[k]) {
            return false;
        }
        k = k + 1;
    }
    true
}


/// What the x86-64 shift `m rax, cl` leaves in `rax`, for the shift mnemonics: the count is
/// taken modulo 64; `sar` fills with copies of the sign bit, `shr` fills with zeros, and
/// `shl` (also spelled `sal`) shifts left. `None` for any other mnemonic.
pub open spec fn x86_shift(m: Seq<char>, value: i64, count: i64) -> Option<i64> {
    let c = count & 63i64;
    if m == "sar"@ {
        Some(value >> c)
    } else if m == "shr"@ {
        Some(((value as u64) >> (c as u64)) as i64)
    } else if m == "shl"@ || m == "sal"@ {
        Some(((value as u64) << (c as u64)) as i64)
    } else {
        None
    }
}

/// The shifts are emitted with the x86-64 instruction that computes them: for every count
/// in range, the machine shift gives what constant folding gives, so a right shift of a
/// negative value keeps its sign (`-8 >> 1` is `-4`).
pub proof fn lemma_shifts_compute_as_folded(layout: LayoutView, abi: Abi, dst: ValueId, left: ValueId, right: ValueId)
    ensures
        exists|m: Seq<char>| {
            &&& instruction_text(layout, abi, Instruction::ShiftRight { dst, left, right }) == #[trigger] shift_text(layout, dst, left, right, m)
            &&& forall|v: i64, c: i64| 0 <= c < 64 ==> #[trigger] x86_shift(m, v, c) == crate::lower::fold_binary_spec(crate::ast::BinaryOp::ShiftRight, v, c)
        },
        exists|m: Seq<char>| {
            &&& instruction_text(layout, abi, Instruction::ShiftLeft { dst, left, right }) == #[trigger] shift_text(layout, dst, left, right, m)
            &&& forall|v: i64, c: i64| 0 <= c < 64 ==> #[trigger] x86_shift(m, v, c) == crate::lower::fold_binary_spec(crate::ast::BinaryOp::ShiftLeft, v, c)
        },
{
    reveal_strlit("sar");
    reveal_strlit("shr");
    reveal_strlit("shl");
    reveal_strlit("sal");
    assert("shl"@ != "sar"@) by {
        assert("shl"@[1] != "sar"@[1]);
    }
    assert("shl"@ != "shr"@) by {
        assert("shl"@[2] != "shr"@[2]);
    }
    assert forall|v: i64, c: i64| 0 <= c < 64 implies #[trigger] x86_shift("sar"@, v, c)
        == crate::lower::fold_binary_spec(crate::ast::BinaryOp::ShiftRight, v, c) by {
        assert(c & 63i64 == c) by (bit_vector)
            requires 0 <= c < 64;
    }
    assert forall|v: i64, c: i64| 0 <= c < 64 implies #[trigger] x86_shift("shl"@, v, c)
        == crate::lower::fold_binary_spec(crate::ast::BinaryOp::ShiftLeft, v, c) by {
        assert(c & 63i64 == c) by (bit_vector)
            requires 0 <= c < 64;
    }
    assert(instruction_text(layout, abi, Instruction::ShiftRight { dst, left, right }) == shift_text(layout, dst, left, right, "sar"@));
    assert(instruction_text(layout, abi, Instruction::ShiftLeft { dst, left, right }) == shift_text(layout, dst, left, right, "shl"@));
}


/// What `setcc al` leaves after `cmp rax, r10` with `l` in `rax` and `r` in `r10`, for the
/// condition mnemonics: `e`/`ne` equality, `l`/`le`/`g`/`ge` the signed order, and
/// `b`/`be`/`a`/`ae` the unsigned order. `None` for any other mnemonic.
pub open spec fn x86_condition(m: Seq<char>, l: i64, r: i64) -> Option<bool> {
    if m == "sete"@ {
        Some(l == r)
    } else if m == "setne"@ {
        Some(l != r)
    } else if m == "setl"@ {
        Some(l < r)
    } else if m == "setle"@ {
        Some(l <= r)
    } else if m == "setg"@ {
        Some(l > r)
    } else if m == "setge"@ {
        Some(l >= r)
    } else if m == "setb"@ {
        Some((l as u64) < (r as u64))
    } else if m == "setbe"@ {
        Some((l as u64) <= (r as u64))
    } else if m == "seta"@ {
        Some((l as u64) > (r as u64))
    } else if m == "setae"@ {
        Some((l as u64) >= (r as u64))
    } else {
        None
    }
}

/// Every comparison is emitted with the condition that decides it, on signed values:
/// the flag the `setcc` sets is exactly the comparison the IR asks for.
pub proof fn lemma_comparisons_set_their_condition(op: CmpOp, l: i64, r: i64)
    ensures
        x86_condition(spec_setcc(op), l, r) == Some(crate::pe::compare_spec(op, l, r)),
{
    reveal_strlit("sete");
    reveal_strlit("setne");
    reveal_strlit("setl");
    reveal_strlit("setle");
    reveal_strlit("setg");
    reveal_strlit("setge");
    reveal_strlit("setb");
    reveal_strlit("setbe");
    reveal_strlit("seta");
    reveal_strlit("setae");
    assert("setne"@.len() != "sete"@.len());
    assert("setl"@[3] != "sete"@[3]);
    assert("setl"@.len() != "setne"@.len());
    assert("setle"@.len() != "sete"@.len());
    assert("setle"@[3] != "setne"@[3]);
    assert("setle"@.len() != "setl"@.len());
    assert("setg"@[3] != "sete"@[3]);
    assert("setg"@.len() != "setne"@.len());
    assert("setg"@[3] != "setl"@[3]);
    assert("setg"@.len() != "setle"@.len());
    assert("setge"@.len() != "sete"@.len());
    assert("setge"@[3] != "setne"@[3]);
    assert("setge"@.len() != "setl"@.len());
    assert("setge"@[3] != "setle"@[3]);
    assert("setge"@.len() != "setg"@.len());
}

} // verus!
