//! The layout of PE32+ console images: where the sections sit and which slot of the import
//! address table each imported Windows function occupies.
use vstd::prelude::*;
use crate::ast::BinaryOp;
use crate::ir::{CmpOp, Instruction, IrFunction, IrProgram, ValueId};
use crate::text::str_eq;
use crate::bytes::{le16, le32, le64, lemma_range_kept, lemma_splice_same_outside, lemma_splice_sets, push_bytes, same_outside, splice};

verus! {

pub const FILE_ALIGNMENT: u32 = 0x200;
pub const SECTION_ALIGNMENT: u32 = 0x1000;

/// The Windows functions an image may import from `KERNEL32.dll`.
#[derive(Debug, Clone, Copy, PartialEq, Eq, Structural)]
pub enum Import {
    GetStdHandle,
    WriteFile,
    ExitProcess,
    VirtualAlloc,
    VirtualFree,
    CreateFile,
    GetFileSize,
    ReadFile,
    CloseHandle,
    DeleteFile,
    GetFileAttributes,
}

/// The imports an image needs, in table order: the console pair, `ExitProcess` always, the
/// allocation pair, the file functions (all four to read files, only open and close to
/// write them), then deletion and attribute queries.
pub open spec fn imports_for(console: bool, alloc: bool, read: bool, ops: bool, metadata: bool) -> Seq<Import> {
    (if console { seq![Import::GetStdHandle, Import::WriteFile] } else { seq![] })
        + seq![Import::ExitProcess]
        + (if alloc { seq![Import::VirtualAlloc, Import::VirtualFree] } else { seq![] })
        + (if read {
            seq![Import::CreateFile, Import::GetFileSize, Import::ReadFile, Import::CloseHandle]
        } else if ops {
            seq![Import::CreateFile, Import::CloseHandle]
        } else {
            seq![]
        })
        + (if ops { seq![Import::DeleteFile] } else { seq![] })
        + (if metadata { seq![Import::GetFileAttributes] } else { seq![] })
}

/// `value` rounded up to a multiple of `alignment`.
pub open spec fn aligned(value: int, alignment: int) -> int {
    (value + alignment - 1) / alignment * alignment
}

/// Rounds `value` up to a multiple of `alignment`.
pub fn align_to(value: u32, alignment: u32) -> (r: u32)
    requires
        alignment > 0,
        value + alignment <= u32::MAX,
    ensures
        r == aligned(value as int, alignment as int),
        value <= r < value + alignment,
        r % alignment == 0,
{
    let q = (value + alignment - 1) / alignment;
    proof {
        let v = value as int;
        let a = alignment as int;
        vstd::arithmetic::div_mod::lemma_fundamental_div_mod(v + a - 1, a);
        assert(q * a >= v && q * a < v + a) by (nonlinear_arith)
            requires a > 0, v + a - 1 == a * q + (v + a - 1) % a, 0 <= (v + a - 1) % a < a;
        vstd::arithmetic::div_mod::lemma_mod_multiples_basic(q as int, a);
        assert(q * a == a * q) by (nonlinear_arith);
    }
    q * alignment
}

/// Where everything of an image goes.
pub struct Layout {
    pub text_rva: u32,
    pub rdata_rva: u32,
    pub idata_rva: u32,
    pub text_raw: u32,
    pub message_rva: u32,
    pub written_rva: u32,
    pub import_descriptor_rva: u32,
    pub import_descriptor_size: u32,
    pub iat_size: u32,
    pub get_std_handle_iat: u32,
    pub write_file_iat: u32,
    pub exit_process_iat: u32,
    pub virtual_alloc_iat: u32,
    pub virtual_free_iat: u32,
    pub has_console_io: bool,
    pub has_virtual_alloc: bool,
    pub has_file_read: bool,
    pub create_file_iat: u32,
    pub get_file_size_iat: u32,
    pub read_file_iat: u32,
    pub close_handle_iat: u32,
    pub delete_file_iat: u32,
    pub has_file_ops: bool,
    pub get_file_attributes_iat: u32,
    pub has_file_metadata: bool,
}

/// The imports of a layout, in table order.
pub open spec fn layout_imports(l: Layout) -> Seq<Import> {
    imports_for(l.has_console_io, l.has_virtual_alloc, l.has_file_read, l.has_file_ops, l.has_file_metadata)
}

/// The address of the import address table: after the import descriptors (two of 20 bytes)
/// and the import lookup table, which has the table's size.
pub open spec fn first_thunk_rva(l: Layout) -> int {
    l.idata_rva + 40 + l.iat_size
}

/// The slot of an import in the address table, as the layout records it.
pub open spec fn slot_of(l: Layout, import: Import) -> int {
    match import {
        Import::GetStdHandle => l.get_std_handle_iat as int,
        Import::WriteFile => l.write_file_iat as int,
        Import::ExitProcess => l.exit_process_iat as int,
        Import::VirtualAlloc => l.virtual_alloc_iat as int,
        Import::VirtualFree => l.virtual_free_iat as int,
        Import::CreateFile => l.create_file_iat as int,
        Import::GetFileSize => l.get_file_size_iat as int,
        Import::ReadFile => l.read_file_iat as int,
        Import::CloseHandle => l.close_handle_iat as int,
        Import::DeleteFile => l.delete_file_iat as int,
        Import::GetFileAttributes => l.get_file_attributes_iat as int,
    }
}

/// A layout whose slots follow its import list: the `k`-th import sits `8 * k` bytes into the
/// address table, an import the image does not use points at the table's start, and the
/// table has one null entry more than the imports.
pub open spec fn slots_follow_imports(l: Layout) -> bool {
    let imports = layout_imports(l);
    &&& l.iat_size == (imports.len() + 1) * 8
    &&& forall|k: int| 0 <= k < imports.len() ==> slot_of(l, #[trigger] imports[k]) == first_thunk_rva(l) + 8 * k
    &&& forall|i: Import| !imports.contains(i) ==> slot_of(l, i) == first_thunk_rva(l)
}

/// The fixed placement of the sections and headers, with the written-byte counter after the
/// read-only data at the next multiple of eight.
pub open spec fn fixed_placement(l: Layout, data_len: int) -> bool {
    &&& l.text_rva == 0x1000
    &&& l.rdata_rva == 0x2000
    &&& l.idata_rva == 0x3000
    &&& l.text_raw == 0x200
    &&& l.message_rva == 0x2000
    &&& l.written_rva == aligned(0x2000 + data_len, 8)
    &&& l.import_descriptor_rva == 0x3000
    &&& l.import_descriptor_size == FILE_ALIGNMENT
}

/// Every slot of the address table lies below `bound`.
pub open spec fn slots_below(l: Layout, bound: int) -> bool {
    &&& l.get_std_handle_iat < bound
    &&& l.write_file_iat < bound
    &&& l.exit_process_iat < bound
    &&& l.virtual_alloc_iat < bound
    &&& l.virtual_free_iat < bound
    &&& l.create_file_iat < bound
    &&& l.get_file_size_iat < bound
    &&& l.read_file_iat < bound
    &&& l.close_handle_iat < bound
    &&& l.delete_file_iat < bound
    &&& l.get_file_attributes_iat < bound
}

/// Takes the next slot of the table.
fn take_slot(next: &mut u32) -> (slot: u32)
    requires
        *old(next) < 0x1000_0000,
    ensures
        slot == *old(next),
        *final(next) == *old(next) + 8,
{
    let slot = *next;
    *next = *next + 8;
    slot
}

impl Layout {
    /// Places the sections and gives each import the image needs a slot of the address
    /// table, in table order.
    pub fn new(
        data_len: u32,
        has_console_io: bool,
        has_virtual_alloc: bool,
        has_file_read: bool,
        has_file_ops: bool,
        has_file_metadata: bool,
    ) -> (l: Layout)
        requires
            data_len <= 0xffff_0000,
        ensures
            fixed_placement(l, data_len as int),
            l.has_console_io == has_console_io,
            l.has_virtual_alloc == has_virtual_alloc,
            l.has_file_read == has_file_read,
            l.has_file_ops == has_file_ops,
            l.has_file_metadata == has_file_metadata,
            slots_follow_imports(l),
            slots_below(l, 0x4000),
            0x2000 + data_len <= l.written_rva < 0x2008 + data_len,
    {
        let headers_raw: u32 = 0x200;
        let text_rva: u32 = 0x1000;
        let rdata_rva: u32 = 0x2000;
        let idata_rva: u32 = 0x3000;
        let text_raw = headers_raw;
        let message_rva = rdata_rva;
        let written_rva = align_to(message_rva + data_len, 8);
        let import_descriptor_rva = idata_rva;
        let oft_rva = import_descriptor_rva + 40;
        let file_import_count: u32 = if has_file_read {
            4
        } else if has_file_ops {
            2
        } else {
            0
        };
        let import_count: u32 = (if has_console_io { 2u32 } else { 0 }) + 1 + (if has_virtual_alloc { 2u32 } else { 0 })
            + file_import_count + (if has_file_ops { 1u32 } else { 0 }) + (if has_file_metadata { 1u32 } else { 0 });
        let iat_size = (import_count + 1) * 8;
        let ft_rva = oft_rva + iat_size;
        let mut next_iat = ft_rva;
        let get_std_handle_iat = if has_console_io { take_slot(&mut next_iat) } else { ft_rva };
        let write_file_iat = if has_console_io { take_slot(&mut next_iat) } else { ft_rva };
        let exit_process_iat = take_slot(&mut next_iat);
        let virtual_alloc_iat = if has_virtual_alloc { take_slot(&mut next_iat) } else { ft_rva };
        let virtual_free_iat = if has_virtual_alloc { take_slot(&mut next_iat) } else { ft_rva };
        let create_file_iat = if has_file_read || has_file_ops { take_slot(&mut next_iat) } else { ft_rva };
        let get_file_size_iat = if has_file_read { take_slot(&mut next_iat) } else { ft_rva };
        let read_file_iat = if has_file_read { take_slot(&mut next_iat) } else { ft_rva };
        let close_handle_iat = if has_file_read || has_file_ops { take_slot(&mut next_iat) } else { ft_rva };
        let delete_file_iat = if has_file_ops { next_iat } else { ft_rva };
        if has_file_ops {
            next_iat = next_iat + 8;
        }
        let get_file_attributes_iat = if has_file_metadata { next_iat } else { ft_rva };
        let l = Layout {
            text_rva,
            rdata_rva,
            idata_rva,
            text_raw,
            message_rva,
            written_rva,
            import_descriptor_rva,
            import_descriptor_size: FILE_ALIGNMENT,
            iat_size,
            get_std_handle_iat,
            write_file_iat,
            exit_process_iat,
            virtual_alloc_iat,
            virtual_free_iat,
            has_console_io,
            has_virtual_alloc,
            has_file_read,
            create_file_iat,
            get_file_size_iat,
            read_file_iat,
            close_handle_iat,
            delete_file_iat,
            has_file_ops,
            get_file_attributes_iat,
            has_file_metadata,
        };
        proof {
            lemma_imports_slots(l);
        }
        l
    }
}

proof fn lemma_imports_slots(l: Layout)
    requires
        l.idata_rva == 0x3000,
        ({
            let c = if l.has_console_io { 2int } else { 0 };
            let a = if l.has_virtual_alloc { 2int } else { 0 };
            let f = if l.has_file_read { 4int } else if l.has_file_ops { 2 } else { 0 };
            let d = if l.has_file_ops { 1int } else { 0 };
            let m = if l.has_file_metadata { 1int } else { 0 };
            let ft = first_thunk_rva(l);
            &&& l.iat_size == (c + 1 + a + f + d + m + 1) * 8
            &&& l.get_std_handle_iat == (if l.has_console_io { ft } else { ft })
            &&& l.write_file_iat == (if l.has_console_io { ft + 8 } else { ft })
            &&& l.exit_process_iat == ft + 8 * c
            &&& l.virtual_alloc_iat == (if l.has_virtual_alloc { ft + 8 * (c + 1) } else { ft })
            &&& l.virtual_free_iat == (if l.has_virtual_alloc { ft + 8 * (c + 2) } else { ft })
            &&& l.create_file_iat == (if l.has_file_read || l.has_file_ops { ft + 8 * (c + 1 + a) } else { ft })
            &&& l.get_file_size_iat == (if l.has_file_read { ft + 8 * (c + 2 + a) } else { ft })
            &&& l.read_file_iat == (if l.has_file_read { ft + 8 * (c + 3 + a) } else { ft })
            &&& l.close_handle_iat == (if l.has_file_read { ft + 8 * (c + 4 + a) } else if l.has_file_ops { ft + 8 * (c + 2 + a) } else { ft })
            &&& l.delete_file_iat == (if l.has_file_ops { ft + 8 * (c + 1 + a + f) } else { ft })
            &&& l.get_file_attributes_iat == (if l.has_file_metadata { ft + 8 * (c + 1 + a + f + d) } else { ft })
        }),
    ensures
        slots_follow_imports(l),
{
    let imports = layout_imports(l);
    let c = if l.has_console_io { 2int } else { 0 };
    let a = if l.has_virtual_alloc { 2int } else { 0 };
    let f = if l.has_file_read { 4int } else if l.has_file_ops { 2 } else { 0 };
    let d = if l.has_file_ops { 1int } else { 0 };
    let part1: Seq<Import> = if l.has_console_io { seq![Import::GetStdHandle, Import::WriteFile] } else { seq![] };
    let part3: Seq<Import> = if l.has_virtual_alloc { seq![Import::VirtualAlloc, Import::VirtualFree] } else { seq![] };
    let part4: Seq<Import> = if l.has_file_read {
        seq![Import::CreateFile, Import::GetFileSize, Import::ReadFile, Import::CloseHandle]
    } else if l.has_file_ops {
        seq![Import::CreateFile, Import::CloseHandle]
    } else {
        seq![]
    };
    let part5: Seq<Import> = if l.has_file_ops { seq![Import::DeleteFile] } else { seq![] };
    let part6: Seq<Import> = if l.has_file_metadata { seq![Import::GetFileAttributes] } else { seq![] };
    assert(imports == part1 + seq![Import::ExitProcess] + part3 + part4 + part5 + part6);
    assert forall|k: int| 0 <= k < imports.len() implies slot_of(l, #[trigger] imports[k]) == first_thunk_rva(l) + 8 * k by {
        if k < c {
        } else if k == c {
        } else if k < c + 1 + a {
        } else if k < c + 1 + a + f {
        } else if k < c + 1 + a + f + d {
        } else {
        }
    }
    assert forall|i: Import| !imports.contains(i) implies slot_of(l, i) == first_thunk_rva(l) by {
        match i {
            Import::GetStdHandle => if l.has_console_io { assert(imports[0] == i); },
            Import::WriteFile => if l.has_console_io { assert(imports[1] == i); },
            Import::ExitProcess => { assert(imports[c] == i); },
            Import::VirtualAlloc => if l.has_virtual_alloc { assert(imports[c + 1] == i); },
            Import::VirtualFree => if l.has_virtual_alloc { assert(imports[c + 2] == i); },
            Import::CreateFile => if l.has_file_read || l.has_file_ops { assert(imports[c + 1 + a] == i); },
            Import::GetFileSize => if l.has_file_read { assert(imports[c + 2 + a] == i); },
            Import::ReadFile => if l.has_file_read { assert(imports[c + 3 + a] == i); },
            Import::CloseHandle => if l.has_file_read { assert(imports[c + 4 + a] == i); } else if l.has_file_ops { assert(imports[c + 2 + a] == i); },
            Import::DeleteFile => if l.has_file_ops { assert(imports[c + 1 + a + f] == i); },
            Import::GetFileAttributes => if l.has_file_metadata { assert(imports[c + 1 + a + f + d] == i); },
        }
    }
}

/// The evaluator's step budget: evaluation that takes more instructions fails.
pub const MAX_PE_EVAL_STEPS: usize = 100_000;

/// A value of the evaluator: an integer, a string, or a reference to a local.
#[derive(Debug, PartialEq, Eq)]
pub enum PeValue {
    Int(i64),
    String(String),
    LocalRef(String),
}

impl PeValue {
    /// An owned copy.
    pub fn copy(&self) -> (r: PeValue)
        ensures
            r == *self,
    {
        match self {
            PeValue::Int(v) => PeValue::Int(*v),
            PeValue::String(s) => PeValue::String(s.clone()),
            PeValue::LocalRef(s) => PeValue::LocalRef(s.clone()),
        }
    }

    /// The integer, if this is one.
    pub fn as_int(&self) -> (r: Option<i64>)
        ensures
            r == match *self { PeValue::Int(v) => Some(v), _ => None },
    {
        match self {
            PeValue::Int(v) => Some(*v),
            _ => None,
        }
    }

    /// The string, if this is one.
    pub fn as_string(&self) -> (r: Option<&str>)
        ensures
            match *self {
                PeValue::String(s) => r matches Some(t) && t@ == s@,
                _ => r is None,
            },
    {
        match self {
            PeValue::String(s) => Some(s.as_str()),
            _ => None,
        }
    }

    /// The truth of an integer: anything but zero.
    pub fn as_bool(&self) -> (r: Option<bool>)
        ensures
            r == match *self { PeValue::Int(v) => Some(v != 0), _ => None },
    {
        match self.as_int() {
            Some(v) => Some(v != 0),
            None => None,
        }
    }
}

/// The result of an integer comparison.
pub open spec fn compare_spec(op: CmpOp, left: i64, right: i64) -> bool {
    match op {
        CmpOp::Equal => left == right,
        CmpOp::NotEqual => left != right,
        CmpOp::Less => left < right,
        CmpOp::LessEqual => left <= right,
        CmpOp::Greater => left > right,
        CmpOp::GreaterEqual => left >= right,
    }
}

/// Compares two integers.
pub fn eval_compare(op: CmpOp, left: i64, right: i64) -> (r: bool)
    ensures
        r == compare_spec(op, left, right),
{
    match op {
        CmpOp::Equal => left == right,
        CmpOp::NotEqual => left != right,
        CmpOp::Less => left < right,
        CmpOp::LessEqual => left <= right,
        CmpOp::Greater => left > right,
        CmpOp::GreaterEqual => left >= right,
    }
}

fn int_value(b: bool) -> (r: PeValue)
    ensures
        r == PeValue::Int(if b { 1 } else { 0 }),
{
    PeValue::Int(if b { 1 } else { 0 })
}

/// The most recent binding of value `id` in `values`.
pub open spec fn value_of(values: Seq<(usize, PeValue)>, id: usize) -> Option<PeValue>
    decreases values.len(),
{
    if values.len() == 0 {
        None
    } else if values.last().0 == id {
        Some(values.last().1)
    } else {
        value_of(values.drop_last(), id)
    }
}

/// The most recent binding of local `name` in `locals`.
pub open spec fn local_of(locals: Seq<(String, PeValue)>, name: Seq<char>) -> Option<PeValue>
    decreases locals.len(),
{
    if locals.len() == 0 {
        None
    } else if locals.last().0@ == name {
        Some(locals.last().1)
    } else {
        local_of(locals.drop_last(), name)
    }
}

/// The integer bound to value `id`, if it is one.
pub open spec fn int_of(values: Seq<(usize, PeValue)>, id: usize) -> Option<i64> {
    match value_of(values, id) {
        Some(PeValue::Int(v)) => Some(v),
        _ => None,
    }
}

/// The most recent binding of a value id.
fn get_value(values: &Vec<(usize, PeValue)>, id: ValueId) -> (r: Option<&PeValue>)
    ensures
        match value_of(values@, id.0) {
            Some(v) => r matches Some(w) && *w == v,
            None => r is None,
        },
        match bound_value(values_view(values@), id.0) {
            Some(v) => r matches Some(w) && value_view(*w) == v,
            None => r is None,
        },
{
    proof { lemma_bound_value(values@, id.0); }
    let mut i = values.len();
    assert(values@.subrange(0, i as int) =~= values@);
    while i > 0
        invariant
            i <= values@.len(),
            value_of(values@, id.0) == value_of(values@.subrange(0, i as int), id.0),
        decreases i,
    {
        assert(values@.subrange(0, i - 1) =~= values@.subrange(0, i as int).drop_last());
        i = i - 1;
        if values[i].0 == id.0 {
            proof { lemma_bound_value(values@, id.0); }
            return Some(&values[i].1);
        }
    }
    proof { lemma_bound_value(values@, id.0); }
    None
}

/// The most recent binding of a local.
fn get_local<'b>(locals: &'b Vec<(String, PeValue)>, name: &str) -> (r: Option<&'b PeValue>)
    ensures
        match local_of(locals@, name@) {
            Some(v) => r matches Some(w) && *w == v,
            None => r is None,
        },
        match bound_local(locals_view(locals@), name@) {
            Some(v) => r matches Some(w) && value_view(*w) == v,
            None => r is None,
        },
{
    let mut i = locals.len();
    assert(locals@.subrange(0, i as int) =~= locals@);
    while i > 0
        invariant
            i <= locals@.len(),
            local_of(locals@, name@) == local_of(locals@.subrange(0, i as int), name@),
        decreases i,
    {
        assert(locals@.subrange(0, i - 1) =~= locals@.subrange(0, i as int).drop_last());
        i = i - 1;
        if str_eq(locals[i].0.as_str(), name) {
            proof { lemma_bound_local(locals@, name@); }
            return Some(&locals[i].1);
        }
    }
    proof { lemma_bound_local(locals@, name@); }
    None
}

fn get_int(values: &Vec<(usize, PeValue)>, id: ValueId) -> (r: Option<i64>)
    ensures
        r == int_of(values@, id.0),
        r == bound_int(values_view(values@), id.0),
{
    proof { lemma_bound_value(values@, id.0); }
    match get_value(values, id) {
        Some(v) => v.as_int(),
        None => None,
    }
}

fn get_bool(values: &Vec<(usize, PeValue)>, id: ValueId) -> (r: Option<bool>)
    ensures
        r == match int_of(values@, id.0) { Some(v) => Some(v != 0), None => None },
        r == bound_bool(values_view(values@), id.0),
{
    proof { lemma_bound_value(values@, id.0); }
    match get_value(values, id) {
        Some(v) => v.as_bool(),
        None => None,
    }
}

/// Whether instruction `i` is the label `name`.
pub open spec fn is_label(instruction: Instruction, name: Seq<char>) -> bool {
    instruction matches Instruction::Label { name: n } && n@ == name
}

/// The position of the last label named `name` among the first `n` instructions.
pub open spec fn last_label(instructions: Seq<Instruction>, name: Seq<char>, n: nat) -> Option<int>
    decreases n,
{
    if n == 0 {
        None
    } else if is_label(instructions[n - 1], name) {
        Some(n - 1)
    } else {
        last_label(instructions, name, (n - 1) as nat)
    }
}

/// The position of the last label with the given name.
fn label_position(instructions: &Vec<Instruction>, label: &str) -> (r: Option<usize>)
    ensures
        r matches Some(p) ==> last_label(instructions@, label@, instructions@.len()) == Some(p as int),
        r is None ==> last_label(instructions@, label@, instructions@.len()) is None,
        r matches Some(p) ==> p < instructions@.len() && is_label(instructions@[p as int], label@)
            && forall|j: int| p < j < instructions@.len() ==> !is_label(#[trigger] instructions@[j], label@),
        r is None ==> forall|j: int| 0 <= j < instructions@.len() ==> !is_label(#[trigger] instructions@[j], label@),
{
    let mut i = instructions.len();
    while i > 0
        invariant
            i <= instructions@.len(),
            forall|j: int| i <= j < instructions@.len() ==> !is_label(#[trigger] instructions@[j], label@),
            last_label(instructions@, label@, instructions@.len()) == last_label(instructions@, label@, i as nat),
        decreases i,
    {
        i = i - 1;
        if let Instruction::Label { name } = &instructions[i] {
            if str_eq(name.as_str(), label) {
                return Some(i);
            }
        }
    }
    None
}

/// The integer result of an arithmetic or bitwise instruction, or `None` where an operand
/// is missing or not an integer, or the operation has no 64-bit result.
fn eval_arithmetic(values: &Vec<(usize, PeValue)>, op: BinaryOp, left: ValueId, right: ValueId) -> (r: Option<i64>)
    ensures
        r == match (int_of(values@, left.0), int_of(values@, right.0)) {
            (Some(l), Some(r)) => crate::lower::fold_binary_spec(op, l, r),
            _ => None,
        },
        r == bound_arith(values_view(values@), op, left, right),
{
    proof {
        lemma_bound_value(values@, left.0);
        lemma_bound_value(values@, right.0);
    }
    let l = match get_int(values, left) { Some(v) => v, None => { return None; } };
    let r = match get_int(values, right) { Some(v) => v, None => { return None; } };
    crate::lower::fold_binary(op, l, r)
}

/// The last function before index `n` named `name`: of two functions with one name, the
/// later one is the one that runs.
pub open spec fn last_function(functions: Seq<IrFunction>, name: Seq<char>, n: nat) -> Option<IrFunction>
    decreases n,
{
    if n == 0 || n > functions.len() {
        None
    } else if functions[n - 1].name@ == name {
        Some(functions[n - 1])
    } else {
        last_function(functions, name, (n - 1) as nat)
    }
}

/// What the evaluator sees of a value: strings and local references by their text.
pub enum ValueView {
    Int(i64),
    Text(Seq<char>),
    Ref(Seq<char>),
}

/// A value as the evaluator sees it.
pub open spec fn value_view(v: PeValue) -> ValueView {
    match v {
        PeValue::Int(i) => ValueView::Int(i),
        PeValue::String(s) => ValueView::Text(s@),
        PeValue::LocalRef(s) => ValueView::Ref(s@),
    }
}

/// The value bindings as the evaluator sees them.
pub open spec fn values_view(values: Seq<(usize, PeValue)>) -> Seq<(usize, ValueView)> {
    values.map_values(|e: (usize, PeValue)| (e.0, value_view(e.1)))
}

/// The local bindings as the evaluator sees them, each name as text.
pub open spec fn locals_view(locals: Seq<(String, PeValue)>) -> Seq<(Seq<char>, ValueView)> {
    locals.map_values(|e: (String, PeValue)| (e.0@, value_view(e.1)))
}

/// The printed output as text.
pub open spec fn output_view(output: Option<String>) -> Option<Seq<char>> {
    match output {
        Some(s) => Some(s@),
        None => None,
    }
}

/// The most recent binding of value `id`.
pub open spec fn bound_value(values: Seq<(usize, ValueView)>, id: usize) -> Option<ValueView>
    decreases values.len(),
{
    if values.len() == 0 {
        None
    } else if values.last().0 == id {
        Some(values.last().1)
    } else {
        bound_value(values.drop_last(), id)
    }
}

/// The most recent binding of local `name`.
pub open spec fn bound_local(locals: Seq<(Seq<char>, ValueView)>, name: Seq<char>) -> Option<ValueView>
    decreases locals.len(),
{
    if locals.len() == 0 {
        None
    } else if locals.last().0 == name {
        Some(locals.last().1)
    } else {
        bound_local(locals.drop_last(), name)
    }
}

proof fn lemma_bound_value(values: Seq<(usize, PeValue)>, id: usize)
    ensures
        bound_value(values_view(values), id) == match value_of(values, id) { Some(v) => Some(value_view(v)), None => None },
    decreases values.len(),
{
    if values.len() > 0 {
        assert(values_view(values).drop_last() =~= values_view(values.drop_last()));
        lemma_bound_value(values.drop_last(), id);
    }
}

proof fn lemma_bound_local(locals: Seq<(String, PeValue)>, name: Seq<char>)
    ensures
        bound_local(locals_view(locals), name) == match local_of(locals, name) { Some(v) => Some(value_view(v)), None => None },
    decreases locals.len(),
{
    if locals.len() > 0 {
        assert(locals_view(locals).drop_last() =~= locals_view(locals.drop_last()));
        lemma_bound_local(locals.drop_last(), name);
    }
}

proof fn lemma_push_value(values: Seq<(usize, PeValue)>, x: (usize, PeValue))
    ensures
        values_view(values.push(x)) == values_view(values).push((x.0, value_view(x.1))),
{
    assert(values_view(values.push(x)) =~= values_view(values).push((x.0, value_view(x.1))));
}

proof fn lemma_push_local(locals: Seq<(String, PeValue)>, x: (String, PeValue))
    ensures
        locals_view(locals.push(x)) == locals_view(locals).push((x.0@, value_view(x.1))),
{
    assert(locals_view(locals.push(x)) =~= locals_view(locals).push((x.0@, value_view(x.1))));
}

/// Binds value `id` to `v`.
fn push_value(values: &mut Vec<(usize, PeValue)>, id: usize, v: PeValue)
    ensures
        final(values)@ == old(values)@.push((id, v)),
        values_view(final(values)@) == values_view(old(values)@).push((id, value_view(v))),
{
    let ghost before = values@;
    values.push((id, v));
    proof { lemma_push_value(before, (id, v)); }
}

/// Binds local `name` to `v`.
fn push_local(locals: &mut Vec<(String, PeValue)>, name: String, v: PeValue)
    ensures
        final(locals)@ == old(locals)@.push((name, v)),
        locals_view(final(locals)@) == locals_view(old(locals)@).push((name@, value_view(v))),
{
    let ghost before = locals@;
    locals.push((name, v));
    proof { lemma_push_local(before, (name, v)); }
}

/// The integer bound to value `id`, if it is one.
pub open spec fn bound_int(values: Seq<(usize, ValueView)>, id: usize) -> Option<i64> {
    match bound_value(values, id) {
        Some(ValueView::Int(v)) => Some(v),
        _ => None,
    }
}

/// The truth of the integer bound to value `id`, if it is one.
pub open spec fn bound_bool(values: Seq<(usize, ValueView)>, id: usize) -> Option<bool> {
    match bound_int(values, id) {
        Some(v) => Some(v != 0),
        None => None,
    }
}

/// An arithmetic or bitwise operation on two bound integers.
pub open spec fn bound_arith(values: Seq<(usize, ValueView)>, op: BinaryOp, left: ValueId, right: ValueId) -> Option<i64> {
    match (bound_int(values, left.0), bound_int(values, right.0)) {
        (Some(l), Some(r)) => crate::lower::fold_binary_spec(op, l, r),
        _ => None,
    }
}

/// The values bound to the argument ids from index `k` on, or `None` if one is unbound.
pub open spec fn bound_args(values: Seq<(usize, ValueView)>, ids: Seq<ValueId>, k: nat) -> Option<Seq<ValueView>>
    decreases ids.len() - k,
{
    if k >= ids.len() {
        Some(seq![])
    } else {
        match bound_value(values, ids[k as int].0) {
            Some(v) => match bound_args(values, ids, k + 1) {
                Some(rest) => Some(seq![v] + rest),
                None => None,
            },
            None => None,
        }
    }
}

/// The locals a call starts with: each parameter bound to its argument.
pub open spec fn bind_params(params: Seq<String>, args: Seq<ValueView>) -> Seq<(Seq<char>, ValueView)> {
    Seq::new(params.len(), |k: int| (params[k]@, args[k]))
}

/// Output after printing `text`, with a line break where asked.
pub open spec fn printed(output: Option<Seq<char>>, text: Seq<char>, newline: bool) -> Option<Seq<char>> {
    Some(match output { Some(b) => b, None => seq![] } + text + if newline { seq!['\n'] } else { seq![] })
}

/// Running function `name` on `args` from `steps` steps taken and output `output`: the
/// result (`None` where evaluation fails), the steps taken and the output afterwards.
pub open spec fn run_function(program: IrProgram, name: Seq<char>, args: Seq<ValueView>, steps: nat, output: Option<Seq<char>>)
    -> (Option<ValueView>, nat, Option<Seq<char>>)
    decreases MAX_PE_EVAL_STEPS - steps, 2int,
{
    if steps > MAX_PE_EVAL_STEPS {
        (None, steps, output)
    } else {
        match last_function(program.functions@, name, program.functions@.len()) {
            None => (None, steps, output),
            Some(f) => if f.params@.len() != args.len() {
                (None, steps, output)
            } else {
                run_from(program, f.instructions@, seq![], bind_params(f.params@, args), 0, steps, output)
            },
        }
    }
}

/// Running the instructions from `pc` on: each instruction costs a step; past the end the
/// result is zero.
pub open spec fn run_from(program: IrProgram, ins: Seq<Instruction>, values: Seq<(usize, ValueView)>,
    locals: Seq<(Seq<char>, ValueView)>, pc: int, steps: nat, output: Option<Seq<char>>)
    -> (Option<ValueView>, nat, Option<Seq<char>>)
    decreases MAX_PE_EVAL_STEPS - steps, 1int,
{
    if pc < 0 || pc >= ins.len() {
        (Some(ValueView::Int(0)), steps, output)
    } else if steps >= MAX_PE_EVAL_STEPS {
        (None, steps, output)
    } else {
        let s = (steps + 1) as nat;
        let fail = (None, s, output);
        match arith_op(ins[pc]) {
            Some((op, dst, left, right)) => match bound_arith(values, op, left, right) {
                Some(v) => run_from(program, ins, values.push((dst.0, ValueView::Int(v))), locals, pc + 1, s, output),
                None => fail,
            },
            None => run_other(program, ins, values, locals, pc, s, output),
        }
    }
}

/// The instructions other than arithmetic, after their step is counted.
pub open spec fn run_other(program: IrProgram, ins: Seq<Instruction>, values: Seq<(usize, ValueView)>,
    locals: Seq<(Seq<char>, ValueView)>, pc: int, s: nat, output: Option<Seq<char>>)
    -> (Option<ValueView>, nat, Option<Seq<char>>)
    decreases MAX_PE_EVAL_STEPS + 1 - s, 0int,
{
    if pc < 0 || pc >= ins.len() || s > MAX_PE_EVAL_STEPS || s == 0 {
        (None, s, output)
    } else {
        let fail = (None, s, output);
        match ins[pc] {
            Instruction::Const { dst, value } =>
                run_from(program, ins, values.push((dst.0, ValueView::Int(value))), locals, pc + 1, s, output),
            Instruction::StringConst { dst, value, .. } =>
                run_from(program, ins, values.push((dst.0, ValueView::Text(value@))), locals, pc + 1, s, output),
            Instruction::And { dst, left, right } => match bound_bool(values, left.0) {
                Some(l) => if l {
                    match bound_bool(values, right.0) {
                        Some(b) => run_from(program, ins, values.push((dst.0, ValueView::Int(if b { 1 } else { 0 }))), locals, pc + 1, s, output),
                        None => fail,
                    }
                } else {
                    run_from(program, ins, values.push((dst.0, ValueView::Int(0))), locals, pc + 1, s, output)
                },
                None => fail,
            },
            Instruction::Or { dst, left, right } => match bound_bool(values, left.0) {
                Some(l) => if l {
                    run_from(program, ins, values.push((dst.0, ValueView::Int(1))), locals, pc + 1, s, output)
                } else {
                    match bound_bool(values, right.0) {
                        Some(b) => run_from(program, ins, values.push((dst.0, ValueView::Int(if b { 1 } else { 0 }))), locals, pc + 1, s, output),
                        None => fail,
                    }
                },
                None => fail,
            },
            Instruction::BitNot { dst, value } => match bound_int(values, value.0) {
                Some(v) => run_from(program, ins, values.push((dst.0, ValueView::Int((-v - 1) as i64))), locals, pc + 1, s, output),
                None => fail,
            },
            Instruction::Cmp { dst, op, left, right } => match (bound_int(values, left.0), bound_int(values, right.0)) {
                (Some(l), Some(r)) => run_from(program, ins,
                    values.push((dst.0, ValueView::Int(if compare_spec(op, l, r) { 1 } else { 0 }))), locals, pc + 1, s, output),
                _ => fail,
            },
            Instruction::Store { local, value } => match bound_value(values, value.0) {
                Some(v) => run_from(program, ins, values, locals.push((local@, v)), pc + 1, s, output),
                None => fail,
            },
            Instruction::Load { dst, local } => match bound_local(locals, local@) {
                Some(v) => run_from(program, ins, values.push((dst.0, v)), locals, pc + 1, s, output),
                None => fail,
            },
            Instruction::AddressOf { dst, local } => if bound_local(locals, local@) is None {
                fail
            } else {
                run_from(program, ins, values.push((dst.0, ValueView::Ref(local@))), locals, pc + 1, s, output)
            },
            Instruction::Deref { dst, pointer, .. } => match bound_value(values, pointer.0) {
                Some(ValueView::Ref(t)) => match bound_local(locals, t) {
                    Some(v) => run_from(program, ins, values.push((dst.0, v)), locals, pc + 1, s, output),
                    None => fail,
                },
                _ => fail,
            },
            Instruction::StoreDeref { pointer, value, .. } => match bound_value(values, pointer.0) {
                Some(ValueView::Ref(t)) => match bound_value(values, value.0) {
                    Some(v) => run_from(program, ins, values, locals.push((t, v)), pc + 1, s, output),
                    None => fail,
                },
                _ => fail,
            },
            Instruction::Jump { label } => match last_label(ins, label@, ins.len()) {
                Some(p) => run_from(program, ins, values, locals, p, s, output),
                None => fail,
            },
            Instruction::JumpIfZero { value, label } => match bound_int(values, value.0) {
                Some(v) => if v == 0 {
                    match last_label(ins, label@, ins.len()) {
                        Some(p) => run_from(program, ins, values, locals, p, s, output),
                        None => fail,
                    }
                } else {
                    run_from(program, ins, values, locals, pc + 1, s, output)
                },
                None => fail,
            },
            Instruction::Label { .. } => run_from(program, ins, values, locals, pc + 1, s, output),
            Instruction::Call { dst, function, args } => if function@ == "print"@ || function@ == "println"@ {
                if args@.len() == 0 {
                    fail
                } else {
                    match bound_value(values, args@[0].0) {
                        Some(ValueView::Text(t)) => run_from(program, ins, values.push((dst.0, ValueView::Int(0))), locals, pc + 1, s,
                            printed(output, t, function@ == "println"@)),
                        _ => (None, s, printed(output, seq![], false)),
                    }
                }
            } else if function@ == "string_concat"@ {
                if args@.len() != 2 {
                    fail
                } else {
                    match (bound_value(values, args@[0].0), bound_value(values, args@[1].0)) {
                        (Some(ValueView::Text(l)), Some(ValueView::Text(r))) =>
                            run_from(program, ins, values.push((dst.0, ValueView::Text(l + r))), locals, pc + 1, s, output),
                        _ => fail,
                    }
                }
            } else {
                match bound_args(values, args@, 0) {
                    Some(call_args) => {
                        let (result, s2, output2) = run_function(program, function@, call_args, s, output);
                        match result {
                            Some(v) => if s < s2 + 1 && s2 <= MAX_PE_EVAL_STEPS {
                                run_from(program, ins, values.push((dst.0, v)), locals, pc + 1, s2, output2)
                            } else {
                                (None, s2, output2)
                            },
                            None => (None, s2, output2),
                        }
                    },
                    None => fail,
                }
            },
            Instruction::Return { value } => (bound_value(values, value.0), s, output),
            _ => fail,
        }
    }
}

/// The operator and operands of an arithmetic or bitwise instruction.
pub open spec fn arith_op(instruction: Instruction) -> Option<(BinaryOp, ValueId, ValueId, ValueId)> {
    match instruction {
        Instruction::BitAnd { dst, left, right } => Some((BinaryOp::BitAnd, dst, left, right)),
        Instruction::BitOr { dst, left, right } => Some((BinaryOp::BitOr, dst, left, right)),
        Instruction::BitXor { dst, left, right } => Some((BinaryOp::BitXor, dst, left, right)),
        Instruction::ShiftLeft { dst, left, right } => Some((BinaryOp::ShiftLeft, dst, left, right)),
        Instruction::ShiftRight { dst, left, right } => Some((BinaryOp::ShiftRight, dst, left, right)),
        Instruction::Add { dst, left, right } => Some((BinaryOp::Add, dst, left, right)),
        Instruction::Sub { dst, left, right } => Some((BinaryOp::Sub, dst, left, right)),
        Instruction::Mul { dst, left, right } => Some((BinaryOp::Mul, dst, left, right)),
        Instruction::Div { dst, left, right } => Some((BinaryOp::Div, dst, left, right)),
        Instruction::Rem { dst, left, right } => Some((BinaryOp::Rem, dst, left, right)),
        _ => None,
    }
}

/// An interpreter for IR programs that only compute and print, whose result the PE writer
/// can bake into an image.
pub struct PeEvaluator<'a> {
    pub program: &'a IrProgram,
    pub output: Option<String>,
    pub steps: usize,
}

/// What printing keeps: text already printed stays printed.
pub open spec fn output_extends(before: Option<String>, after: Option<String>) -> bool {
    match before {
        Some(b) => after matches Some(a) && b@.is_prefix_of(a@),
        None => true,
    }
}

impl<'a> PeEvaluator<'a> {
    pub fn new(program: &'a IrProgram) -> (e: PeEvaluator<'a>)
        ensures
            e.program == program,
            e.output is None,
            e.steps == 0,
    {
        PeEvaluator { program, output: None, steps: 0 }
    }

    fn find_function(&self, name: &str) -> (r: Option<&'a IrFunction>)
        ensures
            match last_function(self.program.functions@, name@, self.program.functions@.len()) {
                Some(f) => r matches Some(g) && *g == f,
                None => r is None,
            },
    {
        let program: &'a IrProgram = self.program;
        let mut i: usize = program.functions.len();
        while i > 0
            invariant
                i <= program.functions@.len(),
                program == self.program,
                last_function(program.functions@, name@, program.functions@.len()) == last_function(program.functions@, name@, i as nat),
            decreases i,
        {
            if str_eq(program.functions[i - 1].name.as_str(), name) {
                return Some(&program.functions[i - 1]);
            }
            i = i - 1;
        }
        None
    }

    fn print(&mut self, text: &str, newline: bool)
        ensures
            final(self).steps == old(self).steps,
            final(self).program == old(self).program,
            output_extends(old(self).output, final(self).output),
            final(self).output matches Some(o) && o@ == (match old(self).output { Some(b) => b@, None => seq![] })
                + text@ + if newline { seq!['\n'] } else { seq![] },
    {
        let mut out = match self.output.take() {
            Some(o) => o,
            None => String::new(),
        };
        let ghost before = out@;
        out.append(text);
        if newline {
            out.append("\n");
        }
        proof {
            reveal_strlit("\n");
            assert(before.is_prefix_of(out@));
        }
        self.output = Some(out);
    }

    /// Runs the named function on the given arguments. Evaluation fails (`None`) on an
    /// unknown function, a wrong number of arguments, an unbound value or local, a value of
    /// the wrong kind, division by zero, arithmetic without a 64-bit result, an instruction
    /// the evaluator does not model, or once the step budget is spent. Falling off the end
    /// returns zero.
    #[verifier::spinoff_prover]
    #[verifier::rlimit(100)]
    pub fn eval_function(&mut self, name: &str, args: Vec<PeValue>) -> (r: Option<PeValue>)
        requires
            old(self).steps <= MAX_PE_EVAL_STEPS,
        ensures
            old(self).steps <= final(self).steps <= MAX_PE_EVAL_STEPS,
            final(self).program == old(self).program,
            output_extends(old(self).output, final(self).output),
            (match r { Some(v) => Some(value_view(v)), None => None }, final(self).steps as nat, output_view(final(self).output))
                == run_function(*old(self).program, name@, args@.map_values(|v: PeValue| value_view(v)),
                    old(self).steps as nat, output_view(old(self).output)),
        decreases MAX_PE_EVAL_STEPS - old(self).steps,
    {
        let function = match self.find_function(name) {
            Some(f) => f,
            None => { return None; },
        };
        if function.params.len() != args.len() {
            return None;
        }
        let mut values: Vec<(usize, PeValue)> = Vec::new();
        let mut locals: Vec<(String, PeValue)> = Vec::new();
        let ghost arg_views = args@.map_values(|v: PeValue| value_view(v));
        let mut p: usize = 0;
        while p < args.len()
            invariant
                p <= args@.len(),
                args@.len() == function.params@.len(),
                arg_views == args@.map_values(|v: PeValue| value_view(v)),
                locals_view(locals@) == bind_params(function.params@.take(p as int), arg_views),
            decreases args@.len() - p,
        {
            let ghost before = locals@;
            locals.push((function.params[p].clone(), args[p].copy()));
            proof {
                assert(locals_view(locals@) =~= locals_view(before).push((function.params@[p as int]@, arg_views[p as int])));
                assert(bind_params(function.params@.take(p + 1), arg_views)
                    =~= bind_params(function.params@.take(p as int), arg_views).push((function.params@[p as int]@, arg_views[p as int])));
            }
            p = p + 1;
        }
        proof {
            assert(function.params@.take(p as int) =~= function.params@);
            assert(values_view(values@) =~= seq![]);
        }
        let instructions = &function.instructions;
        let mut pc: usize = 0;
        let ghost start_output = self.output;
        let ghost start_steps = self.steps;
        let ghost goal = run_function(*old(self).program, name@, arg_views, old(self).steps as nat, output_view(old(self).output));
        while pc < instructions.len()
            invariant
                start_steps <= self.steps <= MAX_PE_EVAL_STEPS,
                self.program == old(self).program,
                output_extends(start_output, self.output),
                start_output == old(self).output,
                start_steps == old(self).steps,
                arg_views == args@.map_values(|v: PeValue| value_view(v)),
                instructions@ == function.instructions@,
                goal == run_function(*old(self).program, name@, arg_views, old(self).steps as nat, output_view(old(self).output)),
                goal == run_from(*self.program, instructions@, values_view(values@), locals_view(locals@), pc as int,
                    self.steps as nat, output_view(self.output)),
            decreases MAX_PE_EVAL_STEPS - self.steps,
        {
            proof {
                reveal_with_fuel(run_from, 2);
                reveal_with_fuel(run_other, 2);
            }
            if self.steps >= MAX_PE_EVAL_STEPS {
                return None;
            }
            let ghost vals0 = values@;
            let ghost locs0 = locals@;
            let ghost vv = values_view(values@);
            let ghost lv = locals_view(locals@);
            let ghost old_steps = self.steps;
            self.steps = self.steps + 1;
            let ghost before_output = self.output;
            match &instructions[pc] {
                Instruction::Const { dst, value } => {
                    push_value(&mut values, dst.0, PeValue::Int(*value));
                },
                Instruction::StringConst { dst, value, .. } => {
                    push_value(&mut values, dst.0, PeValue::String(value.clone()));
                },
                Instruction::And { dst, left, right } => {
                    let l = match get_bool(&values, *left) { Some(b) => b, None => { return None; } };
                    let v = if l {
                        match get_bool(&values, *right) { Some(b) => b, None => { return None; } }
                    } else {
                        false
                    };
                    push_value(&mut values, dst.0, int_value(v));
                },
                Instruction::Or { dst, left, right } => {
                    let l = match get_bool(&values, *left) { Some(b) => b, None => { return None; } };
                    let v = if l {
                        true
                    } else {
                        match get_bool(&values, *right) { Some(b) => b, None => { return None; } }
                    };
                    push_value(&mut values, dst.0, int_value(v));
                },
                Instruction::BitAnd { dst, left, right } => {
                    match eval_arithmetic(&values, BinaryOp::BitAnd, *left, *right) {
                        Some(v) => push_value(&mut values, dst.0, PeValue::Int(v)),
                        None => { return None; },
                    }
                },
                Instruction::BitOr { dst, left, right } => {
                    match eval_arithmetic(&values, BinaryOp::BitOr, *left, *right) {
                        Some(v) => push_value(&mut values, dst.0, PeValue::Int(v)),
                        None => { return None; },
                    }
                },
                Instruction::BitXor { dst, left, right } => {
                    match eval_arithmetic(&values, BinaryOp::BitXor, *left, *right) {
                        Some(v) => push_value(&mut values, dst.0, PeValue::Int(v)),
                        None => { return None; },
                    }
                },
                Instruction::BitNot { dst, value } => {
                    match get_int(&values, *value) {
                        Some(v) => {
                            let flipped: i64 = !v;
                            assert(flipped == -v - 1) by (bit_vector)
                                requires
                                    flipped == !v;
                            push_value(&mut values, dst.0, PeValue::Int(flipped));
                        },
                        None => { return None; },
                    }
                },
                Instruction::ShiftLeft { dst, left, right } => {
                    match eval_arithmetic(&values, BinaryOp::ShiftLeft, *left, *right) {
                        Some(v) => push_value(&mut values, dst.0, PeValue::Int(v)),
                        None => { return None; },
                    }
                },
                Instruction::ShiftRight { dst, left, right } => {
                    match eval_arithmetic(&values, BinaryOp::ShiftRight, *left, *right) {
                        Some(v) => push_value(&mut values, dst.0, PeValue::Int(v)),
                        None => { return None; },
                    }
                },
                Instruction::Add { dst, left, right } => {
                    match eval_arithmetic(&values, BinaryOp::Add, *left, *right) {
                        Some(v) => push_value(&mut values, dst.0, PeValue::Int(v)),
                        None => { return None; },
                    }
                },
                Instruction::Sub { dst, left, right } => {
                    match eval_arithmetic(&values, BinaryOp::Sub, *left, *right) {
                        Some(v) => push_value(&mut values, dst.0, PeValue::Int(v)),
                        None => { return None; },
                    }
                },
                Instruction::Mul { dst, left, right } => {
                    match eval_arithmetic(&values, BinaryOp::Mul, *left, *right) {
                        Some(v) => push_value(&mut values, dst.0, PeValue::Int(v)),
                        None => { return None; },
                    }
                },
                Instruction::Div { dst, left, right } => {
                    let divisor = match get_int(&values, *right) { Some(v) => v, None => { return None; } };
                    if divisor == 0 {
                        return None;
                    }
                    match eval_arithmetic(&values, BinaryOp::Div, *left, *right) {
                        Some(v) => push_value(&mut values, dst.0, PeValue::Int(v)),
                        None => { return None; },
                    }
                },
                Instruction::Rem { dst, left, right } => {
                    let divisor = match get_int(&values, *right) { Some(v) => v, None => { return None; } };
                    if divisor == 0 {
                        return None;
                    }
                    match eval_arithmetic(&values, BinaryOp::Rem, *left, *right) {
                        Some(v) => push_value(&mut values, dst.0, PeValue::Int(v)),
                        None => { return None; },
                    }
                },
                Instruction::Cmp { dst, op, left, right } => {
                    let l = match get_int(&values, *left) { Some(v) => v, None => { return None; } };
                    let r = match get_int(&values, *right) { Some(v) => v, None => { return None; } };
                    push_value(&mut values, dst.0, int_value(eval_compare(*op, l, r)));
                },
                Instruction::Store { local, value } => {
                    let v = match get_value(&values, *value) { Some(v) => v.copy(), None => { return None; } };
                    push_local(&mut locals, local.clone(), v);
                   
                },
                Instruction::Load { dst, local } => {
                    let v = match get_local(&locals, local.as_str()) { Some(v) => v.copy(), None => { return None; } };
                    push_value(&mut values, dst.0, v);
                },
                Instruction::AddressOf { dst, local } => {
                    if get_local(&locals, local.as_str()).is_none() {
                        return None;
                    }
                    push_value(&mut values, dst.0, PeValue::LocalRef(local.clone()));
                },
                Instruction::Deref { dst, pointer, .. } => {
                    let target = match get_value(&values, *pointer) {
                        Some(PeValue::LocalRef(l)) => l.clone(),
                        _ => { return None; },
                    };
                    let v = match get_local(&locals, target.as_str()) { Some(v) => v.copy(), None => { return None; } };
                    push_value(&mut values, dst.0, v);
                },
                Instruction::StoreDeref { pointer, value, .. } => {
                    let target = match get_value(&values, *pointer) {
                        Some(PeValue::LocalRef(l)) => l.clone(),
                        _ => { return None; },
                    };
                    let v = match get_value(&values, *value) { Some(v) => v.copy(), None => { return None; } };
                    push_local(&mut locals, target, v);
                   
                },
                Instruction::Jump { label } => {
                    match label_position(instructions, label.as_str()) {
                        Some(p) => { pc = p; continue; },
                        None => { return None; },
                    }
                },
                Instruction::JumpIfZero { value, label } => {
                    let v = match get_int(&values, *value) { Some(v) => v, None => { return None; } };
                    if v == 0 {
                        match label_position(instructions, label.as_str()) {
                            Some(p) => { pc = p; continue; },
                            None => { return None; },
                        }
                    }
                   
                },
                Instruction::Label { .. } => { },
                Instruction::Call { dst, function, args: call_ids } => {
                    proof {
                        reveal_strlit("print");
                        reveal_strlit("println");
                        reveal_strlit("string_concat");
                    }
                    let is_print = str_eq(function.as_str(), "print");
                    let is_println = str_eq(function.as_str(), "println");
                    if is_print || is_println {
                        if call_ids.len() == 0 {
                            return None;
                        }
                        let text = match get_value(&values, call_ids[0]) {
                            Some(PeValue::String(s)) => s.clone(),
                            _ => {
                                // The output is started before the argument is read.
                                self.print("", false);
                                proof {
                                    reveal_strlit("");
                                    assert(""@ =~= Seq::<char>::empty());
                                }
                                return None;
                            },
                        };
                        self.print(text.as_str(), is_println);
                        push_value(&mut values, dst.0, PeValue::Int(0));
                    } else if str_eq(function.as_str(), "string_concat") {
                        if call_ids.len() != 2 {
                            return None;
                        }
                        let l = match get_value(&values, call_ids[0]) {
                            Some(PeValue::String(s)) => s.clone(),
                            _ => { return None; },
                        };
                        let r = match get_value(&values, call_ids[1]) {
                            Some(PeValue::String(s)) => s.clone(),
                            _ => { return None; },
                        };
                        let mut joined = l;
                        joined.append(r.as_str());
                        push_value(&mut values, dst.0, PeValue::String(joined));
                    } else {
                        let mut call_args: Vec<PeValue> = Vec::new();
                        let mut j: usize = 0;
                        proof {
                            match bound_args(vv, call_ids@, 0) {
                                Some(rest) => { assert(call_args@.map_values(|v: PeValue| value_view(v)) + rest =~= rest); },
                                None => {},
                            }
                        }
                        while j < call_ids.len()
                            invariant
                                j <= call_ids@.len(),
                                start_steps <= self.steps <= MAX_PE_EVAL_STEPS,
                                self.program == old(self).program,
                                output_extends(start_output, self.output),
                                start_output == old(self).output,
                                start_steps == old(self).steps,
                                self.steps == old_steps + 1,
                                self.output == before_output,
                                values@ == vals0,
                                locals@ == locs0,
                                vv == values_view(values@),
                                lv == locals_view(locals@),
                                pc < instructions@.len(),
                                instructions@[pc as int] == (Instruction::Call { dst: *dst, function: *function, args: *call_ids }),
                                function@ != "print"@ && function@ != "println"@ && function@ != "string_concat"@,
                                goal == run_function(*old(self).program, name@, arg_views, old(self).steps as nat, output_view(old(self).output)),
                                arg_views == args@.map_values(|v: PeValue| value_view(v)),
                                goal == run_from(*self.program, instructions@, vv, lv, pc as int, old_steps as nat, output_view(before_output)),
                                bound_args(vv, call_ids@, 0) == match bound_args(vv, call_ids@, j as nat) {
                                    Some(rest) => Some(call_args@.map_values(|v: PeValue| value_view(v)) + rest),
                                    None => None,
                                },
                            decreases call_ids@.len() - j,
                        {
                            let ghost cv0 = call_args@.map_values(|v: PeValue| value_view(v));
                            match get_value(&values, call_ids[j]) {
                                Some(v) => {
                                    call_args.push(v.copy());
                                    proof {
                                        assert(call_args@.map_values(|v: PeValue| value_view(v)) =~= cv0.push(value_view(*v)));
                                        match bound_args(vv, call_ids@, (j + 1) as nat) {
                                            Some(rest) => {
                                                assert(cv0 + (seq![value_view(*v)] + rest) =~= cv0.push(value_view(*v)) + rest);
                                            },
                                            None => {},
                                        }
                                    }
                                },
                                None => {
                                    proof {
                                        reveal_with_fuel(run_from, 2);
                                        reveal_with_fuel(run_other, 2);
                                    }
                                    return None;
                                },
                            }
                            j = j + 1;
                        }
                        proof {
                            assert(call_args@.map_values(|v: PeValue| value_view(v)) + seq![] =~= call_args@.map_values(|v: PeValue| value_view(v)));
                            reveal_with_fuel(run_from, 2);
                            reveal_with_fuel(run_other, 2);
                        }
                        let value = match self.eval_function(function.as_str(), call_args) {
                            Some(v) => v,
                            None => { return None; },
                        };
                        push_value(&mut values, dst.0, value);
                    }
                },
                Instruction::Return { value } => {
                    return match get_value(&values, *value) {
                        Some(v) => Some(v.copy()),
                        None => None,
                    };
                },
                _ => { return None; },
            }
            proof {
                assert(output_extends(before_output, self.output));
            }
            pc = pc + 1;
        }
        Some(PeValue::Int(0))
    }
}

/// The name of an import as the hint/name table spells it, with its terminating zero.
pub open spec fn import_name(i: Import) -> Seq<u8> {
    match i {
        Import::GetStdHandle => seq![0x47u8, 0x65, 0x74, 0x53, 0x74, 0x64, 0x48, 0x61, 0x6e, 0x64, 0x6c, 0x65, 0x00],
        Import::WriteFile => seq![0x57u8, 0x72, 0x69, 0x74, 0x65, 0x46, 0x69, 0x6c, 0x65, 0x00],
        Import::ExitProcess => seq![0x45u8, 0x78, 0x69, 0x74, 0x50, 0x72, 0x6f, 0x63, 0x65, 0x73, 0x73, 0x00],
        Import::VirtualAlloc => seq![0x56u8, 0x69, 0x72, 0x74, 0x75, 0x61, 0x6c, 0x41, 0x6c, 0x6c, 0x6f, 0x63, 0x00],
        Import::VirtualFree => seq![0x56u8, 0x69, 0x72, 0x74, 0x75, 0x61, 0x6c, 0x46, 0x72, 0x65, 0x65, 0x00],
        Import::CreateFile => seq![0x43u8, 0x72, 0x65, 0x61, 0x74, 0x65, 0x46, 0x69, 0x6c, 0x65, 0x41, 0x00],
        Import::GetFileSize => seq![0x47u8, 0x65, 0x74, 0x46, 0x69, 0x6c, 0x65, 0x53, 0x69, 0x7a, 0x65, 0x00],
        Import::ReadFile => seq![0x52u8, 0x65, 0x61, 0x64, 0x46, 0x69, 0x6c, 0x65, 0x00],
        Import::CloseHandle => seq![0x43u8, 0x6c, 0x6f, 0x73, 0x65, 0x48, 0x61, 0x6e, 0x64, 0x6c, 0x65, 0x00],
        Import::DeleteFile => seq![0x44u8, 0x65, 0x6c, 0x65, 0x74, 0x65, 0x46, 0x69, 0x6c, 0x65, 0x41, 0x00],
        Import::GetFileAttributes => seq![
            0x47u8, 0x65, 0x74, 0x46, 0x69, 0x6c, 0x65, 0x41, 0x74, 0x74, 0x72, 0x69, 0x62, 0x75, 0x74, 0x65, 0x73, 0x41, 0x00,
        ],
    }
}

/// `KERNEL32.dll` with its terminating zero.
pub open spec fn kernel32_name() -> Seq<u8> {
    seq![0x4bu8, 0x45, 0x52, 0x4e, 0x45, 0x4c, 0x33, 0x32, 0x2e, 0x64, 0x6c, 0x6c, 0x00]
}

fn import_name_bytes(i: Import) -> (r: &'static [u8])
    ensures
        r@ == import_name(i),
        r@.len() <= 19,
{
    let r: &'static [u8] = match i {
        Import::GetStdHandle => &[0x47, 0x65, 0x74, 0x53, 0x74, 0x64, 0x48, 0x61, 0x6e, 0x64, 0x6c, 0x65, 0x00],
        Import::WriteFile => &[0x57, 0x72, 0x69, 0x74, 0x65, 0x46, 0x69, 0x6c, 0x65, 0x00],
        Import::ExitProcess => &[0x45, 0x78, 0x69, 0x74, 0x50, 0x72, 0x6f, 0x63, 0x65, 0x73, 0x73, 0x00],
        Import::VirtualAlloc => &[0x56, 0x69, 0x72, 0x74, 0x75, 0x61, 0x6c, 0x41, 0x6c, 0x6c, 0x6f, 0x63, 0x00],
        Import::VirtualFree => &[0x56, 0x69, 0x72, 0x74, 0x75, 0x61, 0x6c, 0x46, 0x72, 0x65, 0x65, 0x00],
        Import::CreateFile => &[0x43, 0x72, 0x65, 0x61, 0x74, 0x65, 0x46, 0x69, 0x6c, 0x65, 0x41, 0x00],
        Import::GetFileSize => &[0x47, 0x65, 0x74, 0x46, 0x69, 0x6c, 0x65, 0x53, 0x69, 0x7a, 0x65, 0x00],
        Import::ReadFile => &[0x52, 0x65, 0x61, 0x64, 0x46, 0x69, 0x6c, 0x65, 0x00],
        Import::CloseHandle => &[0x43, 0x6c, 0x6f, 0x73, 0x65, 0x48, 0x61, 0x6e, 0x64, 0x6c, 0x65, 0x00],
        Import::DeleteFile => &[0x44, 0x65, 0x6c, 0x65, 0x74, 0x65, 0x46, 0x69, 0x6c, 0x65, 0x41, 0x00],
        Import::GetFileAttributes => &[
            0x47, 0x65, 0x74, 0x46, 0x69, 0x6c, 0x65, 0x41, 0x74, 0x74, 0x72, 0x69, 0x62, 0x75, 0x74, 0x65, 0x73, 0x41, 0x00,
        ],
    };
    assert(r@ =~= import_name(i));
    r
}

/// The imports of a layout, in table order.
#[verifier::spinoff_prover]
#[verifier::rlimit(40)]
fn import_list(l: &Layout) -> (r: Vec<Import>)
    ensures
        r@ == layout_imports(*l),
{
    let mut r: Vec<Import> = Vec::new();
    if l.has_console_io {
        r.push(Import::GetStdHandle);
        r.push(Import::WriteFile);
    }
    r.push(Import::ExitProcess);
    if l.has_virtual_alloc {
        r.push(Import::VirtualAlloc);
        r.push(Import::VirtualFree);
    }
    if l.has_file_read {
        r.push(Import::CreateFile);
        r.push(Import::GetFileSize);
        r.push(Import::ReadFile);
        r.push(Import::CloseHandle);
    } else if l.has_file_ops {
        r.push(Import::CreateFile);
        r.push(Import::CloseHandle);
    }
    if l.has_file_ops {
        r.push(Import::DeleteFile);
    }
    if l.has_file_metadata {
        r.push(Import::GetFileAttributes);
    }
    assert(r@ =~= layout_imports(*l));
    r
}

/// Where the hint/name entry of the `k`-th import starts: the first right after the DLL name
/// (at an even offset), each later one after its predecessor's hint and name, kept even.
pub open spec fn name_offset(imports: Seq<Import>, first: int, k: int) -> int
    decreases k,
{
    if k <= 0 {
        first
    } else {
        aligned(name_offset(imports, first, k - 1) + 2 + import_name(imports[k - 1]).len(), 2)
    }
}

/// The offset of the DLL name in the import section.
pub open spec fn dll_offset(l: Layout) -> int {
    40 + 2 * l.iat_size
}

/// The offset of the first hint/name entry.
pub open spec fn first_name_offset(l: Layout) -> int {
    aligned(dll_offset(l) + 13, 2)
}

/// What the import section holds: the descriptor's lookup table, name and address table
/// addresses; for each import, its hint/name entry and both table entries pointing at it;
/// and the DLL name.
/// The bytes of the import section that stay zero: the descriptor's time stamp and forwarder
/// chain, the null descriptor that ends the descriptor list, and the null entry that ends
/// each of the two tables.
pub open spec fn idata_gap(l: Layout, j: int) -> bool {
    ||| 4 <= j < 12
    ||| 20 <= j < 40
    ||| 40 + l.iat_size - 8 <= j < 40 + l.iat_size
    ||| 40 + 2 * l.iat_size - 8 <= j < 40 + 2 * l.iat_size
}

pub open spec fn idata_describes(l: Layout, data: Seq<u8>) -> bool {
    let imports = layout_imports(l);
    let dll = dll_offset(l);
    &&& data.len() == FILE_ALIGNMENT
    &&& data.subrange(0, 4) == crate::bytes::le32(l.idata_rva + 40)
    &&& data.subrange(12, 16) == crate::bytes::le32(l.idata_rva + dll)
    &&& data.subrange(16, 20) == crate::bytes::le32(l.idata_rva + 40 + l.iat_size)
    &&& data.subrange(dll, dll + 13) == kernel32_name()
    &&& forall|k: int| 0 <= k < imports.len()
        ==> #[trigger] entry_holds(data, l.idata_rva as int, 40, 40 + l.iat_size, imports, first_name_offset(l), k)
    &&& forall|j: int| idata_gap(l, j) ==> #[trigger] data[j] == 0
}

proof fn lemma_splice_keeps(s: Seq<u8>, off: int, b: Seq<u8>, x: int, y: int)
    requires
        0 <= off,
        off + b.len() <= s.len(),
        0 <= x <= y <= s.len(),
        y <= off || off + b.len() <= x,
    ensures
        crate::bytes::splice(s, off, b).subrange(x, y) == s.subrange(x, y),
{
    assert(crate::bytes::splice(s, off, b).subrange(x, y) =~= s.subrange(x, y));
}

proof fn lemma_name_offsets_grow(imports: Seq<Import>, first: int, j: int, k: int)
    requires
        0 <= j < k <= imports.len(),
    ensures
        name_offset(imports, first, k) >= name_offset(imports, first, j) + 2 + import_name(imports[j]).len(),
    decreases k - j,
{
    if k > j + 1 {
        lemma_name_offsets_grow(imports, first, j, k - 1);
    }
}

proof fn lemma_name_offsets_bounded(imports: Seq<Import>, first: int, k: int)
    requires
        0 <= k <= imports.len(),
    ensures
        first <= name_offset(imports, first, k) <= first + 22 * k,
    decreases k,
{
    if k > 0 {
        lemma_name_offsets_bounded(imports, first, k - 1);
        assert(import_name(imports[k - 1]).len() <= 19);
    }
}

/// The `j`-th import's two table entries point at its hint/name entry, which holds a zero
/// hint and the import's name.
pub open spec fn entry_holds(data: Seq<u8>, idata_rva: int, oft: int, ft: int, imports: Seq<Import>, first: int, j: int) -> bool {
    let off = name_offset(imports, first, j);
    let name = import_name(imports[j]);
    &&& data.subrange(oft + 8 * j, oft + 8 * j + 8) == crate::bytes::le64(idata_rva + off)
    &&& data.subrange(ft + 8 * j, ft + 8 * j + 8) == crate::bytes::le64(idata_rva + off)
    &&& data.subrange(off, off + 2) == seq![0u8, 0u8]
    &&& data.subrange(off + 2, off + 2 + name.len()) == name
}

/// Writing one import's entries keeps every earlier import's entries.
#[verifier::spinoff_prover]
proof fn lemma_entry_kept(
    before: Seq<u8>,
    m1: Seq<u8>,
    m2: Seq<u8>,
    after: Seq<u8>,
    idata_rva: int,
    imports: Seq<Import>,
    first: int,
    k: int,
    j: int,
    t1: int,
    t2: int,
)
    requires
        0 <= j < k < imports.len() <= 11,
        t1 == 40 + 8 * k,
        t2 == 40 + (imports.len() + 1) * 8 + 8 * k,
        first >= 40 + 2 * (imports.len() + 1) * 8 + 13,
        first + 22 * imports.len() + 22 <= before.len(),
        entry_holds(before, idata_rva, 40, 40 + (imports.len() + 1) * 8 as int, imports, first, j),
        same_outside(m1, before, t1, t1 + 8),
        same_outside(m2, m1, t2, t2 + 8),
        same_outside(after, m2, name_offset(imports, first, k), name_offset(imports, first, k) + 2 + import_name(imports[k]).len()),
    ensures
        entry_holds(after, idata_rva, 40, 40 + (imports.len() + 1) * 8 as int, imports, first, j),
{
    let ft = 40 + (imports.len() + 1) * 8;
    let off = name_offset(imports, first, k);
    let len = import_name(imports[k]).len() as int;
    let o = name_offset(imports, first, j);
    let nm = import_name(imports[j]);
    lemma_name_offsets_grow(imports, first, j, k);
    lemma_name_offsets_bounded(imports, first, j);
    lemma_name_offsets_bounded(imports, first, k);
    let ranges = seq![(40 + 8 * j, 40 + 8 * j + 8), (ft + 8 * j, ft + 8 * j + 8), (o, o + 2), (o + 2, o + 2 + nm.len())];
    assert forall|r: int| 0 <= r < 4 implies after.subrange(ranges[r].0, ranges[r].1) == before.subrange(ranges[r].0, ranges[r].1) by {
        lemma_range_kept(m1, before, t1, t1 + 8, ranges[r].0, ranges[r].1);
        lemma_range_kept(m2, m1, t2, t2 + 8, ranges[r].0, ranges[r].1);
        lemma_range_kept(after, m2, off, off + 2 + len, ranges[r].0, ranges[r].1);
    }
    assert(after.subrange(ranges[0].0, ranges[0].1) == before.subrange(ranges[0].0, ranges[0].1));
    assert(after.subrange(ranges[1].0, ranges[1].1) == before.subrange(ranges[1].0, ranges[1].1));
    assert(after.subrange(ranges[2].0, ranges[2].1) == before.subrange(ranges[2].0, ranges[2].1));
    assert(after.subrange(ranges[3].0, ranges[3].1) == before.subrange(ranges[3].0, ranges[3].1));
}

#[verifier::spinoff_prover]
#[verifier::rlimit(50)]
proof fn lemma_idata_done(l: Layout, before: Seq<u8>, after: Seq<u8>)
    requires
        slots_follow_imports(l),
        layout_imports(l).len() <= 11,
        l.idata_rva == 0x3000,
        before.len() == 0x200,
        before.subrange(0, 4) == crate::bytes::le32(l.idata_rva + 40),
        before.subrange(12, 16) == crate::bytes::le32(l.idata_rva + dll_offset(l)),
        before.subrange(16, 20) == crate::bytes::le32(l.idata_rva + 40 + l.iat_size),
        forall|j: int| 0 <= j < layout_imports(l).len() ==>
            #[trigger] entry_holds(before, l.idata_rva as int, 40, 40 + l.iat_size, layout_imports(l), first_name_offset(l), j),
        after == crate::bytes::splice(before, dll_offset(l), kernel32_name()),
        forall|j: int| idata_gap(l, j) ==> #[trigger] before[j] == 0,
    ensures
        idata_describes(l, after),
{
    let imports = layout_imports(l);
    let dll = dll_offset(l);
    let first = first_name_offset(l);
    let ft = 40 + l.iat_size;
    lemma_splice_same_outside(before, dll, kernel32_name());
    lemma_range_kept(after, before, dll, dll + 13, 0, 4);
    lemma_range_kept(after, before, dll, dll + 13, 12, 16);
    lemma_range_kept(after, before, dll, dll + 13, 16, 20);
    assert forall|j: int| 0 <= j < imports.len() implies
        #[trigger] entry_holds(after, l.idata_rva as int, 40, ft, imports, first, j) by {
        let o = name_offset(imports, first, j);
        let nm = import_name(imports[j]);
        lemma_name_offsets_bounded(imports, first, j);
        assert(entry_holds(before, l.idata_rva as int, 40, ft, imports, first, j));
        lemma_range_kept(after, before, dll, dll + 13, 40 + 8 * j, 40 + 8 * j + 8);
        lemma_range_kept(after, before, dll, dll + 13, ft + 8 * j, ft + 8 * j + 8);
        lemma_range_kept(after, before, dll, dll + 13, o, o + 2);
        lemma_range_kept(after, before, dll, dll + 13, o + 2, o + 2 + nm.len());
    }
    assert forall|j: int| idata_gap(l, j) implies #[trigger] after[j] == 0 by {
        assert(j < dll);
    }
}

/// Builds the import section: one descriptor for `KERNEL32.dll`, its lookup and address
/// tables, and a hint/name entry for every import, in table order.
#[verifier::spinoff_prover]
#[verifier::rlimit(100)]
pub fn build_idata(layout: &Layout) -> (data: Vec<u8>)
    requires
        slots_follow_imports(*layout),
        layout.idata_rva == 0x3000,
    ensures
        idata_describes(*layout, data@),
{
    let ghost imports = layout_imports(*layout);
    let list = import_list(layout);
    let mut data: Vec<u8> = vec![0u8; 0x200];
    let oft: u32 = 40;
    let ft = oft + layout.iat_size;
    let dll = ft + layout.iat_size;
    let first_name = align_to(dll + 13, 2);
    let ghost d0 = data@;
    crate::bytes::write_u32(&mut data, 0, layout.idata_rva + oft);
    let ghost h1 = data@;
    crate::bytes::write_u32(&mut data, 12, layout.idata_rva + dll);
    let ghost h2 = data@;
    crate::bytes::write_u32(&mut data, 16, layout.idata_rva + ft);
    proof {
        assert(imports.len() <= 11);
        lemma_splice_same_outside(d0, 0, crate::bytes::le32(layout.idata_rva + oft));
        lemma_splice_same_outside(h1, 12, crate::bytes::le32(layout.idata_rva + dll));
        lemma_splice_same_outside(h2, 16, crate::bytes::le32(layout.idata_rva + ft));
        lemma_range_kept(data@, h2, 16, 20, 0, 4);
        lemma_range_kept(h2, h1, 12, 16, 0, 4);
        lemma_range_kept(data@, h2, 16, 20, 12, 16);
        assert forall|j: int| idata_gap(*layout, j) implies #[trigger] data@[j] == 0 by {
            assert(d0[j] == 0);
        }
    }
    let ghost header = data@;
    let mut name_off = first_name;
    let mut k: usize = 0;
    while k < list.len()
        invariant
            list@ == imports,
            imports == layout_imports(*layout),
            imports.len() <= 11,
            layout.iat_size == (imports.len() + 1) * 8,
            layout.idata_rva == 0x3000,
            oft == 40,
            ft == 40 + layout.iat_size,
            dll == 40 + 2 * layout.iat_size,
            first_name == first_name_offset(*layout),
            first_name >= dll + 13,
            first_name <= dll + 14,
            k <= imports.len(),
            name_off == name_offset(imports, first_name as int, k as int),
            first_name <= name_off <= first_name + 22 * k,
            data@.len() == 0x200,
            data@.subrange(0, 20) == header.subrange(0, 20),
            header.subrange(0, 4) == crate::bytes::le32(layout.idata_rva + 40),
            header.subrange(12, 16) == crate::bytes::le32(layout.idata_rva + dll),
            header.subrange(16, 20) == crate::bytes::le32(layout.idata_rva + ft),
            forall|j: int| 0 <= j < k ==> #[trigger] entry_holds(data@, layout.idata_rva as int, 40, ft as int, imports, first_name as int, j),
            forall|j: int| idata_gap(*layout, j) ==> #[trigger] data@[j] == 0,
        decreases imports.len() - k,
    {
        let name = import_name_bytes(list[k]);
        let name_rva = layout.idata_rva + name_off;
        let ghost before = data@;
        let t1 = oft as usize + k * 8;
        let t2 = ft as usize + k * 8;
        crate::bytes::write_u64(&mut data, t1, name_rva as u64);
        let ghost d1 = data@;
        crate::bytes::write_u64(&mut data, t2, name_rva as u64);
        let ghost d2 = data@;
        crate::bytes::write_u16(&mut data, name_off as usize, 0);
        let ghost d3 = data@;
        crate::bytes::write_bytes(&mut data, name_off as usize + 2, name);
        proof {
            let off = name_off as int;
            let len = name@.len() as int;
            lemma_splice_same_outside(before, t1 as int, crate::bytes::le64(name_rva as int));
            lemma_splice_same_outside(d1, t2 as int, crate::bytes::le64(name_rva as int));
            lemma_splice_same_outside(d2, off, crate::bytes::le16(0));
            lemma_splice_same_outside(d3, off + 2, name@);
            assert(crate::bytes::le16(0) =~= seq![0u8, 0u8]);
            assert(same_outside(data@, d2, off, off + 2 + len));
            lemma_range_kept(data@, d2, off, off + 2 + len, t1 as int, t1 + 8);
            lemma_range_kept(d2, d1, t2 as int, t2 + 8, t1 as int, t1 + 8);
            lemma_range_kept(data@, d2, off, off + 2 + len, t2 as int, t2 + 8);
            lemma_range_kept(data@, d3, off + 2, off + 2 + len, off, off + 2);
            lemma_range_kept(data@, d2, off, off + 2 + len, 0, 20);
            lemma_range_kept(d2, d1, t2 as int, t2 + 8, 0, 20);
            lemma_range_kept(d1, before, t1 as int, t1 + 8, 0, 20);
            assert forall|j: int| idata_gap(*layout, j) implies #[trigger] data@[j] == 0 by {
                assert(j < t1 || j >= t1 + 8);
                assert(d1[j] == before[j]);
                assert(d2[j] == d1[j]);
                assert(d3[j] == d2[j]);
                assert(data@[j] == d3[j]);
            }
            assert(entry_holds(data@, layout.idata_rva as int, 40, ft as int, imports, first_name as int, k as int));
            assert forall|j: int| 0 <= j < k implies #[trigger] entry_holds(data@, layout.idata_rva as int, 40, ft as int, imports, first_name as int, j) by {
                lemma_entry_kept(before, d1, d2, data@, layout.idata_rva as int, imports, first_name as int, k as int, j, t1 as int, t2 as int);
            }
        }
        name_off = align_to(name_off + 2 + name.len() as u32, 2);
        k = k + 1;
        proof {
            lemma_name_offsets_bounded(imports, first_name as int, k as int);
        }
    }
    let ghost before = data@;
    let kernel32: &[u8] = &[0x4b, 0x45, 0x52, 0x4e, 0x45, 0x4c, 0x33, 0x32, 0x2e, 0x64, 0x6c, 0x6c, 0x00];
    crate::bytes::write_bytes(&mut data, dll as usize, kernel32);
    proof {
        assert(kernel32@ =~= kernel32_name());
        assert forall|i: int| 0 <= i < 20 implies before[i] == header[i] by {
            assert(before.subrange(0, 20)[i] == header.subrange(0, 20)[i]);
        }
        assert(before.subrange(0, 4) =~= header.subrange(0, 4));
        assert(before.subrange(12, 16) =~= header.subrange(12, 16));
        assert(before.subrange(16, 20) =~= header.subrange(16, 20));
        assert forall|j: int| idata_gap(*layout, j) implies #[trigger] before[j] == 0 by {}
        lemma_idata_done(*layout, before, data@);
    }
    data
}

/// Every import that an image uses is reached through its own slot: the address-table entry
/// at the slot that the layout gives the import holds the address of a hint/name entry that
/// spells the import's name.
pub proof fn lemma_import_slots_reach_their_names(l: Layout, data: Seq<u8>, i: Import)
    requires
        slots_follow_imports(l),
        idata_describes(l, data),
        layout_imports(l).contains(i),
    ensures
        exists|rva: int| {
            &&& data.subrange(slot_of(l, i) - l.idata_rva, slot_of(l, i) - l.idata_rva + 8) == #[trigger] crate::bytes::le64(rva)
            &&& data.subrange(rva - l.idata_rva + 2, rva - l.idata_rva + 2 + import_name(i).len()) == import_name(i)
        },
{
    let imports = layout_imports(l);
    let k = choose|k: int| 0 <= k < imports.len() && imports[k] == i;
    let off = name_offset(imports, first_name_offset(l), k);
    assert(slot_of(l, imports[k]) == first_thunk_rva(l) + 8 * k);
    assert(entry_holds(data, l.idata_rva as int, 40, 40 + l.iat_size, imports, first_name_offset(l), k));
    let rva = l.idata_rva + off;
    assert(data.subrange(slot_of(l, i) - l.idata_rva, slot_of(l, i) - l.idata_rva + 8) == crate::bytes::le64(rva));
    assert(rva - l.idata_rva == off);
}

/// The number of bytes of the UTF-8 encoding of a text.
pub open spec fn utf8_len(s: Seq<char>) -> int {
    vstd::utf8::encode_utf8(s).len() as int
}

/// The four bytes of the displacement from `next` to `target`.
pub open spec fn rel32_to(target: int, next: nat) -> Seq<u8> {
    crate::bytes::le32(crate::bytes::twos32(target - next))
}

/// Appends `call [rip + rel32]` through the address-table slot at `target_rva`.
fn emit_call_iat(code: &mut Vec<u8>, layout: &Layout, target_rva: u32)
    requires
        old(code)@.len() < 0x1000,
        layout.text_rva == 0x1000,
        target_rva < 0x1000_0000,
    ensures
        final(code)@ == old(code)@ + seq![0xffu8, 0x15u8] + rel32_to(target_rva as int, 0x1000 + old(code)@.len() + 6),
{
    let next_rva = layout.text_rva + code.len() as u32 + 6;
    push_bytes(code, &[0xff, 0x15]);
    crate::bytes::push_i32(code, (target_rva as i64 - next_rva as i64) as i32);
    assert(code@ =~= old(code)@ + seq![0xffu8, 0x15u8] + rel32_to(target_rva as int, 0x1000 + old(code)@.len() + 6));
}

/// Appends an instruction with a RIP-relative operand that addresses `target_rva`.
fn emit_lea(code: &mut Vec<u8>, layout: &Layout, opcode: &[u8], target_rva: u32)
    requires
        old(code)@.len() < 0x1000,
        opcode@.len() < 16,
        layout.text_rva == 0x1000,
        target_rva < 0x1000_0000,
    ensures
        final(code)@ == old(code)@ + opcode@ + rel32_to(target_rva as int, 0x1000 + old(code)@.len() + opcode@.len() + 4),
{
    let next_rva = layout.text_rva + code.len() as u32 + opcode.len() as u32 + 4;
    push_bytes(code, opcode);
    crate::bytes::push_i32(code, (target_rva as i64 - next_rva as i64) as i32);
    assert(code@ =~= old(code)@ + opcode@ + rel32_to(target_rva as int, 0x1000 + old(code)@.len() + opcode@.len() + 4));
}

/// What a program computes when it only prints and returns: its output, if it printed, and
/// its exit code.
pub struct PePlan {
    pub output: Option<String>,
    pub exit_code: u32,
}

impl PePlan {
    /// Evaluates `main` with no arguments; the exit code is its integer result taken modulo
    /// 2^32. `None` where evaluation fails or `main` returns a non-integer.
    pub fn from_program(program: &IrProgram) -> (r: Option<PePlan>)
        ensures
            ({
                let (result, _, output) = run_function(*program, "main"@, seq![], 0, None);
                match result {
                    Some(ValueView::Int(code)) => r matches Some(p) && p.exit_code == code as u32 && output_view(p.output) == output,
                    _ => r is None,
                }
            }),
    {
        let mut evaluator = PeEvaluator::new(program);
        let args: Vec<PeValue> = Vec::new();
        assert(args@.map_values(|v: PeValue| value_view(v)) =~= seq![]);
        let result = match evaluator.eval_function("main", args) {
            Some(v) => v,
            None => { return None; },
        };
        let code = match result.as_int() {
            Some(v) => v,
            None => { return None; },
        };
        Some(PePlan { output: evaluator.output, exit_code: code as u32 })
    }
}

/// The code of a planned program: reserve shadow space, write the output to standard output
/// through `GetStdHandle` and `WriteFile` if there is output, then `ExitProcess` with the
/// exit code; padded to the file alignment.
pub open spec fn plan_text(l: Layout, output_len: Option<int>, exit_code: u32) -> Seq<u8> {
    let prologue = seq![0x48u8, 0x83, 0xec, 0x28];
    let body = match output_len {
        Some(len) => prologue
            + seq![0xb9u8] + crate::bytes::le32(crate::bytes::twos32(-11))
            + seq![0xffu8, 0x15] + rel32_to(l.get_std_handle_iat as int, 0x1000 + 15)
            + seq![0x48u8, 0x89, 0xc1]
            + seq![0x48u8, 0x8d, 0x15] + rel32_to(l.message_rva as int, 0x1000 + 25)
            + seq![0x41u8, 0xb8] + crate::bytes::le32(len)
            + seq![0x4cu8, 0x8d, 0x0d] + rel32_to(l.written_rva as int, 0x1000 + 38)
            + seq![0x48u8, 0xc7, 0x44, 0x24, 0x20, 0, 0, 0, 0]
            + seq![0xffu8, 0x15] + rel32_to(l.write_file_iat as int, 0x1000 + 53)
            + seq![0xb9u8] + crate::bytes::le32(exit_code as int)
            + seq![0xffu8, 0x15] + rel32_to(l.exit_process_iat as int, 0x1000 + 64),
        None => prologue
            + seq![0xb9u8] + crate::bytes::le32(exit_code as int)
            + seq![0xffu8, 0x15] + rel32_to(l.exit_process_iat as int, 0x1000 + 15),
    };
    crate::bytes::padded(body, FILE_ALIGNMENT as int)
}

/// The fixed placement of a layout together with slot addresses the code can reach.
pub open spec fn reachable_layout(l: Layout) -> bool {
    &&& l.text_rva == 0x1000
    &&& l.message_rva < 0x1000_0000
    &&& l.written_rva < 0x1000_0000
    &&& l.get_std_handle_iat < 0x1000_0000
    &&& l.write_file_iat < 0x1000_0000
    &&& l.exit_process_iat < 0x1000_0000
}

/// Builds the code of a planned program.
pub fn build_text(layout: &Layout, plan: &PePlan) -> (code: Vec<u8>)
    requires
        reachable_layout(*layout),
        plan.output matches Some(o) ==> utf8_len(o@) < 0xffff_0000,
    ensures
        code@ == plan_text(*layout, match plan.output { Some(o) => Some(utf8_len(o@)), None => None }, plan.exit_code),
{
    let mut code: Vec<u8> = Vec::new();
    push_bytes(&mut code, &[0x48, 0x83, 0xec, 0x28]);

    match &plan.output {
        Some(output) => {
            code.push(0xb9);
            crate::bytes::push_i32(&mut code, -11);
            emit_call_iat(&mut code, layout, layout.get_std_handle_iat);
            push_bytes(&mut code, &[0x48, 0x89, 0xc1]);
            emit_lea(&mut code, layout, &[0x48, 0x8d, 0x15], layout.message_rva);
            push_bytes(&mut code, &[0x41, 0xb8]);
            let len = output.as_str().as_bytes().len();
            crate::bytes::push_u32(&mut code, len as u32);
            emit_lea(&mut code, layout, &[0x4c, 0x8d, 0x0d], layout.written_rva);
            push_bytes(&mut code, &[0x48, 0xc7, 0x44, 0x24, 0x20, 0, 0, 0, 0]);
            emit_call_iat(&mut code, layout, layout.write_file_iat);
        },
        None => {},
    }
    code.push(0xb9);
    crate::bytes::push_u32(&mut code, plan.exit_code);
    emit_call_iat(&mut code, layout, layout.exit_process_iat);
    let ghost body = code@;
    crate::bytes::pad_to(&mut code, FILE_ALIGNMENT as usize);
    code
}

/// The read-only data of a planned program: the message and its terminating zero padded to
/// eight bytes, then the eight-byte written-count, padded to the file alignment.
pub open spec fn plan_rdata(message: Seq<u8>) -> Seq<u8> {
    crate::bytes::padded(
        crate::bytes::padded(message + seq![0u8], 8) + Seq::new(8, |i: int| 0u8),
        FILE_ALIGNMENT as int,
    )
}

/// Builds the read-only data of a planned program.
pub fn build_rdata(message: &str) -> (data: Vec<u8>)
    requires
        utf8_len(message@) < 0x0ff0_0000,
    ensures
        data@ == plan_rdata(vstd::utf8::encode_utf8(message@)),
        data@.len() < utf8_len(message@) + 0x220,
{
    let mut data: Vec<u8> = Vec::new();
    push_bytes(&mut data, message.as_bytes());
    data.push(0);
    let ghost first = data@;
    crate::bytes::pad_to(&mut data, 8);
    let ghost second = data@;
    crate::bytes::push_u64(&mut data, 0);
    proof {
        assert(crate::bytes::le64(0) =~= Seq::new(8, |i: int| 0u8));
    }
    crate::bytes::pad_to(&mut data, FILE_ALIGNMENT as usize);
    proof {
        assert(first =~= vstd::utf8::encode_utf8(message@) + seq![0u8]);
    }
    data
}

/// Writes bytes inside the header region.
fn write_header_bytes(out: &mut Vec<u8>, offset: usize, bytes: &[u8])
    requires
        offset + bytes@.len() <= 0x200,
        0x200 <= old(out)@.len() < 0x4000_0000,
    ensures
        final(out)@.len() == old(out)@.len(),
        same_outside(final(out)@, old(out)@, 0, 0x200),
        final(out)@.subrange(offset as int, offset + bytes@.len()) == bytes@,
        final(out)@ == written(old(out)@, offset as int, bytes@),
{
    crate::bytes::write_bytes(out, offset, bytes);
    proof {
        reveal(written);
        lemma_splice_same_outside(old(out)@, offset as int, bytes@);
    }
}

fn write_header_u16(out: &mut Vec<u8>, offset: usize, value: u16)
    requires
        offset + 2 <= 0x200,
        0x200 <= old(out)@.len() < 0x4000_0000,
    ensures
        final(out)@.len() == old(out)@.len(),
        same_outside(final(out)@, old(out)@, 0, 0x200),
        final(out)@ == written(old(out)@, offset as int, le16(value as int)),
{
    crate::bytes::write_u16(out, offset, value);
    proof {
        reveal(written);
        lemma_splice_same_outside(old(out)@, offset as int, crate::bytes::le16(value as int));
    }
}

fn write_header_u32(out: &mut Vec<u8>, offset: usize, value: u32)
    requires
        offset + 4 <= 0x200,
        0x200 <= old(out)@.len() < 0x4000_0000,
    ensures
        final(out)@.len() == old(out)@.len(),
        same_outside(final(out)@, old(out)@, 0, 0x200),
        final(out)@ == written(old(out)@, offset as int, le32(value as int)),
{
    crate::bytes::write_u32(out, offset, value);
    proof {
        reveal(written);
        lemma_splice_same_outside(old(out)@, offset as int, crate::bytes::le32(value as int));
    }
}

fn write_header_u64(out: &mut Vec<u8>, offset: usize, value: u64)
    requires
        offset + 8 <= 0x200,
        0x200 <= old(out)@.len() < 0x4000_0000,
    ensures
        final(out)@.len() == old(out)@.len(),
        same_outside(final(out)@, old(out)@, 0, 0x200),
        final(out)@ == written(old(out)@, offset as int, le64(value as int)),
{
    crate::bytes::write_u64(out, offset, value);
    proof {
        reveal(written);
        lemma_splice_same_outside(old(out)@, offset as int, crate::bytes::le64(value as int));
    }
}

/// `bytes` written over `s` at `offset`: the same as `splice`, kept folded in proofs.
#[verifier::opaque]
pub open spec fn written(s: Seq<u8>, offset: int, bytes: Seq<u8>) -> Seq<u8> {
    splice(s, offset, bytes)
}

/// One section header written over `s` at `offset`: name, virtual size and address, raw
/// size and pointer, and characteristics.
pub open spec fn section_header_written(s: Seq<u8>, offset: int, name: Seq<u8>, virtual_size: u32, virtual_address: u32,
    raw_pointer: u32, raw_size: u32, characteristics: u32) -> Seq<u8> {
    written(written(written(written(written(written(s, offset, name),
        offset + 8, le32(virtual_size as int)), offset + 12, le32(virtual_address as int)),
        offset + 16, le32(raw_size as int)), offset + 20, le32(raw_pointer as int)),
        offset + 36, le32(characteristics as int))
}

/// The 0x200 header bytes of an image: the DOS stub header, the PE headers and the three
/// section headers (`.text`, `.rdata`, `.idata`) over zeros.
pub open spec fn image_headers(l: Layout, text_len: int, rdata_len: int, idata_len: int) -> Seq<u8> {
    headers_written(Seq::new(0x200, |i: int| 0u8), l, text_len, rdata_len, idata_len)
}

/// The image headers written over `s`.
pub open spec fn headers_written(s: Seq<u8>, l: Layout, text_len: int, rdata_len: int, idata_len: int) -> Seq<u8> {
    let s = pe_headers_written(dos_header_written(s), l);
    let s = section_header_written(s, 0x188, seq![0x2eu8, 0x74, 0x65, 0x78, 0x74, 0, 0, 0], text_len as u32,
        l.text_rva, l.text_raw, aligned(text_len, 0x200) as u32, 0x60000020);
    let s = section_header_written(s, 0x1b0, seq![0x2eu8, 0x72, 0x64, 0x61, 0x74, 0x61, 0, 0], rdata_len as u32,
        l.rdata_rva, rdata_raw(text_len) as u32, rdata_file_size(rdata_len) as u32, 0xc0000040);
    section_header_written(s, 0x1d8, seq![0x2eu8, 0x69, 0x64, 0x61, 0x74, 0x61, 0, 0], idata_len as u32,
        l.idata_rva, (rdata_raw(text_len) + rdata_file_size(rdata_len)) as u32, aligned(idata_len, 0x200) as u32, 0xc0000040)
}

/// The DOS stub header written over `s`: the `MZ` signature, and at 0x3c the offset of the
/// PE headers.
pub open spec fn dos_header_written(s: Seq<u8>) -> Seq<u8> {
    written(written(s, 0, seq![0x4du8, 0x5au8]), 0x3c, le32(0x80))
}

/// The DOS stub header: the `MZ` signature and the offset of the PE headers.
fn write_dos_header(out: &mut Vec<u8>)
    requires
        0x200 <= old(out)@.len() < 0x4000_0000,
    ensures
        final(out)@.len() == old(out)@.len(),
        same_outside(final(out)@, old(out)@, 0, 0x200),
        final(out)@ == dos_header_written(old(out)@),
{
    write_header_bytes(out, 0, &[0x4d, 0x5a]);
    write_header_u32(out, 0x3c, 0x80);
}

/// The PE signature at 0x80, then the COFF header (machine x86-64, three sections, the
/// optional header's size and the characteristics) and the PE32+ optional header of a console
/// program, written over `s`.
pub open spec fn pe_headers_written(s: Seq<u8>, layout: Layout) -> Seq<u8> {
    let s = written(s, 0x80, seq![0x50u8, 0x45u8, 0u8, 0u8]);
    let s = written(s, 0x84, le16(0x8664));
    let s = written(s, 0x86, le16(3));
    let s = written(s, 0x94, le16(0xf0));
    let s = written(s, 0x96, le16(0x22));
    let s = written(s, 0x98, le16(0x20b));
    let s = written(s, 0x9a, seq![1u8]);
    let s = written(s, 0x9c, le32(FILE_ALIGNMENT as int));
    let s = written(s, 0xa0, le32(FILE_ALIGNMENT * 2));
    let s = written(s, 0xa8, le32(layout.text_rva as int));
    let s = written(s, 0xac, le32(layout.text_rva as int));
    let s = written(s, 0xb0, le64(0x140000000));
    let s = written(s, 0xb8, le32(SECTION_ALIGNMENT as int));
    let s = written(s, 0xbc, le32(FILE_ALIGNMENT as int));
    let s = written(s, 0xc0, le16(6));
    let s = written(s, 0xc8, le16(6));
    let s = written(s, 0xd0, le32(0x4000));
    let s = written(s, 0xd4, le32(0x200));
    let s = written(s, 0xdc, le16(3));
    let s = written(s, 0xe0, le64(0x100000));
    let s = written(s, 0xe8, le64(0x1000));
    let s = written(s, 0xf0, le64(0x100000));
    let s = written(s, 0xf8, le64(0x1000));
    let s = written(s, 0x104, le32(16));
    let s = written(s, 0x110, le32(layout.import_descriptor_rva as int));
    let s = written(s, 0x114, le32(layout.import_descriptor_size as int));
    let s = written(s, 0x168, le32(layout.get_std_handle_iat as int));
    written(s, 0x16c, le32(layout.iat_size as int))
}

/// The PE signature, the COFF header and the optional header of a console executable.
fn write_pe_headers(out: &mut Vec<u8>, layout: &Layout)
    requires
        0x200 <= old(out)@.len() < 0x4000_0000,
    ensures
        final(out)@.len() == old(out)@.len(),
        same_outside(final(out)@, old(out)@, 0, 0x200),
        final(out)@ == pe_headers_written(old(out)@, *layout),
{
    let pe: usize = 0x80;
    write_header_bytes(out, pe, &[0x50, 0x45, 0, 0]);
    write_header_u16(out, pe + 4, 0x8664);
    write_header_u16(out, pe + 6, 3);
    write_header_u16(out, pe + 20, 0xf0);
    write_header_u16(out, pe + 22, 0x22);
    let opt = pe + 24;
    write_header_u16(out, opt, 0x20b);
    let linker_version: &[u8] = &[1];
    assert(linker_version@ =~= seq![1u8]);
    write_header_bytes(out, opt + 2, linker_version);
    write_header_u32(out, opt + 4, FILE_ALIGNMENT);
    write_header_u32(out, opt + 8, FILE_ALIGNMENT * 2);
    write_header_u32(out, opt + 16, layout.text_rva);
    write_header_u32(out, opt + 20, layout.text_rva);
    write_header_u64(out, opt + 24, 0x140000000);
    write_header_u32(out, opt + 32, SECTION_ALIGNMENT);
    write_header_u32(out, opt + 36, FILE_ALIGNMENT);
    write_header_u16(out, opt + 40, 6);
    write_header_u16(out, opt + 48, 6);
    write_header_u32(out, opt + 56, 0x4000);
    write_header_u32(out, opt + 60, 0x200);
    write_header_u16(out, opt + 68, 3);
    write_header_u64(out, opt + 72, 0x100000);
    write_header_u64(out, opt + 80, 0x1000);
    write_header_u64(out, opt + 88, 0x100000);
    write_header_u64(out, opt + 96, 0x1000);
    write_header_u32(out, opt + 108, 16);
    write_header_u32(out, opt + 120, layout.import_descriptor_rva);
    write_header_u32(out, opt + 124, layout.import_descriptor_size);
    write_header_u32(out, opt + 208, layout.get_std_handle_iat);
    write_header_u32(out, opt + 212, layout.iat_size);
}

/// One section header: name, sizes, addresses and characteristics.
fn write_section_header(
    out: &mut Vec<u8>,
    offset: usize,
    name: &[u8],
    virtual_size: u32,
    virtual_address: u32,
    raw_pointer: u32,
    raw_size: u32,
    characteristics: u32,
)
    requires
        offset + 40 <= 0x200,
        name@.len() == 8,
        0x200 <= old(out)@.len() < 0x4000_0000,
    ensures
        final(out)@.len() == old(out)@.len(),
        same_outside(final(out)@, old(out)@, 0, 0x200),
        final(out)@ == section_header_written(old(out)@, offset as int, name@, virtual_size, virtual_address, raw_pointer,
            raw_size, characteristics),
{
    write_header_bytes(out, offset, name);
    write_header_u32(out, offset + 8, virtual_size);
    write_header_u32(out, offset + 12, virtual_address);
    write_header_u32(out, offset + 16, raw_size);
    write_header_u32(out, offset + 20, raw_pointer);
    write_header_u32(out, offset + 36, characteristics);
}

/// Where the read-only data starts in the file: after the headers and the text, padded.
pub open spec fn rdata_raw(text_len: int) -> int {
    0x200 + aligned(text_len, 0x200)
}

/// The file size reserved for the read-only data: at least one file-alignment unit.
pub open spec fn rdata_file_size(rdata_len: int) -> int {
    aligned(if rdata_len < 0x200 { 0x200 } else { rdata_len }, 0x200)
}

/// Lays the headers and the three sections out in one file: each section's bytes sit at
/// its raw offset, the text right after the headers and each later section after the
/// padded previous one.
#[verifier::spinoff_prover]
#[verifier::rlimit(80)]
pub fn build_image(layout: &Layout, text: &[u8], rdata: &[u8], idata: &[u8]) -> (out: Vec<u8>)
    requires
        layout.text_raw == 0x200,
        text@.len() < 0x1000_0000,
        rdata@.len() < 0x1000_0000,
        idata@.len() < 0x1000_0000,
    ensures
        out@.len() == rdata_raw(text@.len() as int) + rdata_file_size(rdata@.len() as int) + idata@.len(),
        out@.subrange(0x200, 0x200 + text@.len() as int) == text@,
        out@.subrange(rdata_raw(text@.len() as int), rdata_raw(text@.len() as int) + rdata@.len()) == rdata@,
        out@.subrange(
            rdata_raw(text@.len() as int) + rdata_file_size(rdata@.len() as int),
            rdata_raw(text@.len() as int) + rdata_file_size(rdata@.len() as int) + idata@.len(),
        ) == idata@,
        out@.subrange(0, 0x200) == image_headers(*layout, text@.len() as int, rdata@.len() as int, idata@.len() as int),
{
    let text_raw = layout.text_raw;
    let rdata_raw = text_raw + align_to(text.len() as u32, FILE_ALIGNMENT);
    let rdata_size = if rdata.len() < FILE_ALIGNMENT as usize { FILE_ALIGNMENT } else { rdata.len() as u32 };
    let rdata_file_size = align_to(rdata_size, FILE_ALIGNMENT);
    let idata_raw = rdata_raw + rdata_file_size;
    let file_size = idata_raw as usize + idata.len();
    let mut head: Vec<u8> = vec![0u8; 0x200];
    let ghost zeros = head@;
    proof {
        assert(zeros =~= Seq::new(0x200, |i: int| 0u8));
    }
    write_dos_header(&mut head);
    write_pe_headers(&mut head, layout);
    write_section_header(&mut head, 0x188, &[0x2e, 0x74, 0x65, 0x78, 0x74, 0, 0, 0], text.len() as u32,
        layout.text_rva, text_raw, align_to(text.len() as u32, FILE_ALIGNMENT), 0x60000020);
    write_section_header(&mut head, 0x1b0, &[0x2e, 0x72, 0x64, 0x61, 0x74, 0x61, 0, 0], rdata.len() as u32,
        layout.rdata_rva, rdata_raw, rdata_file_size, 0xc0000040);
    write_section_header(&mut head, 0x1d8, &[0x2e, 0x69, 0x64, 0x61, 0x74, 0x61, 0, 0], idata.len() as u32,
        layout.idata_rva, idata_raw, align_to(idata.len() as u32, FILE_ALIGNMENT), 0xc0000040);
    proof {
        assert(head@ == headers_written(zeros, *layout, text@.len() as int, rdata@.len() as int, idata@.len() as int));
        assert(head@ == image_headers(*layout, text@.len() as int, rdata@.len() as int, idata@.len() as int));
    }
    let mut out: Vec<u8> = vec![0u8; file_size];
    crate::bytes::write_bytes(&mut out, 0, head.as_slice());
    let ghost h = out@;
    proof {
        assert(h.subrange(0, 0x200) =~= head@);
    }
    crate::bytes::write_bytes(&mut out, text_raw as usize, text);
    let ghost s1 = out@;
    crate::bytes::write_bytes(&mut out, rdata_raw as usize, rdata);
    let ghost s2 = out@;
    crate::bytes::write_bytes(&mut out, idata_raw as usize, idata);
    proof {
        lemma_splice_same_outside(h, text_raw as int, text@);
        lemma_splice_same_outside(s1, rdata_raw as int, rdata@);
        lemma_splice_same_outside(s2, idata_raw as int, idata@);
        lemma_range_kept(out@, s2, idata_raw as int, idata_raw + idata@.len(), text_raw as int, text_raw + text@.len());
        lemma_range_kept(s2, s1, rdata_raw as int, rdata_raw + rdata@.len(), text_raw as int, text_raw + text@.len());
        lemma_range_kept(out@, s2, idata_raw as int, idata_raw + idata@.len(), rdata_raw as int, rdata_raw + rdata@.len());
        assert(s1.subrange(0, 0x200) =~= h.subrange(0, 0x200));
        assert(s2.subrange(0, 0x200) =~= s1.subrange(0, 0x200));
        assert(out@.subrange(0, 0x200) =~= s2.subrange(0, 0x200));
    }
    out
}

/// Emits a PE32+ console executable for a program that only computes and prints: the
/// program runs at compile time and the image writes its output and exits with its result.
/// `None` where evaluation fails or the output does not fit the image.
pub fn emit_pe64_console(program: &IrProgram) -> (r: Option<Vec<u8>>)
    ensures
        r is Some ==> is_plan_image(r->0@),
        ({
            let (result, _, output) = run_function(*program, "main"@, seq![], 0, None);
            r matches Some(img) ==> result matches Some(ValueView::Int(code))
                && exists|l: Layout| #[trigger] plan_image(img@, output, code as u32, l)
        }),
        ({
            let (result, _, output) = run_function(*program, "main"@, seq![], 0, None);
            r is Some <==> (result matches Some(ValueView::Int(_))
                && match output { Some(t) => utf8_len(t) < 0x0ff0_0000, None => true })
        }),
{
    let plan = match PePlan::from_program(program) {
        Some(plan) => plan,
        None => { return None; },
    };
    let data_len: u32 = match &plan.output {
        Some(message) => {
            let n = message.as_str().as_bytes().len();
            if n >= 0x0ff0_0000 {
                return None;
            }
            n as u32 + 1
        },
        None => 0,
    };
    let layout = Layout::new(data_len, plan.output.is_some(), false, false, false, false);
    let image = assemble_image(&layout, &plan);
    let r = Some(image);
    assert(is_plan_image(r->0@));
    r
}

/// The image of a plan in a layout made for it.
#[verifier::spinoff_prover]
#[verifier::rlimit(50)]
fn assemble_image(layout: &Layout, plan: &PePlan) -> (image: Vec<u8>)
    requires
        fixed_placement(*layout, match plan.output { Some(m) => utf8_len(m@) + 1, None => 0 }),
        layout.has_console_io == (plan.output is Some),
        !layout.has_virtual_alloc && !layout.has_file_read && !layout.has_file_ops && !layout.has_file_metadata,
        slots_follow_imports(*layout),
        slots_below(*layout, 0x4000),
        layout.written_rva < 0x1000_0000,
        plan.output matches Some(m) ==> utf8_len(m@) < 0x0ff0_0000,
    ensures
        is_plan_image(image@),
        plan_image(image@, output_view(plan.output), plan.exit_code, *layout),
{
    proof {
        assert(layout_imports(*layout).len() <= 3);
    }
    let text = build_text(layout, plan);
    let rdata = match &plan.output {
        Some(message) => build_rdata(message.as_str()),
        None => {
            proof {
                reveal_strlit("");
                assert(""@ =~= Seq::<char>::empty());
                assert(vstd::utf8::encode_utf8(Seq::<char>::empty()) =~= Seq::<u8>::empty());
            }
            build_rdata("")
        },
    };
    let idata = build_idata(layout);
    let image = build_image(layout, text.as_slice(), rdata.as_slice(), idata.as_slice());
    proof {
        let po: Option<Seq<char>> = match &plan.output { Some(m) => Some(m@), None => None };
        lemma_plan_image(image@, text@, rdata@, idata@, po, plan.exit_code, *layout);
    }
    image
}

#[verifier::spinoff_prover]
proof fn lemma_plan_image(
    img: Seq<u8>,
    text: Seq<u8>,
    rdata: Seq<u8>,
    idata: Seq<u8>,
    output: Option<Seq<char>>,
    exit_code: u32,
    l: Layout,
)
    requires
        fixed_placement(l, match output { Some(m) => utf8_len(m) + 1, None => 0 }),
        l.has_console_io == (output is Some),
        !l.has_virtual_alloc && !l.has_file_read && !l.has_file_ops && !l.has_file_metadata,
        slots_follow_imports(l),
        text == plan_text(l, match output { Some(m) => Some(utf8_len(m)), None => None }, exit_code),
        rdata == plan_rdata(match output { Some(m) => vstd::utf8::encode_utf8(m), None => seq![] }),
        idata_describes(l, idata),
        img.len() == rdata_raw(text.len() as int) + rdata_file_size(rdata.len() as int) + idata.len(),
        img.subrange(0x200, 0x200 + text.len() as int) == text,
        img.subrange(rdata_raw(text.len() as int), rdata_raw(text.len() as int) + rdata.len()) == rdata,
        img.subrange(
            rdata_raw(text.len() as int) + rdata_file_size(rdata.len() as int),
            rdata_raw(text.len() as int) + rdata_file_size(rdata.len() as int) + idata.len(),
        ) == idata,
        img.subrange(0, 0x200) == image_headers(l, text.len() as int, rdata.len() as int, idata.len() as int),
    ensures
        is_plan_image(img),
        plan_image(img, output, exit_code, l),
{
    assert(plan_image(img, output, exit_code, l));
}

/// An image of some planned program.
pub open spec fn is_plan_image(img: Seq<u8>) -> bool {
    exists|plan_output: Option<Seq<char>>, exit_code: u32, l: Layout| #[trigger] plan_image(img, plan_output, exit_code, l)
}

/// An image of a planned program: the layout for its output, the code that prints it and
/// exits with the code, the message data, and an import section that describes the layout.
pub open spec fn plan_image(img: Seq<u8>, output: Option<Seq<char>>, exit_code: u32, l: Layout) -> bool {
    let message: Seq<u8> = match output { Some(m) => vstd::utf8::encode_utf8(m), None => seq![] };
    let text = plan_text(l, match output { Some(m) => Some(utf8_len(m)), None => None }, exit_code);
    let rdata = plan_rdata(message);
    let rr = rdata_raw(text.len() as int);
    let ir = rr + rdata_file_size(rdata.len() as int);
    &&& fixed_placement(l, match output { Some(m) => utf8_len(m) + 1, None => 0 })
    &&& l.has_console_io == (output is Some)
    &&& !l.has_virtual_alloc && !l.has_file_read && !l.has_file_ops && !l.has_file_metadata
    &&& slots_follow_imports(l)
    &&& img.len() == ir + FILE_ALIGNMENT
    &&& img.subrange(0x200, 0x200 + text.len() as int) == text
    &&& img.subrange(rr, rr + rdata.len()) == rdata
    &&& idata_describes(l, img.subrange(ir, ir + FILE_ALIGNMENT))
    &&& img.subrange(0, 0x200) == image_headers(l, text.len() as int, rdata.len() as int, FILE_ALIGNMENT as int)
}


/// How the six comparisons relate: `==` is equality and `<` the order of the integers, and
/// the others are built from them: `!=` is not `==`, `<=` is `<` or `==`, `>` is `<` with the
/// operands swapped, and `>=` is `<=` swapped. So `2 <= 2` holds.
pub proof fn lemma_comparisons_relate(l: i64, r: i64)
    ensures
        compare_spec(CmpOp::Equal, l, r) <==> l == r,
        compare_spec(CmpOp::Less, l, r) <==> l < r,
        compare_spec(CmpOp::NotEqual, l, r) == !compare_spec(CmpOp::Equal, l, r),
        compare_spec(CmpOp::LessEqual, l, r) == (compare_spec(CmpOp::Less, l, r) || compare_spec(CmpOp::Equal, l, r)),
        compare_spec(CmpOp::Greater, l, r) == compare_spec(CmpOp::Less, r, l),
        compare_spec(CmpOp::GreaterEqual, l, r) == compare_spec(CmpOp::LessEqual, r, l),
{
}

} // verus!
