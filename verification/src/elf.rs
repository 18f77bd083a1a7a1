//! Static Linux executables: the runtime routines that compiled code calls, the addresses of
//! all symbols, the resolved relocations and the ELF headers around them.
use vstd::prelude::*;
use crate::bytes::{align_to, fits, has_room, le16, le32, le64, lemma_range_kept, lemma_splice_same_outside, same_outside, spec_align_to, splice, write_bytes, write_u16, write_u32, write_u64};
use crate::elf_runtime::{
    emit_read_file_or_runtime, emit_read_file_runtime, emit_runtime_routine, emit_string_len_runtime, emit_string_slice_runtime,
    lemma_dependency_routines, read_file_code, read_file_or_code, runtime_routine_code, string_len_code, string_slice_code,
};
use crate::elf_utf8::{
    emit_string_utf8_char_at_runtime, emit_string_utf8_codepoint_at_runtime, emit_string_utf8_find_codepoint_runtime,
    emit_string_utf8_navigation_runtime, emit_string_utf8_slice_runtime, string_utf8_char_at_code, string_utf8_codepoint_at_code,
    string_utf8_find_codepoint_code, string_utf8_navigation_code, string_utf8_slice_code, Utf8NavigationKind,
};
use crate::text::str_eq;

verus! {

pub const ELFCLASS64: u8 = 2;
pub const ET_EXEC: u16 = 2;
pub const EM_X86_64: u16 = 0x3e;
pub const PT_LOAD: u32 = 1;
pub const PF_R: u32 = 4;
pub const PF_X: u32 = 1;
/// Where the executable is loaded.
pub const BASE: u64 = 0x400000;
/// Where the text starts in the file and, above `BASE`, in memory.
pub const TEXT_OFFSET: usize = 0x1000;
pub const PAGE_SIZE: usize = 0x1000;
/// The length of the entry stub that calls `main` and exits with its result.
pub const START_LEN: usize = 14;
/// The most relocations that an image may carry.
pub const MAX_RELOCATIONS: usize = 0x3_0000;
/// The most bytes that an image's text or data may hold.
pub const MAX_SECTION: usize = 0x1000_0000;

/// A named position in a section of an object image.
pub struct ObjectSymbol {
    pub name: String,
    pub offset: u64,
}

/// A 32-bit PC-relative field in the text that must come to reach a symbol.
pub struct ObjectRelocation {
    pub symbol: String,
    pub offset: u64,
}

/// Compiled code and read-only data, the symbols that they define and the relocations that
/// are still to be resolved.
pub struct ObjectImage {
    pub text: Vec<u8>,
    pub rodata: Vec<u8>,
    pub functions: Vec<ObjectSymbol>,
    pub data_symbols: Vec<ObjectSymbol>,
    pub relocations: Vec<ObjectRelocation>,
}

/// A symbol's absolute address.
pub struct SymbolAddress {
    pub name: String,
    pub address: u64,
}

/// The runtime routines that a program calls, laid out one after the other, and where each
/// of them is.
pub struct RuntimeText {
    pub code: Vec<u8>,
    pub symbols: Vec<SymbolAddress>,
}

/// Whether one of `symbols` has the name `name`.
pub open spec fn defined_in(symbols: Seq<ObjectSymbol>, name: Seq<char>) -> bool {
    exists|k: int| 0 <= k < symbols.len() && #[trigger] symbols[k].name@ == name
}

/// Whether the image defines `name` itself, as a function or as data.
pub open spec fn image_defines(image: ObjectImage, name: Seq<char>) -> bool {
    defined_in(image.functions@, name) || defined_in(image.data_symbols@, name)
}

/// What an image built by the code generator satisfies: its sections fit in memory, its
/// symbols lie inside their sections, and its relocation fields lie inside the text. Fields
/// may overlap: they are filled in order, and the later one wins.
pub open spec fn image_wf(image: ObjectImage) -> bool {
    &&& image.text@.len() <= MAX_SECTION
    &&& image.rodata@.len() <= MAX_SECTION
    &&& image.relocations@.len() <= MAX_RELOCATIONS
    &&& forall|k: int| 0 <= k < image.functions@.len() ==> #[trigger] image.functions@[k].offset <= image.text@.len()
    &&& forall|k: int| 0 <= k < image.data_symbols@.len() ==> #[trigger] image.data_symbols@[k].offset <= image.rodata@.len()
    &&& forall|k: int| 0 <= k < image.relocations@.len() ==> #[trigger] image.relocations@[k].offset + 4 <= image.text@.len()
}

/// No two relocation fields of the image share a byte.
pub open spec fn relocations_apart(image: ObjectImage) -> bool {
    forall|i: int, j: int| 0 <= i < j < image.relocations@.len() ==> {
        ||| image.relocations@[i].offset + 4 <= image.relocations@[j].offset
        ||| image.relocations@[j].offset + 4 <= image.relocations@[i].offset
    }
}

/// The address where the runtime routines start: right after the entry stub and the text.
pub open spec fn runtime_base(image: ObjectImage) -> int {
    BASE + TEXT_OFFSET + START_LEN + image.text@.len()
}

/// The address that `symbols` gives `name`; of two entries with that name, the later wins.
pub open spec fn address_of(symbols: Seq<SymbolAddress>, name: Seq<char>) -> Option<u64>
    decreases symbols.len(),
{
    if symbols.len() == 0 {
        None
    } else if symbols.last().name@ == name {
        Some(symbols.last().address)
    } else {
        address_of(symbols.drop_last(), name)
    }
}

/// The routine that the runtime symbol `name` stands for at offset `at` of the runtime code,
/// given the addresses of the routines that it calls.
pub open spec fn routine_at(name: Seq<char>, at: int, symbols: Seq<SymbolAddress>, base: int) -> Option<Seq<u8>> {
    if name == "read_file_or"@ {
        match address_of(symbols, "read_file"@) {
            Some(address) => Some(read_file_or_code(at, address - base)),
            None => None,
        }
    } else if name == "string_utf8_find_codepoint"@ {
        match address_of(symbols, "string_utf8_codepoint_at"@) {
            Some(address) => Some(string_utf8_find_codepoint_code(at, address - base)),
            None => None,
        }
    } else if name == "string_utf8_slice"@ {
        match (
            address_of(symbols, "string_utf8_byte_offset"@),
            address_of(symbols, "string_len"@),
            address_of(symbols, "string_slice"@),
        ) {
            (Some(byte_offset), Some(string_len), Some(string_slice)) => Some(
                string_utf8_slice_code(at, byte_offset - base, string_len - base, string_slice - base),
            ),
            _ => None,
        }
    } else if name == "string_utf8_char_at"@ {
        match address_of(symbols, "string_utf8_slice"@) {
            Some(address) => Some(string_utf8_char_at_code(at, address - base)),
            None => None,
        }
    } else {
        runtime_routine_code(name)
    }
}

/// Whether the runtime has a routine for `name`.
pub open spec fn has_routine(name: Seq<char>) -> bool {
    ||| name == "read_file_or"@
    ||| name == "string_utf8_find_codepoint"@
    ||| name == "string_utf8_slice"@
    ||| name == "string_utf8_char_at"@
    ||| runtime_routine_code(name) is Some
}

/// No two entries share a name.
pub open spec fn distinct_names(symbols: Seq<SymbolAddress>) -> bool {
    forall|i: int, j: int| 0 <= i < j < symbols.len() ==> symbols[i].name@ != symbols[j].name@
}

/// Each runtime symbol's address holds the code of its routine.
pub open spec fn routines_in_place(code: Seq<u8>, symbols: Seq<SymbolAddress>, base: int) -> bool {
    forall|k: int| #![trigger symbols[k]] 0 <= k < symbols.len() ==> {
        let at = symbols[k].address - base;
        &&& 0 <= at
        &&& routine_at(symbols[k].name@, at, symbols, base) matches Some(bytes)
        &&& at + bytes.len() <= code.len()
        &&& code.subrange(at, at + bytes.len()) == bytes
    }
}

/// Whether some relocation of the image reaches for `name`.
pub open spec fn requested(image: ObjectImage, name: Seq<char>) -> bool {
    exists|k: int| 0 <= k < image.relocations@.len() && #[trigger] image.relocations@[k].symbol@ == name
}

/// Whether the runtime must supply `name`: the image calls for it, does not define it, and
/// the runtime has a routine for it.
pub open spec fn needed(image: ObjectImage, name: Seq<char>) -> bool {
    requested(image, name) && !image_defines(image, name) && has_routine(name)
}

/// Whether the runtime supplies `name` for another routine that the image needs.
pub open spec fn needed_by_routine(image: ObjectImage, name: Seq<char>) -> bool {
    ||| name == "read_file"@ && needed(image, "read_file_or"@)
    ||| name == "string_utf8_codepoint_at"@ && needed(image, "string_utf8_find_codepoint"@)
    ||| name == "string_utf8_slice"@ && needed(image, "string_utf8_char_at"@)
    ||| {
        &&& (name == "string_utf8_byte_offset"@ || name == "string_len"@ || name == "string_slice"@)
        &&& (needed(image, "string_utf8_slice"@) || needed(image, "string_utf8_char_at"@))
    }
}

/// What the runtime text of an image is: exactly the needed routines, each once, each at
/// its address.
pub open spec fn runtime_text_for(image: ObjectImage, rt: RuntimeText) -> bool {
    let base = runtime_base(image);
    &&& distinct_names(rt.symbols@)
    &&& routines_in_place(rt.code@, rt.symbols@, base)
    &&& forall|k: int| 0 <= k < rt.symbols@.len() ==> base <= #[trigger] rt.symbols@[k].address <= base + rt.code@.len()
    &&& forall|k: int| 0 <= k < image.relocations@.len() ==> {
        let name = #[trigger] image.relocations@[k].symbol@;
        !image_defines(image, name) && has_routine(name) ==> address_of(rt.symbols@, name) is Some
    }
    &&& forall|k: int| 0 <= k < rt.symbols@.len() ==> {
        let name = #[trigger] rt.symbols@[k].name@;
        needed(image, name) || needed_by_routine(image, name)
    }
}


/// The runtime routines so far: distinct names, each routine in place, each address inside
/// the code.
pub open spec fn runtime_state(code: Seq<u8>, symbols: Seq<SymbolAddress>, base: int) -> bool {
    &&& distinct_names(symbols)
    &&& routines_in_place(code, symbols, base)
    &&& forall|k: int| 0 <= k < symbols.len() ==> base <= #[trigger] symbols[k].address <= base + code.len()
}

proof fn lemma_address_of_push(symbols: Seq<SymbolAddress>, x: SymbolAddress, name: Seq<char>)
    ensures
        address_of(symbols.push(x), name) == (if x.name@ == name { Some(x.address) } else { address_of(symbols, name) }),
{
    assert(symbols.push(x).drop_last() =~= symbols);
}

proof fn lemma_address_of_found(symbols: Seq<SymbolAddress>, name: Seq<char>)
    requires
        address_of(symbols, name) is Some,
    ensures
        exists|k: int| 0 <= k < symbols.len() && #[trigger] symbols[k].name@ == name && symbols[k].address == address_of(symbols, name)->0,
    decreases symbols.len(),
{
    if symbols.last().name@ != name {
        lemma_address_of_found(symbols.drop_last(), name);
        let k = choose|k: int| 0 <= k < symbols.drop_last().len() && #[trigger] symbols.drop_last()[k].name@ == name
            && symbols.drop_last()[k].address == address_of(symbols.drop_last(), name)->0;
        assert(symbols[k].name@ == name);
    } else {
        assert(symbols[symbols.len() - 1].name@ == name);
    }
}

proof fn lemma_address_of_absent(symbols: Seq<SymbolAddress>, name: Seq<char>)
    requires
        forall|k: int| 0 <= k < symbols.len() ==> #[trigger] symbols[k].name@ != name,
    ensures
        address_of(symbols, name) is None,
    decreases symbols.len(),
{
    if symbols.len() > 0 {
        assert(symbols[symbols.len() - 1].name@ != name);
        lemma_address_of_absent(symbols.drop_last(), name);
    }
}

/// With distinct names, each entry's address is the one that its name looks up.
pub proof fn lemma_address_of_entry(symbols: Seq<SymbolAddress>, k: int)
    requires
        distinct_names(symbols),
        0 <= k < symbols.len(),
    ensures
        address_of(symbols, symbols[k].name@) == Some(symbols[k].address),
    decreases symbols.len(),
{
    if k < symbols.len() - 1 {
        assert(symbols[symbols.len() - 1].name@ != symbols[k].name@);
        assert(symbols.drop_last()[k] == symbols[k]);
        lemma_address_of_entry(symbols.drop_last(), k);
    }
}

/// The few facts about routine names that linking relies on.
proof fn lemma_dependency_names()
    ensures
        runtime_routine_code("read_file"@) == Some(read_file_code()),
        runtime_routine_code("string_utf8_codepoint_at"@) == Some(string_utf8_codepoint_at_code()),
        runtime_routine_code("string_utf8_byte_offset"@) == Some(string_utf8_navigation_code(Utf8NavigationKind::ByteOffset)),
        runtime_routine_code("string_len"@) == Some(string_len_code()),
        runtime_routine_code("string_slice"@) == Some(string_slice_code()),
        "read_file"@ != "read_file_or"@,
        "read_file"@ != "string_utf8_find_codepoint"@,
        "read_file"@ != "string_utf8_slice"@,
        "read_file"@ != "string_utf8_char_at"@,
        "string_utf8_codepoint_at"@ != "read_file_or"@,
        "string_utf8_codepoint_at"@ != "string_utf8_find_codepoint"@,
        "string_utf8_codepoint_at"@ != "string_utf8_slice"@,
        "string_utf8_codepoint_at"@ != "string_utf8_char_at"@,
        "string_utf8_byte_offset"@ != "read_file_or"@,
        "string_utf8_byte_offset"@ != "string_utf8_find_codepoint"@,
        "string_utf8_byte_offset"@ != "string_utf8_slice"@,
        "string_utf8_byte_offset"@ != "string_utf8_char_at"@,
        "string_len"@ != "read_file_or"@,
        "string_len"@ != "string_utf8_find_codepoint"@,
        "string_len"@ != "string_utf8_slice"@,
        "string_len"@ != "string_utf8_char_at"@,
        "string_slice"@ != "read_file_or"@,
        "string_slice"@ != "string_utf8_find_codepoint"@,
        "string_slice"@ != "string_utf8_slice"@,
        "string_slice"@ != "string_utf8_char_at"@,
        "read_file_or"@ != "string_utf8_find_codepoint"@,
        "read_file_or"@ != "string_utf8_slice"@,
        "read_file_or"@ != "string_utf8_char_at"@,
        "string_utf8_find_codepoint"@ != "string_utf8_slice"@,
        "string_utf8_find_codepoint"@ != "string_utf8_char_at"@,
        "string_utf8_slice"@ != "string_utf8_char_at"@,
{
    lemma_dependency_routines();
    reveal_strlit("read_file");
    assert("read_file"@.len() == 9);
    reveal_strlit("string_utf8_codepoint_at");
    assert("string_utf8_codepoint_at"@.len() == 24);
    reveal_strlit("string_utf8_byte_offset");
    assert("string_utf8_byte_offset"@.len() == 23);
    reveal_strlit("string_len");
    assert("string_len"@.len() == 10);
    reveal_strlit("string_slice");
    assert("string_slice"@.len() == 12);
    reveal_strlit("read_file_or");
    assert("read_file_or"@.len() == 12);
    reveal_strlit("string_utf8_find_codepoint");
    assert("string_utf8_find_codepoint"@.len() == 26);
    reveal_strlit("string_utf8_slice");
    assert("string_utf8_slice"@.len() == 17);
    reveal_strlit("string_utf8_char_at");
    assert("string_utf8_char_at"@.len() == 19);
    assert("string_slice"@[0] == 's');
    assert("read_file_or"@[0] == 'r');
}

/// Appending a routine and its symbol keeps the runtime in order.
proof fn lemma_extend_runtime(code: Seq<u8>, more: Seq<u8>, symbols: Seq<SymbolAddress>, x: SymbolAddress, base: int)
    requires
        runtime_state(code, symbols, base),
        address_of(symbols, x.name@) is None,
        x.address == base + code.len(),
        routine_at(x.name@, code.len() as int, symbols, base) == Some(more),
    ensures
        runtime_state(code + more, symbols.push(x), base),
{
    lemma_dependency_names();
    let symbols2 = symbols.push(x);
    let code2 = code + more;
    assert forall|k: int| 0 <= k < symbols.len() implies #[trigger] symbols[k].name@ != x.name@ by {
        if symbols[k].name@ == x.name@ {
            lemma_address_of_entry(symbols, k);
        }
    }
    assert(distinct_names(symbols2)) by {
        assert forall|i: int, j: int| 0 <= i < j < symbols2.len() implies symbols2[i].name@ != symbols2[j].name@ by {
            if j < symbols.len() {
                assert(symbols[i].name@ != symbols[j].name@);
            } else {
                assert(symbols[i].name@ != x.name@);
            }
        }
    }
    assert forall|k: int| #![trigger symbols2[k]] 0 <= k < symbols2.len() implies {
        let at = symbols2[k].address - base;
        &&& 0 <= at
        &&& routine_at(symbols2[k].name@, at, symbols2, base) matches Some(bytes)
        &&& at + bytes.len() <= code2.len()
        &&& code2.subrange(at, at + bytes.len()) == bytes
    } by {
        lemma_address_of_push(symbols, x, "read_file"@);
        lemma_address_of_push(symbols, x, "string_utf8_codepoint_at"@);
        lemma_address_of_push(symbols, x, "string_utf8_byte_offset"@);
        lemma_address_of_push(symbols, x, "string_len"@);
        lemma_address_of_push(symbols, x, "string_slice"@);
        lemma_address_of_push(symbols, x, "string_utf8_slice"@);
        if k < symbols.len() {
            let name = symbols[k].name@;
            let at = symbols[k].address - base;
            let bytes = routine_at(name, at, symbols, base)->0;
            if name == "read_file_or"@ {
                lemma_address_of_found(symbols, "read_file"@);
                let j = choose|j: int| 0 <= j < symbols.len() && #[trigger] symbols[j].name@ == "read_file"@;
                assert(symbols[j].name@ != x.name@);
            }
            if name == "string_utf8_find_codepoint"@ {
                lemma_address_of_found(symbols, "string_utf8_codepoint_at"@);
                let j = choose|j: int| 0 <= j < symbols.len() && #[trigger] symbols[j].name@ == "string_utf8_codepoint_at"@;
                assert(symbols[j].name@ != x.name@);
            }
            if name == "string_utf8_slice"@ {
                lemma_address_of_found(symbols, "string_utf8_byte_offset"@);
                lemma_address_of_found(symbols, "string_len"@);
                lemma_address_of_found(symbols, "string_slice"@);
                let a = choose|j: int| 0 <= j < symbols.len() && #[trigger] symbols[j].name@ == "string_utf8_byte_offset"@;
                let b = choose|j: int| 0 <= j < symbols.len() && #[trigger] symbols[j].name@ == "string_len"@;
                let c = choose|j: int| 0 <= j < symbols.len() && #[trigger] symbols[j].name@ == "string_slice"@;
                assert(symbols[a].name@ != x.name@);
                assert(symbols[b].name@ != x.name@);
                assert(symbols[c].name@ != x.name@);
            }
            if name == "string_utf8_char_at"@ {
                lemma_address_of_found(symbols, "string_utf8_slice"@);
                let j = choose|j: int| 0 <= j < symbols.len() && #[trigger] symbols[j].name@ == "string_utf8_slice"@;
                assert(symbols[j].name@ != x.name@);
            }
            assert(symbols2[k] == symbols[k]);
            assert(routine_at(name, at, symbols2, base) == routine_at(name, at, symbols, base));
            assert(code2.subrange(at, at + bytes.len()) =~= code.subrange(at, at + bytes.len()));
        } else {
            assert(symbols2[k] == x);
            assert(routine_at(x.name@, code.len() as int, symbols2, base) == routine_at(x.name@, code.len() as int, symbols, base));
            assert(code2.subrange(code.len() as int, (code.len() + more.len()) as int) =~= more);
        }
    }
}

/// Whether the image defines `name` itself.
fn image_defines_name(image: &ObjectImage, name: &str) -> (r: bool)
    ensures
        r == image_defines(*image, name@),
{
    let mut k: usize = 0;
    while k < image.functions.len()
        invariant
            0 <= k <= image.functions@.len(),
            forall|j: int| 0 <= j < k ==> #[trigger] image.functions@[j].name@ != name@,
        decreases image.functions@.len() - k,
    {
        if str_eq(image.functions[k].name.as_str(), name) {
            return true;
        }
        k += 1;
    }
    let mut k: usize = 0;
    while k < image.data_symbols.len()
        invariant
            0 <= k <= image.data_symbols@.len(),
            forall|j: int| 0 <= j < image.functions@.len() ==> #[trigger] image.functions@[j].name@ != name@,
            forall|j: int| 0 <= j < k ==> #[trigger] image.data_symbols@[j].name@ != name@,
        decreases image.data_symbols@.len() - k,
    {
        if str_eq(image.data_symbols[k].name.as_str(), name) {
            return true;
        }
        k += 1;
    }
    false
}

/// The address that `symbols` gives `name`.
pub fn find_symbol(symbols: &Vec<SymbolAddress>, name: &str) -> (r: Option<u64>)
    ensures
        r == address_of(symbols@, name@),
{
    let mut k: usize = symbols.len();
    assert(symbols@.subrange(0, k as int) =~= symbols@);
    while k > 0
        invariant
            k <= symbols@.len(),
            address_of(symbols@, name@) == address_of(symbols@.subrange(0, k as int), name@),
        decreases k,
    {
        assert(symbols@.subrange(0, k - 1) =~= symbols@.subrange(0, k as int).drop_last());
        if str_eq(symbols[k - 1].name.as_str(), name) {
            return Some(symbols[k - 1].address);
        }
        k -= 1;
    }
    assert(symbols@.subrange(0, 0) =~= Seq::<SymbolAddress>::empty());
    None
}




/// A name that the runtime knows lies inside the runtime code.
proof fn lemma_address_in_code(code: Seq<u8>, symbols: Seq<SymbolAddress>, base: int, name: Seq<char>)
    requires
        runtime_state(code, symbols, base),
        address_of(symbols, name) is Some,
    ensures
        base <= address_of(symbols, name)->0 <= base + code.len(),
{
    lemma_address_of_found(symbols, name);
    let k = choose|k: int| 0 <= k < symbols.len() && #[trigger] symbols[k].name@ == name;
    lemma_address_of_entry(symbols, k);
}

/// Appends `read_file_or`, with `read_file` ahead of it where the runtime has none yet.
fn add_read_file_or(code: &mut Vec<u8>, symbols: &mut Vec<SymbolAddress>, base: u64)
    requires
        runtime_state(old(code)@, old(symbols)@, base as int),
        address_of(old(symbols)@, "read_file_or"@) is None,
        old(code)@.len() < 0x0c00_0000,
        base < 0x1_0000_0000,
    ensures
        runtime_state(final(code)@, final(symbols)@, base as int),
        final(code)@.len() <= old(code)@.len() + 1024,
        address_of(final(symbols)@, "read_file_or"@) is Some,
        forall|n: Seq<char>| address_of(old(symbols)@, n) is Some ==> #[trigger] address_of(final(symbols)@, n) is Some,
        old(symbols)@.len() <= final(symbols)@.len(),
        forall|k: int| 0 <= k < old(symbols)@.len() ==> #[trigger] final(symbols)@[k] == old(symbols)@[k],
        forall|k: int| old(symbols)@.len() <= k < final(symbols)@.len() ==> {
            ||| #[trigger] final(symbols)@[k].name@ == "read_file_or"@
            ||| final(symbols)@[k].name@ == "read_file"@
        },
{
    proof {
        lemma_dependency_names();
        lemma_dependency_routines();
    }
    let ghost start_symbols = symbols@;
    let read_file_offset: usize = match find_symbol(symbols, "read_file") {
        Some(address) => {
            proof {
                lemma_address_in_code(code@, symbols@, base as int, "read_file"@);
            }
            (address - base) as usize
        },
        None => {
            let at = code.len();
            let ghost before_code = code@;
            let ghost before_symbols = symbols@;
            emit_read_file_runtime(code);
            let entry = SymbolAddress { name: String::from_str("read_file"), address: base + at as u64 };
            proof {
                lemma_extend_runtime(before_code, read_file_code(), before_symbols, entry, base as int);
                lemma_address_of_push(before_symbols, entry, "read_file_or"@);
                assert forall|n: Seq<char>| address_of(before_symbols, n) is Some implies #[trigger] address_of(before_symbols.push(entry), n) is Some by {
                    lemma_address_of_push(before_symbols, entry, n);
                }
            }
            symbols.push(entry);
            proof {
                lemma_address_of_push(before_symbols, entry, "read_file"@);
            }
            at
        },
    };
    assert(address_of(symbols@, "read_file"@) == Some((base + read_file_offset) as u64));
    let wrapper = code.len();
    let ghost before_code = code@;
    let ghost before_symbols = symbols@;
    emit_read_file_or_runtime(code, read_file_offset);
    let entry = SymbolAddress { name: String::from_str("read_file_or"), address: base + wrapper as u64 };
    proof {
        lemma_extend_runtime(before_code, read_file_or_code(wrapper as int, read_file_offset as int), before_symbols, entry, base as int);
        lemma_address_of_push(before_symbols, entry, "read_file_or"@);
        assert forall|n: Seq<char>| address_of(before_symbols, n) is Some implies #[trigger] address_of(before_symbols.push(entry), n) is Some by {
            lemma_address_of_push(before_symbols, entry, n);
        }
    }
    symbols.push(entry);
}

/// Appends `string_utf8_find_codepoint`, with the code point decoder ahead of it where the
/// runtime has none yet.
fn add_find_codepoint(code: &mut Vec<u8>, symbols: &mut Vec<SymbolAddress>, base: u64)
    requires
        runtime_state(old(code)@, old(symbols)@, base as int),
        address_of(old(symbols)@, "string_utf8_find_codepoint"@) is None,
        old(code)@.len() < 0x0c00_0000,
        base < 0x1_0000_0000,
    ensures
        runtime_state(final(code)@, final(symbols)@, base as int),
        final(code)@.len() <= old(code)@.len() + 1024,
        address_of(final(symbols)@, "string_utf8_find_codepoint"@) is Some,
        forall|n: Seq<char>| address_of(old(symbols)@, n) is Some ==> #[trigger] address_of(final(symbols)@, n) is Some,
        old(symbols)@.len() <= final(symbols)@.len(),
        forall|k: int| 0 <= k < old(symbols)@.len() ==> #[trigger] final(symbols)@[k] == old(symbols)@[k],
        forall|k: int| old(symbols)@.len() <= k < final(symbols)@.len() ==> {
            ||| #[trigger] final(symbols)@[k].name@ == "string_utf8_find_codepoint"@
            ||| final(symbols)@[k].name@ == "string_utf8_codepoint_at"@
        },
{
    proof {
        lemma_dependency_names();
        crate::elf_utf8::lemma_codepoint_lengths();
    }
    let codepoint_offset: usize = match find_symbol(symbols, "string_utf8_codepoint_at") {
        Some(address) => {
            proof {
                lemma_address_in_code(code@, symbols@, base as int, "string_utf8_codepoint_at"@);
            }
            (address - base) as usize
        },
        None => {
            let at = code.len();
            let ghost before_code = code@;
            let ghost before_symbols = symbols@;
            emit_string_utf8_codepoint_at_runtime(code);
            let entry = SymbolAddress { name: String::from_str("string_utf8_codepoint_at"), address: base + at as u64 };
            proof {
                lemma_extend_runtime(before_code, string_utf8_codepoint_at_code(), before_symbols, entry, base as int);
                lemma_address_of_push(before_symbols, entry, "string_utf8_find_codepoint"@);
                assert forall|n: Seq<char>| address_of(before_symbols, n) is Some implies #[trigger] address_of(before_symbols.push(entry), n) is Some by {
                    lemma_address_of_push(before_symbols, entry, n);
                }
            }
            symbols.push(entry);
            proof {
                lemma_address_of_push(before_symbols, entry, "string_utf8_codepoint_at"@);
            }
            at
        },
    };
    assert(address_of(symbols@, "string_utf8_codepoint_at"@) == Some((base + codepoint_offset) as u64));
    let wrapper = code.len();
    let ghost before_code = code@;
    let ghost before_symbols = symbols@;
    emit_string_utf8_find_codepoint_runtime(code, codepoint_offset);
    let entry = SymbolAddress { name: String::from_str("string_utf8_find_codepoint"), address: base + wrapper as u64 };
    proof {
        lemma_extend_runtime(before_code, string_utf8_find_codepoint_code(wrapper as int, codepoint_offset as int), before_symbols, entry, base as int);
        lemma_address_of_push(before_symbols, entry, "string_utf8_find_codepoint"@);
        assert forall|n: Seq<char>| address_of(before_symbols, n) is Some implies #[trigger] address_of(before_symbols.push(entry), n) is Some by {
            lemma_address_of_push(before_symbols, entry, n);
        }
    }
    symbols.push(entry);
}



/// Whether `name` is one of the routines that call others.
pub open spec fn calls_other_routines(name: Seq<char>) -> bool {
    ||| name == "read_file_or"@
    ||| name == "string_utf8_find_codepoint"@
    ||| name == "string_utf8_slice"@
    ||| name == "string_utf8_char_at"@
}

/// The offset of the routine `name`, which calls no other routine, appended first where the
/// runtime has none yet.
fn ensure_routine(code: &mut Vec<u8>, symbols: &mut Vec<SymbolAddress>, base: u64, name: &str) -> (offset: usize)
    requires
        runtime_state(old(code)@, old(symbols)@, base as int),
        runtime_routine_code(name@) is Some,
        !calls_other_routines(name@),
        old(code)@.len() < 0x0c00_1000,
        base < 0x1_0000_0000,
    ensures
        runtime_state(final(code)@, final(symbols)@, base as int),
        final(code)@.len() <= old(code)@.len() + runtime_routine_code(name@)->0.len(),
        final(code)@.len() <= old(code)@.len() + 512,
        offset <= final(code)@.len(),
        address_of(final(symbols)@, name@) == Some((base + offset) as u64),
        forall|n: Seq<char>| address_of(old(symbols)@, n) is Some ==> #[trigger] address_of(final(symbols)@, n) is Some,
        old(symbols)@.len() <= final(symbols)@.len(),
        forall|k: int| 0 <= k < old(symbols)@.len() ==> #[trigger] final(symbols)@[k] == old(symbols)@[k],
        forall|k: int| old(symbols)@.len() <= k < final(symbols)@.len() ==> #[trigger] final(symbols)@[k].name@ == name@,
{
    match find_symbol(symbols, name) {
        Some(address) => {
            proof {
                lemma_address_in_code(code@, symbols@, base as int, name@);
            }
            (address - base) as usize
        },
        None => {
            let at = code.len();
            let ghost before_code = code@;
            let ghost before_symbols = symbols@;
            let emitted = emit_runtime_routine(code, name);
            assert(emitted);
            let entry = SymbolAddress { name: String::from_str(name), address: base + at as u64 };
            proof {
                lemma_extend_runtime(before_code, runtime_routine_code(name@)->0, before_symbols, entry, base as int);
                lemma_address_of_push(before_symbols, entry, name@);
                assert forall|n: Seq<char>| address_of(before_symbols, n) is Some implies #[trigger] address_of(before_symbols.push(entry), n) is Some by {
                    lemma_address_of_push(before_symbols, entry, n);
                }
            }
            symbols.push(entry);
            at
        },
    }
}

/// The offset of the UTF-8 slicing routine, appended with the routines that it calls where
/// the runtime has none of them yet.
fn ensure_string_utf8_slice_runtime(code: &mut Vec<u8>, symbols: &mut Vec<SymbolAddress>, base: u64) -> (offset: usize)
    requires
        runtime_state(old(code)@, old(symbols)@, base as int),
        old(code)@.len() < 0x0c00_0000,
        base < 0x1_0000_0000,
    ensures
        runtime_state(final(code)@, final(symbols)@, base as int),
        final(code)@.len() <= old(code)@.len() + 672,
        offset <= final(code)@.len(),
        address_of(final(symbols)@, "string_utf8_slice"@) == Some((base + offset) as u64),
        forall|n: Seq<char>| address_of(old(symbols)@, n) is Some ==> #[trigger] address_of(final(symbols)@, n) is Some,
        old(symbols)@.len() <= final(symbols)@.len(),
        forall|k: int| 0 <= k < old(symbols)@.len() ==> #[trigger] final(symbols)@[k] == old(symbols)@[k],
        forall|k: int| old(symbols)@.len() <= k < final(symbols)@.len() ==> {
            ||| #[trigger] final(symbols)@[k].name@ == "string_utf8_slice"@
            ||| final(symbols)@[k].name@ == "string_utf8_byte_offset"@
            ||| final(symbols)@[k].name@ == "string_len"@
            ||| final(symbols)@[k].name@ == "string_slice"@
        },
        address_of(old(symbols)@, "string_utf8_slice"@) is Some ==> final(code)@ == old(code)@ && final(symbols)@ == old(symbols)@,
        address_of(old(symbols)@, "string_utf8_slice"@) is None ==> {
            &&& address_of(final(symbols)@, "string_utf8_byte_offset"@) is Some
            &&& address_of(final(symbols)@, "string_len"@) is Some
            &&& address_of(final(symbols)@, "string_slice"@) is Some
        },
{
    proof {
        lemma_dependency_names();
        lemma_dependency_routines();
        crate::elf_utf8::lemma_slice_lengths();
    }
    if let Some(address) = find_symbol(symbols, "string_utf8_slice") {
        proof {
            lemma_address_in_code(code@, symbols@, base as int, "string_utf8_slice"@);
        }
        return (address - base) as usize;
    }
    let ghost start_symbols = symbols@;
    let byte_offset_offset = ensure_routine(code, symbols, base, "string_utf8_byte_offset");
    let ghost after_byte_offset = symbols@;
    let string_len_offset = ensure_routine(code, symbols, base, "string_len");
    let ghost after_string_len = symbols@;
    let string_slice_offset = ensure_routine(code, symbols, base, "string_slice");
    proof {
        lemma_address_of_found(symbols@, "string_utf8_byte_offset"@);
        lemma_address_of_found(symbols@, "string_len"@);
        assert(address_of(symbols@, "string_utf8_byte_offset"@) == Some((base + byte_offset_offset) as u64)) by {
            lemma_address_of_found(after_byte_offset, "string_utf8_byte_offset"@);
            let k = choose|k: int| 0 <= k < after_byte_offset.len() && #[trigger] after_byte_offset[k].name@ == "string_utf8_byte_offset"@
                && after_byte_offset[k].address == address_of(after_byte_offset, "string_utf8_byte_offset"@)->0;
            assert(symbols@[k] == after_byte_offset[k]);
            lemma_address_of_entry(symbols@, k);
        }
        assert(address_of(symbols@, "string_len"@) == Some((base + string_len_offset) as u64)) by {
            lemma_address_of_found(after_string_len, "string_len"@);
            let k = choose|k: int| 0 <= k < after_string_len.len() && #[trigger] after_string_len[k].name@ == "string_len"@
                && after_string_len[k].address == address_of(after_string_len, "string_len"@)->0;
            assert(symbols@[k] == after_string_len[k]);
            lemma_address_of_entry(symbols@, k);
        }
        lemma_address_of_absent_after(start_symbols, symbols@, "string_utf8_slice"@);
    }
    let wrapper = code.len();
    let ghost before_code = code@;
    let ghost before_symbols = symbols@;
    emit_string_utf8_slice_runtime(code, byte_offset_offset, string_len_offset, string_slice_offset);
    let entry = SymbolAddress { name: String::from_str("string_utf8_slice"), address: base + wrapper as u64 };
    proof {
        lemma_extend_runtime(
            before_code,
            string_utf8_slice_code(wrapper as int, byte_offset_offset as int, string_len_offset as int, string_slice_offset as int),
            before_symbols,
            entry,
            base as int,
        );
        lemma_address_of_push(before_symbols, entry, "string_utf8_slice"@);
        assert forall|n: Seq<char>| address_of(before_symbols, n) is Some implies #[trigger] address_of(before_symbols.push(entry), n) is Some by {
            lemma_address_of_push(before_symbols, entry, n);
        }
    }
    symbols.push(entry);
    wrapper
}

/// A name that no entry had before, and that no entry added since has, still has none.
proof fn lemma_address_of_absent_after(before: Seq<SymbolAddress>, after: Seq<SymbolAddress>, name: Seq<char>)
    requires
        address_of(before, name) is None,
        before.len() <= after.len(),
        forall|k: int| 0 <= k < before.len() ==> #[trigger] after[k] == before[k],
        forall|k: int| before.len() <= k < after.len() ==> #[trigger] after[k].name@ != name,
    ensures
        address_of(after, name) is None,
{
    assert forall|k: int| 0 <= k < after.len() implies #[trigger] after[k].name@ != name by {
        if k < before.len() {
            assert(after[k] == before[k]);
            if before[k].name@ == name {
                lemma_address_of_present(before, k);
            }
        }
    }
    lemma_address_of_absent(after, name);
}

/// Appends `string_utf8_char_at`, with the slicing routine and the routines that it calls
/// ahead of it where the runtime has none of them yet.
fn add_char_at(code: &mut Vec<u8>, symbols: &mut Vec<SymbolAddress>, base: u64)
    requires
        runtime_state(old(code)@, old(symbols)@, base as int),
        address_of(old(symbols)@, "string_utf8_char_at"@) is None,
        old(code)@.len() < 0x0c00_0000,
        base < 0x1_0000_0000,
    ensures
        runtime_state(final(code)@, final(symbols)@, base as int),
        final(code)@.len() <= old(code)@.len() + 1024,
        address_of(final(symbols)@, "string_utf8_char_at"@) is Some,
        forall|n: Seq<char>| address_of(old(symbols)@, n) is Some ==> #[trigger] address_of(final(symbols)@, n) is Some,
        old(symbols)@.len() <= final(symbols)@.len(),
        forall|k: int| 0 <= k < old(symbols)@.len() ==> #[trigger] final(symbols)@[k] == old(symbols)@[k],
        forall|k: int| old(symbols)@.len() <= k < final(symbols)@.len() ==> {
            ||| #[trigger] final(symbols)@[k].name@ == "string_utf8_char_at"@
            ||| final(symbols)@[k].name@ == "string_utf8_slice"@
            ||| final(symbols)@[k].name@ == "string_utf8_byte_offset"@
            ||| final(symbols)@[k].name@ == "string_len"@
            ||| final(symbols)@[k].name@ == "string_slice"@
        },
{
    proof {
        lemma_dependency_names();
        crate::elf_utf8::lemma_slice_lengths();
    }
    let ghost start_symbols = symbols@;
    let slice_target = ensure_string_utf8_slice_runtime(code, symbols, base);
    proof {
        lemma_address_of_absent_after(start_symbols, symbols@, "string_utf8_char_at"@);
    }
    let at = code.len();
    let ghost before_code = code@;
    let ghost before_symbols = symbols@;
    emit_string_utf8_char_at_runtime(code, slice_target);
    let entry = SymbolAddress { name: String::from_str("string_utf8_char_at"), address: base + at as u64 };
    proof {
        lemma_extend_runtime(before_code, string_utf8_char_at_code(at as int, slice_target as int), before_symbols, entry, base as int);
        lemma_address_of_push(before_symbols, entry, "string_utf8_char_at"@);
        assert forall|n: Seq<char>| address_of(before_symbols, n) is Some implies #[trigger] address_of(before_symbols.push(entry), n) is Some by {
            lemma_address_of_push(before_symbols, entry, n);
        }
    }
    symbols.push(entry);
}

/// Lays out the runtime routines that the image's relocations call for and that the image
/// does not define itself, each once, and gives each its address after the image's text.
/// A routine that another one calls comes in ahead of it where it is not there yet.
pub fn build_runtime_text(image: &ObjectImage) -> (rt: RuntimeText)
    requires
        image_wf(*image),
    ensures
        runtime_text_for(*image, rt),
        rt.code@.len() <= 1024 * image.relocations@.len(),
{
    let base: u64 = BASE + TEXT_OFFSET as u64 + START_LEN as u64 + image.text.len() as u64;
    let mut code: Vec<u8> = Vec::new();
    let mut symbols: Vec<SymbolAddress> = Vec::new();
    let mut i: usize = 0;
    while i < image.relocations.len()
        invariant
            image_wf(*image),
            base == runtime_base(*image),
            i <= image.relocations@.len(),
            code@.len() <= 1024 * i,
            runtime_state(code@, symbols@, base as int),
            forall|j: int| 0 <= j < i ==> {
                let name = #[trigger] image.relocations@[j].symbol@;
                !image_defines(*image, name) && has_routine(name) ==> address_of(symbols@, name) is Some
            },
            forall|k: int| 0 <= k < symbols@.len() ==> {
                let name = #[trigger] symbols@[k].name@;
                needed(*image, name) || needed_by_routine(*image, name)
            },
        decreases image.relocations@.len() - i,
    {
        let name: &str = image.relocations[i].symbol.as_str();
        let ghost relocation_name = image.relocations@[i as int].symbol@;
        assert(requested(*image, relocation_name));
        if image_defines_name(image, name) || find_symbol(&symbols, name).is_some() {
            i += 1;
            continue;
        }
        let ghost before_symbols = symbols@;
        let ghost before_code = code@;
        assert(1024 * i < 1024 * MAX_RELOCATIONS) by (nonlinear_arith)
            requires i < MAX_RELOCATIONS;
        let offset = code.len();
        if str_eq(name, "read_file_or") {
            add_read_file_or(&mut code, &mut symbols, base);
        } else if str_eq(name, "string_utf8_find_codepoint") {
            add_find_codepoint(&mut code, &mut symbols, base);
        } else if str_eq(name, "string_utf8_slice") {
            ensure_string_utf8_slice_runtime(&mut code, &mut symbols, base);
        } else if str_eq(name, "string_utf8_char_at") {
            add_char_at(&mut code, &mut symbols, base);
        } else if emit_runtime_routine(&mut code, name) {
            let entry = SymbolAddress { name: String::from_str(name), address: base + offset as u64 };
            proof {
                lemma_extend_runtime(before_code, runtime_routine_code(name@)->0, before_symbols, entry, base as int);
                lemma_address_of_push(before_symbols, entry, name@);
                assert forall|n: Seq<char>| address_of(before_symbols, n) is Some implies #[trigger] address_of(before_symbols.push(entry), n) is Some by {
                    lemma_address_of_push(before_symbols, entry, n);
                }
            }
            symbols.push(entry);
        }
        proof {
            assert forall|j: int| 0 <= j <= i implies {
                let name = #[trigger] image.relocations@[j].symbol@;
                !image_defines(*image, name) && has_routine(name) ==> address_of(symbols@, name) is Some
            } by {
                let n = image.relocations@[j].symbol@;
                if j < i && !image_defines(*image, n) && has_routine(n) {
                    assert(address_of(before_symbols, n) is Some);
                }
            }
            assert forall|k: int| 0 <= k < symbols@.len() implies {
                let name = #[trigger] symbols@[k].name@;
                needed(*image, name) || needed_by_routine(*image, name)
            } by {
                if k < before_symbols.len() {
                    assert(symbols@[k] == before_symbols[k]);
                } else {
                    assert(needed(*image, name@));
                }
            }
        }
        i += 1;
    }
    RuntimeText { code, symbols }
}


/// The ELF file header of an x86-64 executable that starts at `entry`, with one program
/// header right after it.
pub open spec fn elf_header(entry: int) -> Seq<u8> {
    seq![0x7fu8, 0x45, 0x4c, 0x46, ELFCLASS64, 1, 1, 0, 0, 0, 0, 0, 0, 0, 0, 0]
        + le16(ET_EXEC as int) + le16(EM_X86_64 as int) + le32(1) + le64(entry) + le64(64) + le64(0)
        + le32(0) + le16(64) + le16(56) + le16(1) + le16(0) + le16(0) + le16(0)
}

/// The one program header: the whole file, readable and executable, loaded at `BASE`.
pub open spec fn load_header(file_size: int) -> Seq<u8> {
    le32(PT_LOAD as int) + le32(5) + le64(0) + le64(BASE as int) + le64(BASE as int)
        + le64(file_size) + le64(file_size) + le64(PAGE_SIZE as int)
}

/// Writes the ELF file header.
#[verifier::spinoff_prover]
#[verifier::rlimit(30)]
fn write_elf_header(output: &mut Vec<u8>, entry: u64)
    requires
        64 <= old(output)@.len(),
        fits(old(output)@),
    ensures
        final(output)@ == splice(old(output)@, 0, elf_header(entry as int)),
{
    write_bytes(output, 0, &[0x7f, 0x45, 0x4c, 0x46, ELFCLASS64, 1, 1, 0, 0, 0, 0, 0, 0, 0, 0, 0]);
    write_u16(output, 16, ET_EXEC);
    write_u16(output, 18, EM_X86_64);
    write_u32(output, 20, 1);
    write_u64(output, 24, entry);
    write_u64(output, 32, 64);
    write_u64(output, 40, 0);
    write_u32(output, 48, 0);
    write_u16(output, 52, 64);
    write_u16(output, 54, 56);
    write_u16(output, 56, 1);
    write_u16(output, 58, 0);
    write_u16(output, 60, 0);
    write_u16(output, 62, 0);
    assert(output@ =~= splice(old(output)@, 0, elf_header(entry as int)));
}

/// Writes the program header after the file header.
#[verifier::spinoff_prover]
#[verifier::rlimit(30)]
fn write_load_header(output: &mut Vec<u8>, file_size: usize)
    requires
        120 <= old(output)@.len(),
        fits(old(output)@),
    ensures
        final(output)@ == splice(old(output)@, 64, load_header(file_size as int)),
{
    let offset: usize = 64;
    assert(PF_R | PF_X == 5) by (bit_vector);
    write_u32(output, offset, PT_LOAD);
    write_u32(output, offset + 4, PF_R | PF_X);
    write_u64(output, offset + 8, 0);
    write_u64(output, offset + 16, BASE);
    write_u64(output, offset + 24, BASE);
    write_u64(output, offset + 32, file_size as u64);
    write_u64(output, offset + 40, file_size as u64);
    write_u64(output, offset + 48, PAGE_SIZE as u64);
    assert(output@ =~= splice(old(output)@, 64, load_header(file_size as int)));
}


/// Where a function of the image lies once the entry stub sits ahead of the text.
pub open spec fn function_address(offset: u64) -> int {
    BASE + TEXT_OFFSET + START_LEN + offset
}

/// The addresses of the image's functions.
pub open spec fn function_addresses(functions: Seq<ObjectSymbol>) -> Seq<SymbolAddress> {
    functions.map_values(|f: ObjectSymbol| SymbolAddress { name: f.name, address: function_address(f.offset) as u64 })
}

/// The addresses of the image's data, with the read-only data at `rdata_offset` in the file.
pub open spec fn data_addresses(data: Seq<ObjectSymbol>, rdata_offset: int) -> Seq<SymbolAddress> {
    data.map_values(|d: ObjectSymbol| SymbolAddress { name: d.name, address: (BASE + rdata_offset + d.offset) as u64 })
}

/// Every symbol that the executable knows: the image's functions, then its data, then the
/// runtime routines; where names repeat, the later entry wins.
pub open spec fn symbol_table(image: ObjectImage, rdata_offset: int, runtime: Seq<SymbolAddress>) -> Seq<SymbolAddress> {
    function_addresses(image.functions@) + data_addresses(image.data_symbols@, rdata_offset) + runtime
}

/// The addresses of every symbol that the executable knows.
fn defined_symbols(image: &ObjectImage, rdata_offset: usize, runtime_symbols: &Vec<SymbolAddress>) -> (table: Vec<SymbolAddress>)
    requires
        image_wf(*image),
        rdata_offset <= 0x3000_0000,
    ensures
        table@ == symbol_table(*image, rdata_offset as int, runtime_symbols@),
{
    let mut table: Vec<SymbolAddress> = Vec::new();
    let mut k: usize = 0;
    while k < image.functions.len()
        invariant
            image_wf(*image),
            k <= image.functions@.len(),
            table@ =~= function_addresses(image.functions@.subrange(0, k as int)),
        decreases image.functions@.len() - k,
    {
        let function = &image.functions[k];
        table.push(SymbolAddress {
            name: function.name.clone(),
            address: BASE + TEXT_OFFSET as u64 + START_LEN as u64 + function.offset,
        });
        k += 1;
        assert(table@ =~= function_addresses(image.functions@.subrange(0, k as int)));
    }
    assert(image.functions@.subrange(0, k as int) =~= image.functions@);
    let ghost functions = table@;
    let mut k: usize = 0;
    while k < image.data_symbols.len()
        invariant
            image_wf(*image),
            rdata_offset <= 0x3000_0000,
            k <= image.data_symbols@.len(),
            table@ =~= functions + data_addresses(image.data_symbols@.subrange(0, k as int), rdata_offset as int),
        decreases image.data_symbols@.len() - k,
    {
        let symbol = &image.data_symbols[k];
        table.push(SymbolAddress {
            name: symbol.name.clone(),
            address: BASE + rdata_offset as u64 + symbol.offset,
        });
        k += 1;
        assert(table@ =~= functions + data_addresses(image.data_symbols@.subrange(0, k as int), rdata_offset as int));
    }
    assert(image.data_symbols@.subrange(0, k as int) =~= image.data_symbols@);
    let ghost image_part = table@;
    let mut k: usize = 0;
    while k < runtime_symbols.len()
        invariant
            k <= runtime_symbols@.len(),
            table@ =~= image_part + runtime_symbols@.subrange(0, k as int),
        decreases runtime_symbols@.len() - k,
    {
        let symbol = &runtime_symbols[k];
        table.push(SymbolAddress { name: symbol.name.clone(), address: symbol.address });
        k += 1;
        assert(table@ =~= image_part + runtime_symbols@.subrange(0, k as int));
    }
    assert(runtime_symbols@.subrange(0, k as int) =~= runtime_symbols@);
    table
}

/// The four bytes of a relocation field: the 32-bit distance from the end of the field to
/// the symbol's address.
pub open spec fn relocation_field(table: Seq<SymbolAddress>, relocation: ObjectRelocation) -> Seq<u8> {
    le32((address_of(table, relocation.symbol@)->0 - (function_address(relocation.offset) + 4)) % 0x1_0000_0000)
}

/// The text with the relocation fields filled in, one relocation after the other.
pub open spec fn relocated_text(text: Seq<u8>, relocations: Seq<ObjectRelocation>, table: Seq<SymbolAddress>) -> Seq<u8>
    decreases relocations.len(),
{
    if relocations.len() == 0 {
        text
    } else {
        splice(
            relocated_text(text, relocations.drop_last(), table),
            relocations.last().offset as int,
            relocation_field(table, relocations.last()),
        )
    }
}

proof fn lemma_relocated_len(text: Seq<u8>, relocations: Seq<ObjectRelocation>, table: Seq<SymbolAddress>)
    requires
        forall|k: int| 0 <= k < relocations.len() ==> #[trigger] relocations[k].offset + 4 <= text.len(),
    ensures
        relocated_text(text, relocations, table).len() == text.len(),
    decreases relocations.len(),
{
    if relocations.len() > 0 {
        assert forall|k: int| 0 <= k < relocations.drop_last().len() implies #[trigger] relocations.drop_last()[k].offset + 4 <= text.len() by {
            assert(relocations.drop_last()[k] == relocations[k]);
        }
        lemma_relocated_len(text, relocations.drop_last(), table);
        assert(relocations[relocations.len() - 1].offset + 4 <= text.len());
    }
}

/// Writing `inner` into a part of `outer` that is itself written into `s` is writing into `s`.
proof fn lemma_splice_within(s: Seq<u8>, at: int, r: Seq<u8>, offset: int, field: Seq<u8>)
    requires
        0 <= at,
        at + r.len() <= s.len(),
        0 <= offset,
        offset + field.len() <= r.len(),
    ensures
        splice(splice(s, at, r), at + offset, field) == splice(s, at, splice(r, offset, field)),
{
    assert(splice(splice(s, at, r), at + offset, field) =~= splice(s, at, splice(r, offset, field)));
}


proof fn lemma_table_addresses_small(image: ObjectImage, rdata_offset: int, runtime: Seq<SymbolAddress>)
    requires
        image_wf(image),
        0 <= rdata_offset <= 0x3000_0000,
        forall|k: int| 0 <= k < runtime.len() ==> #[trigger] runtime[k].address < 0x8000_0000,
    ensures
        forall|k: int| 0 <= k < symbol_table(image, rdata_offset, runtime).len() ==> #[trigger] symbol_table(image, rdata_offset, runtime)[k].address < 0x8000_0000,
{
    let f = function_addresses(image.functions@);
    let d = data_addresses(image.data_symbols@, rdata_offset);
    let table = symbol_table(image, rdata_offset, runtime);
    assert forall|k: int| 0 <= k < table.len() implies #[trigger] table[k].address < 0x8000_0000 by {
        if k < f.len() {
            assert(image.functions@[k].offset <= image.text@.len());
        } else if k < f.len() + d.len() {
            assert(image.data_symbols@[k - f.len()].offset <= image.rodata@.len());
        } else {
            assert(table[k] == runtime[k - f.len() - d.len()]);
        }
    }
}

/// Fills in every relocation field of the text in `output`, which starts after the entry
/// stub, with the distance to its symbol.
fn patch_relocations(output: &mut Vec<u8>, image: &ObjectImage, rdata_offset: usize, runtime_symbols: &Vec<SymbolAddress>)
    requires
        image_wf(*image),
        rdata_offset <= 0x3000_0000,
        TEXT_OFFSET + START_LEN + image.text@.len() <= old(output)@.len(),
        fits(old(output)@),
        forall|k: int| 0 <= k < image.relocations@.len() ==> #[trigger] address_of(
            symbol_table(*image, rdata_offset as int, runtime_symbols@),
            image.relocations@[k].symbol@,
        ) is Some,
        forall|k: int| 0 <= k < runtime_symbols@.len() ==> #[trigger] runtime_symbols@[k].address < 0x8000_0000,
    ensures
        final(output)@ == splice(
            old(output)@,
            TEXT_OFFSET + START_LEN,
            relocated_text(
                old(output)@.subrange(TEXT_OFFSET + START_LEN, TEXT_OFFSET + START_LEN + image.text@.len()),
                image.relocations@,
                symbol_table(*image, rdata_offset as int, runtime_symbols@),
            ),
        ),
{
    let symbols = defined_symbols(image, rdata_offset, runtime_symbols);
    let ghost table = symbols@;
    let ghost start = (TEXT_OFFSET + START_LEN) as int;
    let ghost text = old(output)@.subrange(start, start + image.text@.len());
    proof {
        assert(splice(old(output)@, start, relocated_text(text, image.relocations@.subrange(0, 0), table)) =~= old(output)@);
        lemma_table_addresses_small(*image, rdata_offset as int, runtime_symbols@);
    }
    let mut i: usize = 0;
    while i < image.relocations.len()
        invariant
            image_wf(*image),
            i <= image.relocations@.len(),
            table == symbols@,
            table == symbol_table(*image, rdata_offset as int, runtime_symbols@),
            start == TEXT_OFFSET + START_LEN,
            start + image.text@.len() <= old(output)@.len(),
            fits(old(output)@),
            text == old(output)@.subrange(start, start + image.text@.len()),
            forall|k: int| 0 <= k < image.relocations@.len() ==> #[trigger] address_of(table, image.relocations@[k].symbol@) is Some,
            forall|k: int| 0 <= k < table.len() ==> #[trigger] table[k].address < 0x8000_0000,
            output@ == splice(old(output)@, start, relocated_text(text, image.relocations@.subrange(0, i as int), table)),
        decreases image.relocations@.len() - i,
    {
        let relocation = &image.relocations[i];
        assert(address_of(table, image.relocations@[i as int].symbol@) is Some);
        let symbol: u64 = find_symbol(&symbols, relocation.symbol.as_str()).unwrap();
        proof {
            lemma_address_of_found(table, relocation.symbol@);
        }
        let field_offset: usize = TEXT_OFFSET + START_LEN + relocation.offset as usize;
        let field_address: u64 = BASE + field_offset as u64;
        let displacement: i64 = symbol as i64 - (field_address + 4) as i64;
        let bits: u32 = if displacement >= 0 {
            (displacement % 0x1_0000_0000) as u32
        } else {
            ((0x1_0000_0000 - (-displacement) % 0x1_0000_0000) % 0x1_0000_0000) as u32
        };
        proof {
            let d = displacement as int;
            if d < 0 {
                let m = -d;
                assert((0x1_0000_0000 - m % 0x1_0000_0000) % 0x1_0000_0000 == d % 0x1_0000_0000) by (nonlinear_arith)
                    requires m == -d, m > 0;
            }
            let prefix = image.relocations@.subrange(0, i as int);
            let next = image.relocations@.subrange(0, i + 1);
            assert(next.drop_last() =~= prefix);
            assert forall|k: int| 0 <= k < prefix.len() implies #[trigger] prefix[k].offset + 4 <= text.len() by {
                assert(prefix[k] == image.relocations@[k]);
            }
            lemma_relocated_len(text, prefix, table);
            lemma_splice_within(old(output)@, start, relocated_text(text, prefix, table), relocation.offset as int, le32(bits as int));
        }
        write_u32(output, field_offset, bits);
        i += 1;
    }
    assert(image.relocations@.subrange(0, i as int) =~= image.relocations@);
}


/// Relocation fields that lie inside the text and apart from each other.
pub open spec fn fields_apart(text: Seq<u8>, relocations: Seq<ObjectRelocation>) -> bool {
    &&& forall|k: int| 0 <= k < relocations.len() ==> #[trigger] relocations[k].offset + 4 <= text.len()
    &&& forall|i: int, j: int| 0 <= i < j < relocations.len() ==> {
        ||| relocations[i].offset + 4 <= relocations[j].offset
        ||| relocations[j].offset + 4 <= relocations[i].offset
    }
}

/// Whether byte `j` of the text lies in no relocation field.
pub open spec fn outside_fields(relocations: Seq<ObjectRelocation>, j: int) -> bool {
    forall|k: int| 0 <= k < relocations.len() ==> !(#[trigger] relocations[k].offset <= j < relocations[k].offset + 4)
}

/// Every relocation field of the linked text holds the 32-bit distance from the end of the
/// field to its symbol's address, and every other byte is the compiled text's own.
pub proof fn lemma_relocated_text(text: Seq<u8>, relocations: Seq<ObjectRelocation>, table: Seq<SymbolAddress>)
    requires
        fields_apart(text, relocations),
    ensures
        relocated_text(text, relocations, table).len() == text.len(),
        forall|k: int| 0 <= k < relocations.len() ==> #[trigger] relocated_text(text, relocations, table).subrange(
            relocations[k].offset as int,
            relocations[k].offset + 4,
        ) == relocation_field(table, relocations[k]),
        forall|j: int| 0 <= j < text.len() && outside_fields(relocations, j) ==> #[trigger] relocated_text(text, relocations, table)[j] == text[j],
    decreases relocations.len(),
{
    lemma_relocated_len(text, relocations, table);
    if relocations.len() > 0 {
        let before = relocations.drop_last();
        let last = relocations.last();
        let n = relocations.len() - 1;
        assert(fields_apart(text, before)) by {
            assert forall|k: int| 0 <= k < before.len() implies #[trigger] before[k].offset + 4 <= text.len() by {
                assert(before[k] == relocations[k]);
            }
            assert forall|i: int, j: int| 0 <= i < j < before.len() implies {
                ||| before[i].offset + 4 <= before[j].offset
                ||| before[j].offset + 4 <= before[i].offset
            } by {
                assert(before[i] == relocations[i] && before[j] == relocations[j]);
            }
        }
        lemma_relocated_text(text, before, table);
        let r = relocated_text(text, before, table);
        let field = relocation_field(table, last);
        assert(relocations[n] == last);
        assert(last.offset + 4 <= text.len());
        lemma_splice_same_outside(r, last.offset as int, field);
        let whole = relocated_text(text, relocations, table);
        assert forall|k: int| 0 <= k < relocations.len() implies #[trigger] whole.subrange(
            relocations[k].offset as int,
            relocations[k].offset + 4,
        ) == relocation_field(table, relocations[k]) by {
            if k < n {
                assert(before[k] == relocations[k]);
                lemma_range_kept(whole, r, last.offset as int, last.offset + 4, relocations[k].offset as int, relocations[k].offset + 4);
            }
        }
        assert forall|j: int| 0 <= j < text.len() && outside_fields(relocations, j) implies #[trigger] whole[j] == text[j] by {
            assert(!(relocations[n].offset <= j < relocations[n].offset + 4));
            assert(outside_fields(before, j)) by {
                assert forall|k: int| 0 <= k < before.len() implies !(#[trigger] before[k].offset <= j < before[k].offset + 4) by {
                    assert(before[k] == relocations[k]);
                    assert(!(relocations[k].offset <= j < relocations[k].offset + 4));
                }
            }
        }
    }
}


/// The offset of the first function named `name`.
pub open spec fn first_offset(functions: Seq<ObjectSymbol>, name: Seq<char>) -> Option<u64>
    decreases functions.len(),
{
    if functions.len() == 0 {
        None
    } else if functions[0].name@ == name {
        Some(functions[0].offset)
    } else {
        first_offset(functions.subrange(1, functions.len() as int), name)
    }
}

/// The offset of the first function named `name`.
pub(crate) fn find_function(functions: &Vec<ObjectSymbol>, name: &str) -> (r: Option<u64>)
    ensures
        r == first_offset(functions@, name@),
{
    let mut k: usize = 0;
    assert(functions@.subrange(0, functions@.len() as int) =~= functions@);
    while k < functions.len()
        invariant
            k <= functions@.len(),
            first_offset(functions@, name@) == first_offset(functions@.subrange(k as int, functions@.len() as int), name@),
        decreases functions@.len() - k,
    {
        let ghost rest = functions@.subrange(k as int, functions@.len() as int);
        assert(rest.subrange(1, rest.len() as int) =~= functions@.subrange(k + 1, functions@.len() as int));
        assert(rest[0] == functions@[k as int]);
        if str_eq(functions[k].name.as_str(), name) {
            return Some(functions[k].offset);
        }
        k += 1;
    }
    None
}

/// The entry stub: call `main`, which lies `main_offset` into the text, and exit with its
/// result.
pub open spec fn start_stub(main_offset: int) -> Seq<u8> {
    seq![0xe8u8] + le32(START_LEN + main_offset - 5) + seq![0x89u8, 0xc7, 0xb8, 60, 0, 0, 0, 0x0f, 0x05]
}

/// Where the read-only data starts in the file: on the first page after the entry stub,
/// the text and `runtime_len` bytes of runtime routines.
pub open spec fn rdata_offset_for(image: ObjectImage, runtime_len: int) -> int {
    spec_align_to(TEXT_OFFSET + START_LEN + image.text@.len() + runtime_len, PAGE_SIZE as int)
}

/// Whether every relocation reaches a symbol that the image defines or the runtime has.
pub open spec fn resolvable(image: ObjectImage) -> bool {
    forall|k: int| 0 <= k < image.relocations@.len() ==> {
        let name = #[trigger] image.relocations@[k].symbol@;
        image_defines(image, name) || has_routine(name)
    }
}

/// The bytes of the executable of `image` with the runtime text `rt`: the headers, the
/// entry stub, the linked text, the runtime routines and the read-only data, each in its
/// place, and zeros between them.
pub open spec fn executable_layout(image: ObjectImage, rt: RuntimeText, bytes: Seq<u8>) -> bool {
    let text_start = TEXT_OFFSET + START_LEN;
    let runtime_start = text_start + image.text@.len();
    let runtime_end = runtime_start + rt.code@.len();
    let rdata = rdata_offset_for(image, rt.code@.len() as int);
    let table = symbol_table(image, rdata, rt.symbols@);
    &&& first_offset(image.functions@, "main"@) is Some
    &&& bytes.len() == rdata + image.rodata@.len()
    &&& bytes.subrange(0, 64) == elf_header(BASE + TEXT_OFFSET)
    &&& bytes.subrange(64, 120) == load_header(bytes.len() as int)
    &&& bytes.subrange(TEXT_OFFSET as int, text_start) == start_stub(first_offset(image.functions@, "main"@)->0 as int)
    &&& bytes.subrange(text_start, runtime_start) == relocated_text(image.text@, image.relocations@, table)
    &&& bytes.subrange(runtime_start, runtime_end) == rt.code@
    &&& bytes.subrange(rdata, bytes.len() as int) == image.rodata@
    &&& forall|j: int| (120 <= j < TEXT_OFFSET || runtime_end <= j < rdata) ==> #[trigger] bytes[j] == 0
}

proof fn lemma_address_of_present(symbols: Seq<SymbolAddress>, k: int)
    requires
        0 <= k < symbols.len(),
    ensures
        address_of(symbols, symbols[k].name@) is Some,
    decreases symbols.len(),
{
    if k < symbols.len() - 1 && symbols.last().name@ != symbols[k].name@ {
        assert(symbols.drop_last()[k] == symbols[k]);
        lemma_address_of_present(symbols.drop_last(), k);
    }
}

proof fn lemma_address_of_append(a: Seq<SymbolAddress>, b: Seq<SymbolAddress>, name: Seq<char>)
    ensures
        address_of(a + b, name) is Some <==> (address_of(a, name) is Some || address_of(b, name) is Some),
    decreases b.len(),
{
    if b.len() == 0 {
        assert(a + b =~= a);
    } else {
        assert((a + b).drop_last() =~= a + b.drop_last());
        assert((a + b).last() == b.last());
        lemma_address_of_append(a, b.drop_last(), name);
    }
}

proof fn lemma_named_in_table(symbols: Seq<SymbolAddress>, name: Seq<char>)
    ensures
        address_of(symbols, name) is Some <==> exists|k: int| 0 <= k < symbols.len() && #[trigger] symbols[k].name@ == name,
{
    if address_of(symbols, name) is Some {
        lemma_address_of_found(symbols, name);
    }
    if exists|k: int| 0 <= k < symbols.len() && #[trigger] symbols[k].name@ == name {
        let k = choose|k: int| 0 <= k < symbols.len() && #[trigger] symbols[k].name@ == name;
        lemma_address_of_present(symbols, k);
    }
}

/// A relocation reaches a symbol of the executable exactly where the image defines its name
/// or the runtime has a routine for it.
proof fn lemma_table_resolves(image: ObjectImage, rdata_offset: int, rt: RuntimeText, name: Seq<char>)
    requires
        runtime_text_for(image, rt),
        requested(image, name),
    ensures
        address_of(symbol_table(image, rdata_offset, rt.symbols@), name) is Some <==> (image_defines(image, name) || has_routine(name)),
{
    lemma_dependency_names();
    let f = function_addresses(image.functions@);
    let d = data_addresses(image.data_symbols@, rdata_offset);
    lemma_address_of_append(f + d, rt.symbols@, name);
    lemma_address_of_append(f, d, name);
    lemma_named_in_table(f, name);
    lemma_named_in_table(d, name);
    lemma_named_in_table(rt.symbols@, name);
    if defined_in(image.functions@, name) {
        let k = choose|k: int| 0 <= k < image.functions@.len() && #[trigger] image.functions@[k].name@ == name;
        assert(f[k].name@ == name);
    }
    if defined_in(image.data_symbols@, name) {
        let k = choose|k: int| 0 <= k < image.data_symbols@.len() && #[trigger] image.data_symbols@[k].name@ == name;
        assert(d[k].name@ == name);
    }
    if address_of(f, name) is Some {
        let k = choose|k: int| 0 <= k < f.len() && #[trigger] f[k].name@ == name;
        assert(image.functions@[k].name@ == name);
    }
    if address_of(d, name) is Some {
        let k = choose|k: int| 0 <= k < d.len() && #[trigger] d[k].name@ == name;
        assert(image.data_symbols@[k].name@ == name);
    }
    if !image_defines(image, name) && has_routine(name) {
        let k = choose|k: int| 0 <= k < image.relocations@.len() && #[trigger] image.relocations@[k].symbol@ == name;
        assert(address_of(rt.symbols@, image.relocations@[k].symbol@) is Some);
    }
    if address_of(rt.symbols@, name) is Some {
        let k = choose|k: int| 0 <= k < rt.symbols@.len() && #[trigger] rt.symbols@[k].name@ == name;
        assert(needed(image, rt.symbols@[k].name@) || needed_by_routine(image, rt.symbols@[k].name@));
    }
}



pub proof fn lemma_first_offset_found(functions: Seq<ObjectSymbol>, name: Seq<char>)
    requires
        first_offset(functions, name) is Some,
    ensures
        exists|k: int| 0 <= k < functions.len() && #[trigger] functions[k].offset == first_offset(functions, name)->0,
    decreases functions.len(),
{
    if functions[0].name@ != name {
        let rest = functions.subrange(1, functions.len() as int);
        lemma_first_offset_found(rest, name);
        let k = choose|k: int| 0 <= k < rest.len() && #[trigger] rest[k].offset == first_offset(rest, name)->0;
        assert(functions[k + 1].offset == rest[k].offset);
    } else {
        assert(functions[0].offset == first_offset(functions, name)->0);
    }
}

/// Writes the executable: headers, entry stub, text, runtime routines and read-only data,
/// then resolves the relocations.
#[verifier::spinoff_prover]
#[verifier::rlimit(60)]
fn link_image(image: &ObjectImage, runtime: &RuntimeText, main_offset: u64, rdata_offset: usize) -> (output: Vec<u8>)
    requires
        image_wf(*image),
        runtime_text_for(*image, *runtime),
        runtime.code@.len() <= 1024 * MAX_RELOCATIONS,
        first_offset(image.functions@, "main"@) == Some(main_offset),
        rdata_offset == rdata_offset_for(*image, runtime.code@.len() as int),
        TEXT_OFFSET + START_LEN + image.text@.len() + runtime.code@.len() <= rdata_offset <= 0x3000_0000,
        forall|j: int| 0 <= j < image.relocations@.len() ==> #[trigger] address_of(
            symbol_table(*image, rdata_offset as int, runtime.symbols@),
            image.relocations@[j].symbol@,
        ) is Some,
    ensures
        executable_layout(*image, *runtime, output@),
{
    proof {
        lemma_first_offset_found(image.functions@, "main"@);
        let k = choose|k: int| 0 <= k < image.functions@.len() && #[trigger] image.functions@[k].offset == main_offset;
        assert(image.functions@[k].offset <= image.text@.len());
    }
    let file_size: usize = rdata_offset + image.rodata.len();
    let entry: u64 = BASE + TEXT_OFFSET as u64;
    let mut output: Vec<u8> = vec![0u8; file_size];
    let ghost o0 = output@;
    write_elf_header(&mut output, entry);
    let ghost o1 = output@;
    write_load_header(&mut output, file_size);
    let ghost o2 = output@;
    let main_rel: u32 = (START_LEN as u64 + main_offset - 5) as u32;
    write_bytes(&mut output, TEXT_OFFSET, &[0xe8]);
    let ghost o3 = output@;
    assert(o3 =~= splice(o2, TEXT_OFFSET as int, seq![0xe8u8]));
    write_u32(&mut output, TEXT_OFFSET + 1, main_rel);
    let ghost o4 = output@;
    write_bytes(&mut output, TEXT_OFFSET + 5, &[0x89, 0xc7, 0xb8, 60, 0, 0, 0, 0x0f, 0x05]);
    let ghost o5 = output@;
    let image_text_end: usize = TEXT_OFFSET + START_LEN + image.text.len();
    write_bytes(&mut output, TEXT_OFFSET + START_LEN, image.text.as_slice());
    let ghost o6 = output@;
    write_bytes(&mut output, image_text_end, runtime.code.as_slice());
    let ghost o7 = output@;
    write_bytes(&mut output, rdata_offset, image.rodata.as_slice());
    let ghost o8 = output@;
    let ghost table = symbol_table(*image, rdata_offset as int, runtime.symbols@);
    proof {
        lemma_splice_same_outside(o5, TEXT_OFFSET + START_LEN, image.text@);
        lemma_splice_same_outside(o6, image_text_end as int, runtime.code@);
        lemma_splice_same_outside(o7, rdata_offset as int, image.rodata@);
        lemma_range_kept(o8, o7, rdata_offset as int, file_size as int, (TEXT_OFFSET + START_LEN) as int, image_text_end as int);
        lemma_range_kept(o7, o6, image_text_end as int, image_text_end + runtime.code@.len(), (TEXT_OFFSET + START_LEN) as int, image_text_end as int);
        assert forall|k: int| 0 <= k < runtime.symbols@.len() implies #[trigger] runtime.symbols@[k].address < 0x8000_0000 by {
            assert(runtime.symbols@[k].address <= runtime_base(*image) + runtime.code@.len());
        }
    }
    patch_relocations(&mut output, image, rdata_offset, &runtime.symbols);
    let ghost o9 = output@;
    proof {
        lemma_layout_parts(*image, *runtime, main_offset, rdata_offset as int, o0, o1, o2, o3, o4, o5, o6, o7, o8, o9);
    }
    output
}


/// The parts of the executable, each from the last write that covers it.
proof fn lemma_layout_parts(
    image: ObjectImage,
    rt: RuntimeText,
    main_offset: u64,
    rdata: int,
    o0: Seq<u8>,
    o1: Seq<u8>,
    o2: Seq<u8>,
    o3: Seq<u8>,
    o4: Seq<u8>,
    o5: Seq<u8>,
    o6: Seq<u8>,
    o7: Seq<u8>,
    o8: Seq<u8>,
    o9: Seq<u8>,
)
    requires
        image_wf(image),
        first_offset(image.functions@, "main"@) == Some(main_offset),
        main_offset <= image.text@.len(),
        rdata == rdata_offset_for(image, rt.code@.len() as int),
        TEXT_OFFSET + START_LEN + image.text@.len() + rt.code@.len() <= rdata <= 0x3000_0000,
        o0.len() == rdata + image.rodata@.len(),
        forall|j: int| 0 <= j < o0.len() ==> #[trigger] o0[j] == 0,
        o1 == splice(o0, 0, elf_header(BASE + TEXT_OFFSET)),
        o2 == splice(o1, 64, load_header(o0.len() as int)),
        o3 == splice(o2, TEXT_OFFSET as int, seq![0xe8u8]),
        o4 == splice(o3, TEXT_OFFSET + 1, le32(START_LEN + main_offset - 5)),
        o5 == splice(o4, TEXT_OFFSET + 5, seq![0x89u8, 0xc7, 0xb8, 60, 0, 0, 0, 0x0f, 0x05]),
        o6 == splice(o5, TEXT_OFFSET + START_LEN, image.text@),
        o7 == splice(o6, TEXT_OFFSET + START_LEN + image.text@.len(), rt.code@),
        o8 == splice(o7, rdata, image.rodata@),
        o9 == splice(
            o8,
            TEXT_OFFSET + START_LEN,
            relocated_text(
                o8.subrange(TEXT_OFFSET + START_LEN, TEXT_OFFSET + START_LEN + image.text@.len()),
                image.relocations@,
                symbol_table(image, rdata, rt.symbols@),
            ),
        ),
    ensures
        executable_layout(image, rt, o9),
{
    let text_start = (TEXT_OFFSET + START_LEN) as int;
    let text_end = text_start + image.text@.len();
    let runtime_end = text_end + rt.code@.len();
    let size = o0.len() as int;
    let table = symbol_table(image, rdata, rt.symbols@);
    lemma_splice_same_outside(o0, 0, elf_header(BASE + TEXT_OFFSET));
    lemma_splice_same_outside(o1, 64, load_header(size));
    lemma_splice_same_outside(o2, TEXT_OFFSET as int, seq![0xe8u8]);
    lemma_splice_same_outside(o3, TEXT_OFFSET + 1, le32(START_LEN + main_offset - 5));
    lemma_splice_same_outside(o4, TEXT_OFFSET + 5, seq![0x89u8, 0xc7, 0xb8, 60, 0, 0, 0, 0x0f, 0x05]);
    lemma_splice_same_outside(o5, text_start, image.text@);
    lemma_splice_same_outside(o6, text_end, rt.code@);
    lemma_splice_same_outside(o7, rdata, image.rodata@);
    lemma_range_kept(o8, o7, rdata, size, text_start, text_end);
    lemma_range_kept(o7, o6, text_end, runtime_end, text_start, text_end);
    let linked = relocated_text(image.text@, image.relocations@, table);
    lemma_relocated_len(image.text@, image.relocations@, table);
    lemma_splice_same_outside(o8, text_start, linked);
    // the file header
    lemma_range_kept(o9, o8, text_start, text_end, 0, 64);
    lemma_range_kept(o8, o7, rdata, size, 0, 64);
    lemma_range_kept(o7, o6, text_end, runtime_end, 0, 64);
    lemma_range_kept(o6, o5, text_start, text_end, 0, 64);
    lemma_range_kept(o5, o4, TEXT_OFFSET + 5, text_start, 0, 64);
    lemma_range_kept(o4, o3, TEXT_OFFSET + 1, TEXT_OFFSET + 5, 0, 64);
    lemma_range_kept(o3, o2, TEXT_OFFSET as int, TEXT_OFFSET + 1, 0, 64);
    lemma_range_kept(o2, o1, 64, 120, 0, 64);
    // the program header
    lemma_range_kept(o9, o8, text_start, text_end, 64, 120);
    lemma_range_kept(o8, o7, rdata, size, 64, 120);
    lemma_range_kept(o7, o6, text_end, runtime_end, 64, 120);
    lemma_range_kept(o6, o5, text_start, text_end, 64, 120);
    lemma_range_kept(o5, o4, TEXT_OFFSET + 5, text_start, 64, 120);
    lemma_range_kept(o4, o3, TEXT_OFFSET + 1, TEXT_OFFSET + 5, 64, 120);
    lemma_range_kept(o3, o2, TEXT_OFFSET as int, TEXT_OFFSET + 1, 64, 120);
    // the entry stub
    lemma_range_kept(o9, o8, text_start, text_end, TEXT_OFFSET as int, text_start);
    lemma_range_kept(o8, o7, rdata, size, TEXT_OFFSET as int, text_start);
    lemma_range_kept(o7, o6, text_end, runtime_end, TEXT_OFFSET as int, text_start);
    lemma_range_kept(o6, o5, text_start, text_end, TEXT_OFFSET as int, text_start);
    assert(o5.subrange(TEXT_OFFSET as int, text_start) =~= start_stub(main_offset as int));
    // the runtime routines and the read-only data
    lemma_range_kept(o9, o8, text_start, text_end, text_end, runtime_end);
    lemma_range_kept(o8, o7, rdata, size, text_end, runtime_end);
    lemma_range_kept(o9, o8, text_start, text_end, rdata, size);
    // the linked text
    assert(o9.subrange(text_start, text_end) =~= linked);
}


/// Links an image into a static Linux executable: the entry stub, the image's text, the
/// runtime routines that it calls, and its read-only data on the next page, with every
/// relocation resolved. `None` where the image has no `main` or reaches for a name that
/// neither it nor the runtime defines.
pub fn emit_elf64_executable(image: &ObjectImage) -> (r: Option<Vec<u8>>)
    requires
        image_wf(*image),
    ensures
        r is Some <==> (first_offset(image.functions@, "main"@) is Some && resolvable(*image)),
        r matches Some(bytes) ==> exists|rt: RuntimeText| runtime_text_for(*image, rt) && #[trigger] executable_layout(*image, rt, bytes@),
{
    let main_offset: u64 = match find_function(&image.functions, "main") {
        Some(offset) => offset,
        None => return None,
    };
    let runtime = build_runtime_text(image);
    assert(1024 * image.relocations@.len() <= 1024 * MAX_RELOCATIONS) by (nonlinear_arith)
        requires image.relocations@.len() <= MAX_RELOCATIONS;
    let text_len: usize = START_LEN + image.text.len() + runtime.code.len();
    let rdata_offset: usize = align_to(TEXT_OFFSET + text_len, PAGE_SIZE);
    let defined = defined_symbols(image, rdata_offset, &runtime.symbols);
    let mut k: usize = 0;
    while k < image.relocations.len()
        invariant
            image_wf(*image),
            runtime_text_for(*image, runtime),
            k <= image.relocations@.len(),
            defined@ == symbol_table(*image, rdata_offset as int, runtime.symbols@),
            forall|j: int| 0 <= j < k ==> #[trigger] address_of(defined@, image.relocations@[j].symbol@) is Some,
        decreases image.relocations@.len() - k,
    {
        if find_symbol(&defined, image.relocations[k].symbol.as_str()).is_none() {
            proof {
                assert(requested(*image, image.relocations@[k as int].symbol@));
                lemma_table_resolves(*image, rdata_offset as int, runtime, image.relocations@[k as int].symbol@);
            }
            return None;
        }
        k += 1;
    }
    proof {
        assert forall|j: int| 0 <= j < image.relocations@.len() implies {
            let name = #[trigger] image.relocations@[j].symbol@;
            image_defines(*image, name) || has_routine(name)
        } by {
            assert(address_of(defined@, image.relocations@[j].symbol@) is Some);
            assert(requested(*image, image.relocations@[j].symbol@));
            lemma_table_resolves(*image, rdata_offset as int, runtime, image.relocations@[j].symbol@);
        }
    }
    let output = link_image(image, &runtime, main_offset, rdata_offset);
    assert(runtime_text_for(*image, runtime) && executable_layout(*image, runtime, output@));
    assert(exists|rt: RuntimeText| runtime_text_for(*image, rt) && #[trigger] executable_layout(*image, rt, output@));
    let r = Some(output);
    assert(r matches Some(bytes) && bytes@ == output@);
    r
}


/// The file header of a linked executable describes the program header that follows it: the
/// table starts at `e_phoff`, right after the 64-byte file header, holds `e_phnum` = 1 entry
/// of `e_phentsize` bytes, and those bytes are exactly the load header written there.
pub proof fn lemma_header_describes_program_header(image: ObjectImage, rt: RuntimeText, bytes: Seq<u8>)
    requires
        executable_layout(image, rt, bytes),
    ensures
        bytes.subrange(52, 54) == le16(elf_header(0).len() as int),
        bytes.subrange(32, 40) == le64(elf_header(0).len() as int),
        bytes.subrange(54, 56) == le16(load_header(bytes.len() as int).len() as int),
        bytes.subrange(56, 58) == le16(1),
        bytes.subrange(64, 64 + load_header(bytes.len() as int).len() as int) == load_header(bytes.len() as int),
{
    let h = elf_header(BASE + TEXT_OFFSET);
    assert(bytes.subrange(52, 54) =~= h.subrange(52, 54));
    assert(bytes.subrange(32, 40) =~= h.subrange(32, 40));
    assert(bytes.subrange(54, 56) =~= h.subrange(54, 56));
    assert(bytes.subrange(56, 58) =~= h.subrange(56, 58));
    assert(h.subrange(52, 54) =~= le16(64));
    assert(h.subrange(32, 40) =~= le64(64));
    assert(h.subrange(54, 56) =~= le16(56));
    assert(h.subrange(56, 58) =~= le16(1));
}

} // verus!
