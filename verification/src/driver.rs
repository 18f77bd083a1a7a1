//! The compiler's pipeline decisions: its configuration, which files count as sources, how
//! source text is formatted, and how a checked program becomes assembly.
use vstd::prelude::*;
use vstd::string::StrSliceExecFns;
use crate::diagnostics::{Diagnostic, Severity};
use crate::target::{Target, unsupported_target_message};
use crate::ast::Program;
use crate::ir::IrProgram;
use crate::ir::{Instruction, IrFunction};
use crate::lowering::{canon, canon_all, id_vec, text};
use crate::x86_64::{
    assign_buffers, buffer_demand, emit_nasm_for_target_with_runtime_entry, emittable_function, emittable_program,
    instruction_requests, instruction_resolves, instructions_requests, is_emittable_program, is_program_assembly,
    param_requests, LayoutView,
};

verus! {

/// How a compilation runs.
pub struct CompileConfig {
    pub target: Target,
    pub nasm: String,
    pub linker: String,
    pub keep_temps: bool,
    pub runtime_entry: bool,
}

/// The configuration for a command: the named target (or the host where none is named),
/// the given tools, and the target's default linker where none is given.
pub fn compile_config(
    target: Option<String>,
    host: Target,
    nasm: String,
    linker: Option<String>,
    keep_temps: bool,
    runtime_entry: bool,
) -> (r: Result<CompileConfig, Vec<Diagnostic>>)
    ensures
        match r {
            Ok(config) => {
                &&& (target is None ==> config.target == host)
                &&& (target matches Some(t) ==> (t@ == "x86_64-linux"@ && crate::target::is_linux_target(config.target))
                    || (t@ == "x86_64-windows"@ && crate::target::is_windows_target(config.target)))
                &&& config.nasm@ == nasm@
                &&& config.linker@ == (match linker { Some(l) => l@, None => config.target.default_linker@ })
                &&& config.keep_temps == keep_temps
                &&& config.runtime_entry == runtime_entry
            },
            Err(diagnostics) => {
                &&& target matches Some(t) && t@ != "x86_64-linux"@ && t@ != "x86_64-windows"@
                &&& diagnostics@.len() == 1
                &&& diagnostics@[0].severity == Severity::Error
                &&& diagnostics@[0].message@ == unsupported_target_message(target->0@)
            },
        },
{
    let target = match target {
        Some(name) => match Target::parse(name.as_str()) {
            Ok(t) => t,
            Err(diagnostic) => { return Err(vec![diagnostic]); },
        },
        None => host,
    };
    let linker = match linker {
        Some(l) => l,
        None => String::from_str(target.default_linker),
    };
    Ok(CompileConfig { target, nasm, linker, keep_temps, runtime_entry })
}

/// The last component of a path, after any trailing separators and trailing `.` components
/// are dropped.
pub open spec fn file_name(path: Seq<char>) -> Seq<char>
    decreases path.len(),
{
    if path.len() > 0 && path.last() == '/' {
        file_name(path.drop_last())
    } else if path.len() >= 2 && path.last() == '.' && path[path.len() - 2] == '/' {
        file_name(path.drop_last())
    } else {
        after_last_slash(path, path.len() as int)
    }
}

/// The characters of `path[..end]` after its last `/`.
pub open spec fn after_last_slash(path: Seq<char>, end: int) -> Seq<char>
    decreases end,
{
    if end <= 0 {
        path
    } else if path[end - 1] == '/' {
        path.subrange(end, path.len() as int)
    } else {
        after_last_slash(path, end - 1)
    }
}

/// The extension of a file name: what follows its last dot, where that dot is not the
/// name's first character.
pub open spec fn extension_of_name(name: Seq<char>) -> Option<Seq<char>> {
    if name == ".."@ {
        None
    } else {
        match last_dot(name, name.len() as int) {
            Some(i) => if i > 0 { Some(name.subrange(i + 1, name.len() as int)) } else { None },
            None => None,
        }
    }
}

/// The position of the last `.` in `name[..end]`.
pub open spec fn last_dot(name: Seq<char>, end: int) -> Option<int>
    decreases end,
{
    if end <= 0 {
        None
    } else if name[end - 1] == '.' {
        Some(end - 1)
    } else {
        last_dot(name, end - 1)
    }
}

/// Whether a path names a Geo source file: its extension is `geo`.
pub open spec fn is_geo_path(path: Seq<char>) -> bool {
    extension_of_name(file_name(path)) == Some("geo"@)
}

/// The message for a path that is not a Geo source file.
pub open spec fn not_geo_message() -> Seq<char> {
    "Geo source files must use the .geo extension"@
}

/// The characters of a string, in order.
pub fn chars_of(s: &str) -> (r: Vec<char>)
    ensures
        r@ == s@,
{
    let mut out: Vec<char> = Vec::new();
    proof {
        broadcast use vstd::string::axiom_spec_iter;
    }
    for c in it: s.chars()
        invariant
            it.seq() == s@,
            out@ == s@.subrange(0, it.index()),
        ensures
            out@ == s@,
    {
        out.push(c);
    }
    out
}

/// Checks that a path names a Geo source file.
pub fn check_geo_path(path: &str) -> (r: Result<(), Vec<Diagnostic>>)
    ensures
        r is Ok <==> is_geo_path(path@),
        r matches Err(d) ==> d@.len() == 1 && d@[0].severity == Severity::Error && d@[0].message@ == not_geo_message(),
{
    let chars = chars_of(path);
    let mut end = chars.len();
    assert(chars@.subrange(0, end as int) =~= chars@);
    while end > 0 && (chars[end - 1] == '/' || (end >= 2 && chars[end - 1] == '.' && chars[end - 2] == '/'))
        invariant
            end <= chars@.len(),
            chars@ == path@,
            file_name(chars@.subrange(0, end as int)) == file_name(path@),
        decreases end,
    {
        proof {
            let p = chars@.subrange(0, end as int);
            assert(p.drop_last() =~= chars@.subrange(0, end - 1));
        }
        end = end - 1;
    }
    let ghost trimmed = chars@.subrange(0, end as int);
    let mut start = end;
    while start > 0 && chars[start - 1] != '/'
        invariant
            start <= end <= chars@.len(),
            trimmed == chars@.subrange(0, end as int),
            after_last_slash(trimmed, end as int) == after_last_slash(trimmed, start as int),
            forall|j: int| start <= j < end ==> chars@[j] != '/',
        decreases start,
    {
        start = start - 1;
    }
    proof {
        assert(trimmed.len() == 0 || (trimmed.last() != '/'
            && !(trimmed.len() >= 2 && trimmed.last() == '.' && trimmed[trimmed.len() - 2] == '/')));
        assert(file_name(trimmed) == after_last_slash(trimmed, end as int));
    }
    let ghost name = trimmed.subrange(start as int, end as int);
    assert(after_last_slash(trimmed, start as int) =~= name) by {
        if start == 0 {
            assert(trimmed.subrange(0, end as int) =~= trimmed);
        }
    }
    let is_dotdot = end - start == 2 && chars[start] == '.' && chars[start + 1] == '.';
    assert(is_dotdot <==> name == ".."@) by {
        reveal_strlit("..");
        if name == ".."@ {
            assert(name[0] == '.' && name[1] == '.');
        }
        if is_dotdot {
            assert(name =~= ".."@);
        }
    }
    let mut dot = end;
    let mut found = false;
    while dot > start && !found
        invariant
            start <= dot <= end,
            name == trimmed.subrange(start as int, end as int),
            trimmed == chars@.subrange(0, end as int),
            end <= chars@.len(),
            found ==> dot > start && chars@[dot - 1] == '.' && last_dot(name, (end - start) as int) == Some((dot - 1 - start) as int),
            !found ==> last_dot(name, (end - start) as int) == last_dot(name, (dot - start) as int),
        decreases dot - start + if found { 0int } else { 1 },
    {
        if chars[dot - 1] == '.' {
            found = true;
        } else {
            dot = dot - 1;
        }
    }
    proof {
        reveal_strlit("geo");
    }
    let ok = !is_dotdot && found && dot - 1 > start && end - dot == 3
        && chars[dot] == 'g' && chars[dot + 1] == 'e' && chars[dot + 2] == 'o';
    proof {
        let ext = name.subrange((dot - start) as int, name.len() as int);
        if found {
            assert(ext =~= chars@.subrange(dot as int, end as int));
        }
        if ok {
            assert(ext =~= "geo"@);
        }
        if found && !is_dotdot && dot - 1 > start && ext == "geo"@ {
            assert(ext.len() == 3 && ext[0] == 'g' && ext[1] == 'e' && ext[2] == 'o');
        }
    }
    if ok {
        Ok(())
    } else {
        Err(vec![Diagnostic::error("Geo source files must use the .geo extension")])
    }
}

/// The length of a path once trailing separators and trailing `.` components are dropped.
pub open spec fn trimmed_len(path: Seq<char>) -> int
    decreases path.len(),
{
    if path.len() > 0 && path.last() == '/' {
        trimmed_len(path.drop_last())
    } else if path.len() >= 2 && path.last() == '.' && path[path.len() - 2] == '/' {
        trimmed_len(path.drop_last())
    } else {
        path.len() as int
    }
}

/// Where the last component of `path[..end]` starts: after its last `/`.
pub open spec fn name_start(path: Seq<char>, end: int) -> int
    decreases end,
{
    if end <= 0 {
        0
    } else if path[end - 1] == '/' {
        end
    } else {
        name_start(path, end - 1)
    }
}

/// `path` with the extension of its file name replaced by `ext` (removed where `ext` is
/// empty), everything after the file name's stem dropped; unchanged where the path has no
/// file name (it is empty, `.`, `..` or ends in one of them, or is only separators).
pub open spec fn with_extension(path: Seq<char>, ext: Seq<char>) -> Seq<char> {
    let e = trimmed_len(path);
    let s = name_start(path, e);
    let name = path.subrange(s, e);
    if name.len() == 0 || name == "."@ || name == ".."@ {
        path
    } else {
        let stem_end = match last_dot(name, name.len() as int) {
            Some(i) => if i > 0 { s + i } else { e },
            None => e,
        };
        path.subrange(0, stem_end) + if ext.len() == 0 { Seq::empty() } else { seq!['.'] + ext }
    }
}

/// Where a build writes its executable when no output is named: the input with the target's
/// executable extension in place of its own (`main.geo` becomes `main` or `main.exe`).
pub fn default_output_path(input: &str, target: &Target) -> (r: String)
    ensures
        r@ == with_extension(input@, target.executable_extension@),
{
    let chars = chars_of(input);
    let mut end = chars.len();
    assert(chars@.subrange(0, end as int) =~= chars@);
    while end > 0 && (chars[end - 1] == '/' || (end >= 2 && chars[end - 1] == '.' && chars[end - 2] == '/'))
        invariant
            end <= chars@.len(),
            chars@ == input@,
            trimmed_len(chars@.subrange(0, end as int)) == trimmed_len(input@),
        decreases end,
    {
        proof {
            let p = chars@.subrange(0, end as int);
            assert(p.drop_last() =~= chars@.subrange(0, end - 1));
        }
        end = end - 1;
    }
    proof {
        let p = chars@.subrange(0, end as int);
        assert(trimmed_len(p) == end);
    }
    let mut start = end;
    while start > 0 && chars[start - 1] != '/'
        invariant
            start <= end <= chars@.len(),
            chars@ == input@,
            name_start(input@, end as int) == name_start(input@, start as int),
        decreases start,
    {
        start = start - 1;
    }
    assert(name_start(input@, start as int) == start);
    let ghost name = input@.subrange(start as int, end as int);
    let n = end - start;
    let no_name = n == 0 || (n == 1 && chars[start] == '.') || (n == 2 && chars[start] == '.' && chars[start + 1] == '.');
    proof {
        reveal_strlit(".");
        reveal_strlit("..");
        if name == "."@ {
            assert(name[0] == '.');
        }
        if name == ".."@ {
            assert(name[0] == '.' && name[1] == '.');
        }
        if n == 1 && chars[start as int] == '.' {
            assert(name =~= "."@);
        }
        if n == 2 && chars[start as int] == '.' && chars[start + 1] == '.' {
            assert(name =~= ".."@);
        }
    }
    if no_name {
        return String::from_str(input);
    }
    let mut dot = end;
    let mut found = false;
    while dot > start && !found
        invariant
            start <= dot <= end,
            end <= chars@.len(),
            chars@ == input@,
            name == input@.subrange(start as int, end as int),
            found ==> dot > start && chars@[dot - 1] == '.' && last_dot(name, (end - start) as int) == Some((dot - 1 - start) as int),
            !found ==> last_dot(name, (end - start) as int) == last_dot(name, (dot - start) as int),
        decreases dot - start + if found { 0int } else { 1 },
    {
        if chars[dot - 1] == '.' {
            found = true;
        } else {
            dot = dot - 1;
        }
    }
    let stem_end = if found && dot - 1 > start { dot - 1 } else { end };
    let mut out = String::new();
    let mut i: usize = 0;
    while i < stem_end
        invariant
            i <= stem_end <= chars@.len(),
            chars@ == input@,
            out@ == input@.subrange(0, i as int),
        decreases stem_end - i,
    {
        push_char(&mut out, chars[i]);
        i = i + 1;
        assert(out@ =~= input@.subrange(0, i as int));
    }
    let ext = target.executable_extension;
    if ext.unicode_len() > 0 {
        out.append(".");
        out.append(ext);
        proof {
            reveal_strlit(".");
        }
    }
    out
}

/// `String::push`: appends one character.
#[verifier::external_body]
fn push_char(s: &mut String, c: char)
    ensures
        final(s)@ == old(s)@.push(c),
{
    s.push(c);
}

/// Unicode white space, as `char::is_whitespace` classifies it.
pub open spec fn is_whitespace(c: char) -> bool {
    let v = c as u32;
    (9 <= v <= 13) || v == 32 || v == 0x85 || v == 0xa0 || v == 0x1680 || (0x2000 <= v <= 0x200a)
        || v == 0x2028 || v == 0x2029 || v == 0x202f || v == 0x205f || v == 0x3000
}

fn char_is_whitespace(c: char) -> (r: bool)
    ensures
        r == is_whitespace(c),
{
    let v = c as u32;
    (9 <= v && v <= 13) || v == 32 || v == 0x85 || v == 0xa0 || v == 0x1680 || (0x2000 <= v && v <= 0x200a)
        || v == 0x2028 || v == 0x2029 || v == 0x202f || v == 0x205f || v == 0x3000
}

/// A line without its trailing white space.
pub open spec fn trim_end(s: Seq<char>) -> Seq<char>
    decreases s.len(),
{
    if s.len() > 0 && is_whitespace(s.last()) {
        trim_end(s.drop_last())
    } else {
        s
    }
}

/// The position of the last newline in `s[..end]`.
pub open spec fn last_newline(s: Seq<char>, end: int) -> Option<int>
    decreases end,
{
    if end <= 0 {
        None
    } else if s[end - 1] == '\n' {
        Some(end - 1)
    } else {
        last_newline(s, end - 1)
    }
}

/// The pieces of `s` between newlines: one more piece than `s` has newlines.
pub open spec fn segments(s: Seq<char>) -> Seq<Seq<char>>
    decreases s.len(),
{
    match last_newline(s, s.len() as int) {
        Some(i) => if 0 <= i < s.len() {
            segments(s.subrange(0, i)).push(s.subrange(i + 1, s.len() as int))
        } else {
            seq![s]
        },
        None => seq![s],
    }
}

/// The lines of a text, as `str::lines` gives them: the pieces between newlines, where a
/// final newline ends the last line rather than starting an empty one. A trailing carriage
/// return stays on its line; formatting removes it with the other trailing white space.
pub open spec fn lines_of(s: Seq<char>) -> Seq<Seq<char>> {
    if s.len() == 0 {
        seq![]
    } else if s.last() == '\n' {
        segments(s.drop_last())
    } else {
        segments(s)
    }
}

/// Each line with its trailing white space removed and a newline after it.
pub open spec fn terminated(lines: Seq<Seq<char>>) -> Seq<char>
    decreases lines.len(),
{
    if lines.len() == 0 {
        seq![]
    } else {
        terminated(lines.drop_last()) + trim_end(lines.last()) + seq!['\n']
    }
}

/// A formatted source: every line stripped of trailing white space and ended by a newline;
/// a text without lines becomes a single newline.
pub open spec fn formatted(s: Seq<char>) -> Seq<char> {
    if lines_of(s).len() == 0 { seq!['\n'] } else { terminated(lines_of(s)) }
}

proof fn lemma_last_newline_at(s: Seq<char>, start: int, end: int)
    requires
        0 < start <= end <= s.len(),
        s[start - 1] == '\n',
        forall|j: int| start <= j < end ==> s[j] != '\n',
    ensures
        last_newline(s, end) == Some(start - 1),
    decreases end - start,
{
    if end > start {
        lemma_last_newline_at(s, start, end - 1);
    }
}

proof fn lemma_no_newline(s: Seq<char>, end: int)
    requires
        0 <= end <= s.len(),
        forall|j: int| 0 <= j < end ==> s[j] != '\n',
    ensures
        last_newline(s, end) is None,
    decreases end,
{
    if end > 0 {
        lemma_no_newline(s, end - 1);
    }
}

proof fn lemma_last_newline_prefix(s: Seq<char>, k: int, end: int)
    requires
        0 <= end <= k <= s.len(),
    ensures
        last_newline(s.subrange(0, k), end) == last_newline(s, end),
    decreases end,
{
    if end > 0 {
        lemma_last_newline_prefix(s, k, end - 1);
    }
}

/// The segments of `s[..i]` where `s[start..i]` has no newline: those of `s[..start - 1]`
/// and then `s[start..i]`, or the whole prefix where `start` is zero.
proof fn lemma_segments_step(s: Seq<char>, start: int, i: int)
    requires
        0 <= start <= i <= s.len(),
        start > 0 ==> s[start - 1] == '\n',
        forall|j: int| start <= j < i ==> s[j] != '\n',
    ensures
        segments(s.subrange(0, i)) == if start > 0 {
            segments(s.subrange(0, start - 1)).push(s.subrange(start, i))
        } else {
            seq![s.subrange(0, i)]
        },
{
    let t = s.subrange(0, i);
    lemma_last_newline_prefix(s, i, i);
    if start > 0 {
        lemma_last_newline_at(s, start, i);
        assert(t.subrange(0, start - 1) =~= s.subrange(0, start - 1));
        assert(t.subrange(start, i) =~= s.subrange(start, i));
    } else {
        lemma_no_newline(s, i);
    }
}

/// Appends `line` without its trailing white space, then a newline.
fn push_trimmed_line(out: &mut String, chars: &Vec<char>, start: usize, end: usize)
    requires
        start <= end <= chars@.len(),
    ensures
        final(out)@ == old(out)@ + trim_end(chars@.subrange(start as int, end as int)) + seq!['\n'],
{
    let mut e = end;
    while e > start && char_is_whitespace(chars[e - 1])
        invariant
            start <= e <= end,
            end <= chars@.len(),
            trim_end(chars@.subrange(start as int, e as int)) == trim_end(chars@.subrange(start as int, end as int)),
        decreases e,
    {
        proof {
            let t = chars@.subrange(start as int, e as int);
            assert(t.drop_last() =~= chars@.subrange(start as int, e - 1));
        }
        e = e - 1;
    }
    proof {
        let t = chars@.subrange(start as int, e as int);
        assert(trim_end(t) == t);
    }
    let mut k = start;
    while k < e
        invariant
            start <= k <= e,
            e <= chars@.len(),
            final_prefix(out@, old(out)@, chars@, start as int, k as int),
        decreases e - k,
    {
        push_char(out, chars[k]);
        k = k + 1;
        assert(out@ =~= old(out)@ + chars@.subrange(start as int, k as int));
    }
    push_char(out, '\n');
}

pub open spec fn final_prefix(now: Seq<char>, before: Seq<char>, chars: Seq<char>, start: int, k: int) -> bool {
    now == before + chars.subrange(start, k)
}

/// Strips trailing white space from every line and ends every line with a newline.
pub fn format_source_text(source: &str) -> (r: String)
    ensures
        r@ == formatted(source@),
{
    let chars = chars_of(source);
    let n = chars.len();
    let mut out = String::new();
    let mut start: usize = 0;
    let mut i: usize = 0;
    while i < n
        invariant
            n == chars@.len(),
            chars@ == source@,
            start <= i <= n,
            start > 0 ==> chars@[start - 1] == '\n',
            forall|j: int| start <= j < i ==> chars@[j] != '\n',
            out@ == if start > 0 { terminated(segments(chars@.subrange(0, start - 1))) } else { seq![] },
        decreases n - i,
    {
        if chars[i] == '\n' {
            proof {
                lemma_segments_step(chars@, start as int, i as int);
            }
            push_trimmed_line(&mut out, &chars, start, i);
            proof {
                let segs = segments(chars@.subrange(0, i as int));
                assert(segs.len() > 0);
                assert(segs.last() == chars@.subrange(start as int, i as int));
                assert(segs.drop_last() =~= (if start > 0 { segments(chars@.subrange(0, start - 1)) } else { seq![] }));
                assert(terminated(segs) == terminated(segs.drop_last()) + trim_end(segs.last()) + seq!['\n']);
                assert(out@ == terminated(segs));
            }
            start = i + 1;
        }
        i = i + 1;
    }
    if n == 0 {
        push_char(&mut out, '\n');
        assert(out@ =~= seq!['\n']);
        return out;
    }
    if chars[n - 1] == '\n' {
        proof {
            assert(start == n);
            assert(chars@.drop_last() =~= chars@.subrange(0, n - 1));
        }
        return out;
    }
    proof {
        lemma_segments_step(chars@, start as int, n as int);
        assert(chars@.subrange(0, n as int) =~= chars@);
    }
    push_trimmed_line(&mut out, &chars, start, n);
    proof {
        let segs = segments(chars@);
        assert(segs.len() > 0);
        assert(segs.last() == chars@.subrange(start as int, n as int));
        assert(segs.drop_last() =~= (if start > 0 { segments(chars@.subrange(0, start - 1)) } else { seq![] }));
        assert(terminated(segs) == terminated(segs.drop_last()) + trim_end(segs.last()) + seq!['\n']);
        assert(lines_of(source@) == segs);
    }
    out
}

proof fn lemma_trim_end_idempotent(s: Seq<char>)
    ensures
        trim_end(trim_end(s)) == trim_end(s),
    decreases s.len(),
{
    if s.len() > 0 && is_whitespace(s.last()) {
        lemma_trim_end_idempotent(s.drop_last());
    }
}

proof fn lemma_trim_end_prefix(s: Seq<char>)
    ensures
        trim_end(s).len() <= s.len(),
        trim_end(s) == s.subrange(0, trim_end(s).len() as int),
    decreases s.len(),
{
    if s.len() > 0 && is_whitespace(s.last()) {
        lemma_trim_end_prefix(s.drop_last());
        assert(s.drop_last().subrange(0, trim_end(s).len() as int) =~= s.subrange(0, trim_end(s).len() as int));
    } else {
        assert(s.subrange(0, s.len() as int) =~= s);
    }
}

pub open spec fn newline_free(s: Seq<char>) -> bool {
    forall|j: int| 0 <= j < s.len() ==> s[j] != '\n'
}

proof fn lemma_segments_newline_free(s: Seq<char>)
    ensures
        segments(s).len() > 0,
        forall|k: int| 0 <= k < segments(s).len() ==> newline_free(#[trigger] segments(s)[k]),
    decreases s.len(),
{
    match last_newline(s, s.len() as int) {
        Some(i) => {
            if 0 <= i < s.len() {
                lemma_segments_newline_free(s.subrange(0, i));
                lemma_after_last_newline(s, s.len() as int);
            } else {
                lemma_no_newline_when_none(s, s.len() as int);
            }
        },
        None => {
            lemma_no_newline_when_none(s, s.len() as int);
        },
    }
}

proof fn lemma_after_last_newline(s: Seq<char>, end: int)
    requires
        0 <= end <= s.len(),
        last_newline(s, end) matches Some(i) && 0 <= i < s.len(),
    ensures
        forall|j: int| last_newline(s, end)->0 < j < end ==> s[j] != '\n',
        last_newline(s, end)->0 < end,
    decreases end,
{
    if end > 0 && s[end - 1] != '\n' {
        lemma_after_last_newline(s, end - 1);
    }
}

proof fn lemma_no_newline_when_none(s: Seq<char>, end: int)
    requires
        0 <= end <= s.len(),
        !(last_newline(s, end) matches Some(i) && 0 <= i < s.len()),
    ensures
        forall|j: int| 0 <= j < end ==> s[j] != '\n',
    decreases end,
{
    if end > 0 {
        lemma_no_newline_when_none(s, end - 1);
    }
}

proof fn lemma_trim_end_newline_free(s: Seq<char>)
    requires
        newline_free(s),
    ensures
        newline_free(trim_end(s)),
{
    lemma_trim_end_prefix(s);
}

/// Splitting the text that terminates newline-free lines gives those lines back, trimmed.
proof fn lemma_segments_of_terminated(lines: Seq<Seq<char>>)
    requires
        lines.len() > 0,
        forall|k: int| 0 <= k < lines.len() ==> newline_free(#[trigger] lines[k]),
    ensures
        terminated(lines).len() > 0,
        terminated(lines).last() == '\n',
        segments(terminated(lines).drop_last()) == lines.map_values(|l: Seq<char>| trim_end(l)),
    decreases lines.len(),
{
    let prev = lines.drop_last();
    let t = trim_end(lines.last());
    lemma_trim_end_newline_free(lines.last());
    let whole = terminated(lines);
    assert(whole == terminated(prev) + t + seq!['\n']);
    let body = whole.drop_last();
    assert(body =~= terminated(prev) + t);
    if prev.len() == 0 {
        assert(body =~= t);
        lemma_no_newline(body, body.len() as int);
        assert(lines.map_values(|l: Seq<char>| trim_end(l)) =~= seq![t]);
    } else {
        assert forall|k: int| 0 <= k < prev.len() implies newline_free(#[trigger] prev[k]) by {
            assert(prev[k] == lines[k]);
        }
        lemma_segments_of_terminated(prev);
        let p = terminated(prev).len() as int;
        assert(body[p - 1] == '\n');
        assert forall|j: int| p <= j < body.len() implies body[j] != '\n' by {
            assert(body[j] == t[j - p]);
        }
        lemma_last_newline_at(body, p, body.len() as int);
        assert(body.subrange(0, p - 1) =~= terminated(prev).drop_last());
        assert(body.subrange(p, body.len() as int) =~= t);
        assert(lines.map_values(|l: Seq<char>| trim_end(l)) =~= prev.map_values(|l: Seq<char>| trim_end(l)).push(t));
    }
}

proof fn lemma_terminated_trimmed(lines: Seq<Seq<char>>)
    ensures
        terminated(lines.map_values(|l: Seq<char>| trim_end(l))) == terminated(lines),
    decreases lines.len(),
{
    if lines.len() > 0 {
        let m = lines.map_values(|l: Seq<char>| trim_end(l));
        assert(m.drop_last() =~= lines.drop_last().map_values(|l: Seq<char>| trim_end(l)));
        lemma_terminated_trimmed(lines.drop_last());
        lemma_trim_end_idempotent(lines.last());
    }
}

/// Formatting is idempotent: a formatted source formats to itself.
pub proof fn lemma_format_idempotent(s: Seq<char>)
    ensures
        formatted(formatted(s)) == formatted(s),
{
    let lines = lines_of(s);
    if lines.len() == 0 {
        let f = seq!['\n'];
        assert(f.drop_last() =~= Seq::<char>::empty());
        lemma_no_newline(Seq::<char>::empty(), 0);
        assert(segments(Seq::<char>::empty()) == seq![Seq::<char>::empty()]);
        assert(lines_of(f) == seq![Seq::<char>::empty()]);
        let e = seq![Seq::<char>::empty()];
        assert(e.drop_last() =~= Seq::<Seq<char>>::empty());
        assert(trim_end(Seq::<char>::empty()) == Seq::<char>::empty());
        assert(terminated(Seq::<Seq<char>>::empty()) == Seq::<char>::empty());
        assert(e.last() == Seq::<char>::empty());
        assert(terminated(e) =~= seq!['\n']);
    } else {
        if s.last() == '\n' {
            lemma_segments_newline_free(s.drop_last());
        } else {
            lemma_segments_newline_free(s);
        }
        lemma_segments_of_terminated(lines);
        lemma_terminated_trimmed(lines);
        let f = terminated(lines);
        assert(lines_of(f) == lines.map_values(|l: Seq<char>| trim_end(l)));
    }
}

/// The IR program that lowering produces from `program`: one function per source function,
/// with its name and parameters, and exactly the instructions `lowered_body` gives, each
/// string of them taken by its text.
pub open spec fn lowered_from(program: Program, ir: IrProgram) -> bool {
    &&& ir.functions@.len() == program.functions@.len()
    &&& forall|k: int| 0 <= k < program.functions@.len()
        ==> crate::lower::lowers_function(#[trigger] program.functions@[k], ir.functions@[k])
    &&& forall|k: int| 0 <= k < program.functions@.len()
        ==> crate::lowering::canon_all(ir.functions@[k].instructions@)
            == crate::lowering::lowered_body(program, #[trigger] program.functions@[k])
}

proof fn lemma_text_view(s: String)
    ensures
        text(s@)@ == s@,
{
    assert(exists|t: String| t@ == s@) by {
        assert(s@ == s@);
    }
}

proof fn lemma_id_vec_view(v: Vec<crate::ir::ValueId>)
    ensures
        id_vec(v@)@ == v@,
{
    assert(exists|t: Vec<crate::ir::ValueId>| t@ == v@) by {
        assert(v@ == v@);
    }
}

/// An instruction and its canonical form ask for the same slots, resolve in the same
/// layouts and reserve the same aggregate buffers.
proof fn lemma_canon_emits_alike(i: Instruction)
    ensures
        instruction_requests(canon(i)) == instruction_requests(i),
        forall|layout: LayoutView| instruction_resolves(layout, canon(i)) == instruction_resolves(layout, i),
        forall|layout: LayoutView, abi: crate::target::Abi|
            #[trigger] crate::x86_64::instruction_text(layout, abi, canon(i)) == crate::x86_64::instruction_text(layout, abi, i),
        forall|program: IrProgram, name: Seq<char>|
            #[trigger] crate::x86_64::instruction_needs(program, canon(i), name) == crate::x86_64::instruction_needs(program, i, name),
        i matches Instruction::StringConst { label, value, .. } ==> canon(i) matches Instruction::StringConst {
            label: l,
            value: v,
            ..
        } && l@ == label@ && v@ == value@,
        i is StringConst <==> canon(i) is StringConst,
        i is CallAggregate <==> canon(i) is CallAggregate,
        i matches Instruction::CallAggregate { dst, buffer, .. } ==> canon(i) matches Instruction::CallAggregate {
            dst: d,
            buffer: b,
            ..
        } && d@ == dst@ && b == buffer,
{
    match i {
        Instruction::StringConst { label, value, .. } => {
            lemma_text_view(label);
            lemma_text_view(value);
        },
        Instruction::Load { local, .. } => lemma_text_view(local),
        Instruction::AddressOf { local, .. } => lemma_text_view(local),
        Instruction::Store { local, .. } => {
            lemma_text_view(local);
            assert(instruction_requests(canon(i)) =~= instruction_requests(i));
        },
        Instruction::Jump { label } => lemma_text_view(label),
        Instruction::JumpIfZero { label, .. } => lemma_text_view(label),
        Instruction::Label { name } => lemma_text_view(name),
        Instruction::Call { function, args, .. } => {
            lemma_text_view(function);
            lemma_id_vec_view(args);
        },
        Instruction::CallAggregate { dst, function, args, .. } => {
            lemma_text_view(function);
            lemma_id_vec_view(args);
            lemma_id_vec_view(dst);
            assert(instruction_requests(canon(i)) =~= instruction_requests(i));
        },
        Instruction::ReturnAggregate { values } => lemma_id_vec_view(values),
        _ => {},
    }
}

proof fn lemma_canon_all_drop_last(s: Seq<Instruction>)
    requires
        s.len() > 0,
    ensures
        canon_all(s).drop_last() == canon_all(s.drop_last()),
        canon_all(s).last() == canon(s.last()),
{
    assert(canon_all(s).drop_last() =~= canon_all(s.drop_last()));
}

/// Slot requests and aggregate buffers read instructions only by their contents.
proof fn lemma_canon_all_layout(s: Seq<Instruction>, start: int)
    ensures
        instructions_requests(canon_all(s)) == instructions_requests(s),
        assign_buffers(canon_all(s), start) == assign_buffers(s, start),
        buffer_demand(canon_all(s)) == buffer_demand(s),
    decreases s.len(),
{
    if s.len() > 0 {
        lemma_canon_all_drop_last(s);
        lemma_canon_all_layout(s.drop_last(), start);
        lemma_canon_emits_alike(s.last());
    } else {
        assert(canon_all(s).len() == 0);
    }
}

/// Two functions that differ only in which strings and id vectors of equal contents they
/// hold are both emittable or both not.
proof fn lemma_emittable_function_canon(a: IrFunction, b: IrFunction)
    requires
        a.params@.map_values(|p: String| p@) == b.params@.map_values(|p: String| p@),
        canon_all(a.instructions@) == canon_all(b.instructions@),
    ensures
        emittable_function(a) == emittable_function(b),
{
    lemma_canon_all_layout(a.instructions@, 0);
    lemma_canon_all_layout(b.instructions@, 0);
    assert forall|j: int| 0 <= j < a.instructions@.len() || 0 <= j < b.instructions@.len()
        implies #[trigger] canon_all(a.instructions@)[j] == canon_all(b.instructions@)[j] by {}
    let pa = a.params@.map_values(|p: String| p@);
    let pb = b.params@.map_values(|p: String| p@);
    assert(pa.len() == a.params@.len() && pb.len() == b.params@.len());
    assert forall|j: int| 0 <= j < a.params@.len() implies param_requests(a.params@)[j] == param_requests(b.params@)[j] by {
        assert(pa[j] == pb[j]);
    }
    assert(param_requests(a.params@) =~= param_requests(b.params@));
    assert(crate::x86_64::layout_requests(a) == crate::x86_64::layout_requests(b));
    let next = crate::x86_64::assign_slots(crate::x86_64::layout_requests(a)).next;
    lemma_canon_all_layout(a.instructions@, next);
    lemma_canon_all_layout(b.instructions@, next);
    let la = crate::x86_64::layout_of(a);
    let lb = crate::x86_64::layout_of(b);
    assert(la == lb);
    assert forall|j: int| 0 <= j < a.instructions@.len()
        implies instruction_resolves(la, #[trigger] a.instructions@[j]) == instruction_resolves(la, b.instructions@[j]) by {
        lemma_canon_emits_alike(a.instructions@[j]);
        lemma_canon_emits_alike(b.instructions@[j]);
        assert(canon_all(a.instructions@)[j] == canon(a.instructions@[j]));
        assert(canon_all(b.instructions@)[j] == canon(b.instructions@[j]));
    }
    assert forall|j: int| 0 <= j < b.instructions@.len()
        implies instruction_resolves(lb, #[trigger] b.instructions@[j]) == instruction_resolves(lb, a.instructions@[j]) by {
        lemma_canon_emits_alike(a.instructions@[j]);
        lemma_canon_emits_alike(b.instructions@[j]);
        assert(canon_all(a.instructions@)[j] == canon(a.instructions@[j]));
        assert(canon_all(b.instructions@)[j] == canon(b.instructions@[j]));
    }
}

/// The layout of a function reads its parameters and instructions only by their contents.
proof fn lemma_layout_canon(a: IrFunction, b: IrFunction)
    requires
        a.params@.map_values(|p: String| p@) == b.params@.map_values(|p: String| p@),
        canon_all(a.instructions@) == canon_all(b.instructions@),
    ensures
        crate::x86_64::layout_of(a) == crate::x86_64::layout_of(b),
{
    lemma_canon_all_layout(a.instructions@, 0);
    lemma_canon_all_layout(b.instructions@, 0);
    let pa = a.params@.map_values(|p: String| p@);
    let pb = b.params@.map_values(|p: String| p@);
    assert(pa.len() == a.params@.len() && pb.len() == b.params@.len());
    assert forall|j: int| 0 <= j < a.params@.len() implies param_requests(a.params@)[j] == param_requests(b.params@)[j] by {
        assert(pa[j] == pb[j]);
    }
    assert(param_requests(a.params@) =~= param_requests(b.params@));
    assert(crate::x86_64::layout_requests(a) == crate::x86_64::layout_requests(b));
    let next = crate::x86_64::assign_slots(crate::x86_64::layout_requests(a)).next;
    lemma_canon_all_layout(a.instructions@, next);
    lemma_canon_all_layout(b.instructions@, next);
}

/// Instruction text and string constants read instructions only by their contents.
proof fn lemma_instructions_text_canon(layout: LayoutView, abi: crate::target::Abi, a: Seq<Instruction>, b: Seq<Instruction>, hi: int)
    requires
        hi <= a.len(),
        hi <= b.len(),
        forall|j: int| 0 <= j < hi ==> canon(#[trigger] a[j]) == canon(b[j]),
    ensures
        crate::x86_64::instructions_text(layout, abi, a, hi) == crate::x86_64::instructions_text(layout, abi, b, hi),
        crate::x86_64::instruction_consts(a, hi) == crate::x86_64::instruction_consts(b, hi),
    decreases hi,
{
    if hi > 0 {
        lemma_instructions_text_canon(layout, abi, a, b, hi - 1);
        assert(canon(a[hi - 1]) == canon(b[hi - 1]));
        lemma_canon_emits_alike(a[hi - 1]);
        lemma_canon_emits_alike(b[hi - 1]);
        assert(crate::x86_64::instruction_text(layout, abi, a[hi - 1]) == crate::x86_64::instruction_text(layout, abi, canon(a[hi - 1])));
        assert(crate::x86_64::instruction_text(layout, abi, b[hi - 1]) == crate::x86_64::instruction_text(layout, abi, canon(b[hi - 1])));
    }
}

proof fn lemma_param_moves_canon(layout: LayoutView, abi: crate::target::Abi, a: Seq<String>, b: Seq<String>, hi: int)
    requires
        a.map_values(|p: String| p@) == b.map_values(|p: String| p@),
        hi <= a.len(),
    ensures
        crate::x86_64::param_moves(layout, abi, a, hi) == crate::x86_64::param_moves(layout, abi, b, hi),
    decreases hi,
{
    if hi > 0 {
        lemma_param_moves_canon(layout, abi, a, b, hi - 1);
        let pa = a.map_values(|p: String| p@);
        let pb = b.map_values(|p: String| p@);
        assert(pa.len() == a.len() && pb.len() == b.len());
        assert(pa[hi - 1] == pb[hi - 1]);
    }
}

/// Two lowerings of one program give the same assembly text and the same external symbols.
proof fn lemma_lowered_text_agree(program: Program, a: IrProgram, b: IrProgram)
    requires
        lowered_from(program, a),
        lowered_from(program, b),
    ensures
        forall|name: Seq<char>| crate::x86_64::is_external(a, name) == crate::x86_64::is_external(b, name),
        forall|abi: crate::target::Abi, runtime_entry: bool, externs: Seq<Seq<char>>|
            crate::x86_64::program_text(a, abi, runtime_entry, externs) == crate::x86_64::program_text(b, abi, runtime_entry, externs),
{
    let n = program.functions@.len() as int;
    assert forall|k: int| 0 <= k < n implies {
        &&& #[trigger] a.functions@[k].name@ == b.functions@[k].name@
        &&& a.functions@[k].params@.map_values(|p: String| p@) == b.functions@[k].params@.map_values(|p: String| p@)
        &&& canon_all(a.functions@[k].instructions@) == canon_all(b.functions@[k].instructions@)
    } by {
        let f = program.functions@[k];
        assert(crate::lower::lowers_function(f, a.functions@[k]));
        assert(crate::lower::lowers_function(f, b.functions@[k]));
        assert(canon_all(a.functions@[k].instructions@) == crate::lowering::lowered_body(program, f));
        assert(canon_all(b.functions@[k].instructions@) == crate::lowering::lowered_body(program, f));
    }
    assert forall|k: int, j: int| 0 <= k < n && 0 <= j < a.functions@[k].instructions@.len()
        implies j < b.functions@[k].instructions@.len()
            && canon(#[trigger] a.functions@[k].instructions@[j]) == canon(b.functions@[k].instructions@[j]) by {
        assert(a.functions@[k].name@ == b.functions@[k].name@);
        let ca = canon_all(a.functions@[k].instructions@);
        let cb = canon_all(b.functions@[k].instructions@);
        assert(ca.len() == a.functions@[k].instructions@.len() && cb.len() == b.functions@[k].instructions@.len());
        assert(ca[j] == cb[j]);
    }
    assert forall|k: int, j: int| 0 <= k < n && 0 <= j < b.functions@[k].instructions@.len()
        implies j < a.functions@[k].instructions@.len()
            && canon(a.functions@[k].instructions@[j]) == canon(#[trigger] b.functions@[k].instructions@[j]) by {
        assert(a.functions@[k].name@ == b.functions@[k].name@);
        let ca = canon_all(a.functions@[k].instructions@);
        let cb = canon_all(b.functions@[k].instructions@);
        assert(ca.len() == a.functions@[k].instructions@.len() && cb.len() == b.functions@[k].instructions@.len());
        assert(ca[j] == cb[j]);
    }
    assert forall|name: Seq<char>| crate::x86_64::defines(a, name) == crate::x86_64::defines(b, name) by {
        if crate::x86_64::defines(a, name) {
            let k = choose|k: int| 0 <= k < a.functions@.len() && (#[trigger] a.functions@[k]).name@ == name;
            assert(a.functions@[k].name@ == b.functions@[k].name@);
        }
        if crate::x86_64::defines(b, name) {
            let k = choose|k: int| 0 <= k < b.functions@.len() && (#[trigger] b.functions@[k]).name@ == name;
            assert(a.functions@[k].name@ == b.functions@[k].name@);
        }
    }
    assert forall|name: Seq<char>| crate::x86_64::is_external(a, name) == crate::x86_64::is_external(b, name) by {
        if crate::x86_64::is_external(a, name) {
            let (k, j) = choose|k: int, j: int| 0 <= k < a.functions@.len() && 0 <= j < a.functions@[k].instructions@.len()
                && crate::x86_64::instruction_needs(a, #[trigger] a.functions@[k].instructions@[j], name);
            let x = a.functions@[k].instructions@[j];
            let y = b.functions@[k].instructions@[j];
            lemma_canon_emits_alike(x);
            lemma_canon_emits_alike(y);
            assert(crate::x86_64::instruction_needs(b, y, name) == crate::x86_64::instruction_needs(b, canon(y), name));
            assert(crate::x86_64::instruction_needs(b, x, name) == crate::x86_64::instruction_needs(b, canon(x), name));
            assert(crate::x86_64::instruction_needs(b, x, name) == crate::x86_64::instruction_needs(a, x, name));
            assert(crate::x86_64::instruction_needs(b, y, name));
        }
        if crate::x86_64::is_external(b, name) {
            let (k, j) = choose|k: int, j: int| 0 <= k < b.functions@.len() && 0 <= j < b.functions@[k].instructions@.len()
                && crate::x86_64::instruction_needs(b, #[trigger] b.functions@[k].instructions@[j], name);
            let x = a.functions@[k].instructions@[j];
            let y = b.functions@[k].instructions@[j];
            lemma_canon_emits_alike(x);
            lemma_canon_emits_alike(y);
            assert(crate::x86_64::instruction_needs(a, y, name) == crate::x86_64::instruction_needs(a, canon(y), name));
            assert(crate::x86_64::instruction_needs(a, x, name) == crate::x86_64::instruction_needs(a, canon(x), name));
            assert(crate::x86_64::instruction_needs(a, y, name) == crate::x86_64::instruction_needs(b, y, name));
            assert(crate::x86_64::instruction_needs(a, x, name));
        }
    }
    lemma_functions_text_canon(a.functions@, b.functions@, n);
}

proof fn lemma_functions_text_canon(a: Seq<IrFunction>, b: Seq<IrFunction>, hi: int)
    requires
        hi <= a.len(),
        hi <= b.len(),
        forall|k: int| 0 <= k < hi ==> {
            &&& #[trigger] a[k].name@ == b[k].name@
            &&& a[k].params@.map_values(|p: String| p@) == b[k].params@.map_values(|p: String| p@)
            &&& canon_all(a[k].instructions@) == canon_all(b[k].instructions@)
        },
    ensures
        forall|abi: crate::target::Abi, runtime_entry: bool|
            crate::x86_64::functions_text(a, abi, runtime_entry, hi) == crate::x86_64::functions_text(b, abi, runtime_entry, hi),
        crate::x86_64::program_consts(a, hi) == crate::x86_64::program_consts(b, hi),
    decreases hi,
{
    if hi > 0 {
        lemma_functions_text_canon(a, b, hi - 1);
        let fa = a[hi - 1];
        let fb = b[hi - 1];
        assert(fa.name@ == fb.name@);
        lemma_layout_canon(fa, fb);
        let ca = canon_all(fa.instructions@);
        let cb = canon_all(fb.instructions@);
        assert(ca.len() == fa.instructions@.len() && cb.len() == fb.instructions@.len());
        assert forall|j: int| 0 <= j < fa.instructions@.len() implies canon(#[trigger] fa.instructions@[j]) == canon(fb.instructions@[j]) by {
            assert(ca[j] == cb[j]);
        }
        let layout = crate::x86_64::layout_of(fa);
        assert forall|abi: crate::target::Abi, runtime_entry: bool|
            crate::x86_64::function_text(fa, abi, runtime_entry) == crate::x86_64::function_text(fb, abi, runtime_entry) by {
            lemma_instructions_text_canon(layout, abi, fa.instructions@, fb.instructions@, fa.instructions@.len() as int);
            let pa = fa.params@.map_values(|p: String| p@);
            assert(pa.len() == fa.params@.len());
            lemma_param_moves_canon(layout, abi, fa.params@, fb.params@, fa.params.len() as int);
        }
        lemma_instructions_text_canon(layout, crate::target::Abi::SystemV, fa.instructions@, fb.instructions@, fa.instructions@.len() as int);
        assert forall|abi: crate::target::Abi, runtime_entry: bool|
            crate::x86_64::functions_text(a, abi, runtime_entry, hi) == crate::x86_64::functions_text(b, abi, runtime_entry, hi) by {
            assert(crate::x86_64::functions_text(a, abi, runtime_entry, hi - 1) == crate::x86_64::functions_text(b, abi, runtime_entry, hi - 1));
            assert(crate::x86_64::function_text(fa, abi, runtime_entry) == crate::x86_64::function_text(fb, abi, runtime_entry));
        }
    }
}

/// Whether a lowered program can be emitted does not depend on which of the IR programs
/// that `lowered_from` admits is taken: they differ only in strings of equal text.
pub proof fn lemma_lowered_emittable_agree(program: Program, a: IrProgram, b: IrProgram)
    requires
        lowered_from(program, a),
        lowered_from(program, b),
    ensures
        emittable_program(a) == emittable_program(b),
{
    assert forall|k: int| 0 <= k < a.functions@.len()
        implies emittable_function(#[trigger] a.functions@[k]) == emittable_function(b.functions@[k]) by {
        let f = program.functions@[k];
        assert(crate::lower::lowers_function(f, a.functions@[k]));
        assert(crate::lower::lowers_function(f, b.functions@[k]));
        assert(canon_all(a.functions@[k].instructions@) == crate::lowering::lowered_body(program, f));
        assert(canon_all(b.functions@[k].instructions@) == crate::lowering::lowered_body(program, f));
        lemma_emittable_function_canon(a.functions@[k], b.functions@[k]);
    }
    assert forall|k: int| 0 <= k < b.functions@.len()
        implies emittable_function(#[trigger] b.functions@[k]) == emittable_function(a.functions@[k]) by {
        let f = program.functions@[k];
        assert(crate::lower::lowers_function(f, a.functions@[k]));
        assert(crate::lower::lowers_function(f, b.functions@[k]));
        assert(canon_all(a.functions@[k].instructions@) == crate::lowering::lowered_body(program, f));
        assert(canon_all(b.functions@[k].instructions@) == crate::lowering::lowered_body(program, f));
        lemma_emittable_function_canon(a.functions@[k], b.functions@[k]);
    }
}

/// Lowers a checked program and emits its NASM assembly for the configured target and
/// entry point; `None` where the lowered program uses a value or local that the emitter
/// cannot give a stack slot.
pub fn compile_to_asm(program: &Program, config: &CompileConfig) -> (r: Option<String>)
    ensures
        r matches Some(text) ==> exists|ir: IrProgram| #[trigger] lowered_from(*program, ir)
            && emittable_program(ir) && is_program_assembly(ir, config.target.abi, config.runtime_entry, text@),
        r matches Some(text) ==> forall|ir: IrProgram| #[trigger] lowered_from(*program, ir)
            ==> is_program_assembly(ir, config.target.abi, config.runtime_entry, text@),
        r is None ==> exists|ir: IrProgram| #[trigger] lowered_from(*program, ir) && !emittable_program(ir),
        r is Some <==> forall|ir: IrProgram| #[trigger] lowered_from(*program, ir) ==> emittable_program(ir),
        r is None <==> forall|ir: IrProgram| #[trigger] lowered_from(*program, ir) ==> !emittable_program(ir),
{
    let ir = crate::lower::lower(program);
    assert(lowered_from(*program, ir));
    assert forall|other: IrProgram| #[trigger] lowered_from(*program, other)
        implies emittable_program(other) == emittable_program(ir) by {
        lemma_lowered_emittable_agree(*program, other, ir);
    }
    if !is_emittable_program(&ir) {
        return None;
    }
    let text = emit_nasm_for_target_with_runtime_entry(&ir, &config.target, config.runtime_entry);
    assert forall|other: IrProgram| #[trigger] lowered_from(*program, other)
        implies is_program_assembly(other, config.target.abi, config.runtime_entry, text@) by {
        lemma_lowered_text_agree(*program, ir, other);
        let externs = choose|externs: Seq<Seq<char>>| #![trigger crate::x86_64::program_text(ir, config.target.abi, config.runtime_entry, externs)]
            crate::x86_64::sorted_names(externs) && externs.to_set() == Set::new(|n: Seq<char>| crate::x86_64::is_external(ir, n))
                && text@ == crate::x86_64::program_text(ir, config.target.abi, config.runtime_entry, externs);
        assert(Set::new(|n: Seq<char>| crate::x86_64::is_external(ir, n)) =~= Set::new(|n: Seq<char>| crate::x86_64::is_external(other, n)));
        assert(crate::x86_64::program_text(other, config.target.abi, config.runtime_entry, externs) == text@);
    }
    Some(text)
}

} // verus!
