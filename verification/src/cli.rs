//! The command line of the compiler: its subcommands and how an argument list selects one.
use vstd::prelude::*;
use vstd::string::StrSliceExecFns;
use crate::text::str_eq;

verus! {

/// A parsed command line.
pub struct Cli {
    pub command: Command,
}

/// The compiler's subcommands. Paths are kept as the text the command line gave.
pub enum Command {
    Check { input: String, target: Option<String> },
    EmitAsm { input: String, output: String, target: Option<String> },
    EmitObj { input: String, output: String, target: Option<String> },
    Build {
        input: String,
        output: Option<String>,
        target: Option<String>,
        nasm: String,
        linker: Option<String>,
        keep_temps: bool,
    },
    Run { input: String, target: Option<String>, nasm: String, linker: Option<String>, args: Vec<String> },
    Fmt { input: String },
    Test { path: String },
    DumpTokens { input: String },
    DumpAst { input: String },
    DumpIr { input: String },
}

/// The subcommand names.
#[derive(Debug, Clone, Copy, PartialEq, Eq, Structural)]
pub enum CommandKind {
    Check,
    EmitAsm,
    EmitObj,
    Build,
    Run,
    Fmt,
    Test,
    DumpTokens,
    DumpAst,
    DumpIr,
}

/// The subcommand that a word names.
pub open spec fn kind_named(word: Seq<char>) -> Option<CommandKind> {
    if word == "check"@ { Some(CommandKind::Check) }
    else if word == "emit-asm"@ { Some(CommandKind::EmitAsm) }
    else if word == "emit-obj"@ { Some(CommandKind::EmitObj) }
    else if word == "build"@ { Some(CommandKind::Build) }
    else if word == "run"@ { Some(CommandKind::Run) }
    else if word == "fmt"@ { Some(CommandKind::Fmt) }
    else if word == "test"@ { Some(CommandKind::Test) }
    else if word == "dump-tokens"@ { Some(CommandKind::DumpTokens) }
    else if word == "dump-ast"@ { Some(CommandKind::DumpAst) }
    else if word == "dump-ir"@ { Some(CommandKind::DumpIr) }
    else { None }
}

/// The options that take a value.
#[derive(Debug, Clone, Copy, PartialEq, Eq, Structural)]
pub enum ValueOption {
    Target,
    Output,
    Nasm,
    Linker,
}

/// The option that a word spells in full (`--target`, `--output` or `-o`, `--nasm`, `--linker`).
pub open spec fn option_named(word: Seq<char>) -> Option<ValueOption> {
    if word == "--target"@ { Some(ValueOption::Target) }
    else if word == "--output"@ || word == "-o"@ { Some(ValueOption::Output) }
    else if word == "--nasm"@ { Some(ValueOption::Nasm) }
    else if word == "--linker"@ { Some(ValueOption::Linker) }
    else { None }
}

/// `word` begins with `prefix`.
pub open spec fn has_prefix(word: Seq<char>, prefix: Seq<char>) -> bool {
    prefix.len() <= word.len() && word.subrange(0, prefix.len() as int) == prefix
}

/// The option and value of a word of the form `--name=value`.
pub open spec fn inline_option(word: Seq<char>) -> Option<(ValueOption, Seq<char>)> {
    if has_prefix(word, "--target="@) { Some((ValueOption::Target, word.subrange(9, word.len() as int))) }
    else if has_prefix(word, "--output="@) { Some((ValueOption::Output, word.subrange(9, word.len() as int))) }
    else if has_prefix(word, "--nasm="@) { Some((ValueOption::Nasm, word.subrange(7, word.len() as int))) }
    else if has_prefix(word, "--linker="@) { Some((ValueOption::Linker, word.subrange(9, word.len() as int))) }
    else { None }
}

/// A word that looks like an option: a dash followed by at least one character.
pub open spec fn looks_like_option(word: Seq<char>) -> bool {
    word.len() > 1 && word[0] == '-'
}

/// What the words after the subcommand set.
pub struct ScanState {
    pub positionals: Seq<Seq<char>>,
    pub target: Option<Seq<char>>,
    pub output: Option<Seq<char>>,
    pub nasm: Option<Seq<char>>,
    pub linker: Option<Seq<char>>,
    pub keep_temps: bool,
    pub trailing: Option<Seq<Seq<char>>>,
    pub failed: bool,
}

pub open spec fn empty_scan() -> ScanState {
    ScanState {
        positionals: seq![],
        target: None,
        output: None,
        nasm: None,
        linker: None,
        keep_temps: false,
        trailing: None,
        failed: false,
    }
}

/// Sets an option; giving the same option twice is an error.
pub open spec fn set_option(s: ScanState, option: ValueOption, value: Seq<char>) -> ScanState {
    match option {
        ValueOption::Target => if s.target is Some { ScanState { failed: true, ..s } } else { ScanState { target: Some(value), ..s } },
        ValueOption::Output => if s.output is Some { ScanState { failed: true, ..s } } else { ScanState { output: Some(value), ..s } },
        ValueOption::Nasm => if s.nasm is Some { ScanState { failed: true, ..s } } else { ScanState { nasm: Some(value), ..s } },
        ValueOption::Linker => if s.linker is Some { ScanState { failed: true, ..s } } else { ScanState { linker: Some(value), ..s } },
    }
}

/// Reads the words from `i` on: `--` hands every later word over as trailing arguments,
/// `--keep-temps` is a switch, a value option takes the next word or its `=` part, any other
/// word that starts with a dash is an error, and the rest are positional.
pub open spec fn scan(words: Seq<Seq<char>>, i: int, s: ScanState) -> ScanState
    decreases words.len() - i,
{
    if i >= words.len() || i < 0 || s.failed {
        s
    } else {
        let w = words[i];
        if w == "--"@ {
            ScanState { trailing: Some(words.subrange(i + 1, words.len() as int)), ..s }
        } else if w == "--keep-temps"@ {
            if s.keep_temps { ScanState { failed: true, ..s } } else { scan(words, i + 1, ScanState { keep_temps: true, ..s }) }
        } else if option_named(w) is Some {
            if i + 1 < words.len() {
                scan(words, i + 2, set_option(s, option_named(w)->0, words[i + 1]))
            } else {
                ScanState { failed: true, ..s }
            }
        } else if inline_option(w) is Some {
            scan(words, i + 1, set_option(s, (inline_option(w)->0).0, (inline_option(w)->0).1))
        } else if looks_like_option(w) {
            ScanState { failed: true, ..s }
        } else {
            scan(words, i + 1, ScanState { positionals: s.positionals.push(w), ..s })
        }
    }
}

/// Whether a subcommand accepts what the scan found: exactly one positional argument, an
/// output where one is required, and no option that the subcommand does not take.
pub open spec fn accepts(kind: CommandKind, s: ScanState) -> bool {
    &&& !s.failed
    &&& s.positionals.len() == 1
    &&& (s.trailing is Some ==> kind is Run)
    &&& (s.keep_temps ==> kind is Build)
    &&& (s.nasm is Some ==> kind is Build || kind is Run)
    &&& (s.linker is Some ==> kind is Build || kind is Run)
    &&& (s.output is Some ==> kind is EmitAsm || kind is EmitObj || kind is Build)
    &&& (kind is EmitAsm || kind is EmitObj ==> s.output is Some)
    &&& (s.target is Some ==> kind is Check || kind is EmitAsm || kind is EmitObj || kind is Build || kind is Run)
}

/// The words of an argument list after the program name and the subcommand.
pub open spec fn option_words(args: Seq<Seq<char>>) -> Seq<Seq<char>> {
    args.subrange(2, args.len() as int)
}

/// The subcommand that an argument list selects and what its words set, where the list
/// forms a valid command line.
pub open spec fn parse_spec(args: Seq<Seq<char>>) -> Option<(CommandKind, ScanState)> {
    if args.len() < 2 {
        None
    } else {
        match kind_named(args[1]) {
            None => None,
            Some(kind) => {
                let s = scan(option_words(args), 0, empty_scan());
                if accepts(kind, s) { Some((kind, s)) } else { None }
            },
        }
    }
}

/// The subcommand of a parsed command.
pub open spec fn kind_of(command: Command) -> CommandKind {
    match command {
        Command::Check { .. } => CommandKind::Check,
        Command::EmitAsm { .. } => CommandKind::EmitAsm,
        Command::EmitObj { .. } => CommandKind::EmitObj,
        Command::Build { .. } => CommandKind::Build,
        Command::Run { .. } => CommandKind::Run,
        Command::Fmt { .. } => CommandKind::Fmt,
        Command::Test { .. } => CommandKind::Test,
        Command::DumpTokens { .. } => CommandKind::DumpTokens,
        Command::DumpAst { .. } => CommandKind::DumpAst,
        Command::DumpIr { .. } => CommandKind::DumpIr,
    }
}

pub open spec fn string_option(o: Option<String>) -> Option<Seq<char>> {
    match o {
        Some(s) => Some(s@),
        None => None,
    }
}

/// The input path of a command.
pub open spec fn input_of(command: Command) -> Seq<char> {
    match command {
        Command::Check { input, .. } => input@,
        Command::EmitAsm { input, .. } => input@,
        Command::EmitObj { input, .. } => input@,
        Command::Build { input, .. } => input@,
        Command::Run { input, .. } => input@,
        Command::Fmt { input } => input@,
        Command::Test { path } => path@,
        Command::DumpTokens { input } => input@,
        Command::DumpAst { input } => input@,
        Command::DumpIr { input } => input@,
    }
}

/// A command carries what the scan found: its input path (the one positional word), its
/// target, its output path, its tools, its switch and its trailing arguments (`nasm`
/// defaults to `nasm`).
pub open spec fn carries(command: Command, s: ScanState) -> bool {
    &&& s.positionals.len() == 1 && input_of(command) == s.positionals[0]
    &&& carries_options(command, s)
}

/// The options a command carries.
pub open spec fn carries_options(command: Command, s: ScanState) -> bool {
    match command {
        Command::Check { target, .. } => string_option(target) == s.target,
        Command::EmitAsm { output, target, .. } => string_option(target) == s.target && s.output == Some(output@),
        Command::EmitObj { output, target, .. } => string_option(target) == s.target && s.output == Some(output@),
        Command::Build { output, target, nasm, linker, keep_temps, .. } => {
            &&& string_option(output) == s.output
            &&& string_option(target) == s.target
            &&& nasm@ == (if s.nasm is Some { s.nasm->0 } else { "nasm"@ })
            &&& string_option(linker) == s.linker
            &&& keep_temps == s.keep_temps
        },
        Command::Run { target, nasm, linker, args, .. } => {
            &&& string_option(target) == s.target
            &&& nasm@ == (if s.nasm is Some { s.nasm->0 } else { "nasm"@ })
            &&& string_option(linker) == s.linker
            &&& args@.map_values(|a: String| a@) == (if s.trailing is Some { s.trailing->0 } else { seq![] })
        },
        _ => true,
    }
}

/// Why an argument list is not a command line.
#[derive(Debug, Clone, Copy, PartialEq, Eq, Structural)]
pub enum CliError {
    MissingSubcommand,
    UnknownSubcommand,
    InvalidArguments,
}

/// The view of an argument list.
pub open spec fn words_of(args: Seq<&str>) -> Seq<Seq<char>> {
    args.map_values(|a: &str| a@)
}

fn starts_with(word: &str, prefix: &str) -> (r: bool)
    ensures
        r == has_prefix(word@, prefix@),
{
    let n = prefix.unicode_len();
    let m = word.unicode_len();
    if n > m {
        return false;
    }
    let mut i: usize = 0;
    while i < n
        invariant
            n == prefix@.len(),
            m == word@.len(),
            n <= m,
            i <= n,
            forall|j: int| 0 <= j < i ==> word@[j] == prefix@[j],
        decreases n - i,
    {
        if word.get_char(i) != prefix.get_char(i) {
            assert(word@.subrange(0, n as int)[i as int] != prefix@[i as int]);
            return false;
        }
        i = i + 1;
    }
    assert(word@.subrange(0, n as int) =~= prefix@);
    true
}

fn kind_from_word(word: &str) -> (r: Option<CommandKind>)
    ensures
        r == kind_named(word@),
{
    if str_eq(word, "check") { Some(CommandKind::Check) }
    else if str_eq(word, "emit-asm") { Some(CommandKind::EmitAsm) }
    else if str_eq(word, "emit-obj") { Some(CommandKind::EmitObj) }
    else if str_eq(word, "build") { Some(CommandKind::Build) }
    else if str_eq(word, "run") { Some(CommandKind::Run) }
    else if str_eq(word, "fmt") { Some(CommandKind::Fmt) }
    else if str_eq(word, "test") { Some(CommandKind::Test) }
    else if str_eq(word, "dump-tokens") { Some(CommandKind::DumpTokens) }
    else if str_eq(word, "dump-ast") { Some(CommandKind::DumpAst) }
    else if str_eq(word, "dump-ir") { Some(CommandKind::DumpIr) }
    else { None }
}

fn option_from_word(word: &str) -> (r: Option<ValueOption>)
    ensures
        r == option_named(word@),
{
    if str_eq(word, "--target") { Some(ValueOption::Target) }
    else if str_eq(word, "--output") || str_eq(word, "-o") { Some(ValueOption::Output) }
    else if str_eq(word, "--nasm") { Some(ValueOption::Nasm) }
    else if str_eq(word, "--linker") { Some(ValueOption::Linker) }
    else { None }
}

fn inline_from_word<'a>(word: &'a str) -> (r: Option<(ValueOption, &'a str)>)
    ensures
        match inline_option(word@) {
            Some((o, v)) => match r { Some(p) => p.0 == o && p.1@ == v, None => false },
            None => r is None,
        },
{
    proof {
        reveal_strlit("--target=");
        reveal_strlit("--output=");
        reveal_strlit("--nasm=");
        reveal_strlit("--linker=");
    }
    let n = word.unicode_len();
    if starts_with(word, "--target=") {
        Some((ValueOption::Target, word.substring_char(9, n)))
    } else if starts_with(word, "--output=") {
        Some((ValueOption::Output, word.substring_char(9, n)))
    } else if starts_with(word, "--nasm=") {
        Some((ValueOption::Nasm, word.substring_char(7, n)))
    } else if starts_with(word, "--linker=") {
        Some((ValueOption::Linker, word.substring_char(9, n)))
    } else {
        None
    }
}

/// The exec form of a scan.
struct Scan {
    positionals: Vec<String>,
    target: Option<String>,
    output: Option<String>,
    nasm: Option<String>,
    linker: Option<String>,
    keep_temps: bool,
    trailing: Option<Vec<String>>,
    failed: bool,
}

impl Scan {
    spec fn view(&self) -> ScanState {
        ScanState {
            positionals: self.positionals@.map_values(|s: String| s@),
            target: string_option(self.target),
            output: string_option(self.output),
            nasm: string_option(self.nasm),
            linker: string_option(self.linker),
            keep_temps: self.keep_temps,
            trailing: match self.trailing {
                Some(t) => Some(t@.map_values(|s: String| s@)),
                None => None,
            },
            failed: self.failed,
        }
    }

    fn set(&mut self, option: ValueOption, value: &str)
        ensures
            final(self).view() == set_option(old(self).view(), option, value@),
    {
        match option {
            ValueOption::Target => if self.target.is_some() { self.failed = true; } else { self.target = Some(String::from_str(value)); },
            ValueOption::Output => if self.output.is_some() { self.failed = true; } else { self.output = Some(String::from_str(value)); },
            ValueOption::Nasm => if self.nasm.is_some() { self.failed = true; } else { self.nasm = Some(String::from_str(value)); },
            ValueOption::Linker => if self.linker.is_some() { self.failed = true; } else { self.linker = Some(String::from_str(value)); },
        }
    }
}

proof fn lemma_scan_failed(words: Seq<Seq<char>>, i: int, s: ScanState)
    requires
        s.failed,
    ensures
        scan(words, i, s) == s,
    decreases words.len() - i,
{
}

fn scan_words(args: &[&str]) -> (r: Scan)
    requires
        args@.len() >= 2,
    ensures
        r.view() == scan(option_words(words_of(args@)), 0, empty_scan()),
{
    let ghost words = option_words(words_of(args@));
    let mut s = Scan {
        positionals: Vec::new(),
        target: None,
        output: None,
        nasm: None,
        linker: None,
        keep_temps: false,
        trailing: None,
        failed: false,
    };
    assert(s.view().positionals =~= seq![]);
    let mut i: usize = 2;
    while i < args.len() && !s.failed
        invariant
            2 <= i <= args@.len(),
            words == option_words(words_of(args@)),
            words.len() == args@.len() - 2,
            forall|j: int| 0 <= j < words.len() ==> #[trigger] words[j] == args@[j + 2]@,
            scan(words, i - 2, s.view()) == scan(words, 0, empty_scan()),
            s.trailing is None,
        decreases args@.len() - i,
    {
        let w: &str = args[i];
        let ghost k = (i - 2) as int;
        assert(words[k] == w@);
        proof {
            reveal_strlit("--");
            reveal_strlit("--keep-temps");
        }
        if str_eq(w, "--") {
            let mut trailing: Vec<String> = Vec::new();
            let mut j = i + 1;
            while j < args.len()
                invariant
                    i + 1 <= j <= args@.len(),
                    trailing@.len() == j - i - 1,
                    forall|q: int| 0 <= q < trailing@.len() ==> #[trigger] trailing@[q]@ == args@[i + 1 + q]@,
                decreases args@.len() - j,
            {
                trailing.push(String::from_str(args[j]));
                j = j + 1;
            }
            assert(trailing@.map_values(|t: String| t@) =~= words.subrange(k + 1, words.len() as int));
            s.trailing = Some(trailing);
            return s;
        } else if str_eq(w, "--keep-temps") {
            if s.keep_temps {
                s.failed = true;
            } else {
                s.keep_temps = true;
            }
            i = i + 1;
        } else if let Some(option) = option_from_word(w) {
            if i + 1 < args.len() {
                assert(words[k + 1] == args@[i + 1]@);
                s.set(option, args[i + 1]);
                i = i + 2;
            } else {
                s.failed = true;
                i = i + 1;
            }
        } else if let Some((option, value)) = inline_from_word(w) {
            s.set(option, value);
            i = i + 1;
        } else if w.unicode_len() > 1 && w.get_char(0) == '-' {
            s.failed = true;
            i = i + 1;
        } else {
            let ghost before = s.view();
            s.positionals.push(String::from_str(w));
            assert(s.view().positionals =~= before.positionals.push(w@));
            i = i + 1;
        }
    }
    proof {
        if s.failed {
            lemma_scan_failed(words, i - 2, s.view());
        } else {
            assert(i - 2 >= words.len());
        }
    }
    s
}

/// The error for an argument list that is not a command line.
pub open spec fn parse_error(args: Seq<Seq<char>>) -> CliError {
    if args.len() < 2 {
        CliError::MissingSubcommand
    } else if kind_named(args[1]) is None {
        CliError::UnknownSubcommand
    } else {
        CliError::InvalidArguments
    }
}

/// A command that an argument list parses to: the subcommand it names, carrying what its
/// words set.
pub open spec fn parses_to(args: Seq<Seq<char>>, command: Command) -> bool {
    &&& parse_spec(args) is Some
    &&& kind_of(command) == (parse_spec(args)->0).0
    &&& carries(command, (parse_spec(args)->0).1)
}

fn nasm_or_default(value: Option<String>) -> (r: String)
    ensures
        r@ == (if value is Some { value->0@ } else { "nasm"@ }),
{
    match value {
        Some(v) => v,
        None => String::from_str("nasm"),
    }
}

impl Cli {
    /// Parses an argument list whose first word is the program name.
    pub fn try_parse_from(args: &[&str]) -> (r: Result<Cli, CliError>)
        ensures
            match r {
                Ok(cli) => parses_to(words_of(args@), cli.command),
                Err(e) => parse_spec(words_of(args@)) is None && e == parse_error(words_of(args@)),
            },
    {
        let ghost words = words_of(args@);
        if args.len() < 2 {
            return Err(CliError::MissingSubcommand);
        }
        assert(words[1] == args@[1]@);
        let kind = match kind_from_word(args[1]) {
            Some(kind) => kind,
            None => { return Err(CliError::UnknownSubcommand); },
        };
        let s = scan_words(args);
        let ghost sv = s.view();
        proof {
            assert(option_words(words_of(args@)) == option_words(words));
        }
        let trailing_ok = match &s.trailing { Some(_) => matches!(kind, CommandKind::Run), None => true };
        let ok = !s.failed
            && s.positionals.len() == 1
            && trailing_ok
            && (!s.keep_temps || matches!(kind, CommandKind::Build))
            && (s.nasm.is_none() || matches!(kind, CommandKind::Build) || matches!(kind, CommandKind::Run))
            && (s.linker.is_none() || matches!(kind, CommandKind::Build) || matches!(kind, CommandKind::Run))
            && (s.output.is_none() || matches!(kind, CommandKind::EmitAsm) || matches!(kind, CommandKind::EmitObj) || matches!(kind, CommandKind::Build))
            && (!(matches!(kind, CommandKind::EmitAsm) || matches!(kind, CommandKind::EmitObj)) || s.output.is_some())
            && (s.target.is_none() || matches!(kind, CommandKind::Check) || matches!(kind, CommandKind::EmitAsm)
                || matches!(kind, CommandKind::EmitObj) || matches!(kind, CommandKind::Build) || matches!(kind, CommandKind::Run));
        if !ok {
            return Err(CliError::InvalidArguments);
        }
        let input = s.positionals[0].clone();
        let command = match kind {
            CommandKind::Check => Command::Check { input, target: s.target },
            CommandKind::EmitAsm => {
                let output = match &s.output { Some(o) => o.clone(), None => String::new() };
                Command::EmitAsm { input, output, target: s.target }
            },
            CommandKind::EmitObj => {
                let output = match &s.output { Some(o) => o.clone(), None => String::new() };
                Command::EmitObj { input, output, target: s.target }
            },
            CommandKind::Build => {
                let output = s.output;
                Command::Build {
                    input,
                    output,
                    target: s.target,
                    nasm: nasm_or_default(s.nasm),
                    linker: s.linker,
                    keep_temps: s.keep_temps,
                }
            },
            CommandKind::Run => {
                let args = match s.trailing { Some(t) => t, None => Vec::new() };
                proof {
                    assert(sv.trailing is None ==> args@.map_values(|a: String| a@) =~= Seq::<Seq<char>>::empty());
                }
                Command::Run { input, target: s.target, nasm: nasm_or_default(s.nasm), linker: s.linker, args }
            },
            CommandKind::Fmt => Command::Fmt { input },
            CommandKind::Test => Command::Test { path: input },
            CommandKind::DumpTokens => Command::DumpTokens { input },
            CommandKind::DumpAst => Command::DumpAst { input },
            CommandKind::DumpIr => Command::DumpIr { input },
        };
        Ok(Cli { command })
    }

    /// Parses an argument list that forms a valid command line.
    pub fn parse_from<const N: usize>(args: [&str; N]) -> (cli: Cli)
        requires
            parse_spec(words_of(args@)) is Some,
        ensures
            parses_to(words_of(args@), cli.command),
    {
        match Cli::try_parse_from(args.as_slice()) {
            Ok(cli) => cli,
            Err(_) => {
                proof { assert(false); }
                Cli { command: Command::Fmt { input: String::new() } }
            },
        }
    }
}


/// The word that names each subcommand on the command line: its name in kebab case.
pub open spec fn kind_word(kind: CommandKind) -> Seq<char> {
    match kind {
        CommandKind::Check => "check"@,
        CommandKind::EmitAsm => "emit-asm"@,
        CommandKind::EmitObj => "emit-obj"@,
        CommandKind::Build => "build"@,
        CommandKind::Run => "run"@,
        CommandKind::Fmt => "fmt"@,
        CommandKind::Test => "test"@,
        CommandKind::DumpTokens => "dump-tokens"@,
        CommandKind::DumpAst => "dump-ast"@,
        CommandKind::DumpIr => "dump-ir"@,
    }
}

/// Each subcommand's word selects that subcommand, and a word selects a subcommand only if
/// it is that subcommand's word: `emit-obj` asks for an object file, never for assembly.
pub proof fn lemma_words_select_their_subcommand(word: Seq<char>, kind: CommandKind)
    ensures
        kind_named(kind_word(kind)) == Some(kind),
        kind_named(word) == Some(kind) ==> word == kind_word(kind),
{
    reveal_strlit("check");
    reveal_strlit("emit-asm");
    reveal_strlit("emit-obj");
    reveal_strlit("build");
    reveal_strlit("run");
    reveal_strlit("fmt");
    reveal_strlit("test");
    reveal_strlit("dump-tokens");
    reveal_strlit("dump-ast");
    reveal_strlit("dump-ir");
    match kind {
        CommandKind::Check => {},
        CommandKind::EmitAsm => {
            assert("emit-asm"@.len() != "check"@.len());
        },
        CommandKind::EmitObj => {
            assert("emit-obj"@.len() != "check"@.len());
            assert("emit-obj"@[5] != "emit-asm"@[5]);
        },
        CommandKind::Build => {
            assert("build"@[0] != "check"@[0]);
            assert("build"@.len() != "emit-asm"@.len());
            assert("build"@.len() != "emit-obj"@.len());
        },
        CommandKind::Run => {
            assert("run"@.len() != "check"@.len());
            assert("run"@.len() != "emit-asm"@.len());
            assert("run"@.len() != "emit-obj"@.len());
            assert("run"@.len() != "build"@.len());
        },
        CommandKind::Fmt => {
            assert("fmt"@.len() != "check"@.len());
            assert("fmt"@.len() != "emit-asm"@.len());
            assert("fmt"@.len() != "emit-obj"@.len());
            assert("fmt"@.len() != "build"@.len());
            assert("fmt"@[0] != "run"@[0]);
        },
        CommandKind::Test => {
            assert("test"@.len() != "check"@.len());
            assert("test"@.len() != "emit-asm"@.len());
            assert("test"@.len() != "emit-obj"@.len());
            assert("test"@.len() != "build"@.len());
            assert("test"@.len() != "run"@.len());
            assert("test"@.len() != "fmt"@.len());
        },
        CommandKind::DumpTokens => {
            assert("dump-tokens"@.len() != "check"@.len());
            assert("dump-tokens"@.len() != "emit-asm"@.len());
            assert("dump-tokens"@.len() != "emit-obj"@.len());
            assert("dump-tokens"@.len() != "build"@.len());
            assert("dump-tokens"@.len() != "run"@.len());
            assert("dump-tokens"@.len() != "fmt"@.len());
            assert("dump-tokens"@.len() != "test"@.len());
        },
        CommandKind::DumpAst => {
            assert("dump-ast"@.len() != "check"@.len());
            assert("dump-ast"@[0] != "emit-asm"@[0]);
            assert("dump-ast"@[0] != "emit-obj"@[0]);
            assert("dump-ast"@.len() != "build"@.len());
            assert("dump-ast"@.len() != "run"@.len());
            assert("dump-ast"@.len() != "fmt"@.len());
            assert("dump-ast"@.len() != "test"@.len());
            assert("dump-ast"@.len() != "dump-tokens"@.len());
        },
        CommandKind::DumpIr => {
            assert("dump-ir"@.len() != "check"@.len());
            assert("dump-ir"@.len() != "emit-asm"@.len());
            assert("dump-ir"@.len() != "emit-obj"@.len());
            assert("dump-ir"@.len() != "build"@.len());
            assert("dump-ir"@.len() != "run"@.len());
            assert("dump-ir"@.len() != "fmt"@.len());
            assert("dump-ir"@.len() != "test"@.len());
            assert("dump-ir"@.len() != "dump-tokens"@.len());
            assert("dump-ir"@.len() != "dump-ast"@.len());
        },
    }
}

} // verus!
