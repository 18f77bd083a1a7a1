use vstd::prelude::*;
use crate::text::str_eq;
use crate::diagnostics::{Diagnostic, Severity};

verus! {

/// Calling convention used for arguments and stack cleanup.
#[derive(Debug, Clone, Copy, PartialEq, Eq, Structural)]
pub enum Abi {
    SystemV,
    WindowsX64,
}

/// Relocatable object format produced for a target.
#[derive(Debug, Clone, Copy, PartialEq, Eq, Structural)]
pub enum ObjectFormat {
    Elf64,
    Win64,
}

/// The supported target triples.
#[derive(Debug, Clone, Copy, PartialEq, Eq, Structural)]
pub enum TargetTriple {
    X86_64Linux,
    X86_64Windows,
}

/// Everything the backend needs to know about a target.
#[derive(Debug, Clone, Copy)]
pub struct Target {
    pub triple: TargetTriple,
    pub abi: Abi,
    pub object_format: ObjectFormat,
    pub nasm_format: &'static str,
    pub default_linker: &'static str,
    pub executable_extension: &'static str,
}

/// The description of x86-64 Linux.
pub open spec fn is_linux_target(t: Target) -> bool {
    &&& t.triple == TargetTriple::X86_64Linux
    &&& t.abi == Abi::SystemV
    &&& t.object_format == ObjectFormat::Elf64
    &&& t.nasm_format@ == "elf64"@
    &&& t.default_linker@ == "gcc"@
    &&& t.executable_extension@ == ""@
}

/// The description of x86-64 Windows.
pub open spec fn is_windows_target(t: Target) -> bool {
    &&& t.triple == TargetTriple::X86_64Windows
    &&& t.abi == Abi::WindowsX64
    &&& t.object_format == ObjectFormat::Win64
    &&& t.nasm_format@ == "win64"@
    &&& t.default_linker@ == "gcc"@
    &&& t.executable_extension@ == "exe"@
}

impl Target {
    pub fn linux_x86_64() -> (t: Target)
        ensures
            is_linux_target(t),
    {
        Target {
            triple: TargetTriple::X86_64Linux,
            abi: Abi::SystemV,
            object_format: ObjectFormat::Elf64,
            nasm_format: "elf64",
            default_linker: "gcc",
            executable_extension: "",
        }
    }

    pub fn windows_x86_64() -> (t: Target)
        ensures
            is_windows_target(t),
    {
        Target {
            triple: TargetTriple::X86_64Windows,
            abi: Abi::WindowsX64,
            object_format: ObjectFormat::Win64,
            nasm_format: "win64",
            default_linker: "gcc",
            executable_extension: "exe",
        }
    }

    /// Parses a target name given on the command line: `x86_64-linux` or `x86_64-windows`;
    /// any other name is an unsupported target.
    pub fn parse(name: &str) -> (r: Result<Target, Diagnostic>)
        ensures
            name@ == "x86_64-linux"@ ==> (r matches Ok(t) && is_linux_target(t)),
            name@ == "x86_64-windows"@ ==> (r matches Ok(t) && is_windows_target(t)),
            name@ != "x86_64-linux"@ && name@ != "x86_64-windows"@ ==> (r matches Err(d)
                && d.severity == Severity::Error && d.message@ == unsupported_target_message(name@)),
    {
        proof {
            reveal_strlit("x86_64-linux");
            reveal_strlit("x86_64-windows");
            assert("x86_64-windows"@[7] != "x86_64-linux"@[7]);
        }
        if str_eq(name, "x86_64-linux") {
            Ok(Target::linux_x86_64())
        } else if str_eq(name, "x86_64-windows") {
            Ok(Target::windows_x86_64())
        } else {
            let mut message = String::from_str("unsupported target '");
            message.append(name);
            message.append("'");
            Err(Diagnostic::error_owned(message))
        }
    }
}

/// The message for a target name that the compiler does not support.
pub open spec fn unsupported_target_message(name: Seq<char>) -> Seq<char> {
    "unsupported target '"@ + name + "'"@
}

} // verus!
