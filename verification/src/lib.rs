pub mod ir;
pub mod target;
pub mod text;
pub mod x86_64;
pub mod bytes;
pub mod jumps;
pub mod elf_runtime;
pub mod elf_utf8;
pub mod elf;
pub mod pe_helpers;
pub mod pe_routines;
pub mod ast;
pub mod lower;
pub mod cli;
pub mod diagnostics;
pub mod driver;
pub mod pe;
pub mod pe_link;
pub mod pe_compiled;
pub mod lowering;
