# geo

The back half of the Geo compiler as a verified library: lowering of checked programs to a
machine-independent IR, x86-64 assembly for NASM, Linux ELF executables with their runtime
routines, Windows PE console images from compiled code or from a program run at compile
time, and the command-line and driver logic around them.
Each function states what it computes in `requires` / `ensures`, and Verus proves it.

## Layout

```text
src/
  ast.rs           checked programs, as the lowering reads them
  ir.rs            the IR: functions, values, instructions
  lower.rs         lowering of programs to IR, with constant folding
  lowering.rs      what lowering emits, stated instruction by instruction
  x86_64.rs        NASM assembly for Linux and Windows targets
  target.rs        target triples and their defaults
  text.rs          decimal text and string comparison
  bytes.rs         little-endian writes, splices and alignment
  jumps.rs         relative jumps and calls and their displacements
  elf_runtime.rs   Linux runtime routines, and which name calls for which
  elf_utf8.rs      Linux runtime routines that walk UTF-8
  elf.rs           runtime layout, symbol table, relocations, ELF headers
  pe_helpers.rs    Windows helper routines that stand alone
  pe.rs            PE layout, import table, compile-time evaluation, images
  pe_link.rs       placement of compiled code and its relocations in a PE image
  pe_routines.rs   the helper routines that call the system or other routines
  pe_compiled.rs   Windows executables built from compiled code
  cli.rs           the command line
  driver.rs        compile configuration, source paths, formatting
  diagnostics.rs   error messages
tests/             tests on concrete programs and images
app/main.rs        the `geo` program: arguments, files and diagnostics
```
