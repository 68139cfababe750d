# henrylang

Parts of henrylang, a small expression language with immutable variables,
first-class functions, lazy iterators and user-defined types, written in
Verus with their behaviour stated in contracts and proved: the scanner and
parser, the WebAssembly encoding and the code generator's building blocks
(instruction emitters, builtin functions, module assembly), and the bytecode
chunk and the bytecode compiler's bookkeeping (scopes, variables, captures,
jumps, disassembly). Type checking of syntax trees, the translation of a
whole tree to code, and the bytecode interpreter are not part of it.

## Layout

- `src/token.rs`, `src/scanner.rs`: tokens and the scanner; `spec_scan` says
  which tokens a text gives.
- `src/syntax.rs`, `src/parser.rs`: the parser; `spec_parse` says which
  syntax tree, or which errors, a list of tokens gives.
- `src/ast.rs`: syntax trees, types and type annotations, and how an
  annotation resolves to a type.
- `src/wasmtypes.rs`: the parts of the WebAssembly binary format (LEB128
  numbers, vectors, sections, signatures).
- `src/module_builder.rs`: collects signatures, imports, functions, globals,
  exports and data segments, and writes the module.
- `src/builtin_func.rs`, `src/builtin_funcs.rs`: functions written
  instruction by instruction, such as the allocator and the iterator
  helpers, each with the exact code it holds.
- `src/structs.rs`: the memory layout of user-defined types.
- `src/wasmizer.rs`: the code generator's state and the instructions it
  writes for each operation.
- `src/env.rs`: the host functions and the names every program starts with.
- `src/chunk.rs`: bytecode instructions, chunks of bytecode with their
  constants and line starts, and the disassembly of an instruction.
- `src/compiler.rs`: the bytecode compiler's state: a frame per function
  being compiled, scopes and locals, global types, captured variables
  resolved through enclosing functions, and the code each step writes.
- `src/lazy_iter.rs`: ranges and array iterators.
- `src/vm.rs`: the interpreter's error type and how it is reported.
- `app/main.rs`: a command line that reads a program, from a file or
  line by line, and prints its syntax tree or its parse errors.
