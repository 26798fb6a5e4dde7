# metta_bytecode

A verified bytecode compiler and abstract-interpretation toolkit for MeTTa
expressions, written in Verus.

## Layout

- `src/value.rs`, `src/text.rs`: MeTTa values and their mathematical model;
  text helpers.
- `src/opcode.rs`, `src/chunk.rs`: the instruction set, chunks of bytecode,
  the chunk builder and the disassembler.
- `src/compiler/`: the compiler.
  - `semantics.rs` defines, as spec functions, what each expression compiles
    to; every executable part is proved against it.
  - `iterative.rs` runs compilation on an explicit stack of work items, so
    that nesting depth costs heap, not call stack; `expand.rs` and
    `builtins.rs` expand expressions and special forms into work items.
  - `folding.rs` folds constant expressions; `context.rs` tracks locals,
    scopes and captured variables.
- `src/cache.rs`: bounded caches of compiled chunks keyed by value hashes.
- `src/builtin_chunks.rs`, `src/builtin_signatures.rs`: prebuilt chunks and
  type signatures of the builtin operations.
- `src/analysis/`: the abstract domain, abstract transitions, the worklist
  fixpoint, pushdown convergence, derived facts, module dead-code analysis
  and race detection.
- `tests/`: executable tests of the library.
- `app/`: process-wide caches, a registry of builtin chunks, timing and error
  conversions, which need what the verified library does not hold.
