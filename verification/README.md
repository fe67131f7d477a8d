# milika

A compiler for Milika, a small language whose functions may call async Rust
functions, and the environment its runtime keeps. The passes are proved with
Verus against models of the programs they take and give.

- `src/parser.rs`: the grammar, as spec functions, and the parser that
  follows it.
- `src/hir/`: the untyped HIR made from the syntax tree, the asyncness
  check, type checking, the grouped (`split`) and blocked forms, and their
  text.
- `src/hir_lowering/`: `lower_async_if` (an `if` becomes calls of new
  functions), `async_splitter` (an async function becomes functions that
  pass a continuation) and `lower_if` (an `if` becomes branches between
  blocks).
- `src/hir_verifier.rs`: the type consistency check of the blocked HIR.
- `src/driver.rs`: the passes in order, the prelude merged in.
- `src/chiika_env.rs`, `src/sync_functions.rs`: the runtime's environment
  and its random numbers.
- `src/laws/`: properties that relate several of these operations.
- `app/`: the command line program, the runtime's C entry points and the
  code generator (MLIR through melior).
