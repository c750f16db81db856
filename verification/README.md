# compiler

The code generator of a small C-like language, written in Verus. It takes a
syntax tree (`Program`) and lowers it to LLVM IR through `inkwell`, checking
the program's types, scopes and loops on the way.

- `src/ast.rs`: the syntax tree, the source types and their sizes.
- `src/scopes.rs`: the scoped symbol table and the loop stack, with their laws.
  The table is a stack of scopes, each a vector of entries with distinct
  names, rather than a stack of `HashMap`s: lookups go from the innermost
  scope outwards, and with `String` keys a `HashMap`'s contract gives too
  little to prove them.
- `src/ir.rs`: what the generator emits, as plain data: a term for each
  value (constant, load, address, arithmetic, comparison, call) and an event
  for each statement (store, print, push, branch, loop), with a small memory
  semantics and its laws (a read after a store, push then pop).
- `src/typing.rs`: the type rules of expressions, stated as spec functions.
- `src/codegen.rs`: the generator; each function states which programs it
  refuses, how it changes the scopes, the loops and the module's table of
  functions, and which instructions it asks the builder for, in order.
- `src/llvm.rs`: the calls into `inkwell`, each behind a small wrapper; the
  builder's wrappers record each instruction they add in `emitted`.
- `src/args.rs`, `src/text.rs`: the command line and string helpers.
- `app/lib.rs`: the driver: exit codes, the native target, the object file
  and the system linker.

The lexer and parser that turn source text into a `Program` are not part of
this crate; the driver takes the program loader as an argument.

The tests under `tests/` build programs and inspect the printed IR.
