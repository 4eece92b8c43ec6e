# Nova

A compiler for the Nova language, written in Verus: Swift-like syntax, Julia-style
macros, algebraic data types and pattern matching, compiled to C++. Every function of the
library states what it computes over a mathematical model of its arguments, and Verus
proves it.

## Layout

- `src/token.rs`, `src/lexer.rs` — tokens and their places in the text.
- `src/ast.rs`, `src/model.rs`, `src/debug.rs` — the syntax tree, its views, its debug text.
- `src/grammar.rs`, `src/parser.rs` — the grammar as spec functions, and the parser.
- `src/round_trip.rs` — types read back from how they are written.
- `src/value.rs`, `src/interp_model.rs`, `src/interpreter.rs` — values and evaluation.
- `src/expand_model.rs`, `src/macro_expand.rs`, `src/import_macro.rs` — macros and modules.
- `src/mono_model.rs`, `src/mono.rs` — monomorphization.
- `src/typeck.rs`, `src/resolve.rs` — types and dot accesses.
- `src/traits.rs`, `src/codegen/` — dispatch and C++.
- `src/driver.rs` — from a source text to C++, or to what a program prints.
- `src/lsp/` — what an editor asks for.
- `src/error.rs`, `src/profiler.rs`, `src/host.rs`, `src/text.rs`, `src/maps.rs` — support.
- `*_rules.rs` — the defining equations of the recursive models, as lemmas.
- `app/` — the command line and the language server.

## Files and floating point

The library reads no files and holds no floats. What a computation needs of either stands in
a `Host`: where an answer is missing, the computation stops with the question, the caller
adds the answer and starts again.

## Laws

Public proof functions named `law_*` state what holds across functions, such as that
no macro call and no resolved dot access is left, that types are read back from their text,
that keywords and operators lex back to themselves, or that formatting a formatted text
changes nothing.
