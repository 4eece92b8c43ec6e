//! A compiler for the Nova language: lexing, parsing, macro expansion,
//! monomorphization, type checking and C++ generation, with the answers that an
//! editor asks for. Every function states what it computes over the
//! mathematical models of its arguments.
pub mod ast;
pub mod building;
pub mod checking;
pub mod codegen;
pub mod debug;
pub mod declaring;
pub mod driver;
pub mod error;
pub mod evaluation;
pub mod expand_model;
mod expand_rules;
pub mod expanding;
pub mod grammar;
mod grammar_rules;
pub mod host;
pub mod import_macro;
pub mod importing;
pub mod inference;
pub mod interp_model;
mod interp_rules;
pub mod interpreter;
pub mod lexer;
pub mod lowering;
pub mod lsp;
pub mod macro_expand;
pub mod maps;
pub mod model;
pub mod mono;
pub mod mono_model;
mod mono_rules;
pub mod operators;
pub mod parser;
pub mod paths;
pub mod profiler;
pub mod reading;
pub mod resolve;
pub mod round_trip;
pub mod source;
pub mod spelling;
pub mod text;
pub mod token;
pub mod traits;
pub mod typeck;
mod typeck_rules;
pub mod value;
