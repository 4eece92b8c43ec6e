//! From source text to a module.
use vstd::prelude::*;
use crate::ast::Module;
use crate::error::{CompileError, CompileErrorV};
use crate::grammar::Input;
use crate::lexer::Lexer;
use crate::model::ModuleV;
use crate::parser::Parser;

verus! {

use crate::error::res_v;
use crate::grammar::g_module;
use crate::lexer::tokens_from;

/// The module that a source text stands for.
pub open spec fn parsed(src: Seq<char>, name: Seq<char>) -> Result<ModuleV, CompileErrorV> {
    match tokens_from(src, 0, Seq::empty()) {
        Err(e) => Err(e),
        Ok(toks) => g_module(Input { toks, src }, 0, name),
    }
}

/// Reads a source text.
pub fn parse_source(src: &str, name: &str) -> (r: Result<Module, CompileError>)
    ensures
        res_v(r) == parsed(src@, name@),
{
    let mut lexer = Lexer::new(src);
    let tokens = lexer.tokenize()?;
    let mut parser = Parser::new(tokens, src);
    parser.parse_module(name.to_owned())
}

} // verus!
