//! From tokens to the syntax tree.
use vstd::prelude::*;
use crate::ast::{
    BinOp, Block, Enum, EnumCase, Expr, ExprKind, Function, FunctionType, GenericParam, ImplBlock,
    Import, ImportItem, Item, LiteralPat, MacroCallItem, MacroDef, MatchArm, Module, Param, Path,
    PathSegment, Pattern, PatternKind, Struct, StructField, TraitDef, Type, TypeAlias, UnaryOp,
    VarDecl,
};
use crate::error::{CompileError, CompileErrorV};
use crate::grammar::{CppMode, Input, Parsed};
use crate::model::{
    EnumCaseV, FunctionV, ImportItemV, MatchArmV, ParamV, PathSegmentV, PatternV, StructFieldV,
};
use crate::paths::names_of;
use crate::text::{cat2, cat3, cat5, char_is_uppercase, chars_of, push_char, str_eq};
use crate::token::{Span, Token, TokenKind, TokenKindV, TokenV};

verus! {


use crate::error::{parse_error, res_v};
use crate::grammar::{
    assign_op, cpp_text, ends_list, find_brace, g_alias, g_arms, g_at, g_at_rest, g_binary,
    g_binary_rest, g_block, g_block_body, g_call_args, g_case, g_cases, g_dollar, g_enum, g_expr,
    g_exprs, g_field_inits, g_field_patterns, g_for, g_function, g_generic_args, g_generic_names,
    g_generic_params, g_guard, g_ident, g_if, g_impl, g_import, g_import_arg, g_import_args,
    g_import_items, g_import_path, g_init, g_inits, g_item, g_item_args, g_items, g_let,
    g_macro_def, g_macro_item, g_macro_name, g_macro_params, g_match, g_methods, g_module, g_name,
    g_opt_type, g_param, g_param_list, g_params, g_paren, g_path_rest, g_pattern, g_payload,
    g_postfix, g_postfix_rest, g_primary, g_quote, g_return_type, g_segments, g_stmts, g_struct,
    g_struct_fields, g_trait, g_trait_method, g_trait_methods, g_type, g_type_alias, g_type_args,
    g_types, g_unary, g_var_decl, g_while, keyword_is_name, kind_at, literal_expr, literal_pattern,
    module_start, op_of_level, path_colon, skip, skip_braces, span_of, starts_name,
};
use crate::grammar_rules::{
    un_arms, un_at, un_at_rest, un_binary, un_binary_rest, un_block, un_block_body, un_call_args,
    un_case, un_cases, un_dollar, un_expr, un_exprs, un_field_inits, un_field_patterns, un_for,
    un_function, un_generic_args, un_generic_names, un_guard, un_if, un_import_args,
    un_import_items, un_import_path, un_inits, un_items, un_let, un_macro_params, un_match,
    un_methods, un_name, un_param, un_param_list, un_params, un_paren, un_path_rest, un_pattern,
    un_postfix, un_postfix_rest, un_primary, un_quote, un_segments, un_stmts, un_struct_fields,
    un_trait_methods, un_type, un_type_args, un_types, un_unary, un_while,
};
use crate::model::{
    block_v, enum_cases_v, exprs_v, field_inits_v, field_patterns_v, function_type_v, functions_v,
    generic_params_v, group_list_views, import_items_v, imports_v, items_v, match_arms_v,
    opt_expr_v, opt_type_v, param_v, params_v, path_segments_v, path_v, struct_fields_v, type_v,
    types_v,
};
use crate::text::{opt_str_v, strs_v};
use crate::token::{kind_text, tokens_v, variant_index, zero_span};

broadcast use group_list_views;

/// A result with the position where the reading stands.
pub open spec fn ended<T>(r: Result<T, CompileErrorV>, p: int) -> Parsed<T> {
    match r {
        Ok(x) => Ok((x, p)),
        Err(e) => Err(e),
    }
}

/// A token kind that holds nothing and is not the end of file.
pub open spec fn is_plain(k: TokenKindV) -> bool {
    !(k is Ident || k is IntLiteral || k is FloatLiteral || k is StringLiteral || k is CharLiteral
        || k is RawCpp || k is Eof)
}

/// Tokens, the source they were read from, and the position that has been read up to.
pub struct Parser {
    tokens: Vec<Token>,
    source: Vec<char>,
    pos: usize,
    end: Token,
}

impl Parser {
    /// What is read.
    pub closed spec fn input(&self) -> Input {
        Input { toks: tokens_v(self.tokens@), src: self.source@ }
    }

    pub closed spec fn pos(&self) -> int {
        self.pos as int
    }

    /// The position lies within the tokens.
    pub closed spec fn wf(&self) -> bool {
        &&& self.pos <= self.tokens.len()
        &&& self.end@ == (TokenV { kind: TokenKindV::Eof, span: zero_span() })
    }

    /// The tokens that are left to read.
    pub open spec fn left(&self) -> int {
        self.input().toks.len() - self.pos()
    }

    pub fn new(tokens: Vec<Token>, source: &str) -> (r: Self)
        ensures
            r.wf(),
            r.input() == (Input { toks: tokens_v(tokens@), src: source@ }),
            r.pos() == 0,
    {
        Parser {
            tokens,
            source: chars_of(source),
            pos: 0,
            end: Token::new(TokenKind::Eof, Span::zero()),
        }
    }

    fn peek(&self) -> (r: &Token)
        requires
            self.wf(),
        ensures
            r@.kind == kind_at(self.input(), self.pos()),
            r@.span == span_of(self.input(), self.pos()),
    {
        if self.pos < self.tokens.len() {
            &self.tokens[self.pos]
        } else {
            &self.end
        }
    }

    fn peek_kind(&self) -> (r: &TokenKind)
        requires
            self.wf(),
        ensures
            r@ == kind_at(self.input(), self.pos()),
            self.pos() < self.input().toks.len() || r@ is Eof,
    {
        &self.peek().kind
    }

    /// The kind of the token `n` further on.
    fn peek_ahead(&self, n: usize) -> (r: &TokenKind)
        requires
            self.wf(),
        ensures
            r@ == kind_at(self.input(), self.pos() + n),
            self.pos() + n < self.input().toks.len() || r@ is Eof,
    {
        if n < self.tokens.len() - self.pos {
            &self.tokens[self.pos + n].kind
        } else {
            &self.end.kind
        }
    }

    /// Whether a token of this kind stands at the position.
    fn at(&self, kind: TokenKind) -> (r: bool)
        requires
            self.wf(),
            is_plain(kind@) || kind@ is Eof,
        ensures
            r == (kind_at(self.input(), self.pos()) == kind@),
    {
        self.peek_kind().same_variant(&kind)
    }

    /// Whether a token of this kind stands `n` further on.
    fn at_ahead(&self, n: usize, kind: TokenKind) -> (r: bool)
        requires
            self.wf(),
            is_plain(kind@),
        ensures
            r == (kind_at(self.input(), self.pos() + n) == kind@),
    {
        self.peek_ahead(n).same_variant(&kind)
    }

    fn at_ident(&self) -> (r: bool)
        requires
            self.wf(),
        ensures
            r == (kind_at(self.input(), self.pos()) is Ident),
    {
        matches!(self.peek_kind(), TokenKind::Ident(_))
    }

    /// The identifier at the position.
    fn ident_here(&self) -> (r: Option<String>)
        requires
            self.wf(),
        ensures
            match kind_at(self.input(), self.pos()) {
                TokenKindV::Ident(s) => r matches Some(t) && t@ == s,
                _ => r is None,
            },
    {
        match self.peek_kind() {
            TokenKind::Ident(s) => Some(s.clone()),
            _ => None,
        }
    }

    /// How the token at the position is written.
    fn text_here(&self) -> (r: String)
        requires
            self.wf(),
        ensures
            r@ == kind_text(kind_at(self.input(), self.pos())),
    {
        self.peek_kind().display()
    }

    fn at_keyword_name(&self) -> (r: bool)
        requires
            self.wf(),
        ensures
            r == keyword_is_name(kind_at(self.input(), self.pos())),
    {
        match self.peek_kind() {
            TokenKind::Module | TokenKind::Macro | TokenKind::Quote | TokenKind::Import
            | TokenKind::Type | TokenKind::Func | TokenKind::Let | TokenKind::Var | TokenKind::If
            | TokenKind::Else | TokenKind::Match | TokenKind::Case | TokenKind::Enum
            | TokenKind::Struct | TokenKind::While | TokenKind::For | TokenKind::Return => true,
            _ => false,
        }
    }

    fn at_name_start(&self) -> (r: bool)
        requires
            self.wf(),
        ensures
            r == starts_name(kind_at(self.input(), self.pos())),
    {
        match self.peek_kind() {
            TokenKind::Ident(_) | TokenKind::Module | TokenKind::Macro | TokenKind::Type
            | TokenKind::Import => true,
            _ => false,
        }
    }

    /// The literal at the position, as an expression.
    fn literal_here(&self) -> (r: Option<ExprKind>)
        requires
            self.wf(),
        ensures
            match literal_expr(kind_at(self.input(), self.pos())) {
                Some(k) => r matches Some(x) && x@ == k,
                None => r is None,
            },
    {
        match self.peek_kind() {
            TokenKind::IntLiteral(n) => Some(ExprKind::IntLiteral(*n)),
            TokenKind::FloatLiteral(s) => Some(ExprKind::FloatLiteral(s.clone())),
            TokenKind::StringLiteral(s) => Some(ExprKind::StringLiteral(s.clone())),
            TokenKind::CharLiteral(c) => Some(ExprKind::CharLiteral(*c)),
            TokenKind::True => Some(ExprKind::BoolLiteral(true)),
            TokenKind::False => Some(ExprKind::BoolLiteral(false)),
            TokenKind::Nil => Some(ExprKind::NilLiteral),
            _ => None,
        }
    }

    /// The literal at the position, as a pattern.
    fn literal_pattern_here(&self) -> (r: Option<LiteralPat>)
        requires
            self.wf(),
        ensures
            match literal_pattern(kind_at(self.input(), self.pos())) {
                Some(k) => r matches Some(x) && x@ == k,
                None => r is None,
            },
    {
        match self.peek_kind() {
            TokenKind::IntLiteral(n) => Some(LiteralPat::Int(*n)),
            TokenKind::FloatLiteral(s) => Some(LiteralPat::Float(s.clone())),
            TokenKind::StringLiteral(s) => Some(LiteralPat::String(s.clone())),
            TokenKind::CharLiteral(c) => Some(LiteralPat::Char(*c)),
            TokenKind::True => Some(LiteralPat::Bool(true)),
            TokenKind::False => Some(LiteralPat::Bool(false)),
            TokenKind::Nil => Some(LiteralPat::Nil),
            _ => None,
        }
    }

    /// The operator of the compound assignment at the position.
    fn assign_op_here(&self) -> (r: Option<BinOp>)
        requires
            self.wf(),
        ensures
            r == assign_op(kind_at(self.input(), self.pos())),
    {
        match self.peek_kind() {
            TokenKind::PlusEq => Some(BinOp::Add),
            TokenKind::MinusEq => Some(BinOp::Sub),
            TokenKind::StarEq => Some(BinOp::Mul),
            TokenKind::SlashEq => Some(BinOp::Div),
            TokenKind::PercentEq => Some(BinOp::Mod),
            _ => None,
        }
    }

    fn advance(&mut self)
        requires
            old(self).wf(),
            old(self).pos() < old(self).input().toks.len(),
        ensures
            final(self).wf(),
            final(self).input() == old(self).input(),
            final(self).pos() == old(self).pos() + 1,
    {
        self.pos = self.pos + 1;
    }

    /// Reads a token of the expected kind, or leaves it.
    fn consume(&mut self, expected: TokenKind) -> (r: Result<(), CompileError>)
        requires
            old(self).wf(),
            !(expected@ is Eof),
        ensures
            final(self).wf(),
            final(self).input() == old(self).input(),
            ({
                let actual = kind_at(old(self).input(), old(self).pos());
                if variant_index(actual) == variant_index(expected@) {
                    r is Ok && final(self).pos() == old(self).pos() + 1
                } else {
                    final(self).pos() == old(self).pos() && (r matches Err(e) && e@ == parse_error(
                        "Expected '"@ + kind_text(expected@) + "', got '"@ + kind_text(actual)
                            + "'"@,
                        span_of(old(self).input(), old(self).pos()),
                    ))
                }
            }),
    {
        if self.peek_kind().same_variant(&expected) {
            self.advance();
            Ok(())
        } else {
            Err(
                CompileError::parse(
                    &cat5(
                        "Expected '",
                        &expected.display(),
                        "', got '",
                        &self.peek_kind().display(),
                        "'",
                    ),
                    self.peek().span,
                ),
            )
        }
    }

    /// Reads a token that may be there.
    fn skip_one(&mut self, kind: TokenKind)
        requires
            old(self).wf(),
            is_plain(kind@),
        ensures
            final(self).wf(),
            final(self).input() == old(self).input(),
            final(self).pos() == skip(old(self).input(), old(self).pos(), kind@),
            old(self).pos() <= final(self).pos() <= final(self).input().toks.len(),
    {
        let r = self.consume(kind);
    }

    fn current_span(&self) -> (r: Span)
        requires
            self.wf(),
        ensures
            r == span_of(self.input(), self.pos()),
    {
        self.peek().span
    }

    fn at_path_colon(&self) -> (r: bool)
        requires
            self.wf(),
        ensures
            r == path_colon(self.input(), self.pos()),
    {
        self.at(TokenKind::Colon) && self.at_ahead(1, TokenKind::Colon)
    }

    fn at_list_end(&self) -> (r: bool)
        requires
            self.wf(),
        ensures
            r == ends_list(self.input(), self.pos()),
            !r ==> self.pos() < self.input().toks.len(),
    {
        self.at(TokenKind::RBrace) || self.at(TokenKind::Eof)
    }

    // ----------------------------------------------------------------------- names

    fn parse_ident(&mut self) -> (r: Result<String, CompileError>)
        requires
            old(self).wf(),
        ensures
            final(self).wf(),
            final(self).input() == old(self).input(),
            ended(res_v(r), final(self).pos()) == g_ident(old(self).input(), old(self).pos()),
            r is Ok ==> old(self).pos() < final(self).pos(),
    {
        proof {
            reveal(g_ident);
        }
        match self.ident_here() {
            Some(s) => {
                self.advance();
                return Ok(s);
            },
            None => {},
        }
        if self.at_keyword_name() {
            let s = self.text_here();
            self.advance();
            return Ok(s);
        }
        if self.at(TokenKind::Dollar) {
            self.advance();
            match self.ident_here() {
                Some(s) => {
                    self.advance();
                    return Ok(cat2("$", &s));
                },
                None => {
                    return Err(
                        CompileError::parse("Expected identifier after $", self.peek().span),
                    );
                },
            }
        }
        Err(
            CompileError::parse(
                &cat3("Expected identifier, got '", &self.text_here(), "'"),
                self.peek().span,
            ),
        )
    }

    /// The names of a path after its first `::`.
    fn parse_path_rest(&mut self, first: String) -> (r: Result<Vec<String>, CompileError>)
        requires
            old(self).wf(),
        ensures
            final(self).wf(),
            final(self).input() == old(self).input(),
            ended(
                match r {
                    Ok(v) => Ok(strs_v(v@)),
                    Err(e) => Err(e@),
                },
                final(self).pos(),
            ) == g_path_rest(
                old(self).input(),
                old(self).pos(),
                seq![first@],
            ),
            r is Ok ==> old(self).pos() < final(self).pos(),
    {
        proof {
            un_path_rest(old(self).input(), old(self).pos(), seq![first@]);
        }
        let mut names: Vec<String> = Vec::new();
        names.push(first);
        assert(strs_v(names@) =~= seq![first@]);
        loop
            invariant
                self.wf(),
                self.input() == old(self).input(),
                old(self).pos() <= self.pos(),
                g_path_rest(old(self).input(), old(self).pos(), seq![first@]) == g_path_rest(
                    old(self).input(),
                    self.pos(),
                    strs_v(names@),
                ),
            decreases self.left(),
        {
            proof {
                un_path_rest(old(self).input(), self.pos(), strs_v(names@));
            }
            names.push(self.parse_ident()?);
            if self.at_path_colon() {
                self.advance();
                self.advance();
            } else {
                return Ok(names);
            }
        }
    }

    fn parse_generic_params(&mut self) -> (r: Result<Vec<GenericParam>, CompileError>)
        requires
            old(self).wf(),
        ensures
            final(self).wf(),
            final(self).input() == old(self).input(),
            ended(
                match r {
                    Ok(v) => Ok(generic_params_v(v@)),
                    Err(e) => Err(e@),
                },
                final(self).pos(),
            ) == g_generic_params(
                old(self).input(),
                old(self).pos(),
            ),
            r is Ok ==> old(self).pos() <= final(self).pos(),
    {
        proof {
            reveal(g_generic_params);
        }
        let mut params: Vec<GenericParam> = Vec::new();
        if !self.at(TokenKind::LBracket) {
            return Ok(params);
        }
        self.advance();
        loop
            invariant
                self.wf(),
                self.input() == old(self).input(),
                old(self).pos() <= self.pos(),
                g_generic_params(old(self).input(), old(self).pos()) == g_generic_names(
                    old(self).input(),
                    self.pos(),
                    generic_params_v(params@),
                ),
            decreases self.left(),
        {
            proof {
                un_generic_names( old(self).input(), self.pos(), generic_params_v(params@), );
            }
            let name = self.parse_ident()?;
            params.push(GenericParam { name, span: self.current_span() });
            if self.at(TokenKind::RBracket) {
                self.advance();
                return Ok(params);
            }
            self.skip_one(TokenKind::Comma);
        }
    }

    // ----------------------------------------------------------------------- types

    pub fn parse_type(&mut self) -> (r: Result<Type, CompileError>)
        requires
            old(self).wf(),
        ensures
            final(self).wf(),
            final(self).input() == old(self).input(),
            ended(res_v(r), final(self).pos()) == g_type(old(self).input(), old(self).pos()),
            r is Ok ==> old(self).pos() < final(self).pos(),
        decreases old(self).left(), 3int,
    {
        proof {
            un_type(old(self).input(), old(self).pos());
        }
        if self.at(TokenKind::At) {
            self.advance();
            let inner = self.parse_type()?;
            return Ok(Type::GcRef(Box::new(inner)));
        }
        if self.at(TokenKind::LParen) {
            self.advance();
            let mut params: Vec<Type> = if self.at(TokenKind::RParen) {
                Vec::new()
            } else {
                self.parse_type_list()?
            };
            self.skip_one(TokenKind::RParen);
            if self.at(TokenKind::Arrow) {
                self.advance();
                let ret = self.parse_type()?;
                let ft = FunctionType { params, ret: Box::new(ret) };
                let ghost g = function_type_v(ft);
                return Ok(Type::Function(ft));
            }
            if params.len() == 1 {
                let ghost ps = types_v(params@);
                let only = params.remove(0);
                assert(ps[0] == only@);
                return Ok(only);
            }
            if params.len() == 0 {
                return Ok(Type::Unit);
            }
            return Ok(Type::Tuple(params));
        }
        let segments = self.parse_segments()?;
        let path = Path { segments };
        let ghost g = path_v(path);
        Ok(Type::Path(path))
    }

    /// Types with commas between them.
    fn parse_type_list(&mut self) -> (r: Result<Vec<Type>, CompileError>)
        requires
            old(self).wf(),
        ensures
            final(self).wf(),
            final(self).input() == old(self).input(),
            ended(
                match r {
                    Ok(v) => Ok(types_v(v@)),
                    Err(e) => Err(e@),
                },
                final(self).pos(),
            ) == g_types(
                old(self).input(),
                old(self).pos(),
                Seq::empty(),
            ),
            r is Ok ==> old(self).pos() < final(self).pos(),
        decreases old(self).left(), 4int,
    {
        proof {
            un_types(old(self).input(), old(self).pos(), Seq::empty());
        }
        let mut types: Vec<Type> = Vec::new();
        loop
            invariant
                self.wf(),
                self.input() == old(self).input(),
                old(self).pos() <= self.pos(),
                g_types(old(self).input(), old(self).pos(), Seq::empty()) == g_types(
                    old(self).input(),
                    self.pos(),
                    types_v(types@),
                ),
            decreases self.left(),
        {
            proof {
                un_types(old(self).input(), self.pos(), types_v(types@));
            }
            types.push(self.parse_type()?);
            if self.at(TokenKind::Comma) {
                self.advance();
            } else {
                return Ok(types);
            }
        }
    }

    fn parse_segments(&mut self) -> (r: Result<Vec<PathSegment>, CompileError>)
        requires
            old(self).wf(),
        ensures
            final(self).wf(),
            final(self).input() == old(self).input(),
            ended(
                match r {
                    Ok(v) => Ok(path_segments_v(v@)),
                    Err(e) => Err(e@),
                },
                final(self).pos(),
            ) == g_segments(
                old(self).input(),
                old(self).pos(),
                Seq::empty(),
            ),
            r is Ok ==> old(self).pos() < final(self).pos(),
        decreases old(self).left(), 2int,
    {
        proof {
            un_segments(old(self).input(), old(self).pos(), Seq::empty());
        }
        let mut segments: Vec<PathSegment> = Vec::new();
        loop
            invariant
                self.wf(),
                self.input() == old(self).input(),
                old(self).pos() <= self.pos(),
                g_segments(old(self).input(), old(self).pos(), Seq::empty()) == g_segments(
                    old(self).input(),
                    self.pos(),
                    path_segments_v(segments@),
                ),
            decreases self.left(),
        {
            proof {
                un_segments( old(self).input(), self.pos(), path_segments_v(segments@), );
            }
            let name = self.parse_ident()?;
            let args = self.parse_generic_args()?;
            let seg = PathSegment { name, args };
            assert(
                crate::model::path_segment_v(seg) == PathSegmentV {
                    name: name@,
                    args: types_v(args@),
                }
            );
            segments.push(seg);
            if self.at_path_colon() {
                self.advance();
                self.advance();
            } else {
                return Ok(segments);
            }
        }
    }

    fn parse_generic_args(&mut self) -> (r: Result<Vec<Type>, CompileError>)
        requires
            old(self).wf(),
        ensures
            final(self).wf(),
            final(self).input() == old(self).input(),
            ended(
                match r {
                    Ok(v) => Ok(types_v(v@)),
                    Err(e) => Err(e@),
                },
                final(self).pos(),
            ) == g_generic_args(
                old(self).input(),
                old(self).pos(),
            ),
            r is Ok ==> old(self).pos() <= final(self).pos(),
        decreases old(self).left(), 5int,
    {
        proof {
            un_generic_args(old(self).input(), old(self).pos());
        }
        let mut args: Vec<Type> = Vec::new();
        if !self.at(TokenKind::LBracket) {
            return Ok(args);
        }
        self.advance();
        assert(
            g_generic_args(old(self).input(), old(self).pos()) == g_type_args(
                old(self).input(),
                old(self).pos() + 1,
                Seq::empty(),
            )
        );
        loop
            invariant
                self.wf(),
                self.input() == old(self).input(),
                old(self).pos() <= self.pos(),
                old(self).pos() < self.pos(),
                g_generic_args(old(self).input(), old(self).pos()) == g_type_args(
                    old(self).input(),
                    self.pos(),
                    types_v(args@),
                ),
            decreases self.left(),
        {
            proof {
                un_type_args(old(self).input(), self.pos(), types_v(args@));
            }
            args.push(self.parse_type()?);
            if self.at(TokenKind::RBracket) {
                self.advance();
                return Ok(args);
            }
            self.skip_one(TokenKind::Comma);
        }
    }

    /// `: T`, or nothing.
    fn parse_opt_type(&mut self) -> (r: Result<Option<Type>, CompileError>)
        requires
            old(self).wf(),
        ensures
            final(self).wf(),
            final(self).input() == old(self).input(),
            ended(
                match r {
                    Ok(v) => Ok(opt_type_v(v)),
                    Err(e) => Err(e@),
                },
                final(self).pos(),
            ) == g_opt_type(
                old(self).input(),
                old(self).pos(),
            ),
            r is Ok ==> old(self).pos() <= final(self).pos(),
    {
        proof {
            reveal(g_opt_type);
        }
        if self.at(TokenKind::Colon) {
            self.advance();
            let t = self.parse_type()?;
            Ok(Some(t))
        } else {
            Ok(None)
        }
    }

    /// `-> T`; where it is missing, the unit type.
    fn parse_return_type(&mut self) -> (r: Result<Type, CompileError>)
        requires
            old(self).wf(),
        ensures
            final(self).wf(),
            final(self).input() == old(self).input(),
            ended(res_v(r), final(self).pos()) == g_return_type(old(self).input(), old(self).pos()),
            r is Ok ==> old(self).pos() <= final(self).pos(),
    {
        proof {
            reveal(g_return_type);
        }
        if self.at(TokenKind::Arrow) {
            self.advance();
            self.parse_type()
        } else {
            Ok(Type::Unit)
        }
    }

    // -------------------------------------------------------------------- patterns

    fn parse_pattern(&mut self) -> (r: Result<Pattern, CompileError>)
        requires
            old(self).wf(),
        ensures
            final(self).wf(),
            final(self).input() == old(self).input(),
            ended(res_v(r), final(self).pos()) == g_pattern(old(self).input(), old(self).pos()),
            r is Ok ==> old(self).pos() < final(self).pos(),
        decreases old(self).left(), 0int,
    {
        proof {
            un_pattern(old(self).input(), old(self).pos());
        }
        let span = self.current_span();
        match self.literal_pattern_here() {
            Some(lit) => {
                self.advance();
                return Ok(mk_pattern(PatternKind::Literal(lit), span));
            },
            None => {},
        }
        if self.at(TokenKind::Underscore) {
            self.advance();
            return Ok(mk_pattern(PatternKind::Wildcard, span));
        }
        if self.at(TokenKind::Dot) {
            self.advance();
            let case = self.parse_ident()?;
            let inner: Option<Box<Pattern>> = if self.at(TokenKind::LParen) {
                self.advance();
                let pat = self.parse_pattern()?;
                self.skip_one(TokenKind::RParen);
                Some(Box::new(pat))
            } else {
                None
            };
            return Ok(mk_pattern(PatternKind::EnumCtor { path: Vec::new(), case, inner }, span));
        }
        if self.at(TokenKind::Let) || self.at(TokenKind::Var) {
            let is_mut: bool = self.at(TokenKind::Var);
            self.advance();
            let name = self.parse_ident()?;
            return Ok(mk_pattern(PatternKind::Variable { name, is_mut }, span));
        }
        match self.ident_here() {
            Some(name) => {
                self.advance();
                if self.at(TokenKind::LBrace) {
                    self.advance();
                    let fields = self.parse_field_patterns()?;
                    self.skip_one(TokenKind::RBrace);
                    let path = one_name(name);
                    Ok(mk_pattern(PatternKind::Struct { path, fields }, span))
                } else if self.at_path_colon() {
                    self.advance();
                    self.advance();
                    let path = self.parse_path_rest(name)?;
                    Ok(
                        mk_pattern(
                            PatternKind::EnumCtor { path, case: String::new(), inner: None },
                            span,
                        ),
                    )
                } else {
                    Ok(mk_pattern(PatternKind::Variable { name, is_mut: false }, span))
                }
            },
            None => Err(
                CompileError::parse(
                    &cat3("Expected pattern, got '", &self.text_here(), "'"),
                    self.peek().span,
                ),
            ),
        }
    }

    fn parse_field_patterns(&mut self) -> (r: Result<Vec<(String, Pattern)>, CompileError>)
        requires
            old(self).wf(),
        ensures
            final(self).wf(),
            final(self).input() == old(self).input(),
            ended(
                match r {
                    Ok(v) => Ok(field_patterns_v(v@)),
                    Err(e) => Err(e@),
                },
                final(self).pos(),
            ) == g_field_patterns(
                old(self).input(),
                old(self).pos(),
                Seq::empty(),
            ),
            r is Ok ==> old(self).pos() <= final(self).pos(),
        decreases old(self).left(), 1int,
    {
        proof {
            un_field_patterns(old(self).input(), old(self).pos(), Seq::empty());
        }
        let mut fields: Vec<(String, Pattern)> = Vec::new();
        loop
            invariant
                self.wf(),
                self.input() == old(self).input(),
                old(self).pos() <= self.pos(),
                g_field_patterns(old(self).input(), old(self).pos(), Seq::empty()) == g_field_patterns(
                    old(self).input(),
                    self.pos(),
                    field_patterns_v(fields@),
                ),
            decreases self.left(),
        {
            proof {
                un_field_patterns( old(self).input(), self.pos(), field_patterns_v(fields@), );
            }
            if self.at(TokenKind::RBrace) {
                return Ok(fields);
            }
            let name = self.parse_ident()?;
            self.skip_one(TokenKind::Colon);
            let pat = self.parse_pattern()?;
            fields.push((name, pat));
            self.skip_one(TokenKind::Comma);
        }
    }

    // ----------------------------------------------------------------- expressions

    pub fn parse_expr(&mut self) -> (r: Result<Expr, CompileError>)
        requires
            old(self).wf(),
        ensures
            final(self).wf(),
            final(self).input() == old(self).input(),
            ended(res_v(r), final(self).pos()) == g_expr(old(self).input(), old(self).pos()),
            r is Ok ==> old(self).pos() < final(self).pos(),
        decreases old(self).left(), 20int,
    {
        proof {
            un_expr(old(self).input(), old(self).pos());
        }
        let left = self.parse_binary(0)?;
        if self.at(TokenKind::Eq) {
            self.advance();
            let right = self.parse_expr()?;
            let span = left.span.merge(&right.span);
            return Ok(Expr::assign(left, right, span));
        }
        match self.assign_op_here() {
            Some(op) => {
                self.advance();
                let right = self.parse_expr()?;
                let span = left.span.merge(&right.span);
                Ok(
                    Expr::new(
                        ExprKind::AssignOp { target: Box::new(left), op, value: Box::new(right) },
                        span,
                    ),
                )
            },
            None => Ok(left),
        }
    }

    /// The operator of this level at the position.
    fn op_at_level(&self, level: u8) -> (r: Option<BinOp>)
        requires
            self.wf(),
            level <= 4,
        ensures
            r == op_of_level(level as int, kind_at(self.input(), self.pos())),
    {
        let kind = self.peek_kind();
        let here: bool = match kind {
            TokenKind::OrOr => level == 0,
            TokenKind::AndAnd => level == 1,
            TokenKind::EqEq | TokenKind::NotEq | TokenKind::Lt | TokenKind::Gt | TokenKind::LtEq
            | TokenKind::GtEq => level == 2,
            TokenKind::Plus | TokenKind::Minus => level == 3,
            TokenKind::Star | TokenKind::Slash | TokenKind::Percent => level == 4,
            _ => false,
        };
        if here {
            BinOp::from_token(kind)
        } else {
            None
        }
    }

    /// Operands of the next tighter level with operators of this level between them.
    fn parse_binary(&mut self, level: u8) -> (r: Result<Expr, CompileError>)
        requires
            old(self).wf(),
            level <= 4,
        ensures
            final(self).wf(),
            final(self).input() == old(self).input(),
            ended(res_v(r), final(self).pos()) == g_binary(
                old(self).input(),
                old(self).pos(),
                level as int,
            ),
            r is Ok ==> old(self).pos() < final(self).pos(),
        decreases old(self).left(), 19 - level,
    {
        proof {
            un_binary(old(self).input(), old(self).pos(), level as int);
        }
        let mut left = if level == 4 {
            self.parse_unary()?
        } else {
            self.parse_binary(level + 1)?
        };
        loop
            invariant
                self.wf(),
                self.input() == old(self).input(),
                old(self).pos() <= self.pos(),
                level <= 4,
                old(self).pos() < self.pos(),
                g_binary(old(self).input(), old(self).pos(), level as int) == g_binary_rest(
                    old(self).input(),
                    self.pos(),
                    level as int,
                    left@,
                ),
            decreases self.left(),
        {
            proof {
                un_binary_rest( old(self).input(), self.pos(), level as int, left@, );
            }
            match self.op_at_level(level) {
                None => {
                    return Ok(left);
                },
                Some(op) => {
                    self.advance();
                    let right = if level == 4 {
                        self.parse_unary()?
                    } else {
                        self.parse_binary(level + 1)?
                    };
                    let span = left.span.merge(&right.span);
                    left = Expr::binary(left, op, right, span);
                },
            }
        }
    }

    fn parse_unary(&mut self) -> (r: Result<Expr, CompileError>)
        requires
            old(self).wf(),
        ensures
            final(self).wf(),
            final(self).input() == old(self).input(),
            ended(res_v(r), final(self).pos()) == g_unary(old(self).input(), old(self).pos()),
            r is Ok ==> old(self).pos() < final(self).pos(),
        decreases old(self).left(), 12int,
    {
        proof {
            un_unary(old(self).input(), old(self).pos());
        }
        let op: Option<UnaryOp> = if self.at(TokenKind::Minus) {
            Some(UnaryOp::Neg)
        } else if self.at(TokenKind::Not) {
            Some(UnaryOp::Not)
        } else {
            None
        };
        match op {
            Some(op) => {
                let start = self.current_span();
                self.advance();
                let expr = self.parse_unary()?;
                let span = start.merge(&expr.span);
                Ok(Expr::new(ExprKind::Unary { op, expr: Box::new(expr) }, span))
            },
            None => self.parse_postfix(),
        }
    }

    fn parse_postfix(&mut self) -> (r: Result<Expr, CompileError>)
        requires
            old(self).wf(),
        ensures
            final(self).wf(),
            final(self).input() == old(self).input(),
            ended(res_v(r), final(self).pos()) == g_postfix(old(self).input(), old(self).pos()),
            r is Ok ==> old(self).pos() < final(self).pos(),
        decreases old(self).left(), 11int,
    {
        proof {
            un_postfix(old(self).input(), old(self).pos());
        }
        let mut expr = self.parse_primary()?;
        loop
            invariant
                self.wf(),
                self.input() == old(self).input(),
                old(self).pos() <= self.pos(),
                old(self).pos() < self.pos(),
                g_postfix(old(self).input(), old(self).pos()) == g_postfix_rest(
                    old(self).input(),
                    self.pos(),
                    expr@,
                ),
            decreases self.left(),
        {
            proof {
                un_postfix_rest(old(self).input(), self.pos(), expr@);
            }
            let span = expr.span;
            if self.at_path_colon() {
                self.advance();
                self.advance();
                let rest = self.parse_ident()?;
                let ghost e0 = expr@;
                let ghost k0 = expr.kind@;
                match expr.kind {
                    ExprKind::Ident(name) => {
                        let mut segments: Vec<String> = Vec::new();
                        segments.push(name);
                        segments.push(rest);
                        assert(strs_v(segments@) =~= seq![name@, rest@]);
                        expr = Expr::new(ExprKind::Path(segments), span);
                    },
                    ExprKind::Path(segs) => {
                        let mut segments = segs;
                        segments.push(rest);
                        expr = Expr::new(ExprKind::Path(segments), span);
                    },
                    _ => {
                        return Err(CompileError::parse("Invalid path expression", span));
                    },
                }
            } else if self.at(TokenKind::Dot) {
                self.advance();
                let field = self.parse_ident()?;
                if self.at(TokenKind::LParen) {
                    let mut args = self.parse_call_args()?;
                    let ghost e0 = expr;
                    let ghost args0 = args@;
                    args.insert(0, expr);
                    assert(exprs_v(args@) =~= seq![e0@] + exprs_v(args0));
                    expr = Expr::call(Expr::ident(&field, span), args, span);
                } else {
                    expr = Expr::new(ExprKind::DotAccess { object: Box::new(expr), field }, span);
                }
            } else if self.at(TokenKind::LParen) {
                let args = self.parse_call_args()?;
                expr = Expr::call(expr, args, span);
            } else if self.at(TokenKind::LBracket) {
                self.advance();
                let index = self.parse_expr()?;
                self.skip_one(TokenKind::RBracket);
                expr = Expr::new(
                    ExprKind::Index { object: Box::new(expr), index: Box::new(index) },
                    span,
                );
            } else {
                return Ok(expr);
            }
        }
    }

    /// Expressions with commas between them, behind the given ones.
    fn parse_expr_list(&mut self, given: Vec<Expr>) -> (r: Result<Vec<Expr>, CompileError>)
        requires
            old(self).wf(),
        ensures
            final(self).wf(),
            final(self).input() == old(self).input(),
            ended(
                match r {
                    Ok(v) => Ok(exprs_v(v@)),
                    Err(e) => Err(e@),
                },
                final(self).pos(),
            ) == g_exprs(
                old(self).input(),
                old(self).pos(),
                exprs_v(given@),
            ),
            r is Ok ==> old(self).pos() < final(self).pos(),
        decreases old(self).left(), 21int,
    {
        proof {
            un_exprs(old(self).input(), old(self).pos(), exprs_v(given@));
        }
        let mut exprs = given;
        loop
            invariant
                self.wf(),
                self.input() == old(self).input(),
                old(self).pos() <= self.pos(),
                g_exprs(old(self).input(), old(self).pos(), exprs_v(given@)) == g_exprs(
                    old(self).input(),
                    self.pos(),
                    exprs_v(exprs@),
                ),
            decreases self.left(),
        {
            proof {
                un_exprs(old(self).input(), self.pos(), exprs_v(exprs@));
            }
            exprs.push(self.parse_expr()?);
            if self.at(TokenKind::Comma) {
                self.advance();
            } else {
                return Ok(exprs);
            }
        }
    }

    fn parse_call_args(&mut self) -> (r: Result<Vec<Expr>, CompileError>)
        requires
            old(self).wf(),
            kind_at(old(self).input(), old(self).pos()) is LParen,
        ensures
            final(self).wf(),
            final(self).input() == old(self).input(),
            ended(
                match r {
                    Ok(v) => Ok(exprs_v(v@)),
                    Err(e) => Err(e@),
                },
                final(self).pos(),
            ) == g_call_args(
                old(self).input(),
                old(self).pos(),
            ),
            r is Ok ==> old(self).pos() < final(self).pos(),
        decreases old(self).left(), 0int,
    {
        proof {
            un_call_args(old(self).input(), old(self).pos());
        }
        self.advance();
        if self.at(TokenKind::RParen) {
            self.advance();
            return Ok(Vec::new());
        }
        let args = self.parse_expr_list(Vec::new())?;
        self.skip_one(TokenKind::RParen);
        Ok(args)
    }

    fn parse_primary(&mut self) -> (r: Result<Expr, CompileError>)
        requires
            old(self).wf(),
        ensures
            final(self).wf(),
            final(self).input() == old(self).input(),
            ended(res_v(r), final(self).pos()) == g_primary(old(self).input(), old(self).pos()),
            r is Ok ==> old(self).pos() < final(self).pos(),
        decreases old(self).left(), 10int,
    {
        proof {
            un_primary(old(self).input(), old(self).pos());
        }
        let start = self.current_span();
        match self.literal_here() {
            Some(kind) => {
                self.advance();
                return Ok(Expr::new(kind, start));
            },
            None => {},
        }
        if self.at(TokenKind::Quote) {
            return self.parse_quote_expr();
        }
        if self.at(TokenKind::Dot) {
            return self.parse_case_expr();
        }
        if self.at_name_start() {
            return self.parse_name_expr();
        }
        if self.at(TokenKind::At) {
            return self.parse_at_expr();
        }
        if self.at(TokenKind::Dollar) {
            return self.parse_dollar_expr();
        }
        if self.at(TokenKind::LBrace) {
            self.advance();
            let block = self.parse_block_body(start)?;
            let ghost g = block_v(block);
            return Ok(Expr::block(block.stmts, start));
        }
        if self.at(TokenKind::LParen) {
            return self.parse_paren_expr();
        }
        if self.at(TokenKind::If) {
            return self.parse_if_expr();
        }
        if self.at(TokenKind::Match) {
            return self.parse_match_expr();
        }
        if self.at(TokenKind::While) {
            return self.parse_while_expr();
        }
        if self.at(TokenKind::For) {
            return self.parse_for_expr();
        }
        if self.at(TokenKind::Return) {
            self.advance();
            if self.at(TokenKind::Semicolon) || self.at(TokenKind::RBrace) {
                return Ok(Expr::return_expr(None, start));
            }
            let e = self.parse_expr()?;
            return Ok(Expr::return_expr(Some(e), start));
        }
        if self.at(TokenKind::Let) || self.at(TokenKind::Var) {
            return self.parse_let_expr();
        }
        if self.at(TokenKind::Func) {
            let func = self.parse_function(false)?;
            return Ok(Expr::new(ExprKind::FuncDef(func), start));
        }
        if self.at(TokenKind::Tilde) {
            self.advance();
            let name = self.parse_ident()?;
            self.skip_one(TokenKind::Colon);
            let value = self.parse_expr()?;
            return Ok(Expr::new(ExprKind::NamedArg { name, value: Box::new(value) }, start));
        }
        Err(CompileError::parse(&cat2("Unexpected token: ", &self.text_here()), self.peek().span))
    }

    /// `.case` or `.case(expr)`.
    fn parse_case_expr(&mut self) -> (r: Result<Expr, CompileError>)
        requires
            old(self).wf(),
            kind_at(old(self).input(), old(self).pos()) is Dot,
        ensures
            final(self).wf(),
            final(self).input() == old(self).input(),
            ended(res_v(r), final(self).pos()) == g_case(old(self).input(), old(self).pos()),
            r is Ok ==> old(self).pos() < final(self).pos(),
        decreases old(self).left(), 0int,
    {
        proof {
            un_case(old(self).input(), old(self).pos());
        }
        let start = self.current_span();
        self.advance();
        let case = self.parse_ident()?;
        let arg: Option<Box<Expr>> = if self.at(TokenKind::LParen) {
            self.advance();
            let inner = self.parse_expr()?;
            self.skip_one(TokenKind::RParen);
            Some(Box::new(inner))
        } else {
            None
        };
        Ok(Expr::new(ExprKind::EnumCtor { path: Vec::new(), case, arg }, start))
    }

    /// A name, a path, or a struct literal behind a capitalized name.
    fn parse_name_expr(&mut self) -> (r: Result<Expr, CompileError>)
        requires
            old(self).wf(),
            starts_name(kind_at(old(self).input(), old(self).pos())),
        ensures
            final(self).wf(),
            final(self).input() == old(self).input(),
            ended(res_v(r), final(self).pos()) == g_name(old(self).input(), old(self).pos()),
            r is Ok ==> old(self).pos() < final(self).pos(),
        decreases old(self).left(), 0int,
    {
        proof {
            un_name(old(self).input(), old(self).pos());
        }
        let start = self.current_span();
        let name = self.peek_kind().display();
        self.advance();
        if self.at_path_colon() {
            self.advance();
            self.advance();
            let segments = self.parse_path_rest(name)?;
            return Ok(Expr::new(ExprKind::Path(segments), start));
        }
        if self.at(TokenKind::LBrace) && starts_uppercase(&name) {
            let fields = self.parse_struct_literal_fields()?;
            let path = one_name(name);
            return Ok(Expr::new(ExprKind::StructLit { path, fields }, start));
        }
        Ok(Expr::ident(&name, start))
    }

    fn parse_struct_literal_fields(&mut self) -> (r: Result<Vec<(String, Expr)>, CompileError>)
        requires
            old(self).wf(),
        ensures
            final(self).wf(),
            final(self).input() == old(self).input(),
            ended(
                match r {
                    Ok(v) => Ok(field_inits_v(v@)),
                    Err(e) => Err(e@),
                },
                final(self).pos(),
            ) == g_field_inits(
                old(self).input(),
                old(self).pos(),
            ),
            r is Ok ==> old(self).pos() <= final(self).pos(),
        decreases old(self).left(), 23int,
    {
        proof {
            un_field_inits(old(self).input(), old(self).pos());
        }
        self.skip_one(TokenKind::LBrace);
        let mut fields: Vec<(String, Expr)> = Vec::new();
        let ghost p1 = self.pos();
        loop
            invariant
                self.wf(),
                self.input() == old(self).input(),
                old(self).pos() <= self.pos(),
                p1 == skip(old(self).input(), old(self).pos(), TokenKindV::LBrace),
                g_inits(old(self).input(), p1, Seq::empty()) == g_inits(
                    old(self).input(),
                    self.pos(),
                    field_inits_v(fields@),
                ),
            decreases self.left(),
        {
            proof {
                un_inits(old(self).input(), self.pos(), field_inits_v(fields@));
            }
            proof {
                un_field_inits(old(self).input(), old(self).pos());
            }
            if self.at_list_end() {
                self.skip_one(TokenKind::RBrace);
                return Ok(fields);
            }
            let name = self.parse_ident()?;
            self.skip_one(TokenKind::Colon);
            let value = self.parse_expr()?;
            fields.push((name, value));
            self.skip_one(TokenKind::Comma);
        }
    }

    /// What follows `@`: raw C++ text, a macro call, or an allocation on the heap.
    fn parse_at_expr(&mut self) -> (r: Result<Expr, CompileError>)
        requires
            old(self).wf(),
            kind_at(old(self).input(), old(self).pos()) is At,
        ensures
            final(self).wf(),
            final(self).input() == old(self).input(),
            ended(res_v(r), final(self).pos()) == g_at(old(self).input(), old(self).pos()),
            r is Ok ==> old(self).pos() < final(self).pos(),
        decreases old(self).left(), 0int,
    {
        proof {
            un_at(old(self).input(), old(self).pos());
        }
        let start = self.current_span();
        self.advance();
        let is_cpp: bool = match self.ident_here() {
            Some(s) => str_eq(&s, "cpp"),
            None => false,
        };
        if is_cpp {
            self.advance();
            let from: usize = self.peek().span.start;
            match self.find_open_brace(from) {
                Some(open) => {
                    let raw = self.extract_matching_brace(open)?;
                    self.skip_brace_tokens();
                    return Ok(Expr::new(ExprKind::CppBlock(raw), start));
                },
                None => {},
            }
        }
        self.parse_at_rest(start)
    }

    /// A macro call or an allocation, behind its `@`.
    fn parse_at_rest(&mut self, start: Span) -> (r: Result<Expr, CompileError>)
        requires
            old(self).wf(),
        ensures
            final(self).wf(),
            final(self).input() == old(self).input(),
            ended(res_v(r), final(self).pos()) == g_at_rest(
                old(self).input(),
                old(self).pos(),
                start,
            ),
            r is Ok ==> old(self).pos() < final(self).pos(),
        decreases old(self).left(), 20int,
    {
        proof {
            un_at_rest(old(self).input(), old(self).pos(), start);
        }
        match self.ident_here() {
            Some(name) => {
                if self.at_ahead(1, TokenKind::LBrace) {
                    let ty = self.parse_type()?;
                    let fields = self.parse_struct_literal_fields()?;
                    return Ok(Expr::gc_new(ty, fields, start));
                }
                self.advance();
                if self.at(TokenKind::LParen) {
                    let args = self.parse_call_args()?;
                    return Ok(Expr::new(ExprKind::MacroCall { name, args }, start));
                }
                let arg = self.parse_primary()?;
                let mut args: Vec<Expr> = Vec::new();
                args.push(arg);
                assert(exprs_v(args@) =~= seq![arg@]);
                return Ok(Expr::new(ExprKind::MacroCall { name, args }, start));
            },
            None => {},
        }
        let ty = self.parse_type()?;
        if self.at(TokenKind::LBrace) {
            let fields = self.parse_struct_literal_fields()?;
            Ok(Expr::gc_new(ty, fields, start))
        } else if self.at(TokenKind::LParen) {
            self.advance();
            let inner = self.parse_expr()?;
            self.skip_one(TokenKind::RParen);
            match ty {
                Type::Path(path) => {
                    let ghost g = path_v(path);
                    let names = names_of(&path.segments);
                    Ok(
                        Expr::new(
                            ExprKind::EnumCtor {
                                path: names,
                                case: String::new(),
                                arg: Some(Box::new(inner)),
                            },
                            start,
                        ),
                    )
                },
                _ => Err(CompileError::parse("Expected type path after @", start)),
            }
        } else {
            Err(CompileError::parse("Expected { or ( after @type", start))
        }
    }

    fn find_open_brace(&self, from: usize) -> (r: Option<usize>)
        ensures
            match r {
                Some(k) => find_brace(self.input().src, from as int) == Some(k as int) && k
                    < self.source.len(),
                None => find_brace(self.input().src, from as int) is None,
            },
    {
        let mut k: usize = from;
        while k < self.source.len()
            invariant
                find_brace(self.source@, from as int) == find_brace(self.source@, k as int),
            decreases self.source.len() - k,
        {
            if self.source[k] == '{' {
                return Some(k);
            }
            k = k + 1;
        }
        None
    }

    /// The text behind the brace at `open` up to the one that closes it. Nested braces
    /// count; those in string and character literals do not.
    fn extract_matching_brace(&self, open: usize) -> (r: Result<String, CompileError>)
        requires
            open < self.source.len(),
        ensures
            match cpp_text(self.input().src, open + 1, 1, CppMode::Code, Seq::empty()) {
                Some(text) => r matches Ok(s) && s@ == text,
                None => r matches Err(e) && e@ == parse_error(
                    "Unterminated cpp block — missing '}'"@,
                    zero_span(),
                ),
            },
    {
        let ghost whole = cpp_text(self.source@, open + 1, 1, CppMode::Code, Seq::empty());
        let n: usize = self.source.len();
        let mut depth: usize = 1;
        let mut mode = CppMode::Code;
        let mut pos: usize = open + 1;
        let mut text = String::new();
        while pos < n
            invariant
                n == self.source.len(),
                1 <= depth <= pos,
                whole == cpp_text(self.source@, open + 1, 1, CppMode::Code, Seq::empty()),
                whole == cpp_text(self.source@, pos as int, depth as int, mode, text@),
            decreases n - pos,
        {
            let c: char = self.source[pos];
            let next: Option<char> = if pos + 1 < n {
                Some(self.source[pos + 1])
            } else {
                None
            };
            let mut both: bool = false;
            match mode {
                CppMode::Quote(q) => {
                    if c == '\\' && next.is_some() {
                        both = true;
                    } else if c == q {
                        mode = CppMode::Code;
                    }
                },
                CppMode::Code => {
                    if c == '{' {
                        depth = depth + 1;
                    } else if c == '}' {
                        if depth <= 1 {
                            return Ok(text);
                        }
                        depth = depth - 1;
                    } else if c == '"' || c == '\'' {
                        mode = CppMode::Quote(c);
                    }
                },
            }
            push_char(&mut text, c);
            pos = pos + 1;
            if both {
                match next {
                    Some(d) => {
                        push_char(&mut text, d);
                        pos = pos + 1;
                    },
                    None => {},
                }
            }
        }
        Err(CompileError::parse("Unterminated cpp block — missing '}'", Span::zero()))
    }

    /// Reads the tokens of a stretch in braces.
    fn skip_brace_tokens(&mut self)
        requires
            old(self).wf(),
        ensures
            final(self).wf(),
            final(self).input() == old(self).input(),
            final(self).pos() == skip_braces(old(self).input(), old(self).pos(), 0),
            final(self).pos() >= old(self).pos(),
    {
        let mut depth: i128 = 0;
        let ghost p0 = self.pos();
        loop
            invariant
                self.wf(),
                self.input() == old(self).input(),
                self.pos() >= old(self).pos(),
                -self.pos() <= depth <= self.pos(),
                skip_braces(self.input(), old(self).pos(), 0) == skip_braces(
                    self.input(),
                    self.pos(),
                    depth as int,
                ),
            decreases self.left(),
        {
            if self.at(TokenKind::Eof) {
                return;
            }
            if self.at(TokenKind::LBrace) {
                depth = depth + 1;
            } else if self.at(TokenKind::RBrace) {
                if depth == 1 {
                    self.advance();
                    return;
                }
                depth = depth - 1;
            }
            self.advance();
        }
    }

    /// `$name`, `$(expr)` or `$name(expr)`.
    fn parse_dollar_expr(&mut self) -> (r: Result<Expr, CompileError>)
        requires
            old(self).wf(),
            kind_at(old(self).input(), old(self).pos()) is Dollar,
        ensures
            final(self).wf(),
            final(self).input() == old(self).input(),
            ended(res_v(r), final(self).pos()) == g_dollar(old(self).input(), old(self).pos()),
            r is Ok ==> old(self).pos() < final(self).pos(),
        decreases old(self).left(), 0int,
    {
        proof {
            un_dollar(old(self).input(), old(self).pos());
        }
        let start = self.current_span();
        self.advance();
        let name = self.ident_here();
        match name {
            Some(name) => {
                self.advance();
                if !self.at(TokenKind::LParen) {
                    return Ok(Expr::new(ExprKind::UnquoteIdent(name), start));
                }
            },
            None => {
                if !self.at(TokenKind::LParen) {
                    return Err(CompileError::parse("Expected identifier after $", start));
                }
            },
        }
        let mut args = self.parse_call_args()?;
        if args.len() == 1 {
            let ghost es = exprs_v(args@);
            let only = args.remove(0);
            assert(es[0] == only@);
            Ok(Expr::new(ExprKind::Unquote(Box::new(only)), start))
        } else {
            Err(CompileError::parse("$(...) takes exactly one argument", start))
        }
    }

    fn parse_paren_expr(&mut self) -> (r: Result<Expr, CompileError>)
        requires
            old(self).wf(),
            kind_at(old(self).input(), old(self).pos()) is LParen,
        ensures
            final(self).wf(),
            final(self).input() == old(self).input(),
            ended(res_v(r), final(self).pos()) == g_paren(old(self).input(), old(self).pos()),
            r is Ok ==> old(self).pos() < final(self).pos(),
        decreases old(self).left(), 0int,
    {
        proof {
            un_paren(old(self).input(), old(self).pos());
        }
        let start = self.current_span();
        self.advance();
        let expr = self.parse_expr()?;
        if self.at(TokenKind::Comma) {
            self.advance();
            let mut given: Vec<Expr> = Vec::new();
            given.push(expr);
            assert(exprs_v(given@) =~= seq![expr@]);
            let exprs = self.parse_expr_list(given)?;
            self.skip_one(TokenKind::RParen);
            Ok(Expr::ident("<tuple>", start))
        } else {
            self.skip_one(TokenKind::RParen);
            Ok(expr)
        }
    }

    fn parse_let_expr(&mut self) -> (r: Result<Expr, CompileError>)
        requires
            old(self).wf(),
            kind_at(old(self).input(), old(self).pos()) is Let || kind_at(
                old(self).input(),
                old(self).pos(),
            ) is Var,
        ensures
            final(self).wf(),
            final(self).input() == old(self).input(),
            ended(res_v(r), final(self).pos()) == g_let(old(self).input(), old(self).pos()),
            r is Ok ==> old(self).pos() < final(self).pos(),
        decreases old(self).left(), 0int,
    {
        proof {
            un_let(old(self).input(), old(self).pos());
        }
        let start = self.current_span();
        let is_mut: bool = self.at(TokenKind::Var);
        self.advance();
        let name = self.parse_ident()?;
        let ty = self.parse_opt_type()?;
        if self.at(TokenKind::Eq) {
            self.advance();
            let value = self.parse_expr()?;
            Ok(Expr::let_binding(&name, ty, value, is_mut, start))
        } else {
            let nil = Expr::new(ExprKind::NilLiteral, start);
            Ok(Expr::let_binding(&name, ty, nil, is_mut, start))
        }
    }

    // ---------------------------------------------------------------------- blocks

    fn parse_block(&mut self) -> (r: Result<Block, CompileError>)
        requires
            old(self).wf(),
        ensures
            final(self).wf(),
            final(self).input() == old(self).input(),
            ended(res_v(r), final(self).pos()) == g_block(old(self).input(), old(self).pos()),
            r is Ok ==> old(self).pos() <= final(self).pos(),
        decreases old(self).left(), 23int,
    {
        proof {
            un_block(old(self).input(), old(self).pos());
        }
        let start = self.current_span();
        self.skip_one(TokenKind::LBrace);
        self.parse_block_body(start)
    }

    /// The statements of a block and its closing brace.
    fn parse_block_body(&mut self, start: Span) -> (r: Result<Block, CompileError>)
        requires
            old(self).wf(),
        ensures
            final(self).wf(),
            final(self).input() == old(self).input(),
            ended(res_v(r), final(self).pos()) == g_block_body(
                old(self).input(),
                start,
                old(self).pos(),
            ),
            r is Ok ==> old(self).pos() <= final(self).pos(),
        decreases old(self).left(), 22int,
    {
        proof {
            un_block_body(old(self).input(), start, old(self).pos());
        }
        let stmts = self.parse_stmts()?;
        let end = self.current_span();
        self.skip_one(TokenKind::RBrace);
        let block = Block { stmts, span: start.merge(&end) };
        let ghost g = block_v(block);
        Ok(block)
    }

    /// Expressions up to the closing brace.
    fn parse_stmts(&mut self) -> (r: Result<Vec<Expr>, CompileError>)
        requires
            old(self).wf(),
        ensures
            final(self).wf(),
            final(self).input() == old(self).input(),
            ended(
                match r {
                    Ok(v) => Ok(exprs_v(v@)),
                    Err(e) => Err(e@),
                },
                final(self).pos(),
            ) == g_stmts(
                old(self).input(),
                old(self).pos(),
                Seq::empty(),
            ),
            r is Ok ==> old(self).pos() <= final(self).pos(),
        decreases old(self).left(), 21int,
    {
        proof {
            un_stmts(old(self).input(), old(self).pos(), Seq::empty());
        }
        let mut stmts: Vec<Expr> = Vec::new();
        loop
            invariant
                self.wf(),
                self.input() == old(self).input(),
                old(self).pos() <= self.pos(),
                g_stmts(old(self).input(), old(self).pos(), Seq::empty()) == g_stmts(
                    old(self).input(),
                    self.pos(),
                    exprs_v(stmts@),
                ),
            decreases self.left(),
        {
            proof {
                un_stmts(old(self).input(), self.pos(), exprs_v(stmts@));
            }
            if self.at_list_end() {
                return Ok(stmts);
            }
            stmts.push(self.parse_expr()?);
            self.skip_one(TokenKind::Semicolon);
        }
    }

    fn parse_if_expr(&mut self) -> (r: Result<Expr, CompileError>)
        requires
            old(self).wf(),
            kind_at(old(self).input(), old(self).pos()) is If,
        ensures
            final(self).wf(),
            final(self).input() == old(self).input(),
            ended(res_v(r), final(self).pos()) == g_if(old(self).input(), old(self).pos()),
            r is Ok ==> old(self).pos() < final(self).pos(),
        decreases old(self).left(), 0int,
    {
        proof {
            un_if(old(self).input(), old(self).pos());
        }
        let start = self.current_span();
        self.advance();
        let cond = self.parse_expr()?;
        let then_branch = self.parse_block()?;
        let else_branch: Option<Block> = if self.at(TokenKind::Else) {
            self.advance();
            if self.at(TokenKind::If) {
                let e = self.parse_if_expr()?;
                let mut stmts: Vec<Expr> = Vec::new();
                stmts.push(e);
                assert(exprs_v(stmts@) =~= seq![e@]);
                let block = Block { stmts, span: self.current_span() };
                let ghost g = block_v(block);
                Some(block)
            } else {
                let b = self.parse_block()?;
                Some(b)
            }
        } else {
            None
        };
        Ok(Expr::if_expr(cond, then_branch, else_branch, start))
    }

    fn parse_match_expr(&mut self) -> (r: Result<Expr, CompileError>)
        requires
            old(self).wf(),
            kind_at(old(self).input(), old(self).pos()) is Match,
        ensures
            final(self).wf(),
            final(self).input() == old(self).input(),
            ended(res_v(r), final(self).pos()) == g_match(old(self).input(), old(self).pos()),
            r is Ok ==> old(self).pos() < final(self).pos(),
        decreases old(self).left(), 0int,
    {
        proof {
            un_match(old(self).input(), old(self).pos());
        }
        let start = self.current_span();
        self.advance();
        let expr = self.parse_expr()?;
        self.skip_one(TokenKind::LBrace);
        let arms = self.parse_arms()?;
        self.skip_one(TokenKind::RBrace);
        Ok(Expr::match_expr(expr, arms, start))
    }

    /// `if guard`, or nothing.
    fn parse_guard(&mut self) -> (r: Result<Option<Box<Expr>>, CompileError>)
        requires
            old(self).wf(),
        ensures
            final(self).wf(),
            final(self).input() == old(self).input(),
            ended(
                match r {
                    Ok(v) => Ok((match v { None => None, Some(b) => Some(Box::new((*b)@)) })),
                    Err(e) => Err(e@),
                },
                final(self).pos(),
            ) == g_guard(
                old(self).input(),
                old(self).pos(),
            ),
            r is Ok ==> old(self).pos() <= final(self).pos(),
        decreases old(self).left(), 0int,
    {
        proof {
            un_guard(old(self).input(), old(self).pos());
        }
        if self.at(TokenKind::If) {
            self.advance();
            let e = self.parse_expr()?;
            Ok(Some(Box::new(e)))
        } else {
            Ok(None)
        }
    }

    fn parse_arms(&mut self) -> (r: Result<Vec<MatchArm>, CompileError>)
        requires
            old(self).wf(),
        ensures
            final(self).wf(),
            final(self).input() == old(self).input(),
            ended(
                match r {
                    Ok(v) => Ok(match_arms_v(v@)),
                    Err(e) => Err(e@),
                },
                final(self).pos(),
            ) == g_arms(
                old(self).input(),
                old(self).pos(),
                Seq::empty(),
            ),
            r is Ok ==> old(self).pos() <= final(self).pos(),
        decreases old(self).left(), 22int,
    {
        proof {
            un_arms(old(self).input(), old(self).pos(), Seq::empty());
        }
        let mut arms: Vec<MatchArm> = Vec::new();
        loop
            invariant
                self.wf(),
                self.input() == old(self).input(),
                old(self).pos() <= self.pos(),
                g_arms(old(self).input(), old(self).pos(), Seq::empty()) == g_arms(
                    old(self).input(),
                    self.pos(),
                    match_arms_v(arms@),
                ),
            decreases self.left(),
        {
            proof {
                un_arms(old(self).input(), self.pos(), match_arms_v(arms@));
            }
            if self.at_list_end() {
                return Ok(arms);
            }
            self.skip_one(TokenKind::Case);
            let pattern = self.parse_pattern()?;
            let guard = self.parse_guard()?;
            self.skip_one(TokenKind::FatArrow);
            let body = self.parse_expr()?;
            let ghost pv = pattern@;
            let ghost bv = body@;
            let arm = MatchArm { pattern, guard, body: Box::new(body) };
            assert(crate::model::match_arm_v(arm) == MatchArmV {
                pattern: pv,
                guard: match guard {
                    None => None,
                    Some(b) => Some(Box::new((*b)@)),
                },
                body: Box::new(bv),
            });
            arms.push(arm);
            self.skip_one(TokenKind::Comma);
        }
    }

    fn parse_while_expr(&mut self) -> (r: Result<Expr, CompileError>)
        requires
            old(self).wf(),
            kind_at(old(self).input(), old(self).pos()) is While,
        ensures
            final(self).wf(),
            final(self).input() == old(self).input(),
            ended(res_v(r), final(self).pos()) == g_while(old(self).input(), old(self).pos()),
            r is Ok ==> old(self).pos() < final(self).pos(),
        decreases old(self).left(), 0int,
    {
        proof {
            un_while(old(self).input(), old(self).pos());
        }
        let start = self.current_span();
        self.advance();
        let cond = self.parse_expr()?;
        let body = self.parse_block()?;
        Ok(Expr::new(ExprKind::While { cond: Box::new(cond), body }, start))
    }

    fn parse_for_expr(&mut self) -> (r: Result<Expr, CompileError>)
        requires
            old(self).wf(),
            kind_at(old(self).input(), old(self).pos()) is For,
        ensures
            final(self).wf(),
            final(self).input() == old(self).input(),
            ended(res_v(r), final(self).pos()) == g_for(old(self).input(), old(self).pos()),
            r is Ok ==> old(self).pos() < final(self).pos(),
        decreases old(self).left(), 0int,
    {
        proof {
            un_for(old(self).input(), old(self).pos());
        }
        let start = self.current_span();
        self.advance();
        let var = self.parse_ident()?;
        self.skip_one(TokenKind::In);
        let iter = self.parse_expr()?;
        let body = self.parse_block()?;
        Ok(Expr::new(ExprKind::For { var, iter: Box::new(iter), body }, start))
    }

    fn parse_quote_expr(&mut self) -> (r: Result<Expr, CompileError>)
        requires
            old(self).wf(),
            kind_at(old(self).input(), old(self).pos()) is Quote,
        ensures
            final(self).wf(),
            final(self).input() == old(self).input(),
            ended(res_v(r), final(self).pos()) == g_quote(old(self).input(), old(self).pos()),
            r is Ok ==> old(self).pos() < final(self).pos(),
        decreases old(self).left(), 0int,
    {
        proof {
            un_quote(old(self).input(), old(self).pos());
        }
        let start = self.current_span();
        self.advance();
        self.skip_one(TokenKind::LBrace);
        let exprs = self.parse_stmts()?;
        self.skip_one(TokenKind::RBrace);
        Ok(Expr::new(ExprKind::Quote(exprs), start))
    }

    // ------------------------------------------------------------------- functions

    fn parse_param(&mut self) -> (r: Result<Param, CompileError>)
        requires
            old(self).wf(),
        ensures
            final(self).wf(),
            final(self).input() == old(self).input(),
            ended(res_v(r), final(self).pos()) == g_param(old(self).input(), old(self).pos()),
            r is Ok ==> old(self).pos() < final(self).pos(),
        decreases old(self).left(), 21int,
    {
        proof {
            un_param(old(self).input(), old(self).pos());
        }
        let span = self.current_span();
        let named: bool = self.at(TokenKind::Tilde);
        self.skip_one(TokenKind::Tilde);
        let name = self.parse_ident()?;
        self.skip_one(TokenKind::Colon);
        let ty = self.parse_type()?;
        let default: Option<Expr> = if self.at(TokenKind::Eq) {
            self.advance();
            let e = self.parse_expr()?;
            Some(e)
        } else {
            None
        };
        let ghost tv = type_v(ty);
        let ghost dv = opt_expr_v(default);
        let param = Param { name, ty, named, default, span };
        assert(param_v(param) == ParamV { name: name@, ty: tv, named, default: dv, span });
        Ok(param)
    }

    /// The parameters behind the opening parenthesis, and the closing one.
    fn parse_params(&mut self) -> (r: Result<Vec<Param>, CompileError>)
        requires
            old(self).wf(),
        ensures
            final(self).wf(),
            final(self).input() == old(self).input(),
            ended(
                match r {
                    Ok(v) => Ok(params_v(v@)),
                    Err(e) => Err(e@),
                },
                final(self).pos(),
            ) == g_params(
                old(self).input(),
                old(self).pos(),
            ),
            r is Ok ==> old(self).pos() <= final(self).pos(),
        decreases old(self).left(), 23int,
    {
        proof {
            un_params(old(self).input(), old(self).pos());
        }
        let mut params: Vec<Param> = Vec::new();
        if self.at(TokenKind::RParen) {
            self.advance();
            return Ok(params);
        }
        loop
            invariant
                self.wf(),
                self.input() == old(self).input(),
                old(self).pos() <= self.pos(),
                !(kind_at(old(self).input(), old(self).pos()) is RParen),
                g_param_list(old(self).input(), old(self).pos(), Seq::empty()) == g_param_list(
                    old(self).input(),
                    self.pos(),
                    params_v(params@),
                ),
            decreases self.left(),
        {
            proof {
                un_param_list( old(self).input(), self.pos(), params_v(params@), );
            }
            proof {
                un_params(old(self).input(), old(self).pos());
            }
            params.push(self.parse_param()?);
            if self.at(TokenKind::Comma) {
                self.advance();
            } else {
                self.skip_one(TokenKind::RParen);
                return Ok(params);
            }
        }
    }

    /// A function from its keyword on.
    fn parse_function(&mut self, is_pub: bool) -> (r: Result<Function, CompileError>)
        requires
            old(self).wf(),
            old(self).pos() < old(self).input().toks.len(),
        ensures
            final(self).wf(),
            final(self).input() == old(self).input(),
            ended(res_v(r), final(self).pos()) == g_function(
                old(self).input(),
                old(self).pos(),
                is_pub,
            ),
            r is Ok ==> old(self).pos() < final(self).pos(),
        decreases old(self).left(), 0int,
    {
        proof {
            un_function(old(self).input(), old(self).pos(), is_pub);
        }
        let span = self.current_span();
        self.advance();
        let name = self.parse_ident()?;
        let generics = self.parse_generic_params()?;
        self.skip_one(TokenKind::LParen);
        let params = self.parse_params()?;
        let return_type = self.parse_return_type()?;
        let body = self.parse_block()?;
        Ok(mk_function(name, generics, params, return_type, body, is_pub, span))
    }

    // ---------------------------------------------------------------- declarations

    fn parse_struct(&mut self, is_pub: bool) -> (r: Result<Struct, CompileError>)
        requires
            old(self).wf(),
            old(self).pos() < old(self).input().toks.len(),
        ensures
            final(self).wf(),
            final(self).input() == old(self).input(),
            ended(res_v(r), final(self).pos()) == g_struct(
                old(self).input(),
                old(self).pos(),
                is_pub,
            ),
            r is Ok ==> old(self).pos() < final(self).pos(),
    {
        proof {
            reveal(g_struct);
        }
        let span = self.current_span();
        self.advance();
        let name = self.parse_ident()?;
        let generics = self.parse_generic_params()?;
        self.skip_one(TokenKind::LBrace);
        let fields = self.parse_struct_fields()?;
        self.skip_one(TokenKind::RBrace);
        Ok(Struct { name, generics, fields, is_pub, span })
    }

    fn parse_struct_fields(&mut self) -> (r: Result<Vec<StructField>, CompileError>)
        requires
            old(self).wf(),
        ensures
            final(self).wf(),
            final(self).input() == old(self).input(),
            ended(
                match r {
                    Ok(v) => Ok(struct_fields_v(v@)),
                    Err(e) => Err(e@),
                },
                final(self).pos(),
            ) == g_struct_fields(
                old(self).input(),
                old(self).pos(),
                Seq::empty(),
            ),
            r is Ok ==> old(self).pos() <= final(self).pos(),
    {
        proof {
            un_struct_fields(old(self).input(), old(self).pos(), Seq::empty());
        }
        let mut fields: Vec<StructField> = Vec::new();
        loop
            invariant
                self.wf(),
                self.input() == old(self).input(),
                old(self).pos() <= self.pos(),
                g_struct_fields(old(self).input(), old(self).pos(), Seq::empty()) == g_struct_fields(
                    old(self).input(),
                    self.pos(),
                    struct_fields_v(fields@),
                ),
            decreases self.left(),
        {
            proof {
                un_struct_fields( old(self).input(), self.pos(), struct_fields_v(fields@), );
            }
            if self.at_list_end() {
                return Ok(fields);
            }
            let span = self.current_span();
            let name = self.parse_ident()?;
            self.skip_one(TokenKind::Colon);
            let ty = self.parse_type()?;
            let ghost tv = ty@;
            let field = StructField { name, ty, span };
            assert(field@ == StructFieldV { name: name@, ty: tv, span });
            fields.push(field);
            self.skip_one(TokenKind::Comma);
        }
    }

    fn parse_enum(&mut self, is_pub: bool) -> (r: Result<Enum, CompileError>)
        requires
            old(self).wf(),
            old(self).pos() < old(self).input().toks.len(),
        ensures
            final(self).wf(),
            final(self).input() == old(self).input(),
            ended(res_v(r), final(self).pos()) == g_enum(
                old(self).input(),
                old(self).pos(),
                is_pub,
            ),
            r is Ok ==> old(self).pos() < final(self).pos(),
    {
        proof {
            reveal(g_enum);
        }
        let span = self.current_span();
        self.advance();
        let name = self.parse_ident()?;
        let generics = self.parse_generic_params()?;
        self.skip_one(TokenKind::LBrace);
        let cases = self.parse_cases()?;
        self.skip_one(TokenKind::RBrace);
        Ok(Enum { name, generics, cases, is_pub, span })
    }

    /// `(label: T)`, `(T)` or nothing.
    fn parse_payload(&mut self) -> (r: Result<Option<Type>, CompileError>)
        requires
            old(self).wf(),
        ensures
            final(self).wf(),
            final(self).input() == old(self).input(),
            ended(
                match r {
                    Ok(v) => Ok(opt_type_v(v)),
                    Err(e) => Err(e@),
                },
                final(self).pos(),
            ) == g_payload(
                old(self).input(),
                old(self).pos(),
            ),
            r is Ok ==> old(self).pos() <= final(self).pos(),
    {
        proof {
            reveal(g_payload);
        }
        if !self.at(TokenKind::LParen) {
            return Ok(None);
        }
        self.advance();
        if self.at_ident() && self.at_ahead(1, TokenKind::Colon) && !self.at_ahead(2, TokenKind::Colon) {
            self.advance();
            self.advance();
        }
        let ty = self.parse_type()?;
        self.skip_one(TokenKind::RParen);
        Ok(Some(ty))
    }

    fn parse_cases(&mut self) -> (r: Result<Vec<EnumCase>, CompileError>)
        requires
            old(self).wf(),
        ensures
            final(self).wf(),
            final(self).input() == old(self).input(),
            ended(
                match r {
                    Ok(v) => Ok(enum_cases_v(v@)),
                    Err(e) => Err(e@),
                },
                final(self).pos(),
            ) == g_cases(
                old(self).input(),
                old(self).pos(),
                Seq::empty(),
            ),
            r is Ok ==> old(self).pos() <= final(self).pos(),
    {
        proof {
            un_cases(old(self).input(), old(self).pos(), Seq::empty());
        }
        let mut cases: Vec<EnumCase> = Vec::new();
        loop
            invariant
                self.wf(),
                self.input() == old(self).input(),
                old(self).pos() <= self.pos(),
                g_cases(old(self).input(), old(self).pos(), Seq::empty()) == g_cases(
                    old(self).input(),
                    self.pos(),
                    enum_cases_v(cases@),
                ),
            decreases self.left(),
        {
            proof {
                un_cases(old(self).input(), self.pos(), enum_cases_v(cases@));
            }
            if self.at_list_end() {
                return Ok(cases);
            }
            let span = self.current_span();
            self.skip_one(TokenKind::Case);
            let name = self.parse_ident()?;
            let payload = self.parse_payload()?;
            let case = EnumCase { name, payload, span };
            assert(case@ == EnumCaseV { name: name@, payload: opt_type_v(payload), span });
            cases.push(case);
            self.skip_one(TokenKind::Comma);
        }
    }

    fn parse_type_alias(&mut self) -> (r: Result<TypeAlias, CompileError>)
        requires
            old(self).wf(),
            old(self).pos() < old(self).input().toks.len(),
        ensures
            final(self).wf(),
            final(self).input() == old(self).input(),
            ended(res_v(r), final(self).pos()) == g_type_alias(old(self).input(), old(self).pos()),
            r is Ok ==> old(self).pos() < final(self).pos(),
    {
        proof {
            reveal(g_type_alias);
        }
        let span = self.current_span();
        self.advance();
        let name = self.parse_ident()?;
        let generics = self.parse_generic_params()?;
        self.skip_one(TokenKind::Eq);
        let ty = self.parse_type()?;
        self.skip_one(TokenKind::Semicolon);
        Ok(TypeAlias { name, generics, ty, span })
    }

    /// `as Name`, or nothing.
    fn parse_alias(&mut self) -> (r: Result<Option<String>, CompileError>)
        requires
            old(self).wf(),
        ensures
            final(self).wf(),
            final(self).input() == old(self).input(),
            ended(
                match r {
                    Ok(v) => Ok(opt_str_v(v)),
                    Err(e) => Err(e@),
                },
                final(self).pos(),
            ) == g_alias(
                old(self).input(),
                old(self).pos(),
            ),
            r is Ok ==> old(self).pos() <= final(self).pos(),
    {
        proof {
            reveal(g_alias);
        }
        if self.at(TokenKind::As) {
            self.advance();
            let s = self.parse_ident()?;
            Ok(Some(s))
        } else {
            Ok(None)
        }
    }

    fn parse_trait_def(&mut self) -> (r: Result<TraitDef, CompileError>)
        requires
            old(self).wf(),
            old(self).pos() < old(self).input().toks.len(),
        ensures
            final(self).wf(),
            final(self).input() == old(self).input(),
            ended(res_v(r), final(self).pos()) == g_trait(old(self).input(), old(self).pos()),
            r is Ok ==> old(self).pos() < final(self).pos(),
    {
        proof {
            reveal(g_trait);
        }
        let span = self.current_span();
        self.advance();
        let name = self.parse_ident()?;
        let generics = self.parse_generic_params()?;
        let self_alias = self.parse_alias()?;
        self.skip_one(TokenKind::LBrace);
        let methods = self.parse_trait_methods()?;
        self.skip_one(TokenKind::RBrace);
        Ok(TraitDef { name, generics, self_alias, methods, span })
    }

    fn parse_trait_methods(&mut self) -> (r: Result<Vec<Function>, CompileError>)
        requires
            old(self).wf(),
        ensures
            final(self).wf(),
            final(self).input() == old(self).input(),
            ended(
                match r {
                    Ok(v) => Ok(functions_v(v@)),
                    Err(e) => Err(e@),
                },
                final(self).pos(),
            ) == g_trait_methods(
                old(self).input(),
                old(self).pos(),
                Seq::empty(),
            ),
            r is Ok ==> old(self).pos() <= final(self).pos(),
    {
        proof {
            un_trait_methods(old(self).input(), old(self).pos(), Seq::empty());
        }
        let mut methods: Vec<Function> = Vec::new();
        loop
            invariant
                self.wf(),
                self.input() == old(self).input(),
                old(self).pos() <= self.pos(),
                g_trait_methods(old(self).input(), old(self).pos(), Seq::empty()) == g_trait_methods(
                    old(self).input(),
                    self.pos(),
                    functions_v(methods@),
                ),
            decreases self.left(),
        {
            proof {
                un_trait_methods( old(self).input(), self.pos(), functions_v(methods@), );
            }
            if self.at_list_end() {
                return Ok(methods);
            }
            methods.push(self.parse_trait_method()?);
        }
    }

    /// A method of a trait: its body may be a semicolon.
    fn parse_trait_method(&mut self) -> (r: Result<Function, CompileError>)
        requires
            old(self).wf(),
        ensures
            final(self).wf(),
            final(self).input() == old(self).input(),
            ended(res_v(r), final(self).pos()) == g_trait_method(
                old(self).input(),
                old(self).pos(),
            ),
            r is Ok ==> old(self).pos() < final(self).pos(),
    {
        proof {
            reveal(g_trait_method);
        }
        let span = self.current_span();
        self.skip_one(TokenKind::Func);
        let name = self.parse_ident()?;
        let generics = self.parse_generic_params()?;
        self.skip_one(TokenKind::LParen);
        let params = self.parse_params()?;
        let return_type = self.parse_return_type()?;
        let body = if self.at(TokenKind::LBrace) {
            self.parse_block()?
        } else {
            self.skip_one(TokenKind::Semicolon);
            let b = Block { stmts: Vec::new(), span };
            let ghost g = block_v(b);
            b
        };
        Ok(mk_function(name, generics, params, return_type, body, false, span))
    }

    fn parse_impl_block(&mut self) -> (r: Result<ImplBlock, CompileError>)
        requires
            old(self).wf(),
            old(self).pos() < old(self).input().toks.len(),
        ensures
            final(self).wf(),
            final(self).input() == old(self).input(),
            ended(res_v(r), final(self).pos()) == g_impl(old(self).input(), old(self).pos()),
            r is Ok ==> old(self).pos() < final(self).pos(),
    {
        proof {
            reveal(g_impl);
        }
        let span = self.current_span();
        self.advance();
        let trait_name = self.parse_ident()?;
        let generics = self.parse_generic_params()?;
        self.skip_one(TokenKind::For);
        let target_type = self.parse_type()?;
        self.skip_one(TokenKind::LBrace);
        let methods = self.parse_methods()?;
        self.skip_one(TokenKind::RBrace);
        Ok(ImplBlock { trait_name, generics, target_type, methods, span })
    }

    fn parse_methods(&mut self) -> (r: Result<Vec<Function>, CompileError>)
        requires
            old(self).wf(),
        ensures
            final(self).wf(),
            final(self).input() == old(self).input(),
            ended(
                match r {
                    Ok(v) => Ok(functions_v(v@)),
                    Err(e) => Err(e@),
                },
                final(self).pos(),
            ) == g_methods(
                old(self).input(),
                old(self).pos(),
                Seq::empty(),
            ),
            r is Ok ==> old(self).pos() <= final(self).pos(),
    {
        proof {
            un_methods(old(self).input(), old(self).pos(), Seq::empty());
        }
        let mut methods: Vec<Function> = Vec::new();
        loop
            invariant
                self.wf(),
                self.input() == old(self).input(),
                old(self).pos() <= self.pos(),
                g_methods(old(self).input(), old(self).pos(), Seq::empty()) == g_methods(
                    old(self).input(),
                    self.pos(),
                    functions_v(methods@),
                ),
            decreases self.left(),
        {
            proof {
                un_methods(old(self).input(), self.pos(), functions_v(methods@));
            }
            if self.at_list_end() {
                return Ok(methods);
            }
            methods.push(self.parse_function(false)?);
        }
    }

    /// `= value`, or nothing.
    fn parse_init(&mut self) -> (r: Result<Option<Expr>, CompileError>)
        requires
            old(self).wf(),
        ensures
            final(self).wf(),
            final(self).input() == old(self).input(),
            ended(
                match r {
                    Ok(v) => Ok(opt_expr_v(v)),
                    Err(e) => Err(e@),
                },
                final(self).pos(),
            ) == g_init(
                old(self).input(),
                old(self).pos(),
            ),
            r is Ok ==> old(self).pos() <= final(self).pos(),
    {
        proof {
            reveal(g_init);
        }
        if self.at(TokenKind::Eq) {
            self.advance();
            let e = self.parse_expr()?;
            Ok(Some(e))
        } else {
            Ok(None)
        }
    }

    fn parse_var_decl(&mut self) -> (r: Result<VarDecl, CompileError>)
        requires
            old(self).wf(),
            old(self).pos() < old(self).input().toks.len(),
        ensures
            final(self).wf(),
            final(self).input() == old(self).input(),
            ended(res_v(r), final(self).pos()) == g_var_decl(old(self).input(), old(self).pos()),
            r is Ok ==> old(self).pos() < final(self).pos(),
    {
        proof {
            reveal(g_var_decl);
        }
        let span = self.current_span();
        let is_mut: bool = self.at(TokenKind::Var);
        self.advance();
        let name = self.parse_ident()?;
        let ty = self.parse_opt_type()?;
        let value = self.parse_init()?;
        self.skip_one(TokenKind::Semicolon);
        let ghost tv = opt_type_v(ty);
        let ghost ev = opt_expr_v(value);
        let decl = VarDecl { name, ty, value, is_mut, span };
        assert(decl@ == crate::model::VarDeclV { name: name@, ty: tv, value: ev, is_mut, span });
        Ok(decl)
    }

    fn parse_macro_params(&mut self) -> (r: Result<Vec<String>, CompileError>)
        requires
            old(self).wf(),
        ensures
            final(self).wf(),
            final(self).input() == old(self).input(),
            ended(
                match r {
                    Ok(v) => Ok(strs_v(v@)),
                    Err(e) => Err(e@),
                },
                final(self).pos(),
            ) == g_macro_params(
                old(self).input(),
                old(self).pos(),
                Seq::empty(),
            ),
            r is Ok ==> old(self).pos() <= final(self).pos(),
    {
        proof {
            un_macro_params(old(self).input(), old(self).pos(), Seq::empty());
        }
        let mut params: Vec<String> = Vec::new();
        loop
            invariant
                self.wf(),
                self.input() == old(self).input(),
                old(self).pos() <= self.pos(),
                g_macro_params(old(self).input(), old(self).pos(), Seq::empty()) == g_macro_params(
                    old(self).input(),
                    self.pos(),
                    strs_v(params@),
                ),
            decreases self.left(),
        {
            proof {
                un_macro_params( old(self).input(), self.pos(), strs_v(params@), );
            }
            if self.at(TokenKind::RParen) || self.at(TokenKind::Eof) {
                return Ok(params);
            }
            params.push(self.parse_ident()?);
            self.skip_one(TokenKind::Comma);
        }
    }

    fn parse_macro_def(&mut self) -> (r: Result<MacroDef, CompileError>)
        requires
            old(self).wf(),
            old(self).pos() < old(self).input().toks.len(),
        ensures
            final(self).wf(),
            final(self).input() == old(self).input(),
            ended(res_v(r), final(self).pos()) == g_macro_def(old(self).input(), old(self).pos()),
            r is Ok ==> old(self).pos() < final(self).pos(),
    {
        proof {
            reveal(g_macro_def);
        }
        let span = self.current_span();
        self.advance();
        let name = self.parse_ident()?;
        self.skip_one(TokenKind::LParen);
        let params = self.parse_macro_params()?;
        self.skip_one(TokenKind::RParen);
        let body = if self.at(TokenKind::FatArrow) {
            self.advance();
            self.parse_expr()?
        } else {
            let b = self.parse_block()?;
            let ghost g = block_v(b);
            Expr::block(b.stmts, span)
        };
        let ghost bv = body@;
        let def = MacroDef { name, params, body: Box::new(body), span };
        assert(def@ == crate::model::MacroDefV {
            name: name@,
            params: strs_v(params@),
            body: Box::new(bv),
            span,
        });
        Ok(def)
    }

    // --------------------------------------------------------------------- modules

    /// One argument of `@import`.
    fn parse_import_arg(&mut self) -> (r: Result<Expr, CompileError>)
        requires
            old(self).wf(),
        ensures
            final(self).wf(),
            final(self).input() == old(self).input(),
            ended(res_v(r), final(self).pos()) == g_import_arg(old(self).input(), old(self).pos()),
            r is Ok ==> old(self).pos() < final(self).pos(),
    {
        proof {
            reveal(g_import_arg);
        }
        let left = self.parse_expr()?;
        if self.at(TokenKind::FatArrow) {
            self.advance();
            let right = self.parse_expr()?;
            let span = left.span.merge(&right.span);
            Ok(Expr::assign(left, right, span))
        } else {
            Ok(left)
        }
    }

    fn parse_import_args(&mut self) -> (r: Result<Vec<Expr>, CompileError>)
        requires
            old(self).wf(),
        ensures
            final(self).wf(),
            final(self).input() == old(self).input(),
            ended(
                match r {
                    Ok(v) => Ok(exprs_v(v@)),
                    Err(e) => Err(e@),
                },
                final(self).pos(),
            ) == g_import_args(
                old(self).input(),
                old(self).pos(),
                Seq::empty(),
            ),
            r is Ok ==> old(self).pos() < final(self).pos(),
    {
        proof {
            un_import_args(old(self).input(), old(self).pos(), Seq::empty());
        }
        let mut args: Vec<Expr> = Vec::new();
        loop
            invariant
                self.wf(),
                self.input() == old(self).input(),
                old(self).pos() <= self.pos(),
                g_import_args(old(self).input(), old(self).pos(), Seq::empty()) == g_import_args(
                    old(self).input(),
                    self.pos(),
                    exprs_v(args@),
                ),
            decreases self.left(),
        {
            proof {
                un_import_args( old(self).input(), self.pos(), exprs_v(args@), );
            }
            args.push(self.parse_import_arg()?);
            if self.at(TokenKind::Comma) {
                self.advance();
            } else {
                self.skip_one(TokenKind::RParen);
                return Ok(args);
            }
        }
    }

    /// The arguments of a macro call at module level.
    fn parse_item_args(&mut self, import: bool) -> (r: Result<Vec<Expr>, CompileError>)
        requires
            old(self).wf(),
        ensures
            final(self).wf(),
            final(self).input() == old(self).input(),
            ended(
                match r {
                    Ok(v) => Ok(exprs_v(v@)),
                    Err(e) => Err(e@),
                },
                final(self).pos(),
            ) == g_item_args(
                old(self).input(),
                old(self).pos(),
                import,
            ),
            r is Ok ==> old(self).pos() < final(self).pos(),
    {
        proof {
            reveal(g_item_args);
        }
        if self.at(TokenKind::LParen) {
            if import && !self.at_ahead(1, TokenKind::RParen) {
                self.advance();
                self.parse_import_args()
            } else {
                self.parse_call_args()
            }
        } else {
            let e = self.parse_expr()?;
            let mut args: Vec<Expr> = Vec::new();
            args.push(e);
            assert(exprs_v(args@) =~= seq![e@]);
            Ok(args)
        }
    }

    fn parse_macro_item(&mut self) -> (r: Result<MacroCallItem, CompileError>)
        requires
            old(self).wf(),
            old(self).pos() < old(self).input().toks.len(),
        ensures
            final(self).wf(),
            final(self).input() == old(self).input(),
            ended(res_v(r), final(self).pos()) == g_macro_item(old(self).input(), old(self).pos()),
            r is Ok ==> old(self).pos() < final(self).pos(),
    {
        proof {
            reveal(g_macro_item);
        }
        let span = self.current_span();
        self.advance();
        let import: bool = self.at(TokenKind::Import);
        proof {
            reveal(g_macro_name);
        }
        let name = if import {
            self.advance();
            "import".to_owned()
        } else {
            self.parse_ident()?
        };
        let args = self.parse_item_args(import)?;
        Ok(MacroCallItem { name, args, span })
    }

    fn parse_item(&mut self) -> (r: Result<Item, CompileError>)
        requires
            old(self).wf(),
        ensures
            final(self).wf(),
            final(self).input() == old(self).input(),
            ended(res_v(r), final(self).pos()) == g_item(old(self).input(), old(self).pos()),
            r is Ok ==> old(self).pos() < final(self).pos(),
    {
        proof {
            reveal(g_item);
        }
        let is_pub: bool = self.at(TokenKind::Pub);
        self.skip_one(TokenKind::Pub);
        if self.at(TokenKind::Func) {
            let x = self.parse_function(is_pub)?;
            return Ok(Item::Function(x));
        }
        if self.at(TokenKind::Struct) {
            let x = self.parse_struct(is_pub)?;
            return Ok(Item::Struct(x));
        }
        if self.at(TokenKind::Enum) {
            let x = self.parse_enum(is_pub)?;
            return Ok(Item::Enum(x));
        }
        if self.at(TokenKind::Macro) {
            let x = self.parse_macro_def()?;
            return Ok(Item::Macro(x));
        }
        if self.at(TokenKind::Trait) {
            let x = self.parse_trait_def()?;
            return Ok(Item::Trait(x));
        }
        if self.at(TokenKind::Impl) {
            let x = self.parse_impl_block()?;
            return Ok(Item::Impl(x));
        }
        if self.at(TokenKind::Type) {
            let x = self.parse_type_alias()?;
            return Ok(Item::TypeAlias(x));
        }
        if self.at(TokenKind::Let) || self.at(TokenKind::Var) {
            let x = self.parse_var_decl()?;
            return Ok(Item::VarDecl(x));
        }
        if self.at(TokenKind::At) {
            let x = self.parse_macro_item()?;
            return Ok(Item::MacroCall(x));
        }
        Err(
            CompileError::parse(
                &cat3("Expected declaration, got '", &self.text_here(), "'"),
                self.peek().span,
            ),
        )
    }

    fn parse_import_items(&mut self) -> (r: Result<Vec<ImportItem>, CompileError>)
        requires
            old(self).wf(),
        ensures
            final(self).wf(),
            final(self).input() == old(self).input(),
            ended(
                match r {
                    Ok(v) => Ok(import_items_v(v@)),
                    Err(e) => Err(e@),
                },
                final(self).pos(),
            ) == g_import_items(
                old(self).input(),
                old(self).pos(),
                Seq::empty(),
            ),
            r is Ok ==> old(self).pos() <= final(self).pos(),
    {
        proof {
            un_import_items(old(self).input(), old(self).pos(), Seq::empty());
        }
        let mut items: Vec<ImportItem> = Vec::new();
        loop
            invariant
                self.wf(),
                self.input() == old(self).input(),
                old(self).pos() <= self.pos(),
                g_import_items(old(self).input(), old(self).pos(), Seq::empty()) == g_import_items(
                    old(self).input(),
                    self.pos(),
                    import_items_v(items@),
                ),
            decreases self.left(),
        {
            proof {
                un_import_items( old(self).input(), self.pos(), import_items_v(items@), );
            }
            if self.at_list_end() {
                return Ok(items);
            }
            let name = self.parse_ident()?;
            let alias = self.parse_alias()?;
            let item = ImportItem::Single { name, alias };
            assert(item@ == ImportItemV::Single { name: name@, alias: opt_str_v(alias) });
            items.push(item);
            self.skip_one(TokenKind::Comma);
        }
    }

    fn parse_import(&mut self) -> (r: Result<Import, CompileError>)
        requires
            old(self).wf(),
            old(self).pos() < old(self).input().toks.len(),
        ensures
            final(self).wf(),
            final(self).input() == old(self).input(),
            ended(res_v(r), final(self).pos()) == g_import(old(self).input(), old(self).pos()),
            r is Ok ==> old(self).pos() < final(self).pos(),
    {
        proof {
            reveal(g_import);
        }
        let span = self.current_span();
        self.advance();
        let mut path: Vec<String> = Vec::new();
        loop
            invariant_except_break
                g_import_path(old(self).input(), old(self).pos() + 1, Seq::empty()) == g_import_path(
                    old(self).input(),
                    self.pos(),
                    strs_v(path@),
                ),
            invariant
                self.wf(),
                self.input() == old(self).input(),
                old(self).pos() <= self.pos(),
                old(self).pos() < self.pos(),
            ensures
                g_import_path(old(self).input(), old(self).pos() + 1, Seq::empty()) == (
                    strs_v(path@),
                    self.pos(),
                ),
            decreases self.left(),
        {
            proof {
                un_import_path( old(self).input(), self.pos(), strs_v(path@), );
            }
            match self.ident_here() {
                Some(s) => {
                    path.push(s);
                    self.advance();
                },
                None => {
                    break;
                },
            }
            if self.at(TokenKind::Dot) {
                self.advance();
            } else {
                break;
            }
        }
        let items: Vec<ImportItem> = if self.at(TokenKind::LBrace) {
            self.advance();
            let items = self.parse_import_items()?;
            self.skip_one(TokenKind::RBrace);
            items
        } else {
            let mut items: Vec<ImportItem> = Vec::new();
            items.push(ImportItem::All);
            assert(import_items_v(items@) =~= seq![ImportItemV::All]);
            items
        };
        self.skip_one(TokenKind::Semicolon);
        Ok(Import { path, items, span })
    }

    /// The module that the tokens make.
    pub fn parse_module(&mut self, name: String) -> (r: Result<Module, CompileError>)
        requires
            old(self).wf(),
        ensures
            final(self).wf(),
            final(self).input() == old(self).input(),
            res_v(r) == g_module(old(self).input(), old(self).pos(), name@),
            r is Ok ==> kind_at(final(self).input(), final(self).pos()) is Eof,
    {
        proof {
            reveal(g_module);
        }
        if self.at(TokenKind::Module) {
            self.advance();
            if self.at_ident() {
                self.advance();
                self.skip_one(TokenKind::Semicolon);
            }
        }
        let ghost p0 = self.pos();
        let mut imports: Vec<Import> = Vec::new();
        let mut items: Vec<Item> = Vec::new();
        loop
            invariant
                self.wf(),
                self.input() == old(self).input(),
                p0 == module_start(old(self).input(), old(self).pos()),
                g_items(self.input(), p0, Seq::empty(), Seq::empty()) == g_items(
                    self.input(),
                    self.pos(),
                    imports_v(imports@),
                    items_v(items@),
                ),
            decreases self.left(),
        {
            proof {
                un_items( self.input(), self.pos(), imports_v(imports@), items_v(items@), );
            }
            proof {
                reveal(g_module);
            }
            if self.at(TokenKind::Eof) {
                let module = Module { name, imports, items };
                return Ok(module);
            }
            if self.at(TokenKind::Import) {
                imports.push(self.parse_import()?);
            } else {
                items.push(self.parse_item()?);
            }
        }
    }
}

fn mk_pattern(kind: PatternKind, span: Span) -> (r: Pattern)
    ensures
        r@ == (PatternV { kind: kind@, span }),
{
    Pattern { kind, span }
}

fn mk_function(
    name: String,
    generics: Vec<GenericParam>,
    params: Vec<Param>,
    return_type: Type,
    body: Block,
    is_pub: bool,
    span: Span,
) -> (r: Function)
    ensures
        r@ == (FunctionV {
            name: name@,
            generics: generic_params_v(generics@),
            params: params_v(params@),
            return_type: return_type@,
            body: body@,
            is_pub,
            span,
        }),
{
    Function { name, generics, params, return_type, body, is_pub, span }
}

fn one_name(name: String) -> (r: Vec<String>)
    ensures
        strs_v(r@) == seq![name@],
{
    let mut path: Vec<String> = Vec::new();
    path.push(name);
    assert(strs_v(path@) =~= seq![name@]);
    path
}

fn starts_uppercase(name: &str) -> (r: bool)
    ensures
        r == (name@.len() > 0 && crate::text::is_uppercase(name@[0])),
{
    let chars = chars_of(name);
    chars.len() > 0 && char_is_uppercase(chars[0])
}

} // verus!
