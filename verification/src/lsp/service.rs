//! The answers to an editor's questions about one document.
use vstd::prelude::*;

verus! {

use crate::ast::{EnumCase, Function, Item, Module, StructField, Type, type_text};
use crate::driver::{check, checked, expand, expanded, runnable, search_order};
use crate::error::{CompileError, CompileErrorV, error_text, located};
use crate::host::{Host, HostV, Stop, StopV, ran};
use crate::lexer::{Lexer, tokens_of};
use crate::lsp::completion::{
    CompletionItem, CompletionItemV, build_completions, build_dot_completions, dot_receiver,
    member_completions, module_completions, receiver_at, show_signature, signature_text,
};
use crate::lsp::position::{
    Position, Range, at_most, begin_span, begun, begun_span, begun_tokens, chars_before, index_at,
    index_of_offset, lines_before, offset_at, offset_of_position, position_at,
};
use crate::lsp::semantic::{
    compute_semantic_tokens, encoded, lemma_places, len_of, line_of, span_len, start_of, token_line,
    token_start,
};
use crate::lsp::symbols::{DocumentSymbol, build_document_symbols, outline_from, symbols_v};
use crate::lsp::uri::{file_stem, parent_of, stem_of, uri_path};
use crate::maps::{lemma_list_empty, lemma_list_push, list_v};
use crate::model::{
    EnumCaseV, FunctionV, ItemV, ModuleV, StructFieldV, TypeV, block_v, enum_case_v, enum_cases_v,
    enum_v, function_v, functions_v, group_list_views, impl_block_v, item_v, module_v, opt_type_v,
    struct_field_v, struct_fields_v, struct_v, trait_def_v, var_decl_v,
};
use crate::mono::Mono;
use crate::mono_model::var_type_at;
use crate::source::{parse_source, parsed};
use crate::text::{
    cat2, cat3, cat4, cat5, chars_of, join, join_v, opt_str_v, str_eq, strs_v, text_between,
};
use crate::token::{Span, Token, TokenKind, TokenKindV, TokenV, max_of, tokens_v, zero_span};

broadcast use {group_list_views, lemma_list_push, lemma_list_empty};

// ------------------------------------------------------------------ diagnostics

/// An error that an editor shows.
#[derive(Debug)]
pub struct Diagnostic {
    pub range: Range,
    /// Who found the error.
    pub source: String,
    pub message: String,
}

/// The model of a [`Diagnostic`].
#[verifier::ext_equal]
pub struct DiagnosticV {
    pub range: Range,
    pub source: Seq<char>,
    pub message: Seq<char>,
}

impl View for Diagnostic {
    type V = DiagnosticV;

    open spec fn view(&self) -> DiagnosticV {
        DiagnosticV { range: self.range, source: self.source@, message: self.message@ }
    }
}

/// The stretch of a token that carries the line and column where it begins.
pub open spec fn stretch(span: Span) -> Range {
    Range {
        start: Position { line: token_line(span), character: token_start(span) },
        end: Position {
            line: token_line(span),
            character: (max_of(span.col, 1) - 1 + span_len(span)) as u32,
        },
    }
}

fn stretch_of(span: &Span) -> (r: Range)
    ensures
        r == stretch(*span),
{
    let line = line_of(span);
    let col: usize = if span.col < 1 {
        1
    } else {
        span.col
    };
    let end: u128 = (col - 1) as u128 + len_of(span) as u128;
    Range {
        start: Position { line, character: start_of(span) },
        end: Position { line, character: end as u32 },
    }
}

/// Where an error is shown: from its line and column on, at least one character, and the
/// first one of the source where its place is not known.
pub open spec fn error_range(span: Span) -> Range {
    if span.line > 0 {
        Range {
            start: Position { line: token_line(span), character: token_start(span) },
            end: Position {
                line: token_line(span),
                character: (token_start(span) + max_of(span_len(span), 1)) as u32,
            },
        }
    } else {
        Range {
            start: Position { line: 0, character: 0 },
            end: Position { line: 0, character: 1 },
        }
    }
}

/// How an error is shown.
pub open spec fn diagnostic_of(e: CompileErrorV) -> DiagnosticV {
    match located(e) {
        Some((message, span)) => DiagnosticV {
            range: error_range(span),
            source: "nova"@,
            message,
        },
        None => DiagnosticV {
            range: error_range(zero_span()),
            source: "nova"@,
            message: error_text(e),
        },
    }
}

/// How an error is shown.
pub fn compile_error_to_diagnostic(e: &CompileError, _source: &str) -> (r: Diagnostic)
    ensures
        r@ == diagnostic_of(e@),
{
    let (message, span): (String, Span) = match e {
        CompileError::LexError { message, span } => (message.clone(), *span),
        CompileError::ParseError { message, span } => (message.clone(), *span),
        CompileError::TypeError { message, span } => (message.clone(), *span),
        CompileError::MacroError { message, span } => (message.clone(), *span),
        CompileError::IoError(_) | CompileError::Generic(_) => (e.display(), Span::zero()),
    };
    let range = if span.line > 0 {
        let len = len_of(&span);
        let line = line_of(&span);
        let character = start_of(&span);
        let room: usize = if len < 1 {
            1
        } else {
            len
        };
        let end: u128 = character as u128 + room as u128;
        Range {
            start: Position { line, character },
            end: Position { line, character: end as u32 },
        }
    } else {
        Range {
            start: Position { line: 0, character: 0 },
            end: Position { line: 0, character: 1 },
        }
    };
    Diagnostic { range, source: "nova".to_owned(), message }
}

/// A place with the line and column where it begins, if it is known.
pub open spec fn begun_place(src: Seq<char>, span: Span) -> Span {
    if span.line > 0 {
        begun_span(src, span)
    } else {
        span
    }
}

/// An error of a source with the line and column where its place begins.
pub open spec fn begun_error(src: Seq<char>, e: CompileErrorV) -> CompileErrorV {
    match e {
        CompileErrorV::LexError { message, span } => CompileErrorV::LexError {
            message,
            span: begun_place(src, span),
        },
        CompileErrorV::ParseError { message, span } => CompileErrorV::ParseError {
            message,
            span: begun_place(src, span),
        },
        CompileErrorV::TypeError { message, span } => CompileErrorV::TypeError {
            message,
            span: begun_place(src, span),
        },
        CompileErrorV::MacroError { message, span } => CompileErrorV::MacroError {
            message,
            span: begun_place(src, span),
        },
        _ => e,
    }
}

fn begin_place(source: &str, span: &Span) -> (r: Span)
    ensures
        r == begun_place(source@, *span),
{
    if span.line > 0 {
        begin_span(source, span)
    } else {
        *span
    }
}

/// An error of a source with the line and column where its place begins.
pub fn begin_error(source: &str, e: &CompileError) -> (r: CompileError)
    ensures
        r@ == begun_error(source@, e@),
{
    match e {
        CompileError::LexError { message, span } => CompileError::LexError {
            message: message.clone(),
            span: begin_place(source, span),
        },
        CompileError::ParseError { message, span } => CompileError::ParseError {
            message: message.clone(),
            span: begin_place(source, span),
        },
        CompileError::TypeError { message, span } => CompileError::TypeError {
            message: message.clone(),
            span: begin_place(source, span),
        },
        CompileError::MacroError { message, span } => CompileError::MacroError {
            message: message.clone(),
            span: begin_place(source, span),
        },
        CompileError::IoError(s) => CompileError::IoError(s.clone()),
        CompileError::Generic(s) => CompileError::Generic(s.clone()),
    }
}

/// The errors of a document: the first one that reading it, expanding its macros or checking
/// its types finds.
pub open spec fn diagnostics(h: HostV, uri: Seq<char>, src: Seq<char>, fuel: nat) -> Result<
    Seq<DiagnosticV>,
    StopV,
> {
    let path = uri_path(uri);
    match parsed(src, stem_of(path)) {
        Err(e) => Ok(seq![diagnostic_of(begun_error(src, e))]),
        Ok(m) => match expanded(h, search_order(parent_of(path), Seq::empty()), m, fuel) {
            Err(StopV::Error(e)) => Ok(seq![diagnostic_of(begun_error(src, e))]),
            Err(s) => Err(s),
            Ok(m1) => match checked(m1) {
                Err(e) => Ok(seq![diagnostic_of(begun_error(src, e))]),
                Ok(_) => Ok(Seq::empty()),
            },
        },
    }
}

pub open spec fn list_ran<T: View>(r: Result<Vec<T>, Stop>) -> Result<Seq<T::V>, StopV> {
    match r {
        Ok(v) => Ok(list_v(v@)),
        Err(s) => Err(s@),
    }
}

fn one_error(e: &CompileError, source: &str) -> (r: Vec<Diagnostic>)
    ensures
        list_v(r@) == seq![diagnostic_of(begun_error(source@, e@))],
{
    let mut out: Vec<Diagnostic> = Vec::new();
    out.push(compile_error_to_diagnostic(&begin_error(source, e), source));
    assert(list_v(out@) =~= seq![diagnostic_of(begun_error(source@, e@))]);
    out
}

/// The errors of a document.
pub fn compute_diagnostics(uri: &str, source: &str, host: &Host, fuel: u64) -> (r: Result<
    Vec<Diagnostic>,
    Stop,
>)
    ensures
        list_ran(r) == diagnostics(host@, uri@, source@, fuel as nat),
{
    let name = file_stem(uri);
    let m = match parse_source(source, &name) {
        Err(e) => {
            return Ok(one_error(&e, source));
        },
        Ok(m) => m,
    };
    let dirs = crate::lsp::uri::search_paths(uri);
    let m1 = match expand(m, &dirs, host, fuel) {
        Err(Stop::Error(e)) => {
            return Ok(one_error(&e, source));
        },
        Err(s) => {
            return Err(s);
        },
        Ok(m) => m,
    };
    match check(m1) {
        Err(e) => Ok(one_error(&e, source)),
        Ok(_) => Ok(Vec::new()),
    }
}

// ----------------------------------------------------------- reading a document

/// A module with its macros expanded, or as it is written where that fails.
pub open spec fn best_expanded(h: HostV, uri: Seq<char>, m: ModuleV, fuel: nat) -> Result<
    ModuleV,
    StopV,
> {
    match expanded(h, search_order(parent_of(uri_path(uri)), Seq::empty()), m, fuel) {
        Ok(m1) => Ok(m1),
        Err(StopV::Error(_)) => Ok(m),
        Err(s) => Err(s),
    }
}

fn expand_macros(module: Module, uri: &str, host: &Host, fuel: u64) -> (r: Result<Module, Stop>)
    ensures
        ran(r) == best_expanded(host@, uri@, module@, fuel as nat),
{
    let dirs = crate::lsp::uri::search_paths(uri);
    match expand(module.dup(), &dirs, host, fuel) {
        Ok(m1) => Ok(m1),
        Err(Stop::Error(_)) => Ok(module),
        Err(s) => Err(s),
    }
}

/// The module of a document as it is written.
pub open spec fn written(uri: Seq<char>, src: Seq<char>) -> Option<ModuleV> {
    match parsed(src, stem_of(uri_path(uri))) {
        Ok(m) => Some(m),
        Err(_) => None,
    }
}

/// The module of a document as it is written.
pub fn try_parse(source: &str, uri: &str) -> (r: Option<Module>)
    ensures
        match r {
            Some(m) => Some(m@),
            None => None,
        } == written(uri@, source@),
{
    let name = file_stem(uri);
    match parse_source(source, &name) {
        Ok(m) => Some(m),
        Err(_) => None,
    }
}

/// The tokens of a document with the lines and columns where they begin, if it can be
/// lexed.
pub open spec fn document_tokens(src: Seq<char>) -> Option<Seq<TokenV>> {
    match tokens_of(src) {
        Ok(ts) => Some(begun_tokens(src, ts)),
        Err(_) => None,
    }
}

/// The tokens of a document with the lines and columns where they begin, if it can be
/// lexed.
fn try_lex(source: &str) -> (r: Option<Vec<Token>>)
    ensures
        match r {
            Some(ts) => Some(tokens_v(ts@)),
            None => None,
        } == document_tokens(source@),
{
    let mut lexer = Lexer::new(source);
    match lexer.tokenize() {
        Ok(ts) => Some(begun(source, &ts)),
        Err(_) => None,
    }
}

// ------------------------------------------------------------- under the cursor

/// Whether a token that carries the line and column where it begins covers a place. The
/// place behind its end counts too.
pub open spec fn covers(s: Span, pos: Position) -> bool {
    s.line == pos.line + 1 && s.col <= pos.character + 1 <= s.col + span_len(s)
}

/// The first token from `i` on that covers a place.
pub open spec fn covering(ts: Seq<TokenV>, pos: Position, i: int) -> Option<int>
    decreases ts.len() - i,
{
    if i < 0 || i >= ts.len() {
        None
    } else if covers(ts[i].span, pos) {
        Some(i)
    } else {
        covering(ts, pos, i + 1)
    }
}

/// The first token from `i` on that an offset lies in.
pub open spec fn token_around(ts: Seq<TokenV>, offset: usize, i: int) -> Option<int>
    decreases ts.len() - i,
{
    if i < 0 || i >= ts.len() {
        None
    } else if ts[i].span.start <= offset < ts[i].span.end {
        Some(i)
    } else {
        token_around(ts, offset, i + 1)
    }
}

/// The token at a place.
pub open spec fn token_under(ts: Seq<TokenV>, pos: Position) -> Option<int> {
    match covering(ts, pos, 0) {
        None => None,
        Some(i) => token_around(ts, ts[i].span.start, 0),
    }
}

/// The offset of the token that covers a place.
pub fn position_to_offset(tokens: &[Token], pos: Position) -> (r: Option<usize>)
    ensures
        r == match covering(tokens_v(tokens@), pos, 0) {
            Some(i) => Some(tokens_v(tokens@)[i].span.start),
            None => None,
        },
{
    let ghost ts = tokens_v(tokens@);
    let mut i: usize = 0;
    while i < tokens.len()
        invariant
            i <= tokens.len(),
            ts == tokens_v(tokens@),
            covering(ts, pos, 0) == covering(ts, pos, i as int),
        decreases tokens.len() - i,
    {
        let s = &tokens[i].span;
        assert(ts[i as int].span == *s);
        let line: u128 = pos.line as u128 + 1;
        let col: u128 = pos.character as u128 + 1;
        if s.line as u128 == line && s.col as u128 <= col && col <= s.col as u128 + len_of(
            s,
        ) as u128 {
            return Some(s.start);
        }
        i = i + 1;
    }
    None
}

/// The token at a place.
pub fn token_at_position(tokens: &[Token], pos: Position) -> (r: Option<usize>)
    ensures
        match r {
            Some(i) => token_under(tokens_v(tokens@), pos) == Some(i as int) && i < tokens.len(),
            None => token_under(tokens_v(tokens@), pos) is None,
        },
{
    let ghost ts = tokens_v(tokens@);
    let offset = match position_to_offset(tokens, pos) {
        Some(o) => o,
        None => {
            return None;
        },
    };
    let mut i: usize = 0;
    while i < tokens.len()
        invariant
            i <= tokens.len(),
            ts == tokens_v(tokens@),
            token_under(ts, pos) == token_around(ts, offset, 0),
            token_around(ts, offset, 0) == token_around(ts, offset, i as int),
        decreases tokens.len() - i,
    {
        let s = &tokens[i].span;
        assert(ts[i as int].span == *s);
        if s.start <= offset && offset < s.end {
            return Some(i);
        }
        i = i + 1;
    }
    None
}

// ------------------------------------------------------------------------ hover

/// A text about what is under the cursor, and the stretch that it is about.
#[derive(Debug)]
pub struct Hover {
    pub value: String,
    pub range: Option<Range>,
}

/// The model of a [`Hover`].
#[verifier::ext_equal]
pub struct HoverV {
    pub value: Seq<char>,
    pub range: Option<Range>,
}

impl View for Hover {
    type V = HoverV;

    open spec fn view(&self) -> HoverV {
        HoverV { value: self.value@, range: self.range }
    }
}

/// The fields of a struct, one on each line.
pub open spec fn field_lines(fs: Seq<StructFieldV>) -> Seq<Seq<char>> {
    Seq::new(fs.len(), |i: int| "  "@ + fs[i].name + ": "@ + type_text(fs[i].ty))
}

/// The cases of an enum, one on each line.
pub open spec fn case_lines(cs: Seq<EnumCaseV>) -> Seq<Seq<char>> {
    Seq::new(
        cs.len(),
        |i: int|
            match cs[i].payload {
                Some(t) => "  case "@ + cs[i].name + "("@ + type_text(t) + ")"@,
                None => "  case "@ + cs[i].name,
            },
    )
}

/// The text about an item of a name.
pub open spec fn item_hover(x: ItemV, name: Seq<char>) -> Option<Seq<char>> {
    match x {
        ItemV::Function(f) => if f.name == name {
            Some(
                "```nova\nfunc "@ + f.name + signature_text(f) + "\n```\n\n"@ + if f.is_pub {
                    "*(public)*"@
                } else {
                    ""@
                },
            )
        } else {
            None
        },
        ItemV::Struct(s) => if s.name == name {
            Some(
                "```nova\nstruct "@ + s.name + " {\n"@ + join_v(field_lines(s.fields), ",\n"@)
                    + "\n}\n```"@,
            )
        } else {
            None
        },
        ItemV::Enum(e) => if e.name == name {
            Some(
                "```nova\nenum "@ + e.name + " {\n"@ + join_v(case_lines(e.cases), ",\n"@)
                    + "\n}\n```"@,
            )
        } else {
            None
        },
        _ => None,
    }
}

/// The text about the first item from `i` on that has a name.
pub open spec fn hover_from(items: Seq<ItemV>, name: Seq<char>, i: int) -> Option<Seq<char>>
    decreases items.len() - i,
{
    if i < 0 || i >= items.len() {
        None
    } else {
        match item_hover(items[i], name) {
            Some(t) => Some(t),
            None => hover_from(items, name, i + 1),
        }
    }
}

/// The text about a built-in type.
pub open spec fn built_in_text(name: Seq<char>) -> Option<Seq<char>> {
    if name == "Int"@ {
        Some("Built-in: 64-bit signed integer (`int64_t` in C++)"@)
    } else if name == "Float"@ {
        Some("Built-in: double-precision float (`double` in C++)"@)
    } else if name == "Bool"@ {
        Some("Built-in: boolean (`bool` in C++)"@)
    } else if name == "String"@ {
        Some("Built-in: string (`std::string` in C++)"@)
    } else if name == "Char"@ {
        Some("Built-in: character (`char` in C++)"@)
    } else {
        None
    }
}

/// What is shown for a name that stands at a place.
pub open spec fn hover_of(items: Seq<ItemV>, name: Seq<char>, span: Span) -> Option<HoverV> {
    match hover_from(items, name, 0) {
        Some(value) => Some(HoverV { value, range: Some(stretch(span)) }),
        None => match built_in_text(name) {
            Some(t) => Some(HoverV { value: "**"@ + name + "**\n\n"@ + t, range: None }),
            None => None,
        },
    }
}

/// What is shown at a place of a document.
pub open spec fn hover_at(
    h: HostV,
    uri: Seq<char>,
    src: Seq<char>,
    pos: Position,
    fuel: nat,
) -> Result<
    Option<HoverV>,
    StopV,
> {
    match written(uri, src) {
        None => Ok(None),
        Some(m) => match best_expanded(h, uri, m, fuel) {
            Err(s) => Err(s),
            Ok(m1) => {
                let ts = document_tokens(src)->0;
                match token_under(ts, pos) {
                    None => Ok(None),
                    Some(i) => match ts[i].kind {
                        TokenKindV::Ident(name) => Ok(hover_of(m1.items, name, ts[i].span)),
                        _ => Ok(None),
                    },
                }
            },
        },
    }
}

fn show_field_lines(fs: &Vec<StructField>) -> (r: String)
    ensures
        r@ == join_v(field_lines(struct_fields_v(fs@)), ",\n"@),
{
    let ghost all = field_lines(struct_fields_v(fs@));
    let mut out: Vec<String> = Vec::new();
    let mut i: usize = 0;
    while i < fs.len()
        invariant
            i <= fs.len(),
            all == field_lines(struct_fields_v(fs@)),
            strs_v(out@) == all.take(i as int),
        decreases fs.len() - i,
    {
        let ghost fv = struct_field_v(fs[i as int]);
        out.push(cat4("  ", &fs[i].name, ": ", &fs[i].ty.display()));
        i = i + 1;
        assert(strs_v(out@) =~= all.take(i as int));
    }
    assert(all.take(i as int) =~= all);
    join(&out, ",\n")
}

fn show_case_lines(cs: &Vec<EnumCase>) -> (r: String)
    ensures
        r@ == join_v(case_lines(enum_cases_v(cs@)), ",\n"@),
{
    let ghost all = case_lines(enum_cases_v(cs@));
    let mut out: Vec<String> = Vec::new();
    let mut i: usize = 0;
    while i < cs.len()
        invariant
            i <= cs.len(),
            all == case_lines(enum_cases_v(cs@)),
            strs_v(out@) == all.take(i as int),
        decreases cs.len() - i,
    {
        let ghost cv = enum_case_v(cs[i as int]);
        let line = match &cs[i].payload {
            Some(t) => cat5("  case ", &cs[i].name, "(", &t.display(), ")"),
            None => cat2("  case ", &cs[i].name),
        };
        out.push(line);
        i = i + 1;
        assert(strs_v(out@) =~= all.take(i as int));
    }
    assert(all.take(i as int) =~= all);
    join(&out, ",\n")
}

fn hover_of_item(item: &Item, name: &str) -> (r: Option<String>)
    ensures
        opt_str_v(r) == item_hover(item@, name@),
{
    let ghost g = item_v(*item);
    match item {
        Item::Function(f) => {
            let ghost fv = function_v(*f);
            if !str_eq(&f.name, name) {
                return None;
            }
            let public = if f.is_pub {
                "*(public)*"
            } else {
                ""
            };
            Some(cat5("```nova\nfunc ", &f.name, &show_signature(f), "\n```\n\n", public))
        },
        Item::Struct(s) => {
            let ghost sv = struct_v(*s);
            if !str_eq(&s.name, name) {
                return None;
            }
            let fields = show_field_lines(&s.fields);
            Some(cat5("```nova\nstruct ", &s.name, " {\n", &fields, "\n}\n```"))
        },
        Item::Enum(e) => {
            let ghost ev = enum_v(*e);
            if !str_eq(&e.name, name) {
                return None;
            }
            let cases = show_case_lines(&e.cases);
            Some(cat5("```nova\nenum ", &e.name, " {\n", &cases, "\n}\n```"))
        },
        _ => None,
    }
}

fn hover_of_built_in(name: &str) -> (r: Option<String>)
    ensures
        opt_str_v(r) == built_in_text(name@),
{
    if str_eq(name, "Int") {
        Some("Built-in: 64-bit signed integer (`int64_t` in C++)".to_owned())
    } else if str_eq(name, "Float") {
        Some("Built-in: double-precision float (`double` in C++)".to_owned())
    } else if str_eq(name, "Bool") {
        Some("Built-in: boolean (`bool` in C++)".to_owned())
    } else if str_eq(name, "String") {
        Some("Built-in: string (`std::string` in C++)".to_owned())
    } else if str_eq(name, "Char") {
        Some("Built-in: character (`char` in C++)".to_owned())
    } else {
        None
    }
}

pub open spec fn opt_v<T: View>(o: Option<T>) -> Option<T::V> {
    match o {
        Some(x) => Some(x@),
        None => None,
    }
}

/// What is shown for a name that stands at a place.
pub fn hover_name(module: &Module, name: &str, span: &Span) -> (r: Option<Hover>)
    ensures
        opt_v(r) == hover_of(module@.items, name@, *span),
{
    let ghost m = module_v(*module);
    let mut i: usize = 0;
    while i < module.items.len()
        invariant
            i <= module.items.len(),
            m == module_v(*module),
            hover_from(m.items, name@, 0) == hover_from(m.items, name@, i as int),
        decreases module.items.len() - i,
    {
        let ghost g = item_v(module.items[i as int]);
        assert(g == m.items[i as int]);
        if let Some(value) = hover_of_item(&module.items[i], name) {
            return Some(Hover { value, range: Some(stretch_of(span)) });
        }
        i = i + 1;
    }
    match hover_of_built_in(name) {
        Some(t) => Some(Hover { value: cat4("**", name, "**\n\n", &t), range: None }),
        None => None,
    }
}

pub open spec fn opt_ran<T: View>(r: Result<Option<T>, Stop>) -> Result<Option<T::V>, StopV> {
    match r {
        Ok(o) => Ok(opt_v(o)),
        Err(s) => Err(s@),
    }
}

/// What is shown at a place of a document.
pub fn hover(source: &str, uri: &str, pos: Position, host: &Host, fuel: u64) -> (r: Result<
    Option<Hover>,
    Stop,
>)
    ensures
        opt_ran(r) == hover_at(host@, uri@, source@, pos, fuel as nat),
{
    let m = match try_parse(source, uri) {
        Some(m) => m,
        None => {
            return Ok(None);
        },
    };
    let m1 = expand_macros(m, uri, host, fuel)?;
    let tokens = match try_lex(source) {
        Some(ts) => ts,
        None => {
            return Ok(None);
        },
    };
    let ghost ts = tokens_v(tokens@);
    match token_at_position(&tokens, pos) {
        None => Ok(None),
        Some(i) => {
            assert(ts[i as int] == tokens[i as int]@);
            match &tokens[i].kind {
                TokenKind::Ident(name) => Ok(hover_name(&m1, name, &tokens[i].span)),
                _ => Ok(None),
            }
        },
    }
}

// ------------------------------------------------------------------ definitions

/// The first token from `i` on that is a name and begins elsewhere than at `start`.
pub open spec fn other_use(ts: Seq<TokenV>, name: Seq<char>, start: usize, i: int) -> Option<int>
    decreases ts.len() - i,
{
    if i < 0 || i >= ts.len() {
        None
    } else if ts[i].kind == TokenKindV::Ident(name) && ts[i].span.start != start {
        Some(i)
    } else {
        other_use(ts, name, start, i + 1)
    }
}

/// Where the name at a place stands first elsewhere in a document.
pub open spec fn definition_at(uri: Seq<char>, src: Seq<char>, pos: Position) -> Option<Range> {
    match written(uri, src) {
        None => None,
        Some(_) => {
            let ts = document_tokens(src)->0;
            match token_under(ts, pos) {
                None => None,
                Some(i) => match ts[i].kind {
                    TokenKindV::Ident(name) => match other_use(ts, name, ts[i].span.start, 0) {
                        Some(j) => Some(stretch(ts[j].span)),
                        None => None,
                    },
                    _ => None,
                },
            }
        },
    }
}

fn find_other_use(tokens: &Vec<Token>, name: &str, start: usize) -> (r: Option<usize>)
    ensures
        match r {
            Some(j) => other_use(tokens_v(tokens@), name@, start, 0) == Some(j as int) && j
                < tokens.len(),
            None => other_use(tokens_v(tokens@), name@, start, 0) is None,
        },
{
    let ghost ts = tokens_v(tokens@);
    let mut i: usize = 0;
    while i < tokens.len()
        invariant
            i <= tokens.len(),
            ts == tokens_v(tokens@),
            other_use(ts, name@, start, 0) == other_use(ts, name@, start, i as int),
        decreases tokens.len() - i,
    {
        assert(ts[i as int] == tokens[i as int]@);
        if let TokenKind::Ident(s) = &tokens[i].kind {
            if str_eq(s, name) && tokens[i].span.start != start {
                return Some(i);
            }
        }
        i = i + 1;
    }
    None
}

/// Where the name at a place stands first elsewhere in a document.
pub fn goto_definition(source: &str, uri: &str, pos: Position) -> (r: Option<Range>)
    ensures
        r == definition_at(uri@, source@, pos),
{
    if try_parse(source, uri).is_none() {
        return None;
    }
    let tokens = match try_lex(source) {
        Some(ts) => ts,
        None => {
            return None;
        },
    };
    let ghost ts = tokens_v(tokens@);
    match token_at_position(&tokens, pos) {
        None => None,
        Some(i) => {
            assert(ts[i as int] == tokens[i as int]@);
            match &tokens[i].kind {
                TokenKind::Ident(name) => match find_other_use(
                    &tokens,
                    name,
                    tokens[i].span.start,
                ) {
                    Some(j) => {
                        assert(ts[j as int] == tokens[j as int]@);
                        Some(stretch_of(&tokens[j].span))
                    },
                    None => None,
                },
                _ => None,
            }
        },
    }
}

// ------------------------------------------------------------------ completions

/// Whether an offset lies in the body of a function.
pub open spec fn in_body(f: FunctionV, offset: int) -> bool {
    f.body.span.start < offset <= f.body.span.end
}

/// The type that a variable has at an offset, by the first of the functions from `i` on whose
/// body the offset lies in.
pub open spec fn local_type(
    m: ModuleV,
    fs: Seq<FunctionV>,
    i: int,
    name: Seq<char>,
    offset: int,
) -> Option<TypeV>
    decreases fs.len() - i,
{
    if i < 0 || i >= fs.len() {
        None
    } else if in_body(fs[i], offset) && var_type_at(m, fs[i], name, offset) is Some {
        var_type_at(m, fs[i], name, offset)
    } else {
        local_type(m, fs, i + 1, name, offset)
    }
}

/// The functions of an item.
pub open spec fn functions_in(x: ItemV) -> Seq<FunctionV> {
    match x {
        ItemV::Function(f) => seq![f],
        ItemV::Impl(b) => b.methods,
        ItemV::Trait(t) => t.methods,
        _ => Seq::empty(),
    }
}

/// The type that a variable of a function has at an offset, by the items from `i` on.
pub open spec fn inner_type(m: ModuleV, i: int, name: Seq<char>, offset: int) -> Option<TypeV>
    decreases m.items.len() - i,
{
    if i < 0 || i >= m.items.len() {
        None
    } else {
        match local_type(m, functions_in(m.items[i]), 0, name, offset) {
            Some(t) => Some(t),
            None => inner_type(m, i + 1, name, offset),
        }
    }
}

/// The type that a variable of the module is declared with, by the items from `i` on.
pub open spec fn outer_type(items: Seq<ItemV>, i: int, name: Seq<char>) -> Option<TypeV>
    decreases items.len() - i,
{
    if i < 0 || i >= items.len() {
        None
    } else {
        match items[i] {
            ItemV::VarDecl(v) => if v.name == name && v.ty is Some {
                v.ty
            } else {
                outer_type(items, i + 1, name)
            },
            _ => outer_type(items, i + 1, name),
        }
    }
}

/// The type of a receiver at an offset: that of a local variable, or of one of the module.
pub open spec fn receiver_type(m: ModuleV, name: Seq<char>, offset: int) -> Option<TypeV> {
    match inner_type(m, 0, name, offset) {
        Some(t) => Some(t),
        None => outer_type(m.items, 0, name),
    }
}

/// A source with a name in the place of the member that is still missing.
pub open spec fn patched(src: Seq<char>, offset: int) -> Seq<char> {
    let i = at_most(offset, src.len());
    src.take(i) + "__nova_cursor"@ + src.skip(i)
}

/// The module of a document in which a member is being written.
pub open spec fn written_or_patched(uri: Seq<char>, src: Seq<char>, offset: int) -> Option<ModuleV> {
    match written(uri, src) {
        Some(m) => Some(m),
        None => written(uri, patched(src, offset)),
    }
}

/// The members that are offered at an index of a document.
pub open spec fn members_at(
    h: HostV,
    uri: Seq<char>,
    src: Seq<char>,
    offset: int,
    fuel: nat,
) -> Result<
    Option<Seq<CompletionItemV>>,
    StopV,
> {
    match receiver_at(src, offset) {
        None => Ok(None),
        Some(name) => match written_or_patched(uri, src, offset) {
            None => Ok(None),
            Some(m) => match best_expanded(h, uri, m, fuel) {
                Err(s) => Err(s),
                Ok(m1) => match receiver_type(m1, name, offset) {
                    None => Ok(None),
                    Some(t) => {
                        let items = member_completions(m1.items, t);
                        if items.len() == 0 {
                            Ok(None)
                        } else {
                            Ok(Some(items))
                        }
                    },
                },
            },
        },
    }
}

fn find_local_type(module: &Module, fs: &Vec<Function>, name: &str, offset: usize) -> (r: Option<
    Type,
>)
    ensures
        opt_type_v(r) == local_type(module@, functions_v(fs@), 0, name@, offset as int),
{
    let ghost all = functions_v(fs@);
    let mut i: usize = 0;
    while i < fs.len()
        invariant
            i <= fs.len(),
            all == functions_v(fs@),
            local_type(module@, all, 0, name@, offset as int) == local_type(
                module@,
                all,
                i as int,
                name@,
                offset as int,
            ),
        decreases fs.len() - i,
    {
        let ghost fv = function_v(fs[i as int]);
        assert(fv == all[i as int]);
        if let Some(t) = find_type_in(module, &fs[i], name, offset) {
            return Some(t);
        }
        i = i + 1;
    }
    None
}

fn find_type_in(module: &Module, f: &Function, name: &str, offset: usize) -> (r: Option<Type>)
    ensures
        opt_type_v(r) == if in_body(f@, offset as int) {
            var_type_at(module@, f@, name@, offset as int)
        } else {
            None
        },
{
    let ghost fv = function_v(*f);
    let ghost bv = block_v(f.body);
    if f.body.span.start < offset && offset <= f.body.span.end {
        Mono::infer_var_type_at(module, f, name, offset)
    } else {
        None
    }
}

fn find_inner_type(module: &Module, name: &str, offset: usize) -> (r: Option<Type>)
    ensures
        opt_type_v(r) == inner_type(module@, 0, name@, offset as int),
{
    let ghost m = module_v(*module);
    let mut i: usize = 0;
    while i < module.items.len()
        invariant
            i <= module.items.len(),
            m == module_v(*module),
            inner_type(m, 0, name@, offset as int) == inner_type(
                m,
                i as int,
                name@,
                offset as int,
            ),
        decreases module.items.len() - i,
    {
        let ghost g = item_v(module.items[i as int]);
        assert(g == m.items[i as int]);
        let found = match &module.items[i] {
            Item::Function(f) => {
                let ghost fv = function_v(*f);
                proof {
                    reveal_with_fuel(local_type, 2);
                }
                find_type_in(module, f, name, offset)
            },
            Item::Impl(b) => {
                let ghost bv = impl_block_v(*b);
                find_local_type(module, &b.methods, name, offset)
            },
            Item::Trait(t) => {
                let ghost tv = trait_def_v(*t);
                find_local_type(module, &t.methods, name, offset)
            },
            _ => None,
        };
        if let Some(t) = found {
            return Some(t);
        }
        i = i + 1;
    }
    None
}

fn find_outer_type(module: &Module, name: &str) -> (r: Option<Type>)
    ensures
        opt_type_v(r) == outer_type(module@.items, 0, name@),
{
    let ghost m = module_v(*module);
    let mut i: usize = 0;
    while i < module.items.len()
        invariant
            i <= module.items.len(),
            m == module_v(*module),
            outer_type(m.items, 0, name@) == outer_type(m.items, i as int, name@),
        decreases module.items.len() - i,
    {
        let ghost g = item_v(module.items[i as int]);
        assert(g == m.items[i as int]);
        if let Item::VarDecl(v) = &module.items[i] {
            let ghost vv = var_decl_v(*v);
            if str_eq(&v.name, name) {
                if let Some(t) = &v.ty {
                    return Some(t.dup());
                }
            }
        }
        i = i + 1;
    }
    None
}

/// The type of a receiver at an offset of a module.
pub fn find_receiver_type(module: &Module, name: &str, offset: usize) -> (r: Option<Type>)
    ensures
        opt_type_v(r) == receiver_type(module@, name@, offset as int),
{
    match find_inner_type(module, name, offset) {
        Some(t) => Some(t),
        None => find_outer_type(module, name),
    }
}

fn patch(source: &str, offset: usize) -> (r: String)
    ensures
        r@ == patched(source@, offset as int),
{
    let v = chars_of(source);
    let i: usize = if offset < v.len() {
        offset
    } else {
        v.len()
    };
    let head = text_between(&v, 0, i);
    let tail = text_between(&v, i, v.len());
    assert(v@.subrange(0, i as int) =~= source@.take(i as int));
    assert(v@.subrange(i as int, v@.len() as int) =~= source@.skip(i as int));
    cat3(&head, "__nova_cursor", &tail)
}

pub open spec fn opt_list_ran<T: View>(r: Result<Option<Vec<T>>, Stop>) -> Result<
    Option<Seq<T::V>>,
    StopV,
> {
    match r {
        Ok(Some(v)) => Ok(Some(list_v(v@))),
        Ok(None) => Ok(None),
        Err(s) => Err(s@),
    }
}

/// The members that are offered at an offset in bytes of a document. Where the document
/// cannot be read, a name is put in at the cursor.
pub fn dot_completions(source: &str, uri: &str, offset: usize, host: &Host, fuel: u64) -> (r: Result<
    Option<Vec<CompletionItem>>,
    Stop,
>)
    ensures
        opt_list_ran(r) == members_at(
            host@,
            uri@,
            source@,
            index_at(source@, offset as int),
            fuel as nat,
        ),
{
    let index = index_of_offset(source, offset);
    let receiver = match dot_receiver(source, offset) {
        Some(n) => n,
        None => {
            return Ok(None);
        },
    };
    let m = match try_parse(source, uri) {
        Some(m) => m,
        None => match try_parse(&patch(source, index), uri) {
            Some(m) => m,
            None => {
                return Ok(None);
            },
        },
    };
    let m1 = expand_macros(m, uri, host, fuel)?;
    let t = match find_receiver_type(&m1, &receiver, index) {
        Some(t) => t,
        None => {
            return Ok(None);
        },
    };
    let items = build_dot_completions(&m1, &t);
    if items.len() == 0 {
        Ok(None)
    } else {
        Ok(Some(items))
    }
}

/// What is offered at a place of a document: the members of a receiver, or all of the module.
pub open spec fn completions_at(
    h: HostV,
    uri: Seq<char>,
    src: Seq<char>,
    pos: Position,
    fuel: nat,
) -> Result<
    Option<Seq<CompletionItemV>>,
    StopV,
> {
    match members_at(h, uri, src, index_at(src, offset_at(src, pos)), fuel) {
        Err(s) => Err(s),
        Ok(Some(items)) => Ok(Some(items)),
        Ok(None) => match written(uri, src) {
            None => Ok(None),
            Some(m) => match best_expanded(h, uri, m, fuel) {
                Err(s) => Err(s),
                Ok(m1) => Ok(Some(module_completions(m1.items))),
            },
        },
    }
}

/// What is offered at a place of a document.
pub fn completion(source: &str, uri: &str, pos: Position, host: &Host, fuel: u64) -> (r: Result<
    Option<Vec<CompletionItem>>,
    Stop,
>)
    ensures
        opt_list_ran(r) == completions_at(host@, uri@, source@, pos, fuel as nat),
{
    let offset = offset_of_position(source, pos);
    if let Some(items) = dot_completions(source, uri, offset, host, fuel)? {
        return Ok(Some(items));
    }
    let m = match try_parse(source, uri) {
        Some(m) => m,
        None => {
            return Ok(None);
        },
    };
    let m1 = expand_macros(m, uri, host, fuel)?;
    Ok(Some(build_completions(&m1)))
}

// -------------------------------------------------------- outline and highlights

/// The outline of a document. It shows what is written, not what macros make of it.
pub fn document_symbol(source: &str, uri: &str) -> (r: Option<Vec<DocumentSymbol>>)
    ensures
        match r {
            Some(v) => written(uri@, source@) matches Some(m) && symbols_v(v@) == outline_from(
                source@,
                m.items,
                0,
            ),
            None => written(uri@, source@) is None,
        },
{
    match try_parse(source, uri) {
        Some(m) => Some(build_document_symbols(&m, source)),
        None => None,
    }
}

/// The semantic tokens of a document.
pub fn semantic_tokens_full(source: &str) -> (r: Option<Vec<u32>>)
    ensures
        match r {
            Some(v) => document_tokens(source@) matches Some(ts) && v@ == encoded(ts),
            None => document_tokens(source@) is None,
        },
{
    match try_lex(source) {
        Some(ts) => Some(compute_semantic_tokens(source, &ts)),
        None => None,
    }
}

// ------------------------------------------------------------------------- laws

/// An editor shows no error exactly where the document can be run, and else the error that
/// running it finds.
pub proof fn law_diagnostics_like_running(h: HostV, uri: Seq<char>, src: Seq<char>, fuel: nat)
    ensures
        ({
            let path = uri_path(uri);
            let dirs = search_order(parent_of(path), Seq::empty());
            match runnable(h, dirs, src, stem_of(path), fuel) {
                Ok(_) => diagnostics(h, uri, src, fuel) == Ok::<Seq<DiagnosticV>, StopV>(
                    Seq::empty(),
                ),
                Err(StopV::Error(e)) => diagnostics(h, uri, src, fuel) == Ok::<
                    Seq<DiagnosticV>,
                    StopV,
                >(seq![diagnostic_of(begun_error(src, e))]),
                Err(s) => diagnostics(h, uri, src, fuel) == Err::<Seq<DiagnosticV>, StopV>(s),
            }
        }),
{
}

/// Characters are counted one by one along a line.
proof fn lemma_along_line(src: Seq<char>, a: int, b: int)
    requires
        0 <= a <= b,
        lines_before(src, a) == lines_before(src, b),
    ensures
        chars_before(src, b) == chars_before(src, a) + (b - a),
    decreases b,
{
    if a < b {
        lemma_lines_grow(src, a, b - 1);
        lemma_along_line(src, a, b - 1);
    }
}

proof fn lemma_lines_grow(src: Seq<char>, a: int, b: int)
    requires
        0 <= a <= b,
    ensures
        lines_before(src, a) <= lines_before(src, b),
    decreases b,
{
    if a < b {
        lemma_lines_grow(src, a, b - 1);
    }
}

/// What is shown of a place of a document begins where the place begins, and for one that
/// lies on one line it ends where the place ends. An error is shown from where its place
/// begins.
pub proof fn law_shown_where_it_stands(src: Seq<char>, span: Span)
    requires
        src.len() < u32::MAX,
        span.start <= span.end <= src.len(),
    ensures
        stretch(begun_span(src, span)).start == position_at(src, span.start as int),
        lines_before(src, span.start as int) == lines_before(src, span.end as int) ==> stretch(
            begun_span(src, span),
        ).end == position_at(src, span.end as int),
        span.line > 0 ==> error_range(begun_place(src, span)).start == position_at(
            src,
            span.start as int,
        ),
{
    lemma_places(src, span.start as int);
    lemma_places(src, span.end as int);
    if lines_before(src, span.start as int) == lines_before(src, span.end as int) {
        lemma_along_line(src, span.start as int, span.end as int);
    }
}

proof fn lemma_other_use(ts: Seq<TokenV>, name: Seq<char>, start: usize, i: int)
    requires
        0 <= i,
    ensures
        other_use(ts, name, start, i) matches Some(j) ==> i <= j < ts.len() && ts[j].kind
            == TokenKindV::Ident(name) && ts[j].span.start != start,
        other_use(ts, name, start, i) is None ==> forall|j: int|
            i <= j < ts.len() && (#[trigger] ts[j]).kind == TokenKindV::Ident(name)
                ==> ts[j].span.start == start,
    decreases ts.len() - i,
{
    if i < ts.len() {
        lemma_other_use(ts, name, start, i + 1);
    }
}

/// The definition of a name is a token of that name that begins elsewhere, and it is found
/// wherever there is one.
pub proof fn law_definition_is_elsewhere(uri: Seq<char>, src: Seq<char>, pos: Position, i: int)
    requires
        written(uri, src) is Some,
        token_under(document_tokens(src)->0, pos) == Some(i),
        document_tokens(src)->0[i].kind is Ident,
    ensures
        ({
            let ts = document_tokens(src)->0;
            match definition_at(uri, src, pos) {
                Some(r) => exists|j: int|
                    0 <= j < ts.len() && (#[trigger] ts[j]).kind == ts[i].kind && ts[j].span.start
                        != ts[i].span.start && r == stretch(ts[j].span),
                None => forall|j: int|
                    0 <= j < ts.len() && (#[trigger] ts[j]).kind == ts[i].kind ==> ts[j].span.start
                        == ts[i].span.start,
            }
        }),
{
    let ts = document_tokens(src)->0;
    let name = ts[i].kind->Ident_0;
    lemma_other_use(ts, name, ts[i].span.start, 0);
}

} // verus!
