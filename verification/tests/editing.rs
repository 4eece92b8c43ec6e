//! What an editor is told about a document.
use nova::host::{FileState, FloatFact, FloatOp, Host, Stop};
use nova::lexer::Lexer;
use nova::lsp::analysis::Document;
use nova::lsp::backend::Backend;
use nova::lsp::completion::{build_dot_completions, dot_receiver, type_base_name, CompletionKind};
use nova::lsp::format::{format_source, formatting, split_lines};
use nova::lsp::position::{
    begun, name_selection_range, offset_of_position, offset_to_position, span_to_range, Position,
    Range,
};
use nova::lsp::semantic::modifier;
use nova::lsp::semantic::{
    compute_semantic_tokens, semantic_token_modifiers, semantic_token_types, NovaSemanticToken,
};
use nova::lsp::service::{
    begin_error, compile_error_to_diagnostic, compute_diagnostics, document_symbol, dot_completions,
    find_receiver_type, goto_definition, hover, position_to_offset, token_at_position, try_parse,
};
use nova::lsp::symbols::{build_document_symbols, DocumentSymbol, SymbolKind};
use nova::lsp::uri::{file_stem, search_paths};
use nova::ast::Type;
use nova::error::CompileError;
use nova::parser::Parser;
use nova::token::{Span, Token, TokenKind};

fn num(s: &str) -> f64 {
    s.parse().unwrap()
}

fn float(op: FloatOp, a: &str, b: &str) -> String {
    match op {
        FloatOp::Neg => format!("{}", -num(a)),
        FloatOp::Add => format!("{}", num(a) + num(b)),
        FloatOp::Sub => format!("{}", num(a) - num(b)),
        FloatOp::Mul => format!("{}", num(a) * num(b)),
        FloatOp::Div => format!("{}", num(a) / num(b)),
        FloatOp::Equal => format!("{}", num(a) == num(b)),
        FloatOp::Less => format!("{}", num(a) < num(b)),
        FloatOp::Greater => format!("{}", num(a) > num(b)),
        FloatOp::LessOrEqual => format!("{}", num(a) <= num(b)),
        FloatOp::GreaterOrEqual => format!("{}", num(a) >= num(b)),
        FloatOp::Show => format!("{}", num(a)),
        FloatOp::ShowDebug => format!("{:?}", num(a)),
        FloatOp::ShowFixed => format!("{:.6}", num(a)),
    }
}

/// Runs a computation until it asks nothing more; only the given files exist.
fn with_files<T>(files: &[(&str, &str)], run: impl Fn(&Host) -> Result<T, Stop>) -> Result<T, Stop> {
    let mut host = Host::new();
    loop {
        match run(&host) {
            Err(Stop::AskFile(p)) => {
                let state = match files.iter().find(|f| f.0 == p) {
                    Some(f) => FileState::Text(f.1.to_string()),
                    None => FileState::Missing,
                };
                host.tell_file(&p, state);
            }
            Err(Stop::AskFloat(op, a, b)) => {
                let result = float(op, &a, &b);
                host.tell_float(FloatFact { op, a, b, result });
            }
            r => return r,
        }
    }
}

const URI: &str = "file:///work/examples/matrix.nv";

const ASSERT: &str = "pub func assert_eq(a: Int, b: Int) { println(a == b) }";

const DEBUG: &str = "macro debug(owner) {
    splice(make_function(\"debug\", list(list(\"m\", owner)), \"Int\", make_return(make_int(0))))
}
";

/// Traits, structs, overloads, two imports and functions that a macro makes.
const MATRIX: &str = "@import(\"std.assert\")
@import(\"std.macros\")

trait Matrix {
    func size(m: Self) -> Int
}

struct Dense { sz: Int }
struct HotVector { idx: Int, len: Int }

impl Matrix for Dense {
    func size(m: Dense) -> Int { return m.sz }
}

impl Matrix for HotVector {
    func size(v: HotVector) -> Int { return v.len }
}

@debug(\"Dense\")
@debug(\"Matrix\")

func dot(a: Matrix, b: Matrix) -> Int { return 0 }
func inner(a: Matrix, b: Matrix) -> Int { return 0 }
func inner(a: Dense, b: HotVector) -> Int { return 1 }
func make_matrix(n: Int) -> Matrix { return Dense { sz: n } }

func main() {
    let d = Dense { sz: 3 };
    d.debug();  // static: calls debug(Dense) \u{2713}
    let a = make_matrix(3);
    a.debug();
    assert_eq(inner(d, HotVector { idx: 0, len: 3 }), 1);
}
";

fn matrix_host<T>(run: impl Fn(&Host) -> Result<T, Stop>) -> T {
    let files = [
        ("/work/examples/std/assert.nv", ASSERT),
        ("/work/examples/std/macros.nv", DEBUG),
    ];
    with_files(&files, run).unwrap()
}

fn completion_labels(source: &str, uri: &str, offset: usize) -> Vec<String> {
    let items = matrix_host(|h| dot_completions(source, uri, offset, h, 10_000));
    items.unwrap_or_default().into_iter().map(|i| i.label).collect()
}

/// The offset of a text, in bytes.
fn find(source: &str, part: &str) -> usize {
    source.find(part).unwrap()
}

#[test]
fn diagnostics_expand_macros_like_the_compiler() {
    let diags = matrix_host(|h| compute_diagnostics(URI, MATRIX, h, 10_000));
    assert!(
        diags.is_empty(),
        "expected no diagnostics, got: {:?}",
        diags.iter().map(|d| &d.message).collect::<Vec<_>>()
    );
}

#[test]
fn document_symbols_list_top_level_definitions() {
    let source = MATRIX;

    let mut lex = Lexer::new(source);
    let tokens = lex.tokenize().unwrap();
    let mut parser = Parser::new(tokens, source);
    let module = parser.parse_module("matrix".into()).unwrap();

    let symbols = build_document_symbols(&module, source);
    let names: Vec<&str> = symbols.iter().map(|s| s.name.as_str()).collect();

    assert!(names.contains(&"Matrix"), "missing trait Matrix in {:?}", names);
    assert!(names.contains(&"Dense"), "missing struct Dense in {:?}", names);
    assert!(names.contains(&"HotVector"), "missing struct HotVector in {:?}", names);
    assert!(names.contains(&"impl Matrix for Dense"), "missing impl in {:?}", names);
    assert!(names.contains(&"main"), "missing func main in {:?}", names);
    assert!(!names.contains(&"debug"), "macro-generated debug leaked into {:?}", names);
    assert!(!names.contains(&"assert_eq"), "imported assert_eq leaked into {:?}", names);

    let dense = symbols.iter().find(|s| s.name == "Dense").unwrap();
    let fields: Vec<&str> = dense
        .children
        .as_deref()
        .unwrap_or(&[])
        .iter()
        .map(|c| c.name.as_str())
        .collect();
    assert_eq!(fields, vec!["sz"], "Dense fields: {:?}", fields);

    let main_sym = symbols.iter().find(|s| s.name == "main").unwrap();
    assert!(main_sym.selection_range.start >= main_sym.range.start);
    assert!(main_sym.selection_range.end <= main_sym.range.end);
}

#[test]
fn a_macro_is_a_symbol() {
    let module = try_parse(DEBUG, "debug.nv").unwrap();
    let symbols = build_document_symbols(&module, DEBUG);
    assert_eq!(symbols.len(), 1);
    assert_eq!(symbols[0].name, "debug");
    assert_eq!(symbols[0].detail, Some("macro(owner)".to_string()));
}

#[test]
fn dot_completion_on_struct_receiver() {
    let offset = find(MATRIX, "d.debug") + 2;
    let labels = completion_labels(MATRIX, URI, offset);

    assert!(labels.contains(&"sz".into()), "field sz missing: {:?}", labels);
    assert!(labels.contains(&"size".into()), "impl method size missing: {:?}", labels);
    assert!(labels.contains(&"debug".into()), "macro-generated debug missing: {:?}", labels);
    assert!(labels.contains(&"dot".into()), "trait-param func dot missing: {:?}", labels);
    assert_eq!(labels.iter().filter(|l| *l == "inner").count(), 2, "both inner overloads: {:?}", labels);
    assert!(!labels.contains(&"make_matrix".into()), "make_matrix leaked: {:?}", labels);
    assert!(!labels.contains(&"assert_eq".into()), "assert_eq leaked: {:?}", labels);
    assert_eq!(labels.iter().filter(|l| *l == "size").count(), 1, "size duplicated: {:?}", labels);
}

#[test]
fn dot_completion_on_trait_receiver() {
    let offset = find(MATRIX, "a.debug") + 2;
    let labels = completion_labels(MATRIX, URI, offset);

    assert!(labels.contains(&"size".into()), "trait method size missing: {:?}", labels);
    assert!(labels.contains(&"debug".into()), "debug(Matrix) missing: {:?}", labels);
    assert!(!labels.contains(&"sz".into()), "no fields on a trait type: {:?}", labels);
}

#[test]
fn dot_completion_while_typing_incomplete_member() {
    let broken = MATRIX.replace("d.debug();  // static: calls debug(Dense) \u{2713}", "d.");
    let offset = find(&broken, "d.\n") + 2;
    let labels = completion_labels(&broken, URI, offset);

    assert!(labels.contains(&"sz".into()), "field sz missing: {:?}", labels);
    assert!(labels.contains(&"size".into()), "method size missing: {:?}", labels);
}

#[test]
fn dot_receiver_detection() {
    assert_eq!(dot_receiver("d.", 2), Some("d".into()));
    assert_eq!(dot_receiver("foo.par", 7), Some("foo".into()));
    assert_eq!(dot_receiver("1.5", 2), None); // float literal
    assert_eq!(dot_receiver(".Case", 1), None); // enum case
    assert_eq!(dot_receiver("plain", 5), None); // no dot
}

#[test]
fn receivers_are_found_by_bytes() {
    assert_eq!(dot_receiver("\u{e9}a.b", 3), None);
    assert_eq!(dot_receiver("\u{e9}a.b", 4), Some("a".into()));
    assert_eq!(dot_receiver("\u{e9}a.b", 5), Some("a".into()));
    assert_eq!(dot_receiver("\u{e9}a.b", 1), None);
    assert_eq!(dot_receiver("a.b", 99), Some("a".into()));
}

#[test]
fn fields_come_before_methods() {
    let module = try_parse("struct S { b: Int, a: Int }\nfunc get(s: @S, k: Int) -> Int { return 0 }", "x.nv").unwrap();
    let items = build_dot_completions(&module, &Type::path("S"));
    let shown: Vec<(String, Option<String>, Option<String>)> =
        items.into_iter().map(|i| (i.label, i.detail, i.sort_text)).collect();
    let text = |s: &str| Some(s.to_string());
    assert_eq!(
        shown,
        vec![
            ("b".to_string(), text("Int"), text("0_b")),
            ("a".to_string(), text("Int"), text("0_a")),
            ("get".to_string(), text("func get(s: @S, k: Int) -> Int"), text("1_get")),
        ]
    );
    assert_eq!(type_base_name(&Type::gc_ref(Type::path("S"))), text("S"));
    assert_eq!(type_base_name(&Type::Unit), None);
}

#[test]
fn receivers_of_the_module() {
    let source = "let total: Int = 1\nfunc f(p: Point) -> Int { return 0 }";
    let module = try_parse(source, "x.nv").unwrap();
    let offset = find(source, "return");
    assert_eq!(find_receiver_type(&module, "p", offset).unwrap().display(), "Point");
    assert_eq!(find_receiver_type(&module, "total", offset).unwrap().display(), "Int");
    assert!(find_receiver_type(&module, "p", 0).is_none());
    assert!(find_receiver_type(&module, "q", offset).is_none());
}

#[test]
fn all_completions() {
    let source = "struct P { x: Int, y: Int }
enum E { case one, case two(Int) }
type T = Int
func f(a: Int, b: P) -> E { return .one }
let v: Int = 1
";
    let mut backend = Backend::new();
    backend.did_open("x.nv", source.to_string());
    let pos = Position { line: 4, character: 0 };
    let items = with_files(&[], |h| backend.completion("x.nv", pos, h, 10_000)).unwrap().unwrap();
    assert_eq!(items[0].label, "func");
    assert_eq!(items[0].insert_text, Some("func ".to_string()));
    assert_eq!(items.iter().filter(|i| i.kind == CompletionKind::Keyword).count(), 26);
    let shown: Vec<String> = items[26..]
        .iter()
        .map(|i| format!("{}|{}", i.label, i.detail.clone().unwrap()))
        .collect();
    assert_eq!(
        shown,
        vec![
            "P|struct (2 fields)",
            "E|enum (2 cases)",
            ".one|case of E",
            ".two|case of E",
            "T|type = Int",
            "f|(Int, P) -> E",
            "Int|built-in type",
            "Float|built-in type",
            "Bool|built-in type",
            "String|built-in type",
            "Char|built-in type",
            "Void|built-in type",
        ]
    );
}

#[test]
fn diagnostics_of_errors() {
    let diags = |src: &str| with_files(&[], |h| compute_diagnostics("x.nv", src, h, 10_000)).unwrap();
    let lex = diags("let a = `");
    assert_eq!(lex.len(), 1);
    assert_eq!(lex[0].message, "Unexpected character: '`'");
    assert_eq!(lex[0].source, "nova");
    assert_eq!(lex[0].range.start, Position { line: 0, character: 8 });
    assert_eq!(lex[0].range.end, Position { line: 0, character: 9 });
    assert_eq!(diags("func f( {").len(), 1);
    assert_eq!(diags("@gone()")[0].message.contains("gone"), true);
    assert_eq!(diags("func f() { x }")[0].message, "Undefined: 'x'");
    assert!(diags("func f() { }").is_empty());
}

#[test]
fn places_of_errors() {
    let source = "ab\nlet x";
    let shown = |span: Span| {
        compile_error_to_diagnostic(&CompileError::type_err("m", span), source).range
    };
    let at = |line, character| Position { line, character };
    assert_eq!(shown(Span::new(3, 6, 2, 1)), Range { start: at(1, 0), end: at(1, 3) });
    assert_eq!(shown(Span::new(1, 1, 1, 2)), Range { start: at(0, 1), end: at(0, 2) });
    assert_eq!(shown(Span::zero()), Range { start: at(0, 0), end: at(0, 1) });
    let begun_at = |span: Span| {
        let e = begin_error(source, &CompileError::type_err("m", span));
        compile_error_to_diagnostic(&e, source).range
    };
    assert_eq!(begun_at(Span::new(3, 6, 2, 4)), Range { start: at(1, 0), end: at(1, 3) });
    assert_eq!(begun_at(Span::new(1, 5, 2, 3)), Range { start: at(0, 1), end: at(0, 5) });
    assert_eq!(begun_at(Span::zero()), Range { start: at(0, 0), end: at(0, 1) });
    let io = compile_error_to_diagnostic(&CompileError::IoError("gone".to_string()), source);
    assert_eq!(io.message, "I/O error: gone");
}

#[test]
fn hover_texts() {
    let source = "pub func f(a: Int) -> Int { return a }
struct P { x: Int, y: P }
enum E { case one, case two(Int) }
func g(p: P) -> E { return .one }
let i: Int = f
let q: Gone = f
let e: E = .one
";
    let value = |part: &str| {
        let pos = offset_to_position(source, find(source, part) + 2);
        with_files(&[], |h| hover(source, "x.nv", pos, h, 10_000)).unwrap()
    };
    let shown = |part: &str| value(part).map(|h| h.value);
    assert_eq!(shown("= f"), Some("```nova\nfunc f(a: Int) -> Int\n```\n\n*(public)*".to_string()));
    assert_eq!(shown(": P"), Some("```nova\nstruct P {\n  x: Int,\n  y: P\n}\n```".to_string()));
    assert_eq!(shown(": E"), Some("```nova\nenum E {\n  case one,\n  case two(Int)\n}\n```".to_string()));
    assert_eq!(
        shown(": Int"),
        Some("**Int**\n\nBuilt-in: 64-bit signed integer (`int64_t` in C++)".to_string())
    );
    assert_eq!(shown(": Gone"), None);
    assert_eq!(value(": Int").unwrap().range, None);
    assert!(value(": P").unwrap().range.is_some());
}

#[test]
fn definitions() {
    let source = "func f() { }\nfunc g() { f() }";
    let tokens = begun(source, &Lexer::new(source).tokenize().unwrap());
    let uses: Vec<Span> = tokens.iter().filter(|t| t.kind.display() == "f").map(|t| t.span).collect();
    let place = |s: Span| offset_to_position(source, s.start);
    let found = goto_definition(source, "x.nv", place(uses[1])).unwrap();
    assert_eq!(found.start, place(uses[0]));
    let i = token_at_position(&tokens, place(uses[1])).unwrap();
    assert_eq!(tokens[i].span, uses[1]);
    assert_eq!(position_to_offset(&tokens, place(uses[1])), Some(uses[1].start));
    let g = tokens.iter().find(|t| t.kind.display() == "g").unwrap().span;
    assert_eq!(goto_definition(source, "x.nv", place(g)), None);
    assert_eq!(goto_definition("func", "x.nv", place(g)), None);
}

#[test]
fn outline_kinds() {
    let source = "func f(a: Int) -> Int { return a }
enum E { case one, case two(Int) }
type T = Int
let c: Int = 1
var v = 2
@call(1)
";
    let symbols = document_symbol(source, "x.nv").unwrap();
    let shown: Vec<(String, Option<String>, SymbolKind)> =
        symbols.iter().map(|s| (s.name.clone(), s.detail.clone(), s.kind)).collect();
    let text = |s: &str| Some(s.to_string());
    assert_eq!(
        shown,
        vec![
            ("f".to_string(), text("(a: Int) -> Int"), SymbolKind::Function),
            ("E".to_string(), None, SymbolKind::Enum),
            ("T".to_string(), text("type = Int"), SymbolKind::TypeParameter),
            ("c".to_string(), text("Int"), SymbolKind::Constant),
            ("v".to_string(), None, SymbolKind::Variable),
        ]
    );
    let cases: Vec<&DocumentSymbol> = symbols[1].children.as_ref().unwrap().iter().collect();
    assert_eq!(cases[0].detail, None);
    assert_eq!(cases[1].detail, text("Int"));
    assert!(symbols[0].children.is_none());
    assert!(document_symbol("func", "x.nv").is_none());
}

#[test]
fn semantic_tokens_decode_to_places() {
    let source = "func Foo(x: Int) -> Int {\n  return \"a\" // c\n}\nlet s = \"b\nc\" + 1";
    let tokens = begun(source, &Lexer::new(source).tokenize().unwrap());
    let data = compute_semantic_tokens(source, &tokens);
    assert_eq!(data.len(), 5 * (tokens.len() - 1));
    let (mut line, mut start) = (0, 0);
    for (row, token) in data.chunks(5).zip(&tokens) {
        line += row[0];
        start = if row[0] == 0 { start + row[1] } else { row[1] };
        assert_eq!(Position { line, character: start }, offset_to_position(source, token.span.start));
        assert_eq!(row[2] as usize, token.span.end - token.span.start);
    }
    let kinds: Vec<(u32, u32)> = data.chunks(5).map(|r| (r[3], r[4])).collect();
    let keyword = NovaSemanticToken::Keyword.index();
    assert_eq!(kinds[0], (keyword, 0));
    assert_eq!(kinds[1], (NovaSemanticToken::Type.index(), modifier::DECLARATION));
    assert_eq!(kinds[3], (NovaSemanticToken::Variable.index(), 0));
    assert_eq!(kinds[4], (NovaSemanticToken::Operator.index(), 0));
    assert_eq!(kinds[11], (NovaSemanticToken::String.index(), 0));
    let mut backend = Backend::new();
    backend.did_open("x.nv", source.to_string());
    assert_eq!(backend.semantic_tokens_full("x.nv"), Some(data));
    backend.did_open("x.nv", "`".to_string());
    assert_eq!(backend.semantic_tokens_full("x.nv"), None);
}

#[test]
fn semantic_tokens_stand_at_their_lines_and_columns() {
    let token = |kind, start, end, line, col| Token::new(kind, Span::new(start, end, line, col));
    let func = vec![token(TokenKind::Func, 1, 5, 1, 2)];
    assert_eq!(compute_semantic_tokens(" func", &func), vec![0, 1, 4, 0, 0]);
    let text = vec![token(TokenKind::StringLiteral("a\nb".to_string()), 0, 5, 2, 3)];
    assert_eq!(compute_semantic_tokens("\"a\nb\"", &text), vec![1, 2, 5, 1, 0]);
    let three = vec![
        token(TokenKind::Let, 0, 3, 1, 1),
        token(TokenKind::Eof, 3, 3, 1, 4),
        token(TokenKind::Ident("a".to_string()), 4, 5, 1, 5),
        token(TokenKind::Plus, 7, 8, 3, 2),
    ];
    assert_eq!(
        compute_semantic_tokens("let a\n\n +", &three),
        vec![0, 0, 3, 0, 0, 0, 4, 1, 7, 0, 2, 1, 1, 4, 0]
    );
}

#[test]
fn tokens_carry_the_places_where_they_begin() {
    let source = "a \"x\ny\" bc";
    let tokens = Lexer::new(source).tokenize().unwrap();
    let places: Vec<(usize, usize)> =
        begun(source, &tokens).iter().map(|t| (t.span.line, t.span.col)).collect();
    assert_eq!(places, vec![(1, 1), (1, 3), (2, 4), (2, 6)]);
    let back: Vec<Token> = tokens.into_iter().rev().collect();
    let placed = begun(source, &back);
    let places: Vec<(usize, usize)> = placed.iter().map(|t| (t.span.line, t.span.col)).collect();
    assert_eq!(places, vec![(2, 6), (2, 4), (1, 3), (1, 1)]);
    assert_eq!(placed[1].kind.display(), "bc");
    assert_eq!((placed[1].span.start, placed[1].span.end), (8, 10));
    let behind = vec![Token::new(TokenKind::Eof, Span::new(50, 60, 9, 9))];
    assert_eq!(begun("a\nb", &behind)[0].span, Span::new(50, 60, 2, 2));
}

#[test]
fn the_token_under_the_cursor() {
    let source = "let ab = \"x\ny\" + cd";
    let tokens = begun(source, &Lexer::new(source).tokenize().unwrap());
    let under = |line, character| {
        token_at_position(&tokens, Position { line, character }).map(|i| tokens[i].kind.display())
    };
    assert_eq!(under(0, 0), Some("let".to_string()));
    assert_eq!(under(0, 4), Some("ab".to_string()));
    assert_eq!(under(0, 5), Some("ab".to_string()));
    assert_eq!(under(0, 6), Some("ab".to_string()));
    assert_eq!(under(0, 7), Some("=".to_string()));
    assert_eq!(under(1, 5), Some("cd".to_string()));
    assert_eq!(under(1, 6), Some("cd".to_string()));
    assert_eq!(under(0, 9), Some(tokens[3].kind.display()));
    assert_eq!(under(1, 3), Some("+".to_string()));
    assert_eq!(under(1, 0), None);
    assert_eq!(under(5, 0), None);
}

#[test]
fn a_document_whose_macros_fail_is_still_completed() {
    let source = "@gone()\nstruct P { x: Int }\nfunc f(p: P) { p. }";
    let offset = find(source, "p. }") + 2;
    let items = with_files(&[], |h| dot_completions(source, "x.nv", offset, h, 10_000)).unwrap();
    let labels: Vec<String> = items.unwrap_or_default().into_iter().map(|i| i.label).collect();
    assert!(labels.contains(&"x".to_string()), "{:?}", labels);
}

#[test]
fn semantic_legend() {
    let types = semantic_token_types();
    assert_eq!(types.len(), 14);
    assert_eq!(types[NovaSemanticToken::Keyword.index() as usize], "keyword");
    assert_eq!(types[NovaSemanticToken::EnumMember.index() as usize], "enumMember");
    assert_eq!(types[NovaSemanticToken::Property.index() as usize], "property");
    let modifiers = semantic_token_modifiers();
    assert_eq!(modifiers, vec!["declaration", "definition", "readonly", "defaultLibrary", "modification"]);
    assert_eq!(
        [
            modifier::DECLARATION,
            modifier::DEFINITION,
            modifier::READONLY,
            modifier::DEFAULT_LIBRARY,
            modifier::MODIFICATION,
        ],
        [1 << 0, 1 << 1, 1 << 2, 1 << 3, 1 << 4]
    );
}

#[test]
fn formatting_follows_the_braces() {
    let source = "func f() {\n  if x {\n y\n      } else {\n\tz\n}\n\n}\r\n";
    let expected = "func f() {\n    if x {\n        y\n    } else {\n    z\n}\n\n}";
    assert_eq!(format_source(source), expected);
    assert_eq!(format_source(expected), expected);
    assert_eq!(format_source(""), "");
    assert_eq!(format_source("}\n}\na {"), "}\n}\na {");
    let edit = formatting(source);
    assert_eq!(edit.new_text, expected);
    assert_eq!(edit.range.start, Position { line: 0, character: 0 });
    assert_eq!(edit.range.end, Position { line: 8, character: 1 });
    assert_eq!(formatting("a\né1").range.end, Position { line: 2, character: 3 });
}

#[test]
fn formatting_drops_a_blank_last_line_step_by_step() {
    assert_eq!(format_source("a\n\n"), "a\n");
    assert_eq!(format_source("a\n"), "a");
}

#[test]
fn lines_end_at_line_feeds() {
    assert_eq!(split_lines("a\r\nb\n\nc"), vec!["a", "b", "", "c"]);
    assert_eq!(split_lines("a\n"), vec!["a"]);
    assert_eq!(split_lines("a\r"), vec!["a\r"]);
    assert!(split_lines("").is_empty());
}

#[test]
fn offsets_and_positions_agree() {
    let source = "ab\n\u{e9}c\n\n d";
    let at = |line, character| Position { line, character };
    for offset in [0, 1, 2, 3, 7, 8, 9, 10, 11] {
        let pos = offset_to_position(source, offset);
        assert_eq!(offset_of_position(source, pos), offset.min(source.len()));
    }
    assert_eq!(offset_to_position(source, 4), at(1, 1));
    assert_eq!(offset_to_position(source, 5), at(1, 1));
    assert_eq!(offset_to_position(source, 6), at(1, 2));
    assert_eq!(offset_of_position(source, at(1, 1)), 3);
    assert_eq!(offset_of_position(source, at(1, 2)), 5);
    assert_eq!(offset_of_position(source, at(1, 3)), 6);
    assert_eq!(offset_of_position(source, at(1, 99)), 6);
    assert_eq!(offset_of_position(source, at(9, 0)), source.len());
}

#[test]
fn names_inside_places() {
    let source = "func foo() {\n  foo()\n}";
    let span = Span::new(0, 12, 1, 1);
    let at = |line, character| Position { line, character };
    assert_eq!(span_to_range(source, &span), Range { start: at(0, 0), end: at(0, 12) });
    assert_eq!(name_selection_range(source, &span, "foo"), Range { start: at(0, 5), end: at(0, 8) });
    assert_eq!(name_selection_range(source, &span, "bar"), span_to_range(source, &span));
}

#[test]
fn addresses_of_documents() {
    assert_eq!(file_stem("file:///a/b/matrix.nv"), "matrix");
    assert_eq!(file_stem("b/x.tar.gz"), "x.tar");
    assert_eq!(file_stem(".hidden"), ".hidden");
    assert_eq!(file_stem("file:///"), "main");
    assert_eq!(file_stem("a/.."), "main");
    assert_eq!(file_stem("a/b/."), "b");
    assert_eq!(search_paths("file:///a/b/matrix.nv"), vec!["/a/b", "."]);
    assert_eq!(search_paths("matrix.nv"), vec!["", "."]);
    assert_eq!(search_paths("/matrix.nv"), vec!["/", "."]);
    assert_eq!(search_paths("/"), vec!["."]);
    assert_eq!(search_paths("./a//b/x.nv"), vec!["./a//b", "."]);
}

#[test]
fn documents_are_opened_changed_and_closed() {
    assert_eq!(Document::new("x".to_string()).source, "x");
    let mut backend = Backend::new();
    assert_eq!(backend.text("a.nv"), None);
    assert!(backend.formatting("a.nv").is_none());
    backend.did_open("a.nv", "one".to_string());
    backend.did_open("b.nv", "two".to_string());
    assert_eq!(backend.text("a.nv"), Some("one".to_string()));
    backend.did_change("a.nv", vec!["three".to_string(), "four".to_string()]);
    assert_eq!(backend.text("a.nv"), Some("three".to_string()));
    backend.did_change("a.nv", vec![]);
    assert_eq!(backend.text("a.nv"), Some("three".to_string()));
    assert_eq!(backend.text("b.nv"), Some("two".to_string()));
    backend.did_close("a.nv");
    assert_eq!(backend.text("a.nv"), None);
    assert_eq!(backend.text("b.nv"), Some("two".to_string()));
    let pos = Position { line: 0, character: 0 };
    assert!(with_files(&[], |h| backend.hover("a.nv", pos, h, 10)).unwrap().is_none());
    assert!(with_files(&[], |h| backend.completion("a.nv", pos, h, 10)).unwrap().is_none());
    assert!(with_files(&[], |h| backend.diagnostic("a.nv", h, 10)).unwrap().is_empty());
    assert_eq!(backend.goto_definition("a.nv", pos), None);
    assert!(backend.document_symbol("a.nv").is_none());
}
