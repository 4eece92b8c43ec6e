//! Syntax trees.
use nova::ast::{BinOp, Expr, ExprKind, ImportItem, Item, Module, PatternKind, Type};
use nova::error::CompileError;
use nova::lexer::Lexer;
use nova::parser::Parser;
use nova::source::parse_source;
use nova::token::{Span, TokenKind};

fn expr(src: &str) -> Expr {
    let tokens = Lexer::new(src).tokenize().unwrap();
    Parser::new(tokens, src).parse_expr().unwrap()
}

fn module(src: &str) -> Module {
    parse_source(src, "m").unwrap()
}

fn message(src: &str) -> String {
    match parse_source(src, "m") {
        Err(CompileError::ParseError { message, .. }) => message,
        r => panic!("{:?}", r),
    }
}

/// An expression with every operation in brackets.
fn shape(e: &Expr) -> String {
    match &e.kind {
        ExprKind::IntLiteral(n) => format!("{}", n),
        ExprKind::BoolLiteral(b) => format!("{}", b),
        ExprKind::Ident(s) => s.clone(),
        ExprKind::Binary { op, left, right } => format!("({} {} {})", shape(left), op.cpp_op(), shape(right)),
        ExprKind::Unary { op, expr } => format!("({:?} {})", op, shape(expr)),
        ExprKind::Call { func, args } => {
            format!("{}({})", shape(func), args.iter().map(shape).collect::<Vec<_>>().join(", "))
        }
        ExprKind::DotAccess { object, field } => format!("{}.{}", shape(object), field),
        ExprKind::Index { object, index } => format!("{}[{}]", shape(object), shape(index)),
        ExprKind::Assign { target, value } => format!("({} = {})", shape(target), shape(value)),
        k => k.debug(),
    }
}

#[test]
fn precedence() {
    assert_eq!(shape(&expr("1 + 2 * 3")), "(1 + (2 * 3))");
    assert_eq!(shape(&expr("(1 + 2) * 3")), "((1 + 2) * 3)");
    assert_eq!(shape(&expr("1 - 2 - 3")), "((1 - 2) - 3)");
    assert_eq!(shape(&expr("a < b && c == d || e")), "(((a < b) && (c == d)) || e)");
    assert_eq!(shape(&expr("!a && -b < c")), "((Not a) && ((Neg b) < c))");
    assert_eq!(shape(&expr("x = y + 1")), "(x = (y + 1))");
}

#[test]
fn calls_and_members() {
    assert_eq!(shape(&expr("f(1, g(2))")), "f(1, g(2))");
    assert_eq!(shape(&expr("a.b(1)")), "b(a, 1)");
    assert_eq!(shape(&expr("a.b.c")), "a.b.c");
    assert_eq!(shape(&expr("xs[1]")), "xs[1]");
}

#[test]
fn enum_values_and_patterns() {
    match expr(".some(1)").kind {
        ExprKind::EnumCtor { path, case, arg } => {
            assert!(path.is_empty());
            assert_eq!(case, "some");
            assert_eq!(shape(&arg.unwrap()), "1");
        }
        k => panic!("{:?}", k),
    }
    match expr("match v { case .some(let x) => x, case .none => 0, case _ => 1 }").kind {
        ExprKind::Match { arms, .. } => {
            assert_eq!(arms.len(), 3);
            match &arms[0].pattern.kind {
                PatternKind::EnumCtor { case, inner, .. } => {
                    assert_eq!(case, "some");
                    assert!(matches!(&inner.as_ref().unwrap().kind, PatternKind::Variable { name, is_mut: false } if name == "x"));
                }
                k => panic!("{:?}", k),
            }
            assert!(matches!(arms[2].pattern.kind, PatternKind::Wildcard));
        }
        k => panic!("{:?}", k),
    }
}

#[test]
fn items() {
    let m = module(
        "import std.io { print as show, read }
import std.math;
pub struct Node[T] { value: T, next: @Node[T] }
enum Result[T, E] { case ok(value: T) case err(error: E) }
type Num = Int;
trait Show as Me { func show(x: Me) -> String; }
impl Show for Int { func show(x: Int) -> String { return \"\" } }
macro m(a, b) { quote { $a } }
@m(1, 2)
let x: Int = 42
var y = 1
func f(a: Int, ~b: Int = 2) -> (Int, Bool) { return a }
",
    );
    assert_eq!(m.name, "m");
    assert_eq!(m.imports.len(), 2);
    assert_eq!(m.imports[0].path, vec!["std", "io"]);
    match &m.imports[0].items[0] {
        ImportItem::Single { name, alias } => {
            assert_eq!(name, "print");
            assert_eq!(alias, &Some("show".to_string()));
        }
        i => panic!("{:?}", i),
    }
    assert!(matches!(m.imports[1].items[0], ImportItem::All));
    assert_eq!(m.items.len(), 10);
    match &m.items[0] {
        Item::Struct(s) => {
            assert!(s.is_pub);
            assert_eq!(s.generics[0].name, "T");
            assert_eq!(s.fields[1].ty.display(), "@Node[T]");
        }
        i => panic!("{:?}", i),
    }
    match &m.items[1] {
        Item::Enum(e) => {
            assert_eq!(e.cases[1].name, "err");
            assert_eq!(e.cases[1].payload.as_ref().unwrap().display(), "E");
        }
        i => panic!("{:?}", i),
    }
    match &m.items[3] {
        Item::Trait(t) => {
            assert_eq!(t.self_alias, Some("Me".to_string()));
            assert!(t.methods[0].body.stmts.is_empty());
        }
        i => panic!("{:?}", i),
    }
    match &m.items[9] {
        Item::Function(f) => {
            assert!(f.params[1].named);
            assert!(f.params[1].default.is_some());
            assert_eq!(f.return_type.display(), "(Int, Bool)");
        }
        i => panic!("{:?}", i),
    }
}

#[test]
fn types_and_their_texts() {
    assert_eq!(Type::path("Int").display(), "Int");
    assert_eq!(Type::gc_ref(Type::path("Node")).display(), "@Node");
    assert!(Type::path("A").equals(&Type::path("A")));
    assert!(!Type::path("A").equals(&Type::gc_ref(Type::path("A"))));
}

#[test]
fn raw_code_keeps_its_text() {
    match expr("@cpp { if (x) { std::exit(1); } }").kind {
        ExprKind::CppBlock(code) => assert_eq!(code.trim(), "if (x) { std::exit(1); }"),
        k => panic!("{:?}", k),
    }
}

#[test]
fn operators_of_tokens() {
    assert!(matches!(BinOp::from_token(&TokenKind::Plus), Some(BinOp::Add)));
    assert!(matches!(BinOp::from_token(&TokenKind::GtEq), Some(BinOp::GtEq)));
    assert!(BinOp::from_token(&TokenKind::Dot).is_none());
    assert_eq!(BinOp::from_token(&TokenKind::AndAnd).unwrap().cpp_op(), TokenKind::AndAnd.display());
}

#[test]
fn parsing_errors() {
    assert_eq!(message("1"), "Expected declaration, got '1'");
    assert_eq!(message("func 1"), "Expected identifier, got '1'");
}

#[test]
fn built_expressions() {
    let z = Span::zero();
    let sum = Expr::binary(Expr::ident("a", z), BinOp::Add, Expr::int_literal(1, z), z);
    assert_eq!(shape(&sum), "(a + 1)");
    let call = Expr::call(Expr::ident("f", z), vec![sum], z);
    assert_eq!(shape(&call), "f((a + 1))");
    assert_eq!(
        Expr::string_literal("x\"", z).kind.debug(),
        "StringLiteral(\"x\\\"\")"
    );
    assert!(matches!(Expr::return_expr(None, z).kind, ExprKind::Return(None)));
}

#[test]
fn braces_in_literals_do_not_close_raw_text() {
    match expr("@cpp { puts(\"}\"); char c = '{'; }").kind {
        ExprKind::CppBlock(text) => assert_eq!(text, " puts(\"}\"); char c = '{'; "),
        k => panic!("{:?}", k),
    }
}

#[test]
fn types_are_read_back() {
    let texts = [
        "Int",
        "()",
        "@Node",
        "std::Map[String, @List[Int]]::Entry",
        "(Int, Bool)",
        "() -> ()",
        "(Int) -> Bool",
        "@(A, (B, C)) -> (D) -> E",
    ];
    for text in texts {
        let tokens = nova::lexer::Lexer::new(text).tokenize().unwrap();
        let count = tokens.len();
        let mut parser = nova::parser::Parser::new(tokens, text);
        let ty = parser.parse_type().unwrap();
        assert_eq!(ty.display(), text);
        assert!(count > 1);
    }
}
