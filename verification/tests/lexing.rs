//! Tokens.
use nova::error::CompileError;
use nova::lexer::Lexer;
use nova::token::{Span, Token, TokenKind};

fn lex(src: &str) -> Vec<Token> {
    Lexer::new(src).tokenize().unwrap()
}

fn texts(src: &str) -> Vec<String> {
    lex(src).iter().map(|t| t.kind.display()).collect()
}

fn message(src: &str) -> String {
    match Lexer::new(src).tokenize() {
        Err(CompileError::LexError { message, .. }) => message,
        r => panic!("{:?}", r),
    }
}

#[test]
fn keywords_and_numbers() {
    let ts = lex("let x = 01.50 // c\n 7_0");
    let texts: Vec<String> = ts.iter().map(|t| t.kind.display()).collect();
    assert_eq!(texts, vec!["let", "x", "=", "1.5", "70", "<eof>"]);
    assert!(matches!(ts[5].kind, TokenKind::Eof));
}

#[test]
fn numbers_that_do_not_fit_are_zero() {
    assert!(matches!(lex("9223372036854775807")[0].kind, TokenKind::IntLiteral(9223372036854775807)));
    assert!(matches!(lex("9223372036854775808")[0].kind, TokenKind::IntLiteral(0)));
}

#[test]
fn operators() {
    let src = "+ - * / % = == != < > <= >= && || ! -> => . .. : ; , @ $ _ ? ~ # ( ) { } [ ] += -= *= /= %=";
    let mut expected: Vec<String> = src.split(' ').map(|s| s.to_string()).collect();
    expected.push("<eof>".to_string());
    assert_eq!(texts(src), expected);
}

#[test]
fn comments_are_skipped() {
    assert_eq!(texts("a // b\nc /* d /* e */ f */ g"), vec!["a", "c", "g", "<eof>"]);
}

#[test]
fn strings_and_characters() {
    let ts = lex("\"a\\n\\t\\\\\\\"b\" 'x' '\\n'");
    assert!(matches!(&ts[0].kind, TokenKind::StringLiteral(s) if s == "a\n\t\\\"b"));
    assert!(matches!(&ts[1].kind, TokenKind::CharLiteral('x')));
    assert!(matches!(&ts[2].kind, TokenKind::CharLiteral('\n')));
}

#[test]
fn lexing_errors() {
    assert_eq!(message("`"), "Unexpected character: '`'");
    assert_eq!(message("\"abc"), "Unterminated string literal");
    assert_eq!(message("a & b"), "Unexpected character: '&'");
}

#[test]
fn places_cover_the_source_in_order() {
    let src = "func f() {\n  return \"\u{e9}\"\n}";
    let ts = lex(src);
    let len = src.chars().count();
    for pair in ts.windows(2) {
        assert!(pair[0].span.start < pair[0].span.end);
        assert!(pair[0].span.end <= pair[1].span.start);
        assert!(pair[1].span.end <= len);
    }
    assert_eq!(ts[0].span, Span::new(0, 4, 1, 5));
    assert_eq!(ts[5].kind.display(), "return");
    assert_eq!(ts[5].span, Span::new(13, 19, 2, 9));
    let last = ts.last().unwrap();
    assert_eq!((last.span.start, last.span.end), (len, len));
}

#[test]
fn tokens_one_at_a_time() {
    let mut lexer = Lexer::new("a b");
    assert_eq!(lexer.next_token().unwrap().kind.display(), "a");
    assert_eq!(lexer.next_token().unwrap().kind.display(), "b");
    assert!(matches!(lexer.next_token().unwrap().kind, TokenKind::Eof));
    assert!(matches!(lexer.next_token().unwrap().kind, TokenKind::Eof));
}

#[test]
fn words_and_their_texts() {
    for word in ["func", "let", "match", "pub", "nil", "name", "Type_1"] {
        assert_eq!(TokenKind::of_word(word).display(), word);
    }
    assert!(matches!(TokenKind::of_word("trait"), TokenKind::Trait));
    assert!(matches!(TokenKind::of_word("traits"), TokenKind::Ident(_)));
    assert!(TokenKind::of_word("a").same_variant(&TokenKind::of_word("b")));
    assert!(!TokenKind::of_word("a").same_variant(&TokenKind::Func));
}

#[test]
fn merged_places() {
    let a = Span::new(3, 5, 2, 4);
    let b = Span::new(1, 4, 1, 9);
    let c = Span::new(7, 8, 3, 1);
    assert_eq!(a.merge(&b), Span::new(1, 5, 1, 4));
    assert_eq!(a.merge(&b), b.merge(&a));
    assert_eq!(a.merge(&b).merge(&c), a.merge(&b.merge(&c)));
    assert_eq!(a.merge(&a), a);
    assert_eq!(a.display(), "2:4");
    assert_eq!(Span::zero(), Span::new(0, 0, 0, 0));
}

#[test]
fn keywords_operators_and_delimiters_lex_back() {
    let texts = [
        "func", "let", "var", "return", "if", "else", "match", "case", "enum", "struct", "macro",
        "quote", "while", "for", "in", "as", "is", "true", "false", "nil", "type", "trait", "impl",
        "import", "module", "pub", "+", "-", "*", "/", "%", "=", "==", "!=", "<", ">", "<=", ">=",
        "&&", "||", "!", "->", "=>", ".", "..", ":", ";", ",", "@", "$", "_", "?", "~", "#", "(",
        ")", "{", "}", "[", "]", "+=", "-=", "*=", "/=", "%=",
    ];
    for text in texts {
        let token = Lexer::new(text).next_token().unwrap();
        assert_eq!(token.kind.display(), text);
        assert!(!matches!(token.kind, TokenKind::Ident(_)));
        assert_eq!((token.span.start, token.span.end), (0, text.chars().count()));
    }
}
