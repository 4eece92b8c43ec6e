//! The errors of the compiler.
use vstd::prelude::*;
use crate::token::Span;

verus! {

use crate::text::{cat2, has_text};

/// What went wrong, and where.
#[derive(Debug)]
pub enum CompileError {
    LexError { message: String, span: Span },
    ParseError { message: String, span: Span },
    TypeError { message: String, span: Span },
    MacroError { message: String, span: Span },
    /// The text of an input or output error.
    IoError(String),
    Generic(String),
}

/// The model of a [`CompileError`].
#[verifier::ext_equal]
pub enum CompileErrorV {
    LexError { message: Seq<char>, span: Span },
    ParseError { message: Seq<char>, span: Span },
    TypeError { message: Seq<char>, span: Span },
    MacroError { message: Seq<char>, span: Span },
    IoError(Seq<char>),
    Generic(Seq<char>),
}

impl View for CompileError {
    type V = CompileErrorV;

    open spec fn view(&self) -> CompileErrorV {
        match self {
            CompileError::LexError { message, span } => CompileErrorV::LexError {
                message: message@,
                span: *span,
            },
            CompileError::ParseError { message, span } => CompileErrorV::ParseError {
                message: message@,
                span: *span,
            },
            CompileError::TypeError { message, span } => CompileErrorV::TypeError {
                message: message@,
                span: *span,
            },
            CompileError::MacroError { message, span } => CompileErrorV::MacroError {
                message: message@,
                span: *span,
            },
            CompileError::IoError(s) => CompileErrorV::IoError(s@),
            CompileError::Generic(s) => CompileErrorV::Generic(s@),
        }
    }
}

pub open spec fn lex_error(message: Seq<char>, span: Span) -> CompileErrorV {
    CompileErrorV::LexError { message, span }
}

pub open spec fn parse_error(message: Seq<char>, span: Span) -> CompileErrorV {
    CompileErrorV::ParseError { message, span }
}

pub open spec fn type_error(message: Seq<char>, span: Span) -> CompileErrorV {
    CompileErrorV::TypeError { message, span }
}

pub open spec fn macro_error(message: Seq<char>, span: Span) -> CompileErrorV {
    CompileErrorV::MacroError { message, span }
}

/// The model of a result.
pub open spec fn res_v<T: View>(r: Result<T, CompileError>) -> Result<T::V, CompileErrorV> {
    match r {
        Ok(x) => Ok(x@),
        Err(e) => Err(e@),
    }
}

impl CompileError {
    pub fn lex(message: &str, span: Span) -> (r: Self)
        ensures
            r@ == lex_error(message@, span),
    {
        CompileError::LexError { message: message.to_owned(), span }
    }

    pub fn parse(message: &str, span: Span) -> (r: Self)
        ensures
            r@ == parse_error(message@, span),
    {
        CompileError::ParseError { message: message.to_owned(), span }
    }

    pub fn type_err(message: &str, span: Span) -> (r: Self)
        ensures
            r@ == type_error(message@, span),
    {
        CompileError::TypeError { message: message.to_owned(), span }
    }

    pub fn macro_err(message: &str, span: Span) -> (r: Self)
        ensures
            r@ == macro_error(message@, span),
    {
        CompileError::MacroError { message: message.to_owned(), span }
    }

    /// A copy with the same model.
    pub fn dup(&self) -> (r: Self)
        ensures
            r@ == self@,
    {
        match self {
            CompileError::LexError { message, span } => CompileError::LexError {
                message: message.clone(),
                span: *span,
            },
            CompileError::ParseError { message, span } => CompileError::ParseError {
                message: message.clone(),
                span: *span,
            },
            CompileError::TypeError { message, span } => CompileError::TypeError {
                message: message.clone(),
                span: *span,
            },
            CompileError::MacroError { message, span } => CompileError::MacroError {
                message: message.clone(),
                span: *span,
            },
            CompileError::IoError(s) => CompileError::IoError(s.clone()),
            CompileError::Generic(s) => CompileError::Generic(s.clone()),
        }
    }
}

/// A text without the terminal's styling sequences, each of which begins with an escape
/// character and ends with an `m`. `inside` tells whether the text begins in such a sequence.
pub open spec fn unstyled(s: Seq<char>, inside: bool) -> Seq<char>
    decreases s.len(),
{
    if s.len() == 0 {
        Seq::empty()
    } else if inside {
        unstyled(s.skip(1), s[0] != 'm')
    } else if s[0] == '\u{1b}' {
        unstyled(s.skip(1), true)
    } else {
        seq![s[0]] + unstyled(s.skip(1), false)
    }
}

/// Whether a text holds no escape character.
pub open spec fn no_escapes(s: Seq<char>) -> bool {
    !s.contains('\u{1b}')
}

/// Whether a character ends a line of a report's source.
pub open spec fn is_line_break(c: char) -> bool {
    ||| c == '\r'
    ||| c == '\n'
    ||| c == '\u{b}'
    ||| c == '\u{c}'
    ||| c == '\u{85}'
    ||| c == '\u{2028}'
    ||| c == '\u{2029}'
}

/// How many characters of a text end a line.
pub open spec fn line_breaks(s: Seq<char>) -> nat {
    s.filter(|c: char| is_line_break(c)).len()
}

/// The report that ariadne writes, without its colors: an error with a message, at an
/// offset of a file, and with one label from `start` to `end` that carries the message too.
pub uninterp spec fn report_text(
    message: Seq<char>,
    file_path: Seq<char>,
    source: Seq<char>,
    offset: usize,
    start: usize,
    end: usize,
) -> Seq<char>;

/// Calls `ariadne::Report::write` on an error report with a red label.
///
/// `Label::new` panics where the label begins behind its end. `Report::write` computes the
/// width of a line number with powers of ten in 32 bits, which overflow from a billion lines
/// on. Both are left out.
///
/// The message is written as it is, in the report's first line. Whether the rest is styled
/// depends on what the terminal of the machine supports, so the whole text is known only
/// without its styling sequences, and only where none stand in the arguments.
#[verifier::external_body]
fn render_report(
    message: &str,
    file_path: &str,
    source: &str,
    offset: usize,
    start: usize,
    end: usize,
) -> (r: String)
    requires
        start <= end,
        line_breaks(source@) < 999_999_999,
    ensures
        has_text(r@, message@),
        no_escapes(message@) && no_escapes(file_path@) && no_escapes(source@) ==> unstyled(
            r@,
            false,
        ) == report_text(message@, file_path@, source@, offset, start, end),
{
    let label = ariadne::Label::new((file_path, start..end));
    let label = label.with_message(message).with_color(ariadne::Color::Red);
    let mut out: Vec<u8> = Vec::new();
    ariadne::Report::build(ariadne::ReportKind::Error, file_path, offset)
        .with_message(message)
        .with_label(label)
        .finish()
        .write((file_path, ariadne::Source::from(source)), &mut out)
        .unwrap();
    String::from_utf8_lossy(&out).to_string()
}

/// The message and the place of an error, where it has a place.
pub open spec fn located(e: CompileErrorV) -> Option<(Seq<char>, Span)> {
    match e {
        CompileErrorV::LexError { message, span } => Some((message, span)),
        CompileErrorV::ParseError { message, span } => Some((message, span)),
        CompileErrorV::TypeError { message, span } => Some((message, span)),
        CompileErrorV::MacroError { message, span } => Some((message, span)),
        CompileErrorV::IoError(_) => None,
        CompileErrorV::Generic(_) => None,
    }
}

/// The short text of an error.
pub open spec fn error_text(e: CompileErrorV) -> Seq<char> {
    match e {
        CompileErrorV::LexError { .. } => "Lex error"@,
        CompileErrorV::ParseError { .. } => "Parse error"@,
        CompileErrorV::TypeError { .. } => "Type error"@,
        CompileErrorV::MacroError { .. } => "Macro error"@,
        CompileErrorV::IoError(s) => "I/O error: "@ + s,
        CompileErrorV::Generic(s) => s,
    }
}

/// The column of a place, where the first column stands for one that is not known.
pub open spec fn report_offset(span: Span) -> usize {
    if span.col < 1 {
        1
    } else {
        span.col
    }
}

impl CompileError {
    /// The short text of an error.
    pub fn display(&self) -> (r: String)
        ensures
            r@ == error_text(self@),
    {
        match self {
            CompileError::LexError { .. } => "Lex error".to_owned(),
            CompileError::ParseError { .. } => "Parse error".to_owned(),
            CompileError::TypeError { .. } => "Type error".to_owned(),
            CompileError::MacroError { .. } => "Macro error".to_owned(),
            CompileError::IoError(s) => cat2("I/O error: ", s),
            CompileError::Generic(s) => s.clone(),
        }
    }

    /// A report of an error, with the line of the source that it is about.
    pub fn display_with_source(&self, source: &str, file_path: &str) -> (r: String)
        requires
            located(self@) matches Some((_, span)) ==> span.start <= span.end && line_breaks(
                source@,
            ) < 999_999_999,
        ensures
            match located(self@) {
                None => r@ == error_text(self@),
                Some((message, span)) => {
                    &&& has_text(r@, message)
                    &&& no_escapes(message) && no_escapes(file_path@) && no_escapes(source@)
                        ==> unstyled(r@, false) == report_text(
                        message,
                        file_path@,
                        source@,
                        report_offset(span),
                        span.start,
                        span.end,
                    )
                },
            },
    {
        let (message, span): (&String, &Span) = match self {
            CompileError::LexError { message, span } => (message, span),
            CompileError::ParseError { message, span } => (message, span),
            CompileError::TypeError { message, span } => (message, span),
            CompileError::MacroError { message, span } => (message, span),
            CompileError::IoError(_) | CompileError::Generic(_) => {
                return self.display();
            },
        };
        let offset: usize = if span.col < 1 {
            1
        } else {
            span.col
        };
        render_report(message, file_path, source, offset, span.start, span.end)
    }
}

} // verus!
