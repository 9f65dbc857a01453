//! What the front end reports.

use vstd::prelude::*;
use vstd::string::StringExecFns;
use crate::nqc::Span;

verus! {

/// What went wrong.
#[derive(Debug, Clone, PartialEq, Eq)]
pub enum ErrorKind {
    /// The source is not in the language, and why.
    Syntax(String),
    /// The source ended too early.
    Eof,
}

/// What went wrong, as a mathematical value.
pub enum ErrorKindView {
    Syntax(Seq<char>),
    Eof,
}

impl View for ErrorKind {
    type V = ErrorKindView;

    open spec fn view(&self) -> ErrorKindView {
        match self {
            ErrorKind::Syntax(message) => ErrorKindView::Syntax(message@),
            ErrorKind::Eof => ErrorKindView::Eof,
        }
    }
}

impl ErrorKindView {
    /// The kind in words.
    pub open spec fn text(self) -> Seq<char> {
        match self {
            ErrorKindView::Syntax(message) => "Syntax error: "@ + message,
            ErrorKindView::Eof => "End of file reached"@,
        }
    }
}

impl ErrorKind {
    /// The kind in words.
    pub fn to_string(&self) -> (r: String)
        ensures
            r@ == self@.text(),
    {
        match self {
            ErrorKind::Syntax(message) => {
                let mut out = String::from_str("Syntax error: ");
                out.append(message.as_str());
                out
            },
            ErrorKind::Eof => String::from_str("End of file reached"),
        }
    }
}

/// An error at a place in the source.
#[derive(Debug, Clone, PartialEq, Eq)]
pub struct Error {
    pub kind: ErrorKind,
    /// Where in the source the error lies.
    pub span: Span,
    /// The whole source.
    pub raw: String,
}

/// An error as a mathematical value.
pub struct ErrorView {
    pub kind: ErrorKindView,
    pub span: Span,
    pub raw: Seq<char>,
}

impl View for Error {
    type V = ErrorView;

    open spec fn view(&self) -> ErrorView {
        ErrorView { kind: self.kind@, span: self.span, raw: self.raw@ }
    }
}

impl Error {
    /// An error of a kind at a place in the source.
    pub fn new(start: usize, length: usize, kind: ErrorKind, raw: String) -> (error: Self)
        ensures
            error@ == (ErrorView { kind: kind@, span: Span { start, length }, raw: raw@ }),
    {
        Self { kind, span: Span { start, length }, raw }
    }
}

} // verus!
