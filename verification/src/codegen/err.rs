//! The errors of the code generator, each with the place in the source that
//! it is about, where that is known.

use crate::syntax::span::Span;
use vstd::prelude::*;

verus! {

/// An error of the code generator and the piece of source that it is about.
pub struct CompileError {
    pub kind: CompileErrorKind,
    pub span: Option<Span>,
}

/// An error of the given kind about the given piece of source.
#[allow(non_snake_case)]
pub fn CompileError(kind: CompileErrorKind, span: Option<Span>) -> (r: CompileError)
    ensures
        r.kind == kind,
        r.span == span,
{
    CompileError { kind, span }
}

/// What went wrong.
#[derive(Debug, Clone)]
pub enum CompileErrorKind {
    UnknownType(String),
    NoSuchSymbol(String),
    DuplicateSymbol(String),
    VoidTypeVariable,
    TypeMismatch { expected: String, got: Option<String> },
    NotLValue,
    InvalidCalculation(String),
}

/// A value that can be told which piece of source it is about.
pub trait WithSpan: Sized {
    /// The value once it is about `span`.
    spec fn spanned(self, span: Span) -> Self;

    /// Makes the value be about `span`.
    fn with_span(self, span: Span) -> (r: Self)
        ensures
            r == self.spanned(span),
    ;
}

impl WithSpan for CompileError {
    /// The same error, about `span` now, whatever it was about before.
    open spec fn spanned(self, span: Span) -> CompileError {
        CompileError { kind: self.kind, span: Some(span) }
    }

    fn with_span(self, span: Span) -> (r: CompileError) {
        let mut this = self;
        this.span = Some(span);
        this
    }
}

impl<T> WithSpan for Result<T, CompileError> {
    /// A success as it is, and a failure whose error is about `span`.
    open spec fn spanned(self, span: Span) -> Result<T, CompileError> {
        match self {
            Ok(v) => Ok(v),
            Err(e) => Err(e.spanned(span)),
        }
    }

    fn with_span(self, span: Span) -> (r: Result<T, CompileError>) {
        match self {
            Ok(v) => Ok(v),
            Err(e) => Err(e.with_span(span)),
        }
    }
}

} // verus!
