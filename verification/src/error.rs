//! Source locations and the diagnostics that the checker hands back.

use vstd::prelude::*;

verus! {

/// A region of one source file. The checker never looks inside a span; it
/// only carries spans from the syntax tree into diagnostics.
#[derive(Clone, Copy, Debug, PartialEq, Eq, Structural)]
pub struct Span {
    pub file_id: usize,
    pub start: usize,
    pub end: usize,
}

impl Span {
    /// The span of file `file_id` from `start` to `end`.
    pub fn new(file_id: usize, start: usize, end: usize) -> (span: Span)
        ensures
            span == (Span { file_id, start, end }),
    {
        Span { file_id, start, end }
    }
}

/// A diagnostic: what went wrong and where.
#[derive(Debug)]
pub enum JaktError {
    TypecheckError(String, Span),
}

/// The mathematical content of a [`JaktError`].
pub enum JaktErrorView {
    TypecheckError(Seq<char>, Span),
}

impl View for JaktError {
    type V = JaktErrorView;

    open spec fn view(&self) -> JaktErrorView {
        match self {
            JaktError::TypecheckError(message, span) => JaktErrorView::TypecheckError(
                message@,
                *span,
            ),
        }
    }
}

impl JaktErrorView {
    /// The text of the diagnostic.
    pub open spec fn message(self) -> Seq<char> {
        match self {
            JaktErrorView::TypecheckError(message, _) => message,
        }
    }

    /// Where the diagnostic points.
    pub open spec fn span(self) -> Span {
        match self {
            JaktErrorView::TypecheckError(_, span) => span,
        }
    }
}

impl Clone for JaktError {
    fn clone(&self) -> (copy: Self)
        ensures
            copy@ == self@,
    {
        match self {
            JaktError::TypecheckError(message, span) => JaktError::TypecheckError(
                message.clone(),
                *span,
            ),
        }
    }
}

impl JaktError {
    /// The text of the diagnostic.
    pub fn message(&self) -> (text: String)
        ensures
            text@ == self@.message(),
    {
        match self {
            JaktError::TypecheckError(message, _) => message.clone(),
        }
    }

    /// Where the diagnostic points.
    pub fn span(&self) -> (span: Span)
        ensures
            span == self@.span(),
    {
        match self {
            JaktError::TypecheckError(_, span) => *span,
        }
    }
}

/// The model of an optional diagnostic.
pub open spec fn error_view(error: Option<JaktError>) -> Option<JaktErrorView> {
    match error {
        Some(e) => Some(e@),
        None => None,
    }
}

/// The first diagnostic of two, in the order in which they were raised.
pub open spec fn first_error(
    earlier: Option<JaktErrorView>,
    later: Option<JaktErrorView>,
) -> Option<JaktErrorView> {
    if earlier is Some {
        earlier
    } else {
        later
    }
}

/// Keeps the earlier diagnostic when there is one, else the later.
pub fn or_error(earlier: Option<JaktError>, later: Option<JaktError>) -> (kept: Option<JaktError>)
    ensures
        error_view(kept) == first_error(error_view(earlier), error_view(later)),
{
    match earlier {
        Some(e) => Some(e),
        None => later,
    }
}

/// Builds a type-checking diagnostic from a fixed message.
pub fn typecheck_error(message: &str, span: Span) -> (error: JaktError)
    ensures
        error@ == JaktErrorView::TypecheckError(message@, span),
{
    JaktError::TypecheckError(message.to_owned(), span)
}

} // verus!
