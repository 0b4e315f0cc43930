//! What the reader reports when the input does not follow the grammar.

use crate::token::Span;
use vstd::prelude::*;
use vstd::string::StringExecFns;

verus! {

/// The kind of token that the grammar asks for at some place.
#[derive(Clone, Copy, Debug, PartialEq, Eq, Structural)]
pub enum Expected {
    /// An identifier.
    Ident,
    /// A string literal.
    Str,
    /// The delimiter `|`.
    Pipe,
    /// Braces that hold the clauses of a group.
    Braces,
    /// Braces that the host reads as a block of statements.
    Block,
}

/// The first fault found in the input. Reading stops at it.
#[derive(Debug, PartialEq, Eq)]
pub enum SyntaxError {
    /// A clause starts with an identifier that is none of the keywords.
    /// `span` is the place of that identifier.
    UnexpectedKeyword { found: String, span: Span },
    /// The last statement of a block is an expression without terminator.
    /// `span` is the place where the block starts.
    UnterminatedTrailingStatement { span: Span },
    /// The token at `span` is not of the kind that the grammar asks for
    /// there. Where the input stops short, `span` is the place of its end.
    UnexpectedToken { expected: Expected, span: Span },
}

/// The mathematical value of a [`SyntaxError`].
pub enum SyntaxErrorView {
    UnexpectedKeyword { found: Seq<char>, span: Span },
    UnterminatedTrailingStatement { span: Span },
    UnexpectedToken { expected: Expected, span: Span },
}

impl View for SyntaxError {
    type V = SyntaxErrorView;

    open spec fn view(&self) -> SyntaxErrorView {
        match self {
            SyntaxError::UnexpectedKeyword { found, span } => SyntaxErrorView::UnexpectedKeyword {
                found: found@,
                span: *span,
            },
            SyntaxError::UnterminatedTrailingStatement { span } =>
                SyntaxErrorView::UnterminatedTrailingStatement { span: *span },
            SyntaxError::UnexpectedToken { expected, span } => SyntaxErrorView::UnexpectedToken {
                expected: *expected,
                span: *span,
            },
        }
    }
}

impl Expected {
    /// How a message names this kind of token.
    pub open spec fn phrase(self) -> Seq<char> {
        match self {
            Expected::Ident => "expected an identifier"@,
            Expected::Str => "expected a string literal"@,
            Expected::Pipe => "expected `|`"@,
            Expected::Braces => "expected `{`"@,
            Expected::Block => "expected a block of statements"@,
        }
    }
}

impl SyntaxErrorView {
    /// The place in the source that the error points at.
    pub open spec fn span(self) -> Span {
        match self {
            SyntaxErrorView::UnexpectedKeyword { span, .. } => span,
            SyntaxErrorView::UnterminatedTrailingStatement { span } => span,
            SyntaxErrorView::UnexpectedToken { span, .. } => span,
        }
    }

    /// The same error, pointing at `at`.
    pub open spec fn placed(self, at: Span) -> SyntaxErrorView {
        match self {
            SyntaxErrorView::UnexpectedKeyword { found, .. } => SyntaxErrorView::UnexpectedKeyword {
                found,
                span: at,
            },
            SyntaxErrorView::UnterminatedTrailingStatement { .. } =>
                SyntaxErrorView::UnterminatedTrailingStatement { span: at },
            SyntaxErrorView::UnexpectedToken { expected, .. } => SyntaxErrorView::UnexpectedToken {
                expected,
                span: at,
            },
        }
    }

    /// The text shown to the user.
    pub open spec fn message(self) -> Seq<char> {
        match self {
            SyntaxErrorView::UnexpectedKeyword { found, .. } =>
                "Expected `describe`, `context`, `before`, `after`, `it`, `test`, or `bench`, found `"@
                    + found + "`"@,
            SyntaxErrorView::UnterminatedTrailingStatement { .. } =>
                "last expression in this block must be terminated by `;`"@,
            SyntaxErrorView::UnexpectedToken { expected, .. } => expected.phrase(),
        }
    }
}

impl SyntaxError {
    /// The place in the source that the error points at.
    pub fn span(&self) -> (s: Span)
        ensures
            s == self@.span(),
    {
        match self {
            SyntaxError::UnexpectedKeyword { span, .. } => *span,
            SyntaxError::UnterminatedTrailingStatement { span } => *span,
            SyntaxError::UnexpectedToken { span, .. } => *span,
        }
    }

    /// The text shown to the user. For an unexpected keyword it names the
    /// accepted ones and quotes what was found.
    pub fn message(&self) -> (text: String)
        ensures
            text@ == self@.message(),
    {
        match self {
            SyntaxError::UnexpectedKeyword { found, .. } => {
                let mut text = String::from_str(
                    "Expected `describe`, `context`, `before`, `after`, `it`, `test`, or `bench`, found `",
                );
                text.append(found.as_str());
                text.append("`");
                text
            },
            SyntaxError::UnterminatedTrailingStatement { .. } => String::from_str(
                "last expression in this block must be terminated by `;`",
            ),
            SyntaxError::UnexpectedToken { expected, .. } => match expected {
                Expected::Ident => String::from_str("expected an identifier"),
                Expected::Str => String::from_str("expected a string literal"),
                Expected::Pipe => String::from_str("expected `|`"),
                Expected::Braces => String::from_str("expected `{`"),
                Expected::Block => String::from_str("expected a block of statements"),
            },
        }
    }
}

/// The mathematical value of what a reading function returned.
pub open spec fn result_view<T: View, E: View>(r: Result<T, E>) -> Result<T::V, E::V> {
    match r {
        Ok(t) => Ok(t@),
        Err(e) => Err(e@),
    }
}

} // verus!
