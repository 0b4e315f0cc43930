//! The input of the reader: token trees as the host front end hands them over.

use vstd::prelude::*;

verus! {

/// A region of the source text, as a half-open range of byte offsets.
#[derive(Clone, Copy, Debug, PartialEq, Eq, Structural)]
pub struct Span {
    pub lo: u32,
    pub hi: u32,
}

/// A brace-delimited run of host statements, as the host's statement reader
/// made it out. The reader of groups never looks inside: it carries the
/// block through under the host's key and checks one fact of its shape.
#[derive(Clone, Copy, Debug, PartialEq, Eq, Structural)]
pub struct CodeBlock {
    /// The key under which the host keeps the statements.
    pub id: usize,
    /// Whether the last statement is an expression with no terminator.
    pub trailing_expr: bool,
}

impl View for CodeBlock {
    type V = CodeBlock;

    open spec fn view(&self) -> CodeBlock {
        *self
    }
}

/// One token tree of the input.
#[derive(Debug, PartialEq, Eq)]
pub enum Token {
    /// An identifier.
    Ident { text: String, span: Span },
    /// A string literal; `text` is what stands between the quotes, as written.
    Str { text: String, span: Span },
    /// The delimiter `|`.
    Pipe { span: Span },
    /// A pair of braces with everything between them. `span` is the place of
    /// the opening brace, `close` that of the closing one. `block` is what
    /// the host's statement reader made of the same braces, `None` where it
    /// could not read them as statements.
    Braces { span: Span, close: Span, inner: Vec<Token>, block: Option<CodeBlock> },
    /// Any other token of the host language.
    Other { span: Span },
}

/// The mathematical value of a [`Token`].
pub enum TokenView {
    Ident { text: Seq<char>, span: Span },
    Str { text: Seq<char>, span: Span },
    Pipe { span: Span },
    Braces { span: Span, close: Span, inner: Seq<TokenView>, block: Option<CodeBlock> },
    Other { span: Span },
}

impl TokenView {
    /// Where the token starts: for braces, the place of the opening one.
    pub open spec fn span(self) -> Span {
        match self {
            TokenView::Ident { span, .. } => span,
            TokenView::Str { span, .. } => span,
            TokenView::Pipe { span } => span,
            TokenView::Braces { span, .. } => span,
            TokenView::Other { span } => span,
        }
    }

    /// The same token with every place in it, at any depth, replaced by
    /// `at`.
    pub open spec fn placed(self, at: Span) -> TokenView
        decreases self,
    {
        match self {
            TokenView::Ident { text, .. } => TokenView::Ident { text, span: at },
            TokenView::Str { text, .. } => TokenView::Str { text, span: at },
            TokenView::Pipe { .. } => TokenView::Pipe { span: at },
            TokenView::Braces { inner, block, .. } => TokenView::Braces {
                span: at,
                close: at,
                inner: placed_all(inner, at),
                block,
            },
            TokenView::Other { .. } => TokenView::Other { span: at },
        }
    }
}

/// The same tokens with every place in them replaced by `at`.
pub open spec fn placed_all(tokens: Seq<TokenView>, at: Span) -> Seq<TokenView>
    decreases tokens,
{
    // The bound on `i` serves the termination check alone.
    Seq::new(
        tokens.len(),
        |i: int| if 0 <= i < tokens.len() { tokens[i].placed(at) } else { arbitrary() },
    )
}

impl View for Token {
    type V = TokenView;

    open spec fn view(&self) -> TokenView
        decreases self,
    {
        match self {
            Token::Ident { text, span } => TokenView::Ident { text: text@, span: *span },
            Token::Str { text, span } => TokenView::Str { text: text@, span: *span },
            Token::Pipe { span } => TokenView::Pipe { span: *span },
            Token::Braces { span, close, inner, block } => TokenView::Braces {
                span: *span,
                close: *close,
                inner: tokens_view(inner@),
                block: *block,
            },
            Token::Other { span } => TokenView::Other { span: *span },
        }
    }
}

/// The values of a run of tokens, in order.
pub open spec fn tokens_view(tokens: Seq<Token>) -> Seq<TokenView>
    decreases tokens,
{
    // The bound on `i` serves the termination check alone.
    Seq::new(tokens.len(), |i: int| if 0 <= i < tokens.len() { tokens[i]@ } else { arbitrary() })
}

impl Token {
    /// Where the token starts.
    pub fn span(&self) -> (s: Span)
        ensures
            s == self@.span(),
    {
        match self {
            Token::Ident { span, .. } => *span,
            Token::Str { span, .. } => *span,
            Token::Pipe { span } => *span,
            Token::Braces { span, .. } => *span,
            Token::Other { span } => *span,
        }
    }
}

} // verus!
