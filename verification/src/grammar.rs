//! The grammar, as functions on the values of tokens.
//!
//! ```text
//! Group     := { Clause }
//! Clause    := Nested | Example | Benchmark | Hook
//! Nested    := ("describe" | "context") StringLiteral "{" Group "}"
//! Example   := ("it" | "test") StringLiteral Block
//! Benchmark := "bench" StringLiteral "|" Identifier "|" Block
//! Hook      := ("before" | "after") Block
//! ```
//!
//! A `Block` is a pair of braces that the host reads as statements, every
//! one of them terminated.

use crate::error::{Expected, SyntaxErrorView};
use crate::keyword::{clause_kind, clause_len, ClauseKind};
use crate::token::{CodeBlock, Span, TokenView};
use crate::tree::{BenchmarkView, ChildView, ExampleView, GroupView};
use vstd::prelude::*;

verus! {

/// One clause, read.
pub enum ClauseView {
    Child(ChildView),
    Before(CodeBlock),
    After(CodeBlock),
}

/// The place that an error at index `at` points to: the token there, or
/// `end` where the tokens have run out.
pub open spec fn span_at(tokens: Seq<TokenView>, at: int, end: Span) -> Span {
    if 0 <= at < tokens.len() {
        tokens[at].span()
    } else {
        end
    }
}

/// The error for a token at `at` that is not of the kind `expected`.
pub open spec fn mismatch(tokens: Seq<TokenView>, at: int, end: Span, expected: Expected)
    -> SyntaxErrorView {
    SyntaxErrorView::UnexpectedToken { expected, span: span_at(tokens, at, end) }
}

/// The text of the identifier at `at`.
pub open spec fn expect_ident(tokens: Seq<TokenView>, at: int, end: Span) -> Result<
    Seq<char>,
    SyntaxErrorView,
> {
    if 0 <= at < tokens.len() && tokens[at] is Ident {
        Ok(tokens[at]->Ident_text)
    } else {
        Err(mismatch(tokens, at, end, Expected::Ident))
    }
}

/// The contents of the string literal at `at`.
pub open spec fn expect_str(tokens: Seq<TokenView>, at: int, end: Span) -> Result<
    Seq<char>,
    SyntaxErrorView,
> {
    if 0 <= at < tokens.len() && tokens[at] is Str {
        Ok(tokens[at]->Str_text)
    } else {
        Err(mismatch(tokens, at, end, Expected::Str))
    }
}

/// That a `|` stands at `at`.
pub open spec fn expect_pipe(tokens: Seq<TokenView>, at: int, end: Span) -> Result<
    (),
    SyntaxErrorView,
> {
    if 0 <= at < tokens.len() && tokens[at] is Pipe {
        Ok(())
    } else {
        Err(mismatch(tokens, at, end, Expected::Pipe))
    }
}

/// The block of statements at `at`: braces that the host could read, with
/// no expression left unterminated at their end.
pub open spec fn read_block(tokens: Seq<TokenView>, at: int, end: Span) -> Result<
    CodeBlock,
    SyntaxErrorView,
> {
    if 0 <= at < tokens.len() && tokens[at] is Braces && tokens[at]->block is Some {
        let block = tokens[at]->block->0;
        if block.trailing_expr {
            Err(SyntaxErrorView::UnterminatedTrailingStatement { span: tokens[at].span() })
        } else {
            Ok(block)
        }
    } else {
        Err(mismatch(tokens, at, end, Expected::Block))
    }
}

/// The example whose keyword stands at the head of `tokens`.
pub open spec fn read_example(tokens: Seq<TokenView>, end: Span) -> Result<
    ExampleView,
    SyntaxErrorView,
> {
    match expect_str(tokens, 1, end) {
        Err(e) => Err(e),
        Ok(name) => match read_block(tokens, 2, end) {
            Err(e) => Err(e),
            Ok(body) => Ok(ExampleView { name, body }),
        },
    }
}

/// The benchmark whose keyword stands at the head of `tokens`.
pub open spec fn read_benchmark(tokens: Seq<TokenView>, end: Span) -> Result<
    BenchmarkView,
    SyntaxErrorView,
> {
    match expect_str(tokens, 1, end) {
        Err(e) => Err(e),
        Ok(name) => match expect_pipe(tokens, 2, end) {
            Err(e) => Err(e),
            Ok(_) => match expect_ident(tokens, 3, end) {
                Err(e) => Err(e),
                Ok(binding) => match expect_pipe(tokens, 4, end) {
                    Err(e) => Err(e),
                    Ok(_) => match read_block(tokens, 5, end) {
                        Err(e) => Err(e),
                        Ok(body) => Ok(BenchmarkView { name, binding, body }),
                    },
                },
            },
        },
    }
}

/// The kind of clause that starts at the head of `tokens`.
pub open spec fn read_keyword(tokens: Seq<TokenView>, end: Span) -> Result<
    ClauseKind,
    SyntaxErrorView,
> {
    match expect_ident(tokens, 0, end) {
        Err(e) => Err(e),
        Ok(text) => match clause_kind(text) {
            None => Err(SyntaxErrorView::UnexpectedKeyword { found: text, span: tokens[0].span() }),
            Some(kind) => Ok(kind),
        },
    }
}

/// The braces at `at`, taken as the body of a group: what stands between
/// them, and the place of the closing one.
pub open spec fn expect_braces(tokens: Seq<TokenView>, at: int, end: Span) -> Result<
    (Seq<TokenView>, Span),
    SyntaxErrorView,
> {
    if 0 <= at < tokens.len() && tokens[at] is Braces {
        Ok((tokens[at]->inner, tokens[at]->close))
    } else {
        Err(mismatch(tokens, at, end, Expected::Braces))
    }
}

/// What stands behind the keyword of a nested group: its name, the tokens
/// between its braces, and the place of the closing brace.
pub open spec fn read_nested_head(tokens: Seq<TokenView>, end: Span) -> Result<
    (Seq<char>, Seq<TokenView>, Span),
    SyntaxErrorView,
> {
    match expect_str(tokens, 1, end) {
        Err(e) => Err(e),
        Ok(name) => match expect_braces(tokens, 2, end) {
            Err(e) => Err(e),
            Ok((inner, close)) => Ok((name, inner, close)),
        },
    }
}

/// The clause of the given kind at the head of `tokens`, for the kinds
/// that hold no clauses themselves.
pub open spec fn read_leaf(kind: ClauseKind, tokens: Seq<TokenView>, end: Span) -> Result<
    ClauseView,
    SyntaxErrorView,
>
    recommends
        kind != ClauseKind::Group,
{
    match kind {
        ClauseKind::Benchmark => match read_benchmark(tokens, end) {
            Err(e) => Err(e),
            Ok(b) => Ok(ClauseView::Child(ChildView::Benchmark(b))),
        },
        ClauseKind::Before => match read_block(tokens, 1, end) {
            Err(e) => Err(e),
            Ok(body) => Ok(ClauseView::Before(body)),
        },
        ClauseKind::After => match read_block(tokens, 1, end) {
            Err(e) => Err(e),
            Ok(body) => Ok(ClauseView::After(body)),
        },
        _ => match read_example(tokens, end) {
            Err(e) => Err(e),
            Ok(x) => Ok(ClauseView::Child(ChildView::Example(x))),
        },
    }
}

impl GroupView {
    /// The group of this name that holds the one clause.
    pub open spec fn single(name: Seq<char>, clause: ClauseView) -> GroupView {
        match clause {
            ClauseView::Child(c) => GroupView {
                name,
                before: Seq::empty(),
                after: Seq::empty(),
                children: seq![c],
            },
            ClauseView::Before(b) => GroupView {
                name,
                before: seq![b],
                after: Seq::empty(),
                children: Seq::empty(),
            },
            ClauseView::After(b) => GroupView {
                name,
                before: Seq::empty(),
                after: seq![b],
                children: Seq::empty(),
            },
        }
    }

    /// This group with what `rest` holds put behind what it holds itself,
    /// sequence by sequence.
    pub open spec fn concat(self, rest: GroupView) -> GroupView {
        GroupView {
            name: self.name,
            before: self.before + rest.before,
            after: self.after + rest.after,
            children: self.children + rest.children,
        }
    }
}

/// `head` followed by what the reading of the rest gave: the joined group,
/// or the error that the rest ran into.
pub open spec fn followed_by(head: GroupView, rest: Result<GroupView, SyntaxErrorView>) -> Result<
    GroupView,
    SyntaxErrorView,
> {
    match rest {
        Ok(g) => Ok(head.concat(g)),
        Err(e) => Err(e),
    }
}

/// The group of the given name whose clauses are `tokens`, read from the
/// first token to the last; or the first error on the way. `end` is the
/// place just behind the tokens: that of the closing brace for a nested
/// group, that of the end of input at the top.
pub open spec fn parse_group(name: Seq<char>, tokens: Seq<TokenView>, end: Span) -> Result<
    GroupView,
    SyntaxErrorView,
>
    decreases tokens,
{
    if tokens.len() == 0 {
        Ok(GroupView::empty(name))
    } else {
        match read_keyword(tokens, end) {
            Err(e) => Err(e),
            Ok(ClauseKind::Group) => match read_nested_head(tokens, end) {
                Err(e) => Err(e),
                Ok((inner_name, inner, close)) => match parse_group(inner_name, inner, close) {
                    Err(e) => Err(e),
                    Ok(g) => followed_by(
                        GroupView::single(name, ClauseView::Child(ChildView::Group(g))),
                        parse_group(name, tokens.skip(3), end),
                    ),
                },
            },
            Ok(kind) => match read_leaf(kind, tokens, end) {
                Err(e) => Err(e),
                Ok(clause) => followed_by(
                    GroupView::single(name, clause),
                    parse_group(name, tokens.skip(clause_len(kind) as int), end),
                ),
            },
        }
    }
}

/// The name that the group at the top goes by. No group in the source can
/// have taken it from there: it is given, not read.
pub open spec fn root_name() -> Seq<char> {
    "_"@
}

/// The reading of a whole input.
pub open spec fn parse_root(tokens: Seq<TokenView>, end: Span) -> Result<
    GroupView,
    SyntaxErrorView,
> {
    parse_group(root_name(), tokens, end)
}

} // verus!
