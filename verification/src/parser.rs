//! The reader itself: executable code, proved to compute what the grammar
//! says.

use crate::error::{result_view, Expected, SyntaxError, SyntaxErrorView};
use crate::grammar::{
    expect_braces, expect_ident, expect_pipe, expect_str, followed_by, parse_group, parse_root, read_benchmark, read_block, read_example, read_keyword, span_at,
    ClauseView,
};
use crate::keyword::{clause_len, ClauseKind};
use crate::laws::{
    lemma_concat_empty, lemma_followed_by_concat, lemma_parse_group_name, lemma_parse_terminated,
};
use crate::token::{tokens_view, CodeBlock, Span, Token, TokenView};
use crate::tree::{
    children_view, lemma_children_view_push, Benchmark, Child, ChildView, Example, Group,
    GroupView,
};
use vstd::prelude::*;
use vstd::slice::slice_subrange;

verus! {

/// The place that an error at index `at` points to.
fn place(tokens: &[Token], at: usize, end: Span) -> (s: Span)
    ensures
        s == span_at(tokens_view(tokens@), at as int, end),
{
    if at < tokens.len() {
        tokens[at].span()
    } else {
        end
    }
}

/// Reads the identifier at index `at`.
pub fn parse_ident<'a>(tokens: &'a [Token], at: usize, end: Span) -> (r: Result<
    &'a str,
    SyntaxError,
>)
    ensures
        result_view(r) == expect_ident(tokens_view(tokens@), at as int, end),
{
    if at < tokens.len() {
        if let Token::Ident { text, .. } = &tokens[at] {
            return Ok(text.as_str());
        }
    }
    Err(SyntaxError::UnexpectedToken { expected: Expected::Ident, span: place(tokens, at, end) })
}

/// Reads the string literal at index `at`.
pub fn parse_str<'a>(tokens: &'a [Token], at: usize, end: Span) -> (r: Result<
    &'a str,
    SyntaxError,
>)
    ensures
        result_view(r) == expect_str(tokens_view(tokens@), at as int, end),
{
    if at < tokens.len() {
        if let Token::Str { text, .. } = &tokens[at] {
            return Ok(text.as_str());
        }
    }
    Err(SyntaxError::UnexpectedToken { expected: Expected::Str, span: place(tokens, at, end) })
}

/// Checks that a `|` stands at index `at`.
pub fn parse_pipe(tokens: &[Token], at: usize, end: Span) -> (r: Result<(), SyntaxError>)
    ensures
        result_view(r) == expect_pipe(tokens_view(tokens@), at as int, end),
{
    if at < tokens.len() {
        if let Token::Pipe { .. } = &tokens[at] {
            return Ok(());
        }
    }
    Err(SyntaxError::UnexpectedToken { expected: Expected::Pipe, span: place(tokens, at, end) })
}

/// Reads the block of statements at index `at`, and refuses one whose
/// last statement is an expression without terminator.
pub fn parse_block(tokens: &[Token], at: usize, end: Span) -> (r: Result<CodeBlock, SyntaxError>)
    ensures
        result_view(r) == read_block(tokens_view(tokens@), at as int, end),
        r matches Ok(block) ==> !block.trailing_expr,
{
    if at < tokens.len() {
        if let Token::Braces { span, block: Some(block), .. } = &tokens[at] {
            if block.trailing_expr {
                return Err(SyntaxError::UnterminatedTrailingStatement { span: *span });
            }
            return Ok(*block);
        }
    }
    Err(SyntaxError::UnexpectedToken { expected: Expected::Block, span: place(tokens, at, end) })
}

/// Takes the braces at index `at` as the body of a group: hands out what
/// stands between them and the place of the closing one. What it hands
/// out is a part of `tokens`, so a reader may descend into it.
pub fn parse_braces<'a>(tokens: &'a [Token], at: usize, end: Span) -> (r: Result<
    (&'a [Token], Span),
    SyntaxError,
>)
    ensures
        match r {
            Ok((inner, close)) => {
                &&& expect_braces(tokens_view(tokens@), at as int, end) == Ok::<_, SyntaxErrorView>(
                    (tokens_view(inner@), close),
                )
                &&& decreases_to!(tokens@ => inner@)
            },
            Err(e) => expect_braces(tokens_view(tokens@), at as int, end) == Err::<
                (Seq<TokenView>, Span),
                _,
            >(e@),
        },
{
    if at < tokens.len() {
        if let Token::Braces { inner, close, .. } = &tokens[at] {
            return Ok((inner.as_slice(), *close));
        }
    }
    Err(SyntaxError::UnexpectedToken { expected: Expected::Braces, span: place(tokens, at, end) })
}

/// Reads the keyword at the head of `tokens`.
pub fn parse_keyword(tokens: &[Token], end: Span) -> (r: Result<ClauseKind, SyntaxError>)
    ensures
        result_view(r) == read_keyword(tokens_view(tokens@), end),
{
    let text = parse_ident(tokens, 0, end)?;
    match ClauseKind::from_keyword(text) {
        Some(kind) => Ok(kind),
        None => Err(
            SyntaxError::UnexpectedKeyword { found: text.to_owned(), span: tokens[0].span() },
        ),
    }
}

/// Reads the example whose keyword stands at the head of `tokens`.
pub fn parse_example(tokens: &[Token], end: Span) -> (r: Result<Example, SyntaxError>)
    ensures
        result_view(r) == read_example(tokens_view(tokens@), end),
{
    let name = parse_str(tokens, 1, end)?;
    let body = parse_block(tokens, 2, end)?;
    Ok(Example { name: name.to_owned(), body })
}

/// Reads the benchmark whose keyword stands at the head of `tokens`.
pub fn parse_benchmark(tokens: &[Token], end: Span) -> (r: Result<Benchmark, SyntaxError>)
    ensures
        result_view(r) == read_benchmark(tokens_view(tokens@), end),
{
    let name = parse_str(tokens, 1, end)?;
    parse_pipe(tokens, 2, end)?;
    let binding = parse_ident(tokens, 3, end)?;
    parse_pipe(tokens, 4, end)?;
    let body = parse_block(tokens, 5, end)?;
    Ok(Benchmark { name: name.to_owned(), binding: binding.to_owned(), body })
}

/// The group that holds what a reader has gathered so far.
pub open spec fn gathered(
    name: Seq<char>,
    before: Seq<CodeBlock>,
    after: Seq<CodeBlock>,
    children: Seq<Child>,
) -> GroupView {
    GroupView { name, before, after, children: children_view(children) }
}

/// Reads the clauses of a group from `tokens` and gives the group the
/// name `name`. `end` is the place just behind the tokens.
pub fn parse_describe(name: &str, tokens: &[Token], end: Span) -> (r: Result<Group, SyntaxError>)
    ensures
        result_view(r) == parse_group(name@, tokens_view(tokens@), end),
        r matches Ok(group) ==> group@.terminated(),
    decreases tokens@,
{
    proof {
        lemma_parse_terminated(name@, tokens_view(tokens@), end);
    }
    let mut before: Vec<CodeBlock> = Vec::new();
    let mut after: Vec<CodeBlock> = Vec::new();
    let mut children: Vec<Child> = Vec::new();
    let ghost all = tokens_view(tokens@);
    let mut i: usize = 0;
    proof {
        // Nothing is gathered yet, and all is still to be read.
        assert(all.skip(0) =~= all);
        assert(children_view(children@) =~= Seq::empty());
        if let Ok(g) = parse_group(name@, all, end) {
            lemma_parse_group_name(name@, all, end);
            lemma_concat_empty(g, name@);
        }
    }
    while i < tokens.len()
        invariant
            i <= tokens.len(),
            all == tokens_view(tokens@),
            parse_group(name@, all, end) == followed_by(
                gathered(name@, before@, after@, children@),
                parse_group(name@, all.skip(i as int), end),
            ),
        decreases tokens.len() - i,
    {
        let rest = slice_subrange(tokens, i, tokens.len());
        let ghost ts = tokens_view(rest@);
        let ghost acc = gathered(name@, before@, after@, children@);
        proof {
            assert(ts =~= all.skip(i as int));
        }
        let kind = parse_keyword(rest, end)?;
        let ghost clause: ClauseView;
        match kind {
            ClauseKind::Group => {
                let inner_name = parse_str(rest, 1, end)?;
                let (inner, close) = parse_braces(rest, 2, end)?;
                proof {
                    // The braces are a part of `rest`, and `rest` is `tokens` or a part of it.
                    if i == 0 {
                        assert(rest@ =~= tokens@);
                    } else {
                        assert(decreases_to!(tokens@ => rest@));
                    }
                    assert(decreases_to!(tokens@ => inner@));
                }
                let group = parse_describe(inner_name, inner, close)?;
                proof {
                    clause = ClauseView::Child(ChildView::Group(group@));
                    lemma_children_view_push(children@, Child::Group(group));
                }
                children.push(Child::Group(group));
            },
            ClauseKind::Example => {
                let example = parse_example(rest, end)?;
                proof {
                    clause = ClauseView::Child(ChildView::Example(example@));
                    lemma_children_view_push(children@, Child::Example(example));
                }
                children.push(Child::Example(example));
            },
            ClauseKind::Benchmark => {
                let benchmark = parse_benchmark(rest, end)?;
                proof {
                    clause = ClauseView::Child(ChildView::Benchmark(benchmark@));
                    lemma_children_view_push(children@, Child::Benchmark(benchmark));
                }
                children.push(Child::Benchmark(benchmark));
            },
            ClauseKind::Before => {
                let block = parse_block(rest, 1, end)?;
                proof {
                    clause = ClauseView::Before(block);
                }
                before.push(block);
            },
            ClauseKind::After => {
                let block = parse_block(rest, 1, end)?;
                proof {
                    clause = ClauseView::After(block);
                }
                after.push(block);
            },
        }
        proof {
            // What was gathered, then this clause, then the rest: the clause
            // moves over to what was gathered.
            let n = clause_len(kind) as int;
            let head = GroupView::single(name@, clause);
            let tail = parse_group(name@, ts.skip(n), end);
            assert(parse_group(name@, ts, end) == followed_by(head, tail));
            assert(ts.skip(n) =~= all.skip(i + n));
            lemma_followed_by_concat(acc, head, tail);
            let next = gathered(name@, before@, after@, children@);
            assert(acc.concat(head).before =~= next.before);
            assert(acc.concat(head).after =~= next.after);
            assert(acc.concat(head).children =~= next.children);
        }
        i += kind.len();
    }
    proof {
        assert(all.skip(i as int) =~= Seq::empty());
        lemma_concat_empty(gathered(name@, before@, after@, children@), name@);
    }
    Ok(Group { name: name.to_owned(), before, after, children })
}

/// Reads a whole input. `end` is the place of the end of input.
pub fn parse(tokens: &[Token], end: Span) -> (r: Result<Group, SyntaxError>)
    ensures
        result_view(r) == parse_root(tokens_view(tokens@), end),
        r matches Ok(group) ==> group@.terminated(),
{
    parse_describe("_", tokens, end)
}

} // verus!
