//! What holds of every reading, proved from the grammar.

use crate::error::{result_view, SyntaxError, SyntaxErrorView};
use crate::grammar::{
    followed_by, parse_group, parse_root, read_keyword, read_leaf,
    read_nested_head, ClauseView,
};
use crate::keyword::{clause_kind, clause_len, ClauseKind};
use crate::token::{placed_all, tokens_view, Span, Token, TokenView};
use crate::tree::{ChildView, ExampleView, Group, GroupView};
use vstd::prelude::*;

verus! {

/// No block of a tree that was read ends in an expression without
/// terminator: not a hook's, not an example's, not a benchmark's, at any
/// depth.
pub proof fn lemma_parse_terminated(name: Seq<char>, tokens: Seq<TokenView>, end: Span)
    ensures
        parse_group(name, tokens, end) matches Ok(g) ==> g.terminated(),
    decreases tokens,
{
    if tokens.len() > 0 {
        if let Ok(kind) = read_keyword(tokens, end) {
            let n = clause_len(kind) as int;
            if kind == ClauseKind::Group {
                if let Ok((inner_name, inner, close)) = read_nested_head(tokens, end) {
                    lemma_parse_terminated(inner_name, inner, close);
                    if parse_group(inner_name, inner, close) is Ok {
                        lemma_parse_terminated(name, tokens.skip(n), end);
                    }
                }
            } else {
                if read_leaf(kind, tokens, end) is Ok {
                    lemma_parse_terminated(name, tokens.skip(n), end);
                }
            }
        }
    }
}

/// Where there is nothing to read, the group is empty: no hooks and no
/// children.
pub proof fn lemma_parse_empty(name: Seq<char>, end: Span)
    ensures
        parse_group(name, Seq::empty(), end) == Ok::<GroupView, SyntaxErrorView>(
            GroupView::empty(name),
        ),
{
}

/// A group that was read bears the name it was read under.
pub proof fn lemma_parse_group_name(name: Seq<char>, tokens: Seq<TokenView>, end: Span)
    ensures
        parse_group(name, tokens, end) matches Ok(g) ==> g.name == name,
{
}

/// A group with nothing put before it or behind it is the group itself.
pub proof fn lemma_concat_empty(g: GroupView, name: Seq<char>)
    ensures
        g.concat(GroupView::empty(name)) == g,
        GroupView::empty(g.name).concat(g) == g,
{
    let right = g.concat(GroupView::empty(name));
    assert(right.before =~= g.before);
    assert(right.after =~= g.after);
    assert(right.children =~= g.children);
    let left = GroupView::empty(g.name).concat(g);
    assert(left.before =~= g.before);
    assert(left.after =~= g.after);
    assert(left.children =~= g.children);
}

/// Reading is associative in what it gathers: a group read, followed by
/// one more group's worth and then the rest, is the two joined and then
/// the rest.
pub proof fn lemma_followed_by_concat(
    first: GroupView,
    second: GroupView,
    rest: Result<GroupView, SyntaxErrorView>,
)
    ensures
        followed_by(first, followed_by(second, rest)) == followed_by(first.concat(second), rest),
{
    if let Ok(g) = rest {
        assert(first.concat(second.concat(g)).before =~= first.concat(second).concat(g).before);
        assert(first.concat(second.concat(g)).after =~= first.concat(second).concat(g).after);
        assert(first.concat(second.concat(g)).children =~= first.concat(second).concat(
            g,
        ).children);
    }
}

/// Clauses are read in the order in which they stand. Where `a` is a run
/// of whole clauses, reading `a` with `b` behind it gives what `a` gave,
/// hooks and children each in their order, followed by what `b` gives
/// alone; an error in `b` is the error of the whole.
pub proof fn lemma_parse_concat(
    name: Seq<char>,
    a: Seq<TokenView>,
    b: Seq<TokenView>,
    end: Span,
)
    requires
        parse_group(name, a, end) is Ok,
    ensures
        parse_group(name, a + b, end) == followed_by(
            parse_group(name, a, end)->Ok_0,
            parse_group(name, b, end),
        ),
    decreases a.len(),
{
    let whole = a + b;
    let tail = parse_group(name, b, end);
    if a.len() == 0 {
        assert(whole =~= b);
        if let Ok(g) = tail {
            lemma_parse_group_name(name, b, end);
            lemma_concat_empty(g, name);
        }
    } else {
        let kind = read_keyword(a, end)->Ok_0;
        let n = clause_len(kind) as int;
        assert(whole[0] == a[0]);
        assert(read_keyword(whole, end) == read_keyword(a, end));
        assert(n <= a.len());
        assert forall|k: int| 0 <= k < n implies whole[k] == a[k] by {}
        assert(whole.skip(n) =~= a.skip(n) + b);
        lemma_parse_concat(name, a.skip(n), b, end);
        let mid = parse_group(name, a.skip(n), end)->Ok_0;
        if kind == ClauseKind::Group {
            assert(read_nested_head(whole, end) == read_nested_head(a, end));
            let (inner_name, inner, close) = read_nested_head(a, end)->Ok_0;
            let g = parse_group(inner_name, inner, close)->Ok_0;
            let head = GroupView::single(name, ClauseView::Child(ChildView::Group(g)));
            lemma_followed_by_concat(head, mid, tail);
        } else {
            assert(read_leaf(kind, whole, end) == read_leaf(kind, a, end));
            let head = GroupView::single(name, read_leaf(kind, a, end)->Ok_0);
            lemma_followed_by_concat(head, mid, tail);
        }
    }
}

/// Reading is a function of what the tokens hold. Two inputs whose tokens
/// have the same values, one by one, are read to the same tree or to the
/// same error, whatever `parse` returned for each.
pub proof fn lemma_parse_deterministic(
    a: Seq<Token>,
    b: Seq<Token>,
    end: Span,
    ra: Result<Group, SyntaxError>,
    rb: Result<Group, SyntaxError>,
)
    requires
        a.len() == b.len(),
        forall|i: int| 0 <= i < a.len() ==> a[i]@ == b[i]@,
        result_view(ra) == parse_root(tokens_view(a), end),
        result_view(rb) == parse_root(tokens_view(b), end),
    ensures
        result_view(ra) == result_view(rb),
{
    assert(tokens_view(a) =~= tokens_view(b));
}

/// A keyword counts only for the kind of clause that it opens. Two inputs
/// that differ in their first token alone, each an identifier that opens
/// the same kind of clause, are read alike; where the two identifiers
/// stand in the source makes no difference.
pub proof fn lemma_keyword_by_kind(
    name: Seq<char>,
    first: Seq<char>,
    first_span: Span,
    second: Seq<char>,
    second_span: Span,
    rest: Seq<TokenView>,
    end: Span,
)
    requires
        clause_kind(first) is Some,
        clause_kind(first) == clause_kind(second),
    ensures
        parse_group(name, seq![TokenView::Ident { text: first, span: first_span }] + rest, end)
            == parse_group(
            name,
            seq![TokenView::Ident { text: second, span: second_span }] + rest,
            end,
        ),
{
    let a = seq![TokenView::Ident { text: first, span: first_span }] + rest;
    let b = seq![TokenView::Ident { text: second, span: second_span }] + rest;
    let kind = clause_kind(first)->0;
    let n = clause_len(kind) as int;
    assert(read_keyword(a, end) == Ok::<ClauseKind, SyntaxErrorView>(kind));
    assert(read_keyword(b, end) == Ok::<ClauseKind, SyntaxErrorView>(kind));
    assert(a.len() == b.len());
    assert forall|k: int| 1 <= k < a.len() implies a[k] == b[k] by {
        assert(a[k] == rest[k - 1]);
        assert(b[k] == rest[k - 1]);
    }
    if n <= a.len() {
        assert(a.skip(n) =~= b.skip(n));
    }
}

/// An identifier at the head of a clause that is not one of the keywords,
/// letter for letter, ends the reading there: the error quotes it and
/// points at it.
pub proof fn lemma_unknown_keyword(
    name: Seq<char>,
    text: Seq<char>,
    span: Span,
    rest: Seq<TokenView>,
    end: Span,
)
    requires
        text != "describe"@,
        text != "context"@,
        text != "it"@,
        text != "test"@,
        text != "bench"@,
        text != "before"@,
        text != "after"@,
    ensures
        parse_group(name, seq![TokenView::Ident { text, span }] + rest, end) == Err::<
            GroupView,
            SyntaxErrorView,
        >(SyntaxErrorView::UnexpectedKeyword { found: text, span }),
{
    let tokens = seq![TokenView::Ident { text, span }] + rest;
    assert(tokens[0] == TokenView::Ident { text, span });
}

/// An example is taken or refused by the end of its body. With a block of
/// statements in third place, the clause is refused where the block ends
/// in an expression without terminator, with an error that points at the
/// block; with the terminator in place the example is read, and the
/// reading goes on behind it.
pub proof fn lemma_example_body(name: Seq<char>, tokens: Seq<TokenView>, end: Span)
    requires
        tokens.len() >= 3,
        tokens[0] matches TokenView::Ident { text, .. } && clause_kind(text) == Some(
            ClauseKind::Example,
        ),
        tokens[1] is Str,
        tokens[2] is Braces,
        tokens[2]->block is Some,
    ensures
        tokens[2]->block->0.trailing_expr ==> parse_group(name, tokens, end) == Err::<
            GroupView,
            SyntaxErrorView,
        >(SyntaxErrorView::UnterminatedTrailingStatement { span: tokens[2].span() }),
        !tokens[2]->block->0.trailing_expr ==> parse_group(name, tokens, end) == followed_by(
            GroupView::single(
                name,
                ClauseView::Child(
                    ChildView::Example(
                        ExampleView { name: tokens[1]->Str_text, body: tokens[2]->block->0 },
                    ),
                ),
            ),
            parse_group(name, tokens.skip(3), end),
        ),
{
}

/// What a reading gave, with the place that an error points at replaced
/// by `at`. A tree holds no places and stays as it is.
pub open spec fn placed_result<T>(r: Result<T, SyntaxErrorView>, at: Span) -> Result<
    T,
    SyntaxErrorView,
> {
    match r {
        Ok(t) => Ok(t),
        Err(e) => Err(e.placed(at)),
    }
}

/// Where the tokens stand in the source has no part in what is read from
/// them. With every place replaced by one and the same, the tokens are
/// read to the same tree, or to the same kind of error with the same
/// words in it.
pub proof fn lemma_places_do_not_count(
    name: Seq<char>,
    tokens: Seq<TokenView>,
    end: Span,
    at: Span,
)
    ensures
        parse_group(name, placed_all(tokens, at), at) == placed_result(
            parse_group(name, tokens, end),
            at,
        ),
    decreases tokens,
{
    let moved = placed_all(tokens, at);
    if tokens.len() > 0 {
        assert forall|k: int| 0 <= k < tokens.len() implies moved[k] == tokens[k].placed(at) by {}
        assert(moved[0] == tokens[0].placed(at));
        assert(read_keyword(moved, at) == placed_result(read_keyword(tokens, end), at));
        if let Ok(kind) = read_keyword(tokens, end) {
            let n = clause_len(kind) as int;
            if kind == ClauseKind::Group {
                assert(read_nested_head(moved, at) == match read_nested_head(tokens, end) {
                    Ok((inner_name, inner, close)) => Ok((inner_name, placed_all(inner, at), at)),
                    Err(e) => Err(e.placed(at)),
                });
                if let Ok((inner_name, inner, close)) = read_nested_head(tokens, end) {
                    lemma_places_do_not_count(inner_name, inner, close, at);
                    if parse_group(inner_name, inner, close) is Ok {
                        assert(moved.skip(n) =~= placed_all(tokens.skip(n), at));
                        lemma_places_do_not_count(name, tokens.skip(n), end, at);
                    }
                }
            } else {
                assert(read_leaf(kind, moved, at) == placed_result(
                    read_leaf(kind, tokens, end),
                    at,
                ));
                if read_leaf(kind, tokens, end) is Ok {
                    assert(moved.skip(n) =~= placed_all(tokens.skip(n), at));
                    lemma_places_do_not_count(name, tokens.skip(n), end, at);
                }
            }
        }
    } else {
        assert(moved =~= tokens);
    }
}

/// Two keywords for one kind of clause are read alike. Two inputs that
/// open with identifiers of the same kind, and hold the same tokens behind
/// them but for where the tokens stand, are read to the same tree, or to
/// the same kind of error with the same words in it.
pub proof fn lemma_synonyms_read_alike(
    name: Seq<char>,
    a: Seq<TokenView>,
    end_a: Span,
    b: Seq<TokenView>,
    end_b: Span,
    at: Span,
)
    requires
        a.len() > 0,
        b.len() > 0,
        a[0] is Ident,
        b[0] is Ident,
        clause_kind(a[0]->Ident_text) is Some,
        clause_kind(a[0]->Ident_text) == clause_kind(b[0]->Ident_text),
        placed_all(a.skip(1), at) == placed_all(b.skip(1), at),
    ensures
        placed_result(parse_group(name, a, end_a), at) == placed_result(
            parse_group(name, b, end_b),
            at,
        ),
{
    let rest = placed_all(a.skip(1), at);
    let x = a[0]->Ident_text;
    let y = b[0]->Ident_text;
    lemma_places_do_not_count(name, a, end_a, at);
    lemma_places_do_not_count(name, b, end_b, at);
    assert(placed_all(a, at) =~= seq![TokenView::Ident { text: x, span: at }] + rest) by {
        assert forall|k: int| 1 <= k < a.len() implies placed_all(a, at)[k] == rest[k - 1] by {
            assert(rest[k - 1] == a.skip(1)[k - 1].placed(at));
        }
    }
    assert(placed_all(b, at) =~= seq![TokenView::Ident { text: y, span: at }] + rest) by {
        assert(rest.len() == b.len() - 1);
        assert forall|k: int| 1 <= k < b.len() implies placed_all(b, at)[k] == rest[k - 1] by {
            assert(placed_all(b.skip(1), at)[k - 1] == b.skip(1)[k - 1].placed(at));
        }
    }
    lemma_keyword_by_kind(name, x, at, y, at, rest, at);
}

/// `describe` and `context` are one keyword under two names. An input
/// that opens with the one and an input that opens with the other, with
/// the same tokens behind the keyword but for where they stand, are read
/// to the same tree, or to the same kind of error with the same words in
/// it.
pub proof fn lemma_describe_is_context(
    name: Seq<char>,
    a: Seq<TokenView>,
    end_a: Span,
    b: Seq<TokenView>,
    end_b: Span,
    at: Span,
)
    requires
        a.len() > 0,
        b.len() > 0,
        a[0] is Ident,
        b[0] is Ident,
        a[0]->Ident_text == "describe"@,
        b[0]->Ident_text == "context"@,
        placed_all(a.skip(1), at) == placed_all(b.skip(1), at),
    ensures
        placed_result(parse_group(name, a, end_a), at) == placed_result(
            parse_group(name, b, end_b),
            at,
        ),
        parse_group(name, a, end_a) is Ok ==> parse_group(name, a, end_a) == parse_group(
            name,
            b,
            end_b,
        ),
{
    lemma_synonyms_read_alike(name, a, end_a, b, end_b, at);
}

/// `it` and `test` are one keyword under two names. An input that opens
/// with the one and an input that opens with the other, with the same
/// tokens behind the keyword but for where they stand, are read to the
/// same tree, or to the same kind of error with the same words in it.
pub proof fn lemma_it_is_test(
    name: Seq<char>,
    a: Seq<TokenView>,
    end_a: Span,
    b: Seq<TokenView>,
    end_b: Span,
    at: Span,
)
    requires
        a.len() > 0,
        b.len() > 0,
        a[0] is Ident,
        b[0] is Ident,
        a[0]->Ident_text == "it"@,
        b[0]->Ident_text == "test"@,
        placed_all(a.skip(1), at) == placed_all(b.skip(1), at),
    ensures
        placed_result(parse_group(name, a, end_a), at) == placed_result(
            parse_group(name, b, end_b),
            at,
        ),
        parse_group(name, a, end_a) is Ok ==> parse_group(name, a, end_a) == parse_group(
            name,
            b,
            end_b,
        ),
{
    assert(clause_kind("it"@) == Some(ClauseKind::Example) && clause_kind("test"@) == Some(
        ClauseKind::Example,
    )) by {
        reveal_strlit("describe");
        reveal_strlit("context");
        reveal_strlit("it");
        reveal_strlit("test");
        assert("describe"@.len() == 8);
        assert("context"@.len() == 7);
        assert("it"@.len() == 2);
        assert("test"@.len() == 4);
    }
    lemma_synonyms_read_alike(name, a, end_a, b, end_b, at);
}

} // verus!
