use describe_dsl::error::{Expected, SyntaxError};
use describe_dsl::parser::{parse, parse_describe};
use describe_dsl::token::{CodeBlock, Span, Token};

fn at(lo: u32) -> Span {
    Span { lo, hi: lo + 1 }
}

fn ident(text: &str, lo: u32) -> Token {
    Token::Ident { text: text.to_string(), span: at(lo) }
}

fn string(text: &str, lo: u32) -> Token {
    Token::Str { text: text.to_string(), span: at(lo) }
}

fn pipe(lo: u32) -> Token {
    Token::Pipe { span: at(lo) }
}

fn other(lo: u32) -> Token {
    Token::Other { span: at(lo) }
}

fn body(id: usize, lo: u32) -> Token {
    Token::Braces {
        span: at(lo),
        close: at(lo + 2),
        inner: vec![other(lo + 1)],
        block: Some(CodeBlock { id, trailing_expr: false }),
    }
}

fn group(inner: Vec<Token>, lo: u32, close: u32) -> Token {
    Token::Braces { span: at(lo), close: at(close), inner, block: None }
}

fn mismatch(expected: Expected, lo: u32) -> Result<describe_dsl::tree::Group, SyntaxError> {
    Err(SyntaxError::UnexpectedToken { expected, span: at(lo) })
}

#[test]
fn clause_must_start_with_an_identifier() {
    assert_eq!(parse(&[string("it", 5)], at(9)), mismatch(Expected::Ident, 5));
    assert_eq!(parse(&[pipe(6)], at(9)), mismatch(Expected::Ident, 6));
    assert_eq!(parse(&[other(7)], at(9)), mismatch(Expected::Ident, 7));
    assert_eq!(parse(&[body(0, 3)], at(9)), mismatch(Expected::Ident, 3));
    let tokens = vec![ident("it", 0), string("a", 3), body(0, 7), other(11)];
    assert_eq!(parse(&tokens, at(12)), mismatch(Expected::Ident, 11));
}

#[test]
fn name_must_be_a_string_literal() {
    for keyword in ["describe", "context", "it", "test", "bench"] {
        let tokens = vec![ident(keyword, 0), ident("name", 10), body(0, 15)];
        assert_eq!(parse(&tokens, at(19)), mismatch(Expected::Str, 10));
    }
}

#[test]
fn missing_name_points_at_the_end() {
    for keyword in ["describe", "context", "it", "test", "bench"] {
        assert_eq!(parse(&[ident(keyword, 0)], at(77)), mismatch(Expected::Str, 77));
    }
}

#[test]
fn group_needs_braces() {
    let tokens = vec![ident("describe", 0), string("x", 9), ident("it", 13)];
    assert_eq!(parse(&tokens, at(16)), mismatch(Expected::Braces, 13));
    let tokens = vec![ident("context", 0), string("x", 9)];
    assert_eq!(parse(&tokens, at(16)), mismatch(Expected::Braces, 16));
}

#[test]
fn group_braces_need_not_be_statements() {
    // For the body of a group it makes no difference what the host made of the braces.
    let unread = vec![ident("describe", 0), string("x", 9), group(vec![], 13, 14)];
    let read = vec![
        ident("describe", 0),
        string("x", 9),
        Token::Braces {
            span: at(13),
            close: at(14),
            inner: vec![],
            block: Some(CodeBlock { id: 3, trailing_expr: true }),
        },
    ];
    let a = parse(&unread, at(15));
    assert!(a.is_ok());
    assert_eq!(a, parse(&read, at(15)));
}

#[test]
fn example_needs_a_block() {
    let tokens = vec![ident("it", 0), string("x", 3), string("y", 7)];
    assert_eq!(parse(&tokens, at(11)), mismatch(Expected::Block, 7));
    let tokens = vec![ident("test", 0), string("x", 5)];
    assert_eq!(parse(&tokens, at(11)), mismatch(Expected::Block, 11));
    // Braces that the host could not read as statements.
    let tokens = vec![ident("it", 0), string("x", 3), group(vec![other(8)], 7, 9)];
    assert_eq!(parse(&tokens, at(11)), mismatch(Expected::Block, 7));
}

#[test]
fn hook_needs_a_block() {
    assert_eq!(parse(&[ident("before", 0)], at(6)), mismatch(Expected::Block, 6));
    assert_eq!(parse(&[ident("after", 0), string("x", 6)], at(9)), mismatch(Expected::Block, 6));
    assert_eq!(
        parse(&[ident("before", 0), group(vec![], 7, 8)], at(9)),
        mismatch(Expected::Block, 7)
    );
}

#[test]
fn benchmark_needs_every_part() {
    let full = || {
        vec![ident("bench", 0), string("x", 6), pipe(10), ident("b", 11), pipe(12), body(0, 14)]
    };
    assert!(parse(&full(), at(18)).is_ok());

    let mut tokens = full();
    tokens[2] = other(10);
    assert_eq!(parse(&tokens, at(18)), mismatch(Expected::Pipe, 10));

    let mut tokens = full();
    tokens[3] = string("b", 11);
    assert_eq!(parse(&tokens, at(18)), mismatch(Expected::Ident, 11));

    let mut tokens = full();
    tokens[4] = ident("c", 12);
    assert_eq!(parse(&tokens, at(18)), mismatch(Expected::Pipe, 12));

    let mut tokens = full();
    tokens[5] = pipe(14);
    assert_eq!(parse(&tokens, at(18)), mismatch(Expected::Block, 14));

    let expected = [Expected::Str, Expected::Pipe, Expected::Ident, Expected::Pipe, Expected::Block];
    for keep in 1..6 {
        let mut tokens = full();
        tokens.truncate(keep);
        assert_eq!(
            parse(&tokens, at(18)),
            Err(SyntaxError::UnexpectedToken { expected: expected[keep - 1], span: at(18) })
        );
    }
}

#[test]
fn short_input_inside_a_group_points_at_its_closing_brace() {
    let inner = vec![ident("it", 20), string("a", 23)];
    let tokens = vec![ident("describe", 0), string("x", 9), group(inner, 13, 27)];
    assert_eq!(parse(&tokens, at(99)), mismatch(Expected::Block, 27));
}

#[test]
fn earlier_fault_of_a_clause_is_reported() {
    // Both the name and the body are wrong: the name comes first.
    let tokens = vec![ident("it", 0), other(3), other(5)];
    assert_eq!(parse(&tokens, at(9)), mismatch(Expected::Str, 3));
}

#[test]
fn parse_describe_names_the_group() {
    let tokens = vec![ident("before", 0), body(4, 7)];
    let got = parse_describe("suite", &tokens, at(11)).unwrap();
    assert_eq!(got.name, "suite");
    assert_eq!(got.before, vec![CodeBlock { id: 4, trailing_expr: false }]);
    assert!(got.after.is_empty());
    assert!(got.children.is_empty());
}

#[test]
fn unexpected_keyword_message_names_the_keywords() {
    let e = SyntaxError::UnexpectedKeyword { found: "Describe".to_string(), span: at(3) };
    assert_eq!(
        e.message(),
        "Expected `describe`, `context`, `before`, `after`, `it`, `test`, or `bench`, found `Describe`"
    );
    assert_eq!(e.span(), at(3));
    let e = SyntaxError::UnexpectedKeyword { found: String::new(), span: at(3) };
    assert_eq!(
        e.message(),
        "Expected `describe`, `context`, `before`, `after`, `it`, `test`, or `bench`, found ``"
    );
}

#[test]
fn unterminated_statement_message() {
    let e = SyntaxError::UnterminatedTrailingStatement { span: at(8) };
    assert_eq!(e.message(), "last expression in this block must be terminated by `;`");
    assert_eq!(e.span(), at(8));
}

#[test]
fn unexpected_token_messages() {
    let text = |expected| SyntaxError::UnexpectedToken { expected, span: at(1) }.message();
    assert_eq!(text(Expected::Ident), "expected an identifier");
    assert_eq!(text(Expected::Str), "expected a string literal");
    assert_eq!(text(Expected::Pipe), "expected `|`");
    assert_eq!(text(Expected::Braces), "expected `{`");
    assert_eq!(text(Expected::Block), "expected a block of statements");
    assert_eq!(SyntaxError::UnexpectedToken { expected: Expected::Pipe, span: at(1) }.span(), at(1));
}

#[test]
fn error_of_a_reading_carries_its_message() {
    let tokens = vec![ident("describes", 2), string("x", 13), group(vec![], 17, 18)];
    let e = parse(&tokens, at(19)).unwrap_err();
    assert_eq!(
        e.message(),
        "Expected `describe`, `context`, `before`, `after`, `it`, `test`, or `bench`, found `describes`"
    );
    assert_eq!(e.span(), at(2));
}
