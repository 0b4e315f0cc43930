use describe_dsl::error::{Expected, SyntaxError};
use describe_dsl::keyword::{text_eq, ClauseKind};
use describe_dsl::parser::{
    parse_benchmark, parse_block, parse_braces, parse_example, parse_ident, parse_keyword,
    parse_pipe, parse_str,
};
use describe_dsl::token::{CodeBlock, Span, Token};
use describe_dsl::tree::{Benchmark, Example};

fn at(lo: u32) -> Span {
    Span { lo, hi: lo + 1 }
}

fn sample() -> Vec<Token> {
    vec![
        Token::Ident { text: "bench".to_string(), span: at(0) },
        Token::Str { text: "speed".to_string(), span: at(6) },
        Token::Pipe { span: at(14) },
        Token::Ident { text: "b".to_string(), span: at(15) },
        Token::Pipe { span: at(16) },
        Token::Braces {
            span: at(18),
            close: at(22),
            inner: vec![Token::Other { span: at(20) }],
            block: Some(CodeBlock { id: 7, trailing_expr: false }),
        },
        Token::Braces {
            span: at(24),
            close: at(28),
            inner: vec![Token::Other { span: at(26) }],
            block: Some(CodeBlock { id: 8, trailing_expr: true }),
        },
        Token::Braces { span: at(30), close: at(31), inner: vec![], block: None },
        Token::Other { span: at(33) },
    ]
}

fn mismatch<T>(expected: Expected, lo: u32) -> Result<T, SyntaxError> {
    Err(SyntaxError::UnexpectedToken { expected, span: at(lo) })
}

#[test]
fn keywords_are_told_apart() {
    assert_eq!(ClauseKind::from_keyword("describe"), Some(ClauseKind::Group));
    assert_eq!(ClauseKind::from_keyword("context"), Some(ClauseKind::Group));
    assert_eq!(ClauseKind::from_keyword("it"), Some(ClauseKind::Example));
    assert_eq!(ClauseKind::from_keyword("test"), Some(ClauseKind::Example));
    assert_eq!(ClauseKind::from_keyword("bench"), Some(ClauseKind::Benchmark));
    assert_eq!(ClauseKind::from_keyword("before"), Some(ClauseKind::Before));
    assert_eq!(ClauseKind::from_keyword("after"), Some(ClauseKind::After));
}

#[test]
fn other_words_are_no_keywords() {
    for text in [
        "", "Describe", "describes", "DESCRIBE", "descr", "Context", "It", "tests", "benchmark",
        "befor", "before_each", "after_each", "describe ", " it", "it\n", "d\u{e9}scribe",
    ] {
        assert_eq!(ClauseKind::from_keyword(text), None, "{:?}", text);
    }
}

#[test]
fn each_kind_has_its_length() {
    assert_eq!(ClauseKind::Group.len(), 3);
    assert_eq!(ClauseKind::Example.len(), 3);
    assert_eq!(ClauseKind::Benchmark.len(), 6);
    assert_eq!(ClauseKind::Before.len(), 2);
    assert_eq!(ClauseKind::After.len(), 2);
}

#[test]
fn texts_compare_by_their_characters() {
    assert!(text_eq("", ""));
    assert!(text_eq("it", "it"));
    assert!(!text_eq("it", "id"));
    assert!(!text_eq("it", "its"));
    assert!(!text_eq("its", "it"));
    assert!(!text_eq("", "a"));
    assert!(text_eq("na\u{ef}ve \u{1f600}", "na\u{ef}ve \u{1f600}"));
    assert!(!text_eq("na\u{ef}ve", "naive"));
    assert!(!text_eq("e\u{301}", "\u{e9}"));
}

#[test]
fn token_knows_its_place() {
    let tokens = sample();
    let places: Vec<u32> = tokens.iter().map(|t| t.span().lo).collect();
    assert_eq!(places, vec![0, 6, 14, 15, 16, 18, 24, 30, 33]);
}

#[test]
fn ident_is_read_where_it_stands() {
    let tokens = sample();
    assert_eq!(parse_ident(&tokens, 0, at(40)), Ok("bench"));
    assert_eq!(parse_ident(&tokens, 3, at(40)), Ok("b"));
    assert_eq!(parse_ident(&tokens, 1, at(40)), mismatch(Expected::Ident, 6));
    assert_eq!(parse_ident(&tokens, 8, at(40)), mismatch(Expected::Ident, 33));
    assert_eq!(parse_ident(&tokens, 9, at(40)), mismatch(Expected::Ident, 40));
    assert_eq!(parse_ident(&tokens, usize::MAX, at(40)), mismatch(Expected::Ident, 40));
}

#[test]
fn string_is_read_where_it_stands() {
    let tokens = sample();
    assert_eq!(parse_str(&tokens, 1, at(40)), Ok("speed"));
    assert_eq!(parse_str(&tokens, 0, at(40)), mismatch(Expected::Str, 0));
    assert_eq!(parse_str(&tokens, 9, at(40)), mismatch(Expected::Str, 40));
    assert_eq!(parse_str(&[], 0, at(40)), mismatch(Expected::Str, 40));
}

#[test]
fn pipe_is_found_where_it_stands() {
    let tokens = sample();
    assert_eq!(parse_pipe(&tokens, 2, at(40)), Ok(()));
    assert_eq!(parse_pipe(&tokens, 4, at(40)), Ok(()));
    assert_eq!(parse_pipe(&tokens, 3, at(40)), mismatch(Expected::Pipe, 15));
    assert_eq!(parse_pipe(&tokens, 12, at(40)), mismatch(Expected::Pipe, 40));
}

#[test]
fn block_is_read_where_it_stands() {
    let tokens = sample();
    assert_eq!(parse_block(&tokens, 5, at(40)), Ok(CodeBlock { id: 7, trailing_expr: false }));
    assert_eq!(
        parse_block(&tokens, 6, at(40)),
        Err(SyntaxError::UnterminatedTrailingStatement { span: at(24) })
    );
    assert_eq!(parse_block(&tokens, 7, at(40)), mismatch(Expected::Block, 30));
    assert_eq!(parse_block(&tokens, 8, at(40)), mismatch(Expected::Block, 33));
    assert_eq!(parse_block(&tokens, 9, at(40)), mismatch(Expected::Block, 40));
}

#[test]
fn braces_hand_out_what_they_hold() {
    let tokens = sample();
    let (inner, close) = parse_braces(&tokens, 5, at(40)).unwrap();
    assert_eq!(inner, &[Token::Other { span: at(20) }][..]);
    assert_eq!(close, at(22));
    let (inner, close) = parse_braces(&tokens, 7, at(40)).unwrap();
    assert!(inner.is_empty());
    assert_eq!(close, at(31));
    assert_eq!(parse_braces(&tokens, 4, at(40)), mismatch(Expected::Braces, 16));
    assert_eq!(parse_braces(&tokens, 9, at(40)), mismatch(Expected::Braces, 40));
}

#[test]
fn keyword_is_read_at_the_head() {
    let tokens = sample();
    assert_eq!(parse_keyword(&tokens, at(40)), Ok(ClauseKind::Benchmark));
    assert_eq!(
        parse_keyword(&tokens[3..], at(40)),
        Err(SyntaxError::UnexpectedKeyword { found: "b".to_string(), span: at(15) })
    );
    assert_eq!(parse_keyword(&tokens[1..], at(40)), mismatch(Expected::Ident, 6));
    assert_eq!(parse_keyword(&[], at(40)), mismatch(Expected::Ident, 40));
}

#[test]
fn benchmark_is_read_from_its_six_tokens() {
    let tokens = sample();
    assert_eq!(
        parse_benchmark(&tokens, at(40)),
        Ok(Benchmark {
            name: "speed".to_string(),
            binding: "b".to_string(),
            body: CodeBlock { id: 7, trailing_expr: false },
        })
    );
    assert_eq!(parse_benchmark(&tokens[..5], at(40)), mismatch(Expected::Block, 40));
}

#[test]
fn example_is_read_from_its_three_tokens() {
    let tokens = vec![
        Token::Ident { text: "it".to_string(), span: at(0) },
        Token::Str { text: "works".to_string(), span: at(3) },
        Token::Braces {
            span: at(11),
            close: at(13),
            inner: vec![],
            block: Some(CodeBlock { id: 1, trailing_expr: false }),
        },
    ];
    assert_eq!(
        parse_example(&tokens, at(14)),
        Ok(Example { name: "works".to_string(), body: CodeBlock { id: 1, trailing_expr: false } })
    );
    assert_eq!(parse_example(&tokens[..2], at(14)), mismatch(Expected::Block, 14));
}
