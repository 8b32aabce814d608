//! Reading the argument list of an invocation.

use multiversed::args::{ArgToken, ArgumentError, MultiversedArgs};

fn text(s: &str) -> ArgToken {
    ArgToken::Str(s.to_string())
}

fn parsed(tokens: &[ArgToken]) -> Vec<String> {
    MultiversedArgs::parse(tokens).expect("well-formed").targets
}

fn failure(tokens: &[ArgToken]) -> usize {
    let error = MultiversedArgs::parse(tokens).expect_err("malformed");
    assert_eq!(error.message(), "expected string literal");
    error.position
}

const NONE: [&str; 0] = [];

#[test]
fn string_literals_are_decoded() {
    assert_eq!(ArgToken::from_literal("\"x86-64-v3\""), text("x86-64-v3"));
    assert_eq!(ArgToken::from_literal("\"aarch64+neon+dotprod\""), text("aarch64+neon+dotprod"));
    assert_eq!(ArgToken::from_literal("\"\""), text(""));
}

#[test]
fn escapes_are_resolved() {
    assert_eq!(ArgToken::from_literal(r#""a\nb""#), text("a\nb"));
    assert_eq!(ArgToken::from_literal(r#""tab\there""#), text("tab\there"));
    assert_eq!(ArgToken::from_literal(r#""quote\"inside""#), text("quote\"inside"));
    assert_eq!(ArgToken::from_literal(r#""back\\slash""#), text("back\\slash"));
    assert_eq!(ArgToken::from_literal(r#""\x41\u{e9}\u{1F600}""#), text("Aé😀"));
    assert_eq!(ArgToken::from_literal(r#""\u{00002b}""#), text("+"));
    assert_eq!(ArgToken::from_literal("\"a\\\n   b\""), text("ab"));
}

#[test]
fn raw_string_literals_are_taken_as_written() {
    assert_eq!(ArgToken::from_literal(r##"r"x86_64+avx2""##), text("x86_64+avx2"));
    assert_eq!(ArgToken::from_literal(r##"r"a\nb""##), text("a\\nb"));
    assert_eq!(ArgToken::from_literal(r###"r#"say "hi""#"###), text("say \"hi\""));
}

#[test]
fn other_literals_are_no_strings() {
    for text in ["42", "4.2", "'c'", "b\"bytes\"", "b'x'", "c\"cstr\"", "-1", "0x2b"] {
        assert_eq!(ArgToken::from_literal(text), ArgToken::Other, "{text}");
    }
}

#[test]
fn what_is_no_single_literal_is_no_string() {
    for text in [
        "", "true", "preset", "\"a\" \"b\"", "\"a\",", ",", "\"unterminated", "(\"a\")", "\"a\" +",
        "\"bad\\q\"", " \"a\"", "\"a\" ", "\"a\"\n", "/* c */\"a\"", "((((((((",
    ] {
        assert_eq!(ArgToken::from_literal(text), ArgToken::Other, "{text:?}");
    }
}

#[test]
fn a_suffix_is_no_part_of_the_string() {
    assert_eq!(ArgToken::from_literal("\"arm64\"preset"), text("arm64"));
}

#[test]
fn deeply_nested_text_is_no_literal() {
    let nested = format!("{}\"a\"{}", "(".repeat(100_000), ")".repeat(100_000));
    assert_eq!(ArgToken::from_literal(&nested), ArgToken::Other);
}

#[test]
fn decoding_is_not_the_identity() {
    // The token holds what the literal denotes, never the literal's own text.
    let literal = "\"arm64\"";
    assert_ne!(ArgToken::from_literal(literal), text(literal));
    assert_eq!(ArgToken::from_literal(literal), text("arm64"));
}

#[test]
fn the_empty_list_is_well_formed() {
    assert_eq!(parsed(&[]), NONE);
}

#[test]
fn literals_separated_by_commas() {
    assert_eq!(parsed(&[text("a")]), ["a"]);
    assert_eq!(parsed(&[text("a"), ArgToken::Comma, text("b")]), ["a", "b"]);
    assert_eq!(
        parsed(&[text("x86-64-v3"), ArgToken::Comma, text("arm64"), ArgToken::Comma, text("x86_64+avx")]),
        ["x86-64-v3", "arm64", "x86_64+avx"]
    );
}

#[test]
fn a_trailing_comma_is_allowed() {
    assert_eq!(parsed(&[text("a"), ArgToken::Comma]), ["a"]);
    assert_eq!(parsed(&[text("a"), ArgToken::Comma, text("b"), ArgToken::Comma]), ["a", "b"]);
}

#[test]
fn commas_may_be_left_out() {
    assert_eq!(parsed(&[text("a"), text("b")]), ["a", "b"]);
    assert_eq!(parsed(&[text("a"), text("b"), ArgToken::Comma, text("c")]), ["a", "b", "c"]);
}

#[test]
fn nothing_is_dropped_or_merged_while_reading() {
    assert_eq!(parsed(&[text(""), ArgToken::Comma, text("a"), text("a")]), ["", "a", "a"]);
    assert_eq!(parsed(&[text("not-a-preset"), text("riscv64+v")]), ["not-a-preset", "riscv64+v"]);
}

#[test]
fn a_leading_comma_is_an_error() {
    assert_eq!(failure(&[ArgToken::Comma]), 0);
    assert_eq!(failure(&[ArgToken::Comma, text("a")]), 0);
}

#[test]
fn a_doubled_comma_is_an_error() {
    assert_eq!(failure(&[text("a"), ArgToken::Comma, ArgToken::Comma]), 2);
    assert_eq!(failure(&[text("a"), ArgToken::Comma, ArgToken::Comma, text("b")]), 2);
}

#[test]
fn any_other_token_is_an_error_where_a_literal_is_due() {
    assert_eq!(failure(&[ArgToken::Other]), 0);
    assert_eq!(failure(&[text("a"), ArgToken::Other]), 1);
    assert_eq!(failure(&[text("a"), ArgToken::Comma, ArgToken::Other]), 2);
    assert_eq!(failure(&[text("a"), ArgToken::Comma, text("b"), ArgToken::Other, text("c")]), 3);
    assert_eq!(failure(&[text("a"), text("b"), ArgToken::Comma, text("c"), ArgToken::Comma, ArgToken::Other]), 5);
}

#[test]
fn the_first_error_is_reported() {
    assert_eq!(failure(&[ArgToken::Other, ArgToken::Other, ArgToken::Comma]), 0);
    assert_eq!(failure(&[text("a"), ArgToken::Comma, ArgToken::Comma, ArgToken::Other]), 2);
}

#[test]
fn a_non_string_literal_is_an_error() {
    let tokens = [ArgToken::from_literal("\"x86-64-v3\""), ArgToken::Comma, ArgToken::from_literal("42")];
    assert_eq!(MultiversedArgs::parse(&tokens), Err(ArgumentError { position: 2 }));
}

#[test]
fn read_from_source_literals() {
    let tokens = [
        ArgToken::from_literal("\"x86-64-v3\""),
        ArgToken::Comma,
        ArgToken::from_literal("r\"aarch64+neon+dotprod\""),
        ArgToken::Comma,
    ];
    assert_eq!(parsed(&tokens), ["x86-64-v3", "aarch64+neon+dotprod"]);
}
