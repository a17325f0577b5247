use tokenizer::pattern::{anchored_prefix, match_prefix};
use tokenizer::token::{remove_first_and_last, remove_marker, Token, TokenKind};

#[test]
fn first_and_last_character_are_removed() {
    assert_eq!(remove_first_and_last("'abc'"), "abc");
    assert_eq!(remove_first_and_last("\"a\""), "a");
    assert_eq!(remove_first_and_last("abc"), "b");
    assert_eq!(remove_first_and_last("\u{e9}x\u{4e16}"), "x");
    assert_eq!(remove_first_and_last("`\u{e9}\u{4e16}`"), "\u{e9}\u{4e16}");
}

#[test]
fn short_texts_lose_everything() {
    assert_eq!(remove_first_and_last(""), "");
    assert_eq!(remove_first_and_last("a"), "");
    assert_eq!(remove_first_and_last("ab"), "");
}

#[test]
fn marker_is_removed() {
    assert_eq!(remove_marker("// hi"), " hi");
    assert_eq!(remove_marker("//"), "");
    assert_eq!(remove_marker("//\u{e9}"), "\u{e9}");
    assert_eq!(remove_marker("\u{e9}\u{4e16}z"), "z");
}

#[test]
fn marker_of_a_short_text() {
    assert_eq!(remove_marker(""), "");
    assert_eq!(remove_marker("/"), "");
}

#[test]
fn build_keeps_the_offset() {
    assert_eq!(Token::build(TokenKind::Let, 7, "let"), Token::Let { index: 7 });
    assert_eq!(Token::build(TokenKind::LineBreak, 3, "\r\n"), Token::LineBreak { index: 3 });
    assert_eq!(Token::build(TokenKind::OnLoop, 0, "x"), Token::OnLoop { index: 0 });
    assert_eq!(Token::build(TokenKind::LessThan, 9, "<"), Token::LessThan { index: 9 });
}

#[test]
fn build_of_whitespace_has_no_offset() {
    assert_eq!(Token::build(TokenKind::Whitespace, 7, "  "), Token::Whitespace);
}

#[test]
fn build_makes_the_payload() {
    assert_eq!(
        Token::build(TokenKind::Comment, 1, "// hi"),
        Token::Comment { index: 1, value: " hi".to_string() }
    );
    assert_eq!(
        Token::build(TokenKind::StringLiteral, 2, "'abc'"),
        Token::StringLiteral { index: 2, value: "abc".to_string() }
    );
    assert_eq!(
        Token::build(TokenKind::NumberLiteral, 3, "-1.5"),
        Token::NumberLiteral { index: 3, value: "-1.5".to_string() }
    );
    assert_eq!(
        Token::build(TokenKind::Identifier, 4, "abc"),
        Token::Identifier { index: 4, value: "abc".to_string() }
    );
}

#[test]
fn build_is_total() {
    assert_eq!(
        Token::build(TokenKind::Comment, 0, ""),
        Token::Comment { index: 0, value: String::new() }
    );
    assert_eq!(
        Token::build(TokenKind::StringLiteral, 0, "'"),
        Token::StringLiteral { index: 0, value: String::new() }
    );
    assert_eq!(
        Token::build(TokenKind::NumberLiteral, 0, "x"),
        Token::NumberLiteral { index: 0, value: "x".to_string() }
    );
}

#[test]
fn span_at_the_start_is_a_match() {
    assert_eq!(anchored_prefix("abc", Some((0, 2))), Some(2));
    assert_eq!(anchored_prefix("abc", Some((0, 3))), Some(3));
}

#[test]
fn span_further_on_is_no_match() {
    assert_eq!(anchored_prefix("abc", Some((1, 2))), None);
}

#[test]
fn empty_span_is_no_match() {
    assert_eq!(anchored_prefix("abc", Some((0, 0))), None);
    assert_eq!(anchored_prefix("", Some((0, 0))), None);
}

#[test]
fn span_beyond_the_text_is_no_match() {
    assert_eq!(anchored_prefix("abc", Some((0, 4))), None);
}

#[test]
fn span_that_splits_a_character_is_no_match() {
    assert_eq!(anchored_prefix("\u{e9}", Some((0, 1))), None);
    assert_eq!(anchored_prefix("\u{e9}", Some((0, 2))), Some(2));
}

#[test]
fn nothing_found_is_no_match() {
    assert_eq!(anchored_prefix("abc", None), None);
}

#[test]
fn pattern_matches_at_the_start() {
    assert_eq!(match_prefix("let", "letx"), Some(3));
    assert_eq!(match_prefix("[0-9]+", "123abc"), Some(3));
    assert_eq!(match_prefix(r"\r?\n", "\r\nx"), Some(2));
    assert_eq!(match_prefix(".", "\u{1f600}x"), Some(4));
}

#[test]
fn pattern_does_not_match_further_on() {
    assert_eq!(match_prefix("x", "letx"), None);
    assert_eq!(match_prefix("a|x", "letx"), None);
    assert_eq!(match_prefix("let", ""), None);
}

#[test]
fn pattern_with_a_look_ahead() {
    assert_eq!(match_prefix("let(?![a-z])", "let x"), Some(3));
    assert_eq!(match_prefix("let(?![a-z])", "letx"), None);
    assert_eq!(match_prefix(r"//(.*?)(?=\r?\n|$)", "// a\nb"), Some(4));
}

#[test]
fn pattern_with_an_empty_match_or_an_error() {
    assert_eq!(match_prefix("a*", "b"), None);
    assert_eq!(match_prefix("(", "("), None);
    assert_eq!(match_prefix("", "abc"), None);
}
