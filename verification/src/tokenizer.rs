//! The scanner.

use crate::laws::failure_is_where_no_rule_matches;
use crate::laws::{end_marker_is_last_and_only, output_has_no_whitespace};
use crate::pattern::match_prefix;
use crate::rules::{standard_rules, token_converters, Rule};
use crate::scan::{first_match, lemma_first_match, lex, scanned_tokens, spans, stop, tokens_of};
use crate::scan::{Failure, Span};
use crate::token::{views, Token, TokenView};
use vstd::prelude::*;
use vstd::string::*;

verus! {

broadcast use {vstd::utf8::group_utf8_lib};

/// Why a scan did not reach the end of its input.
#[derive(Debug, PartialEq, Eq)]
pub enum LexError {
    /// No rule matches at the byte offset `offset`. `tokens` holds what the
    /// scan had produced when it stopped there.
    NoMatchAtOffset { offset: usize, tokens: Vec<Token> },
}

impl View for LexError {
    type V = Failure;

    open spec fn view(&self) -> Failure {
        match *self {
            LexError::NoMatchAtOffset { offset, tokens } => Failure {
                offset: offset as int,
                tokens: views(tokens@),
            },
        }
    }
}

/// The view of what a scan returns.
pub open spec fn outcome(result: Result<Vec<Token>, LexError>) -> Result<Seq<TokenView>, Failure> {
    match result {
        Ok(tokens) => Ok(views(tokens@)),
        Err(error) => Err(error@),
    }
}

/// The tokens that a scan hands back, whether it reached the end of the input
/// or not.
pub open spec fn produced(result: Result<Vec<Token>, LexError>) -> Seq<Token> {
    match result {
        Ok(tokens) => tokens@,
        Err(LexError::NoMatchAtOffset { tokens, .. }) => tokens@,
    }
}

/// Whether no token that the scan hands back is the whitespace marker.
pub open spec fn free_of_whitespace(result: Result<Vec<Token>, LexError>) -> bool {
    forall|i: int|
        0 <= i < produced(result).len() ==> !(#[trigger] produced(result)[i] is Whitespace)
}

/// Whether the end marker stands where it belongs: in the last place of what
/// a complete scan hands back, and nowhere else.
pub open spec fn closed_by_end_marker(result: Result<Vec<Token>, LexError>) -> bool {
    &&& result is Ok ==> produced(result).len() > 0
    &&& forall|i: int|
        0 <= i < produced(result).len() ==> (#[trigger] produced(result)[i] is EOF <==> result is Ok
            && i == produced(result).len() - 1)
}

/// Whether the scan, if it failed, failed at an offset inside the input. The
/// empty input has no such offset, so its scan does not fail.
pub open spec fn fails_inside(result: Result<Vec<Token>, LexError>, input: Seq<u8>) -> bool {
    result matches Err(LexError::NoMatchAtOffset { offset, .. }) ==> offset < input.len()
}

/// A result that is what [`lex`] says holds no whitespace marker, holds the
/// end marker exactly where a complete scan ends, and fails inside the input
/// if at all.
pub proof fn lemma_result_shape(
    rules: Seq<Rule>,
    input: Seq<u8>,
    result: Result<Vec<Token>, LexError>,
)
    requires
        outcome(result) == lex(rules, input),
    ensures
        free_of_whitespace(result),
        closed_by_end_marker(result),
        fails_inside(result, input),
{
    output_has_no_whitespace(rules, input);
    end_marker_is_last_and_only(rules, input);
    failure_is_where_no_rule_matches(rules, input);
    let tokens = produced(result);
    assert forall|i: int| 0 <= i < tokens.len() implies !(#[trigger] tokens[i] is Whitespace) && (
    tokens[i] is EOF <==> result is Ok && i == tokens.len() - 1) by {
        assert(views(tokens)[i] == tokens[i]@);
    }
}

/// Walks the table in order and returns the first rule that matches at the
/// start of `text`, as its position in the table and the length in bytes of
/// its match.
pub fn first_rule(rules: &[Rule], text: &str) -> (hit: Option<(usize, usize)>)
    ensures
        match hit {
            Some((rule, len)) => first_match(rules@, text.spec_bytes(), 0) == Some(
                (rule as int, len),
            ),
            None => first_match(rules@, text.spec_bytes(), 0) is None,
        },
{
    let mut next: usize = 0;
    while next < rules.len()
        invariant
            next <= rules.len(),
            first_match(rules@, text.spec_bytes(), 0) == first_match(
                rules@,
                text.spec_bytes(),
                next as int,
            ),
        decreases rules.len() - next,
    {
        match match_prefix(rules[next].pattern, text) {
            Some(len) => {
                return Some((next, len));
            },
            None => {},
        }
        next += 1;
    }
    None
}

/// The lexical analyzer.
pub struct Tokenizer {}

impl Tokenizer {
    /// Lexes `input` with the table of the language.
    pub fn tokenize(input: &str) -> (result: Result<Vec<Token>, LexError>)
        ensures
            outcome(result) == lex(standard_rules(), input.spec_bytes()),
            free_of_whitespace(result),
            closed_by_end_marker(result),
            fails_inside(result, input.spec_bytes()),
    {
        let rules = token_converters();
        Tokenizer::tokenize_with(rules.as_slice(), input)
    }

    /// Lexes `input` with the table `rules`.
    pub fn tokenize_with(rules: &[Rule], input: &str) -> (result: Result<Vec<Token>, LexError>)
        ensures
            outcome(result) == lex(rules@, input.spec_bytes()),
            free_of_whitespace(result),
            closed_by_end_marker(result),
            fails_inside(result, input.spec_bytes()),
    {
        let total = input.as_bytes().len();
        let ghost source = input.spec_bytes();
        let mut cursor: usize = 0;
        let mut rest: &str = input;
        let mut tokens: Vec<Token> = Vec::new();
        proof {
            assert(source.skip(0) =~= source);
            assert(views(tokens@) =~= Seq::empty());
        }
        while cursor < total
            invariant
                source == input.spec_bytes(),
                cursor <= total == source.len(),
                rest.spec_bytes() == source.skip(cursor as int),
                scanned_tokens(rules@, source) == views(tokens@) + tokens_of(
                    spans(rules@, rest.spec_bytes(), cursor as int),
                ),
                stop(rules@, source, 0) == stop(rules@, rest.spec_bytes(), cursor as int),
            decreases total - cursor,
        {
            let ghost text = rest.spec_bytes();
            proof {
                lemma_first_match(rules@, text, 0);
            }
            match first_rule(rules, rest) {
                Some((rule, len)) => {
                    let (matched, remaining) = rest.split_at(len);
                    let token = Token::build(rules[rule].kind, cursor as i128, matched);
                    proof {
                        let span = Span {
                            kind: rules[rule as int].kind,
                            start: cursor as int,
                            bytes: text.take(len as int),
                        };
                        let later = spans(rules@, text.skip(len as int), cursor + len);
                        assert(spans(rules@, text, cursor as int) == seq![span] + later);
                        assert((seq![span] + later).drop_first() =~= later);
                        assert(matched.spec_bytes() =~= span.bytes);
                        assert(token@ == span.token());
                        assert(remaining.spec_bytes() =~= source.skip(cursor + len));
                    }
                    let ghost before = tokens@;
                    if !matches!(token, Token::Whitespace) {
                        tokens.push(token);
                        proof {
                            assert(views(tokens@) =~= views(before).push(token@));
                        }
                    }
                    cursor = cursor + len;
                    rest = remaining;
                },
                None => {
                    let failed = Err(LexError::NoMatchAtOffset { offset: cursor, tokens });
                    proof {
                        lemma_result_shape(rules@, source, failed);
                    }
                    return failed;
                },
            }
        }
        proof {
            lemma_first_match(rules@, rest.spec_bytes(), 0);
        }
        let ghost before = tokens@;
        tokens.push(Token::EOF);
        let complete = Ok(tokens);
        proof {
            assert(views(produced(complete)) =~= views(before).push(TokenView::End));
            lemma_result_shape(rules@, source, complete);
        }
        complete
    }
}

} // verus!
