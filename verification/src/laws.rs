//! What holds of every scan, whatever the table and the input.

use crate::rules::Rule;
use crate::scan::{first_match, lemma_first_match, lex, lexes_fully, scanned_tokens};
use crate::scan::{joined, spans, stop, tokens_of, Span};
use crate::token::TokenView;
use vstd::prelude::*;

verus! {

/// A scan stops inside its text, and the spans it matched, joined in order,
/// are the text from its start up to the offset at which the scan stopped.
pub proof fn spans_rebuild_scanned_text(rules: Seq<Rule>, text: Seq<u8>, offset: int)
    ensures
        offset <= stop(rules, text, offset) <= offset + text.len(),
        joined(spans(rules, text, offset)) == text.take(stop(rules, text, offset) - offset),
    decreases text.len(),
{
    lemma_first_match(rules, text, 0);
    match first_match(rules, text, 0) {
        Some((rule, len)) => {
            let rest = text.skip(len as int);
            let head = Span { kind: rules[rule].kind, start: offset, bytes: text.take(len as int) };
            let later = spans(rules, rest, offset + len);
            spans_rebuild_scanned_text(rules, rest, offset + len);
            assert((seq![head] + later).drop_first() =~= later);
            let end = stop(rules, text, offset) - offset;
            assert(text.take(len as int) + rest.take(end - len) =~= text.take(end));
        },
        None => {
            assert(text.take(0) =~= Seq::<u8>::empty());
        },
    }
}

/// For an input that lexes fully, the matched spans, joined in order, are the
/// input.
pub proof fn spans_rebuild_input(rules: Seq<Rule>, input: Seq<u8>)
    requires
        lexes_fully(rules, input),
    ensures
        joined(spans(rules, input, 0)) == input,
{
    spans_rebuild_scanned_text(rules, input, 0);
    assert(input.take(input.len() as int) =~= input);
}

/// The spans of a scan are not empty and lie end to end: the first begins
/// where the scan begins, each one begins where the one before it ends, and
/// the last ends where the scan stops.
pub proof fn spans_are_contiguous(rules: Seq<Rule>, text: Seq<u8>, offset: int)
    ensures
        ({
            let found = spans(rules, text, offset);
            &&& forall|i: int| 0 <= i < found.len() ==> (#[trigger] found[i]).bytes.len() > 0
            &&& forall|i: int, j: int|
                0 <= i && j == i + 1 && j < found.len() ==> (#[trigger] found[i]).end() == (
                #[trigger] found[j]).start
            &&& found.len() > 0 ==> found.first().start == offset && found.last().end() == stop(
                rules,
                text,
                offset,
            )
            &&& found.len() == 0 ==> stop(rules, text, offset) == offset
        }),
    decreases text.len(),
{
    lemma_first_match(rules, text, 0);
    match first_match(rules, text, 0) {
        Some((rule, len)) => {
            let rest = text.skip(len as int);
            let head = Span { kind: rules[rule].kind, start: offset, bytes: text.take(len as int) };
            let later = spans(rules, rest, offset + len);
            let found = spans(rules, text, offset);
            spans_are_contiguous(rules, rest, offset + len);
            assert(found == seq![head] + later);
            assert forall|i: int| 0 <= i < found.len() implies (#[trigger] found[i]).bytes.len()
                > 0 by {
                if i > 0 {
                    assert(found[i] == later[i - 1]);
                }
            }
            assert forall|i: int, j: int| 0 <= i && j == i + 1 && j < found.len() implies (
            #[trigger] found[i]).end() == (#[trigger] found[j]).start by {
                assert(found[j] == later[j - 1]);
                if i > 0 {
                    assert(found[i] == later[i - 1]);
                }
            }
            if later.len() > 0 {
                assert(found.last() == later.last());
            }
        },
        None => {},
    }
}

/// First match wins at every step: each span of a scan lies inside the text,
/// holds the bytes of the text at its place, and is the match of the first
/// rule of the table that matches there.
pub proof fn every_span_is_a_first_match(rules: Seq<Rule>, text: Seq<u8>, offset: int)
    ensures
        forall|i: int|
            0 <= i < spans(rules, text, offset).len() ==> {
                let span = #[trigger] spans(rules, text, offset)[i];
                &&& offset <= span.start
                &&& span.end() <= offset + text.len()
                &&& span.bytes == text.subrange(span.start - offset, span.end() - offset)
                &&& first_match(rules, text.skip(span.start - offset), 0) matches Some(
                    (rule, len),
                )
                &&& rules[rule].kind == span.kind
                &&& len == span.bytes.len()
            },
    decreases text.len(),
{
    lemma_first_match(rules, text, 0);
    match first_match(rules, text, 0) {
        Some((rule, len)) => {
            let rest = text.skip(len as int);
            let head = Span { kind: rules[rule].kind, start: offset, bytes: text.take(len as int) };
            let later = spans(rules, rest, offset + len);
            let found = spans(rules, text, offset);
            every_span_is_a_first_match(rules, rest, offset + len);
            assert(found == seq![head] + later);
            assert forall|i: int| 0 <= i < found.len() implies {
                let span = #[trigger] found[i];
                &&& offset <= span.start
                &&& span.end() <= offset + text.len()
                &&& span.bytes == text.subrange(span.start - offset, span.end() - offset)
                &&& first_match(rules, text.skip(span.start - offset), 0) matches Some(
                    (rule, len),
                )
                &&& rules[rule].kind == span.kind
                &&& len == span.bytes.len()
            } by {
                let span = found[i];
                if i == 0 {
                    assert(text.skip(0) =~= text);
                    assert(span.bytes =~= text.subrange(0, len as int));
                } else {
                    assert(span == later[i - 1]);
                    let from = span.start - offset - len;
                    assert(rest.skip(from) =~= text.skip(span.start - offset));
                    assert(rest.subrange(from, from + span.bytes.len()) =~= text.subrange(
                        span.start - offset,
                        span.end() - offset,
                    ));
                }
            }
        },
        None => {},
    }
}

/// Whether the offsets of a sequence of spans go strictly upwards from `from`.
pub open spec fn spans_ascend(found: Seq<Span>, from: int) -> bool {
    &&& forall|i: int| 0 <= i < found.len() ==> from <= (#[trigger] found[i]).start
    &&& forall|i: int, j: int|
        0 <= i < j < found.len() ==> (#[trigger] found[i]).start < (#[trigger] found[j]).start
}

/// Whether a sequence of tokens holds lexemes only, none of them whitespace,
/// whose offsets go strictly upwards from `from`.
pub open spec fn lexemes_ascend(tokens: Seq<TokenView>, from: int) -> bool {
    &&& forall|i: int|
        0 <= i < tokens.len() ==> (#[trigger] tokens[i] matches TokenView::Lexeme {
            kind,
            index,
            ..
        } && !(kind is Whitespace) && from <= index)
    &&& forall|i: int, j: int|
        0 <= i < j < tokens.len() ==> (#[trigger] tokens[i])->index < (#[trigger] tokens[j])->index
}

/// The offsets of the spans of a scan go strictly upwards from the offset at
/// which the scan begins.
pub proof fn spans_are_offset_ordered(rules: Seq<Rule>, text: Seq<u8>, offset: int)
    ensures
        spans_ascend(spans(rules, text, offset), offset),
    decreases text.len(),
{
    lemma_first_match(rules, text, 0);
    match first_match(rules, text, 0) {
        Some((rule, len)) => {
            let rest = text.skip(len as int);
            let head = Span { kind: rules[rule].kind, start: offset, bytes: text.take(len as int) };
            let later = spans(rules, rest, offset + len);
            let found = spans(rules, text, offset);
            spans_are_offset_ordered(rules, rest, offset + len);
            assert(found == seq![head] + later);
            assert forall|i: int| 0 <= i < found.len() implies offset <= (
            #[trigger] found[i]).start by {
                if i > 0 {
                    assert(found[i] == later[i - 1]);
                }
            }
            assert forall|i: int, j: int| 0 <= i < j < found.len() implies (
            #[trigger] found[i]).start < (#[trigger] found[j]).start by {
                assert(found[j] == later[j - 1]);
                if i > 0 {
                    assert(found[i] == later[i - 1]);
                }
            }
        },
        None => {},
    }
}

/// Spans whose offsets go strictly upwards give tokens that are lexemes other
/// than whitespace, whose offsets go strictly upwards too.
pub proof fn tokens_keep_the_order_of_spans(found: Seq<Span>, from: int)
    requires
        spans_ascend(found, from),
    ensures
        lexemes_ascend(tokens_of(found), from),
    decreases found.len(),
{
    if found.len() > 0 {
        let head = found.first();
        let later = found.drop_first();
        assert forall|i: int| 0 <= i < later.len() implies head.start + 1 <= (
        #[trigger] later[i]).start by {
            assert(later[i] == found[i + 1]);
        }
        assert forall|i: int, j: int| 0 <= i < j < later.len() implies (#[trigger] later[i]).start
            < (#[trigger] later[j]).start by {
            assert(later[i] == found[i + 1]);
            assert(later[j] == found[j + 1]);
        }
        tokens_keep_the_order_of_spans(later, head.start + 1);
        let tokens = tokens_of(found);
        let tail = tokens_of(later);
        if !(head.kind is Whitespace) {
            assert(tokens == seq![head.token()] + tail);
            assert forall|i: int| 0 <= i < tokens.len() implies (
            #[trigger] tokens[i] matches TokenView::Lexeme { kind, index, .. } && !(kind
                is Whitespace) && from <= index) by {
                if i > 0 {
                    assert(tokens[i] == tail[i - 1]);
                }
            }
            assert forall|i: int, j: int| 0 <= i < j < tokens.len() implies (
            #[trigger] tokens[i])->index < (#[trigger] tokens[j])->index by {
                assert(tokens[j] == tail[j - 1]);
                if i > 0 {
                    assert(tokens[i] == tail[i - 1]);
                }
            }
        }
    }
}

/// The tokens of a scan are lexemes whose offsets go strictly upwards, and
/// none of them is whitespace.
pub proof fn tokens_are_offset_ordered(rules: Seq<Rule>, input: Seq<u8>)
    ensures
        lexemes_ascend(scanned_tokens(rules, input), 0),
{
    spans_are_offset_ordered(rules, input, 0);
    tokens_keep_the_order_of_spans(spans(rules, input, 0), 0);
}

/// What lexing returns never holds a whitespace token, whether the scan
/// reaches the end of the input or not.
pub proof fn output_has_no_whitespace(rules: Seq<Rule>, input: Seq<u8>)
    ensures
        match lex(rules, input) {
            Ok(tokens) => forall|i: int|
                0 <= i < tokens.len() ==> !(#[trigger] tokens[i] is Whitespace),
            Err(failure) => forall|i: int|
                0 <= i < failure.tokens.len() ==> !(#[trigger] failure.tokens[i] is Whitespace),
        },
{
    tokens_are_offset_ordered(rules, input);
}

/// What a complete scan returns holds the end marker exactly once, in the last
/// place. What a scan that stopped early leaves behind holds none.
pub proof fn end_marker_is_last_and_only(rules: Seq<Rule>, input: Seq<u8>)
    ensures
        match lex(rules, input) {
            Ok(tokens) => {
                &&& tokens.len() > 0
                &&& forall|i: int|
                    0 <= i < tokens.len() ==> (#[trigger] tokens[i] is End <==> i == tokens.len()
                        - 1)
            },
            Err(failure) => forall|i: int|
                0 <= i < failure.tokens.len() ==> !(#[trigger] failure.tokens[i] is End),
        },
{
    tokens_are_offset_ordered(rules, input);
}

/// Lexing the empty input gives the end marker and nothing else, whatever the
/// table.
pub proof fn empty_input_gives_end_marker(rules: Seq<Rule>)
    ensures
        lex(rules, Seq::empty()) matches Ok(tokens) && tokens == seq![TokenView::End],
{
    let input = Seq::<u8>::empty();
    lemma_first_match(rules, input, 0);
    assert(scanned_tokens(rules, input).push(TokenView::End) =~= seq![TokenView::End]);
}

/// Where a scan stops, no rule of the table matches what is left of the text.
pub proof fn scan_stops_where_no_rule_matches(rules: Seq<Rule>, text: Seq<u8>, offset: int)
    ensures
        ({
            let end = stop(rules, text, offset);
            &&& offset <= end <= offset + text.len()
            &&& first_match(rules, text.skip(end - offset), 0) is None
        }),
    decreases text.len(),
{
    lemma_first_match(rules, text, 0);
    match first_match(rules, text, 0) {
        Some((rule, len)) => {
            let rest = text.skip(len as int);
            scan_stops_where_no_rule_matches(rules, rest, offset + len);
            let end = stop(rules, text, offset);
            assert(rest.skip(end - offset - len) =~= text.skip(end - offset));
        },
        None => {
            assert(text.skip(0) =~= text);
        },
    }
}

/// Lexing fails exactly where the scan stops before the end of the input: the
/// offset of the failure lies inside the input, and no rule of the table
/// matches there.
pub proof fn failure_is_where_no_rule_matches(rules: Seq<Rule>, input: Seq<u8>)
    ensures
        lex(rules, input) matches Err(failure) ==> {
            &&& 0 <= failure.offset < input.len()
            &&& failure.offset == stop(rules, input, 0)
            &&& first_match(rules, input.skip(failure.offset), 0) is None
        },
{
    scan_stops_where_no_rule_matches(rules, input, 0);
}

} // verus!
