//! What a scan is: the mathematical model that the scanner is verified
//! against.
//!
//! A text is a sequence of bytes, the UTF-8 encoding of the source. A scan
//! cuts a prefix of it into spans, one for each step, and turns the spans
//! that are not whitespace into tokens.

use crate::pattern::prefix_match;
use crate::rules::Rule;
use crate::token::{token_of, TokenKind, TokenView};
use vstd::prelude::*;
use vstd::utf8::decode_utf8;

verus! {

/// The first rule at or after position `from` of the table whose pattern
/// matches at the start of `text`, as its position in the table and the
/// length in bytes of the match.
pub open spec fn first_match(rules: Seq<Rule>, text: Seq<u8>, from: int) -> Option<(int, usize)>
    decreases rules.len() - from,
{
    if 0 <= from < rules.len() {
        match prefix_match(rules[from].pattern@, text) {
            Some(len) => Some((from, len)),
            None => first_match(rules, text, from + 1),
        }
    } else {
        None
    }
}

/// What the answer of [`first_match`] means: the rule it names matches with
/// the length it gives, no rule between `from` and that rule matches, and the
/// match is a non-empty prefix of the text. Without an answer, no rule from
/// `from` on matches.
pub proof fn lemma_first_match(rules: Seq<Rule>, text: Seq<u8>, from: int)
    requires
        0 <= from,
    ensures
        match first_match(rules, text, from) {
            Some((rule, len)) => {
                &&& from <= rule < rules.len()
                &&& prefix_match(rules[rule].pattern@, text) == Some(len)
                &&& 0 < len <= text.len()
                &&& forall|earlier: int|
                    from <= earlier < rule ==> prefix_match(
                        #[trigger] rules[earlier].pattern@,
                        text,
                    ) is None
            },
            None => forall|any: int|
                from <= any < rules.len() ==> prefix_match(#[trigger] rules[any].pattern@, text)
                    is None,
        },
    decreases rules.len() - from,
{
    if from < rules.len() {
        lemma_first_match(rules, text, from + 1);
    }
}

/// One step of a scan: the kind of the rule that won, the offset at which its
/// match begins, and the bytes of the match.
pub struct Span {
    pub kind: TokenKind,
    pub start: int,
    pub bytes: Seq<u8>,
}

impl Span {
    /// The offset just behind the span.
    pub open spec fn end(self) -> int {
        self.start + self.bytes.len()
    }

    /// The token that the rule's constructor builds for the span.
    pub open spec fn token(self) -> TokenView {
        token_of(self.kind, self.start, decode_utf8(self.bytes))
    }
}

/// The spans of a scan of `text`, which begins at offset `offset` of the
/// source: at each step the first rule that matches at the cursor takes its
/// match, and the scan goes on behind it until the text is used up or no rule
/// matches.
pub open spec fn spans(rules: Seq<Rule>, text: Seq<u8>, offset: int) -> Seq<Span>
    decreases text.len(),
    via spans_decreases
{
    match first_match(rules, text, 0) {
        Some((rule, len)) => seq![
            Span { kind: rules[rule].kind, start: offset, bytes: text.take(len as int) },
        ] + spans(rules, text.skip(len as int), offset + len),
        None => Seq::empty(),
    }
}

#[via_fn]
proof fn spans_decreases(rules: Seq<Rule>, text: Seq<u8>, offset: int) {
    lemma_first_match(rules, text, 0);
}

/// The offset at which a scan of `text` from offset `offset` stops: the end
/// of the text, or the first cursor position at which no rule matches.
pub open spec fn stop(rules: Seq<Rule>, text: Seq<u8>, offset: int) -> int
    decreases text.len(),
    via stop_decreases
{
    match first_match(rules, text, 0) {
        Some((rule, len)) => stop(rules, text.skip(len as int), offset + len),
        None => offset,
    }
}

#[via_fn]
proof fn stop_decreases(rules: Seq<Rule>, text: Seq<u8>, offset: int) {
    lemma_first_match(rules, text, 0);
}

/// The tokens of a sequence of spans: whitespace spans are dropped, every
/// other span gives its token, in order.
pub open spec fn tokens_of(spans: Seq<Span>) -> Seq<TokenView>
    decreases spans.len(),
{
    if spans.len() == 0 {
        Seq::empty()
    } else if spans.first().kind is Whitespace {
        tokens_of(spans.drop_first())
    } else {
        seq![spans.first().token()] + tokens_of(spans.drop_first())
    }
}

/// The bytes of a sequence of spans, one after the other.
pub open spec fn joined(spans: Seq<Span>) -> Seq<u8>
    decreases spans.len(),
{
    if spans.len() == 0 {
        Seq::empty()
    } else {
        spans.first().bytes + joined(spans.drop_first())
    }
}

/// Whether the scan of `input` reaches its end.
pub open spec fn lexes_fully(rules: Seq<Rule>, input: Seq<u8>) -> bool {
    stop(rules, input, 0) == input.len()
}

/// The tokens that the scan of `input` produces before it stops, without the
/// end marker.
pub open spec fn scanned_tokens(rules: Seq<Rule>, input: Seq<u8>) -> Seq<TokenView> {
    tokens_of(spans(rules, input, 0))
}

/// A scan that stopped before the end of its input: the offset at which no
/// rule matched, and the tokens produced up to there.
pub struct Failure {
    pub offset: int,
    pub tokens: Seq<TokenView>,
}

/// The result of lexing `input` with the table `rules`. Where the scan reaches
/// the end of the input, it is the tokens of the scan, closed by the end
/// marker. Where it does not, it is the failure at the offset at which the
/// scan stopped, with the tokens produced so far and no end marker.
pub open spec fn lex(rules: Seq<Rule>, input: Seq<u8>) -> Result<Seq<TokenView>, Failure> {
    if lexes_fully(rules, input) {
        Ok(scanned_tokens(rules, input).push(TokenView::End))
    } else {
        Err(Failure { offset: stop(rules, input, 0), tokens: scanned_tokens(rules, input) })
    }
}

} // verus!
