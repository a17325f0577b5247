//! Matching one pattern at the start of a text.
//!
//! The patterns are regular expressions in the syntax of the `fancy_regex`
//! crate, which also does the searching. What a search finds is not modelled
//! here: it has a name, [`regex_find`], and everything that is decided from it
//! is verified for every value it may take.

use vstd::prelude::*;
use vstd::string::*;
use vstd::utf8::*;

verus! {

broadcast use {vstd::utf8::group_utf8_lib};

/// The error type of `fancy_regex`, opaque to the verifier.
#[verifier::external_type_specification]
#[verifier::external_body]
pub struct ExRegexError(fancy_regex::Error);

/// The byte span `(start, end)` of the first match that a regular expression
/// compiled from `pattern` with `fancy_regex`'s default options finds in
/// `text`. It is `None` when nothing matches, when the pattern does not
/// compile, and when the search gives up with an error.
pub uninterp spec fn regex_find(pattern: Seq<char>, text: Seq<char>) -> Option<(usize, usize)>;

/// The span that the outcome of a search carries, if it carries one.
pub open spec fn found_span(
    found: Result<Option<(usize, usize)>, fancy_regex::Error>,
) -> Option<(usize, usize)> {
    match found {
        Ok(span) => span,
        Err(_) => None,
    }
}

/// Compiles `pattern` with `fancy_regex::Regex::new` and searches `text` with
/// `Regex::find`, handing back the offsets of the match (`Match::start`,
/// `Match::end`) or the error of whichever call failed.
///
/// Not proved: that the outcome depends on the two strings alone, which is all
/// the contract claims by giving the span the name [`regex_find`].
#[verifier::external_body]
fn find(pattern: &str, text: &str) -> (found: Result<Option<(usize, usize)>, fancy_regex::Error>)
    ensures
        found_span(found) == regex_find(pattern@, text@),
{
    let regex = fancy_regex::Regex::new(pattern)?;
    let first = regex.find(text)?;
    Ok(first.map(|m| (m.start(), m.end())))
}

/// The length of a found span that counts as a match at the start of `text`:
/// the span begins at offset 0, is not empty, and ends inside the text on a
/// character boundary. Any other outcome of a search is no match.
pub open spec fn anchored_len(text: Seq<u8>, found: Option<(usize, usize)>) -> Option<usize> {
    match found {
        Some((start, end)) => if start == 0 && 0 < end <= text.len() && is_char_boundary(
            text,
            end as int,
        ) {
            Some(end)
        } else {
            None
        },
        None => None,
    }
}

/// Decides whether the span that a search found in `text` is a match at the
/// start of `text`, and returns its length in bytes if it is.
pub fn anchored_prefix(text: &str, found: Option<(usize, usize)>) -> (len: Option<usize>)
    ensures
        len == anchored_len(text.spec_bytes(), found),
{
    match found {
        Some((start, end)) => {
            if start == 0 && 0 < end && text.is_char_boundary(end) {
                Some(end)
            } else {
                None
            }
        },
        None => None,
    }
}

/// The pattern that is searched for a rule whose pattern is `pattern`: the
/// same expression, tied to the start of the text.
pub open spec fn anchored(pattern: Seq<char>) -> Seq<char> {
    seq!['^'] + pattern
}

/// The length in bytes of the match of `pattern` at the start of `text`, if
/// there is one.
pub open spec fn prefix_match(pattern: Seq<char>, text: Seq<u8>) -> Option<usize> {
    anchored_len(text, regex_find(anchored(pattern), decode_utf8(text)))
}

/// Tries `pattern` at the start of `text`.
pub fn match_prefix(pattern: &str, text: &str) -> (len: Option<usize>)
    ensures
        len == prefix_match(pattern@, text.spec_bytes()),
{
    let mut expression = String::from_str("^");
    expression.append(pattern);
    proof {
        reveal_strlit("^");
        assert(expression@ =~= anchored(pattern@));
    }
    let found = match find(expression.as_str(), text) {
        Ok(span) => span,
        Err(_) => None,
    };
    anchored_prefix(text, found)
}

} // verus!
