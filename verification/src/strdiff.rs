//! A positional, character-by-character diff of an expected text against an
//! actual one. Nothing is aligned: one inserted character marks the rest of
//! the line as changed.

use vstd::prelude::*;
use crate::text::{char_at, chars_of};

verus! {

/// How one character of a rendered diff is to be shown.
#[derive(Clone, Copy, Debug, PartialEq, Eq, Structural)]
pub enum SpanStyle {
    /// The character agrees with the other side.
    Plain,
    /// The character differs from the other side, or has no counterpart.
    Changed,
}

/// One character of a rendered diff together with its style.
#[derive(Clone, Copy, Debug, PartialEq, Eq, Structural)]
pub struct StyledSpan {
    pub content: char,
    pub style: SpanStyle,
}

/// The character that stands in for a missing one on the actual side.
pub const PLACEHOLDER: char = ' ';

/// The larger of two lengths.
pub open spec fn longer(a: nat, b: nat) -> nat {
    if a >= b { a } else { b }
}

/// The span shown at position `i` of the expected side: the expected
/// character, plain while the actual text still has a character there and
/// changed once it has run out.
pub open spec fn expected_span(expected: Seq<char>, actual: Seq<char>, i: int) -> StyledSpan {
    StyledSpan {
        content: expected[i],
        style: if i < actual.len() { SpanStyle::Plain } else { SpanStyle::Changed },
    }
}

/// The span shown at position `i` of the actual side: the actual character,
/// plain only where the expected text has the same character at `i`; past the
/// end of the actual text, a changed placeholder.
pub open spec fn actual_span(expected: Seq<char>, actual: Seq<char>, i: int) -> StyledSpan {
    if i < actual.len() {
        StyledSpan {
            content: actual[i],
            style: if i < expected.len() && expected[i] == actual[i] {
                SpanStyle::Plain
            } else {
                SpanStyle::Changed
            },
        }
    } else {
        StyledSpan { content: PLACEHOLDER, style: SpanStyle::Changed }
    }
}

/// The expected side of the diff: one span per expected character.
pub open spec fn expected_side(expected: Seq<char>, actual: Seq<char>) -> Seq<StyledSpan> {
    Seq::new(expected.len(), |i: int| expected_span(expected, actual, i))
}

/// The actual side of the diff: one span per actual character, padded with
/// placeholders up to the length of the expected text where that is longer.
pub open spec fn actual_side(expected: Seq<char>, actual: Seq<char>) -> Seq<StyledSpan> {
    Seq::new(longer(expected.len(), actual.len()), |i: int| actual_span(expected, actual, i))
}

/// Renders the diff of the expected text against the actual one as two
/// sequences of per-character spans: the expected side and the actual side.
pub fn colored_diff(expected: &str, actual: &str) -> (sides: (Vec<StyledSpan>, Vec<StyledSpan>))
    ensures
        sides.0@ == expected_side(expected@, actual@),
        sides.1@ == actual_side(expected@, actual@),
{
    let wanted = chars_of(expected);
    let found = chars_of(actual);
    let mut left: Vec<StyledSpan> = Vec::new();
    let mut right: Vec<StyledSpan> = Vec::new();
    let mut i: usize = 0;
    while i < wanted.len()
        invariant
            i <= wanted.len(),
            wanted@ == expected@,
            found@ == actual@,
            left@.len() == i,
            forall|k: int| 0 <= k < i ==> left@[k] == expected_span(expected@, actual@, k),
        decreases wanted.len() - i,
    {
        let style = if i < found.len() { SpanStyle::Plain } else { SpanStyle::Changed };
        left.push(StyledSpan { content: char_at(&wanted, i), style });
        i += 1;
    }
    let total = if wanted.len() >= found.len() { wanted.len() } else { found.len() };
    let mut j: usize = 0;
    while j < total
        invariant
            j <= total,
            total == longer(expected@.len(), actual@.len()),
            wanted@ == expected@,
            found@ == actual@,
            right@.len() == j,
            forall|k: int| 0 <= k < j ==> right@[k] == actual_span(expected@, actual@, k),
        decreases total - j,
    {
        let span = if j < found.len() {
            let c = char_at(&found, j);
            let same = j < wanted.len() && char_at(&wanted, j) == c;
            StyledSpan {
                content: c,
                style: if same { SpanStyle::Plain } else { SpanStyle::Changed },
            }
        } else {
            StyledSpan { content: PLACEHOLDER, style: SpanStyle::Changed }
        };
        right.push(span);
        j += 1;
    }
    (left, right)
}

/// A text rendered against itself gives two sides of its own length on which
/// every span is plain and carries the text's character.
pub proof fn lemma_identical_texts_render_plain(s: Seq<char>)
    ensures
        expected_side(s, s).len() == s.len(),
        actual_side(s, s).len() == s.len(),
        forall|i: int| 0 <= i < s.len() ==> expected_side(s, s)[i] == (StyledSpan {
            content: s[i],
            style: SpanStyle::Plain,
        }),
        forall|i: int| 0 <= i < s.len() ==> actual_side(s, s)[i] == (StyledSpan {
            content: s[i],
            style: SpanStyle::Plain,
        }),
        expected_side(s, s) == actual_side(s, s),
{
}

} // verus!
