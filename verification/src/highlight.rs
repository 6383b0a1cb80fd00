//! Locating the first match in a line and cutting the line around it.

use crate::pattern::find_first;
use crate::pattern::is_span_of;
use crate::pattern::Pattern;
use vstd::prelude::*;
use vstd::string::StringSliceAdditionalSpecFns;
use vstd::utf8::*;

verus! {

/// A byte range `start..end` of a line: where its first match lies.
#[derive(Clone, Copy, Debug, PartialEq, Eq)]
pub struct MatchSpan {
    pub start: usize,
    pub end: usize,
}

impl MatchSpan {
    /// Whether the span is a byte range of `line` that cuts no character.
    pub open spec fn fits(self, line: Seq<char>) -> bool {
        is_span_of(encode_utf8(line), self.start as int, self.end as int)
    }
}

/// A line cut in three: what stands before the match, the match, and what
/// follows it (the line terminator included).
#[derive(Clone, Debug, PartialEq, Eq)]
pub struct Highlighted {
    pub prefix: String,
    pub matched: String,
    pub suffix: String,
}

/// The view of a [`Highlighted`].
pub struct HighlightedView {
    pub prefix: Seq<char>,
    pub matched: Seq<char>,
    pub suffix: Seq<char>,
}

impl View for Highlighted {
    type V = HighlightedView;

    open spec fn view(&self) -> HighlightedView {
        HighlightedView { prefix: self.prefix@, matched: self.matched@, suffix: self.suffix@ }
    }
}

impl HighlightedView {
    /// The three parts put together again.
    pub open spec fn joined(self) -> Seq<char> {
        self.prefix + self.matched + self.suffix
    }
}

/// The three parts of `line` that the byte range `start..end` marks off,
/// each decoded from its bytes of the line.
pub open spec fn cut(line: Seq<char>, start: int, end: int) -> HighlightedView {
    let bytes = encode_utf8(line);
    HighlightedView {
        prefix: decode_utf8(bytes.subrange(0, start)),
        matched: decode_utf8(bytes.subrange(start, end)),
        suffix: decode_utf8(bytes.subrange(end, bytes.len() as int)),
    }
}

/// A character boundary of a text stays one in the tail that starts at an
/// earlier boundary.
proof fn lemma_boundary_in_tail(bytes: Seq<u8>, start: int, end: int)
    requires
        valid_utf8(bytes),
        is_span_of(bytes, start, end),
    ensures
        valid_utf8(bytes.subrange(start, bytes.len() as int)),
        is_char_boundary(bytes.subrange(start, bytes.len() as int), end - start),
{
    let tail = bytes.subrange(start, bytes.len() as int);
    valid_utf8_split(bytes, start);
    if end == bytes.len() {
        is_char_boundary_start_end_of_seq(tail);
    } else {
        is_char_boundary_iff_not_is_continuation_byte(bytes, end);
        is_char_boundary_iff_not_is_continuation_byte(tail, end - start);
    }
}

/// Cutting a line at a byte range that cuts no character loses nothing: the
/// three parts, put together in order, are the line again, and each part
/// holds exactly its bytes of the line.
pub proof fn lemma_cut_round_trip(line: Seq<char>, start: int, end: int)
    requires
        is_span_of(encode_utf8(line), start, end),
    ensures
        cut(line, start, end).joined() == line,
        encode_utf8(cut(line, start, end).prefix) == encode_utf8(line).subrange(0, start),
        encode_utf8(cut(line, start, end).matched) == encode_utf8(line).subrange(start, end),
        encode_utf8(cut(line, start, end).suffix) == encode_utf8(line).subrange(
            end,
            encode_utf8(line).len() as int,
        ),
{
    let bytes = encode_utf8(line);
    let tail = bytes.subrange(start, bytes.len() as int);
    encode_utf8_valid_utf8(line);
    encode_utf8_decode_utf8(line);
    lemma_boundary_in_tail(bytes, start, end);
    decode_utf8_split(bytes, start);
    decode_utf8_split(tail, end - start);
    valid_utf8_split(bytes, start);
    valid_utf8_split(tail, end - start);
    assert(tail.subrange(0, end - start) == bytes.subrange(start, end));
    assert(tail.subrange(end - start, tail.len() as int) == bytes.subrange(
        end,
        bytes.len() as int,
    ));
    decode_utf8_encode_utf8(bytes.subrange(0, start));
    decode_utf8_encode_utf8(bytes.subrange(start, end));
    decode_utf8_encode_utf8(bytes.subrange(end, bytes.len() as int));
}

/// The span of the first match of `pattern` in `line`, or `None` where the
/// line does not match.
pub fn locate_first_match(line: &str, pattern: &Pattern) -> (found: Option<MatchSpan>)
    ensures
        found is Some <==> pattern@.matches(line@),
        found matches Some(span) ==> {
            &&& pattern@.first_match(line@) == Some((span.start as int, span.end as int))
            &&& span.fits(line@)
        },
{
    match find_first(pattern, line) {
        Some((start, end)) => Some(MatchSpan { start, end }),
        None => None,
    }
}

/// Cuts `line` around `span`. `None` where the span is no byte range of the
/// line or would cut a character.
pub fn split_line(line: &str, span: MatchSpan) -> (parts: Option<Highlighted>)
    ensures
        parts is Some <==> span.fits(line@),
        parts matches Some(h) ==> h@ == cut(line@, span.start as int, span.end as int)
            && h@.joined() == line@,
{
    proof {
        encode_utf8_valid_utf8(line@);
    }
    let len = line.as_bytes().len();
    if span.start <= span.end && span.end <= len && line.is_char_boundary(span.start)
        && line.is_char_boundary(span.end) {
        proof {
            lemma_boundary_in_tail(line.spec_bytes(), span.start as int, span.end as int);
            lemma_cut_round_trip(line@, span.start as int, span.end as int);
        }
        let (prefix, tail) = line.split_at(span.start);
        let (matched, suffix) = tail.split_at(span.end - span.start);
        let ghost bytes = line.spec_bytes();
        proof {
            assert(tail.spec_bytes().subrange(0, span.end - span.start) == bytes.subrange(
                span.start as int,
                span.end as int,
            ));
            assert(tail.spec_bytes().subrange(
                span.end - span.start,
                tail.spec_bytes().len() as int,
            ) == bytes.subrange(span.end as int, bytes.len() as int));
            encode_utf8_decode_utf8(prefix@);
            encode_utf8_decode_utf8(matched@);
            encode_utf8_decode_utf8(suffix@);
        }
        Some(
            Highlighted {
                prefix: prefix.to_owned(),
                matched: matched.to_owned(),
                suffix: suffix.to_owned(),
            },
        )
    } else {
        None
    }
}

/// Cuts `line` around the first match of `pattern` in it; `None` where the
/// line does not match.
pub fn highlight(line: &str, pattern: &Pattern) -> (parts: Option<Highlighted>)
    ensures
        parts is Some <==> pattern@.matches(line@),
        parts matches Some(h) ==> {
            &&& pattern@.first_match(line@) matches Some((start, end))
            &&& h@ == cut(line@, start, end)
            &&& h@.joined() == line@
        },
{
    match locate_first_match(line, pattern) {
        Some(span) => split_line(line, span),
        None => None,
    }
}

} // verus!
