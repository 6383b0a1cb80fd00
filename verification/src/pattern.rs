//! The compiled search pattern and the calls into the `regex` crate.

use crate::error::SearchError;
use crate::error::SearchErrorView;
use crate::text::join3;
use regex::Regex;
use regex::RegexBuilder;
use vstd::prelude::*;
use vstd::string::StringSliceAdditionalSpecFns;
use vstd::utf8::is_char_boundary;

verus! {

/// `regex::Regex`, a compiled regular expression. Nothing inside it is
/// visible to the proofs; it is carried along and handed back to the crate.
#[verifier::external_type_specification]
#[verifier::external_body]
pub struct ExRegex(regex::Regex);

/// `regex::Error`, why an expression did not compile. Nothing inside it is
/// visible to the proofs, and nothing of it is kept.
#[verifier::external_type_specification]
#[verifier::external_body]
pub struct ExRegexError(regex::Error);

/// The byte offsets `(start, end)` of the leftmost match that
/// `regex::Regex::find` reports in `haystack`, for the expression `source`
/// compiled with the given case-insensitivity flag; `None` where the
/// expression matches nowhere in `haystack`.
pub uninterp spec fn regex_first_match(
    source: Seq<char>,
    case_insensitive: bool,
    haystack: Seq<char>,
) -> Option<(int, int)>;

/// The view of a [`Pattern`]: what it was compiled from, which is all that
/// its matches depend on.
pub struct PatternView {
    pub source: Seq<char>,
    pub case_insensitive: bool,
}

/// A compiled regular expression together with the text and the flag it
/// was compiled from.
///
/// The fields are private and `compile` is the only place that makes a
/// `Pattern`, so `compiled` is always what the `regex` crate built from
/// `source` with `case_insensitive`. The searches rest on this: the proofs
/// cannot see into `compiled`.
#[derive(Debug)]
pub struct Pattern {
    source: String,
    case_insensitive: bool,
    compiled: Regex,
}

impl View for Pattern {
    type V = PatternView;

    closed spec fn view(&self) -> PatternView {
        PatternView { source: self.source@, case_insensitive: self.case_insensitive }
    }
}

/// Whether `start..end` is a byte range of `bytes` whose two ends lie between
/// characters.
pub open spec fn is_span_of(bytes: Seq<u8>, start: int, end: int) -> bool {
    &&& 0 <= start <= end <= bytes.len()
    &&& is_char_boundary(bytes, start)
    &&& is_char_boundary(bytes, end)
}

impl PatternView {
    /// The first match of this pattern in `haystack`, as byte offsets.
    pub open spec fn first_match(self, haystack: Seq<char>) -> Option<(int, int)> {
        regex_first_match(self.source, self.case_insensitive, haystack)
    }

    /// Whether this pattern matches somewhere in `haystack`.
    pub open spec fn matches(self, haystack: Seq<char>) -> bool {
        self.first_match(haystack) is Some
    }
}

/// The report for an expression that does not compile.
pub open spec fn invalid_pattern(source: Seq<char>) -> Seq<char> {
    "Invalid pattern \""@ + source + "\""@
}

/// The failure for an expression that does not compile.
pub fn invalid_pattern_error(source: &str) -> (error: SearchError)
    ensures
        error@ == (SearchErrorView::Config { message: invalid_pattern(source@) }),
{
    SearchError::Config { message: join3("Invalid pattern \"", source, "\"") }
}

impl Pattern {
    /// Compiles `source`, matching without regard to case where
    /// `case_insensitive` is set. Whether an expression compiles is for the
    /// `regex` crate to say; the empty expression always does.
    pub fn new(source: &str, case_insensitive: bool) -> (made: Result<Pattern, SearchError>)
        ensures
            match made {
                Ok(pattern) => pattern@ == (PatternView { source: source@, case_insensitive }),
                Err(error) => error@ == (SearchErrorView::Config {
                    message: invalid_pattern(source@),
                }),
            },
            source@.len() == 0 ==> made is Ok,
    {
        match compile(source, case_insensitive) {
            Ok(pattern) => Ok(pattern),
            Err(_) => Err(invalid_pattern_error(source)),
        }
    }

    /// The expression as it was written.
    pub fn source(&self) -> (source: &str)
        ensures
            source@ == self@.source,
    {
        self.source.as_str()
    }

    /// Whether the pattern matches without regard to case.
    pub fn case_insensitive(&self) -> (flag: bool)
        ensures
            flag == self@.case_insensitive,
    {
        self.case_insensitive
    }

    /// Whether the pattern matches somewhere in `haystack`.
    pub fn is_match(&self, haystack: &str) -> (matched: bool)
        ensures
            matched == self@.matches(haystack@),
    {
        has_match(self, haystack)
    }
}

/// Calls `regex::RegexBuilder::new`, `case_insensitive` and `build`, and
/// keeps the compiled expression beside what it was compiled from.
///
/// Trusted: a pattern that comes back holds exactly `source` and the flag,
/// and the empty expression always compiles (the crate documents it as
/// valid). Nothing is claimed about which other expressions compile: that
/// depends on the crate's size limits as well as on its syntax.
#[verifier::external_body]
pub(crate) fn compile(source: &str, case_insensitive: bool) -> (built: Result<Pattern, regex::Error>)
    ensures
        built matches Ok(p) ==> p@ == (PatternView { source: source@, case_insensitive }),
        source@.len() == 0 ==> built is Ok,
{
    match RegexBuilder::new(source).case_insensitive(case_insensitive).build() {
        Ok(compiled) => Ok(Pattern { source: source.to_string(), case_insensitive, compiled }),
        Err(e) => Err(e),
    }
}

/// Calls `regex::Regex::find` and reads `start` and `end` off the match.
///
/// Trusted: the result is the crate's first match in `haystack` for the
/// pattern's source and flag, so it depends on nothing else; its offsets are
/// ordered, lie within the haystack's bytes, and fall on character
/// boundaries, as the crate documents of every offset it returns.
#[verifier::external_body]
pub(crate) fn find_first(pattern: &Pattern, haystack: &str) -> (found: Option<(usize, usize)>)
    ensures
        found is Some <==> regex_first_match(
            pattern@.source,
            pattern@.case_insensitive,
            haystack@,
        ) is Some,
        found matches Some((start, end)) ==> {
            &&& regex_first_match(pattern@.source, pattern@.case_insensitive, haystack@) == Some(
                (start as int, end as int),
            )
            &&& is_span_of(haystack.spec_bytes(), start as int, end as int)
        },
{
    match pattern.compiled.find(haystack) {
        Some(m) => Some((m.start(), m.end())),
        None => None,
    }
}

/// Calls `regex::Regex::is_match`.
///
/// Trusted: it answers whether `regex::Regex::find` would find a match in
/// `haystack`, which is how the crate documents it.
#[verifier::external_body]
pub(crate) fn has_match(pattern: &Pattern, haystack: &str) -> (matched: bool)
    ensures
        matched == (regex_first_match(
            pattern@.source,
            pattern@.case_insensitive,
            haystack@,
        ) is Some),
{
    pattern.compiled.is_match(haystack)
}

} // verus!
