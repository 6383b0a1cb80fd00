//! Choosing, among the lines of one input, those that the search selects.

use crate::pattern::Pattern;
use crate::pattern::PatternView;
use crate::text::texts;
use vstd::prelude::*;

verus! {

/// Whether a line is selected: it matches and the search is not inverted, or
/// it does not match and the search is inverted.
pub open spec fn line_selected(pattern: PatternView, line: Seq<char>, invert_match: bool) -> bool {
    (pattern.matches(line) && !invert_match) || (!pattern.matches(line) && invert_match)
}

/// The selected lines among `lines`, in their order.
pub open spec fn select_lines(
    pattern: PatternView,
    lines: Seq<Seq<char>>,
    invert_match: bool,
) -> Seq<Seq<char>> {
    lines.filter(|line: Seq<char>| line_selected(pattern, line, invert_match))
}

/// Whether `line` is selected.
pub fn is_selected(line: &str, pattern: &Pattern, invert_match: bool) -> (selected: bool)
    ensures
        selected == line_selected(pattern@, line@, invert_match),
{
    pattern.is_match(line) != invert_match
}

/// The lines of one input that the search selects, in their order and as
/// they were read, line terminators included.
pub fn find_lines(lines: &[String], pattern: &Pattern, invert_match: bool) -> (matches: Vec<
    String,
>)
    ensures
        texts(matches@) == select_lines(pattern@, texts(lines@), invert_match),
{
    let mut matches: Vec<String> = Vec::new();
    let ghost all = texts(lines@);
    let ghost keep = |line: Seq<char>| line_selected(pattern@, line, invert_match);
    let mut i: usize = 0;
    while i < lines.len()
        invariant
            i <= lines.len(),
            all == texts(lines@),
            keep == (|line: Seq<char>| line_selected(pattern@, line, invert_match)),
            texts(matches@) == all.take(i as int).filter(keep),
        decreases lines.len() - i,
    {
        proof {
            reveal(Seq::filter);
            assert(all.take(i + 1).drop_last() =~= all.take(i as int));
        }
        if is_selected(lines[i].as_str(), pattern, invert_match) {
            let line = lines[i].clone();
            matches.push(line);
        }
        i += 1;
    }
    assert(all.take(lines.len() as int) =~= all);
    matches
}

/// Scanning is repeatable: two scans of the same lines with the same pattern
/// and the same inversion select the same lines in the same order.
pub proof fn lemma_scan_is_repeatable(
    pattern: PatternView,
    lines: Seq<Seq<char>>,
    invert_match: bool,
    first: Seq<Seq<char>>,
    second: Seq<Seq<char>>,
)
    requires
        first == select_lines(pattern, lines, invert_match),
        second == select_lines(pattern, lines, invert_match),
    ensures
        first == second,
{
}

} // verus!
