use grepr::highlight;
use grepr::locate_first_match;
use grepr::split_line;
use grepr::Highlighted;
use grepr::MatchSpan;
use grepr::Pattern;

fn parts(prefix: &str, matched: &str, suffix: &str) -> Highlighted {
    Highlighted {
        prefix: prefix.to_string(),
        matched: matched.to_string(),
        suffix: suffix.to_string(),
    }
}

fn joined(parts: &Highlighted) -> String {
    format!("{}{}{}", parts.prefix, parts.matched, parts.suffix)
}

#[test]
fn first_match_is_located_by_byte_offsets() {
    let pattern = Pattern::new("fox", false).unwrap();
    assert_eq!(
        locate_first_match("The quick brown fox\n", &pattern),
        Some(MatchSpan { start: 16, end: 19 })
    );
}

#[test]
fn leftmost_match_is_the_one_located() {
    let pattern = Pattern::new("fox", false).unwrap();
    assert_eq!(
        locate_first_match("fox and fox\n", &pattern),
        Some(MatchSpan { start: 0, end: 3 })
    );
    let pattern = Pattern::new("o+", false).unwrap();
    assert_eq!(
        locate_first_match("a foo boooo\n", &pattern),
        Some(MatchSpan { start: 3, end: 5 })
    );
}

#[test]
fn line_without_a_match_has_no_span() {
    let pattern = Pattern::new("fox", false).unwrap();
    assert_eq!(locate_first_match("The lazy dog\n", &pattern), None);
    assert_eq!(locate_first_match("", &pattern), None);
    assert_eq!(highlight("The lazy dog\n", &pattern), None);
}

#[test]
fn case_insensitive_pattern_locates_other_spellings() {
    let pattern = Pattern::new("fox", true).unwrap();
    assert_eq!(
        locate_first_match("A FoX\n", &pattern),
        Some(MatchSpan { start: 2, end: 5 })
    );
    let pattern = Pattern::new("fox", false).unwrap();
    assert_eq!(locate_first_match("A FoX\n", &pattern), None);
}

#[test]
fn offsets_count_bytes_not_characters() {
    let pattern = Pattern::new("wörld", false).unwrap();
    let line = "héllo wörld\n";
    assert_eq!(locate_first_match(line, &pattern), Some(MatchSpan { start: 7, end: 13 }));
    assert_eq!(highlight(line, &pattern), Some(parts("héllo ", "wörld", "\n")));
}

#[test]
fn line_is_cut_around_its_match() {
    let pattern = Pattern::new("fox", false).unwrap();
    let line = "The quick brown fox jumps\n";
    let cut = highlight(line, &pattern).unwrap();
    assert_eq!(cut, parts("The quick brown ", "fox", " jumps\n"));
    assert_eq!(joined(&cut), line);
}

#[test]
fn terminator_stays_in_the_suffix() {
    let pattern = Pattern::new("fox", false).unwrap();
    assert_eq!(highlight("fox\n", &pattern), Some(parts("", "fox", "\n")));
    assert_eq!(highlight("fox\r\n", &pattern), Some(parts("", "fox", "\r\n")));
    assert_eq!(highlight("fox", &pattern), Some(parts("", "fox", "")));
    let pattern = Pattern::new("fox$", false).unwrap();
    assert_eq!(highlight("a fox", &pattern), Some(parts("a ", "fox", "")));
}

#[test]
fn parts_put_together_are_the_line_again() {
    let lines = [
        "fox\n",
        "The quick brown fox\n",
        "fox fox fox",
        "héllo fox wörld\r\n",
        "🦊 fox 🦊\n",
        "xofox",
    ];
    let pattern = Pattern::new("fox", false).unwrap();
    for line in lines {
        let span = locate_first_match(line, &pattern).unwrap();
        let cut = split_line(line, span).unwrap();
        assert_eq!(joined(&cut), line);
        assert_eq!(cut.prefix, &line[..span.start]);
        assert_eq!(cut.matched, &line[span.start..span.end]);
        assert_eq!(cut.suffix, &line[span.end..]);
        assert_eq!(cut.matched, "fox");
    }
}

#[test]
fn empty_match_cuts_an_empty_middle() {
    let pattern = Pattern::new("", false).unwrap();
    assert_eq!(locate_first_match("abc\n", &pattern), Some(MatchSpan { start: 0, end: 0 }));
    assert_eq!(highlight("abc\n", &pattern), Some(parts("", "", "abc\n")));
    let pattern = Pattern::new("$", false).unwrap();
    assert_eq!(highlight("abc", &pattern), Some(parts("abc", "", "")));
}

#[test]
fn match_is_located_in_the_whole_line() {
    // The text before the match decides whether there is one: after a word
    // character there is no word boundary in front of "oo".
    let pattern = Pattern::new(r"\Boo", false).unwrap();
    let line = "foo oo\n";
    assert_eq!(locate_first_match(line, &pattern), Some(MatchSpan { start: 1, end: 3 }));
    assert_eq!(highlight(line, &pattern), Some(parts("f", "oo", " oo\n")));
}

#[test]
fn any_fitting_span_cuts_the_line() {
    let line = "héllo\n";
    assert_eq!(split_line(line, MatchSpan { start: 0, end: 0 }), Some(parts("", "", "héllo\n")));
    assert_eq!(split_line(line, MatchSpan { start: 1, end: 3 }), Some(parts("h", "é", "llo\n")));
    assert_eq!(split_line(line, MatchSpan { start: 0, end: 7 }), Some(parts("", "héllo\n", "")));
    assert_eq!(split_line(line, MatchSpan { start: 7, end: 7 }), Some(parts("héllo\n", "", "")));
    assert_eq!(split_line("", MatchSpan { start: 0, end: 0 }), Some(parts("", "", "")));
}

#[test]
fn span_that_does_not_fit_cuts_nothing() {
    let line = "héllo\n";
    // inside the two bytes of the second character
    assert_eq!(split_line(line, MatchSpan { start: 2, end: 3 }), None);
    assert_eq!(split_line(line, MatchSpan { start: 1, end: 2 }), None);
    // past the end
    assert_eq!(split_line(line, MatchSpan { start: 0, end: 8 }), None);
    assert_eq!(split_line(line, MatchSpan { start: 8, end: 8 }), None);
    // backwards
    assert_eq!(split_line(line, MatchSpan { start: 3, end: 1 }), None);
    assert_eq!(split_line("", MatchSpan { start: 0, end: 1 }), None);
}
