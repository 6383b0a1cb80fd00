use grepr::find_lines;
use grepr::is_selected;
use grepr::Pattern;

fn fox_file() -> Vec<String> {
    vec!["fox\n".to_string(), "no match\n".to_string(), "Fox\n".to_string()]
}

#[test]
fn case_sensitive_pattern_selects_the_exact_line() {
    let pattern = Pattern::new("fox", false).unwrap();
    assert_eq!(find_lines(&fox_file(), &pattern, false), vec!["fox\n"]);
}

#[test]
fn case_insensitive_pattern_selects_both_spellings() {
    let pattern = Pattern::new("fox", true).unwrap();
    assert_eq!(find_lines(&fox_file(), &pattern, false), vec!["fox\n", "Fox\n"]);
}

#[test]
fn inverted_search_selects_the_lines_that_do_not_match() {
    let pattern = Pattern::new("fox", false).unwrap();
    assert_eq!(find_lines(&fox_file(), &pattern, true), vec!["no match\n", "Fox\n"]);
    let pattern = Pattern::new("fox", true).unwrap();
    assert_eq!(find_lines(&fox_file(), &pattern, true), vec!["no match\n"]);
}

#[test]
fn plain_and_inverted_search_share_out_every_line() {
    let lines = vec![
        "Lorem\n".to_string(),
        "Ipsum\r\n".to_string(),
        "DOLOR".to_string(),
    ];
    let pattern = Pattern::new("or", false).unwrap();
    assert_eq!(find_lines(&lines, &pattern, false), vec!["Lorem\n"]);
    assert_eq!(find_lines(&lines, &pattern, true), vec!["Ipsum\r\n", "DOLOR"]);
    let pattern = Pattern::new("or", true).unwrap();
    assert_eq!(find_lines(&lines, &pattern, false), vec!["Lorem\n", "DOLOR"]);
    assert_eq!(find_lines(&lines, &pattern, true), vec!["Ipsum\r\n"]);
}

#[test]
fn scanning_twice_gives_the_same_lines() {
    let lines = fox_file();
    for insensitive in [false, true] {
        for invert_match in [false, true] {
            let pattern = Pattern::new("fox", insensitive).unwrap();
            let first = find_lines(&lines, &pattern, invert_match);
            let second = find_lines(&lines, &pattern, invert_match);
            assert_eq!(first, second);
        }
    }
}

#[test]
fn empty_input_selects_nothing() {
    let pattern = Pattern::new("fox", false).unwrap();
    assert!(find_lines(&vec![], &pattern, false).is_empty());
    assert!(find_lines(&vec![], &pattern, true).is_empty());
}

#[test]
fn selected_lines_keep_their_terminators() {
    let lines = vec![
        "a fox\r\n".to_string(),
        "\n".to_string(),
        "fox".to_string(),
    ];
    let pattern = Pattern::new("fox", false).unwrap();
    assert_eq!(find_lines(&lines, &pattern, false), vec!["a fox\r\n", "fox"]);
    assert_eq!(find_lines(&lines, &pattern, true), vec!["\n"]);
}

#[test]
fn repeated_lines_are_selected_each_time() {
    let lines = vec!["fox\n".to_string(), "fox\n".to_string(), "dog\n".to_string()];
    let pattern = Pattern::new("fox", false).unwrap();
    assert_eq!(find_lines(&lines, &pattern, false), vec!["fox\n", "fox\n"]);
}

#[test]
fn empty_pattern_selects_every_line() {
    let pattern = Pattern::new("", false).unwrap();
    assert_eq!(find_lines(&fox_file(), &pattern, false), fox_file());
    assert!(find_lines(&fox_file(), &pattern, true).is_empty());
}

#[test]
fn selection_is_match_xor_inversion() {
    let pattern = Pattern::new("fox", false).unwrap();
    assert!(is_selected("a fox\n", &pattern, false));
    assert!(!is_selected("a fox\n", &pattern, true));
    assert!(!is_selected("a dog\n", &pattern, false));
    assert!(is_selected("a dog\n", &pattern, true));
}

#[test]
fn pattern_is_a_regular_expression() {
    let pattern = Pattern::new("^f.x$", false).unwrap();
    assert!(pattern.is_match("fax"));
    assert!(pattern.is_match("fox"));
    assert!(!pattern.is_match("a fox"));
    assert!(!pattern.is_match("f.x "));
    assert_eq!(pattern.source(), "^f.x$");
    assert!(!pattern.case_insensitive());
}
