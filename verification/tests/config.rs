use grepr::decimal_string;
use grepr::find_lines;
use grepr::get_args;
use grepr::is_stdin;
use grepr::pattern::invalid_pattern_error;
use grepr::Args;
use grepr::Config;
use grepr::Pattern;
use grepr::SearchError;

fn args(pattern: &str, insensitive: bool) -> Args {
    Args {
        pattern: pattern.to_string(),
        files: vec!["-".to_string()],
        insensitive,
        recursive: false,
        count: false,
        invert_match: false,
    }
}

#[test]
fn settings_keep_the_argument_values() {
    let config = get_args(Args {
        pattern: "f[aeiou]x".to_string(),
        files: vec!["a.txt".to_string(), "-".to_string(), "dir".to_string()],
        insensitive: true,
        recursive: true,
        count: false,
        invert_match: true,
    })
    .unwrap();
    assert_eq!(config.pattern().source(), "f[aeiou]x");
    assert!(config.pattern().case_insensitive());
    assert_eq!(config.files(), &vec!["a.txt".to_string(), "-".to_string(), "dir".to_string()]);
    assert!(config.recursive());
    assert!(!config.count());
    assert!(config.invert_match());
}

#[test]
fn each_flag_is_kept_on_its_own() {
    for recursive in [false, true] {
        for count in [false, true] {
            for invert_match in [false, true] {
                let config = get_args(Args {
                    pattern: "x".to_string(),
                    files: vec![],
                    insensitive: false,
                    recursive,
                    count,
                    invert_match,
                })
                .unwrap();
                assert_eq!(config.recursive(), recursive);
                assert_eq!(config.count(), count);
                assert_eq!(config.invert_match(), invert_match);
                assert!(config.files().is_empty());
            }
        }
    }
}

#[test]
fn insensitive_flag_is_compiled_into_the_pattern() {
    let config = get_args(args("fox", true)).unwrap();
    assert!(config.pattern().is_match("A FOX"));
    let config = get_args(args("fox", false)).unwrap();
    assert!(!config.pattern().is_match("A FOX"));
    assert!(config.pattern().is_match("a fox"));
}

#[test]
fn invalid_pattern_is_fatal_and_quoted_in_the_report() {
    let error = get_args(args("fox(", false)).unwrap_err();
    assert_eq!(error, SearchError::Config { message: "Invalid pattern \"fox(\"".to_string() });
    assert_eq!(error.to_string(), "Invalid pattern \"fox(\"");
    assert!(error.is_fatal());
    let error = get_args(args("*", true)).unwrap_err();
    assert_eq!(error.to_string(), "Invalid pattern \"*\"");
}

#[test]
fn report_of_an_invalid_pattern_quotes_it_as_written() {
    assert_eq!(
        invalid_pattern_error("a\"b"),
        SearchError::Config { message: "Invalid pattern \"a\"b\"".to_string() }
    );
    assert_eq!(invalid_pattern_error("").to_string(), "Invalid pattern \"\"");
    assert_eq!(invalid_pattern_error("f(o").to_string(), "Invalid pattern \"f(o\"");
}

#[test]
fn pattern_that_does_not_compile_is_no_pattern() {
    let error = Pattern::new("[a-", false).unwrap_err();
    assert_eq!(error, SearchError::Config { message: "Invalid pattern \"[a-\"".to_string() });
}

#[test]
fn empty_pattern_always_compiles() {
    for insensitive in [false, true] {
        let pattern = Pattern::new("", insensitive).unwrap();
        assert_eq!(pattern.source(), "");
        assert_eq!(pattern.case_insensitive(), insensitive);
        assert!(pattern.is_match(""));
        assert!(pattern.is_match("anything\n"));
    }
}

#[test]
fn default_settings_are_empty() {
    let config = Config::default();
    assert_eq!(config.pattern().source(), "");
    assert!(!config.pattern().case_insensitive());
    assert!(config.files().is_empty());
    assert!(!config.recursive());
    assert!(!config.count());
    assert!(!config.invert_match());
}

#[test]
fn default_pattern_matches_every_line() {
    let config = Config::default();
    let lines = vec!["fox\n".to_string(), "\n".to_string(), "".to_string()];
    assert_eq!(find_lines(&lines, config.pattern(), config.invert_match()), lines);
}

#[test]
fn only_a_single_hyphen_is_standard_input() {
    assert!(is_stdin("-"));
    assert!(!is_stdin(""));
    assert!(!is_stdin("--"));
    assert!(!is_stdin("a"));
    assert!(!is_stdin("- "));
    assert!(!is_stdin("./-"));
    assert!(!is_stdin("\u{2010}"));
}

#[test]
fn counts_are_written_in_decimal() {
    assert_eq!(decimal_string(0), "0");
    assert_eq!(decimal_string(7), "7");
    assert_eq!(decimal_string(9), "9");
    assert_eq!(decimal_string(10), "10");
    assert_eq!(decimal_string(307), "307");
    assert_eq!(decimal_string(1000), "1000");
    assert_eq!(decimal_string(1234567890), "1234567890");
    assert_eq!(decimal_string(usize::MAX), usize::MAX.to_string());
}

#[test]
fn every_failure_reports_its_message() {
    let failures = vec![
        SearchError::Config { message: "Invalid pattern \"(\"".to_string() },
        SearchError::Path { path: "d".to_string(), message: "d is a directory".to_string() },
        SearchError::Open { path: "f".to_string(), message: "f: denied".to_string() },
        SearchError::Io { path: "g".to_string(), message: "broken pipe".to_string() },
    ];
    let lines: Vec<String> = failures.iter().map(|failure| failure.to_string()).collect();
    assert_eq!(lines, vec!["Invalid pattern \"(\"", "d is a directory", "f: denied", "broken pipe"]);
    let fatal: Vec<bool> = failures.iter().map(|failure| failure.is_fatal()).collect();
    assert_eq!(fatal, vec![true, false, false, false]);
    for failure in &failures {
        assert_eq!(&failure.duplicate(), failure);
    }
}
