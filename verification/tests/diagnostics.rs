use cmakefmt::diagnostics::{
    best_match, classify_parse_failure, extract_between, extract_invalid_regex_pattern,
    extract_unknown_field_hint, find_unmatched_open_paren, levenshtein, render_formatter_error,
    render_source_snippet, renamed_config_key,
};
use cmakefmt::diff::{
    apply_line_ranges, changed_formatted_line_numbers, diff_middle_mask, split_lines_with_endings,
};
use cmakefmt::error::Error;
use cmakefmt::report::{
    has_enable_pragma, parse_line_range, xml_escape, github_escape_property, LineRange,
};

fn lines(s: &str) -> Vec<String> {
    split_lines_with_endings(s)
}

#[test]
fn snippet_marks_focus_line_and_column() {
    assert_eq!(
        render_source_snippet("a\nb\nc\n", 1, 2, 1),
        "  1 | a\n> 2 | b\n    | ^\n  3 | c"
    );
}

#[test]
fn unmatched_paren_is_found() {
    let (line, col, context) = find_unmatched_open_paren("set(a\n  b\n", 1).unwrap();
    assert_eq!((line, col), (1, 4));
    assert_eq!(context, "set(a");
    assert!(find_unmatched_open_paren("set(a) # (\n\"(\"\n", 1).is_none());
}

#[test]
fn classify_recognises_parentheses() {
    let (summary, hints) = classify_parse_failure("x.cmake", "if(", "expected argument part");
    assert_eq!(summary, "failed to parse a command invocation");
    assert_eq!(hints.len(), 2);
}

#[test]
fn edit_distance_and_best_match() {
    assert_eq!(levenshtein("kitten", "sitting"), 3);
    assert_eq!(levenshtein("", "abc"), 3);
    let candidates = vec!["line_width".to_owned(), "tab_size".to_owned()];
    assert_eq!(best_match("line_widht", &candidates), Some("line_width"));
    assert_eq!(best_match("completely_different_key", &candidates), None);
}

#[test]
fn unknown_field_hint_is_extracted() {
    let (field, expected) = extract_unknown_field_hint(
        "unknown field `line_widht`, expected one of `line_width`, `tab_size`",
    )
    .unwrap();
    assert_eq!(field, "line_widht");
    assert_eq!(expected, vec!["line_width".to_owned(), "tab_size".to_owned()]);
    assert_eq!(extract_between("a[b]c", "[", "]"), Some("b".to_owned()));
    assert!(extract_unknown_field_hint("missing field").is_none());
}

#[test]
fn renamed_keys_map_to_new_names() {
    assert_eq!(renamed_config_key("use_tabchars"), Some("use_tabs"));
    assert_eq!(renamed_config_key("line_width"), None);
}

#[test]
fn formatter_error_hints() {
    assert_eq!(
        extract_invalid_regex_pattern("invalid file regex \"a(\": unclosed group"),
        Some("\"a(\"".to_owned())
    );
    let rendered = render_formatter_error("invalid file regex \"a(\": unclosed group");
    assert!(rendered.starts_with("error: invalid file regex"));
    assert!(rendered.contains("hint: check the --path-regex pattern"));
    assert_eq!(render_formatter_error("boom  "), "error: boom");
}

#[test]
fn changed_lines_and_ranges() {
    let changed = changed_formatted_line_numbers(&lines("a\nb\nc\n"), &lines("a\nB\nc\n"));
    assert_eq!(changed, vec![2]);
    let ranges = vec![LineRange { start: 1, end: 1 }];
    match apply_line_ranges("a\nb\nc\n", "a\nB\nc\n", &ranges, "f") {
        Err(Error::Formatter(m)) => assert_eq!(
            m,
            "f: selected line ranges would affect lines outside the requested ranges (2)"
        ),
        _ => panic!("expected an error"),
    }
    let ok = apply_line_ranges("a\nb\n", "a\nB\n", &vec![LineRange { start: 2, end: 2 }], "f");
    assert_eq!(ok.unwrap(), "a\nB\n");
}

#[test]
fn line_ranges_parse() {
    let r = parse_line_range("3:5").unwrap();
    assert_eq!((r.start, r.end), (3, 5));
    assert_eq!(parse_line_range("5:3").unwrap_err(), "line range end must be >= start");
    assert_eq!(parse_line_range("0:1").unwrap_err(), "line ranges are 1-based");
    assert_eq!(parse_line_range("x").unwrap_err(), "expected START:END");
    assert_eq!(
        parse_line_range("a:2").unwrap_err(),
        "line range start must be a positive integer"
    );
    assert!(r.contains(4));
    assert!(!r.contains(6));
}

#[test]
fn escapes() {
    assert_eq!(xml_escape("a<b>&\"'"), "a&lt;b&gt;&amp;&quot;&apos;");
    assert_eq!(github_escape_property("50%\r\n"), "50%25%0D%0A");
}

#[test]
fn pragma_detection() {
    assert!(has_enable_pragma("# cmakefmt: enable\nset(a)\n"));
    assert!(has_enable_pragma("  # fmt: enable"));
    assert!(!has_enable_pragma("set(a)\n"));
}

#[test]
fn identical_texts_report_no_changed_lines() {
    let lines = split_lines_with_endings("set(a b)\nproject(x)\n\nmessage(y)");
    assert!(changed_formatted_line_numbers(&lines, &lines).is_empty());
}

#[test]
fn line_diff_keeps_a_longest_common_subsequence() {
    let o: Vec<String> = ["a", "b", "c", "d"].iter().map(|s| s.to_string()).collect();
    let f: Vec<String> = ["b", "x", "d"].iter().map(|s| s.to_string()).collect();
    assert_eq!(diff_middle_mask(&o, &f), vec![false, true, false]);
}
