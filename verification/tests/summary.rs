use cmakefmt::report::{
    ProcessedTarget, RunSummary, render_stat_summary, render_summary_failed_line,
    render_summary_line, render_human_summary,
};

#[allow(clippy::too_many_arguments)]
fn test_target(
    name: &str,
    would_change: bool,
    skipped: bool,
    skip_reason: Option<&str>,
    changed_lines: usize,
    source_lines: usize,
    formatted_lines: usize,
    elapsed: &str,
) -> ProcessedTarget {
    ProcessedTarget {
        path: None,
        display_name: name.to_owned(),
        formatted: String::new(),
        highlighted_output: None,
        unified_diff: None,
        changed_lines: vec![0; changed_lines],
        would_change,
        skipped,
        skip_reason: skip_reason.map(str::to_owned),
        debug_lines: Vec::new(),
        source_lines,
        formatted_lines,
        elapsed_ms: 0,
        elapsed_text: elapsed.to_owned(),
    }
}

#[test]
fn summary_changed_file_no_color() {
    let target = test_target(
        "src/CMakeLists.txt",
        true,
        false,
        None,
        12,
        84,
        86,
        "2ms",
    );
    let line = render_summary_line(&target, false);
    assert!(line.starts_with("[!]  src/CMakeLists.txt"));
    assert!(line.contains("12 lines changed"));
    assert!(line.contains("84 \u{2192} 86 lines"));
    assert!(line.contains("2ms"));
    assert!(line.contains('\n'));
}

#[test]
fn summary_changed_file_same_line_count_no_color() {
    let target = test_target(
        "CMakeLists.txt",
        true,
        false,
        None,
        3,
        42,
        42,
        "5ms",
    );
    let line = render_summary_line(&target, false);
    assert!(line.contains("3 lines changed"));
    assert!(line.contains("42 lines"));
    // Should not contain an arrow when line count is unchanged
    assert!(!line.contains('\u{2192}'));
}

#[test]
fn summary_unchanged_file_no_color() {
    let target = test_target(
        "tests/CMakeLists.txt",
        false,
        false,
        None,
        0,
        42,
        42,
        "1ms",
    );
    let line = render_summary_line(&target, false);
    assert!(line.starts_with("[ok] tests/CMakeLists.txt"));
    assert!(line.contains("unchanged"));
    assert!(line.contains("42 lines"));
    assert!(line.contains("1ms"));
}

#[test]
fn summary_skipped_file_no_color() {
    let target = test_target(
        "docs/CMakeLists.txt",
        false,
        true,
        Some("missing format opt-in pragma"),
        0,
        10,
        10,
        "<1ms",
    );
    let line = render_summary_line(&target, false);
    assert!(line.starts_with("[-]  docs/CMakeLists.txt"));
    assert!(line.contains("skipped (missing format opt-in pragma)"));
}

#[test]
fn summary_failed_file_no_color() {
    let line = render_summary_failed_line("lib/CMakeLists.txt", false);
    assert!(line.starts_with("[!!] lib/CMakeLists.txt"));
    assert!(line.contains("parse error"));
}

#[test]
fn summary_changed_file_with_color() {
    let target = test_target(
        "src/CMakeLists.txt",
        true,
        false,
        None,
        5,
        50,
        52,
        "3ms",
    );
    let line = render_summary_line(&target, true);
    // Bold bright yellow exclamation mark
    assert!(line.contains("\u{1b}[1;93m!\u{1b}[0m"));
    assert!(line.contains("src/CMakeLists.txt"));
    assert!(line.contains("5 lines changed"));
}

#[test]
fn summary_unchanged_file_with_color() {
    let target = test_target(
        "tests/CMakeLists.txt",
        false,
        false,
        None,
        0,
        42,
        42,
        "1ms",
    );
    let line = render_summary_line(&target, true);
    // Bold bright green checkmark
    assert!(line.contains("\u{1b}[1;92m\u{2714}\u{1b}[0m"));
    assert!(line.contains("unchanged"));
}

#[test]
fn summary_skipped_file_with_color() {
    let target = test_target(
        "docs/CMakeLists.txt",
        false,
        true,
        Some("missing pragma"),
        0,
        10,
        10,
        "<1ms",
    );
    let line = render_summary_line(&target, true);
    // Dim hyphen
    assert!(line.contains("\u{1b}[2m-\u{1b}[0m"));
    assert!(line.contains("skipped (missing pragma)"));
}

#[test]
fn summary_failed_file_with_color() {
    let line = render_summary_failed_line("lib/CMakeLists.txt", true);
    // Bold bright red ballot x
    assert!(line.contains("\u{2717}"));
    assert!(line.contains("\u{1b}[1;91m"));
    assert!(line.contains("parse error"));
}

#[test]
fn summary_line_has_tree_branch() {
    let target = test_target(
        "CMakeLists.txt",
        true,
        false,
        None,
        1,
        10,
        10,
        "1ms",
    );
    let line = render_summary_line(&target, true);
    // Should contain the tree branch connector
    assert!(line.contains("\u{2514}\u{2500}"));
}

#[test]
fn summary_failed_line_has_tree_branch() {
    let line = render_summary_failed_line("CMakeLists.txt", true);
    assert!(line.contains("\u{2514}\u{2500}"));
}

#[test]
fn summary_no_color_uses_indentation_not_branch() {
    let target = test_target(
        "CMakeLists.txt",
        false,
        false,
        None,
        0,
        10,
        10,
        "1ms",
    );
    let line = render_summary_line(&target, false);
    let lines: Vec<&str> = line.split('\n').collect();
    assert_eq!(lines.len(), 2);
    assert!(lines[1].starts_with("     "));
}

#[test]
fn summary_changed_file_exact_text() {
    let target = test_target("a.cmake", true, false, None, 2, 10, 12, "7ms");
    assert_eq!(
        render_summary_line(&target, false),
        "[!]  a.cmake\n     2 lines changed, 10 \u{2192} 12 lines, 7ms"
    );
}

#[test]
fn human_summary_lists_skipped_only_when_present() {
    let mut summary = RunSummary::default();
    summary.selected = 3;
    summary.changed = 1;
    summary.unchanged = 2;
    assert_eq!(
        render_human_summary(&summary, 0, "0.00s"),
        "summary: selected=3, changed=1, unchanged=2, failed=0"
    );
    summary.skipped = 1;
    assert_eq!(
        render_human_summary(&summary, 1250, "1.25s"),
        "summary: selected=3, changed=1, unchanged=2, skipped=1, failed=0 in 1.25s"
    );
}

#[test]
fn stat_summary_uses_singular_and_plural() {
    let mut summary = RunSummary::default();
    summary.changed = 1;
    summary.total_changed_lines = 1;
    assert_eq!(render_stat_summary(&summary), "1 file changed, 1 line reformatted");
    summary.changed = 2;
    summary.total_changed_lines = 5;
    assert_eq!(render_stat_summary(&summary), "2 files changed, 5 lines reformatted");
}
