use cmakefmt::cli::{
    matches_filter, unknown_commands,
    should_enable_progress_bar, streams_stdout_during_run, ConfigSourceMode, ReportFormat,
    RunOptions, EXIT_CHECK_FAILED, EXIT_ERROR, EXIT_OK,
};
use cmakefmt::config::{CaseStyle, Config};
use cmakefmt::config_file::EditorConfigOverrides;
use cmakefmt::error::Error;
use cmakefmt::report::{ProcessedTarget, RunSummary};
use cmakefmt::run::{
    check_target_count, describe_cli_overrides, describe_config_context, editorconfig_applies,
    error_display_name, explain_output, human_action, human_exit_code, prints_fix_hint,
    record_failure, record_result, report_includes_formatted, report_mode, validate_cli, CliInputs,
    watch_changes, watch_message, with_overrides, ConfigOverrides, HumanAction,
};

fn options() -> RunOptions {
    RunOptions {
        check: false,
        in_place: false,
        diff: false,
        list_changed_files: false,
        list_input_files: false,
        summary: false,
        explain: false,
        quiet: false,
        debug: false,
        stat: false,
        verify: false,
        skip_verification: false,
        require_pragma: false,
        progress_bar: true,
        has_line_ranges: false,
        report_format: ReportFormat::Human,
    }
}

fn target(would_change: bool, skipped: bool, changed_lines: usize) -> ProcessedTarget {
    ProcessedTarget {
        path: None,
        display_name: "CMakeLists.txt".to_owned(),
        formatted: String::new(),
        highlighted_output: None,
        unified_diff: None,
        changed_lines: vec![1; changed_lines],
        would_change,
        skipped,
        skip_reason: None,
        debug_lines: Vec::new(),
        source_lines: 3,
        formatted_lines: 3,
        elapsed_ms: 0,
        elapsed_text: "<1ms".to_owned(),
    }
}

#[test]
fn progress_bar_policy_disables_live_stdout_on_a_terminal() {
    for o in [
        options(),
        RunOptions { diff: true, ..options() },
        RunOptions { list_changed_files: true, ..options() },
    ] {
        assert!(streams_stdout_during_run(&o));
        assert!(!should_enable_progress_bar(&o, 2, true, true), "progress bar should be disabled for {o:?}");
    }
}

#[test]
fn progress_bar_policy_allows_non_streaming_modes_on_a_terminal() {
    for o in [
        RunOptions { check: true, ..options() },
        RunOptions { summary: true, ..options() },
        RunOptions { quiet: true, ..options() },
        RunOptions { in_place: true, ..options() },
        RunOptions { report_format: ReportFormat::Json, ..options() },
    ] {
        assert!(should_enable_progress_bar(&o, 2, true, true), "progress bar should be enabled for {o:?}");
    }
}

#[test]
fn progress_bar_policy_allows_streaming_stdout_when_stdout_is_piped() {
    let o = RunOptions { diff: true, ..options() };
    assert!(streams_stdout_during_run(&o));
    assert!(should_enable_progress_bar(&o, 2, false, true));
}

#[test]
fn progress_bar_policy_requires_stderr_terminal_and_multiple_targets() {
    let o = RunOptions { check: true, ..options() };
    assert!(!should_enable_progress_bar(&o, 1, true, true));
    assert!(!should_enable_progress_bar(&o, 2, true, false));
}

fn formatter_message(r: Result<(), Error>) -> String {
    match r {
        Err(Error::Formatter(m)) => m,
        Err(other) => panic!("unexpected error: {}", other.render()),
        Ok(()) => panic!("expected an error"),
    }
}

fn inputs(no_config: bool, has_config_paths: bool, has_stdin_path: bool, reads_stdin: bool) -> CliInputs {
    CliInputs {
        no_config,
        has_config_paths,
        has_stdin_path,
        reads_stdin,
        git_selection: false,
        explicit_inputs: false,
        man_page: false,
        keep_going: false,
        watch: false,
    }
}

#[test]
fn git_selection_watch_and_man_page_conflicts() {
    let git = CliInputs { git_selection: true, explicit_inputs: true, has_stdin_path: true, ..inputs(false, false, false, false) };
    assert_eq!(
        formatter_message(validate_cli(&options(), &git)),
        "--staged/--changed cannot be combined with explicit input paths or --files-from"
    );
    let watch = CliInputs { watch: true, reads_stdin: true, ..inputs(false, false, false, false) };
    assert_eq!(formatter_message(validate_cli(&options(), &watch)), "--watch cannot read from stdin");
    let man = CliInputs { man_page: true, keep_going: true, ..inputs(false, false, false, false) };
    assert_eq!(
        formatter_message(validate_cli(&options(), &man)),
        "completion/man-page generation cannot be combined with formatting or config-introspection inputs"
    );
    let alone = CliInputs { man_page: true, ..inputs(false, false, false, false) };
    assert!(validate_cli(&options(), &alone).is_ok());
}

#[test]
fn conflicting_options_are_refused_in_order() {
    assert!(validate_cli(&options(), &inputs(false, false, false, false)).is_ok());
    assert_eq!(
        formatter_message(validate_cli(&options(), &inputs(true, true, false, false))),
        "--no-config cannot be combined with --config-file"
    );
    let both = RunOptions { verify: true, skip_verification: true, ..options() };
    assert_eq!(
        formatter_message(validate_cli(&both, &inputs(false, false, false, false))),
        "--verify cannot be combined with --no-verify"
    );
    assert_eq!(
        formatter_message(validate_cli(&options(), &inputs(false, false, true, false))),
        "--stdin-path requires stdin input via `cmakefmt -`"
    );
    assert!(validate_cli(&options(), &inputs(false, false, true, true)).is_ok());
    let diff_list = RunOptions { diff: true, list_changed_files: true, ..options() };
    assert_eq!(
        formatter_message(validate_cli(&diff_list, &inputs(false, false, false, false))),
        "--diff cannot be combined with --list-changed-files"
    );
    let list_json = RunOptions { list_input_files: true, report_format: ReportFormat::Json, ..options() };
    assert_eq!(
        formatter_message(validate_cli(&list_json, &inputs(false, false, false, false))),
        "--list-input-files only supports human output"
    );
    let list_lines = RunOptions { list_input_files: true, has_line_ranges: true, ..options() };
    assert_eq!(
        formatter_message(validate_cli(&list_lines, &inputs(false, false, false, false))),
        "--list-input-files cannot be combined with --lines"
    );
}

#[test]
fn explain_and_lines_need_one_target() {
    let explain = RunOptions { explain: true, ..options() };
    assert_eq!(
        formatter_message(check_target_count(&explain, 2)),
        "--explain requires exactly one formatting target"
    );
    let lines = RunOptions { has_line_ranges: true, ..options() };
    assert_eq!(
        formatter_message(check_target_count(&lines, 0)),
        "--lines requires exactly one formatting target"
    );
    assert!(check_target_count(&lines, 1).is_ok());
    assert!(check_target_count(&options(), 5).is_ok());
}

#[test]
fn command_line_values_override_config_and_editorconfig() {
    let editorconfig = Some(EditorConfigOverrides {
        tab_size: Some(4),
        use_tabs: Some(true),
        line_width: Some(120),
        line_ending: None,
    });
    let none = ConfigOverrides { line_width: None, tab_size: None, command_case: None, keyword_case: None, dangle_parens: None };
    let c = with_overrides(Config::default(), &editorconfig, &none);
    assert_eq!(c.tab_size, 4);
    assert!(c.use_tabchars);
    assert_eq!(c.line_width, 80);

    let given = ConfigOverrides {
        line_width: Some(100),
        tab_size: Some(8),
        command_case: Some(CaseStyle::Upper),
        keyword_case: Some(CaseStyle::Lower),
        dangle_parens: Some(true),
    };
    let c = with_overrides(Config::default(), &editorconfig, &given);
    assert_eq!((c.line_width, c.tab_size), (100, 8));
    assert!(c.use_tabchars);
    assert_eq!(c.command_case, CaseStyle::Upper);
    assert_eq!(c.keyword_case, CaseStyle::Lower);
    assert!(c.dangle_parens);
    assert_eq!(c.max_empty_lines, Config::default().max_empty_lines);

    assert!(editorconfig_applies(ConfigSourceMode::DefaultsOnly, false));
    assert!(!editorconfig_applies(ConfigSourceMode::DefaultsOnly, true));
    assert!(!editorconfig_applies(ConfigSourceMode::Discovered, false));
}

#[test]
fn debug_descriptions() {
    assert_eq!(
        describe_config_context(ConfigSourceMode::Disabled, &vec!["x".to_owned()]),
        "config sources: disabled by --no-config"
    );
    assert_eq!(describe_config_context(ConfigSourceMode::DefaultsOnly, &Vec::new()), "config sources: defaults only");
    assert_eq!(
        describe_config_context(ConfigSourceMode::Discovered, &vec!["a/.cmake-format.toml".to_owned(), "b".to_owned()]),
        "config sources: a/.cmake-format.toml, b"
    );
    let none = ConfigOverrides { line_width: None, tab_size: None, command_case: None, keyword_case: None, dangle_parens: None };
    assert_eq!(describe_cli_overrides(&none), "cli overrides: none");
    let some = ConfigOverrides { line_width: Some(100), command_case: Some(CaseStyle::Upper), dangle_parens: Some(false), ..none };
    assert_eq!(
        describe_cli_overrides(&some),
        "cli overrides: line_width=100, command_case=Upper, dangle_parens=false"
    );
}

#[test]
fn failures_are_named_by_their_input() {
    let e = Error::Formatter("  src/CMakeLists.txt : selected line ranges".to_owned());
    assert_eq!(error_display_name(&e), "src/CMakeLists.txt");
    assert_eq!(error_display_name(&Error::Formatter("no colon here ".to_owned())), "no colon here");
    let wide = Error::LayoutTooWide { line_no: 1, width: 2, limit: 3 };
    assert_eq!(error_display_name(&wide), "<unknown>");
}

#[test]
fn human_output_follows_the_mode() {
    let changed = target(true, false, 2);
    let same = target(false, false, 0);
    let skipped = target(false, true, 0);
    assert_eq!(human_action(&options(), &changed), HumanAction::WriteResult);
    assert_eq!(human_action(&RunOptions { quiet: true, ..options() }, &changed), HumanAction::Nothing);
    assert_eq!(human_action(&RunOptions { list_changed_files: true, ..options() }, &changed), HumanAction::WriteName);
    assert_eq!(human_action(&RunOptions { list_changed_files: true, ..options() }, &same), HumanAction::Nothing);
    assert_eq!(
        human_action(&RunOptions { check: true, diff: true, ..options() }, &changed),
        HumanAction::CheckChanged { diff: true, notice: true }
    );
    assert_eq!(human_action(&RunOptions { in_place: true, ..options() }, &changed), HumanAction::Nothing);
    assert_eq!(human_action(&RunOptions { diff: true, ..options() }, &changed), HumanAction::WriteDiff);
    assert_eq!(human_action(&RunOptions { diff: true, ..options() }, &same), HumanAction::Nothing);
    assert_eq!(human_action(&options(), &skipped), HumanAction::WriteResult);
    assert_eq!(human_action(&RunOptions { check: true, ..options() }, &skipped), HumanAction::Nothing);
    assert_eq!(human_action(&RunOptions { explain: true, ..options() }, &same), HumanAction::Explain);
}

#[test]
fn explain_lists_formatter_decisions() {
    let lines = vec!["processing x".to_owned(), "formatter: set -> inline".to_owned()];
    assert_eq!(
        explain_output("x", &lines),
        vec!["Formatting decisions for x\n".to_owned(), "  set -> inline".to_owned(), String::new()]
    );
    assert_eq!(
        explain_output("y", &Vec::new()),
        vec![
            "Formatting decisions for y\n".to_owned(),
            "  (no formatting decisions \u{2014} file may be empty or fully disabled)".to_owned(),
            String::new()
        ]
    );
}

#[test]
fn run_counts_and_exit_codes() {
    let mut summary = RunSummary { selected: 4, ..RunSummary::default() };
    record_result(&mut summary, &target(true, false, 3));
    record_result(&mut summary, &target(false, false, 0));
    record_result(&mut summary, &target(false, true, 0));
    record_failure(&mut summary);
    assert_eq!(
        summary,
        RunSummary { selected: 4, changed: 1, unchanged: 1, skipped: 1, failed: 1, total_changed_lines: 3 }
    );
    let check = RunOptions { check: true, ..options() };
    assert_eq!(human_exit_code(&check, &summary, 1), EXIT_ERROR);
    assert_eq!(human_exit_code(&check, &summary, 0), EXIT_CHECK_FAILED);
    assert_eq!(human_exit_code(&options(), &summary, 0), EXIT_OK);
    assert!(prints_fix_hint(&check, &summary));
    assert!(!prints_fix_hint(&RunOptions { quiet: true, ..check }, &summary));
}

#[test]
fn report_modes() {
    assert_eq!(report_mode(&options()), "stdout");
    assert_eq!(report_mode(&RunOptions { check: true, diff: true, ..options() }), "check");
    assert_eq!(report_mode(&RunOptions { diff: true, ..options() }), "diff");
    assert!(report_includes_formatted(&options()));
    assert!(!report_includes_formatted(&RunOptions { diff: true, ..options() }));
}

#[test]
fn watch_reports_new_and_modified_files() {
    let first = vec![("a.cmake".to_owned(), Some((10, 0))), ("b.cmake".to_owned(), None)];
    assert_eq!(watch_changes(&Vec::new(), &first), vec!["a.cmake".to_owned(), "b.cmake".to_owned()]);
    let second = vec![
        ("a.cmake".to_owned(), Some((10, 0))),
        ("b.cmake".to_owned(), Some((11, 5))),
        ("c.cmake".to_owned(), Some((12, 0))),
    ];
    assert_eq!(watch_changes(&first, &second), vec!["b.cmake".to_owned(), "c.cmake".to_owned()]);
    assert!(watch_changes(&second, &second).is_empty());
    assert_eq!(watch_message("x.cmake", true, false), "[!] x.cmake");
    assert_eq!(watch_message("x.cmake", false, false), "[ok] x.cmake");
    assert_eq!(watch_message("x.cmake", true, true), "\x1b[1;93m!\x1b[0m x.cmake");
}

/// The formatting time of an input, with its seconds rendered as the program renders them.
fn format_elapsed(elapsed: std::time::Duration) -> String {
    let millis = u64::try_from(elapsed.as_millis()).unwrap_or(u64::MAX);
    cmakefmt::run::elapsed_text(millis, &format!("{:.2}", elapsed.as_secs_f64()))
}

#[test]
fn format_elapsed_sub_millisecond() {
    assert_eq!(format_elapsed(std::time::Duration::ZERO), "<1ms");
    assert_eq!(format_elapsed(std::time::Duration::from_micros(500)), "<1ms");
}

#[test]
fn format_elapsed_milliseconds() {
    assert_eq!(format_elapsed(std::time::Duration::from_millis(1)), "1ms");
    assert_eq!(format_elapsed(std::time::Duration::from_millis(42)), "42ms");
    assert_eq!(format_elapsed(std::time::Duration::from_millis(999)), "999ms");
}

#[test]
fn format_elapsed_seconds() {
    assert_eq!(format_elapsed(std::time::Duration::from_millis(1000)), "1.00s");
    assert_eq!(format_elapsed(std::time::Duration::from_millis(2500)), "2.50s");
}

#[test]
fn config_probe_target_rules() {
    assert_eq!(cmakefmt::run::config_probe_target(&vec![], None).ok().as_deref(), Some("."));
    assert_eq!(
        cmakefmt::run::config_probe_target(&vec!["src/CMakeLists.txt".to_owned()], None).ok().as_deref(),
        Some("src/CMakeLists.txt")
    );
    assert_eq!(
        cmakefmt::run::config_probe_target(&vec!["-".to_owned()], Some("a/CMakeLists.txt")).ok().as_deref(),
        Some("a/CMakeLists.txt")
    );
    assert_eq!(
        formatter_message(cmakefmt::run::config_probe_target(&vec!["-".to_owned()], None).map(|_| ())),
        "stdin config introspection requires --stdin-path"
    );
    assert_eq!(
        formatter_message(cmakefmt::run::config_probe_target(&vec!["a".to_owned(), "b".to_owned()], None).map(|_| ())),
        "config introspection expects exactly one explicit path"
    );
}

#[test]
fn file_filter_matches_by_regex() {
    assert!(matches_filter("src/CMakeLists.txt", None));
    assert!(matches_filter("src/foo.cmake", Some(r"foo\.cmake$")));
    assert!(!matches_filter("src/bar.cmake", Some(r"foo\.cmake$")));
    assert!(!matches_filter("src/foo.cmake", Some("(")));
}

#[test]
fn unknown_commands_give_lowercase_names_and_lines() {
    let source = "# \u{e9}\u{e9}\u{e9}\nset(A 1)\nMy_Thing(x)\n\nother_thing()\n";
    let file = cmakefmt::parser::parse(source).unwrap();
    let registry = cmakefmt::registry::CommandRegistry::builtins();
    let found = unknown_commands(&file, source, &registry);
    assert_eq!(found, vec![("my_thing".to_string(), 3), ("other_thing".to_string(), 5)]);
}
