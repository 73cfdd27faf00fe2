//! The decisions a run makes around each input: which options conflict, how
//! the command-line values override the configuration, what the debug lines
//! say, what the human output of a result is, how the run counts its
//! results, and the exit code of a human run.

use vstd::prelude::*;
use crate::cli::{ConfigSourceMode, ReportFormat, RunOptions, EXIT_CHECK_FAILED, EXIT_ERROR, EXIT_OK, stdout_mode};
use crate::config::{CaseStyle, Config};
use crate::config_file::EditorConfigOverrides;
use crate::error::Error;
use crate::report::{ProcessedTarget, RunSummary};
use crate::text::{
    chars_of, decimal, first_index, join, join_strings, lemma_first_index_is, owned, push_str,
    starts_with, starts_with_str, string_of, strs, trim, trim_str, usize_to_string,
};

verus! {

broadcast use vstd::string::group_string_axioms;

// ── Option conflicts ────────────────────────────────────────────────────────

/// What the command line selects besides the run options.
#[derive(Debug, Clone, Copy, PartialEq, Eq)]
pub struct CliInputs {
    /// `--no-config` was given.
    pub no_config: bool,
    /// Explicit config files were given.
    pub has_config_paths: bool,
    /// `--stdin-path` was given.
    pub has_stdin_path: bool,
    /// One of the inputs is `-` (standard input).
    pub reads_stdin: bool,
    /// `--staged` or `--changed` was given.
    pub git_selection: bool,
    /// Explicit input paths or `--files-from` were given.
    pub explicit_inputs: bool,
    /// The man page is to be generated.
    pub man_page: bool,
    /// `--keep-going` was given.
    pub keep_going: bool,
    /// `--watch` was given.
    pub watch: bool,
}

/// Whether man-page generation is combined with anything that formats or
/// selects inputs.
pub open spec fn man_page_conflict(o: RunOptions, i: CliInputs) -> bool {
    i.man_page && (i.explicit_inputs || i.has_config_paths || i.no_config || o.debug || o.quiet
        || i.keep_going || o.diff || o.check || o.in_place || o.list_changed_files || o.list_input_files
        || i.git_selection || i.has_stdin_path || o.has_line_ranges)
}

/// The first conflict among the options of a run, if any.
pub open spec fn cli_problem(o: RunOptions, i: CliInputs) -> Option<Seq<char>> {
    if i.no_config && i.has_config_paths {
        Some("--no-config cannot be combined with --config-file"@)
    } else if o.verify && o.skip_verification {
        Some("--verify cannot be combined with --no-verify"@)
    } else if i.git_selection && i.explicit_inputs {
        Some("--staged/--changed cannot be combined with explicit input paths or --files-from"@)
    } else if i.has_stdin_path && !i.reads_stdin {
        Some("--stdin-path requires stdin input via `cmakefmt -`"@)
    } else if man_page_conflict(o, i) {
        Some("completion/man-page generation cannot be combined with formatting or config-introspection inputs"@)
    } else if o.diff && o.list_changed_files {
        Some("--diff cannot be combined with --list-changed-files"@)
    } else if o.list_input_files && o.report_format != ReportFormat::Human {
        Some("--list-input-files only supports human output"@)
    } else if o.list_input_files && o.has_line_ranges {
        Some("--list-input-files cannot be combined with --lines"@)
    } else if i.watch && i.reads_stdin {
        Some("--watch cannot read from stdin"@)
    } else {
        None
    }
}

/// Refuse conflicting options, the first conflict found: `--no-config` with
/// config files, `--verify` with `--no-verify`, `--staged/--changed` with
/// explicit inputs, a stdin path without stdin input, man-page generation
/// with formatting inputs, `--diff` with `--list-changed-files`,
/// `--list-input-files` with a machine report or with line ranges, and
/// `--watch` with stdin.
pub fn validate_cli(o: &RunOptions, i: &CliInputs) -> (r: Result<(), Error>)
    ensures
        match cli_problem(*o, *i) {
            Some(m) => r matches Err(Error::Formatter(t)) && t@ == m,
            None => r is Ok,
        },
{
    if i.no_config && i.has_config_paths {
        return Err(Error::Formatter(owned("--no-config cannot be combined with --config-file")));
    }
    if o.verify && o.skip_verification {
        return Err(Error::Formatter(owned("--verify cannot be combined with --no-verify")));
    }
    if i.git_selection && i.explicit_inputs {
        return Err(Error::Formatter(owned("--staged/--changed cannot be combined with explicit input paths or --files-from")));
    }
    if i.has_stdin_path && !i.reads_stdin {
        return Err(Error::Formatter(owned("--stdin-path requires stdin input via `cmakefmt -`")));
    }
    if i.man_page && (i.explicit_inputs || i.has_config_paths || i.no_config || o.debug || o.quiet
        || i.keep_going || o.diff || o.check || o.in_place || o.list_changed_files || o.list_input_files
        || i.git_selection || i.has_stdin_path || o.has_line_ranges)
    {
        return Err(Error::Formatter(owned("completion/man-page generation cannot be combined with formatting or config-introspection inputs")));
    }
    if o.diff && o.list_changed_files {
        return Err(Error::Formatter(owned("--diff cannot be combined with --list-changed-files")));
    }
    if o.list_input_files && o.report_format != ReportFormat::Human {
        return Err(Error::Formatter(owned("--list-input-files only supports human output")));
    }
    if o.list_input_files && o.has_line_ranges {
        return Err(Error::Formatter(owned("--list-input-files cannot be combined with --lines")));
    }
    if i.watch && i.reads_stdin {
        return Err(Error::Formatter(owned("--watch cannot read from stdin")));
    }
    Ok(())
}

// ── Config introspection target ─────────────────────────────────────────────

/// The path config introspection looks at: `.` without inputs; the one
/// explicit input, or for `-` the `--stdin-path`; an error for more than one
/// input, or for `-` without a stdin path.
pub open spec fn probe_target(files: Seq<Seq<char>>, stdin_path: Option<Seq<char>>) -> Result<Seq<char>, Seq<char>> {
    if files.len() == 0 {
        Ok("."@)
    } else if files.len() != 1 {
        Err("config introspection expects exactly one explicit path"@)
    } else if files[0] == "-"@ {
        match stdin_path {
            Some(p) => Ok(p),
            None => Err("stdin config introspection requires --stdin-path"@),
        }
    } else {
        Ok(files[0])
    }
}

/// The path config introspection looks at, as [`probe_target`] says.
pub fn config_probe_target(files: &Vec<String>, stdin_path: Option<&str>) -> (r: Result<String, Error>)
    ensures
        match probe_target(strs(files@), crate::spec::opt_text(stdin_path)) {
            Ok(p) => r matches Ok(t) && t@ == p,
            Err(m) => r matches Err(Error::Formatter(t)) && t@ == m,
        },
{
    if files.len() == 0 {
        return Ok(owned("."));
    }
    if files.len() != 1 {
        return Err(Error::Formatter(owned("config introspection expects exactly one explicit path")));
    }
    assert(strs(files@)[0] == files@[0]@);
    if crate::text::str_eq(files[0].as_str(), "-") {
        return match stdin_path {
            Some(p) => Ok(owned(p)),
            None => Err(Error::Formatter(owned("stdin config introspection requires --stdin-path"))),
        };
    }
    Ok(owned(files[0].as_str()))
}

// ── Elapsed time ────────────────────────────────────────────────────────────

/// The formatting time of an input as people read it: `<1ms` under a
/// millisecond, whole milliseconds under a second, else the seconds with
/// two decimals.
pub open spec fn elapsed_spec(millis: u64, seconds: Seq<char>) -> Seq<char> {
    if millis == 0 {
        "<1ms"@
    } else if millis < 1000 {
        decimal(millis as nat) + "ms"@
    } else {
        seconds + "s"@
    }
}

/// The formatting time of an input from its whole milliseconds and its
/// seconds written with two decimals.
pub fn elapsed_text(millis: u64, seconds: &str) -> (r: String)
    ensures
        r@ == elapsed_spec(millis, seconds@),
{
    if millis == 0 {
        owned("<1ms")
    } else if millis < 1000 {
        let mut s = usize_to_string(millis as usize);
        push_str(&mut s, "ms");
        s
    } else {
        let mut s = owned(seconds);
        push_str(&mut s, "s");
        s
    }
}

/// `--explain` and `--lines` each need exactly one formatting target.
pub fn check_target_count(o: &RunOptions, targets: usize) -> (r: Result<(), Error>)
    ensures
        o.explain && targets != 1 ==> (r matches Err(Error::Formatter(t)) && t@
            == "--explain requires exactly one formatting target"@),
        !(o.explain && targets != 1) && o.has_line_ranges && targets != 1 ==> (r matches Err(
            Error::Formatter(t),
        ) && t@ == "--lines requires exactly one formatting target"@),
        !(o.explain && targets != 1) && !(o.has_line_ranges && targets != 1) ==> r is Ok,
{
    if o.explain && targets != 1 {
        return Err(Error::Formatter(owned("--explain requires exactly one formatting target")));
    }
    if o.has_line_ranges && targets != 1 {
        return Err(Error::Formatter(owned("--lines requires exactly one formatting target")));
    }
    Ok(())
}

// ── Configuration overrides ─────────────────────────────────────────────────

/// The configuration values given on the command line.
#[derive(Debug, Clone, Copy, PartialEq, Eq)]
pub struct ConfigOverrides {
    pub line_width: Option<usize>,
    pub tab_size: Option<usize>,
    pub command_case: Option<CaseStyle>,
    pub keyword_case: Option<CaseStyle>,
    pub dangle_parens: Option<bool>,
}

/// The value in `o`, else `d`.
pub open spec fn or_else<T>(o: Option<T>, d: T) -> T {
    match o {
        Some(v) => v,
        None => d,
    }
}

/// Whether the `.editorconfig` fallback applies: no config file was found
/// for the input and the fallback is not switched off.
pub fn editorconfig_applies(mode: ConfigSourceMode, no_editorconfig: bool) -> (r: bool)
    ensures
        r == (mode == ConfigSourceMode::DefaultsOnly && !no_editorconfig),
{
    mode == ConfigSourceMode::DefaultsOnly && !no_editorconfig
}

/// A configuration after the `.editorconfig` fallback (indentation style and
/// size only) and then the command-line values.
pub open spec fn overridden_config(c: Config, ec: Option<EditorConfigOverrides>, o: ConfigOverrides) -> Config {
    let use_tabs = match ec {
        Some(e) => or_else(e.use_tabs, c.use_tabchars),
        None => c.use_tabchars,
    };
    let tab = match ec {
        Some(e) => or_else(e.tab_size, c.tab_size),
        None => c.tab_size,
    };
    Config {
        line_width: or_else(o.line_width, c.line_width),
        tab_size: or_else(o.tab_size, tab),
        use_tabchars: use_tabs,
        command_case: or_else(o.command_case, c.command_case),
        keyword_case: or_else(o.keyword_case, c.keyword_case),
        dangle_parens: or_else(o.dangle_parens, c.dangle_parens),
        ..c
    }
}

/// Precedence of settings: a command-line value wins over everything; the
/// `.editorconfig` fallback gives only the indentation style and size, and
/// only where the command line does not; every other setting is the
/// configuration's own.
pub proof fn lemma_override_precedence(c: Config, ec: Option<EditorConfigOverrides>, o: ConfigOverrides)
    ensures
        overridden_config(c, ec, o).line_width == match o.line_width {
            Some(v) => v,
            None => c.line_width,
        },
        overridden_config(c, ec, o).tab_size == match o.tab_size {
            Some(v) => v,
            None => match ec {
                Some(e) => match e.tab_size {
                    Some(t) => t,
                    None => c.tab_size,
                },
                None => c.tab_size,
            },
        },
        overridden_config(c, ec, o).use_tabchars == match ec {
            Some(e) => match e.use_tabs {
                Some(u) => u,
                None => c.use_tabchars,
            },
            None => c.use_tabchars,
        },
        overridden_config(c, ec, o).command_case == match o.command_case {
            Some(v) => v,
            None => c.command_case,
        },
        overridden_config(c, ec, o).keyword_case == match o.keyword_case {
            Some(v) => v,
            None => c.keyword_case,
        },
        overridden_config(c, ec, o).dangle_parens == match o.dangle_parens {
            Some(v) => v,
            None => c.dangle_parens,
        },
        overridden_config(c, ec, o).max_empty_lines == c.max_empty_lines,
        overridden_config(c, ec, o).enable_markup == c.enable_markup,
        overridden_config(c, ec, o).reflow_comments == c.reflow_comments,
        overridden_config(c, ec, o).per_command_overrides == c.per_command_overrides,
{
}

/// A configuration with the `.editorconfig` fallback, when given, and then
/// the command-line values applied.
pub fn with_overrides(config: Config, editorconfig: &Option<EditorConfigOverrides>, o: &ConfigOverrides) -> (r:
    Config)
    ensures
        r == overridden_config(config, *editorconfig, *o),
{
    let use_tabs = match editorconfig {
        Some(e) => match e.use_tabs {
            Some(u) => u,
            None => config.use_tabchars,
        },
        None => config.use_tabchars,
    };
    let tab = match editorconfig {
        Some(e) => match e.tab_size {
            Some(t) => t,
            None => config.tab_size,
        },
        None => config.tab_size,
    };
    let line_width = match o.line_width {
        Some(v) => v,
        None => config.line_width,
    };
    let tab_size = match o.tab_size {
        Some(v) => v,
        None => tab,
    };
    let command_case = match o.command_case {
        Some(v) => v,
        None => config.command_case,
    };
    let keyword_case = match o.keyword_case {
        Some(v) => v,
        None => config.keyword_case,
    };
    let dangle_parens = match o.dangle_parens {
        Some(v) => v,
        None => config.dangle_parens,
    };
    Config {
        use_tabchars: use_tabs,
        tab_size,
        line_width,
        command_case,
        keyword_case,
        dangle_parens,
        ..config
    }
}

// ── Debug descriptions ──────────────────────────────────────────────────────

/// The debug line that says where the configuration of an input comes from.
pub open spec fn config_context_text(mode: ConfigSourceMode, sources: Seq<Seq<char>>) -> Seq<char> {
    match mode {
        ConfigSourceMode::Disabled => "config sources: disabled by --no-config"@,
        ConfigSourceMode::DefaultsOnly => "config sources: defaults only"@,
        _ => "config sources: "@ + join(sources, ", "@),
    }
}

/// The debug line that says where the configuration of an input comes from.
pub fn describe_config_context(mode: ConfigSourceMode, sources: &Vec<String>) -> (r: String)
    ensures
        r@ == config_context_text(mode, strs(sources@)),
{
    match mode {
        ConfigSourceMode::Disabled => owned("config sources: disabled by --no-config"),
        ConfigSourceMode::DefaultsOnly => owned("config sources: defaults only"),
        _ => {
            let mut s = owned("config sources: ");
            push_str(&mut s, join_strings(sources, ", ").as_str());
            s
        },
    }
}

/// The name of a case style as its `Debug` form writes it.
pub open spec fn case_debug_name(c: CaseStyle) -> Seq<char> {
    match c {
        CaseStyle::Lower => "Lower"@,
        CaseStyle::Upper => "Upper"@,
        CaseStyle::Unchanged => "Unchanged"@,
    }
}

fn case_name(c: CaseStyle) -> (r: &'static str)
    ensures
        r@ == case_debug_name(c),
{
    match c {
        CaseStyle::Lower => "Lower",
        CaseStyle::Upper => "Upper",
        CaseStyle::Unchanged => "Unchanged",
    }
}

/// `true` or `false`.
pub open spec fn bool_text(b: bool) -> Seq<char> {
    if b {
        "true"@
    } else {
        "false"@
    }
}

/// The part of the overrides line for a number, if it was given.
pub open spec fn num_part(name: Seq<char>, value: Option<usize>) -> Seq<Seq<char>> {
    match value {
        Some(v) => seq![name + "="@ + decimal(v as nat)],
        None => Seq::empty(),
    }
}

/// The part of the overrides line for a case style, if it was given.
pub open spec fn case_part(name: Seq<char>, value: Option<CaseStyle>) -> Seq<Seq<char>> {
    match value {
        Some(c) => seq![name + "="@ + case_debug_name(c)],
        None => Seq::empty(),
    }
}

/// The part of the overrides line for a switch, if it was given.
pub open spec fn bool_part(name: Seq<char>, value: Option<bool>) -> Seq<Seq<char>> {
    match value {
        Some(b) => seq![name + "="@ + bool_text(b)],
        None => Seq::empty(),
    }
}

/// The parts of the overrides line, in option order.
pub open spec fn override_parts(o: ConfigOverrides) -> Seq<Seq<char>> {
    num_part("line_width"@, o.line_width) + num_part("tab_size"@, o.tab_size) + case_part(
        "command_case"@,
        o.command_case,
    ) + case_part("keyword_case"@, o.keyword_case) + bool_part("dangle_parens"@, o.dangle_parens)
}

/// The debug line that lists the command-line configuration values.
pub open spec fn cli_overrides_text(o: ConfigOverrides) -> Seq<char> {
    if override_parts(o).len() == 0 {
        "cli overrides: none"@
    } else {
        "cli overrides: "@ + join(override_parts(o), ", "@)
    }
}

fn push_part(parts: &mut Vec<String>, name: &str, value: &str)
    ensures
        strs(final(parts)@) == strs(old(parts)@).push(name@ + "="@ + value@),
{
    let mut s = owned(name);
    push_str(&mut s, "=");
    push_str(&mut s, value);
    parts.push(s);
    assert(strs(parts@) =~= strs(old(parts)@).push(name@ + "="@ + value@));
}

/// The debug line that lists the command-line configuration values.
pub fn describe_cli_overrides(o: &ConfigOverrides) -> (r: String)
    ensures
        r@ == cli_overrides_text(*o),
{
    let mut parts: Vec<String> = Vec::new();
    let ghost mut expect: Seq<Seq<char>> = Seq::empty();
    assert(strs(parts@) =~= expect);
    if let Some(v) = o.line_width {
        push_part(&mut parts, "line_width", usize_to_string(v).as_str());
    }
    proof {
        expect = expect + num_part("line_width"@, o.line_width);
        assert(strs(parts@) =~= expect);
    }
    if let Some(v) = o.tab_size {
        push_part(&mut parts, "tab_size", usize_to_string(v).as_str());
    }
    proof {
        expect = expect + num_part("tab_size"@, o.tab_size);
        assert(strs(parts@) =~= expect);
    }
    if let Some(c) = o.command_case {
        push_part(&mut parts, "command_case", case_name(c));
    }
    proof {
        expect = expect + case_part("command_case"@, o.command_case);
        assert(strs(parts@) =~= expect);
    }
    if let Some(c) = o.keyword_case {
        push_part(&mut parts, "keyword_case", case_name(c));
    }
    proof {
        expect = expect + case_part("keyword_case"@, o.keyword_case);
        assert(strs(parts@) =~= expect);
    }
    if let Some(b) = o.dangle_parens {
        push_part(&mut parts, "dangle_parens", if b { "true" } else { "false" });
    }
    proof {
        expect = expect + bool_part("dangle_parens"@, o.dangle_parens);
        assert(strs(parts@) =~= expect);
        assert(expect =~= override_parts(*o));
    }
    if parts.len() == 0 {
        owned("cli overrides: none")
    } else {
        let mut s = owned("cli overrides: ");
        push_str(&mut s, join_strings(&parts, ", ").as_str());
        s
    }
}

// ── Failures ────────────────────────────────────────────────────────────────

/// A text up to its first `:`.
pub open spec fn before_colon(m: Seq<char>) -> Seq<char> {
    match first_index(m, ':') {
        Some(i) => m.subrange(0, i),
        None => m,
    }
}

/// The name under which a failed input is reported: the input of a parse
/// error, the file of a config or spec error, the trimmed text before the
/// first `:` of a formatter error, else `<unknown>`.
pub open spec fn error_name(e: Error) -> Seq<char> {
    match e {
        Error::Parse(p) => p.display_name@,
        Error::Config(c) => c.path@,
        Error::Spec(c) => c.path@,
        Error::Formatter(m) => trim(before_colon(m@)),
        _ => "<unknown>"@,
    }
}

/// The name under which a failed input is reported.
pub fn error_display_name(err: &Error) -> (r: String)
    ensures
        r@ == error_name(*err),
{
    match err {
        Error::Parse(p) => owned(p.display_name.as_str()),
        Error::Config(c) => owned(c.path.as_str()),
        Error::Spec(c) => owned(c.path.as_str()),
        Error::Formatter(m) => {
            let v = chars_of(m.as_str());
            let mut i: usize = 0;
            while i < v.len() && v[i] != ':'
                invariant
                    i <= v@.len(),
                    forall|j: int| 0 <= j < i ==> v@[j] != ':',
                decreases v@.len() - i,
            {
                i += 1;
            }
            proof {
                lemma_first_index_is(v@, ':', i as int);
                assert(v@.subrange(0, v@.len() as int) =~= v@);
            }
            let head = string_of(&v, 0, i);
            trim_str(head.as_str())
        },
        _ => owned("<unknown>"),
    }
}

// ── Human output of a result ────────────────────────────────────────────────

/// What the human output does with a finished input.
#[derive(Debug, Clone, Copy, PartialEq, Eq)]
pub enum HumanAction {
    /// Print the formatting decisions.
    Explain,
    /// Write the (possibly highlighted) formatted text to standard output.
    WriteResult,
    /// Write the input's name to standard output.
    WriteName,
    /// Write the unified diff to standard output.
    WriteDiff,
    /// A check found the input to reformat: write the diff when asked, and
    /// say so on standard error when `notice`.
    CheckChanged { diff: bool, notice: bool },
    /// Nothing.
    Nothing,
}

/// What the human output does with an input, given whether it was skipped
/// and whether formatting changes it.
pub open spec fn human_action_of(o: RunOptions, skipped: bool, would_change: bool) -> HumanAction {
    if o.explain {
        HumanAction::Explain
    } else if skipped {
        if stdout_mode(o) && !o.quiet && !o.summary {
            HumanAction::WriteResult
        } else {
            HumanAction::Nothing
        }
    } else if o.list_changed_files {
        if would_change {
            HumanAction::WriteName
        } else {
            HumanAction::Nothing
        }
    } else if o.check {
        if would_change {
            HumanAction::CheckChanged { diff: o.diff, notice: !o.quiet && !o.summary }
        } else {
            HumanAction::Nothing
        }
    } else if o.in_place {
        HumanAction::Nothing
    } else if o.diff {
        if would_change {
            HumanAction::WriteDiff
        } else {
            HumanAction::Nothing
        }
    } else if !o.summary && !o.quiet {
        HumanAction::WriteResult
    } else {
        HumanAction::Nothing
    }
}

/// What the human output does with a finished input.
pub fn human_action(o: &RunOptions, result: &ProcessedTarget) -> (r: HumanAction)
    ensures
        r == human_action_of(*o, result.skipped, result.would_change),
{
    if o.explain {
        return HumanAction::Explain;
    }
    if result.skipped {
        return if crate::cli::is_stdout_mode(o) && !o.quiet && !o.summary {
            HumanAction::WriteResult
        } else {
            HumanAction::Nothing
        };
    }
    if o.list_changed_files {
        return if result.would_change {
            HumanAction::WriteName
        } else {
            HumanAction::Nothing
        };
    }
    if o.check {
        return if result.would_change {
            HumanAction::CheckChanged { diff: o.diff, notice: !o.quiet && !o.summary }
        } else {
            HumanAction::Nothing
        };
    }
    if o.in_place {
        return HumanAction::Nothing;
    }
    if o.diff {
        return if result.would_change {
            HumanAction::WriteDiff
        } else {
            HumanAction::Nothing
        };
    }
    if !o.summary && !o.quiet {
        HumanAction::WriteResult
    } else {
        HumanAction::Nothing
    }
}

/// The formatting decisions among the debug lines: each line that starts
/// with `formatter: `, without that prefix and indented by two spaces.
pub open spec fn explain_body(lines: Seq<Seq<char>>) -> Seq<Seq<char>>
    decreases lines.len(),
{
    if lines.len() == 0 {
        Seq::empty()
    } else {
        let rest = explain_body(lines.drop_last());
        let l = lines.last();
        if starts_with(l, "formatter: "@) {
            rest.push("  "@ + l.subrange(11, l.len() as int))
        } else {
            rest
        }
    }
}

/// The lines printed for `--explain`: a heading, the decisions (or a note
/// that there are none) and an empty line.
pub open spec fn explain_lines(name: Seq<char>, lines: Seq<Seq<char>>) -> Seq<Seq<char>> {
    seq!["Formatting decisions for "@ + name + "\n"@] + (if explain_body(lines).len() == 0 {
        seq!["  (no formatting decisions \u{2014} file may be empty or fully disabled)"@]
    } else {
        explain_body(lines)
    }) + seq![""@]
}

/// The lines printed for `--explain`.
pub fn explain_output(display_name: &str, debug_lines: &Vec<String>) -> (r: Vec<String>)
    ensures
        strs(r@) == explain_lines(display_name@, strs(debug_lines@)),
{
    let mut out: Vec<String> = Vec::new();
    let mut head = owned("Formatting decisions for ");
    push_str(&mut head, display_name);
    push_str(&mut head, "\n");
    let mut body: Vec<String> = Vec::new();
    let ghost all = strs(debug_lines@);
    let mut i: usize = 0;
    proof {
        reveal_strlit("formatter: ");
    }
    while i < debug_lines.len()
        invariant
            i <= debug_lines@.len(),
            all == strs(debug_lines@),
            "formatter: "@.len() == 11,
            strs(body@) == explain_body(all.subrange(0, i as int)),
        decreases debug_lines@.len() - i,
    {
        assert(all.subrange(0, i + 1).drop_last() =~= all.subrange(0, i as int));
        let line = debug_lines[i].as_str();
        if starts_with_str(line, "formatter: ") {
            let v = chars_of(line);
            let mut t = owned("  ");
            push_str(&mut t, string_of(&v, 11, v.len()).as_str());
            let ghost pre = strs(body@);
            body.push(t);
            assert(strs(body@) =~= pre.push(t@));
        }
        i += 1;
    }
    assert(all.subrange(0, all.len() as int) =~= all);
    out.push(head);
    let ghost first = strs(out@);
    if body.len() == 0 {
        out.push(owned("  (no formatting decisions \u{2014} file may be empty or fully disabled)"));
    } else {
        let mut k: usize = 0;
        while k < body.len()
            invariant
                k <= body@.len(),
                strs(out@) == first + strs(body@).subrange(0, k as int),
            decreases body@.len() - k,
        {
            let ghost pre = strs(out@);
            let t = copy_text(&body[k]);
            out.push(t);
            assert(strs(out@) =~= pre.push(body@[k as int]@));
            assert(strs(body@).subrange(0, k + 1) =~= strs(body@).subrange(0, k as int).push(body@[k as int]@));
            assert(strs(out@) =~= first + strs(body@).subrange(0, k + 1));
            k += 1;
        }
        assert(strs(body@).subrange(0, body@.len() as int) =~= strs(body@));
    }
    let ghost mid = strs(out@);
    out.push(String::new());
    assert(strs(out@) =~= mid.push(Seq::<char>::empty()));
    assert(first =~= seq![head@]);
    proof {
        reveal_strlit("");
        assert(""@ =~= Seq::<char>::empty());
        let h = "Formatting decisions for "@ + display_name@ + "\n"@;
        assert(head@ == h);
        if body@.len() == 0 {
            let note = "  (no formatting decisions \u{2014} file may be empty or fully disabled)"@;
            assert(mid =~= seq![h] + seq![note]);
            assert(explain_lines(display_name@, all) == seq![h] + seq![note] + seq![""@]);
            assert(strs(out@) =~= seq![h] + seq![note] + seq![""@]);
        } else {
            assert(mid =~= seq![h] + explain_body(all));
            assert(explain_lines(display_name@, all) == seq![h] + explain_body(all) + seq![""@]);
            assert(strs(out@) =~= seq![h] + explain_body(all) + seq![""@]);
        }
    }
    assert(strs(out@) =~= explain_lines(display_name@, all));
    out
}

fn copy_text(s: &String) -> (r: String)
    ensures
        r@ == s@,
{
    owned(s.as_str())
}

// ── Counting and the exit code ──────────────────────────────────────────────

/// The counts of a run after one more finished input.
pub open spec fn counted(s: RunSummary, skipped: bool, would_change: bool, changed_lines: nat) -> RunSummary {
    if skipped {
        RunSummary { skipped: (s.skipped + 1) as usize, ..s }
    } else if would_change {
        RunSummary {
            changed: (s.changed + 1) as usize,
            total_changed_lines: (s.total_changed_lines + changed_lines) as usize,
            ..s
        }
    } else {
        RunSummary { unchanged: (s.unchanged + 1) as usize, ..s }
    }
}

/// Counting a finished input: exactly one of the skipped, changed and
/// unchanged counts goes up by one (skipped for a skipped input, changed for
/// one that would change, unchanged otherwise); only a changed input adds
/// its changed lines to the total; the selected and failed counts stay.
pub proof fn lemma_counting(s: RunSummary, skipped: bool, would_change: bool, n: nat)
    requires
        s.skipped < usize::MAX,
        s.changed < usize::MAX,
        s.unchanged < usize::MAX,
        s.total_changed_lines + n <= usize::MAX,
    ensures
        counted(s, skipped, would_change, n).skipped + counted(s, skipped, would_change, n).changed + counted(
            s,
            skipped,
            would_change,
            n,
        ).unchanged == s.skipped + s.changed + s.unchanged + 1,
        (counted(s, skipped, would_change, n).skipped == s.skipped + 1) == skipped,
        (counted(s, skipped, would_change, n).changed == s.changed + 1) == (!skipped && would_change),
        (counted(s, skipped, would_change, n).unchanged == s.unchanged + 1) == (!skipped && !would_change),
        counted(s, skipped, would_change, n).total_changed_lines == s.total_changed_lines + if !skipped
            && would_change {
            n
        } else {
            0
        },
        counted(s, skipped, would_change, n).selected == s.selected,
        counted(s, skipped, would_change, n).failed == s.failed,
{
}

/// Count a finished input: skipped, changed (with its changed lines) or
/// unchanged.
pub fn record_result(summary: &mut RunSummary, result: &ProcessedTarget)
    requires
        old(summary).skipped < usize::MAX,
        old(summary).changed < usize::MAX,
        old(summary).unchanged < usize::MAX,
        old(summary).total_changed_lines + result.changed_lines@.len() <= usize::MAX,
    ensures
        *final(summary) == counted(
            *old(summary),
            result.skipped,
            result.would_change,
            result.changed_lines@.len(),
        ),
{
    if result.skipped {
        summary.skipped = summary.skipped + 1;
    } else if result.would_change {
        summary.changed = summary.changed + 1;
        summary.total_changed_lines = summary.total_changed_lines + result.changed_lines.len();
    } else {
        summary.unchanged = summary.unchanged + 1;
    }
}

/// Count a failed input.
pub fn record_failure(summary: &mut RunSummary)
    requires
        old(summary).failed < usize::MAX,
    ensures
        *final(summary) == (RunSummary { failed: (old(summary).failed + 1) as usize, ..*old(summary) }),
{
    summary.failed = summary.failed + 1;
}

/// Whether a human check run ends with the hint to fix the formatting.
pub fn prints_fix_hint(o: &RunOptions, summary: &RunSummary) -> (r: bool)
    ensures
        r == (o.check && !o.quiet && summary.changed > 0 && o.report_format == ReportFormat::Human),
{
    o.check && !o.quiet && summary.changed > 0 && o.report_format == ReportFormat::Human
}

/// The exit code of a human run: an error when an input failed, a failed
/// check when a check or listing found inputs to reformat, else success.
pub fn human_exit_code(o: &RunOptions, summary: &RunSummary, failures: usize) -> (r: u8)
    ensures
        r == if failures > 0 {
            EXIT_ERROR
        } else if (o.check || o.list_changed_files) && summary.changed > 0 {
            EXIT_CHECK_FAILED
        } else {
            EXIT_OK
        },
{
    if failures > 0 {
        EXIT_ERROR
    } else if (o.check || o.list_changed_files) && summary.changed > 0 {
        EXIT_CHECK_FAILED
    } else {
        EXIT_OK
    }
}

// ── Machine reports ─────────────────────────────────────────────────────────

/// The mode a machine report names: the first of in-place, check, listing
/// changed files, listing input files and diff that is on, else stdout.
pub open spec fn report_mode_text(o: RunOptions) -> Seq<char> {
    if o.in_place {
        "in-place"@
    } else if o.check {
        "check"@
    } else if o.list_changed_files {
        "list-changed-files"@
    } else if o.list_input_files {
        "list-input-files"@
    } else if o.diff {
        "diff"@
    } else {
        "stdout"@
    }
}

/// The mode a machine report names.
pub fn report_mode(o: &RunOptions) -> (r: &'static str)
    ensures
        r@ == report_mode_text(*o),
{
    if o.in_place {
        "in-place"
    } else if o.check {
        "check"
    } else if o.list_changed_files {
        "list-changed-files"
    } else if o.list_input_files {
        "list-input-files"
    } else if o.diff {
        "diff"
    } else {
        "stdout"
    }
}

/// Whether a machine report carries each input's formatted text: only when
/// the formatting would go to standard output.
pub fn report_includes_formatted(o: &RunOptions) -> (r: bool)
    ensures
        r == (!o.in_place && !o.check && !o.list_changed_files && !o.list_input_files && !o.diff),
{
    !o.in_place && !o.check && !o.list_changed_files && !o.list_input_files && !o.diff
}

// ── Cache ───────────────────────────────────────────────────────────────────

/// The signatures a cached formatting was made under: the tool, the
/// configuration and the source.
pub struct CacheSignatures {
    pub tool: String,
    pub config: String,
    pub source: String,
}

/// Whether a cached formatting is still valid: it was made by the same tool,
/// under the same configuration, from the same source.
pub fn cache_entry_matches(entry: &CacheSignatures, current: &CacheSignatures) -> (r: bool)
    ensures
        r == (entry.tool@ == current.tool@ && entry.config@ == current.config@ && entry.source@
            == current.source@),
{
    crate::text::str_eq(entry.tool.as_str(), current.tool.as_str()) && crate::text::str_eq(
        entry.config.as_str(),
        current.config.as_str(),
    ) && crate::text::str_eq(entry.source.as_str(), current.source.as_str())
}

// ── Watching ────────────────────────────────────────────────────────────────

/// A modification time as seconds and nanoseconds since the Unix epoch;
/// `None` when it could not be read.
pub open spec fn previous_time(
    known: Seq<(String, Option<(u64, u32)>)>,
    path: Seq<char>,
) -> Option<Option<(u64, u32)>>
    decreases known.len(),
{
    if known.len() == 0 {
        None
    } else if known[0].0@ == path {
        Some(known[0].1)
    } else {
        previous_time(known.drop_first(), path)
    }
}

/// The watched files that changed since the last poll, in the order they
/// were found: those first seen now, and those whose modification time
/// differs from the one seen last.
pub open spec fn changed_paths(
    known: Seq<(String, Option<(u64, u32)>)>,
    current: Seq<(String, Option<(u64, u32)>)>,
) -> Seq<Seq<char>>
    decreases current.len(),
{
    if current.len() == 0 {
        Seq::empty()
    } else {
        let rest = changed_paths(known, current.drop_last());
        if previous_time(known, current.last().0@) == Some(current.last().1) {
            rest
        } else {
            rest.push(current.last().0@)
        }
    }
}

fn same_time(a: Option<(u64, u32)>, b: Option<(u64, u32)>) -> (r: bool)
    ensures
        r == (a == b),
{
    match (a, b) {
        (Some(x), Some(y)) => x.0 == y.0 && x.1 == y.1,
        (None, None) => true,
        _ => false,
    }
}

fn find_previous(known: &Vec<(String, Option<(u64, u32)>)>, path: &str) -> (r: Option<Option<(u64, u32)>>)
    ensures
        r == previous_time(known@, path@),
{
    let mut i: usize = 0;
    assert(known@.subrange(0, known@.len() as int) =~= known@);
    while i < known.len()
        invariant
            i <= known@.len(),
            previous_time(known@, path@) == previous_time(known@.subrange(i as int, known@.len() as int), path@),
        decreases known@.len() - i,
    {
        let ghost rest = known@.subrange(i as int, known@.len() as int);
        assert(rest.drop_first() =~= known@.subrange(i + 1, known@.len() as int));
        if crate::text::str_eq(known[i].0.as_str(), path) {
            return Some(known[i].1);
        }
        i += 1;
    }
    None
}

/// The watched files that changed since the last poll. `known` holds the
/// files and times of the last poll, `current` those of this one; the next
/// poll compares with `current`.
pub fn watch_changes(
    known: &Vec<(String, Option<(u64, u32)>)>,
    current: &Vec<(String, Option<(u64, u32)>)>,
) -> (r: Vec<String>)
    ensures
        strs(r@) == changed_paths(known@, current@),
{
    let mut out: Vec<String> = Vec::new();
    let mut i: usize = 0;
    while i < current.len()
        invariant
            i <= current@.len(),
            strs(out@) == changed_paths(known@, current@.subrange(0, i as int)),
        decreases current@.len() - i,
    {
        assert(current@.subrange(0, i + 1).drop_last() =~= current@.subrange(0, i as int));
        assert(current@.subrange(0, i + 1).last() == current@[i as int]);
        let prev = find_previous(known, current[i].0.as_str());
        let unchanged = match prev {
            Some(t) => same_time(t, current[i].1),
            None => false,
        };
        if !unchanged {
            let ghost pre = strs(out@);
            out.push(owned(current[i].0.as_str()));
            assert(strs(out@) =~= pre.push(current@[i as int].0@));
        }
        i += 1;
    }
    assert(current@.subrange(0, current@.len() as int) =~= current@);
    out
}

/// Paths that occur once.
pub open spec fn unique_paths(s: Seq<(String, Option<(u64, u32)>)>) -> bool {
    forall|i: int, j: int| 0 <= i < j < s.len() ==> s[i].0@ != s[j].0@
}

proof fn lemma_previous_time_found(known: Seq<(String, Option<(u64, u32)>)>, k: int)
    requires
        unique_paths(known),
        0 <= k < known.len(),
    ensures
        previous_time(known, known[k].0@) == Some(known[k].1),
    decreases k,
{
    if k > 0 {
        let t = known.drop_first();
        assert(t[k - 1] == known[k]);
        assert(known[0].0@ != known[k].0@);
        assert(unique_paths(t)) by {
            assert forall|i: int, j: int| 0 <= i < j < t.len() implies t[i].0@ != t[j].0@ by {
                assert(t[i] == known[i + 1] && t[j] == known[j + 1]);
            }
        }
        lemma_previous_time_found(t, k - 1);
    }
}

proof fn lemma_unchanged_prefix(
    current: Seq<(String, Option<(u64, u32)>)>,
    n: int,
)
    requires
        unique_paths(current),
        0 <= n <= current.len(),
    ensures
        changed_paths(current, current.subrange(0, n)) == Seq::<Seq<char>>::empty(),
    decreases n,
{
    if n > 0 {
        let prefix = current.subrange(0, n);
        assert(prefix.drop_last() =~= current.subrange(0, n - 1));
        assert(prefix.last() == current[n - 1]);
        lemma_previous_time_found(current, n - 1);
        lemma_unchanged_prefix(current, n - 1);
    } else {
        assert(current.subrange(0, 0) =~= Seq::<(String, Option<(u64, u32)>)>::empty());
    }
}

/// A poll that finds every watched file as the last one left it reports
/// nothing.
pub proof fn lemma_unchanged_poll_reports_nothing(current: Seq<(String, Option<(u64, u32)>)>)
    requires
        unique_paths(current),
    ensures
        changed_paths(current, current) == Seq::<Seq<char>>::empty(),
{
    lemma_unchanged_prefix(current, current.len() as int);
    assert(current.subrange(0, current.len() as int) =~= current);
}

/// The line printed after a watched file was formatted.
pub open spec fn watch_message_text(path: Seq<char>, would_change: bool, colorize: bool) -> Seq<char> {
    if would_change {
        if colorize {
            "\x1b[1;93m!\x1b[0m "@ + path
        } else {
            "[!] "@ + path
        }
    } else if colorize {
        "\x1b[1;32m\u{2714}\x1b[0m \x1b[2m"@ + path + "\x1b[0m"@
    } else {
        "[ok] "@ + path
    }
}

/// The line printed after a watched file was formatted.
pub fn watch_message(path: &str, would_change: bool, colorize: bool) -> (r: String)
    ensures
        r@ == watch_message_text(path@, would_change, colorize),
{
    if would_change {
        let mut s = if colorize {
            owned("\x1b[1;93m!\x1b[0m ")
        } else {
            owned("[!] ")
        };
        push_str(&mut s, path);
        s
    } else if colorize {
        let mut s = owned("\x1b[1;32m\u{2714}\x1b[0m \x1b[2m");
        push_str(&mut s, path);
        push_str(&mut s, "\x1b[0m");
        s
    } else {
        let mut s = owned("[ok] ");
        push_str(&mut s, path);
        s
    }
}

} // verus!
