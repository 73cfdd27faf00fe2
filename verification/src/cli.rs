//! The decisions of a command-line run: which output mode applies, what to
//! compute for each input, how an input's outcome is summarised, and the
//! exit code.

use vstd::prelude::*;
use crate::diagnostics::lines_of;
use crate::diff::{
    changed_formatted_line_numbers, changed_mask, highlight_changed_lines, highlight_text,
    lines_with_endings, marked_numbers, split_lines_with_endings,
};
use crate::error::Error;
use crate::parser::{named_parse_failure, parse, parse_spec};
use crate::registry::CommandRegistry;
use crate::report::{FailedTarget, ProcessedTarget, RunSummary};
use crate::semantic::{normalized_file, normalize_semantics};
use crate::ast::{File, SStatement, Statement};
use crate::comment::{regex_is_match, regex_match};
use crate::text::{lower_seq, owned, push_str, strs, to_lower};
use vstd::utf8::encode_utf8;

verus! {

broadcast use vstd::string::group_string_axioms;

/// Exit code of a successful run.
pub const EXIT_OK: u8 = 0;

/// Exit code of a check that found inputs to reformat.
pub const EXIT_CHECK_FAILED: u8 = 1;

/// Exit code of a run that failed on some input.
pub const EXIT_ERROR: u8 = 2;

/// The report format of a run.
#[derive(Debug, Clone, Copy, PartialEq, Eq, Structural)]
pub enum ReportFormat {
    Human,
    Json,
    Github,
    Checkstyle,
    Junit,
    Sarif,
    Edit,
}

/// Where a run's configuration comes from.
#[derive(Debug, Clone, Copy, PartialEq, Eq, Structural)]
pub enum ConfigSourceMode {
    Disabled,
    Explicit,
    Discovered,
    DefaultsOnly,
}

/// The options of a run that its decisions depend on.
#[derive(Debug, Clone, Copy, PartialEq, Eq)]
pub struct RunOptions {
    pub check: bool,
    pub in_place: bool,
    pub diff: bool,
    pub list_changed_files: bool,
    pub list_input_files: bool,
    pub summary: bool,
    pub explain: bool,
    pub quiet: bool,
    pub debug: bool,
    pub stat: bool,
    pub verify: bool,
    pub skip_verification: bool,
    pub require_pragma: bool,
    pub progress_bar: bool,
    pub has_line_ranges: bool,
    pub report_format: ReportFormat,
}

/// Whether formatted output goes to standard output.
pub open spec fn stdout_mode(o: RunOptions) -> bool {
    !o.list_changed_files && !o.list_input_files && !o.check && !o.in_place
}

/// Whether formatted output goes to standard output.
pub fn is_stdout_mode(o: &RunOptions) -> (r: bool)
    ensures
        r == stdout_mode(*o),
{
    !o.list_changed_files && !o.list_input_files && !o.check && !o.in_place
}

/// Whether debug lines are collected.
pub fn needs_debug_lines(o: &RunOptions) -> (r: bool)
    ensures
        r == (o.debug || o.explain),
{
    o.debug || o.explain
}

/// Whether results are written to standard output while the run goes on.
pub open spec fn streams_stdout(o: RunOptions) -> bool {
    if o.report_format != ReportFormat::Human {
        false
    } else if o.list_changed_files || o.diff {
        true
    } else {
        stdout_mode(o) && !o.summary && !o.quiet
    }
}

/// Whether results are written to standard output while the run goes on.
pub fn streams_stdout_during_run(o: &RunOptions) -> (r: bool)
    ensures
        r == streams_stdout(*o),
{
    if o.report_format != ReportFormat::Human {
        return false;
    }
    if o.list_changed_files || o.diff {
        return true;
    }
    is_stdout_mode(o) && !o.summary && !o.quiet
}

/// Whether the progress bar shows: requested, more than one input, standard
/// error a terminal, and no streaming to a terminal standard output.
pub open spec fn progress_enabled(o: RunOptions, total: nat, stdout_tty: bool, stderr_tty: bool) -> bool {
    o.progress_bar && total > 1 && stderr_tty && (!streams_stdout(o) || !stdout_tty)
}

/// Whether the progress bar shows.
pub fn should_enable_progress_bar(o: &RunOptions, total: usize, stdout_is_terminal: bool, stderr_is_terminal: bool) -> (r:
    bool)
    ensures
        r == progress_enabled(*o, total as nat, stdout_is_terminal, stderr_is_terminal),
{
    o.progress_bar && total > 1 && stderr_is_terminal && (!streams_stdout_during_run(o) || !stdout_is_terminal)
}

/// Why a requested progress bar does not show, if it does not.
pub fn progress_bar_suppressed_reason(
    o: &RunOptions,
    total: usize,
    stdout_is_terminal: bool,
    stderr_is_terminal: bool,
) -> (r: Option<&'static str>)
    ensures
        !o.progress_bar || progress_enabled(*o, total as nat, stdout_is_terminal, stderr_is_terminal) ==> r is None,
        o.progress_bar && !progress_enabled(*o, total as nat, stdout_is_terminal, stderr_is_terminal) ==> (r matches Some(m)
            && m@ == if !stderr_is_terminal {
            "stderr is not a terminal"@
        } else if total <= 1 {
            "only one file to process"@
        } else {
            "output is streaming to the terminal; pipe stdout to enable"@
        }),
{
    if !o.progress_bar || should_enable_progress_bar(o, total, stdout_is_terminal, stderr_is_terminal) {
        return None;
    }
    if !stderr_is_terminal {
        Some("stderr is not a terminal")
    } else if total <= 1 {
        Some("only one file to process")
    } else {
        Some("output is streaming to the terminal; pipe stdout to enable")
    }
}

/// Whether changed line numbers are computed for each input.
pub open spec fn wants_changed_lines(o: RunOptions, colorize_stdout: bool) -> bool {
    colorize_stdout || o.has_line_ranges || o.debug || o.summary || o.stat || o.report_format != ReportFormat::Human
}

/// Whether changed line numbers are computed for each input.
pub fn needs_changed_lines(o: &RunOptions, colorize_stdout: bool) -> (r: bool)
    ensures
        r == wants_changed_lines(*o, colorize_stdout),
{
    colorize_stdout || o.has_line_ranges || o.debug || o.summary || o.stat || o.report_format != ReportFormat::Human
}

/// Whether a unified diff is computed for each changed input.
pub open spec fn wants_unified_diff(o: RunOptions) -> bool {
    o.diff || o.report_format == ReportFormat::Junit || o.report_format == ReportFormat::Checkstyle
}

/// Whether a unified diff is computed for each changed input.
pub fn needs_unified_diff(o: &RunOptions) -> (r: bool)
    ensures
        r == wants_unified_diff(*o),
{
    o.diff || o.report_format == ReportFormat::Junit || o.report_format == ReportFormat::Checkstyle
}

/// Whether formatted output is checked to keep the parsed CMake structure:
/// when asked, and by default for in-place rewriting.
pub fn verification_enabled(o: &RunOptions) -> (r: bool)
    ensures
        r == (o.verify || (o.in_place && !o.skip_verification)),
{
    o.verify || (o.in_place && !o.skip_verification)
}

/// The exit code of a run in a machine mode: an error when some input
/// failed, a failed check when a check or listing found inputs to
/// reformat, else success.
pub fn machine_mode_exit_code(results: &Vec<ProcessedTarget>, failures: &Vec<FailedTarget>, o: &RunOptions) -> (r: u8)
    ensures
        r == if failures@.len() > 0 {
            EXIT_ERROR
        } else if (o.check || o.list_changed_files) && exists|i: int| 0 <= i < results@.len() && results@[i].would_change {
            EXIT_CHECK_FAILED
        } else {
            EXIT_OK
        },
{
    if failures.len() > 0 {
        return EXIT_ERROR;
    }
    if o.check || o.list_changed_files {
        let mut i: usize = 0;
        while i < results.len()
            invariant
                i <= results@.len(),
                failures@.len() == 0,
                o.check || o.list_changed_files,
                forall|j: int| 0 <= j < i ==> !results@[j].would_change,
            decreases results@.len() - i,
        {
            if results[i].would_change {
                assert(results@[i as int].would_change);
                return EXIT_CHECK_FAILED;
            }
            i += 1;
        }
    }
    EXIT_OK
}

/// Whether the run summary is printed for people.
pub open spec fn prints_human_summary(o: RunOptions, selected: nat, failures: nat, successful: nat) -> bool {
    if o.report_format != ReportFormat::Human {
        false
    } else if !o.list_changed_files && !o.list_input_files && !o.check && !o.in_place && !o.diff {
        o.quiet || o.summary || failures > 0
    } else {
        o.quiet || failures > 0 || o.check || o.in_place || (o.diff && successful > 1) || selected > 1
    }
}

/// Whether the run summary is printed for people.
pub fn should_print_human_summary(o: &RunOptions, summary: &RunSummary, failures: usize, successful_results: usize) -> (r:
    bool)
    ensures
        r == prints_human_summary(*o, summary.selected as nat, failures as nat, successful_results as nat),
{
    if o.report_format != ReportFormat::Human {
        return false;
    }
    let stdout_mode = !o.list_changed_files && !o.list_input_files && !o.check && !o.in_place && !o.diff;
    if stdout_mode {
        return o.quiet || o.summary || failures > 0;
    }
    o.quiet || failures > 0 || o.check || o.in_place || (o.diff && successful_results > 1) || summary.selected > 1
}

/// How a configuration source mode is described.
pub fn describe_config_mode(mode: ConfigSourceMode) -> (r: &'static str)
    ensures
        r@ == match mode {
            ConfigSourceMode::Disabled => "disabled by --no-config"@,
            ConfigSourceMode::Explicit => "explicit --config-file override(s)"@,
            ConfigSourceMode::Discovered => "discovered from the target path"@,
            ConfigSourceMode::DefaultsOnly => "defaults only"@,
        },
{
    match mode {
        ConfigSourceMode::Disabled => "disabled by --no-config",
        ConfigSourceMode::Explicit => "explicit --config-file override(s)",
        ConfigSourceMode::Discovered => "discovered from the target path",
        ConfigSourceMode::DefaultsOnly => "defaults only",
    }
}

/// The number of parallel jobs: by default one less than the available
/// parallelism (at least one), for 0 the available parallelism, else the
/// requested number.
pub fn resolve_parallel_jobs(requested: Option<usize>, available: std::result::Result<usize, std::io::Error>) -> (r:
    crate::error::Result<usize>)
    ensures
        requested is None ==> (r matches Ok(n) && n == match available {
            Ok(a) => if a > 1 { (a - 1) as usize } else { 1usize },
            Err(_) => 1usize,
        }),
        requested == Some(0usize) ==> match available {
            Ok(a) => r matches Ok(n) && n == a,
            Err(_) => r matches Err(Error::Io(_)),
        },
        requested is Some && requested->0 > 0 ==> (r matches Ok(n) && n == requested->0),
{
    match requested {
        None => {
            let cpus = match available {
                Ok(a) => a,
                Err(_) => 1,
            };
            Ok(if cpus > 1 { cpus - 1 } else { 1 })
        },
        Some(0) => match available {
            Ok(a) => Ok(a),
            Err(e) => Err(Error::Io(e)),
        },
        Some(jobs) => Ok(jobs),
    }
}

/// Whether a file name is one of CMake's: `CMakeLists.txt`, `*.cmake` or
/// `*.cmake.in`.
pub open spec fn cmake_file_name(name: Seq<char>) -> bool {
    name == "CMakeLists.txt"@ || crate::text::ends_with(name, ".cmake"@) || crate::text::ends_with(
        name,
        ".cmake.in"@,
    )
}

/// CMake file names: `CMakeLists.txt`, every name ending in `.cmake` and
/// every name ending in `.cmake.in` are CMake files, and nothing else is.
pub proof fn lemma_cmake_file_names(stem: Seq<char>, name: Seq<char>)
    ensures
        cmake_file_name("CMakeLists.txt"@),
        cmake_file_name(stem + ".cmake"@),
        cmake_file_name(stem + ".cmake.in"@),
        cmake_file_name(name) ==> name == "CMakeLists.txt"@ || (name.len() >= 6 && name.subrange(
            name.len() - 6,
            name.len() as int,
        ) == ".cmake"@) || (name.len() >= 9 && name.subrange(name.len() - 9, name.len() as int)
            == ".cmake.in"@),
{
    reveal_strlit(".cmake");
    reveal_strlit(".cmake.in");
    let a = stem + ".cmake"@;
    assert(a.subrange(a.len() - 6, a.len() as int) =~= ".cmake"@);
    let b = stem + ".cmake.in"@;
    assert(b.subrange(b.len() - 9, b.len() as int) =~= ".cmake.in"@);
}

/// Whether a path's file name is one of CMake's (`file_name` is the last
/// component of the path, when it has one that is valid Unicode).
pub fn is_cmake_file(file_name: Option<&str>) -> (r: bool)
    ensures
        r == match file_name {
            Some(n) => cmake_file_name(n@),
            None => false,
        },
{
    match file_name {
        Some(n) => crate::text::str_eq(n, "CMakeLists.txt") || crate::text::ends_with_str(n, ".cmake")
            || crate::text::ends_with_str(n, ".cmake.in"),
        None => false,
    }
}

/// Exit codes: 0 for success, 1 for a check that found inputs to
/// reformat, 2 for a run that failed on some input.
pub proof fn lemma_exit_codes()
    ensures
        EXIT_OK == 0,
        EXIT_CHECK_FAILED == 1,
        EXIT_ERROR == 2,
{
}

/// Whether a discovered path passes the file filter: always when there is
/// none, else when the filter's regular expression matches the path's text
/// (an expression that does not compile matches nothing).
pub fn matches_filter(path: &str, pattern: Option<&str>) -> (r: bool)
    ensures
        r == match pattern {
            None => true,
            Some(p) => regex_match(p@, path@) == Some(true),
        },
{
    match pattern {
        None => true,
        Some(p) => match regex_is_match(p, path) {
            Some(m) => m,
            None => false,
        },
    }
}

/// Number of newline bytes in `b`.
pub open spec fn newline_count(b: Seq<u8>) -> nat
    decreases b.len(),
{
    if b.len() == 0 {
        0
    } else {
        newline_count(b.drop_last()) + if b.last() == 10u8 { 1nat } else { 0nat }
    }
}

/// The commands of `stmts` that `reg` does not know, in order: each one's
/// name in ASCII lowercase and the 1-based line it starts on, which is one
/// more than the newlines among the first `span.0` bytes of the source.
pub open spec fn unknown_in(stmts: Seq<SStatement>, bytes: Seq<u8>, reg: CommandRegistry) -> Seq<(Seq<char>, nat)>
    decreases stmts.len(),
{
    if stmts.len() == 0 {
        Seq::empty()
    } else {
        let rest = unknown_in(stmts.drop_last(), bytes, reg);
        match stmts.last() {
            SStatement::Command(c) => if reg.knows(c.name) {
                rest
            } else {
                rest.push((lower_seq(c.name), newline_count(bytes.subrange(0, c.span.0)) + 1))
            },
            _ => rest,
        }
    }
}

/// The commands of a file that a registry does not know, in order.
pub open spec fn unknown_commands_of(stmts: Seq<SStatement>, reg: CommandRegistry) -> Seq<SStatement> {
    stmts.filter(|st: SStatement| st is Command && !reg.knows(st->Command_0.name))
}

/// The unknown-command listing has one entry per command the registry does
/// not know, in order, and none for a known command or any other
/// statement: each entry is the command's name in ASCII lowercase and its
/// line, one more than the line breaks before the command starts.
pub proof fn lemma_unknown_listing(stmts: Seq<SStatement>, bytes: Seq<u8>, reg: CommandRegistry)
    ensures
        unknown_in(stmts, bytes, reg).len() == unknown_commands_of(stmts, reg).len(),
        forall|k: int|
            0 <= k < unknown_in(stmts, bytes, reg).len() ==> (#[trigger] unknown_in(stmts, bytes, reg)[k]).0 == lower_seq(
                unknown_commands_of(stmts, reg)[k]->Command_0.name,
            ) && unknown_in(stmts, bytes, reg)[k].1 == newline_count(
                bytes.subrange(0, unknown_commands_of(stmts, reg)[k]->Command_0.span.0),
            ) + 1,
    decreases stmts.len(),
{
    reveal_with_fuel(Seq::filter, 1);
    if stmts.len() > 0 {
        lemma_unknown_listing(stmts.drop_last(), bytes, reg);
        let l = stmts.last();
        assert(unknown_commands_of(stmts, reg) == if l is Command && !reg.knows(l->Command_0.name) {
            unknown_commands_of(stmts.drop_last(), reg).push(l)
        } else {
            unknown_commands_of(stmts.drop_last(), reg)
        });
    }
}

/// Name and line pairs as values.
pub open spec fn name_lines(v: Seq<(String, usize)>) -> Seq<(Seq<char>, nat)> {
    v.map_values(|p: (String, usize)| (p.0@, p.1 as nat))
}

/// Whether every command of a file starts within the source's bytes.
pub open spec fn spans_within(stmts: Seq<SStatement>, len: nat) -> bool {
    forall|i: int| 0 <= i < stmts.len() ==> (#[trigger] stmts[i] matches SStatement::Command(c) ==> 0 <= c.span.0 <= len)
}

fn newlines_before(b: &[u8], end: usize) -> (r: usize)
    requires
        end <= b@.len(),
    ensures
        r == newline_count(b@.subrange(0, end as int)),
        r <= end,
{
    let mut n: usize = 0;
    let mut i: usize = 0;
    assert(b@.subrange(0, 0) =~= Seq::<u8>::empty());
    while i < end
        invariant
            i <= end <= b@.len(),
            n == newline_count(b@.subrange(0, i as int)),
            n <= i,
        decreases end - i,
    {
        assert(b@.subrange(0, i + 1).drop_last() =~= b@.subrange(0, i as int));
        if b[i] == 10u8 {
            n += 1;
        }
        i += 1;
    }
    n
}

/// The commands of a file that the registry does not know, with the line
/// each starts on in `source`.
pub fn unknown_commands(file: &File, source: &str, registry: &CommandRegistry) -> (r: Vec<(String, usize)>)
    requires
        spans_within(file@, encode_utf8(source@).len()),
        encode_utf8(source@).len() < usize::MAX,
    ensures
        name_lines(r@) == unknown_in(file@, encode_utf8(source@), *registry),
{
    let bytes = source.as_bytes();
    let ghost bv = encode_utf8(source@);
    assert(bytes@ == bv);
    let mut out: Vec<(String, usize)> = Vec::new();
    let mut i: usize = 0;
    assert(file@.subrange(0, 0) =~= Seq::<SStatement>::empty());
    assert(name_lines(out@) =~= Seq::<(Seq<char>, nat)>::empty());
    while i < file.statements.len()
        invariant
            i <= file.statements@.len(),
            bytes@ == bv,
            bv == encode_utf8(source@),
            bv.len() < usize::MAX,
            spans_within(file@, bv.len()),
            name_lines(out@) == unknown_in(file@.subrange(0, i as int), bv, *registry),
        decreases file.statements@.len() - i,
    {
        let ghost pre = out@;
        let ghost sub = file@.subrange(0, i + 1);
        assert(sub.drop_last() =~= file@.subrange(0, i as int));
        assert(sub.last() == file@[i as int]);
        assert(file@[i as int] == file.statements@[i as int]@);
        if let Statement::Command(command) = &file.statements[i] {
            if !registry.contains_builtin(command.name.as_str()) {
                assert(file@[i as int] matches SStatement::Command(c) ==> 0 <= c.span.0 <= bv.len());
                let n = newlines_before(bytes, command.span.0);
                let name = to_lower(command.name.as_str());
                out.push((name, n + 1));
                assert(name_lines(out@) =~= name_lines(pre).push((name@, (n + 1) as nat)));
            }
        }
        i += 1;
    }
    assert(file@.subrange(0, file.statements@.len() as int) =~= file@);
    out
}

/// The version a run requires, as given: without surrounding white space
/// and leading `v`s.
pub open spec fn required_version_text(required: Seq<char>) -> Seq<char> {
    let t = crate::text::trim(required);
    t.subrange(crate::text::lead_count(t, 'v') as int, t.len() as int)
}

/// Check a required version against the current one.
pub fn check_required_version(required: Option<&str>, current: &str) -> (r: crate::error::Result<()>)
    ensures
        match required {
            None => r is Ok,
            Some(q) => if required_version_text(q@) == current@ {
                r is Ok
            } else {
                r matches Err(Error::Formatter(m)) && m@ == "required cmakefmt version "@ + required_version_text(q@)
                    + " does not match current version "@ + current@
            },
        },
{
    let required = match required {
        Some(q) => q,
        None => {
            return Ok(());
        },
    };
    let trimmed = crate::text::trim_str(required);
    let v = crate::text::chars_of(trimmed.as_str());
    let lead = crate::text::count_lead(&v, 'v');
    let wanted = crate::text::string_of(&v, lead, v.len());
    if crate::text::str_eq(wanted.as_str(), current) {
        Ok(())
    } else {
        let mut m = owned("required cmakefmt version ");
        push_str(&mut m, wanted.as_str());
        push_str(&mut m, " does not match current version ");
        push_str(&mut m, current);
        Err(Error::Formatter(m))
    }
}

// ── Per-input outcomes ──────────────────────────────────────────────────────

/// A unified diff of two texts by lines, with three lines of context and the
/// given file headers, as `similar` renders it.
pub uninterp spec fn unified_diff_of(a_header: Seq<char>, b_header: Seq<char>, source: Seq<char>, formatted: Seq<char>) -> Seq<
    char,
>;

/// Trusted: `similar::TextDiff::from_lines(source, formatted)
/// .unified_diff().context_radius(3).header(a, b).to_string()`. Its result
/// is named `unified_diff_of`; the diff algorithm is not restated here.
#[verifier::external_body]
fn unified_diff_text(a_header: &str, b_header: &str, source: &str, formatted: &str) -> (r: String)
    ensures
        r@ == unified_diff_of(a_header@, b_header@, source@, formatted@),
{
    similar::TextDiff::from_lines(source, formatted).unified_diff().context_radius(3).header(a_header, b_header).to_string()
}

/// A unified diff of an input and its formatting, headed `a/NAME` and
/// `b/NAME`.
pub fn build_unified_diff(display_name: &str, source: &str, formatted: &str) -> (r: String)
    ensures
        r@ == unified_diff_of("a/"@ + display_name@, "b/"@ + display_name@, source@, formatted@),
{
    let mut a = owned("a/");
    push_str(&mut a, display_name);
    let mut b = owned("b/");
    push_str(&mut b, display_name);
    unified_diff_text(a.as_str(), b.as_str(), source, formatted)
}

/// The outcome of an input skipped for lack of an opt-in pragma (or another
/// reason): unchanged, with its line count.
pub fn skipped_target(
    path: Option<String>,
    display_name: String,
    source: String,
    reason: String,
    debug: bool,
) -> (r: ProcessedTarget)
    ensures
        r.skipped && !r.would_change,
        r.skip_reason matches Some(s) && s@ == reason@,
        r.formatted@ == source@,
        r.display_name@ == display_name@,
        r.path == path,
        r.source_lines == r.formatted_lines,
        r.source_lines as nat == lines_of(source@).len(),
        r.changed_lines@.len() == 0,
        r.highlighted_output is None && r.unified_diff is None,
        debug ==> strs(r.debug_lines@) == seq![
            "processing "@ + display_name@,
            "skipped "@ + display_name@ + ": "@ + reason@,
        ],
        !debug ==> r.debug_lines@.len() == 0,
{
    let mut debug_lines: Vec<String> = Vec::new();
    if debug {
        let mut a = owned("processing ");
        push_str(&mut a, display_name.as_str());
        let mut b = owned("skipped ");
        push_str(&mut b, display_name.as_str());
        push_str(&mut b, ": ");
        push_str(&mut b, reason.as_str());
        debug_lines.push(a);
        debug_lines.push(b);
        assert(strs(debug_lines@) =~= seq![
            "processing "@ + display_name@,
            "skipped "@ + display_name@ + ": "@ + reason@,
        ]);
    }
    let source_lines = crate::diagnostics::text_lines(source.as_str()).len();
    ProcessedTarget {
        path,
        display_name,
        formatted_lines: source_lines,
        formatted: source,
        highlighted_output: None,
        unified_diff: None,
        changed_lines: Vec::new(),
        would_change: false,
        skipped: true,
        skip_reason: Some(reason),
        debug_lines,
        source_lines,
        elapsed_ms: 0,
        elapsed_text: String::new(),
    }
}

/// The outcome of a formatted input: whether it changes, its line counts,
/// its changed lines when wanted, its highlighted output when the output is
/// coloured and it changes, and its unified diff when wanted and it changes.
pub fn processed_target(
    path: Option<String>,
    display_name: String,
    source: &str,
    formatted: String,
    debug_lines: Vec<String>,
    want_changed_lines: bool,
    colorize_stdout: bool,
    want_diff: bool,
) -> (r: ProcessedTarget)
    ensures
        r.would_change == (formatted@ != source@),
        r.formatted@ == formatted@,
        r.display_name@ == display_name@,
        r.path == path,
        !r.skipped && r.skip_reason is None,
        r.source_lines as nat == lines_of(source@).len(),
        r.formatted_lines as nat == lines_of(formatted@).len(),
        want_changed_lines ==> r.changed_lines@.map_values(|x: usize| x as nat) == marked_numbers(
            changed_mask(lines_with_endings(source@), lines_with_endings(formatted@)),
        ),
        !want_changed_lines ==> r.changed_lines@.len() == 0,
        colorize_stdout && formatted@ != source@ ==> (r.highlighted_output matches Some(h) && h@ == highlight_text(
            source@,
            formatted@,
        )),
        !(colorize_stdout && formatted@ != source@) ==> r.highlighted_output is None,
        want_diff && formatted@ != source@ ==> (r.unified_diff matches Some(d) && d@ == unified_diff_of(
            "a/"@ + display_name@,
            "b/"@ + display_name@,
            source@,
            formatted@,
        )),
        !(want_diff && formatted@ != source@) ==> r.unified_diff is None,
        r.debug_lines@ == debug_lines@,
{
    let would_change = !crate::text::str_eq(formatted.as_str(), source);
    let source_lines = crate::diagnostics::text_lines(source).len();
    let formatted_lines = crate::diagnostics::text_lines(formatted.as_str()).len();
    let changed_lines = if want_changed_lines {
        changed_formatted_line_numbers(&split_lines_with_endings(source), &split_lines_with_endings(formatted.as_str()))
    } else {
        Vec::new()
    };
    let highlighted_output = if colorize_stdout && would_change {
        Some(highlight_changed_lines(source, formatted.as_str()))
    } else {
        None
    };
    let unified_diff = if would_change && want_diff {
        Some(build_unified_diff(display_name.as_str(), source, formatted.as_str()))
    } else {
        None
    };
    ProcessedTarget {
        path,
        display_name,
        formatted,
        highlighted_output,
        unified_diff,
        changed_lines,
        would_change,
        skipped: false,
        skip_reason: None,
        debug_lines,
        source_lines,
        formatted_lines,
        elapsed_ms: 0,
        elapsed_text: String::new(),
    }
}

/// Check that formatting kept the parsed CMake structure: both texts parse
/// (a parse error is reported under the input's name) and their semantic
/// skeletons are equal.
pub fn verify_semantics(original: &str, formatted: &str, registry: &CommandRegistry, display_name: &str) -> (r:
    crate::error::Result<()>)
    ensures
        match (parse_spec(original@), parse_spec(formatted@)) {
            (Ok(a), Ok(b)) => if normalized_file(a, *registry) == normalized_file(b, *registry) {
                r is Ok
            } else {
                r matches Err(Error::Formatter(m)) && m@ == display_name@
                    + ": semantic verification failed; formatted output changes the parsed CMake structure"@
            },
            (Err(_), _) => r matches Err(e) && named_parse_failure(original@, display_name@, e),
            (Ok(_), Err(_)) => r matches Err(e) && named_parse_failure(formatted@, display_name@, e),
        },
{
    let a = match parse(original) {
        Ok(f) => f,
        Err(e) => {
            return Err(e.with_display_name(display_name));
        },
    };
    let b = match parse(formatted) {
        Ok(f) => f,
        Err(e) => {
            return Err(e.with_display_name(display_name));
        },
    };
    let na = normalize_semantics(a, registry);
    let nb = normalize_semantics(b, registry);
    if crate::semantic::files_equal(&na, &nb) {
        Ok(())
    } else {
        let mut m = owned(display_name);
        push_str(&mut m, ": semantic verification failed; formatted output changes the parsed CMake structure");
        Err(Error::Formatter(m))
    }
}

} // verus!
