//! Human-facing summaries and machine-report text for a formatting run.

use vstd::prelude::*;
use crate::text::{contains, contains_str, decimal, digit, occurs_at, owned, push_char, push_str, starts_with, usize_to_string};

verus! {

broadcast use vstd::string::group_string_axioms;

/// What a run learned about one input: what the summaries and reports show.
pub struct ProcessedTarget {
    /// The path of the input, when it is a file.
    pub path: Option<String>,
    /// The name shown for the input.
    pub display_name: String,
    /// The formatted text.
    pub formatted: String,
    /// The formatted text with changed lines highlighted, when requested.
    pub highlighted_output: Option<String>,
    /// The unified diff between the input and its formatting, when requested.
    pub unified_diff: Option<String>,
    /// 1-based numbers of the formatted lines that changed.
    pub changed_lines: Vec<usize>,
    /// Whether formatting changes the input.
    pub would_change: bool,
    /// Whether the input was skipped.
    pub skipped: bool,
    /// Why the input was skipped.
    pub skip_reason: Option<String>,
    /// Debug lines collected while formatting.
    pub debug_lines: Vec<String>,
    /// Number of lines of the input.
    pub source_lines: usize,
    /// Number of lines of the formatted text.
    pub formatted_lines: usize,
    /// Time spent on the input, in whole milliseconds.
    pub elapsed_ms: u64,
    /// Time spent on the input, as shown to people (`<1ms`, `42ms`, `1.25s`).
    pub elapsed_text: String,
}

/// An input that failed, with its rendered error.
pub struct FailedTarget {
    pub display_name: String,
    pub rendered_error: String,
}

/// Counts over a run.
#[derive(Debug, Clone, Copy, PartialEq, Eq, Default)]
pub struct RunSummary {
    pub selected: usize,
    pub changed: usize,
    pub unchanged: usize,
    pub skipped: usize,
    pub failed: usize,
    pub total_changed_lines: usize,
}

// ── Summary lines ───────────────────────────────────────────────────────────

/// The two-line summary of one processed input.
pub open spec fn summary_line_text(
    display_name: Seq<char>,
    would_change: bool,
    skipped: bool,
    skip_reason: Option<Seq<char>>,
    changed_lines: nat,
    source_lines: nat,
    formatted_lines: nat,
    elapsed: Seq<char>,
    colorize: bool,
) -> Seq<char> {
    if skipped {
        let reason = match skip_reason {
            Some(r) => r,
            None => "skipped"@,
        };
        if colorize {
            "\u{1b}[2m-\u{1b}[0m "@ + display_name + "\n  \u{2514}\u{2500} \u{1b}[2mskipped ("@ + reason
                + ")\u{1b}[0m"@
        } else {
            "[-]  "@ + display_name + "\n     skipped ("@ + reason + ")"@
        }
    } else if would_change {
        let line_counts = if source_lines == formatted_lines {
            decimal(source_lines) + " lines"@
        } else {
            decimal(source_lines) + " \u{2192} "@ + decimal(formatted_lines) + " lines"@
        };
        let detail = decimal(changed_lines) + " lines changed, "@ + line_counts + ", "@ + elapsed;
        if colorize {
            "\u{1b}[1;93m!\u{1b}[0m "@ + display_name + "\n  \u{2514}\u{2500} "@ + detail
        } else {
            "[!]  "@ + display_name + "\n     "@ + detail
        }
    } else {
        let detail = "unchanged, "@ + decimal(source_lines) + " lines, "@ + elapsed;
        if colorize {
            "\u{1b}[1;92m\u{2714}\u{1b}[0m \u{1b}[2m"@ + display_name + "\u{1b}[0m\n  \u{2514}\u{2500} \u{1b}[2m"@
                + detail + "\u{1b}[0m"@
        } else {
            "[ok] "@ + display_name + "\n     "@ + detail
        }
    }
}

/// The plain summary of an input is marked by what happened to it: `[-]`
/// when it was skipped, `[!]` when it would change, `[ok]` otherwise, and
/// names the input right after the mark.
pub proof fn lemma_summary_marks(
    display_name: Seq<char>,
    would_change: bool,
    skipped: bool,
    skip_reason: Option<Seq<char>>,
    changed_lines: nat,
    source_lines: nat,
    formatted_lines: nat,
    elapsed: Seq<char>,
)
    ensures
        ({
            let t = summary_line_text(
                display_name,
                would_change,
                skipped,
                skip_reason,
                changed_lines,
                source_lines,
                formatted_lines,
                elapsed,
                false,
            );
            let mark = if skipped {
                "[-]  "@
            } else if would_change {
                "[!]  "@
            } else {
                "[ok] "@
            };
            starts_with(t, mark + display_name)
        }),
{
    let t = summary_line_text(
        display_name,
        would_change,
        skipped,
        skip_reason,
        changed_lines,
        source_lines,
        formatted_lines,
        elapsed,
        false,
    );
    let mark = if skipped {
        "[-]  "@
    } else if would_change {
        "[!]  "@
    } else {
        "[ok] "@
    };
    let p = mark + display_name;
    assert(t.subrange(0, p.len() as int) =~= p);
}

/// The text of an optional string.
pub open spec fn opt_string(o: Option<String>) -> Option<Seq<char>> {
    match o {
        Some(s) => Some(s@),
        None => None,
    }
}

/// The two-line summary of one processed input: a status mark and its name,
/// then what happened to it.
pub fn render_summary_line(result: &ProcessedTarget, colorize: bool) -> (r: String)
    ensures
        r@ == summary_line_text(
            result.display_name@,
            result.would_change,
            result.skipped,
            opt_string(result.skip_reason),
            result.changed_lines@.len(),
            result.source_lines as nat,
            result.formatted_lines as nat,
            result.elapsed_text@,
            colorize,
        ),
{
    let name = result.display_name.as_str();
    if result.skipped {
        let reason = match &result.skip_reason {
            Some(r) => r.as_str(),
            None => "skipped",
        };
        let mut out = if colorize {
            owned("\u{1b}[2m-\u{1b}[0m ")
        } else {
            owned("[-]  ")
        };
        push_str(&mut out, name);
        if colorize {
            push_str(&mut out, "\n  \u{2514}\u{2500} \u{1b}[2mskipped (");
            push_str(&mut out, reason);
            push_str(&mut out, ")\u{1b}[0m");
        } else {
            push_str(&mut out, "\n     skipped (");
            push_str(&mut out, reason);
            push_str(&mut out, ")");
        }
        return out;
    }
    if result.would_change {
        let mut detail = usize_to_string(result.changed_lines.len());
        push_str(&mut detail, " lines changed, ");
        push_str(&mut detail, usize_to_string(result.source_lines).as_str());
        if result.source_lines == result.formatted_lines {
            push_str(&mut detail, " lines");
        } else {
            push_str(&mut detail, " \u{2192} ");
            push_str(&mut detail, usize_to_string(result.formatted_lines).as_str());
            push_str(&mut detail, " lines");
        }
        push_str(&mut detail, ", ");
        push_str(&mut detail, result.elapsed_text.as_str());
        let mut out = if colorize {
            owned("\u{1b}[1;93m!\u{1b}[0m ")
        } else {
            owned("[!]  ")
        };
        push_str(&mut out, name);
        if colorize {
            push_str(&mut out, "\n  \u{2514}\u{2500} ");
        } else {
            push_str(&mut out, "\n     ");
        }
        push_str(&mut out, detail.as_str());
        return out;
    }
    let mut detail = owned("unchanged, ");
    push_str(&mut detail, usize_to_string(result.source_lines).as_str());
    push_str(&mut detail, " lines, ");
    push_str(&mut detail, result.elapsed_text.as_str());
    if colorize {
        let mut out = owned("\u{1b}[1;92m\u{2714}\u{1b}[0m \u{1b}[2m");
        push_str(&mut out, name);
        push_str(&mut out, "\u{1b}[0m\n  \u{2514}\u{2500} \u{1b}[2m");
        push_str(&mut out, detail.as_str());
        push_str(&mut out, "\u{1b}[0m");
        out
    } else {
        let mut out = owned("[ok] ");
        push_str(&mut out, name);
        push_str(&mut out, "\n     ");
        push_str(&mut out, detail.as_str());
        out
    }
}

/// The two-line summary of an input that failed to parse.
pub open spec fn summary_failed_text(display_name: Seq<char>, colorize: bool) -> Seq<char> {
    if colorize {
        "\u{1b}[1;91m\u{2717}\u{1b}[0m "@ + display_name + "\n  \u{2514}\u{2500} \u{1b}[91mparse error\u{1b}[0m"@
    } else {
        "[!!] "@ + display_name + "\n     parse error"@
    }
}

/// The two-line summary of an input that failed to parse.
pub fn render_summary_failed_line(display_name: &str, colorize: bool) -> (r: String)
    ensures
        r@ == summary_failed_text(display_name@, colorize),
{
    if colorize {
        let mut out = owned("\u{1b}[1;91m\u{2717}\u{1b}[0m ");
        push_str(&mut out, display_name);
        push_str(&mut out, "\n  \u{2514}\u{2500} \u{1b}[91mparse error\u{1b}[0m");
        out
    } else {
        let mut out = owned("[!!] ");
        push_str(&mut out, display_name);
        push_str(&mut out, "\n     parse error");
        out
    }
}

/// The run summary line: counts, skipped only when some were, and the
/// elapsed time only when a millisecond or more passed.
pub open spec fn human_summary_text(s: RunSummary, elapsed_ms: nat, elapsed_seconds: Seq<char>) -> Seq<char> {
    "summary: selected="@ + decimal(s.selected as nat) + ", changed="@ + decimal(s.changed as nat)
        + ", unchanged="@ + decimal(s.unchanged as nat) + (if s.skipped > 0 {
        ", skipped="@ + decimal(s.skipped as nat)
    } else {
        Seq::<char>::empty()
    }) + ", failed="@ + decimal(s.failed as nat) + (if elapsed_ms > 0 {
        " in "@ + elapsed_seconds
    } else {
        Seq::<char>::empty()
    })
}

/// The run summary names each count after what it counts: it begins with
/// the selected, changed and unchanged counts, in that order, shows the
/// skipped count only when some input was skipped, and always shows the
/// failed count.
pub proof fn lemma_summary_counts(s: RunSummary, elapsed_ms: nat, elapsed_seconds: Seq<char>)
    ensures
        starts_with(
            human_summary_text(s, elapsed_ms, elapsed_seconds),
            "summary: selected="@ + decimal(s.selected as nat) + ", changed="@ + decimal(s.changed as nat)
                + ", unchanged="@ + decimal(s.unchanged as nat),
        ),
        contains(human_summary_text(s, elapsed_ms, elapsed_seconds), ", failed="@ + decimal(s.failed as nat)),
        s.skipped > 0 ==> contains(human_summary_text(s, elapsed_ms, elapsed_seconds), ", skipped="@ + decimal(
            s.skipped as nat,
        )),
{
    let h = "summary: selected="@ + decimal(s.selected as nat) + ", changed="@ + decimal(s.changed as nat)
        + ", unchanged="@ + decimal(s.unchanged as nat);
    let sk = if s.skipped > 0 {
        ", skipped="@ + decimal(s.skipped as nat)
    } else {
        Seq::<char>::empty()
    };
    let f = ", failed="@ + decimal(s.failed as nat);
    let el = if elapsed_ms > 0 {
        " in "@ + elapsed_seconds
    } else {
        Seq::<char>::empty()
    };
    let t = human_summary_text(s, elapsed_ms, elapsed_seconds);
    assert(t =~= h + sk + f + el);
    assert(t.subrange(0, h.len() as int) =~= h);
    assert(occurs_at(f, f, 0)) by {
        assert(f.subrange(0, f.len() as int) =~= f);
    }
    lemma_contains_within(h + sk, f, el, f);
    assert(h + sk + f + el =~= (h + sk) + f + el);
    if s.skipped > 0 {
        assert(occurs_at(sk, sk, 0)) by {
            assert(sk.subrange(0, sk.len() as int) =~= sk);
        }
        lemma_contains_within(h, sk, f + el, sk);
        assert(h + sk + (f + el) =~= t);
    }
}

/// The run summary line. `elapsed_seconds` is the elapsed time in seconds
/// with two decimals and an `s` (such as `1.25s`).
pub fn render_human_summary(summary: &RunSummary, elapsed_ms: u64, elapsed_seconds: &str) -> (r: String)
    ensures
        r@ == human_summary_text(*summary, elapsed_ms as nat, elapsed_seconds@),
{
    let mut out = owned("summary: selected=");
    push_str(&mut out, usize_to_string(summary.selected).as_str());
    push_str(&mut out, ", changed=");
    push_str(&mut out, usize_to_string(summary.changed).as_str());
    push_str(&mut out, ", unchanged=");
    push_str(&mut out, usize_to_string(summary.unchanged).as_str());
    let ghost head = out@;
    if summary.skipped > 0 {
        push_str(&mut out, ", skipped=");
        push_str(&mut out, usize_to_string(summary.skipped).as_str());
    }
    let ghost with_skipped = out@;
    push_str(&mut out, ", failed=");
    push_str(&mut out, usize_to_string(summary.failed).as_str());
    let ghost with_failed = out@;
    if elapsed_ms > 0 {
        push_str(&mut out, " in ");
        push_str(&mut out, elapsed_seconds);
    }
    assert(out@ =~= human_summary_text(*summary, elapsed_ms as nat, elapsed_seconds@));
    out
}

/// `N file(s) changed, M line(s) reformatted`.
pub open spec fn stat_summary_text(s: RunSummary) -> Seq<char> {
    decimal(s.changed as nat) + (if s.changed == 1 {
        " file changed"@
    } else {
        " files changed"@
    }) + ", "@ + decimal(s.total_changed_lines as nat) + (if s.total_changed_lines == 1 {
        " line reformatted"@
    } else {
        " lines reformatted"@
    })
}

/// `N file(s) changed, M line(s) reformatted`.
pub fn render_stat_summary(summary: &RunSummary) -> (r: String)
    ensures
        r@ == stat_summary_text(*summary),
{
    let mut out = usize_to_string(summary.changed);
    if summary.changed == 1 {
        push_str(&mut out, " file changed");
    } else {
        push_str(&mut out, " files changed");
    }
    push_str(&mut out, ", ");
    push_str(&mut out, usize_to_string(summary.total_changed_lines).as_str());
    if summary.total_changed_lines == 1 {
        push_str(&mut out, " line reformatted");
    } else {
        push_str(&mut out, " lines reformatted");
    }
    out
}

/// ` (parallel jobs: N)` for more than one job, else nothing.
pub fn debug_parallel_suffix(parallel_jobs: usize) -> (r: String)
    ensures
        r@ == if parallel_jobs > 1 {
            " (parallel jobs: "@ + decimal(parallel_jobs as nat) + ")"@
        } else {
            Seq::<char>::empty()
        },
{
    if parallel_jobs > 1 {
        let mut out = owned(" (parallel jobs: ");
        push_str(&mut out, usize_to_string(parallel_jobs).as_str());
        push_str(&mut out, ")");
        out
    } else {
        String::new()
    }
}

// ── Escapes ─────────────────────────────────────────────────────────────────

/// The XML escape of one character.
pub open spec fn xml_char(c: char) -> Seq<char> {
    if c == '&' {
        "&amp;"@
    } else if c == '"' {
        "&quot;"@
    } else if c == '<' {
        "&lt;"@
    } else if c == '>' {
        "&gt;"@
    } else if c == '\'' {
        "&apos;"@
    } else {
        seq![c]
    }
}

/// A text with each character escaped by `esc`.
pub open spec fn escaped(s: Seq<char>, esc: spec_fn(char) -> Seq<char>) -> Seq<char>
    decreases s.len(),
{
    if s.len() == 0 {
        Seq::empty()
    } else {
        escaped(s.drop_last(), esc) + esc(s.last())
    }
}

/// The escape of one character in a GitHub workflow command.
pub open spec fn github_char(c: char) -> Seq<char> {
    if c == '%' {
        "%25"@
    } else if c == '\r' {
        "%0D"@
    } else if c == '\n' {
        "%0A"@
    } else {
        seq![c]
    }
}

fn xml_char_str(c: char) -> (r: String)
    ensures
        r@ == xml_char(c),
{
    if c == '&' {
        owned("&amp;")
    } else if c == '"' {
        owned("&quot;")
    } else if c == '<' {
        owned("&lt;")
    } else if c == '>' {
        owned("&gt;")
    } else if c == '\'' {
        owned("&apos;")
    } else {
        let mut s = String::new();
        push_char(&mut s, c);
        assert(s@ =~= seq![c]);
        s
    }
}

fn github_char_str(c: char) -> (r: String)
    ensures
        r@ == github_char(c),
{
    if c == '%' {
        owned("%25")
    } else if c == '\r' {
        owned("%0D")
    } else if c == '\n' {
        owned("%0A")
    } else {
        let mut s = String::new();
        push_char(&mut s, c);
        assert(s@ =~= seq![c]);
        s
    }
}

/// A text with `&`, `"`, `<`, `>` and `'` escaped for XML.
pub fn xml_escape(value: &str) -> (r: String)
    ensures
        r@ == escaped(value@, |c: char| xml_char(c)),
{
    let v = crate::text::chars_of(value);
    let mut out = String::new();
    let mut i: usize = 0;
    while i < v.len()
        invariant
            i <= v@.len(),
            v@ == value@,
            out@ == escaped(v@.subrange(0, i as int), |c: char| xml_char(c)),
        decreases v@.len() - i,
    {
        push_str(&mut out, xml_char_str(v[i]).as_str());
        assert(v@.subrange(0, i + 1).drop_last() =~= v@.subrange(0, i as int));
        i += 1;
    }
    assert(v@.subrange(0, v@.len() as int) =~= v@);
    out
}

/// A text with `%`, carriage returns and newlines escaped for a GitHub
/// workflow command property.
pub fn github_escape_property(value: &str) -> (r: String)
    ensures
        r@ == escaped(value@, |c: char| github_char(c)),
{
    let v = crate::text::chars_of(value);
    let mut out = String::new();
    let mut i: usize = 0;
    while i < v.len()
        invariant
            i <= v@.len(),
            v@ == value@,
            out@ == escaped(v@.subrange(0, i as int), |c: char| github_char(c)),
        decreases v@.len() - i,
    {
        push_str(&mut out, github_char_str(v[i]).as_str());
        assert(v@.subrange(0, i + 1).drop_last() =~= v@.subrange(0, i as int));
        i += 1;
    }
    assert(v@.subrange(0, v@.len() as int) =~= v@);
    out
}

/// A GitHub workflow command message: escaped as a property is.
pub fn github_escape_message(value: &str) -> (r: String)
    ensures
        r@ == escaped(value@, |c: char| github_char(c)),
{
    github_escape_property(value)
}

// ── Pragmas and line ranges ─────────────────────────────────────────────────

/// Whether a source opts in to formatting: some line holds
/// `cmakefmt: enable`, `fmt: enable` or `cmake-format: enable`. (None of the
/// markers spans a line break or starts or ends with white space, so this
/// is the same as the source holding one.)
pub open spec fn has_pragma(s: Seq<char>) -> bool {
    contains(s, "cmakefmt: enable"@) || contains(s, "fmt: enable"@) || contains(s, "cmake-format: enable"@)
}

/// Whether a source opts in to formatting.
pub fn has_enable_pragma(source: &str) -> (r: bool)
    ensures
        r == has_pragma(source@),
{
    contains_str(source, "cmakefmt: enable") || contains_str(source, "fmt: enable") || contains_str(
        source,
        "cmake-format: enable",
    )
}

/// An inclusive range of 1-based line numbers.
#[derive(Debug, Clone, Copy, PartialEq, Eq)]
pub struct LineRange {
    pub start: usize,
    pub end: usize,
}

impl LineRange {
    /// Whether a line number lies in the range.
    pub fn contains(&self, line: usize) -> (r: bool)
        ensures
            r == (self.start <= line && line <= self.end),
    {
        self.start <= line && line <= self.end
    }
}

/// Whether every character is an ASCII digit.
pub open spec fn all_digits(s: Seq<char>) -> bool {
    forall|i: int| 0 <= i < s.len() ==> '0' <= #[trigger] s[i] <= '9'
}

/// The value of a string of ASCII digits.
pub open spec fn digits_value(s: Seq<char>) -> nat
    decreases s.len(),
{
    if s.len() == 0 {
        0
    } else {
        digits_value(s.drop_last()) * 10 + (s.last() as nat - '0' as nat) as nat
    }
}

/// What `usize::from_str` accepts: an optional `+`, then one or more ASCII
/// digits whose value fits in a `usize`.
pub open spec fn parse_uint(s: Seq<char>) -> Option<nat> {
    let body = if s.len() > 0 && s[0] == '+' {
        s.subrange(1, s.len() as int)
    } else {
        s
    };
    if body.len() == 0 || !all_digits(body) || digits_value(body) > usize::MAX {
        None
    } else {
        Some(digits_value(body))
    }
}

/// Decimal text is non-empty, made of ASCII digits, and has the value of
/// the number it renders.
pub proof fn lemma_decimal_digits(n: nat)
    ensures
        decimal(n).len() > 0,
        all_digits(decimal(n)),
        digits_value(decimal(n)) == n,
    decreases n,
{
    let d = n % 10;
    assert(digit(d) as nat == d + 48);
    if n >= 10 {
        lemma_decimal_digits(n / 10);
        let s = decimal(n);
        assert(s.drop_last() =~= decimal(n / 10));
        assert(s.last() == digit(d));
        assert forall|i: int| 0 <= i < s.len() implies '0' <= #[trigger] s[i] <= '9' by {
            if i < s.len() - 1 {
                assert(s[i] == decimal(n / 10)[i]);
            }
        }
        assert(('0' as nat) == 48);
        assert((s.last() as nat - '0' as nat) as nat == d);
        assert(digits_value(s) == digits_value(decimal(n / 10)) * 10 + d);
        assert(n == (n / 10) * 10 + d);
    } else {
        let s = decimal(n);
        assert(s.drop_last() =~= Seq::<char>::empty());
        assert(s.last() == digit(d));
        assert(('0' as nat) == 48);
        assert(digits_value(s) == digits_value(s.drop_last()) * 10 + (s.last() as nat - '0' as nat) as nat);
        assert(digits_value(s) == d);
    }
}

/// Reading back a rendered number: the decimal text of any number that fits
/// in a `usize` parses to that number.
pub proof fn lemma_parse_decimal(n: nat)
    requires
        n <= usize::MAX,
    ensures
        parse_uint(decimal(n)) == Some(n),
{
    lemma_decimal_digits(n);
    let s = decimal(n);
    assert('0' <= s[0] <= '9');
}

/// Parse an unsigned integer as `usize::from_str` does.
pub fn parse_usize(s: &str) -> (r: Option<usize>)
    ensures
        match parse_uint(s@) {
            Some(v) => r == Some(v as usize),
            None => r is None,
        },
{
    let v = crate::text::chars_of(s);
    let start: usize = if v.len() > 0 && v[0] == '+' { 1 } else { 0 };
    let ghost body = if s@.len() > 0 && s@[0] == '+' { s@.subrange(1, s@.len() as int) } else { s@ };
    assert(body =~= v@.subrange(start as int, v@.len() as int));
    if start >= v.len() {
        return None;
    }
    let mut value: usize = 0;
    let mut i = start;
    while i < v.len()
        invariant
            start <= i <= v@.len(),
            start < v@.len(),
            v@ == s@,
            body == v@.subrange(start as int, v@.len() as int),
            body == (if s@.len() > 0 && s@[0] == '+' { s@.subrange(1, s@.len() as int) } else { s@ }),
            all_digits(v@.subrange(start as int, i as int)),
            value as nat == digits_value(v@.subrange(start as int, i as int)),
        decreases v@.len() - i,
    {
        let c = v[i];
        assert(v@.subrange(start as int, i + 1).drop_last() =~= v@.subrange(start as int, i as int));
        if !('0' <= c && c <= '9') {
            assert(body[i - start] == c);
            return None;
        }
        let d = (c as u32 - '0' as u32) as usize;
        assert(digits_value(v@.subrange(start as int, i + 1)) == value * 10 + d);
        assert(body.subrange(0, (i - start + 1) as int) =~= v@.subrange(start as int, i + 1));
        match value.checked_mul(10) {
            Some(m) => match m.checked_add(d) {
                Some(n) => {
                    value = n;
                },
                None => {
                    proof {
                        overflow_means_none(body, v@.subrange(start as int, i + 1), (i - start + 1) as int);
                    }
                    return None;
                },
            },
            None => {
                proof {
                    overflow_means_none(body, v@.subrange(start as int, i + 1), (i - start + 1) as int);
                }
                return None;
            },
        }
        i += 1;
    }
    assert(v@.subrange(start as int, v@.len() as int) =~= body);
    Some(value)
}

proof fn overflow_means_none(body: Seq<char>, prefix: Seq<char>, k: int)
    requires
        0 < k <= body.len(),
        prefix == body.subrange(0, k),
        digits_value(prefix) > usize::MAX,
    ensures
        !all_digits(body) || digits_value(body) > usize::MAX,
{
    if all_digits(body) {
        lemma_digits_value_grows(body, k);
    }
}

proof fn lemma_digits_value_grows(s: Seq<char>, k: int)
    requires
        0 <= k <= s.len(),
        all_digits(s),
    ensures
        digits_value(s.subrange(0, k)) <= digits_value(s),
    decreases s.len() - k,
{
    if k < s.len() {
        lemma_digits_value_grows(s, k + 1);
        assert(s.subrange(0, k + 1).drop_last() =~= s.subrange(0, k));
        assert(all_digits(s.subrange(0, k + 1)));
    } else {
        assert(s.subrange(0, k) =~= s);
    }
}

/// The outcome of parsing `START:END`: the range, or the message that
/// explains why not.
pub open spec fn line_range_result(s: Seq<char>) -> Result<(nat, nat), Seq<char>> {
    match crate::text::first_index(s, ':') {
        None => Err("expected START:END"@),
        Some(k) => match parse_uint(s.subrange(0, k)) {
            None => Err("line range start must be a positive integer"@),
            Some(a) => match parse_uint(s.subrange(k + 1, s.len() as int)) {
                None => Err("line range end must be a positive integer"@),
                Some(b) => if a == 0 || b == 0 {
                    Err("line ranges are 1-based"@)
                } else if b < a {
                    Err("line range end must be >= start"@)
                } else {
                    Ok((a, b))
                },
            },
        },
    }
}

/// Line ranges: `A:B` written in decimal reads as the range from `A` to `B`
/// when `1 <= A <= B`, and is refused when `B < A` or a bound is 0; a text
/// without `:` is refused.
pub proof fn lemma_line_range_text(a: nat, b: nat, s: Seq<char>)
    requires
        a <= usize::MAX,
        b <= usize::MAX,
    ensures
        1 <= a <= b ==> line_range_result(decimal(a) + ":"@ + decimal(b)) == Ok::<(nat, nat), Seq<char>>((a, b)),
        b < a ==> line_range_result(decimal(a) + ":"@ + decimal(b)) is Err,
        a == 0 || b == 0 ==> line_range_result(decimal(a) + ":"@ + decimal(b)) is Err,
        (forall|i: int| 0 <= i < s.len() ==> s[i] != ':') ==> line_range_result(s) is Err,
{
    reveal_strlit(":");
    let da = decimal(a);
    let db = decimal(b);
    let t = da + ":"@ + db;
    lemma_decimal_digits(a);
    lemma_decimal_digits(b);
    let k = da.len() as int;
    assert forall|j: int| 0 <= j < k implies t[j] != ':' by {
        assert(t[j] == da[j]);
        assert('0' <= da[j] <= '9');
    }
    assert(t[k] == ':');
    crate::text::lemma_first_index_is(t, ':', k);
    assert(t.subrange(0, k) =~= da);
    assert(t.subrange(k + 1, t.len() as int) =~= db);
    lemma_parse_decimal(a);
    lemma_parse_decimal(b);
    if forall|i: int| 0 <= i < s.len() ==> s[i] != ':' {
        crate::text::lemma_first_index_is(s, ':', s.len() as int);
    }
}

/// Parse a `START:END` line range.
pub fn parse_line_range(value: &str) -> (r: Result<LineRange, String>)
    ensures
        match line_range_result(value@) {
            Ok((a, b)) => r matches Ok(lr) && lr.start == a && lr.end == b,
            Err(m) => r matches Err(e) && e@ == m,
        },
{
    let v = crate::text::chars_of(value);
    let mut k: usize = 0;
    while k < v.len() && v[k] != ':'
        invariant
            k <= v@.len(),
            v@ == value@,
            forall|j: int| 0 <= j < k ==> v@[j] != ':',
        decreases v@.len() - k,
    {
        k += 1;
    }
    proof {
        crate::text::lemma_first_index_is(value@, ':', k as int);
    }
    if k >= v.len() {
        return Err(owned("expected START:END"));
    }
    let start_text = crate::text::string_of(&v, 0, k);
    let end_text = crate::text::string_of(&v, k + 1, v.len());
    let start = match parse_usize(start_text.as_str()) {
        Some(n) => n,
        None => {
            return Err(owned("line range start must be a positive integer"));
        },
    };
    let end = match parse_usize(end_text.as_str()) {
        Some(n) => n,
        None => {
            return Err(owned("line range end must be a positive integer"));
        },
    };
    if start == 0 || end == 0 {
        return Err(owned("line ranges are 1-based"));
    }
    if end < start {
        return Err(owned("line range end must be >= start"));
    }
    Ok(LineRange { start, end })
}

// ── Machine reports ─────────────────────────────────────────────────────────

/// A text escaped for XML.
pub open spec fn xml(s: Seq<char>) -> Seq<char> {
    escaped(s, |c: char| xml_char(c))
}

/// A text escaped for a GitHub workflow command.
pub open spec fn gh(s: Seq<char>) -> Seq<char> {
    escaped(s, |c: char| github_char(c))
}

/// Whether a character must be escaped in XML text and attributes.
pub open spec fn xml_special(c: char) -> bool {
    c == '&' || c == '"' || c == '<' || c == '>' || c == '\''
}

proof fn lemma_escaped_avoids(s: Seq<char>, esc: spec_fn(char) -> Seq<char>, bad: spec_fn(char) -> bool)
    requires
        forall|c: char, i: int| 0 <= i < esc(c).len() ==> !bad(#[trigger] esc(c)[i]),
    ensures
        forall|i: int| 0 <= i < escaped(s, esc).len() ==> !bad(#[trigger] escaped(s, esc)[i]),
    decreases s.len(),
{
    if s.len() > 0 {
        lemma_escaped_avoids(s.drop_last(), esc, bad);
        let a = escaped(s.drop_last(), esc);
        let b = esc(s.last());
        assert forall|i: int| 0 <= i < escaped(s, esc).len() implies !bad(#[trigger] escaped(s, esc)[i]) by {
            if i < a.len() {
                assert(escaped(s, esc)[i] == a[i]);
            } else {
                assert(escaped(s, esc)[i] == b[i - a.len()]);
            }
        }
    }
}

proof fn lemma_escaped_identity(s: Seq<char>, esc: spec_fn(char) -> Seq<char>)
    requires
        forall|i: int| 0 <= i < s.len() ==> esc(#[trigger] s[i]) == seq![s[i]],
    ensures
        escaped(s, esc) == s,
    decreases s.len(),
{
    if s.len() > 0 {
        assert forall|i: int| 0 <= i < s.drop_last().len() implies esc(#[trigger] s.drop_last()[i]) == seq![
            s.drop_last()[i],
        ] by {
            assert(s.drop_last()[i] == s[i]);
        }
        lemma_escaped_identity(s.drop_last(), esc);
        assert(esc(s[s.len() - 1]) == seq![s[s.len() - 1]]);
        assert(escaped(s, esc) =~= s);
    }
}

/// XML escaping: the escaped text holds no `"`, `<`, `>` or `'`, so it
/// cannot end an attribute or open a tag, and a text with none of `&`, `"`,
/// `<`, `>`, `'` is left as it is.
pub proof fn lemma_xml_escape(s: Seq<char>)
    ensures
        forall|i: int| 0 <= i < xml(s).len() ==> !(#[trigger] xml(s)[i] == '"' || xml(s)[i] == '<' || xml(s)[i]
            == '>' || xml(s)[i] == '\''),
        (forall|i: int| 0 <= i < s.len() ==> !xml_special(#[trigger] s[i])) ==> xml(s) == s,
{
    reveal_strlit("&amp;");
    reveal_strlit("&quot;");
    reveal_strlit("&lt;");
    reveal_strlit("&gt;");
    reveal_strlit("&apos;");
    let esc = |c: char| xml_char(c);
    let bad = |c: char| c == '"' || c == '<' || c == '>' || c == '\'';
    assert forall|c: char, i: int| 0 <= i < esc(c).len() implies !bad(#[trigger] esc(c)[i]) by {}
    lemma_escaped_avoids(s, esc, bad);
    if forall|i: int| 0 <= i < s.len() ==> !xml_special(#[trigger] s[i]) {
        lemma_escaped_identity(s, esc);
    }
}

/// GitHub workflow-command escaping: the escaped text holds no line breaks,
/// so an annotation stays on one line, and a text without `%`, CR or LF is
/// left as it is.
pub proof fn lemma_github_escape(s: Seq<char>)
    ensures
        forall|i: int| 0 <= i < gh(s).len() ==> !(#[trigger] gh(s)[i] == '\n' || gh(s)[i] == '\r'),
        (forall|i: int| 0 <= i < s.len() ==> !(#[trigger] s[i] == '%' || s[i] == '\n' || s[i] == '\r')) ==> gh(s)
            == s,
{
    reveal_strlit("%25");
    reveal_strlit("%0D");
    reveal_strlit("%0A");
    let esc = |c: char| github_char(c);
    let bad = |c: char| c == '\n' || c == '\r';
    assert forall|c: char, i: int| 0 <= i < esc(c).len() implies !bad(#[trigger] esc(c)[i]) by {}
    lemma_escaped_avoids(s, esc, bad);
    if forall|i: int| 0 <= i < s.len() ==> !(#[trigger] s[i] == '%' || s[i] == '\n' || s[i] == '\r') {
        lemma_escaped_identity(s, esc);
    }
}

/// The name a report gives a processed input: its path, else its display
/// name.
pub open spec fn report_name(t: ProcessedTarget) -> Seq<char> {
    match t.path {
        Some(p) => p@,
        None => t.display_name@,
    }
}

/// The line a report points at for a changed input: its first changed line,
/// else 1.
pub open spec fn first_changed(t: ProcessedTarget) -> nat {
    if t.changed_lines@.len() > 0 {
        t.changed_lines@[0] as nat
    } else {
        1
    }
}

/// The checkstyle entry of a processed input: a warning for one that would
/// change, nothing otherwise.
pub open spec fn checkstyle_result(t: ProcessedTarget) -> Seq<char> {
    if !t.would_change {
        Seq::empty()
    } else {
        "  <file name=\""@ + xml(report_name(t)) + "\">\n"@ + "    <error line=\""@ + decimal(first_changed(t))
            + "\" severity=\"warning\" source=\"cmakefmt.format\" message=\""@ + xml(
            "file would be reformatted by cmakefmt"@,
        ) + "\"/>\n"@ + "  </file>\n"@
    }
}

proof fn lemma_contains_within(a: Seq<char>, b: Seq<char>, c: Seq<char>, t: Seq<char>)
    requires
        contains(b, t),
    ensures
        contains(a + b + c, t),
{
    let i = choose|i: int| occurs_at(b, t, i);
    let s = a + b + c;
    assert(s.subrange(a.len() + i, a.len() + i + t.len()) =~= b.subrange(i, i + t.len()));
    assert(occurs_at(s, t, a.len() + i));
}

/// A checkstyle entry is written for an input exactly when it would be
/// reformatted; it names the input and holds a warning at its first changed
/// line from the `cmakefmt.format` source.
pub proof fn lemma_checkstyle_entry(t: ProcessedTarget)
    ensures
        (checkstyle_result(t).len() > 0) == t.would_change,
        t.would_change ==> starts_with(checkstyle_result(t), "  <file name=\""@ + xml(report_name(t)) + "\">\n"@),
        t.would_change ==> contains(
            checkstyle_result(t),
            "    <error line=\""@ + decimal(first_changed(t))
                + "\" severity=\"warning\" source=\"cmakefmt.format\" message=\""@,
        ),
{
    reveal_strlit("  <file name=\"");
    if t.would_change {
        let p = "  <file name=\""@ + xml(report_name(t)) + "\">\n"@;
        let q = "    <error line=\""@ + decimal(first_changed(t))
            + "\" severity=\"warning\" source=\"cmakefmt.format\" message=\""@;
        let rest = xml("file would be reformatted by cmakefmt"@) + "\"/>\n"@ + "  </file>\n"@;
        let r = checkstyle_result(t);
        assert(r =~= p + q + rest);
        assert(r.subrange(0, p.len() as int) =~= p);
        assert(occurs_at(q, q, 0)) by {
            assert(q.subrange(0, q.len() as int) =~= q);
        }
        lemma_contains_within(p, q, rest, q);
    }
}

proof fn lemma_results_contain(rs: Seq<ProcessedTarget>, e: spec_fn(ProcessedTarget) -> Seq<char>, k: int)
    requires
        0 <= k < rs.len(),
    ensures
        contains(concat_results(rs, e), e(rs[k])),
    decreases rs.len(),
{
    let x = e(rs[k]);
    if k == rs.len() - 1 {
        assert(occurs_at(x, x, 0)) by {
            assert(x.subrange(0, x.len() as int) =~= x);
        }
        lemma_contains_within(concat_results(rs.drop_last(), e), x, Seq::empty(), x);
        assert(concat_results(rs.drop_last(), e) + x + Seq::<char>::empty() =~= concat_results(rs, e));
    } else {
        assert(rs.drop_last()[k] == rs[k]);
        lemma_results_contain(rs.drop_last(), e, k);
        lemma_contains_within(Seq::empty(), concat_results(rs.drop_last(), e), e(rs.last()), x);
        assert(Seq::<char>::empty() + concat_results(rs.drop_last(), e) + e(rs.last()) =~= concat_results(rs, e));
    }
}

proof fn lemma_results_empty(rs: Seq<ProcessedTarget>, e: spec_fn(ProcessedTarget) -> Seq<char>)
    requires
        forall|k: int| 0 <= k < rs.len() ==> #[trigger] e(rs[k]).len() == 0,
    ensures
        concat_results(rs, e) == Seq::<char>::empty(),
    decreases rs.len(),
{
    if rs.len() > 0 {
        assert forall|k: int| 0 <= k < rs.drop_last().len() implies #[trigger] e(rs.drop_last()[k]).len() == 0 by {
            assert(rs.drop_last()[k] == rs[k]);
        }
        lemma_results_empty(rs.drop_last(), e);
        assert(e(rs[rs.len() - 1]).len() == 0);
        assert(concat_results(rs, e) =~= Seq::<char>::empty());
    }
}

/// A checkstyle report holds the entry of every input that would be
/// reformatted, and when no input would be, it is the report of the failures
/// alone.
pub proof fn lemma_checkstyle_report(rs: Seq<ProcessedTarget>, fs: Seq<FailedTarget>)
    ensures
        forall|k: int|
            0 <= k < rs.len() && rs[k].would_change ==> contains(checkstyle_text(rs, fs), #[trigger] checkstyle_result(rs[k])),
        (forall|k: int| 0 <= k < rs.len() ==> !(#[trigger] rs[k]).would_change) ==> checkstyle_text(rs, fs)
            == checkstyle_text(Seq::empty(), fs),
{
    let e = |t: ProcessedTarget| checkstyle_result(t);
    let head = "<?xml version=\"1.0\" encoding=\"utf-8\"?>\n"@ + "<checkstyle version=\"4.3\">\n"@;
    let tail = concat_failures(fs, |f: FailedTarget| checkstyle_failure(f)) + "</checkstyle>\n"@;
    assert(checkstyle_text(rs, fs) =~= head + concat_results(rs, e) + tail);
    assert forall|k: int| 0 <= k < rs.len() && rs[k].would_change implies contains(
        checkstyle_text(rs, fs),
        #[trigger] checkstyle_result(rs[k]),
    ) by {
        lemma_results_contain(rs, e, k);
        lemma_contains_within(head, concat_results(rs, e), tail, checkstyle_result(rs[k]));
    }
    if forall|k: int| 0 <= k < rs.len() ==> !(#[trigger] rs[k]).would_change {
        assert forall|k: int| 0 <= k < rs.len() implies #[trigger] e(rs[k]).len() == 0 by {
            lemma_checkstyle_entry(rs[k]);
        }
        lemma_results_empty(rs, e);
        assert(concat_results(Seq::<ProcessedTarget>::empty(), e) =~= Seq::<char>::empty());
        assert(checkstyle_text(Seq::empty(), fs) =~= head + concat_results(Seq::empty(), e) + tail);
    }
}

/// The checkstyle entry of a failed input.
pub open spec fn checkstyle_failure(f: FailedTarget) -> Seq<char> {
    "  <file name=\""@ + xml(f.display_name@) + "\">\n"@
        + "    <error severity=\"error\" source=\"cmakefmt.error\" message=\""@ + xml(f.rendered_error@)
        + "\"/>\n"@ + "  </file>\n"@
}

/// Entries of the processed inputs, concatenated.
pub open spec fn concat_results(rs: Seq<ProcessedTarget>, entry: spec_fn(ProcessedTarget) -> Seq<char>) -> Seq<char>
    decreases rs.len(),
{
    if rs.len() == 0 {
        Seq::empty()
    } else {
        concat_results(rs.drop_last(), entry) + entry(rs.last())
    }
}

/// Entries of the failed inputs, concatenated.
pub open spec fn concat_failures(fs: Seq<FailedTarget>, entry: spec_fn(FailedTarget) -> Seq<char>) -> Seq<char>
    decreases fs.len(),
{
    if fs.len() == 0 {
        Seq::empty()
    } else {
        concat_failures(fs.drop_last(), entry) + entry(fs.last())
    }
}

/// A checkstyle report.
pub open spec fn checkstyle_text(rs: Seq<ProcessedTarget>, fs: Seq<FailedTarget>) -> Seq<char> {
    "<?xml version=\"1.0\" encoding=\"utf-8\"?>\n"@ + "<checkstyle version=\"4.3\">\n"@ + concat_results(
        rs,
        |t: ProcessedTarget| checkstyle_result(t),
    ) + concat_failures(fs, |f: FailedTarget| checkstyle_failure(f)) + "</checkstyle>\n"@
}

fn name_for_report(t: &ProcessedTarget) -> (r: &str)
    ensures
        r@ == report_name(*t),
{
    match &t.path {
        Some(p) => p.as_str(),
        None => t.display_name.as_str(),
    }
}

fn first_changed_line(t: &ProcessedTarget) -> (r: usize)
    ensures
        r as nat == first_changed(*t),
{
    if t.changed_lines.len() > 0 {
        t.changed_lines[0]
    } else {
        1
    }
}

fn checkstyle_result_text(t: &ProcessedTarget) -> (r: String)
    ensures
        r@ == checkstyle_result(*t),
{
    if !t.would_change {
        return String::new();
    }
    let mut out = owned("  <file name=\"");
    push_str(&mut out, xml_escape(name_for_report(t)).as_str());
    push_str(&mut out, "\">\n");
    push_str(&mut out, "    <error line=\"");
    push_str(&mut out, usize_to_string(first_changed_line(t)).as_str());
    push_str(&mut out, "\" severity=\"warning\" source=\"cmakefmt.format\" message=\"");
    push_str(&mut out, xml_escape("file would be reformatted by cmakefmt").as_str());
    push_str(&mut out, "\"/>\n");
    push_str(&mut out, "  </file>\n");
    out
}

fn checkstyle_failure_text(f: &FailedTarget) -> (r: String)
    ensures
        r@ == checkstyle_failure(*f),
{
    let mut out = owned("  <file name=\"");
    push_str(&mut out, xml_escape(f.display_name.as_str()).as_str());
    push_str(&mut out, "\">\n");
    push_str(&mut out, "    <error severity=\"error\" source=\"cmakefmt.error\" message=\"");
    push_str(&mut out, xml_escape(f.rendered_error.as_str()).as_str());
    push_str(&mut out, "\"/>\n");
    push_str(&mut out, "  </file>\n");
    out
}

/// A checkstyle XML report: a warning per input that would change, an
/// error per input that failed.
pub fn build_checkstyle_report(results: &Vec<ProcessedTarget>, failures: &Vec<FailedTarget>) -> (r: String)
    ensures
        r@ == checkstyle_text(results@, failures@),
{
    let mut out = owned("<?xml version=\"1.0\" encoding=\"utf-8\"?>\n");
    push_str(&mut out, "<checkstyle version=\"4.3\">\n");
    let ghost head = out@;
    let mut i: usize = 0;
    assert(results@.subrange(0, 0) =~= Seq::<ProcessedTarget>::empty());
    while i < results.len()
        invariant
            i <= results@.len(),
            out@ == head + concat_results(results@.subrange(0, i as int), |t: ProcessedTarget| checkstyle_result(t)),
        decreases results@.len() - i,
    {
        push_str(&mut out, checkstyle_result_text(&results[i]).as_str());
        assert(results@.subrange(0, i + 1).drop_last() =~= results@.subrange(0, i as int));
        i += 1;
    }
    assert(results@.subrange(0, results@.len() as int) =~= results@);
    let ghost mid = out@;
    let mut k: usize = 0;
    assert(failures@.subrange(0, 0) =~= Seq::<FailedTarget>::empty());
    while k < failures.len()
        invariant
            k <= failures@.len(),
            out@ == mid + concat_failures(failures@.subrange(0, k as int), |f: FailedTarget| checkstyle_failure(f)),
        decreases failures@.len() - k,
    {
        push_str(&mut out, checkstyle_failure_text(&failures[k]).as_str());
        assert(failures@.subrange(0, k + 1).drop_last() =~= failures@.subrange(0, k as int));
        k += 1;
    }
    assert(failures@.subrange(0, failures@.len() as int) =~= failures@);
    push_str(&mut out, "</checkstyle>\n");
    assert(out@ =~= checkstyle_text(results@, failures@));
    out
}

/// The JUnit test case of a processed input, failing when it would change.
pub open spec fn junit_result(t: ProcessedTarget) -> Seq<char> {
    "  <testcase classname=\"cmakefmt\" name=\""@ + xml(t.display_name@) + "\">"@ + (if t.would_change {
        "<failure message=\""@ + xml("file would be reformatted by cmakefmt"@) + "\">"@ + xml(
            match t.unified_diff {
                Some(d) => d@,
                None => "file would be reformatted by cmakefmt"@,
            },
        ) + "</failure>"@
    } else {
        Seq::<char>::empty()
    }) + "</testcase>\n"@
}

/// The JUnit test case of a failed input.
pub open spec fn junit_failure(f: FailedTarget) -> Seq<char> {
    "  <testcase classname=\"cmakefmt\" name=\""@ + xml(f.display_name@) + "\"><error message=\""@ + xml(
        "cmakefmt failed to process the file"@,
    ) + "\">"@ + xml(f.rendered_error@) + "</error></testcase>\n"@
}

/// A JUnit report.
pub open spec fn junit_text(rs: Seq<ProcessedTarget>, fs: Seq<FailedTarget>, s: RunSummary) -> Seq<char> {
    "<?xml version=\"1.0\" encoding=\"utf-8\"?>\n"@ + "<testsuite name=\"cmakefmt\" tests=\""@ + decimal(
        s.selected as nat,
    ) + "\" failures=\""@ + decimal(s.changed as nat) + "\" errors=\""@ + decimal(s.failed as nat) + "\">\n"@
        + concat_results(rs, |t: ProcessedTarget| junit_result(t)) + concat_failures(
        fs,
        |f: FailedTarget| junit_failure(f),
    ) + "</testsuite>\n"@
}

fn junit_result_text(t: &ProcessedTarget) -> (r: String)
    ensures
        r@ == junit_result(*t),
{
    let mut out = owned("  <testcase classname=\"cmakefmt\" name=\"");
    push_str(&mut out, xml_escape(t.display_name.as_str()).as_str());
    push_str(&mut out, "\">");
    let ghost head = out@;
    if t.would_change {
        push_str(&mut out, "<failure message=\"");
        push_str(&mut out, xml_escape("file would be reformatted by cmakefmt").as_str());
        push_str(&mut out, "\">");
        let body = match &t.unified_diff {
            Some(d) => d.as_str(),
            None => "file would be reformatted by cmakefmt",
        };
        push_str(&mut out, xml_escape(body).as_str());
        push_str(&mut out, "</failure>");
    }
    push_str(&mut out, "</testcase>\n");
    assert(out@ =~= junit_result(*t));
    out
}

fn junit_failure_text(f: &FailedTarget) -> (r: String)
    ensures
        r@ == junit_failure(*f),
{
    let mut out = owned("  <testcase classname=\"cmakefmt\" name=\"");
    push_str(&mut out, xml_escape(f.display_name.as_str()).as_str());
    push_str(&mut out, "\"><error message=\"");
    push_str(&mut out, xml_escape("cmakefmt failed to process the file").as_str());
    push_str(&mut out, "\">");
    push_str(&mut out, xml_escape(f.rendered_error.as_str()).as_str());
    push_str(&mut out, "</error></testcase>\n");
    out
}

/// A JUnit XML report: a test case per input, failing for one that would
/// change, erring for one that failed.
pub fn build_junit_report(results: &Vec<ProcessedTarget>, failures: &Vec<FailedTarget>, summary: &RunSummary) -> (r:
    String)
    ensures
        r@ == junit_text(results@, failures@, *summary),
{
    let mut out = owned("<?xml version=\"1.0\" encoding=\"utf-8\"?>\n");
    push_str(&mut out, "<testsuite name=\"cmakefmt\" tests=\"");
    push_str(&mut out, usize_to_string(summary.selected).as_str());
    push_str(&mut out, "\" failures=\"");
    push_str(&mut out, usize_to_string(summary.changed).as_str());
    push_str(&mut out, "\" errors=\"");
    push_str(&mut out, usize_to_string(summary.failed).as_str());
    push_str(&mut out, "\">\n");
    let ghost head = out@;
    let mut i: usize = 0;
    assert(results@.subrange(0, 0) =~= Seq::<ProcessedTarget>::empty());
    while i < results.len()
        invariant
            i <= results@.len(),
            out@ == head + concat_results(results@.subrange(0, i as int), |t: ProcessedTarget| junit_result(t)),
        decreases results@.len() - i,
    {
        push_str(&mut out, junit_result_text(&results[i]).as_str());
        assert(results@.subrange(0, i + 1).drop_last() =~= results@.subrange(0, i as int));
        i += 1;
    }
    assert(results@.subrange(0, results@.len() as int) =~= results@);
    let ghost mid = out@;
    let mut k: usize = 0;
    assert(failures@.subrange(0, 0) =~= Seq::<FailedTarget>::empty());
    while k < failures.len()
        invariant
            k <= failures@.len(),
            out@ == mid + concat_failures(failures@.subrange(0, k as int), |f: FailedTarget| junit_failure(f)),
        decreases failures@.len() - k,
    {
        push_str(&mut out, junit_failure_text(&failures[k]).as_str());
        assert(failures@.subrange(0, k + 1).drop_last() =~= failures@.subrange(0, k as int));
        k += 1;
    }
    assert(failures@.subrange(0, failures@.len() as int) =~= failures@);
    push_str(&mut out, "</testsuite>\n");
    assert(out@ =~= junit_text(results@, failures@, *summary));
    out
}

/// The GitHub annotation of a processed input: a warning for one that
/// would change.
pub open spec fn github_result(t: ProcessedTarget) -> Seq<char> {
    if !t.would_change {
        Seq::empty()
    } else {
        "::warning file="@ + gh(report_name(t)) + ",line="@ + decimal(first_changed(t)) + "::"@ + gh(
            "file would be reformatted by cmakefmt"@,
        ) + "\n"@
    }
}

/// The GitHub annotation of a failed input.
pub open spec fn github_failure(f: FailedTarget) -> Seq<char> {
    "::error file="@ + gh(f.display_name@) + "::"@ + gh(f.rendered_error@) + "\n"@
}

/// A GitHub Actions report: annotations, then the run summary as a notice.
pub open spec fn github_text(
    rs: Seq<ProcessedTarget>,
    fs: Seq<FailedTarget>,
    s: RunSummary,
    elapsed_ms: nat,
    elapsed_seconds: Seq<char>,
) -> Seq<char> {
    concat_results(rs, |t: ProcessedTarget| github_result(t)) + concat_failures(fs, |f: FailedTarget| github_failure(f))
        + "::notice::"@ + gh(human_summary_text(s, elapsed_ms, elapsed_seconds)) + "\n"@
}

/// A GitHub annotation is written for an input exactly when it would be
/// reformatted: a warning naming the input and its first changed line.
pub proof fn lemma_github_entry(t: ProcessedTarget)
    ensures
        (github_result(t).len() > 0) == t.would_change,
        t.would_change ==> starts_with(
            github_result(t),
            "::warning file="@ + gh(report_name(t)) + ",line="@ + decimal(first_changed(t)) + "::"@,
        ),
        t.changed_lines@.len() > 0 ==> first_changed(t) == t.changed_lines@[0],
        t.changed_lines@.len() == 0 ==> first_changed(t) == 1,
{
    reveal_strlit("::warning file=");
    if t.would_change {
        let p = "::warning file="@ + gh(report_name(t)) + ",line="@ + decimal(first_changed(t)) + "::"@;
        let r = github_result(t);
        assert(r =~= p + gh("file would be reformatted by cmakefmt"@) + "\n"@);
        assert(r.subrange(0, p.len() as int) =~= p);
    }
}

/// A JUnit test case is written for every input; it holds a failure exactly
/// when the input would be reformatted, and is empty otherwise.
pub proof fn lemma_junit_entry(t: ProcessedTarget)
    ensures
        t.would_change ==> contains(junit_result(t), "<failure message=\""@),
        !t.would_change ==> junit_result(t) == "  <testcase classname=\"cmakefmt\" name=\""@ + xml(t.display_name@)
            + "\">"@ + "</testcase>\n"@,
{
    let head = "  <testcase classname=\"cmakefmt\" name=\""@ + xml(t.display_name@) + "\">"@;
    if t.would_change {
        let q = "<failure message=\""@;
        let rest = xml("file would be reformatted by cmakefmt"@) + "\">"@ + xml(
            match t.unified_diff {
                Some(d) => d@,
                None => "file would be reformatted by cmakefmt"@,
            },
        ) + "</failure>"@ + "</testcase>\n"@;
        assert(junit_result(t) =~= head + q + rest);
        assert(occurs_at(q, q, 0)) by {
            assert(q.subrange(0, q.len() as int) =~= q);
        }
        lemma_contains_within(head, q, rest, q);
    } else {
        assert(junit_result(t) =~= head + "</testcase>\n"@);
    }
}

fn github_result_text(t: &ProcessedTarget) -> (r: String)
    ensures
        r@ == github_result(*t),
{
    if !t.would_change {
        return String::new();
    }
    let mut out = owned("::warning file=");
    push_str(&mut out, github_escape_property(name_for_report(t)).as_str());
    push_str(&mut out, ",line=");
    push_str(&mut out, usize_to_string(first_changed_line(t)).as_str());
    push_str(&mut out, "::");
    push_str(&mut out, github_escape_message("file would be reformatted by cmakefmt").as_str());
    push_str(&mut out, "\n");
    out
}

fn github_failure_text(f: &FailedTarget) -> (r: String)
    ensures
        r@ == github_failure(*f),
{
    let mut out = owned("::error file=");
    push_str(&mut out, github_escape_property(f.display_name.as_str()).as_str());
    push_str(&mut out, "::");
    push_str(&mut out, github_escape_message(f.rendered_error.as_str()).as_str());
    push_str(&mut out, "\n");
    out
}

/// A GitHub Actions report: a warning per input that would change, an error
/// per input that failed, and the run summary as a notice.
pub fn build_github_report(
    results: &Vec<ProcessedTarget>,
    failures: &Vec<FailedTarget>,
    summary: &RunSummary,
    elapsed_ms: u64,
    elapsed_seconds: &str,
) -> (r: String)
    ensures
        r@ == github_text(results@, failures@, *summary, elapsed_ms as nat, elapsed_seconds@),
{
    let mut out = String::new();
    let mut i: usize = 0;
    assert(results@.subrange(0, 0) =~= Seq::<ProcessedTarget>::empty());
    assert(out@ =~= concat_results(results@.subrange(0, 0), |t: ProcessedTarget| github_result(t)));
    while i < results.len()
        invariant
            i <= results@.len(),
            out@ == concat_results(results@.subrange(0, i as int), |t: ProcessedTarget| github_result(t)),
        decreases results@.len() - i,
    {
        push_str(&mut out, github_result_text(&results[i]).as_str());
        assert(results@.subrange(0, i + 1).drop_last() =~= results@.subrange(0, i as int));
        i += 1;
    }
    assert(results@.subrange(0, results@.len() as int) =~= results@);
    let ghost mid = out@;
    let mut k: usize = 0;
    assert(failures@.subrange(0, 0) =~= Seq::<FailedTarget>::empty());
    while k < failures.len()
        invariant
            k <= failures@.len(),
            out@ == mid + concat_failures(failures@.subrange(0, k as int), |f: FailedTarget| github_failure(f)),
        decreases failures@.len() - k,
    {
        push_str(&mut out, github_failure_text(&failures[k]).as_str());
        assert(failures@.subrange(0, k + 1).drop_last() =~= failures@.subrange(0, k as int));
        k += 1;
    }
    assert(failures@.subrange(0, failures@.len() as int) =~= failures@);
    push_str(&mut out, "::notice::");
    push_str(
        &mut out,
        github_escape_message(render_human_summary(summary, elapsed_ms, elapsed_seconds).as_str()).as_str(),
    );
    push_str(&mut out, "\n");
    assert(out@ =~= github_text(results@, failures@, *summary, elapsed_ms as nat, elapsed_seconds@));
    out
}

} // verus!
