//! Rendering of errors for people: parse errors with a source snippet and
//! hints, config and spec file errors, and formatter errors.

use vstd::prelude::*;
use crate::text::{
    chars_of, contains, contains_char, decimal, ends_with, owned, push_char, push_str, sat_sub,
    split_char, split_on, starts_with, str_eq, strs, trim, trim_end, trim_str, usize_to_string,
};

verus! {

broadcast use vstd::string::group_string_axioms;

// ── Lines ───────────────────────────────────────────────────────────────────

/// A line without one trailing carriage return.
pub open spec fn strip_cr(l: Seq<char>) -> Seq<char> {
    if l.len() > 0 && l.last() == '\r' {
        l.drop_last()
    } else {
        l
    }
}

/// The lines of a text as `str::lines` yields them: split at newlines, a
/// carriage return before a newline dropped, and no empty line after a
/// final newline.
pub open spec fn lines_of(s: Seq<char>) -> Seq<Seq<char>> {
    let ps = split_on(s, '\n');
    ps.subrange(0, ps.len() - 1).map_values(|l: Seq<char>| strip_cr(l)) + if ps.last().len() == 0 {
        Seq::<Seq<char>>::empty()
    } else {
        seq![ps.last()]
    }
}

fn strip_cr_str(l: &str) -> (r: String)
    ensures
        r@ == strip_cr(l@),
{
    let v = chars_of(l);
    if v.len() > 0 && v[v.len() - 1] == '\r' {
        crate::text::string_of(&v, 0, v.len() - 1)
    } else {
        owned(l)
    }
}

/// The lines of a text, as `str::lines` yields them.
pub fn text_lines(s: &str) -> (r: Vec<String>)
    ensures
        strs(r@) == lines_of(s@),
{
    let pieces = split_char(s, '\n');
    let ghost ps = split_on(s@, '\n');
    assert(ps.len() >= 1);
    let n = pieces.len();
    let mut out: Vec<String> = Vec::new();
    let mut i: usize = 0;
    while i + 1 < n
        invariant
            n == pieces@.len(),
            n >= 1,
            i < n,
            pieces@.map_values(|x: String| x@) == ps,
            strs(out@) == ps.subrange(0, i as int).map_values(|l: Seq<char>| strip_cr(l)),
        decreases n - i,
    {
        let line = strip_cr_str(pieces[i].as_str());
        let ghost pre = strs(out@);
        out.push(line);
        assert(ps.subrange(0, i + 1).map_values(|l: Seq<char>| strip_cr(l)) =~= ps.subrange(0, i as int).map_values(|l: Seq<char>| strip_cr(l)).push(strip_cr(ps[i as int])));
        assert(strs(out@) =~= pre.push(line@));
        i += 1;
    }
    let ghost body = strs(out@);
    assert(ps.last() == pieces@[n - 1]@);
    if !pieces[n - 1].as_str().is_empty() {
        out.push(crate::text::copy_string(&pieces[n - 1]));
        assert(strs(out@) =~= body + seq![ps.last()]);
    } else {
        assert(strs(out@) =~= body + Seq::<Seq<char>>::empty());
    }
    out
}

// ── Unmatched parentheses ───────────────────────────────────────────────────

/// Where the scan for parentheses is: in ordinary text, in a comment, or in
/// a quoted string.
pub enum ScanMode {
    Normal,
    Comment,
    Quoted,
}

/// The rank of a mode: a comment ends at a newline without consuming it.
pub open spec fn mode_rank(m: ScanMode) -> nat {
    match m {
        ScanMode::Comment => 1,
        _ => 0,
    }
}

/// Adds `k` to `x`, saturating at the largest machine size.
pub open spec fn sat_add(x: nat, k: nat) -> nat {
    if x + k > usize::MAX {
        usize::MAX as nat
    } else {
        x + k
    }
}

/// The stack of unclosed `(` positions (1-based line and column) after
/// scanning from `i`, skipping comments and quoted strings.
pub open spec fn paren_scan(
    s: Seq<char>,
    i: int,
    line: nat,
    col: nat,
    stack: Seq<(nat, nat)>,
    mode: ScanMode,
) -> Seq<(nat, nat)>
    decreases s.len() - i, mode_rank(mode),
{
    if i < 0 || i >= s.len() {
        stack
    } else {
        let c = s[i];
        match mode {
            ScanMode::Normal => if c == '\n' {
                paren_scan(s, i + 1, sat_add(line, 1), 1, stack, ScanMode::Normal)
            } else if c == '#' {
                paren_scan(s, i + 1, line, sat_add(col, 1), stack, ScanMode::Comment)
            } else if c == '"' {
                paren_scan(s, i + 1, line, sat_add(col, 1), stack, ScanMode::Quoted)
            } else if c == '(' {
                paren_scan(s, i + 1, line, sat_add(col, 1), stack.push((line, col)), ScanMode::Normal)
            } else if c == ')' {
                paren_scan(
                    s,
                    i + 1,
                    line,
                    sat_add(col, 1),
                    if stack.len() > 0 { stack.drop_last() } else { stack },
                    ScanMode::Normal,
                )
            } else {
                paren_scan(s, i + 1, line, sat_add(col, 1), stack, ScanMode::Normal)
            },
            ScanMode::Comment => if c == '\n' {
                paren_scan(s, i, line, col, stack, ScanMode::Normal)
            } else {
                paren_scan(s, i + 1, line, sat_add(col, 1), stack, ScanMode::Comment)
            },
            ScanMode::Quoted => if c == '\\' && i + 1 < s.len() {
                paren_scan(s, i + 2, line, sat_add(col, 2), stack, ScanMode::Quoted)
            } else if c == '"' {
                paren_scan(s, i + 1, line, sat_add(col, 1), stack, ScanMode::Normal)
            } else if c == '\n' {
                paren_scan(s, i + 1, sat_add(line, 1), 1, stack, ScanMode::Quoted)
            } else {
                paren_scan(s, i + 1, line, sat_add(col, 1), stack, ScanMode::Quoted)
            },
        }
    }
}

/// The last unclosed `(` of a source, as its absolute line, its column and
/// its line's trimmed text.
pub open spec fn unmatched_paren(s: Seq<char>, start_line: nat) -> Option<(nat, nat, Seq<char>)> {
    let stack = paren_scan(s, 0, 1, 1, Seq::empty(), ScanMode::Normal);
    if stack.len() == 0 {
        None
    } else {
        let (l, c) = stack.last();
        let lines = lines_of(s);
        let k = sat_sub(l, 1);
        let context = if k < lines.len() {
            trim(lines[k as int])
        } else {
            Seq::empty()
        };
        Some((start_line + sat_sub(l, 1), c, context))
    }
}

fn sat_add_exec(x: usize, k: usize) -> (r: usize)
    ensures
        r as nat == sat_add(x as nat, k as nat),
{
    if x > usize::MAX - k {
        usize::MAX
    } else {
        x + k
    }
}

/// The position of the last unclosed `(` in a source, skipping characters
/// inside strings and comments: its absolute line, its column and its
/// line's trimmed text.
pub fn find_unmatched_open_paren(source: &str, start_line: usize) -> (r: Option<(usize, usize, String)>)
    requires
        start_line + source@.len() <= usize::MAX,
    ensures
        match unmatched_paren(source@, start_line as nat) {
            Some((l, c, t)) => r matches Some(x) && x.0 == l && x.1 == c && x.2@ == t,
            None => r is None,
        },
        r matches Some(x) ==> x.0 <= start_line + source@.len(),
{
    let chars = chars_of(source);
    let n = chars.len();
    let mut stack: Vec<(usize, usize)> = Vec::new();
    let mut line: usize = 1;
    let mut col: usize = 1;
    let mut mode = ScanMode::Normal;
    let mut i: usize = 0;
    let ghost target = paren_scan(source@, 0, 1, 1, Seq::empty(), ScanMode::Normal);
    assert(stack@.map_values(|p: (usize, usize)| (p.0 as nat, p.1 as nat)) =~= Seq::<(nat, nat)>::empty());
    while i < n
        invariant
            n == chars@.len(),
            chars@ == source@,
            i <= n,
            line as int <= i + 1,
            forall|k: int| 0 <= k < stack@.len() ==> #[trigger] stack@[k].0 <= i,
            paren_scan(source@, i as int, line as nat, col as nat, stack@.map_values(|p: (usize, usize)| (p.0 as nat, p.1 as nat)), mode)
                == target,
        decreases n - i, mode_rank(mode),
    {
        let c = chars[i];
        let ghost st = stack@.map_values(|p: (usize, usize)| (p.0 as nat, p.1 as nat));
        match mode {
            ScanMode::Normal => {
                if c == '\n' {
                    line = sat_add_exec(line, 1);
                    col = 1;
                    i += 1;
                } else if c == '#' {
                    col = sat_add_exec(col, 1);
                    mode = ScanMode::Comment;
                    i += 1;
                } else if c == '"' {
                    col = sat_add_exec(col, 1);
                    mode = ScanMode::Quoted;
                    i += 1;
                } else if c == '(' {
                    stack.push((line, col));
                    assert(stack@.map_values(|p: (usize, usize)| (p.0 as nat, p.1 as nat)) =~= st.push((line as nat, col as nat)));
                    col = sat_add_exec(col, 1);
                    i += 1;
                } else if c == ')' {
                    if stack.len() > 0 {
                        stack.pop();
                        assert(stack@.map_values(|p: (usize, usize)| (p.0 as nat, p.1 as nat)) =~= st.drop_last());
                    }
                    col = sat_add_exec(col, 1);
                    i += 1;
                } else {
                    col = sat_add_exec(col, 1);
                    i += 1;
                }
            },
            ScanMode::Comment => {
                if c == '\n' {
                    mode = ScanMode::Normal;
                } else {
                    col = sat_add_exec(col, 1);
                    i += 1;
                }
            },
            ScanMode::Quoted => {
                if c == '\\' && i + 1 < n {
                    col = sat_add_exec(col, 2);
                    i += 2;
                } else if c == '"' {
                    col = sat_add_exec(col, 1);
                    mode = ScanMode::Normal;
                    i += 1;
                } else if c == '\n' {
                    line = sat_add_exec(line, 1);
                    col = 1;
                    i += 1;
                } else {
                    col = sat_add_exec(col, 1);
                    i += 1;
                }
            },
        }
    }
    let ghost st = stack@.map_values(|p: (usize, usize)| (p.0 as nat, p.1 as nat));
    assert(st == target);
    if stack.len() == 0 {
        return None;
    }
    let (open_line, open_col) = stack[stack.len() - 1];
    assert(st.last() == (open_line as nat, open_col as nat));
    let lines = text_lines(source);
    let k: usize = if open_line >= 1 { open_line - 1 } else { 0 };
    let context = if k < lines.len() {
        trim_str(lines[k].as_str())
    } else {
        String::new()
    };
    Some((start_line + k, open_col, context))
}

// ── Parse failures ──────────────────────────────────────────────────────────

/// A summary of why a line failed to parse, with hints: for an escaped
/// quote, for bracket delimiters, for a configure-file template line, for
/// parentheses, else a general one (hinting at a quoted string when the
/// parser's detail mentions one).
pub open spec fn classify(display_name: Seq<char>, line_text: Seq<char>, detail: Seq<char>) -> (Seq<char>, Seq<Seq<char>>) {
    let t = trim(line_text);
    if contains(line_text, "\\\""@) {
        (
            "failed to parse a quoted argument"@,
            seq![
                "possible malformed quoted argument or escaped quote sequence inside this command"@,
                "if the caret looks late, the real problem may be earlier in the same command invocation"@,
            ],
        )
    } else if contains(t, "[=["@) || contains(t, "[["@) || contains(t, "]=]"@) {
        (
            "failed to parse a bracket argument or comment"@,
            seq!["check that bracket argument or bracket comment delimiters use matching `=` counts"@],
        )
    } else if ends_with(display_name, ".cmake.in"@) && starts_with(t, "@"@) && ends_with(t, "@"@) {
        (
            "failed to parse a configure-file template line"@,
            seq!["top-level configure-file placeholders like @PACKAGE_INIT@ are only valid as standalone template lines"@],
        )
    } else if crate::text::has_char(t, '(') || crate::text::has_char(t, ')') {
        (
            "failed to parse a command invocation"@,
            seq![
                "check for an unbalanced command invocation or control-flow condition"@,
                "the reported location can be after the real problem if an earlier line left the parser out of sync"@,
            ],
        )
    } else {
        (
            "failed to parse CMake input"@,
            if contains(detail, "quoted element"@) {
                seq!["a quoted string may be unterminated or contain malformed escapes"@]
            } else {
                Seq::empty()
            },
        )
    }
}

/// Classify a parse failure: a summary and hints.
pub fn classify_parse_failure(display_name: &str, line_text: &str, detail: &str) -> (r: (String, Vec<String>))
    ensures
        r.0@ == classify(display_name@, line_text@, detail@).0,
        strs(r.1@) == classify(display_name@, line_text@, detail@).1,
{
    let trimmed = trim_str(line_text);
    let t = trimmed.as_str();
    let mut hints: Vec<String> = Vec::new();
    if crate::text::contains_str(line_text, "\\\"") {
        hints.push(owned("possible malformed quoted argument or escaped quote sequence inside this command"));
        hints.push(owned("if the caret looks late, the real problem may be earlier in the same command invocation"));
        assert(strs(hints@) =~= classify(display_name@, line_text@, detail@).1);
        return (owned("failed to parse a quoted argument"), hints);
    }
    if crate::text::contains_str(t, "[=[") || crate::text::contains_str(t, "[[") || crate::text::contains_str(t, "]=]") {
        hints.push(owned("check that bracket argument or bracket comment delimiters use matching `=` counts"));
        assert(strs(hints@) =~= classify(display_name@, line_text@, detail@).1);
        return (owned("failed to parse a bracket argument or comment"), hints);
    }
    if crate::text::ends_with_str(display_name, ".cmake.in") && crate::text::starts_with_str(t, "@")
        && crate::text::ends_with_str(t, "@") {
        hints.push(owned("top-level configure-file placeholders like @PACKAGE_INIT@ are only valid as standalone template lines"));
        assert(strs(hints@) =~= classify(display_name@, line_text@, detail@).1);
        return (owned("failed to parse a configure-file template line"), hints);
    }
    if contains_char(t, '(') || contains_char(t, ')') {
        hints.push(owned("check for an unbalanced command invocation or control-flow condition"));
        hints.push(owned("the reported location can be after the real problem if an earlier line left the parser out of sync"));
        assert(strs(hints@) =~= classify(display_name@, line_text@, detail@).1);
        return (owned("failed to parse a command invocation"), hints);
    }
    if crate::text::contains_str(detail, "quoted element") {
        hints.push(owned("a quoted string may be unterminated or contain malformed escapes"));
    }
    assert(strs(hints@) =~= classify(display_name@, line_text@, detail@).1);
    (owned("failed to parse CMake input"), hints)
}

/// `n` spaces.
pub open spec fn spaces(n: nat) -> Seq<char> {
    Seq::new(n, |_i: int| ' ')
}

/// A text right-aligned in a field of `width` characters.
pub open spec fn pad_left(s: Seq<char>, width: nat) -> Seq<char> {
    spaces(sat_sub(width, s.len())) + s
}

/// The numbered line of a snippet, marked when it is the focus.
pub open spec fn snippet_line(marker: char, number: nat, width: nat, text: Seq<char>) -> Seq<char> {
    seq![marker] + " "@ + pad_left(decimal(number), width) + " | "@ + text + "\n"@
}

/// The snippet lines from `index` up to `end`.
pub open spec fn snippet_from(
    lines: Seq<Seq<char>>,
    start_line: nat,
    focus_index: nat,
    caret_padding: nat,
    width: nat,
    index: int,
    end: int,
    out: Seq<char>,
) -> Seq<char>
    decreases end - index,
{
    if index < 0 || index >= end {
        out
    } else {
        let is_focus = index == focus_index;
        let line = snippet_line(if is_focus { '>' } else { ' ' }, start_line + index as nat, width, lines[index]);
        let caret = if is_focus {
            "  "@ + spaces(width) + " | "@ + spaces(caret_padding) + "^\n"@
        } else {
            Seq::<char>::empty()
        };
        snippet_from(lines, start_line, focus_index, caret_padding, width, index + 1, end, out + line + caret)
    }
}

/// A few numbered source lines around a focus line, with a caret under the
/// focus column (after the end of the last line when the focus line is
/// past the end of the source).
pub open spec fn snippet(source: Seq<char>, start_line: nat, focus_line: nat, focus_column: nat) -> Seq<char> {
    let lines = lines_of(source);
    if lines.len() == 0 {
        Seq::empty()
    } else {
        let n = lines.len();
        let focus_index = if sat_sub(focus_line, 1) < n - 1 { sat_sub(focus_line, 1) } else { (n - 1) as nat };
        let start_index = sat_sub(focus_index, 1);
        let end_index = if focus_index + 2 < n { focus_index + 2 } else { n };
        let width = decimal(start_line + sat_sub(end_index, 1)).len();
        let caret_padding = if focus_line > n {
            lines[focus_index as int].len()
        } else {
            sat_sub(focus_column, 1)
        };
        trim_end(snippet_from(lines, start_line, focus_index, caret_padding, width, start_index as int, end_index as int, Seq::empty()))
    }
}

fn push_spaces(out: &mut String, n: usize)
    ensures
        final(out)@ == old(out)@ + spaces(n as nat),
{
    let s = crate::config::repeat_char(' ', n);
    push_str(out, s.as_str());
    assert(final(out)@ =~= old(out)@ + spaces(n as nat)) by {
        assert(s@ =~= spaces(n as nat));
    }
}

/// Render a few numbered source lines around a focus line, with a caret
/// under the focus column.
pub fn render_source_snippet(source: &str, start_line: usize, focus_line: usize, focus_column: usize) -> (r: String)
    requires
        start_line + source@.len() + 1 <= usize::MAX,
    ensures
        r@ == snippet(source@, start_line as nat, focus_line as nat, focus_column as nat),
{
    let lines = text_lines(source);
    let ghost ls = strs(lines@);
    let n = lines.len();
    if n == 0 {
        return String::new();
    }
    proof {
        lemma_lines_count(source@);
    }
    let fl = if focus_line >= 1 { focus_line - 1 } else { 0 };
    let focus_index = if fl < n - 1 { fl } else { n - 1 };
    let start_index = if focus_index >= 1 { focus_index - 1 } else { 0 };
    let end_index = if n - focus_index > 2 { focus_index + 2 } else { n };
    let max_line_no = start_line + (end_index - 1);
    let width = char_len(usize_to_string(max_line_no).as_str());
    let caret_padding = if focus_line > n {
        assert(ls[focus_index as int] == lines@[focus_index as int]@);
        char_len(lines[focus_index].as_str())
    } else if focus_column >= 1 {
        focus_column - 1
    } else {
        0
    };
    let mut out = String::new();
    let mut index = start_index;
    while index < end_index
        invariant
            start_index <= index <= end_index <= n,
            n == lines@.len(),
            ls == strs(lines@),
            focus_index < n,
            start_line + n <= usize::MAX,
            snippet_from(ls, start_line as nat, focus_index as nat, caret_padding as nat, width as nat, index as int, end_index as int, out@)
                == snippet_from(ls, start_line as nat, focus_index as nat, caret_padding as nat, width as nat, start_index as int, end_index as int, Seq::empty()),
        decreases end_index - index,
    {
        assert(ls[index as int] == lines@[index as int]@);
        push_snippet_line(&mut out, index == focus_index, start_line + index, width, lines[index].as_str(), caret_padding);
        index += 1;
    }
    crate::text::trim_end_str(out.as_str())
}

fn push_snippet_line(out: &mut String, is_focus: bool, number: usize, width: usize, text: &str, caret_padding: usize)
    ensures
        final(out)@ == old(out)@ + snippet_line(if is_focus { '>' } else { ' ' }, number as nat, width as nat, text@) + if is_focus {
            "  "@ + spaces(width as nat) + " | "@ + spaces(caret_padding as nat) + "^\n"@
        } else {
            Seq::<char>::empty()
        },
{
    let ghost pre = out@;
    if is_focus {
        push_char(out, '>');
    } else {
        push_char(out, ' ');
    }
    push_str(out, " ");
    let digits = usize_to_string(number);
    let number_width = char_len(digits.as_str());
    push_spaces(out, if number_width < width { width - number_width } else { 0 });
    push_str(out, digits.as_str());
    push_str(out, " | ");
    push_str(out, text);
    push_str(out, "\n");
    assert(out@ =~= pre + snippet_line(if is_focus { '>' } else { ' ' }, number as nat, width as nat, text@));
    let ghost mid = out@;
    if is_focus {
        push_str(out, "  ");
        push_spaces(out, width);
        push_str(out, " | ");
        push_spaces(out, caret_padding);
        push_str(out, "^\n");
    }
    assert(out@ =~= mid + if is_focus {
        "  "@ + spaces(width as nat) + " | "@ + spaces(caret_padding as nat) + "^\n"@
    } else {
        Seq::<char>::empty()
    });
}

fn char_len(s: &str) -> (r: usize)
    ensures
        r == s@.len(),
{
    chars_of(s).len()
}

proof fn lemma_lines_count(s: Seq<char>)
    ensures
        lines_of(s).len() <= s.len() + 1,
{
    lemma_split_count(s);
}

proof fn lemma_split_count(s: Seq<char>)
    ensures
        split_on(s, '\n').len() <= s.len() + 1,
        split_on(s, '\n').len() >= 1,
    decreases s.len(),
{
    match crate::text::first_index(s, '\n') {
        Some(k) => if 0 <= k < s.len() {
            lemma_split_count(s.subrange(k + 1, s.len() as int));
        },
        None => {},
    }
}

// ── Hints from parser details ───────────────────────────────────────────────

/// The first position from `i` on where `p` occurs in `s`.
pub open spec fn occurrence_from(s: Seq<char>, p: Seq<char>, i: int) -> Option<int>
    decreases s.len() + 1 - i,
{
    if i < 0 || i > s.len() {
        None
    } else if crate::text::occurs_at(s, p, i) {
        Some(i)
    } else {
        occurrence_from(s, p, i + 1)
    }
}

/// The text before the first occurrence of `p` (all of it when there is
/// none): the first piece of `split(p)`.
pub open spec fn before(s: Seq<char>, p: Seq<char>) -> Seq<char> {
    match occurrence_from(s, p, 0) {
        Some(i) => s.subrange(0, i),
        None => s,
    }
}

/// The text after the first occurrence of `p`, if there is one.
pub open spec fn after(s: Seq<char>, p: Seq<char>) -> Option<Seq<char>> {
    match occurrence_from(s, p, 0) {
        Some(i) => Some(s.subrange(i + p.len(), s.len() as int)),
        None => None,
    }
}

/// The second piece of `split(p)`, if there is one.
pub open spec fn second_piece(s: Seq<char>, p: Seq<char>) -> Option<Seq<char>> {
    match after(s, p) {
        Some(rest) => Some(before(rest, p)),
        None => None,
    }
}

/// The text between the first `start` and the next `end` (or the next
/// `start`, or the end of the text, whichever comes first).
pub open spec fn between(input: Seq<char>, start: Seq<char>, end: Seq<char>) -> Option<Seq<char>> {
    match second_piece(input, start) {
        Some(tail) => Some(before(tail, end)),
        None => None,
    }
}

fn find_from(v: &Vec<char>, p: &Vec<char>, from: usize) -> (r: Option<usize>)
    requires
        from <= v@.len(),
    ensures
        r matches Some(i) ==> occurrence_from(v@, p@, from as int) == Some(i as int) && i + p@.len() <= v@.len(),
        r is None ==> occurrence_from(v@, p@, from as int) is None,
{
    let mut i = from;
    loop
        invariant
            from <= i <= v@.len(),
            occurrence_from(v@, p@, i as int) == occurrence_from(v@, p@, from as int),
        decreases v@.len() - i,
    {
        if crate::text::matches_at(v, p, i) {
            return Some(i);
        }
        if i == v.len() {
            assert(occurrence_from(v@, p@, (i + 1) as int) is None);
            return None;
        }
        i += 1;
    }
}

fn before_str(s: &str, p: &str) -> (r: String)
    ensures
        r@ == before(s@, p@),
{
    let v = chars_of(s);
    let pv = chars_of(p);
    match find_from(&v, &pv, 0) {
        Some(i) => crate::text::string_of(&v, 0, i),
        None => owned(s),
    }
}

fn after_str(s: &str, p: &str) -> (r: Option<String>)
    ensures
        match after(s@, p@) {
            Some(t) => r matches Some(x) && x@ == t,
            None => r is None,
        },
{
    let v = chars_of(s);
    let pv = chars_of(p);
    let _n = v.len();
    match find_from(&v, &pv, 0) {
        Some(i) => Some(crate::text::string_of(&v, i + pv.len(), v.len())),
        None => None,
    }
}

/// The text between the first `start` and the next `end`.
pub fn extract_between(input: &str, start: &str, end: &str) -> (r: Option<String>)
    ensures
        match between(input@, start@, end@) {
            Some(t) => r matches Some(x) && x@ == t,
            None => r is None,
        },
{
    match after_str(input, start) {
        Some(rest) => {
            let tail = before_str(rest.as_str(), start);
            Some(before_str(tail.as_str(), end))
        },
        None => None,
    }
}

/// A text without leading and trailing copies of `c`.
pub open spec fn strip_char(s: Seq<char>, c: char) -> Seq<char> {
    let a = crate::text::lead_count(s, c);
    let t = s.subrange(a as int, s.len() as int);
    t.subrange(0, t.len() - trail_count(t, c))
}

/// Number of trailing copies of `c`.
pub open spec fn trail_count(s: Seq<char>, c: char) -> nat
    decreases s.len(),
{
    if s.len() > 0 && s.last() == c {
        1 + trail_count(s.drop_last(), c)
    } else {
        0
    }
}

fn strip_char_str(s: &str, c: char) -> (r: String)
    ensures
        r@ == strip_char(s@, c),
{
    let v = chars_of(s);
    let a = crate::text::count_lead(&v, c);
    let t = crate::text::string_of(&v, a, v.len());
    let u = chars_of(t.as_str());
    let mut k: usize = 0;
    while k < u.len() && u[u.len() - 1 - k] == c
        invariant
            k <= u@.len(),
            forall|j: int| u@.len() - k <= j < u@.len() ==> u@[j] == c,
        decreases u@.len() - k,
    {
        k += 1;
    }
    proof {
        lemma_trail_count(u@, c, k as int);
    }
    crate::text::string_of(&u, 0, u.len() - k)
}

proof fn lemma_trail_count(s: Seq<char>, c: char, k: int)
    requires
        0 <= k <= s.len(),
        forall|j: int| s.len() - k <= j < s.len() ==> s[j] == c,
        k < s.len() ==> s[s.len() - 1 - k] != c,
    ensures
        trail_count(s, c) == k,
    decreases k,
{
    if k > 0 {
        let t = s.drop_last();
        assert forall|j: int| t.len() - (k - 1) <= j < t.len() implies t[j] == c by {
            assert(t[j] == s[j]);
        }
        if k - 1 < t.len() {
            assert(t[t.len() - 1 - (k - 1)] == s[s.len() - 1 - k]);
        }
        lemma_trail_count(t, c, k - 1);
    }
}

/// One entry of an `expected one of` list, stripped of white space and of
/// backticks, single and double quotes.
pub open spec fn clean_expected(part: Seq<char>) -> Seq<char> {
    strip_char(strip_char(strip_char(trim(part), '`'), '\''), '"')
}

/// The non-empty cleaned entries of a comma-separated list.
pub open spec fn expected_entries(parts: Seq<Seq<char>>) -> Seq<Seq<char>>
    decreases parts.len(),
{
    if parts.len() == 0 {
        Seq::empty()
    } else {
        let rest = expected_entries(parts.drop_last());
        let e = clean_expected(parts.last());
        if e.len() == 0 {
            rest
        } else {
            rest.push(e)
        }
    }
}

/// The unknown field a deserialisation detail names, with the fields it
/// lists as expected.
pub open spec fn unknown_field_hint(detail: Seq<char>) -> Option<(Seq<char>, Seq<Seq<char>>)> {
    let field = match between(detail, "unknown field `"@, "`"@) {
        Some(f) => Some(f),
        None => between(detail, "unknown field '"@, "'"@),
    };
    match field {
        None => None,
        Some(f) => Some(
            (
                f,
                match second_piece(detail, "expected one of"@) {
                    Some(tail) => expected_entries(split_on(tail, ',')),
                    None => Seq::empty(),
                },
            ),
        ),
    }
}

/// The unknown field a deserialisation detail names, with the fields it
/// lists as expected.
pub fn extract_unknown_field_hint(detail: &str) -> (r: Option<(String, Vec<String>)>)
    ensures
        match unknown_field_hint(detail@) {
            Some((f, e)) => r matches Some(x) && x.0@ == f && strs(x.1@) == e,
            None => r is None,
        },
{
    let field = match extract_between(detail, "unknown field `", "`") {
        Some(f) => f,
        None => match extract_between(detail, "unknown field '", "'") {
            Some(f) => f,
            None => {
                return None;
            },
        },
    };
    let mut expected: Vec<String> = Vec::new();
    match after_str(detail, "expected one of") {
        Some(rest) => {
            let tail = before_str(rest.as_str(), "expected one of");
            let parts = split_char(tail.as_str(), ',');
            let ghost ps = split_on(tail@, ',');
            let mut i: usize = 0;
            while i < parts.len()
                invariant
                    i <= parts@.len(),
                    parts@.map_values(|x: String| x@) == ps,
                    strs(expected@) == expected_entries(ps.subrange(0, i as int)),
                decreases parts@.len() - i,
            {
                let trimmed = trim_str(parts[i].as_str());
                let a = strip_char_str(trimmed.as_str(), '`');
                let b = strip_char_str(a.as_str(), '\'');
                let e = strip_char_str(b.as_str(), '"');
                assert(ps.subrange(0, i + 1).drop_last() =~= ps.subrange(0, i as int));
                assert(ps[i as int] == parts@[i as int]@);
                let ghost pre = strs(expected@);
                if !e.as_str().is_empty() {
                    expected.push(e);
                    assert(strs(expected@) =~= pre.push(clean_expected(ps[i as int])));
                }
                i += 1;
            }
            assert(ps.subrange(0, ps.len() as int) =~= ps);
        },
        None => {},
    }
    Some((field, expected))
}

/// The edit distance between two texts (insertions, deletions and
/// substitutions of characters).
pub open spec fn edit_distance(a: Seq<char>, b: Seq<char>) -> nat
    decreases a.len() + b.len(),
{
    if a.len() == 0 {
        b.len()
    } else if b.len() == 0 {
        a.len()
    } else {
        let del = edit_distance(a.drop_last(), b) + 1;
        let ins = edit_distance(a, b.drop_last()) + 1;
        let sub = edit_distance(a.drop_last(), b.drop_last()) + if a.last() != b.last() { 1nat } else { 0nat };
        let m = if del <= ins { del } else { ins };
        if m <= sub { m } else { sub }
    }
}

proof fn lemma_edit_distance_bound(a: Seq<char>, b: Seq<char>)
    ensures
        edit_distance(a, b) <= if a.len() >= b.len() { a.len() } else { b.len() },
    decreases a.len() + b.len(),
{
    if a.len() > 0 && b.len() > 0 {
        lemma_edit_distance_bound(a.drop_last(), b.drop_last());
    }
}

/// The edit distance between two texts.
pub fn levenshtein(left: &str, right: &str) -> (r: usize)
    ensures
        r == edit_distance(left@, right@),
{
    let a = chars_of(left);
    let b = chars_of(right);
    let m = b.len();
    let _n = a.len();
    let mut prev: Vec<usize> = Vec::new();
    let mut j: usize = 0;
    while j < m
        invariant
            j <= m,
            m == b@.len(),
            prev@.len() == j,
            forall|k: int| 0 <= k < j ==> prev@[k] == edit_distance(Seq::<char>::empty(), #[trigger] b@.subrange(0, k)),
        decreases m - j,
    {
        prev.push(j);
        j += 1;
    }
    prev.push(m);
    assert(prev@[m as int] == edit_distance(Seq::<char>::empty(), b@.subrange(0, m as int)));
    let mut i: usize = 0;
    while i < a.len()
        invariant
            i <= a@.len(),
            a@ == left@,
            b@ == right@,
            m == b@.len(),
            a@.len() <= usize::MAX,
            prev@.len() == m + 1,
            forall|k: int| 0 <= k <= m ==> prev@[k] == edit_distance(#[trigger] a@.subrange(0, i as int), b@.subrange(0, k)),
        decreases a@.len() - i,
    {
        let ghost ai = a@.subrange(0, i as int);
        let ghost ai1 = a@.subrange(0, i + 1);
        assert(ai1.drop_last() =~= ai);
        let mut curr: Vec<usize> = Vec::new();
        curr.push(i + 1);
        assert(b@.subrange(0, 0) =~= Seq::<char>::empty());
        let mut j: usize = 0;
        while j < m
            invariant
                j <= m,
                m == b@.len(),
                i < a@.len(),
                a@.len() <= usize::MAX,
                m <= usize::MAX,
                ai == a@.subrange(0, i as int),
                ai1 == a@.subrange(0, i + 1),
                ai1.drop_last() == ai,
                prev@.len() == m + 1,
                curr@.len() == j + 1,
                forall|k: int| 0 <= k <= m ==> prev@[k] == edit_distance(ai, #[trigger] b@.subrange(0, k)),
                forall|k: int| 0 <= k <= j ==> curr@[k] == edit_distance(ai1, #[trigger] b@.subrange(0, k)),
            decreases m - j,
        {
            let ghost bj = b@.subrange(0, j as int);
            assert(b@.subrange(0, j + 1).drop_last() =~= b@.subrange(0, j as int));
            let cost: usize = if a[i] != b[j] { 1 } else { 0 };
            assert(ai1.last() == a@[i as int]);
            assert(b@.subrange(0, j + 1).last() == b@[j as int]);
            proof {
                lemma_edit_distance_bound(ai, b@.subrange(0, j + 1));
                lemma_edit_distance_bound(ai1, b@.subrange(0, j as int));
                lemma_edit_distance_bound(ai, b@.subrange(0, j as int));
            }
            let del = if prev[j + 1] < usize::MAX { prev[j + 1] + 1 } else { usize::MAX };
            let ins = if curr[j] < usize::MAX { curr[j] + 1 } else { usize::MAX };
            let sub = prev[j] + cost;
            let best = if del <= ins { del } else { ins };
            let best = if best <= sub { best } else { sub };
            curr.push(best);
            assert(curr@[j + 1] == edit_distance(ai1, b@.subrange(0, j + 1)));
            j += 1;
        }
        prev = curr;
        i += 1;
    }
    assert(a@.subrange(0, a@.len() as int) =~= a@);
    assert(b@.subrange(0, m as int) =~= b@);
    prev[m]
}

/// The key by which candidates are ranked: edit distance, then byte length.
pub open spec fn rank_less(d1: nat, l1: nat, d2: nat, l2: nat) -> bool {
    d1 < d2 || (d1 == d2 && l1 < l2)
}

/// The closest candidate from position `i` on, given the best so far: the
/// first one with the smallest edit distance (at most 6), then the smallest
/// byte length.
pub open spec fn best_from(needle: Seq<char>, cands: Seq<Seq<char>>, i: int, best: Option<int>) -> Option<int>
    decreases cands.len() - i,
{
    if i < 0 || i >= cands.len() {
        best
    } else {
        let d = edit_distance(needle, cands[i]);
        let l = crate::node::byte_len(cands[i]);
        let take = d <= 6 && match best {
            None => true,
            Some(b) => rank_less(d, l, edit_distance(needle, cands[b]), crate::node::byte_len(cands[b])),
        };
        best_from(needle, cands, i + 1, if take { Some(i) } else { best })
    }
}

/// The candidate closest to `needle`, if one is within an edit distance of 6.
pub fn best_match<'a>(needle: &str, candidates: &'a Vec<String>) -> (r: Option<&'a str>)
    ensures
        match best_from(needle@, strs(candidates@), 0, None) {
            Some(k) => 0 <= k < candidates@.len() && (r matches Some(x) && x@ == candidates@[k]@),
            None => r is None,
        },
{
    let mut best: Option<usize> = None;
    let mut best_key: (usize, usize) = (0, 0);
    let mut i: usize = 0;
    while i < candidates.len()
        invariant
            i <= candidates@.len(),
            best_from(needle@, strs(candidates@), i as int, match best {
                Some(b) => Some(b as int),
                None => None,
            }) == best_from(needle@, strs(candidates@), 0, None),
            best matches Some(b) ==> b < i && best_key.0 == edit_distance(needle@, candidates@[b as int]@)
                && best_key.1 == crate::node::byte_len(candidates@[b as int]@),
        decreases candidates@.len() - i,
    {
        let c = candidates[i].as_str();
        let d = levenshtein(needle, c);
        let l = c.len();
        let take = d <= 6 && match best {
            None => true,
            Some(_) => d < best_key.0 || (d == best_key.0 && l < best_key.1),
        };
        if take {
            best = Some(i);
            best_key = (d, l);
        }
        i += 1;
    }
    match best {
        Some(b) => Some(candidates[b].as_str()),
        None => None,
    }
}

/// The current name of a configuration key that was renamed.
pub open spec fn renamed_key(key: Seq<char>) -> Option<Seq<char>> {
    if key == "use_tabchars"@ {
        Some("use_tabs"@)
    } else if key == "max_lines_hwrap"@ {
        Some("max_hanging_wrap_lines"@)
    } else if key == "max_pargs_hwrap"@ {
        Some("max_hanging_wrap_positional_args"@)
    } else if key == "max_subgroups_hwrap"@ {
        Some("max_hanging_wrap_groups"@)
    } else if key == "min_prefix_chars"@ {
        Some("min_prefix_length"@)
    } else if key == "max_prefix_chars"@ {
        Some("max_prefix_length"@)
    } else if key == "separate_ctrl_name_with_space"@ {
        Some("space_before_control_paren"@)
    } else if key == "separate_fn_name_with_space"@ {
        Some("space_before_definition_paren"@)
    } else {
        None
    }
}

/// The current name of a configuration key that was renamed.
pub fn renamed_config_key(key: &str) -> (r: Option<&'static str>)
    ensures
        match renamed_key(key@) {
            Some(k) => r matches Some(x) && x@ == k,
            None => r is None,
        },
{
    if str_eq(key, "use_tabchars") {
        Some("use_tabs")
    } else if str_eq(key, "max_lines_hwrap") {
        Some("max_hanging_wrap_lines")
    } else if str_eq(key, "max_pargs_hwrap") {
        Some("max_hanging_wrap_positional_args")
    } else if str_eq(key, "max_subgroups_hwrap") {
        Some("max_hanging_wrap_groups")
    } else if str_eq(key, "min_prefix_chars") {
        Some("min_prefix_length")
    } else if str_eq(key, "max_prefix_chars") {
        Some("max_prefix_length")
    } else if str_eq(key, "separate_ctrl_name_with_space") {
        Some("space_before_control_paren")
    } else if str_eq(key, "separate_fn_name_with_space") {
        Some("space_before_definition_paren")
    } else {
        None
    }
}

// ── Rendered errors ─────────────────────────────────────────────────────────

/// A string as `{:?}` renders it: quoted, with quotes, backslashes and
/// non-printable characters escaped.
pub uninterp spec fn debug_quoted(s: Seq<char>) -> Seq<char>;

/// Trusted: `format!("{s:?}")`, the `Debug` rendering of a string slice
/// from std. Its result is named `debug_quoted`; which characters it escapes
/// rests on Unicode tables and is not stated.
#[verifier::external_body]
fn debug_str(s: &str) -> (r: String)
    ensures
        r@ == debug_quoted(s@),
{
    format!("{s:?}")
}

/// The quoted pattern of an `invalid file regex "..."` message: from the
/// first double quote through the next one.
pub open spec fn invalid_regex_pattern(message: Seq<char>) -> Option<Seq<char>> {
    let prefix = "invalid file regex "@;
    if !starts_with(message, prefix) {
        None
    } else {
        let tail = message.subrange(prefix.len() as int, message.len() as int);
        match crate::text::first_index(tail, '"') {
            None => None,
            Some(a) => match crate::text::first_index(tail.subrange(a + 1, tail.len() as int), '"') {
                None => None,
                Some(b) => Some(tail.subrange(a, a + b + 2)),
            },
        }
    }
}

fn first_char_index(v: &Vec<char>, from: usize, c: char) -> (r: Option<usize>)
    requires
        from <= v@.len(),
    ensures
        r matches Some(i) ==> from <= i < v@.len() && crate::text::first_index(
            v@.subrange(from as int, v@.len() as int),
            c,
        ) == Some(i - from),
        r is None ==> crate::text::first_index(v@.subrange(from as int, v@.len() as int), c) is None,
{
    let mut i = from;
    while i < v.len() && v[i] != c
        invariant
            from <= i <= v@.len(),
            forall|j: int| from <= j < i ==> v@[j] != c,
        decreases v@.len() - i,
    {
        i += 1;
    }
    proof {
        let t = v@.subrange(from as int, v@.len() as int);
        assert forall|j: int| 0 <= j < i - from implies t[j] != c by {
            assert(t[j] == v@[from + j]);
        }
        if i < v@.len() {
            assert(t[i - from] == v@[i as int]);
        }
        crate::text::lemma_first_index_is(t, c, i - from);
    }
    if i < v.len() {
        Some(i)
    } else {
        None
    }
}

/// The quoted pattern of an `invalid file regex "..."` message.
pub fn extract_invalid_regex_pattern(message: &str) -> (r: Option<String>)
    ensures
        match invalid_regex_pattern(message@) {
            Some(p) => r matches Some(x) && x@ == p,
            None => r is None,
        },
{
    if !crate::text::starts_with_str(message, "invalid file regex ") {
        return None;
    }
    proof {
        reveal_strlit("invalid file regex ");
    }
    let v = chars_of(message);
    let ghost tail = message@.subrange(19, message@.len() as int);
    let a = match first_char_index(&v, 19, '"') {
        Some(a) => a,
        None => {
            assert(v@.subrange(19, v@.len() as int) =~= tail);
            return None;
        },
    };
    assert(v@.subrange(19, v@.len() as int) =~= tail);
    let b = match first_char_index(&v, a + 1, '"') {
        Some(b) => b,
        None => {
            assert(v@.subrange(a + 1, v@.len() as int) =~= tail.subrange(a - 19 + 1, tail.len() as int));
            return None;
        },
    };
    assert(v@.subrange(a + 1, v@.len() as int) =~= tail.subrange(a - 19 + 1, tail.len() as int));
    let r = crate::text::string_of(&v, a, b + 1);
    assert(r@ =~= tail.subrange(a - 19, b - 19 + 1));
    Some(r)
}

/// `hint: ...` lines, one per hint.
pub open spec fn hint_lines(hints: Seq<Seq<char>>) -> Seq<char>
    decreases hints.len(),
{
    if hints.len() == 0 {
        Seq::empty()
    } else {
        hint_lines(hints.drop_last()) + "hint: "@ + hints.last() + "\n"@
    }
}

fn push_hints(out: &mut String, hints: &Vec<String>)
    ensures
        final(out)@ == old(out)@ + hint_lines(strs(hints@)),
{
    let ghost hs = strs(hints@);
    let ghost start = out@;
    let mut i: usize = 0;
    assert(hs.subrange(0, 0) =~= Seq::<Seq<char>>::empty());
    assert(out@ =~= start + hint_lines(hs.subrange(0, 0)));
    while i < hints.len()
        invariant
            i <= hints@.len(),
            hs == strs(hints@),
            out@ == start + hint_lines(hs.subrange(0, i as int)),
        decreases hints@.len() - i,
    {
        push_str(out, "hint: ");
        push_str(out, hints[i].as_str());
        push_str(out, "\n");
        assert(hs.subrange(0, i + 1).drop_last() =~= hs.subrange(0, i as int));
        assert(hs.subrange(0, i + 1).last() == hints@[i as int]@);
        assert(out@ =~= start + hint_lines(hs.subrange(0, i + 1)));
        i += 1;
    }
    assert(hs.subrange(0, hs.len() as int) =~= hs);
}

/// The rendering of a formatter error: the message, with a hint for an
/// invalid file regex or a missing path.
pub open spec fn formatter_error_text(message: Seq<char>) -> Seq<char> {
    trim_end(
        "error: "@ + message + "\n"@ + match invalid_regex_pattern(message) {
            Some(p) => "hint: check the --path-regex pattern "@ + debug_quoted(p)
                + "; Rust regex syntax does not support every PCRE feature\n"@,
            None => if contains(message, "no such file or directory"@) {
                "hint: pass an existing file or directory, or omit input paths to recurse from the current working directory\n"@
            } else {
                Seq::<char>::empty()
            },
        },
    )
}

/// Render a formatter error with a hint where one applies.
pub fn render_formatter_error(message: &str) -> (r: String)
    ensures
        r@ == formatter_error_text(message@),
{
    let mut out = owned("error: ");
    push_str(&mut out, message);
    push_str(&mut out, "\n");
    match extract_invalid_regex_pattern(message) {
        Some(p) => {
            push_str(&mut out, "hint: check the --path-regex pattern ");
            push_str(&mut out, debug_str(p.as_str()).as_str());
            push_str(&mut out, "; Rust regex syntax does not support every PCRE feature\n");
            assert(out@ =~= "error: "@ + message@ + "\n"@ + ("hint: check the --path-regex pattern "@ + debug_quoted(p@)
                + "; Rust regex syntax does not support every PCRE feature\n"@));
        },
        None => {
            if crate::text::contains_str(message, "no such file or directory") {
                push_str(
                    &mut out,
                    "hint: pass an existing file or directory, or omit input paths to recurse from the current working directory\n",
                );
            } else {
                assert(out@ =~= "error: "@ + message@ + "\n"@ + Seq::<char>::empty());
            }
        },
    }
    crate::text::trim_end_str(out.as_str())
}

/// The source line a parse failure points at: the reported line, else the
/// last line, else nothing.
pub open spec fn failure_line(lines: Seq<Seq<char>>, line: nat) -> Seq<char> {
    if sat_sub(line, 1) < lines.len() {
        lines[sat_sub(line, 1) as int]
    } else if lines.len() > 0 {
        lines.last()
    } else {
        Seq::empty()
    }
}

/// The head of a parse error report: the summary and the location, with
/// a snippet of the source when there is one.
pub open spec fn location_text(
    summary: Seq<char>,
    display_name: Seq<char>,
    line: nat,
    column: nat,
    source: Seq<char>,
    start_line: nat,
    focus_line: nat,
) -> Seq<char> {
    "error: "@ + summary + "\n  --> "@ + display_name + ":"@ + decimal(line) + ":"@ + decimal(column) + "\n"@ + if source.len() > 0 {
        "\n"@ + snippet(source, start_line, focus_line, column) + "\n"@
    } else {
        Seq::<char>::empty()
    }
}

/// The hint added when a failure at the end of a source comes from an
/// unclosed parenthesis.
pub open spec fn unclosed_hint() -> Seq<char> {
    "unclosed `(` \u{2014} the closing `)` is missing"@
}

/// The rendering of a parse error: summary, location (at the last unclosed
/// `(` when the failure is at the end of the source), snippet, hints, the
/// parser's detail, and a command that reproduces it for a named file.
pub open spec fn parse_error_report(
    display_name: Seq<char>,
    source: Seq<char>,
    start_line: nat,
    line: nat,
    column: nat,
    message: Seq<char>,
) -> Seq<char> {
    let lines = lines_of(source);
    let (summary, hints) = classify(display_name, failure_line(lines, line), message);
    let unmatched = if line >= sat_sub(lines.len(), 1) {
        unmatched_paren(source, start_line)
    } else {
        None
    };
    let (head, all_hints) = match unmatched {
        Some((ol, oc, _)) => (
            location_text(summary, display_name, ol, oc, source, start_line, sat_sub(ol, start_line) + 1),
            seq![unclosed_hint()] + hints,
        ),
        None => (location_text(summary, display_name, start_line + sat_sub(line, 1), column, source, start_line, line), hints),
    };
    trim_end(
        head + hint_lines(all_hints) + "parser detail: "@ + message + "\n"@ + if display_name != "<stdin>"@ {
            "repro: cmakefmt --debug --check "@ + display_name + "\n"@
        } else {
            Seq::<char>::empty()
        },
    )
}

fn location(
    summary: &str,
    display_name: &str,
    line: usize,
    column: usize,
    source: &str,
    start_line: usize,
    focus_line: usize,
) -> (r: String)
    requires
        start_line + source@.len() + 1 <= usize::MAX,
    ensures
        r@ == location_text(summary@, display_name@, line as nat, column as nat, source@, start_line as nat, focus_line as nat),
{
    let mut out = owned("error: ");
    push_str(&mut out, summary);
    push_str(&mut out, "\n  --> ");
    push_str(&mut out, display_name);
    push_str(&mut out, ":");
    push_str(&mut out, usize_to_string(line).as_str());
    push_str(&mut out, ":");
    push_str(&mut out, usize_to_string(column).as_str());
    push_str(&mut out, "\n");
    let ghost head = out@;
    if !source.is_empty() {
        push_str(&mut out, "\n");
        push_str(&mut out, render_source_snippet(source, start_line, focus_line, column).as_str());
        push_str(&mut out, "\n");
    }
    assert(out@ =~= location_text(summary@, display_name@, line as nat, column as nat, source@, start_line as nat, focus_line as nat));
    out
}

/// Render a parse error for people.
pub fn render_parse_error(
    display_name: &str,
    source_text: &str,
    start_line: usize,
    diagnostic: &crate::error::ParseDiagnostic,
) -> (r: String)
    requires
        start_line + source_text@.len() + 1 <= usize::MAX,
        start_line + diagnostic.line <= usize::MAX,
    ensures
        r@ == parse_error_report(
            display_name@,
            source_text@,
            start_line as nat,
            diagnostic.line as nat,
            diagnostic.column as nat,
            diagnostic.message@,
        ),
{
    let local_line = diagnostic.line;
    let local_column = diagnostic.column;
    let lines = text_lines(source_text);
    let ghost ls = strs(lines@);
    let n = lines.len();
    let idx: usize = if local_line >= 1 { local_line - 1 } else { 0 };
    let line_text: &str = if idx < n {
        lines[idx].as_str()
    } else if n > 0 {
        lines[n - 1].as_str()
    } else {
        ""
    };
    assert(line_text@ == failure_line(ls, local_line as nat)) by {
        if idx < n {
            assert(ls[idx as int] == lines@[idx as int]@);
        } else if n > 0 {
            assert(ls.last() == lines@[n - 1]@);
        } else {
            reveal_strlit("");
        }
    }
    let classified = classify_parse_failure(display_name, line_text, diagnostic.message.as_str());
    let summary = classified.0;
    let hints = classified.1;
    let near_eof = local_line >= if n >= 1 { n - 1 } else { 0 };
    let unmatched = if near_eof {
        find_unmatched_open_paren(source_text, start_line)
    } else {
        None
    };
    let mut out: String;
    let mut all_hints: Vec<String> = Vec::new();
    match unmatched {
        Some(found) => {
            let open_line = found.0;
            let open_col = found.1;
            let focus = if open_line >= start_line { open_line - start_line } else { 0 } + 1;
            out = location(summary.as_str(), display_name, open_line, open_col, source_text, start_line, focus);
            all_hints.push(owned("unclosed `(` \u{2014} the closing `)` is missing"));
            let mut i: usize = 0;
            while i < hints.len()
                invariant
                    i <= hints@.len(),
                    all_hints@.len() == i + 1,
                    strs(all_hints@) == seq![unclosed_hint()] + strs(hints@).subrange(0, i as int),
                decreases hints@.len() - i,
            {
                let ghost pre = strs(all_hints@);
                all_hints.push(crate::text::copy_string(&hints[i]));
                assert(strs(all_hints@) =~= pre.push(hints@[i as int]@));
                assert(strs(hints@).subrange(0, i + 1) =~= strs(hints@).subrange(0, i as int).push(hints@[i as int]@));
                assert(strs(all_hints@) =~= seq![unclosed_hint()] + strs(hints@).subrange(0, i + 1));
                i += 1;
            }
            assert(strs(hints@).subrange(0, hints@.len() as int) =~= strs(hints@));
        },
        None => {
            out = location(summary.as_str(), display_name, start_line + idx, local_column, source_text, start_line, local_line);
            all_hints = hints;
        },
    }
    push_hints(&mut out, &all_hints);
    push_str(&mut out, "parser detail: ");
    push_str(&mut out, diagnostic.message.as_str());
    push_str(&mut out, "\n");
    let ghost before_repro = out@;
    if !str_eq(display_name, "<stdin>") {
        push_str(&mut out, "repro: cmakefmt --debug --check ");
        push_str(&mut out, display_name);
        push_str(&mut out, "\n");
    }
    assert(out@ =~= before_repro + if display_name@ != "<stdin>"@ {
        "repro: cmakefmt --debug --check "@ + display_name@ + "\n"@
    } else {
        Seq::<char>::empty()
    });
    crate::text::trim_end_str(out.as_str())
}

/// The hints for a config or spec file error: about an unknown key (its new
/// name, or the closest expected key), and for a config file, about the
/// order in which files apply.
pub open spec fn file_hints(kind: Seq<char>, detail: Seq<char>) -> Seq<Seq<char>> {
    (match unknown_field_hint(detail) {
        Some((f, expected)) => seq![
            match renamed_key(f) {
                Some(u) => "`"@ + f + "` is not a valid cmakefmt key; use `"@ + u
                    + "` or run `cmakefmt config convert`"@,
                None => match best_from(f, expected, 0, None) {
                    Some(k) => "unknown key `"@ + f + "`; did you mean `"@ + expected[k] + "`?"@,
                    None => "unknown key `"@ + f + "` in "@ + kind + " file"@,
                },
            },
        ],
        None => Seq::empty(),
    }) + if kind == "config"@ {
        seq!["config files are applied in order; later files override earlier ones"@]
    } else {
        Seq::<Seq<char>>::empty()
    }
}

/// The rendering of a config or spec file error: the file and its format,
/// a snippet at the reported position when the file's text and the
/// position are known, hints, and the parser's detail.
pub open spec fn file_error_report(
    kind: Seq<char>,
    path: Seq<char>,
    contents: Option<Seq<char>>,
    format: Seq<char>,
    detail: Seq<char>,
    line: Option<usize>,
    column: Option<usize>,
) -> Seq<char> {
    trim_end(
        "error: invalid "@ + kind + " file ("@ + format + ")\n  --> "@ + path + "\n"@ + (match (contents, line, column) {
            (Some(c), Some(l), Some(col)) => "      at "@ + decimal(l as nat) + ":"@ + decimal(col as nat) + "\n"@ + "\n"@
                + snippet(c, 1, l as nat, col as nat) + "\n"@,
            _ => Seq::<char>::empty(),
        }) + hint_lines(file_hints(kind, detail)) + "detail: "@ + detail + "\n"@,
    )
}

fn file_hint_list(kind: &str, detail: &str) -> (r: Vec<String>)
    ensures
        strs(r@) == file_hints(kind@, detail@),
{
    let mut hints: Vec<String> = Vec::new();
    match extract_unknown_field_hint(detail) {
        Some(found) => {
            let field = found.0;
            let expected = found.1;
            let f = field.as_str();
            let hint = match renamed_config_key(f) {
                Some(updated) => {
                    let mut h = owned("`");
                    push_str(&mut h, f);
                    push_str(&mut h, "` is not a valid cmakefmt key; use `");
                    push_str(&mut h, updated);
                    push_str(&mut h, "` or run `cmakefmt config convert`");
                    h
                },
                None => match best_match(f, &expected) {
                    Some(suggestion) => {
                        let mut h = owned("unknown key `");
                        push_str(&mut h, f);
                        push_str(&mut h, "`; did you mean `");
                        push_str(&mut h, suggestion);
                        push_str(&mut h, "`?");
                        h
                    },
                    None => {
                        let mut h = owned("unknown key `");
                        push_str(&mut h, f);
                        push_str(&mut h, "` in ");
                        push_str(&mut h, kind);
                        push_str(&mut h, " file");
                        h
                    },
                },
            };
            hints.push(hint);
        },
        None => {},
    }
    let ghost first = strs(hints@);
    if str_eq(kind, "config") {
        hints.push(owned("config files are applied in order; later files override earlier ones"));
    }
    assert(strs(hints@) =~= file_hints(kind@, detail@));
    hints
}

/// Render a config or spec file error for people. `contents` is the text of
/// the file, when it could be read.
pub fn render_file_parse_error(
    kind: &str,
    path: &str,
    contents: Option<&str>,
    source: &crate::error::FileParseError,
) -> (r: String)
    requires
        contents matches Some(c) ==> c@.len() + 2 <= usize::MAX,
    ensures
        r@ == file_error_report(
            kind@,
            path@,
            crate::spec::opt_text(contents),
            source.format@,
            source.message@,
            source.line,
            source.column,
        ),
{
    let detail = source.message.as_str();
    let mut out = owned("error: invalid ");
    push_str(&mut out, kind);
    push_str(&mut out, " file (");
    push_str(&mut out, source.format);
    push_str(&mut out, ")\n  --> ");
    push_str(&mut out, path);
    push_str(&mut out, "\n");
    let ghost head = out@;
    match (contents, source.line, source.column) {
        (Some(c), Some(line), Some(column)) => {
            push_str(&mut out, "      at ");
            push_str(&mut out, usize_to_string(line).as_str());
            push_str(&mut out, ":");
            push_str(&mut out, usize_to_string(column).as_str());
            push_str(&mut out, "\n");
            push_str(&mut out, "\n");
            push_str(&mut out, render_source_snippet(c, 1, line, column).as_str());
            push_str(&mut out, "\n");
        },
        _ => {},
    }
    let ghost with_snippet = out@;
    let hints = file_hint_list(kind, detail);
    push_hints(&mut out, &hints);
    push_str(&mut out, "detail: ");
    push_str(&mut out, detail);
    push_str(&mut out, "\n");
    assert(out@ =~= "error: invalid "@ + kind@ + " file ("@ + source.format@ + ")\n  --> "@ + path@ + "\n"@ + (match (crate::spec::opt_text(contents), source.line, source.column) {
        (Some(c), Some(l), Some(col)) => "      at "@ + decimal(l as nat) + ":"@ + decimal(col as nat) + "\n"@ + "\n"@
            + snippet(c, 1, l as nat, col as nat) + "\n"@,
        _ => Seq::<char>::empty(),
    }) + hint_lines(file_hints(kind@, detail@)) + "detail: "@ + detail@ + "\n"@);
    crate::text::trim_end_str(out.as_str())
}

/// The text of a layout error for people, with a hint.
pub open spec fn layout_error_report(line_no: nat, width: nat, limit: nat) -> Seq<char> {
    "error: line "@ + decimal(line_no) + " is "@ + decimal(width) + " characters wide, exceeding the limit of "@
        + decimal(limit) + "\nhint: set line_width = "@ + decimal(width)
        + " (or higher), add the command to always_wrap, or disable require_valid_layout"@
}

/// Render any error for people. `contents` is the text of the config or
/// spec file a file error is about, when it could be read.
pub fn render_cli_error(err: &crate::error::Error, contents: Option<&str>) -> (r: String)
    requires
        err matches crate::error::Error::Parse(p) ==> p.start_line + p.source_text@.len() + 1 <= usize::MAX
            && p.start_line + p.diagnostic.line <= usize::MAX,
        contents matches Some(c) ==> c@.len() + 2 <= usize::MAX,
    ensures
        err matches crate::error::Error::Parse(p) ==> r@ == parse_error_report(
            p.display_name@,
            p.source_text@,
            p.start_line as nat,
            p.diagnostic.line as nat,
            p.diagnostic.column as nat,
            p.diagnostic.message@,
        ),
        err matches crate::error::Error::Config(c) ==> r@ == file_error_report(
            "config"@,
            c.path@,
            crate::spec::opt_text(contents),
            c.details.format@,
            c.details.message@,
            c.details.line,
            c.details.column,
        ),
        err matches crate::error::Error::Spec(c) ==> r@ == file_error_report(
            "spec"@,
            c.path@,
            crate::spec::opt_text(contents),
            c.details.format@,
            c.details.message@,
            c.details.line,
            c.details.column,
        ),
        err matches crate::error::Error::Formatter(m) ==> r@ == formatter_error_text(m@),
        err matches crate::error::Error::LayoutTooWide { line_no, width, limit } ==> r@ == layout_error_report(
            *line_no as nat,
            *width as nat,
            *limit as nat,
        ),
        err is Io ==> starts_with(r@, "error: I/O failure: "@),
{
    match err {
        crate::error::Error::Parse(p) => render_parse_error(
            p.display_name.as_str(),
            p.source_text.as_str(),
            p.start_line,
            &p.diagnostic,
        ),
        crate::error::Error::Config(c) => render_file_parse_error("config", c.path.as_str(), contents, &c.details),
        crate::error::Error::Spec(c) => render_file_parse_error("spec", c.path.as_str(), contents, &c.details),
        crate::error::Error::Formatter(m) => render_formatter_error(m.as_str()),
        crate::error::Error::Io(e) => {
            let mut out = owned("error: I/O failure: ");
            let ghost head = out@;
            push_str(&mut out, crate::error::io_error_text(e).as_str());
            assert(out@.subrange(0, head.len() as int) =~= head);
            out
        },
        crate::error::Error::LayoutTooWide { line_no, width, limit } => {
            let mut out = owned("error: line ");
            push_str(&mut out, usize_to_string(*line_no).as_str());
            push_str(&mut out, " is ");
            push_str(&mut out, usize_to_string(*width).as_str());
            push_str(&mut out, " characters wide, exceeding the limit of ");
            push_str(&mut out, usize_to_string(*limit).as_str());
            push_str(&mut out, "\nhint: set line_width = ");
            push_str(&mut out, usize_to_string(*width).as_str());
            push_str(&mut out, " (or higher), add the command to always_wrap, or disable require_valid_layout");
            out
        },
    }
}

} // verus!
