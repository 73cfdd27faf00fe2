//! The CMake parser: source text to a [`File`].
//!
//! The grammar is stated below as spec functions over the source's
//! characters; [`parse`] is proved to compute exactly what they describe.

use vstd::prelude::*;
use vstd::utf8::encode_utf8;
use crate::ast::{Argument, BracketArgument, CommandInvocation, Comment, File, Statement, SArgument, SComment, SCommand, SStatement, args_view, stmts_view};
use crate::error::{Error, ParseDiagnostic, ParseError};
use crate::text::{chars_of, string_of, owned, push_str};

verus! {

broadcast use vstd::string::group_string_axioms;

// ── Character classes ───────────────────────────────────────────────────────

/// Blank characters that separate tokens on a line.
pub open spec fn is_blank(c: char) -> bool {
    c == ' ' || c == '\t' || c == '\r'
}

/// First character of a command name.
pub open spec fn is_ident_start(c: char) -> bool {
    ('a' <= c && c <= 'z') || ('A' <= c && c <= 'Z') || c == '_'
}

/// Later character of a command name.
pub open spec fn is_ident_char(c: char) -> bool {
    is_ident_start(c) || ('0' <= c && c <= '9')
}

/// Characters that end an unquoted token.
pub open spec fn is_word_stop(c: char) -> bool {
    is_blank(c) || c == '\n' || c == ')' || c == '#'
}

// ── Lexical spec ────────────────────────────────────────────────────────────

/// Number of consecutive `=` starting at `i`.
pub open spec fn eq_run(s: Seq<char>, i: int) -> nat
    decreases s.len() - i,
{
    if 0 <= i < s.len() && s[i] == '=' {
        1 + eq_run(s, i + 1)
    } else {
        0
    }
}

/// The level of a bracket opening `[=*[` at `i`, if one starts there.
pub open spec fn bracket_open(s: Seq<char>, i: int) -> Option<nat> {
    let k = eq_run(s, i + 1);
    if 0 <= i && i + 1 + k < s.len() && s[i] == '[' && s[i + 1 + k] == '[' {
        Some(k)
    } else {
        None
    }
}

/// End (exclusive) and level of the first closing `]=*]` at or after `j`,
/// whatever its level.
pub open spec fn close_any(s: Seq<char>, j: int) -> Option<(int, nat)>
    decreases s.len() - j,
{
    if j < 0 || j >= s.len() {
        None
    } else {
        let k = eq_run(s, j + 1);
        if s[j] == ']' && j + 1 + k < s.len() && s[j + 1 + k] == ']' {
            Some((j + 2 + k, k))
        } else {
            close_any(s, j + 1)
        }
    }
}

/// End (exclusive) of the first closing `]` `=`×level `]` at or after `j`.
pub open spec fn close_level(s: Seq<char>, j: int, level: nat) -> Option<int>
    decreases s.len() - j,
{
    if j < 0 || j >= s.len() {
        None
    } else {
        let k = eq_run(s, j + 1);
        if s[j] == ']' && k == level && j + 1 + k < s.len() && s[j + 1 + k] == ']' {
            Some(j + 2 + k)
        } else {
            close_level(s, j + 1, level)
        }
    }
}

/// The end of the line that holds position `j`: the index of its `\n`, or of
/// the `\r` of its `\r\n`, or the end of the text.
pub open spec fn line_end(s: Seq<char>, j: int) -> int
    decreases s.len() - j,
{
    if j < 0 || j >= s.len() {
        s.len() as int
    } else if s[j] == '\n' || (s[j] == '\r' && j + 1 < s.len() && s[j + 1] == '\n') {
        j
    } else {
        line_end(s, j + 1)
    }
}

/// End (exclusive) of a quoted text whose opening quote stands before `j`:
/// backslash escapes the next character, the first other `"` closes it.
pub open spec fn quoted_end(s: Seq<char>, j: int) -> Option<int>
    decreases s.len() - j,
{
    if j < 0 || j >= s.len() {
        None
    } else if s[j] == '\\' {
        if j + 1 < s.len() {
            quoted_end(s, j + 2)
        } else {
            None
        }
    } else if s[j] == '"' {
        Some(j + 1)
    } else {
        quoted_end(s, j + 1)
    }
}

/// End (exclusive) of a parenthesised group open to `depth` levels before
/// `j`; quoted texts and escapes inside it are skipped.
pub open spec fn group_end(s: Seq<char>, j: int, depth: nat) -> Option<int>
    decreases s.len() - j,
{
    if j < 0 || j >= s.len() {
        None
    } else if s[j] == '"' {
        match quoted_end(s, j + 1) {
            Some(e) => if j < e <= s.len() {
                group_end(s, e, depth)
            } else {
                None
            },
            None => None,
        }
    } else if s[j] == '\\' && j + 1 < s.len() {
        group_end(s, j + 2, depth)
    } else if s[j] == '(' {
        group_end(s, j + 1, depth + 1)
    } else if s[j] == ')' {
        if depth <= 1 {
            Some(j + 1)
        } else {
            group_end(s, j + 1, (depth - 1) as nat)
        }
    } else {
        group_end(s, j + 1, depth)
    }
}

/// End (exclusive) of an argument token from `j`: quoted segments, attached
/// parenthesised groups, escapes and plain characters, up to a blank, a
/// newline, `)` or `#`.
pub open spec fn word_end(s: Seq<char>, j: int) -> Option<int>
    decreases s.len() - j,
{
    if j < 0 || j >= s.len() {
        Some(s.len() as int)
    } else if is_word_stop(s[j]) {
        Some(j)
    } else if s[j] == '"' {
        match quoted_end(s, j + 1) {
            Some(e) => if j < e <= s.len() {
                word_end(s, e)
            } else {
                None
            },
            None => None,
        }
    } else if s[j] == '(' {
        match group_end(s, j + 1, 1) {
            Some(e) => if j < e <= s.len() {
                word_end(s, e)
            } else {
                None
            },
            None => None,
        }
    } else if s[j] == '\\' {
        if j + 1 < s.len() {
            word_end(s, j + 2)
        } else {
            None
        }
    } else {
        word_end(s, j + 1)
    }
}

/// End (exclusive) of the identifier characters from `j`.
pub open spec fn ident_end(s: Seq<char>, j: int) -> int
    decreases s.len() - j,
{
    if 0 <= j < s.len() && is_ident_char(s[j]) {
        ident_end(s, j + 1)
    } else {
        j
    }
}

/// First position at or after `j` that is not blank.
pub open spec fn skip_blanks(s: Seq<char>, j: int) -> int
    decreases s.len() - j,
{
    if 0 <= j < s.len() && is_blank(s[j]) {
        skip_blanks(s, j + 1)
    } else {
        j
    }
}

// ── Failures ────────────────────────────────────────────────────────────────

/// Why the source is not valid CMake.
#[derive(Debug, Clone, Copy, PartialEq, Eq)]
pub enum SyntaxKind {
    /// The argument list of a command is not closed before the end.
    UnclosedCommand,
    /// A command name is not followed by `(`.
    ExpectedOpenParen,
    /// A quoted text, group or escape is not finished.
    UnterminatedArgument,
    /// A bracket argument or bracket comment is not closed.
    UnterminatedBracket,
    /// A line starting with `@` is not an `@NAME@` placeholder.
    InvalidPlaceholder,
    /// A character that cannot start a statement.
    UnexpectedCharacter,
}

/// Model of a parse failure.
pub enum ParseFail {
    /// Invalid syntax at a character position.
    Syntax(int, SyntaxKind),
    /// A bracket argument whose closing `=` count differs from its opening.
    BadBracket(Seq<char>),
}

/// The message reported for each kind of syntax error.
pub open spec fn syntax_message(k: SyntaxKind) -> Seq<char> {
    match k {
        SyntaxKind::UnclosedCommand => "expected ')' to close the command invocation"@,
        SyntaxKind::ExpectedOpenParen => "expected '(' after the command name"@,
        SyntaxKind::UnterminatedArgument => "unterminated quoted argument, group or escape"@,
        SyntaxKind::UnterminatedBracket => "unterminated bracket argument or comment"@,
        SyntaxKind::InvalidPlaceholder => "expected a template placeholder such as @NAME@"@,
        SyntaxKind::UnexpectedCharacter => "expected a command invocation or comment"@,
    }
}

// ── Syntactic spec ──────────────────────────────────────────────────────────

/// The comment starting with `#` at `j`, and where it ends: a bracket
/// comment `#[=*[ ... ]=*]` when one opens there, else a line comment.
pub open spec fn comment_at(s: Seq<char>, j: int) -> Result<(SComment, int), ParseFail> {
    match bracket_open(s, j + 1) {
        Some(level) => match close_level(s, j + 3 + level, level) {
            Some(e) => if j < e <= s.len() {
                Ok((SComment::Bracket(s.subrange(j, e)), e))
            } else {
                Err(ParseFail::Syntax(j, SyntaxKind::UnterminatedBracket))
            },
            None => Err(ParseFail::Syntax(j, SyntaxKind::UnterminatedBracket)),
        },
        None => {
            let e = line_end(s, j);
            if j < e <= s.len() {
                Ok((SComment::Line(s.subrange(j, e)), e))
            } else {
                Err(ParseFail::Syntax(j, SyntaxKind::UnexpectedCharacter))
            }
        },
    }
}

/// The argument token starting at `j` (not a comment, blank or `)`), and
/// where it ends.
pub open spec fn argument_at(s: Seq<char>, j: int) -> Result<(SArgument, int), ParseFail> {
    match bracket_open(s, j) {
        Some(level) => match close_any(s, j + 2 + level) {
            Some((e, close)) => if !(j < e <= s.len()) {
                Err(ParseFail::Syntax(j, SyntaxKind::UnterminatedBracket))
            } else if close == level {
                Ok((SArgument::Bracket(level, s.subrange(j, e)), e))
            } else {
                Err(ParseFail::BadBracket(s.subrange(j, e)))
            },
            None => Err(ParseFail::Syntax(j, SyntaxKind::UnterminatedBracket)),
        },
        None => match word_end(s, j) {
            Some(e) => if j < e <= s.len() {
                if s[j] == '"' && quoted_end(s, j + 1) == Some(e) {
                    Ok((SArgument::Quoted(s.subrange(j, e)), e))
                } else {
                    Ok((SArgument::Unquoted(s.subrange(j, e)), e))
                }
            } else {
                Err(ParseFail::Syntax(j, SyntaxKind::UnexpectedCharacter))
            },
            None => Err(ParseFail::Syntax(j, SyntaxKind::UnterminatedArgument)),
        },
    }
}

/// The arguments from `j` up to the closing `)`, appended to `acc`, and the
/// position after that `)`.
pub open spec fn args_from(s: Seq<char>, j: int, acc: Seq<SArgument>) -> Result<
    (Seq<SArgument>, int),
    ParseFail,
>
    decreases s.len() - j,
{
    if j < 0 || j >= s.len() {
        Err(ParseFail::Syntax(s.len() as int, SyntaxKind::UnclosedCommand))
    } else if is_blank(s[j]) || s[j] == '\n' {
        args_from(s, j + 1, acc)
    } else if s[j] == ')' {
        Ok((acc, j + 1))
    } else if s[j] == '#' {
        match comment_at(s, j) {
            Ok((c, e)) => if j < e <= s.len() {
                args_from(s, e, acc.push(SArgument::InlineComment(c)))
            } else {
                Err(ParseFail::Syntax(j, SyntaxKind::UnexpectedCharacter))
            },
            Err(f) => Err(f),
        }
    } else {
        match argument_at(s, j) {
            Ok((a, e)) => if j < e <= s.len() {
                args_from(s, e, acc.push(a))
            } else {
                Err(ParseFail::Syntax(j, SyntaxKind::UnexpectedCharacter))
            },
            Err(f) => Err(f),
        }
    }
}

/// The command invocation whose name starts at `i`, and where it ends.
pub open spec fn command_at(s: Seq<char>, i: int) -> Result<(SCommand, int), ParseFail> {
    let name_end = ident_end(s, i);
    let p = skip_blanks(s, name_end);
    if 0 <= p < s.len() && s[p] == '(' {
        match args_from(s, p + 1, seq![]) {
            Ok((args, e)) => Ok(
                (
                    SCommand {
                        name: s.subrange(i, name_end),
                        arguments: args,
                        trailing: None,
                        span: (i, e),
                    },
                    e,
                ),
            ),
            Err(f) => Err(f),
        }
    } else {
        Err(ParseFail::Syntax(p, SyntaxKind::ExpectedOpenParen))
    }
}

/// Adds pending blank lines to the statement list: merged into a trailing
/// `BlankLines`, else as a new one.
pub open spec fn flush(acc: Seq<SStatement>, pending: nat) -> Seq<SStatement> {
    if pending == 0 {
        acc
    } else if acc.len() > 0 && acc.last() is BlankLines {
        acc.update(acc.len() - 1, SStatement::BlankLines(acc.last()->BlankLines_0 + pending))
    } else {
        acc.push(SStatement::BlankLines(pending))
    }
}

/// Whether a comment on a line that already has content becomes the
/// trailing comment of the command before it.
pub open spec fn attaches(acc: Seq<SStatement>, has_content: bool) -> bool {
    has_content && acc.len() > 0 && acc.last() is Command
        && acc.last()->Command_0.trailing is None
}

/// The statements after placing a comment: attached as the trailing comment
/// of the last command, or flushed blank lines followed by the comment.
pub open spec fn place_comment(
    acc: Seq<SStatement>,
    pending: nat,
    c: SComment,
    has_content: bool,
) -> (Seq<SStatement>, nat) {
    if attaches(acc, has_content) {
        let cmd = acc.last()->Command_0;
        (acc.update(acc.len() - 1, SStatement::Command(SCommand { trailing: Some(c), ..cmd })), pending)
    } else {
        (flush(acc, pending).push(SStatement::Comment(c)), 0)
    }
}

/// The placeholder `@NAME@` starting at `i`, and where it ends.
pub open spec fn placeholder_at(s: Seq<char>, i: int) -> Result<(Seq<char>, int), ParseFail> {
    let e = ident_end(s, i + 1);
    if 0 <= i && i + 1 < e && e < s.len() && s[e] == '@' {
        Ok((s.subrange(i, e + 1), e + 1))
    } else {
        Err(ParseFail::Syntax(i, SyntaxKind::InvalidPlaceholder))
    }
}

/// The statements of the file from `i`, given those before (`acc`), the
/// blank lines not yet recorded, and whether the current line has content.
pub open spec fn top(
    s: Seq<char>,
    i: int,
    acc: Seq<SStatement>,
    pending: nat,
    has_content: bool,
) -> Result<Seq<SStatement>, ParseFail>
    decreases s.len() - i,
{
    if i < 0 || i >= s.len() {
        Ok(flush(acc, pending))
    } else if is_blank(s[i]) {
        top(s, i + 1, acc, pending, has_content)
    } else if s[i] == '\n' {
        if has_content {
            top(s, i + 1, acc, pending, false)
        } else {
            top(s, i + 1, acc, pending + 1, false)
        }
    } else if s[i] == '#' {
        match comment_at(s, i) {
            Ok((c, e)) => if i < e <= s.len() {
                let placed = place_comment(acc, pending, c, has_content);
                top(s, e, placed.0, placed.1, true)
            } else {
                Err(ParseFail::Syntax(i, SyntaxKind::UnexpectedCharacter))
            },
            Err(f) => Err(f),
        }
    } else if s[i] == '@' {
        match placeholder_at(s, i) {
            Ok((t, e)) => if i < e <= s.len() {
                top(s, e, flush(acc, pending).push(SStatement::TemplatePlaceholder(t)), 0, true)
            } else {
                Err(ParseFail::Syntax(i, SyntaxKind::InvalidPlaceholder))
            },
            Err(f) => Err(f),
        }
    } else if is_ident_start(s[i]) {
        match command_at(s, i) {
            Ok((c, e)) => if i < e <= s.len() {
                top(s, e, flush(acc, pending).push(SStatement::Command(c)), 0, true)
            } else {
                Err(ParseFail::Syntax(i, SyntaxKind::UnexpectedCharacter))
            },
            Err(f) => Err(f),
        }
    } else {
        Err(ParseFail::Syntax(i, SyntaxKind::UnexpectedCharacter))
    }
}

/// Where parsing starts: after a leading byte-order mark, if any.
pub open spec fn start_of(s: Seq<char>) -> int {
    if s.len() > 0 && s[0] == '\u{FEFF}' {
        1
    } else {
        0
    }
}

/// The statements of a source text, or why it is not valid.
pub open spec fn parse_chars(s: Seq<char>) -> Result<Seq<SStatement>, ParseFail> {
    top(s, start_of(s), seq![], 0, false)
}

/// The offset in bytes of character position `k`: the length of the UTF-8
/// encoding of the characters before it.
pub open spec fn byte_offset(s: Seq<char>, k: int) -> int {
    encode_utf8(s.subrange(0, k)).len() as int
}

/// A statement with its command span given in bytes rather than characters.
pub open spec fn byte_span_stmt(s: Seq<char>, st: SStatement) -> SStatement {
    match st {
        SStatement::Command(c) => SStatement::Command(
            SCommand { span: (byte_offset(s, c.span.0), byte_offset(s, c.span.1)), ..c },
        ),
        _ => st,
    }
}

/// The statements of a source text, command spans as byte offsets into its
/// UTF-8 encoding, or why it is not valid.
pub open spec fn parse_spec(s: Seq<char>) -> Result<Seq<SStatement>, ParseFail> {
    match parse_chars(s) {
        Ok(x) => Ok(x.map_values(|st: SStatement| byte_span_stmt(s, st))),
        Err(f) => Err(f),
    }
}

/// 1-based line and column of position `pos`, scanning from `j` at
/// (`line`, `col`).
pub open spec fn line_col_from(s: Seq<char>, j: int, pos: int, line: nat, col: nat) -> (nat, nat)
    decreases pos - j,
{
    if j >= pos || j < 0 || j >= s.len() {
        (line, col)
    } else if s[j] == '\n' {
        line_col_from(s, j + 1, pos, sat_inc(line), 1)
    } else {
        line_col_from(s, j + 1, pos, line, sat_inc(col))
    }
}

/// One more, saturating at the largest machine size.
pub open spec fn sat_inc(x: nat) -> nat {
    if x >= usize::MAX {
        usize::MAX as nat
    } else {
        x + 1
    }
}

/// 1-based line and column of a position (each saturating at the largest
/// machine size).
pub open spec fn line_col(s: Seq<char>, pos: int) -> (nat, nat) {
    line_col_from(s, 0, pos, 1, 1)
}

/// Number of line breaks in a text.
pub open spec fn newlines_in(t: Seq<char>) -> nat
    decreases t.len(),
{
    if t.len() == 0 {
        0
    } else {
        newlines_in(t.drop_last()) + if t.last() == '\n' { 1nat } else { 0nat }
    }
}

/// Number of characters after the last line break of a text (all of them
/// when it has none).
pub open spec fn since_newline(t: Seq<char>) -> nat
    decreases t.len(),
{
    if t.len() == 0 {
        0
    } else if t.last() == '\n' {
        0
    } else {
        since_newline(t.drop_last()) + 1
    }
}

proof fn lemma_counts_bounded(t: Seq<char>)
    ensures
        newlines_in(t) <= t.len(),
        since_newline(t) <= t.len(),
    decreases t.len(),
{
    if t.len() > 0 {
        lemma_counts_bounded(t.drop_last());
    }
}

proof fn lemma_line_col_from(s: Seq<char>, j: int, pos: int)
    requires
        0 <= j <= pos <= s.len(),
        pos < usize::MAX,
    ensures
        line_col_from(s, j, pos, 1 + newlines_in(s.subrange(0, j)), 1 + since_newline(s.subrange(0, j))) == (
            1 + newlines_in(s.subrange(0, pos)),
            1 + since_newline(s.subrange(0, pos)),
        ),
    decreases pos - j,
{
    if j < pos {
        let a = s.subrange(0, j);
        let b = s.subrange(0, j + 1);
        assert(b.drop_last() =~= a);
        assert(b.last() == s[j]);
        lemma_counts_bounded(a);
        lemma_line_col_from(s, j + 1, pos);
    }
}

/// Where a position lies: its 1-based line is one more than the line
/// breaks before it, and its 1-based column one more than the characters
/// between the last of those breaks and it.
pub proof fn lemma_line_col(s: Seq<char>, pos: int)
    requires
        0 <= pos <= s.len(),
        pos < usize::MAX,
    ensures
        line_col(s, pos) == (1 + newlines_in(s.subrange(0, pos)), 1 + since_newline(s.subrange(0, pos))),
{
    assert(s.subrange(0, 0) =~= Seq::<char>::empty());
    lemma_line_col_from(s, 0, pos);
}

/// The name under which the parser reports the text it was given.
pub open spec fn input_name() -> Seq<char> {
    "<input>"@
}

/// What `parse` returns for a source text, stated over [`parse_spec`].
pub open spec fn parse_result_ok(source: Seq<char>, r: Result<File, Error>) -> bool {
    match parse_spec(source) {
        Ok(stmts) => r matches Ok(f) && f@ == stmts,
        Err(ParseFail::Syntax(pos, kind)) => r matches Err(Error::Parse(e)) && {
            &&& e.display_name@ == input_name()
            &&& e.source_text@ == source
            &&& e.start_line == 1
            &&& e.diagnostic.message@ == syntax_message(kind)
            &&& e.diagnostic.line as nat == line_col(source, pos).0
            &&& e.diagnostic.column as nat == line_col(source, pos).1
        },
        Err(ParseFail::BadBracket(raw)) => r matches Err(Error::Formatter(m)) && m@
            == "invalid bracket argument delimiter: "@ + raw,
    }
}

/// Whether `e` is the error that parsing `source` fails with, reported under
/// the source name `name`.
pub open spec fn named_parse_failure(source: Seq<char>, name: Seq<char>, e: Error) -> bool {
    match parse_spec(source) {
        Ok(_) => false,
        Err(ParseFail::Syntax(pos, kind)) => e matches Error::Parse(p) && {
            &&& p.display_name@ == name
            &&& p.source_text@ == source
            &&& p.start_line == 1
            &&& p.diagnostic.message@ == syntax_message(kind)
            &&& p.diagnostic.line as nat == line_col(source, pos).0
            &&& p.diagnostic.column as nat == line_col(source, pos).1
        },
        Err(ParseFail::BadBracket(raw)) => e matches Error::Formatter(m) && m@
            == "invalid bracket argument delimiter: "@ + raw,
    }
}

// ── Shape of a parsed file ──────────────────────────────────────────────────

/// A parsed statement in shape: a blank-line run counts at least one line,
/// and a command's span lies within a source of length `n`.
pub open spec fn stmt_ok(st: SStatement, n: int) -> bool {
    match st {
        SStatement::BlankLines(c) => c >= 1,
        SStatement::Command(c) => 0 <= c.span.0 <= c.span.1 <= n,
        _ => true,
    }
}

/// The shape of a parsed file: every statement in shape and no two
/// blank-line runs in a row.
pub open spec fn parsed_wf(stmts: Seq<SStatement>, n: int) -> bool {
    &&& forall|k: int| 0 <= k < stmts.len() ==> stmt_ok(#[trigger] stmts[k], n)
    &&& forall|k: int|
        0 <= k < stmts.len() - 1 ==> !(#[trigger] stmts[k] is BlankLines && stmts[k + 1] is BlankLines)
}

proof fn lemma_push_wf(acc: Seq<SStatement>, x: SStatement, n: int)
    requires
        parsed_wf(acc, n),
        stmt_ok(x, n),
        !(acc.len() > 0 && acc.last() is BlankLines && x is BlankLines),
    ensures
        parsed_wf(acc.push(x), n),
{
    let r = acc.push(x);
    assert forall|k: int| 0 <= k < r.len() implies stmt_ok(#[trigger] r[k], n) by {
        if k < acc.len() {
            assert(r[k] == acc[k]);
        }
    }
    assert forall|k: int| 0 <= k < r.len() - 1 implies !(#[trigger] r[k] is BlankLines && r[k + 1] is BlankLines) by {
        assert(r[k] == acc[k]);
        if k + 1 < acc.len() {
            assert(r[k + 1] == acc[k + 1]);
        }
    }
}

proof fn lemma_update_last_wf(acc: Seq<SStatement>, x: SStatement, n: int)
    requires
        parsed_wf(acc, n),
        acc.len() > 0,
        stmt_ok(x, n),
        (x is BlankLines) == (acc.last() is BlankLines),
    ensures
        parsed_wf(acc.update(acc.len() - 1, x), n),
{
    let r = acc.update(acc.len() - 1, x);
    assert forall|k: int| 0 <= k < r.len() implies stmt_ok(#[trigger] r[k], n) by {
        if k < acc.len() - 1 {
            assert(r[k] == acc[k]);
        }
    }
    assert forall|k: int| 0 <= k < r.len() - 1 implies !(#[trigger] r[k] is BlankLines && r[k + 1] is BlankLines) by {
        assert(r[k] == acc[k]);
        assert(acc[k] is BlankLines ==> !(acc[k + 1] is BlankLines));
    }
}

proof fn lemma_flush_wf(acc: Seq<SStatement>, pending: nat, n: int)
    requires
        parsed_wf(acc, n),
    ensures
        parsed_wf(flush(acc, pending), n),
        flush(acc, pending).len() > 0 && flush(acc, pending).last() is BlankLines ==> pending > 0 || (
        acc.len() > 0 && acc.last() is BlankLines),
{
    if pending > 0 {
        if acc.len() > 0 && acc.last() is BlankLines {
            lemma_update_last_wf(acc, SStatement::BlankLines(acc.last()->BlankLines_0 + pending), n);
        } else {
            lemma_push_wf(acc, SStatement::BlankLines(pending), n);
        }
    }
}

proof fn lemma_push_after_flush(acc: Seq<SStatement>, pending: nat, x: SStatement, n: int)
    requires
        parsed_wf(acc, n),
        stmt_ok(x, n),
        !(x is BlankLines),
    ensures
        parsed_wf(flush(acc, pending).push(x), n),
{
    lemma_flush_wf(acc, pending, n);
    lemma_push_wf(flush(acc, pending), x, n);
}

proof fn lemma_top_wf(s: Seq<char>, i: int, acc: Seq<SStatement>, pending: nat, has_content: bool)
    requires
        parsed_wf(acc, s.len() as int),
    ensures
        top(s, i, acc, pending, has_content) matches Ok(r) ==> parsed_wf(r, s.len() as int),
    decreases s.len() - i,
{
    let n = s.len() as int;
    if i < 0 || i >= s.len() {
        lemma_flush_wf(acc, pending, n);
    } else if is_blank(s[i]) {
        lemma_top_wf(s, i + 1, acc, pending, has_content);
    } else if s[i] == '\n' {
        if has_content {
            lemma_top_wf(s, i + 1, acc, pending, false);
        } else {
            lemma_top_wf(s, i + 1, acc, pending + 1, false);
        }
    } else if s[i] == '#' {
        match comment_at(s, i) {
            Ok((c, e)) => if i < e <= s.len() {
                if attaches(acc, has_content) {
                    let cmd = acc.last()->Command_0;
                    assert(stmt_ok(acc[acc.len() - 1], n));
                    lemma_update_last_wf(acc, SStatement::Command(SCommand { trailing: Some(c), ..cmd }), n);
                } else {
                    lemma_push_after_flush(acc, pending, SStatement::Comment(c), n);
                }
                let placed = place_comment(acc, pending, c, has_content);
                lemma_top_wf(s, e, placed.0, placed.1, true);
            },
            Err(f) => {},
        }
    } else if s[i] == '@' {
        match placeholder_at(s, i) {
            Ok((t, e)) => if i < e <= s.len() {
                lemma_push_after_flush(acc, pending, SStatement::TemplatePlaceholder(t), n);
                lemma_top_wf(s, e, flush(acc, pending).push(SStatement::TemplatePlaceholder(t)), 0, true);
            },
            Err(f) => {},
        }
    } else if is_ident_start(s[i]) {
        match command_at(s, i) {
            Ok((c, e)) => if i < e <= s.len() {
                assert(c.span == (i, e));
                lemma_push_after_flush(acc, pending, SStatement::Command(c), n);
                lemma_top_wf(s, e, flush(acc, pending).push(SStatement::Command(c)), 0, true);
            },
            Err(f) => {},
        }
    }
}

proof fn lemma_encode_concat(a: Seq<char>, b: Seq<char>)
    ensures
        encode_utf8(a + b) == encode_utf8(a) + encode_utf8(b),
    decreases a.len(),
{
    if a.len() == 0 {
        assert(a + b =~= b);
        assert(encode_utf8(a) =~= Seq::<u8>::empty());
        assert(encode_utf8(a) + encode_utf8(b) =~= encode_utf8(b));
    } else {
        assert((a + b).drop_first() =~= a.drop_first() + b);
        assert((a + b)[0] == a[0]);
        lemma_encode_concat(a.drop_first(), b);
        assert(encode_utf8(a + b) =~= encode_utf8(a) + encode_utf8(b));
    }
}

/// Byte offsets grow with character positions and end at the length of
/// the encoding.
pub proof fn lemma_byte_offset_mono(s: Seq<char>, a: int, b: int)
    requires
        0 <= a <= b <= s.len(),
    ensures
        0 <= byte_offset(s, a) <= byte_offset(s, b) <= encode_utf8(s).len(),
{
    lemma_encode_concat(s.subrange(0, a), s.subrange(a, b));
    assert(s.subrange(0, a) + s.subrange(a, b) =~= s.subrange(0, b));
    lemma_encode_concat(s.subrange(0, b), s.subrange(b, s.len() as int));
    assert(s.subrange(0, b) + s.subrange(b, s.len() as int) =~= s);
}

/// The width in bytes of a character's UTF-8 encoding.
pub open spec fn utf8_width(c: char) -> int {
    encode_utf8(seq![c]).len() as int
}

proof fn lemma_byte_offset_step(s: Seq<char>, k: int)
    requires
        0 <= k < s.len(),
    ensures
        byte_offset(s, k + 1) == byte_offset(s, k) + utf8_width(s[k]),
{
    lemma_encode_concat(s.subrange(0, k), seq![s[k]]);
    assert(s.subrange(0, k) + seq![s[k]] =~= s.subrange(0, k + 1));
}

fn char_width(c: char) -> (r: usize)
    ensures
        r as int == utf8_width(c),
        1 <= r <= 4,
{
    let u = c as u32;
    proof {
        vstd::utf8::char_is_scalar(c);
        assert(seq![c][0] == c);
        assert(seq![c].drop_first() =~= Seq::<char>::empty());
        assert(encode_utf8(seq![c].drop_first()) =~= Seq::<u8>::empty());
        assert(encode_utf8(seq![c]) =~= vstd::utf8::encode_scalar(c as u32));
    }
    if u <= 0x7F {
        1
    } else if u <= 0x7FF {
        2
    } else if u <= 0xFFFF {
        3
    } else {
        4
    }
}

/// The byte offset of every character position of `v`, and of its end.
fn byte_offsets(v: &Vec<char>, total: usize) -> (r: Vec<usize>)
    requires
        total == encode_utf8(v@).len(),
    ensures
        r@.len() == v@.len() + 1,
        forall|k: int| 0 <= k <= v@.len() ==> #[trigger] r@[k] as int == byte_offset(v@, k),
{
    let mut r: Vec<usize> = Vec::new();
    r.push(0);
    assert(v@.subrange(0, 0) =~= Seq::<char>::empty());
    assert(encode_utf8(Seq::<char>::empty()) =~= Seq::<u8>::empty());
    let mut k: usize = 0;
    while k < v.len()
        invariant
            k <= v@.len(),
            total == encode_utf8(v@).len(),
            r@.len() == k + 1,
            forall|q: int| 0 <= q <= k ==> #[trigger] r@[q] as int == byte_offset(v@, q),
        decreases v@.len() - k,
    {
        proof {
            lemma_byte_offset_step(v@, k as int);
            lemma_byte_offset_mono(v@, k as int + 1, v@.len() as int);
        }
        let w = char_width(v[k]);
        let next = r[k] + w;
        r.push(next);
        k += 1;
    }
    r
}

/// Command spans turned from character positions into byte offsets.
fn spans_in_bytes(v: &Vec<char>, statements: Vec<Statement>, offsets: &Vec<usize>) -> (r: Vec<Statement>)
    requires
        offsets@.len() == v@.len() + 1,
        forall|k: int| 0 <= k <= v@.len() ==> #[trigger] offsets@[k] as int == byte_offset(v@, k),
        forall|k: int| 0 <= k < statements@.len() ==> stmt_ok(#[trigger] statements@[k]@, v@.len() as int),
    ensures
        stmts_view(r@) == stmts_view(statements@).map_values(|st: SStatement| byte_span_stmt(v@, st)),
{
    let ghost orig = statements@;
    let mut rev: Vec<Statement> = Vec::new();
    let mut rest = statements;
    while rest.len() > 0
        invariant
            rest@.len() + rev@.len() == orig.len(),
            forall|q: int| 0 <= q < rest@.len() ==> #[trigger] rest@[q] == orig[q],
            forall|q: int| 0 <= q < rev@.len() ==> #[trigger] rev@[q] == orig[orig.len() - 1 - q],
        decreases rest@.len(),
    {
        let st = rest.pop().unwrap();
        rev.push(st);
    }
    let mut out: Vec<Statement> = Vec::new();
    let ghost target = stmts_view(orig).map_values(|st: SStatement| byte_span_stmt(v@, st));
    while rev.len() > 0
        invariant
            out@.len() + rev@.len() == orig.len(),
            forall|q: int| 0 <= q < rev@.len() ==> #[trigger] rev@[q] == orig[orig.len() - 1 - q],
            forall|q: int| 0 <= q < out@.len() ==> #[trigger] stmts_view(out@)[q] == target[q],
            forall|k: int| 0 <= k < orig.len() ==> stmt_ok(#[trigger] orig[k]@, v@.len() as int),
            offsets@.len() == v@.len() + 1,
            forall|k: int| 0 <= k <= v@.len() ==> #[trigger] offsets@[k] as int == byte_offset(v@, k),
            target == stmts_view(orig).map_values(|st: SStatement| byte_span_stmt(v@, st)),
            target.len() == orig.len(),
        decreases rev@.len(),
    {
        let ghost idx = out@.len() as int;
        let st = rev.pop().unwrap();
        assert(st == orig[idx]);
        assert(stmt_ok(orig[idx]@, v@.len() as int));
        let converted = match st {
            Statement::Command(mut c) => {
                let a = offsets[c.span.0];
                let b = offsets[c.span.1];
                c.span = (a, b);
                Statement::Command(c)
            },
            other => other,
        };
        assert(converted@ == byte_span_stmt(v@, orig[idx]@));
        assert(target[idx] == byte_span_stmt(v@, stmts_view(orig)[idx]));
        let ghost pre = out@;
        out.push(converted);
        assert forall|q: int| 0 <= q < out@.len() implies #[trigger] stmts_view(out@)[q] == target[q] by {
            if q < pre.len() {
                assert(stmts_view(out@)[q] == stmts_view(pre)[q]);
            }
        }
    }
    assert(stmts_view(out@) =~= target);
    out
}

/// A parsed file is in shape: every blank-line run counts at least one
/// line, no two blank-line runs come in a row, and every command's span
/// lies within the source's UTF-8 encoding.
pub proof fn lemma_parsed_file_shape(source: Seq<char>)
    ensures
        parse_spec(source) matches Ok(stmts) ==> parsed_wf(stmts, encode_utf8(source).len() as int),
{
    lemma_top_wf(source, start_of(source), seq![], 0, false);
    if let Ok(x) = parse_chars(source) {
        let y = x.map_values(|st: SStatement| byte_span_stmt(source, st));
        let n = encode_utf8(source).len() as int;
        assert forall|k: int| 0 <= k < y.len() implies stmt_ok(#[trigger] y[k], n) by {
            assert(stmt_ok(x[k], source.len() as int));
            if let SStatement::Command(c) = x[k] {
                lemma_byte_offset_mono(source, c.span.0, c.span.1);
            }
        }
        assert forall|k: int| 0 <= k < y.len() - 1 implies !(#[trigger] y[k] is BlankLines && y[k + 1] is BlankLines) by {
            assert(!(x[k] is BlankLines && x[k + 1] is BlankLines));
        }
    }
}

// ── Executable scanners ─────────────────────────────────────────────────────

fn scan_eq_run(v: &Vec<char>, i: usize) -> (r: usize)
    requires
        i <= v@.len(),
    ensures
        r as nat == eq_run(v@, i as int),
        i + r <= v@.len(),
{
    let mut j = i;
    while j < v.len() && v[j] == '='
        invariant
            i <= j <= v@.len(),
            eq_run(v@, i as int) == (j - i) + eq_run(v@, j as int),
        decreases v@.len() - j,
    {
        j += 1;
    }
    j - i
}

fn scan_bracket_open(v: &Vec<char>, i: usize) -> (r: Option<usize>)
    ensures
        match bracket_open(v@, i as int) {
            Some(k) => r == Some(k as usize) && i + 1 + k < v@.len(),
            None => r is None,
        },
{
    if i >= v.len() || v[i] != '[' {
        return None;
    }
    let k = scan_eq_run(v, i + 1);
    if i + 1 + k < v.len() && v[i + 1 + k] == '[' {
        Some(k)
    } else {
        None
    }
}

fn scan_close_any(v: &Vec<char>, j0: usize) -> (r: Option<(usize, usize)>)
    requires
        j0 <= v@.len(),
    ensures
        match close_any(v@, j0 as int) {
            Some((e, k)) => r == Some((e as usize, k as usize)) && j0 < e <= v@.len() && k
                < v@.len(),
            None => r is None,
        },
{
    let mut j = j0;
    while j < v.len()
        invariant
            j0 <= j <= v@.len(),
            close_any(v@, j as int) == close_any(v@, j0 as int),
        decreases v@.len() - j,
    {
        let k = scan_eq_run(v, j + 1);
        if v[j] == ']' && j + 1 + k < v.len() && v[j + 1 + k] == ']' {
            return Some((j + 2 + k, k));
        }
        j += 1;
    }
    None
}

fn scan_close_level(v: &Vec<char>, j0: usize, level: usize) -> (r: Option<usize>)
    requires
        j0 <= v@.len(),
    ensures
        match close_level(v@, j0 as int, level as nat) {
            Some(e) => r == Some(e as usize) && j0 < e <= v@.len(),
            None => r is None,
        },
{
    let mut j = j0;
    while j < v.len()
        invariant
            j0 <= j <= v@.len(),
            close_level(v@, j as int, level as nat) == close_level(v@, j0 as int, level as nat),
        decreases v@.len() - j,
    {
        let k = scan_eq_run(v, j + 1);
        if v[j] == ']' && k == level && j + 1 + k < v.len() && v[j + 1 + k] == ']' {
            return Some(j + 2 + k);
        }
        j += 1;
    }
    None
}

fn scan_line_end(v: &Vec<char>, j0: usize) -> (r: usize)
    requires
        j0 <= v@.len(),
    ensures
        r as int == line_end(v@, j0 as int),
        j0 <= r <= v@.len(),
{
    let mut j = j0;
    while j < v.len()
        invariant
            j0 <= j <= v@.len(),
            line_end(v@, j as int) == line_end(v@, j0 as int),
        decreases v@.len() - j,
    {
        if v[j] == '\n' || (v[j] == '\r' && j + 1 < v.len() && v[j + 1] == '\n') {
            return j;
        }
        j += 1;
    }
    j
}

fn scan_quoted(v: &Vec<char>, j0: usize) -> (r: Option<usize>)
    requires
        j0 <= v@.len(),
    ensures
        match quoted_end(v@, j0 as int) {
            Some(e) => r == Some(e as usize) && j0 < e <= v@.len(),
            None => r is None,
        },
{
    let mut j = j0;
    while j < v.len()
        invariant
            j0 <= j <= v@.len(),
            quoted_end(v@, j as int) == quoted_end(v@, j0 as int),
        decreases v@.len() - j,
    {
        if v[j] == '\\' {
            if j + 1 < v.len() {
                j += 2;
            } else {
                return None;
            }
        } else if v[j] == '"' {
            return Some(j + 1);
        } else {
            j += 1;
        }
    }
    None
}

fn scan_group(v: &Vec<char>, j0: usize) -> (r: Option<usize>)
    requires
        1 <= j0 <= v@.len(),
    ensures
        match group_end(v@, j0 as int, 1) {
            Some(e) => r == Some(e as usize) && j0 < e <= v@.len(),
            None => r is None,
        },
{
    let mut j = j0;
    let mut depth: usize = 1;
    while j < v.len()
        invariant
            j0 <= j <= v@.len(),
            1 <= depth <= 1 + (j - j0),
            1 <= j0,
            group_end(v@, j as int, depth as nat) == group_end(v@, j0 as int, 1),
        decreases v@.len() - j,
    {
        if v[j] == '"' {
            match scan_quoted(v, j + 1) {
                Some(e) => {
                    if j < e && e <= v.len() {
                        j = e;
                    } else {
                        return None;
                    }
                },
                None => {
                    return None;
                },
            }
        } else if v[j] == '\\' && j + 1 < v.len() {
            j += 2;
        } else if v[j] == '(' {
            depth += 1;
            j += 1;
        } else if v[j] == ')' {
            if depth <= 1 {
                return Some(j + 1);
            }
            depth -= 1;
            j += 1;
        } else {
            j += 1;
        }
    }
    None
}

fn scan_word(v: &Vec<char>, j0: usize) -> (r: Option<usize>)
    requires
        j0 <= v@.len(),
    ensures
        match word_end(v@, j0 as int) {
            Some(e) => r == Some(e as usize) && j0 <= e <= v@.len(),
            None => r is None,
        },
{
    let mut j = j0;
    while j < v.len()
        invariant
            j0 <= j <= v@.len(),
            word_end(v@, j as int) == word_end(v@, j0 as int),
        decreases v@.len() - j,
    {
        let c = v[j];
        if c == ' ' || c == '\t' || c == '\r' || c == '\n' || c == ')' || c == '#' {
            return Some(j);
        } else if c == '"' {
            match scan_quoted(v, j + 1) {
                Some(e) => {
                    if j < e && e <= v.len() {
                        j = e;
                    } else {
                        return None;
                    }
                },
                None => {
                    return None;
                },
            }
        } else if c == '(' {
            match scan_group(v, j + 1) {
                Some(e) => {
                    if j < e && e <= v.len() {
                        j = e;
                    } else {
                        return None;
                    }
                },
                None => {
                    return None;
                },
            }
        } else if c == '\\' {
            if j + 1 < v.len() {
                j += 2;
            } else {
                return None;
            }
        } else {
            j += 1;
        }
    }
    Some(j)
}

fn scan_ident(v: &Vec<char>, j0: usize) -> (r: usize)
    requires
        j0 <= v@.len(),
    ensures
        r as int == ident_end(v@, j0 as int),
        j0 <= r <= v@.len(),
{
    let mut j = j0;
    while j < v.len() && (('a' <= v[j] && v[j] <= 'z') || ('A' <= v[j] && v[j] <= 'Z') || v[j]
        == '_' || ('0' <= v[j] && v[j] <= '9'))
        invariant
            j0 <= j <= v@.len(),
            ident_end(v@, j as int) == ident_end(v@, j0 as int),
        decreases v@.len() - j,
    {
        j += 1;
    }
    j
}

fn scan_blanks(v: &Vec<char>, j0: usize) -> (r: usize)
    requires
        j0 <= v@.len(),
    ensures
        r as int == skip_blanks(v@, j0 as int),
        j0 <= r <= v@.len(),
{
    let mut j = j0;
    while j < v.len() && (v[j] == ' ' || v[j] == '\t' || v[j] == '\r')
        invariant
            j0 <= j <= v@.len(),
            skip_blanks(v@, j as int) == skip_blanks(v@, j0 as int),
        decreases v@.len() - j,
    {
        j += 1;
    }
    j
}

// ── Executable parser ───────────────────────────────────────────────────────

/// A parse failure during executable parsing.
enum Fail {
    Syntax(usize, SyntaxKind),
    BadBracket(usize, usize),
}

/// Model of an executable failure over the source text.
spec fn fail_model(s: Seq<char>, f: Fail) -> ParseFail {
    match f {
        Fail::Syntax(p, k) => ParseFail::Syntax(p as int, k),
        Fail::BadBracket(a, b) => ParseFail::BadBracket(s.subrange(a as int, b as int)),
    }
}

/// An executable failure within the text.
spec fn fail_wf(s: Seq<char>, f: Fail) -> bool {
    match f {
        Fail::Syntax(p, _) => p <= s.len(),
        Fail::BadBracket(a, b) => a <= b <= s.len(),
    }
}

fn scan_comment(v: &Vec<char>, j: usize) -> (r: Result<(Comment, usize), Fail>)
    requires
        j < v@.len(),
    ensures
        match comment_at(v@, j as int) {
            Ok((c, e)) => r matches Ok((rc, re)) && rc@ == c && re as int == e && re <= v@.len(),
            Err(f) => r matches Err(rf) && fail_model(v@, rf) == f && fail_wf(v@, rf),
        },
{
    let _n = v.len();
    match scan_bracket_open(v, j + 1) {
        Some(level) => {
            match scan_close_level(v, j + 3 + level, level) {
                Some(e) => {
                    if j < e && e <= v.len() {
                        Ok((Comment::Bracket(string_of(v, j, e)), e))
                    } else {
                        Err(Fail::Syntax(j, SyntaxKind::UnterminatedBracket))
                    }
                },
                None => Err(Fail::Syntax(j, SyntaxKind::UnterminatedBracket)),
            }
        },
        None => {
            let e = scan_line_end(v, j);
            if j < e && e <= v.len() {
                Ok((Comment::Line(string_of(v, j, e)), e))
            } else {
                Err(Fail::Syntax(j, SyntaxKind::UnexpectedCharacter))
            }
        },
    }
}

fn scan_argument(v: &Vec<char>, j: usize) -> (r: Result<(Argument, usize), Fail>)
    requires
        j < v@.len(),
    ensures
        match argument_at(v@, j as int) {
            Ok((a, e)) => r matches Ok((ra, re)) && ra@ == a && re as int == e && re <= v@.len(),
            Err(f) => r matches Err(rf) && fail_model(v@, rf) == f && fail_wf(v@, rf),
        },
{
    let _n = v.len();
    match scan_bracket_open(v, j) {
        Some(level) => {
            match scan_close_any(v, j + 2 + level) {
                Some((e, close)) => {
                    if !(j < e && e <= v.len()) {
                        Err(Fail::Syntax(j, SyntaxKind::UnterminatedBracket))
                    } else if close == level {
                        Ok((Argument::Bracket(BracketArgument { level, raw: string_of(v, j, e) }), e))
                    } else {
                        Err(Fail::BadBracket(j, e))
                    }
                },
                None => Err(Fail::Syntax(j, SyntaxKind::UnterminatedBracket)),
            }
        },
        None => {
            match scan_word(v, j) {
                Some(e) => {
                    if j < e && e <= v.len() {
                        let text = string_of(v, j, e);
                        if v[j] == '"' {
                            match scan_quoted(v, j + 1) {
                                Some(q) => {
                                    if q == e {
                                        return Ok((Argument::Quoted(text), e));
                                    }
                                },
                                None => {},
                            }
                        }
                        Ok((Argument::Unquoted(text), e))
                    } else {
                        Err(Fail::Syntax(j, SyntaxKind::UnexpectedCharacter))
                    }
                },
                None => Err(Fail::Syntax(j, SyntaxKind::UnterminatedArgument)),
            }
        },
    }
}

proof fn lemma_args_view_push(args: Seq<Argument>, a: Argument)
    ensures
        args_view(args.push(a)) == args_view(args).push(a@),
{
    assert(args_view(args.push(a)) =~= args_view(args).push(a@));
}

proof fn lemma_stmts_view_push(stmts: Seq<Statement>, a: Statement)
    ensures
        stmts_view(stmts.push(a)) == stmts_view(stmts).push(a@),
{
    assert(stmts_view(stmts.push(a)) =~= stmts_view(stmts).push(a@));
}

fn parse_arguments(v: &Vec<char>, j0: usize) -> (r: Result<(Vec<Argument>, usize), Fail>)
    requires
        j0 <= v@.len(),
    ensures
        match args_from(v@, j0 as int, seq![]) {
            Ok((a, e)) => r matches Ok((ra, re)) && args_view(ra@) == a && re as int == e
                && re <= v@.len(),
            Err(f) => r matches Err(rf) && fail_model(v@, rf) == f && fail_wf(v@, rf),
        },
{
    let mut acc: Vec<Argument> = Vec::new();
    let mut j = j0;
    assert(args_view(acc@) =~= seq![]);
    loop
        invariant
            j0 <= j <= v@.len(),
            args_from(v@, j as int, args_view(acc@)) == args_from(v@, j0 as int, seq![]),
        decreases v@.len() - j,
    {
        if j >= v.len() {
            return Err(Fail::Syntax(v.len(), SyntaxKind::UnclosedCommand));
        }
        let c = v[j];
        if c == ' ' || c == '\t' || c == '\r' || c == '\n' {
            j += 1;
        } else if c == ')' {
            return Ok((acc, j + 1));
        } else if c == '#' {
            match scan_comment(v, j) {
                Ok((comment, e)) => {
                    if j < e && e <= v.len() {
                        let a = Argument::InlineComment(comment);
                        proof {
                            lemma_args_view_push(acc@, a);
                        }
                        acc.push(a);
                        j = e;
                    } else {
                        return Err(Fail::Syntax(j, SyntaxKind::UnexpectedCharacter));
                    }
                },
                Err(f) => {
                    return Err(f);
                },
            }
        } else {
            match scan_argument(v, j) {
                Ok((a, e)) => {
                    if j < e && e <= v.len() {
                        proof {
                            lemma_args_view_push(acc@, a);
                        }
                        acc.push(a);
                        j = e;
                    } else {
                        return Err(Fail::Syntax(j, SyntaxKind::UnexpectedCharacter));
                    }
                },
                Err(f) => {
                    return Err(f);
                },
            }
        }
    }
}

fn parse_command(v: &Vec<char>, i: usize) -> (r: Result<(CommandInvocation, usize), Fail>)
    requires
        i < v@.len(),
    ensures
        match command_at(v@, i as int) {
            Ok((c, e)) => r matches Ok((rc, re)) && rc@ == c && re as int == e && re <= v@.len(),
            Err(f) => r matches Err(rf) && fail_model(v@, rf) == f && fail_wf(v@, rf),
        },
{
    let name_end = scan_ident(v, i);
    let p = scan_blanks(v, name_end);
    if p < v.len() && v[p] == '(' {
        match parse_arguments(v, p + 1) {
            Ok((arguments, e)) => {
                let name = string_of(v, i, name_end);
                Ok((CommandInvocation { name, arguments, trailing_comment: None, span: (i, e) }, e))
            },
            Err(f) => Err(f),
        }
    } else {
        Err(Fail::Syntax(p, SyntaxKind::ExpectedOpenParen))
    }
}

/// Whether the blank-line counts can still grow without overflow: the
/// trailing `BlankLines` count plus the pending count stays within `bound`.
spec fn blank_bound(stmts: Seq<Statement>, pending: nat, bound: nat) -> bool {
    &&& pending <= bound
    &&& (stmts.len() > 0 && stmts.last() is BlankLines) ==> stmts.last()->BlankLines_0 + pending
        <= bound
}

fn flush_blank_lines(statements: &mut Vec<Statement>, pending: &mut usize)
    requires
        blank_bound(old(statements)@, *old(pending) as nat, usize::MAX as nat),
    ensures
        stmts_view(final(statements)@) == flush(stmts_view(old(statements)@), *old(pending) as nat),
        *final(pending) == 0,
        *old(pending) > 0 ==> final(statements)@.len() > 0 && final(statements)@.last() is BlankLines
            && final(statements)@.last()->BlankLines_0 == *old(pending) + (if old(statements)@.len() > 0 && old(statements)@.last() is BlankLines { old(statements)@.last()->BlankLines_0 } else { 0 }),
        *old(pending) == 0 ==> final(statements)@ == old(statements)@,
{
    if *pending == 0 {
        return;
    }
    let n = statements.len();
    if n > 0 {
        match &statements[n - 1] {
            Statement::BlankLines(count) => {
                let total = *count + *pending;
                let last = Statement::BlankLines(total);
                statements.set(n - 1, last);
                assert(stmts_view(statements@) =~= stmts_view(old(statements)@).update(n - 1, last@));
                *pending = 0;
                return;
            },
            _ => {},
        }
    }
    let b = Statement::BlankLines(*pending);
    proof {
        lemma_stmts_view_push(statements@, b);
    }
    statements.push(b);
    *pending = 0;
}

fn attach_trailing_comment(
    statements: &mut Vec<Statement>,
    comment: Comment,
    line_has_content: bool,
) -> (r: Option<Comment>)
    ensures
        attaches(stmts_view(old(statements)@), line_has_content) ==> r is None && stmts_view(
            final(statements)@,
        ) == place_comment(stmts_view(old(statements)@), 0, comment@, line_has_content).0,
        !attaches(stmts_view(old(statements)@), line_has_content) ==> r == Some(comment)
            && final(statements)@ == old(statements)@,
        final(statements)@.len() == old(statements)@.len(),
        final(statements)@.len() > 0 ==> (!(final(statements)@.last() is BlankLines)
            || final(statements)@.last() == old(statements)@.last()),
{
    if !line_has_content || statements.len() == 0 {
        return Some(comment);
    }
    let n = statements.len();
    let is_open_command = match &statements[n - 1] {
        Statement::Command(cmd) => cmd.trailing_comment.is_none(),
        _ => false,
    };
    if !is_open_command {
        return Some(comment);
    }
    let last = statements.pop().unwrap();
    match last {
        Statement::Command(cmd) => {
            let updated = Statement::Command(
                CommandInvocation {
                    name: cmd.name,
                    arguments: cmd.arguments,
                    trailing_comment: Some(comment),
                    span: cmd.span,
                },
            );
            proof {
                lemma_stmts_view_push(statements@, updated);
            }
            statements.push(updated);
            assert(stmts_view(statements@) =~= stmts_view(old(statements)@).update(
                n - 1,
                updated@,
            ));
            None
        },
        other => {
            statements.push(other);
            assert(statements@ =~= old(statements)@);
            Some(comment)
        },
    }
}

fn scan_placeholder(v: &Vec<char>, i: usize) -> (r: Result<(String, usize), Fail>)
    requires
        i < v@.len(),
    ensures
        match placeholder_at(v@, i as int) {
            Ok((t, e)) => r matches Ok((rt, re)) && rt@ == t && re as int == e && re <= v@.len(),
            Err(f) => r matches Err(rf) && fail_model(v@, rf) == f && fail_wf(v@, rf),
        },
{
    let _n = v.len();
    let e = scan_ident(v, i + 1);
    if i + 1 < e && e < v.len() && v[e] == '@' {
        Ok((string_of(v, i, e + 1), e + 1))
    } else {
        Err(Fail::Syntax(i, SyntaxKind::InvalidPlaceholder))
    }
}

fn parse_statements(v: &Vec<char>) -> (r: Result<Vec<Statement>, Fail>)
    ensures
        match parse_chars(v@) {
            Ok(stmts) => r matches Ok(rs) && stmts_view(rs@) == stmts,
            Err(f) => r matches Err(rf) && fail_model(v@, rf) == f && fail_wf(v@, rf),
        },
{
    let mut statements: Vec<Statement> = Vec::new();
    let mut pending: usize = 0;
    let mut has_content = false;
    let mut i: usize = if v.len() > 0 && v[0] == '\u{FEFF}' {
        1
    } else {
        0
    };
    assert(stmts_view(statements@) =~= seq![]);
    loop
        invariant
            i <= v@.len(),
            top(v@, i as int, stmts_view(statements@), pending as nat, has_content) == parse_chars(
                v@,
            ),
            blank_bound(statements@, pending as nat, i as nat),
        decreases v@.len() - i,
    {
        if i >= v.len() {
            flush_blank_lines(&mut statements, &mut pending);
            return Ok(statements);
        }
        let c = v[i];
        if c == ' ' || c == '\t' || c == '\r' {
            i += 1;
        } else if c == '\n' {
            if has_content {
                has_content = false;
            } else {
                pending += 1;
            }
            i += 1;
        } else if c == '#' {
            match scan_comment(v, i) {
                Ok((comment, e)) => {
                    if i < e && e <= v.len() {
                        let ghost before = stmts_view(statements@);
                        let ghost cv = comment@;
                        match attach_trailing_comment(&mut statements, comment, has_content) {
                            Some(comment) => {
                                flush_blank_lines(&mut statements, &mut pending);
                                let st = Statement::Comment(comment);
                                proof {
                                    lemma_stmts_view_push(statements@, st);
                                }
                                statements.push(st);
                            },
                            None => {},
                        }
                        has_content = true;
                        i = e;
                    } else {
                        return Err(Fail::Syntax(i, SyntaxKind::UnexpectedCharacter));
                    }
                },
                Err(f) => {
                    return Err(f);
                },
            }
        } else if c == '@' {
            match scan_placeholder(v, i) {
                Ok((text, e)) => {
                    if i < e && e <= v.len() {
                        flush_blank_lines(&mut statements, &mut pending);
                        let st = Statement::TemplatePlaceholder(text);
                        proof {
                            lemma_stmts_view_push(statements@, st);
                        }
                        statements.push(st);
                        has_content = true;
                        i = e;
                    } else {
                        return Err(Fail::Syntax(i, SyntaxKind::InvalidPlaceholder));
                    }
                },
                Err(f) => {
                    return Err(f);
                },
            }
        } else if ('a' <= c && c <= 'z') || ('A' <= c && c <= 'Z') || c == '_' {
            match parse_command(v, i) {
                Ok((command, e)) => {
                    if i < e && e <= v.len() {
                        flush_blank_lines(&mut statements, &mut pending);
                        let st = Statement::Command(command);
                        proof {
                            lemma_stmts_view_push(statements@, st);
                        }
                        statements.push(st);
                        has_content = true;
                        i = e;
                    } else {
                        return Err(Fail::Syntax(i, SyntaxKind::UnexpectedCharacter));
                    }
                },
                Err(f) => {
                    return Err(f);
                },
            }
        } else {
            return Err(Fail::Syntax(i, SyntaxKind::UnexpectedCharacter));
        }
    }
}

fn line_col_of(v: &Vec<char>, pos: usize) -> (r: (usize, usize))
    requires
        pos <= v@.len(),
    ensures
        r.0 as nat == line_col(v@, pos as int).0,
        r.1 as nat == line_col(v@, pos as int).1,
{
    let mut line: usize = 1;
    let mut col: usize = 1;
    let mut j: usize = 0;
    let _n = v.len();
    while j < pos
        invariant
            j <= pos <= v@.len(),
            1 <= line,
            1 <= col,
            line_col_from(v@, j as int, pos as int, line as nat, col as nat) == line_col(
                v@,
                pos as int,
            ),
        decreases pos - j,
    {
        if v[j] == '\n' {
            if line < usize::MAX {
                line += 1;
            }
            col = 1;
        } else {
            if col < usize::MAX {
                col += 1;
            }
        }
        j += 1;
    }
    (line, col)
}

fn syntax_text(kind: SyntaxKind) -> (r: String)
    ensures
        r@ == syntax_message(kind),
{
    match kind {
        SyntaxKind::UnclosedCommand => owned("expected ')' to close the command invocation"),
        SyntaxKind::ExpectedOpenParen => owned("expected '(' after the command name"),
        SyntaxKind::UnterminatedArgument => owned("unterminated quoted argument, group or escape"),
        SyntaxKind::UnterminatedBracket => owned("unterminated bracket argument or comment"),
        SyntaxKind::InvalidPlaceholder => owned("expected a template placeholder such as @NAME@"),
        SyntaxKind::UnexpectedCharacter => owned("expected a command invocation or comment"),
    }
}

/// Parse CMake source text into a [`File`].
///
/// The result is exactly what [`parse_spec`] describes: the statements of
/// the file, with blank lines counted and comments kept (a comment after a
/// command on the same line becomes its trailing comment), or the first
/// syntax error with its 1-based line and column.
pub fn parse(source: &str) -> (r: Result<File, Error>)
    ensures
        parse_result_ok(source@, r),
{
    let v = chars_of(source);
    match parse_statements(&v) {
        Ok(statements) => {
            proof {
                lemma_top_wf(v@, start_of(v@), seq![], 0, false);
                assert forall|k: int| 0 <= k < statements@.len() implies stmt_ok(#[trigger] statements@[k]@, v@.len() as int) by {
                    assert(stmts_view(statements@)[k] == statements@[k]@);
                }
            }
            let total = source.as_bytes().len();
            let offsets = byte_offsets(&v, total);
            Ok(File { statements: spans_in_bytes(&v, statements, &offsets) })
        },
        Err(Fail::Syntax(pos, kind)) => {
            let (line, column) = line_col_of(&v, pos);
            Err(
                Error::Parse(
                    ParseError {
                        display_name: owned("<input>"),
                        source_text: owned(source),
                        start_line: 1,
                        diagnostic: ParseDiagnostic { message: syntax_text(kind), line, column },
                    },
                ),
            )
        },
        Err(Fail::BadBracket(a, b)) => {
            let mut m = owned("invalid bracket argument delimiter: ");
            push_str(&mut m, string_of(&v, a, b).as_str());
            Err(Error::Formatter(m))
        },
    }
}

} // verus!
