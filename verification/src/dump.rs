//! Rendering of a parsed file as a box-drawing tree, optionally with ANSI
//! colour.

use vstd::prelude::*;
use crate::ast::{Argument, File, SArgument, SCommand, SStatement, Statement, comment_text};
use crate::text::{owned, push_str};

verus! {

broadcast use vstd::string::group_string_axioms;

// ── ANSI helpers ────────────────────────────────────────────────────────────

/// A text dimmed when colour is on.
pub open spec fn dim_text(s: Seq<char>, color: bool) -> Seq<char> {
    if color {
        "\x1b[2m"@ + s + "\x1b[0m"@
    } else {
        s
    }
}

/// A text in bold cyan when colour is on.
pub open spec fn bold_cyan_text(s: Seq<char>, color: bool) -> Seq<char> {
    if color {
        "\x1b[1;36m"@ + s + "\x1b[0m"@
    } else {
        s
    }
}

/// A text in dim green when colour is on.
pub open spec fn dim_green_text(s: Seq<char>, color: bool) -> Seq<char> {
    if color {
        "\x1b[2;32m"@ + s + "\x1b[0m"@
    } else {
        s
    }
}

/// The annotation after an argument: its kind in parentheses, dimmed when
/// colour is on.
pub open spec fn annotation_text(kind: Seq<char>, color: bool) -> Seq<char> {
    "  "@ + dim_text("("@ + kind + ")"@, color)
}

fn dim(s: &str, color: bool) -> (r: String)
    ensures
        r@ == dim_text(s@, color),
{
    if color {
        let mut out = owned("\x1b[2m");
        push_str(&mut out, s);
        push_str(&mut out, "\x1b[0m");
        out
    } else {
        owned(s)
    }
}

fn bold_cyan(s: &str, color: bool) -> (r: String)
    ensures
        r@ == bold_cyan_text(s@, color),
{
    if color {
        let mut out = owned("\x1b[1;36m");
        push_str(&mut out, s);
        push_str(&mut out, "\x1b[0m");
        out
    } else {
        owned(s)
    }
}

fn dim_green(s: &str, color: bool) -> (r: String)
    ensures
        r@ == dim_green_text(s@, color),
{
    if color {
        let mut out = owned("\x1b[2;32m");
        push_str(&mut out, s);
        push_str(&mut out, "\x1b[0m");
        out
    } else {
        owned(s)
    }
}

fn format_annotation(kind: &str, color: bool) -> (r: String)
    ensures
        r@ == annotation_text(kind@, color),
{
    let mut text = owned("(");
    push_str(&mut text, kind);
    push_str(&mut text, ")");
    let mut out = owned("  ");
    push_str(&mut out, dim(text.as_str(), color).as_str());
    out
}

// ── Tree rendering ──────────────────────────────────────────────────────────

/// The connector of a node: a corner for the last child, a tee otherwise.
pub open spec fn connector(is_last: bool) -> Seq<char> {
    if is_last {
        "└─"@
    } else {
        "├─"@
    }
}

/// The rule continuing past a statement to its argument lines: none after
/// the last statement.
pub open spec fn child_rule(is_last: bool) -> Seq<char> {
    if is_last {
        ""@
    } else {
        "│"@
    }
}

/// What follows an argument's connector: its label, text and kind.
pub open spec fn arg_body(a: SArgument, color: bool) -> Seq<char> {
    match a {
        SArgument::Unquoted(s) => bold_cyan_text("ARG"@, color) + "  "@ + s + annotation_text("unquoted"@, color),
        SArgument::Quoted(s) => bold_cyan_text("ARG"@, color) + "  "@ + s + annotation_text("quoted"@, color),
        SArgument::Bracket(_, raw) => bold_cyan_text("ARG"@, color) + "  "@ + raw + annotation_text("bracket"@, color),
        SArgument::InlineComment(c) => bold_cyan_text("INLINE_COMMENT"@, color) + "  "@ + dim_green_text(
            comment_text(c),
            color,
        ),
    }
}

/// The line of one argument of a command.
pub open spec fn arg_line(a: SArgument, rule: Seq<char>, arg_last: bool, color: bool) -> Seq<char> {
    "    "@ + dim_text(rule, color) + "  "@ + dim_text(connector(arg_last), color) + " "@ + arg_body(a, color)
        + "\n"@
}

/// The argument lines of a command from position `k` on; the last line is
/// the trailing comment's when there is one.
pub open spec fn arg_lines_from(cmd: SCommand, rule: Seq<char>, color: bool, k: int, out: Seq<char>) -> Seq<char>
    decreases cmd.arguments.len() - k,
{
    if k < 0 || k >= cmd.arguments.len() {
        out
    } else {
        let total = cmd.arguments.len() + if cmd.trailing is Some { 1int } else { 0int };
        arg_lines_from(cmd, rule, color, k + 1, out + arg_line(cmd.arguments[k], rule, k + 1 == total, color))
    }
}

/// What follows a statement's connector: its label and text, and for a
/// command the lines below it.
pub open spec fn stmt_body(s: SStatement, is_last: bool, color: bool) -> Seq<char> {
    match s {
        SStatement::Command(c) => bold_cyan_text("COMMAND"@, color) + "  "@ + c.name + "\n"@ + command_children(
            c,
            child_rule(is_last),
            color,
        ),
        SStatement::Comment(c) => bold_cyan_text("COMMENT"@, color) + "  "@ + dim_green_text(comment_text(c), color)
            + "\n"@,
        SStatement::BlankLines(_) => dim_text("───"@, color) + "\n"@,
        SStatement::TemplatePlaceholder(t) => bold_cyan_text("TEMPLATE"@, color) + "  "@ + t + "\n"@,
    }
}

/// The lines of a statement in the tree.
pub open spec fn stmt_lines(s: SStatement, is_last: bool, color: bool) -> Seq<char> {
    "    "@ + dim_text(connector(is_last), color) + " "@ + stmt_body(s, is_last, color)
}

/// The tree of a file's statements from position `i` on.
pub open spec fn tree_from(stmts: Seq<SStatement>, color: bool, i: int, out: Seq<char>) -> Seq<char>
    decreases stmts.len() - i,
{
    if i < 0 || i >= stmts.len() {
        out
    } else {
        tree_from(stmts, color, i + 1, out + stmt_lines(stmts[i], i + 1 == stmts.len(), color))
    }
}

/// The whole tree: a `FILE` root and one node per statement.
pub open spec fn ast_tree(stmts: Seq<SStatement>, color: bool) -> Seq<char> {
    tree_from(
        stmts,
        color,
        0,
        dim_text("└─"@, color) + " "@ + bold_cyan_text("FILE"@, color) + "\n"@,
    )
}

fn argument_body(argument: &Argument, color: bool) -> (r: String)
    ensures
        r@ == arg_body(argument@, color),
{
    let mut out = String::new();
    match argument {
        Argument::Unquoted(s) => {
            push_str(&mut out, bold_cyan("ARG", color).as_str());
            push_str(&mut out, "  ");
            push_str(&mut out, s.as_str());
            push_str(&mut out, format_annotation("unquoted", color).as_str());
        },
        Argument::Quoted(s) => {
            push_str(&mut out, bold_cyan("ARG", color).as_str());
            push_str(&mut out, "  ");
            push_str(&mut out, s.as_str());
            push_str(&mut out, format_annotation("quoted", color).as_str());
        },
        Argument::Bracket(b) => {
            push_str(&mut out, bold_cyan("ARG", color).as_str());
            push_str(&mut out, "  ");
            push_str(&mut out, b.raw.as_str());
            push_str(&mut out, format_annotation("bracket", color).as_str());
        },
        Argument::InlineComment(c) => {
            push_str(&mut out, bold_cyan("INLINE_COMMENT", color).as_str());
            push_str(&mut out, "  ");
            push_str(&mut out, dim_green(c.as_str(), color).as_str());
        },
    }
    assert(out@ =~= arg_body(argument@, color));
    out
}

fn push_arg_line(out: &mut String, argument: &Argument, rule: &str, arg_last: bool, color: bool)
    ensures
        final(out)@ == old(out)@ + arg_line(argument@, rule@, arg_last, color),
{
    let ghost start = out@;
    let conn = if arg_last { "└─" } else { "├─" };
    push_str(out, "    ");
    push_str(out, dim(rule, color).as_str());
    push_str(out, "  ");
    push_str(out, dim(conn, color).as_str());
    push_str(out, " ");
    push_str(out, argument_body(argument, color).as_str());
    push_str(out, "\n");
    assert(out@ =~= start + arg_line(argument@, rule@, arg_last, color));
}

/// The lines below a command's node: its arguments and trailing comment.
pub open spec fn command_children(c: SCommand, rule: Seq<char>, color: bool) -> Seq<char> {
    arg_lines_from(c, rule, color, 0, Seq::empty()) + match c.trailing {
        Some(t) => "    "@ + dim_text(rule, color) + "  "@ + dim_text("└─"@, color) + " "@ + bold_cyan_text(
            "TRAILING"@,
            color,
        ) + "  "@ + dim_green_text(comment_text(t), color) + "\n"@,
        None => Seq::empty(),
    }
}

fn command_lines(cmd: &crate::ast::CommandInvocation, rule: &str, color: bool) -> (r: String)
    ensures
        r@ == command_children(cmd@, rule@, color),
{
    let n = cmd.arguments.len();
    let has_trailing = cmd.trailing_comment.is_some();
    let mut lines = String::new();
    let mut k: usize = 0;
    while k < n
        invariant
            k <= n,
            n == cmd.arguments@.len(),
            has_trailing == (cmd@.trailing is Some),
            arg_lines_from(cmd@, rule@, color, k as int, lines@) == arg_lines_from(cmd@, rule@, color, 0, Seq::empty()),
        decreases n - k,
    {
        assert(cmd@.arguments[k as int] == cmd.arguments@[k as int]@);
        push_arg_line(&mut lines, &cmd.arguments[k], rule, !has_trailing && k + 1 == n, color);
        k += 1;
    }
    let ghost args_part = lines@;
    match &cmd.trailing_comment {
        Some(tc) => {
            push_str(&mut lines, "    ");
            push_str(&mut lines, dim(rule, color).as_str());
            push_str(&mut lines, "  ");
            push_str(&mut lines, dim("└─", color).as_str());
            push_str(&mut lines, " ");
            push_str(&mut lines, bold_cyan("TRAILING", color).as_str());
            push_str(&mut lines, "  ");
            push_str(&mut lines, dim_green(tc.as_str(), color).as_str());
            push_str(&mut lines, "\n");
        },
        None => {},
    }
    assert(lines@ =~= command_children(cmd@, rule@, color));
    lines
}

fn statement_body(stmt: &Statement, is_last: bool, color: bool) -> (r: String)
    ensures
        r@ == stmt_body(stmt@, is_last, color),
{
    let mut out = String::new();
    match stmt {
        Statement::Command(cmd) => {
            push_str(&mut out, bold_cyan("COMMAND", color).as_str());
            push_str(&mut out, "  ");
            push_str(&mut out, cmd.name.as_str());
            push_str(&mut out, "\n");
            let rule = if is_last { "" } else { "│" };
            push_str(&mut out, command_lines(cmd, rule, color).as_str());
        },
        Statement::Comment(c) => {
            push_str(&mut out, bold_cyan("COMMENT", color).as_str());
            push_str(&mut out, "  ");
            push_str(&mut out, dim_green(c.as_str(), color).as_str());
            push_str(&mut out, "\n");
        },
        Statement::BlankLines(_) => {
            push_str(&mut out, dim("───", color).as_str());
            push_str(&mut out, "\n");
        },
        Statement::TemplatePlaceholder(t) => {
            push_str(&mut out, bold_cyan("TEMPLATE", color).as_str());
            push_str(&mut out, "  ");
            push_str(&mut out, t.as_str());
            push_str(&mut out, "\n");
        },
    }
    assert(out@ =~= stmt_body(stmt@, is_last, color));
    out
}

fn push_statement(out: &mut String, stmt: &Statement, is_last: bool, color: bool)
    ensures
        final(out)@ == old(out)@ + stmt_lines(stmt@, is_last, color),
{
    let ghost start = out@;
    let connector = if is_last { "└─" } else { "├─" };
    push_str(out, "    ");
    push_str(out, dim(connector, color).as_str());
    push_str(out, " ");
    push_str(out, statement_body(stmt, is_last, color).as_str());
    assert(out@ =~= start + stmt_lines(stmt@, is_last, color));
}

/// Render the syntax tree of a parsed file as a Unicode box-drawing tree,
/// optionally with ANSI colour.
pub fn dump_ast(file: &File, color: bool) -> (r: String)
    ensures
        r@ == ast_tree(file@, color),
{
    let total = file.statements.len();
    let mut out = dim("└─", color);
    push_str(&mut out, " ");
    push_str(&mut out, bold_cyan("FILE", color).as_str());
    push_str(&mut out, "\n");
    let mut i: usize = 0;
    while i < total
        invariant
            i <= total,
            total == file.statements@.len(),
            tree_from(file@, color, i as int, out@) == ast_tree(file@, color),
        decreases total - i,
    {
        assert(file@[i as int] == file.statements@[i as int]@);
        push_statement(&mut out, &file.statements[i], i + 1 == total, color);
        i += 1;
    }
    out
}

// ── Colour only decorates ──────────────────────────────────────────────────

/// Whether a text holds no escape character.
pub open spec fn no_esc(s: Seq<char>) -> bool {
    forall|i: int| 0 <= i < s.len() ==> #[trigger] s[i] != '\x1b'
}

/// The index of the first `m` at or after `j`, or the length of `s`.
pub open spec fn esc_end(s: Seq<char>, j: int) -> int
    decreases s.len() - j,
{
    if j < 0 || j >= s.len() {
        s.len() as int
    } else if s[j] == 'm' {
        j
    } else {
        esc_end(s, j + 1)
    }
}

/// Where an escape sequence ends lies at or after where it starts.
pub proof fn lemma_esc_end_ge(s: Seq<char>, j: int)
    requires
        0 <= j,
    ensures
        esc_end(s, j) >= j || esc_end(s, j) == s.len(),
        esc_end(s, j) <= s.len() || j > s.len(),
    decreases s.len() - j,
{
    if j < s.len() && s[j] != 'm' {
        lemma_esc_end_ge(s, j + 1);
    }
}

/// A text with every escape sequence `ESC [ ... m` deleted (an unfinished
/// one runs to the end).
pub open spec fn strip_ansi(s: Seq<char>) -> Seq<char>
    decreases s.len(),
{
    if s.len() == 0 {
        Seq::empty()
    } else if s.len() >= 2 && s[0] == '\x1b' && s[1] == '[' {
        let e = esc_end(s, 2);
        if e + 1 >= s.len() {
            Seq::empty()
        } else {
            proof {
                lemma_esc_end_ge(s, 2);
            }
            strip_ansi(s.subrange(e + 1, s.len() as int))
        }
    } else {
        seq![s[0]] + strip_ansi(s.drop_first())
    }
}

/// `t` is `f` with colour codes: stripping the codes from `t` followed by
/// anything leaves `f` followed by that thing stripped, and `f` holds no
/// escape character.
pub open spec fn decorates(t: Seq<char>, f: Seq<char>) -> bool {
    &&& no_esc(f)
    &&& forall|y: Seq<char>| #[trigger] strip_ansi(t + y) == f + strip_ansi(y)
}

proof fn lemma_plain_prefix(x: Seq<char>, y: Seq<char>)
    requires
        no_esc(x),
    ensures
        strip_ansi(x + y) == x + strip_ansi(y),
    decreases x.len(),
{
    if x.len() > 0 {
        let xy = x + y;
        assert(xy[0] == x[0]);
        assert(xy.drop_first() =~= x.drop_first() + y);
        lemma_plain_prefix(x.drop_first(), y);
        assert(seq![x[0]] + x.drop_first() =~= x);
    } else {
        assert(x + y =~= y);
    }
}

proof fn lemma_plain(x: Seq<char>)
    requires
        no_esc(x),
    ensures
        decorates(x, x),
{
    assert forall|y: Seq<char>| #[trigger] strip_ansi(x + y) == x + strip_ansi(y) by {
        lemma_plain_prefix(x, y);
    }
}

proof fn lemma_concat(a: Seq<char>, af: Seq<char>, b: Seq<char>, bf: Seq<char>)
    requires
        decorates(a, af),
        decorates(b, bf),
    ensures
        decorates(a + b, af + bf),
{
    assert forall|y: Seq<char>| #[trigger] strip_ansi((a + b) + y) == (af + bf) + strip_ansi(y) by {
        assert((a + b) + y =~= a + (b + y));
        assert(strip_ansi(a + (b + y)) == af + strip_ansi(b + y));
        assert(strip_ansi(b + y) == bf + strip_ansi(y));
        assert(af + (bf + strip_ansi(y)) =~= (af + bf) + strip_ansi(y));
    }
    assert forall|i: int| 0 <= i < (af + bf).len() implies #[trigger] (af + bf)[i] != '\x1b' by {
        if i < af.len() {
            assert((af + bf)[i] == af[i]);
        } else {
            assert((af + bf)[i] == bf[i - af.len()]);
        }
    }
}

proof fn lemma_code(c: Seq<char>, n: int, y: Seq<char>)
    requires
        3 <= n,
        c.len() == n,
        c[0] == '\x1b',
        c[1] == '[',
        c[n - 1] == 'm',
        forall|k: int| 2 <= k < n - 1 ==> #[trigger] c[k] != 'm',
    ensures
        strip_ansi(c + y) == strip_ansi(y),
{
    let s = c + y;
    assert forall|k: int| 2 <= k <= n - 1 implies esc_end(s, k) == n - 1 by {
        lemma_esc_end_walk(s, k, n - 1);
    }
    assert(esc_end(s, 2) == n - 1);
    if n >= s.len() {
        assert(y.len() == 0);
        assert(strip_ansi(y) == Seq::<char>::empty());
    } else {
        assert(s.subrange(n, s.len() as int) =~= y);
    }
}

proof fn lemma_esc_end_walk(s: Seq<char>, k: int, m: int)
    requires
        0 <= k <= m < s.len(),
        s[m] == 'm',
        forall|q: int| k <= q < m ==> #[trigger] s[q] != 'm',
    ensures
        esc_end(s, k) == m,
    decreases m - k,
{
    if k < m {
        lemma_esc_end_walk(s, k + 1, m);
    }
}

proof fn lemma_painted(open: Seq<char>, s: Seq<char>)
    requires
        open.len() >= 3,
        open[0] == '\x1b',
        open[1] == '[',
        open[open.len() - 1] == 'm',
        forall|k: int| 2 <= k < open.len() - 1 ==> #[trigger] open[k] != 'm',
        no_esc(s),
    ensures
        decorates(open + s + "\x1b[0m"@, s),
{
    reveal_strlit("\x1b[0m");
    let close = "\x1b[0m"@;
    assert forall|y: Seq<char>| #[trigger] strip_ansi((open + s + close) + y) == s + strip_ansi(y) by {
        assert((open + s + close) + y =~= open + (s + (close + y)));
        lemma_code(open, open.len() as int, s + (close + y));
        lemma_plain_prefix(s, close + y);
        lemma_code(close, 4, y);
    }
}

proof fn lemma_dim(s: Seq<char>)
    requires
        no_esc(s),
    ensures
        decorates(dim_text(s, true), dim_text(s, false)),
{
    reveal_strlit("\x1b[2m");
    lemma_painted("\x1b[2m"@, s);
}

proof fn lemma_bold_cyan(s: Seq<char>)
    requires
        no_esc(s),
    ensures
        decorates(bold_cyan_text(s, true), bold_cyan_text(s, false)),
{
    reveal_strlit("\x1b[1;36m");
    lemma_painted("\x1b[1;36m"@, s);
}

proof fn lemma_dim_green(s: Seq<char>)
    requires
        no_esc(s),
    ensures
        decorates(dim_green_text(s, true), dim_green_text(s, false)),
{
    reveal_strlit("\x1b[2;32m");
    lemma_painted("\x1b[2;32m"@, s);
}

/// Whether no name, argument, comment or placeholder text of a file holds
/// an escape character.
pub open spec fn texts_plain(stmts: Seq<SStatement>) -> bool {
    forall|i: int| 0 <= i < stmts.len() ==> #[trigger] stmt_plain(stmts[i])
}

/// Whether no text of a statement holds an escape character.
pub open spec fn stmt_plain(s: SStatement) -> bool {
    match s {
        SStatement::Command(c) => no_esc(c.name) && (forall|k: int| 0 <= k < c.arguments.len()
            ==> no_esc(#[trigger] crate::ast::argument_text(c.arguments[k]))) && match c.trailing {
            Some(t) => no_esc(comment_text(t)),
            None => true,
        },
        SStatement::Comment(c) => no_esc(comment_text(c)),
        SStatement::BlankLines(_) => true,
        SStatement::TemplatePlaceholder(t) => no_esc(t),
    }
}

proof fn lemma_literals()
    ensures
        no_esc("  "@),
        no_esc(" "@),
        no_esc("    "@),
        no_esc("\n"@),
        no_esc("└─"@),
        no_esc("├─"@),
        no_esc("│"@),
        no_esc(""@),
        no_esc("ARG"@),
        no_esc("INLINE_COMMENT"@),
        no_esc("COMMAND"@),
        no_esc("COMMENT"@),
        no_esc("TEMPLATE"@),
        no_esc("TRAILING"@),
        no_esc("FILE"@),
        no_esc("───"@),
        no_esc("("@),
        no_esc(")"@),
        no_esc("unquoted"@),
        no_esc("quoted"@),
        no_esc("bracket"@),
{
    reveal_strlit("  ");
    reveal_strlit(" ");
    reveal_strlit("    ");
    reveal_strlit("\n");
    reveal_strlit("└─");
    reveal_strlit("├─");
    reveal_strlit("│");
    reveal_strlit("");
    reveal_strlit("ARG");
    reveal_strlit("INLINE_COMMENT");
    reveal_strlit("COMMAND");
    reveal_strlit("COMMENT");
    reveal_strlit("TEMPLATE");
    reveal_strlit("TRAILING");
    reveal_strlit("FILE");
    reveal_strlit("───");
    reveal_strlit("(");
    reveal_strlit(")");
    reveal_strlit("unquoted");
    reveal_strlit("quoted");
    reveal_strlit("bracket");
}

proof fn lemma_plain3(a: Seq<char>, b: Seq<char>, c: Seq<char>)
    requires
        no_esc(a),
        no_esc(b),
        no_esc(c),
    ensures
        no_esc(a + b + c),
{
    lemma_plain(a);
    lemma_plain(b);
    lemma_plain(c);
    lemma_concat(a, a, b, b);
    lemma_concat(a + b, a + b, c, c);
}

proof fn lemma_annotation(kind: Seq<char>)
    requires
        no_esc(kind),
    ensures
        decorates(annotation_text(kind, true), annotation_text(kind, false)),
{
    lemma_literals();
    lemma_plain3("("@, kind, ")"@);
    lemma_dim("("@ + kind + ")"@);
    lemma_plain("  "@);
    lemma_concat("  "@, "  "@, dim_text("("@ + kind + ")"@, true), dim_text("("@ + kind + ")"@, false));
}

proof fn lemma_arg_body(a: SArgument)
    requires
        no_esc(crate::ast::argument_text(a)),
    ensures
        decorates(arg_body(a, true), arg_body(a, false)),
{
    lemma_literals();
    lemma_plain("  "@);
    match a {
        SArgument::InlineComment(c) => {
            lemma_bold_cyan("INLINE_COMMENT"@);
            lemma_dim_green(comment_text(c));
            lemma_concat(bold_cyan_text("INLINE_COMMENT"@, true), bold_cyan_text("INLINE_COMMENT"@, false), "  "@, "  "@);
            lemma_concat(
                bold_cyan_text("INLINE_COMMENT"@, true) + "  "@,
                bold_cyan_text("INLINE_COMMENT"@, false) + "  "@,
                dim_green_text(comment_text(c), true),
                dim_green_text(comment_text(c), false),
            );
        },
        _ => {
            let (text, kind) = match a {
                SArgument::Unquoted(s) => (s, "unquoted"@),
                SArgument::Quoted(s) => (s, "quoted"@),
                SArgument::Bracket(_, raw) => (raw, "bracket"@),
                SArgument::InlineComment(c) => (comment_text(c), "unquoted"@),
            };
            lemma_bold_cyan("ARG"@);
            lemma_plain(text);
            lemma_annotation(kind);
            lemma_concat(bold_cyan_text("ARG"@, true), bold_cyan_text("ARG"@, false), "  "@, "  "@);
            lemma_concat(bold_cyan_text("ARG"@, true) + "  "@, bold_cyan_text("ARG"@, false) + "  "@, text, text);
            lemma_concat(
                bold_cyan_text("ARG"@, true) + "  "@ + text,
                bold_cyan_text("ARG"@, false) + "  "@ + text,
                annotation_text(kind, true),
                annotation_text(kind, false),
            );
        },
    }
}

proof fn lemma_arg_line(a: SArgument, rule: Seq<char>, last: bool)
    requires
        no_esc(crate::ast::argument_text(a)),
        no_esc(rule),
    ensures
        decorates(arg_line(a, rule, last, true), arg_line(a, rule, last, false)),
{
    lemma_literals();
    let conn = connector(last);
    lemma_plain("    "@);
    lemma_plain("  "@);
    lemma_plain(" "@);
    lemma_plain("\n"@);
    lemma_dim(rule);
    lemma_dim(conn);
    lemma_arg_body(a);
    let p1t = "    "@ + dim_text(rule, true);
    let p1f = "    "@ + dim_text(rule, false);
    lemma_concat("    "@, "    "@, dim_text(rule, true), dim_text(rule, false));
    lemma_concat(p1t, p1f, "  "@, "  "@);
    lemma_concat(p1t + "  "@, p1f + "  "@, dim_text(conn, true), dim_text(conn, false));
    lemma_concat(p1t + "  "@ + dim_text(conn, true), p1f + "  "@ + dim_text(conn, false), " "@, " "@);
    lemma_concat(
        p1t + "  "@ + dim_text(conn, true) + " "@,
        p1f + "  "@ + dim_text(conn, false) + " "@,
        arg_body(a, true),
        arg_body(a, false),
    );
    lemma_concat(
        p1t + "  "@ + dim_text(conn, true) + " "@ + arg_body(a, true),
        p1f + "  "@ + dim_text(conn, false) + " "@ + arg_body(a, false),
        "\n"@,
        "\n"@,
    );
}

proof fn lemma_arg_lines(cmd: SCommand, rule: Seq<char>, k: int, ot: Seq<char>, of: Seq<char>)
    requires
        decorates(ot, of),
        no_esc(rule),
        forall|q: int| 0 <= q < cmd.arguments.len() ==> no_esc(#[trigger] crate::ast::argument_text(cmd.arguments[q])),
    ensures
        decorates(arg_lines_from(cmd, rule, true, k, ot), arg_lines_from(cmd, rule, false, k, of)),
    decreases cmd.arguments.len() - k,
{
    if 0 <= k < cmd.arguments.len() {
        let total = cmd.arguments.len() + if cmd.trailing is Some { 1int } else { 0int };
        let a = cmd.arguments[k];
        assert(no_esc(crate::ast::argument_text(a)));
        lemma_arg_line(a, rule, k + 1 == total);
        lemma_concat(ot, of, arg_line(a, rule, k + 1 == total, true), arg_line(a, rule, k + 1 == total, false));
        lemma_arg_lines(cmd, rule, k + 1, ot + arg_line(a, rule, k + 1 == total, true), of + arg_line(a, rule, k + 1 == total, false));
    }
}

proof fn lemma_children(c: SCommand, rule: Seq<char>)
    requires
        stmt_plain(SStatement::Command(c)),
        no_esc(rule),
    ensures
        decorates(command_children(c, rule, true), command_children(c, rule, false)),
{
    lemma_literals();
    lemma_plain(Seq::<char>::empty());
    lemma_arg_lines(c, rule, 0, Seq::empty(), Seq::empty());
    let at = arg_lines_from(c, rule, true, 0, Seq::empty());
    let af = arg_lines_from(c, rule, false, 0, Seq::empty());
    match c.trailing {
        Some(t) => {
            lemma_plain("    "@);
            lemma_plain("  "@);
            lemma_plain(" "@);
            lemma_plain("\n"@);
            lemma_dim(rule);
            lemma_dim("└─"@);
            lemma_bold_cyan("TRAILING"@);
            lemma_dim_green(comment_text(t));
            let x1t = "    "@ + dim_text(rule, true);
            let x1f = "    "@ + dim_text(rule, false);
            lemma_concat("    "@, "    "@, dim_text(rule, true), dim_text(rule, false));
            lemma_concat(x1t, x1f, "  "@, "  "@);
            let x2t = x1t + "  "@ + dim_text("└─"@, true);
            let x2f = x1f + "  "@ + dim_text("└─"@, false);
            lemma_concat(x1t + "  "@, x1f + "  "@, dim_text("└─"@, true), dim_text("└─"@, false));
            lemma_concat(x2t, x2f, " "@, " "@);
            let x3t = x2t + " "@ + bold_cyan_text("TRAILING"@, true);
            let x3f = x2f + " "@ + bold_cyan_text("TRAILING"@, false);
            lemma_concat(x2t + " "@, x2f + " "@, bold_cyan_text("TRAILING"@, true), bold_cyan_text("TRAILING"@, false));
            lemma_concat(x3t, x3f, "  "@, "  "@);
            let x4t = x3t + "  "@ + dim_green_text(comment_text(t), true);
            let x4f = x3f + "  "@ + dim_green_text(comment_text(t), false);
            lemma_concat(x3t + "  "@, x3f + "  "@, dim_green_text(comment_text(t), true), dim_green_text(comment_text(t), false));
            lemma_concat(x4t, x4f, "\n"@, "\n"@);
            lemma_concat(at, af, x4t + "\n"@, x4f + "\n"@);
        },
        None => {
            lemma_concat(at, af, Seq::empty(), Seq::empty());
            assert(at + Seq::<char>::empty() =~= at);
            assert(af + Seq::<char>::empty() =~= af);
        },
    }
}

proof fn lemma_labelled(label: Seq<char>, text: Seq<char>)
    requires
        no_esc(label),
        no_esc(text),
    ensures
        decorates(bold_cyan_text(label, true) + "  "@ + text, bold_cyan_text(label, false) + "  "@ + text),
{
    lemma_literals();
    lemma_bold_cyan(label);
    lemma_plain("  "@);
    lemma_plain(text);
    lemma_concat(bold_cyan_text(label, true), bold_cyan_text(label, false), "  "@, "  "@);
    lemma_concat(bold_cyan_text(label, true) + "  "@, bold_cyan_text(label, false) + "  "@, text, text);
}

proof fn lemma_stmt_lines(s: SStatement, last: bool)
    requires
        stmt_plain(s),
    ensures
        decorates(stmt_lines(s, last, true), stmt_lines(s, last, false)),
{
    lemma_literals();
    lemma_plain("\n"@);
    let bt = stmt_body(s, last, true);
    let bf = stmt_body(s, last, false);
    match s {
        SStatement::Command(c) => {
            lemma_labelled("COMMAND"@, c.name);
            let lt = bold_cyan_text("COMMAND"@, true) + "  "@ + c.name;
            let lf = bold_cyan_text("COMMAND"@, false) + "  "@ + c.name;
            lemma_concat(lt, lf, "\n"@, "\n"@);
            lemma_children(c, child_rule(last));
            lemma_concat(lt + "\n"@, lf + "\n"@, command_children(c, child_rule(last), true), command_children(c, child_rule(last), false));
        },
        SStatement::Comment(c) => {
            lemma_bold_cyan("COMMENT"@);
            lemma_plain("  "@);
            lemma_dim_green(comment_text(c));
            lemma_concat(bold_cyan_text("COMMENT"@, true), bold_cyan_text("COMMENT"@, false), "  "@, "  "@);
            let lt = bold_cyan_text("COMMENT"@, true) + "  "@ + dim_green_text(comment_text(c), true);
            let lf = bold_cyan_text("COMMENT"@, false) + "  "@ + dim_green_text(comment_text(c), false);
            lemma_concat(bold_cyan_text("COMMENT"@, true) + "  "@, bold_cyan_text("COMMENT"@, false) + "  "@, dim_green_text(comment_text(c), true), dim_green_text(comment_text(c), false));
            lemma_concat(lt, lf, "\n"@, "\n"@);
        },
        SStatement::BlankLines(_) => {
            lemma_dim("───"@);
            lemma_concat(dim_text("───"@, true), dim_text("───"@, false), "\n"@, "\n"@);
        },
        SStatement::TemplatePlaceholder(t) => {
            lemma_labelled("TEMPLATE"@, t);
            lemma_concat(bold_cyan_text("TEMPLATE"@, true) + "  "@ + t, bold_cyan_text("TEMPLATE"@, false) + "  "@ + t, "\n"@, "\n"@);
        },
    }
    lemma_plain("    "@);
    lemma_plain(" "@);
    lemma_dim(connector(last));
    lemma_concat("    "@, "    "@, dim_text(connector(last), true), dim_text(connector(last), false));
    lemma_concat("    "@ + dim_text(connector(last), true), "    "@ + dim_text(connector(last), false), " "@, " "@);
    lemma_concat("    "@ + dim_text(connector(last), true) + " "@, "    "@ + dim_text(connector(last), false) + " "@, bt, bf);
}

proof fn lemma_tree(stmts: Seq<SStatement>, i: int, ot: Seq<char>, of: Seq<char>)
    requires
        decorates(ot, of),
        texts_plain(stmts),
    ensures
        decorates(tree_from(stmts, true, i, ot), tree_from(stmts, false, i, of)),
    decreases stmts.len() - i,
{
    if 0 <= i < stmts.len() {
        assert(stmt_plain(stmts[i]));
        lemma_stmt_lines(stmts[i], i + 1 == stmts.len());
        let (st, sf) = (stmt_lines(stmts[i], i + 1 == stmts.len(), true), stmt_lines(stmts[i], i + 1 == stmts.len(), false));
        lemma_concat(ot, of, st, sf);
        lemma_tree(stmts, i + 1, ot + st, of + sf);
    }
}

/// Colour only decorates the tree: when no text of the file holds an
/// escape character, deleting the colour codes from the coloured tree
/// gives the plain tree, and the plain tree holds no escape character.
pub proof fn lemma_colour_only_decorates(stmts: Seq<SStatement>)
    requires
        texts_plain(stmts),
    ensures
        strip_ansi(ast_tree(stmts, true)) == ast_tree(stmts, false),
        no_esc(ast_tree(stmts, false)),
{
    lemma_literals();
    lemma_dim("└─"@);
    lemma_bold_cyan("FILE"@);
    lemma_plain(" "@);
    lemma_plain("\n"@);
    let h1t = dim_text("└─"@, true) + " "@;
    let h1f = dim_text("└─"@, false) + " "@;
    lemma_concat(dim_text("└─"@, true), dim_text("└─"@, false), " "@, " "@);
    lemma_concat(h1t, h1f, bold_cyan_text("FILE"@, true), bold_cyan_text("FILE"@, false));
    lemma_concat(h1t + bold_cyan_text("FILE"@, true), h1f + bold_cyan_text("FILE"@, false), "\n"@, "\n"@);
    lemma_tree(stmts, 0, h1t + bold_cyan_text("FILE"@, true) + "\n"@, h1f + bold_cyan_text("FILE"@, false) + "\n"@);
    let t = ast_tree(stmts, true);
    let f = ast_tree(stmts, false);
    assert(strip_ansi(t + Seq::<char>::empty()) == f + strip_ansi(Seq::<char>::empty()));
    assert(t + Seq::<char>::empty() =~= t);
    assert(f + Seq::<char>::empty() =~= f);
}

} // verus!
