//! Source-to-source formatting: statements are laid out one after another,
//! commands indented by their block depth, runs of blank lines capped, and
//! the output ended by a newline.

use vstd::prelude::*;
use crate::ast::{Comment, File, SCommand, SComment, SStatement, Statement, stmts_view};
use crate::comment::{comment_lines, format_comment_lines};
use crate::config::{Config, indent_unit};
use crate::error::{Error, Result};
use crate::node::{command_decisions, format_command, formatted_command, lemma_formatted_command_same, repeat_seq, repeat_str};
use crate::parser::{parse, parse_result_ok, parse_spec};
use crate::registry::{CommandRegistry, is_builtin_registry, lemma_lookup_same_model};
use crate::regions::{any_region, assemble, assembled, chunks, drop_final_newline, has_region, lemma_regions_assembled, source_chunks};
use crate::text::{contains, join, owned, lower_seq, occurs_at, push_char, push_str, sat_sub, str_eq, strs, to_lower};

verus! {

broadcast use vstd::string::group_string_axioms;

/// Whether a command closes a block before it is written (`elseif`,
/// `else`, `endif`, `endforeach`, `endwhile`, `endfunction`, `endmacro`,
/// `endblock`, in any ASCII case).
pub open spec fn dedents(name: Seq<char>) -> bool {
    let l = lower_seq(name);
    l == "elseif"@ || l == "else"@ || l == "endif"@ || l == "endforeach"@ || l == "endwhile"@
        || l == "endfunction"@ || l == "endmacro"@ || l == "endblock"@
}

/// Whether a command opens a block after it is written (`if`, `foreach`,
/// `while`, `function`, `macro`, `block`, `elseif`, `else`, in any ASCII
/// case).
pub open spec fn indents(name: Seq<char>) -> bool {
    let l = lower_seq(name);
    l == "if"@ || l == "foreach"@ || l == "while"@ || l == "function"@ || l == "macro"@
        || l == "block"@ || l == "elseif"@ || l == "else"@
}

/// How many block levels a command closes before it is written.
pub fn block_dedent_before(command_name: &str) -> (r: usize)
    ensures
        r == (if dedents(command_name@) { 1usize } else { 0usize }),
{
    let l = to_lower(command_name);
    let s = l.as_str();
    if str_eq(s, "elseif") || str_eq(s, "else") || str_eq(s, "endif") || str_eq(s, "endforeach")
        || str_eq(s, "endwhile") || str_eq(s, "endfunction") || str_eq(s, "endmacro") || str_eq(
        s,
        "endblock",
    ) {
        1
    } else {
        0
    }
}

/// How many block levels a command opens after it is written.
pub fn block_indent_after(command_name: &str) -> (r: usize)
    ensures
        r == (if indents(command_name@) { 1usize } else { 0usize }),
{
    let l = to_lower(command_name);
    let s = l.as_str();
    if str_eq(s, "if") || str_eq(s, "foreach") || str_eq(s, "while") || str_eq(s, "function")
        || str_eq(s, "macro") || str_eq(s, "block") || str_eq(s, "elseif") || str_eq(s, "else") {
        1
    } else {
        0
    }
}

/// The state of formatting between statements: the output so far, whether
/// the last statement wrote content (so the next one starts a new line), and
/// the block depth.
pub struct FmtState {
    pub out: Seq<char>,
    pub prev_content: bool,
    pub depth: nat,
}

/// The output with a newline added when the previous statement wrote content.
pub open spec fn separate(st: FmtState) -> Seq<char> {
    if st.prev_content {
        st.out + "\n"@
    } else {
        st.out
    }
}

/// Lines each preceded by `indent`, joined by newlines.
pub open spec fn indented_lines(indent: Seq<char>, lines: Seq<Seq<char>>) -> Seq<char> {
    join(lines.map_values(|l: Seq<char>| indent + l), "\n"@)
}

/// How many newlines a run of `count` blank lines writes: one more after
/// content (ending the content's line), capped at `max_empty_lines + 1`.
pub open spec fn blank_newlines(count: nat, prev_content: bool, max_empty_lines: nat) -> nat {
    let n = if prev_content { count + 1 } else { count };
    if n <= max_empty_lines + 1 {
        n
    } else {
        max_empty_lines + 1
    }
}

/// The text a trailing comment adds after its command: a space and the
/// comment's first formatted line, if it has one.
pub open spec fn trailing_text(c: Option<SComment>, config: Config) -> Seq<char> {
    match c {
        Some(t) => {
            let ls = comment_lines(t, config, 0, config.line_width as nat);
            if ls.len() > 0 {
                " "@ + ls[0]
            } else {
                Seq::empty()
            }
        },
        None => Seq::empty(),
    }
}

/// One statement applied to the formatting state.
pub open spec fn stmt_step(st: FmtState, s: SStatement, config: Config, reg: CommandRegistry) -> FmtState {
    match s {
        SStatement::Command(c) => {
            let depth = sat_sub(st.depth, if dedents(c.name) { 1nat } else { 0nat });
            let out = separate(st) + formatted_command(c, &config, reg.lookup(c.name), depth)
                + trailing_text(c.trailing, config);
            FmtState { out, prev_content: true, depth: depth + if indents(c.name) { 1nat } else { 0nat } }
        },
        SStatement::BlankLines(count) => FmtState {
            out: st.out + repeat_seq("\n"@, blank_newlines(count, st.prev_content, config.max_empty_lines as nat)),
            prev_content: false,
            depth: st.depth,
        },
        SStatement::Comment(c) => {
            let indent = repeat_seq(indent_unit(config.use_tabchars, config.tab_size as nat), st.depth);
            let ls = comment_lines(c, config, indent.len(), config.line_width as nat);
            FmtState { out: separate(st) + indented_lines(indent, ls), prev_content: true, depth: st.depth }
        },
        SStatement::TemplatePlaceholder(t) => FmtState {
            out: separate(st) + t,
            prev_content: true,
            depth: st.depth,
        },
    }
}

/// The statements from `i` on applied to the state.
pub open spec fn stmts_from(stmts: Seq<SStatement>, config: Config, reg: CommandRegistry, i: int, st: FmtState) -> FmtState
    decreases stmts.len() - i,
{
    if i < 0 || i >= stmts.len() {
        st
    } else {
        stmts_from(stmts, config, reg, i + 1, stmt_step(st, stmts[i], config, reg))
    }
}

/// A text ended by a newline (one is added when it is missing).
pub open spec fn end_with_newline(s: Seq<char>) -> Seq<char> {
    if s.len() > 0 && s.last() == '\n' {
        s
    } else {
        s.push('\n')
    }
}

/// A file's statements formatted under a configuration and a registry.
pub open spec fn formatted_file(stmts: Seq<SStatement>, config: Config, reg: CommandRegistry) -> Seq<char> {
    end_with_newline(
        stmts_from(stmts, config, reg, 0, FmtState { out: Seq::empty(), prev_content: false, depth: 0 }).out,
    )
}

/// The statements a source is formatted from: when it has regions kept as
/// written and each other chunk parses on its own, the chunks' statements
/// with each region one verbatim statement; otherwise its parsed statements.
pub open spec fn effective_statements(source: Seq<char>, stmts: Seq<SStatement>) -> Seq<SStatement> {
    let cs = chunks(source);
    if has_region(cs) && assembled(cs) is Some {
        assembled(cs)->0
    } else {
        stmts
    }
}

fn effective_file(source: &str, file: File) -> (r: File)
    ensures
        r@ == effective_statements(source@, file@),
{
    let cs = source_chunks(source);
    if any_region(&cs) {
        match assemble(&cs) {
            Some(v) => File { statements: v },
            None => file,
        }
    } else {
        file
    }
}

fn push_newlines(out: &mut String, n: u128)
    ensures
        final(out)@ == old(out)@ + repeat_seq("\n"@, n as nat),
{
    let mut j: u128 = 0;
    while j < n
        invariant
            j <= n,
            out@ == old(out)@ + repeat_seq("\n"@, j as nat),
        decreases n - j,
    {
        let ghost pre = out@;
        push_char(out, '\n');
        proof {
            reveal_strlit("\n");
        }
        j += 1;
        assert(out@ =~= old(out)@ + repeat_seq("\n"@, j as nat));
    }
}

fn push_indented_lines(out: &mut String, indent: &str, lines: &Vec<String>)
    ensures
        final(out)@ == old(out)@ + indented_lines(indent@, strs(lines@)),
{
    let ghost ls = strs(lines@);
    let mut joined: Vec<String> = Vec::new();
    let mut i: usize = 0;
    while i < lines.len()
        invariant
            i <= lines@.len(),
            ls == strs(lines@),
            strs(joined@) == ls.subrange(0, i as int).map_values(|l: Seq<char>| indent@ + l),
        decreases lines@.len() - i,
    {
        let mut line = crate::text::owned(indent);
        push_str(&mut line, lines[i].as_str());
        let ghost pre = strs(joined@);
        joined.push(line);
        assert(ls.subrange(0, i + 1).map_values(|l: Seq<char>| indent@ + l) =~= ls.subrange(0, i as int).map_values(|l: Seq<char>| indent@ + l).push(indent@ + ls[i as int]));
        assert(strs(joined@) =~= pre.push(line@));
        i += 1;
    }
    assert(ls.subrange(0, ls.len() as int) =~= ls);
    push_str(out, crate::text::join_strings(&joined, "\n").as_str());
}

fn trailing_comment_text(c: &Option<Comment>, config: &Config) -> (r: String)
    ensures
        r@ == trailing_text(crate::ast::opt_comment_view(*c), *config),
{
    match c {
        Some(t) => {
            let ls = format_comment_lines(t, config, 0, config.line_width);
            if ls.len() > 0 {
                let mut s = crate::text::owned(" ");
                push_str(&mut s, ls[0].as_str());
                proof {
                    reveal_strlit(" ");
                }
                s
            } else {
                String::new()
            }
        },
        None => String::new(),
    }
}

/// The decision lines of the commands from statement `i` on, each command
/// at the block depth it is formatted at.
pub open spec fn decisions_from(stmts: Seq<SStatement>, config: Config, reg: CommandRegistry, i: int, depth: nat) -> Seq<
    Seq<char>,
>
    decreases stmts.len() - i,
{
    if i < 0 || i >= stmts.len() {
        Seq::empty()
    } else {
        match stmts[i] {
            SStatement::Command(c) => {
                let d = sat_sub(depth, if dedents(c.name) { 1nat } else { 0nat });
                command_decisions(c, &config, reg.lookup(c.name), d) + decisions_from(
                    stmts,
                    config,
                    reg,
                    i + 1,
                    d + if indents(c.name) { 1nat } else { 0nat },
                )
            },
            _ => decisions_from(stmts, config, reg, i + 1, depth),
        }
    }
}

/// Format a parsed file and, when `debug`, say how each command was
/// formatted.
#[verifier::spinoff_prover]
#[verifier::rlimit(40)]
fn format_file_impl(file: &File, config: &Config, registry: &CommandRegistry, debug: bool) -> (r: Result<(String, Vec<String>)>)
    ensures
        r matches Ok((s, lines)) && s@ == formatted_file(file@, *config, *registry)
            && (debug ==> strs(lines@) == decisions_from(file@, *config, *registry, 0, 0))
            && (!debug ==> lines@.len() == 0),
{
    let mut lines: Vec<String> = Vec::new();
    let ghost stmts = file@;
    let mut output = String::new();
    let mut previous_was_content = false;
    let mut block_depth: usize = 0;
    let mut i: usize = 0;
    let n = file.statements.len();
    while i < n
        invariant
            i <= n,
            n == file.statements@.len(),
            stmts == file@,
            block_depth <= i,
            debug ==> decisions_from(stmts, *config, *registry, 0, 0) == strs(lines@) + decisions_from(
                stmts,
                *config,
                *registry,
                i as int,
                block_depth as nat,
            ),
            !debug ==> lines@.len() == 0,
            stmts_from(stmts, *config, *registry, i as int, FmtState {
                out: output@,
                prev_content: previous_was_content,
                depth: block_depth as nat,
            }) == stmts_from(stmts, *config, *registry, 0, FmtState { out: Seq::empty(), prev_content: false, depth: 0 }),
        decreases n - i,
    {
        let statement = &file.statements[i];
        assert(stmts[i as int] == statement@);
        let ghost st = FmtState { out: output@, prev_content: previous_was_content, depth: block_depth as nat };
        let ghost lines_before = strs(lines@);
        let ghost depth_before = block_depth as nat;
        match statement {
            Statement::Command(command) => {
                let dedent = block_dedent_before(command.name.as_str());
                block_depth = if block_depth >= dedent { block_depth - dedent } else { 0 };
                if previous_was_content {
                    push_char(&mut output, '\n');
                }
                proof {
                    reveal_strlit("\n");
                }
                assert(output@ =~= separate(st));
                if debug {
                    match crate::node::format_command_debug(command, config, registry, block_depth) {
                        Ok((text, decisions)) => {
                            push_str(&mut output, text.as_str());
                            let ghost pre = strs(lines@);
                            let mut more = decisions;
                            lines.append(&mut more);
                            assert(strs(lines@) =~= pre + strs(decisions@));
                        },
                        Err(e) => {
                            return Err(e);
                        },
                    }
                } else {
                    match format_command(command, config, registry, block_depth) {
                        Ok(text) => push_str(&mut output, text.as_str()),
                        Err(e) => {
                            return Err(e);
                        },
                    }
                }
                push_str(&mut output, trailing_comment_text(&command.trailing_comment, config).as_str());
                previous_was_content = true;
                block_depth = block_depth + block_indent_after(command.name.as_str());
                assert(output@ =~= stmt_step(st, statement@, *config, *registry).out);
            },
            Statement::BlankLines(count) => {
                let c: u128 = *count as u128;
                let p: u128 = if previous_was_content { 1 } else { 0 };
                let cap: u128 = config.max_empty_lines as u128 + 1;
                let wanted: u128 = c + p;
                let newlines: u128 = if wanted <= cap { wanted } else { cap };
                push_newlines(&mut output, newlines);
                previous_was_content = false;
            },
            Statement::Comment(c) => {
                if previous_was_content {
                    push_char(&mut output, '\n');
                }
                proof {
                    reveal_strlit("\n");
                }
                assert(output@ =~= separate(st));
                let indent = repeat_str(config.indent_str().as_str(), block_depth);
                let lines = format_comment_lines(c, config, crate::node::char_count(indent.as_str()), config.line_width);
                push_indented_lines(&mut output, indent.as_str(), &lines);
                previous_was_content = true;
            },
            Statement::TemplatePlaceholder(t) => {
                if previous_was_content {
                    push_char(&mut output, '\n');
                }
                proof {
                    reveal_strlit("\n");
                }
                assert(output@ =~= separate(st));
                push_str(&mut output, t.as_str());
                previous_was_content = true;
            },
        }
        i += 1;
    }
    let ghost fin = output@;
    if !crate::node::ends_with_newline(output.as_str()) {
        push_char(&mut output, '\n');
    }
    assert(output@ =~= end_with_newline(fin));
    proof {
        if debug {
            assert(strs(lines@) + decisions_from(stmts, *config, *registry, i as int, block_depth as nat) =~= strs(lines@));
        }
    }
    Ok((output, lines))
}

/// Format a parsed file with a command registry.
pub fn format_file(file: &File, config: &Config, registry: &CommandRegistry) -> (r: Result<String>)
    ensures
        r matches Ok(s) && s@ == formatted_file(file@, *config, *registry),
{
    match format_file_impl(file, config, registry, false) {
        Ok((s, _)) => Ok(s),
        Err(e) => Err(e),
    }
}

/// Format a parsed file and say how each command was formatted: two lines
/// per command, in order (see [`crate::node::command_decisions`]).
pub fn format_file_debug(file: &File, config: &Config, registry: &CommandRegistry) -> (r: Result<(String, Vec<String>)>)
    ensures
        r matches Ok((s, lines)) && s@ == formatted_file(file@, *config, *registry) && strs(lines@)
            == decisions_from(file@, *config, *registry, 0, 0),
{
    format_file_impl(file, config, registry, true)
}

/// A parsed source formatted: the statements that formatting sees (disable
/// regions kept as written) laid out as a file.
pub open spec fn formatted_source(source: Seq<char>, stmts: Seq<SStatement>, config: Config, reg: CommandRegistry) -> Seq<char> {
    formatted_file(effective_statements(source, stmts), config, reg)
}

/// Format CMake source with a command registry.
pub fn format_source_with_registry(source: &str, config: &Config, registry: &CommandRegistry) -> (r: Result<String>)
    ensures
        match parse_spec(source@) {
            Ok(stmts) => r matches Ok(s) && s@ == formatted_source(source@, stmts, *config, *registry),
            Err(_) => r matches Err(e) && parse_result_ok(source@, Err(e)),
        },
{
    let parsed = parse(source);
    match parsed {
        Ok(file) => {
            let file = effective_file(source, file);
            match format_file(&file, config, registry) {
                Ok(o) => Ok(o),
                Err(e) => Err(e),
            }
        },
        Err(e) => Err(e),
    }
}

/// Format CMake source with a command registry and say how each command
/// was formatted.
pub fn format_source_with_registry_debug(source: &str, config: &Config, registry: &CommandRegistry) -> (r: Result<
    (String, Vec<String>),
>)
    ensures
        match parse_spec(source@) {
            Ok(stmts) => r matches Ok((s, lines)) && s@ == formatted_source(source@, stmts, *config, *registry)
                && strs(lines@) == decisions_from(effective_statements(source@, stmts), *config, *registry, 0, 0),
            Err(_) => r matches Err(e) && parse_result_ok(source@, Err(e)),
        },
{
    let parsed = parse(source);
    match parsed {
        Ok(file) => {
            let file = effective_file(source, file);
            match format_file_debug(&file, config, registry) {
                Ok((o, lines)) => Ok((o, lines)),
                Err(e) => Err(e),
            }
        },
        Err(e) => Err(e),
    }
}

/// Format CMake source with the built-in command registry.
pub fn format_source(source: &str, config: &Config) -> (r: Result<String>)
    ensures
        match parse_spec(source@) {
            Ok(stmts) => r matches Ok(s) && (exists|reg: CommandRegistry| #[trigger] is_builtin_registry(reg))
                && forall|reg: CommandRegistry| #[trigger] is_builtin_registry(reg) ==> s@ == formatted_source(
                source@,
                stmts,
                *config,
                reg,
            ),
            Err(_) => r matches Err(e) && parse_result_ok(source@, Err(e)),
        },
{
    let parsed = parse(source);
    let file = match parsed {
        Ok(file) => file,
        Err(e) => {
            return Err(e);
        },
    };
    let registry = match CommandRegistry::load() {
        Ok(reg) => reg,
        Err(e) => {
            return Err(e);
        },
    };
    let file = effective_file(source, file);
    let r = match format_file(&file, config, &registry) {
        Ok(o) => Ok(o),
        Err(e) => Err(e),
    };
    assert(is_builtin_registry(registry));
    proof {
        if let Ok(stmts) = parse_spec(source@) {
            assert forall|reg: CommandRegistry| #[trigger] is_builtin_registry(reg) implies r matches Ok(s) && s@
                == formatted_source(source@, stmts, *config, reg) by {
                lemma_builtin_registries_format_alike(source@, stmts, *config, registry, reg);
            }
        }
    }
    r
}

// ── Laws ────────────────────────────────────────────────────────────────────

/// The CMake commands that open a block: `if`, `foreach`, `while`,
/// `function`, `macro` and `block` (lowercased name).
pub open spec fn opens_block(l: Seq<char>) -> bool {
    l == "if"@ || l == "foreach"@ || l == "while"@ || l == "function"@ || l == "macro"@ || l == "block"@
}

/// The CMake commands that close a block: `endif`, `endforeach`,
/// `endwhile`, `endfunction`, `endmacro` and `endblock` (lowercased name).
pub open spec fn closes_block(l: Seq<char>) -> bool {
    l == "endif"@ || l == "endforeach"@ || l == "endwhile"@ || l == "endfunction"@ || l == "endmacro"@
        || l == "endblock"@
}

/// The CMake commands that close one branch of a block and open the next:
/// `elseif` and `else` (lowercased name).
pub open spec fn continues_block(l: Seq<char>) -> bool {
    l == "elseif"@ || l == "else"@
}

/// The depth a command is written at: one level out for a command that
/// closes or continues a block, the current depth otherwise.
pub open spec fn written_depth(depth: nat, l: Seq<char>) -> nat {
    if closes_block(l) || continues_block(l) {
        sat_sub(depth, 1)
    } else {
        depth
    }
}

/// Block structure: every block opener (`if`, `foreach`, `while`,
/// `function`, `macro`, `block`) is written at the current depth and the
/// statements after it one level deeper; every closer (`endif`,
/// `endforeach`, `endwhile`, `endfunction`, `endmacro`, `endblock`) is
/// written one level out and stays there; `elseif` and `else` are written
/// one level out and open the next level again; any other command changes
/// nothing.
pub proof fn lemma_block_levels(st: FmtState, c: SCommand, config: Config, reg: CommandRegistry)
    ensures
        stmt_step(st, SStatement::Command(c), config, reg).out == separate(st) + formatted_command(
            c,
            &config,
            reg.lookup(c.name),
            written_depth(st.depth, lower_seq(c.name)),
        ) + trailing_text(c.trailing, config),
        stmt_step(st, SStatement::Command(c), config, reg).depth == if opens_block(lower_seq(c.name))
            || continues_block(lower_seq(c.name)) {
            written_depth(st.depth, lower_seq(c.name)) + 1
        } else {
            written_depth(st.depth, lower_seq(c.name))
        },
{
    reveal_strlit("if");
    reveal_strlit("foreach");
    reveal_strlit("while");
    reveal_strlit("function");
    reveal_strlit("macro");
    reveal_strlit("block");
    reveal_strlit("elseif");
    reveal_strlit("else");
    reveal_strlit("endif");
    reveal_strlit("endforeach");
    reveal_strlit("endwhile");
    reveal_strlit("endfunction");
    reveal_strlit("endmacro");
    reveal_strlit("endblock");
    let l = lower_seq(c.name);
    assert(dedents(c.name) == (closes_block(l) || continues_block(l)));
    assert(indents(c.name) == (opens_block(l) || continues_block(l)));
}

proof fn lemma_steps_same_registry(
    stmts: Seq<SStatement>,
    config: Config,
    r1: CommandRegistry,
    r2: CommandRegistry,
    i: int,
    st: FmtState,
)
    requires
        r1.commands_view() == r2.commands_view(),
        r1.default_fallback(),
        r2.default_fallback(),
    ensures
        stmts_from(stmts, config, r1, i, st) == stmts_from(stmts, config, r2, i, st),
    decreases stmts.len() - i,
{
    if 0 <= i < stmts.len() {
        if let SStatement::Command(c) = stmts[i] {
            let depth = sat_sub(st.depth, if dedents(c.name) { 1nat } else { 0nat });
            lemma_lookup_same_model(r1, r2, c.name);
            lemma_formatted_command_same(c, config, r1.lookup(c.name), r2.lookup(c.name), depth);
        }
        assert(stmt_step(st, stmts[i], config, r1) == stmt_step(st, stmts[i], config, r2));
        lemma_steps_same_registry(stmts, config, r1, r2, i + 1, stmt_step(st, stmts[i], config, r1));
    }
}

/// Every built-in registry formats alike: which value of the built-in
/// registry is used does not change a formatted file, nor the output of a
/// source.
pub proof fn lemma_builtin_registries_format_alike(
    source: Seq<char>,
    stmts: Seq<SStatement>,
    config: Config,
    r1: CommandRegistry,
    r2: CommandRegistry,
)
    requires
        is_builtin_registry(r1),
        is_builtin_registry(r2),
    ensures
        formatted_file(stmts, config, r1) == formatted_file(stmts, config, r2),
        formatted_source(source, stmts, config, r1) == formatted_source(source, stmts, config, r2),
{
    let init = FmtState { out: Seq::empty(), prev_content: false, depth: 0 };
    lemma_steps_same_registry(stmts, config, r1, r2, 0, init);
    lemma_steps_same_registry(effective_statements(source, stmts), config, r1, r2, 0, init);
}

/// Formatted output always ends with exactly the newline its statements
/// end with: one is added only when the last statement did not end its line.
pub proof fn lemma_output_ends_with_newline(stmts: Seq<SStatement>, config: Config, reg: CommandRegistry)
    ensures
        formatted_file(stmts, config, reg).len() > 0,
        formatted_file(stmts, config, reg).last() == '\n',
        ({
            let out = stmts_from(stmts, config, reg, 0, FmtState { out: Seq::empty(), prev_content: false, depth: 0 }).out;
            formatted_file(stmts, config, reg) == if out.len() > 0 && out.last() == '\n' {
                out
            } else {
                out + "\n"@
            }
        }),
{
    reveal_strlit("\n");
    let out = stmts_from(stmts, config, reg, 0, FmtState { out: Seq::empty(), prev_content: false, depth: 0 }).out;
    assert(out.push('\n') =~= out + "\n"@);
}

/// A run of blank lines writes at most `max_empty_lines + 1` newlines.
pub proof fn lemma_blank_lines_capped(count: nat, prev_content: bool, max_empty_lines: nat)
    ensures
        blank_newlines(count, prev_content, max_empty_lines) <= max_empty_lines + 1,
        blank_newlines(count, prev_content, max_empty_lines) <= count + 1,
{
}

/// Indentation at block depth `d`: `d` tabs when tabs are used, else
/// `d * tab_size` spaces.
pub proof fn lemma_indentation(use_tabs: bool, tab_size: nat, d: nat)
    ensures
        repeat_seq(indent_unit(use_tabs, tab_size), d).len() == if use_tabs { d } else { d * tab_size },
        forall|i: int|
            0 <= i < repeat_seq(indent_unit(use_tabs, tab_size), d).len() ==> #[trigger] repeat_seq(
                indent_unit(use_tabs, tab_size),
                d,
            )[i] == if use_tabs { '\t' } else { ' ' },
    decreases d,
{
    if d > 0 {
        lemma_indentation(use_tabs, tab_size, (d - 1) as nat);
        let prev = repeat_seq(indent_unit(use_tabs, tab_size), (d - 1) as nat);
        let u = indent_unit(use_tabs, tab_size);
        let r = repeat_seq(u, d);
        assert(r == prev + u);
        assert(u.len() == if use_tabs { 1 } else { tab_size });
        assert(d * tab_size == (d - 1) * tab_size + tab_size) by (nonlinear_arith)
            requires
                d > 0,
        ;
        assert forall|i: int| 0 <= i < r.len() implies #[trigger] r[i] == if use_tabs { '\t' } else { ' ' } by {
            if i < prev.len() {
                assert(r[i] == prev[i]);
            } else {
                assert(r[i] == u[i - prev.len()]);
            }
        }
    } else {
        assert(0 * tab_size == 0) by (nonlinear_arith);
    }
}

/// A command at block depth `d` is indented by `d` tabs when tabs are
/// used, else by `d` times its tab size in spaces: the command's own tab
/// size when a per-command override sets one, else the global one.
pub proof fn lemma_command_indentation(cc: crate::config::CommandConfig, d: nat)
    ensures
        crate::node::base_indent(cc, d) == repeat_seq(
            indent_unit(
                cc.global.use_tabchars,
                (match cc.per_cmd {
                    Some(p) => match p.tab_size {
                        Some(t) => t,
                        None => cc.global.tab_size,
                    },
                    None => cc.global.tab_size,
                }) as nat,
            ),
            d,
        ),
{
}

/// Standalone comments and verbatim text: each starts on a new line after
/// earlier content; a comment is written as rendered at the current block
/// depth, verbatim text exactly as it is; neither changes the depth.
pub proof fn lemma_comment_and_verbatim_steps(st: FmtState, c: SComment, t: Seq<char>, config: Config, reg: CommandRegistry)
    ensures
        stmt_step(st, SStatement::Comment(c), config, reg).out == (if st.prev_content {
            st.out + "\n"@
        } else {
            st.out
        }) + rendered_comment(c, config, st.depth),
        stmt_step(st, SStatement::Comment(c), config, reg).depth == st.depth,
        stmt_step(st, SStatement::Comment(c), config, reg).prev_content,
        stmt_step(st, SStatement::TemplatePlaceholder(t), config, reg).out == (if st.prev_content {
            st.out + "\n"@
        } else {
            st.out
        }) + t,
        stmt_step(st, SStatement::TemplatePlaceholder(t), config, reg).depth == st.depth,
{
}

/// Runs of blank lines: after content, a run of `count` blank lines keeps
/// `min(count, max_empty_lines)` empty lines (one newline ends the content's
/// line); at the start of a file it writes `min(count, max_empty_lines + 1)`
/// newlines. The depth is unchanged and the next statement starts afresh.
pub proof fn lemma_blank_line_runs(st: FmtState, count: nat, config: Config, reg: CommandRegistry)
    ensures
        stmt_step(st, SStatement::BlankLines(count), config, reg).out == st.out + repeat_seq(
            "\n"@,
            if st.prev_content {
                1 + if count <= config.max_empty_lines { count } else { config.max_empty_lines as nat }
            } else {
                if count <= config.max_empty_lines + 1 { count } else { (config.max_empty_lines + 1) as nat }
            },
        ),
        stmt_step(st, SStatement::BlankLines(count), config, reg).depth == st.depth,
        !stmt_step(st, SStatement::BlankLines(count), config, reg).prev_content,
{
}

/// A trailing line comment stays on its command's line, after one space,
/// exactly as written when comments are not reflowed; a command without one
/// gets nothing after it.
pub proof fn lemma_trailing_comment_kept(t: Seq<char>, config: Config)
    requires
        !config.enable_markup || !config.reflow_comments,
    ensures
        trailing_text(Some(SComment::Line(t)), config) == " "@ + t,
        trailing_text(None, config) == Seq::<char>::empty(),
{
}

/// The statements are formatted one after another: formatting a file is
/// formatting its first statements and then the rest from the state they
/// leave.
pub proof fn lemma_statements_compose(stmts: Seq<SStatement>, config: Config, reg: CommandRegistry, k: int)
    requires
        0 <= k <= stmts.len(),
    ensures
        stmts_from(stmts, config, reg, 0, FmtState { out: Seq::empty(), prev_content: false, depth: 0 })
            == stmts_from(
            stmts.subrange(k, stmts.len() as int),
            config,
            reg,
            0,
            stmts_from(stmts.subrange(0, k), config, reg, 0, FmtState { out: Seq::empty(), prev_content: false, depth: 0 }),
        ),
{
    lemma_stmts_split(stmts, config, reg, 0, k, FmtState { out: Seq::empty(), prev_content: false, depth: 0 });
}

proof fn lemma_stmts_split(stmts: Seq<SStatement>, config: Config, reg: CommandRegistry, i: int, k: int, st: FmtState)
    requires
        0 <= i <= k <= stmts.len(),
    ensures
        stmts_from(stmts, config, reg, i, st) == stmts_from(
            stmts.subrange(k, stmts.len() as int),
            config,
            reg,
            0,
            stmts_from(stmts.subrange(0, k), config, reg, i, st),
        ),
    decreases k - i,
{
    if i < k {
        let next = stmt_step(st, stmts[i], config, reg);
        assert(stmts.subrange(0, k)[i] == stmts[i]);
        lemma_stmts_split(stmts, config, reg, i + 1, k, next);
    } else {
        lemma_stmts_rebase(stmts, config, reg, k, st);
    }
}

proof fn lemma_stmts_rebase(stmts: Seq<SStatement>, config: Config, reg: CommandRegistry, k: int, st: FmtState)
    requires
        0 <= k <= stmts.len(),
    ensures
        stmts_from(stmts, config, reg, k, st) == stmts_from(stmts.subrange(k, stmts.len() as int), config, reg, 0, st),
    decreases stmts.len() - k,
{
    let tail = stmts.subrange(k, stmts.len() as int);
    if k < stmts.len() {
        let next = stmt_step(st, stmts[k], config, reg);
        assert(tail[0] == stmts[k]);
        lemma_stmts_rebase(stmts, config, reg, k + 1, next);
        lemma_tail_shift(tail, config, reg, next);
        assert(tail.subrange(1, tail.len() as int) =~= stmts.subrange(k + 1, stmts.len() as int));
    }
}

proof fn lemma_tail_shift(tail: Seq<SStatement>, config: Config, reg: CommandRegistry, st: FmtState)
    requires
        tail.len() > 0,
    ensures
        stmts_from(tail, config, reg, 1, st) == stmts_from(tail.subrange(1, tail.len() as int), config, reg, 0, st),
{
    lemma_shift_from(tail, config, reg, 1, st);
}

proof fn lemma_shift_from(tail: Seq<SStatement>, config: Config, reg: CommandRegistry, j: int, st: FmtState)
    requires
        1 <= j <= tail.len(),
    ensures
        stmts_from(tail, config, reg, j, st) == stmts_from(tail.subrange(1, tail.len() as int), config, reg, j - 1, st),
    decreases tail.len() - j,
{
    if j < tail.len() {
        let rest = tail.subrange(1, tail.len() as int);
        assert(rest[j - 1] == tail[j]);
        lemma_shift_from(tail, config, reg, j + 1, stmt_step(st, tail[j], config, reg));
    }
}

proof fn lemma_out_grows(stmts: Seq<SStatement>, config: Config, reg: CommandRegistry, i: int, st: FmtState)
    ensures
        stmts_from(stmts, config, reg, i, st).out.len() >= st.out.len(),
        stmts_from(stmts, config, reg, i, st).out.subrange(0, st.out.len() as int) == st.out,
    decreases stmts.len() - i,
{
    if 0 <= i < stmts.len() {
        let next = stmt_step(st, stmts[i], config, reg);
        assert(next.out.subrange(0, st.out.len() as int) =~= st.out);
        lemma_out_grows(stmts, config, reg, i + 1, next);
        let fin = stmts_from(stmts, config, reg, i + 1, next).out;
        assert(fin.subrange(0, st.out.len() as int) =~= next.out.subrange(0, st.out.len() as int));
    }
}

proof fn lemma_verbatim_in_output(
    stmts: Seq<SStatement>,
    config: Config,
    reg: CommandRegistry,
    i: int,
    st: FmtState,
    j: int,
    t: Seq<char>,
)
    requires
        0 <= i <= j < stmts.len(),
        written_as_is(stmts[j], t, config),
    ensures
        contains(stmts_from(stmts, config, reg, i, st).out, t),
    decreases j - i,
{
    let next = stmt_step(st, stmts[i], config, reg);
    if i == j {
        let indent = repeat_seq(indent_unit(config.use_tabchars, config.tab_size as nat), st.depth);
        let at = if stmts[j] is Comment { (separate(st).len() + indent.len()) as int } else { separate(st).len() as int };
        if stmts[j] is Comment {
            let ls = seq![t];
            assert(ls.map_values(|l: Seq<char>| indent + l) =~= seq![indent + t]);
            assert(next.out == separate(st) + indented_lines(indent, ls));
            assert(next.out =~= separate(st) + indent + t);
        } else {
            assert(next.out == separate(st) + t);
        }
        lemma_out_grows(stmts, config, reg, i + 1, next);
        let fin = stmts_from(stmts, config, reg, i + 1, next).out;
        assert(fin.subrange(at, at + t.len()) =~= next.out.subrange(at, at + t.len()));
        assert(next.out.subrange(at, at + t.len()) =~= t);
        assert(occurs_at(fin, t, at));
    } else {
        lemma_verbatim_in_output(stmts, config, reg, i + 1, next, j, t);
    }
}

/// Whether a statement writes `t` as it is: a verbatim statement holding
/// `t`, or a standalone line comment `t` when comments are not reflowed.
pub open spec fn written_as_is(s: SStatement, t: Seq<char>, config: Config) -> bool {
    s == SStatement::TemplatePlaceholder(t) || (s == SStatement::Comment(SComment::Line(t)) && (
    !config.enable_markup || !config.reflow_comments))
}

/// Comment preservation: when comments are not reflowed, every standalone
/// line comment stands, exactly as written, in the formatted file.
pub proof fn lemma_line_comments_kept(stmts: Seq<SStatement>, config: Config, reg: CommandRegistry, j: int, t: Seq<char>)
    requires
        0 <= j < stmts.len(),
        stmts[j] == SStatement::Comment(SComment::Line(t)),
        !config.enable_markup || !config.reflow_comments,
    ensures
        contains(formatted_file(stmts, config, reg), t),
{
    lemma_written_kept(stmts, config, reg, j, t);
}

/// A comment rendered at nesting depth `d`: its formatted lines, each
/// indented for that depth, one per line.
pub open spec fn rendered_comment(c: SComment, config: Config, d: nat) -> Seq<char> {
    let indent = repeat_seq(indent_unit(config.use_tabchars, config.tab_size as nat), d);
    indented_lines(indent, comment_lines(c, config, indent.len(), config.line_width as nat))
}

proof fn lemma_comment_in_output(
    stmts: Seq<SStatement>,
    config: Config,
    reg: CommandRegistry,
    i: int,
    st: FmtState,
    j: int,
    c: SComment,
)
    requires
        0 <= i <= j < stmts.len(),
        stmts[j] == SStatement::Comment(c),
    ensures
        exists|d: nat| contains(stmts_from(stmts, config, reg, i, st).out, #[trigger] rendered_comment(c, config, d)),
    decreases j - i,
{
    let next = stmt_step(st, stmts[i], config, reg);
    if i == j {
        let t = rendered_comment(c, config, st.depth);
        let at = separate(st).len() as int;
        assert(next.out == separate(st) + t);
        lemma_out_grows(stmts, config, reg, i + 1, next);
        let fin = stmts_from(stmts, config, reg, i + 1, next).out;
        assert(fin.subrange(at, at + t.len()) =~= next.out.subrange(at, at + t.len()));
        assert(next.out.subrange(at, at + t.len()) =~= t);
        assert(occurs_at(fin, t, at));
        assert(contains(fin, t));
    } else {
        lemma_comment_in_output(stmts, config, reg, i + 1, next, j, c);
    }
}

/// Comment preservation: every standalone comment stands in the formatted
/// file as it is rendered (kept as written, split at its line breaks, or
/// reflowed as `lemma_reflow_keeps_words` describes), indented for the
/// depth it stands at.
pub proof fn lemma_comments_kept(stmts: Seq<SStatement>, config: Config, reg: CommandRegistry, j: int, c: SComment)
    requires
        0 <= j < stmts.len(),
        stmts[j] == SStatement::Comment(c),
    ensures
        exists|d: nat| contains(formatted_file(stmts, config, reg), #[trigger] rendered_comment(c, config, d)),
{
    let init = FmtState { out: Seq::empty(), prev_content: false, depth: 0 };
    lemma_comment_in_output(stmts, config, reg, 0, init, j, c);
    let out = stmts_from(stmts, config, reg, 0, init).out;
    let d = choose|d: nat| contains(out, #[trigger] rendered_comment(c, config, d));
    let t = rendered_comment(c, config, d);
    let at = choose|at: int| occurs_at(out, t, at);
    let f = formatted_file(stmts, config, reg);
    assert(f.subrange(at, at + t.len()) =~= out.subrange(at, at + t.len()));
    assert(occurs_at(f, t, at));
    assert(contains(f, t));
}

/// Comment preservation for a source: the output of a source holds every
/// standalone comment of the statements it is laid out from, as rendered at
/// the depth it stands at.
pub proof fn lemma_source_comments_rendered(
    source: Seq<char>,
    stmts: Seq<SStatement>,
    config: Config,
    reg: CommandRegistry,
    j: int,
    c: SComment,
)
    requires
        0 <= j < effective_statements(source, stmts).len(),
        effective_statements(source, stmts)[j] == SStatement::Comment(c),
    ensures
        exists|d: nat| contains(formatted_source(source, stmts, config, reg), #[trigger] rendered_comment(c, config, d)),
{
    lemma_comments_kept(effective_statements(source, stmts), config, reg, j, c);
}

/// Comment preservation for a source: when comments are not reflowed, the
/// output of a source holds every standalone line comment of the statements
/// it is laid out from, exactly as written.
pub proof fn lemma_source_comments_kept(
    source: Seq<char>,
    stmts: Seq<SStatement>,
    config: Config,
    reg: CommandRegistry,
    j: int,
    t: Seq<char>,
)
    requires
        0 <= j < effective_statements(source, stmts).len(),
        effective_statements(source, stmts)[j] == SStatement::Comment(SComment::Line(t)),
        !config.enable_markup || !config.reflow_comments,
    ensures
        contains(formatted_source(source, stmts, config, reg), t),
{
    lemma_written_kept(effective_statements(source, stmts), config, reg, j, t);
}

proof fn lemma_written_kept(stmts: Seq<SStatement>, config: Config, reg: CommandRegistry, j: int, t: Seq<char>)
    requires
        0 <= j < stmts.len(),
        written_as_is(stmts[j], t, config),
    ensures
        contains(formatted_file(stmts, config, reg), t),
{
    let init = FmtState { out: Seq::empty(), prev_content: false, depth: 0 };
    lemma_verbatim_in_output(stmts, config, reg, 0, init, j, t);
    let out = stmts_from(stmts, config, reg, 0, init).out;
    let at = choose|at: int| occurs_at(out, t, at);
    let f = formatted_file(stmts, config, reg);
    assert(f.subrange(at, at + t.len()) =~= out.subrange(at, at + t.len()));
    assert(occurs_at(f, t, at));
}

/// A verbatim statement's text stands unchanged in the formatted file.
pub proof fn lemma_verbatim_kept(stmts: Seq<SStatement>, config: Config, reg: CommandRegistry, j: int, t: Seq<char>)
    requires
        0 <= j < stmts.len(),
        stmts[j] == SStatement::TemplatePlaceholder(t),
    ensures
        contains(formatted_file(stmts, config, reg), t),
{
    let init = FmtState { out: Seq::empty(), prev_content: false, depth: 0 };
    lemma_verbatim_in_output(stmts, config, reg, 0, init, j, t);
    let out = stmts_from(stmts, config, reg, 0, init).out;
    let at = choose|at: int| occurs_at(out, t, at);
    let f = formatted_file(stmts, config, reg);
    assert(f.subrange(at, at + t.len()) =~= out.subrange(at, at + t.len()));
    assert(occurs_at(f, t, at));
}

/// Disable regions: when a source has regions kept as written (between
/// `off`/`on` barrier comments, or between `# ~~~` fences) and the rest of
/// it parses chunk by chunk, each region's lines, barrier lines included,
/// stand unchanged in the formatted output.
pub proof fn lemma_regions_kept_verbatim(
    source: Seq<char>,
    stmts: Seq<SStatement>,
    config: Config,
    reg: CommandRegistry,
    k: int,
)
    requires
        0 <= k < chunks(source).len(),
        chunks(source)[k].0,
        assembled(chunks(source)) is Some,
    ensures
        contains(formatted_source(source, stmts, config, reg), drop_final_newline(chunks(source)[k].1)),
{
    let cs = chunks(source);
    assert(has_region(cs));
    lemma_regions_assembled(cs, k);
    let all = assembled(cs)->0;
    let j = choose|j: int| 0 <= j < all.len() && #[trigger] all[j]
        == SStatement::TemplatePlaceholder(drop_final_newline(cs[k].1));
    lemma_verbatim_kept(all, config, reg, j, drop_final_newline(cs[k].1));
}

} // verus!
