//! Semantic-level normalisation for parsed CMake.
//!
//! These helpers strip away the parts of a syntax tree that do not affect
//! CMake semantics (comments, blank lines, line endings, command-name and
//! keyword casing) so that two files can be compared for "would they behave
//! identically?" without cosmetic differences getting in the way.

use vstd::prelude::*;
use crate::ast::{
    Argument, BracketArgument, CommandInvocation, Comment, File, SArgument, SCommand, SComment,
    SStatement, Statement, args_view, stmts_view,
};
use crate::parser::{parse, parse_spec};
use crate::registry::{CommandRegistry, is_builtin_registry, lemma_lookup_same_model};
use crate::overrides::{form_model, forms_model, kwarg_model, kwargs_model, lemma_kwargs_model, spec_model};
use crate::spec::{CommandForm, CommandSpec, KwargSpec, has_text, contains_text, opt_text, selected_form, token_index};
use crate::text::{copy_string, crlf_to_lf, has_char, contains_char, lower_seq, replace_crlf, str_eq, to_lower, to_upper, upper_seq, strs};

verus! {

broadcast use vstd::string::group_string_axioms;

// ── Line endings ────────────────────────────────────────────────────────────

proof fn lemma_crlf_identity(s: Seq<char>)
    requires
        !has_char(s, '\r'),
    ensures
        crlf_to_lf(s) == s,
    decreases s.len(),
{
    if s.len() > 0 {
        let t = s.subrange(1, s.len() as int);
        assert(!has_char(t, '\r')) by {
            if has_char(t, '\r') {
                let j = choose|j: int| 0 <= j < t.len() && t[j] == '\r';
                assert(s[j + 1] == '\r');
            }
        }
        assert(s[0] != '\r');
        lemma_crlf_identity(t);
        assert(seq![s[0]] + t =~= s);
    }
}

/// Strip Windows-style `\r\n` line endings to plain `\n` in place.
pub fn normalize_line_endings(value: &mut String)
    ensures
        final(value)@ == crlf_to_lf(old(value)@),
{
    if contains_char(value.as_str(), '\r') {
        *value = replace_crlf(value.as_str());
    } else {
        proof {
            lemma_crlf_identity(value@);
        }
    }
}

// ── Keywords of a form ──────────────────────────────────────────────────────

/// Whether `t` is a flag of a keyword spec, or (recursively) one of its
/// nested keywords or their flags.
pub open spec fn kwarg_keyword(spec: KwargSpec, t: Seq<char>) -> bool
    decreases spec, spec.kwargs@.len() + 1,
{
    has_text(spec.flags@, t) || kwlist_keyword(spec, 0, t)
}

/// Whether `t` is one of the nested keywords of a spec from position `i`
/// on, or a keyword within one of them.
pub open spec fn kwlist_keyword(spec: KwargSpec, i: int, t: Seq<char>) -> bool
    decreases spec, spec.kwargs@.len() - i,
{
    if i < 0 || i >= spec.kwargs@.len() {
        false
    } else {
        spec.kwargs@[i].0@ == t || kwarg_keyword(spec.kwargs@[i].1, t) || kwlist_keyword(spec, i + 1, t)
    }
}

/// Whether `t` is one of a form's top-level keywords from position `i` on,
/// or a keyword within one of them.
pub open spec fn form_kwlist_keyword(form: CommandForm, i: int, t: Seq<char>) -> bool
    decreases form.kwargs@.len() - i,
{
    if i < 0 || i >= form.kwargs@.len() {
        false
    } else {
        form.kwargs@[i].0@ == t || kwarg_keyword(form.kwargs@[i].1, t) || form_kwlist_keyword(form, i + 1, t)
    }
}

/// Whether `t` is a keyword or flag anywhere in a form.
pub open spec fn form_keyword(form: CommandForm, t: Seq<char>) -> bool {
    has_text(form.flags@, t) || form_kwlist_keyword(form, 0, t)
}

fn kwarg_has_keyword(spec: &KwargSpec, t: &str) -> (r: bool)
    ensures
        r == kwarg_keyword(*spec, t@),
    decreases spec, spec.kwargs@.len() + 1,
{
    if contains_text(&spec.flags, t) {
        return true;
    }
    kwlist_has_keyword(spec, 0, t)
}

fn kwlist_has_keyword(spec: &KwargSpec, i: usize, t: &str) -> (r: bool)
    requires
        i <= spec.kwargs@.len(),
    ensures
        r == kwlist_keyword(*spec, i as int, t@),
    decreases spec, spec.kwargs@.len() - i,
{
    if i >= spec.kwargs.len() {
        return false;
    }
    let entry = &spec.kwargs[i];
    if str_eq(entry.0.as_str(), t) {
        return true;
    }
    if kwarg_has_keyword(&entry.1, t) {
        return true;
    }
    kwlist_has_keyword(spec, i + 1, t)
}

fn form_has_keyword(form: &CommandForm, t: &str) -> (r: bool)
    ensures
        r == form_keyword(*form, t@),
{
    if contains_text(&form.flags, t) {
        return true;
    }
    let n = form.kwargs.len();
    let mut i = n;
    let mut found = false;
    while i > 0
        invariant
            i <= n,
            n == form.kwargs@.len(),
            found == form_kwlist_keyword(*form, i as int, t@),
        decreases i,
    {
        let entry = &form.kwargs[i - 1];
        found = str_eq(entry.0.as_str(), t) || kwarg_has_keyword(&entry.1, t) || found;
        i -= 1;
    }
    found
}

// ── Commands ────────────────────────────────────────────────────────────────

/// An argument with its line endings normalised.
pub open spec fn strip_literal(a: SArgument) -> SArgument {
    match a {
        SArgument::Bracket(level, raw) => SArgument::Bracket(level, crlf_to_lf(raw)),
        SArgument::Quoted(v) => SArgument::Quoted(crlf_to_lf(v)),
        SArgument::Unquoted(v) => SArgument::Unquoted(crlf_to_lf(v)),
        SArgument::InlineComment(c) => SArgument::InlineComment(c),
    }
}

/// The arguments without inline comments, line endings normalised.
pub open spec fn literal_args(args: Seq<SArgument>) -> Seq<SArgument>
    decreases args.len(),
{
    if args.len() == 0 {
        Seq::empty()
    } else {
        let rest = literal_args(args.drop_last());
        if args.last() is InlineComment {
            rest
        } else {
            rest.push(strip_literal(args.last()))
        }
    }
}

/// The arguments of a command that are not inline comments, in order.
pub open spec fn non_comment_args(args: Seq<SArgument>) -> Seq<SArgument> {
    args.filter(|a: SArgument| !(a is InlineComment))
}

/// Whether `b` is the argument `a` with CRLF line endings turned into LF:
/// the same kind (and bracket level), the same text up to line endings.
pub open spec fn same_up_to_line_endings(a: SArgument, b: SArgument) -> bool {
    match a {
        SArgument::Bracket(level, raw) => b == SArgument::Bracket(level, crlf_to_lf(raw)),
        SArgument::Quoted(v) => b == SArgument::Quoted(crlf_to_lf(v)),
        SArgument::Unquoted(v) => b == SArgument::Unquoted(crlf_to_lf(v)),
        SArgument::InlineComment(_) => false,
    }
}

/// The semantic skeleton keeps every argument that is not an inline
/// comment: one entry per such argument, in order, of the same kind and
/// with the same text up to line endings.
pub proof fn lemma_skeleton_keeps_arguments(args: Seq<SArgument>)
    ensures
        literal_args(args).len() == non_comment_args(args).len(),
        forall|k: int|
            0 <= k < literal_args(args).len() ==> same_up_to_line_endings(
                #[trigger] non_comment_args(args)[k],
                literal_args(args)[k],
            ),
    decreases args.len(),
{
    reveal_with_fuel(Seq::filter, 1);
    if args.len() > 0 {
        lemma_skeleton_keeps_arguments(args.drop_last());
        assert(non_comment_args(args) == if args.last() is InlineComment {
            non_comment_args(args.drop_last())
        } else {
            non_comment_args(args.drop_last()).push(args.last())
        });
    }
}

/// Arguments whose skeletons are equal agree, argument by argument, up to
/// line endings: two commands that differ in the text of a quoted (or any
/// other non-comment) argument have different skeletons.
pub proof fn lemma_skeleton_tells_arguments_apart(a: Seq<SArgument>, b: Seq<SArgument>)
    requires
        literal_args(a) == literal_args(b),
    ensures
        non_comment_args(a).len() == non_comment_args(b).len(),
        forall|k: int|
            0 <= k < non_comment_args(a).len() ==> same_up_to_line_endings(
                #[trigger] non_comment_args(a)[k],
                literal_args(b)[k],
            ),
{
    lemma_skeleton_keeps_arguments(a);
    lemma_skeleton_keeps_arguments(b);
}

/// A command without comments and with its line endings normalised.
pub open spec fn normalized_literals(c: SCommand) -> SCommand {
    SCommand { arguments: literal_args(c.arguments), trailing: None, ..c }
}

/// The text of the first unquoted argument from `i` on.
pub open spec fn first_unquoted_from(args: Seq<SArgument>, i: int) -> Option<Seq<char>>
    decreases args.len() - i,
{
    if i < 0 || i >= args.len() {
        None
    } else {
        match args[i] {
            SArgument::Unquoted(v) => Some(v),
            _ => first_unquoted_from(args, i + 1),
        }
    }
}

/// An unquoted argument uppercased when its uppercase form is a keyword of
/// the form; any other argument as it is.
pub open spec fn upper_keyword(a: SArgument, form: CommandForm) -> SArgument {
    match a {
        SArgument::Unquoted(v) => if form_keyword(form, upper_seq(v)) {
            SArgument::Unquoted(upper_seq(v))
        } else {
            a
        },
        _ => a,
    }
}

/// The form a command selects by its first unquoted argument.
pub open spec fn keyword_form(c: SCommand, reg: CommandRegistry) -> CommandForm {
    selected_form(reg.lookup(c.name), first_unquoted_from(c.arguments, 0))
}

/// A command with its keyword arguments uppercased.
pub open spec fn keyword_args(c: SCommand, reg: CommandRegistry) -> SCommand {
    SCommand {
        arguments: c.arguments.map_values(|a: SArgument| upper_keyword(a, keyword_form(c, reg))),
        ..c
    }
}

/// Strip comment and line-ending differences from a parsed command so two
/// semantically-equivalent commands compare equal regardless of cosmetic
/// formatting.
pub fn normalize_command_literals(command: &mut CommandInvocation)
    ensures
        final(command)@ == normalized_literals(old(command)@),
{
    command.trailing_comment = None;
    let ghost old_args = args_view(old(command).arguments@);
    let mut kept: Vec<Argument> = Vec::new();
    let mut arguments: Vec<Argument> = Vec::new();
    std::mem::swap(&mut arguments, &mut command.arguments);
    assert(args_view(arguments@) == old_args);
    let mut i: usize = 0;
    assert(old_args.subrange(0, 0) =~= Seq::<SArgument>::empty());
    assert(args_view(kept@) =~= literal_args(old_args.subrange(0, 0)));
    while i < arguments.len()
        invariant
            i <= arguments@.len(),
            args_view(arguments@) == old_args,
            args_view(kept@) == literal_args(old_args.subrange(0, i as int)),
        decreases arguments@.len() - i,
    {
        let a = &arguments[i];
        assert(old_args[i as int] == a@);
        assert(old_args.subrange(0, i + 1).drop_last() =~= old_args.subrange(0, i as int));
        let ghost pre = args_view(kept@);
        match a {
            Argument::InlineComment(_) => {},
            Argument::Bracket(b) => {
                let mut raw = copy_string(&b.raw);
                normalize_line_endings(&mut raw);
                kept.push(Argument::Bracket(BracketArgument { level: b.level, raw }));
                assert(args_view(kept@) =~= pre.push(strip_literal(a@)));
            },
            Argument::Quoted(v) => {
                let mut value = copy_string(v);
                normalize_line_endings(&mut value);
                kept.push(Argument::Quoted(value));
                assert(args_view(kept@) =~= pre.push(strip_literal(a@)));
            },
            Argument::Unquoted(v) => {
                let mut value = copy_string(v);
                normalize_line_endings(&mut value);
                kept.push(Argument::Unquoted(value));
                assert(args_view(kept@) =~= pre.push(strip_literal(a@)));
            },
        }
        i += 1;
    }
    assert(old_args.subrange(0, arguments@.len() as int) =~= old_args);
    command.arguments = kept;
}

fn copy_comment(c: &Comment) -> (r: Comment)
    ensures
        r@ == c@,
{
    match c {
        Comment::Line(s) => Comment::Line(copy_string(s)),
        Comment::Bracket(s) => Comment::Bracket(copy_string(s)),
    }
}

fn copy_argument(a: &Argument) -> (r: Argument)
    ensures
        r@ == a@,
{
    match a {
        Argument::Bracket(b) => Argument::Bracket(BracketArgument { level: b.level, raw: copy_string(&b.raw) }),
        Argument::Quoted(s) => Argument::Quoted(copy_string(s)),
        Argument::Unquoted(s) => Argument::Unquoted(copy_string(s)),
        Argument::InlineComment(c) => Argument::InlineComment(copy_comment(c)),
    }
}

fn first_unquoted(command: &CommandInvocation) -> (r: Option<&str>)
    ensures
        opt_text(r) == first_unquoted_from(command@.arguments, 0),
{
    let ghost args = args_view(command.arguments@);
    let mut i: usize = 0;
    while i < command.arguments.len()
        invariant
            i <= command.arguments@.len(),
            args == args_view(command.arguments@),
            first_unquoted_from(args, i as int) == first_unquoted_from(args, 0),
        decreases command.arguments@.len() - i,
    {
        assert(args[i as int] == command.arguments@[i as int]@);
        match &command.arguments[i] {
            Argument::Unquoted(v) => {
                return Some(v.as_str());
            },
            _ => {},
        }
        i += 1;
    }
    None
}

/// Uppercase any unquoted argument that matches a known keyword for the
/// command's spec. CMake keywords are case-insensitive at the language
/// level, so files that differ only in the casing of `PUBLIC` vs `public`
/// are semantically equivalent.
pub fn normalize_keyword_args(command: &mut CommandInvocation, registry: &CommandRegistry)
    ensures
        final(command)@ == keyword_args(old(command)@, *registry),
{
    let ghost c0 = command@;
    let spec = registry.get(command.name.as_str());
    let form = spec.form_for(first_unquoted(command));
    let ghost form_v = keyword_form(c0, *registry);
    assert(*form == form_v);
    let mut arguments: Vec<Argument> = Vec::new();
    std::mem::swap(&mut arguments, &mut command.arguments);
    let ghost old_args = args_view(arguments@);
    assert(old_args == c0.arguments);
    let mut out: Vec<Argument> = Vec::new();
    let mut i: usize = 0;
    while i < arguments.len()
        invariant
            i <= arguments@.len(),
            args_view(arguments@) == old_args,
            *form == form_v,
            args_view(out@) == old_args.subrange(0, i as int).map_values(
                |a: SArgument| upper_keyword(a, form_v),
            ),
        decreases arguments@.len() - i,
    {
        let a = &arguments[i];
        assert(old_args[i as int] == a@);
        let ghost pre = args_view(out@);
        let next = match a {
            Argument::Unquoted(v) => {
                let upper = to_upper(v.as_str());
                if form_has_keyword(form, upper.as_str()) {
                    Argument::Unquoted(upper)
                } else {
                    Argument::Unquoted(copy_string(v))
                }
            },
            _ => copy_argument(a),
        };
        out.push(next);
        assert(old_args.subrange(0, i + 1).map_values(|a: SArgument| upper_keyword(a, form_v)) =~= old_args.subrange(0, i as int).map_values(|a: SArgument| upper_keyword(a, form_v)).push(upper_keyword(old_args[i as int], form_v)));
        assert(args_view(out@) =~= pre.push(upper_keyword(a@, form_v)));
        i += 1;
    }
    assert(old_args.subrange(0, old_args.len() as int) =~= old_args);
    command.arguments = out;
    assert(command@.arguments =~= keyword_args(c0, *registry).arguments);
}

// ── Files ───────────────────────────────────────────────────────────────────

/// A command reduced to its semantic skeleton: span zeroed, name in
/// lowercase, comments and line-ending differences removed, keywords in
/// uppercase.
pub open spec fn normalized_command(c: SCommand, reg: CommandRegistry) -> SCommand {
    keyword_args(normalized_literals(SCommand { span: (0, 0), name: lower_seq(c.name), ..c }), reg)
}

/// Whether `b` is how the skeleton of a command keeps argument `a`: a
/// bracket or quoted argument with its text up to line endings, an unquoted
/// one with its text up to line endings, possibly uppercased as a keyword.
pub open spec fn kept_in_skeleton(a: SArgument, b: SArgument) -> bool {
    match a {
        SArgument::Bracket(level, raw) => b == SArgument::Bracket(level, crlf_to_lf(raw)),
        SArgument::Quoted(v) => b == SArgument::Quoted(crlf_to_lf(v)),
        SArgument::Unquoted(v) => b == SArgument::Unquoted(crlf_to_lf(v)) || b == SArgument::Unquoted(
            upper_seq(crlf_to_lf(v)),
        ),
        SArgument::InlineComment(_) => false,
    }
}

/// A command's semantic skeleton keeps every argument that is not an
/// inline comment, in order: quoted and bracket arguments with their text
/// (up to line endings), unquoted ones up to keyword case.
pub proof fn lemma_command_skeleton_keeps_arguments(c: SCommand, reg: CommandRegistry)
    ensures
        normalized_command(c, reg).arguments.len() == non_comment_args(c.arguments).len(),
        forall|k: int|
            0 <= k < non_comment_args(c.arguments).len() ==> kept_in_skeleton(
                #[trigger] non_comment_args(c.arguments)[k],
                normalized_command(c, reg).arguments[k],
            ),
{
    lemma_skeleton_keeps_arguments(c.arguments);
    let lc = normalized_literals(SCommand { span: (0, 0), name: lower_seq(c.name), ..c });
    assert(lc.arguments == literal_args(c.arguments));
    let n = normalized_command(c, reg);
    assert forall|k: int|
        0 <= k < non_comment_args(c.arguments).len() implies kept_in_skeleton(
            #[trigger] non_comment_args(c.arguments)[k],
            n.arguments[k],
        ) by {
        assert(same_up_to_line_endings(non_comment_args(c.arguments)[k], lc.arguments[k]));
        assert(n.arguments[k] == upper_keyword(lc.arguments[k], keyword_form(lc, reg)));
    }
}

/// The semantic skeleton of a file: standalone comments and blank lines
/// dropped, commands normalised, template placeholders with normalised line
/// endings.
pub open spec fn normalized_file(stmts: Seq<SStatement>, reg: CommandRegistry) -> Seq<SStatement>
    decreases stmts.len(),
{
    if stmts.len() == 0 {
        Seq::empty()
    } else {
        let rest = normalized_file(stmts.drop_last(), reg);
        match stmts.last() {
            SStatement::Command(c) => rest.push(SStatement::Command(normalized_command(c, reg))),
            SStatement::TemplatePlaceholder(v) => rest.push(SStatement::TemplatePlaceholder(crlf_to_lf(v))),
            _ => rest,
        }
    }
}

/// The statements a file's semantic skeleton is made of: its commands and
/// verbatim text, in order.
pub open spec fn kept_statements(stmts: Seq<SStatement>) -> Seq<SStatement> {
    stmts.filter(|st: SStatement| st is Command || st is TemplatePlaceholder)
}

/// Whether `n` is how a file's skeleton keeps statement `st`: a command
/// with its name in ASCII lowercase and its arguments as
/// [`lemma_command_skeleton_keeps_arguments`] describes, verbatim text with
/// its line endings normalised.
pub open spec fn kept_statement(st: SStatement, n: SStatement, reg: CommandRegistry) -> bool {
    match st {
        SStatement::Command(c) => n matches SStatement::Command(m) && m == normalized_command(c, reg) && m.name
            == lower_seq(c.name) && m.trailing is None,
        SStatement::TemplatePlaceholder(v) => n == SStatement::TemplatePlaceholder(crlf_to_lf(v)),
        _ => false,
    }
}

/// A file's semantic skeleton keeps its commands and verbatim text, one
/// entry each and in order, and drops standalone comments and blank lines.
pub proof fn lemma_file_skeleton(stmts: Seq<SStatement>, reg: CommandRegistry)
    ensures
        normalized_file(stmts, reg).len() == kept_statements(stmts).len(),
        forall|k: int|
            0 <= k < kept_statements(stmts).len() ==> kept_statement(
                #[trigger] kept_statements(stmts)[k],
                normalized_file(stmts, reg)[k],
                reg,
            ),
    decreases stmts.len(),
{
    reveal_with_fuel(Seq::filter, 1);
    if stmts.len() > 0 {
        lemma_file_skeleton(stmts.drop_last(), reg);
        assert(kept_statements(stmts) == if stmts.last() is Command || stmts.last() is TemplatePlaceholder {
            kept_statements(stmts.drop_last()).push(stmts.last())
        } else {
            kept_statements(stmts.drop_last())
        });
    }
}

/// Equivalent sources run the same commands in the same order: the same
/// names up to ASCII case, the same number of arguments that are not
/// comments, and the same verbatim text up to line endings.
pub proof fn lemma_equivalent_same_commands(
    a: Seq<char>,
    b: Seq<char>,
    reg: CommandRegistry,
    x: Seq<SStatement>,
    y: Seq<SStatement>,
)
    requires
        parse_spec(a) == Ok::<Seq<SStatement>, crate::parser::ParseFail>(x),
        parse_spec(b) == Ok::<Seq<SStatement>, crate::parser::ParseFail>(y),
        equivalent_under(a, b, reg),
    ensures
        kept_statements(x).len() == kept_statements(y).len(),
        forall|k: int|
            0 <= k < kept_statements(x).len() && (#[trigger] kept_statements(x)[k]) is Command ==> kept_statements(
                y,
            )[k] is Command && lower_seq(kept_statements(x)[k]->Command_0.name) == lower_seq(
                kept_statements(y)[k]->Command_0.name,
            ) && non_comment_args(kept_statements(x)[k]->Command_0.arguments).len() == non_comment_args(
                kept_statements(y)[k]->Command_0.arguments,
            ).len(),
{
    lemma_file_skeleton(x, reg);
    lemma_file_skeleton(y, reg);
    assert forall|k: int|
        0 <= k < kept_statements(x).len() && (#[trigger] kept_statements(x)[k]) is Command implies kept_statements(
            y,
        )[k] is Command && lower_seq(kept_statements(x)[k]->Command_0.name) == lower_seq(
            kept_statements(y)[k]->Command_0.name,
        ) && non_comment_args(kept_statements(x)[k]->Command_0.arguments).len() == non_comment_args(
            kept_statements(y)[k]->Command_0.arguments,
        ).len() by {
        let sx = kept_statements(x)[k];
        let sy = kept_statements(y)[k];
        assert(kept_statement(sx, normalized_file(x, reg)[k], reg));
        assert(kept_statement(sy, normalized_file(y, reg)[k], reg));
        let c = sx->Command_0;
        lemma_command_skeleton_keeps_arguments(c, reg);
        if sy is Command {
            lemma_command_skeleton_keeps_arguments(sy->Command_0, reg);
        }
    }
}

fn copy_command(c: &CommandInvocation) -> (r: CommandInvocation)
    ensures
        r@ == c@,
{
    let mut arguments: Vec<Argument> = Vec::new();
    let mut i: usize = 0;
    while i < c.arguments.len()
        invariant
            i <= c.arguments@.len(),
            args_view(arguments@) == args_view(c.arguments@).subrange(0, i as int),
        decreases c.arguments@.len() - i,
    {
        let a = copy_argument(&c.arguments[i]);
        let ghost pre = args_view(arguments@);
        arguments.push(a);
        assert(args_view(arguments@) =~= pre.push(a@));
        assert(args_view(c.arguments@)[i as int] == c.arguments@[i as int]@);
        assert(args_view(arguments@) =~= args_view(c.arguments@).subrange(0, i + 1));
        i += 1;
    }
    assert(args_view(arguments@) =~= args_view(c.arguments@));
    let trailing_comment = match &c.trailing_comment {
        Some(t) => Some(copy_comment(t)),
        None => None,
    };
    CommandInvocation { name: copy_string(&c.name), arguments, trailing_comment, span: (c.span.0, c.span.1) }
}

/// Reduce a parsed file to its semantic skeleton: drop standalone comments
/// and blank lines, zero out spans, lowercase command names, and normalise
/// each command's literals and keyword casing. Two files that behave
/// identically in CMake produce equal skeletons.
pub fn normalize_semantics(file: File, registry: &CommandRegistry) -> (r: File)
    ensures
        r@ == normalized_file(file@, *registry),
{
    let ghost stmts = file@;
    let mut out: Vec<Statement> = Vec::new();
    let mut i: usize = 0;
    while i < file.statements.len()
        invariant
            i <= file.statements@.len(),
            stmts == file@,
            stmts_view(out@) == normalized_file(stmts.subrange(0, i as int), *registry),
        decreases file.statements@.len() - i,
    {
        let statement = &file.statements[i];
        assert(stmts[i as int] == statement@);
        assert(stmts.subrange(0, i + 1).drop_last() =~= stmts.subrange(0, i as int));
        let ghost pre = stmts_view(out@);
        match statement {
            Statement::Command(command) => {
                let mut c = copy_command(command);
                c.span = (0, 0);
                c.name = to_lower(c.name.as_str());
                normalize_command_literals(&mut c);
                normalize_keyword_args(&mut c, registry);
                out.push(Statement::Command(c));
                assert(stmts_view(out@) =~= pre.push(SStatement::Command(normalized_command(command@, *registry))));
            },
            Statement::TemplatePlaceholder(value) => {
                let mut v = copy_string(value);
                normalize_line_endings(&mut v);
                out.push(Statement::TemplatePlaceholder(v));
                assert(stmts_view(out@) =~= pre.push(SStatement::TemplatePlaceholder(crlf_to_lf(value@))));
            },
            _ => {},
        }
        i += 1;
    }
    assert(stmts.subrange(0, stmts.len() as int) =~= stmts);
    File { statements: out }
}

// ── Equality of trees ───────────────────────────────────────────────────────

fn comment_eq(a: &Comment, b: &Comment) -> (r: bool)
    ensures
        r == (a@ == b@),
{
    match (a, b) {
        (Comment::Line(x), Comment::Line(y)) => str_eq(x.as_str(), y.as_str()),
        (Comment::Bracket(x), Comment::Bracket(y)) => str_eq(x.as_str(), y.as_str()),
        _ => false,
    }
}

fn argument_eq(a: &Argument, b: &Argument) -> (r: bool)
    ensures
        r == (a@ == b@),
{
    match (a, b) {
        (Argument::Bracket(x), Argument::Bracket(y)) => x.level == y.level && str_eq(x.raw.as_str(), y.raw.as_str()),
        (Argument::Quoted(x), Argument::Quoted(y)) => str_eq(x.as_str(), y.as_str()),
        (Argument::Unquoted(x), Argument::Unquoted(y)) => str_eq(x.as_str(), y.as_str()),
        (Argument::InlineComment(x), Argument::InlineComment(y)) => comment_eq(x, y),
        _ => false,
    }
}

fn command_eq(a: &CommandInvocation, b: &CommandInvocation) -> (r: bool)
    ensures
        r == (a@ == b@),
{
    if !str_eq(a.name.as_str(), b.name.as_str()) || a.span.0 != b.span.0 || a.span.1 != b.span.1 {
        return false;
    }
    let trailing_same = match (&a.trailing_comment, &b.trailing_comment) {
        (Some(x), Some(y)) => comment_eq(x, y),
        (None, None) => true,
        _ => false,
    };
    if !trailing_same {
        return false;
    }
    if a.arguments.len() != b.arguments.len() {
        assert(args_view(a.arguments@).len() != args_view(b.arguments@).len());
        return false;
    }
    let mut i: usize = 0;
    while i < a.arguments.len()
        invariant
            i <= a.arguments@.len(),
            a.arguments@.len() == b.arguments@.len(),
            forall|j: int| 0 <= j < i ==> a.arguments@[j]@ == b.arguments@[j]@,
        decreases a.arguments@.len() - i,
    {
        if !argument_eq(&a.arguments[i], &b.arguments[i]) {
            assert(args_view(a.arguments@)[i as int] != args_view(b.arguments@)[i as int]);
            return false;
        }
        i += 1;
    }
    assert(args_view(a.arguments@) =~= args_view(b.arguments@));
    true
}

fn statement_eq(a: &Statement, b: &Statement) -> (r: bool)
    ensures
        r == (a@ == b@),
{
    match (a, b) {
        (Statement::Command(x), Statement::Command(y)) => command_eq(x, y),
        (Statement::Comment(x), Statement::Comment(y)) => comment_eq(x, y),
        (Statement::BlankLines(x), Statement::BlankLines(y)) => *x == *y,
        (Statement::TemplatePlaceholder(x), Statement::TemplatePlaceholder(y)) => str_eq(x.as_str(), y.as_str()),
        _ => false,
    }
}

pub(crate) fn files_equal(a: &File, b: &File) -> (r: bool)
    ensures
        r == (a@ == b@),
{
    if a.statements.len() != b.statements.len() {
        assert(a@.len() != b@.len());
        return false;
    }
    let mut i: usize = 0;
    while i < a.statements.len()
        invariant
            i <= a.statements@.len(),
            a.statements@.len() == b.statements@.len(),
            forall|j: int| 0 <= j < i ==> a.statements@[j]@ == b.statements@[j]@,
        decreases a.statements@.len() - i,
    {
        if !statement_eq(&a.statements[i], &b.statements[i]) {
            assert(a@[i as int] != b@[i as int]);
            return false;
        }
        i += 1;
    }
    assert(a@ =~= b@);
    true
}

// ── Equivalence ─────────────────────────────────────────────────────────────

/// Whether two sources are the same CMake program under a registry: their
/// semantic skeletons are equal, or one of them does not parse (then they
/// cannot be compared and are taken as equivalent).
pub open spec fn equivalent_under(left: Seq<char>, right: Seq<char>, reg: CommandRegistry) -> bool {
    match parse_spec(left) {
        Ok(a) => match parse_spec(right) {
            Ok(b) => normalized_file(a, reg) == normalized_file(b, reg),
            Err(_) => true,
        },
        Err(_) => true,
    }
}

/// Return `true` if `left` and `right` are the same CMake program once
/// cosmetic-only differences (comments, blank lines, whitespace, line
/// endings, command-name and keyword casing) are stripped, using the
/// built-in command registry. If either side fails to parse the inputs
/// cannot be compared, and the result is `true`.
pub fn semantic_equivalent(left: &str, right: &str) -> (r: bool)
    ensures
        r == builtin_equivalent(left@, right@),
{
    let registry = CommandRegistry::builtins();
    let parsed_left = parse(left);
    let parsed_right = parse(right);
    let r = match parsed_left {
        Ok(a) => match parsed_right {
            Ok(b) => {
                let na = normalize_semantics(a, &registry);
                let nb = normalize_semantics(b, &registry);
                files_equal(&na, &nb)
            },
            Err(_) => true,
        },
        Err(_) => true,
    };
    assert(is_builtin_registry(registry) && r == equivalent_under(left@, right@, registry));
    assert forall|reg: CommandRegistry| #[trigger] is_builtin_registry(reg) implies equivalent_under(
        left@,
        right@,
        reg,
    ) == r by {
        lemma_equivalence_same_table(left@, right@, reg, registry);
    }
    r
}

/// Every source is equivalent to itself.
pub proof fn lemma_equivalence_reflexive(s: Seq<char>, reg: CommandRegistry)
    ensures
        equivalent_under(s, s, reg),
{
}

/// Equivalence does not depend on the order of the two sources.
pub proof fn lemma_equivalence_symmetric(a: Seq<char>, b: Seq<char>, reg: CommandRegistry)
    ensures
        equivalent_under(a, b, reg) == equivalent_under(b, a, reg),
{
}

/// Equivalence chains through a middle source that parses.
pub proof fn lemma_equivalence_transitive(a: Seq<char>, b: Seq<char>, c: Seq<char>, reg: CommandRegistry)
    requires
        parse_spec(b) is Ok,
        equivalent_under(a, b, reg),
        equivalent_under(b, c, reg),
    ensures
        equivalent_under(a, c, reg),
{
}


// ── What the skeleton ignores ──────────────────────────────────────────────

/// The arguments with their inline comments removed.
pub open spec fn drop_inline_comments(args: Seq<SArgument>) -> Seq<SArgument>
    decreases args.len(),
{
    if args.len() == 0 {
        Seq::empty()
    } else {
        let rest = drop_inline_comments(args.drop_last());
        if args.last() is InlineComment {
            rest
        } else {
            rest.push(args.last())
        }
    }
}

/// A file without its standalone comments, blank lines, inline and
/// trailing comments, and with every source position cleared.
pub open spec fn without_comments(stmts: Seq<SStatement>) -> Seq<SStatement>
    decreases stmts.len(),
{
    if stmts.len() == 0 {
        Seq::empty()
    } else {
        let rest = without_comments(stmts.drop_last());
        match stmts.last() {
            SStatement::Command(c) => rest.push(
                SStatement::Command(
                    SCommand { arguments: drop_inline_comments(c.arguments), trailing: None, span: (0, 0), ..c },
                ),
            ),
            SStatement::TemplatePlaceholder(v) => rest.push(SStatement::TemplatePlaceholder(v)),
            _ => rest,
        }
    }
}

proof fn lemma_literal_args_skip_comments(args: Seq<SArgument>)
    ensures
        literal_args(drop_inline_comments(args)) == literal_args(args),
    decreases args.len(),
{
    if args.len() > 0 {
        lemma_literal_args_skip_comments(args.drop_last());
        let rest = drop_inline_comments(args.drop_last());
        if !(args.last() is InlineComment) {
            assert(rest.push(args.last()).drop_last() =~= rest);
        }
    }
}

/// Comments, blank lines and source positions are not part of a program:
/// removing them all leaves the semantic skeleton unchanged.
pub proof fn lemma_comments_do_not_matter(stmts: Seq<SStatement>, reg: CommandRegistry)
    ensures
        normalized_file(without_comments(stmts), reg) == normalized_file(stmts, reg),
    decreases stmts.len(),
{
    if stmts.len() > 0 {
        let init = stmts.drop_last();
        lemma_comments_do_not_matter(init, reg);
        let rest = without_comments(init);
        match stmts.last() {
            SStatement::Command(c) => {
                let stripped = SCommand { arguments: drop_inline_comments(c.arguments), trailing: None, span: (0, 0), ..c };
                let x = SStatement::Command(stripped);
                assert(rest.push(x).drop_last() =~= rest);
                lemma_literal_args_skip_comments(c.arguments);
                assert(normalized_literals(SCommand { span: (0, 0), name: lower_seq(stripped.name), ..stripped })
                    == normalized_literals(SCommand { span: (0, 0), name: lower_seq(c.name), ..c }));
            },
            SStatement::TemplatePlaceholder(v) => {
                let x = SStatement::TemplatePlaceholder(v);
                assert(rest.push(x).drop_last() =~= rest);
            },
            _ => {},
        }
    }
}

/// Whether two statements are the same but for the case of a command's
/// name and its source position.
pub open spec fn same_up_to_name_case(a: SStatement, b: SStatement) -> bool {
    match (a, b) {
        (SStatement::Command(x), SStatement::Command(y)) => lower_seq(x.name) == lower_seq(y.name)
            && x.arguments == y.arguments && x.trailing == y.trailing,
        _ => a == b,
    }
}

/// Command names are case-insensitive: files that differ only in how their
/// command names are cased (and where commands stand) have the same
/// semantic skeleton.
pub proof fn lemma_name_case_does_not_matter(a: Seq<SStatement>, b: Seq<SStatement>, reg: CommandRegistry)
    requires
        a.len() == b.len(),
        forall|i: int| 0 <= i < a.len() ==> same_up_to_name_case(#[trigger] a[i], b[i]),
    ensures
        normalized_file(a, reg) == normalized_file(b, reg),
    decreases a.len(),
{
    if a.len() > 0 {
        let (ia, ib) = (a.drop_last(), b.drop_last());
        assert forall|i: int| 0 <= i < ia.len() implies same_up_to_name_case(#[trigger] ia[i], ib[i]) by {
            assert(same_up_to_name_case(a[i], b[i]));
        }
        lemma_name_case_does_not_matter(ia, ib, reg);
        assert(same_up_to_name_case(a[a.len() - 1], b[b.len() - 1]));
        match (a.last(), b.last()) {
            (SStatement::Command(x), SStatement::Command(y)) => {
                assert(SCommand { span: (0, 0), name: lower_seq(x.name), ..x } == SCommand {
                    span: (0, 0),
                    name: lower_seq(y.name),
                    ..y
                });
            },
            _ => {},
        }
    }
}

// ── The skeleton depends on the registry's values only ─────────────────────

proof fn lemma_texts_same(a: Seq<String>, b: Seq<String>, t: Seq<char>)
    requires
        strs(a) == strs(b),
    ensures
        has_text(a, t) == has_text(b, t),
{
    assert(strs(a).len() == a.len() && strs(b).len() == b.len());
    if has_text(a, t) {
        let i = choose|i: int| 0 <= i < a.len() && a[i]@ == t;
        assert(strs(a)[i] == strs(b)[i]);
    }
    if has_text(b, t) {
        let i = choose|i: int| 0 <= i < b.len() && b[i]@ == t;
        assert(strs(a)[i] == strs(b)[i]);
    }
}

proof fn lemma_kwarg_keyword_same(a: KwargSpec, b: KwargSpec, t: Seq<char>)
    requires
        kwarg_model(a) == kwarg_model(b),
    ensures
        kwarg_keyword(a, t) == kwarg_keyword(b, t),
    decreases a, a.kwargs@.len() + 1,
{
    lemma_texts_same(a.flags@, b.flags@, t);
    lemma_kwlist_keyword_same(a, b, 0, t);
}

proof fn lemma_kwlist_keyword_same(a: KwargSpec, b: KwargSpec, i: int, t: Seq<char>)
    requires
        kwarg_model(a) == kwarg_model(b),
    ensures
        kwlist_keyword(a, i, t) == kwlist_keyword(b, i, t),
    decreases a, a.kwargs@.len() - i,
{
    lemma_kwargs_model(a.kwargs@);
    lemma_kwargs_model(b.kwargs@);
    if 0 <= i < a.kwargs@.len() {
        assert(kwargs_model(a.kwargs@)[i] == kwargs_model(b.kwargs@)[i]);
        assert(decreases_to!(a => a.kwargs));
        lemma_kwarg_keyword_same(a.kwargs@[i].1, b.kwargs@[i].1, t);
        lemma_kwlist_keyword_same(a, b, i + 1, t);
    }
}

proof fn lemma_form_kwlist_same(f: CommandForm, g: CommandForm, i: int, t: Seq<char>)
    requires
        form_model(f) == form_model(g),
    ensures
        form_kwlist_keyword(f, i, t) == form_kwlist_keyword(g, i, t),
    decreases f.kwargs@.len() - i,
{
    lemma_kwargs_model(f.kwargs@);
    lemma_kwargs_model(g.kwargs@);
    if 0 <= i < f.kwargs@.len() {
        assert(kwargs_model(f.kwargs@)[i] == kwargs_model(g.kwargs@)[i]);
        lemma_kwarg_keyword_same(f.kwargs@[i].1, g.kwargs@[i].1, t);
        lemma_form_kwlist_same(f, g, i + 1, t);
    }
}

proof fn lemma_form_keyword_same(f: CommandForm, g: CommandForm, t: Seq<char>)
    requires
        form_model(f) == form_model(g),
    ensures
        form_keyword(f, t) == form_keyword(g, t),
{
    lemma_texts_same(f.flags@, g.flags@, t);
    lemma_form_kwlist_same(f, g, 0, t);
}

proof fn lemma_selected_form_same(s1: CommandSpec, s2: CommandSpec, first: Option<Seq<char>>)
    requires
        spec_model(s1) == spec_model(s2),
    ensures
        form_model(selected_form(s1, first)) == form_model(selected_form(s2, first)),
{
    match (s1, s2) {
        (CommandSpec::Discriminated { forms: f1, fallback: b1 }, CommandSpec::Discriminated { forms: f2, fallback: b2 }) => {
            let (a, b) = (f1@, f2@);
            assert(forms_model(a) == forms_model(b));
            assert(forms_model(a).len() == a.len() && forms_model(b).len() == b.len());
            assert forall|j: int| 0 <= j < a.len() implies #[trigger] a[j].0@ == b[j].0@ by {
                assert(forms_model(a)[j] == forms_model(b)[j]);
            }
            let key = match first {
                Some(k) => k,
                None => Seq::<char>::empty(),
            };
            crate::spec::lemma_key_index_same_keys(a, b, key);
            crate::spec::lemma_key_index_same_keys(a, b, upper_seq(key));
            crate::spec::lemma_key_index_bounds(a, key);
            crate::spec::lemma_key_index_bounds(a, upper_seq(key));
            match token_index(a, key) {
                Some(i) => {
                    assert(forms_model(a)[i] == forms_model(b)[i]);
                },
                None => {
                    if a.len() == 0 {
                        assert(a =~= b);
                    } else {
                        assert(forms_model(a)[0] == forms_model(b)[0]);
                    }
                },
            }
        },
        _ => {},
    }
}

proof fn lemma_keyword_args_same(c: SCommand, r1: CommandRegistry, r2: CommandRegistry)
    requires
        r1.commands_view() == r2.commands_view(),
        r1.default_fallback(),
        r2.default_fallback(),
    ensures
        keyword_args(c, r1) == keyword_args(c, r2),
{
    lemma_lookup_same_model(r1, r2, c.name);
    lemma_selected_form_same(r1.lookup(c.name), r2.lookup(c.name), first_unquoted_from(c.arguments, 0));
    let (f, g) = (keyword_form(c, r1), keyword_form(c, r2));
    assert forall|t: Seq<char>| #[trigger] form_keyword(f, t) == form_keyword(g, t) by {
        lemma_form_keyword_same(f, g, t);
    }
    assert(c.arguments.map_values(|a: SArgument| upper_keyword(a, f)) =~= c.arguments.map_values(
        |a: SArgument| upper_keyword(a, g),
    ));
}

proof fn lemma_normalized_file_same(stmts: Seq<SStatement>, r1: CommandRegistry, r2: CommandRegistry)
    requires
        r1.commands_view() == r2.commands_view(),
        r1.default_fallback(),
        r2.default_fallback(),
    ensures
        normalized_file(stmts, r1) == normalized_file(stmts, r2),
    decreases stmts.len(),
{
    if stmts.len() > 0 {
        lemma_normalized_file_same(stmts.drop_last(), r1, r2);
        if let SStatement::Command(c) = stmts.last() {
            lemma_keyword_args_same(normalized_literals(SCommand { span: (0, 0), name: lower_seq(c.name), ..c }), r1, r2);
        }
    }
}

/// Registries with the same command table, as values, and the default
/// fallback judge every two sources alike.
pub proof fn lemma_equivalence_same_table(a: Seq<char>, b: Seq<char>, r1: CommandRegistry, r2: CommandRegistry)
    requires
        r1.commands_view() == r2.commands_view(),
        r1.default_fallback(),
        r2.default_fallback(),
    ensures
        equivalent_under(a, b, r1) == equivalent_under(a, b, r2),
{
    if let Ok(x) = parse_spec(a) {
        lemma_normalized_file_same(x, r1, r2);
    }
    if let Ok(y) = parse_spec(b) {
        lemma_normalized_file_same(y, r1, r2);
    }
}

/// Whether two sources are the same program under the built-in registry.
pub open spec fn builtin_equivalent(a: Seq<char>, b: Seq<char>) -> bool {
    forall|reg: CommandRegistry| #[trigger] is_builtin_registry(reg) ==> equivalent_under(a, b, reg)
}

/// `semantic_equivalent` is an equivalence: every source is equivalent to
/// itself, the order of the two sources does not matter, and equivalence
/// chains through a middle source that parses.
pub proof fn lemma_builtin_equivalence_laws(a: Seq<char>, b: Seq<char>, c: Seq<char>)
    ensures
        builtin_equivalent(a, a),
        builtin_equivalent(a, b) == builtin_equivalent(b, a),
        parse_spec(b) is Ok && builtin_equivalent(a, b) && builtin_equivalent(b, c) ==> builtin_equivalent(a, c),
{
    assert forall|reg: CommandRegistry| #[trigger] is_builtin_registry(reg) implies equivalent_under(a, a, reg) by {
        lemma_equivalence_reflexive(a, reg);
    }
    assert forall|reg: CommandRegistry| #[trigger] is_builtin_registry(reg) implies equivalent_under(a, b, reg)
        == equivalent_under(b, a, reg) by {
        lemma_equivalence_symmetric(a, b, reg);
    }
    if parse_spec(b) is Ok && builtin_equivalent(a, b) && builtin_equivalent(b, c) {
        assert forall|reg: CommandRegistry| #[trigger] is_builtin_registry(reg) implies equivalent_under(a, c, reg) by {
            lemma_equivalence_transitive(a, b, c, reg);
        }
    }
}

} // verus!
