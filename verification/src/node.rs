//! Command-invocation formatting: the inline, hanging-wrap and vertical
//! layouts, chosen in that order.
//!
//! Each layout is stated as spec functions over the command's model; the
//! executable functions are proved to produce exactly those texts.

use vstd::prelude::*;
use crate::ast::{Argument, CommandInvocation, SArgument, SCommand, argument_text, args_view};
use crate::comment::{comment_lines, format_comment_lines};
use crate::config::{
    is_control_flow_command, is_fn_definition_command, lookup_override,
    CaseStyle, CommandConfig, Config, DangleAlign, apply_case, cased, eff_command_case,
    eff_dangle_align, eff_dangle_parens, eff_indent, eff_keyword_case, eff_line_width,
    eff_max_pargs, eff_tab_size, repeat_char, spaces,
};
use crate::error::Error;
use crate::overrides::{form_model, forms_model, kwarg_model, kwargs_model, lemma_kwargs_model, spec_model};
use crate::registry::CommandRegistry;
use crate::spec::{
    CommandSpec, opt_text, selected_form,
    CommandForm, KwargSpec, NArgs, contains_flag_token, find_token, flag_match, token_index,
};
use vstd::utf8::encode_utf8;
use crate::text::{
    copy_string, count_lead, lead_count,
    chars_of, contains, contains_char, contains_str, crlf_to_lf, has_char, join, lower_seq, owned,
    push_char, push_str, replace_crlf, split_char, split_on, str_eq, strs, to_lower, chars_eq,
};

verus! {

broadcast use vstd::string::group_string_axioms;

/// Whether a section starts with a keyword or a flag.
#[derive(Debug, Clone, Copy, PartialEq, Eq, Structural)]
pub enum HeaderKind {
    Keyword,
    Flag,
}

/// A run of arguments: an optional keyword/flag header and the arguments
/// that follow it, as positions in the command's argument list.
#[derive(Debug)]
pub struct Section {
    pub header: Option<usize>,
    pub header_kind: Option<HeaderKind>,
    pub arguments: Vec<usize>,
}

/// Model of a section.
pub struct SSection {
    pub header: Option<int>,
    pub kind: Option<HeaderKind>,
    pub args: Seq<int>,
}

impl View for Section {
    type V = SSection;

    open spec fn view(&self) -> SSection {
        SSection {
            header: match self.header {
                Some(h) => Some(h as int),
                None => None,
            },
            kind: self.header_kind,
            args: self.arguments@.map_values(|j: usize| j as int),
        }
    }
}

/// Model of a section list.
pub open spec fn secs_view(s: Seq<Section>) -> Seq<SSection> {
    s.map_values(|x: Section| x@)
}

// ── Sections ────────────────────────────────────────────────────────────────

/// The sections with an empty headerless one added when there are none.
pub open spec fn ensure_section(secs: Seq<SSection>) -> Seq<SSection> {
    if secs.len() == 0 {
        seq![SSection { header: None, kind: None, args: Seq::empty() }]
    } else {
        secs
    }
}

/// The sections with argument `i` added to the last one.
pub open spec fn add_to_last(secs: Seq<SSection>, i: int) -> Seq<SSection> {
    let last = secs.last();
    secs.update(secs.len() - 1, SSection { args: last.args.push(i), ..last })
}

/// The keyword spec a keyword token selects in a form.
pub open spec fn kwarg_of(form: CommandForm, token: Seq<char>) -> Option<KwargSpec> {
    match token_index(form.kwargs@, token) {
        Some(k) => Some(form.kwargs@[k].1),
        None => None,
    }
}

/// Whether `token` continues the current keyword section as one of its
/// nested keywords or flags (only for keywords that take no arguments).
pub open spec fn nested_belongs(
    secs: Seq<SSection>,
    form: CommandForm,
    args: Seq<SArgument>,
    token: Seq<char>,
) -> bool {
    secs.len() > 0 && secs.last().kind == Some(HeaderKind::Keyword) && secs.last().header is Some
        && {
        let h = secs.last().header->Some_0;
        0 <= h < args.len() && match kwarg_of(form, argument_text(args[h])) {
            Some(spec) => spec.nargs == NArgs::Fixed(0) && (token_index(spec.kwargs@, token) is Some
                || flag_match(spec.flags@, token)),
            None => false,
        }
    }
}

/// The sections of the arguments from `i`, added to `secs`.
pub open spec fn split_from(args: Seq<SArgument>, form: CommandForm, i: int, secs: Seq<SSection>) -> Seq<
    SSection,
>
    decreases args.len() - i,
{
    if i < 0 || i >= args.len() {
        secs
    } else if args[i] is InlineComment {
        split_from(args, form, i + 1, add_to_last(ensure_section(secs), i))
    } else {
        let token = argument_text(args[i]);
        if nested_belongs(secs, form, args, token) {
            split_from(args, form, i + 1, add_to_last(secs, i))
        } else if token_index(form.kwargs@, token) is Some {
            split_from(
                args,
                form,
                i + 1,
                secs.push(SSection { header: Some(i), kind: Some(HeaderKind::Keyword), args: Seq::empty() }),
            )
        } else if flag_match(form.flags@, token) {
            split_from(
                args,
                form,
                i + 1,
                secs.push(SSection { header: Some(i), kind: Some(HeaderKind::Flag), args: Seq::empty() }),
            )
        } else {
            split_from(args, form, i + 1, add_to_last(ensure_section(secs), i))
        }
    }
}

proof fn lemma_flags_same(a: Seq<String>, b: Seq<String>, t: Seq<char>)
    requires
        strs(a) == strs(b),
    ensures
        flag_match(a, t) == flag_match(b, t),
{
    assert(strs(a).len() == a.len() && strs(b).len() == b.len());
    assert forall|k: Seq<char>| crate::spec::has_text(a, k) == crate::spec::has_text(b, k) by {
        if crate::spec::has_text(a, k) {
            let i = choose|i: int| 0 <= i < a.len() && a[i]@ == k;
            assert(strs(a)[i] == strs(b)[i]);
            assert(b[i]@ == k);
        }
        if crate::spec::has_text(b, k) {
            let i = choose|i: int| 0 <= i < b.len() && b[i]@ == k;
            assert(strs(a)[i] == strs(b)[i]);
            assert(a[i]@ == k);
        }
    }
}

proof fn lemma_kwargs_same(a: Seq<(String, KwargSpec)>, b: Seq<(String, KwargSpec)>, t: Seq<char>)
    requires
        kwargs_model(a) == kwargs_model(b),
    ensures
        token_index(a, t) == token_index(b, t),
        token_index(a, t) matches Some(k) ==> 0 <= k < a.len() && kwarg_model(a[k].1) == kwarg_model(b[k].1),
{
    lemma_kwargs_model(a);
    lemma_kwargs_model(b);
    assert forall|j: int| 0 <= j < a.len() implies #[trigger] a[j].0@ == b[j].0@ by {
        assert(kwargs_model(a)[j] == kwargs_model(b)[j]);
    }
    crate::spec::lemma_key_index_same_keys(a, b, t);
    crate::spec::lemma_key_index_same_keys(a, b, crate::text::upper_seq(t));
    crate::spec::lemma_key_index_bounds(a, t);
    crate::spec::lemma_key_index_bounds(a, crate::text::upper_seq(t));
    if let Some(k) = token_index(a, t) {
        assert(kwargs_model(a)[k] == kwargs_model(b)[k]);
    }
}

proof fn lemma_split_same(args: Seq<SArgument>, f1: CommandForm, f2: CommandForm, i: int, secs: Seq<SSection>)
    requires
        form_model(f1) == form_model(f2),
    ensures
        split_from(args, f1, i, secs) == split_from(args, f2, i, secs),
    decreases args.len() - i,
{
    if 0 <= i < args.len() {
        if !(args[i] is InlineComment) {
            let token = argument_text(args[i]);
            lemma_kwargs_same(f1.kwargs@, f2.kwargs@, token);
            lemma_flags_same(f1.flags@, f2.flags@, token);
            if secs.len() > 0 && secs.last().header is Some {
                let h = secs.last().header->Some_0;
                if 0 <= h < args.len() {
                    let x = argument_text(args[h]);
                    lemma_kwargs_same(f1.kwargs@, f2.kwargs@, x);
                    if let Some(k) = token_index(f1.kwargs@, x) {
                        let (k1, k2) = (f1.kwargs@[k].1, f2.kwargs@[k].1);
                        assert(kwarg_model(k1) == kwarg_model(k2));
                        lemma_kwargs_same(k1.kwargs@, k2.kwargs@, token);
                        lemma_flags_same(k1.flags@, k2.flags@, token);
                    }
                }
            }
            assert(nested_belongs(secs, f1, args, token) == nested_belongs(secs, f2, args, token));
        }
        lemma_split_same(args, f1, f2, i + 1, add_to_last(ensure_section(secs), i));
        lemma_split_same(args, f1, f2, i + 1, add_to_last(secs, i));
        lemma_split_same(
            args,
            f1,
            f2,
            i + 1,
            secs.push(SSection { header: Some(i), kind: Some(HeaderKind::Keyword), args: Seq::empty() }),
        );
        lemma_split_same(
            args,
            f1,
            f2,
            i + 1,
            secs.push(SSection { header: Some(i), kind: Some(HeaderKind::Flag), args: Seq::empty() }),
        );
    }
}

/// The argument positions of sections, in order: each section's header
/// (when it has one), then its arguments.
pub open spec fn section_positions(secs: Seq<SSection>) -> Seq<int>
    decreases secs.len(),
{
    if secs.len() == 0 {
        Seq::empty()
    } else {
        section_positions(secs.drop_last()) + (match secs.last().header {
            Some(h) => seq![h],
            None => Seq::<int>::empty(),
        }) + secs.last().args
    }
}

proof fn lemma_positions_add(secs: Seq<SSection>, i: int)
    ensures
        section_positions(add_to_last(ensure_section(secs), i)) == section_positions(secs).push(i),
        secs.len() > 0 ==> section_positions(add_to_last(secs, i)) == section_positions(secs).push(i),
{
    let e = ensure_section(secs);
    if secs.len() == 0 {
        assert(e.drop_last() =~= Seq::<SSection>::empty());
        assert(section_positions(Seq::<SSection>::empty()) == Seq::<int>::empty());
        assert(e.last() == SSection { header: None, kind: None, args: Seq::empty() });
        assert(section_positions(e) =~= Seq::<int>::empty());
    }
    assert(section_positions(e) == section_positions(secs));
    let a = add_to_last(e, i);
    assert(a.drop_last() =~= e.drop_last());
    assert(section_positions(a) =~= section_positions(e).push(i));
    if secs.len() > 0 {
        let b = add_to_last(secs, i);
        assert(b.drop_last() =~= secs.drop_last());
        assert(section_positions(b) =~= section_positions(secs).push(i));
    }
}

proof fn lemma_split_positions(args: Seq<SArgument>, form: CommandForm, i: int, secs: Seq<SSection>)
    requires
        0 <= i <= args.len(),
    ensures
        section_positions(split_from(args, form, i, secs)) == section_positions(secs) + Seq::new(
            (args.len() - i) as nat,
            |k: int| k + i,
        ),
    decreases args.len() - i,
{
    if i >= args.len() {
        assert(section_positions(secs) + Seq::new((args.len() - i) as nat, |k: int| k + i) =~= section_positions(secs));
    } else {
        lemma_positions_add(secs, i);
        let token = argument_text(args[i]);
        let next = if args[i] is InlineComment {
            add_to_last(ensure_section(secs), i)
        } else if nested_belongs(secs, form, args, token) {
            add_to_last(secs, i)
        } else if token_index(form.kwargs@, token) is Some {
            let n = secs.push(SSection { header: Some(i), kind: Some(HeaderKind::Keyword), args: Seq::empty() });
            assert(n.drop_last() =~= secs);
            assert(section_positions(n) =~= section_positions(secs).push(i));
            n
        } else if flag_match(form.flags@, token) {
            let n = secs.push(SSection { header: Some(i), kind: Some(HeaderKind::Flag), args: Seq::empty() });
            assert(n.drop_last() =~= secs);
            assert(section_positions(n) =~= section_positions(secs).push(i));
            n
        } else {
            add_to_last(ensure_section(secs), i)
        };
        assert(split_from(args, form, i, secs) == split_from(args, form, i + 1, next));
        assert(section_positions(next) == section_positions(secs).push(i));
        lemma_split_positions(args, form, i + 1, next);
        assert(section_positions(secs).push(i) + Seq::new((args.len() - (i + 1)) as nat, |k: int| k + (i + 1))
            =~= section_positions(secs) + Seq::new((args.len() - i) as nat, |k: int| k + i));
    }
}

/// Grouping a command's arguments into sections keeps every argument once
/// and in order: the sections' headers and arguments, read in order, are
/// the positions `0, 1, ..., n - 1` of the `n` arguments.
pub proof fn lemma_sections_cover_arguments(args: Seq<SArgument>, form: CommandForm)
    ensures
        section_positions(sections_of(args, form)) == Seq::new(args.len(), |k: int| k),
{
    lemma_split_positions(args, form, 0, Seq::empty());
    assert(section_positions(Seq::<SSection>::empty()) + Seq::new((args.len() - 0) as nat, |k: int| k + 0) =~= Seq::new(
        args.len(),
        |k: int| k,
    ));
}

proof fn lemma_positions_in(secs: Seq<SSection>, n: int)
    requires
        forall|k: int| 0 <= k < section_positions(secs).len() ==> 0 <= #[trigger] section_positions(secs)[k] < n,
    ensures
        secs_in(secs, n),
    decreases secs.len(),
{
    if secs.len() > 0 {
        let d = secs.drop_last();
        let l = secs.last();
        let hp: Seq<int> = match l.header {
            Some(h) => seq![h],
            None => Seq::<int>::empty(),
        };
        let pd = section_positions(d);
        let p = section_positions(secs);
        assert(p == pd + hp + l.args);
        assert forall|k: int| 0 <= k < pd.len() implies 0 <= #[trigger] pd[k] < n by {
            assert(p[k] == pd[k]);
        }
        lemma_positions_in(d, n);
        assert(sec_in(l, n)) by {
            if l.header is Some {
                assert(p[pd.len() as int] == l.header->Some_0);
            }
            assert forall|m: int| 0 <= m < l.args.len() implies 0 <= #[trigger] l.args[m] < n by {
                assert(p[pd.len() + hp.len() + m] == l.args[m]);
            }
        }
        assert forall|k: int| 0 <= k < secs.len() implies sec_in(#[trigger] secs[k], n) by {
            if k < d.len() {
                assert(secs[k] == d[k]);
            }
        }
    }
}

proof fn lemma_sections_in(args: Seq<SArgument>, form: CommandForm)
    ensures
        secs_in(sections_of(args, form), args.len() as int),
{
    lemma_sections_cover_arguments(args, form);
    lemma_positions_in(sections_of(args, form), args.len() as int);
}

/// Grouped arguments are written once each and in order: the tokens of a
/// command's sections are its arguments' texts, one per argument, each
/// as written or (for a keyword or flag) in the keyword case.
pub proof fn lemma_tokens_are_arguments(args: Seq<SArgument>, form: CommandForm, kc: CaseStyle)
    ensures
        all_tokens(args, sections_of(args, form), kc).len() == args.len(),
        forall|k: int|
            0 <= k < args.len() ==> #[trigger] all_tokens(args, sections_of(args, form), kc)[k] == argument_text(args[k])
                || all_tokens(args, sections_of(args, form), kc)[k] == cased(kc, argument_text(args[k])),
{
    let secs = sections_of(args, form);
    lemma_sections_cover_arguments(args, form);
    lemma_sections_in(args, form);
    lemma_tokens_at_positions(args, secs, kc);
    assert forall|k: int| 0 <= k < args.len() implies #[trigger] all_tokens(args, secs, kc)[k] == argument_text(args[k])
        || all_tokens(args, secs, kc)[k] == cased(kc, argument_text(args[k])) by {
        assert(section_positions(secs)[k] == k);
    }
}

/// The sections of a command's arguments under a form.
pub open spec fn sections_of(args: Seq<SArgument>, form: CommandForm) -> Seq<SSection> {
    split_from(args, form, 0, Seq::empty())
}

/// Every position a section mentions is below `n`.
pub open spec fn sec_in(s: SSection, n: int) -> bool {
    &&& (s.header matches Some(h) ==> 0 <= h < n)
    &&& forall|m: int| 0 <= m < s.args.len() ==> 0 <= #[trigger] s.args[m] < n
}

/// Every position a section list mentions is below `n`.
pub open spec fn secs_in(secs: Seq<SSection>, n: int) -> bool {
    forall|k: int| 0 <= k < secs.len() ==> sec_in(#[trigger] secs[k], n)
}

fn lookup_kwarg<'a>(form: &'a CommandForm, token: &str) -> (r: Option<&'a KwargSpec>)
    ensures
        match kwarg_of(*form, token@) {
            Some(k) => r matches Some(rk) && *rk == k,
            None => r is None,
        },
{
    let _n = form.kwargs.len();
    match find_token(&form.kwargs, token) {
        Some(i) => Some(&form.kwargs[i].1),
        None => None,
    }
}

fn nested_token_belongs(
    sections: &Vec<Section>,
    form: &CommandForm,
    command: &CommandInvocation,
    token: &str,
) -> (r: bool)
    requires
        secs_in(secs_view(sections@), command.arguments@.len() as int),
    ensures
        r == nested_belongs(secs_view(sections@), *form, args_view(command.arguments@), token@),
{
    let n = sections.len();
    if n == 0 {
        return false;
    }
    let last = &sections[n - 1];
    assert(secs_view(sections@).last() == last@);
    match last.header_kind {
        Some(HeaderKind::Keyword) => {},
        _ => {
            return false;
        },
    }
    let h = match last.header {
        Some(h) => h,
        None => {
            return false;
        },
    };
    let header = command.arguments[h].as_str();
    match lookup_kwarg(form, header) {
        Some(spec) => {
            let fixed0 = match spec.nargs {
                NArgs::Fixed(k) => k == 0,
                _ => false,
            };
            fixed0 && (find_token(&spec.kwargs, token).is_some() || contains_flag_token(&spec.flags, token))
        },
        None => false,
    }
}

proof fn lemma_secs_view_push(s: Seq<Section>, x: Section)
    ensures
        secs_view(s.push(x)) == secs_view(s).push(x@),
{
    assert(secs_view(s.push(x)) =~= secs_view(s).push(x@));
}

fn add_argument(sections: &mut Vec<Section>, i: usize)
    requires
        old(sections)@.len() > 0,
    ensures
        secs_view(final(sections)@) == add_to_last(secs_view(old(sections)@), i as int),
{
    let mut last = sections.pop().unwrap();
    let ghost before = last@;
    last.arguments.push(i);
    assert(last@.args =~= before.args.push(i as int));
    proof {
        lemma_secs_view_push(sections@, last);
    }
    sections.push(last);
    assert(secs_view(sections@) =~= add_to_last(secs_view(old(sections)@), i as int));
}

fn ensure_nonempty(sections: &mut Vec<Section>)
    ensures
        secs_view(final(sections)@) == ensure_section(secs_view(old(sections)@)),
        final(sections)@.len() > 0,
{
    if sections.len() == 0 {
        let s = Section { header: None, header_kind: None, arguments: Vec::new() };
        proof {
            lemma_secs_view_push(sections@, s);
        }
        sections.push(s);
        assert(s@.args =~= Seq::<int>::empty());
        assert(secs_view(sections@) =~= ensure_section(secs_view(old(sections)@)));
    }
}

/// Split a command's arguments into sections under a form.
pub fn split_sections(command: &CommandInvocation, form: &CommandForm) -> (r: Vec<Section>)
    ensures
        secs_view(r@) == sections_of(args_view(command.arguments@), *form),
        secs_in(secs_view(r@), command.arguments@.len() as int),
{
    let mut sections: Vec<Section> = Vec::new();
    let ghost args = args_view(command.arguments@);
    let mut i: usize = 0;
    let n = command.arguments.len();
    assert(secs_view(sections@) =~= Seq::<SSection>::empty());
    while i < n
        invariant
            n == command.arguments@.len(),
            args == args_view(command.arguments@),
            i <= n,
            split_from(args, *form, i as int, secs_view(sections@)) == sections_of(args, *form),
            secs_in(secs_view(sections@), n as int),
        decreases n - i,
    {
        let argument = &command.arguments[i];
        assert(args[i as int] == argument@);
        if argument.is_comment() {
            ensure_nonempty(&mut sections);
            add_argument(&mut sections, i);
        } else {
            let token = argument.as_str();
            if nested_token_belongs(&sections, form, command, token) {
                add_argument(&mut sections, i);
            } else if find_token(&form.kwargs, token).is_some() {
                let s = Section { header: Some(i), header_kind: Some(HeaderKind::Keyword), arguments: Vec::new() };
                assert(s@.args =~= Seq::<int>::empty());
                proof {
                    lemma_secs_view_push(sections@, s);
                }
                sections.push(s);
            } else if contains_flag_token(&form.flags, token) {
                let s = Section { header: Some(i), header_kind: Some(HeaderKind::Flag), arguments: Vec::new() };
                assert(s@.args =~= Seq::<int>::empty());
                proof {
                    lemma_secs_view_push(sections@, s);
                }
                sections.push(s);
            } else {
                ensure_nonempty(&mut sections);
                add_argument(&mut sections, i);
            }
        }
        i += 1;
    }
    sections
}

// ── Shared pieces ───────────────────────────────────────────────────────────

/// `s` repeated `n` times.
pub open spec fn repeat_seq(s: Seq<char>, n: nat) -> Seq<char>
    decreases n,
{
    if n == 0 {
        Seq::empty()
    } else {
        repeat_seq(s, (n - 1) as nat) + s
    }
}

/// A text repeated `n` times.
pub fn repeat_str(s: &str, n: usize) -> (r: String)
    ensures
        r@ == repeat_seq(s@, n as nat),
{
    let mut out = String::new();
    let mut i: usize = 0;
    while i < n
        invariant
            i <= n,
            out@ == repeat_seq(s@, i as nat),
        decreases n - i,
    {
        push_str(&mut out, s);
        i += 1;
    }
    out
}

/// The command name as rendered: cased, and followed by a space when the
/// command takes one before `(`.
pub open spec fn name_text(cc: CommandConfig, name: Seq<char>) -> Seq<char> {
    cased(eff_command_case(cc), name) + if cc.space_before_paren {
        " "@
    } else {
        Seq::<char>::empty()
    }
}

/// The indentation of a command at a block depth.
pub open spec fn base_indent(cc: CommandConfig, depth: nat) -> Seq<char> {
    repeat_seq(eff_indent(cc), depth)
}

fn format_name(command: &CommandInvocation, cc: &CommandConfig) -> (r: String)
    ensures
        r@ == name_text(*cc, command.name@),
{
    let name = apply_case(cc.command_case(), command.name.as_str());
    if cc.space_before_paren {
        let mut spaced = name;
        push_str(&mut spaced, " ");
        spaced
    } else {
        let r = name;
        assert(r@ =~= r@ + Seq::<char>::empty());
        r
    }
}

/// Whether an argument's text spans lines.
pub open spec fn has_newline(a: SArgument) -> bool {
    has_char(argument_text(a), '\n') || has_char(argument_text(a), '\r')
}

fn argument_has_newline(a: &Argument) -> (r: bool)
    ensures
        r == has_newline(a@),
{
    contains_char(a.as_str(), '\n') || contains_char(a.as_str(), '\r')
}

/// Whether any argument spans lines.
pub open spec fn any_newline(args: Seq<SArgument>) -> bool {
    exists|i: int| 0 <= i < args.len() && has_newline(args[i])
}

/// Whether any argument is a comment.
pub open spec fn any_comment(args: Seq<SArgument>) -> bool {
    exists|i: int| 0 <= i < args.len() && args[i] is InlineComment
}

fn arguments_have_newline(command: &CommandInvocation) -> (r: bool)
    ensures
        r == any_newline(args_view(command.arguments@)),
{
    let mut i: usize = 0;
    while i < command.arguments.len()
        invariant
            i <= command.arguments@.len(),
            forall|j: int| 0 <= j < i ==> !has_newline(args_view(command.arguments@)[j]),
        decreases command.arguments@.len() - i,
    {
        if argument_has_newline(&command.arguments[i]) {
            assert(args_view(command.arguments@)[i as int] == command.arguments@[i as int]@);
            return true;
        }
        i += 1;
    }
    false
}

fn arguments_have_comment(command: &CommandInvocation) -> (r: bool)
    ensures
        r == any_comment(args_view(command.arguments@)),
{
    let mut i: usize = 0;
    while i < command.arguments.len()
        invariant
            i <= command.arguments@.len(),
            forall|j: int| 0 <= j < i ==> !(args_view(command.arguments@)[j] is InlineComment),
        decreases command.arguments@.len() - i,
    {
        if command.arguments[i].is_comment() {
            assert(args_view(command.arguments@)[i as int] == command.arguments@[i as int]@);
            return true;
        }
        i += 1;
    }
    false
}

/// Whether some section holds more than `max` arguments.
pub open spec fn any_section_over(secs: Seq<SSection>, max: nat) -> bool {
    exists|k: int| 0 <= k < secs.len() && secs[k].args.len() > max
}

fn sections_over(sections: &Vec<Section>, max: usize) -> (r: bool)
    ensures
        r == any_section_over(secs_view(sections@), max as nat),
{
    let mut k: usize = 0;
    while k < sections.len()
        invariant
            k <= sections@.len(),
            forall|j: int| 0 <= j < k ==> secs_view(sections@)[j].args.len() <= max,
        decreases sections@.len() - k,
    {
        assert(secs_view(sections@)[k as int] == sections@[k as int]@);
        if sections[k].arguments.len() > max {
            return true;
        }
        k += 1;
    }
    false
}

// ── Inline layout ───────────────────────────────────────────────────────────

/// The texts of the arguments at the given positions.
pub open spec fn texts_at(args: Seq<SArgument>, idx: Seq<int>) -> Seq<Seq<char>> {
    idx.map_values(|j: int| argument_text(args[j]))
}

/// The tokens of a section: its header (cased) and its arguments' texts.
pub open spec fn sec_tokens(args: Seq<SArgument>, s: SSection, kc: CaseStyle) -> Seq<Seq<char>> {
    (match s.header {
        Some(h) => seq![cased(kc, argument_text(args[h]))],
        None => Seq::empty(),
    }) + texts_at(args, s.args)
}

/// The tokens of a list of sections, in order.
pub open spec fn all_tokens(args: Seq<SArgument>, secs: Seq<SSection>, kc: CaseStyle) -> Seq<
    Seq<char>,
>
    decreases secs.len(),
{
    if secs.len() == 0 {
        Seq::empty()
    } else {
        all_tokens(args, secs.drop_last(), kc) + sec_tokens(args, secs.last(), kc)
    }
}

proof fn lemma_tokens_at_positions(args: Seq<SArgument>, secs: Seq<SSection>, kc: CaseStyle)
    requires
        secs_in(secs, args.len() as int),
    ensures
        all_tokens(args, secs, kc).len() == section_positions(secs).len(),
        forall|k: int|
            0 <= k < section_positions(secs).len() ==> #[trigger] all_tokens(args, secs, kc)[k] == argument_text(
                args[section_positions(secs)[k]],
            ) || all_tokens(args, secs, kc)[k] == cased(kc, argument_text(args[section_positions(secs)[k]])),
    decreases secs.len(),
{
    if secs.len() > 0 {
        let d = secs.drop_last();
        assert(secs_in(d, args.len() as int)) by {
            assert forall|k: int| 0 <= k < d.len() implies sec_in(#[trigger] d[k], args.len() as int) by {
                assert(d[k] == secs[k]);
            }
        }
        lemma_tokens_at_positions(args, d, kc);
        let l = secs.last();
        let hp: Seq<int> = match l.header {
            Some(h) => seq![h],
            None => Seq::<int>::empty(),
        };
        let ht: Seq<Seq<char>> = match l.header {
            Some(h) => seq![cased(kc, argument_text(args[h]))],
            None => Seq::empty(),
        };
        let pd = section_positions(d);
        let td = all_tokens(args, d, kc);
        let p = section_positions(secs);
        let t = all_tokens(args, secs, kc);
        assert(p == pd + hp + l.args);
        assert(t == td + sec_tokens(args, l, kc));
        assert(sec_tokens(args, l, kc) == ht + texts_at(args, l.args));
        assert forall|k: int| 0 <= k < p.len() implies #[trigger] t[k] == argument_text(args[p[k]]) || t[k] == cased(
            kc,
            argument_text(args[p[k]]),
        ) by {
            if k < pd.len() {
                assert(t[k] == td[k]);
                assert(p[k] == pd[k]);
            } else if k < pd.len() + hp.len() {
                assert(t[k] == ht[k - pd.len()]);
                assert(p[k] == hp[k - pd.len()]);
            } else {
                let m = k - pd.len() - hp.len();
                assert(t[k] == texts_at(args, l.args)[m]);
                assert(p[k] == l.args[m]);
            }
        }
    }
}

fn collect_tokens(command: &CommandInvocation, sections: &Vec<Section>, kc: CaseStyle) -> (r: Vec<
    String,
>)
    requires
        secs_in(secs_view(sections@), command.arguments@.len() as int),
    ensures
        strs(r@) == all_tokens(args_view(command.arguments@), secs_view(sections@), kc),
{
    let ghost args = args_view(command.arguments@);
    let ghost secs = secs_view(sections@);
    let mut out: Vec<String> = Vec::new();
    let mut k: usize = 0;
    assert(strs(out@) =~= Seq::<Seq<char>>::empty());
    assert(secs.subrange(0, 0) =~= Seq::<SSection>::empty());
    while k < sections.len()
        invariant
            k <= sections@.len(),
            args == args_view(command.arguments@),
            secs == secs_view(sections@),
            secs_in(secs, command.arguments@.len() as int),
            strs(out@) == all_tokens(args, secs.subrange(0, k as int), kc),
        decreases sections@.len() - k,
    {
        let section = &sections[k];
        let ghost s = secs[k as int];
        assert(s == section@);
        assert(sec_in(s, command.arguments@.len() as int));
        let ghost before = strs(out@);
        match section.header {
            Some(h) => {
                let t = apply_case(kc, command.arguments[h].as_str());
                assert(args[h as int] == command.arguments@[h as int]@);
                out.push(t);
            },
            None => {},
        }
        let ghost mid = strs(out@);
        assert(mid =~= before + match s.header {
            Some(h) => seq![cased(kc, argument_text(args[h]))],
            None => Seq::empty(),
        });
        let mut m: usize = 0;
        while m < section.arguments.len()
            invariant
                m <= section.arguments@.len(),
                s == section@,
                sec_in(s, command.arguments@.len() as int),
                args == args_view(command.arguments@),
                strs(out@) == mid + texts_at(args, s.args.subrange(0, m as int)),
            decreases section.arguments@.len() - m,
        {
            let j = section.arguments[m];
            assert(s.args[m as int] == j as int);
            assert(0 <= j < command.arguments@.len());
            assert(args[j as int] == command.arguments@[j as int]@);
            let t = owned(command.arguments[j].as_str());
            let ghost pre = strs(out@);
            out.push(t);
            assert(texts_at(args, s.args.subrange(0, m + 1)) =~= texts_at(args, s.args.subrange(0, m as int)).push(argument_text(args[j as int])));
            assert(strs(out@) =~= pre.push(t@));
            m += 1;
        }
        assert(s.args.subrange(0, s.args.len() as int) =~= s.args);
        assert(secs.subrange(0, k + 1).drop_last() =~= secs.subrange(0, k as int));
        assert(secs.subrange(0, k + 1).last() == s);
        k += 1;
    }
    assert(secs.subrange(0, sections@.len() as int) =~= secs);
    out
}

/// The single-line rendering of a command.
pub open spec fn inline_text(
    cmd: SCommand,
    secs: Seq<SSection>,
    cc: CommandConfig,
    depth: nat,
) -> Seq<char> {
    base_indent(cc, depth) + name_text(cc, cmd.name) + "("@ + join(
        all_tokens(cmd.arguments, secs, eff_keyword_case(cc)),
        " "@,
    ) + ")"@
}

/// The inline layout: only when no argument spans lines, none is a comment,
/// no section exceeds the positional threshold, and the line fits.
pub open spec fn try_inline(
    cmd: SCommand,
    secs: Seq<SSection>,
    cc: CommandConfig,
    depth: nat,
    line_width: nat,
) -> Option<Seq<char>> {
    if any_newline(cmd.arguments) || any_comment(cmd.arguments) || any_section_over(
        secs,
        eff_max_pargs(cc) as nat,
    ) {
        None
    } else {
        let t = inline_text(cmd, secs, cc, depth);
        if t.len() <= line_width {
            Some(t)
        } else {
            None
        }
    }
}

pub(crate) fn char_count(s: &str) -> (r: usize)
    ensures
        r == s@.len(),
{
    chars_of(s).len()
}

fn try_format_inline(
    command: &CommandInvocation,
    sections: &Vec<Section>,
    cc: &CommandConfig,
    block_depth: usize,
    line_width: usize,
) -> (r: Option<String>)
    requires
        secs_in(secs_view(sections@), command.arguments@.len() as int),
    ensures
        match try_inline(command@, secs_view(sections@), *cc, block_depth as nat, line_width as nat) {
            Some(t) => r matches Some(s) && s@ == t,
            None => r is None,
        },
{
    if arguments_have_newline(command) || arguments_have_comment(command) {
        return None;
    }
    if sections_over(sections, cc.max_pargs_hwrap()) {
        return None;
    }
    let unit = cc.indent_str();
    let mut output = repeat_str(unit.as_str(), block_depth);
    push_str(&mut output, format_name(command, cc).as_str());
    push_str(&mut output, "(");
    let tokens = collect_tokens(command, sections, cc.keyword_case());
    push_str(&mut output, crate::text::join_strings(&tokens, " ").as_str());
    push_str(&mut output, ")");
    if char_count(output.as_str()) <= line_width {
        Some(output)
    } else {
        None
    }
}

// ── Hanging-wrap layout ─────────────────────────────────────────────────────

/// Whether a command is `if`, `elseif` or `while` (any ASCII case): their
/// conditions break before `AND` and `OR`.
pub open spec fn is_condition_name(name: Seq<char>) -> bool {
    lower_seq(name) == "if"@ || lower_seq(name) == "elseif"@ || lower_seq(name) == "while"@
}

/// Whether a token is `AND` or `OR` in any ASCII case.
pub open spec fn is_break_word(tok: Seq<char>) -> bool {
    lower_seq(tok) == "and"@ || lower_seq(tok) == "or"@
}

fn is_condition_command(name: &str) -> (r: bool)
    ensures
        r == is_condition_name(name@),
{
    let low = to_lower(name);
    str_eq(low.as_str(), "if") || str_eq(low.as_str(), "elseif") || str_eq(low.as_str(), "while")
}

fn breaks_before(token: &str) -> (r: bool)
    ensures
        r == is_break_word(token@),
{
    let low = to_lower(token);
    str_eq(low.as_str(), "and") || str_eq(low.as_str(), "or")
}

/// Whether the next token on a line is preceded by a space: not when the
/// line holds only its prefix or continuation.
pub open spec fn needs_space(cur: Seq<char>, prefix: Seq<char>, cont: Seq<char>) -> bool {
    cur.len() != prefix.len() && cur.len() != cont.len()
}

/// One packing step: a condition line breaks before `AND`/`OR` while lines
/// remain; otherwise the token joins the current line if it fits, or opens a
/// continuation line, unless the line budget is spent.
pub open spec fn pack_step(
    prefix: Seq<char>,
    cont: Seq<char>,
    line_width: nat,
    max_lines: nat,
    cond: bool,
    lines: Seq<Seq<char>>,
    tok: Seq<char>,
) -> Option<Seq<Seq<char>>> {
    let cur = lines.last();
    if cond && is_break_word(tok) && cur != prefix && lines.len() < max_lines {
        Some(lines.push(cont + tok))
    } else {
        let sp = needs_space(cur, prefix, cont);
        let cand = cur.len() + (if sp { 1nat } else { 0nat }) + tok.len();
        if cand <= line_width {
            Some(lines.update(lines.len() - 1, cur + (if sp { " "@ } else { Seq::<char>::empty() }) + tok))
        } else if lines.len() >= max_lines {
            None
        } else {
            Some(lines.push(cont + tok))
        }
    }
}

/// Packing of the tokens from `i` onto `lines`.
pub open spec fn pack_from(
    prefix: Seq<char>,
    cont: Seq<char>,
    tokens: Seq<Seq<char>>,
    line_width: nat,
    max_lines: nat,
    cond: bool,
    i: int,
    lines: Seq<Seq<char>>,
) -> Option<Seq<Seq<char>>>
    decreases tokens.len() - i,
{
    if i < 0 || i >= tokens.len() {
        Some(lines)
    } else {
        match pack_step(prefix, cont, line_width, max_lines, cond, lines, tokens[i]) {
            Some(next) => pack_from(prefix, cont, tokens, line_width, max_lines, cond, i + 1, next),
            None => None,
        }
    }
}

/// The hanging-wrap lines of a token list, first line starting with `prefix`.
pub open spec fn pack(
    prefix: Seq<char>,
    cont: Seq<char>,
    tokens: Seq<Seq<char>>,
    line_width: nat,
    max_lines: nat,
    cond: bool,
) -> Option<Seq<Seq<char>>> {
    pack_from(prefix, cont, tokens, line_width, max_lines, cond, 0, seq![prefix])
}

fn last_line_width(lines: &Vec<String>) -> (r: usize)
    requires
        lines@.len() > 0,
    ensures
        r == lines@.last()@.len(),
{
    char_count(lines[lines.len() - 1].as_str())
}

fn pack_tokens(
    prefix: &str,
    continuation: &str,
    tokens: &Vec<String>,
    line_width: usize,
    max_lines: usize,
    cond: bool,
) -> (r: Option<Vec<String>>)
    ensures
        match pack(prefix@, continuation@, strs(tokens@), line_width as nat, max_lines as nat, cond) {
            Some(ls) => r matches Some(v) && strs(v@) == ls,
            None => r is None,
        },
{
    let ghost toks = strs(tokens@);
    let prefix_width = char_count(prefix);
    let continuation_width = char_count(continuation);
    let mut lines: Vec<String> = Vec::new();
    lines.push(owned(prefix));
    assert(strs(lines@) =~= seq![prefix@]);
    let mut i: usize = 0;
    while i < tokens.len()
        invariant
            i <= tokens@.len(),
            toks == strs(tokens@),
            prefix_width == prefix@.len(),
            continuation_width == continuation@.len(),
            lines@.len() > 0,
            pack_from(prefix@, continuation@, toks, line_width as nat, max_lines as nat, cond, i as int, strs(lines@))
                == pack(prefix@, continuation@, toks, line_width as nat, max_lines as nat, cond),
        decreases tokens@.len() - i,
    {
        let token = tokens[i].as_str();
        assert(toks[i as int] == token@);
        let ghost before = strs(lines@);
        let n = lines.len();
        let current_width = last_line_width(&lines);
        let token_width = char_count(token);
        assert(before.last() == lines@[n - 1]@);
        if cond && breaks_before(token) && !str_eq(lines[n - 1].as_str(), prefix) && n < max_lines {
            let mut next = owned(continuation);
            push_str(&mut next, token);
            lines.push(next);
            assert(strs(lines@) =~= before.push(continuation@ + token@));
        } else {
            let needs = current_width != prefix_width && current_width != continuation_width;
            let fits = if needs {
                current_width < line_width && token_width <= line_width - current_width - 1
            } else {
                current_width <= line_width && token_width <= line_width - current_width
            };
            if fits {
                let mut cur = lines.pop().unwrap();
                if needs {
                    push_str(&mut cur, " ");
                }
                push_str(&mut cur, token);
                proof {
                    reveal_strlit(" ");
                }
                lines.push(cur);
                assert(strs(lines@) =~= before.update(
                    before.len() - 1,
                    before.last() + (if needs { " "@ } else { Seq::<char>::empty() }) + token@,
                ));
            } else {
                if n >= max_lines {
                    return None;
                }
                let mut next = owned(continuation);
                push_str(&mut next, token);
                lines.push(next);
                assert(strs(lines@) =~= before.push(continuation@ + token@));
            }
        }
        i += 1;
    }
    Some(lines)
}

/// The byte length of a text in UTF-8, as `str::len` reports it.
pub open spec fn byte_len(s: Seq<char>) -> nat {
    (encode_utf8(s).len() as usize) as nat
}

/// The closing line of a dangling paren.
pub open spec fn dangle_closer(cc: CommandConfig, base: Seq<char>, name: Seq<char>) -> Seq<char> {
    base + (if eff_dangle_align(cc) == DangleAlign::Open {
        repeat_seq(" "@, byte_len(name))
    } else {
        Seq::<char>::empty()
    }) + ")"@
}

/// Closing a multi-line hanging wrap: a dangling paren on its own line, or
/// a paren on its own line after a comment, or `)` appended to the last line.
pub open spec fn close_lines(lines: Seq<Seq<char>>, base: Seq<char>, name: Seq<char>, cc: CommandConfig) -> Seq<char> {
    if eff_dangle_parens(cc) {
        join(lines.push(dangle_closer(cc, base, name)), "\n"@)
    } else if has_char(lines.last(), '#') {
        join(lines.push(base + ")"@), "\n"@)
    } else {
        join(lines.update(lines.len() - 1, lines.last() + ")"@), "\n"@)
    }
}

fn closer_line(cc: &CommandConfig, base_indent: &str, name: &str) -> (r: String)
    ensures
        r@ == dangle_closer(*cc, base_indent@, name@),
{
    let mut out = owned(base_indent);
    match cc.dangle_align() {
        DangleAlign::Open => {
            let pad = repeat_str(" ", name.len());
            push_str(&mut out, pad.as_str());
        },
        _ => {},
    }
    push_str(&mut out, ")");
    out
}

fn close_multiline(lines: Vec<String>, base_indent: &str, name: &str, cc: &CommandConfig) -> (r: String)
    requires
        lines@.len() > 0,
    ensures
        r@ == close_lines(strs(lines@), base_indent@, name@, *cc),
{
    let mut lines = lines;
    let ghost ls = strs(lines@);
    if cc.dangle_parens() {
        lines.push(closer_line(cc, base_indent, name));
        assert(strs(lines@) =~= ls.push(dangle_closer(*cc, base_indent@, name@)));
        return crate::text::join_strings(&lines, "\n");
    }
    let n = lines.len();
    assert(ls.last() == lines@[n - 1]@);
    if contains_char(lines[n - 1].as_str(), '#') {
        let mut closer = owned(base_indent);
        push_str(&mut closer, ")");
        lines.push(closer);
        assert(strs(lines@) =~= ls.push(base_indent@ + ")"@));
        crate::text::join_strings(&lines, "\n")
    } else {
        let mut last = lines.pop().unwrap();
        push_str(&mut last, ")");
        lines.push(last);
        assert(strs(lines@) =~= ls.update(ls.len() - 1, ls.last() + ")"@));
        crate::text::join_strings(&lines, "\n")
    }
}

/// The opening of a command: indentation, name and `(`.
pub open spec fn open_prefix(cmd: SCommand, cc: CommandConfig, depth: nat) -> Seq<char> {
    base_indent(cc, depth) + name_text(cc, cmd.name) + "("@
}

/// The hanging-wrap layout: for a command whose arguments form a single
/// headerless section (within the positional threshold unless it is a
/// condition), with no comment and no multi-line argument, the tokens packed
/// after `name(` within the line width and the line budget.
pub open spec fn try_hanging(
    cmd: SCommand,
    secs: Seq<SSection>,
    cc: CommandConfig,
    depth: nat,
    line_width: nat,
) -> Option<Seq<char>> {
    if any_comment(cmd.arguments) || any_newline(cmd.arguments) {
        None
    } else if secs.len() != 1 || secs[0].header is Some {
        None
    } else if !is_condition_name(cmd.name) && secs[0].args.len() > eff_max_pargs(cc) {
        None
    } else {
        let prefix = open_prefix(cmd, cc, depth);
        let cont = repeat_seq(" "@, prefix.len());
        match pack(
            prefix,
            cont,
            texts_at(cmd.arguments, secs[0].args),
            line_width,
            cc.global.max_lines_hwrap as nat,
            is_condition_name(cmd.name),
        ) {
            None => None,
            Some(lines) => if lines.len() == 1 {
                Some(lines[0] + ")"@)
            } else {
                Some(close_lines(lines, base_indent(cc, depth), name_text(cc, cmd.name), cc))
            },
        }
    }
}

proof fn lemma_pack_nonempty(
    prefix: Seq<char>,
    cont: Seq<char>,
    tokens: Seq<Seq<char>>,
    line_width: nat,
    max_lines: nat,
    cond: bool,
    i: int,
    lines: Seq<Seq<char>>,
)
    requires
        lines.len() > 0,
    ensures
        pack_from(prefix, cont, tokens, line_width, max_lines, cond, i, lines) matches Some(ls) ==> ls.len() > 0,
    decreases tokens.len() - i,
{
    if 0 <= i < tokens.len() {
        match pack_step(prefix, cont, line_width, max_lines, cond, lines, tokens[i]) {
            Some(next) => lemma_pack_nonempty(prefix, cont, tokens, line_width, max_lines, cond, i + 1, next),
            None => {},
        }
    }
}

fn section_tokens(command: &CommandInvocation, section: &Section) -> (r: Vec<String>)
    requires
        sec_in(section@, command.arguments@.len() as int),
    ensures
        strs(r@) == texts_at(args_view(command.arguments@), section@.args),
{
    let ghost args = args_view(command.arguments@);
    let ghost s = section@;
    let mut out: Vec<String> = Vec::new();
    let mut m: usize = 0;
    assert(strs(out@) =~= texts_at(args, s.args.subrange(0, 0)));
    while m < section.arguments.len()
        invariant
            m <= section.arguments@.len(),
            s == section@,
            sec_in(s, command.arguments@.len() as int),
            args == args_view(command.arguments@),
            strs(out@) == texts_at(args, s.args.subrange(0, m as int)),
        decreases section.arguments@.len() - m,
    {
        let j = section.arguments[m];
        assert(s.args[m as int] == j as int);
        assert(args[j as int] == command.arguments@[j as int]@);
        let t = owned(command.arguments[j].as_str());
        let ghost pre = strs(out@);
        out.push(t);
        assert(texts_at(args, s.args.subrange(0, m + 1)) =~= texts_at(args, s.args.subrange(0, m as int)).push(argument_text(args[j as int])));
        assert(strs(out@) =~= pre.push(t@));
        m += 1;
    }
    assert(s.args.subrange(0, s.args.len() as int) =~= s.args);
    out
}

fn try_format_hanging(
    command: &CommandInvocation,
    sections: &Vec<Section>,
    cc: &CommandConfig,
    block_depth: usize,
    line_width: usize,
) -> (r: Option<String>)
    requires
        secs_in(secs_view(sections@), command.arguments@.len() as int),
    ensures
        match try_hanging(command@, secs_view(sections@), *cc, block_depth as nat, line_width as nat) {
            Some(t) => r matches Some(s) && s@ == t,
            None => r is None,
        },
{
    if arguments_have_comment(command) || arguments_have_newline(command) {
        return None;
    }
    if sections.len() != 1 || sections[0].header.is_some() {
        return None;
    }
    assert(secs_view(sections@)[0] == sections@[0]@);
    let is_cond = is_condition_command(command.name.as_str());
    if !is_cond && sections[0].arguments.len() > cc.max_pargs_hwrap() {
        return None;
    }
    let unit = cc.indent_str();
    let base = repeat_str(unit.as_str(), block_depth);
    let name = format_name(command, cc);
    let mut prefix = copy_string(&base);
    push_str(&mut prefix, name.as_str());
    push_str(&mut prefix, "(");
    let continuation = repeat_str(" ", char_count(prefix.as_str()));
    let tokens = section_tokens(command, &sections[0]);
    let packed = pack_tokens(prefix.as_str(), continuation.as_str(), &tokens, line_width, cc.global.max_lines_hwrap, is_cond);
    match packed {
        None => None,
        Some(lines) => {
            proof {
                lemma_pack_nonempty(prefix@, continuation@, strs(tokens@), line_width as nat,
                    cc.global.max_lines_hwrap as nat, is_cond, 0, seq![prefix@]);
            }
            if lines.len() == 1 {
                let mut only = copy_string(&lines[0]);
                push_str(&mut only, ")");
                Some(only)
            } else {
                Some(close_multiline(lines, base.as_str(), name.as_str(), cc))
            }
        },
    }
}

// ── Vertical layout ─────────────────────────────────────────────────────────

/// Lines, each written after `indent` and ended by a newline.
pub open spec fn block(indent: Seq<char>, lines: Seq<Seq<char>>) -> Seq<char>
    decreases lines.len(),
{
    if lines.len() == 0 {
        Seq::empty()
    } else {
        block(indent, lines.drop_last()) + indent + lines.last() + "\n"@
    }
}

/// A multi-line argument: its first line after `indent`, later lines as
/// they are, `\r\n` normalised, ended by a newline.
pub open spec fn multiline_text(indent: Seq<char>, src: Seq<char>) -> Seq<char> {
    indent + crlf_to_lf(src) + "\n"@
}

/// The output with a pending line written out, if there is one.
pub open spec fn flush(out: Seq<char>, cur: Seq<char>, indent: Seq<char>) -> Seq<char> {
    if cur.len() == 0 {
        out
    } else {
        out + indent + cur + "\n"@
    }
}

/// One argument on lines of its own.
pub open spec fn vertical_one(a: SArgument, indent: Seq<char>, cfg: Config) -> Seq<char> {
    match a {
        SArgument::InlineComment(c) => block(indent, comment_lines(c, cfg, indent.len(), cfg.line_width as nat)),
        _ => if has_newline(a) {
            multiline_text(indent, argument_text(a))
        } else {
            indent + argument_text(a) + "\n"@
        },
    }
}

/// The arguments at positions `idx[k..]`, one per line, appended to `out`.
pub open spec fn vertical_from(
    args: Seq<SArgument>,
    idx: Seq<int>,
    indent: Seq<char>,
    cfg: Config,
    k: int,
    out: Seq<char>,
) -> Seq<char>
    decreases idx.len() - k,
{
    if k < 0 || k >= idx.len() {
        out
    } else {
        vertical_from(args, idx, indent, cfg, k + 1, out + vertical_one(args[idx[k]], indent, cfg))
    }
}

/// The arguments at positions `idx`, one per line.
pub open spec fn vertical_text(args: Seq<SArgument>, idx: Seq<int>, indent: Seq<char>, cfg: Config) -> Seq<char> {
    vertical_from(args, idx, indent, cfg, 0, Seq::empty())
}

/// One step of packing arguments onto lines: a trailing comment that fits
/// joins the pending line; other comments and multi-line arguments flush it
/// and stand on their own lines; a token joins the pending line when it
/// fits, else starts a new one.
pub open spec fn packed_step(
    a: SArgument,
    is_last: bool,
    indent: Seq<char>,
    cfg: Config,
    lw: nat,
    out: Seq<char>,
    cur: Seq<char>,
) -> (Seq<char>, Seq<char>) {
    match a {
        SArgument::InlineComment(c) => {
            let ls = comment_lines(c, cfg, indent.len(), lw);
            if is_last && ls.len() == 1 && cur.len() > 0 && indent.len() + cur.len() + 1 + ls[0].len() <= lw {
                (out, cur + " "@ + ls[0])
            } else {
                (flush(out, cur, indent) + block(indent, ls), Seq::empty())
            }
        },
        _ => if has_newline(a) {
            (flush(out, cur, indent) + multiline_text(indent, argument_text(a)), Seq::empty())
        } else {
            let t = argument_text(a);
            if cur.len() == 0 {
                (out, t)
            } else if indent.len() + cur.len() + 1 + t.len() <= lw {
                (out, cur + " "@ + t)
            } else {
                (flush(out, cur, indent), t)
            }
        },
    }
}

/// Packing of the arguments at positions `idx[k..]`, with output `out` and
/// pending line `cur`.
pub open spec fn packed_from(
    args: Seq<SArgument>,
    idx: Seq<int>,
    indent: Seq<char>,
    cfg: Config,
    lw: nat,
    k: int,
    out: Seq<char>,
    cur: Seq<char>,
) -> Seq<char>
    decreases idx.len() - k,
{
    if k < 0 || k >= idx.len() {
        flush(out, cur, indent)
    } else {
        let next = packed_step(args[idx[k]], k + 1 == idx.len(), indent, cfg, lw, out, cur);
        packed_from(args, idx, indent, cfg, lw, k + 1, next.0, next.1)
    }
}

/// The arguments at positions `idx`, packed onto lines of width `lw`.
pub open spec fn packed_text(args: Seq<SArgument>, idx: Seq<int>, indent: Seq<char>, cfg: Config, lw: nat) -> Seq<char> {
    packed_from(args, idx, indent, cfg, lw, 0, Seq::empty(), Seq::empty())
}

fn push_block(out: &mut String, indent: &str, lines: &Vec<String>)
    ensures
        final(out)@ == old(out)@ + block(indent@, strs(lines@)),
{
    let ghost ls = strs(lines@);
    let ghost start = out@;
    let mut i: usize = 0;
    assert(ls.subrange(0, 0) =~= Seq::<Seq<char>>::empty());
    assert(out@ =~= start + block(indent@, ls.subrange(0, 0)));
    while i < lines.len()
        invariant
            i <= lines@.len(),
            ls == strs(lines@),
            out@ == start + block(indent@, ls.subrange(0, i as int)),
        decreases lines@.len() - i,
    {
        let ghost pre = out@;
        push_str(out, indent);
        push_str(out, lines[i].as_str());
        push_str(out, "\n");
        assert(ls.subrange(0, i + 1).drop_last() =~= ls.subrange(0, i as int));
        assert(ls.subrange(0, i + 1).last() == lines@[i as int]@);
        assert(out@ =~= start + block(indent@, ls.subrange(0, i + 1)));
        i += 1;
    }
    assert(ls.subrange(0, lines@.len() as int) =~= ls);
}

fn push_multiline(out: &mut String, indent: &str, source: &str)
    ensures
        final(out)@ == old(out)@ + multiline_text(indent@, source@),
{
    let ghost start = out@;
    push_str(out, indent);
    push_str(out, replace_crlf(source).as_str());
    push_str(out, "\n");
    assert(out@ =~= start + multiline_text(indent@, source@));
}

fn flush_line(out: &mut String, current: &mut String, indent: &str)
    ensures
        final(out)@ == flush(old(out)@, old(current)@, indent@),
        final(current)@.len() == 0,
{
    if current.as_str().is_empty() {
        return;
    }
    let ghost start = out@;
    push_str(out, indent);
    push_str(out, current.as_str());
    push_str(out, "\n");
    assert(out@ =~= flush(start, old(current)@, indent@));
    *current = String::new();
}

fn write_vertical_one(out: &mut String, argument: &Argument, indent: &str, config: &Config)
    ensures
        final(out)@ == old(out)@ + vertical_one(argument@, indent@, *config),
{
    match argument {
        Argument::InlineComment(comment) => {
            let lines = format_comment_lines(comment, config, char_count(indent), config.line_width);
            push_block(out, indent, &lines);
        },
        _ => {
            if argument_has_newline(argument) {
                push_multiline(out, indent, argument.as_str());
            } else {
                let ghost start = out@;
                push_str(out, indent);
                push_str(out, argument.as_str());
                push_str(out, "\n");
                assert(out@ =~= start + vertical_one(argument@, indent@, *config));
            }
        },
    }
}

fn write_vertical_arguments(
    command: &CommandInvocation,
    positions: &Vec<usize>,
    indent: &str,
    config: &Config,
) -> (r: String)
    requires
        forall|m: int| 0 <= m < positions@.len() ==> #[trigger] positions@[m] < command.arguments@.len(),
    ensures
        r@ == vertical_text(
            args_view(command.arguments@),
            positions@.map_values(|j: usize| j as int),
            indent@,
            *config,
        ),
{
    let ghost args = args_view(command.arguments@);
    let ghost idx = positions@.map_values(|j: usize| j as int);
    let mut out = String::new();
    let mut k: usize = 0;
    while k < positions.len()
        invariant
            k <= positions@.len(),
            args == args_view(command.arguments@),
            idx == positions@.map_values(|j: usize| j as int),
            forall|m: int| 0 <= m < positions@.len() ==> #[trigger] positions@[m] < command.arguments@.len(),
            vertical_from(args, idx, indent@, *config, k as int, out@) == vertical_text(args, idx, indent@, *config),
        decreases positions@.len() - k,
    {
        let j = positions[k];
        assert(idx[k as int] == j as int);
        assert(args[j as int] == command.arguments@[j as int]@);
        write_vertical_one(&mut out, &command.arguments[j], indent, config);
        k += 1;
    }
    out
}

fn sum_fits(a: usize, b: usize, c: usize, d: usize, limit: usize) -> (r: bool)
    ensures
        r == (a + b + c + d <= limit),
{
    a <= limit && b <= limit - a && c <= limit - a - b && d <= limit - a - b - c
}

fn write_packed_arguments(
    command: &CommandInvocation,
    positions: &Vec<usize>,
    indent: &str,
    config: &Config,
    line_width: usize,
) -> (r: String)
    requires
        forall|m: int| 0 <= m < positions@.len() ==> #[trigger] positions@[m] < command.arguments@.len(),
    ensures
        r@ == packed_text(
            args_view(command.arguments@),
            positions@.map_values(|j: usize| j as int),
            indent@,
            *config,
            line_width as nat,
        ),
{
    let ghost args = args_view(command.arguments@);
    let ghost idx = positions@.map_values(|j: usize| j as int);
    let ghost lw = line_width as nat;
    let mut out = String::new();
    let mut current = String::new();
    let indent_width = char_count(indent);
    let n = positions.len();
    let mut k: usize = 0;
    while k < n
        invariant
            k <= n,
            n == positions@.len(),
            indent_width == indent@.len(),
            args == args_view(command.arguments@),
            idx == positions@.map_values(|j: usize| j as int),
            lw == line_width as nat,
            forall|m: int| 0 <= m < positions@.len() ==> #[trigger] positions@[m] < command.arguments@.len(),
            packed_from(args, idx, indent@, *config, lw, k as int, out@, current@) == packed_text(
                args,
                idx,
                indent@,
                *config,
                lw,
            ),
        decreases n - k,
    {
        let j = positions[k];
        assert(idx[k as int] == j as int);
        let argument = &command.arguments[j];
        assert(args[j as int] == argument@);
        let is_last = k + 1 == n;
        let ghost o0 = out@;
        let ghost c0 = current@;
        let ghost next = packed_step(argument@, is_last, indent@, *config, lw, o0, c0);
        match argument {
            Argument::InlineComment(comment) => {
                let lines = format_comment_lines(comment, config, indent_width, line_width);
                let cur_width = char_count(current.as_str());
                let mut joined = false;
                if is_last && lines.len() == 1 && cur_width > 0 {
                    let cw = char_count(lines[0].as_str());
                    if sum_fits(indent_width, cur_width, 1, cw, line_width) {
                        push_str(&mut current, " ");
                        push_str(&mut current, lines[0].as_str());
                        proof {
                            reveal_strlit(" ");
                        }
                        assert(current@ =~= c0 + " "@ + strs(lines@)[0]);
                        joined = true;
                    }
                }
                if !joined {
                    flush_line(&mut out, &mut current, indent);
                    push_block(&mut out, indent, &lines);
                    assert(current@ =~= Seq::<char>::empty());
                }
                assert(out@ == next.0 && current@ == next.1);
            },
            _ => {
                if argument_has_newline(argument) {
                    flush_line(&mut out, &mut current, indent);
                    push_multiline(&mut out, indent, argument.as_str());
                    assert(current@ =~= Seq::<char>::empty());
                } else {
                    let token = argument.as_str();
                    let cur_width = char_count(current.as_str());
                    let token_width = char_count(token);
                    if cur_width == 0 {
                        current = owned(token);
                        assert(c0 =~= Seq::<char>::empty());
                    } else if sum_fits(indent_width, cur_width, 1, token_width, line_width) {
                        push_str(&mut current, " ");
                        push_str(&mut current, token);
                        proof {
                            reveal_strlit(" ");
                        }
                        assert(current@ =~= c0 + " "@ + token@);
                    } else {
                        flush_line(&mut out, &mut current, indent);
                        current = owned(token);
                    }
                }
                assert(out@ == next.0 && current@ == next.1);
            },
        }
        k += 1;
    }
    flush_line(&mut out, &mut current, indent);
    out
}

/// Whether some argument at the given positions spans lines.
pub open spec fn any_newline_at(args: Seq<SArgument>, idx: Seq<int>) -> bool {
    exists|m: int| 0 <= m < idx.len() && has_newline(args[idx[m]])
}

/// A keyword section on one line after its header, from position `k`:
/// tokens while they fit, and a single-line comment only as the last item.
pub open spec fn sec_inline_from(
    args: Seq<SArgument>,
    idx: Seq<int>,
    k: int,
    iw: nat,
    ci: nat,
    cfg: Config,
    lw: nat,
    line: Seq<char>,
) -> Option<Seq<char>>
    decreases idx.len() - k,
{
    if k < 0 || k >= idx.len() {
        Some(line)
    } else {
        let a = args[idx[k]];
        match a {
            SArgument::InlineComment(c) => {
                let ls = comment_lines(c, cfg, ci + 1, lw);
                if k + 1 != idx.len() || ls.len() != 1 || iw + line.len() + 1 + ls[0].len() > lw {
                    None
                } else {
                    sec_inline_from(args, idx, k + 1, iw, ci, cfg, lw, line + " "@ + ls[0])
                }
            },
            _ => {
                let t = argument_text(a);
                let cand = if line.len() == 0 { t.len() } else { line.len() + 1 + t.len() };
                if iw + cand > lw {
                    None
                } else {
                    sec_inline_from(
                        args,
                        idx,
                        k + 1,
                        iw,
                        ci,
                        cfg,
                        lw,
                        if line.len() == 0 { t } else { line + " "@ + t },
                    )
                }
            },
        }
    }
}

/// A keyword section rendered on the header's line, when it fits.
pub open spec fn section_inline(
    header: Seq<char>,
    args: Seq<SArgument>,
    idx: Seq<int>,
    iw: nat,
    cfg: Config,
    lw: nat,
) -> Option<Seq<char>> {
    if any_newline_at(args, idx) {
        None
    } else {
        sec_inline_from(args, idx, 0, iw, iw + header.len(), cfg, lw, header)
    }
}

fn format_section_inline(
    header: &str,
    command: &CommandInvocation,
    positions: &Vec<usize>,
    indent_width: usize,
    config: &Config,
    line_width: usize,
) -> (r: Option<String>)
    requires
        forall|m: int| 0 <= m < positions@.len() ==> #[trigger] positions@[m] < command.arguments@.len(),
    ensures
        match section_inline(
            header@,
            args_view(command.arguments@),
            positions@.map_values(|j: usize| j as int),
            indent_width as nat,
            *config,
            line_width as nat,
        ) {
            Some(t) => r matches Some(s) && s@ == t,
            None => r is None,
        },
{
    let ghost args = args_view(command.arguments@);
    let ghost idx = positions@.map_values(|j: usize| j as int);
    let n = positions.len();
    let mut m: usize = 0;
    while m < n
        invariant
            m <= n,
            n == positions@.len(),
            args == args_view(command.arguments@),
            idx == positions@.map_values(|j: usize| j as int),
            forall|q: int| 0 <= q < positions@.len() ==> #[trigger] positions@[q] < command.arguments@.len(),
            forall|q: int| 0 <= q < m ==> !has_newline(#[trigger] args[idx[q]]),
        decreases n - m,
    {
        let j = positions[m];
        assert(idx[m as int] == j as int);
        assert(args[j as int] == command.arguments@[j as int]@);
        if argument_has_newline(&command.arguments[j]) {
            return None;
        }
        m += 1;
    }
    let mut line = owned(header);
    let header_width = char_count(header);
    let indent_fits = header_width < usize::MAX - indent_width;
    let mut k: usize = 0;
    while k < n
        invariant
            k <= n,
            n == positions@.len(),
            args == args_view(command.arguments@),
            idx == positions@.map_values(|j: usize| j as int),
            forall|q: int| 0 <= q < positions@.len() ==> #[trigger] positions@[q] < command.arguments@.len(),
            header_width == header@.len(),
            line@.len() >= header_width,
            indent_fits == (header_width < usize::MAX - indent_width),
            sec_inline_from(args, idx, k as int, indent_width as nat, indent_width as nat + header@.len(), *config, line_width as nat, line@)
                == section_inline(header@, args, idx, indent_width as nat, *config, line_width as nat),
        decreases n - k,
    {
        let j = positions[k];
        assert(idx[k as int] == j as int);
        let argument = &command.arguments[j];
        assert(args[j as int] == argument@);
        let line_width_count = char_count(line.as_str());
        match argument {
            Argument::InlineComment(comment) => {
                if k + 1 != n || !indent_fits {
                    return None;
                }
                let lines = format_comment_lines(comment, config, indent_width + header_width + 1, line_width);
                if lines.len() != 1 {
                    return None;
                }
                let cw = char_count(lines[0].as_str());
                if !sum_fits(indent_width, line_width_count, 1, cw, line_width) {
                    return None;
                }
                push_str(&mut line, " ");
                push_str(&mut line, lines[0].as_str());
                proof {
                    reveal_strlit(" ");
                }
            },
            _ => {
                let token = argument.as_str();
                let token_width = char_count(token);
                if line_width_count == 0 {
                    if !sum_fits(indent_width, token_width, 0, 0, line_width) {
                        return None;
                    }
                    line = owned(token);
                } else {
                    if !sum_fits(indent_width, line_width_count, 1, token_width, line_width) {
                        return None;
                    }
                    push_str(&mut line, " ");
                    push_str(&mut line, token);
                    proof {
                        reveal_strlit(" ");
                    }
                }
            },
        }
        k += 1;
    }
    Some(line)
}

/// One section of the vertical layout, with the given section and nested
/// indentations.
pub open spec fn section_text_with(
    args: Seq<SArgument>,
    s: SSection,
    cc: CommandConfig,
    indent: Seq<char>,
    nested: Seq<char>,
) -> Seq<char> {
    let g = *cc.global;
    let lw = eff_line_width(cc) as nat;
    let maxp = eff_max_pargs(cc) as nat;
    match s.header {
        None => if s.args.len() > maxp {
            vertical_text(args, s.args, indent, g)
        } else {
            packed_text(args, s.args, indent, g, lw)
        },
        Some(h) => {
            let hd = cased(eff_keyword_case(cc), argument_text(args[h]));
            if s.args.len() == 0 {
                indent + hd + "\n"@
            } else if s.args.len() > maxp {
                indent + hd + "\n"@ + vertical_text(args, s.args, nested, g)
            } else {
                match section_inline(hd, args, s.args, indent.len(), g, lw) {
                    Some(line) => indent + line + "\n"@,
                    None => indent + hd + "\n"@ + packed_text(args, s.args, nested, g, lw),
                }
            }
        },
    }
}

/// One section of the vertical layout of a command at a block depth.
pub open spec fn section_text(args: Seq<SArgument>, s: SSection, cc: CommandConfig, depth: nat) -> Seq<char> {
    let indent = base_indent(cc, depth) + eff_indent(cc);
    section_text_with(args, s, cc, indent, indent + eff_indent(cc))
}

/// All sections of the vertical layout, in order.
pub open spec fn sections_text(args: Seq<SArgument>, secs: Seq<SSection>, cc: CommandConfig, depth: nat) -> Seq<char>
    decreases secs.len(),
{
    if secs.len() == 0 {
        Seq::empty()
    } else {
        sections_text(args, secs.drop_last(), cc, depth) + section_text(args, secs.last(), cc, depth)
    }
}

/// A text without one trailing newline.
pub open spec fn strip_newline(s: Seq<char>) -> Seq<char> {
    if s.len() > 0 && s.last() == '\n' {
        s.drop_last()
    } else {
        s
    }
}

/// Whether the text after the last newline holds a `#`.
pub open spec fn tail_has_hash(s: Seq<char>) -> bool {
    exists|j: int| 0 <= j < s.len() && s[j] == '#' && forall|k: int| j < k < s.len() ==> s[k] != '\n'
}

/// The vertical layout: `name(` on its own line, each section below it one
/// level deeper, and the closing paren dangling, on its own line after a
/// comment, or appended.
pub open spec fn vertical_cmd(cmd: SCommand, secs: Seq<SSection>, cc: CommandConfig, depth: nat) -> Seq<char> {
    let base = base_indent(cc, depth);
    let name = name_text(cc, cmd.name);
    let b = strip_newline(base + name + "(\n"@ + sections_text(cmd.arguments, secs, cc, depth));
    if eff_dangle_parens(cc) {
        b + "\n"@ + dangle_closer(cc, base, name)
    } else if tail_has_hash(strip_newline(b)) {
        b + "\n"@ + base + ")"@
    } else {
        b + ")"@
    }
}

fn last_line_has_comment(s: &str) -> (r: bool)
    ensures
        r == tail_has_hash(strip_newline(s@)),
{
    let v = chars_of(s);
    let mut end = v.len();
    if end > 0 && v[end - 1] == '\n' {
        end = end - 1;
    }
    let ghost t = strip_newline(s@);
    assert(t =~= v@.subrange(0, end as int));
    let mut i = end;
    while i > 0
        invariant
            i <= end <= v@.len(),
            t == strip_newline(s@),
            t == v@.subrange(0, end as int),
            forall|k: int| i <= k < end ==> v@[k] != '\n' && v@[k] != '#',
        decreases i,
    {
        let c = v[i - 1];
        if c == '\n' {
            assert(t[i - 1] == '\n');
            assert forall|j: int| 0 <= j < t.len() && t[j] == '#' implies !(forall|k: int| j < k < t.len() ==> t[k] != '\n') by {
                if j >= i {
                    assert(v@[j] == '#');
                }
                assert(j < i - 1);
            }
            return false;
        }
        if c == '#' {
            assert(t[i - 1] == '#');
            assert forall|k: int| i - 1 < k < t.len() implies t[k] != '\n' by {
                assert(v@[k] != '\n');
            }
            return true;
        }
        i -= 1;
    }
    assert forall|j: int| 0 <= j < t.len() implies t[j] != '#' by {
        assert(v@[j] != '#');
    }
    false
}

fn format_section(
    command: &CommandInvocation,
    section: &Section,
    cc: &CommandConfig,
    indent: &str,
    nested: &str,
) -> (r: String)
    requires
        sec_in(section@, command.arguments@.len() as int),
    ensures
        r@ == section_text_with(args_view(command.arguments@), section@, *cc, indent@, nested@),
{
    let ghost args = args_view(command.arguments@);
    proof {
        assert forall|m: int| 0 <= m < section.arguments@.len() implies #[trigger] section.arguments@[m] < command.arguments@.len() by {
            assert(section@.args[m] == section.arguments@[m] as int);
        }
    }
    let lw = cc.line_width();
    let maxp = cc.max_pargs_hwrap();
    match section.header {
        None => {
            if section.arguments.len() > maxp {
                write_vertical_arguments(command, &section.arguments, indent, cc.global)
            } else {
                write_packed_arguments(command, &section.arguments, indent, cc.global, lw)
            }
        },
        Some(h) => {
            assert(args[h as int] == command.arguments@[h as int]@);
            let header = apply_case(cc.keyword_case(), command.arguments[h].as_str());
            let mut out = owned(indent);
            if section.arguments.len() == 0 {
                push_str(&mut out, header.as_str());
                push_str(&mut out, "\n");
                return out;
            }
            if section.arguments.len() > maxp {
                push_str(&mut out, header.as_str());
                push_str(&mut out, "\n");
                push_str(&mut out, write_vertical_arguments(command, &section.arguments, nested, cc.global).as_str());
                return out;
            }
            match format_section_inline(header.as_str(), command, &section.arguments, char_count(indent), cc.global, lw) {
                Some(line) => {
                    push_str(&mut out, line.as_str());
                    push_str(&mut out, "\n");
                },
                None => {
                    push_str(&mut out, header.as_str());
                    push_str(&mut out, "\n");
                    push_str(&mut out, write_packed_arguments(command, &section.arguments, nested, cc.global, lw).as_str());
                },
            }
            out
        },
    }
}

fn format_command_vertical(
    command: &CommandInvocation,
    sections: &Vec<Section>,
    cc: &CommandConfig,
    block_depth: usize,
) -> (r: String)
    requires
        secs_in(secs_view(sections@), command.arguments@.len() as int),
    ensures
        r@ == vertical_cmd(command@, secs_view(sections@), *cc, block_depth as nat),
{
    let ghost args = args_view(command.arguments@);
    let ghost secs = secs_view(sections@);
    let unit = cc.indent_str();
    let base = repeat_str(unit.as_str(), block_depth);
    let mut indent = copy_string(&base);
    push_str(&mut indent, unit.as_str());
    let mut nested = copy_string(&indent);
    push_str(&mut nested, unit.as_str());
    let name = format_name(command, cc);
    let mut output = copy_string(&base);
    push_str(&mut output, name.as_str());
    push_str(&mut output, "(\n");
    let ghost head = output@;
    let mut k: usize = 0;
    assert(secs.subrange(0, 0) =~= Seq::<SSection>::empty());
    assert(output@ =~= head + sections_text(args, secs.subrange(0, 0), *cc, block_depth as nat));
    while k < sections.len()
        invariant
            k <= sections@.len(),
            args == args_view(command.arguments@),
            secs == secs_view(sections@),
            secs_in(secs, command.arguments@.len() as int),
            indent@ == base_indent(*cc, block_depth as nat) + eff_indent(*cc),
            nested@ == indent@ + eff_indent(*cc),
            output@ == head + sections_text(args, secs.subrange(0, k as int), *cc, block_depth as nat),
        decreases sections@.len() - k,
    {
        assert(secs[k as int] == sections@[k as int]@);
        assert(sec_in(secs[k as int], command.arguments@.len() as int));
        let piece = format_section(command, &sections[k], cc, indent.as_str(), nested.as_str());
        let ghost pre = output@;
        push_str(&mut output, piece.as_str());
        assert(secs.subrange(0, k + 1).drop_last() =~= secs.subrange(0, k as int));
        assert(secs.subrange(0, k + 1).last() == secs[k as int]);
        assert(output@ =~= head + sections_text(args, secs.subrange(0, k + 1), *cc, block_depth as nat));
        k += 1;
    }
    assert(secs.subrange(0, sections@.len() as int) =~= secs);
    let ghost body = output@;
    let n = char_count(output.as_str());
    if n > 0 && ends_with_newline(output.as_str()) {
        output = drop_last_char(output.as_str());
    }
    assert(output@ == strip_newline(body));
    if cc.dangle_parens() {
        push_str(&mut output, "\n");
        push_str(&mut output, closer_line(cc, base.as_str(), name.as_str()).as_str());
    } else if last_line_has_comment(output.as_str()) {
        push_str(&mut output, "\n");
        push_str(&mut output, base.as_str());
        push_str(&mut output, ")");
    } else {
        push_str(&mut output, ")");
    }
    output
}

pub(crate) fn ends_with_newline(s: &str) -> (r: bool)
    ensures
        r == (s@.len() > 0 && s@.last() == '\n'),
{
    let v = chars_of(s);
    v.len() > 0 && v[v.len() - 1] == '\n'
}

fn drop_last_char(s: &str) -> (r: String)
    requires
        s@.len() > 0,
    ensures
        r@ == s@.drop_last(),
{
    let v = chars_of(s);
    crate::text::string_of(&v, 0, v.len() - 1)
}

/// A line with its leading spaces turned into tabs of `ts` columns, the
/// remainder kept as spaces.
pub open spec fn tabify_line(line: Seq<char>, ts: nat) -> Seq<char> {
    let lead = lead_count(line, ' ');
    repeat_seq(seq!['\t'], lead / ts) + repeat_seq(seq![' '], lead % ts) + line.subrange(lead as int, line.len() as int)
}

/// Leading spaces of every line turned into tabs (nothing changes for a
/// tab size of 0).
pub open spec fn tabify(s: Seq<char>, ts: nat) -> Seq<char> {
    if ts == 0 {
        s
    } else {
        join(split_on(s, '\n').map_values(|l: Seq<char>| tabify_line(l, ts)), "\n"@)
    }
}

proof fn lemma_repeat_char_seq(c: char, n: nat)
    ensures
        repeat_seq(seq![c], n) =~= Seq::new(n, |_i: int| c),
    decreases n,
{
    if n > 0 {
        lemma_repeat_char_seq(c, (n - 1) as nat);
    }
}

/// Replace leading spaces with tab characters.
pub fn spaces_to_tabs(output: &str, tab_size: usize) -> (r: String)
    ensures
        r@ == tabify(output@, tab_size as nat),
{
    if tab_size == 0 {
        return owned(output);
    }
    let lines = split_char(output, '\n');
    let ghost ls = split_on(output@, '\n');
    let mut out: Vec<String> = Vec::new();
    let mut i: usize = 0;
    while i < lines.len()
        invariant
            i <= lines@.len(),
            tab_size > 0,
            lines@.map_values(|x: String| x@) == ls,
            strs(out@) == ls.subrange(0, i as int).map_values(|l: Seq<char>| tabify_line(l, tab_size as nat)),
        decreases lines@.len() - i,
    {
        let v = chars_of(lines[i].as_str());
        assert(v@ == ls[i as int]);
        let lead = count_lead(&v, ' ');
        let tabs = repeat_char('\t', lead / tab_size);
        let mut line = tabs;
        push_str(&mut line, repeat_char(' ', lead % tab_size).as_str());
        push_str(&mut line, crate::text::string_of(&v, lead, v.len()).as_str());
        proof {
            lemma_repeat_char_seq('\t', (lead / tab_size) as nat);
            lemma_repeat_char_seq(' ', (lead % tab_size) as nat);
        }
        let ghost pre = strs(out@);
        out.push(line);
        assert(ls.subrange(0, i + 1).map_values(|l: Seq<char>| tabify_line(l, tab_size as nat)) =~= ls.subrange(0, i as int).map_values(|l: Seq<char>| tabify_line(l, tab_size as nat)).push(tabify_line(ls[i as int], tab_size as nat)));
        assert(strs(out@) =~= pre.push(line@));
        i += 1;
    }
    assert(ls.subrange(0, ls.len() as int) =~= ls);
    crate::text::join_strings(&out, "\n")
}

// ── Command formatting ──────────────────────────────────────────────────────

/// The text of the first argument from `i` on that is not a comment.
pub open spec fn first_arg_from(args: Seq<SArgument>, i: int) -> Option<Seq<char>>
    decreases args.len() - i,
{
    if i < 0 || i >= args.len() {
        None
    } else if args[i] is InlineComment {
        first_arg_from(args, i + 1)
    } else {
        Some(argument_text(args[i]))
    }
}

/// The text of a command's first argument that is not a comment.
pub open spec fn first_arg_text(args: Seq<SArgument>) -> Option<Seq<char>> {
    first_arg_from(args, 0)
}

fn first_argument(command: &CommandInvocation) -> (r: Option<&str>)
    ensures
        opt_text(r) == first_arg_text(command@.arguments),
{
    let ghost args = args_view(command.arguments@);
    let mut i: usize = 0;
    while i < command.arguments.len()
        invariant
            i <= command.arguments@.len(),
            args == args_view(command.arguments@),
            first_arg_from(args, i as int) == first_arg_text(args),
        decreases command.arguments@.len() - i,
    {
        assert(args[i as int] == command.arguments@[i as int]@);
        if !command.arguments[i].is_comment() {
            return Some(command.arguments[i].as_str());
        }
        i += 1;
    }
    None
}

/// The configuration a command is formatted with.
pub open spec fn resolved_config(config: &Config, name: Seq<char>) -> CommandConfig {
    CommandConfig {
        global: config,
        per_cmd: lookup_override(config.per_command_overrides@, lower_seq(name)),
        space_before_paren: if is_control_flow_command(lower_seq(name)) {
            config.separate_ctrl_name_with_space
        } else if is_fn_definition_command(lower_seq(name)) {
            config.separate_fn_name_with_space
        } else {
            false
        },
    }
}

/// The first layout that applies: inline, then hanging wrap, then vertical.
pub open spec fn layout(
    cmd: SCommand,
    secs: Seq<SSection>,
    cc: CommandConfig,
    depth: nat,
    line_width: nat,
) -> Seq<char> {
    match try_inline(cmd, secs, cc, depth, line_width) {
        Some(t) => t,
        None => match try_hanging(cmd, secs, cc, depth, line_width) {
            Some(t) => t,
            None => vertical_cmd(cmd, secs, cc, depth),
        },
    }
}

/// A command formatted at a block depth under a configuration, with the
/// command spec its name selects.
pub open spec fn formatted_command(cmd: SCommand, config: &Config, spec: CommandSpec, depth: nat) -> Seq<char> {
    let cc = resolved_config(config, cmd.name);
    let form = selected_form(spec, first_arg_text(cmd.arguments));
    let secs = sections_of(cmd.arguments, form);
    let out = layout(cmd, secs, cc, depth, config.line_width as nat);
    if config.use_tabchars {
        tabify(out, eff_tab_size(cc) as nat)
    } else {
        out
    }
}

proof fn lemma_selected_same(s1: CommandSpec, s2: CommandSpec, first: Option<Seq<char>>)
    requires
        spec_model(s1) == spec_model(s2),
    ensures
        form_model(selected_form(s1, first)) == form_model(selected_form(s2, first)),
{
    match (s1, s2) {
        (
            CommandSpec::Discriminated { forms: a, fallback: fa },
            CommandSpec::Discriminated { forms: b, fallback: fb },
        ) => {
            let (a, b) = (a@, b@);
            assert(forms_model(a) == forms_model(b));
            assert(forms_model(a).len() == a.len() && forms_model(b).len() == b.len());
            assert forall|j: int| 0 <= j < a.len() implies #[trigger] a[j].0@ == b[j].0@ by {
                assert(forms_model(a)[j] == forms_model(b)[j]);
            }
            let key = match first {
                Some(k) => k,
                None => Seq::<char>::empty(),
            };
            crate::spec::lemma_key_index_same_keys(a, b, key);
            crate::spec::lemma_key_index_same_keys(a, b, crate::text::upper_seq(key));
            crate::spec::lemma_key_index_bounds(a, key);
            crate::spec::lemma_key_index_bounds(a, crate::text::upper_seq(key));
            if let Some(i) = token_index(a, key) {
                assert(forms_model(a)[i] == forms_model(b)[i]);
            }
            if a.len() > 0 {
                assert(forms_model(a)[0] == forms_model(b)[0]);
            } else {
                assert(a =~= b);
            }
        },
        _ => {},
    }
}

/// A command's layout depends on its spec only through the spec's value:
/// two specs with the same model lay it out alike.
pub proof fn lemma_formatted_command_same(cmd: SCommand, config: Config, s1: CommandSpec, s2: CommandSpec, depth: nat)
    requires
        spec_model(s1) == spec_model(s2),
    ensures
        formatted_command(cmd, &config, s1, depth) == formatted_command(cmd, &config, s2, depth),
{
    let first = first_arg_text(cmd.arguments);
    lemma_selected_same(s1, s2, first);
    lemma_split_same(cmd.arguments, selected_form(s1, first), selected_form(s2, first), 0, Seq::empty());
}

/// Format a single parsed command invocation.
///
/// The formatter chooses between inline, hanging-wrap, and vertical layouts
/// using command specs from the registry plus the effective per-command
/// configuration.
pub fn format_command(
    command: &CommandInvocation,
    config: &Config,
    registry: &CommandRegistry,
    block_depth: usize,
) -> (r: Result<String, Error>)
    ensures
        r matches Ok(s) && s@ == formatted_command(
            command@,
            config,
            registry.lookup(command.name@),
            block_depth as nat,
        ),
{
    let cc = config.for_command(command.name.as_str());
    assert(cc == resolved_config(config, command.name@));
    let spec = registry.get(command.name.as_str());
    let first_arg = first_argument(command);
    let form = spec.form_for(first_arg);
    let sections = split_sections(command, form);
    let output = match try_format_inline(command, &sections, &cc, block_depth, config.line_width) {
        Some(inline) => inline,
        None => match try_format_hanging(command, &sections, &cc, block_depth, config.line_width) {
            Some(hanging) => hanging,
            None => format_command_vertical(command, &sections, &cc, block_depth),
        },
    };
    if config.use_tabchars {
        Ok(spaces_to_tabs(output.as_str(), cc.tab_size()))
    } else {
        Ok(output)
    }
}

// ── Formatting decisions ────────────────────────────────────────────────────

/// Which layout a command takes.
#[derive(Debug, Clone, Copy, PartialEq, Eq, Structural)]
pub enum LayoutKind {
    Inline,
    Hanging,
    Vertical,
}

/// Which layout applies: inline, then hanging wrap, then vertical.
pub open spec fn layout_kind(cmd: SCommand, secs: Seq<SSection>, cc: CommandConfig, depth: nat, line_width: nat) -> LayoutKind {
    if try_inline(cmd, secs, cc, depth, line_width) is Some {
        LayoutKind::Inline
    } else if try_hanging(cmd, secs, cc, depth, line_width) is Some {
        LayoutKind::Hanging
    } else {
        LayoutKind::Vertical
    }
}

/// How a spec selected its form for a first argument: `single`,
/// `discriminated:` and the key, `fallback:` or `first-form:` and the
/// argument (`<none>` without one).
pub open spec fn selected_form_text(spec: CommandSpec, first_arg: Option<Seq<char>>) -> Seq<char> {
    match spec {
        CommandSpec::Single(_) => "single"@,
        CommandSpec::Discriminated { forms, fallback } => match first_arg {
            Some(t) => if crate::spec::key_index(forms@, t) is Some {
                "discriminated:"@ + t
            } else if crate::spec::key_index(forms@, crate::text::upper_seq(t)) is Some {
                "discriminated:"@ + crate::text::upper_seq(t)
            } else if fallback is Some {
                "fallback:"@ + t
            } else {
                "first-form:"@ + t
            },
            None => if fallback is Some {
                "fallback:<none>"@
            } else {
                "first-form:<none>"@
            },
        },
    }
}

fn describe_selected_form(spec: &CommandSpec, first_arg: Option<&str>) -> (r: String)
    ensures
        r@ == selected_form_text(*spec, opt_text(first_arg)),
{
    match spec {
        CommandSpec::Single(_) => owned("single"),
        CommandSpec::Discriminated { forms, fallback } => match first_arg {
            Some(token) => {
                if crate::spec::find_key(forms, token).is_some() {
                    let mut s = owned("discriminated:");
                    push_str(&mut s, token);
                    s
                } else {
                    let normalized = crate::text::to_upper(token);
                    if crate::spec::find_key(forms, normalized.as_str()).is_some() {
                        let mut s = owned("discriminated:");
                        push_str(&mut s, normalized.as_str());
                        s
                    } else if fallback.is_some() {
                        let mut s = owned("fallback:");
                        push_str(&mut s, token);
                        s
                    } else {
                        let mut s = owned("first-form:");
                        push_str(&mut s, token);
                        s
                    }
                }
            },
            None => if fallback.is_some() {
                owned("fallback:<none>")
            } else {
                owned("first-form:<none>")
            },
        },
    }
}

/// `true` or `false`.
pub open spec fn bool_word(b: bool) -> Seq<char> {
    if b {
        "true"@
    } else {
        "false"@
    }
}

/// The number of arguments of the first section without a header.
pub open spec fn positional_count(secs: Seq<SSection>) -> nat
    decreases secs.len(),
{
    if secs.len() == 0 {
        0
    } else if secs[0].header is None {
        secs[0].args.len()
    } else {
        positional_count(secs.drop_first())
    }
}

/// The two lines that say how a command was formatted: its form and
/// effective configuration, then its layout and the thresholds behind it.
pub open spec fn command_decisions(cmd: SCommand, config: &Config, spec: CommandSpec, depth: nat) -> Seq<Seq<char>> {
    let cc = resolved_config(config, cmd.name);
    let fa = first_arg_text(cmd.arguments);
    let secs = sections_of(cmd.arguments, selected_form(spec, fa));
    let lead = "formatter: command "@ + cmd.name;
    let lw = crate::text::decimal(eff_line_width(cc) as nat);
    let hl = crate::text::decimal(config.max_lines_hwrap as nat);
    let hp = crate::text::decimal(eff_max_pargs(cc) as nat);
    let hg = crate::text::decimal(crate::config::eff_max_subgroups(cc) as nat);
    let head = lead + " form="@ + selected_form_text(spec, fa) + " first_arg="@ + match fa {
        Some(t) => t,
        None => "<none>"@,
    } + " effective_config(line_width="@ + lw + ", tab_size="@ + crate::text::decimal(eff_tab_size(cc) as nat)
        + ", dangle_parens="@ + bool_word(eff_dangle_parens(cc)) + ", max_hanging_wrap_lines="@ + hl
        + ", max_hanging_wrap_positional_args="@ + hp + ", max_hanging_wrap_groups="@ + hg + ")"@;
    let second = match layout_kind(cmd, secs, cc, depth, config.line_width as nat) {
        LayoutKind::Inline => lead + " layout=inline sections="@ + crate::text::decimal(secs.len())
            + " positional_args="@ + crate::text::decimal(positional_count(secs)),
        LayoutKind::Hanging => lead + " layout=hanging-wrap thresholds(line_width="@ + lw
            + ", max_hanging_wrap_lines="@ + hl + ", max_hanging_wrap_positional_args="@ + hp + ")"@,
        LayoutKind::Vertical => lead + " layout=vertical thresholds(line_width="@ + lw
            + ", max_hanging_wrap_lines="@ + hl + ", max_hanging_wrap_positional_args="@ + hp
            + ", max_hanging_wrap_groups="@ + hg + ")"@,
    };
    seq![head, second]
}

fn positional_args(sections: &Vec<Section>) -> (r: usize)
    ensures
        r as nat == positional_count(secs_view(sections@)),
{
    let ghost sv = secs_view(sections@);
    let mut i: usize = 0;
    assert(sv.subrange(0, sv.len() as int) =~= sv);
    while i < sections.len()
        invariant
            i <= sections@.len(),
            sv == secs_view(sections@),
            sv.len() == sections@.len(),
            positional_count(sv) == positional_count(sv.subrange(i as int, sv.len() as int)),
        decreases sections@.len() - i,
    {
        let ghost rest = sv.subrange(i as int, sv.len() as int);
        assert(rest.drop_first() =~= sv.subrange(i + 1, sv.len() as int));
        assert(rest[0] == sections@[i as int]@);
        if sections[i].header.is_none() {
            return sections[i].arguments.len();
        }
        i += 1;
    }
    assert(sv.subrange(sv.len() as int, sv.len() as int) =~= Seq::<SSection>::empty());
    0
}

fn decision_head(
    name: &str,
    form_text: &str,
    first_arg: Option<&str>,
    cc: &CommandConfig,
    max_lines: usize,
) -> (r: String)
    ensures
        r@ == "formatter: command "@ + name@ + " form="@ + form_text@ + " first_arg="@ + match opt_text(first_arg) {
            Some(t) => t,
            None => "<none>"@,
        } + " effective_config(line_width="@ + crate::text::decimal(eff_line_width(*cc) as nat) + ", tab_size="@
            + crate::text::decimal(eff_tab_size(*cc) as nat) + ", dangle_parens="@ + bool_word(eff_dangle_parens(*cc))
            + ", max_hanging_wrap_lines="@ + crate::text::decimal(max_lines as nat)
            + ", max_hanging_wrap_positional_args="@ + crate::text::decimal(eff_max_pargs(*cc) as nat)
            + ", max_hanging_wrap_groups="@ + crate::text::decimal(crate::config::eff_max_subgroups(*cc) as nat) + ")"@,
{
    let mut s = owned("formatter: command ");
    push_str(&mut s, name);
    push_str(&mut s, " form=");
    push_str(&mut s, form_text);
    push_str(&mut s, " first_arg=");
    match first_arg {
        Some(t) => push_str(&mut s, t),
        None => push_str(&mut s, "<none>"),
    }
    push_str(&mut s, " effective_config(line_width=");
    push_str(&mut s, crate::text::usize_to_string(cc.line_width()).as_str());
    push_str(&mut s, ", tab_size=");
    push_str(&mut s, crate::text::usize_to_string(cc.tab_size()).as_str());
    push_str(&mut s, ", dangle_parens=");
    push_str(&mut s, if cc.dangle_parens() { "true" } else { "false" });
    push_str(&mut s, ", max_hanging_wrap_lines=");
    push_str(&mut s, crate::text::usize_to_string(max_lines).as_str());
    push_str(&mut s, ", max_hanging_wrap_positional_args=");
    push_str(&mut s, crate::text::usize_to_string(cc.max_pargs_hwrap()).as_str());
    push_str(&mut s, ", max_hanging_wrap_groups=");
    push_str(&mut s, crate::text::usize_to_string(cc.max_subgroups_hwrap()).as_str());
    push_str(&mut s, ")");
    s
}

fn decision_layout(
    name: &str,
    kind: LayoutKind,
    sections: usize,
    positional: usize,
    cc: &CommandConfig,
    max_lines: usize,
) -> (r: String)
    ensures
        r@ == {
            let lead = "formatter: command "@ + name@;
            let lw = crate::text::decimal(eff_line_width(*cc) as nat);
            let hl = crate::text::decimal(max_lines as nat);
            let hp = crate::text::decimal(eff_max_pargs(*cc) as nat);
            let hg = crate::text::decimal(crate::config::eff_max_subgroups(*cc) as nat);
            match kind {
                LayoutKind::Inline => lead + " layout=inline sections="@ + crate::text::decimal(sections as nat)
                    + " positional_args="@ + crate::text::decimal(positional as nat),
                LayoutKind::Hanging => lead + " layout=hanging-wrap thresholds(line_width="@ + lw
                    + ", max_hanging_wrap_lines="@ + hl + ", max_hanging_wrap_positional_args="@ + hp + ")"@,
                LayoutKind::Vertical => lead + " layout=vertical thresholds(line_width="@ + lw
                    + ", max_hanging_wrap_lines="@ + hl + ", max_hanging_wrap_positional_args="@ + hp
                    + ", max_hanging_wrap_groups="@ + hg + ")"@,
            }
        },
{
    let mut s = owned("formatter: command ");
    push_str(&mut s, name);
    match kind {
        LayoutKind::Inline => {
            push_str(&mut s, " layout=inline sections=");
            push_str(&mut s, crate::text::usize_to_string(sections).as_str());
            push_str(&mut s, " positional_args=");
            push_str(&mut s, crate::text::usize_to_string(positional).as_str());
        },
        LayoutKind::Hanging => {
            push_str(&mut s, " layout=hanging-wrap thresholds(line_width=");
            push_str(&mut s, crate::text::usize_to_string(cc.line_width()).as_str());
            push_str(&mut s, ", max_hanging_wrap_lines=");
            push_str(&mut s, crate::text::usize_to_string(max_lines).as_str());
            push_str(&mut s, ", max_hanging_wrap_positional_args=");
            push_str(&mut s, crate::text::usize_to_string(cc.max_pargs_hwrap()).as_str());
            push_str(&mut s, ")");
        },
        LayoutKind::Vertical => {
            push_str(&mut s, " layout=vertical thresholds(line_width=");
            push_str(&mut s, crate::text::usize_to_string(cc.line_width()).as_str());
            push_str(&mut s, ", max_hanging_wrap_lines=");
            push_str(&mut s, crate::text::usize_to_string(max_lines).as_str());
            push_str(&mut s, ", max_hanging_wrap_positional_args=");
            push_str(&mut s, crate::text::usize_to_string(cc.max_pargs_hwrap()).as_str());
            push_str(&mut s, ", max_hanging_wrap_groups=");
            push_str(&mut s, crate::text::usize_to_string(cc.max_subgroups_hwrap()).as_str());
            push_str(&mut s, ")");
        },
    }
    s
}

/// Format a command and say how: the formatted text and the two lines of
/// [`command_decisions`].
pub fn format_command_debug(
    command: &CommandInvocation,
    config: &Config,
    registry: &CommandRegistry,
    block_depth: usize,
) -> (r: Result<(String, Vec<String>), Error>)
    ensures
        r matches Ok((s, lines)) && s@ == formatted_command(
            command@,
            config,
            registry.lookup(command.name@),
            block_depth as nat,
        ) && strs(lines@) == command_decisions(command@, config, registry.lookup(command.name@), block_depth as nat),
{
    let cc = config.for_command(command.name.as_str());
    assert(cc == resolved_config(config, command.name@));
    let spec = registry.get(command.name.as_str());
    let first_arg = first_argument(command);
    let form = spec.form_for(first_arg);
    let sections = split_sections(command, form);
    let (output, kind) = match try_format_inline(command, &sections, &cc, block_depth, config.line_width) {
        Some(inline) => (inline, LayoutKind::Inline),
        None => match try_format_hanging(command, &sections, &cc, block_depth, config.line_width) {
            Some(hanging) => (hanging, LayoutKind::Hanging),
            None => (format_command_vertical(command, &sections, &cc, block_depth), LayoutKind::Vertical),
        },
    };
    let form_text = describe_selected_form(spec, first_arg);
    let head = decision_head(command.name.as_str(), form_text.as_str(), first_arg, &cc, config.max_lines_hwrap);
    let positional = positional_args(&sections);
    let second = decision_layout(command.name.as_str(), kind, sections.len(), positional, &cc, config.max_lines_hwrap);
    let mut lines: Vec<String> = Vec::new();
    lines.push(head);
    lines.push(second);
    assert(strs(lines@) =~= command_decisions(command@, config, registry.lookup(command.name@), block_depth as nat));
    let text = if config.use_tabchars {
        spaces_to_tabs(output.as_str(), cc.tab_size())
    } else {
        output
    };
    Ok((text, lines))
}

// ── Laws ────────────────────────────────────────────────────────────────────

/// The inline layout is chosen only when the whole command fits the line
/// width.
pub proof fn lemma_inline_fits(cmd: SCommand, secs: Seq<SSection>, cc: CommandConfig, depth: nat, line_width: nat)
    ensures
        try_inline(cmd, secs, cc, depth, line_width) matches Some(t) ==> t.len() <= line_width,
{
}

proof fn lemma_pack_from_lines(
    prefix: Seq<char>,
    cont: Seq<char>,
    tokens: Seq<Seq<char>>,
    line_width: nat,
    max_lines: nat,
    cond: bool,
    i: int,
    lines: Seq<Seq<char>>,
)
    requires
        1 <= lines.len(),
        lines.len() <= max_lines || lines.len() == 1,
    ensures
        pack_from(prefix, cont, tokens, line_width, max_lines, cond, i, lines) matches Some(ls) ==> 1 <= ls.len()
            && (ls.len() <= max_lines || ls.len() == 1),
    decreases tokens.len() - i,
{
    if 0 <= i < tokens.len() {
        match pack_step(prefix, cont, line_width, max_lines, cond, lines, tokens[i]) {
            Some(next) => lemma_pack_from_lines(prefix, cont, tokens, line_width, max_lines, cond, i + 1, next),
            None => {},
        }
    }
}

/// A hanging wrap never takes more lines than the configured maximum (and
/// always at least one).
pub proof fn lemma_hanging_line_budget(
    prefix: Seq<char>,
    cont: Seq<char>,
    tokens: Seq<Seq<char>>,
    line_width: nat,
    max_lines: nat,
    cond: bool,
)
    ensures
        pack(prefix, cont, tokens, line_width, max_lines, cond) matches Some(ls) ==> 1 <= ls.len() && (ls.len()
            <= max_lines || ls.len() == 1),
{
    lemma_pack_from_lines(prefix, cont, tokens, line_width, max_lines, cond, 0, seq![prefix]);
}

/// Leading spaces become tabs only at the start of lines: with a tab size
/// of 0 the text is unchanged.
pub proof fn lemma_tabify_zero_is_identity(s: Seq<char>)
    ensures
        tabify(s, 0) == s,
{
}

} // verus!
