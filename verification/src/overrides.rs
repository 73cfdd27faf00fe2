//! User overrides of command specs: normalising an override file (ASCII
//! case of names, keywords and flags; a repeated key keeps its first place
//! and takes the later value) and merging it into command specs (a keyword
//! or form that exists is merged, a new one is added at the end, flags are
//! added once).

use vstd::prelude::*;
use crate::spec::{
    CommandForm, CommandFormOverride, CommandSpec, CommandSpecOverride, KwargSpec, KwargSpecOverride,
    LayoutOverrides, LayoutOverridesOverride, NArgs, SpecOverrideFile,
};
use crate::text::{lower_seq, strs, upper_seq};

verus! {

broadcast use vstd::string::group_string_axioms;

// ── Models ──────────────────────────────────────────────────────────────────

/// A keyword spec as values.
pub struct KwargModel {
    pub nargs: NArgs,
    pub kwargs: Seq<(Seq<char>, KwargModel)>,
    pub flags: Seq<Seq<char>>,
}

/// A keyword override as values.
pub struct KwargOverrideModel {
    pub nargs: Option<NArgs>,
    pub kwargs: Seq<(Seq<char>, KwargOverrideModel)>,
    pub flags: Seq<Seq<char>>,
}

/// A command form as values.
pub struct FormModel {
    pub pargs: NArgs,
    pub kwargs: Seq<(Seq<char>, KwargModel)>,
    pub flags: Seq<Seq<char>>,
    pub layout: Option<LayoutOverrides>,
}

/// A command form override as values.
pub struct FormOverrideModel {
    pub pargs: Option<NArgs>,
    pub kwargs: Seq<(Seq<char>, KwargOverrideModel)>,
    pub flags: Seq<Seq<char>>,
    pub layout: Option<LayoutOverridesOverride>,
}

/// A command spec as values.
pub enum SpecModel {
    Single(FormModel),
    Discriminated { forms: Seq<(Seq<char>, FormModel)>, fallback: Option<FormModel> },
}

/// A command spec override as values.
pub enum SpecOverrideModel {
    Single(FormOverrideModel),
    Discriminated { forms: Seq<(Seq<char>, FormOverrideModel)>, fallback: Option<FormOverrideModel> },
}

pub open spec fn kwarg_model(k: KwargSpec) -> KwargModel
    decreases k,
{
    KwargModel { nargs: k.nargs, kwargs: kwargs_model(k.kwargs@), flags: strs(k.flags@) }
}

pub open spec fn kwargs_model(s: Seq<(String, KwargSpec)>) -> Seq<(Seq<char>, KwargModel)>
    decreases s,
{
    if s.len() == 0 {
        Seq::empty()
    } else {
        kwargs_model(s.drop_last()).push((s.last().0@, kwarg_model(s.last().1)))
    }
}

pub open spec fn kwarg_override_model(k: KwargSpecOverride) -> KwargOverrideModel
    decreases k,
{
    KwargOverrideModel { nargs: k.nargs, kwargs: kwarg_overrides_model(k.kwargs@), flags: strs(k.flags@) }
}

pub open spec fn kwarg_overrides_model(s: Seq<(String, KwargSpecOverride)>) -> Seq<(Seq<char>, KwargOverrideModel)>
    decreases s,
{
    if s.len() == 0 {
        Seq::empty()
    } else {
        kwarg_overrides_model(s.drop_last()).push((s.last().0@, kwarg_override_model(s.last().1)))
    }
}

pub open spec fn form_model(f: CommandForm) -> FormModel {
    FormModel { pargs: f.pargs, kwargs: kwargs_model(f.kwargs@), flags: strs(f.flags@), layout: f.layout }
}

pub open spec fn form_override_model(f: CommandFormOverride) -> FormOverrideModel {
    FormOverrideModel {
        pargs: f.pargs,
        kwargs: kwarg_overrides_model(f.kwargs@),
        flags: strs(f.flags@),
        layout: f.layout,
    }
}

pub open spec fn forms_model(s: Seq<(String, CommandForm)>) -> Seq<(Seq<char>, FormModel)> {
    s.map_values(|e: (String, CommandForm)| (e.0@, form_model(e.1)))
}

pub open spec fn form_overrides_model(s: Seq<(String, CommandFormOverride)>) -> Seq<(Seq<char>, FormOverrideModel)> {
    s.map_values(|e: (String, CommandFormOverride)| (e.0@, form_override_model(e.1)))
}

pub open spec fn opt_form_model(f: Option<CommandForm>) -> Option<FormModel> {
    match f {
        Some(x) => Some(form_model(x)),
        None => None,
    }
}

pub open spec fn opt_form_override_model(f: Option<CommandFormOverride>) -> Option<FormOverrideModel> {
    match f {
        Some(x) => Some(form_override_model(x)),
        None => None,
    }
}

pub open spec fn spec_model(s: CommandSpec) -> SpecModel {
    match s {
        CommandSpec::Single(f) => SpecModel::Single(form_model(f)),
        CommandSpec::Discriminated { forms, fallback } => SpecModel::Discriminated {
            forms: forms_model(forms@),
            fallback: opt_form_model(fallback),
        },
    }
}

pub open spec fn spec_override_model(s: CommandSpecOverride) -> SpecOverrideModel {
    match s {
        CommandSpecOverride::Single(f) => SpecOverrideModel::Single(form_override_model(f)),
        CommandSpecOverride::Discriminated { forms, fallback } => SpecOverrideModel::Discriminated {
            forms: form_overrides_model(forms@),
            fallback: opt_form_override_model(fallback),
        },
    }
}

pub open spec fn commands_model(s: Seq<(String, CommandSpec)>) -> Seq<(Seq<char>, SpecModel)> {
    s.map_values(|e: (String, CommandSpec)| (e.0@, spec_model(e.1)))
}

pub open spec fn command_overrides_model(s: Seq<(String, CommandSpecOverride)>) -> Seq<(Seq<char>, SpecOverrideModel)> {
    s.map_values(|e: (String, CommandSpecOverride)| (e.0@, spec_override_model(e.1)))
}

// ── Keyed collections ───────────────────────────────────────────────────────

/// Position of the first entry with a key.
pub open spec fn key_pos<V>(s: Seq<(Seq<char>, V)>, k: Seq<char>) -> Option<int>
    decreases s.len(),
{
    if s.len() == 0 {
        None
    } else if s.last().0 == k && key_pos(s.drop_last(), k) is None {
        Some(s.len() - 1)
    } else {
        key_pos(s.drop_last(), k)
    }
}

/// Insertion into an ordered map: an existing key keeps its place and takes
/// the new value; a new key goes at the end.
pub open spec fn keyed_put<V>(s: Seq<(Seq<char>, V)>, k: Seq<char>, v: V) -> Seq<(Seq<char>, V)> {
    match key_pos(s, k) {
        Some(i) => s.update(i, (k, v)),
        None => s.push((k, v)),
    }
}

/// Insertion into an ordered set: an element already there stays where it is.
pub open spec fn set_insert(s: Seq<Seq<char>>, x: Seq<char>) -> Seq<Seq<char>> {
    if s.contains(x) {
        s
    } else {
        s.push(x)
    }
}

/// The elements of `add` inserted one by one into the ordered set `s`.
pub open spec fn set_union(s: Seq<Seq<char>>, add: Seq<Seq<char>>) -> Seq<Seq<char>>
    decreases add.len(),
{
    if add.len() == 0 {
        s
    } else {
        set_union(set_insert(s, add[0]), add.drop_first())
    }
}

/// Flags in ASCII uppercase, each once, in first-seen order.
pub open spec fn upper_flags(add: Seq<Seq<char>>) -> Seq<Seq<char>> {
    set_union(Seq::empty(), add.map_values(|f: Seq<char>| upper_seq(f)))
}

/// Layout values of an override where it sets them, else the base ones.
pub open spec fn merged_layout(b: LayoutOverrides, o: LayoutOverridesOverride) -> LayoutOverrides {
    LayoutOverrides {
        line_width: if o.line_width is Some { o.line_width } else { b.line_width },
        tab_size: if o.tab_size is Some { o.tab_size } else { b.tab_size },
        dangle_parens: if o.dangle_parens is Some { o.dangle_parens } else { b.dangle_parens },
        always_wrap: if o.always_wrap is Some { o.always_wrap } else { b.always_wrap },
        max_pargs_hwrap: if o.max_pargs_hwrap is Some { o.max_pargs_hwrap } else { b.max_pargs_hwrap },
    }
}

/// The layout block an override sets.
pub open spec fn full_layout(o: LayoutOverridesOverride) -> LayoutOverrides {
    LayoutOverrides {
        line_width: o.line_width,
        tab_size: o.tab_size,
        dangle_parens: o.dangle_parens,
        always_wrap: o.always_wrap,
        max_pargs_hwrap: o.max_pargs_hwrap,
    }
}

/// A layout with no values set.
pub open spec fn empty_layout() -> LayoutOverrides {
    LayoutOverrides { line_width: None, tab_size: None, dangle_parens: None, always_wrap: None, max_pargs_hwrap: None }
}

pub open spec fn or_nargs(o: Option<NArgs>, d: NArgs) -> NArgs {
    match o {
        Some(n) => n,
        None => d,
    }
}

// ── Full specs from overrides ───────────────────────────────────────────────

/// The keyword spec an override describes on its own: unset counts are
/// "any number", keywords and flags in ASCII uppercase.
pub open spec fn full_kwarg(o: KwargOverrideModel) -> KwargModel
    decreases o,
{
    KwargModel {
        nargs: or_nargs(o.nargs, NArgs::ZeroOrMore),
        kwargs: full_kwargs(o.kwargs, Seq::empty()),
        flags: upper_flags(o.flags),
    }
}

/// The entries of `o` converted and inserted one by one into `acc`.
pub open spec fn full_kwargs(
    o: Seq<(Seq<char>, KwargOverrideModel)>,
    acc: Seq<(Seq<char>, KwargModel)>,
) -> Seq<(Seq<char>, KwargModel)>
    decreases o,
{
    if o.len() == 0 {
        acc
    } else {
        full_kwargs(o.drop_first(), keyed_put(acc, upper_seq(o[0].0), full_kwarg(o[0].1)))
    }
}

/// The form an override describes on its own.
pub open spec fn full_form(o: FormOverrideModel) -> FormModel {
    FormModel {
        pargs: or_nargs(o.pargs, NArgs::ZeroOrMore),
        kwargs: full_kwargs(o.kwargs, Seq::empty()),
        flags: upper_flags(o.flags),
        layout: match o.layout {
            Some(l) => Some(full_layout(l)),
            None => None,
        },
    }
}

/// The forms of `o` converted and inserted one by one into `acc`, under
/// uppercase discriminators.
pub open spec fn full_forms(
    o: Seq<(Seq<char>, FormOverrideModel)>,
    acc: Seq<(Seq<char>, FormModel)>,
) -> Seq<(Seq<char>, FormModel)>
    decreases o.len(),
{
    if o.len() == 0 {
        acc
    } else {
        full_forms(o.drop_first(), keyed_put(acc, upper_seq(o[0].0), full_form(o[0].1)))
    }
}

/// The spec an override describes on its own.
pub open spec fn full_spec(o: SpecOverrideModel) -> SpecModel {
    match o {
        SpecOverrideModel::Single(f) => SpecModel::Single(full_form(f)),
        SpecOverrideModel::Discriminated { forms, fallback } => SpecModel::Discriminated {
            forms: full_forms(forms, Seq::empty()),
            fallback: match fallback {
                Some(f) => Some(full_form(f)),
                None => None,
            },
        },
    }
}

// ── Normalised overrides ────────────────────────────────────────────────────

/// A keyword override with keywords and flags in ASCII uppercase.
pub open spec fn norm_kwarg(o: KwargOverrideModel) -> KwargOverrideModel
    decreases o,
{
    KwargOverrideModel { nargs: o.nargs, kwargs: norm_kwargs(o.kwargs, Seq::empty()), flags: upper_flags(o.flags) }
}

/// The entries of `o` normalised and inserted one by one into `acc`.
pub open spec fn norm_kwargs(
    o: Seq<(Seq<char>, KwargOverrideModel)>,
    acc: Seq<(Seq<char>, KwargOverrideModel)>,
) -> Seq<(Seq<char>, KwargOverrideModel)>
    decreases o,
{
    if o.len() == 0 {
        acc
    } else {
        norm_kwargs(o.drop_first(), keyed_put(acc, upper_seq(o[0].0), norm_kwarg(o[0].1)))
    }
}

/// A form override with keywords and flags in ASCII uppercase.
pub open spec fn norm_form(o: FormOverrideModel) -> FormOverrideModel {
    FormOverrideModel { kwargs: norm_kwargs(o.kwargs, Seq::empty()), flags: upper_flags(o.flags), ..o }
}

/// The forms of `o` normalised and inserted one by one into `acc`.
pub open spec fn norm_forms(
    o: Seq<(Seq<char>, FormOverrideModel)>,
    acc: Seq<(Seq<char>, FormOverrideModel)>,
) -> Seq<(Seq<char>, FormOverrideModel)>
    decreases o.len(),
{
    if o.len() == 0 {
        acc
    } else {
        norm_forms(o.drop_first(), keyed_put(acc, upper_seq(o[0].0), norm_form(o[0].1)))
    }
}

/// A spec override normalised.
pub open spec fn norm_spec(o: SpecOverrideModel) -> SpecOverrideModel {
    match o {
        SpecOverrideModel::Single(f) => SpecOverrideModel::Single(norm_form(f)),
        SpecOverrideModel::Discriminated { forms, fallback } => SpecOverrideModel::Discriminated {
            forms: norm_forms(forms, Seq::empty()),
            fallback: match fallback {
                Some(f) => Some(norm_form(f)),
                None => None,
            },
        },
    }
}

/// The command overrides normalised: names in ASCII lowercase, each once.
pub open spec fn norm_commands(
    o: Seq<(Seq<char>, SpecOverrideModel)>,
    acc: Seq<(Seq<char>, SpecOverrideModel)>,
) -> Seq<(Seq<char>, SpecOverrideModel)>
    decreases o.len(),
{
    if o.len() == 0 {
        acc
    } else {
        norm_commands(o.drop_first(), keyed_put(acc, lower_seq(o[0].0), norm_spec(o[0].1)))
    }
}

// ── Merging ─────────────────────────────────────────────────────────────────

/// A keyword spec with an override merged in.
pub open spec fn merged_kwarg(b: KwargModel, o: KwargOverrideModel) -> KwargModel
    decreases o,
{
    KwargModel {
        nargs: or_nargs(o.nargs, b.nargs),
        kwargs: merged_kwargs(b.kwargs, o.kwargs),
        flags: set_union(b.flags, o.flags),
    }
}

/// Keyword entries with override entries merged in, one by one: a keyword
/// that exists is merged in place, a new one is added at the end.
pub open spec fn merged_kwargs(
    b: Seq<(Seq<char>, KwargModel)>,
    o: Seq<(Seq<char>, KwargOverrideModel)>,
) -> Seq<(Seq<char>, KwargModel)>
    decreases o,
{
    if o.len() == 0 {
        b
    } else {
        let next = match key_pos(b, o[0].0) {
            Some(i) => b.update(i, (o[0].0, merged_kwarg(b[i].1, o[0].1))),
            None => b.push((o[0].0, full_kwarg(o[0].1))),
        };
        merged_kwargs(next, o.drop_first())
    }
}

/// A form with an override merged in.
pub open spec fn merged_form(b: FormModel, o: FormOverrideModel) -> FormModel {
    FormModel {
        pargs: or_nargs(o.pargs, b.pargs),
        kwargs: merged_kwargs(b.kwargs, o.kwargs),
        flags: set_union(b.flags, o.flags),
        layout: match o.layout {
            Some(l) => Some(
                merged_layout(
                    match b.layout {
                        Some(x) => x,
                        None => empty_layout(),
                    },
                    l,
                ),
            ),
            None => b.layout,
        },
    }
}

/// Forms with override forms merged in, one by one.
pub open spec fn merged_forms(
    b: Seq<(Seq<char>, FormModel)>,
    o: Seq<(Seq<char>, FormOverrideModel)>,
) -> Seq<(Seq<char>, FormModel)>
    decreases o.len(),
{
    if o.len() == 0 {
        b
    } else {
        let next = match key_pos(b, o[0].0) {
            Some(i) => b.update(i, (o[0].0, merged_form(b[i].1, o[0].1))),
            None => b.push((o[0].0, full_form(o[0].1))),
        };
        merged_forms(next, o.drop_first())
    }
}

/// A spec with an override merged in: forms of the same kind merge, an
/// override of another kind replaces the spec.
pub open spec fn merged_spec(b: SpecModel, o: SpecOverrideModel) -> SpecModel {
    match (b, o) {
        (SpecModel::Single(bf), SpecOverrideModel::Single(of)) => SpecModel::Single(merged_form(bf, of)),
        (
            SpecModel::Discriminated { forms: bfs, fallback: bfb },
            SpecOverrideModel::Discriminated { forms: ofs, fallback: ofb },
        ) => SpecModel::Discriminated {
            forms: merged_forms(bfs, ofs),
            fallback: match ofb {
                Some(of) => Some(
                    match bfb {
                        Some(bf) => merged_form(bf, of),
                        None => full_form(of),
                    },
                ),
                None => bfb,
            },
        },
        (_, o) => full_spec(o),
    }
}

/// Commands with command overrides merged in, one by one: a command that
/// exists is merged, a new one is added at the end.
pub open spec fn merged_commands(
    b: Seq<(Seq<char>, SpecModel)>,
    o: Seq<(Seq<char>, SpecOverrideModel)>,
) -> Seq<(Seq<char>, SpecModel)>
    decreases o.len(),
{
    if o.len() == 0 {
        b
    } else {
        let next = match key_pos(b, o[0].0) {
            Some(i) => b.update(i, (o[0].0, merged_spec(b[i].1, o[0].1))),
            None => b.push((o[0].0, full_spec(o[0].1))),
        };
        merged_commands(next, o.drop_first())
    }
}

// ── Lemmas ──────────────────────────────────────────────────────────────────

/// `key_pos` is the first position with the key.
pub proof fn lemma_key_pos<V>(s: Seq<(Seq<char>, V)>, k: Seq<char>)
    ensures
        match key_pos(s, k) {
            Some(i) => 0 <= i < s.len() && s[i].0 == k && forall|j: int| 0 <= j < i ==> s[j].0 != k,
            None => forall|j: int| 0 <= j < s.len() ==> s[j].0 != k,
        },
    decreases s.len(),
{
    if s.len() > 0 {
        let t = s.drop_last();
        lemma_key_pos(t, k);
        assert forall|j: int| 0 <= j < t.len() implies t[j] == s[j] by {}
    }
}

/// Two sequences with the same keys place a key at the same position.
pub proof fn lemma_key_pos_same_keys<V, W>(s: Seq<(Seq<char>, V)>, t: Seq<(String, W)>, k: Seq<char>)
    requires
        s.len() == t.len(),
        forall|j: int| 0 <= j < s.len() ==> s[j].0 == t[j].0@,
    ensures
        match key_pos(s, k) {
            Some(i) => crate::spec::key_index(t, k) == Some(i),
            None => crate::spec::key_index(t, k) is None,
        },
{
    lemma_key_pos(s, k);
    crate::spec::lemma_key_index_bounds(t, k);
    match key_pos(s, k) {
        Some(i) => {
            if crate::spec::key_index(t, k) != Some(i) {
                match crate::spec::key_index(t, k) {
                    Some(j) => {
                        assert(s[j].0 == t[j].0@);
                        assert(s[i].0 == t[i].0@);
                        if j < i {
                            assert(s[j].0 != k);
                        } else {
                            assert(t[i].0@ != k);
                        }
                    },
                    None => {
                        assert(s[i].0 == t[i].0@);
                        assert(t[i].0@ != k);
                    },
                }
            }
        },
        None => {
            if crate::spec::key_index(t, k) is Some {
                let j = crate::spec::key_index(t, k)->0;
                assert(s[j].0 == t[j].0@);
            }
        },
    }
}

pub proof fn lemma_kwargs_model(s: Seq<(String, KwargSpec)>)
    ensures
        kwargs_model(s).len() == s.len(),
        forall|i: int| 0 <= i < s.len() ==> #[trigger] kwargs_model(s)[i] == (s[i].0@, kwarg_model(s[i].1)),
    decreases s.len(),
{
    if s.len() > 0 {
        lemma_kwargs_model(s.drop_last());
        assert forall|i: int| 0 <= i < s.len() implies #[trigger] kwargs_model(s)[i] == (s[i].0@, kwarg_model(s[i].1)) by {
            if i < s.len() - 1 {
                assert(s.drop_last()[i] == s[i]);
            }
        }
    }
}

pub proof fn lemma_kwarg_overrides_model(s: Seq<(String, KwargSpecOverride)>)
    ensures
        kwarg_overrides_model(s).len() == s.len(),
        forall|i: int| 0 <= i < s.len() ==> #[trigger] kwarg_overrides_model(s)[i] == (s[i].0@, kwarg_override_model(s[i].1)),
    decreases s.len(),
{
    if s.len() > 0 {
        lemma_kwarg_overrides_model(s.drop_last());
        assert forall|i: int| 0 <= i < s.len() implies #[trigger] kwarg_overrides_model(s)[i] == (s[i].0@, kwarg_override_model(s[i].1)) by {
            if i < s.len() - 1 {
                assert(s.drop_last()[i] == s[i]);
            }
        }
    }
}

// ── Flags and layout ────────────────────────────────────────────────────────

fn copy_text(s: &String) -> (r: String)
    ensures
        r@ == s@,
{
    crate::text::owned(s.as_str())
}

/// Insert a flag into an ordered set of flags.
fn insert_flag(flags: &mut Vec<String>, flag: String)
    ensures
        strs(final(flags)@) == set_insert(strs(old(flags)@), flag@),
{
    if !crate::spec::contains_text(flags, flag.as_str()) {
        let ghost pre = strs(flags@);
        let ghost f = flag@;
        flags.push(flag);
        assert(strs(flags@) =~= pre.push(f));
        assert(!pre.contains(f)) by {
            if pre.contains(f) {
                let j = choose|j: int| 0 <= j < pre.len() && pre[j] == f;
                assert(old(flags)@[j]@ == f);
            }
        }
    } else {
        assert(strs(old(flags)@).contains(flag@)) by {
            let j = choose|j: int| 0 <= j < old(flags)@.len() && old(flags)@[j]@ == flag@;
            assert(strs(old(flags)@)[j] == flag@);
        }
    }
}

/// Add flags to an ordered set of flags, each once.
pub fn merge_flags(base: &mut Vec<String>, add: Vec<String>)
    ensures
        strs(final(base)@) == set_union(strs(old(base)@), strs(add@)),
{
    let ghost all = strs(add@);
    let mut i: usize = 0;
    assert(all.subrange(0, all.len() as int) =~= all);
    while i < add.len()
        invariant
            i <= add@.len(),
            all == strs(add@),
            set_union(strs(old(base)@), all) == set_union(strs(base@), all.subrange(i as int, all.len() as int)),
        decreases add@.len() - i,
    {
        let ghost rest = all.subrange(i as int, all.len() as int);
        assert(rest.drop_first() =~= all.subrange(i + 1, all.len() as int));
        insert_flag(base, copy_text(&add[i]));
        i += 1;
    }
    assert(all.subrange(all.len() as int, all.len() as int) =~= Seq::<Seq<char>>::empty());
}

/// Flags in ASCII uppercase, each once.
pub fn uppercase_flags(flags: Vec<String>) -> (r: Vec<String>)
    ensures
        strs(r@) == upper_flags(strs(flags@)),
{
    let mut upper: Vec<String> = Vec::new();
    let mut i: usize = 0;
    while i < flags.len()
        invariant
            i <= flags@.len(),
            strs(upper@) == strs(flags@).subrange(0, i as int).map_values(|f: Seq<char>| upper_seq(f)),
        decreases flags@.len() - i,
    {
        let ghost pre = strs(upper@);
        let u = crate::text::to_upper(flags[i].as_str());
        let ghost uv = u@;
        upper.push(u);
        assert(strs(upper@) =~= pre.push(uv));
        assert(strs(flags@).subrange(0, i + 1) =~= strs(flags@).subrange(0, i as int).push(flags@[i as int]@));
        assert(strs(flags@).subrange(0, i + 1).map_values(|f: Seq<char>| upper_seq(f)) =~= strs(flags@).subrange(0, i as int).map_values(|f: Seq<char>| upper_seq(f)).push(upper_seq(flags@[i as int]@)));
        assert(strs(upper@) =~= strs(flags@).subrange(0, i + 1).map_values(|f: Seq<char>| upper_seq(f)));
        i += 1;
    }
    assert(strs(flags@).subrange(0, flags@.len() as int) =~= strs(flags@));
    let mut out: Vec<String> = Vec::new();
    assert(strs(out@) =~= Seq::<Seq<char>>::empty());
    merge_flags(&mut out, upper);
    out
}

/// Set the layout values an override sets.
pub fn merge_layout(base: &mut LayoutOverrides, o: LayoutOverridesOverride)
    ensures
        *final(base) == merged_layout(*old(base), o),
{
    if let Some(v) = o.line_width {
        base.line_width = Some(v);
    }
    if let Some(v) = o.tab_size {
        base.tab_size = Some(v);
    }
    if let Some(v) = o.dangle_parens {
        base.dangle_parens = Some(v);
    }
    if let Some(v) = o.always_wrap {
        base.always_wrap = Some(v);
    }
    if let Some(v) = o.max_pargs_hwrap {
        base.max_pargs_hwrap = Some(v);
    }
}

// ── Keyword specs ───────────────────────────────────────────────────────────

fn copy_texts(v: &Vec<String>) -> (r: Vec<String>)
    ensures
        strs(r@) == strs(v@),
{
    let mut out: Vec<String> = Vec::new();
    let mut i: usize = 0;
    while i < v.len()
        invariant
            i <= v@.len(),
            strs(out@) == strs(v@).subrange(0, i as int),
        decreases v@.len() - i,
    {
        let ghost pre = strs(out@);
        out.push(copy_text(&v[i]));
        assert(strs(out@) =~= pre.push(v@[i as int]@));
        assert(strs(out@) =~= strs(v@).subrange(0, i + 1));
        i += 1;
    }
    assert(strs(v@).subrange(0, v@.len() as int) =~= strs(v@));
    out
}

/// Insert a keyword into keyword entries as an ordered map does.
fn put_kwarg(acc: &mut Vec<(String, KwargSpec)>, k: String, v: KwargSpec)
    ensures
        kwargs_model(final(acc)@) == keyed_put(kwargs_model(old(acc)@), k@, kwarg_model(v)),
{
    let ghost m = kwargs_model(acc@);
    let ghost e = (k@, kwarg_model(v));
    proof {
        lemma_kwargs_model(acc@);
        lemma_key_pos_same_keys(m, acc@, k@);
    }
    let _n = acc.len();
    let found = crate::spec::find_key(acc, k.as_str());
    proof {
        crate::spec::lemma_key_index_bounds(acc@, k@);
    }
    match found {
        Some(i) => {
            assert(key_pos(m, k@) == Some(i as int));
            let ghost pre = acc@;
            acc.set(i, (k, v));
            proof {
                lemma_kwargs_model(acc@);
                assert(kwargs_model(acc@) =~= m.update(i as int, e)) by {
                    assert forall|j: int| 0 <= j < acc@.len() implies #[trigger] kwargs_model(acc@)[j] == m.update(i as int, e)[j] by {
                        if j != i {
                            assert(acc@[j] == pre[j]);
                        }
                    }
                }
            }
        },
        None => {
            assert(key_pos(m, k@) is None);
            let ghost pre = acc@;
            acc.push((k, v));
            proof {
                lemma_kwargs_model(acc@);
                assert(kwargs_model(acc@) =~= m.push(e)) by {
                    assert forall|j: int| 0 <= j < acc@.len() implies #[trigger] kwargs_model(acc@)[j] == m.push(e)[j] by {
                        if j < pre.len() {
                            assert(acc@[j] == pre[j]);
                        }
                    }
                }
            }
        },
    }
}

/// The keyword spec an override describes on its own.
pub fn full_kwarg_of(o: &KwargSpecOverride) -> (r: KwargSpec)
    ensures
        kwarg_model(r) == full_kwarg(kwarg_override_model(*o)),
    decreases o,
{
    let kwargs = full_kwargs_of(&o.kwargs, Vec::new());
    proof {
        assert(kwargs_model(Seq::<(String, KwargSpec)>::empty()) =~= Seq::<(Seq<char>, KwargModel)>::empty());
    }
    let nargs = match o.nargs {
        Some(n) => n,
        None => NArgs::ZeroOrMore,
    };
    KwargSpec { nargs, kwargs, flags: uppercase_flags(copy_texts(&o.flags)) }
}

/// Override keyword entries converted and inserted one by one into `acc`.
fn full_kwargs_of(o: &Vec<(String, KwargSpecOverride)>, acc: Vec<(String, KwargSpec)>) -> (r: Vec<(String, KwargSpec)>)
    ensures
        kwargs_model(r@) == full_kwargs(kwarg_overrides_model(o@), kwargs_model(acc@)),
    decreases o,
{
    proof {
        lemma_kwarg_overrides_model(o@);
    }
    let ghost om = kwarg_overrides_model(o@);
    let ghost start = kwargs_model(acc@);
    let mut acc = acc;
    let mut j: usize = 0;
    assert(om.subrange(0, om.len() as int) =~= om);
    while j < o.len()
        invariant
            j <= o@.len(),
            om == kwarg_overrides_model(o@),
            om.len() == o@.len(),
            forall|i: int| 0 <= i < o@.len() ==> #[trigger] om[i] == (o@[i].0@, kwarg_override_model(o@[i].1)),
            full_kwargs(om, start) == full_kwargs(om.subrange(j as int, om.len() as int), kwargs_model(acc@)),
        decreases o@.len() - j,
    {
        let ghost rest = om.subrange(j as int, om.len() as int);
        assert(rest.drop_first() =~= om.subrange(j + 1, om.len() as int));
        assert(rest[0] == om[j as int]);
        let v = full_kwarg_of(&o[j].1);
        let k = crate::text::to_upper(o[j].0.as_str());
        put_kwarg(&mut acc, k, v);
        j += 1;
    }
    assert(om.subrange(om.len() as int, om.len() as int) =~= Seq::<(Seq<char>, KwargOverrideModel)>::empty());
    acc
}

proof fn lemma_kwargs_model_update(s: Seq<(String, KwargSpec)>, i: int, e: (String, KwargSpec))
    requires
        0 <= i < s.len(),
    ensures
        kwargs_model(s.update(i, e)) == kwargs_model(s).update(i, (e.0@, kwarg_model(e.1))),
{
    lemma_kwargs_model(s);
    lemma_kwargs_model(s.update(i, e));
    assert(kwargs_model(s.update(i, e)) =~= kwargs_model(s).update(i, (e.0@, kwarg_model(e.1))));
}

proof fn lemma_kwargs_model_push(s: Seq<(String, KwargSpec)>, e: (String, KwargSpec))
    ensures
        kwargs_model(s.push(e)) == kwargs_model(s).push((e.0@, kwarg_model(e.1))),
{
    assert(s.push(e).drop_last() =~= s);
}

/// A keyword spec with an override merged in: the override's count when it
/// sets one, its flags added, its keywords merged.
pub fn merge_kwarg(b: KwargSpec, o: &KwargSpecOverride) -> (r: KwargSpec)
    ensures
        kwarg_model(r) == merged_kwarg(kwarg_model(b), kwarg_override_model(*o)),
    decreases o,
{
    let KwargSpec { nargs, kwargs, flags } = b;
    let mut flags = flags;
    let nargs = match o.nargs {
        Some(n) => n,
        None => nargs,
    };
    merge_flags(&mut flags, copy_texts(&o.flags));
    let kwargs = merge_kwargs(kwargs, &o.kwargs);
    KwargSpec { nargs, kwargs, flags }
}

/// Keyword entries with override entries merged in, one by one.
fn merge_kwargs(b: Vec<(String, KwargSpec)>, o: &Vec<(String, KwargSpecOverride)>) -> (r: Vec<(String, KwargSpec)>)
    ensures
        kwargs_model(r@) == merged_kwargs(kwargs_model(b@), kwarg_overrides_model(o@)),
    decreases o,
{
    proof {
        lemma_kwarg_overrides_model(o@);
    }
    let ghost om = kwarg_overrides_model(o@);
    let ghost start = kwargs_model(b@);
    let mut b = b;
    let mut j: usize = 0;
    assert(om.subrange(0, om.len() as int) =~= om);
    while j < o.len()
        invariant
            j <= o@.len(),
            om == kwarg_overrides_model(o@),
            om.len() == o@.len(),
            forall|i: int| 0 <= i < o@.len() ==> #[trigger] om[i] == (o@[i].0@, kwarg_override_model(o@[i].1)),
            merged_kwargs(start, om) == merged_kwargs(kwargs_model(b@), om.subrange(j as int, om.len() as int)),
        decreases o@.len() - j,
    {
        let ghost rest = om.subrange(j as int, om.len() as int);
        assert(rest.drop_first() =~= om.subrange(j + 1, om.len() as int));
        assert(rest[0] == om[j as int]);
        let ghost cur = kwargs_model(b@);
        let ghost key = o@[j as int].0@;
        proof {
            lemma_kwargs_model(b@);
            lemma_key_pos_same_keys(cur, b@, key);
            crate::spec::lemma_key_index_bounds(b@, key);
        }
        let _n = b.len();
        let found = crate::spec::find_key(&b, o[j].0.as_str());
        match found {
            Some(i) => {
                assert(key_pos(cur, key) == Some(i as int));
                let ghost pre = b@;
                let (k, v) = b.remove(i);
                let nv = merge_kwarg(v, &o[j].1);
                b.insert(i, (k, nv));
                proof {
                    assert(b@ =~= pre.update(i as int, (k, nv)));
                    lemma_kwargs_model_update(pre, i as int, (k, nv));
                    lemma_kwargs_model(pre);
                    assert(cur[i as int] == (k@, kwarg_model(v)));
                }
            },
            None => {
                assert(key_pos(cur, key) is None);
                let ghost pre = b@;
                let full = full_kwarg_of(&o[j].1);
                let k = copy_text(&o[j].0);
                b.push((k, full));
                proof {
                    lemma_kwargs_model_push(pre, (k, full));
                }
            },
        }
        j += 1;
    }
    assert(om.subrange(om.len() as int, om.len() as int) =~= Seq::<(Seq<char>, KwargOverrideModel)>::empty());
    b
}

// ── Forms and specs ─────────────────────────────────────────────────────────

fn full_layout_of(l: Option<LayoutOverridesOverride>) -> (r: Option<LayoutOverrides>)
    ensures
        r == match l {
            Some(x) => Some(full_layout(x)),
            None => None::<LayoutOverrides>,
        },
{
    match l {
        Some(x) => Some(x.into_full_layout()),
        None => None,
    }
}

/// The form an override describes on its own.
pub fn full_form_of(o: &CommandFormOverride) -> (r: CommandForm)
    ensures
        form_model(r) == full_form(form_override_model(*o)),
{
    let kwargs = full_kwargs_of(&o.kwargs, Vec::new());
    proof {
        assert(kwargs_model(Seq::<(String, KwargSpec)>::empty()) =~= Seq::<(Seq<char>, KwargModel)>::empty());
    }
    let pargs = match o.pargs {
        Some(n) => n,
        None => NArgs::ZeroOrMore,
    };
    CommandForm { pargs, kwargs, flags: uppercase_flags(copy_texts(&o.flags)), layout: full_layout_of(o.layout) }
}

/// A form with an override merged in: the override's positional count when
/// it sets one, its flags added, its keywords merged, its layout values set.
pub fn merge_form(b: CommandForm, o: &CommandFormOverride) -> (r: CommandForm)
    ensures
        form_model(r) == merged_form(form_model(b), form_override_model(*o)),
{
    let CommandForm { pargs, kwargs, flags, layout } = b;
    let mut flags = flags;
    let pargs = match o.pargs {
        Some(n) => n,
        None => pargs,
    };
    merge_flags(&mut flags, copy_texts(&o.flags));
    let kwargs = merge_kwargs(kwargs, &o.kwargs);
    let layout = match o.layout {
        Some(l) => {
            let mut base = match layout {
                Some(x) => x,
                None => LayoutOverrides::default(),
            };
            merge_layout(&mut base, l);
            Some(base)
        },
        None => layout,
    };
    CommandForm { pargs, kwargs, flags, layout }
}

/// Insert a form into forms as an ordered map does.
fn put_form(acc: &mut Vec<(String, CommandForm)>, k: String, v: CommandForm)
    ensures
        forms_model(final(acc)@) == keyed_put(forms_model(old(acc)@), k@, form_model(v)),
{
    let ghost m = forms_model(acc@);
    let ghost e = (k@, form_model(v));
    proof {
        lemma_key_pos_same_keys(m, acc@, k@);
    }
    let _n = acc.len();
    let found = crate::spec::find_key(acc, k.as_str());
    proof {
        crate::spec::lemma_key_index_bounds(acc@, k@);
    }
    match found {
        Some(i) => {
            assert(key_pos(m, k@) == Some(i as int));
            acc.set(i, (k, v));
            assert(forms_model(acc@) =~= m.update(i as int, e));
        },
        None => {
            assert(key_pos(m, k@) is None);
            acc.push((k, v));
            assert(forms_model(acc@) =~= m.push(e));
        },
    }
}

/// Override forms converted and inserted one by one into `acc`, under
/// uppercase discriminators.
fn full_forms_of(o: &Vec<(String, CommandFormOverride)>, acc: Vec<(String, CommandForm)>) -> (r: Vec<(String, CommandForm)>)
    ensures
        forms_model(r@) == full_forms(form_overrides_model(o@), forms_model(acc@)),
{
    let ghost om = form_overrides_model(o@);
    let ghost start = forms_model(acc@);
    let mut acc = acc;
    let mut j: usize = 0;
    assert(om.subrange(0, om.len() as int) =~= om);
    while j < o.len()
        invariant
            j <= o@.len(),
            om == form_overrides_model(o@),
            full_forms(om, start) == full_forms(om.subrange(j as int, om.len() as int), forms_model(acc@)),
        decreases o@.len() - j,
    {
        let ghost rest = om.subrange(j as int, om.len() as int);
        assert(rest.drop_first() =~= om.subrange(j + 1, om.len() as int));
        assert(rest[0] == om[j as int]);
        let v = full_form_of(&o[j].1);
        let k = crate::text::to_upper(o[j].0.as_str());
        put_form(&mut acc, k, v);
        j += 1;
    }
    assert(om.subrange(om.len() as int, om.len() as int) =~= Seq::<(Seq<char>, FormOverrideModel)>::empty());
    acc
}

/// Forms with override forms merged in, one by one.
fn merge_forms(b: Vec<(String, CommandForm)>, o: &Vec<(String, CommandFormOverride)>) -> (r: Vec<(String, CommandForm)>)
    ensures
        forms_model(r@) == merged_forms(forms_model(b@), form_overrides_model(o@)),
{
    let ghost om = form_overrides_model(o@);
    let ghost start = forms_model(b@);
    let mut b = b;
    let mut j: usize = 0;
    assert(om.subrange(0, om.len() as int) =~= om);
    while j < o.len()
        invariant
            j <= o@.len(),
            om == form_overrides_model(o@),
            merged_forms(start, om) == merged_forms(forms_model(b@), om.subrange(j as int, om.len() as int)),
        decreases o@.len() - j,
    {
        let ghost rest = om.subrange(j as int, om.len() as int);
        assert(rest.drop_first() =~= om.subrange(j + 1, om.len() as int));
        assert(rest[0] == om[j as int]);
        let ghost cur = forms_model(b@);
        let ghost key = o@[j as int].0@;
        proof {
            lemma_key_pos_same_keys(cur, b@, key);
            crate::spec::lemma_key_index_bounds(b@, key);
        }
        let _n = b.len();
        let found = crate::spec::find_key(&b, o[j].0.as_str());
        match found {
            Some(i) => {
                assert(key_pos(cur, key) == Some(i as int));
                let ghost pre = b@;
                let (k, v) = b.remove(i);
                let nv = merge_form(v, &o[j].1);
                b.insert(i, (k, nv));
                assert(b@ =~= pre.update(i as int, (k, nv)));
                assert(forms_model(b@) =~= cur.update(i as int, (key, merged_form(cur[i as int].1, om[j as int].1))));
            },
            None => {
                assert(key_pos(cur, key) is None);
                let full = full_form_of(&o[j].1);
                let k = copy_text(&o[j].0);
                b.push((k, full));
                assert(forms_model(b@) =~= cur.push((key, full_form(om[j as int].1))));
            },
        }
        j += 1;
    }
    assert(om.subrange(om.len() as int, om.len() as int) =~= Seq::<(Seq<char>, FormOverrideModel)>::empty());
    b
}

/// The spec an override describes on its own.
pub fn full_spec_of(o: &CommandSpecOverride) -> (r: CommandSpec)
    ensures
        spec_model(r) == full_spec(spec_override_model(*o)),
{
    match o {
        CommandSpecOverride::Single(f) => CommandSpec::Single(full_form_of(f)),
        CommandSpecOverride::Discriminated { forms, fallback } => {
            let fs = full_forms_of(forms, Vec::new());
            assert(forms_model(Seq::<(String, CommandForm)>::empty()) =~= Seq::<(Seq<char>, FormModel)>::empty());
            let fb = match fallback {
                Some(f) => Some(full_form_of(f)),
                None => None,
            };
            CommandSpec::Discriminated { forms: fs, fallback: fb }
        },
    }
}

/// A spec with an override merged in: forms of the same kind merge, an
/// override of another kind replaces the spec.
pub fn merge_spec(b: CommandSpec, o: &CommandSpecOverride) -> (r: CommandSpec)
    ensures
        spec_model(r) == merged_spec(spec_model(b), spec_override_model(*o)),
{
    match (b, o) {
        (CommandSpec::Single(bf), CommandSpecOverride::Single(of)) => CommandSpec::Single(merge_form(bf, of)),
        (
            CommandSpec::Discriminated { forms: bfs, fallback: bfb },
            CommandSpecOverride::Discriminated { forms: ofs, fallback: ofb },
        ) => {
            let forms = merge_forms(bfs, ofs);
            let fallback = match ofb {
                Some(of) => match bfb {
                    Some(bf) => Some(merge_form(bf, of)),
                    None => Some(full_form_of(of)),
                },
                None => bfb,
            };
            CommandSpec::Discriminated { forms, fallback }
        },
        (_, o) => full_spec_of(o),
    }
}

// ── Normalising overrides ───────────────────────────────────────────────────

proof fn lemma_kwarg_overrides_model_update(s: Seq<(String, KwargSpecOverride)>, i: int, e: (String, KwargSpecOverride))
    requires
        0 <= i < s.len(),
    ensures
        kwarg_overrides_model(s.update(i, e)) == kwarg_overrides_model(s).update(i, (e.0@, kwarg_override_model(e.1))),
{
    lemma_kwarg_overrides_model(s);
    lemma_kwarg_overrides_model(s.update(i, e));
    assert(kwarg_overrides_model(s.update(i, e)) =~= kwarg_overrides_model(s).update(i, (e.0@, kwarg_override_model(e.1))));
}

proof fn lemma_kwarg_overrides_model_push(s: Seq<(String, KwargSpecOverride)>, e: (String, KwargSpecOverride))
    ensures
        kwarg_overrides_model(s.push(e)) == kwarg_overrides_model(s).push((e.0@, kwarg_override_model(e.1))),
{
    assert(s.push(e).drop_last() =~= s);
}

fn put_kwarg_override(acc: &mut Vec<(String, KwargSpecOverride)>, k: String, v: KwargSpecOverride)
    ensures
        kwarg_overrides_model(final(acc)@) == keyed_put(kwarg_overrides_model(old(acc)@), k@, kwarg_override_model(v)),
{
    let ghost m = kwarg_overrides_model(acc@);
    let ghost pre = acc@;
    proof {
        lemma_kwarg_overrides_model(acc@);
        lemma_key_pos_same_keys(m, acc@, k@);
    }
    let _n = acc.len();
    let found = crate::spec::find_key(acc, k.as_str());
    proof {
        crate::spec::lemma_key_index_bounds(acc@, k@);
    }
    match found {
        Some(i) => {
            assert(key_pos(m, k@) == Some(i as int));
            let ghost e = (k, v);
            acc.set(i, (k, v));
            proof {
                lemma_kwarg_overrides_model_update(pre, i as int, e);
            }
        },
        None => {
            assert(key_pos(m, k@) is None);
            let ghost e = (k, v);
            acc.push((k, v));
            proof {
                lemma_kwarg_overrides_model_push(pre, e);
            }
        },
    }
}

/// A keyword override with its keywords and flags in ASCII uppercase.
fn norm_kwarg_of(o: &KwargSpecOverride) -> (r: KwargSpecOverride)
    ensures
        kwarg_override_model(r) == norm_kwarg(kwarg_override_model(*o)),
    decreases o,
{
    let kwargs = norm_kwargs_of(&o.kwargs, Vec::new());
    proof {
        assert(kwarg_overrides_model(Seq::<(String, KwargSpecOverride)>::empty()) =~= Seq::<(Seq<char>, KwargOverrideModel)>::empty());
    }
    KwargSpecOverride { nargs: o.nargs, kwargs, flags: uppercase_flags(copy_texts(&o.flags)) }
}

fn norm_kwargs_of(o: &Vec<(String, KwargSpecOverride)>, acc: Vec<(String, KwargSpecOverride)>) -> (r: Vec<(String, KwargSpecOverride)>)
    ensures
        kwarg_overrides_model(r@) == norm_kwargs(kwarg_overrides_model(o@), kwarg_overrides_model(acc@)),
    decreases o,
{
    proof {
        lemma_kwarg_overrides_model(o@);
    }
    let ghost om = kwarg_overrides_model(o@);
    let ghost start = kwarg_overrides_model(acc@);
    let mut acc = acc;
    let mut j: usize = 0;
    assert(om.subrange(0, om.len() as int) =~= om);
    while j < o.len()
        invariant
            j <= o@.len(),
            om == kwarg_overrides_model(o@),
            om.len() == o@.len(),
            forall|i: int| 0 <= i < o@.len() ==> #[trigger] om[i] == (o@[i].0@, kwarg_override_model(o@[i].1)),
            norm_kwargs(om, start) == norm_kwargs(om.subrange(j as int, om.len() as int), kwarg_overrides_model(acc@)),
        decreases o@.len() - j,
    {
        let ghost rest = om.subrange(j as int, om.len() as int);
        assert(rest.drop_first() =~= om.subrange(j + 1, om.len() as int));
        assert(rest[0] == om[j as int]);
        let v = norm_kwarg_of(&o[j].1);
        let k = crate::text::to_upper(o[j].0.as_str());
        put_kwarg_override(&mut acc, k, v);
        j += 1;
    }
    assert(om.subrange(om.len() as int, om.len() as int) =~= Seq::<(Seq<char>, KwargOverrideModel)>::empty());
    acc
}

/// A form override with its keywords and flags in ASCII uppercase.
fn norm_form_of(o: &CommandFormOverride) -> (r: CommandFormOverride)
    ensures
        form_override_model(r) == norm_form(form_override_model(*o)),
{
    let kwargs = norm_kwargs_of(&o.kwargs, Vec::new());
    proof {
        assert(kwarg_overrides_model(Seq::<(String, KwargSpecOverride)>::empty()) =~= Seq::<(Seq<char>, KwargOverrideModel)>::empty());
    }
    CommandFormOverride { pargs: o.pargs, kwargs, flags: uppercase_flags(copy_texts(&o.flags)), layout: o.layout }
}

fn put_form_override(acc: &mut Vec<(String, CommandFormOverride)>, k: String, v: CommandFormOverride)
    ensures
        form_overrides_model(final(acc)@) == keyed_put(form_overrides_model(old(acc)@), k@, form_override_model(v)),
{
    let ghost m = form_overrides_model(acc@);
    let ghost e = (k@, form_override_model(v));
    proof {
        lemma_key_pos_same_keys(m, acc@, k@);
    }
    let _n = acc.len();
    let found = crate::spec::find_key(acc, k.as_str());
    proof {
        crate::spec::lemma_key_index_bounds(acc@, k@);
    }
    match found {
        Some(i) => {
            assert(key_pos(m, k@) == Some(i as int));
            acc.set(i, (k, v));
            assert(form_overrides_model(acc@) =~= m.update(i as int, e));
        },
        None => {
            assert(key_pos(m, k@) is None);
            acc.push((k, v));
            assert(form_overrides_model(acc@) =~= m.push(e));
        },
    }
}

fn norm_forms_of(o: &Vec<(String, CommandFormOverride)>) -> (r: Vec<(String, CommandFormOverride)>)
    ensures
        form_overrides_model(r@) == norm_forms(form_overrides_model(o@), Seq::empty()),
{
    let ghost om = form_overrides_model(o@);
    let mut acc: Vec<(String, CommandFormOverride)> = Vec::new();
    assert(form_overrides_model(acc@) =~= Seq::<(Seq<char>, FormOverrideModel)>::empty());
    let mut j: usize = 0;
    assert(om.subrange(0, om.len() as int) =~= om);
    while j < o.len()
        invariant
            j <= o@.len(),
            om == form_overrides_model(o@),
            norm_forms(om, Seq::empty()) == norm_forms(om.subrange(j as int, om.len() as int), form_overrides_model(acc@)),
        decreases o@.len() - j,
    {
        let ghost rest = om.subrange(j as int, om.len() as int);
        assert(rest.drop_first() =~= om.subrange(j + 1, om.len() as int));
        assert(rest[0] == om[j as int]);
        let v = norm_form_of(&o[j].1);
        let k = crate::text::to_upper(o[j].0.as_str());
        put_form_override(&mut acc, k, v);
        j += 1;
    }
    assert(om.subrange(om.len() as int, om.len() as int) =~= Seq::<(Seq<char>, FormOverrideModel)>::empty());
    acc
}

/// A spec override normalised.
fn norm_spec_of(o: &CommandSpecOverride) -> (r: CommandSpecOverride)
    ensures
        spec_override_model(r) == norm_spec(spec_override_model(*o)),
{
    match o {
        CommandSpecOverride::Single(f) => CommandSpecOverride::Single(norm_form_of(f)),
        CommandSpecOverride::Discriminated { forms, fallback } => {
            let fs = norm_forms_of(forms);
            let fb = match fallback {
                Some(f) => Some(norm_form_of(f)),
                None => None,
            };
            CommandSpecOverride::Discriminated { forms: fs, fallback: fb }
        },
    }
}

fn put_command_override(acc: &mut Vec<(String, CommandSpecOverride)>, k: String, v: CommandSpecOverride)
    ensures
        command_overrides_model(final(acc)@) == keyed_put(command_overrides_model(old(acc)@), k@, spec_override_model(v)),
{
    let ghost m = command_overrides_model(acc@);
    let ghost e = (k@, spec_override_model(v));
    proof {
        lemma_key_pos_same_keys(m, acc@, k@);
    }
    let _n = acc.len();
    let found = crate::spec::find_key(acc, k.as_str());
    proof {
        crate::spec::lemma_key_index_bounds(acc@, k@);
    }
    match found {
        Some(i) => {
            assert(key_pos(m, k@) == Some(i as int));
            acc.set(i, (k, v));
            assert(command_overrides_model(acc@) =~= m.update(i as int, e));
        },
        None => {
            assert(key_pos(m, k@) is None);
            acc.push((k, v));
            assert(command_overrides_model(acc@) =~= m.push(e));
        },
    }
}

/// An override file normalised: command names in ASCII lowercase,
/// discriminators, keywords and flags in ASCII uppercase; a repeated key
/// keeps its first place and takes the later value.
pub fn normalize_overrides(file: &SpecOverrideFile) -> (r: SpecOverrideFile)
    ensures
        command_overrides_model(r.commands@) == norm_commands(command_overrides_model(file.commands@), Seq::empty()),
{
    let o = &file.commands;
    let ghost om = command_overrides_model(o@);
    let mut acc: Vec<(String, CommandSpecOverride)> = Vec::new();
    assert(command_overrides_model(acc@) =~= Seq::<(Seq<char>, SpecOverrideModel)>::empty());
    let mut j: usize = 0;
    assert(om.subrange(0, om.len() as int) =~= om);
    while j < o.len()
        invariant
            j <= o@.len(),
            om == command_overrides_model(o@),
            norm_commands(om, Seq::empty()) == norm_commands(om.subrange(j as int, om.len() as int), command_overrides_model(acc@)),
        decreases o@.len() - j,
    {
        let ghost rest = om.subrange(j as int, om.len() as int);
        assert(rest.drop_first() =~= om.subrange(j + 1, om.len() as int));
        assert(rest[0] == om[j as int]);
        let v = norm_spec_of(&o[j].1);
        let k = crate::text::to_lower(o[j].0.as_str());
        put_command_override(&mut acc, k, v);
        j += 1;
    }
    assert(om.subrange(om.len() as int, om.len() as int) =~= Seq::<(Seq<char>, SpecOverrideModel)>::empty());
    SpecOverrideFile { commands: acc }
}

// ── Normalised specs ────────────────────────────────────────────────────────

/// A keyword spec with its keywords and flags in ASCII uppercase.
pub open spec fn norm_full_kwarg(k: KwargModel) -> KwargModel
    decreases k,
{
    KwargModel { nargs: k.nargs, kwargs: norm_full_kwargs(k.kwargs, Seq::empty()), flags: upper_flags(k.flags) }
}

/// The keyword entries of `o` normalised and inserted one by one into `acc`.
pub open spec fn norm_full_kwargs(
    o: Seq<(Seq<char>, KwargModel)>,
    acc: Seq<(Seq<char>, KwargModel)>,
) -> Seq<(Seq<char>, KwargModel)>
    decreases o,
{
    if o.len() == 0 {
        acc
    } else {
        norm_full_kwargs(o.drop_first(), keyed_put(acc, upper_seq(o[0].0), norm_full_kwarg(o[0].1)))
    }
}

/// A form with its keywords and flags in ASCII uppercase.
pub open spec fn norm_full_form(f: FormModel) -> FormModel {
    FormModel { kwargs: norm_full_kwargs(f.kwargs, Seq::empty()), flags: upper_flags(f.flags), ..f }
}

/// The forms of `o` normalised and inserted one by one into `acc`, under
/// uppercase discriminators.
pub open spec fn norm_full_forms(
    o: Seq<(Seq<char>, FormModel)>,
    acc: Seq<(Seq<char>, FormModel)>,
) -> Seq<(Seq<char>, FormModel)>
    decreases o.len(),
{
    if o.len() == 0 {
        acc
    } else {
        norm_full_forms(o.drop_first(), keyed_put(acc, upper_seq(o[0].0), norm_full_form(o[0].1)))
    }
}

/// A command spec normalised.
pub open spec fn norm_full_spec(s: SpecModel) -> SpecModel {
    match s {
        SpecModel::Single(f) => SpecModel::Single(norm_full_form(f)),
        SpecModel::Discriminated { forms, fallback } => SpecModel::Discriminated {
            forms: norm_full_forms(forms, Seq::empty()),
            fallback: match fallback {
                Some(f) => Some(norm_full_form(f)),
                None => None,
            },
        },
    }
}

/// Command specs normalised: names in ASCII lowercase, each once (a
/// repeated name keeps its first place and takes the later spec).
pub open spec fn norm_spec_commands(
    o: Seq<(Seq<char>, SpecModel)>,
    acc: Seq<(Seq<char>, SpecModel)>,
) -> Seq<(Seq<char>, SpecModel)>
    decreases o.len(),
{
    if o.len() == 0 {
        acc
    } else {
        norm_spec_commands(o.drop_first(), keyed_put(acc, lower_seq(o[0].0), norm_full_spec(o[0].1)))
    }
}

/// A keyword spec with its keywords and flags in ASCII uppercase.
fn norm_full_kwarg_of(k: &KwargSpec) -> (r: KwargSpec)
    ensures
        kwarg_model(r) == norm_full_kwarg(kwarg_model(*k)),
    decreases k,
{
    let kwargs = norm_full_kwargs_of(&k.kwargs, Vec::new());
    proof {
        assert(kwargs_model(Seq::<(String, KwargSpec)>::empty()) =~= Seq::<(Seq<char>, KwargModel)>::empty());
    }
    KwargSpec { nargs: k.nargs, kwargs, flags: uppercase_flags(copy_texts(&k.flags)) }
}

fn norm_full_kwargs_of(o: &Vec<(String, KwargSpec)>, acc: Vec<(String, KwargSpec)>) -> (r: Vec<(String, KwargSpec)>)
    ensures
        kwargs_model(r@) == norm_full_kwargs(kwargs_model(o@), kwargs_model(acc@)),
    decreases o,
{
    proof {
        lemma_kwargs_model(o@);
    }
    let ghost om = kwargs_model(o@);
    let ghost start = kwargs_model(acc@);
    let mut acc = acc;
    let mut j: usize = 0;
    assert(om.subrange(0, om.len() as int) =~= om);
    while j < o.len()
        invariant
            j <= o@.len(),
            om == kwargs_model(o@),
            om.len() == o@.len(),
            forall|i: int| 0 <= i < o@.len() ==> #[trigger] om[i] == (o@[i].0@, kwarg_model(o@[i].1)),
            norm_full_kwargs(om, start) == norm_full_kwargs(om.subrange(j as int, om.len() as int), kwargs_model(acc@)),
        decreases o@.len() - j,
    {
        let ghost rest = om.subrange(j as int, om.len() as int);
        assert(rest.drop_first() =~= om.subrange(j + 1, om.len() as int));
        assert(rest[0] == om[j as int]);
        let v = norm_full_kwarg_of(&o[j].1);
        let k = crate::text::to_upper(o[j].0.as_str());
        put_kwarg(&mut acc, k, v);
        j += 1;
    }
    assert(om.subrange(om.len() as int, om.len() as int) =~= Seq::<(Seq<char>, KwargModel)>::empty());
    acc
}

/// A form with its keywords and flags in ASCII uppercase.
fn norm_full_form_of(f: &CommandForm) -> (r: CommandForm)
    ensures
        form_model(r) == norm_full_form(form_model(*f)),
{
    let kwargs = norm_full_kwargs_of(&f.kwargs, Vec::new());
    proof {
        assert(kwargs_model(Seq::<(String, KwargSpec)>::empty()) =~= Seq::<(Seq<char>, KwargModel)>::empty());
    }
    CommandForm { pargs: f.pargs, kwargs, flags: uppercase_flags(copy_texts(&f.flags)), layout: f.layout }
}

fn norm_full_forms_of(o: &Vec<(String, CommandForm)>) -> (r: Vec<(String, CommandForm)>)
    ensures
        forms_model(r@) == norm_full_forms(forms_model(o@), Seq::empty()),
{
    let ghost om = forms_model(o@);
    let mut acc: Vec<(String, CommandForm)> = Vec::new();
    assert(forms_model(acc@) =~= Seq::<(Seq<char>, FormModel)>::empty());
    let mut j: usize = 0;
    assert(om.subrange(0, om.len() as int) =~= om);
    while j < o.len()
        invariant
            j <= o@.len(),
            om == forms_model(o@),
            norm_full_forms(om, Seq::empty()) == norm_full_forms(om.subrange(j as int, om.len() as int), forms_model(acc@)),
        decreases o@.len() - j,
    {
        let ghost rest = om.subrange(j as int, om.len() as int);
        assert(rest.drop_first() =~= om.subrange(j + 1, om.len() as int));
        assert(rest[0] == om[j as int]);
        let v = norm_full_form_of(&o[j].1);
        let k = crate::text::to_upper(o[j].0.as_str());
        put_form(&mut acc, k, v);
        j += 1;
    }
    assert(om.subrange(om.len() as int, om.len() as int) =~= Seq::<(Seq<char>, FormModel)>::empty());
    acc
}

/// A command spec normalised.
fn norm_full_spec_of(s: &CommandSpec) -> (r: CommandSpec)
    ensures
        spec_model(r) == norm_full_spec(spec_model(*s)),
{
    match s {
        CommandSpec::Single(f) => CommandSpec::Single(norm_full_form_of(f)),
        CommandSpec::Discriminated { forms, fallback } => {
            let fs = norm_full_forms_of(forms);
            let fb = match fallback {
                Some(f) => Some(norm_full_form_of(f)),
                None => None,
            };
            CommandSpec::Discriminated { forms: fs, fallback: fb }
        },
    }
}

fn put_command(acc: &mut Vec<(String, CommandSpec)>, k: String, v: CommandSpec)
    ensures
        commands_model(final(acc)@) == keyed_put(commands_model(old(acc)@), k@, spec_model(v)),
{
    let ghost m = commands_model(acc@);
    let ghost e = (k@, spec_model(v));
    proof {
        lemma_key_pos_same_keys(m, acc@, k@);
    }
    let _n = acc.len();
    let found = crate::spec::find_key(acc, k.as_str());
    proof {
        crate::spec::lemma_key_index_bounds(acc@, k@);
    }
    match found {
        Some(i) => {
            assert(key_pos(m, k@) == Some(i as int));
            acc.set(i, (k, v));
            assert(commands_model(acc@) =~= m.update(i as int, e));
        },
        None => {
            assert(key_pos(m, k@) is None);
            acc.push((k, v));
            assert(commands_model(acc@) =~= m.push(e));
        },
    }
}

/// Command specs normalised: names in ASCII lowercase; discriminators,
/// keywords and flags in ASCII uppercase; a repeated key keeps its first
/// place and takes the later value.
pub fn normalize_commands(o: &Vec<(String, CommandSpec)>) -> (r: Vec<(String, CommandSpec)>)
    ensures
        commands_model(r@) == norm_spec_commands(commands_model(o@), Seq::empty()),
{
    let ghost om = commands_model(o@);
    let mut acc: Vec<(String, CommandSpec)> = Vec::new();
    assert(commands_model(acc@) =~= Seq::<(Seq<char>, SpecModel)>::empty());
    let mut j: usize = 0;
    assert(om.subrange(0, om.len() as int) =~= om);
    while j < o.len()
        invariant
            j <= o@.len(),
            om == commands_model(o@),
            norm_spec_commands(om, Seq::empty()) == norm_spec_commands(om.subrange(j as int, om.len() as int), commands_model(acc@)),
        decreases o@.len() - j,
    {
        let ghost rest = om.subrange(j as int, om.len() as int);
        assert(rest.drop_first() =~= om.subrange(j + 1, om.len() as int));
        assert(rest[0] == om[j as int]);
        let v = norm_full_spec_of(&o[j].1);
        let k = crate::text::to_lower(o[j].0.as_str());
        put_command(&mut acc, k, v);
        j += 1;
    }
    assert(om.subrange(om.len() as int, om.len() as int) =~= Seq::<(Seq<char>, SpecModel)>::empty());
    acc
}

// ── Whole specs ─────────────────────────────────────────────────────────────

/// Whether a spec can select a form: a discriminated one has a form or a
/// fallback.
pub open spec fn model_wf(s: SpecModel) -> bool {
    match s {
        SpecModel::Single(_) => true,
        SpecModel::Discriminated { forms, fallback } => forms.len() > 0 || fallback is Some,
    }
}

/// Whether an override describes a spec that can select a form on its own.
pub open spec fn whole_override(o: SpecOverrideModel) -> bool {
    match o {
        SpecOverrideModel::Single(_) => true,
        SpecOverrideModel::Discriminated { forms, fallback } => forms.len() > 0 || fallback is Some,
    }
}

/// Whether merging the overrides into the commands leaves every spec able to
/// select a form: each override that has no form and no fallback merges
/// into a discriminated command.
pub open spec fn keeps_whole(cmds: Seq<(Seq<char>, SpecModel)>, ovs: Seq<(Seq<char>, SpecOverrideModel)>) -> bool {
    forall|j: int|
        0 <= j < ovs.len() ==> whole_override(#[trigger] ovs[j].1) || match key_pos(cmds, ovs[j].0) {
            Some(i) => cmds[i].1 is Discriminated && ovs[j].1 is Discriminated,
            None => false,
        }
}

/// Keys that occur once.
pub open spec fn unique_keys<V>(s: Seq<(Seq<char>, V)>) -> bool {
    forall|i: int, j: int| 0 <= i < j < s.len() ==> s[i].0 != s[j].0
}

pub proof fn lemma_spec_wf_model(s: CommandSpec)
    ensures
        crate::spec::spec_wf(s) == model_wf(spec_model(s)),
{
}

pub proof fn lemma_same_keys_same_pos<V, W>(s: Seq<(Seq<char>, V)>, t: Seq<(Seq<char>, W)>, k: Seq<char>)
    requires
        s.len() == t.len(),
        forall|j: int| 0 <= j < s.len() ==> s[j].0 == t[j].0,
    ensures
        key_pos(s, k) == key_pos(t, k),
{
    lemma_key_pos(s, k);
    lemma_key_pos(t, k);
    match key_pos(s, k) {
        Some(i) => match key_pos(t, k) {
            Some(j) => {
                if i < j {
                    assert(t[i].0 == s[i].0);
                } else if j < i {
                    assert(s[j].0 == t[j].0);
                }
            },
            None => {
                assert(t[i].0 == s[i].0);
            },
        },
        None => {
            if key_pos(t, k) is Some {
                let j = key_pos(t, k)->0;
                assert(s[j].0 == t[j].0);
            }
        },
    }
}

pub proof fn lemma_key_pos_push_other<V>(s: Seq<(Seq<char>, V)>, e: (Seq<char>, V), k: Seq<char>)
    requires
        e.0 != k,
    ensures
        key_pos(s.push(e), k) == key_pos(s, k),
{
    assert(s.push(e).drop_last() =~= s);
}

proof fn lemma_keyed_put_unique<V>(s: Seq<(Seq<char>, V)>, k: Seq<char>, v: V)
    requires
        unique_keys(s),
    ensures
        unique_keys(keyed_put(s, k, v)),
{
    lemma_key_pos(s, k);
}

pub proof fn lemma_norm_commands_unique(o: Seq<(Seq<char>, SpecOverrideModel)>, acc: Seq<(Seq<char>, SpecOverrideModel)>)
    requires
        unique_keys(acc),
    ensures
        unique_keys(norm_commands(o, acc)),
    decreases o.len(),
{
    if o.len() > 0 {
        lemma_keyed_put_unique(acc, lower_seq(o[0].0), norm_spec(o[0].1));
        lemma_norm_commands_unique(o.drop_first(), keyed_put(acc, lower_seq(o[0].0), norm_spec(o[0].1)));
    }
}

proof fn lemma_keyed_put_len<V>(s: Seq<(Seq<char>, V)>, k: Seq<char>, v: V)
    ensures
        keyed_put(s, k, v).len() >= s.len(),
        keyed_put(s, k, v).len() > 0,
{
    lemma_key_pos(s, k);
}

proof fn lemma_full_forms_len(o: Seq<(Seq<char>, FormOverrideModel)>, acc: Seq<(Seq<char>, FormModel)>)
    ensures
        full_forms(o, acc).len() >= acc.len(),
        o.len() > 0 ==> full_forms(o, acc).len() > 0,
    decreases o.len(),
{
    if o.len() > 0 {
        lemma_keyed_put_len(acc, upper_seq(o[0].0), full_form(o[0].1));
        lemma_full_forms_len(o.drop_first(), keyed_put(acc, upper_seq(o[0].0), full_form(o[0].1)));
    }
}

proof fn lemma_merged_forms_len(b: Seq<(Seq<char>, FormModel)>, o: Seq<(Seq<char>, FormOverrideModel)>)
    ensures
        merged_forms(b, o).len() >= b.len(),
    decreases o.len(),
{
    if o.len() > 0 {
        lemma_key_pos(b, o[0].0);
        let next = match key_pos(b, o[0].0) {
            Some(i) => b.update(i, (o[0].0, merged_form(b[i].1, o[0].1))),
            None => b.push((o[0].0, full_form(o[0].1))),
        };
        lemma_merged_forms_len(next, o.drop_first());
    }
}

/// A merge keeps a spec whole when the override is whole or both are
/// discriminated.
pub proof fn lemma_merged_spec_wf(b: SpecModel, o: SpecOverrideModel)
    requires
        model_wf(b),
        whole_override(o) || (b is Discriminated && o is Discriminated),
    ensures
        model_wf(merged_spec(b, o)),
{
    match (b, o) {
        (SpecModel::Single(_), SpecOverrideModel::Single(_)) => {},
        (
            SpecModel::Discriminated { forms: bfs, fallback: bfb },
            SpecOverrideModel::Discriminated { forms: ofs, fallback: ofb },
        ) => {
            lemma_merged_forms_len(bfs, ofs);
        },
        (_, o2) => {
            match o2 {
                SpecOverrideModel::Discriminated { forms, fallback } => {
                    lemma_full_forms_len(forms, Seq::empty());
                },
                _ => {},
            }
        },
    }
}

pub proof fn lemma_full_spec_wf(o: SpecOverrideModel)
    requires
        whole_override(o),
    ensures
        model_wf(full_spec(o)),
{
    match o {
        SpecOverrideModel::Discriminated { forms, fallback } => {
            lemma_full_forms_len(forms, Seq::empty());
        },
        _ => {},
    }
}

// ── Conversions ─────────────────────────────────────────────────────────────

impl KwargSpecOverride {
    /// The keyword spec this override describes on its own.
    pub fn into_full_spec(self) -> (r: KwargSpec)
        ensures
            kwarg_model(r) == full_kwarg(kwarg_override_model(self)),
    {
        full_kwarg_of(&self)
    }
}

impl CommandFormOverride {
    /// The form this override describes on its own.
    pub fn into_full_form(self) -> (r: CommandForm)
        ensures
            form_model(r) == full_form(form_override_model(self)),
    {
        full_form_of(&self)
    }
}

impl CommandSpecOverride {
    /// The spec this override describes on its own.
    pub fn into_full_spec(self) -> (r: CommandSpec)
        ensures
            spec_model(r) == full_spec(spec_override_model(self)),
    {
        full_spec_of(&self)
    }
}

/// An argument count as a spec file writes it in text: `*`, `+`, `?`, `N+`
/// for at least `N`, or a number.
pub open spec fn nargs_text(s: Seq<char>) -> Result<NArgs, Seq<char>> {
    if s == "*"@ {
        Ok(NArgs::ZeroOrMore)
    } else if s == "+"@ {
        Ok(NArgs::OneOrMore)
    } else if s == "?"@ {
        Ok(NArgs::Optional)
    } else if s.len() > 1 && s.last() == '+' {
        match crate::report::parse_uint(s.drop_last()) {
            Some(n) => Ok(NArgs::AtLeast(n as usize)),
            None => Err("invalid NArgs pattern: "@ + s),
        }
    } else {
        match crate::report::parse_uint(s) {
            Some(n) => Ok(NArgs::Fixed(n as usize)),
            None => Err("invalid NArgs value: "@ + s),
        }
    }
}

/// Argument counts as text: `*`, `+` and `?` are any number, at least one
/// and at most one; a decimal number `N` is exactly `N`; `N+` is at least
/// `N`.
pub proof fn lemma_nargs_text(n: nat)
    requires
        n <= usize::MAX,
    ensures
        nargs_text("*"@) == Ok::<NArgs, Seq<char>>(NArgs::ZeroOrMore),
        nargs_text("+"@) == Ok::<NArgs, Seq<char>>(NArgs::OneOrMore),
        nargs_text("?"@) == Ok::<NArgs, Seq<char>>(NArgs::Optional),
        nargs_text(crate::text::decimal(n)) == Ok::<NArgs, Seq<char>>(NArgs::Fixed(n as usize)),
        nargs_text(crate::text::decimal(n) + "+"@) == Ok::<NArgs, Seq<char>>(NArgs::AtLeast(n as usize)),
{
    reveal_strlit("*");
    reveal_strlit("+");
    reveal_strlit("?");
    crate::report::lemma_parse_decimal(n);
    let d = crate::text::decimal(n);
    assert(crate::report::parse_uint(d) == Some(n));
    crate::report::lemma_decimal_digits(n);
    assert(d.last() == d[d.len() - 1]);
    assert('0' <= d[d.len() - 1] <= '9');
    let e = d + "+"@;
    assert(e.drop_last() =~= d);
    assert(e.last() == '+');
    assert(e.len() > 1);
    if d.len() == 1 {
        assert(d != "*"@ && d != "+"@ && d != "?"@);
    }
}

/// Read an argument count written as text.
pub fn parse_nargs(s: &str) -> (r: Result<NArgs, String>)
    ensures
        match nargs_text(s@) {
            Ok(n) => r == Ok::<NArgs, String>(n),
            Err(m) => r matches Err(t) && t@ == m,
        },
{
    proof {
        reveal_strlit("*");
        reveal_strlit("+");
        reveal_strlit("?");
    }
    if crate::text::str_eq(s, "*") {
        return Ok(NArgs::ZeroOrMore);
    }
    if crate::text::str_eq(s, "+") {
        return Ok(NArgs::OneOrMore);
    }
    if crate::text::str_eq(s, "?") {
        return Ok(NArgs::Optional);
    }
    let v = crate::text::chars_of(s);
    if v.len() > 1 && v[v.len() - 1] == '+' {
        let head = crate::text::string_of(&v, 0, v.len() - 1);
        assert(head@ =~= s@.drop_last());
        match crate::report::parse_usize(head.as_str()) {
            Some(n) => Ok(NArgs::AtLeast(n)),
            None => {
                let mut m = crate::text::owned("invalid NArgs pattern: ");
                crate::text::push_str(&mut m, s);
                Err(m)
            },
        }
    } else {
        match crate::report::parse_usize(s) {
            Some(n) => Ok(NArgs::Fixed(n)),
            None => {
                let mut m = crate::text::owned("invalid NArgs value: ");
                crate::text::push_str(&mut m, s);
                Err(m)
            },
        }
    }
}

/// An argument count written as an integer: that many, a negative one
/// counting as none.
pub fn nargs_of_integer(v: i64) -> (r: NArgs)
    ensures
        r == NArgs::Fixed(if v < 0 { 0usize } else { v as usize }),
{
    if v < 0 {
        NArgs::Fixed(0)
    } else {
        NArgs::Fixed(v as usize)
    }
}

// ── Laws ────────────────────────────────────────────────────────────────────

/// Merging overrides keeps every command where it was, under its name, and
/// leaves every command an override names present afterwards.
pub proof fn lemma_merge_keeps_commands(b: Seq<(Seq<char>, SpecModel)>, o: Seq<(Seq<char>, SpecOverrideModel)>)
    ensures
        merged_commands(b, o).len() >= b.len(),
        forall|i: int| 0 <= i < b.len() ==> #[trigger] merged_commands(b, o)[i].0 == b[i].0,
        forall|j: int| 0 <= j < o.len() ==> key_pos(merged_commands(b, o), #[trigger] o[j].0) is Some,
    decreases o.len(),
{
    if o.len() > 0 {
        lemma_key_pos(b, o[0].0);
        let next = match key_pos(b, o[0].0) {
            Some(i) => b.update(i, (o[0].0, merged_spec(b[i].1, o[0].1))),
            None => b.push((o[0].0, full_spec(o[0].1))),
        };
        lemma_merge_keeps_commands(next, o.drop_first());
        let m = merged_commands(b, o);
        assert(m == merged_commands(next, o.drop_first()));
        assert forall|i: int| 0 <= i < b.len() implies #[trigger] m[i].0 == b[i].0 by {
            assert(next[i].0 == b[i].0);
        }
        assert forall|j: int| 0 <= j < o.len() implies key_pos(m, #[trigger] o[j].0) is Some by {
            if j > 0 {
                assert(o.drop_first()[j - 1] == o[j]);
            } else {
                lemma_key_pos(next, o[0].0);
                let p = key_pos(next, o[0].0);
                let w: int = match key_pos(b, o[0].0) {
                    Some(i) => i,
                    None => b.len() as int,
                };
                assert(next[w].0 == o[0].0);
                assert(p is Some);
                let pi = p->0;
                assert(m[pi].0 == next[pi].0);
                lemma_key_pos(m, o[0].0);
            }
        }
    }
}

/// Adding flags keeps every flag that was there and adds each new one once:
/// the result holds exactly the flags of both.
pub proof fn lemma_flag_union(s: Seq<Seq<char>>, add: Seq<Seq<char>>, x: Seq<char>)
    ensures
        set_union(s, add).contains(x) == (s.contains(x) || add.contains(x)),
        set_union(s, add).len() <= s.len() + add.len(),
    decreases add.len(),
{
    if add.len() > 0 {
        lemma_flag_union(set_insert(s, add[0]), add.drop_first(), x);
        if add.contains(x) && !add.drop_first().contains(x) {
            assert(add[0] == x) by {
                let k = choose|k: int| 0 <= k < add.len() && add[k] == x;
                if k > 0 {
                    assert(add.drop_first()[k - 1] == x);
                }
            }
        }
        if add.drop_first().contains(x) {
            let k = choose|k: int| 0 <= k < add.drop_first().len() && add.drop_first()[k] == x;
            assert(add[k + 1] == x);
        }
        if set_insert(s, add[0]).contains(x) && !s.contains(x) {
            assert(x == add[0]) by {
                let k = choose|k: int| 0 <= k < set_insert(s, add[0]).len() && set_insert(s, add[0])[k] == x;
            }
            assert(add[0] == x);
        }
        if s.contains(x) {
            let k = choose|k: int| 0 <= k < s.len() && s[k] == x;
            assert(set_insert(s, add[0])[k] == x);
        }
        if add[0] == x {
            if !s.contains(x) {
                assert(set_insert(s, add[0]).last() == x);
            }
        }
    }
}

} // verus!
