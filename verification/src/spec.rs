//! Command-spec data model used by the formatter.
//!
//! The registry describes the argument structure of known commands so the
//! formatter can recognize positional arguments, keywords, flags, and
//! command-specific layout hints. Keyed collections are vectors of
//! `(key, value)` pairs in insertion order; lookups take the first entry
//! with the key.

use vstd::prelude::*;
use crate::text::{str_eq, to_upper, upper_seq, is_lower};

verus! {

broadcast use vstd::string::group_string_axioms;

/// How many arguments a positional slot or keyword takes.
#[derive(Debug, Clone, Copy, PartialEq, Eq, Structural)]
pub enum NArgs {
    Fixed(usize),
    ZeroOrMore,
    OneOrMore,
    Optional,
    AtLeast(usize),
}

impl Default for NArgs {
    fn default() -> (r: Self)
        ensures
            r == NArgs::ZeroOrMore,
    {
        NArgs::ZeroOrMore
    }
}

/// Layout hints for a command form.
#[derive(Debug, Clone, Copy, PartialEq, Eq)]
pub struct LayoutOverrides {
    pub line_width: Option<usize>,
    pub tab_size: Option<usize>,
    pub dangle_parens: Option<bool>,
    pub always_wrap: Option<bool>,
    pub max_pargs_hwrap: Option<usize>,
}

impl Default for LayoutOverrides {
    fn default() -> (r: Self)
        ensures
            r.line_width is None && r.tab_size is None && r.dangle_parens is None
                && r.always_wrap is None && r.max_pargs_hwrap is None,
    {
        LayoutOverrides {
            line_width: None,
            tab_size: None,
            dangle_parens: None,
            always_wrap: None,
            max_pargs_hwrap: None,
        }
    }
}

/// Specification for a keyword section and any nested sub-keywords it accepts.
#[derive(Debug, PartialEq, Eq)]
pub struct KwargSpec {
    /// Number of positional arguments accepted after the keyword itself.
    pub nargs: NArgs,
    /// Nested keywords that may appear after this keyword.
    pub kwargs: Vec<(String, KwargSpec)>,
    /// Flag tokens accepted within this keyword section.
    pub flags: Vec<String>,
}

/// One fully resolved command form.
#[derive(Debug, PartialEq, Eq)]
pub struct CommandForm {
    /// Number of positional arguments before keyword/flag processing starts.
    pub pargs: NArgs,
    /// Recognized top-level keywords for this form.
    pub kwargs: Vec<(String, KwargSpec)>,
    /// Recognized top-level flags for this form.
    pub flags: Vec<String>,
    /// Optional layout hints for this form.
    pub layout: Option<LayoutOverrides>,
}

impl Default for CommandForm {
    fn default() -> (r: Self)
        ensures
            r.pargs == NArgs::ZeroOrMore && r.kwargs@.len() == 0 && r.flags@.len() == 0
                && r.layout is None,
    {
        CommandForm { pargs: NArgs::ZeroOrMore, kwargs: Vec::new(), flags: Vec::new(), layout: None }
    }
}

/// The argument structure of a command.
#[derive(Debug, PartialEq, Eq)]
pub enum CommandSpec {
    /// A command whose structure depends on a discriminator token, usually
    /// the first positional argument.
    Discriminated {
        /// Known forms keyed by normalized discriminator token.
        forms: Vec<(String, CommandForm)>,
        /// Fallback form to use when no discriminator matches.
        fallback: Option<CommandForm>,
    },
    /// A command with a single argument structure.
    Single(CommandForm),
}

/// Version and audit metadata for the built-in spec surface.
#[derive(Debug, Clone, PartialEq, Eq)]
pub struct SpecMetadata {
    pub cmake_version: String,
    pub audited_at: String,
    pub notes: String,
}

/// A spec file: metadata plus command entries.
#[derive(Debug, PartialEq, Eq)]
pub struct SpecFile {
    pub metadata: SpecMetadata,
    pub commands: Vec<(String, CommandSpec)>,
}

/// Partial override for a form's layout hints.
#[derive(Debug, Clone, Copy, PartialEq, Eq)]
pub struct LayoutOverridesOverride {
    pub line_width: Option<usize>,
    pub tab_size: Option<usize>,
    pub dangle_parens: Option<bool>,
    pub always_wrap: Option<bool>,
    pub max_pargs_hwrap: Option<usize>,
}

/// Partial override for a keyword specification.
#[derive(Debug, PartialEq, Eq)]
pub struct KwargSpecOverride {
    pub nargs: Option<NArgs>,
    pub kwargs: Vec<(String, KwargSpecOverride)>,
    pub flags: Vec<String>,
}

/// Partial override for a command form.
#[derive(Debug, PartialEq, Eq)]
pub struct CommandFormOverride {
    pub pargs: Option<NArgs>,
    pub kwargs: Vec<(String, KwargSpecOverride)>,
    pub flags: Vec<String>,
    pub layout: Option<LayoutOverridesOverride>,
}

/// Partial override for a full command spec.
#[derive(Debug, PartialEq, Eq)]
pub enum CommandSpecOverride {
    Single(CommandFormOverride),
    Discriminated { forms: Vec<(String, CommandFormOverride)>, fallback: Option<CommandFormOverride> },
}

/// A user override file: command overrides keyed by command name.
#[derive(Debug, PartialEq, Eq)]
pub struct SpecOverrideFile {
    pub commands: Vec<(String, CommandSpecOverride)>,
}

impl LayoutOverridesOverride {
    /// The layout block this override sets.
    pub fn into_full_layout(self) -> (r: LayoutOverrides)
        ensures
            r.line_width == self.line_width,
            r.tab_size == self.tab_size,
            r.dangle_parens == self.dangle_parens,
            r.always_wrap == self.always_wrap,
            r.max_pargs_hwrap == self.max_pargs_hwrap,
    {
        LayoutOverrides {
            line_width: self.line_width,
            tab_size: self.tab_size,
            dangle_parens: self.dangle_parens,
            always_wrap: self.always_wrap,
            max_pargs_hwrap: self.max_pargs_hwrap,
        }
    }
}

// ── Keyed lookups ───────────────────────────────────────────────────────────

/// Index of the first entry whose key is `key`.
pub open spec fn key_index<V>(entries: Seq<(String, V)>, key: Seq<char>) -> Option<int>
    decreases entries.len(),
{
    if entries.len() == 0 {
        None
    } else if entries[0].0@ == key {
        Some(0)
    } else {
        match key_index(entries.drop_first(), key) {
            Some(i) => Some(i + 1),
            None => None,
        }
    }
}

/// Two lists with the same keys place a key at the same index.
pub proof fn lemma_key_index_same_keys<V, W>(a: Seq<(String, V)>, b: Seq<(String, W)>, key: Seq<char>)
    requires
        a.len() == b.len(),
        forall|j: int| 0 <= j < a.len() ==> #[trigger] a[j].0@ == b[j].0@,
    ensures
        key_index(a, key) == key_index(b, key),
    decreases a.len(),
{
    if a.len() > 0 {
        assert(a[0].0@ == b[0].0@);
        let (ta, tb) = (a.drop_first(), b.drop_first());
        assert forall|j: int| 0 <= j < ta.len() implies #[trigger] ta[j].0@ == tb[j].0@ by {
            assert(a[j + 1].0@ == b[j + 1].0@);
        }
        lemma_key_index_same_keys(ta, tb, key);
    }
}

pub proof fn lemma_key_index_in_range<V>(entries: Seq<(String, V)>, key: Seq<char>)
    ensures
        key_index(entries, key) matches Some(i) ==> 0 <= i < entries.len(),
{
    lemma_key_index_bounds(entries, key);
}

pub proof fn lemma_key_index_bounds<V>(entries: Seq<(String, V)>, key: Seq<char>)
    ensures
        key_index(entries, key) matches Some(i) ==> 0 <= i < entries.len() && entries[i].0@ == key,
        key_index(entries, key) matches Some(i) ==> forall|j: int| 0 <= j < i ==> entries[j].0@ != key,
        key_index(entries, key) is None ==> forall|j: int|
            0 <= j < entries.len() ==> entries[j].0@ != key,
    decreases entries.len(),
{
    if entries.len() > 0 {
        lemma_key_index_bounds(entries.drop_first(), key);
        if key_index(entries, key) is Some {
            let i = key_index(entries, key)->0;
            assert forall|j: int| 0 <= j < i implies entries[j].0@ != key by {
                if j > 0 {
                    assert(entries.drop_first()[j - 1] == entries[j]);
                }
            }
        }
        if key_index(entries, key) is None {
            assert forall|j: int| 0 <= j < entries.len() implies entries[j].0@ != key by {
                if j > 0 {
                    assert(entries.drop_first()[j - 1] == entries[j]);
                }
            }
        }
    }
}

/// Position of the first entry with a key.
pub fn find_key<V>(entries: &Vec<(String, V)>, key: &str) -> (r: Option<usize>)
    ensures
        match key_index(entries@, key@) {
            Some(i) => r == Some(i as usize),
            None => r is None,
        },
        r matches Some(i) ==> i < entries@.len(),
        key_index(entries@, key@) matches Some(i) ==> 0 <= i < entries@.len(),
{
    proof {
        lemma_key_index_bounds(entries@, key@);
    }
    let mut i: usize = 0;
    assert(entries@.subrange(0, entries@.len() as int) =~= entries@);
    while i < entries.len()
        invariant
            i <= entries@.len(),
            key_index(entries@, key@) == match key_index(entries@.subrange(i as int, entries@.len() as int), key@) {
                Some(j) => Some(j + i),
                None => None,
            },
        decreases entries@.len() - i,
    {
        let ghost rest = entries@.subrange(i as int, entries@.len() as int);
        assert(rest.drop_first() =~= entries@.subrange(i + 1, entries@.len() as int));
        if str_eq(entries[i].0.as_str(), key) {
            assert(rest[0] == entries@[i as int]);
            return Some(i);
        }
        i += 1;
    }
    proof {
        lemma_key_index_bounds(entries@, key@);
    }
    None
}

/// Whether any text of a sequence is `key`.
pub open spec fn has_text(items: Seq<String>, key: Seq<char>) -> bool {
    exists|i: int| 0 <= i < items.len() && items[i]@ == key
}

/// Whether a list of texts holds one.
pub fn contains_text(items: &Vec<String>, key: &str) -> (r: bool)
    ensures
        r == has_text(items@, key@),
{
    let mut i: usize = 0;
    while i < items.len()
        invariant
            i <= items@.len(),
            forall|j: int| 0 <= j < i ==> items@[j]@ != key@,
        decreases items@.len() - i,
    {
        if str_eq(items[i].as_str(), key) {
            return true;
        }
        i += 1;
    }
    false
}

/// Whether a text holds an ASCII lowercase letter.
pub open spec fn has_lower(s: Seq<char>) -> bool {
    exists|i: int| 0 <= i < s.len() && is_lower(s[i])
}

/// Whether a text holds an ASCII uppercase letter.
pub open spec fn has_upper(s: Seq<char>) -> bool {
    exists|i: int| 0 <= i < s.len() && crate::text::is_upper(s[i])
}

/// Whether a text holds an ASCII lowercase letter.
pub fn has_ascii_lowercase(s: &str) -> (r: bool)
    ensures
        r == has_lower(s@),
{
    let v = crate::text::chars_of(s);
    let mut i: usize = 0;
    while i < v.len()
        invariant
            i <= v@.len(),
            v@ == s@,
            forall|j: int| 0 <= j < i ==> !is_lower(v@[j]),
        decreases v@.len() - i,
    {
        if 'a' <= v[i] && v[i] <= 'z' {
            return true;
        }
        i += 1;
    }
    false
}

/// Whether a text holds an ASCII uppercase letter.
pub fn has_ascii_uppercase(s: &str) -> (r: bool)
    ensures
        r == has_upper(s@),
{
    let v = crate::text::chars_of(s);
    let mut i: usize = 0;
    while i < v.len()
        invariant
            i <= v@.len(),
            v@ == s@,
            forall|j: int| 0 <= j < i ==> !crate::text::is_upper(v@[j]),
        decreases v@.len() - i,
    {
        if 'A' <= v[i] && v[i] <= 'Z' {
            return true;
        }
        i += 1;
    }
    false
}

/// Index of the entry a token selects, case-insensitively: the entry with
/// the token itself, else (when the token has lowercase letters) the entry
/// with its uppercase form.
pub open spec fn token_index<V>(entries: Seq<(String, V)>, token: Seq<char>) -> Option<int> {
    match key_index(entries, token) {
        Some(i) => Some(i),
        None => if has_lower(token) {
            key_index(entries, upper_seq(token))
        } else {
            None
        },
    }
}

/// Position of the entry a token selects, case-insensitively.
pub fn find_token<V>(entries: &Vec<(String, V)>, token: &str) -> (r: Option<usize>)
    ensures
        match token_index(entries@, token@) {
            Some(i) => r == Some(i as usize),
            None => r is None,
        },
        r matches Some(i) ==> i < entries@.len(),
        token_index(entries@, token@) matches Some(i) ==> 0 <= i < entries@.len(),
{
    proof {
        lemma_key_index_bounds(entries@, token@);
        lemma_key_index_bounds(entries@, upper_seq(token@));
    }
    match find_key(entries, token) {
        Some(i) => Some(i),
        None => {
            if has_ascii_lowercase(token) {
                let upper = to_upper(token);
                find_key(entries, upper.as_str())
            } else {
                None
            }
        },
    }
}

/// Whether a token names one of the flags, case-insensitively.
pub open spec fn flag_match(flags: Seq<String>, token: Seq<char>) -> bool {
    has_text(flags, token) || (has_lower(token) && has_text(flags, upper_seq(token)))
}

/// Whether a token names one of the flags, case-insensitively.
pub fn contains_flag_token(flags: &Vec<String>, token: &str) -> (r: bool)
    ensures
        r == flag_match(flags@, token@),
{
    if contains_text(flags, token) {
        return true;
    }
    if has_ascii_lowercase(token) {
        let upper = to_upper(token);
        contains_text(flags, upper.as_str())
    } else {
        false
    }
}

/// Whether a spec is usable: a discriminated spec has a form or a fallback.
pub open spec fn spec_wf(s: CommandSpec) -> bool {
    match s {
        CommandSpec::Single(_) => true,
        CommandSpec::Discriminated { forms, fallback } => forms@.len() > 0 || fallback is Some,
    }
}

/// The form a spec selects for an invocation whose first argument is
/// `first_arg`: a single form; else the form keyed by the token (or its
/// uppercase form), else the fallback, else the first form.
pub open spec fn selected_form(s: CommandSpec, first_arg: Option<Seq<char>>) -> CommandForm {
    match s {
        CommandSpec::Single(form) => form,
        CommandSpec::Discriminated { forms, fallback } => {
            let key = match first_arg {
                Some(k) => k,
                None => Seq::<char>::empty(),
            };
            match token_index(forms@, key) {
                Some(i) => forms@[i].1,
                None => match fallback {
                    Some(f) => f,
                    None => forms@[0].1,
                },
            }
        },
    }
}

/// The text of an optional string slice.
pub open spec fn opt_text(o: Option<&str>) -> Option<Seq<char>> {
    match o {
        Some(a) => Some(a@),
        None => None,
    }
}

impl CommandSpec {
    /// Resolve the command form for a specific invocation; `first_arg` is
    /// the first non-comment argument of the call.
    pub fn form_for(&self, first_arg: Option<&str>) -> (r: &CommandForm)
        requires
            spec_wf(*self),
        ensures
            *r == selected_form(*self, opt_text(first_arg)),
    {
        let ghost fa = opt_text(first_arg);
        match self {
            CommandSpec::Single(form) => {
                assert(selected_form(*self, fa) == *form);
                form
            },
            CommandSpec::Discriminated { forms, fallback } => {
                let key: &str = match first_arg {
                    Some(a) => a,
                    None => "",
                };
                proof {
                    reveal_strlit("");
                }
                assert(first_arg is None ==> key@ =~= Seq::<char>::empty());
                assert(key@ == match fa { Some(k) => k, None => Seq::<char>::empty() });
                let _n = forms.len();
                match find_token(forms, key) {
                    Some(i) => {
                        let r = &forms[i].1;
                        assert(*r == selected_form(*self, fa));
                        r
                    },
                    None => match fallback {
                        Some(f) => {
                            assert(*f == selected_form(*self, fa));
                            f
                        },
                        None => {
                            let r = &forms[0].1;
                            assert(*r == selected_form(*self, fa));
                            r
                        },
                    },
                }
            },
        }
    }
}


} // verus!
