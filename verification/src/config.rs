//! Runtime formatter configuration.
//!
//! [`Config`] is the fully resolved in-memory configuration used by the
//! formatter. It is built from defaults and from config files (closest
//! file wins); reading and deserializing the files happens at the edge of
//! the program, and the files reach this module as [`FileConfig`] values.

use vstd::prelude::*;
use crate::text::{
    copy_string, lower_seq, owned, push_char, push_str, str_eq, to_lower, to_upper, upper_seq,
    usize_to_string, decimal,
};

verus! {

broadcast use vstd::string::group_string_axioms;

/// How to normalise command/keyword casing.
#[derive(Debug, Clone, Copy, PartialEq, Eq, Structural)]
pub enum CaseStyle {
    /// Force lowercase output.
    Lower,
    /// Force uppercase output.
    Upper,
    /// Preserve the original source casing.
    Unchanged,
}

impl Default for CaseStyle {
    fn default() -> (r: Self)
        ensures
            r == CaseStyle::Upper,
    {
        CaseStyle::Upper
    }
}

/// How to align the dangling closing paren.
#[derive(Debug, Clone, Copy, PartialEq, Eq, Structural)]
pub enum DangleAlign {
    /// Align with the start of the command name.
    Prefix,
    /// Align with the opening paren column.
    Open,
    /// No extra indent (flush with current indent level).
    Close,
}

impl Default for DangleAlign {
    fn default() -> (r: Self)
        ensures
            r == DangleAlign::Prefix,
    {
        DangleAlign::Prefix
    }
}

/// Line ending style.
#[derive(Debug, Clone, Copy, PartialEq, Eq, Structural)]
pub enum LineEnding {
    /// `\n`.
    Unix,
    /// `\r\n`.
    Windows,
}

/// Per-command overrides. Only the fields that are set override the global
/// config for that command.
#[derive(Debug, Clone, Copy, PartialEq, Eq)]
pub struct PerCommandConfig {
    /// Override the command casing rule for this command only.
    pub command_case: Option<CaseStyle>,
    /// Override the keyword casing rule for this command only.
    pub keyword_case: Option<CaseStyle>,
    /// Override the line width for this command only.
    pub line_width: Option<usize>,
    /// Override the indentation width for this command only.
    pub tab_size: Option<usize>,
    /// Override dangling paren placement for this command only.
    pub dangle_parens: Option<bool>,
    /// Override dangling paren alignment for this command only.
    pub dangle_align: Option<DangleAlign>,
    /// Override the hanging-wrap positional argument threshold.
    pub max_pargs_hwrap: Option<usize>,
    /// Override the hanging-wrap subgroup threshold.
    pub max_subgroups_hwrap: Option<usize>,
}

impl Default for PerCommandConfig {
    fn default() -> (r: Self)
        ensures
            r.command_case is None && r.keyword_case is None && r.line_width is None
                && r.tab_size is None && r.dangle_parens is None && r.dangle_align is None
                && r.max_pargs_hwrap is None && r.max_subgroups_hwrap is None,
    {
        PerCommandConfig {
            command_case: None,
            keyword_case: None,
            line_width: None,
            tab_size: None,
            dangle_parens: None,
            dangle_align: None,
            max_pargs_hwrap: None,
            max_subgroups_hwrap: None,
        }
    }
}

/// Full formatter configuration.
#[derive(Debug, Clone, PartialEq, Eq)]
pub struct Config {
    /// Maximum rendered line width before wrapping is attempted.
    pub line_width: usize,
    /// Number of spaces that make up one indentation level.
    pub tab_size: usize,
    /// Emit tab characters for indentation instead of spaces.
    pub use_tabchars: bool,
    /// Maximum number of consecutive empty lines to preserve.
    pub max_empty_lines: usize,
    /// Maximum number of wrapped lines tolerated in a hanging wrap.
    pub max_lines_hwrap: usize,
    /// Maximum number of positional arguments in a hanging wrap.
    pub max_pargs_hwrap: usize,
    /// Maximum number of keyword/flag subgroups in a horizontal wrap.
    pub max_subgroups_hwrap: usize,
    /// Place the closing `)` on its own line when a call wraps.
    pub dangle_parens: bool,
    /// Alignment strategy for a dangling closing `)`.
    pub dangle_align: DangleAlign,
    /// Lower bound used by layout heuristics on command name length.
    pub min_prefix_chars: usize,
    /// Upper bound used by layout heuristics on command name length.
    pub max_prefix_chars: usize,
    /// Insert a space before `(` for control-flow commands such as `if`.
    pub separate_ctrl_name_with_space: bool,
    /// Insert a space before `(` for `function`/`macro` definitions.
    pub separate_fn_name_with_space: bool,
    /// Output casing policy for command names.
    pub command_case: CaseStyle,
    /// Output casing policy for recognized keywords and flags.
    pub keyword_case: CaseStyle,
    /// Enable markup-aware comment handling.
    pub enable_markup: bool,
    /// Reflow plain line comments to fit within the configured width.
    pub reflow_comments: bool,
    /// Preserve the first comment block in a file literally.
    pub first_comment_is_literal: bool,
    /// Regex for comments that should never be reflowed.
    pub literal_comment_pattern: String,
    /// Preferred bullet character when normalizing list markup.
    pub bullet_char: String,
    /// Preferred enumeration punctuation for numbered list markup.
    pub enum_char: String,
    /// Regex describing fenced literal comment blocks.
    pub fence_pattern: String,
    /// Regex describing ruler-style comments.
    pub ruler_pattern: String,
    /// Minimum ruler length before a `#-----` line is treated as a ruler.
    pub hashruler_min_length: usize,
    /// Normalize ruler comments when markup handling is enabled.
    pub canonicalize_hashrulers: bool,
    /// Per-command overrides keyed by lowercase command name; when a name
    /// occurs more than once, the later entry wins.
    pub per_command_overrides: Vec<(String, PerCommandConfig)>,
}

/// The default fence pattern.
pub open spec fn default_fence_pattern() -> Seq<char> {
    "^\\s*[`~]{3}[^`\\n]*$"@
}

/// The default ruler pattern.
pub open spec fn default_ruler_pattern() -> Seq<char> {
    "^[^\\w\\s]{3}.*[^\\w\\s]{3}$"@
}

/// Whether a config holds the default values.
pub open spec fn is_default_config(c: Config) -> bool {
    &&& c.line_width == 80
    &&& c.tab_size == 2
    &&& !c.use_tabchars
    &&& c.max_empty_lines == 1
    &&& c.max_lines_hwrap == 2
    &&& c.max_pargs_hwrap == 6
    &&& c.max_subgroups_hwrap == 2
    &&& !c.dangle_parens
    &&& c.dangle_align == DangleAlign::Prefix
    &&& c.min_prefix_chars == 4
    &&& c.max_prefix_chars == 10
    &&& !c.separate_ctrl_name_with_space
    &&& !c.separate_fn_name_with_space
    &&& c.command_case == CaseStyle::Lower
    &&& c.keyword_case == CaseStyle::Upper
    &&& c.enable_markup
    &&& !c.reflow_comments
    &&& c.first_comment_is_literal
    &&& c.literal_comment_pattern@ == Seq::<char>::empty()
    &&& c.bullet_char@ == "*"@
    &&& c.enum_char@ == "."@
    &&& c.fence_pattern@ == default_fence_pattern()
    &&& c.ruler_pattern@ == default_ruler_pattern()
    &&& c.hashruler_min_length == 10
    &&& c.canonicalize_hashrulers
    &&& c.per_command_overrides@.len() == 0
}

impl Default for Config {
    fn default() -> (r: Self)
        ensures
            is_default_config(r),
    {
        Config {
            line_width: 80,
            tab_size: 2,
            use_tabchars: false,
            max_empty_lines: 1,
            max_lines_hwrap: 2,
            max_pargs_hwrap: 6,
            max_subgroups_hwrap: 2,
            dangle_parens: false,
            dangle_align: DangleAlign::Prefix,
            min_prefix_chars: 4,
            max_prefix_chars: 10,
            separate_ctrl_name_with_space: false,
            separate_fn_name_with_space: false,
            command_case: CaseStyle::Lower,
            keyword_case: CaseStyle::Upper,
            enable_markup: true,
            reflow_comments: false,
            first_comment_is_literal: true,
            literal_comment_pattern: String::new(),
            bullet_char: owned("*"),
            enum_char: owned("."),
            fence_pattern: owned("^\\s*[`~]{3}[^`\\n]*$"),
            ruler_pattern: owned("^[^\\w\\s]{3}.*[^\\w\\s]{3}$"),
            hashruler_min_length: 10,
            canonicalize_hashrulers: true,
            per_command_overrides: Vec::new(),
        }
    }
}

/// CMake control-flow commands that get `separate_ctrl_name_with_space`.
pub open spec fn is_control_flow_command(name: Seq<char>) -> bool {
    name == "if"@ || name == "elseif"@ || name == "else"@ || name == "endif"@ || name
        == "foreach"@ || name == "endforeach"@ || name == "while"@ || name == "endwhile"@ || name
        == "break"@ || name == "continue"@ || name == "return"@ || name == "block"@ || name
        == "endblock"@
}

/// CMake definition commands that get `separate_fn_name_with_space`.
pub open spec fn is_fn_definition_command(name: Seq<char>) -> bool {
    name == "function"@ || name == "endfunction"@ || name == "macro"@ || name == "endmacro"@
}

fn is_control_flow(name: &str) -> (r: bool)
    ensures
        r == is_control_flow_command(name@),
{
    str_eq(name, "if") || str_eq(name, "elseif") || str_eq(name, "else") || str_eq(name, "endif")
        || str_eq(name, "foreach") || str_eq(name, "endforeach") || str_eq(name, "while")
        || str_eq(name, "endwhile") || str_eq(name, "break") || str_eq(name, "continue")
        || str_eq(name, "return") || str_eq(name, "block") || str_eq(name, "endblock")
}

fn is_fn_definition(name: &str) -> (r: bool)
    ensures
        r == is_fn_definition_command(name@),
{
    str_eq(name, "function") || str_eq(name, "endfunction") || str_eq(name, "macro") || str_eq(
        name,
        "endmacro",
    )
}

/// The override for a key: the last entry with that key.
pub open spec fn lookup_override(entries: Seq<(String, PerCommandConfig)>, key: Seq<char>) -> Option<
    PerCommandConfig,
>
    decreases entries.len(),
{
    if entries.len() == 0 {
        None
    } else if entries.last().0@ == key {
        Some(entries.last().1)
    } else {
        lookup_override(entries.drop_last(), key)
    }
}

/// Per-command overrides behave as a map whose insert replaces: after
/// entries `more` are added to `entries`, a key's override is the last one
/// `more` gives it, else the one it had before.
pub proof fn lemma_later_entry_wins(
    entries: Seq<(String, PerCommandConfig)>,
    more: Seq<(String, PerCommandConfig)>,
    key: Seq<char>,
)
    ensures
        lookup_override(entries + more, key) == match lookup_override(more, key) {
            Some(o) => Some(o),
            None => lookup_override(entries, key),
        },
    decreases more.len(),
{
    if more.len() == 0 {
        assert(entries + more =~= entries);
    } else {
        assert((entries + more).drop_last() =~= entries + more.drop_last());
        assert((entries + more).last() == more.last());
        lemma_later_entry_wins(entries, more.drop_last(), key);
    }
}

fn find_override(entries: &Vec<(String, PerCommandConfig)>, key: &str) -> (r: Option<
    PerCommandConfig,
>)
    ensures
        r == lookup_override(entries@, key@),
{
    let mut i = entries.len();
    assert(entries@.subrange(0, i as int) =~= entries@);
    while i > 0
        invariant
            i <= entries@.len(),
            lookup_override(entries@, key@) == lookup_override(entries@.subrange(0, i as int), key@),
        decreases i,
    {
        assert(entries@.subrange(0, i as int).drop_last() =~= entries@.subrange(0, i - 1));
        if str_eq(entries[i - 1].0.as_str(), key) {
            return Some(entries[i - 1].1);
        }
        i -= 1;
    }
    None
}

/// The value of an optional override, or the fallback.
pub open spec fn or_default<T>(o: Option<T>, d: T) -> T {
    match o {
        Some(v) => v,
        None => d,
    }
}

/// A run of `n` spaces.
pub open spec fn spaces(n: nat) -> Seq<char> {
    Seq::new(n, |_i: int| ' ')
}

/// A string of `n` copies of `c`.
pub fn repeat_char(c: char, n: usize) -> (r: String)
    ensures
        r@ == Seq::new(n as nat, |_i: int| c),
{
    let mut s = String::new();
    let mut i: usize = 0;
    while i < n
        invariant
            i <= n,
            s@ == Seq::new(i as nat, |_i: int| c),
        decreases n - i,
    {
        push_char(&mut s, c);
        i += 1;
        assert(s@ =~= Seq::new(i as nat, |_i: int| c));
    }
    s
}

/// The indentation unit: a tab, or `tab_size` spaces.
pub open spec fn indent_unit(use_tabs: bool, tab_size: nat) -> Seq<char> {
    if use_tabs {
        seq!['\t']
    } else {
        spaces(tab_size)
    }
}

/// A casing rule applied to a text.
pub open spec fn cased(style: CaseStyle, s: Seq<char>) -> Seq<char> {
    match style {
        CaseStyle::Lower => lower_seq(s),
        CaseStyle::Upper => upper_seq(s),
        CaseStyle::Unchanged => s,
    }
}

/// Casing rules: `lower` leaves no ASCII uppercase letter and `upper` no
/// ASCII lowercase one, each changing only letter case (same length, same
/// letters case-insensitively); `unchanged` leaves the text as it is.
pub proof fn lemma_case_styles(s: Seq<char>)
    ensures
        cased(CaseStyle::Unchanged, s) == s,
        cased(CaseStyle::Lower, s).len() == s.len(),
        cased(CaseStyle::Upper, s).len() == s.len(),
        forall|i: int| 0 <= i < s.len() ==> !('A' <= #[trigger] cased(CaseStyle::Lower, s)[i] <= 'Z'),
        forall|i: int| 0 <= i < s.len() ==> !('a' <= #[trigger] cased(CaseStyle::Upper, s)[i] <= 'z'),
        forall|i: int|
            0 <= i < s.len() && 'A' <= s[i] <= 'Z' ==> #[trigger] cased(CaseStyle::Lower, s)[i] as u32 == s[i] as u32 + 32,
        forall|i: int|
            0 <= i < s.len() && 'a' <= s[i] <= 'z' ==> #[trigger] cased(CaseStyle::Upper, s)[i] as u32 == s[i] as u32 - 32,
        forall|i: int| 0 <= i < s.len() && !('A' <= s[i] <= 'Z') ==> #[trigger] cased(CaseStyle::Lower, s)[i] == s[i],
        forall|i: int| 0 <= i < s.len() && !('a' <= s[i] <= 'z') ==> #[trigger] cased(CaseStyle::Upper, s)[i] == s[i],
{
}

/// Apply a casing rule to a text.
pub fn apply_case(style: CaseStyle, s: &str) -> (r: String)
    ensures
        r@ == cased(style, s@),
{
    match style {
        CaseStyle::Lower => to_lower(s),
        CaseStyle::Upper => to_upper(s),
        CaseStyle::Unchanged => owned(s),
    }
}

impl Config {
    /// The configuration for one command: its per-command override (looked
    /// up by lowercase name) and whether a space goes before `(`.
    pub fn for_command(&self, command_name: &str) -> (r: CommandConfig<'_>)
        ensures
            r.global == self,
            r.per_cmd == lookup_override(self.per_command_overrides@, lower_seq(command_name@)),
            r.space_before_paren == if is_control_flow_command(lower_seq(command_name@)) {
                self.separate_ctrl_name_with_space
            } else if is_fn_definition_command(lower_seq(command_name@)) {
                self.separate_fn_name_with_space
            } else {
                false
            },
    {
        let lower = to_lower(command_name);
        let per_cmd = find_override(&self.per_command_overrides, lower.as_str());
        let space_before_paren = if is_control_flow(lower.as_str()) {
            self.separate_ctrl_name_with_space
        } else if is_fn_definition(lower.as_str()) {
            self.separate_fn_name_with_space
        } else {
            false
        };
        CommandConfig { global: self, per_cmd, space_before_paren }
    }

    /// Apply the command_case rule to a command name.
    pub fn apply_command_case(&self, name: &str) -> (r: String)
        ensures
            r@ == cased(self.command_case, name@),
    {
        apply_case(self.command_case, name)
    }

    /// Apply the keyword_case rule to a keyword token.
    pub fn apply_keyword_case(&self, keyword: &str) -> (r: String)
        ensures
            r@ == cased(self.keyword_case, keyword@),
    {
        apply_case(self.keyword_case, keyword)
    }

    /// The indentation string (spaces or tab).
    pub fn indent_str(&self) -> (r: String)
        ensures
            r@ == indent_unit(self.use_tabchars, self.tab_size as nat),
    {
        if self.use_tabchars {
            let r = owned("\t");
            proof {
                reveal_strlit("\t");
            }
            assert(r@ =~= seq!['\t']);
            r
        } else {
            repeat_char(' ', self.tab_size)
        }
    }
}

/// A resolved config for formatting one command, with its per-command
/// overrides.
#[derive(Debug)]
pub struct CommandConfig<'a> {
    /// The global configuration before per-command overrides are applied.
    pub global: &'a Config,
    /// The override that applies to this command, if any.
    pub per_cmd: Option<PerCommandConfig>,
    /// Whether this command should render a space before `(`.
    pub space_before_paren: bool,
}

/// Effective line width of a command config.
pub open spec fn eff_line_width(c: CommandConfig) -> usize {
    match c.per_cmd {
        Some(p) => or_default(p.line_width, c.global.line_width),
        None => c.global.line_width,
    }
}

/// Effective indentation width of a command config.
pub open spec fn eff_tab_size(c: CommandConfig) -> usize {
    match c.per_cmd {
        Some(p) => or_default(p.tab_size, c.global.tab_size),
        None => c.global.tab_size,
    }
}

/// Effective dangling-paren setting of a command config.
pub open spec fn eff_dangle_parens(c: CommandConfig) -> bool {
    match c.per_cmd {
        Some(p) => or_default(p.dangle_parens, c.global.dangle_parens),
        None => c.global.dangle_parens,
    }
}

/// Effective dangling-paren alignment of a command config.
pub open spec fn eff_dangle_align(c: CommandConfig) -> DangleAlign {
    match c.per_cmd {
        Some(p) => or_default(p.dangle_align, c.global.dangle_align),
        None => c.global.dangle_align,
    }
}

/// Effective command casing of a command config.
pub open spec fn eff_command_case(c: CommandConfig) -> CaseStyle {
    match c.per_cmd {
        Some(p) => or_default(p.command_case, c.global.command_case),
        None => c.global.command_case,
    }
}

/// Effective keyword casing of a command config.
pub open spec fn eff_keyword_case(c: CommandConfig) -> CaseStyle {
    match c.per_cmd {
        Some(p) => or_default(p.keyword_case, c.global.keyword_case),
        None => c.global.keyword_case,
    }
}

/// Effective positional-argument hanging-wrap threshold of a command config.
pub open spec fn eff_max_pargs(c: CommandConfig) -> usize {
    match c.per_cmd {
        Some(p) => or_default(p.max_pargs_hwrap, c.global.max_pargs_hwrap),
        None => c.global.max_pargs_hwrap,
    }
}

/// Effective subgroup hanging-wrap threshold of a command config.
pub open spec fn eff_max_subgroups(c: CommandConfig) -> usize {
    match c.per_cmd {
        Some(p) => or_default(p.max_subgroups_hwrap, c.global.max_subgroups_hwrap),
        None => c.global.max_subgroups_hwrap,
    }
}

/// Effective indentation unit of a command config.
pub open spec fn eff_indent(c: CommandConfig) -> Seq<char> {
    indent_unit(c.global.use_tabchars, eff_tab_size(c) as nat)
}

impl<'a> CommandConfig<'a> {
    /// Effective line width for the current command.
    pub fn line_width(&self) -> (r: usize)
        ensures
            r == eff_line_width(*self),
    {
        match self.per_cmd {
            Some(p) => match p.line_width {
                Some(v) => v,
                None => self.global.line_width,
            },
            None => self.global.line_width,
        }
    }

    /// Effective indentation width for the current command.
    pub fn tab_size(&self) -> (r: usize)
        ensures
            r == eff_tab_size(*self),
    {
        match self.per_cmd {
            Some(p) => match p.tab_size {
                Some(v) => v,
                None => self.global.tab_size,
            },
            None => self.global.tab_size,
        }
    }

    /// Effective dangling-paren setting for the current command.
    pub fn dangle_parens(&self) -> (r: bool)
        ensures
            r == eff_dangle_parens(*self),
    {
        match self.per_cmd {
            Some(p) => match p.dangle_parens {
                Some(v) => v,
                None => self.global.dangle_parens,
            },
            None => self.global.dangle_parens,
        }
    }

    /// Effective dangling-paren alignment for the current command.
    pub fn dangle_align(&self) -> (r: DangleAlign)
        ensures
            r == eff_dangle_align(*self),
    {
        match self.per_cmd {
            Some(p) => match p.dangle_align {
                Some(v) => v,
                None => self.global.dangle_align,
            },
            None => self.global.dangle_align,
        }
    }

    /// Effective command casing rule for the current command.
    pub fn command_case(&self) -> (r: CaseStyle)
        ensures
            r == eff_command_case(*self),
    {
        match self.per_cmd {
            Some(p) => match p.command_case {
                Some(v) => v,
                None => self.global.command_case,
            },
            None => self.global.command_case,
        }
    }

    /// Effective keyword casing rule for the current command.
    pub fn keyword_case(&self) -> (r: CaseStyle)
        ensures
            r == eff_keyword_case(*self),
    {
        match self.per_cmd {
            Some(p) => match p.keyword_case {
                Some(v) => v,
                None => self.global.keyword_case,
            },
            None => self.global.keyword_case,
        }
    }

    /// Effective hanging-wrap positional argument threshold.
    pub fn max_pargs_hwrap(&self) -> (r: usize)
        ensures
            r == eff_max_pargs(*self),
    {
        match self.per_cmd {
            Some(p) => match p.max_pargs_hwrap {
                Some(v) => v,
                None => self.global.max_pargs_hwrap,
            },
            None => self.global.max_pargs_hwrap,
        }
    }

    /// Effective hanging-wrap subgroup threshold.
    pub fn max_subgroups_hwrap(&self) -> (r: usize)
        ensures
            r == eff_max_subgroups(*self),
    {
        match self.per_cmd {
            Some(p) => match p.max_subgroups_hwrap {
                Some(v) => v,
                None => self.global.max_subgroups_hwrap,
            },
            None => self.global.max_subgroups_hwrap,
        }
    }

    /// Effective indentation unit for the current command.
    pub fn indent_str(&self) -> (r: String)
        ensures
            r@ == eff_indent(*self),
    {
        if self.global.use_tabchars {
            let r = owned("\t");
            proof {
                reveal_strlit("\t");
            }
            assert(r@ =~= seq!['\t']);
            r
        } else {
            repeat_char(' ', self.tab_size())
        }
    }
}

} // verus!
