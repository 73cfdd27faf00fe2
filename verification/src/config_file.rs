//! Config files: their model as read from disk, how one is applied on top
//! of a configuration, and the starter template.

use vstd::prelude::*;
use crate::config::{CaseStyle, Config, DangleAlign, LineEnding, PerCommandConfig, default_fence_pattern, default_ruler_pattern};
use crate::text::{copy_string, owned, push_str, strs, usize_to_string, decimal};

verus! {

broadcast use vstd::string::group_string_axioms;

/// The `[format]` section of a config file.
#[derive(Debug, Clone, PartialEq, Eq)]
pub struct FormatSection {
    pub line_width: Option<usize>,
    pub tab_size: Option<usize>,
    pub use_tabchars: Option<bool>,
    pub max_empty_lines: Option<usize>,
    pub max_lines_hwrap: Option<usize>,
    pub max_pargs_hwrap: Option<usize>,
    pub max_subgroups_hwrap: Option<usize>,
    pub dangle_parens: Option<bool>,
    pub dangle_align: Option<DangleAlign>,
    pub min_prefix_chars: Option<usize>,
    pub max_prefix_chars: Option<usize>,
    pub separate_ctrl_name_with_space: Option<bool>,
    pub separate_fn_name_with_space: Option<bool>,
}

impl Default for FormatSection {
    fn default() -> (r: Self)
        ensures
            r.line_width is None,
            r.tab_size is None,
            r.use_tabchars is None,
            r.max_empty_lines is None,
            r.max_lines_hwrap is None,
            r.max_pargs_hwrap is None,
            r.max_subgroups_hwrap is None,
            r.dangle_parens is None,
            r.dangle_align is None,
            r.min_prefix_chars is None,
            r.max_prefix_chars is None,
            r.separate_ctrl_name_with_space is None,
            r.separate_fn_name_with_space is None,
    {
        FormatSection {
            line_width: None,
            tab_size: None,
            use_tabchars: None,
            max_empty_lines: None,
            max_lines_hwrap: None,
            max_pargs_hwrap: None,
            max_subgroups_hwrap: None,
            dangle_parens: None,
            dangle_align: None,
            min_prefix_chars: None,
            max_prefix_chars: None,
            separate_ctrl_name_with_space: None,
            separate_fn_name_with_space: None,
        }
    }
}

/// The `[style]` section of a config file.
#[derive(Debug, Clone, PartialEq, Eq)]
pub struct StyleSection {
    pub command_case: Option<CaseStyle>,
    pub keyword_case: Option<CaseStyle>,
}

impl Default for StyleSection {
    fn default() -> (r: Self)
        ensures
            r.command_case is None,
            r.keyword_case is None,
    {
        StyleSection {
            command_case: None,
            keyword_case: None,
        }
    }
}

/// The `[markup]` section of a config file.
#[derive(Debug, Clone, PartialEq, Eq)]
pub struct MarkupSection {
    pub enable_markup: Option<bool>,
    pub reflow_comments: Option<bool>,
    pub first_comment_is_literal: Option<bool>,
    pub literal_comment_pattern: Option<String>,
    pub bullet_char: Option<String>,
    pub enum_char: Option<String>,
    pub fence_pattern: Option<String>,
    pub ruler_pattern: Option<String>,
    pub hashruler_min_length: Option<usize>,
    pub canonicalize_hashrulers: Option<bool>,
}

impl Default for MarkupSection {
    fn default() -> (r: Self)
        ensures
            r.enable_markup is None,
            r.reflow_comments is None,
            r.first_comment_is_literal is None,
            r.literal_comment_pattern is None,
            r.bullet_char is None,
            r.enum_char is None,
            r.fence_pattern is None,
            r.ruler_pattern is None,
            r.hashruler_min_length is None,
            r.canonicalize_hashrulers is None,
    {
        MarkupSection {
            enable_markup: None,
            reflow_comments: None,
            first_comment_is_literal: None,
            literal_comment_pattern: None,
            bullet_char: None,
            enum_char: None,
            fence_pattern: None,
            ruler_pattern: None,
            hashruler_min_length: None,
            canonicalize_hashrulers: None,
        }
    }
}

/// A config file: only the values it sets override.
#[derive(Debug, Clone, PartialEq, Eq)]
pub struct FileConfig {
    pub format: FormatSection,
    pub style: StyleSection,
    pub markup: MarkupSection,
    /// Per-command overrides keyed by command name.
    pub per_command: Vec<(String, PerCommandConfig)>,
}

impl Default for FileConfig {
    fn default() -> (r: Self)
        ensures
            r.per_command@.len() == 0,
    {
        FileConfig {
            format: FormatSection::default(),
            style: StyleSection::default(),
            markup: MarkupSection::default(),
            per_command: Vec::new(),
        }
    }
}

/// The values of a configuration, with texts as character sequences.
pub struct ConfigModel {
    pub line_width: usize,
    pub tab_size: usize,
    pub use_tabchars: bool,
    pub max_empty_lines: usize,
    pub max_lines_hwrap: usize,
    pub max_pargs_hwrap: usize,
    pub max_subgroups_hwrap: usize,
    pub dangle_parens: bool,
    pub dangle_align: DangleAlign,
    pub min_prefix_chars: usize,
    pub max_prefix_chars: usize,
    pub separate_ctrl_name_with_space: bool,
    pub separate_fn_name_with_space: bool,
    pub command_case: CaseStyle,
    pub keyword_case: CaseStyle,
    pub enable_markup: bool,
    pub reflow_comments: bool,
    pub first_comment_is_literal: bool,
    pub literal_comment_pattern: Seq<char>,
    pub bullet_char: Seq<char>,
    pub enum_char: Seq<char>,
    pub fence_pattern: Seq<char>,
    pub ruler_pattern: Seq<char>,
    pub hashruler_min_length: usize,
    pub canonicalize_hashrulers: bool,
    pub per_command: Seq<(Seq<char>, PerCommandConfig)>,
}

/// The per-command entries with their keys as character sequences.
pub open spec fn entries_model(e: Seq<(String, PerCommandConfig)>) -> Seq<(Seq<char>, PerCommandConfig)> {
    e.map_values(|x: (String, PerCommandConfig)| (x.0@, x.1))
}

/// The model of a configuration.
pub open spec fn model(c: Config) -> ConfigModel {
    ConfigModel {
        line_width: c.line_width,
        tab_size: c.tab_size,
        use_tabchars: c.use_tabchars,
        max_empty_lines: c.max_empty_lines,
        max_lines_hwrap: c.max_lines_hwrap,
        max_pargs_hwrap: c.max_pargs_hwrap,
        max_subgroups_hwrap: c.max_subgroups_hwrap,
        dangle_parens: c.dangle_parens,
        dangle_align: c.dangle_align,
        min_prefix_chars: c.min_prefix_chars,
        max_prefix_chars: c.max_prefix_chars,
        separate_ctrl_name_with_space: c.separate_ctrl_name_with_space,
        separate_fn_name_with_space: c.separate_fn_name_with_space,
        command_case: c.command_case,
        keyword_case: c.keyword_case,
        enable_markup: c.enable_markup,
        reflow_comments: c.reflow_comments,
        first_comment_is_literal: c.first_comment_is_literal,
        literal_comment_pattern: c.literal_comment_pattern@,
        bullet_char: c.bullet_char@,
        enum_char: c.enum_char@,
        fence_pattern: c.fence_pattern@,
        ruler_pattern: c.ruler_pattern@,
        hashruler_min_length: c.hashruler_min_length,
        canonicalize_hashrulers: c.canonicalize_hashrulers,
        per_command: entries_model(c.per_command_overrides@),
    }
}

/// A copy of a configuration.
pub fn copy_config(c: &Config) -> (r: Config)
    ensures
        model(r) == model(*c),
{
    let mut entries: Vec<(String, PerCommandConfig)> = Vec::new();
    let mut i: usize = 0;
    while i < c.per_command_overrides.len()
        invariant
            i <= c.per_command_overrides@.len(),
            entries_model(entries@) == entries_model(c.per_command_overrides@).subrange(0, i as int),
        decreases c.per_command_overrides@.len() - i,
    {
        let e = &c.per_command_overrides[i];
        let ghost pre = entries_model(entries@);
        entries.push((copy_string(&e.0), e.1));
        assert(entries_model(entries@) =~= pre.push((e.0@, e.1)));
        assert(entries_model(entries@) =~= entries_model(c.per_command_overrides@).subrange(0, i + 1));
        i += 1;
    }
    assert(entries_model(entries@) =~= entries_model(c.per_command_overrides@));
    Config {
        line_width: c.line_width,
        tab_size: c.tab_size,
        use_tabchars: c.use_tabchars,
        max_empty_lines: c.max_empty_lines,
        max_lines_hwrap: c.max_lines_hwrap,
        max_pargs_hwrap: c.max_pargs_hwrap,
        max_subgroups_hwrap: c.max_subgroups_hwrap,
        dangle_parens: c.dangle_parens,
        dangle_align: c.dangle_align,
        min_prefix_chars: c.min_prefix_chars,
        max_prefix_chars: c.max_prefix_chars,
        separate_ctrl_name_with_space: c.separate_ctrl_name_with_space,
        separate_fn_name_with_space: c.separate_fn_name_with_space,
        command_case: c.command_case,
        keyword_case: c.keyword_case,
        enable_markup: c.enable_markup,
        reflow_comments: c.reflow_comments,
        first_comment_is_literal: c.first_comment_is_literal,
        literal_comment_pattern: copy_string(&c.literal_comment_pattern),
        bullet_char: copy_string(&c.bullet_char),
        enum_char: copy_string(&c.enum_char),
        fence_pattern: copy_string(&c.fence_pattern),
        ruler_pattern: copy_string(&c.ruler_pattern),
        hashruler_min_length: c.hashruler_min_length,
        canonicalize_hashrulers: c.canonicalize_hashrulers,
        per_command_overrides: entries,
    }
}

/// The model of the default configuration.
pub open spec fn default_model() -> ConfigModel {
    ConfigModel {
        line_width: 80,
        tab_size: 2,
        use_tabchars: false,
        max_empty_lines: 1,
        max_lines_hwrap: 2,
        max_pargs_hwrap: 6,
        max_subgroups_hwrap: 2,
        dangle_parens: false,
        dangle_align: DangleAlign::Prefix,
        min_prefix_chars: 4,
        max_prefix_chars: 10,
        separate_ctrl_name_with_space: false,
        separate_fn_name_with_space: false,
        command_case: CaseStyle::Lower,
        keyword_case: CaseStyle::Upper,
        enable_markup: true,
        reflow_comments: false,
        first_comment_is_literal: true,
        literal_comment_pattern: Seq::<char>::empty(),
        bullet_char: "*"@,
        enum_char: "."@,
        fence_pattern: default_fence_pattern(),
        ruler_pattern: default_ruler_pattern(),
        hashruler_min_length: 10,
        canonicalize_hashrulers: true,
        per_command: Seq::empty(),
    }
}

/// A config file applied on top of a configuration: every value the file
/// sets replaces the current one, and its per-command entries are added
/// after the existing ones (so they win over them).
pub open spec fn apply_model(m: ConfigModel, fc: FileConfig) -> ConfigModel {
    ConfigModel {
        line_width: match fc.format.line_width {
            Some(v) => v,
            None => m.line_width,
        },
        tab_size: match fc.format.tab_size {
            Some(v) => v,
            None => m.tab_size,
        },
        use_tabchars: match fc.format.use_tabchars {
            Some(v) => v,
            None => m.use_tabchars,
        },
        max_empty_lines: match fc.format.max_empty_lines {
            Some(v) => v,
            None => m.max_empty_lines,
        },
        max_lines_hwrap: match fc.format.max_lines_hwrap {
            Some(v) => v,
            None => m.max_lines_hwrap,
        },
        max_pargs_hwrap: match fc.format.max_pargs_hwrap {
            Some(v) => v,
            None => m.max_pargs_hwrap,
        },
        max_subgroups_hwrap: match fc.format.max_subgroups_hwrap {
            Some(v) => v,
            None => m.max_subgroups_hwrap,
        },
        dangle_parens: match fc.format.dangle_parens {
            Some(v) => v,
            None => m.dangle_parens,
        },
        dangle_align: match fc.format.dangle_align {
            Some(v) => v,
            None => m.dangle_align,
        },
        min_prefix_chars: match fc.format.min_prefix_chars {
            Some(v) => v,
            None => m.min_prefix_chars,
        },
        max_prefix_chars: match fc.format.max_prefix_chars {
            Some(v) => v,
            None => m.max_prefix_chars,
        },
        separate_ctrl_name_with_space: match fc.format.separate_ctrl_name_with_space {
            Some(v) => v,
            None => m.separate_ctrl_name_with_space,
        },
        separate_fn_name_with_space: match fc.format.separate_fn_name_with_space {
            Some(v) => v,
            None => m.separate_fn_name_with_space,
        },
        command_case: match fc.style.command_case {
            Some(v) => v,
            None => m.command_case,
        },
        keyword_case: match fc.style.keyword_case {
            Some(v) => v,
            None => m.keyword_case,
        },
        enable_markup: match fc.markup.enable_markup {
            Some(v) => v,
            None => m.enable_markup,
        },
        reflow_comments: match fc.markup.reflow_comments {
            Some(v) => v,
            None => m.reflow_comments,
        },
        first_comment_is_literal: match fc.markup.first_comment_is_literal {
            Some(v) => v,
            None => m.first_comment_is_literal,
        },
        literal_comment_pattern: match fc.markup.literal_comment_pattern {
            Some(v) => v@,
            None => m.literal_comment_pattern,
        },
        bullet_char: match fc.markup.bullet_char {
            Some(v) => v@,
            None => m.bullet_char,
        },
        enum_char: match fc.markup.enum_char {
            Some(v) => v@,
            None => m.enum_char,
        },
        fence_pattern: match fc.markup.fence_pattern {
            Some(v) => v@,
            None => m.fence_pattern,
        },
        ruler_pattern: match fc.markup.ruler_pattern {
            Some(v) => v@,
            None => m.ruler_pattern,
        },
        hashruler_min_length: match fc.markup.hashruler_min_length {
            Some(v) => v,
            None => m.hashruler_min_length,
        },
        canonicalize_hashrulers: match fc.markup.canonicalize_hashrulers {
            Some(v) => v,
            None => m.canonicalize_hashrulers,
        },
        per_command: m.per_command + entries_model(fc.per_command@),
    }
}

/// Config files, closest first, merged on top of the defaults: the most
/// distant is applied first, so closer files win.
pub open spec fn merge_closest(files: Seq<FileConfig>) -> ConfigModel
    decreases files.len(),
{
    if files.len() == 0 {
        default_model()
    } else {
        apply_model(merge_closest(files.drop_first()), files[0])
    }
}

proof fn lemma_entries_model_push(e: Seq<(String, PerCommandConfig)>, x: (String, PerCommandConfig))
    ensures
        entries_model(e.push(x)) == entries_model(e).push((x.0@, x.1)),
{
    assert(entries_model(e.push(x)) =~= entries_model(e).push((x.0@, x.1)));
}

/// The value of an option, or the fallback.
fn pick<T>(o: Option<T>, d: T) -> (r: T)
    ensures
        r == crate::config::or_default(o, d),
{
    match o {
        Some(v) => v,
        None => d,
    }
}

/// The text of an option, or a copy of the fallback.
fn pick_string(o: Option<String>, d: &String) -> (r: String)
    ensures
        r@ == match o {
            Some(v) => v@,
            None => d@,
        },
{
    match o {
        Some(v) => v,
        None => crate::text::copy_string(d),
    }
}

fn append_entries(entries: &mut Vec<(String, PerCommandConfig)>, more: Vec<(String, PerCommandConfig)>)
    ensures
        entries_model(final(entries)@) == entries_model(old(entries)@) + entries_model(more@),
{
    let mut i: usize = 0;
    let ghost base = entries_model(old(entries)@);
    while i < more.len()
        invariant
            i <= more@.len(),
            entries_model(entries@) == base + entries_model(more@.subrange(0, i as int)),
        decreases more@.len() - i,
    {
        let name = crate::text::copy_string(&more[i].0);
        let entry = (name, more[i].1);
        proof {
            lemma_entries_model_push(entries@, entry);
            assert(entries_model(more@.subrange(0, i + 1)) =~= entries_model(
                more@.subrange(0, i as int),
            ).push((more@[i as int].0@, more@[i as int].1)));
        }
        entries.push(entry);
        i += 1;
    }
    assert(more@.subrange(0, more@.len() as int) =~= more@);
}

impl Config {
    fn apply_format(&mut self, sec: FormatSection)
        ensures
            final(self).line_width == match sec.line_width {
                Some(v) => v,
                None => old(self).line_width,
            },
            final(self).tab_size == match sec.tab_size {
                Some(v) => v,
                None => old(self).tab_size,
            },
            final(self).use_tabchars == match sec.use_tabchars {
                Some(v) => v,
                None => old(self).use_tabchars,
            },
            final(self).max_empty_lines == match sec.max_empty_lines {
                Some(v) => v,
                None => old(self).max_empty_lines,
            },
            final(self).max_lines_hwrap == match sec.max_lines_hwrap {
                Some(v) => v,
                None => old(self).max_lines_hwrap,
            },
            final(self).max_pargs_hwrap == match sec.max_pargs_hwrap {
                Some(v) => v,
                None => old(self).max_pargs_hwrap,
            },
            final(self).max_subgroups_hwrap == match sec.max_subgroups_hwrap {
                Some(v) => v,
                None => old(self).max_subgroups_hwrap,
            },
            final(self).dangle_parens == match sec.dangle_parens {
                Some(v) => v,
                None => old(self).dangle_parens,
            },
            final(self).dangle_align == match sec.dangle_align {
                Some(v) => v,
                None => old(self).dangle_align,
            },
            final(self).min_prefix_chars == match sec.min_prefix_chars {
                Some(v) => v,
                None => old(self).min_prefix_chars,
            },
            final(self).max_prefix_chars == match sec.max_prefix_chars {
                Some(v) => v,
                None => old(self).max_prefix_chars,
            },
            final(self).separate_ctrl_name_with_space == match sec.separate_ctrl_name_with_space {
                Some(v) => v,
                None => old(self).separate_ctrl_name_with_space,
            },
            final(self).separate_fn_name_with_space == match sec.separate_fn_name_with_space {
                Some(v) => v,
                None => old(self).separate_fn_name_with_space,
            },
            final(self).command_case == old(self).command_case,
            final(self).keyword_case == old(self).keyword_case,
            final(self).enable_markup == old(self).enable_markup,
            final(self).reflow_comments == old(self).reflow_comments,
            final(self).first_comment_is_literal == old(self).first_comment_is_literal,
            final(self).literal_comment_pattern == old(self).literal_comment_pattern,
            final(self).bullet_char == old(self).bullet_char,
            final(self).enum_char == old(self).enum_char,
            final(self).fence_pattern == old(self).fence_pattern,
            final(self).ruler_pattern == old(self).ruler_pattern,
            final(self).hashruler_min_length == old(self).hashruler_min_length,
            final(self).canonicalize_hashrulers == old(self).canonicalize_hashrulers,
            final(self).per_command_overrides == old(self).per_command_overrides,
    {
        let line_width = pick(sec.line_width, self.line_width);
        let tab_size = pick(sec.tab_size, self.tab_size);
        let use_tabchars = pick(sec.use_tabchars, self.use_tabchars);
        let max_empty_lines = pick(sec.max_empty_lines, self.max_empty_lines);
        let max_lines_hwrap = pick(sec.max_lines_hwrap, self.max_lines_hwrap);
        let max_pargs_hwrap = pick(sec.max_pargs_hwrap, self.max_pargs_hwrap);
        let max_subgroups_hwrap = pick(sec.max_subgroups_hwrap, self.max_subgroups_hwrap);
        let dangle_parens = pick(sec.dangle_parens, self.dangle_parens);
        let dangle_align = pick(sec.dangle_align, self.dangle_align);
        let min_prefix_chars = pick(sec.min_prefix_chars, self.min_prefix_chars);
        let max_prefix_chars = pick(sec.max_prefix_chars, self.max_prefix_chars);
        let separate_ctrl_name_with_space = pick(sec.separate_ctrl_name_with_space, self.separate_ctrl_name_with_space);
        let separate_fn_name_with_space = pick(sec.separate_fn_name_with_space, self.separate_fn_name_with_space);
        self.line_width = line_width;
        self.tab_size = tab_size;
        self.use_tabchars = use_tabchars;
        self.max_empty_lines = max_empty_lines;
        self.max_lines_hwrap = max_lines_hwrap;
        self.max_pargs_hwrap = max_pargs_hwrap;
        self.max_subgroups_hwrap = max_subgroups_hwrap;
        self.dangle_parens = dangle_parens;
        self.dangle_align = dangle_align;
        self.min_prefix_chars = min_prefix_chars;
        self.max_prefix_chars = max_prefix_chars;
        self.separate_ctrl_name_with_space = separate_ctrl_name_with_space;
        self.separate_fn_name_with_space = separate_fn_name_with_space;
    }

    fn apply_style(&mut self, sec: StyleSection)
        ensures
            final(self).command_case == match sec.command_case {
                Some(v) => v,
                None => old(self).command_case,
            },
            final(self).keyword_case == match sec.keyword_case {
                Some(v) => v,
                None => old(self).keyword_case,
            },
            final(self).line_width == old(self).line_width,
            final(self).tab_size == old(self).tab_size,
            final(self).use_tabchars == old(self).use_tabchars,
            final(self).max_empty_lines == old(self).max_empty_lines,
            final(self).max_lines_hwrap == old(self).max_lines_hwrap,
            final(self).max_pargs_hwrap == old(self).max_pargs_hwrap,
            final(self).max_subgroups_hwrap == old(self).max_subgroups_hwrap,
            final(self).dangle_parens == old(self).dangle_parens,
            final(self).dangle_align == old(self).dangle_align,
            final(self).min_prefix_chars == old(self).min_prefix_chars,
            final(self).max_prefix_chars == old(self).max_prefix_chars,
            final(self).separate_ctrl_name_with_space == old(self).separate_ctrl_name_with_space,
            final(self).separate_fn_name_with_space == old(self).separate_fn_name_with_space,
            final(self).enable_markup == old(self).enable_markup,
            final(self).reflow_comments == old(self).reflow_comments,
            final(self).first_comment_is_literal == old(self).first_comment_is_literal,
            final(self).literal_comment_pattern == old(self).literal_comment_pattern,
            final(self).bullet_char == old(self).bullet_char,
            final(self).enum_char == old(self).enum_char,
            final(self).fence_pattern == old(self).fence_pattern,
            final(self).ruler_pattern == old(self).ruler_pattern,
            final(self).hashruler_min_length == old(self).hashruler_min_length,
            final(self).canonicalize_hashrulers == old(self).canonicalize_hashrulers,
            final(self).per_command_overrides == old(self).per_command_overrides,
    {
        let command_case = pick(sec.command_case, self.command_case);
        let keyword_case = pick(sec.keyword_case, self.keyword_case);
        self.command_case = command_case;
        self.keyword_case = keyword_case;
    }

    fn apply_markup(&mut self, sec: MarkupSection)
        ensures
            final(self).enable_markup == match sec.enable_markup {
                Some(v) => v,
                None => old(self).enable_markup,
            },
            final(self).reflow_comments == match sec.reflow_comments {
                Some(v) => v,
                None => old(self).reflow_comments,
            },
            final(self).first_comment_is_literal == match sec.first_comment_is_literal {
                Some(v) => v,
                None => old(self).first_comment_is_literal,
            },
            final(self).literal_comment_pattern@ == match sec.literal_comment_pattern {
                Some(v) => v@,
                None => old(self).literal_comment_pattern@,
            },
            final(self).bullet_char@ == match sec.bullet_char {
                Some(v) => v@,
                None => old(self).bullet_char@,
            },
            final(self).enum_char@ == match sec.enum_char {
                Some(v) => v@,
                None => old(self).enum_char@,
            },
            final(self).fence_pattern@ == match sec.fence_pattern {
                Some(v) => v@,
                None => old(self).fence_pattern@,
            },
            final(self).ruler_pattern@ == match sec.ruler_pattern {
                Some(v) => v@,
                None => old(self).ruler_pattern@,
            },
            final(self).hashruler_min_length == match sec.hashruler_min_length {
                Some(v) => v,
                None => old(self).hashruler_min_length,
            },
            final(self).canonicalize_hashrulers == match sec.canonicalize_hashrulers {
                Some(v) => v,
                None => old(self).canonicalize_hashrulers,
            },
            final(self).line_width == old(self).line_width,
            final(self).tab_size == old(self).tab_size,
            final(self).use_tabchars == old(self).use_tabchars,
            final(self).max_empty_lines == old(self).max_empty_lines,
            final(self).max_lines_hwrap == old(self).max_lines_hwrap,
            final(self).max_pargs_hwrap == old(self).max_pargs_hwrap,
            final(self).max_subgroups_hwrap == old(self).max_subgroups_hwrap,
            final(self).dangle_parens == old(self).dangle_parens,
            final(self).dangle_align == old(self).dangle_align,
            final(self).min_prefix_chars == old(self).min_prefix_chars,
            final(self).max_prefix_chars == old(self).max_prefix_chars,
            final(self).separate_ctrl_name_with_space == old(self).separate_ctrl_name_with_space,
            final(self).separate_fn_name_with_space == old(self).separate_fn_name_with_space,
            final(self).command_case == old(self).command_case,
            final(self).keyword_case == old(self).keyword_case,
            final(self).per_command_overrides == old(self).per_command_overrides,
    {
        let enable_markup = pick(sec.enable_markup, self.enable_markup);
        let reflow_comments = pick(sec.reflow_comments, self.reflow_comments);
        let first_comment_is_literal = pick(sec.first_comment_is_literal, self.first_comment_is_literal);
        let literal_comment_pattern = pick_string(sec.literal_comment_pattern, &self.literal_comment_pattern);
        let bullet_char = pick_string(sec.bullet_char, &self.bullet_char);
        let enum_char = pick_string(sec.enum_char, &self.enum_char);
        let fence_pattern = pick_string(sec.fence_pattern, &self.fence_pattern);
        let ruler_pattern = pick_string(sec.ruler_pattern, &self.ruler_pattern);
        let hashruler_min_length = pick(sec.hashruler_min_length, self.hashruler_min_length);
        let canonicalize_hashrulers = pick(sec.canonicalize_hashrulers, self.canonicalize_hashrulers);
        self.enable_markup = enable_markup;
        self.reflow_comments = reflow_comments;
        self.first_comment_is_literal = first_comment_is_literal;
        self.literal_comment_pattern = literal_comment_pattern;
        self.bullet_char = bullet_char;
        self.enum_char = enum_char;
        self.fence_pattern = fence_pattern;
        self.ruler_pattern = ruler_pattern;
        self.hashruler_min_length = hashruler_min_length;
        self.canonicalize_hashrulers = canonicalize_hashrulers;
    }

    /// Apply a config file on top of this configuration.
    pub fn apply(&mut self, fc: FileConfig)
        ensures
            model(*final(self)) == apply_model(model(*old(self)), fc),
    {
        self.apply_format(fc.format);
        self.apply_style(fc.style);
        self.apply_markup(fc.markup);
        append_entries(&mut self.per_command_overrides, fc.per_command);
    }

    /// The configuration of one config file: the defaults with the file
    /// applied on top.
    pub fn from_file(file_config: FileConfig) -> (r: Self)
        ensures
            model(r) == apply_model(default_model(), file_config),
    {
        let mut config = Config::default();
        assert(model(config) =~= default_model()) by {
            assert(entries_model(config.per_command_overrides@) =~= Seq::empty());
        }
        config.apply(file_config);
        config
    }

    /// The configuration for a file, given the config files found for it,
    /// closest first: the defaults, then each file from the most distant to
    /// the closest, so that the closest file wins.
    pub fn for_file(config_files: Vec<FileConfig>) -> (r: Self)
        ensures
            model(r) == merge_closest(config_files@),
    {
        let mut config = Config::default();
        assert(model(config) =~= default_model()) by {
            assert(entries_model(config.per_command_overrides@) =~= Seq::empty());
        }
        let mut files = config_files;
        let ghost all = files@;
        assert(all.subrange(all.len() as int, all.len() as int) =~= Seq::<FileConfig>::empty());
        while files.len() > 0
            invariant
                files@.len() <= all.len(),
                files@ == all.subrange(0, files@.len() as int),
                model(config) == merge_closest(all.subrange(files@.len() as int, all.len() as int)),
            decreases files@.len(),
        {
            let ghost prev = files@;
            let fc = files.pop().unwrap();
            let ghost k = files@.len();
            proof {
                assert(prev == all.subrange(0, k as int + 1));
                assert(fc == prev[k as int]);
                assert(all[k as int] == prev[k as int]);
                assert(all.subrange(k as int, all.len() as int).drop_first() =~= all.subrange(
                    k as int + 1,
                    all.len() as int,
                ));
                assert(all.subrange(k as int, all.len() as int)[0] == fc);
            }
            config.apply(fc);
        }
        assert(all.subrange(0, all.len() as int) =~= all);
        config
    }
}

/// `true` or `false`.
pub open spec fn bool_text(b: bool) -> Seq<char> {
    if b {
        "true"@
    } else {
        "false"@
    }
}

fn bool_string(b: bool) -> (r: String)
    ensures
        r@ == bool_text(b),
{
    if b {
        owned("true")
    } else {
        owned("false")
    }
}

/// The starter config file, rendered from the values of a configuration.
pub open spec fn template_for(m: ConfigModel) -> Seq<char> {
    "# Default cmakefmt configuration.\n# Copy this to .cmake-format.toml and uncomment the optional settings\n# you want to customize.\n\n[format]\nline_width = "@
        + decimal(m.line_width as nat)
        + "\ntab_size = "@
        + decimal(m.tab_size as nat)
        + "\n# Uncomment to indent with tabs instead of spaces.\n# use_tabchars = true\nmax_empty_lines = "@
        + decimal(m.max_empty_lines as nat)
        + "\nmax_lines_hwrap = "@
        + decimal(m.max_lines_hwrap as nat)
        + "\nmax_pargs_hwrap = "@
        + decimal(m.max_pargs_hwrap as nat)
        + "\nmax_subgroups_hwrap = "@
        + decimal(m.max_subgroups_hwrap as nat)
        + "\ndangle_parens = "@
        + bool_text(m.dangle_parens)
        + "\ndangle_align = \"prefix\"\nmin_prefix_chars = "@
        + decimal(m.min_prefix_chars as nat)
        + "\nmax_prefix_chars = "@
        + decimal(m.max_prefix_chars as nat)
        + "\n# Uncomment to insert a space before control-flow parentheses.\n# separate_ctrl_name_with_space = true\n# Uncomment to insert a space before function or macro parentheses.\n# separate_fn_name_with_space = true\n\n[style]\ncommand_case = \"lower\"\nkeyword_case = \"upper\"\n\n[markup]\nenable_markup = "@
        + bool_text(m.enable_markup)
        + "\n# Uncomment to reflow line comments to fit within the configured line width.\n# reflow_comments = true\nfirst_comment_is_literal = "@
        + bool_text(m.first_comment_is_literal)
        + "\n# Uncomment to preserve comments matching a custom regex literally.\n# literal_comment_pattern = \"^\\\\s*NOTE:\"\nbullet_char = \""@
        + m.bullet_char
        + "\"\nenum_char = \""@
        + m.enum_char
        + "\"\nfence_pattern = '"@
        + m.fence_pattern
        + "'\nruler_pattern = '"@
        + m.ruler_pattern
        + "'\nhashruler_min_length = "@
        + decimal(m.hashruler_min_length as nat)
        + "\ncanonicalize_hashrulers = "@
        + bool_text(m.canonicalize_hashrulers)
        + "\n\n# Uncomment and edit a block like this to override formatting for a\n# specific command.\n# [per_command.message]\n# line_width = 120\n# command_case = \"unchanged\"\n# keyword_case = \"upper\"\n# tab_size = 4\n# dangle_parens = false\n# dangle_align = \"prefix\"\n# max_pargs_hwrap = 8\n# max_subgroups_hwrap = 3\n"@
}

/// A commented starter config file holding the default values.
pub fn default_config_template() -> (r: String)
    ensures
        r@ == template_for(default_model()),
{
    let d = Config::default();
    assert(model(d) =~= default_model()) by {
        assert(entries_model(d.per_command_overrides@) =~= Seq::empty());
    }
    let mut s = String::new();
    push_str(&mut s, "# Default cmakefmt configuration.\n# Copy this to .cmake-format.toml and uncomment the optional settings\n# you want to customize.\n\n[format]\nline_width = ");
    push_str(&mut s, usize_to_string(d.line_width).as_str());
    push_str(&mut s, "\ntab_size = ");
    push_str(&mut s, usize_to_string(d.tab_size).as_str());
    push_str(&mut s, "\n# Uncomment to indent with tabs instead of spaces.\n# use_tabchars = true\nmax_empty_lines = ");
    push_str(&mut s, usize_to_string(d.max_empty_lines).as_str());
    push_str(&mut s, "\nmax_lines_hwrap = ");
    push_str(&mut s, usize_to_string(d.max_lines_hwrap).as_str());
    push_str(&mut s, "\nmax_pargs_hwrap = ");
    push_str(&mut s, usize_to_string(d.max_pargs_hwrap).as_str());
    push_str(&mut s, "\nmax_subgroups_hwrap = ");
    push_str(&mut s, usize_to_string(d.max_subgroups_hwrap).as_str());
    push_str(&mut s, "\ndangle_parens = ");
    push_str(&mut s, bool_string(d.dangle_parens).as_str());
    push_str(&mut s, "\ndangle_align = \"prefix\"\nmin_prefix_chars = ");
    push_str(&mut s, usize_to_string(d.min_prefix_chars).as_str());
    push_str(&mut s, "\nmax_prefix_chars = ");
    push_str(&mut s, usize_to_string(d.max_prefix_chars).as_str());
    push_str(&mut s, "\n# Uncomment to insert a space before control-flow parentheses.\n# separate_ctrl_name_with_space = true\n# Uncomment to insert a space before function or macro parentheses.\n# separate_fn_name_with_space = true\n\n[style]\ncommand_case = \"lower\"\nkeyword_case = \"upper\"\n\n[markup]\nenable_markup = ");
    push_str(&mut s, bool_string(d.enable_markup).as_str());
    push_str(&mut s, "\n# Uncomment to reflow line comments to fit within the configured line width.\n# reflow_comments = true\nfirst_comment_is_literal = ");
    push_str(&mut s, bool_string(d.first_comment_is_literal).as_str());
    push_str(&mut s, "\n# Uncomment to preserve comments matching a custom regex literally.\n# literal_comment_pattern = \"^\\\\s*NOTE:\"\nbullet_char = \"");
    push_str(&mut s, d.bullet_char.as_str());
    push_str(&mut s, "\"\nenum_char = \"");
    push_str(&mut s, d.enum_char.as_str());
    push_str(&mut s, "\"\nfence_pattern = '");
    push_str(&mut s, d.fence_pattern.as_str());
    push_str(&mut s, "'\nruler_pattern = '");
    push_str(&mut s, d.ruler_pattern.as_str());
    push_str(&mut s, "'\nhashruler_min_length = ");
    push_str(&mut s, usize_to_string(d.hashruler_min_length).as_str());
    push_str(&mut s, "\ncanonicalize_hashrulers = ");
    push_str(&mut s, bool_string(d.canonicalize_hashrulers).as_str());
    push_str(&mut s, "\n\n# Uncomment and edit a block like this to override formatting for a\n# specific command.\n# [per_command.message]\n# line_width = 120\n# command_case = \"unchanged\"\n# keyword_case = \"upper\"\n# tab_size = 4\n# dangle_parens = false\n# dangle_align = \"prefix\"\n# max_pargs_hwrap = 8\n# max_subgroups_hwrap = 3\n");
    assert(s@ =~= template_for(model(d)));
    s
}

/// The starter config file in YAML, holding the values of `m`.
pub open spec fn yaml_template_for(m: ConfigModel) -> Seq<char> {
    "# Default cmakefmt configuration.\n# Copy this to .cmakefmt.yaml and uncomment the optional settings\n# you want to customize.\n\nformat:\n  line_width: "@
        + decimal(m.line_width as nat)
        + "\n  tab_size: "@
        + decimal(m.tab_size as nat)
        + "\n  # Uncomment to indent with tabs instead of spaces.\n  # use_tabchars: true\n  max_empty_lines: "@
        + decimal(m.max_empty_lines as nat)
        + "\n  max_lines_hwrap: "@
        + decimal(m.max_lines_hwrap as nat)
        + "\n  max_pargs_hwrap: "@
        + decimal(m.max_pargs_hwrap as nat)
        + "\n  max_subgroups_hwrap: "@
        + decimal(m.max_subgroups_hwrap as nat)
        + "\n  dangle_parens: "@
        + bool_text(m.dangle_parens)
        + "\n  dangle_align: prefix\n  min_prefix_chars: "@
        + decimal(m.min_prefix_chars as nat)
        + "\n  max_prefix_chars: "@
        + decimal(m.max_prefix_chars as nat)
        + "\n  # Uncomment to insert a space before control-flow parentheses.\n  # separate_ctrl_name_with_space: true\n  # Uncomment to insert a space before function or macro parentheses.\n  # separate_fn_name_with_space: true\n\nstyle:\n  command_case: lower\n  keyword_case: upper\n\nmarkup:\n  enable_markup: "@
        + bool_text(m.enable_markup)
        + "\n  # Uncomment to reflow line comments to fit within the configured line width.\n  # reflow_comments: true\n  first_comment_is_literal: "@
        + bool_text(m.first_comment_is_literal)
        + "\n  # Uncomment to preserve comments matching a custom regex literally.\n  # literal_comment_pattern: '^\\s*NOTE:'\n  bullet_char: \""@
        + m.bullet_char
        + "\"\n  enum_char: \""@
        + m.enum_char
        + "\"\n  fence_pattern: '"@
        + m.fence_pattern
        + "'\n  ruler_pattern: '"@
        + m.ruler_pattern
        + "'\n  hashruler_min_length: "@
        + decimal(m.hashruler_min_length as nat)
        + "\n  canonicalize_hashrulers: "@
        + bool_text(m.canonicalize_hashrulers)
        + "\n\n# Uncomment and edit a block like this to override formatting for a\n# specific command.\n# per_command:\n#   message:\n#     line_width: 120\n#     command_case: unchanged\n#     keyword_case: upper\n#     tab_size: 4\n#     dangle_parens: false\n#     dangle_align: prefix\n#     max_pargs_hwrap: 8\n#     max_subgroups_hwrap: 3\n"@
}

/// A commented starter config file in YAML holding the default values.
pub fn default_config_yaml_template() -> (r: String)
    ensures
        r@ == yaml_template_for(default_model()),
{
    let d = Config::default();
    assert(model(d) =~= default_model()) by {
        assert(entries_model(d.per_command_overrides@) =~= Seq::empty());
    }
    let mut s = String::new();
    push_str(&mut s, "# Default cmakefmt configuration.\n# Copy this to .cmakefmt.yaml and uncomment the optional settings\n# you want to customize.\n\nformat:\n  line_width: ");
    push_str(&mut s, usize_to_string(d.line_width).as_str());
    push_str(&mut s, "\n  tab_size: ");
    push_str(&mut s, usize_to_string(d.tab_size).as_str());
    push_str(&mut s, "\n  # Uncomment to indent with tabs instead of spaces.\n  # use_tabchars: true\n  max_empty_lines: ");
    push_str(&mut s, usize_to_string(d.max_empty_lines).as_str());
    push_str(&mut s, "\n  max_lines_hwrap: ");
    push_str(&mut s, usize_to_string(d.max_lines_hwrap).as_str());
    push_str(&mut s, "\n  max_pargs_hwrap: ");
    push_str(&mut s, usize_to_string(d.max_pargs_hwrap).as_str());
    push_str(&mut s, "\n  max_subgroups_hwrap: ");
    push_str(&mut s, usize_to_string(d.max_subgroups_hwrap).as_str());
    push_str(&mut s, "\n  dangle_parens: ");
    push_str(&mut s, bool_string(d.dangle_parens).as_str());
    push_str(&mut s, "\n  dangle_align: prefix\n  min_prefix_chars: ");
    push_str(&mut s, usize_to_string(d.min_prefix_chars).as_str());
    push_str(&mut s, "\n  max_prefix_chars: ");
    push_str(&mut s, usize_to_string(d.max_prefix_chars).as_str());
    push_str(&mut s, "\n  # Uncomment to insert a space before control-flow parentheses.\n  # separate_ctrl_name_with_space: true\n  # Uncomment to insert a space before function or macro parentheses.\n  # separate_fn_name_with_space: true\n\nstyle:\n  command_case: lower\n  keyword_case: upper\n\nmarkup:\n  enable_markup: ");
    push_str(&mut s, bool_string(d.enable_markup).as_str());
    push_str(&mut s, "\n  # Uncomment to reflow line comments to fit within the configured line width.\n  # reflow_comments: true\n  first_comment_is_literal: ");
    push_str(&mut s, bool_string(d.first_comment_is_literal).as_str());
    push_str(&mut s, "\n  # Uncomment to preserve comments matching a custom regex literally.\n  # literal_comment_pattern: '^\\s*NOTE:'\n  bullet_char: \"");
    push_str(&mut s, d.bullet_char.as_str());
    push_str(&mut s, "\"\n  enum_char: \"");
    push_str(&mut s, d.enum_char.as_str());
    push_str(&mut s, "\"\n  fence_pattern: '");
    push_str(&mut s, d.fence_pattern.as_str());
    push_str(&mut s, "'\n  ruler_pattern: '");
    push_str(&mut s, d.ruler_pattern.as_str());
    push_str(&mut s, "'\n  hashruler_min_length: ");
    push_str(&mut s, usize_to_string(d.hashruler_min_length).as_str());
    push_str(&mut s, "\n  canonicalize_hashrulers: ");
    push_str(&mut s, bool_string(d.canonicalize_hashrulers).as_str());
    push_str(&mut s, "\n\n# Uncomment and edit a block like this to override formatting for a\n# specific command.\n# per_command:\n#   message:\n#     line_width: 120\n#     command_case: unchanged\n#     keyword_case: upper\n#     tab_size: 4\n#     dangle_parens: false\n#     dangle_align: prefix\n#     max_pargs_hwrap: 8\n#     max_subgroups_hwrap: 3\n");
    assert(s@ =~= yaml_template_for(model(d)));
    s
}

/// Properties read from `.editorconfig` that cmakefmt can use.
#[derive(Debug, Clone, Copy, PartialEq, Eq)]
pub struct EditorConfigOverrides {
    pub tab_size: Option<usize>,
    pub use_tabs: Option<bool>,
    pub line_width: Option<usize>,
    pub line_ending: Option<LineEnding>,
}

impl Default for EditorConfigOverrides {
    fn default() -> (r: Self)
        ensures
            r.tab_size is None && r.use_tabs is None && r.line_width is None && r.line_ending is None,
    {
        EditorConfigOverrides { tab_size: None, use_tabs: None, line_width: None, line_ending: None }
    }
}

impl EditorConfigOverrides {
    /// Whether any property was found.
    pub fn has_any(&self) -> (r: bool)
        ensures
            r == (self.tab_size is Some || self.use_tabs is Some || self.line_width is Some
                || self.line_ending is Some),
    {
        self.tab_size.is_some() || self.use_tabs.is_some() || self.line_width.is_some()
            || self.line_ending.is_some()
    }
}

/// An `.editorconfig` `indent_size`: a number of columns, or `tab` (use
/// the tab width).
#[derive(Debug, Clone, Copy, PartialEq, Eq)]
pub enum IndentSize {
    Value(usize),
    UseTabWidth,
}

/// The overrides an `.editorconfig` section gives: the indentation style
/// and size (a size of `tab` takes the tab width), a numeric
/// `max_line_length` as line width (`off` has no equivalent), and an
/// `end_of_line` of `lf` or `crlf` (any ASCII case; `cr` has no
/// equivalent).
pub open spec fn editorconfig_model(
    use_tabs: Option<bool>,
    indent_size: Option<IndentSize>,
    tab_width: Option<usize>,
    max_line_length: Option<Seq<char>>,
    end_of_line: Option<Seq<char>>,
) -> EditorConfigOverrides {
    EditorConfigOverrides {
        tab_size: match indent_size {
            Some(IndentSize::Value(n)) => Some(n),
            Some(IndentSize::UseTabWidth) => tab_width,
            None => None,
        },
        use_tabs,
        line_width: match max_line_length {
            Some(v) => match crate::report::parse_uint(v) {
                Some(n) => Some(n as usize),
                None => None,
            },
            None => None,
        },
        line_ending: match end_of_line {
            Some(v) => if crate::text::lower_seq(v) == "lf"@ {
                Some(LineEnding::Unix)
            } else if crate::text::lower_seq(v) == "crlf"@ {
                Some(LineEnding::Windows)
            } else {
                None
            },
            None => None,
        },
    }
}

/// `.editorconfig` properties: `indent_style` gives tabs or spaces as it
/// is; a numeric `indent_size` is the tab size and `tab` takes `tab_width`;
/// a numeric `max_line_length` is the line width (none without one);
/// `end_of_line` `lf` or `crlf` (any ASCII case) gives Unix or Windows line
/// endings, and anything else gives none.
pub proof fn lemma_editorconfig_properties(
    use_tabs: Option<bool>,
    indent_size: Option<IndentSize>,
    tab_width: Option<usize>,
    max_line_length: Option<Seq<char>>,
    end_of_line: Option<Seq<char>>,
    n: usize,
)
    ensures
        editorconfig_model(use_tabs, indent_size, tab_width, max_line_length, end_of_line).use_tabs == use_tabs,
        editorconfig_model(use_tabs, Some(IndentSize::Value(n)), tab_width, max_line_length, end_of_line).tab_size
            == Some(n),
        editorconfig_model(use_tabs, Some(IndentSize::UseTabWidth), tab_width, max_line_length, end_of_line).tab_size
            == tab_width,
        editorconfig_model(use_tabs, None, tab_width, max_line_length, end_of_line).tab_size is None,
        editorconfig_model(use_tabs, indent_size, tab_width, Some(crate::text::decimal(n as nat)), end_of_line).line_width
            == Some(n),
        editorconfig_model(use_tabs, indent_size, tab_width, None, end_of_line).line_width is None,
        editorconfig_model(use_tabs, indent_size, tab_width, max_line_length, Some("lf"@)).line_ending == Some(
            LineEnding::Unix,
        ),
        editorconfig_model(use_tabs, indent_size, tab_width, max_line_length, Some("LF"@)).line_ending == Some(
            LineEnding::Unix,
        ),
        editorconfig_model(use_tabs, indent_size, tab_width, max_line_length, Some("crlf"@)).line_ending == Some(
            LineEnding::Windows,
        ),
        editorconfig_model(use_tabs, indent_size, tab_width, max_line_length, Some("CRLF"@)).line_ending == Some(
            LineEnding::Windows,
        ),
        editorconfig_model(use_tabs, indent_size, tab_width, max_line_length, Some("cr"@)).line_ending is None,
        editorconfig_model(use_tabs, indent_size, tab_width, max_line_length, None).line_ending is None,
{
    reveal_strlit("lf");
    reveal_strlit("LF");
    reveal_strlit("crlf");
    reveal_strlit("CRLF");
    reveal_strlit("cr");
    crate::report::lemma_parse_decimal(n as nat);
    assert(crate::text::lower_seq("LF"@) =~= "lf"@);
    assert(crate::text::lower_seq("lf"@) =~= "lf"@);
    assert(crate::text::lower_seq("CRLF"@) =~= "crlf"@);
    assert(crate::text::lower_seq("crlf"@) =~= "crlf"@);
    assert(crate::text::lower_seq("cr"@) =~= "cr"@);
    assert("cr"@[0] != "lf"@[0] && "cr"@.len() != "crlf"@.len());
}

/// The overrides from the `.editorconfig` properties found for a file:
/// `use_tabs` from `indent_style`, `indent_size`, `tab_width`, and the raw
/// `max_line_length` and `end_of_line` values.
pub fn editorconfig_overrides(
    use_tabs: Option<bool>,
    indent_size: Option<IndentSize>,
    tab_width: Option<usize>,
    max_line_length: Option<&str>,
    end_of_line: Option<&str>,
) -> (r: EditorConfigOverrides)
    ensures
        r == editorconfig_model(
            use_tabs,
            indent_size,
            tab_width,
            crate::spec::opt_text(max_line_length),
            crate::spec::opt_text(end_of_line),
        ),
{
    let tab_size = match indent_size {
        Some(IndentSize::Value(n)) => Some(n),
        Some(IndentSize::UseTabWidth) => tab_width,
        None => None,
    };
    let line_width = match max_line_length {
        Some(v) => crate::report::parse_usize(v),
        None => None,
    };
    let line_ending = match end_of_line {
        Some(v) => {
            let low = crate::text::to_lower(v);
            if crate::text::str_eq(low.as_str(), "lf") {
                Some(LineEnding::Unix)
            } else if crate::text::str_eq(low.as_str(), "crlf") {
                Some(LineEnding::Windows)
            } else {
                None
            }
        },
        None => None,
    };
    EditorConfigOverrides { tab_size, use_tabs, line_width, line_ending }
}

/// The value the closest file that sets it gives, else the fallback `d`.
pub open spec fn first_set<T>(files: Seq<FileConfig>, get: spec_fn(FileConfig) -> Option<T>, d: T) -> T
    decreases files.len(),
{
    if files.len() == 0 {
        d
    } else {
        match get(files[0]) {
            Some(v) => v,
            None => first_set(files.drop_first(), get, d),
        }
    }
}

/// Closer config files win: for any setting that a file replaces when it
/// sets it (and leaves alone otherwise), the merged value is the one from
/// the closest file that sets it, or the default when none does.
pub proof fn lemma_closest_file_wins<T>(
    files: Seq<FileConfig>,
    get: spec_fn(FileConfig) -> Option<T>,
    field: spec_fn(ConfigModel) -> T,
)
    requires
        forall|m: ConfigModel, fc: FileConfig| #[trigger] field(apply_model(m, fc)) == match get(fc) {
            Some(v) => v,
            None => field(m),
        },
    ensures
        field(merge_closest(files)) == first_set(files, get, field(default_model())),
    decreases files.len(),
{
    if files.len() > 0 {
        lemma_closest_file_wins(files.drop_first(), get, field);
        assert(field(merge_closest(files)) == field(apply_model(merge_closest(files.drop_first()), files[0])));
    }
}

/// The line width of merged config files is the one the closest file that
/// sets it gives, else 80.
pub proof fn lemma_closest_line_width_wins(files: Seq<FileConfig>)
    ensures
        merge_closest(files).line_width == first_set(files, |fc: FileConfig| fc.format.line_width, 80usize),
{
    lemma_closest_file_wins(files, |fc: FileConfig| fc.format.line_width, |m: ConfigModel| m.line_width);
}

/// The model of a configuration holds its settings as they are.
pub proof fn lemma_model_holds_settings(c: Config)
    ensures
        model(c).line_width == c.line_width,
        model(c).tab_size == c.tab_size,
        model(c).use_tabchars == c.use_tabchars,
        model(c).max_empty_lines == c.max_empty_lines,
        model(c).max_lines_hwrap == c.max_lines_hwrap,
        model(c).max_pargs_hwrap == c.max_pargs_hwrap,
        model(c).max_subgroups_hwrap == c.max_subgroups_hwrap,
        model(c).dangle_parens == c.dangle_parens,
        model(c).dangle_align == c.dangle_align,
        model(c).min_prefix_chars == c.min_prefix_chars,
        model(c).max_prefix_chars == c.max_prefix_chars,
        model(c).separate_ctrl_name_with_space == c.separate_ctrl_name_with_space,
        model(c).separate_fn_name_with_space == c.separate_fn_name_with_space,
        model(c).command_case == c.command_case,
        model(c).keyword_case == c.keyword_case,
        model(c).enable_markup == c.enable_markup,
        model(c).reflow_comments == c.reflow_comments,
        model(c).first_comment_is_literal == c.first_comment_is_literal,
        model(c).literal_comment_pattern == c.literal_comment_pattern@,
        model(c).bullet_char == c.bullet_char@,
        model(c).enum_char == c.enum_char@,
        model(c).fence_pattern == c.fence_pattern@,
        model(c).ruler_pattern == c.ruler_pattern@,
        model(c).hashruler_min_length == c.hashruler_min_length,
        model(c).canonicalize_hashrulers == c.canonicalize_hashrulers,
{
}

/// A config file applied on top of a configuration sets every setting the
/// file gives and keeps every other one as it was.
pub proof fn lemma_file_settings_apply(m: ConfigModel, fc: FileConfig)
    ensures
        apply_model(m, fc).line_width == match fc.format.line_width {
            Some(v) => v,
            None => m.line_width,
        },
        apply_model(m, fc).tab_size == match fc.format.tab_size {
            Some(v) => v,
            None => m.tab_size,
        },
        apply_model(m, fc).use_tabchars == match fc.format.use_tabchars {
            Some(v) => v,
            None => m.use_tabchars,
        },
        apply_model(m, fc).max_empty_lines == match fc.format.max_empty_lines {
            Some(v) => v,
            None => m.max_empty_lines,
        },
        apply_model(m, fc).max_lines_hwrap == match fc.format.max_lines_hwrap {
            Some(v) => v,
            None => m.max_lines_hwrap,
        },
        apply_model(m, fc).max_pargs_hwrap == match fc.format.max_pargs_hwrap {
            Some(v) => v,
            None => m.max_pargs_hwrap,
        },
        apply_model(m, fc).max_subgroups_hwrap == match fc.format.max_subgroups_hwrap {
            Some(v) => v,
            None => m.max_subgroups_hwrap,
        },
        apply_model(m, fc).dangle_parens == match fc.format.dangle_parens {
            Some(v) => v,
            None => m.dangle_parens,
        },
        apply_model(m, fc).dangle_align == match fc.format.dangle_align {
            Some(v) => v,
            None => m.dangle_align,
        },
        apply_model(m, fc).min_prefix_chars == match fc.format.min_prefix_chars {
            Some(v) => v,
            None => m.min_prefix_chars,
        },
        apply_model(m, fc).max_prefix_chars == match fc.format.max_prefix_chars {
            Some(v) => v,
            None => m.max_prefix_chars,
        },
        apply_model(m, fc).separate_ctrl_name_with_space == match fc.format.separate_ctrl_name_with_space {
            Some(v) => v,
            None => m.separate_ctrl_name_with_space,
        },
        apply_model(m, fc).separate_fn_name_with_space == match fc.format.separate_fn_name_with_space {
            Some(v) => v,
            None => m.separate_fn_name_with_space,
        },
        apply_model(m, fc).command_case == match fc.style.command_case {
            Some(v) => v,
            None => m.command_case,
        },
        apply_model(m, fc).keyword_case == match fc.style.keyword_case {
            Some(v) => v,
            None => m.keyword_case,
        },
        apply_model(m, fc).enable_markup == match fc.markup.enable_markup {
            Some(v) => v,
            None => m.enable_markup,
        },
        apply_model(m, fc).reflow_comments == match fc.markup.reflow_comments {
            Some(v) => v,
            None => m.reflow_comments,
        },
        apply_model(m, fc).first_comment_is_literal == match fc.markup.first_comment_is_literal {
            Some(v) => v,
            None => m.first_comment_is_literal,
        },
        apply_model(m, fc).literal_comment_pattern == match fc.markup.literal_comment_pattern {
            Some(v) => v@,
            None => m.literal_comment_pattern,
        },
        apply_model(m, fc).bullet_char == match fc.markup.bullet_char {
            Some(v) => v@,
            None => m.bullet_char,
        },
        apply_model(m, fc).enum_char == match fc.markup.enum_char {
            Some(v) => v@,
            None => m.enum_char,
        },
        apply_model(m, fc).fence_pattern == match fc.markup.fence_pattern {
            Some(v) => v@,
            None => m.fence_pattern,
        },
        apply_model(m, fc).ruler_pattern == match fc.markup.ruler_pattern {
            Some(v) => v@,
            None => m.ruler_pattern,
        },
        apply_model(m, fc).hashruler_min_length == match fc.markup.hashruler_min_length {
            Some(v) => v,
            None => m.hashruler_min_length,
        },
        apply_model(m, fc).canonicalize_hashrulers == match fc.markup.canonicalize_hashrulers {
            Some(v) => v,
            None => m.canonicalize_hashrulers,
        },
        apply_model(m, fc).per_command == m.per_command + entries_model(fc.per_command@),
{
}

/// Closer config files win for every setting: the merged value is the one
/// the closest file that sets it gives, else the default (line width 80,
/// tab size 2, spaces, one empty line, and so on).
pub proof fn lemma_closest_settings_win(files: Seq<FileConfig>)
    ensures
        merge_closest(files).line_width == first_set(files, (|fc: FileConfig| fc.format.line_width), 80usize),
        merge_closest(files).tab_size == first_set(files, (|fc: FileConfig| fc.format.tab_size), 2usize),
        merge_closest(files).use_tabchars == first_set(files, (|fc: FileConfig| fc.format.use_tabchars), false),
        merge_closest(files).max_empty_lines == first_set(files, (|fc: FileConfig| fc.format.max_empty_lines), 1usize),
        merge_closest(files).max_lines_hwrap == first_set(files, (|fc: FileConfig| fc.format.max_lines_hwrap), 2usize),
        merge_closest(files).max_pargs_hwrap == first_set(files, (|fc: FileConfig| fc.format.max_pargs_hwrap), 6usize),
        merge_closest(files).max_subgroups_hwrap == first_set(files, (|fc: FileConfig| fc.format.max_subgroups_hwrap), 2usize),
        merge_closest(files).dangle_parens == first_set(files, (|fc: FileConfig| fc.format.dangle_parens), false),
        merge_closest(files).dangle_align == first_set(files, (|fc: FileConfig| fc.format.dangle_align), DangleAlign::Prefix),
        merge_closest(files).min_prefix_chars == first_set(files, (|fc: FileConfig| fc.format.min_prefix_chars), 4usize),
        merge_closest(files).max_prefix_chars == first_set(files, (|fc: FileConfig| fc.format.max_prefix_chars), 10usize),
        merge_closest(files).separate_ctrl_name_with_space == first_set(files, (|fc: FileConfig| fc.format.separate_ctrl_name_with_space), false),
        merge_closest(files).separate_fn_name_with_space == first_set(files, (|fc: FileConfig| fc.format.separate_fn_name_with_space), false),
        merge_closest(files).command_case == first_set(files, (|fc: FileConfig| fc.style.command_case), CaseStyle::Lower),
        merge_closest(files).keyword_case == first_set(files, (|fc: FileConfig| fc.style.keyword_case), CaseStyle::Upper),
        merge_closest(files).enable_markup == first_set(files, (|fc: FileConfig| fc.markup.enable_markup), true),
        merge_closest(files).reflow_comments == first_set(files, (|fc: FileConfig| fc.markup.reflow_comments), false),
        merge_closest(files).first_comment_is_literal == first_set(files, (|fc: FileConfig| fc.markup.first_comment_is_literal), true),
        merge_closest(files).literal_comment_pattern == first_set(files, (|fc: FileConfig| match fc.markup.literal_comment_pattern { Some(v) => Some(v@), None => None }), Seq::<char>::empty()),
        merge_closest(files).bullet_char == first_set(files, (|fc: FileConfig| match fc.markup.bullet_char { Some(v) => Some(v@), None => None }), "*"@),
        merge_closest(files).enum_char == first_set(files, (|fc: FileConfig| match fc.markup.enum_char { Some(v) => Some(v@), None => None }), "."@),
        merge_closest(files).fence_pattern == first_set(files, (|fc: FileConfig| match fc.markup.fence_pattern { Some(v) => Some(v@), None => None }), default_fence_pattern()),
        merge_closest(files).ruler_pattern == first_set(files, (|fc: FileConfig| match fc.markup.ruler_pattern { Some(v) => Some(v@), None => None }), default_ruler_pattern()),
        merge_closest(files).hashruler_min_length == first_set(files, (|fc: FileConfig| fc.markup.hashruler_min_length), 10usize),
        merge_closest(files).canonicalize_hashrulers == first_set(files, (|fc: FileConfig| fc.markup.canonicalize_hashrulers), true),
{
    reveal_strlit("*");
    reveal_strlit(".");
    lemma_closest_file_wins(files, (|fc: FileConfig| fc.format.line_width), |m: ConfigModel| m.line_width);
    lemma_closest_file_wins(files, (|fc: FileConfig| fc.format.tab_size), |m: ConfigModel| m.tab_size);
    lemma_closest_file_wins(files, (|fc: FileConfig| fc.format.use_tabchars), |m: ConfigModel| m.use_tabchars);
    lemma_closest_file_wins(files, (|fc: FileConfig| fc.format.max_empty_lines), |m: ConfigModel| m.max_empty_lines);
    lemma_closest_file_wins(files, (|fc: FileConfig| fc.format.max_lines_hwrap), |m: ConfigModel| m.max_lines_hwrap);
    lemma_closest_file_wins(files, (|fc: FileConfig| fc.format.max_pargs_hwrap), |m: ConfigModel| m.max_pargs_hwrap);
    lemma_closest_file_wins(files, (|fc: FileConfig| fc.format.max_subgroups_hwrap), |m: ConfigModel| m.max_subgroups_hwrap);
    lemma_closest_file_wins(files, (|fc: FileConfig| fc.format.dangle_parens), |m: ConfigModel| m.dangle_parens);
    lemma_closest_file_wins(files, (|fc: FileConfig| fc.format.dangle_align), |m: ConfigModel| m.dangle_align);
    lemma_closest_file_wins(files, (|fc: FileConfig| fc.format.min_prefix_chars), |m: ConfigModel| m.min_prefix_chars);
    lemma_closest_file_wins(files, (|fc: FileConfig| fc.format.max_prefix_chars), |m: ConfigModel| m.max_prefix_chars);
    lemma_closest_file_wins(files, (|fc: FileConfig| fc.format.separate_ctrl_name_with_space), |m: ConfigModel| m.separate_ctrl_name_with_space);
    lemma_closest_file_wins(files, (|fc: FileConfig| fc.format.separate_fn_name_with_space), |m: ConfigModel| m.separate_fn_name_with_space);
    lemma_closest_file_wins(files, (|fc: FileConfig| fc.style.command_case), |m: ConfigModel| m.command_case);
    lemma_closest_file_wins(files, (|fc: FileConfig| fc.style.keyword_case), |m: ConfigModel| m.keyword_case);
    lemma_closest_file_wins(files, (|fc: FileConfig| fc.markup.enable_markup), |m: ConfigModel| m.enable_markup);
    lemma_closest_file_wins(files, (|fc: FileConfig| fc.markup.reflow_comments), |m: ConfigModel| m.reflow_comments);
    lemma_closest_file_wins(files, (|fc: FileConfig| fc.markup.first_comment_is_literal), |m: ConfigModel| m.first_comment_is_literal);
    lemma_closest_file_wins(files, (|fc: FileConfig| match fc.markup.literal_comment_pattern { Some(v) => Some(v@), None => None }), |m: ConfigModel| m.literal_comment_pattern);
    lemma_closest_file_wins(files, (|fc: FileConfig| match fc.markup.bullet_char { Some(v) => Some(v@), None => None }), |m: ConfigModel| m.bullet_char);
    lemma_closest_file_wins(files, (|fc: FileConfig| match fc.markup.enum_char { Some(v) => Some(v@), None => None }), |m: ConfigModel| m.enum_char);
    lemma_closest_file_wins(files, (|fc: FileConfig| match fc.markup.fence_pattern { Some(v) => Some(v@), None => None }), |m: ConfigModel| m.fence_pattern);
    lemma_closest_file_wins(files, (|fc: FileConfig| match fc.markup.ruler_pattern { Some(v) => Some(v@), None => None }), |m: ConfigModel| m.ruler_pattern);
    lemma_closest_file_wins(files, (|fc: FileConfig| fc.markup.hashruler_min_length), |m: ConfigModel| m.hashruler_min_length);
    lemma_closest_file_wins(files, (|fc: FileConfig| fc.markup.canonicalize_hashrulers), |m: ConfigModel| m.canonicalize_hashrulers);
}

/// Per-command entries of closer files come after those of more distant
/// ones, so a lookup (where the later entry wins) finds the closest.
pub proof fn lemma_closer_entries_come_last(files: Seq<FileConfig>)
    requires
        files.len() > 0,
    ensures
        merge_closest(files).per_command == merge_closest(files.drop_first()).per_command + entries_model(
            files[0].per_command@,
        ),
{
}

// ── Config file names ───────────────────────────────────────────────────────

/// The names a config file may have, in the order each directory is
/// searched: `.cmakefmt.yaml`, `.cmakefmt.yml`, `.cmakefmt.toml`, then the
/// older `.cmake-format.toml`.
pub open spec fn config_names() -> Seq<Seq<char>> {
    seq![".cmakefmt.yaml"@, ".cmakefmt.yml"@, ".cmakefmt.toml"@, ".cmake-format.toml"@]
}

/// The names a config file may have, in search order.
pub fn config_file_names() -> (r: Vec<String>)
    ensures
        strs(r@) == config_names(),
{
    let mut r: Vec<String> = Vec::new();
    r.push(owned(".cmakefmt.yaml"));
    r.push(owned(".cmakefmt.yml"));
    r.push(owned(".cmakefmt.toml"));
    r.push(owned(".cmake-format.toml"));
    assert(strs(r@) =~= config_names());
    r
}

/// Whether a config file is read as YAML: its name ends in `.yaml` or
/// `.yml`; any other is read as TOML.
pub fn is_yaml_config(name: &str) -> (r: bool)
    ensures
        r == (crate::text::ends_with(name@, ".yaml"@) || crate::text::ends_with(name@, ".yml"@)),
{
    crate::text::ends_with_str(name, ".yaml") || crate::text::ends_with_str(name, ".yml")
}

} // verus!
