//! Comment formatting: bracket comments are kept verbatim; line comments
//! may be reflowed to the available width.

use vstd::prelude::*;
use crate::ast::{Comment, SComment};
use crate::config::Config;
use crate::text::{
    chars_of, contains, contains_str, count_lead, crlf_to_lf, join, lead_count, owned, push_str,
    replace_crlf, sat_sub, split_char, split_on, split_words, starts_with, starts_with_str, str_eq,
    string_of, strs, trim, trim_start, trim_start_str, trim_str, word_len, words,
};

verus! {

broadcast use vstd::string::group_string_axioms;

/// Whether `text` matches the regular expression `pattern`, or `None` when
/// the pattern is not a valid expression.
pub uninterp spec fn regex_match(pattern: Seq<char>, text: Seq<char>) -> Option<bool>;

/// Matches a text against a regular expression.
///
/// Trusted: compiles `pattern` with `regex::Regex::new` and, when that
/// succeeds, calls `Regex::is_match` on `text`; `None` when compiling fails.
/// The result is named by [`regex_match`] and depends on the two texts only.
#[verifier::external_body]
pub(crate) fn regex_is_match(pattern: &str, text: &str) -> (r: Option<bool>)
    ensures
        r == regex_match(pattern@, text@),
{
    match regex::Regex::new(pattern) {
        Ok(re) => Some(re.is_match(text)),
        Err(_) => None,
    }
}

/// Whether a line comment is kept exactly as written: a bare `#`, bracket
/// comment openers, `# ~~~` fences, `cmake-format:` / `cmakefmt:`
/// directives, or a match of the configured literal pattern.
pub open spec fn preserve_verbatim(text: Seq<char>, pattern: Seq<char>) -> bool {
    let t = trim(text);
    ||| t == "#"@
    ||| starts_with(t, "#[["@)
    ||| starts_with(t, "#[=["@)
    ||| starts_with(t, "# ~~~"@)
    ||| contains(t, "cmake-format:"@)
    ||| contains(t, "cmakefmt:"@)
    ||| (pattern.len() > 0 && regex_match(pattern, text) == Some(true))
}

fn should_preserve_comment_verbatim(text: &str, config: &Config) -> (r: bool)
    ensures
        r == preserve_verbatim(text@, config.literal_comment_pattern@),
{
    let trimmed = trim_str(text);
    let t = trimmed.as_str();
    if str_eq(t, "#") || starts_with_str(t, "#[[") || starts_with_str(t, "#[=[") {
        return true;
    }
    if starts_with_str(t, "# ~~~") || contains_str(t, "cmake-format:") || contains_str(
        t,
        "cmakefmt:",
    ) {
        return true;
    }
    let pattern = config.literal_comment_pattern.as_str();
    let pv = chars_of(pattern);
    if pv.len() > 0 {
        match regex_is_match(pattern, text) {
            Some(m) => m,
            None => false,
        }
    } else {
        false
    }
}

/// Greedy filling of words into `# `-prefixed lines of at most `avail`
/// characters (a word longer than that gets a line of its own).
pub open spec fn fill(ws: Seq<Seq<char>>, avail: nat, lines: Seq<Seq<char>>, current: Seq<char>) -> Seq<
    Seq<char>,
>
    decreases ws.len(),
{
    if ws.len() == 0 {
        lines.push(current)
    } else {
        let w = ws[0];
        let rest = ws.subrange(1, ws.len() as int);
        let projected = if current.len() == 2 {
            2 + w.len()
        } else {
            current.len() + 1 + w.len()
        };
        if projected > avail && current.len() != 2 {
            fill(rest, avail, lines.push(current), "# "@ + w)
        } else if current.len() != 2 {
            fill(rest, avail, lines, current + " "@ + w)
        } else {
            fill(rest, avail, lines, current + w)
        }
    }
}

/// The words of a line comment: the text after its leading `#` marks,
/// split at white space.
pub open spec fn comment_words(text: Seq<char>) -> Seq<Seq<char>> {
    words(trim_start(text.subrange(lead_count(text, '#') as int, text.len() as int)))
}

/// The bodies of `# `-prefixed lines: each line without its first two
/// characters.
pub open spec fn line_bodies(lines: Seq<Seq<char>>) -> Seq<Seq<char>> {
    lines.map_values(|l: Seq<char>| l.subrange(2, l.len() as int))
}

/// Two texts joined by a space, or either alone when the other is empty.
pub open spec fn space_cat(a: Seq<char>, b: Seq<char>) -> Seq<char> {
    if a.len() == 0 {
        b
    } else if b.len() == 0 {
        a
    } else {
        a + " "@ + b
    }
}

/// Whether every text is non-empty.
pub open spec fn all_nonempty(ws: Seq<Seq<char>>) -> bool {
    forall|i: int| 0 <= i < ws.len() ==> #[trigger] ws[i].len() > 0
}

/// Whether a line begins with `# `.
pub open spec fn hash_line(l: Seq<char>) -> bool {
    l.len() >= 2 && l[0] == '#' && l[1] == ' '
}

proof fn lemma_words_nonempty(s: Seq<char>)
    ensures
        all_nonempty(words(s)),
    decreases s.len(),
{
    let t = trim_start(s);
    if t.len() != 0 {
        let w = word_len(t);
        if 0 < w <= t.len() && t.len() <= s.len() {
            let rest = t.subrange(w as int, t.len() as int);
            lemma_words_nonempty(rest);
            let ws = words(s);
            assert(ws == seq![t.subrange(0, w as int)] + words(rest));
            assert forall|i: int| 0 <= i < ws.len() implies #[trigger] ws[i].len() > 0 by {
                if i > 0 {
                    assert(ws[i] == words(rest)[i - 1]);
                }
            }
        }
    }
}

proof fn lemma_join_empty(ws: Seq<Seq<char>>)
    requires
        all_nonempty(ws),
    ensures
        (join(ws, " "@).len() == 0) == (ws.len() == 0),
{
    if ws.len() > 1 {
        assert(ws.last().len() > 0);
    } else if ws.len() == 1 {
        assert(ws[0].len() > 0);
    }
}

proof fn lemma_join_front(w: Seq<char>, rest: Seq<Seq<char>>)
    requires
        all_nonempty(rest),
    ensures
        w.len() > 0 ==> join(seq![w] + rest, " "@) == space_cat(w, join(rest, " "@)),
    decreases rest.len(),
{
    lemma_join_empty(rest);
    if w.len() > 0 {
        if rest.len() == 0 {
            assert(seq![w] + rest =~= seq![w]);
        } else {
            let all = seq![w] + rest;
            assert(all.drop_last() =~= seq![w] + rest.drop_last());
            assert(all.last() == rest.last());
            assert(all_nonempty(rest.drop_last())) by {
                assert forall|i: int| 0 <= i < rest.drop_last().len() implies #[trigger] rest.drop_last()[i].len() > 0 by {
                    assert(rest.drop_last()[i] == rest[i]);
                }
            }
            lemma_join_front(w, rest.drop_last());
            lemma_join_empty(rest.drop_last());
            if rest.len() == 1 {
                assert(rest.drop_last() =~= Seq::<Seq<char>>::empty());
                assert(join(rest, " "@) == rest[0]);
            }
        }
    }
}

proof fn lemma_fill_words(ws: Seq<Seq<char>>, avail: nat, lines: Seq<Seq<char>>, cur: Seq<char>)
    requires
        all_nonempty(ws),
        forall|k: int| 0 <= k < lines.len() ==> #[trigger] hash_line(lines[k]),
        hash_line(cur),
        lines.len() > 0 ==> cur.len() > 2,
    ensures
        forall|k: int| 0 <= k < fill(ws, avail, lines, cur).len() ==> #[trigger] hash_line(
            fill(ws, avail, lines, cur)[k],
        ),
        join(line_bodies(fill(ws, avail, lines, cur)), " "@) == space_cat(
            join(line_bodies(lines.push(cur)), " "@),
            join(ws, " "@),
        ),
    decreases ws.len(),
{
    reveal_strlit("# ");
    reveal_strlit(" ");
    let sp = " "@;
    lemma_join_empty(ws);
    if ws.len() == 0 {
        let r = lines.push(cur);
        assert forall|k: int| 0 <= k < r.len() implies #[trigger] hash_line(r[k]) by {
            if k < lines.len() {
                assert(r[k] == lines[k]);
            }
        }
    } else {
        let w = ws[0];
        let rest = ws.subrange(1, ws.len() as int);
        assert(ws =~= seq![w] + rest);
        assert(all_nonempty(rest)) by {
            assert forall|i: int| 0 <= i < rest.len() implies #[trigger] rest[i].len() > 0 by {
                assert(rest[i] == ws[i + 1]);
            }
        }
        lemma_join_front(w, rest);
        let jr = join(rest, sp);
        let body = cur.subrange(2, cur.len() as int);
        let lb = line_bodies(lines);
        let old_j = join(line_bodies(lines.push(cur)), sp);
        assert(line_bodies(lines.push(cur)) =~= lb.push(body));
        let projected = if cur.len() == 2 {
            2 + w.len()
        } else {
            cur.len() + 1 + w.len()
        };
        if projected > avail && cur.len() != 2 {
            let lines2 = lines.push(cur);
            let cur2 = "# "@ + w;
            assert forall|k: int| 0 <= k < lines2.len() implies #[trigger] hash_line(lines2[k]) by {
                if k < lines.len() {
                    assert(lines2[k] == lines[k]);
                }
            }
            assert(hash_line(cur2));
            lemma_fill_words(rest, avail, lines2, cur2);
            assert(cur2.subrange(2, cur2.len() as int) =~= w);
            assert(line_bodies(lines2.push(cur2)) =~= line_bodies(lines2).push(w));
            assert(line_bodies(lines2.push(cur2)).drop_last() =~= line_bodies(lines2));
            assert(old_j.len() > 0) by {
                if lb.len() == 0 {
                    assert(lb.push(body) =~= seq![body]);
                }
            }
            assert(join(line_bodies(lines2.push(cur2)), sp) == old_j + sp + w);
        } else if cur.len() != 2 {
            let cur2 = cur + sp + w;
            assert(hash_line(cur2));
            lemma_fill_words(rest, avail, lines, cur2);
            let body2 = cur2.subrange(2, cur2.len() as int);
            assert(body2 =~= body + sp + w);
            assert(line_bodies(lines.push(cur2)) =~= lb.push(body2));
            if lb.len() == 0 {
                assert(lb.push(body2) =~= seq![body2]);
                assert(lb.push(body) =~= seq![body]);
                assert(old_j == body);
            } else {
                assert(lb.push(body2).drop_last() =~= lb);
                assert(lb.push(body).drop_last() =~= lb);
                assert(join(lb.push(body2), sp) =~= join(lb, sp) + sp + body + sp + w);
            }
            assert(join(line_bodies(lines.push(cur2)), sp) =~= old_j + sp + w);
        } else {
            let cur2 = cur + w;
            assert(lines.len() == 0);
            assert(hash_line(cur2));
            lemma_fill_words(rest, avail, lines, cur2);
            assert(cur2.subrange(2, cur2.len() as int) =~= w);
            assert(lines.push(cur2) =~= seq![cur2]);
            assert(lines.push(cur) =~= seq![cur]);
            assert(line_bodies(seq![cur2]) =~= seq![w]);
            assert(line_bodies(seq![cur]) =~= seq![body]);
            assert(body.len() == 0);
        }
    }
}

/// Reflowing keeps a line comment's words in order: the comment is kept as
/// written, or it is a bare `#` with no words, or it is filled into lines
/// that each begin with `# ` and whose bodies, joined by spaces, are the
/// comment's words joined by spaces.
pub proof fn lemma_reflow_keeps_words(
    text: Seq<char>,
    markup: bool,
    reflow: bool,
    pattern: Seq<char>,
    indent_width: nat,
    line_width: nat,
)
    ensures
        line_comment_lines(text, markup, reflow, pattern, indent_width, line_width) == seq![text]
            || (line_comment_lines(text, markup, reflow, pattern, indent_width, line_width)
            == seq!["#"@] && comment_words(text).len() == 0) || ((forall|k: int|
            0 <= k < line_comment_lines(text, markup, reflow, pattern, indent_width, line_width).len()
                ==> #[trigger] hash_line(
                line_comment_lines(text, markup, reflow, pattern, indent_width, line_width)[k],
            )) && join(
            line_bodies(line_comment_lines(text, markup, reflow, pattern, indent_width, line_width)),
            " "@,
        ) == join(comment_words(text), " "@)),
{
    reveal_strlit("# ");
    let body = trim_start(text.subrange(lead_count(text, '#') as int, text.len() as int));
    if markup && reflow && !preserve_verbatim(text, pattern) {
        if body.len() == 0 {
            assert(words(body) =~= Seq::<Seq<char>>::empty());
        } else {
            let available = sat_sub(line_width, indent_width);
            if !(available <= 3 || text.len() <= available) {
                let ws = words(body);
                lemma_words_nonempty(body);
                lemma_fill_words(ws, available, Seq::empty(), "# "@);
                let e = Seq::<Seq<char>>::empty();
                assert(e.push("# "@) =~= seq!["# "@]);
                let hp = "# "@;
                assert(hp.len() == 2);
                assert(line_bodies(seq![hp])[0] =~= Seq::<char>::empty());
                assert(line_bodies(seq![hp]) =~= seq![Seq::<char>::empty()]);
                assert(join(line_bodies(e.push("# "@)), " "@) =~= Seq::<char>::empty());
            }
        }
    }
}

/// The lines a line comment is rendered as.
pub open spec fn line_comment_lines(
    text: Seq<char>,
    markup: bool,
    reflow: bool,
    pattern: Seq<char>,
    indent_width: nat,
    line_width: nat,
) -> Seq<Seq<char>> {
    if !markup || !reflow || preserve_verbatim(text, pattern) {
        seq![text]
    } else {
        let body = trim_start(text.subrange(lead_count(text, '#') as int, text.len() as int));
        if body.len() == 0 {
            seq!["#"@]
        } else {
            let available = sat_sub(line_width, indent_width);
            if available <= 3 || text.len() <= available {
                seq![text]
            } else {
                fill(words(body), available, Seq::empty(), "# "@)
            }
        }
    }
}

/// Comments kept as written even when comments are reflowed: a bare `#`,
/// a bracket-comment opener (`#[[`, `#[=[`), a `# ~~~` fence, any comment
/// holding a `cmakefmt:` or `cmake-format:` directive, and any comment the
/// configured literal pattern matches; and every comment when markup or
/// reflow is off.
pub proof fn lemma_literal_comments_kept(
    text: Seq<char>,
    markup: bool,
    reflow: bool,
    pattern: Seq<char>,
    indent_width: nat,
    line_width: nat,
)
    ensures
        (!markup || !reflow || trim(text) == "#"@ || starts_with(trim(text), "#[["@) || starts_with(trim(text), "#[=["@)
            || starts_with(trim(text), "# ~~~"@) || contains(trim(text), "cmakefmt:"@) || contains(
            trim(text),
            "cmake-format:"@,
        ) || (pattern.len() > 0 && regex_match(pattern, text) == Some(true))) ==> line_comment_lines(
            text,
            markup,
            reflow,
            pattern,
            indent_width,
            line_width,
        ) == seq![text],
{
}

/// The lines a comment is rendered as: a bracket comment split at its line
/// breaks, a line comment as [`line_comment_lines`].
pub open spec fn comment_lines(
    c: SComment,
    config: Config,
    indent_width: nat,
    line_width: nat,
) -> Seq<Seq<char>> {
    match c {
        SComment::Bracket(raw) => split_on(crlf_to_lf(raw), '\n'),
        SComment::Line(text) => line_comment_lines(
            text,
            config.enable_markup,
            config.reflow_comments,
            config.literal_comment_pattern@,
            indent_width,
            line_width,
        ),
    }
}

fn format_line_comment(text: &str, config: &Config, indent_width: usize, line_width: usize) -> (r:
    Vec<String>)
    ensures
        strs(r@) == line_comment_lines(
            text@,
            config.enable_markup,
            config.reflow_comments,
            config.literal_comment_pattern@,
            indent_width as nat,
            line_width as nat,
        ),
{
    if !config.enable_markup || !config.reflow_comments || should_preserve_comment_verbatim(
        text,
        config,
    ) {
        let mut v: Vec<String> = Vec::new();
        v.push(owned(text));
        assert(strs(v@) =~= seq![text@]);
        return v;
    }
    let tv = chars_of(text);
    let hashes = count_lead(&tv, '#');
    let after = string_of(&tv, hashes, tv.len());
    let body = trim_start_str(after.as_str());
    let bv = chars_of(body.as_str());
    if bv.len() == 0 {
        let mut v: Vec<String> = Vec::new();
        v.push(owned("#"));
        assert(strs(v@) =~= seq!["#"@]);
        return v;
    }
    let available: usize = if line_width >= indent_width {
        line_width - indent_width
    } else {
        0
    };
    if available <= 3 || tv.len() <= available {
        let mut v: Vec<String> = Vec::new();
        v.push(owned(text));
        assert(strs(v@) =~= seq![text@]);
        return v;
    }
    let ws = split_words(body.as_str());
    let ghost all = strs(ws@);
    let mut lines: Vec<String> = Vec::new();
    let mut current = owned("# ");
    let mut current_width: u128 = 2;
    let mut i: usize = 0;
    proof {
        reveal_strlit("# ");
        assert(all.subrange(0, all.len() as int) =~= all);
        assert(strs(lines@) =~= Seq::<Seq<char>>::empty());
    }
    while i < ws.len()
        invariant
            i <= ws@.len(),
            all == strs(ws@),
            current_width as nat == current@.len(),
            current_width <= available as u128 + 2 + usize::MAX as u128,
            current@.len() >= 2,
            available > 3,
            fill(all.subrange(i as int, all.len() as int), available as nat, strs(lines@), current@)
                == fill(all, available as nat, Seq::empty(), "# "@),
        decreases ws@.len() - i,
    {
        let w = ws[i].as_str();
        let wv = chars_of(w);
        let word_width = wv.len() as u128;
        let ghost rest = all.subrange(i as int, all.len() as int);
        proof {
            reveal_strlit("# ");
            reveal_strlit(" ");
        }
        assert(rest[0] == w@);
        assert(rest.subrange(1, rest.len() as int) =~= all.subrange(i + 1, all.len() as int));
        let projected = if current_width == 2 {
            2 + word_width
        } else {
            current_width + 1 + word_width
        };
        if projected > available as u128 && current_width != 2 {
            let old_current = current;
            proof {
                assert(strs(lines@.push(old_current)) =~= strs(lines@).push(old_current@));
            }
            lines.push(old_current);
            current = owned("# ");
            push_str(&mut current, w);
            current_width = 2 + word_width;
        } else {
            if current_width != 2 {
                push_str(&mut current, " ");
                current_width += 1;
            }
            push_str(&mut current, w);
            current_width += word_width;
        }
        i += 1;
    }
    let last = current;
    proof {
        assert(strs(lines@.push(last)) =~= strs(lines@).push(last@));
        assert(all.subrange(ws@.len() as int, all.len() as int) =~= Seq::<Seq<char>>::empty());
    }
    lines.push(last);
    lines
}

/// Format a single comment into one or more rendered output lines.
///
/// Bracket comments are preserved verbatim (split at their line breaks).
/// Line comments may be reflowed when markup handling and comment reflow
/// are enabled in [`Config`].
pub fn format_comment_lines(comment: &Comment, config: &Config, indent_width: usize, line_width: usize) -> (r: Vec<String>)
    ensures
        strs(r@) == comment_lines(comment@, *config, indent_width as nat, line_width as nat),
{
    match comment {
        Comment::Bracket(raw) => {
            let normalized = replace_crlf(raw.as_str());
            split_char(normalized.as_str(), '\n')
        },
        Comment::Line(text) => format_line_comment(text.as_str(), config, indent_width, line_width),
    }
}

} // verus!
