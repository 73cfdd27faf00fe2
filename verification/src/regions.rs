//! Formatter disable regions: lines between `# cmakefmt: off` and
//! `# cmakefmt: on` (or the `fmt:` and `cmake-format:` spellings), and lines
//! between two `# ~~~` fences, are kept exactly as written, barrier lines
//! included.

use vstd::prelude::*;
use crate::ast::{SStatement, Statement, stmts_view};
use crate::diff::{lines_with_endings, split_lines_with_endings};
use crate::parser::{parse, parse_spec};
use crate::text::{push_str, str_eq, strs, trim, trim_str};

verus! {

broadcast use vstd::string::group_string_axioms;

// ── Barrier lines ───────────────────────────────────────────────────────────

/// A line that opens a directive region.
pub open spec fn is_off_barrier(line: Seq<char>) -> bool {
    let t = trim(line);
    t == "# cmakefmt: off"@ || t == "# fmt: off"@ || t == "# cmake-format: off"@
}

/// A line that closes a directive region.
pub open spec fn is_on_barrier(line: Seq<char>) -> bool {
    let t = trim(line);
    t == "# cmakefmt: on"@ || t == "# fmt: on"@ || t == "# cmake-format: on"@
}

/// A fence line, which opens or closes a fenced region.
pub open spec fn is_fence(line: Seq<char>) -> bool {
    trim(line) == "# ~~~"@
}

fn off_barrier(line: &str) -> (r: bool)
    ensures
        r == is_off_barrier(line@),
{
    let t = trim_str(line);
    str_eq(t.as_str(), "# cmakefmt: off") || str_eq(t.as_str(), "# fmt: off") || str_eq(
        t.as_str(),
        "# cmake-format: off",
    )
}

fn on_barrier(line: &str) -> (r: bool)
    ensures
        r == is_on_barrier(line@),
{
    let t = trim_str(line);
    str_eq(t.as_str(), "# cmakefmt: on") || str_eq(t.as_str(), "# fmt: on") || str_eq(
        t.as_str(),
        "# cmake-format: on",
    )
}

fn fence(line: &str) -> (r: bool)
    ensures
        r == is_fence(line@),
{
    let t = trim_str(line);
    str_eq(t.as_str(), "# ~~~")
}

// ── Chunks ──────────────────────────────────────────────────────────────────

/// The chunks with a chunk of formatted text added when it is not empty.
pub open spec fn flush(acc: Seq<(bool, Seq<char>)>, cur: Seq<char>) -> Seq<(bool, Seq<char>)> {
    if cur.len() == 0 {
        acc
    } else {
        acc.push((false, cur))
    }
}

/// The source cut into chunks from line `i` on: `(true, text)` for a
/// region kept as written (its barrier lines included), `(false, text)` for
/// text to format. `mode` is 0 outside a region, 1 inside a directive
/// region, 2 inside a fenced region; `cur` is the text of the chunk being
/// gathered. A region left open runs to the end of the source.
pub open spec fn chunks_from(
    lines: Seq<Seq<char>>,
    i: int,
    mode: nat,
    cur: Seq<char>,
    acc: Seq<(bool, Seq<char>)>,
) -> Seq<(bool, Seq<char>)>
    decreases lines.len() - i,
{
    if i < 0 || i >= lines.len() {
        if mode == 0 {
            flush(acc, cur)
        } else {
            acc.push((true, cur))
        }
    } else {
        let l = lines[i];
        if mode == 0 {
            if is_off_barrier(l) {
                chunks_from(lines, i + 1, 1, l, flush(acc, cur))
            } else if is_fence(l) {
                chunks_from(lines, i + 1, 2, l, flush(acc, cur))
            } else {
                chunks_from(lines, i + 1, 0, cur + l, acc)
            }
        } else if (mode == 1 && is_on_barrier(l)) || (mode == 2 && is_fence(l)) {
            chunks_from(lines, i + 1, 0, Seq::empty(), acc.push((true, cur + l)))
        } else {
            chunks_from(lines, i + 1, mode, cur + l, acc)
        }
    }
}

/// Texts one after another.
pub open spec fn concat_all(ls: Seq<Seq<char>>) -> Seq<char>
    decreases ls.len(),
{
    if ls.len() == 0 {
        Seq::empty()
    } else {
        ls[0] + concat_all(ls.drop_first())
    }
}

/// The texts of chunks one after another.
pub open spec fn chunk_texts(cs: Seq<(bool, Seq<char>)>) -> Seq<char>
    decreases cs.len(),
{
    if cs.len() == 0 {
        Seq::empty()
    } else {
        chunk_texts(cs.drop_last()) + cs.last().1
    }
}

proof fn lemma_concat_step(lines: Seq<Seq<char>>, i: int)
    requires
        0 <= i < lines.len(),
    ensures
        concat_all(lines.subrange(i, lines.len() as int)) == lines[i] + concat_all(lines.subrange(i + 1, lines.len() as int)),
{
    let t = lines.subrange(i, lines.len() as int);
    assert(t.drop_first() =~= lines.subrange(i + 1, lines.len() as int));
    assert(t[0] == lines[i]);
}

proof fn lemma_flush_texts(acc: Seq<(bool, Seq<char>)>, cur: Seq<char>)
    ensures
        chunk_texts(flush(acc, cur)) == chunk_texts(acc) + cur,
{
    if cur.len() == 0 {
        assert(chunk_texts(acc) + cur =~= chunk_texts(acc));
    } else {
        assert(flush(acc, cur).drop_last() =~= acc);
    }
}

proof fn lemma_chunks_cover(lines: Seq<Seq<char>>, i: int, mode: nat, cur: Seq<char>, acc: Seq<(bool, Seq<char>)>)
    requires
        0 <= i <= lines.len(),
    ensures
        chunk_texts(chunks_from(lines, i, mode, cur, acc)) == chunk_texts(acc) + cur + concat_all(
            lines.subrange(i, lines.len() as int),
        ),
    decreases lines.len() - i,
{
    if i >= lines.len() {
        assert(lines.subrange(i, lines.len() as int) =~= Seq::<Seq<char>>::empty());
        lemma_flush_texts(acc, cur);
        assert(acc.push((true, cur)).drop_last() =~= acc);
        assert(chunk_texts(acc) + cur + Seq::<char>::empty() =~= chunk_texts(acc) + cur);
    } else {
        let l = lines[i];
        let rest = concat_all(lines.subrange(i + 1, lines.len() as int));
        lemma_concat_step(lines, i);
        lemma_flush_texts(acc, cur);
        if mode == 0 {
            if is_off_barrier(l) {
                lemma_chunks_cover(lines, i + 1, 1, l, flush(acc, cur));
                assert(chunk_texts(flush(acc, cur)) + l + rest =~= chunk_texts(acc) + cur + (l + rest));
            } else if is_fence(l) {
                lemma_chunks_cover(lines, i + 1, 2, l, flush(acc, cur));
                assert(chunk_texts(flush(acc, cur)) + l + rest =~= chunk_texts(acc) + cur + (l + rest));
            } else {
                lemma_chunks_cover(lines, i + 1, 0, cur + l, acc);
                assert(chunk_texts(acc) + (cur + l) + rest =~= chunk_texts(acc) + cur + (l + rest));
            }
        } else if (mode == 1 && is_on_barrier(l)) || (mode == 2 && is_fence(l)) {
            let acc2 = acc.push((true, cur + l));
            lemma_chunks_cover(lines, i + 1, 0, Seq::empty(), acc2);
            assert(acc2.drop_last() =~= acc);
            assert(chunk_texts(acc2) + Seq::<char>::empty() + rest =~= chunk_texts(acc) + cur + (l + rest));
        } else {
            lemma_chunks_cover(lines, i + 1, mode, cur + l, acc);
            assert(chunk_texts(acc) + (cur + l) + rest =~= chunk_texts(acc) + cur + (l + rest));
        }
    }
}

/// Cutting a source into chunks loses and reorders nothing: the chunk
/// texts, one after another, are the source's lines one after another.
pub proof fn lemma_chunks_cover_source(source: Seq<char>)
    ensures
        chunk_texts(chunks(source)) == concat_all(lines_with_endings(source)),
{
    let lines = lines_with_endings(source);
    lemma_chunks_cover(lines, 0, 0, Seq::empty(), Seq::empty());
    assert(lines.subrange(0, lines.len() as int) =~= lines);
    assert(chunk_texts(Seq::<(bool, Seq<char>)>::empty()) + Seq::<char>::empty() + concat_all(lines) =~= concat_all(lines));
}

proof fn lemma_directive_region_runs(
    lines: Seq<Seq<char>>,
    i: int,
    j: int,
    cur: Seq<char>,
    acc: Seq<(bool, Seq<char>)>,
)
    requires
        0 <= i <= j < lines.len(),
        is_on_barrier(lines[j]),
        forall|k: int| i <= k < j ==> !is_on_barrier(#[trigger] lines[k]),
    ensures
        chunks_from(lines, i, 1, cur, acc) == chunks_from(
            lines,
            j + 1,
            0,
            Seq::empty(),
            acc.push((true, cur + concat_all(lines.subrange(i, j + 1)))),
        ),
    decreases j - i,
{
    let sub = lines.subrange(i, j + 1);
    assert(sub.drop_first() =~= lines.subrange(i + 1, j + 1));
    assert(sub[0] == lines[i]);
    if i == j {
        assert(lines.subrange(i + 1, j + 1) =~= Seq::<Seq<char>>::empty());
        assert(cur + lines[i] =~= cur + concat_all(sub));
    } else {
        lemma_directive_region_runs(lines, i + 1, j, cur + lines[i], acc);
        assert(cur + lines[i] + concat_all(lines.subrange(i + 1, j + 1)) =~= cur + concat_all(sub));
    }
}

/// Directive regions: a line reading `# cmakefmt: off`, `# fmt: off` or
/// `# cmake-format: off` (surrounding white space aside) outside a region
/// opens one, and it runs through the first line reading `# cmakefmt: on`,
/// `# fmt: on` or `# cmake-format: on`: those lines, barriers included,
/// become one chunk kept as written, and what comes after is cut afresh.
pub proof fn lemma_directive_region(
    lines: Seq<Seq<char>>,
    i: int,
    j: int,
    cur: Seq<char>,
    acc: Seq<(bool, Seq<char>)>,
)
    requires
        0 <= i < j < lines.len(),
        trim(lines[i]) == "# cmakefmt: off"@ || trim(lines[i]) == "# fmt: off"@ || trim(lines[i]) == "# cmake-format: off"@,
        trim(lines[j]) == "# cmakefmt: on"@ || trim(lines[j]) == "# fmt: on"@ || trim(lines[j]) == "# cmake-format: on"@,
        forall|k: int|
            i < k < j ==> !(trim(#[trigger] lines[k]) == "# cmakefmt: on"@ || trim(lines[k]) == "# fmt: on"@ || trim(
                lines[k],
            ) == "# cmake-format: on"@),
    ensures
        chunks_from(lines, i, 0, cur, acc) == chunks_from(
            lines,
            j + 1,
            0,
            Seq::empty(),
            flush(acc, cur).push((true, concat_all(lines.subrange(i, j + 1)))),
        ),
{
    assert(is_off_barrier(lines[i]));
    lemma_directive_region_runs(lines, i + 1, j, lines[i], flush(acc, cur));
    let sub = lines.subrange(i, j + 1);
    assert(sub.drop_first() =~= lines.subrange(i + 1, j + 1));
    assert(sub[0] == lines[i]);
}

proof fn lemma_fenced_region_runs(
    lines: Seq<Seq<char>>,
    i: int,
    j: int,
    cur: Seq<char>,
    acc: Seq<(bool, Seq<char>)>,
)
    requires
        0 <= i <= j < lines.len(),
        is_fence(lines[j]),
        forall|k: int| i <= k < j ==> !is_fence(#[trigger] lines[k]),
    ensures
        chunks_from(lines, i, 2, cur, acc) == chunks_from(
            lines,
            j + 1,
            0,
            Seq::empty(),
            acc.push((true, cur + concat_all(lines.subrange(i, j + 1)))),
        ),
    decreases j - i,
{
    let sub = lines.subrange(i, j + 1);
    assert(sub.drop_first() =~= lines.subrange(i + 1, j + 1));
    assert(sub[0] == lines[i]);
    if i == j {
        assert(lines.subrange(i + 1, j + 1) =~= Seq::<Seq<char>>::empty());
        assert(cur + lines[i] =~= cur + concat_all(sub));
    } else {
        lemma_fenced_region_runs(lines, i + 1, j, cur + lines[i], acc);
        assert(cur + lines[i] + concat_all(lines.subrange(i + 1, j + 1)) =~= cur + concat_all(sub));
    }
}

/// Fenced regions: a line reading `# ~~~` (surrounding white space aside)
/// outside a region opens one that runs through the next such line: those
/// lines, fences included, become one chunk kept as written.
pub proof fn lemma_fenced_region(
    lines: Seq<Seq<char>>,
    i: int,
    j: int,
    cur: Seq<char>,
    acc: Seq<(bool, Seq<char>)>,
)
    requires
        0 <= i < j < lines.len(),
        trim(lines[i]) == "# ~~~"@,
        trim(lines[j]) == "# ~~~"@,
        forall|k: int| i < k < j ==> trim(#[trigger] lines[k]) != "# ~~~"@,
    ensures
        chunks_from(lines, i, 0, cur, acc) == chunks_from(
            lines,
            j + 1,
            0,
            Seq::empty(),
            flush(acc, cur).push((true, concat_all(lines.subrange(i, j + 1)))),
        ),
{
    reveal_strlit("# ~~~");
    reveal_strlit("# cmakefmt: off");
    reveal_strlit("# fmt: off");
    reveal_strlit("# cmake-format: off");
    assert("# ~~~"@.len() == 5 && "# fmt: off"@.len() == 10 && "# cmakefmt: off"@.len() == 15
        && "# cmake-format: off"@.len() == 19);
    assert(!is_off_barrier(lines[i]));
    assert(is_fence(lines[i]));
    lemma_fenced_region_runs(lines, i + 1, j, lines[i], flush(acc, cur));
    let sub = lines.subrange(i, j + 1);
    assert(sub.drop_first() =~= lines.subrange(i + 1, j + 1));
    assert(sub[0] == lines[i]);
}

/// The chunks of a source.
pub open spec fn chunks(source: Seq<char>) -> Seq<(bool, Seq<char>)> {
    chunks_from(lines_with_endings(source), 0, 0, Seq::empty(), Seq::empty())
}

/// Whether some chunk is a region kept as written.
pub open spec fn has_region(cs: Seq<(bool, Seq<char>)>) -> bool {
    exists|k: int| 0 <= k < cs.len() && #[trigger] cs[k].0
}

/// A text without its final newline, if it has one.
pub open spec fn drop_final_newline(t: Seq<char>) -> Seq<char> {
    if t.len() > 0 && t.last() == '\n' {
        t.drop_last()
    } else {
        t
    }
}

/// The statements of the chunks in order: a region becomes one verbatim
/// statement holding its text, other chunks their parsed statements; none
/// when a chunk to format does not parse on its own.
pub open spec fn assembled(cs: Seq<(bool, Seq<char>)>) -> Option<Seq<SStatement>>
    decreases cs.len(),
{
    if cs.len() == 0 {
        Some(Seq::empty())
    } else {
        match assembled(cs.drop_last()) {
            None => None,
            Some(prev) => if cs.last().0 {
                Some(prev.push(SStatement::TemplatePlaceholder(drop_final_newline(cs.last().1))))
            } else {
                match parse_spec(cs.last().1) {
                    Ok(s) => Some(prev + s),
                    Err(_) => None,
                }
            },
        }
    }
}

/// The chunks as values.
pub open spec fn chunks_view(v: Seq<(bool, String)>) -> Seq<(bool, Seq<char>)> {
    v.map_values(|c: (bool, String)| (c.0, c.1@))
}

/// Cut a source into regions kept as written and text to format.
pub fn source_chunks(source: &str) -> (r: Vec<(bool, String)>)
    ensures
        chunks_view(r@) == chunks(source@),
{
    let lines = split_lines_with_endings(source);
    let ghost ls = strs(lines@);
    let mut acc: Vec<(bool, String)> = Vec::new();
    let mut cur = String::new();
    let mut mode: u8 = 0;
    let mut i: usize = 0;
    assert(chunks_view(acc@) =~= Seq::<(bool, Seq<char>)>::empty());
    while i < lines.len()
        invariant
            i <= lines@.len(),
            ls == strs(lines@),
            ls == lines_with_endings(source@),
            mode <= 2,
            chunks_from(ls, i as int, mode as nat, cur@, chunks_view(acc@)) == chunks(source@),
        decreases lines@.len() - i,
    {
        let l = &lines[i];
        assert(ls[i as int] == l@);
        let ghost pre = chunks_view(acc@);
        if mode == 0 {
            let is_off = off_barrier(l.as_str());
            let is_fenced = fence(l.as_str());
            if is_off || is_fenced {
                let ghost old_cur = cur@;
                let mut next = String::new();
                push_str(&mut next, l.as_str());
                if crate::node::char_count(cur.as_str()) > 0 {
                    acc.push((false, cur));
                    assert(chunks_view(acc@) =~= pre.push((false, old_cur)));
                }
                assert(chunks_view(acc@) == flush(pre, old_cur));
                cur = next;
                mode = if is_off { 1 } else { 2 };
            } else {
                push_str(&mut cur, l.as_str());
            }
        } else if (mode == 1 && on_barrier(l.as_str())) || (mode == 2 && fence(l.as_str())) {
            push_str(&mut cur, l.as_str());
            let c = cur;
            acc.push((true, c));
            assert(chunks_view(acc@) =~= pre.push((true, c@)));
            cur = String::new();
            mode = 0;
        } else {
            push_str(&mut cur, l.as_str());
        }
        i += 1;
    }
    if mode == 0 {
        if crate::node::char_count(cur.as_str()) > 0 {
            let ghost pre = chunks_view(acc@);
            let c = cur;
            acc.push((false, c));
            assert(chunks_view(acc@) =~= pre.push((false, c@)));
        }
    } else {
        let ghost pre = chunks_view(acc@);
        let c = cur;
        acc.push((true, c));
        assert(chunks_view(acc@) =~= pre.push((true, c@)));
    }
    acc
}

/// Whether some chunk is a region kept as written.
pub fn any_region(cs: &Vec<(bool, String)>) -> (r: bool)
    ensures
        r == has_region(chunks_view(cs@)),
{
    let mut k: usize = 0;
    while k < cs.len()
        invariant
            k <= cs@.len(),
            forall|j: int| 0 <= j < k ==> !cs@[j].0,
        decreases cs@.len() - k,
    {
        if cs[k].0 {
            assert(chunks_view(cs@)[k as int].0);
            return true;
        }
        k += 1;
    }
    assert forall|j: int| 0 <= j < chunks_view(cs@).len() implies !(#[trigger] chunks_view(cs@)[j]).0 by {
        assert(chunks_view(cs@)[j] == (cs@[j].0, cs@[j].1@));
    }
    false
}

fn without_final_newline(t: &str) -> (r: String)
    ensures
        r@ == drop_final_newline(t@),
{
    let v = crate::text::chars_of(t);
    if v.len() > 0 && v[v.len() - 1] == '\n' {
        crate::text::string_of(&v, 0, v.len() - 1)
    } else {
        crate::text::string_of_all(&v)
    }
}

/// The statements of the chunks in order, or none when a chunk to format
/// does not parse on its own.
pub fn assemble(cs: &Vec<(bool, String)>) -> (r: Option<Vec<Statement>>)
    ensures
        match assembled(chunks_view(cs@)) {
            Some(all) => r matches Some(v) && stmts_view(v@) == all,
            None => r is None,
        },
{
    let ghost cv = chunks_view(cs@);
    let mut out: Vec<Statement> = Vec::new();
    let mut k: usize = 0;
    assert(cv.subrange(0, 0) =~= Seq::<(bool, Seq<char>)>::empty());
    assert(stmts_view(out@) =~= Seq::<SStatement>::empty());
    while k < cs.len()
        invariant
            k <= cs@.len(),
            cv == chunks_view(cs@),
            assembled(cv.subrange(0, k as int)) == Some(stmts_view(out@)),
        decreases cs@.len() - k,
    {
        let ghost prev = stmts_view(out@);
        assert(cv.subrange(0, k + 1).drop_last() =~= cv.subrange(0, k as int));
        assert(cv.subrange(0, k + 1).last() == cv[k as int]);
        assert(cv[k as int] == (cs@[k as int].0, cs@[k as int].1@));
        if cs[k].0 {
            let t = without_final_newline(cs[k].1.as_str());
            out.push(Statement::TemplatePlaceholder(t));
            assert(stmts_view(out@) =~= prev.push(SStatement::TemplatePlaceholder(drop_final_newline(cv[k as int].1))));
        } else {
            match parse(cs[k].1.as_str()) {
                Ok(f) => {
                    let mut more = f.statements;
                    let ghost add = stmts_view(more@);
                    out.append(&mut more);
                    assert(stmts_view(out@) =~= prev + add);
                },
                Err(_) => {
                    proof {
                        lemma_assembled_none_stays(cv, k as int + 1);
                    }
                    assert(cv.subrange(0, cv.len() as int) =~= cv);
                    return None;
                },
            }
        }
        k += 1;
    }
    assert(cv.subrange(0, cv.len() as int) =~= cv);
    Some(out)
}

proof fn lemma_assembled_none_stays(cv: Seq<(bool, Seq<char>)>, k: int)
    requires
        0 <= k <= cv.len(),
        assembled(cv.subrange(0, k)) is None,
    ensures
        assembled(cv) is None,
    decreases cv.len() - k,
{
    if k < cv.len() {
        assert(cv.subrange(0, k + 1).drop_last() =~= cv.subrange(0, k));
        lemma_assembled_none_stays(cv, k + 1);
    } else {
        assert(cv.subrange(0, k) =~= cv);
    }
}

// ── Laws ────────────────────────────────────────────────────────────────────

/// Every region of the source stands, as one verbatim statement holding its
/// text without the final newline, among the assembled statements.
pub proof fn lemma_regions_assembled(cs: Seq<(bool, Seq<char>)>, k: int)
    requires
        0 <= k < cs.len(),
        cs[k].0,
        assembled(cs) is Some,
    ensures
        exists|j: int| 0 <= j < assembled(cs)->0.len() && #[trigger] assembled(cs)->0[j]
            == SStatement::TemplatePlaceholder(drop_final_newline(cs[k].1)),
    decreases cs.len(),
{
    let init = cs.drop_last();
    let prev = assembled(init)->0;
    let all = assembled(cs)->0;
    if k == cs.len() - 1 {
        assert(all[prev.len() as int] == SStatement::TemplatePlaceholder(drop_final_newline(cs[k].1)));
    } else {
        assert(init[k] == cs[k]);
        lemma_regions_assembled(init, k);
        let j = choose|j: int| 0 <= j < prev.len() && #[trigger] prev[j]
            == SStatement::TemplatePlaceholder(drop_final_newline(init[k].1));
        if cs.last().0 {
            assert(all[j] == prev[j]);
        } else {
            assert(all[j] == prev[j]);
        }
    }
}

} // verus!
