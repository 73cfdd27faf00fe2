//! Which lines of a formatted text changed, by a longest-common-subsequence
//! match against the original lines, and the colouring of changed lines.

use vstd::prelude::*;
use crate::text::{chars_of, owned, push_str, str_eq, strs, usize_to_string};

verus! {

broadcast use vstd::string::group_string_axioms;

// ── Longest common subsequence ──────────────────────────────────────────────

/// The length of a longest common subsequence of `o[i..]` and `f[j..]`.
pub open spec fn lcs(o: Seq<Seq<char>>, f: Seq<Seq<char>>, i: int, j: int) -> nat
    decreases o.len() - i + f.len() - j,
{
    if i < 0 || j < 0 || i >= o.len() || j >= f.len() {
        0
    } else if o[i] == f[j] {
        lcs(o, f, i + 1, j + 1) + 1
    } else {
        let a = lcs(o, f, i + 1, j);
        let b = lcs(o, f, i, j + 1);
        if a >= b { a } else { b }
    }
}

/// The walk that marks the formatted lines matched by a longest common
/// subsequence as unchanged.
pub open spec fn lcs_walk(o: Seq<Seq<char>>, f: Seq<Seq<char>>, i: int, j: int, changed: Seq<bool>) -> Seq<bool>
    decreases o.len() - i + f.len() - j,
{
    if i < 0 || j < 0 || i >= o.len() || j >= f.len() {
        changed
    } else if o[i] == f[j] {
        lcs_walk(o, f, i + 1, j + 1, changed.update(j, false))
    } else if lcs(o, f, i + 1, j) >= lcs(o, f, i, j + 1) {
        lcs_walk(o, f, i + 1, j, changed)
    } else {
        lcs_walk(o, f, i, j + 1, changed)
    }
}

/// Which formatted lines are changed relative to the original ones, when
/// neither is trimmed of common ends: all of them when there is nothing to
/// match against or the table would exceed two million cells, else those
/// outside a longest common subsequence.
pub open spec fn middle_mask(o: Seq<Seq<char>>, f: Seq<Seq<char>>) -> Seq<bool> {
    if f.len() == 0 {
        Seq::empty()
    } else if o.len() == 0 || o.len() * f.len() > 2_000_000 {
        Seq::new(f.len(), |_i: int| true)
    } else {
        lcs_walk(o, f, 0, 0, Seq::new(f.len(), |_i: int| true))
    }
}

proof fn lemma_lcs_bound(o: Seq<Seq<char>>, f: Seq<Seq<char>>, i: int, j: int)
    requires
        0 <= i <= o.len(),
        0 <= j <= f.len(),
    ensures
        lcs(o, f, i, j) <= o.len() - i,
    decreases o.len() - i + f.len() - j,
{
    if i < o.len() && j < f.len() {
        lemma_lcs_bound(o, f, i + 1, j + 1);
        lemma_lcs_bound(o, f, i + 1, j);
        lemma_lcs_bound(o, f, i, j + 1);
    }
}

proof fn lemma_walk_len(o: Seq<Seq<char>>, f: Seq<Seq<char>>, i: int, j: int, changed: Seq<bool>)
    requires
        changed.len() == f.len(),
    ensures
        lcs_walk(o, f, i, j, changed).len() == changed.len(),
    decreases o.len() - i + f.len() - j,
{
    if 0 <= i < o.len() && 0 <= j < f.len() {
        if o[i] == f[j] {
            lemma_walk_len(o, f, i + 1, j + 1, changed.update(j, false));
        } else if lcs(o, f, i + 1, j) >= lcs(o, f, i, j + 1) {
            lemma_walk_len(o, f, i + 1, j, changed);
        } else {
            lemma_walk_len(o, f, i, j + 1, changed);
        }
    }
}

/// Whether the position pairs `ps` pick a common subsequence of `o` from
/// `i0` on and `f` from `j0` on: each pair matches equal lines, and both
/// positions strictly increase along the pairs.
pub open spec fn common_subseq(o: Seq<Seq<char>>, f: Seq<Seq<char>>, ps: Seq<(int, int)>, i0: int, j0: int) -> bool {
    &&& forall|k: int|
        0 <= k < ps.len() ==> i0 <= (#[trigger] ps[k]).0 < o.len() && j0 <= ps[k].1 < f.len() && o[ps[k].0] == f[ps[k].1]
    &&& forall|k: int, l: int| 0 <= k < l < ps.len() ==> (#[trigger] ps[k]).0 < (#[trigger] ps[l]).0 && ps[k].1 < ps[l].1
}

/// The position pairs the walk matches, in order.
pub open spec fn lcs_pairs(o: Seq<Seq<char>>, f: Seq<Seq<char>>, i: int, j: int) -> Seq<(int, int)>
    decreases o.len() - i + f.len() - j,
{
    if i < 0 || j < 0 || i >= o.len() || j >= f.len() {
        Seq::empty()
    } else if o[i] == f[j] {
        seq![(i, j)] + lcs_pairs(o, f, i + 1, j + 1)
    } else if lcs(o, f, i + 1, j) >= lcs(o, f, i, j + 1) {
        lcs_pairs(o, f, i + 1, j)
    } else {
        lcs_pairs(o, f, i, j + 1)
    }
}

/// `changed` with the formatted position of each pair marked unchanged.
pub open spec fn unmark(changed: Seq<bool>, ps: Seq<(int, int)>) -> Seq<bool>
    decreases ps.len(),
{
    if ps.len() == 0 {
        changed
    } else {
        unmark(changed.update(ps[0].1, false), ps.drop_first())
    }
}

proof fn lemma_lcs_upper(o: Seq<Seq<char>>, f: Seq<Seq<char>>, ps: Seq<(int, int)>, i: int, j: int)
    requires
        0 <= i,
        0 <= j,
        common_subseq(o, f, ps, i, j),
    ensures
        ps.len() <= lcs(o, f, i, j),
    decreases o.len() - i + f.len() - j,
{
    if ps.len() > 0 {
        assert(i <= ps[0].0 < o.len() && j <= ps[0].1 < f.len());
        assert forall|k: int| 0 <= k < ps.len() implies ps[0].0 <= (#[trigger] ps[k]).0 && ps[0].1 <= ps[k].1 by {
            if k > 0 {
                assert(ps[0].0 < ps[k].0);
            }
        }
        if o[i] == f[j] {
            let t = ps.drop_first();
            assert forall|k: int| 0 <= k < t.len() implies i + 1 <= (#[trigger] t[k]).0 < o.len() && j + 1 <= t[k].1
                < f.len() && o[t[k].0] == f[t[k].1] by {
                assert(t[k] == ps[k + 1]);
                assert(ps[0].0 < ps[k + 1].0);
            }
            assert forall|k: int, l: int| 0 <= k < l < t.len() implies (#[trigger] t[k]).0 < (#[trigger] t[l]).0 && t[k].1
                < t[l].1 by {
                assert(t[k] == ps[k + 1] && t[l] == ps[l + 1]);
                assert(ps[k + 1].0 < ps[l + 1].0);
            }
            lemma_lcs_upper(o, f, t, i + 1, j + 1);
        } else if ps[0].0 > i {
            lemma_lcs_upper(o, f, ps, i + 1, j);
        } else {
            assert(ps[0].1 > j);
            lemma_lcs_upper(o, f, ps, i, j + 1);
        }
    }
}

proof fn lemma_pairs_common(o: Seq<Seq<char>>, f: Seq<Seq<char>>, i: int, j: int)
    requires
        0 <= i,
        0 <= j,
    ensures
        common_subseq(o, f, lcs_pairs(o, f, i, j), i, j),
        lcs_pairs(o, f, i, j).len() == lcs(o, f, i, j),
    decreases o.len() - i + f.len() - j,
{
    if i < o.len() && j < f.len() {
        if o[i] == f[j] {
            lemma_pairs_common(o, f, i + 1, j + 1);
            let t = lcs_pairs(o, f, i + 1, j + 1);
            let ps = lcs_pairs(o, f, i, j);
            assert(ps == seq![(i, j)] + t);
            assert forall|k: int| 0 <= k < ps.len() implies i <= (#[trigger] ps[k]).0 < o.len() && j <= ps[k].1 < f.len()
                && o[ps[k].0] == f[ps[k].1] by {
                if k > 0 {
                    assert(ps[k] == t[k - 1]);
                }
            }
            assert forall|k: int, l: int| 0 <= k < l < ps.len() implies (#[trigger] ps[k]).0 < (#[trigger] ps[l]).0
                && ps[k].1 < ps[l].1 by {
                assert(ps[l] == t[l - 1]);
                if k > 0 {
                    assert(ps[k] == t[k - 1]);
                }
            }
        } else if lcs(o, f, i + 1, j) >= lcs(o, f, i, j + 1) {
            lemma_pairs_common(o, f, i + 1, j);
        } else {
            lemma_pairs_common(o, f, i, j + 1);
        }
    }
}

proof fn lemma_walk_unmarks(o: Seq<Seq<char>>, f: Seq<Seq<char>>, i: int, j: int, changed: Seq<bool>)
    ensures
        lcs_walk(o, f, i, j, changed) == unmark(changed, lcs_pairs(o, f, i, j)),
    decreases o.len() - i + f.len() - j,
{
    if 0 <= i < o.len() && 0 <= j < f.len() {
        if o[i] == f[j] {
            lemma_walk_unmarks(o, f, i + 1, j + 1, changed.update(j, false));
            let ps = lcs_pairs(o, f, i, j);
            assert(ps.drop_first() =~= lcs_pairs(o, f, i + 1, j + 1));
        } else if lcs(o, f, i + 1, j) >= lcs(o, f, i, j + 1) {
            lemma_walk_unmarks(o, f, i + 1, j, changed);
        } else {
            lemma_walk_unmarks(o, f, i, j + 1, changed);
        }
    }
}

proof fn lemma_unmark_at(changed: Seq<bool>, ps: Seq<(int, int)>, k: int)
    requires
        0 <= k < changed.len(),
        forall|m: int| 0 <= m < ps.len() ==> 0 <= (#[trigger] ps[m]).1 < changed.len(),
    ensures
        unmark(changed, ps).len() == changed.len(),
        unmark(changed, ps)[k] == (changed[k] && !exists|m: int| 0 <= m < ps.len() && (#[trigger] ps[m]).1 == k),
    decreases ps.len(),
{
    if ps.len() > 0 {
        let t = ps.drop_first();
        assert(0 <= ps[0].1 < changed.len());
        let c2 = changed.update(ps[0].1, false);
        assert forall|m: int| 0 <= m < t.len() implies 0 <= (#[trigger] t[m]).1 < c2.len() by {
            assert(t[m] == ps[m + 1]);
        }
        lemma_unmark_at(c2, t, k);
        if exists|m: int| 0 <= m < ps.len() && (#[trigger] ps[m]).1 == k {
            let m = choose|m: int| 0 <= m < ps.len() && (#[trigger] ps[m]).1 == k;
            if m > 0 {
                assert(t[m - 1] == ps[m]);
            }
        }
        if exists|m: int| 0 <= m < t.len() && (#[trigger] t[m]).1 == k {
            let m = choose|m: int| 0 <= m < t.len() && (#[trigger] t[m]).1 == k;
            assert(ps[m + 1] == t[m]);
        }
    }
}

/// A line diff marks as unchanged exactly the formatted lines of a longest
/// common subsequence: the matched pairs pick equal lines at increasing
/// positions in both texts, no common subsequence of the two is longer, and
/// a formatted line is marked changed exactly when no pair matches it.
pub proof fn lemma_middle_mask_is_lcs(o: Seq<Seq<char>>, f: Seq<Seq<char>>)
    requires
        o.len() > 0,
        f.len() > 0,
        o.len() * f.len() <= 2_000_000,
    ensures
        common_subseq(o, f, lcs_pairs(o, f, 0, 0), 0, 0),
        forall|ps: Seq<(int, int)>| #[trigger] common_subseq(o, f, ps, 0, 0) ==> ps.len() <= lcs_pairs(o, f, 0, 0).len(),
        middle_mask(o, f).len() == f.len(),
        forall|k: int| 0 <= k < f.len() ==> (#[trigger] middle_mask(o, f)[k]) == !exists|m: int|
            0 <= m < lcs_pairs(o, f, 0, 0).len() && (#[trigger] lcs_pairs(o, f, 0, 0)[m]).1 == k,
{
    let ps = lcs_pairs(o, f, 0, 0);
    lemma_pairs_common(o, f, 0, 0);
    assert forall|q: Seq<(int, int)>| #[trigger] common_subseq(o, f, q, 0, 0) implies q.len() <= ps.len() by {
        lemma_lcs_upper(o, f, q, 0, 0);
    }
    let all = Seq::new(f.len(), |_i: int| true);
    lemma_walk_unmarks(o, f, 0, 0, all);
    assert forall|m: int| 0 <= m < ps.len() implies 0 <= (#[trigger] ps[m]).1 < all.len() by {}
    assert forall|k: int| 0 <= k < f.len() implies (#[trigger] middle_mask(o, f)[k]) == !exists|m: int|
        0 <= m < ps.len() && (#[trigger] ps[m]).1 == k by {
        lemma_unmark_at(all, ps, k);
    }
    lemma_unmark_at(all, ps, 0);
}

fn lines_equal(a: &Vec<String>, i: usize, b: &Vec<String>, j: usize) -> (r: bool)
    requires
        i < a@.len(),
        j < b@.len(),
    ensures
        r == (strs(a@)[i as int] == strs(b@)[j as int]),
{
    str_eq(a[i].as_str(), b[j].as_str())
}

/// Which formatted lines are changed relative to the original lines, by a
/// longest common subsequence.
pub fn diff_middle_mask(original: &Vec<String>, formatted: &Vec<String>) -> (r: Vec<bool>)
    ensures
        r@ == middle_mask(strs(original@), strs(formatted@)),
{
    let ghost o = strs(original@);
    let ghost f = strs(formatted@);
    let n = original.len();
    let m = formatted.len();
    if m == 0 {
        let r: Vec<bool> = Vec::new();
        assert(r@ =~= middle_mask(o, f));
        return r;
    }
    let too_big = match n.checked_mul(m) {
        Some(cells) => cells > 2_000_000,
        None => true,
    };
    assert(!too_big ==> n * m <= 2_000_000);
    if n == 0 || too_big {
        let mut r: Vec<bool> = Vec::new();
        let mut k: usize = 0;
        while k < m
            invariant
                k <= m,
                r@ == Seq::new(k as nat, |_i: int| true),
            decreases m - k,
        {
            r.push(true);
            k += 1;
            assert(r@ =~= Seq::new(k as nat, |_i: int| true));
        }
        return r;
    }
    assert(m <= 2_000_000) by (nonlinear_arith)
        requires
            n >= 1,
            n * m <= 2_000_000,
    ;
    // rows[k] holds lcs(o, f, n - k, j) for every j in 0..=m.
    let mut rows: Vec<Vec<usize>> = Vec::new();
    let mut zero: Vec<usize> = Vec::new();
    let mut k: usize = 0;
    while k <= m
        invariant
            k <= m + 1,
            m == f.len(),
            m < usize::MAX,
            zero@.len() == k,
            forall|j: int| 0 <= j < k ==> zero@[j] == 0,
        decreases m + 1 - k,
    {
        zero.push(0);
        k += 1;
    }
    rows.push(zero);
    let mut i = n;
    while i > 0
        invariant
            i <= n,
            n == o.len(),
            m == f.len(),
            n == original@.len(),
            m == formatted@.len(),
            o == strs(original@),
            f == strs(formatted@),
            rows@.len() == n - i + 1,
            m <= 2_000_000,
            forall|r: int| 0 <= r < rows@.len() ==> (#[trigger] rows@[r])@.len() == m + 1,
            forall|r: int, j: int| 0 <= r < rows@.len() && 0 <= j <= m ==> #[trigger] rows@[r]@[j] == lcs(o, f, n - r, j),
        decreases i,
    {
        let below = n - i;
        let mut row: Vec<usize> = Vec::new();
        let mut j: usize = 0;
        while j <= m
            invariant
                j <= m + 1,
                m < usize::MAX,
                row@.len() == j,
                forall|q: int| 0 <= q < j ==> row@[q] == 0,
            decreases m + 1 - j,
        {
            row.push(0);
            j += 1;
        }
        assert(row@[m as int] == lcs(o, f, i - 1, m as int));
        let mut j = m;
        while j > 0
            invariant
                0 <= j <= m,
                1 <= i <= n,
                below == n - i,
                n == o.len(),
                m == f.len(),
                n == original@.len(),
                m == formatted@.len(),
                o == strs(original@),
                f == strs(formatted@),
                rows@.len() == below + 1,
                row@.len() == m + 1,
                forall|r: int| 0 <= r < rows@.len() ==> (#[trigger] rows@[r])@.len() == m + 1,
                forall|r: int, q: int| 0 <= r < rows@.len() && 0 <= q <= m ==> #[trigger] rows@[r]@[q] == lcs(o, f, n - r, q),
                forall|q: int| j <= q <= m ==> row@[q] == lcs(o, f, i - 1, q),
            decreases j,
        {
            let jj = j - 1;
            let next_row = &rows[below];
            assert(next_row@[jj as int] == lcs(o, f, i as int, jj as int));
            assert(next_row@[(jj + 1) as int] == lcs(o, f, i as int, jj + 1));
            proof {
                lemma_lcs_bound(o, f, i as int, jj + 1);
            }
            let value = if lines_equal(original, i - 1, formatted, jj) {
                next_row[jj + 1] + 1
            } else {
                let a = next_row[jj];
                let b = row[jj + 1];
                if a >= b { a } else { b }
            };
            row.set(jj, value);
            j = jj;
        }
        rows.push(row);
        i -= 1;
    }
    let mut changed: Vec<bool> = Vec::new();
    let mut k: usize = 0;
    while k < m
        invariant
            k <= m,
            changed@ == Seq::new(k as nat, |_i: int| true),
        decreases m - k,
    {
        changed.push(true);
        k += 1;
        assert(changed@ =~= Seq::new(k as nat, |_i: int| true));
    }
    let ghost all_true = changed@;
    let mut i: usize = 0;
    let mut j: usize = 0;
    while i < n && j < m
        invariant
            i <= n,
            j <= m,
            n == o.len(),
            m == f.len(),
            n == original@.len(),
            m == formatted@.len(),
            o == strs(original@),
            f == strs(formatted@),
            rows@.len() == n + 1,
            changed@.len() == m,
            forall|r: int| 0 <= r < rows@.len() ==> (#[trigger] rows@[r])@.len() == m + 1,
            forall|r: int, q: int| 0 <= r < rows@.len() && 0 <= q <= m ==> #[trigger] rows@[r]@[q] == lcs(o, f, n - r, q),
            lcs_walk(o, f, i as int, j as int, changed@) == lcs_walk(o, f, 0, 0, all_true),
        decreases n - i + m - j,
    {
        if lines_equal(original, i, formatted, j) {
            changed.set(j, false);
            i += 1;
            j += 1;
        } else {
            let down = rows[n - (i + 1)][j];
            let right = rows[n - i][j + 1];
            if down >= right {
                i += 1;
            } else {
                j += 1;
            }
        }
    }
    proof {
        lemma_walk_len(o, f, 0, 0, all_true);
    }
    changed
}

// ── Changed lines ───────────────────────────────────────────────────────────

/// The lines of a text with their line endings kept, as
/// `str::split_inclusive('\n')` yields them (none for an empty text).
pub open spec fn lines_with_endings(s: Seq<char>) -> Seq<Seq<char>> {
    let ps = crate::text::split_on(s, '\n');
    ps.subrange(0, ps.len() - 1).map_values(|p: Seq<char>| p + "\n"@) + if ps.last().len() == 0 {
        Seq::<Seq<char>>::empty()
    } else {
        seq![ps.last()]
    }
}

/// The lines of a text with their line endings kept.
pub fn split_lines_with_endings(source: &str) -> (r: Vec<String>)
    ensures
        strs(r@) == lines_with_endings(source@),
{
    let pieces = crate::text::split_char(source, '\n');
    let ghost ps = crate::text::split_on(source@, '\n');
    proof {
        lemma_split_nonempty(source@);
    }
    let n = pieces.len();
    let mut out: Vec<String> = Vec::new();
    let mut i: usize = 0;
    while i + 1 < n
        invariant
            n == pieces@.len(),
            n >= 1,
            i < n,
            pieces@.map_values(|x: String| x@) == ps,
            strs(out@) == ps.subrange(0, i as int).map_values(|p: Seq<char>| p + "\n"@),
        decreases n - i,
    {
        let mut line = crate::text::copy_string(&pieces[i]);
        push_str(&mut line, "\n");
        let ghost pre = strs(out@);
        out.push(line);
        assert(ps.subrange(0, i + 1).map_values(|p: Seq<char>| p + "\n"@) =~= ps.subrange(0, i as int).map_values(|p: Seq<char>| p + "\n"@).push(ps[i as int] + "\n"@));
        assert(strs(out@) =~= pre.push(line@));
        i += 1;
    }
    let ghost body = strs(out@);
    assert(ps.last() == pieces@[n - 1]@);
    if !pieces[n - 1].as_str().is_empty() {
        out.push(crate::text::copy_string(&pieces[n - 1]));
        assert(strs(out@) =~= body + seq![ps.last()]);
    } else {
        assert(strs(out@) =~= body + Seq::<Seq<char>>::empty());
    }
    out
}

proof fn lemma_split_nonempty(s: Seq<char>)
    ensures
        crate::text::split_on(s, '\n').len() >= 1,
{
}

/// The length of the common prefix of two line lists, from `k` on.
pub open spec fn common_prefix(o: Seq<Seq<char>>, f: Seq<Seq<char>>, k: int) -> int
    decreases o.len() - k,
{
    if 0 <= k < o.len() && k < f.len() && o[k] == f[k] {
        common_prefix(o, f, k + 1)
    } else {
        k
    }
}

/// The length of the common suffix of two line lists past a prefix of
/// length `p`, from `k` on.
pub open spec fn common_suffix(o: Seq<Seq<char>>, f: Seq<Seq<char>>, p: int, k: int) -> int
    decreases o.len() - p - k,
{
    if 0 <= k < o.len() - p && k < f.len() - p && o[o.len() - 1 - k] == f[f.len() - 1 - k] {
        common_suffix(o, f, p, k + 1)
    } else {
        k
    }
}

/// Which formatted lines changed: the common prefix and suffix unchanged,
/// the middle by a longest common subsequence.
pub open spec fn changed_mask(o: Seq<Seq<char>>, f: Seq<Seq<char>>) -> Seq<bool> {
    let p = common_prefix(o, f, 0);
    let s = common_suffix(o, f, p, 0);
    Seq::new(p as nat, |_i: int| false) + middle_mask(o.subrange(p, o.len() - s), f.subrange(p, f.len() - s))
        + Seq::new(s as nat, |_i: int| false)
}

proof fn lemma_common_prefix(o: Seq<Seq<char>>, f: Seq<Seq<char>>, k: int)
    requires
        0 <= k <= o.len(),
        k <= f.len(),
        forall|i: int| 0 <= i < k ==> o[i] == f[i],
    ensures
        k <= common_prefix(o, f, k) <= o.len(),
        common_prefix(o, f, k) <= f.len(),
        forall|i: int| 0 <= i < common_prefix(o, f, k) ==> o[i] == f[i],
        common_prefix(o, f, k) < o.len() && common_prefix(o, f, k) < f.len() ==> o[common_prefix(o, f, k)]
            != f[common_prefix(o, f, k)],
    decreases o.len() - k,
{
    if k < o.len() && k < f.len() && o[k] == f[k] {
        lemma_common_prefix(o, f, k + 1);
    }
}

/// Whether the `i`-th lines from the end of two line lists are equal.
pub open spec fn same_from_end(o: Seq<Seq<char>>, f: Seq<Seq<char>>, i: int) -> bool {
    o[o.len() - 1 - i] == f[f.len() - 1 - i]
}

proof fn lemma_common_suffix(o: Seq<Seq<char>>, f: Seq<Seq<char>>, p: int, k: int)
    requires
        0 <= p <= o.len(),
        p <= f.len(),
        0 <= k <= o.len() - p,
        k <= f.len() - p,
        forall|i: int| 0 <= i < k ==> #[trigger] same_from_end(o, f, i),
    ensures
        k <= common_suffix(o, f, p, k) <= o.len() - p,
        common_suffix(o, f, p, k) <= f.len() - p,
        forall|i: int| 0 <= i < common_suffix(o, f, p, k) ==> #[trigger] same_from_end(o, f, i),
    decreases o.len() - p - k,
{
    if k < o.len() - p && k < f.len() - p && o[o.len() - 1 - k] == f[f.len() - 1 - k] {
        lemma_common_suffix(o, f, p, k + 1);
    }
}

proof fn lemma_middle_unmarked(om: Seq<Seq<char>>, fm: Seq<Seq<char>>)
    ensures
        middle_mask(om, fm).len() == fm.len(),
        forall|k: int|
            0 <= k < fm.len() && !(#[trigger] middle_mask(om, fm)[k]) ==> exists|j: int| 0 <= j < om.len() && om[j]
                == fm[k],
{
    if fm.len() > 0 && om.len() > 0 && om.len() * fm.len() <= 2_000_000 {
        lemma_middle_mask_is_lcs(om, fm);
        let ps = lcs_pairs(om, fm, 0, 0);
        assert forall|k: int| 0 <= k < fm.len() && !(#[trigger] middle_mask(om, fm)[k]) implies exists|j: int|
            0 <= j < om.len() && om[j] == fm[k] by {
            let m = choose|m: int| 0 <= m < ps.len() && (#[trigger] ps[m]).1 == k;
            assert(0 <= ps[m].0 < om.len() && om[ps[m].0] == fm[ps[m].1]);
        }
    }
}

/// Which formatted lines a diff reports as changed: one mark per formatted
/// line; a line marked unchanged is a line of the original; and when the
/// two texts agree on their first (or last) lines, those lines are not
/// marked.
pub proof fn lemma_changed_mask(o: Seq<Seq<char>>, f: Seq<Seq<char>>, k0: int, k1: int)
    ensures
        changed_mask(o, f).len() == f.len(),
        forall|k: int|
            0 <= k < f.len() && !(#[trigger] changed_mask(o, f)[k]) ==> exists|j: int| 0 <= j < o.len() && o[j] == f[k],
        0 <= k0 <= o.len() && k0 <= f.len() && (forall|i: int| 0 <= i < k0 ==> o[i] == f[i]) ==> forall|k: int|
            0 <= k < k0 ==> !(#[trigger] changed_mask(o, f)[k]),
{
    let p = common_prefix(o, f, 0);
    lemma_common_prefix(o, f, 0);
    let sfx = common_suffix(o, f, p, 0);
    lemma_common_suffix(o, f, p, 0);
    let om = o.subrange(p, o.len() - sfx);
    let fm = f.subrange(p, f.len() - sfx);
    lemma_middle_unmarked(om, fm);
    let a = Seq::new(p as nat, |_i: int| false);
    let mm = middle_mask(om, fm);
    let c = Seq::new(sfx as nat, |_i: int| false);
    let mask = changed_mask(o, f);
    assert(mask == a + mm + c);
    assert forall|k: int| 0 <= k < f.len() && !(#[trigger] changed_mask(o, f)[k]) implies exists|j: int|
        0 <= j < o.len() && o[j] == f[k] by {
        if k < p {
            assert(o[k] == f[k]);
        } else if k < f.len() - sfx {
            assert(mask[k] == mm[k - p]);
            let j = choose|j: int| 0 <= j < om.len() && om[j] == fm[k - p];
            assert(om[j] == o[j + p]);
            assert(fm[k - p] == f[k]);
        } else {
            let i = f.len() - 1 - k;
            assert(same_from_end(o, f, i));
        }
    }
    if 0 <= k0 <= o.len() && k0 <= f.len() && (forall|i: int| 0 <= i < k0 ==> o[i] == f[i]) {
        if p < k0 {
            assert(o[p] == f[p]);
        }
        assert forall|k: int| 0 <= k < k0 implies !(#[trigger] changed_mask(o, f)[k]) by {
            assert(mask[k] == a[k]);
        }
    }
}

fn falses(n: usize) -> (r: Vec<bool>)
    ensures
        r@ == Seq::new(n as nat, |_i: int| false),
{
    let mut r: Vec<bool> = Vec::new();
    let mut k: usize = 0;
    while k < n
        invariant
            k <= n,
            r@ == Seq::new(k as nat, |_i: int| false),
        decreases n - k,
    {
        r.push(false);
        k += 1;
        assert(r@ =~= Seq::new(k as nat, |_i: int| false));
    }
    r
}

fn sub_lines(v: &Vec<String>, lo: usize, hi: usize) -> (r: Vec<String>)
    requires
        lo <= hi <= v@.len(),
    ensures
        strs(r@) == strs(v@).subrange(lo as int, hi as int),
{
    let mut r: Vec<String> = Vec::new();
    let mut k = lo;
    while k < hi
        invariant
            lo <= k <= hi <= v@.len(),
            strs(r@) == strs(v@).subrange(lo as int, k as int),
        decreases hi - k,
    {
        let ghost pre = strs(r@);
        r.push(crate::text::copy_string(&v[k]));
        assert(strs(r@) =~= pre.push(v@[k as int]@));
        assert(strs(r@) =~= strs(v@).subrange(lo as int, k + 1));
        k += 1;
    }
    r
}

/// Which formatted lines changed relative to the original lines.
pub fn changed_formatted_line_mask(original: &Vec<String>, formatted: &Vec<String>) -> (r: Vec<bool>)
    ensures
        r@ == changed_mask(strs(original@), strs(formatted@)),
{
    let ghost o = strs(original@);
    let ghost f = strs(formatted@);
    let n = original.len();
    let m = formatted.len();
    let mut p: usize = 0;
    while p < n && p < m && lines_equal(original, p, formatted, p)
        invariant
            p <= n,
            p <= m,
            n == o.len(),
            m == f.len(),
            o == strs(original@),
            f == strs(formatted@),
            common_prefix(o, f, p as int) == common_prefix(o, f, 0),
        decreases n - p,
    {
        p += 1;
    }
    let mut s: usize = 0;
    while s < n - p && s < m - p && lines_equal(original, n - 1 - s, formatted, m - 1 - s)
        invariant
            p <= n,
            p <= m,
            s <= n - p,
            s <= m - p,
            n == o.len(),
            m == f.len(),
            o == strs(original@),
            f == strs(formatted@),
            p as int == common_prefix(o, f, 0),
            common_suffix(o, f, p as int, s as int) == common_suffix(o, f, p as int, 0),
        decreases n - s,
    {
        s += 1;
    }
    let mid_o = sub_lines(original, p, n - s);
    let mid_f = sub_lines(formatted, p, m - s);
    let middle = diff_middle_mask(&mid_o, &mid_f);
    let mut r = falses(p);
    let mut k: usize = 0;
    while k < middle.len()
        invariant
            k <= middle@.len(),
            r@ == Seq::new(p as nat, |_i: int| false) + middle@.subrange(0, k as int),
        decreases middle@.len() - k,
    {
        r.push(middle[k]);
        assert(r@ =~= Seq::new(p as nat, |_i: int| false) + middle@.subrange(0, k + 1));
        k += 1;
    }
    let tail = falses(s);
    let mut k: usize = 0;
    let ghost head = r@;
    while k < tail.len()
        invariant
            k <= tail@.len(),
            r@ == head + tail@.subrange(0, k as int),
        decreases tail@.len() - k,
    {
        r.push(tail[k]);
        assert(r@ =~= head + tail@.subrange(0, k + 1));
        k += 1;
    }
    assert(middle@.subrange(0, middle@.len() as int) =~= middle@);
    assert(tail@.subrange(0, tail@.len() as int) =~= tail@);
    assert(r@ =~= changed_mask(o, f));
    r
}

/// The 1-based numbers of the positions a mask marks.
pub open spec fn marked_numbers(mask: Seq<bool>) -> Seq<nat>
    decreases mask.len(),
{
    if mask.len() == 0 {
        Seq::empty()
    } else if mask.last() {
        marked_numbers(mask.drop_last()).push(mask.len())
    } else {
        marked_numbers(mask.drop_last())
    }
}

/// The numbers of the marked lines are exactly the 1-based positions of the
/// marks that are set, in increasing order.
pub proof fn lemma_marked_numbers(mask: Seq<bool>)
    ensures
        forall|n: nat| marked_numbers(mask).contains(n) <==> (1 <= n <= mask.len() && mask[n - 1]),
        forall|a: int, b: int|
            0 <= a < b < marked_numbers(mask).len() ==> #[trigger] marked_numbers(mask)[a] < #[trigger] marked_numbers(
                mask,
            )[b],
        forall|a: int| 0 <= a < marked_numbers(mask).len() ==> #[trigger] marked_numbers(mask)[a] <= mask.len(),
    decreases mask.len(),
{
    if mask.len() > 0 {
        let d = mask.drop_last();
        lemma_marked_numbers(d);
        let r = marked_numbers(mask);
        let rd = marked_numbers(d);
        assert forall|n: nat| r.contains(n) <==> (1 <= n <= mask.len() && mask[n - 1]) by {
            if n < mask.len() && n >= 1 {
                assert(d[n - 1] == mask[n - 1]);
            }
            if mask.last() {
                assert(r == rd.push(mask.len()));
                if r.contains(n) {
                    let i = choose|i: int| 0 <= i < r.len() && r[i] == n;
                    if i < rd.len() {
                        assert(rd[i] == n);
                        assert(rd.contains(n));
                    }
                }
                if rd.contains(n) {
                    let i = choose|i: int| 0 <= i < rd.len() && rd[i] == n;
                    assert(r[i] == n);
                }
                if n == mask.len() {
                    assert(r[rd.len() as int] == n);
                }
            }
        }
    }
}

/// The 1-based numbers of the formatted lines that changed.
pub fn changed_formatted_line_numbers(original: &Vec<String>, formatted: &Vec<String>) -> (r: Vec<usize>)
    ensures
        r@.map_values(|x: usize| x as nat) == marked_numbers(changed_mask(strs(original@), strs(formatted@))),
{
    let mask = changed_formatted_line_mask(original, formatted);
    let mut out: Vec<usize> = Vec::new();
    let mut k: usize = 0;
    while k < mask.len()
        invariant
            k <= mask@.len(),
            out@.map_values(|x: usize| x as nat) == marked_numbers(mask@.subrange(0, k as int)),
        decreases mask@.len() - k,
    {
        let ghost pre = out@.map_values(|x: usize| x as nat);
        assert(mask@.subrange(0, k + 1).drop_last() =~= mask@.subrange(0, k as int));
        if mask[k] {
            out.push(k + 1);
            assert(out@.map_values(|x: usize| x as nat) =~= pre.push((k + 1) as nat));
        }
        k += 1;
    }
    assert(mask@.subrange(0, mask@.len() as int) =~= mask@);
    out
}

// ── Colour ──────────────────────────────────────────────────────────────────

/// A line wrapped in a colour and a reset, its line ending kept outside.
pub open spec fn ansi_line(line: Seq<char>, colour: Seq<char>) -> Seq<char> {
    if line.len() > 0 && line.last() == '\n' {
        colour + line.drop_last() + "\u{1b}[0m"@ + "\n"@
    } else {
        colour + line + "\u{1b}[0m"@
    }
}

fn push_ansi_line(output: &mut String, line: &str, colour: &str)
    ensures
        final(output)@ == old(output)@ + ansi_line(line@, colour@),
{
    let ghost start = output@;
    let v = chars_of(line);
    push_str(output, colour);
    if v.len() > 0 && v[v.len() - 1] == '\n' {
        push_str(output, crate::text::string_of(&v, 0, v.len() - 1).as_str());
        push_str(output, "\u{1b}[0m");
        push_str(output, "\n");
    } else {
        push_str(output, line);
        push_str(output, "\u{1b}[0m");
    }
    assert(output@ =~= start + ansi_line(line@, colour@));
}

/// Formatted lines, each in cyan when the mask marks it changed.
pub open spec fn highlighted(lines: Seq<Seq<char>>, mask: Seq<bool>) -> Seq<char>
    decreases lines.len(),
{
    if lines.len() == 0 || mask.len() < lines.len() {
        if lines.len() > 0 && mask.len() < lines.len() {
            highlighted(lines.subrange(0, mask.len() as int), mask)
        } else {
            Seq::empty()
        }
    } else {
        let k = lines.len() - 1;
        highlighted(lines.drop_last(), mask) + if mask[k] {
            ansi_line(lines[k], "\u{1b}[36m"@)
        } else {
            lines[k]
        }
    }
}

/// The formatted text with its changed lines in cyan.
pub open spec fn highlight_text(source: Seq<char>, formatted: Seq<char>) -> Seq<char> {
    let o = lines_with_endings(source);
    let f = lines_with_endings(formatted);
    highlighted(f, changed_mask(o, f))
}

/// The formatted text with its changed lines in cyan.
pub fn highlight_changed_lines(source: &str, formatted: &str) -> (r: String)
    ensures
        r@ == highlight_text(source@, formatted@),
{
    let original_lines = split_lines_with_endings(source);
    let formatted_lines = split_lines_with_endings(formatted);
    let mask = changed_formatted_line_mask(&original_lines, &formatted_lines);
    let ghost f = strs(formatted_lines@);
    let count = if mask.len() < formatted_lines.len() { mask.len() } else { formatted_lines.len() };
    let mut output = String::new();
    let mut k: usize = 0;
    assert(f.subrange(0, 0) =~= Seq::<Seq<char>>::empty());
    while k < count
        invariant
            k <= count,
            count <= mask@.len(),
            count <= formatted_lines@.len(),
            count == if mask@.len() < formatted_lines@.len() { mask@.len() } else { formatted_lines@.len() },
            f == strs(formatted_lines@),
            output@ == highlighted(f.subrange(0, k as int), mask@),
        decreases count - k,
    {
        let ghost pre = output@;
        if mask[k] {
            push_ansi_line(&mut output, formatted_lines[k].as_str(), "\u{1b}[36m");
        } else {
            push_str(&mut output, formatted_lines[k].as_str());
        }
        assert(f.subrange(0, k + 1).drop_last() =~= f.subrange(0, k as int));
        assert(f.subrange(0, k + 1)[k as int] == formatted_lines@[k as int]@);
        k += 1;
    }
    proof {
        if mask@.len() < f.len() {
            assert(highlighted(f, mask@) == highlighted(f.subrange(0, mask@.len() as int), mask@));
        } else {
            assert(f.subrange(0, f.len() as int) =~= f);
        }
    }
    output
}

/// A unified-diff line coloured: additions green, deletions red, headers
/// and context as they are.
pub open spec fn diff_line_colour(line: Seq<char>) -> Seq<char> {
    if crate::text::starts_with(line, "+"@) && !crate::text::starts_with(line, "+++"@) {
        ansi_line(line, "\u{1b}[32m"@)
    } else if crate::text::starts_with(line, "-"@) && !crate::text::starts_with(line, "---"@) {
        ansi_line(line, "\u{1b}[31m"@)
    } else {
        line
    }
}

/// Lines concatenated after colouring each.
pub open spec fn coloured_lines(lines: Seq<Seq<char>>) -> Seq<char>
    decreases lines.len(),
{
    if lines.len() == 0 {
        Seq::empty()
    } else {
        coloured_lines(lines.drop_last()) + diff_line_colour(lines.last())
    }
}

/// A unified diff with additions in green and deletions in red.
pub fn colorize_unified_diff(diff: &str) -> (r: String)
    ensures
        r@ == coloured_lines(lines_with_endings(diff@)),
{
    let lines = split_lines_with_endings(diff);
    let ghost ls = strs(lines@);
    let mut output = String::new();
    let mut k: usize = 0;
    assert(ls.subrange(0, 0) =~= Seq::<Seq<char>>::empty());
    while k < lines.len()
        invariant
            k <= lines@.len(),
            ls == strs(lines@),
            output@ == coloured_lines(ls.subrange(0, k as int)),
        decreases lines@.len() - k,
    {
        let line = lines[k].as_str();
        if crate::text::starts_with_str(line, "+") && !crate::text::starts_with_str(line, "+++") {
            push_ansi_line(&mut output, line, "\u{1b}[32m");
        } else if crate::text::starts_with_str(line, "-") && !crate::text::starts_with_str(line, "---") {
            push_ansi_line(&mut output, line, "\u{1b}[31m");
        } else {
            push_str(&mut output, line);
        }
        assert(ls.subrange(0, k + 1).drop_last() =~= ls.subrange(0, k as int));
        assert(ls.subrange(0, k + 1).last() == lines@[k as int]@);
        k += 1;
    }
    assert(ls.subrange(0, ls.len() as int) =~= ls);
    output
}

// ── Line ranges ─────────────────────────────────────────────────────────────

/// Whether some range holds a line number.
pub open spec fn in_some_range(ranges: Seq<crate::report::LineRange>, line: nat) -> bool {
    exists|k: int| 0 <= k < ranges.len() && ranges[k].start <= line && line <= ranges[k].end
}

/// The line numbers that no range holds.
pub open spec fn outside_ranges(lines: Seq<nat>, ranges: Seq<crate::report::LineRange>) -> Seq<nat>
    decreases lines.len(),
{
    if lines.len() == 0 {
        Seq::empty()
    } else if in_some_range(ranges, lines.last()) {
        outside_ranges(lines.drop_last(), ranges)
    } else {
        outside_ranges(lines.drop_last(), ranges).push(lines.last())
    }
}

/// The changed lines reported as outside the requested ranges are exactly
/// those that no range holds, in their order.
pub proof fn lemma_outside_ranges(lines: Seq<nat>, ranges: Seq<crate::report::LineRange>)
    ensures
        forall|n: nat|
            outside_ranges(lines, ranges).contains(n) <==> (lines.contains(n) && !(exists|k: int|
                0 <= k < ranges.len() && ranges[k].start <= n && n <= ranges[k].end)),
        outside_ranges(lines, ranges).len() <= lines.len(),
    decreases lines.len(),
{
    if lines.len() > 0 {
        let d = lines.drop_last();
        lemma_outside_ranges(d, ranges);
        let r = outside_ranges(lines, ranges);
        let rd = outside_ranges(d, ranges);
        assert forall|n: nat| r.contains(n) <==> (lines.contains(n) && !(exists|k: int|
            0 <= k < ranges.len() && ranges[k].start <= n && n <= ranges[k].end)) by {
            if lines.contains(n) {
                let i = choose|i: int| 0 <= i < lines.len() && lines[i] == n;
                if i < d.len() {
                    assert(d[i] == n);
                    assert(d.contains(n));
                }
            }
            if d.contains(n) {
                let i = choose|i: int| 0 <= i < d.len() && d[i] == n;
                assert(lines[i] == n);
            }
            if !in_some_range(ranges, lines.last()) {
                assert(r == rd.push(lines.last()));
                if r.contains(n) {
                    let i = choose|i: int| 0 <= i < r.len() && r[i] == n;
                    if i < rd.len() {
                        assert(rd[i] == n);
                        assert(rd.contains(n));
                    }
                }
                if rd.contains(n) {
                    let i = choose|i: int| 0 <= i < rd.len() && rd[i] == n;
                    assert(r[i] == n);
                }
                assert(r[rd.len() as int] == lines.last());
                assert(lines[lines.len() - 1] == lines.last());
            }
        }
    }
}

/// The message for changes outside the requested line ranges.
pub open spec fn outside_message(display_name: Seq<char>, outside: Seq<nat>) -> Seq<char> {
    display_name + ": selected line ranges would affect lines outside the requested ranges ("@ + crate::text::join(
        outside.map_values(|n: nat| crate::text::decimal(n)),
        ", "@,
    ) + ")"@
}

fn range_holds(ranges: &Vec<crate::report::LineRange>, line: usize) -> (r: bool)
    ensures
        r == in_some_range(ranges@, line as nat),
{
    let mut k: usize = 0;
    while k < ranges.len()
        invariant
            k <= ranges@.len(),
            forall|j: int| 0 <= j < k ==> !(ranges@[j].start <= line && line <= ranges@[j].end),
        decreases ranges@.len() - k,
    {
        if ranges[k].contains(line) {
            return true;
        }
        k += 1;
    }
    false
}

/// Keep a formatting only when every changed line lies in one of the
/// requested ranges (or no ranges were requested); otherwise an error names
/// the changed lines outside them.
pub fn apply_line_ranges(
    source: &str,
    formatted: &str,
    line_ranges: &Vec<crate::report::LineRange>,
    display_name: &str,
) -> (r: Result<String, crate::error::Error>)
    ensures
        line_ranges@.len() == 0 ==> (r matches Ok(s) && s@ == formatted@),
        line_ranges@.len() > 0 ==> {
            let changed = marked_numbers(
                changed_mask(lines_with_endings(source@), lines_with_endings(formatted@)),
            );
            let outside = outside_ranges(changed, line_ranges@);
            if outside.len() == 0 {
                (r matches Ok(s) && s@ == formatted@)
            } else {
                (r matches Err(crate::error::Error::Formatter(m)) && m@ == outside_message(display_name@, outside))
            }
        },
{
    if line_ranges.len() == 0 {
        return Ok(owned(formatted));
    }
    let original_lines = split_lines_with_endings(source);
    let formatted_lines = split_lines_with_endings(formatted);
    let changed = changed_formatted_line_numbers(&original_lines, &formatted_lines);
    let ghost cs = changed@.map_values(|x: usize| x as nat);
    let mut outside: Vec<usize> = Vec::new();
    let mut texts: Vec<String> = Vec::new();
    let mut k: usize = 0;
    while k < changed.len()
        invariant
            k <= changed@.len(),
            cs == changed@.map_values(|x: usize| x as nat),
            outside@.map_values(|x: usize| x as nat) == outside_ranges(cs.subrange(0, k as int), line_ranges@),
            strs(texts@) == outside_ranges(cs.subrange(0, k as int), line_ranges@).map_values(|n: nat| crate::text::decimal(n)),
        decreases changed@.len() - k,
    {
        let line = changed[k];
        assert(cs.subrange(0, k + 1).drop_last() =~= cs.subrange(0, k as int));
        assert(cs.subrange(0, k + 1).last() == line as nat);
        let ghost pre = outside@.map_values(|x: usize| x as nat);
        let ghost pre_t = strs(texts@);
        if !range_holds(line_ranges, line) {
            outside.push(line);
            texts.push(usize_to_string(line));
            assert(outside@.map_values(|x: usize| x as nat) =~= pre.push(line as nat));
            assert(strs(texts@) =~= pre_t.push(crate::text::decimal(line as nat)));
            assert(outside_ranges(cs.subrange(0, k + 1), line_ranges@).map_values(|n: nat| crate::text::decimal(n)) =~= outside_ranges(cs.subrange(0, k as int), line_ranges@).map_values(|n: nat| crate::text::decimal(n)).push(crate::text::decimal(line as nat)));
        }
        k += 1;
    }
    assert(cs.subrange(0, cs.len() as int) =~= cs);
    if outside.len() == 0 {
        Ok(owned(formatted))
    } else {
        let mut m = owned(display_name);
        push_str(&mut m, ": selected line ranges would affect lines outside the requested ranges (");
        push_str(&mut m, crate::text::join_strings(&texts, ", ").as_str());
        push_str(&mut m, ")");
        Err(crate::error::Error::Formatter(m))
    }
}

// ── Laws ────────────────────────────────────────────────────────────────────

proof fn lemma_prefix_of_same(o: Seq<Seq<char>>, k: int)
    requires
        0 <= k <= o.len(),
    ensures
        common_prefix(o, o, k) == o.len(),
    decreases o.len() - k,
{
    if k < o.len() {
        lemma_prefix_of_same(o, k + 1);
    }
}

proof fn lemma_no_marks(n: nat)
    ensures
        marked_numbers(Seq::new(n, |_i: int| false)) == Seq::<nat>::empty(),
    decreases n,
{
    if n > 0 {
        let m = (n - 1) as nat;
        assert(Seq::new(n, |_i: int| false).drop_last() =~= Seq::new(m, |_i: int| false));
        lemma_no_marks(m);
    }
}

/// Lines that formatting leaves as they are report no changed line.
pub proof fn lemma_same_lines_report_no_change(lines: Seq<Seq<char>>)
    ensures
        marked_numbers(changed_mask(lines, lines)) == Seq::<nat>::empty(),
{
    lemma_prefix_of_same(lines, 0);
    let n = lines.len();
    assert(common_suffix(lines, lines, n as int, 0) == 0);
    assert(lines.subrange(n as int, n as int) =~= Seq::<Seq<char>>::empty());
    assert(changed_mask(lines, lines) =~= Seq::new(n, |_i: int| false));
    lemma_no_marks(n);
}

} // verus!
