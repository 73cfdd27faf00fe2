//! Character-level text helpers shared by the parser, the formatter and the
//! report renderers.

use vstd::prelude::*;
use vstd::std_specs::iter::IteratorSpec;

verus! {

broadcast use vstd::string::group_string_axioms;

/// Appends one character to a string.
///
/// Trusted: calls `String::push`, which the standard library documents as
/// appending the given `char` to the end of the string.
#[verifier::external_body]
pub(crate) fn push_char(s: &mut String, c: char)
    ensures
        final(s)@ == old(s)@.push(c),
{
    s.push(c);
}

/// Collects the characters of a string slice, in order.
pub fn chars_of(s: &str) -> (v: Vec<char>)
    ensures
        v@ == s@,
{
    let mut v: Vec<char> = Vec::new();
    for c in iter: s.chars()
        invariant
            v@ == iter.seq().take(iter.index() as int),
    {
        v.push(c);
    }
    v
}

/// Builds a string from a range of characters.
pub fn string_of(v: &Vec<char>, lo: usize, hi: usize) -> (s: String)
    requires
        lo <= hi <= v@.len(),
    ensures
        s@ == v@.subrange(lo as int, hi as int),
{
    let mut s = String::new();
    let mut i = lo;
    while i < hi
        invariant
            lo <= i <= hi <= v@.len(),
            s@ == v@.subrange(lo as int, i as int),
        decreases hi - i,
    {
        push_char(&mut s, v[i]);
        assert(v@.subrange(lo as int, i + 1) == v@.subrange(lo as int, i as int).push(v@[i as int]));
        i += 1;
    }
    s
}

/// Builds a string holding exactly the given characters.
pub fn string_of_all(v: &Vec<char>) -> (s: String)
    ensures
        s@ == v@,
{
    let s = string_of(v, 0, v.len());
    assert(v@.subrange(0, v@.len() as int) == v@);
    s
}

/// Appends a string slice to a string.
pub fn push_str(s: &mut String, t: &str)
    ensures
        final(s)@ == old(s)@ + t@,
{
    s.append(t);
}

/// Copies a string.
pub fn copy_string(s: &String) -> (r: String)
    ensures
        r@ == s@,
{
    s.clone()
}

/// An owned copy of a string slice.
pub fn owned(s: &str) -> (r: String)
    ensures
        r@ == s@,
{
    s.to_owned()
}

/// Whether the characters of two strings are equal.
pub fn str_eq(a: &str, b: &str) -> (r: bool)
    ensures
        r == (a@ == b@),
{
    let x = chars_of(a);
    let y = chars_of(b);
    chars_eq(&x, &y)
}

/// Whether two character vectors hold the same characters.
pub fn chars_eq(x: &Vec<char>, y: &Vec<char>) -> (r: bool)
    ensures
        r == (x@ == y@),
{
    if x.len() != y.len() {
        return false;
    }
    let mut i: usize = 0;
    while i < x.len()
        invariant
            x@.len() == y@.len(),
            i <= x@.len(),
            forall|k: int| 0 <= k < i ==> x@[k] == y@[k],
        decreases x@.len() - i,
    {
        if x[i] != y[i] {
            return false;
        }
        i += 1;
    }
    assert(x@ =~= y@);
    true
}

/// ASCII lowercase of one character; other characters are unchanged.
pub open spec fn lower(c: char) -> char {
    if 'A' <= c && c <= 'Z' {
        ((c as u32) + 32) as char
    } else {
        c
    }
}

/// ASCII uppercase of one character; other characters are unchanged.
pub open spec fn upper(c: char) -> char {
    if 'a' <= c && c <= 'z' {
        ((c as u32) - 32) as char
    } else {
        c
    }
}

/// ASCII lowercase of a whole sequence.
pub open spec fn lower_seq(s: Seq<char>) -> Seq<char> {
    s.map_values(|c: char| lower(c))
}

/// ASCII uppercase of a whole sequence.
pub open spec fn upper_seq(s: Seq<char>) -> Seq<char> {
    s.map_values(|c: char| upper(c))
}

/// Whether a character is an ASCII lowercase letter.
pub open spec fn is_lower(c: char) -> bool {
    'a' <= c && c <= 'z'
}

/// Whether a character is an ASCII uppercase letter.
pub open spec fn is_upper(c: char) -> bool {
    'A' <= c && c <= 'Z'
}

/// ASCII lowercase of one character.
pub fn lower_char(c: char) -> (r: char)
    ensures
        r == lower(c),
{
    if 'A' <= c && c <= 'Z' {
        let n: u32 = c as u32;
        let m: u32 = n + 32;
        assert(m < 0xD800);
        char_from_u32(m)
    } else {
        c
    }
}

/// Uppercase of one character.
pub fn upper_char(c: char) -> (r: char)
    ensures
        r == upper(c),
{
    if 'a' <= c && c <= 'z' {
        let n: u32 = c as u32;
        let m: u32 = n - 32;
        char_from_u32(m)
    } else {
        c
    }
}

/// The character with the given scalar value, which must be a valid one.
///
/// Trusted: calls `char::from_u32`, which the standard library documents as
/// returning `Some` of the character with that scalar value for every value
/// outside the surrogate range that is at most `0x10FFFF`.
#[verifier::external_body]
pub(crate) fn char_from_u32(n: u32) -> (c: char)
    requires
        n < 0xD800 || (0xE000 <= n && n <= 0x10FFFF),
    ensures
        c as u32 == n,
        c == n as char,
{
    char::from_u32(n).unwrap()
}

/// ASCII lowercase copy of a string.
pub fn to_lower(s: &str) -> (r: String)
    ensures
        r@ == lower_seq(s@),
{
    let v = chars_of(s);
    let mut out: Vec<char> = Vec::new();
    let mut i: usize = 0;
    while i < v.len()
        invariant
            i <= v@.len(),
            v@ == s@,
            out@ == lower_seq(v@.subrange(0, i as int)),
        decreases v@.len() - i,
    {
        let c = lower_char(v[i]);
        out.push(c);
        assert(lower_seq(v@.subrange(0, i + 1)) == lower_seq(v@.subrange(0, i as int)).push(lower(v@[i as int])));
        i += 1;
    }
    assert(v@.subrange(0, v@.len() as int) == v@);
    string_of_all(&out)
}

/// ASCII uppercase copy of a string.
pub fn to_upper(s: &str) -> (r: String)
    ensures
        r@ == upper_seq(s@),
{
    let v = chars_of(s);
    let mut out: Vec<char> = Vec::new();
    let mut i: usize = 0;
    while i < v.len()
        invariant
            i <= v@.len(),
            v@ == s@,
            out@ == upper_seq(v@.subrange(0, i as int)),
        decreases v@.len() - i,
    {
        let c = upper_char(v[i]);
        out.push(c);
        assert(upper_seq(v@.subrange(0, i + 1)) == upper_seq(v@.subrange(0, i as int)).push(upper(v@[i as int])));
        i += 1;
    }
    assert(v@.subrange(0, v@.len() as int) == v@);
    string_of_all(&out)
}

/// The decimal digit for a value below ten.
pub open spec fn digit(d: nat) -> char {
    ((d + 48) as u32) as char
}

/// Decimal rendering of a natural number, without leading zeros.
pub open spec fn decimal(n: nat) -> Seq<char>
    decreases n,
{
    if n < 10 {
        seq![digit(n)]
    } else {
        decimal(n / 10).push(digit(n % 10))
    }
}

/// Decimal rendering of a number.
pub fn usize_to_string(n: usize) -> (r: String)
    ensures
        r@ == decimal(n as nat),
{
    let mut digits: Vec<char> = Vec::new();
    let mut m: usize = n;
    // digits holds the rendering of the part of n already divided away, reversed
    loop
        invariant_except_break
            decimal_rev_ok(n as nat, m as nat, digits@),
        ensures
            decimal(n as nat) == digits@.reverse(),
        decreases m,
    {
        let d: usize = m % 10;
        let c = char_from_u32((d + 48) as u32);
        proof {
            lemma_decimal_step(n as nat, m as nat, digits@);
        }
        digits.push(c);
        if m < 10 {
            break;
        }
        m = m / 10;
    }
    // digits is the reversed rendering
    let mut out: Vec<char> = Vec::new();
    let mut i: usize = digits.len();
    while i > 0
        invariant
            i <= digits@.len(),
            out@ == digits@.subrange(i as int, digits@.len() as int).reverse(),
            digits@.reverse() == decimal(n as nat),
        decreases i,
    {
        i -= 1;
        out.push(digits[i]);
        assert(digits@.subrange(i as int, digits@.len() as int) == seq![digits@[i as int]] + digits@.subrange(i + 1, digits@.len() as int));
        assert(out@ == digits@.subrange(i as int, digits@.len() as int).reverse()) by {
            let a = digits@.subrange(i + 1, digits@.len() as int);
            assert(digits@.subrange(i as int, digits@.len() as int).reverse() =~= a.reverse().push(digits@[i as int]));
        }
    }
    assert(digits@.subrange(0, digits@.len() as int) == digits@);
    string_of_all(&out)
}

/// `digits` holds, reversed, the low digits of `n` already peeled off,
/// and `m` is what is left of `n` above them.
pub open spec fn decimal_rev_ok(n: nat, m: nat, digits: Seq<char>) -> bool {
    // decimal(n) == decimal(m) + reverse(digits), with m > 0 when digits is non-empty
    &&& (digits.len() == 0 ==> m == n)
    &&& (digits.len() > 0 ==> m > 0 && decimal(n) == decimal(m) + digits.reverse())
}

proof fn lemma_decimal_step(n: nat, m: nat, digits: Seq<char>)
    requires
        decimal_rev_ok(n, m, digits),
    ensures
        m >= 10 ==> decimal_rev_ok(n, m / 10, digits.push(digit(m % 10))),
        m < 10 ==> decimal(n) == digits.push(digit(m % 10)).reverse(),
{
    let d = digit(m % 10);
    assert(digits.push(d).reverse() =~= seq![d] + digits.reverse());
    if m >= 10 {
        assert(decimal(m) == decimal(m / 10).push(d));
        assert(decimal(m / 10).push(d) + digits.reverse() =~= decimal(m / 10) + (seq![d] + digits.reverse()));
    } else {
        assert(decimal(m) == seq![d]);
        if digits.len() == 0 {
            assert(seq![d] + digits.reverse() =~= seq![d]);
        }
    }
}

// ── Searching ───────────────────────────────────────────────────────────────

/// Whether `p` is a prefix of `s`.
pub open spec fn starts_with(s: Seq<char>, p: Seq<char>) -> bool {
    p.len() <= s.len() && s.subrange(0, p.len() as int) == p
}

/// Whether `p` is a suffix of `s`.
pub open spec fn ends_with(s: Seq<char>, p: Seq<char>) -> bool {
    p.len() <= s.len() && s.subrange(s.len() - p.len(), s.len() as int) == p
}

/// Whether `sub` occurs in `s` at position `i`.
pub open spec fn occurs_at(s: Seq<char>, sub: Seq<char>, i: int) -> bool {
    0 <= i && i + sub.len() <= s.len() && s.subrange(i, i + sub.len()) == sub
}

/// Whether `sub` occurs in `s`.
pub open spec fn contains(s: Seq<char>, sub: Seq<char>) -> bool {
    exists|i: int| occurs_at(s, sub, i)
}

/// Whether `sub` occurs in `v` at position `i`.
pub fn matches_at(v: &Vec<char>, sub: &Vec<char>, i: usize) -> (r: bool)
    ensures
        r == occurs_at(v@, sub@, i as int),
{
    let _n = v.len();
    if i > v.len() || sub.len() > v.len() - i {
        return false;
    }
    let mut k: usize = 0;
    while k < sub.len()
        invariant
            i + sub@.len() <= v@.len(),
            v@.len() <= usize::MAX,
            k <= sub@.len(),
            forall|j: int| 0 <= j < k ==> v@[i + j] == sub@[j],
        decreases sub@.len() - k,
    {
        if v[i + k] != sub[k] {
            assert(v@.subrange(i as int, i + sub@.len())[k as int] != sub@[k as int]);
            return false;
        }
        k += 1;
    }
    assert(v@.subrange(i as int, i + sub@.len()) =~= sub@);
    true
}

/// Whether `needle` occurs in `hay`.
pub fn contains_str(hay: &str, needle: &str) -> (r: bool)
    ensures
        r == contains(hay@, needle@),
{
    let v = chars_of(hay);
    let n = chars_of(needle);
    let mut i: usize = 0;
    loop
        invariant
            v@ == hay@,
            n@ == needle@,
            i <= v@.len(),
            forall|j: int| 0 <= j < i ==> !occurs_at(v@, n@, j),
        ensures
            forall|j: int| 0 <= j <= v@.len() ==> !occurs_at(v@, n@, j),
        decreases v@.len() - i,
    {
        if matches_at(&v, &n, i) {
            return true;
        }
        if i == v.len() {
            break;
        }
        i += 1;
    }
    assert forall|j: int| !occurs_at(v@, n@, j) by {
        if 0 <= j && j <= v@.len() {
        } else {
        }
    }
    false
}

/// Whether `hay` starts with `p`.
pub fn starts_with_str(hay: &str, p: &str) -> (r: bool)
    ensures
        r == starts_with(hay@, p@),
{
    let v = chars_of(hay);
    let n = chars_of(p);
    let r = matches_at(&v, &n, 0);
    r
}

/// Whether `hay` ends with `p`.
pub fn ends_with_str(hay: &str, p: &str) -> (r: bool)
    ensures
        r == ends_with(hay@, p@),
{
    let v = chars_of(hay);
    let n = chars_of(p);
    if n.len() > v.len() {
        return false;
    }
    matches_at(&v, &n, v.len() - n.len())
}

/// Whether a text contains a character.
pub open spec fn has_char(s: Seq<char>, c: char) -> bool {
    exists|i: int| 0 <= i < s.len() && s[i] == c
}

/// Whether a text contains a character.
pub fn contains_char(s: &str, c: char) -> (r: bool)
    ensures
        r == has_char(s@, c),
{
    let v = chars_of(s);
    let mut i: usize = 0;
    while i < v.len()
        invariant
            v@ == s@,
            i <= v@.len(),
            forall|j: int| 0 <= j < i ==> v@[j] != c,
        decreases v@.len() - i,
    {
        if v[i] == c {
            return true;
        }
        i += 1;
    }
    false
}

// ── Line endings and splitting ──────────────────────────────────────────────

/// `\r\n` replaced by `\n`, scanning from the left.
pub open spec fn crlf_to_lf(s: Seq<char>) -> Seq<char>
    decreases s.len(),
{
    if s.len() == 0 {
        s
    } else if s.len() >= 2 && s[0] == '\r' && s[1] == '\n' {
        seq!['\n'] + crlf_to_lf(s.subrange(2, s.len() as int))
    } else {
        seq![s[0]] + crlf_to_lf(s.subrange(1, s.len() as int))
    }
}

/// `\r\n` replaced by `\n`.
pub fn replace_crlf(s: &str) -> (r: String)
    ensures
        r@ == crlf_to_lf(s@),
{
    let v = chars_of(s);
    let mut out: Vec<char> = Vec::new();
    let mut i: usize = 0;
    assert(v@.subrange(0, v@.len() as int) =~= v@);
    assert(out@ + crlf_to_lf(v@) =~= crlf_to_lf(v@));
    while i < v.len()
        invariant
            v@ == s@,
            i <= v@.len(),
            out@ + crlf_to_lf(v@.subrange(i as int, v@.len() as int)) == crlf_to_lf(s@),
        decreases v@.len() - i,
    {
        let ghost rest = v@.subrange(i as int, v@.len() as int);
        if v[i] == '\r' && i + 1 < v.len() && v[i + 1] == '\n' {
            out.push('\n');
            assert(rest.subrange(2, rest.len() as int) =~= v@.subrange(i + 2, v@.len() as int));
            assert(out@ + crlf_to_lf(v@.subrange(i + 2, v@.len() as int)) =~= (out@.drop_last())
                + crlf_to_lf(rest));
            i += 2;
        } else {
            out.push(v[i]);
            assert(rest.subrange(1, rest.len() as int) =~= v@.subrange(i + 1, v@.len() as int));
            assert(out@ + crlf_to_lf(v@.subrange(i + 1, v@.len() as int)) =~= (out@.drop_last())
                + crlf_to_lf(rest));
            i += 1;
        }
    }
    assert(out@ + crlf_to_lf(v@.subrange(i as int, v@.len() as int)) =~= out@);
    string_of_all(&out)
}

/// Index of the first occurrence of `c` in `s`.
pub open spec fn first_index(s: Seq<char>, c: char) -> Option<int>
    decreases s.len(),
{
    if s.len() == 0 {
        None
    } else if s[0] == c {
        Some(0)
    } else {
        match first_index(s.subrange(1, s.len() as int), c) {
            Some(k) => Some(k + 1),
            None => None,
        }
    }
}

/// The pieces of `s` between occurrences of `c` (empty pieces included).
pub open spec fn split_on(s: Seq<char>, c: char) -> Seq<Seq<char>>
    decreases s.len(),
{
    match first_index(s, c) {
        Some(k) => if 0 <= k < s.len() {
            seq![s.subrange(0, k)] + split_on(s.subrange(k + 1, s.len() as int), c)
        } else {
            seq![s]
        },
        None => seq![s],
    }
}

/// The first occurrence found by a scan is the one `first_index` names.
pub proof fn lemma_first_index_is(s: Seq<char>, c: char, k: int)
    requires
        0 <= k <= s.len(),
        forall|j: int| 0 <= j < k ==> s[j] != c,
        k < s.len() ==> s[k] == c,
    ensures
        first_index(s, c) == if k < s.len() { Some(k) } else { None::<int> },
    decreases k,
{
    if k > 0 {
        let t = s.subrange(1, s.len() as int);
        assert forall|j: int| 0 <= j < k - 1 implies t[j] != c by {
            assert(t[j] == s[j + 1]);
        }
        if k < s.len() {
            assert(t[k - 1] == s[k]);
        }
        lemma_first_index_is(t, c, k - 1);
    }
}

proof fn lemma_first_index(s: Seq<char>, c: char)
    ensures
        first_index(s, c) matches Some(k) ==> 0 <= k < s.len() && s[k] == c && forall|j: int|
            0 <= j < k ==> s[j] != c,
        first_index(s, c) is None ==> forall|j: int| 0 <= j < s.len() ==> s[j] != c,
    decreases s.len(),
{
    if s.len() > 0 {
        let t = s.subrange(1, s.len() as int);
        lemma_first_index(t, c);
        if first_index(s, c) is None || first_index(s, c) != Some(0int) {
            assert forall|j: int| 0 < j < s.len() implies s[j] == t[j - 1] by {}
        }
    }
}

/// The pieces of a text between occurrences of a character.
pub fn split_char(s: &str, c: char) -> (r: Vec<String>)
    ensures
        r@.map_values(|x: String| x@) == split_on(s@, c),
{
    let v = chars_of(s);
    let mut out: Vec<String> = Vec::new();
    let mut start: usize = 0;
    let mut i: usize = 0;
    assert(v@.subrange(0, v@.len() as int) =~= v@);
    while i < v.len()
        invariant
            v@ == s@,
            start <= i <= v@.len(),
            forall|j: int| start <= j < i ==> v@[j] != c,
            out@.map_values(|x: String| x@) + split_on(v@.subrange(start as int, v@.len() as int), c)
                == split_on(s@, c),
        decreases v@.len() - i,
    {
        if v[i] == c {
            let ghost rest = v@.subrange(start as int, v@.len() as int);
            proof {
                lemma_first_index(rest, c);
                assert(rest[i - start] == c);
                assert forall|j: int| 0 <= j < i - start implies rest[j] != c by {
                    assert(rest[j] == v@[start + j]);
                }
                if first_index(rest, c) != Some(i - start) {
                    let k = first_index(rest, c).unwrap();
                    assert(rest[k] == v@[start + k]);
                }
                assert(first_index(rest, c) == Some(i - start));
                assert(rest.subrange(0, i - start) =~= v@.subrange(start as int, i as int));
                assert(rest.subrange(i - start + 1, rest.len() as int) =~= v@.subrange(i + 1, v@.len() as int));
            }
            let piece = string_of(&v, start, i);
            out.push(piece);
            assert(out@.map_values(|x: String| x@) =~= out@.drop_last().map_values(|x: String| x@).push(piece@));
            i += 1;
            start = i;
        } else {
            i += 1;
        }
    }
    let ghost rest = v@.subrange(start as int, v@.len() as int);
    proof {
        lemma_first_index(rest, c);
        if first_index(rest, c) is Some {
            let k = first_index(rest, c).unwrap();
            assert(rest[k] == v@[start + k]);
        }
    }
    let piece = string_of(&v, start, v.len());
    out.push(piece);
    assert(out@.map_values(|x: String| x@) =~= out@.drop_last().map_values(|x: String| x@).push(piece@));
    out
}

/// Lines joined with `sep` between them.
pub open spec fn join(lines: Seq<Seq<char>>, sep: Seq<char>) -> Seq<char>
    decreases lines.len(),
{
    if lines.len() == 0 {
        Seq::empty()
    } else if lines.len() == 1 {
        lines[0]
    } else {
        join(lines.drop_last(), sep) + sep + lines.last()
    }
}

/// Texts joined with `sep` between them.
pub fn join_strings(lines: &Vec<String>, sep: &str) -> (r: String)
    ensures
        r@ == join(lines@.map_values(|x: String| x@), sep@),
{
    let mut s = String::new();
    let mut i: usize = 0;
    let ghost all = lines@.map_values(|x: String| x@);
    while i < lines.len()
        invariant
            i <= lines@.len(),
            all == lines@.map_values(|x: String| x@),
            s@ == join(all.subrange(0, i as int), sep@),
        decreases lines@.len() - i,
    {
        assert(all.subrange(0, i + 1).drop_last() =~= all.subrange(0, i as int));
        if i > 0 {
            push_str(&mut s, sep);
        }
        push_str(&mut s, lines[i].as_str());
        i += 1;
    }
    assert(all.subrange(0, lines@.len() as int) =~= all);
    s
}

// ── Whitespace ──────────────────────────────────────────────────────────────

/// Unicode white space, as `char::is_whitespace` defines it.
pub open spec fn is_ws(c: char) -> bool {
    c == '\t' || c == '\n' || c == '\u{b}' || c == '\u{c}' || c == '\r' || c == ' ' || c
        == '\u{85}' || c == '\u{a0}' || c == '\u{1680}' || ('\u{2000}' <= c && c <= '\u{200a}')
        || c == '\u{2028}' || c == '\u{2029}' || c == '\u{202f}' || c == '\u{205f}' || c
        == '\u{3000}'
}

/// Unicode white space.
pub fn is_whitespace(c: char) -> (r: bool)
    ensures
        r == is_ws(c),
{
    c == '\t' || c == '\n' || c == '\u{b}' || c == '\u{c}' || c == '\r' || c == ' ' || c
        == '\u{85}' || c == '\u{a0}' || c == '\u{1680}' || ('\u{2000}' <= c && c <= '\u{200a}')
        || c == '\u{2028}' || c == '\u{2029}' || c == '\u{202f}' || c == '\u{205f}' || c
        == '\u{3000}'
}

/// Number of leading characters satisfying the predicate.
pub open spec fn lead_count(s: Seq<char>, c: char) -> nat
    decreases s.len(),
{
    if s.len() > 0 && s[0] == c {
        1 + lead_count(s.subrange(1, s.len() as int), c)
    } else {
        0
    }
}

/// Number of leading white-space characters.
pub open spec fn lead_ws(s: Seq<char>) -> nat
    decreases s.len(),
{
    if s.len() > 0 && is_ws(s[0]) {
        1 + lead_ws(s.subrange(1, s.len() as int))
    } else {
        0
    }
}

/// Number of trailing white-space characters.
pub open spec fn trail_ws(s: Seq<char>) -> nat
    decreases s.len(),
{
    if s.len() > 0 && is_ws(s.last()) {
        1 + trail_ws(s.drop_last())
    } else {
        0
    }
}

/// `s` without trailing white space.
pub fn trim_end_str(s: &str) -> (r: String)
    ensures
        r@ == trim_end(s@),
{
    let v = chars_of(s);
    let b = count_trail_ws(&v);
    string_of(&v, 0, v.len() - b)
}

/// `s` without leading white space.
pub open spec fn trim_start(s: Seq<char>) -> Seq<char> {
    s.subrange(lead_ws(s) as int, s.len() as int)
}

/// `s` without trailing white space.
pub open spec fn trim_end(s: Seq<char>) -> Seq<char> {
    s.subrange(0, s.len() - trail_ws(s))
}

/// `s` without leading and trailing white space.
pub open spec fn trim(s: Seq<char>) -> Seq<char> {
    trim_end(trim_start(s))
}

proof fn lemma_lead_ws(s: Seq<char>, i: int)
    requires
        0 <= i <= s.len(),
        forall|j: int| 0 <= j < i ==> is_ws(s[j]),
    ensures
        lead_ws(s) == i + lead_ws(s.subrange(i, s.len() as int)),
    decreases i,
{
    if i > 0 {
        let t = s.subrange(1, s.len() as int);
        lemma_lead_ws(t, i - 1);
        assert(t.subrange(i - 1, t.len() as int) =~= s.subrange(i, s.len() as int));
    } else {
        assert(s.subrange(0, s.len() as int) =~= s);
    }
}

proof fn lemma_lead_count(s: Seq<char>, c: char, i: int)
    requires
        0 <= i <= s.len(),
        forall|j: int| 0 <= j < i ==> s[j] == c,
    ensures
        lead_count(s, c) == i + lead_count(s.subrange(i, s.len() as int), c),
    decreases i,
{
    if i > 0 {
        let t = s.subrange(1, s.len() as int);
        lemma_lead_count(t, c, i - 1);
        assert(t.subrange(i - 1, t.len() as int) =~= s.subrange(i, s.len() as int));
    } else {
        assert(s.subrange(0, s.len() as int) =~= s);
    }
}

proof fn lemma_trail_ws(s: Seq<char>, k: int)
    requires
        0 <= k <= s.len(),
        forall|j: int| s.len() - k <= j < s.len() ==> is_ws(s[j]),
    ensures
        trail_ws(s) == k + trail_ws(s.subrange(0, s.len() - k)),
    decreases k,
{
    if k > 0 {
        let t = s.drop_last();
        lemma_trail_ws(t, k - 1);
        assert(t.subrange(0, t.len() - (k - 1)) =~= s.subrange(0, s.len() - k));
    } else {
        assert(s.subrange(0, s.len() as int) =~= s);
    }
}

/// Number of leading white-space characters of a character vector.
pub fn count_lead_ws(v: &Vec<char>) -> (r: usize)
    ensures
        r == lead_ws(v@),
        r <= v@.len(),
{
    let mut i: usize = 0;
    while i < v.len() && is_whitespace(v[i])
        invariant
            i <= v@.len(),
            forall|j: int| 0 <= j < i ==> is_ws(v@[j]),
        decreases v@.len() - i,
    {
        i += 1;
    }
    proof {
        lemma_lead_ws(v@, i as int);
    }
    i
}

/// Number of leading copies of `c` in a character vector.
pub fn count_lead(v: &Vec<char>, c: char) -> (r: usize)
    ensures
        r == lead_count(v@, c),
        r <= v@.len(),
{
    let mut i: usize = 0;
    while i < v.len() && v[i] == c
        invariant
            i <= v@.len(),
            forall|j: int| 0 <= j < i ==> v@[j] == c,
        decreases v@.len() - i,
    {
        i += 1;
    }
    proof {
        lemma_lead_count(v@, c, i as int);
    }
    i
}

/// Number of trailing white-space characters of a character vector.
pub fn count_trail_ws(v: &Vec<char>) -> (r: usize)
    ensures
        r == trail_ws(v@),
        r <= v@.len(),
{
    let mut k: usize = 0;
    while k < v.len() && is_whitespace(v[v.len() - 1 - k])
        invariant
            k <= v@.len(),
            forall|j: int| v@.len() - k <= j < v@.len() ==> is_ws(v@[j]),
        decreases v@.len() - k,
    {
        k += 1;
    }
    proof {
        lemma_trail_ws(v@, k as int);
    }
    k
}

/// A text without leading and trailing white space.
pub fn trim_str(s: &str) -> (r: String)
    ensures
        r@ == trim(s@),
{
    let v = chars_of(s);
    let a = count_lead_ws(&v);
    let w = string_of(&v, a, v.len());
    let u = chars_of(w.as_str());
    let b = count_trail_ws(&u);
    string_of(&u, 0, u.len() - b)
}

/// A text without leading white space.
pub fn trim_start_str(s: &str) -> (r: String)
    ensures
        r@ == trim_start(s@),
{
    let v = chars_of(s);
    let a = count_lead_ws(&v);
    string_of(&v, a, v.len())
}

/// The white-space separated words of a text.
pub open spec fn words(s: Seq<char>) -> Seq<Seq<char>>
    decreases s.len(),
{
    let t = trim_start(s);
    if t.len() == 0 {
        Seq::empty()
    } else {
        let w = word_len(t);
        if 0 < w <= t.len() && t.len() <= s.len() {
            seq![t.subrange(0, w as int)] + words(t.subrange(w as int, t.len() as int))
        } else {
            Seq::empty()
        }
    }
}

/// Number of leading characters that are not white space.
pub open spec fn word_len(s: Seq<char>) -> nat
    decreases s.len(),
{
    if s.len() > 0 && !is_ws(s[0]) {
        1 + word_len(s.subrange(1, s.len() as int))
    } else {
        0
    }
}

proof fn lemma_word_len(s: Seq<char>, i: int)
    requires
        0 <= i <= s.len(),
        forall|j: int| 0 <= j < i ==> !is_ws(s[j]),
    ensures
        word_len(s) == i + word_len(s.subrange(i, s.len() as int)),
    decreases i,
{
    if i > 0 {
        let t = s.subrange(1, s.len() as int);
        lemma_word_len(t, i - 1);
        assert(t.subrange(i - 1, t.len() as int) =~= s.subrange(i, s.len() as int));
    } else {
        assert(s.subrange(0, s.len() as int) =~= s);
    }
}

proof fn lemma_lead_ws_bound(s: Seq<char>)
    ensures
        lead_ws(s) <= s.len(),
    decreases s.len(),
{
    if s.len() > 0 && is_ws(s[0]) {
        lemma_lead_ws_bound(s.subrange(1, s.len() as int));
    }
}

/// The white-space separated words of a text.
pub fn split_words(s: &str) -> (r: Vec<String>)
    ensures
        r@.map_values(|x: String| x@) == words(s@),
{
    let v = chars_of(s);
    let mut out: Vec<String> = Vec::new();
    let mut i: usize = 0;
    assert(v@.subrange(0, v@.len() as int) =~= v@);
    while i < v.len()
        invariant
            v@ == s@,
            i <= v@.len(),
            out@.map_values(|x: String| x@) + words(v@.subrange(i as int, v@.len() as int)) == words(s@),
        decreases v@.len() - i,
    {
        let ghost rest = v@.subrange(i as int, v@.len() as int);
        let mut j = i;
        while j < v.len() && is_whitespace(v[j])
            invariant
                i <= j <= v@.len(),
                forall|k: int| i <= k < j ==> is_ws(v@[k]),
            decreases v@.len() - j,
        {
            j += 1;
        }
        proof {
            lemma_lead_ws(rest, j - i);
            assert(rest.subrange(j - i, rest.len() as int) =~= v@.subrange(j as int, v@.len() as int));
            if j < v@.len() {
                assert(rest.subrange(j - i, rest.len() as int)[0] == v@[j as int]);
            }
        }
        if j == v.len() {
            proof {
                assert(trim_start(rest) =~= Seq::<char>::empty());
                assert(v@.subrange(j as int, v@.len() as int) =~= Seq::<char>::empty());
            }
            i = j;
            continue;
        }
        let mut k = j;
        while k < v.len() && !is_whitespace(v[k])
            invariant
                j <= k <= v@.len(),
                forall|m: int| j <= m < k ==> !is_ws(v@[m]),
            decreases v@.len() - k,
        {
            k += 1;
        }
        let ghost t = trim_start(rest);
        proof {
            assert(t =~= v@.subrange(j as int, v@.len() as int));
            lemma_word_len(t, k - j);
            let u = t.subrange(k - j, t.len() as int);
            if k < v@.len() {
                assert(u[0] == v@[k as int]);
            }
            assert(word_len(t) == k - j);
            assert(t.subrange(0, k - j) =~= v@.subrange(j as int, k as int));
            assert(u =~= v@.subrange(k as int, v@.len() as int));
        }
        let w = string_of(&v, j, k);
        out.push(w);
        assert(out@.map_values(|x: String| x@) =~= out@.drop_last().map_values(|x: String| x@).push(w@));
        i = k;
    }
    assert(v@.subrange(i as int, v@.len() as int) =~= Seq::<char>::empty());
    assert(words(Seq::<char>::empty()) =~= Seq::<Seq<char>>::empty());
    assert(out@.map_values(|x: String| x@) + Seq::<Seq<char>>::empty() =~= out@.map_values(|x: String| x@));
    out
}

/// The texts of a sequence of strings.
pub open spec fn strs(v: Seq<String>) -> Seq<Seq<char>> {
    v.map_values(|x: String| x@)
}

/// `a - b`, or 0 when `b` is larger.
pub open spec fn sat_sub(a: nat, b: nat) -> nat {
    if a >= b {
        (a - b) as nat
    } else {
        0
    }
}

} // verus!
