//! Editor-integration helpers: document paths from URIs, the configuration
//! a document is formatted with, and the text edits the server answers with.

use vstd::prelude::*;
use vstd::utf8::encode_utf8;
use crate::config::Config;
use crate::config_file::{copy_config, model};
use crate::text::{chars_of, owned, starts_with};

verus! {

broadcast use vstd::string::group_string_axioms;

// ── Percent decoding ────────────────────────────────────────────────────────

/// The value of an ASCII hexadecimal digit, as `char::to_digit(16)` gives it.
pub open spec fn hex_value(b: u8) -> Option<nat> {
    if 48 <= b <= 57 {
        Some((b - 48) as nat)
    } else if 97 <= b <= 102 {
        Some((b - 87) as nat)
    } else if 65 <= b <= 70 {
        Some((b - 55) as nat)
    } else {
        None
    }
}

/// The bytes from `i` on with `%XX` escapes decoded; a `%` without two
/// hexadecimal digits after it (or too near the end) is kept as it is.
pub open spec fn pct_from(b: Seq<u8>, i: int, out: Seq<u8>) -> Seq<u8>
    decreases b.len() - i,
{
    if i < 0 || i >= b.len() {
        out
    } else if b[i] == 37 && i + 2 < b.len() && hex_value(b[i + 1]) is Some && hex_value(b[i + 2]) is Some {
        pct_from(b, i + 3, out.push((hex_value(b[i + 1])->0 * 16 + hex_value(b[i + 2])->0) as u8))
    } else {
        pct_from(b, i + 1, out.push(b[i]))
    }
}

/// Bytes decoded as UTF-8, with each invalid sequence replaced by U+FFFD,
/// as `String::from_utf8_lossy` does.
pub uninterp spec fn utf8_lossy(bytes: Seq<u8>) -> Seq<char>;

/// Trusted: `String::from_utf8_lossy(bytes).into_owned()` from std. Its
/// result is named `utf8_lossy`. As std documents, valid UTF-8 comes back
/// as the text it encodes; which invalid sequences are replaced, and how,
/// is not stated here.
#[verifier::external_body]
fn from_utf8_lossy(bytes: &Vec<u8>) -> (r: String)
    ensures
        r@ == utf8_lossy(bytes@),
        vstd::utf8::valid_utf8(bytes@) ==> r@ == vstd::utf8::decode_utf8(bytes@),
{
    String::from_utf8_lossy(bytes.as_slice()).into_owned()
}

fn hex_digit(b: u8) -> (r: Option<u8>)
    ensures
        match hex_value(b) {
            Some(v) => r == Some(v as u8),
            None => r is None,
        },
{
    if 48 <= b && b <= 57 {
        Some(b - 48)
    } else if 97 <= b && b <= 102 {
        Some(b - 87)
    } else if 65 <= b && b <= 70 {
        Some(b - 55)
    } else {
        None
    }
}

/// Decode `%XX` escapes of a URI path; invalid or truncated escapes are kept
/// as they are.
pub fn percent_decode(input: &str) -> (r: String)
    ensures
        r@ == utf8_lossy(pct_from(encode_utf8(input@), 0, Seq::empty())),
        vstd::utf8::valid_utf8(pct_from(encode_utf8(input@), 0, Seq::empty())) ==> r@
            == vstd::utf8::decode_utf8(pct_from(encode_utf8(input@), 0, Seq::empty())),
{
    let bytes = input.as_bytes();
    let ghost b = encode_utf8(input@);
    assert(bytes@ == b);
    let n = bytes.len();
    let mut out: Vec<u8> = Vec::new();
    let mut i: usize = 0;
    while i < n
        invariant
            i <= n + 1,
            n == bytes@.len(),
            bytes@ == b,
            pct_from(b, i as int, out@) == pct_from(b, 0, Seq::empty()),
        decreases n - i,
    {
        if bytes[i] == 37 && n - i > 2 {
            match (hex_digit(bytes[i + 1]), hex_digit(bytes[i + 2])) {
                (Some(hi), Some(lo)) => {
                    out.push(hi * 16 + lo);
                    i += 3;
                    continue;
                },
                _ => {},
            }
        }
        out.push(bytes[i]);
        i += 1;
    }
    from_utf8_lossy(&out)
}

proof fn lemma_pct_plain(b: Seq<u8>, i: int, out: Seq<u8>)
    requires
        0 <= i <= b.len(),
        forall|j: int| i <= j < b.len() ==> b[j] != 37,
    ensures
        pct_from(b, i, out) == out + b.subrange(i, b.len() as int),
    decreases b.len() - i,
{
    if i < b.len() {
        lemma_pct_plain(b, i + 1, out.push(b[i]));
        assert(out.push(b[i]) + b.subrange(i + 1, b.len() as int) =~= out + b.subrange(i, b.len() as int));
    } else {
        assert(out + b.subrange(i, b.len() as int) =~= out);
    }
}

/// Percent-decoding leaves bytes without `%` as they are, and decodes a
/// `%` followed by two hexadecimal digits, between such plain bytes, to the
/// one byte they spell.
pub proof fn lemma_percent_decoding(x: Seq<u8>, h1: u8, h2: u8, y: Seq<u8>)
    ensures
        (forall|j: int| 0 <= j < x.len() ==> x[j] != 37) ==> pct_from(x, 0, Seq::empty()) == x,
        (forall|j: int| 0 <= j < x.len() ==> x[j] != 37) && (forall|j: int| 0 <= j < y.len() ==> y[j] != 37)
            && hex_value(h1) is Some && hex_value(h2) is Some && y.len() > 0 ==> pct_from(
            x + seq![37u8, h1, h2] + y,
            0,
            Seq::empty(),
        ) == x + seq![(hex_value(h1)->0 * 16 + hex_value(h2)->0) as u8] + y,
{
    if forall|j: int| 0 <= j < x.len() ==> x[j] != 37 {
        lemma_pct_plain(x, 0, Seq::empty());
        assert(Seq::<u8>::empty() + x.subrange(0, x.len() as int) =~= x);
        if (forall|j: int| 0 <= j < y.len() ==> y[j] != 37) && hex_value(h1) is Some && hex_value(h2) is Some
            && y.len() > 0 {
            let b = x + seq![37u8, h1, h2] + y;
            let k = x.len() as int;
            let v = (hex_value(h1)->0 * 16 + hex_value(h2)->0) as u8;
            lemma_pct_prefix(b, 0, k, Seq::empty());
            assert(b.subrange(0, k) =~= x);
            assert(b[k] == 37 && b[k + 1] == h1 && b[k + 2] == h2);
            assert forall|j: int| k + 3 <= j < b.len() implies b[j] != 37 by {
                assert(b[j] == y[j - k - 3]);
            }
            lemma_pct_plain(b, k + 3, x.push(v));
            assert(b.subrange(k + 3, b.len() as int) =~= y);
            assert(x.push(v) + y =~= x + seq![v] + y);
        }
    }
}

proof fn lemma_pct_prefix(b: Seq<u8>, i: int, k: int, out: Seq<u8>)
    requires
        0 <= i <= k <= b.len(),
        forall|j: int| i <= j < k ==> b[j] != 37,
    ensures
        pct_from(b, i, out) == pct_from(b, k, out + b.subrange(i, k)),
    decreases k - i,
{
    if i < k {
        lemma_pct_prefix(b, i + 1, k, out.push(b[i]));
        assert(out.push(b[i]) + b.subrange(i + 1, k) =~= out + b.subrange(i, k));
    } else {
        assert(out + b.subrange(i, k) =~= out);
    }
}

// ── Document paths ──────────────────────────────────────────────────────────

/// The path part of a `file://` URI: from its first `/` on (past an
/// optional host), or nothing for another scheme or no path.
pub open spec fn uri_path_part(uri: Seq<char>) -> Option<Seq<char>> {
    if !starts_with(uri, "file://"@) {
        None
    } else {
        let rest = uri.subrange(7, uri.len() as int);
        match crate::text::first_index(rest, '/') {
            Some(k) => Some(rest.subrange(k, rest.len() as int)),
            None => None,
        }
    }
}

/// The filesystem path of a `file://` URI, `%XX` escapes decoded.
pub open spec fn uri_path(uri: Seq<char>) -> Option<Seq<char>> {
    match uri_path_part(uri) {
        Some(p) => Some(utf8_lossy(pct_from(encode_utf8(p), 0, Seq::empty()))),
        None => None,
    }
}

/// The filesystem path of a `file://` URI, percent-decoded; `None` for other
/// schemes (such as `untitled:`) and for a URI without a path.
pub fn uri_to_path(uri: &str) -> (r: Option<String>)
    ensures
        match uri_path(uri@) {
            Some(p) => r matches Some(x) && x@ == p,
            None => r is None,
        },
{
    if !crate::text::starts_with_str(uri, "file://") {
        return None;
    }
    proof {
        reveal_strlit("file://");
    }
    let v = chars_of(uri);
    let ghost rest = uri@.subrange(7, uri@.len() as int);
    let mut k: usize = 7;
    while k < v.len() && v[k] != '/'
        invariant
            7 <= k <= v@.len(),
            v@ == uri@,
            forall|j: int| 7 <= j < k ==> v@[j] != '/',
        decreases v@.len() - k,
    {
        k += 1;
    }
    proof {
        assert forall|j: int| 0 <= j < k - 7 implies rest[j] != '/' by {
            assert(rest[j] == v@[j + 7]);
        }
        if k < v@.len() {
            assert(rest[k - 7] == v@[k as int]);
        }
        crate::text::lemma_first_index_is(rest, '/', k - 7);
    }
    if k >= v.len() {
        return None;
    }
    let part = crate::text::string_of(&v, k, v.len());
    assert(part@ =~= rest.subrange(k - 7, rest.len() as int));
    Some(percent_decode(part.as_str()))
}

/// The configuration a document is formatted with: the configuration found
/// for its file (`discovered`, the outcome of looking next to the document's
/// path), else the workspace configuration `fallback`; always the fallback
/// for a document without a filesystem path.
pub fn config_for_document(uri: &str, fallback: &Config, discovered: Option<Config>) -> (r: Config)
    ensures
        uri_path(uri@) is Some && discovered is Some ==> r == discovered->0,
        uri_path(uri@) is None || discovered is None ==> model(r) == model(*fallback),
{
    match uri_to_path(uri) {
        Some(_) => match discovered {
            Some(c) => c,
            None => copy_config(fallback),
        },
        None => copy_config(fallback),
    }
}

// ── Edits ───────────────────────────────────────────────────────────────────

/// A position in a document: 0-based line and UTF-16 column.
#[derive(Debug, Clone, Copy, PartialEq, Eq)]
pub struct Position {
    pub line: u32,
    pub character: u32,
}

/// A text edit: the range it replaces and the new text.
#[derive(Debug)]
pub struct TextEdit {
    pub start: Position,
    pub end: Position,
    pub new_text: String,
}

/// The number of UTF-16 code units of a text.
pub open spec fn utf16_len(s: Seq<char>) -> nat
    decreases s.len(),
{
    if s.len() == 0 {
        0
    } else {
        utf16_len(s.drop_last()) + if (s.last() as u32) >= 0x10000 { 2nat } else { 1nat }
    }
}

/// UTF-16 length: one unit per character, two for a character outside the
/// basic multilingual plane; so text of such characters only has as many
/// units as characters.
pub proof fn lemma_utf16_len(s: Seq<char>)
    ensures
        s.len() <= utf16_len(s) <= 2 * s.len(),
        (forall|i: int| 0 <= i < s.len() ==> (#[trigger] s[i] as u32) < 0x10000) ==> utf16_len(s) == s.len(),
        (forall|i: int| 0 <= i < s.len() ==> (#[trigger] s[i] as u32) >= 0x10000) ==> utf16_len(s) == 2 * s.len(),
    decreases s.len(),
{
    if s.len() > 0 {
        lemma_utf16_len(s.drop_last());
        assert(s.last() == s[s.len() - 1]);
        if forall|i: int| 0 <= i < s.len() ==> (#[trigger] s[i] as u32) < 0x10000 {
            assert forall|i: int| 0 <= i < s.drop_last().len() implies (#[trigger] s.drop_last()[i] as u32) < 0x10000 by {
                assert(s.drop_last()[i] == s[i]);
            }
        }
        if forall|i: int| 0 <= i < s.len() ==> (#[trigger] s[i] as u32) >= 0x10000 {
            assert forall|i: int| 0 <= i < s.drop_last().len() implies (#[trigger] s.drop_last()[i] as u32) >= 0x10000 by {
                assert(s.drop_last()[i] == s[i]);
            }
        }
    }
}

fn utf16_count(s: &str) -> (r: usize)
    ensures
        r as nat == sat_usize(utf16_len(s@)),
{
    let v = chars_of(s);
    let mut n: usize = 0;
    let mut i: usize = 0;
    while i < v.len()
        invariant
            i <= v@.len(),
            v@ == s@,
            n as nat == if utf16_len(v@.subrange(0, i as int)) > usize::MAX { usize::MAX as nat } else { utf16_len(v@.subrange(0, i as int)) },
        decreases v@.len() - i,
    {
        let w: usize = if (v[i] as u32) >= 0x10000 { 2 } else { 1 };
        assert(v@.subrange(0, i + 1).drop_last() =~= v@.subrange(0, i as int));
        n = if n > usize::MAX - w { usize::MAX } else { n + w };
        i += 1;
    }
    assert(v@.subrange(0, v@.len() as int) =~= v@);
    n
}

/// A number as `as u32` converts it: its low 32 bits.
pub open spec fn low32(n: nat) -> u32 {
    (n % 0x1_0000_0000) as u32
}

fn to_u32(n: usize) -> (r: u32)
    ensures
        r == low32(n as nat),
{
    ((n as u64) % 0x1_0000_0000u64) as u32
}

/// An edit that replaces a whole document with its formatting: from the
/// start to the end of its last line (columns in UTF-16 code units).
pub fn full_document_edit(original: &str, formatted: String) -> (r: TextEdit)
    ensures
        r.start == (Position { line: 0, character: 0 }),
        r.end.line == low32(crate::text::sat_sub(crate::diagnostics::lines_of(original@).len(), 1)),
        r.end.character == if crate::diagnostics::lines_of(original@).len() > 0 {
            low32(sat_usize(utf16_len(crate::diagnostics::lines_of(original@).last())))
        } else {
            0u32
        },
        r.new_text@ == formatted@,
{
    let lines = crate::diagnostics::text_lines(original);
    let ghost ls = strs_of(lines@);
    let n = lines.len();
    let last_line = if n >= 1 { n - 1 } else { 0 };
    let last_char: u32 = if n > 0 {
        assert(ls.last() == lines@[n - 1]@);
        to_u32(utf16_count(lines[n - 1].as_str()))
    } else {
        0
    };
    TextEdit {
        start: Position { line: 0, character: 0 },
        end: Position { line: to_u32(last_line), character: last_char },
        new_text: formatted,
    }
}

spec fn strs_of(v: Seq<String>) -> Seq<Seq<char>> {
    crate::text::strs(v)
}

/// A count capped at the largest machine size.
pub open spec fn sat_usize(n: nat) -> nat {
    if n > usize::MAX {
        usize::MAX as nat
    } else {
        n
    }
}

/// What a range formatting request selects: the lines from `start` through
/// `end` (clamped to the last line), joined and ended by a newline, with
/// the end column of the last selected line in UTF-16 code units; nothing
/// when the document is empty or the range starts past its end.
pub open spec fn range_selection(text: Seq<char>, start: nat, end: nat) -> Option<(Seq<char>, nat, nat, u32)> {
    let lines = crate::diagnostics::lines_of(text);
    if lines.len() == 0 || start >= lines.len() {
        None
    } else {
        let clamped = if end < lines.len() - 1 { end } else { (lines.len() - 1) as nat };
        if start > clamped {
            None
        } else {
            let selected = lines.subrange(start as int, clamped as int + 1);
            Some(
                (
                    crate::text::join(selected, "\n"@) + "\n"@,
                    start,
                    clamped,
                    low32(sat_usize(utf16_len(selected.last()))),
                ),
            )
        }
    }
}

/// Select the lines of a range formatting request.
pub fn select_range(text: &str, start_line: usize, end_line: usize) -> (r: Option<(String, usize, usize, u32)>)
    ensures
        match range_selection(text@, start_line as nat, end_line as nat) {
            Some((t, s, e, c)) => r matches Some(x) && x.0@ == t && x.1 == s && x.2 == e && x.3 == c,
            None => r is None,
        },
{
    let lines = crate::diagnostics::text_lines(text);
    let ghost ls = crate::text::strs(lines@);
    let n = lines.len();
    if n == 0 || start_line >= n {
        return None;
    }
    let clamped = if end_line < n - 1 { end_line } else { n - 1 };
    if start_line > clamped {
        return None;
    }
    let mut selected: Vec<String> = Vec::new();
    let mut k = start_line;
    while k <= clamped
        invariant
            start_line <= k <= clamped + 1,
            clamped < n,
            n == lines@.len(),
            ls == crate::text::strs(lines@),
            crate::text::strs(selected@) == ls.subrange(start_line as int, k as int),
        decreases clamped + 1 - k,
    {
        let ghost pre = crate::text::strs(selected@);
        selected.push(crate::text::copy_string(&lines[k]));
        assert(crate::text::strs(selected@) =~= pre.push(lines@[k as int]@));
        assert(crate::text::strs(selected@) =~= ls.subrange(start_line as int, k + 1));
        k += 1;
    }
    let mut slice = crate::text::join_strings(&selected, "\n");
    crate::text::push_str(&mut slice, "\n");
    assert(ls.subrange(start_line as int, clamped + 1).last() == lines@[clamped as int]@);
    let last_char = to_u32(utf16_count(lines[clamped].as_str()));
    Some((slice, start_line, clamped, last_char))
}

/// The edits that turn formatting off before a selection and on again
/// after it: `# cmakefmt: off` at the start of the first selected line and
/// `# cmakefmt: on` at the start of the line after the last one.
pub fn disable_selection_edits(start_line: u32, end_line: u32) -> (r: (TextEdit, TextEdit))
    requires
        end_line < u32::MAX,
    ensures
        r.0.start == (Position { line: start_line, character: 0 }),
        r.0.end == (Position { line: start_line, character: 0 }),
        r.0.new_text@ == "# cmakefmt: off\n"@,
        r.1.start == (Position { line: (end_line + 1) as u32, character: 0 }),
        r.1.end == (Position { line: (end_line + 1) as u32, character: 0 }),
        r.1.new_text@ == "# cmakefmt: on\n"@,
{
    let off = TextEdit {
        start: Position { line: start_line, character: 0 },
        end: Position { line: start_line, character: 0 },
        new_text: owned("# cmakefmt: off\n"),
    };
    let on = TextEdit {
        start: Position { line: end_line + 1, character: 0 },
        end: Position { line: end_line + 1, character: 0 },
        new_text: owned("# cmakefmt: on\n"),
    };
    (off, on)
}

// ── Open documents ──────────────────────────────────────────────────────────

/// The text of the last entry with a key, if any.
pub open spec fn lookup(entries: Seq<(String, String)>, key: Seq<char>) -> Option<Seq<char>>
    decreases entries.len(),
{
    if entries.len() == 0 {
        None
    } else if entries.last().0@ == key {
        Some(entries.last().1@)
    } else {
        lookup(entries.drop_last(), key)
    }
}

/// The entries without those with a key.
pub open spec fn without(entries: Seq<(String, String)>, key: Seq<char>) -> Seq<(String, String)>
    decreases entries.len(),
{
    if entries.len() == 0 {
        entries
    } else if entries.last().0@ == key {
        without(entries.drop_last(), key)
    } else {
        without(entries.drop_last(), key).push(entries.last())
    }
}

proof fn lemma_lookup_without(entries: Seq<(String, String)>, key: Seq<char>, other: Seq<char>)
    ensures
        lookup(without(entries, key), other) == if other == key {
            None::<Seq<char>>
        } else {
            lookup(entries, other)
        },
    decreases entries.len(),
{
    if entries.len() > 0 {
        lemma_lookup_without(entries.drop_last(), key, other);
        if entries.last().0@ != key {
            assert(without(entries, key).drop_last() == without(entries.drop_last(), key));
        }
    }
}

/// The documents an editor has open, by URI: a read gives back what the
/// last open or change of that URI gave, until it is closed.
pub struct Documents {
    entries: Vec<(String, String)>,
}

impl View for Documents {
    type V = Map<Seq<char>, Seq<char>>;

    closed spec fn view(&self) -> Map<Seq<char>, Seq<char>> {
        Map::new(|k: Seq<char>| lookup(self.entries@, k) is Some, |k: Seq<char>| lookup(self.entries@, k)->0)
    }
}

/// Whether no key stands twice among the entries.
pub open spec fn keys_unique(entries: Seq<(String, String)>) -> bool {
    forall|i: int, j: int| 0 <= i < j < entries.len() ==> #[trigger] entries[i].0@ != #[trigger] entries[j].0@
}

impl Documents {
    /// Each URI stands at most once.
    #[verifier::type_invariant]
    spec fn unique_uris(self) -> bool {
        keys_unique(self.entries@)
    }

    /// No open documents.
    pub fn new() -> (r: Self)
        ensures
            r@ == Map::<Seq<char>, Seq<char>>::empty(),
    {
        let r = Documents { entries: Vec::new() };
        assert(r@ =~= Map::<Seq<char>, Seq<char>>::empty());
        r
    }

    fn remove_key(entries: &Vec<(String, String)>, key: &str) -> (r: Vec<(String, String)>)
        requires
            keys_unique(entries@),
        ensures
            forall|k: Seq<char>| #[trigger] lookup(r@, k) == lookup(without(entries@, key@), k),
            keys_unique(r@),
            forall|p: int| 0 <= p < r@.len() ==> #[trigger] r@[p].0@ != key@,
    {
        let mut out: Vec<(String, String)> = Vec::new();
        let mut i: usize = 0;
        while i < entries.len()
            invariant
                i <= entries@.len(),
                keys_unique(entries@),
                forall|k: Seq<char>| #[trigger] lookup(out@, k) == lookup(without(entries@.subrange(0, i as int), key@), k),
                keys_unique(out@),
                forall|p: int| 0 <= p < out@.len() ==> #[trigger] out@[p].0@ != key@,
                forall|p: int| 0 <= p < out@.len() ==> exists|q: int| 0 <= q < i && #[trigger] out@[p].0@ == entries@[q].0@,
            decreases entries@.len() - i,
        {
            let ghost pre = out@;
            assert(entries@.subrange(0, i + 1).drop_last() =~= entries@.subrange(0, i as int));
            assert(entries@.subrange(0, i + 1).last() == entries@[i as int]);
            if !crate::text::str_eq(entries[i].0.as_str(), key) {
                let e = (owned(entries[i].0.as_str()), owned(entries[i].1.as_str()));
                proof {
                    assert forall|p: int| 0 <= p < pre.len() implies pre[p].0@ != entries@[i as int].0@ by {
                        let q = choose|q: int| 0 <= q < i && #[trigger] pre[p].0@ == entries@[q].0@;
                        assert(entries@[q].0@ != entries@[i as int].0@);
                    }
                }
                out.push(e);
                assert forall|p: int| 0 <= p < out@.len() implies exists|q: int| 0 <= q < i + 1 && #[trigger] out@[p].0@ == entries@[q].0@ by {
                    if p < pre.len() {
                        assert(out@[p] == pre[p]);
                        let q = choose|q: int| 0 <= q < i && #[trigger] pre[p].0@ == entries@[q].0@;
                        assert(out@[p].0@ == entries@[q].0@);
                    } else {
                        assert(out@[p].0@ == entries@[i as int].0@);
                    }
                }
                assert forall|p: int| 0 <= p < out@.len() implies #[trigger] out@[p].0@ != key@ by {
                    if p < pre.len() {
                        assert(out@[p] == pre[p]);
                    } else {
                        assert(out@[p].0@ == entries@[i as int].0@);
                    }
                }
                assert forall|a: int, b: int| 0 <= a < b < out@.len() implies #[trigger] out@[a].0@ != #[trigger] out@[b].0@ by {
                    assert(out@[a] == pre[a]);
                    if b < pre.len() {
                        assert(out@[b] == pre[b]);
                        assert(pre[a].0@ != pre[b].0@);
                    } else {
                        assert(out@[b].0@ == entries@[i as int].0@);
                        assert(pre[a].0@ != entries@[i as int].0@);
                    }
                }
                assert(out@.drop_last() == pre);
                assert(out@.last().0@ == entries@[i as int].0@ && out@.last().1@ == entries@[i as int].1@);
                let ghost w = without(entries@.subrange(0, i + 1), key@);
                assert(w == without(entries@.subrange(0, i as int), key@).push(entries@[i as int]));
                assert(w.drop_last() == without(entries@.subrange(0, i as int), key@));
                assert forall|k: Seq<char>| #[trigger] lookup(out@, k) == lookup(w, k) by {
                    assert(lookup(pre, k) == lookup(w.drop_last(), k));
                }
            } else {
                assert(without(entries@.subrange(0, i + 1), key@) == without(entries@.subrange(0, i as int), key@));
                assert forall|p: int| 0 <= p < out@.len() implies exists|q: int| 0 <= q < i + 1 && #[trigger] out@[p].0@ == entries@[q].0@ by {
                    let q = choose|q: int| 0 <= q < i && #[trigger] out@[p].0@ == entries@[q].0@;
                    assert(out@[p].0@ == entries@[q].0@);
                }
            }
            i += 1;
        }
        assert(entries@.subrange(0, entries@.len() as int) =~= entries@);
        out
    }

    /// Open a document, or replace the text of one that is open.
    pub fn open(&mut self, uri: String, text: String)
        ensures
            final(self)@ == old(self)@.insert(uri@, text@),
    {
        proof {
            use_type_invariant(&*self);
        }
        let ghost old_entries = self.entries@;
        let ghost u = uri@;
        let ghost t = text@;
        let mut rest = Self::remove_key(&self.entries, uri.as_str());
        let ghost kept = rest@;
        let pair = (uri, text);
        let ghost gp = pair;
        rest.push(pair);
        assert forall|a: int, b: int| 0 <= a < b < rest@.len() implies #[trigger] rest@[a].0@ != #[trigger] rest@[b].0@ by {
            assert(rest@[a] == kept[a]);
            if b < kept.len() {
                assert(rest@[b] == kept[b]);
                assert(kept[a].0@ != kept[b].0@);
            } else {
                assert(rest@[b].0@ == u);
                assert(kept[a].0@ != u);
            }
        }
        self.entries = rest;
        assert(self.entries@.last() == gp);
        assert(self.entries@.drop_last() == kept);
        assert forall|k: Seq<char>| #[trigger] lookup(self.entries@, k) == if k == u { Some(t) } else { lookup(old_entries, k) } by {
            assert(lookup(kept, k) == lookup(without(old_entries, u), k));
            lemma_lookup_without(old_entries, u, k);
        }
        assert(self@ =~= old(self)@.insert(u, t));
    }

    /// Close a document.
    pub fn close(&mut self, uri: &str)
        ensures
            final(self)@ == old(self)@.remove(uri@),
    {
        proof {
            use_type_invariant(&*self);
        }
        let ghost old_entries = self.entries@;
        let rest = Self::remove_key(&self.entries, uri);
        self.entries = rest;
        assert forall|k: Seq<char>| #[trigger] lookup(self.entries@, k) == if k == uri@ { None } else { lookup(old_entries, k) } by {
            lemma_lookup_without(old_entries, uri@, k);
        }
        assert(self@ =~= old(self)@.remove(uri@));
    }

    /// The text of an open document.
    pub fn get(&self, uri: &str) -> (r: Option<&String>)
        ensures
            match r {
                Some(t) => self@.contains_key(uri@) && t@ == self@[uri@],
                None => !self@.contains_key(uri@),
            },
    {
        let mut i = self.entries.len();
        assert(self.entries@.subrange(0, i as int) =~= self.entries@);
        while i > 0
            invariant
                i <= self.entries@.len(),
                lookup(self.entries@, uri@) == lookup(self.entries@.subrange(0, i as int), uri@),
            decreases i,
        {
            let ghost s = self.entries@.subrange(0, i as int);
            assert(s.drop_last() =~= self.entries@.subrange(0, i - 1));
            assert(s.last() == self.entries@[i - 1]);
            if crate::text::str_eq(self.entries[i - 1].0.as_str(), uri) {
                return Some(&self.entries[i - 1].1);
            }
            i -= 1;
        }
        assert(self.entries@.subrange(0, 0) =~= Seq::<(String, String)>::empty());
        None
    }
}

/// What a range formatting request for an open document selects: nothing
/// to answer for a document that is not open; else the selection of its
/// lines, which is empty (`None`) for an empty document or a range that
/// starts past its end.
pub fn range_request(docs: &Documents, uri: &str, start_line: u32, end_line: u32) -> (r: Option<
    Option<(String, usize, usize, u32)>,
>)
    ensures
        !docs@.contains_key(uri@) ==> r is None,
        docs@.contains_key(uri@) ==> (r matches Some(sel) && match range_selection(
            docs@[uri@],
            start_line as nat,
            end_line as nat,
        ) {
            Some((t, s, e, c)) => sel matches Some(x) && x.0@ == t && x.1 == s && x.2 == e && x.3 == c,
            None => sel is None,
        }),
{
    match docs.get(uri) {
        None => None,
        Some(text) => Some(select_range(text.as_str(), start_line as usize, end_line as usize)),
    }
}

/// The edit that replaces a selection of lines with its formatting: from
/// the start of its first line to the end of its last.
pub fn range_edit(first_line: usize, last_line: usize, last_char: u32, formatted: String) -> (r: TextEdit)
    ensures
        r.start == (Position { line: low32(first_line as nat), character: 0 }),
        r.end == (Position { line: low32(last_line as nat), character: last_char }),
        r.new_text@ == formatted@,
{
    TextEdit {
        start: Position { line: to_u32(first_line), character: 0 },
        end: Position { line: to_u32(last_line), character: last_char },
        new_text: formatted,
    }
}

/// A read gives back what the last open or change of a URI wrote, and
/// opening or closing one URI leaves every other URI as it was.
pub proof fn lemma_read_after_write(d: Map<Seq<char>, Seq<char>>, uri: Seq<char>, text: Seq<char>, other: Seq<char>)
    requires
        other != uri,
    ensures
        d.insert(uri, text).contains_key(uri) && d.insert(uri, text)[uri] == text,
        !d.remove(uri).contains_key(uri),
        d.insert(uri, text).contains_key(other) == d.contains_key(other),
        d.contains_key(other) ==> d.insert(uri, text)[other] == d[other],
        d.remove(uri).contains_key(other) == d.contains_key(other),
        d.contains_key(other) ==> d.remove(uri)[other] == d[other],
{
}

} // verus!
