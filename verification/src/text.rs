//! Character-level text operations with their specifications.
//!
//! Text is handled as a sequence of `char`s. Where the tools measure text in
//! bytes, as `str::len` does, the measure is the length of the UTF-8 encoding,
//! [`utf8_len`].

use vstd::prelude::*;

verus! {

broadcast use vstd::string::group_string_axioms;

// ---------------------------------------------------------------------------
// Conversions
// ---------------------------------------------------------------------------

/// The characters of a string slice.
pub fn chars_of(s: &str) -> (v: Vec<char>)
    ensures
        v@ == s@,
{
    let mut v: Vec<char> = Vec::new();
    for c in it: s.chars()
        invariant
            v@ == it.seq().take(it.index() as int),
    {
        v.push(c);
    }
    v
}

/// `String::from_iter` over a slice of characters: the contract claims the
/// new `String` holds exactly those characters, in order.
#[verifier::external_body]
pub(crate) fn string_of(v: &[char]) -> (s: String)
    ensures
        s@ == v@,
{
    String::from_iter(v.iter())
}

/// A `String` holding the characters of a slice (`str::to_owned`).
pub fn owned(s: &str) -> (r: String)
    ensures
        r@ == s@,
{
    s.to_owned()
}

// ---------------------------------------------------------------------------
// Character classes
// ---------------------------------------------------------------------------

/// The Unicode `White_Space` property, which `char::is_whitespace` tests.
pub open spec fn is_ws(c: char) -> bool {
    let u = c as u32;
    ||| 0x9 <= u <= 0xD
    ||| u == 0x20
    ||| u == 0x85
    ||| u == 0xA0
    ||| u == 0x1680
    ||| 0x2000 <= u <= 0x200A
    ||| u == 0x2028
    ||| u == 0x2029
    ||| u == 0x202F
    ||| u == 0x205F
    ||| u == 0x3000
}

/// `char::is_whitespace`.
pub fn is_whitespace(c: char) -> (r: bool)
    ensures
        r == is_ws(c),
{
    let u = c as u32;
    (0x9 <= u && u <= 0xD) || u == 0x20 || u == 0x85 || u == 0xA0 || u == 0x1680 || (0x2000 <= u
        && u <= 0x200A) || u == 0x2028 || u == 0x2029 || u == 0x202F || u == 0x205F || u == 0x3000
}

pub open spec fn is_ascii_digit_s(c: char) -> bool {
    '0' <= c <= '9'
}

pub open spec fn is_ascii_alnum_s(c: char) -> bool {
    ||| '0' <= c <= '9'
    ||| 'a' <= c <= 'z'
    ||| 'A' <= c <= 'Z'
}

/// `char::is_ascii_digit`.
pub fn is_ascii_digit(c: char) -> (r: bool)
    ensures
        r == is_ascii_digit_s(c),
{
    '0' <= c && c <= '9'
}

/// `char::is_ascii_alphanumeric`.
pub fn is_ascii_alphanumeric(c: char) -> (r: bool)
    ensures
        r == is_ascii_alnum_s(c),
{
    ('0' <= c && c <= '9') || ('a' <= c && c <= 'z') || ('A' <= c && c <= 'Z')
}

/// What `char::is_alphanumeric` answers for `c` (the Unicode `Alphabetic`
/// or `Numeric` property).
pub uninterp spec fn alphanumeric(c: char) -> bool;

/// What `char::is_alphanumeric` answers: for an ASCII character, as std
/// documents (alphabetic or numeric), exactly the letters `a`–`z`, `A`–`Z`
/// and the digits `0`–`9`; for any other, [`alphanumeric`].
pub open spec fn alnum_s(c: char) -> bool {
    if is_ascii_s(c) {
        is_ascii_alnum_s(c)
    } else {
        alphanumeric(c)
    }
}

/// `char::is_alphanumeric`. The contract ties the answer to [`alnum_s`]:
/// the ASCII answer std documents, and the name [`alphanumeric`] for every
/// other character, stating no more of the Unicode tables.
#[verifier::external_body]
pub(crate) fn is_alphanumeric(c: char) -> (r: bool)
    ensures
        r == alnum_s(c),
        !is_ascii_s(c) ==> r == alphanumeric(c),
{
    c.is_alphanumeric()
}

/// What `str::to_lowercase` returns for a text (the Unicode lowercase
/// mapping, with its context-dependent rule for final sigma).
pub uninterp spec fn lowercase(s: Seq<char>) -> Seq<char>;

/// An ASCII character.
pub open spec fn is_ascii_s(c: char) -> bool {
    (c as u32) < 128
}

/// The ASCII lowercase of a character: `A`–`Z` become `a`–`z`, every other
/// character is kept.
pub open spec fn ascii_lower(c: char) -> char {
    if 'A' <= c && c <= 'Z' {
        ((c as u32) + 32) as char
    } else {
        c
    }
}

/// `str::to_lowercase`. The contract ties the result to [`lowercase`], and
/// states what std documents of ASCII text: each character maps to its
/// ASCII lowercase, one for one.
#[verifier::external_body]
pub(crate) fn to_lowercase(s: &[char]) -> (r: Vec<char>)
    ensures
        r@ == lowercase(s@),
        (forall|i: int| 0 <= i < s@.len() ==> is_ascii_s(#[trigger] s@[i])) ==> r@ == Seq::new(
            s@.len(),
            |i: int| ascii_lower(s@[i]),
        ),
{
    let text: String = s.iter().collect();
    text.to_lowercase().chars().collect()
}

/// What `char::to_lowercase` yields for one character (one or more chars).
pub uninterp spec fn char_lowercase(c: char) -> Seq<char>;

/// What `char::to_lowercase` yields: for an ASCII character, as std
/// documents, its ASCII lowercase alone; for any other, [`char_lowercase`].
pub open spec fn char_lower_s(c: char) -> Seq<char> {
    if is_ascii_s(c) {
        seq![ascii_lower(c)]
    } else {
        char_lowercase(c)
    }
}

/// `char::to_lowercase`, collected. The contract ties the result to
/// [`char_lower_s`]: the ASCII mapping std documents, and the name
/// [`char_lowercase`] for every other character.
#[verifier::external_body]
pub(crate) fn char_to_lowercase(c: char) -> (r: Vec<char>)
    ensures
        r@ == char_lower_s(c),
        !is_ascii_s(c) ==> r@ == char_lowercase(c),
{
    c.to_lowercase().collect()
}

// ---------------------------------------------------------------------------
// UTF-8 length
// ---------------------------------------------------------------------------

/// Bytes in the UTF-8 encoding of one character.
pub open spec fn char_width(c: char) -> nat {
    let u = c as u32;
    if u < 0x80 {
        1
    } else if u < 0x800 {
        2
    } else if u < 0x10000 {
        3
    } else {
        4
    }
}

/// Bytes in the UTF-8 encoding of a text: what `str::len` returns.
pub open spec fn utf8_len(s: Seq<char>) -> nat
    decreases s.len(),
{
    if s.len() == 0 {
        0
    } else {
        utf8_len(s.drop_last()) + char_width(s.last())
    }
}

pub fn char_len_utf8(c: char) -> (r: usize)
    ensures
        r == char_width(c),
{
    let u = c as u32;
    if u < 0x80 {
        1
    } else if u < 0x800 {
        2
    } else if u < 0x10000 {
        3
    } else {
        4
    }
}

pub proof fn lemma_utf8_len_bounds(s: Seq<char>)
    ensures
        s.len() <= utf8_len(s) <= 4 * s.len(),
    decreases s.len(),
{
    if s.len() > 0 {
        lemma_utf8_len_bounds(s.drop_last());
    }
}

pub proof fn lemma_utf8_len_concat(a: Seq<char>, b: Seq<char>)
    ensures
        utf8_len(a + b) == utf8_len(a) + utf8_len(b),
    decreases b.len(),
{
    if b.len() == 0 {
        assert(a + b =~= a);
    } else {
        lemma_utf8_len_concat(a, b.drop_last());
        assert((a + b).drop_last() =~= a + b.drop_last());
    }
}

/// Byte length of `s[lo..hi]`.
pub fn utf8_len_range(s: &Vec<char>, lo: usize, hi: usize) -> (r: usize)
    requires
        lo <= hi <= s@.len(),
        4 * s@.len() <= usize::MAX,
    ensures
        r == utf8_len(s@.subrange(lo as int, hi as int)),
{
    let mut n: usize = 0;
    let mut i: usize = lo;
    while i < hi
        invariant
            lo <= i <= hi <= s@.len(),
            4 * s@.len() <= usize::MAX,
            n == utf8_len(s@.subrange(lo as int, i as int)),
            n <= 4 * (i - lo),
        decreases hi - i,
    {
        proof {
            assert(s@.subrange(lo as int, i + 1).drop_last() =~= s@.subrange(lo as int, i as int));
        }
        n = n + char_len_utf8(s[i]);
        i = i + 1;
    }
    n
}

/// How many leading characters of `t` fit into `budget` bytes of UTF-8.
pub open spec fn fit_len(t: Seq<char>, budget: int) -> nat
    decreases t.len(),
{
    if t.len() == 0 || char_width(t[0]) > budget {
        0
    } else {
        1 + fit_len(t.drop_first(), budget - char_width(t[0]))
    }
}

/// The number of leading characters of `t` that fit into `budget` bytes.
pub fn fit_prefix_len(t: &Vec<char>, budget: usize) -> (r: usize)
    ensures
        r == fit_len(t@, budget as int),
        r <= t@.len(),
{
    let n = t.len();
    let mut m: usize = 0;
    let mut used: usize = 0;
    proof {
        assert(t@.subrange(0, n as int) =~= t@);
    }
    while m < n && char_len_utf8(t[m]) <= budget - used
        invariant
            0 <= m <= n,
            n == t@.len(),
            used <= budget,
            fit_len(t@, budget as int) == m + fit_len(t@.subrange(m as int, n as int), budget - used),
        decreases n - m,
    {
        proof {
            assert(t@.subrange(m as int, n as int).drop_first() =~= t@.subrange(m + 1, n as int));
        }
        used = used + char_len_utf8(t[m]);
        m = m + 1;
    }
    m
}

// ---------------------------------------------------------------------------
// Trimming
// ---------------------------------------------------------------------------

/// `str::trim_end`: trailing white space removed.
pub open spec fn trim_end_s(s: Seq<char>) -> Seq<char>
    decreases s.len(),
{
    if s.len() > 0 && is_ws(s.last()) {
        trim_end_s(s.drop_last())
    } else {
        s
    }
}

/// Trimming the end keeps a prefix, and trimming it again changes nothing.
pub proof fn lemma_trim_end_prefix(s: Seq<char>)
    ensures
        trim_end_s(s).len() <= s.len(),
        trim_end_s(s) == s.take(trim_end_s(s).len() as int),
        trim_end_s(trim_end_s(s)) == trim_end_s(s),
    decreases s.len(),
{
    if s.len() > 0 && is_ws(s.last()) {
        lemma_trim_end_prefix(s.drop_last());
        let t = trim_end_s(s.drop_last());
        assert(s.drop_last().take(t.len() as int) =~= s.take(t.len() as int));
    } else {
        assert(s.take(s.len() as int) =~= s);
    }
}

/// `str::trim_start`: leading white space removed.
pub open spec fn trim_start_s(s: Seq<char>) -> Seq<char>
    decreases s.len(),
{
    if s.len() > 0 && is_ws(s[0]) {
        trim_start_s(s.drop_first())
    } else {
        s
    }
}

/// `str::trim`.
pub open spec fn trim_s(s: Seq<char>) -> Seq<char> {
    trim_start_s(trim_end_s(s))
}

/// Bounds `(a, b)` with `s[a..b] == trim(s[lo..hi])`.
pub fn trim_range(s: &Vec<char>, lo: usize, hi: usize) -> (r: (usize, usize))
    requires
        lo <= hi <= s@.len(),
    ensures
        lo <= r.0 <= r.1 <= hi,
        s@.subrange(r.0 as int, r.1 as int) == trim_s(s@.subrange(lo as int, hi as int)),
        s@.subrange(lo as int, r.1 as int) == trim_end_s(s@.subrange(lo as int, hi as int)),
{
    let mut b = hi;
    while b > lo && is_whitespace(s[b - 1])
        invariant
            lo <= b <= hi <= s@.len(),
            trim_end_s(s@.subrange(lo as int, hi as int)) == trim_end_s(
                s@.subrange(lo as int, b as int),
            ),
        decreases b,
    {
        proof {
            assert(s@.subrange(lo as int, b as int).drop_last() =~= s@.subrange(
                lo as int,
                b - 1,
            ));
        }
        b = b - 1;
    }
    let mut a = lo;
    while a < b && is_whitespace(s[a])
        invariant
            lo <= a <= b <= hi <= s@.len(),
            trim_start_s(s@.subrange(lo as int, b as int)) == trim_start_s(
                s@.subrange(a as int, b as int),
            ),
        decreases b - a,
    {
        proof {
            assert(s@.subrange(a as int, b as int).drop_first() =~= s@.subrange(
                a + 1,
                b as int,
            ));
        }
        a = a + 1;
    }
    (a, b)
}

// ---------------------------------------------------------------------------
// Searching
// ---------------------------------------------------------------------------

/// `needle` occurs in `hay` starting at `i`.
pub open spec fn occurs_at(hay: Seq<char>, needle: Seq<char>, i: int) -> bool {
    0 <= i && i + needle.len() <= hay.len() && hay.subrange(i, i + needle.len()) == needle
}

/// `str::contains` with a string pattern.
pub open spec fn contains_s(hay: Seq<char>, needle: Seq<char>) -> bool {
    exists|i: int| occurs_at(hay, needle, i)
}

/// `str::starts_with` with a string pattern.
pub open spec fn starts_with_s(hay: Seq<char>, needle: Seq<char>) -> bool {
    occurs_at(hay, needle, 0)
}

/// `s[lo..hi]` and `needle` are the same text.
pub fn range_eq(s: &Vec<char>, lo: usize, hi: usize, needle: &Vec<char>) -> (r: bool)
    requires
        lo <= hi <= s@.len(),
    ensures
        r == (s@.subrange(lo as int, hi as int) == needle@),
{
    if hi - lo != needle.len() {
        return false;
    }
    let mut k: usize = 0;
    while k < needle.len()
        invariant
            0 <= k <= needle@.len(),
            hi - lo == needle@.len(),
            lo <= hi <= s@.len(),
            forall|j: int| 0 <= j < k ==> s@[lo + j] == needle@[j],
        decreases needle.len() - k,
    {
        if s[lo + k] != needle[k] {
            proof {
                assert(s@.subrange(lo as int, hi as int)[k as int] != needle@[k as int]);
            }
            return false;
        }
        k = k + 1;
    }
    proof {
        assert(s@.subrange(lo as int, hi as int) =~= needle@);
    }
    true
}

/// Whether `needle` occurs in `s[lo..hi]`.
pub fn contains_in(s: &Vec<char>, lo: usize, hi: usize, needle: &Vec<char>) -> (r: bool)
    requires
        lo <= hi <= s@.len(),
    ensures
        r == contains_s(s@.subrange(lo as int, hi as int), needle@),
{
    let ghost h = s@.subrange(lo as int, hi as int);
    if needle.len() > hi - lo {
        proof {
            assert forall|i: int| !occurs_at(h, needle@, i) by {}
        }
        return false;
    }
    let last = hi - needle.len();
    let mut i: usize = lo;
    loop
        invariant
            lo <= i <= last,
            last + needle@.len() == hi,
            hi <= s@.len(),
            h == s@.subrange(lo as int, hi as int),
            forall|j: int| 0 <= j < i - lo ==> !occurs_at(h, needle@, j),
        ensures
            forall|j: int| 0 <= j <= last - lo ==> !occurs_at(h, needle@, j),
        decreases last - i,
    {
        if range_eq(s, i, i + needle.len(), needle) {
            proof {
                assert(h.subrange(i - lo, i - lo + needle@.len()) =~= s@.subrange(
                    i as int,
                    i + needle@.len(),
                ));
                assert(occurs_at(h, needle@, i - lo));
            }
            return true;
        }
        proof {
            assert(h.subrange(i - lo, i - lo + needle@.len()) =~= s@.subrange(
                i as int,
                i + needle@.len(),
            ));
        }
        if i == last {
            break;
        }
        i = i + 1;
    }
    proof {
        assert forall|j: int| !occurs_at(h, needle@, j) by {
            if 0 <= j && j + needle@.len() <= h.len() {
                assert(j <= last - lo);
            }
        }
    }
    false
}

/// `str::contains` on a whole text.
pub fn contains(s: &Vec<char>, needle: &str) -> (r: bool)
    ensures
        r == contains_s(s@, needle@),
{
    let n = chars_of(needle);
    let r = contains_in(s, 0, s.len(), &n);
    proof {
        assert(s@.subrange(0, s@.len() as int) =~= s@);
    }
    r
}

/// `str::contains` on two strings.
pub fn contains_text(hay: &str, needle: &str) -> (r: bool)
    ensures
        r == contains_s(hay@, needle@),
{
    let h = chars_of(hay);
    contains(&h, needle)
}

/// `a.to_lowercase().contains(&b.to_lowercase())`.
pub fn contains_ignoring_case(hay: &str, needle: &str) -> (r: bool)
    ensures
        r == contains_s(lowercase(hay@), lowercase(needle@)),
{
    let h = chars_of(hay);
    let n = chars_of(needle);
    let hl = to_lowercase(h.as_slice());
    let nl = to_lowercase(n.as_slice());
    let r = contains_in(&hl, 0, hl.len(), &nl);
    proof {
        assert(hl@.subrange(0, hl@.len() as int) =~= hl@);
    }
    r
}

/// `str::starts_with` on `s[lo..hi]`.
pub fn starts_with_in(s: &Vec<char>, lo: usize, hi: usize, needle: &str) -> (r: bool)
    requires
        lo <= hi <= s@.len(),
    ensures
        r == starts_with_s(s@.subrange(lo as int, hi as int), needle@),
{
    let n = chars_of(needle);
    if n.len() > hi - lo {
        return false;
    }
    let r = range_eq(s, lo, lo + n.len(), &n);
    proof {
        assert(s@.subrange(lo as int, hi as int).subrange(0, n@.len() as int) =~= s@.subrange(
            lo as int,
            lo + n@.len(),
        ));
    }
    r
}

// ---------------------------------------------------------------------------
// Splitting
// ---------------------------------------------------------------------------

/// `str::split` with a character predicate: the pieces between separators,
/// empty pieces included (so there is always at least one piece).
pub open spec fn split_pieces(s: Seq<char>, sep: spec_fn(char) -> bool) -> Seq<Seq<char>>
    decreases s.len(),
{
    if s.len() == 0 {
        seq![Seq::empty()]
    } else {
        let rest = split_pieces(s.drop_last(), sep);
        if sep(s.last()) {
            rest.push(Seq::empty())
        } else {
            rest.update(rest.len() - 1, rest.last().push(s.last()))
        }
    }
}

pub proof fn lemma_split_pieces_nonempty(s: Seq<char>, sep: spec_fn(char) -> bool)
    ensures
        split_pieces(s, sep).len() >= 1,
    decreases s.len(),
{
    if s.len() > 0 {
        lemma_split_pieces_nonempty(s.drop_last(), sep);
    }
}

/// A piece of a text: the half-open range `[lo, hi)` of its characters.
pub struct Span {
    pub lo: usize,
    pub hi: usize,
}

/// The texts a list of spans denotes.
pub open spec fn span_texts(s: Seq<char>, spans: Seq<Span>) -> Seq<Seq<char>> {
    spans.map_values(|sp: Span| s.subrange(sp.lo as int, sp.hi as int))
}

pub open spec fn spans_in(s: Seq<char>, spans: Seq<Span>) -> bool {
    forall|k: int| 0 <= k < spans.len() ==> #[trigger] spans[k].lo <= spans[k].hi <= s.len()
}

/// The separator classes the tools split text on.
pub enum SepKind {
    /// `char::is_whitespace`.
    Whitespace,
    /// `'\n'`.
    Newline,
    /// Neither alphanumeric nor an apostrophe: the word splitter.
    NonWord,
    /// `'.'` or `'\n'`.
    SentenceMark,
}

pub open spec fn sep_fn(k: SepKind) -> spec_fn(char) -> bool {
    match k {
        SepKind::Whitespace => |c: char| is_ws(c),
        SepKind::Newline => |c: char| c == '\n',
        SepKind::NonWord => |c: char| !alnum_s(c) && c != '\'',
        SepKind::SentenceMark => |c: char| c == '.' || c == '\n',
    }
}

pub fn is_sep(k: &SepKind, c: char) -> (r: bool)
    ensures
        r == sep_fn(*k)(c),
{
    match k {
        SepKind::Whitespace => is_whitespace(c),
        SepKind::Newline => c == '\n',
        SepKind::NonWord => !is_alphanumeric(c) && c != '\'',
        SepKind::SentenceMark => c == '.' || c == '\n',
    }
}

/// Split `s` at every separator of kind `k`; the spans of the pieces,
/// empty pieces included.
pub fn split_spans(s: &Vec<char>, k: &SepKind) -> (r: Vec<Span>)
    ensures
        spans_in(s@, r@),
        r@.len() >= 1,
        span_texts(s@, r@) == split_pieces(s@, sep_fn(*k)),
{
    let ghost sep = sep_fn(*k);
    let mut out: Vec<Span> = Vec::new();
    let mut start: usize = 0;
    let mut i: usize = 0;
    proof {
        assert(s@.take(0) =~= Seq::<char>::empty());
        assert(span_texts(s@, out@).push(s@.subrange(0, 0)) =~= seq![Seq::<char>::empty()]);
    }
    while i < s.len()
        invariant
            0 <= start <= i <= s@.len(),
            sep == sep_fn(*k),
            spans_in(s@, out@),
            forall|j: int| 0 <= j < out@.len() ==> (#[trigger] out@[j]).hi <= start,
            span_texts(s@, out@).push(s@.subrange(start as int, i as int)) == split_pieces(
                s@.take(i as int),
                sep,
            ),
        decreases s.len() - i,
    {
        let ghost prev = span_texts(s@, out@);
        proof {
            assert(s@.take(i + 1).drop_last() =~= s@.take(i as int));
            assert(s@.take(i + 1).last() == s@[i as int]);
        }
        if is_sep(k, s[i]) {
            out.push(Span { lo: start, hi: i });
            proof {
                assert(span_texts(s@, out@) =~= prev.push(s@.subrange(start as int, i as int)));
                assert(s@.subrange((i + 1) as int, (i + 1) as int) =~= Seq::<char>::empty());
            }
            start = i + 1;
        } else {
            proof {
                assert(s@.subrange(start as int, i + 1) =~= s@.subrange(start as int, i as int).push(
                    s@[i as int],
                ));
                assert(prev.push(s@.subrange(start as int, i + 1)) =~= prev.push(
                    s@.subrange(start as int, i as int),
                ).update(prev.len() as int, s@.subrange(start as int, i as int).push(s@[i as int])));
            }
        }
        i = i + 1;
    }
    let ghost prev = span_texts(s@, out@);
    out.push(Span { lo: start, hi: s.len() });
    proof {
        assert(s@.take(s@.len() as int) =~= s@);
        assert(span_texts(s@, out@) =~= prev.push(s@.subrange(start as int, s@.len() as int)));
    }
    out
}


// ---------------------------------------------------------------------------
// Copies, comparisons, numbers
// ---------------------------------------------------------------------------

/// A copy of `s[lo..hi]`.
pub fn copy_range(s: &Vec<char>, lo: usize, hi: usize) -> (r: Vec<char>)
    requires
        lo <= hi <= s@.len(),
    ensures
        r@ == s@.subrange(lo as int, hi as int),
{
    let mut r: Vec<char> = Vec::new();
    let mut i = lo;
    while i < hi
        invariant
            lo <= i <= hi <= s@.len(),
            r@ == s@.subrange(lo as int, i as int),
        decreases hi - i,
    {
        r.push(s[i]);
        proof {
            assert(r@ =~= s@.subrange(lo as int, i + 1));
        }
        i = i + 1;
    }
    r
}

/// Equality of two character vectors.
pub fn chars_eq(a: &Vec<char>, b: &Vec<char>) -> (r: bool)
    ensures
        r == (a@ == b@),
{
    let r = range_eq(a, 0, a.len(), b);
    proof {
        assert(a@.subrange(0, a@.len() as int) =~= a@);
    }
    r
}

/// Equality of a character vector and a string slice.
pub fn chars_eq_str(a: &Vec<char>, b: &str) -> (r: bool)
    ensures
        r == (a@ == b@),
{
    let bv = chars_of(b);
    chars_eq(a, &bv)
}

/// Append the characters of `b` to `a`.
pub fn push_str(a: &mut Vec<char>, b: &str)
    ensures
        final(a)@ == old(a)@ + b@,
{
    let mut bv = chars_of(b);
    a.append(&mut bv);
}

/// Append the characters of `b` to `a`.
pub fn push_chars(a: &mut Vec<char>, b: &Vec<char>)
    ensures
        final(a)@ == old(a)@ + b@,
{
    let mut i: usize = 0;
    let ghost a0 = a@;
    while i < b.len()
        invariant
            0 <= i <= b@.len(),
            a@ == a0 + b@.take(i as int),
        decreases b.len() - i,
    {
        a.push(b[i]);
        proof {
            assert(a@ =~= a0 + b@.take(i + 1));
        }
        i = i + 1;
    }
    proof {
        assert(b@.take(b@.len() as int) =~= b@);
    }
}

/// `chars().take(n)`: at most the first `n` characters.
pub open spec fn take_s(s: Seq<char>, n: nat) -> Seq<char> {
    if s.len() <= n {
        s
    } else {
        s.take(n as int)
    }
}

/// Join texts with a separator.
pub open spec fn join_s(parts: Seq<Seq<char>>, sep: Seq<char>) -> Seq<char>
    decreases parts.len(),
{
    if parts.len() == 0 {
        Seq::empty()
    } else if parts.len() == 1 {
        parts[0]
    } else {
        join_s(parts.drop_last(), sep) + sep + parts.last()
    }
}

/// `parts.join(sep)`.
pub fn join(parts: &Vec<Vec<char>>, sep: &str) -> (r: Vec<char>)
    ensures
        r@ == join_s(parts@.map_values(|p: Vec<char>| p@), sep@),
{
    let ghost ps = parts@.map_values(|p: Vec<char>| p@);
    let mut r: Vec<char> = Vec::new();
    let mut i: usize = 0;
    while i < parts.len()
        invariant
            0 <= i <= parts@.len(),
            ps == parts@.map_values(|p: Vec<char>| p@),
            r@ == join_s(ps.take(i as int), sep@),
        decreases parts.len() - i,
    {
        proof {
            assert(ps.take(i + 1).drop_last() =~= ps.take(i as int));
        }
        if i > 0 {
            push_str(&mut r, sep);
        }
        push_chars(&mut r, &parts[i]);
        proof {
            if i == 0 {
                assert(r@ =~= ps.take(1)[0]);
            }
        }
        i = i + 1;
    }
    proof {
        assert(ps.take(parts@.len() as int) =~= ps);
    }
    r
}

/// The first `n` characters of `s[lo..hi]` (all of them when there are fewer).
pub fn take_range(s: &Vec<char>, lo: usize, hi: usize, n: usize) -> (r: Vec<char>)
    requires
        lo <= hi <= s@.len(),
    ensures
        r@ == take_s(s@.subrange(lo as int, hi as int), n as nat),
{
    if hi - lo <= n {
        copy_range(s, lo, hi)
    } else {
        let r = copy_range(s, lo, lo + n);
        proof {
            assert(s@.subrange(lo as int, hi as int).take(n as int) =~= s@.subrange(
                lo as int,
                lo + n,
            ));
        }
        r
    }
}

/// The decimal digits of a natural number, as `u64::to_string` writes them.
pub open spec fn decimal_s(n: nat) -> Seq<char>
    decreases n,
{
    if n < 10 {
        seq![digit_char(n)]
    } else {
        decimal_s(n / 10).push(digit_char(n % 10))
    }
}

pub open spec fn digit_char(d: nat) -> char {
    if d == 0 {
        '0'
    } else if d == 1 {
        '1'
    } else if d == 2 {
        '2'
    } else if d == 3 {
        '3'
    } else if d == 4 {
        '4'
    } else if d == 5 {
        '5'
    } else if d == 6 {
        '6'
    } else if d == 7 {
        '7'
    } else if d == 8 {
        '8'
    } else {
        '9'
    }
}

fn digit(d: u64) -> (c: char)
    requires
        d < 10,
    ensures
        c == digit_char(d as nat),
{
    if d == 0 {
        '0'
    } else if d == 1 {
        '1'
    } else if d == 2 {
        '2'
    } else if d == 3 {
        '3'
    } else if d == 4 {
        '4'
    } else if d == 5 {
        '5'
    } else if d == 6 {
        '6'
    } else if d == 7 {
        '7'
    } else if d == 8 {
        '8'
    } else {
        '9'
    }
}

/// The decimal text of a signed integer, with a leading `-` when negative.
pub open spec fn signed_decimal_s(i: int) -> Seq<char> {
    if i < 0 {
        seq!['-'] + decimal_s((-i) as nat)
    } else {
        decimal_s(i as nat)
    }
}

/// The decimal text of `n` (`i64::to_string`).
pub fn signed_decimal(n: i64) -> (r: Vec<char>)
    ensures
        r@ == signed_decimal_s(n as int),
{
    if n < 0 {
        let m: u64 = ((-(n + 1)) as u64) + 1;
        let mut r: Vec<char> = Vec::new();
        r.push('-');
        let d = decimal(m);
        push_chars(&mut r, &d);
        proof {
            assert(r@ =~= seq!['-'] + decimal_s((-n) as nat));
        }
        r
    } else {
        decimal(n as u64)
    }
}

/// The decimal text of `n`.
pub fn decimal(n: u64) -> (r: Vec<char>)
    ensures
        r@ == decimal_s(n as nat),
    decreases n,
{
    if n < 10 {
        let mut r: Vec<char> = Vec::new();
        r.push(digit(n));
        proof {
            assert(r@ =~= seq![digit_char(n as nat)]);
        }
        r
    } else {
        let mut r = decimal(n / 10);
        r.push(digit(n % 10));
        r
    }
}

} // verus!
