//! Detection of compound memories: content that holds several topics and
//! should be split into atomic memories.

use vstd::prelude::*;
use crate::cross_reference::{contains_any, contains_any_s};
use crate::text::{
    alnum_s, chars_of, contains, contains_s, copy_range, is_alphanumeric, is_ascii_digit,
    is_ascii_digit_s, join, join_s, lowercase, sep_fn, span_texts, spans_in, split_pieces,
    split_spans, starts_with_s, string_of, to_lowercase, trim_range, trim_s, utf8_len,
    utf8_len_range, SepKind, Span, starts_with_in,
};

verus! {

broadcast use vstd::string::group_string_axioms;

/// Content shorter than this many bytes is always atomic.
pub const COMPOUND_MIN_BYTES: usize = 300;

/// How many elements of `s` satisfy `p`.
pub open spec fn count_s(s: Seq<Seq<char>>, p: spec_fn(Seq<char>) -> bool) -> nat
    decreases s.len(),
{
    if s.len() == 0 {
        0
    } else {
        count_s(s.drop_last(), p) + if p(s.last()) {
            1nat
        } else {
            0nat
        }
    }
}

/// A trailing carriage return removed.
pub open spec fn strip_cr(s: Seq<char>) -> Seq<char> {
    if s.len() > 0 && s.last() == '\r' {
        s.drop_last()
    } else {
        s
    }
}

/// `str::lines`: the pieces between newlines, a carriage return before a
/// newline dropped, and no final empty line after a trailing newline.
pub open spec fn lines_s(s: Seq<char>) -> Seq<Seq<char>> {
    let pieces = split_pieces(s, sep_fn(SepKind::Newline));
    let n = pieces.len();
    let body = Seq::new((n - 1) as nat, |i: int| strip_cr(pieces[i]));
    if pieces[n - 1].len() == 0 {
        body
    } else {
        body.push(pieces[n - 1])
    }
}

/// First index at or after `k` where a blank line (`"\n\n"`) starts.
pub open spec fn blank_from(t: Seq<char>, k: int) -> Option<int>
    decreases t.len() - k,
{
    if k < 0 || k + 1 >= t.len() {
        None
    } else if t[k] == '\n' && t[k + 1] == '\n' {
        Some(k)
    } else {
        blank_from(t, k + 1)
    }
}

/// `str::split("\n\n")`: the paragraphs of a text.
pub open spec fn paragraphs_s(t: Seq<char>) -> Seq<Seq<char>>
    decreases t.len(),
{
    match blank_from(t, 0) {
        Some(i) => if 0 <= i && i + 2 <= t.len() {
            seq![t.take(i)] + paragraphs_s(t.skip(i + 2))
        } else {
            seq![t]
        },
        None => seq![t],
    }
}

/// A paragraph with more than 30 bytes of trimmed text.
pub open spec fn substantial(p: Seq<char>) -> bool {
    utf8_len(trim_s(p)) > 30
}

/// First index of `c` in `t`.
pub open spec fn index_of_from(t: Seq<char>, c: char, k: int) -> Option<int>
    decreases t.len() - k,
{
    if k < 0 || k >= t.len() {
        None
    } else if t[k] == c {
        Some(k)
    } else {
        index_of_from(t, c, k + 1)
    }
}

pub open spec fn name_char(c: char) -> bool {
    alnum_s(c) || c == ' ' || c == '-' || c == '_'
}

/// A line that reads like `Speaker: text`: a name of name characters that
/// ends before byte 40 at the first colon, followed by more than five bytes.
pub open spec fn speaker_line(l: Seq<char>) -> bool {
    let t = trim_s(l);
    match index_of_from(t, ':', 0) {
        Some(ci) => {
            let colon_pos = utf8_len(t.take(ci));
            &&& colon_pos < 40
            &&& ci > 0
            &&& forall|k: int| 0 <= k < ci ==> name_char(#[trigger] t[k])
            &&& utf8_len(t) > colon_pos + 5
        },
        None => false,
    }
}

/// A line that reads like a list item: `- `, `* ` or `• `, or a leading digit
/// with `. ` or `) ` in a line of more than three bytes.
pub open spec fn bullet_line(l: Seq<char>) -> bool {
    let t = trim_s(l);
    ||| starts_with_s(t, "- "@)
    ||| starts_with_s(t, "* "@)
    ||| starts_with_s(t, "\u{2022} "@)
    ||| (utf8_len(t) > 3 && t.len() > 0 && is_ascii_digit_s(t[0]) && (contains_s(t, ". "@)
        || contains_s(t, ") "@)))
}

/// Phrases that change the subject.
pub open spec fn topic_shift_phrases() -> Seq<&'static str> {
    seq![
        "also,",
        "additionally,",
        "on another note",
        "separately,",
        "moving on",
        "another thing",
        "by the way",
        "btw,",
        "oh and",
        "also worth noting",
        "furthermore,",
    ]
}

pub open spec fn topic_shift_line(l: Seq<char>) -> bool {
    contains_any_s(lowercase(l), topic_shift_phrases())
}

pub open spec fn substantial_pred() -> spec_fn(Seq<char>) -> bool {
    |p: Seq<char>| substantial(p)
}

pub open spec fn speaker_pred() -> spec_fn(Seq<char>) -> bool {
    |l: Seq<char>| speaker_line(l)
}

pub open spec fn bullet_pred() -> spec_fn(Seq<char>) -> bool {
    |l: Seq<char>| bullet_line(l)
}

pub open spec fn topic_shift_pred() -> spec_fn(Seq<char>) -> bool {
    |l: Seq<char>| topic_shift_line(l)
}

/// The reasons a content reads as compound, in order.
pub open spec fn compound_signals(s: Seq<char>) -> Seq<Seq<char>> {
    let lines = lines_s(s);
    let s1: Seq<Seq<char>> = if count_s(paragraphs_s(s), substantial_pred()) >= 3 {
        seq!["multiple paragraphs"@]
    } else {
        seq![]
    };
    let s2 = if count_s(lines, speaker_pred()) >= 3 {
        s1.push("conversation transcript"@)
    } else {
        s1
    };
    let s3 = if count_s(lines, bullet_pred()) >= 4 {
        s2.push("multi-item list"@)
    } else {
        s2
    };
    if count_s(lines, topic_shift_pred()) >= 2 {
        s3.push("topic-shift phrases"@)
    } else {
        s3
    }
}

/// Why a memory's content looks compound, or `None` when it looks atomic:
/// content under 300 bytes is atomic; otherwise the reasons found, joined
/// with `", "`.
pub open spec fn compound_reason_s(s: Seq<char>) -> Option<Seq<char>> {
    if utf8_len(s) < COMPOUND_MIN_BYTES {
        None
    } else if compound_signals(s).len() == 0 {
        None
    } else {
        Some(join_s(compound_signals(s), ", "@))
    }
}


/// Content under 300 bytes is atomic, whatever it says; and content judged
/// compound is always given a reason.
pub proof fn law_short_content_is_atomic(s: Seq<char>)
    ensures
        utf8_len(s) < COMPOUND_MIN_BYTES ==> compound_reason_s(s) is None,
        compound_reason_s(s) matches Some(reason) ==> reason.len() > 0,
{
    let parts = compound_signals(s);
    if compound_reason_s(s) is Some {
        reveal_strlit("multiple paragraphs");
        reveal_strlit("conversation transcript");
        reveal_strlit("multi-item list");
        reveal_strlit("topic-shift phrases");
        assert(parts.last().len() > 0);
        if parts.len() == 1 {
            assert(parts[0] == parts.last());
        }
    }
}

/// The reasons a compound memory can be given, in the order they are listed.
pub open spec fn picked_reasons(paragraphs: bool, transcript: bool, list: bool, shifts: bool) -> Seq<Seq<char>> {
    (if paragraphs { seq!["multiple paragraphs"@] } else { Seq::empty() })
        + (if transcript { seq!["conversation transcript"@] } else { Seq::empty() })
        + (if list { seq!["multi-item list"@] } else { Seq::empty() })
        + (if shifts { seq!["topic-shift phrases"@] } else { Seq::empty() })
}

/// A compound memory's reason is the `", "`-join of some of the four
/// reasons, at least one, always in the order multiple paragraphs,
/// conversation transcript, multi-item list, topic-shift phrases.
pub proof fn law_compound_reasons_come_in_order(s: Seq<char>)
    ensures
        compound_reason_s(s) matches Some(reason) ==> exists|a: bool, b: bool, c: bool, d: bool|
            (a || b || c || d) && #[trigger] picked_reasons(a, b, c, d).len() > 0
                && reason == join_s(picked_reasons(a, b, c, d), ", "@),
{
    if compound_reason_s(s) is Some {
        let lines = lines_s(s);
        let a = count_s(paragraphs_s(s), substantial_pred()) >= 3;
        let b = count_s(lines, speaker_pred()) >= 3;
        let c = count_s(lines, bullet_pred()) >= 4;
        let d = count_s(lines, topic_shift_pred()) >= 2;
        assert(compound_signals(s) =~= picked_reasons(a, b, c, d));
        assert(a || b || c || d);
    }
}

/// A numbered list item: a trimmed line of more than three bytes that
/// starts with an ASCII digit and holds ". " or ") " (`1. …`, `2) …`).
pub open spec fn numbered_item(l: Seq<char>) -> bool {
    let t = trim_s(l);
    &&& utf8_len(t) > 3
    &&& t.len() > 0
    &&& '0' <= t[0] && t[0] <= '9'
    &&& (contains_s(t, ". "@) || contains_s(t, ") "@))
}

proof fn lemma_count_take_step(s: Seq<Seq<char>>, p: spec_fn(Seq<char>) -> bool, k: int)
    requires
        0 <= k < s.len(),
    ensures
        count_s(s.take(k + 1), p) == count_s(s.take(k), p) + if p(s[k]) { 1nat } else { 0nat },
{
    assert(s.take(k + 1).drop_last() =~= s.take(k));
    assert(s.take(k + 1).last() == s[k]);
}

proof fn lemma_count_take_mono(s: Seq<Seq<char>>, p: spec_fn(Seq<char>) -> bool, i: int, j: int)
    requires
        0 <= i <= j <= s.len(),
    ensures
        count_s(s.take(i), p) <= count_s(s.take(j), p),
    decreases j - i,
{
    if i < j {
        lemma_count_take_mono(s, p, i, j - 1);
        lemma_count_take_step(s, p, j - 1);
    }
}

/// Bulleted and numbered lines are list items: a trimmed line starting with
/// "- ", "* " or "• ", and every numbered item, counts; so content of at
/// least 300 bytes with four numbered items among its lines is compound, and
/// "multi-item list" is among its reasons.
pub proof fn law_numbered_lines_are_list_items(
    s: Seq<char>,
    l: Seq<char>,
    i: int,
    j: int,
    k: int,
    m: int,
)
    ensures
        numbered_item(l) ==> bullet_line(l),
        starts_with_s(trim_s(l), "- "@) || starts_with_s(trim_s(l), "* "@) || starts_with_s(
            trim_s(l),
            "\u{2022} "@,
        ) ==> bullet_line(l),
        utf8_len(s) >= 300 && 0 <= i < j < k < m < lines_s(s).len() && numbered_item(lines_s(s)[i])
            && numbered_item(lines_s(s)[j]) && numbered_item(lines_s(s)[k]) && numbered_item(
            lines_s(s)[m],
        ) ==> compound_reason_s(s) is Some && compound_signals(s).contains("multi-item list"@),
{
    let lines = lines_s(s);
    if utf8_len(s) >= 300 && 0 <= i < j < k < m < lines.len() && numbered_item(lines[i]) && numbered_item(
        lines[j],
    ) && numbered_item(lines[k]) && numbered_item(lines[m]) {
        let p = bullet_pred();
        assert(p(lines[i]) && p(lines[j]) && p(lines[k]) && p(lines[m]));
        lemma_count_take_mono(lines, p, 0, i);
        lemma_count_take_step(lines, p, i);
        lemma_count_take_mono(lines, p, i + 1, j);
        lemma_count_take_step(lines, p, j);
        lemma_count_take_mono(lines, p, j + 1, k);
        lemma_count_take_step(lines, p, k);
        lemma_count_take_mono(lines, p, k + 1, m);
        lemma_count_take_step(lines, p, m);
        lemma_count_take_mono(lines, p, m + 1, lines.len() as int);
        assert(lines.take(lines.len() as int) =~= lines);
        assert(count_s(lines, p) >= 4);
        let sig = compound_signals(s);
        assert(sig.contains("multi-item list"@)) by {
            let s2len = if count_s(lines, speaker_pred()) >= 3 { 1int } else { 0int } + if count_s(
                paragraphs_s(s),
                substantial_pred(),
            ) >= 3 {
                1int
            } else {
                0int
            };
            assert(sig[s2len] == "multi-item list"@);
        }
    }
}

proof fn lemma_count_at_least(s: Seq<Seq<char>>, p: spec_fn(Seq<char>) -> bool, idx: Seq<int>)
    requires
        forall|a: int, b: int| 0 <= a < b < idx.len() ==> idx[a] < idx[b],
        forall|a: int| 0 <= a < idx.len() ==> 0 <= #[trigger] idx[a] < s.len() && p(s[idx[a]]),
    ensures
        idx.len() > 0 ==> count_s(s.take(idx.last() + 1), p) >= idx.len(),
        count_s(s, p) >= idx.len(),
    decreases idx.len(),
{
    if idx.len() > 0 {
        let rest = idx.drop_last();
        lemma_count_at_least(s, p, rest);
        let m = idx.last();
        lemma_count_take_step(s, p, m);
        if rest.len() > 0 {
            assert(rest.last() == idx[idx.len() - 2]);
            lemma_count_take_mono(s, p, rest.last() + 1, m);
        }
        lemma_count_take_mono(s, p, m + 1, s.len() as int);
        assert(s.take(s.len() as int) =~= s);
    } else {
        assert(count_s(s, p) >= 0);
    }
}

/// The thresholds of the other reasons: content of at least 300 bytes with
/// three conversation lines (`Name: text`) is a transcript, with two lines
/// that change the subject shows topic-shift phrases, and with three
/// substantial paragraphs (over 30 bytes each, trimmed) has multiple
/// paragraphs.
pub proof fn law_reason_thresholds(s: Seq<char>, i: int, j: int, k: int)
    requires
        utf8_len(s) >= 300,
        0 <= i < j < k,
    ensures
        k < lines_s(s).len() && speaker_line(lines_s(s)[i]) && speaker_line(lines_s(s)[j])
            && speaker_line(lines_s(s)[k]) ==> compound_reason_s(s) is Some
            && compound_signals(s).contains("conversation transcript"@),
        j < lines_s(s).len() && topic_shift_line(lines_s(s)[i]) && topic_shift_line(lines_s(s)[j])
            ==> compound_reason_s(s) is Some && compound_signals(s).contains("topic-shift phrases"@),
        k < paragraphs_s(s).len() && substantial(paragraphs_s(s)[i]) && substantial(paragraphs_s(s)[j])
            && substantial(paragraphs_s(s)[k]) ==> compound_reason_s(s) is Some
            && compound_signals(s).contains("multiple paragraphs"@),
{
    let lines = lines_s(s);
    let paras = paragraphs_s(s);
    let a = count_s(paras, substantial_pred()) >= 3;
    let b = count_s(lines, speaker_pred()) >= 3;
    let c = count_s(lines, bullet_pred()) >= 4;
    let d = count_s(lines, topic_shift_pred()) >= 2;
    let sig = compound_signals(s);
    if k < lines.len() && speaker_line(lines[i]) && speaker_line(lines[j]) && speaker_line(lines[k]) {
        lemma_count_at_least(lines, speaker_pred(), seq![i, j, k]);
        let at = if a { 1int } else { 0int };
        assert(sig[at] == "conversation transcript"@);
    }
    if j < lines.len() && topic_shift_line(lines[i]) && topic_shift_line(lines[j]) {
        lemma_count_at_least(lines, topic_shift_pred(), seq![i, j]);
        let at = (if a { 1int } else { 0int }) + (if b { 1int } else { 0int }) + (if c { 1int } else { 0int });
        assert(sig[at] == "topic-shift phrases"@);
    }
    if k < paras.len() && substantial(paras[i]) && substantial(paras[j]) && substantial(paras[k]) {
        lemma_count_at_least(paras, substantial_pred(), seq![i, j, k]);
        assert(sig[0] == "multiple paragraphs"@);
    }
}

pub open spec fn views(l: Seq<Vec<char>>) -> Seq<Seq<char>> {
    l.map_values(|v: Vec<char>| v@)
}

/// The lines of a text (`str::lines`).
pub fn line_list(s: &Vec<char>) -> (r: Vec<Vec<char>>)
    ensures
        views(r@) == lines_s(s@),
{
    let spans = split_spans(s, &SepKind::Newline);
    let ghost pieces = split_pieces(s@, sep_fn(SepKind::Newline));
    let n = spans.len();
    let mut out: Vec<Vec<char>> = Vec::new();
    let mut i: usize = 0;
    while i + 1 < n
        invariant
            0 <= i <= n - 1,
            n == spans@.len(),
            n >= 1,
            spans_in(s@, spans@),
            span_texts(s@, spans@) == pieces,
            views(out@) == Seq::new(i as nat, |k: int| strip_cr(pieces[k])),
        decreases n - i,
    {
        let lo = spans[i].lo;
        let mut hi = spans[i].hi;
        let ghost orig = s@.subrange(lo as int, hi as int);
        proof {
            assert(pieces[i as int] == orig);
        }
        if hi > lo && s[hi - 1] == '\r' {
            proof {
                assert(s@.subrange(lo as int, hi as int).drop_last() =~= s@.subrange(
                    lo as int,
                    hi - 1,
                ));
            }
            hi = hi - 1;
        }
        proof {
            assert(s@.subrange(lo as int, hi as int) == strip_cr(orig));
        }
        let line = copy_range(s, lo, hi);
        let ghost before = views(out@);
        let ghost lv = line@;
        out.push(line);
        proof {
            assert(views(out@) =~= before.push(lv));
            assert(views(out@) =~= Seq::new((i + 1) as nat, |k: int| strip_cr(pieces[k])));
        }
        i = i + 1;
    }
    let lo = spans[n - 1].lo;
    let hi = spans[n - 1].hi;
    proof {
        assert(pieces[n - 1] == s@.subrange(lo as int, hi as int));
        assert(Seq::new((n - 1) as nat, |k: int| strip_cr(pieces[k])) =~= Seq::new(
            (pieces.len() - 1) as nat,
            |k: int| strip_cr(pieces[k]),
        ));
    }
    if hi > lo {
        let ghost before = views(out@);
        out.push(copy_range(s, lo, hi));
        proof {
            assert(views(out@) =~= before.push(pieces[n - 1]));
        }
    }
    out
}

proof fn lemma_blank_from(t: Seq<char>, k: int)
    requires
        0 <= k,
    ensures
        blank_from(t, k) matches Some(i) ==> k <= i && i + 1 < t.len() && t[i] == '\n' && t[i
            + 1] == '\n',
    decreases t.len() - k,
{
    if k + 1 < t.len() && !(t[k] == '\n' && t[k + 1] == '\n') {
        lemma_blank_from(t, k + 1);
    }
}

/// The paragraphs of a text (`str::split("\n\n")`).
pub fn paragraph_list(s: &Vec<char>) -> (r: Vec<Vec<char>>)
    ensures
        views(r@) == paragraphs_s(s@),
{
    let n = s.len();
    let mut out: Vec<Vec<char>> = Vec::new();
    let mut start: usize = 0;
    let mut i: usize = 0;
    proof {
        assert(s@.skip(0) =~= s@);
        assert(views(out@) =~= Seq::<Seq<char>>::empty());
        assert(Seq::<Seq<char>>::empty() + paragraphs_s(s@) =~= paragraphs_s(s@));
    }
    while i < n && i < n - 1
        invariant
            0 <= start <= i <= n,
            n == s@.len(),
            views(out@) + paragraphs_s(s@.skip(start as int)) == paragraphs_s(s@),
            blank_from(s@.skip(start as int), 0) == blank_from(
                s@.skip(start as int),
                i - start,
            ),
        decreases n - i,
    {
        let ghost t = s@.skip(start as int);
        if s[i] == '\n' && s[i + 1] == '\n' {
            proof {
                assert(t[i - start] == '\n' && t[i - start + 1] == '\n');
                assert(blank_from(t, i - start) == Some(i - start));
                assert(t.take(i - start) =~= s@.subrange(start as int, i as int));
                assert(t.skip(i - start + 2) =~= s@.skip(i + 2));
            }
            let ghost before = views(out@);
            out.push(copy_range(s, start, i));
            proof {
                assert(views(out@) =~= before.push(s@.subrange(start as int, i as int)));
                assert(paragraphs_s(t) == seq![t.take(i - start)] + paragraphs_s(
                    t.skip(i - start + 2),
                ));
                assert(views(out@) + paragraphs_s(s@.skip(i + 2)) =~= before + paragraphs_s(t));
                assert(s@.skip(i + 2).skip(0) =~= s@.skip(i + 2));
            }
            start = i + 2;
            i = i + 2;
        } else {
            i = i + 1;
        }
    }
    proof {
        let t = s@.skip(start as int);
        assert(blank_from(t, i - start) is None);
        assert(paragraphs_s(t) == seq![t]);
        assert(t =~= s@.subrange(start as int, n as int));
    }
    let ghost before = views(out@);
    out.push(copy_range(s, start, n));
    proof {
        assert(views(out@) =~= before.push(s@.subrange(start as int, n as int)));
        assert(views(out@) =~= before + seq![s@.skip(start as int)]);
    }
    out
}


/// `min(utf8_len(s[lo..hi]), cap + 1)`.
fn utf8_len_upto(s: &Vec<char>, lo: usize, hi: usize, cap: usize) -> (r: usize)
    requires
        lo <= hi <= s@.len(),
        cap <= 1_000_000,
    ensures
        r == if utf8_len(s@.subrange(lo as int, hi as int)) <= cap {
            utf8_len(s@.subrange(lo as int, hi as int))
        } else {
            (cap + 1) as nat
        },
{
    let mut n: usize = 0;
    let mut i = lo;
    while i < hi
        invariant
            lo <= i <= hi <= s@.len(),
            cap <= 1_000_000,
            n == utf8_len(s@.subrange(lo as int, i as int)),
            n <= cap,
        decreases hi - i,
    {
        proof {
            assert(s@.subrange(lo as int, i + 1).drop_last() =~= s@.subrange(lo as int, i as int));
        }
        let w = crate::text::char_len_utf8(s[i]);
        if n + w > cap {
            proof {
                crate::text::lemma_utf8_len_concat(
                    s@.subrange(lo as int, i + 1),
                    s@.subrange(i + 1, hi as int),
                );
                assert(s@.subrange(lo as int, i + 1) + s@.subrange(i + 1, hi as int) =~= s@.subrange(
                    lo as int,
                    hi as int,
                ));
            }
            return cap + 1;
        }
        n = n + w;
        i = i + 1;
    }
    n
}

proof fn lemma_index_of_from(t: Seq<char>, c: char, k: int)
    requires
        0 <= k,
    ensures
        index_of_from(t, c, k) matches Some(i) ==> k <= i < t.len() && t[i] == c && forall|j: int|
            k <= j < i ==> t[j] != c,
        index_of_from(t, c, k) is None ==> forall|j: int| k <= j < t.len() ==> t[j] != c,
    decreases t.len() - k,
{
    if k < t.len() && t[k] != c {
        lemma_index_of_from(t, c, k + 1);
    }
}

fn all_name_chars(l: &Vec<char>, a: usize, k: usize) -> (r: bool)
    requires
        a <= k <= l@.len(),
    ensures
        r == forall|m: int| a <= m < k ==> name_char(#[trigger] l@[m]),
{
    let mut j = a;
    while j < k
        invariant
            a <= j <= k <= l@.len(),
            forall|m: int| a <= m < j ==> name_char(#[trigger] l@[m]),
        decreases k - j,
    {
        let c = l[j];
        if !(is_alphanumeric(c) || c == ' ' || c == '-' || c == '_') {
            return false;
        }
        j = j + 1;
    }
    true
}

fn is_speaker_line(l: &Vec<char>) -> (r: bool)
    ensures
        r == speaker_line(l@),
{
    let (a, b) = trim_range(l, 0, l.len());
    proof {
        assert(l@.subrange(0, l@.len() as int) =~= l@);
    }
    let ghost t = l@.subrange(a as int, b as int);
    let mut k = a;
    while k < b && l[k] != ':'
        invariant
            a <= k <= b <= l@.len(),
            t == l@.subrange(a as int, b as int),
            index_of_from(t, ':', 0) == index_of_from(t, ':', k - a),
        decreases b - k,
    {
        k = k + 1;
    }
    if k == b {
        return false;
    }
    proof {
        assert(index_of_from(t, ':', k - a) == Some(k - a));
        assert(t.take(k - a) =~= l@.subrange(a as int, k as int));
    }
    let colon_pos = utf8_len_upto(l, a, k, 40);
    if colon_pos >= 40 {
        return false;
    }
    if k == a {
        return false;
    }
    let all_names = all_name_chars(l, a, k);
    proof {
        if all_names {
            assert forall|m: int| 0 <= m < k - a implies name_char(#[trigger] t[m]) by {
                assert(t[m] == l@[a + m]);
            }
        } else {
            let m = choose|m: int| a <= m < k && !name_char(#[trigger] l@[m]);
            assert(t[m - a] == l@[m]);
        }
    }
    if !all_names {
        return false;
    }
    crate::cross_reference::utf8_len_exceeds(l, a, b, colon_pos + 5)
}

fn is_bullet_line(l: &Vec<char>) -> (r: bool)
    ensures
        r == bullet_line(l@),
{
    let (a, b) = trim_range(l, 0, l.len());
    proof {
        assert(l@.subrange(0, l@.len() as int) =~= l@);
    }
    if starts_with_in(l, a, b, "- ") || starts_with_in(l, a, b, "* ") || starts_with_in(
        l,
        a,
        b,
        "\u{2022} ",
    ) {
        return true;
    }
    if !crate::cross_reference::utf8_len_exceeds(l, a, b, 3) {
        return false;
    }
    if a == b {
        return false;
    }
    if !is_ascii_digit(l[a]) {
        return false;
    }
    let dot = chars_of(". ");
    let paren = chars_of(") ");
    crate::text::contains_in(l, a, b, &dot) || crate::text::contains_in(l, a, b, &paren)
}

fn is_topic_shift_line(l: &Vec<char>) -> (r: bool)
    ensures
        r == topic_shift_line(l@),
{
    let lower = to_lowercase(l.as_slice());
    let phrases: [&'static str; 11] = [
        "also,",
        "additionally,",
        "on another note",
        "separately,",
        "moving on",
        "another thing",
        "by the way",
        "btw,",
        "oh and",
        "also worth noting",
        "furthermore,",
    ];
    proof {
        assert(phrases@ =~= topic_shift_phrases());
    }
    contains_any(&lower, &phrases)
}

/// The kinds of line and paragraph test [`detect_compound_content_reason`]
/// counts.
pub enum LineTest {
    Substantial,
    Speaker,
    Bullet,
    TopicShift,
}

pub open spec fn test_pred(t: LineTest) -> spec_fn(Seq<char>) -> bool {
    match t {
        LineTest::Substantial => substantial_pred(),
        LineTest::Speaker => speaker_pred(),
        LineTest::Bullet => bullet_pred(),
        LineTest::TopicShift => topic_shift_pred(),
    }
}

fn is_substantial(p: &Vec<char>) -> (r: bool)
    ensures
        r == substantial(p@),
{
    let (a, b) = trim_range(p, 0, p.len());
    proof {
        assert(p@.subrange(0, p@.len() as int) =~= p@);
    }
    crate::cross_reference::utf8_len_exceeds(p, a, b, 30)
}

fn passes(t: &LineTest, l: &Vec<char>) -> (r: bool)
    ensures
        r == test_pred(*t)(l@),
{
    match t {
        LineTest::Substantial => is_substantial(l),
        LineTest::Speaker => is_speaker_line(l),
        LineTest::Bullet => is_bullet_line(l),
        LineTest::TopicShift => is_topic_shift_line(l),
    }
}

/// How many of the texts pass the test.
fn count_passing(items: &Vec<Vec<char>>, t: &LineTest) -> (r: usize)
    ensures
        r == count_s(views(items@), test_pred(*t)),
{
    let mut c: usize = 0;
    let mut i: usize = 0;
    while i < items.len()
        invariant
            0 <= i <= items@.len(),
            c <= i,
            c == count_s(views(items@).take(i as int), test_pred(*t)),
        decreases items.len() - i,
    {
        proof {
            assert(views(items@).take(i + 1).drop_last() =~= views(items@).take(i as int));
        }
        if passes(t, &items[i]) {
            c = c + 1;
        }
        i = i + 1;
    }
    proof {
        assert(views(items@).take(items@.len() as int) =~= views(items@));
    }
    c
}

/// Why a memory's content looks compound (several paragraphs, a
/// conversation transcript, a list of items, topic-shift phrases), or `None`
/// when it looks atomic. Content under 300 bytes is always atomic.
pub fn detect_compound_content_reason(content: &str) -> (r: Option<String>)
    ensures
        match r {
            Some(x) => compound_reason_s(content@) == Some(x@),
            None => compound_reason_s(content@) is None,
        },
{
    let s = chars_of(content);
    let long_enough = crate::cross_reference::utf8_len_exceeds(&s, 0, s.len(), COMPOUND_MIN_BYTES - 1);
    proof {
        assert(s@.subrange(0, s@.len() as int) =~= s@);
    }
    if !long_enough {
        return None;
    }
    let lines = line_list(&s);
    let paragraphs = paragraph_list(&s);
    let mut signals: Vec<Vec<char>> = Vec::new();
    if count_passing(&paragraphs, &LineTest::Substantial) >= 3 {
        signals.push(chars_of("multiple paragraphs"));
    }
    if count_passing(&lines, &LineTest::Speaker) >= 3 {
        signals.push(chars_of("conversation transcript"));
    }
    if count_passing(&lines, &LineTest::Bullet) >= 4 {
        signals.push(chars_of("multi-item list"));
    }
    if count_passing(&lines, &LineTest::TopicShift) >= 2 {
        signals.push(chars_of("topic-shift phrases"));
    }
    proof {
        assert(signals@.map_values(|p: Vec<char>| p@) =~= compound_signals(s@));
    }
    if signals.len() == 0 {
        return None;
    }
    let joined = join(&signals, ", ");
    Some(string_of(joined.as_slice()))
}

} // verus!
