//! Text reasoning behind the `deep_reference` tool: what a query asks for,
//! which words two memories share, and whether one contradicts the other.

use vstd::prelude::*;
use crate::text::{
    chars_eq, chars_eq_str, chars_of, contains, contains_s, copy_range, lowercase, range_eq,
    sep_fn, split_pieces, split_spans, span_texts, to_lowercase, utf8_len, SepKind, Span,
    char_len_utf8, trim_range, trim_s, take_range, take_s, join, join_s, push_str, push_chars,
    decimal, decimal_s, string_of, owned,
};
use crate::json::{array, entries_model, keys_of, new_entries, object, push_entry, Json, JsonV};
use crate::schema::{declared_args, names_of, required_args, schema_shape, ToolSchema};

verus! {

broadcast use vstd::string::group_string_axioms;

/// What a query is asking for.
#[derive(PartialEq, Eq, Structural, Clone, Copy, Debug)]
pub enum QueryIntent {
    FactCheck,
    Timeline,
    RootCause,
    Comparison,
    Synthesis,
}

impl QueryIntent {
    /// The wire name of the intent (its `Display` text).
    pub fn as_str(&self) -> (r: &'static str)
        ensures
            r@ == intent_name(*self),
    {
        match self {
            QueryIntent::FactCheck => "fact_check",
            QueryIntent::Timeline => "timeline",
            QueryIntent::RootCause => "root_cause",
            QueryIntent::Comparison => "comparison",
            QueryIntent::Synthesis => "synthesis",
        }
    }
}

pub open spec fn intent_name(i: QueryIntent) -> Seq<char> {
    match i {
        QueryIntent::FactCheck => "fact_check"@,
        QueryIntent::Timeline => "timeline"@,
        QueryIntent::RootCause => "root_cause"@,
        QueryIntent::Comparison => "comparison"@,
        QueryIntent::Synthesis => "synthesis"@,
    }
}

/// Phrases that mark a root-cause question.
pub open spec fn root_cause_phrases() -> Seq<&'static str> {
    seq!["why did", "root cause", "what caused", "because of", "reason for", "why is", "why was"]
}

/// Phrases that mark a timeline question.
pub open spec fn timeline_phrases() -> Seq<&'static str> {
    seq![
        "when did",
        "timeline",
        "history of",
        "over time",
        "how has",
        "evolution of",
        "sequence of",
    ]
}

/// Phrases that mark a comparison.
pub open spec fn comparison_phrases() -> Seq<&'static str> {
    seq!["differ", "compare", "versus", " vs ", "difference between", "changed from"]
}

/// Phrases that mark a fact check.
pub open spec fn fact_check_phrases() -> Seq<&'static str> {
    seq![
        "is it true",
        "did i",
        "was there",
        "verify",
        "confirm",
        "is this correct",
        "should i use",
        "should we",
    ]
}

/// Some phrase of the list occurs in `text`.
pub open spec fn contains_any_s(text: Seq<char>, phrases: Seq<&'static str>) -> bool {
    exists|i: int| 0 <= i < phrases.len() && contains_s(text, (#[trigger] phrases[i])@)
}

/// The intent of an already lowercased query: the first group (root cause,
/// timeline, comparison, fact check) with a phrase in it, else synthesis.
pub open spec fn intent_of_lower(q: Seq<char>) -> QueryIntent {
    if contains_any_s(q, root_cause_phrases()) {
        QueryIntent::RootCause
    } else if contains_any_s(q, timeline_phrases()) {
        QueryIntent::Timeline
    } else if contains_any_s(q, comparison_phrases()) {
        QueryIntent::Comparison
    } else if contains_any_s(q, fact_check_phrases()) {
        QueryIntent::FactCheck
    } else {
        QueryIntent::Synthesis
    }
}

/// Whether one of `phrases` occurs in `text`.
pub fn contains_any(text: &Vec<char>, phrases: &[&'static str]) -> (r: bool)
    ensures
        r == contains_any_s(text@, phrases@),
{
    let mut i: usize = 0;
    while i < phrases.len()
        invariant
            0 <= i <= phrases@.len(),
            forall|k: int| 0 <= k < i ==> !contains_s(text@, (#[trigger] phrases@[k])@),
        decreases phrases.len() - i,
    {
        if contains(text, phrases[i]) {
            return true;
        }
        i = i + 1;
    }
    false
}

/// Classify what a query asks for from the phrases it contains, compared
/// without regard to case.
pub fn classify_intent(query: &str) -> (r: QueryIntent)
    ensures
        r == intent_of_lower(lowercase(query@)),
{
    let raw = chars_of(query);
    let q = to_lowercase(raw.as_slice());
    let root: [&'static str; 7] = [
        "why did",
        "root cause",
        "what caused",
        "because of",
        "reason for",
        "why is",
        "why was",
    ];
    let timeline: [&'static str; 7] = [
        "when did",
        "timeline",
        "history of",
        "over time",
        "how has",
        "evolution of",
        "sequence of",
    ];
    let comparison: [&'static str; 6] = [
        "differ",
        "compare",
        "versus",
        " vs ",
        "difference between",
        "changed from",
    ];
    let fact: [&'static str; 8] = [
        "is it true",
        "did i",
        "was there",
        "verify",
        "confirm",
        "is this correct",
        "should i use",
        "should we",
    ];
    proof {
        assert(root@ =~= root_cause_phrases());
        assert(timeline@ =~= timeline_phrases());
        assert(comparison@ =~= comparison_phrases());
        assert(fact@ =~= fact_check_phrases());
    }
    if contains_any(&q, &root) {
        QueryIntent::RootCause
    } else if contains_any(&q, &timeline) {
        QueryIntent::Timeline
    } else if contains_any(&q, &comparison) {
        QueryIntent::Comparison
    } else if contains_any(&q, &fact) {
        QueryIntent::FactCheck
    } else {
        QueryIntent::Synthesis
    }
}


/// The argument schema of `cross_reference`, as published.
pub open spec fn schema_spec() -> JsonV {
    JsonV::Object(seq![
        ("type"@, JsonV::Str("object"@)),
        ("properties"@, JsonV::Object(seq![
            ("query"@, JsonV::Object(seq![
                ("type"@, JsonV::Str("string"@)),
                ("description"@, JsonV::Str("The question, claim, or topic to reason about across all memories"@)),
            ])),
            ("depth"@, JsonV::Object(seq![
                ("type"@, JsonV::Str("integer"@)),
                ("description"@, JsonV::Str("How many memories to analyze (default: 20, max: 50). Higher = more thorough."@)),
                ("default"@, JsonV::Int(20)),
                ("minimum"@, JsonV::Int(5)),
                ("maximum"@, JsonV::Int(50)),
            ])),
        ])),
        ("required"@, JsonV::Array(seq![
            JsonV::Str("query"@),
        ])),
    ])
}

/// The arguments of `deep_reference`: `query` is required.
pub fn schema() -> (r: Json)
    ensures
        r@ == schema_spec(),
        schema_shape(r@),
        declared_args(r@) == seq!["query"@, "depth"@],
        required_args(r@) == seq!["query"@],
{
    let mut props = new_entries();
    push_entry(&mut props, "query", {
        let mut e = new_entries();
        push_entry(&mut e, "type", Json::from_str("string"));
        push_entry(&mut e, "description", Json::from_str("The question, claim, or topic to reason about across all memories"));
        proof {
            assert(crate::json::entries_model(e@) =~= seq![
                ("type"@, JsonV::Str("string"@)),
                ("description"@, JsonV::Str("The question, claim, or topic to reason about across all memories"@)),
            ]);
        }
        object(e)
    });
    push_entry(&mut props, "depth", {
        let mut e = new_entries();
        push_entry(&mut e, "type", Json::from_str("integer"));
        push_entry(&mut e, "description", Json::from_str("How many memories to analyze (default: 20, max: 50). Higher = more thorough."));
        push_entry(&mut e, "default", Json::Int(20));
        push_entry(&mut e, "minimum", Json::Int(5));
        push_entry(&mut e, "maximum", Json::Int(50));
        proof {
            assert(crate::json::entries_model(e@) =~= seq![
                ("type"@, JsonV::Str("integer"@)),
                ("description"@, JsonV::Str("How many memories to analyze (default: 20, max: 50). Higher = more thorough."@)),
                ("default"@, JsonV::Int(20)),
                ("minimum"@, JsonV::Int(5)),
                ("maximum"@, JsonV::Int(50)),
            ]);
        }
        object(e)
    });
    let mut required: Vec<String> = Vec::new();
    required.push(owned("query"));
    let extra = new_entries();
    proof {
        assert(keys_of(entries_model(props@)) =~= seq!["query"@, "depth"@]);
        assert(names_of(required@) =~= seq!["query"@]);
        assert(keys_of(entries_model(props@))[0] == "query"@);
    }
    let s = ToolSchema { properties: props, required, extra };
    proof {
        assert(crate::json::entries_model(s.properties@) =~= seq![
            ("query"@, JsonV::Object(seq![
                ("type"@, JsonV::Str("string"@)),
                ("description"@, JsonV::Str("The question, claim, or topic to reason about across all memories"@)),
            ])),
            ("depth"@, JsonV::Object(seq![
                ("type"@, JsonV::Str("integer"@)),
                ("description"@, JsonV::Str("How many memories to analyze (default: 20, max: 50). Higher = more thorough."@)),
                ("default"@, JsonV::Int(20)),
                ("minimum"@, JsonV::Int(5)),
                ("maximum"@, JsonV::Int(50)),
            ])),
        ]);
        assert(crate::json::strs_model(s.required@) =~= seq![
            JsonV::Str("query"@),
        ]);
        assert(s.json_v()->Object_0 =~= schema_spec()->Object_0);
    }
    s.publish()
}


/// The query check of a deep-reference call: a blank query is refused.
pub fn check_query(query: &str) -> (r: Result<(), String>)
    ensures
        r is Ok <==> trim_s(query@).len() > 0,
        r matches Err(e) ==> e@ == "Query cannot be empty"@,
{
    let cs = chars_of(query);
    let (a, b) = trim_range(&cs, 0, cs.len());
    proof {
        assert(cs@.subrange(0, cs@.len() as int) =~= query@);
    }
    if a == b {
        Err(owned("Query cannot be empty"))
    } else {
        Ok(())
    }
}

/// How many memories a deep reference analyses: `depth` (default 20)
/// clamped into `5..=50`.
pub open spec fn depth_s(depth: Option<i32>) -> int {
    let d: int = match depth {
        Some(d) => d as int,
        None => 20,
    };
    if d < 5 {
        5
    } else if d > 50 {
        50
    } else {
        d
    }
}

/// The analysis depth and the search over-fetch (three times the depth,
/// at most 150).
pub fn depth_and_overfetch(depth: Option<i32>) -> (r: (usize, usize))
    ensures
        r.0 == depth_s(depth),
        r.1 == (if 3 * depth_s(depth) < 150 { 3 * depth_s(depth) } else { 150 }),
        5 <= r.0 <= 50,
{
    let d: i32 = match depth {
        Some(d) => d,
        None => 20,
    };
    let c: i32 = if d < 5 {
        5
    } else if d > 50 {
        50
    } else {
        d
    };
    let du = c as usize;
    let over = if du * 3 < 150 {
        du * 3
    } else {
        150
    };
    (du, over)
}

// ---------------------------------------------------------------------------
// Topic words
// ---------------------------------------------------------------------------

/// Words too common to say anything about a topic.
pub open spec fn stop_words() -> Seq<&'static str> {
    seq![
        "the", "a", "an", "is", "are", "was", "were", "be", "been", "being", "have", "has",
        "had", "do", "does", "did", "will", "would", "could", "should", "may", "might", "shall",
        "can", "to", "of", "in", "for", "on", "with", "at", "by", "from", "as", "into", "about",
        "that", "this", "it", "its", "and", "or", "but", "if", "so", "no", "not", "we", "i", "my",
        "our", "he", "she", "they", "them", "his", "her",
    ]
}

pub open spec fn is_stop_word_s(w: Seq<char>) -> bool {
    exists|i: int| 0 <= i < stop_words().len() && (#[trigger] stop_words()[i])@ == w
}

/// A lowercased word counts as a topic word: longer than two bytes and not a
/// stop word.
pub open spec fn keeps_word(w: Seq<char>) -> bool {
    utf8_len(w) > 2 && !is_stop_word_s(w)
}

/// The whitespace-separated words of a text.
pub open spec fn ws_pieces(s: Seq<char>) -> Seq<Seq<char>> {
    split_pieces(s, sep_fn(SepKind::Whitespace))
}

/// A piece of `s` (among the first `k`) yields topic word `w`.
pub open spec fn yields_topic_word(s: Seq<char>, k: int, w: Seq<char>) -> bool {
    exists|i: int|
        0 <= i < k && i < ws_pieces(s).len() && (#[trigger] ws_pieces(s)[i]).len() > 0 && w
            == lowercase(ws_pieces(s)[i]) && keeps_word(w)
}

/// The distinct topic words of a text: its whitespace-separated words,
/// lowercased, without stop words and words of at most two bytes.
pub open spec fn topic_words(s: Seq<char>) -> Set<Seq<char>> {
    Set::new(|w: Seq<char>| yields_topic_word(s, ws_pieces(s).len() as int, w))
}

/// How many topic words two texts share.
pub open spec fn shared_count(a: Seq<char>, b: Seq<char>) -> nat {
    topic_words(a).intersect(topic_words(b)).len()
}

pub open spec fn views(l: Seq<Vec<char>>) -> Seq<Seq<char>> {
    l.map_values(|v: Vec<char>| v@)
}

fn is_stop_word(w: &Vec<char>) -> (r: bool)
    ensures
        r == is_stop_word_s(w@),
{
    let words: [&'static str; 57] = [
        "the", "a", "an", "is", "are", "was", "were", "be", "been", "being", "have", "has",
        "had", "do", "does", "did", "will", "would", "could", "should", "may", "might", "shall",
        "can", "to", "of", "in", "for", "on", "with", "at", "by", "from", "as", "into", "about",
        "that", "this", "it", "its", "and", "or", "but", "if", "so", "no", "not", "we", "i", "my",
        "our", "he", "she", "they", "them", "his", "her",
    ];
    proof {
        assert(words@ =~= stop_words());
    }
    let mut i: usize = 0;
    while i < 57
        invariant
            0 <= i <= 57,
            words@ == stop_words(),
            forall|k: int| 0 <= k < i ==> (#[trigger] stop_words()[k])@ != w@,
        decreases 57 - i,
    {
        if chars_eq_str(w, words[i]) {
            return true;
        }
        i = i + 1;
    }
    false
}

/// Whether `s[lo..hi]` takes more than `limit` bytes in UTF-8.
pub fn utf8_len_exceeds(s: &Vec<char>, lo: usize, hi: usize, limit: usize) -> (r: bool)
    requires
        lo <= hi <= s@.len(),
        limit <= 1_000_000,
    ensures
        r == (utf8_len(s@.subrange(lo as int, hi as int)) > limit),
{
    let mut n: usize = 0;
    let mut i = lo;
    while i < hi
        invariant
            lo <= i <= hi <= s@.len(),
            limit <= 1_000_000,
            n == utf8_len(s@.subrange(lo as int, i as int)),
            n <= limit,
        decreases hi - i,
    {
        proof {
            assert(s@.subrange(lo as int, i + 1).drop_last() =~= s@.subrange(lo as int, i as int));
        }
        n = n + char_len_utf8(s[i]);
        if n > limit {
            proof {
                crate::text::lemma_utf8_len_concat(
                    s@.subrange(lo as int, i + 1),
                    s@.subrange(i + 1, hi as int),
                );
                assert(s@.subrange(lo as int, i + 1) + s@.subrange(i + 1, hi as int) =~= s@.subrange(
                    lo as int,
                    hi as int,
                ));
            }
            return true;
        }
        i = i + 1;
    }
    false
}

fn list_contains(list: &Vec<Vec<char>>, w: &Vec<char>) -> (r: bool)
    ensures
        r == views(list@).contains(w@),
{
    let mut i: usize = 0;
    while i < list.len()
        invariant
            0 <= i <= list@.len(),
            forall|k: int| 0 <= k < i ==> (#[trigger] list@[k])@ != w@,
        decreases list.len() - i,
    {
        if chars_eq(&list[i], w) {
            proof {
                assert(views(list@)[i as int] == w@);
            }
            return true;
        }
        i = i + 1;
    }
    proof {
        if views(list@).contains(w@) {
            let k = choose|k: int| 0 <= k < views(list@).len() && views(list@)[k] == w@;
            assert(list@[k]@ == w@);
        }
    }
    false
}

/// The distinct topic words of a text, each once.
fn topic_word_list(s: &Vec<char>) -> (r: Vec<Vec<char>>)
    ensures
        views(r@).no_duplicates(),
        views(r@).to_set() == topic_words(s@),
{
    let spans = split_spans(s, &SepKind::Whitespace);
    let ghost pieces = ws_pieces(s@);
    let mut list: Vec<Vec<char>> = Vec::new();
    let mut k: usize = 0;
    proof {
        assert(views(list@).to_set() =~= Set::new(|w: Seq<char>| yields_topic_word(s@, 0, w)));
    }
    while k < spans.len()
        invariant
            0 <= k <= spans@.len(),
            crate::text::spans_in(s@, spans@),
            span_texts(s@, spans@) == pieces,
            pieces == ws_pieces(s@),
            views(list@).no_duplicates(),
            views(list@).to_set() == Set::new(
                |w: Seq<char>| yields_topic_word(s@, k as int, w),
            ),
        decreases spans.len() - k,
    {
        let ghost before = views(list@);
        let ghost prev_set = Set::new(|w: Seq<char>| yields_topic_word(s@, k as int, w));
        let sp = &spans[k];
        let piece = copy_range(s, sp.lo, sp.hi);
        proof {
            assert(piece@ == pieces[k as int]);
        }
        let mut pushed = false;
        if piece.len() > 0 {
            let lw = to_lowercase(piece.as_slice());
            if !utf8_len_exceeds(&lw, 0, lw.len(), 2) {
            } else if is_stop_word(&lw) {
            } else if list_contains(&list, &lw) {
            } else {
                proof {
                    assert(lw@.subrange(0, lw@.len() as int) =~= lw@);
                }
                list.push(lw);
                pushed = true;
            }
        }
        proof {
            let new_set = Set::new(|w: Seq<char>| yields_topic_word(s@, k + 1, w));
            if pushed {
                assert(views(list@) =~= before.push(lowercase(pieces[k as int])));
            } else {
                assert(views(list@) =~= before);
            }
            assert forall|w: Seq<char>| views(list@).to_set().contains(w) == new_set.contains(w) by {
                if yields_topic_word(s@, k + 1, w) {
                    let i = choose|i: int|
                        0 <= i < k + 1 && i < ws_pieces(s@).len() && (#[trigger] ws_pieces(
                            s@,
                        )[i]).len() > 0 && w == lowercase(ws_pieces(s@)[i]) && keeps_word(w);
                    if i < k {
                        assert(prev_set.contains(w));
                        assert(before.to_set().contains(w));
                        let m = choose|m: int| 0 <= m < before.len() && before[m] == w;
                        assert(views(list@)[m] == w);
                    } else {
                        if !pushed {
                            assert(piece@.len() > 0);
                            assert(before.contains(w)) by {
                                let lw2 = lowercase(piece@);
                                assert(lw2 == w);
                                assert(lw2.subrange(0, lw2.len() as int) =~= lw2);
                            }
                        } else {
                            assert(views(list@)[before.len() as int] == w);
                        }
                    }
                }
                if views(list@).contains(w) {
                    let j = choose|j: int| 0 <= j < views(list@).len() && views(list@)[j] == w;
                    if j < before.len() {
                        assert(before[j] == w);
                        assert(before.to_set().contains(w));
                        assert(prev_set.contains(w));
                        let i = choose|i: int|
                            0 <= i < k && i < ws_pieces(s@).len() && (#[trigger] ws_pieces(
                                s@,
                            )[i]).len() > 0 && w == lowercase(ws_pieces(s@)[i]) && keeps_word(w);
                        assert(yields_topic_word(s@, k + 1, w));
                    } else {
                        assert(pushed);
                        let lw2 = lowercase(piece@);
                        assert(lw2.subrange(0, lw2.len() as int) =~= lw2);
                        assert(yields_topic_word(s@, k + 1, w));
                    }
                }
            }
            assert(views(list@).to_set() =~= new_set);
        }
        k = k + 1;
    }
    proof {
        assert(Set::new(|w: Seq<char>| yields_topic_word(s@, spans@.len() as int, w)) =~= topic_words(
            s@,
        ));
    }
    list
}

/// How many distinct topic words two texts share: their whitespace-separated
/// words, lowercased, with stop words and words of at most two bytes left out.
pub fn shared_topic_words(a: &str, b: &str) -> (r: usize)
    ensures
        r == shared_count(a@, b@),
{
    let av = chars_of(a);
    let bv = chars_of(b);
    shared_topic_words_chars(&av, &bv)
}

pub fn shared_topic_words_chars(a: &Vec<char>, b: &Vec<char>) -> (r: usize)
    ensures
        r == shared_count(a@, b@),
{
    let la = topic_word_list(a);
    let lb = topic_word_list(b);
    let ghost sa = views(la@);
    let ghost sb = views(lb@);
    let ghost mut hits: Seq<Seq<char>> = Seq::empty();
    let mut count: usize = 0;
    let mut i: usize = 0;
    while i < la.len()
        invariant
            0 <= i <= la@.len(),
            sa == views(la@),
            sb == views(lb@),
            sa.no_duplicates(),
            count == hits.len(),
            count <= i,
            hits.no_duplicates(),
            hits.to_set() == sa.take(i as int).to_set().intersect(sb.to_set()),
        decreases la.len() - i,
    {
        let ghost before = hits;
        proof {
            assert(sa.take(i + 1) =~= sa.take(i as int).push(sa[i as int]));
        }
        if list_contains(&lb, &la[i]) {
            proof {
                assert(!before.contains(sa[i as int])) by {
                    if before.contains(sa[i as int]) {
                        assert(before.to_set().contains(sa[i as int]));
                        assert(sa.take(i as int).to_set().contains(sa[i as int]));
                        let j = choose|j: int| 0 <= j < i && #[trigger] sa.take(i as int)[j] == sa[i as int];
                        assert(sa[j] == sa[i as int]);
                    }
                }
                hits = before.push(sa[i as int]);
                assert(hits.to_set() =~= sa.take(i + 1).to_set().intersect(sb.to_set())) by {
                    assert forall|w: Seq<char>| hits.to_set().contains(w) == sa.take(i + 1).to_set().intersect(sb.to_set()).contains(w) by {
                        if hits.contains(w) {
                            let j = choose|j: int| 0 <= j < hits.len() && hits[j] == w;
                            if j < before.len() {
                                assert(before[j] == w);
                                assert(before.to_set().contains(w));
                                assert(sa.take(i as int).to_set().contains(w));
                                let m = choose|m: int| 0 <= m < i && #[trigger] sa.take(i as int)[m] == w;
                                assert(sa.take(i + 1)[m] == w);
                                assert(sa.take(i + 1).to_set().contains(w));
                                assert(sb.to_set().contains(w));
                            } else {
                                assert(w == sa[i as int]);
                                assert(la@[i as int]@ == sa[i as int]);
                                assert(sa.take(i + 1)[i as int] == w);
                                assert(sa.take(i + 1).to_set().contains(w));
                                assert(sb.contains(w));
                                assert(sb.to_set().contains(w));
                            }
                        }
                        if sa.take(i + 1).contains(w) && sb.contains(w) {
                            let j = choose|j: int| 0 <= j < i + 1 && #[trigger] sa.take(i + 1)[j] == w;
                            if j < i {
                                assert(sa.take(i as int)[j] == w);
                                assert(before.to_set().contains(w));
                                assert(before.contains(w));
                                let m = choose|m: int| 0 <= m < before.len() && before[m] == w;
                                assert(hits[m] == w);
                            } else {
                                assert(hits[before.len() as int] == w);
                            }
                        }
                    }
                }
                assert(hits.no_duplicates()) by {
                    assert forall|x: int, y: int| 0 <= x < hits.len() && 0 <= y < hits.len() && x != y implies hits[x] != hits[y] by {
                        if x < before.len() && y < before.len() {
                        } else if x < before.len() {
                            assert(before.contains(before[x]));
                        } else {
                            assert(before.contains(before[y]));
                        }
                    }
                }
            }
            count = count + 1;
        } else {
            proof {
                assert(hits.to_set() =~= sa.take(i + 1).to_set().intersect(sb.to_set())) by {
                    assert forall|w: Seq<char>| hits.to_set().contains(w) == sa.take(i + 1).to_set().intersect(sb.to_set()).contains(w) by {
                        if sa.take(i + 1).contains(w) && sb.contains(w) {
                            let j = choose|j: int| 0 <= j < i + 1 && #[trigger] sa.take(i + 1)[j] == w;
                            if j < i {
                                assert(sa.take(i as int)[j] == w);
                            } else {
                                assert(sb.contains(sa[i as int]));
                            }
                        }
                        if hits.contains(w) {
                            assert(hits.to_set().contains(w));
                        }
                    }
                }
            }
        }
        i = i + 1;
    }
    proof {
        assert(sa.take(la@.len() as int) =~= sa);
        hits.unique_seq_to_set();
    }
    count
}


// ---------------------------------------------------------------------------
// Words and negation
// ---------------------------------------------------------------------------

/// The words of a text for whole-word matching: the pieces between
/// characters that are neither alphanumeric nor an apostrophe.
pub open spec fn word_pieces(s: Seq<char>) -> Seq<Seq<char>> {
    split_pieces(s, sep_fn(SepKind::NonWord))
}

/// `word` occurs in `text` as a whole word.
pub open spec fn has_word(text: Seq<char>, word: Seq<char>) -> bool {
    exists|i: int| 0 <= i < word_pieces(text).len() && #[trigger] word_pieces(text)[i] == word
}

pub fn contains_word_chars(text: &Vec<char>, word: &str) -> (r: bool)
    ensures
        r == has_word(text@, word@),
{
    let w = chars_of(word);
    let spans = split_spans(text, &SepKind::NonWord);
    let mut k: usize = 0;
    while k < spans.len()
        invariant
            0 <= k <= spans@.len(),
            crate::text::spans_in(text@, spans@),
            span_texts(text@, spans@) == word_pieces(text@),
            w@ == word@,
            forall|j: int| 0 <= j < k ==> #[trigger] word_pieces(text@)[j] != word@,
        decreases spans.len() - k,
    {
        if range_eq(text, spans[k].lo, spans[k].hi, &w) {
            proof {
                assert(word_pieces(text@)[k as int] == word@);
            }
            return true;
        }
        k = k + 1;
    }
    false
}

/// Whether `word` occurs in `text` as a whole word, where a word is a run of
/// alphanumeric characters and apostrophes.
pub fn contains_word(text: &str, word: &str) -> (r: bool)
    ensures
        r == has_word(text@, word@),
{
    let t = chars_of(text);
    contains_word_chars(&t, word)
}

/// Word pairs of which one side negates the other.
pub open spec fn negation_pairs() -> Seq<(&'static str, &'static str)> {
    seq![
        ("don't", "do"),
        ("doesn't", "does"),
        ("didn't", "did"),
        ("isn't", "is"),
        ("aren't", "are"),
        ("won't", "will"),
        ("can't", "can"),
        ("shouldn't", "should"),
        ("never", "always"),
        ("false", "true"),
        ("incorrect", "correct"),
        ("wrong", "right"),
        ("deprecated", "recommended"),
        ("removed", "added"),
        ("disabled", "enabled"),
    ]
}

/// Phrases that announce a correction.
pub open spec fn correction_phrases() -> Seq<&'static str> {
    seq!["correction:", "no longer", "instead of", "replaced by", "superseded by"]
}

/// One lowercased text holds the negated word of a pair and the other text
/// holds the plain word.
pub open spec fn pair_signal(al: Seq<char>, bl: Seq<char>) -> bool {
    exists|i: int|
        0 <= i < negation_pairs().len() && {
            let (neg, pos) = #[trigger] negation_pairs()[i];
            (has_word(al, neg@) && has_word(bl, pos@)) || (has_word(bl, neg@) && has_word(al, pos@))
        }
}

/// The negation test of `deep_reference`, on the two memory texts.
pub open spec fn negation_signal(a: Seq<char>, b: Seq<char>) -> bool {
    let al = lowercase(a);
    let bl = lowercase(b);
    ||| pair_signal(al, bl)
    ||| (has_word(al, "not"@) != has_word(bl, "not"@) && shared_count(a, b) >= 2)
    ||| contains_any_s(al, correction_phrases())
    ||| contains_any_s(bl, correction_phrases())
}

/// Whether two memory texts disagree: a negation pair split across them,
/// "not" in one of them about a shared topic, or a correction phrase.
pub fn has_negation_signal(a: &str, b: &str) -> (r: bool)
    ensures
        r == negation_signal(a@, b@),
{
    let av = chars_of(a);
    let bv = chars_of(b);
    has_negation_signal_chars(&av, &bv)
}

pub fn has_negation_signal_chars(a: &Vec<char>, b: &Vec<char>) -> (r: bool)
    ensures
        r == negation_signal(a@, b@),
{
    let al = to_lowercase(a.as_slice());
    let bl = to_lowercase(b.as_slice());
    let pairs: [(&'static str, &'static str); 15] = [
        ("don't", "do"),
        ("doesn't", "does"),
        ("didn't", "did"),
        ("isn't", "is"),
        ("aren't", "are"),
        ("won't", "will"),
        ("can't", "can"),
        ("shouldn't", "should"),
        ("never", "always"),
        ("false", "true"),
        ("incorrect", "correct"),
        ("wrong", "right"),
        ("deprecated", "recommended"),
        ("removed", "added"),
        ("disabled", "enabled"),
    ];
    proof {
        assert(pairs@ =~= negation_pairs());
    }
    let mut i: usize = 0;
    while i < 15
        invariant
            0 <= i <= 15,
            pairs@ == negation_pairs(),
            al@ == lowercase(a@),
            bl@ == lowercase(b@),
            forall|k: int|
                0 <= k < i ==> {
                    let (neg, pos) = #[trigger] negation_pairs()[k];
                    !((has_word(al@, neg@) && has_word(bl@, pos@)) || (has_word(bl@, neg@)
                        && has_word(al@, pos@)))
                },
        decreases 15 - i,
    {
        let (neg, pos) = pairs[i];
        if (contains_word_chars(&al, neg) && contains_word_chars(&bl, pos)) || (
        contains_word_chars(&bl, neg) && contains_word_chars(&al, pos)) {
            proof {
                assert(negation_pairs()[i as int] == (neg, pos));
                assert(pair_signal(al@, bl@));
            }
            return true;
        }
        i = i + 1;
    }
    proof {
        assert(!pair_signal(al@, bl@)) by {
            if pair_signal(al@, bl@) {
                let k = choose|k: int|
                    0 <= k < negation_pairs().len() && {
                        let (neg, pos) = #[trigger] negation_pairs()[k];
                        (has_word(al@, neg@) && has_word(bl@, pos@)) || (has_word(bl@, neg@)
                            && has_word(al@, pos@))
                    };
                assert(k < 15);
            }
        }
    }
    let a_not = contains_word_chars(&al, "not");
    let b_not = contains_word_chars(&bl, "not");
    if a_not != b_not {
        let shared = shared_topic_words_chars(a, b);
        if shared >= 2 {
            return true;
        }
    }
    let corrections: [&'static str; 5] = [
        "correction:",
        "no longer",
        "instead of",
        "replaced by",
        "superseded by",
    ];
    proof {
        assert(corrections@ =~= correction_phrases());
    }
    contains_any(&al, &corrections) || contains_any(&bl, &corrections)
}

/// How one memory relates to another.
#[derive(PartialEq, Eq, Structural, Clone, Copy, Debug)]
pub enum Relation {
    Supports,
    Contradicts,
    Supersedes,
    Irrelevant,
}

impl Relation {
    /// The wire name of the relation (its `Display` text).
    pub fn as_str(&self) -> (r: &'static str)
        ensures
            r@ == relation_name(*self),
    {
        match self {
            Relation::Supports => "supports",
            Relation::Contradicts => "contradicts",
            Relation::Supersedes => "supersedes",
            Relation::Irrelevant => "irrelevant",
        }
    }
}

pub open spec fn relation_name(r: Relation) -> Seq<char> {
    match r {
        Relation::Supports => "supports"@,
        Relation::Contradicts => "contradicts"@,
        Relation::Supersedes => "supersedes"@,
        Relation::Irrelevant => "irrelevant"@,
    }
}

/// The relation of two memories: unrelated when they share fewer than two
/// topic words; on a negation signal, superseded when the newer of the two is
/// trusted (trust above one half) and contradicting otherwise; else
/// supporting.
pub open spec fn relation_of(a: Seq<char>, b: Seq<char>, newer_trusted: bool) -> Relation {
    if shared_count(a, b) < 2 {
        Relation::Irrelevant
    } else if negation_signal(a, b) {
        if newer_trusted {
            Relation::Supersedes
        } else {
            Relation::Contradicts
        }
    } else {
        Relation::Supports
    }
}

/// Relate two memory texts. `newer_trusted` says whether the more recently
/// updated of the two has a trust score above one half.
pub fn assess_relation(a_content: &str, b_content: &str, newer_trusted: bool) -> (r: Relation)
    ensures
        r == relation_of(a_content@, b_content@, newer_trusted),
{
    let a = chars_of(a_content);
    let b = chars_of(b_content);
    let shared = shared_topic_words_chars(&a, &b);
    if shared < 2 {
        return Relation::Irrelevant;
    }
    if has_negation_signal_chars(&a, &b) {
        if newer_trusted {
            return Relation::Supersedes;
        }
        return Relation::Contradicts;
    }
    Relation::Supports
}


// ---------------------------------------------------------------------------
// Synthesis text
// ---------------------------------------------------------------------------

/// The first sentence of a memory for a timeline entry: the text before the
/// first `.` or newline, trimmed, at most 200 characters.
pub open spec fn timeline_sentence(s: Seq<char>) -> Seq<char> {
    take_s(trim_s(split_pieces(s, sep_fn(SepKind::SentenceMark))[0]), 200)
}

pub fn first_sentence(text: &str) -> (r: String)
    ensures
        r@ == timeline_sentence(text@),
{
    let t = chars_of(text);
    let spans = split_spans(&t, &SepKind::SentenceMark);
    let (a, b) = trim_range(&t, spans[0].lo, spans[0].hi);
    let out = take_range(&t, a, b, 200);
    string_of(out.as_slice())
}

/// The opening line of the reasoning text for an intent.
pub open spec fn intent_line(i: QueryIntent) -> Seq<char> {
    match i {
        QueryIntent::FactCheck => "Intent: Verifying a factual claim."@,
        QueryIntent::Timeline => "Intent: Reconstructing temporal sequence."@,
        QueryIntent::RootCause => "Intent: Tracing causal chain backward."@,
        QueryIntent::Comparison => "Intent: Comparing two concepts or states."@,
        QueryIntent::Synthesis => "Intent: Synthesizing knowledge on a topic."@,
    }
}

/// The parts of the reasoning text, in order.
pub open spec fn reasoning_parts(
    intent: QueryIntent,
    evidence: nat,
    contradictions: nat,
    superseded: nat,
    top: Option<(Seq<char>, Seq<char>)>,
    low_confidence: bool,
) -> Seq<Seq<char>> {
    let p1 = seq![intent_line(intent), "Found "@ + decimal_s(evidence) + " relevant memories."@];
    let p2 = if contradictions > 0 {
        p1.push(
            "WARNING: "@ + decimal_s(contradictions)
                + " contradiction(s) detected \u{2014} verify with source."@,
        )
    } else {
        p1
    };
    let p3 = if superseded > 0 {
        p2.push(decimal_s(superseded) + " memory/memories superseded by newer information."@)
    } else {
        p2
    };
    let p4 = match top {
        Some((trust, content)) => p3.push(
            "Highest-trust answer (trust="@ + trust + "): "@ + take_s(content, 200),
        ),
        None => p3,
    };
    if low_confidence {
        p4.push(
            "Low confidence \u{2014} consider saving more context or verifying externally."@,
        )
    } else {
        p4
    }
}

/// The reasoning summary of a `deep_reference` answer. `top` carries the
/// best answer's trust (already written with two decimals) and its content;
/// `low_confidence` says whether the answer's confidence is below 0.3.
pub fn build_reasoning(
    intent: QueryIntent,
    evidence: u64,
    contradictions: u64,
    superseded: u64,
    top: Option<(&str, &str)>,
    low_confidence: bool,
) -> (r: String)
    ensures
        r@ == join_s(
            reasoning_parts(
                intent,
                evidence as nat,
                contradictions as nat,
                superseded as nat,
                match top {
                    Some((t, c)) => Some((t@, c@)),
                    None => None,
                },
                low_confidence,
            ),
            " "@,
        ),
{
    let mut parts: Vec<Vec<char>> = Vec::new();
    let line = match intent {
        QueryIntent::FactCheck => "Intent: Verifying a factual claim.",
        QueryIntent::Timeline => "Intent: Reconstructing temporal sequence.",
        QueryIntent::RootCause => "Intent: Tracing causal chain backward.",
        QueryIntent::Comparison => "Intent: Comparing two concepts or states.",
        QueryIntent::Synthesis => "Intent: Synthesizing knowledge on a topic.",
    };
    parts.push(chars_of(line));
    let mut found = chars_of("Found ");
    let n = decimal(evidence);
    push_chars(&mut found, &n);
    push_str(&mut found, " relevant memories.");
    parts.push(found);
    if contradictions > 0 {
        let mut w = chars_of("WARNING: ");
        let n = decimal(contradictions);
        push_chars(&mut w, &n);
        push_str(&mut w, " contradiction(s) detected \u{2014} verify with source.");
        parts.push(w);
    }
    if superseded > 0 {
        let mut w = decimal(superseded);
        push_str(&mut w, " memory/memories superseded by newer information.");
        parts.push(w);
    }
    match top {
        Some((trust, content)) => {
            let mut w = chars_of("Highest-trust answer (trust=");
            push_str(&mut w, trust);
            push_str(&mut w, "): ");
            let c = chars_of(content);
            let preview = take_range(&c, 0, c.len(), 200);
            proof {
                assert(c@.subrange(0, c@.len() as int) =~= c@);
            }
            push_chars(&mut w, &preview);
            parts.push(w);
        },
        None => {},
    }
    if low_confidence {
        parts.push(
            chars_of("Low confidence \u{2014} consider saving more context or verifying externally."),
        );
    }
    proof {
        let top_v = match top {
            Some((t, c)) => Some((t@, c@)),
            None => None,
        };
        assert(parts@.map_values(|p: Vec<char>| p@) =~= reasoning_parts(
            intent,
            evidence as nat,
            contradictions as nat,
            superseded as nat,
            top_v,
            low_confidence,
        ));
    }
    let text = join(&parts, " ");
    string_of(text.as_slice())
}

/// Disagreement does not depend on which memory comes first: the negation
/// signal of two texts is the same in either order, and a negation pair
/// split across them (the negated word in one lowercased text, the plain
/// word in the other) is a signal whichever text holds the negated word.
/// So the relation of two memories does not depend on their order.
pub proof fn law_negation_is_symmetric(a: Seq<char>, b: Seq<char>, newer_trusted: bool)
    ensures
        negation_signal(a, b) == negation_signal(b, a),
        forall|i: int|
            0 <= i < negation_pairs().len() && has_word(lowercase(a), (#[trigger] negation_pairs()[i]).0@)
                && has_word(lowercase(b), negation_pairs()[i].1@) ==> negation_signal(a, b)
                && negation_signal(b, a),
        shared_count(a, b) == shared_count(b, a),
        relation_of(a, b, newer_trusted) == relation_of(b, a, newer_trusted),
{
    let al = lowercase(a);
    let bl = lowercase(b);
    assert(pair_signal(al, bl) == pair_signal(bl, al)) by {
        if pair_signal(al, bl) {
            let k = choose|k: int|
                0 <= k < negation_pairs().len() && {
                    let (neg, pos) = #[trigger] negation_pairs()[k];
                    (has_word(al, neg@) && has_word(bl, pos@)) || (has_word(bl, neg@) && has_word(al, pos@))
                };
            assert(0 <= k < negation_pairs().len() && {
                let (neg, pos) = negation_pairs()[k];
                (has_word(bl, neg@) && has_word(al, pos@)) || (has_word(al, neg@) && has_word(bl, pos@))
            });
        }
        if pair_signal(bl, al) {
            let k = choose|k: int|
                0 <= k < negation_pairs().len() && {
                    let (neg, pos) = #[trigger] negation_pairs()[k];
                    (has_word(bl, neg@) && has_word(al, pos@)) || (has_word(al, neg@) && has_word(bl, pos@))
                };
            assert(0 <= k < negation_pairs().len() && {
                let (neg, pos) = negation_pairs()[k];
                (has_word(al, neg@) && has_word(bl, pos@)) || (has_word(bl, neg@) && has_word(al, pos@))
            });
        }
    }
    assert(topic_words(a).intersect(topic_words(b)) =~= topic_words(b).intersect(topic_words(a)));
    assert forall|i: int|
        0 <= i < negation_pairs().len() && has_word(al, (#[trigger] negation_pairs()[i]).0@) && has_word(
            bl,
            negation_pairs()[i].1@,
        ) implies negation_signal(a, b) && negation_signal(b, a) by {
        assert(pair_signal(al, bl));
        assert(pair_signal(bl, al));
    }
}

/// The other signs of disagreement: a correction phrase ("correction:",
/// "no longer", "instead of", "replaced by", "superseded by") in either
/// lowercased text, or "not" as a word in exactly one of them when they
/// share at least two topic words.
pub proof fn law_corrections_and_not_signal(a: Seq<char>, b: Seq<char>, phrase: Seq<char>)
    ensures
        (phrase == "correction:"@ || phrase == "no longer"@ || phrase == "instead of"@ || phrase
            == "replaced by"@ || phrase == "superseded by"@) && (contains_s(lowercase(a), phrase)
            || contains_s(lowercase(b), phrase)) ==> negation_signal(a, b),
        has_word(lowercase(a), "not"@) != has_word(lowercase(b), "not"@) && shared_count(a, b) >= 2
            ==> negation_signal(a, b),
{
    let c = correction_phrases();
    if phrase == "correction:"@ {
        assert(c[0]@ == phrase);
    }
    if phrase == "no longer"@ {
        assert(c[1]@ == phrase);
    }
    if phrase == "instead of"@ {
        assert(c[2]@ == phrase);
    }
    if phrase == "replaced by"@ {
        assert(c[3]@ == phrase);
    }
    if phrase == "superseded by"@ {
        assert(c[4]@ == phrase);
    }
}

/// How trust enters a relation: trust only decides between superseding and
/// contradicting. A pair that disagrees is superseded when the newer memory
/// is trusted and contradicted otherwise; a pair with fewer than two shared
/// topic words is irrelevant, and an agreeing pair supports, either way.
pub proof fn law_trust_only_splits_disagreement(a: Seq<char>, b: Seq<char>)
    ensures
        (relation_of(a, b, true) == Relation::Supersedes) == (relation_of(a, b, false)
            == Relation::Contradicts),
        (relation_of(a, b, true) == Relation::Supersedes) == (shared_count(a, b) >= 2 && negation_signal(a, b)),
        shared_count(a, b) < 2 ==> relation_of(a, b, true) == Relation::Irrelevant && relation_of(a, b, false)
            == Relation::Irrelevant,
        shared_count(a, b) >= 2 && !negation_signal(a, b) ==> relation_of(a, b, true) == Relation::Supports
            && relation_of(a, b, false) == Relation::Supports,
{
}

} // verus!
