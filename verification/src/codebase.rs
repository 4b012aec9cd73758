//! The `codebase` tool's text: titles and stored content for remembered
//! patterns and decisions, the tags they carry, and the checks on their
//! arguments.

use vstd::prelude::*;
use crate::text::{
    chars_of, char_width, is_whitespace, is_ws, push_chars, push_str, string_of, trim_end_s,
    trim_range, trim_s, utf8_len, char_len_utf8, copy_range, fit_len, fit_prefix_len,
};

use crate::json::{array, entries_model, keys_of, new_entries, object, push_entry, Json};
use crate::schema::{declared_args, names_of, required_args, schema_shape, ToolSchema};
use crate::json::{count_v, JsonV};
use crate::text::{chars_of as text_chars, owned};

verus! {

broadcast use vstd::string::group_string_axioms;

/// The longest title, in characters.
pub const TITLE_LIMIT: usize = 60;

pub open spec fn is_terminal(c: char) -> bool {
    c == '.' || c == '!' || c == '?'
}

/// A sentence ends at `p`: a terminator followed by white space or by the end.
pub open spec fn ends_sentence_at(t: Seq<char>, p: int) -> bool {
    0 <= p < t.len() && is_terminal(t[p]) && (p + 1 == t.len() || is_ws(t[p + 1]))
}

/// The first position at or after `p` where a sentence ends.
pub open spec fn sentence_end_from(t: Seq<char>, p: int) -> Option<int>
    decreases t.len() - p,
{
    if p < 0 || p >= t.len() {
        None
    } else if ends_sentence_at(t, p) {
        Some(p)
    } else {
        sentence_end_from(t, p + 1)
    }
}

/// The first sentence of `t`, terminator included; `None` when no sentence
/// ends inside it.
pub open spec fn first_sentence_s(t: Seq<char>) -> Option<Seq<char>> {
    match sentence_end_from(t, 0) {
        Some(p) => Some(t.take(p + 1)),
        None => None,
    }
}

/// The last white-space position below `n`.
pub open spec fn last_ws_below(t: Seq<char>, n: int) -> Option<int>
    decreases n,
{
    if n <= 0 {
        None
    } else if n - 1 < t.len() && is_ws(t[n - 1]) {
        Some(n - 1)
    } else {
        last_ws_below(t, n - 1)
    }
}

/// The heading text before the ellipsis rule: a short first sentence, the
/// whole text when it is short, else the text up to the last white space
/// among its first 61 characters, else (one long token) its first
/// `TITLE_LIMIT` characters.
pub open spec fn raw_title(text: Seq<char>) -> Seq<char> {
    match first_sentence_s(text) {
        Some(sentence) if sentence.len() <= TITLE_LIMIT => sentence,
        _ => if text.len() <= TITLE_LIMIT {
            text
        } else {
            match last_ws_below(text, TITLE_LIMIT + 1) {
                Some(b) => text.take(b),
                None => text.take(TITLE_LIMIT as int),
            }
        },
    }
}

/// The heading of a stored decision: the raw title with trailing white space
/// removed, followed by `…` whenever it leaves out part of the trimmed text.
pub open spec fn decision_title_s(decision: Seq<char>) -> Seq<char> {
    let text = trim_s(decision);
    let title = trim_end_s(raw_title(text));
    if title.len() < text.len() {
        title.push('\u{2026}')
    } else {
        title
    }
}

proof fn lemma_sentence_end_from_found(t: Seq<char>, p: int)
    requires
        0 <= p <= t.len(),
    ensures
        sentence_end_from(t, p) matches Some(q) ==> p <= q < t.len() && ends_sentence_at(t, q)
            && forall|k: int| p <= k < q ==> !ends_sentence_at(t, k),
        sentence_end_from(t, p) is None ==> forall|k: int| p <= k < t.len() ==> !ends_sentence_at(t, k),
    decreases t.len() - p,
{
    if p < t.len() && !ends_sentence_at(t, p) {
        lemma_sentence_end_from_found(t, p + 1);
    }
}

proof fn lemma_last_ws_below(t: Seq<char>, n: int)
    requires
        0 <= n,
    ensures
        last_ws_below(t, n) matches Some(b) ==> 0 <= b < n && b < t.len() && is_ws(t[b])
            && forall|k: int| b < k < n && k < t.len() ==> !is_ws(t[k]),
        last_ws_below(t, n) is None ==> forall|k: int| 0 <= k < n && k < t.len() ==> !is_ws(t[k]),
    decreases n,
{
    if n > 0 {
        lemma_last_ws_below(t, n - 1);
    }
}

/// The raw title is a prefix of the text, of at most `TITLE_LIMIT` characters.
proof fn lemma_raw_title_prefix(text: Seq<char>)
    ensures
        raw_title(text).len() <= TITLE_LIMIT,
        raw_title(text).len() <= text.len(),
        raw_title(text) == text.take(raw_title(text).len() as int),
{
    lemma_sentence_end_from_found(text, 0);
    lemma_last_ws_below(text, TITLE_LIMIT + 1);
    match first_sentence_s(text) {
        Some(sentence) if sentence.len() <= TITLE_LIMIT => {
            let p = sentence_end_from(text, 0)->0;
            assert(sentence == text.take(p + 1));
        },
        _ => {
            if text.len() <= TITLE_LIMIT {
                assert(text.take(text.len() as int) =~= text);
            }
        },
    }
}

/// A decision's title is at most 61 characters: the trimmed decision whole,
/// or a proper prefix of it, with no trailing white space, followed by `…`.
pub proof fn law_title_is_short_and_marks_a_cut(decision: Seq<char>)
    ensures
        ({
            let t = trim_s(decision);
            let r = decision_title_s(decision);
            &&& r.len() <= TITLE_LIMIT + 1
            &&& r == t || exists|n: int|
                0 <= n < t.len() && #[trigger] t.take(n) == trim_end_s(t.take(n)) && r == t.take(n).push(
                    '\u{2026}',
                )
        }),
{
    let t = trim_s(decision);
    let raw = raw_title(t);
    lemma_raw_title_prefix(t);
    crate::text::lemma_trim_end_prefix(raw);
    let title = trim_end_s(raw);
    let n = title.len() as int;
    assert(title == t.take(n)) by {
        assert(raw.take(n) =~= t.take(n));
    }
    if n < t.len() {
        assert(t.take(n) == trim_end_s(t.take(n)));
    } else {
        assert(t.take(n) =~= t);
    }
}

/// The end of the first sentence of `t[lo..hi]`, as an absolute index.
fn find_sentence_end(t: &Vec<char>, lo: usize, hi: usize) -> (r: Option<usize>)
    requires
        lo <= hi <= t@.len(),
    ensures
        match r {
            Some(q) => lo <= q < hi && sentence_end_from(t@.subrange(lo as int, hi as int), 0)
                == Some(q - lo),
            None => sentence_end_from(t@.subrange(lo as int, hi as int), 0) is None,
        },
{
    let ghost s = t@.subrange(lo as int, hi as int);
    proof {
        lemma_sentence_end_from_found(s, 0);
    }
    let mut p = lo;
    while p < hi
        invariant
            lo <= p <= hi <= t@.len(),
            s == t@.subrange(lo as int, hi as int),
            forall|k: int| 0 <= k < p - lo ==> !ends_sentence_at(s, k),
        decreases hi - p,
    {
        let c = t[p];
        if c == '.' || c == '!' || c == '?' {
            if p + 1 == hi || is_whitespace(t[p + 1]) {
                proof {
                    assert(ends_sentence_at(s, p - lo));
                    lemma_sentence_end_from_found(s, 0);
                    if sentence_end_from(s, 0) != Some(p - lo) {
                        let q = sentence_end_from(s, 0)->0;
                        assert(q < p - lo || q > p - lo);
                    }
                }
                return Some(p);
            }
        }
        p = p + 1;
    }
    proof {
        lemma_sentence_end_from_found(s, 0);
        if sentence_end_from(s, 0) is Some {
            let q = sentence_end_from(s, 0)->0;
            assert(!ends_sentence_at(s, q));
        }
    }
    None
}

/// The last white-space index below `n` in `t`.
fn last_ws_index(t: &Vec<char>, n: usize) -> (r: Option<usize>)
    requires
        n <= t@.len(),
    ensures
        match r {
            Some(b) => last_ws_below(t@, n as int) == Some(b as int),
            None => last_ws_below(t@, n as int) is None,
        },
{
    let mut k: usize = n;
    while k > 0
        invariant
            0 <= k <= n <= t@.len(),
            last_ws_below(t@, n as int) == last_ws_below(t@, k as int),
        decreases k,
    {
        if is_whitespace(t[k - 1]) {
            return Some(k - 1);
        }
        k = k - 1;
    }
    None
}

/// The length of the raw title of `text`, which is always a prefix of it.
fn raw_title_len(text: &Vec<char>) -> (r: usize)
    ensures
        r <= text@.len(),
        text@.take(r as int) == raw_title(text@),
{
    let n = text.len();
    proof {
        assert(text@.subrange(0, n as int) =~= text@);
        assert(text@.take(n as int) =~= text@);
    }
    let sentence_end = find_sentence_end(text, 0, n);
    match sentence_end {
        Some(p) => {
            if p + 1 <= TITLE_LIMIT {
                return p + 1;
            }
        },
        None => {},
    }
    if n <= TITLE_LIMIT {
        return n;
    }
    match last_ws_index(text, TITLE_LIMIT + 1) {
        Some(b) => {
            proof {
                lemma_last_ws_below(text@, (TITLE_LIMIT + 1) as int);
            }
            b
        },
        None => TITLE_LIMIT,
    }
}

/// The heading of a stored decision, derived from the decision text.
///
/// The first sentence when it is short enough to be a title, otherwise the
/// longest prefix that ends on a word boundary (a hard cut for a single long
/// token), with `…` whenever text was left out. Measured in characters.
pub fn decision_title(decision: &str) -> (r: String)
    ensures
        r@ == decision_title_s(decision@),
{
    let d = chars_of(decision);
    let (lo, hi) = trim_range(&d, 0, d.len());
    proof {
        assert(d@.subrange(0, d@.len() as int) =~= d@);
    }
    let text = copy_range(&d, lo, hi);
    let n = text.len();
    let cut = raw_title_len(&text);
    let (_, e) = trim_range(&text, 0, cut);
    let mut out = copy_range(&text, 0, e);
    proof {
        assert(text@.subrange(0, cut as int) =~= text@.take(cut as int));
    }
    if e < n {
        out.push('\u{2026}');
    }
    string_of(out.as_slice())
}

/// The argument schema of `codebase`, as published.
pub open spec fn schema_spec() -> JsonV {
    JsonV::Object(seq![
        ("type"@, JsonV::Str("object"@)),
        ("properties"@, JsonV::Object(seq![
            ("action"@, JsonV::Object(seq![
                ("type"@, JsonV::Str("string"@)),
                ("enum"@, JsonV::Array(seq![
                    JsonV::Str("remember_pattern"@),
                    JsonV::Str("remember_decision"@),
                    JsonV::Str("remember_decision_v2"@),
                    JsonV::Str("get_context"@),
                ])),
                ("description"@, JsonV::Str("Action to perform: 'remember_pattern' stores a code pattern, 'remember_decision' stores an architectural decision (legacy Markdown), 'remember_decision_v2' stores a structured decision matrix (question + choices + criteria + score matrix), 'get_context' retrieves patterns and decisions for a codebase"@)),
            ])),
            ("name"@, JsonV::Object(seq![
                ("type"@, JsonV::Str("string"@)),
                ("description"@, JsonV::Str("Name/title for the pattern (required for remember_pattern)"@)),
            ])),
            ("description"@, JsonV::Object(seq![
                ("type"@, JsonV::Str("string"@)),
                ("description"@, JsonV::Str("Detailed description of the pattern (required for remember_pattern)"@)),
            ])),
            ("decision"@, JsonV::Object(seq![
                ("type"@, JsonV::Str("string"@)),
                ("description"@, JsonV::Str("The architectural or design decision made (required for remember_decision)"@)),
            ])),
            ("rationale"@, JsonV::Object(seq![
                ("type"@, JsonV::Str("string"@)),
                ("description"@, JsonV::Str("Why this decision was made (required for remember_decision)"@)),
            ])),
            ("alternatives"@, JsonV::Object(seq![
                ("type"@, JsonV::Str("array"@)),
                ("items"@, JsonV::Object(seq![
                    ("type"@, JsonV::Str("string"@)),
                ])),
                ("description"@, JsonV::Str("Alternatives that were considered (optional for remember_decision)"@)),
            ])),
            ("question"@, JsonV::Object(seq![
                ("type"@, JsonV::Str("string"@)),
                ("description"@, JsonV::Str("(remember_decision_v2) What was being decided? Becomes the card title."@)),
            ])),
            ("choices"@, JsonV::Object(seq![
                ("type"@, JsonV::Str("array"@)),
                ("description"@, JsonV::Str("(remember_decision_v2) Alternatives considered. Exactly one entry must have chosen=true. Min 2 entries."@)),
                ("items"@, JsonV::Object(seq![
                    ("type"@, JsonV::Str("object"@)),
                    ("properties"@, JsonV::Object(seq![
                        ("id"@, JsonV::Object(seq![
                            ("type"@, JsonV::Str("string"@)),
                            ("description"@, JsonV::Str("Stable identifier within the payload."@)),
                        ])),
                        ("label"@, JsonV::Object(seq![
                            ("type"@, JsonV::Str("string"@)),
                            ("description"@, JsonV::Str("Human-readable label."@)),
                        ])),
                        ("summary"@, JsonV::Object(seq![
                            ("type"@, JsonV::Str("string"@)),
                            ("description"@, JsonV::Str("Short distinguishing summary (optional)."@)),
                        ])),
                        ("chosen"@, JsonV::Object(seq![
                            ("type"@, JsonV::Str("boolean"@)),
                            ("description"@, JsonV::Str("True for the selected choice. Exactly one."@)),
                        ])),
                    ])),
                    ("required"@, JsonV::Array(seq![
                        JsonV::Str("id"@),
                        JsonV::Str("label"@),
                    ])),
                ])),
            ])),
            ("criteria"@, JsonV::Object(seq![
                ("type"@, JsonV::Str("array"@)),
                ("description"@, JsonV::Str("(remember_decision_v2) Evaluation axes. Used by the radar chart."@)),
                ("items"@, JsonV::Object(seq![
                    ("type"@, JsonV::Str("object"@)),
                    ("properties"@, JsonV::Object(seq![
                        ("id"@, JsonV::Object(seq![
                            ("type"@, JsonV::Str("string"@)),
                        ])),
                        ("label"@, JsonV::Object(seq![
                            ("type"@, JsonV::Str("string"@)),
                        ])),
                        ("weight"@, JsonV::Object(seq![
                            ("type"@, JsonV::Str("number"@)),
                            ("description"@, JsonV::Str("Relative weight, defaults to 1.0. Must be >= 0."@)),
                        ])),
                    ])),
                    ("required"@, JsonV::Array(seq![
                        JsonV::Str("id"@),
                        JsonV::Str("label"@),
                    ])),
                ])),
            ])),
            ("scoreMatrix"@, JsonV::Object(seq![
                ("type"@, JsonV::Str("object"@)),
                ("description"@, JsonV::Str("(remember_decision_v2) Sparse 1-5 score matrix keyed by criterion id, then by choice id. Missing cells render as '—'."@)),
                ("additionalProperties"@, JsonV::Object(seq![
                    ("type"@, JsonV::Str("object"@)),
                    ("additionalProperties"@, JsonV::Object(seq![
                        ("type"@, JsonV::Str("integer"@)),
                        ("minimum"@, JsonV::Int(1)),
                        ("maximum"@, JsonV::Int(5)),
                    ])),
                ])),
            ])),
            ("validUntil"@, JsonV::Object(seq![
                ("type"@, JsonV::Str("string"@)),
                ("format"@, JsonV::Str("date-time"@)),
                ("description"@, JsonV::Str("(remember_decision_v2) Optional RFC3339 timestamp. When the date passes the decision is auto-flagged as stale by reflect."@)),
            ])),
            ("supersedes"@, JsonV::Object(seq![
                ("type"@, JsonV::Str("array"@)),
                ("items"@, JsonV::Object(seq![
                    ("type"@, JsonV::Str("string"@)),
                ])),
                ("description"@, JsonV::Str("(remember_decision_v2) IDs of decisions this one replaces."@)),
            ])),
            ("files"@, JsonV::Object(seq![
                ("type"@, JsonV::Str("array"@)),
                ("items"@, JsonV::Object(seq![
                    ("type"@, JsonV::Str("string"@)),
                ])),
                ("description"@, JsonV::Str("Files where this pattern is used or affected by this decision. Stored as code anchors, not as text: the path is re-checked against the revision it was written at and each result carries a verdict (fresh/stale/orphaned/unchecked), so a reader can tell that the code has moved on. Use 'path@commit#symbol' when you know the revision and the symbol. Never repeat these paths in the decision or the description — a path inside the text cannot be re-checked."@)),
            ])),
            ("codebase"@, JsonV::Object(seq![
                ("type"@, JsonV::Str("string"@)),
                ("description"@, JsonV::Str("Codebase/project identifier (e.g., 'vestige-tauri')"@)),
            ])),
            ("limit"@, JsonV::Object(seq![
                ("type"@, JsonV::Str("integer"@)),
                ("description"@, JsonV::Str("Maximum items per category (default: 10, for get_context)"@)),
                ("default"@, JsonV::Int(10)),
            ])),
        ])),
        ("required"@, JsonV::Array(seq![
            JsonV::Str("action"@),
        ])),
    ])
}

/// The arguments of `codebase`: `action` is required; the other fields belong to particular actions.
#[verifier::spinoff_prover]
#[verifier::rlimit(60)]
pub fn schema() -> (r: Json)
    ensures
        r@ == schema_spec(),
        schema_shape(r@),
        declared_args(r@) == seq!["action"@, "name"@, "description"@, "decision"@, "rationale"@, "alternatives"@, "question"@, "choices"@, "criteria"@, "scoreMatrix"@, "validUntil"@, "supersedes"@, "files"@, "codebase"@, "limit"@],
        required_args(r@) == seq!["action"@],
{
    let mut props = new_entries();
    push_entry(&mut props, "action", {
        let mut e = new_entries();
        push_entry(&mut e, "type", Json::from_str("string"));
        push_entry(&mut e, "enum", {
            let mut a: Vec<Json> = Vec::new();
            a.push(Json::from_str("remember_pattern"));
            a.push(Json::from_str("remember_decision"));
            a.push(Json::from_str("remember_decision_v2"));
            a.push(Json::from_str("get_context"));
            proof {
                assert(crate::json::items_model(a@) =~= seq![
                    JsonV::Str("remember_pattern"@),
                    JsonV::Str("remember_decision"@),
                    JsonV::Str("remember_decision_v2"@),
                    JsonV::Str("get_context"@),
                ]);
            }
            array(a)
        });
        push_entry(&mut e, "description", Json::from_str("Action to perform: 'remember_pattern' stores a code pattern, 'remember_decision' stores an architectural decision (legacy Markdown), 'remember_decision_v2' stores a structured decision matrix (question + choices + criteria + score matrix), 'get_context' retrieves patterns and decisions for a codebase"));
        proof {
            assert(crate::json::entries_model(e@) =~= seq![
                ("type"@, JsonV::Str("string"@)),
                ("enum"@, JsonV::Array(seq![
                    JsonV::Str("remember_pattern"@),
                    JsonV::Str("remember_decision"@),
                    JsonV::Str("remember_decision_v2"@),
                    JsonV::Str("get_context"@),
                ])),
                ("description"@, JsonV::Str("Action to perform: 'remember_pattern' stores a code pattern, 'remember_decision' stores an architectural decision (legacy Markdown), 'remember_decision_v2' stores a structured decision matrix (question + choices + criteria + score matrix), 'get_context' retrieves patterns and decisions for a codebase"@)),
            ]);
        }
        object(e)
    });
    push_entry(&mut props, "name", {
        let mut e = new_entries();
        push_entry(&mut e, "type", Json::from_str("string"));
        push_entry(&mut e, "description", Json::from_str("Name/title for the pattern (required for remember_pattern)"));
        proof {
            assert(crate::json::entries_model(e@) =~= seq![
                ("type"@, JsonV::Str("string"@)),
                ("description"@, JsonV::Str("Name/title for the pattern (required for remember_pattern)"@)),
            ]);
        }
        object(e)
    });
    push_entry(&mut props, "description", {
        let mut e = new_entries();
        push_entry(&mut e, "type", Json::from_str("string"));
        push_entry(&mut e, "description", Json::from_str("Detailed description of the pattern (required for remember_pattern)"));
        proof {
            assert(crate::json::entries_model(e@) =~= seq![
                ("type"@, JsonV::Str("string"@)),
                ("description"@, JsonV::Str("Detailed description of the pattern (required for remember_pattern)"@)),
            ]);
        }
        object(e)
    });
    push_entry(&mut props, "decision", {
        let mut e = new_entries();
        push_entry(&mut e, "type", Json::from_str("string"));
        push_entry(&mut e, "description", Json::from_str("The architectural or design decision made (required for remember_decision)"));
        proof {
            assert(crate::json::entries_model(e@) =~= seq![
                ("type"@, JsonV::Str("string"@)),
                ("description"@, JsonV::Str("The architectural or design decision made (required for remember_decision)"@)),
            ]);
        }
        object(e)
    });
    push_entry(&mut props, "rationale", {
        let mut e = new_entries();
        push_entry(&mut e, "type", Json::from_str("string"));
        push_entry(&mut e, "description", Json::from_str("Why this decision was made (required for remember_decision)"));
        proof {
            assert(crate::json::entries_model(e@) =~= seq![
                ("type"@, JsonV::Str("string"@)),
                ("description"@, JsonV::Str("Why this decision was made (required for remember_decision)"@)),
            ]);
        }
        object(e)
    });
    push_entry(&mut props, "alternatives", {
        let mut e = new_entries();
        push_entry(&mut e, "type", Json::from_str("array"));
        push_entry(&mut e, "items", {
            let mut e = new_entries();
            push_entry(&mut e, "type", Json::from_str("string"));
            proof {
                assert(crate::json::entries_model(e@) =~= seq![
                    ("type"@, JsonV::Str("string"@)),
                ]);
            }
            object(e)
        });
        push_entry(&mut e, "description", Json::from_str("Alternatives that were considered (optional for remember_decision)"));
        proof {
            assert(crate::json::entries_model(e@) =~= seq![
                ("type"@, JsonV::Str("array"@)),
                ("items"@, JsonV::Object(seq![
                    ("type"@, JsonV::Str("string"@)),
                ])),
                ("description"@, JsonV::Str("Alternatives that were considered (optional for remember_decision)"@)),
            ]);
        }
        object(e)
    });
    push_entry(&mut props, "question", {
        let mut e = new_entries();
        push_entry(&mut e, "type", Json::from_str("string"));
        push_entry(&mut e, "description", Json::from_str("(remember_decision_v2) What was being decided? Becomes the card title."));
        proof {
            assert(crate::json::entries_model(e@) =~= seq![
                ("type"@, JsonV::Str("string"@)),
                ("description"@, JsonV::Str("(remember_decision_v2) What was being decided? Becomes the card title."@)),
            ]);
        }
        object(e)
    });
    push_entry(&mut props, "choices", {
        let mut e = new_entries();
        push_entry(&mut e, "type", Json::from_str("array"));
        push_entry(&mut e, "description", Json::from_str("(remember_decision_v2) Alternatives considered. Exactly one entry must have chosen=true. Min 2 entries."));
        push_entry(&mut e, "items", {
            let mut e = new_entries();
            push_entry(&mut e, "type", Json::from_str("object"));
            push_entry(&mut e, "properties", {
                let mut e = new_entries();
                push_entry(&mut e, "id", {
                    let mut e = new_entries();
                    push_entry(&mut e, "type", Json::from_str("string"));
                    push_entry(&mut e, "description", Json::from_str("Stable identifier within the payload."));
                    proof {
                        assert(crate::json::entries_model(e@) =~= seq![
                            ("type"@, JsonV::Str("string"@)),
                            ("description"@, JsonV::Str("Stable identifier within the payload."@)),
                        ]);
                    }
                    object(e)
                });
                push_entry(&mut e, "label", {
                    let mut e = new_entries();
                    push_entry(&mut e, "type", Json::from_str("string"));
                    push_entry(&mut e, "description", Json::from_str("Human-readable label."));
                    proof {
                        assert(crate::json::entries_model(e@) =~= seq![
                            ("type"@, JsonV::Str("string"@)),
                            ("description"@, JsonV::Str("Human-readable label."@)),
                        ]);
                    }
                    object(e)
                });
                push_entry(&mut e, "summary", {
                    let mut e = new_entries();
                    push_entry(&mut e, "type", Json::from_str("string"));
                    push_entry(&mut e, "description", Json::from_str("Short distinguishing summary (optional)."));
                    proof {
                        assert(crate::json::entries_model(e@) =~= seq![
                            ("type"@, JsonV::Str("string"@)),
                            ("description"@, JsonV::Str("Short distinguishing summary (optional)."@)),
                        ]);
                    }
                    object(e)
                });
                push_entry(&mut e, "chosen", {
                    let mut e = new_entries();
                    push_entry(&mut e, "type", Json::from_str("boolean"));
                    push_entry(&mut e, "description", Json::from_str("True for the selected choice. Exactly one."));
                    proof {
                        assert(crate::json::entries_model(e@) =~= seq![
                            ("type"@, JsonV::Str("boolean"@)),
                            ("description"@, JsonV::Str("True for the selected choice. Exactly one."@)),
                        ]);
                    }
                    object(e)
                });
                proof {
                    assert(crate::json::entries_model(e@) =~= seq![
                        ("id"@, JsonV::Object(seq![
                            ("type"@, JsonV::Str("string"@)),
                            ("description"@, JsonV::Str("Stable identifier within the payload."@)),
                        ])),
                        ("label"@, JsonV::Object(seq![
                            ("type"@, JsonV::Str("string"@)),
                            ("description"@, JsonV::Str("Human-readable label."@)),
                        ])),
                        ("summary"@, JsonV::Object(seq![
                            ("type"@, JsonV::Str("string"@)),
                            ("description"@, JsonV::Str("Short distinguishing summary (optional)."@)),
                        ])),
                        ("chosen"@, JsonV::Object(seq![
                            ("type"@, JsonV::Str("boolean"@)),
                            ("description"@, JsonV::Str("True for the selected choice. Exactly one."@)),
                        ])),
                    ]);
                }
                object(e)
            });
            push_entry(&mut e, "required", {
                let mut a: Vec<Json> = Vec::new();
                a.push(Json::from_str("id"));
                a.push(Json::from_str("label"));
                proof {
                    assert(crate::json::items_model(a@) =~= seq![
                        JsonV::Str("id"@),
                        JsonV::Str("label"@),
                    ]);
                }
                array(a)
            });
            proof {
                assert(crate::json::entries_model(e@) =~= seq![
                    ("type"@, JsonV::Str("object"@)),
                    ("properties"@, JsonV::Object(seq![
                        ("id"@, JsonV::Object(seq![
                            ("type"@, JsonV::Str("string"@)),
                            ("description"@, JsonV::Str("Stable identifier within the payload."@)),
                        ])),
                        ("label"@, JsonV::Object(seq![
                            ("type"@, JsonV::Str("string"@)),
                            ("description"@, JsonV::Str("Human-readable label."@)),
                        ])),
                        ("summary"@, JsonV::Object(seq![
                            ("type"@, JsonV::Str("string"@)),
                            ("description"@, JsonV::Str("Short distinguishing summary (optional)."@)),
                        ])),
                        ("chosen"@, JsonV::Object(seq![
                            ("type"@, JsonV::Str("boolean"@)),
                            ("description"@, JsonV::Str("True for the selected choice. Exactly one."@)),
                        ])),
                    ])),
                    ("required"@, JsonV::Array(seq![
                        JsonV::Str("id"@),
                        JsonV::Str("label"@),
                    ])),
                ]);
            }
            object(e)
        });
        proof {
            assert(crate::json::entries_model(e@) =~= seq![
                ("type"@, JsonV::Str("array"@)),
                ("description"@, JsonV::Str("(remember_decision_v2) Alternatives considered. Exactly one entry must have chosen=true. Min 2 entries."@)),
                ("items"@, JsonV::Object(seq![
                    ("type"@, JsonV::Str("object"@)),
                    ("properties"@, JsonV::Object(seq![
                        ("id"@, JsonV::Object(seq![
                            ("type"@, JsonV::Str("string"@)),
                            ("description"@, JsonV::Str("Stable identifier within the payload."@)),
                        ])),
                        ("label"@, JsonV::Object(seq![
                            ("type"@, JsonV::Str("string"@)),
                            ("description"@, JsonV::Str("Human-readable label."@)),
                        ])),
                        ("summary"@, JsonV::Object(seq![
                            ("type"@, JsonV::Str("string"@)),
                            ("description"@, JsonV::Str("Short distinguishing summary (optional)."@)),
                        ])),
                        ("chosen"@, JsonV::Object(seq![
                            ("type"@, JsonV::Str("boolean"@)),
                            ("description"@, JsonV::Str("True for the selected choice. Exactly one."@)),
                        ])),
                    ])),
                    ("required"@, JsonV::Array(seq![
                        JsonV::Str("id"@),
                        JsonV::Str("label"@),
                    ])),
                ])),
            ]);
        }
        object(e)
    });
    push_entry(&mut props, "criteria", {
        let mut e = new_entries();
        push_entry(&mut e, "type", Json::from_str("array"));
        push_entry(&mut e, "description", Json::from_str("(remember_decision_v2) Evaluation axes. Used by the radar chart."));
        push_entry(&mut e, "items", {
            let mut e = new_entries();
            push_entry(&mut e, "type", Json::from_str("object"));
            push_entry(&mut e, "properties", {
                let mut e = new_entries();
                push_entry(&mut e, "id", {
                    let mut e = new_entries();
                    push_entry(&mut e, "type", Json::from_str("string"));
                    proof {
                        assert(crate::json::entries_model(e@) =~= seq![
                            ("type"@, JsonV::Str("string"@)),
                        ]);
                    }
                    object(e)
                });
                push_entry(&mut e, "label", {
                    let mut e = new_entries();
                    push_entry(&mut e, "type", Json::from_str("string"));
                    proof {
                        assert(crate::json::entries_model(e@) =~= seq![
                            ("type"@, JsonV::Str("string"@)),
                        ]);
                    }
                    object(e)
                });
                push_entry(&mut e, "weight", {
                    let mut e = new_entries();
                    push_entry(&mut e, "type", Json::from_str("number"));
                    push_entry(&mut e, "description", Json::from_str("Relative weight, defaults to 1.0. Must be >= 0."));
                    proof {
                        assert(crate::json::entries_model(e@) =~= seq![
                            ("type"@, JsonV::Str("number"@)),
                            ("description"@, JsonV::Str("Relative weight, defaults to 1.0. Must be >= 0."@)),
                        ]);
                    }
                    object(e)
                });
                proof {
                    assert(crate::json::entries_model(e@) =~= seq![
                        ("id"@, JsonV::Object(seq![
                            ("type"@, JsonV::Str("string"@)),
                        ])),
                        ("label"@, JsonV::Object(seq![
                            ("type"@, JsonV::Str("string"@)),
                        ])),
                        ("weight"@, JsonV::Object(seq![
                            ("type"@, JsonV::Str("number"@)),
                            ("description"@, JsonV::Str("Relative weight, defaults to 1.0. Must be >= 0."@)),
                        ])),
                    ]);
                }
                object(e)
            });
            push_entry(&mut e, "required", {
                let mut a: Vec<Json> = Vec::new();
                a.push(Json::from_str("id"));
                a.push(Json::from_str("label"));
                proof {
                    assert(crate::json::items_model(a@) =~= seq![
                        JsonV::Str("id"@),
                        JsonV::Str("label"@),
                    ]);
                }
                array(a)
            });
            proof {
                assert(crate::json::entries_model(e@) =~= seq![
                    ("type"@, JsonV::Str("object"@)),
                    ("properties"@, JsonV::Object(seq![
                        ("id"@, JsonV::Object(seq![
                            ("type"@, JsonV::Str("string"@)),
                        ])),
                        ("label"@, JsonV::Object(seq![
                            ("type"@, JsonV::Str("string"@)),
                        ])),
                        ("weight"@, JsonV::Object(seq![
                            ("type"@, JsonV::Str("number"@)),
                            ("description"@, JsonV::Str("Relative weight, defaults to 1.0. Must be >= 0."@)),
                        ])),
                    ])),
                    ("required"@, JsonV::Array(seq![
                        JsonV::Str("id"@),
                        JsonV::Str("label"@),
                    ])),
                ]);
            }
            object(e)
        });
        proof {
            assert(crate::json::entries_model(e@) =~= seq![
                ("type"@, JsonV::Str("array"@)),
                ("description"@, JsonV::Str("(remember_decision_v2) Evaluation axes. Used by the radar chart."@)),
                ("items"@, JsonV::Object(seq![
                    ("type"@, JsonV::Str("object"@)),
                    ("properties"@, JsonV::Object(seq![
                        ("id"@, JsonV::Object(seq![
                            ("type"@, JsonV::Str("string"@)),
                        ])),
                        ("label"@, JsonV::Object(seq![
                            ("type"@, JsonV::Str("string"@)),
                        ])),
                        ("weight"@, JsonV::Object(seq![
                            ("type"@, JsonV::Str("number"@)),
                            ("description"@, JsonV::Str("Relative weight, defaults to 1.0. Must be >= 0."@)),
                        ])),
                    ])),
                    ("required"@, JsonV::Array(seq![
                        JsonV::Str("id"@),
                        JsonV::Str("label"@),
                    ])),
                ])),
            ]);
        }
        object(e)
    });
    push_entry(&mut props, "scoreMatrix", {
        let mut e = new_entries();
        push_entry(&mut e, "type", Json::from_str("object"));
        push_entry(&mut e, "description", Json::from_str("(remember_decision_v2) Sparse 1-5 score matrix keyed by criterion id, then by choice id. Missing cells render as '—'."));
        push_entry(&mut e, "additionalProperties", {
            let mut e = new_entries();
            push_entry(&mut e, "type", Json::from_str("object"));
            push_entry(&mut e, "additionalProperties", {
                let mut e = new_entries();
                push_entry(&mut e, "type", Json::from_str("integer"));
                push_entry(&mut e, "minimum", Json::Int(1));
                push_entry(&mut e, "maximum", Json::Int(5));
                proof {
                    assert(crate::json::entries_model(e@) =~= seq![
                        ("type"@, JsonV::Str("integer"@)),
                        ("minimum"@, JsonV::Int(1)),
                        ("maximum"@, JsonV::Int(5)),
                    ]);
                }
                object(e)
            });
            proof {
                assert(crate::json::entries_model(e@) =~= seq![
                    ("type"@, JsonV::Str("object"@)),
                    ("additionalProperties"@, JsonV::Object(seq![
                        ("type"@, JsonV::Str("integer"@)),
                        ("minimum"@, JsonV::Int(1)),
                        ("maximum"@, JsonV::Int(5)),
                    ])),
                ]);
            }
            object(e)
        });
        proof {
            assert(crate::json::entries_model(e@) =~= seq![
                ("type"@, JsonV::Str("object"@)),
                ("description"@, JsonV::Str("(remember_decision_v2) Sparse 1-5 score matrix keyed by criterion id, then by choice id. Missing cells render as '—'."@)),
                ("additionalProperties"@, JsonV::Object(seq![
                    ("type"@, JsonV::Str("object"@)),
                    ("additionalProperties"@, JsonV::Object(seq![
                        ("type"@, JsonV::Str("integer"@)),
                        ("minimum"@, JsonV::Int(1)),
                        ("maximum"@, JsonV::Int(5)),
                    ])),
                ])),
            ]);
        }
        object(e)
    });
    push_entry(&mut props, "validUntil", {
        let mut e = new_entries();
        push_entry(&mut e, "type", Json::from_str("string"));
        push_entry(&mut e, "format", Json::from_str("date-time"));
        push_entry(&mut e, "description", Json::from_str("(remember_decision_v2) Optional RFC3339 timestamp. When the date passes the decision is auto-flagged as stale by reflect."));
        proof {
            assert(crate::json::entries_model(e@) =~= seq![
                ("type"@, JsonV::Str("string"@)),
                ("format"@, JsonV::Str("date-time"@)),
                ("description"@, JsonV::Str("(remember_decision_v2) Optional RFC3339 timestamp. When the date passes the decision is auto-flagged as stale by reflect."@)),
            ]);
        }
        object(e)
    });
    push_entry(&mut props, "supersedes", {
        let mut e = new_entries();
        push_entry(&mut e, "type", Json::from_str("array"));
        push_entry(&mut e, "items", {
            let mut e = new_entries();
            push_entry(&mut e, "type", Json::from_str("string"));
            proof {
                assert(crate::json::entries_model(e@) =~= seq![
                    ("type"@, JsonV::Str("string"@)),
                ]);
            }
            object(e)
        });
        push_entry(&mut e, "description", Json::from_str("(remember_decision_v2) IDs of decisions this one replaces."));
        proof {
            assert(crate::json::entries_model(e@) =~= seq![
                ("type"@, JsonV::Str("array"@)),
                ("items"@, JsonV::Object(seq![
                    ("type"@, JsonV::Str("string"@)),
                ])),
                ("description"@, JsonV::Str("(remember_decision_v2) IDs of decisions this one replaces."@)),
            ]);
        }
        object(e)
    });
    push_entry(&mut props, "files", {
        let mut e = new_entries();
        push_entry(&mut e, "type", Json::from_str("array"));
        push_entry(&mut e, "items", {
            let mut e = new_entries();
            push_entry(&mut e, "type", Json::from_str("string"));
            proof {
                assert(crate::json::entries_model(e@) =~= seq![
                    ("type"@, JsonV::Str("string"@)),
                ]);
            }
            object(e)
        });
        push_entry(&mut e, "description", Json::from_str("Files where this pattern is used or affected by this decision. Stored as code anchors, not as text: the path is re-checked against the revision it was written at and each result carries a verdict (fresh/stale/orphaned/unchecked), so a reader can tell that the code has moved on. Use 'path@commit#symbol' when you know the revision and the symbol. Never repeat these paths in the decision or the description — a path inside the text cannot be re-checked."));
        proof {
            assert(crate::json::entries_model(e@) =~= seq![
                ("type"@, JsonV::Str("array"@)),
                ("items"@, JsonV::Object(seq![
                    ("type"@, JsonV::Str("string"@)),
                ])),
                ("description"@, JsonV::Str("Files where this pattern is used or affected by this decision. Stored as code anchors, not as text: the path is re-checked against the revision it was written at and each result carries a verdict (fresh/stale/orphaned/unchecked), so a reader can tell that the code has moved on. Use 'path@commit#symbol' when you know the revision and the symbol. Never repeat these paths in the decision or the description — a path inside the text cannot be re-checked."@)),
            ]);
        }
        object(e)
    });
    push_entry(&mut props, "codebase", {
        let mut e = new_entries();
        push_entry(&mut e, "type", Json::from_str("string"));
        push_entry(&mut e, "description", Json::from_str("Codebase/project identifier (e.g., 'vestige-tauri')"));
        proof {
            assert(crate::json::entries_model(e@) =~= seq![
                ("type"@, JsonV::Str("string"@)),
                ("description"@, JsonV::Str("Codebase/project identifier (e.g., 'vestige-tauri')"@)),
            ]);
        }
        object(e)
    });
    push_entry(&mut props, "limit", {
        let mut e = new_entries();
        push_entry(&mut e, "type", Json::from_str("integer"));
        push_entry(&mut e, "description", Json::from_str("Maximum items per category (default: 10, for get_context)"));
        push_entry(&mut e, "default", Json::Int(10));
        proof {
            assert(crate::json::entries_model(e@) =~= seq![
                ("type"@, JsonV::Str("integer"@)),
                ("description"@, JsonV::Str("Maximum items per category (default: 10, for get_context)"@)),
                ("default"@, JsonV::Int(10)),
            ]);
        }
        object(e)
    });
    let mut required: Vec<String> = Vec::new();
    required.push(owned("action"));
    let extra = new_entries();
    proof {
        assert(keys_of(entries_model(props@)) =~= seq!["action"@, "name"@, "description"@, "decision"@, "rationale"@, "alternatives"@, "question"@, "choices"@, "criteria"@, "scoreMatrix"@, "validUntil"@, "supersedes"@, "files"@, "codebase"@, "limit"@]);
        assert(names_of(required@) =~= seq!["action"@]);
        assert(keys_of(entries_model(props@))[0] == "action"@);
    }
    let s = ToolSchema { properties: props, required, extra };
    proof {
        assert(crate::json::entries_model(s.properties@) =~= seq![
            ("action"@, JsonV::Object(seq![
                ("type"@, JsonV::Str("string"@)),
                ("enum"@, JsonV::Array(seq![
                    JsonV::Str("remember_pattern"@),
                    JsonV::Str("remember_decision"@),
                    JsonV::Str("remember_decision_v2"@),
                    JsonV::Str("get_context"@),
                ])),
                ("description"@, JsonV::Str("Action to perform: 'remember_pattern' stores a code pattern, 'remember_decision' stores an architectural decision (legacy Markdown), 'remember_decision_v2' stores a structured decision matrix (question + choices + criteria + score matrix), 'get_context' retrieves patterns and decisions for a codebase"@)),
            ])),
            ("name"@, JsonV::Object(seq![
                ("type"@, JsonV::Str("string"@)),
                ("description"@, JsonV::Str("Name/title for the pattern (required for remember_pattern)"@)),
            ])),
            ("description"@, JsonV::Object(seq![
                ("type"@, JsonV::Str("string"@)),
                ("description"@, JsonV::Str("Detailed description of the pattern (required for remember_pattern)"@)),
            ])),
            ("decision"@, JsonV::Object(seq![
                ("type"@, JsonV::Str("string"@)),
                ("description"@, JsonV::Str("The architectural or design decision made (required for remember_decision)"@)),
            ])),
            ("rationale"@, JsonV::Object(seq![
                ("type"@, JsonV::Str("string"@)),
                ("description"@, JsonV::Str("Why this decision was made (required for remember_decision)"@)),
            ])),
            ("alternatives"@, JsonV::Object(seq![
                ("type"@, JsonV::Str("array"@)),
                ("items"@, JsonV::Object(seq![
                    ("type"@, JsonV::Str("string"@)),
                ])),
                ("description"@, JsonV::Str("Alternatives that were considered (optional for remember_decision)"@)),
            ])),
            ("question"@, JsonV::Object(seq![
                ("type"@, JsonV::Str("string"@)),
                ("description"@, JsonV::Str("(remember_decision_v2) What was being decided? Becomes the card title."@)),
            ])),
            ("choices"@, JsonV::Object(seq![
                ("type"@, JsonV::Str("array"@)),
                ("description"@, JsonV::Str("(remember_decision_v2) Alternatives considered. Exactly one entry must have chosen=true. Min 2 entries."@)),
                ("items"@, JsonV::Object(seq![
                    ("type"@, JsonV::Str("object"@)),
                    ("properties"@, JsonV::Object(seq![
                        ("id"@, JsonV::Object(seq![
                            ("type"@, JsonV::Str("string"@)),
                            ("description"@, JsonV::Str("Stable identifier within the payload."@)),
                        ])),
                        ("label"@, JsonV::Object(seq![
                            ("type"@, JsonV::Str("string"@)),
                            ("description"@, JsonV::Str("Human-readable label."@)),
                        ])),
                        ("summary"@, JsonV::Object(seq![
                            ("type"@, JsonV::Str("string"@)),
                            ("description"@, JsonV::Str("Short distinguishing summary (optional)."@)),
                        ])),
                        ("chosen"@, JsonV::Object(seq![
                            ("type"@, JsonV::Str("boolean"@)),
                            ("description"@, JsonV::Str("True for the selected choice. Exactly one."@)),
                        ])),
                    ])),
                    ("required"@, JsonV::Array(seq![
                        JsonV::Str("id"@),
                        JsonV::Str("label"@),
                    ])),
                ])),
            ])),
            ("criteria"@, JsonV::Object(seq![
                ("type"@, JsonV::Str("array"@)),
                ("description"@, JsonV::Str("(remember_decision_v2) Evaluation axes. Used by the radar chart."@)),
                ("items"@, JsonV::Object(seq![
                    ("type"@, JsonV::Str("object"@)),
                    ("properties"@, JsonV::Object(seq![
                        ("id"@, JsonV::Object(seq![
                            ("type"@, JsonV::Str("string"@)),
                        ])),
                        ("label"@, JsonV::Object(seq![
                            ("type"@, JsonV::Str("string"@)),
                        ])),
                        ("weight"@, JsonV::Object(seq![
                            ("type"@, JsonV::Str("number"@)),
                            ("description"@, JsonV::Str("Relative weight, defaults to 1.0. Must be >= 0."@)),
                        ])),
                    ])),
                    ("required"@, JsonV::Array(seq![
                        JsonV::Str("id"@),
                        JsonV::Str("label"@),
                    ])),
                ])),
            ])),
            ("scoreMatrix"@, JsonV::Object(seq![
                ("type"@, JsonV::Str("object"@)),
                ("description"@, JsonV::Str("(remember_decision_v2) Sparse 1-5 score matrix keyed by criterion id, then by choice id. Missing cells render as '—'."@)),
                ("additionalProperties"@, JsonV::Object(seq![
                    ("type"@, JsonV::Str("object"@)),
                    ("additionalProperties"@, JsonV::Object(seq![
                        ("type"@, JsonV::Str("integer"@)),
                        ("minimum"@, JsonV::Int(1)),
                        ("maximum"@, JsonV::Int(5)),
                    ])),
                ])),
            ])),
            ("validUntil"@, JsonV::Object(seq![
                ("type"@, JsonV::Str("string"@)),
                ("format"@, JsonV::Str("date-time"@)),
                ("description"@, JsonV::Str("(remember_decision_v2) Optional RFC3339 timestamp. When the date passes the decision is auto-flagged as stale by reflect."@)),
            ])),
            ("supersedes"@, JsonV::Object(seq![
                ("type"@, JsonV::Str("array"@)),
                ("items"@, JsonV::Object(seq![
                    ("type"@, JsonV::Str("string"@)),
                ])),
                ("description"@, JsonV::Str("(remember_decision_v2) IDs of decisions this one replaces."@)),
            ])),
            ("files"@, JsonV::Object(seq![
                ("type"@, JsonV::Str("array"@)),
                ("items"@, JsonV::Object(seq![
                    ("type"@, JsonV::Str("string"@)),
                ])),
                ("description"@, JsonV::Str("Files where this pattern is used or affected by this decision. Stored as code anchors, not as text: the path is re-checked against the revision it was written at and each result carries a verdict (fresh/stale/orphaned/unchecked), so a reader can tell that the code has moved on. Use 'path@commit#symbol' when you know the revision and the symbol. Never repeat these paths in the decision or the description — a path inside the text cannot be re-checked."@)),
            ])),
            ("codebase"@, JsonV::Object(seq![
                ("type"@, JsonV::Str("string"@)),
                ("description"@, JsonV::Str("Codebase/project identifier (e.g., 'vestige-tauri')"@)),
            ])),
            ("limit"@, JsonV::Object(seq![
                ("type"@, JsonV::Str("integer"@)),
                ("description"@, JsonV::Str("Maximum items per category (default: 10, for get_context)"@)),
                ("default"@, JsonV::Int(10)),
            ])),
        ]);
        assert(crate::json::strs_model(s.required@) =~= seq![
            JsonV::Str("action"@),
        ]);
        assert(s.json_v()->Object_0 =~= schema_spec()->Object_0);
    }
    s.publish()
}


// ---------------------------------------------------------------------------
// Actions
// ---------------------------------------------------------------------------

/// The four actions of the tool.
#[derive(PartialEq, Eq, Structural, Clone, Copy, Debug)]
pub enum CodebaseAction {
    RememberPattern,
    RememberDecision,
    RememberDecisionV2,
    GetContext,
}

/// The action named by `action`, or the refusal text.
pub open spec fn action_s(action: Seq<char>) -> Result<CodebaseAction, Seq<char>> {
    if action == "remember_pattern"@ {
        Ok(CodebaseAction::RememberPattern)
    } else if action == "remember_decision"@ {
        Ok(CodebaseAction::RememberDecision)
    } else if action == "remember_decision_v2"@ {
        Ok(CodebaseAction::RememberDecisionV2)
    } else if action == "get_context"@ {
        Ok(CodebaseAction::GetContext)
    } else {
        Err("Invalid action '"@ + action
            + "'. Must be one of: remember_pattern, remember_decision, remember_decision_v2, get_context"@)
    }
}

/// The action named by `action`, or the refusal of an unknown one.
pub fn parse_action(action: &str) -> (r: Result<CodebaseAction, String>)
    ensures
        match r {
            Ok(a) => action_s(action@) == Ok::<CodebaseAction, Seq<char>>(a),
            Err(e) => action_s(action@) == Err::<CodebaseAction, Seq<char>>(e@),
        },
{
    let a = text_chars(action);
    if crate::text::chars_eq_str(&a, "remember_pattern") {
        Ok(CodebaseAction::RememberPattern)
    } else if crate::text::chars_eq_str(&a, "remember_decision") {
        Ok(CodebaseAction::RememberDecision)
    } else if crate::text::chars_eq_str(&a, "remember_decision_v2") {
        Ok(CodebaseAction::RememberDecisionV2)
    } else if crate::text::chars_eq_str(&a, "get_context") {
        Ok(CodebaseAction::GetContext)
    } else {
        let mut m: Vec<char> = text_chars("Invalid action '");
        push_str(&mut m, action);
        push_str(
            &mut m,
            "'. Must be one of: remember_pattern, remember_decision, remember_decision_v2, get_context",
        );
        Err(string_of(m.as_slice()))
    }
}

pub open spec fn opt_view(o: Option<&str>) -> Option<Seq<char>> {
    match o {
        Some(s) => Some(s@),
        None => None,
    }
}

// ---------------------------------------------------------------------------
// remember_pattern
// ---------------------------------------------------------------------------

/// The refusal a pattern meets, if any: a name and a description are owed,
/// and the name may not be blank.
pub open spec fn pattern_error(name: Option<Seq<char>>, description: Option<Seq<char>>) -> Option<Seq<char>> {
    match name {
        None => Some("'name' is required for remember_pattern action"@),
        Some(n) => match description {
            None => Some("'description' is required for remember_pattern action"@),
            Some(_) => if trim_s(n).len() == 0 {
                Some("Pattern name cannot be empty"@)
            } else {
                None
            },
        },
    }
}

/// Checks the fields of a pattern.
pub fn check_pattern(name: Option<&str>, description: Option<&str>) -> (r: Result<(), String>)
    ensures
        match r {
            Ok(()) => pattern_error(opt_view(name), opt_view(description)) is None,
            Err(e) => pattern_error(opt_view(name), opt_view(description)) == Some(e@),
        },
{
    let n = match name {
        Some(n) => n,
        None => {
            return Err(owned("'name' is required for remember_pattern action"));
        },
    };
    if description.is_none() {
        return Err(owned("'description' is required for remember_pattern action"));
    }
    if is_blank(n) {
        return Err(owned("Pattern name cannot be empty"));
    }
    Ok(())
}

fn is_blank(s: &str) -> (r: bool)
    ensures
        r == (trim_s(s@).len() == 0),
{
    let cs = text_chars(s);
    let (a, b) = trim_range(&cs, 0, cs.len());
    proof {
        assert(cs@.subrange(0, cs@.len() as int) =~= s@);
    }
    a == b
}

/// The stored content of a pattern. The files it concerns are not written
/// into the text: they travel as code anchors.
pub fn pattern_content(name: &str, description: &str) -> (r: String)
    ensures
        r@ == "# Code Pattern: "@ + name@ + "\n\n"@ + description@,
{
    let mut m: Vec<char> = text_chars("# Code Pattern: ");
    push_str(&mut m, name);
    push_str(&mut m, "\n\n");
    push_str(&mut m, description);
    string_of(m.as_slice())
}

/// The kind of record a tag set is for.
#[derive(PartialEq, Eq, Structural, Clone, Copy, Debug)]
pub enum RecordKind {
    Pattern,
    Decision,
    DecisionMatrix,
}

/// The fixed tags of a record kind.
pub open spec fn base_tags(kind: RecordKind) -> Seq<Seq<char>> {
    match kind {
        RecordKind::Pattern => seq!["pattern"@, "codebase"@],
        RecordKind::Decision => seq!["decision"@, "architecture"@, "codebase"@],
        RecordKind::DecisionMatrix => seq!["decision"@, "decision-matrix"@, "architecture"@, "codebase"@],
    }
}

pub open spec fn tag_names(v: Seq<String>) -> Seq<Seq<char>> {
    Seq::new(v.len(), |i: int| v[i]@)
}

/// The tags of a stored record: its kind's tags, then `codebase:<name>`
/// when a codebase is named.
pub fn record_tags(kind: RecordKind, codebase: Option<&str>) -> (r: Vec<String>)
    ensures
        tag_names(r@) == base_tags(kind) + match codebase {
            Some(c) => seq!["codebase:"@ + c@],
            None => Seq::<Seq<char>>::empty(),
        },
{
    let mut r: Vec<String> = Vec::new();
    match kind {
        RecordKind::Pattern => {
            r.push(owned("pattern"));
            r.push(owned("codebase"));
        },
        RecordKind::Decision => {
            r.push(owned("decision"));
            r.push(owned("architecture"));
            r.push(owned("codebase"));
        },
        RecordKind::DecisionMatrix => {
            r.push(owned("decision"));
            r.push(owned("decision-matrix"));
            r.push(owned("architecture"));
            r.push(owned("codebase"));
        },
    }
    let ghost base = tag_names(r@);
    proof {
        assert(base =~= base_tags(kind));
    }
    match codebase {
        Some(c) => {
            let mut t: Vec<char> = text_chars("codebase:");
            push_str(&mut t, c);
            r.push(string_of(t.as_slice()));
            proof {
                assert(tag_names(r@) =~= base + seq!["codebase:"@ + c@]);
            }
        },
        None => {
            proof {
                assert(tag_names(r@) =~= base + Seq::<Seq<char>>::empty());
            }
        },
    }
    r
}

/// The reply to a stored pattern.
pub fn pattern_reply(node_id: &str, name: &str) -> (r: Json)
    ensures
        r@ == JsonV::Object(
            seq![
                ("action"@, JsonV::Str("remember_pattern"@)),
                ("success"@, JsonV::Bool(true)),
                ("nodeId"@, JsonV::Str(node_id@)),
                ("patternName"@, JsonV::Str(name@)),
                ("message"@, JsonV::Str("Pattern '"@ + name@ + "' remembered successfully"@)),
            ],
        ),
{
    let mut m: Vec<char> = text_chars("Pattern '");
    push_str(&mut m, name);
    push_str(&mut m, "' remembered successfully");
    let mut e = new_entries();
    push_entry(&mut e, "action", Json::from_str("remember_pattern"));
    push_entry(&mut e, "success", Json::Bool(true));
    push_entry(&mut e, "nodeId", Json::from_str(node_id));
    push_entry(&mut e, "patternName", Json::from_str(name));
    push_entry(&mut e, "message", Json::Str(string_of(m.as_slice())));
    proof {
        assert(entries_model(e@) =~= seq![
            ("action"@, JsonV::Str("remember_pattern"@)),
            ("success"@, JsonV::Bool(true)),
            ("nodeId"@, JsonV::Str(node_id@)),
            ("patternName"@, JsonV::Str(name@)),
            ("message"@, JsonV::Str("Pattern '"@ + name@ + "' remembered successfully"@)),
        ]);
    }
    object(e)
}

// ---------------------------------------------------------------------------
// remember_decision
// ---------------------------------------------------------------------------

/// The refusal a decision meets, if any.
pub open spec fn decision_error(decision: Option<Seq<char>>, rationale: Option<Seq<char>>) -> Option<Seq<char>> {
    match decision {
        None => Some("'decision' is required for remember_decision action"@),
        Some(d) => match rationale {
            None => Some("'rationale' is required for remember_decision action"@),
            Some(_) => if trim_s(d).len() == 0 {
                Some("Decision cannot be empty"@)
            } else {
                None
            },
        },
    }
}

/// Checks the fields of a decision.
pub fn check_decision(decision: Option<&str>, rationale: Option<&str>) -> (r: Result<(), String>)
    ensures
        match r {
            Ok(()) => decision_error(opt_view(decision), opt_view(rationale)) is None,
            Err(e) => decision_error(opt_view(decision), opt_view(rationale)) == Some(e@),
        },
{
    let d = match decision {
        Some(d) => d,
        None => {
            return Err(owned("'decision' is required for remember_decision action"));
        },
    };
    if rationale.is_none() {
        return Err(owned("'rationale' is required for remember_decision action"));
    }
    if is_blank(d) {
        return Err(owned("Decision cannot be empty"));
    }
    Ok(())
}

/// The alternatives section of a decision: nothing for no alternatives.
pub open spec fn alternatives_s(alts: Seq<Seq<char>>) -> Seq<char>
    decreases alts.len(),
{
    if alts.len() == 0 {
        Seq::empty()
    } else {
        alternatives_s(alts.drop_last()) + "- "@ + alts.last() + "\n"@
    }
}

/// The stored content of a decision, in the shape of an architecture
/// decision record.
pub open spec fn decision_content_s(decision: Seq<char>, rationale: Seq<char>, alts: Seq<Seq<char>>) -> Seq<char> {
    "# Decision: "@ + decision_title_s(decision) + "\n\n## Context\n\n"@ + rationale
        + "\n\n## Decision\n\n"@ + decision + if alts.len() == 0 {
        Seq::empty()
    } else {
        "\n\n## Alternatives Considered:\n"@ + alternatives_s(alts)
    }
}

/// The stored content of a decision.
pub fn decision_content(decision: &str, rationale: &str, alternatives: Option<&Vec<String>>) -> (r: String)
    ensures
        r@ == decision_content_s(
            decision@,
            rationale@,
            match alternatives {
                Some(v) => tag_names(v@),
                None => Seq::<Seq<char>>::empty(),
            },
        ),
{
    let title = decision_title(decision);
    let mut m: Vec<char> = text_chars("# Decision: ");
    push_str(&mut m, title.as_str());
    push_str(&mut m, "\n\n## Context\n\n");
    push_str(&mut m, rationale);
    push_str(&mut m, "\n\n## Decision\n\n");
    push_str(&mut m, decision);
    let ghost head = m@;
    match alternatives {
        Some(alts) => {
            if alts.len() > 0 {
                push_str(&mut m, "\n\n## Alternatives Considered:\n");
                let ghost names = tag_names(alts@);
                let ghost start = m@;
                let mut i: usize = 0;
                proof {
                    assert(start =~= start + alternatives_s(names.take(0)));
                }
                while i < alts.len()
                    invariant
                        0 <= i <= alts@.len(),
                        names == tag_names(alts@),
                        m@ == start + alternatives_s(names.take(i as int)),
                    decreases alts.len() - i,
                {
                    proof {
                        assert(names.take(i + 1).drop_last() =~= names.take(i as int));
                        assert(names[i as int] == alts@[i as int]@);
                    }
                    push_str(&mut m, "- ");
                    push_str(&mut m, alts[i].as_str());
                    push_str(&mut m, "\n");
                    i = i + 1;
                }
                proof {
                    assert(names.take(alts@.len() as int) =~= names);
                }
            } else {
                proof {
                    assert(m@ =~= head + Seq::<char>::empty());
                }
            }
        },
        None => {
            proof {
                assert(m@ =~= head + Seq::<char>::empty());
            }
        },
    }
    string_of(m.as_slice())
}

/// The reply to a stored decision.
pub fn decision_reply(node_id: &str) -> (r: Json)
    ensures
        r@ == JsonV::Object(
            seq![
                ("action"@, JsonV::Str("remember_decision"@)),
                ("success"@, JsonV::Bool(true)),
                ("nodeId"@, JsonV::Str(node_id@)),
                ("message"@, JsonV::Str("Architectural decision remembered successfully"@)),
            ],
        ),
{
    let mut e = new_entries();
    push_entry(&mut e, "action", Json::from_str("remember_decision"));
    push_entry(&mut e, "success", Json::Bool(true));
    push_entry(&mut e, "nodeId", Json::from_str(node_id));
    push_entry(&mut e, "message", Json::from_str("Architectural decision remembered successfully"));
    proof {
        assert(entries_model(e@) =~= seq![
            ("action"@, JsonV::Str("remember_decision"@)),
            ("success"@, JsonV::Bool(true)),
            ("nodeId"@, JsonV::Str(node_id@)),
            ("message"@, JsonV::Str("Architectural decision remembered successfully"@)),
        ]);
    }
    object(e)
}

// ---------------------------------------------------------------------------
// remember_decision_v2
// ---------------------------------------------------------------------------

/// One alternative of a decision matrix.
pub struct Choice {
    pub id: String,
    pub label: String,
    pub summary: Option<String>,
    pub chosen: bool,
}

/// The refusal a decision matrix meets before its payload is validated, if
/// any: a question that is not blank, a rationale and choices are owed.
pub open spec fn matrix_error(question: Option<Seq<char>>, rationale: Option<Seq<char>>, has_choices: bool) -> Option<Seq<char>> {
    match question {
        None => Some("'question' is required for remember_decision_v2 action"@),
        Some(q) => if trim_s(q).len() == 0 {
            Some("Question cannot be empty"@)
        } else if rationale is None {
            Some("'rationale' is required for remember_decision_v2 action"@)
        } else if !has_choices {
            Some("'choices' is required for remember_decision_v2 action"@)
        } else {
            None
        },
    }
}

/// Checks the fields of a decision matrix; the trimmed question on success.
pub fn check_matrix(question: Option<&str>, rationale: Option<&str>, has_choices: bool) -> (r: Result<String, String>)
    ensures
        match r {
            Ok(q) => matrix_error(opt_view(question), opt_view(rationale), has_choices) is None
                && q@ == trim_s(question.unwrap()@),
            Err(e) => matrix_error(opt_view(question), opt_view(rationale), has_choices) == Some(e@),
        },
{
    let q = match question {
        Some(q) => q,
        None => {
            return Err(owned("'question' is required for remember_decision_v2 action"));
        },
    };
    let cs = text_chars(q);
    let (a, b) = trim_range(&cs, 0, cs.len());
    proof {
        assert(cs@.subrange(0, cs@.len() as int) =~= q@);
    }
    if a == b {
        return Err(owned("Question cannot be empty"));
    }
    if rationale.is_none() {
        return Err(owned("'rationale' is required for remember_decision_v2 action"));
    }
    if !has_choices {
        return Err(owned("'choices' is required for remember_decision_v2 action"));
    }
    let t = copy_range(&cs, a, b);
    Ok(string_of(t.as_slice()))
}

/// The error for a matrix whose payload failed validation.
pub fn invalid_payload_message(reason: &str) -> (r: String)
    ensures
        r@ == "Invalid decision payload: "@ + reason@,
{
    let mut m: Vec<char> = text_chars("Invalid decision payload: ");
    push_str(&mut m, reason);
    string_of(m.as_slice())
}

/// The label of the chosen alternative: the first marked chosen, else `<unknown>`.
pub open spec fn chosen_label_s(labels: Seq<(Seq<char>, bool)>) -> Seq<char>
    decreases labels.len(),
{
    if labels.len() == 0 {
        "<unknown>"@
    } else if labels[0].1 {
        labels[0].0
    } else {
        chosen_label_s(labels.drop_first())
    }
}

pub open spec fn choice_marks(v: Seq<Choice>) -> Seq<(Seq<char>, bool)> {
    Seq::new(v.len(), |i: int| (v[i].label@, v[i].chosen))
}

/// The label of the chosen alternative.
pub fn chosen_label(choices: &Vec<Choice>) -> (r: String)
    ensures
        r@ == chosen_label_s(choice_marks(choices@)),
{
    let ghost marks = choice_marks(choices@);
    let mut i: usize = 0;
    proof {
        assert(marks.subrange(0, marks.len() as int) =~= marks);
    }
    while i < choices.len()
        invariant
            0 <= i <= choices@.len(),
            marks == choice_marks(choices@),
            chosen_label_s(marks) == chosen_label_s(marks.subrange(i as int, marks.len() as int)),
        decreases choices.len() - i,
    {
        proof {
            assert(marks.subrange(i as int, marks.len() as int).drop_first() =~= marks.subrange(
                i + 1,
                marks.len() as int,
            ));
        }
        if choices[i].chosen {
            return owned(choices[i].label.as_str());
        }
        i = i + 1;
    }
    proof {
        assert(marks.subrange(i as int, marks.len() as int) =~= Seq::<(Seq<char>, bool)>::empty());
    }
    owned("<unknown>")
}

/// One line per alternative: a check mark for the chosen one.
pub open spec fn choice_lines(v: Seq<(Seq<char>, Option<Seq<char>>, bool)>) -> Seq<char>
    decreases v.len(),
{
    if v.len() == 0 {
        Seq::empty()
    } else {
        let c = v.last();
        choice_lines(v.drop_last()) + "- ["@ + (if c.2 { "✓"@ } else { " "@ }) + "] **"@ + c.0
            + "** — "@ + (match c.1 {
            Some(s) => s,
            None => Seq::empty(),
        }) + "\n"@
    }
}

pub open spec fn choice_rows(v: Seq<Choice>) -> Seq<(Seq<char>, Option<Seq<char>>, bool)> {
    Seq::new(
        v.len(),
        |i: int|
            (
                v[i].label@,
                match v[i].summary {
                    Some(s) => Some(s@),
                    None => None,
                },
                v[i].chosen,
            ),
    )
}

/// One line per criterion, with its weight as the caller formatted it.
pub open spec fn criterion_lines(v: Seq<(Seq<char>, Seq<char>)>) -> Seq<char>
    decreases v.len(),
{
    if v.len() == 0 {
        Seq::empty()
    } else {
        criterion_lines(v.drop_last()) + "- "@ + v.last().0 + " (weight "@ + v.last().1 + ")\n"@
    }
}

pub open spec fn pairs_view(v: Seq<(String, String)>) -> Seq<(Seq<char>, Seq<char>)> {
    Seq::new(v.len(), |i: int| (v[i].0@, v[i].1@))
}

/// The Markdown stored as the content of a decision matrix. `criteria`
/// pairs each criterion's label with its weight written to one decimal.
pub open spec fn matrix_content_s(
    question: Seq<char>,
    chosen: Seq<char>,
    rationale: Seq<char>,
    choices: Seq<(Seq<char>, Option<Seq<char>>, bool)>,
    criteria: Seq<(Seq<char>, Seq<char>)>,
) -> Seq<char> {
    "# Decision: "@ + question + "\n\n**Chosen:** "@ + chosen + "\n\n## Rationale\n\n"@ + rationale
        + "\n\n## Choices\n"@ + choice_lines(choices) + if criteria.len() == 0 {
        Seq::empty()
    } else {
        "\n## Criteria\n"@ + criterion_lines(criteria)
    }
}

/// The Markdown stored as the content of a decision matrix.
pub fn matrix_content(
    question: &str,
    chosen: &str,
    rationale: &str,
    choices: &Vec<Choice>,
    criteria: &Vec<(String, String)>,
) -> (r: String)
    ensures
        r@ == matrix_content_s(question@, chosen@, rationale@, choice_rows(choices@), pairs_view(criteria@)),
{
    let mut m: Vec<char> = text_chars("# Decision: ");
    push_str(&mut m, question);
    push_str(&mut m, "\n\n**Chosen:** ");
    push_str(&mut m, chosen);
    push_str(&mut m, "\n\n## Rationale\n\n");
    push_str(&mut m, rationale);
    push_str(&mut m, "\n\n## Choices\n");
    let ghost rows = choice_rows(choices@);
    let ghost start = m@;
    let mut i: usize = 0;
    proof {
        assert(start =~= start + choice_lines(rows.take(0)));
    }
    while i < choices.len()
        invariant
            0 <= i <= choices@.len(),
            rows == choice_rows(choices@),
            m@ == start + choice_lines(rows.take(i as int)),
        decreases choices.len() - i,
    {
        proof {
            assert(rows.take(i + 1).drop_last() =~= rows.take(i as int));
        }
        let c = &choices[i];
        push_str(&mut m, "- [");
        if c.chosen {
            push_str(&mut m, "✓");
        } else {
            push_str(&mut m, " ");
        }
        push_str(&mut m, "] **");
        push_str(&mut m, c.label.as_str());
        push_str(&mut m, "** — ");
        match &c.summary {
            Some(s) => push_str(&mut m, s.as_str()),
            None => push_str(&mut m, ""),
        }
        push_str(&mut m, "\n");
        proof {
            reveal_strlit("");
            assert(""@ =~= Seq::<char>::empty());
        }
        i = i + 1;
    }
    proof {
        assert(rows.take(choices@.len() as int) =~= rows);
    }
    let ghost mid = m@;
    if criteria.len() > 0 {
        push_str(&mut m, "\n## Criteria\n");
        let ghost pv = pairs_view(criteria@);
        let ghost start2 = m@;
        let mut j: usize = 0;
        proof {
            assert(start2 =~= start2 + criterion_lines(pv.take(0)));
        }
        while j < criteria.len()
            invariant
                0 <= j <= criteria@.len(),
                pv == pairs_view(criteria@),
                m@ == start2 + criterion_lines(pv.take(j as int)),
            decreases criteria.len() - j,
        {
            proof {
                assert(pv.take(j + 1).drop_last() =~= pv.take(j as int));
            }
            push_str(&mut m, "- ");
            push_str(&mut m, criteria[j].0.as_str());
            push_str(&mut m, " (weight ");
            push_str(&mut m, criteria[j].1.as_str());
            push_str(&mut m, ")\n");
            j = j + 1;
        }
        proof {
            assert(pv.take(criteria@.len() as int) =~= pv);
        }
    } else {
        proof {
            assert(m@ =~= mid + Seq::<char>::empty());
        }
    }
    string_of(m.as_slice())
}

/// The reply to a stored decision matrix; `anchors` and `self_contained`
/// are the write-time check's findings, `null` where it had none.
pub fn matrix_reply(node_id: &str, question: &str, chosen: &str, anchors: Json, self_contained: Json) -> (r: Json)
    ensures
        r@ == JsonV::Object(
            seq![
                ("action"@, JsonV::Str("remember_decision_v2"@)),
                ("success"@, JsonV::Bool(true)),
                ("nodeId"@, JsonV::Str(node_id@)),
                ("question"@, JsonV::Str(question@)),
                ("chosen"@, JsonV::Str(chosen@)),
                ("message"@, JsonV::Str("Structured decision matrix remembered successfully"@)),
                ("anchors"@, anchors@),
                ("self_contained"@, self_contained@),
            ],
        ),
{
    let ghost av = anchors@;
    let ghost sv = self_contained@;
    let mut e = new_entries();
    push_entry(&mut e, "action", Json::from_str("remember_decision_v2"));
    push_entry(&mut e, "success", Json::Bool(true));
    push_entry(&mut e, "nodeId", Json::from_str(node_id));
    push_entry(&mut e, "question", Json::from_str(question));
    push_entry(&mut e, "chosen", Json::from_str(chosen));
    push_entry(&mut e, "message", Json::from_str("Structured decision matrix remembered successfully"));
    push_entry(&mut e, "anchors", anchors);
    push_entry(&mut e, "self_contained", self_contained);
    proof {
        assert(entries_model(e@) =~= seq![
            ("action"@, JsonV::Str("remember_decision_v2"@)),
            ("success"@, JsonV::Bool(true)),
            ("nodeId"@, JsonV::Str(node_id@)),
            ("question"@, JsonV::Str(question@)),
            ("chosen"@, JsonV::Str(chosen@)),
            ("message"@, JsonV::Str("Structured decision matrix remembered successfully"@)),
            ("anchors"@, av),
            ("self_contained"@, sv),
        ]);
    }
    object(e)
}

// ---------------------------------------------------------------------------
// get_context
// ---------------------------------------------------------------------------

/// Items per category: `limit` (10 by default) clamped into `1..=50`.
pub fn context_limit(limit: Option<i32>) -> (r: i32)
    ensures
        r == (match limit {
            Some(l) => if l < 1 {
                1
            } else if l > 50 {
                50
            } else {
                l
            },
            None => 10,
        }),
        1 <= r <= 50,
{
    match limit {
        Some(l) => if l < 1 {
            1
        } else if l > 50 {
            50
        } else {
            l
        },
        None => 10,
    }
}

/// The tag a context read filters by: `codebase:<name>` for a named codebase.
pub fn context_tag(codebase: Option<&str>) -> (r: Option<String>)
    ensures
        match codebase {
            Some(c) => r matches Some(t) && t@ == "codebase:"@ + c@,
            None => r is None,
        },
{
    match codebase {
        Some(c) => {
            let mut t: Vec<char> = text_chars("codebase:");
            push_str(&mut t, c);
            Some(string_of(t.as_slice()))
        },
        None => None,
    }
}

} // verus!
