//! `confidence`: the evidence level of a memory, the opinion markers, and the
//! request the tool accepts.
//!
//! The numeric confidence score blends floating-point strengths read from
//! the store and stays with the caller; what decides on text is here.

use vstd::prelude::*;
use crate::json::{
    array, entries_model, get_field, i64_of, keys_of, new_entries, object, push_entry, str_of,
    Json, JsonV,
};
use crate::cross_reference::{contains_any, contains_any_s};
use crate::text::contains_s;
use crate::schema::{declared_args, names_of, required_args, schema_shape, ToolSchema};
use crate::text::{
    char_width, chars_of, copy_range, fit_len, fit_prefix_len, lemma_utf8_len_concat, lowercase,
    owned, push_str, string_of, to_lowercase, utf8_len,
};

verus! {

broadcast use vstd::string::group_string_axioms;

/// The argument schema of `confidence`, as published.
pub open spec fn schema_spec() -> JsonV {
    JsonV::Object(seq![
        ("type"@, JsonV::Str("object"@)),
        ("properties"@, JsonV::Object(seq![
            ("action"@, JsonV::Object(seq![
                ("type"@, JsonV::Str("string"@)),
                ("enum"@, JsonV::Array(seq![
                    JsonV::Str("score"@),
                    JsonV::Str("audit"@),
                    JsonV::Str("calibrate"@),
                ])),
                ("description"@, JsonV::Str("score: evaluate a single memory's confidence. audit: find poorly-calibrated memories. calibrate: compare self-assessment with evidence."@)),
            ])),
            ("memory_id"@, JsonV::Object(seq![
                ("type"@, JsonV::Str("string"@)),
                ("description"@, JsonV::Str("Memory ID to score (required for 'score')"@)),
            ])),
            ("limit"@, JsonV::Object(seq![
                ("type"@, JsonV::Str("integer"@)),
                ("description"@, JsonV::Str("Max results for audit (default: 20)"@)),
                ("default"@, JsonV::Int(20)),
            ])),
        ])),
        ("required"@, JsonV::Array(seq![
            JsonV::Str("action"@),
        ])),
    ])
}

/// The arguments of `confidence`: `action` is required.
pub fn schema() -> (r: Json)
    ensures
        r@ == schema_spec(),
        schema_shape(r@),
        declared_args(r@) == seq!["action"@, "memory_id"@, "limit"@],
        required_args(r@) == seq!["action"@],
{
    let mut props = new_entries();
    push_entry(&mut props, "action", {
        let mut e = new_entries();
        push_entry(&mut e, "type", Json::from_str("string"));
        push_entry(&mut e, "enum", {
            let mut a: Vec<Json> = Vec::new();
            a.push(Json::from_str("score"));
            a.push(Json::from_str("audit"));
            a.push(Json::from_str("calibrate"));
            proof {
                assert(crate::json::items_model(a@) =~= seq![
                    JsonV::Str("score"@),
                    JsonV::Str("audit"@),
                    JsonV::Str("calibrate"@),
                ]);
            }
            array(a)
        });
        push_entry(&mut e, "description", Json::from_str("score: evaluate a single memory's confidence. audit: find poorly-calibrated memories. calibrate: compare self-assessment with evidence."));
        proof {
            assert(crate::json::entries_model(e@) =~= seq![
                ("type"@, JsonV::Str("string"@)),
                ("enum"@, JsonV::Array(seq![
                    JsonV::Str("score"@),
                    JsonV::Str("audit"@),
                    JsonV::Str("calibrate"@),
                ])),
                ("description"@, JsonV::Str("score: evaluate a single memory's confidence. audit: find poorly-calibrated memories. calibrate: compare self-assessment with evidence."@)),
            ]);
        }
        object(e)
    });
    push_entry(&mut props, "memory_id", {
        let mut e = new_entries();
        push_entry(&mut e, "type", Json::from_str("string"));
        push_entry(&mut e, "description", Json::from_str("Memory ID to score (required for 'score')"));
        proof {
            assert(crate::json::entries_model(e@) =~= seq![
                ("type"@, JsonV::Str("string"@)),
                ("description"@, JsonV::Str("Memory ID to score (required for 'score')"@)),
            ]);
        }
        object(e)
    });
    push_entry(&mut props, "limit", {
        let mut e = new_entries();
        push_entry(&mut e, "type", Json::from_str("integer"));
        push_entry(&mut e, "description", Json::from_str("Max results for audit (default: 20)"));
        push_entry(&mut e, "default", Json::Int(20));
        proof {
            assert(crate::json::entries_model(e@) =~= seq![
                ("type"@, JsonV::Str("integer"@)),
                ("description"@, JsonV::Str("Max results for audit (default: 20)"@)),
                ("default"@, JsonV::Int(20)),
            ]);
        }
        object(e)
    });
    let mut required: Vec<String> = Vec::new();
    required.push(owned("action"));
    let extra = new_entries();
    proof {
        assert(keys_of(entries_model(props@)) =~= seq!["action"@, "memory_id"@, "limit"@]);
        assert(names_of(required@) =~= seq!["action"@]);
        assert(keys_of(entries_model(props@))[0] == "action"@);
    }
    let s = ToolSchema { properties: props, required, extra };
    proof {
        assert(crate::json::entries_model(s.properties@) =~= seq![
            ("action"@, JsonV::Object(seq![
                ("type"@, JsonV::Str("string"@)),
                ("enum"@, JsonV::Array(seq![
                    JsonV::Str("score"@),
                    JsonV::Str("audit"@),
                    JsonV::Str("calibrate"@),
                ])),
                ("description"@, JsonV::Str("score: evaluate a single memory's confidence. audit: find poorly-calibrated memories. calibrate: compare self-assessment with evidence."@)),
            ])),
            ("memory_id"@, JsonV::Object(seq![
                ("type"@, JsonV::Str("string"@)),
                ("description"@, JsonV::Str("Memory ID to score (required for 'score')"@)),
            ])),
            ("limit"@, JsonV::Object(seq![
                ("type"@, JsonV::Str("integer"@)),
                ("description"@, JsonV::Str("Max results for audit (default: 20)"@)),
                ("default"@, JsonV::Int(20)),
            ])),
        ]);
        assert(crate::json::strs_model(s.required@) =~= seq![
            JsonV::Str("action"@),
        ]);
        assert(s.json_v()->Object_0 =~= schema_spec()->Object_0);
    }
    s.publish()
}


/// Phrases that mark a statement as an opinion.
pub open spec fn opinion_markers() -> Seq<&'static str> {
    seq![
        "i think",
        "i believe",
        "probably",
        "might be",
        "could be",
        "seems like",
        "in my opinion",
        "i prefer",
        "i feel",
        "arguably",
        "maybe",
        "possibly",
        "i suspect",
        "likely",
        "unlikely",
    ]
}

/// A text reads as an opinion when its lowercase form holds a marker.
pub open spec fn is_opinion_s(content: Seq<char>) -> bool {
    contains_any_s(lowercase(content), opinion_markers())
}

/// Whether a text reads as an opinion.
pub fn is_opinion(content: &str) -> (r: bool)
    ensures
        r == is_opinion_s(content@),
{
    let raw = chars_of(content);
    let lower = to_lowercase(raw.as_slice());
    let markers: [&'static str; 15] = [
        "i think",
        "i believe",
        "probably",
        "might be",
        "could be",
        "seems like",
        "in my opinion",
        "i prefer",
        "i feel",
        "arguably",
        "maybe",
        "possibly",
        "i suspect",
        "likely",
        "unlikely",
    ];
    proof {
        assert(markers@ =~= opinion_markers());
    }
    contains_any(&lower, &markers)
}

/// Words that mark a fact as verified.
pub open spec fn verification_words() -> Seq<&'static str> {
    seq!["verified", "confirmed", "tested"]
}

/// The evidence level of a memory, from its node type and its text:
/// `verified_fact`, `documented`, `experience` or `opinion`.
pub open spec fn evidence_s(content: Seq<char>, node_type: Seq<char>) -> Seq<char> {
    let lower = lowercase(content);
    if node_type == "fact"@ && contains_any_s(lower, verification_words()) {
        "verified_fact"@
    } else if node_type == "fact"@ || node_type == "event"@ {
        "documented"@
    } else if node_type == "decision"@ || node_type == "pattern"@ {
        "experience"@
    } else if is_opinion_s(lower) {
        "opinion"@
    } else {
        "documented"@
    }
}

/// A fact is a verified fact exactly when its lowercased text mentions
/// "verified", "confirmed" or "tested"; any other fact is documented.
pub proof fn law_verified_facts_are_marked(content: Seq<char>)
    ensures
        ({
            let lower = lowercase(content);
            let marked = contains_s(lower, "verified"@) || contains_s(lower, "confirmed"@) || contains_s(
                lower,
                "tested"@,
            );
            &&& (evidence_s(content, "fact"@) == "verified_fact"@) == marked
            &&& !marked ==> evidence_s(content, "fact"@) == "documented"@
        }),
{
    let lower = lowercase(content);
    let w = verification_words();
    reveal_strlit("verified_fact");
    reveal_strlit("documented");
    assert("documented"@.len() != "verified_fact"@.len());
    assert(w[0]@ == "verified"@);
    assert(w[1]@ == "confirmed"@);
    assert(w[2]@ == "tested"@);
    if contains_any_s(lower, w) {
        let i = choose|i: int| 0 <= i < w.len() && contains_s(lower, (#[trigger] w[i])@);
        assert(i == 0 || i == 1 || i == 2);
    }
    if contains_s(lower, "confirmed"@) {
        assert(contains_s(lower, w[1]@));
    }
    if contains_s(lower, "verified"@) {
        assert(contains_s(lower, w[0]@));
    }
    if contains_s(lower, "tested"@) {
        assert(contains_s(lower, w[2]@));
    }
}

/// The evidence level follows the node type: an event is documented, a
/// decision or a pattern is experience, and any other type that is not a
/// fact is an opinion when its (lowercased) text reads as one, else
/// documented.
pub proof fn law_evidence_by_node_type(content: Seq<char>, node_type: Seq<char>)
    ensures
        evidence_s(content, "event"@) == "documented"@,
        evidence_s(content, "decision"@) == "experience"@,
        evidence_s(content, "pattern"@) == "experience"@,
        node_type != "fact"@ && node_type != "event"@ && node_type != "decision"@ && node_type
            != "pattern"@ ==> evidence_s(content, node_type) == (if is_opinion_s(lowercase(content)) {
            "opinion"@
        } else {
            "documented"@
        }),
{
    reveal_strlit("fact");
    reveal_strlit("event");
    reveal_strlit("decision");
    reveal_strlit("pattern");
    assert("event"@.len() != "fact"@.len());
    assert("decision"@.len() != "fact"@.len());
    assert("decision"@.len() != "event"@.len());
    assert("pattern"@.len() != "fact"@.len());
    assert("pattern"@.len() != "event"@.len());
}

/// The evidence level of a memory.
pub fn classify_evidence(content: &str, node_type: &str) -> (r: String)
    ensures
        r@ == evidence_s(content@, node_type@),
{
    let raw = chars_of(content);
    let lower = to_lowercase(raw.as_slice());
    let words: [&'static str; 3] = ["verified", "confirmed", "tested"];
    proof {
        assert(words@ =~= verification_words());
    }
    let nt = chars_of(node_type);
    let is_fact = crate::text::chars_eq_str(&nt, "fact");
    if is_fact && contains_any(&lower, &words) {
        owned("verified_fact")
    } else if is_fact || crate::text::chars_eq_str(&nt, "event") {
        owned("documented")
    } else if crate::text::chars_eq_str(&nt, "decision") || crate::text::chars_eq_str(
        &nt,
        "pattern",
    ) {
        owned("experience")
    } else {
        let lower_text = string_of(lower.as_slice());
        if is_opinion(lower_text.as_str()) {
            owned("opinion")
        } else {
            owned("documented")
        }
    }
}

/// A memory counted among the opinions a calibration compares: it reads as
/// an opinion, or it records a decision or a pattern.
pub open spec fn opinion_like_s(content: Seq<char>, node_type: Seq<char>) -> bool {
    is_opinion_s(content) || node_type == "decision"@ || node_type == "pattern"@
}

/// A memory counted among the facts a calibration compares: a fact that does
/// not read as an opinion.
pub open spec fn plain_fact_s(content: Seq<char>, node_type: Seq<char>) -> bool {
    !is_opinion_s(content) && node_type == "fact"@
}

/// Whether a memory counts among the opinions of a calibration.
pub fn is_opinion_like(content: &str, node_type: &str) -> (r: bool)
    ensures
        r == opinion_like_s(content@, node_type@),
{
    let nt = chars_of(node_type);
    is_opinion(content) || crate::text::chars_eq_str(&nt, "decision")
        || crate::text::chars_eq_str(&nt, "pattern")
}

/// Whether a memory counts among the facts of a calibration.
pub fn is_plain_fact(content: &str, node_type: &str) -> (r: bool)
    ensures
        r == plain_fact_s(content@, node_type@),
{
    let nt = chars_of(node_type);
    !is_opinion(content) && crate::text::chars_eq_str(&nt, "fact")
}

// ---------------------------------------------------------------------------
// Previews
// ---------------------------------------------------------------------------

/// At most `max` bytes of `s`, cut at a character boundary and marked with
/// `…` when anything was cut.
pub open spec fn truncate_s(s: Seq<char>, max: nat) -> Seq<char> {
    if utf8_len(s) <= max {
        s
    } else {
        s.take(fit_len(s, max as int) as int).push('…')
    }
}

pub proof fn lemma_fit_all(t: Seq<char>, b: int)
    requires
        b >= 0,
    ensures
        (fit_len(t, b) == t.len()) == (utf8_len(t) <= b),
    decreases t.len(),
{
    if t.len() > 0 {
        lemma_utf8_len_concat(seq![t[0]], t.drop_first());
        assert(seq![t[0]] + t.drop_first() =~= t);
        assert(utf8_len(seq![t[0]]) == char_width(t[0])) by {
            assert(seq![t[0]].drop_last() =~= Seq::<char>::empty());
            assert(utf8_len(Seq::<char>::empty()) == 0);
            assert(seq![t[0]].last() == t[0]);
        }
        if char_width(t[0]) <= b {
            lemma_fit_all(t.drop_first(), b - char_width(t[0]));
        } else {
            crate::text::lemma_utf8_len_bounds(t.drop_first());
        }
    }
}

proof fn lemma_fit_len_longest(t: Seq<char>, b: int)
    requires
        b >= 0,
    ensures
        fit_len(t, b) <= t.len(),
        utf8_len(t.take(fit_len(t, b) as int)) <= b,
        fit_len(t, b) < t.len() ==> utf8_len(t.take(fit_len(t, b) + 1 as int)) > b,
    decreases t.len(),
{
    if t.len() == 0 {
        assert(t.take(0) =~= Seq::<char>::empty());
    } else {
        let h = seq![t[0]];
        let w = char_width(t[0]);
        assert(utf8_len(h) == w) by {
            assert(h.drop_last() =~= Seq::<char>::empty());
            assert(utf8_len(Seq::<char>::empty()) == 0);
            assert(h.last() == t[0]);
        }
        if w > b {
            assert(t.take(0) =~= Seq::<char>::empty());
            assert(t.take(1) =~= h);
        } else {
            let rest = t.drop_first();
            lemma_fit_len_longest(rest, b - w);
            let f = fit_len(rest, b - w);
            assert(t.take(1 + f as int) =~= h + rest.take(f as int));
            lemma_utf8_len_concat(h, rest.take(f as int));
            if f < rest.len() {
                assert(t.take(f + 2 as int) =~= h + rest.take(f + 1 as int));
                lemma_utf8_len_concat(h, rest.take(f + 1 as int));
            }
        }
    }
}

/// A text within `max` bytes is kept whole; a longer one is cut to its
/// longest prefix that ends on a character boundary and fits into `max`
/// bytes, followed by `…`.
pub proof fn law_truncate_keeps_the_longest_fitting_prefix(s: Seq<char>, max: nat)
    ensures
        utf8_len(s) <= max ==> truncate_s(s, max) == s,
        utf8_len(s) > max ==> {
            let k = fit_len(s, max as int) as int;
            &&& truncate_s(s, max) == s.take(k).push('\u{2026}')
            &&& k < s.len()
            &&& utf8_len(s.take(k)) <= max
            &&& utf8_len(s.take(k + 1)) > max
        },
{
    lemma_fit_all(s, max as int);
    lemma_fit_len_longest(s, max as int);
}

/// A preview of at most `max` bytes.
pub fn truncate(s: &str, max: usize) -> (r: String)
    ensures
        r@ == truncate_s(s@, max as nat),
{
    let cs = chars_of(s);
    let m = fit_prefix_len(&cs, max);
    proof {
        lemma_fit_all(cs@, max as int);
    }
    if m == cs.len() {
        owned(s)
    } else {
        let mut head = copy_range(&cs, 0, m);
        head.push('…');
        proof {
            assert(cs@.subrange(0, m as int) =~= s@.take(m as int));
        }
        string_of(head.as_slice())
    }
}

// ---------------------------------------------------------------------------
// The request
// ---------------------------------------------------------------------------

/// What a confidence call asks for.
pub enum ConfidenceAction {
    /// Score one memory.
    Score { memory_id: String },
    /// Find poorly calibrated memories.
    Audit,
    /// Compare opinions with facts.
    Calibrate,
}

/// A validated confidence request; `limit` is the `limit` argument (default
/// 20) taken as a 32-bit integer.
pub struct ConfidenceRequest {
    pub action: ConfidenceAction,
    pub limit: i32,
}

/// The model of a confidence action.
pub enum ConfidenceActionV {
    Score(Seq<char>),
    Audit,
    Calibrate,
}

impl ConfidenceAction {
    pub open spec fn view_action(&self) -> ConfidenceActionV {
        match self {
            ConfidenceAction::Score { memory_id } => ConfidenceActionV::Score(memory_id@),
            ConfidenceAction::Audit => ConfidenceActionV::Audit,
            ConfidenceAction::Calibrate => ConfidenceActionV::Calibrate,
        }
    }
}

/// What a confidence call comes to: its action, or the error text.
pub open spec fn confidence_request_s(args: Option<JsonV>) -> Result<ConfidenceActionV, Seq<char>> {
    match args {
        None => Err("Arguments required"@),
        Some(a) => match str_of(get_field(a, "action"@)) {
            None => Err("action is required"@),
            Some(action) => if action == "score"@ {
                match str_of(get_field(a, "memory_id"@)) {
                    Some(id) => Ok(ConfidenceActionV::Score(id)),
                    None => Err("memory_id required for 'score'"@),
                }
            } else if action == "audit"@ {
                Ok(ConfidenceActionV::Audit)
            } else if action == "calibrate"@ {
                Ok(ConfidenceActionV::Calibrate)
            } else {
                Err("Unknown action: "@ + action + ". Use: score, audit, calibrate"@)
            },
        },
    }
}

/// The `limit` argument (default 20), truncated to 32 bits as the store's
/// query takes it.
pub open spec fn confidence_limit_s(a: JsonV) -> i32 {
    match i64_of(get_field(a, "limit"@)) {
        Some(n) => n as i64 as i32,
        None => 20,
    }
}

pub open spec fn some_view(args: Option<&Json>) -> Option<JsonV> {
    match args {
        Some(a) => Some(a@),
        None => None,
    }
}

/// Validates the arguments of a confidence call.
pub fn parse_request(args: Option<&Json>) -> (r: Result<ConfidenceRequest, String>)
    ensures
        match r {
            Ok(q) => confidence_request_s(some_view(args)) == Ok::<ConfidenceActionV, Seq<char>>(
                q.action.view_action(),
            ) && q.limit == confidence_limit_s(args.unwrap()@),
            Err(e) => confidence_request_s(some_view(args)) == Err::<ConfidenceActionV, Seq<char>>(
                e@,
            ),
        },
{
    let args = match args {
        Some(a) => a,
        None => {
            return Err(owned("Arguments required"));
        },
    };
    let action = match args.get("action") {
        Some(v) => match v.as_str() {
            Some(s) => s,
            None => {
                return Err(owned("action is required"));
            },
        },
        None => {
            return Err(owned("action is required"));
        },
    };
    let limit: i32 = match args.get("limit") {
        Some(v) => match v.as_i64() {
            Some(n) => {
                #[verifier::truncate]
                let l = n as i32;
                l
            },
            None => 20,
        },
        None => 20,
    };
    let ac = chars_of(action);
    if crate::text::chars_eq_str(&ac, "score") {
        match args.get("memory_id") {
            Some(v) => match v.as_str() {
                Some(id) => Ok(
                    ConfidenceRequest {
                        action: ConfidenceAction::Score { memory_id: owned(id) },
                        limit,
                    },
                ),
                None => Err(owned("memory_id required for 'score'")),
            },
            None => Err(owned("memory_id required for 'score'")),
        }
    } else if crate::text::chars_eq_str(&ac, "audit") {
        Ok(ConfidenceRequest { action: ConfidenceAction::Audit, limit })
    } else if crate::text::chars_eq_str(&ac, "calibrate") {
        Ok(ConfidenceRequest { action: ConfidenceAction::Calibrate, limit })
    } else {
        let mut m: Vec<char> = chars_of("Unknown action: ");
        push_str(&mut m, action);
        push_str(&mut m, ". Use: score, audit, calibrate");
        Err(string_of(m.as_slice()))
    }
}

/// The error for a memory the store does not hold.
pub fn not_found_message(memory_id: &str) -> (r: String)
    ensures
        r@ == "Memory not found: "@ + memory_id@,
{
    let mut m: Vec<char> = chars_of("Memory not found: ");
    push_str(&mut m, memory_id);
    string_of(m.as_slice())
}

} // verus!
