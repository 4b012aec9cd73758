//! Dashboard events drawn from tool results.
//!
//! After a tool call, the server reads the call's arguments and result and
//! tells the dashboard what happened: a memory created, updated, deleted,
//! promoted or demoted, a search, a dream, a consolidation, a scored text.
//! Which event a call yields, and what it carries, is decided here; the
//! caller stamps the time and sends it.

use vstd::prelude::*;
use crate::json::{array_of, get_field, str_of, u64_of, Json, JsonV};
use crate::text::{
    chars_of, copy_range, fit_len, fit_prefix_len, owned, string_of, utf8_len,
};

verus! {

broadcast use vstd::string::group_string_axioms;

/// A JSON number as it was found, so that the caller reads it as a float.
pub enum Num {
    Int(i64),
    UInt(u64),
    FloatBits(u64),
}

impl Num {
    pub open spec fn view_num(&self) -> JsonV {
        match self {
            Num::Int(i) => JsonV::Int(*i as int),
            Num::UInt(u) => JsonV::UInt(*u as int),
            Num::FloatBits(b) => JsonV::FloatBits(*b as int),
        }
    }
}

/// An event for the dashboard. Numbers the dashboard shows as floats are
/// handed on as the JSON number found (`None` where there was none, which the
/// dashboard shows as zero).
pub enum ToolEvent {
    MemoryCreated { id: String, content_preview: String, node_type: String, tags: Vec<String> },
    MemoryUpdated { id: String, content_preview: String, field: String },
    MemoryDeleted { id: String },
    MemoryPromoted { id: String, new_retention: Option<Num> },
    MemoryDemoted { id: String, new_retention: Option<Num> },
    SearchPerformed { query: String, result_count: u64, result_ids: Vec<String>, duration_ms: u64 },
    DreamCompleted {
        memories_replayed: u64,
        connections_found: u64,
        insights_generated: u64,
        duration_ms: u64,
    },
    ConsolidationCompleted {
        nodes_processed: u64,
        decay_applied: u64,
        embeddings_generated: u64,
        duration_ms: u64,
    },
    ImportanceScored {
        content_preview: String,
        composite_score: Option<Num>,
        novelty: Option<Num>,
        arousal: Option<Num>,
        reward: Option<Num>,
        attention: Option<Num>,
    },
}

/// The model of an event.
pub enum EventV {
    MemoryCreated(Seq<char>, Seq<char>, Seq<char>, Seq<Seq<char>>),
    MemoryUpdated(Seq<char>, Seq<char>, Seq<char>),
    MemoryDeleted(Seq<char>),
    MemoryPromoted(Seq<char>, Option<JsonV>),
    MemoryDemoted(Seq<char>, Option<JsonV>),
    SearchPerformed(Seq<char>, int, Seq<Seq<char>>, int),
    DreamCompleted(int, int, int, int),
    ConsolidationCompleted(int, int, int, int),
    ImportanceScored(Seq<char>, Option<JsonV>, Option<JsonV>, Option<JsonV>, Option<JsonV>, Option<JsonV>),
}

pub open spec fn num_view(o: Option<Num>) -> Option<JsonV> {
    match o {
        Some(n) => Some(n.view_num()),
        None => None,
    }
}

pub open spec fn names_view(v: Seq<String>) -> Seq<Seq<char>> {
    Seq::new(v.len(), |i: int| v[i]@)
}

impl ToolEvent {
    pub open spec fn view_event(&self) -> EventV {
        match self {
            ToolEvent::MemoryCreated { id, content_preview, node_type, tags } => EventV::MemoryCreated(
                id@,
                content_preview@,
                node_type@,
                names_view(tags@),
            ),
            ToolEvent::MemoryUpdated { id, content_preview, field } => EventV::MemoryUpdated(
                id@,
                content_preview@,
                field@,
            ),
            ToolEvent::MemoryDeleted { id } => EventV::MemoryDeleted(id@),
            ToolEvent::MemoryPromoted { id, new_retention } => EventV::MemoryPromoted(
                id@,
                num_view(*new_retention),
            ),
            ToolEvent::MemoryDemoted { id, new_retention } => EventV::MemoryDemoted(
                id@,
                num_view(*new_retention),
            ),
            ToolEvent::SearchPerformed { query, result_count, result_ids, duration_ms } =>
                EventV::SearchPerformed(
                query@,
                *result_count as int,
                names_view(result_ids@),
                *duration_ms as int,
            ),
            ToolEvent::DreamCompleted {
                memories_replayed,
                connections_found,
                insights_generated,
                duration_ms,
            } => EventV::DreamCompleted(
                *memories_replayed as int,
                *connections_found as int,
                *insights_generated as int,
                *duration_ms as int,
            ),
            ToolEvent::ConsolidationCompleted {
                nodes_processed,
                decay_applied,
                embeddings_generated,
                duration_ms,
            } => EventV::ConsolidationCompleted(
                *nodes_processed as int,
                *decay_applied as int,
                *embeddings_generated as int,
                *duration_ms as int,
            ),
            ToolEvent::ImportanceScored {
                content_preview,
                composite_score,
                novelty,
                arousal,
                reward,
                attention,
            } => EventV::ImportanceScored(
                content_preview@,
                num_view(*composite_score),
                num_view(*novelty),
                num_view(*arousal),
                num_view(*reward),
                num_view(*attention),
            ),
        }
    }
}

pub open spec fn events_view(v: Seq<ToolEvent>) -> Seq<EventV> {
    Seq::new(v.len(), |i: int| v[i].view_event())
}

// ---------------------------------------------------------------------------
// Reading the result
// ---------------------------------------------------------------------------

/// `a.get(k1).or(a.get(k2))`: the first of two keys that is present.
pub open spec fn either(j: JsonV, k1: Seq<char>, k2: Seq<char>) -> Option<JsonV> {
    match get_field(j, k1) {
        Some(v) => Some(v),
        None => get_field(j, k2),
    }
}

/// The text of an optional value, or a default.
pub open spec fn str_or(o: Option<JsonV>, d: Seq<char>) -> Seq<char> {
    match str_of(o) {
        Some(s) => s,
        None => d,
    }
}

/// An unsigned integer, or zero.
pub open spec fn u64_or_zero(o: Option<JsonV>) -> int {
    match u64_of(o) {
        Some(n) => n,
        None => 0,
    }
}

/// The value when it is a number.
pub open spec fn number_of(o: Option<JsonV>) -> Option<JsonV> {
    match o {
        Some(JsonV::Int(i)) => Some(JsonV::Int(i)),
        Some(JsonV::UInt(u)) => Some(JsonV::UInt(u)),
        Some(JsonV::FloatBits(b)) => Some(JsonV::FloatBits(b)),
        _ => None,
    }
}

/// The strings of an array, in order, skipping what is not a string.
pub open spec fn strings_in(a: Seq<JsonV>) -> Seq<Seq<char>>
    decreases a.len(),
{
    if a.len() == 0 {
        Seq::empty()
    } else {
        let rest = strings_in(a.drop_last());
        match a.last() {
            JsonV::Str(s) => rest.push(s),
            _ => rest,
        }
    }
}

/// The `id` strings of the objects of an array, in order.
pub open spec fn ids_in(a: Seq<JsonV>) -> Seq<Seq<char>>
    decreases a.len(),
{
    if a.len() == 0 {
        Seq::empty()
    } else {
        let rest = ids_in(a.drop_last());
        match str_of(get_field(a.last(), "id"@)) {
            Some(s) => rest.push(s),
            None => rest,
        }
    }
}

/// The empty literal is the empty text.
proof fn lemma_empty_literal()
    ensures
        ""@ == Seq::<char>::empty(),
{
    reveal_strlit("");
    assert(""@ =~= Seq::<char>::empty());
}

fn either_exec<'a>(j: &'a Json, k1: &str, k2: &str) -> (r: Option<&'a Json>)
    ensures
        match r {
            Some(v) => either(j@, k1@, k2@) == Some(v@),
            None => either(j@, k1@, k2@) is None,
        },
{
    match j.get(k1) {
        Some(v) => Some(v),
        None => j.get(k2),
    }
}

pub open spec fn opt_jv(o: Option<&Json>) -> Option<JsonV> {
    match o {
        Some(v) => Some(v@),
        None => None,
    }
}

fn str_or_exec(o: Option<&Json>, d: &str) -> (r: String)
    ensures
        r@ == str_or(opt_jv(o), d@),
{
    match o {
        Some(v) => match v.as_str() {
            Some(s) => owned(s),
            None => owned(d),
        },
        None => owned(d),
    }
}

fn u64_or_zero_exec(o: Option<&Json>) -> (r: u64)
    ensures
        r == u64_or_zero(opt_jv(o)),
{
    match o {
        Some(v) => match v.as_u64() {
            Some(n) => n,
            None => 0,
        },
        None => 0,
    }
}

fn number_exec(o: Option<&Json>) -> (r: Option<Num>)
    ensures
        num_view(r) == number_of(opt_jv(o)),
{
    match o {
        Some(Json::Int(i)) => Some(Num::Int(*i)),
        Some(Json::UInt(u)) => Some(Num::UInt(*u)),
        Some(Json::FloatBits(b)) => Some(Num::FloatBits(*b)),
        _ => None,
    }
}

fn strings_exec(a: &Vec<Json>) -> (r: Vec<String>)
    ensures
        names_view(r@) == strings_in(crate::json::items_model(a@)),
{
    let ghost m = crate::json::items_model(a@);
    let mut r: Vec<String> = Vec::new();
    let mut i: usize = 0;
    while i < a.len()
        invariant
            0 <= i <= a@.len(),
            m == crate::json::items_model(a@),
            names_view(r@) == strings_in(m.take(i as int)),
        decreases a.len() - i,
    {
        proof {
            assert(m.take(i + 1).drop_last() =~= m.take(i as int));
            assert(m.take(i + 1).last() == a@[i as int]@);
        }
        let ghost before = r@;
        match a[i].as_str() {
            Some(s) => {
                r.push(owned(s));
                proof {
                    assert(names_view(r@) =~= names_view(before).push(s@));
                }
            },
            None => {},
        }
        i = i + 1;
    }
    proof {
        assert(m.take(a@.len() as int) =~= m);
    }
    r
}

fn ids_exec(a: &Vec<Json>) -> (r: Vec<String>)
    ensures
        names_view(r@) == ids_in(crate::json::items_model(a@)),
{
    let ghost m = crate::json::items_model(a@);
    let mut r: Vec<String> = Vec::new();
    let mut i: usize = 0;
    while i < a.len()
        invariant
            0 <= i <= a@.len(),
            m == crate::json::items_model(a@),
            names_view(r@) == ids_in(m.take(i as int)),
        decreases a.len() - i,
    {
        proof {
            assert(m.take(i + 1).drop_last() =~= m.take(i as int));
            assert(m.take(i + 1).last() == a@[i as int]@);
        }
        let ghost before = r@;
        match a[i].get("id") {
            Some(v) => match v.as_str() {
                Some(s) => {
                    r.push(owned(s));
                    proof {
                        assert(names_view(r@) =~= names_view(before).push(s@));
                    }
                },
                None => {},
            },
            None => {},
        }
        i = i + 1;
    }
    proof {
        assert(m.take(a@.len() as int) =~= m);
    }
    r
}

// ---------------------------------------------------------------------------
// The events
// ---------------------------------------------------------------------------

/// The decisions that update an existing memory.
pub open spec fn is_update_decision(d: Seq<char>) -> bool {
    d == "update"@ || d == "supersede"@ || d == "reinforce"@ || d == "merge"@ || d == "replace"@
        || d == "add_context"@
}

/// The event of a single-mode ingest result, if any.
pub open spec fn ingest_single(result: JsonV) -> Seq<EventV> {
    match str_of(get_field(result, "decision"@)) {
        Some(decision) => {
            let id = str_or(either(result, "nodeId"@, "id"@), Seq::empty());
            let preview = str_or(either(result, "contentPreview"@, "content"@), Seq::empty());
            if decision == "create"@ {
                let node_type = str_or(get_field(result, "nodeType"@), "fact"@);
                let tags = match array_of(get_field(result, "tags"@)) {
                    Some(a) => strings_in(a),
                    None => Seq::empty(),
                };
                seq![EventV::MemoryCreated(id, preview, node_type, tags)]
            } else if is_update_decision(decision) {
                seq![EventV::MemoryUpdated(id, preview, decision)]
            } else {
                Seq::empty()
            }
        },
        None => Seq::empty(),
    }
}

/// The event of one item of a batch ingest result, if any.
pub open spec fn ingest_item(item: JsonV) -> Seq<EventV> {
    let decision = str_or(get_field(item, "decision"@), Seq::empty());
    let id = str_or(either(item, "nodeId"@, "id"@), Seq::empty());
    let preview = str_or(get_field(item, "contentPreview"@), Seq::empty());
    if decision == "create"@ {
        seq![EventV::MemoryCreated(id, preview, "fact"@, Seq::empty())]
    } else if decision.len() > 0 {
        seq![EventV::MemoryUpdated(id, preview, decision)]
    } else {
        Seq::empty()
    }
}

pub open spec fn ingest_items(items: Seq<JsonV>) -> Seq<EventV>
    decreases items.len(),
{
    if items.len() == 0 {
        Seq::empty()
    } else {
        ingest_items(items.drop_last()) + ingest_item(items.last())
    }
}

/// The events of an ingest result: the single-mode event, then one per
/// batch item.
pub open spec fn ingest_events(result: JsonV) -> Seq<EventV> {
    ingest_single(result) + match array_of(get_field(result, "results"@)) {
        Some(items) => ingest_items(items),
        None => Seq::empty(),
    }
}

pub open spec fn arg_field(args: Option<JsonV>, key: Seq<char>) -> Option<JsonV> {
    match args {
        Some(a) => get_field(a, key),
        None => None,
    }
}

/// The action a memory call took: its `action` argument, or the action the
/// legacy tool name stands for.
pub open spec fn memory_action(tool: Seq<char>, args: Option<JsonV>) -> Seq<char> {
    match str_of(arg_field(args, "action"@)) {
        Some(a) => a,
        None => if tool == "promote_memory"@ {
            "promote"@
        } else if tool == "demote_memory"@ {
            "demote"@
        } else if tool == "delete_knowledge"@ {
            "delete"@
        } else {
            Seq::empty()
        },
    }
}

pub open spec fn memory_events(tool: Seq<char>, args: Option<JsonV>, result: JsonV) -> Seq<EventV> {
    let action = memory_action(tool, args);
    let id = str_or(arg_field(args, "id"@), Seq::empty());
    let retention = number_of(either(result, "newRetention"@, "retrievalStrength"@));
    if action == "delete"@ {
        seq![EventV::MemoryDeleted(id)]
    } else if action == "promote"@ {
        seq![EventV::MemoryPromoted(id, retention)]
    } else if action == "demote"@ {
        seq![EventV::MemoryDemoted(id, retention)]
    } else {
        Seq::empty()
    }
}

pub open spec fn search_event(args: Option<JsonV>, result: JsonV) -> EventV {
    let query = str_or(arg_field(args, "query"@), Seq::empty());
    let (count, ids) = match array_of(get_field(result, "results"@)) {
        Some(a) => (a.len() as int, ids_in(a)),
        None => (0int, Seq::empty()),
    };
    EventV::SearchPerformed(
        query,
        count,
        ids,
        u64_or_zero(either(result, "durationMs"@, "duration_ms"@)),
    )
}

pub open spec fn dream_event(result: JsonV) -> EventV {
    EventV::DreamCompleted(
        u64_or_zero(either(result, "memoriesReplayed"@, "memories_replayed"@)),
        u64_or_zero(either(result, "connectionsFound"@, "connections_found"@)),
        match array_of(either(result, "insightsGenerated"@, "insights"@)) {
            Some(a) => a.len() as int,
            None => 0,
        },
        u64_or_zero(either(result, "durationMs"@, "duration_ms"@)),
    )
}

pub open spec fn consolidation_event(result: JsonV) -> EventV {
    EventV::ConsolidationCompleted(
        u64_or_zero(either(result, "nodesProcessed"@, "nodes_processed"@)),
        u64_or_zero(either(result, "decayApplied"@, "decay_applied"@)),
        u64_or_zero(either(result, "embeddingsGenerated"@, "embeddings_generated"@)),
        u64_or_zero(either(result, "durationMs"@, "duration_ms"@)),
    )
}

/// At most 100 bytes of a text, cut at a character boundary, with `...`
/// after a cut.
pub open spec fn preview_100(s: Seq<char>) -> Seq<char> {
    if utf8_len(s) > 100 {
        s.take(fit_len(s, 100) as int) + "..."@
    } else {
        s
    }
}

pub open spec fn channel(channels: Option<JsonV>, key: Seq<char>) -> Option<JsonV> {
    match channels {
        Some(c) => number_of(get_field(c, key)),
        None => None,
    }
}

pub open spec fn importance_event(args: Option<JsonV>, result: JsonV) -> EventV {
    let preview = match str_of(arg_field(args, "content"@)) {
        Some(s) => preview_100(s),
        None => Seq::empty(),
    };
    let channels = either(result, "channels"@, "breakdown"@);
    EventV::ImportanceScored(
        preview,
        number_of(either(result, "compositeScore"@, "composite_score"@)),
        channel(channels, "novelty"@),
        channel(channels, "arousal"@),
        channel(channels, "reward"@),
        channel(channels, "attention"@),
    )
}

/// The events a call of `tool` with `args` and `result` yields, in order.
/// Tools not named here yield none.
pub open spec fn tool_events_s(tool: Seq<char>, args: Option<JsonV>, result: JsonV) -> Seq<EventV> {
    if tool == "smart_ingest"@ || tool == "ingest"@ || tool == "session_checkpoint"@ {
        ingest_events(result)
    } else if tool == "memory"@ || tool == "promote_memory"@ || tool == "demote_memory"@ || tool
        == "delete_knowledge"@ || tool == "get_memory_state"@ {
        memory_events(tool, args, result)
    } else if tool == "search"@ || tool == "recall"@ || tool == "semantic_search"@ || tool
        == "hybrid_search"@ {
        seq![search_event(args, result)]
    } else if tool == "dream"@ {
        seq![dream_event(result)]
    } else if tool == "consolidate"@ {
        seq![consolidation_event(result)]
    } else if tool == "importance_score"@ {
        seq![importance_event(args, result)]
    } else {
        Seq::empty()
    }
}

/// The tools whose calls the dashboard hears of.
pub open spec fn evented_tool(tool: Seq<char>) -> bool {
    ||| tool == "smart_ingest"@ || tool == "ingest"@ || tool == "session_checkpoint"@
    ||| tool == "memory"@ || tool == "promote_memory"@ || tool == "demote_memory"@
    ||| tool == "delete_knowledge"@ || tool == "get_memory_state"@
    ||| tool == "search"@ || tool == "recall"@ || tool == "semantic_search"@ || tool == "hybrid_search"@
    ||| tool == "dream"@ || tool == "consolidate"@ || tool == "importance_score"@
}

/// A call emits nothing unless its tool is one the dashboard hears of, and
/// a `memory` call emits nothing unless its action deletes, promotes or
/// demotes.
pub proof fn law_quiet_calls_emit_nothing(tool: Seq<char>, args: Option<JsonV>, result: JsonV)
    ensures
        !evented_tool(tool) ==> tool_events_s(tool, args, result) == Seq::<EventV>::empty(),
        tool == "memory"@ && memory_action(tool, args) != "delete"@ && memory_action(tool, args)
            != "promote"@ && memory_action(tool, args) != "demote"@ ==> tool_events_s(tool, args, result)
            == Seq::<EventV>::empty(),
{
    if tool == "memory"@ {
        reveal_strlit("memory");
        reveal_strlit("smart_ingest");
        reveal_strlit("ingest");
        reveal_strlit("session_checkpoint");
        assert("memory"@[0] != "smart_ingest"@[0]);
        assert("memory"@[0] != "ingest"@[0]);
        assert("memory"@ != "session_checkpoint"@);
    }
}

fn is_one_of(s: &str, options: &[&'static str]) -> (r: bool)
    ensures
        r == (exists|i: int| 0 <= i < options@.len() && s@ == (#[trigger] options@[i])@),
{
    let cs = chars_of(s);
    let mut i: usize = 0;
    while i < options.len()
        invariant
            0 <= i <= options@.len(),
            cs@ == s@,
            forall|k: int| 0 <= k < i ==> s@ != (#[trigger] options@[k])@,
        decreases options.len() - i,
    {
        if crate::text::chars_eq_str(&cs, options[i]) {
            return true;
        }
        i = i + 1;
    }
    false
}

fn text_is(s: &str, t: &str) -> (r: bool)
    ensures
        r == (s@ == t@),
{
    let cs = chars_of(s);
    crate::text::chars_eq_str(&cs, t)
}

fn ingest_single_exec(result: &Json, out: &mut Vec<ToolEvent>)
    ensures
        events_view(final(out)@) == events_view(old(out)@) + ingest_single(result@),
{
    let ghost o0 = events_view(out@);
    proof {
        lemma_empty_literal();
    }
    let decision = match result.get("decision") {
        Some(v) => match v.as_str() {
            Some(d) => d,
            None => {
                assert(events_view(out@) =~= o0 + ingest_single(result@));
                return ;
            },
        },
        None => {
            assert(events_view(out@) =~= o0 + ingest_single(result@));
            return ;
        },
    };
    let id = str_or_exec(either_exec(result, "nodeId", "id"), "");
    let preview = str_or_exec(either_exec(result, "contentPreview", "content"), "");
    if text_is(decision, "create") {
        let node_type = str_or_exec(result.get("nodeType"), "fact");
        let tags = match result.get("tags") {
            Some(v) => match v.as_array() {
                Some(a) => strings_exec(a),
                None => Vec::new(),
            },
            None => Vec::new(),
        };
        proof {
            assert(names_view(Seq::<String>::empty()) =~= Seq::<Seq<char>>::empty());
        }
        out.push(ToolEvent::MemoryCreated { id, content_preview: preview, node_type, tags });
    } else {
        let updates: [&'static str; 6] = [
            "update",
            "supersede",
            "reinforce",
            "merge",
            "replace",
            "add_context",
        ];
        if is_one_of(decision, &updates) {
            proof {
                assert(is_update_decision(decision@)) by {
                    let i = choose|i: int| 0 <= i < updates@.len() && decision@ == (#[trigger] updates@[i])@;
                    assert(0 <= i < 6);
                }
            }
            out.push(ToolEvent::MemoryUpdated { id, content_preview: preview, field: owned(decision) });
        } else {
            proof {
                assert(!is_update_decision(decision@)) by {
                    if is_update_decision(decision@) {
                        if decision@ == "update"@ { assert(decision@ == updates@[0]@); }
                        if decision@ == "supersede"@ { assert(decision@ == updates@[1]@); }
                        if decision@ == "reinforce"@ { assert(decision@ == updates@[2]@); }
                        if decision@ == "merge"@ { assert(decision@ == updates@[3]@); }
                        if decision@ == "replace"@ { assert(decision@ == updates@[4]@); }
                        if decision@ == "add_context"@ { assert(decision@ == updates@[5]@); }
                    }
                }
            }
        }
    }
    proof {
        assert(events_view(out@) =~= o0 + ingest_single(result@));
    }
}

fn ingest_items_exec(items: &Vec<Json>, out: &mut Vec<ToolEvent>)
    ensures
        events_view(final(out)@) == events_view(old(out)@) + ingest_items(
            crate::json::items_model(items@),
        ),
{
    let ghost m = crate::json::items_model(items@);
    let ghost o0 = events_view(out@);
    proof {
        lemma_empty_literal();
    }
    let mut i: usize = 0;
    proof {
        assert(events_view(out@) =~= o0 + ingest_items(m.take(0)));
    }
    while i < items.len()
        invariant
            0 <= i <= items@.len(),
            m == crate::json::items_model(items@),
            events_view(out@) == o0 + ingest_items(m.take(i as int)),
        decreases items.len() - i,
    {
        proof {
            assert(m.take(i + 1).drop_last() =~= m.take(i as int));
            assert(m.take(i + 1).last() == items@[i as int]@);
            lemma_empty_literal();
        }
        let item = &items[i];
        let ghost before = events_view(out@);
        let decision = str_or_exec(item.get("decision"), "");
        let id = str_or_exec(either_exec(item, "nodeId", "id"), "");
        let preview = str_or_exec(item.get("contentPreview"), "");
        if text_is(decision.as_str(), "create") {
            proof {
                assert(names_view(Seq::<String>::empty()) =~= Seq::<Seq<char>>::empty());
            }
            out.push(
                ToolEvent::MemoryCreated {
                    id,
                    content_preview: preview,
                    node_type: owned("fact"),
                    tags: Vec::new(),
                },
            );
        } else if decision.as_str().unicode_len() > 0 {
            out.push(ToolEvent::MemoryUpdated { id, content_preview: preview, field: decision });
        }
        proof {
            assert(events_view(out@) =~= before + ingest_item(items@[i as int]@));
        }
        i = i + 1;
    }
    proof {
        assert(m.take(items@.len() as int) =~= m);
    }
}

fn arg<'a>(args: Option<&'a Json>, key: &str) -> (r: Option<&'a Json>)
    ensures
        opt_jv(r) == arg_field(opt_jv(args), key@),
{
    match args {
        Some(a) => a.get(key),
        None => None,
    }
}

/// The dashboard events of a tool call, in order: what `tool` did, read from
/// its arguments and its result.
pub fn tool_events(tool: &str, args: Option<&Json>, result: &Json) -> (r: Vec<ToolEvent>)
    ensures
        events_view(r@) == tool_events_s(tool@, opt_jv(args), result@),
{
    let mut out: Vec<ToolEvent> = Vec::new();
    proof {
        assert(events_view(out@) =~= Seq::<EventV>::empty());
    }
    let ingest_names: [&'static str; 3] = ["smart_ingest", "ingest", "session_checkpoint"];
    let memory_names: [&'static str; 5] = [
        "memory",
        "promote_memory",
        "demote_memory",
        "delete_knowledge",
        "get_memory_state",
    ];
    let search_names: [&'static str; 4] = ["search", "recall", "semantic_search", "hybrid_search"];
    proof {
        assert(ingest_names@ =~= seq!["smart_ingest", "ingest", "session_checkpoint"]);
    }
    if is_one_of(tool, &ingest_names) {
        ingest_single_exec(result, &mut out);
        match result.get("results") {
            Some(v) => match v.as_array() {
                Some(items) => ingest_items_exec(items, &mut out),
                None => {},
            },
            None => {},
        }
        proof {
            assert(events_view(out@) =~= ingest_events(result@));
        }
        out
    } else if is_one_of(tool, &memory_names) {
        let action: &str = match arg(args, "action") {
            Some(v) => match v.as_str() {
                Some(a) => a,
                None => if text_is(tool, "promote_memory") {
                    "promote"
                } else if text_is(tool, "demote_memory") {
                    "demote"
                } else if text_is(tool, "delete_knowledge") {
                    "delete"
                } else {
                    ""
                },
            },
            None => if text_is(tool, "promote_memory") {
                "promote"
            } else if text_is(tool, "demote_memory") {
                "demote"
            } else if text_is(tool, "delete_knowledge") {
                "delete"
            } else {
                ""
            },
        };
        proof {
            lemma_empty_literal();
        }
        let id = str_or_exec(arg(args, "id"), "");
        let retention = number_exec(either_exec(result, "newRetention", "retrievalStrength"));
        if text_is(action, "delete") {
            out.push(ToolEvent::MemoryDeleted { id });
        } else if text_is(action, "promote") {
            out.push(ToolEvent::MemoryPromoted { id, new_retention: retention });
        } else if text_is(action, "demote") {
            out.push(ToolEvent::MemoryDemoted { id, new_retention: retention });
        }
        proof {
            assert(action@ == memory_action(tool@, opt_jv(args)));
            assert(id@ == str_or(arg_field(opt_jv(args), "id"@), Seq::empty()));
            assert(num_view(retention) == number_of(either(result@, "newRetention"@, "retrievalStrength"@)));
            assert(events_view(out@) =~= memory_events(tool@, opt_jv(args), result@));
        }
        out
    } else if is_one_of(tool, &search_names) {
        let query = str_or_exec(arg(args, "query"), "");
        let (count, ids): (u64, Vec<String>) = match result.get("results") {
            Some(v) => match v.as_array() {
                Some(a) => (a.len() as u64, ids_exec(a)),
                None => (0, Vec::new()),
            },
            None => (0, Vec::new()),
        };
        proof {
            assert(names_view(Seq::<String>::empty()) =~= Seq::<Seq<char>>::empty());
        }
        let duration = u64_or_zero_exec(either_exec(result, "durationMs", "duration_ms"));
        out.push(
            ToolEvent::SearchPerformed {
                query,
                result_count: count,
                result_ids: ids,
                duration_ms: duration,
            },
        );
        proof {
            lemma_empty_literal();
            assert(query@ == str_or(arg_field(opt_jv(args), "query"@), Seq::empty()));
            assert(duration == u64_or_zero(either(result@, "durationMs"@, "duration_ms"@)));
            match array_of(get_field(result@, "results"@)) {
                Some(a) => {
                    assert(count == a.len());
                    assert(names_view(ids@) == ids_in(a));
                },
                None => {
                    assert(count == 0);
                },
            }
            assert(events_view(out@) =~= seq![search_event(opt_jv(args), result@)]);
        }
        out
    } else if text_is(tool, "dream") {
        let replayed = u64_or_zero_exec(either_exec(result, "memoriesReplayed", "memories_replayed"));
        let connections = u64_or_zero_exec(
            either_exec(result, "connectionsFound", "connections_found"),
        );
        let insights: u64 = match either_exec(result, "insightsGenerated", "insights") {
            Some(v) => match v.as_array() {
                Some(a) => a.len() as u64,
                None => 0,
            },
            None => 0,
        };
        let duration = u64_or_zero_exec(either_exec(result, "durationMs", "duration_ms"));
        out.push(
            ToolEvent::DreamCompleted {
                memories_replayed: replayed,
                connections_found: connections,
                insights_generated: insights,
                duration_ms: duration,
            },
        );
        proof {
            assert(events_view(out@) =~= seq![dream_event(result@)]);
        }
        out
    } else if text_is(tool, "consolidate") {
        let processed = u64_or_zero_exec(either_exec(result, "nodesProcessed", "nodes_processed"));
        let decay = u64_or_zero_exec(either_exec(result, "decayApplied", "decay_applied"));
        let embeddings = u64_or_zero_exec(
            either_exec(result, "embeddingsGenerated", "embeddings_generated"),
        );
        let duration = u64_or_zero_exec(either_exec(result, "durationMs", "duration_ms"));
        out.push(
            ToolEvent::ConsolidationCompleted {
                nodes_processed: processed,
                decay_applied: decay,
                embeddings_generated: embeddings,
                duration_ms: duration,
            },
        );
        proof {
            assert(events_view(out@) =~= seq![consolidation_event(result@)]);
        }
        out
    } else if text_is(tool, "importance_score") {
        let preview = match arg(args, "content") {
            Some(v) => match v.as_str() {
                Some(s) => preview_of(s),
                None => owned(""),
            },
            None => owned(""),
        };
        proof {
            lemma_empty_literal();
        }
        let channels = either_exec(result, "channels", "breakdown");
        let composite = number_exec(either_exec(result, "compositeScore", "composite_score"));
        let novelty = channel_exec(channels, "novelty");
        let arousal = channel_exec(channels, "arousal");
        let reward = channel_exec(channels, "reward");
        let attention = channel_exec(channels, "attention");
        out.push(
            ToolEvent::ImportanceScored {
                content_preview: preview,
                composite_score: composite,
                novelty,
                arousal,
                reward,
                attention,
            },
        );
        proof {
            let pv = match str_of(arg_field(opt_jv(args), "content"@)) {
                Some(t) => preview_100(t),
                None => Seq::empty(),
            };
            assert(preview@ == pv);
            assert(events_view(out@) =~= seq![importance_event(opt_jv(args), result@)]);
        }
        out
    } else {
        out
    }
}

fn channel_exec(channels: Option<&Json>, key: &str) -> (r: Option<Num>)
    ensures
        num_view(r) == channel(opt_jv(channels), key@),
{
    match channels {
        Some(c) => number_exec(c.get(key)),
        None => None,
    }
}

/// At most 100 bytes of a text, with `...` after a cut.
pub fn preview_of(s: &str) -> (r: String)
    ensures
        r@ == preview_100(s@),
{
    let cs = chars_of(s);
    let m = fit_prefix_len(&cs, 100);
    proof {
        crate::confidence::lemma_fit_all(cs@, 100);
    }
    if m == cs.len() {
        owned(s)
    } else {
        let mut head = copy_range(&cs, 0, m);
        crate::text::push_str(&mut head, "...");
        proof {
            assert(cs@.subrange(0, m as int) =~= s@.take(m as int));
        }
        string_of(head.as_slice())
    }
}

} // verus!
