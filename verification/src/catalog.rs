//! The tool and resource catalogs the server advertises.
//!
//! Every tool carries explicit behaviour annotations: the protocol's defaults
//! are the pessimistic ones (destructive, open-world), so a tool that says
//! nothing would make a client ask for approval before every read. No tool
//! is open-world: every one of them works on the local memory store.

use vstd::prelude::*;
use crate::json::{Json, JsonV};
use crate::schema::{empty_schema, schema_shape};
use crate::text::{contains_s, owned};

verus! {

broadcast use vstd::string::group_string_axioms;

/// Behaviour hints a client reads to decide whether a call needs approval.
#[derive(Debug, Clone)]
pub struct ToolAnnotations {
    pub title: Option<String>,
    pub read_only_hint: Option<bool>,
    pub destructive_hint: Option<bool>,
    pub idempotent_hint: Option<bool>,
    pub open_world_hint: Option<bool>,
}

/// One entry of `tools/list`.
#[derive(Debug)]
pub struct ToolDescription {
    pub name: String,
    pub title: Option<String>,
    pub description: Option<String>,
    pub input_schema: Json,
    pub annotations: Option<ToolAnnotations>,
}

/// One entry of `resources/list`.
#[derive(Debug, Clone)]
pub struct ResourceDescription {
    pub uri: String,
    pub name: String,
    pub description: Option<String>,
    pub mime_type: Option<String>,
}

pub open spec fn opt_view(o: Option<String>) -> Option<Seq<char>> {
    match o {
        Some(s) => Some(s@),
        None => None,
    }
}

/// The hints of a set of annotations: read-only, destructive, idempotent.
pub open spec fn hints(a: ToolAnnotations) -> (Option<bool>, Option<bool>, Option<bool>) {
    (a.read_only_hint, a.destructive_hint, a.idempotent_hint)
}

/// A read-only tool that only inspects state; safe to call without asking.
pub fn read_only_safe(title: &str) -> (r: ToolAnnotations)
    ensures
        opt_view(r.title) == Some(title@),
        hints(r) == (Some(true), Some(false), Some(true)),
        r.open_world_hint == Some(false),
{
    ToolAnnotations {
        title: Some(owned(title)),
        read_only_hint: Some(true),
        destructive_hint: Some(false),
        idempotent_hint: Some(true),
        open_world_hint: Some(false),
    }
}

/// A tool whose writes are additive: repeated calls may stack, nothing is deleted.
pub fn mutating(title: &str, idempotent: bool) -> (r: ToolAnnotations)
    ensures
        opt_view(r.title) == Some(title@),
        hints(r) == (Some(false), Some(false), Some(idempotent)),
        r.open_world_hint == Some(false),
{
    ToolAnnotations {
        title: Some(owned(title)),
        read_only_hint: Some(false),
        destructive_hint: Some(false),
        idempotent_hint: Some(idempotent),
        open_world_hint: Some(false),
    }
}

/// A tool that may delete or overwrite memories; clients should ask first.
pub fn destructive(title: &str, idempotent: bool) -> (r: ToolAnnotations)
    ensures
        opt_view(r.title) == Some(title@),
        hints(r) == (Some(false), Some(true), Some(idempotent)),
        r.open_world_hint == Some(false),
{
    ToolAnnotations {
        title: Some(owned(title)),
        read_only_hint: Some(false),
        destructive_hint: Some(true),
        idempotent_hint: Some(idempotent),
        open_world_hint: Some(false),
    }
}

/// A catalog entry with its title, description, schema and annotations.
pub fn tool(
    name: &str,
    title: &str,
    description: &str,
    input_schema: Json,
    annotations: ToolAnnotations,
) -> (r: ToolDescription)
    ensures
        r.name@ == name@,
        opt_view(r.title) == Some(title@),
        opt_view(r.description) == Some(description@),
        r.input_schema@ == input_schema@,
        r.annotations == Some(annotations),
{
    ToolDescription {
        name: owned(name),
        title: Some(owned(title)),
        description: Some(owned(description)),
        input_schema,
        annotations: Some(annotations),
    }
}

/// What every advertised tool carries: the same title at both levels, a
/// description, a schema of the published shape, every hint explicit, and
/// the closed-world hint.
pub open spec fn tool_ok(t: ToolDescription) -> bool {
    &&& t.title is Some
    &&& t.description is Some
    &&& schema_shape(t.input_schema@)
    &&& t.annotations matches Some(a) && {
        &&& a.title is Some
        &&& opt_view(a.title) == opt_view(t.title)
        &&& a.read_only_hint is Some
        &&& a.destructive_hint is Some
        &&& a.idempotent_hint is Some
        &&& a.open_world_hint == Some(false)
    }
}

pub open spec fn tool_names(v: Seq<ToolDescription>) -> Seq<Seq<char>> {
    Seq::new(v.len(), |i: int| v[i].name@)
}

pub open spec fn tool_hints(v: Seq<ToolDescription>) -> Seq<(Option<bool>, Option<bool>, Option<bool>)> {
    Seq::new(v.len(), |i: int| hints(v[i].annotations.unwrap()))
}

fn add_tool(v: &mut Vec<ToolDescription>, t: ToolDescription)
    requires
        tool_ok(t),
        forall|i: int| 0 <= i < old(v)@.len() ==> tool_ok(#[trigger] old(v)@[i]),
    ensures
        final(v)@ == old(v)@.push(t),
        forall|i: int| 0 <= i < final(v)@.len() ==> tool_ok(#[trigger] final(v)@[i]),
        tool_names(final(v)@) == tool_names(old(v)@).push(t.name@),
        tool_hints(final(v)@) == tool_hints(old(v)@).push(hints(t.annotations.unwrap())),
        tool_views(final(v)@) == tool_views(old(v)@).push(tool_view(t)),
{
    let ghost t0 = t;
    v.push(t);
    proof {
        assert(tool_names(v@) =~= tool_names(old(v)@).push(t0.name@));
        assert(tool_hints(v@) =~= tool_hints(old(v)@).push(hints(t0.annotations.unwrap())));
        assert(tool_views(v@) =~= tool_views(old(v)@).push(tool_view(t0)));
    }
}

/// The schema of a tool whose arguments are declared by its own handler: an
/// object schema that declares none.
fn open_schema() -> (r: Json)
    ensures
        r@ == open_schema_v(),
        schema_shape(r@),
{
    let s = empty_schema();
    proof {
        assert(crate::json::entries_model(s.properties@) =~= Seq::<(Seq<char>, JsonV)>::empty());
        assert(crate::json::entries_model(s.extra@) =~= Seq::<(Seq<char>, JsonV)>::empty());
        assert(s.json_v()->Object_0 =~= open_schema_v()->Object_0);
    }
    s.publish()
}

/// What a client reads of a tool: its name, title, description and schema.
pub open spec fn tool_view(t: ToolDescription) -> (Seq<char>, Seq<char>, Seq<char>, JsonV) {
    (t.name@, opt_view(t.title).unwrap_or(Seq::empty()), opt_view(t.description).unwrap_or(Seq::empty()), t.input_schema@)
}

pub open spec fn tool_views(v: Seq<ToolDescription>) -> Seq<(Seq<char>, Seq<char>, Seq<char>, JsonV)> {
    Seq::new(v.len(), |i: int| tool_view(v[i]))
}

/// The model of an object schema that declares no argument.
pub open spec fn open_schema_v() -> JsonV {
    JsonV::Object(seq![("type"@, JsonV::Str("object"@)), ("properties"@, JsonV::Object(Seq::empty()))])
}

/// The advertised tools as a client reads them, in catalog order.
pub open spec fn catalog_views() -> Seq<(Seq<char>, Seq<char>, Seq<char>, JsonV)> {
    seq![
        ("search"@, "Search memories"@, "Unified search tool. Hybrid search (BM25 keyword + semantic embedding) fused with Reciprocal Rank Fusion (RRF), then run through the 8-stage cognitive pipeline (gating, dedup, scoring, spreading activation, token budget). Auto-strengthens memories on access (Testing Effect)."@, open_schema_v()),
        ("memory"@, "Memory CRUD"@, "Unified memory management tool. Actions: 'get' (retrieve full node by id), 'get_batch' (retrieve up to 20 nodes in one call via 'ids' array — useful for expanding search results), 'delete' (remove memory), 'state' (get accessibility state), 'promote' (thumbs up — increases retrieval strength), 'demote' (thumbs down — decreases retrieval strength, does NOT delete), 'edit' (update content in-place, preserves FSRS state)."@, crate::memory::schema_spec()),
        ("codebase"@, "Codebase patterns and decisions"@, "Unified codebase tool. Actions: 'remember_pattern' (store code pattern), 'remember_decision' (legacy free-form Markdown decision), 'remember_decision_v2' (structured Decision Matrix — question + choices + criteria + 1–5 score matrix + optional validUntil; reflect auto-flags decisions whose validUntil has passed), 'get_context' (retrieve patterns and decisions). Prefer 'remember_decision_v2' for non-trivial decisions so the Decision Matrix dashboard can render them and the reflect tool can detect staleness automatically."@, crate::codebase::schema_spec()),
        ("intention"@, "Intentions (prospective memory)"@, "Unified intention management tool. Actions: 'set' (create), 'check' (find triggered), 'update' (complete/snooze/cancel), 'list' (show intentions)."@, crate::intention::schema_spec()),
        ("smart_ingest"@, "Save memory (smart ingest)"@, "INTELLIGENT memory ingestion with Prediction Error Gating. Single mode: provide 'content' to auto-decide CREATE/UPDATE/SUPERSEDE. Batch mode: provide 'items' array (max 20) for session-end saves — each item runs the full cognitive pipeline (importance scoring, intent detection, synaptic tagging)."@, open_schema_v()),
        ("memory_timeline"@, "Browse memories chronologically"@, "Browse memories chronologically. Returns memories in a time range, grouped by day. Defaults to last 7 days."@, open_schema_v()),
        ("memory_changelog"@, "Memory changelog"@, "View audit trail of memory changes. Per-memory: state transitions. System-wide: consolidations + recent state changes."@, crate::changelog::schema_spec()),
        ("system_status"@, "System status"@, "Combined system health and statistics. Returns status (healthy/degraded/critical/empty), full stats, FSRS preview, cognitive module health, state distribution, warnings, and recommendations."@, crate::maintenance::system_status_schema_spec()),
        ("consolidate"@, "Run consolidation cycle"@, "Run FSRS-6 memory consolidation cycle. Applies decay, generates embeddings, and performs maintenance. Use when memories seem stale."@, crate::maintenance::consolidate_schema_spec()),
        ("backup"@, "Backup database"@, "Create a SQLite database backup. Returns the backup file path."@, crate::maintenance::backup_schema_spec()),
        ("export"@, "Export memories"@, "Export memories as JSON or JSONL. Supports tag and date filters."@, crate::maintenance::export_schema_spec()),
        ("gc"@, "Garbage collect stale memories"@, "Garbage collect stale memories below retention threshold. Defaults to dry_run=true for safety."@, crate::maintenance::gc_schema_spec()),
        ("split_memories"@, "Split compound memories"@, "Find compound/multi-topic memories that should be split into atomic pieces. Returns memories with splitting suggestions. Use dry_run=false to auto-delete compounds after reading them. Then re-ingest each as separate atomic items via smart_ingest batch mode."@, crate::maintenance::split_memories_schema_spec()),
        ("regenerate_embeddings"@, "Regenerate embeddings"@, "Backfill or rebuild memory embeddings without the per-call cap that consolidate has. Use force=false (default) to fill missing embeddings (has_embedding=0/NULL); force=true to rebuild all. Optional node_ids to scope to specific memories. Use after upgrading the embedding model, after a long stretch where the model was unavailable at ingest time, or to recover from silent-skip situations."@, crate::maintenance::regenerate_embeddings_schema_spec()),
        ("importance_score"@, "Score content importance"@, "Score content importance using 4-channel neuroscience model (novelty/arousal/reward/attention). Returns composite score, channel breakdown, encoding boost, and explanations."@, open_schema_v()),
        ("find_duplicates"@, "Find duplicate memories"@, "Find duplicate and near-duplicate memory clusters using cosine similarity on embeddings. Returns clusters with suggested actions (merge/review). Use to clean up redundant memories."@, open_schema_v()),
        ("dream"@, "Dream (memory consolidation)"@, "Trigger memory dreaming — replays recent memories to discover hidden connections, synthesize insights, and strengthen important patterns. Returns insights, connections, and dream stats."@, crate::dream::schema_spec()),
        ("explore_connections"@, "Explore memory connections"@, "Graph exploration tool for memory connections. Actions: 'chain' (build reasoning path between memories), 'associations' (find related memories via spreading activation + hippocampal index), 'bridges' (find connecting memories between two nodes)."@, crate::explore::schema_spec()),
        ("predict"@, "Predict next memories"@, "Proactive memory prediction — predicts what memories you'll need next based on context, recent activity, and learned patterns. Returns predictions, suggestions, and speculative retrievals."@, open_schema_v()),
        ("restore"@, "Restore from backup"@, "Restore memories from a JSON backup file. Supports MCP wrapper format, RecallResult format, and direct memory array format."@, open_schema_v()),
        ("session_context"@, "Session context packet"@, "One-call session initialization. Combines search, intentions, status, predictions, and codebase context into a single token-budgeted response. Replaces 5 separate calls at session start."@, open_schema_v()),
        ("memory_health"@, "Memory retention dashboard"@, "Retention dashboard. Returns avg retention, retention distribution (buckets: 0-20%, 20-40%, etc.), trend (improving/declining/stable), and recommendation. Lightweight alternative to full system_status focused on memory quality."@, crate::health::schema_spec()),
        ("memory_graph"@, "Memory subgraph (visualization)"@, "Subgraph export for visualization. Input: center_id or query, depth (1-3), max_nodes. Returns nodes with force-directed layout positions and edges with weights. Powers memory graph visualization."@, open_schema_v()),
        ("reflect"@, "Metacognitive reflection"@, "Deliberate metacognitive reflection — analyzes memories for contradictions, knowledge gaps, stale decisions, overconfident memories, and pattern clusters. Unlike 'dream' (unconscious consolidation), 'reflect' is active self-examination. Returns actionable insights."@, open_schema_v()),
        ("temporal"@, "Temporal fact versioning"@, "Temporal fact versioning — query time-sensitive knowledge. Actions: 'current' (valid-now facts), 'expired' (no-longer-valid), 'history' (evolution of a topic over time), 'invalidate' (mark a fact as no longer valid)."@, open_schema_v()),
        ("confidence"@, "Confidence calibration"@, "Confidence scoring for opinions and beliefs. Actions: 'score' (evaluate a single memory), 'audit' (find poorly-calibrated memories), 'calibrate' (compare opinions vs facts retention)."@, crate::confidence::schema_spec()),
        ("deep_reference"@, "Deep reference (cognitive reasoning)"@, "Cognitive reasoning engine across memories. Combines hybrid search, FSRS-6 trust scoring, intent classification, temporal supersession, contradiction analysis, dream insight integration, and structured synthesis. Use for factual questions, fact-checking, timelines, root-cause analysis, comparisons, and topic synthesis. 'cross_reference' is a backward-compatible alias."@, crate::cross_reference::schema_spec()),
        ("precompute_for_context"@, "Precompute context (sleep-time compute)"@, "Sleep-time compute: announce a topic you expect to work on next. Searches the topic, takes the top source memories and saves a summary memory (node type 'precomputed_summary', tags 'precomputed' and 'topic:<slug>', expiring after ttl_hours) that later search, session_context and deep_reference calls find ready-made. Each call saves a new summary."@, crate::precompute::schema_spec()),
    ]
}

/// The names of the advertised tools, in catalog order.
pub open spec fn catalog_names() -> Seq<Seq<char>> {
    seq![
        "search"@,
        "memory"@,
        "codebase"@,
        "intention"@,
        "smart_ingest"@,
        "memory_timeline"@,
        "memory_changelog"@,
        "system_status"@,
        "consolidate"@,
        "backup"@,
        "export"@,
        "gc"@,
        "split_memories"@,
        "regenerate_embeddings"@,
        "importance_score"@,
        "find_duplicates"@,
        "dream"@,
        "explore_connections"@,
        "predict"@,
        "restore"@,
        "session_context"@,
        "memory_health"@,
        "memory_graph"@,
        "reflect"@,
        "temporal"@,
        "confidence"@,
        "deep_reference"@,
        "precompute_for_context"@,
    ]
}

/// The behaviour hints of the advertised tools (read-only, destructive,
/// idempotent), in catalog order.
pub open spec fn catalog_hints() -> Seq<(Option<bool>, Option<bool>, Option<bool>)> {
    seq![
        (Some(true), Some(false), Some(true)),
        (Some(false), Some(true), Some(false)),
        (Some(false), Some(false), Some(false)),
        (Some(false), Some(false), Some(false)),
        (Some(false), Some(true), Some(false)),
        (Some(true), Some(false), Some(true)),
        (Some(true), Some(false), Some(true)),
        (Some(true), Some(false), Some(true)),
        (Some(false), Some(false), Some(true)),
        (Some(false), Some(false), Some(false)),
        (Some(true), Some(false), Some(true)),
        (Some(false), Some(true), Some(true)),
        (Some(false), Some(true), Some(false)),
        (Some(false), Some(false), Some(true)),
        (Some(true), Some(false), Some(true)),
        (Some(true), Some(false), Some(true)),
        (Some(false), Some(false), Some(false)),
        (Some(true), Some(false), Some(true)),
        (Some(true), Some(false), Some(true)),
        (Some(false), Some(true), Some(false)),
        (Some(true), Some(false), Some(true)),
        (Some(true), Some(false), Some(true)),
        (Some(true), Some(false), Some(true)),
        (Some(true), Some(false), Some(true)),
        (Some(false), Some(true), Some(true)),
        (Some(true), Some(false), Some(true)),
        (Some(true), Some(false), Some(true)),
        (Some(false), Some(false), Some(false)),
    ]
}

/// The `tools/list` payload.
#[verifier::spinoff_prover]
#[verifier::rlimit(60)]
pub fn build_tools_list() -> (r: Vec<ToolDescription>)
    ensures
        r@.len() == 28,
        tool_names(r@) == catalog_names(),
        tool_hints(r@) == catalog_hints(),
        tool_views(r@) == catalog_views(),
        forall|i: int| 0 <= i < r@.len() ==> tool_ok(#[trigger] r@[i]),
{
    let mut v: Vec<ToolDescription> = Vec::new();
    add_tool(
        &mut v,
        tool(
            "search",
            "Search memories",
            "Unified search tool. Hybrid search (BM25 keyword + semantic embedding) fused with Reciprocal Rank Fusion (RRF), then run through the 8-stage cognitive pipeline (gating, dedup, scoring, spreading activation, token budget). Auto-strengthens memories on access (Testing Effect).",
            open_schema(),
            read_only_safe("Search memories"),
        ),
    );
    add_tool(
        &mut v,
        tool(
            "memory",
            "Memory CRUD",
            "Unified memory management tool. Actions: 'get' (retrieve full node by id), 'get_batch' (retrieve up to 20 nodes in one call via 'ids' array — useful for expanding search results), 'delete' (remove memory), 'state' (get accessibility state), 'promote' (thumbs up — increases retrieval strength), 'demote' (thumbs down — decreases retrieval strength, does NOT delete), 'edit' (update content in-place, preserves FSRS state).",
            crate::memory::schema(),
            destructive("Memory CRUD", false),
        ),
    );
    add_tool(
        &mut v,
        tool(
            "codebase",
            "Codebase patterns and decisions",
            "Unified codebase tool. Actions: 'remember_pattern' (store code pattern), 'remember_decision' (legacy free-form Markdown decision), 'remember_decision_v2' (structured Decision Matrix — question + choices + criteria + 1–5 score matrix + optional validUntil; reflect auto-flags decisions whose validUntil has passed), 'get_context' (retrieve patterns and decisions). Prefer 'remember_decision_v2' for non-trivial decisions so the Decision Matrix dashboard can render them and the reflect tool can detect staleness automatically.",
            crate::codebase::schema(),
            mutating("Codebase patterns and decisions", false),
        ),
    );
    add_tool(
        &mut v,
        tool(
            "intention",
            "Intentions (prospective memory)",
            "Unified intention management tool. Actions: 'set' (create), 'check' (find triggered), 'update' (complete/snooze/cancel), 'list' (show intentions).",
            crate::intention::schema(),
            mutating("Intentions (prospective memory)", false),
        ),
    );
    add_tool(
        &mut v,
        tool(
            "smart_ingest",
            "Save memory (smart ingest)",
            "INTELLIGENT memory ingestion with Prediction Error Gating. Single mode: provide 'content' to auto-decide CREATE/UPDATE/SUPERSEDE. Batch mode: provide 'items' array (max 20) for session-end saves — each item runs the full cognitive pipeline (importance scoring, intent detection, synaptic tagging).",
            open_schema(),
            destructive("Save memory (smart ingest)", false),
        ),
    );
    add_tool(
        &mut v,
        tool(
            "memory_timeline",
            "Browse memories chronologically",
            "Browse memories chronologically. Returns memories in a time range, grouped by day. Defaults to last 7 days.",
            open_schema(),
            read_only_safe("Browse memories chronologically"),
        ),
    );
    add_tool(
        &mut v,
        tool(
            "memory_changelog",
            "Memory changelog",
            "View audit trail of memory changes. Per-memory: state transitions. System-wide: consolidations + recent state changes.",
            crate::changelog::schema(),
            read_only_safe("Memory changelog"),
        ),
    );
    add_tool(
        &mut v,
        tool(
            "system_status",
            "System status",
            "Combined system health and statistics. Returns status (healthy/degraded/critical/empty), full stats, FSRS preview, cognitive module health, state distribution, warnings, and recommendations.",
            crate::maintenance::system_status_schema(),
            read_only_safe("System status"),
        ),
    );
    add_tool(
        &mut v,
        tool(
            "consolidate",
            "Run consolidation cycle",
            "Run FSRS-6 memory consolidation cycle. Applies decay, generates embeddings, and performs maintenance. Use when memories seem stale.",
            crate::maintenance::consolidate_schema(),
            mutating("Run consolidation cycle", true),
        ),
    );
    add_tool(
        &mut v,
        tool(
            "backup",
            "Backup database",
            "Create a SQLite database backup. Returns the backup file path.",
            crate::maintenance::backup_schema(),
            mutating("Backup database", false),
        ),
    );
    add_tool(
        &mut v,
        tool(
            "export",
            "Export memories",
            "Export memories as JSON or JSONL. Supports tag and date filters.",
            crate::maintenance::export_schema(),
            read_only_safe("Export memories"),
        ),
    );
    add_tool(
        &mut v,
        tool(
            "gc",
            "Garbage collect stale memories",
            "Garbage collect stale memories below retention threshold. Defaults to dry_run=true for safety.",
            crate::maintenance::gc_schema(),
            destructive("Garbage collect stale memories", true),
        ),
    );
    add_tool(
        &mut v,
        tool(
            "split_memories",
            "Split compound memories",
            "Find compound/multi-topic memories that should be split into atomic pieces. Returns memories with splitting suggestions. Use dry_run=false to auto-delete compounds after reading them. Then re-ingest each as separate atomic items via smart_ingest batch mode.",
            crate::maintenance::split_memories_schema(),
            destructive("Split compound memories", false),
        ),
    );
    add_tool(
        &mut v,
        tool(
            "regenerate_embeddings",
            "Regenerate embeddings",
            "Backfill or rebuild memory embeddings without the per-call cap that consolidate has. Use force=false (default) to fill missing embeddings (has_embedding=0/NULL); force=true to rebuild all. Optional node_ids to scope to specific memories. Use after upgrading the embedding model, after a long stretch where the model was unavailable at ingest time, or to recover from silent-skip situations.",
            crate::maintenance::regenerate_embeddings_schema(),
            mutating("Regenerate embeddings", true),
        ),
    );
    add_tool(
        &mut v,
        tool(
            "importance_score",
            "Score content importance",
            "Score content importance using 4-channel neuroscience model (novelty/arousal/reward/attention). Returns composite score, channel breakdown, encoding boost, and explanations.",
            open_schema(),
            read_only_safe("Score content importance"),
        ),
    );
    add_tool(
        &mut v,
        tool(
            "find_duplicates",
            "Find duplicate memories",
            "Find duplicate and near-duplicate memory clusters using cosine similarity on embeddings. Returns clusters with suggested actions (merge/review). Use to clean up redundant memories.",
            open_schema(),
            read_only_safe("Find duplicate memories"),
        ),
    );
    add_tool(
        &mut v,
        tool(
            "dream",
            "Dream (memory consolidation)",
            "Trigger memory dreaming — replays recent memories to discover hidden connections, synthesize insights, and strengthen important patterns. Returns insights, connections, and dream stats.",
            crate::dream::schema(),
            mutating("Dream (memory consolidation)", false),
        ),
    );
    add_tool(
        &mut v,
        tool(
            "explore_connections",
            "Explore memory connections",
            "Graph exploration tool for memory connections. Actions: 'chain' (build reasoning path between memories), 'associations' (find related memories via spreading activation + hippocampal index), 'bridges' (find connecting memories between two nodes).",
            crate::explore::schema(),
            read_only_safe("Explore memory connections"),
        ),
    );
    add_tool(
        &mut v,
        tool(
            "predict",
            "Predict next memories",
            "Proactive memory prediction — predicts what memories you'll need next based on context, recent activity, and learned patterns. Returns predictions, suggestions, and speculative retrievals.",
            open_schema(),
            read_only_safe("Predict next memories"),
        ),
    );
    add_tool(
        &mut v,
        tool(
            "restore",
            "Restore from backup",
            "Restore memories from a JSON backup file. Supports MCP wrapper format, RecallResult format, and direct memory array format.",
            open_schema(),
            destructive("Restore from backup", false),
        ),
    );
    add_tool(
        &mut v,
        tool(
            "session_context",
            "Session context packet",
            "One-call session initialization. Combines search, intentions, status, predictions, and codebase context into a single token-budgeted response. Replaces 5 separate calls at session start.",
            open_schema(),
            read_only_safe("Session context packet"),
        ),
    );
    add_tool(
        &mut v,
        tool(
            "memory_health",
            "Memory retention dashboard",
            "Retention dashboard. Returns avg retention, retention distribution (buckets: 0-20%, 20-40%, etc.), trend (improving/declining/stable), and recommendation. Lightweight alternative to full system_status focused on memory quality.",
            crate::health::schema(),
            read_only_safe("Memory retention dashboard"),
        ),
    );
    add_tool(
        &mut v,
        tool(
            "memory_graph",
            "Memory subgraph (visualization)",
            "Subgraph export for visualization. Input: center_id or query, depth (1-3), max_nodes. Returns nodes with force-directed layout positions and edges with weights. Powers memory graph visualization.",
            open_schema(),
            read_only_safe("Memory subgraph (visualization)"),
        ),
    );
    add_tool(
        &mut v,
        tool(
            "reflect",
            "Metacognitive reflection",
            "Deliberate metacognitive reflection — analyzes memories for contradictions, knowledge gaps, stale decisions, overconfident memories, and pattern clusters. Unlike 'dream' (unconscious consolidation), 'reflect' is active self-examination. Returns actionable insights.",
            open_schema(),
            read_only_safe("Metacognitive reflection"),
        ),
    );
    add_tool(
        &mut v,
        tool(
            "temporal",
            "Temporal fact versioning",
            "Temporal fact versioning — query time-sensitive knowledge. Actions: 'current' (valid-now facts), 'expired' (no-longer-valid), 'history' (evolution of a topic over time), 'invalidate' (mark a fact as no longer valid).",
            open_schema(),
            destructive("Temporal fact versioning", true),
        ),
    );
    add_tool(
        &mut v,
        tool(
            "confidence",
            "Confidence calibration",
            "Confidence scoring for opinions and beliefs. Actions: 'score' (evaluate a single memory), 'audit' (find poorly-calibrated memories), 'calibrate' (compare opinions vs facts retention).",
            crate::confidence::schema(),
            read_only_safe("Confidence calibration"),
        ),
    );
    add_tool(
        &mut v,
        tool(
            "deep_reference",
            "Deep reference (cognitive reasoning)",
            "Cognitive reasoning engine across memories. Combines hybrid search, FSRS-6 trust scoring, intent classification, temporal supersession, contradiction analysis, dream insight integration, and structured synthesis. Use for factual questions, fact-checking, timelines, root-cause analysis, comparisons, and topic synthesis. 'cross_reference' is a backward-compatible alias.",
            crate::cross_reference::schema(),
            read_only_safe("Deep reference (cognitive reasoning)"),
        ),
    );
    add_tool(
        &mut v,
        tool(
            "precompute_for_context",
            "Precompute context (sleep-time compute)",
            "Sleep-time compute: announce a topic you expect to work on next. Searches the topic, takes the top source memories and saves a summary memory (node type 'precomputed_summary', tags 'precomputed' and 'topic:<slug>', expiring after ttl_hours) that later search, session_context and deep_reference calls find ready-made. Each call saves a new summary.",
            crate::precompute::schema(),
            mutating("Precompute context (sleep-time compute)", false),
        ),
    );
    proof {
        assert(tool_names(v@) =~= catalog_names());
        assert(tool_hints(v@) =~= catalog_hints());
        assert(tool_views(v@) =~= catalog_views());
    }
    v
}

/// What a client reads of a resource: its URI, name and description.
pub open spec fn resource_view(r: ResourceDescription) -> (Seq<char>, Seq<char>, Seq<char>) {
    (r.uri@, r.name@, opt_view(r.description).unwrap_or(Seq::empty()))
}

pub open spec fn resource_views(v: Seq<ResourceDescription>) -> Seq<(Seq<char>, Seq<char>, Seq<char>)> {
    Seq::new(v.len(), |i: int| resource_view(v[i]))
}

/// The advertised resources as a client reads them, in catalog order.
pub open spec fn catalog_resources() -> Seq<(Seq<char>, Seq<char>, Seq<char>)> {
    seq![
        ("memory://stats"@, "Memory Statistics"@, "Current memory system statistics and health status"@),
        ("memory://recent"@, "Recent Memories"@, "Recently added memories (last 10)"@),
        ("memory://decaying"@, "Decaying Memories"@, "Memories with low retention that need review"@),
        ("memory://due"@, "Due for Review"@, "Memories scheduled for review today"@),
        ("codebase://structure"@, "Codebase Structure"@, "Remembered project structure and organization"@),
        ("codebase://patterns"@, "Code Patterns"@, "Remembered code patterns and conventions"@),
        ("codebase://decisions"@, "Architectural Decisions"@, "Remembered architectural and design decisions"@),
        ("memory://insights"@, "Consolidation Insights"@, "Insights generated during memory consolidation"@),
        ("memory://consolidation-log"@, "Consolidation Log"@, "History of memory consolidation runs"@),
        ("memory://intentions"@, "Active Intentions"@, "Future intentions (prospective memory) waiting to be triggered"@),
        ("memory://intentions/due"@, "Triggered Intentions"@, "Intentions that have been triggered or are overdue"@),
    ]
}

/// The URIs of the advertised resources, in catalog order.
pub open spec fn resource_uris() -> Seq<Seq<char>> {
    seq![
        "memory://stats"@,
        "memory://recent"@,
        "memory://decaying"@,
        "memory://due"@,
        "codebase://structure"@,
        "codebase://patterns"@,
        "codebase://decisions"@,
        "memory://insights"@,
        "memory://consolidation-log"@,
        "memory://intentions"@,
        "memory://intentions/due"@,
    ]
}

pub open spec fn uris(v: Seq<ResourceDescription>) -> Seq<Seq<char>> {
    Seq::new(v.len(), |i: int| v[i].uri@)
}

/// What every advertised resource carries: a description and the JSON media type.
pub open spec fn resource_ok(r: ResourceDescription) -> bool {
    &&& r.description is Some
    &&& opt_view(r.mime_type) == Some("application/json"@)
}

fn resource(uri: &str, name: &str, description: &str) -> (r: ResourceDescription)
    ensures
        r.uri@ == uri@,
        r.name@ == name@,
        opt_view(r.description) == Some(description@),
        resource_ok(r),
{
    ResourceDescription {
        uri: owned(uri),
        name: owned(name),
        description: Some(owned(description)),
        mime_type: Some(owned("application/json")),
    }
}

fn add_resource(v: &mut Vec<ResourceDescription>, r: ResourceDescription)
    requires
        resource_ok(r),
        forall|i: int| 0 <= i < old(v)@.len() ==> resource_ok(#[trigger] old(v)@[i]),
    ensures
        forall|i: int| 0 <= i < final(v)@.len() ==> resource_ok(#[trigger] final(v)@[i]),
        uris(final(v)@) == uris(old(v)@).push(r.uri@),
        resource_views(final(v)@) == resource_views(old(v)@).push(resource_view(r)),
        final(v)@.len() == old(v)@.len() + 1,
{
    let ghost r0 = r;
    v.push(r);
    proof {
        assert(uris(v@) =~= uris(old(v)@).push(r0.uri@));
        assert(resource_views(v@) =~= resource_views(old(v)@).push(resource_view(r0)));
    }
}

/// The `resources/list` payload.
pub fn build_resources_list() -> (r: Vec<ResourceDescription>)
    ensures
        r@.len() == 11,
        uris(r@) == resource_uris(),
        resource_views(r@) == catalog_resources(),
        forall|i: int| 0 <= i < r@.len() ==> resource_ok(#[trigger] r@[i]),
{
    let mut v: Vec<ResourceDescription> = Vec::new();
    add_resource(
        &mut v,
        resource(
            "memory://stats",
            "Memory Statistics",
            "Current memory system statistics and health status",
        ),
    );
    add_resource(
        &mut v,
        resource(
            "memory://recent",
            "Recent Memories",
            "Recently added memories (last 10)",
        ),
    );
    add_resource(
        &mut v,
        resource(
            "memory://decaying",
            "Decaying Memories",
            "Memories with low retention that need review",
        ),
    );
    add_resource(
        &mut v,
        resource(
            "memory://due",
            "Due for Review",
            "Memories scheduled for review today",
        ),
    );
    add_resource(
        &mut v,
        resource(
            "codebase://structure",
            "Codebase Structure",
            "Remembered project structure and organization",
        ),
    );
    add_resource(
        &mut v,
        resource(
            "codebase://patterns",
            "Code Patterns",
            "Remembered code patterns and conventions",
        ),
    );
    add_resource(
        &mut v,
        resource(
            "codebase://decisions",
            "Architectural Decisions",
            "Remembered architectural and design decisions",
        ),
    );
    add_resource(
        &mut v,
        resource(
            "memory://insights",
            "Consolidation Insights",
            "Insights generated during memory consolidation",
        ),
    );
    add_resource(
        &mut v,
        resource(
            "memory://consolidation-log",
            "Consolidation Log",
            "History of memory consolidation runs",
        ),
    );
    add_resource(
        &mut v,
        resource(
            "memory://intentions",
            "Active Intentions",
            "Future intentions (prospective memory) waiting to be triggered",
        ),
    );
    add_resource(
        &mut v,
        resource(
            "memory://intentions/due",
            "Triggered Intentions",
            "Intentions that have been triggered or are overdue",
        ),
    );
    proof {
        assert(uris(v@) =~= resource_uris());
        assert(resource_views(v@) =~= catalog_resources());
    }
    v
}

/// A character of a snake_case name: a lowercase ASCII letter, a digit or `_`.
pub open spec fn snake_char(c: char) -> bool {
    ('a' <= c && c <= 'z') || ('0' <= c && c <= '9') || c == '_'
}

/// The length, first and last character of a name.
spec fn name_key(s: Seq<char>) -> (nat, char, char) {
    (s.len(), s[0], s.last())
}

/// No two advertised tools share a name, so a call is never ambiguous.
pub proof fn law_tool_names_are_unique()
    ensures
        forall|i: int, j: int|
            0 <= i < j < catalog_names().len() ==> catalog_names()[i] != catalog_names()[j],
{
    reveal_strlit("search");
    reveal_strlit("memory");
    reveal_strlit("codebase");
    reveal_strlit("intention");
    reveal_strlit("smart_ingest");
    reveal_strlit("memory_timeline");
    reveal_strlit("memory_changelog");
    reveal_strlit("system_status");
    reveal_strlit("consolidate");
    reveal_strlit("backup");
    reveal_strlit("export");
    reveal_strlit("gc");
    reveal_strlit("split_memories");
    reveal_strlit("regenerate_embeddings");
    reveal_strlit("importance_score");
    reveal_strlit("find_duplicates");
    reveal_strlit("dream");
    reveal_strlit("explore_connections");
    reveal_strlit("predict");
    reveal_strlit("restore");
    reveal_strlit("session_context");
    reveal_strlit("memory_health");
    reveal_strlit("memory_graph");
    reveal_strlit("reflect");
    reveal_strlit("temporal");
    reveal_strlit("confidence");
    reveal_strlit("deep_reference");
    reveal_strlit("precompute_for_context");
    let n = catalog_names();
    assert forall|i: int, j: int| 0 <= i < j < n.len() implies n[i] != n[j] by {
        assert(name_key(n[i]) != name_key(n[j]));
    }
}

/// Every advertised tool name is snake_case.
pub proof fn law_tool_names_are_snake_case()
    ensures
        forall|i: int, k: int|
            0 <= i < catalog_names().len() && 0 <= k < catalog_names()[i].len() ==> snake_char(
                #[trigger] catalog_names()[i][k],
            ),
{
    reveal_strlit("search");
    reveal_strlit("memory");
    reveal_strlit("codebase");
    reveal_strlit("intention");
    reveal_strlit("smart_ingest");
    reveal_strlit("memory_timeline");
    reveal_strlit("memory_changelog");
    reveal_strlit("system_status");
    reveal_strlit("consolidate");
    reveal_strlit("backup");
    reveal_strlit("export");
    reveal_strlit("gc");
    reveal_strlit("split_memories");
    reveal_strlit("regenerate_embeddings");
    reveal_strlit("importance_score");
    reveal_strlit("find_duplicates");
    reveal_strlit("dream");
    reveal_strlit("explore_connections");
    reveal_strlit("predict");
    reveal_strlit("restore");
    reveal_strlit("session_context");
    reveal_strlit("memory_health");
    reveal_strlit("memory_graph");
    reveal_strlit("reflect");
    reveal_strlit("temporal");
    reveal_strlit("confidence");
    reveal_strlit("deep_reference");
    reveal_strlit("precompute_for_context");
}

/// Every advertised resource URI names its scheme (`scheme://`).
pub proof fn law_resource_uris_have_a_scheme()
    ensures
        forall|i: int| 0 <= i < resource_uris().len() ==> contains_s(#[trigger] resource_uris()[i], "://"@),
{
    reveal_strlit("://");
    reveal_strlit("memory://stats");
    reveal_strlit("memory://recent");
    reveal_strlit("memory://decaying");
    reveal_strlit("memory://due");
    reveal_strlit("codebase://structure");
    reveal_strlit("codebase://patterns");
    reveal_strlit("codebase://decisions");
    reveal_strlit("memory://insights");
    reveal_strlit("memory://consolidation-log");
    reveal_strlit("memory://intentions");
    reveal_strlit("memory://intentions/due");
    let u = resource_uris();
    assert forall|i: int| 0 <= i < u.len() implies contains_s(#[trigger] u[i], "://"@) by {
        let p: int = if u[i][0] == 'm' { 6 } else { 8 };
        assert(u[i].subrange(p, p + 3) =~= "://"@);
        assert(crate::text::occurs_at(u[i], "://"@, p));
    }
}

} // verus!
