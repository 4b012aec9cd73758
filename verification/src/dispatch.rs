//! Tool-call dispatch: which handler a `tools/call` runs, how its outcome is
//! framed for the client, and when a call triggers consolidation.
//!
//! Deprecated names are first rewritten to the current tool (see
//! [`crate::deprecated`]); dispatch then goes by current names only. An
//! unknown name is refused with a message naming the tool and the JSON-RPC
//! code -32601; missing or malformed call parameters with -32602 (see
//! [`refusal_code`]).

use vstd::prelude::*;
use crate::catalog::catalog_names;
use crate::deprecated::{opt_view, rewrite_deprecated, rewrite_s};
use crate::json::{entries_model, get_field, new_entries, object, push_entry, str_of, Json, JsonV};
use crate::text::{chars_eq_str, chars_of, owned, push_str, string_of};

verus! {

broadcast use vstd::string::group_string_axioms;

/// The handler a call runs.
#[derive(PartialEq, Eq, Structural, Clone, Copy, Debug)]
pub enum ToolId {
    Search,
    Memory,
    Codebase,
    Intention,
    SmartIngest,
    SystemStatus,
    MemoryTimeline,
    MemoryChangelog,
    Consolidate,
    Backup,
    Export,
    Gc,
    SplitMemories,
    RegenerateEmbeddings,
    Erase,
    ImportanceScore,
    FindDuplicates,
    Dream,
    ExploreConnections,
    Predict,
    PrecomputeForContext,
    Restore,
    SessionContext,
    MemoryHealth,
    MemoryGraph,
    Reflect,
    Temporal,
    Confidence,
    DeepReference,
}

/// The handler for a current tool name (`cross_reference` is an alias of
/// `deep_reference`); `None` for a name no handler answers to.
pub open spec fn tool_id_s(name: Seq<char>) -> Option<ToolId> {
    if name == "search"@ {
        Some(ToolId::Search)
    } else if name == "memory"@ {
        Some(ToolId::Memory)
    } else if name == "codebase"@ {
        Some(ToolId::Codebase)
    } else if name == "intention"@ {
        Some(ToolId::Intention)
    } else if name == "smart_ingest"@ {
        Some(ToolId::SmartIngest)
    } else if name == "system_status"@ {
        Some(ToolId::SystemStatus)
    } else if name == "memory_timeline"@ {
        Some(ToolId::MemoryTimeline)
    } else if name == "memory_changelog"@ {
        Some(ToolId::MemoryChangelog)
    } else if name == "consolidate"@ {
        Some(ToolId::Consolidate)
    } else if name == "backup"@ {
        Some(ToolId::Backup)
    } else if name == "export"@ {
        Some(ToolId::Export)
    } else if name == "gc"@ {
        Some(ToolId::Gc)
    } else if name == "split_memories"@ {
        Some(ToolId::SplitMemories)
    } else if name == "regenerate_embeddings"@ {
        Some(ToolId::RegenerateEmbeddings)
    } else if name == "erase"@ {
        Some(ToolId::Erase)
    } else if name == "importance_score"@ {
        Some(ToolId::ImportanceScore)
    } else if name == "find_duplicates"@ {
        Some(ToolId::FindDuplicates)
    } else if name == "dream"@ {
        Some(ToolId::Dream)
    } else if name == "explore_connections"@ {
        Some(ToolId::ExploreConnections)
    } else if name == "predict"@ {
        Some(ToolId::Predict)
    } else if name == "precompute_for_context"@ {
        Some(ToolId::PrecomputeForContext)
    } else if name == "restore"@ {
        Some(ToolId::Restore)
    } else if name == "session_context"@ {
        Some(ToolId::SessionContext)
    } else if name == "memory_health"@ {
        Some(ToolId::MemoryHealth)
    } else if name == "memory_graph"@ {
        Some(ToolId::MemoryGraph)
    } else if name == "reflect"@ {
        Some(ToolId::Reflect)
    } else if name == "temporal"@ {
        Some(ToolId::Temporal)
    } else if name == "confidence"@ {
        Some(ToolId::Confidence)
    } else if name == "deep_reference"@ {
        Some(ToolId::DeepReference)
    } else if name == "cross_reference"@ {
        Some(ToolId::DeepReference)
    } else {
        None
    }
}

/// The handler for a current tool name.
pub fn tool_id(name: &str) -> (r: Option<ToolId>)
    ensures
        r == tool_id_s(name@),
{
    let n = chars_of(name);
    if chars_eq_str(&n, "search") {
        Some(ToolId::Search)
    } else if chars_eq_str(&n, "memory") {
        Some(ToolId::Memory)
    } else if chars_eq_str(&n, "codebase") {
        Some(ToolId::Codebase)
    } else if chars_eq_str(&n, "intention") {
        Some(ToolId::Intention)
    } else if chars_eq_str(&n, "smart_ingest") {
        Some(ToolId::SmartIngest)
    } else if chars_eq_str(&n, "system_status") {
        Some(ToolId::SystemStatus)
    } else if chars_eq_str(&n, "memory_timeline") {
        Some(ToolId::MemoryTimeline)
    } else if chars_eq_str(&n, "memory_changelog") {
        Some(ToolId::MemoryChangelog)
    } else if chars_eq_str(&n, "consolidate") {
        Some(ToolId::Consolidate)
    } else if chars_eq_str(&n, "backup") {
        Some(ToolId::Backup)
    } else if chars_eq_str(&n, "export") {
        Some(ToolId::Export)
    } else if chars_eq_str(&n, "gc") {
        Some(ToolId::Gc)
    } else if chars_eq_str(&n, "split_memories") {
        Some(ToolId::SplitMemories)
    } else if chars_eq_str(&n, "regenerate_embeddings") {
        Some(ToolId::RegenerateEmbeddings)
    } else if chars_eq_str(&n, "erase") {
        Some(ToolId::Erase)
    } else if chars_eq_str(&n, "importance_score") {
        Some(ToolId::ImportanceScore)
    } else if chars_eq_str(&n, "find_duplicates") {
        Some(ToolId::FindDuplicates)
    } else if chars_eq_str(&n, "dream") {
        Some(ToolId::Dream)
    } else if chars_eq_str(&n, "explore_connections") {
        Some(ToolId::ExploreConnections)
    } else if chars_eq_str(&n, "predict") {
        Some(ToolId::Predict)
    } else if chars_eq_str(&n, "precompute_for_context") {
        Some(ToolId::PrecomputeForContext)
    } else if chars_eq_str(&n, "restore") {
        Some(ToolId::Restore)
    } else if chars_eq_str(&n, "session_context") {
        Some(ToolId::SessionContext)
    } else if chars_eq_str(&n, "memory_health") {
        Some(ToolId::MemoryHealth)
    } else if chars_eq_str(&n, "memory_graph") {
        Some(ToolId::MemoryGraph)
    } else if chars_eq_str(&n, "reflect") {
        Some(ToolId::Reflect)
    } else if chars_eq_str(&n, "temporal") {
        Some(ToolId::Temporal)
    } else if chars_eq_str(&n, "confidence") {
        Some(ToolId::Confidence)
    } else if chars_eq_str(&n, "deep_reference") {
        Some(ToolId::DeepReference)
    } else if chars_eq_str(&n, "cross_reference") {
        Some(ToolId::DeepReference)
    } else {
        None
    }
}

/// What a `tools/call` comes to: the handler and the arguments it runs with,
/// or the refusal of a name no handler answers to.
pub enum Dispatch {
    Run { tool: ToolId, args: Option<Json> },
    Unknown { message: String },
}

/// Why a `tools/call` frame is refused before any handler runs.
#[derive(PartialEq, Eq, Structural, Clone, Copy, Debug)]
pub enum CallRefusal {
    /// The frame has no `params`.
    MissingParams,
    /// `params` is not a tool call (no `name`, or fields of the wrong type).
    InvalidParams,
    /// No handler answers to the (rewritten) tool name.
    UnknownTool,
}

/// JSON-RPC "Method not found".
pub const METHOD_NOT_FOUND: i64 = -32601;

/// JSON-RPC "Invalid params".
pub const INVALID_PARAMS: i64 = -32602;

/// The JSON-RPC error code of a refused call: an unknown tool is answered
/// as a method not found, missing or malformed parameters as invalid params.
pub fn refusal_code(r: CallRefusal) -> (c: i64)
    ensures
        c == (match r {
            CallRefusal::UnknownTool => METHOD_NOT_FOUND,
            _ => INVALID_PARAMS,
        }),
{
    match r {
        CallRefusal::UnknownTool => METHOD_NOT_FOUND,
        CallRefusal::MissingParams => INVALID_PARAMS,
        CallRefusal::InvalidParams => INVALID_PARAMS,
    }
}

/// The message of a call that has no parameters.
pub fn missing_params_message() -> (r: &'static str)
    ensures
        r@ == "Missing tool call parameters"@,
{
    "Missing tool call parameters"
}

/// The tool name and arguments a call runs under after the deprecated-name
/// rewrite.
pub open spec fn effective_s(name: Seq<char>, args: Option<JsonV>) -> (Seq<char>, Option<JsonV>) {
    match rewrite_s(name, args) {
        Some((n, a)) => (n, a),
        None => (name, args),
    }
}

/// Where a call of `name` with `args` goes.
pub fn dispatch_target(name: &str, args: Option<Json>) -> (r: Dispatch)
    ensures
        match tool_id_s(effective_s(name@, opt_view(args)).0) {
            Some(t) => r matches Dispatch::Run { tool, args: a } && tool == t && opt_view(a)
                == effective_s(name@, opt_view(args)).1,
            None => r matches Dispatch::Unknown { message } && message@ == "Unknown tool: "@
                + effective_s(name@, opt_view(args)).0,
        },
{
    let ghost original = opt_view(args);
    let rewritten = rewrite_deprecated(name, args_copy(&args));
    let (effective, eff_args): (&str, Option<Json>) = match rewritten {
        Some((n, a)) => (n, a),
        None => (name, args),
    };
    match tool_id(effective) {
        Some(t) => Dispatch::Run { tool: t, args: eff_args },
        None => {
            let mut m: Vec<char> = chars_of("Unknown tool: ");
            push_str(&mut m, effective);
            Dispatch::Unknown { message: string_of(m.as_slice()) }
        },
    }
}

/// The `arguments` of a call frame: absent or `null` means none.
pub open spec fn call_args_s(params: JsonV) -> Option<JsonV> {
    match get_field(params, "arguments"@) {
        Some(JsonV::Null) => None,
        Some(a) => Some(a),
        None => None,
    }
}

/// How a `tools/call` frame is answered before its handler runs.
pub enum CallRoute {
    /// The handler to run, with its (rewritten) arguments.
    Run { tool: ToolId, args: Option<Json> },
    /// The JSON-RPC error the frame is refused with.
    Refuse { code: i64, message: String },
}

/// Routes a `tools/call` frame. `parse_error` is what reading `params` as a
/// tool call reported, if it failed. Missing parameters and a frame that
/// does not read are refused as invalid params; otherwise the (rewritten)
/// tool name picks the handler, and a name no handler answers to is refused
/// as a method not found, with a message naming the tool.
pub fn route_call(params: Option<&Json>, parse_error: Option<&str>) -> (r: CallRoute)
    ensures
        match params {
            None => r matches CallRoute::Refuse { code, message } && code == INVALID_PARAMS
                && message@ == "Missing tool call parameters"@,
            Some(p) => match parse_error {
                Some(e) => r matches CallRoute::Refuse { code, message } && code == INVALID_PARAMS
                    && message@ == e@,
                None => match str_of(get_field(p@, "name"@)) {
                    None => r matches CallRoute::Refuse { code, message } && code == INVALID_PARAMS
                        && message@ == "missing field `name`"@,
                    Some(name) => match tool_id_s(effective_s(name, call_args_s(p@)).0) {
                        Some(t) => r matches CallRoute::Run { tool, args } && tool == t && opt_view(args)
                            == effective_s(name, call_args_s(p@)).1,
                        None => r matches CallRoute::Refuse { code, message } && code
                            == METHOD_NOT_FOUND && message@ == "Unknown tool: "@ + effective_s(
                            name,
                            call_args_s(p@),
                        ).0,
                    },
                },
            },
        },
{
    let p = match params {
        None => {
            return CallRoute::Refuse {
                code: refusal_code(CallRefusal::MissingParams),
                message: owned(missing_params_message()),
            };
        },
        Some(p) => p,
    };
    match parse_error {
        Some(e) => {
            return CallRoute::Refuse { code: refusal_code(CallRefusal::InvalidParams), message: owned(e) };
        },
        None => {},
    }
    let name = match p.get("name") {
        Some(v) => match v.as_str() {
            Some(n) => n,
            None => {
                return CallRoute::Refuse {
                    code: refusal_code(CallRefusal::InvalidParams),
                    message: owned("missing field `name`"),
                };
            },
        },
        None => {
            return CallRoute::Refuse {
                code: refusal_code(CallRefusal::InvalidParams),
                message: owned("missing field `name`"),
            };
        },
    };
    let args: Option<Json> = match p.get("arguments") {
        Some(a) => match a {
            Json::Null => None,
            _ => Some(a.deep_clone()),
        },
        None => None,
    };
    proof {
        assert(opt_view(args) == call_args_s(p@));
    }
    match dispatch_target(name, args) {
        Dispatch::Run { tool, args } => CallRoute::Run { tool, args },
        Dispatch::Unknown { message } => CallRoute::Refuse {
            code: refusal_code(CallRefusal::UnknownTool),
            message,
        },
    }
}

fn args_copy(a: &Option<Json>) -> (r: Option<Json>)
    ensures
        opt_view(r) == opt_view(*a),
{
    match a {
        Some(j) => Some(j.deep_clone()),
        None => None,
    }
}

/// Every tool the catalog advertises has a handler.
pub proof fn law_every_advertised_tool_is_dispatched()
    ensures
        forall|i: int| 0 <= i < catalog_names().len() ==> (#[trigger] tool_id_s(catalog_names()[i])) is Some,
{
}

/// Every deprecated alias reaches a handler.
pub proof fn law_every_alias_is_dispatched(name: Seq<char>, args: Option<JsonV>)
    ensures
        rewrite_s(name, args) is Some ==> tool_id_s(effective_s(name, args).0) is Some,
{
}

/// The framing of a tool outcome for the client: `payload` is what the text
/// block carries (serialized compactly by the transport), `structured` the
/// structured content, `is_error` whether the tool failed.
pub struct CallOutcome {
    pub payload: Json,
    pub structured: Option<Json>,
    pub is_error: bool,
}

/// The payload of a failed call: `{"error": message}`.
pub open spec fn error_payload_s(e: Seq<char>) -> JsonV {
    JsonV::Object(seq![("error"@, JsonV::Str(e))])
}

/// Frames a tool outcome. A success carries the result, and as structured
/// content too when it is an object; a failure is a tool result with
/// `isError`, carrying `{"error": message}` in both places, not a protocol
/// error.
pub fn call_outcome(result: Result<Json, String>) -> (r: CallOutcome)
    ensures
        match result {
            Ok(c) => r.payload@ == c@ && !r.is_error && opt_view(r.structured) == (if c@ is Object {
                Some(c@)
            } else {
                None
            }),
            Err(e) => r.payload@ == error_payload_s(e@) && r.is_error && opt_view(r.structured)
                == Some(error_payload_s(e@)),
        },
{
    match result {
        Ok(content) => {
            let structured = if content.is_object() {
                Some(content.deep_clone())
            } else {
                None
            };
            CallOutcome { payload: content, structured, is_error: false }
        },
        Err(e) => {
            let mut entries = new_entries();
            push_entry(&mut entries, "error", Json::Str(e));
            proof {
                assert(entries_model(entries@) =~= seq![("error"@, JsonV::Str(e@))]);
            }
            let payload = object(entries);
            let copy = payload.deep_clone();
            CallOutcome { payload, structured: Some(copy), is_error: true }
        },
    }
}

/// Whether a call triggers an inline consolidation: the scheduler decides
/// when it can be asked; otherwise every hundredth call does.
pub fn should_consolidate(scheduler: Option<bool>, call_count: u64) -> (r: bool)
    ensures
        r == match scheduler {
            Some(b) => b,
            None => call_count % 100 == 0,
        },
{
    match scheduler {
        Some(b) => b,
        None => call_count % 100 == 0,
    }
}

/// A millisecond count saturated to `u64`.
pub open spec fn saturated_ms_s(ms: int) -> int {
    if ms <= u64::MAX {
        ms
    } else {
        u64::MAX as int
    }
}

/// Saturating never wraps and keeps order: a later (larger) elapsed time is
/// never recorded as a smaller duration, so two readings of one timer never
/// decrease.
pub proof fn law_saturated_durations_keep_order(a: int, b: int)
    requires
        0 <= a <= b,
    ensures
        saturated_ms_s(a) <= saturated_ms_s(b),
        saturated_ms_s(b) <= u64::MAX,
        saturated_ms_s(a) == a || saturated_ms_s(a) == u64::MAX,
{
}

/// A duration in milliseconds as the trace records it: saturated to `u64`.
pub fn saturating_ms(ms: u128) -> (r: u64)
    ensures
        r == (if ms <= u64::MAX { ms as u64 } else { u64::MAX }),
        r == saturated_ms_s(ms as int),
{
    if ms <= 18446744073709551615u128 {
        ms as u64
    } else {
        18446744073709551615u64
    }
}

/// The event announced before a handler runs, if any.
pub enum StartEvent {
    ConsolidationStarted,
    DreamStarted,
}

/// `consolidate` and `dream` are announced before they run.
pub fn start_event(tool: ToolId) -> (r: Option<StartEvent>)
    ensures
        tool == ToolId::Consolidate ==> r matches Some(StartEvent::ConsolidationStarted),
        tool == ToolId::Dream ==> r matches Some(StartEvent::DreamStarted),
        tool != ToolId::Consolidate && tool != ToolId::Dream ==> r is None,
{
    match tool {
        ToolId::Consolidate => Some(StartEvent::ConsolidationStarted),
        ToolId::Dream => Some(StartEvent::DreamStarted),
        _ => None,
    }
}

} // verus!
