use vestige_mcp::codebase::invalid_payload_message;
use vestige_mcp::cross_reference::{check_query, depth_and_overfetch};
use vestige_mcp::dispatch::{start_event, StartEvent, ToolId};
use vestige_mcp::intention::other_statuses;
use vestige_mcp::confidence::truncate;
use vestige_mcp::confirm::missing_confirmation_error;
use vestige_mcp::dispatch::{missing_params_message, refusal_code, route_call, saturating_ms, CallRefusal, CallRoute};
use vestige_mcp::json::Json;
use vestige_mcp::dream::{dream_guard, network_link, stored_link_type, DreamConnectionKind, NetworkLink};
use vestige_mcp::precompute::{no_sources_guard, SourceSnippet};

#[test]
fn deep_reference_refuses_a_blank_query() {
    assert_eq!(check_query("   \t"), Err("Query cannot be empty".to_string()));
    assert_eq!(check_query(""), Err("Query cannot be empty".to_string()));
    assert_eq!(check_query(" why? "), Ok(()));
}

#[test]
fn deep_reference_depth_is_clamped_and_overfetches_threefold() {
    assert_eq!(depth_and_overfetch(None), (20, 60));
    assert_eq!(depth_and_overfetch(Some(1)), (5, 15));
    assert_eq!(depth_and_overfetch(Some(40)), (40, 120));
    assert_eq!(depth_and_overfetch(Some(1000)), (50, 150));
    assert_eq!(depth_and_overfetch(Some(-3)), (5, 15));
}

#[test]
fn an_all_listing_reads_the_other_three_statuses() {
    assert_eq!(other_statuses(), ["fulfilled", "cancelled", "snoozed"]);
}

#[test]
fn an_invalid_matrix_names_its_reason() {
    assert_eq!(
        invalid_payload_message("scoreMatrix has 2 rows, expected 3"),
        "Invalid decision payload: scoreMatrix has 2 rows, expected 3"
    );
}

#[test]
fn consolidate_and_dream_are_announced_before_they_run() {
    assert!(matches!(start_event(ToolId::Consolidate), Some(StartEvent::ConsolidationStarted)));
    assert!(matches!(start_event(ToolId::Dream), Some(StartEvent::DreamStarted)));
    assert!(start_event(ToolId::Memory).is_none());
}

#[test]
fn a_dream_needs_five_memories() {
    let r = dream_guard(4).expect("refused");
    assert_eq!(r.get("status").unwrap().as_str(), Some("insufficient_memories"));
    assert_eq!(
        r.get("message").unwrap().as_str(),
        Some("Need at least 5 memories to dream. Current count: 4")
    );
    assert_eq!(r.get("count").unwrap().as_u64(), Some(4));
    assert!(dream_guard(0).is_some());
    assert!(dream_guard(5).is_none());
}

#[test]
fn dream_connections_map_to_link_types() {
    assert_eq!(stored_link_type(DreamConnectionKind::CrossDomain), "semantic");
    assert_eq!(stored_link_type(DreamConnectionKind::Causal), "causal");
    assert_eq!(stored_link_type(DreamConnectionKind::Complementary), "complementary");
    assert_eq!(stored_link_type(DreamConnectionKind::Contradictory), "contradiction");
    assert_eq!(network_link(DreamConnectionKind::Causal), NetworkLink::Causal);
    assert_eq!(network_link(DreamConnectionKind::Contradictory), NetworkLink::Semantic);
    assert_eq!(network_link(DreamConnectionKind::Complementary), NetworkLink::Semantic);
}

#[test]
fn tool_call_refusals_carry_their_json_rpc_codes() {
    assert_eq!(refusal_code(CallRefusal::UnknownTool), -32601);
    assert_eq!(refusal_code(CallRefusal::MissingParams), -32602);
    assert_eq!(refusal_code(CallRefusal::InvalidParams), -32602);
    assert_eq!(missing_params_message(), "Missing tool call parameters");
}

#[test]
fn precompute_with_no_sources_writes_nothing() {
    let r = no_sources_guard("rust async", &vec![]).expect("no sources");
    assert_eq!(r.get("status").unwrap().as_str(), Some("no_sources"));
    assert_eq!(r.get("topic_slug").unwrap().as_str(), Some("rust-async"));
    let one = vec![SourceSnippet { id: "a".to_string(), content: "x".to_string() }];
    assert!(no_sources_guard("rust async", &one).is_none());
}

#[test]
fn truncate_keeps_the_longest_prefix_on_a_character_boundary() {
    assert_eq!(truncate("héllo", 2), "h…");
    assert_eq!(truncate("héllo", 3), "hé…");
    assert_eq!(truncate("héllo", 6), "héllo");
    assert_eq!(truncate("abc", 0), "…");
}

#[test]
fn a_refusal_is_a_single_line() {
    let m = missing_confirmation_error("gc", "It deletes memories...");
    assert!(!m.contains('\n'));
    assert!(m.starts_with("Destructive operation `gc` requires explicit confirmation. It deletes memories Re-issue"));
}

fn frame(name: Json, args: Option<Json>) -> Json {
    let mut e = vec![("name".to_string(), name)];
    if let Some(a) = args {
        e.push(("arguments".to_string(), a));
    }
    Json::Object(e)
}

#[test]
fn tool_call_frames_are_routed_or_refused_with_their_codes() {
    match route_call(None, None) {
        CallRoute::Refuse { code, message } => {
            assert_eq!(code, -32602);
            assert_eq!(message, "Missing tool call parameters");
        }
        _ => panic!("expected a refusal"),
    }
    let bad = frame(Json::Int(3), None);
    match route_call(Some(&bad), Some("invalid type: integer `3`, expected a string")) {
        CallRoute::Refuse { code, message } => {
            assert_eq!(code, -32602);
            assert_eq!(message, "invalid type: integer `3`, expected a string");
        }
        _ => panic!("expected a refusal"),
    }
    let unknown = frame(Json::Str("nonexistent_tool".to_string()), Some(Json::Object(vec![])));
    match route_call(Some(&unknown), None) {
        CallRoute::Refuse { code, message } => {
            assert_eq!(code, -32601);
            assert_eq!(message, "Unknown tool: nonexistent_tool");
        }
        _ => panic!("expected a refusal"),
    }
    let ok = frame(Json::Str("precompute_for_context".to_string()), Some(Json::Null));
    match route_call(Some(&ok), None) {
        CallRoute::Run { args, .. } => assert!(args.is_none()),
        _ => panic!("expected a handler"),
    }
}

#[test]
fn recorded_durations_saturate_and_keep_order() {
    assert_eq!(saturating_ms(5), 5);
    assert_eq!(saturating_ms(u128::MAX), u64::MAX);
    assert!(saturating_ms(10) <= saturating_ms(11));
}
