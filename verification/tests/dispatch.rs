use vestige_mcp::dispatch::{
    call_outcome, dispatch_target, saturating_ms, should_consolidate, tool_id, Dispatch, ToolId,
};
use vestige_mcp::json::Json;

#[test]
fn current_names_and_aliases_route() {
    assert_eq!(tool_id("search"), Some(ToolId::Search));
    assert_eq!(tool_id("cross_reference"), Some(ToolId::DeepReference));
    assert_eq!(tool_id("deep_reference"), Some(ToolId::DeepReference));
    assert_eq!(tool_id("precompute_for_context"), Some(ToolId::PrecomputeForContext));
    assert_eq!(tool_id("recall"), None);
    match dispatch_target("recall", None) {
        Dispatch::Run { tool, args } => {
            assert_eq!(tool, ToolId::Search);
            assert!(args.is_none());
        }
        _ => panic!("recall must be rewritten to search"),
    }
    match dispatch_target("promote_memory", Some(Json::Object(vec![]))) {
        Dispatch::Run { tool, args } => {
            assert_eq!(tool, ToolId::Memory);
            assert_eq!(args.unwrap().get("action").unwrap().as_str(), Some("promote"));
        }
        _ => panic!("promote_memory must be rewritten to memory"),
    }
}

#[test]
fn unknown_tool_is_named_in_the_refusal() {
    match dispatch_target("no_such_tool", None) {
        Dispatch::Unknown { message } => assert_eq!(message, "Unknown tool: no_such_tool"),
        _ => panic!("an unknown tool must be refused"),
    }
}

#[test]
fn outcomes_are_framed_for_the_client() {
    let ok = call_outcome(Ok(Json::Object(vec![("a".to_string(), Json::Int(1))])));
    assert!(!ok.is_error);
    assert!(ok.structured.is_some());
    let text = call_outcome(Ok(Json::from_str("plain")));
    assert!(text.structured.is_none());
    let err = call_outcome(Err("boom".to_string()));
    assert!(err.is_error);
    assert_eq!(err.payload.get("error").unwrap().as_str(), Some("boom"));
    assert_eq!(err.structured.unwrap().get("error").unwrap().as_str(), Some("boom"));
}

#[test]
fn consolidation_trigger_and_timer() {
    assert!(should_consolidate(Some(true), 3));
    assert!(!should_consolidate(Some(false), 100));
    assert!(should_consolidate(None, 200));
    assert!(!should_consolidate(None, 201));
    assert_eq!(saturating_ms(5), 5);
    assert_eq!(saturating_ms(u128::MAX), u64::MAX);
}
