use vestige_mcp::json::Json;
use vestige_mcp::maintenance::{
    compound_entry, default_export_name, export_file_name, export_format, export_reply, gc_dry_run_message,
    gc_gate, gc_preview, has_all_tags, health_status, invalid_date_message, is_gc_candidate,
    long_enough, remaining_after_gc, short_id, split_gate, split_instruction, split_limit,
    split_min_length, split_preview, split_reply, status_recommendations, status_warnings,
    regenerate_message, regenerate_reply, select_compounds, tally_deletion, NodeFacts, SplitArgs,
    StatusFacts,
};

fn obj(entries: Vec<(&str, Json)>) -> Json {
    Json::Object(entries.into_iter().map(|(k, v)| (k.to_string(), v)).collect())
}

#[test]
fn gc_dry_run_does_not_require_confirmation() {
    assert_eq!(gc_gate(Some(true), &obj(vec![])).ok(), Some(true));
    assert_eq!(gc_gate(None, &obj(vec![])).ok(), Some(true));
}

#[test]
fn gc_destructive_call_without_confirmation_is_blocked() {
    let err = gc_gate(Some(false), &obj(vec![("dry_run", Json::Bool(false))])).err().unwrap();
    assert!(err.contains("`gc`"), "error must name the operation: `{err}`");
    assert!(err.contains("confirmed: true"), "error must show the required flag: `{err}`");
    assert!(err.contains("requestedSchema"), "error must include the elicitation schema: `{err}`");
}

#[test]
fn gc_destructive_call_with_confirmation_proceeds() {
    let raw = obj(vec![("dry_run", Json::Bool(false)), ("confirmed", Json::Bool(true))]);
    assert_eq!(gc_gate(Some(false), &raw).ok(), Some(false));
}

#[test]
fn gc_rejects_string_confirmed_to_avoid_hallucinated_flags() {
    let raw = obj(vec![("dry_run", Json::Bool(false)), ("confirmed", Json::from_str("true"))]);
    let err = gc_gate(Some(false), &raw).err().unwrap();
    assert!(err.contains("`gc`"));
}

#[test]
fn split_memories_gate() {
    assert_eq!(split_gate(None, &obj(vec![])).ok(), Some(true));
    let err = split_gate(Some(false), &obj(vec![])).err().unwrap();
    assert!(err.contains("`split_memories`"));
    let ok = split_gate(Some(false), &obj(vec![("acknowledgeDestruction", Json::Bool(true))]));
    assert_eq!(ok.ok(), Some(false));
}

#[test]
fn gc_candidates_and_samples() {
    assert!(is_gc_candidate(true, 5, None));
    assert!(!is_gc_candidate(false, 500, None));
    assert!(is_gc_candidate(true, 30, Some(30)));
    assert!(!is_gc_candidate(true, 29, Some(30)));
    assert!(!is_gc_candidate(true, -1, Some(0)));
    assert_eq!(gc_preview(&"a".repeat(61)), format!("{}...", "a".repeat(60)));
    assert_eq!(gc_preview("short"), "short");
    assert_eq!(short_id("67e55044-10b1-426f-9247-bb680e5fe0c8"), "67e55044");
    assert_eq!(short_id("abc"), "abc");
    assert_eq!(gc_dry_run_message(3), "3 memories would be deleted. Set dry_run=false to delete.");
    assert_eq!(remaining_after_gc(10, 4), 6);
    let (mut d, mut e) = (0u64, 0u64);
    tally_deletion(Some(true), &mut d, &mut e);
    tally_deletion(Some(false), &mut d, &mut e);
    tally_deletion(None, &mut d, &mut e);
    assert_eq!((d, e), (1, 2));
}

#[test]
fn split_memories_pieces() {
    let args = SplitArgs { min_length: None, limit: None, dry_run: None };
    assert_eq!(split_min_length(&args), 300);
    assert_eq!(split_limit(&args), 20);
    assert!(long_enough(&"x".repeat(300), 300));
    assert!(!long_enough(&"x".repeat(299), 300));
    assert!(long_enough("", 0));
    let long = "é".repeat(260);
    assert_eq!(split_preview(&long), format!("{}...", "é".repeat(250)));
    assert_eq!(split_preview("short"), "short");
    assert_eq!(split_instruction(0, true, 0), "All memories are atomic. No splitting needed.");
    assert!(split_instruction(2, true, 0).starts_with("Found 2 compound memories."));
    assert!(split_instruction(2, false, 2).starts_with("Deleted 2 compound memories."));
    let entry = compound_entry("id", "content", "fact", "t0", "multi-item list");
    assert_eq!(entry.get("content_length").unwrap().as_u64(), Some(7));
    let r = split_reply(10, vec![entry], true, &vec![]);
    assert_eq!(r.get("compound_found").unwrap().as_u64(), Some(1));
    assert_eq!(r.get("deleted").unwrap().as_u64(), Some(0));
}

#[test]
fn export_pieces() {
    assert_eq!(export_format(None).ok().unwrap(), "json");
    assert_eq!(export_format(Some("jsonl")).ok().unwrap(), "jsonl");
    assert_eq!(export_format(Some("csv")).err().unwrap(), "Invalid format 'csv'. Must be 'json' or 'jsonl'.");
    assert_eq!(export_file_name(None).ok().unwrap(), None);
    assert_eq!(export_file_name(Some("out.json")).ok().unwrap().unwrap(), "out.json");
    assert_eq!(export_file_name(Some("../../etc/out.json")).ok().unwrap().unwrap(), "out.json");
    assert_eq!(
        export_file_name(Some("..")).err().unwrap(),
        "Invalid export filename: must be a simple filename, not a path"
    );
    assert_eq!(
        export_file_name(Some("a..b")).err().unwrap(),
        "Invalid export filename: '..' not allowed"
    );
    assert_eq!(default_export_name("20240101-000000", "jsonl"), "memories-20240101-000000.jsonl");
    assert_eq!(
        invalid_date_message("2024-13-01", "input is out of range"),
        "Invalid date '2024-13-01': input is out of range. Use YYYY-MM-DD."
    );
    let tags = vec!["a".to_string(), "b".to_string()];
    assert!(has_all_tags(&tags, &vec!["b".to_string()]));
    assert!(has_all_tags(&tags, &vec![]));
    assert!(!has_all_tags(&tags, &vec!["c".to_string()]));
    let r = export_reply("/x/y.json", "json", 2, 5, 100);
    assert_eq!(r.get("memoriesExported").unwrap().as_u64(), Some(2));
}

#[test]
fn status_decisions() {
    let empty = StatusFacts {
        total_nodes: 0,
        nodes_with_embeddings: 0,
        nodes_due_for_review: 0,
        retention_below_0_3: false,
        retention_below_0_5: false,
        retention_below_0_7: false,
        coverage_below_half: true,
    };
    assert_eq!(health_status(&empty), "empty");
    assert!(status_warnings(&empty).is_empty());
    assert!(status_recommendations(&empty).is_empty());
    let healthy = StatusFacts { total_nodes: 5, nodes_with_embeddings: 5, coverage_below_half: false, ..empty };
    assert_eq!(health_status(&healthy), "healthy");
    assert_eq!(status_recommendations(&healthy), vec!["Memory system is healthy!"]);
    let critical = StatusFacts {
        total_nodes: 200,
        nodes_with_embeddings: 0,
        nodes_due_for_review: 11,
        retention_below_0_3: true,
        retention_below_0_5: true,
        retention_below_0_7: true,
        coverage_below_half: true,
    };
    assert_eq!(health_status(&critical), "critical");
    assert_eq!(status_warnings(&critical).len(), 4);
    assert_eq!(status_recommendations(&critical).len(), 4);
}

fn node(id: &str, content: &str) -> NodeFacts {
    NodeFacts {
        id: id.to_string(),
        content: content.to_string(),
        node_type: "fact".to_string(),
        created_at: "2024-01-01T00:00:00+00:00".to_string(),
    }
}

fn bullets() -> String {
    "Session summary with many items from today's productive work session:\n\
     - Fixed the authentication bug in login flow where the tokens expired too quickly\n\
     - Decided to migrate from MySQL to PostgreSQL for better performance and JSON support\n\
     - John prefers dark mode in all editors and wants dashboard themes to be configurable\n\
     - Deployment deadline moved to next Friday because of the infrastructure migration delay\n\
     - Added rate limiting to the API gateway to prevent abuse from unauthenticated external clients"
        .to_string()
}

#[test]
fn split_selection_keeps_order_and_stops_at_the_limit() {
    let atomic = "x".repeat(400);
    let nodes = vec![
        node("short", "tiny"),
        node("a", &bullets()),
        node("atomic", &atomic),
        node("b", &bullets()),
        node("c", &bullets()),
    ];
    let all = select_compounds(&nodes, 300, 20);
    let ids: Vec<_> = all.iter().map(|e| e.get("id").unwrap().as_str().unwrap().to_string()).collect();
    assert_eq!(ids, vec!["a", "b", "c"]);
    assert_eq!(all[0].get("reason").unwrap().as_str(), Some("multi-item list"));
    assert_eq!(all[0].get("node_type").unwrap().as_str(), Some("fact"));

    let two = select_compounds(&nodes, 300, 2);
    assert_eq!(two.len(), 2);
    assert_eq!(two[1].get("id").unwrap().as_str(), Some("b"));

    // A limit of 0 still reports the first compound memory found.
    let zero = select_compounds(&nodes, 300, 0);
    assert_eq!(zero.len(), 1);
    assert_eq!(zero[0].get("id").unwrap().as_str(), Some("a"));

    // A minimum length above every memory leaves nothing to report.
    assert!(select_compounds(&nodes, 10_000, 20).is_empty());
    assert!(select_compounds(&vec![], 300, 20).is_empty());
}

#[test]
fn regenerate_report_counts_and_message() {
    assert_eq!(
        regenerate_message(12, 3, 1, 250),
        "Regenerated 12 embeddings (3 skipped, 1 failed) in 250ms"
    );
    let r = regenerate_reply(true, 12, 1, 3, &vec!["bad row".to_string()], 250);
    assert_eq!(r.get("tool").unwrap().as_str(), Some("regenerate_embeddings"));
    assert_eq!(r.get("force").unwrap().as_bool(), Some(true));
    assert_eq!(r.get("successful").unwrap().as_u64(), Some(12));
    assert_eq!(r.get("failed").unwrap().as_u64(), Some(1));
    assert_eq!(r.get("skipped").unwrap().as_u64(), Some(3));
    assert_eq!(r.get("durationMs").unwrap().as_u64(), Some(250));
    assert_eq!(
        r.get("message").unwrap().as_str(),
        Some("Regenerated 12 embeddings (3 skipped, 1 failed) in 250ms")
    );
}
