use vestige_mcp::events::{preview_of, tool_events, Num, ToolEvent};
use vestige_mcp::json::Json;

fn obj(entries: Vec<(&str, Json)>) -> Json {
    Json::Object(entries.into_iter().map(|(k, v)| (k.to_string(), v)).collect())
}

#[test]
fn single_ingest_create_and_update() {
    let created = obj(vec![
        ("decision", Json::from_str("create")),
        ("nodeId", Json::from_str("n1")),
        ("contentPreview", Json::from_str("hello")),
        ("tags", Json::Array(vec![Json::from_str("a"), Json::Int(3), Json::from_str("b")])),
    ]);
    let ev = tool_events("smart_ingest", None, &created);
    assert_eq!(ev.len(), 1);
    match &ev[0] {
        ToolEvent::MemoryCreated { id, content_preview, node_type, tags } => {
            assert_eq!(id, "n1");
            assert_eq!(content_preview, "hello");
            assert_eq!(node_type, "fact");
            assert_eq!(tags, &vec!["a".to_string(), "b".to_string()]);
        }
        _ => panic!("expected MemoryCreated"),
    }
    let updated = obj(vec![("decision", Json::from_str("supersede")), ("id", Json::from_str("n2"))]);
    match &tool_events("ingest", None, &updated)[0] {
        ToolEvent::MemoryUpdated { id, field, .. } => {
            assert_eq!(id, "n2");
            assert_eq!(field, "supersede");
        }
        _ => panic!("expected MemoryUpdated"),
    }
    let other = obj(vec![("decision", Json::from_str("skip"))]);
    assert!(tool_events("smart_ingest", None, &other).is_empty());
}

#[test]
fn batch_ingest_emits_one_event_per_decided_item() {
    let result = obj(vec![(
        "results",
        Json::Array(vec![
            obj(vec![("decision", Json::from_str("create")), ("nodeId", Json::from_str("a"))]),
            obj(vec![("decision", Json::from_str(""))]),
            obj(vec![("decision", Json::from_str("merge")), ("id", Json::from_str("b"))]),
        ]),
    )]);
    let ev = tool_events("session_checkpoint", None, &result);
    assert_eq!(ev.len(), 2);
    assert!(matches!(&ev[0], ToolEvent::MemoryCreated { id, .. } if id == "a"));
    assert!(matches!(&ev[1], ToolEvent::MemoryUpdated { id, field, .. } if id == "b" && field == "merge"));
}

#[test]
fn memory_actions_and_legacy_names() {
    let args = obj(vec![("action", Json::from_str("delete")), ("id", Json::from_str("x"))]);
    let ev = tool_events("memory", Some(&args), &obj(vec![]));
    assert!(matches!(&ev[0], ToolEvent::MemoryDeleted { id } if id == "x"));
    let args = obj(vec![("id", Json::from_str("y"))]);
    let result = obj(vec![("retrievalStrength", Json::Int(1))]);
    let ev = tool_events("promote_memory", Some(&args), &result);
    assert!(matches!(&ev[0], ToolEvent::MemoryPromoted { id, new_retention: Some(Num::Int(1)) } if id == "y"));
    let ev = tool_events("get_memory_state", Some(&args), &result);
    assert!(ev.is_empty());
}

#[test]
fn search_dream_consolidate() {
    let args = obj(vec![("query", Json::from_str("q"))]);
    let result = obj(vec![
        ("results", Json::Array(vec![obj(vec![("id", Json::from_str("r1"))]), obj(vec![])])),
        ("durationMs", Json::Int(12)),
    ]);
    match &tool_events("recall", Some(&args), &result)[0] {
        ToolEvent::SearchPerformed { query, result_count, result_ids, duration_ms } => {
            assert_eq!(query, "q");
            assert_eq!(*result_count, 2);
            assert_eq!(result_ids, &vec!["r1".to_string()]);
            assert_eq!(*duration_ms, 12);
        }
        _ => panic!("expected SearchPerformed"),
    }
    let dream = obj(vec![
        ("memories_replayed", Json::Int(4)),
        ("insights", Json::Array(vec![Json::Null, Json::Null])),
    ]);
    assert!(matches!(
        tool_events("dream", None, &dream)[0],
        ToolEvent::DreamCompleted { memories_replayed: 4, connections_found: 0, insights_generated: 2, duration_ms: 0 }
    ));
    let c = obj(vec![("nodesProcessed", Json::Int(9)), ("decay_applied", Json::Int(-1))]);
    assert!(matches!(
        tool_events("consolidate", None, &c)[0],
        ToolEvent::ConsolidationCompleted { nodes_processed: 9, decay_applied: 0, .. }
    ));
    assert!(tool_events("gc", None, &c).is_empty());
}

#[test]
fn importance_preview_is_cut_at_100_bytes() {
    let long = "é".repeat(60);
    let p = preview_of(&long);
    assert_eq!(p, format!("{}...", "é".repeat(50)));
    assert_eq!(preview_of("short"), "short");
    let args = obj(vec![("content", Json::from_str("text"))]);
    let result = obj(vec![("breakdown", obj(vec![("novelty", Json::FloatBits(0.5f64.to_bits()))]))]);
    match &tool_events("importance_score", Some(&args), &result)[0] {
        ToolEvent::ImportanceScored { content_preview, composite_score, novelty, .. } => {
            assert_eq!(content_preview, "text");
            assert!(composite_score.is_none());
            assert!(matches!(novelty, Some(Num::FloatBits(b)) if f64::from_bits(*b) == 0.5));
        }
        _ => panic!("expected ImportanceScored"),
    }
}

#[test]
fn quiet_calls_emit_nothing() {
    let args = Json::Object(vec![("action".to_string(), Json::Str("get".to_string()))]);
    let result = Json::Object(vec![]);
    assert!(tool_events("memory", Some(&args), &result).is_empty());
    assert!(tool_events("memory_timeline", None, &result).is_empty());
    assert!(tool_events("erase", None, &result).is_empty());
    let del = Json::Object(vec![
        ("action".to_string(), Json::Str("delete".to_string())),
        ("id".to_string(), Json::Str("m1".to_string())),
    ]);
    assert_eq!(tool_events("memory", Some(&del), &result).len(), 1);
}
