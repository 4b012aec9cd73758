use vestige_mcp::json::Json;
use vestige_mcp::precompute::{MAX_TOP_K, MAX_TTL_HOURS, MIN_TOP_K, MIN_TTL_HOURS};

fn path<'a>(j: &'a Json, keys: &[&str]) -> &'a Json {
    let mut cur = j;
    for k in keys {
        cur = cur.get(k).unwrap_or_else(|| panic!("missing {k}"));
    }
    cur
}

fn has(j: &Json, keys: &[&str]) -> bool {
    let mut cur = j;
    for k in keys {
        match cur.get(k) {
            Some(v) => cur = v,
            None => return false,
        }
    }
    true
}

fn strs(j: &Json) -> Vec<String> {
    j.as_array().unwrap().iter().map(|v| v.as_str().unwrap().to_string()).collect()
}

#[test]
fn changelog_test_schema_has_properties() {
    let s = vestige_mcp::changelog::schema();
    assert_eq!(s.get("type").unwrap().as_str(), Some("object"));
    for p in ["memory_id", "start", "end", "limit"] {
        assert!(path(&s, &["properties", p]).is_object());
    }
    assert_eq!(path(&s, &["properties", "limit", "default"]).as_i64(), Some(20));
    assert_eq!(path(&s, &["properties", "limit", "minimum"]).as_i64(), Some(1));
    assert_eq!(path(&s, &["properties", "limit", "maximum"]).as_i64(), Some(100));
}

#[test]
fn codebase_unified_test_schema_structure() {
    let schema = vestige_mcp::codebase::schema();
    assert!(path(&schema, &["properties", "action"]).is_object());
    assert_eq!(strs(schema.get("required").unwrap()), vec!["action"]);
    let actions = strs(path(&schema, &["properties", "action", "enum"]));
    for a in ["remember_pattern", "remember_decision", "get_context", "remember_decision_v2"] {
        assert!(actions.iter().any(|x| x == a));
    }
}

#[test]
fn cross_reference_test_schema_has_required_fields() {
    let s = vestige_mcp::cross_reference::schema();
    assert_eq!(s.get("type").unwrap().as_str(), Some("object"));
    assert!(path(&s, &["properties", "query"]).is_object());
    assert!(path(&s, &["properties", "depth"]).is_object());
    assert_eq!(strs(s.get("required").unwrap()), vec!["query"]);
}

#[test]
fn dream_test_schema_has_properties() {
    let s = vestige_mcp::dream::schema();
    assert_eq!(s.get("type").unwrap().as_str(), Some("object"));
    assert!(path(&s, &["properties", "memory_count"]).is_object());
    assert_eq!(path(&s, &["properties", "memory_count", "default"]).as_i64(), Some(50));
}

#[test]
fn explore_test_schema_has_required_fields() {
    let s = vestige_mcp::explore::schema();
    assert_eq!(s.get("type").unwrap().as_str(), Some("object"));
    for p in ["action", "from", "to", "limit"] {
        assert!(path(&s, &["properties", p]).is_object());
    }
    let required = strs(s.get("required").unwrap());
    assert!(required.iter().any(|r| r == "action"));
    assert!(required.iter().any(|r| r == "from"));
}

#[test]
fn test_schema_action_enum() {
    let s = vestige_mcp::explore::schema();
    let actions = strs(path(&s, &["properties", "action", "enum"]));
    for a in ["chain", "associations", "bridges", "causal_chain"] {
        assert!(actions.iter().any(|x| x == a), "{a} must be in the action enum");
    }
}

#[test]
fn test_schema_is_valid() {
    let s = vestige_mcp::health::schema();
    assert_eq!(s.get("type").unwrap().as_str(), Some("object"));
}

#[test]
fn test_schema_has_required_action() {
    let s = vestige_mcp::intention::schema();
    assert_eq!(s.get("type").unwrap().as_str(), Some("object"));
    assert!(path(&s, &["properties", "action"]).is_object());
    assert!(strs(s.get("required").unwrap()).iter().any(|r| r == "action"));
}

#[test]
fn test_schema_has_action_enum() {
    let s = vestige_mcp::intention::schema();
    let actions = strs(path(&s, &["properties", "action", "enum"]));
    for a in ["set", "check", "update", "list"] {
        assert!(actions.iter().any(|x| x == a));
    }
}

#[test]
fn test_schema_has_set_parameters() {
    let s = vestige_mcp::intention::schema();
    for p in ["description", "trigger", "priority", "deadline"] {
        assert!(path(&s, &["properties", p]).is_object());
    }
}

#[test]
fn test_schema_has_update_parameters() {
    let s = vestige_mcp::intention::schema();
    for p in ["id", "status", "snooze_minutes"] {
        assert!(path(&s, &["properties", p]).is_object());
    }
}

#[test]
fn test_schema_has_check_parameters() {
    let s = vestige_mcp::intention::schema();
    for p in ["context", "include_snoozed"] {
        assert!(path(&s, &["properties", p]).is_object());
    }
}

#[test]
fn test_schema_has_list_parameters() {
    let s = vestige_mcp::intention::schema();
    for p in ["filter_status", "limit"] {
        assert!(path(&s, &["properties", p]).is_object());
    }
}

#[test]
fn maintenance_test_system_status_schema() {
    let schema = vestige_mcp::maintenance::system_status_schema();
    assert_eq!(schema.get("type").unwrap().as_str(), Some("object"));
}

#[test]
fn tests_test_system_status_schema() {
    let schema = vestige_mcp::maintenance::system_status_schema();
    assert_eq!(schema.get("type").unwrap().as_str(), Some("object"));
}

#[test]
fn test_gc_schema_exposes_confirmed_flag() {
    let schema = vestige_mcp::maintenance::gc_schema();
    assert!(has(&schema, &["properties", "confirmed"]), "gc schema must advertise `confirmed`");
    assert_eq!(path(&schema, &["properties", "confirmed", "type"]).as_str(), Some("boolean"));
    assert_eq!(path(&schema, &["properties", "confirmed", "default"]).as_bool(), Some(false));
}

#[test]
fn test_split_memories_schema_exposes_confirmed_flag() {
    let schema = vestige_mcp::maintenance::split_memories_schema();
    assert!(has(&schema, &["properties", "confirmed"]));
    assert_eq!(path(&schema, &["properties", "confirmed", "type"]).as_str(), Some("boolean"));
    assert_eq!(path(&schema, &["properties", "confirmed", "default"]).as_bool(), Some(false));
}

#[test]
fn review_action_and_rating_bounds_are_declared() {
    let schema = vestige_mcp::memory::schema();
    let actions = strs(path(&schema, &["properties", "action", "enum"]));
    assert!(actions.iter().any(|a| a == "review"), "review must be advertised: {actions:?}");
    assert_eq!(path(&schema, &["properties", "rating", "type"]).as_str(), Some("integer"));
    assert_eq!(path(&schema, &["properties", "rating", "minimum"]).as_i64(), Some(1));
    assert_eq!(path(&schema, &["properties", "rating", "maximum"]).as_i64(), Some(4));
}

#[test]
fn get_batch_ids_are_capped_in_the_schema_not_only_at_runtime() {
    let schema = vestige_mcp::memory::schema();
    assert_eq!(path(&schema, &["properties", "ids", "maxItems"]).as_i64(), Some(20));
}

#[test]
fn per_action_requirements_are_declared() {
    let schema = vestige_mcp::memory::schema();
    let all_of = schema.get("allOf").unwrap().as_array().expect("allOf declared");
    assert_eq!(all_of.len(), 2);
    assert_eq!(path(&all_of[0], &["if", "properties", "action", "const"]).as_str(), Some("get_batch"));
    assert_eq!(strs(path(&all_of[0], &["then", "required"])), vec!["ids"]);
    assert_eq!(strs(path(&all_of[0], &["else", "required"])), vec!["id"]);
    assert_eq!(path(&all_of[1], &["if", "properties", "action", "const"]).as_str(), Some("edit"));
    assert_eq!(strs(path(&all_of[1], &["then", "required"])), vec!["content"]);
}

#[test]
fn delete_declares_confirmed_without_requiring_it() {
    let schema = vestige_mcp::memory::schema();
    assert_eq!(path(&schema, &["properties", "confirmed", "type"]).as_str(), Some("boolean"));
    let all_of = schema.get("allOf").unwrap().as_array().unwrap();
    assert!(!all_of.iter().any(|clause| clause
        .get("then")
        .and_then(|t| t.get("required"))
        .and_then(|r| r.as_array())
        .is_some_and(|req| req.iter().any(|v| v.as_str() == Some("confirmed")))));
}

#[test]
fn advertised_actions_cover_the_schema_enum() {
    let schema = vestige_mcp::memory::schema();
    for action in strs(path(&schema, &["properties", "action", "enum"])) {
        assert!(
            vestige_mcp::memory::ACTIONS.contains(action.as_str()),
            "schema advertises '{action}' but the dispatcher error omits it"
        );
    }
}

#[test]
fn schema_requires_topic_only() {
    let s = vestige_mcp::precompute::schema();
    assert_eq!(s.get("type").unwrap().as_str(), Some("object"));
    assert_eq!(strs(s.get("required").unwrap()), vec!["topic"]);
    assert!(path(&s, &["properties", "top_k"]).is_object());
    assert!(path(&s, &["properties", "ttl_hours"]).is_object());
}

#[test]
fn schema_documents_clamps() {
    let s = vestige_mcp::precompute::schema();
    assert_eq!(path(&s, &["properties", "top_k", "minimum"]).as_i64(), Some(MIN_TOP_K));
    assert_eq!(path(&s, &["properties", "top_k", "maximum"]).as_i64(), Some(MAX_TOP_K));
    assert_eq!(path(&s, &["properties", "ttl_hours", "minimum"]).as_i64(), Some(MIN_TTL_HOURS));
    assert_eq!(path(&s, &["properties", "ttl_hours", "maximum"]).as_i64(), Some(MAX_TTL_HOURS));
}
