use vestige_mcp::deprecated::rewrite_deprecated;
use vestige_mcp::json::Json;

fn obj(entries: Vec<(&str, Json)>) -> Json {
    Json::Object(entries.into_iter().map(|(k, v)| (k.to_string(), v)).collect())
}

fn s(v: &str) -> Json {
    Json::from_str(v)
}

/// JSON equality as serde_json has it: objects compare as maps.
fn same(a: &Json, b: &Json) -> bool {
    match (a, b) {
        (Json::Null, Json::Null) => true,
        (Json::Bool(x), Json::Bool(y)) => x == y,
        (Json::Int(x), Json::Int(y)) => x == y,
        (Json::UInt(x), Json::UInt(y)) => x == y,
        (Json::FloatBits(x), Json::FloatBits(y)) => x == y,
        (Json::Str(x), Json::Str(y)) => x == y,
        (Json::Array(x), Json::Array(y)) => {
            x.len() == y.len() && x.iter().zip(y.iter()).all(|(p, q)| same(p, q))
        }
        (Json::Object(x), Json::Object(y)) => {
            x.len() == y.len()
                && x.iter().all(|(k, v)| y.iter().any(|(k2, v2)| k == k2 && same(v, v2)))
        }
        _ => false,
    }
}

fn field<'a>(j: &'a Json, key: &str) -> &'a Json {
    j.get(key).unwrap_or_else(|| panic!("missing {key}"))
}

#[test]
fn unknown_tool_returns_none() {
    assert!(rewrite_deprecated("search", None).is_none());
    assert!(rewrite_deprecated("memory", Some(obj(vec![("action", s("get"))]))).is_none());
    assert!(rewrite_deprecated("totally_made_up", None).is_none());
}

#[test]
fn straight_alias_preserves_args() {
    let args = obj(vec![("foo", Json::Int(42))]);
    let (new_name, new_args) = rewrite_deprecated("ingest", Some(args.deep_clone())).unwrap();
    assert_eq!(new_name, "smart_ingest");
    assert!(same(&new_args.unwrap(), &args));
}

#[test]
fn hybrid_and_semantic_alias_to_search() {
    for old in ["recall", "semantic_search", "hybrid_search"] {
        let (new, _) = rewrite_deprecated(old, Some(obj(vec![("q", s("x"))]))).unwrap();
        assert_eq!(new, "search");
    }
}

#[test]
fn health_check_and_stats_alias_to_system_status() {
    for old in ["health_check", "stats"] {
        let (new, _) = rewrite_deprecated(old, None).unwrap();
        assert_eq!(new, "system_status");
    }
}

#[test]
fn inject_action_into_existing_args() {
    let args = obj(vec![("id", s("abc")), ("reason", s("good"))]);
    let (new_name, new_args) = rewrite_deprecated("promote_memory", Some(args)).unwrap();
    assert_eq!(new_name, "memory");
    let new_args = new_args.unwrap();
    assert_eq!(field(&new_args, "action").as_str(), Some("promote"));
    assert_eq!(field(&new_args, "id").as_str(), Some("abc"));
    assert_eq!(field(&new_args, "reason").as_str(), Some("good"));
}

#[test]
fn inject_action_with_no_args_builds_object() {
    let (new_name, new_args) = rewrite_deprecated("set_intention", None).unwrap();
    assert_eq!(new_name, "intention");
    assert!(same(&new_args.unwrap(), &obj(vec![("action", s("set"))])));
}

#[test]
fn get_knowledge_extracts_id_field() {
    let args = obj(vec![("id", s("node-123"))]);
    let (new_name, new_args) = rewrite_deprecated("get_knowledge", Some(args)).unwrap();
    assert_eq!(new_name, "memory");
    assert!(same(&new_args.unwrap(), &obj(vec![("action", s("get")), ("id", s("node-123"))])));
}

#[test]
fn get_memory_state_renames_memory_id_to_id() {
    let args = obj(vec![("memory_id", s("node-1"))]);
    let (_new_name, new_args) = rewrite_deprecated("get_memory_state", Some(args)).unwrap();
    assert!(same(&new_args.unwrap(), &obj(vec![("action", s("state")), ("id", s("node-1"))])));
}

#[test]
fn complete_intention_builds_update_payload() {
    let args = obj(vec![("intentionId", s("i-1")), ("extra", s("ignored"))]);
    let (new_name, new_args) = rewrite_deprecated("complete_intention", Some(args)).unwrap();
    assert_eq!(new_name, "intention");
    assert!(same(
        &new_args.unwrap(),
        &obj(vec![("action", s("update")), ("id", s("i-1")), ("status", s("complete"))])
    ));
}

#[test]
fn snooze_intention_uses_default_minutes_when_missing() {
    let args = obj(vec![("intentionId", s("i-1"))]);
    let (_, new_args) = rewrite_deprecated("snooze_intention", Some(args)).unwrap();
    let new_args = new_args.unwrap();
    assert_eq!(field(&new_args, "snooze_minutes").as_i64(), Some(30));
    assert_eq!(field(&new_args, "status").as_str(), Some("snooze"));
}

#[test]
fn snooze_intention_preserves_explicit_minutes() {
    let args = obj(vec![("intentionId", s("i-1")), ("minutes", Json::Int(120))]);
    let (_, new_args) = rewrite_deprecated("snooze_intention", Some(args)).unwrap();
    assert_eq!(field(&new_args.unwrap(), "snooze_minutes").as_i64(), Some(120));
}

#[test]
fn list_intentions_renames_status_to_filter_status() {
    let args = obj(vec![("status", s("active"))]);
    let (new_name, new_args) = rewrite_deprecated("list_intentions", Some(args)).unwrap();
    assert_eq!(new_name, "intention");
    let new_args = new_args.unwrap();
    assert_eq!(field(&new_args, "action").as_str(), Some("list"));
    assert_eq!(field(&new_args, "filter_status").as_str(), Some("active"));
    assert!(new_args.get("status").is_none());
}

#[test]
fn list_intentions_with_no_args_defaults_to_action_list() {
    let (_, new_args) = rewrite_deprecated("list_intentions", None).unwrap();
    assert!(same(&new_args.unwrap(), &obj(vec![("action", s("list"))])));
}
