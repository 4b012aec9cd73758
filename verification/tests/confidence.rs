use vestige_mcp::confidence::{
    classify_evidence, is_opinion, is_opinion_like, is_plain_fact, not_found_message,
    parse_request, schema, truncate, ConfidenceAction,
};
use vestige_mcp::json::Json;

fn obj(entries: Vec<(&str, Json)>) -> Json {
    Json::Object(entries.into_iter().map(|(k, v)| (k.to_string(), v)).collect())
}

#[test]
fn test_classify_evidence() {
    assert_eq!(classify_evidence("This was verified in production", "fact"), "verified_fact");
    assert_eq!(classify_evidence("Tested and CONFIRMED", "fact"), "verified_fact");
    assert_eq!(classify_evidence("Plain fact", "fact"), "documented");
    assert_eq!(classify_evidence("Something happened", "event"), "documented");
    assert_eq!(classify_evidence("We chose X", "decision"), "experience");
    assert_eq!(classify_evidence("A pattern", "pattern"), "experience");
    assert_eq!(classify_evidence("I think this is right", "note"), "opinion");
    assert_eq!(classify_evidence("Neutral note", "note"), "documented");
}

#[test]
fn test_is_opinion() {
    assert!(is_opinion("I think Rust is great"));
    assert!(is_opinion("This is PROBABLY wrong"));
    assert!(!is_opinion("Rust has a borrow checker"));
    assert!(is_opinion_like("A settled fact", "decision"));
    assert!(is_plain_fact("Water boils at 100C", "fact"));
    assert!(!is_plain_fact("Maybe it boils", "fact"));
}

#[test]
fn test_truncate() {
    assert_eq!(truncate("short", 10), "short");
    assert_eq!(truncate("hello world", 5), "hello…");
    assert_eq!(truncate("日本語", 4), "日…");
    assert_eq!(truncate("", 0), "");
}

#[test]
fn test_parse_request() {
    assert_eq!(parse_request(None).err().unwrap(), "Arguments required");
    let no_action = obj(vec![]);
    assert_eq!(parse_request(Some(&no_action)).err().unwrap(), "action is required");
    let score = obj(vec![("action", Json::from_str("score"))]);
    assert_eq!(parse_request(Some(&score)).err().unwrap(), "memory_id required for 'score'");
    let bad = obj(vec![("action", Json::from_str("bogus"))]);
    assert_eq!(
        parse_request(Some(&bad)).err().unwrap(),
        "Unknown action: bogus. Use: score, audit, calibrate"
    );
    let audit = obj(vec![("action", Json::from_str("audit")), ("limit", Json::Int(7))]);
    let q = parse_request(Some(&audit)).ok().unwrap();
    assert!(matches!(q.action, ConfidenceAction::Audit));
    assert_eq!(q.limit, 7);
    let s = obj(vec![("action", Json::from_str("score")), ("memory_id", Json::from_str("m1"))]);
    let q = parse_request(Some(&s)).ok().unwrap();
    assert_eq!(q.limit, 20);
    match q.action {
        ConfidenceAction::Score { memory_id } => assert_eq!(memory_id, "m1"),
        _ => panic!("expected score"),
    }
    assert_eq!(not_found_message("m1"), "Memory not found: m1");
}

#[test]
fn test_schema() {
    let s = schema();
    assert_eq!(s.get("type").unwrap().as_str(), Some("object"));
    assert!(s.get("properties").unwrap().get("action").is_some());
}
