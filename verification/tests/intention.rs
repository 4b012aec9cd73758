use vestige_mcp::intention::{
    check_description, check_item, check_reply, context_triggered, file_check_item, intent_tag,
    is_triggered, list_item, list_limit, list_query, list_reply, not_found, parse_action,
    parse_update, priority_level, priority_name, set_reply, snooze_minutes, source_type,
    stored_status, trigger_choice, update_reply, ContextSpec, IntentionAction, ListQuery,
    TriggerSpec, UpdateKind,
};
use vestige_mcp::json::Json;

fn trigger(kind: Option<&str>) -> TriggerSpec {
    TriggerSpec {
        trigger_type: kind.map(String::from),
        at: None,
        in_minutes: None,
        codebase: None,
        file_pattern: None,
        topic: None,
        condition: None,
    }
}

fn context() -> ContextSpec {
    ContextSpec { current_time: None, codebase: None, file: None, topics: None }
}

#[test]
fn actions_are_named() {
    assert_eq!(parse_action("set").ok(), Some(IntentionAction::Create));
    assert_eq!(parse_action("list").ok(), Some(IntentionAction::List));
    assert_eq!(
        parse_action("bogus").err().unwrap(),
        "Unknown action: 'bogus'. Valid actions are: set, check, update, list"
    );
}

#[test]
fn descriptions_are_checked() {
    assert_eq!(check_description(None).err().unwrap(), "Missing 'description' for set action");
    assert_eq!(check_description(Some("  ")).err().unwrap(), "Description cannot be empty");
    assert_eq!(
        check_description(Some(&"a".repeat(100_001))).err().unwrap(),
        "Description too large (max 100KB)"
    );
    assert!(check_description(Some(&"a".repeat(100_000))).is_ok());
}

#[test]
fn priorities_map_both_ways() {
    assert_eq!(priority_level(Some("low"), Some(4)), 1);
    assert_eq!(priority_level(Some("critical"), None), 4);
    assert_eq!(priority_level(Some("whatever"), None), 2);
    assert_eq!(priority_level(None, Some(3)), 3);
    assert_eq!(priority_level(None, None), 2);
    assert_eq!(priority_name(1), "low");
    assert_eq!(priority_name(2), "normal");
    assert_eq!(priority_name(3), "high");
    assert_eq!(priority_name(4), "critical");
    assert_eq!(priority_name(9), "normal");
}

#[test]
fn intent_tags_are_capped_at_50_bytes() {
    assert_eq!(intent_tag("intent:Coding"), "intent:Coding");
    let long = format!("intent:{}", "x".repeat(60));
    let tag = intent_tag(&long);
    assert_eq!(tag.len(), 50);
    assert!(tag.ends_with("..."));
}

#[test]
fn triggers_and_sources() {
    let (t, d) = trigger_choice(Some((None, "{\"at\":1}".to_string())), None);
    assert_eq!((t.as_str(), d.as_str()), ("time", "{\"at\":1}"));
    let (t, d) = trigger_choice(None, Some(("event".to_string(), "{}".to_string())));
    assert_eq!((t.as_str(), d.as_str()), ("event", "{}"));
    let (t, d) = trigger_choice(None, None);
    assert_eq!((t.as_str(), d.as_str()), ("manual", "{}"));
    assert_eq!(source_type(true), "nlp");
    assert_eq!(source_type(false), "mcp");
}

#[test]
fn context_triggers_fire_on_their_first_rule() {
    let mut t = trigger(Some("context"));
    t.codebase = Some("Vestige".to_string());
    let mut c = context();
    c.codebase = Some("my-vestige-app".to_string());
    assert!(context_triggered(&t, &c));
    assert!(is_triggered(Some(&t), Some(&c), false));
    assert!(!is_triggered(Some(&t), None, true));

    let mut t = trigger(Some("context"));
    t.topic = Some("RUST".to_string());
    let mut c = context();
    c.topics = Some(vec!["python".to_string(), "rustacean".to_string()]);
    assert!(context_triggered(&t, &c));
    c.topics = Some(vec!["go".to_string()]);
    assert!(!context_triggered(&t, &c));

    let time = trigger(Some("time"));
    assert!(is_triggered(Some(&time), None, true));
    assert!(!is_triggered(Some(&trigger(Some("event"))), None, true));
    assert!(!is_triggered(None, None, true));
}

#[test]
fn updates_are_checked() {
    assert_eq!(parse_update(None, Some("complete")).err().unwrap(), "Missing 'id' for update action");
    assert_eq!(parse_update(Some("i"), None).err().unwrap(), "Missing 'status' for update action");
    assert_eq!(
        parse_update(Some("i"), Some("done")).err().unwrap(),
        "Unknown status: 'done'. Valid statuses are: complete, snooze, cancel"
    );
    assert_eq!(parse_update(Some("i"), Some("snooze")).ok(), Some(UpdateKind::Snooze));
    assert_eq!(stored_status(UpdateKind::Complete), "fulfilled");
    assert_eq!(stored_status(UpdateKind::Cancel), "cancelled");
    assert_eq!(snooze_minutes(None), 30);
    assert_eq!(snooze_minutes(Some(5)), 5);
    assert_eq!(not_found("i-1"), "Intention not found: i-1");
    let r = update_reply(UpdateKind::Snooze, "i-1", 45, "2030-01-01T00:00:00Z");
    assert_eq!(r.get("message").unwrap().as_str(), Some("Intention snoozed for 45 minutes"));
    assert_eq!(r.get("snoozedUntil").unwrap().as_str(), Some("2030-01-01T00:00:00Z"));
    let c = update_reply(UpdateKind::Complete, "i-1", 0, "");
    assert!(c.get("snoozedUntil").is_none());
    assert_eq!(c.get("message").unwrap().as_str(), Some("Intention marked as complete"));
}

#[test]
fn listing_and_checking() {
    assert!(matches!(list_query(None), ListQuery::Active));
    assert!(matches!(list_query(Some("all")), ListQuery::All));
    assert!(matches!(list_query(Some("fulfilled")), ListQuery::Status(s) if s == "fulfilled"));
    assert_eq!(list_limit(None), 20);
    assert_eq!(list_limit(Some(5)), 5);
    assert_eq!(list_limit(Some(-1)), usize::MAX);
    let item = list_item("i", "d", "active", 3, "t0", None, false, Some("t1"));
    assert_eq!(item.get("priority").unwrap().as_str(), Some("high"));
    assert!(item.get("deadline").unwrap().is_null());
    let reply = list_reply(vec![item], "active");
    assert_eq!(reply.get("total").unwrap().as_u64(), Some(1));

    let mut triggered: Vec<Json> = Vec::new();
    let mut pending: Vec<Json> = Vec::new();
    file_check_item(check_item("a", "d", 1, "t0", None, false), false, false, &mut triggered, &mut pending);
    file_check_item(check_item("b", "d", 4, "t0", Some("t1"), true), false, true, &mut triggered, &mut pending);
    assert_eq!(triggered.len(), 1);
    assert_eq!(pending.len(), 1);
    let r = check_reply(triggered, pending, "now");
    assert_eq!(r.get("checkedAt").unwrap().as_str(), Some("now"));

    let s = set_reply("id", "Call mom", 2, None, Some("2030"), false);
    assert_eq!(s.get("message").unwrap().as_str(), Some("Intention created: Call mom"));
    assert!(s.get("triggerAt").unwrap().is_null());
}
