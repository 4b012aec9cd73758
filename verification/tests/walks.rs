use vestige_mcp::changelog::{changelog_limit, check_memory_id, memory_not_found, merge_events, revisions_omitted, system_wide_reply};
use vestige_mcp::dream::{insufficient_reply, memory_count, replay_selection};
use vestige_mcp::explore::{causal_depth, explore_args, unknown_action, CausalWalk, Connection};
use vestige_mcp::health::{band_of, distribution_json, recommendation, RetentionBand};
use vestige_mcp::json::Json;

fn obj(entries: Vec<(&str, Json)>) -> Json {
    Json::Object(entries.into_iter().map(|(k, v)| (k.to_string(), v)).collect())
}

fn ids(v: &[&str]) -> Vec<String> {
    v.iter().map(|s| s.to_string()).collect()
}

fn edge(from: &str, to: &str, kind: &str) -> Connection {
    Connection {
        source_id: from.to_string(),
        target_id: to.to_string(),
        link_type: kind.to_string(),
        strength: Json::Int(1),
    }
}

#[test]
fn changelog_pieces() {
    assert_eq!(changelog_limit(None), 20);
    assert_eq!(changelog_limit(Some(500)), 100);
    assert_eq!(changelog_limit(Some(-3)), 1);
    assert!(check_memory_id("67e55044-10b1-426f-9247-bb680e5fe0c8").is_ok());
    assert_eq!(
        check_memory_id("nope").err().unwrap(),
        "Invalid memory_id 'nope'. Must be a valid UUID."
    );
    assert_eq!(memory_not_found("m"), "Memory 'm' not found.");
    assert_eq!(revisions_omitted(10, 4), 6);
    assert_eq!(revisions_omitted(2, 4), 0);
}

#[test]
fn system_wide_events_are_newest_first_and_cut() {
    let events = vec![
        (10, Json::from_str("c10")),
        (30, Json::from_str("d30")),
        (20, Json::from_str("t20")),
        (30, Json::from_str("t30")),
    ];
    let merged = merge_events(events, 3);
    let names: Vec<&str> = merged.iter().map(|j| j.as_str().unwrap()).collect();
    assert_eq!(names, vec!["d30", "t30", "t20"]);
    let r = system_wide_reply(merged);
    assert_eq!(r.get("totalEvents").unwrap().as_u64(), Some(3));
    assert_eq!(r.get("mode").unwrap().as_str(), Some("system_wide"));
}

#[test]
fn explore_arguments() {
    assert_eq!(explore_args(None).err().unwrap(), "Missing arguments");
    assert_eq!(explore_args(Some(&obj(vec![]))).err().unwrap(), "Missing 'action'");
    let a = obj(vec![("action", Json::from_str("chain"))]);
    assert_eq!(explore_args(Some(&a)).err().unwrap(), "Missing 'from'");
    let a = obj(vec![("action", Json::from_str("chain")), ("from", Json::from_str("x")), ("limit", Json::Int(3))]);
    let x = explore_args(Some(&a)).ok().unwrap();
    assert_eq!((x.action.as_str(), x.from.as_str(), x.limit), ("chain", "x", 3));
    assert!(x.to.is_none());
    assert_eq!(
        unknown_action("fly"),
        "Unknown action: 'fly'. Expected: chain, associations, bridges, causal_chain"
    );
    assert_eq!(causal_depth(None), 3);
    assert_eq!(causal_depth(Some(100)), 6);
}

#[test]
fn causal_chain_clamps_and_walks_outgoing_causal_edges() {
    let mut walk = CausalWalk::new("a", causal_depth(Some(2)), 10);
    let mut queries = 0;
    while let Some((current, hop)) = walk.next_query() {
        queries += 1;
        let edges = match current.as_str() {
            "a" => vec![edge("a", "b", "causal"), edge("a", "c", "semantic"), edge("z", "a", "causal")],
            "b" => vec![edge("b", "c", "causal"), edge("b", "a", "causal")],
            "c" => vec![edge("c", "d", "causal")],
            _ => vec![],
        };
        walk.absorb(&current, hop, &edges);
    }
    let steps = walk.into_steps();
    let reached: Vec<(&str, &str, u64)> =
        steps.iter().map(|s| (s.target_id.as_str(), s.parent_id.as_str(), s.hop)).collect();
    assert_eq!(reached, vec![("b", "a", 1), ("c", "b", 2)]);
    assert_eq!(queries, 2);
}

#[test]
fn causal_walk_stops_at_its_limit() {
    let mut walk = CausalWalk::new("a", 6, 1);
    while let Some((current, hop)) = walk.next_query() {
        walk.absorb(&current, hop, &vec![edge(&current, "x", "causal"), edge(&current, "y", "causal")]);
    }
    assert_eq!(walk.into_steps().len(), 1);
}

#[test]
fn dream_selection() {
    assert_eq!(memory_count(None), 50);
    assert_eq!(memory_count(Some(&obj(vec![("memory_count", Json::Int(9000))]))), 500);
    let tagged = ids(&["t1", "t2", "t3", "t4", "t5", "t6", "t7", "t8"]);
    let others = ids(&["t1", "o1", "o2", "o3", "o4"]);
    let sel = replay_selection(10, &tagged, &others, &tagged);
    assert_eq!(sel, ids(&["t1", "t2", "t3", "t4", "t5", "t6", "t7", "o1", "o2", "o3"]));
    let sel = replay_selection(10, &ids(&["t1"]), &ids(&["t1", "o1"]), &ids(&["t1", "t2"]));
    assert_eq!(sel, ids(&["t1", "o1", "t2"]));
    let r = insufficient_reply(3);
    assert_eq!(r.get("message").unwrap().as_str(), Some("Need at least 5 memories to dream. Current count: 3"));
}

#[test]
fn health_pieces() {
    assert_eq!(band_of(true, true, true), RetentionBand::Excellent);
    assert_eq!(band_of(false, false, true), RetentionBand::Fair);
    assert!(recommendation(RetentionBand::Poor).starts_with("Poor memory health."));
    let d = distribution_json(&vec![("0-20%".to_string(), 3)]);
    let first = &d.as_array().unwrap()[0];
    assert_eq!(first.get("bucket").unwrap().as_str(), Some("0-20%"));
    assert_eq!(first.get("count").unwrap().as_i64(), Some(3));
}
