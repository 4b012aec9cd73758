use vestige_mcp::catalog::{build_resources_list, build_tools_list};
use vestige_mcp::json::Json;

fn object_keys(j: &Json) -> Option<Vec<String>> {
    match j {
        Json::Object(entries) => Some(entries.iter().map(|(k, _)| k.clone()).collect()),
        _ => None,
    }
}

#[test]
fn tools_list_has_exactly_28_entries() {
    let tools = build_tools_list();
    assert_eq!(tools.len(), 28, "build_tools_list must advertise exactly 28 tools");
}

#[test]
fn test_tools_list_returns_all_tools() {
    let tools = build_tools_list();
    assert_eq!(tools.len(), 28);
    let names: Vec<&str> = tools.iter().map(|t| t.name.as_str()).collect();
    for present in [
        "search", "memory", "codebase", "intention", "smart_ingest", "memory_timeline",
        "memory_changelog", "system_status", "consolidate", "backup", "export", "gc",
        "split_memories", "regenerate_embeddings", "importance_score", "find_duplicates", "dream",
        "explore_connections", "predict", "precompute_for_context", "restore", "session_context",
        "memory_health", "memory_graph", "reflect", "temporal", "confidence", "deep_reference",
    ] {
        assert!(names.contains(&present), "{present} missing");
    }
    for absent in ["ingest", "session_checkpoint", "promote_memory", "demote_memory", "health_check", "stats"] {
        assert!(!names.contains(&absent), "{absent} listed");
    }
}

#[test]
fn resources_list_has_exactly_11_entries() {
    let resources = build_resources_list();
    assert_eq!(resources.len(), 11);
}

#[test]
fn every_tool_has_description_and_schema() {
    for tool in build_tools_list() {
        assert!(tool.description.is_some(), "tool {} missing description", tool.name);
        assert!(tool.input_schema.is_object(), "tool {} must expose a JSON-Schema object", tool.name);
    }
}

#[test]
fn every_tool_has_explicit_annotations() {
    for tool in build_tools_list() {
        let annotations = tool
            .annotations
            .as_ref()
            .unwrap_or_else(|| panic!("tool {} missing annotations", tool.name));
        for (field, value) in [
            ("readOnlyHint", annotations.read_only_hint),
            ("destructiveHint", annotations.destructive_hint),
            ("idempotentHint", annotations.idempotent_hint),
            ("openWorldHint", annotations.open_world_hint),
        ] {
            assert!(value.is_some(), "tool {} missing explicit `{}` annotation", tool.name, field);
        }
        assert_eq!(
            annotations.open_world_hint,
            Some(false),
            "tool {} declared open-world; Vestige tools are local-only",
            tool.name,
        );
    }
}

#[test]
fn every_tool_has_display_title() {
    for tool in build_tools_list() {
        assert!(tool.title.is_some(), "tool {} missing top-level title", tool.name);
        assert!(
            tool.annotations.as_ref().and_then(|a| a.title.as_ref()).is_some(),
            "tool {} missing annotation title",
            tool.name,
        );
    }
}

#[test]
fn every_tool_schema_has_object_type_and_consistent_required() {
    for tool in build_tools_list() {
        let schema = &tool.input_schema;
        assert!(schema.is_object(), "schema for {} is not an object", tool.name);
        let kind = schema
            .get("type")
            .and_then(|v| v.as_str())
            .unwrap_or_else(|| panic!("schema for {} missing string `type`", tool.name));
        assert_eq!(kind, "object", "schema for {} must use type=object", tool.name);
        let properties = object_keys(
            schema
                .get("properties")
                .unwrap_or_else(|| panic!("schema for {} missing `properties`", tool.name)),
        )
        .unwrap_or_else(|| panic!("schema for {} has non-object `properties`", tool.name));
        if let Some(required) = schema.get("required") {
            let required_arr = required
                .as_array()
                .unwrap_or_else(|| panic!("schema for {} has non-array `required`", tool.name));
            for entry in required_arr {
                let key = entry.as_str().unwrap_or_else(|| {
                    panic!("schema for {} has non-string entry in `required`", tool.name)
                });
                assert!(
                    properties.iter().any(|p| p == key),
                    "schema for {} requires `{}` but it is not declared in `properties`",
                    tool.name,
                    key,
                );
            }
        }
    }
}

#[test]
fn tool_names_are_unique() {
    let tools = build_tools_list();
    let mut seen = std::collections::HashSet::new();
    for tool in &tools {
        assert!(seen.insert(tool.name.clone()), "duplicate tool name detected in catalog: {}", tool.name);
    }
    assert_eq!(seen.len(), tools.len());
}

#[test]
fn tool_names_are_snake_case() {
    for tool in build_tools_list() {
        for (idx, ch) in tool.name.chars().enumerate() {
            let ok = ch.is_ascii_lowercase()
                || ch.is_ascii_digit()
                || ch == '_'
                || (idx == 0 && ch.is_ascii_lowercase());
            assert!(ok, "tool name `{}` contains non-snake_case char `{}` at byte {}", tool.name, ch, idx);
        }
    }
}

#[test]
fn every_resource_has_description() {
    for resource in build_resources_list() {
        assert!(resource.description.is_some(), "resource {} missing description", resource.uri);
    }
}

#[test]
fn every_resource_uri_has_scheme() {
    for resource in build_resources_list() {
        assert!(resource.uri.contains("://"), "resource {} missing `scheme://` prefix", resource.uri);
    }
}

#[test]
fn read_only_tools_are_marked_safe_and_deleting_tools_destructive() {
    let tools = build_tools_list();
    let find = |n: &str| tools.iter().find(|t| t.name == n).unwrap();
    let search = find("search").annotations.as_ref().unwrap();
    assert_eq!(search.read_only_hint, Some(true));
    assert_eq!(search.destructive_hint, Some(false));
    let gc = find("gc").annotations.as_ref().unwrap();
    assert_eq!(gc.destructive_hint, Some(true));
    assert_eq!(gc.idempotent_hint, Some(true));
    let memory = find("memory");
    assert_eq!(memory.input_schema.get("required").unwrap().as_array().unwrap().len(), 1);
}

#[test]
fn annotation_titles_match_the_tool_titles() {
    for tool in build_tools_list() {
        let a = tool.annotations.as_ref().expect("annotations");
        assert_eq!(a.title, tool.title, "tool {}", tool.name);
    }
}
