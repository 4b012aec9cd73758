use vestige_mcp::erase::{
    canonical_tag, memory_outcome, plan, schema, tag_erased_outcome, tag_preview_outcome,
    EraseArgs, EraseError, ErasePlan,
};
use vestige_mcp::json::Json;

fn obj(entries: Vec<(&str, Json)>) -> Json {
    Json::Object(entries.into_iter().map(|(k, v)| (k.to_string(), v)).collect())
}

fn path<'a>(j: &'a Json, keys: &[&str]) -> &'a Json {
    let mut cur = j;
    for k in keys {
        cur = cur.get(k).unwrap_or_else(|| panic!("missing {k}"));
    }
    cur
}

fn strs(j: &Json) -> Vec<String> {
    j.as_array().unwrap().iter().map(|v| v.as_str().unwrap().to_string()).collect()
}

fn args(action: &str, id: Option<&str>, tag: Option<&str>, dry_run: Option<bool>) -> EraseArgs {
    EraseArgs {
        action: action.to_string(),
        id: id.map(String::from),
        tag: tag.map(String::from),
        dry_run,
    }
}

#[test]
fn schema_requires_id_or_tag_per_action() {
    let schema = schema();
    let all_of = schema.get("allOf").unwrap().as_array().expect("allOf declared");
    assert_eq!(all_of.len(), 2);
    assert_eq!(path(&all_of[0], &["if", "properties", "action", "const"]).as_str(), Some("memory"));
    assert_eq!(strs(path(&all_of[0], &["then", "required"])), vec!["id"]);
    assert_eq!(path(&all_of[1], &["if", "properties", "action", "const"]).as_str(), Some("tag"));
    assert_eq!(strs(path(&all_of[1], &["then", "required"])), vec!["tag"]);
    assert_eq!(strs(path(&schema, &["properties", "action", "enum"])), vec!["memory", "tag"]);
}

#[test]
fn schema_declares_bounds_and_safe_defaults() {
    let schema = schema();
    assert_eq!(path(&schema, &["properties", "dry_run", "default"]).as_bool(), Some(true));
    assert_eq!(path(&schema, &["properties", "confirmed", "default"]).as_bool(), Some(false));
    assert_eq!(path(&schema, &["properties", "id", "maxLength"]).as_i64(), Some(64));
    assert_eq!(path(&schema, &["properties", "tag", "maxLength"]).as_i64(), Some(128));
    assert_eq!(path(&schema, &["properties", "id", "minLength"]).as_i64(), Some(1));
    assert_eq!(path(&schema, &["properties", "tag", "minLength"]).as_i64(), Some(1));
    let all_of = schema.get("allOf").unwrap().as_array().unwrap();
    assert!(!all_of.iter().any(|clause| clause
        .get("then")
        .and_then(|t| t.get("required"))
        .and_then(|r| r.as_array())
        .is_some_and(|req| req.iter().any(|v| v.as_str() == Some("confirmed")))));
}

#[test]
fn refuses_without_confirmed() {
    let raw = obj(vec![("action", Json::from_str("memory")), ("dry_run", Json::Bool(false))]);
    let err = plan(&args("memory", Some("abc"), None, Some(false)), &raw).err().unwrap();
    assert!(matches!(err, EraseError::Refused(_)), "expected a refusal, got {err:?}");
    assert!(err.to_string().contains("requires explicit confirmation"));
    assert!(err.to_string().contains("`erase`"));
}

#[test]
fn confirmed_destructive_request_is_planned() {
    let raw = obj(vec![("confirmed", Json::Bool(true))]);
    let q = plan(&args("memory", Some("  abc  "), None, Some(false)), &raw).ok().unwrap();
    assert!(!q.dry_run);
    match q.plan {
        ErasePlan::Memory { id } => assert_eq!(id, "abc"),
        _ => panic!("expected a memory plan"),
    }
}

#[test]
fn dry_run_is_the_default_and_needs_no_confirmation() {
    let raw = obj(vec![]);
    let q = plan(&args("tag", None, Some(" Code Base "), None), &raw).ok().unwrap();
    assert!(q.dry_run);
    match q.plan {
        ErasePlan::Tag { tag, canonical } => {
            assert_eq!(tag, "Code Base");
            assert_eq!(canonical, "code-base");
        }
        _ => panic!("expected a tag plan"),
    }
}

#[test]
fn missing_id_or_tag_is_rejected() {
    let raw = obj(vec![]);
    let err = plan(&args("memory", None, None, None), &raw).err().unwrap();
    assert_eq!(err, EraseError::Invalid("action='memory' requires a non-empty `id`".to_string()));
    let err = plan(&args("tag", None, Some(" "), None), &raw).err().unwrap();
    assert_eq!(err, EraseError::Invalid("action='tag' requires a non-empty `tag`".to_string()));
    let err = plan(&args("everything", None, None, None), &raw).err().unwrap();
    assert_eq!(
        err,
        EraseError::Invalid("Unknown action 'everything': expected 'memory' or 'tag'".to_string())
    );
}

#[test]
fn canonical_tag_matches_the_writers() {
    assert_eq!(canonical_tag("  Code_Base "), "code-base");
    assert_eq!(canonical_tag("Code Base"), "code-base");
    assert_eq!(canonical_tag("gdpr"), "gdpr");
}

#[test]
fn outcomes_and_their_reports() {
    let o = memory_outcome("id-1", true, true, 99);
    assert_eq!(o.matched, 1);
    assert_eq!(o.ids, vec!["id-1".to_string()]);
    assert_eq!(o.artifacts_erased, 0);
    assert_eq!(
        o.message(),
        "1 memories would be erased. Re-issue with dry_run=false and confirmed=true to erase them."
    );
    let gone = memory_outcome("nope", true, false, 0);
    assert_eq!(gone.matched, 0);
    assert!(gone.ids.is_empty());

    let p = tag_preview_outcome(vec!["a".to_string(), "b".to_string()], 5);
    assert!(p.ids_truncated);
    let j = p.to_json();
    assert_eq!(j.get("dryRun").unwrap().as_bool(), Some(true));
    assert_eq!(j.get("matched").unwrap().as_u64(), Some(5));
    assert_eq!(j.get("artifactsErased").unwrap().as_i64(), Some(0));
    assert_eq!(j.get("tool").unwrap().as_str(), Some("erase"));

    let e = tag_erased_outcome(vec!["a".to_string()], 1, 7);
    assert!(!e.ids_truncated);
    assert_eq!(e.message(), "Erased 1 memories and 7 related artifacts.");
    let neg = tag_erased_outcome(vec![], -3, -1);
    assert_eq!(neg.matched, 0);
    assert_eq!(neg.message(), "Erased 0 memories and -1 related artifacts.");
}

#[test]
fn dry_run_plans_the_same_tag_erasure_as_the_confirmed_call() {
    let confirmed = obj(vec![("confirmed", Json::Bool(true))]);
    let preview = plan(&args("tag", None, Some("  Project X_Notes "), Some(true)), &obj(vec![])).unwrap();
    let erase = plan(&args("tag", None, Some("  Project X_Notes "), Some(false)), &confirmed).unwrap();
    assert!(preview.dry_run);
    assert!(!erase.dry_run);
    match (preview.plan, erase.plan) {
        (
            ErasePlan::Tag { tag: t1, canonical: c1 },
            ErasePlan::Tag { tag: t2, canonical: c2 },
        ) => {
            assert_eq!(t1, t2);
            assert_eq!(c1, "project-x-notes");
            assert_eq!(c1, c2);
        }
        _ => panic!("expected tag plans"),
    }
}
