use vestige_mcp::json::Json;
use vestige_mcp::precompute::{
    first_chars, no_sources_reply, parse_request, provenance, saved_reply, slugify_topic,
    summary_content, summary_tags, SourceSnippet, MAX_TOP_K, MAX_TTL_HOURS, MIN_TTL_HOURS,
};

fn obj(entries: Vec<(&str, Json)>) -> Json {
    Json::Object(entries.into_iter().map(|(k, v)| (k.to_string(), v)).collect())
}

fn field<'a>(j: &'a Json, key: &str) -> &'a Json {
    j.get(key).unwrap_or_else(|| panic!("missing {key}"))
}

#[test]
fn slug_falls_back_to_unknown_for_non_ascii_only_input() {
    assert_eq!(slugify_topic("日本語"), "unknown");
    assert_eq!(slugify_topic("  "), "unknown");
}

#[test]
fn slug_normalises_whitespace_and_punctuation() {
    let slug = slugify_topic("OAuth 2.0 / refresh");
    assert_eq!(slug, "oauth-2-0-refresh");
    assert!(slug.chars().all(|c| c.is_ascii_alphanumeric() || c == '-'));
    assert!(!slug.starts_with('-') && !slug.ends_with('-'));
    assert!(!slug.contains("--"));
}

#[test]
fn slug_lowercases_and_trims_dashes() {
    assert_eq!(slugify_topic("--Hello, World!--"), "hello-world");
    assert_eq!(slugify_topic("Ünïcode Mix 42"), "n-code-mix-42");
}

#[test]
fn first_chars_marks_a_cut() {
    assert_eq!(first_chars("abcdef", 3), "abc…");
    assert_eq!(first_chars("abc", 3), "abc");
    assert_eq!(first_chars("日本語です", 2), "日本…");
}

#[test]
fn rejects_missing_arguments() {
    let err = parse_request(None).err().unwrap();
    assert_eq!(err, "Missing arguments");
}

#[test]
fn rejects_missing_or_empty_topic() {
    let no_topic = obj(vec![("top_k", Json::Int(3))]);
    assert_eq!(parse_request(Some(&no_topic)).err().unwrap(), "Missing 'topic'");
    let number_topic = obj(vec![("topic", Json::Int(3))]);
    assert_eq!(parse_request(Some(&number_topic)).err().unwrap(), "Missing 'topic'");
    let blank = obj(vec![("topic", Json::from_str("   "))]);
    assert_eq!(parse_request(Some(&blank)).err().unwrap(), "'topic' cannot be empty");
}

#[test]
fn defaults_and_clamps() {
    let plain = obj(vec![("topic", Json::from_str("  PKCE  "))]);
    let q = parse_request(Some(&plain)).ok().unwrap();
    assert_eq!(q.topic, "PKCE");
    assert_eq!(q.top_k, 5);
    assert_eq!(q.ttl_hours, 24);

    let big = obj(vec![
        ("topic", Json::from_str("TTL")),
        ("ttl_hours", Json::Int(999_999)),
        ("top_k", Json::Int(999)),
    ]);
    let q = parse_request(Some(&big)).ok().unwrap();
    assert_eq!(q.ttl_hours, MAX_TTL_HOURS);
    assert_eq!(q.top_k, MAX_TOP_K);

    let small = obj(vec![("topic", Json::from_str("min")), ("ttlHours", Json::Int(0))]);
    let q = parse_request(Some(&small)).ok().unwrap();
    assert_eq!(q.ttl_hours, MIN_TTL_HOURS);

    let camel = obj(vec![("topic", Json::from_str("x")), ("topK", Json::Int(7))]);
    assert_eq!(parse_request(Some(&camel)).ok().unwrap().top_k, 7);
}

#[test]
fn summary_content_lists_sources_in_order() {
    let sources = vec![
        SourceSnippet { id: "a1".to_string(), content: "first fact".to_string() },
        SourceSnippet { id: "b2".to_string(), content: "second fact".to_string() },
    ];
    let content = summary_content("cache", &sources, "2030-01-01T00:00:00+00:00");
    assert_eq!(
        content,
        "[Precomputed summary for \"cache\" — 2 sources, valid until 2030-01-01T00:00:00+00:00]\n\n\
         1. first fact (id: a1)\n2. second fact (id: b2)"
    );
}

#[test]
fn summary_tags_carry_the_slug() {
    let tags = summary_tags("oauth2-refresh");
    assert_eq!(tags, vec!["precomputed".to_string(), "topic:oauth2-refresh".to_string()]);
}

#[test]
fn no_sources_reply_persists_nothing_and_says_so() {
    let r = no_sources_reply("novel topic");
    assert_eq!(field(&r, "status").as_str(), Some("no_sources"));
    assert_eq!(field(&r, "source_count").as_i64(), Some(0));
    assert!(field(&r, "summary_id").is_null());
    assert_eq!(field(&r, "topic_slug").as_str(), Some("novel-topic"));
    assert_eq!(
        field(&r, "message").as_str(),
        Some("No memories matched topic `novel topic`; nothing to precompute.")
    );
}

#[test]
fn saved_reply_and_provenance_list_sources() {
    let ids = vec!["id1".to_string(), "id2".to_string()];
    let r = saved_reply("s1", "cache", "cache", "2030", 3, &ids, "content");
    assert_eq!(field(&r, "status").as_str(), Some("saved"));
    assert_eq!(field(&r, "source_count").as_i64(), Some(2));
    assert_eq!(field(&r, "ttl_hours").as_i64(), Some(3));
    assert_eq!(field(&r, "source_ids").as_array().unwrap().len(), 2);
    let p = provenance(&ids, "cache", "cache", "now", 3);
    assert_eq!(field(&p, "generator").as_str(), Some("precompute_for_context"));
    assert_eq!(field(&p, "derived_from").as_array().unwrap().len(), 2);
}

#[test]
fn slugifying_a_slug_gives_it_back() {
    for topic in ["Rust Async/Await!", "  --Hello__World--  ", "!!!", "Ünïcode Tøpic", "ABC 123"] {
        let s = slugify_topic(topic);
        assert_eq!(slugify_topic(&s), s, "{topic}");
        assert!(!s.chars().any(|c| c.is_ascii_uppercase()), "{topic}");
    }
    assert_eq!(slugify_topic("Rust Async/Await!"), "rust-async-await");
}
