use vestige_mcp::cross_reference::{
    assess_relation, build_reasoning, classify_intent, contains_word, first_sentence,
    has_negation_signal, shared_topic_words, QueryIntent, Relation,
};

#[test]
fn test_classify_intent_synthesis() {
    assert_eq!(
        classify_intent("What do I know about Rust?"),
        QueryIntent::Synthesis
    );
}

#[test]
fn test_classify_intent_fact_check() {
    assert_eq!(
        classify_intent("Is it true that we use PostgreSQL?"),
        QueryIntent::FactCheck
    );
}

#[test]
fn test_classify_intent_timeline() {
    assert_eq!(
        classify_intent("When did we switch to React?"),
        QueryIntent::Timeline
    );
}

#[test]
fn test_classify_intent_root_cause() {
    assert_eq!(
        classify_intent("Why did the deployment fail?"),
        QueryIntent::RootCause
    );
}

#[test]
fn test_classify_intent_comparison() {
    assert_eq!(
        classify_intent("How does Redis differ from Memcached?"),
        QueryIntent::Comparison
    );
}

#[test]
fn test_shared_topic_words() {
    assert!(
        shared_topic_words(
            "Rust borrow checker prevents data races",
            "Rust ownership prevents memory issues"
        ) >= 2
    );
    assert_eq!(shared_topic_words("hello world", "goodbye moon"), 0);
}

#[test]
fn test_shared_topic_words_short_acronyms() {
    assert!(shared_topic_words("JWT token validation", "JWT parsing error") >= 1);
    assert!(shared_topic_words("SQL query optimization", "SQL index tuning") >= 1);
    assert!(shared_topic_words("API rate limiting", "API gateway setup") >= 1);
}

#[test]
fn test_negation_signal() {
    assert!(has_negation_signal(
        "We should not use Redis",
        "We should use Redis for caching"
    ));
    assert!(!has_negation_signal("Rust is fast", "Rust is safe"));
}

#[test]
fn test_negation_signal_no_false_positives() {
    assert!(!has_negation_signal(
        "I'm noting the deadline for Friday",
        "The weather is nice today"
    ));
    assert!(!has_negation_signal(
        "Nothing special about this change",
        "Completely unrelated topic here"
    ));
}

#[test]
fn test_negation_signal_contraction_pairs() {
    assert!(has_negation_signal(
        "We don't deploy on Fridays",
        "We do deploy on Mondays"
    ));
    assert!(has_negation_signal(
        "Feature is disabled in prod",
        "Feature is enabled in staging"
    ));
}

#[test]
fn test_contains_word_boundary() {
    assert!(contains_word("we should not use redis", "not"));
    assert!(!contains_word("nothing special here", "not"));
    assert!(!contains_word("I'm noting the deadline", "not"));
    assert!(contains_word("don't do that", "don't"));
}

#[test]
fn test_relation_irrelevant_few_shared_words() {
    // Trust and recency do not matter when the texts share no topic.
    let rel = assess_relation("Cats are cute", "Rust is fast", true);
    assert!(matches!(rel, Relation::Irrelevant));
}

#[test]
fn relation_names_match_the_wire_format() {
    assert_eq!(Relation::Supports.as_str(), "supports");
    assert_eq!(Relation::Contradicts.as_str(), "contradicts");
    assert_eq!(Relation::Supersedes.as_str(), "supersedes");
    assert_eq!(Relation::Irrelevant.as_str(), "irrelevant");
    assert_eq!(QueryIntent::FactCheck.as_str(), "fact_check");
    assert_eq!(QueryIntent::RootCause.as_str(), "root_cause");
}

#[test]
fn negation_with_shared_topic_supersedes_when_newer_is_trusted() {
    let a = "We should not use Redis for caching";
    let b = "We should use Redis for caching";
    assert!(matches!(assess_relation(a, b, true), Relation::Supersedes));
    assert!(matches!(assess_relation(a, b, false), Relation::Contradicts));
}

#[test]
fn shared_topic_without_negation_supports() {
    let a = "Redis caching speeds up session lookups";
    let b = "Redis caching reduces database session load";
    assert!(matches!(assess_relation(a, b, true), Relation::Supports));
}

#[test]
fn correction_phrase_is_a_negation_signal() {
    assert!(has_negation_signal("Correction: the port is 8080", "The port is 80"));
    assert!(has_negation_signal("a", "this was replaced by something"));
}

#[test]
fn shared_topic_words_counts_each_word_once_and_ignores_case() {
    assert_eq!(shared_topic_words("Redis redis REDIS cache", "redis"), 1);
    // stop words and words of two bytes or less never count
    assert_eq!(shared_topic_words("the of to is", "the of to is"), 0);
    assert_eq!(shared_topic_words("go go", "go go"), 0);
}

#[test]
fn first_sentence_stops_at_a_full_stop_or_newline() {
    assert_eq!(first_sentence("  Use SQLite. It is embedded."), "Use SQLite");
    assert_eq!(first_sentence("line one\nline two"), "line one");
    let long = "x".repeat(250);
    assert_eq!(first_sentence(&long).chars().count(), 200);
}

#[test]
fn reasoning_text_lists_its_parts() {
    let text = build_reasoning(
        QueryIntent::Timeline,
        3,
        1,
        2,
        Some(("0.87", "Switched to React in March")),
        false,
    );
    assert_eq!(
        text,
        "Intent: Reconstructing temporal sequence. Found 3 relevant memories. \
         WARNING: 1 contradiction(s) detected \u{2014} verify with source. \
         2 memory/memories superseded by newer information. \
         Highest-trust answer (trust=0.87): Switched to React in March"
    );
    let low = build_reasoning(QueryIntent::Synthesis, 0, 0, 0, None, true);
    assert_eq!(
        low,
        "Intent: Synthesizing knowledge on a topic. Found 0 relevant memories. \
         Low confidence \u{2014} consider saving more context or verifying externally."
    );
}
