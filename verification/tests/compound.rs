use vestige_mcp::compound::detect_compound_content_reason;

#[test]
fn maintenance_test_detect_compound_reason_short_returns_none() {
    assert!(detect_compound_content_reason("Short memory").is_none());
}

#[test]
fn maintenance_test_detect_compound_reason_multi_bullet() {
    let content = "Session summary with many items from today's productive work session:\n\
                    - Fixed the authentication bug in login flow where the tokens expired too quickly\n\
                    - Decided to migrate from MySQL to PostgreSQL for better performance and JSON support\n\
                    - John prefers dark mode in all editors and wants dashboard themes to be configurable\n\
                    - Deployment deadline moved to next Friday because of the infrastructure migration delay\n\
                    - Added rate limiting to the API gateway to prevent abuse from unauthenticated external clients";
    let result = detect_compound_content_reason(content);
    assert!(result.is_some());
    assert!(result.unwrap().contains("multi-item list"));
}

#[test]
fn tests_test_detect_compound_reason_short_returns_none() {
    assert!(detect_compound_content_reason("Short memory").is_none());
}

#[test]
fn tests_test_detect_compound_reason_multi_bullet() {
    let content = "Session summary with many items from today's productive work session:\n\
                    - Fixed the authentication bug in login flow where the tokens expired too quickly\n\
                    - Decided to migrate from MySQL to PostgreSQL for better performance and JSON support\n\
                    - John prefers dark mode in all editors and wants dashboard themes to be configurable\n\
                    - Deployment deadline moved to next Friday because of the infrastructure migration delay\n\
                    - Added rate limiting to the API gateway to prevent abuse from unauthenticated external clients";
    let result = detect_compound_content_reason(content);
    assert!(result.is_some());
    assert!(result.unwrap().contains("multi-item list"));
}

#[test]
fn conversation_transcript_is_detected() {
    let compound = "Alice: We discussed the deployment plan for the new microservice and decided on Friday release.\n\
                    Bob: Let's do it Friday but make sure all the integration and unit tests pass first before deploy.\n\
                    Carol: I agree with that plan and I will prepare the rollback scripts for safety in case of failures.\n\
                    Dave: Make sure the staging environment passes all health checks and monitoring is configured properly.";
    let reason = detect_compound_content_reason(compound).unwrap();
    assert_eq!(reason, "conversation transcript");
}

#[test]
fn several_signals_are_joined_in_order() {
    let p = "This paragraph is long enough to count as one substantial paragraph of text.";
    let content = format!(
        "{p}\n\n{p}\n\n{p}\n\nAlso, one more thing worth a mention here.\nBy the way, and another one here too."
    );
    let reason = detect_compound_content_reason(&content).unwrap();
    assert_eq!(reason, "multiple paragraphs, topic-shift phrases");
}

#[test]
fn long_atomic_content_has_no_reason() {
    let content = "word ".repeat(100);
    assert!(detect_compound_content_reason(&content).is_none());
}

#[test]
fn short_content_is_atomic_even_when_it_looks_like_a_list() {
    let content = "- one\n- two\n- three\n- four\n- five\nAlso, this.\nBy the way, that.";
    assert!(content.len() < 300);
    assert!(detect_compound_content_reason(content).is_none());
}
