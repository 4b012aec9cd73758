use vestige_mcp::codebase::decision_title;
use vestige_mcp::codebase::{ decision_content, pattern_content, record_tags, RecordKind,};
use vestige_mcp::codebase::{check_decision, check_matrix, check_pattern, parse_action, CodebaseAction};
use vestige_mcp::codebase::{chosen_label, matrix_content, matrix_reply, Choice};
use vestige_mcp::codebase::{context_limit, context_tag, decision_reply, pattern_reply};
use vestige_mcp::json::Json;

#[test]
fn test_decision_title_cuts_on_a_word_boundary() {
    let title = decision_title(
        "Materiał zaczyna się od stanowiska pracy. Instalacja i konfiguracja narzędzia \
         zajmuje pół dnia, bo zależności są wersjonowane osobno",
    );

    assert!(
        title.ends_with('…'),
        "a cut title must say it was cut: {title:?}"
    );
    assert!(
        !title.contains("instal"),
        "the cut must land on a word boundary, not inside a word: {title:?}"
    );
    assert_eq!(title, "Materiał zaczyna się od stanowiska pracy.…");
}

#[test]
fn test_decision_title_cuts_a_sentence_with_no_terminator() {
    let title = decision_title(
        "Materiał zaczyna się od stanowiska pracy: instalacja i konfiguracja narzędzia",
    );

    assert_eq!(
        title,
        "Materiał zaczyna się od stanowiska pracy: instalacja i…"
    );
    assert!(
        !title.ends_with("instal…"),
        "half a word is not a title: {title:?}"
    );
}

#[test]
fn test_decision_title_prefers_a_short_first_sentence() {
    assert_eq!(
        decision_title("Use SQLite. It is embedded, so there is no server to operate."),
        "Use SQLite.…"
    );
    assert_eq!(decision_title("Use SQLite"), "Use SQLite");
    assert_eq!(
        decision_title("Use SQLite.\nBecause it is embedded."),
        "Use SQLite.…"
    );
}

#[test]
fn decision_title_keeps_a_version_dot_inside_a_sentence() {
    assert_eq!(decision_title("use v1.2 everywhere"), "use v1.2 everywhere");
}

#[test]
fn decision_title_hard_cuts_a_single_long_token() {
    let token = "a".repeat(100);
    let title = decision_title(&token);
    // the first 60 characters, then the ellipsis
    assert_eq!(title, format!("{}…", "a".repeat(60)));
    let wide = "ż".repeat(100);
    assert_eq!(decision_title(&wide), format!("{}…", "ż".repeat(60)));
    assert_eq!(decision_title(&"b".repeat(60)), "b".repeat(60));
}

#[test]
fn actions_and_field_checks() {
    assert_eq!(parse_action("get_context").ok(), Some(CodebaseAction::GetContext));
    assert_eq!(
        parse_action("invalid").err().unwrap(),
        "Invalid action 'invalid'. Must be one of: remember_pattern, remember_decision, remember_decision_v2, get_context"
    );
    assert_eq!(
        check_pattern(None, Some("d")).err().unwrap(),
        "'name' is required for remember_pattern action"
    );
    assert_eq!(
        check_pattern(Some("n"), None).err().unwrap(),
        "'description' is required for remember_pattern action"
    );
    assert_eq!(check_pattern(Some("  "), Some("d")).err().unwrap(), "Pattern name cannot be empty");
    assert!(check_pattern(Some("n"), Some("d")).is_ok());
    assert_eq!(
        check_decision(None, Some("r")).err().unwrap(),
        "'decision' is required for remember_decision action"
    );
    assert_eq!(
        check_decision(Some("d"), None).err().unwrap(),
        "'rationale' is required for remember_decision action"
    );
    assert_eq!(check_decision(Some(" "), Some("r")).err().unwrap(), "Decision cannot be empty");
    assert_eq!(
        check_matrix(None, Some("r"), true).err().unwrap(),
        "'question' is required for remember_decision_v2 action"
    );
    assert_eq!(check_matrix(Some("  "), Some("r"), true).err().unwrap(), "Question cannot be empty");
    assert_eq!(
        check_matrix(Some("q"), None, true).err().unwrap(),
        "'rationale' is required for remember_decision_v2 action"
    );
    assert_eq!(
        check_matrix(Some("q"), Some("r"), false).err().unwrap(),
        "'choices' is required for remember_decision_v2 action"
    );
    assert_eq!(check_matrix(Some("  Which DB?  "), Some("r"), true).ok().unwrap(), "Which DB?");
}

#[test]
fn stored_contents_and_tags() {
    assert_eq!(pattern_content("Repo", "Use traits."), "# Code Pattern: Repo\n\nUse traits.");
    assert_eq!(
        record_tags(RecordKind::Pattern, Some("vestige")),
        vec!["pattern".to_string(), "codebase".to_string(), "codebase:vestige".to_string()]
    );
    assert_eq!(
        record_tags(RecordKind::DecisionMatrix, None),
        vec!["decision", "decision-matrix", "architecture", "codebase"]
    );
    let alts = vec!["MySQL".to_string(), "SQLite".to_string()];
    assert_eq!(
        decision_content("Use Postgres.", "Needs JSONB.", Some(&alts)),
        "# Decision: Use Postgres.\n\n## Context\n\nNeeds JSONB.\n\n## Decision\n\nUse Postgres.\n\n## Alternatives Considered:\n- MySQL\n- SQLite\n"
    );
    assert_eq!(
        decision_content("Use Postgres.", "Needs JSONB.", Some(&vec![])),
        "# Decision: Use Postgres.\n\n## Context\n\nNeeds JSONB.\n\n## Decision\n\nUse Postgres."
    );
}

#[test]
fn decision_matrix_rendering() {
    let choices = vec![
        Choice { id: "a".into(), label: "Postgres".into(), summary: Some("rich".into()), chosen: true },
        Choice { id: "b".into(), label: "SQLite".into(), summary: None, chosen: false },
    ];
    assert_eq!(chosen_label(&choices), "Postgres");
    assert_eq!(chosen_label(&vec![]), "<unknown>");
    let criteria = vec![("Scale".to_string(), "1.5".to_string())];
    assert_eq!(
        matrix_content("DB?", "Postgres", "why", &choices, &criteria),
        "# Decision: DB?\n\n**Chosen:** Postgres\n\n## Rationale\n\nwhy\n\n## Choices\n- [✓] **Postgres** — rich\n- [ ] **SQLite** — \n\n## Criteria\n- Scale (weight 1.5)\n"
    );
    let r = matrix_reply("n1", "DB?", "Postgres", Json::Null, Json::Null);
    assert_eq!(r.get("chosen").unwrap().as_str(), Some("Postgres"));
    assert!(r.get("anchors").unwrap().is_null());
}

#[test]
fn context_reads_and_replies() {
    assert_eq!(context_limit(None), 10);
    assert_eq!(context_limit(Some(0)), 1);
    assert_eq!(context_limit(Some(99)), 50);
    assert_eq!(context_tag(Some("x")).unwrap(), "codebase:x");
    assert!(context_tag(None).is_none());
    let p = pattern_reply("n1", "Repo");
    assert_eq!(p.get("message").unwrap().as_str(), Some("Pattern 'Repo' remembered successfully"));
    let d = decision_reply("n2");
    assert_eq!(d.get("nodeId").unwrap().as_str(), Some("n2"));
}

#[test]
fn titles_stay_within_sixty_one_characters() {
    let long = "word ".repeat(40);
    let t = decision_title(&long);
    assert!(t.chars().count() <= 61);
    assert!(t.ends_with('…'));
    let body = t.trim_end_matches('…');
    assert_eq!(body, body.trim_end());
    assert!(long.trim().starts_with(body));
    assert_eq!(decision_title("  short decision  "), "short decision");
}
