use vestige_mcp::intention::{set_deadline, set_trigger_at, TriggerSpec};
use vestige_mcp::maintenance::{export_since, passes_since};

fn trigger(at: Option<&str>, in_minutes: Option<i64>) -> TriggerSpec {
    TriggerSpec {
        trigger_type: Some("time".to_string()),
        at: at.map(String::from),
        in_minutes,
        codebase: None,
        file_pattern: None,
        topic: None,
        condition: None,
    }
}

#[test]
fn export_since_reads_a_calendar_date_as_its_midnight() {
    assert_eq!(export_since(None), Ok(None));
    assert_eq!(export_since(Some("2024-03-01")), Ok(Some(1_709_251_200)));
    assert_eq!(export_since(Some("1970-01-01")), Ok(Some(0)));
}

#[test]
fn export_since_refuses_other_formats() {
    let err = export_since(Some("03/01/2024")).unwrap_err();
    assert!(err.starts_with("Invalid date '03/01/2024': "), "{err}");
    assert!(err.ends_with(". Use YYYY-MM-DD."), "{err}");
    assert!(export_since(Some("2024-02-30")).is_err());
}

#[test]
fn since_drops_memories_created_before_midnight() {
    let since = export_since(Some("2024-03-01")).unwrap();
    assert!(passes_since(1_709_251_200, since));
    assert!(passes_since(1_709_251_201, since));
    assert!(!passes_since(1_709_251_199, since));
    assert!(passes_since(0, None));
}

#[test]
fn deadlines_are_read_as_rfc3339_in_utc() {
    assert_eq!(
        set_deadline(Some("2024-03-01T12:00:00+02:00")).as_deref(),
        Some("2024-03-01T10:00:00+00:00")
    );
    assert_eq!(set_deadline(Some("tomorrow")), None);
    assert_eq!(set_deadline(None), None);
}

#[test]
fn trigger_time_prefers_at_over_minutes() {
    let later = Some("2030-01-01T00:30:00+00:00".to_string());
    assert_eq!(set_trigger_at(None, later.clone()), None);
    assert_eq!(
        set_trigger_at(Some(&trigger(Some("2030-01-01T01:00:00Z"), Some(5))), later.clone()).as_deref(),
        Some("2030-01-01T01:00:00+00:00")
    );
    assert_eq!(set_trigger_at(Some(&trigger(Some("soon"), Some(5))), later.clone()), None);
    assert_eq!(set_trigger_at(Some(&trigger(None, Some(30))), later.clone()), later);
    assert_eq!(set_trigger_at(Some(&trigger(None, None)), later), None);
}
