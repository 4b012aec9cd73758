use vestige_mcp::telemetry::{
    init, TelemetryConfig, TelemetryLevel, TelemetryStatus, OTLP_EXPORTER_COMPILED_IN,
};

const EXPORT_SUCCESS_CLAIMS: [&str; 3] = ["initialized", "exporting to", "export succeeded"];

fn assert_no_export_claim(message: &str) {
    let lowered = message.to_lowercase();
    for claim in EXPORT_SUCCESS_CLAIMS {
        assert!(
            !lowered.contains(claim),
            "startup line reports an export that cannot happen ({claim:?}): {message}"
        );
    }
}

#[test]
fn no_status_reports_an_export_that_cannot_happen() {
    if OTLP_EXPORTER_COMPILED_IN {
        panic!(
            "an exporter is now compiled in: wire it in `init`, give TelemetryStatus a success \
             variant with an honest 'initialized' message, and update this test together with \
             the constant"
        );
    }

    let statuses = [
        TelemetryStatus::FeatureDisabled,
        TelemetryStatus::Disabled,
        TelemetryStatus::NotWired {
            endpoint: "http://collector.invalid:4317".to_string(),
        },
    ];
    for status in &statuses {
        let message = status.message();
        assert!(
            message.contains("no exporter is compiled"),
            "{status:?} must state that no exporter exists: {message}"
        );
        assert_no_export_claim(&message);
    }
}

#[test]
fn from_values_returns_none_when_unset() {
    let cfg = TelemetryConfig::from_values(None, None);
    assert_eq!(cfg.endpoint, None);
}

#[test]
fn from_values_reads_vestige_namespaced_var() {
    let cfg = TelemetryConfig::from_values(Some("http://collector:4317"), None);
    assert_eq!(cfg.endpoint.as_deref(), Some("http://collector:4317"));
}

#[test]
fn from_values_falls_back_to_otel_standard_var() {
    let cfg = TelemetryConfig::from_values(None, Some("http://standard:4318"));
    assert_eq!(cfg.endpoint.as_deref(), Some("http://standard:4318"));
}

#[test]
fn from_values_treats_empty_string_as_unset() {
    let cfg = TelemetryConfig::from_values(Some("   "), None);
    assert_eq!(cfg.endpoint, None);
}

#[test]
fn vestige_value_takes_precedence_over_otel_value() {
    let cfg = TelemetryConfig::from_values(Some("http://vestige:4317"), Some("http://standard:4318"));
    assert_eq!(cfg.endpoint.as_deref(), Some("http://vestige:4317"));
}

#[test]
fn startup_without_endpoint_never_reports_an_export() {
    let status = init(&TelemetryConfig::from_values(None, None));
    assert_eq!(status, TelemetryStatus::FeatureDisabled);
    assert_eq!(status.level(), TelemetryLevel::Info);
    let message = status.message();
    assert!(message.contains("no exporter is compiled"), "{message}");
    assert!(message.contains("nothing is exported"), "{message}");
    assert_no_export_claim(&message);
}

#[test]
fn configured_endpoint_without_exporter_warns_and_names_the_endpoint() {
    let status = init(&TelemetryConfig::from_values(Some("http://collector.invalid:4317"), None));
    assert_eq!(
        status,
        TelemetryStatus::NotWired { endpoint: "http://collector.invalid:4317".to_string() }
    );
    assert_eq!(status.level(), TelemetryLevel::Warn);
    let message = status.message();
    assert!(message.contains("http://collector.invalid:4317"), "{message}");
    assert_no_export_claim(&message);
}

#[test]
fn blank_vestige_value_falls_back_to_the_otel_variable() {
    let cfg = TelemetryConfig::from_values(Some("   "), Some("  http://standard:4318 "));
    assert_eq!(cfg.endpoint.as_deref(), Some("http://standard:4318"));
    let cfg = TelemetryConfig::from_values(Some(""), Some("   "));
    assert_eq!(cfg.endpoint, None);
}
