//! Telemetry status: what span export is (not) doing, in operator terms.
//!
//! No OTLP exporter is compiled into this server in any configuration, so
//! the status never claims that spans are shipped: an endpoint configured
//! without an exporter is a warning that names the endpoint.

use vstd::prelude::*;
use crate::text::{chars_of, contains_s, occurs_at, string_of, trim_range, trim_s};

verus! {

broadcast use vstd::string::group_string_axioms;

/// Whether this server ships spans to an OTLP collector. It does not.
pub const OTLP_EXPORTER_COMPILED_IN: bool = false;

/// Whether the `telemetry` feature is part of this build. It is not.
pub const TELEMETRY_FEATURE_ENABLED: bool = false;

/// Severity a status message deserves.
#[derive(Debug, Clone, Copy, PartialEq, Eq, Structural)]
pub enum TelemetryLevel {
    /// True, but not a misconfiguration: spans exist, they stay local.
    Info,
    /// The operator asked for export and this build cannot deliver it.
    Warn,
}

/// What [`init`] found.
#[derive(Debug, Clone, PartialEq, Eq)]
pub enum TelemetryStatus {
    /// Feature off and no endpoint configured: the default local deployment.
    FeatureDisabled,
    /// Feature on, no endpoint configured.
    Disabled,
    /// An endpoint is configured, but no exporter is compiled in.
    NotWired { endpoint: String },
}

/// Telemetry configuration resolved from the environment.
#[derive(Debug, Clone, Default, PartialEq, Eq)]
pub struct TelemetryConfig {
    /// OTLP collector endpoint (e.g. `http://otel-collector:4317`).
    pub endpoint: Option<String>,
}

pub open spec fn level_s(s: TelemetryStatus) -> TelemetryLevel {
    match s {
        TelemetryStatus::NotWired { .. } => TelemetryLevel::Warn,
        _ => TelemetryLevel::Info,
    }
}

pub open spec fn feature_disabled_text() -> Seq<char> {
    "OTLP export: not available in this build \u{2014} no exporter is \
     compiled into this binary (built without `--features telemetry`, and that feature \
     wires no exporter yet) and no endpoint is set. Tracing spans stay in the process \
     log (RUST_LOG=info); nothing is exported."@
}

pub open spec fn disabled_text() -> Seq<char> {
    "OTLP export: not available in this build \u{2014} no exporter is compiled \
     into this binary (`--features telemetry` wires none yet) even though the feature \
     is enabled, and no endpoint is configured (VESTIGE_OTLP_ENDPOINT / \
     OTEL_EXPORTER_OTLP_ENDPOINT). Tracing spans stay in the process log; nothing is \
     exported."@
}

pub open spec fn not_wired_head() -> Seq<char> {
    "OTLP export: endpoint "@
}

pub open spec fn not_wired_tail() -> Seq<char> {
    " is configured but no exporter is compiled into \
     this binary \u{2014} no spans will be exported to it. Unset VESTIGE_OTLP_ENDPOINT / \
     OTEL_EXPORTER_OTLP_ENDPOINT to silence this, or accept log-only tracing \
     (RUST_LOG=info)."@
}

pub open spec fn message_s(s: TelemetryStatus) -> Seq<char> {
    match s {
        TelemetryStatus::FeatureDisabled => feature_disabled_text(),
        TelemetryStatus::Disabled => disabled_text(),
        TelemetryStatus::NotWired { endpoint } => not_wired_head() + endpoint@ + not_wired_tail(),
    }
}

impl TelemetryStatus {
    /// The level the status line is logged at: a configured endpoint that is
    /// not being dialed is a warning, everything else is information.
    pub fn level(&self) -> (r: TelemetryLevel)
        ensures
            r == level_s(*self),
    {
        match self {
            TelemetryStatus::FeatureDisabled | TelemetryStatus::Disabled => TelemetryLevel::Info,
            TelemetryStatus::NotWired { .. } => TelemetryLevel::Warn,
        }
    }

    /// The single startup line: what telemetry is (not) doing and what to do
    /// about it. The only value it interpolates is the operator's endpoint.
    pub fn message(&self) -> (r: String)
        ensures
            r@ == message_s(*self),
    {
        match self {
            TelemetryStatus::FeatureDisabled => crate::text::owned(
                "OTLP export: not available in this build \u{2014} no exporter is \
                 compiled into this binary (built without `--features telemetry`, and that feature \
                 wires no exporter yet) and no endpoint is set. Tracing spans stay in the process \
                 log (RUST_LOG=info); nothing is exported.",
            ),
            TelemetryStatus::Disabled => crate::text::owned(
                "OTLP export: not available in this build \u{2014} no exporter is compiled \
                 into this binary (`--features telemetry` wires none yet) even though the feature \
                 is enabled, and no endpoint is configured (VESTIGE_OTLP_ENDPOINT / \
                 OTEL_EXPORTER_OTLP_ENDPOINT). Tracing spans stay in the process log; nothing is \
                 exported.",
            ),
            TelemetryStatus::NotWired { endpoint } => {
                let mut out = crate::text::owned("OTLP export: endpoint ");
                out.append(endpoint.as_str());
                out.append(
                    " is configured but no exporter is compiled into \
                     this binary \u{2014} no spans will be exported to it. Unset VESTIGE_OTLP_ENDPOINT / \
                     OTEL_EXPORTER_OTLP_ENDPOINT to silence this, or accept log-only tracing \
                     (RUST_LOG=info).",
                );
                out
            },
        }
    }
}

/// A variable's value trimmed, or none when it is unset or blank.
pub open spec fn nonblank_s(v: Option<Seq<char>>) -> Option<Seq<char>> {
    match v {
        Some(v) => if trim_s(v).len() == 0 {
            None
        } else {
            Some(trim_s(v))
        },
        None => None,
    }
}

/// The endpoint the environment configures: the first of
/// `VESTIGE_OTLP_ENDPOINT` and `OTEL_EXPORTER_OTLP_ENDPOINT` whose value is
/// not blank, trimmed; a blank value counts as unset.
pub open spec fn endpoint_s(vestige: Option<Seq<char>>, otel: Option<Seq<char>>) -> Option<
    Seq<char>,
> {
    match nonblank_s(vestige) {
        Some(v) => Some(v),
        None => nonblank_s(otel),
    }
}

pub open spec fn opt_str_view(o: Option<&str>) -> Option<Seq<char>> {
    match o {
        Some(s) => Some(s@),
        None => None,
    }
}

pub open spec fn opt_string_view(o: Option<String>) -> Option<Seq<char>> {
    match o {
        Some(s) => Some(s@),
        None => None,
    }
}

/// A variable's value trimmed, or none when it is unset or blank.
fn nonblank(v: Option<&str>) -> (r: Option<String>)
    ensures
        opt_string_view(r) == nonblank_s(opt_str_view(v)),
{
    match v {
        Some(v) => {
            let c = chars_of(v);
            let (a, b) = trim_range(&c, 0, c.len());
            proof {
                assert(c@.subrange(0, c@.len() as int) =~= c@);
            }
            if a == b {
                None
            } else {
                let t = crate::text::copy_range(&c, a, b);
                Some(string_of(t.as_slice()))
            }
        },
        None => None,
    }
}

impl TelemetryConfig {
    /// The configuration for the values of `VESTIGE_OTLP_ENDPOINT` and
    /// `OTEL_EXPORTER_OTLP_ENDPOINT` (`None` for a variable that is unset).
    /// Whitespace is trimmed and a blank value counts as unset, so a blank
    /// `VESTIGE_OTLP_ENDPOINT` falls back to `OTEL_EXPORTER_OTLP_ENDPOINT`.
    pub fn from_values(vestige: Option<&str>, otel: Option<&str>) -> (r: Self)
        ensures
            opt_string_view(r.endpoint) == endpoint_s(opt_str_view(vestige), opt_str_view(otel)),
    {
        match nonblank(vestige) {
            Some(v) => TelemetryConfig { endpoint: Some(v) },
            None => TelemetryConfig { endpoint: nonblank(otel) },
        }
    }
}

pub open spec fn init_s(endpoint: Option<Seq<char>>) -> (TelemetryLevel, Seq<char>) {
    match endpoint {
        Some(e) => (TelemetryLevel::Warn, not_wired_head() + e + not_wired_tail()),
        None => if TELEMETRY_FEATURE_ENABLED {
            (TelemetryLevel::Info, disabled_text())
        } else {
            (TelemetryLevel::Info, feature_disabled_text())
        },
    }
}

/// Decide what telemetry is running for `config`: a configured endpoint is
/// reported as not wired, since no exporter exists to install.
pub fn init(config: &TelemetryConfig) -> (r: TelemetryStatus)
    ensures
        match config.endpoint {
            Some(e) => r matches TelemetryStatus::NotWired { endpoint } && endpoint@ == e@,
            None => if TELEMETRY_FEATURE_ENABLED {
                r is Disabled
            } else {
                r is FeatureDisabled
            },
        },
        level_s(r) == init_s(opt_string_view(config.endpoint)).0,
        message_s(r) == init_s(opt_string_view(config.endpoint)).1,
{
    match &config.endpoint {
        Some(endpoint) => TelemetryStatus::NotWired { endpoint: endpoint.clone() },
        None => if TELEMETRY_FEATURE_ENABLED {
            TelemetryStatus::Disabled
        } else {
            TelemetryStatus::FeatureDisabled
        },
    }
}

/// Law: no status this build can report claims an export. Every message
/// says that no exporter is compiled in.
pub proof fn law_every_status_denies_an_exporter(s: TelemetryStatus)
    ensures
        contains_s(message_s(s), "no exporter is compiled"@),
{
    reveal_strlit("no exporter is compiled");
    let needle = "no exporter is compiled"@;
    match s {
        TelemetryStatus::FeatureDisabled => {
            reveal_strlit(
                "OTLP export: not available in this build \u{2014} no exporter is \
                 compiled into this binary (built without `--features telemetry`, and that feature \
                 wires no exporter yet) and no endpoint is set. Tracing spans stay in the process \
                 log (RUST_LOG=info); nothing is exported.",
            );
            assert(feature_disabled_text().subrange(43, 43 + needle.len() as int) =~= needle);
            assert(occurs_at(message_s(s), needle, 43));
        },
        TelemetryStatus::Disabled => {
            reveal_strlit(
                "OTLP export: not available in this build \u{2014} no exporter is compiled \
                 into this binary (`--features telemetry` wires none yet) even though the feature \
                 is enabled, and no endpoint is configured (VESTIGE_OTLP_ENDPOINT / \
                 OTEL_EXPORTER_OTLP_ENDPOINT). Tracing spans stay in the process log; nothing is \
                 exported.",
            );
            assert(disabled_text().subrange(43, 43 + needle.len() as int) =~= needle);
            assert(occurs_at(message_s(s), needle, 43));
        },
        TelemetryStatus::NotWired { endpoint } => {
            reveal_strlit(
                " is configured but no exporter is compiled into \
                 this binary \u{2014} no spans will be exported to it. Unset VESTIGE_OTLP_ENDPOINT / \
                 OTEL_EXPORTER_OTLP_ENDPOINT to silence this, or accept log-only tracing \
                 (RUST_LOG=info).",
            );
            let m = message_s(s);
            let off = not_wired_head().len() + endpoint@.len() + 19;
            assert(not_wired_tail().subrange(19, 19 + needle.len() as int) =~= needle);
            assert(m.subrange(off as int, off + needle.len() as int) =~= needle);
            assert(occurs_at(m, needle, off as int));
        },
    }
}

/// Law: a configured endpoint is always answered with a warning that names
/// it, whatever the endpoint is.
pub proof fn law_configured_endpoint_warns_and_is_named(e: Seq<char>)
    ensures
        init_s(Some(e)).0 == TelemetryLevel::Warn,
        contains_s(init_s(Some(e)).1, e),
{
    let m = init_s(Some(e)).1;
    let off = not_wired_head().len();
    assert(m.subrange(off as int, off + e.len() as int) =~= e);
    assert(occurs_at(m, e, off as int));
}

} // verus!
