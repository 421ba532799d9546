//! Telemetry configuration and its validation.
//!
//! Configuration arrives in a raw shape in which both trace-exporter
//! sections may be present at once; validation narrows it to a strict
//! choice between the two backends and checks the sample percentage,
//! so that no pipeline is ever built from malformed settings.

use vstd::prelude::*;

verus! {

/// Settings for the exporter that ships spans to the internal collector.
/// The transport field is opaque to the pipeline; only the sample
/// percentage is interpreted here.
#[derive(Clone, Debug)]
pub struct InternalExporterConfig {
    /// Percentage of trace roots to record; meaningful only in `0..=100`.
    pub sample_percent: u32,
    /// Collector endpoint, passed through to the transport untouched.
    pub endpoint: String,
}

/// Settings for the agent-based exporter, which fires spans at a local
/// collector process.  Opaque to the pipeline.
#[derive(Clone, Debug)]
pub struct AgentExporterConfig {
    /// Agent address, passed through to the transport untouched.
    pub agent_endpoint: String,
}

/// The trace backend chosen for a pipeline: strictly one of the two
/// exporters.  "No tracing at all" is expressed as
/// `Option::<TraceConfig>::None` inside [`TelemetryConfig`].
#[derive(Clone, Debug)]
pub enum TraceConfig {
    Internal(InternalExporterConfig),
    Agent(AgentExporterConfig),
}

/// Validated top-level telemetry settings.
#[derive(Clone, Debug)]
pub struct TelemetryConfig {
    pub trace: Option<TraceConfig>,
}

/// Trace settings as they arrive from a configuration source, where both
/// exporter sections may be present at once.  [`validate_trace_config`]
/// narrows this to a well-formed [`TraceConfig`].
pub struct RawTraceConfig {
    pub internal: Option<InternalExporterConfig>,
    pub agent: Option<AgentExporterConfig>,
}

/// Top-level telemetry settings as they arrive from a configuration source.
pub struct RawTelemetryConfig {
    pub trace: Option<RawTraceConfig>,
}

/// Configuration errors, reported synchronously at build time before any
/// sink is activated.
#[derive(Clone, Copy, PartialEq, Eq, Structural, Debug)]
pub enum ConfigError {
    /// Both exporter backends were configured; the choice is strict, and
    /// is never resolved silently by precedence.
    ExportersConflict,
    /// The sample percentage lies outside `0..=100`.
    SamplePercentOutOfRange,
}

/// A sample percentage is meaningful only in `0..=100`.
pub open spec fn sample_percent_valid(p: u32) -> bool {
    p <= 100
}

/// A trace configuration is valid when its sampling settings are.
pub open spec fn trace_config_valid(t: TraceConfig) -> bool {
    match t {
        TraceConfig::Internal(c) => sample_percent_valid(c.sample_percent),
        TraceConfig::Agent(_) => true,
    }
}

/// A telemetry configuration is valid when its trace section, if any, is.
pub open spec fn telemetry_config_valid(c: TelemetryConfig) -> bool {
    match c.trace {
        Some(t) => trace_config_valid(t),
        None => true,
    }
}

/// Narrows raw trace settings to the strict choice between backends.
///
/// Configuring both exporters at once is a configuration error, never
/// resolved by precedence; an out-of-range sample percentage is likewise
/// rejected here, before any sink is built.
pub fn validate_trace_config(raw: RawTraceConfig) -> (r: Result<
    Option<TraceConfig>,
    ConfigError,
>)
    ensures
        r == (match (raw.internal, raw.agent) {
            (Some(_), Some(_)) => Err::<Option<TraceConfig>, ConfigError>(
                ConfigError::ExportersConflict,
            ),
            (Some(c), None) => if sample_percent_valid(c.sample_percent) {
                Ok(Some(TraceConfig::Internal(c)))
            } else {
                Err(ConfigError::SamplePercentOutOfRange)
            },
            (None, Some(a)) => Ok(Some(TraceConfig::Agent(a))),
            (None, None) => Ok(None),
        }),
        r matches Ok(Some(t)) ==> trace_config_valid(t),
{
    match (raw.internal, raw.agent) {
        (Some(_), Some(_)) => Err(ConfigError::ExportersConflict),
        (Some(c), None) => {
            if c.sample_percent > 100 {
                Err(ConfigError::SamplePercentOutOfRange)
            } else {
                Ok(Some(TraceConfig::Internal(c)))
            }
        },
        (None, Some(a)) => Ok(Some(TraceConfig::Agent(a))),
        (None, None) => Ok(None),
    }
}

/// What validating an optional raw telemetry configuration yields.
pub open spec fn spec_validate_telemetry_config(raw: Option<RawTelemetryConfig>) -> Result<
    Option<TelemetryConfig>,
    ConfigError,
> {
    match raw {
        None => Ok(None),
        Some(rc) => match rc.trace {
            None => Ok(Some(TelemetryConfig { trace: None })),
            Some(rt) => match (rt.internal, rt.agent) {
                (Some(_), Some(_)) => Err(ConfigError::ExportersConflict),
                (Some(c), None) => if sample_percent_valid(c.sample_percent) {
                    Ok(Some(TelemetryConfig { trace: Some(TraceConfig::Internal(c)) }))
                } else {
                    Err(ConfigError::SamplePercentOutOfRange)
                },
                (None, Some(a)) => Ok(Some(TelemetryConfig { trace: Some(TraceConfig::Agent(a)) })),
                (None, None) => Ok(Some(TelemetryConfig { trace: None })),
            },
        },
    }
}

/// Validates an optional raw telemetry configuration.
///
/// Absent configuration means "no tracing" and always validates; present
/// configuration validates exactly when its trace section does.
pub fn validate_telemetry_config(raw: Option<RawTelemetryConfig>) -> (r: Result<
    Option<TelemetryConfig>,
    ConfigError,
>)
    ensures
        r == spec_validate_telemetry_config(raw),
        r matches Ok(Some(c)) ==> telemetry_config_valid(c),
{
    match raw {
        None => Ok(None),
        Some(rc) => match rc.trace {
            None => Ok(Some(TelemetryConfig { trace: None })),
            Some(rt) => match validate_trace_config(rt) {
                Ok(t) => Ok(Some(TelemetryConfig { trace: t })),
                Err(e) => Err(e),
            },
        },
    }
}

} // verus!
