//! The sink composer and per-sink event dispatch.
//!
//! A pipeline is an ordered list of independent sinks — console, rotating
//! file, and optionally one trace layer — each gated by a filter of its
//! own.  Composition never fails partway: either the whole list is built,
//! or a configuration error is reported and no sink is activated.

use vstd::prelude::*;
use crate::batch::{BatchConfig, batch_config_wf, DEFAULT_MAX_EXPORT_BATCH_SIZE,
    DEFAULT_MAX_QUEUE_SIZE, DEFAULT_MAX_CONCURRENT_EXPORTS};
use crate::config::{TraceConfig, trace_config_valid};
use crate::filter::{Filter, Level, filter_enables};
use crate::sampler::Sampler;

verus! {

/// A telemetry event as the sinks see it: its origin target, its
/// verbosity level, and its rendered message line.
#[derive(Debug)]
pub struct Event {
    pub target: String,
    pub level: Level,
    pub message: String,
}

impl Event {
    /// An identical copy, handed to each accepting sink in turn.
    pub fn dup(&self) -> (r: Event)
        ensures
            r == *self,
    {
        Event { target: self.target.clone(), level: self.level, message: self.message.clone() }
    }
}

/// The settings a trace layer carries for its backend.
#[derive(Clone, Copy, Debug)]
pub enum TraceLayerKind {
    /// The internal exporter: this crate samples by ratio and batches
    /// the finished spans itself.
    Internal { sampler: Sampler, batch: BatchConfig },
    /// The agent exporter: spans are fired at a local collector process,
    /// which manages its own batching.
    Agent,
}

/// The optional trace layer: the chosen backend, gated by the trace
/// filter.
#[derive(Clone, Debug)]
pub struct TraceLayer {
    pub kind: TraceLayerKind,
    pub filter: Filter,
}

/// The batch configuration a freshly selected internal exporter gets.
pub open spec fn default_batch_config(c: BatchConfig) -> bool {
    &&& c.max_export_batch_size == DEFAULT_MAX_EXPORT_BATCH_SIZE
    &&& c.max_queue_size == DEFAULT_MAX_QUEUE_SIZE
    &&& c.max_concurrent_exports == DEFAULT_MAX_CONCURRENT_EXPORTS
}

/// How a selected trace layer reflects its configuration: the internal
/// backend carries a sampler built from the configured percentage and a
/// default batch configuration; the agent backend carries nothing.
pub open spec fn trace_layer_matches(l: TraceLayer, tc: TraceConfig) -> bool {
    match tc {
        TraceConfig::Internal(c) => l.kind matches TraceLayerKind::Internal { sampler, batch }
            && sampler.spec_percent() == c.sample_percent && default_batch_config(batch),
        TraceConfig::Agent(_) => l.kind matches TraceLayerKind::Agent,
    }
}

/// Chooses and constructs the trace layer for a validated trace
/// configuration.
pub fn select_trace_layer(tc: &TraceConfig, trace_filter: Filter) -> (r: TraceLayer)
    requires
        trace_config_valid(*tc),
    ensures
        trace_layer_matches(r, *tc),
        r.filter == trace_filter,
        r.kind matches TraceLayerKind::Internal { sampler, batch } ==> sampler.wf()
            && batch_config_wf(batch),
{
    match tc {
        TraceConfig::Internal(c) => TraceLayer {
            kind: TraceLayerKind::Internal {
                sampler: Sampler::new(c.sample_percent),
                batch: BatchConfig::default(),
            },
            filter: trace_filter,
        },
        TraceConfig::Agent(_) => TraceLayer { kind: TraceLayerKind::Agent, filter: trace_filter },
    }
}

/// One sink of the pipeline, tagged with what it is and gated by its own
/// filter.
#[derive(Debug)]
pub enum Sink {
    /// Human-readable console output.
    Console { filter: Filter },
    /// The rotating on-disk log, named after the application.
    RollingFile { filter: Filter, file_name: String },
    /// The optional distributed-trace layer.
    Trace { layer: TraceLayer },
}

/// The filter a sink applies before accepting an event.
pub open spec fn sink_filter(s: Sink) -> Filter {
    match s {
        Sink::Console { filter } => filter,
        Sink::RollingFile { filter, .. } => filter,
        Sink::Trace { layer } => layer.filter,
    }
}

/// Whether a sink accepts an event with the given target and level:
/// each sink consults its own filter and nothing else.
pub open spec fn sink_accepts(s: Sink, target: Seq<char>, level: Level) -> bool {
    filter_enables(sink_filter(s), target, level)
}

impl Sink {
    /// Executable counterpart of [`sink_accepts`].
    pub fn accepts(&self, e: &Event) -> (r: bool)
        ensures
            r == sink_accepts(*self, e.target@, e.level),
    {
        match self {
            Sink::Console { filter } => filter.enables(&e.target, e.level),
            Sink::RollingFile { filter, .. } => filter.enables(&e.target, e.level),
            Sink::Trace { layer } => layer.filter.enables(&e.target, e.level),
        }
    }

    /// Whether this sink is a trace layer.
    pub open spec fn is_trace_sink(self) -> bool {
        self matches Sink::Trace { .. }
    }
}

/// The composed pipeline: the ordered list of active sinks.  Immutable
/// once built.
#[derive(Debug)]
pub struct Pipeline {
    pub sinks: Vec<Sink>,
}

/// The shape every composed pipeline has: console first, rotating file
/// second, and at most one trace layer after them.
pub open spec fn pipeline_shape(p: Pipeline) -> bool {
    &&& 2 <= p.sinks@.len() <= 3
    &&& p.sinks@[0] matches Sink::Console { .. }
    &&& p.sinks@[1] matches Sink::RollingFile { .. }
    &&& p.sinks@.len() == 3 ==> p.sinks@[2] matches Sink::Trace { .. }
}

/// How a composed pipeline reflects its inputs: a console sink with the
/// console filter, a rotating-file sink with the file filter and a file
/// name derived from the application name, and a trace layer exactly
/// when tracing is configured, gated by the trace filter.
pub open spec fn composed(
    p: Pipeline,
    app_name: Seq<char>,
    trace: Option<TraceConfig>,
    console_filter: Filter,
    file_filter: Filter,
    trace_filter: Filter,
) -> bool {
    &&& p.sinks@.len() == (if trace is Some {
        3int
    } else {
        2int
    })
    &&& p.sinks@[0] matches Sink::Console { filter } && filter == console_filter
    &&& p.sinks@[1] matches Sink::RollingFile { filter, file_name } && filter == file_filter
        && file_name@ == app_name + ".log"@
    &&& (match trace {
        None => true,
        Some(tc) => p.sinks@[2] matches Sink::Trace { layer } && layer.filter == trace_filter
            && trace_layer_matches(layer, tc),
    })
}

/// A composed pipeline has the documented shape.
pub proof fn lemma_composed_shape(
    p: Pipeline,
    app_name: Seq<char>,
    trace: Option<TraceConfig>,
    console_filter: Filter,
    file_filter: Filter,
    trace_filter: Filter,
)
    requires
        composed(p, app_name, trace, console_filter, file_filter, trace_filter),
    ensures
        pipeline_shape(p),
{
}

/// Law: a pipeline never owns more than one trace layer — tracing is a
/// strict choice between "none", the internal exporter, and the agent
/// exporter.
pub proof fn lemma_at_most_one_trace_layer(
    p: Pipeline,
    app_name: Seq<char>,
    trace: Option<TraceConfig>,
    console_filter: Filter,
    file_filter: Filter,
    trace_filter: Filter,
    i: int,
    j: int,
)
    requires
        composed(p, app_name, trace, console_filter, file_filter, trace_filter),
        0 <= i < j < p.sinks@.len(),
    ensures
        !(p.sinks@[i].is_trace_sink() && p.sinks@[j].is_trace_sink()),
{
}

/// The fixed directory the rotating log is written under.
pub fn log_directory() -> (r: String)
    ensures
        r@ == "./log"@,
{
    String::from_str("./log")
}

/// The application name, defaulted when none is supplied.
pub fn resolve_app_name(app_name: Option<&str>) -> (r: String)
    ensures
        r@ == (match app_name {
            Some(s) => s@,
            None => "dozer"@,
        }),
{
    match app_name {
        Some(s) => s.to_owned(),
        None => String::from_str("dozer"),
    }
}

/// The log file name derived from the application name.
pub fn log_file_name(app_name: &str) -> (r: String)
    ensures
        r@ == app_name@ + ".log"@,
{
    app_name.to_owned().concat(".log")
}

/// Composes the pipeline for a validated configuration: console sink,
/// rotating-file sink, and the trace layer exactly when one is
/// configured.  Composition never fails and never yields a partial
/// pipeline.
pub fn compose(
    app_name: &str,
    trace: &Option<TraceConfig>,
    console_filter: Filter,
    file_filter: Filter,
    trace_filter: Filter,
) -> (r: Pipeline)
    requires
        (match *trace {
            Some(tc) => trace_config_valid(tc),
            None => true,
        }),
    ensures
        composed(r, app_name@, *trace, console_filter, file_filter, trace_filter),
{
    let mut sinks: Vec<Sink> = Vec::new();
    sinks.push(Sink::Console { filter: console_filter });
    sinks.push(Sink::RollingFile { filter: file_filter, file_name: log_file_name(app_name) });
    match trace {
        None => {},
        Some(tc) => {
            let layer = select_trace_layer(tc, trace_filter);
            sinks.push(Sink::Trace { layer });
        },
    }
    Pipeline { sinks }
}

/// Law: filtering is independent between sinks.  Two pipelines composed
/// from the same configuration but different trace filters route events
/// identically to the console and file sinks; and an event the trace
/// filter does not enable never reaches the trace sink, whatever the
/// other filters say.
pub proof fn lemma_trace_filter_independence(
    p1: Pipeline,
    p2: Pipeline,
    app_name: Seq<char>,
    trace: Option<TraceConfig>,
    console_filter: Filter,
    file_filter: Filter,
    trace_filter1: Filter,
    trace_filter2: Filter,
    target: Seq<char>,
    level: Level,
)
    requires
        composed(p1, app_name, trace, console_filter, file_filter, trace_filter1),
        composed(p2, app_name, trace, console_filter, file_filter, trace_filter2),
    ensures
        sink_accepts(p1.sinks@[0], target, level) == filter_enables(console_filter, target, level),
        sink_accepts(p2.sinks@[0], target, level) == filter_enables(console_filter, target, level),
        sink_accepts(p1.sinks@[1], target, level) == filter_enables(file_filter, target, level),
        sink_accepts(p2.sinks@[1], target, level) == filter_enables(file_filter, target, level),
        trace is Some && !filter_enables(trace_filter1, target, level) ==> !sink_accepts(
            p1.sinks@[2],
            target,
            level,
        ),
        trace is Some ==> sink_accepts(p1.sinks@[2], target, level) == filter_enables(
            trace_filter1,
            target,
            level,
        ),
{
}

} // verus!
