//! Global and scoped installation of a composed pipeline.
//!
//! A built pipeline can be installed in two ways: globally, as the
//! process-wide event destination, returning the release guard to the
//! caller; or scoped, as the destination only for the dynamic extent of
//! one unit of work, after which the previously active destination is
//! restored exactly and the guard is released.  The two modes are
//! independent: a scoped installation never touches, and is never
//! visible to, the global one.

use vstd::prelude::*;
use vstd::pervasive::unreached;
use crate::config::{RawTelemetryConfig, TelemetryConfig, TraceConfig, ConfigError,
    spec_validate_telemetry_config, validate_telemetry_config};
use crate::filter::{Filter, Level, ResolvedDirectives, resolve_directives, resolve_level_filter,
    spec_resolve_directive, spec_resolve_level_filter};
use crate::pipeline::{Event, Pipeline, composed, compose, pipeline_shape, resolve_app_name,
    sink_accepts, sink_filter};
use crate::worker::{FileWorker, ReleaseGuard, release};

verus! {

/// What each non-file sink of one installation has received, in order.
#[derive(Debug)]
pub struct SinkLogs {
    /// Events accepted by the console sink.
    pub console: Vec<Event>,
    /// Events accepted by the trace layer, when one is attached.
    pub trace: Vec<Event>,
}

/// One built pipeline together with its live sink state: the events each
/// sink has received and the background file worker.
#[derive(Debug)]
pub struct Installation {
    pub pipeline: Pipeline,
    pub logs: SinkLogs,
    pub worker: FileWorker,
}

/// How one dispatched event changes an installation: every sink whose
/// own filter enables the event receives a copy, appended after
/// everything it received earlier; the file sink's copy is the rendered
/// message line, queued with the non-blocking worker.  Nothing else
/// changes.
pub open spec fn emit_step(pre: Installation, post: Installation, e: Event) -> bool {
    &&& post.pipeline == pre.pipeline
    &&& post.logs.console@ == (if sink_accepts(pre.pipeline.sinks@[0], e.target@, e.level) {
        pre.logs.console@.push(e)
    } else {
        pre.logs.console@
    })
    &&& post.worker.pending@ == (if sink_accepts(pre.pipeline.sinks@[1], e.target@, e.level) {
        pre.worker.pending@.push(e.message)
    } else {
        pre.worker.pending@
    })
    &&& post.worker.written@ == pre.worker.written@
    &&& post.logs.trace@ == (if pre.pipeline.sinks@.len() == 3 && sink_accepts(
        pre.pipeline.sinks@[2],
        e.target@,
        e.level,
    ) {
        pre.logs.trace@.push(e)
    } else {
        pre.logs.trace@
    })
}

impl Installation {
    /// Dispatches one event to this installation's sinks.  The hot path
    /// never blocks: the file copy is only queued with the worker.
    pub fn emit(&mut self, e: &Event)
        requires
            pipeline_shape(old(self).pipeline),
        ensures
            emit_step(*old(self), *final(self), *e),
    {
        if self.pipeline.sinks[0].accepts(e) {
            self.logs.console.push(e.dup());
        }
        if self.pipeline.sinks[1].accepts(e) {
            self.worker.enqueue(e.message.clone());
        }
        if self.pipeline.sinks.len() == 3 {
            if self.pipeline.sinks[2].accepts(e) {
                self.logs.trace.push(e.dup());
            }
        }
    }
}

/// The lifecycle manager: the process-wide installation, if any, and the
/// stack of scoped installations, innermost last.
#[derive(Debug)]
pub struct LifecycleManager {
    /// The global, singleton installation.
    pub global: Option<Installation>,
    /// Scoped installations, active only for a dynamic extent.
    pub scoped: Vec<Installation>,
}

/// The installation that currently receives events: the innermost scoped
/// one when any is active, else the global one.
pub open spec fn spec_active(m: LifecycleManager) -> Option<Installation> {
    if m.scoped@.len() > 0 {
        Some(m.scoped@.last())
    } else {
        m.global
    }
}

impl LifecycleManager {
    /// A manager with nothing installed.
    pub fn new() -> (r: LifecycleManager)
        ensures
            r.global is None,
            r.scoped@ == Seq::<Installation>::empty(),
    {
        LifecycleManager { global: None, scoped: Vec::new() }
    }

    /// Installs a pipeline as the process-wide destination.  Global
    /// installation happens at most once: installing over an existing
    /// global pipeline is a programming error, excluded here rather than
    /// handled at run time.
    pub fn install_global(&mut self, inst: Installation)
        requires
            old(self).global is None,
        ensures
            final(self).global == Some(inst),
            final(self).scoped@ == old(self).scoped@,
    {
        self.global = Some(inst);
    }

    /// Tears down the global installation, handing it back so the caller
    /// can release its guard.  Best effort: safe to call when nothing is
    /// installed, in which case nothing changes and nothing is returned.
    pub fn shutdown_global(&mut self) -> (r: Option<Installation>)
        ensures
            final(self).global is None,
            r == old(self).global,
            final(self).scoped@ == old(self).scoped@,
    {
        self.global.take()
    }

    /// Activates a scoped installation.  The global installation is not
    /// touched and does not see it.
    pub fn push_scoped(&mut self, inst: Installation)
        ensures
            final(self).scoped@ == old(self).scoped@.push(inst),
            final(self).global == old(self).global,
    {
        self.scoped.push(inst);
    }

    /// Deactivates the innermost scoped installation and hands it back,
    /// restoring the previously active destination.  The global
    /// installation is not touched.
    pub fn pop_scoped(&mut self) -> (r: Option<Installation>)
        ensures
            final(self).global == old(self).global,
            old(self).scoped@.len() > 0 ==> r == Some(old(self).scoped@.last()) && final(self).scoped@ == old(self).scoped@.drop_last(),
            old(self).scoped@.len() == 0 ==> r is None && final(self).scoped@ == old(self).scoped@,
    {
        self.scoped.pop()
    }

    /// Dispatches one event to the currently active installation: the
    /// innermost scoped one when any is active, else the global one,
    /// else nowhere.  No other installation sees the event, so scoped
    /// and global pipelines stay independent.
    pub fn emit(&mut self, e: &Event)
        requires
            (match spec_active(*old(self)) {
                Some(i) => pipeline_shape(i.pipeline),
                None => true,
            }),
        ensures
            old(self).scoped@.len() > 0 ==> final(self).global == old(self).global && final(self).scoped@.len() == old(self).scoped@.len() && final(self).scoped@.drop_last() == old(self).scoped@.drop_last() && emit_step(
                old(self).scoped@.last(),
                final(self).scoped@.last(),
                *e,
            ),
            old(self).scoped@.len() == 0 && old(self).global is Some ==> final(self).scoped@
                == old(self).scoped@ && final(self).global is Some && emit_step(
                old(self).global.unwrap(),
                final(self).global.unwrap(),
                *e,
            ),
            old(self).scoped@.len() == 0 && old(self).global is None ==> *final(self) == *old(self),
    {
        if self.scoped.len() > 0 {
            let popped = self.scoped.pop();
            match popped {
                Some(mut top) => {
                    top.emit(e);
                    self.scoped.push(top);
                    proof {
                        assert(final(self).scoped@.drop_last() =~= old(self).scoped@.drop_last());
                    }
                },
                None => unreached(),
            }
        } else {
            let taken = self.global.take();
            match taken {
                Some(mut inst) => {
                    inst.emit(e);
                    self.global = Some(inst);
                },
                None => {
                    self.global = None;
                },
            }
        }
    }

    /// Runs one unit of work under a scoped installation.
    ///
    /// The installation is active only for the dynamic extent of the
    /// call: afterwards the manager is exactly as before — the
    /// previously active destination receives subsequent events — the
    /// guard is released so every file line queued before release is
    /// written, and whatever the unit of work produced, success or
    /// failure, is handed back unchanged alongside the flushed worker.
    pub fn with_scoped<T, F: FnOnce() -> T>(
        &mut self,
        inst: Installation,
        guard: ReleaseGuard,
        f: F,
    ) -> (r: (T, Installation))
        requires
            call_requires(f, ()),
        ensures
            final(self).global == old(self).global,
            final(self).scoped@ == old(self).scoped@,
            spec_active(*final(self)) == spec_active(*old(self)),
            call_ensures(f, (), r.0),
            r.1.pipeline == inst.pipeline,
            r.1.logs == inst.logs,
            r.1.worker.pending@.len() == 0,
            r.1.worker.written@ == inst.worker.written@ + inst.worker.pending@,
    {
        self.push_scoped(inst);
        let out = f();
        let popped = self.pop_scoped();
        proof {
            assert(old(self).scoped@.push(inst).drop_last() =~= old(self).scoped@);
        }
        match popped {
            Some(mut scoped_inst) => {
                release(guard, &mut scoped_inst.worker);
                (out, scoped_inst)
            },
            None => unreached(),
        }
    }
}

impl LifecycleManager {
    /// The global entry point: builds the pipeline from the raw
    /// configuration and the environment overrides, installs it as the
    /// process-wide destination, and returns the release guard, which
    /// the caller must keep for the process lifetime and release during
    /// shutdown.  A configuration error leaves the manager untouched and
    /// installs nothing.
    pub fn init_global(
        &mut self,
        app_name: Option<&str>,
        raw: Option<RawTelemetryConfig>,
        default_env: Option<String>,
        trace_env: Option<String>,
    ) -> (r: Result<(ReleaseGuard, ResolvedDirectives), ConfigError>)
        requires
            old(self).global is None,
        ensures
            r is Ok <==> spec_validate_telemetry_config(raw) is Ok,
            r matches Err(e) ==> spec_validate_telemetry_config(raw) == Err::<
                Option<TelemetryConfig>,
                ConfigError,
            >(e) && *final(self) == *old(self),
            r matches Ok(t) ==> final(self).scoped@ == old(self).scoped@ && final(self).global
                is Some && built_ok(
                final(self).global.unwrap(),
                t.1,
                (match spec_validate_telemetry_config(raw) {
                    Ok(Some(c)) => c.trace,
                    _ => None,
                }),
                (match app_name {
                    Some(s) => s@,
                    None => "dozer"@,
                }),
                default_env,
                trace_env,
            ),
    {
        match build_installation(app_name, raw, default_env, trace_env) {
            Ok((inst, guard, directives)) => {
                self.install_global(inst);
                Ok((guard, directives))
            },
            Err(e) => Err(e),
        }
    }

    /// The scoped entry point: builds the pipeline, activates it only
    /// for the supplied unit of work, restores the previous destination,
    /// and releases the guard before handing the unit's result back.  A
    /// configuration error leaves the manager untouched and runs
    /// nothing.
    pub fn run_scoped<T, F: FnOnce() -> T>(
        &mut self,
        app_name: Option<&str>,
        raw: Option<RawTelemetryConfig>,
        default_env: Option<String>,
        trace_env: Option<String>,
        f: F,
    ) -> (r: Result<(T, Installation, ResolvedDirectives), ConfigError>)
        requires
            call_requires(f, ()),
        ensures
            final(self).global == old(self).global,
            final(self).scoped@ == old(self).scoped@,
            r is Ok <==> spec_validate_telemetry_config(raw) is Ok,
            r matches Err(e) ==> spec_validate_telemetry_config(raw) == Err::<
                Option<TelemetryConfig>,
                ConfigError,
            >(e),
            r matches Ok(t) ==> call_ensures(f, (), t.0) && built_ok(
                t.1,
                t.2,
                (match spec_validate_telemetry_config(raw) {
                    Ok(Some(c)) => c.trace,
                    _ => None,
                }),
                (match app_name {
                    Some(s) => s@,
                    None => "dozer"@,
                }),
                default_env,
                trace_env,
            ),
    {
        match build_installation(app_name, raw, default_env, trace_env) {
            Ok((inst, guard, directives)) => {
                let (out, inst_back) = self.with_scoped(inst, guard, f);
                Ok((out, inst_back, directives))
            },
            Err(e) => Err(e),
        }
    }
}

/// Law: with no trace backend configured, tracing is fully disabled
/// downstream — dispatching events never records anything for a trace
/// sink, whatever the other sinks do.
pub proof fn lemma_no_tracing_records_no_trace_events(
    pre: Installation,
    post: Installation,
    e: Event,
    app: Seq<char>,
    console_filter: Filter,
    file_filter: Filter,
    trace_filter: Filter,
)
    requires
        composed(pre.pipeline, app, None, console_filter, file_filter, trace_filter),
        emit_step(pre, post, e),
    ensures
        post.logs.trace@ == pre.logs.trace@,
{
}

/// How a trace filter reflects its inputs: an override naming a plain
/// level wins; otherwise the filter is scoped to the fixed `dozer`
/// target at the most verbose level — the same reading the default
/// directive `"dozer=trace"` carries.
pub open spec fn trace_filter_resolved(tf: Filter, trace_env: Option<String>) -> bool {
    match trace_env {
        Some(s) => match crate::filter::spec_level_of_name(s@) {
            Some(l) => tf == (Filter { target: None, level: l }),
            None => tf.target matches Some(t) && t@ == "dozer"@ && tf.level == Level::Trace,
        },
        None => tf.target matches Some(t) && t@ == "dozer"@ && tf.level == Level::Trace,
    }
}

/// Everything a successful build hands back: a fresh installation whose
/// sinks have received nothing, its release guard's worker empty, the
/// pipeline composed from the validated configuration and the resolved
/// filters, and the three directive strings for the underlying filter
/// engine.
pub open spec fn built_ok(
    inst: Installation,
    directives: ResolvedDirectives,
    trace: Option<TraceConfig>,
    app: Seq<char>,
    default_env: Option<String>,
    trace_env: Option<String>,
) -> bool {
    &&& composed(
        inst.pipeline,
        app,
        trace,
        spec_resolve_level_filter(default_env, Filter { target: None, level: Level::Info }),
        spec_resolve_level_filter(default_env, Filter { target: None, level: Level::Info }),
        spec_pipeline_trace_filter(inst.pipeline),
    )
    &&& trace is Some ==> trace_filter_resolved(
        spec_pipeline_trace_filter(inst.pipeline),
        trace_env,
    )
    &&& inst.logs.console@.len() == 0
    &&& inst.logs.trace@.len() == 0
    &&& inst.worker.pending@.len() == 0
    &&& inst.worker.written@.len() == 0
    &&& directives.console@ == spec_resolve_directive(default_env, "info"@)
    &&& directives.file_log@ == directives.console@
    &&& directives.trace@ == spec_resolve_directive(trace_env, "dozer=trace"@)
}

/// The filter of a pipeline's trace layer, when one is attached.
pub open spec fn spec_pipeline_trace_filter(p: Pipeline) -> Filter {
    sink_filter(p.sinks@[2])
}

/// Builds everything needed to install telemetry: validates the raw
/// configuration, resolves the per-sink filters and directive strings,
/// and composes the pipeline with a fresh file worker and its guard.
///
/// A configuration error is reported synchronously and nothing is built:
/// a partial pipeline is never handed out.
pub fn build_installation(
    app_name: Option<&str>,
    raw: Option<RawTelemetryConfig>,
    default_env: Option<String>,
    trace_env: Option<String>,
) -> (r: Result<(Installation, ReleaseGuard, ResolvedDirectives), ConfigError>)
    ensures
        r matches Err(e) ==> spec_validate_telemetry_config(raw) == Err::<
            Option<TelemetryConfig>,
            ConfigError,
        >(e),
        r is Ok <==> spec_validate_telemetry_config(raw) is Ok,
        r matches Ok(t) ==> built_ok(
            t.0,
            t.2,
            (match spec_validate_telemetry_config(raw) {
                Ok(Some(c)) => c.trace,
                _ => None,
            }),
            (match app_name {
                Some(s) => s@,
                None => "dozer"@,
            }),
            default_env,
            trace_env,
        ),
{
    let cfg = match validate_telemetry_config(raw) {
        Ok(c) => c,
        Err(e) => {
            return Err(e);
        },
    };
    let app = resolve_app_name(app_name);
    let console_filter = resolve_level_filter(
        clone_env(&default_env),
        Filter::for_level(Level::Info),
    );
    let file_filter = resolve_level_filter(
        clone_env(&default_env),
        Filter::for_level(Level::Info),
    );
    let trace_filter = resolve_level_filter(
        clone_env(&trace_env),
        Filter::for_target(String::from_str("dozer"), Level::Trace),
    );
    let directives = resolve_directives(default_env, trace_env);
    let trace_cfg: Option<TraceConfig> = match cfg {
        Some(c) => c.trace,
        None => None,
    };
    let pipeline = compose(app.as_str(), &trace_cfg, console_filter, file_filter, trace_filter);
    let installation = Installation {
        pipeline,
        logs: SinkLogs { console: Vec::new(), trace: Vec::new() },
        worker: FileWorker::new(),
    };
    Ok((installation, ReleaseGuard::new(), directives))
}

/// A copy of an optional environment value.
fn clone_env(v: &Option<String>) -> (r: Option<String>)
    ensures
        r == *v,
{
    match v {
        Some(s) => Some(s.clone()),
        None => None,
    }
}

} // verus!
