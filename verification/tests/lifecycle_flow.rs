use dozer_tracing::config::{
    AgentExporterConfig, ConfigError, InternalExporterConfig, RawTelemetryConfig, RawTraceConfig,
};
use dozer_tracing::filter::Level;
use dozer_tracing::lifecycle::{
    Installation, LifecycleManager, build_installation,
};
use dozer_tracing::pipeline::Event;
use dozer_tracing::worker::{ReleaseGuard, release};

fn built() -> (Installation, ReleaseGuard) {
    let (inst, guard, _directives) = build_installation(None, None, None, None).expect(
        "an absent configuration always builds",
    );
    (inst, guard)
}

fn info_event(message: &str) -> Event {
    Event { target: String::from("dozer"), level: Level::Info, message: String::from(message) }
}

fn console_messages(inst: &Installation) -> Vec<String> {
    inst.logs.console.iter().map(|e| e.message.clone()).collect()
}

#[test]
fn a_fresh_build_has_seen_nothing() {
    let (inst, _guard) = built();
    assert!(inst.logs.console.is_empty());
    assert!(inst.logs.trace.is_empty());
    assert!(inst.worker.pending.is_empty());
    assert!(inst.worker.written.is_empty());
    assert_eq!(inst.pipeline.sinks.len(), 2);
}

#[test]
fn build_reports_configuration_errors_and_builds_nothing() {
    let raw = RawTelemetryConfig {
        trace: Some(RawTraceConfig {
            internal: Some(InternalExporterConfig {
                sample_percent: 10,
                endpoint: String::from("e"),
            }),
            agent: Some(AgentExporterConfig { agent_endpoint: String::from("a") }),
        }),
    };
    let r = build_installation(Some("app"), Some(raw), None, None);
    assert!(matches!(r, Err(ConfigError::ExportersConflict)));
}

#[test]
fn released_lines_are_readable_after_release_returns() {
    let (mut inst, guard) = built();
    inst.emit(&info_event("one"));
    inst.emit(&info_event("two"));
    inst.emit(&info_event("three"));
    assert_eq!(inst.worker.pending, vec!["one", "two", "three"]);
    assert!(inst.worker.written.is_empty());
    release(guard, &mut inst.worker);
    assert!(inst.worker.pending.is_empty());
    assert_eq!(inst.worker.written, vec!["one", "two", "three"]);
}

#[test]
fn scoped_install_restores_the_previous_destination_exactly() {
    let mut mgr = LifecycleManager::new();
    let (global_inst, _global_guard) = built();
    mgr.install_global(global_inst);
    mgr.emit(&info_event("global before"));

    let (scoped_inst, scoped_guard) = built();
    mgr.push_scoped(scoped_inst);
    mgr.emit(&info_event("scoped only"));
    let scoped_back = mgr.pop_scoped().expect("the scoped installation comes back");
    drop(scoped_guard);

    mgr.emit(&info_event("global after"));
    let global_back = mgr.shutdown_global().expect("the global installation comes back");

    assert_eq!(console_messages(&scoped_back), vec!["scoped only"]);
    assert_eq!(console_messages(&global_back), vec!["global before", "global after"]);
}

#[test]
fn with_scoped_hands_the_result_back_and_flushes_the_worker() {
    let mut mgr = LifecycleManager::new();
    let (mut inst, guard) = built();
    inst.emit(&info_event("queued before the scope"));
    let (value, inst_back) = mgr.with_scoped(inst, guard, || 7);
    assert_eq!(value, 7);
    assert!(inst_back.worker.pending.is_empty());
    assert_eq!(inst_back.worker.written, vec!["queued before the scope"]);
    assert!(mgr.global.is_none());
    assert!(mgr.scoped.is_empty());
}

#[test]
fn a_failing_unit_of_work_still_tears_down_and_propagates_unchanged() {
    let mut mgr = LifecycleManager::new();
    let (global_inst, _global_guard) = built();
    mgr.install_global(global_inst);
    mgr.emit(&info_event("before"));

    let (inst, guard) = built();
    let (outcome, inst_back) = mgr.with_scoped(inst, guard, || {
        Err::<i32, String>(String::from("boom"))
    });
    assert_eq!(outcome, Err(String::from("boom")));
    assert!(inst_back.worker.pending.is_empty());

    // The previous destination is back in place after the failure.
    mgr.emit(&info_event("after"));
    let global_back = mgr.shutdown_global().expect("the global installation survives");
    assert_eq!(console_messages(&global_back), vec!["before", "after"]);
}

#[test]
fn the_trace_sink_records_its_scope_and_nothing_else() {
    let raw = RawTelemetryConfig {
        trace: Some(RawTraceConfig {
            internal: Some(InternalExporterConfig {
                sample_percent: 100,
                endpoint: String::from("http://collector"),
            }),
            agent: None,
        }),
    };
    // No overrides: the trace filter is scoped to the fixed "dozer"
    // target at the most verbose level — the same reading as the default
    // directive "dozer=trace" — and the other sinks sit at "info".
    let (mut inst, _guard, directives) =
        build_installation(Some("myapp"), Some(raw), None, None).expect("a valid configuration");
    assert_eq!(inst.pipeline.sinks.len(), 3);
    assert_eq!(directives.trace, "dozer=trace");

    inst.emit(&Event {
        target: String::from("dozer"),
        level: Level::Trace,
        message: String::from("span detail"),
    });
    inst.emit(&Event {
        target: String::from("elsewhere"),
        level: Level::Error,
        message: String::from("foreign"),
    });

    // The verbose event reaches only the trace sink; the foreign event
    // reaches every sink but the scoped trace layer.
    let traced: Vec<String> = inst.logs.trace.iter().map(|e| e.message.clone()).collect();
    assert_eq!(traced, vec!["span detail"]);
    assert_eq!(console_messages(&inst), vec!["foreign"]);
    assert_eq!(inst.worker.pending, vec!["foreign"]);
}

#[test]
fn the_global_entry_point_installs_and_returns_the_guard() {
    let mut mgr = LifecycleManager::new();
    let (guard, directives) =
        mgr.init_global(None, None, Some(String::from("warn")), None).expect("valid");
    assert_eq!(directives.console, "warn");
    assert!(mgr.global.is_some());
    mgr.emit(&Event {
        target: String::from("dozer"),
        level: Level::Warn,
        message: String::from("kept"),
    });
    let mut inst = mgr.shutdown_global().expect("installed above");
    release(guard, &mut inst.worker);
    assert_eq!(inst.worker.written, vec!["kept"]);
}

#[test]
fn the_scoped_entry_point_builds_runs_and_tears_down() {
    let mut mgr = LifecycleManager::new();
    let r = mgr.run_scoped(Some("job"), None, None, None, || 41 + 1);
    let (value, inst, _directives) = r.expect("valid configuration");
    assert_eq!(value, 42);
    assert!(inst.worker.pending.is_empty());
    assert!(mgr.global.is_none());
    assert!(mgr.scoped.is_empty());
}

#[test]
fn the_scoped_entry_point_reports_configuration_errors_and_runs_nothing() {
    let mut mgr = LifecycleManager::new();
    let raw = RawTelemetryConfig {
        trace: Some(RawTraceConfig {
            internal: Some(InternalExporterConfig {
                sample_percent: 400,
                endpoint: String::from("e"),
            }),
            agent: None,
        }),
    };
    let r = mgr.run_scoped(None, Some(raw), None, None, || -> i32 { panic!("must not run") });
    match r {
        Err(ConfigError::SamplePercentOutOfRange) => {}
        _ => panic!("an out-of-range percentage is a configuration error"),
    }
}

#[test]
fn global_shutdown_is_safe_with_nothing_installed() {
    let mut mgr = LifecycleManager::new();
    assert!(mgr.shutdown_global().is_none());
}

#[test]
fn events_below_a_sink_level_never_reach_that_sink() {
    let (mut inst, _guard) = built();
    // The default console and file filters sit at "info".
    inst.emit(&Event {
        target: String::from("dozer"),
        level: Level::Debug,
        message: String::from("too verbose"),
    });
    assert!(inst.logs.console.is_empty());
    assert!(inst.worker.pending.is_empty());
}
