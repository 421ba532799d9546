use dozer_tracing::filter::{
    Filter, Level, default_sink_directive, default_trace_directive, level_of_name,
    resolve_directive, resolve_directives, resolve_level_filter,
};

#[test]
fn level_names_parse_to_levels() {
    assert_eq!(level_of_name(&String::from("error")), Some(Level::Error));
    assert_eq!(level_of_name(&String::from("warn")), Some(Level::Warn));
    assert_eq!(level_of_name(&String::from("info")), Some(Level::Info));
    assert_eq!(level_of_name(&String::from("debug")), Some(Level::Debug));
    assert_eq!(level_of_name(&String::from("trace")), Some(Level::Trace));
    assert_eq!(level_of_name(&String::from("loud")), None);
    assert_eq!(level_of_name(&String::from("INFO")), None);
}

#[test]
fn model_filter_resolution_prefers_a_plain_level_override() {
    let default = Filter::for_level(Level::Info);
    let r = resolve_level_filter(Some(String::from("debug")), default);
    assert!(r.target.is_none());
    assert_eq!(r.level, Level::Debug);
}

#[test]
fn model_filter_resolution_falls_back_on_anything_else() {
    let r = resolve_level_filter(Some(String::from("loud")), Filter::for_level(Level::Info));
    assert!(r.target.is_none());
    assert_eq!(r.level, Level::Info);
    let r2 = resolve_level_filter(None, Filter::for_target(String::from("app"), Level::Trace));
    assert_eq!(r2.target.as_deref(), Some("app"));
    assert_eq!(r2.level, Level::Trace);
}

#[test]
fn filters_gate_by_level_and_target() {
    let f = Filter::for_level(Level::Info);
    assert!(f.enables(&String::from("anything"), Level::Error));
    assert!(f.enables(&String::from("anything"), Level::Info));
    assert!(!f.enables(&String::from("anything"), Level::Debug));

    let scoped = Filter::for_target(String::from("dozer"), Level::Trace);
    assert!(scoped.enables(&String::from("dozer"), Level::Trace));
    assert!(!scoped.enables(&String::from("other"), Level::Error));
}

#[test]
fn directive_resolution_keeps_a_parsable_override() {
    let r = resolve_directive(Some(String::from("debug")), default_sink_directive());
    assert_eq!(r, "debug");
    let scoped = resolve_directive(Some(String::from("myapp=warn")), default_sink_directive());
    assert_eq!(scoped, "myapp=warn");
}

#[test]
fn directive_resolution_falls_back_on_a_malformed_override() {
    // "=debug" names no target and is refused by the filter engine.
    let r = resolve_directive(Some(String::from("=debug")), default_sink_directive());
    assert_eq!(r, "info");
}

#[test]
fn directive_resolution_falls_back_on_a_non_ascii_override() {
    // The filter engine's parser is only safe on ASCII input: a leading
    // multi-byte whitespace character would make it panic.  Such an
    // override is treated as malformed and never reaches the engine.
    let r = resolve_directive(Some(String::from("\u{2000}a=b")), default_sink_directive());
    assert_eq!(r, "info");
    let r2 = resolve_directive(Some(String::from("caf\u{e9}=info")), default_sink_directive());
    assert_eq!(r2, "info");
}

#[test]
fn directive_resolution_falls_back_when_nothing_is_set() {
    let r = resolve_directive(None, default_trace_directive());
    assert_eq!(r, "dozer=trace");
}

#[test]
fn the_three_sink_directives_resolve_independently() {
    let r = resolve_directives(Some(String::from("warn")), None);
    assert_eq!(r.console, "warn");
    assert_eq!(r.file_log, "warn");
    assert_eq!(r.trace, "dozer=trace");

    let r2 = resolve_directives(Some(String::from("=bad")), Some(String::from("trace")));
    assert_eq!(r2.console, "info");
    assert_eq!(r2.file_log, "info");
    assert_eq!(r2.trace, "trace");
}
