//! Per-sink verbosity filters and their resolution.
//!
//! Every sink carries a filter of its own, so filtering is never shared
//! or leaked between sinks.  Two representations live side by side:
//! [`Filter`] is the model the pipeline dispatches on (an optional target
//! scope plus a maximum verbosity level), while directive strings are what
//! the console and file sinks hand to the underlying filter engine.
//! Resolution never fails outward: a malformed override falls back to the
//! hard-coded default instead of propagating an error.

use vstd::prelude::*;

verus! {

/// Verbosity levels, most severe first.
#[derive(Clone, Copy, PartialEq, Eq, Structural, Debug)]
pub enum Level {
    Error,
    Warn,
    Info,
    Debug,
    Trace,
}

/// Rank of a level: `Error` is 0, `Trace` is 4.  An event passes a filter
/// when its rank does not exceed the filter's rank.
pub open spec fn level_rank(l: Level) -> int {
    match l {
        Level::Error => 0,
        Level::Warn => 1,
        Level::Info => 2,
        Level::Debug => 3,
        Level::Trace => 4,
    }
}

impl Level {
    /// Executable counterpart of [`level_rank`].
    pub fn rank(&self) -> (r: u8)
        ensures
            r as int == level_rank(*self),
    {
        match self {
            Level::Error => 0,
            Level::Warn => 1,
            Level::Info => 2,
            Level::Debug => 3,
            Level::Trace => 4,
        }
    }
}

/// A per-sink verbosity filter: events up to `level` pass; when `target`
/// is set, only events from that target pass at all.
#[derive(Clone, Debug)]
pub struct Filter {
    /// When present, the filter is scoped to this event target.
    pub target: Option<String>,
    /// The most verbose level this filter lets through.
    pub level: Level,
}

/// Whether a filter lets an event with the given target and level through.
pub open spec fn filter_enables(f: Filter, target: Seq<char>, level: Level) -> bool {
    &&& (match f.target {
        Some(t) => t@ == target,
        None => true,
    })
    &&& level_rank(level) <= level_rank(f.level)
}

impl Filter {
    /// An unscoped filter for the given level.
    pub fn for_level(level: Level) -> (r: Filter)
        ensures
            r.target is None,
            r.level == level,
    {
        Filter { target: None, level }
    }

    /// A filter scoped to one target, as in a `target=level` directive.
    pub fn for_target(target: String, level: Level) -> (r: Filter)
        ensures
            r.target == Some(target),
            r.level == level,
    {
        Filter { target: Some(target), level }
    }

    /// Executable counterpart of [`filter_enables`].
    pub fn enables(&self, target: &String, level: Level) -> (r: bool)
        ensures
            r == filter_enables(*self, target@, level),
    {
        let scope_ok = match &self.target {
            Some(t) => *t == *target,
            None => true,
        };
        scope_ok && level.rank() <= self.level.rank()
    }
}

/// The level named by a bare level directive, if any.
pub open spec fn spec_level_of_name(s: Seq<char>) -> Option<Level> {
    if s == "error"@ {
        Some(Level::Error)
    } else if s == "warn"@ {
        Some(Level::Warn)
    } else if s == "info"@ {
        Some(Level::Info)
    } else if s == "debug"@ {
        Some(Level::Debug)
    } else if s == "trace"@ {
        Some(Level::Trace)
    } else {
        None
    }
}

/// Parses a bare level name, the plain form of a filter directive.
pub fn level_of_name(s: &String) -> (r: Option<Level>)
    ensures
        r == spec_level_of_name(s@),
{
    if *s == String::from_str("error") {
        Some(Level::Error)
    } else if *s == String::from_str("warn") {
        Some(Level::Warn)
    } else if *s == String::from_str("info") {
        Some(Level::Info)
    } else if *s == String::from_str("debug") {
        Some(Level::Debug)
    } else if *s == String::from_str("trace") {
        Some(Level::Trace)
    } else {
        None
    }
}

/// What resolving one model filter yields: an override naming a plain
/// level wins; anything else falls back to the supplied default.
pub open spec fn spec_resolve_level_filter(env_value: Option<String>, default: Filter) -> Filter {
    match env_value {
        Some(s) => match spec_level_of_name(s@) {
            Some(l) => Filter { target: None, level: l },
            None => default,
        },
        None => default,
    }
}

/// Resolves one model filter: an override naming a plain level wins;
/// anything else falls back to the supplied default.  Never fails.
pub fn resolve_level_filter(env_value: Option<String>, default: Filter) -> (r: Filter)
    ensures
        r == spec_resolve_level_filter(env_value, default),
{
    match env_value {
        Some(s) => match level_of_name(&s) {
            Some(l) => Filter { target: None, level: l },
            None => default,
        },
        None => default,
    }
}

/// Whether a directive string is accepted by the filter engine that the
/// console and file sinks use.  The grammar is the engine's own and is
/// not restated here; the result depends on the string alone.
pub uninterp spec fn env_directive_ok(s: Seq<char>) -> bool;

/// Relies on `tracing_subscriber::EnvFilter::try_new`: whether a filter
/// directive parses is a function of the directive string alone.
///
/// The engine's parser indexes the untrimmed string with positions taken
/// from the trimmed one, so a directive whose leading whitespace is a
/// multi-byte character makes it panic on a char boundary; ASCII input
/// keeps every byte a boundary, so such strings are excluded here.  The
/// engine's grammar accepts a bare level name and a `target=level` pair,
/// which covers the two built-in defaults.
#[verifier::external_body]
fn directive_parses(s: &String) -> (r: bool)
    requires
        vstd::utf8::is_ascii_chars(s@),
    ensures
        r == env_directive_ok(s@),
        s@ == "info"@ ==> r,
        s@ == "dozer=trace"@ ==> r,
{
    tracing_subscriber::EnvFilter::try_new(s.as_str()).is_ok()
}

/// What resolving one directive string yields: an override is taken only
/// when it is pure ASCII and the engine accepts it.
pub open spec fn spec_resolve_directive(env_value: Option<String>, default: Seq<char>) -> Seq<
    char,
> {
    match env_value {
        Some(s) => if vstd::utf8::is_ascii_chars(s@) && env_directive_ok(s@) {
            s@
        } else {
            default
        },
        None => default,
    }
}

/// Resolves one directive string: an ASCII override that parses wins;
/// a missing or malformed override falls back to the default.  Never
/// fails, and a default the engine accepts yields a result it accepts.
pub fn resolve_directive(env_value: Option<String>, default: String) -> (r: String)
    ensures
        r@ == spec_resolve_directive(env_value, default@),
        env_directive_ok(default@) ==> env_directive_ok(r@),
{
    match env_value {
        Some(s) => {
            if s.is_ascii() && directive_parses(&s) {
                s
            } else {
                default
            }
        },
        None => default,
    }
}

/// The three independently resolved directive strings, one per sink.
pub struct ResolvedDirectives {
    pub console: String,
    pub file_log: String,
    pub trace: String,
}

/// The default directive for the console and file sinks.
pub fn default_sink_directive() -> (r: String)
    ensures
        r@ == "info"@,
{
    String::from_str("info")
}

/// The default directive for the trace sink, scoped to the application.
pub fn default_trace_directive() -> (r: String)
    ensures
        r@ == "dozer=trace"@,
{
    String::from_str("dozer=trace")
}

/// Resolves all three sink directives.
///
/// The console and file sinks share one environment override but are
/// resolved independently; the trace sink has an override of its own, so
/// no filter choice ever leaks from one sink to another.  Every resolved
/// directive is one the filter engine accepts: an override is kept only
/// after the engine took it, and the engine accepts both built-in
/// defaults.
pub fn resolve_directives(default_env: Option<String>, trace_env: Option<String>) -> (r:
    ResolvedDirectives)
    ensures
        r.console@ == spec_resolve_directive(default_env, "info"@),
        r.file_log@ == r.console@,
        r.trace@ == spec_resolve_directive(trace_env, "dozer=trace"@),
        env_directive_ok(r.console@),
        env_directive_ok(r.file_log@),
        env_directive_ok(r.trace@),
{
    proof {
        reveal_strlit("info");
        reveal_strlit("dozer=trace");
    }
    let sink_default_accepted = directive_parses(&default_sink_directive());
    let trace_default_accepted = directive_parses(&default_trace_directive());
    assert(sink_default_accepted && trace_default_accepted);
    let console = resolve_directive(
        match &default_env {
            Some(s) => Some(s.clone()),
            None => None,
        },
        default_sink_directive(),
    );
    let file_log = resolve_directive(default_env, default_sink_directive());
    let trace = resolve_directive(trace_env, default_trace_directive());
    ResolvedDirectives { console, file_log, trace }
}

} // verus!
