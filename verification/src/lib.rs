//! A process-wide observability pipeline.
//!
//! The crate composes multiple telemetry sinks — console output, a rotating
//! on-disk log, and an optional distributed-trace exporter — each gated by
//! its own verbosity filter, and manages the lifecycle of whichever trace
//! backend is configured.  Two lifecycle modes are supported: a global,
//! singleton installation that lives for the whole process, and a scoped
//! installation that applies only for the duration of a single unit of work
//! and restores the previously active pipeline afterwards.
//!
//! The modules mirror the stages of the pipeline:
//! - [`config`]: configuration values and their validation,
//! - [`filter`]: per-sink verbosity filters and their resolution from
//!   environment-style overrides,
//! - [`sampler`]: the parent-based ratio sampler for trace roots,
//! - [`batch`]: the batch span processor that buffers finished spans,
//! - [`pipeline`]: the sink composer and per-sink event dispatch,
//! - [`worker`]: the background file-writer queue and its release guard,
//! - [`lifecycle`]: global and scoped installation of a composed pipeline.

pub mod config;
pub mod filter;
pub mod sampler;
pub mod batch;
pub mod pipeline;
pub mod worker;
pub mod lifecycle;
