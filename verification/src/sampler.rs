//! Parent-based ratio sampling for trace roots.
//!
//! A sampling decision is taken once, at the root of a trace, by comparing
//! the low 64 bits of the trace identifier against a threshold derived
//! from the configured percentage.  Every span inside a trace inherits the
//! root's decision, so a trace is either recorded whole or dropped whole,
//! never partially sampled.

use vstd::prelude::*;
use crate::config::sample_percent_valid;

verus! {

/// Number of distinct low-64-bit trace identifiers.
pub open spec fn trace_id_space() -> int {
    0x1_0000_0000_0000_0000
}

/// Trace identifiers strictly below this threshold are recorded.  The
/// threshold carves out the fraction `percent / 100` of the identifier
/// space.
pub open spec fn sample_threshold(percent: u32) -> int {
    percent * trace_id_space() / 100
}

/// The root sampling decision for one trace identifier.
pub open spec fn root_sampled(percent: u32, trace_id_low: u64) -> bool {
    (trace_id_low as int) < sample_threshold(percent)
}

/// A ratio sampler bound to one validated sample percentage.
#[derive(Clone, Copy, Debug)]
pub struct Sampler {
    percent: u32,
}

impl Sampler {
    /// The percentage this sampler was built from.
    pub closed spec fn spec_percent(self) -> u32 {
        self.percent
    }

    /// A sampler is well formed when its percentage is in `0..=100`.
    pub open spec fn wf(self) -> bool {
        sample_percent_valid(self.spec_percent())
    }

    /// Builds a sampler from an already validated percentage.
    pub fn new(percent: u32) -> (r: Sampler)
        requires
            sample_percent_valid(percent),
        ensures
            r.wf(),
            r.spec_percent() == percent,
    {
        Sampler { percent }
    }

    /// The percentage this sampler was built from.
    pub fn percent(&self) -> (r: u32)
        ensures
            r == self.spec_percent(),
    {
        self.percent
    }

    /// The sampling decision at a trace root: record the trace exactly
    /// when the low bits of its identifier fall below the threshold.
    pub fn should_sample_root(&self, trace_id_low: u64) -> (r: bool)
        requires
            self.wf(),
        ensures
            r == root_sampled(self.spec_percent(), trace_id_low),
    {
        let threshold: u128 = (self.percent as u128) * 0x1_0000_0000_0000_0000u128 / 100;
        (trace_id_low as u128) < threshold
    }

    /// The sampling decision for any span: a span with a parent inherits
    /// the parent's decision unchanged; only a root decides by ratio.
    pub fn should_sample(&self, parent_sampled: Option<bool>, trace_id_low: u64) -> (r: bool)
        requires
            self.wf(),
        ensures
            r == (match parent_sampled {
                Some(d) => d,
                None => root_sampled(self.spec_percent(), trace_id_low),
            }),
    {
        match parent_sampled {
            Some(d) => d,
            None => self.should_sample_root(trace_id_low),
        }
    }
}

/// Law: a zero percentage samples no trace at all.
pub proof fn lemma_percent_zero_samples_none(trace_id_low: u64)
    ensures
        !root_sampled(0, trace_id_low),
{
}

/// Law: a full percentage samples every trace.
pub proof fn lemma_percent_hundred_samples_all(trace_id_low: u64)
    ensures
        root_sampled(100, trace_id_low),
{
    assert(sample_threshold(100) == trace_id_space());
}

/// Law: raising the percentage never drops a trace that a lower
/// percentage recorded, so the sampled fraction grows with the
/// percentage.
pub proof fn lemma_sampling_monotone(p1: u32, p2: u32, trace_id_low: u64)
    requires
        p1 <= p2,
    ensures
        root_sampled(p1, trace_id_low) ==> root_sampled(p2, trace_id_low),
{
    assert(p1 * trace_id_space() <= p2 * trace_id_space()) by (nonlinear_arith)
        requires
            p1 <= p2,
    ;
    vstd::arithmetic::div_mod::lemma_div_is_ordered(
        p1 * trace_id_space(),
        p2 * trace_id_space(),
        100,
    );
}

} // verus!
