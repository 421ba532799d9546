//! The batch span processor.
//!
//! Finished spans are appended to a bounded buffer on the hot path, which
//! never blocks: when the buffer is full the oldest span is dropped and
//! counted.  A background task drains the buffer in batches no larger
//! than the configured batch size, with at most a bounded number of
//! concurrent export calls outstanding.  A batch whose export call fails
//! is dropped, not retried, and its spans are counted as lost, so a
//! telemetry failure never reaches the instrumented application.
//! Shutdown flushes within a bounded budget of export calls; spans
//! beyond the budget are discarded and counted as lost rather than
//! blocking shutdown indefinitely.

use vstd::prelude::*;

verus! {

/// Default largest number of spans handed to one export call.
pub const DEFAULT_MAX_EXPORT_BATCH_SIZE: usize = 512;

/// Default capacity of the span buffer.
pub const DEFAULT_MAX_QUEUE_SIZE: usize = 2048;

/// Default bound on concurrently outstanding export calls.
pub const DEFAULT_MAX_CONCURRENT_EXPORTS: usize = 5;

/// Tuning knobs of the batch span processor.
#[derive(Clone, Copy, Debug)]
pub struct BatchConfig {
    /// Largest number of spans handed to one export call.
    pub max_export_batch_size: usize,
    /// Capacity of the span buffer; beyond it the oldest span is dropped.
    pub max_queue_size: usize,
    /// Bound on export calls outstanding at any one time.
    pub max_concurrent_exports: usize,
}

/// Every knob must be at least one for the processor to make progress.
pub open spec fn batch_config_wf(c: BatchConfig) -> bool {
    c.max_export_batch_size >= 1 && c.max_queue_size >= 1 && c.max_concurrent_exports >= 1
}

impl Default for BatchConfig {
    /// The default configuration; the concurrent-export bound is the
    /// small final value, five.
    fn default() -> (r: BatchConfig)
        ensures
            r.max_export_batch_size == DEFAULT_MAX_EXPORT_BATCH_SIZE,
            r.max_queue_size == DEFAULT_MAX_QUEUE_SIZE,
            r.max_concurrent_exports == DEFAULT_MAX_CONCURRENT_EXPORTS,
            batch_config_wf(r),
    {
        BatchConfig {
            max_export_batch_size: DEFAULT_MAX_EXPORT_BATCH_SIZE,
            max_queue_size: DEFAULT_MAX_QUEUE_SIZE,
            max_concurrent_exports: DEFAULT_MAX_CONCURRENT_EXPORTS,
        }
    }
}

/// All spans carried by a run of export batches, in call order.
pub open spec fn concat_spans(batches: Seq<Vec<u64>>) -> Seq<u64>
    decreases batches.len(),
{
    if batches.len() == 0 {
        Seq::empty()
    } else {
        batches.first()@ + concat_spans(batches.drop_first())
    }
}

/// Appending one batch to a run appends its spans to the concatenation.
pub proof fn lemma_concat_spans_push(batches: Seq<Vec<u64>>, b: Vec<u64>)
    ensures
        concat_spans(batches.push(b)) == concat_spans(batches) + b@,
    decreases batches.len(),
{
    if batches.len() == 0 {
        assert(batches.push(b).drop_first() =~= Seq::<Vec<u64>>::empty());
        assert(concat_spans(Seq::<Vec<u64>>::empty()) =~= Seq::<u64>::empty());
        assert(batches.push(b).first() == b);
        assert(concat_spans(batches.push(b)) =~= concat_spans(batches) + b@);
    } else {
        assert(batches.push(b).drop_first() =~= batches.drop_first().push(b));
        lemma_concat_spans_push(batches.drop_first(), b);
        assert(concat_spans(batches.push(b)) =~= concat_spans(batches) + b@);
    }
}

/// A run of batches each no larger than `cap` carries at most
/// `batches.len() * cap` spans.
pub proof fn lemma_concat_spans_len_bound(batches: Seq<Vec<u64>>, cap: int)
    requires
        forall|i: int| 0 <= i < batches.len() ==> #[trigger] batches[i]@.len() <= cap,
        cap >= 0,
    ensures
        concat_spans(batches).len() <= batches.len() * cap,
    decreases batches.len(),
{
    if batches.len() == 0 {
    } else {
        assert(forall|i: int|
            0 <= i < batches.drop_first().len() ==> #[trigger] batches.drop_first()[i]@.len()
                <= cap);
        lemma_concat_spans_len_bound(batches.drop_first(), cap);
        assert(batches.len() * cap == (batches.len() - 1) * cap + cap) by (nonlinear_arith);
    }
}

/// Law: a run of export calls that together carry more spans than one
/// batch may hold must consist of more than one call.
pub proof fn lemma_overflowing_submission_splits_batches(batches: Seq<Vec<u64>>, cap: int)
    requires
        forall|i: int| 0 <= i < batches.len() ==> #[trigger] batches[i]@.len() <= cap,
        cap >= 0,
        concat_spans(batches).len() > cap,
    ensures
        batches.len() >= 2,
{
    if batches.len() == 0 {
        assert(concat_spans(batches).len() == 0);
    } else if batches.len() == 1 {
        assert(batches.drop_first().len() == 0);
        assert(concat_spans(batches.drop_first()) =~= Seq::<u64>::empty());
        assert(concat_spans(batches).len() == batches[0]@.len());
    }
}

/// The batch span processor: an ordered buffer of finished spans (kept as
/// their identifiers), the dropped-span counter, and the number of export
/// calls in flight.
#[derive(Debug)]
pub struct BatchProcessor {
    /// Finished spans awaiting export, oldest first.
    pub queue: Vec<u64>,
    /// Spans lost to buffer overflow, failed export calls, or the
    /// shutdown bound.
    pub dropped: u64,
    /// Export calls currently outstanding.
    pub in_flight: usize,
    /// The processor's tuning knobs, fixed at construction.
    pub config: BatchConfig,
}

impl BatchProcessor {
    /// The processor's invariant: the buffer respects its capacity and
    /// the in-flight count respects its bound.
    pub open spec fn wf(self) -> bool {
        &&& batch_config_wf(self.config)
        &&& self.queue@.len() <= self.config.max_queue_size
        &&& self.in_flight <= self.config.max_concurrent_exports
    }

    /// An export call may be dispatched when one more can be outstanding
    /// and either a full batch is buffered or a flush is forced on a
    /// non-empty buffer.
    pub open spec fn export_ready(self, force: bool) -> bool {
        &&& self.in_flight < self.config.max_concurrent_exports
        &&& (self.queue@.len() >= self.config.max_export_batch_size || (force && self.queue@.len()
            >= 1))
    }

    /// Size of the next batch: a full batch, or whatever remains.
    pub open spec fn next_batch_len(self) -> int {
        if self.queue@.len() < self.config.max_export_batch_size {
            self.queue@.len() as int
        } else {
            self.config.max_export_batch_size as int
        }
    }

    /// A fresh processor with an empty buffer.
    pub fn new(config: BatchConfig) -> (r: BatchProcessor)
        requires
            batch_config_wf(config),
        ensures
            r.wf(),
            r.queue@ == Seq::<u64>::empty(),
            r.dropped == 0,
            r.in_flight == 0,
            r.config == config,
    {
        BatchProcessor { queue: Vec::new(), dropped: 0, in_flight: 0, config }
    }

    /// Accepts one finished span on the hot path.  Never blocks and never
    /// fails: when the buffer is full, the oldest span makes room and is
    /// counted as dropped.
    pub fn submit(&mut self, span_id: u64)
        requires
            old(self).wf(),
            old(self).dropped < u64::MAX,
        ensures
            final(self).wf(),
            final(self).config == old(self).config,
            final(self).in_flight == old(self).in_flight,
            old(self).queue@.len() < old(self).config.max_queue_size ==> final(self).queue@
                == old(self).queue@.push(span_id) && final(self).dropped == old(self).dropped,
            old(self).queue@.len() == old(self).config.max_queue_size ==> final(self).queue@
                == old(self).queue@.drop_first().push(span_id) && final(self).dropped == old(self).dropped + 1,
    {
        if self.queue.len() == self.config.max_queue_size {
            let _ = self.queue.remove(0);
            self.dropped = self.dropped + 1;
            proof {
                assert(self.queue@ =~= old(self).queue@.drop_first());
            }
        }
        self.queue.push(span_id);
    }

    /// Takes the next batch for export, if one is due.  The batch is the
    /// oldest buffered prefix, never larger than the configured batch
    /// size; taking it books one more in-flight export call.
    pub fn take_batch(&mut self, force: bool) -> (r: Option<Vec<u64>>)
        requires
            old(self).wf(),
        ensures
            final(self).wf(),
            final(self).config == old(self).config,
            final(self).dropped == old(self).dropped,
            !old(self).export_ready(force) ==> r is None && final(self).queue@ == old(self).queue@ && final(self).in_flight == old(self).in_flight,
            old(self).export_ready(force) ==> (match r {
                Some(b) => b@ == old(self).queue@.take(old(self).next_batch_len()) && final(self).queue@ == old(self).queue@.skip(old(self).next_batch_len()) && final(self).in_flight == old(self).in_flight + 1 && 1 <= b@.len() <= old(self).config.max_export_batch_size,
                None => false,
            }),
    {
        let due = self.in_flight < self.config.max_concurrent_exports && (self.queue.len()
            >= self.config.max_export_batch_size || (force && self.queue.len() >= 1));
        if !due {
            return None;
        }
        let k = if self.queue.len() < self.config.max_export_batch_size {
            self.queue.len()
        } else {
            self.config.max_export_batch_size
        };
        let mut batch = self.queue.split_off(k);
        core::mem::swap(&mut self.queue, &mut batch);
        self.in_flight = self.in_flight + 1;
        proof {
            assert(batch@ =~= old(self).queue@.take(old(self).next_batch_len()));
            assert(self.queue@ =~= old(self).queue@.skip(old(self).next_batch_len()));
        }
        Some(batch)
    }

    /// Records the failure of one outstanding export call.  The batch
    /// was already taken off the buffer, so it is dropped rather than
    /// retried indefinitely; its spans are booked into the loss counter
    /// and the in-flight slot is released.  The failure itself never
    /// reaches the instrumented application.
    pub fn export_failed(&mut self, lost_spans: usize)
        requires
            old(self).wf(),
            old(self).in_flight >= 1,
            old(self).dropped + lost_spans <= u64::MAX,
        ensures
            final(self).wf(),
            final(self).config == old(self).config,
            final(self).queue@ == old(self).queue@,
            final(self).in_flight == old(self).in_flight - 1,
            final(self).dropped == old(self).dropped + lost_spans,
    {
        self.dropped = self.dropped + lost_spans as u64;
        self.in_flight = self.in_flight - 1;
    }

    /// Records the completion of one outstanding export call.
    pub fn export_done(&mut self)
        requires
            old(self).wf(),
            old(self).in_flight >= 1,
        ensures
            final(self).wf(),
            final(self).config == old(self).config,
            final(self).queue@ == old(self).queue@,
            final(self).dropped == old(self).dropped,
            final(self).in_flight == old(self).in_flight - 1,
    {
        self.in_flight = self.in_flight - 1;
    }

    /// The final flush at shutdown: drains the buffer into at most
    /// `max_batches` export batches, oldest first.  Spans beyond that
    /// budget are discarded and counted as lost, so shutdown completes
    /// within the bound instead of blocking on a slow backend.
    pub fn shutdown_flush(&mut self, max_batches: usize) -> (r: Vec<Vec<u64>>)
        requires
            old(self).wf(),
            old(self).dropped + old(self).queue@.len() <= u64::MAX,
        ensures
            final(self).wf(),
            final(self).config == old(self).config,
            final(self).in_flight == old(self).in_flight,
            final(self).queue@.len() == 0,
            r@.len() <= max_batches,
            forall|i: int|
                0 <= i < r@.len() ==> 1 <= #[trigger] r@[i]@.len() <= old(self).config.max_export_batch_size,
            concat_spans(r@) == old(self).queue@.take(concat_spans(r@).len() as int),
            final(self).dropped == old(self).dropped + old(self).queue@.len() - concat_spans(r@).len(),
            old(self).queue@.len() <= max_batches * old(self).config.max_export_batch_size
                ==> concat_spans(r@).len() == old(self).queue@.len(),
            old(self).queue@.len() > max_batches * old(self).config.max_export_batch_size
                ==> concat_spans(r@).len() == max_batches * old(self).config.max_export_batch_size,
    {
        let batch_size = self.config.max_export_batch_size;
        let mut out: Vec<Vec<u64>> = Vec::new();
        let mut done: usize = 0;
        while done < max_batches && self.queue.len() > 0
            invariant
                self.wf(),
                self.config == old(self).config,
                self.dropped == old(self).dropped,
                self.in_flight == old(self).in_flight,
                batch_size == self.config.max_export_batch_size,
                done <= max_batches,
                out@.len() == done,
                forall|i: int| 0 <= i < out@.len() ==> 1 <= #[trigger] out@[i]@.len() <= batch_size,
                concat_spans(out@) + self.queue@ =~= old(self).queue@,
                self.queue@.len() > 0 ==> concat_spans(out@).len() == done * batch_size,
            decreases max_batches - done,
        {
            let ghost pre = *self;
            let ghost out_pre = out@;
            let k = if self.queue.len() < batch_size {
                self.queue.len()
            } else {
                batch_size
            };
            let mut batch = self.queue.split_off(k);
            core::mem::swap(&mut self.queue, &mut batch);
            proof {
                lemma_concat_spans_push(out_pre, batch);
                assert(concat_spans(out_pre.push(batch)) + self.queue@ =~= old(self).queue@);
                if self.queue@.len() > 0 {
                    assert(k == batch_size);
                    assert((done + 1) * batch_size == done * batch_size + batch_size)
                        by (nonlinear_arith);
                }
            }
            out.push(batch);
            done = done + 1;
        }
        let lost = self.queue.len();
        self.dropped = self.dropped + lost as u64;
        self.queue.clear();
        proof {
            assert(concat_spans(out@) =~= old(self).queue@.take(concat_spans(out@).len() as int));
            lemma_concat_spans_len_bound(out@, batch_size as int);
            if lost > 0 {
                assert(done == max_batches);
            } else {
                assert(done * batch_size <= max_batches * batch_size) by (nonlinear_arith)
                    requires
                        done <= max_batches,
                        batch_size >= 0,
                ;
            }
        }
        out
    }
}

} // verus!
