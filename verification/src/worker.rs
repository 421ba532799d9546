//! The background file-writer queue and its release guard.
//!
//! The file sink never writes to disk on the hot path: it enqueues each
//! rendered line with a non-blocking worker, and a background task drains
//! the queue.  Exactly one [`ReleaseGuard`] exists per pipeline build;
//! releasing it drains everything still pending, so every line enqueued
//! before the release is durably written when the release returns.  The
//! guard is consumed by the release, so it cannot be released twice.

use vstd::prelude::*;

verus! {

/// The background file writer: lines still queued, and lines already
/// written out, each in emission order.
#[derive(Debug)]
pub struct FileWorker {
    /// Lines enqueued by the file sink and not yet written.
    pub pending: Vec<String>,
    /// Lines already written out, oldest first.
    pub written: Vec<String>,
}

impl FileWorker {
    /// A fresh worker with nothing queued and nothing written.
    pub fn new() -> (r: FileWorker)
        ensures
            r.pending@ == Seq::<String>::empty(),
            r.written@ == Seq::<String>::empty(),
    {
        FileWorker { pending: Vec::new(), written: Vec::new() }
    }

    /// The producer side: queues one rendered line.  Never blocks and
    /// never fails; the line is appended after everything already queued.
    pub fn enqueue(&mut self, line: String)
        ensures
            final(self).pending@ == old(self).pending@.push(line),
            final(self).written@ == old(self).written@,
    {
        self.pending.push(line);
    }

    /// One step of the background task: writes the oldest pending line.
    pub fn work_one(&mut self)
        requires
            old(self).pending@.len() >= 1,
        ensures
            final(self).pending@ == old(self).pending@.drop_first(),
            final(self).written@ == old(self).written@.push(old(self).pending@.first()),
    {
        let line = self.pending.remove(0);
        self.written.push(line);
        proof {
            assert(self.pending@ =~= old(self).pending@.drop_first());
        }
    }
}

/// Ownership token for one background file writer.  Exactly one guard is
/// created per pipeline build; [`release`] consumes it, so a guard cannot
/// be released twice.
#[derive(Debug)]
pub struct ReleaseGuard {
    owner: (),
}

impl ReleaseGuard {
    /// Creates the guard paired with a freshly built worker.  One per
    /// pipeline build.
    pub(crate) fn new() -> ReleaseGuard {
        ReleaseGuard { owner: () }
    }
}

/// Releases the guard: drains the worker until nothing is pending, then
/// returns.  Every line enqueued before the release is present in the
/// written output afterwards, in emission order, after everything written
/// earlier.
pub fn release(guard: ReleaseGuard, worker: &mut FileWorker)
    ensures
        final(worker).pending@.len() == 0,
        final(worker).written@ == old(worker).written@ + old(worker).pending@,
{
    let _ = guard;
    while worker.pending.len() > 0
        invariant
            worker.written@ + worker.pending@ == old(worker).written@ + old(worker).pending@,
        decreases worker.pending@.len(),
    {
        let ghost w0 = worker.written@;
        let ghost p0 = worker.pending@;
        worker.work_one();
        proof {
            assert(p0 =~= seq![p0.first()] + p0.drop_first());
            assert(w0.push(p0.first()) =~= w0 + seq![p0.first()]);
            assert(worker.written@ + worker.pending@ =~= w0 + p0);
        }
    }
    proof {
        assert(worker.written@ =~= worker.written@ + worker.pending@);
    }
}

} // verus!
