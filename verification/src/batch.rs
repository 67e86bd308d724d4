//! The exporter's bounded batch queue.
//!
//! Request tasks enqueue finished spans; one background task drains the
//! queue and transmits each batch.  Submission is a constant-time buffer
//! insert that never waits: on overflow the newest span is dropped and
//! counted, so the request path is never delayed by collector latency.
//! A failed transmission is recovered locally: the batch is discarded
//! and the service goes on.

use vstd::prelude::*;
use crate::span::SpanRecord;

verus! {

/// Why transmitting a batch failed.  Never fatal: the batch is dropped.
#[derive(Clone, Copy, Debug, PartialEq, Eq, Structural)]
pub enum TransportError {
    ConnectionRefused,
    Timeout,
}

/// What became of one submitted span.
#[derive(Clone, Copy, Debug, PartialEq, Eq, Structural)]
pub enum SubmitOutcome {
    /// The span sits at the tail of the queue.
    Accepted,
    /// The queue was full; this span was dropped and counted.
    DroppedNewest,
}

/// `a + b`, stopping at the largest counter value.
pub open spec fn sat_add(a: u64, b: nat) -> u64 {
    if a + b > u64::MAX {
        u64::MAX
    } else {
        (a + b) as u64
    }
}

/// The bounded buffer of finished spans awaiting export.
pub struct BatchQueue {
    /// Queued spans, oldest first; never reordered.
    pub buf: Vec<SpanRecord>,
    /// The most spans the queue ever holds.
    pub capacity: usize,
    /// How many spans overflow has dropped so far.
    pub dropped: u64,
}

impl BatchQueue {
    /// The queue never outgrows its capacity.
    pub open spec fn wf(self) -> bool {
        self.buf@.len() <= self.capacity
    }

    /// An empty queue with the given bound.
    pub fn new(capacity: usize) -> (r: BatchQueue)
        ensures
            r.wf(),
            r.capacity == capacity,
            r.buf@ == Seq::<SpanRecord>::empty(),
            r.dropped == 0,
    {
        BatchQueue { buf: Vec::new(), capacity, dropped: 0 }
    }

    /// Enqueue one finished span.  Constant-time and never waiting: a
    /// span that finds the queue full is dropped (drop-newest) and
    /// counted; the spans already queued are never lost or reordered.
    pub fn submit(&mut self, span: SpanRecord) -> (o: SubmitOutcome)
        requires
            old(self).wf(),
        ensures
            final(self).wf(),
            final(self).capacity == old(self).capacity,
            old(self).buf@.len() < old(self).capacity ==> o == SubmitOutcome::Accepted
                && final(self).buf@ == old(self).buf@.push(span) && final(self).dropped
                == old(self).dropped,
            old(self).buf@.len() >= old(self).capacity ==> o == SubmitOutcome::DroppedNewest
                && final(self).buf == old(self).buf && final(self).dropped == sat_add(
                old(self).dropped,
                1,
            ),
    {
        if self.buf.len() < self.capacity {
            self.buf.push(span);
            SubmitOutcome::Accepted
        } else {
            if self.dropped < u64::MAX {
                self.dropped = self.dropped + 1;
            }
            SubmitOutcome::DroppedNewest
        }
    }

    /// Enqueue a request's finished spans in order.  The longest prefix
    /// that fits is kept; the overflow is dropped and counted.  Returns
    /// how many spans were accepted.
    pub fn submit_all(&mut self, spans: Vec<SpanRecord>) -> (n: usize)
        requires
            old(self).wf(),
        ensures
            final(self).wf(),
            final(self).capacity == old(self).capacity,
            n as int == vstd::math::min(
                spans@.len() as int,
                old(self).capacity - old(self).buf@.len(),
            ),
            final(self).buf@ == old(self).buf@ + spans@.take(n as int),
            final(self).dropped == sat_add(old(self).dropped, (spans@.len() - n) as nat),
    {
        let ghost all = spans@;
        let mut rest = spans;
        let mut n: usize = 0;
        proof {
            assert(old(self).buf@ + all.take(0) =~= old(self).buf@);
        }
        while rest.len() != 0
            invariant
                self.wf(),
                self.capacity == old(self).capacity,
                rest@ == all.skip(all.len() - rest@.len()),
                n <= all.len() - rest@.len(),
                n as int == vstd::math::min(
                    (all.len() - rest@.len()) as int,
                    old(self).capacity - old(self).buf@.len(),
                ),
                self.buf@ == old(self).buf@ + all.take(n as int),
                self.dropped == sat_add(
                    old(self).dropped,
                    (all.len() - rest@.len() - n) as nat,
                ),
            decreases rest@.len(),
        {
            let ghost done = all.len() - rest@.len();
            let s = rest.remove(0);
            proof {
                assert(s == all[done as int]);
                assert(rest@ =~= all.skip(done + 1));
            }
            let o = self.submit(s);
            match o {
                SubmitOutcome::Accepted => {
                    n = n + 1;
                    proof {
                        assert(self.buf@ =~= old(self).buf@ + all.take(n as int));
                    }
                },
                SubmitOutcome::DroppedNewest => {
                    proof {
                        assert(self.buf@ =~= old(self).buf@ + all.take(n as int));
                    }
                },
            }
        }
        n
    }

    /// Hand the whole buffered batch over for transmission, leaving the
    /// queue empty.  The batch keeps the queue's order.
    pub fn drain_batch(&mut self) -> (batch: Vec<SpanRecord>)
        requires
            old(self).wf(),
        ensures
            final(self).wf(),
            final(self).capacity == old(self).capacity,
            final(self).dropped == old(self).dropped,
            batch@ == old(self).buf@,
            final(self).buf@ == Seq::<SpanRecord>::empty(),
    {
        let mut batch: Vec<SpanRecord> = Vec::new();
        core::mem::swap(&mut self.buf, &mut batch);
        batch
    }
}

/// Rate limit for overflow complaints, so a saturated queue cannot
/// cause a log storm: at most one line per window.
pub struct OverflowLogGate {
    /// The least time between two logged complaints, in milliseconds.
    pub window_millis: u64,
    /// When the last complaint was logged, if any.
    pub last: Option<u64>,
}

impl OverflowLogGate {
    /// A gate that has not logged yet.
    pub fn new(window_millis: u64) -> (r: OverflowLogGate)
        ensures
            r.window_millis == window_millis,
            r.last is None,
    {
        OverflowLogGate { window_millis, last: Option::None }
    }

    /// Should an overflow at `now` be logged?  Yes exactly when nothing
    /// was logged yet, or a full window has passed since the last line.
    pub fn should_log(&mut self, now: u64) -> (r: bool)
        ensures
            final(self).window_millis == old(self).window_millis,
            r == (match old(self).last {
                Option::None => true,
                Option::Some(t) => t + old(self).window_millis <= now,
            }),
            r ==> final(self).last == Option::Some(now),
            !r ==> final(self).last == old(self).last,
    {
        match self.last {
            Option::None => {
                self.last = Option::Some(now);
                true
            },
            Option::Some(t) => {
                if now >= t && now - t >= self.window_millis {
                    self.last = Option::Some(now);
                    true
                } else {
                    false
                }
            },
        }
    }
}

/// The background task flushes when the buffer has reached its size
/// threshold or the interval has elapsed, whichever comes first.
pub fn should_flush(
    len: usize,
    size_threshold: usize,
    elapsed_millis: u64,
    interval_millis: u64,
) -> (r: bool)
    ensures
        r == (len >= size_threshold || elapsed_millis >= interval_millis),
{
    len >= size_threshold || elapsed_millis >= interval_millis
}

/// Counters for the background transmitter.
#[derive(Clone, Copy, Debug, PartialEq, Eq, Structural)]
pub struct ExportStats {
    pub batches_sent: u64,
    pub batches_lost: u64,
}

impl ExportStats {
    /// Counters at startup.
    pub fn new() -> (r: ExportStats)
        ensures
            r.batches_sent == 0,
            r.batches_lost == 0,
    {
        ExportStats { batches_sent: 0, batches_lost: 0 }
    }

    /// Book one transmission attempt.  A failure only moves a counter:
    /// the batch is gone either way and the service is unaffected.
    pub fn record(&mut self, outcome: Result<(), TransportError>)
        ensures
            outcome is Ok ==> final(self).batches_sent == sat_add(old(self).batches_sent, 1)
                && final(self).batches_lost == old(self).batches_lost,
            outcome is Err ==> final(self).batches_lost == sat_add(old(self).batches_lost, 1)
                && final(self).batches_sent == old(self).batches_sent,
    {
        match outcome {
            Result::Ok(()) => {
                if self.batches_sent < u64::MAX {
                    self.batches_sent = self.batches_sent + 1;
                }
            },
            Result::Err(_) => {
                if self.batches_lost < u64::MAX {
                    self.batches_lost = self.batches_lost + 1;
                }
            },
        }
    }
}

} // verus!
