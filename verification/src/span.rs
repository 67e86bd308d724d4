//! Spans and the per-request trace builder.
//!
//! A request opens a root span and nested child spans; spans close in
//! reverse order of opening and become read-only records handed to the
//! exporter.  The builder keeps the stack of open spans (the task-local
//! active-span context) and a monotone clock, so that every finished
//! record satisfies `start <= end` and closes no later than the clock.

use vstd::prelude::*;
use crate::level::Level;
use crate::http::HttpMethod;

verus! {

/// What kind of work a span records.
#[derive(Clone, Copy, Debug, PartialEq, Eq, Structural)]
pub enum SpanKind {
    /// The span that a server opens when it accepts a request.
    Server,
    /// A span for nested, internal work.
    Internal,
}

/// Final status of a finished span.
#[derive(Clone, Debug, PartialEq, Eq)]
pub enum SpanStatus {
    /// No status was recorded.
    Unset,
    /// The work succeeded.
    Okay,
    /// The work failed, with a message.
    Error { message: String },
}

/// Name of a span, kept as the data it is built from.
#[derive(Clone, Debug, PartialEq, Eq)]
pub enum SpanName {
    /// The root span of a request, named by method and path.
    Request { method: HttpMethod, path: String },
    /// A unit of simulated work, named by its job label.
    Work { job: String },
    /// A nested no-op, showing multi-level nesting.
    Noop,
}

/// What an event on a span carries.
#[derive(Clone, Debug, PartialEq, Eq)]
pub enum EventKind {
    /// A die was rolled and this value came up.
    Rolled { value: u64 },
    /// A request asked for a path that no route matches.
    UnknownPath { path: String },
}

/// An event recorded on the span that was active when it happened.
#[derive(Clone, Debug, PartialEq, Eq)]
pub struct SpanEvent {
    pub level: Level,
    pub kind: EventKind,
}

/// A finished span: a read-only record handed to the exporter.
#[derive(Clone, Debug, PartialEq, Eq)]
pub struct SpanRecord {
    /// Identifier, unique within one trace builder.
    pub id: u64,
    /// Identifier of the span that was active when this one opened.
    pub parent: Option<u64>,
    pub name: SpanName,
    pub kind: SpanKind,
    /// Timestamp at which the span opened, in milliseconds.
    pub start: u64,
    /// Timestamp at which the span closed; never before `start`.
    pub end: u64,
    pub status: SpanStatus,
    pub events: Vec<SpanEvent>,
}

/// A span that is still open, on the active-span stack.
#[derive(Clone, Debug, PartialEq, Eq)]
pub struct OpenSpan {
    pub id: u64,
    pub parent: Option<u64>,
    pub name: SpanName,
    pub kind: SpanKind,
    pub start: u64,
    pub events: Vec<SpanEvent>,
}

/// Builds the span tree of one request: a stack of open spans (the
/// active-span context of the task) and the records of closed ones.
pub struct TraceBuilder {
    /// Open spans, outermost first; the last is the active span.
    pub stack: Vec<OpenSpan>,
    /// Closed spans, in the order they closed.
    pub finished: Vec<SpanRecord>,
    /// The latest timestamp seen; never decreases.
    pub clock: u64,
    /// The identifier the next opened span will get.
    pub next_id: u64,
}

impl TraceBuilder {
    /// Every open span started no later than the clock, and every finished
    /// record lies within `start <= end <= clock`.
    pub open spec fn wf(self) -> bool {
        &&& forall|i: int| 0 <= i < self.finished@.len() ==> {
            let s = #[trigger] self.finished@[i];
            s.start <= s.end && s.end <= self.clock
        }
        &&& forall|i: int| 0 <= i < self.stack@.len() ==> (
            #[trigger] self.stack@[i]
        ).start <= self.clock
    }

    /// The identifier of the active span, if any: the parent for the next
    /// span to open.
    pub open spec fn spec_active_parent(self) -> Option<u64> {
        if self.stack@.len() == 0 {
            Option::None
        } else {
            Option::Some(self.stack@.last().id)
        }
    }

    /// A fresh builder: nothing open, nothing finished, clock at zero.
    pub fn new() -> (r: TraceBuilder)
        ensures
            r.wf(),
            r.stack@ == Seq::<OpenSpan>::empty(),
            r.finished@ == Seq::<SpanRecord>::empty(),
            r.clock == 0,
            r.next_id == 0,
    {
        TraceBuilder { stack: Vec::new(), finished: Vec::new(), clock: 0, next_id: 0 }
    }

    /// Feed the builder a timestamp.  The clock only moves forward: a
    /// stale timestamp (as after resuming on another worker) is ignored.
    pub fn observe(&mut self, now: u64)
        requires
            old(self).wf(),
        ensures
            final(self).wf(),
            final(self).stack == old(self).stack,
            final(self).finished == old(self).finished,
            final(self).next_id == old(self).next_id,
            final(self).clock == (if now >= old(self).clock {
                now
            } else {
                old(self).clock
            }),
    {
        if now >= self.clock {
            self.clock = now;
        }
    }

    /// Open a span as a child of the active span, at the current clock,
    /// and make it the active span.  Returns its identifier.
    pub fn open(&mut self, name: SpanName, kind: SpanKind) -> (id: u64)
        requires
            old(self).wf(),
            old(self).next_id < u64::MAX,
        ensures
            final(self).wf(),
            id == old(self).next_id,
            final(self).finished == old(self).finished,
            final(self).clock == old(self).clock,
            final(self).next_id == old(self).next_id + 1,
            final(self).stack@.len() == old(self).stack@.len() + 1,
            final(self).stack@.drop_last() == old(self).stack@,
            ({
                let o = final(self).stack@.last();
                &&& o.id == old(self).next_id
                &&& o.parent == old(self).spec_active_parent()
                &&& o.name == name
                &&& o.kind == kind
                &&& o.start == old(self).clock
                &&& o.events@ == Seq::<SpanEvent>::empty()
            }),
    {
        let parent: Option<u64> = if self.stack.len() == 0 {
            Option::None
        } else {
            Option::Some(self.stack[self.stack.len() - 1].id)
        };
        let id = self.next_id;
        self.next_id = self.next_id + 1;
        let span = OpenSpan {
            id,
            parent,
            name,
            kind,
            start: self.clock,
            events: Vec::new(),
        };
        self.stack.push(span);
        proof {
            assert(final(self).stack@.drop_last() =~= old(self).stack@);
        }
        id
    }

    /// Record an event on the active span.
    pub fn add_event(&mut self, level: Level, kind: EventKind)
        requires
            old(self).wf(),
            old(self).stack@.len() > 0,
        ensures
            final(self).wf(),
            final(self).finished == old(self).finished,
            final(self).clock == old(self).clock,
            final(self).next_id == old(self).next_id,
            final(self).stack@.len() == old(self).stack@.len(),
            final(self).stack@.drop_last() == old(self).stack@.drop_last(),
            ({
                let o = old(self).stack@.last();
                let n = final(self).stack@.last();
                &&& n.id == o.id
                &&& n.parent == o.parent
                &&& n.name == o.name
                &&& n.kind == o.kind
                &&& n.start == o.start
                &&& n.events@ == o.events@.push(SpanEvent { level, kind })
            }),
    {
        let mut top = self.stack.pop().unwrap();
        top.events.push(SpanEvent { level, kind });
        self.stack.push(top);
        proof {
            assert(final(self).stack@.drop_last() =~= old(self).stack@.drop_last());
        }
    }

    /// Close the active span at the current clock with the given status.
    /// Its record joins the finished list; the span below it (if any)
    /// becomes the active span again.
    pub fn close(&mut self, status: SpanStatus)
        requires
            old(self).wf(),
            old(self).stack@.len() > 0,
        ensures
            final(self).wf(),
            final(self).clock == old(self).clock,
            final(self).next_id == old(self).next_id,
            final(self).stack@ == old(self).stack@.drop_last(),
            final(self).finished@.len() == old(self).finished@.len() + 1,
            final(self).finished@.drop_last() == old(self).finished@,
            ({
                let o = old(self).stack@.last();
                let r = final(self).finished@.last();
                &&& r.id == o.id
                &&& r.parent == o.parent
                &&& r.name == o.name
                &&& r.kind == o.kind
                &&& r.start == o.start
                &&& r.end == old(self).clock
                &&& r.status == status
                &&& r.events@ == o.events@
            }),
    {
        let top = self.stack.pop().unwrap();
        let record = SpanRecord {
            id: top.id,
            parent: top.parent,
            name: top.name,
            kind: top.kind,
            start: top.start,
            end: self.clock,
            status,
            events: top.events,
        };
        self.finished.push(record);
        proof {
            assert(final(self).finished@.drop_last() =~= old(self).finished@);
        }
    }
}

} // verus!
