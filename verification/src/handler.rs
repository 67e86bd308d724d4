//! The per-request handler, as a state machine from timestamps to the
//! next action.  The caller performs the suspensions (the simulated
//! latency) between steps; the machine owns the span tree and the
//! response, so concurrent requests cannot see each other's context.
//!
//! One request runs: open the root span; run two units of work one after
//! the other, each opening and closing its own child span and a nested
//! no-op span, each suspending once; then answer — a dice roll for the
//! one configured route, not-found for everything else — and close the
//! root span with a status that matches the response.

use rand::Rng;
use vstd::prelude::*;
use vstd::string::StringExecFns;
use crate::http::HttpMethod;
use crate::http::HttpRequest;
use crate::http::HttpResponse;
use crate::http::is_dice_route;
use crate::http::not_found_response;
use crate::http::roll_response;
use crate::http::spec_is_dice_route;
use crate::http::spec_roll_body;
use crate::level::Level;
use crate::span::EventKind;
use crate::span::OpenSpan;
use crate::span::SpanEvent;
use crate::span::SpanKind;
use crate::span::SpanName;
use crate::span::SpanRecord;
use crate::span::SpanStatus;
use crate::span::TraceBuilder;

verus! {

/// How long each unit of work suspends, in milliseconds.
pub const WORK_DELAY_MILLIS: u64 = 200;

/// Where a request stands between dispatch and response.
#[derive(Clone, Copy, Debug, PartialEq, Eq, Structural)]
pub enum Phase {
    /// Accepted and dispatched; no span opened yet.
    Dispatched,
    /// Root span and first unit of work open; the task is suspended.
    FirstWork,
    /// Second unit of work open; the task is suspended.
    SecondWork,
    /// Every span closed and the response built.
    ResponseReady,
}

/// What the caller of `step` must do next.
#[derive(Clone, Copy, Debug, PartialEq, Eq, Structural)]
pub enum MachineAction {
    /// Suspend for this many milliseconds, then step again with a fresh
    /// timestamp.
    Sleep { millis: u64 },
    /// The response and the finished spans are ready.
    Done,
}

/// The state of one in-flight request.  Each request owns its machine,
/// so the active-span context of one task is invisible to every other.
pub struct RequestMachine {
    pub method: HttpMethod,
    pub path: String,
    pub phase: Phase,
    pub trace: TraceBuilder,
    pub response: Option<HttpResponse>,
    /// The value the die showed, once the dice branch has run.
    pub roll: Option<u64>,
}

impl RequestMachine {
    /// The root span as it sits open at the bottom of the stack.
    pub open spec fn wf_root_open(self, o: OpenSpan) -> bool {
        &&& o.id == 0
        &&& o.parent is None
        &&& o.name matches SpanName::Request { method: m, path: p } && m == self.method
            && p == self.path
        &&& o.kind == SpanKind::Server
        &&& o.events@ == Seq::<SpanEvent>::empty()
    }

    /// An open child span for a unit of work with the given job label.
    pub open spec fn wf_work_open(o: OpenSpan, id: u64, job: Seq<char>) -> bool {
        &&& o.id == id
        &&& o.parent == Option::Some(0u64)
        &&& o.name matches SpanName::Work { job: j } && j@ == job
        &&& o.kind == SpanKind::Internal
        &&& o.events@ == Seq::<SpanEvent>::empty()
    }

    /// The finished record of a unit of work with the given job label.
    pub open spec fn wf_work_record(r: SpanRecord, id: u64, job: Seq<char>) -> bool {
        &&& r.id == id
        &&& r.parent == Option::Some(0u64)
        &&& r.name matches SpanName::Work { job: j } && j@ == job
        &&& r.kind == SpanKind::Internal
        &&& r.status == SpanStatus::Unset
        &&& r.events@ == Seq::<SpanEvent>::empty()
    }

    /// The finished record of a nested no-op span under the given parent.
    pub open spec fn wf_noop_record(r: SpanRecord, id: u64, parent: u64) -> bool {
        &&& r.id == id
        &&& r.parent == Option::Some(parent)
        &&& r.name == SpanName::Noop
        &&& r.kind == SpanKind::Internal
        &&& r.status == SpanStatus::Unset
        &&& r.events@ == Seq::<SpanEvent>::empty()
    }

    /// Everything that holds of a finished request: the five records of
    /// the span tree, the response, and how the two agree.
    pub open spec fn wf_completed(self) -> bool {
        let fs = self.trace.finished@;
        let root = fs[4];
        &&& self.trace.stack@.len() == 0
        &&& self.trace.next_id == 5
        &&& fs.len() == 5
        &&& Self::wf_noop_record(fs[0], 2, 1)
        &&& Self::wf_work_record(fs[1], 1, "uno"@)
        &&& Self::wf_noop_record(fs[2], 4, 3)
        &&& Self::wf_work_record(fs[3], 3, "dos"@)
        &&& root.id == 0
        &&& root.parent is None
        &&& root.kind == SpanKind::Server
        &&& root.name matches SpanName::Request { method: m, path: p } && m == self.method
            && p == self.path
        &&& fs[0].end <= fs[1].end
        &&& fs[2].end <= fs[3].end
        &&& forall|i: int| 0 <= i < 5 ==> (#[trigger] fs[i]).end <= root.end
        &&& self.response is Some
        &&& self.wf_answer(self.response->Some_0, root)
    }

    /// How the response, the root span's status, the root span's one
    /// event and the rolled value agree, branch by branch.
    pub open spec fn wf_answer(self, resp: HttpResponse, root: SpanRecord) -> bool {
        if spec_is_dice_route(self.method, self.path@) {
            &&& self.roll matches Some(v) && 1 <= v <= 6 && resp.body@ == spec_roll_body(v)
                && root.events@[0].kind == (EventKind::Rolled { value: v })
            &&& resp.status == 200
            &&& root.status == SpanStatus::Okay
            &&& root.events@.len() == 1
            &&& root.events@[0].level == Level::Info
        } else {
            &&& self.roll is None
            &&& resp.status == 404
            &&& resp.body@ == Seq::<u8>::empty()
            &&& root.status matches SpanStatus::Error { message } && message@
                == "unknown path"@
            &&& root.events@.len() == 1
            &&& root.events@[0].level == Level::Error
            &&& root.events@[0].kind == (EventKind::UnknownPath { path: self.path })
        }
    }

    /// The machine's invariant, phase by phase.
    pub open spec fn wf(self) -> bool {
        let st = self.trace.stack@;
        let fs = self.trace.finished@;
        &&& self.trace.wf()
        &&& match self.phase {
            Phase::Dispatched => {
                &&& st.len() == 0
                &&& fs.len() == 0
                &&& self.trace.next_id == 0
                &&& self.response is None
                &&& self.roll is None
            },
            Phase::FirstWork => {
                &&& st.len() == 2
                &&& self.wf_root_open(st[0])
                &&& Self::wf_work_open(st[1], 1, "uno"@)
                &&& fs.len() == 1
                &&& Self::wf_noop_record(fs[0], 2, 1)
                &&& self.trace.next_id == 3
                &&& self.response is None
                &&& self.roll is None
            },
            Phase::SecondWork => {
                &&& st.len() == 2
                &&& self.wf_root_open(st[0])
                &&& Self::wf_work_open(st[1], 3, "dos"@)
                &&& fs.len() == 3
                &&& Self::wf_noop_record(fs[0], 2, 1)
                &&& Self::wf_work_record(fs[1], 1, "uno"@)
                &&& Self::wf_noop_record(fs[2], 4, 3)
                &&& fs[0].end <= fs[1].end
                &&& self.trace.next_id == 5
                &&& self.response is None
                &&& self.roll is None
            },
            Phase::ResponseReady => self.wf_completed(),
        }
    }

    /// A request has been answered once it reaches its final phase.
    pub open spec fn completed(self) -> bool {
        self.phase is ResponseReady
    }

    /// A machine for a freshly dispatched request.
    pub fn new(req: HttpRequest) -> (r: RequestMachine)
        ensures
            r.wf(),
            r.phase is Dispatched,
            r.method == req.method,
            r.path == req.path,
    {
        RequestMachine {
            method: req.method,
            path: req.path,
            phase: Phase::Dispatched,
            trace: TraceBuilder::new(),
            response: Option::None,
            roll: Option::None,
        }
    }

    /// Drive the request one step further.  `now` is the current
    /// timestamp in milliseconds; after a `Sleep` action the caller
    /// suspends for that long and steps again.
    pub fn step(&mut self, now: u64) -> (a: MachineAction)
        requires
            old(self).wf(),
        ensures
            final(self).wf(),
            final(self).method == old(self).method,
            final(self).path == old(self).path,
            old(self).phase is Dispatched ==> final(self).phase is FirstWork && a
                == (MachineAction::Sleep { millis: WORK_DELAY_MILLIS }),
            old(self).phase is FirstWork ==> final(self).phase is SecondWork && a
                == (MachineAction::Sleep { millis: WORK_DELAY_MILLIS }),
            old(self).phase is SecondWork ==> final(self).completed() && a is Done,
            old(self).phase is ResponseReady ==> *final(self) == *old(self) && a is Done,
    {
        match self.phase {
            Phase::Dispatched => {
                self.trace.observe(now);
                self.trace.open(
                    SpanName::Request { method: self.method, path: self.path.clone() },
                    SpanKind::Server,
                );
                self.trace.open(
                    SpanName::Work { job: String::from_str("uno") },
                    SpanKind::Internal,
                );
                self.trace.open(SpanName::Noop, SpanKind::Internal);
                self.trace.close(SpanStatus::Unset);
                self.phase = Phase::FirstWork;
                MachineAction::Sleep { millis: WORK_DELAY_MILLIS }
            },
            Phase::FirstWork => {
                self.trace.observe(now);
                self.trace.close(SpanStatus::Unset);
                self.trace.open(
                    SpanName::Work { job: String::from_str("dos") },
                    SpanKind::Internal,
                );
                self.trace.open(SpanName::Noop, SpanKind::Internal);
                self.trace.close(SpanStatus::Unset);
                self.phase = Phase::SecondWork;
                MachineAction::Sleep { millis: WORK_DELAY_MILLIS }
            },
            Phase::SecondWork => {
                self.trace.observe(now);
                self.trace.close(SpanStatus::Unset);
                if is_dice_route(self.method, &self.path) {
                    let v = roll_die();
                    self.trace.add_event(Level::Info, EventKind::Rolled { value: v });
                    self.response = Option::Some(roll_response(v));
                    self.roll = Option::Some(v);
                    self.trace.close(SpanStatus::Okay);
                } else {
                    self.trace.add_event(
                        Level::Error,
                        EventKind::UnknownPath { path: self.path.clone() },
                    );
                    self.response = Option::Some(not_found_response());
                    self.trace.close(SpanStatus::Error {
                        message: String::from_str("unknown path"),
                    });
                }
                self.phase = Phase::ResponseReady;
                MachineAction::Done
            },
            Phase::ResponseReady => MachineAction::Done,
        }
    }
}

/// Law: a finished request has recorded exactly one root span, closed
/// last: its parent is none and every other record's parent is the
/// identifier of another record of the same request that closed no
/// earlier, so no child outlives its parent; every span's end lies
/// between its own start and the root's end; the root's status is OK
/// exactly when the response status is 200; and the response status is
/// 200 exactly when the request matched the one configured route.
pub proof fn lemma_completed_trace(m: RequestMachine)
    requires
        m.wf(),
        m.completed(),
    ensures
        m.trace.finished@.len() == 5,
        m.response is Some,
        forall|i: int| 0 <= i < 5 ==> (#[trigger] m.trace.finished@[i]).start
            <= m.trace.finished@[i].end,
        forall|i: int| 0 <= i < 5 ==> (#[trigger] m.trace.finished@[i]).end
            <= m.trace.finished@[4].end,
        m.trace.finished@[4].parent is None,
        m.trace.finished@[4].kind == SpanKind::Server,
        forall|i: int| 0 <= i < 4 ==> (#[trigger] m.trace.finished@[i]).parent is Some,
        forall|i: int| 0 <= i < 4 ==> exists|j: int|
            0 <= j < 5 && j != i && (#[trigger] m.trace.finished@[i]).parent
                == Option::Some(m.trace.finished@[j].id) && m.trace.finished@[i].end
                <= m.trace.finished@[j].end,
        (m.trace.finished@[4].status == SpanStatus::Okay) <==> (m.response->Some_0.status
            == 200),
        (m.response->Some_0.status == 200) <==> spec_is_dice_route(m.method, m.path@),
{
    let fs = m.trace.finished@;
    assert forall|i: int| 0 <= i < 4 implies exists|j: int|
        0 <= j < 5 && j != i && (#[trigger] fs[i]).parent == Option::Some(fs[j].id)
            && fs[i].end <= fs[j].end by {
        if i == 0 {
            assert(0 <= 1int < 5 && 1int != 0 && fs[0].parent == Option::Some(fs[1].id)
                && fs[0].end <= fs[1].end);
        } else if i == 1 {
            assert(0 <= 4int < 5 && 4int != 1 && fs[1].parent == Option::Some(fs[4].id)
                && fs[1].end <= fs[4].end);
        } else if i == 2 {
            assert(0 <= 3int < 5 && 3int != 2 && fs[2].parent == Option::Some(fs[3].id)
                && fs[2].end <= fs[3].end);
        } else {
            assert(0 <= 4int < 5 && 4int != 3 && fs[3].parent == Option::Some(fs[4].id)
                && fs[3].end <= fs[4].end);
        }
    }
}

/// Law: a successful response carries exactly one decimal digit between
/// `1` and `6` and a trailing newline, and the digit is the rolled value.
pub proof fn lemma_success_body(m: RequestMachine)
    requires
        m.wf(),
        m.completed(),
        m.response->Some_0.status == 200,
    ensures
        m.roll matches Some(v) && 1 <= v <= 6 && m.response->Some_0.body@ == seq![
            (v + 48) as u8,
            10u8,
        ],
        m.response->Some_0.body@.len() == 2,
        49 <= m.response->Some_0.body@[0] <= 54,
        m.response->Some_0.body@[1] == 10,
{
}

/// Relies on rand's `Rng::gen_range` on the range `1..7`, which samples
/// uniformly from the half-open range and panics only on an empty range.
#[verifier::external_body]
fn roll_die() -> (r: u64)
    ensures
        1 <= r <= 6,
{
    rand::thread_rng().gen_range(1..7u64)
}

} // verus!
