//! Assembly of the telemetry pipeline: the ordered chain every emitted
//! event passes through, installed exactly once per process.
//!
//! The layers apply in a fixed order: events below the severity
//! threshold are dropped; surviving events are formatted for local
//! output; surviving span events are also forwarded to the batching
//! exporter.  A second installation attempt fails rather than silently
//! replacing the first.

use vstd::prelude::*;
use crate::batch::BatchQueue;
use crate::endpoint::Endpoint;
use crate::endpoint::parse_endpoint;
use crate::endpoint::spec_endpoint_host;
use crate::endpoint::spec_endpoint_port;
use crate::endpoint::spec_valid_endpoint;
use crate::level::Level;

verus! {

/// Why startup failed.  Fatal: the process refuses to come up.
#[derive(Clone, Copy, Debug, PartialEq, Eq, Structural)]
pub enum InitializationError {
    /// A pipeline was already installed; the first one stays.
    AlreadyInstalled,
    /// The collector endpoint is not `host:port`.
    InvalidEndpoint,
}

/// What the pipeline is assembled from.
pub struct PipelineConfig {
    /// The least severe level that is recorded at all.
    pub threshold: Level,
    /// The collector endpoint, written `host:port`.
    pub endpoint: String,
    /// The most spans the batch queue holds.
    pub queue_capacity: usize,
    /// The queue size at which the exporter flushes early.
    pub batch_size_threshold: usize,
    /// How often the exporter flushes regardless of size.
    pub flush_interval_millis: u64,
}

/// The assembled pipeline: the severity filter and the exporter state.
pub struct TelemetryPipeline {
    pub threshold: Level,
    pub collector: Endpoint,
    pub queue: BatchQueue,
    pub batch_size_threshold: usize,
    pub flush_interval_millis: u64,
}

/// The process-wide slot the pipeline is installed into.  Set once at
/// startup; read-only afterwards.
pub struct PipelineSlot {
    pub installed: Option<TelemetryPipeline>,
}

/// What the pipeline does with one event.
#[derive(Clone, Copy, Debug, PartialEq, Eq, Structural)]
pub enum Disposition {
    /// Below the threshold: not recorded at all.
    Dropped,
    /// Recorded for local human-readable output only.
    LoggedOnly,
    /// Recorded locally and forwarded to the exporter.
    LoggedAndExported,
}

impl PipelineSlot {
    /// An empty slot, as the process starts.
    pub fn new() -> (r: PipelineSlot)
        ensures
            r.installed is None,
    {
        PipelineSlot { installed: Option::None }
    }

    /// Assemble the pipeline from `config` and install it.  Succeeds
    /// exactly once, on a well-formed endpoint: a second attempt fails
    /// with `AlreadyInstalled` and leaves the first pipeline in place; a
    /// malformed endpoint fails with `InvalidEndpoint` and installs
    /// nothing.
    pub fn install(&mut self, config: PipelineConfig) -> (r: Result<(), InitializationError>)
        ensures
            old(self).installed is Some ==> r == Result::<(), InitializationError>::Err(
                InitializationError::AlreadyInstalled,
            ) && final(self).installed == old(self).installed,
            old(self).installed is None && !spec_valid_endpoint(config.endpoint@) ==> r
                == Result::<(), InitializationError>::Err(
                InitializationError::InvalidEndpoint,
            ) && final(self).installed is None,
            old(self).installed is None && spec_valid_endpoint(config.endpoint@) ==> r
                is Ok && (final(self).installed matches Some(p) && {
                &&& p.threshold == config.threshold
                &&& p.collector.host@ == spec_endpoint_host(config.endpoint@)
                &&& p.collector.port as int == spec_endpoint_port(config.endpoint@)
                &&& p.queue.wf()
                &&& p.queue.capacity == config.queue_capacity
                &&& p.queue.buf@ == Seq::<crate::span::SpanRecord>::empty()
                &&& p.queue.dropped == 0
                &&& p.batch_size_threshold == config.batch_size_threshold
                &&& p.flush_interval_millis == config.flush_interval_millis
            }),

    {
        if self.installed.is_some() {
            return Result::Err(InitializationError::AlreadyInstalled);
        }
        let collector = match parse_endpoint(config.endpoint.as_str()) {
            Option::Some(e) => e,
            Option::None => {
                return Result::Err(InitializationError::InvalidEndpoint);
            },
        };
        let pipeline = TelemetryPipeline {
            threshold: config.threshold,
            collector,
            queue: BatchQueue::new(config.queue_capacity),
            batch_size_threshold: config.batch_size_threshold,
            flush_interval_millis: config.flush_interval_millis,
        };
        self.installed = Option::Some(pipeline);
        Result::Ok(())
    }
}

impl TelemetryPipeline {
    /// A finished request hands its span records to the exporter: a
    /// non-blocking enqueue of each record in order.  What does not fit
    /// is dropped (drop-newest) and counted; nothing already queued is
    /// lost or reordered.  Returns how many records were accepted.
    pub fn export_spans(&mut self, spans: Vec<crate::span::SpanRecord>) -> (n: usize)
        requires
            old(self).queue.wf(),
        ensures
            final(self).queue.wf(),
            final(self).threshold == old(self).threshold,
            final(self).collector == old(self).collector,
            final(self).batch_size_threshold == old(self).batch_size_threshold,
            final(self).flush_interval_millis == old(self).flush_interval_millis,
            final(self).queue.capacity == old(self).queue.capacity,
            n as int == vstd::math::min(
                spans@.len() as int,
                old(self).queue.capacity - old(self).queue.buf@.len(),
            ),
            final(self).queue.buf@ == old(self).queue.buf@ + spans@.take(n as int),
            final(self).queue.dropped == crate::batch::sat_add(
                old(self).queue.dropped,
                (spans@.len() - n) as nat,
            ),
    {
        self.queue.submit_all(spans)
    }

    /// Decide what happens to one event: dropped below the threshold;
    /// otherwise formatted locally, and forwarded to the exporter
    /// exactly when it is a span event.
    pub fn disposition(&self, level: Level, is_span: bool) -> (r: Disposition)
        ensures
            (r == Disposition::Dropped) <==> level.severity() < self.threshold.severity(),
            (r == Disposition::LoggedAndExported) <==> (level.severity()
                >= self.threshold.severity() && is_span),
            (r == Disposition::LoggedOnly) <==> (level.severity() >= self.threshold.severity()
                && !is_span),
    {
        if !level.passes(self.threshold) {
            Disposition::Dropped
        } else if is_span {
            Disposition::LoggedAndExported
        } else {
            Disposition::LoggedOnly
        }
    }
}

} // verus!
