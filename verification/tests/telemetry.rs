use rolldice_telemetry::batch::BatchQueue;
use rolldice_telemetry::batch::OverflowLogGate;
use rolldice_telemetry::batch::ExportStats;
use rolldice_telemetry::batch::SubmitOutcome;
use rolldice_telemetry::batch::TransportError;
use rolldice_telemetry::batch::should_flush;
use rolldice_telemetry::endpoint::parse_endpoint;
use rolldice_telemetry::handler::MachineAction;
use rolldice_telemetry::handler::RequestMachine;
use rolldice_telemetry::http::HttpMethod;
use rolldice_telemetry::http::HttpRequest;
use rolldice_telemetry::level::Level;
use rolldice_telemetry::pipeline::Disposition;
use rolldice_telemetry::pipeline::InitializationError;
use rolldice_telemetry::pipeline::PipelineConfig;
use rolldice_telemetry::pipeline::PipelineSlot;
use rolldice_telemetry::resource::resource;
use rolldice_telemetry::span::SpanRecord;

fn finished_spans(path: &str) -> Vec<SpanRecord> {
    let mut m = RequestMachine::new(HttpRequest { method: HttpMethod::Get, path: path.to_string() });
    let mut now = 0;
    loop {
        match m.step(now) {
            MachineAction::Sleep { millis } => now += millis,
            MachineAction::Done => break,
        }
    }
    m.trace.finished
}

fn config(endpoint: &str) -> PipelineConfig {
    PipelineConfig {
        threshold: Level::Info,
        endpoint: endpoint.to_string(),
        queue_capacity: 8,
        batch_size_threshold: 4,
        flush_interval_millis: 5_000,
    }
}

#[test]
fn queue_drops_newest_on_overflow_and_keeps_the_rest() {
    let spans = finished_spans("/rolldice");
    let mut q = BatchQueue::new(2);
    assert_eq!(q.submit(spans[0].clone()), SubmitOutcome::Accepted);
    assert_eq!(q.submit(spans[1].clone()), SubmitOutcome::Accepted);
    assert_eq!(q.submit(spans[2].clone()), SubmitOutcome::DroppedNewest);
    assert_eq!(q.buf.len(), 2);
    assert_eq!(q.dropped, 1);
    assert_eq!(q.buf[0], spans[0]);
    assert_eq!(q.buf[1], spans[1]);

    let batch = q.drain_batch();
    assert_eq!(batch.len(), 2);
    assert!(q.buf.is_empty());
    assert_eq!(q.dropped, 1);
}

#[test]
fn submit_all_keeps_the_longest_prefix_that_fits() {
    let spans = finished_spans("/rolldice");
    let mut q = BatchQueue::new(3);
    let accepted = q.submit_all(spans.clone());
    assert_eq!(accepted, 3);
    assert_eq!(q.buf.len(), 3);
    assert_eq!(q.dropped, 2);
    for i in 0..3 {
        assert_eq!(q.buf[i], spans[i]);
    }

    let mut roomy = BatchQueue::new(100);
    assert_eq!(roomy.submit_all(spans.clone()), 5);
    assert_eq!(roomy.buf.len(), 5);
    assert_eq!(roomy.dropped, 0);
}

#[test]
fn overflow_logging_is_rate_limited() {
    let mut gate = OverflowLogGate::new(1_000);
    assert!(gate.should_log(50));
    assert!(!gate.should_log(900));
    assert!(!gate.should_log(1_049));
    assert!(gate.should_log(1_050));
    assert!(!gate.should_log(1_100));
}

#[test]
fn a_finished_request_flows_into_the_exporter_queue() {
    let mut slot = PipelineSlot::new();
    slot.install(config("localhost:4317")).unwrap();
    let p = slot.installed.as_mut().unwrap();
    let spans = finished_spans("/rolldice");
    let accepted = p.export_spans(spans.clone());
    assert_eq!(accepted, 5);
    assert_eq!(p.queue.buf.len(), 5);
    assert_eq!(p.queue.buf[4], spans[4]);
}

#[test]
fn flush_on_size_or_interval_whichever_comes_first() {
    assert!(should_flush(4, 4, 0, 5_000));
    assert!(should_flush(0, 4, 5_000, 5_000));
    assert!(!should_flush(3, 4, 4_999, 5_000));
}

#[test]
fn transport_failure_is_counted_and_not_fatal() {
    let mut stats = ExportStats::new();
    stats.record(Ok(()));
    stats.record(Err(TransportError::ConnectionRefused));
    stats.record(Err(TransportError::Timeout));
    assert_eq!(stats.batches_sent, 1);
    assert_eq!(stats.batches_lost, 2);
}

#[test]
fn install_succeeds_once_and_only_once() {
    let mut slot = PipelineSlot::new();
    assert!(slot.install(config("localhost:4317")).is_ok());
    let p = slot.installed.as_ref().expect("pipeline is installed");
    assert_eq!(p.collector.host, "localhost");
    assert_eq!(p.collector.port, 4317);
    assert_eq!(p.threshold, Level::Info);
    assert_eq!(p.queue.capacity, 8);
    assert!(p.queue.buf.is_empty());

    assert_eq!(
        slot.install(config("localhost:4317")),
        Err(InitializationError::AlreadyInstalled)
    );
    assert!(slot.installed.is_some());
}

#[test]
fn malformed_endpoint_fails_installation() {
    let mut slot = PipelineSlot::new();
    assert_eq!(
        slot.install(config("localhost")),
        Err(InitializationError::InvalidEndpoint)
    );
    assert!(slot.installed.is_none());
}

#[test]
fn endpoint_parsing_accepts_exactly_host_colon_port() {
    let e = parse_endpoint("localhost:4317").expect("well formed");
    assert_eq!(e.host, "localhost");
    assert_eq!(e.port, 4317);

    let multi = parse_endpoint("collector.internal:443").expect("well formed");
    assert_eq!(multi.host, "collector.internal");
    assert_eq!(multi.port, 443);

    let nested = parse_endpoint("a:b:443").expect("the last colon splits");
    assert_eq!(nested.host, "a:b");
    assert_eq!(nested.port, 443);

    assert!(parse_endpoint("localhost").is_none());
    assert!(parse_endpoint(":4317").is_none());
    assert!(parse_endpoint("host:").is_none());
    assert!(parse_endpoint("host:12x").is_none());
    assert!(parse_endpoint("host:99999").is_none());
    assert!(parse_endpoint("host:000080").is_none());
    assert!(parse_endpoint("host:65535").is_some());
}

#[test]
fn severity_filter_orders_levels() {
    assert!(Level::Error.passes(Level::Info));
    assert!(Level::Info.passes(Level::Info));
    assert!(!Level::Debug.passes(Level::Info));
    assert!(!Level::Trace.passes(Level::Debug));
    assert!(Level::Warn.passes(Level::Trace));
}

#[test]
fn disposition_applies_the_layers_in_order() {
    let mut slot = PipelineSlot::new();
    slot.install(config("localhost:4317")).unwrap();
    let p = slot.installed.as_ref().unwrap();
    assert_eq!(p.disposition(Level::Debug, true), Disposition::Dropped);
    assert_eq!(p.disposition(Level::Debug, false), Disposition::Dropped);
    assert_eq!(p.disposition(Level::Info, true), Disposition::LoggedAndExported);
    assert_eq!(p.disposition(Level::Info, false), Disposition::LoggedOnly);
    assert_eq!(p.disposition(Level::Error, true), Disposition::LoggedAndExported);
}

#[test]
fn resource_keys_match_the_semantic_conventions() {
    let r = resource("dice-server", "0.1.0", "develop");
    assert_eq!(r.attrs.len(), 3);
    assert_eq!(
        r.attrs[0].key,
        opentelemetry_semantic_conventions::resource::SERVICE_NAME
    );
    assert_eq!(r.attrs[0].value, "dice-server");
    assert_eq!(
        r.attrs[1].key,
        opentelemetry_semantic_conventions::resource::SERVICE_VERSION
    );
    assert_eq!(r.attrs[2].key, "deployment.environment");
    assert_eq!(r.attrs[2].value, "develop");
    assert_eq!(r.schema_url, opentelemetry_semantic_conventions::SCHEMA_URL);
}
