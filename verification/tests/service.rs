use rolldice_telemetry::handler::MachineAction;
use rolldice_telemetry::handler::RequestMachine;
use rolldice_telemetry::http::HttpMethod;
use rolldice_telemetry::http::HttpRequest;
use rolldice_telemetry::http::HttpResponse;
use rolldice_telemetry::span::SpanKind;
use rolldice_telemetry::span::SpanName;
use rolldice_telemetry::span::SpanRecord;
use rolldice_telemetry::span::SpanStatus;

fn run_from(method: HttpMethod, path: &str, start: u64) -> RequestMachine {
    let mut m = RequestMachine::new(HttpRequest { method, path: path.to_string() });
    let mut now = start;
    loop {
        match m.step(now) {
            MachineAction::Sleep { millis } => {
                now += millis;
            }
            MachineAction::Done => break,
        }
    }
    m
}

fn run(method: HttpMethod, path: &str) -> RequestMachine {
    run_from(method, path, 1_000)
}

fn response(m: &RequestMachine) -> &HttpResponse {
    m.response.as_ref().expect("completed request has a response")
}

#[test]
fn get_rolldice_gives_200_and_digit_body() {
    let m = run(HttpMethod::Get, "/rolldice");
    let resp = response(&m);
    assert_eq!(resp.status, 200);
    assert_eq!(resp.body.len(), 2);
    assert!(resp.body[0] >= b'1' && resp.body[0] <= b'6');
    assert_eq!(resp.body[1], b'\n');
}

#[test]
fn get_unknown_gives_404_empty_body() {
    let m = run(HttpMethod::Get, "/unknown");
    let resp = response(&m);
    assert_eq!(resp.status, 404);
    assert!(resp.body.is_empty());
}

#[test]
fn post_rolldice_gives_404_like_a_wrong_path() {
    let by_method = run(HttpMethod::Post, "/rolldice");
    let by_path = run(HttpMethod::Get, "/missing");
    assert_eq!(response(&by_method).status, 404);
    assert!(response(&by_method).body.is_empty());
    assert_eq!(response(&by_path).status, 404);
    assert!(response(&by_path).body.is_empty());
}

#[test]
fn rolled_values_cover_the_whole_die() {
    let mut seen = [false; 7];
    for _ in 0..600 {
        let m = run(HttpMethod::Get, "/rolldice");
        let v = m.roll.expect("dice branch rolls");
        assert!((1..=6).contains(&v));
        seen[v as usize] = true;
        assert_eq!(response(&m).body[0], b'0' + v as u8);
    }
    for v in 1..=6 {
        assert!(seen[v], "value {v} never came up in 600 rolls");
    }
}

fn root_of(m: &RequestMachine) -> &SpanRecord {
    m.trace.finished.last().expect("completed request has spans")
}

#[test]
fn one_request_records_one_well_formed_span_tree() {
    let m = run(HttpMethod::Get, "/rolldice");
    let spans = &m.trace.finished;
    assert_eq!(spans.len(), 5);

    let root = root_of(&m);
    assert_eq!(root.parent, None);
    assert_eq!(root.kind, SpanKind::Server);
    assert_eq!(
        root.name,
        SpanName::Request { method: HttpMethod::Get, path: "/rolldice".to_string() }
    );
    assert_eq!(root.status, SpanStatus::Okay);

    for s in spans.iter() {
        assert!(s.start <= s.end);
        assert!(s.end <= root.end);
    }
    for s in spans.iter().take(4) {
        let p = s.parent.expect("only the root span has no parent");
        assert!(spans.iter().any(|t| t.id == p));
        assert_eq!(s.kind, SpanKind::Internal);
    }

    assert_eq!(spans[1].parent, Some(root.id));
    assert_eq!(spans[3].parent, Some(root.id));
    assert_eq!(spans[0].parent, Some(spans[1].id));
    assert_eq!(spans[2].parent, Some(spans[3].id));
    assert_eq!(spans[1].name, SpanName::Work { job: "uno".to_string() });
    assert_eq!(spans[3].name, SpanName::Work { job: "dos".to_string() });
    assert_eq!(spans[0].name, SpanName::Noop);
    assert_eq!(spans[2].name, SpanName::Noop);
}

#[test]
fn root_status_tracks_response_status() {
    let ok = run(HttpMethod::Get, "/rolldice");
    assert_eq!(root_of(&ok).status, SpanStatus::Okay);
    assert_eq!(response(&ok).status, 200);
    assert_eq!(root_of(&ok).events.len(), 1);

    let missing = run(HttpMethod::Get, "/nope");
    assert_eq!(
        root_of(&missing).status,
        SpanStatus::Error { message: "unknown path".to_string() }
    );
    assert_eq!(response(&missing).status, 404);
    assert_eq!(root_of(&missing).events.len(), 1);
}

#[test]
fn suspension_keeps_the_clock_and_span_bounds() {
    let m = run_from(HttpMethod::Get, "/rolldice", 10);
    let spans = &m.trace.finished;
    let root = root_of(&m);
    assert_eq!(root.start, 10);
    assert_eq!(root.end, 410);
    assert_eq!(spans[1].start, 10);
    assert_eq!(spans[1].end, 210);
    assert_eq!(spans[3].start, 210);
    assert_eq!(spans[3].end, 410);
}

#[test]
fn concurrent_requests_keep_their_span_trees_apart() {
    let n = 50;
    let mut machines: Vec<RequestMachine> = (0..n)
        .map(|i| {
            let path = if i % 2 == 0 { "/rolldice" } else { "/other" };
            RequestMachine::new(HttpRequest { method: HttpMethod::Get, path: path.to_string() })
        })
        .collect();

    let mut now = 5;
    let mut pending: Vec<usize> = (0..n).collect();
    while !pending.is_empty() {
        let mut still: Vec<usize> = Vec::new();
        for &i in &pending {
            match machines[i].step(now + i as u64) {
                MachineAction::Sleep { .. } => still.push(i),
                MachineAction::Done => {}
            }
        }
        now += 200;
        pending = still;
    }

    for (i, m) in machines.iter().enumerate() {
        let resp = m.response.as_ref().expect("each request is answered");
        let spans = &m.trace.finished;
        assert_eq!(spans.len(), 5);
        if i % 2 == 0 {
            assert_eq!(resp.status, 200);
        } else {
            assert_eq!(resp.status, 404);
        }
        let root = spans.last().unwrap();
        assert_eq!(root.parent, None);
        match &root.name {
            SpanName::Request { path, .. } => {
                let expected = if i % 2 == 0 { "/rolldice" } else { "/other" };
                assert_eq!(path, expected);
            }
            other => panic!("root span has the wrong name: {other:?}"),
        }
        for s in spans.iter().take(4) {
            let p = s.parent.unwrap();
            assert!(spans.iter().any(|t| t.id == p), "parent points into this tree");
        }
    }
}
