use storm_grok::error::ErrorKind;
use storm_grok::interceptor::{
    append_bytes, display_len, error_reply, forwarded_headers, is_framing, is_truncated,
    target_uri, MyCtx, INTERCEPTOR_PORT, MAX_BODY_LEN,
};
use storm_grok::traffic_log::{RequestCycle, RequestHead, ResponseHead, TrafficLog};

fn headers(pairs: &[(&str, &str)]) -> Vec<(String, String)> {
    pairs.iter().map(|(n, v)| (n.to_string(), v.to_string())).collect()
}

fn get_head() -> RequestHead {
    RequestHead {
        method: "GET".to_string(),
        uri: "/".to_string(),
        headers: headers(&[("host", "localhost")]),
    }
}

fn ok_head() -> ResponseHead {
    ResponseHead { status: 200, headers: headers(&[("content-length", "13")]) }
}

#[test]
fn framing_headers_are_recognised_in_any_case() {
    assert!(is_framing("content-length"));
    assert!(is_framing("Content-Length"));
    assert!(is_framing("CONTENT-LENGTH"));
    assert!(is_framing("transfer-encoding"));
    assert!(is_framing("Transfer-Encoding"));
    assert!(!is_framing("content-type"));
    assert!(!is_framing("content-length "));
    assert!(!is_framing("content_length"));
    assert!(!is_framing(""));
}

#[test]
fn forwarded_headers_drop_content_length_and_transfer_encoding() {
    let all = headers(&[
        ("content-type", "text/plain"),
        ("Content-Length", "13"),
        ("x-a", "1"),
        ("transfer-encoding", "chunked"),
        ("x-b", "2"),
        ("content-length", "14"),
    ]);
    let kept = forwarded_headers(&all);
    assert_eq!(kept, headers(&[("content-type", "text/plain"), ("x-a", "1"), ("x-b", "2")]));
}

#[test]
fn stripping_twice_changes_nothing() {
    let all = headers(&[("a", "1"), ("Transfer-Encoding", "gzip"), ("b", "2")]);
    let once = forwarded_headers(&all);
    assert_eq!(forwarded_headers(&once), once);
    assert_eq!(forwarded_headers(&vec![]), vec![]);
}

#[test]
fn target_uri_points_at_the_loopback_service() {
    assert_eq!(target_uri(2020, "/"), "http://127.0.0.1:2020/");
    assert_eq!(target_uri(2020, "/a/b?x=1&y=2"), "http://127.0.0.1:2020/a/b?x=1&y=2");
    assert_eq!(target_uri(80, ""), "http://127.0.0.1:80/");
    assert_eq!(target_uri(65535, "x"), "http://127.0.0.1:65535/x");
    assert_eq!(target_uri(1, "/"), "http://127.0.0.1:1/");
    assert_eq!(target_uri(0, "/"), "http://127.0.0.1:0/");
    assert_eq!(target_uri(10, "/"), "http://127.0.0.1:10/");
    assert_eq!(target_uri(6190, "/"), "http://127.0.0.1:6190/");
}

#[test]
fn each_failure_has_its_status() {
    assert_eq!(error_reply(ErrorKind::UpstreamBadUri).status, 400);
    assert_eq!(error_reply(ErrorKind::UpstreamBodyRead).status, 400);
    assert_eq!(error_reply(ErrorKind::UpstreamRefused).status, 404);
    assert_eq!(error_reply(ErrorKind::BridgeIo).status, 500);
    assert_eq!(error_reply(ErrorKind::QuicTransport).status, 500);
    assert_eq!(error_reply(ErrorKind::UpstreamBadUri).body, "Malformed target uri");
    assert_eq!(error_reply(ErrorKind::UpstreamBodyRead).body, "Could not read the body");
    assert_eq!(
        error_reply(ErrorKind::UpstreamRefused).body,
        "Could not connect to the target service"
    );
}

#[test]
fn display_is_cut_at_the_cap() {
    assert_eq!(MAX_BODY_LEN, 100000);
    assert_eq!(INTERCEPTOR_PORT, 6190);
    assert_eq!(display_len(0), 0);
    assert_eq!(display_len(99999), 99999);
    assert_eq!(display_len(100000), 100000);
    assert_eq!(display_len(100001), 100000);
    assert!(!is_truncated(99999));
    assert!(is_truncated(100000));
    assert!(is_truncated(100001));
}

#[test]
fn append_bytes_adds_at_the_end() {
    let mut buffer = b"Hello".to_vec();
    append_bytes(&mut buffer, b", World!");
    assert_eq!(buffer, b"Hello, World!".to_vec());
    append_bytes(&mut buffer, b"");
    assert_eq!(buffer, b"Hello, World!".to_vec());
}

#[test]
fn complete_exchange_is_recorded_as_one_cycle() {
    let mut log = TrafficLog::new();
    let mut capture = MyCtx::new();
    capture.on_request_at(1000, get_head(), Some(b"ask".to_vec()));
    capture.on_response_head(ok_head());
    assert!(!capture.on_response_body_at(Some(b"Hello, "), false, 1500, &mut log));
    assert_eq!(log.len(), 0);
    assert!(capture.on_response_body_at(Some(b"World!"), true, 2000, &mut log));
    assert_eq!(log.len(), 1);
    let cycle = &log.requests[0];
    assert_eq!(cycle.timestamp_in, 1000);
    assert_eq!(cycle.timestamp_out, 2000);
    assert_eq!(cycle.request_head.method, "GET");
    assert_eq!(cycle.request_head.uri, "/");
    assert_eq!(cycle.request_head.headers, headers(&[("host", "localhost")]));
    assert_eq!(cycle.request_body, b"ask".to_vec());
    assert_eq!(cycle.response_head.status, 200);
    assert_eq!(cycle.response_head.headers, headers(&[("content-length", "13")]));
    assert_eq!(cycle.response_body, b"Hello, World!".to_vec());
    assert!(capture.request_head.is_none());
    assert!(capture.response_head.is_none());
    assert!(capture.request_body.is_empty());
    assert!(capture.response_body.is_empty());
}

#[test]
fn end_of_stream_without_bytes_still_records() {
    let mut log = TrafficLog::new();
    let mut capture = MyCtx::new();
    capture.on_request_at(1, get_head(), None);
    capture.on_response_head(ok_head());
    assert!(capture.on_response_body_at(None, true, 2, &mut log));
    assert_eq!(log.len(), 1);
    assert_eq!(log.requests[0].request_body, Vec::<u8>::new());
    assert_eq!(log.requests[0].response_body, Vec::<u8>::new());
}

#[test]
fn partial_exchange_is_never_recorded() {
    let mut log = TrafficLog::new();
    let mut capture = MyCtx::new();
    assert!(!capture.on_response_body_at(Some(b"x"), true, 5, &mut log));
    capture.on_request_at(1, get_head(), None);
    assert!(!capture.on_response_body_at(Some(b"y"), true, 6, &mut log));
    assert_eq!(log.len(), 0);
    assert_eq!(capture.response_body, b"xy".to_vec());
    let mut capture = MyCtx::new();
    capture.on_response_head(ok_head());
    assert!(!capture.on_response_body_at(None, true, 7, &mut log));
    assert_eq!(log.len(), 0);
}

#[test]
fn capture_reads_the_clock() {
    let mut log = TrafficLog::new();
    let mut capture = MyCtx::new();
    capture.on_request(get_head(), None);
    let t_in = capture.timestamp_in.unwrap();
    assert!(t_in > 1_600_000_000_000);
    capture.on_response_head(ok_head());
    assert!(capture.on_response_body(Some(b"Hello, World!"), true, &mut log));
    assert_eq!(log.len(), 1);
    assert_eq!(log.requests[0].timestamp_in, t_in);
    assert!(log.requests[0].timestamp_out >= t_in);
}

#[test]
fn cycles_are_the_same_by_their_arrival_time() {
    let cycle = |t_in: i64, t_out: i64, status: u16| RequestCycle {
        timestamp_in: t_in,
        request_head: get_head(),
        request_body: vec![],
        timestamp_out: t_out,
        response_head: ResponseHead { status, headers: vec![] },
        response_body: vec![],
    };
    assert!(cycle(1, 2, 200) == cycle(1, 9, 404));
    assert!(cycle(1, 2, 200) != cycle(3, 2, 200));
}

#[test]
fn log_keeps_cycles_in_order_of_completion() {
    let mut log = TrafficLog::new();
    for (t_in, t_out) in [(1i64, 10i64), (2, 20), (5, 20), (3, 30)] {
        let mut capture = MyCtx::new();
        capture.on_request_at(t_in, get_head(), None);
        capture.on_response_head(ok_head());
        assert!(capture.on_response_body_at(None, true, t_out, &mut log));
    }
    assert_eq!(log.len(), 4);
    let outs: Vec<i64> = log.requests.iter().map(|c| c.timestamp_out).collect();
    assert_eq!(outs, vec![10i64, 20, 20, 30]);
    for pair in log.requests.windows(2) {
        assert!(pair[0].timestamp_out <= pair[1].timestamp_out);
    }
}

#[test]
fn snapshot_copies_the_log() {
    let mut log = TrafficLog::new();
    let mut capture = MyCtx::new();
    capture.on_request_at(1, get_head(), Some(b"q".to_vec()));
    capture.on_response_head(ok_head());
    capture.on_response_body_at(Some(b"a"), true, 2, &mut log);
    let copy = log.snapshot();
    capture.on_request_at(3, get_head(), None);
    capture.on_response_head(ok_head());
    capture.on_response_body_at(None, true, 4, &mut log);
    assert_eq!(copy.len(), 1);
    assert_eq!(log.len(), 2);
    assert_eq!(copy.requests[0].timestamp_in, 1);
    assert_eq!(copy.requests[0].timestamp_out, 2);
    assert_eq!(copy.requests[0].request_head.method, "GET");
    assert_eq!(copy.requests[0].request_head.headers, headers(&[("host", "localhost")]));
    assert_eq!(copy.requests[0].request_body, b"q".to_vec());
    assert_eq!(copy.requests[0].response_head.status, 200);
    assert_eq!(copy.requests[0].response_body, b"a".to_vec());
}
