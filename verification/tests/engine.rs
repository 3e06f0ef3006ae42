//! The engine's decision logic: backpressure, polling, completion, and
//! result assembly.

use httpstat::{
    complete_transfer, interpret_completion, parse_header_block, poll_step, upload_data_source,
    Collector, Config, DataSource, HttpstatError, PollStep, Timing,
};

fn config_with(max: Option<usize>, data: Option<&str>) -> Config {
    let mut c = Config::default();
    c.max_response_size = max;
    c.data = data.map(|d| d.to_string());
    c
}

#[test]
fn sink_reports_zero_once_ceiling_crossed() {
    let config = config_with(Some(10), None);
    let mut collector = Collector::new(&config);
    let accepted = collector.write(&[7u8; 15]);
    assert!(accepted < 15);
    assert_eq!(accepted, 0);
    let completion = interpret_completion(Some((true, "write failure".to_string())));
    match completion {
        Err(HttpstatError::MaxSizeExceeded) => {}
        _ => panic!("a write-callback failure must be reported as the size bound"),
    }
}

#[test]
fn sink_accepts_whole_chunk_under_ceiling() {
    let config = config_with(Some(10), None);
    let mut collector = Collector::new(&config);
    assert_eq!(collector.write(&[1u8; 4]), 4);
    assert_eq!(collector.write(&[2u8; 6]), 6);
    assert_eq!(collector.write(&[3u8; 1]), 0);
}

#[test]
fn sink_without_ceiling_accepts_everything() {
    let config = config_with(None, None);
    let mut collector = Collector::new(&config);
    assert_eq!(collector.write(&[9u8; 100000]), 100000);
}

#[test]
fn source_hands_out_body_in_order_then_nothing() {
    let config = config_with(None, Some("hello"));
    let mut collector = Collector::new(&config);
    assert_eq!(collector.read(2), b"he".to_vec());
    assert_eq!(collector.read(10), b"llo".to_vec());
    assert_eq!(collector.read(5), Vec::<u8>::new());
}

#[test]
fn source_without_body_yields_nothing() {
    let config = config_with(None, None);
    let mut collector = Collector::new(&config);
    assert_eq!(collector.read(8), Vec::<u8>::new());
}

#[test]
fn header_sink_always_accepts() {
    let config = config_with(Some(1), None);
    let mut collector = Collector::new(&config);
    assert!(collector.header(&[b'a'; 500]));
    assert!(collector.header(&[b'b'; 500]));
}

#[test]
fn poll_step_repolls_while_running() {
    assert!(matches!(poll_step(Ok(2)), PollStep::Repoll));
    assert!(matches!(poll_step(Ok(1)), PollStep::Repoll));
}

#[test]
fn poll_step_finishes_at_zero() {
    assert!(matches!(poll_step(Ok(0)), PollStep::Done));
}

#[test]
fn poll_step_carries_failure_description() {
    match poll_step(Err("socket torn down".to_string())) {
        PollStep::Fail(m) => assert_eq!(m, "socket torn down"),
        _ => panic!("a failed poll must fail the transfer"),
    }
}

#[test]
fn completion_without_error_is_success() {
    assert!(interpret_completion(None).is_ok());
}

#[test]
fn completion_keeps_transport_description() {
    match interpret_completion(Some((false, "connection timed out".to_string()))) {
        Err(HttpstatError::Transport(m)) => assert_eq!(m, "connection timed out"),
        _ => panic!("other failures must stay transport errors"),
    }
}

#[test]
fn error_messages() {
    assert_eq!(
        HttpstatError::MaxSizeExceeded.message(),
        "Maximum response size reached"
    );
    assert_eq!(
        HttpstatError::Transport("dns failure".to_string()).message(),
        "dns failure"
    );
    assert_eq!(
        HttpstatError::Configuration("bad url".to_string()).message(),
        "bad url"
    );
}

#[test]
fn block_parsing_is_idempotent() {
    let block = "HTTP/1.1 200 OK\r\nHost: example\r\nnoise\r\nAccept: */*\r\n\r\n";
    let (status_a, headers_a) = parse_header_block(block).unwrap();
    let (status_b, headers_b) = parse_header_block(block).unwrap();
    let a = status_a.unwrap();
    let b = status_b.unwrap();
    assert_eq!(a.http_version, b.http_version);
    assert_eq!(a.response_code, b.response_code);
    assert_eq!(a.response_message, b.response_message);
    assert_eq!(headers_a.len(), headers_b.len());
    for (x, y) in headers_a.iter().zip(headers_b.iter()) {
        assert_eq!(x.name, y.name);
        assert_eq!(x.value, y.value);
    }
    assert_eq!(headers_a.len(), 2);
    assert_eq!(headers_a[0].name, "Host");
    assert_eq!(headers_a[1].name, "Accept");
}

#[test]
fn block_takes_first_status_line() {
    let block = "HTTP/1.1 301 Moved\nHTTP/2 200\nServer: x\n";
    let (status, headers) = parse_header_block(block).unwrap();
    let s = status.unwrap();
    assert_eq!(s.response_code, 301);
    // The later status-like line holds no colon and is dropped.
    assert_eq!(headers.len(), 1);
    assert_eq!(headers[0].name, "Server");
}

#[test]
fn block_prefix_match_ignores_case() {
    let (status, _) = parse_header_block("http/1.0 204\n").unwrap();
    assert_eq!(status.unwrap().response_code, 204);
}

#[test]
fn block_with_malformed_status_fails() {
    let r = parse_header_block("HTTP/1.1 twohundred OK\n");
    match r {
        Err(HttpstatError::Parse(m)) => {
            assert_eq!(m, "invalid status line: HTTP/1.1 twohundred OK");
        }
        _ => panic!("a malformed status line is a hard parse error"),
    }
}

#[test]
fn transfer_without_status_line_keeps_headers() {
    let config = config_with(None, None);
    let mut collector = Collector::new(&config);
    collector.header(b"Foo: bar\r\n");
    collector.header(b"Baz: qux\r\n");
    collector.header(b"\r\n");
    collector.write(b"the body");
    let timing = Timing::new(1, 2, 3, 4, 5);
    let result = complete_transfer(collector, timing).unwrap();
    assert_eq!(result.response_code, -1);
    assert_eq!(result.http_version, "Unknown");
    assert_eq!(result.response_message, None);
    assert_eq!(result.headers.len(), 2);
    assert_eq!(result.headers[0].name, "Foo");
    assert_eq!(result.headers[0].value, "bar");
    assert_eq!(result.headers[1].name, "Baz");
    assert_eq!(result.headers[1].value, "qux");
    assert_eq!(result.body, b"the body".to_vec());
}

#[test]
fn transfer_with_status_line() {
    let config = config_with(None, None);
    let mut collector = Collector::new(&config);
    collector.header(b"HTTP/1.1 200 OK\r\n");
    collector.header(b"Content-Length: 2\r\n");
    collector.header(b"\r\n");
    collector.write(b"ok");
    let timing = Timing::new(10, 20, 30, 40, 50);
    let result = complete_transfer(collector, timing).unwrap();
    assert_eq!(result.response_code, 200);
    assert_eq!(result.http_version, "1.1");
    assert_eq!(result.response_message, Some("OK".to_string()));
    assert_eq!(result.headers.len(), 1);
    assert_eq!(result.timing, timing);
    assert_eq!(result.body, b"ok".to_vec());
}

#[test]
fn transfer_with_invalid_header_bytes_fails() {
    let config = config_with(None, None);
    let mut collector = Collector::new(&config);
    collector.header(&[0xffu8, 0xfe, 0x00]);
    let timing = Timing::new(0, 0, 0, 0, 0);
    match complete_transfer(collector, timing) {
        Err(HttpstatError::Parse(m)) => {
            assert_eq!(m, "header bytes are not valid text");
        }
        _ => panic!("header bytes that are not text must be a parse error"),
    }
}

#[test]
fn transfer_with_no_header_bytes_at_all() {
    let config = config_with(None, None);
    let collector = Collector::new(&config);
    let timing = Timing::new(0, 0, 0, 0, 0);
    let result = complete_transfer(collector, timing).unwrap();
    assert_eq!(result.response_code, -1);
    assert_eq!(result.http_version, "Unknown");
    assert_eq!(result.response_message, None);
    assert!(result.headers.is_empty());
    assert!(result.body.is_empty());
}

#[test]
fn duplicate_header_names_are_kept_in_order() {
    let block = "Set-Cookie: a=1\nSet-Cookie: b=2\n";
    let (status, headers) = parse_header_block(block).unwrap();
    assert!(status.is_none());
    assert_eq!(headers.len(), 2);
    assert_eq!(headers[0].value, "a=1");
    assert_eq!(headers[1].value, "b=2");
}

#[test]
fn data_argument_classification() {
    assert!(matches!(upload_data_source(None), DataSource::Absent));
    match upload_data_source(Some("plain body".to_string())) {
        DataSource::Inline(d) => assert_eq!(d, "plain body"),
        _ => panic!("a plain argument is the body itself"),
    }
    match upload_data_source(Some("@notes.txt".to_string())) {
        DataSource::FilePath(p) => assert_eq!(p, "notes.txt"),
        _ => panic!("an @-prefixed argument names a file"),
    }
}
