use dora_protocol_client::error::ProtocolClientError;
use dora_protocol_client::sse::{decode_lines, read_next_event, LogStream, SystemMetricsStream};

fn reads_of(text: &str) -> Vec<Result<String, ProtocolClientError>> {
    text.lines().map(|l| Ok(l.to_string())).collect()
}

fn lines_of(text: &str) -> Vec<String> {
    text.lines().map(|l| l.to_string()).collect()
}

#[test]
fn parse_single_sse_event() {
    let data = "event: log\ndata: {\"message\":\"hello\"}\n\n";
    let lines = reads_of(data);
    let mut pos = 0usize;
    let mut buffer = Vec::new();

    let payload = read_next_event(&lines, &mut pos, &mut buffer)
        .expect("expected event")
        .expect("payload parse");

    assert_eq!(payload, "{\"message\":\"hello\"}");
}

fn drain_log(stream: &mut LogStream, text: &str) -> Vec<String> {
    let mut out = Vec::new();
    for line in text.lines() {
        if let Some(p) = stream.feed(line) {
            out.push(p);
        }
    }
    if let Some(p) = stream.finish() {
        out.push(p);
    }
    out
}

#[test]
fn log_stream_yields_structured_events() {
    let timestamp = chrono::Utc::now().to_rfc3339();
    let sse_frame = format!(
        "data: {{\"timestamp\":\"{timestamp}\",\"level\":\"INFO\",\"node\":null,\"line\":\"ready\"}}\n\n"
    );
    let mut stream = LogStream::new();
    let payloads = drain_log(&mut stream, &sse_frame);
    let event: serde_json::Value =
        serde_json::from_str(payloads.first().expect("event present")).expect("event parsed");
    assert_eq!(event["line"], "ready");
    assert_eq!(event["level"], "INFO");
    assert!(payloads.get(1).is_none());
}

#[test]
fn system_metrics_stream_parses_multiple_frames() {
    let timestamp = chrono::Utc::now().to_rfc3339();
    let payload = format!(
        "data: {{\"timestamp\":\"{timestamp}\",\"cpu_percent\":12.5,\"memory_percent\":42.0,\"total_memory_bytes\":8192,\"used_memory_bytes\":4096,\"load_average\":[0.1,0.2,0.3]}}\n\n\
         data: {{\"timestamp\":\"{timestamp}\",\"cpu_percent\":20.0,\"memory_percent\":50.0,\"total_memory_bytes\":8192,\"used_memory_bytes\":4096,\"load_average\":null}}\n\n"
    );
    let mut stream = SystemMetricsStream::new();
    let mut frames = Vec::new();
    for line in payload.lines() {
        if let Some(p) = stream.feed(line) {
            frames.push(p);
        }
    }
    assert!(stream.finish().is_none());

    let first: serde_json::Value =
        serde_json::from_str(frames.first().expect("first frame")).expect("first parsed");
    assert_eq!(first["cpu_percent"].as_f64(), Some(12.5));
    assert_eq!(first["memory_percent"].as_f64(), Some(42.0));

    let second: serde_json::Value =
        serde_json::from_str(frames.get(1).expect("second frame")).expect("second parsed");
    assert_eq!(second["cpu_percent"].as_f64(), Some(20.0));
    assert!(second["load_average"].is_null());

    assert!(frames.get(2).is_none());
}

#[test]
fn single_event_payload_is_text_after_marker() {
    let out = decode_lines(&lines_of("data: hello world\n\n"));
    assert_eq!(out, vec!["hello world".to_string()]);
}

#[test]
fn multi_line_event_joins_with_newlines() {
    let out = decode_lines(&lines_of("data: first\ndata: second\ndata:third\n\n"));
    assert_eq!(out, vec!["first\nsecond\nthird".to_string()]);
}

#[test]
fn two_events_arrive_in_order() {
    let out = decode_lines(&lines_of("data: a\n\nevent: x\ndata: b\n\n"));
    assert_eq!(out, vec!["a".to_string(), "b".to_string()]);
}

#[test]
fn empty_stream_has_no_events() {
    assert!(decode_lines(&Vec::new()).is_empty());
    assert!(decode_lines(&lines_of("\n\n\n")).is_empty());
}

#[test]
fn unterminated_event_is_flushed() {
    let out = decode_lines(&lines_of("data: x\ndata: y"));
    assert_eq!(out, vec!["x\ny".to_string()]);
}

#[test]
fn trailing_whitespace_and_comments_are_ignored() {
    let out = decode_lines(&lines_of(": comment\nid: 7\ndata:   padded  \r\n  \n"));
    assert_eq!(out, vec!["padded".to_string()]);
}

#[test]
fn read_error_is_returned_and_decoding_resumes() {
    let lines = vec![
        Ok("data: a".to_string()),
        Err(ProtocolClientError::Io("reset".to_string())),
        Ok("".to_string()),
    ];
    let mut pos = 0usize;
    let mut buffer = Vec::new();
    match read_next_event(&lines, &mut pos, &mut buffer) {
        Some(Err(ProtocolClientError::Io(m))) => assert_eq!(m, "reset"),
        _ => panic!("expected the read error"),
    }
    assert_eq!(pos, 2);
    assert_eq!(buffer, vec!["a".to_string()]);
    let next = read_next_event(&lines, &mut pos, &mut buffer);
    assert!(matches!(next, Some(Ok(ref p)) if p == "a"));
    assert!(read_next_event(&lines, &mut pos, &mut buffer).is_none());
}
