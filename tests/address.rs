use dora_protocol_client::address::{
    log_stream_path, normalize_base_url, resolve_base_url, Transport, DEFAULT_PROTOCOL_URL,
};
use dora_protocol_client::error::{InterfaceError, ProtocolClientError};

#[test]
fn base_without_path_gets_root_slash() {
    let b = normalize_base_url("http://127.0.0.1:7267").expect("valid url");
    assert_eq!(b.path, "/");
    assert_eq!(b.href, "http://127.0.0.1:7267/");
}

#[test]
fn base_path_gains_trailing_slash_once() {
    let b = normalize_base_url("http://gateway.local/api/v2").expect("valid url");
    assert_eq!(b.path, "/api/v2/");
    assert_eq!(b.href, "http://gateway.local/api/v2/");
    let again = normalize_base_url(&b.href).expect("valid url");
    assert_eq!(again.href, b.href);
}

#[test]
fn malformed_base_is_rejected() {
    match normalize_base_url("not a url") {
        Err(ProtocolClientError::InvalidUrl(_)) => {}
        _ => panic!("expected an invalid url error"),
    }
    assert!(Transport::new("").is_err());
}

#[test]
fn endpoints_join_below_the_base() {
    let t = Transport::new("http://gateway.local/api").expect("valid url");
    assert_eq!(t.endpoint("/v1/dataflows").unwrap(), "http://gateway.local/api/v1/dataflows");
    assert_eq!(t.endpoint("v1/preferences/ui").unwrap(), "http://gateway.local/api/v1/preferences/ui");
    let root = Transport::new("http://127.0.0.1:7267").expect("valid url");
    assert_eq!(
        root.endpoint("/v1/telemetry/system/stream").unwrap(),
        "http://127.0.0.1:7267/v1/telemetry/system/stream"
    );
}

#[test]
fn error_messages_name_their_kind() {
    let e = ProtocolClientError::Http { status: Some(503), message: "unavailable".to_string() };
    assert_eq!(e.message(), "http request failed: unavailable");
    assert_eq!(ProtocolClientError::Io("reset".to_string()).message(), "stream error: reset");
    assert_eq!(
        ProtocolClientError::Deserialize("eof".to_string()).message(),
        "failed to decode response: eof"
    );
    assert_eq!(ProtocolClientError::Protocol("x".to_string()).message(), "protocol error: x");
    let bad = normalize_base_url("http://[::1").err().expect("invalid url");
    assert_eq!(bad.message(), "invalid base url: invalid IPv6 address");
    assert_eq!(
        InterfaceError::from_proto_error(ProtocolClientError::Io("gone".to_string())),
        InterfaceError::Message("stream error: gone".to_string())
    );
}

#[test]
fn base_url_defaults_when_unconfigured() {
    assert_eq!(resolve_base_url(None), "http://127.0.0.1:7267");
    assert_eq!(DEFAULT_PROTOCOL_URL, "http://127.0.0.1:7267");
    assert_eq!(resolve_base_url(Some("http://gw:1".to_string())), "http://gw:1");
}

#[test]
fn log_stream_path_names_the_dataflow() {
    assert_eq!(
        log_stream_path(0x67e5_5044_10b1_426f_9247_bb68_0e5f_e0c8),
        "/v1/logs/67e55044-10b1-426f-9247-bb680e5fe0c8/stream"
    );
}
