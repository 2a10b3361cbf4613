use pulse_client::duplex::{
    can_bump_port, connect_failed, generate_correlation_id, read_json_frame, CorrelationCounter,
    Frame, FrameStep, RecvStep,
};
use pulse_client::{derive_ws_url, DuplexChannel, PulseClient, PulseError, Value};

fn doc(text: &str) -> Value {
    serde_json::from_str(text).unwrap()
}

fn client() -> PulseClient {
    PulseClient::builder()
        .base_url("http://localhost:9090")
        .build()
        .ok()
        .unwrap()
}

#[test]
fn derive_http_to_ws_bumps_port() {
    let url = derive_ws_url("http://localhost:9090", "fraud", Some("ey.jwt"));
    assert_eq!(
        url,
        "ws://localhost:9091/api/pulse/agents/fraud/duplex?token=ey.jwt"
    );
}

#[test]
fn derive_https_to_wss() {
    let url = derive_ws_url("https://pulse.example.com:443", "pricing", None);
    assert_eq!(
        url,
        "wss://pulse.example.com:444/api/pulse/agents/pricing/duplex"
    );
}

#[test]
fn derive_default_port_when_absent() {
    // No explicit port: the host stays as it is.
    let url = derive_ws_url("http://localhost", "ab", None);
    assert_eq!(url, "ws://localhost/api/pulse/agents/ab/duplex");
}

#[test]
fn derive_encodes_agent_id_and_token() {
    let url = derive_ws_url("http://h:1000", "a/b c", Some("a=b&c"));
    assert_eq!(
        url,
        "ws://h:1001/api/pulse/agents/a%2Fb%20c/duplex?token=a%3Db%26c"
    );
}

#[test]
fn generated_ids_are_unique() {
    let mut counter = CorrelationCounter::new();
    let a = generate_correlation_id(&mut counter, 1_716_000_000_000);
    let b = generate_correlation_id(&mut counter, 1_716_000_000_000);
    assert_ne!(a, b);
    assert!(a.starts_with("pulse-"));
}

#[test]
fn duplex_url_http_bumps_port_and_carries_token() {
    let url = derive_ws_url("http://localhost:9090", "fraud", Some("ey.jwt"));
    assert_eq!(
        url,
        "ws://localhost:9091/api/pulse/agents/fraud/duplex?token=ey.jwt"
    );
}

#[test]
fn duplex_url_https_is_wss() {
    let url = derive_ws_url("https://h:443", "a", None);
    assert_eq!(url, "wss://h:444/api/pulse/agents/a/duplex");
}

#[test]
fn duplex_url_of_unusual_bases() {
    let url = |base: &str| derive_ws_url(base, "a", Some(""));
    let path = "/api/pulse/agents/a/duplex";
    assert_eq!(url("HTTPS://h:1"), format!("wss://h:2{path}"));
    assert_eq!(url("ftp://h:1"), format!("ws://h:2{path}"));
    assert_eq!(url("h:1"), format!("ws://h:2{path}"));
    assert_eq!(url("http://h:1/x?y#z"), format!("ws://h:2{path}"));
    assert_eq!(url("http://h:1?y"), format!("ws://h:2{path}"));
    assert_eq!(url("http://u:p@h:1"), format!("ws://h:2{path}"));
    assert_eq!(url("http://u@v@h"), format!("ws://h{path}"));
    assert_eq!(url("http://[::1]:9"), format!("ws://[::1]:10{path}"));
    assert_eq!(url("http://[::1]"), format!("ws://[::1]{path}"));
    assert_eq!(url("http://h:port"), format!("ws://h:port{path}"));
    assert_eq!(url("http://h:"), format!("ws://h:{path}"));
    assert_eq!(url("http://:80"), format!("ws://:80{path}"));
    assert_eq!(url("http://"), format!("ws://localhost{path}"));
    assert_eq!(url(""), format!("ws://localhost{path}"));
    assert_eq!(url("http://h:+5"), format!("ws://h:6{path}"));
    assert_eq!(url("http://h:0099"), format!("ws://h:100{path}"));
    assert_eq!(
        url("http://h:4294967294"),
        format!("ws://h:4294967295{path}")
    );
    assert_eq!(
        url("http://h:4294967296"),
        format!("ws://h:4294967296{path}")
    );
}

#[test]
fn largest_port_cannot_go_up() {
    assert!(can_bump_port("http://h:4294967294"));
    assert!(!can_bump_port("http://h:4294967295"));
    assert!(can_bump_port("http://h"));
}

#[test]
fn duplex_blank_agent_id_is_invalid_config() {
    let client = client();
    let err = client.duplex("   ").err().unwrap();
    assert!(matches!(err, PulseError::InvalidConfig(_)));
    let url = client.duplex("fraud").unwrap();
    assert_eq!(url, "ws://localhost:9091/api/pulse/agents/fraud/duplex");
    // The id is looked at before the port.
    let last = PulseClient::builder()
        .base_url("http://h:4294967295")
        .build()
        .ok()
        .unwrap();
    assert!(!can_bump_port(last.base_url()));
    let err = last.duplex("").err().unwrap();
    assert!(matches!(err, PulseError::InvalidConfig(_)));
}

#[test]
fn correlation_ids_are_hexadecimal() {
    let mut counter = CorrelationCounter::new();
    assert_eq!(generate_correlation_id(&mut counter, 0), "pulse-0-0");
    assert_eq!(generate_correlation_id(&mut counter, 255), "pulse-ff-1");
    for _ in 2..31 {
        generate_correlation_id(&mut counter, 1);
    }
    assert_eq!(
        generate_correlation_id(&mut counter, u128::MAX),
        "pulse-ffffffffffffffffffffffffffffffff-1f"
    );
}

const URL: &str = "ws://h/api/pulse/agents/fraud/duplex";

fn channel() -> DuplexChannel {
    DuplexChannel::connect(URL.to_string(), doc(r#"{ "type": "connected" }"#)).unwrap()
}

#[test]
fn duplex_round_trip() {
    let ch = channel();
    let mut counter = CorrelationCounter::new();
    let out = ch
        .send(&doc(r#"{ "amount": 5000 }"#), Some("tx-1"), &mut counter, 1)
        .unwrap();
    assert_eq!(out.correlation_id, "tx-1");
    let sent = doc(&out.text);
    assert_eq!(
        sent,
        doc(r#"{ "type": "send", "correlationId": "tx-1", "payload": { "amount": 5000 } }"#)
    );

    // The acknowledgement is passed over, the output is handed out.
    let ack = Frame::Text(r#"{ "type": "ack", "correlationId": "tx-1" }"#.to_string());
    assert!(matches!(ch.recv(ack), RecvStep::Skip));
    let frame = Frame::Text(
        r#"{
            "type": "output",
            "correlationId": "tx-1",
            "event": { "payload": { "decision": "DENY", "echo": 5000 } }
        }"#
        .to_string(),
    );
    match ch.recv(frame) {
        RecvStep::Output(out) => {
            assert_eq!(out.correlation_id.as_deref(), Some("tx-1"));
            assert_eq!(out.event["payload"]["decision"], "DENY");
            assert_eq!(out.event["payload"]["echo"], 5000);
        }
        other => panic!("expected an output, got {other:?}"),
    }

    // Without an id one is generated.
    let out = ch.send(&doc("1"), None, &mut counter, 16).unwrap();
    assert_eq!(out.correlation_id, "pulse-10-0");
    assert_eq!(doc(&out.text)["correlationId"], "pulse-10-0");
    let out = ch.send(&doc("1"), Some(""), &mut counter, 16).unwrap();
    assert_eq!(out.correlation_id, "pulse-10-1");
}

#[test]
fn duplex_server_error_frame_on_open_is_validation_error() {
    let err = DuplexChannel::connect(
        URL.to_string(),
        doc(r#"{ "type": "error", "error": "unknown agent" }"#),
    )
    .unwrap_err();
    assert!(matches!(err, PulseError::Validation { .. }));
    assert_eq!(err.path(), Some(URL));
    assert_eq!(err.body(), Some(&doc(r#""unknown agent""#)));
    // Without an `error` member the whole message is the body.
    let err = DuplexChannel::connect(URL.to_string(), doc(r#"{ "type": "error" }"#)).unwrap_err();
    assert_eq!(err.body(), Some(&doc(r#"{ "type": "error" }"#)));
}

#[test]
fn duplex_output_events_are_objects() {
    let ch = channel();
    let event = |msg: &str| match ch.on_message(doc(msg)) {
        RecvStep::Output(out) => (out.event, out.correlation_id),
        other => panic!("expected an output, got {other:?}"),
    };
    assert_eq!(
        event(r#"{ "type": "output", "event": {} }"#),
        (doc("{}"), None)
    );
    assert_eq!(
        event(r#"{ "type": "output", "event": [1], "correlationId": 5 }"#),
        (doc(r#"{ "value": [1] }"#), None)
    );
    assert_eq!(
        event(r#"{ "type": "output", "correlationId": "c" }"#),
        (doc("null"), Some("c".to_string()))
    );
}

#[test]
fn duplex_error_message_is_validation_error() {
    let ch = channel();
    match ch.on_message(doc(r#"{ "type": "error", "error": { "code": 1 } }"#)) {
        RecvStep::Fail(e) => {
            assert!(e.is_validation_error());
            assert_eq!(e.body(), Some(&doc(r#"{ "code": 1 }"#)));
            assert_eq!(e.path(), Some(URL));
        }
        other => panic!("expected a failure, got {other:?}"),
    }
    for msg in [r#"{ "type": "pong" }"#, r#"{ "type": 1 }"#, "7", "{}"] {
        assert!(matches!(ch.on_message(doc(msg)), RecvStep::Skip));
    }
}

#[test]
fn duplex_frames() {
    let ch = channel();
    assert_eq!(ch.url(), URL);
    for frame in [Frame::Ping, Frame::Pong, Frame::Raw] {
        assert!(matches!(ch.recv(frame), RecvStep::Skip));
    }
    let text = |frame: Frame| match ch.recv(frame) {
        RecvStep::Fail(PulseError::Duplex(text)) => text,
        other => panic!("expected a failure, got {other:?}"),
    };
    assert_eq!(
        text(Frame::Close("None".into())),
        format!("{URL} closed by server: None")
    );
    assert_eq!(text(Frame::Failed("reset".into())), format!("{URL}: reset"));
    assert_eq!(
        text(Frame::Ended),
        format!("{URL}: connection closed before a frame arrived")
    );
    assert!(matches!(
        ch.recv(Frame::Text("no json".into())),
        RecvStep::Fail(PulseError::Json(_))
    ));
    assert!(matches!(
        ch.recv(Frame::Binary(vec![0xff])),
        RecvStep::Fail(PulseError::Json(_))
    ));
    let bytes = br#"{ "type": "output", "event": { "a": 1 } }"#.to_vec();
    assert!(matches!(
        ch.recv(Frame::Binary(bytes)),
        RecvStep::Output(out) if out.event["a"] == 1
    ));
    assert!(matches!(
        read_json_frame(URL, Frame::Text("[1]".into())),
        FrameStep::Message(v) if v == doc("[1]")
    ));
}

#[test]
fn duplex_failures_name_the_channel() {
    let ch = channel();
    let text = |e: PulseError| match e {
        PulseError::Duplex(text) => text,
        other => panic!("expected a duplex error, got {other:?}"),
    };
    assert_eq!(text(connect_failed("ws://h", "no")), "connect ws://h: no");
    assert_eq!(text(ch.send_failed("no")), format!("send on {URL}: no"));
    assert_eq!(text(ch.close_failed("no")), format!("close {URL}: no"));
}
