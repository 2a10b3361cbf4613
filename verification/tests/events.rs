use pulse_client::events::{StreamInput, StreamStep};
use pulse_client::{EventsStream, PulseClient, PulseError, Value};

fn doc(text: &str) -> Value {
    serde_json::from_str(text).unwrap()
}

fn new_client(token: Option<&str>) -> PulseClient {
    let builder = PulseClient::builder().base_url("http://localhost:9090");
    match token {
        Some(t) => builder.token(t).build().ok().unwrap(),
        None => builder.build().ok().unwrap(),
    }
}

/// All events of a stream that arrives in the given chunks and then ends.
fn events_of(chunks: &[&[u8]]) -> Vec<Value> {
    let client = new_client(Some("fake.jwt"));
    let mut stream = client.events().open(200, None, b"").unwrap();
    let mut out = Vec::new();
    let mut next = 0;
    loop {
        match stream.next_step() {
            StreamStep::Event(v) => out.push(v),
            StreamStep::Ended => return out,
            StreamStep::NeedInput => {
                let input = match chunks.get(next) {
                    Some(chunk) => StreamInput::Chunk(chunk.to_vec()),
                    None => StreamInput::End,
                };
                next += 1;
                assert!(stream.on_input(input).is_none());
            }
        }
    }
}

#[test]
fn events_stream_yields_parsed_events() {
    let sse_body = "data: {\"type\":\"fraud_signal\",\"payload\":{\"customerId\":\"c1\"}}\n\n\
         data: {\"type\":\"heartbeat\"}\n\n";
    let collected = events_of(&[sse_body.as_bytes()]);
    assert_eq!(collected.len(), 2);
    assert_eq!(collected[0]["type"], "fraud_signal");
    assert_eq!(collected[1]["type"], "heartbeat");
}

#[test]
fn events_stream_skips_comments() {
    let sse_body =
        ": keep-alive\n\ndata: {\"type\":\"a\"}\n\n: another\n\ndata: {\"type\":\"b\"}\n\n";
    let types: Vec<String> = events_of(&[sse_body.as_bytes()])
        .iter()
        .map(|e| e["type"].as_str().unwrap().to_string())
        .collect();
    assert_eq!(types, vec!["a".to_string(), "b".to_string()]);
}

#[test]
fn events_stream_falls_back_to_raw_for_non_json() {
    let events = events_of(&[b"data: not-json-here\n\n"]);
    assert_eq!(events[0]["data"], "not-json-here");
}

#[test]
fn events_stream_no_token_returns_no_token_error_synchronously() {
    let err = new_client(None).events().stream().err().unwrap();
    assert!(matches!(err, PulseError::NoToken { .. }));
    assert_eq!(err.path(), Some("/api/pulse/events/stream"));
    let err = new_client(Some("")).events().stream().err().unwrap();
    assert!(matches!(err, PulseError::NoToken { .. }));
}

#[test]
fn events_stream_returns_auth_error_on_401() {
    let client = new_client(Some("expired.jwt"));
    let err = client
        .events()
        .open(401, None, br#"{ "error": "expired" }"#)
        .err()
        .unwrap();
    assert!(err.is_auth_error());
    assert_eq!(err.body(), Some(&doc(r#"{ "error": "expired" }"#)));
}

#[test]
fn events_stream_reports_other_refusals_by_status() {
    let client = new_client(Some("t"));
    let refuse = |status: u16, retry_after: Option<&str>, body: &str| {
        client
            .events()
            .open(status, retry_after, body.as_bytes())
            .err()
            .unwrap()
    };
    let err = refuse(503, None, "");
    assert!(matches!(err, PulseError::Api { status: 503, .. }));
    assert!(err.body().is_none());
    // The text of a refusal is kept whole.
    let long = "x".repeat(300);
    let err = refuse(404, None, &long);
    assert!(err.is_not_found());
    assert_eq!(err.body().unwrap()["error"], Value::from(long));
    assert_eq!(err.path(), Some("/api/pulse/events/stream"));
    assert!(refuse(400, None, "{}").is_validation_error());
    assert!(matches!(
        refuse(403, None, "{}"),
        PulseError::Api { status: 403, .. }
    ));
    // A rate limit carries the advised wait.
    let wait = |err: PulseError| match err {
        PulseError::RateLimit {
            retry_after_seconds,
            ..
        } => retry_after_seconds,
        other => panic!("expected RateLimit, got {other:?}"),
    };
    assert_eq!(wait(refuse(429, Some("7"), "slow down")), Some(7));
    assert_eq!(
        wait(refuse(429, Some("7"), r#"{"retryAfterSeconds": 9}"#)),
        Some(9)
    );
    assert_eq!(wait(refuse(429, None, "")), None);
}

#[test]
fn events_stream_request() {
    let call = new_client(Some("fake.jwt")).events().stream().unwrap();
    assert_eq!(call.url, "http://localhost:9090/api/pulse/events/stream");
    assert_eq!(call.authorization, "Bearer fake.jwt");
    assert_eq!(call.accept, "text/event-stream");
    assert_eq!(call.cache_control, "no-cache");
}

#[test]
fn lines_of_an_event_are_joined() {
    let events = events_of(&[b"data: first\ndata:second\ndata:  third\n\n"]);
    assert_eq!(events, vec![doc(r#"{"data": "first\nsecond\n third"}"#)]);
}

#[test]
fn other_fields_are_not_surfaced() {
    let events = events_of(&[b"event: tick\nid: 7\nretry: 10\ndata: 1\nnonsense\n\n"]);
    assert_eq!(events, vec![doc("1")]);
}

#[test]
fn carriage_returns_are_stripped() {
    let events = events_of(&[b"data: {\"a\":1}\r\n\r\n\r\ndata: {\"a\":2}\r\n\r\n"]);
    assert_eq!(events, vec![doc(r#"{"a":1}"#), doc(r#"{"a":2}"#)]);
}

#[test]
fn empty_data_is_an_event() {
    assert_eq!(events_of(&[b"data:\n\n"]), vec![doc(r#"{"data": ""}"#)]);
    assert_eq!(events_of(&[b"data: \n\n"]), vec![doc(r#"{"data": ""}"#)]);
    assert!(events_of(&[b"\n\n\n"]).is_empty());
}

#[test]
fn a_line_that_is_no_text_is_skipped() {
    let events = events_of(&[b"data: 1\n\xff\xfe\ndata: 2\n\ndata: \xff\n\ndata: 3\n\n"]);
    assert_eq!(events, vec![doc(r#"{"data": "1\n2"}"#), doc("3")]);
}

#[test]
fn only_a_blank_line_ends_an_event() {
    assert_eq!(events_of(&[b"data: 1\n\n"]), vec![doc("1")]);
    assert_eq!(events_of(&[b"data: 1\r\n\r\n"]), vec![doc("1")]);
    assert!(events_of(&[b"data: 1\n \n"]).is_empty());
    assert!(events_of(&[b"data: 1\n\xff\n"]).is_empty());
}

#[test]
fn progress_of_a_stream() {
    let mut stream = EventsStream::new();
    assert!(!stream.is_done());
    assert_eq!(stream.buffered_lines(), 0);
    assert!(stream
        .on_input(StreamInput::Chunk(b"data: 1\ndata: 2\nda".to_vec()))
        .is_none());
    assert!(matches!(stream.next_step(), StreamStep::NeedInput));
    assert_eq!(stream.buffered_lines(), 2);
    assert!(stream.on_input(StreamInput::End).is_none());
    assert!(stream.is_done());
}

#[test]
fn an_unfinished_event_is_not_handed_out() {
    assert!(events_of(&[b"data: 1\n"]).is_empty());
    assert!(events_of(&[b"data: 1"]).is_empty());
}

#[test]
fn chunking_does_not_matter() {
    let whole = "data: {\"type\":\"é\"}\n\n: c\ndata: x\ndata: y\r\n\ndata: z".as_bytes();
    let expected = events_of(&[whole]);
    assert_eq!(expected.len(), 2);
    for i in 0..=whole.len() {
        for j in i..=whole.len() {
            let parts = [&whole[..i], &whole[i..j], &whole[j..]];
            assert_eq!(events_of(&parts), expected);
        }
    }
}

#[test]
fn a_finished_stream_stays_finished() {
    let mut stream = EventsStream::new();
    assert!(stream
        .on_input(StreamInput::Chunk(b"data: 1\n\n".to_vec()))
        .is_none());
    assert!(stream.on_input(StreamInput::End).is_none());
    for _ in 0..3 {
        assert!(matches!(stream.next_step(), StreamStep::Ended));
        assert!(stream
            .on_input(StreamInput::Chunk(b"data: 2\n\n".to_vec()))
            .is_none());
    }
    assert!(matches!(stream.next_step(), StreamStep::Ended));
}

#[test]
fn written_lines_come_back_as_one_payload() {
    let mut stream = EventsStream::new();
    let bytes = "data: erste Zeile\ndata: \ndata: dritte: ü\n\nrest".as_bytes();
    assert!(stream.on_input(StreamInput::Chunk(bytes.to_vec())).is_none());
    assert_eq!(
        stream.take_payload().as_deref(),
        Some("erste Zeile\n\ndritte: ü")
    );
    assert_eq!(stream.take_payload(), None);
}

#[test]
fn buffered_events_are_parsed_one_by_one() {
    let mut stream = EventsStream::new();
    assert!(stream
        .on_input(StreamInput::Chunk(b"data: 1\n\ndata: oops\n\nda".to_vec()))
        .is_none());
    assert_eq!(stream.try_parse_buffered_event(), Some(doc("1")));
    assert_eq!(
        stream.try_parse_buffered_event(),
        Some(doc(r#"{"data": "oops"}"#))
    );
    assert_eq!(stream.try_parse_buffered_event(), None);
}

#[test]
fn a_failure_ends_the_stream() {
    let mut stream = EventsStream::new();
    assert!(stream.has_room(1024));
    assert!(!stream.has_room(usize::MAX));
    assert!(matches!(stream.next_step(), StreamStep::NeedInput));
    let err = stream
        .on_input(StreamInput::Failed("reset".into()))
        .unwrap();
    assert!(matches!(&err, PulseError::Transport(text) if text == "reset"));
    assert!(matches!(stream.next_step(), StreamStep::Ended));
}

#[test]
fn events_replay_unwraps_changes_array() {
    let client = new_client(Some("fake.jwt"));
    let list = client
        .events()
        .replay("user-sessions", "u42", "-1h", "now", 100)
        .unwrap();
    assert_eq!(
        list.call.path,
        "/api/pulse/iq/agents/user-sessions/state/replay/u42?from=-1h&to=now&limit=100"
    );
    let changes = list.items(&doc(
        r#"{
        "agentId": "user-sessions",
        "key": "u42",
        "changes": [
            { "timestamp": 1716000000000, "changeType": "PUT", "value": { "cart_value": 30 }, "eventId": "e1" },
            { "timestamp": 1716000500000, "changeType": "PUT", "value": { "cart_value": 70 }, "eventId": "e2" }
        ]
    }"#,
    ));
    assert_eq!(changes.len(), 2);
    assert_eq!(changes[0]["changeType"], "PUT");
    assert_eq!(changes[1]["value"]["cart_value"], 70);
    assert_eq!(changes[1]["eventId"], "e2");
}

#[test]
fn events_replay_returns_empty_when_changes_absent() {
    let client = new_client(Some("fake.jwt"));
    let list = client
        .events()
        .replay("a1", "k1", "-1h", "now", 50)
        .unwrap();
    assert!(list.call.path.ends_with("&limit=50"));
    assert!(list
        .items(&doc(r#"{ "agentId": "a1", "key": "k1" }"#))
        .is_empty());
}

#[test]
fn events_replay_encodes_its_arguments() {
    let client = new_client(Some("t"));
    let list = client
        .events()
        .replay("a/b", "k c", "2026-01-01T00:00:00+01:00", "now", 1)
        .unwrap();
    assert_eq!(
        list.call.path,
        "/api/pulse/iq/agents/a%2Fb/state/replay/k%20c?from=2026-01-01T00%3A00%3A00%2B01%3A00&to=now&limit=1"
    );
}
