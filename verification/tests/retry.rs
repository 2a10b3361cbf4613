use pulse_client::response::interpret_response;
use pulse_client::retry::{
    backoff_ceiling, backoff_delay, is_idempotent, retry_delay, retry_step, RetryStep,
};
use pulse_client::{Duration, HttpCall, Method, PulseClient, PulseError, RetryPolicy, Value};

fn doc(text: &str) -> Value {
    serde_json::from_str(text).unwrap()
}

fn fast_client(retries: u32, non_idem: bool) -> PulseClient {
    PulseClient::builder()
        .base_url("http://localhost:9090")
        .token("t")
        .retry(RetryPolicy {
            max_retries: retries,
            backoff: Duration::from_millis(1),
            max_backoff: Duration::from_millis(2),
            on_status: vec![502, 503, 504],
            retry_non_idempotent: non_idem,
        })
        .build()
        .ok()
        .unwrap()
}

/// Plays a request against a server that answers the i-th attempt with the i-th response (the last
/// one for all that follow), and counts the attempts.
fn run(
    client: &PulseClient,
    call: HttpCall,
    responses: &[(u16, &str)],
) -> (Result<Value, PulseError>, usize) {
    let mut attempt: u32 = 0;
    let mut hits = 0;
    loop {
        let (status, body) = responses[hits.min(responses.len() - 1)];
        hits += 1;
        let result = interpret_response(&call.path, status, None, body.as_bytes());
        let step = retry_step(
            client.retry(),
            call.method,
            result.as_ref().err(),
            attempt,
            12345,
        );
        match step {
            RetryStep::Finish => return (result, hits),
            RetryStep::Retry { next_attempt, .. } => attempt = next_attempt,
        }
    }
}

#[test]
fn off_by_default() {
    let c = PulseClient::builder()
        .base_url("http://localhost:9090")
        .build()
        .ok()
        .unwrap();
    let (result, hits) = run(
        &c,
        c.version().unwrap(),
        &[(503, "{}"), (200, r#"{"ok": true}"#)],
    );
    let err = result.unwrap_err();
    assert!(
        matches!(err, PulseError::Api { status: 503, .. }),
        "got {err:?}"
    );
    assert_eq!(hits, 1, "exactly one attempt");
}

#[test]
fn idempotent_get_retried_on_5xx_then_succeeds() {
    let c = fast_client(2, false);
    let (result, hits) = run(
        &c,
        c.version().unwrap(),
        &[(503, "{}"), (502, "{}"), (200, r#"{"v": 1}"#)],
    );
    assert_eq!(result.unwrap(), doc(r#"{"v": 1}"#));
    assert_eq!(hits, 3);
}

#[test]
fn exhausts_then_returns_error() {
    let c = fast_client(2, false);
    let (result, hits) = run(&c, c.version().unwrap(), &[(503, "{}")]);
    let err = result.unwrap_err();
    assert!(
        matches!(err, PulseError::Api { status: 503, .. }),
        "got {err:?}"
    );
    assert_eq!(hits, 3);
}

#[test]
fn rate_limit_retried_for_post_honouring_retry_after() {
    let c = fast_client(1, false);
    let call = c.pipelines().create(&doc(r#"{"name": "x"}"#)).unwrap();
    let (result, hits) = run(
        &c,
        call,
        &[
            (429, r#"{"retryAfterSeconds": 0}"#),
            (201, r#"{"id": "p1"}"#),
        ],
    );
    assert_eq!(result.unwrap(), doc(r#"{"id": "p1"}"#));
    assert_eq!(hits, 2);
}

#[test]
fn post_5xx_not_retried_by_default() {
    let c = fast_client(3, false);
    let call = c.pipelines().create(&doc(r#"{"name": "x"}"#)).unwrap();
    let (result, hits) = run(&c, call, &[(503, "{}"), (201, r#"{"id": "p1"}"#)]);
    let err = result.unwrap_err();
    assert!(
        matches!(err, PulseError::Api { status: 503, .. }),
        "got {err:?}"
    );
    assert_eq!(hits, 1);
}

#[test]
fn post_5xx_retried_when_opted_in() {
    let c = fast_client(2, true);
    let call = c.pipelines().create(&doc(r#"{"name": "x"}"#)).unwrap();
    let (result, hits) = run(&c, call, &[(503, "{}"), (201, r#"{"id": "p1"}"#)]);
    assert_eq!(result.unwrap(), doc(r#"{"id": "p1"}"#));
    assert_eq!(hits, 2);
}

#[test]
fn terminal_404_not_retried() {
    let c = fast_client(3, false);
    let call = c.pipelines().get("nope").unwrap();
    let (result, hits) = run(&c, call, &[(404, r#"{"error": "nope"}"#)]);
    let err = result.unwrap_err();
    assert!(matches!(err, PulseError::NotFound { .. }), "got {err:?}");
    assert_eq!(hits, 1);
}

#[test]
fn idempotent_methods() {
    for method in [Method::Get, Method::Head, Method::Put, Method::Delete] {
        assert!(is_idempotent(method));
    }
    for method in [Method::Post, Method::Patch, Method::Options] {
        assert!(!is_idempotent(method));
    }
}

#[test]
fn advised_wait_goes_before_the_backoff() {
    let policy = RetryPolicy::with_max_retries(3);
    let limited = |retry_after_seconds: Option<u32>| PulseError::RateLimit {
        path: "/p".into(),
        body: None,
        retry_after_seconds,
    };
    assert_eq!(
        retry_delay(&policy, Method::Post, &limited(Some(7)), 0, 99),
        Some(Duration::from_secs(7))
    );
    assert_eq!(
        retry_delay(&policy, Method::Post, &limited(None), 0, 99),
        Some(Duration::from_millis(99))
    );
}

#[test]
fn transport_failures_are_retried_for_idempotent_methods() {
    let policy = RetryPolicy::with_max_retries(1);
    let failure = PulseError::Transport("reset".into());
    assert!(retry_delay(&policy, Method::Get, &failure, 0, 0).is_some());
    assert!(retry_delay(&policy, Method::Post, &failure, 0, 0).is_none());
    let open = RetryPolicy {
        retry_non_idempotent: true,
        ..RetryPolicy::with_max_retries(1)
    };
    assert!(retry_delay(&open, Method::Post, &failure, 0, 0).is_some());
    for terminal in [
        PulseError::Json("x".into()),
        PulseError::NoToken { path: "/p".into() },
        PulseError::InvalidConfig("x".into()),
        PulseError::Duplex("x".into()),
        PulseError::Api {
            status: 500,
            path: "/p".into(),
            body: None,
        },
    ] {
        assert!(retry_delay(&open, Method::Get, &terminal, 0, 0).is_none());
    }
}

#[test]
fn other_client_errors_are_never_retried() {
    let policy = RetryPolicy {
        on_status: vec![403, 404, 410, 418, 503],
        retry_non_idempotent: true,
        ..RetryPolicy::with_max_retries(3)
    };
    let api = |status: u16| PulseError::Api {
        status,
        path: "/p".into(),
        body: None,
    };
    for status in [301, 402, 403, 409, 410, 418, 422, 499] {
        assert!(retry_delay(&policy, Method::Get, &api(status), 0, 0).is_none());
    }
    assert!(retry_delay(&policy, Method::Get, &api(503), 0, 0).is_some());
    assert!(retry_delay(&policy, Method::Get, &api(502), 0, 0).is_none());

    let c = PulseClient::builder()
        .base_url("http://localhost:9090")
        .retry(policy)
        .build()
        .ok()
        .unwrap();
    let (result, hits) = run(
        &c,
        c.version().unwrap(),
        &[(403, "{}"), (200, r#"{"v": 1}"#)],
    );
    assert!(matches!(
        result.unwrap_err(),
        PulseError::Api { status: 403, .. }
    ));
    assert_eq!(hits, 1);
}

#[test]
fn a_cloned_policy_decides_the_same() {
    let policy = RetryPolicy {
        max_retries: 5,
        backoff: Duration::from_millis(3),
        max_backoff: Duration::from_millis(40),
        on_status: vec![500, 599],
        retry_non_idempotent: true,
    };
    let copy = policy.clone();
    assert_eq!(copy.max_retries, 5);
    assert_eq!(copy.backoff, policy.backoff);
    assert_eq!(copy.max_backoff, policy.max_backoff);
    assert_eq!(copy.on_status, vec![500, 599]);
    assert!(copy.retry_non_idempotent);
}

#[test]
fn ceiling_doubles_up_to_the_cap() {
    let policy = RetryPolicy::default();
    assert_eq!(backoff_ceiling(&policy, 0), 200);
    assert_eq!(backoff_ceiling(&policy, 1), 400);
    assert_eq!(backoff_ceiling(&policy, 5), 6400);
    assert_eq!(backoff_ceiling(&policy, 6), 10_000);
    assert_eq!(backoff_ceiling(&policy, u32::MAX), 10_000);
    let slow = RetryPolicy {
        backoff: Duration::from_millis(1),
        max_backoff: Duration::from_secs(u64::MAX),
        ..RetryPolicy::default()
    };
    assert_eq!(backoff_ceiling(&slow, 30), 1 << 30);
    let none = RetryPolicy {
        backoff: Duration::from_secs(0),
        ..RetryPolicy::default()
    };
    assert_eq!(backoff_ceiling(&none, 10), 0);
}

#[test]
fn backoff_is_jittered_within_its_ceiling() {
    let policy = RetryPolicy::default();
    assert_eq!(backoff_delay(&policy, 0, 0), Duration::from_millis(0));
    assert_eq!(backoff_delay(&policy, 0, 200), Duration::from_millis(200));
    assert_eq!(backoff_delay(&policy, 0, 201), Duration::from_millis(0));
    assert_eq!(
        backoff_delay(&policy, 9, 999_999_999),
        Duration::from_millis(999_999_999 % 10_001)
    );
}

#[test]
fn a_success_is_final() {
    let policy = RetryPolicy::with_max_retries(9);
    assert!(matches!(
        retry_step(&policy, Method::Get, None, 0, 1),
        RetryStep::Finish
    ));
}

#[test]
fn durations() {
    let d = Duration::new(3, 999_999_999);
    assert_eq!(d.as_secs(), 3);
    assert_eq!(d.subsec_nanos(), 999_999_999);
    assert_eq!(d.as_millis(), 3999);
    assert_eq!(Duration::from_millis(1234), Duration::new(1, 234_000_000));
    assert_eq!(Duration::new(1, 2_500_000_000), Duration::from_millis(3500));
    assert_eq!(
        Duration::from_secs(u64::MAX).as_millis(),
        u64::MAX as u128 * 1000
    );
}
