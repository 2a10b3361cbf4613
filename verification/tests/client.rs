use pulse_client::client::{strip_trailing_slash, USER_AGENT};
use pulse_client::resources::{cache_outcome, cache_token};
use pulse_client::response::{interpret_response, is_success, translate_error, wants_body};
use pulse_client::{Duration, Method, PulseClient, PulseError, RetryPolicy, Value, VERSION};

const BASE: &str = "http://localhost:9090";

fn doc(text: &str) -> Value {
    serde_json::from_str(text).unwrap()
}

fn new_client(token: Option<&str>) -> PulseClient {
    let builder = PulseClient::builder().base_url(BASE);
    match token {
        Some(t) => builder.token(t).build().ok().unwrap(),
        None => builder.build().ok().unwrap(),
    }
}

fn answer(path: &str, status: u16, body: &str) -> Result<Value, PulseError> {
    interpret_response(path, status, None, body.as_bytes())
}

// ----- lifecycle ----------------------------------------------------------

#[test]
fn token_is_mutable() {
    let mut client = new_client(None);
    assert!(client.token().is_none());
    client.set_token("abc");
    assert_eq!(client.token().as_deref(), Some("abc"));
    client.clear_token();
    assert!(client.token().is_none());
}

#[test]
fn missing_base_url_fails() {
    let err = PulseClient::builder().build().err().unwrap();
    assert!(matches!(err, PulseError::InvalidConfig(_)));
    assert_eq!(err.message(), "pulse: invalid config — base_url is required");
}

#[test]
fn empty_base_url_fails() {
    let err = PulseClient::builder().base_url("").build().err().unwrap();
    assert!(matches!(err, PulseError::InvalidConfig(_)));
    assert_eq!(
        err.message(),
        "pulse: invalid config — base_url cannot be empty"
    );
}

#[test]
fn base_url_trailing_slashes_stripped() {
    let client = PulseClient::builder()
        .base_url("http://localhost:9090//")
        .build()
        .ok()
        .unwrap();
    assert_eq!(client.base_url(), "http://localhost:9090");
    let call = client.version().unwrap();
    assert_eq!(call.url, "http://localhost:9090/api/pulse/version");
    let v = answer(&call.path, 200, r#"{ "version": "2.6.0" }"#).unwrap();
    assert_eq!(v["version"], "2.6.0");
}

#[test]
fn trailing_slashes_do_not_matter() {
    assert_eq!(strip_trailing_slash("http://h"), "http://h");
    assert_eq!(strip_trailing_slash("http://h/"), "http://h");
    assert_eq!(strip_trailing_slash("http://h///"), "http://h");
    assert_eq!(strip_trailing_slash("///"), "/");
    assert_eq!(strip_trailing_slash("/"), "/");
    assert_eq!(strip_trailing_slash("é/"), "é");
}

#[test]
fn builder_defaults() {
    let client = new_client(None);
    assert_eq!(client.timeout(), Duration::from_secs(30));
    assert_eq!(client.retry().max_retries, 0);
    assert_eq!(client.retry().backoff, Duration::from_millis(200));
    assert_eq!(client.retry().max_backoff, Duration::from_secs(10));
    assert_eq!(client.retry().on_status, vec![502, 503, 504]);
    assert!(!client.retry().retry_non_idempotent);
}

#[test]
fn builder_settings_are_kept() {
    let client = PulseClient::builder()
        .base_url(BASE)
        .timeout(Duration::from_millis(1500))
        .retry(RetryPolicy::with_max_retries(4))
        .build()
        .ok()
        .unwrap();
    assert_eq!(client.timeout().as_millis(), 1500);
    assert_eq!(client.timeout().as_secs(), 1);
    assert_eq!(client.timeout().subsec_nanos(), 500_000_000);
    assert_eq!(client.retry().max_retries, 4);
}

#[test]
fn user_agent_names_the_version() {
    assert!(USER_AGENT.contains("pulse-client-rust"));
    assert!(USER_AGENT.ends_with(VERSION));
}

#[test]
fn version_is_public_no_token() {
    let client = new_client(None);
    assert!(client.token().is_none());
    let call = client.version().unwrap();
    assert_eq!(call.method, Method::Get);
    assert_eq!(call.path, "/api/pulse/version");
    assert!(call.bearer.is_none());
    assert!(call.body.is_none());
    let info = answer(
        &call.path,
        200,
        r#"{ "version": "2.6.0", "edition": "desktop" }"#,
    )
    .unwrap();
    assert_eq!(info["edition"], "desktop");
    // A token is not sent where none is needed.
    assert!(new_client(Some("t")).version().unwrap().bearer.is_none());
}

// ----- auth ---------------------------------------------------------------

#[test]
fn login_caches_token() {
    let mut client = new_client(None);
    let call = client.auth().login("alice", "secret").unwrap();
    assert_eq!(call.method, Method::Post);
    assert_eq!(call.path, "/api/auth/login");
    assert!(call.bearer.is_none());
    assert_eq!(
        call.body.unwrap(),
        doc(r#"{ "username": "alice", "password": "secret" }"#)
    );
    let response = answer(
        &call.path,
        200,
        r#"{
            "token": "new.jwt.token",
            "refreshToken": "refresh.token",
            "activeOrg": { "id": "org1", "name": "Acme" }
        }"#,
    )
    .unwrap();
    cache_token(&mut client, &response);
    assert_eq!(client.token().as_deref(), Some("new.jwt.token"));
    assert_eq!(response["refreshToken"], "refresh.token");
    // From now on authenticated requests carry the token.
    let call = client.pipelines().list().unwrap().call;
    assert_eq!(call.bearer.as_deref(), Some("new.jwt.token"));
}

#[test]
fn login_failure_raises_auth_error_no_token_cached() {
    let mut client = new_client(None);
    let call = client.auth().login("alice", "wrong").unwrap();
    let result = answer(&call.path, 401, r#"{ "error": "Invalid credentials" }"#);
    cache_outcome(&mut client, result.as_ref());
    let err = result.unwrap_err();
    assert!(err.is_auth_error());
    assert!(err.message().contains("Invalid credentials"));
    assert!(client.token().is_none());
}

#[test]
fn refresh_caches_new_token() {
    let mut client = new_client(None);
    let call = client.auth().refresh("rtok").unwrap();
    assert_eq!(call.path, "/api/auth/refresh");
    assert_eq!(call.body.unwrap(), doc(r#"{ "refreshToken": "rtok" }"#));
    let response = answer(&call.path, 200, r#"{ "token": "refreshed.jwt" }"#).unwrap();
    cache_token(&mut client, &response);
    assert_eq!(client.token().as_deref(), Some("refreshed.jwt"));
}

#[test]
fn organizations_unwraps_envelope() {
    let client = new_client(Some("fake.jwt"));
    let list = client.auth().organizations().unwrap();
    assert_eq!(list.call.method, Method::Get);
    assert_eq!(list.call.path, "/api/auth/organizations");
    let orgs = list.items(
        &answer(
            &list.call.path,
            200,
            r#"{ "organizations": [{ "id": "o1", "name": "Acme" }] }"#,
        )
        .unwrap(),
    );
    assert_eq!(orgs.len(), 1);
    assert_eq!(orgs[0]["id"], "o1");
}

#[test]
fn switch_org_caches_new_token() {
    let mut client = new_client(Some("fake.jwt"));
    let call = client.auth().switch_org("org2").unwrap();
    assert_eq!(call.path, "/api/auth/switch-org");
    assert_eq!(call.bearer.as_deref(), Some("fake.jwt"));
    assert_eq!(call.body.unwrap(), doc(r#"{ "orgId": "org2" }"#));
    let response = answer(&call.path, 200, r#"{ "token": "switched.jwt" }"#).unwrap();
    cache_token(&mut client, &response);
    assert_eq!(client.token().as_deref(), Some("switched.jwt"));
}

#[test]
fn answer_without_token_leaves_the_old_one() {
    let mut client = new_client(Some("old"));
    cache_token(&mut client, &doc("{}"));
    assert_eq!(client.token().as_deref(), Some("old"));
    cache_token(&mut client, &doc(r#"{ "token": "" }"#));
    assert_eq!(client.token().as_deref(), Some("old"));
    cache_token(&mut client, &doc(r#"{ "token": 7 }"#));
    assert_eq!(client.token().as_deref(), Some("old"));
    cache_token(&mut client, &doc(r#"["token"]"#));
    assert_eq!(client.token().as_deref(), Some("old"));
}

#[test]
fn only_a_success_is_cached() {
    let mut client = new_client(Some("old"));
    cache_outcome(
        &mut client,
        answer("/api/auth/login", 401, r#"{ "token": "new" }"#).as_ref(),
    );
    assert_eq!(client.token().as_deref(), Some("old"));
    cache_outcome(&mut client, Err(&PulseError::Transport("reset".into())));
    assert_eq!(client.token().as_deref(), Some("old"));
    cache_outcome(
        &mut client,
        answer("/api/auth/login", 200, r#"{ "token": "new" }"#).as_ref(),
    );
    assert_eq!(client.token().as_deref(), Some("new"));
    let call = client.auth().organizations().unwrap().call;
    assert_eq!(call.bearer.as_deref(), Some("new"));
}

#[test]
fn a_snapshot_plans_the_same_requests() {
    let client = PulseClient::builder()
        .base_url(BASE)
        .token("t")
        .timeout(Duration::from_secs(7))
        .retry(RetryPolicy::with_max_retries(4))
        .build()
        .ok()
        .unwrap();
    let copy = client.snapshot();
    assert_eq!(copy.base_url(), client.base_url());
    assert_eq!(copy.token(), client.token());
    assert_eq!(copy.timeout(), client.timeout());
    assert_eq!(copy.retry().max_retries, 4);
    assert_eq!(copy.retry().on_status, client.retry().on_status);
    assert_eq!(
        copy.users().list().unwrap().call.url,
        client.users().list().unwrap().call.url
    );
}

// ----- pipelines ----------------------------------------------------------

#[test]
fn pipelines_list_unwraps_envelope() {
    let client = new_client(Some("fake.jwt"));
    let list = client.pipelines().list().unwrap();
    assert_eq!(list.call.path, "/api/pulse/pipelines");
    let response = answer(
        &list.call.path,
        200,
        r#"{ "pipelines": [
            { "id": "p1", "name": "demo" },
            { "id": "p2", "name": "fraud" }
        ] }"#,
    )
    .unwrap();
    let pipelines = list.items(&response);
    assert_eq!(pipelines.len(), 2);
    assert_eq!(pipelines[0]["id"], "p1");
    assert_eq!(pipelines[1]["id"], "p2");
}

#[test]
fn pipelines_list_returns_empty_on_missing_envelope() {
    let client = new_client(Some("fake.jwt"));
    let list = client.pipelines().list().unwrap();
    let response = answer(&list.call.path, 200, "{}").unwrap();
    assert!(list.items(&response).is_empty());
    assert!(list.items(&doc(r#"{ "pipelines": 3 }"#)).is_empty());
    assert!(list.items(&doc(r#"[1, 2]"#)).is_empty());
}

#[test]
fn pipelines_get_returns_one() {
    let client = new_client(Some("fake.jwt"));
    let call = client.pipelines().get("p1").unwrap();
    assert_eq!(call.method, Method::Get);
    assert_eq!(call.path, "/api/pulse/pipelines/p1");
    let result = answer(&call.path, 200, r#"{ "id": "p1", "name": "demo" }"#).unwrap();
    assert_eq!(result["id"], "p1");
}

#[test]
fn pipelines_get_missing_raises_not_found() {
    let client = new_client(Some("fake.jwt"));
    let call = client.pipelines().get("nope").unwrap();
    let err = answer(&call.path, 404, r#"{ "error": "not found" }"#).unwrap_err();
    assert!(err.is_not_found());
    assert_eq!(err.status_code(), Some(404));
    assert_eq!(err.path(), Some("/api/pulse/pipelines/nope"));
    assert_eq!(
        err.message(),
        "pulse: HTTP 404 from /api/pulse/pipelines/nope — not found"
    );
}

#[test]
fn pipelines_create_returns_created() {
    let client = new_client(Some("fake.jwt"));
    let definition = doc(r#"{ "name": "new", "nodes": [{ "id": "n1", "type": "source" }] }"#);
    let call = client.pipelines().create(&definition).unwrap();
    assert_eq!(call.method, Method::Post);
    assert_eq!(call.path, "/api/pulse/pipelines");
    assert_eq!(call.body.unwrap(), definition);
    let result = answer(&call.path, 201, r#"{ "id": "p3", "name": "new" }"#).unwrap();
    assert_eq!(result["id"], "p3");
}

#[test]
fn pipelines_create_validation_raises_validation_error() {
    let client = new_client(Some("fake.jwt"));
    let call = client
        .pipelines()
        .create(&doc(r#"{ "name": "bad" }"#))
        .unwrap();
    let err = answer(
        &call.path,
        400,
        r#"{ "error": "Missing required field: nodes" }"#,
    )
    .unwrap_err();
    assert!(err.is_validation_error());
}

#[test]
fn pipelines_delete_204_returns_ok() {
    let client = new_client(Some("fake.jwt"));
    let call = client.pipelines().delete("p1").unwrap();
    assert_eq!(call.method, Method::Delete);
    assert_eq!(call.path, "/api/pulse/pipelines/p1");
    assert!(!wants_body(204));
    assert_eq!(answer(&call.path, 204, "").unwrap(), doc("{}"));
}

#[test]
fn path_params_are_url_encoded() {
    let client = new_client(Some("fake.jwt"));
    let call = client.pipelines().get("foo/bar").unwrap();
    assert_eq!(call.path, "/api/pulse/pipelines/foo%2Fbar");
    assert_eq!(
        call.url,
        "http://localhost:9090/api/pulse/pipelines/foo%2Fbar"
    );
    let result = answer(&call.path, 200, r#"{ "id": "foo/bar" }"#).unwrap();
    assert_eq!(result["id"], "foo/bar");
}

#[test]
fn different_ids_have_different_paths() {
    let client = new_client(Some("t"));
    let ids = ["a/b", "a%2Fb", "a%252Fb", "a b", "a+b", "a", "A", ""];
    let paths: Vec<String> = ids
        .iter()
        .map(|id| client.pipelines().get(id).unwrap().path)
        .collect();
    for i in 0..ids.len() {
        for j in 0..i {
            assert_ne!(paths[i], paths[j]);
        }
    }
}

// ----- agents, templates, users, connectors -------------------------------

#[test]
fn agents_list_unwraps_envelope() {
    let client = new_client(Some("fake.jwt"));
    let list = client.agents().list().unwrap();
    assert_eq!(list.call.method, Method::Get);
    assert_eq!(list.call.path, "/api/pulse/agents");
    let response = answer(
        &list.call.path,
        200,
        r#"{ "agents": [
            { "id": "a1", "name": "fraud-detector", "engineType": "streaming" }
        ] }"#,
    )
    .unwrap();
    let agents = list.items(&response);
    assert_eq!(agents[0]["engineType"], "streaming");
}

#[test]
fn agents_get_returns_one() {
    let client = new_client(Some("fake.jwt"));
    let call = client.agents().get("a1").unwrap();
    assert_eq!(call.path, "/api/pulse/agents/a1");
    assert_eq!(call.method, Method::Get);
    let result = answer(
        &call.path,
        200,
        r#"{ "id": "a1", "name": "fraud-detector" }"#,
    )
    .unwrap();
    assert_eq!(result["id"], "a1");
}

#[test]
fn agents_update_puts_full_config_and_returns_fresh_snapshot() {
    let client = new_client(Some("fake.jwt"));
    let new_config = doc(
        r#"{
        "name": "fraud-detector-v2",
        "engineType": "rule-based",
        "config": { "rules": [{"if": "amount > 5000", "then": "block"}] }
    }"#,
    );
    let call = client.agents().update("a1", &new_config).unwrap();
    assert_eq!(call.method, Method::Put);
    assert_eq!(call.path, "/api/pulse/agents/a1");
    let body = call.body.unwrap();
    assert_eq!(body["engineType"], "rule-based");
    assert_eq!(body["config"]["rules"][0]["if"], "amount > 5000");
    let result = answer(
        &call.path,
        200,
        r#"{ "id": "a1", "name": "fraud-detector-v2", "status": "running" }"#,
    )
    .unwrap();
    assert_eq!(result["name"], "fraud-detector-v2");
}

#[test]
fn agents_update_raises_validation_on_self_loop_400() {
    let client = new_client(Some("fake.jwt"));
    let bad = doc(r#"{"name": "x", "inputTopic": "t", "outputTopic": "t"}"#);
    let call = client.agents().update("a1", &bad).unwrap();
    assert_eq!(call.method, Method::Put);
    assert_eq!(call.path, "/api/pulse/agents/a1");
    let err = answer(
        &call.path,
        400,
        r#"{
            "error": "Agent would self-loop: outputTopic == inputTopic",
            "unsafeFields": ["outputTopic"]
        }"#,
    )
    .unwrap_err();
    match err {
        PulseError::Validation { body, .. } => {
            let msg = body.unwrap()["error"].as_str().unwrap().to_string();
            assert!(msg.contains("self-loop"), "got: {msg}");
        }
        other => panic!("expected Validation, got {other:?}"),
    }
}

#[test]
fn agents_update_raises_not_found_on_missing_agent() {
    let client = new_client(Some("fake.jwt"));
    let call = client
        .agents()
        .update("missing", &doc(r#"{"name": "x"}"#))
        .unwrap();
    assert_eq!(call.method, Method::Put);
    assert_eq!(call.path, "/api/pulse/agents/missing");
    let err = answer(
        &call.path,
        404,
        r#"{ "error": "Agent not found: missing" }"#,
    )
    .unwrap_err();
    assert!(err.is_not_found());
}

#[test]
fn agents_update_url_encodes_agent_id() {
    let client = new_client(Some("fake.jwt"));
    let call = client
        .agents()
        .update("tenant/agent", &doc(r#"{"name": "x"}"#))
        .unwrap();
    assert_eq!(call.method, Method::Put);
    assert_eq!(call.path, "/api/pulse/agents/tenant%2Fagent");
    let result = answer(&call.path, 200, r#"{"id": "tenant/agent", "name": "x"}"#).unwrap();
    assert_eq!(result["id"], "tenant/agent");
}

#[test]
fn agents_delete_returns_ok_on_204() {
    let client = new_client(Some("fake.jwt"));
    let call = client.agents().delete("a1").unwrap();
    assert_eq!(call.method, Method::Delete);
    assert_eq!(call.path, "/api/pulse/agents/a1");
    assert!(answer(&call.path, 204, "").is_ok());
}

#[test]
fn agents_delete_raises_not_found() {
    let client = new_client(Some("fake.jwt"));
    let call = client.agents().delete("missing").unwrap();
    assert_eq!(call.method, Method::Delete);
    assert_eq!(call.path, "/api/pulse/agents/missing");
    let err = answer(&call.path, 404, r#"{"error": "Agent not found"}"#).unwrap_err();
    assert!(err.is_not_found());
}

#[test]
fn agents_update_without_token_raises_no_token_synchronously() {
    let client = new_client(None);
    let err = client
        .agents()
        .update("a1", &doc(r#"{"name": "x"}"#))
        .err()
        .unwrap();
    assert!(matches!(err, PulseError::NoToken { .. }));
}

#[test]
fn agents_delete_without_token_raises_no_token_synchronously() {
    let client = new_client(None);
    let err = client.agents().delete("a1").err().unwrap();
    assert!(matches!(err, PulseError::NoToken { .. }));
}

#[test]
fn templates_list_unwraps_envelope() {
    let client = new_client(Some("fake.jwt"));
    let list = client.templates().list().unwrap();
    assert_eq!(list.call.method, Method::Get);
    assert_eq!(list.call.path, "/api/pulse/templates");
    let response = answer(
        &list.call.path,
        200,
        r#"{ "templates": [{ "id": "fraud-detection", "name": "Fraud Detection" }] }"#,
    )
    .unwrap();
    let templates = list.items(&response);
    assert_eq!(templates[0]["id"], "fraud-detection");
}

#[test]
fn users_list_unwraps_envelope() {
    let client = new_client(Some("fake.jwt"));
    let list = client.users().list().unwrap();
    assert_eq!(list.call.path, "/api/pulse/users");
    assert_eq!(
        list.items(&doc(r#"{ "users": [{ "id": "u1" }] }"#)),
        vec![doc(r#"{ "id": "u1" }"#)]
    );
}

#[test]
fn connectors_list_and_helpers() {
    let client = new_client(Some("fake.jwt"));
    let call = client.connectors().list().unwrap();
    assert_eq!(call.path, "/api/pulse/connectors");
    let catalog = answer(
        &call.path,
        200,
        r#"{
            "sinks": [{ "subType": "segment", "displayName": "Segment" }],
            "sources": [{ "subType": "posthog-source", "displayName": "PostHog Source (poll)" }]
        }"#,
    )
    .unwrap();
    assert_eq!(catalog["sinks"][0]["subType"], "segment");

    let sinks = client.connectors().sinks().unwrap();
    assert_eq!(sinks.call.path, "/api/pulse/connectors");
    let sinks = sinks.items(&catalog);
    assert_eq!(sinks.len(), 1);
    assert_eq!(sinks[0]["subType"], "segment");

    let sources = client.connectors().sources().unwrap();
    assert_eq!(sources.call.path, "/api/pulse/connectors");
    assert_eq!(sources.items(&catalog)[0]["subType"], "posthog-source");
}

// ----- errors -------------------------------------------------------------

#[test]
fn no_token_raises_no_token_error_before_any_http_call() {
    let client = new_client(None);
    let err = client.pipelines().list().err().unwrap();
    assert!(err.is_auth_error());
    assert!(matches!(err, PulseError::NoToken { .. }));
    assert_eq!(err.path(), Some("/api/pulse/pipelines"));
    assert!(err.body().is_none());
    assert_eq!(err.status_code(), None);
    assert_eq!(
        err.message(),
        "pulse: no token set for /api/pulse/pipelines — call client.auth().login(...).await first \
         or pass .token(...) to the builder"
    );
    // An empty token is none.
    let err = new_client(Some("")).pipelines().list().err().unwrap();
    assert!(matches!(err, PulseError::NoToken { .. }));
}

#[test]
fn rate_limit_parses_retry_after_from_body() {
    let list = new_client(Some("fake.jwt")).pipelines().list().unwrap();
    assert_eq!(list.call.path, "/api/pulse/pipelines");
    let err = answer(
        &list.call.path,
        429,
        r#"{
            "error": "Rate limit exceeded",
            "errorCode": "RATE_LIMITED",
            "retryAfterSeconds": 60,
            "limit": 120,
            "remaining": 0
        }"#,
    )
    .unwrap_err();
    assert!(err.is_rate_limited());
    assert_eq!(err.status_code(), Some(429));
    match err {
        PulseError::RateLimit {
            retry_after_seconds,
            ..
        } => assert_eq!(retry_after_seconds, Some(60)),
        other => panic!("expected RateLimit, got {other:?}"),
    }
}

#[test]
fn rate_limit_falls_back_to_retry_after_header() {
    let list = new_client(Some("fake.jwt")).pipelines().list().unwrap();
    let err = interpret_response(&list.call.path, 429, Some("30"), b"Too Many Requests")
        .unwrap_err();
    assert_eq!(err.path(), Some("/api/pulse/pipelines"));
    assert_eq!(
        err.body(),
        Some(&doc(r#"{ "error": "Too Many Requests" }"#))
    );
    match err {
        PulseError::RateLimit {
            retry_after_seconds,
            ..
        } => assert_eq!(retry_after_seconds, Some(30)),
        other => panic!("expected RateLimit, got {other:?}"),
    }
}

#[test]
fn rate_limit_hints() {
    let hint = |body: Option<&str>, header: Option<u32>| -> Option<u32> {
        match translate_error(429, "/p", body.map(doc), header) {
            PulseError::RateLimit {
                retry_after_seconds,
                ..
            } => retry_after_seconds,
            other => panic!("expected RateLimit, got {other:?}"),
        }
    };
    assert_eq!(hint(None, None), None);
    assert_eq!(hint(None, Some(5)), Some(5));
    assert_eq!(hint(Some("{}"), Some(5)), Some(5));
    // The body goes before the header.
    assert_eq!(hint(Some(r#"{"retryAfterSeconds": 9}"#), Some(5)), Some(9));
    // What is no whole number does not count.
    assert_eq!(hint(Some(r#"{"retryAfterSeconds": -1}"#), Some(5)), Some(5));
    assert_eq!(hint(Some(r#"{"retryAfterSeconds": 1.5}"#), Some(5)), Some(5));
    assert_eq!(hint(Some(r#"{"retryAfterSeconds": "9"}"#), None), None);
    // A longer wait is the longest there is.
    assert_eq!(
        hint(Some(r#"{"retryAfterSeconds": 4294967295}"#), None),
        Some(u32::MAX)
    );
    assert_eq!(
        hint(Some(r#"{"retryAfterSeconds": 4294967299}"#), None),
        Some(u32::MAX)
    );
    assert_eq!(
        hint(Some(r#"{"retryAfterSeconds": 18446744073709551615}"#), Some(5)),
        Some(u32::MAX)
    );
}

#[test]
fn retry_after_header_is_read_as_a_number() {
    let header = |text: &str| -> Option<u32> {
        match interpret_response("/p", 429, Some(text), b"") {
            Err(PulseError::RateLimit {
                retry_after_seconds,
                ..
            }) => retry_after_seconds,
            other => panic!("expected RateLimit, got {other:?}"),
        }
    };
    assert_eq!(header(" 30\t"), Some(30));
    assert_eq!(header("+30"), Some(30));
    assert_eq!(header("4294967295"), Some(4294967295));
    assert_eq!(header("4294967296"), None);
    assert_eq!(header("-1"), None);
    assert_eq!(header(""), None);
    assert_eq!(header("+"), None);
    assert_eq!(header("Wed, 21 Oct 2026 07:28:00 GMT"), None);
}

#[test]
fn unknown_5xx_raises_generic_api_error() {
    let list = new_client(Some("fake.jwt")).pipelines().list().unwrap();
    assert_eq!(list.call.path, "/api/pulse/pipelines");
    let err = answer(
        &list.call.path,
        500,
        r#"{ "error": "Internal", "errorClass": "NPE" }"#,
    )
    .unwrap_err();
    assert_eq!(err.status_code(), Some(500));
    assert!(!err.is_auth_error());
    assert!(!err.is_not_found());
    assert!(!err.is_validation_error());
    assert!(!err.is_rate_limited());
    assert!(matches!(err, PulseError::Api { .. }));
}

#[test]
fn every_status_is_kept_by_its_error() {
    for status in 100u16..=599 {
        if is_success(status) {
            continue;
        }
        let err = answer("/p", status, r#"{ "error": "e" }"#).unwrap_err();
        assert_eq!(err.status_code(), Some(status));
        assert_eq!(err.path(), Some("/p"));
        assert_eq!(err.body(), Some(&doc(r#"{ "error": "e" }"#)));
    }
}

#[test]
fn bearer_token_attached_to_outbound_request() {
    let client = new_client(Some("fake.jwt.token"));
    let list = client.pipelines().list().unwrap();
    assert_eq!(list.call.bearer.as_deref(), Some("fake.jwt.token"));
    let response = answer(&list.call.path, 200, r#"{ "pipelines": [] }"#).unwrap();
    assert!(list.items(&response).is_empty());
}

#[test]
fn success_without_body_is_an_empty_object() {
    assert_eq!(answer("/p", 200, "").unwrap(), doc("{}"));
    assert_eq!(answer("/p", 204, "ignored").unwrap(), doc("{}"));
    assert_eq!(answer("/p", 202, "[1]").unwrap(), doc("[1]"));
}

#[test]
fn success_that_is_no_json_is_a_json_error() {
    let err = answer("/p", 200, "<html>").unwrap_err();
    assert!(matches!(err, PulseError::Json(_)));
    assert_eq!(err.status_code(), None);
    assert_eq!(err.path(), None);
    assert!(err.body().is_none());
    assert!(err
        .message()
        .starts_with("pulse: JSON encode/decode failure — "));
}

#[test]
fn error_without_body_has_none() {
    let err = answer("/p", 503, "").unwrap_err();
    assert!(err.body().is_none());
    assert_eq!(err.message(), "pulse: HTTP 503 from /p");
}

#[test]
fn error_text_is_cut_to_its_first_bytes() {
    let long = "x".repeat(201);
    let err = answer("/p", 500, &long).unwrap_err();
    assert_eq!(
        err.body().unwrap()["error"],
        Value::from("x".repeat(200))
    );
    let short = "x".repeat(200);
    let err = answer("/p", 500, &short).unwrap_err();
    assert_eq!(err.body().unwrap()["error"], Value::from(short));
}

#[test]
fn error_text_is_not_cut_inside_a_character() {
    let text_of = |raw: &str| -> Value {
        let err = answer("/p", 500, raw).unwrap_err();
        assert!(matches!(err, PulseError::Api { status: 500, .. }));
        err.body().unwrap()["error"].clone()
    };
    assert_eq!(text_of(&"é".repeat(101)), Value::from("é".repeat(100)));
    // A character that does not fit is left out whole.
    let prefix = "a".repeat(199);
    assert_eq!(text_of(&format!("{prefix}é")), Value::from(prefix.clone()));
    assert_eq!(text_of(&format!("{prefix}é{prefix}")), Value::from(prefix));
    let prefix = "a".repeat(197);
    assert_eq!(text_of(&format!("{prefix}\u{1f600}")), Value::from(prefix));
    let whole = format!("{}\u{1f600}", "a".repeat(196));
    assert_eq!(text_of(&whole), Value::from(whole.clone()));
    assert_eq!(
        text_of(&"\u{20ac}".repeat(70)),
        Value::from("\u{20ac}".repeat(66))
    );
    // The status decides about the error, whatever its text.
    let err = answer("/p", 404, &format!("{}é", "a".repeat(199))).unwrap_err();
    assert!(err.is_not_found());
}

#[test]
fn error_bytes_that_are_no_text_are_replaced() {
    let err = interpret_response("/p", 500, None, b"a\xffb").unwrap_err();
    assert_eq!(err.body().unwrap()["error"], Value::from("a\u{fffd}b"));
}

#[test]
fn reason_is_taken_from_the_first_member_that_has_one() {
    let text = |body: &str| answer("/p", 500, body).unwrap_err().message();
    assert_eq!(
        text(r#"{"error": "a", "errorMessage": "b", "message": "c"}"#),
        "pulse: HTTP 500 from /p — a"
    );
    assert_eq!(
        text(r#"{"error": 1, "errorMessage": "b", "message": "c"}"#),
        "pulse: HTTP 500 from /p — b"
    );
    assert_eq!(text(r#"{"message": "c"}"#), "pulse: HTTP 500 from /p — c");
    assert_eq!(text(r#"{"other": "d"}"#), "pulse: HTTP 500 from /p");
    assert_eq!(text("[]"), "pulse: HTTP 500 from /p");
}

#[test]
fn other_errors_describe_themselves() {
    assert_eq!(
        PulseError::Transport("refused".into()).message(),
        "pulse: HTTP transport failure — refused"
    );
    assert_eq!(
        PulseError::Duplex("gone".into()).message(),
        "pulse: duplex channel failure — gone"
    );
    assert_eq!(PulseError::Duplex("gone".into()).status_code(), None);
    assert_eq!(
        PulseError::Auth {
            path: "/p".into(),
            body: None
        }
        .message(),
        "pulse: HTTP 401 from /p"
    );
}
