use pulse_client::iq::{build_query_body, scan_query};
use pulse_client::response::interpret_response;
use pulse_client::{
    iq_and, iq_leaf, iq_not, iq_or, IQQueryOptions, IQScanOptions, Method, PulseClient, PulseError,
    Value,
};

fn doc(text: &str) -> Value {
    serde_json::from_str(text).unwrap()
}

fn new_client(token: Option<&str>) -> PulseClient {
    let builder = PulseClient::builder().base_url("http://localhost:9090");
    match token {
        Some(t) => builder.token(t).build().ok().unwrap(),
        None => builder.build().ok().unwrap(),
    }
}

fn answer(path: &str, status: u16, body: &str) -> Result<Value, PulseError> {
    interpret_response(path, status, None, body.as_bytes())
}

#[test]
fn iq_summary_returns_state_metadata() {
    let client = new_client(Some("fake.jwt"));
    let call = client.iq().summary("fraud-detector").unwrap();
    assert_eq!(call.method, Method::Get);
    assert_eq!(call.path, "/api/pulse/iq/agents/fraud-detector/state");
    let summary = answer(
        &call.path,
        200,
        r#"{ "agentId": "fraud-detector", "queryable": true, "backend": "rocksdb",
             "coldBytes": 4194304, "lastCheckpointId": 42, "totalSize": 51500 }"#,
    )
    .unwrap();
    assert_eq!(summary["queryable"], true);
    assert_eq!(summary["backend"], "rocksdb");
    assert_eq!(summary["totalSize"], 51500);
}

#[test]
fn iq_summary_url_encodes_agent_id_with_slash() {
    let client = new_client(Some("fake.jwt"));
    let call = client.iq().summary("tenant/agent").unwrap();
    assert_eq!(call.path, "/api/pulse/iq/agents/tenant%2Fagent/state");
    let result = answer(
        &call.path,
        200,
        r#"{ "agentId": "tenant/agent", "queryable": true, "backend": "rocksdb",
             "hotSize": 0, "hotBytes": 0, "coldSize": 0, "coldBytes": 0,
             "lastCheckpointId": 0, "totalSize": 0 }"#,
    )
    .unwrap();
    assert_eq!(result["agentId"], "tenant/agent");
}

#[test]
fn iq_get_returns_value_at_key() {
    let client = new_client(Some("fake.jwt"));
    let call = client.iq().get("fraud-detector", "customer-42").unwrap();
    assert_eq!(
        call.path,
        "/api/pulse/iq/agents/fraud-detector/state/value/customer-42"
    );
    let result = answer(
        &call.path,
        200,
        r#"{ "agentId": "fraud-detector", "key": "customer-42",
             "value": { "tx_count_60s": 7, "total_amount_60s": 12500 } }"#,
    )
    .unwrap();
    assert_eq!(result["key"], "customer-42");
    assert_eq!(result["value"]["tx_count_60s"], 7);
}

#[test]
fn iq_get_url_encodes_key_with_colon_and_slash() {
    let client = new_client(Some("fake.jwt"));
    let call = client.iq().get("sessions", "user:123/orders").unwrap();
    assert_eq!(
        call.path,
        "/api/pulse/iq/agents/sessions/state/value/user%3A123%2Forders"
    );
    let result = answer(
        &call.path,
        200,
        r#"{ "agentId": "sessions", "key": "user:123/orders", "value": ["o1", "o2", "o3"] }"#,
    )
    .unwrap();
    let values = result["value"].as_array().unwrap();
    assert_eq!(values.len(), 3);
    assert_eq!(values[0], "o1");
}

#[test]
fn iq_get_404_key_not_found_raises_with_key_body() {
    let client = new_client(Some("fake.jwt"));
    let call = client.iq().get("a1", "missing-key").unwrap();
    assert_eq!(call.path, "/api/pulse/iq/agents/a1/state/value/missing-key");
    let err = answer(
        &call.path,
        404,
        r#"{ "error": "Key not found", "agentId": "a1", "key": "missing-key" }"#,
    )
    .unwrap_err();
    match err {
        PulseError::NotFound { body, .. } => {
            let b = body.expect("body");
            assert_eq!(b["error"], "Key not found");
            assert_eq!(b["key"], "missing-key");
        }
        other => panic!("expected NotFound, got {other:?}"),
    }
}

#[test]
fn iq_get_as_of_sends_as_of_param_and_returns_resolved_value() {
    let client = new_client(Some("fake.jwt"));
    let call = client
        .iq()
        .get_as_of("user-sessions", "u42", "-1h")
        .unwrap();
    assert_eq!(call.method, Method::Get);
    assert_eq!(
        call.path,
        "/api/pulse/iq/agents/user-sessions/state/value/u42?as_of=-1h"
    );
    let result = answer(
        &call.path,
        200,
        r#"{ "agentId": "user-sessions", "key": "u42", "value": { "cart_value": 0 },
             "asOf": 1716000000000 }"#,
    )
    .unwrap();
    assert_eq!(result["key"], "u42");
    assert_eq!(result["value"]["cart_value"], 0);
    assert_eq!(result["asOf"], 1_716_000_000_000_i64);
}

#[test]
fn iq_get_without_as_of_omits_the_param() {
    let client = new_client(Some("fake.jwt"));
    let call = client.iq().get("a1", "k1").unwrap();
    assert_eq!(call.path, "/api/pulse/iq/agents/a1/state/value/k1");
    let result = answer(
        &call.path,
        200,
        r#"{ "agentId": "a1", "key": "k1", "value": 42 }"#,
    )
    .unwrap();
    assert_eq!(result["value"], 42);
}

#[test]
fn iq_diff_sends_from_to_and_returns_changes() {
    let client = new_client(Some("fake.jwt"));
    let call = client
        .iq()
        .diff("user-sessions", "u42", "-1h", "now")
        .unwrap();
    assert_eq!(
        call.path,
        "/api/pulse/iq/agents/user-sessions/state/diff/u42?from=-1h&to=now"
    );
    let result = answer(
        &call.path,
        200,
        r#"{ "agentId": "user-sessions", "key": "u42",
             "fromTs": 1716000000000, "toTs": 1716003600000,
             "changes": { "cart_value": { "delta": 70.0, "from": 0, "to": 70 } } }"#,
    )
    .unwrap();
    assert_eq!(result["fromTs"], 1_716_000_000_000_i64);
    assert_eq!(result["toTs"], 1_716_003_600_000_i64);
    assert_eq!(result["changes"]["cart_value"]["delta"], 70.0);
    assert_eq!(result["changes"]["cart_value"]["to"], 70);
}

#[test]
fn iq_diff_url_encodes_key_with_slash() {
    let client = new_client(Some("fake.jwt"));
    let call = client
        .iq()
        .diff("sessions", "user:123/orders", "-30m", "now")
        .unwrap();
    assert_eq!(
        call.path,
        "/api/pulse/iq/agents/sessions/state/diff/user%3A123%2Forders?from=-30m&to=now"
    );
    let result = answer(
        &call.path,
        200,
        r#"{ "agentId": "sessions", "key": "user:123/orders", "changes": {} }"#,
    )
    .unwrap();
    assert!(result["changes"].as_object().unwrap().is_empty());
}

#[test]
fn iq_scan_returns_entries_with_default_limit() {
    let client = new_client(Some("fake.jwt"));
    let call = client.iq().scan("a1", IQScanOptions::new()).unwrap();
    assert_eq!(call.method, Method::Get);
    assert_eq!(call.path, "/api/pulse/iq/agents/a1/state/scan?limit=100");
    let result = answer(
        &call.path,
        200,
        r#"{ "agentId": "a1",
             "entries": [{ "key": "k1", "value": 1 }, { "key": "k2", "value": 2 }],
             "count": 2, "truncated": false, "limitApplied": 100 }"#,
    )
    .unwrap();
    let entries = result["entries"].as_array().unwrap();
    assert_eq!(entries.len(), 2);
}

#[test]
fn iq_scan_passes_through_range_params() {
    let client = new_client(Some("fake.jwt"));
    let opts = IQScanOptions::new().start("alice").end("bob").limit(50);
    let call = client.iq().scan("a1", opts).unwrap();
    assert_eq!(
        call.path,
        "/api/pulse/iq/agents/a1/state/scan?limit=50&start=alice&end=bob"
    );
    let result = answer(
        &call.path,
        200,
        r#"{ "agentId": "a1", "entries": [], "count": 0, "truncated": false,
             "limitApplied": 50, "start": "alice", "end": "bob" }"#,
    )
    .unwrap();
    assert_eq!(result["count"], 0);
}

#[test]
fn scan_query_encodes_its_bounds() {
    assert_eq!(scan_query(&IQScanOptions::default()), "?limit=100");
    assert_eq!(
        scan_query(&IQScanOptions::new().end("a&b=c").limit(0)),
        "?limit=0&end=a%26b%3Dc"
    );
    assert_eq!(
        scan_query(&IQScanOptions::new().start("").limit(u32::MAX)),
        "?limit=4294967295&start="
    );
}

#[test]
fn iq_list_keys_returns_keys_array() {
    let client = new_client(Some("fake.jwt"));
    let call = client.iq().list_keys("a1", IQScanOptions::new()).unwrap();
    assert_eq!(call.path, "/api/pulse/iq/agents/a1/state/keys?limit=100");
    let result = answer(
        &call.path,
        200,
        r#"{ "agentId": "a1", "keys": ["alpha", "beta", "gamma"], "count": 3,
             "truncated": false, "limitApplied": 100 }"#,
    )
    .unwrap();
    let keys = result["keys"].as_array().unwrap();
    assert_eq!(keys.len(), 3);
    assert_eq!(keys[0], "alpha");
}

#[test]
fn iq_query_flat_with_filter_sends_filter_in_body() {
    let client = new_client(Some("fake.jwt"));
    let opts = IQQueryOptions::new().filter(iq_leaf("tx_count_60s", "gt", Value::from(5)));
    let call = client.iq().query("fraud-detector", opts).unwrap();
    assert_eq!(call.method, Method::Post);
    assert_eq!(call.path, "/api/pulse/iq/agents/fraud-detector/state/query");
    let body = call.body.unwrap();
    assert_eq!(body["filter"]["field"], "tx_count_60s");
    assert_eq!(body["filter"]["op"], "gt");
    assert_eq!(body["filter"]["value"], 5);
    let result = answer(
        &call.path,
        200,
        r#"{ "agentId": "fraud-detector",
             "entries": [{ "key": "c1", "value": { "tx_count_60s": 8 } }],
             "count": 1, "totalScanned": 1500, "matchedCount": 1,
             "truncated": false, "limitApplied": 100 }"#,
    )
    .unwrap();
    assert_eq!(result["count"], 1);
}

#[test]
fn iq_query_grouped_returns_groups_and_sends_group_by() {
    let client = new_client(Some("fake.jwt"));
    let call = client
        .iq()
        .query("users", IQQueryOptions::new().group_by("plan"))
        .unwrap();
    assert_eq!(call.method, Method::Post);
    assert_eq!(call.path, "/api/pulse/iq/agents/users/state/query");
    assert_eq!(call.body.unwrap(), doc(r#"{"groupBy": "plan"}"#));
    let result = answer(
        &call.path,
        200,
        r#"{ "agentId": "users",
             "groups": [{ "groupKey": "free", "count": 8420 }, { "groupKey": "pro", "count": 312 }],
             "groupCount": 2, "totalScanned": 8732, "matchedCount": 8732,
             "truncated": false, "limitApplied": 100 }"#,
    )
    .unwrap();
    assert_eq!(result["groupCount"], 2);
    assert_eq!(result["groups"][0]["groupKey"], "free");
}

#[test]
fn iq_query_empty_options_sends_no_body() {
    let client = new_client(Some("fake.jwt"));
    let call = client.iq().query("a1", IQQueryOptions::new()).unwrap();
    assert_eq!(call.path, "/api/pulse/iq/agents/a1/state/query");
    assert!(call.body.is_none());
    let result = answer(
        &call.path,
        200,
        r#"{ "agentId": "a1", "entries": [], "count": 0, "totalScanned": 0,
             "matchedCount": 0, "truncated": false, "limitApplied": 100 }"#,
    )
    .unwrap();
    assert_eq!(result["count"], 0);
}

#[test]
fn iq_query_body_holds_every_option() {
    let opts = IQQueryOptions::new()
        .start("a")
        .end("b")
        .limit(7)
        .filter(doc("null"))
        .projection(vec!["x".into(), "y".into()])
        .group_by("g");
    assert_eq!(
        build_query_body(opts),
        doc(
            r#"{"start": "a", "end": "b", "limit": 7, "filter": null,
                "projection": ["x", "y"], "groupBy": "g"}"#
        )
    );
    assert_eq!(build_query_body(IQQueryOptions::default()), doc("{}"));
}

#[test]
fn iq_query_400_invalid_filter_raises_validation() {
    let client = new_client(Some("fake.jwt"));
    let mut bad = iq_and(vec![iq_leaf("b", "eq", Value::from(1))]);
    bad["field"] = Value::from("a");
    let call = client
        .iq()
        .query("a1", IQQueryOptions::new().filter(bad.clone()))
        .unwrap();
    assert_eq!(call.path, "/api/pulse/iq/agents/a1/state/query");
    assert_eq!(call.body.unwrap()["filter"], bad);
    let err = answer(
        &call.path,
        400,
        r#"{ "error": "filter cannot mix discriminators (field/and/or/not) at the same level" }"#,
    )
    .unwrap_err();
    match err {
        PulseError::Validation { body, .. } => {
            let msg = body.unwrap()["error"].as_str().unwrap().to_string();
            assert!(msg.contains("discriminator"), "got: {msg}");
        }
        other => panic!("expected Validation, got {other:?}"),
    }
}

#[test]
fn iq_summary_without_token_raises_no_token_synchronously() {
    let client = new_client(None);
    let err = client.iq().summary("a1").err().unwrap();
    assert!(matches!(err, PulseError::NoToken { .. }));
}

#[test]
fn iq_filter_helpers_build_correct_shape() {
    let leaf = iq_leaf("plan", "eq", Value::from("pro"));
    assert_eq!(leaf["field"], "plan");
    assert_eq!(leaf["op"], "eq");
    assert_eq!(leaf["value"], "pro");

    let and = iq_and(vec![
        iq_leaf("a", "eq", Value::from(1)),
        iq_leaf("b", "gt", Value::from(2)),
    ]);
    assert_eq!(and["and"].as_array().unwrap().len(), 2);

    let or = iq_or(vec![iq_leaf("a", "eq", Value::from(1))]);
    assert_eq!(or["or"].as_array().unwrap().len(), 1);

    let not = iq_not(iq_leaf("a", "eq", Value::from(1)));
    assert_eq!(not["not"]["field"], "a");
}

#[test]
fn iq_leaf_leaves_an_empty_operator_out() {
    assert_eq!(
        iq_leaf("plan", "", Value::Null),
        doc(r#"{"field": "plan", "value": null}"#)
    );
}

#[test]
fn iq_summary_handles_non_queryable_agent() {
    let client = new_client(Some("fake.jwt"));
    let call = client.iq().summary("rule-agent").unwrap();
    assert_eq!(call.path, "/api/pulse/iq/agents/rule-agent/state");
    let summary = answer(
        &call.path,
        200,
        r#"{ "agentId": "rule-agent", "queryable": false, "backend": "none",
             "hotSize": 0, "lastCheckpointId": -1, "totalSize": 0 }"#,
    )
    .unwrap();
    assert_eq!(summary["queryable"], false);
    assert_eq!(summary["lastCheckpointId"], -1);
}

#[test]
fn iq_get_returns_null_value_when_present_with_null() {
    let client = new_client(Some("fake.jwt"));
    let call = client.iq().get("a1", "k1").unwrap();
    assert_eq!(call.path, "/api/pulse/iq/agents/a1/state/value/k1");
    let result = answer(
        &call.path,
        200,
        r#"{ "agentId": "a1", "key": "k1", "value": null }"#,
    )
    .unwrap();
    let obj = result.as_object().expect("object");
    assert!(obj.contains_key("value"));
    assert!(result["value"].is_null());
}

#[test]
fn iq_get_404_agent_not_queryable_raises_with_reason() {
    let client = new_client(Some("fake.jwt"));
    let call = client.iq().get("a1", "k1").unwrap();
    let err = answer(
        &call.path,
        404,
        r#"{ "error": "Agent has no queryable state", "agentId": "a1",
             "reason": "non-streaming or stopped" }"#,
    )
    .unwrap_err();
    match err {
        PulseError::NotFound { body, .. } => {
            assert_eq!(body.unwrap()["reason"], "non-streaming or stopped");
        }
        other => panic!("expected NotFound, got {other:?}"),
    }
}

#[test]
fn iq_scan_404_agent_not_queryable_raises() {
    let client = new_client(Some("fake.jwt"));
    let call = client.iq().scan("a1", IQScanOptions::new()).unwrap();
    assert_eq!(call.path, "/api/pulse/iq/agents/a1/state/scan?limit=100");
    let err = answer(
        &call.path,
        404,
        r#"{ "error": "Agent has no queryable state", "agentId": "a1",
             "reason": "non-streaming or stopped" }"#,
    )
    .unwrap_err();
    assert!(err.is_not_found());
}

#[test]
fn cloned_options_say_the_same() {
    let scan = IQScanOptions::new().start("a").end("b").limit(3);
    assert_eq!(scan_query(&scan.clone()), scan_query(&scan));
    let query = IQQueryOptions::new()
        .start("a")
        .end("b")
        .limit(3)
        .filter(iq_leaf("f", "eq", Value::from(1)))
        .projection(vec!["x".into(), "y".into()])
        .group_by("g");
    assert_eq!(build_query_body(query.clone()), build_query_body(query));
}
