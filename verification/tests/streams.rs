use pulse_client::options::{
    check_branches, check_failure, check_fields, check_ordering, check_refresh_mode,
};
use pulse_client::response::interpret_response;
use pulse_client::{
    aggs, windows, BranchSpec, BroadcastJoinOptions, CdcJoinOptions, CepOptions,
    EnrichAsyncOptions, ExtractOptions, FieldMap, MapLlmOptions, MapOptions, McpCallOptions,
    Method, MlPredictOptions, PulseClient, PulseError, StreamBuilder, Value, WindowOptions,
};

fn doc(text: &str) -> Value {
    serde_json::from_str(text).unwrap()
}

fn ops_of(b: &StreamBuilder) -> Vec<serde_json::Map<String, Value>> {
    b.operators().to_vec()
}

fn fields(entries: &[(&str, &str)]) -> FieldMap<String> {
    let mut m = FieldMap::new();
    for (k, v) in entries {
        m.insert(k.to_string(), v.to_string());
    }
    m
}

fn client(token: Option<&str>) -> PulseClient {
    let builder = PulseClient::builder().base_url("http://localhost:9090");
    match token {
        Some(t) => builder.token(t).build().ok().unwrap(),
        None => builder.build().ok().unwrap(),
    }
}

// ----- operators ----------------------------------------------------------

#[test]
fn stream_filter_emits_validator_shape() {
    let b = StreamBuilder::anonymous()
        .from_topic("in")
        .filter("amount > 1000");
    let ops = ops_of(&b);
    assert_eq!(ops.len(), 1);
    assert_eq!(ops[0]["type"], "filter");
    assert_eq!(ops[0]["condition"], "amount > 1000");
}

#[test]
fn stream_map_with_fields_only() {
    let b = StreamBuilder::anonymous().from_topic("in").map(MapOptions {
        fields: Some(fields(&[("alert", "concat(id, '!')")])),
        target_type: None,
    });
    let ops = ops_of(&b);
    assert_eq!(ops[0]["type"], "map");
    assert_eq!(ops[0]["fields"]["alert"], "concat(id, '!')");
}

#[test]
fn stream_map_with_target_type_only() {
    let b = StreamBuilder::anonymous().from_topic("in").map(MapOptions {
        fields: None,
        target_type: Some("alert".into()),
    });
    assert_eq!(ops_of(&b)[0]["targetType"], "alert");
}

#[test]
fn stream_flat_map_emits_validator_shape() {
    let b = StreamBuilder::anonymous()
        .from_topic("in")
        .flat_map("items");
    let ops = ops_of(&b);
    assert_eq!(ops[0]["type"], "flatMap");
    assert_eq!(ops[0]["splitField"], "items");
}

#[test]
fn stream_key_by_emits_validator_shape() {
    let b = StreamBuilder::anonymous()
        .from_topic("in")
        .key_by("deviceId");
    let ops = ops_of(&b);
    assert_eq!(ops[0]["type"], "keyBy");
    assert_eq!(ops[0]["field"], "deviceId");
}

#[test]
fn stream_window_with_aggregations() {
    let mut aggs_map = FieldMap::new();
    aggs_map.insert("avgTemp".into(), aggs::avg("temperature"));
    let b = StreamBuilder::anonymous()
        .from_topic("in")
        .window_with_aggs(windows::tumbling("60s"), aggs_map);
    let ops = ops_of(&b);
    assert_eq!(ops[0]["type"], "window");
    assert_eq!(ops[0]["spec"], "tumbling(60s)");
    assert_eq!(ops[0]["aggregations"]["avgTemp"], "avg(temperature)");
}

#[test]
fn stream_window_has_no_options() {
    let b = StreamBuilder::anonymous().window(windows::global());
    assert_eq!(
        Value::Object(ops_of(&b)[0].clone()),
        doc(r#"{"type": "window", "spec": "global"}"#)
    );
}

#[test]
fn stream_window_from_str_accepts_raw_string() {
    let b = StreamBuilder::anonymous()
        .from_topic("in")
        .window_from_str("sliding(10m,1m)", WindowOptions::default());
    assert_eq!(ops_of(&b)[0]["spec"], "sliding(10m,1m)");
}

#[test]
fn stream_window_with_output_topic_and_trigger() {
    let b = StreamBuilder::anonymous().from_topic("in").window_full(
        windows::tumbling("60s"),
        WindowOptions {
            output_topic: Some("late-data".into()),
            trigger: Some(doc(r#"{"kind": "earlyFire", "afterEvents": 10}"#)),
            ..Default::default()
        },
    );
    let ops = ops_of(&b);
    assert_eq!(ops[0]["outputTopic"], "late-data");
    assert_eq!(ops[0]["trigger"]["kind"], "earlyFire");
}

#[test]
fn stream_branch_emits_validator_shape() {
    let b = StreamBuilder::anonymous().from_topic("in").branch(vec![
        BranchSpec::new("tier == 'gold'", "vip-events"),
        BranchSpec::new("tier == 'silver'", "std-events"),
    ]);
    let ops = ops_of(&b);
    assert_eq!(ops[0]["type"], "branch");
    let branches = ops[0]["branches"].as_array().unwrap();
    assert_eq!(branches.len(), 2);
    assert_eq!(branches[0]["condition"], "tier == 'gold'");
    assert_eq!(branches[0]["topic"], "vip-events");
}

#[test]
fn stream_enrich_emits_validator_shape() {
    let b = StreamBuilder::anonymous()
        .from_topic("in")
        .enrich("customers", "customerId");
    let ops = ops_of(&b);
    assert_eq!(ops[0]["type"], "enrich");
    assert_eq!(ops[0]["lookupTopic"], "customers");
    assert_eq!(ops[0]["keyField"], "customerId");
}

#[test]
fn stream_enrich_async_full_shape() {
    let b = StreamBuilder::anonymous()
        .from_topic("in")
        .enrich_async(EnrichAsyncOptions {
            url: "https://x.example/lookup/{id}".into(),
            parallelism: Some(8),
            queue_size: Some(128),
            timeout_ms: Some(5000),
            max_retries: Some(3),
            retry_backoff_ms: Some(200),
            ordering: Some("PRESERVE_INPUT".into()),
            on_failure: Some("EMIT_ERROR".into()),
        });
    let ops = ops_of(&b);
    assert_eq!(ops[0]["type"], "enrichAsync");
    assert_eq!(ops[0]["url"], "https://x.example/lookup/{id}");
    assert_eq!(ops[0]["parallelism"], 8);
    assert_eq!(ops[0]["queueSize"], 128);
    assert_eq!(ops[0]["timeoutMs"], 5000);
    assert_eq!(ops[0]["maxRetries"], 3);
    assert_eq!(ops[0]["retryBackoffMs"], 200);
    assert_eq!(ops[0]["ordering"], "PRESERVE_INPUT");
    assert_eq!(ops[0]["onFailure"], "EMIT_ERROR");
}

#[test]
fn stream_cep_emits_validator_shape() {
    let seq = vec![
        doc(r#"{"name": "add", "match": "type == 'ADD_TO_CART'", "within": "10m"}"#),
        doc(r#"{"name": "view", "match": "type == 'VIEW_CART'", "follow": "followedBy"}"#),
    ];
    let b = StreamBuilder::anonymous().from_topic("in").cep(
        seq,
        CepOptions {
            within: Some("20m".into()),
            name: Some("cart-flow".into()),
        },
    );
    let ops = ops_of(&b);
    assert_eq!(ops[0]["type"], "cep");
    assert_eq!(ops[0]["within"], "20m");
    assert_eq!(ops[0]["name"], "cart-flow");
    assert_eq!(ops[0]["sequence"].as_array().unwrap().len(), 2);
}

#[test]
fn stream_map_llm_full_shape() {
    let b = StreamBuilder::anonymous().from_topic("in").map_llm(
        "Summarise: {body}",
        MapLlmOptions {
            output_field: "summary".into(),
            model: Some("gemma3:7b".into()),
            temperature: Some(Value::from(0.0)),
            max_tokens: Some(64),
            parallelism: Some(8),
            ordering: Some("UNORDERED".into()),
            on_failure: Some("PASS_THROUGH".into()),
            max_calls_per_sec: Some(50),
        },
    );
    let ops = ops_of(&b);
    assert_eq!(ops[0]["type"], "mapLlm");
    assert_eq!(ops[0]["prompt"], "Summarise: {body}");
    assert_eq!(ops[0]["outputField"], "summary");
    assert_eq!(ops[0]["model"], "gemma3:7b");
    assert_eq!(ops[0]["temperature"], 0.0);
    assert_eq!(ops[0]["maxTokens"], 64);
    assert_eq!(ops[0]["parallelism"], 8);
    assert_eq!(ops[0]["ordering"], "UNORDERED");
    assert_eq!(ops[0]["onFailure"], "PASS_THROUGH");
    assert_eq!(ops[0]["maxCallsPerSec"], 50);
}

#[test]
fn stream_extract_full_shape() {
    let b = StreamBuilder::anonymous()
        .from_topic("in")
        .extract(ExtractOptions {
            instruction: "Extract intent and urgency".into(),
            schema: fields(&[("intent", "string"), ("urgency", "int")]),
            model: Some("gemma3:7b".into()),
            temperature: Some(Value::from(0.0)),
            ..Default::default()
        });
    let ops = ops_of(&b);
    assert_eq!(ops[0]["type"], "extract");
    assert_eq!(ops[0]["instruction"], "Extract intent and urgency");
    assert_eq!(ops[0]["schema"]["intent"], "string");
    assert_eq!(ops[0]["schema"]["urgency"], "int");
}

#[test]
fn stream_mcp_call_full_shape() {
    let mut args = FieldMap::new();
    args.insert("customer_id".to_string(), Value::from("{customerId}"));
    let b = StreamBuilder::anonymous().from_topic("in").mcp_call(
        "crm.lookup_customer",
        McpCallOptions {
            args: Some(args),
            output_field: Some("customer".into()),
            parallelism: Some(4),
            ordering: Some("UNORDERED".into()),
            on_failure: Some("EMIT_ERROR".into()),
        },
    );
    let ops = ops_of(&b);
    assert_eq!(ops[0]["type"], "mcpCall");
    assert_eq!(ops[0]["tool"], "crm.lookup_customer");
    assert_eq!(ops[0]["args"]["customer_id"], "{customerId}");
    assert_eq!(ops[0]["outputField"], "customer");
    assert_eq!(ops[0]["onFailure"], "EMIT_ERROR");
}

#[test]
fn stream_mcp_call_minimal_fire_and_forget() {
    let b = StreamBuilder::anonymous()
        .from_topic("in")
        .mcp_call("pagerduty.create_incident", McpCallOptions::default());
    let ops = ops_of(&b);
    assert_eq!(ops[0]["type"], "mcpCall");
    assert_eq!(ops[0]["tool"], "pagerduty.create_incident");
    assert!(!ops[0].contains_key("args"));
}

#[test]
fn stream_broadcast_join_full_shape() {
    let b = StreamBuilder::anonymous()
        .from_topic("in")
        .broadcast_join(BroadcastJoinOptions {
            join_key_field: "userId".into(),
            streaming_topic: Some("users-table".into()),
            name: Some("users-join".into()),
            max_bytes: Some(10_000_000),
            refresh_mode: Some("cdc".into()),
            interval_millis: Some(30_000),
        });
    let ops = ops_of(&b);
    assert_eq!(ops[0]["type"], "broadcastJoin");
    assert_eq!(ops[0]["joinKeyField"], "userId");
    assert_eq!(ops[0]["streamingTopic"], "users-table");
    assert_eq!(ops[0]["name"], "users-join");
    assert_eq!(ops[0]["refreshMode"], "cdc");
    assert_eq!(ops[0]["maxBytes"], 10_000_000_i64);
    assert_eq!(ops[0]["intervalMillis"], 30_000);
}

#[test]
fn stream_broadcast_join_keeps_a_negative_size() {
    let b = StreamBuilder::anonymous().broadcast_join(BroadcastJoinOptions {
        join_key_field: "k".into(),
        max_bytes: Some(-1),
        ..Default::default()
    });
    assert_eq!(ops_of(&b)[0]["maxBytes"], -1);
}

#[test]
fn stream_cdc_join_full_shape() {
    let b = StreamBuilder::anonymous()
        .from_topic("in")
        .cdc_join(CdcJoinOptions {
            source: "postgres://orders".into(),
            join_key: Some("orderId".into()),
            table: Some("orders".into()),
            state_backend: Some("rocksdb".into()),
        });
    let ops = ops_of(&b);
    assert_eq!(ops[0]["type"], "cdcJoin");
    assert_eq!(ops[0]["source"], "postgres://orders");
    assert_eq!(ops[0]["joinKey"], "orderId");
    assert_eq!(ops[0]["table"], "orders");
    assert_eq!(ops[0]["stateBackend"], "rocksdb");
}

#[test]
fn stream_cdc_join_minimal_shape() {
    let b = StreamBuilder::anonymous()
        .from_topic("in")
        .cdc_join(CdcJoinOptions {
            source: "postgres://orders".into(),
            ..Default::default()
        });
    let ops = ops_of(&b);
    assert_eq!(ops[0]["type"], "cdcJoin");
    assert!(!ops[0].contains_key("joinKey"));
}

#[test]
fn ml_predict_minimal_shape() {
    let b = StreamBuilder::anonymous()
        .from_topic("tx")
        .ml_predict(MlPredictOptions {
            model: "fraud".into(),
            input_fields: vec!["amount".into(), "country".into()],
            output_field: "prediction".into(),
            ..Default::default()
        });
    let ops = ops_of(&b);
    assert_eq!(ops.len(), 1);
    let op = &ops[0];
    assert_eq!(op["type"], "mlPredict");
    assert_eq!(op["model"], "fraud");
    assert_eq!(op["inputFields"], doc(r#"["amount", "country"]"#));
    assert_eq!(op["outputField"], "prediction");
    assert!(!op.contains_key("parallelism"));
    assert!(!op.contains_key("ordering"));
    assert!(!op.contains_key("onFailure"));
}

#[test]
fn ml_predict_full_shape() {
    let b = StreamBuilder::anonymous()
        .from_topic("tx")
        .ml_predict(MlPredictOptions {
            model: "fraud".into(),
            input_fields: vec!["amount".into()],
            output_field: "p".into(),
            parallelism: Some(8),
            ordering: Some("UNORDERED".into()),
            on_failure: Some("PASS_THROUGH".into()),
        });
    let op = &ops_of(&b)[0];
    assert_eq!(op["parallelism"], 8);
    assert_eq!(op["ordering"], "UNORDERED");
    assert_eq!(op["onFailure"], "PASS_THROUGH");
}

#[test]
fn option_values_are_checked() {
    assert!(check_ordering(&None));
    assert!(check_ordering(&Some("PRESERVE_INPUT".into())));
    assert!(check_ordering(&Some("UNORDERED".into())));
    assert!(!check_ordering(&Some("SHUFFLED".into())));
    assert!(check_failure(&Some("EMIT_ERROR".into())));
    assert!(check_failure(&Some("DROP".into())));
    assert!(check_failure(&Some("PASS_THROUGH".into())));
    assert!(!check_failure(&Some("EXPLODE".into())));
    assert!(check_refresh_mode(&Some("cdc".into())));
    assert!(check_refresh_mode(&Some("periodic".into())));
    assert!(check_refresh_mode(&Some("explicit".into())));
    assert!(!check_refresh_mode(&Some("random".into())));
    assert!(check_branches(&vec![BranchSpec::new("a", "b")]));
    assert!(!check_branches(&vec![
        BranchSpec::new("a", "b"),
        BranchSpec::new("", "x")
    ]));
    assert!(!check_branches(&vec![BranchSpec::new("a", " ")]));
    assert!(check_fields(&vec!["ok".into()]));
    assert!(!check_fields(&vec!["ok".into(), "  ".into()]));
}

// ----- pipelines ----------------------------------------------------------

#[test]
fn stream_minimal_pipeline_builds() {
    let out = StreamBuilder::new("p1")
        .from_topic("in")
        .filter("x > 0")
        .build()
        .unwrap();
    assert_eq!(out["name"], "p1");
    let nodes = out["nodes"].as_array().unwrap();
    assert_eq!(nodes.len(), 2);
    assert_eq!(nodes[0]["type"], "source");
    assert_eq!(nodes[0]["config"]["engine"], "kafka");
    assert_eq!(nodes[1]["type"], "agent");
    assert_eq!(nodes[1]["config"]["engine"], "streaming");
}

#[test]
fn stream_pipeline_is_exactly_this() {
    let out = StreamBuilder::new("p1")
        .from_topic("in")
        .filter("x > 0")
        .to_topic_with_channel("out", "email")
        .with_sink_config("to", Value::from("ops"))
        .build()
        .unwrap();
    assert_eq!(
        out,
        doc(r#"{
            "name": "p1",
            "nodes": [
                {"type": "source", "label": "kafka source",
                 "config": {"engine": "kafka", "inputTopic": "in"}},
                {"type": "agent", "label": "p1",
                 "config": {"engine": "streaming", "inputTopic": "in", "outputTopic": "out",
                            "operators": [{"type": "filter", "condition": "x > 0"}]}},
                {"type": "sink", "label": "email sink",
                 "config": {"channel": "email", "inputTopic": "out", "to": "ops"}}
            ]
        }"#)
    );
}

#[test]
fn stream_name_via_named() {
    let out = StreamBuilder::anonymous()
        .named("p2")
        .from_topic("in")
        .filter("x > 0")
        .build()
        .unwrap();
    assert_eq!(out["name"], "p2");
}

#[test]
fn stream_build_with_name_overrides_constructor() {
    let out = StreamBuilder::new("ignored")
        .from_topic("in")
        .filter("x > 0")
        .build_with_name("actual")
        .unwrap();
    assert_eq!(out["name"], "actual");
}

#[test]
fn stream_override_is_renaming() {
    let b = StreamBuilder::new("ignored").from_topic("in").filter("x > 0");
    let renamed = StreamBuilder::new("actual").from_topic("in").filter("x > 0");
    assert_eq!(
        b.build_with_name("actual").unwrap(),
        renamed.build().unwrap()
    );
}

#[test]
fn stream_description_propagates() {
    let out = StreamBuilder::new("p3")
        .described_as("desc")
        .from_topic("in")
        .filter("x > 0")
        .build()
        .unwrap();
    assert_eq!(out["description"], "desc");
}

#[test]
fn stream_agent_label_setter() {
    let out = StreamBuilder::new("p4")
        .with_agent_label("Per-Device Average")
        .from_topic("in")
        .filter("x > 0")
        .build()
        .unwrap();
    assert_eq!(out["nodes"][1]["label"], "Per-Device Average");
}

#[test]
fn stream_emits_sink_when_to_topic_with_channel() {
    let out = StreamBuilder::new("p5")
        .from_topic("in")
        .filter("x > 0")
        .to_topic_with_channel("out", "email")
        .build()
        .unwrap();
    let nodes = out["nodes"].as_array().unwrap();
    assert_eq!(nodes.len(), 3);
    assert_eq!(nodes[2]["type"], "sink");
    assert_eq!(nodes[2]["config"]["channel"], "email");
    assert_eq!(nodes[2]["config"]["inputTopic"], "out");
}

#[test]
fn stream_skips_sink_when_to_topic_only() {
    let out = StreamBuilder::new("p6")
        .from_topic("in")
        .filter("x > 0")
        .to_topic("out")
        .build()
        .unwrap();
    let nodes = out["nodes"].as_array().unwrap();
    assert_eq!(nodes.len(), 2);
    assert_eq!(nodes[1]["config"]["outputTopic"], "out");
}

#[test]
fn stream_to_state_clears_output_and_sink() {
    let b = StreamBuilder::new("p7")
        .from_topic("in")
        .filter("x > 0")
        .to_topic_with_channel("out", "email")
        .to_state();
    let out = b.build().unwrap();
    let nodes = out["nodes"].as_array().unwrap();
    assert_eq!(nodes.len(), 2);
    assert_eq!(
        nodes[1]["config"]["operators"],
        doc(r#"[{"type": "filter", "condition": "x > 0"}]"#)
    );
    assert!(!nodes[1]["config"]
        .as_object()
        .unwrap()
        .contains_key("outputTopic"));
}

#[test]
fn stream_to_state_undoes_all_sink_settings() {
    let plain = StreamBuilder::new("p").from_topic("in").filter("x > 0");
    let undone = plain
        .clone()
        .with_sink_label("label")
        .with_sink_config("a", Value::from(1))
        .to_topic_with_channel("out", "email")
        .to_state();
    assert_eq!(undone.build().unwrap(), plain.build().unwrap());
    // Nothing of the old settings comes back with a new sink.
    let again = undone.to_topic_with_channel("o2", "sms").build().unwrap();
    assert_eq!(
        again["nodes"][2],
        doc(r#"{"type": "sink", "label": "sms sink",
                "config": {"channel": "sms", "inputTopic": "o2"}}"#)
    );
}

#[test]
fn stream_source_engine_and_label() {
    let out = StreamBuilder::new("p8")
        .from_topic_with_engine("in", "mqtt")
        .with_source_label("Sensor readings")
        .with_source_config("qos", Value::from(1))
        .filter("x > 0")
        .build()
        .unwrap();
    assert_eq!(out["nodes"][0]["label"], "Sensor readings");
    assert_eq!(out["nodes"][0]["config"]["engine"], "mqtt");
    assert_eq!(out["nodes"][0]["config"]["qos"], 1);
}

#[test]
fn stream_extra_config_goes_over_the_standard_one() {
    let out = StreamBuilder::new("p")
        .from_topic("in")
        .with_source_config("engine", Value::from("pulsar"))
        .filter("x > 0")
        .build()
        .unwrap();
    assert_eq!(out["nodes"][0]["config"]["engine"], "pulsar");
    assert_eq!(out["nodes"][0]["label"], "kafka source");
}

#[test]
fn stream_build_rejects_missing_name() {
    let err = StreamBuilder::anonymous()
        .from_topic("in")
        .filter("x > 0")
        .build()
        .unwrap_err();
    assert!(matches!(err, PulseError::InvalidConfig(_)));
    assert!(err.message().contains("pipeline name required"));
}

#[test]
fn stream_build_rejects_missing_source() {
    let err = StreamBuilder::new("p").filter("x > 0").build().unwrap_err();
    assert!(matches!(err, PulseError::InvalidConfig(_)));
    assert!(err.message().contains("no source"));
}

#[test]
fn stream_build_rejects_empty_operator_chain() {
    let err = StreamBuilder::new("p")
        .from_topic("in")
        .build()
        .unwrap_err();
    assert!(matches!(err, PulseError::InvalidConfig(_)));
    assert!(err.message().contains("no operators"));
}

#[test]
fn stream_chain_ordering_preserved() {
    let mut aggs_map = FieldMap::new();
    aggs_map.insert("cnt".into(), aggs::count());
    let out = StreamBuilder::new("p9")
        .from_topic("in")
        .filter("a > 0")
        .key_by("k")
        .window_with_aggs(windows::tumbling("60s"), aggs_map)
        .filter("cnt > 5")
        .map(MapOptions {
            fields: Some(fields(&[("out", "cnt")])),
            target_type: None,
        })
        .build()
        .unwrap();
    let ops = out["nodes"][1]["config"]["operators"].as_array().unwrap();
    let types: Vec<&str> = ops.iter().map(|op| op["type"].as_str().unwrap()).collect();
    assert_eq!(types, vec!["filter", "keyBy", "window", "filter", "map"]);
}

#[test]
fn stream_iot_template_round_trip() {
    let mut aggs_map = FieldMap::new();
    aggs_map.insert("avgTemp".into(), aggs::avg("temperature"));
    let out = StreamBuilder::new("iot-temperature-aggregator")
        .with_agent_label("Per-Device Average")
        .from_topic_with_engine("sensor-readings", "mqtt")
        .with_source_label("Sensor readings")
        .key_by("deviceId")
        .window_with_aggs(windows::tumbling("60s"), aggs_map)
        .filter("avgTemp > 75")
        .to_topic_with_channel("sensor-minute-averages", "email")
        .with_sink_label("Heat Alert")
        .build()
        .unwrap();

    let nodes = out["nodes"].as_array().unwrap();
    assert_eq!(nodes.len(), 3);
    let types: Vec<&str> = nodes.iter().map(|n| n["type"].as_str().unwrap()).collect();
    assert_eq!(types, vec!["source", "agent", "sink"]);

    assert_eq!(nodes[0]["label"], "Sensor readings");
    assert_eq!(nodes[0]["config"]["engine"], "mqtt");
    assert_eq!(nodes[0]["config"]["inputTopic"], "sensor-readings");

    assert_eq!(nodes[1]["label"], "Per-Device Average");
    assert_eq!(nodes[1]["config"]["engine"], "streaming");
    assert_eq!(nodes[1]["config"]["inputTopic"], "sensor-readings");
    assert_eq!(nodes[1]["config"]["outputTopic"], "sensor-minute-averages");
    let ops = nodes[1]["config"]["operators"].as_array().unwrap();
    assert_eq!(ops.len(), 3);
    assert_eq!(ops[0]["type"], "keyBy");
    assert_eq!(ops[0]["field"], "deviceId");
    assert_eq!(ops[1]["type"], "window");
    assert_eq!(ops[1]["spec"], "tumbling(60s)");
    assert_eq!(ops[1]["aggregations"]["avgTemp"], "avg(temperature)");
    assert_eq!(ops[2]["type"], "filter");
    assert_eq!(ops[2]["condition"], "avgTemp > 75");

    assert_eq!(nodes[2]["label"], "Heat Alert");
    assert_eq!(nodes[2]["config"]["channel"], "email");
    assert_eq!(nodes[2]["config"]["inputTopic"], "sensor-minute-averages");
}

// ----- deployment ---------------------------------------------------------

#[test]
fn streams_compile_returns_value_without_http_call() {
    let client = client(Some("fake.jwt"));
    let b = StreamBuilder::new("p").from_topic("in").filter("x > 0");
    let out = client.streams().compile(&b).unwrap();
    assert_eq!(out["name"], "p");
    let out = client.streams().compile_with_name(&b, "q").unwrap();
    assert_eq!(out["name"], "q");
}

#[test]
fn streams_deploy_posts_built_definition_to_pipelines_endpoint() {
    let client = client(Some("fake.jwt"));
    let mut aggs_map = FieldMap::new();
    aggs_map.insert("cnt".into(), aggs::count());
    let b = StreamBuilder::new("fraud-detector")
        .from_topic("payments")
        .filter("amount > 1000")
        .key_by("customer_id")
        .window_with_aggs(windows::tumbling("60s"), aggs_map)
        .filter("cnt > 5")
        .to_topic("fraud-alerts");

    let call = client.streams().deploy(&b).unwrap();
    assert_eq!(call.method, Method::Post);
    assert_eq!(call.path, "/api/pulse/pipelines");
    assert_eq!(call.url, "http://localhost:9090/api/pulse/pipelines");
    assert_eq!(call.bearer.as_deref(), Some("fake.jwt"));

    let result = interpret_response(
        &call.path,
        201,
        None,
        br#"{ "id": "p-42", "name": "fraud-detector", "status": "running" }"#,
    )
    .unwrap();
    assert_eq!(result["id"], "p-42");

    let body = call.body.unwrap();
    assert_eq!(body["name"], "fraud-detector");
    let nodes = body["nodes"].as_array().unwrap();
    assert_eq!(nodes.len(), 2);
    let ops = nodes[1]["config"]["operators"].as_array().unwrap();
    assert_eq!(ops[2]["type"], "window");
}

#[test]
fn streams_deploy_with_name_override_propagates_to_wire_body() {
    let client = client(Some("fake.jwt"));
    let b = StreamBuilder::new("original")
        .from_topic("in")
        .filter("x > 0");
    let call = client.streams().deploy_with_name(&b, "renamed").unwrap();
    assert_eq!(call.body.unwrap()["name"], "renamed");
}

#[test]
fn streams_deploy_without_token_raises_no_token_synchronously() {
    let client = client(None);
    let b = StreamBuilder::new("p").from_topic("in").filter("x > 0");
    let err = client.streams().deploy(&b).err().unwrap();
    assert!(matches!(err, PulseError::NoToken { .. }));
}

#[test]
fn streams_deploy_reports_an_incomplete_pipeline() {
    let client = client(Some("t"));
    let err = client
        .streams()
        .deploy(&StreamBuilder::anonymous())
        .err()
        .unwrap();
    assert!(matches!(err, PulseError::InvalidConfig(_)));
    let err = client
        .streams()
        .deploy_with_name(&StreamBuilder::anonymous(), "p")
        .err()
        .unwrap();
    assert!(err.message().contains("no source"));
}

#[test]
fn field_map_replaces_an_earlier_value() {
    let mut m = FieldMap::new();
    assert!(m.is_empty());
    m.insert("a".to_string(), "1".to_string());
    m.insert("b".to_string(), "2".to_string());
    m.insert("a".to_string(), "3".to_string());
    assert!(!m.is_empty());
    let b = StreamBuilder::anonymous().map(MapOptions {
        fields: Some(m.clone()),
        target_type: None,
    });
    assert_eq!(ops_of(&b)[0]["fields"], doc(r#"{"a": "3", "b": "2"}"#));
}

#[test]
fn a_cloned_builder_compiles_to_the_same_pipeline() {
    let b = StreamBuilder::new("p")
        .described_as("d")
        .from_topic_with_engine("in", "pulsar")
        .with_source_config("s", Value::from(1))
        .with_source_label("source")
        .filter("x > 0")
        .key_by("k")
        .with_agent_label("agent")
        .to_topic_with_channel("out", "email")
        .with_sink_config("t", Value::from(2))
        .with_sink_label("sink");
    let copy = b.clone();
    assert_eq!(copy.build().unwrap(), b.build().unwrap());
    assert_eq!(ops_of(&copy), ops_of(&b));
    // A name for one build is that of a renamed copy.
    assert_eq!(
        b.build_with_name("q").unwrap(),
        b.clone().named("q").build().unwrap()
    );
    assert_eq!(
        b.build_inner(Some("q".to_string())).unwrap(),
        b.build_with_name("q").unwrap()
    );
    assert_eq!(b.build_inner(None).unwrap(), b.build().unwrap());
    // What is chained to the copy does not reach the builder.
    let longer = copy.filter("y > 0");
    assert_eq!(ops_of(&longer).len(), 3);
    assert_eq!(ops_of(&b).len(), 2);
}

#[test]
fn the_agent_runs_the_operators_in_their_order() {
    let b = StreamBuilder::new("p")
        .from_topic("in")
        .filter("a")
        .key_by("b")
        .flat_map("c");
    let out = b.build_inner(None).unwrap();
    let agent = &out["nodes"][1];
    assert_eq!(agent["type"], "agent");
    let operators = agent["config"]["operators"].as_array().unwrap();
    assert_eq!(operators.len(), 3);
    for (i, op) in ops_of(&b).into_iter().enumerate() {
        assert_eq!(operators[i], Value::Object(op));
    }
}

#[test]
fn cloned_options_declare_the_same_operator() {
    let llm = MapLlmOptions {
        output_field: "o".into(),
        model: Some("m".into()),
        temperature: Some(doc("0.5")),
        max_tokens: Some(7),
        parallelism: Some(2),
        ordering: Some("UNORDERED".into()),
        on_failure: Some("DROP".into()),
        max_calls_per_sec: Some(3),
    };
    let b = StreamBuilder::anonymous()
        .map_llm("p", llm.clone())
        .map_llm("p", llm);
    assert_eq!(ops_of(&b)[0], ops_of(&b)[1]);

    let extract = ExtractOptions {
        instruction: "i".into(),
        schema: fields(&[("a", "int"), ("b", "text")]),
        model: Some("m".into()),
        temperature: Some(doc("0.25")),
        max_tokens: Some(7),
        on_failure: Some("DROP".into()),
    };
    let b = StreamBuilder::anonymous()
        .extract(extract.clone())
        .extract(extract);
    assert_eq!(ops_of(&b)[0], ops_of(&b)[1]);
}
