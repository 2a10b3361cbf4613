use pulse_client::resources::{FormPart, MultipartCall, UploadStep};
use pulse_client::response::interpret_response;
use pulse_client::{FieldMap, Method, ModelUpload, PulseClient, PulseError};

fn new_client(token: Option<&str>) -> PulseClient {
    let builder = PulseClient::builder().base_url("http://localhost:9090");
    match token {
        Some(t) => builder.token(t).build().ok().unwrap(),
        None => builder.build().ok().unwrap(),
    }
}

fn texts(call: &MultipartCall) -> Vec<(String, String)> {
    call.parts
        .iter()
        .filter_map(|p| match p {
            FormPart::Text { name, value } => Some((name.clone(), value.clone())),
            FormPart::File { .. } => None,
        })
        .collect()
}

fn file(call: &MultipartCall) -> (String, String, String, Vec<u8>) {
    match &call.parts[2] {
        FormPart::File {
            name,
            filename,
            mime,
            bytes,
        } => (name.clone(), filename.clone(), mime.clone(), bytes.clone()),
        FormPart::Text { .. } => panic!("a file is expected"),
    }
}

fn send(step: UploadStep) -> MultipartCall {
    match step {
        UploadStep::Send(call) => call,
        UploadStep::ReadFile(_) => panic!("nothing is to be read"),
    }
}

#[test]
fn models_list_unwraps_envelope() {
    let client = new_client(Some("fake.jwt"));
    let list = client.models().list().unwrap();
    assert_eq!(list.call.path, "/api/pulse/ml-models");
    assert!(list.call.bearer.is_some());
    let models = list.items(
        &serde_json::from_str(r#"{ "models": [{ "name": "fraud", "runtime": "onnx" }] }"#).unwrap(),
    );
    assert_eq!(models.len(), 1);
    assert_eq!(models[0]["name"], "fraud");
}

#[test]
fn models_get_by_name() {
    let client = new_client(Some("fake.jwt"));
    let call = client.models().get("fraud").unwrap();
    assert_eq!(call.method, Method::Get);
    assert_eq!(call.path, "/api/pulse/ml-models/fraud");
    let model = interpret_response(
        &call.path,
        200,
        None,
        br#"{ "name": "fraud", "runtime": "onnx", "version": 3 }"#,
    )
    .unwrap();
    assert_eq!(model["version"], 3);
}

#[test]
fn models_delete() {
    let client = new_client(Some("fake.jwt"));
    let call = client.models().delete("fraud").unwrap();
    assert_eq!(call.method, Method::Delete);
    assert_eq!(call.path, "/api/pulse/ml-models/fraud");
    assert!(interpret_response(&call.path, 204, None, b"").is_ok());
}

#[test]
fn models_upload_sends_multipart_form() {
    let client = new_client(Some("fake.jwt"));
    let mut input = FieldMap::new();
    input.insert("amount".to_string(), "float".to_string());
    let step = client
        .models()
        .upload(
            ModelUpload::from_bytes("fraud-classifier", b"\x08\x01onnx-bytes".to_vec())
                .input_schema(input),
        )
        .unwrap();
    let call = send(step);
    assert_eq!(call.path, "/api/pulse/ml-models");
    assert_eq!(call.url, "http://localhost:9090/api/pulse/ml-models");
    assert_eq!(call.bearer, "fake.jwt");
    assert_eq!(
        texts(&call),
        vec![
            ("name".to_string(), "fraud-classifier".to_string()),
            ("runtime".to_string(), "onnx".to_string()),
            ("inputSchema".to_string(), r#"{"amount":"float"}"#.to_string()),
        ]
    );
    assert_eq!(
        file(&call),
        (
            "model".to_string(),
            "fraud-classifier.onnx".to_string(),
            "application/octet-stream".to_string(),
            b"\x08\x01onnx-bytes".to_vec()
        )
    );
    let meta = interpret_response(
        &call.path,
        201,
        None,
        br#"{ "name": "fraud-classifier", "runtime": "onnx", "sha256": "deadbeef" }"#,
    )
    .unwrap();
    assert_eq!(meta["sha256"], "deadbeef");
}

#[test]
fn models_upload_writes_schemas_in_the_order_of_their_names() {
    let client = new_client(Some("t"));
    let mut schema = FieldMap::new();
    schema.insert("b".to_string(), "int".to_string());
    schema.insert("a".to_string(), "x\"y".to_string());
    let call = send(
        client
            .models()
            .upload(
                ModelUpload::from_bytes("m", vec![1])
                    .runtime("tf")
                    .output_schema(schema),
            )
            .unwrap(),
    );
    assert_eq!(
        texts(&call),
        vec![
            ("name".to_string(), "m".to_string()),
            ("runtime".to_string(), "tf".to_string()),
            (
                "outputSchema".to_string(),
                r#"{"a":"x\"y","b":"int"}"#.to_string()
            ),
        ]
    );
}

#[test]
fn models_upload_blank_name_is_invalid_config() {
    let client = new_client(Some("fake.jwt"));
    let err = client
        .models()
        .upload(ModelUpload::from_bytes("  ", b"x".to_vec()))
        .err()
        .unwrap();
    assert!(matches!(err, PulseError::InvalidConfig(_)));
}

#[test]
fn models_upload_requires_exactly_one_source() {
    let client = new_client(Some("fake.jwt"));
    // Neither path nor data.
    let upload = ModelUpload {
        name: "m".into(),
        ..Default::default()
    };
    let err = client.models().upload(upload).err().unwrap();
    assert!(matches!(err, PulseError::InvalidConfig(_)));
    // Both.
    let mut upload = ModelUpload::from_path("m", "m.onnx");
    upload.data = Some(vec![1]);
    let err = client.models().upload(upload).err().unwrap();
    assert!(matches!(err, PulseError::InvalidConfig(_)));
}

#[test]
fn models_upload_empty_bytes_is_invalid_config() {
    let client = new_client(Some("fake.jwt"));
    let err = client
        .models()
        .upload(ModelUpload::from_bytes("m", Vec::new()))
        .err()
        .unwrap();
    assert!(matches!(err, PulseError::InvalidConfig(_)));
}

#[test]
fn models_upload_without_token_raises_no_token() {
    let client = new_client(None);
    let err = client
        .models()
        .upload(ModelUpload::from_bytes("m", vec![1]))
        .err()
        .unwrap();
    assert!(matches!(err, PulseError::NoToken { .. }));
    assert_eq!(err.path(), Some("/api/pulse/ml-models"));
}

#[test]
fn models_upload_reads_the_file_first() {
    let client = new_client(Some("t"));
    let upload_from = |path: &str| {
        let step = client
            .models()
            .upload(ModelUpload::from_path("m", path))
            .unwrap();
        match step {
            UploadStep::ReadFile(pending) => pending,
            UploadStep::Send(_) => panic!("the file is to be read"),
        }
    };
    for (path, filename) in [
        ("./model-v2.onnx", "model-v2.onnx"),
        ("model.bin", "model.bin"),
        ("C:\\models\\fraud.onnx", "fraud.onnx"),
        ("a/b\\c", "c"),
        ("models/", "model.onnx"),
        ("", "model.onnx"),
    ] {
        let pending = upload_from(path);
        assert_eq!(pending.path, path);
        let call = client.models().upload_file(pending, Ok(vec![7])).unwrap();
        assert_eq!(file(&call).1, filename);
        assert_eq!(file(&call).3, vec![7]);
    }
    let err = client
        .models()
        .upload_file(upload_from("x.onnx"), Ok(Vec::new()))
        .err()
        .unwrap();
    assert!(matches!(err, PulseError::InvalidConfig(_)));
}

#[test]
fn models_upload_reports_an_unreadable_file() {
    let client = new_client(Some("t"));
    let pending = match client
        .models()
        .upload(ModelUpload::from_path("m", "gone.onnx"))
        .unwrap()
    {
        UploadStep::ReadFile(pending) => pending,
        UploadStep::Send(_) => panic!("the file is to be read"),
    };
    let err = client
        .models()
        .upload_file(pending, Err("not found".to_string()))
        .err()
        .unwrap();
    assert!(matches!(&err, PulseError::Transport(text) if text == "read gone.onnx: not found"));
}
