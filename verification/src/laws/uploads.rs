//! Laws of model uploads: the form that is sent, and what is refused.
use crate::client::PulseClient;
use crate::error::PulseError;
use crate::fields::{text_members, FieldMap};
use crate::json::{json_to_text, Json};
use crate::laws::requests::{talks_to, usable};
use crate::laws::text::lemma_blank;
use crate::laws::{all_space, holds_texts};
use crate::resources::{
    base_name, file_name, form_parts, law_base_name_is_the_last_component, parts_model,
    request_multipart, FormPart, ModelUpload, ModelsResource, MultipartCall, PendingUpload,
    UploadStep,
};
use vstd::prelude::*;

verus! {

// ----- the form --------------------------------------------------------------------------------

/// Whether a part is the text `value` under `name`.
pub open spec fn text_part(part: FormPart, name: Seq<char>, value: Seq<char>) -> bool {
    part matches FormPart::Text { name: n, value: v } && n@ == name && v@ == value
}

/// Whether `parts` are the form of a model: its name, its runtime (`onnx` where none is given) and
/// its file, and then each schema that there is, under its own name.
pub open spec fn form_is(
    parts: Seq<FormPart>,
    name: Seq<char>,
    runtime: Option<String>,
    filename: Seq<char>,
    bytes: Seq<u8>,
    input: Option<Seq<char>>,
    output: Option<Seq<char>>,
) -> bool {
    let inputs: int = if input is Some { 1 } else { 0 };
    let outputs: int = if output is Some { 1 } else { 0 };
    &&& parts.len() == 3 + inputs + outputs
    &&& text_part(parts[0], "name"@, name)
    &&& text_part(
        parts[1],
        "runtime"@,
        match runtime {
            Some(t) => t@,
            None => "onnx"@,
        },
    )
    &&& parts[2] matches FormPart::File { name: n, filename: f, mime: m, bytes: b }
        && n@ == "model"@
        && f@ == filename && m@ == "application/octet-stream"@ && b@ == bytes
    &&& input matches Some(text) ==> text_part(parts[3], "inputSchema"@, text)
    &&& output matches Some(text) ==> text_part(parts[3 + inputs], "outputSchema"@, text)
}

proof fn lemma_parts(parts: Seq<FormPart>)
    ensures
        parts_model(parts).len() == parts.len(),
        forall|i: int| 0 <= i < parts.len() ==> #[trigger] parts_model(parts)[i] == parts[i]@,
{
}

/// What was written of a text that may be absent.
pub open spec fn text_of(written: Option<Result<String, String>>) -> Option<Seq<char>> {
    match written {
        Some(Ok(text)) => Some(text@),
        _ => None,
    }
}

/// The form of an upload has a part for each schema that is given, with the text of that schema,
/// whether or not the other is given. A model without bytes, or a schema that could not be written,
/// makes no form.
pub proof fn law_forms(
    name: String,
    runtime: Option<String>,
    filename: String,
    bytes: Vec<u8>,
    input: Option<Result<String, String>>,
    output: Option<Result<String, String>>,
    r: Result<Vec<FormPart>, PulseError>,
)
    requires
        call_ensures(form_parts, (name, runtime, filename, bytes, input, output), r),
    ensures
        match r {
            Ok(parts) => {
                &&& bytes@.len() > 0
                &&& !(input matches Some(Err(_)))
                &&& !(output matches Some(Err(_)))
                &&& form_is(
                    parts@,
                    name@,
                    runtime,
                    filename@,
                    bytes@,
                    text_of(input),
                    text_of(output),
                )
            },
            Err(e) => if bytes@.len() == 0 {
                e matches PulseError::InvalidConfig(text) && text@ == "model bytes are empty"@
            } else if let Some(Err(cause)) = input {
                e matches PulseError::Json(text) && text@ == cause@
            } else if let Some(Err(cause)) = output {
                e matches PulseError::Json(text) && text@ == cause@
            } else {
                false
            },
        },
{
    if let Ok(parts) = r {
        lemma_parts(parts@);
        let model = parts_model(parts@);
        assert(parts@[0]@ == model[0] && parts@[1]@ == model[1] && parts@[2]@ == model[2]);
        if text_of(input) is Some {
            assert(parts@[3]@ == model[3]);
        }
        if text_of(output) is Some {
            let last = parts@.len() - 1;
            assert(parts@[last]@ == model[last]);
        }
    }
}

/// A form is sent to the path that is given, always with the token.
pub proof fn law_form_requests(
    client: PulseClient,
    base: &str,
    token: Option<String>,
    path: &str,
    parts: Vec<FormPart>,
    r: Result<MultipartCall, PulseError>,
)
    requires
        talks_to(client, base, token),
        call_ensures(request_multipart, (&client, path, parts), r),
    ensures
        if usable(token) {
            r matches Ok(call) && call.path@ == path@ && call.url@ == base@ + path@ && call.bearer@
                == token->0@ && call.parts@.len() == parts@.len() && forall|i: int|
                0 <= i < parts@.len() ==> (#[trigger] call.parts@[i])@ == parts@[i]@
        } else {
            r matches Err(PulseError::NoToken { path: named }) && named@ == path@
        },
{
    lemma_parts(parts@);
    if let Ok(call) = r {
        lemma_parts(call.parts@);
        assert forall|i: int| 0 <= i < parts@.len() implies (#[trigger] call.parts@[i])@
            == parts@[i]@ by {
            assert(parts_model(call.parts@)[i] == parts_model(parts@)[i]);
        }
    }
}

// ----- the upload ------------------------------------------------------------------------------

/// The object that holds each text of a schema under its field.
pub open spec fn schema_doc(schema: Map<Seq<char>, String>) -> Json {
    Json::Object(
        Map::new(|k: Seq<char>| schema.contains_key(k), |k: Seq<char>| Json::Str(schema[k]@)),
    )
}

/// How a schema is written, where there is one: as the object of its fields.
pub open spec fn written(schema: Option<FieldMap<String>>) -> Option<Result<Seq<char>, Seq<char>>> {
    match schema {
        Some(m) => Some(json_to_text(schema_doc(m@))),
        None => None,
    }
}

/// The text of a schema that was written.
pub open spec fn schema_text(schema: Option<FieldMap<String>>) -> Option<Seq<char>> {
    match written(schema) {
        Some(Ok(text)) => Some(text),
        _ => None,
    }
}

/// Whether `r` is the upload of a model, or the reason why there is none.
pub open spec fn uploads(
    r: Result<MultipartCall, PulseError>,
    base: &str,
    token: Option<String>,
    name: Seq<char>,
    runtime: Option<String>,
    filename: Seq<char>,
    bytes: Seq<u8>,
    input: Option<FieldMap<String>>,
    output: Option<FieldMap<String>>,
) -> bool {
    if bytes.len() == 0 {
        r matches Err(PulseError::InvalidConfig(text)) && text@ == "model bytes are empty"@
    } else if let Some(Err(cause)) = written(input) {
        r matches Err(PulseError::Json(text)) && text@ == cause
    } else if let Some(Err(cause)) = written(output) {
        r matches Err(PulseError::Json(text)) && text@ == cause
    } else if !usable(token) {
        r matches Err(PulseError::NoToken { path }) && path@ == "/api/pulse/ml-models"@
    } else {
        &&& r matches Ok(call)
        &&& call.path@ == "/api/pulse/ml-models"@
        &&& call.url@ == base@ + "/api/pulse/ml-models"@
        &&& call.bearer@ == token->0@
        &&& form_is(
            call.parts@,
            name,
            runtime,
            filename,
            bytes,
            schema_text(input),
            schema_text(output),
        )
    }
}

proof fn lemma_written(schema: Option<FieldMap<String>>)
    ensures
        written(schema) == crate::resources::schema_text(schema),
        schema matches Some(m) ==> holds_texts(schema_doc(m@), m@),
{
    if let Some(m) = schema {
        assert(text_members(m@) =~= schema_doc(m@)->Object_0);
        assert(schema_doc(m@)->Object_0.dom() =~= m@.dom());
    }
}

proof fn lemma_uploads(
    r: Result<MultipartCall, PulseError>,
    base: &str,
    token: Option<String>,
    client: crate::client::ClientModel,
    name: Seq<char>,
    runtime: Option<String>,
    filename: Seq<char>,
    bytes: Seq<u8>,
    input: Option<FieldMap<String>>,
    output: Option<FieldMap<String>>,
)
    requires
        base@ == client.base_url,
        crate::json::opt_text(token) == client.token,
        crate::resources::multipart_result(r) == crate::resources::send_model(
            client,
            name,
            crate::json::opt_text(runtime),
            filename,
            bytes,
            input,
            output,
        ),
    ensures
        uploads(r, base, token, name, runtime, filename, bytes, input, output),
{
    lemma_written(input);
    lemma_written(output);
    if let Ok(call) = r {
        lemma_parts(call.parts@);
        let model = parts_model(call.parts@);
        assert(call.parts@[0]@ == model[0] && call.parts@[1]@ == model[1] && call.parts@[2]@
            == model[2]);
        if input is Some {
            assert(call.parts@[3]@ == model[3]);
        }
        if output is Some {
            let last = call.parts@.len() - 1;
            assert(call.parts@[last]@ == model[last]);
        }
    }
}

/// An upload needs a name and exactly one of a path and bytes. Bytes are sent under the name of the
/// model; a file is to be read first, and nothing of the upload is lost meanwhile.
pub proof fn law_uploads(
    client: PulseClient,
    base: &str,
    token: Option<String>,
    resource: ModelsResource<'_>,
    upload: ModelUpload,
    r: Result<UploadStep, PulseError>,
)
    requires
        talks_to(client, base, token),
        call_ensures(PulseClient::models, (&client,), resource),
        call_ensures(ModelsResource::upload, (&resource, upload), r),
    ensures
        if all_space(upload.name@) {
            r matches Err(PulseError::InvalidConfig(text)) && text@
                == "model name must be a non-empty string"@
        } else {
            match (upload.path, upload.data) {
                (Some(path), None) => r matches Ok(UploadStep::ReadFile(pending)) && pending.path@
                    == path@ && pending.name@ == upload.name@ && pending.runtime == upload.runtime
                    && pending.input_schema == upload.input_schema && pending.output_schema
                    == upload.output_schema,
                (None, Some(data)) => {
                    let sent = match r {
                        Ok(UploadStep::Send(call)) => Ok(call),
                        Ok(UploadStep::ReadFile(_)) => Err(PulseError::Json(upload.name)),
                        Err(e) => Err(e),
                    };
                    &&& !(r matches Ok(UploadStep::ReadFile(_)))
                    &&& uploads(
                        sent,
                        base,
                        token,
                        upload.name@,
                        upload.runtime,
                        upload.name@ + ".onnx"@,
                        data@,
                        upload.input_schema,
                        upload.output_schema,
                    )
                },
                _ => r matches Err(PulseError::InvalidConfig(text)) && text@
                    == "provide exactly one of 'path' or 'data'"@,
            }
        },
{
    lemma_blank(upload.name@);
    if let (None, Some(data)) = (upload.path, upload.data) {
        if !all_space(upload.name@) {
            let sent = match r {
                Ok(UploadStep::Send(call)) => Ok(call),
                Ok(UploadStep::ReadFile(_)) => Err(PulseError::Json(upload.name)),
                Err(e) => Err(e),
            };
            lemma_uploads(
                sent,
                base,
                token,
                client@,
                upload.name@,
                upload.runtime,
                upload.name@ + ".onnx"@,
                data@,
                upload.input_schema,
                upload.output_schema,
            );
        }
    }
}

/// Whether `name` is what follows the last slash or backslash of a path.
pub open spec fn last_component(path: Seq<char>, name: Seq<char>) -> bool {
    &&& name.len() <= path.len()
    &&& name == path.skip(path.len() - name.len())
    &&& forall|i: int| 0 <= i < name.len() ==> #[trigger] name[i] != '/' && name[i] != '\\'
    &&& name.len() < path.len() ==> {
        let before = path[path.len() - name.len() - 1];
        before == '/' || before == '\\'
    }
}

/// A file that was read is sent under the last component of its path, and as `model.onnx` where
/// that is empty. One that could not be read is a transport failure that says so.
pub proof fn law_file_uploads(
    client: PulseClient,
    base: &str,
    token: Option<String>,
    resource: ModelsResource<'_>,
    pending: PendingUpload,
    read: Result<Vec<u8>, String>,
    r: Result<MultipartCall, PulseError>,
)
    requires
        talks_to(client, base, token),
        call_ensures(PulseClient::models, (&client,), resource),
        call_ensures(ModelsResource::upload_file, (&resource, pending, read), r),
    ensures
        match read {
            Ok(bytes) => exists|name: Seq<char>| #[trigger]
                last_component(pending.path@, name) && uploads(
                    r,
                    base,
                    token,
                    pending.name@,
                    pending.runtime,
                    if name.len() > 0 {
                        name
                    } else {
                        "model.onnx"@
                    },
                    bytes@,
                    pending.input_schema,
                    pending.output_schema,
                ),
            Err(cause) => r matches Err(PulseError::Transport(text)) && text@ == "read "@
                + pending.path@ + ": "@ + cause@,
        },
{
    if let Ok(bytes) = read {
        law_base_name_is_the_last_component(pending.path@);
        let name = base_name(pending.path@);
        assert(last_component(pending.path@, name));
        lemma_uploads(
            r,
            base,
            token,
            client@,
            pending.name@,
            pending.runtime,
            file_name(pending.path@),
            bytes@,
            pending.input_schema,
            pending.output_schema,
        );
    }
}

/// An upload is described by what was set of it, and by nothing else.
pub proof fn law_upload_settings(
    name: &str,
    text: &str,
    data: Vec<u8>,
    upload: ModelUpload,
    schema: FieldMap<String>,
    r: ModelUpload,
)
    ensures
        call_ensures(ModelUpload::from_path, (name, text), r) ==> r.name@ == name@ && (
        r.path matches Some(p) && p@ == text@) && r.data is None && r.runtime is None
            && r.input_schema is None && r.output_schema is None,
        call_ensures(ModelUpload::from_bytes, (name, data), r) ==> r.name@ == name@
            && r.path is None
            && (r.data matches Some(d) && d@ == data@) && r.runtime is None
                && r.input_schema is None
            && r.output_schema is None,
        call_ensures(ModelUpload::runtime, (upload, text), r) ==> (r.runtime matches Some(t) && t@
            == text@) && r == (ModelUpload { runtime: r.runtime, ..upload }),
        call_ensures(ModelUpload::input_schema, (upload, schema), r) ==> (r.input_schema matches Some(
            m,
        ) && m@ == schema@) && r == (ModelUpload { input_schema: r.input_schema, ..upload }),
        call_ensures(ModelUpload::output_schema, (upload, schema), r) ==> (
        r.output_schema matches Some(m) && m@ == schema@) && r == (ModelUpload {
            output_schema: r.output_schema,
            ..upload
        }),
{
}

} // verus!
