//! The resources of the REST API. Each method plans the request of one endpoint.
use crate::client::{
    call_model, has_token, plan_model, plans_list, ClientModel, HttpCall, ListCall, PulseClient,
};
use crate::encode::{encode_path, encoded, law_encoding_is_injective};
use crate::error::{ErrorModel, PulseError};
use crate::fields::{clone_texts, opt_map, text_members, texts_object, FieldMap};
use crate::json::{
    json_of, json_to_text, object_value, opt_seq, opt_text, set_text, text_member, text_member_of,
    write_text, Json, Members,
};
use crate::retry::Method;
use crate::text::{blank, chars_of, is_blank, slice_chars, string_of};
use serde_json::Value;
use vstd::prelude::*;

verus! {

/// `prefix` followed by an encoded id.
fn path_with(prefix: &str, id: &str) -> (r: String)
    ensures
        r@ == prefix@ + encoded(id@),
{
    prefix.to_owned().concat(encode_path(id).as_str())
}

// ----- auth ------------------------------------------------------------------------------------

/// Login, refresh, organisations.
pub struct AuthResource<'c> {
    client: &'c PulseClient,
}

impl View for AuthResource<'_> {
    type V = ClientModel;

    closed spec fn view(&self) -> ClientModel {
        self.client@
    }
}

impl<'c> AuthResource<'c> {
    pub(crate) fn new(client: &'c PulseClient) -> (r: Self)
        ensures
            r@ == client@,
    {
        AuthResource { client }
    }

    /// `POST /api/auth/login`: exchanges a user name and a password for a token. The token of the
    /// answer is to be cached with [`cache_token`].
    pub fn login(&self, username: &str, password: &str) -> (r: Result<HttpCall, PulseError>)
        ensures
            plan_model(r) == call_model(
                self@,
                Method::Post,
                "/api/auth/login"@,
                Some(
                    Json::Object(
                        Members::empty().insert("username"@, Json::Str(username@)).insert(
                            "password"@,
                            Json::Str(password@),
                        ),
                    ),
                ),
                false,
            ),
            r is Ok,
    {
        let mut m = serde_json::Map::new();
        set_text(&mut m, "username", username);
        set_text(&mut m, "password", password);
        self.client.request_once(Method::Post, "/api/auth/login", Some(object_value(m)), false)
    }

    /// `POST /api/auth/refresh`: exchanges a refresh token for a new token, to be cached with
    /// [`cache_token`].
    pub fn refresh(&self, refresh_token: &str) -> (r: Result<HttpCall, PulseError>)
        ensures
            plan_model(r) == call_model(
                self@,
                Method::Post,
                "/api/auth/refresh"@,
                Some(
                    Json::Object(
                        Members::empty().insert("refreshToken"@, Json::Str(refresh_token@)),
                    ),
                ),
                false,
            ),
            r is Ok,
    {
        let mut m = serde_json::Map::new();
        set_text(&mut m, "refreshToken", refresh_token);
        self.client.request_once(Method::Post, "/api/auth/refresh", Some(object_value(m)), false)
    }

    /// `GET /api/auth/organizations`: the organisations of the user.
    pub fn organizations(&self) -> (r: Result<ListCall, PulseError>)
        ensures
            plans_list(
                r,
                call_model(self@, Method::Get, "/api/auth/organizations"@, None, true),
                "organizations"@,
            ),
    {
        self.client.request_list("/api/auth/organizations", "organizations")
    }

    /// `POST /api/auth/switch-org`: switches the active organisation. The new token is to be cached
    /// with [`cache_token`].
    pub fn switch_org(&self, org_id: &str) -> (r: Result<HttpCall, PulseError>)
        ensures
            plan_model(r) == call_model(
                self@,
                Method::Post,
                "/api/auth/switch-org"@,
                Some(Json::Object(Members::empty().insert("orgId"@, Json::Str(org_id@)))),
                true,
            ),
    {
        let mut m = serde_json::Map::new();
        set_text(&mut m, "orgId", org_id);
        self.client.request_once(Method::Post, "/api/auth/switch-org", Some(object_value(m)), true)
    }
}

/// The token that an answer carries: its member `token`, where that is a string that is not empty.
pub open spec fn token_in(response: Json) -> Option<Seq<char>> {
    match text_member_of(response, "token"@) {
        Some(t) => if t.len() > 0 {
            Some(t)
        } else {
            None
        },
        None => None,
    }
}

/// The client after an answer: with the token that the answer carries, and as it was without one.
pub open spec fn with_token_of(client: ClientModel, response: Json) -> ClientModel {
    match token_in(response) {
        Some(t) => ClientModel { token: Some(t), ..client },
        None => client,
    }
}

/// Makes the token that an answer carries that of the client. Without one the client stays as it
/// is.
pub fn cache_token(client: &mut PulseClient, response: &Value)
    ensures
        final(client)@ == with_token_of(old(client)@, json_of(*response)),
{
    if let Some(token) = text_member(response, "token") {
        if !token.is_empty() {
            client.set_token(token);
        }
    }
}

/// The client after a login, a refresh or a switch that ended in `result`. A failure leaves it as it
/// was.
pub open spec fn after_login(
    client: ClientModel,
    result: Result<Json, ErrorModel>,
) -> ClientModel {
    match result {
        Ok(response) => with_token_of(client, response),
        Err(_) => client,
    }
}

/// Takes in how a login, a refresh or a switch ended: caches the token of a success, and leaves the
/// client as it was after a failure.
pub fn cache_outcome(client: &mut PulseClient, result: Result<&Value, &PulseError>)
    ensures
        final(client)@ == after_login(
            old(client)@,
            match result {
                Ok(response) => Ok(json_of(*response)),
                Err(e) => Err(e@),
            },
        ),
{
    if let Ok(response) = result {
        cache_token(client, response);
    }
}

// ----- pipelines -------------------------------------------------------------------------------

/// Pipelines.
pub struct PipelinesResource<'c> {
    client: &'c PulseClient,
}

impl View for PipelinesResource<'_> {
    type V = ClientModel;

    closed spec fn view(&self) -> ClientModel {
        self.client@
    }
}

impl<'c> PipelinesResource<'c> {
    pub(crate) fn new(client: &'c PulseClient) -> (r: Self)
        ensures
            r@ == client@,
    {
        PipelinesResource { client }
    }

    /// `GET /api/pulse/pipelines`: every pipeline of the organisation.
    pub fn list(&self) -> (r: Result<ListCall, PulseError>)
        ensures
            plans_list(
                r,
                call_model(self@, Method::Get, "/api/pulse/pipelines"@, None, true),
                "pipelines"@,
            ),
    {
        self.client.request_list("/api/pulse/pipelines", "pipelines")
    }

    /// `GET /api/pulse/pipelines/{id}`: one pipeline.
    pub fn get(&self, pipeline_id: &str) -> (r: Result<HttpCall, PulseError>)
        ensures
            plan_model(r) == call_model(
                self@,
                Method::Get,
                "/api/pulse/pipelines/"@ + encoded(pipeline_id@),
                None,
                true,
            ),
    {
        let path = path_with("/api/pulse/pipelines/", pipeline_id);
        self.client.request_once(Method::Get, path.as_str(), None, true)
    }

    /// `POST /api/pulse/pipelines`: creates and deploys a pipeline.
    pub fn create(&self, definition: &Value) -> (r: Result<HttpCall, PulseError>)
        ensures
            plan_model(r) == call_model(
                self@,
                Method::Post,
                "/api/pulse/pipelines"@,
                Some(json_of(*definition)),
                true,
            ),
    {
        self.client.request_once(
            Method::Post,
            "/api/pulse/pipelines",
            Some(definition.clone()),
            true,
        )
    }

    /// `DELETE /api/pulse/pipelines/{id}`: tears a pipeline down.
    pub fn delete(&self, pipeline_id: &str) -> (r: Result<HttpCall, PulseError>)
        ensures
            plan_model(r) == call_model(
                self@,
                Method::Delete,
                "/api/pulse/pipelines/"@ + encoded(pipeline_id@),
                None,
                true,
            ),
    {
        let path = path_with("/api/pulse/pipelines/", pipeline_id);
        self.client.request_once(Method::Delete, path.as_str(), None, true)
    }
}

// ----- agents ----------------------------------------------------------------------------------

/// Agents.
pub struct AgentsResource<'c> {
    client: &'c PulseClient,
}

impl View for AgentsResource<'_> {
    type V = ClientModel;

    closed spec fn view(&self) -> ClientModel {
        self.client@
    }
}

impl<'c> AgentsResource<'c> {
    pub(crate) fn new(client: &'c PulseClient) -> (r: Self)
        ensures
            r@ == client@,
    {
        AgentsResource { client }
    }

    /// `GET /api/pulse/agents`: every deployed agent of the organisation.
    pub fn list(&self) -> (r: Result<ListCall, PulseError>)
        ensures
            plans_list(
                r,
                call_model(self@, Method::Get, "/api/pulse/agents"@, None, true),
                "agents"@,
            ),
    {
        self.client.request_list("/api/pulse/agents", "agents")
    }

    /// `GET /api/pulse/agents/{id}`: one agent.
    pub fn get(&self, agent_id: &str) -> (r: Result<HttpCall, PulseError>)
        ensures
            plan_model(r) == call_model(
                self@,
                Method::Get,
                "/api/pulse/agents/"@ + encoded(agent_id@),
                None,
                true,
            ),
    {
        let path = path_with("/api/pulse/agents/", agent_id);
        self.client.request_once(Method::Get, path.as_str(), None, true)
    }

    /// `PUT /api/pulse/agents/{id}`: replaces the whole configuration of an agent.
    pub fn update(&self, agent_id: &str, config: &Value) -> (r: Result<HttpCall, PulseError>)
        ensures
            plan_model(r) == call_model(
                self@,
                Method::Put,
                "/api/pulse/agents/"@ + encoded(agent_id@),
                Some(json_of(*config)),
                true,
            ),
    {
        let path = path_with("/api/pulse/agents/", agent_id);
        self.client.request_once(Method::Put, path.as_str(), Some(config.clone()), true)
    }

    /// `DELETE /api/pulse/agents/{id}`: stops an agent and removes its configuration.
    pub fn delete(&self, agent_id: &str) -> (r: Result<HttpCall, PulseError>)
        ensures
            plan_model(r) == call_model(
                self@,
                Method::Delete,
                "/api/pulse/agents/"@ + encoded(agent_id@),
                None,
                true,
            ),
    {
        let path = path_with("/api/pulse/agents/", agent_id);
        self.client.request_once(Method::Delete, path.as_str(), None, true)
    }
}

// ----- templates, users, connectors ------------------------------------------------------------

/// Templates.
pub struct TemplatesResource<'c> {
    client: &'c PulseClient,
}

impl View for TemplatesResource<'_> {
    type V = ClientModel;

    closed spec fn view(&self) -> ClientModel {
        self.client@
    }
}

impl<'c> TemplatesResource<'c> {
    pub(crate) fn new(client: &'c PulseClient) -> (r: Self)
        ensures
            r@ == client@,
    {
        TemplatesResource { client }
    }

    /// `GET /api/pulse/templates`: the templates.
    pub fn list(&self) -> (r: Result<ListCall, PulseError>)
        ensures
            plans_list(
                r,
                call_model(self@, Method::Get, "/api/pulse/templates"@, None, true),
                "templates"@,
            ),
    {
        self.client.request_list("/api/pulse/templates", "templates")
    }
}

/// Users.
pub struct UsersResource<'c> {
    client: &'c PulseClient,
}

impl View for UsersResource<'_> {
    type V = ClientModel;

    closed spec fn view(&self) -> ClientModel {
        self.client@
    }
}

impl<'c> UsersResource<'c> {
    pub(crate) fn new(client: &'c PulseClient) -> (r: Self)
        ensures
            r@ == client@,
    {
        UsersResource { client }
    }

    /// `GET /api/pulse/users`: every user of the organisation.
    pub fn list(&self) -> (r: Result<ListCall, PulseError>)
        ensures
            plans_list(
                r,
                call_model(self@, Method::Get, "/api/pulse/users"@, None, true),
                "users"@,
            ),
    {
        self.client.request_list("/api/pulse/users", "users")
    }
}

/// The catalogue of connectors.
pub struct ConnectorsResource<'c> {
    client: &'c PulseClient,
}

impl View for ConnectorsResource<'_> {
    type V = ClientModel;

    closed spec fn view(&self) -> ClientModel {
        self.client@
    }
}

impl<'c> ConnectorsResource<'c> {
    pub(crate) fn new(client: &'c PulseClient) -> (r: Self)
        ensures
            r@ == client@,
    {
        ConnectorsResource { client }
    }

    /// `GET /api/pulse/connectors`: the whole catalogue.
    pub fn list(&self) -> (r: Result<HttpCall, PulseError>)
        ensures
            plan_model(r) == call_model(self@, Method::Get, "/api/pulse/connectors"@, None, true),
    {
        self.client.request_once(Method::Get, "/api/pulse/connectors", None, true)
    }

    /// The sinks of the catalogue.
    pub fn sinks(&self) -> (r: Result<ListCall, PulseError>)
        ensures
            plans_list(
                r,
                call_model(self@, Method::Get, "/api/pulse/connectors"@, None, true),
                "sinks"@,
            ),
    {
        self.client.request_list("/api/pulse/connectors", "sinks")
    }

    /// The sources of the catalogue.
    pub fn sources(&self) -> (r: Result<ListCall, PulseError>)
        ensures
            plans_list(
                r,
                call_model(self@, Method::Get, "/api/pulse/connectors"@, None, true),
                "sources"@,
            ),
    {
        self.client.request_list("/api/pulse/connectors", "sources")
    }
}

// ----- models ----------------------------------------------------------------------------------

/// A model to upload. Its bytes are given either by the path of a file or as they are.
#[derive(Debug)]
pub struct ModelUpload {
    /// The name that predictions refer to it by.
    pub name: String,
    /// The path of the `.onnx` file. Excludes `data`.
    pub path: Option<String>,
    /// The bytes of the model. Excludes `path`.
    pub data: Option<Vec<u8>>,
    /// The runtime; `onnx` by default.
    pub runtime: Option<String>,
    /// The types of the features.
    pub input_schema: Option<FieldMap<String>>,
    /// The types of the outputs.
    pub output_schema: Option<FieldMap<String>>,
}

impl Clone for ModelUpload {
    fn clone(&self) -> (r: Self)
        ensures
            r.name == self.name,
            r.path == self.path,
            opt_seq(r.data) == opt_seq(self.data),
            r.runtime == self.runtime,
            opt_map(r.input_schema) == opt_map(self.input_schema),
            opt_map(r.output_schema) == opt_map(self.output_schema),
    {
        let data = match &self.data {
            Some(items) => {
                let copy = items.clone();
                assert(copy@ =~= items@);
                Some(copy)
            },
            None => None,
        };
        ModelUpload {
            name: self.name.clone(),
            path: self.path.clone(),
            data,
            runtime: self.runtime.clone(),
            input_schema: clone_texts(&self.input_schema),
            output_schema: clone_texts(&self.output_schema),
        }
    }
}

impl Default for ModelUpload {
    fn default() -> (r: Self)
        ensures
            r.name@ == Seq::<char>::empty(),
            r.path is None,
            r.data is None,
            r.runtime is None,
            r.input_schema is None,
            r.output_schema is None,
    {
        ModelUpload {
            name: String::new(),
            path: None,
            data: None,
            runtime: None,
            input_schema: None,
            output_schema: None,
        }
    }
}

impl ModelUpload {
    /// The upload of the file at `path`.
    pub fn from_path(name: &str, path: &str) -> (r: Self)
        ensures
            r.name@ == name@,
            r.path matches Some(p) && p@ == path@,
            r.data is None,
            r.runtime is None,
            r.input_schema is None,
            r.output_schema is None,
    {
        let mut upload = ModelUpload::default();
        upload.name = name.to_owned();
        upload.path = Some(path.to_owned());
        upload
    }

    /// The upload of the given bytes.
    pub fn from_bytes(name: &str, data: Vec<u8>) -> (r: Self)
        ensures
            r.name@ == name@,
            r.path is None,
            r.data == Some(data),
            r.runtime is None,
            r.input_schema is None,
            r.output_schema is None,
    {
        let mut upload = ModelUpload::default();
        upload.name = name.to_owned();
        upload.data = Some(data);
        upload
    }

    /// Sets the runtime.
    pub fn runtime(self, runtime: &str) -> (r: Self)
        ensures
            r.runtime matches Some(t) && t@ == runtime@,
            r == (ModelUpload { runtime: r.runtime, ..self }),
    {
        let mut upload = self;
        upload.runtime = Some(runtime.to_owned());
        upload
    }

    /// Sets the types of the features.
    pub fn input_schema(self, schema: FieldMap<String>) -> (r: Self)
        ensures
            r == (ModelUpload { input_schema: Some(schema), ..self }),
    {
        let mut upload = self;
        upload.input_schema = Some(schema);
        upload
    }

    /// Sets the types of the outputs.
    pub fn output_schema(self, schema: FieldMap<String>) -> (r: Self)
        ensures
            r == (ModelUpload { output_schema: Some(schema), ..self }),
    {
        let mut upload = self;
        upload.output_schema = Some(schema);
        upload
    }
}

/// One part of a form.
#[derive(Debug)]
pub enum FormPart {
    Text { name: String, value: String },
    File { name: String, filename: String, mime: String, bytes: Vec<u8> },
}

/// The mathematical model of a [`FormPart`].
pub enum PartModel {
    Text { name: Seq<char>, value: Seq<char> },
    File { name: Seq<char>, filename: Seq<char>, mime: Seq<char>, bytes: Seq<u8> },
}

impl View for FormPart {
    type V = PartModel;

    open spec fn view(&self) -> PartModel {
        match *self {
            FormPart::Text { name, value } => PartModel::Text { name: name@, value: value@ },
            FormPart::File { name, filename, mime, bytes } => PartModel::File {
                name: name@,
                filename: filename@,
                mime: mime@,
                bytes: bytes@,
            },
        }
    }
}

/// The models of a sequence of parts.
pub open spec fn parts_model(parts: Seq<FormPart>) -> Seq<PartModel> {
    parts.map_values(|p: FormPart| p@)
}

/// The last component of a path, whichever slash it is written with.
pub open spec fn base_name(path: Seq<char>) -> Seq<char>
    decreases path.len(),
{
    if path.len() == 0 || path.last() == '/' || path.last() == '\\' {
        Seq::empty()
    } else {
        base_name(path.drop_last()).push(path.last())
    }
}

/// The name under which the file at `path` is sent.
pub open spec fn file_name(path: Seq<char>) -> Seq<char> {
    if base_name(path).len() == 0 {
        "model.onnx"@
    } else {
        base_name(path)
    }
}

fn file_name_of(path: &str) -> (r: String)
    ensures
        r@ == file_name(path@),
{
    let cs = chars_of(path);
    let mut from: usize = cs.len();
    assert(base_name(cs@.take(from as int)) + cs@.skip(from as int) =~= base_name(cs@)) by {
        assert(cs@.take(from as int) =~= cs@);
    }
    while from > 0 && cs[from - 1] != '/' && cs[from - 1] != '\\'
        invariant
            from <= cs.len(),
            base_name(cs@.take(from as int)) + cs@.skip(from as int) == base_name(cs@),
        decreases from,
    {
        let ghost head = cs@.take(from as int);
        assert(head.drop_last() =~= cs@.take(from - 1));
        assert(base_name(cs@.take(from - 1)).push(head.last()) + cs@.skip(from as int)
            =~= base_name(cs@.take(from - 1)) + cs@.skip(from - 1));
        from -= 1;
    }
    assert(from > 0 ==> cs@.take(from as int).last() == cs@[from - 1]);
    let base = slice_chars(&cs, from, cs.len());
    assert(base@ =~= base_name(cs@));
    if base.len() == 0 {
        "model.onnx".to_owned()
    } else {
        string_of(&base)
    }
}

/// The parts of a form, with the schema `key` where there is one, given how writing it went.
pub open spec fn with_schema(
    form: Result<Seq<PartModel>, ErrorModel>,
    key: Seq<char>,
    written: Option<Result<Seq<char>, Seq<char>>>,
) -> Result<Seq<PartModel>, ErrorModel> {
    match (form, written) {
        (Err(e), _) => Err(e),
        (Ok(parts), None) => Ok(parts),
        (Ok(parts), Some(Ok(text))) => Ok(parts.push(PartModel::Text { name: key, value: text })),
        (Ok(_), Some(Err(e))) => Err(ErrorModel::Json(e)),
    }
}

/// The parts that every upload of a model has.
pub open spec fn base_parts(
    name: Seq<char>,
    runtime: Option<Seq<char>>,
    filename: Seq<char>,
    bytes: Seq<u8>,
) -> Seq<PartModel> {
    seq![
        PartModel::Text { name: "name"@, value: name },
        PartModel::Text {
            name: "runtime"@,
            value: match runtime {
                Some(t) => t,
                None => "onnx"@,
            },
        },
        PartModel::File { name: "model"@, filename, mime: "application/octet-stream"@, bytes },
    ]
}

/// The form that uploads a model: its name, its runtime, the file, and the schemas that there are.
pub open spec fn model_form(
    name: Seq<char>,
    runtime: Option<Seq<char>>,
    filename: Seq<char>,
    bytes: Seq<u8>,
    input: Option<Result<Seq<char>, Seq<char>>>,
    output: Option<Result<Seq<char>, Seq<char>>>,
) -> Result<Seq<PartModel>, ErrorModel> {
    if bytes.len() == 0 {
        Err(ErrorModel::InvalidConfig("model bytes are empty"@))
    } else {
        let base = Ok(base_parts(name, runtime, filename, bytes));
        with_schema(with_schema(base, "inputSchema"@, input), "outputSchema"@, output)
    }
}

/// The model of a text that was written, or could not be.
pub open spec fn written_model(
    written: Option<Result<String, String>>,
) -> Option<Result<Seq<char>, Seq<char>>> {
    match written {
        None => None,
        Some(Ok(t)) => Some(Ok(t@)),
        Some(Err(e)) => Some(Err(e@)),
    }
}

/// The model of a form that was made.
pub open spec fn form_result(
    r: Result<Vec<FormPart>, PulseError>,
) -> Result<Seq<PartModel>, ErrorModel> {
    match r {
        Ok(parts) => Ok(parts_model(parts@)),
        Err(e) => Err(e@),
    }
}

fn add_schema(
    parts: Vec<FormPart>,
    key: &str,
    written: Option<Result<String, String>>,
) -> (r: Result<Vec<FormPart>, PulseError>)
    ensures
        form_result(r) == with_schema(Ok(parts_model(parts@)), key@, written_model(written)),
{
    match written {
        None => Ok(parts),
        Some(Ok(value)) => {
            let mut out = parts;
            let ghost before = out@;
            out.push(FormPart::Text { name: key.to_owned(), value });
            assert(parts_model(out@) =~= parts_model(before).push(out@.last()@));
            Ok(out)
        },
        Some(Err(e)) => Err(PulseError::Json(e)),
    }
}

/// The form that uploads a model, given how writing its schemas went. Fails on a model without
/// bytes.
pub fn form_parts(
    name: String,
    runtime: Option<String>,
    filename: String,
    bytes: Vec<u8>,
    input: Option<Result<String, String>>,
    output: Option<Result<String, String>>,
) -> (r: Result<Vec<FormPart>, PulseError>)
    ensures
        form_result(r) == model_form(
            name@,
            opt_text(runtime),
            filename@,
            bytes@,
            written_model(input),
            written_model(output),
        ),
{
    if bytes.len() == 0 {
        return Err(PulseError::InvalidConfig("model bytes are empty".to_owned()));
    }
    let ghost expected = base_parts(name@, opt_text(runtime), filename@, bytes@);
    let runtime = match runtime {
        Some(t) => t,
        None => "onnx".to_owned(),
    };
    let parts: Vec<FormPart> = vec![
        FormPart::Text { name: "name".to_owned(), value: name },
        FormPart::Text { name: "runtime".to_owned(), value: runtime },
        FormPart::File {
            name: "model".to_owned(),
            filename,
            mime: "application/octet-stream".to_owned(),
            bytes,
        },
    ];
    assert(parts_model(parts@) =~= expected);
    match add_schema(parts, "inputSchema", input) {
        Ok(more) => add_schema(more, "outputSchema", output),
        Err(e) => Err(e),
    }
}

/// A request with a form, ready to be sent.
pub struct MultipartCall {
    /// The path, as errors name it.
    pub path: String,
    pub url: String,
    /// The token to send as `Authorization: Bearer`.
    pub bearer: String,
    /// The parts of the form, in order.
    pub parts: Vec<FormPart>,
}

/// The mathematical model of a [`MultipartCall`].
pub struct MultipartModel {
    pub path: Seq<char>,
    pub url: Seq<char>,
    pub bearer: Seq<char>,
    pub parts: Seq<PartModel>,
}

impl View for MultipartCall {
    type V = MultipartModel;

    open spec fn view(&self) -> MultipartModel {
        MultipartModel {
            path: self.path@,
            url: self.url@,
            bearer: self.bearer@,
            parts: parts_model(self.parts@),
        }
    }
}

/// The request that a client makes with a form. It is always authenticated.
pub open spec fn multipart_model(
    client: ClientModel,
    path: Seq<char>,
    form: Result<Seq<PartModel>, ErrorModel>,
) -> Result<MultipartModel, ErrorModel> {
    match form {
        Err(e) => Err(e),
        Ok(parts) => if has_token(client) {
            Ok(
                MultipartModel {
                    path,
                    url: client.base_url + path,
                    bearer: client.token->0,
                    parts,
                },
            )
        } else {
            Err(ErrorModel::NoToken { path })
        },
    }
}

/// The model of a planned request with a form.
pub open spec fn multipart_result(
    r: Result<MultipartCall, PulseError>,
) -> Result<MultipartModel, ErrorModel> {
    match r {
        Ok(call) => Ok(call@),
        Err(e) => Err(e@),
    }
}

/// The request with the form `parts` to `path`.
pub fn request_multipart(
    client: &PulseClient,
    path: &str,
    parts: Vec<FormPart>,
) -> (r: Result<MultipartCall, PulseError>)
    ensures
        multipart_result(r) == multipart_model(client@, path@, Ok(parts_model(parts@))),
{
    let url = client.url_of(path);
    match client.bearer(path) {
        Ok(bearer) => Ok(MultipartCall { path: path.to_owned(), url, bearer, parts }),
        Err(e) => Err(e),
    }
}

/// An upload that waits for its file to be read.
#[derive(Debug)]
pub struct PendingUpload {
    /// The path of the file.
    pub path: String,
    pub name: String,
    pub runtime: Option<String>,
    pub input_schema: Option<FieldMap<String>>,
    pub output_schema: Option<FieldMap<String>>,
}

/// What an upload needs next.
pub enum UploadStep {
    /// The file is to be read, and handed to [`ModelsResource::upload_file`].
    ReadFile(PendingUpload),
    /// The request is to be sent.
    Send(MultipartCall),
}

/// How a schema is written, where there is one.
pub open spec fn schema_text(
    schema: Option<FieldMap<String>>,
) -> Option<Result<Seq<char>, Seq<char>>> {
    match schema {
        Some(m) => Some(json_to_text(Json::Object(text_members(m@)))),
        None => None,
    }
}

fn write_schema(schema: Option<FieldMap<String>>) -> (r: Option<Result<String, String>>)
    ensures
        written_model(r) == schema_text(schema),
{
    match schema {
        Some(m) => Some(write_text(&texts_object(m))),
        None => None,
    }
}

/// The path of the model registry.
pub const MODELS_PATH: &'static str = "/api/pulse/ml-models";

/// The request that sends a model.
pub open spec fn send_model(
    client: ClientModel,
    name: Seq<char>,
    runtime: Option<Seq<char>>,
    filename: Seq<char>,
    bytes: Seq<u8>,
    input_schema: Option<FieldMap<String>>,
    output_schema: Option<FieldMap<String>>,
) -> Result<MultipartModel, ErrorModel> {
    multipart_model(
        client,
        "/api/pulse/ml-models"@,
        model_form(
            name,
            runtime,
            filename,
            bytes,
            schema_text(input_schema),
            schema_text(output_schema),
        ),
    )
}

/// The registry of ML models that streams score their events with.
pub struct ModelsResource<'c> {
    client: &'c PulseClient,
}

impl View for ModelsResource<'_> {
    type V = ClientModel;

    closed spec fn view(&self) -> ClientModel {
        self.client@
    }
}

impl<'c> ModelsResource<'c> {
    pub(crate) fn new(client: &'c PulseClient) -> (r: Self)
        ensures
            r@ == client@,
    {
        ModelsResource { client }
    }

    fn send(
        &self,
        name: String,
        runtime: Option<String>,
        filename: String,
        bytes: Vec<u8>,
        input_schema: Option<FieldMap<String>>,
        output_schema: Option<FieldMap<String>>,
    ) -> (r: Result<MultipartCall, PulseError>)
        ensures
            multipart_result(r) == send_model(
                self@,
                name@,
                opt_text(runtime),
                filename@,
                bytes@,
                input_schema,
                output_schema,
            ),
    {
        let input = write_schema(input_schema);
        let output = write_schema(output_schema);
        match form_parts(name, runtime, filename, bytes, input, output) {
            Ok(parts) => request_multipart(self.client, MODELS_PATH, parts),
            Err(e) => Err(e),
        }
    }

    /// `POST /api/pulse/ml-models`: uploads a model, or replaces it, as a form with the file part
    /// `model` and the text parts `name`, `runtime` and, where given, `inputSchema` and
    /// `outputSchema`. Fails on a blank name, unless exactly one of path and data is given, and on
    /// a model without bytes.
    pub fn upload(&self, upload: ModelUpload) -> (r: Result<UploadStep, PulseError>)
        ensures
            if blank(upload.name@) {
                r matches Err(e) && e@ == ErrorModel::InvalidConfig(
                    "model name must be a non-empty string"@,
                )
            } else {
                match (upload.path, upload.data) {
                    (Some(path), None) => r matches Ok(UploadStep::ReadFile(pending)) && pending
                        == (PendingUpload {
                        path,
                        name: upload.name,
                        runtime: upload.runtime,
                        input_schema: upload.input_schema,
                        output_schema: upload.output_schema,
                    }),
                    (None, Some(data)) => match send_model(
                        self@,
                        upload.name@,
                        opt_text(upload.runtime),
                        upload.name@ + ".onnx"@,
                        data@,
                        upload.input_schema,
                        upload.output_schema,
                    ) {
                        Ok(call) => r matches Ok(UploadStep::Send(c)) && c@ == call,
                        Err(e) => r matches Err(err) && err@ == e,
                    },
                    _ => r matches Err(e) && e@ == ErrorModel::InvalidConfig(
                        "provide exactly one of 'path' or 'data'"@,
                    ),
                }
            },
    {
        if is_blank(upload.name.as_str()) {
            return Err(
                PulseError::InvalidConfig("model name must be a non-empty string".to_owned()),
            );
        }
        match (upload.path, upload.data) {
            (Some(path), None) => Ok(
                UploadStep::ReadFile(
                    PendingUpload {
                        path,
                        name: upload.name,
                        runtime: upload.runtime,
                        input_schema: upload.input_schema,
                        output_schema: upload.output_schema,
                    },
                ),
            ),
            (None, Some(data)) => {
                let filename = upload.name.clone().concat(".onnx");
                match self.send(
                    upload.name,
                    upload.runtime,
                    filename,
                    data,
                    upload.input_schema,
                    upload.output_schema,
                ) {
                    Ok(call) => Ok(UploadStep::Send(call)),
                    Err(e) => Err(e),
                }
            },
            _ => Err(
                PulseError::InvalidConfig("provide exactly one of 'path' or 'data'".to_owned()),
            ),
        }
    }

    /// Goes on with an upload whose file was read, or could not be, by the description of the
    /// failure.
    pub fn upload_file(
        &self,
        pending: PendingUpload,
        read: Result<Vec<u8>, String>,
    ) -> (r: Result<MultipartCall, PulseError>)
        ensures
            match read {
                Ok(bytes) => multipart_result(r) == send_model(
                    self@,
                    pending.name@,
                    opt_text(pending.runtime),
                    file_name(pending.path@),
                    bytes@,
                    pending.input_schema,
                    pending.output_schema,
                ),
                Err(cause) => r matches Err(e) && e@ == ErrorModel::Transport(
                    "read "@ + pending.path@ + ": "@ + cause@,
                ),
            },
    {
        match read {
            Ok(bytes) => {
                let filename = file_name_of(pending.path.as_str());
                self.send(
                    pending.name,
                    pending.runtime,
                    filename,
                    bytes,
                    pending.input_schema,
                    pending.output_schema,
                )
            },
            Err(cause) => Err(
                PulseError::Transport(
                    "read ".to_owned().concat(pending.path.as_str()).concat(": ").concat(
                        cause.as_str(),
                    ),
                ),
            ),
        }
    }

    /// `GET /api/pulse/ml-models`: the models of the organisation.
    pub fn list(&self) -> (r: Result<ListCall, PulseError>)
        ensures
            plans_list(
                r,
                call_model(self@, Method::Get, "/api/pulse/ml-models"@, None, true),
                "models"@,
            ),
    {
        self.client.request_list("/api/pulse/ml-models", "models")
    }

    /// `GET /api/pulse/ml-models/{name}`: what is known of one model.
    pub fn get(&self, name: &str) -> (r: Result<HttpCall, PulseError>)
        ensures
            plan_model(r) == call_model(
                self@,
                Method::Get,
                "/api/pulse/ml-models/"@ + encoded(name@),
                None,
                true,
            ),
    {
        let path = path_with("/api/pulse/ml-models/", name);
        self.client.request_once(Method::Get, path.as_str(), None, true)
    }

    /// `DELETE /api/pulse/ml-models/{name}`: removes a model.
    pub fn delete(&self, name: &str) -> (r: Result<HttpCall, PulseError>)
        ensures
            plan_model(r) == call_model(
                self@,
                Method::Delete,
                "/api/pulse/ml-models/"@ + encoded(name@),
                None,
                true,
            ),
    {
        let path = path_with("/api/pulse/ml-models/", name);
        self.client.request_once(Method::Delete, path.as_str(), None, true)
    }
}

// ----- laws ------------------------------------------------------------------------------------

/// Different ids lead to different paths, so a request never reaches another resource than the one
/// it names.
pub proof fn law_paths_name_one_resource(prefix: Seq<char>, a: Seq<char>, b: Seq<char>)
    requires
        prefix + encoded(a) == prefix + encoded(b),
    ensures
        a == b,
{
    let k = prefix.len() as int;
    assert((prefix + encoded(a)).skip(k) =~= encoded(a));
    assert((prefix + encoded(b)).skip(k) =~= encoded(b));
    law_encoding_is_injective(a, b);
}

/// After an answer the token is the text of its member `token`, where that is a string that is not
/// empty, and the old one otherwise. All else of the client stays as it was.
pub proof fn law_only_a_token_is_cached(client: ClientModel, response: Json)
    ensures
        ({
            let after = with_token_of(client, response);
            &&& after.token == match text_member_of(response, "token"@) {
                Some(t) => if t.len() > 0 {
                    Some(t)
                } else {
                    client.token
                },
                None => client.token,
            }
            &&& after == (ClientModel { token: after.token, ..client })
        }),
{
}

/// A login that fails leaves the client as it was, its token included.
pub proof fn law_failed_login_changes_nothing(client: ClientModel, e: ErrorModel)
    ensures
        after_login(client, Err(e)) == client,
{
}

/// A login is enough: once it has succeeded with a token, authenticated requests are sent, with that
/// token.
pub proof fn law_login_authenticates(
    client: ClientModel,
    response: Json,
    method: Method,
    path: Seq<char>,
    body: Option<Json>,
)
    requires
        token_in(response) is Some,
    ensures
        call_model(after_login(client, Ok(response)), method, path, body, true) matches Ok(call)
            && call.bearer == token_in(response),
{
}

/// What follows the last slash of a path holds no slash, and is the end of the path.
pub proof fn law_base_name_is_the_last_component(path: Seq<char>)
    ensures
        forall|i: int|
            0 <= i < base_name(path).len() ==> #[trigger] base_name(path)[i] != '/' && base_name(
                path,
            )[i] != '\\',
        base_name(path).len() <= path.len(),
        base_name(path) == path.skip(path.len() - base_name(path).len()),
        base_name(path).len() < path.len() ==> {
            let c = path[path.len() - base_name(path).len() - 1];
            c == '/' || c == '\\'
        },
    decreases path.len(),
{
    if !(path.len() == 0 || path.last() == '/' || path.last() == '\\') {
        let init = path.drop_last();
        law_base_name_is_the_last_component(init);
        assert(base_name(path) =~= path.skip(path.len() - base_name(path).len()));
    }
}

} // verus!
