//! Streams: pipelines that are declared here and run on the server.
//!
//! A [`StreamBuilder`] records a source, a chain of operators and a sink, and compiles them to the
//! pipeline definition that the server accepts. Conditions and expressions are strings.
use crate::client::{call_model, plan_model, ClientModel, HttpCall, PulseClient};
use crate::error::{ErrorModel, PulseError};
use crate::fields::{text_members, texts_object, values_object, FieldMap};
use crate::json::{
    array_value, int_value, items_of, json_of, jsons_of, member_of, members_of, object_value,
    opt_count, opt_json, opt_str, opt_text, put, put_count, put_text, put_value, set_text,
    string_value, strs, text_member_of, texts_value, Json, Members,
};
use crate::options::{
    branch_json, opt_int, opt_texts, opt_values, valid_branches, valid_failure, valid_fields,
    valid_ordering, valid_refresh_mode, BranchSpec, BroadcastJoinOptions, CdcJoinOptions,
    CepOptions, EnrichAsyncOptions, ExtractOptions, MapLlmOptions, MapOptions, McpCallOptions,
    MlPredictOptions, WindowOptions,
};
use crate::retry::Method;
use crate::text::blank;
use crate::windows::WindowSpec;
use serde_json::Value;
use vstd::prelude::*;

verus! {

// ----- the model -------------------------------------------------------------------------------

/// The mathematical model of a [`StreamBuilder`].
pub struct PipelineModel {
    pub name: Option<Seq<char>>,
    pub description: Option<Seq<char>>,
    pub agent_label: Option<Seq<char>>,
    pub input_topic: Option<Seq<char>>,
    pub source_engine: Option<Seq<char>>,
    pub source_config: Members,
    pub source_label: Option<Seq<char>>,
    pub output_topic: Option<Seq<char>>,
    pub sink_channel: Option<Seq<char>>,
    pub sink_config: Members,
    pub sink_label: Option<Seq<char>>,
    /// The operators, in the order in which they apply.
    pub operators: Seq<Members>,
}

/// The pipeline in which nothing is set.
pub open spec fn empty_pipeline() -> PipelineModel {
    PipelineModel {
        name: None,
        description: None,
        agent_label: None,
        input_topic: None,
        source_engine: None,
        source_config: Members::empty(),
        source_label: None,
        output_topic: None,
        sink_channel: None,
        sink_config: Members::empty(),
        sink_label: None,
        operators: Seq::empty(),
    }
}

/// The pipeline with one more operator at the end of its chain.
pub open spec fn then_op(p: PipelineModel, op: Members) -> PipelineModel {
    PipelineModel { operators: p.operators.push(op), ..p }
}

/// The members of a sequence of maps.
pub open spec fn ops_model(ops: Seq<serde_json::Map<String, Value>>) -> Seq<Members> {
    ops.map_values(|m: serde_json::Map<String, Value>| members_of(m))
}

/// The members that every operator of a type has.
pub open spec fn op_of(kind: Seq<char>) -> Members {
    Members::empty().insert("type"@, Json::Str(kind))
}

// ----- operators, as documents -----------------------------------------------------------------

/// Keeps the events that meet a condition.
pub open spec fn filter_op(condition: Seq<char>) -> Members {
    op_of("filter"@).insert("condition"@, Json::Str(condition))
}

/// Computes fields, or tags the event.
pub open spec fn map_op(options: MapOptions) -> Members {
    let op = put(op_of("map"@), "fields"@, opt_texts(options.fields));
    put(op, "targetType"@, opt_str(options.target_type))
}

/// Makes one event of each element of a field.
pub open spec fn flat_map_op(split_field: Seq<char>) -> Members {
    op_of("flatMap"@).insert("splitField"@, Json::Str(split_field))
}

/// Groups the stream by a field.
pub open spec fn key_by_op(field: Seq<char>) -> Members {
    op_of("keyBy"@).insert("field"@, Json::Str(field))
}

/// Cuts the stream into windows.
pub open spec fn window_op(spec: Seq<char>, options: WindowOptions) -> Members {
    let op = op_of("window"@).insert("spec"@, Json::Str(spec));
    let op = put(op, "aggregations"@, opt_texts(options.aggregations));
    let op = put(op, "outputTopic"@, opt_str(options.output_topic));
    put(op, "trigger"@, opt_json(options.trigger))
}

/// The branches, as documents.
pub open spec fn branches_json(branches: Seq<BranchSpec>) -> Seq<Json> {
    branches.map_values(|b: BranchSpec| branch_json(b))
}

/// Routes events by condition.
pub open spec fn branch_op(branches: Seq<BranchSpec>) -> Members {
    op_of("branch"@).insert("branches"@, Json::Array(branches_json(branches)))
}

/// Joins the stream with a state-store topic.
pub open spec fn enrich_op(lookup_topic: Seq<char>, key_field: Seq<char>) -> Members {
    op_of("enrich"@).insert("lookupTopic"@, Json::Str(lookup_topic)).insert(
        "keyField"@,
        Json::Str(key_field),
    )
}

/// Enriches the stream over HTTP.
pub open spec fn enrich_async_op(options: EnrichAsyncOptions) -> Members {
    let op = op_of("enrichAsync"@).insert("url"@, Json::Str(options.url@));
    let op = put(op, "parallelism"@, opt_count(options.parallelism));
    let op = put(op, "queueSize"@, opt_count(options.queue_size));
    let op = put(op, "timeoutMs"@, opt_count(options.timeout_ms));
    let op = put(op, "maxRetries"@, opt_count(options.max_retries));
    let op = put(op, "retryBackoffMs"@, opt_count(options.retry_backoff_ms));
    let op = put(op, "ordering"@, opt_str(options.ordering));
    put(op, "onFailure"@, opt_str(options.on_failure))
}

/// Matches a sequence of events.
pub open spec fn cep_op(sequence: Seq<Json>, options: CepOptions) -> Members {
    let op = op_of("cep"@).insert("sequence"@, Json::Array(sequence));
    let op = put(op, "within"@, opt_str(options.within));
    put(op, "name"@, opt_str(options.name))
}

/// Enriches events with the completions of a language model.
pub open spec fn map_llm_op(prompt: Seq<char>, options: MapLlmOptions) -> Members {
    let op = op_of("mapLlm"@).insert("prompt"@, Json::Str(prompt)).insert(
        "outputField"@,
        Json::Str(options.output_field@),
    );
    let op = put(op, "model"@, opt_str(options.model));
    let op = put(op, "temperature"@, opt_json(options.temperature));
    let op = put(op, "maxTokens"@, opt_count(options.max_tokens));
    let op = put(op, "parallelism"@, opt_count(options.parallelism));
    let op = put(op, "ordering"@, opt_str(options.ordering));
    let op = put(op, "onFailure"@, opt_str(options.on_failure));
    put(op, "maxCallsPerSec"@, opt_count(options.max_calls_per_sec))
}

/// Extracts typed fields with a language model.
pub open spec fn extract_op(options: ExtractOptions) -> Members {
    let op = op_of("extract"@).insert("instruction"@, Json::Str(options.instruction@)).insert(
        "schema"@,
        Json::Object(text_members(options.schema@)),
    );
    let op = put(op, "model"@, opt_str(options.model));
    let op = put(op, "temperature"@, opt_json(options.temperature));
    let op = put(op, "maxTokens"@, opt_count(options.max_tokens));
    put(op, "onFailure"@, opt_str(options.on_failure))
}

/// Calls an MCP tool.
pub open spec fn mcp_call_op(tool: Seq<char>, options: McpCallOptions) -> Members {
    let op = op_of("mcpCall"@).insert("tool"@, Json::Str(tool));
    let op = put(op, "args"@, opt_values(options.args));
    let op = put(op, "outputField"@, opt_str(options.output_field));
    let op = put(op, "parallelism"@, opt_count(options.parallelism));
    let op = put(op, "ordering"@, opt_str(options.ordering));
    put(op, "onFailure"@, opt_str(options.on_failure))
}

/// Scores events with an uploaded model.
pub open spec fn ml_predict_op(options: MlPredictOptions) -> Members {
    let op = op_of("mlPredict"@).insert("model"@, Json::Str(options.model@)).insert(
        "inputFields"@,
        Json::Array(strs(options.input_fields@)),
    ).insert("outputField"@, Json::Str(options.output_field@));
    let op = put(op, "parallelism"@, opt_count(options.parallelism));
    let op = put(op, "ordering"@, opt_str(options.ordering));
    put(op, "onFailure"@, opt_str(options.on_failure))
}

/// Joins the stream with a replicated table.
pub open spec fn broadcast_join_op(options: BroadcastJoinOptions) -> Members {
    let op = op_of("broadcastJoin"@).insert("joinKeyField"@, Json::Str(options.join_key_field@));
    let op = put(op, "streamingTopic"@, opt_str(options.streaming_topic));
    let op = put(op, "name"@, opt_str(options.name));
    let op = put(op, "maxBytes"@, opt_int(options.max_bytes));
    let op = put(op, "refreshMode"@, opt_str(options.refresh_mode));
    put(op, "intervalMillis"@, opt_count(options.interval_millis))
}

/// Joins the stream with a table that change data capture feeds.
pub open spec fn cdc_join_op(options: CdcJoinOptions) -> Members {
    let op = op_of("cdcJoin"@).insert("source"@, Json::Str(options.source@));
    let op = put(op, "joinKey"@, opt_str(options.join_key));
    let op = put(op, "table"@, opt_str(options.table));
    put(op, "stateBackend"@, opt_str(options.state_backend))
}

fn new_op(kind: &str) -> (m: serde_json::Map<String, Value>)
    ensures
        members_of(m) == op_of(kind@),
{
    let mut m = serde_json::Map::new();
    set_text(&mut m, "type", kind);
    m
}

fn put_texts(m: &mut serde_json::Map<String, Value>, key: &str, fields: Option<FieldMap<String>>)
    ensures
        members_of(*final(m)) == put(members_of(*old(m)), key@, opt_texts(fields)),
{
    if let Some(f) = fields {
        m.insert(key.to_owned(), texts_object(f));
    }
}

// ----- compilation -----------------------------------------------------------------------------

/// A node of a pipeline.
pub open spec fn node(kind: Seq<char>, label: Seq<char>, config: Members) -> Json {
    Json::Object(
        Members::empty().insert("type"@, Json::Str(kind)).insert("label"@, Json::Str(label)).insert(
            "config"@,
            Json::Object(config),
        ),
    )
}

/// The engine of the source; `kafka` by default.
pub open spec fn engine_of(p: PipelineModel) -> Seq<char> {
    match p.source_engine {
        Some(engine) => engine,
        None => "kafka"@,
    }
}

/// The source node of a pipeline that reads `topic`. Extra configuration goes over the standard one.
pub open spec fn source_node(p: PipelineModel, topic: Seq<char>) -> Json {
    node(
        "source"@,
        match p.source_label {
            Some(label) => label,
            None => engine_of(p) + " source"@,
        },
        Members::empty().insert("engine"@, Json::Str(engine_of(p))).insert(
            "inputTopic"@,
            Json::Str(topic),
        ).union_prefer_right(p.source_config),
    )
}

/// The operators, as documents.
pub open spec fn ops_json(ops: Seq<Members>) -> Seq<Json> {
    ops.map_values(|op: Members| Json::Object(op))
}

/// A text that may be absent, as a document.
pub open spec fn text_json(text: Option<Seq<char>>) -> Option<Json> {
    match text {
        Some(t) => Some(Json::Str(t)),
        None => None,
    }
}

/// The configuration of the agent of a pipeline that reads `topic`.
pub open spec fn agent_config(p: PipelineModel, topic: Seq<char>) -> Members {
    let config = Members::empty().insert("engine"@, Json::Str("streaming"@)).insert(
        "inputTopic"@,
        Json::Str(topic),
    ).insert("operators"@, Json::Array(ops_json(p.operators)));
    put(config, "outputTopic"@, text_json(p.output_topic))
}

/// The agent node of the pipeline `name` that reads `topic`.
pub open spec fn agent_node(p: PipelineModel, name: Seq<char>, topic: Seq<char>) -> Json {
    node(
        "agent"@,
        match p.agent_label {
            Some(label) => label,
            None => name,
        },
        agent_config(p, topic),
    )
}

/// Whether a pipeline has a sink node: it needs an output topic and a channel.
pub open spec fn has_sink(p: PipelineModel) -> bool {
    p.output_topic is Some && p.sink_channel is Some
}

/// The sink node of a pipeline. Extra configuration goes over the standard one.
pub open spec fn sink_node(p: PipelineModel) -> Json {
    let channel = p.sink_channel->0;
    node(
        "sink"@,
        match p.sink_label {
            Some(label) => label,
            None => channel + " sink"@,
        },
        Members::empty().insert("channel"@, Json::Str(channel)).insert(
            "inputTopic"@,
            Json::Str(p.output_topic->0),
        ).union_prefer_right(p.sink_config),
    )
}

/// The nodes of a pipeline: the source, the agent, and the sink where there is one.
pub open spec fn nodes_of(p: PipelineModel, name: Seq<char>, topic: Seq<char>) -> Seq<Json> {
    let nodes = seq![source_node(p, topic), agent_node(p, name, topic)];
    if has_sink(p) {
        nodes.push(sink_node(p))
    } else {
        nodes
    }
}

/// The name under which a pipeline is compiled.
pub open spec fn name_of(p: PipelineModel, override_name: Option<Seq<char>>) -> Option<Seq<char>> {
    match override_name {
        Some(name) => Some(name),
        None => p.name,
    }
}

/// The definition of a pipeline, or what it lacks: a name, a source or an operator.
pub open spec fn compiled(p: PipelineModel, override_name: Option<Seq<char>>) -> Result<
    Json,
    Seq<char>,
> {
    match (name_of(p, override_name), p.input_topic) {
        (None, _) => Err(
            "pipeline name required — pass to StreamBuilder::new or build_with_name"@,
        ),
        (Some(_), None) => Err("no source — call .from_topic(...) before build()"@),
        (Some(name), Some(topic)) => if p.operators.len() == 0 {
            Err("no operators — chain at least one of .filter/.map/.key_by/... before build()"@)
        } else {
            Ok(
                Json::Object(
                    put(
                        Members::empty().insert("name"@, Json::Str(name)).insert(
                            "nodes"@,
                            Json::Array(nodes_of(p, name, topic)),
                        ),
                        "description"@,
                        text_json(p.description),
                    ),
                ),
            )
        },
    }
}

/// Whether `r` is the definition, or the error that says what it lacks.
pub open spec fn compiles_to(r: Result<Value, PulseError>, c: Result<Json, Seq<char>>) -> bool {
    match c {
        Ok(doc) => r matches Ok(v) && json_of(v) == doc,
        Err(text) => r matches Err(e) && e@ == ErrorModel::InvalidConfig(text),
    }
}

fn node_value(kind: &str, label: String, config: serde_json::Map<String, Value>) -> (r: Value)
    ensures
        json_of(r) == node(kind@, label@, members_of(config)),
{
    let mut m = serde_json::Map::new();
    set_text(&mut m, "type", kind);
    m.insert("label".to_owned(), string_value(label));
    m.insert("config".to_owned(), object_value(config));
    object_value(m)
}

fn ops_value(ops: &Vec<serde_json::Map<String, Value>>) -> (r: Value)
    ensures
        json_of(r) == Json::Array(ops_json(ops_model(ops@))),
{
    let mut items: Vec<Value> = Vec::new();
    let mut i: usize = 0;
    while i < ops.len()
        invariant
            i <= ops.len(),
            items@.len() == i,
            forall|j: int|
                0 <= j < i ==> json_of(#[trigger] items@[j]) == Json::Object(members_of(ops@[j])),
        decreases ops.len() - i,
    {
        items.push(object_value(ops[i].clone()));
        i += 1;
    }
    assert(jsons_of(items@) =~= ops_json(ops_model(ops@)));
    array_value(items)
}

fn branches_value(branches: Vec<BranchSpec>) -> (r: Value)
    ensures
        json_of(r) == Json::Array(branches_json(branches@)),
{
    let mut items: Vec<Value> = Vec::new();
    let mut i: usize = 0;
    while i < branches.len()
        invariant
            i <= branches.len(),
            items@.len() == i,
            forall|j: int| 0 <= j < i ==> json_of(#[trigger] items@[j]) == branch_json(branches@[j]),
        decreases branches.len() - i,
    {
        let mut m = serde_json::Map::new();
        set_text(&mut m, "condition", branches[i].condition.as_str());
        set_text(&mut m, "topic", branches[i].topic.as_str());
        items.push(object_value(m));
        i += 1;
    }
    assert(jsons_of(items@) =~= branches_json(branches@));
    array_value(items)
}

// ----- the builder -----------------------------------------------------------------------------

/// Fluent builder of a streaming pipeline.
#[derive(Debug)]
pub struct StreamBuilder {
    name: Option<String>,
    description: Option<String>,
    agent_label: Option<String>,
    input_topic: Option<String>,
    source_engine: Option<String>,
    source_config: serde_json::Map<String, Value>,
    source_label: Option<String>,
    output_topic: Option<String>,
    sink_channel: Option<String>,
    sink_config: serde_json::Map<String, Value>,
    sink_label: Option<String>,
    operators: Vec<serde_json::Map<String, Value>>,
}

impl View for StreamBuilder {
    type V = PipelineModel;

    closed spec fn view(&self) -> PipelineModel {
        PipelineModel {
            name: opt_text(self.name),
            description: opt_text(self.description),
            agent_label: opt_text(self.agent_label),
            input_topic: opt_text(self.input_topic),
            source_engine: opt_text(self.source_engine),
            source_config: members_of(self.source_config),
            source_label: opt_text(self.source_label),
            output_topic: opt_text(self.output_topic),
            sink_channel: opt_text(self.sink_channel),
            sink_config: members_of(self.sink_config),
            sink_label: opt_text(self.sink_label),
            operators: ops_model(self.operators@),
        }
    }
}

fn clone_ops(ops: &Vec<serde_json::Map<String, Value>>) -> (r: Vec<serde_json::Map<String, Value>>)
    ensures
        ops_model(r@) == ops_model(ops@),
{
    let copy = ops.clone();
    assert(ops_model(copy@) =~= ops_model(ops@));
    copy
}

impl Clone for StreamBuilder {
    fn clone(&self) -> (r: Self)
        ensures
            r@ == self@,
    {
        StreamBuilder {
            name: self.name.clone(),
            description: self.description.clone(),
            agent_label: self.agent_label.clone(),
            input_topic: self.input_topic.clone(),
            source_engine: self.source_engine.clone(),
            source_config: self.source_config.clone(),
            source_label: self.source_label.clone(),
            output_topic: self.output_topic.clone(),
            sink_channel: self.sink_channel.clone(),
            sink_config: self.sink_config.clone(),
            sink_label: self.sink_label.clone(),
            operators: clone_ops(&self.operators),
        }
    }
}

impl Default for StreamBuilder {
    fn default() -> (r: Self)
        ensures
            r@ == empty_pipeline(),
    {
        StreamBuilder::anonymous()
    }
}

/// The pipeline in which the sink settings are undone.
pub open spec fn to_state_model(p: PipelineModel) -> PipelineModel {
    PipelineModel {
        output_topic: None,
        sink_channel: None,
        sink_config: Members::empty(),
        sink_label: None,
        ..p
    }
}

impl StreamBuilder {
    /// A builder of the pipeline `name`.
    pub fn new(name: &str) -> (r: Self)
        requires
            !blank(name@),
        ensures
            r@ == (PipelineModel { name: Some(name@), ..empty_pipeline() }),
    {
        StreamBuilder::anonymous().named(name)
    }

    /// A builder of a pipeline without a name; see [`Self::named`] and [`Self::build_with_name`].
    pub fn anonymous() -> (r: Self)
        ensures
            r@ == empty_pipeline(),
    {
        let r = StreamBuilder {
            name: None,
            description: None,
            agent_label: None,
            input_topic: None,
            source_engine: None,
            source_config: serde_json::Map::new(),
            source_label: None,
            output_topic: None,
            sink_channel: None,
            sink_config: serde_json::Map::new(),
            sink_label: None,
            operators: Vec::new(),
        };
        assert(r@.operators =~= Seq::empty());
        r
    }

    /// Reads from a Kafka topic.
    pub fn from_topic(self, topic: &str) -> (r: Self)
        requires
            !blank(topic@),
        ensures
            r@ == (PipelineModel {
                input_topic: Some(topic@),
                source_engine: Some("kafka"@),
                ..self@
            }),
    {
        let mut b = self;
        b.input_topic = Some(topic.to_owned());
        b.source_engine = Some("kafka".to_owned());
        b
    }

    /// Reads from a topic of another engine.
    pub fn from_topic_with_engine(self, topic: &str, engine: &str) -> (r: Self)
        requires
            !blank(topic@),
            !blank(engine@),
        ensures
            r@ == (PipelineModel {
                input_topic: Some(topic@),
                source_engine: Some(engine@),
                ..self@
            }),
    {
        let mut b = self;
        b.input_topic = Some(topic.to_owned());
        b.source_engine = Some(engine.to_owned());
        b
    }

    /// Sets one entry of the configuration of the source.
    pub fn with_source_config(self, key: &str, value: Value) -> (r: Self)
        ensures
            r@ == (PipelineModel {
                source_config: self@.source_config.insert(key@, json_of(value)),
                ..self@
            }),
    {
        let mut b = self;
        b.source_config.insert(key.to_owned(), value);
        b
    }

    /// Sets the label of the source.
    pub fn with_source_label(self, label: &str) -> (r: Self)
        ensures
            r@ == (PipelineModel { source_label: Some(label@), ..self@ }),
    {
        let mut b = self;
        b.source_label = Some(label.to_owned());
        b
    }

    fn push(self, op: serde_json::Map<String, Value>) -> (r: Self)
        ensures
            r@ == then_op(self@, members_of(op)),
    {
        let mut b = self;
        let ghost before = b.operators@;
        b.operators.push(op);
        assert(ops_model(b.operators@) =~= ops_model(before).push(members_of(op)));
        b
    }

    /// Keeps the events that meet `condition`.
    pub fn filter(self, condition: &str) -> (r: Self)
        requires
            !blank(condition@),
        ensures
            r@ == then_op(self@, filter_op(condition@)),
    {
        let mut op = new_op("filter");
        set_text(&mut op, "condition", condition);
        self.push(op)
    }

    /// Computes fields or tags the event; at least one of the two must be given.
    pub fn map(self, options: MapOptions) -> (r: Self)
        requires
            options.fields is Some || options.target_type is Some,
        ensures
            r@ == then_op(self@, map_op(options)),
    {
        let mut op = new_op("map");
        put_texts(&mut op, "fields", options.fields);
        put_text(&mut op, "targetType", options.target_type);
        self.push(op)
    }

    /// Makes one event of each element of the field.
    pub fn flat_map(self, split_field: &str) -> (r: Self)
        requires
            !blank(split_field@),
        ensures
            r@ == then_op(self@, flat_map_op(split_field@)),
    {
        let mut op = new_op("flatMap");
        set_text(&mut op, "splitField", split_field);
        self.push(op)
    }

    /// Groups the stream by a field, which operators with state need.
    pub fn key_by(self, field: &str) -> (r: Self)
        requires
            !blank(field@),
        ensures
            r@ == then_op(self@, key_by_op(field@)),
    {
        let mut op = new_op("keyBy");
        set_text(&mut op, "field", field);
        self.push(op)
    }

    /// Cuts the stream into windows.
    pub fn window(self, spec: WindowSpec) -> (r: Self)
        ensures
            r@ == then_op(
                self@,
                window_op(
                    spec@,
                    (WindowOptions { aggregations: None, output_topic: None, trigger: None }),
                ),
            ),
    {
        self.window_full(spec, WindowOptions::default())
    }

    /// Cuts the stream into windows, and aggregates each.
    pub fn window_with_aggs(self, spec: WindowSpec, aggregations: FieldMap<String>) -> (r: Self)
        ensures
            r@ == then_op(
                self@,
                window_op(
                    spec@,
                    (WindowOptions {
                        aggregations: Some(aggregations),
                        output_topic: None,
                        trigger: None,
                    }),
                ),
            ),
    {
        let options = WindowOptions {
            aggregations: Some(aggregations),
            output_topic: None,
            trigger: None,
        };
        self.window_full(spec, options)
    }

    /// Cuts the stream into windows, with all options.
    pub fn window_full(self, spec: WindowSpec, options: WindowOptions) -> (r: Self)
        ensures
            r@ == then_op(self@, window_op(spec@, options)),
    {
        let mut op = new_op("window");
        set_text(&mut op, "spec", spec.spec());
        put_texts(&mut op, "aggregations", options.aggregations);
        put_text(&mut op, "outputTopic", options.output_topic);
        put_value(&mut op, "trigger", options.trigger);
        self.push(op)
    }

    /// Cuts the stream into windows that a text describes.
    pub fn window_from_str(self, spec: &str, options: WindowOptions) -> (r: Self)
        requires
            !blank(spec@),
        ensures
            r@ == then_op(self@, window_op(spec@, options)),
    {
        self.window_full(WindowSpec::new(spec), options)
    }

    /// Routes events to topics by condition.
    pub fn branch(self, branches: Vec<BranchSpec>) -> (r: Self)
        requires
            branches@.len() > 0,
            valid_branches(branches@),
        ensures
            r@ == then_op(self@, branch_op(branches@)),
    {
        let mut op = new_op("branch");
        op.insert("branches".to_owned(), branches_value(branches));
        self.push(op)
    }

    /// Joins the stream with a state-store topic.
    pub fn enrich(self, lookup_topic: &str, key_field: &str) -> (r: Self)
        requires
            !blank(lookup_topic@),
            !blank(key_field@),
        ensures
            r@ == then_op(self@, enrich_op(lookup_topic@, key_field@)),
    {
        let mut op = new_op("enrich");
        set_text(&mut op, "lookupTopic", lookup_topic);
        set_text(&mut op, "keyField", key_field);
        self.push(op)
    }

    /// Enriches the stream over HTTP.
    pub fn enrich_async(self, options: EnrichAsyncOptions) -> (r: Self)
        requires
            !blank(options.url@),
            valid_ordering(options.ordering),
            valid_failure(options.on_failure),
        ensures
            r@ == then_op(self@, enrich_async_op(options)),
    {
        let mut op = new_op("enrichAsync");
        op.insert("url".to_owned(), string_value(options.url));
        put_count(&mut op, "parallelism", options.parallelism);
        put_count(&mut op, "queueSize", options.queue_size);
        put_count(&mut op, "timeoutMs", options.timeout_ms);
        put_count(&mut op, "maxRetries", options.max_retries);
        put_count(&mut op, "retryBackoffMs", options.retry_backoff_ms);
        put_text(&mut op, "ordering", options.ordering);
        put_text(&mut op, "onFailure", options.on_failure);
        self.push(op)
    }

    /// Matches a sequence of conditions.
    pub fn cep(self, sequence: Vec<Value>, options: CepOptions) -> (r: Self)
        requires
            sequence@.len() > 0,
        ensures
            r@ == then_op(self@, cep_op(jsons_of(sequence@), options)),
    {
        let mut op = new_op("cep");
        op.insert("sequence".to_owned(), array_value(sequence));
        put_text(&mut op, "within", options.within);
        put_text(&mut op, "name", options.name);
        self.push(op)
    }

    /// Enriches each event with the completion of a language model. The prompt may hold `{field}`
    /// placeholders.
    pub fn map_llm(self, prompt: &str, options: MapLlmOptions) -> (r: Self)
        requires
            !blank(prompt@),
            !blank(options.output_field@),
            valid_ordering(options.ordering),
            valid_failure(options.on_failure),
        ensures
            r@ == then_op(self@, map_llm_op(prompt@, options)),
    {
        let mut op = new_op("mapLlm");
        set_text(&mut op, "prompt", prompt);
        op.insert("outputField".to_owned(), string_value(options.output_field));
        put_text(&mut op, "model", options.model);
        put_value(&mut op, "temperature", options.temperature);
        put_count(&mut op, "maxTokens", options.max_tokens);
        put_count(&mut op, "parallelism", options.parallelism);
        put_text(&mut op, "ordering", options.ordering);
        put_text(&mut op, "onFailure", options.on_failure);
        put_count(&mut op, "maxCallsPerSec", options.max_calls_per_sec);
        self.push(op)
    }

    /// Extracts typed fields from each event with a language model.
    pub fn extract(self, options: ExtractOptions) -> (r: Self)
        requires
            !blank(options.instruction@),
            options.schema@ != Map::<Seq<char>, String>::empty(),
            valid_failure(options.on_failure),
        ensures
            r@ == then_op(self@, extract_op(options)),
    {
        let mut op = new_op("extract");
        op.insert("instruction".to_owned(), string_value(options.instruction));
        op.insert("schema".to_owned(), texts_object(options.schema));
        put_text(&mut op, "model", options.model);
        put_value(&mut op, "temperature", options.temperature);
        put_count(&mut op, "maxTokens", options.max_tokens);
        put_text(&mut op, "onFailure", options.on_failure);
        self.push(op)
    }

    /// Calls an MCP tool for each event.
    pub fn mcp_call(self, tool: &str, options: McpCallOptions) -> (r: Self)
        requires
            !blank(tool@),
            valid_ordering(options.ordering),
            valid_failure(options.on_failure),
        ensures
            r@ == then_op(self@, mcp_call_op(tool@, options)),
    {
        let mut op = new_op("mcpCall");
        set_text(&mut op, "tool", tool);
        if let Some(args) = options.args {
            op.insert("args".to_owned(), values_object(args));
        }
        put_text(&mut op, "outputField", options.output_field);
        put_count(&mut op, "parallelism", options.parallelism);
        put_text(&mut op, "ordering", options.ordering);
        put_text(&mut op, "onFailure", options.on_failure);
        self.push(op)
    }

    /// Scores each event with an uploaded model.
    pub fn ml_predict(self, options: MlPredictOptions) -> (r: Self)
        requires
            !blank(options.model@),
            options.input_fields@.len() > 0,
            valid_fields(options.input_fields@),
            !blank(options.output_field@),
            valid_ordering(options.ordering),
            valid_failure(options.on_failure),
        ensures
            r@ == then_op(self@, ml_predict_op(options)),
    {
        let mut op = new_op("mlPredict");
        op.insert("model".to_owned(), string_value(options.model));
        op.insert("inputFields".to_owned(), texts_value(options.input_fields));
        op.insert("outputField".to_owned(), string_value(options.output_field));
        put_count(&mut op, "parallelism", options.parallelism);
        put_text(&mut op, "ordering", options.ordering);
        put_text(&mut op, "onFailure", options.on_failure);
        self.push(op)
    }

    /// Joins the stream with a table that is replicated in full.
    pub fn broadcast_join(self, options: BroadcastJoinOptions) -> (r: Self)
        requires
            !blank(options.join_key_field@),
            valid_refresh_mode(options.refresh_mode),
        ensures
            r@ == then_op(self@, broadcast_join_op(options)),
    {
        let mut op = new_op("broadcastJoin");
        op.insert("joinKeyField".to_owned(), string_value(options.join_key_field));
        put_text(&mut op, "streamingTopic", options.streaming_topic);
        put_text(&mut op, "name", options.name);
        if let Some(n) = options.max_bytes {
            op.insert("maxBytes".to_owned(), int_value(n));
        }
        put_text(&mut op, "refreshMode", options.refresh_mode);
        put_count(&mut op, "intervalMillis", options.interval_millis);
        self.push(op)
    }

    /// Joins the stream with a table that change data capture feeds.
    pub fn cdc_join(self, options: CdcJoinOptions) -> (r: Self)
        requires
            !blank(options.source@),
        ensures
            r@ == then_op(self@, cdc_join_op(options)),
    {
        let mut op = new_op("cdcJoin");
        op.insert("source".to_owned(), string_value(options.source));
        put_text(&mut op, "joinKey", options.join_key);
        put_text(&mut op, "table", options.table);
        put_text(&mut op, "stateBackend", options.state_backend);
        self.push(op)
    }

    /// Writes to a topic, without a sink node.
    pub fn to_topic(self, topic: &str) -> (r: Self)
        requires
            !blank(topic@),
        ensures
            r@ == (PipelineModel { output_topic: Some(topic@), sink_channel: None, ..self@ }),
    {
        let mut b = self;
        b.output_topic = Some(topic.to_owned());
        b.sink_channel = None;
        b
    }

    /// Writes to a topic, which a sink node delivers to a channel.
    pub fn to_topic_with_channel(self, topic: &str, channel: &str) -> (r: Self)
        requires
            !blank(topic@),
            !blank(channel@),
        ensures
            r@ == (PipelineModel {
                output_topic: Some(topic@),
                sink_channel: Some(channel@),
                ..self@
            }),
    {
        let mut b = self;
        b.output_topic = Some(topic.to_owned());
        b.sink_channel = Some(channel.to_owned());
        b
    }

    /// Sets one entry of the configuration of the sink.
    pub fn with_sink_config(self, key: &str, value: Value) -> (r: Self)
        ensures
            r@ == (PipelineModel {
                sink_config: self@.sink_config.insert(key@, json_of(value)),
                ..self@
            }),
    {
        let mut b = self;
        b.sink_config.insert(key.to_owned(), value);
        b
    }

    /// Sets the label of the sink.
    pub fn with_sink_label(self, label: &str) -> (r: Self)
        ensures
            r@ == (PipelineModel { sink_label: Some(label@), ..self@ }),
    {
        let mut b = self;
        b.sink_label = Some(label.to_owned());
        b
    }

    /// Ends the stream in the state of the agent, where interactive queries read it.
    pub fn to_state(self) -> (r: Self)
        ensures
            r@ == to_state_model(self@),
    {
        let mut b = self;
        b.output_topic = None;
        b.sink_channel = None;
        b.sink_config = serde_json::Map::new();
        b.sink_label = None;
        b
    }

    /// Sets the name of the pipeline.
    pub fn named(self, name: &str) -> (r: Self)
        requires
            !blank(name@),
        ensures
            r@ == (PipelineModel { name: Some(name@), ..self@ }),
    {
        let mut b = self;
        b.name = Some(name.to_owned());
        b
    }

    /// Sets the description of the pipeline.
    pub fn described_as(self, description: &str) -> (r: Self)
        ensures
            r@ == (PipelineModel { description: Some(description@), ..self@ }),
    {
        let mut b = self;
        b.description = Some(description.to_owned());
        b
    }

    /// Sets the label of the agent.
    pub fn with_agent_label(self, label: &str) -> (r: Self)
        requires
            !blank(label@),
        ensures
            r@ == (PipelineModel { agent_label: Some(label@), ..self@ }),
    {
        let mut b = self;
        b.agent_label = Some(label.to_owned());
        b
    }

    /// The operators that were recorded.
    pub fn operators(&self) -> (r: &[serde_json::Map<String, Value>])
        ensures
            ops_model(r@) == self@.operators,
    {
        self.operators.as_slice()
    }

    /// Compiles the pipeline. Fails without a name, a source or an operator.
    pub fn build(&self) -> (r: Result<Value, PulseError>)
        ensures
            compiles_to(r, compiled(self@, None)),
    {
        self.build_inner(None)
    }

    /// Compiles the pipeline under another name.
    pub fn build_with_name(&self, name: &str) -> (r: Result<Value, PulseError>)
        requires
            !blank(name@),
        ensures
            compiles_to(r, compiled(self@, Some(name@))),
    {
        self.build_inner(Some(name.to_owned()))
    }

    fn source_value(&self, topic: &str) -> (r: Value)
        ensures
            json_of(r) == source_node(self@, topic@),
    {
        let engine: &str = match &self.source_engine {
            Some(engine) => engine.as_str(),
            None => "kafka",
        };
        let mut config = serde_json::Map::new();
        set_text(&mut config, "engine", engine);
        set_text(&mut config, "inputTopic", topic);
        let mut extra = self.source_config.clone();
        config.append(&mut extra);
        let label = match &self.source_label {
            Some(label) => label.clone(),
            None => engine.to_owned().concat(" source"),
        };
        node_value("source", label, config)
    }

    fn agent_value(&self, name: &str, topic: &str) -> (r: Value)
        ensures
            json_of(r) == agent_node(self@, name@, topic@),
    {
        let mut config = serde_json::Map::new();
        set_text(&mut config, "engine", "streaming");
        set_text(&mut config, "inputTopic", topic);
        config.insert("operators".to_owned(), ops_value(&self.operators));
        if let Some(out) = &self.output_topic {
            set_text(&mut config, "outputTopic", out.as_str());
        }
        let label = match &self.agent_label {
            Some(label) => label.clone(),
            None => name.to_owned(),
        };
        node_value("agent", label, config)
    }

    fn sink_value(&self, topic: &str, channel: &str) -> (r: Value)
        requires
            self@.output_topic == Some(topic@),
            self@.sink_channel == Some(channel@),
        ensures
            json_of(r) == sink_node(self@),
    {
        let mut config = serde_json::Map::new();
        set_text(&mut config, "channel", channel);
        set_text(&mut config, "inputTopic", topic);
        let mut extra = self.sink_config.clone();
        config.append(&mut extra);
        let label = match &self.sink_label {
            Some(label) => label.clone(),
            None => channel.to_owned().concat(" sink"),
        };
        node_value("sink", label, config)
    }

    /// Compiles the pipeline, under `override_name` where one is given.
    pub fn build_inner(&self, override_name: Option<String>) -> (r: Result<Value, PulseError>)
        ensures
            compiles_to(r, compiled(self@, opt_text(override_name))),
    {
        let name = match override_name {
            Some(name) => name,
            None => match &self.name {
                Some(name) => name.clone(),
                None => {
                    return Err(
                        PulseError::InvalidConfig(
                            "pipeline name required — pass to StreamBuilder::new or build_with_name".to_owned(),
                        ),
                    );
                },
            },
        };
        let topic = match &self.input_topic {
            Some(topic) => topic.as_str(),
            None => {
                return Err(
                    PulseError::InvalidConfig(
                        "no source — call .from_topic(...) before build()".to_owned(),
                    ),
                );
            },
        };
        if self.operators.len() == 0 {
            return Err(
                PulseError::InvalidConfig(
                    "no operators — chain at least one of .filter/.map/.key_by/... before build()".to_owned(),
                ),
            );
        }
        let mut nodes: Vec<Value> = Vec::new();
        nodes.push(self.source_value(topic));
        nodes.push(self.agent_value(name.as_str(), topic));
        if let Some(out) = &self.output_topic {
            if let Some(channel) = &self.sink_channel {
                nodes.push(self.sink_value(out.as_str(), channel.as_str()));
            }
        }
        assert(jsons_of(nodes@) =~= nodes_of(self@, name@, topic@));
        let mut pipeline = serde_json::Map::new();
        pipeline.insert("name".to_owned(), string_value(name));
        pipeline.insert("nodes".to_owned(), array_value(nodes));
        if let Some(description) = &self.description {
            set_text(&mut pipeline, "description", description.as_str());
        }
        Ok(object_value(pipeline))
    }
}

// ----- the resource ----------------------------------------------------------------------------

/// Compiles and deploys pipelines.
pub struct StreamsResource<'c> {
    client: &'c PulseClient,
}

impl View for StreamsResource<'_> {
    type V = ClientModel;

    closed spec fn view(&self) -> ClientModel {
        self.client@
    }
}

/// Whether `r` plans the deployment of a definition, or is the error that says what it lacks.
pub open spec fn deploys(
    r: Result<HttpCall, PulseError>,
    client: ClientModel,
    c: Result<Json, Seq<char>>,
) -> bool {
    match c {
        Ok(doc) => plan_model(r) == call_model(
            client,
            Method::Post,
            "/api/pulse/pipelines"@,
            Some(doc),
            true,
        ),
        Err(text) => r matches Err(e) && e@ == ErrorModel::InvalidConfig(text),
    }
}

impl<'c> StreamsResource<'c> {
    pub(crate) fn new(client: &'c PulseClient) -> (r: Self)
        ensures
            r@ == client@,
    {
        StreamsResource { client }
    }

    /// Compiles a pipeline without deploying it.
    pub fn compile(&self, builder: &StreamBuilder) -> (r: Result<Value, PulseError>)
        ensures
            compiles_to(r, compiled(builder@, None)),
    {
        builder.build()
    }

    /// Compiles a pipeline under another name, without deploying it.
    pub fn compile_with_name(&self, builder: &StreamBuilder, name: &str) -> (r: Result<
        Value,
        PulseError,
    >)
        requires
            !blank(name@),
        ensures
            compiles_to(r, compiled(builder@, Some(name@))),
    {
        builder.build_with_name(name)
    }

    /// `POST /api/pulse/pipelines`: compiles and deploys a pipeline.
    pub fn deploy(&self, builder: &StreamBuilder) -> (r: Result<HttpCall, PulseError>)
        ensures
            deploys(r, self@, compiled(builder@, None)),
    {
        match builder.build() {
            Ok(definition) => self.client.request_once(
                Method::Post,
                "/api/pulse/pipelines",
                Some(definition),
                true,
            ),
            Err(e) => Err(e),
        }
    }

    /// `POST /api/pulse/pipelines`: compiles and deploys a pipeline under another name.
    pub fn deploy_with_name(&self, builder: &StreamBuilder, name: &str) -> (r: Result<
        HttpCall,
        PulseError,
    >)
        requires
            !blank(name@),
        ensures
            deploys(r, self@, compiled(builder@, Some(name@))),
    {
        match builder.build_with_name(name) {
            Ok(definition) => self.client.request_once(
                Method::Post,
                "/api/pulse/pipelines",
                Some(definition),
                true,
            ),
            Err(e) => Err(e),
        }
    }
}

// ----- laws ------------------------------------------------------------------------------------

proof fn lemma_names_differ()
    ensures
        "name"@ != "nodes"@,
        "name"@ != "description"@,
        "nodes"@ != "description"@,
        "type"@ != "label"@,
        "type"@ != "config"@,
        "label"@ != "config"@,
        "operators"@ != "outputTopic"@,
{
    reveal_strlit("name");
    reveal_strlit("nodes");
    reveal_strlit("description");
    reveal_strlit("type");
    reveal_strlit("label");
    reveal_strlit("config");
    reveal_strlit("operators");
    reveal_strlit("outputTopic");
    assert("name"@.len() == 4 && "nodes"@.len() == 5 && "description"@.len() == 11);
    assert("type"@.len() == 4 && "label"@.len() == 5 && "config"@.len() == 6);
    assert("operators"@.len() == 9 && "outputTopic"@.len() == 11);
}

/// A pipeline compiles exactly where it has a name, a source and an operator.
pub proof fn law_compiles_when_complete(p: PipelineModel, override_name: Option<Seq<char>>)
    ensures
        compiled(p, override_name) is Ok <==> name_of(p, override_name) is Some && p.input_topic
            is Some && p.operators.len() > 0,
{
}

/// Compiling under another name is compiling the pipeline of that name.
pub proof fn law_override_is_renaming(p: PipelineModel, name: Seq<char>)
    ensures
        compiled(p, Some(name)) == compiled(PipelineModel { name: Some(name), ..p }, None),
{
    let q = PipelineModel { name: Some(name), ..p };
    if let Some(topic) = p.input_topic {
        assert(nodes_of(p, name, topic) =~= nodes_of(q, name, topic));
    }
}

/// The nodes of a definition are the source, the agent and, exactly where the pipeline has an output
/// topic and a channel, the sink.
pub proof fn law_nodes(p: PipelineModel, override_name: Option<Seq<char>>)
    requires
        compiled(p, override_name) is Ok,
    ensures
        ({
            let doc = compiled(p, override_name)->Ok_0;
            let nodes = items_of(doc, "nodes"@);
            &&& text_member_of(doc, "name"@) == name_of(p, override_name)
            &&& text_member_of(doc, "description"@) == p.description
            &&& nodes.len() == if has_sink(p) { 3nat } else { 2nat }
            &&& text_member_of(nodes[0], "type"@) == Some("source"@)
            &&& text_member_of(nodes[1], "type"@) == Some("agent"@)
            &&& has_sink(p) ==> text_member_of(nodes[2], "type"@) == Some("sink"@)
        }),
{
    lemma_names_differ();
}

/// The agent of a definition runs the operators of the pipeline, all of them and in their order.
pub proof fn law_operators_keep_their_order(p: PipelineModel, override_name: Option<Seq<char>>)
    requires
        compiled(p, override_name) is Ok,
    ensures
        ({
            let doc = compiled(p, override_name)->Ok_0;
            let agent = items_of(doc, "nodes"@)[1];
            let operators = items_of(member_of(agent, "config"@)->0, "operators"@);
            &&& text_member_of(agent, "type"@) == Some("agent"@)
            &&& member_of(agent, "config"@) is Some
            &&& operators.len() == p.operators.len()
            &&& forall|i: int|
                0 <= i < operators.len() ==> #[trigger] operators[i] == Json::Object(p.operators[i])
        }),
{
    lemma_names_differ();
}

/// No option is named `type`.
proof fn lemma_no_option_is_the_type()
    ensures
        "condition"@ != "type"@,
        "fields"@ != "type"@,
        "targetType"@ != "type"@,
        "splitField"@ != "type"@,
        "field"@ != "type"@,
        "spec"@ != "type"@,
        "aggregations"@ != "type"@,
        "outputTopic"@ != "type"@,
        "trigger"@ != "type"@,
        "branches"@ != "type"@,
        "lookupTopic"@ != "type"@,
        "keyField"@ != "type"@,
        "url"@ != "type"@,
        "parallelism"@ != "type"@,
        "queueSize"@ != "type"@,
        "timeoutMs"@ != "type"@,
        "maxRetries"@ != "type"@,
        "retryBackoffMs"@ != "type"@,
        "ordering"@ != "type"@,
        "onFailure"@ != "type"@,
        "sequence"@ != "type"@,
        "within"@ != "type"@,
        "name"@ != "type"@,
        "prompt"@ != "type"@,
        "outputField"@ != "type"@,
        "model"@ != "type"@,
        "temperature"@ != "type"@,
        "maxTokens"@ != "type"@,
        "maxCallsPerSec"@ != "type"@,
        "instruction"@ != "type"@,
        "schema"@ != "type"@,
        "tool"@ != "type"@,
        "args"@ != "type"@,
        "inputFields"@ != "type"@,
        "joinKeyField"@ != "type"@,
        "streamingTopic"@ != "type"@,
        "maxBytes"@ != "type"@,
        "refreshMode"@ != "type"@,
        "intervalMillis"@ != "type"@,
        "source"@ != "type"@,
        "joinKey"@ != "type"@,
        "table"@ != "type"@,
        "stateBackend"@ != "type"@,
{
    reveal_strlit("type");
    reveal_strlit("condition");
    reveal_strlit("fields");
    reveal_strlit("targetType");
    reveal_strlit("splitField");
    reveal_strlit("field");
    reveal_strlit("spec");
    reveal_strlit("aggregations");
    reveal_strlit("outputTopic");
    reveal_strlit("trigger");
    reveal_strlit("branches");
    reveal_strlit("lookupTopic");
    reveal_strlit("keyField");
    reveal_strlit("url");
    reveal_strlit("parallelism");
    reveal_strlit("queueSize");
    reveal_strlit("timeoutMs");
    reveal_strlit("maxRetries");
    reveal_strlit("retryBackoffMs");
    reveal_strlit("ordering");
    reveal_strlit("onFailure");
    reveal_strlit("sequence");
    reveal_strlit("within");
    reveal_strlit("name");
    reveal_strlit("prompt");
    reveal_strlit("outputField");
    reveal_strlit("model");
    reveal_strlit("temperature");
    reveal_strlit("maxTokens");
    reveal_strlit("maxCallsPerSec");
    reveal_strlit("instruction");
    reveal_strlit("schema");
    reveal_strlit("tool");
    reveal_strlit("args");
    reveal_strlit("inputFields");
    reveal_strlit("joinKeyField");
    reveal_strlit("streamingTopic");
    reveal_strlit("maxBytes");
    reveal_strlit("refreshMode");
    reveal_strlit("intervalMillis");
    reveal_strlit("source");
    reveal_strlit("joinKey");
    reveal_strlit("table");
    reveal_strlit("stateBackend");
    assert("condition"@.len() != "type"@.len());
    assert("fields"@.len() != "type"@.len());
    assert("targetType"@.len() != "type"@.len());
    assert("splitField"@.len() != "type"@.len());
    assert("field"@.len() != "type"@.len());
    assert("spec"@[0] != "type"@[0]);
    assert("aggregations"@.len() != "type"@.len());
    assert("outputTopic"@.len() != "type"@.len());
    assert("trigger"@.len() != "type"@.len());
    assert("branches"@.len() != "type"@.len());
    assert("lookupTopic"@.len() != "type"@.len());
    assert("keyField"@.len() != "type"@.len());
    assert("url"@.len() != "type"@.len());
    assert("parallelism"@.len() != "type"@.len());
    assert("queueSize"@.len() != "type"@.len());
    assert("timeoutMs"@.len() != "type"@.len());
    assert("maxRetries"@.len() != "type"@.len());
    assert("retryBackoffMs"@.len() != "type"@.len());
    assert("ordering"@.len() != "type"@.len());
    assert("onFailure"@.len() != "type"@.len());
    assert("sequence"@.len() != "type"@.len());
    assert("within"@.len() != "type"@.len());
    assert("name"@[0] != "type"@[0]);
    assert("prompt"@.len() != "type"@.len());
    assert("outputField"@.len() != "type"@.len());
    assert("model"@.len() != "type"@.len());
    assert("temperature"@.len() != "type"@.len());
    assert("maxTokens"@.len() != "type"@.len());
    assert("maxCallsPerSec"@.len() != "type"@.len());
    assert("instruction"@.len() != "type"@.len());
    assert("schema"@.len() != "type"@.len());
    assert("tool"@[1] != "type"@[1]);
    assert("args"@[0] != "type"@[0]);
    assert("inputFields"@.len() != "type"@.len());
    assert("joinKeyField"@.len() != "type"@.len());
    assert("streamingTopic"@.len() != "type"@.len());
    assert("maxBytes"@.len() != "type"@.len());
    assert("refreshMode"@.len() != "type"@.len());
    assert("intervalMillis"@.len() != "type"@.len());
    assert("source"@.len() != "type"@.len());
    assert("joinKey"@.len() != "type"@.len());
    assert("table"@.len() != "type"@.len());
    assert("stateBackend"@.len() != "type"@.len());
}

/// The type of an operator.
pub open spec fn type_of(op: Members) -> Option<Seq<char>> {
    text_member_of(Json::Object(op), "type"@)
}

/// Every operator carries its type, whatever its options.
pub proof fn law_operators_carry_their_type(
    text: Seq<char>,
    other: Seq<char>,
    map: MapOptions,
    window: WindowOptions,
    branches: Seq<BranchSpec>,
    enrich_async: EnrichAsyncOptions,
    sequence: Seq<Json>,
    cep: CepOptions,
    map_llm: MapLlmOptions,
    extract: ExtractOptions,
    mcp_call: McpCallOptions,
    ml_predict: MlPredictOptions,
    broadcast_join: BroadcastJoinOptions,
    cdc_join: CdcJoinOptions,
)
    ensures
        type_of(filter_op(text)) == Some("filter"@),
        type_of(map_op(map)) == Some("map"@),
        type_of(flat_map_op(text)) == Some("flatMap"@),
        type_of(key_by_op(text)) == Some("keyBy"@),
        type_of(window_op(text, window)) == Some("window"@),
        type_of(branch_op(branches)) == Some("branch"@),
        type_of(enrich_op(text, other)) == Some("enrich"@),
        type_of(enrich_async_op(enrich_async)) == Some("enrichAsync"@),
        type_of(cep_op(sequence, cep)) == Some("cep"@),
        type_of(map_llm_op(text, map_llm)) == Some("mapLlm"@),
        type_of(extract_op(extract)) == Some("extract"@),
        type_of(mcp_call_op(text, mcp_call)) == Some("mcpCall"@),
        type_of(ml_predict_op(ml_predict)) == Some("mlPredict"@),
        type_of(broadcast_join_op(broadcast_join)) == Some("broadcastJoin"@),
        type_of(cdc_join_op(cdc_join)) == Some("cdcJoin"@),
{
    lemma_no_option_is_the_type();
}

/// Adding an operator leaves those before it as they are, and all else of the pipeline.
pub proof fn law_chaining_appends(p: PipelineModel, op: Members)
    ensures
        then_op(p, op).operators.len() == p.operators.len() + 1,
        then_op(p, op).operators.drop_last() == p.operators,
        then_op(p, op).operators.last() == op,
        then_op(p, op) == (PipelineModel { operators: then_op(p, op).operators, ..p }),
{
    assert(then_op(p, op).operators.drop_last() =~= p.operators);
}

/// Ending in the state undoes whatever was set of the sink before, under whatever name the pipeline
/// is then compiled.
pub proof fn law_to_state_undoes_the_sink(
    p: PipelineModel,
    output_topic: Option<Seq<char>>,
    sink_channel: Option<Seq<char>>,
    sink_config: Members,
    sink_label: Option<Seq<char>>,
    override_name: Option<Seq<char>>,
)
    ensures
        ({
            let set = PipelineModel { output_topic, sink_channel, sink_config, sink_label, ..p };
            &&& to_state_model(set) == to_state_model(p)
            &&& compiled(to_state_model(set), override_name) == compiled(
                to_state_model(p),
                override_name,
            )
        }),
{
}

/// A pipeline that ends in the state has two nodes and no output topic, and the operators that it
/// had.
pub proof fn law_to_state_has_no_sink(p: PipelineModel, override_name: Option<Seq<char>>)
    requires
        compiled(to_state_model(p), override_name) is Ok,
    ensures
        ({
            let doc = compiled(to_state_model(p), override_name)->Ok_0;
            let nodes = items_of(doc, "nodes"@);
            let config = member_of(nodes[1], "config"@)->0;
            &&& nodes.len() == 2
            &&& member_of(config, "outputTopic"@) is None
            &&& items_of(config, "operators"@) == ops_json(p.operators)
        }),
{
    lemma_names_differ();
    reveal_strlit("engine");
    reveal_strlit("inputTopic");
    reveal_strlit("operators");
    reveal_strlit("outputTopic");
    assert("engine"@.len() == 6 && "inputTopic"@.len() == 10 && "operators"@.len() == 9
        && "outputTopic"@.len() == 11);
}

} // verus!
