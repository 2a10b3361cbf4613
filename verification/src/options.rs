//! The options of the operators of a stream, and which of their values are accepted.
use crate::fields::{clone_texts, opt_map, text_members, value_members, FieldMap};
use crate::json::{opt_json, Json};
use crate::text::{blank, is_blank, same_text};
use serde_json::Value;
use vstd::prelude::*;

verus! {

/// What a map operator does.
#[derive(Debug)]
pub struct MapOptions {
    /// The expression of each output field.
    pub fields: Option<FieldMap<String>>,
    /// The type to tag the event with.
    pub target_type: Option<String>,
}

impl Clone for MapOptions {
    fn clone(&self) -> (r: Self)
        ensures
            opt_map(r.fields) == opt_map(self.fields),
            r.target_type == self.target_type,
    {
        MapOptions {
            fields: clone_texts(&self.fields),
            target_type: self.target_type.clone(),
        }
    }
}

impl Default for MapOptions {
    fn default() -> (r: Self)
        ensures
            r.fields is None,
            r.target_type is None,
    {
        MapOptions {
            fields: None,
            target_type: None,
        }
    }
}

/// What a window operator does besides windowing.
#[derive(Debug)]
pub struct WindowOptions {
    /// The aggregation of each output field; see [`crate::aggs`].
    pub aggregations: Option<FieldMap<String>>,
    /// Where the results go.
    pub output_topic: Option<String>,
    /// When the window fires, as the server reads it.
    pub trigger: Option<Value>,
}

impl Clone for WindowOptions {
    fn clone(&self) -> (r: Self)
        ensures
            opt_map(r.aggregations) == opt_map(self.aggregations),
            r.output_topic == self.output_topic,
            opt_json(r.trigger) == opt_json(self.trigger),
    {
        WindowOptions {
            aggregations: clone_texts(&self.aggregations),
            output_topic: self.output_topic.clone(),
            trigger: self.trigger.clone(),
        }
    }
}

impl Default for WindowOptions {
    fn default() -> (r: Self)
        ensures
            r.aggregations is None,
            r.output_topic is None,
            r.trigger is None,
    {
        WindowOptions {
            aggregations: None,
            output_topic: None,
            trigger: None,
        }
    }
}

/// One branch of a branch operator.
#[derive(Debug)]
pub struct BranchSpec {
    pub condition: String,
    pub topic: String,
}

impl Clone for BranchSpec {
    fn clone(&self) -> (r: Self)
        ensures
            r == *self,
    {
        BranchSpec {
            condition: self.condition.clone(),
            topic: self.topic.clone(),
        }
    }
}

impl BranchSpec {
    /// The branch that routes to `topic` what meets `condition`.
    pub fn new(condition: &str, topic: &str) -> (r: Self)
        ensures
            r.condition@ == condition@,
            r.topic@ == topic@,
    {
        BranchSpec { condition: condition.to_owned(), topic: topic.to_owned() }
    }
}

/// How a stream is enriched over HTTP.
#[derive(Debug)]
pub struct EnrichAsyncOptions {
    /// The URL, with `{field}` placeholders.
    pub url: String,
    pub parallelism: Option<u32>,
    pub queue_size: Option<u32>,
    pub timeout_ms: Option<u32>,
    pub max_retries: Option<u32>,
    pub retry_backoff_ms: Option<u32>,
    /// `PRESERVE_INPUT` or `UNORDERED`.
    pub ordering: Option<String>,
    /// `EMIT_ERROR`, `DROP` or `PASS_THROUGH`.
    pub on_failure: Option<String>,
}

impl Clone for EnrichAsyncOptions {
    fn clone(&self) -> (r: Self)
        ensures
            r == *self,
    {
        EnrichAsyncOptions {
            url: self.url.clone(),
            parallelism: self.parallelism,
            queue_size: self.queue_size,
            timeout_ms: self.timeout_ms,
            max_retries: self.max_retries,
            retry_backoff_ms: self.retry_backoff_ms,
            ordering: self.ordering.clone(),
            on_failure: self.on_failure.clone(),
        }
    }
}

impl Default for EnrichAsyncOptions {
    fn default() -> (r: Self)
        ensures
            r.url@ == Seq::<char>::empty(),
            r.parallelism is None,
            r.queue_size is None,
            r.timeout_ms is None,
            r.max_retries is None,
            r.retry_backoff_ms is None,
            r.ordering is None,
            r.on_failure is None,
    {
        EnrichAsyncOptions {
            url: String::new(),
            parallelism: None,
            queue_size: None,
            timeout_ms: None,
            max_retries: None,
            retry_backoff_ms: None,
            ordering: None,
            on_failure: None,
        }
    }
}

/// How a sequence of events is matched.
#[derive(Debug)]
pub struct CepOptions {
    pub within: Option<String>,
    pub name: Option<String>,
}

impl Clone for CepOptions {
    fn clone(&self) -> (r: Self)
        ensures
            r == *self,
    {
        CepOptions {
            within: self.within.clone(),
            name: self.name.clone(),
        }
    }
}

impl Default for CepOptions {
    fn default() -> (r: Self)
        ensures
            r.within is None,
            r.name is None,
    {
        CepOptions {
            within: None,
            name: None,
        }
    }
}

/// How a stream is joined with a table that is replicated in full.
#[derive(Debug)]
pub struct BroadcastJoinOptions {
    pub join_key_field: String,
    pub streaming_topic: Option<String>,
    pub name: Option<String>,
    pub max_bytes: Option<i64>,
    /// `cdc`, `periodic` or `explicit`.
    pub refresh_mode: Option<String>,
    pub interval_millis: Option<u32>,
}

impl Clone for BroadcastJoinOptions {
    fn clone(&self) -> (r: Self)
        ensures
            r == *self,
    {
        BroadcastJoinOptions {
            join_key_field: self.join_key_field.clone(),
            streaming_topic: self.streaming_topic.clone(),
            name: self.name.clone(),
            max_bytes: self.max_bytes,
            refresh_mode: self.refresh_mode.clone(),
            interval_millis: self.interval_millis,
        }
    }
}

impl Default for BroadcastJoinOptions {
    fn default() -> (r: Self)
        ensures
            r.join_key_field@ == Seq::<char>::empty(),
            r.streaming_topic is None,
            r.name is None,
            r.max_bytes is None,
            r.refresh_mode is None,
            r.interval_millis is None,
    {
        BroadcastJoinOptions {
            join_key_field: String::new(),
            streaming_topic: None,
            name: None,
            max_bytes: None,
            refresh_mode: None,
            interval_millis: None,
        }
    }
}

/// How a stream is joined with a table that change data capture feeds.
#[derive(Debug)]
pub struct CdcJoinOptions {
    pub source: String,
    pub join_key: Option<String>,
    pub table: Option<String>,
    pub state_backend: Option<String>,
}

impl Clone for CdcJoinOptions {
    fn clone(&self) -> (r: Self)
        ensures
            r == *self,
    {
        CdcJoinOptions {
            source: self.source.clone(),
            join_key: self.join_key.clone(),
            table: self.table.clone(),
            state_backend: self.state_backend.clone(),
        }
    }
}

impl Default for CdcJoinOptions {
    fn default() -> (r: Self)
        ensures
            r.source@ == Seq::<char>::empty(),
            r.join_key is None,
            r.table is None,
            r.state_backend is None,
    {
        CdcJoinOptions {
            source: String::new(),
            join_key: None,
            table: None,
            state_backend: None,
        }
    }
}

/// How events are enriched with the completions of a language model.
#[derive(Debug)]
pub struct MapLlmOptions {
    /// The field that the completion lands in.
    pub output_field: String,
    pub model: Option<String>,
    /// A number.
    pub temperature: Option<Value>,
    pub max_tokens: Option<u32>,
    pub parallelism: Option<u32>,
    /// `PRESERVE_INPUT` or `UNORDERED`.
    pub ordering: Option<String>,
    /// `EMIT_ERROR`, `DROP` or `PASS_THROUGH`.
    pub on_failure: Option<String>,
    pub max_calls_per_sec: Option<u32>,
}

impl Clone for MapLlmOptions {
    fn clone(&self) -> (r: Self)
        ensures
            r.output_field == self.output_field,
            r.model == self.model,
            opt_json(r.temperature) == opt_json(self.temperature),
            r.max_tokens == self.max_tokens,
            r.parallelism == self.parallelism,
            r.ordering == self.ordering,
            r.on_failure == self.on_failure,
            r.max_calls_per_sec == self.max_calls_per_sec,
    {
        MapLlmOptions {
            output_field: self.output_field.clone(),
            model: self.model.clone(),
            temperature: self.temperature.clone(),
            max_tokens: self.max_tokens,
            parallelism: self.parallelism,
            ordering: self.ordering.clone(),
            on_failure: self.on_failure.clone(),
            max_calls_per_sec: self.max_calls_per_sec,
        }
    }
}

impl Default for MapLlmOptions {
    fn default() -> (r: Self)
        ensures
            r.output_field@ == Seq::<char>::empty(),
            r.model is None,
            r.temperature is None,
            r.max_tokens is None,
            r.parallelism is None,
            r.ordering is None,
            r.on_failure is None,
            r.max_calls_per_sec is None,
    {
        MapLlmOptions {
            output_field: String::new(),
            model: None,
            temperature: None,
            max_tokens: None,
            parallelism: None,
            ordering: None,
            on_failure: None,
            max_calls_per_sec: None,
        }
    }
}

/// What a language model extracts from events.
#[derive(Debug)]
pub struct ExtractOptions {
    pub instruction: String,
    /// The type of each field to extract.
    pub schema: FieldMap<String>,
    pub model: Option<String>,
    /// A number.
    pub temperature: Option<Value>,
    pub max_tokens: Option<u32>,
    /// `EMIT_ERROR`, `DROP` or `PASS_THROUGH`.
    pub on_failure: Option<String>,
}

impl Clone for ExtractOptions {
    fn clone(&self) -> (r: Self)
        ensures
            r.instruction == self.instruction,
            r.schema@ == self.schema@,
            r.model == self.model,
            opt_json(r.temperature) == opt_json(self.temperature),
            r.max_tokens == self.max_tokens,
            r.on_failure == self.on_failure,
    {
        let schema = self.schema.clone();
        assert(schema@ =~= self.schema@);
        ExtractOptions {
            instruction: self.instruction.clone(),
            schema,
            model: self.model.clone(),
            temperature: self.temperature.clone(),
            max_tokens: self.max_tokens,
            on_failure: self.on_failure.clone(),
        }
    }
}

impl Default for ExtractOptions {
    fn default() -> (r: Self)
        ensures
            r.instruction@ == Seq::<char>::empty(),
            r.schema@ == Map::<Seq<char>, String>::empty(),
            r.model is None,
            r.temperature is None,
            r.max_tokens is None,
            r.on_failure is None,
    {
        ExtractOptions {
            instruction: String::new(),
            schema: FieldMap::new(),
            model: None,
            temperature: None,
            max_tokens: None,
            on_failure: None,
        }
    }
}

/// How an MCP tool is called.
#[derive(Debug)]
pub struct McpCallOptions {
    /// The arguments; strings may hold `{field}` placeholders.
    pub args: Option<FieldMap<Value>>,
    /// The field that the output lands in; none for the effect alone.
    pub output_field: Option<String>,
    pub parallelism: Option<u32>,
    /// `PRESERVE_INPUT` or `UNORDERED`.
    pub ordering: Option<String>,
    /// `EMIT_ERROR`, `DROP` or `PASS_THROUGH`.
    pub on_failure: Option<String>,
}

impl Clone for McpCallOptions {
    fn clone(&self) -> (r: Self)
        ensures
            opt_values(r.args) == opt_values(self.args),
            r.output_field == self.output_field,
            r.parallelism == self.parallelism,
            r.ordering == self.ordering,
            r.on_failure == self.on_failure,
    {
        McpCallOptions {
            args: clone_values(&self.args),
            output_field: self.output_field.clone(),
            parallelism: self.parallelism,
            ordering: self.ordering.clone(),
            on_failure: self.on_failure.clone(),
        }
    }
}

impl Default for McpCallOptions {
    fn default() -> (r: Self)
        ensures
            r.args is None,
            r.output_field is None,
            r.parallelism is None,
            r.ordering is None,
            r.on_failure is None,
    {
        McpCallOptions {
            args: None,
            output_field: None,
            parallelism: None,
            ordering: None,
            on_failure: None,
        }
    }
}

/// How events are scored with an uploaded model.
#[derive(Debug)]
pub struct MlPredictOptions {
    /// The name of the model.
    pub model: String,
    /// The fields that are the features.
    pub input_fields: Vec<String>,
    /// The field that the prediction lands in.
    pub output_field: String,
    pub parallelism: Option<u32>,
    /// `PRESERVE_INPUT` or `UNORDERED`.
    pub ordering: Option<String>,
    /// `EMIT_ERROR`, `DROP` or `PASS_THROUGH`.
    pub on_failure: Option<String>,
}

impl Clone for MlPredictOptions {
    fn clone(&self) -> (r: Self)
        ensures
            r.model == self.model,
            r.input_fields@ == self.input_fields@,
            r.output_field == self.output_field,
            r.parallelism == self.parallelism,
            r.ordering == self.ordering,
            r.on_failure == self.on_failure,
    {
        let input_fields = self.input_fields.clone();
        assert(input_fields@ =~= self.input_fields@);
        MlPredictOptions {
            model: self.model.clone(),
            input_fields,
            output_field: self.output_field.clone(),
            parallelism: self.parallelism,
            ordering: self.ordering.clone(),
            on_failure: self.on_failure.clone(),
        }
    }
}

impl Default for MlPredictOptions {
    fn default() -> (r: Self)
        ensures
            r.model@ == Seq::<char>::empty(),
            r.input_fields@ == Seq::<String>::empty(),
            r.output_field@ == Seq::<char>::empty(),
            r.parallelism is None,
            r.ordering is None,
            r.on_failure is None,
    {
        MlPredictOptions {
            model: String::new(),
            input_fields: Vec::new(),
            output_field: String::new(),
            parallelism: None,
            ordering: None,
            on_failure: None,
        }
    }
}

// ----- accepted values -------------------------------------------------------------------------

/// Whether an ordering, if given, is one that the server knows.
pub open spec fn valid_ordering(text: Option<String>) -> bool {
    match text {
        Some(t) => t@ == "PRESERVE_INPUT"@ || t@ == "UNORDERED"@,
        None => true,
    }
}

/// Whether an ordering, if given, is one that the server knows.
pub fn check_ordering(text: &Option<String>) -> (r: bool)
    ensures
        r == valid_ordering(*text),
{
    match text {
        Some(t) => same_text(t.as_str(), "PRESERVE_INPUT") || same_text(t.as_str(), "UNORDERED"),
        None => true,
    }
}

/// Whether a failure mode, if given, is one that the server knows.
pub open spec fn valid_failure(text: Option<String>) -> bool {
    match text {
        Some(t) => t@ == "EMIT_ERROR"@ || t@ == "DROP"@ || t@ == "PASS_THROUGH"@,
        None => true,
    }
}

/// Whether a failure mode, if given, is one that the server knows.
pub fn check_failure(text: &Option<String>) -> (r: bool)
    ensures
        r == valid_failure(*text),
{
    match text {
        Some(t) => same_text(t.as_str(), "EMIT_ERROR") || same_text(t.as_str(), "DROP") || same_text(t.as_str(), "PASS_THROUGH"),
        None => true,
    }
}

/// Whether a refresh mode, if given, is one that the server knows.
pub open spec fn valid_refresh_mode(text: Option<String>) -> bool {
    match text {
        Some(t) => t@ == "cdc"@ || t@ == "periodic"@ || t@ == "explicit"@,
        None => true,
    }
}

/// Whether a refresh mode, if given, is one that the server knows.
pub fn check_refresh_mode(text: &Option<String>) -> (r: bool)
    ensures
        r == valid_refresh_mode(*text),
{
    match text {
        Some(t) => same_text(t.as_str(), "cdc") || same_text(t.as_str(), "periodic") || same_text(t.as_str(), "explicit"),
        None => true,
    }
}

/// Whether none of the branches lacks a condition or a topic.
pub open spec fn valid_branches(branches: Seq<BranchSpec>) -> bool {
    forall|i: int|
        0 <= i < branches.len() ==> !blank((#[trigger] branches[i]).condition@) && !blank(
            branches[i].topic@,
        )
}

/// Whether none of the branches lacks a condition or a topic.
pub fn check_branches(branches: &Vec<BranchSpec>) -> (r: bool)
    ensures
        r == valid_branches(branches@),
{
    let mut i: usize = 0;
    while i < branches.len()
        invariant
            i <= branches.len(),
            valid_branches(branches@.take(i as int)),
        decreases branches.len() - i,
    {
        if is_blank(branches[i].condition.as_str()) || is_blank(branches[i].topic.as_str()) {
            assert(blank(branches@[i as int].condition@) || blank(branches@[i as int].topic@));
            return false;
        }
        assert forall|j: int| 0 <= j < i + 1 implies !blank(
            (#[trigger] branches@.take(i + 1)[j]).condition@,
        ) && !blank(branches@.take(i + 1)[j].topic@) by {
            if j < i {
                assert(branches@.take(i as int)[j] == branches@[j]);
            }
        }
        i += 1;
    }
    assert(branches@.take(branches@.len() as int) =~= branches@);
    true
}

/// Whether none of the fields is blank.
pub open spec fn valid_fields(fields: Seq<String>) -> bool {
    forall|i: int| 0 <= i < fields.len() ==> !blank((#[trigger] fields[i])@)
}

/// Whether none of the fields is blank.
pub fn check_fields(fields: &Vec<String>) -> (r: bool)
    ensures
        r == valid_fields(fields@),
{
    let mut i: usize = 0;
    while i < fields.len()
        invariant
            i <= fields.len(),
            forall|j: int| 0 <= j < i ==> !blank((#[trigger] fields@[j])@),
        decreases fields.len() - i,
    {
        if is_blank(fields[i].as_str()) {
            assert(blank(fields@[i as int]@));
            return false;
        }
        i += 1;
    }
    true
}

// ----- documents -------------------------------------------------------------------------------

/// A map of texts that may be absent, as a document.
pub open spec fn opt_texts(m: Option<FieldMap<String>>) -> Option<Json> {
    match m {
        Some(fields) => Some(Json::Object(text_members(fields@))),
        None => None,
    }
}

/// A map of documents that may be absent, as a document.
pub open spec fn opt_values(m: Option<FieldMap<Value>>) -> Option<Json> {
    match m {
        Some(fields) => Some(Json::Object(value_members(fields@))),
        None => None,
    }
}

/// Copies a map of documents, where there is one.
fn clone_values(m: &Option<FieldMap<Value>>) -> (r: Option<FieldMap<Value>>)
    ensures
        opt_values(r) == opt_values(*m),
{
    match m {
        Some(fields) => {
            let copy = fields.clone();
            assert(value_members(copy@) =~= value_members(fields@));
            Some(copy)
        },
        None => None,
    }
}

/// A number that may be absent, as a document.
pub open spec fn opt_int(n: Option<i64>) -> Option<Json> {
    match n {
        Some(k) => Some(Json::Int(k as int)),
        None => None,
    }
}

/// A branch, as a document.
pub open spec fn branch_json(b: BranchSpec) -> Json {
    Json::Object(
        Map::<Seq<char>, Json>::empty().insert("condition"@, Json::Str(b.condition@)).insert(
            "topic"@,
            Json::Str(b.topic@),
        ),
    )
}

} // verus!
