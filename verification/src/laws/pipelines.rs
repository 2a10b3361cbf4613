//! Laws of pipelines: what each operator and each setting puts into the definition.
use crate::aggs;
use crate::client::{HttpCall, PulseClient};
use crate::error::PulseError;
use crate::fields::{text_members, value_members, FieldMap};
use crate::json::{json_of, jsons_of, member_of, members_of, strs, Json, Members};
use crate::laws::requests::{planned, talks_to};
use crate::laws::text::{lemma_blank, lemma_numeral};
use crate::laws::{
    all_space, count_doc, holds_texts, holds_values, lists_texts, lists_values, numeral, text_doc,
    value_doc,
};
use crate::options::{
    branch_json, check_branches, check_failure, check_fields, check_ordering, check_refresh_mode,
    BranchSpec, BroadcastJoinOptions, CdcJoinOptions, CepOptions, EnrichAsyncOptions, ExtractOptions,
    MapLlmOptions, MapOptions, McpCallOptions, MlPredictOptions, WindowOptions,
};
use crate::retry::Method;
use crate::streams::{
    branches_json, ops_json, ops_model, PipelineModel, StreamBuilder, StreamsResource,
};
use crate::text::decimal;
use crate::windows;
use crate::windows::WindowSpec;
use serde_json::Value;
use vstd::prelude::*;

verus! {

// ----- operators -------------------------------------------------------------------------------

/// The operators that a builder has recorded.
pub open spec fn records(b: StreamBuilder, ops: &[serde_json::Map<String, Value>]) -> bool {
    call_ensures(StreamBuilder::operators, (&b,), ops)
}

/// Whether `after` is `before` and one more operator at its end.
pub open spec fn one_more(
    before: Seq<serde_json::Map<String, Value>>,
    after: Seq<serde_json::Map<String, Value>>,
) -> bool {
    &&& after.len() == before.len() + 1
    &&& forall|i: int|
        0 <= i < before.len() ==> members_of(#[trigger] after[i]) == members_of(before[i])
}

/// Whether `r` is `b` but for its operators.
pub open spec fn same_settings(b: StreamBuilder, r: StreamBuilder) -> bool {
    &&& r@.name == b@.name
    &&& r@.description == b@.description
    &&& r@.agent_label == b@.agent_label
    &&& r@.input_topic == b@.input_topic
    &&& r@.source_engine == b@.source_engine
    &&& r@.source_config == b@.source_config
    &&& r@.source_label == b@.source_label
    &&& r@.output_topic == b@.output_topic
    &&& r@.sink_channel == b@.sink_channel
    &&& r@.sink_config == b@.sink_config
    &&& r@.sink_label == b@.sink_label
}

proof fn lemma_one_more(
    before: Seq<serde_json::Map<String, Value>>,
    after: Seq<serde_json::Map<String, Value>>,
    op: Members,
)
    requires
        ops_model(after) == ops_model(before).push(op),
    ensures
        one_more(before, after),
        members_of(after.last()) == op,
{
    assert(ops_model(after).len() == after.len() && ops_model(before).len() == before.len());
    assert forall|i: int| 0 <= i < before.len() implies members_of(#[trigger] after[i])
        == members_of(before[i]) by {
        assert(ops_model(after)[i] == members_of(after[i]));
        assert(ops_model(before)[i] == members_of(before[i]));
    }
    assert(ops_model(after).last() == members_of(after.last()));
}

proof fn lemma_texts(fields: Map<Seq<char>, String>)
    ensures
        holds_texts(Json::Object(text_members(fields)), fields),
{
    assert(text_members(fields).dom() =~= fields.dom());
}

proof fn lemma_values(fields: Map<Seq<char>, Value>)
    ensures
        holds_values(Json::Object(value_members(fields)), fields),
{
    assert(value_members(fields).dom() =~= fields.dom());
}

/// Whether a member is the object of a map of texts that may be absent.
pub open spec fn member_texts(doc: Option<Json>, fields: Option<FieldMap<String>>) -> bool {
    match fields {
        Some(m) => doc matches Some(d) && holds_texts(d, m@),
        None => doc is None,
    }
}

/// Whether a member is the object of a map of values that may be absent.
pub open spec fn member_values(doc: Option<Json>, fields: Option<FieldMap<Value>>) -> bool {
    match fields {
        Some(m) => doc matches Some(d) && holds_values(d, m@),
        None => doc is None,
    }
}

proof fn lemma_listed(values: Seq<Value>)
    ensures
        lists_values(Json::Array(jsons_of(values)), values),
{
}

proof fn lemma_listed_texts(texts: Seq<String>)
    ensures
        lists_texts(Json::Array(strs(texts)), texts),
{
}

/// Whether a document is a branch: its condition and its topic, and nothing else.
pub open spec fn branch_is(doc: Json, branch: BranchSpec) -> bool {
    doc matches Json::Object(members) && members.dom() =~= set!["condition"@, "topic"@]
        && members["condition"@] == Json::Str(branch.condition@) && members["topic"@] == Json::Str(
        branch.topic@,
    )
}

/// Whether a document is the array of the given branches, in their order.
pub open spec fn lists_branches(doc: Json, branches: Seq<BranchSpec>) -> bool {
    doc matches Json::Array(items) && items.len() == branches.len() && forall|i: int|
        0 <= i < items.len() ==> branch_is(#[trigger] items[i], branches[i])
}

proof fn lemma_branches(branches: Seq<BranchSpec>)
    ensures
        lists_branches(Json::Array(branches_json(branches)), branches),
{
    reveal_strlit("condition");
    reveal_strlit("topic");
    assert("condition"@.len() == 9 && "topic"@.len() == 5);
    assert forall|i: int| 0 <= i < branches.len() implies branch_is(
        #[trigger] branches_json(branches)[i],
        branches[i],
    ) by {
        assert(branches_json(branches)[i] == branch_json(branches[i]));
    }
}

/// An event filter holds its condition.
pub proof fn law_filter(
    b: StreamBuilder,
    condition: &str,
    r: StreamBuilder,
    before: &[serde_json::Map<String, Value>],
    after: &[serde_json::Map<String, Value>],
)
    requires
        call_ensures(StreamBuilder::filter, (b, condition), r),
        records(b, before),
        records(r, after),
    ensures
        one_more(before@, after@),
        same_settings(b, r),
        ({
            let op = Json::Object(members_of(after@.last()));
            &&& member_of(op, "type"@) == Some(Json::Str("filter"@))
            &&& member_of(op, "condition"@) == Some(Json::Str(condition@))
            &&& forall|k: Seq<char>| #[trigger]
                members_of(after@.last()).contains_key(k) ==> k == "type"@ || k == "condition"@
        }),
{
    lemma_one_more(before@, after@, r@.operators.last());
    reveal_strlit("type");
    reveal_strlit("condition");
    assert("type"@.len() == 4 && "condition"@.len() == 9);
}

/// A map holds the expression of each field and the type that it tags with, as far as they are
/// given.
pub proof fn law_map(
    b: StreamBuilder,
    options: MapOptions,
    r: StreamBuilder,
    before: &[serde_json::Map<String, Value>],
    after: &[serde_json::Map<String, Value>],
)
    requires
        call_ensures(StreamBuilder::map, (b, options), r),
        records(b, before),
        records(r, after),
    ensures
        one_more(before@, after@),
        same_settings(b, r),
        ({
            let op = Json::Object(members_of(after@.last()));
            &&& member_of(op, "type"@) == Some(Json::Str("map"@))
            &&& member_texts(member_of(op, "fields"@), options.fields)
            &&& member_of(op, "targetType"@) == text_doc(options.target_type)
            &&& forall|k: Seq<char>| #[trigger]
                members_of(after@.last()).contains_key(k) ==> k == "type"@ || k == "fields"@
                    || k == "targetType"@
        }),
{
    lemma_one_more(before@, after@, r@.operators.last());
    if let Some(m) = options.fields {
        lemma_texts(m@);
    }
    reveal_strlit("type");
    reveal_strlit("fields");
    reveal_strlit("targetType");
    assert("type"@.len() == 4 && "fields"@.len() == 6 && "targetType"@.len() == 10);
}

/// A flat map holds the field that it splits.
pub proof fn law_flat_map(
    b: StreamBuilder,
    split_field: &str,
    r: StreamBuilder,
    before: &[serde_json::Map<String, Value>],
    after: &[serde_json::Map<String, Value>],
)
    requires
        call_ensures(StreamBuilder::flat_map, (b, split_field), r),
        records(b, before),
        records(r, after),
    ensures
        one_more(before@, after@),
        same_settings(b, r),
        ({
            let op = Json::Object(members_of(after@.last()));
            &&& member_of(op, "type"@) == Some(Json::Str("flatMap"@))
            &&& member_of(op, "splitField"@) == Some(Json::Str(split_field@))
            &&& forall|k: Seq<char>| #[trigger]
                members_of(after@.last()).contains_key(k) ==> k == "type"@ || k == "splitField"@
        }),
{
    lemma_one_more(before@, after@, r@.operators.last());
    reveal_strlit("type");
    reveal_strlit("splitField");
    assert("type"@.len() == 4 && "splitField"@.len() == 10);
}

/// A grouping holds its field.
pub proof fn law_key_by(
    b: StreamBuilder,
    field: &str,
    r: StreamBuilder,
    before: &[serde_json::Map<String, Value>],
    after: &[serde_json::Map<String, Value>],
)
    requires
        call_ensures(StreamBuilder::key_by, (b, field), r),
        records(b, before),
        records(r, after),
    ensures
        one_more(before@, after@),
        same_settings(b, r),
        ({
            let op = Json::Object(members_of(after@.last()));
            &&& member_of(op, "type"@) == Some(Json::Str("keyBy"@))
            &&& member_of(op, "field"@) == Some(Json::Str(field@))
            &&& forall|k: Seq<char>| #[trigger]
                members_of(after@.last()).contains_key(k) ==> k == "type"@ || k == "field"@
        }),
{
    lemma_one_more(before@, after@, r@.operators.last());
    reveal_strlit("type");
    reveal_strlit("field");
    assert("type"@.len() == 4 && "field"@.len() == 5);
}

/// A window holds its specification, and what is given of its aggregations, its topic and its
/// trigger.
pub proof fn law_window_full(
    b: StreamBuilder,
    spec: WindowSpec,
    options: WindowOptions,
    r: StreamBuilder,
    before: &[serde_json::Map<String, Value>],
    after: &[serde_json::Map<String, Value>],
)
    requires
        call_ensures(StreamBuilder::window_full, (b, spec, options), r),
        records(b, before),
        records(r, after),
    ensures
        one_more(before@, after@),
        same_settings(b, r),
        ({
            let op = Json::Object(members_of(after@.last()));
            &&& member_of(op, "type"@) == Some(Json::Str("window"@))
            &&& member_of(op, "spec"@) == Some(Json::Str(spec@))
            &&& member_texts(member_of(op, "aggregations"@), options.aggregations)
            &&& member_of(op, "outputTopic"@) == text_doc(options.output_topic)
            &&& member_of(op, "trigger"@) == value_doc(options.trigger)
            &&& forall|k: Seq<char>| #[trigger]
                members_of(after@.last()).contains_key(k) ==> k == "type"@ || k == "spec"@
                    || k == "aggregations"@ || k == "outputTopic"@ || k == "trigger"@
        }),
{
    lemma_one_more(before@, after@, r@.operators.last());
    if let Some(m) = options.aggregations {
        lemma_texts(m@);
    }
    reveal_strlit("type");
    reveal_strlit("spec");
    reveal_strlit("aggregations");
    reveal_strlit("outputTopic");
    reveal_strlit("trigger");
    assert("type"@.len() == 4 && "spec"@.len() == 4 && "aggregations"@.len() == 12
        && "outputTopic"@.len() == 11 && "trigger"@.len() == 7);
    assert("spec"@[0] != "type"@[0]);
}

/// A window that a text describes holds that text, and what is given of its aggregations, its topic
/// and its trigger.
pub proof fn law_window_from_str(
    b: StreamBuilder,
    spec: &str,
    options: WindowOptions,
    r: StreamBuilder,
    before: &[serde_json::Map<String, Value>],
    after: &[serde_json::Map<String, Value>],
)
    requires
        call_ensures(StreamBuilder::window_from_str, (b, spec, options), r),
        records(b, before),
        records(r, after),
    ensures
        one_more(before@, after@),
        same_settings(b, r),
        ({
            let op = Json::Object(members_of(after@.last()));
            &&& member_of(op, "type"@) == Some(Json::Str("window"@))
            &&& member_of(op, "spec"@) == Some(Json::Str(spec@))
            &&& member_texts(member_of(op, "aggregations"@), options.aggregations)
            &&& member_of(op, "outputTopic"@) == text_doc(options.output_topic)
            &&& member_of(op, "trigger"@) == value_doc(options.trigger)
            &&& forall|k: Seq<char>| #[trigger]
                members_of(after@.last()).contains_key(k) ==> k == "type"@ || k == "spec"@
                    || k == "aggregations"@ || k == "outputTopic"@ || k == "trigger"@
        }),
{
    lemma_one_more(before@, after@, r@.operators.last());
    if let Some(m) = options.aggregations {
        lemma_texts(m@);
    }
    reveal_strlit("type");
    reveal_strlit("spec");
    reveal_strlit("aggregations");
    reveal_strlit("outputTopic");
    reveal_strlit("trigger");
    assert("type"@.len() == 4 && "spec"@.len() == 4 && "aggregations"@.len() == 12
        && "outputTopic"@.len() == 11 && "trigger"@.len() == 7);
    assert("spec"@[0] != "type"@[0]);
}

/// A bare window holds its specification and nothing else.
pub proof fn law_window(
    b: StreamBuilder,
    spec: WindowSpec,
    r: StreamBuilder,
    before: &[serde_json::Map<String, Value>],
    after: &[serde_json::Map<String, Value>],
)
    requires
        call_ensures(StreamBuilder::window, (b, spec), r),
        records(b, before),
        records(r, after),
    ensures
        one_more(before@, after@),
        same_settings(b, r),
        ({
            let op = Json::Object(members_of(after@.last()));
            &&& member_of(op, "type"@) == Some(Json::Str("window"@))
            &&& member_of(op, "spec"@) == Some(Json::Str(spec@))
            &&& forall|k: Seq<char>| #[trigger]
                members_of(after@.last()).contains_key(k) ==> k == "type"@ || k == "spec"@
        }),
{
    lemma_one_more(before@, after@, r@.operators.last());
    reveal_strlit("type");
    reveal_strlit("spec");
    assert("type"@.len() == 4 && "spec"@.len() == 4);
    assert("spec"@[0] != "type"@[0]);
}

/// A window with aggregations holds its specification and them.
pub proof fn law_window_with_aggs(
    b: StreamBuilder,
    spec: WindowSpec,
    aggregations: FieldMap<String>,
    r: StreamBuilder,
    before: &[serde_json::Map<String, Value>],
    after: &[serde_json::Map<String, Value>],
)
    requires
        call_ensures(StreamBuilder::window_with_aggs, (b, spec, aggregations), r),
        records(b, before),
        records(r, after),
    ensures
        one_more(before@, after@),
        same_settings(b, r),
        ({
            let op = Json::Object(members_of(after@.last()));
            &&& member_of(op, "type"@) == Some(Json::Str("window"@))
            &&& member_of(op, "spec"@) == Some(Json::Str(spec@))
            &&& member_texts(member_of(op, "aggregations"@), Some(aggregations))
            &&& forall|k: Seq<char>| #[trigger]
                members_of(after@.last()).contains_key(k) ==> k == "type"@ || k == "spec"@
                    || k == "aggregations"@
        }),
{
    lemma_one_more(before@, after@, r@.operators.last());
    lemma_texts(aggregations@);
    reveal_strlit("type");
    reveal_strlit("spec");
    reveal_strlit("aggregations");
    assert("type"@.len() == 4 && "spec"@.len() == 4 && "aggregations"@.len() == 12);
    assert("spec"@[0] != "type"@[0]);
}

/// A branching holds each branch in its place, with its condition and its topic.
pub proof fn law_branch(
    b: StreamBuilder,
    branches: Vec<BranchSpec>,
    r: StreamBuilder,
    before: &[serde_json::Map<String, Value>],
    after: &[serde_json::Map<String, Value>],
)
    requires
        call_ensures(StreamBuilder::branch, (b, branches), r),
        records(b, before),
        records(r, after),
    ensures
        one_more(before@, after@),
        same_settings(b, r),
        ({
            let op = Json::Object(members_of(after@.last()));
            &&& member_of(op, "type"@) == Some(Json::Str("branch"@))
            &&& member_of(op, "branches"@) matches Some(doc) && lists_branches(doc, branches@)
            &&& forall|k: Seq<char>| #[trigger]
                members_of(after@.last()).contains_key(k) ==> k == "type"@ || k == "branches"@
        }),
{
    lemma_one_more(before@, after@, r@.operators.last());
    lemma_branches(branches@);
    reveal_strlit("type");
    reveal_strlit("branches");
    assert("type"@.len() == 4 && "branches"@.len() == 8);
}

/// An enrichment holds the topic that it looks up in and the field that it looks up by.
pub proof fn law_enrich(
    b: StreamBuilder,
    lookup_topic: &str,
    key_field: &str,
    r: StreamBuilder,
    before: &[serde_json::Map<String, Value>],
    after: &[serde_json::Map<String, Value>],
)
    requires
        call_ensures(StreamBuilder::enrich, (b, lookup_topic, key_field), r),
        records(b, before),
        records(r, after),
    ensures
        one_more(before@, after@),
        same_settings(b, r),
        ({
            let op = Json::Object(members_of(after@.last()));
            &&& member_of(op, "type"@) == Some(Json::Str("enrich"@))
            &&& member_of(op, "lookupTopic"@) == Some(Json::Str(lookup_topic@))
            &&& member_of(op, "keyField"@) == Some(Json::Str(key_field@))
            &&& forall|k: Seq<char>| #[trigger]
                members_of(after@.last()).contains_key(k) ==> k == "type"@ || k == "lookupTopic"@
                    || k == "keyField"@
        }),
{
    lemma_one_more(before@, after@, r@.operators.last());
    reveal_strlit("type");
    reveal_strlit("lookupTopic");
    reveal_strlit("keyField");
    assert("type"@.len() == 4 && "lookupTopic"@.len() == 11 && "keyField"@.len() == 8);
}

/// An enrichment over HTTP holds its URL and each option that is given.
pub proof fn law_enrich_async(
    b: StreamBuilder,
    options: EnrichAsyncOptions,
    r: StreamBuilder,
    before: &[serde_json::Map<String, Value>],
    after: &[serde_json::Map<String, Value>],
)
    requires
        call_ensures(StreamBuilder::enrich_async, (b, options), r),
        records(b, before),
        records(r, after),
    ensures
        one_more(before@, after@),
        same_settings(b, r),
        ({
            let op = Json::Object(members_of(after@.last()));
            &&& member_of(op, "type"@) == Some(Json::Str("enrichAsync"@))
            &&& member_of(op, "url"@) == Some(Json::Str(options.url@))
            &&& member_of(op, "parallelism"@) == count_doc(options.parallelism)
            &&& member_of(op, "queueSize"@) == count_doc(options.queue_size)
            &&& member_of(op, "timeoutMs"@) == count_doc(options.timeout_ms)
            &&& member_of(op, "maxRetries"@) == count_doc(options.max_retries)
            &&& member_of(op, "retryBackoffMs"@) == count_doc(options.retry_backoff_ms)
            &&& member_of(op, "ordering"@) == text_doc(options.ordering)
            &&& member_of(op, "onFailure"@) == text_doc(options.on_failure)
            &&& forall|k: Seq<char>| #[trigger]
                members_of(after@.last()).contains_key(k) ==> k == "type"@ || k == "url"@
                    || k == "parallelism"@ || k == "queueSize"@ || k == "timeoutMs"@
                    || k == "maxRetries"@ || k == "retryBackoffMs"@ || k == "ordering"@
                    || k == "onFailure"@
        }),
{
    lemma_one_more(before@, after@, r@.operators.last());
    reveal_strlit("type");
    reveal_strlit("url");
    reveal_strlit("parallelism");
    reveal_strlit("queueSize");
    reveal_strlit("timeoutMs");
    reveal_strlit("maxRetries");
    reveal_strlit("retryBackoffMs");
    reveal_strlit("ordering");
    reveal_strlit("onFailure");
    assert("type"@.len() == 4 && "url"@.len() == 3 && "parallelism"@.len() == 11
        && "queueSize"@.len() == 9 && "timeoutMs"@.len() == 9 && "maxRetries"@.len() == 10
        && "retryBackoffMs"@.len() == 14 && "ordering"@.len() == 8 && "onFailure"@.len() == 9);
    assert("timeoutMs"@[0] != "queueSize"@[0]);
    assert("onFailure"@[0] != "queueSize"@[0]);
    assert("onFailure"@[0] != "timeoutMs"@[0]);
}

/// A pattern holds its steps, all of them and in the order in which they were given, and each
/// option that is given.
pub proof fn law_cep(
    b: StreamBuilder,
    sequence: Vec<Value>,
    options: CepOptions,
    r: StreamBuilder,
    before: &[serde_json::Map<String, Value>],
    after: &[serde_json::Map<String, Value>],
)
    requires
        call_ensures(StreamBuilder::cep, (b, sequence, options), r),
        records(b, before),
        records(r, after),
    ensures
        one_more(before@, after@),
        same_settings(b, r),
        ({
            let op = Json::Object(members_of(after@.last()));
            &&& member_of(op, "type"@) == Some(Json::Str("cep"@))
            &&& member_of(op, "sequence"@) matches Some(doc) && lists_values(doc, sequence@)
            &&& member_of(op, "within"@) == text_doc(options.within)
            &&& member_of(op, "name"@) == text_doc(options.name)
            &&& forall|k: Seq<char>| #[trigger]
                members_of(after@.last()).contains_key(k) ==> k == "type"@ || k == "sequence"@
                    || k == "within"@ || k == "name"@
        }),
{
    lemma_one_more(before@, after@, r@.operators.last());
    lemma_listed(sequence@);
    reveal_strlit("type");
    reveal_strlit("sequence");
    reveal_strlit("within");
    reveal_strlit("name");
    assert("type"@.len() == 4 && "sequence"@.len() == 8 && "within"@.len() == 6
        && "name"@.len() == 4);
    assert("name"@[0] != "type"@[0]);
}

/// A completion holds its prompt, the field that it lands in and each option that is given.
pub proof fn law_map_llm(
    b: StreamBuilder,
    prompt: &str,
    options: MapLlmOptions,
    r: StreamBuilder,
    before: &[serde_json::Map<String, Value>],
    after: &[serde_json::Map<String, Value>],
)
    requires
        call_ensures(StreamBuilder::map_llm, (b, prompt, options), r),
        records(b, before),
        records(r, after),
    ensures
        one_more(before@, after@),
        same_settings(b, r),
        ({
            let op = Json::Object(members_of(after@.last()));
            &&& member_of(op, "type"@) == Some(Json::Str("mapLlm"@))
            &&& member_of(op, "prompt"@) == Some(Json::Str(prompt@))
            &&& member_of(op, "outputField"@) == Some(Json::Str(options.output_field@))
            &&& member_of(op, "model"@) == text_doc(options.model)
            &&& member_of(op, "temperature"@) == value_doc(options.temperature)
            &&& member_of(op, "maxTokens"@) == count_doc(options.max_tokens)
            &&& member_of(op, "parallelism"@) == count_doc(options.parallelism)
            &&& member_of(op, "ordering"@) == text_doc(options.ordering)
            &&& member_of(op, "onFailure"@) == text_doc(options.on_failure)
            &&& member_of(op, "maxCallsPerSec"@) == count_doc(options.max_calls_per_sec)
            &&& forall|k: Seq<char>| #[trigger]
                members_of(after@.last()).contains_key(k) ==> k == "type"@ || k == "prompt"@
                    || k == "outputField"@ || k == "model"@ || k == "temperature"@
                    || k == "maxTokens"@ || k == "parallelism"@ || k == "ordering"@
                    || k == "onFailure"@ || k == "maxCallsPerSec"@
        }),
{
    lemma_one_more(before@, after@, r@.operators.last());
    reveal_strlit("type");
    reveal_strlit("prompt");
    reveal_strlit("outputField");
    reveal_strlit("model");
    reveal_strlit("temperature");
    reveal_strlit("maxTokens");
    reveal_strlit("parallelism");
    reveal_strlit("ordering");
    reveal_strlit("onFailure");
    reveal_strlit("maxCallsPerSec");
    assert("type"@.len() == 4 && "prompt"@.len() == 6 && "outputField"@.len() == 11
        && "model"@.len() == 5 && "temperature"@.len() == 11 && "maxTokens"@.len() == 9
        && "parallelism"@.len() == 11 && "ordering"@.len() == 8 && "onFailure"@.len() == 9
        && "maxCallsPerSec"@.len() == 14);
    assert("temperature"@[0] != "outputField"@[0]);
    assert("parallelism"@[0] != "outputField"@[0]);
    assert("parallelism"@[0] != "temperature"@[0]);
    assert("onFailure"@[0] != "maxTokens"@[0]);
}

/// An extraction holds its instruction, the type of each field and each option that is given.
pub proof fn law_extract(
    b: StreamBuilder,
    options: ExtractOptions,
    r: StreamBuilder,
    before: &[serde_json::Map<String, Value>],
    after: &[serde_json::Map<String, Value>],
)
    requires
        call_ensures(StreamBuilder::extract, (b, options), r),
        records(b, before),
        records(r, after),
    ensures
        one_more(before@, after@),
        same_settings(b, r),
        ({
            let op = Json::Object(members_of(after@.last()));
            &&& member_of(op, "type"@) == Some(Json::Str("extract"@))
            &&& member_of(op, "instruction"@) == Some(Json::Str(options.instruction@))
            &&& member_texts(member_of(op, "schema"@), Some(options.schema))
            &&& member_of(op, "model"@) == text_doc(options.model)
            &&& member_of(op, "temperature"@) == value_doc(options.temperature)
            &&& member_of(op, "maxTokens"@) == count_doc(options.max_tokens)
            &&& member_of(op, "onFailure"@) == text_doc(options.on_failure)
            &&& forall|k: Seq<char>| #[trigger]
                members_of(after@.last()).contains_key(k) ==> k == "type"@ || k == "instruction"@
                    || k == "schema"@ || k == "model"@ || k == "temperature"@ || k == "maxTokens"@
                    || k == "onFailure"@
        }),
{
    lemma_one_more(before@, after@, r@.operators.last());
    lemma_texts(options.schema@);
    reveal_strlit("type");
    reveal_strlit("instruction");
    reveal_strlit("schema");
    reveal_strlit("model");
    reveal_strlit("temperature");
    reveal_strlit("maxTokens");
    reveal_strlit("onFailure");
    assert("type"@.len() == 4 && "instruction"@.len() == 11 && "schema"@.len() == 6
        && "model"@.len() == 5 && "temperature"@.len() == 11 && "maxTokens"@.len() == 9
        && "onFailure"@.len() == 9);
    assert("temperature"@[0] != "instruction"@[0]);
    assert("onFailure"@[0] != "maxTokens"@[0]);
}

/// A tool call holds its tool, its arguments and each option that is given.
pub proof fn law_mcp_call(
    b: StreamBuilder,
    tool: &str,
    options: McpCallOptions,
    r: StreamBuilder,
    before: &[serde_json::Map<String, Value>],
    after: &[serde_json::Map<String, Value>],
)
    requires
        call_ensures(StreamBuilder::mcp_call, (b, tool, options), r),
        records(b, before),
        records(r, after),
    ensures
        one_more(before@, after@),
        same_settings(b, r),
        ({
            let op = Json::Object(members_of(after@.last()));
            &&& member_of(op, "type"@) == Some(Json::Str("mcpCall"@))
            &&& member_of(op, "tool"@) == Some(Json::Str(tool@))
            &&& member_values(member_of(op, "args"@), options.args)
            &&& member_of(op, "outputField"@) == text_doc(options.output_field)
            &&& member_of(op, "parallelism"@) == count_doc(options.parallelism)
            &&& member_of(op, "ordering"@) == text_doc(options.ordering)
            &&& member_of(op, "onFailure"@) == text_doc(options.on_failure)
            &&& forall|k: Seq<char>| #[trigger]
                members_of(after@.last()).contains_key(k) ==> k == "type"@ || k == "tool"@
                    || k == "args"@ || k == "outputField"@ || k == "parallelism"@
                    || k == "ordering"@ || k == "onFailure"@
        }),
{
    lemma_one_more(before@, after@, r@.operators.last());
    if let Some(m) = options.args {
        lemma_values(m@);
    }
    reveal_strlit("type");
    reveal_strlit("tool");
    reveal_strlit("args");
    reveal_strlit("outputField");
    reveal_strlit("parallelism");
    reveal_strlit("ordering");
    reveal_strlit("onFailure");
    assert("type"@.len() == 4 && "tool"@.len() == 4 && "args"@.len() == 4
        && "outputField"@.len() == 11 && "parallelism"@.len() == 11 && "ordering"@.len() == 8
        && "onFailure"@.len() == 9);
    assert("tool"@[1] != "type"@[1]);
    assert("args"@[0] != "type"@[0]);
    assert("args"@[0] != "tool"@[0]);
    assert("parallelism"@[0] != "outputField"@[0]);
}

/// A prediction holds its model, its features in their order, the field that it lands in and each
/// option that is given.
pub proof fn law_ml_predict(
    b: StreamBuilder,
    options: MlPredictOptions,
    r: StreamBuilder,
    before: &[serde_json::Map<String, Value>],
    after: &[serde_json::Map<String, Value>],
)
    requires
        call_ensures(StreamBuilder::ml_predict, (b, options), r),
        records(b, before),
        records(r, after),
    ensures
        one_more(before@, after@),
        same_settings(b, r),
        ({
            let op = Json::Object(members_of(after@.last()));
            &&& member_of(op, "type"@) == Some(Json::Str("mlPredict"@))
            &&& member_of(op, "model"@) == Some(Json::Str(options.model@))
            &&& member_of(op, "inputFields"@) matches Some(doc)
                && lists_texts(doc, options.input_fields@)
            &&& member_of(op, "outputField"@) == Some(Json::Str(options.output_field@))
            &&& member_of(op, "parallelism"@) == count_doc(options.parallelism)
            &&& member_of(op, "ordering"@) == text_doc(options.ordering)
            &&& member_of(op, "onFailure"@) == text_doc(options.on_failure)
            &&& forall|k: Seq<char>| #[trigger]
                members_of(after@.last()).contains_key(k) ==> k == "type"@ || k == "model"@
                    || k == "inputFields"@ || k == "outputField"@ || k == "parallelism"@
                    || k == "ordering"@ || k == "onFailure"@
        }),
{
    lemma_one_more(before@, after@, r@.operators.last());
    lemma_listed_texts(options.input_fields@);
    reveal_strlit("type");
    reveal_strlit("model");
    reveal_strlit("inputFields");
    reveal_strlit("outputField");
    reveal_strlit("parallelism");
    reveal_strlit("ordering");
    reveal_strlit("onFailure");
    assert("type"@.len() == 4 && "model"@.len() == 5 && "inputFields"@.len() == 11
        && "outputField"@.len() == 11 && "parallelism"@.len() == 11 && "ordering"@.len() == 8
        && "onFailure"@.len() == 9);
    assert("outputField"@[0] != "inputFields"@[0]);
    assert("parallelism"@[0] != "inputFields"@[0]);
    assert("parallelism"@[0] != "outputField"@[0]);
}

/// A broadcast join holds the field that it joins by and each option that is given.
pub proof fn law_broadcast_join(
    b: StreamBuilder,
    options: BroadcastJoinOptions,
    r: StreamBuilder,
    before: &[serde_json::Map<String, Value>],
    after: &[serde_json::Map<String, Value>],
)
    requires
        call_ensures(StreamBuilder::broadcast_join, (b, options), r),
        records(b, before),
        records(r, after),
    ensures
        one_more(before@, after@),
        same_settings(b, r),
        ({
            let op = Json::Object(members_of(after@.last()));
            &&& member_of(op, "type"@) == Some(Json::Str("broadcastJoin"@))
            &&& member_of(op, "joinKeyField"@) == Some(Json::Str(options.join_key_field@))
            &&& member_of(op, "streamingTopic"@) == text_doc(options.streaming_topic)
            &&& member_of(op, "name"@) == text_doc(options.name)
            &&& member_of(op, "maxBytes"@) == match options.max_bytes {
                Some(n) => Some(Json::Int(n as int)),
                None => None,
            }
            &&& member_of(op, "refreshMode"@) == text_doc(options.refresh_mode)
            &&& member_of(op, "intervalMillis"@) == count_doc(options.interval_millis)
            &&& forall|k: Seq<char>| #[trigger]
                members_of(after@.last()).contains_key(k) ==> k == "type"@ || k == "joinKeyField"@
                    || k == "streamingTopic"@ || k == "name"@ || k == "maxBytes"@
                    || k == "refreshMode"@ || k == "intervalMillis"@
        }),
{
    lemma_one_more(before@, after@, r@.operators.last());
    reveal_strlit("type");
    reveal_strlit("joinKeyField");
    reveal_strlit("streamingTopic");
    reveal_strlit("name");
    reveal_strlit("maxBytes");
    reveal_strlit("refreshMode");
    reveal_strlit("intervalMillis");
    assert("type"@.len() == 4 && "joinKeyField"@.len() == 12 && "streamingTopic"@.len() == 14
        && "name"@.len() == 4 && "maxBytes"@.len() == 8 && "refreshMode"@.len() == 11
        && "intervalMillis"@.len() == 14);
    assert("name"@[0] != "type"@[0]);
    assert("intervalMillis"@[0] != "streamingTopic"@[0]);
}

/// A join with a captured table holds its source and each option that is given.
pub proof fn law_cdc_join(
    b: StreamBuilder,
    options: CdcJoinOptions,
    r: StreamBuilder,
    before: &[serde_json::Map<String, Value>],
    after: &[serde_json::Map<String, Value>],
)
    requires
        call_ensures(StreamBuilder::cdc_join, (b, options), r),
        records(b, before),
        records(r, after),
    ensures
        one_more(before@, after@),
        same_settings(b, r),
        ({
            let op = Json::Object(members_of(after@.last()));
            &&& member_of(op, "type"@) == Some(Json::Str("cdcJoin"@))
            &&& member_of(op, "source"@) == Some(Json::Str(options.source@))
            &&& member_of(op, "joinKey"@) == text_doc(options.join_key)
            &&& member_of(op, "table"@) == text_doc(options.table)
            &&& member_of(op, "stateBackend"@) == text_doc(options.state_backend)
            &&& forall|k: Seq<char>| #[trigger]
                members_of(after@.last()).contains_key(k) ==> k == "type"@ || k == "source"@
                    || k == "joinKey"@ || k == "table"@ || k == "stateBackend"@
        }),
{
    lemma_one_more(before@, after@, r@.operators.last());
    reveal_strlit("type");
    reveal_strlit("source");
    reveal_strlit("joinKey");
    reveal_strlit("table");
    reveal_strlit("stateBackend");
    assert("type"@.len() == 4 && "source"@.len() == 6 && "joinKey"@.len() == 7
        && "table"@.len() == 5 && "stateBackend"@.len() == 12);
}

// ----- settings --------------------------------------------------------------------------------

/// Each setting is kept as it was given, and leaves all else as it was. A topic comes with its
/// engine or its channel; one that is set without them has `kafka` or none.
pub proof fn law_settings(
    b: StreamBuilder,
    text: &str,
    other: &str,
    value: Value,
    r: StreamBuilder,
)
    ensures
        call_ensures(StreamBuilder::from_topic, (b, text), r) ==> r@ == (PipelineModel {
                input_topic: Some(text@),
                source_engine: Some("kafka"@),
                ..b@
            }),
        call_ensures(StreamBuilder::from_topic_with_engine, (b, text, other), r) ==> r@ == (PipelineModel {
                input_topic: Some(text@),
                source_engine: Some(other@),
                ..b@
            }),
        call_ensures(StreamBuilder::with_source_config, (b, text, value), r) ==> r@ == (PipelineModel {
                source_config: b@.source_config.insert(text@, json_of(value)),
                ..b@
            }),
        call_ensures(StreamBuilder::with_source_label, (b, text), r) ==> r@ == (PipelineModel {
                source_label: Some(text@),
                ..b@
            }),
        call_ensures(StreamBuilder::to_topic, (b, text), r) ==> r@ == (PipelineModel {
                output_topic: Some(text@),
                sink_channel: None,
                ..b@
            }),
        call_ensures(StreamBuilder::to_topic_with_channel, (b, text, other), r) ==> r@ == (PipelineModel {
                output_topic: Some(text@),
                sink_channel: Some(other@),
                ..b@
            }),
        call_ensures(StreamBuilder::with_sink_config, (b, text, value), r) ==> r@ == (PipelineModel {
                sink_config: b@.sink_config.insert(text@, json_of(value)),
                ..b@
            }),
        call_ensures(StreamBuilder::with_sink_label, (b, text), r) ==> r@ == (PipelineModel {
                sink_label: Some(text@),
                ..b@
            }),
        call_ensures(StreamBuilder::to_state, (b,), r) ==> r@ == (PipelineModel {
                output_topic: None,
                sink_channel: None,
                sink_config: Members::empty(),
                sink_label: None,
                ..b@
            }),
        call_ensures(StreamBuilder::named, (b, text), r) ==> r@ == (PipelineModel {
                name: Some(text@),
                ..b@
            }),
        call_ensures(StreamBuilder::described_as, (b, text), r) ==> r@ == (PipelineModel {
                description: Some(text@),
                ..b@
            }),
        call_ensures(StreamBuilder::with_agent_label, (b, text), r) ==> r@ == (PipelineModel {
                agent_label: Some(text@),
                ..b@
            }),
{
}

/// A new builder has nothing set but its name, where it has one; a copy has all that the builder
/// has.
pub proof fn law_builders(
    name: &str,
    new: StreamBuilder,
    anonymous: StreamBuilder,
    default: StreamBuilder,
    copy: StreamBuilder,
)
    requires
        call_ensures(StreamBuilder::new, (name,), new),
        call_ensures(StreamBuilder::anonymous, (), anonymous),
        call_ensures(<StreamBuilder as Default>::default, (), default),
        call_ensures(<StreamBuilder as Clone>::clone, (&new,), copy),
    ensures
        new@ == (PipelineModel { name: Some(name@), ..anonymous@ }),
        nothing_set(anonymous@),
        nothing_set(default@),
        copy@ == new@,
{
}

/// Whether nothing is set of a pipeline.
pub open spec fn nothing_set(p: PipelineModel) -> bool {
    &&& p.name is None
    &&& p.description is None
    &&& p.agent_label is None
    &&& p.input_topic is None
    &&& p.source_engine is None
    &&& p.source_config.dom() =~= Set::empty()
    &&& p.source_label is None
    &&& p.output_topic is None
    &&& p.sink_channel is None
    &&& p.sink_config.dom() =~= Set::empty()
    &&& p.sink_label is None
    &&& p.operators.len() == 0
}

/// A copy of a builder is the builder, whatever was set of it.
pub proof fn law_builder_copies(b: StreamBuilder, copy: StreamBuilder)
    requires
        call_ensures(<StreamBuilder as Clone>::clone, (&b,), copy),
    ensures
        copy@ == b@,
{
}

/// What a builder shows of its operators is what it has recorded, in order.
pub proof fn law_recorded_operators(b: StreamBuilder, ops: &[serde_json::Map<String, Value>])
    requires
        records(b, ops),
    ensures
        ops@.len() == b@.operators.len(),
        forall|i: int| 0 <= i < ops@.len() ==> members_of(#[trigger] ops@[i]) == b@.operators[i],
{
    assert(ops_model(ops@).len() == ops@.len());
    assert forall|i: int| 0 <= i < ops@.len() implies members_of(#[trigger] ops@[i])
        == b@.operators[i] by {
        assert(ops_model(ops@)[i] == members_of(ops@[i]));
    }
}

// ----- definitions -----------------------------------------------------------------------------

/// Whether a document is a node: its type, its label and its configuration, and nothing else.
pub open spec fn node_is(doc: Json, kind: Seq<char>, label: Seq<char>) -> bool {
    doc matches Json::Object(members) && members.dom() =~= set!["type"@, "label"@, "config"@]
        && members["type"@] == Json::Str(kind) && members["label"@] == Json::Str(label)
        && members["config"@] is Object
}

/// The configuration of a node.
pub open spec fn config_of(doc: Json) -> Members {
    doc->Object_0["config"@]->Object_0
}

/// Whether a configuration holds the extra entries, and the two standard ones where no extra entry
/// stands in their place.
pub open spec fn configured(
    config: Members,
    extra: Members,
    key: Seq<char>,
    text: Seq<char>,
    other_key: Seq<char>,
    other: Seq<char>,
) -> bool {
    &&& config.dom() =~= extra.dom().insert(key).insert(other_key)
    &&& forall|k: Seq<char>| #[trigger] extra.contains_key(k) ==> config[k] == extra[k]
    &&& !extra.contains_key(key) ==> config[key] == Json::Str(text)
    &&& !extra.contains_key(other_key) ==> config[other_key] == Json::Str(other)
}

/// Whether a document is the definition of a pipeline under `name` with the given operators.
pub open spec fn defines(
    doc: Json,
    p: PipelineModel,
    name: Seq<char>,
    topic: Seq<char>,
    ops: Seq<serde_json::Map<String, Value>>,
) -> bool {
    let engine = match p.source_engine {
        Some(e) => e,
        None => "kafka"@,
    };
    let sunk = p.output_topic is Some && p.sink_channel is Some;
    &&& member_of(doc, "name"@) == Some(Json::Str(name))
    &&& member_of(doc, "description"@) == match p.description {
        Some(text) => Some(Json::Str(text)),
        None => None,
    }
    &&& doc is Object
    &&& forall|k: Seq<char>| #[trigger]
        doc->Object_0.contains_key(k) ==> k == "name"@ || k == "description"@ || k == "nodes"@
    &&& member_of(doc, "nodes"@) matches Some(Json::Array(nodes)) && {
        &&& nodes.len() == if sunk { 3int } else { 2int }
        &&& node_is(
            nodes[0],
            "source"@,
            match p.source_label {
                Some(label) => label,
                None => engine + " source"@,
            },
        )
        &&& configured(
            config_of(nodes[0]),
            p.source_config,
            "engine"@,
            engine,
            "inputTopic"@,
            topic,
        )
        &&& node_is(
            nodes[1],
            "agent"@,
            match p.agent_label {
                Some(label) => label,
                None => name,
            },
        )
        &&& runs(config_of(nodes[1]), topic, p.output_topic, ops)
        &&& sunk ==> node_is(
            nodes[2],
            "sink"@,
            match p.sink_label {
                Some(label) => label,
                None => p.sink_channel->0 + " sink"@,
            },
        ) && configured(
            config_of(nodes[2]),
            p.sink_config,
            "channel"@,
            p.sink_channel->0,
            "inputTopic"@,
            p.output_topic->0,
        )
    }
}

/// Whether a configuration is that of an agent that reads `topic`, runs the given operators in
/// their order, and writes to the output topic where there is one.
pub open spec fn runs(
    config: Members,
    topic: Seq<char>,
    output_topic: Option<Seq<char>>,
    ops: Seq<serde_json::Map<String, Value>>,
) -> bool {
    &&& config.dom() =~= if output_topic is Some {
        set!["engine"@, "inputTopic"@, "operators"@, "outputTopic"@]
    } else {
        set!["engine"@, "inputTopic"@, "operators"@]
    }
    &&& config["engine"@] == Json::Str("streaming"@)
    &&& config["inputTopic"@] == Json::Str(topic)
    &&& output_topic matches Some(out) ==> config["outputTopic"@] == Json::Str(out)
    &&& config["operators"@] matches Json::Array(items) && items.len() == ops.len()
        && forall|i: int|
        0 <= i < items.len() ==> #[trigger] items[i] == Json::Object(members_of(ops[i]))
}

/// Whether `r` is the definition of a pipeline under `name`, or the error that says what it lacks:
/// a name, a source or an operator, in this order.
pub open spec fn compiles(
    r: Result<Value, PulseError>,
    p: PipelineModel,
    name: Option<Seq<char>>,
    ops: Seq<serde_json::Map<String, Value>>,
) -> bool {
    match (name, p.input_topic) {
        (None, _) => lacks(
            r,
            "pipeline name required — pass to StreamBuilder::new or build_with_name"@,
        ),
        (Some(_), None) => lacks(r, "no source — call .from_topic(...) before build()"@),
        (Some(n), Some(topic)) => if ops.len() == 0 {
            lacks(
                r,
                "no operators — chain at least one of .filter/.map/.key_by/... before build()"@,
            )
        } else {
            r matches Ok(v) && defines(json_of(v), p, n, topic, ops)
        },
    }
}

/// Whether `r` is the error that says what a pipeline lacks.
pub open spec fn lacks(r: Result<Value, PulseError>, text: Seq<char>) -> bool {
    r matches Err(PulseError::InvalidConfig(t)) && t@ == text
}

proof fn lemma_compiles(
    r: Result<Value, PulseError>,
    b: StreamBuilder,
    override_name: Option<Seq<char>>,
    ops: &[serde_json::Map<String, Value>],
)
    requires
        records(b, ops),
        crate::streams::compiles_to(r, crate::streams::compiled(b@, override_name)),
    ensures
        compiles(
            r,
            b@,
            match override_name {
                Some(n) => Some(n),
                None => b@.name,
            },
            ops@,
        ),
{
    law_recorded_operators(b, ops);
    reveal_strlit("name");
    reveal_strlit("nodes");
    reveal_strlit("description");
    assert("name"@.len() == 4 && "nodes"@.len() == 5 && "description"@.len() == 11);
    reveal_strlit("type");
    reveal_strlit("label");
    reveal_strlit("config");
    assert("type"@.len() == 4 && "label"@.len() == 5 && "config"@.len() == 6);
    reveal_strlit("engine");
    reveal_strlit("inputTopic");
    reveal_strlit("operators");
    reveal_strlit("outputTopic");
    reveal_strlit("channel");
    assert("engine"@.len() == 6 && "inputTopic"@.len() == 10 && "operators"@.len() == 9
        && "outputTopic"@.len() == 11 && "channel"@.len() == 7);
    let p = b@;
    if let Ok(v) = r {
        let doc = json_of(v);
        let nodes = doc->Object_0["nodes"@]->Array_0;
        let items = config_of(nodes[1])["operators"@]->Array_0;
        assert(items == ops_json(p.operators));
        assert forall|i: int| 0 <= i < items.len() implies #[trigger] items[i] == Json::Object(
            members_of(ops@[i]),
        ) by {
            assert(members_of(ops@[i]) == p.operators[i]);
        }
    }
}

/// Building compiles the pipeline under its own name, or under the one that is given.
pub proof fn law_building(
    b: StreamBuilder,
    ops: &[serde_json::Map<String, Value>],
    name: &str,
    override_name: Option<String>,
    built: Result<Value, PulseError>,
    renamed: Result<Value, PulseError>,
    inner: Result<Value, PulseError>,
)
    requires
        records(b, ops),
        call_ensures(StreamBuilder::build, (&b,), built),
        call_ensures(StreamBuilder::build_with_name, (&b, name), renamed),
        call_ensures(StreamBuilder::build_inner, (&b, override_name), inner),
    ensures
        compiles(built, b@, b@.name, ops@),
        compiles(renamed, b@, Some(name@), ops@),
        compiles(
            inner,
            b@,
            match override_name {
                Some(n) => Some(n@),
                None => b@.name,
            },
            ops@,
        ),
{
    lemma_compiles(built, b, None, ops);
    lemma_compiles(renamed, b, Some(name@), ops);
    lemma_compiles(inner, b, crate::json::opt_text(override_name), ops);
}

/// Whether `r` plans the deployment of a pipeline, or is the error that says what it lacks.
pub open spec fn deploys(
    r: Result<HttpCall, PulseError>,
    base: &str,
    token: Option<String>,
    built: Result<Value, PulseError>,
) -> bool {
    match built {
        Ok(definition) => planned(
            r,
            base,
            token,
            Method::Post,
            "/api/pulse/pipelines"@,
            Some(json_of(definition)),
        ),
        Err(e) => r matches Err(reported) && reported@ == e@,
    }
}

/// Compiling through a client is building, and deploying sends what building gives.
pub proof fn law_deploying(
    client: PulseClient,
    base: &str,
    token: Option<String>,
    resource: StreamsResource<'_>,
    b: StreamBuilder,
    ops: &[serde_json::Map<String, Value>],
    name: &str,
    built: Result<Value, PulseError>,
    renamed: Result<Value, PulseError>,
    compiled: Result<Value, PulseError>,
    compiled_renamed: Result<Value, PulseError>,
    deployed: Result<HttpCall, PulseError>,
    deployed_renamed: Result<HttpCall, PulseError>,
)
    requires
        talks_to(client, base, token),
        call_ensures(PulseClient::streams, (&client,), resource),
        records(b, ops),
        call_ensures(StreamBuilder::build, (&b,), built),
        call_ensures(StreamBuilder::build_with_name, (&b, name), renamed),
        call_ensures(StreamsResource::compile, (&resource, &b), compiled),
        call_ensures(StreamsResource::compile_with_name, (&resource, &b, name), compiled_renamed),
        call_ensures(StreamsResource::deploy, (&resource, &b), deployed),
        call_ensures(StreamsResource::deploy_with_name, (&resource, &b, name), deployed_renamed),
    ensures
        compiles(compiled, b@, b@.name, ops@),
        compiles(compiled_renamed, b@, Some(name@), ops@),
        deploys(deployed, base, token, built),
        deploys(deployed_renamed, base, token, renamed),
{
    lemma_compiles(compiled, b, None, ops);
    lemma_compiles(compiled_renamed, b, Some(name@), ops);
}

// ----- accepted values -------------------------------------------------------------------------

/// The modes that are accepted are these, and none need be given.
pub proof fn law_modes(text: Option<String>, ordering: bool, failure: bool, refresh: bool)
    requires
        call_ensures(check_ordering, (&text,), ordering),
        call_ensures(check_failure, (&text,), failure),
        call_ensures(check_refresh_mode, (&text,), refresh),
    ensures
        ordering <==> (text matches Some(t) ==> t@ == "PRESERVE_INPUT"@ || t@ == "UNORDERED"@),
        failure <==> (text matches Some(t) ==> t@ == "EMIT_ERROR"@ || t@ == "DROP"@ || t@
            == "PASS_THROUGH"@),
        refresh <==> (text matches Some(t) ==> t@ == "cdc"@ || t@ == "periodic"@ || t@
            == "explicit"@),
{
}

/// Branches are accepted where none lacks a condition or a topic, and fields where none is blank.
pub proof fn law_required_texts(
    branches: Vec<BranchSpec>,
    fields: Vec<String>,
    condition: &str,
    topic: &str,
    accepted: bool,
    named: bool,
    branch: BranchSpec,
)
    requires
        call_ensures(check_branches, (&branches,), accepted),
        call_ensures(check_fields, (&fields,), named),
        call_ensures(BranchSpec::new, (condition, topic), branch),
    ensures
        accepted <==> forall|i: int|
            0 <= i < branches@.len() ==> !all_space((#[trigger] branches@[i]).condition@)
                && !all_space(branches@[i].topic@),
        named <==> forall|i: int|
            0 <= i < fields@.len() ==> !all_space((#[trigger] fields@[i])@),
        branch.condition@ == condition@,
        branch.topic@ == topic@,
{
    assert forall|i: int| 0 <= i < branches@.len() implies crate::text::blank(
        (#[trigger] branches@[i]).condition@,
    ) == all_space(branches@[i].condition@) && crate::text::blank(branches@[i].topic@) == all_space(
        branches@[i].topic@,
    ) by {
        lemma_blank(branches@[i].condition@);
        lemma_blank(branches@[i].topic@);
    }
    assert forall|i: int| 0 <= i < fields@.len() implies crate::text::blank((#[trigger] fields@[i])@)
        == all_space(fields@[i]@) by {
        lemma_blank(fields@[i]@);
    }
}

/// An operator takes every text that is not blank, and every mode that is accepted.
pub proof fn law_accepted_arguments(
    b: StreamBuilder,
    text: &str,
    other: &str,
    spec: WindowSpec,
    window: WindowOptions,
    map: MapOptions,
    branches: Vec<BranchSpec>,
    enrich: EnrichAsyncOptions,
    sequence: Vec<Value>,
    cep: CepOptions,
    llm: MapLlmOptions,
    extract: ExtractOptions,
    mcp: McpCallOptions,
    ml: MlPredictOptions,
    broadcast: BroadcastJoinOptions,
    cdc: CdcJoinOptions,
)
    requires
        !all_space(text@),
        !all_space(other@),
        map.fields is Some || map.target_type is Some,
        branches@.len() > 0,
        call_ensures(check_branches, (&branches,), true),
        !all_space(enrich.url@),
        call_ensures(check_ordering, (&enrich.ordering,), true),
        call_ensures(check_failure, (&enrich.on_failure,), true),
        sequence@.len() > 0,
        !all_space(llm.output_field@),
        call_ensures(check_ordering, (&llm.ordering,), true),
        call_ensures(check_failure, (&llm.on_failure,), true),
        !all_space(extract.instruction@),
        extract.schema@.dom() != Set::<Seq<char>>::empty(),
        call_ensures(check_failure, (&extract.on_failure,), true),
        call_ensures(check_ordering, (&mcp.ordering,), true),
        call_ensures(check_failure, (&mcp.on_failure,), true),
        !all_space(ml.model@),
        ml.input_fields@.len() > 0,
        call_ensures(check_fields, (&ml.input_fields,), true),
        !all_space(ml.output_field@),
        call_ensures(check_ordering, (&ml.ordering,), true),
        call_ensures(check_failure, (&ml.on_failure,), true),
        !all_space(broadcast.join_key_field@),
        call_ensures(check_refresh_mode, (&broadcast.refresh_mode,), true),
        !all_space(cdc.source@),
    ensures
        call_requires(StreamBuilder::new, (text,)),
        call_requires(StreamBuilder::named, (b, text)),
        call_requires(StreamBuilder::with_agent_label, (b, text)),
        call_requires(StreamBuilder::from_topic, (b, text)),
        call_requires(StreamBuilder::from_topic_with_engine, (b, text, other)),
        call_requires(StreamBuilder::to_topic, (b, text)),
        call_requires(StreamBuilder::to_topic_with_channel, (b, text, other)),
        call_requires(StreamBuilder::filter, (b, text)),
        call_requires(StreamBuilder::flat_map, (b, text)),
        call_requires(StreamBuilder::key_by, (b, text)),
        call_requires(StreamBuilder::window_full, (b, spec, window)),
        call_requires(StreamBuilder::window_from_str, (b, text, window)),
        call_requires(StreamBuilder::map, (b, map)),
        call_requires(StreamBuilder::branch, (b, branches)),
        call_requires(StreamBuilder::enrich, (b, text, other)),
        call_requires(StreamBuilder::enrich_async, (b, enrich)),
        call_requires(StreamBuilder::cep, (b, sequence, cep)),
        call_requires(StreamBuilder::map_llm, (b, text, llm)),
        call_requires(StreamBuilder::extract, (b, extract)),
        call_requires(StreamBuilder::mcp_call, (b, text, mcp)),
        call_requires(StreamBuilder::ml_predict, (b, ml)),
        call_requires(StreamBuilder::broadcast_join, (b, broadcast)),
        call_requires(StreamBuilder::cdc_join, (b, cdc)),
        call_requires(StreamBuilder::build_with_name, (&b, text)),
{
    lemma_blank(text@);
    lemma_blank(other@);
    lemma_blank(enrich.url@);
    lemma_blank(llm.output_field@);
    lemma_blank(extract.instruction@);
    lemma_blank(ml.model@);
    lemma_blank(ml.output_field@);
    lemma_blank(broadcast.join_key_field@);
    lemma_blank(cdc.source@);
}

// ----- windows and aggregations ----------------------------------------------------------------

/// A window is written as its function, with its arguments in the order in which they were given.
pub proof fn law_windows(
    size: &str,
    slide: &str,
    n: u64,
    m: u64,
    spec: WindowSpec,
    text: &str,
    copy: String,
    clone: WindowSpec,
)
    requires
        call_ensures(WindowSpec::spec, (&spec,), text),
        call_ensures(WindowSpec::text, (&spec,), copy),
        call_ensures(<WindowSpec as Clone>::clone, (&spec,), clone),
    ensures
        copy@ == text@,
        clone@ == spec@,
        !all_space(text@),
        call_ensures(WindowSpec::new, (size,), spec) ==> text@ == size@,
        call_ensures(windows::tumbling, (size,), spec) ==> text@ == "tumbling("@ + size@ + ")"@,
        call_ensures(windows::sliding, (size, slide), spec) ==> text@ == "sliding("@ + size@ + ","@
            + slide@ + ")"@,
        call_ensures(windows::session, (size,), spec) ==> text@ == "session("@ + size@ + ")"@,
        call_ensures(windows::global, (), spec) ==> text@ == "global"@,
        call_ensures(windows::count, (n,), spec) ==> exists|d: Seq<char>| #[trigger]
            numeral(d, n as nat) && text@ == "count("@ + d + ")"@,
        call_ensures(windows::count_sliding, (n, m), spec) ==> exists|d: Seq<char>, e: Seq<char>|
            #[trigger] numeral(d, n as nat) && #[trigger] numeral(e, m as nat) && text@
                == "count_sliding("@ + d + ","@ + e + ")"@,
{
    lemma_blank(text@);
    lemma_numeral(n as nat);
    lemma_numeral(m as nat);
    assert(numeral(decimal(n as nat), n as nat) && numeral(decimal(m as nat), m as nat));
}

/// An aggregation is written as its function applied to its field.
pub proof fn law_aggregations(field: &str, r: String)
    ensures
        call_ensures(aggs::count, (), r) ==> r@ == "count()"@,
        call_ensures(aggs::sum, (field,), r) ==> r@ == "sum("@ + field@ + ")"@,
        call_ensures(aggs::avg, (field,), r) ==> r@ == "avg("@ + field@ + ")"@,
        call_ensures(aggs::min, (field,), r) ==> r@ == "min("@ + field@ + ")"@,
        call_ensures(aggs::max, (field,), r) ==> r@ == "max("@ + field@ + ")"@,
        call_ensures(aggs::collect_list, (field,), r) ==> r@ == "collect_list("@ + field@ + ")"@,
        call_ensures(aggs::distinct_count, (field,), r) ==> r@ == "distinct_count("@ + field@ + ")"@,
{
    assert("sum("@ =~= "sum"@ + "("@) by {
        reveal_strlit("sum(");
        reveal_strlit("sum");
        reveal_strlit("(");
    }
    assert("avg("@ =~= "avg"@ + "("@) by {
        reveal_strlit("avg(");
        reveal_strlit("avg");
        reveal_strlit("(");
    }
    assert("min("@ =~= "min"@ + "("@) by {
        reveal_strlit("min(");
        reveal_strlit("min");
        reveal_strlit("(");
    }
    assert("max("@ =~= "max"@ + "("@) by {
        reveal_strlit("max(");
        reveal_strlit("max");
        reveal_strlit("(");
    }
    assert("collect_list("@ =~= "collect_list"@ + "("@) by {
        reveal_strlit("collect_list(");
        reveal_strlit("collect_list");
        reveal_strlit("(");
    }
    assert("distinct_count("@ =~= "distinct_count"@ + "("@) by {
        reveal_strlit("distinct_count(");
        reveal_strlit("distinct_count");
        reveal_strlit("(");
    }
}

/// Windows and aggregations are made of any text that is not blank, and of any count but 0; and a
/// pipeline is compiled and deployed under any name that is not blank.
pub proof fn law_accepted_texts(
    text: &str,
    other: &str,
    n: u64,
    m: u64,
    resource: StreamsResource<'_>,
    b: StreamBuilder,
)
    requires
        !all_space(text@),
        !all_space(other@),
        n > 0,
        m > 0,
    ensures
        call_requires(WindowSpec::new, (text,)),
        call_requires(windows::tumbling, (text,)),
        call_requires(windows::sliding, (text, other)),
        call_requires(windows::session, (text,)),
        call_requires(windows::count, (n,)),
        call_requires(windows::count_sliding, (n, m)),
        call_requires(aggs::sum, (text,)),
        call_requires(aggs::avg, (text,)),
        call_requires(aggs::min, (text,)),
        call_requires(aggs::max, (text,)),
        call_requires(aggs::collect_list, (text,)),
        call_requires(aggs::distinct_count, (text,)),
        call_requires(StreamsResource::compile_with_name, (&resource, &b, text)),
        call_requires(StreamsResource::deploy_with_name, (&resource, &b, text)),
{
    lemma_blank(text@);
    lemma_blank(other@);
}

} // verus!
