//! Laws of options: a copy is what was copied, and by default nothing is set.
use crate::fields::{value_members, FieldMap};
use crate::iq::{IQQueryOptions, IQScanOptions};
use crate::json::json_of;
use crate::laws::{text_doc, value_doc};
use crate::options::{
    BranchSpec, BroadcastJoinOptions, CdcJoinOptions, CepOptions, EnrichAsyncOptions,
    ExtractOptions, MapLlmOptions, MapOptions, McpCallOptions, MlPredictOptions, WindowOptions,
};
use crate::resources::ModelUpload;
use serde_json::Value;
use vstd::prelude::*;

verus! {

// ----- fields ----------------------------------------------------------------------------------

/// What a field map that may be absent holds.
pub open spec fn held<V>(fields: Option<FieldMap<V>>) -> Option<Map<Seq<char>, V>> {
    match fields {
        Some(f) => Some(f@),
        None => None,
    }
}

/// The items of a vector that may be absent.
pub open spec fn listed<T>(items: Option<Vec<T>>) -> Option<Seq<T>> {
    match items {
        Some(v) => Some(v@),
        None => None,
    }
}

/// Whether two maps hold the same documents under the same fields.
pub open spec fn same_documents(a: Map<Seq<char>, Value>, b: Map<Seq<char>, Value>) -> bool {
    a.dom() == b.dom() && forall|k: Seq<char>| #[trigger]
        a.contains_key(k) ==> json_of(a[k]) == json_of(b[k])
}

/// A map begins without fields. What is inserted is found under its key, in place of what was
/// there, and nothing else changes.
pub proof fn law_field_maps<V>(
    new: FieldMap<V>,
    default: FieldMap<V>,
    fields: &mut FieldMap<V>,
    key: String,
    value: V,
    other: Seq<char>,
    empty: bool,
)
    requires
        call_ensures(FieldMap::<V>::new, (), new),
        call_ensures(<FieldMap<V> as Default>::default, (), default),
        call_ensures(FieldMap::<V>::is_empty, (&*old(fields),), empty),
        call_ensures(FieldMap::<V>::insert, (fields, key, value), ()),
    ensures
        !new@.contains_key(other),
        !default@.contains_key(other),
        empty ==> !old(fields)@.contains_key(other),
        empty <==> old(fields)@.dom() =~= Set::empty(),
        final(fields)@.contains_key(key@),
        final(fields)@[key@] == value,
        other != key@ ==> final(fields)@.contains_key(other) == old(fields)@.contains_key(other),
        other != key@ && old(fields)@.contains_key(other) ==> final(fields)@[other] == old(
            fields,
        )@[other],
{
    if old(fields)@.dom() =~= Set::empty() {
        assert(old(fields)@ =~= Map::empty());
    }
}

/// A copy of a map has its fields, with copies of their values.
pub proof fn law_field_map_copies(
    texts: FieldMap<String>,
    text_copy: FieldMap<String>,
    documents: FieldMap<Value>,
    document_copy: FieldMap<Value>,
)
    requires
        call_ensures(<FieldMap<String> as Clone>::clone, (&texts,), text_copy),
        call_ensures(<FieldMap<Value> as Clone>::clone, (&documents,), document_copy),
    ensures
        text_copy@ == texts@,
        same_documents(document_copy@, documents@),
{
    assert(text_copy@ =~= texts@);
}

// ----- options ---------------------------------------------------------------------------------

/// A copy of what is said of a map operator says the same, and by default nothing is said.
pub proof fn law_map_options(options: MapOptions, copy: MapOptions, default: MapOptions)
    requires
        call_ensures(<MapOptions as Clone>::clone, (&options,), copy),
        call_ensures(<MapOptions as Default>::default, (), default),
    ensures
        held(copy.fields) == held(options.fields),
        text_doc(copy.target_type) == text_doc(options.target_type),
        default.fields is None,
        default.target_type is None,
{
}

/// A copy of what is said of a window operator says the same, and by default nothing is said.
pub proof fn law_window_options(options: WindowOptions, copy: WindowOptions, default: WindowOptions)
    requires
        call_ensures(<WindowOptions as Clone>::clone, (&options,), copy),
        call_ensures(<WindowOptions as Default>::default, (), default),
    ensures
        held(copy.aggregations) == held(options.aggregations),
        text_doc(copy.output_topic) == text_doc(options.output_topic),
        value_doc(copy.trigger) == value_doc(options.trigger),
        default.aggregations is None,
        default.output_topic is None,
        default.trigger is None,
{
}

/// A copy of a branch is that branch.
pub proof fn law_branch_spec(options: BranchSpec, copy: BranchSpec)
    requires
        call_ensures(<BranchSpec as Clone>::clone, (&options,), copy),
    ensures
        copy.condition@ == options.condition@,
        copy.topic@ == options.topic@,
{
}

/// A copy of what is said of an enrichment says the same, and by default nothing is said.
pub proof fn law_enrich_async_options(
    options: EnrichAsyncOptions,
    copy: EnrichAsyncOptions,
    default: EnrichAsyncOptions,
)
    requires
        call_ensures(<EnrichAsyncOptions as Clone>::clone, (&options,), copy),
        call_ensures(<EnrichAsyncOptions as Default>::default, (), default),
    ensures
        copy.url@ == options.url@,
        copy.parallelism == options.parallelism,
        copy.queue_size == options.queue_size,
        copy.timeout_ms == options.timeout_ms,
        copy.max_retries == options.max_retries,
        copy.retry_backoff_ms == options.retry_backoff_ms,
        text_doc(copy.ordering) == text_doc(options.ordering),
        text_doc(copy.on_failure) == text_doc(options.on_failure),
        default.url@.len() == 0,
        default.parallelism is None,
        default.queue_size is None,
        default.timeout_ms is None,
        default.max_retries is None,
        default.retry_backoff_ms is None,
        default.ordering is None,
        default.on_failure is None,
{
}

/// A copy of what is said of a pattern says the same, and by default nothing is said.
pub proof fn law_cep_options(options: CepOptions, copy: CepOptions, default: CepOptions)
    requires
        call_ensures(<CepOptions as Clone>::clone, (&options,), copy),
        call_ensures(<CepOptions as Default>::default, (), default),
    ensures
        text_doc(copy.within) == text_doc(options.within),
        text_doc(copy.name) == text_doc(options.name),
        default.within is None,
        default.name is None,
{
}

/// A copy of what is said of a broadcast join says the same, and by default nothing is said.
pub proof fn law_broadcast_join_options(
    options: BroadcastJoinOptions,
    copy: BroadcastJoinOptions,
    default: BroadcastJoinOptions,
)
    requires
        call_ensures(<BroadcastJoinOptions as Clone>::clone, (&options,), copy),
        call_ensures(<BroadcastJoinOptions as Default>::default, (), default),
    ensures
        copy.join_key_field@ == options.join_key_field@,
        text_doc(copy.streaming_topic) == text_doc(options.streaming_topic),
        text_doc(copy.name) == text_doc(options.name),
        copy.max_bytes == options.max_bytes,
        text_doc(copy.refresh_mode) == text_doc(options.refresh_mode),
        copy.interval_millis == options.interval_millis,
        default.join_key_field@.len() == 0,
        default.streaming_topic is None,
        default.name is None,
        default.max_bytes is None,
        default.refresh_mode is None,
        default.interval_millis is None,
{
}

/// A copy of what is said of a join with a table says the same, and by default nothing is said.
pub proof fn law_cdc_join_options(
    options: CdcJoinOptions,
    copy: CdcJoinOptions,
    default: CdcJoinOptions,
)
    requires
        call_ensures(<CdcJoinOptions as Clone>::clone, (&options,), copy),
        call_ensures(<CdcJoinOptions as Default>::default, (), default),
    ensures
        copy.source@ == options.source@,
        text_doc(copy.join_key) == text_doc(options.join_key),
        text_doc(copy.table) == text_doc(options.table),
        text_doc(copy.state_backend) == text_doc(options.state_backend),
        default.source@.len() == 0,
        default.join_key is None,
        default.table is None,
        default.state_backend is None,
{
}

/// A copy of what is said of a model prompt says the same, and by default nothing is said.
pub proof fn law_map_llm_options(
    options: MapLlmOptions,
    copy: MapLlmOptions,
    default: MapLlmOptions,
)
    requires
        call_ensures(<MapLlmOptions as Clone>::clone, (&options,), copy),
        call_ensures(<MapLlmOptions as Default>::default, (), default),
    ensures
        copy.output_field@ == options.output_field@,
        text_doc(copy.model) == text_doc(options.model),
        value_doc(copy.temperature) == value_doc(options.temperature),
        copy.max_tokens == options.max_tokens,
        copy.parallelism == options.parallelism,
        text_doc(copy.ordering) == text_doc(options.ordering),
        text_doc(copy.on_failure) == text_doc(options.on_failure),
        copy.max_calls_per_sec == options.max_calls_per_sec,
        default.output_field@.len() == 0,
        default.model is None,
        default.temperature is None,
        default.max_tokens is None,
        default.parallelism is None,
        default.ordering is None,
        default.on_failure is None,
        default.max_calls_per_sec is None,
{
}

/// A copy of what is said of an extraction says the same, and by default nothing is said.
pub proof fn law_extract_options(
    options: ExtractOptions,
    copy: ExtractOptions,
    default: ExtractOptions,
)
    requires
        call_ensures(<ExtractOptions as Clone>::clone, (&options,), copy),
        call_ensures(<ExtractOptions as Default>::default, (), default),
    ensures
        copy.instruction@ == options.instruction@,
        copy.schema@ == options.schema@,
        text_doc(copy.model) == text_doc(options.model),
        value_doc(copy.temperature) == value_doc(options.temperature),
        copy.max_tokens == options.max_tokens,
        text_doc(copy.on_failure) == text_doc(options.on_failure),
        default.instruction@.len() == 0,
        default.schema@.dom() =~= Set::empty(),
        default.model is None,
        default.temperature is None,
        default.max_tokens is None,
        default.on_failure is None,
{
}

/// A copy of what is said of a tool call says the same, and by default nothing is said.
pub proof fn law_mcp_call_options(
    options: McpCallOptions,
    copy: McpCallOptions,
    default: McpCallOptions,
)
    requires
        call_ensures(<McpCallOptions as Clone>::clone, (&options,), copy),
        call_ensures(<McpCallOptions as Default>::default, (), default),
    ensures
        match (held(copy.args), held(options.args)) {
            (Some(a), Some(b)) => same_documents(a, b),
            (None, None) => true,
            _ => false,
        },
        text_doc(copy.output_field) == text_doc(options.output_field),
        copy.parallelism == options.parallelism,
        text_doc(copy.ordering) == text_doc(options.ordering),
        text_doc(copy.on_failure) == text_doc(options.on_failure),
        default.args is None,
        default.output_field is None,
        default.parallelism is None,
        default.ordering is None,
        default.on_failure is None,
{
    if let (Some(a), Some(b)) = (held(copy.args), held(options.args)) {
        assert(value_members(a) == value_members(b));
        assert(a.dom() =~= value_members(a).dom());
        assert(b.dom() =~= value_members(b).dom());
        assert forall|k: Seq<char>| #[trigger] a.contains_key(k) implies json_of(a[k]) == json_of(
            b[k],
        ) by {
            assert(value_members(a)[k] == json_of(a[k]));
            assert(value_members(b)[k] == json_of(b[k]));
        }
    }
}

/// A copy of what is said of a prediction says the same, and by default nothing is said.
pub proof fn law_ml_predict_options(
    options: MlPredictOptions,
    copy: MlPredictOptions,
    default: MlPredictOptions,
)
    requires
        call_ensures(<MlPredictOptions as Clone>::clone, (&options,), copy),
        call_ensures(<MlPredictOptions as Default>::default, (), default),
    ensures
        copy.model@ == options.model@,
        copy.input_fields@ == options.input_fields@,
        copy.output_field@ == options.output_field@,
        copy.parallelism == options.parallelism,
        text_doc(copy.ordering) == text_doc(options.ordering),
        text_doc(copy.on_failure) == text_doc(options.on_failure),
        default.model@.len() == 0,
        default.input_fields@.len() == 0,
        default.output_field@.len() == 0,
        default.parallelism is None,
        default.ordering is None,
        default.on_failure is None,
{
}

/// A copy of what is said of a scan says the same, and by default nothing is said.
pub proof fn law_iq_scan_options(
    options: IQScanOptions,
    copy: IQScanOptions,
    default: IQScanOptions,
)
    requires
        call_ensures(<IQScanOptions as Clone>::clone, (&options,), copy),
        call_ensures(<IQScanOptions as Default>::default, (), default),
    ensures
        text_doc(copy.start) == text_doc(options.start),
        text_doc(copy.end) == text_doc(options.end),
        copy.limit == options.limit,
        default.start is None,
        default.end is None,
        default.limit is None,
{
}

/// A copy of what is said of a query says the same, and by default nothing is said.
pub proof fn law_iq_query_options(
    options: IQQueryOptions,
    copy: IQQueryOptions,
    default: IQQueryOptions,
)
    requires
        call_ensures(<IQQueryOptions as Clone>::clone, (&options,), copy),
        call_ensures(<IQQueryOptions as Default>::default, (), default),
    ensures
        text_doc(copy.start) == text_doc(options.start),
        text_doc(copy.end) == text_doc(options.end),
        copy.limit == options.limit,
        value_doc(copy.filter) == value_doc(options.filter),
        listed(copy.projection) == listed(options.projection),
        text_doc(copy.group_by) == text_doc(options.group_by),
        default.start is None,
        default.end is None,
        default.limit is None,
        default.filter is None,
        default.projection is None,
        default.group_by is None,
{
}

/// A copy of what is said of an upload says the same, and by default nothing is said.
pub proof fn law_model_upload(options: ModelUpload, copy: ModelUpload, default: ModelUpload)
    requires
        call_ensures(<ModelUpload as Clone>::clone, (&options,), copy),
        call_ensures(<ModelUpload as Default>::default, (), default),
    ensures
        copy.name@ == options.name@,
        text_doc(copy.path) == text_doc(options.path),
        listed(copy.data) == listed(options.data),
        text_doc(copy.runtime) == text_doc(options.runtime),
        held(copy.input_schema) == held(options.input_schema),
        held(copy.output_schema) == held(options.output_schema),
        default.name@.len() == 0,
        default.path is None,
        default.data is None,
        default.runtime is None,
        default.input_schema is None,
        default.output_schema is None,
{
}

} // verus!
