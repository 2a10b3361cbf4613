//! Interactive queries: the live state of streaming agents, read like a database.
use crate::client::{call_model, plan_model, ClientModel, HttpCall, PulseClient};
use crate::encode::{encode_segment, encoded};
use crate::error::PulseError;
use crate::json::{
    array_value, json_of, jsons_of, member_of, members_of, object_value, opt_count, opt_json,
    opt_seq, opt_str, put, put_count, put_text, put_value, set_text, single, single_value, strs,
    texts_value, Json, Members,
};
use crate::retry::Method;
use crate::text::{decimal, decimal_text};
use serde_json::Value;
use vstd::prelude::*;

verus! {

// ----- options ---------------------------------------------------------------------------------

/// The key range and the page size of a scan. By default there is no range and a page of 100.
#[derive(Debug)]
pub struct IQScanOptions {
    /// The first key; the beginning where there is none.
    pub start: Option<String>,
    /// The key to stop before; the end where there is none.
    pub end: Option<String>,
    /// The page size; 100 where there is none.
    pub limit: Option<u32>,
}

impl Clone for IQScanOptions {
    fn clone(&self) -> (r: Self)
        ensures
            r == *self,
    {
        IQScanOptions {
            start: self.start.clone(),
            end: self.end.clone(),
            limit: self.limit,
        }
    }
}

impl Default for IQScanOptions {
    fn default() -> (r: Self)
        ensures
            r == (IQScanOptions { start: None, end: None, limit: None }),
    {
        IQScanOptions { start: None, end: None, limit: None }
    }
}

impl IQScanOptions {
    /// No range, and a page of 100.
    pub fn new() -> (r: Self)
        ensures
            r == (IQScanOptions { start: None, end: None, limit: None }),
    {
        IQScanOptions::default()
    }

    /// Sets the first key.
    pub fn start(self, start: &str) -> (r: Self)
        ensures
            r.start matches Some(s) && s@ == start@,
            r == (IQScanOptions { start: r.start, ..self }),
    {
        let mut options = self;
        options.start = Some(start.to_owned());
        options
    }

    /// Sets the key to stop before.
    pub fn end(self, end: &str) -> (r: Self)
        ensures
            r.end matches Some(s) && s@ == end@,
            r == (IQScanOptions { end: r.end, ..self }),
    {
        let mut options = self;
        options.end = Some(end.to_owned());
        options
    }

    /// Sets the page size.
    pub fn limit(self, limit: u32) -> (r: Self)
        ensures
            r == (IQScanOptions { limit: Some(limit), ..self }),
    {
        let mut options = self;
        options.limit = Some(limit);
        options
    }
}

/// What a query asks for.
#[derive(Debug)]
pub struct IQQueryOptions {
    pub start: Option<String>,
    pub end: Option<String>,
    pub limit: Option<u32>,
    /// A filter tree; see [`iq_leaf`], [`iq_and`], [`iq_or`] and [`iq_not`].
    pub filter: Option<Value>,
    pub projection: Option<Vec<String>>,
    /// The field to group on.
    pub group_by: Option<String>,
}

impl Clone for IQQueryOptions {
    fn clone(&self) -> (r: Self)
        ensures
            r.start == self.start,
            r.end == self.end,
            r.limit == self.limit,
            opt_json(r.filter) == opt_json(self.filter),
            opt_seq(r.projection) == opt_seq(self.projection),
            r.group_by == self.group_by,
    {
        let projection = match &self.projection {
            Some(items) => {
                let copy = items.clone();
                assert(copy@ =~= items@);
                Some(copy)
            },
            None => None,
        };
        IQQueryOptions {
            start: self.start.clone(),
            end: self.end.clone(),
            limit: self.limit,
            filter: self.filter.clone(),
            projection,
            group_by: self.group_by.clone(),
        }
    }
}

/// The options that ask for nothing in particular.
pub open spec fn no_options() -> IQQueryOptions {
    IQQueryOptions {
        start: None,
        end: None,
        limit: None,
        filter: None,
        projection: None,
        group_by: None,
    }
}

impl Default for IQQueryOptions {
    fn default() -> (r: Self)
        ensures
            r == no_options(),
    {
        IQQueryOptions {
            start: None,
            end: None,
            limit: None,
            filter: None,
            projection: None,
            group_by: None,
        }
    }
}

impl IQQueryOptions {
    /// The options that ask for nothing in particular.
    pub fn new() -> (r: Self)
        ensures
            r == no_options(),
    {
        IQQueryOptions::default()
    }

    /// Sets the first key.
    pub fn start(self, s: &str) -> (r: Self)
        ensures
            r.start matches Some(t) && t@ == s@,
            r == (IQQueryOptions { start: r.start, ..self }),
    {
        let mut options = self;
        options.start = Some(s.to_owned());
        options
    }

    /// Sets the key to stop before.
    pub fn end(self, s: &str) -> (r: Self)
        ensures
            r.end matches Some(t) && t@ == s@,
            r == (IQQueryOptions { end: r.end, ..self }),
    {
        let mut options = self;
        options.end = Some(s.to_owned());
        options
    }

    /// Sets the page size.
    pub fn limit(self, n: u32) -> (r: Self)
        ensures
            r == (IQQueryOptions { limit: Some(n), ..self }),
    {
        let mut options = self;
        options.limit = Some(n);
        options
    }

    /// Sets the filter.
    pub fn filter(self, f: Value) -> (r: Self)
        ensures
            r == (IQQueryOptions { filter: Some(f), ..self }),
    {
        let mut options = self;
        options.filter = Some(f);
        options
    }

    /// Sets the fields to keep.
    pub fn projection(self, fields: Vec<String>) -> (r: Self)
        ensures
            r == (IQQueryOptions { projection: Some(fields), ..self }),
    {
        let mut options = self;
        options.projection = Some(fields);
        options
    }

    /// Sets the field to group on.
    pub fn group_by(self, field: &str) -> (r: Self)
        ensures
            r.group_by matches Some(t) && t@ == field@,
            r == (IQQueryOptions { group_by: r.group_by, ..self }),
    {
        let mut options = self;
        options.group_by = Some(field.to_owned());
        options
    }
}

// ----- filters ---------------------------------------------------------------------------------

/// The members of a leaf of a filter; an empty operator is left out.
pub open spec fn leaf_members(field: Seq<char>, op: Seq<char>, value: Json) -> Members {
    let named = Members::empty().insert("field"@, Json::Str(field));
    let operated = if op.len() > 0 {
        named.insert("op"@, Json::Str(op))
    } else {
        named
    };
    operated.insert("value"@, value)
}

/// The leaf `{"field": .., "op": .., "value": ..}` of a filter. An empty `op` is left out.
pub fn iq_leaf(field: &str, op: &str, value: Value) -> (r: Value)
    ensures
        json_of(r) == Json::Object(leaf_members(field@, op@, json_of(value))),
{
    let mut m = serde_json::Map::new();
    set_text(&mut m, "field", field);
    if !op.is_empty() {
        set_text(&mut m, "op", op);
    }
    m.insert("value".to_owned(), value);
    object_value(m)
}

/// The filter that all of `children` must pass.
pub fn iq_and(children: Vec<Value>) -> (r: Value)
    ensures
        json_of(r) == single("and"@, Json::Array(jsons_of(children@))),
{
    single_value("and", array_value(children))
}

/// The filter that any of `children` must pass.
pub fn iq_or(children: Vec<Value>) -> (r: Value)
    ensures
        json_of(r) == single("or"@, Json::Array(jsons_of(children@))),
{
    single_value("or", array_value(children))
}

/// The filter that passes what `child` does not.
pub fn iq_not(child: Value) -> (r: Value)
    ensures
        json_of(r) == single("not"@, json_of(child)),
{
    single_value("not", child)
}

// ----- the wire --------------------------------------------------------------------------------

/// One more query parameter, where there is a value for it.
pub open spec fn parameter(prefix: Seq<char>, value: Option<String>) -> Seq<char> {
    match value {
        Some(v) => prefix + encoded(v@),
        None => Seq::empty(),
    }
}

/// The query of a scan. The limit is always sent; bounds only where there are any.
pub open spec fn scan_query_text(opts: IQScanOptions) -> Seq<char> {
    let limit: u32 = match opts.limit {
        Some(n) => n,
        None => 100,
    };
    "?limit="@ + decimal(limit as nat) + parameter("&start="@, opts.start) + parameter(
        "&end="@,
        opts.end,
    )
}

/// The query `?limit=N&start=..&end=..` of a scan.
pub fn scan_query(opts: &IQScanOptions) -> (r: String)
    ensures
        r@ == scan_query_text(*opts),
{
    let limit: u32 = match opts.limit {
        Some(n) => n,
        None => 100,
    };
    let mut q = "?limit=".to_owned().concat(decimal_text(limit as u64).as_str());
    let ghost head = q@;
    match &opts.start {
        Some(start) => {
            q.append("&start=");
            q.append(encode_segment(start.as_str()).as_str());
            assert(q@ =~= head + parameter("&start="@, opts.start));
        },
        None => {
            assert(q@ =~= head + parameter("&start="@, opts.start));
        },
    }
    let ghost ranged = q@;
    match &opts.end {
        Some(end) => {
            q.append("&end=");
            q.append(encode_segment(end.as_str()).as_str());
            assert(q@ =~= ranged + parameter("&end="@, opts.end));
        },
        None => {
            assert(q@ =~= ranged + parameter("&end="@, opts.end));
        },
    }
    q
}

/// A list of fields that may be absent, as a document.
pub open spec fn opt_fields(fields: Option<Vec<String>>) -> Option<Json> {
    match fields {
        Some(f) => Some(Json::Array(strs(f@))),
        None => None,
    }
}

/// The members of the body of a query: what was set, and nothing else.
pub open spec fn query_members(opts: IQQueryOptions) -> Members {
    let m = put(Members::empty(), "start"@, opt_str(opts.start));
    let m = put(m, "end"@, opt_str(opts.end));
    let m = put(m, "limit"@, opt_count(opts.limit));
    let m = put(m, "filter"@, opt_json(opts.filter));
    let m = put(m, "projection"@, opt_fields(opts.projection));
    put(m, "groupBy"@, opt_str(opts.group_by))
}

fn query_map(opts: IQQueryOptions) -> (m: serde_json::Map<String, Value>)
    ensures
        members_of(m) == query_members(opts),
{
    let mut m = serde_json::Map::new();
    put_text(&mut m, "start", opts.start);
    put_text(&mut m, "end", opts.end);
    put_count(&mut m, "limit", opts.limit);
    put_value(&mut m, "filter", opts.filter);
    if let Some(fields) = opts.projection {
        m.insert("projection".to_owned(), texts_value(fields));
    }
    put_text(&mut m, "groupBy", opts.group_by);
    m
}

/// The body of a query. Holds what was set, and nothing else.
pub fn build_query_body(opts: IQQueryOptions) -> (r: Value)
    ensures
        json_of(r) == Json::Object(query_members(opts)),
{
    object_value(query_map(opts))
}

// ----- the resource ----------------------------------------------------------------------------

/// Interactive queries.
pub struct IQResource<'c> {
    client: &'c PulseClient,
}

impl View for IQResource<'_> {
    type V = ClientModel;

    closed spec fn view(&self) -> ClientModel {
        self.client@
    }
}

/// The path of the state of an agent, up to `suffix`.
pub open spec fn state_path(agent_id: Seq<char>, suffix: Seq<char>) -> Seq<char> {
    "/api/pulse/iq/agents/"@ + encoded(agent_id) + "/state"@ + suffix
}

/// The path of the state of an agent, up to `suffix`.
pub(crate) fn state_path_of(agent_id: &str, suffix: &str) -> (r: String)
    ensures
        r@ == state_path(agent_id@, suffix@),
{
    "/api/pulse/iq/agents/".to_owned().concat(encode_segment(agent_id).as_str()).concat(
        "/state",
    ).concat(suffix)
}

impl<'c> IQResource<'c> {
    pub(crate) fn new(client: &'c PulseClient) -> (r: Self)
        ensures
            r@ == client@,
    {
        IQResource { client }
    }

    /// `GET /api/pulse/iq/agents/{id}/state`: a summary of the state.
    pub fn summary(&self, agent_id: &str) -> (r: Result<HttpCall, PulseError>)
        ensures
            plan_model(r) == call_model(
                self@,
                Method::Get,
                state_path(agent_id@, Seq::empty()),
                None,
                true,
            ),
    {
        let path = state_path_of(agent_id, "");
        proof {
            reveal_strlit("");
            assert(""@ =~= Seq::<char>::empty());
        }
        self.client.request_once(Method::Get, path.as_str(), None, true)
    }

    /// `GET /api/pulse/iq/agents/{id}/state/value/{key}`: the value of one key.
    pub fn get(&self, agent_id: &str, key: &str) -> (r: Result<HttpCall, PulseError>)
        ensures
            plan_model(r) == call_model(
                self@,
                Method::Get,
                state_path(agent_id@, "/value/"@ + encoded(key@)),
                None,
                true,
            ),
    {
        let suffix = "/value/".to_owned().concat(encode_segment(key).as_str());
        let path = state_path_of(agent_id, suffix.as_str());
        self.client.request_once(Method::Get, path.as_str(), None, true)
    }

    /// `GET /api/pulse/iq/agents/{id}/state/value/{key}?as_of=..`: the value that one key had at an
    /// instant (`now`, `-1h`, ISO-8601 or epoch milliseconds).
    pub fn get_as_of(
        &self,
        agent_id: &str,
        key: &str,
        as_of: &str,
    ) -> (r: Result<HttpCall, PulseError>)
        ensures
            plan_model(r) == call_model(
                self@,
                Method::Get,
                state_path(agent_id@, "/value/"@ + encoded(key@) + "?as_of="@ + encoded(as_of@)),
                None,
                true,
            ),
    {
        let suffix = "/value/".to_owned().concat(encode_segment(key).as_str()).concat(
            "?as_of=",
        ).concat(encode_segment(as_of).as_str());
        let path = state_path_of(agent_id, suffix.as_str());
        self.client.request_once(Method::Get, path.as_str(), None, true)
    }

    /// `GET /api/pulse/iq/agents/{id}/state/diff/{key}?from=..&to=..`: how one key changed between
    /// two instants.
    pub fn diff(
        &self,
        agent_id: &str,
        key: &str,
        from: &str,
        to: &str,
    ) -> (r: Result<HttpCall, PulseError>)
        ensures
            plan_model(r) == call_model(
                self@,
                Method::Get,
                state_path(
                    agent_id@,
                    "/diff/"@ + encoded(key@) + "?from="@ + encoded(from@) + "&to="@ + encoded(to@),
                ),
                None,
                true,
            ),
    {
        let suffix = "/diff/".to_owned().concat(encode_segment(key).as_str()).concat(
            "?from=",
        ).concat(encode_segment(from).as_str()).concat("&to=").concat(encode_segment(to).as_str());
        let path = state_path_of(agent_id, suffix.as_str());
        self.client.request_once(Method::Get, path.as_str(), None, true)
    }

    /// `GET /api/pulse/iq/agents/{id}/state/scan`: the entries of a key range, one page.
    pub fn scan(&self, agent_id: &str, opts: IQScanOptions) -> (r: Result<HttpCall, PulseError>)
        ensures
            plan_model(r) == call_model(
                self@,
                Method::Get,
                state_path(agent_id@, "/scan"@ + scan_query_text(opts)),
                None,
                true,
            ),
    {
        let suffix = "/scan".to_owned().concat(scan_query(&opts).as_str());
        let path = state_path_of(agent_id, suffix.as_str());
        self.client.request_once(Method::Get, path.as_str(), None, true)
    }

    /// `GET /api/pulse/iq/agents/{id}/state/keys`: the keys of a key range, one page.
    pub fn list_keys(
        &self,
        agent_id: &str,
        opts: IQScanOptions,
    ) -> (r: Result<HttpCall, PulseError>)
        ensures
            plan_model(r) == call_model(
                self@,
                Method::Get,
                state_path(agent_id@, "/keys"@ + scan_query_text(opts)),
                None,
                true,
            ),
    {
        let suffix = "/keys".to_owned().concat(scan_query(&opts).as_str());
        let path = state_path_of(agent_id, suffix.as_str());
        self.client.request_once(Method::Get, path.as_str(), None, true)
    }

    /// `POST /api/pulse/iq/agents/{id}/state/query`: a query with a filter, a projection or groups.
    /// Where nothing is asked for, no body is sent, and the server scans everything.
    pub fn query(&self, agent_id: &str, opts: IQQueryOptions) -> (r: Result<HttpCall, PulseError>)
        ensures
            plan_model(r) == call_model(
                self@,
                Method::Post,
                state_path(agent_id@, "/query"@),
                if query_members(opts) == Members::empty() {
                    None
                } else {
                    Some(Json::Object(query_members(opts)))
                },
                true,
            ),
    {
        let path = state_path_of(agent_id, "/query");
        let members = query_map(opts);
        let body = if members.is_empty() {
            None
        } else {
            Some(object_value(members))
        };
        self.client.request_once(Method::Post, path.as_str(), body, true)
    }
}

// ----- laws ------------------------------------------------------------------------------------

/// A query has a body exactly where something was asked for.
pub proof fn law_empty_query_has_no_body(opts: IQQueryOptions)
    ensures
        query_members(opts) == Members::empty() <==> opts == no_options(),
{
    lemma_names_differ();
    let m = query_members(opts);
    assert(m.contains_key("start"@) == (opts.start is Some));
    assert(m.contains_key("end"@) == (opts.end is Some));
    assert(m.contains_key("limit"@) == (opts.limit is Some));
    assert(m.contains_key("filter"@) == (opts.filter is Some));
    assert(m.contains_key("projection"@) == (opts.projection is Some));
    assert(m.contains_key("groupBy"@) == (opts.group_by is Some));
}

/// The body of a query carries each option under its name, and those only.
pub proof fn law_query_body_is_faithful(opts: IQQueryOptions)
    ensures
        ({
            let body = Json::Object(query_members(opts));
            &&& member_of(body, "start"@) == opt_str(opts.start)
            &&& member_of(body, "end"@) == opt_str(opts.end)
            &&& member_of(body, "limit"@) == opt_count(opts.limit)
            &&& member_of(body, "filter"@) == opt_json(opts.filter)
            &&& member_of(body, "projection"@) == opt_fields(opts.projection)
            &&& member_of(body, "groupBy"@) == opt_str(opts.group_by)
        }),
{
    lemma_names_differ();
}

/// Whether a node of a filter carries the discriminator `key` and none of the other three.
pub open spec fn discriminated_by(filter: Json, key: Seq<char>) -> bool {
    &&& key == "field"@ || key == "and"@ || key == "or"@ || key == "not"@
    &&& member_of(filter, "field"@) is Some <==> key == "field"@
    &&& member_of(filter, "and"@) is Some <==> key == "and"@
    &&& member_of(filter, "or"@) is Some <==> key == "or"@
    &&& member_of(filter, "not"@) is Some <==> key == "not"@
}

/// Every node that the filter functions build carries exactly one of `field`, `and`, `or`, `not`.
pub proof fn law_filter_nodes_have_one_discriminator(
    field: Seq<char>,
    op: Seq<char>,
    value: Json,
    children: Seq<Json>,
    child: Json,
)
    ensures
        discriminated_by(Json::Object(leaf_members(field, op, value)), "field"@),
        discriminated_by(single("and"@, Json::Array(children)), "and"@),
        discriminated_by(single("or"@, Json::Array(children)), "or"@),
        discriminated_by(single("not"@, child), "not"@),
{
    reveal_strlit("field");
    reveal_strlit("and");
    reveal_strlit("or");
    reveal_strlit("not");
    reveal_strlit("op");
    reveal_strlit("value");
    assert("field"@.len() == 5 && "and"@.len() == 3 && "or"@.len() == 2 && "not"@.len() == 3
        && "op"@.len() == 2 && "value"@.len() == 5);
    assert("and"@[0] != "not"@[0]);
    assert("or"@[1] != "op"@[1]);
    assert("field"@[0] != "value"@[0]);
}

proof fn lemma_names_differ()
    ensures
        "start"@ != "end"@,
        "start"@ != "limit"@,
        "start"@ != "filter"@,
        "start"@ != "projection"@,
        "start"@ != "groupBy"@,
        "end"@ != "limit"@,
        "end"@ != "filter"@,
        "end"@ != "projection"@,
        "end"@ != "groupBy"@,
        "limit"@ != "filter"@,
        "limit"@ != "projection"@,
        "limit"@ != "groupBy"@,
        "filter"@ != "projection"@,
        "filter"@ != "groupBy"@,
        "projection"@ != "groupBy"@,
{
    reveal_strlit("start");
    reveal_strlit("end");
    reveal_strlit("limit");
    reveal_strlit("filter");
    reveal_strlit("projection");
    reveal_strlit("groupBy");
    assert("start"@[0] != "limit"@[0]);
    assert("start"@.len() == 5 && "end"@.len() == 3 && "limit"@.len() == 5 && "filter"@.len() == 6
        && "projection"@.len() == 10 && "groupBy"@.len() == 7);
}

} // verus!
