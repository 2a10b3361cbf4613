//! Laws of the requests that the resources plan: their methods, paths, tokens and bodies.
use crate::client::{HttpCall, ListCall, PulseClient};
use crate::encode::encoded;
use crate::error::PulseError;
use crate::events::{EventsResource, StreamCall};
use crate::iq::{
    build_query_body, iq_and, iq_leaf, iq_not, iq_or, parameter, query_members, scan_query,
    scan_query_text, IQQueryOptions, IQResource, IQScanOptions,
};
use crate::json::{json_of, jsons_of, member_of, unwrap_list, Json, Members};
use crate::laws::text::{lemma_carries, lemma_numeral};
use crate::laws::{carries, count_doc, lists_texts, lists_values, numeral, text_doc, value_doc};
use crate::resources::{
    AgentsResource, AuthResource, ConnectorsResource, ModelsResource, PipelinesResource,
    TemplatesResource, UsersResource,
};
use crate::retry::Method;
use crate::text::decimal;
use serde_json::Value;
use vstd::prelude::*;

verus! {

// ----- what a request is -----------------------------------------------------------------------

/// Whether a client talks to `base` with `token`.
pub open spec fn talks_to(client: PulseClient, base: &str, token: Option<String>) -> bool {
    &&& call_ensures(PulseClient::base_url, (&client,), base)
    &&& call_ensures(PulseClient::token, (&client,), token)
}

/// Whether a token can be sent: there is one, and it is not empty.
pub open spec fn usable(token: Option<String>) -> bool {
    token matches Some(t) && t@.len() > 0
}

/// Whether `call` is the request to `path` with the given body, which carries the token exactly
/// where it must be authenticated.
pub open spec fn is_call(
    call: HttpCall,
    base: &str,
    token: Option<String>,
    method: Method,
    path: Seq<char>,
    body: Option<Json>,
    authenticated: bool,
) -> bool {
    &&& call.method == method
    &&& call.path@ == path
    &&& call.url@ == base@ + path
    &&& value_doc(call.body) == body
    &&& if authenticated {
        call.bearer matches Some(sent) && token matches Some(t) && sent@ == t@
    } else {
        call.bearer is None
    }
}

/// Whether `r` is the authenticated request to `path`, or the error that there is no token for it.
pub open spec fn planned(
    r: Result<HttpCall, PulseError>,
    base: &str,
    token: Option<String>,
    method: Method,
    path: Seq<char>,
    body: Option<Json>,
) -> bool {
    if usable(token) {
        r matches Ok(call) && is_call(call, base, token, method, path, body, true)
    } else {
        r matches Err(PulseError::NoToken { path: named }) && named@ == path
    }
}

/// Whether `r` is the request for the list that the answer to a GET of `path` holds as `key`.
pub open spec fn planned_list(
    r: Result<ListCall, PulseError>,
    base: &str,
    token: Option<String>,
    path: Seq<char>,
    key: Seq<char>,
) -> bool {
    if usable(token) {
        r matches Ok(list) && list.key@ == key && is_call(
            list.call,
            base,
            token,
            Method::Get,
            path,
            None,
            true,
        )
    } else {
        r matches Err(PulseError::NoToken { path: named }) && named@ == path
    }
}

/// A request goes to the URL of the client followed by the path, with the method and the body that
/// were given. An authenticated one carries the token of the client, and without one nothing is
/// sent; one that need not be authenticated never carries it.
pub proof fn law_requests(
    client: PulseClient,
    base: &str,
    token: Option<String>,
    method: Method,
    path: &str,
    body: Option<Value>,
    secured: Result<HttpCall, PulseError>,
    open: Result<HttpCall, PulseError>,
)
    requires
        talks_to(client, base, token),
        call_ensures(PulseClient::request_once, (&client, method, path, body, true), secured),
        call_ensures(PulseClient::request_once, (&client, method, path, body, false), open),
    ensures
        planned(secured, base, token, method, path@, value_doc(body)),
        open matches Ok(call) && is_call(call, base, token, method, path@, value_doc(body), false),
{
}

/// The version of the server is asked for without a token.
pub proof fn law_version(
    client: PulseClient,
    base: &str,
    token: Option<String>,
    r: Result<HttpCall, PulseError>,
)
    requires
        talks_to(client, base, token),
        call_ensures(PulseClient::version, (&client,), r),
    ensures
        r matches Ok(call) && is_call(
            call,
            base,
            token,
            Method::Get,
            "/api/pulse/version"@,
            None,
            false,
        ),
{
}

/// A list in an answer is handed out item by item, and an answer that does not hold it gives none.
pub proof fn law_lists(
    list: ListCall,
    response: Value,
    items: Vec<Value>,
    key: &str,
    unwrapped: Vec<Value>,
)
    requires
        call_ensures(ListCall::items, (&list, &response), items),
        call_ensures(unwrap_list, (&response, key), unwrapped),
    ensures
        holds_list(json_of(response), list.key@, items@),
        holds_list(json_of(response), key@, unwrapped@),
{
    lemma_items(items@);
    lemma_items(unwrapped@);
}

/// Whether `items` is the list under `key` in a document, and empty where there is none.
pub open spec fn holds_list(doc: Json, key: Seq<char>, items: Seq<Value>) -> bool {
    match member_of(doc, key) {
        Some(Json::Array(_)) => lists_values(member_of(doc, key)->0, items),
        _ => items.len() == 0,
    }
}

proof fn lemma_items(items: Seq<Value>)
    ensures
        jsons_of(items).len() == items.len(),
        forall|i: int| 0 <= i < items.len() ==> #[trigger] jsons_of(items)[i] == json_of(items[i]),
{
}

// ----- endpoints -------------------------------------------------------------------------------

/// The organisations of the user are listed.
pub proof fn law_auth_organizations(
    client: PulseClient,
    base: &str,
    token: Option<String>,
    resource: AuthResource<'_>,
    r: Result<ListCall, PulseError>,
)
    requires
        talks_to(client, base, token),
        call_ensures(PulseClient::auth, (&client,), resource),
        call_ensures(AuthResource::organizations, (&resource,), r),
    ensures
        planned_list(r, base, token, "/api/auth/organizations"@, "organizations"@),
{
}

/// The pipelines are listed.
pub proof fn law_pipelines_list(
    client: PulseClient,
    base: &str,
    token: Option<String>,
    resource: PipelinesResource<'_>,
    r: Result<ListCall, PulseError>,
)
    requires
        talks_to(client, base, token),
        call_ensures(PulseClient::pipelines, (&client,), resource),
        call_ensures(PipelinesResource::list, (&resource,), r),
    ensures
        planned_list(r, base, token, "/api/pulse/pipelines"@, "pipelines"@),
{
}

/// The agents are listed.
pub proof fn law_agents_list(
    client: PulseClient,
    base: &str,
    token: Option<String>,
    resource: AgentsResource<'_>,
    r: Result<ListCall, PulseError>,
)
    requires
        talks_to(client, base, token),
        call_ensures(PulseClient::agents, (&client,), resource),
        call_ensures(AgentsResource::list, (&resource,), r),
    ensures
        planned_list(r, base, token, "/api/pulse/agents"@, "agents"@),
{
}

/// The templates are listed.
pub proof fn law_templates_list(
    client: PulseClient,
    base: &str,
    token: Option<String>,
    resource: TemplatesResource<'_>,
    r: Result<ListCall, PulseError>,
)
    requires
        talks_to(client, base, token),
        call_ensures(PulseClient::templates, (&client,), resource),
        call_ensures(TemplatesResource::list, (&resource,), r),
    ensures
        planned_list(r, base, token, "/api/pulse/templates"@, "templates"@),
{
}

/// The users are listed.
pub proof fn law_users_list(
    client: PulseClient,
    base: &str,
    token: Option<String>,
    resource: UsersResource<'_>,
    r: Result<ListCall, PulseError>,
)
    requires
        talks_to(client, base, token),
        call_ensures(PulseClient::users, (&client,), resource),
        call_ensures(UsersResource::list, (&resource,), r),
    ensures
        planned_list(r, base, token, "/api/pulse/users"@, "users"@),
{
}

/// The models are listed.
pub proof fn law_models_list(
    client: PulseClient,
    base: &str,
    token: Option<String>,
    resource: ModelsResource<'_>,
    r: Result<ListCall, PulseError>,
)
    requires
        talks_to(client, base, token),
        call_ensures(PulseClient::models, (&client,), resource),
        call_ensures(ModelsResource::list, (&resource,), r),
    ensures
        planned_list(r, base, token, "/api/pulse/ml-models"@, "models"@),
{
}

/// The sinks of the catalogue are listed.
pub proof fn law_connectors_sinks(
    client: PulseClient,
    base: &str,
    token: Option<String>,
    resource: ConnectorsResource<'_>,
    r: Result<ListCall, PulseError>,
)
    requires
        talks_to(client, base, token),
        call_ensures(PulseClient::connectors, (&client,), resource),
        call_ensures(ConnectorsResource::sinks, (&resource,), r),
    ensures
        planned_list(r, base, token, "/api/pulse/connectors"@, "sinks"@),
{
}

/// The sources of the catalogue are listed.
pub proof fn law_connectors_sources(
    client: PulseClient,
    base: &str,
    token: Option<String>,
    resource: ConnectorsResource<'_>,
    r: Result<ListCall, PulseError>,
)
    requires
        talks_to(client, base, token),
        call_ensures(PulseClient::connectors, (&client,), resource),
        call_ensures(ConnectorsResource::sources, (&resource,), r),
    ensures
        planned_list(r, base, token, "/api/pulse/connectors"@, "sources"@),
{
}

/// The catalogue of connectors is read as a whole.
pub proof fn law_connectors_list(
    client: PulseClient,
    base: &str,
    token: Option<String>,
    resource: ConnectorsResource<'_>,
    r: Result<HttpCall, PulseError>,
)
    requires
        talks_to(client, base, token),
        call_ensures(PulseClient::connectors, (&client,), resource),
        call_ensures(ConnectorsResource::list, (&resource,), r),
    ensures
        planned(r, base, token, Method::Get, "/api/pulse/connectors"@, None),
{
}

/// One pipeline is read by its id.
pub proof fn law_pipelines_get(
    client: PulseClient,
    base: &str,
    token: Option<String>,
    resource: PipelinesResource<'_>,
    id: &str,
    r: Result<HttpCall, PulseError>,
)
    requires
        talks_to(client, base, token),
        call_ensures(PulseClient::pipelines, (&client,), resource),
        call_ensures(PipelinesResource::get, (&resource, id), r),
    ensures
        exists|segment: Seq<char>| #[trigger]
            carries(segment, id@) && planned(
                r,
                base,
                token,
                Method::Get,
                "/api/pulse/pipelines/"@ + segment,
                None,
            ),
{
    lemma_carries(id@);
}

/// One pipeline is torn down by its id.
pub proof fn law_pipelines_delete(
    client: PulseClient,
    base: &str,
    token: Option<String>,
    resource: PipelinesResource<'_>,
    id: &str,
    r: Result<HttpCall, PulseError>,
)
    requires
        talks_to(client, base, token),
        call_ensures(PulseClient::pipelines, (&client,), resource),
        call_ensures(PipelinesResource::delete, (&resource, id), r),
    ensures
        exists|segment: Seq<char>| #[trigger]
            carries(segment, id@) && planned(
                r,
                base,
                token,
                Method::Delete,
                "/api/pulse/pipelines/"@ + segment,
                None,
            ),
{
    lemma_carries(id@);
}

/// One agent is read by its id.
pub proof fn law_agents_get(
    client: PulseClient,
    base: &str,
    token: Option<String>,
    resource: AgentsResource<'_>,
    id: &str,
    r: Result<HttpCall, PulseError>,
)
    requires
        talks_to(client, base, token),
        call_ensures(PulseClient::agents, (&client,), resource),
        call_ensures(AgentsResource::get, (&resource, id), r),
    ensures
        exists|segment: Seq<char>| #[trigger]
            carries(segment, id@) && planned(
                r,
                base,
                token,
                Method::Get,
                "/api/pulse/agents/"@ + segment,
                None,
            ),
{
    lemma_carries(id@);
}

/// The configuration of one agent is replaced by the one that is given.
pub proof fn law_agents_update(
    client: PulseClient,
    base: &str,
    token: Option<String>,
    resource: AgentsResource<'_>,
    id: &str,
    config: Value,
    r: Result<HttpCall, PulseError>,
)
    requires
        talks_to(client, base, token),
        call_ensures(PulseClient::agents, (&client,), resource),
        call_ensures(AgentsResource::update, (&resource, id, &config), r),
    ensures
        exists|segment: Seq<char>| #[trigger]
            carries(segment, id@) && planned(
                r,
                base,
                token,
                Method::Put,
                "/api/pulse/agents/"@ + segment,
                Some(json_of(config)),
            ),
{
    lemma_carries(id@);
}

/// One agent is removed by its id.
pub proof fn law_agents_delete(
    client: PulseClient,
    base: &str,
    token: Option<String>,
    resource: AgentsResource<'_>,
    id: &str,
    r: Result<HttpCall, PulseError>,
)
    requires
        talks_to(client, base, token),
        call_ensures(PulseClient::agents, (&client,), resource),
        call_ensures(AgentsResource::delete, (&resource, id), r),
    ensures
        exists|segment: Seq<char>| #[trigger]
            carries(segment, id@) && planned(
                r,
                base,
                token,
                Method::Delete,
                "/api/pulse/agents/"@ + segment,
                None,
            ),
{
    lemma_carries(id@);
}

/// What is known of one model is read by its name.
pub proof fn law_models_get(
    client: PulseClient,
    base: &str,
    token: Option<String>,
    resource: ModelsResource<'_>,
    id: &str,
    r: Result<HttpCall, PulseError>,
)
    requires
        talks_to(client, base, token),
        call_ensures(PulseClient::models, (&client,), resource),
        call_ensures(ModelsResource::get, (&resource, id), r),
    ensures
        exists|segment: Seq<char>| #[trigger]
            carries(segment, id@) && planned(
                r,
                base,
                token,
                Method::Get,
                "/api/pulse/ml-models/"@ + segment,
                None,
            ),
{
    lemma_carries(id@);
}

/// One model is removed by its name.
pub proof fn law_models_delete(
    client: PulseClient,
    base: &str,
    token: Option<String>,
    resource: ModelsResource<'_>,
    id: &str,
    r: Result<HttpCall, PulseError>,
)
    requires
        talks_to(client, base, token),
        call_ensures(PulseClient::models, (&client,), resource),
        call_ensures(ModelsResource::delete, (&resource, id), r),
    ensures
        exists|segment: Seq<char>| #[trigger]
            carries(segment, id@) && planned(
                r,
                base,
                token,
                Method::Delete,
                "/api/pulse/ml-models/"@ + segment,
                None,
            ),
{
    lemma_carries(id@);
}

/// A pipeline is created from the definition that is given, as it stands.
pub proof fn law_pipelines_create(
    client: PulseClient,
    base: &str,
    token: Option<String>,
    resource: PipelinesResource<'_>,
    definition: Value,
    r: Result<HttpCall, PulseError>,
)
    requires
        talks_to(client, base, token),
        call_ensures(PulseClient::pipelines, (&client,), resource),
        call_ensures(PipelinesResource::create, (&resource, &definition), r),
    ensures
        planned(
            r,
            base,
            token,
            Method::Post,
            "/api/pulse/pipelines"@,
            Some(json_of(definition)),
        ),
{
}

/// Whether a document is the object with the one member that is given.
pub open spec fn holds_one(doc: Option<Json>, key: Seq<char>, member: Json) -> bool {
    doc matches Some(Json::Object(members)) && members.dom() =~= set![key] && members[key] == member
}

/// Whether a document is the object with the two members that are given.
pub open spec fn holds_two(
    doc: Option<Json>,
    key: Seq<char>,
    member: Json,
    other_key: Seq<char>,
    other: Json,
) -> bool {
    doc matches Some(Json::Object(members)) && members.dom() =~= set![key, other_key]
        && members[key] == member && members[other_key] == other
}

/// A login sends the user name and the password, and needs no token; so does a refresh with the
/// refresh token.
pub proof fn law_auth_login(
    client: PulseClient,
    base: &str,
    token: Option<String>,
    resource: AuthResource<'_>,
    username: &str,
    password: &str,
    login: Result<HttpCall, PulseError>,
    refresh_token: &str,
    refresh: Result<HttpCall, PulseError>,
)
    requires
        talks_to(client, base, token),
        call_ensures(PulseClient::auth, (&client,), resource),
        call_ensures(AuthResource::login, (&resource, username, password), login),
        call_ensures(AuthResource::refresh, (&resource, refresh_token), refresh),
    ensures
        login matches Ok(call) && is_call(
            call,
            base,
            token,
            Method::Post,
            "/api/auth/login"@,
            value_doc(call.body),
            false,
        ) && holds_two(
            value_doc(call.body),
            "username"@,
            Json::Str(username@),
            "password"@,
            Json::Str(password@),
        ),
        refresh matches Ok(call) && is_call(
            call,
            base,
            token,
            Method::Post,
            "/api/auth/refresh"@,
            value_doc(call.body),
            false,
        ) && holds_one(value_doc(call.body), "refreshToken"@, Json::Str(refresh_token@)),
{
    reveal_strlit("username");
    reveal_strlit("password");
    assert("username"@[0] != "password"@[0]);
}

/// Switching names the organisation, and must be authenticated.
pub proof fn law_auth_switch_org(
    client: PulseClient,
    base: &str,
    token: Option<String>,
    resource: AuthResource<'_>,
    org_id: &str,
    r: Result<HttpCall, PulseError>,
)
    requires
        talks_to(client, base, token),
        call_ensures(PulseClient::auth, (&client,), resource),
        call_ensures(AuthResource::switch_org, (&resource, org_id), r),
    ensures
        usable(token) ==> (r matches Ok(call) && is_call(
            call,
            base,
            token,
            Method::Post,
            "/api/auth/switch-org"@,
            value_doc(call.body),
            true,
        ) && holds_one(value_doc(call.body), "orgId"@, Json::Str(org_id@))),
        !usable(token) ==> (r matches Err(PulseError::NoToken { path }) && path@
            == "/api/auth/switch-org"@),
{
}

// ----- interactive queries ---------------------------------------------------------------------

/// Whether `q` is one more query parameter: none without a value, and else the name and a text that
/// carries the value.
pub open spec fn parameter_is(q: Seq<char>, name: Seq<char>, value: Option<String>) -> bool {
    match value {
        Some(v) => q.len() >= name.len() && q.take(name.len() as int) == name && carries(
            q.skip(name.len() as int),
            v@,
        ),
        None => q.len() == 0,
    }
}

/// The page size that a scan asks for: 100 where none is given.
pub open spec fn page_size(limit: Option<u32>) -> nat {
    match limit {
        Some(n) => n as nat,
        None => 100,
    }
}

/// Whether `q` is the query of a scan: the limit, and the bounds that are given, each carried
/// whole.
pub open spec fn scan_text(q: Seq<char>, opts: IQScanOptions) -> bool {
    exists|limit: Seq<char>, start: Seq<char>, end: Seq<char>|
        {
            &&& #[trigger] numeral(limit, page_size(opts.limit))
            &&& #[trigger] parameter_is(start, "&start="@, opts.start)
            &&& #[trigger] parameter_is(end, "&end="@, opts.end)
            &&& q == "?limit="@ + limit + start + end
        }
}

proof fn lemma_parameter(name: Seq<char>, value: Option<String>)
    ensures
        parameter_is(parameter(name, value), name, value),
{
    if let Some(v) = value {
        lemma_carries(v@);
        let q = parameter(name, value);
        assert(q.take(name.len() as int) =~= name);
        assert(q.skip(name.len() as int) =~= encoded(v@));
    }
}

proof fn lemma_scan_text(opts: IQScanOptions)
    ensures
        scan_text(scan_query_text(opts), opts),
{
    let n = page_size(opts.limit);
    lemma_numeral(n);
    lemma_parameter("&start="@, opts.start);
    lemma_parameter("&end="@, opts.end);
    assert(scan_query_text(opts) == "?limit="@ + decimal(n) + parameter("&start="@, opts.start)
        + parameter("&end="@, opts.end));
    assert(numeral(decimal(n), n));
}

/// The query of a scan says how many keys are asked for and carries both bounds, so that each can
/// be read back from it.
pub proof fn law_scan_query(opts: IQScanOptions, r: String)
    requires
        call_ensures(scan_query, (&opts,), r),
    ensures
        scan_text(r@, opts),
{
    lemma_scan_text(opts);
}

/// A summary is asked of the agent that is named.
pub proof fn law_iq_summary(
    client: PulseClient,
    base: &str,
    token: Option<String>,
    resource: IQResource<'_>,
    agent_id: &str,
    r: Result<HttpCall, PulseError>,
)
    requires
        talks_to(client, base, token),
        call_ensures(PulseClient::iq, (&client,), resource),
        call_ensures(IQResource::summary, (&resource, agent_id), r),
    ensures
        exists|agent: Seq<char>| #[trigger]
            carries(agent, agent_id@) && planned(
                r,
                base,
                token,
                Method::Get,
                "/api/pulse/iq/agents/"@ + agent + "/state"@,
                None,
            ),
{
    lemma_carries(agent_id@);
    let agent = encoded(agent_id@);
    assert(carries(agent, agent_id@));
    assert("/api/pulse/iq/agents/"@ + agent + "/state"@ + Seq::<char>::empty()
        =~= "/api/pulse/iq/agents/"@ + agent + "/state"@);
}

/// A value is asked of the agent and under the key that are named, and as of the instant that is
/// given.
pub proof fn law_iq_get(
    client: PulseClient,
    base: &str,
    token: Option<String>,
    resource: IQResource<'_>,
    agent_id: &str,
    key: &str,
    as_of: &str,
    now: Result<HttpCall, PulseError>,
    then: Result<HttpCall, PulseError>,
)
    requires
        talks_to(client, base, token),
        call_ensures(PulseClient::iq, (&client,), resource),
        call_ensures(IQResource::get, (&resource, agent_id, key), now),
        call_ensures(IQResource::get_as_of, (&resource, agent_id, key, as_of), then),
    ensures
        exists|agent: Seq<char>, k: Seq<char>| #[trigger]
            carries(agent, agent_id@) && #[trigger] carries(k, key@) && planned(
                now,
                base,
                token,
                Method::Get,
                "/api/pulse/iq/agents/"@ + agent + "/state/value/"@ + k,
                None,
            ),
        exists|agent: Seq<char>, k: Seq<char>, instant: Seq<char>| #[trigger]
            carries(agent, agent_id@) && #[trigger] carries(k, key@) && #[trigger] carries(
                instant,
                as_of@,
            ) && planned(
                then,
                base,
                token,
                Method::Get,
                "/api/pulse/iq/agents/"@ + agent + "/state/value/"@ + k + "?as_of="@ + instant,
                None,
            ),
{
    lemma_carries(agent_id@);
    lemma_carries(key@);
    lemma_carries(as_of@);
    let a = encoded(agent_id@);
    let k = encoded(key@);
    let t = encoded(as_of@);
    assert("/state/value/"@ =~= "/state"@ + "/value/"@) by {
        reveal_strlit("/state/value/");
        reveal_strlit("/state");
        reveal_strlit("/value/");
    }
    assert("/api/pulse/iq/agents/"@ + a + "/state"@ + ("/value/"@ + k) =~= "/api/pulse/iq/agents/"@
        + a + "/state/value/"@ + k);
    assert("/api/pulse/iq/agents/"@ + a + "/state"@ + ("/value/"@ + k + "?as_of="@ + t)
        =~= "/api/pulse/iq/agents/"@ + a + "/state/value/"@ + k + "?as_of="@ + t);
    assert(carries(a, agent_id@) && carries(k, key@) && carries(t, as_of@));
}

/// A difference is asked of the agent, under the key and between the two instants that are given,
/// in that order.
pub proof fn law_iq_diff(
    client: PulseClient,
    base: &str,
    token: Option<String>,
    resource: IQResource<'_>,
    agent_id: &str,
    key: &str,
    from: &str,
    to: &str,
    r: Result<HttpCall, PulseError>,
)
    requires
        talks_to(client, base, token),
        call_ensures(PulseClient::iq, (&client,), resource),
        call_ensures(IQResource::diff, (&resource, agent_id, key, from, to), r),
    ensures
        exists|agent: Seq<char>, k: Seq<char>, f: Seq<char>, t: Seq<char>| #[trigger]
            carries(agent, agent_id@) && #[trigger] carries(k, key@) && #[trigger] carries(f, from@)
                && #[trigger] carries(t, to@) && planned(
                r,
                base,
                token,
                Method::Get,
                "/api/pulse/iq/agents/"@ + agent + "/state/diff/"@ + k + "?from="@ + f + "&to="@ + t,
                None,
            ),
{
    lemma_carries(agent_id@);
    lemma_carries(key@);
    lemma_carries(from@);
    lemma_carries(to@);
    let a = encoded(agent_id@);
    let k = encoded(key@);
    let f = encoded(from@);
    let t = encoded(to@);
    assert("/state/diff/"@ =~= "/state"@ + "/diff/"@) by {
        reveal_strlit("/state/diff/");
        reveal_strlit("/state");
        reveal_strlit("/diff/");
    }
    assert("/api/pulse/iq/agents/"@ + a + "/state"@ + ("/diff/"@ + k + "?from="@ + f + "&to="@ + t)
        =~= "/api/pulse/iq/agents/"@ + a + "/state/diff/"@ + k + "?from="@ + f + "&to="@ + t);
    assert(carries(a, agent_id@) && carries(k, key@) && carries(f, from@) && carries(t, to@));
}

/// A scan and a listing of keys ask the agent that is named for the range that is given.
pub proof fn law_iq_scan(
    client: PulseClient,
    base: &str,
    token: Option<String>,
    resource: IQResource<'_>,
    agent_id: &str,
    opts: IQScanOptions,
    entries: Result<HttpCall, PulseError>,
    keys: Result<HttpCall, PulseError>,
)
    requires
        talks_to(client, base, token),
        call_ensures(PulseClient::iq, (&client,), resource),
        call_ensures(IQResource::scan, (&resource, agent_id, opts), entries),
        call_ensures(IQResource::list_keys, (&resource, agent_id, opts), keys),
    ensures
        exists|agent: Seq<char>, q: Seq<char>| #[trigger]
            carries(agent, agent_id@) && #[trigger] scan_text(q, opts) && planned(
                entries,
                base,
                token,
                Method::Get,
                "/api/pulse/iq/agents/"@ + agent + "/state/scan"@ + q,
                None,
            ),
        exists|agent: Seq<char>, q: Seq<char>| #[trigger]
            carries(agent, agent_id@) && #[trigger] scan_text(q, opts) && planned(
                keys,
                base,
                token,
                Method::Get,
                "/api/pulse/iq/agents/"@ + agent + "/state/keys"@ + q,
                None,
            ),
{
    lemma_carries(agent_id@);
    lemma_scan_text(opts);
    let a = encoded(agent_id@);
    let q = scan_query_text(opts);
    assert("/state/scan"@ =~= "/state"@ + "/scan"@) by {
        reveal_strlit("/state/scan");
        reveal_strlit("/state");
        reveal_strlit("/scan");
    }
    assert("/state/keys"@ =~= "/state"@ + "/keys"@) by {
        reveal_strlit("/state/keys");
        reveal_strlit("/state");
        reveal_strlit("/keys");
    }
    assert("/api/pulse/iq/agents/"@ + a + "/state"@ + ("/scan"@ + q) =~= "/api/pulse/iq/agents/"@
        + a + "/state/scan"@ + q);
    assert("/api/pulse/iq/agents/"@ + a + "/state"@ + ("/keys"@ + q) =~= "/api/pulse/iq/agents/"@
        + a + "/state/keys"@ + q);
    assert(carries(a, agent_id@) && scan_text(q, opts));
}

/// Whether `members` hold what a query asks for: each option under its name, and nothing that was
/// not set.
pub open spec fn asks_for(members: Members, opts: IQQueryOptions) -> bool {
    let body = Json::Object(members);
    &&& member_of(body, "start"@) == text_doc(opts.start)
    &&& member_of(body, "end"@) == text_doc(opts.end)
    &&& member_of(body, "limit"@) == count_doc(opts.limit)
    &&& member_of(body, "filter"@) == value_doc(opts.filter)
    &&& match opts.projection {
        Some(fields) => member_of(body, "projection"@) matches Some(doc)
            && lists_texts(doc, fields@),
        None => member_of(body, "projection"@) is None,
    }
    &&& member_of(body, "groupBy"@) == text_doc(opts.group_by)
    &&& forall|k: Seq<char>| #[trigger]
        members.contains_key(k) ==> k == "start"@ || k == "end"@ || k == "limit"@ || k
            == "filter"@ || k == "projection"@ || k == "groupBy"@
}

proof fn lemma_asks_for(opts: IQQueryOptions)
    ensures
        asks_for(query_members(opts), opts),
        query_members(opts) == Members::empty() <==> {
            &&& opts.start is None
            &&& opts.end is None
            &&& opts.limit is None
            &&& opts.filter is None
            &&& opts.projection is None
            &&& opts.group_by is None
        },
{
    crate::iq::law_query_body_is_faithful(opts);
    crate::iq::law_empty_query_has_no_body(opts);
}

/// The body of a query holds what was asked for, and nothing else.
pub proof fn law_query_body(opts: IQQueryOptions, r: Value)
    requires
        call_ensures(build_query_body, (opts,), r),
    ensures
        json_of(r) matches Json::Object(members) && asks_for(members, opts),
{
    lemma_asks_for(opts);
}

/// A query is sent to the agent that is named with what was asked for as its body, and without a
/// body where nothing was.
pub proof fn law_iq_query(
    client: PulseClient,
    base: &str,
    token: Option<String>,
    resource: IQResource<'_>,
    agent_id: &str,
    opts: IQQueryOptions,
    r: Result<HttpCall, PulseError>,
)
    requires
        talks_to(client, base, token),
        call_ensures(PulseClient::iq, (&client,), resource),
        call_ensures(IQResource::query, (&resource, agent_id, opts), r),
    ensures
        exists|agent: Seq<char>, body: Option<Json>|
            #![trigger carries(agent, agent_id@), query_body(body, opts)]
            carries(agent, agent_id@) && query_body(body, opts) && planned(
                r,
                base,
                token,
                Method::Post,
                "/api/pulse/iq/agents/"@ + agent + "/state/query"@,
                body,
            ),
{
    lemma_carries(agent_id@);
    lemma_asks_for(opts);
    let a = encoded(agent_id@);
    assert("/state/query"@ =~= "/state"@ + "/query"@) by {
        reveal_strlit("/state/query");
        reveal_strlit("/state");
        reveal_strlit("/query");
    }
    assert("/api/pulse/iq/agents/"@ + a + "/state"@ + "/query"@ =~= "/api/pulse/iq/agents/"@ + a
        + "/state/query"@);
    let body = if query_members(opts) == Members::empty() {
        None
    } else {
        Some(Json::Object(query_members(opts)))
    };
    assert(carries(a, agent_id@) && query_body(body, opts));
}

/// Whether `body` is what a query sends.
pub open spec fn query_body(body: Option<Json>, opts: IQQueryOptions) -> bool {
    if opts.start is None && opts.end is None && opts.limit is None && opts.filter is None
        && opts.projection is None && opts.group_by is None {
        body is None
    } else {
        body matches Some(Json::Object(members)) && asks_for(members, opts)
    }
}

/// The nodes of a filter hold what they were made of: a leaf its field, its value and its operator
/// where there is one; the others their children, all of them and in order.
pub proof fn law_filters(
    field: &str,
    op: &str,
    value: Value,
    leaf: Value,
    children: Vec<Value>,
    all: Value,
    any: Value,
    none: Value,
)
    requires
        call_ensures(iq_leaf, (field, op, value), leaf),
        call_ensures(iq_and, (children,), all),
        call_ensures(iq_or, (children,), any),
        call_ensures(iq_not, (value,), none),
    ensures
        member_of(json_of(leaf), "field"@) == Some(Json::Str(field@)),
        member_of(json_of(leaf), "value"@) == Some(json_of(value)),
        member_of(json_of(leaf), "op"@) == if op@.len() > 0 {
            Some(Json::Str(op@))
        } else {
            None
        },
        json_of(leaf) matches Json::Object(members) && forall|k: Seq<char>| #[trigger]
            members.contains_key(k) ==> k == "field"@ || k == "op"@ || k == "value"@,
        json_of(all) matches Json::Object(members) && members.dom() =~= set!["and"@]
            && lists_values(members["and"@], children@),
        json_of(any) matches Json::Object(members) && members.dom() =~= set!["or"@]
            && lists_values(members["or"@], children@),
        json_of(none) matches Json::Object(members) && members.dom() =~= set!["not"@]
            && members["not"@] == json_of(value),
{
    reveal_strlit("field");
    reveal_strlit("op");
    reveal_strlit("value");
    assert("field"@[0] != "value"@[0]);
    assert("field"@.len() == 5 && "op"@.len() == 2 && "value"@.len() == 5);
    lemma_items(children@);
}

/// Each setting of a scan or a query is kept as it was given, and leaves the others as they were.
pub proof fn law_query_settings(
    scan: IQScanOptions,
    query: IQQueryOptions,
    text: &str,
    n: u32,
    value: Value,
    fields: Vec<String>,
    s: IQScanOptions,
    q: IQQueryOptions,
)
    ensures
        call_ensures(IQScanOptions::start, (scan, text), s) ==> (s.start matches Some(t)
            && t@ == text@)
            && s.end == scan.end && s.limit == scan.limit,
        call_ensures(IQScanOptions::end, (scan, text), s) ==> (s.end matches Some(t) && t@ == text@)
            && s.start == scan.start && s.limit == scan.limit,
        call_ensures(IQScanOptions::limit, (scan, n), s) ==> s.limit == Some(n) && s.start
            == scan.start && s.end == scan.end,
        call_ensures(IQScanOptions::new, (), s) ==> s.start is None && s.end is None && s.limit
            is None,
        call_ensures(IQQueryOptions::new, (), q) ==> q.start is None && q.end is None && q.limit
            is None && q.filter is None && q.projection is None && q.group_by is None,
        call_ensures(IQQueryOptions::start, (query, text), q) ==> (q.start matches Some(t) && t@
            == text@) && q == (IQQueryOptions { start: q.start, ..query }),
        call_ensures(IQQueryOptions::end, (query, text), q) ==> (q.end matches Some(t) && t@
            == text@) && q == (IQQueryOptions { end: q.end, ..query }),
        call_ensures(IQQueryOptions::limit, (query, n), q) ==> q.limit == Some(n) && q == (
        IQQueryOptions { limit: q.limit, ..query }),
        call_ensures(IQQueryOptions::filter, (query, value), q) ==> q.filter == Some(value) && q
            == (IQQueryOptions { filter: q.filter, ..query }),
        call_ensures(IQQueryOptions::projection, (query, fields), q) ==> q.projection == Some(fields)
            && q == (IQQueryOptions { projection: q.projection, ..query }),
        call_ensures(IQQueryOptions::group_by, (query, text), q) ==> (q.group_by matches Some(t)
            && t@ == text@) && q == (IQQueryOptions { group_by: q.group_by, ..query }),
{
}

// ----- events ----------------------------------------------------------------------------------

/// A replay asks the agent for the changes of the key between the two instants, in that order, and
/// for as many as were asked for: the path ends in the numeral of the limit.
pub proof fn law_events_replay(
    client: PulseClient,
    base: &str,
    token: Option<String>,
    resource: EventsResource<'_>,
    agent_id: &str,
    key: &str,
    from: &str,
    to: &str,
    limit: u32,
    r: Result<ListCall, PulseError>,
)
    requires
        talks_to(client, base, token),
        call_ensures(PulseClient::events, (&client,), resource),
        call_ensures(EventsResource::replay, (&resource, agent_id, key, from, to, limit), r),
    ensures
        exists|agent: Seq<char>, k: Seq<char>, f: Seq<char>, t: Seq<char>, n: Seq<char>| #[trigger]
            carries(agent, agent_id@) && #[trigger] carries(k, key@) && #[trigger] carries(f, from@)
                && #[trigger] carries(t, to@) && #[trigger] numeral(n, limit as nat)
                    && planned_list(
                r,
                base,
                token,
                "/api/pulse/iq/agents/"@ + agent + "/state/replay/"@ + k + "?from="@ + f + "&to="@ + t
                    + "&limit="@ + n,
                "changes"@,
            ),
{
    lemma_carries(agent_id@);
    lemma_carries(key@);
    lemma_carries(from@);
    lemma_carries(to@);
    lemma_numeral(limit as nat);
    let a = encoded(agent_id@);
    let k = encoded(key@);
    let f = encoded(from@);
    let t = encoded(to@);
    let n = decimal(limit as nat);
    assert("/state/replay/"@ =~= "/state"@ + "/replay/"@) by {
        reveal_strlit("/state/replay/");
        reveal_strlit("/state");
        reveal_strlit("/replay/");
    }
    assert("/api/pulse/iq/agents/"@ + a + "/state"@ + ("/replay/"@ + k + "?from="@ + f + "&to="@ + t
        + "&limit="@ + n) =~= "/api/pulse/iq/agents/"@ + a + "/state/replay/"@ + k + "?from="@ + f
        + "&to="@ + t + "&limit="@ + n);
    assert(carries(a, agent_id@) && carries(k, key@) && carries(f, from@) && carries(t, to@)
        && numeral(n, limit as nat));
}

/// A subscription asks for the event stream with the token, and is not made without one.
pub proof fn law_events_stream(
    client: PulseClient,
    base: &str,
    token: Option<String>,
    resource: EventsResource<'_>,
    r: Result<StreamCall, PulseError>,
)
    requires
        talks_to(client, base, token),
        call_ensures(PulseClient::events, (&client,), resource),
        call_ensures(EventsResource::stream, (&resource,), r),
    ensures
        usable(token) ==> (r matches Ok(call) && call.url@ == base@ + "/api/pulse/events/stream"@
            && call.authorization@ == "Bearer "@ + token->0@ && call.accept@ == "text/event-stream"@
            && call.cache_control@ == "no-cache"@),
        !usable(token) ==> (r matches Err(PulseError::NoToken { path }) && path@
            == "/api/pulse/events/stream"@),
{
}

} // verus!
