//! The client: where the server is, which token it is talked to with, and what each request looks
//! like.
//!
//! A method of a resource plans one request, an [`HttpCall`]; the transport sends it and hands the
//! answer to [`crate::response`].
use crate::duplex::{derive_ws_url, opt_slice, port_has_successor, ws_url};
use crate::duration::Duration;
use crate::error::{ErrorModel, PulseError};
use crate::events::EventsResource;
use crate::iq::IQResource;
use crate::json::{items_of, json_of, jsons_of, opt_json, opt_text, unwrap_list, Json};
use crate::resources::{
    AgentsResource, AuthResource, ConnectorsResource, ModelsResource, PipelinesResource,
    TemplatesResource, UsersResource,
};
use crate::retry::{standard_policy, Method, PolicyModel, RetryPolicy};
use crate::streams::StreamsResource;
use crate::text::{blank, chars_of, is_blank, slice_chars, string_of};
use serde_json::Value;
use vstd::prelude::*;

verus! {

/// The user agent that the client presents itself as.
pub const USER_AGENT: &'static str = "pulse-client-rust/2.6.0";

/// The seconds that a request may take by default.
pub const DEFAULT_TIMEOUT_SECS: u64 = 30;

// ----- the client ------------------------------------------------------------------------------

/// Client of the Pulse REST API: the state that requests are planned from.
pub struct PulseClient {
    base_url: String,
    token: Option<String>,
    timeout: Duration,
    retry: RetryPolicy,
}

/// The mathematical model of a [`PulseClient`].
pub struct ClientModel {
    /// The URL that every path is appended to.
    pub base_url: Seq<char>,
    /// The bearer token.
    pub token: Option<Seq<char>>,
    /// How long a request may take.
    pub timeout: Duration,
    /// When a failed request is retried.
    pub retry: PolicyModel,
}

impl View for PulseClient {
    type V = ClientModel;

    closed spec fn view(&self) -> ClientModel {
        ClientModel {
            base_url: self.base_url@,
            token: opt_text(self.token),
            timeout: self.timeout,
            retry: self.retry@,
        }
    }
}

/// A request, ready to be sent.
pub struct HttpCall {
    pub method: Method,
    /// The path, as errors name it.
    pub path: String,
    pub url: String,
    /// The token to send as `Authorization: Bearer`.
    pub bearer: Option<String>,
    /// The document to send as the JSON body.
    pub body: Option<Value>,
}

/// The mathematical model of an [`HttpCall`].
pub struct CallModel {
    pub method: Method,
    pub path: Seq<char>,
    pub url: Seq<char>,
    pub bearer: Option<Seq<char>>,
    pub body: Option<Json>,
}

impl View for HttpCall {
    type V = CallModel;

    open spec fn view(&self) -> CallModel {
        CallModel {
            method: self.method,
            path: self.path@,
            url: self.url@,
            bearer: opt_text(self.bearer),
            body: opt_json(self.body),
        }
    }
}

/// Whether a client has a token to authenticate with; an empty one does not count.
pub open spec fn has_token(client: ClientModel) -> bool {
    client.token matches Some(t) && t.len() > 0
}

/// The request that a client makes to `path`. An authenticated one needs a token.
pub open spec fn call_model(
    client: ClientModel,
    method: Method,
    path: Seq<char>,
    body: Option<Json>,
    authenticated: bool,
) -> Result<CallModel, ErrorModel> {
    if authenticated && !has_token(client) {
        Err(ErrorModel::NoToken { path })
    } else {
        Ok(
            CallModel {
                method,
                path,
                url: client.base_url + path,
                bearer: if authenticated {
                    client.token
                } else {
                    None
                },
                body,
            },
        )
    }
}

/// The model of a planned request.
pub open spec fn plan_model(r: Result<HttpCall, PulseError>) -> Result<CallModel, ErrorModel> {
    match r {
        Ok(call) => Ok(call@),
        Err(e) => Err(e@),
    }
}

/// A request whose answer holds a list under one member.
pub struct ListCall {
    /// The request.
    pub call: HttpCall,
    /// The member of the answer that holds the list.
    pub key: String,
}

impl ListCall {
    /// The list in an answer; empty where the answer does not hold it.
    pub fn items(&self, response: &Value) -> (r: Vec<Value>)
        ensures
            jsons_of(r@) == items_of(json_of(*response), self.key@),
    {
        unwrap_list(response, self.key.as_str())
    }
}

/// Whether `r` plans the request for a list under the member `key`.
pub open spec fn plans_list(
    r: Result<ListCall, PulseError>,
    call: Result<CallModel, ErrorModel>,
    key: Seq<char>,
) -> bool {
    match call {
        Ok(c) => r matches Ok(list) && list.call@ == c && list.key@ == key,
        Err(e) => r matches Err(err) && err@ == e,
    }
}

/// The path of the version endpoint.
pub const VERSION_PATH: &'static str = "/api/pulse/version";

impl PulseClient {
    /// A builder with nothing set.
    pub fn builder() -> (r: PulseClientBuilder)
        ensures
            r@ == (BuilderModel { base_url: None, token: None, timeout: None, retry: None }),
    {
        PulseClientBuilder { base_url: None, token: None, timeout: None, retry: None }
    }

    /// The state at this moment, for planning requests while the client is shared: a copy, with
    /// which the same requests are planned.
    pub fn snapshot(&self) -> (r: Self)
        ensures
            r@ == self@,
    {
        PulseClient {
            base_url: self.base_url.clone(),
            token: self.token.clone(),
            timeout: self.timeout,
            retry: self.retry.clone(),
        }
    }

    /// The URL that every path is appended to.
    pub fn base_url(&self) -> (r: &str)
        ensures
            r@ == self@.base_url,
    {
        self.base_url.as_str()
    }

    /// How long a request may take.
    pub fn timeout(&self) -> (r: Duration)
        ensures
            r == self@.timeout,
    {
        self.timeout
    }

    /// When a failed request is retried.
    pub fn retry(&self) -> (r: &RetryPolicy)
        ensures
            r@ == self@.retry,
    {
        &self.retry
    }

    /// The bearer token, if one is set.
    pub fn token(&self) -> (r: Option<String>)
        ensures
            opt_text(r) == self@.token,
    {
        match &self.token {
            Some(t) => Some(t.clone()),
            None => None,
        }
    }

    /// Sets the bearer token of the requests that follow.
    pub fn set_token(&mut self, token: &str)
        ensures
            final(self)@ == (ClientModel { token: Some(token@), ..old(self)@ }),
    {
        self.token = Some(token.to_owned());
    }

    /// Clears the bearer token, which logs the client out.
    pub fn clear_token(&mut self)
        ensures
            final(self)@ == (ClientModel { token: None, ..old(self)@ }),
    {
        self.token = None;
    }

    /// Login, refresh, organisations.
    pub fn auth(&self) -> (r: AuthResource<'_>)
        ensures
            r@ == self@,
    {
        AuthResource::new(self)
    }

    /// Pipelines.
    pub fn pipelines(&self) -> (r: PipelinesResource<'_>)
        ensures
            r@ == self@,
    {
        PipelinesResource::new(self)
    }

    /// Agents.
    pub fn agents(&self) -> (r: AgentsResource<'_>)
        ensures
            r@ == self@,
    {
        AgentsResource::new(self)
    }

    /// Templates.
    pub fn templates(&self) -> (r: TemplatesResource<'_>)
        ensures
            r@ == self@,
    {
        TemplatesResource::new(self)
    }

    /// Users.
    pub fn users(&self) -> (r: UsersResource<'_>)
        ensures
            r@ == self@,
    {
        UsersResource::new(self)
    }

    /// The registry of ML models.
    pub fn models(&self) -> (r: ModelsResource<'_>)
        ensures
            r@ == self@,
    {
        ModelsResource::new(self)
    }

    /// The catalogue of connectors.
    pub fn connectors(&self) -> (r: ConnectorsResource<'_>)
        ensures
            r@ == self@,
    {
        ConnectorsResource::new(self)
    }

    /// Events, live and replayed.
    pub fn events(&self) -> (r: EventsResource<'_>)
        ensures
            r@ == self@,
    {
        EventsResource::new(self)
    }

    /// Interactive queries.
    pub fn iq(&self) -> (r: IQResource<'_>)
        ensures
            r@ == self@,
    {
        IQResource::new(self)
    }

    /// Pipelines that are declared as streams.
    pub fn streams(&self) -> (r: StreamsResource<'_>)
        ensures
            r@ == self@,
    {
        StreamsResource::new(self)
    }

    /// The URL of the duplex channel to an agent.
    pub fn duplex(&self, agent_id: &str) -> (r: Result<String, PulseError>)
        requires
            !blank(agent_id@) ==> port_has_successor(self@.base_url),
        ensures
            if blank(agent_id@) {
                r matches Err(e) && e@ == ErrorModel::InvalidConfig(
                    "agent_id must be a non-empty string"@,
                )
            } else {
                r matches Ok(url) && url@ == ws_url(self@.base_url, agent_id@, self@.token)
            },
    {
        if is_blank(agent_id) {
            return Err(
                PulseError::InvalidConfig("agent_id must be a non-empty string".to_owned()),
            );
        }
        let token: Option<&str> = match &self.token {
            Some(t) => Some(t.as_str()),
            None => None,
        };
        assert(opt_slice(token) == self@.token);
        Ok(derive_ws_url(self.base_url.as_str(), agent_id, token))
    }

    /// The request for the version of the server, which needs no token.
    pub fn version(&self) -> (r: Result<HttpCall, PulseError>)
        ensures
            plan_model(r) == call_model(self@, Method::Get, "/api/pulse/version"@, None, false),
            r is Ok,
    {
        self.request_once(Method::Get, VERSION_PATH, None, false)
    }

    /// The token to authenticate with, where there is one.
    pub(crate) fn bearer(&self, path: &str) -> (r: Result<String, PulseError>)
        ensures
            if has_token(self@) {
                r matches Ok(t) && Some(t@) == self@.token
            } else {
                r matches Err(e) && e@ == (ErrorModel::NoToken { path: path@ })
            },
    {
        if let Some(t) = &self.token {
            if !t.as_str().is_empty() {
                return Ok(t.clone());
            }
        }
        Err(PulseError::NoToken { path: path.to_owned() })
    }

    /// The URL of a path.
    pub(crate) fn url_of(&self, path: &str) -> (r: String)
        ensures
            r@ == self@.base_url + path@,
    {
        self.base_url.clone().concat(path)
    }

    /// The request to `path`. Fails without sending anything where it must be authenticated and
    /// there is no token.
    pub fn request_once(
        &self,
        method: Method,
        path: &str,
        body: Option<Value>,
        authenticated: bool,
    ) -> (r: Result<HttpCall, PulseError>)
        ensures
            plan_model(r) == call_model(self@, method, path@, opt_json(body), authenticated),
    {
        let url = self.url_of(path);
        let bearer = if authenticated {
            match self.bearer(path) {
                Ok(t) => Some(t),
                Err(e) => {
                    return Err(e);
                },
            }
        } else {
            None
        };
        Ok(HttpCall { method, path: path.to_owned(), url, bearer, body })
    }

    /// The authenticated request for a list under the member `key`.
    pub(crate) fn request_list(&self, path: &str, key: &str) -> (r: Result<ListCall, PulseError>)
        ensures
            plans_list(r, call_model(self@, Method::Get, path@, None, true), key@),
    {
        match self.request_once(Method::Get, path, None, true) {
            Ok(call) => Ok(ListCall { call, key: key.to_owned() }),
            Err(e) => Err(e),
        }
    }
}

// ----- the builder -----------------------------------------------------------------------------

/// Fluent builder of a [`PulseClient`].
pub struct PulseClientBuilder {
    base_url: Option<String>,
    token: Option<String>,
    timeout: Option<Duration>,
    retry: Option<RetryPolicy>,
}

/// The mathematical model of a [`PulseClientBuilder`].
pub struct BuilderModel {
    pub base_url: Option<Seq<char>>,
    pub token: Option<Seq<char>>,
    pub timeout: Option<Duration>,
    pub retry: Option<PolicyModel>,
}

impl View for PulseClientBuilder {
    type V = BuilderModel;

    closed spec fn view(&self) -> BuilderModel {
        BuilderModel {
            base_url: opt_text(self.base_url),
            token: opt_text(self.token),
            timeout: self.timeout,
            retry: match self.retry {
                Some(policy) => Some(policy@),
                None => None,
            },
        }
    }
}

/// A URL without its trailing slashes; a lone slash stays.
pub open spec fn without_trailing_slash(url: Seq<char>) -> Seq<char>
    decreases url.len(),
{
    if url.len() > 1 && url.last() == '/' {
        without_trailing_slash(url.drop_last())
    } else {
        url
    }
}

/// `url` without its trailing slashes.
pub fn strip_trailing_slash(url: &str) -> (r: String)
    ensures
        r@ == without_trailing_slash(url@),
{
    let cs = chars_of(url);
    let mut end: usize = cs.len();
    assert(cs@.take(end as int) =~= cs@);
    while end > 1 && cs[end - 1] == '/'
        invariant
            end <= cs.len(),
            without_trailing_slash(cs@.take(end as int)) == without_trailing_slash(cs@),
        decreases end,
    {
        assert(cs@.take(end as int).drop_last() =~= cs@.take(end - 1));
        end -= 1;
    }
    assert(end > 0 ==> cs@.take(end as int).last() == cs@[end - 1]);
    let kept = slice_chars(&cs, 0, end);
    assert(kept@ =~= cs@.take(end as int));
    string_of(&kept)
}

impl Default for PulseClientBuilder {
    fn default() -> (r: Self)
        ensures
            r@ == (BuilderModel { base_url: None, token: None, timeout: None, retry: None }),
    {
        PulseClient::builder()
    }
}

impl PulseClientBuilder {
    /// Sets the URL of the server, which is required.
    pub fn base_url(self, base_url: &str) -> (r: Self)
        ensures
            r@ == (BuilderModel { base_url: Some(base_url@), ..self@ }),
    {
        let mut builder = self;
        builder.base_url = Some(base_url.to_owned());
        builder
    }

    /// Sets the bearer token.
    pub fn token(self, token: &str) -> (r: Self)
        ensures
            r@ == (BuilderModel { token: Some(token@), ..self@ }),
    {
        let mut builder = self;
        builder.token = Some(token.to_owned());
        builder
    }

    /// Sets how long a request may take; 30 seconds by default.
    pub fn timeout(self, timeout: Duration) -> (r: Self)
        ensures
            r@ == (BuilderModel { timeout: Some(timeout), ..self@ }),
    {
        let mut builder = self;
        builder.timeout = Some(timeout);
        builder
    }

    /// Turns on retries.
    pub fn retry(self, policy: RetryPolicy) -> (r: Self)
        ensures
            r@ == (BuilderModel { retry: Some(policy@), ..self@ }),
    {
        let mut builder = self;
        builder.retry = Some(policy);
        builder
    }

    /// The client. Fails without a base URL.
    pub fn build(self) -> (r: Result<PulseClient, PulseError>)
        ensures
            match self@.base_url {
                None => r matches Err(e) && e@ == ErrorModel::InvalidConfig(
                    "base_url is required"@,
                ),
                Some(url) => if url.len() == 0 {
                    r matches Err(e) && e@ == ErrorModel::InvalidConfig("base_url cannot be empty"@)
                } else {
                    &&& r matches Ok(client)
                    &&& client@.base_url == without_trailing_slash(url)
                    &&& client@.token == self@.token
                    &&& match self@.timeout {
                        Some(t) => client@.timeout == t,
                        None => client@.timeout.secs() == DEFAULT_TIMEOUT_SECS
                            && client@.timeout.nanos() == 0,
                    }
                    &&& match self@.retry {
                        Some(p) => client@.retry == p,
                        None => standard_policy(client@.retry, 0),
                    }
                },
            },
    {
        let base_url = match self.base_url {
            Some(url) => url,
            None => {
                return Err(PulseError::InvalidConfig("base_url is required".to_owned()));
            },
        };
        if base_url.as_str().is_empty() {
            return Err(PulseError::InvalidConfig("base_url cannot be empty".to_owned()));
        }
        let timeout = match self.timeout {
            Some(t) => t,
            None => Duration::from_secs(DEFAULT_TIMEOUT_SECS),
        };
        let retry = match self.retry {
            Some(p) => p,
            None => RetryPolicy::default(),
        };
        Ok(
            PulseClient {
                base_url: strip_trailing_slash(base_url.as_str()),
                token: self.token,
                timeout,
                retry,
            },
        )
    }
}

// ----- laws ------------------------------------------------------------------------------------

/// A base URL may be given with any number of trailing slashes.
pub proof fn law_trailing_slashes_do_not_matter(url: Seq<char>)
    requires
        url.len() > 0,
    ensures
        without_trailing_slash(url.push('/')) == without_trailing_slash(url),
        without_trailing_slash(without_trailing_slash(url)) == without_trailing_slash(url),
        without_trailing_slash(url).len() > 0,
    decreases url.len(),
{
    assert(url.push('/').drop_last() =~= url);
    if url.len() > 1 && url.last() == '/' {
        law_trailing_slashes_do_not_matter(url.drop_last());
    }
}

/// Without a token nothing that must be authenticated is sent, and what need not be never carries
/// one.
pub proof fn law_token_goes_where_it_must(
    client: ClientModel,
    method: Method,
    path: Seq<char>,
    body: Option<Json>,
)
    ensures
        call_model(client, method, path, body, true) is Ok == has_token(client),
        call_model(client, method, path, body, true) matches Ok(call) ==> call.bearer
            == client.token,
        call_model(client, method, path, body, false) matches Ok(call) && call.bearer is None,
{
}

} // verus!
