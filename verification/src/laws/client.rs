//! Laws of the client itself: what it is built from, and which token it has when.
use crate::client::{
    strip_trailing_slash, without_trailing_slash, PulseClient, PulseClientBuilder, USER_AGENT,
};
use crate::duration::Duration;
use crate::error::PulseError;
use crate::json::{json_of, member_of, Json};
use crate::laws::retries::by_default;
use crate::resources::{cache_outcome, cache_token};
use crate::retry::RetryPolicy;
use crate::VERSION;
use serde_json::Value;
use vstd::prelude::*;

verus! {

// ----- building --------------------------------------------------------------------------------

/// Whether `kept` is `url` without the slashes at its end. One slash alone is kept.
pub open spec fn unslashed(url: Seq<char>, kept: Seq<char>) -> bool {
    &&& kept.len() <= url.len()
    &&& kept == url.take(kept.len() as int)
    &&& forall|i: int| kept.len() <= i < url.len() ==> #[trigger] url[i] == '/'
    &&& url.len() > 0 ==> kept.len() > 0
    &&& kept.len() > 1 ==> kept.last() != '/'
}

proof fn lemma_unslashed(url: Seq<char>)
    ensures
        unslashed(url, without_trailing_slash(url)),
    decreases url.len(),
{
    if url.len() > 1 && url.last() == '/' {
        let init = url.drop_last();
        lemma_unslashed(init);
        let kept = without_trailing_slash(init);
        assert(kept =~= url.take(kept.len() as int));
        assert forall|i: int| kept.len() <= i < url.len() implies #[trigger] url[i] == '/' by {
            if i < init.len() {
                assert(init[i] == url[i]);
            }
        }
    } else {
        assert(url.take(url.len() as int) =~= url);
    }
}

/// The slashes at the end of a URL are taken off.
pub proof fn law_trailing_slashes(url: &str, r: String)
    requires
        call_ensures(strip_trailing_slash, (url,), r),
    ensures
        unslashed(url@, r@),
{
    lemma_unslashed(url@);
}

/// What a client shows of itself.
pub open spec fn shows(
    client: PulseClient,
    base: &str,
    token: Option<String>,
    timeout: Duration,
    retry: &RetryPolicy,
) -> bool {
    &&& call_ensures(PulseClient::base_url, (&client,), base)
    &&& call_ensures(PulseClient::token, (&client,), token)
    &&& call_ensures(PulseClient::timeout, (&client,), timeout)
    &&& call_ensures(PulseClient::retry, (&client,), retry)
}

/// Whether two policies are the same.
pub open spec fn same_policy(a: RetryPolicy, b: RetryPolicy) -> bool {
    &&& a.max_retries == b.max_retries
    &&& a.backoff == b.backoff
    &&& a.max_backoff == b.max_backoff
    &&& a.on_status@ == b.on_status@
    &&& a.retry_non_idempotent == b.retry_non_idempotent
}

/// The text of a token.
pub open spec fn token_text(token: Option<String>) -> Option<Seq<char>> {
    match token {
        Some(t) => Some(t@),
        None => None,
    }
}

/// A client is built from a URL alone, and fails to be where there is none or an empty one. It then
/// has no token, waits half a minute and does not retry.
pub proof fn law_plain_clients(
    empty: PulseClientBuilder,
    default: PulseClientBuilder,
    url: &str,
    with_url: PulseClientBuilder,
    nothing: Result<PulseClient, PulseError>,
    nothing_either: Result<PulseClient, PulseError>,
    built: Result<PulseClient, PulseError>,
    client: PulseClient,
    base: &str,
    token: Option<String>,
    timeout: Duration,
    retry: &RetryPolicy,
    secs: u64,
    nanos: u32,
)
    requires
        call_ensures(PulseClient::builder, (), empty),
        call_ensures(<PulseClientBuilder as Default>::default, (), default),
        call_ensures(PulseClientBuilder::base_url, (empty, url), with_url),
        call_ensures(PulseClientBuilder::build, (empty,), nothing),
        call_ensures(PulseClientBuilder::build, (default,), nothing_either),
        call_ensures(PulseClientBuilder::build, (with_url,), built),
        shows(client, base, token, timeout, retry),
        call_ensures(Duration::as_secs, (&timeout,), secs),
        call_ensures(Duration::subsec_nanos, (&timeout,), nanos),
    ensures
        nothing matches Err(PulseError::InvalidConfig(t)) && t@ == "base_url is required"@,
        nothing_either matches Err(PulseError::InvalidConfig(t)) && t@ == "base_url is required"@,
        url@.len() == 0 ==> (built matches Err(PulseError::InvalidConfig(t)) && t@
            == "base_url cannot be empty"@),
        url@.len() > 0 ==> built is Ok,
        built == Ok::<PulseClient, PulseError>(client) ==> {
            &&& unslashed(url@, base@)
            &&& token is None
            &&& secs == 30
            &&& nanos == 0
            &&& by_default(*retry, 0)
        },
{
    lemma_unslashed(url@);
}

/// What is set of a client is what it has, and setting it changes nothing else.
pub proof fn law_built_clients(
    builder: PulseClientBuilder,
    text: &str,
    time: Duration,
    policy: RetryPolicy,
    changed: PulseClientBuilder,
    before: Result<PulseClient, PulseError>,
    after: Result<PulseClient, PulseError>,
    old_client: PulseClient,
    base: &str,
    token: Option<String>,
    timeout: Duration,
    retry: &RetryPolicy,
    client: PulseClient,
    new_base: &str,
    new_token: Option<String>,
    new_timeout: Duration,
    new_retry: &RetryPolicy,
)
    requires
        call_ensures(PulseClientBuilder::build, (builder,), before),
        call_ensures(PulseClientBuilder::build, (changed,), after),
        before == Ok::<PulseClient, PulseError>(old_client),
        after == Ok::<PulseClient, PulseError>(client),
        shows(old_client, base, token, timeout, retry),
        shows(client, new_base, new_token, new_timeout, new_retry),
    ensures
        call_ensures(PulseClientBuilder::base_url, (builder, text), changed) ==> {
            &&& unslashed(text@, new_base@)
            &&& token_text(new_token) == token_text(token)
        },
        call_ensures(PulseClientBuilder::token, (builder, text), changed) ==> {
            &&& new_base@ == base@
            &&& token_text(new_token) == Some(text@)
        },
        call_ensures(PulseClientBuilder::timeout, (builder, time), changed) ==> {
            &&& new_base@ == base@
            &&& token_text(new_token) == token_text(token)
            &&& new_timeout == time
        },
        call_ensures(PulseClientBuilder::retry, (builder, policy), changed) ==> {
            &&& new_base@ == base@
            &&& token_text(new_token) == token_text(token)
            &&& same_policy(*new_retry, policy)
        },
{
    lemma_unslashed(text@);
}

/// Settings of a client do not touch one another: the wait and the policy that were set stay so,
/// with whatever else is set after them.
pub proof fn law_settings_stay(
    builder: PulseClientBuilder,
    text: &str,
    time: Duration,
    policy: RetryPolicy,
    timed: PulseClientBuilder,
    ready: PulseClientBuilder,
    changed: PulseClientBuilder,
    client: PulseClient,
    base: &str,
    token: Option<String>,
    timeout: Duration,
    retry: &RetryPolicy,
)
    requires
        call_ensures(PulseClientBuilder::timeout, (builder, time), timed),
        call_ensures(PulseClientBuilder::retry, (timed, policy), ready),
        call_ensures(PulseClientBuilder::base_url, (ready, text), changed) || call_ensures(
            PulseClientBuilder::token,
            (ready, text),
            changed,
        ),
        call_ensures(
            PulseClientBuilder::build,
            (changed,),
            Ok::<PulseClient, PulseError>(client),
        ),
        shows(client, base, token, timeout, retry),
    ensures
        timeout == time,
        same_policy(*retry, policy),
{
}

/// A client can be built exactly where a URL was set that is not empty, whatever else was set.
pub proof fn law_buildable(
    builder: PulseClientBuilder,
    text: &str,
    time: Duration,
    policy: RetryPolicy,
    changed: PulseClientBuilder,
    before: Result<PulseClient, PulseError>,
    after: Result<PulseClient, PulseError>,
)
    requires
        call_ensures(PulseClientBuilder::build, (builder,), before),
        call_ensures(PulseClientBuilder::build, (changed,), after),
    ensures
        call_ensures(PulseClientBuilder::base_url, (builder, text), changed) ==> (after is Ok
            <==> text@.len() > 0),
        call_ensures(PulseClientBuilder::token, (builder, text), changed) ==> (after is Ok
            <==> before is Ok),
        call_ensures(PulseClientBuilder::timeout, (builder, time), changed) ==> (after is Ok
            <==> before is Ok),
        call_ensures(PulseClientBuilder::retry, (builder, policy), changed) ==> (after is Ok
            <==> before is Ok),
{
}

/// The client presents itself by its name and the version of the library.
pub proof fn law_user_agent()
    ensures
        USER_AGENT@ == "pulse-client-rust/"@ + VERSION@,
{
    reveal_strlit("pulse-client-rust/2.6.0");
    reveal_strlit("pulse-client-rust/");
    reveal_strlit("2.6.0");
    assert("pulse-client-rust/2.6.0"@ =~= "pulse-client-rust/"@ + "2.6.0"@);
}

// ----- tokens ----------------------------------------------------------------------------------

/// Whether two clients show the same, but for their tokens.
pub open spec fn same_but_token(a: PulseClient, b: PulseClient) -> bool {
    &&& a@.base_url == b@.base_url
    &&& a@.timeout == b@.timeout
    &&& a@.retry == b@.retry
}

/// A copy of the state of a client shows what the client shows.
pub proof fn law_snapshots(
    client: PulseClient,
    copy: PulseClient,
    token: Option<String>,
    copied: Option<String>,
)
    requires
        call_ensures(PulseClient::snapshot, (&client,), copy),
        call_ensures(PulseClient::token, (&client,), token),
        call_ensures(PulseClient::token, (&copy,), copied),
    ensures
        same_but_token(copy, client),
        token_text(copied) == token_text(token),
{
}

/// What a client shows of itself is what it is.
pub proof fn law_shown_state(
    client: PulseClient,
    base: &str,
    token: Option<String>,
    timeout: Duration,
    retry: &RetryPolicy,
)
    requires
        shows(client, base, token, timeout, retry),
    ensures
        base@ == client@.base_url,
        token_text(token) == client@.token,
        timeout == client@.timeout,
        retry.max_retries == client@.retry.max_retries,
        retry.backoff == client@.retry.backoff,
        retry.max_backoff == client@.retry.max_backoff,
        retry.on_status@ == client@.retry.on_status,
        retry.retry_non_idempotent == client@.retry.retry_non_idempotent,
{
}

/// A token that is set is the token from then on, and nothing else of the client changes.
pub proof fn law_setting_tokens(client: &mut PulseClient, text: &str, token: Option<String>)
    requires
        call_ensures(PulseClient::set_token, (client, text), ()),
        call_ensures(PulseClient::token, (&*final(client),), token),
    ensures
        token_text(token) == Some(text@),
        same_but_token(*final(client), *old(client)),
{
}

/// A token that is cleared is gone, and nothing else of the client changes.
pub proof fn law_clearing_tokens(client: &mut PulseClient, token: Option<String>)
    requires
        call_ensures(PulseClient::clear_token, (client,), ()),
        call_ensures(PulseClient::token, (&*final(client),), token),
    ensures
        token is None,
        same_but_token(*final(client), *old(client)),
{
}

/// The token that a client has after an answer: the text `token` of the answer, unless there is
/// none or it is empty; then it stays as it was.
pub open spec fn token_after(before: Option<String>, answer: Json, after: Option<String>) -> bool {
    match member_of(answer, "token"@) {
        Some(Json::Str(t)) => token_text(after) == if t.len() > 0 {
            Some(t)
        } else {
            token_text(before)
        },
        _ => token_text(after) == token_text(before),
    }
}

/// A client takes the token that an answer carries.
pub proof fn law_answered_tokens(
    client: &mut PulseClient,
    answer: &Value,
    before: Option<String>,
    after: Option<String>,
)
    requires
        call_ensures(PulseClient::token, (&*old(client),), before),
        call_ensures(cache_token, (client, answer), ()),
        call_ensures(PulseClient::token, (&*final(client),), after),
    ensures
        token_after(before, json_of(*answer), after),
        same_but_token(*final(client), *old(client)),
{
}

/// A login that succeeded leaves its token with the client, and one that failed changes nothing.
pub proof fn law_logins(
    client: &mut PulseClient,
    outcome: Result<&Value, &PulseError>,
    before: Option<String>,
    after: Option<String>,
)
    requires
        call_ensures(PulseClient::token, (&*old(client),), before),
        call_ensures(cache_outcome, (client, outcome), ()),
        call_ensures(PulseClient::token, (&*final(client),), after),
    ensures
        match outcome {
            Ok(answer) => token_after(before, json_of(*answer), after),
            Err(_) => token_text(after) == token_text(before),
        },
        same_but_token(*final(client), *old(client)),
{
}

} // verus!
