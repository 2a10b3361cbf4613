//! When a request that failed is tried again, and after which wait.
//!
//! Retries are off unless a policy turns them on. A rate limit (429) is waited out for any method;
//! the retryable 5xx statuses and transport failures are retried for idempotent methods only, so
//! that nothing is created twice.
use crate::duration::Duration;
use crate::error::{status_of, ErrorModel, PulseError};
use vstd::arithmetic::mul::{lemma_mul_inequality, lemma_mul_is_associative, lemma_mul_is_commutative};
use vstd::arithmetic::power2::{lemma_pow2_pos, lemma_pow2_strictly_increases, lemma_pow2_unfold, pow2};
use vstd::prelude::*;

verus! {

/// An HTTP method.
#[derive(Debug, Clone, Copy, PartialEq, Eq, Structural)]
pub enum Method {
    Get,
    Head,
    Post,
    Put,
    Patch,
    Delete,
    Options,
}

/// The methods that may be repeated without doing harm: GET, HEAD, PUT and DELETE.
pub open spec fn idempotent(method: Method) -> bool {
    method is Get || method is Head || method is Put || method is Delete
}

/// Whether `method` may be repeated without doing harm.
pub fn is_idempotent(method: Method) -> (r: bool)
    ensures
        r == idempotent(method),
{
    matches!(method, Method::Get | Method::Head | Method::Put | Method::Delete)
}

/// When and how often a failed request is retried. By default it is not: the client makes exactly
/// one attempt per request.
#[derive(Debug)]
pub struct RetryPolicy {
    /// The number of retries after the first attempt. `0` turns them off.
    pub max_retries: u32,
    /// The base backoff; the ceiling of an attempt is `backoff * 2^attempt`.
    pub backoff: Duration,
    /// The cap on every ceiling.
    pub max_backoff: Duration,
    /// The 5xx statuses that are retried.
    pub on_status: Vec<u16>,
    /// Whether methods that are not idempotent are retried on 5xx and transport failures too.
    pub retry_non_idempotent: bool,
}

/// The mathematical model of a [`RetryPolicy`].
pub struct PolicyModel {
    pub max_retries: u32,
    pub backoff: Duration,
    pub max_backoff: Duration,
    pub on_status: Seq<u16>,
    pub retry_non_idempotent: bool,
}

impl View for RetryPolicy {
    type V = PolicyModel;

    open spec fn view(&self) -> PolicyModel {
        PolicyModel {
            max_retries: self.max_retries,
            backoff: self.backoff,
            max_backoff: self.max_backoff,
            on_status: self.on_status@,
            retry_non_idempotent: self.retry_non_idempotent,
        }
    }
}

impl Clone for RetryPolicy {
    fn clone(&self) -> (r: Self)
        ensures
            r@ == self@,
    {
        let on_status = self.on_status.clone();
        assert(on_status@ =~= self.on_status@);
        RetryPolicy {
            max_retries: self.max_retries,
            backoff: self.backoff,
            max_backoff: self.max_backoff,
            on_status,
            retry_non_idempotent: self.retry_non_idempotent,
        }
    }
}

/// The policy that a client has by default, with the given number of retries: 200 ms base backoff,
/// 10 s cap, and 502, 503, 504 as the retryable statuses.
pub open spec fn standard_policy(policy: PolicyModel, max_retries: u32) -> bool {
    &&& policy.max_retries == max_retries
    &&& policy.backoff.secs() == 0 && policy.backoff.nanos() == 200_000_000
    &&& policy.max_backoff.secs() == 10 && policy.max_backoff.nanos() == 0
    &&& policy.on_status == seq![502u16, 503u16, 504u16]
    &&& !policy.retry_non_idempotent
}

impl Default for RetryPolicy {
    fn default() -> (r: Self)
        ensures
            standard_policy(r@, 0),
    {
        RetryPolicy::with_max_retries(0)
    }
}

impl RetryPolicy {
    /// The policy with up to `max_retries` retries and all else as by default.
    pub fn with_max_retries(max_retries: u32) -> (r: Self)
        ensures
            standard_policy(r@, max_retries),
    {
        let on_status: Vec<u16> = vec![502, 503, 504];
        assert(on_status@ =~= seq![502u16, 503u16, 504u16]);
        RetryPolicy {
            max_retries,
            backoff: Duration::from_millis(200),
            max_backoff: Duration::from_secs(10),
            on_status,
            retry_non_idempotent: false,
        }
    }
}

// ----- the wait before a retry -----------------------------------------------------------------

/// The longest wait in milliseconds after attempt number `attempt`, which counts from 0.
pub open spec fn ceiling_millis(policy: PolicyModel, attempt: u32) -> nat {
    let grown = policy.backoff.millis() * pow2(attempt as nat);
    if grown < policy.max_backoff.millis() {
        grown
    } else {
        policy.max_backoff.millis()
    }
}

/// The ceiling of the wait after attempt number `attempt`, in milliseconds.
pub fn backoff_ceiling(policy: &RetryPolicy, attempt: u32) -> (r: u128)
    ensures
        r == ceiling_millis(policy@, attempt),
{
    let base: u128 = policy.backoff.as_millis();
    let cap: u128 = policy.max_backoff.as_millis();
    let mut grown: u128 = base;
    let mut i: u32 = 0;
    assert(pow2(0) == 1) by {
        reveal(pow2);
        reveal(vstd::arithmetic::power::pow);
    }
    while i < attempt && 0 < grown && grown < cap
        invariant
            i <= attempt,
            grown == base * pow2(i as nat),
            cap == policy.max_backoff.millis(),
        decreases attempt - i,
    {
        proof {
            lemma_pow2_unfold((i + 1) as nat);
            lemma_mul_is_associative(base as int, 2, pow2(i as nat) as int);
            lemma_mul_is_commutative(base as int, 2);
            lemma_mul_is_associative(2, base as int, pow2(i as nat) as int);
        }
        grown = grown * 2;
        i += 1;
    }
    proof {
        if i < attempt {
            lemma_pow2_strictly_increases(i as nat, attempt as nat);
            lemma_mul_inequality(pow2(i as nat) as int, pow2(attempt as nat) as int, base as int);
            lemma_mul_is_commutative(pow2(i as nat) as int, base as int);
            lemma_mul_is_commutative(pow2(attempt as nat) as int, base as int);
            lemma_pow2_pos(i as nat);
            if grown == 0 {
                assert(base == 0) by (nonlinear_arith)
                    requires
                        base * pow2(i as nat) == 0,
                        pow2(i as nat) > 0,
                ;
                assert(base * pow2(attempt as nat) == 0) by (nonlinear_arith)
                    requires
                        base == 0,
                ;
            }
        }
    }
    if grown < cap {
        grown
    } else {
        cap
    }
}

/// The wait with full jitter: a whole number of milliseconds from 0 up to the ceiling of the
/// attempt, picked by `entropy`.
pub fn backoff_delay(policy: &RetryPolicy, attempt: u32, entropy: u64) -> (r: Duration)
    ensures
        r.millis() == entropy as nat % (ceiling_millis(policy@, attempt) + 1),
        r.nanos() == (r.millis() % 1000) * 1_000_000,
{
    let ceiling = backoff_ceiling(policy, attempt);
    assert(ceiling_millis(policy@, attempt) <= policy.max_backoff.millis());
    let picked: u128 = entropy as u128 % (ceiling + 1);
    assert(picked <= entropy as u128) by (nonlinear_arith)
        requires
            picked == entropy as u128 % (ceiling + 1) as u128,
            ceiling + 1 <= u128::MAX,
    ;
    Duration::from_millis(picked as u64)
}

// ----- which failures are retried --------------------------------------------------------------

/// Whether the failure `e` of a request with `method` is one that a retry can mend.
pub open spec fn retryable(policy: PolicyModel, method: Method, e: ErrorModel) -> bool {
    match e {
        ErrorModel::RateLimit { .. } => true,
        ErrorModel::Api { status, .. } => (idempotent(method) || policy.retry_non_idempotent)
            && 500 <= status < 600 && policy.on_status.contains(status),
        ErrorModel::Transport(_) => idempotent(method) || policy.retry_non_idempotent,
        _ => false,
    }
}

/// The wait in milliseconds before the retry: what the server advised with a rate limit, else the
/// jittered backoff.
pub open spec fn delay_millis(
    policy: PolicyModel,
    e: ErrorModel,
    attempt: u32,
    entropy: u64,
) -> nat {
    match e {
        ErrorModel::RateLimit { retry_after_seconds: Some(s), .. } => (s * 1000) as nat,
        _ => entropy as nat % (ceiling_millis(policy, attempt) + 1),
    }
}

fn holds_status(statuses: &Vec<u16>, status: u16) -> (r: bool)
    ensures
        r == statuses@.contains(status),
{
    let mut i: usize = 0;
    while i < statuses.len()
        invariant
            i <= statuses.len(),
            forall|j: int| 0 <= j < i ==> statuses@[j] != status,
        decreases statuses.len() - i,
    {
        if statuses[i] == status {
            return true;
        }
        i += 1;
    }
    false
}

/// The wait before `err` is retried, where it is one that is retried. A rate limit is retried for
/// any method, after the wait that the server advised; the 5xx statuses of the policy and transport
/// failures for idempotent methods, unless the policy has it otherwise.
pub fn retry_delay(
    policy: &RetryPolicy,
    method: Method,
    err: &PulseError,
    attempt: u32,
    entropy: u64,
) -> (r: Option<Duration>)
    ensures
        r is Some == retryable(policy@, method, err@),
        r matches Some(d) ==> d.millis() == delay_millis(policy@, err@, attempt, entropy)
            && d.nanos() == (d.millis() % 1000) * 1_000_000,
{
    if let PulseError::RateLimit { retry_after_seconds, .. } = err {
        return match retry_after_seconds {
            Some(s) => Some(Duration::from_secs(*s as u64)),
            None => Some(backoff_delay(policy, attempt, entropy)),
        };
    }
    if !is_idempotent(method) && !policy.retry_non_idempotent {
        return None;
    }
    match err {
        PulseError::Api { status, .. } => {
            if 500 <= *status && *status < 600 && holds_status(&policy.on_status, *status) {
                Some(backoff_delay(policy, attempt, entropy))
            } else {
                None
            }
        },
        PulseError::Transport(_) => Some(backoff_delay(policy, attempt, entropy)),
        _ => None,
    }
}

/// What to do after an attempt.
#[derive(Debug)]
pub enum RetryStep {
    /// Report the outcome of the attempt.
    Finish,
    /// Wait, and make one more attempt.
    Retry { delay: Duration, next_attempt: u32 },
}

/// Whether another attempt follows attempt number `attempt`, whose outcome was `failure` or success.
pub open spec fn goes_on(
    policy: PolicyModel,
    method: Method,
    failure: Option<ErrorModel>,
    attempt: nat,
) -> bool {
    match failure {
        None => false,
        Some(e) => attempt < policy.max_retries && retryable(policy, method, e),
    }
}

/// The model of a failure that may be absent.
pub open spec fn opt_error(e: Option<&PulseError>) -> Option<ErrorModel> {
    match e {
        Some(err) => Some(err@),
        None => None,
    }
}

/// What follows attempt number `attempt`, which counts from 0. A success is final, and so is a
/// failure when the retries are used up or cannot help.
pub fn retry_step(
    policy: &RetryPolicy,
    method: Method,
    failure: Option<&PulseError>,
    attempt: u32,
    entropy: u64,
) -> (r: RetryStep)
    ensures
        match r {
            RetryStep::Finish => !goes_on(policy@, method, opt_error(failure), attempt as nat),
            RetryStep::Retry { delay, next_attempt } => {
                &&& goes_on(policy@, method, opt_error(failure), attempt as nat)
                &&& failure matches Some(e) && delay.millis() == delay_millis(
                    policy@,
                    e@,
                    attempt,
                    entropy,
                ) && delay.nanos() == (delay.millis() % 1000) * 1_000_000
                &&& next_attempt == attempt + 1
            },
        },
{
    let err = match failure {
        None => {
            return RetryStep::Finish;
        },
        Some(e) => e,
    };
    if attempt >= policy.max_retries {
        return RetryStep::Finish;
    }
    match retry_delay(policy, method, err, attempt, entropy) {
        Some(delay) => RetryStep::Retry { delay, next_attempt: attempt + 1 },
        None => RetryStep::Finish,
    }
}

// ----- laws ------------------------------------------------------------------------------------

/// The number of attempts that a request takes, given how each attempt would end.
pub open spec fn attempts(
    policy: PolicyModel,
    method: Method,
    outcomes: Seq<Option<ErrorModel>>,
    attempt: nat,
) -> nat
    decreases outcomes.len() - attempt,
{
    if attempt < outcomes.len() && goes_on(policy, method, outcomes[attempt as int], attempt) {
        attempts(policy, method, outcomes, attempt + 1)
    } else {
        attempt + 1
    }
}

/// With retries off there is exactly one attempt, however it ends.
pub proof fn law_off_means_one_attempt(
    policy: PolicyModel,
    method: Method,
    outcomes: Seq<Option<ErrorModel>>,
)
    requires
        policy.max_retries == 0,
    ensures
        attempts(policy, method, outcomes, 0) == 1,
{
}

/// There are never more than `max_retries` attempts after the first.
pub proof fn law_attempts_are_bounded(
    policy: PolicyModel,
    method: Method,
    outcomes: Seq<Option<ErrorModel>>,
)
    ensures
        1 <= attempts(policy, method, outcomes, 0) <= policy.max_retries + 1,
{
    lemma_attempts_are_bounded(policy, method, outcomes, 0);
}

proof fn lemma_attempts_are_bounded(
    policy: PolicyModel,
    method: Method,
    outcomes: Seq<Option<ErrorModel>>,
    attempt: nat,
)
    requires
        attempt <= policy.max_retries,
    ensures
        attempt < attempts(policy, method, outcomes, attempt) <= policy.max_retries + 1,
    decreases outcomes.len() - attempt,
{
    if attempt < outcomes.len() && goes_on(policy, method, outcomes[attempt as int], attempt) {
        lemma_attempts_are_bounded(policy, method, outcomes, attempt + 1);
    }
}

/// The first success is the last attempt.
pub proof fn law_success_ends_it(
    policy: PolicyModel,
    method: Method,
    outcomes: Seq<Option<ErrorModel>>,
    k: nat,
)
    requires
        k < outcomes.len(),
        outcomes[k as int] is None,
    ensures
        attempts(policy, method, outcomes, 0) <= k + 1,
{
    lemma_success_ends_it(policy, method, outcomes, k, 0);
}

proof fn lemma_success_ends_it(
    policy: PolicyModel,
    method: Method,
    outcomes: Seq<Option<ErrorModel>>,
    k: nat,
    attempt: nat,
)
    requires
        attempt <= k < outcomes.len(),
        outcomes[k as int] is None,
    ensures
        attempts(policy, method, outcomes, attempt) <= k + 1,
    decreases k - attempt,
{
    if attempt < k {
        lemma_success_ends_it(policy, method, outcomes, k, attempt + 1);
    }
}

/// A rate limit is retried for any method as long as retries are left.
pub proof fn law_rate_limit_is_retried(
    policy: PolicyModel,
    method: Method,
    e: ErrorModel,
    attempt: nat,
)
    requires
        e is RateLimit,
        attempt < policy.max_retries,
    ensures
        goes_on(policy, method, Some(e), attempt),
{
}

/// The wait that the server advised is honoured to the second, whatever the attempt and the jitter.
pub proof fn law_advised_wait_is_honoured(
    policy: PolicyModel,
    e: ErrorModel,
    seconds: u32,
    attempt: u32,
    entropy: u64,
)
    requires
        e matches ErrorModel::RateLimit { retry_after_seconds, .. } && retry_after_seconds == Some(
            seconds,
        ),
    ensures
        delay_millis(policy, e, attempt, entropy) == seconds * 1000,
{
}

/// Unless the policy allows it, a request that is not idempotent is repeated after a rate limit
/// only, so nothing that the server may have processed is sent twice.
pub proof fn law_no_silent_duplicates(
    policy: PolicyModel,
    method: Method,
    e: ErrorModel,
    attempt: nat,
)
    requires
        !idempotent(method),
        !policy.retry_non_idempotent,
        goes_on(policy, method, Some(e), attempt),
    ensures
        e is RateLimit,
{
}

/// A terminal 4xx, which is any but a rate limit, is never retried, whatever the policy lists.
pub proof fn law_terminal_errors_are_final(
    policy: PolicyModel,
    method: Method,
    e: ErrorModel,
    attempt: nat,
)
    requires
        status_of(e) matches Some(s) && 400 <= s < 500 && s != 429,
    ensures
        !goes_on(policy, method, Some(e), attempt),
{
}

/// The backoff never exceeds the cap, nor what the base has grown to.
pub proof fn law_backoff_is_bounded(
    policy: PolicyModel,
    e: ErrorModel,
    attempt: u32,
    entropy: u64,
)
    requires
        !(e matches ErrorModel::RateLimit { retry_after_seconds: Some(_), .. }),
    ensures
        delay_millis(policy, e, attempt, entropy) <= policy.max_backoff.millis(),
        delay_millis(policy, e, attempt, entropy) <= policy.backoff.millis() * pow2(attempt as nat),
{
}

} // verus!
