//! Laws of retries: which failures are tried again, how often, and after which wait.
use crate::duration::Duration;
use crate::error::PulseError;
use crate::retry::{
    backoff_ceiling, backoff_delay, ceiling_millis, is_idempotent, retry_delay, retry_step, Method,
    RetryPolicy, RetryStep,
};
use vstd::arithmetic::mul::{lemma_mul_is_associative, lemma_mul_is_commutative};
use vstd::arithmetic::power2::{lemma_pow2_unfold, pow2};
use vstd::prelude::*;

verus! {

// ----- spans of time ---------------------------------------------------------------------------

/// A span says what it was made of: seconds as seconds, milliseconds as milliseconds.
pub proof fn law_durations(
    n: u64,
    nanos: u32,
    d: Duration,
    secs: u64,
    sub: u32,
    millis: u128,
)
    requires
        call_ensures(Duration::as_secs, (&d,), secs),
        call_ensures(Duration::subsec_nanos, (&d,), sub),
        call_ensures(Duration::as_millis, (&d,), millis),
    ensures
        sub < 1_000_000_000,
        millis == secs * 1000 + sub / 1_000_000,
        call_ensures(Duration::from_secs, (n,), d) ==> secs == n && sub == 0,
        call_ensures(Duration::from_millis, (n,), d) ==> millis == n && sub % 1_000_000 == 0,
        call_ensures(Duration::new, (n, nanos), d) ==> secs * 1_000_000_000 + sub == n
            * 1_000_000_000 + nanos,
{
    assert((n % 1000) * 1_000_000 % 1_000_000 == 0) by (nonlinear_arith);
}

// ----- which failures are retried --------------------------------------------------------------

/// The methods that may be repeated without doing harm are GET, HEAD, PUT and DELETE.
pub open spec fn harmless(method: Method) -> bool {
    match method {
        Method::Get | Method::Head | Method::Put | Method::Delete => true,
        Method::Post | Method::Patch | Method::Options => false,
    }
}

/// Whether a failure is one that a retry can mend: a rate limit for any method; and a transport
/// failure, or a 5xx status that the policy lists, for the methods that may be repeated or where
/// the policy allows any.
pub open spec fn mendable(policy: RetryPolicy, method: Method, err: PulseError) -> bool {
    match err {
        PulseError::RateLimit { .. } => true,
        PulseError::Transport(_) => harmless(method) || policy.retry_non_idempotent,
        PulseError::Api { status, .. } => {
            &&& harmless(method) || policy.retry_non_idempotent
            &&& 500 <= status <= 599
            &&& exists|i: int| 0 <= i < policy.on_status@.len() && policy.on_status@[i] == status
        },
        _ => false,
    }
}

proof fn lemma_mendable(policy: RetryPolicy, method: Method, err: PulseError)
    ensures
        crate::retry::retryable(policy@, method, err@) == mendable(policy, method, err),
{
    if let PulseError::Api { status, .. } = err {
        if policy.on_status@.contains(status) {
            let i = choose|i: int| 0 <= i < policy.on_status@.len()
                && policy.on_status@[i] == status;
            assert(policy.on_status@[i] == status);
        }
    }
}

/// Exactly the failures that a retry can mend are retried.
pub proof fn law_mendable_failures_are_retried(
    policy: RetryPolicy,
    method: Method,
    err: PulseError,
    attempt: u32,
    entropy: u64,
    r: Option<Duration>,
)
    requires
        call_ensures(retry_delay, (&policy, method, &err, attempt, entropy), r),
    ensures
        r is Some <==> mendable(policy, method, err),
{
    lemma_mendable(policy, method, err);
}

/// A step goes on exactly where an attempt failed in a way that a retry can mend and retries are
/// left: then the next attempt is the one that follows, and the wait is that of the failure.
pub proof fn law_steps(
    policy: RetryPolicy,
    method: Method,
    failure: Option<&PulseError>,
    attempt: u32,
    entropy: u64,
    step: RetryStep,
    wait: Option<Duration>,
    span: u128,
    waited: u128,
)
    requires
        call_ensures(retry_step, (&policy, method, failure, attempt, entropy), step),
    ensures
        step is Retry <==> (failure matches Some(err) && attempt < policy.max_retries && mendable(
            policy,
            method,
            *err,
        )),
        step matches RetryStep::Retry { next_attempt, .. } ==> next_attempt == attempt + 1,
        failure matches Some(err) ==> (step matches RetryStep::Retry { delay, .. } ==> (call_ensures(
            retry_delay,
            (&policy, method, err, attempt, entropy),
            wait,
        ) && call_ensures(Duration::as_millis, (&delay,), span) && call_ensures(
            Duration::as_millis,
            (&wait->0,),
            waited,
        ) ==> span == waited)),
{
    if let Some(err) = failure {
        lemma_mendable(policy, method, *err);
    }
}

/// The methods that are taken as harmless are these four.
pub proof fn law_harmless_methods(method: Method, r: bool)
    requires
        call_ensures(is_idempotent, (method,), r),
    ensures
        r == harmless(method),
{
}

// ----- the wait --------------------------------------------------------------------------------

/// The wait that the server advised is honoured to the second.
pub proof fn law_advised_wait(
    policy: RetryPolicy,
    method: Method,
    err: PulseError,
    seconds: u32,
    attempt: u32,
    entropy: u64,
    r: Option<Duration>,
    millis: u128,
    sub: u32,
)
    requires
        err matches PulseError::RateLimit { retry_after_seconds, .. }
            && retry_after_seconds == Some(
            seconds,
        ),
        call_ensures(retry_delay, (&policy, method, &err, attempt, entropy), r),
        call_ensures(Duration::as_millis, (&r->0,), millis),
        call_ensures(Duration::subsec_nanos, (&r->0,), sub),
    ensures
        r is Some,
        millis == 1000 * seconds,
        sub == 0,
{
}

/// Without an advice the wait is the backoff of the attempt.
pub proof fn law_unadvised_wait(
    policy: RetryPolicy,
    method: Method,
    err: PulseError,
    attempt: u32,
    entropy: u64,
    r: Option<Duration>,
    millis: u128,
    backoff: Duration,
    backoff_millis: u128,
)
    requires
        !(err matches PulseError::RateLimit { retry_after_seconds: Some(_), .. }),
        call_ensures(retry_delay, (&policy, method, &err, attempt, entropy), r),
        r is Some,
        call_ensures(Duration::as_millis, (&r->0,), millis),
        call_ensures(backoff_delay, (&policy, attempt, entropy), backoff),
        call_ensures(Duration::as_millis, (&backoff,), backoff_millis),
    ensures
        millis == backoff_millis,
{
}

/// The backoff is a whole number of milliseconds up to the ceiling of the attempt, and every such
/// number is picked by some entropy.
pub proof fn law_full_jitter(
    policy: RetryPolicy,
    attempt: u32,
    entropy: u64,
    d: Duration,
    millis: u128,
    sub: u32,
    ceiling: u128,
)
    requires
        call_ensures(backoff_delay, (&policy, attempt, entropy), d),
        call_ensures(Duration::as_millis, (&d,), millis),
        call_ensures(Duration::subsec_nanos, (&d,), sub),
        call_ensures(backoff_ceiling, (&policy, attempt), ceiling),
    ensures
        millis <= ceiling,
        entropy <= ceiling ==> millis == entropy,
        exists|k: int| entropy == #[trigger] (k * (ceiling + 1)) + millis,
        sub % 1_000_000 == 0,
{
    let c = ceiling as int + 1;
    let e = entropy as int;
    assert(millis == e % c);
    assert(e == (e / c) * c + e % c) by (nonlinear_arith)
        requires
            c > 0,
    ;
    assert(e == ((e / c) * (ceiling + 1)) + millis);
    assert(0 <= e % c < c) by (nonlinear_arith)
        requires
            c > 0,
    ;
    if e < c {
        assert(e % c == e) by (nonlinear_arith)
            requires
                0 <= e < c,
        ;
    }
    let m = millis as int % 1000;
    assert(sub == m * 1_000_000);
    assert((m * 1_000_000) % 1_000_000 == 0) by (nonlinear_arith);
}

/// The ceiling starts at the base backoff and doubles with each attempt, up to the cap.
pub proof fn law_ceiling_doubles(
    policy: RetryPolicy,
    attempt: u32,
    base: u128,
    cap: u128,
    first: u128,
    here: u128,
    next: u128,
)
    requires
        attempt < u32::MAX,
        call_ensures(Duration::as_millis, (&policy.backoff,), base),
        call_ensures(Duration::as_millis, (&policy.max_backoff,), cap),
        call_ensures(backoff_ceiling, (&policy, 0u32), first),
        call_ensures(backoff_ceiling, (&policy, attempt), here),
        call_ensures(backoff_ceiling, (&policy, (attempt + 1) as u32), next),
    ensures
        first == if base < cap { base } else { cap },
        next == if 2 * here < cap { 2 * here } else { cap as int },
{
    assert(pow2(0) == 1) by {
        reveal(pow2);
        reveal(vstd::arithmetic::power::pow);
    }
    let k = attempt as nat;
    let b = policy.backoff.millis() as int;
    lemma_pow2_unfold(k + 1);
    assert(pow2(k + 1) == 2 * pow2(k));
    lemma_mul_is_associative(b, 2, pow2(k) as int);
    lemma_mul_is_commutative(b, 2);
    lemma_mul_is_associative(2, b, pow2(k) as int);
    assert(b * pow2(k + 1) == 2 * (b * pow2(k)));
    assert(b * pow2(0) == b);
    assert(ceiling_millis(policy@, 0) == first);
}

// ----- the policy ------------------------------------------------------------------------------

/// Whether a policy is the one by default but for its number of retries: a base backoff of 200 ms,
/// a cap of 10 s, the statuses 502, 503 and 504, and no repetition of what may do harm.
pub open spec fn by_default(policy: RetryPolicy, max_retries: u32) -> bool {
    &&& policy.max_retries == max_retries
    &&& forall|ms: u128| #[trigger]
        call_ensures(Duration::as_millis, (&policy.backoff,), ms) ==> ms == 200
    &&& forall|ms: u128| #[trigger]
        call_ensures(Duration::as_millis, (&policy.max_backoff,), ms) ==> ms == 10_000
    &&& forall|status: u16|
        policy.on_status@.contains(status) <==> status == 502 || status == 503 || status == 504
    &&& !policy.retry_non_idempotent
}

/// Retries are off by default, and turning them on changes nothing else.
pub proof fn law_default_policy(off: RetryPolicy, n: u32, on: RetryPolicy)
    requires
        call_ensures(<RetryPolicy as Default>::default, (), off),
        call_ensures(RetryPolicy::with_max_retries, (n,), on),
    ensures
        by_default(off, 0),
        by_default(on, n),
{
    let listed = seq![502u16, 503u16, 504u16];
    assert(listed[0] == 502 && listed[1] == 503 && listed[2] == 504);
    assert forall|status: u16| listed.contains(status) <==> status == 502 || status == 503 || status
        == 504 by {}
}

/// A copy of a policy decides as the policy does.
pub proof fn law_policy_copies(policy: RetryPolicy, copy: RetryPolicy)
    requires
        call_ensures(<RetryPolicy as Clone>::clone, (&policy,), copy),
    ensures
        copy.max_retries == policy.max_retries,
        copy.backoff == policy.backoff,
        copy.max_backoff == policy.max_backoff,
        copy.on_status@ == policy.on_status@,
        copy.retry_non_idempotent == policy.retry_non_idempotent,
{
}

} // verus!
