use crate::middleware::{quota_of, rate_limited_delta, screened, Screening, TOO_MANY_REQUESTS_CODE};
use vstd::prelude::*;

verus! {

/// A middleware built without a limit forwards every request exactly as it
/// came, whatever the request: its outcome is the wrapped handler's own.
pub proof fn lemma_unlimited_passes_through<R>(
    requests_per_minute_limit: Option<u32>,
    request: R,
    r: Screening<R>,
)
    requires
        requests_per_minute_limit is None,
        screened(quota_of(requests_per_minute_limit), request, r),
    ensures
        r == Screening::Forward(request),
{
}

/// A denied request is never handed on: the outcome holds the request
/// itself inside its rejection, with code 429 and message
/// "Too many requests", so its identifier is the one the request carried.
pub proof fn lemma_denial_keeps_request<R>(quota: Option<nat>, request: R, r: Screening<R>)
    requires
        screened(quota, request, r),
        r is Reject,
    ensures
        quota is Some,
        r->Reject_0.request == request,
        r->Reject_0.code == TOO_MANY_REQUESTS_CODE,
        r->Reject_0.message@ == "Too many requests"@,
{
}

/// The number of denials among `outcomes`.
pub open spec fn denials<R>(outcomes: Seq<Screening<R>>) -> nat
    decreases outcomes.len(),
{
    if outcomes.len() == 0 {
        0
    } else {
        denials(outcomes.drop_last()) + if outcomes.last() is Reject {
            1nat
        } else {
            0nat
        }
    }
}

/// The total growth of the `rate_limited` counter over `outcomes`.
pub open spec fn rate_limited_growth<R>(outcomes: Seq<Screening<R>>) -> nat
    decreases outcomes.len(),
{
    if outcomes.len() == 0 {
        0
    } else {
        rate_limited_growth(outcomes.drop_last()) + rate_limited_delta(outcomes.last())
    }
}

/// Over any run of requests, the `rate_limited` counter grows by exactly
/// the number of denials, and by nothing for admitted requests.
pub proof fn lemma_rate_limited_counts_denials<R>(outcomes: Seq<Screening<R>>)
    ensures
        rate_limited_growth(outcomes) == denials(outcomes),
    decreases outcomes.len(),
{
    if outcomes.len() > 0 {
        lemma_rate_limited_counts_denials(outcomes.drop_last());
    }
}

} // verus!
