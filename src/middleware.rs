use crate::gate::{QuotaError, RateGate};
use crate::transport::Transport;
use vstd::prelude::*;

verus! {

/// The cells a single request takes from the bucket; a request is never a
/// batch at this stage.
pub const CELLS_PER_REQUEST: u32 = 1;

/// The JSON-RPC error code of a request turned away by the limiter.
pub const TOO_MANY_REQUESTS_CODE: i32 = 429;

/// The limit a middleware enforces, given the limit it was asked for:
/// none, or that many requests per minute.
pub open spec fn quota_of(requests_per_minute_limit: Option<u32>) -> Option<nat> {
    match requests_per_minute_limit {
        Some(n) => Some(n as nat),
        None => None,
    }
}

/// The answer to a request that the limiter turned away: error code 429,
/// message "Too many requests", no data, and the request itself, so that the
/// reply carries the request's own identifier.
#[derive(Debug)]
pub struct Rejection<R> {
    pub request: R,
    pub code: i32,
    pub message: &'static str,
}

/// `rej` is the "too many requests" answer to `request`.
pub open spec fn is_too_many_requests<R>(rej: Rejection<R>, request: R) -> bool {
    &&& rej.request == request
    &&& rej.code == TOO_MANY_REQUESTS_CODE
    &&& rej.message@ == "Too many requests"@
}

impl<R> Rejection<R> {
    /// The "too many requests" answer to `request`.
    pub fn too_many_requests(request: R) -> (r: Rejection<R>)
        ensures
            is_too_many_requests(r, request),
    {
        proof {
            reveal_strlit("Too many requests");
        }
        Rejection { request, code: TOO_MANY_REQUESTS_CODE, message: "Too many requests" }
    }
}

/// `r` is a possible outcome of screening `request` under `quota`: without a
/// quota the request is forwarded as it came; with one it is either forwarded
/// as it came or answered with the "too many requests" rejection.
pub open spec fn screened<R>(quota: Option<nat>, request: R, r: Screening<R>) -> bool {
    match r {
        Screening::Forward(q) => q == request,
        Screening::Reject(rej) => quota is Some && is_too_many_requests(rej, request),
    }
}

/// What becomes of one request.
#[derive(Debug)]
pub enum Screening<R> {
    /// Admitted: the request goes on, unchanged, to the wrapped handler.
    Forward(R),
    /// Denied: the request is answered at once and the wrapped handler never
    /// sees it.
    Reject(Rejection<R>),
}

/// How much the `rate_limited` counter of the request's transport grows
/// when a request ends as `s`: one for each denial, nothing otherwise.
pub open spec fn rate_limited_delta<R>(s: Screening<R>) -> nat {
    match s {
        Screening::Reject(_) => 1,
        Screening::Forward(_) => 0,
    }
}

impl<R> Screening<R> {
    /// The growth of the `rate_limited` counter that this outcome calls for.
    pub fn rate_limited_increment(&self) -> (r: u64)
        ensures
            r == rate_limited_delta(*self),
    {
        match self {
            Screening::Reject(_) => 1,
            Screening::Forward(_) => 0,
        }
    }

    /// The growth of the `rejected` counter that this outcome calls for; no
    /// outcome of the limiter itself counts there.
    pub fn rejected_increment(&self) -> (r: u64)
        ensures
            r == 0,
    {
        0
    }
}

/// A request handler that wraps `inner` and, when given a quota, admits at
/// most that many requests per minute to it.
///
/// The quota is fixed when the middleware is built: a middleware without one
/// never turns a request away.
#[derive(Debug)]
pub struct LimitMiddleware<S> {
    inner: S,
    rate_limiter: Option<RateGate>,
    transport: Transport,
}

impl<S> LimitMiddleware<S> {
    /// The wrapped handler.
    pub closed spec fn inner_handler(&self) -> S {
        self.inner
    }

    /// The quota in requests per minute, if any.
    pub closed spec fn quota(&self) -> Option<nat> {
        match self.rate_limiter {
            Some(g) => Some(g.quota()),
            None => None,
        }
    }

    /// The transport whose metrics this middleware records.
    pub closed spec fn transport_spec(&self) -> Transport {
        self.transport
    }

    /// Wraps `inner`, with a fresh bucket of `requests_per_minute_limit`
    /// requests per minute when one is given. A limit of zero is a
    /// configuration mistake that callers rule out.
    pub fn new(inner: S, requests_per_minute_limit: Option<u32>) -> (m: Self)
        requires
            requests_per_minute_limit != Some(0u32),
        ensures
            m.inner_handler() == inner,
            m.quota() == quota_of(requests_per_minute_limit),
            m.transport_spec() == Transport::Ws,
    {
        let rate_limiter = match requests_per_minute_limit {
            Some(limit) => Some(RateGate::new(limit)),
            None => None,
        };
        LimitMiddleware { inner, rate_limiter, transport: Transport::Ws }
    }

    /// As `new`, refusing a limit of zero.
    pub fn try_new(inner: S, requests_per_minute_limit: Option<u32>) -> (r: Result<
        Self,
        QuotaError,
    >)
        ensures
            (r is Err) <==> requests_per_minute_limit == Some(0u32),
            r matches Err(e) ==> e == QuotaError::ZeroLimit,
            r matches Ok(m) ==> {
                &&& m.inner_handler() == inner
                &&& m.quota() == quota_of(requests_per_minute_limit)
                &&& m.transport_spec() == Transport::Ws
            },
    {
        if requests_per_minute_limit == Some(0u32) {
            return Err(QuotaError::ZeroLimit);
        }
        Ok(LimitMiddleware::new(inner, requests_per_minute_limit))
    }

    /// The wrapped handler.
    pub fn inner(&self) -> (r: &S)
        ensures
            *r == self.inner_handler(),
    {
        &self.inner
    }

    /// The transport whose metrics this middleware records.
    pub fn transport(&self) -> (r: Transport)
        ensures
            r == self.transport_spec(),
    {
        self.transport
    }

    /// The quota in requests per minute, if any.
    pub fn requests_per_minute_limit(&self) -> (r: Option<u32>)
        ensures
            quota_of(r) == self.quota(),
    {
        match &self.rate_limiter {
            Some(gate) => Some(gate.per_minute()),
            None => None,
        }
    }

    /// What becomes of `request` once the bucket has answered `admitted`.
    ///
    /// Without a quota, or with the cell granted, the request is forwarded
    /// as it came; with the cell refused, it is answered with the
    /// "too many requests" rejection, which keeps it, and is not forwarded.
    pub fn decide<R>(&self, request: R, admitted: bool) -> (r: Screening<R>)
        ensures
            (self.quota() is None || admitted) ==> r == Screening::Forward(request),
            (self.quota() is Some && !admitted) ==> (r matches Screening::Reject(rej)
                && is_too_many_requests(rej, request)),
    {
        if self.rate_limiter.is_none() || admitted {
            Screening::Forward(request)
        } else {
            Screening::Reject(Rejection::too_many_requests(request))
        }
    }

    /// Screens `request`: without a quota it is forwarded as it came; with
    /// one, `CELLS_PER_REQUEST` cells are asked of the bucket and `decide`
    /// settles the outcome from the answer.
    pub fn screen<R>(&self, request: R) -> (r: Screening<R>)
        ensures
            screened(self.quota(), request, r),
            self.quota() is None ==> r == Screening::Forward(request),
    {
        let admitted = match &self.rate_limiter {
            Some(gate) => {
                proof {
                    use_type_invariant(gate);
                }
                gate.try_acquire(CELLS_PER_REQUEST)
            },
            None => true,
        };
        self.decide(request, admitted)
    }
}

} // verus!
