use governor::clock::DefaultClock;
use governor::middleware::NoOpMiddleware;
use governor::state::{InMemoryState, NotKeyed};
use governor::{Quota, RateLimiter};
use std::num::NonZeroU32;
use std::sync::Arc;
use vstd::prelude::*;

verus! {

/// A governor token bucket: unkeyed, in memory, on the real-time clock.
///
/// Verus refuses a declaration of governor's `RateLimiter` (its bounds name
/// governor's traits), so the bucket is held here, opaque, and reached only
/// through the functions below.
#[verifier::external_body]
#[derive(Debug)]
pub struct Bucket {
    limiter: RateLimiter<NotKeyed, InMemoryState, DefaultClock, NoOpMiddleware>,
}

/// The burst size of a bucket: the most cells it can ever hold, and the
/// cells it holds when fresh.
pub uninterp spec fn bucket_capacity(b: Bucket) -> nat;

/// Relies on governor's `Quota::per_minute` and `RateLimiter::direct`: a
/// fresh, full, unkeyed bucket on the default clock whose burst size is
/// `limit`, refilled at `limit` cells per 60 seconds.
#[verifier::external_body]
fn direct_bucket(limit: u32) -> (b: Bucket)
    requires
        limit > 0,
    ensures
        bucket_capacity(b) == limit,
{
    Bucket { limiter: RateLimiter::direct(Quota::per_minute(NonZeroU32::new(limit).unwrap())) }
}

/// Relies on governor's `RateLimiter::check_n`: takes `n` cells from the
/// bucket if it holds them now, and reports whether it did; a refusal takes
/// nothing. With `n` within the burst size the capacity error cannot occur.
/// The answer depends on the clock and on the checks made before, so
/// nothing is promised of it.
#[verifier::external_body]
fn check_cells(bucket: &Bucket, n: u32) -> (admitted: bool)
    requires
        0 < n <= bucket_capacity(*bucket),
{
    match bucket.limiter.check_n(NonZeroU32::new(n).unwrap()) {
        Ok(Ok(_)) => true,
        Ok(Err(_)) => false,
        Err(_) => false,
    }
}

/// Why a quota was refused.
#[derive(Debug, Clone, Copy, PartialEq, Eq, Structural)]
pub enum QuotaError {
    /// A quota of zero requests per minute admits nothing and is a
    /// configuration mistake.
    ZeroLimit,
}

impl QuotaError {
    /// A one-line description of the error.
    pub fn message(&self) -> (r: &'static str)
        ensures
            r@ == "requests per minute must be > 0"@,
    {
        proof {
            reveal_strlit("requests per minute must be > 0");
        }
        "requests per minute must be > 0"
    }
}

/// A shared token bucket of `quota()` requests per 60 seconds.
///
/// The bucket is held in shared ownership and synchronises itself, so the
/// gate may be checked from concurrent callers.
#[derive(Debug)]
pub struct RateGate {
    bucket: Arc<Bucket>,
    per_minute: u32,
}

impl RateGate {
    /// The number of requests per minute, which is also the bucket's capacity.
    pub closed spec fn quota(&self) -> nat {
        self.per_minute as nat
    }

    /// The capacity of the bucket itself.
    pub closed spec fn capacity(&self) -> nat {
        bucket_capacity(*self.bucket)
    }

    #[verifier::type_invariant]
    pub(crate) open spec fn inv(self) -> bool {
        &&& self.quota() > 0
        &&& self.capacity() == self.quota()
    }

    /// A fresh, full bucket of `requests_per_minute` cells, refilled at that
    /// rate per minute.
    pub fn new(requests_per_minute: u32) -> (g: RateGate)
        requires
            requests_per_minute > 0,
        ensures
            g.quota() == requests_per_minute,
            g.capacity() == requests_per_minute,
    {
        let bucket = direct_bucket(requests_per_minute);
        RateGate { bucket: Arc::new(bucket), per_minute: requests_per_minute }
    }

    /// As `new`, refusing a quota of zero.
    pub fn try_new(requests_per_minute: u32) -> (r: Result<RateGate, QuotaError>)
        ensures
            (r is Ok) <==> requests_per_minute > 0,
            r matches Ok(g) ==> g.quota() == requests_per_minute && g.capacity()
                == requests_per_minute,
            r matches Err(e) ==> e == QuotaError::ZeroLimit,
    {
        if requests_per_minute == 0 {
            return Err(QuotaError::ZeroLimit);
        }
        Ok(RateGate::new(requests_per_minute))
    }

    /// The quota this gate was built with.
    pub fn per_minute(&self) -> (r: u32)
        ensures
            r == self.quota(),
            r > 0,
    {
        proof {
            use_type_invariant(self);
        }
        self.per_minute
    }

    /// Asks the bucket for `cells` cells, at most its capacity. On `true`
    /// they are taken; on `false` the bucket is left as it was.
    pub fn try_acquire(&self, cells: u32) -> (admitted: bool)
        requires
            0 < cells <= self.quota(),
    {
        proof {
            use_type_invariant(self);
        }
        check_cells(&self.bucket, cells)
    }
}

} // verus!
