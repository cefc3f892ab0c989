//! Per-connection admission gate for a JSON-RPC server.
//!
//! A [`LimitMiddleware`] wraps a downstream request handler and, when built
//! with a requests-per-minute quota, screens every request against a shared
//! token bucket: admitted requests go on to the wrapped handler unchanged,
//! the others are answered at once with a "too many requests" error that
//! keeps the request's identifier.
mod gate;
mod laws;
mod middleware;
mod transport;

pub use gate::{QuotaError, RateGate};
pub use laws::{
    denials, lemma_denial_keeps_request, lemma_rate_limited_counts_denials,
    lemma_unlimited_passes_through, rate_limited_growth,
};
pub use middleware::{
    is_too_many_requests, quota_of, rate_limited_delta, screened, LimitMiddleware, Rejection, Screening,
    CELLS_PER_REQUEST, TOO_MANY_REQUESTS_CODE,
};
pub use transport::Transport;
