//! Per-IP request rates of the routes: one request is replenished every
//! interval, up to a burst. Each client address has a quota of its own; the
//! address a request is counted under is the one `client_ip::choose_client_ip`
//! picks (the first `X-Forwarded-For` entry, else `X-Real-IP`, else the
//! connection's peer).

use vstd::prelude::*;

verus! {

/// A rate limit: one request replenished every `replenish_interval_ms`
/// milliseconds, up to a burst of `burst_size` requests.
#[derive(Clone, Copy, Debug, PartialEq, Eq, Structural)]
pub struct RateLimitPolicy {
    pub replenish_interval_ms: u64,
    pub burst_size: u32,
}

/// Steady rate of a policy, in requests per second.
pub open spec fn requests_per_second(p: RateLimitPolicy) -> int {
    1000int / (p.replenish_interval_ms as int)
}

/// Login: one request a second, bursts of five.
pub fn login_rate_limit() -> (res: RateLimitPolicy)
    ensures
        res == (RateLimitPolicy { replenish_interval_ms: 1000, burst_size: 5 }),
        requests_per_second(res) == 1,
{
    RateLimitPolicy { replenish_interval_ms: 1000, burst_size: 5 }
}

/// Second-factor verification: one request a second, bursts of five.
pub fn verify_2fa_rate_limit() -> (res: RateLimitPolicy)
    ensures
        res == (RateLimitPolicy { replenish_interval_ms: 1000, burst_size: 5 }),
        requests_per_second(res) == 1,
{
    RateLimitPolicy { replenish_interval_ms: 1000, burst_size: 5 }
}

/// Forgotten password: one request a second, bursts of three.
pub fn password_forgot_rate_limit() -> (res: RateLimitPolicy)
    ensures
        res == (RateLimitPolicy { replenish_interval_ms: 1000, burst_size: 3 }),
        requests_per_second(res) == 1,
{
    RateLimitPolicy { replenish_interval_ms: 1000, burst_size: 3 }
}

/// Every other limited route: ten requests a second, bursts of fifty.
pub fn general_rate_limit() -> (res: RateLimitPolicy)
    ensures
        res == (RateLimitPolicy { replenish_interval_ms: 100, burst_size: 50 }),
        requests_per_second(res) == 10,
{
    RateLimitPolicy { replenish_interval_ms: 100, burst_size: 50 }
}

} // verus!
