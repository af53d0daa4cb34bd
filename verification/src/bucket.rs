//! Token buckets: their stored state, their configuration, and how a bucket
//! is refilled over whole seconds.

use vstd::prelude::*;

verus! {

/// Usage state for a token bucket.
#[derive(Clone, Copy, Debug, PartialEq, Eq, Structural)]
pub struct Usage {
    /// Last whole-second ledger timestamp when tokens were refilled.
    pub last_update: u64,
    /// Current whole-token balance in the bucket.
    pub tokens: u32,
}

/// Configuration for a specific rate limit.
#[derive(Clone, Copy, Debug, PartialEq, Eq, Structural)]
pub struct LimitConfig {
    /// Maximum tokens the bucket can hold (burst capacity).
    pub burst: u32,
    /// Whole tokens added to the bucket per whole ledger second.
    pub refill_rate: u32,
}

/// Tokens credited for `elapsed` whole seconds at `refill_rate` tokens per
/// second.
pub open spec fn refill_credit(elapsed: int, refill_rate: u32) -> int {
    elapsed * refill_rate
}

/// `tokens` capped at `burst`.
pub open spec fn capped(tokens: int, burst: u32) -> u32 {
    if tokens > burst {
        burst
    } else {
        tokens as u32
    }
}

/// The bucket `usage` as it stands at time `now` under a limit of `burst`
/// tokens refilled at `refill_rate` per whole second: when at least one whole
/// second has passed, it is credited, capped at `burst`, and its timestamp
/// moves to `now`; otherwise it keeps its timestamp and is only capped at
/// `burst`.
pub open spec fn refilled(usage: Usage, now: u64, burst: u32, refill_rate: u32) -> Usage {
    if now > usage.last_update {
        Usage {
            last_update: now,
            tokens: capped(
                usage.tokens + refill_credit(now - usage.last_update, refill_rate),
                burst,
            ),
        }
    } else {
        Usage { last_update: usage.last_update, tokens: capped(usage.tokens as int, burst) }
    }
}

} // verus!
