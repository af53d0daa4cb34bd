//! Per-address, per-contract and global rate limiting with token buckets.
//!
//! The limiter keeps the state of every bucket as plain values and moves it
//! forward one request at a time. Each bucket holds up to `burst` whole tokens
//! and earns `refill_rate` whole tokens per whole elapsed second; a served
//! request takes one token from every bucket that is enforced for it, and a
//! rejected request takes none.

pub mod bucket;
pub mod limiter;

pub use bucket::{LimitConfig, Usage};
pub use limiter::{AddressId, ConsumptionOutcome, LimiterState, RateLimitError, RateLimiter};
pub mod laws;
