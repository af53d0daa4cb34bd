# rate_limiter

A token-bucket rate limiter with per-address, per-contract and global buckets,
written in Verus.

- `src/bucket.rs`: bucket state (`Usage`), limits (`LimitConfig`) and the
  whole-second refill rule.
- `src/limiter.rs`: `RateLimiter`, its abstract state `LimiterState`, and the
  operations (initialize, configure, consume, reset, read), each with a
  contract over `LimiterState`.
- `src/laws.rs`: properties across operations and calls, proved: rejection
  debits nothing; a subject's served calls stay within its bucket capacity
  over time, with any calls by other subjects and any settings changes in
  between that keep the subject's limit and do not reset its usage; a
  contract budget, kept and not reset, caps all subjects together; override
  precedence; and more.
- `tests/`: the scenarios, run against the compiled library.
- `app/`: the Soroban contract that authenticates, reads and writes ledger
  storage and the ledger time, and calls the library for every decision.
