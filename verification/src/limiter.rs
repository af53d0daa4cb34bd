//! The rate limiter's state and its operations.
//!
//! Addresses (subjects, integrating contracts and the admin) are identified
//! by a `u64` handle: the limiter only ever compares them and looks buckets
//! up by them. The current ledger time is handed in as whole seconds by the
//! operations that refill buckets.

use std::collections::HashMap;
use vstd::prelude::*;

use crate::bucket::{refilled, LimitConfig, Usage};

verus! {

broadcast use vstd::std_specs::hash::group_hash_axioms;

/// Handle of an address: a subject, an integrating contract or the admin.
pub type AddressId = u64;

/// Typed errors reported at the rate limiter boundary.
///
/// Exhaustion is always reported through this type: a successful call returns
/// [`ConsumptionOutcome`], so a zero token balance can never be mistaken for a
/// rejection (and vice versa).
#[derive(Clone, Copy, Debug, PartialEq, Eq, Structural)]
pub enum RateLimitError {
    /// At least one enforced bucket (global, per-contract, or per-address) held
    /// no tokens, so the call was rejected. No bucket is debited when this is
    /// returned.
    RateLimitExceeded,
}

/// Result of a successful consumption.
#[derive(Clone, Copy, Debug, PartialEq, Eq)]
pub struct ConsumptionOutcome {
    /// Subject's token balance after this call consumed one token.
    ///
    /// `u32::MAX` signals the admin bypass (the subject is exempt and its
    /// allowance is effectively unlimited).
    pub remaining: u32,
    /// Whole seconds until the subject's bucket next holds at least one token.
    ///
    /// `Some(0)` means a token is available now, `Some(1)` means the bucket is
    /// empty and the next whole-second tick refills it, and `None` means the
    /// bucket is empty and the configured refill rate is zero.
    pub refill_in_seconds: Option<u64>,
}

/// The abstract state of a [`RateLimiter`]: every stored setting and bucket.
#[verifier::ext_equal]
pub struct LimiterState {
    /// The admin; present exactly when the limiter has been initialized.
    pub admin: Option<AddressId>,
    /// Whether the admin is exempt from every limit.
    pub admin_bypass: bool,
    /// The limit of addresses without an override.
    pub default_limit: LimitConfig,
    /// Whether the global bucket is enforced.
    pub global_enabled: bool,
    /// The limit of the global bucket.
    pub global_limit: LimitConfig,
    /// The stored global bucket, if one has been recorded.
    pub global_usage: Option<Usage>,
    /// Per-address limit overrides.
    pub limits: Map<AddressId, LimitConfig>,
    /// Stored per-address buckets.
    pub usage: Map<AddressId, Usage>,
    /// Per-contract budgets.
    pub contract_limits: Map<AddressId, LimitConfig>,
    /// Stored per-contract buckets.
    pub contract_usage: Map<AddressId, Usage>,
}

/// `Some(0)` when a token is left, `None` when the bucket is empty and never
/// refills, `Some(1)` when it is empty and refills on the next whole second.
pub open spec fn refill_wait(remaining: u32, refill_rate: u32) -> Option<u64> {
    if remaining > 0 {
        Some(0)
    } else if refill_rate == 0 {
        None
    } else {
        Some(1)
    }
}

/// The bucket as it stands at `now`: the stored one, or a full fresh bucket
/// when none is stored, refilled to `now`.
pub open spec fn bucket_at(stored: Option<Usage>, now: u64, limit: LimitConfig) -> Usage {
    let start = match stored {
        Some(u) => u,
        None => Usage { last_update: now, tokens: limit.burst },
    };
    refilled(start, now, limit.burst, limit.refill_rate)
}

/// The bucket after one token was taken from it.
pub open spec fn debited(usage: Usage) -> Usage {
    Usage { last_update: usage.last_update, tokens: (usage.tokens - 1) as u32 }
}

impl LimiterState {
    /// The state after `initialize(admin, default_burst, default_refill_rate, admin_bypass)`.
    pub open spec fn initialized_with(
        self,
        admin: AddressId,
        default_burst: u32,
        default_refill_rate: u32,
        admin_bypass: bool,
    ) -> LimiterState {
        LimiterState {
            admin: Some(admin),
            admin_bypass,
            default_limit: LimitConfig { burst: default_burst, refill_rate: default_refill_rate },
            ..self
        }
    }

    /// The state with the global limit set to `enabled`, `limit`.
    pub open spec fn with_global_limit(self, enabled: bool, limit: LimitConfig) -> LimiterState {
        LimiterState { global_enabled: enabled, global_limit: limit, ..self }
    }

    /// The state with the override of `addr` set to `limit`.
    pub open spec fn with_limit(self, addr: AddressId, limit: LimitConfig) -> LimiterState {
        LimiterState { limits: self.limits.insert(addr, limit), ..self }
    }

    /// The state without an override for `addr`.
    pub open spec fn without_limit(self, addr: AddressId) -> LimiterState {
        LimiterState { limits: self.limits.remove(addr), ..self }
    }

    /// The state with the budget of `contract` set to `limit`.
    pub open spec fn with_contract_limit(self, contract: AddressId, limit: LimitConfig) -> LimiterState {
        LimiterState { contract_limits: self.contract_limits.insert(contract, limit), ..self }
    }

    /// The state without a budget for `contract`.
    pub open spec fn without_contract_limit(self, contract: AddressId) -> LimiterState {
        LimiterState { contract_limits: self.contract_limits.remove(contract), ..self }
    }

    /// The state without recorded usage for `addr`.
    pub open spec fn usage_reset(self, addr: AddressId) -> LimiterState {
        LimiterState { usage: self.usage.remove(addr), ..self }
    }

    /// The state without recorded contract-scoped usage for `contract`.
    pub open spec fn contract_usage_reset(self, contract: AddressId) -> LimiterState {
        LimiterState { contract_usage: self.contract_usage.remove(contract), ..self }
    }

    /// The state with `admin` as its admin.
    pub open spec fn with_admin(self, admin: AddressId) -> LimiterState {
        LimiterState { admin: Some(admin), ..self }
    }

    /// Whether the limiter has been initialized.
    pub open spec fn initialized(self) -> bool {
        self.admin is Some
    }

    /// The limit that governs `addr`: its override, or else the default.
    pub open spec fn limit_for(self, addr: AddressId) -> LimitConfig {
        if self.limits.contains_key(addr) {
            self.limits[addr]
        } else {
            self.default_limit
        }
    }

    /// The stored bucket of `addr`, refilled to `now` against its limit.
    pub open spec fn usage_at(self, addr: AddressId, now: u64) -> Option<Usage> {
        if self.usage.contains_key(addr) {
            let limit = self.limit_for(addr);
            Some(refilled(self.usage[addr], now, limit.burst, limit.refill_rate))
        } else {
            None
        }
    }

    /// The stored bucket of `contract`, refilled to `now` against its budget;
    /// `None` when no budget is set or no bucket is stored.
    pub open spec fn contract_usage_at(self, contract: AddressId, now: u64) -> Option<Usage> {
        if self.contract_limits.contains_key(contract) && self.contract_usage.contains_key(
            contract,
        ) {
            let limit = self.contract_limits[contract];
            Some(refilled(self.contract_usage[contract], now, limit.burst, limit.refill_rate))
        } else {
            None
        }
    }

    /// Whether `subject` is exempt from every limit.
    pub open spec fn bypassed(self, subject: AddressId) -> bool {
        self.admin_bypass && self.admin == Some(subject)
    }

    /// The global bucket as checked at `now`.
    pub open spec fn global_bucket(self, now: u64) -> Usage {
        bucket_at(self.global_usage, now, self.global_limit)
    }

    /// The bucket of `subject` as checked at `now`.
    pub open spec fn address_bucket(self, subject: AddressId, now: u64) -> Usage {
        bucket_at(self.usage.get(subject), now, self.limit_for(subject))
    }

    /// Whether a call through `contract` is held to a contract budget.
    pub open spec fn contract_enforced(self, contract: Option<AddressId>) -> bool {
        contract matches Some(c) && self.contract_limits.contains_key(c)
    }

    /// The bucket of contract `c` as checked at `now`.
    pub open spec fn contract_bucket(self, c: AddressId, now: u64) -> Usage {
        bucket_at(self.contract_usage.get(c), now, self.contract_limits[c])
    }

    /// Whether some enforced bucket is empty at `now`.
    pub open spec fn exhausted(self, subject: AddressId, contract: Option<AddressId>, now: u64) -> bool {
        ||| self.global_enabled && self.global_bucket(now).tokens == 0
        ||| self.contract_enforced(contract) && self.contract_bucket(contract->0, now).tokens == 0
        ||| self.address_bucket(subject, now).tokens == 0
    }

    /// The state after a served call: each enforced bucket is refilled to
    /// `now` and loses one token.
    pub open spec fn served(self, subject: AddressId, contract: Option<AddressId>, now: u64) -> LimiterState {
        LimiterState {
            global_usage: if self.global_enabled {
                Some(debited(self.global_bucket(now)))
            } else {
                self.global_usage
            },
            contract_usage: if self.contract_enforced(contract) {
                self.contract_usage.insert(
                    contract->0,
                    debited(self.contract_bucket(contract->0, now)),
                )
            } else {
                self.contract_usage
            },
            usage: self.usage.insert(subject, debited(self.address_bucket(subject, now))),
            ..self
        }
    }

    /// What a consumption by `subject`, through `contract` if any, at `now`
    /// answers.
    pub open spec fn consume_result(
        self,
        subject: AddressId,
        contract: Option<AddressId>,
        now: u64,
    ) -> Result<ConsumptionOutcome, RateLimitError> {
        if self.bypassed(subject) {
            Ok(ConsumptionOutcome { remaining: u32::MAX, refill_in_seconds: Some(0) })
        } else if self.exhausted(subject, contract, now) {
            Err(RateLimitError::RateLimitExceeded)
        } else {
            let remaining: u32 = (self.address_bucket(subject, now).tokens - 1) as u32;
            Ok(
                ConsumptionOutcome {
                    remaining,
                    refill_in_seconds: refill_wait(
                        remaining,
                        self.limit_for(subject).refill_rate,
                    ),
                },
            )
        }
    }

    /// The state after a consumption by `subject`, through `contract` if any,
    /// at `now`: only a served, non-exempt call changes it.
    pub open spec fn after_consume(
        self,
        subject: AddressId,
        contract: Option<AddressId>,
        now: u64,
    ) -> LimiterState {
        if self.bypassed(subject) || self.exhausted(subject, contract, now) {
            self
        } else {
            self.served(subject, contract, now)
        }
    }
}

/// Per-address, per-contract, and global rate limiting using token buckets.
///
/// Operations marked "Admin only" change the configuration; the caller
/// checks the admin's authorization before calling them, and they require
/// an admin to be set.
///
/// The fields are the limiter's stored state; [`LimiterState`] is its
/// abstract view, in which the maps are mathematical maps.
pub struct RateLimiter {
    /// The admin; present exactly when the limiter has been initialized.
    pub admin: Option<AddressId>,
    /// Whether the admin is exempt from every limit.
    pub admin_bypass: bool,
    /// The limit of addresses without an override.
    pub default_limit: LimitConfig,
    /// Whether the global bucket is enforced.
    pub global_enabled: bool,
    /// The limit of the global bucket.
    pub global_limit: LimitConfig,
    /// The stored global bucket, if one has been recorded.
    pub global_usage: Option<Usage>,
    /// Per-address limit overrides.
    pub limits: HashMap<AddressId, LimitConfig>,
    /// Stored per-address buckets.
    pub usage: HashMap<AddressId, Usage>,
    /// Per-contract budgets.
    pub contract_limits: HashMap<AddressId, LimitConfig>,
    /// Stored per-contract buckets.
    pub contract_usage: HashMap<AddressId, Usage>,
}

impl View for RateLimiter {
    type V = LimiterState;

    open spec fn view(&self) -> LimiterState {
        LimiterState {
            admin: self.admin,
            admin_bypass: self.admin_bypass,
            default_limit: self.default_limit,
            global_enabled: self.global_enabled,
            global_limit: self.global_limit,
            global_usage: self.global_usage,
            limits: self.limits@,
            usage: self.usage@,
            contract_limits: self.contract_limits@,
            contract_usage: self.contract_usage@,
        }
    }
}

impl RateLimiter {
    /// A limiter with nothing stored: not yet initialized, no overrides, no
    /// budgets and no recorded usage. Unset settings read as their defaults:
    /// a zero limit, a disabled global limit and an admin bypass that is on
    /// until [`Self::initialize`] sets it.
    pub fn new() -> (r: Self)
        ensures
            r@ == (LimiterState {
                admin: None,
                admin_bypass: true,
                default_limit: LimitConfig { burst: 0, refill_rate: 0 },
                global_enabled: false,
                global_limit: LimitConfig { burst: 0, refill_rate: 0 },
                global_usage: None,
                limits: Map::empty(),
                usage: Map::empty(),
                contract_limits: Map::empty(),
                contract_usage: Map::empty(),
            }),
    {
        RateLimiter {
            admin: None,
            admin_bypass: true,
            default_limit: LimitConfig { burst: 0, refill_rate: 0 },
            global_enabled: false,
            global_limit: LimitConfig { burst: 0, refill_rate: 0 },
            global_usage: None,
            limits: HashMap::new(),
            usage: HashMap::new(),
            contract_limits: HashMap::new(),
            contract_usage: HashMap::new(),
        }
    }

    /// Whether [`Self::initialize`] has been called.
    pub fn is_initialized(&self) -> (r: bool)
        ensures
            r == self@.initialized(),
    {
        self.admin.is_some()
    }

    /// Initializes the limiter with its admin, the default limit for addresses
    /// without overrides, and whether the admin is exempt from all limits.
    /// Only callable once.
    pub fn initialize(
        &mut self,
        admin: AddressId,
        default_burst: u32,
        default_refill_rate: u32,
        admin_bypass: bool,
    )
        requires
            !old(self)@.initialized(),
        ensures
            final(self)@ == old(self)@.initialized_with(
                admin,
                default_burst,
                default_refill_rate,
                admin_bypass,
            ),
    {
        self.admin = Some(admin);
        self.default_limit = LimitConfig { burst: default_burst, refill_rate: default_refill_rate };
        self.admin_bypass = admin_bypass;
    }

    /// Configures the global rate limit, which applies to every consumption
    /// while it is enabled. Admin only.
    pub fn set_global_limit(&mut self, enabled: bool, burst: u32, refill_rate: u32)
        requires
            old(self)@.initialized(),
        ensures
            final(self)@ == old(self)@.with_global_limit(enabled, LimitConfig { burst, refill_rate }),
    {
        self.global_enabled = enabled;
        self.global_limit = LimitConfig { burst, refill_rate };
    }

    /// Sets a per-address limit override, which takes precedence over the
    /// default limit for `addr`. Admin only.
    pub fn set_limit_for(&mut self, addr: AddressId, burst: u32, refill_rate: u32)
        requires
            old(self)@.initialized(),
        ensures
            final(self)@ == old(self)@.with_limit(addr, LimitConfig { burst, refill_rate }),
    {
        self.limits.insert(addr, LimitConfig { burst, refill_rate });
    }

    /// Removes a per-address limit override; `addr` falls back to the default
    /// limit. A no-op when `addr` has no override. Admin only.
    pub fn clear_limit_for(&mut self, addr: AddressId)
        requires
            old(self)@.initialized(),
        ensures
            final(self)@ == old(self)@.without_limit(addr),
    {
        self.limits.remove(&addr);
    }

    /// Sets a throughput budget shared by every subject that consumes through
    /// the integrating contract `contract`. Admin only.
    pub fn set_limit_for_contract(&mut self, contract: AddressId, burst: u32, refill_rate: u32)
        requires
            old(self)@.initialized(),
        ensures
            final(self)@ == old(self)@.with_contract_limit(
                contract,
                LimitConfig { burst, refill_rate },
            ),
    {
        self.contract_limits.insert(contract, LimitConfig { burst, refill_rate });
    }

    /// Removes a per-contract budget; the contract's usage is kept. A no-op
    /// when no budget is set. Admin only.
    pub fn clear_limit_for_contract(&mut self, contract: AddressId)
        requires
            old(self)@.initialized(),
        ensures
            final(self)@ == old(self)@.without_contract_limit(contract),
    {
        self.contract_limits.remove(&contract);
    }

    /// Checks and consumes one whole token from the subject's bucket (and
    /// from the global bucket when it is enabled) at ledger time `now`.
    ///
    /// A bypassed admin is never debited and gets `remaining == u32::MAX`.
    /// Otherwise every enforced bucket is refilled to `now` and checked
    /// before any is debited: the call is served, one token taken from each,
    /// when none is empty, and rejected with
    /// [`RateLimitError::RateLimitExceeded`], nothing debited, when one is.
    pub fn check_and_consume(&mut self, subject: AddressId, now: u64) -> (r: Result<
        ConsumptionOutcome,
        RateLimitError,
    >)
        requires
            old(self)@.initialized(),
        ensures
            r == old(self)@.consume_result(subject, None, now),
            final(self)@ == old(self)@.after_consume(subject, None, now),
    {
        self.check_and_consume_inner(subject, None, now)
    }

    /// As [`Self::check_and_consume`], and in addition enforces the budget of
    /// the integrating contract `contract` when one is set for it: the call
    /// is rejected when either bucket is empty, and a served call takes one
    /// token from both. `remaining` is the subject's balance.
    pub fn check_and_consume_for_contract(
        &mut self,
        subject: AddressId,
        contract: AddressId,
        now: u64,
    ) -> (r: Result<ConsumptionOutcome, RateLimitError>)
        requires
            old(self)@.initialized(),
        ensures
            r == old(self)@.consume_result(subject, Some(contract), now),
            final(self)@ == old(self)@.after_consume(subject, Some(contract), now),
    {
        self.check_and_consume_inner(subject, Some(contract), now)
    }

    /// Forgets the recorded usage of `addr`: its next consumption starts from
    /// a full bucket. Admin only.
    pub fn reset_usage(&mut self, addr: AddressId)
        requires
            old(self)@.initialized(),
        ensures
            final(self)@ == old(self)@.usage_reset(addr),
    {
        self.usage.remove(&addr);
    }

    /// Forgets the recorded usage of the contract-scoped bucket of
    /// `contract`. Admin only.
    pub fn reset_contract_usage(&mut self, contract: AddressId)
        requires
            old(self)@.initialized(),
        ensures
            final(self)@ == old(self)@.contract_usage_reset(contract),
    {
        self.contract_usage.remove(&contract);
    }

    /// Transfers admin rights to `new_admin`. Admin only.
    pub fn transfer_admin(&mut self, new_admin: AddressId)
        requires
            old(self)@.initialized(),
        ensures
            final(self)@ == old(self)@.with_admin(new_admin),
    {
        self.admin = Some(new_admin);
    }

    /// The limit that governs `addr`: its override, or else the default.
    pub fn get_limit_for(&self, addr: AddressId) -> (r: LimitConfig)
        ensures
            r == self@.limit_for(addr),
    {
        self.get_limit_config(addr)
    }

    /// The budget of the integrating contract `contract`, if one is set.
    pub fn get_limit_for_contract(&self, contract: AddressId) -> (r: Option<LimitConfig>)
        ensures
            r == self@.contract_limits.get(contract),
    {
        match self.contract_limits.get(&contract) {
            Some(c) => Some(*c),
            None => None,
        }
    }

    /// The recorded usage of `addr` with the refill up to `now` applied,
    /// without changing anything; `None` when no usage was ever recorded
    /// (the bucket is then effectively full). The balance is reported capped
    /// at the current burst of `addr`, also when no whole second has passed
    /// (a balance recorded under a larger, since removed override shows as
    /// the current burst), exactly as a consumption would see it.
    pub fn get_usage(&self, addr: AddressId, now: u64) -> (r: Option<Usage>)
        ensures
            r == self@.usage_at(addr, now),
    {
        match self.usage.get(&addr) {
            Some(u) => {
                let config = self.get_limit_config(addr);
                Some(Self::preview_refill(*u, now, config.burst, config.refill_rate))
            },
            None => None,
        }
    }

    /// The recorded contract-scoped usage of `contract` with the refill up to
    /// `now` applied, without changing anything; `None` when no budget is set
    /// or no usage was recorded. The balance is reported capped at the
    /// current burst of the budget, also when no whole second has passed.
    pub fn get_contract_usage(&self, contract: AddressId, now: u64) -> (r: Option<Usage>)
        ensures
            r == self@.contract_usage_at(contract, now),
    {
        let config = match self.contract_limits.get(&contract) {
            Some(c) => *c,
            None => return None,
        };
        match self.contract_usage.get(&contract) {
            Some(u) => Some(Self::preview_refill(*u, now, config.burst, config.refill_rate)),
            None => None,
        }
    }

    /// The admin, if the limiter has been initialized.
    pub fn get_admin(&self) -> (r: Option<AddressId>)
        ensures
            r == self@.admin,
    {
        self.admin
    }

    /// The bucket `usage` as it stands at `now` for a limit of `burst` tokens
    /// refilled at `refill_rate` tokens per whole second: credited
    /// `elapsed_seconds * refill_rate` when at least one whole second has
    /// passed, and capped at `burst` in every case.
    pub fn preview_refill(usage: Usage, now: u64, burst: u32, refill_rate: u32) -> (r: Usage)
        ensures
            r == refilled(usage, now, burst, refill_rate),
    {
        let elapsed: u64 = now.saturating_sub(usage.last_update);
        if elapsed > 0 {
            assert((elapsed as int) * (refill_rate as int) <= 0xffff_ffff_ffff_ffff * 0xffff_ffff)
                by (nonlinear_arith)
                requires
                    0 <= elapsed <= 0xffff_ffff_ffff_ffff,
                    0 <= refill_rate <= 0xffff_ffff,
            ;
            let credit: u128 = elapsed as u128 * refill_rate as u128;
            let credited: u128 = usage.tokens as u128 + credit;
            Usage {
                last_update: now,
                tokens: if credited > burst as u128 {
                    burst
                } else {
                    credited as u32
                },
            }
        } else {
            Usage {
                last_update: usage.last_update,
                tokens: if usage.tokens > burst {
                    burst
                } else {
                    usage.tokens
                },
            }
        }
    }

    /// Whole seconds until a bucket with `remaining` tokens next holds at
    /// least one token.
    pub fn refill_in_seconds(remaining: u32, refill_rate: u32) -> (r: Option<u64>)
        ensures
            r == refill_wait(remaining, refill_rate),
    {
        if remaining > 0 {
            Some(0)
        } else if refill_rate == 0 {
            None
        } else {
            Some(1)
        }
    }

    /// The bucket `stored` (a full fresh bucket when none is stored) refilled
    /// to `now`.
    fn bucket_after_refill(stored: Option<Usage>, now: u64, limit: LimitConfig) -> (r: Usage)
        ensures
            r == bucket_at(stored, now, limit),
    {
        let usage = match stored {
            Some(u) => u,
            None => Usage { last_update: now, tokens: limit.burst },
        };
        Self::preview_refill(usage, now, limit.burst, limit.refill_rate)
    }

    /// Takes one token from a bucket known to hold at least one.
    fn debit_bucket(usage: Usage) -> (r: Usage)
        requires
            usage.tokens >= 1,
        ensures
            r == debited(usage),
    {
        Usage { last_update: usage.last_update, tokens: usage.tokens - 1 }
    }

    /// The limit that governs `addr`.
    fn get_limit_config(&self, addr: AddressId) -> (r: LimitConfig)
        ensures
            r == self@.limit_for(addr),
    {
        match self.limits.get(&addr) {
            Some(c) => *c,
            None => self.default_limit,
        }
    }

    fn check_and_consume_inner(
        &mut self,
        subject: AddressId,
        contract: Option<AddressId>,
        now: u64,
    ) -> (r: Result<ConsumptionOutcome, RateLimitError>)
        requires
            old(self)@.initialized(),
        ensures
            r == old(self)@.consume_result(subject, contract, now),
            final(self)@ == old(self)@.after_consume(subject, contract, now),
    {
        let admin: AddressId = self.admin.unwrap();
        if self.admin_bypass && subject == admin {
            return Ok(ConsumptionOutcome { remaining: u32::MAX, refill_in_seconds: Some(0) });
        }
        let addr_limit = self.get_limit_config(subject);

        let global_bucket: Option<Usage> = if self.global_enabled {
            Some(Self::bucket_after_refill(self.global_usage, now, self.global_limit))
        } else {
            None
        };

        let contract_bucket: Option<(AddressId, Usage)> = match contract {
            Some(c) => match self.contract_limits.get(&c) {
                Some(c_limit) => {
                    let stored = match self.contract_usage.get(&c) {
                        Some(u) => Some(*u),
                        None => None,
                    };
                    Some((c, Self::bucket_after_refill(stored, now, *c_limit)))
                },
                None => None,
            },
            None => None,
        };

        let stored = match self.usage.get(&subject) {
            Some(u) => Some(*u),
            None => None,
        };
        let addr_usage = Self::bucket_after_refill(stored, now, addr_limit);

        let global_empty = match global_bucket {
            Some(u) => u.tokens < 1,
            None => false,
        };
        let contract_empty = match contract_bucket {
            Some((_, u)) => u.tokens < 1,
            None => false,
        };
        if global_empty || contract_empty || addr_usage.tokens < 1 {
            return Err(RateLimitError::RateLimitExceeded);
        }
        if let Some(u) = global_bucket {
            self.global_usage = Some(Self::debit_bucket(u));
        }
        if let Some((c, u)) = contract_bucket {
            self.contract_usage.insert(c, Self::debit_bucket(u));
        }
        let debited_usage = Self::debit_bucket(addr_usage);
        self.usage.insert(subject, debited_usage);
        let remaining: u32 = debited_usage.tokens;
        Ok(
            ConsumptionOutcome {
                remaining,
                refill_in_seconds: Self::refill_in_seconds(remaining, addr_limit.refill_rate),
            },
        )
    }
}

} // verus!
