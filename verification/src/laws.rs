//! Properties of the limiter that span its operations, proved over the
//! abstract state that the operations' contracts speak of.

use vstd::prelude::*;

use crate::bucket::{refilled, LimitConfig, Usage};
use crate::limiter::{
    bucket_at, debited, refill_wait, AddressId, ConsumptionOutcome, LimiterState, RateLimitError,
};

verus! {

/// A bucket as it stands at any time never holds more than its burst
/// capacity, even when it was stored under a larger limit; after at least one
/// whole second its timestamp moves to that time.
pub proof fn law_refill_capped_at_burst(usage: Usage, now: u64, burst: u32, refill_rate: u32)
    ensures
        refilled(usage, now, burst, refill_rate).tokens <= burst,
        usage.last_update < now ==> refilled(usage, now, burst, refill_rate).last_update == now,
{
}

/// Refill credits `elapsed_seconds * refill_rate` whole tokens, capped at the
/// burst capacity, however long the elapsed time.
pub proof fn law_refill_is_elapsed_times_rate(usage: Usage, now: u64, burst: u32, refill_rate: u32)
    requires
        usage.last_update < now,
    ensures
        refilled(usage, now, burst, refill_rate).tokens == (if usage.tokens + (now
            - usage.last_update) * refill_rate > burst {
            burst as int
        } else {
            usage.tokens + (now - usage.last_update) * refill_rate
        }),
{
}

/// Calls made within the same whole second receive no refill credit: a
/// bucket checked at or before its own timestamp keeps its timestamp and its
/// balance, only capped at the burst capacity.
pub proof fn law_no_credit_within_a_second(usage: Usage, now: u64, burst: u32, refill_rate: u32)
    requires
        now <= usage.last_update,
    ensures
        refilled(usage, now, burst, refill_rate).last_update == usage.last_update,
        refilled(usage, now, burst, refill_rate).tokens == (if usage.tokens > burst {
            burst
        } else {
            usage.tokens
        }),
        usage.tokens <= burst ==> refilled(usage, now, burst, refill_rate) == usage,
{
}

/// Refilling a bucket twice at the same time is the same as refilling it
/// once: a preview followed by a consumption in the same second is not
/// credited twice.
pub proof fn law_refill_idempotent(usage: Usage, now: u64, burst: u32, refill_rate: u32)
    ensures
        refilled(refilled(usage, now, burst, refill_rate), now, burst, refill_rate) == refilled(
            usage,
            now,
            burst,
            refill_rate,
        ),
{
}

/// After an idle gap long enough to refill it, however long, the bucket holds
/// exactly its burst capacity, never more.
pub proof fn law_long_idle_refills_to_burst(usage: Usage, now: u64, burst: u32, refill_rate: u32)
    requires
        usage.last_update < now,
        usage.tokens + (now - usage.last_update) * refill_rate >= burst,
    ensures
        refilled(usage, now, burst, refill_rate).tokens == burst,
{
}

/// Between two times, the balance of a bucket as checked grows by at most
/// the elapsed seconds times the refill rate.
pub proof fn law_bucket_growth_bounded(stored: Option<Usage>, t1: u64, t2: u64, limit: LimitConfig)
    requires
        t1 <= t2,
    ensures
        bucket_at(stored, t2, limit).tokens <= bucket_at(stored, t1, limit).tokens + (t2 - t1)
            * limit.refill_rate,
{
    let r: int = limit.refill_rate as int;
    assert(0 <= (t2 - t1) * r) by (nonlinear_arith)
        requires
            t1 <= t2,
            0 <= r,
    ;
    match stored {
        None => {},
        Some(u) => {
            let lu: int = u.last_update as int;
            if t2 <= lu {
            } else if t1 <= lu {
                let x: int = t2 - lu;
                assert(x * r <= (t2 - t1) * r) by (nonlinear_arith)
                    requires
                        0 < x <= t2 - t1,
                        0 <= r,
                ;
            } else {
                let x: int = t2 - lu;
                let y: int = t1 - lu;
                assert(x * r == y * r + (t2 - t1) * r) by (nonlinear_arith)
                    requires
                        x - y == t2 - t1,
                ;
            }
        },
    }
}

/// A bucket that served a call at `t` holds, as checked at `t` again, one
/// token less.
pub proof fn law_debit_is_seen_in_the_same_second(stored: Option<Usage>, t: u64, limit: LimitConfig)
    requires
        bucket_at(stored, t, limit).tokens >= 1,
    ensures
        bucket_at(Some(debited(bucket_at(stored, t, limit))), t, limit) == debited(
            bucket_at(stored, t, limit),
        ),
{
}

/// The wait that a served call reports: none while a token is left, never
/// when the bucket is empty and does not refill, one whole second when it is
/// empty and refills.
pub proof fn law_refill_wait_table(remaining: u32, refill_rate: u32)
    ensures
        remaining > 0 ==> refill_wait(remaining, refill_rate) == Some(0u64),
        remaining == 0 && refill_rate == 0 ==> refill_wait(remaining, refill_rate) is None,
        remaining == 0 && refill_rate > 0 ==> refill_wait(remaining, refill_rate) == Some(1u64),
{
}

/// A rejected call changes nothing: no bucket is debited.
pub proof fn law_rejection_changes_nothing(
    s: LimiterState,
    subject: AddressId,
    contract: Option<AddressId>,
    now: u64,
)
    requires
        s.consume_result(subject, contract, now) is Err,
    ensures
        s.after_consume(subject, contract, now) == s,
{
}

/// The admin, while exempt, is always served with an unlimited allowance
/// and never debited.
pub proof fn law_bypassed_admin_is_never_debited(
    s: LimiterState,
    contract: Option<AddressId>,
    now: u64,
)
    requires
        s.admin is Some,
        s.admin_bypass,
    ensures
        s.consume_result(s.admin->0, contract, now) == Ok::<ConsumptionOutcome, RateLimitError>(
            ConsumptionOutcome { remaining: u32::MAX, refill_in_seconds: Some(0) },
        ),
        s.after_consume(s.admin->0, contract, now) == s,
{
}

/// Exhaustion is a typed error, never a zero balance: a call by anyone but
/// an admin under an active bypass is rejected with `RateLimitExceeded`
/// exactly when an enforced bucket (the global one while enabled, the
/// contract's while it has a budget, the subject's) is empty at the call's
/// time; a served call reports the subject's balance after the debit, which
/// may be zero, and when its bucket next holds a token.
pub proof fn law_exhaustion_is_an_error(
    s: LimiterState,
    subject: AddressId,
    contract: Option<AddressId>,
    now: u64,
)
    requires
        !(s.admin_bypass && s.admin == Some(subject)),
    ensures
        ({
            let r = s.consume_result(subject, contract, now);
            let a = s.address_bucket(subject, now);
            let empty = (s.global_enabled && s.global_bucket(now).tokens == 0) || (
            contract matches Some(c) && s.contract_limits.contains_key(c) && s.contract_bucket(
                c,
                now,
            ).tokens == 0) || a.tokens == 0;
            &&& r is Err <==> empty
            &&& r is Err ==> r == Err::<ConsumptionOutcome, RateLimitError>(
                RateLimitError::RateLimitExceeded,
            )
            &&& r is Ok ==> r->Ok_0.remaining == a.tokens - 1
            &&& r is Ok && a.tokens > 1 ==> r->Ok_0.refill_in_seconds == Some(0u64)
            &&& r is Ok && a.tokens == 1 && s.limit_for(subject).refill_rate == 0
                ==> r->Ok_0.refill_in_seconds is None
            &&& r is Ok && a.tokens == 1 && s.limit_for(subject).refill_rate > 0
                ==> r->Ok_0.refill_in_seconds == Some(1u64)
        }),
{
}

/// A served call by anyone but an admin under an active bypass takes one
/// token from every enforced bucket, each as it stands at the call's time,
/// and touches no other bucket.
pub proof fn law_served_call_takes_one_token_from_each_enforced_bucket(
    s: LimiterState,
    subject: AddressId,
    contract: Option<AddressId>,
    now: u64,
)
    requires
        !(s.admin_bypass && s.admin == Some(subject)),
        s.consume_result(subject, contract, now) is Ok,
    ensures
        ({
            let t = s.after_consume(subject, contract, now);
            let a = s.address_bucket(subject, now);
            let g = s.global_bucket(now);
            &&& a.tokens >= 1
            &&& t.usage.contains_key(subject)
            &&& t.usage[subject] == (Usage { last_update: a.last_update, tokens: (a.tokens - 1) as u32 })
            &&& forall|x: AddressId| x != subject ==> #[trigger] t.usage.get(x) == s.usage.get(x)
            &&& s.global_enabled ==> g.tokens >= 1 && t.global_usage == Some(
                Usage { last_update: g.last_update, tokens: (g.tokens - 1) as u32 },
            )
            &&& !s.global_enabled ==> t.global_usage == s.global_usage
            &&& forall|c: AddressId|
                contract == Some(c) && s.contract_limits.contains_key(c) ==> {
                    let b = s.contract_bucket(c, now);
                    &&& b.tokens >= 1
                    &&& t.contract_usage.contains_key(c)
                    &&& #[trigger] t.contract_usage[c] == (Usage {
                        last_update: b.last_update,
                        tokens: (b.tokens - 1) as u32,
                    })
                }
            &&& forall|x: AddressId|
                !(contract == Some(x) && s.contract_limits.contains_key(x))
                    ==> #[trigger] t.contract_usage.get(x) == s.contract_usage.get(x)
        }),
{
    let t = s.after_consume(subject, contract, now);
    assert forall|x: AddressId| x != subject implies #[trigger] t.usage.get(x) == s.usage.get(x) by {}
    assert forall|x: AddressId|
        !(contract == Some(x) && s.contract_limits.contains_key(x)) implies #[trigger] t.contract_usage.get(
        x,
    ) == s.contract_usage.get(x) by {}
}

/// The limit of an address and the buckets that a consumption checks, as
/// they stand at time `now`: the limit is the address's override, else the
/// default; each bucket is its stored one (or, where none is stored, a full
/// one dated `now`), credited `elapsed_seconds * refill_rate` when at least a
/// whole second has passed, and never above its burst.
pub proof fn law_buckets_as_checked(
    s: LimiterState,
    subject: AddressId,
    contract: AddressId,
    now: u64,
)
    ensures
        s.limit_for(subject) == (if s.limits.contains_key(subject) {
            s.limits[subject]
        } else {
            s.default_limit
        }),
        bucket_is(s.address_bucket(subject, now), s.usage.get(subject), now, s.limit_for(subject)),
        bucket_is(s.global_bucket(now), s.global_usage, now, s.global_limit),
        s.contract_limits.contains_key(contract) ==> bucket_is(
            s.contract_bucket(contract, now),
            s.contract_usage.get(contract),
            now,
            s.contract_limits[contract],
        ),
{
}

/// `b` is the bucket `stored` as it stands at `now` under `limit`.
pub open spec fn bucket_is(b: Usage, stored: Option<Usage>, now: u64, limit: LimitConfig) -> bool {
    &&& b.tokens <= limit.burst
    &&& match stored {
        None => b == Usage { last_update: now, tokens: limit.burst },
        Some(u) => if now > u.last_update {
            &&& b.last_update == now
            &&& b.tokens == min_int(u.tokens + (now - u.last_update) * limit.refill_rate, limit.burst as int)
        } else {
            &&& b.last_update == u.last_update
            &&& b.tokens == min_int(u.tokens as int, limit.burst as int)
        },
    }
}

/// The smaller of `a` and `b`.
pub open spec fn min_int(a: int, b: int) -> int {
    if a < b {
        a
    } else {
        b
    }
}

/// Consumption never changes the configuration: the admin, the bypass, the
/// default, global, per-address and per-contract limits all stay as they
/// were.
pub proof fn law_consumption_keeps_configuration(
    s: LimiterState,
    subject: AddressId,
    contract: Option<AddressId>,
    now: u64,
)
    ensures
        ({
            let t = s.after_consume(subject, contract, now);
            &&& t.admin == s.admin
            &&& t.admin_bypass == s.admin_bypass
            &&& t.default_limit == s.default_limit
            &&& t.global_enabled == s.global_enabled
            &&& t.global_limit == s.global_limit
            &&& t.limits == s.limits
            &&& t.contract_limits == s.contract_limits
        }),
{
}

/// The address-only path neither reads nor debits contract budgets: its
/// answer does not depend on them and it leaves contract usage untouched.
pub proof fn law_address_only_path_ignores_contract_budgets(
    s: LimiterState,
    subject: AddressId,
    now: u64,
    contract_limits: Map<AddressId, LimitConfig>,
    contract_usage: Map<AddressId, Usage>,
)
    ensures
        s.consume_result(subject, None, now) == (LimiterState {
            contract_limits,
            contract_usage,
            ..s
        }).consume_result(subject, None, now),
        s.after_consume(subject, None, now).contract_usage == s.contract_usage,
{
}

/// Through a contract without a budget, consumption is address-only.
pub proof fn law_unbudgeted_contract_is_address_only(
    s: LimiterState,
    subject: AddressId,
    contract: AddressId,
    now: u64,
)
    requires
        !s.contract_limits.contains_key(contract),
    ensures
        s.consume_result(subject, Some(contract), now) == s.consume_result(subject, None, now),
        s.after_consume(subject, Some(contract), now) == s.after_consume(subject, None, now),
{
}

/// A per-address override takes precedence over the default for its address
/// only: it changes neither the default nor the limit of any other address.
pub proof fn law_override_takes_precedence(
    s: LimiterState,
    addr: AddressId,
    limit: LimitConfig,
    other: AddressId,
)
    requires
        other != addr,
    ensures
        s.with_limit(addr, limit).limit_for(addr) == limit,
        s.with_limit(addr, limit).limit_for(other) == s.limit_for(other),
        s.with_limit(addr, limit).default_limit == s.default_limit,
{
}

/// Clearing an override makes its address fall back to the default limit
/// (a no-op where there was none), and leaves other addresses alone.
pub proof fn law_clear_falls_back_to_default(s: LimiterState, addr: AddressId, other: AddressId)
    requires
        other != addr,
    ensures
        s.without_limit(addr).limit_for(addr) == s.default_limit,
        s.without_limit(addr).limit_for(other) == s.limit_for(other),
        s.without_limit(addr).usage == s.usage,
        !s.limits.contains_key(addr) ==> s.without_limit(addr) == s,
{
    if !s.limits.contains_key(addr) {
        assert(s.limits.remove(addr) =~= s.limits);
    }
}

/// A set contract budget reads back; a cleared one reads back as absent,
/// and clearing it keeps the contract's recorded usage.
pub proof fn law_contract_budget_reads_back(s: LimiterState, contract: AddressId, limit: LimitConfig)
    ensures
        s.with_contract_limit(contract, limit).contract_limits.get(contract) == Some(limit),
        s.without_contract_limit(contract).contract_limits.get(contract) == None::<LimitConfig>,
        s.without_contract_limit(contract).contract_usage == s.contract_usage,
{
}

/// The usage that a read-only preview reports is exactly the bucket that a
/// consumption at the same time checks; without recorded usage the bucket
/// is full.
pub proof fn law_preview_matches_consumption(s: LimiterState, addr: AddressId, now: u64)
    ensures
        s.usage.contains_key(addr) ==> s.usage_at(addr, now) == Some(s.address_bucket(addr, now)),
        !s.usage.contains_key(addr) ==> s.usage_at(addr, now) is None && s.address_bucket(addr, now)
            == (Usage { last_update: now, tokens: s.limit_for(addr).burst }),
{
}

/// The contract usage that a read-only preview reports is exactly the
/// contract bucket that a consumption through that contract checks at the
/// same time (so never above the budget's burst); without a budget or
/// without recorded usage there is nothing to report.
pub proof fn law_contract_preview_matches_consumption(s: LimiterState, contract: AddressId, now: u64)
    ensures
        s.contract_limits.contains_key(contract) && s.contract_usage.contains_key(contract)
            ==> s.contract_usage_at(contract, now) == Some(s.contract_bucket(contract, now))
            && s.contract_bucket(contract, now).tokens <= s.contract_limits[contract].burst,
        !(s.contract_limits.contains_key(contract) && s.contract_usage.contains_key(contract))
            ==> s.contract_usage_at(contract, now) is None,
{
}

/// `initialize(admin, default_burst, default_refill_rate, admin_bypass)`
/// sets exactly the admin, the bypass and the default limit to the given
/// values, each independently of the others, and leaves everything else.
pub proof fn law_initialize_sets_exactly_its_arguments(
    s: LimiterState,
    admin: AddressId,
    default_burst: u32,
    default_refill_rate: u32,
    admin_bypass: bool,
)
    ensures
        ({
            let t = s.initialized_with(admin, default_burst, default_refill_rate, admin_bypass);
            &&& t.admin == Some(admin)
            &&& t.admin_bypass == admin_bypass
            &&& t.default_limit == (LimitConfig {
                burst: default_burst,
                refill_rate: default_refill_rate,
            })
            &&& t.global_enabled == s.global_enabled
            &&& t.global_limit == s.global_limit
            &&& t.global_usage == s.global_usage
            &&& t.limits == s.limits
            &&& t.usage == s.usage
            &&& t.contract_limits == s.contract_limits
            &&& t.contract_usage == s.contract_usage
        }),
{
}

/// After `initialize` with the bypass on, the admin is exempt: every call it
/// makes, through any contract, at any time, is served with an unlimited
/// allowance and debits nothing, whatever the default limit.
pub proof fn law_initialized_bypass_exempts_the_admin(
    s: LimiterState,
    admin: AddressId,
    default_burst: u32,
    default_refill_rate: u32,
    contract: Option<AddressId>,
    now: u64,
)
    ensures
        ({
            let t = s.initialized_with(admin, default_burst, default_refill_rate, true);
            &&& t.consume_result(admin, contract, now) == Ok::<ConsumptionOutcome, RateLimitError>(
                ConsumptionOutcome { remaining: u32::MAX, refill_in_seconds: Some(0) },
            )
            &&& t.after_consume(admin, contract, now) == t
        }),
{
}

/// `set_global_limit(enabled, burst, refill_rate)` sets exactly the global
/// switch and the global limit, whatever they were before, and leaves every
/// bucket and every other setting alone.
pub proof fn law_set_global_limit_sets_exactly_its_arguments(
    s: LimiterState,
    enabled: bool,
    limit: LimitConfig,
    now: u64,
)
    ensures
        ({
            let t = s.with_global_limit(enabled, limit);
            &&& t.global_enabled == enabled
            &&& t.global_limit == limit
            &&& t.global_bucket(now).tokens <= limit.burst
            &&& t.admin == s.admin
            &&& t.admin_bypass == s.admin_bypass
            &&& t.default_limit == s.default_limit
            &&& t.global_usage == s.global_usage
            &&& t.limits == s.limits
            &&& t.usage == s.usage
            &&& t.contract_limits == s.contract_limits
            &&& t.contract_usage == s.contract_usage
        }),
{
}

/// `set_limit_for` and `clear_limit_for` change exactly the override of
/// their address, and nothing else.
pub proof fn law_override_operations_touch_only_their_override(
    s: LimiterState,
    addr: AddressId,
    limit: LimitConfig,
    other: AddressId,
)
    requires
        other != addr,
    ensures
        s.with_limit(addr, limit).limits.get(addr) == Some(limit),
        s.without_limit(addr).limits.get(addr) == None::<LimitConfig>,
        s.with_limit(addr, limit).limits.get(other) == s.limits.get(other),
        s.without_limit(addr).limits.get(other) == s.limits.get(other),
        ({
            let t = s.with_limit(addr, limit);
            let u = s.without_limit(addr);
            &&& t.admin == s.admin && u.admin == s.admin
            &&& t.admin_bypass == s.admin_bypass && u.admin_bypass == s.admin_bypass
            &&& t.default_limit == s.default_limit && u.default_limit == s.default_limit
            &&& t.global_enabled == s.global_enabled && u.global_enabled == s.global_enabled
            &&& t.global_limit == s.global_limit && u.global_limit == s.global_limit
            &&& t.global_usage == s.global_usage && u.global_usage == s.global_usage
            &&& t.usage == s.usage && u.usage == s.usage
            &&& t.contract_limits == s.contract_limits && u.contract_limits == s.contract_limits
            &&& t.contract_usage == s.contract_usage && u.contract_usage == s.contract_usage
        }),
{
}

/// `set_limit_for_contract` and `clear_limit_for_contract` change exactly the
/// budget of their contract, and nothing else (its usage is kept).
pub proof fn law_budget_operations_touch_only_their_budget(
    s: LimiterState,
    contract: AddressId,
    limit: LimitConfig,
    other: AddressId,
)
    requires
        other != contract,
    ensures
        s.with_contract_limit(contract, limit).contract_limits.get(contract) == Some(limit),
        s.without_contract_limit(contract).contract_limits.get(contract) == None::<LimitConfig>,
        s.with_contract_limit(contract, limit).contract_limits.get(other) == s.contract_limits.get(
            other,
        ),
        s.without_contract_limit(contract).contract_limits.get(other) == s.contract_limits.get(
            other,
        ),
        ({
            let t = s.with_contract_limit(contract, limit);
            let u = s.without_contract_limit(contract);
            &&& t.admin == s.admin && u.admin == s.admin
            &&& t.admin_bypass == s.admin_bypass && u.admin_bypass == s.admin_bypass
            &&& t.default_limit == s.default_limit && u.default_limit == s.default_limit
            &&& t.global_enabled == s.global_enabled && u.global_enabled == s.global_enabled
            &&& t.global_limit == s.global_limit && u.global_limit == s.global_limit
            &&& t.global_usage == s.global_usage && u.global_usage == s.global_usage
            &&& t.limits == s.limits && u.limits == s.limits
            &&& t.usage == s.usage && u.usage == s.usage
            &&& t.contract_usage == s.contract_usage && u.contract_usage == s.contract_usage
        }),
{
}

/// `reset_usage` and `reset_contract_usage` forget exactly the recorded usage
/// of their address or contract, whether or not it has an override or a
/// budget, and change nothing else.
pub proof fn law_resets_forget_exactly_their_usage(
    s: LimiterState,
    addr: AddressId,
    other: AddressId,
)
    requires
        other != addr,
    ensures
        !s.usage_reset(addr).usage.contains_key(addr),
        !s.contract_usage_reset(addr).contract_usage.contains_key(addr),
        s.usage_reset(addr).usage.get(other) == s.usage.get(other),
        s.contract_usage_reset(addr).contract_usage.get(other) == s.contract_usage.get(other),
        ({
            let t = s.usage_reset(addr);
            let u = s.contract_usage_reset(addr);
            &&& t.admin == s.admin && u.admin == s.admin
            &&& t.admin_bypass == s.admin_bypass && u.admin_bypass == s.admin_bypass
            &&& t.default_limit == s.default_limit && u.default_limit == s.default_limit
            &&& t.global_enabled == s.global_enabled && u.global_enabled == s.global_enabled
            &&& t.global_limit == s.global_limit && u.global_limit == s.global_limit
            &&& t.global_usage == s.global_usage && u.global_usage == s.global_usage
            &&& t.limits == s.limits && u.limits == s.limits
            &&& t.contract_limits == s.contract_limits && u.contract_limits == s.contract_limits
            &&& t.contract_usage == s.contract_usage
            &&& u.usage == s.usage
        }),
{
}

/// A contract usage reset followed by setting a budget gives a full bucket
/// at that budget, whether or not a budget was set at the time of the reset.
pub proof fn law_reset_then_budget_starts_full(
    s: LimiterState,
    contract: AddressId,
    limit: LimitConfig,
    now: u64,
)
    ensures
        s.contract_usage_reset(contract).with_contract_limit(contract, limit).contract_bucket(
            contract,
            now,
        ) == (Usage { last_update: now, tokens: limit.burst }),
{
}

/// `transfer_admin` changes exactly the admin, and nothing else.
pub proof fn law_transfer_admin_sets_exactly_the_admin(s: LimiterState, new_admin: AddressId)
    ensures
        ({
            let t = s.with_admin(new_admin);
            &&& t.admin == Some(new_admin)
            &&& t.admin_bypass == s.admin_bypass
            &&& t.default_limit == s.default_limit
            &&& t.global_enabled == s.global_enabled
            &&& t.global_limit == s.global_limit
            &&& t.global_usage == s.global_usage
            &&& t.limits == s.limits
            &&& t.usage == s.usage
            &&& t.contract_limits == s.contract_limits
            &&& t.contract_usage == s.contract_usage
        }),
{
}

/// After a usage reset the address starts again from a full bucket.
pub proof fn law_reset_usage_restores_full_bucket(s: LimiterState, addr: AddressId, now: u64)
    ensures
        s.usage_reset(addr).usage_at(addr, now) is None,
        s.usage_reset(addr).address_bucket(addr, now) == (Usage {
            last_update: now,
            tokens: s.limit_for(addr).burst,
        }),
{
}

/// After a contract usage reset the contract's shared bucket starts again
/// from full.
pub proof fn law_reset_contract_usage_restores_full_bucket(
    s: LimiterState,
    contract: AddressId,
    now: u64,
)
    requires
        s.contract_limits.contains_key(contract),
    ensures
        s.contract_usage_reset(contract).contract_usage_at(contract, now) is None,
        s.contract_usage_reset(contract).contract_bucket(contract, now) == (Usage {
            last_update: now,
            tokens: s.contract_limits[contract].burst,
        }),
{
}

/// After a transfer the new admin is the admin, and the bypass (when on)
/// follows it.
pub proof fn law_transfer_moves_the_bypass(s: LimiterState, new_admin: AddressId, other: AddressId)
    requires
        other != new_admin,
    ensures
        s.with_admin(new_admin).admin == Some(new_admin),
        s.with_admin(new_admin).bypassed(new_admin) == s.admin_bypass,
        !s.with_admin(new_admin).bypassed(other),
{
}

/// What `refill_in_seconds` of a served call promises about the subject's
/// bucket afterwards: `Some(0)`, a token is there now; `None`, the bucket
/// stays empty at every later time; `Some(1)`, one second later it holds a
/// token (for a bucket not dated after the call).
pub proof fn law_refill_in_seconds_is_kept(
    s: LimiterState,
    subject: AddressId,
    contract: Option<AddressId>,
    now: u64,
    later: u64,
)
    requires
        !s.bypassed(subject),
        s.consume_result(subject, contract, now) is Ok,
        now <= later,
    ensures
        ({
            let o = s.consume_result(subject, contract, now)->Ok_0;
            let t = s.after_consume(subject, contract, now);
            &&& o.refill_in_seconds == Some(0u64) ==> t.address_bucket(subject, now).tokens >= 1
            &&& o.refill_in_seconds is None ==> t.address_bucket(subject, later).tokens == 0
            &&& (o.refill_in_seconds == Some(1u64) && now < u64::MAX && (s.usage.contains_key(subject)
                ==> s.usage[subject].last_update <= now))
                ==> t.address_bucket(subject, (now + 1) as u64).tokens >= 1
        }),
{
    let limit = s.limit_for(subject);
    let b = s.address_bucket(subject, now);
    law_debit_is_seen_in_the_same_second(s.usage.get(subject), now, limit);
    let d = debited(b);
    assert(s.after_consume(subject, contract, now).usage.get(subject) == Some(d));
    assert(d.last_update >= now);
    if s.usage.contains_key(subject) ==> s.usage[subject].last_update <= now {
        assert(d.last_update == now);
    }
    assert(b.tokens <= limit.burst);
    if now < u64::MAX && d.last_update == now && limit.refill_rate > 0 {
        let r: int = limit.refill_rate as int;
        assert(((now + 1) - now) * r >= 1) by (nonlinear_arith)
            requires
                r >= 1,
        ;
    }
    if limit.refill_rate == 0 && later > d.last_update {
        let x: int = later - d.last_update;
        assert(x * 0 == 0);
    }
}

/// One operation on the limiter: a consumption at a ledger time, or a
/// change of configuration or a usage reset.
pub enum LimiterOp {
    /// `check_and_consume` (no contract) or `check_and_consume_for_contract`.
    Consume { subject: AddressId, contract: Option<AddressId>, now: u64 },
    /// `set_global_limit`.
    SetGlobalLimit { enabled: bool, limit: LimitConfig },
    /// `set_limit_for`.
    SetLimit { addr: AddressId, limit: LimitConfig },
    /// `clear_limit_for`.
    ClearLimit { addr: AddressId },
    /// `set_limit_for_contract`.
    SetContractLimit { contract: AddressId, limit: LimitConfig },
    /// `clear_limit_for_contract`.
    ClearContractLimit { contract: AddressId },
    /// `reset_usage`.
    ResetUsage { addr: AddressId },
    /// `reset_contract_usage`.
    ResetContractUsage { contract: AddressId },
    /// `transfer_admin`.
    TransferAdmin { new_admin: AddressId },
}

/// The state after `op`, as the operation's contract states it.
pub open spec fn apply(s: LimiterState, op: LimiterOp) -> LimiterState {
    match op {
        LimiterOp::Consume { subject, contract, now } => s.after_consume(subject, contract, now),
        LimiterOp::SetGlobalLimit { enabled, limit } => s.with_global_limit(enabled, limit),
        LimiterOp::SetLimit { addr, limit } => s.with_limit(addr, limit),
        LimiterOp::ClearLimit { addr } => s.without_limit(addr),
        LimiterOp::SetContractLimit { contract, limit } => s.with_contract_limit(contract, limit),
        LimiterOp::ClearContractLimit { contract } => s.without_contract_limit(contract),
        LimiterOp::ResetUsage { addr } => s.usage_reset(addr),
        LimiterOp::ResetContractUsage { contract } => s.contract_usage_reset(contract),
        LimiterOp::TransferAdmin { new_admin } => s.with_admin(new_admin),
    }
}

/// Whether `op` is a consumption that is served from `s` without the admin
/// bypass, that is, one that spends a token.
pub open spec fn charged(s: LimiterState, op: LimiterOp) -> bool {
    op matches LimiterOp::Consume { subject, contract, now } && !s.bypassed(subject)
        && s.consume_result(subject, contract, now) is Ok
}

/// The number of charged consumptions by `subject` when `ops` run in turn
/// from `s`.
pub open spec fn served_by(s: LimiterState, ops: Seq<LimiterOp>, subject: AddressId) -> nat
    decreases ops.len(),
{
    if ops.len() == 0 {
        0
    } else {
        served_by(apply(s, ops[0]), ops.drop_first(), subject) + if charged(s, ops[0])
            && ops[0]->Consume_subject == subject {
            1nat
        } else {
            0nat
        }
    }
}

/// The number of charged consumptions through `contract` when `ops` run in
/// turn from `s`.
pub open spec fn served_through(s: LimiterState, ops: Seq<LimiterOp>, contract: AddressId) -> nat
    decreases ops.len(),
{
    if ops.len() == 0 {
        0
    } else {
        served_through(apply(s, ops[0]), ops.drop_first(), contract) + if charged(s, ops[0])
            && ops[0]->Consume_contract == Some(contract) {
            1nat
        } else {
            0nat
        }
    }
}

/// Whether the consumptions among `ops` happen at times in `[start, end]`
/// that never go backwards.
pub open spec fn times_in_order(ops: Seq<LimiterOp>, start: u64, end: u64) -> bool {
    &&& forall|i: int|
        0 <= i < ops.len() && (#[trigger] ops[i] is Consume) ==> start <= ops[i]->Consume_now <= end
    &&& forall|i: int, j: int|
        0 <= i <= j < ops.len() && (#[trigger] ops[i] is Consume) && (#[trigger] ops[j] is Consume)
            ==> ops[i]->Consume_now <= ops[j]->Consume_now
}

proof fn lemma_rest_in_order(ops: Seq<LimiterOp>, start: u64, end: u64)
    requires
        ops.len() > 0,
        times_in_order(ops, start, end),
    ensures
        ops[0] is Consume ==> start <= ops[0]->Consume_now <= end && times_in_order(
            ops.drop_first(),
            ops[0]->Consume_now,
            end,
        ),
        !(ops[0] is Consume) ==> times_in_order(ops.drop_first(), start, end),
{
    let rest = ops.drop_first();
    assert forall|i: int| 0 <= i < rest.len() implies rest[i] == ops[i + 1] by {}
    if ops[0] is Consume {
        let now = ops[0]->Consume_now;
        assert forall|i: int| 0 <= i < rest.len() && (#[trigger] rest[i] is Consume) implies now
            <= rest[i]->Consume_now <= end by {
            assert(ops[i + 1] is Consume);
        }
        assert forall|i: int, j: int|
            0 <= i <= j < rest.len() && (#[trigger] rest[i] is Consume) && (
            #[trigger] rest[j] is Consume) implies rest[i]->Consume_now <= rest[j]->Consume_now by {
            assert(ops[i + 1] is Consume && ops[j + 1] is Consume);
        }
    } else {
        assert forall|i: int| 0 <= i < rest.len() && (#[trigger] rest[i] is Consume) implies start
            <= rest[i]->Consume_now <= end by {
            assert(ops[i + 1] is Consume);
        }
        assert forall|i: int, j: int|
            0 <= i <= j < rest.len() && (#[trigger] rest[i] is Consume) && (
            #[trigger] rest[j] is Consume) implies rest[i]->Consume_now <= rest[j]->Consume_now by {
            assert(ops[i + 1] is Consume && ops[j + 1] is Consume);
        }
    }
}

/// Whether `op` keeps the limit of `subject` at `limit` (given the default
/// limit `default`) and leaves its recorded usage alone: an override of
/// `subject` may only be set to `limit`, or cleared when the default is
/// `limit`, and its usage is not reset.
pub open spec fn keeps_address_bucket(
    op: LimiterOp,
    subject: AddressId,
    limit: LimitConfig,
    default: LimitConfig,
) -> bool {
    match op {
        LimiterOp::SetLimit { addr, limit: l } => addr != subject || l == limit,
        LimiterOp::ClearLimit { addr } => addr != subject || default == limit,
        LimiterOp::ResetUsage { addr } => addr != subject,
        _ => true,
    }
}

/// Whether `op` keeps the budget of `contract` at `limit` and leaves its
/// recorded usage alone: the budget may only be set to `limit` again, and is
/// neither cleared nor has its usage reset.
pub open spec fn keeps_contract_bucket(op: LimiterOp, contract: AddressId, limit: LimitConfig) -> bool {
    match op {
        LimiterOp::SetContractLimit { contract: c, limit: l } => c != contract || l == limit,
        LimiterOp::ClearContractLimit { contract: c } => c != contract,
        LimiterOp::ResetContractUsage { contract: c } => c != contract,
        _ => true,
    }
}

/// Token bucket capacity: whatever else happens between times `start` and
/// `end` (calls by other subjects, through any contracts, global and
/// contract settings, admin transfers, overrides of `subject` set or cleared
/// in ways that keep its limit at `limit`), as long as the usage of `subject`
/// is not reset, the calls of `subject` that are served
/// and charged never exceed the balance of its bucket at `start` plus
/// `(end - start) * refill_rate`, however they are spread within each
/// second. While `subject` is not an admin under an active bypass, every
/// served call of it is charged.
pub proof fn law_served_calls_within_bucket_capacity(
    s: LimiterState,
    subject: AddressId,
    limit: LimitConfig,
    ops: Seq<LimiterOp>,
    start: u64,
    end: u64,
)
    requires
        s.limit_for(subject) == limit,
        forall|i: int|
            0 <= i < ops.len() ==> keeps_address_bucket(
                #[trigger] ops[i],
                subject,
                limit,
                s.default_limit,
            ),
        start <= end,
        times_in_order(ops, start, end),
    ensures
        served_by(s, ops, subject) <= s.address_bucket(subject, start).tokens + (end - start)
            * limit.refill_rate,
    decreases ops.len(),
{
    let r: int = limit.refill_rate as int;
    if ops.len() == 0 {
        assert(0 <= (end - start) * r) by (nonlinear_arith)
            requires
                start <= end,
                0 <= r,
        ;
    } else {
        let op = ops[0];
        let next = apply(s, op);
        let rest = ops.drop_first();
        lemma_rest_in_order(ops, start, end);
        assert forall|i: int| 0 <= i < rest.len() implies keeps_address_bucket(
            #[trigger] rest[i],
            subject,
            limit,
            next.default_limit,
        ) by {
            assert(rest[i] == ops[i + 1]);
        }
        assert(keeps_address_bucket(op, subject, limit, s.default_limit));
        assert(next.limit_for(subject) == limit);
        match op {
            LimiterOp::Consume { subject: who, contract, now } => {
                law_served_calls_within_bucket_capacity(next, subject, limit, rest, now, end);
                law_bucket_growth_bounded(s.usage.get(subject), start, now, limit);
                if charged(s, op) && who == subject {
                    law_debit_is_seen_in_the_same_second(s.usage.get(subject), now, limit);
                    assert(next.usage.get(subject) == Some(debited(s.address_bucket(subject, now))));
                } else {
                    assert(next.usage.get(subject) == s.usage.get(subject));
                }
                assert((now - start) * r + (end - now) * r == (end - start) * r)
                    by (nonlinear_arith);
            },
            _ => {
                law_served_calls_within_bucket_capacity(next, subject, limit, rest, start, end);
                assert(next.usage.get(subject) == s.usage.get(subject));
            },
        }
    }
}

/// Address rotation cannot bypass a contract budget: whatever else happens
/// between times `start` and `end` (calls by any subjects, through any
/// contracts or none, other settings, admin transfers, the budget of
/// `contract` set again to `limit`), as long as the budget stays `limit` and
/// the usage of `contract` is not reset, the calls through
/// `contract` that are served and charged never exceed the balance of its
/// shared bucket at `start` plus `(end - start) * refill_rate` of its budget.
pub proof fn law_contract_budget_caps_all_subjects(
    s: LimiterState,
    contract: AddressId,
    limit: LimitConfig,
    ops: Seq<LimiterOp>,
    start: u64,
    end: u64,
)
    requires
        s.contract_limits.get(contract) == Some(limit),
        forall|i: int|
            0 <= i < ops.len() ==> keeps_contract_bucket(#[trigger] ops[i], contract, limit),
        start <= end,
        times_in_order(ops, start, end),
    ensures
        served_through(s, ops, contract) <= s.contract_bucket(contract, start).tokens + (end
            - start) * limit.refill_rate,
    decreases ops.len(),
{
    let r: int = limit.refill_rate as int;
    if ops.len() == 0 {
        assert(0 <= (end - start) * r) by (nonlinear_arith)
            requires
                start <= end,
                0 <= r,
        ;
    } else {
        let op = ops[0];
        let next = apply(s, op);
        let rest = ops.drop_first();
        lemma_rest_in_order(ops, start, end);
        assert forall|i: int| 0 <= i < rest.len() implies keeps_contract_bucket(
            #[trigger] rest[i],
            contract,
            limit,
        ) by {
            assert(rest[i] == ops[i + 1]);
        }
        assert(keeps_contract_bucket(op, contract, limit));
        assert(next.contract_limits.get(contract) == Some(limit));
        match op {
            LimiterOp::Consume { subject, contract: through, now } => {
                law_contract_budget_caps_all_subjects(next, contract, limit, rest, now, end);
                law_bucket_growth_bounded(s.contract_usage.get(contract), start, now, limit);
                if charged(s, op) && through == Some(contract) {
                    law_debit_is_seen_in_the_same_second(s.contract_usage.get(contract), now, limit);
                    assert(next.contract_usage.get(contract) == Some(
                        debited(s.contract_bucket(contract, now)),
                    ));
                } else {
                    assert(next.contract_usage.get(contract) == s.contract_usage.get(contract));
                }
                assert((now - start) * r + (end - now) * r == (end - start) * r)
                    by (nonlinear_arith);
            },
            _ => {
                law_contract_budget_caps_all_subjects(next, contract, limit, rest, start, end);
                assert(next.contract_usage.get(contract) == s.contract_usage.get(contract));
            },
        }
    }
}


/// The number of charged consumptions when `ops` run in turn from `s`.
pub open spec fn served_all(s: LimiterState, ops: Seq<LimiterOp>) -> nat
    decreases ops.len(),
{
    if ops.len() == 0 {
        0
    } else {
        served_all(apply(s, ops[0]), ops.drop_first()) + if charged(s, ops[0]) {
            1nat
        } else {
            0nat
        }
    }
}

/// Whether `op` keeps the global limit enabled at `limit`: the global limit
/// may only be set again, enabled, to `limit`.
pub open spec fn keeps_global_bucket(op: LimiterOp, limit: LimitConfig) -> bool {
    match op {
        LimiterOp::SetGlobalLimit { enabled, limit: l } => enabled && l == limit,
        _ => true,
    }
}

/// The global limit caps everyone together: while it stays enabled at
/// `limit`, whatever else happens between times `start` and `end`, the
/// charged calls of all subjects through any contracts never exceed the
/// global bucket's balance at `start` plus `(end - start) * refill_rate`.
pub proof fn law_global_limit_caps_all_calls(
    s: LimiterState,
    limit: LimitConfig,
    ops: Seq<LimiterOp>,
    start: u64,
    end: u64,
)
    requires
        s.global_enabled,
        s.global_limit == limit,
        forall|i: int| 0 <= i < ops.len() ==> keeps_global_bucket(#[trigger] ops[i], limit),
        start <= end,
        times_in_order(ops, start, end),
    ensures
        served_all(s, ops) <= s.global_bucket(start).tokens + (end - start) * limit.refill_rate,
    decreases ops.len(),
{
    let r: int = limit.refill_rate as int;
    if ops.len() == 0 {
        assert(0 <= (end - start) * r) by (nonlinear_arith)
            requires
                start <= end,
                0 <= r,
        ;
    } else {
        let op = ops[0];
        let next = apply(s, op);
        let rest = ops.drop_first();
        lemma_rest_in_order(ops, start, end);
        assert forall|i: int| 0 <= i < rest.len() implies keeps_global_bucket(#[trigger] rest[i], limit) by {
            assert(rest[i] == ops[i + 1]);
        }
        assert(keeps_global_bucket(op, limit));
        assert(next.global_enabled && next.global_limit == limit);
        match op {
            LimiterOp::Consume { subject, contract, now } => {
                law_global_limit_caps_all_calls(next, limit, rest, now, end);
                law_bucket_growth_bounded(s.global_usage, start, now, limit);
                if charged(s, op) {
                    law_debit_is_seen_in_the_same_second(s.global_usage, now, limit);
                    assert(next.global_usage == Some(debited(s.global_bucket(now))));
                } else {
                    assert(next.global_usage == s.global_usage);
                }
                assert((now - start) * r + (end - now) * r == (end - start) * r)
                    by (nonlinear_arith);
            },
            _ => {
                law_global_limit_caps_all_calls(next, limit, rest, start, end);
                assert(next.global_usage == s.global_usage);
            },
        }
    }
}

} // verus!
