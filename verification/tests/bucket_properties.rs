use rate_limiter::{LimitConfig, RateLimitError, RateLimiter, Usage};

const ADMIN: u64 = 1;

#[test]
fn preview_refill_credits_elapsed_seconds_times_rate() {
    let u = Usage { last_update: 100, tokens: 1 };
    assert_eq!(
        RateLimiter::preview_refill(u, 103, 10, 2),
        Usage { last_update: 103, tokens: 7 }
    );
}

#[test]
fn preview_refill_caps_at_burst() {
    let u = Usage { last_update: 100, tokens: 1 };
    assert_eq!(
        RateLimiter::preview_refill(u, 200, 10, 2),
        Usage { last_update: 200, tokens: 10 }
    );
}

#[test]
fn preview_refill_same_second_is_unchanged() {
    let u = Usage { last_update: 100, tokens: 3 };
    assert_eq!(RateLimiter::preview_refill(u, 100, 10, 5), u);
}

#[test]
fn preview_refill_earlier_time_is_unchanged() {
    let u = Usage { last_update: 100, tokens: 3 };
    assert_eq!(RateLimiter::preview_refill(u, 50, 10, 5), u);
}

#[test]
fn preview_refill_is_idempotent_within_a_second() {
    let u = Usage { last_update: 100, tokens: 1 };
    let once = RateLimiter::preview_refill(u, 104, 50, 3);
    assert_eq!(RateLimiter::preview_refill(once, 104, 50, 3), once);
}

#[test]
fn preview_refill_saturates_large_credit() {
    let u = Usage { last_update: 0, tokens: u32::MAX - 1 };
    assert_eq!(
        RateLimiter::preview_refill(u, 10, u32::MAX, u32::MAX),
        Usage { last_update: 10, tokens: u32::MAX }
    );
}

#[test]
fn preview_refill_caps_balance_above_a_lowered_burst() {
    let u = Usage { last_update: 0, tokens: 9 };
    assert_eq!(
        RateLimiter::preview_refill(u, 1, 4, 0),
        Usage { last_update: 1, tokens: 4 }
    );
}

#[test]
fn preview_refill_after_a_very_long_idle_gap_is_full() {
    let u = Usage { last_update: 0, tokens: 0 };
    assert_eq!(
        RateLimiter::preview_refill(u, 1u64 << 32, 10, 2),
        Usage { last_update: 1u64 << 32, tokens: 10 }
    );
    assert_eq!(
        RateLimiter::preview_refill(u, u64::MAX, u32::MAX, u32::MAX),
        Usage { last_update: u64::MAX, tokens: u32::MAX }
    );
    assert_eq!(
        RateLimiter::preview_refill(u, (1u64 << 32) + 3, u32::MAX, 1),
        Usage { last_update: (1u64 << 32) + 3, tokens: u32::MAX }
    );
}

#[test]
fn preview_refill_caps_a_stale_balance_in_the_same_second() {
    let u = Usage { last_update: 100, tokens: 7 };
    assert_eq!(
        RateLimiter::preview_refill(u, 100, 3, 0),
        Usage { last_update: 100, tokens: 3 }
    );
}

#[test]
fn clearing_a_larger_override_caps_the_bucket_at_the_default_burst() {
    let mut l = RateLimiter::new();
    l.initialize(ADMIN, 3, 0, false);
    l.set_limit_for(2, 10, 0);
    for _ in 0..3 {
        l.check_and_consume(2, 0).unwrap();
    }
    l.clear_limit_for(2);
    assert_eq!(l.get_usage(2, 0), Some(Usage { last_update: 0, tokens: 3 }));
    assert_eq!(l.check_and_consume(2, 0).unwrap().remaining, 2);
}

#[test]
fn refill_in_seconds_table() {
    assert_eq!(RateLimiter::refill_in_seconds(3, 0), Some(0));
    assert_eq!(RateLimiter::refill_in_seconds(0, 0), None);
    assert_eq!(RateLimiter::refill_in_seconds(0, 7), Some(1));
}

#[test]
fn new_limiter_is_uninitialized_with_zero_default() {
    let l = RateLimiter::new();
    assert!(!l.is_initialized());
    assert_eq!(l.get_admin(), None);
    assert_eq!(l.get_limit_for(5), LimitConfig { burst: 0, refill_rate: 0 });
}

#[test]
fn rejection_changes_nothing() {
    let mut l = RateLimiter::new();
    l.initialize(ADMIN, 1, 1, false);
    l.check_and_consume(2, 10).unwrap();
    let before = l.get_usage(2, 10);
    assert_eq!(l.check_and_consume(2, 10), Err(RateLimitError::RateLimitExceeded));
    assert_eq!(l.get_usage(2, 10), before);
    // The stored bucket still dates from time 10, so one second later the
    // refill is credited from there.
    assert_eq!(l.get_usage(2, 11), Some(Usage { last_update: 11, tokens: 1 }));
}

#[test]
fn rejection_by_global_bucket_does_not_debit_the_address() {
    let mut l = RateLimiter::new();
    l.initialize(ADMIN, 5, 0, false);
    l.set_global_limit(true, 1, 0);
    l.check_and_consume(2, 0).unwrap();
    assert_eq!(l.check_and_consume(3, 0), Err(RateLimitError::RateLimitExceeded));
    assert_eq!(l.get_usage(3, 0), None);
}

#[test]
fn global_bucket_refills_over_time() {
    let mut l = RateLimiter::new();
    l.initialize(ADMIN, 5, 0, false);
    l.set_global_limit(true, 1, 1);
    assert!(l.check_and_consume(2, 0).is_ok());
    assert!(l.check_and_consume(3, 0).is_err());
    assert!(l.check_and_consume(3, 1).is_ok());
}

#[test]
fn disabling_the_global_limit_stops_enforcing_it() {
    let mut l = RateLimiter::new();
    l.initialize(ADMIN, 5, 0, false);
    l.set_global_limit(true, 1, 0);
    l.check_and_consume(2, 0).unwrap();
    l.set_global_limit(false, 1, 0);
    assert_eq!(l.check_and_consume(3, 0).unwrap().remaining, 4);
}

#[test]
fn bypass_off_treats_admin_as_any_subject() {
    let mut l = RateLimiter::new();
    l.initialize(ADMIN, 1, 0, false);
    assert_eq!(l.check_and_consume(ADMIN, 0).unwrap().remaining, 0);
    assert!(l.check_and_consume(ADMIN, 0).is_err());
}

#[test]
fn bypass_follows_transferred_admin() {
    let mut l = RateLimiter::new();
    l.initialize(ADMIN, 0, 0, true);
    l.transfer_admin(7);
    assert_eq!(l.check_and_consume(7, 0).unwrap().remaining, u32::MAX);
    assert!(l.check_and_consume(ADMIN, 0).is_err());
}

#[test]
fn bypassed_admin_is_never_debited() {
    let mut l = RateLimiter::new();
    l.initialize(ADMIN, 3, 0, true);
    l.check_and_consume(ADMIN, 0).unwrap();
    assert_eq!(l.get_usage(ADMIN, 0), None);
}

#[test]
fn contract_usage_reads_back_refilled() {
    let mut l = RateLimiter::new();
    let contract = 9;
    l.initialize(ADMIN, 10, 0, false);
    l.set_limit_for_contract(contract, 4, 1);
    l.check_and_consume_for_contract(2, contract, 100).unwrap();
    l.check_and_consume_for_contract(3, contract, 100).unwrap();
    assert_eq!(
        l.get_contract_usage(contract, 100),
        Some(Usage { last_update: 100, tokens: 2 })
    );
    assert_eq!(
        l.get_contract_usage(contract, 101),
        Some(Usage { last_update: 101, tokens: 3 })
    );
}

#[test]
fn cleared_contract_budget_hides_its_usage_but_keeps_it() {
    let mut l = RateLimiter::new();
    let contract = 9;
    l.initialize(ADMIN, 10, 0, false);
    l.set_limit_for_contract(contract, 2, 0);
    l.check_and_consume_for_contract(2, contract, 0).unwrap();
    l.clear_limit_for_contract(contract);
    assert_eq!(l.get_contract_usage(contract, 0), None);
    l.set_limit_for_contract(contract, 2, 0);
    assert_eq!(
        l.get_contract_usage(contract, 0),
        Some(Usage { last_update: 0, tokens: 1 })
    );
}

#[test]
fn served_call_debits_every_enforced_bucket_once() {
    let mut l = RateLimiter::new();
    let contract = 9;
    l.initialize(ADMIN, 5, 0, false);
    l.set_global_limit(true, 3, 0);
    l.set_limit_for_contract(contract, 4, 0);
    assert_eq!(l.check_and_consume_for_contract(2, contract, 0).unwrap().remaining, 4);
    assert_eq!(l.get_contract_usage(contract, 0), Some(Usage { last_update: 0, tokens: 3 }));
    assert_eq!(l.get_usage(2, 0), Some(Usage { last_update: 0, tokens: 4 }));
    // Two more calls drain the global bucket (3 tokens).
    l.check_and_consume_for_contract(3, contract, 0).unwrap();
    l.check_and_consume(4, 0).unwrap();
    assert_eq!(
        l.check_and_consume_for_contract(5, contract, 0),
        Err(RateLimitError::RateLimitExceeded)
    );
}

#[test]
fn served_calls_stay_within_bucket_capacity() {
    let mut l = RateLimiter::new();
    l.initialize(ADMIN, 4, 2, false);
    let mut served = 0u32;
    for t in 0..20u64 {
        for _ in 0..5 {
            if l.check_and_consume(2, t).is_ok() {
                served += 1;
            }
        }
    }
    // Bucket of 4 at time 0, plus 19 seconds at 2 tokens per second.
    assert_eq!(served, 4 + 19 * 2);
}

#[test]
fn rotation_through_a_contract_stays_within_its_budget() {
    let mut l = RateLimiter::new();
    let contract = 9;
    l.initialize(ADMIN, 100, 100, false);
    l.set_limit_for_contract(contract, 3, 1);
    let mut served = 0u32;
    for t in 0..10u64 {
        for subject in 10..20u64 {
            if l.check_and_consume_for_contract(subject, contract, t).is_ok() {
                served += 1;
            }
        }
    }
    assert_eq!(served, 3 + 9);
}

#[test]
fn refill_in_one_second_is_kept() {
    let mut l = RateLimiter::new();
    l.initialize(ADMIN, 1, 3, false);
    let o = l.check_and_consume(2, 50).unwrap();
    assert_eq!(o.refill_in_seconds, Some(1));
    assert!(l.check_and_consume(2, 50).is_err());
    assert!(l.check_and_consume(2, 51).is_ok());
}

#[test]
fn refill_never_with_zero_rate_is_kept() {
    let mut l = RateLimiter::new();
    l.initialize(ADMIN, 1, 0, false);
    assert_eq!(l.check_and_consume(2, 50).unwrap().refill_in_seconds, None);
    assert_eq!(l.get_usage(2, 1_000_000), Some(Usage { last_update: 1_000_000, tokens: 0 }));
}

#[test]
fn clearing_an_override_keeps_recorded_usage() {
    let mut l = RateLimiter::new();
    l.initialize(ADMIN, 5, 0, false);
    l.set_limit_for(2, 3, 0);
    l.check_and_consume(2, 0).unwrap();
    l.clear_limit_for(2);
    assert_eq!(l.get_usage(2, 0), Some(Usage { last_update: 0, tokens: 2 }));
    assert_eq!(l.check_and_consume(2, 0).unwrap().remaining, 1);
}

#[test]
fn interleaved_subjects_each_stay_within_their_own_capacity() {
    let mut l = RateLimiter::new();
    l.initialize(ADMIN, 3, 1, false);
    l.set_global_limit(true, 2, 1);
    let mut served = [0u32; 3];
    for t in 0..10u64 {
        for subject in 0..3u64 {
            for _ in 0..2 {
                if l.check_and_consume(10 + subject, t).is_ok() {
                    served[subject as usize] += 1;
                }
            }
        }
    }
    for n in served {
        // Each subject: bucket of 3 at time 0 plus 9 seconds at 1 per second.
        assert!(n <= 3 + 9);
    }
    // The global bucket (2 at time 0, 1 per second) binds all of them.
    assert_eq!(served.iter().sum::<u32>(), 2 + 9);
}

#[test]
fn contract_budget_holds_across_other_configuration_changes() {
    let mut l = RateLimiter::new();
    let contract = 9;
    l.initialize(ADMIN, 100, 100, false);
    l.set_limit_for_contract(contract, 2, 0);
    assert!(l.check_and_consume_for_contract(2, contract, 0).is_ok());
    l.set_limit_for(3, 50, 5);
    l.set_global_limit(false, 0, 0);
    l.reset_usage(2);
    assert!(l.check_and_consume_for_contract(3, contract, 0).is_ok());
    assert!(l.check_and_consume_for_contract(4, contract, 5).is_err());
}

#[test]
fn capacity_holds_when_the_same_limit_is_set_again() {
    let mut l = RateLimiter::new();
    l.initialize(ADMIN, 2, 1, false);
    let mut served = 0u32;
    for t in 0..6u64 {
        l.set_limit_for(2, 2, 1);
        for _ in 0..3 {
            if l.check_and_consume(2, t).is_ok() {
                served += 1;
            }
        }
        l.clear_limit_for(2);
    }
    assert_eq!(served, 2 + 5);
}
