use stellopay_core::address::Address;
use stellopay_core::env::Env;
use stellopay_core::rate_limiter::{
    GlobalLimit, LimitConfig, RateLimiter, RateLimiterEvent, RateLimiterFault, Usage,
};

fn addr(n: u8) -> Address {
    Address { strkey: [n; 56] }
}

fn at(timestamp: u64, authorized: &[u8]) -> Env {
    Env {
        contract: addr(99),
        timestamp,
        authorized: authorized.iter().map(|n| addr(*n)).collect(),
    }
}

const ADMIN: u8 = 1;

fn limiter(burst: u32, rate: u32, bypass: bool) -> RateLimiter {
    let mut limiter = RateLimiter::new();
    limiter.initialize(&at(0, &[ADMIN]), addr(ADMIN), burst, rate, bypass).unwrap();
    limiter
}

fn take(limiter: &mut RateLimiter, now: u64, who: u8) -> Result<u32, RateLimiterFault> {
    limiter.check_and_consume(&at(now, &[who]), addr(who))
}

const EXCEEDED: Result<u32, RateLimiterFault> = Err(RateLimiterFault::RateLimitExceeded);

#[test]
fn refill_is_whole_tokens_for_whole_seconds() {
    let usage = Usage { last_update: 100, tokens: 3 };
    let refill =
        |now: u64, burst: u32, rate: u32| RateLimiter::preview_refill(usage, now, burst, rate);
    assert_eq!(refill(100, 50, 7), usage);
    assert_eq!(refill(99, 50, 7), usage);
    assert_eq!(refill(101, 50, 7), Usage { last_update: 101, tokens: 10 });
    assert_eq!(refill(105, 50, 7), Usage { last_update: 105, tokens: 38 });
    assert_eq!(refill(107, 50, 7), Usage { last_update: 107, tokens: 50 });
    assert_eq!(refill(101, 2, 7), Usage { last_update: 101, tokens: 2 });
    assert_eq!(refill(100, 2, 7), usage);
    assert_eq!(refill(5_000, 50, 0), Usage { last_update: 5_000, tokens: 3 });
}

#[test]
fn long_pauses_fill_the_bucket() {
    let usage = Usage { last_update: 0, tokens: 0 };
    let long = 1u64 << 32;
    assert_eq!(
        RateLimiter::preview_refill(usage, long, 1_000, 1),
        Usage { last_update: long, tokens: 1_000 }
    );
    assert_eq!(
        RateLimiter::preview_refill(usage, u64::MAX, u32::MAX, u32::MAX),
        Usage { last_update: u64::MAX, tokens: u32::MAX }
    );
}

#[test]
fn limiter_is_initialized_once() {
    let mut limiter = RateLimiter::new();
    assert_eq!(limiter.get_admin(), None);
    assert_eq!(
        limiter.get_limit_for(&addr(5)),
        LimitConfig { burst: 0, refill_rate: 0 }
    );
    assert_eq!(take(&mut limiter, 0, 5), Err(RateLimiterFault::NotInitialized));
    assert_eq!(
        limiter.set_limit_for(&at(0, &[ADMIN]), addr(5), 1, 1),
        Err(RateLimiterFault::AdminNotSet)
    );
    assert_eq!(
        limiter.initialize(&at(0, &[]), addr(ADMIN), 1, 1, true),
        Err(RateLimiterFault::Unauthenticated)
    );
    assert_eq!(limiter.initialize(&at(0, &[ADMIN]), addr(ADMIN), 4, 1, true), Ok(()));
    assert_eq!(
        limiter.initialize(&at(0, &[ADMIN]), addr(ADMIN), 4, 1, true),
        Err(RateLimiterFault::AlreadyInitialized)
    );
    assert_eq!(limiter.get_admin(), Some(addr(ADMIN)));
    assert_eq!(
        limiter.events,
        vec![RateLimiterEvent::Initialized {
            admin: addr(ADMIN),
            limit: LimitConfig { burst: 4, refill_rate: 1 },
            admin_bypass: true,
        }]
    );
}

#[test]
fn burst_is_drawn_down_and_refilled() {
    let mut limiter = limiter(3, 2, false);
    assert_eq!(take(&mut limiter, 10, 5), Ok(2));
    assert_eq!(take(&mut limiter, 10, 5), Ok(1));
    assert_eq!(take(&mut limiter, 10, 5), Ok(0));
    assert_eq!(take(&mut limiter, 10, 5), EXCEEDED);
    assert_eq!(take(&mut limiter, 10, 6), Ok(2));
    assert_eq!(take(&mut limiter, 11, 5), Ok(1));
    assert_eq!(take(&mut limiter, 100, 5), Ok(2));
}

#[test]
fn subject_has_to_authorize_its_own_request() {
    let mut limiter = limiter(3, 2, false);
    assert_eq!(
        limiter.check_and_consume(&at(0, &[6]), addr(5)),
        Err(RateLimiterFault::Unauthenticated)
    );
    assert_eq!(limiter.get_usage(&at(0, &[]), &addr(5)), None);
    assert_eq!(
        limiter.check_and_consume_for_contract(&at(0, &[]), addr(5), addr(50)),
        Ok(2)
    );
}

#[test]
fn admin_is_exempt_only_with_the_bypass() {
    let mut open = limiter(0, 0, true);
    assert_eq!(take(&mut open, 0, ADMIN), Ok(u32::MAX));
    assert_eq!(take(&mut open, 0, 5), EXCEEDED);
    assert_eq!(open.get_usage(&at(0, &[]), &addr(ADMIN)), None);
    let mut strict = limiter(1, 0, false);
    assert_eq!(take(&mut strict, 0, ADMIN), Ok(0));
    assert_eq!(take(&mut strict, 0, ADMIN), EXCEEDED);
}

#[test]
fn own_limit_comes_before_the_default() {
    let mut limiter = limiter(1, 0, false);
    let admin = at(0, &[ADMIN]);
    assert_eq!(limiter.set_limit_for(&admin, addr(5), 2, 9), Ok(()));
    assert_eq!(
        limiter.get_limit_for(&addr(5)),
        LimitConfig { burst: 2, refill_rate: 9 }
    );
    assert_eq!(take(&mut limiter, 0, 5), Ok(1));
    assert_eq!(take(&mut limiter, 0, 6), Ok(0));
    assert_eq!(limiter.clear_limit_for(&admin, addr(5)), Ok(()));
    assert_eq!(
        limiter.get_limit_for(&addr(5)),
        LimitConfig { burst: 1, refill_rate: 0 }
    );
    assert_eq!(
        limiter.set_limit_for(&at(0, &[5]), addr(5), 9, 9),
        Err(RateLimiterFault::Unauthenticated)
    );
    assert_eq!(
        limiter.clear_limit_for(&at(0, &[5]), addr(5)),
        Err(RateLimiterFault::Unauthenticated)
    );
}

#[test]
fn contract_budget_holds_for_changing_subjects() {
    let mut limiter = limiter(10, 0, false);
    let admin = at(0, &[ADMIN]);
    assert_eq!(limiter.get_limit_for_contract(&addr(50)), None);
    assert_eq!(limiter.set_limit_for_contract(&admin, addr(50), 2, 1), Ok(()));
    assert_eq!(
        limiter.get_limit_for_contract(&addr(50)),
        Some(LimitConfig { burst: 2, refill_rate: 1 })
    );
    let now = at(5, &[]);
    assert_eq!(limiter.get_contract_usage(&now, &addr(50)), None);
    assert_eq!(limiter.check_and_consume_for_contract(&now, addr(5), addr(50)), Ok(9));
    assert_eq!(limiter.check_and_consume_for_contract(&now, addr(6), addr(50)), Ok(9));
    assert_eq!(
        limiter.check_and_consume_for_contract(&now, addr(7), addr(50)),
        Err(RateLimiterFault::RateLimitExceeded)
    );
    assert_eq!(limiter.get_usage(&now, &addr(7)), None);
    assert_eq!(
        limiter.get_contract_usage(&now, &addr(50)),
        Some(Usage { last_update: 5, tokens: 0 })
    );
    assert_eq!(limiter.check_and_consume_for_contract(&now, addr(7), addr(51)), Ok(9));
    let later = at(6, &[]);
    assert_eq!(limiter.check_and_consume_for_contract(&later, addr(7), addr(50)), Ok(8));
}

#[test]
fn empty_subject_bucket_leaves_the_contract_bucket_full() {
    let mut limiter = limiter(1, 0, false);
    limiter.set_limit_for_contract(&at(0, &[ADMIN]), addr(50), 5, 0).unwrap();
    let now = at(5, &[]);
    assert_eq!(limiter.check_and_consume_for_contract(&now, addr(5), addr(50)), Ok(0));
    assert_eq!(
        limiter.check_and_consume_for_contract(&now, addr(5), addr(50)),
        Err(RateLimiterFault::RateLimitExceeded)
    );
    assert_eq!(
        limiter.get_contract_usage(&now, &addr(50)),
        Some(Usage { last_update: 5, tokens: 4 })
    );
}

#[test]
fn cleared_contract_budget_keeps_its_record() {
    let mut limiter = limiter(9, 0, false);
    let admin = at(0, &[ADMIN]);
    limiter.set_limit_for_contract(&admin, addr(50), 5, 0).unwrap();
    limiter.check_and_consume_for_contract(&admin, addr(5), addr(50)).unwrap();
    assert_eq!(limiter.clear_limit_for_contract(&admin, addr(50)), Ok(()));
    assert_eq!(limiter.get_contract_usage(&admin, &addr(50)), None);
    assert_eq!(limiter.check_and_consume_for_contract(&admin, addr(5), addr(50)), Ok(7));
    limiter.set_limit_for_contract(&admin, addr(50), 5, 0).unwrap();
    assert_eq!(
        limiter.get_contract_usage(&admin, &addr(50)),
        Some(Usage { last_update: 0, tokens: 4 })
    );
    assert_eq!(limiter.reset_contract_usage(&admin, addr(50)), Ok(()));
    assert_eq!(limiter.get_contract_usage(&admin, &addr(50)), None);
    assert_eq!(limiter.clear_limit_for_contract(&admin, addr(60)), Ok(()));
    assert_eq!(
        limiter.events.last(),
        Some(&RateLimiterEvent::ContractLimitCleared(addr(60)))
    );
}

#[test]
fn global_limit_holds_for_everyone_together() {
    let mut limiter = limiter(10, 0, false);
    let admin = at(0, &[ADMIN]);
    assert_eq!(limiter.set_global_limit(&admin, true, 2, 1), Ok(()));
    assert_eq!(
        limiter.events.last(),
        Some(&RateLimiterEvent::GlobalLimitSet(GlobalLimit {
            enabled: true,
            limit: LimitConfig { burst: 2, refill_rate: 1 },
        }))
    );
    assert_eq!(take(&mut limiter, 5, 5), Ok(9));
    assert_eq!(take(&mut limiter, 5, 6), Ok(9));
    assert_eq!(take(&mut limiter, 5, 7), EXCEEDED);
    assert_eq!(take(&mut limiter, 6, 7), Ok(9));
    limiter.set_global_limit(&admin, false, 0, 0).unwrap();
    assert_eq!(take(&mut limiter, 6, 7), Ok(8));
}

#[test]
fn refused_request_does_not_draw_from_the_global_bucket() {
    let mut limiter = limiter(0, 0, false);
    limiter.set_global_limit(&at(0, &[ADMIN]), true, 5, 0).unwrap();
    assert_eq!(take(&mut limiter, 3, 5), EXCEEDED);
    assert_eq!(limiter.global_usage, None);
}

#[test]
fn preview_shows_what_the_next_request_finds() {
    let mut limiter = limiter(5, 2, false);
    assert_eq!(limiter.get_usage(&at(0, &[]), &addr(5)), None);
    take(&mut limiter, 0, 5).unwrap();
    take(&mut limiter, 0, 5).unwrap();
    let seen = limiter.get_usage(&at(1, &[]), &addr(5)).unwrap();
    assert_eq!(seen, Usage { last_update: 1, tokens: 5 });
    assert_eq!(limiter.get_usage(&at(1, &[]), &addr(5)), Some(seen));
    assert_eq!(take(&mut limiter, 1, 5), Ok(seen.tokens - 1));
}

#[test]
fn reset_fills_the_bucket_again() {
    let mut limiter = limiter(2, 0, false);
    take(&mut limiter, 0, 5).unwrap();
    take(&mut limiter, 0, 5).unwrap();
    assert_eq!(
        limiter.reset_usage(&at(0, &[5]), addr(5)),
        Err(RateLimiterFault::Unauthenticated)
    );
    assert_eq!(limiter.reset_usage(&at(0, &[ADMIN]), addr(5)), Ok(()));
    assert_eq!(limiter.get_usage(&at(0, &[]), &addr(5)), None);
    assert_eq!(take(&mut limiter, 0, 5), Ok(1));
}

#[test]
fn admin_role_is_passed_on() {
    let mut limiter = limiter(1, 0, true);
    assert_eq!(
        limiter.transfer_admin(&at(0, &[7]), addr(7)),
        Err(RateLimiterFault::Unauthenticated)
    );
    assert_eq!(limiter.transfer_admin(&at(0, &[ADMIN]), addr(7)), Ok(()));
    assert_eq!(limiter.get_admin(), Some(addr(7)));
    assert_eq!(
        limiter.events.last(),
        Some(&RateLimiterEvent::AdminTransferred { old_admin: addr(ADMIN), new_admin: addr(7) })
    );
    assert_eq!(
        limiter.reset_usage(&at(0, &[ADMIN]), addr(5)),
        Err(RateLimiterFault::Unauthenticated)
    );
    assert_eq!(take(&mut limiter, 0, 7), Ok(u32::MAX));
    assert_eq!(take(&mut limiter, 0, ADMIN), Ok(0));
}

#[test]
fn budget_bounds_what_is_granted_over_time() {
    let mut limiter = limiter(1_000, 0, false);
    limiter.set_limit_for_contract(&at(0, &[ADMIN]), addr(50), 3, 2).unwrap();
    let mut granted = 0;
    for now in 0..10u64 {
        for who in 10..40u8 {
            let r = limiter.check_and_consume_for_contract(&at(now, &[]), addr(who), addr(50));
            if r.is_ok() {
                granted += 1;
            }
        }
    }
    assert_eq!(granted, 3 + 2 * 9);
}
