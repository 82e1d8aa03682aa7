use stellopay_core::address::Address;
use stellopay_core::env::Env;
use stellopay_core::price_oracle::{
    bucket_for_timestamp, within_tolerance, FxUpdate, OracleError, OracleEvent, OracleFault, Pair,
    PairConfig, PairState, PriceDecision, PriceOracleContract, PriceReport,
};

fn addr(n: u8) -> Address {
    Address { strkey: [n; 56] }
}

fn at(timestamp: u64, authorized: &[u8]) -> Env {
    Env {
        contract: addr(99),
        timestamp,
        authorized: authorized.iter().map(|n| addr(*n)).collect(),
    }
}

const OWNER: u8 = 1;
const PAYROLL: u8 = 2;
const BASE: u8 = 3;
const QUOTE: u8 = 4;

fn configure(oracle: &mut PriceOracleContract, quorum_n: u32, interval: u64) {
    oracle
        .configure_pair(
            &at(0, &[OWNER]),
            addr(OWNER),
            addr(BASE),
            addr(QUOTE),
            500_000,
            2_000_000,
            300,
            quorum_n,
            100,
            60,
            interval,
        )
        .unwrap();
}

fn oracle_with(quorum_n: u32, sources: &[u8]) -> PriceOracleContract {
    let mut oracle = PriceOracleContract::new();
    oracle.initialize(&at(0, &[OWNER]), addr(OWNER), addr(PAYROLL)).unwrap();
    for s in sources {
        oracle.add_source(&at(0, &[OWNER]), addr(OWNER), addr(*s)).unwrap();
    }
    configure(&mut oracle, quorum_n, 0);
    oracle
}

fn push(
    oracle: &mut PriceOracleContract,
    now: u64,
    source: u8,
    rate: i128,
    ts: u64,
) -> Result<(), OracleFault> {
    oracle.push_price(&at(now, &[source]), addr(source), addr(BASE), addr(QUOTE), rate, ts, true)
}

fn read(oracle: &mut PriceOracleContract, now: u64) -> Result<PairState, OracleError> {
    oracle.get_pair_state(&at(now, &[]), addr(BASE), addr(QUOTE))
}

fn fails(error: OracleError) -> Result<(), OracleFault> {
    Err(OracleFault::Error(error))
}

#[test]
fn test_within_tolerance_rejects_non_positive_inputs() {
    assert!(!within_tolerance(0, 1, 10));
    assert!(!within_tolerance(1, 0, 10));
}

#[test]
fn test_within_tolerance_rejects_diff_overflow() {
    assert!(!within_tolerance(i128::MAX, 1, 10));
}

#[test]
fn test_within_tolerance_rejects_rhs_overflow() {
    assert!(!within_tolerance(i128::MAX / 2 + 1, i128::MAX / 2 + 1, u32::MAX));
}

#[test]
fn tolerance_is_exact_at_its_edge() {
    assert!(within_tolerance(1_000_000, 1_010_000, 100));
    assert!(within_tolerance(1_000_000, 990_000, 100));
    assert!(!within_tolerance(1_000_000, 1_010_001, 100));
    assert!(!within_tolerance(1_000_000, 989_999, 100));
    assert!(within_tolerance(7, 7, 0));
    assert!(!within_tolerance(-1, -1, 10_000));
}

#[test]
fn buckets_are_windows_of_time() {
    assert_eq!(bucket_for_timestamp(0, 60), 0);
    assert_eq!(bucket_for_timestamp(59, 60), 0);
    assert_eq!(bucket_for_timestamp(60, 60), 1);
    assert_eq!(bucket_for_timestamp(u64::MAX, 1), u64::MAX);
}

#[test]
fn oracle_error_codes_are_stable() {
    assert_eq!(OracleError::NotInitialized.code(), 1);
    assert_eq!(OracleError::AlreadyInitialized.code(), 2);
    assert_eq!(OracleError::NotAuthorized.code(), 3);
    assert_eq!(OracleError::InvalidSource.code(), 4);
    assert_eq!(OracleError::PairNotConfigured.code(), 5);
    assert_eq!(OracleError::RateOutOfBounds.code(), 6);
    assert_eq!(OracleError::RateStale.code(), 7);
    assert_eq!(OracleError::FxUpdateFailed.code(), 8);
    assert_eq!(OracleError::ZeroRate.code(), 9);
    assert_eq!(OracleError::InvalidPairConfig.code(), 10);
    assert_eq!(OracleError::DuplicateVote.code(), 11);
    assert_eq!(OracleError::SubmissionRateLimited.code(), 12);
    assert_eq!(OracleError::TooManySources.code(), 13);
    assert_eq!(OracleError::PriceTooOld.code(), 14);
    assert_eq!(OracleError::PairHalted.code(), 15);
}

#[test]
fn oracle_is_initialized_once_by_its_owner() {
    let mut oracle = PriceOracleContract::new();
    assert_eq!(oracle.get_owner(), None);
    assert_eq!(
        oracle.add_source(&at(0, &[OWNER]), addr(OWNER), addr(9)),
        fails(OracleError::NotInitialized)
    );
    assert_eq!(
        oracle.initialize(&at(0, &[]), addr(OWNER), addr(PAYROLL)),
        Err(OracleFault::Unauthenticated)
    );
    assert_eq!(oracle.initialize(&at(0, &[OWNER]), addr(OWNER), addr(PAYROLL)), Ok(()));
    assert_eq!(oracle.get_owner(), Some(addr(OWNER)));
    assert_eq!(
        oracle.initialize(&at(0, &[OWNER]), addr(OWNER), addr(PAYROLL)),
        fails(OracleError::AlreadyInitialized)
    );
    assert_eq!(oracle.events, vec![OracleEvent::Initialized(addr(OWNER))]);
}

#[test]
fn sources_are_the_owners_to_name() {
    let mut oracle = oracle_with(1, &[]);
    assert!(!oracle.is_source_address(addr(9)));
    assert_eq!(
        oracle.add_source(&at(0, &[5]), addr(5), addr(9)),
        fails(OracleError::NotAuthorized)
    );
    assert_eq!(
        oracle.add_source(&at(0, &[]), addr(OWNER), addr(9)),
        Err(OracleFault::Unauthenticated)
    );
    assert_eq!(oracle.add_source(&at(0, &[OWNER]), addr(OWNER), addr(9)), Ok(()));
    assert!(oracle.is_source_address(addr(9)));
    assert_eq!(push(&mut oracle, 1_000, 9, 1_000_000, 1_000), Ok(()));
    assert_eq!(oracle.remove_source(&at(0, &[OWNER]), addr(OWNER), addr(9)), Ok(()));
    assert!(!oracle.is_source_address(addr(9)));
    assert_eq!(
        push(&mut oracle, 1_001, 9, 1_000_000, 1_001),
        fails(OracleError::InvalidSource)
    );
    assert_eq!(read(&mut oracle, 1_001).unwrap().rate, 1_000_000);
}

#[test]
fn pair_configurations_are_checked() {
    let mut oracle = oracle_with(1, &[]);
    let mut try_pair = |base: u8,
                        quote: u8,
                        min: i128,
                        max: i128,
                        age: u64,
                        n: u32,
                        bps: u32,
                        w: u64| {
        oracle.configure_pair(
            &at(0, &[OWNER]),
            addr(OWNER),
            addr(base),
            addr(quote),
            min,
            max,
            age,
            n,
            bps,
            w,
            0,
        )
    };
    let invalid = fails(OracleError::InvalidPairConfig);
    assert_eq!(try_pair(7, 7, 1, 2, 1, 1, 0, 1), invalid);
    assert_eq!(try_pair(7, 8, 0, 2, 1, 1, 0, 1), invalid);
    assert_eq!(try_pair(7, 8, 1, 0, 1, 1, 0, 1), invalid);
    assert_eq!(try_pair(7, 8, 3, 2, 1, 1, 0, 1), invalid);
    assert_eq!(try_pair(7, 8, 1, 2, 0, 1, 0, 1), invalid);
    assert_eq!(try_pair(7, 8, 1, 2, 1, 0, 0, 1), invalid);
    assert_eq!(try_pair(7, 8, 1, 2, 1, 1, 10_001, 1), invalid);
    assert_eq!(try_pair(7, 8, 1, 2, 1, 1, 0, 0), invalid);
    assert_eq!(try_pair(7, 8, 1, 1, 1, 1, 10_000, 1), Ok(()));
    assert_eq!(
        oracle.get_pair_config(addr(7), addr(8)),
        Some(PairConfig {
            min_rate: 1,
            max_rate: 1,
            max_staleness_seconds: 1,
            enabled: true,
            quorum_n: 1,
            tolerance_bps: 10_000,
            quorum_window_seconds: 1,
            min_submit_interval_secs: 0,
            max_stale_before_halt: 0,
        })
    );
    assert_eq!(oracle.get_pair_config(addr(8), addr(7)), None);
}

#[test]
fn single_source_price_is_accepted_and_served() {
    let mut oracle = oracle_with(1, &[9]);
    assert_eq!(read(&mut oracle, 0), Err(OracleError::PairNotConfigured));
    let report = PriceReport {
        source: addr(9),
        pair: Pair { base: addr(BASE), quote: addr(QUOTE) },
        rate: 1_500_000,
        source_timestamp: 990,
    };
    let accepted = PairState { rate: 1_500_000, last_updated_ts: 990, last_source: addr(9) };
    let update = FxUpdate {
        payroll_contract: addr(PAYROLL),
        caller: addr(99),
        pair: report.pair,
        rate: 1_500_000,
    };
    assert_eq!(
        oracle.assess_price(&at(1_000, &[9]), &report),
        Ok(PriceDecision::Accepted(accepted, update))
    );
    assert_eq!(push(&mut oracle, 1_000, 9, 1_500_000, 990), Ok(()));
    assert_eq!(read(&mut oracle, 1_000), Ok(accepted));
    assert_eq!(
        oracle.events.last(),
        Some(&OracleEvent::PriceAccepted(report.pair, 1_500_000))
    );
    assert_eq!(
        oracle.get_price_checked(&at(1_000, &[]), addr(BASE), addr(QUOTE), 10),
        Ok(accepted)
    );
    assert_eq!(
        oracle.get_price_checked(&at(1_001, &[]), addr(BASE), addr(QUOTE), 10),
        Err(OracleError::PriceTooOld)
    );
    assert_eq!(
        oracle.get_price_checked(&at(1_001, &[]), addr(QUOTE), addr(BASE), 10),
        Err(OracleError::PairNotConfigured)
    );
}

#[test]
fn reports_are_checked() {
    let mut oracle = oracle_with(1, &[9]);
    assert_eq!(
        oracle.push_price(
            &at(1_000, &[]),
            addr(9),
            addr(BASE),
            addr(QUOTE),
            1_000_000,
            1_000,
            true
        ),
        Err(OracleFault::Unauthenticated)
    );
    assert_eq!(push(&mut oracle, 1_000, 8, 1, 1_000), fails(OracleError::InvalidSource));
    assert_eq!(push(&mut oracle, 1_000, 9, 0, 1_000), fails(OracleError::ZeroRate));
    assert_eq!(push(&mut oracle, 1_000, 9, -5, 1_000), fails(OracleError::ZeroRate));
    assert_eq!(
        push(&mut oracle, 1_000, 9, 499_999, 1_000),
        fails(OracleError::RateOutOfBounds)
    );
    assert_eq!(
        push(&mut oracle, 1_000, 9, 2_000_001, 1_000),
        fails(OracleError::RateOutOfBounds)
    );
    assert_eq!(push(&mut oracle, 1_000, 9, 500_000, 1_001), fails(OracleError::RateStale));
    assert_eq!(push(&mut oracle, 1_000, 9, 500_000, 699), fails(OracleError::RateStale));
    assert_eq!(push(&mut oracle, 1_000, 9, 500_000, 700), Ok(()));
    assert_eq!(
        oracle.push_price(
            &at(1_000, &[9]),
            addr(9),
            addr(QUOTE),
            addr(BASE),
            1_000_000,
            1_000,
            true
        ),
        fails(OracleError::PairNotConfigured)
    );
    let mut fresh = PriceOracleContract::new();
    assert_eq!(push(&mut fresh, 1_000, 9, 1, 1), fails(OracleError::NotInitialized));
}

#[test]
fn price_time_only_moves_forward() {
    let mut oracle = oracle_with(1, &[9]);
    push(&mut oracle, 1_000, 9, 1_000_000, 900).unwrap();
    assert_eq!(push(&mut oracle, 1_000, 9, 1_900_000, 900), Ok(()));
    assert_eq!(push(&mut oracle, 1_000, 9, 1_900_000, 850), Ok(()));
    assert_eq!(read(&mut oracle, 1_000).unwrap().rate, 1_000_000);
    push(&mut oracle, 1_000, 9, 1_900_000, 901).unwrap();
    assert_eq!(read(&mut oracle, 1_000).unwrap().last_updated_ts, 901);
}

#[test]
fn rate_that_payroll_refuses_changes_nothing() {
    let mut oracle = oracle_with(1, &[9]);
    assert_eq!(
        oracle.push_price(
            &at(1_000, &[9]),
            addr(9),
            addr(BASE),
            addr(QUOTE),
            1_000_000,
            1_000,
            false
        ),
        fails(OracleError::FxUpdateFailed)
    );
    assert_eq!(read(&mut oracle, 1_000), Err(OracleError::PairNotConfigured));
}

#[test]
fn quorum_of_close_rates_is_accepted() {
    let mut oracle = oracle_with(3, &[10, 11, 12, 13]);
    push(&mut oracle, 1_000, 10, 1_000_000, 965).unwrap();
    push(&mut oracle, 1_000, 11, 1_005_000, 990).unwrap();
    assert_eq!(read(&mut oracle, 1_000), Err(OracleError::PairNotConfigured));
    push(&mut oracle, 1_000, 12, 1_500_000, 970).unwrap();
    assert_eq!(read(&mut oracle, 1_000), Err(OracleError::PairNotConfigured));
    push(&mut oracle, 1_000, 13, 1_002_000, 980).unwrap();
    assert_eq!(
        read(&mut oracle, 1_000),
        Ok(PairState { rate: 1_002_000, last_updated_ts: 990, last_source: addr(13) })
    );
}

#[test]
fn source_votes_once_in_a_bucket() {
    let mut oracle = oracle_with(2, &[10, 11]);
    push(&mut oracle, 1_000, 10, 1_000_000, 965).unwrap();
    assert_eq!(
        push(&mut oracle, 1_000, 10, 1_000_000, 966),
        fails(OracleError::DuplicateVote)
    );
    assert_eq!(read(&mut oracle, 1_000), Err(OracleError::PairNotConfigured));
    push(&mut oracle, 1_030, 10, 1_000_000, 1_025).unwrap();
    push(&mut oracle, 1_030, 11, 1_000_000, 970).unwrap();
    assert_eq!(read(&mut oracle, 1_030), Err(OracleError::PairNotConfigured));
    push(&mut oracle, 1_030, 11, 1_000_000, 1_026).unwrap();
    assert_eq!(read(&mut oracle, 1_030).unwrap().last_updated_ts, 1_026);
}

#[test]
fn removed_source_no_longer_counts() {
    let mut oracle = oracle_with(2, &[10, 11, 12]);
    push(&mut oracle, 1_000, 10, 1_000_000, 965).unwrap();
    oracle.remove_source(&at(1_000, &[OWNER]), addr(OWNER), addr(10)).unwrap();
    push(&mut oracle, 1_000, 11, 1_000_000, 966).unwrap();
    assert_eq!(read(&mut oracle, 1_000), Err(OracleError::PairNotConfigured));
    push(&mut oracle, 1_000, 12, 1_000_000, 967).unwrap();
    assert_eq!(read(&mut oracle, 1_000).unwrap().rate, 1_000_000);
}

#[test]
fn full_bucket_takes_no_more_votes() {
    let mut oracle = oracle_with(200, &[]);
    for i in 0..101u8 {
        oracle.add_source(&at(0, &[OWNER]), addr(OWNER), addr(100 + i)).unwrap();
    }
    for i in 0..100u8 {
        assert_eq!(push(&mut oracle, 1_000, 100 + i, 1_000_000, 965), Ok(()));
    }
    assert_eq!(
        push(&mut oracle, 1_000, 200, 1_000_000, 965),
        fails(OracleError::TooManySources)
    );
}

#[test]
fn source_has_to_wait_between_reports() {
    let mut oracle = oracle_with(1, &[9, 10]);
    configure(&mut oracle, 1, 30);
    push(&mut oracle, 1_000, 9, 1_000_000, 900).unwrap();
    assert_eq!(
        push(&mut oracle, 1_000, 9, 1_000_000, 929),
        fails(OracleError::SubmissionRateLimited)
    );
    assert_eq!(push(&mut oracle, 1_000, 10, 1_100_000, 910), Ok(()));
    assert_eq!(push(&mut oracle, 1_000, 9, 1_200_000, 930), Ok(()));
    assert_eq!(read(&mut oracle, 1_000).unwrap().rate, 1_200_000);
}

#[test]
fn disabled_pair_is_silent_until_enabled() {
    let mut oracle = oracle_with(1, &[9]);
    push(&mut oracle, 1_000, 9, 1_000_000, 1_000).unwrap();
    let owner = at(1_000, &[OWNER]);
    assert_eq!(oracle.disable_pair(&owner, addr(OWNER), addr(BASE), addr(QUOTE)), Ok(()));
    assert_eq!(read(&mut oracle, 1_000), Err(OracleError::PairNotConfigured));
    assert_eq!(
        push(&mut oracle, 1_000, 9, 1_000_000, 1_000),
        fails(OracleError::PairNotConfigured)
    );
    assert_eq!(oracle.enable_pair(&owner, addr(OWNER), addr(BASE), addr(QUOTE)), Ok(()));
    assert_eq!(read(&mut oracle, 1_000), Err(OracleError::PairNotConfigured));
    assert_eq!(push(&mut oracle, 1_000, 9, 1_000_000, 1_000), Ok(()));
    assert_eq!(read(&mut oracle, 1_000).unwrap().rate, 1_000_000);
    assert_eq!(
        oracle.disable_pair(&owner, addr(OWNER), addr(QUOTE), addr(BASE)),
        fails(OracleError::PairNotConfigured)
    );
    assert_eq!(
        oracle.enable_pair(&owner, addr(OWNER), addr(QUOTE), addr(BASE)),
        fails(OracleError::PairNotConfigured)
    );
}

#[test]
fn stale_reads_in_a_row_halt_a_pair() {
    let mut oracle = oracle_with(1, &[9]);
    let owner = at(1_000, &[OWNER]);
    push(&mut oracle, 1_000, 9, 1_000_000, 1_000).unwrap();
    assert_eq!(read(&mut oracle, 1_300).unwrap().rate, 1_000_000);
    for _ in 0..5 {
        assert_eq!(read(&mut oracle, 1_301), Err(OracleError::PriceTooOld));
    }
    assert_eq!(
        oracle.set_stale_halt_threshold(&owner, addr(OWNER), addr(BASE), addr(QUOTE), 3),
        Ok(())
    );
    for _ in 0..3 {
        assert_eq!(read(&mut oracle, 1_301), Err(OracleError::PriceTooOld));
    }
    assert_eq!(read(&mut oracle, 1_301), Err(OracleError::PairHalted));
    assert_eq!(read(&mut oracle, 1_301), Err(OracleError::PairHalted));
    push(&mut oracle, 1_302, 9, 1_100_000, 1_302).unwrap();
    assert_eq!(read(&mut oracle, 1_302).unwrap().rate, 1_100_000);
    assert_eq!(read(&mut oracle, 2_000), Err(OracleError::PriceTooOld));
    assert_eq!(
        oracle.set_stale_halt_threshold(&owner, addr(OWNER), addr(BASE), addr(QUOTE), 1),
        Ok(())
    );
    assert_eq!(read(&mut oracle, 2_000), Err(OracleError::PriceTooOld));
    assert_eq!(read(&mut oracle, 2_000), Err(OracleError::PairHalted));
    assert_eq!(
        oracle.set_stale_halt_threshold(&owner, addr(OWNER), addr(QUOTE), addr(BASE), 3),
        fails(OracleError::PairNotConfigured)
    );
}

#[test]
fn oracle_ownership_moves_in_two_steps() {
    let mut oracle = oracle_with(1, &[]);
    assert_eq!(
        oracle.propose_ownership(&at(0, &[7]), addr(7), addr(7)),
        fails(OracleError::NotAuthorized)
    );
    assert_eq!(
        oracle.accept_ownership(&at(0, &[7]), addr(7)),
        fails(OracleError::NotAuthorized)
    );
    assert_eq!(oracle.propose_ownership(&at(0, &[OWNER]), addr(OWNER), addr(7)), Ok(()));
    assert_eq!(oracle.get_owner(), Some(addr(OWNER)));
    assert_eq!(
        oracle.accept_ownership(&at(0, &[8]), addr(8)),
        fails(OracleError::NotAuthorized)
    );
    assert_eq!(
        oracle.accept_ownership(&at(0, &[]), addr(7)),
        Err(OracleFault::Unauthenticated)
    );
    assert_eq!(oracle.accept_ownership(&at(0, &[7]), addr(7)), Ok(()));
    assert_eq!(oracle.get_owner(), Some(addr(7)));
    assert_eq!(
        oracle.add_source(&at(0, &[OWNER]), addr(OWNER), addr(9)),
        fails(OracleError::NotAuthorized)
    );
    oracle.propose_ownership(&at(0, &[7]), addr(7), addr(8)).unwrap();
    assert_eq!(oracle.cancel_ownership_transfer(&at(0, &[7]), addr(7)), Ok(()));
    assert_eq!(oracle.events.last(), Some(&OracleEvent::OwnershipCancelled(addr(8))));
    assert_eq!(
        oracle.accept_ownership(&at(0, &[8]), addr(8)),
        fails(OracleError::NotAuthorized)
    );
    let announced = oracle.events.len();
    assert_eq!(oracle.cancel_ownership_transfer(&at(0, &[7]), addr(7)), Ok(()));
    assert_eq!(oracle.events.len(), announced);
}
