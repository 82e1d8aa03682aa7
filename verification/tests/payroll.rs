use stellopay_core::address::{Address, WasmHash};
use stellopay_core::env::Env;
use stellopay_core::payroll::{
    migration_probe_count, ContractMigratedEvent, PayrollContract, PayrollEffect, PayrollFault,
    RoleQuestion,
};
use stellopay_core::rbac::{RbacContract, Role};
use stellopay_core::storage::{
    extend_persistent_ttl, Agreement, AgreementMode, AgreementStatus, DataKey, DisputeStatus,
    ExchangeRateInfo, Milestone, PayrollError, PayrollStore, TtlExtension, MAX_BATCH_SIZE,
    PERSISTENT_BUMP_AMOUNT, PERSISTENT_TTL_THRESHOLD,
};

fn addr(n: u8) -> Address {
    Address { strkey: [n; 56] }
}

fn at(timestamp: u64, authorized: &[u8]) -> Env {
    Env {
        contract: addr(99),
        timestamp,
        authorized: authorized.iter().map(|n| addr(*n)).collect(),
    }
}

fn by(authorized: &[u8]) -> Env {
    at(0, authorized)
}

const OWNER: u8 = 1;
const OTHER: u8 = 2;
const RBAC: u8 = 3;

const UNAUTHORIZED: Result<(), PayrollFault> = Err(PayrollFault::Error(PayrollError::Unauthorized));
const INVALID_DATA: Result<(), PayrollFault> = Err(PayrollFault::Error(PayrollError::InvalidData));
const UNAUTHENTICATED: Result<(), PayrollFault> = Err(PayrollFault::Unauthenticated);

fn payroll() -> PayrollContract {
    let mut payroll = PayrollContract::new();
    payroll.initialize(&by(&[OWNER]), addr(OWNER)).unwrap();
    payroll
}

#[test]
fn test_payroll_error_discriminants_stable() {
    assert_eq!(PayrollError::DisputeAlreadyRaised.code(), 1);
    assert_eq!(PayrollError::NotInGracePeriod.code(), 2);
    assert_eq!(PayrollError::NotParty.code(), 3);
    assert_eq!(PayrollError::NotArbiter.code(), 4);
    assert_eq!(PayrollError::InvalidPayout.code(), 5);
    assert_eq!(PayrollError::ActiveDispute.code(), 6);
    assert_eq!(PayrollError::AgreementNotFound.code(), 7);
    assert_eq!(PayrollError::NoDispute.code(), 8);
    assert_eq!(PayrollError::NoEmployee.code(), 9);
    assert_eq!(PayrollError::NotActivated.code(), 10);
    assert_eq!(PayrollError::Unauthorized.code(), 11);
    assert_eq!(PayrollError::InvalidEmployeeIndex.code(), 12);
    assert_eq!(PayrollError::InvalidData.code(), 13);
    assert_eq!(PayrollError::TransferFailed.code(), 14);
    assert_eq!(PayrollError::InsufficientEscrowBalance.code(), 15);
    assert_eq!(PayrollError::NoPeriodsToClaim.code(), 16);
    assert_eq!(PayrollError::AgreementNotActivated.code(), 17);
    assert_eq!(PayrollError::InvalidAgreementMode.code(), 18);
    assert_eq!(PayrollError::AgreementPaused.code(), 19);
    assert_eq!(PayrollError::AllPeriodsClaimed.code(), 20);
    assert_eq!(PayrollError::ZeroAmountPerPeriod.code(), 21);
    assert_eq!(PayrollError::ZeroPeriodDuration.code(), 22);
    assert_eq!(PayrollError::ZeroNumPeriods.code(), 23);
    assert_eq!(PayrollError::EmergencyPaused.code(), 24);
    assert_eq!(PayrollError::NotGuardian.code(), 25);
    assert_eq!(PayrollError::TimelockActive.code(), 26);
    assert_eq!(PayrollError::InvalidTimelock.code(), 27);
    assert_eq!(PayrollError::MultisigApprovalRequired.code(), 28);
    assert_eq!(PayrollError::ExchangeRateNotFound.code(), 29);
    assert_eq!(PayrollError::ExchangeRateOverflow.code(), 30);
    assert_eq!(PayrollError::ExchangeRateInvalid.code(), 31);
    assert_eq!(PayrollError::GraceExtensionInvalid.code(), 32);
    assert_eq!(PayrollError::GraceExtensionCapExceeded.code(), 33);
    assert_eq!(PayrollError::RateLimited.code(), 34);
    assert_eq!(PayrollError::BatchTooLarge.code(), 35);
    assert_eq!(PayrollError::MilestoneAmountInvalid.code(), 36);
    assert_eq!(PayrollError::MilestoneAgreementInvalidStatus.code(), 37);
    assert_eq!(PayrollError::MilestoneNotFound.code(), 38);
    assert_eq!(PayrollError::MilestoneAlreadyApproved.code(), 39);
    assert_eq!(PayrollError::MilestoneNotApproved.code(), 40);
    assert_eq!(PayrollError::MilestoneAlreadyClaimed.code(), 41);
    assert_eq!(PayrollError::EmployeeAlreadyExists.code(), 42);
    assert_eq!(PayrollError::ReentrancyDetected.code(), 43);
    assert_eq!(PayrollError::InvalidArbiter.code(), 44);
    assert_eq!(PayrollError::MilestoneAlreadyRejected.code(), 45);
    assert_eq!(PayrollError::MilestoneAlreadyApprovedCannotReject.code(), 46);
    assert_eq!(PayrollError::MilestoneAlreadyClaimedCannotReject.code(), 47);
    assert_eq!(PayrollError::MilestoneAlreadyExpired.code(), 48);
    assert_eq!(PayrollError::MilestoneRejectionReasonEmpty.code(), 49);
    assert_eq!(PayrollError::EmptyMilestoneList.code(), 50);
}

#[test]
fn storage_limits_are_as_documented() {
    assert_eq!(MAX_BATCH_SIZE, 20);
    assert_eq!(PERSISTENT_TTL_THRESHOLD, 518_400);
    assert_eq!(PERSISTENT_BUMP_AMOUNT, 1_555_200);
}

#[test]
fn milestone_is_claimable_once_approved() {
    let mut milestone = Milestone::new(4, 900);
    assert_eq!(
        milestone,
        Milestone { id: 4, amount: 900, approved: false, claimed: false }
    );
    assert!(!milestone.can_claim());
    milestone.approved = true;
    assert!(milestone.can_claim());
    milestone.claimed = true;
    assert!(!milestone.can_claim());
}

#[test]
fn contract_gets_its_owner_once() {
    let mut payroll = PayrollContract::new();
    assert_eq!(payroll.contract_owner(), Err(PayrollError::Unauthorized));
    assert_eq!(payroll.initialize(&by(&[OTHER]), addr(OWNER)), UNAUTHENTICATED);
    assert_eq!(payroll.initialize(&by(&[OWNER]), addr(OWNER)), Ok(()));
    assert_eq!(payroll.contract_owner(), Ok(addr(OWNER)));
    assert_eq!(payroll.initialize(&by(&[OTHER]), addr(OTHER)), INVALID_DATA);
}

#[test]
fn links_are_the_owners_to_set() {
    let mut fresh = PayrollContract::new();
    assert_eq!(fresh.set_rbac_contract(&by(&[OWNER]), addr(OWNER), addr(RBAC)), UNAUTHORIZED);
    let mut payroll = payroll();
    let owner = by(&[OWNER]);
    assert_eq!(payroll.set_rbac_contract(&by(&[OTHER]), addr(OTHER), addr(RBAC)), UNAUTHORIZED);
    assert_eq!(payroll.set_rbac_contract(&by(&[OTHER]), addr(OWNER), addr(RBAC)), UNAUTHENTICATED);
    assert_eq!(payroll.rbac_contract, None);
    assert_eq!(payroll.get_rate_limiter_contract(), None);
    assert_eq!(
        payroll.set_rate_limiter_contract(&by(&[OTHER]), addr(OTHER), addr(7)),
        UNAUTHORIZED
    );
    assert_eq!(payroll.set_rate_limiter_contract(&owner, addr(OWNER), addr(7)), Ok(()));
    assert_eq!(payroll.get_rate_limiter_contract(), Some(addr(7)));
    assert_eq!(payroll.get_salary_adjustment_contract(), None);
    assert_eq!(
        payroll.set_salary_adjustment_contract(&by(&[OTHER]), addr(OTHER), addr(8)),
        UNAUTHORIZED
    );
    assert_eq!(payroll.set_salary_adjustment_contract(&owner, addr(OWNER), addr(8)), Ok(()));
    assert_eq!(payroll.get_salary_adjustment_contract(), Some(addr(8)));
    assert_eq!(
        payroll.set_milestone_hook_contract(&by(&[OTHER]), addr(OTHER), addr(9)),
        UNAUTHORIZED
    );
}

#[test]
fn set_audit_logger_requires_owner() {
    let mut payroll = payroll();
    let result = payroll.set_audit_logger(&by(&[OTHER]), addr(OTHER), addr(50));
    assert!(result.is_err());
    assert_eq!(payroll.get_audit_logger(), None);
}

#[test]
fn audit_logger_is_set_by_the_owner() {
    let mut payroll = payroll();
    assert_eq!(payroll.set_audit_logger(&by(&[OWNER]), addr(OWNER), addr(50)), Ok(()));
    assert_eq!(payroll.get_audit_logger(), Some(addr(50)));
}

#[test]
fn owner_administers_an_unlinked_contract() {
    let mut payroll = payroll();
    let hash = WasmHash { bytes: [6; 32] };
    assert_eq!(payroll.admin_question(addr(OWNER)), None);
    assert_eq!(payroll.upgrade(&by(&[OTHER]), hash, addr(OTHER), true), UNAUTHORIZED);
    assert_eq!(payroll.upgrade(&by(&[OTHER]), hash, addr(OWNER), true), UNAUTHENTICATED);
    assert_eq!(payroll.upgrade(&by(&[OWNER]), hash, addr(OWNER), false), Ok(()));
    assert_eq!(payroll.outbox, vec![PayrollEffect::CodeReplaced(hash)]);
    let mut fresh = PayrollContract::new();
    assert_eq!(fresh.upgrade(&by(&[OWNER]), hash, addr(OWNER), true), UNAUTHORIZED);
}

#[test]
fn linked_roles_say_who_administers() {
    let mut rbac = RbacContract::new();
    rbac.initialize(&by(&[OTHER]), addr(OTHER)).unwrap();
    let mut payroll = payroll();
    payroll.set_rbac_contract(&by(&[OWNER]), addr(OWNER), addr(RBAC)).unwrap();
    let hash = WasmHash { bytes: [6; 32] };
    for who in [OWNER, OTHER] {
        assert_eq!(
            payroll.admin_question(addr(who)),
            Some(RoleQuestion {
                rbac_contract: addr(RBAC),
                address: addr(who),
                role: Role::Admin,
            })
        );
    }
    let owner_role = rbac.has_role(&addr(OWNER), Role::Admin).unwrap();
    assert_eq!(
        payroll.upgrade(&by(&[OWNER]), hash, addr(OWNER), owner_role),
        Err(PayrollFault::MissingRequiredRole)
    );
    let other_role = rbac.has_role(&addr(OTHER), Role::Admin).unwrap();
    assert_eq!(payroll.upgrade(&by(&[]), hash, addr(OTHER), other_role), UNAUTHENTICATED);
    assert_eq!(payroll.upgrade(&by(&[OTHER]), hash, addr(OTHER), other_role), Ok(()));
}

#[test]
fn schema_is_migrated_once() {
    let mut payroll = payroll();
    let owner = by(&[OWNER]);
    assert_eq!(
        payroll.migrate_state(&owner, addr(OWNER), false, 1),
        Err(PayrollFault::InvalidMigrationVersion)
    );
    assert_eq!(payroll.migrate_state(&by(&[OTHER]), addr(OTHER), true, 0), UNAUTHORIZED);
    assert_eq!(payroll.migrate_state(&owner, addr(OWNER), false, 0), Ok(()));
    assert_eq!(payroll.contract_version, 1);
    assert_eq!(
        payroll.outbox,
        vec![PayrollEffect::Migrated(ContractMigratedEvent { from_version: 0, to_version: 1 })]
    );
    assert_eq!(
        payroll.migrate_state(&owner, addr(OWNER), false, 0),
        Err(PayrollFault::InvalidMigrationVersion)
    );
    assert_eq!(payroll.migrate_state(&owner, addr(OWNER), false, 1), INVALID_DATA);
}

#[test]
fn migration_reads_ten_agreements_at_most() {
    assert_eq!(migration_probe_count(0), 0);
    assert_eq!(migration_probe_count(9), 9);
    assert_eq!(migration_probe_count(10), 10);
    assert_eq!(migration_probe_count(11), 10);
    assert_eq!(migration_probe_count(u128::MAX), 10);
}

#[test]
fn rate_bound_is_positive_and_the_owners() {
    let mut payroll = payroll();
    let owner = by(&[OWNER]);
    let invalid = Err(PayrollFault::Error(PayrollError::ExchangeRateInvalid));
    assert_eq!(payroll.set_fx_rate_sanity_bound(&by(&[OTHER]), addr(OTHER), 5), UNAUTHORIZED);
    assert_eq!(payroll.set_fx_rate_sanity_bound(&owner, addr(OWNER), 0), invalid);
    assert_eq!(payroll.set_fx_rate_sanity_bound(&owner, addr(OWNER), -1), invalid);
    assert_eq!(DataKey::get_exchange_rate_max_rate_sanity_bound(&payroll.store), None);
    assert_eq!(payroll.set_fx_rate_sanity_bound(&owner, addr(OWNER), 5), Ok(()));
    assert_eq!(DataKey::get_exchange_rate_max_rate_sanity_bound(&payroll.store), Some(5));
}

#[test]
fn admin_corrects_agreement_storage() {
    let mut payroll = payroll();
    let owner = by(&[OWNER]);
    let o = addr(OWNER);
    assert_eq!(payroll.admin_set_agreement_paid_amount(&owner, o, false, 4, 70), Ok(()));
    assert_eq!(
        payroll.admin_set_agreement_paid_amount(&owner, o, false, 4, -1),
        Err(PayrollFault::InvalidAmount)
    );
    assert_eq!(DataKey::get_agreement_paid_amount(&payroll.store, 4), 70);
    assert_eq!(
        payroll.admin_set_escrow_balance(&owner, o, false, 4, addr(8), -1),
        Err(PayrollFault::InvalidAmount)
    );
    assert_eq!(payroll.admin_set_escrow_balance(&owner, o, false, 4, addr(8), 0), Ok(()));
    assert_eq!(payroll.admin_set_agreement_token(&owner, o, false, 4, addr(8)), Ok(()));
    assert_eq!(DataKey::get_agreement_token(&payroll.store, 4), Some(addr(8)));
    assert_eq!(payroll.admin_set_activation_time(&owner, o, false, 4, 123), Ok(()));
    assert_eq!(DataKey::get_agreement_activation_time(&payroll.store, 4), Some(123));
    assert_eq!(
        payroll.admin_set_period_duration(&owner, o, false, 4, 0),
        Err(PayrollFault::InvalidDuration)
    );
    assert_eq!(payroll.admin_set_period_duration(&owner, o, false, 4, 60), Ok(()));
    assert_eq!(DataKey::get_agreement_period_duration(&payroll.store, 4), Some(60));
    let stranger = by(&[OTHER]);
    let s = addr(OTHER);
    assert_eq!(payroll.admin_set_agreement_paid_amount(&stranger, s, true, 4, 1), UNAUTHORIZED);
    assert_eq!(payroll.admin_set_escrow_balance(&stranger, s, true, 4, addr(8), 1), UNAUTHORIZED);
    assert_eq!(payroll.admin_set_agreement_token(&stranger, s, true, 4, addr(9)), UNAUTHORIZED);
    assert_eq!(payroll.admin_set_activation_time(&stranger, s, true, 4, 1), UNAUTHORIZED);
    assert_eq!(payroll.admin_set_period_duration(&stranger, s, true, 4, 1), UNAUTHORIZED);
    assert_eq!(DataKey::get_agreement_paid_amount(&payroll.store, 4), 70);
}

#[test]
fn whoever_has_no_admin_role_corrects_nothing() {
    let mut payroll = payroll();
    payroll.set_rbac_contract(&by(&[OWNER]), addr(OWNER), addr(RBAC)).unwrap();
    let (owner, o) = (by(&[OWNER]), addr(OWNER));
    let missing = Err(PayrollFault::MissingRequiredRole);
    assert_eq!(payroll.admin_set_agreement_paid_amount(&owner, o, false, 4, 1), UNAUTHORIZED);
    assert_eq!(payroll.admin_set_agreement_paid_amount(&owner, o, false, 4, -1), UNAUTHORIZED);
    assert_eq!(payroll.admin_set_escrow_balance(&owner, o, false, 4, addr(8), 1), UNAUTHORIZED);
    assert_eq!(payroll.admin_set_agreement_token(&owner, o, false, 4, addr(8)), missing);
    assert_eq!(payroll.admin_set_activation_time(&owner, o, false, 4, 1), missing);
    assert_eq!(payroll.admin_set_period_duration(&owner, o, false, 4, 1), missing);
    assert_eq!(
        payroll.admin_set_agreement_paid_amount(&by(&[]), o, true, 4, 1),
        UNAUTHENTICATED
    );
    assert_eq!(DataKey::get_agreement_paid_amount(&payroll.store, 4), 0);
    assert_eq!(payroll.admin_set_agreement_paid_amount(&owner, o, true, 4, 1), Ok(()));
    assert_eq!(DataKey::get_agreement_paid_amount(&payroll.store, 4), 1);
}

#[test]
fn exchange_rates_are_set_by_the_owner_and_the_rate_admin() {
    let mut fresh = PayrollContract::new();
    assert_eq!(
        fresh.set_exchange_rate(&by(&[OWNER]), addr(OWNER), addr(5), addr(6), 1),
        UNAUTHORIZED
    );
    let mut payroll = payroll();
    let (base, quote) = (addr(5), addr(6));
    let other = at(70, &[OTHER]);
    assert_eq!(payroll.set_exchange_rate(&by(&[]), addr(OWNER), base, quote, 9), UNAUTHENTICATED);
    assert_eq!(payroll.set_exchange_rate(&other, addr(OTHER), base, quote, 9), UNAUTHORIZED);
    assert_eq!(DataKey::get_exchange_rate(&payroll.store, &base, &quote), None);
    assert_eq!(payroll.set_exchange_rate(&at(60, &[OWNER]), addr(OWNER), base, quote, 8), Ok(()));
    assert_eq!(payroll.set_exchange_rate_admin(&other, addr(OTHER), addr(OTHER)), UNAUTHORIZED);
    assert_eq!(
        payroll.set_exchange_rate_admin(&by(&[OWNER]), addr(OWNER), addr(OTHER)),
        Ok(())
    );
    assert_eq!(payroll.set_exchange_rate(&other, addr(OTHER), base, quote, 9), Ok(()));
    assert_eq!(
        DataKey::get_exchange_rate(&payroll.store, &base, &quote),
        Some(ExchangeRateInfo { rate: 9, updated_at: 70 })
    );
    assert_eq!(DataKey::get_exchange_rate(&payroll.store, &quote, &base), None);
}

#[test]
fn exchange_rates_are_guarded() {
    let mut payroll = payroll();
    let owner = by(&[OWNER]);
    let (o, base, quote) = (addr(OWNER), addr(5), addr(6));
    let invalid = Err(PayrollFault::Error(PayrollError::ExchangeRateInvalid));
    assert_eq!(payroll.set_exchange_rate(&owner, o, base, quote, 0), invalid);
    assert_eq!(payroll.set_exchange_rate(&owner, o, base, quote, -3), invalid);
    assert_eq!(payroll.set_exchange_rate(&owner, o, base, quote, i128::MAX), Ok(()));
    payroll.set_fx_rate_sanity_bound(&owner, o, 2_000_000).unwrap();
    assert_eq!(payroll.set_exchange_rate(&owner, o, base, quote, 2_000_001), invalid);
    assert_eq!(payroll.set_exchange_rate(&owner, o, base, quote, 2_000_000), Ok(()));
    DataKey::set_exchange_rate_max_deviation_bps(&mut payroll.store, 500);
    assert_eq!(payroll.set_exchange_rate(&owner, o, base, quote, 1_899_999), invalid);
    assert_eq!(payroll.set_exchange_rate(&owner, o, base, quote, 1_900_000), Ok(()));
    assert_eq!(payroll.set_exchange_rate(&owner, o, base, quote, 1_995_001), invalid);
    assert_eq!(payroll.set_exchange_rate(&owner, o, base, quote, 1_995_000), Ok(()));
    assert_eq!(
        DataKey::get_exchange_rate(&payroll.store, &base, &quote),
        Some(ExchangeRateInfo { rate: 1_995_000, updated_at: 0 })
    );
    assert_eq!(payroll.set_exchange_rate(&owner, o, quote, base, 5), Ok(()));
}

#[test]
fn rate_deviation_is_exact_for_large_rates() {
    let mut payroll = payroll();
    let owner = by(&[OWNER]);
    let (o, base, quote) = (addr(OWNER), addr(5), addr(6));
    let invalid = Err(PayrollFault::Error(PayrollError::ExchangeRateInvalid));
    payroll.set_exchange_rate(&owner, o, base, quote, i128::MAX).unwrap();
    DataKey::set_exchange_rate_max_deviation_bps(&mut payroll.store, 10_000);
    assert_eq!(payroll.set_exchange_rate(&owner, o, base, quote, 1), Ok(()));
    assert_eq!(payroll.set_exchange_rate(&owner, o, base, quote, 3), invalid);
    assert_eq!(payroll.set_exchange_rate(&owner, o, base, quote, 2), Ok(()));
    DataKey::set_exchange_rate_max_deviation_bps(&mut payroll.store, u32::MAX);
    payroll.set_exchange_rate(&owner, o, quote, base, i128::MAX).unwrap();
    assert_eq!(payroll.set_exchange_rate(&owner, o, quote, base, 1), Ok(()));
}

#[test]
fn store_reads_back_what_was_written() {
    let mut store = PayrollStore::new();
    assert_eq!(DataKey::get_employee_count(&store, 1), 0);
    DataKey::set_employee_count(&mut store, 1, 3);
    assert_eq!(DataKey::get_employee_count(&store, 1), 3);
    assert_eq!(DataKey::get_employee_count(&store, 2), 0);
    assert_eq!(DataKey::get_employee(&store, 1, 0), None);
    DataKey::set_employee(&mut store, 1, 0, &addr(5));
    DataKey::set_employee(&mut store, 1, 1, &addr(6));
    assert_eq!(DataKey::get_employee(&store, 1, 0), Some(addr(5)));
    assert_eq!(DataKey::get_employee(&store, 1, 1), Some(addr(6)));
    assert_eq!(DataKey::get_employee_salary(&store, 1, 0), None);
    DataKey::set_employee_salary(&mut store, 1, 0, 900);
    assert_eq!(DataKey::get_employee_salary(&store, 1, 0), Some(900));
    assert_eq!(DataKey::get_employee_claimed_periods(&store, 1, 0), 0);
    DataKey::set_employee_claimed_periods(&mut store, 1, 0, 2);
    assert_eq!(DataKey::get_employee_claimed_periods(&store, 1, 0), 2);
    assert_eq!(DataKey::get_agreement_activation_time(&store, 1), None);
    DataKey::set_agreement_activation_time(&mut store, 1, 44);
    DataKey::set_agreement_period_duration(&mut store, 1, 55);
    assert_eq!(DataKey::get_agreement_activation_time(&store, 1), Some(44));
    assert_eq!(DataKey::get_agreement_period_duration(&store, 1), Some(55));
    assert_eq!(DataKey::get_agreement_token(&store, 1), None);
    DataKey::set_agreement_token(&mut store, 1, &addr(7));
    assert_eq!(DataKey::get_agreement_token(&store, 1), Some(addr(7)));
    assert_eq!(DataKey::get_agreement_paid_amount(&store, 1), 0);
    DataKey::set_agreement_paid_amount(&mut store, 1, -4);
    assert_eq!(DataKey::get_agreement_paid_amount(&store, 1), -4);
    assert!(!DataKey::is_agreement_grace_period_finalized(&store, 1));
    DataKey::set_agreement_grace_period_finalized(&mut store, 1);
    assert!(DataKey::is_agreement_grace_period_finalized(&store, 1));
    assert!(!DataKey::is_agreement_grace_period_finalized(&store, 2));
}

#[test]
fn exchange_rates_carry_their_time() {
    let mut store = PayrollStore::new();
    assert_eq!(DataKey::get_exchange_rate(&store, &addr(1), &addr(2)), None);
    DataKey::set_exchange_rate(&mut store, &at(777, &[]), &addr(1), &addr(2), 1_250_000);
    assert_eq!(
        DataKey::get_exchange_rate(&store, &addr(1), &addr(2)),
        Some(ExchangeRateInfo { rate: 1_250_000, updated_at: 777 })
    );
    assert_eq!(DataKey::get_exchange_rate(&store, &addr(2), &addr(1)), None);
    assert_eq!(DataKey::get_exchange_rate_max_age_seconds(&store), None);
    DataKey::set_exchange_rate_max_age_seconds(&mut store, 60);
    assert_eq!(DataKey::get_exchange_rate_max_age_seconds(&store), Some(60));
    assert_eq!(DataKey::get_exchange_rate_max_deviation_bps(&store), None);
    DataKey::set_exchange_rate_max_deviation_bps(&mut store, 500);
    assert_eq!(DataKey::get_exchange_rate_max_deviation_bps(&store), Some(500));
    assert_eq!(DataKey::get_exchange_rate_max_rate_sanity_bound(&store), None);
    DataKey::set_exchange_rate_max_rate_sanity_bound(&mut store, 9);
    assert_eq!(DataKey::get_exchange_rate_max_rate_sanity_bound(&store), Some(9));
}

#[test]
fn long_lived_entries_are_kept() {
    let mut store = PayrollStore::new();
    let key = DataKey::AgreementEscrowBalance(1, addr(7));
    let kept = TtlExtension { key, threshold: 518_400, extend_to: 1_555_200 };
    assert_eq!(DataKey::get_agreement_escrow_balance(&mut store, 1, &addr(7)), 0);
    extend_persistent_ttl(&mut store, &key);
    assert_eq!(store.ttl_extensions, vec![]);
    DataKey::set_agreement_escrow_balance(&mut store, 1, &addr(7), 5);
    assert_eq!(store.ttl_extensions, vec![kept]);
    assert_eq!(DataKey::get_agreement_escrow_balance(&mut store, 1, &addr(7)), 5);
    assert_eq!(store.ttl_extensions, vec![kept, kept]);
    assert_eq!(DataKey::get_agreement_escrow_balance(&mut store, 1, &addr(8)), 0);
    assert_eq!(store.ttl_extensions.len(), 2);
    DataKey::set_employee_salary(&mut store, 1, 0, 900);
    DataKey::set_employee_claimed_periods(&mut store, 1, 0, 2);
    assert_eq!(store.ttl_extensions.len(), 4);
    DataKey::set_employee_count(&mut store, 1, 1);
    assert_eq!(store.ttl_extensions.len(), 4);
}

fn agreement(status: AgreementStatus) -> Agreement {
    Agreement {
        id: 6,
        employer: addr(OTHER),
        token: addr(7),
        mode: AgreementMode::Payroll,
        status,
        total_amount: 10,
        paid_amount: 0,
        created_at: 1,
        activated_at: Some(2),
        cancelled_at: None,
        grace_period_seconds: 60,
        dispute_status: DisputeStatus::NoDispute,
        dispute_raised_at: None,
        amount_per_period: None,
        period_seconds: None,
        num_periods: None,
        claimed_periods: Some(4),
    }
}

#[test]
fn payroll_agreement_is_paused_and_resumed_by_its_employer() {
    let mut payroll = payroll();
    payroll.agreements.set(6, agreement(AgreementStatus::Active));
    let employer = by(&[OTHER]);
    assert_eq!(payroll.pause_agreement(&by(&[OWNER]), 6), UNAUTHENTICATED);
    assert_eq!(
        payroll.resume_agreement(&employer, 6),
        Err(PayrollFault::AgreementNotPaused)
    );
    assert_eq!(payroll.pause_agreement(&employer, 6), Ok(()));
    assert_eq!(payroll.get_agreement(6).unwrap().status, AgreementStatus::Paused);
    assert_eq!(
        payroll.pause_agreement(&employer, 6),
        Err(PayrollFault::Error(PayrollError::AgreementNotActivated))
    );
    assert_eq!(payroll.resume_agreement(&employer, 6), Ok(()));
    assert_eq!(payroll.get_agreement(6).unwrap().status, AgreementStatus::Active);
    assert!(payroll.get_agreement(7).is_none());
    assert_eq!(
        payroll.pause_agreement(&employer, 7),
        Err(PayrollFault::Error(PayrollError::AgreementNotFound))
    );
}

#[test]
fn claimed_periods_are_reported() {
    let mut payroll = payroll();
    payroll.agreements.set(6, agreement(AgreementStatus::Active));
    assert_eq!(payroll.get_claimed_periods(6), 4);
    assert_eq!(payroll.get_claimed_periods(7), 0);
    let mut untimed = agreement(AgreementStatus::Active);
    untimed.claimed_periods = None;
    payroll.agreements.set(8, untimed);
    assert_eq!(payroll.get_claimed_periods(8), 0);
    assert_eq!(payroll.get_employee_claimed_periods(6, 1), 0);
    DataKey::set_employee_claimed_periods(&mut payroll.store, 6, 1, 3);
    assert_eq!(payroll.get_employee_claimed_periods(6, 1), 3);
}
