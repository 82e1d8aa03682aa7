use stellopay_core::address::Address;
use stellopay_core::env::Env;
use stellopay_core::milestones::MilestoneRecord;
use stellopay_core::payroll::{
    MilestoneExpiredEvent, PayrollContract, PayrollEffect, PayrollFault,
};
use stellopay_core::storage::{
    AgreementStatus, Milestone, MilestoneClaimResult, PaymentType, PayrollError,
};

fn addr(n: u8) -> Address {
    Address { strkey: [n; 56] }
}

fn by(authorized: &[u8]) -> Env {
    Env {
        contract: addr(99),
        timestamp: 0,
        authorized: authorized.iter().map(|n| addr(*n)).collect(),
    }
}

const OWNER: u8 = 1;
const EMPLOYER: u8 = 2;
const CONTRIBUTOR: u8 = 3;
const TOKEN: u8 = 4;
const HOOK_A: u8 = 5;
const HOOK_B: u8 = 6;

/// What mocking every authorization amounts to.
fn all() -> Env {
    by(&[OWNER, EMPLOYER, CONTRIBUTOR])
}

fn setup() -> PayrollContract {
    let mut client = PayrollContract::new();
    client.initialize(&all(), addr(OWNER)).unwrap();
    client
}

fn create(client: &mut PayrollContract, amounts: &[i128]) -> u128 {
    client
        .create_milestone_agreement(
            &all(),
            addr(EMPLOYER),
            addr(CONTRIBUTOR),
            addr(TOKEN),
            amounts.to_vec(),
        )
        .unwrap()
}

fn fund(client: &mut PayrollContract, id: u128, amount: i128) {
    client.fund_milestone_agreement(&all(), id, addr(EMPLOYER), amount).unwrap();
}

fn funded_milestone(client: &mut PayrollContract) -> (u128, u32) {
    let agreement_id = create(client, &[1]);
    fund(client, agreement_id, 50_000);
    client.add_milestone(&all(), agreement_id, 1_000).unwrap();
    (agreement_id, 1)
}

fn fails(error: PayrollError) -> Result<(), PayrollFault> {
    Err(PayrollFault::Error(error))
}

fn status(client: &PayrollContract, id: u128) -> AgreementStatus {
    client.milestone_agreements.get(&id).unwrap().agreement.status
}

fn escrow(client: &PayrollContract, id: u128) -> i128 {
    client.milestone_agreements.get(&id).unwrap().escrow_balance
}

#[test]
fn test_expire_milestone_success() {
    let mut client = setup();
    let (agreement_id, milestone_id) = funded_milestone(&mut client);
    let result = client.expire_milestone(&all(), agreement_id, milestone_id);
    assert!(result.is_ok(), "expire_milestone should succeed: {result:?}");
}

#[test]
fn test_expire_milestone_emits_event() {
    let mut client = setup();
    let (agreement_id, milestone_id) = funded_milestone(&mut client);
    let before = client.outbox.len();
    client.expire_milestone(&all(), agreement_id, milestone_id).unwrap();
    let events = &client.outbox[before..];
    assert!(!events.is_empty(), "at least one event should be emitted on expiry");
    assert_eq!(
        events,
        &[PayrollEffect::MilestoneExpired(MilestoneExpiredEvent { agreement_id, milestone_id })]
    );
}

#[test]
fn test_expire_milestone_escrow_unchanged() {
    let mut client = setup();
    let fund_amount = 50_000i128;
    let agreement_id = create(&mut client, &[1]);
    fund(&mut client, agreement_id, fund_amount);
    client.add_milestone(&all(), agreement_id, 1_000).unwrap();
    client.expire_milestone(&all(), agreement_id, 1).unwrap();
    client.add_milestone(&all(), agreement_id, 500).unwrap();
    let approve = client.approve_milestone(&all(), agreement_id, 2);
    assert!(approve.is_ok(), "approve after expiry of sibling milestone should succeed");
    assert_eq!(escrow(&client, agreement_id), fund_amount);
}

#[test]
fn test_expire_one_milestone_does_not_affect_siblings() {
    let mut client = setup();
    let agreement_id = create(&mut client, &[1]);
    fund(&mut client, agreement_id, 50_000);
    client.add_milestone(&all(), agreement_id, 1_000).unwrap();
    client.add_milestone(&all(), agreement_id, 2_000).unwrap();
    client.expire_milestone(&all(), agreement_id, 1).unwrap();
    assert!(client.approve_milestone(&all(), agreement_id, 2).is_ok());
    assert!(client.claim_milestone(&all(), agreement_id, 2).is_ok());
}

#[test]
fn test_expire_milestone_created_status() {
    let mut client = setup();
    let (agreement_id, milestone_id) = funded_milestone(&mut client);
    assert_eq!(status(&client, agreement_id), AgreementStatus::Created);
    assert!(client.expire_milestone(&all(), agreement_id, milestone_id).is_ok());
}

#[test]
fn test_expire_milestone_already_expired() {
    let mut client = setup();
    let (agreement_id, milestone_id) = funded_milestone(&mut client);
    client.expire_milestone(&all(), agreement_id, milestone_id).unwrap();
    let err = client
        .expire_milestone(&all(), agreement_id, milestone_id)
        .expect_err("second expiry should fail");
    assert_eq!(err, PayrollFault::Error(PayrollError::MilestoneAlreadyExpired));
}

#[test]
fn test_expire_approved_milestone_returns_error() {
    let mut client = setup();
    let (agreement_id, milestone_id) = funded_milestone(&mut client);
    client.approve_milestone(&all(), agreement_id, milestone_id).unwrap();
    let err = client
        .expire_milestone(&all(), agreement_id, milestone_id)
        .expect_err("expiring an approved milestone should fail");
    assert_eq!(err, PayrollFault::Error(PayrollError::MilestoneAlreadyApproved));
}

#[test]
fn test_expire_claimed_milestone_returns_error() {
    let mut client = setup();
    let agreement_id = create(&mut client, &[1]);
    fund(&mut client, agreement_id, 50_000);
    client.add_milestone(&all(), agreement_id, 1_000).unwrap();
    client.add_milestone(&all(), agreement_id, 1_000).unwrap();
    client.approve_milestone(&all(), agreement_id, 1).unwrap();
    client.claim_milestone(&all(), agreement_id, 1).unwrap();
    let err = client
        .expire_milestone(&all(), agreement_id, 1)
        .expect_err("expiring a claimed milestone should fail");
    assert_eq!(err, PayrollFault::Error(PayrollError::MilestoneAlreadyClaimed));
}

#[test]
fn test_expire_rejected_milestone_returns_error() {
    let mut client = setup();
    let (agreement_id, milestone_id) = funded_milestone(&mut client);
    client
        .reject_milestone(&all(), agreement_id, milestone_id, &b"not good enough".to_vec())
        .unwrap();
    let err = client
        .expire_milestone(&all(), agreement_id, milestone_id)
        .expect_err("expiring a rejected milestone should fail");
    assert_eq!(err, PayrollFault::Error(PayrollError::MilestoneAlreadyRejected));
}

#[test]
fn test_expire_milestone_id_zero() {
    let mut client = setup();
    let (agreement_id, _) = funded_milestone(&mut client);
    let err = client
        .expire_milestone(&all(), agreement_id, 0)
        .expect_err("milestone_id 0 should fail");
    assert_eq!(err, PayrollFault::Error(PayrollError::MilestoneNotFound));
}

#[test]
fn test_expire_milestone_out_of_range() {
    let mut client = setup();
    let (agreement_id, _) = funded_milestone(&mut client);
    let err = client
        .expire_milestone(&all(), agreement_id, 999)
        .expect_err("out-of-range milestone_id should fail");
    assert_eq!(err, PayrollFault::Error(PayrollError::MilestoneNotFound));
}

#[test]
fn test_expire_milestone_unknown_agreement() {
    let mut client = setup();
    let err = client
        .expire_milestone(&all(), 9999, 1)
        .expect_err("unknown agreement should fail");
    assert_eq!(err, PayrollFault::Error(PayrollError::AgreementNotFound));
}

#[test]
fn test_expire_milestone_paused_agreement() {
    let mut client = setup();
    let (agreement_id, milestone_id) = funded_milestone(&mut client);
    client.pause_agreement(&all(), agreement_id).unwrap();
    let err = client
        .expire_milestone(&all(), agreement_id, milestone_id)
        .expect_err("paused agreement should reject expiry");
    assert_eq!(err, PayrollFault::Error(PayrollError::MilestoneAgreementInvalidStatus));
}

#[test]
fn test_expire_milestone_no_hook_succeeds() {
    let mut client = setup();
    let (agreement_id, milestone_id) = funded_milestone(&mut client);
    assert!(
        client.expire_milestone(&all(), agreement_id, milestone_id).is_ok(),
        "expire without hook should succeed"
    );
}

#[test]
fn test_expire_milestone_noop_hook_does_not_break_expiry() {
    let mut client = setup();
    client.set_milestone_hook_contract(&all(), addr(OWNER), addr(HOOK_A)).unwrap();
    let (agreement_id, milestone_id) = funded_milestone(&mut client);
    assert!(
        client.expire_milestone(&all(), agreement_id, milestone_id).is_ok(),
        "expire with no-op hook should succeed"
    );
}

#[test]
fn test_expire_milestone_hook_receives_correct_args() {
    let mut client = setup();
    client.set_milestone_hook_contract(&all(), addr(OWNER), addr(HOOK_B)).unwrap();
    let (agreement_id, milestone_id) = funded_milestone(&mut client);
    client.expire_milestone(&all(), agreement_id, milestone_id).unwrap();
    assert_eq!(
        client.outbox.last(),
        Some(&PayrollEffect::ExpiryHook { hook: addr(HOOK_B), agreement_id, milestone_id })
    );
}

#[test]
fn test_set_milestone_hook_contract_updates_correctly() {
    let mut client = setup();
    client.set_milestone_hook_contract(&all(), addr(OWNER), addr(HOOK_A)).unwrap();
    client.set_milestone_hook_contract(&all(), addr(OWNER), addr(HOOK_B)).unwrap();
    assert_eq!(
        client.get_milestone_hook_contract(),
        Some(addr(HOOK_B)),
        "get_milestone_hook_contract should return the latest address"
    );
    let (agreement_id, milestone_id) = funded_milestone(&mut client);
    client.expire_milestone(&all(), agreement_id, milestone_id).unwrap();
    assert_eq!(
        client.outbox.last(),
        Some(&PayrollEffect::ExpiryHook { hook: addr(HOOK_B), agreement_id, milestone_id })
    );
}

#[test]
fn test_get_milestone_hook_contract_none_when_unset() {
    let client = setup();
    assert_eq!(client.get_milestone_hook_contract(), None);
}

#[test]
fn expiry_is_the_employers() {
    let mut client = setup();
    let (agreement_id, milestone_id) = funded_milestone(&mut client);
    assert_eq!(
        client.expire_milestone(&by(&[CONTRIBUTOR, OWNER]), agreement_id, milestone_id),
        Err(PayrollFault::Unauthenticated)
    );
}

#[test]
fn new_milestone_agreements_are_checked() {
    let mut client = setup();
    let mut try_create = |env: &Env, amounts: &[i128]| {
        client.create_milestone_agreement(
            env,
            addr(EMPLOYER),
            addr(CONTRIBUTOR),
            addr(TOKEN),
            amounts.to_vec(),
        )
    };
    assert_eq!(try_create(&by(&[CONTRIBUTOR]), &[5]), Err(PayrollFault::Unauthenticated));
    assert_eq!(
        try_create(&all(), &[]),
        Err(PayrollFault::Error(PayrollError::EmptyMilestoneList))
    );
    assert_eq!(
        try_create(&all(), &[5, 0]),
        Err(PayrollFault::Error(PayrollError::MilestoneAmountInvalid))
    );
    assert_eq!(
        try_create(&all(), &[-5]),
        Err(PayrollFault::Error(PayrollError::MilestoneAmountInvalid))
    );
    assert_eq!(
        try_create(&all(), &[i128::MAX, 1]),
        Err(PayrollFault::TotalAmountOverflow)
    );
    assert_eq!(try_create(&all(), &[5, 7]), Ok(1));
    assert_eq!(try_create(&all(), &[9]), Ok(2));
    assert_eq!(client.get_milestone_count(1), 2);
    assert_eq!(client.get_milestone_count(3), 0);
    assert_eq!(client.get_milestone(1, 2), Some(Milestone::new(2, 7)));
    assert_eq!(client.get_milestone(1, 0), None);
    assert_eq!(client.get_milestone(1, 3), None);
    assert_eq!(client.get_milestone(3, 1), None);
    let record = client.milestone_agreements.get(&1).unwrap();
    assert_eq!(record.agreement.total_amount, 12);
    assert_eq!(record.escrow_balance, 0);
    client.milestone_agreement_counter = u128::MAX;
    assert_eq!(
        client.create_milestone_agreement(
            &all(),
            addr(EMPLOYER),
            addr(CONTRIBUTOR),
            addr(TOKEN),
            vec![1],
        ),
        Err(PayrollFault::AgreementIdOverflow)
    );
}

#[test]
fn deposits_are_the_employers() {
    let mut client = setup();
    let id = create(&mut client, &[5]);
    let everyone = all();
    let mut pay = |id: u128, from: u8, amount: i128| {
        client.fund_milestone_agreement(&everyone, id, addr(from), amount)
    };
    assert_eq!(pay(77, EMPLOYER, 5), fails(PayrollError::AgreementNotFound));
    assert_eq!(pay(id, CONTRIBUTOR, 5), Err(PayrollFault::NotTheEmployer));
    assert_eq!(pay(id, EMPLOYER, 0), Err(PayrollFault::AmountNotPositive));
    assert_eq!(pay(id, EMPLOYER, -1), Err(PayrollFault::AmountNotPositive));
    assert_eq!(pay(id, EMPLOYER, 5), Ok(()));
    assert_eq!(pay(id, EMPLOYER, i128::MAX), Err(PayrollFault::EscrowBalanceOverflow));
    assert_eq!(
        client.fund_milestone_agreement(&by(&[CONTRIBUTOR]), id, addr(EMPLOYER), 5),
        Err(PayrollFault::Unauthenticated)
    );
    assert_eq!(escrow(&client, id), 5);
    assert_eq!(
        client.outbox,
        vec![PayrollEffect::Transfer {
            token: addr(TOKEN),
            from: addr(EMPLOYER),
            to: addr(99),
            amount: 5,
        }]
    );
    client.approve_milestone(&all(), id, 1).unwrap();
    client.claim_milestone(&all(), id, 1).unwrap();
    assert_eq!(
        client.fund_milestone_agreement(&all(), id, addr(EMPLOYER), 5),
        Err(PayrollFault::AgreementClosed)
    );
}

#[test]
fn milestones_are_added_until_activation() {
    let mut client = setup();
    let id = create(&mut client, &[5]);
    assert_eq!(client.add_milestone(&all(), 77, 1), fails(PayrollError::AgreementNotFound));
    assert_eq!(
        client.add_milestone(&by(&[CONTRIBUTOR]), id, 1),
        Err(PayrollFault::Unauthenticated)
    );
    assert_eq!(
        client.add_milestone(&all(), id, 0),
        fails(PayrollError::MilestoneAmountInvalid)
    );
    assert_eq!(
        client.add_milestone(&all(), id, i128::MAX),
        Err(PayrollFault::TotalAmountOverflow)
    );
    assert_eq!(client.add_milestone(&all(), id, 8), Ok(()));
    assert_eq!(client.get_milestone(id, 2), Some(Milestone::new(2, 8)));
    client.pause_agreement(&all(), id).unwrap();
    client.resume_agreement(&all(), id).unwrap();
    assert_eq!(
        client.add_milestone(&all(), id, 8),
        fails(PayrollError::MilestoneAgreementInvalidStatus)
    );
}

#[test]
fn approval_needs_the_escrow() {
    let mut client = setup();
    let id = create(&mut client, &[5, 7]);
    fund(&mut client, id, 11);
    assert_eq!(
        client.approve_milestone(&all(), id, 1),
        fails(PayrollError::InsufficientEscrowBalance)
    );
    assert!(!client.get_milestone(id, 1).unwrap().approved);
    fund(&mut client, id, 1);
    assert_eq!(client.approve_milestone(&all(), id, 1), Ok(()));
    assert_eq!(
        client.approve_milestone(&all(), id, 1),
        fails(PayrollError::MilestoneAlreadyApproved)
    );
    assert_eq!(client.approve_milestone(&all(), id, 3), fails(PayrollError::MilestoneNotFound));
    assert_eq!(client.approve_milestone(&all(), 77, 1), fails(PayrollError::AgreementNotFound));
}

#[test]
fn strangers_approve_nothing() {
    let mut client = setup();
    let (id, milestone_id) = funded_milestone(&mut client);
    assert_eq!(
        client.approve_milestone(&by(&[CONTRIBUTOR, OWNER]), id, milestone_id),
        Err(PayrollFault::Unauthenticated)
    );
    assert!(!client.get_milestone(id, milestone_id).unwrap().approved);
    assert_eq!(client.get_milestone_count(id), 2);
}

#[test]
fn rejection_is_final_and_has_a_reason() {
    let mut client = setup();
    let id = create(&mut client, &[5, 7, 9]);
    fund(&mut client, id, 21);
    let reason = b"late".to_vec();
    for blank in [&b""[..], &b" "[..], &b" \t\r\n\x0c "[..]] {
        assert_eq!(
            client.reject_milestone(&all(), id, 1, &blank.to_vec()),
            fails(PayrollError::MilestoneRejectionReasonEmpty)
        );
    }
    assert_eq!(
        client.reject_milestone(&by(&[CONTRIBUTOR]), id, 1, &reason),
        Err(PayrollFault::Unauthenticated)
    );
    assert_eq!(client.reject_milestone(&all(), id, 1, &b" x ".to_vec()), Ok(()));
    assert_eq!(
        client.reject_milestone(&all(), id, 1, &reason),
        fails(PayrollError::MilestoneAlreadyRejected)
    );
    assert_eq!(
        client.approve_milestone(&all(), id, 1),
        fails(PayrollError::MilestoneAlreadyRejected)
    );
    assert_eq!(
        client.claim_milestone(&all(), id, 1),
        fails(PayrollError::MilestoneNotApproved)
    );
    client.approve_milestone(&all(), id, 2).unwrap();
    assert_eq!(
        client.reject_milestone(&all(), id, 2, &reason),
        fails(PayrollError::MilestoneAlreadyApprovedCannotReject)
    );
    client.claim_milestone(&all(), id, 2).unwrap();
    assert_eq!(
        client.reject_milestone(&all(), id, 2, &reason),
        fails(PayrollError::MilestoneAlreadyClaimedCannotReject)
    );
    client.expire_milestone(&all(), id, 3).unwrap();
    assert_eq!(
        client.reject_milestone(&all(), id, 3, &reason),
        fails(PayrollError::MilestoneAlreadyExpired)
    );
    assert_eq!(
        client.approve_milestone(&all(), id, 3),
        fails(PayrollError::MilestoneAlreadyExpired)
    );
    assert_eq!(escrow(&client, id), 14);
}

#[test]
fn claim_is_paid_once() {
    let mut client = setup();
    let id = create(&mut client, &[5, 7]);
    fund(&mut client, id, 12);
    assert_eq!(
        client.claim_milestone(&all(), id, 1),
        fails(PayrollError::MilestoneNotApproved)
    );
    client.approve_milestone(&all(), id, 1).unwrap();
    assert_eq!(
        client.claim_milestone(&by(&[EMPLOYER]), id, 1),
        Err(PayrollFault::Unauthenticated)
    );
    assert_eq!(client.claim_milestone(&all(), id, 3), fails(PayrollError::MilestoneNotFound));
    assert_eq!(client.claim_milestone(&all(), 77, 1), fails(PayrollError::AgreementNotFound));
    assert_eq!(client.claim_milestone(&all(), id, 1), Ok(()));
    assert_eq!(escrow(&client, id), 7);
    assert_eq!(status(&client, id), AgreementStatus::Created);
    assert_eq!(
        client.outbox.last(),
        Some(&PayrollEffect::Transfer {
            token: addr(TOKEN),
            from: addr(99),
            to: addr(CONTRIBUTOR),
            amount: 5,
        })
    );
    let paid = client.outbox.len();
    assert_eq!(
        client.claim_milestone(&all(), id, 1),
        fails(PayrollError::MilestoneAlreadyClaimed)
    );
    assert_eq!(client.outbox.len(), paid);
    client.approve_milestone(&all(), id, 2).unwrap();
    client.claim_milestone(&all(), id, 2).unwrap();
    assert_eq!(status(&client, id), AgreementStatus::Completed);
    assert_eq!(
        client.claim_milestone(&all(), id, 2),
        fails(PayrollError::MilestoneAgreementInvalidStatus)
    );
    assert_eq!(
        client.pause_agreement(&all(), id),
        fails(PayrollError::MilestoneAgreementInvalidStatus)
    );
}

#[test]
fn claim_needs_the_escrow_for_what_was_added_since() {
    let mut client = setup();
    let id = create(&mut client, &[5]);
    fund(&mut client, id, 5);
    client.approve_milestone(&all(), id, 1).unwrap();
    client.add_milestone(&all(), id, 1).unwrap();
    assert_eq!(
        client.claim_milestone(&all(), id, 1),
        fails(PayrollError::InsufficientEscrowBalance)
    );
    fund(&mut client, id, 1);
    assert_eq!(client.claim_milestone(&all(), id, 1), Ok(()));
}

#[test]
fn paused_agreement_pays_nothing() {
    let mut client = setup();
    let id = create(&mut client, &[5]);
    fund(&mut client, id, 5);
    client.approve_milestone(&all(), id, 1).unwrap();
    assert_eq!(
        client.resume_agreement(&all(), id),
        fails(PayrollError::MilestoneAgreementInvalidStatus)
    );
    assert_eq!(
        client.pause_agreement(&by(&[CONTRIBUTOR]), id),
        Err(PayrollFault::Unauthenticated)
    );
    assert_eq!(client.pause_agreement(&all(), id), Ok(()));
    assert_eq!(
        client.claim_milestone(&all(), id, 1),
        fails(PayrollError::MilestoneAgreementInvalidStatus)
    );
    assert_eq!(
        client.batch_claim_milestones(&all(), id, vec![1]).unwrap_err(),
        PayrollFault::Error(PayrollError::MilestoneAgreementInvalidStatus)
    );
    assert_eq!(client.resume_agreement(&all(), id), Ok(()));
    assert_eq!(status(&client, id), AgreementStatus::Active);
    assert_eq!(client.claim_milestone(&all(), id, 1), Ok(()));
}

#[test]
fn batch_pays_what_can_be_paid() {
    let mut client = setup();
    let id = create(&mut client, &[5, 7, 9, 11]);
    fund(&mut client, id, 32);
    for m in [1, 2, 3] {
        client.approve_milestone(&all(), id, m).unwrap();
    }
    client.claim_milestone(&all(), id, 1).unwrap();
    let before = client.outbox.len();
    let batch = client.batch_claim_milestones(&all(), id, vec![3, 1, 4, 9, 3, 2, 0]).unwrap();
    let line = |milestone_id: u32, amount_claimed: i128, error_code: u32| MilestoneClaimResult {
        milestone_id,
        success: error_code == 0,
        amount_claimed,
        error_code,
    };
    assert_eq!(
        batch.results,
        vec![
            line(3, 9, 0),
            line(1, 0, 4),
            line(4, 0, 3),
            line(9, 0, 2),
            line(3, 0, 1),
            line(2, 7, 0),
            line(0, 0, 2),
        ]
    );
    assert_eq!(batch.agreement_id, id);
    assert_eq!(batch.total_claimed, 16);
    assert_eq!(batch.successful_claims, 2);
    assert_eq!(batch.failed_claims, 5);
    assert_eq!(escrow(&client, id), 11);
    assert_eq!(client.outbox.len(), before + 2);
    assert_eq!(status(&client, id), AgreementStatus::Created);
    client.approve_milestone(&all(), id, 4).unwrap();
    client.batch_claim_milestones(&all(), id, vec![4]).unwrap();
    assert_eq!(status(&client, id), AgreementStatus::Completed);
    assert_eq!(escrow(&client, id), 0);
}

#[test]
fn batches_are_bounded() {
    let mut client = setup();
    let id = create(&mut client, &[5]);
    assert_eq!(
        client.batch_claim_milestones(&all(), id, vec![]).unwrap_err(),
        PayrollFault::EmptyBatch
    );
    assert_eq!(
        client.batch_claim_milestones(&all(), id, vec![1; 21]).unwrap_err(),
        PayrollFault::Error(PayrollError::BatchTooLarge)
    );
    assert_eq!(
        client.batch_claim_milestones(&all(), id, vec![1]).unwrap_err(),
        PayrollFault::Error(PayrollError::InsufficientEscrowBalance)
    );
    fund(&mut client, id, 5);
    assert_eq!(
        client.batch_claim_milestones(&by(&[EMPLOYER]), id, vec![1]).unwrap_err(),
        PayrollFault::Unauthenticated
    );
    assert_eq!(
        client.batch_claim_milestones(&all(), 77, vec![1]).unwrap_err(),
        PayrollFault::Error(PayrollError::AgreementNotFound)
    );
    let batch = client.batch_claim_milestones(&all(), id, vec![1; 20]).unwrap();
    assert_eq!(batch.results[0].error_code, 3);
    assert_eq!(batch.results[19].error_code, 1);
}

#[test]
fn agreements_do_not_touch_each_other() {
    let mut client = setup();
    let first = create(&mut client, &[5]);
    let second = create(&mut client, &[5]);
    fund(&mut client, first, 5);
    client.approve_milestone(&all(), first, 1).unwrap();
    assert_eq!(
        client.approve_milestone(&all(), second, 1),
        fails(PayrollError::InsufficientEscrowBalance)
    );
    client.claim_milestone(&all(), first, 1).unwrap();
    assert_eq!(client.get_milestone(second, 1), Some(Milestone::new(1, 5)));
    assert_eq!(status(&client, second), AgreementStatus::Created);
}

#[test]
fn malformed_records_are_told_apart() {
    let mut client = setup();
    let id = create(&mut client, &[5, 7]);
    fund(&mut client, id, 12);
    client.approve_milestone(&all(), id, 1).unwrap();
    client.claim_milestone(&all(), id, 1).unwrap();
    let good = |edit: &dyn Fn(&mut MilestoneRecord)| {
        let kept = client.milestone_agreements.get(&id).unwrap();
        let mut record = MilestoneRecord {
            agreement: kept.agreement,
            escrow_balance: kept.escrow_balance,
            entries: kept.entries.clone(),
        };
        edit(&mut record);
        record.is_well_formed()
    };
    assert!(good(&|_| {}));
    assert!(!good(&|r| r.entries.clear()));
    assert!(!good(&|r| r.escrow_balance = -1));
    assert!(!good(&|r| r.agreement.total_amount = 11));
    assert!(!good(&|r| r.agreement.payment_type = PaymentType::LumpSum));
    assert!(!good(&|r| r.agreement.status = AgreementStatus::Completed));
    assert!(!good(&|r| r.entries[1].milestone.id = 1));
    assert!(!good(&|r| r.entries[1].milestone.amount = 0));
    assert!(!good(&|r| r.entries[1].milestone.amount = i128::MAX));
    assert!(!good(&|r| r.entries[1].milestone.claimed = true));
    assert!(!good(&|r| r.entries[0].expired = true));
    assert!(!good(&|r| {
        r.entries[1].rejected = true;
        r.entries[1].expired = true;
    }));
    assert!(good(&|r| r.entries[1].rejected = true));
}

#[test]
fn batch_of_one_pays_like_a_claim() {
    let mut one = setup();
    let mut other = setup();
    for client in [&mut one, &mut other] {
        let id = create(client, &[5, 7]);
        fund(client, id, 12);
        client.approve_milestone(&all(), id, 2).unwrap();
    }
    one.claim_milestone(&all(), 1, 2).unwrap();
    let batch = other.batch_claim_milestones(&all(), 1, vec![2]).unwrap();
    assert_eq!(batch.total_claimed, 7);
    assert_eq!(one.outbox, other.outbox);
    assert_eq!(escrow(&one, 1), escrow(&other, 1));
    assert_eq!(one.get_milestone(1, 2), other.get_milestone(1, 2));
}
