use stellopay_core::address::{Address, WasmHash};
use stellopay_core::env::Env;
use stellopay_core::multisig::{
    is_emergency_eligible, operation_type, MultisigContract, MultisigEffect, MultisigError,
    MultisigFault, OperationApprovedEvent, OperationCancelledEvent, OperationExecutedEvent,
    OperationKind, OperationProposedEvent, OperationStatus, OperationType, TokenTransfer,
};

fn addr(n: u8) -> Address {
    Address { strkey: [n; 56] }
}

fn hash(n: u8) -> WasmHash {
    WasmHash { bytes: [n; 32] }
}

fn by(authorized: &[u8]) -> Env {
    Env {
        contract: addr(99),
        timestamp: 1_234,
        authorized: authorized.iter().map(|n| addr(*n)).collect(),
    }
}

const OWNER: u8 = 1;
const GUARDIAN: u8 = 2;
const A: u8 = 10;
const B: u8 = 11;
const C: u8 = 12;
const STRANGER: u8 = 20;
const TOKEN: u8 = 30;
const PAYEE: u8 = 31;

fn wallet(threshold: u32) -> MultisigContract {
    let mut wallet = MultisigContract::new();
    wallet
        .initialize(
            &by(&[OWNER]),
            addr(OWNER),
            vec![addr(A), addr(B), addr(C)],
            threshold,
            Some(addr(GUARDIAN)),
        )
        .unwrap();
    wallet
}

fn payment(amount: i128) -> OperationKind {
    OperationKind::LargePayment(addr(TOKEN), addr(PAYEE), amount)
}

fn upgrade() -> OperationKind {
    OperationKind::ContractUpgrade(addr(40), hash(7))
}

fn dispute() -> OperationKind {
    OperationKind::DisputeResolution(addr(41), 5, 60, 40)
}

fn propose(wallet: &mut MultisigContract, who: u8, kind: OperationKind) -> u128 {
    wallet.propose_operation(&by(&[who]), addr(who), kind).unwrap()
}

fn approve(wallet: &mut MultisigContract, who: u8, id: u128) -> Result<(), MultisigFault> {
    wallet.approve_operation(&by(&[who]), addr(who), id)
}

fn status(wallet: &MultisigContract, id: u128) -> OperationStatus {
    wallet.get_operation(id).unwrap().status
}

#[test]
fn multisig_error_codes_are_stable() {
    assert_eq!(MultisigError::ContractUpgradeHashMismatch.code(), 1);
    assert_eq!(MultisigError::InvalidAmount.code(), 2);
    assert_eq!(MultisigError::SelfReferentialRecipient.code(), 3);
}

#[test]
fn wallet_setup_is_checked() {
    let mut wallet = MultisigContract::new();
    assert_eq!(wallet.get_signers(), Err(MultisigFault::SignersNotSet));
    assert_eq!(wallet.get_threshold(), Err(MultisigFault::ThresholdNotSet));
    assert_eq!(
        wallet.get_effective_threshold(OperationType::LargePayment),
        Err(MultisigFault::ThresholdNotSet)
    );
    let mut try_setup = |who: &[u8], signers: &[u8], threshold: u32| {
        wallet.initialize(
            &by(who),
            addr(OWNER),
            signers.iter().map(|n| addr(*n)).collect(),
            threshold,
            None,
        )
    };
    assert_eq!(try_setup(&[], &[A], 1), Err(MultisigFault::Unauthenticated));
    assert_eq!(try_setup(&[OWNER], &[], 1), Err(MultisigFault::NoSigners));
    assert_eq!(try_setup(&[OWNER], &[A, B], 0), Err(MultisigFault::InvalidThreshold));
    assert_eq!(try_setup(&[OWNER], &[A, B], 3), Err(MultisigFault::InvalidThreshold));
    assert_eq!(try_setup(&[OWNER], &[A, B, A], 2), Err(MultisigFault::DuplicateSigner));
    assert_eq!(try_setup(&[OWNER], &[A, B], 2), Ok(()));
    assert_eq!(try_setup(&[OWNER], &[A, B], 2), Err(MultisigFault::AlreadyInitialized));
    assert_eq!(wallet.get_signers(), Ok(vec![addr(A), addr(B)]));
    assert_eq!(wallet.get_threshold(), Ok(2));
}

#[test]
fn nothing_works_before_setup() {
    let mut wallet = MultisigContract::new();
    assert_eq!(
        wallet.propose_operation(&by(&[A]), addr(A), dispute()),
        Err(MultisigFault::NotInitialized)
    );
    assert_eq!(approve(&mut wallet, A, 1), Err(MultisigFault::NotInitialized));
    assert_eq!(
        wallet.cancel_operation(&by(&[A]), addr(A), 1),
        Err(MultisigFault::NotInitialized)
    );
    assert_eq!(
        wallet.emergency_execute(&by(&[GUARDIAN]), addr(GUARDIAN), 1),
        Err(MultisigFault::NotInitialized)
    );
    assert_eq!(
        wallet.update_signers(&by(&[OWNER]), vec![addr(A)], 1),
        Err(MultisigFault::NotInitialized)
    );
    assert_eq!(
        wallet.execute_operation(&by(&[A]), addr(A), 1, None),
        Err(MultisigFault::NotInitialized)
    );
}

#[test]
fn payment_is_made_once_enough_signers_approve() {
    let mut wallet = wallet(2);
    let id = propose(&mut wallet, A, payment(500));
    assert_eq!(id, 1);
    assert_eq!(status(&wallet, id), OperationStatus::Pending);
    assert_eq!(wallet.get_approvals(id), vec![addr(A)]);
    assert_eq!(approve(&mut wallet, B, id), Ok(()));
    let op = wallet.get_operation(id).unwrap();
    assert_eq!(op.status, OperationStatus::Executed);
    assert_eq!(op.executed_at, Some(1_234));
    assert_eq!(op.creator, addr(A));
    assert_eq!(
        wallet.outbox,
        vec![
            MultisigEffect::Proposed(OperationProposedEvent { operation_id: 1, creator: addr(A) }),
            MultisigEffect::Approved(OperationApprovedEvent {
                operation_id: 1,
                signer: addr(B),
                approvals: 2,
                threshold: 2,
            }),
            MultisigEffect::Transfer(TokenTransfer {
                token: addr(TOKEN),
                from: addr(99),
                to: addr(PAYEE),
                amount: 500,
            }),
            MultisigEffect::Executed(OperationExecutedEvent { operation_id: 1 }),
        ]
    );
    let sent = wallet.outbox.len();
    assert_eq!(approve(&mut wallet, C, id), Err(MultisigFault::OperationNotPending));
    assert_eq!(
        wallet.execute_operation(&by(&[C]), addr(C), id, None),
        Err(MultisigFault::OperationNotPending)
    );
    assert_eq!(
        wallet.cancel_operation(&by(&[A]), addr(A), id),
        Err(MultisigFault::OperationNotPending)
    );
    assert_eq!(wallet.outbox.len(), sent);
}

#[test]
fn one_signature_is_enough_at_threshold_one() {
    let mut wallet = wallet(1);
    let id = propose(&mut wallet, B, payment(1));
    assert_eq!(status(&wallet, id), OperationStatus::Executed);
}

#[test]
fn payloads_are_checked_when_proposed() {
    let mut wallet = wallet(2);
    let mut try_propose =
        |kind: OperationKind| wallet.propose_operation(&by(&[A]), addr(A), kind);
    let invalid_amount = Err(MultisigFault::Error(MultisigError::InvalidAmount));
    let to_itself = Err(MultisigFault::Error(MultisigError::SelfReferentialRecipient));
    assert_eq!(try_propose(payment(0)), invalid_amount);
    assert_eq!(try_propose(payment(-3)), invalid_amount);
    assert_eq!(
        try_propose(OperationKind::LargePayment(addr(TOKEN), addr(99), 1)),
        to_itself
    );
    assert_eq!(
        try_propose(OperationKind::LargePayment(addr(TOKEN), addr(99), 0)),
        invalid_amount
    );
    assert_eq!(
        try_propose(OperationKind::ContractUpgrade(addr(99), hash(1))),
        to_itself
    );
    assert_eq!(
        try_propose(OperationKind::SetThresholdOverride(OperationType::LargePayment, Some(0))),
        Err(MultisigFault::InvalidThresholdOverride)
    );
    assert_eq!(
        try_propose(OperationKind::SetThresholdOverride(OperationType::LargePayment, Some(4))),
        Err(MultisigFault::InvalidThresholdOverride)
    );
    assert_eq!(
        try_propose(OperationKind::SetThresholdOverride(OperationType::LargePayment, Some(3))),
        Ok(1)
    );
}

#[test]
fn only_signers_take_part() {
    let mut wallet = wallet(2);
    assert_eq!(
        wallet.propose_operation(&by(&[STRANGER]), addr(STRANGER), dispute()),
        Err(MultisigFault::OnlySignersPropose)
    );
    assert_eq!(
        wallet.propose_operation(&by(&[STRANGER]), addr(A), dispute()),
        Err(MultisigFault::Unauthenticated)
    );
    let id = propose(&mut wallet, A, dispute());
    assert_eq!(approve(&mut wallet, STRANGER, id), Err(MultisigFault::OnlySignersApprove));
    assert_eq!(
        wallet.execute_operation(&by(&[STRANGER]), addr(STRANGER), id, None),
        Err(MultisigFault::OnlySignersExecute)
    );
    assert_eq!(
        wallet.approve_operation(&by(&[A]), addr(B), id),
        Err(MultisigFault::Unauthenticated)
    );
    assert_eq!(approve(&mut wallet, B, 77), Err(MultisigFault::OperationNotFound));
    assert_eq!(wallet.get_approvals(id), vec![addr(A)]);
    assert_eq!(wallet.get_operation(77), None);
    assert_eq!(wallet.get_approvals(77), vec![]);
}

#[test]
fn approving_twice_is_approving_once() {
    let mut wallet = wallet(3);
    let id = propose(&mut wallet, A, payment(5));
    assert_eq!(approve(&mut wallet, B, id), Ok(()));
    let sent = wallet.outbox.len();
    assert_eq!(approve(&mut wallet, B, id), Ok(()));
    assert_eq!(approve(&mut wallet, A, id), Ok(()));
    assert_eq!(wallet.get_approvals(id), vec![addr(A), addr(B)]);
    assert_eq!(wallet.outbox.len(), sent);
    assert_eq!(status(&wallet, id), OperationStatus::Pending);
}

#[test]
fn upgrade_needs_the_proposed_hash() {
    let mut wallet = wallet(2);
    let id = propose(&mut wallet, A, upgrade());
    let mismatch = Err(MultisigFault::Error(MultisigError::ContractUpgradeHashMismatch));
    assert_eq!(wallet.execute_operation(&by(&[B]), addr(B), id, None), mismatch);
    assert_eq!(wallet.execute_operation(&by(&[B]), addr(B), id, Some(hash(8))), mismatch);
    assert_eq!(wallet.get_approvals(id), vec![addr(A)]);
    assert_eq!(wallet.outbox.len(), 1);
    assert_eq!(wallet.execute_operation(&by(&[B]), addr(B), id, Some(hash(7))), Ok(()));
    assert_eq!(status(&wallet, id), OperationStatus::Executed);
}

#[test]
fn hash_is_ignored_for_other_operations() {
    let mut wallet = wallet(2);
    let id = propose(&mut wallet, A, payment(5));
    assert_eq!(wallet.execute_operation(&by(&[B]), addr(B), id, Some(hash(1))), Ok(()));
    assert_eq!(status(&wallet, id), OperationStatus::Executed);
}

#[test]
fn earlier_approval_can_execute_once_the_signers_change() {
    let mut wallet = wallet(3);
    let id = propose(&mut wallet, A, payment(5));
    approve(&mut wallet, B, id).unwrap();
    wallet.update_signers(&by(&[OWNER]), vec![addr(A), addr(B)], 2).unwrap();
    assert_eq!(approve(&mut wallet, B, id), Ok(()));
    assert_eq!(status(&wallet, id), OperationStatus::Pending);
    assert_eq!(wallet.execute_operation(&by(&[B]), addr(B), id, None), Ok(()));
    assert_eq!(status(&wallet, id), OperationStatus::Executed);
}

#[test]
fn approvals_of_former_signers_do_not_count() {
    let mut wallet = wallet(2);
    let id = propose(&mut wallet, A, payment(5));
    wallet.update_signers(&by(&[OWNER]), vec![addr(B), addr(C)], 2).unwrap();
    approve(&mut wallet, B, id).unwrap();
    assert_eq!(status(&wallet, id), OperationStatus::Pending);
    approve(&mut wallet, C, id).unwrap();
    assert_eq!(status(&wallet, id), OperationStatus::Executed);
}

#[test]
fn proposer_and_owner_can_cancel() {
    let mut wallet = wallet(2);
    let first = propose(&mut wallet, A, payment(5));
    let second = propose(&mut wallet, A, payment(6));
    assert_eq!(
        wallet.cancel_operation(&by(&[B]), addr(B), first),
        Err(MultisigFault::OnlyCreatorOrOwnerCancels)
    );
    assert_eq!(
        wallet.cancel_operation(&by(&[B]), addr(A), first),
        Err(MultisigFault::Unauthenticated)
    );
    assert_eq!(
        wallet.cancel_operation(&by(&[A]), addr(A), 9),
        Err(MultisigFault::OperationNotFound)
    );
    assert_eq!(wallet.cancel_operation(&by(&[A]), addr(A), first), Ok(()));
    assert_eq!(wallet.cancel_operation(&by(&[OWNER]), addr(OWNER), second), Ok(()));
    assert_eq!(status(&wallet, first), OperationStatus::Cancelled);
    assert_eq!(
        wallet.outbox.last(),
        Some(&MultisigEffect::Cancelled(OperationCancelledEvent { operation_id: second }))
    );
    assert_eq!(approve(&mut wallet, B, first), Err(MultisigFault::OperationNotPending));
}

#[test]
fn guardian_settles_disputes_alone() {
    let mut wallet = wallet(3);
    let disputed = propose(&mut wallet, A, dispute());
    let paying = propose(&mut wallet, A, payment(5));
    let upgrading = propose(&mut wallet, A, upgrade());
    let setting = propose(
        &mut wallet,
        A,
        OperationKind::SetThresholdOverride(OperationType::DisputeResolution, Some(1)),
    );
    for id in [paying, upgrading, setting] {
        assert_eq!(
            wallet.emergency_execute(&by(&[GUARDIAN]), addr(GUARDIAN), id),
            Err(MultisigFault::NotEligibleForEmergency)
        );
    }
    assert_eq!(
        wallet.emergency_execute(&by(&[A]), addr(A), disputed),
        Err(MultisigFault::OnlyGuardianExecutes)
    );
    assert_eq!(
        wallet.emergency_execute(&by(&[]), addr(GUARDIAN), disputed),
        Err(MultisigFault::Unauthenticated)
    );
    assert_eq!(wallet.emergency_execute(&by(&[GUARDIAN]), addr(GUARDIAN), disputed), Ok(()));
    assert_eq!(status(&wallet, disputed), OperationStatus::Executed);
    assert_eq!(
        wallet.emergency_execute(&by(&[GUARDIAN]), addr(GUARDIAN), disputed),
        Err(MultisigFault::OperationNotPending)
    );
    assert!(is_emergency_eligible(&dispute()));
    assert!(!is_emergency_eligible(&payment(1)));
}

#[test]
fn wallet_without_a_guardian_has_no_emergency() {
    let mut wallet = MultisigContract::new();
    wallet.initialize(&by(&[OWNER]), addr(OWNER), vec![addr(A), addr(B)], 2, None).unwrap();
    let id = propose(&mut wallet, A, dispute());
    assert_eq!(
        wallet.emergency_execute(&by(&[GUARDIAN]), addr(GUARDIAN), id),
        Err(MultisigFault::OnlyGuardianExecutes)
    );
}

#[test]
fn threshold_override_takes_the_current_threshold() {
    let mut wallet = wallet(2);
    let loosen = OperationKind::SetThresholdOverride(OperationType::LargePayment, Some(1));
    assert_eq!(operation_type(&loosen), OperationType::LargePayment);
    let id = propose(&mut wallet, A, loosen);
    assert_eq!(wallet.get_threshold_override(OperationType::LargePayment), None);
    approve(&mut wallet, B, id).unwrap();
    assert_eq!(wallet.get_threshold_override(OperationType::LargePayment), Some(1));
    assert_eq!(wallet.get_effective_threshold(OperationType::LargePayment), Ok(1));
    assert_eq!(wallet.get_effective_threshold(OperationType::ContractUpgrade), Ok(2));
    let paid = propose(&mut wallet, C, payment(5));
    assert_eq!(status(&wallet, paid), OperationStatus::Executed);
    let clear = propose(
        &mut wallet,
        C,
        OperationKind::SetThresholdOverride(OperationType::LargePayment, None),
    );
    assert_eq!(status(&wallet, clear), OperationStatus::Executed);
    assert_eq!(wallet.get_effective_threshold(OperationType::LargePayment), Ok(2));
}

#[test]
fn new_signers_cut_thresholds_down() {
    let mut wallet = wallet(1);
    propose(
        &mut wallet,
        A,
        OperationKind::SetThresholdOverride(OperationType::LargePayment, Some(3)),
    );
    assert_eq!(
        wallet.update_signers(&by(&[A]), vec![addr(A)], 1),
        Err(MultisigFault::Unauthenticated)
    );
    assert_eq!(
        wallet.update_signers(&by(&[OWNER]), vec![], 1),
        Err(MultisigFault::NoSigners)
    );
    assert_eq!(
        wallet.update_signers(&by(&[OWNER]), vec![addr(A)], 2),
        Err(MultisigFault::InvalidNewThreshold)
    );
    assert_eq!(
        wallet.update_signers(&by(&[OWNER]), vec![addr(A), addr(A)], 1),
        Err(MultisigFault::DuplicateSigner)
    );
    assert_eq!(wallet.get_effective_threshold(OperationType::LargePayment), Ok(3));
    assert_eq!(wallet.update_signers(&by(&[OWNER]), vec![addr(B), addr(C)], 2), Ok(()));
    assert_eq!(wallet.get_threshold_override(OperationType::LargePayment), Some(2));
    assert_eq!(wallet.get_threshold(), Ok(2));
    assert_eq!(wallet.get_signers(), Ok(vec![addr(B), addr(C)]));
}

#[test]
fn operation_numbers_run_out() {
    let mut wallet = wallet(2);
    wallet.operation_counter = u128::MAX;
    assert_eq!(
        wallet.propose_operation(&by(&[A]), addr(A), dispute()),
        Err(MultisigFault::OperationIdOverflow)
    );
}
