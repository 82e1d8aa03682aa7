//! The multisig wallet: signers propose and approve operations, and an
//! operation is executed once enough of them have approved it.

use vstd::prelude::*;

use crate::address::{Address, WasmHash};
use crate::env::{contains_address, copy_addresses, Env};
use crate::table::{Key, Table};

verus! {

/// The errors that clients of the multisig know by number.
#[derive(Clone, Copy, Debug, PartialEq, Eq, Structural)]
pub enum MultisigError {
    /// The code hash presented for execution is not the one that was approved.
    ContractUpgradeHashMismatch,
    /// A payment was proposed with an amount that is not positive.
    InvalidAmount,
    /// A payment or an upgrade names the multisig itself as its target.
    SelfReferentialRecipient,
}

impl MultisigError {
    /// The number of the error, as clients and indexers know it.
    pub open spec fn spec_code(self) -> u32 {
        match self {
            MultisigError::ContractUpgradeHashMismatch => 1,
            MultisigError::InvalidAmount => 2,
            MultisigError::SelfReferentialRecipient => 3,
        }
    }

    /// The number of the error, as clients and indexers know it.
    pub fn code(self) -> (r: u32)
        ensures
            r == self.spec_code(),
    {
        match self {
            MultisigError::ContractUpgradeHashMismatch => 1,
            MultisigError::InvalidAmount => 2,
            MultisigError::SelfReferentialRecipient => 3,
        }
    }
}

/// Why a call fails.
#[derive(Clone, Copy, Debug, PartialEq, Eq, Structural)]
pub enum MultisigFault {
    /// An address that has to authorize the call did not.
    Unauthenticated,
    NotInitialized,
    AlreadyInitialized,
    NoSigners,
    InvalidThreshold,
    InvalidNewThreshold,
    DuplicateSigner,
    SignersNotSet,
    ThresholdNotSet,
    OnlySignersPropose,
    OnlySignersApprove,
    OnlySignersExecute,
    OnlyCreatorOrOwnerCancels,
    OnlyGuardianExecutes,
    NotEligibleForEmergency,
    InvalidThresholdOverride,
    OverrideNeedsCurrentThreshold,
    AmountNotPositive,
    OperationIdOverflow,
    OperationNotFound,
    OperationNotPending,
    Error(MultisigError),
}

/// What a threshold can be set for.
#[derive(Clone, Copy, Debug, PartialEq, Eq, Structural)]
pub enum OperationType {
    ContractUpgrade,
    LargePayment,
    DisputeResolution,
}

impl Key for OperationType {
    fn same(&self, other: &Self) -> (r: bool) {
        *self == *other
    }
}

/// What an operation does once it is executed.
#[derive(Clone, Copy, Debug, PartialEq, Eq)]
pub enum OperationKind {
    /// Approves an upgrade: the target, and the hash of its new code.
    ContractUpgrade(Address, WasmHash),
    /// Pays from the multisig: the token, the recipient, and the amount.
    LargePayment(Address, Address, i128),
    /// Approves how a dispute is settled: the payroll contract, the agreement,
    /// what the employee gets, and what the employer gets back.
    DisputeResolution(Address, u128, i128, i128),
    /// Sets the threshold of an operation type, or takes the setting away.
    SetThresholdOverride(OperationType, Option<u32>),
}

/// How far an operation has come.
#[derive(Clone, Copy, Debug, PartialEq, Eq, Structural)]
pub enum OperationStatus {
    Pending,
    Executed,
    Cancelled,
}

/// A proposed operation.
#[derive(Clone, Copy, Debug, PartialEq, Eq)]
pub struct Operation {
    pub id: u128,
    pub kind: OperationKind,
    pub creator: Address,
    pub status: OperationStatus,
    pub created_at: u64,
    pub executed_at: Option<u64>,
}

#[derive(Clone, Copy, Debug, PartialEq, Eq)]
pub struct OperationProposedEvent {
    pub operation_id: u128,
    /// The signer who proposed the operation.
    pub creator: Address,
}

#[derive(Clone, Copy, Debug, PartialEq, Eq)]
pub struct OperationApprovedEvent {
    pub operation_id: u128,
    /// The signer who approved it.
    pub signer: Address,
    /// How many approvals are on record.
    pub approvals: u32,
    /// How many approvals execute it.
    pub threshold: u32,
}

#[derive(Clone, Copy, Debug, PartialEq, Eq)]
pub struct OperationExecutedEvent {
    pub operation_id: u128,
}

#[derive(Clone, Copy, Debug, PartialEq, Eq)]
pub struct OperationCancelledEvent {
    pub operation_id: u128,
}

/// A token transfer.
#[derive(Clone, Copy, Debug, PartialEq, Eq)]
pub struct TokenTransfer {
    pub token: Address,
    pub from: Address,
    pub to: Address,
    pub amount: i128,
}

/// What the multisig does to the outside world.
#[derive(Clone, Copy, Debug, PartialEq, Eq)]
pub enum MultisigEffect {
    Proposed(OperationProposedEvent),
    Approved(OperationApprovedEvent),
    Executed(OperationExecutedEvent),
    Cancelled(OperationCancelledEvent),
    Transfer(TokenTransfer),
}

/// Who controls the multisig.
#[derive(Debug, PartialEq, Eq)]
pub struct MultisigConfig {
    pub owner: Address,
    pub emergency_guardian: Option<Address>,
    pub signers: Vec<Address>,
    /// How many approvals execute an operation, unless its type has a threshold of its own.
    pub threshold: u32,
}

/// Who controls the multisig, as mathematical values.
#[verifier::ext_equal]
pub struct Settings {
    pub owner: Address,
    pub emergency_guardian: Option<Address>,
    pub signers: Seq<Address>,
    pub threshold: u32,
}

impl View for MultisigConfig {
    type V = Settings;

    open spec fn view(&self) -> Settings {
        Settings {
            owner: self.owner,
            emergency_guardian: self.emergency_guardian,
            signers: self.signers@,
            threshold: self.threshold,
        }
    }
}

/// The multisig's storage.
pub struct MultisigContract {
    /// Set once the contract is initialized.
    pub config: Option<MultisigConfig>,
    /// The number of the last operation.
    pub operation_counter: u128,
    pub operations: Table<u128, Operation>,
    pub approvals: Table<u128, Vec<Address>>,
    pub overrides: Table<OperationType, u32>,
    /// What was done to the outside world, oldest first.
    pub outbox: Vec<MultisigEffect>,
}

/// The multisig's storage, as mathematical values.
#[verifier::ext_equal]
pub struct MultisigState {
    pub settings: Option<Settings>,
    pub operation_counter: u128,
    pub operations: Map<u128, Operation>,
    pub approvals: Map<u128, Seq<Address>>,
    pub overrides: Map<OperationType, u32>,
    pub outbox: Seq<MultisigEffect>,
}

impl View for MultisigContract {
    type V = MultisigState;

    open spec fn view(&self) -> MultisigState {
        MultisigState {
            settings: match self.config {
                Some(config) => Some(config@),
                None => None,
            },
            operation_counter: self.operation_counter,
            operations: self.operations@,
            approvals: self.approvals@.map_values(|list: Vec<Address>| list@),
            overrides: self.overrides@,
            outbox: self.outbox@,
        }
    }
}

/// The type whose threshold an operation has to meet.
pub open spec fn type_of(kind: OperationKind) -> OperationType {
    match kind {
        OperationKind::ContractUpgrade(_, _) => OperationType::ContractUpgrade,
        OperationKind::LargePayment(_, _, _) => OperationType::LargePayment,
        OperationKind::DisputeResolution(_, _, _, _) => OperationType::DisputeResolution,
        OperationKind::SetThresholdOverride(target, _) => target,
    }
}

/// Whether a signer list and a threshold make a multisig: someone signs,
/// nobody twice, and the threshold can be met.
pub open spec fn valid_signers(signers: Seq<Address>, threshold: u32) -> bool {
    signers.len() > 0 && 0 < threshold <= signers.len() && signers.no_duplicates()
}

/// Why a signer list and a threshold are turned down, if they are.
pub open spec fn signers_refusal(
    signers: Seq<Address>,
    threshold: u32,
    bad_threshold: MultisigFault,
) -> Option<MultisigFault> {
    if signers.len() == 0 {
        Some(MultisigFault::NoSigners)
    } else if !(0 < threshold <= signers.len()) {
        Some(bad_threshold)
    } else if !signers.no_duplicates() {
        Some(MultisigFault::DuplicateSigner)
    } else {
        None
    }
}

/// Whether an operation pays something, where it pays, and asks for an
/// approval, where it sets a threshold.
pub open spec fn valid_kind(kind: OperationKind) -> bool {
    match kind {
        OperationKind::LargePayment(_, _, amount) => amount > 0,
        OperationKind::SetThresholdOverride(_, Some(threshold)) => threshold > 0,
        _ => true,
    }
}

/// Why a threshold override is turned down, if it is: as many signers have to be able to
/// approve as it asks for, and it has to ask for one at least.
pub open spec fn override_refusal(
    threshold: Option<u32>,
    signers: Seq<Address>,
) -> Option<MultisigFault> {
    match threshold {
        Some(value) => if 0 < value <= signers.len() {
            None
        } else {
            Some(MultisigFault::InvalidThresholdOverride)
        },
        None => None,
    }
}

/// Why the payload of an operation is turned down whoever the signers are, if it is. Dispute
/// resolutions and threshold overrides pass.
pub open spec fn payload_refusal(
    kind: OperationKind,
    contract: Address,
) -> Option<MultisigFault> {
    match kind {
        OperationKind::LargePayment(_, to, amount) => if amount <= 0 {
            Some(MultisigFault::Error(MultisigError::InvalidAmount))
        } else if to == contract {
            Some(MultisigFault::Error(MultisigError::SelfReferentialRecipient))
        } else {
            None
        },
        OperationKind::ContractUpgrade(target, _) => if target == contract {
            Some(MultisigFault::Error(MultisigError::SelfReferentialRecipient))
        } else {
            None
        },
        OperationKind::DisputeResolution(_, _, _, _) => None,
        OperationKind::SetThresholdOverride(_, _) => None,
    }
}

/// Why an operation of this kind cannot be proposed, if it cannot.
pub open spec fn kind_refusal(
    kind: OperationKind,
    signers: Seq<Address>,
    contract: Address,
) -> Option<MultisigFault> {
    match kind {
        OperationKind::SetThresholdOverride(_, threshold) => override_refusal(threshold, signers),
        _ => payload_refusal(kind, contract),
    }
}

impl MultisigState {
    /// A freshly deployed multisig.
    pub open spec fn fresh() -> MultisigState {
        MultisigState {
            settings: None,
            operation_counter: 0,
            operations: Map::empty(),
            approvals: Map::empty(),
            overrides: Map::empty(),
            outbox: Seq::empty(),
        }
    }

    /// What holds of the multisig whatever is called: the signers and the
    /// threshold fit together, every operation is kept under its number, and
    /// nobody approved one twice.
    pub open spec fn wf(self) -> bool {
        &&& match self.settings {
            Some(settings) => valid_signers(settings.signers, settings.threshold),
            None => self.operation_counter == 0,
        }
        &&& forall|id: u128| #[trigger]
            self.operations.contains_key(id) ==> {
                &&& 0 < id <= self.operation_counter
                &&& self.approvals.contains_key(id)
                &&& self.operations[id].id == id
                &&& valid_kind(self.operations[id].kind)
                &&& self.operations[id].executed_at is Some <==> self.operations[id].status
                    == OperationStatus::Executed
            }
        &&& forall|id: u128| #[trigger]
            self.approvals.contains_key(id) ==> self.operations.contains_key(id)
                && self.approvals[id].no_duplicates()
        &&& forall|target: OperationType| #[trigger]
            self.overrides.contains_key(target) ==> self.overrides[target] > 0
    }

    pub open spec fn sending(self, effect: MultisigEffect) -> MultisigState {
        MultisigState { outbox: self.outbox.push(effect), ..self }
    }

    pub open spec fn is_signer(self, address: Address) -> bool {
        self.settings is Some && self.settings->0.signers.contains(address)
    }

    /// The threshold in force for an operation type.
    pub open spec fn effective_threshold(self, target: OperationType) -> u32 {
        if self.overrides.contains_key(target) {
            self.overrides[target]
        } else {
            self.settings->0.threshold
        }
    }

    /// Who approved an operation.
    pub open spec fn approvals_of(self, id: u128) -> Seq<Address> {
        if self.approvals.contains_key(id) {
            self.approvals[id]
        } else {
            Seq::empty()
        }
    }

    /// How many of those who approved an operation are signers now.
    pub open spec fn approval_count(self, id: u128) -> nat {
        self.approvals_of(id).filter(|address: Address| self.is_signer(address)).len()
    }

    /// Whether an operation has as many approvals as its type asks for.
    pub open spec fn is_approved(self, id: u128) -> bool {
        self.approval_count(id) >= self.effective_threshold(type_of(self.operations[id].kind))
    }

    /// The state in which an address has approved an operation.
    pub open spec fn approving(self, id: u128, signer: Address) -> MultisigState {
        let list = self.approvals_of(id).push(signer);
        MultisigState { approvals: self.approvals.insert(id, list), ..self }.sending(
            MultisigEffect::Approved(
                OperationApprovedEvent {
                    operation_id: id,
                    signer,
                    approvals: list.len() as u32,
                    threshold: self.effective_threshold(type_of(self.operations[id].kind)),
                },
            ),
        )
    }

    /// The state in which what an operation asks for has been done.
    pub open spec fn performing(self, kind: OperationKind, contract: Address) -> MultisigState {
        match kind {
            OperationKind::LargePayment(token, to, amount) => self.sending(
                MultisigEffect::Transfer(TokenTransfer { token, from: contract, to, amount }),
            ),
            OperationKind::ContractUpgrade(_, _) => self,
            OperationKind::DisputeResolution(_, _, _, _) => self,
            OperationKind::SetThresholdOverride(target, Some(threshold)) => MultisigState {
                overrides: self.overrides.insert(target, threshold),
                ..self
            },
            OperationKind::SetThresholdOverride(target, None) => MultisigState {
                overrides: self.overrides.remove(target),
                ..self
            },
        }
    }

    /// The state in which a pending operation has been executed.
    pub open spec fn executing(self, env: Env, id: u128) -> MultisigState {
        let op = self.operations[id];
        let done = self.performing(op.kind, env.contract);
        MultisigState {
            operations: done.operations.insert(
                id,
                Operation {
                    status: OperationStatus::Executed,
                    executed_at: Some(env.timestamp),
                    ..op
                },
            ),
            ..done
        }.sending(MultisigEffect::Executed(OperationExecutedEvent { operation_id: id }))
    }

    /// Why an operation cannot be executed, if it cannot.
    pub open spec fn execution_fault(self, id: u128) -> Option<MultisigFault> {
        match self.operations[id].kind {
            OperationKind::LargePayment(_, _, amount) => if amount <= 0 {
                Some(MultisigFault::AmountNotPositive)
            } else {
                None
            },
            OperationKind::SetThresholdOverride(_, _) => if !self.is_approved(id) {
                Some(MultisigFault::OverrideNeedsCurrentThreshold)
            } else {
                None
            },
            _ => None,
        }
    }

    /// The outcome of executing a pending operation.
    pub open spec fn after_execute(
        self,
        env: Env,
        id: u128,
    ) -> Result<MultisigState, MultisigFault> {
        match self.execution_fault(id) {
            Some(fault) => Err(fault),
            None => Ok(self.executing(env, id)),
        }
    }

    /// The outcome of executing a pending operation if it has the approvals.
    pub open spec fn after_settle(
        self,
        env: Env,
        id: u128,
    ) -> Result<MultisigState, MultisigFault> {
        if self.is_approved(id) {
            self.after_execute(env, id)
        } else {
            Ok(self)
        }
    }

    /// Why `initialize` is turned down, if it is.
    pub open spec fn initialize_refusal(
        self,
        env: Env,
        owner: Address,
        signers: Seq<Address>,
        threshold: u32,
    ) -> Option<MultisigFault> {
        if !env.authorizes(owner) {
            Some(MultisigFault::Unauthenticated)
        } else if self.settings is Some {
            Some(MultisigFault::AlreadyInitialized)
        } else {
            signers_refusal(signers, threshold, MultisigFault::InvalidThreshold)
        }
    }

    /// The state in which the multisig has been initialized.
    pub open spec fn initializing(
        self,
        owner: Address,
        signers: Seq<Address>,
        threshold: u32,
        emergency_guardian: Option<Address>,
    ) -> MultisigState {
        MultisigState {
            settings: Some(Settings { owner, emergency_guardian, signers, threshold }),
            ..self
        }
    }

    /// Why `update_signers` is turned down, if it is.
    pub open spec fn update_refusal(
        self,
        env: Env,
        signers: Seq<Address>,
        threshold: u32,
    ) -> Option<MultisigFault> {
        if self.settings is None {
            Some(MultisigFault::NotInitialized)
        } else if !env.authorizes(self.settings->0.owner) {
            Some(MultisigFault::Unauthenticated)
        } else {
            signers_refusal(signers, threshold, MultisigFault::InvalidNewThreshold)
        }
    }

    /// New signers and a new threshold, with every threshold override cut
    /// down to the number of signers.
    pub open spec fn with_signers(self, signers: Seq<Address>, threshold: u32) -> MultisigState {
        MultisigState {
            settings: Some(Settings { signers, threshold, ..self.settings->0 }),
            overrides: self.overrides.map_values(
                |value: u32|
                    if value > signers.len() {
                        signers.len() as u32
                    } else {
                        value
                    },
            ),
            ..self
        }
    }

    /// Why a signer's call is turned down whatever it is about, if it is.
    pub open spec fn signer_refusal(
        self,
        env: Env,
        signer: Address,
        stranger: MultisigFault,
    ) -> Option<MultisigFault> {
        if self.settings is None {
            Some(MultisigFault::NotInitialized)
        } else if !env.authorizes(signer) {
            Some(MultisigFault::Unauthenticated)
        } else if !self.is_signer(signer) {
            Some(stranger)
        } else {
            None
        }
    }

    /// Why a call on an operation that has to be pending is turned down, if it is.
    pub open spec fn pending_refusal(self, id: u128) -> Option<MultisigFault> {
        if !self.operations.contains_key(id) {
            Some(MultisigFault::OperationNotFound)
        } else if self.operations[id].status != OperationStatus::Pending {
            Some(MultisigFault::OperationNotPending)
        } else {
            None
        }
    }

    /// Why `propose_operation` is turned down, if it is.
    pub open spec fn propose_refusal(
        self,
        env: Env,
        proposer: Address,
        kind: OperationKind,
    ) -> Option<MultisigFault> {
        match self.signer_refusal(env, proposer, MultisigFault::OnlySignersPropose) {
            Some(fault) => Some(fault),
            None => match kind_refusal(kind, self.settings->0.signers, env.contract) {
                Some(fault) => Some(fault),
                None => if self.operation_counter == u128::MAX {
                    Some(MultisigFault::OperationIdOverflow)
                } else {
                    None
                },
            },
        }
    }

    /// The state in which an operation is proposed, with its proposer's approval.
    pub open spec fn proposing(
        self,
        env: Env,
        proposer: Address,
        kind: OperationKind,
    ) -> MultisigState {
        let id = (self.operation_counter + 1) as u128;
        let op = Operation {
            id,
            kind,
            creator: proposer,
            status: OperationStatus::Pending,
            created_at: env.timestamp,
            executed_at: None,
        };
        MultisigState {
            operation_counter: id,
            operations: self.operations.insert(id, op),
            approvals: self.approvals.insert(id, seq![proposer]),
            ..self
        }.sending(
            MultisigEffect::Proposed(
                OperationProposedEvent { operation_id: id, creator: proposer },
            ),
        )
    }

    /// The outcome of a proposal: it is executed at once where one approval is enough.
    pub open spec fn after_propose(
        self,
        env: Env,
        proposer: Address,
        kind: OperationKind,
    ) -> (MultisigState, Result<u128, MultisigFault>) {
        let id = (self.operation_counter + 1) as u128;
        let proposed = self.proposing(env, proposer, kind);
        match self.propose_refusal(env, proposer, kind) {
            Some(fault) => (self, Err(fault)),
            None => if proposed.is_approved(id) {
                (proposed.executing(env, id), Ok(id))
            } else {
                (proposed, Ok(id))
            },
        }
    }

    /// The outcome of an approval. A second approval by one signer changes nothing.
    pub open spec fn after_approve(
        self,
        env: Env,
        signer: Address,
        id: u128,
    ) -> (MultisigState, Result<(), MultisigFault>) {
        match self.signer_refusal(env, signer, MultisigFault::OnlySignersApprove) {
            Some(fault) => (self, Err(fault)),
            None => match self.pending_refusal(id) {
                Some(fault) => (self, Err(fault)),
                None => if self.approvals_of(id).contains(signer) {
                    (self, Ok(()))
                } else {
                    match self.approving(id, signer).after_settle(env, id) {
                        Ok(after) => (after, Ok(())),
                        Err(fault) => (self, Err(fault)),
                    }
                },
            },
        }
    }

    /// Whether a presented code hash is the one that an upgrade names; any
    /// will do for other operations.
    pub open spec fn hash_matches(self, id: u128, expected: Option<WasmHash>) -> bool {
        match self.operations[id].kind {
            OperationKind::ContractUpgrade(_, hash) => expected == Some(hash),
            _ => true,
        }
    }

    /// The outcome of an approval that presents a code hash.
    pub open spec fn after_execute_operation(
        self,
        env: Env,
        caller: Address,
        id: u128,
        expected: Option<WasmHash>,
    ) -> (MultisigState, Result<(), MultisigFault>) {
        let approved = if self.approvals_of(id).contains(caller) {
            self
        } else {
            self.approving(id, caller)
        };
        match self.signer_refusal(env, caller, MultisigFault::OnlySignersExecute) {
            Some(fault) => (self, Err(fault)),
            None => match self.pending_refusal(id) {
                Some(fault) => (self, Err(fault)),
                None => if !self.hash_matches(id, expected) {
                    (
                        self,
                        Err(MultisigFault::Error(MultisigError::ContractUpgradeHashMismatch)),
                    )
                } else {
                    match approved.after_settle(env, id) {
                        Ok(after) => (after, Ok(())),
                        Err(fault) => (self, Err(fault)),
                    }
                },
            },
        }
    }

    /// Why `cancel_operation` is turned down, if it is.
    pub open spec fn cancel_refusal(
        self,
        env: Env,
        caller: Address,
        id: u128,
    ) -> Option<MultisigFault> {
        if self.settings is None {
            Some(MultisigFault::NotInitialized)
        } else if !env.authorizes(caller) {
            Some(MultisigFault::Unauthenticated)
        } else {
            match self.pending_refusal(id) {
                Some(fault) => Some(fault),
                None => if caller == self.operations[id].creator || caller
                    == self.settings->0.owner {
                    None
                } else {
                    Some(MultisigFault::OnlyCreatorOrOwnerCancels)
                },
            }
        }
    }

    pub open spec fn cancelling(self, id: u128) -> MultisigState {
        MultisigState {
            operations: self.operations.insert(
                id,
                Operation { status: OperationStatus::Cancelled, ..self.operations[id] },
            ),
            ..self
        }.sending(MultisigEffect::Cancelled(OperationCancelledEvent { operation_id: id }))
    }

    /// Why `emergency_execute` is turned down, if it is.
    pub open spec fn emergency_refusal(
        self,
        env: Env,
        guardian: Address,
        id: u128,
    ) -> Option<MultisigFault> {
        if self.settings is None {
            Some(MultisigFault::NotInitialized)
        } else if !env.authorizes(guardian) {
            Some(MultisigFault::Unauthenticated)
        } else if self.settings->0.emergency_guardian != Some(guardian) {
            Some(MultisigFault::OnlyGuardianExecutes)
        } else {
            match self.pending_refusal(id) {
                Some(fault) => Some(fault),
                None => if self.operations[id].kind is DisputeResolution {
                    None
                } else {
                    Some(MultisigFault::NotEligibleForEmergency)
                },
            }
        }
    }
}

/// The answer to a call that changes the state unless it is turned down.
pub open spec fn answer(
    before: MultisigState,
    refusal: Option<MultisigFault>,
    changed: MultisigState,
) -> (MultisigState, Result<(), MultisigFault>) {
    match refusal {
        Some(fault) => (before, Err(fault)),
        None => (changed, Ok(())),
    }
}

/// One more approval by a signer is one more that counts.
proof fn lemma_approving_counts(state: MultisigState, id: u128, signer: Address)
    requires
        state.is_signer(signer),
    ensures
        state.approving(id, signer).approval_count(id) == state.approval_count(id) + 1,
{
    reveal(Seq::filter);
    let after = state.approving(id, signer);
    let before_list = state.approvals_of(id);
    let pred = |address: Address| state.is_signer(address);
    let pred_after = |address: Address| after.is_signer(address);
    assert(pred =~= pred_after);
    assert(after.approvals_of(id) == before_list.push(signer));
    assert(before_list.push(signer).drop_last() =~= before_list);
    assert(before_list.push(signer).filter(pred) == before_list.filter(pred).push(signer));
}

/// The type whose threshold an operation has to meet.
pub fn operation_type(kind: &OperationKind) -> (r: OperationType)
    ensures
        r == type_of(*kind),
{
    match kind {
        OperationKind::ContractUpgrade(_, _) => OperationType::ContractUpgrade,
        OperationKind::LargePayment(_, _, _) => OperationType::LargePayment,
        OperationKind::DisputeResolution(_, _, _, _) => OperationType::DisputeResolution,
        OperationKind::SetThresholdOverride(target, _) => *target,
    }
}

/// Whether the emergency guardian may execute such an operation alone.
pub fn is_emergency_eligible(kind: &OperationKind) -> (r: bool)
    ensures
        r == (*kind is DisputeResolution),
{
    match kind {
        OperationKind::DisputeResolution(_, _, _, _) => true,
        _ => false,
    }
}

/// Whether nobody is in the list twice.
fn is_duplicate_free(list: &Vec<Address>) -> (r: bool)
    ensures
        r == list@.no_duplicates(),
{
    let mut i: usize = 0;
    while i < list.len()
        invariant
            i <= list@.len(),
            forall|a: int, b: int| 0 <= a < i && a < b < list@.len() ==> list@[a] != list@[b],
        decreases list@.len() - i,
    {
        let mut j: usize = i + 1;
        while j < list.len()
            invariant
                i < j <= list@.len(),
                forall|b: int| i < b < j ==> list@[i as int] != list@[b],
            decreases list@.len() - j,
        {
            if list[i] == list[j] {
                assert(list@[i as int] == list@[j as int]);
                return false;
            }
            j = j + 1;
        }
        i = i + 1;
    }
    true
}

/// Checks a signer list and a threshold.
fn check_signers(
    signers: &Vec<Address>,
    threshold: u32,
    bad_threshold: MultisigFault,
) -> (r: Result<(), MultisigFault>)
    ensures
        r == match signers_refusal(signers@, threshold, bad_threshold) {
            Some(fault) => Err::<(), MultisigFault>(fault),
            None => Ok(()),
        },
{
    if signers.len() == 0 {
        return Err(MultisigFault::NoSigners);
    }
    if threshold == 0 || threshold as usize > signers.len() {
        return Err(bad_threshold);
    }
    if !is_duplicate_free(signers) {
        return Err(MultisigFault::DuplicateSigner);
    }
    Ok(())
}

/// Checks the threshold that an override asks for.
fn validate_threshold_override(
    threshold: &Option<u32>,
    signers: &Vec<Address>,
) -> (r: Result<(), MultisigFault>)
    ensures
        r == match override_refusal(*threshold, signers@) {
            Some(fault) => Err::<(), MultisigFault>(fault),
            None => Ok(()),
        },
{
    match threshold {
        Some(value) => {
            if *value > 0 && *value as usize <= signers.len() {
                Ok(())
            } else {
                Err(MultisigFault::InvalidThresholdOverride)
            }
        },
        None => Ok(()),
    }
}

/// Checks the payload of an operation that is proposed.
fn validate_operation_kind(
    kind: &OperationKind,
    contract: &Address,
) -> (r: Result<(), MultisigFault>)
    ensures
        r == match payload_refusal(*kind, *contract) {
            Some(fault) => Err::<(), MultisigFault>(fault),
            None => Ok(()),
        },
{
    match kind {
        OperationKind::LargePayment(_, to, amount) => {
            if *amount <= 0 {
                return Err(MultisigFault::Error(MultisigError::InvalidAmount));
            }
            if *to == *contract {
                return Err(MultisigFault::Error(MultisigError::SelfReferentialRecipient));
            }
            Ok(())
        },
        OperationKind::ContractUpgrade(target, _) => {
            if *target == *contract {
                return Err(MultisigFault::Error(MultisigError::SelfReferentialRecipient));
            }
            Ok(())
        },
        OperationKind::DisputeResolution(_, _, _, _) => Ok(()),
        OperationKind::SetThresholdOverride(_, _) => Ok(()),
    }
}

impl MultisigContract {
    /// A freshly deployed multisig.
    pub fn new() -> (multisig: Self)
        ensures
            multisig@ == MultisigState::fresh(),
            multisig@.wf(),
    {
        MultisigContract {
            config: None,
            operation_counter: 0,
            operations: Table::new(),
            approvals: Table::new(),
            overrides: Table::new(),
            outbox: Vec::new(),
        }
    }

    /// Who approved an operation.
    fn read_approvals(&self, id: u128) -> (r: Vec<Address>)
        ensures
            r@ == self@.approvals_of(id),
    {
        match self.approvals.get(&id) {
            Some(list) => copy_addresses(list),
            None => Vec::new(),
        }
    }

    /// How many of those who approved an operation are signers now.
    fn approval_count(&self, config: &MultisigConfig, id: u128) -> (r: usize)
        requires
            self.config == Some(*config),
        ensures
            r == self@.approval_count(id),
    {
        let list: Vec<Address> = self.read_approvals(id);
        let ghost pred = |address: Address| self@.is_signer(address);
        let mut count: usize = 0;
        let mut i: usize = 0;
        proof {
            reveal(Seq::filter);
            assert(list@.take(0).filter(pred) =~= Seq::empty());
        }
        while i < list.len()
            invariant
                i <= list@.len(),
                count <= i,
                self.config == Some(*config),
                pred == |address: Address| self@.is_signer(address),
                count == list@.take(i as int).filter(pred).len(),
            decreases list@.len() - i,
        {
            proof {
                reveal(Seq::filter);
                assert(list@.take(i + 1).drop_last() =~= list@.take(i as int));
                assert(list@.take(i + 1).last() == list@[i as int]);
            }
            if contains_address(&config.signers, &list[i]) {
                count = count + 1;
            }
            i = i + 1;
        }
        assert(list@.take(i as int) =~= list@);
        count
    }

    /// The threshold in force for an operation type.
    fn read_effective_threshold(&self, config: &MultisigConfig, target: &OperationType) -> (r: u32)
        requires
            self.config == Some(*config),
        ensures
            r == self@.effective_threshold(*target),
    {
        match self.overrides.get(target) {
            Some(threshold) => *threshold,
            None => config.threshold,
        }
    }

    /// Checks that a signer makes the call.
    fn require_signer(
        &self,
        env: &Env,
        signer: &Address,
        stranger: MultisigFault,
    ) -> (r: Result<(), MultisigFault>)
        ensures
            r == match self@.signer_refusal(*env, *signer, stranger) {
                Some(fault) => Err::<(), MultisigFault>(fault),
                None => Ok(()),
            },
    {
        match &self.config {
            None => Err(MultisigFault::NotInitialized),
            Some(config) => {
                if !env.is_authorized(signer) {
                    return Err(MultisigFault::Unauthenticated);
                }
                if !contains_address(&config.signers, signer) {
                    return Err(stranger);
                }
                Ok(())
            },
        }
    }

    /// The operation with this number, which has to be pending.
    fn read_pending(&self, id: u128) -> (r: Result<Operation, MultisigFault>)
        ensures
            r == match self@.pending_refusal(id) {
                Some(fault) => Err::<Operation, MultisigFault>(fault),
                None => Ok(self@.operations[id]),
            },
    {
        match self.operations.get(&id) {
            None => Err(MultisigFault::OperationNotFound),
            Some(op) => {
                if op.status != OperationStatus::Pending {
                    return Err(MultisigFault::OperationNotPending);
                }
                Ok(*op)
            },
        }
    }

    /// Does what a pending operation asks for, and marks it executed. An operation that
    /// is not pending is left alone. A threshold override has to meet the threshold that
    /// it changes, whoever asks for its execution.
    fn perform_execute(&mut self, env: &Env, operation_id: u128) -> (r: Result<(), MultisigFault>)
        requires
            old(self)@.settings is Some,
            old(self)@.operations.contains_key(operation_id),
        ensures
            (if old(self)@.operations[operation_id].status != OperationStatus::Pending {
                r == Ok::<(), MultisigFault>(()) && final(self)@ == old(self)@
            } else {
                match old(self)@.after_execute(*env, operation_id) {
                    Ok(after) => r == Ok::<(), MultisigFault>(()) && final(self)@ == after,
                    Err(fault) => r == Err::<(), MultisigFault>(fault) && final(self)@
                        == old(self)@,
                }
            }),
    {
        let op: Operation = match self.operations.get(&operation_id) {
            Some(op) => *op,
            None => return Ok(()),
        };
        if op.status != OperationStatus::Pending {
            return Ok(());
        }
        match &op.kind {
            OperationKind::SetThresholdOverride(target, _) => {
                let approved: bool = match &self.config {
                    Some(config) => {
                        let threshold: u32 = self.read_effective_threshold(config, target);
                        self.approval_count(config, operation_id) >= threshold as usize
                    },
                    None => false,
                };
                if !approved {
                    return Err(MultisigFault::OverrideNeedsCurrentThreshold);
                }
            },
            _ => {},
        }
        match op.kind {
            OperationKind::LargePayment(token, to, amount) => {
                if amount <= 0 {
                    return Err(MultisigFault::AmountNotPositive);
                }
                let transfer = TokenTransfer { token, from: env.contract, to, amount };
                self.outbox.push(MultisigEffect::Transfer(transfer));
            },
            OperationKind::ContractUpgrade(_, _) => {},
            OperationKind::DisputeResolution(_, _, _, _) => {},
            OperationKind::SetThresholdOverride(target, threshold) => {
                match threshold {
                    Some(value) => self.overrides.set(target, value),
                    None => self.overrides.remove(&target),
                }
            },
        }
        let executed = Operation {
            status: OperationStatus::Executed,
            executed_at: Some(env.timestamp),
            ..op
        };
        self.operations.set(operation_id, executed);
        self.outbox.push(MultisigEffect::Executed(OperationExecutedEvent { operation_id }));
        assert(self@ =~= old(self)@.executing(*env, operation_id));
        Ok(())
    }

    /// Executes a pending operation if it has as many approvals as its type asks for.
    fn execute_if_threshold_met(
        &mut self,
        env: &Env,
        operation_id: u128,
    ) -> (r: Result<(), MultisigFault>)
        requires
            old(self)@.settings is Some,
            old(self)@.pending_refusal(operation_id) is None,
        ensures
            match old(self)@.after_settle(*env, operation_id) {
                Ok(after) => r == Ok::<(), MultisigFault>(()) && final(self)@ == after,
                Err(fault) => r == Err::<(), MultisigFault>(fault) && final(self)@ == old(self)@,
            },
    {
        let met: bool = match (&self.config, self.operations.get(&operation_id)) {
            (Some(config), Some(op)) => {
                let threshold: u32 = self.read_effective_threshold(
                    config,
                    &operation_type(&op.kind),
                );
                self.approval_count(config, operation_id) >= threshold as usize
            },
            _ => false,
        };
        if met {
            return self.perform_execute(env, operation_id);
        }
        Ok(())
    }

    /// Puts an approval on record.
    fn record_approval(
        &mut self,
        operation_id: u128,
        op: &Operation,
        signer: Address,
        threshold: u32,
    )
        requires
            old(self)@.operations[operation_id] == *op,
            old(self)@.effective_threshold(type_of(op.kind)) == threshold,
            old(self)@.approvals_of(operation_id).len() < u32::MAX,
        ensures
            final(self)@ == old(self)@.approving(operation_id, signer),
    {
        let mut list: Vec<Address> = self.read_approvals(operation_id);
        list.push(signer);
        let event = OperationApprovedEvent {
            operation_id,
            signer,
            approvals: list.len() as u32,
            threshold,
        };
        self.approvals.set(operation_id, list);
        self.outbox.push(MultisigEffect::Approved(event));
        assert(self@ =~= old(self)@.approving(operation_id, signer));
    }

    /// Puts an approval on record unless it is already there, and executes the
    /// operation if it then has enough of them.
    fn approve_and_settle(
        &mut self,
        env: &Env,
        operation_id: u128,
        op: Operation,
        signer: Address,
    ) -> (r: Result<(), MultisigFault>)
        requires
            old(self)@.is_signer(signer),
            old(self)@.pending_refusal(operation_id) is None,
            old(self)@.operations[operation_id] == op,
            old(self)@.approvals_of(operation_id).len() < u32::MAX,
        ensures
            ({
                let approved = if old(self)@.approvals_of(operation_id).contains(signer) {
                    old(self)@
                } else {
                    old(self)@.approving(operation_id, signer)
                };
                match approved.after_settle(*env, operation_id) {
                    Ok(after) => r == Ok::<(), MultisigFault>(()) && final(self)@ == after,
                    Err(fault) => r == Err::<(), MultisigFault>(fault) && final(self)@
                        == old(self)@,
                }
            }),
    {
        let already: bool = contains_address(&self.read_approvals(operation_id), &signer);
        let (count, threshold) = match &self.config {
            Some(config) => (
                self.approval_count(config, operation_id),
                self.read_effective_threshold(config, &operation_type(&op.kind)),
            ),
            None => (0, 0),
        };
        proof {
            lemma_approving_counts(self@, operation_id, signer);
        }
        let settles: bool = if already {
            count >= threshold as usize
        } else {
            count >= threshold as usize || count + 1 >= threshold as usize
        };
        if settles {
            match op.kind {
                OperationKind::LargePayment(_, _, amount) => {
                    if amount <= 0 {
                        return Err(MultisigFault::AmountNotPositive);
                    }
                },
                _ => {},
            }
        }
        if !already {
            self.record_approval(operation_id, &op, signer, threshold);
        }
        self.execute_if_threshold_met(env, operation_id)
    }

    /// Sets who controls the multisig, once.
    pub fn initialize(
        &mut self,
        env: &Env,
        owner: Address,
        signers: Vec<Address>,
        threshold: u32,
        emergency_guardian: Option<Address>,
    ) -> (r: Result<(), MultisigFault>)
        ensures
            (final(self)@, r) == answer(
                old(self)@,
                old(self)@.initialize_refusal(*env, owner, signers@, threshold),
                old(self)@.initializing(owner, signers@, threshold, emergency_guardian),
            ),
            old(self)@.wf() ==> final(self)@.wf(),
    {
        proof {
            if self@.wf() {
                crate::laws::multisig::calls_keep_wf(
                    self@,
                    *env,
                    crate::laws::multisig::Call::Initialize {
                    owner,
                    signers: signers@,
                    threshold,
                    emergency_guardian,
                },
                );
            }
        }
        if !env.is_authorized(&owner) {
            return Err(MultisigFault::Unauthenticated);
        }
        if self.config.is_some() {
            return Err(MultisigFault::AlreadyInitialized);
        }
        match check_signers(&signers, threshold, MultisigFault::InvalidThreshold) {
            Ok(()) => {},
            Err(fault) => return Err(fault),
        }
        self.config = Some(MultisigConfig { owner, emergency_guardian, signers, threshold });
        Ok(())
    }

    /// Cuts the threshold override of an operation type down to `most`, if it is higher.
    fn cap_override(&mut self, target: OperationType, most: usize)
        ensures
            final(self)@ == (MultisigState {
                overrides: if old(self)@.overrides.contains_key(target)
                    && old(self)@.overrides[target] > most {
                    old(self)@.overrides.insert(target, most as u32)
                } else {
                    old(self)@.overrides
                },
                ..old(self)@
            }),
            final(self).config == old(self).config,
    {
        let current: Option<u32> = match self.overrides.get(&target) {
            Some(value) => Some(*value),
            None => None,
        };
        match current {
            Some(value) => {
                if value as usize > most {
                    self.overrides.set(target, most as u32);
                }
            },
            None => {},
        }
    }

    /// Replaces the signers and the threshold. Only the owner may. A threshold
    /// override that more signers would have to meet than there are is cut down.
    pub fn update_signers(
        &mut self,
        env: &Env,
        new_signers: Vec<Address>,
        new_threshold: u32,
    ) -> (r: Result<(), MultisigFault>)
        ensures
            (final(self)@, r) == answer(
                old(self)@,
                old(self)@.update_refusal(*env, new_signers@, new_threshold),
                old(self)@.with_signers(new_signers@, new_threshold),
            ),
            old(self)@.wf() ==> final(self)@.wf(),
    {
        proof {
            if self@.wf() {
                crate::laws::multisig::calls_keep_wf(
                    self@,
                    *env,
                    crate::laws::multisig::Call::UpdateSigners {
                    signers: new_signers@,
                    threshold: new_threshold,
                },
                );
            }
        }
        let (owner, emergency_guardian) = match &self.config {
            Some(config) => (config.owner, config.emergency_guardian),
            None => return Err(MultisigFault::NotInitialized),
        };
        if !env.is_authorized(&owner) {
            return Err(MultisigFault::Unauthenticated);
        }
        match check_signers(&new_signers, new_threshold, MultisigFault::InvalidNewThreshold) {
            Ok(()) => {},
            Err(fault) => return Err(fault),
        }
        let most: usize = new_signers.len();
        self.config = Some(
            MultisigConfig {
                owner,
                emergency_guardian,
                signers: new_signers,
                threshold: new_threshold,
            },
        );
        self.cap_override(OperationType::ContractUpgrade, most);
        self.cap_override(OperationType::LargePayment, most);
        self.cap_override(OperationType::DisputeResolution, most);
        assert(self@.overrides =~= old(self)@.with_signers(
            new_signers@,
            new_threshold,
        ).overrides);
        Ok(())
    }

    /// Proposes an operation, with the proposer's approval. Only signers may.
    /// Returns the operation's number. Where one approval is enough, the
    /// operation is executed at once.
    pub fn propose_operation(
        &mut self,
        env: &Env,
        proposer: Address,
        kind: OperationKind,
    ) -> (r: Result<u128, MultisigFault>)
        ensures
            (final(self)@, r) == old(self)@.after_propose(*env, proposer, kind),
            old(self)@.wf() ==> final(self)@.wf(),
    {
        proof {
            if self@.wf() {
                crate::laws::multisig::calls_keep_wf(
                    self@,
                    *env,
                    crate::laws::multisig::Call::Propose { proposer, kind },
                );
            }
        }
        match self.require_signer(env, &proposer, MultisigFault::OnlySignersPropose) {
            Ok(()) => {},
            Err(fault) => return Err(fault),
        }
        match (&self.config, &kind) {
            (Some(config), OperationKind::SetThresholdOverride(_, threshold)) => {
                match validate_threshold_override(threshold, &config.signers) {
                    Ok(()) => {},
                    Err(fault) => return Err(fault),
                }
            },
            _ => {},
        }
        match validate_operation_kind(&kind, &env.contract) {
            Ok(()) => {},
            Err(fault) => return Err(fault),
        }
        if self.operation_counter == u128::MAX {
            return Err(MultisigFault::OperationIdOverflow);
        }
        let id: u128 = self.operation_counter + 1;
        let op = Operation {
            id,
            kind,
            creator: proposer,
            status: OperationStatus::Pending,
            created_at: env.timestamp,
            executed_at: None,
        };
        let mut list: Vec<Address> = Vec::new();
        list.push(proposer);
        self.operation_counter = id;
        self.operations.set(id, op);
        self.approvals.set(id, list);
        let event = OperationProposedEvent { operation_id: id, creator: proposer };
        self.outbox.push(MultisigEffect::Proposed(event));
        assert(list@ =~= seq![proposer]);
        assert(self@ =~= old(self)@.proposing(*env, proposer, kind));
        match self.execute_if_threshold_met(env, id) {
            Ok(()) => Ok(id),
            Err(fault) => Err(fault),
        }
    }

    /// Approves a pending operation, which executes it once enough signers
    /// have. Only signers may.
    pub fn approve_operation(
        &mut self,
        env: &Env,
        signer: Address,
        operation_id: u128,
    ) -> (r: Result<(), MultisigFault>)
        requires
            old(self)@.approvals_of(operation_id).len() < u32::MAX,
        ensures
            (final(self)@, r) == old(self)@.after_approve(*env, signer, operation_id),
            old(self)@.wf() ==> final(self)@.wf(),
    {
        proof {
            if self@.wf() {
                crate::laws::multisig::calls_keep_wf(
                    self@,
                    *env,
                    crate::laws::multisig::Call::Approve { signer, id: operation_id },
                );
            }
        }
        match self.require_signer(env, &signer, MultisigFault::OnlySignersApprove) {
            Ok(()) => {},
            Err(fault) => return Err(fault),
        }
        let op: Operation = match self.read_pending(operation_id) {
            Ok(op) => op,
            Err(fault) => return Err(fault),
        };
        if contains_address(&self.read_approvals(operation_id), &signer) {
            return Ok(());
        }
        self.approve_and_settle(env, operation_id, op, signer)
    }

    /// Approves a pending operation like `approve_operation`, except that an
    /// upgrade goes through only if `expected_hash` is the hash it names, and
    /// that an approval given before can still execute the operation.
    pub fn execute_operation(
        &mut self,
        env: &Env,
        caller: Address,
        operation_id: u128,
        expected_hash: Option<WasmHash>,
    ) -> (r: Result<(), MultisigFault>)
        requires
            old(self)@.approvals_of(operation_id).len() < u32::MAX,
        ensures
            (final(self)@, r) == old(self)@.after_execute_operation(
                *env,
                caller,
                operation_id,
                expected_hash,
            ),
            old(self)@.wf() ==> final(self)@.wf(),
    {
        proof {
            if self@.wf() {
                crate::laws::multisig::calls_keep_wf(
                    self@,
                    *env,
                    crate::laws::multisig::Call::Execute {
                    caller,
                    id: operation_id,
                    expected: expected_hash,
                },
                );
            }
        }
        match self.require_signer(env, &caller, MultisigFault::OnlySignersExecute) {
            Ok(()) => {},
            Err(fault) => return Err(fault),
        }
        let op: Operation = match self.read_pending(operation_id) {
            Ok(op) => op,
            Err(fault) => return Err(fault),
        };
        match op.kind {
            OperationKind::ContractUpgrade(_, stored_hash) => {
                let confirmed: bool = match expected_hash {
                    Some(hash) => hash == stored_hash,
                    None => false,
                };
                if !confirmed {
                    return Err(MultisigFault::Error(MultisigError::ContractUpgradeHashMismatch));
                }
            },
            _ => {},
        }
        self.approve_and_settle(env, operation_id, op, caller)
    }

    /// Cancels a pending operation. Only its proposer and the owner may.
    pub fn cancel_operation(
        &mut self,
        env: &Env,
        caller: Address,
        operation_id: u128,
    ) -> (r: Result<(), MultisigFault>)
        ensures
            (final(self)@, r) == answer(
                old(self)@,
                old(self)@.cancel_refusal(*env, caller, operation_id),
                old(self)@.cancelling(operation_id),
            ),
            old(self)@.wf() ==> final(self)@.wf(),
    {
        proof {
            if self@.wf() {
                crate::laws::multisig::calls_keep_wf(
                    self@,
                    *env,
                    crate::laws::multisig::Call::Cancel { caller, id: operation_id },
                );
            }
        }
        let owner: Address = match &self.config {
            Some(config) => config.owner,
            None => return Err(MultisigFault::NotInitialized),
        };
        if !env.is_authorized(&caller) {
            return Err(MultisigFault::Unauthenticated);
        }
        let op: Operation = match self.read_pending(operation_id) {
            Ok(op) => op,
            Err(fault) => return Err(fault),
        };
        if caller != op.creator && caller != owner {
            return Err(MultisigFault::OnlyCreatorOrOwnerCancels);
        }
        let cancelled = Operation { status: OperationStatus::Cancelled, ..op };
        self.operations.set(operation_id, cancelled);
        self.outbox.push(MultisigEffect::Cancelled(OperationCancelledEvent { operation_id }));
        Ok(())
    }

    /// Executes a pending dispute resolution at the word of the emergency
    /// guardian alone. No other kind of operation can be executed so.
    pub fn emergency_execute(
        &mut self,
        env: &Env,
        guardian: Address,
        operation_id: u128,
    ) -> (r: Result<(), MultisigFault>)
        ensures
            (final(self)@, r) == answer(
                old(self)@,
                old(self)@.emergency_refusal(*env, guardian, operation_id),
                old(self)@.executing(*env, operation_id),
            ),
            old(self)@.wf() ==> final(self)@.wf(),
    {
        proof {
            if self@.wf() {
                crate::laws::multisig::calls_keep_wf(
                    self@,
                    *env,
                    crate::laws::multisig::Call::Emergency { guardian, id: operation_id },
                );
            }
        }
        let configured: Option<Address> = match &self.config {
            Some(config) => config.emergency_guardian,
            None => return Err(MultisigFault::NotInitialized),
        };
        if !env.is_authorized(&guardian) {
            return Err(MultisigFault::Unauthenticated);
        }
        let is_guardian: bool = match configured {
            Some(address) => address == guardian,
            None => false,
        };
        if !is_guardian {
            return Err(MultisigFault::OnlyGuardianExecutes);
        }
        let op: Operation = match self.read_pending(operation_id) {
            Ok(op) => op,
            Err(fault) => return Err(fault),
        };
        if !is_emergency_eligible(&op.kind) {
            return Err(MultisigFault::NotEligibleForEmergency);
        }
        self.perform_execute(env, operation_id)
    }

    /// The operation with this number, if there is one.
    pub fn get_operation(&self, operation_id: u128) -> (r: Option<Operation>)
        ensures
            r == (if self@.operations.contains_key(operation_id) {
                Some(self@.operations[operation_id])
            } else {
                None
            }),
    {
        match self.operations.get(&operation_id) {
            Some(op) => Some(*op),
            None => None,
        }
    }

    /// The signers.
    pub fn get_signers(&self) -> (r: Result<Vec<Address>, MultisigFault>)
        ensures
            match self@.settings {
                Some(settings) => r matches Ok(signers) && signers@ == settings.signers,
                None => r == Err::<Vec<Address>, MultisigFault>(MultisigFault::SignersNotSet),
            },
    {
        match &self.config {
            Some(config) => Ok(copy_addresses(&config.signers)),
            None => Err(MultisigFault::SignersNotSet),
        }
    }

    /// The threshold of operations whose type has none of its own.
    pub fn get_threshold(&self) -> (r: Result<u32, MultisigFault>)
        ensures
            r == match self@.settings {
                Some(settings) => Ok::<u32, MultisigFault>(settings.threshold),
                None => Err(MultisigFault::ThresholdNotSet),
            },
    {
        match &self.config {
            Some(config) => Ok(config.threshold),
            None => Err(MultisigFault::ThresholdNotSet),
        }
    }

    /// The threshold that an operation type has of its own, if any.
    pub fn get_threshold_override(&self, operation_type: OperationType) -> (r: Option<u32>)
        ensures
            r == (if self@.overrides.contains_key(operation_type) {
                Some(self@.overrides[operation_type])
            } else {
                None
            }),
    {
        match self.overrides.get(&operation_type) {
            Some(threshold) => Some(*threshold),
            None => None,
        }
    }

    /// The threshold in force for an operation type.
    pub fn get_effective_threshold(
        &self,
        operation_type: OperationType,
    ) -> (r: Result<u32, MultisigFault>)
        ensures
            r == if self@.overrides.contains_key(operation_type) || self@.settings is Some {
                Ok::<u32, MultisigFault>(self@.effective_threshold(operation_type))
            } else {
                Err(MultisigFault::ThresholdNotSet)
            },
    {
        match self.overrides.get(&operation_type) {
            Some(threshold) => Ok(*threshold),
            None => self.get_threshold(),
        }
    }

    /// Who approved an operation.
    pub fn get_approvals(&self, operation_id: u128) -> (r: Vec<Address>)
        ensures
            r@ == self@.approvals_of(operation_id),
    {
        self.read_approvals(operation_id)
    }
}

} // verus!
