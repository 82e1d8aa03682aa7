//! What holds of the multisig across calls.

use vstd::prelude::*;

use crate::address::{Address, WasmHash};
use crate::env::Env;
use crate::multisig::{
    MultisigContract, MultisigEffect, MultisigError, MultisigFault, MultisigState, Operation,
    OperationApprovedEvent, OperationCancelledEvent, OperationExecutedEvent, OperationKind,
    OperationProposedEvent, OperationStatus, OperationType, Settings, TokenTransfer,
};

verus! {

/// A call that can change the multisig.
pub enum Call {
    Initialize {
        owner: Address,
        signers: Seq<Address>,
        threshold: u32,
        emergency_guardian: Option<Address>,
    },
    UpdateSigners { signers: Seq<Address>, threshold: u32 },
    Propose { proposer: Address, kind: OperationKind },
    Approve { signer: Address, id: u128 },
    Execute { caller: Address, id: u128, expected: Option<WasmHash> },
    Cancel { caller: Address, id: u128 },
    Emergency { guardian: Address, id: u128 },
}

/// The state after a call.
pub open spec fn step(state: MultisigState, env: Env, call: Call) -> MultisigState {
    match call {
        Call::Initialize { owner, signers, threshold, emergency_guardian } => {
            crate::multisig::answer(
                state,
                state.initialize_refusal(env, owner, signers, threshold),
                state.initializing(owner, signers, threshold, emergency_guardian),
            ).0
        },
        Call::UpdateSigners { signers, threshold } => {
            crate::multisig::answer(
                state,
                state.update_refusal(env, signers, threshold),
                state.with_signers(signers, threshold),
            ).0
        },
        Call::Propose { proposer, kind } => state.after_propose(env, proposer, kind).0,
        Call::Approve { signer, id } => state.after_approve(env, signer, id).0,
        Call::Execute { caller, id, expected } => {
            state.after_execute_operation(env, caller, id, expected).0
        },
        Call::Cancel { caller, id } => {
            crate::multisig::answer(
                state,
                state.cancel_refusal(env, caller, id),
                state.cancelling(id),
            ).0
        },
        Call::Emergency { guardian, id } => {
            crate::multisig::answer(
                state,
                state.emergency_refusal(env, guardian, id),
                state.executing(env, id),
            ).0
        },
    }
}

/// The operation that a call is about.
pub open spec fn subject(state: MultisigState, call: Call) -> Option<u128> {
    match call {
        Call::Initialize { .. } => None,
        Call::UpdateSigners { .. } => None,
        Call::Propose { .. } => Some((state.operation_counter + 1) as u128),
        Call::Approve { id, .. } => Some(id),
        Call::Execute { id, .. } => Some(id),
        Call::Cancel { id, .. } => Some(id),
        Call::Emergency { id, .. } => Some(id),
    }
}

/// Whether an operation is on record as executed.
pub open spec fn is_executed(state: MultisigState, id: u128) -> bool {
    state.operations.contains_key(id) && state.operations[id].status == OperationStatus::Executed
}

/// Whether a call executed an operation.
pub open spec fn executes(state: MultisigState, env: Env, call: Call, id: u128) -> bool {
    !is_executed(state, id) && is_executed(step(state, env, call), id)
}

/// The payments that were made.
pub open spec fn payments(outbox: Seq<MultisigEffect>) -> Seq<MultisigEffect> {
    outbox.filter(|effect: MultisigEffect| effect is Transfer)
}

/// The numbers by which clients know the errors tell them apart.
pub proof fn error_codes_are_distinct(a: MultisigError, b: MultisigError)
    ensures
        a.spec_code() == b.spec_code() ==> a == b,
{
}

proof fn executing_keeps_wf(state: MultisigState, env: Env, id: u128)
    requires
        state.wf(),
        state.operations.contains_key(id),
    ensures
        state.executing(env, id).wf(),
{
}

proof fn approving_keeps_wf(state: MultisigState, id: u128, signer: Address)
    requires
        state.wf(),
        state.operations.contains_key(id),
        !state.approvals_of(id).contains(signer),
    ensures
        state.approving(id, signer).wf(),
{
}

proof fn proposing_keeps_wf(state: MultisigState, env: Env, proposer: Address, kind: OperationKind)
    requires
        state.wf(),
        state.propose_refusal(env, proposer, kind) is None,
    ensures
        state.proposing(env, proposer, kind).wf(),
{
}

/// No call breaks what holds of the multisig.
pub proof fn calls_keep_wf(state: MultisigState, env: Env, call: Call)
    requires
        state.wf(),
    ensures
        step(state, env, call).wf(),
{
    match call {
        Call::Propose { proposer, kind } => {
            let id = (state.operation_counter + 1) as u128;
            if state.propose_refusal(env, proposer, kind) is None {
                proposing_keeps_wf(state, env, proposer, kind);
                executing_keeps_wf(state.proposing(env, proposer, kind), env, id);
            }
        },
        Call::Approve { signer, id } => {
            if state.operations.contains_key(id) && !state.approvals_of(id).contains(signer) {
                approving_keeps_wf(state, id, signer);
                executing_keeps_wf(state.approving(id, signer), env, id);
            }
        },
        Call::Execute { caller, id, expected } => {
            if state.operations.contains_key(id) {
                if state.approvals_of(id).contains(caller) {
                    executing_keeps_wf(state, env, id);
                } else {
                    approving_keeps_wf(state, id, caller);
                    executing_keeps_wf(state.approving(id, caller), env, id);
                }
            }
        },
        Call::Emergency { guardian, id } => {
            if state.operations.contains_key(id) {
                executing_keeps_wf(state, env, id);
            }
        },
        _ => {},
    }
}

/// What is settled stays settled: an operation that was executed or cancelled
/// never changes again, and neither do its approvals.
pub proof fn settled_operation_is_final(state: MultisigState, env: Env, call: Call, id: u128)
    requires
        state.wf(),
        state.operations.contains_key(id),
        state.operations[id].status != OperationStatus::Pending,
    ensures
        step(state, env, call).operations.contains_key(id),
        step(state, env, call).operations[id] == state.operations[id],
        step(state, env, call).approvals_of(id) == state.approvals_of(id),
{
}

/// What was proposed is what is executed: no call changes what an operation
/// does, who proposed it or when, nor takes an approval back.
pub proof fn operation_keeps_its_terms(state: MultisigState, env: Env, call: Call, id: u128)
    requires
        state.wf(),
        state.operations.contains_key(id),
    ensures
        ({
            let before = state.operations[id];
            let after = step(state, env, call).operations[id];
            &&& step(state, env, call).operations.contains_key(id)
            &&& after.id == before.id
            &&& after.kind == before.kind
            &&& after.creator == before.creator
            &&& after.created_at == before.created_at
            &&& state.approvals_of(id).is_prefix_of(step(state, env, call).approvals_of(id))
        }),
{
}

/// A call concerns one operation at most; every other one stays as it is.
pub proof fn call_concerns_its_operation_alone(
    state: MultisigState,
    env: Env,
    call: Call,
    other: u128,
)
    requires
        state.wf(),
        subject(state, call) != Some(other),
    ensures
        step(state, env, call).operations.contains_key(other) <==> state.operations.contains_key(
            other,
        ),
        step(state, env, call).operations[other] == state.operations[other],
        step(state, env, call).approvals_of(other) == state.approvals_of(other),
{
}

/// Nothing is executed without consent. Whichever call executes an operation,
/// that many different signers have approved it as its type asked for before the
/// call, or it is a dispute resolution and the emergency guardian made the call.
pub proof fn execution_has_consent(state: MultisigState, env: Env, call: Call, id: u128)
    requires
        state.wf(),
        executes(state, env, call, id),
    ensures
        ({
            let after = step(state, env, call);
            let kind = after.operations[id].kind;
            ||| {
                &&& after.approvals_of(id).no_duplicates()
                &&& after.approvals_of(id).filter(
                    |address: Address| state.is_signer(address),
                ).len() >= state.effective_threshold(crate::multisig::type_of(kind))
            }
            ||| {
                &&& call matches Call::Emergency { guardian, id: named } && named == id
                    && env.authorizes(guardian) && state.settings->0.emergency_guardian == Some(
                    guardian,
                )
                &&& kind is DisputeResolution
            }
        }),
{
    calls_keep_wf(state, env, call);
    let now = |address: Address| state.is_signer(address);
    match call {
        Call::Propose { proposer, kind } => {
            let proposed = state.proposing(env, proposer, kind);
            assert(now =~= |address: Address| proposed.is_signer(address));
        },
        Call::Approve { signer, id: named } => {
            let approved = state.approving(named, signer);
            assert(now =~= |address: Address| approved.is_signer(address));
        },
        Call::Execute { caller, id: named, expected } => {
            let approved = state.approving(named, caller);
            assert(now =~= |address: Address| approved.is_signer(address));
        },
        _ => {},
    }
}

/// Nobody approves for another: an approval is put on record only by a call that
/// the approver authorized, and only while the approver is a signer.
pub proof fn approval_is_ones_own(
    state: MultisigState,
    env: Env,
    call: Call,
    id: u128,
    approver: Address,
)
    requires
        state.wf(),
        !state.approvals_of(id).contains(approver),
        step(state, env, call).approvals_of(id).contains(approver),
    ensures
        env.authorizes(approver),
        state.is_signer(approver),
        subject(state, call) == Some(id),
{
}

/// A payment is made when its operation is executed, and at no other time. With
/// `settled_operation_is_final`, no operation pays twice.
pub proof fn payment_follows_execution(state: MultisigState, env: Env, call: Call)
    requires
        state.wf(),
    ensures
        ({
            let after = step(state, env, call);
            let id = subject(state, call)->0;
            if subject(state, call) is Some && executes(state, env, call, id)
                && after.operations[id].kind is LargePayment {
                let kind = after.operations[id].kind;
                payments(after.outbox) == payments(state.outbox).push(
                    MultisigEffect::Transfer(
                        TokenTransfer {
                            token: kind->LargePayment_0,
                            from: env.contract,
                            to: kind->LargePayment_1,
                            amount: kind->LargePayment_2,
                        },
                    ),
                )
            } else {
                payments(after.outbox) == payments(state.outbox)
            }
        }),
{
    reveal(Seq::filter);
    broadcast use sent_payments;
    calls_keep_wf(state, env, call);
}

/// What another effect adds to the payments that were made.
pub broadcast proof fn sent_payments(outbox: Seq<MultisigEffect>, effect: MultisigEffect)
    ensures
        #[trigger] payments(outbox.push(effect)) == if effect is Transfer {
            payments(outbox).push(effect)
        } else {
            payments(outbox)
        },
{
    reveal(Seq::filter);
    assert(outbox.push(effect).drop_last() =~= outbox);
}

/// The guardian can execute dispute resolutions and nothing else.
pub proof fn guardian_settles_disputes_alone(
    state: MultisigState,
    env: Env,
    guardian: Address,
    id: u128,
)
    requires
        !(state.operations[id].kind is DisputeResolution),
    ensures
        state.emergency_refusal(env, guardian, id) is Some,
        step(state, env, Call::Emergency { guardian, id }) == state,
{
}

/// A code hash that is missing or is not the one that was proposed is refused,
/// and leaves everything as it was.
pub proof fn wrong_hash_changes_nothing(
    state: MultisigState,
    env: Env,
    caller: Address,
    id: u128,
    expected: Option<WasmHash>,
)
    requires
        state.signer_refusal(env, caller, MultisigFault::OnlySignersExecute) is None,
        state.pending_refusal(id) is None,
        state.operations[id].kind matches OperationKind::ContractUpgrade(_, hash) && expected
            != Some(hash),
    ensures
        state.after_execute_operation(env, caller, id, expected) == (
            state,
            Err::<(), MultisigFault>(
                MultisigFault::Error(MultisigError::ContractUpgradeHashMismatch),
            ),
        ),
{
}

/// A refused call changes nothing.
pub proof fn refused_call_changes_nothing(
    state: MultisigState,
    env: Env,
    caller: Address,
    id: u128,
    kind: OperationKind,
    expected: Option<WasmHash>,
)
    ensures
        state.after_propose(env, caller, kind).1 is Err ==> state.after_propose(env, caller, kind).0
            == state,
        state.after_approve(env, caller, id).1 is Err ==> state.after_approve(env, caller, id).0
            == state,
        state.after_execute_operation(env, caller, id, expected).1 is Err
            ==> state.after_execute_operation(env, caller, id, expected).0 == state,
{
}

/// A signer's approval of a pending operation is always taken.
pub proof fn approval_of_a_pending_operation_succeeds(
    state: MultisigState,
    env: Env,
    signer: Address,
    id: u128,
)
    requires
        state.wf(),
        state.is_signer(signer),
        env.authorizes(signer),
        state.pending_refusal(id) is None,
    ensures
        state.after_approve(env, signer, id).1 is Ok,
        state.after_approve(env, signer, id).0.approvals_of(id).contains(signer),
        state.hash_matches(id, None) ==> state.after_execute_operation(
            env,
            signer,
            id,
            None,
        ).1 is Ok,
{
    assert(state.approvals_of(id).push(signer).last() == signer);
}

/// Approving twice is approving once.
pub proof fn second_approval_changes_nothing(
    state: MultisigState,
    env: Env,
    signer: Address,
    id: u128,
)
    requires
        state.wf(),
        state.after_approve(env, signer, id).1 is Ok,
        !is_executed(state.after_approve(env, signer, id).0, id),
    ensures
        ({
            let once = state.after_approve(env, signer, id).0;
            once.after_approve(env, signer, id) == (once, Ok::<(), MultisigFault>(()))
        }),
{
    assert(state.approvals_of(id).push(signer).last() == signer);
}

/// A proposal carries its proposer's approval and no other, under a number that
/// was not given out before.
pub proof fn proposer_approves(
    state: MultisigState,
    env: Env,
    proposer: Address,
    kind: OperationKind,
)
    requires
        state.wf(),
        state.propose_refusal(env, proposer, kind) is None,
    ensures
        ({
            let (after, r) = state.after_propose(env, proposer, kind);
            &&& r matches Ok(id) && id == state.operation_counter + 1
                && !state.operations.contains_key(id) && after.operations.contains_key(id)
                && after.approvals_of(id) == seq![proposer] && after.operations[id].kind == kind
                && after.operations[id].creator == proposer
        }),
{
}

/// Where one approval is enough, a proposal is executed at once; where more are
/// needed, it waits.
pub proof fn proposal_is_executed_at_threshold_one(
    state: MultisigState,
    env: Env,
    proposer: Address,
    kind: OperationKind,
)
    requires
        state.wf(),
        state.propose_refusal(env, proposer, kind) is None,
    ensures
        is_executed(
            state.after_propose(env, proposer, kind).0,
            (state.operation_counter + 1) as u128,
        ) <==> state.effective_threshold(crate::multisig::type_of(kind)) == 1,
{
    reveal(Seq::filter);
    let id = (state.operation_counter + 1) as u128;
    let proposed = state.proposing(env, proposer, kind);
    let list = seq![proposer];
    let pred = |address: Address| proposed.is_signer(address);
    assert(proposed.approvals_of(id) == list);
    assert(list.drop_last() =~= Seq::empty());
    assert(list.drop_last().filter(pred) =~= Seq::empty());
    assert(list.filter(pred) =~= seq![proposer]);
    assert(proposed.approval_count(id) == 1);
}

/// Once the signers are replaced, every threshold can be met by them.
pub proof fn new_signers_can_meet_every_threshold(
    state: MultisigState,
    env: Env,
    signers: Seq<Address>,
    threshold: u32,
    target: OperationType,
)
    requires
        state.wf(),
        state.update_refusal(env, signers, threshold) is None,
    ensures
        0 < state.with_signers(signers, threshold).effective_threshold(target) <= signers.len(),
{
}

/// A threshold of its own comes to an operation type, goes or changes only by an
/// operation that was approved under the threshold in force before, or by new
/// signers, which can lower it to their number.
pub proof fn threshold_changes_by_consent(
    state: MultisigState,
    env: Env,
    call: Call,
    target: OperationType,
)
    requires
        state.wf(),
        state.settings is Some,
        step(state, env, call).effective_threshold(target) != state.effective_threshold(target),
    ensures
        ({
            let after = step(state, env, call);
            let id = subject(state, call)->0;
            ||| call is UpdateSigners && env.authorizes(state.settings->0.owner)
            ||| {
                &&& subject(state, call) is Some
                &&& executes(state, env, call, id)
                &&& after.operations[id].kind matches OperationKind::SetThresholdOverride(t, _)
                    && t == target
                &&& after.approval_count(id) >= state.effective_threshold(target)
            }
        }),
{
    let after = step(state, env, call);
    let now = |address: Address| state.is_signer(address);
    let later = |address: Address| after.is_signer(address);
    if !(call is UpdateSigners) {
        assert(now =~= later);
    }
    if subject(state, call) is Some {
        execution_has_consent_if(state, env, call, subject(state, call)->0);
    }
}

proof fn execution_has_consent_if(state: MultisigState, env: Env, call: Call, id: u128)
    requires
        state.wf(),
    ensures
        executes(state, env, call, id) && !(call is Emergency) ==> step(
            state,
            env,
            call,
        ).approval_count(id) >= state.effective_threshold(
            crate::multisig::type_of(step(state, env, call).operations[id].kind),
        ),
{
    if executes(state, env, call, id) {
        execution_has_consent(state, env, call, id);
        let after = step(state, env, call);
        let now = |address: Address| state.is_signer(address);
        let later = |address: Address| after.is_signer(address);
        assert(now =~= later);
    }
}

/// The owner and the guardian are set once, and the signers are the owner's to replace.
pub proof fn settings_are_the_owners(state: MultisigState, env: Env, call: Call)
    requires
        state.settings is Some,
    ensures
        ({
            let before = state.settings->0;
            let after = step(state, env, call).settings;
            &&& after is Some
            &&& after->0.owner == before.owner
            &&& after->0.emergency_guardian == before.emergency_guardian
            &&& after->0 != before ==> call is UpdateSigners && env.authorizes(before.owner)
        }),
{
}

/// Only the proposer and the owner can cancel an operation.
pub proof fn cancellation_is_the_proposers_or_the_owners(
    state: MultisigState,
    env: Env,
    call: Call,
    id: u128,
)
    requires
        state.wf(),
        state.operations.contains_key(id),
        state.operations[id].status != OperationStatus::Cancelled,
        step(state, env, call).operations[id].status == OperationStatus::Cancelled,
    ensures
        call matches Call::Cancel { caller, .. } && env.authorizes(caller) && (caller
            == state.operations[id].creator || caller == state.settings->0.owner),
{
}

/// A call, and what the host knows of it.
pub struct Made {
    pub env: Env,
    pub call: Call,
}

/// The state after a series of calls.
pub open spec fn after_calls(state: MultisigState, calls: Seq<Made>) -> MultisigState
    decreases calls.len(),
{
    if calls.len() == 0 {
        state
    } else {
        step(after_calls(state, calls.drop_last()), calls.last().env, calls.last().call)
    }
}

/// How many calls of a series executed an operation.
pub open spec fn executions(state: MultisigState, calls: Seq<Made>, id: u128) -> nat
    decreases calls.len(),
{
    if calls.len() == 0 {
        0
    } else {
        let rest = calls.drop_last();
        executions(state, rest, id) + if executes(
            after_calls(state, rest),
            calls.last().env,
            calls.last().call,
            id,
        ) {
            1nat
        } else {
            0nat
        }
    }
}

/// An operation is executed once at most, whatever is called and however often.
pub proof fn operation_is_executed_once(state: MultisigState, calls: Seq<Made>, id: u128)
    requires
        state.wf(),
    ensures
        executions(state, calls, id) <= 1,
        executions(state, calls, id) > 0 ==> is_executed(after_calls(state, calls), id),
        is_executed(state, id) ==> executions(state, calls, id) == 0 && is_executed(
            after_calls(state, calls),
            id,
        ),
        after_calls(state, calls).wf(),
    decreases calls.len(),
{
    if calls.len() > 0 {
        let rest = calls.drop_last();
        let before = after_calls(state, rest);
        let last = calls.last();
        operation_is_executed_once(state, rest, id);
        calls_keep_wf(before, last.env, last.call);
        if is_executed(before, id) {
            settled_operation_is_final(before, last.env, last.call, id);
        }
    }
}

/// How many of some addresses are among the signers.
pub open spec fn signatures(list: Seq<Address>, signers: Seq<Address>) -> nat
    decreases list.len(),
{
    if list.len() == 0 {
        0
    } else {
        signatures(list.drop_last(), signers) + if signers.contains(list.last()) {
            1nat
        } else {
            0nat
        }
    }
}

/// Who is on record as having approved an operation.
pub open spec fn approvers(state: MultisigState, id: u128) -> Seq<Address> {
    if state.approvals.contains_key(id) {
        state.approvals[id]
    } else {
        Seq::empty()
    }
}

/// How many signatures an operation needs: those that its type asks for, or else those that
/// every operation does. Setting a threshold needs as many as what it is set for.
pub open spec fn signatures_needed(state: MultisigState, kind: OperationKind) -> u32 {
    let target = match kind {
        OperationKind::ContractUpgrade(_, _) => OperationType::ContractUpgrade,
        OperationKind::LargePayment(_, _, _) => OperationType::LargePayment,
        OperationKind::DisputeResolution(_, _, _, _) => OperationType::DisputeResolution,
        OperationKind::SetThresholdOverride(target, _) => target,
    };
    threshold_in_force(state, target)
}

/// The threshold of an operation type: its own, if it has one.
pub open spec fn threshold_in_force(state: MultisigState, target: OperationType) -> u32 {
    if state.overrides.contains_key(target) {
        state.overrides[target]
    } else {
        state.settings->0.threshold
    }
}

/// Whether one state is another in which an operation was executed: it is marked as such
/// with the time, what it asks for was done, and that was announced last. A payment moves
/// the amount in the token from the multisig to the recipient. A threshold is set, or taken
/// away, for the type that it is for. The other kinds do nothing more.
pub open spec fn is_execution(
    before: MultisigState,
    after: MultisigState,
    env: Env,
    id: u128,
) -> bool {
    let op = before.operations[id];
    let done = MultisigEffect::Executed(OperationExecutedEvent { operation_id: id });
    &&& after.settings == before.settings
    &&& after.operation_counter == before.operation_counter
    &&& after.approvals == before.approvals
    &&& after.operations.contains_key(id)
    &&& after.operations[id].status == OperationStatus::Executed
    &&& after.operations[id].executed_at == Some(env.timestamp)
    &&& after.operations[id].id == op.id
    &&& after.operations[id].kind == op.kind
    &&& after.operations[id].creator == op.creator
    &&& after.operations[id].created_at == op.created_at
    &&& after.operations.remove(id) == before.operations.remove(id)
    &&& match op.kind {
        OperationKind::LargePayment(token, to, amount) => {
            &&& after.outbox == before.outbox.push(
                MultisigEffect::Transfer(TokenTransfer { token, from: env.contract, to, amount }),
            ).push(done)
            &&& after.overrides == before.overrides
        },
        OperationKind::SetThresholdOverride(target, Some(threshold)) => {
            &&& after.outbox == before.outbox.push(done)
            &&& after.overrides.contains_key(target)
            &&& after.overrides[target] == threshold
            &&& after.overrides.remove(target) == before.overrides.remove(target)
        },
        OperationKind::SetThresholdOverride(target, None) => {
            &&& after.outbox == before.outbox.push(done)
            &&& !after.overrides.contains_key(target)
            &&& after.overrides == before.overrides.remove(target)
        },
        _ => {
            &&& after.outbox == before.outbox.push(done)
            &&& after.overrides == before.overrides
        },
    }
}

/// The state in which one more approval of an operation is on record, and announced.
pub open spec fn with_approval(state: MultisigState, id: u128, signer: Address) -> MultisigState {
    let list = approvers(state, id).push(signer);
    MultisigState {
        approvals: state.approvals.insert(id, list),
        outbox: state.outbox.push(
            MultisigEffect::Approved(
                OperationApprovedEvent {
                    operation_id: id,
                    signer,
                    approvals: list.len() as u32,
                    threshold: signatures_needed(state, state.operations[id].kind),
                },
            ),
        ),
        ..state
    }
}

/// Whether an operation has the signatures that it needs.
pub open spec fn is_signed(state: MultisigState, id: u128) -> bool {
    signatures(approvers(state, id), state.settings->0.signers) >= signatures_needed(
        state,
        state.operations[id].kind,
    )
}

proof fn lemma_signatures(
    list: Seq<Address>,
    pred: spec_fn(Address) -> bool,
    signers: Seq<Address>,
)
    requires
        forall|address: Address| #[trigger] pred(address) == signers.contains(address),
    ensures
        list.filter(pred).len() == signatures(list, signers),
    decreases list.len(),
{
    reveal(Seq::filter);
    if list.len() > 0 {
        lemma_signatures(list.drop_last(), pred, signers);
        assert(pred(list.last()) == signers.contains(list.last()));
    }
}

proof fn lemma_is_signed(state: MultisigState, id: u128)
    requires
        state.settings is Some,
    ensures
        state.is_approved(id) == is_signed(state, id),
{
    let pred = |address: Address| state.is_signer(address);
    lemma_signatures(state.approvals_of(id), pred, state.settings->0.signers);
}

proof fn lemma_is_execution(state: MultisigState, env: Env, id: u128)
    requires
        state.operations.contains_key(id),
    ensures
        is_execution(state, state.executing(env, id), env, id),
{
    let after = state.executing(env, id);
    assert(after.operations.remove(id) =~= state.operations.remove(id));
    if let OperationKind::SetThresholdOverride(target, Some(_)) = state.operations[id].kind {
        assert(after.overrides.remove(target) =~= state.overrides.remove(target));
    }
}

/// What is recorded and asked for is what is told: the approvals, and the thresholds.
pub proof fn records_are_told_as_they_are(
    state: MultisigState,
    id: u128,
    target: OperationType,
    kind: OperationKind,
)
    requires
        state.settings is Some,
    ensures
        state.approvals_of(id) == approvers(state, id),
        state.effective_threshold(target) == threshold_in_force(state, target),
        state.effective_threshold(crate::multisig::type_of(kind)) == signatures_needed(state, kind),
        state.approval_count(id) == signatures(
            approvers(state, id),
            state.settings->0.signers,
        ),
{
    let pred = |address: Address| state.is_signer(address);
    lemma_signatures(state.approvals_of(id), pred, state.settings->0.signers);
}

/// What an approval is told that is not taken: the first of what is missing, in the order of
/// the setup, the authorization, the signer, the operation and its being pending. The same
/// holds of an execution, but for the name of the fault of a stranger.
pub proof fn approval_is_refused_for_cause(
    state: MultisigState,
    env: Env,
    signer: Address,
    id: u128,
    expected: Option<WasmHash>,
)
    ensures
        ({
            let (after, r) = state.after_approve(env, signer, id);
            let (executed, x) = state.after_execute_operation(env, signer, id, expected);
            let started = state.settings is Some;
            let signed = started && env.authorized@.contains(signer);
            let member = signed && state.settings->0.signers.contains(signer);
            let found = member && state.operations.contains_key(id);
            let open = found && state.operations[id].status == OperationStatus::Pending;
            &&& !started ==> r == Err::<(), MultisigFault>(MultisigFault::NotInitialized)
            &&& started && !signed ==> r == Err::<(), MultisigFault>(MultisigFault::Unauthenticated)
            &&& signed && !member ==> r == Err::<(), MultisigFault>(
                MultisigFault::OnlySignersApprove,
            )
            &&& member && !found ==> r == Err::<(), MultisigFault>(MultisigFault::OperationNotFound)
            &&& found && !open ==> r == Err::<(), MultisigFault>(MultisigFault::OperationNotPending)
            &&& !open ==> x == (if signed && !member {
                Err::<(), MultisigFault>(MultisigFault::OnlySignersExecute)
            } else {
                r
            })
            &&& !open ==> after == state && executed == state
        }),
{
}

/// Enough approvals execute. A signer who has not approved a pending operation yet puts
/// their approval on record by approving it, whatever its kind. If the signatures of those
/// who are signers now are then as many as the operation needs, it is executed, and
/// otherwise it waits. A signer who has approved it changes nothing by approving again.
pub proof fn enough_approvals_execute(
    state: MultisigState,
    env: Env,
    signer: Address,
    id: u128,
)
    requires
        state.settings is Some,
        env.authorized@.contains(signer),
        state.settings->0.signers.contains(signer),
        state.operations.contains_key(id),
        state.operations[id].status == OperationStatus::Pending,
        state.operations[id].kind matches OperationKind::LargePayment(_, _, amount) ==> amount > 0,
    ensures
        ({
            let (after, r) = state.after_approve(env, signer, id);
            let approved = with_approval(state, id, signer);
            &&& r is Ok
            &&& approvers(state, id).contains(signer) ==> after == state
            &&& !approvers(state, id).contains(signer) ==> if is_signed(approved, id) {
                &&& after.operations[id].status == OperationStatus::Executed
                &&& is_execution(approved, after, env, id)
            } else {
                after == approved
            }
        }),
{
    let approved = state.approving(id, signer);
    assert(approved =~= with_approval(state, id, signer));
    lemma_is_signed(approved, id);
    lemma_is_execution(approved, env, id);
}

/// An execution asked for by a signer does what an approval does, with two differences: an
/// upgrade goes ahead only with the very hash that was proposed, and an operation that has
/// the signer's approval on record already is executed if it has enough of them.
pub proof fn asked_execution_is_an_approval_with_the_hash(
    state: MultisigState,
    env: Env,
    caller: Address,
    id: u128,
    expected: Option<WasmHash>,
)
    requires
        state.settings is Some,
        env.authorized@.contains(caller),
        state.settings->0.signers.contains(caller),
        state.operations.contains_key(id),
        state.operations[id].status == OperationStatus::Pending,
        state.operations[id].kind matches OperationKind::LargePayment(_, _, amount) ==> amount > 0,
    ensures
        ({
            let (after, r) = state.after_execute_operation(env, caller, id, expected);
            let approved = if approvers(state, id).contains(caller) {
                state
            } else {
                with_approval(state, id, caller)
            };
            let mismatch = state.operations[id].kind matches OperationKind::ContractUpgrade(_, hash)
                && expected != Some(hash);
            &&& mismatch ==> after == state && r == Err::<(), MultisigFault>(
                MultisigFault::Error(MultisigError::ContractUpgradeHashMismatch),
            )
            &&& !mismatch ==> r is Ok && if is_signed(approved, id) {
                is_execution(approved, after, env, id)
            } else {
                after == approved
            }
        }),
{
    if approvers(state, id).contains(caller) {
        lemma_is_signed(state, id);
        lemma_is_execution(state, env, id);
    } else {
        let approved = state.approving(id, caller);
        assert(approved =~= with_approval(state, id, caller));
        lemma_is_signed(approved, id);
        lemma_is_execution(approved, env, id);
    }
}

/// A payment of nothing is never made. A signer's approval of one goes on record as long as
/// there are not enough of them; the one that would execute it fails and changes nothing.
pub proof fn empty_payment_is_not_made(
    state: MultisigState,
    env: Env,
    signer: Address,
    id: u128,
)
    requires
        state.settings is Some,
        state.operations.contains_key(id),
        state.operations[id].kind matches OperationKind::LargePayment(_, _, amount) && amount <= 0,
    ensures
        ({
            let (after, r) = state.after_approve(env, signer, id);
            let approved = with_approval(state, id, signer);
            let counts = is_open_to(state, env, signer, id) && !approvers(state, id).contains(
                signer,
            );
            &&& after.operations[id].status == state.operations[id].status
            &&& r is Err ==> after == state
            &&& counts && is_signed(approved, id) ==> r == Err::<(), MultisigFault>(
                MultisigFault::AmountNotPositive,
            )
            &&& counts && !is_signed(approved, id) ==> r is Ok && after == approved
        }),
{
    let approved = state.approving(id, signer);
    assert(approved =~= with_approval(state, id, signer));
    if is_open_to(state, env, signer, id) {
        lemma_is_signed(approved, id);
    }
}

/// What can be proposed: a payment of something to someone else, an upgrade of something
/// else, a threshold that the signers can meet, and any dispute resolution. Only signers
/// propose, and only as long as there are numbers. Whoever cannot is told why.
pub proof fn proposal_is_checked(
    state: MultisigState,
    env: Env,
    proposer: Address,
    kind: OperationKind,
)
    ensures
        ({
            let (after, r) = state.after_propose(env, proposer, kind);
            let started = state.settings is Some;
            let signed = started && env.authorized@.contains(proposer);
            let member = signed && state.settings->0.signers.contains(proposer);
            let positive = kind matches OperationKind::LargePayment(_, _, amount) ==> amount > 0;
            let elsewhere = match kind {
                OperationKind::LargePayment(_, to, _) => to != env.contract,
                OperationKind::ContractUpgrade(target, _) => target != env.contract,
                _ => true,
            };
            let reachable = kind matches OperationKind::SetThresholdOverride(_, Some(threshold))
                ==> 1 <= threshold && threshold <= state.settings->0.signers.len();
            let numbered = state.operation_counter < u128::MAX;
            &&& r is Ok <==> member && positive && elsewhere && reachable && numbered
            &&& r is Err ==> after == state
            &&& !started ==> r == Err::<u128, MultisigFault>(MultisigFault::NotInitialized)
            &&& started && !signed ==> r == Err::<u128, MultisigFault>(
                MultisigFault::Unauthenticated,
            )
            &&& signed && !member ==> r == Err::<u128, MultisigFault>(
                MultisigFault::OnlySignersPropose,
            )
            &&& member && !positive ==> r == Err::<u128, MultisigFault>(
                MultisigFault::Error(MultisigError::InvalidAmount),
            )
            &&& member && positive && !elsewhere ==> r == Err::<u128, MultisigFault>(
                MultisigFault::Error(MultisigError::SelfReferentialRecipient),
            )
            &&& member && !reachable ==> r == Err::<u128, MultisigFault>(
                MultisigFault::InvalidThresholdOverride,
            )
            &&& member && positive && elsewhere && reachable && !numbered ==> r == Err::<
                u128,
                MultisigFault,
            >(MultisigFault::OperationIdOverflow)
        }),
{
}

/// A proposal gets the next number. It is on record as it was made, pending, with the time
/// and the one approval of its proposer, and is announced. It is executed at once where one
/// signature is enough, and not otherwise.
pub proof fn proposal_is_recorded(
    state: MultisigState,
    env: Env,
    proposer: Address,
    kind: OperationKind,
)
    requires
        state.after_propose(env, proposer, kind).1 is Ok,
    ensures
        ({
            let (after, r) = state.after_propose(env, proposer, kind);
            let id = (state.operation_counter + 1) as u128;
            let recorded = MultisigState {
                operation_counter: id,
                operations: state.operations.insert(
                    id,
                    Operation {
                        id,
                        kind,
                        creator: proposer,
                        status: OperationStatus::Pending,
                        created_at: env.timestamp,
                        executed_at: None,
                    },
                ),
                approvals: state.approvals.insert(id, seq![proposer]),
                outbox: state.outbox.push(
                    MultisigEffect::Proposed(
                        OperationProposedEvent { operation_id: id, creator: proposer },
                    ),
                ),
                ..state
            };
            &&& r == Ok::<u128, MultisigFault>(id)
            &&& if signatures_needed(state, kind) <= 1 {
                is_execution(recorded, after, env, id)
            } else {
                after == recorded
            }
        }),
{
    let id = (state.operation_counter + 1) as u128;
    let recorded = state.proposing(env, proposer, kind);
    lemma_is_signed(recorded, id);
    lemma_is_execution(recorded, env, id);
    let list = seq![proposer];
    let signers = state.settings->0.signers;
    assert(list.drop_last() =~= Seq::<Address>::empty());
    assert(signatures(list.drop_last(), signers) == 0);
    assert(list.last() == proposer);
    assert(signatures(list, signers) == 1);
    assert(approvers(recorded, id) == list);
    assert(signatures_needed(recorded, kind) == signatures_needed(state, kind));
}

/// A pending operation is cancelled by its proposer or the owner and by nobody else. It is
/// then marked so and that is announced; nothing else changes, and nothing is done.
pub proof fn cancellation_marks_the_operation(
    state: MultisigState,
    env: Env,
    caller: Address,
    id: u128,
)
    ensures
        ({
            let (after, r) = crate::multisig::answer(
                state,
                state.cancel_refusal(env, caller, id),
                state.cancelling(id),
            );
            let op = state.operations[id];
            let started = state.settings is Some;
            let signed = started && env.authorized@.contains(caller);
            let found = signed && state.operations.contains_key(id);
            let open = found && op.status == OperationStatus::Pending;
            let entitled = caller == op.creator || caller == state.settings->0.owner;
            &&& r is Ok <==> open && entitled
            &&& !started ==> r == Err::<(), MultisigFault>(MultisigFault::NotInitialized)
            &&& started && !signed ==> r == Err::<(), MultisigFault>(MultisigFault::Unauthenticated)
            &&& signed && !found ==> r == Err::<(), MultisigFault>(MultisigFault::OperationNotFound)
            &&& found && !open ==> r == Err::<(), MultisigFault>(MultisigFault::OperationNotPending)
            &&& open && !entitled ==> r == Err::<(), MultisigFault>(
                MultisigFault::OnlyCreatorOrOwnerCancels,
            )
            &&& r is Err ==> after == state
            &&& r is Ok ==> after == MultisigState {
                operations: state.operations.insert(
                    id,
                    Operation {
                        id: op.id,
                        kind: op.kind,
                        creator: op.creator,
                        status: OperationStatus::Cancelled,
                        created_at: op.created_at,
                        executed_at: op.executed_at,
                    },
                ),
                outbox: state.outbox.push(
                    MultisigEffect::Cancelled(OperationCancelledEvent { operation_id: id }),
                ),
                ..state
            }
        }),
{
}

/// The guardian executes a pending dispute resolution at once, without a single signature,
/// and nothing but that. Nobody else can.
pub proof fn guardian_executes_at_once(
    state: MultisigState,
    env: Env,
    guardian: Address,
    id: u128,
)
    ensures
        ({
            let (after, r) = crate::multisig::answer(
                state,
                state.emergency_refusal(env, guardian, id),
                state.executing(env, id),
            );
            let started = state.settings is Some;
            let signed = started && env.authorized@.contains(guardian);
            let named = signed && state.settings->0.emergency_guardian == Some(guardian);
            let found = named && state.operations.contains_key(id);
            let open = found && state.operations[id].status == OperationStatus::Pending;
            let urgent = state.operations[id].kind is DisputeResolution;
            &&& r is Ok <==> open && urgent
            &&& !started ==> r == Err::<(), MultisigFault>(MultisigFault::NotInitialized)
            &&& started && !signed ==> r == Err::<(), MultisigFault>(MultisigFault::Unauthenticated)
            &&& signed && !named ==> r == Err::<(), MultisigFault>(
                MultisigFault::OnlyGuardianExecutes,
            )
            &&& named && !found ==> r == Err::<(), MultisigFault>(MultisigFault::OperationNotFound)
            &&& found && !open ==> r == Err::<(), MultisigFault>(MultisigFault::OperationNotPending)
            &&& open && !urgent ==> r == Err::<(), MultisigFault>(
                MultisigFault::NotEligibleForEmergency,
            )
            &&& r is Err ==> after == state
            &&& r is Ok ==> is_execution(state, after, env, id)
        }),
{
    if state.operations.contains_key(id) {
        lemma_is_execution(state, env, id);
    }
}

/// Whether some signers can be a multisig's, with a threshold.
pub open spec fn can_sign(signers: Seq<Address>, threshold: u32) -> bool {
    &&& 1 <= threshold
    &&& threshold <= signers.len()
    &&& forall|i: int, j: int| 0 <= i < j < signers.len() ==> signers[i] != signers[j]
}

/// The setup is made once, by the owner who authorizes it, with signers who are all
/// different and a threshold that they can meet, and sets what it was given. A new multisig
/// holds nothing.
pub proof fn setup_sets_what_was_given(
    state: MultisigState,
    env: Env,
    owner: Address,
    signers: Seq<Address>,
    threshold: u32,
    emergency_guardian: Option<Address>,
)
    ensures
        ({
            let (after, r) = crate::multisig::answer(
                state,
                state.initialize_refusal(env, owner, signers, threshold),
                state.initializing(owner, signers, threshold, emergency_guardian),
            );
            let signed = env.authorized@.contains(owner);
            let first = signed && state.settings is None;
            let met = first && signers.len() > 0 && 1 <= threshold && threshold <= signers.len();
            &&& r is Ok <==> first && can_sign(signers, threshold)
            &&& !signed ==> r == Err::<(), MultisigFault>(MultisigFault::Unauthenticated)
            &&& signed && !first ==> r == Err::<(), MultisigFault>(
                MultisigFault::AlreadyInitialized,
            )
            &&& first && signers.len() == 0 ==> r == Err::<(), MultisigFault>(
                MultisigFault::NoSigners,
            )
            &&& first && signers.len() > 0 && !met ==> r == Err::<(), MultisigFault>(
                MultisigFault::InvalidThreshold,
            )
            &&& met && r is Err ==> r == Err::<(), MultisigFault>(MultisigFault::DuplicateSigner)
            &&& r is Err ==> after == state
            &&& r is Ok ==> after == MultisigState {
                settings: Some(Settings { owner, emergency_guardian, signers, threshold }),
                ..state
            }
        }),
        ({
            let fresh = MultisigState::fresh();
            &&& fresh.settings is None
            &&& fresh.operation_counter == 0
            &&& forall|id: u128| !fresh.operations.contains_key(id)
            &&& forall|id: u128| !fresh.approvals.contains_key(id)
            &&& forall|target: OperationType| !fresh.overrides.contains_key(target)
            &&& fresh.outbox.len() == 0
        }),
{
}

/// The owner replaces the signers and the threshold under the same conditions. A threshold
/// that an operation type has of its own is kept if the new signers can meet it, and becomes
/// their number otherwise. The owner, the guardian, the operations and their approvals stay.
pub proof fn signers_are_replaced(
    state: MultisigState,
    env: Env,
    signers: Seq<Address>,
    threshold: u32,
    target: OperationType,
)
    ensures
        ({
            let (after, r) = crate::multisig::answer(
                state,
                state.update_refusal(env, signers, threshold),
                state.with_signers(signers, threshold),
            );
            let started = state.settings is Some;
            let signed = started && env.authorized@.contains(state.settings->0.owner);
            let met = signed && signers.len() > 0 && 1 <= threshold && threshold <= signers.len();
            &&& r is Ok <==> signed && can_sign(signers, threshold)
            &&& !started ==> r == Err::<(), MultisigFault>(MultisigFault::NotInitialized)
            &&& started && !signed ==> r == Err::<(), MultisigFault>(MultisigFault::Unauthenticated)
            &&& signed && signers.len() == 0 ==> r == Err::<(), MultisigFault>(
                MultisigFault::NoSigners,
            )
            &&& signed && signers.len() > 0 && !met ==> r == Err::<(), MultisigFault>(
                MultisigFault::InvalidNewThreshold,
            )
            &&& met && r is Err ==> r == Err::<(), MultisigFault>(MultisigFault::DuplicateSigner)
            &&& r is Err ==> after == state
            &&& r is Ok ==> {
                &&& after.settings == Some(
                    Settings {
                        owner: state.settings->0.owner,
                        emergency_guardian: state.settings->0.emergency_guardian,
                        signers,
                        threshold,
                    },
                )
                &&& after.overrides.contains_key(target) == state.overrides.contains_key(target)
                &&& state.overrides.contains_key(target) && state.overrides[target]
                    <= signers.len() ==> after.overrides[target] == state.overrides[target]
                &&& state.overrides.contains_key(target) && state.overrides[target] > signers.len()
                    ==> after.overrides[target] == signers.len()
                &&& after.operation_counter == state.operation_counter
                &&& after.operations == state.operations
                &&& after.approvals == state.approvals
                &&& after.outbox == state.outbox
            }
        }),
{
}

/// What the multisig tells of itself is what it keeps: an operation, who approved it, the
/// signers, and the thresholds.
pub proof fn queries_tell_what_is_kept(
    multisig: MultisigContract,
    id: u128,
    target: OperationType,
    operation: Option<Operation>,
    approvals: Vec<Address>,
    signers: Result<Vec<Address>, MultisigFault>,
    threshold: Result<u32, MultisigFault>,
    own: Option<u32>,
    effective: Result<u32, MultisigFault>,
)
    ensures
        call_ensures(MultisigContract::get_operation, (&multisig, id), operation) ==> {
            &&& operation is Some <==> multisig.operations@.contains_key(id)
            &&& operation is Some ==> operation->0 == multisig.operations@[id]
        },
        call_ensures(MultisigContract::get_approvals, (&multisig, id), approvals) ==> {
            &&& multisig.approvals@.contains_key(id) ==> approvals@ == multisig.approvals@[id]@
            &&& !multisig.approvals@.contains_key(id) ==> approvals@.len() == 0
        },
        call_ensures(MultisigContract::get_signers, (&multisig,), signers)
            ==> match multisig.config {
            Some(config) => signers matches Ok(list) && list@ == config.signers@,
            None => signers == Err::<Vec<Address>, MultisigFault>(MultisigFault::SignersNotSet),
        },
        call_ensures(MultisigContract::get_threshold, (&multisig,), threshold)
            ==> match multisig.config {
            Some(config) => threshold == Ok::<u32, MultisigFault>(config.threshold),
            None => threshold == Err::<u32, MultisigFault>(MultisigFault::ThresholdNotSet),
        },
        call_ensures(MultisigContract::get_threshold_override, (&multisig, target), own) ==> {
            &&& own is Some <==> multisig.overrides@.contains_key(target)
            &&& own is Some ==> own->0 == multisig.overrides@[target]
        },
        call_ensures(MultisigContract::get_effective_threshold, (&multisig, target), effective)
            ==> {
            &&& multisig.overrides@.contains_key(target) ==> effective == Ok::<u32, MultisigFault>(
                multisig.overrides@[target],
            )
            &&& !multisig.overrides@.contains_key(target) ==> match multisig.config {
                Some(config) => effective == Ok::<u32, MultisigFault>(config.threshold),
                None => effective == Err::<u32, MultisigFault>(MultisigFault::ThresholdNotSet),
            }
        },
{
}

/// An operation has the type that it is about, and the guardian may act on disputes alone.
pub proof fn kinds_are_told_apart(kind: OperationKind, target: OperationType, urgent: bool)
    ensures
        call_ensures(crate::multisig::operation_type, (&kind,), target) ==> match kind {
            OperationKind::ContractUpgrade(_, _) => target == OperationType::ContractUpgrade,
            OperationKind::LargePayment(_, _, _) => target == OperationType::LargePayment,
            OperationKind::DisputeResolution(_, _, _, _) => target
                == OperationType::DisputeResolution,
            OperationKind::SetThresholdOverride(named, _) => target == named,
        },
        call_ensures(crate::multisig::is_emergency_eligible, (&kind,), urgent) ==> match kind {
            OperationKind::ContractUpgrade(_, _) => !urgent,
            OperationKind::LargePayment(_, _, _) => !urgent,
            OperationKind::DisputeResolution(_, _, _, _) => urgent,
            OperationKind::SetThresholdOverride(_, _) => !urgent,
        },
{
}

/// Each call makes the step that is named after it, with what it was given, and is told why
/// where it is turned down.
pub proof fn calls_make_their_step(
    multisig: &mut MultisigContract,
    env: Env,
    caller: Address,
    signers: Vec<Address>,
    threshold: u32,
    guardian: Option<Address>,
    id: u128,
    r: Result<(), MultisigFault>,
)
    ensures
        call_ensures(
            MultisigContract::initialize,
            (old(multisig), &env, caller, signers, threshold, guardian),
            r,
        ) ==> crate::laws::is_answered(
            old(multisig)@.initialize_refusal(env, caller, signers@, threshold),
            old(multisig)@,
            step(
                old(multisig)@,
                env,
                Call::Initialize {
                    owner: caller,
                    signers: signers@,
                    threshold,
                    emergency_guardian: guardian,
                },
            ),
            final(multisig)@,
            r,
        ),
        call_ensures(
            MultisigContract::update_signers,
            (old(multisig), &env, signers, threshold),
            r,
        ) ==> crate::laws::is_answered(
            old(multisig)@.update_refusal(env, signers@, threshold),
            old(multisig)@,
            step(
                old(multisig)@,
                env,
                Call::UpdateSigners { signers: signers@, threshold },
            ),
            final(multisig)@,
            r,
        ),
        call_ensures(
            MultisigContract::cancel_operation,
            (old(multisig), &env, caller, id),
            r,
        ) ==> crate::laws::is_answered(
            old(multisig)@.cancel_refusal(env, caller, id),
            old(multisig)@,
            step(
                old(multisig)@,
                env,
                Call::Cancel { caller, id },
            ),
            final(multisig)@,
            r,
        ),
        call_ensures(
            MultisigContract::emergency_execute,
            (old(multisig), &env, caller, id),
            r,
        ) ==> crate::laws::is_answered(
            old(multisig)@.emergency_refusal(env, caller, id),
            old(multisig)@,
            step(
                old(multisig)@,
                env,
                Call::Emergency { guardian: caller, id },
            ),
            final(multisig)@,
            r,
        ),
{
}

/// A proposal that is taken gets the next number, and the caller is told it. It is on record
/// with what was proposed and by whom.
pub proof fn proposal_tells_the_number(
    multisig: &mut MultisigContract,
    env: Env,
    proposer: Address,
    kind: OperationKind,
    r: Result<u128, MultisigFault>,
)
    requires
        call_ensures(
            MultisigContract::propose_operation,
            (multisig, &env, proposer, kind),
            r,
        ),
    ensures
        final(multisig)@ == step(old(multisig)@, env, Call::Propose { proposer, kind }),
        r is Err ==> final(multisig)@ == old(multisig)@,
        r matches Ok(id) ==> {
            let operation = final(multisig).operations@[id];
            &&& id == old(multisig).operation_counter + 1
            &&& final(multisig).operations@.contains_key(id)
            &&& operation.kind == kind
            &&& operation.creator == proposer
        },
{
    proposal_is_checked(old(multisig)@, env, proposer, kind);
}

/// Whether an operation is pending and a signer acts on it who authorized the call.
pub open spec fn is_open_to(
    state: MultisigState,
    env: Env,
    signer: Address,
    id: u128,
) -> bool {
    &&& state.settings matches Some(settings) && settings.signers.contains(signer)
    &&& env.authorized@.contains(signer)
    &&& state.operations.contains_key(id)
    &&& state.operations[id].status == OperationStatus::Pending
}

/// Approving a pending operation, of whatever kind, puts the signer's approval on record. If
/// the approvals of those who are signers now are then as many as the operation needs, it is
/// executed at once, and otherwise it stays pending.
pub proof fn approval_executes_when_it_is_enough(
    multisig: &mut MultisigContract,
    env: Env,
    signer: Address,
    id: u128,
    r: Result<(), MultisigFault>,
)
    requires
        call_ensures(MultisigContract::approve_operation, (multisig, &env, signer, id), r),
        is_open_to(old(multisig)@, env, signer, id),
        !approvers(old(multisig)@, id).contains(signer),
        old(multisig).operations@[id].kind matches OperationKind::LargePayment(_, _, amount)
            ==> amount > 0,
    ensures
        ({
            let approved = with_approval(old(multisig)@, id, signer);
            &&& r is Ok
            &&& is_signed(approved, id) ==> {
                &&& final(multisig).operations@[id].status == OperationStatus::Executed
                &&& is_execution(approved, final(multisig)@, env, id)
            }
            &&& !is_signed(approved, id) ==> final(multisig)@ == approved
        }),
{
    enough_approvals_execute(old(multisig)@, env, signer, id);
}

/// Asking for a pending operation to be executed counts as an approval. It is executed if
/// there are enough of them, and an upgrade only with the hash that was proposed.
pub proof fn request_executes_when_it_is_enough(
    multisig: &mut MultisigContract,
    env: Env,
    caller: Address,
    id: u128,
    expected: Option<WasmHash>,
    r: Result<(), MultisigFault>,
)
    requires
        call_ensures(
            MultisigContract::execute_operation,
            (multisig, &env, caller, id, expected),
            r,
        ),
        is_open_to(old(multisig)@, env, caller, id),
        old(multisig).operations@[id].kind matches OperationKind::LargePayment(_, _, amount)
            ==> amount > 0,
        old(multisig).operations@[id].kind matches OperationKind::ContractUpgrade(_, hash)
            ==> expected == Some(hash),
    ensures
        ({
            let approved = if approvers(old(multisig)@, id).contains(caller) {
                old(multisig)@
            } else {
                with_approval(old(multisig)@, id, caller)
            };
            &&& r is Ok
            &&& is_signed(approved, id) ==> is_execution(approved, final(multisig)@, env, id)
            &&& !is_signed(approved, id) ==> final(multisig)@ == approved
        }),
{
    asked_execution_is_an_approval_with_the_hash(old(multisig)@, env, caller, id, expected);
}

/// Who may not approve an operation, or ask for it to be executed, changes nothing by trying.
pub proof fn strangers_change_nothing(
    multisig: &mut MultisigContract,
    env: Env,
    caller: Address,
    id: u128,
    expected: Option<WasmHash>,
    r: Result<(), MultisigFault>,
)
    requires
        !is_open_to(old(multisig)@, env, caller, id),
    ensures
        call_ensures(MultisigContract::approve_operation, (old(multisig), &env, caller, id), r)
            ==> r is Err && final(multisig)@ == old(multisig)@,
        call_ensures(
            MultisigContract::execute_operation,
            (old(multisig), &env, caller, id, expected),
            r,
        ) ==> r is Err && final(multisig)@ == old(multisig)@,
{
    approval_is_refused_for_cause(old(multisig)@, env, caller, id, expected);
}

} // verus!
