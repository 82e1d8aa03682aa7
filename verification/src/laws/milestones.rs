//! What holds of milestone agreements across calls.

use vstd::prelude::*;

use crate::address::Address;
use crate::env::Env;
use crate::milestones::{MilestoneEntry, MilestoneTerms};
use crate::payroll::{PayrollContract, PayrollEffect, PayrollFault, PayrollState};
use crate::storage::{
    Agreement, AgreementStatus, BatchMilestoneResult, Milestone, MilestoneAgreement, PaymentType,
    PayrollError,
};

verus! {

/// A call that can change a milestone agreement.
pub enum Call {
    Create { employer: Address, contributor: Address, token: Address, amounts: Seq<i128> },
    Fund { id: u128, from: Address, amount: i128 },
    Add { id: u128, amount: i128 },
    Approve { id: u128, milestone_id: u32 },
    Reject { id: u128, milestone_id: u32, reason: Seq<u8> },
    Expire { id: u128, milestone_id: u32 },
    Claim { id: u128, milestone_id: u32 },
    BatchClaim { id: u128, ids: Seq<u32> },
    Pause { id: u128 },
    Resume { id: u128 },
}

/// Why a call is turned down, if it is.
pub open spec fn refusal(state: PayrollState, env: Env, call: Call) -> Option<PayrollFault> {
    match call {
        Call::Create { employer, amounts, .. } => {
            state.create_milestones_refusal(env, employer, amounts)
        },
        Call::Fund { id, from, amount } => state.fund_refusal(env, id, from, amount),
        Call::Add { id, amount } => state.add_milestone_refusal(env, id, amount),
        Call::Approve { id, milestone_id } => state.approve_refusal(env, id, milestone_id),
        Call::Reject { id, milestone_id, reason } => {
            state.reject_refusal(env, id, milestone_id, reason)
        },
        Call::Expire { id, milestone_id } => state.expire_refusal(env, id, milestone_id),
        Call::Claim { id, milestone_id } => state.claim_refusal(env, id, milestone_id),
        Call::BatchClaim { id, ids } => state.batch_claim_refusal(env, id, ids),
        Call::Pause { id } => state.pause_refusal(env, id),
        Call::Resume { id } => state.resume_refusal(env, id),
    }
}

/// The state after a call that is not turned down.
pub open spec fn changed_by(state: PayrollState, env: Env, call: Call) -> PayrollState {
    match call {
        Call::Create { employer, contributor, token, amounts } => {
            state.creating_milestones(employer, contributor, token, amounts)
        },
        Call::Fund { id, from, amount } => state.funding(env, id, from, amount),
        Call::Add { id, amount } => state.adding_milestone(id, amount),
        Call::Approve { id, milestone_id } => {
            state.with_entry(
                id,
                milestone_id,
                state.milestone_agreements[id].at(milestone_id).approving(),
            )
        },
        Call::Reject { id, milestone_id, .. } => {
            state.with_entry(
                id,
                milestone_id,
                state.milestone_agreements[id].at(milestone_id).rejecting(),
            )
        },
        Call::Expire { id, milestone_id } => state.expiring(id, milestone_id),
        Call::Claim { id, milestone_id } => state.claiming(env, id, milestone_id),
        Call::BatchClaim { id, ids } => state.batch_claiming(env, id, ids),
        Call::Pause { id } => state.with_status(id, AgreementStatus::Paused),
        Call::Resume { id } => state.with_status(id, AgreementStatus::Active),
    }
}

/// The state after a call.
pub open spec fn step(state: PayrollState, env: Env, call: Call) -> PayrollState {
    crate::payroll::answer(state, refusal(state, env, call), changed_by(state, env, call)).0
}

/// Changing what happened to a milestone of an open agreement without claiming it
/// leaves the agreement well-formed.
proof fn marking_keeps_wf(terms: MilestoneTerms, milestone_id: u32, entry: MilestoneEntry)
    requires
        terms.wf(),
        terms.is_open(),
        terms.has(milestone_id),
        entry.wf(),
        entry.milestone.id == milestone_id,
        entry.milestone.amount == terms.at(milestone_id).milestone.amount,
        entry.milestone.claimed == terms.at(milestone_id).milestone.claimed,
    ensures
        terms.with(milestone_id, entry).wf(),
{
    let after = terms.with(milestone_id, entry);
    crate::milestones::lemma_update(terms.entries, milestone_id - 1, entry);
    let open = choose|i: int|
        0 <= i < terms.entries.len() && !(#[trigger] terms.entries[i]).milestone.claimed;
    assert(!after.entries[open].milestone.claimed);
    assert forall|i: int| 0 <= i < after.entries.len() implies (#[trigger] after.entries[i]).wf()
        && after.entries[i].milestone.id == i + 1 by {
        assert(terms.entries[i].wf());
    }
}

/// A claim leaves the agreement well-formed.
proof fn claiming_keeps_wf(state: PayrollState, env: Env, id: u128, milestone_id: u32)
    requires
        state.milestones_wf(),
        state.claim_refusal(env, id, milestone_id) is None,
    ensures
        state.claiming(env, id, milestone_id).milestone_agreements[id].wf(),
{
    let terms = state.milestone_agreements[id];
    let entry = terms.at(milestone_id);
    assert(terms.wf());
    assert(terms.entries[milestone_id - 1].wf());
    crate::milestones::lemma_update(terms.entries, milestone_id - 1, entry.claiming());
    crate::milestones::lemma_owed_part(terms.entries, milestone_id - 1);
    let after = state.claiming(env, id, milestone_id).milestone_agreements[id];
    assert forall|i: int| 0 <= i < after.entries.len() implies (#[trigger] after.entries[i]).wf()
        && after.entries[i].milestone.id == i + 1 by {
        assert(terms.entries[i].wf());
    }
}

/// A batch of claims leaves the agreement well-formed.
proof fn batch_claiming_keeps_wf(state: PayrollState, env: Env, id: u128, ids: Seq<u32>)
    requires
        state.milestones_wf(),
        state.batch_claim_refusal(env, id, ids) is None,
    ensures
        state.batch_claiming(env, id, ids).milestone_agreements[id].wf(),
{
    let terms = state.milestone_agreements[id];
    let n = ids.len() as int;
    assert(terms.wf());
    assert(ids.take(n) =~= ids);
    crate::milestones::lemma_batch(terms, ids, n);
    crate::milestones::lemma_claimed_entries(terms, ids);
    let after = state.batch_claiming(env, id, ids).milestone_agreements[id];
    assert forall|i: int| 0 <= i < after.entries.len() implies (#[trigger] after.entries[i]).wf()
        && after.entries[i].milestone.id == i + 1 by {
        assert(terms.claimed_entries(ids)[i].wf());
    }
}

/// No call breaks what holds of the milestone agreements.
pub proof fn calls_keep_wf(state: PayrollState, env: Env, call: Call)
    requires
        state.milestones_wf(),
    ensures
        step(state, env, call).milestones_wf(),
{
    if refusal(state, env, call) is None {
        match call {
            Call::Create { employer, contributor, token, amounts } => {
                let id = (state.milestone_agreement_counter + 1) as u128;
                let terms = step(state, env, call).milestone_agreements[id];
                crate::milestones::lemma_new_entries(amounts);
                crate::milestones::lemma_sum_part(amounts, 0);
                assert forall|i: int| 0 <= i < terms.entries.len() implies (
                #[trigger] terms.entries[i]).wf() && terms.entries[i].milestone.id == i + 1 by {
                    assert(amounts[i] > 0);
                }
                assert(!terms.entries[0].milestone.claimed);
            },
            Call::Fund { id, .. } => {
                assert(state.milestone_agreements[id].wf());
                fund_keeps_wf(state, env, call);
            },
            Call::Add { id, amount } => {
                let before = state.milestone_agreements[id];
                let after = step(state, env, call).milestone_agreements[id];
                assert(before.wf());
                assert(after.entries.drop_last() =~= before.entries);
                assert forall|i: int| 0 <= i < after.entries.len() implies (
                #[trigger] after.entries[i]).wf() && after.entries[i].milestone.id == i + 1 by {
                    if i < before.entries.len() {
                        assert(before.entries[i].wf());
                    }
                }
                assert(!after.entries[before.entries.len() as int].milestone.claimed);
            },
            Call::Approve { id, milestone_id } => {
                let terms = state.milestone_agreements[id];
                assert(terms.wf());
                assert(terms.entries[milestone_id - 1].wf());
                marking_keeps_wf(terms, milestone_id, terms.at(milestone_id).approving());
            },
            Call::Reject { id, milestone_id, .. } => {
                let terms = state.milestone_agreements[id];
                assert(terms.wf());
                assert(terms.entries[milestone_id - 1].wf());
                marking_keeps_wf(terms, milestone_id, terms.at(milestone_id).rejecting());
            },
            Call::Expire { id, milestone_id } => {
                let terms = state.milestone_agreements[id];
                assert(terms.wf());
                assert(terms.entries[milestone_id - 1].wf());
                marking_keeps_wf(terms, milestone_id, terms.at(milestone_id).expiring());
            },
            Call::Claim { id, milestone_id } => {
                claiming_keeps_wf(state, env, id, milestone_id);
            },
            Call::BatchClaim { id, ids } => {
                batch_claiming_keeps_wf(state, env, id, ids);
            },
            Call::Pause { id } => {
                status_keeps_wf(state, id, AgreementStatus::Paused);
            },
            Call::Resume { id } => {
                status_keeps_wf(state, id, AgreementStatus::Active);
            },
        }
    }
}

proof fn fund_keeps_wf(state: PayrollState, env: Env, call: Call)
    requires
        state.milestones_wf(),
        call is Fund,
        refusal(state, env, call) is None,
    ensures
        step(state, env, call).milestones_wf(),
{
    let id = call->Fund_id;
    let before = state.milestone_agreements[id];
    let after = step(state, env, call).milestone_agreements[id];
    assert(before.wf());
    assert(after.entries == before.entries);
    assert(after.is_paid() == before.is_paid());
}

/// Pausing and resuming leave an agreement that is not completed well-formed.
proof fn status_keeps_wf(state: PayrollState, id: u128, status: AgreementStatus)
    requires
        state.milestones_wf(),
        status == AgreementStatus::Paused || status == AgreementStatus::Active,
        !state.agreements.contains_key(id) ==> state.milestone_agreements.contains_key(id)
            && state.milestone_agreements[id].agreement.status != AgreementStatus::Completed,
    ensures
        state.with_status(id, status).milestones_wf(),
{
    if !state.agreements.contains_key(id) {
        let before = state.milestone_agreements[id];
        let after = before.with_status(status);
        assert(before.wf());
        assert(after.entries == before.entries);
        assert(after.is_paid() == before.is_paid());
    }
}

/// The agreement that a call is about.
pub open spec fn subject(state: PayrollState, call: Call) -> u128 {
    match call {
        Call::Create { .. } => (state.milestone_agreement_counter + 1) as u128,
        Call::Fund { id, .. } => id,
        Call::Add { id, .. } => id,
        Call::Approve { id, .. } => id,
        Call::Reject { id, .. } => id,
        Call::Expire { id, .. } => id,
        Call::Claim { id, .. } => id,
        Call::BatchClaim { id, .. } => id,
        Call::Pause { id } => id,
        Call::Resume { id } => id,
    }
}

/// A refused call changes nothing.
pub proof fn refused_call_changes_nothing(state: PayrollState, env: Env, call: Call)
    requires
        refusal(state, env, call) is Some,
    ensures
        step(state, env, call) == state,
{
}

/// A call about one agreement leaves every other as it is.
pub proof fn call_concerns_its_agreement_alone(
    state: PayrollState,
    env: Env,
    call: Call,
    other: u128,
)
    requires
        other != subject(state, call),
    ensures
        step(state, env, call).milestone_agreements.contains_key(other)
            <==> state.milestone_agreements.contains_key(other),
        step(state, env, call).milestone_agreements[other] == state.milestone_agreements[other],
        step(state, env, call).agreements.contains_key(other) <==> state.agreements.contains_key(
            other,
        ),
        step(state, env, call).agreements[other] == state.agreements[other],
{
}

/// No agreement and no milestone disappears, and none changes its parties, its token,
/// its number or its price.
pub proof fn terms_are_kept(
    state: PayrollState,
    env: Env,
    call: Call,
    id: u128,
    milestone_id: u32,
)
    requires
        state.milestones_wf(),
        state.milestone_agreements.contains_key(id),
        state.milestone_agreements[id].has(milestone_id),
    ensures
        ({
            let before = state.milestone_agreements[id];
            let after = step(state, env, call).milestone_agreements[id];
            &&& step(state, env, call).milestone_agreements.contains_key(id)
            &&& after.has(milestone_id)
            &&& after.agreement.employer == before.agreement.employer
            &&& after.agreement.contributor == before.agreement.contributor
            &&& after.agreement.token == before.agreement.token
            &&& after.at(milestone_id).milestone.id == before.at(milestone_id).milestone.id
            &&& after.at(milestone_id).milestone.amount == before.at(milestone_id).milestone.amount
        }),
{
    assert(state.milestone_agreements[id].wf());
    assert(state.milestone_agreements[id].entries[milestone_id - 1].wf());
}

/// What is settled stays settled: a milestone that was claimed or rejected, or has
/// expired, never changes again.
pub proof fn settled_milestone_is_final(
    state: PayrollState,
    env: Env,
    call: Call,
    id: u128,
    milestone_id: u32,
)
    requires
        state.milestones_wf(),
        state.milestone_agreements.contains_key(id),
        state.milestone_agreements[id].has(milestone_id),
        ({
            let entry = state.milestone_agreements[id].at(milestone_id);
            entry.milestone.claimed || entry.rejected || entry.expired
        }),
    ensures
        step(state, env, call).milestone_agreements[id].at(milestone_id)
            == state.milestone_agreements[id].at(milestone_id),
{
    let terms = state.milestone_agreements[id];
    assert(terms.wf());
    assert(terms.entries[milestone_id - 1].wf());
}

/// What happens to a milestone is its parties' doing: it is approved, rejected and
/// expired with the employer's authorization, and claimed with the contributor's.
pub proof fn milestones_change_by_their_parties(
    state: PayrollState,
    env: Env,
    call: Call,
    id: u128,
    milestone_id: u32,
)
    requires
        state.milestones_wf(),
        state.milestone_agreements.contains_key(id),
        state.milestone_agreements[id].has(milestone_id),
    ensures
        ({
            let terms = state.milestone_agreements[id];
            let before = terms.at(milestone_id);
            let after = step(state, env, call).milestone_agreements[id].at(milestone_id);
            &&& after.milestone.approved != before.milestone.approved ==> env.authorizes(
                terms.agreement.employer,
            ) && call == (Call::Approve { id, milestone_id }) && terms.is_covered()
            &&& after.rejected != before.rejected ==> env.authorizes(terms.agreement.employer)
                && call is Reject
            &&& after.expired != before.expired ==> env.authorizes(terms.agreement.employer)
                && call == (Call::Expire { id, milestone_id })
            &&& after.milestone.claimed != before.milestone.claimed ==> env.authorizes(
                terms.agreement.contributor,
            ) && (call is Claim || call is BatchClaim) && before.milestone.approved
        }),
{
    assert(state.milestone_agreements[id].wf());
    assert(state.milestone_agreements[id].entries[milestone_id - 1].wf());
}

/// An approval that the employer did not authorize is refused and leaves no trace.
pub proof fn strangers_cannot_approve(state: PayrollState, env: Env, id: u128, milestone_id: u32)
    requires
        !env.authorizes(state.milestone_agreements[id].agreement.employer),
    ensures
        state.approve_refusal(env, id, milestone_id) is Some,
        step(state, env, Call::Approve { id, milestone_id }) == state,
{
}

/// The escrow of an agreement grows by deposits and shrinks by payments, and nothing
/// else moves it. What a call pays is what the milestones cost that it claims.
pub proof fn escrow_is_accounted_for(state: PayrollState, env: Env, call: Call, id: u128)
    requires
        state.milestones_wf(),
        state.milestone_agreements.contains_key(id),
    ensures
        ({
            let before = state.milestone_agreements[id];
            let after = step(state, env, call).milestone_agreements[id];
            let refused = refusal(state, env, call) is Some;
            let gone = crate::milestones::owed(before.entries) - crate::milestones::owed(
                after.entries,
            );
            match call {
                Call::Fund { id: named, amount, .. } => after.escrow_balance
                    == before.escrow_balance + if refused || named != id {
                    0
                } else {
                    amount as int
                },
                Call::Claim { .. } => after.escrow_balance == before.escrow_balance - gone,
                Call::BatchClaim { .. } => after.escrow_balance == before.escrow_balance - gone,
                _ => after.escrow_balance == before.escrow_balance,
            }
        }),
{
    let terms = state.milestone_agreements[id];
    assert(terms.wf());
    match call {
        Call::Claim { id: named, milestone_id } => {
            if refusal(state, env, call) is None && named == id {
                let entry = terms.at(milestone_id);
                assert(terms.entries[milestone_id - 1].wf());
                crate::milestones::lemma_update(terms.entries, milestone_id - 1, entry.claiming());
                crate::milestones::lemma_owed_part(terms.entries, milestone_id - 1);
            }
        },
        Call::BatchClaim { id: named, ids } => {
            if refusal(state, env, call) is None && named == id {
                assert(ids.take(ids.len() as int) =~= ids);
                crate::milestones::lemma_batch(terms, ids, ids.len() as int);
            }
        },
        _ => {},
    }
}

/// A claim pays the contributor what the milestone costs, out of the contract's tokens,
/// and marks the milestone as claimed.
pub proof fn claim_pays_once(state: PayrollState, env: Env, id: u128, milestone_id: u32)
    requires
        state.milestones_wf(),
        state.claim_refusal(env, id, milestone_id) is None,
    ensures
        ({
            let terms = state.milestone_agreements[id];
            let after = step(state, env, Call::Claim { id, milestone_id });
            &&& after.outbox == state.outbox.push(
                PayrollEffect::Transfer {
                    token: terms.agreement.token,
                    from: env.contract,
                    to: terms.agreement.contributor,
                    amount: terms.at(milestone_id).milestone.amount,
                },
            )
            &&& after.milestone_agreements[id].at(milestone_id).milestone.claimed
            &&& after.claim_refusal(env, id, milestone_id) is Some
        }),
{
}

/// A rejected or expired milestone is not paid, whoever asks.
pub proof fn dead_milestone_is_not_paid(
    state: PayrollState,
    env: Env,
    id: u128,
    milestone_id: u32,
)
    requires
        state.milestones_wf(),
        state.milestone_agreements.contains_key(id),
        state.milestone_agreements[id].has(milestone_id),
        state.milestone_agreements[id].at(milestone_id).rejected
            || state.milestone_agreements[id].at(milestone_id).expired,
    ensures
        state.claim_refusal(env, id, milestone_id) is Some,
        state.contributor_refusal(env, id) is None ==> state.claim_refusal(env, id, milestone_id)
            == Some(PayrollFault::Error(PayrollError::MilestoneNotApproved)),
        state.approve_refusal(env, id, milestone_id) is Some,
{
    assert(state.milestone_agreements[id].wf());
    assert(state.milestone_agreements[id].entries[milestone_id - 1].wf());
}

/// Expiry and rejection free nothing and touch nothing else: the escrow and the other
/// milestones stay as they are.
pub proof fn expiry_touches_one_milestone(
    state: PayrollState,
    env: Env,
    id: u128,
    milestone_id: u32,
    other: u32,
    reason: Seq<u8>,
)
    requires
        state.milestones_wf(),
        state.milestone_agreements.contains_key(id),
        state.milestone_agreements[id].has(other),
        other != milestone_id,
    ensures
        ({
            let before = state.milestone_agreements[id];
            let expired = step(state, env, Call::Expire { id, milestone_id });
            let rejected = step(state, env, Call::Reject { id, milestone_id, reason });
            &&& expired.milestone_agreements[id].escrow_balance == before.escrow_balance
            &&& expired.milestone_agreements[id].at(other) == before.at(other)
            &&& rejected.milestone_agreements[id].escrow_balance == before.escrow_balance
            &&& rejected.milestone_agreements[id].at(other) == before.at(other)
        }),
{
}

/// The hook is told of an expiry after the milestone is marked, with the numbers of
/// the agreement and the milestone; without a hook the expiry is announced all the same.
pub proof fn expiry_is_announced(state: PayrollState, env: Env, id: u128, milestone_id: u32)
    requires
        state.expire_refusal(env, id, milestone_id) is None,
    ensures
        ({
            let after = step(state, env, Call::Expire { id, milestone_id });
            let announced = state.outbox.push(
                PayrollEffect::MilestoneExpired(
                    crate::payroll::MilestoneExpiredEvent { agreement_id: id, milestone_id },
                ),
            );
            &&& after.milestone_agreements[id].at(milestone_id).expired
            &&& after.outbox == match state.milestone_hook_contract {
                Some(hook) => announced.push(
                    PayrollEffect::ExpiryHook { hook, agreement_id: id, milestone_id },
                ),
                None => announced,
            }
        }),
{
}

/// A completed agreement is closed: every call about it is refused.
pub proof fn completed_agreement_is_closed(state: PayrollState, env: Env, call: Call)
    requires
        state.milestones_wf(),
        state.milestone_agreements.contains_key(subject(state, call)),
        state.milestone_agreements[subject(state, call)].agreement.status
            == AgreementStatus::Completed,
        !state.agreements.contains_key(subject(state, call)),
    ensures
        refusal(state, env, call) is Some,
{
}

/// An agreement is completed exactly when its last milestone is claimed.
pub proof fn completion_is_full_payment(state: PayrollState, id: u128)
    requires
        state.milestones_wf(),
        state.milestone_agreements.contains_key(id),
    ensures
        state.milestone_agreements[id].agreement.status == AgreementStatus::Completed <==> forall|
            milestone_id: u32,
        | #[trigger]
            state.milestone_agreements[id].has(milestone_id) ==> state.milestone_agreements[id].at(
                milestone_id,
            ).milestone.claimed,
{
    let terms = state.milestone_agreements[id];
    assert(terms.wf());
    if forall|milestone_id: u32| #[trigger]
        terms.has(milestone_id) ==> terms.at(milestone_id).milestone.claimed {
        assert forall|i: int| 0 <= i < terms.entries.len() implies (
        #[trigger] terms.entries[i]).milestone.claimed by {
            assert(terms.has((i + 1) as u32));
        }
    }
}

/// While an agreement is paused nothing is paid and no milestone changes; once it is
/// resumed, it is active.
pub proof fn paused_agreement_rests(
    state: PayrollState,
    env: Env,
    id: u128,
    milestone_id: u32,
    ids: Seq<u32>,
    reason: Seq<u8>,
)
    requires
        state.pause_refusal(env, id) is None,
        !state.agreements.contains_key(id),
    ensures
        ({
            let paused = step(state, env, Call::Pause { id });
            &&& paused.claim_refusal(env, id, milestone_id) is Some
            &&& paused.batch_claim_refusal(env, id, ids) is Some
            &&& paused.approve_refusal(env, id, milestone_id) is Some
            &&& paused.reject_refusal(env, id, milestone_id, reason) is Some
            &&& paused.expire_refusal(env, id, milestone_id) is Some
            &&& paused.resume_refusal(env, id) is None
            &&& step(paused, env, Call::Resume { id }).milestone_agreements[id]
                == state.milestone_agreements[id].with_status(AgreementStatus::Active)
        }),
{
}

/// Payments keep the escrow sufficient: where it covers what is owed, it does so after
/// any claim or deposit.
pub proof fn cover_lasts(state: PayrollState, env: Env, call: Call, id: u128)
    requires
        state.milestones_wf(),
        state.milestone_agreements.contains_key(id),
        state.milestone_agreements[id].is_covered(),
        !(call is Add),
    ensures
        step(state, env, call).milestone_agreements[id].is_covered(),
{
    escrow_is_accounted_for(state, env, call, id);
    let terms = state.milestone_agreements[id];
    assert(terms.wf());
    match call {
        Call::Approve { id: named, milestone_id } => {
            if refusal(state, env, call) is None && named == id {
                crate::milestones::lemma_update(
                    terms.entries,
                    milestone_id - 1,
                    terms.at(milestone_id).approving(),
                );
            }
        },
        Call::Reject { id: named, milestone_id, .. } => {
            if refusal(state, env, call) is None && named == id {
                crate::milestones::lemma_update(
                    terms.entries,
                    milestone_id - 1,
                    terms.at(milestone_id).rejecting(),
                );
            }
        },
        Call::Expire { id: named, milestone_id } => {
            if refusal(state, env, call) is None && named == id {
                crate::milestones::lemma_update(
                    terms.entries,
                    milestone_id - 1,
                    terms.at(milestone_id).expiring(),
                );
            }
        },
        _ => {},
    }
}

/// A batch of one is a claim.
pub proof fn batch_of_one_is_a_claim(state: PayrollState, env: Env, id: u128, milestone_id: u32)
    requires
        state.milestones_wf(),
        state.claim_refusal(env, id, milestone_id) is None,
    ensures
        state.batch_claim_refusal(env, id, seq![milestone_id]) is None,
        state.batch_claiming(env, id, seq![milestone_id]) == state.claiming(env, id, milestone_id),
{
    let terms = state.milestone_agreements[id];
    let ids = seq![milestone_id];
    assert(terms.wf());
    assert(ids.take(1) =~= ids);
    assert(ids.take(0).len() == 0);
    assert(terms.claim_code(ids, 0) == 0);
    crate::milestones::lemma_batch(terms, ids, 1);
    crate::milestones::lemma_batch(terms, ids, 0);
    assert(terms.claimed_entries(ids.take(0)) =~= terms.entries);
    assert(terms.claim_total(ids, 0) == 0);
    assert(terms.claim_total(ids, 1) == terms.at(milestone_id).milestone.amount);
    assert(terms.paying(state.outbox, env.contract, ids, 0) == state.outbox);
    assert(terms.paying(state.outbox, env.contract, ids, 1) == state.outbox.push(
        terms.payment(env.contract, terms.at(milestone_id).milestone.amount),
    ));
    assert(state.batch_claiming(env, id, ids) =~= state.claiming(env, id, milestone_id));
}

/// A batch pays each milestone once at most, however often it is named.
pub proof fn batch_pays_each_milestone_once(
    terms: MilestoneTerms,
    ids: Seq<u32>,
    i: int,
    j: int,
)
    requires
        0 <= i < j < ids.len(),
        ids[i] == ids[j],
    ensures
        terms.claim_code(ids, j) == 1,
        !terms.claim_result(ids, j).success,
        terms.claim_result(ids, j).amount_claimed == 0,
{
    assert(ids.take(j)[i] == ids[i]);
}

/// A call, and what the host knows of it.
pub struct Made {
    pub env: Env,
    pub call: Call,
}

/// The state after a series of calls.
pub open spec fn after_calls(state: PayrollState, calls: Seq<Made>) -> PayrollState
    decreases calls.len(),
{
    if calls.len() == 0 {
        state
    } else {
        step(after_calls(state, calls.drop_last()), calls.last().env, calls.last().call)
    }
}

/// Whether a milestone is claimed.
pub open spec fn is_claimed(state: PayrollState, id: u128, milestone_id: u32) -> bool {
    state.milestone_agreements[id].at(milestone_id).milestone.claimed
}

/// How many calls of a series claimed a milestone.
pub open spec fn claims(
    state: PayrollState,
    calls: Seq<Made>,
    id: u128,
    milestone_id: u32,
) -> nat
    decreases calls.len(),
{
    if calls.len() == 0 {
        0
    } else {
        let rest = calls.drop_last();
        claims(state, rest, id, milestone_id) + if !is_claimed(
            after_calls(state, rest),
            id,
            milestone_id,
        ) && is_claimed(after_calls(state, calls), id, milestone_id) {
            1nat
        } else {
            0nat
        }
    }
}

/// A milestone is claimed once at most, whatever is called and however often.
pub proof fn milestone_is_claimed_once(
    state: PayrollState,
    calls: Seq<Made>,
    id: u128,
    milestone_id: u32,
)
    requires
        state.milestones_wf(),
        state.milestone_agreements.contains_key(id),
        state.milestone_agreements[id].has(milestone_id),
    ensures
        claims(state, calls, id, milestone_id) <= 1,
        claims(state, calls, id, milestone_id) > 0 ==> is_claimed(
            after_calls(state, calls),
            id,
            milestone_id,
        ),
        is_claimed(state, id, milestone_id) ==> claims(state, calls, id, milestone_id) == 0
            && is_claimed(after_calls(state, calls), id, milestone_id),
        after_calls(state, calls).milestones_wf(),
        after_calls(state, calls).milestone_agreements.contains_key(id),
        after_calls(state, calls).milestone_agreements[id].has(milestone_id),
    decreases calls.len(),
{
    if calls.len() > 0 {
        let rest = calls.drop_last();
        let before = after_calls(state, rest);
        let last = calls.last();
        milestone_is_claimed_once(state, rest, id, milestone_id);
        calls_keep_wf(before, last.env, last.call);
        terms_are_kept(before, last.env, last.call, id, milestone_id);
        if is_claimed(before, id, milestone_id) {
            settled_milestone_is_final(before, last.env, last.call, id, milestone_id);
        }
    }
}

/// What the milestones cost that are still to be claimed.
pub open spec fn outstanding(entries: Seq<MilestoneEntry>) -> int
    decreases entries.len(),
{
    if entries.len() == 0 {
        0
    } else if entries.last().milestone.claimed {
        outstanding(entries.drop_last())
    } else {
        outstanding(entries.drop_last()) + entries.last().milestone.amount
    }
}

/// Sums are taken over everything, once each: what a list comes to is what it came to without
/// its last part, and that part. What is owed leaves out what is claimed.
pub proof fn sums_add_up(
    entries: Seq<MilestoneEntry>,
    entry: MilestoneEntry,
    amounts: Seq<i128>,
    amount: i128,
)
    ensures
        crate::milestones::sum(Seq::empty()) == 0,
        crate::milestones::sum(amounts.push(amount)) == crate::milestones::sum(amounts) + amount,
        crate::milestones::cost(Seq::empty()) == 0,
        crate::milestones::cost(entries.push(entry)) == crate::milestones::cost(entries)
            + entry.milestone.amount,
        crate::milestones::owed(entries) == outstanding(entries),
    decreases entries.len(),
{
    assert(amounts.push(amount).drop_last() =~= amounts);
    assert(entries.push(entry).drop_last() =~= entries);
    if entries.len() > 0 {
        sums_add_up(entries.drop_last(), entry, amounts, amount);
    }
}

/// Whether an agreement can be worked on.
pub open spec fn is_running(terms: MilestoneTerms) -> bool {
    terms.agreement.status == AgreementStatus::Created || terms.agreement.status
        == AgreementStatus::Active
}

/// Whether an agreement has a milestone of this number.
pub open spec fn is_numbered(terms: MilestoneTerms, milestone_id: u32) -> bool {
    1 <= milestone_id && milestone_id <= terms.entries.len()
}

/// The milestone of a number is found at its place, counted from 1.
pub proof fn milestones_are_numbered_from_one(terms: MilestoneTerms, milestone_id: u32)
    ensures
        terms.has(milestone_id) == is_numbered(terms, milestone_id),
        terms.at(milestone_id) == terms.entries[milestone_id - 1],
        terms.is_open() == is_running(terms),
        terms.is_covered() == (terms.escrow_balance >= outstanding(terms.entries)),
{
    let entry = terms.entries[0];
    sums_add_up(terms.entries, entry, Seq::empty(), 0);
}

/// A text says something if it has a character that is not one of the white ones: space,
/// tab, line feed, form feed and carriage return.
pub proof fn reason_needs_a_visible_character(text: Seq<u8>)
    ensures
        crate::milestones::is_blank(text) <==> !exists|i: int|
            0 <= i < text.len() && !seq![32u8, 9, 10, 12, 13].contains(#[trigger] text[i]),
{
    let white = seq![32u8, 9, 10, 12, 13];
    assert forall|c: u8| #[trigger] white.contains(c) == crate::milestones::is_space(c) by {
        assert(white[0] == 32 && white[1] == 9 && white[2] == 10 && white[3] == 12 && white[4]
            == 13);
    }
    if crate::milestones::is_blank(text) {
        assert forall|i: int| 0 <= i < text.len() implies white.contains(#[trigger] text[i]) by {
            assert(crate::milestones::is_space(text[i]));
        }
    }
}

/// A new agreement has the next number and the given parties and token. It has a milestone
/// for each amount, in their order, with nothing done yet; the total is what they come to,
/// and there is no deposit. Nothing else changes.
pub proof fn new_agreement_is_as_given(
    state: PayrollState,
    env: Env,
    employer: Address,
    contributor: Address,
    token: Address,
    amounts: Seq<i128>,
)
    ensures
        ({
            let (after, r) = state.after_create_milestones(
                env,
                employer,
                contributor,
                token,
                amounts,
            );
            let signed = env.authorized@.contains(employer);
            let some = signed && amounts.len() > 0;
            let positive = some && forall|i: int|
                0 <= i < amounts.len() ==> #[trigger] amounts[i] > 0;
            let countable = positive && amounts.len() <= u32::MAX;
            let payable = countable && crate::milestones::sum(amounts) <= i128::MAX;
            let numbered = payable && state.milestone_agreement_counter < u128::MAX;
            let id = (state.milestone_agreement_counter + 1) as u128;
            &&& r is Ok <==> numbered
            &&& !signed ==> r == Err::<u128, PayrollFault>(PayrollFault::Unauthenticated)
            &&& signed && !some ==> r == Err::<u128, PayrollFault>(
                PayrollFault::Error(PayrollError::EmptyMilestoneList),
            )
            &&& some && !positive ==> r == Err::<u128, PayrollFault>(
                PayrollFault::Error(PayrollError::MilestoneAmountInvalid),
            )
            &&& positive && !countable ==> r == Err::<u128, PayrollFault>(
                PayrollFault::MilestoneIdOverflow,
            )
            &&& countable && !payable ==> r == Err::<u128, PayrollFault>(
                PayrollFault::TotalAmountOverflow,
            )
            &&& payable && !numbered ==> r == Err::<u128, PayrollFault>(
                PayrollFault::AgreementIdOverflow,
            )
            &&& r is Err ==> after == state
            &&& r is Ok ==> {
                let terms = after.milestone_agreements[id];
                &&& r == Ok::<u128, PayrollFault>(id)
                &&& after.milestone_agreement_counter == id
                &&& after.milestone_agreements.contains_key(id)
                &&& terms.agreement.id == id
                &&& terms.agreement.employer == employer
                &&& terms.agreement.contributor == contributor
                &&& terms.agreement.token == token
                &&& terms.agreement.payment_type == PaymentType::MilestoneBased
                &&& terms.agreement.status == AgreementStatus::Created
                &&& terms.agreement.total_amount == crate::milestones::sum(amounts)
                &&& terms.escrow_balance == 0
                &&& terms.entries.len() == amounts.len()
                &&& forall|i: int|
                    0 <= i < amounts.len() ==> {
                        let entry = #[trigger] terms.entries[i];
                        &&& entry.milestone.id == i + 1
                        &&& entry.milestone.amount == amounts[i]
                        &&& !entry.milestone.approved
                        &&& !entry.milestone.claimed
                        &&& !entry.rejected
                        &&& !entry.expired
                    }
                &&& forall|other: u128|
                    other != id ==> (#[trigger] after.milestone_agreements.contains_key(other))
                        == state.milestone_agreements.contains_key(other)
                &&& forall|other: u128|
                    other != id ==> #[trigger] after.milestone_agreements[other]
                        == state.milestone_agreements[other]
                &&& after == PayrollState {
                    milestone_agreement_counter: after.milestone_agreement_counter,
                    milestone_agreements: after.milestone_agreements,
                    ..state
                }
            }
        }),
{
    if state.create_milestones_refusal(env, employer, amounts) is None {
        crate::milestones::lemma_sum_part(amounts, 0);
    }
}

/// Whether one state is another but for the terms of one agreement and what was asked of the
/// outside.
pub open spec fn changes_one_agreement(
    before: PayrollState,
    after: PayrollState,
    id: u128,
) -> bool {
    &&& after.milestone_agreements.contains_key(id)
    &&& after.milestone_agreements.remove(id) == before.milestone_agreements.remove(id)
    &&& after == PayrollState {
        milestone_agreements: after.milestone_agreements,
        outbox: after.outbox,
        ..before
    }
}

proof fn lemma_one_agreement(state: PayrollState, id: u128, terms: MilestoneTerms)
    ensures
        changes_one_agreement(state, state.with_terms(id, terms), id),
{
    assert(state.with_terms(id, terms).milestone_agreements.remove(id)
        =~= state.milestone_agreements.remove(id));
}

/// A deposit moves the given amount of the agreement's token from the employer to the
/// contract, and the agreement's balance grows by that very amount. That is all it does: one
/// transfer, and nothing else of the agreement or of any other changes.
pub proof fn deposit_moves_what_it_records(
    state: PayrollState,
    env: Env,
    id: u128,
    from: Address,
    amount: i128,
)
    ensures
        ({
            let (after, r) = crate::payroll::answer(
                state,
                state.fund_refusal(env, id, from, amount),
                state.funding(env, id, from, amount),
            );
            let before = state.milestone_agreements[id];
            let found = state.milestone_agreements.contains_key(id);
            let signed = found && env.authorized@.contains(from);
            let entitled = signed && before.agreement.employer == from;
            let positive = entitled && amount > 0;
            let open = positive && before.agreement.status != AgreementStatus::Cancelled
                && before.agreement.status != AgreementStatus::Completed;
            let holds = open && before.escrow_balance + amount <= i128::MAX;
            &&& r is Ok <==> holds
            &&& !found ==> r == Err::<(), PayrollFault>(
                PayrollFault::Error(PayrollError::AgreementNotFound),
            )
            &&& found && !signed ==> r == Err::<(), PayrollFault>(PayrollFault::Unauthenticated)
            &&& signed && !entitled ==> r == Err::<(), PayrollFault>(PayrollFault::NotTheEmployer)
            &&& entitled && !positive ==> r == Err::<(), PayrollFault>(
                PayrollFault::AmountNotPositive,
            )
            &&& positive && !open ==> r == Err::<(), PayrollFault>(PayrollFault::AgreementClosed)
            &&& open && !holds ==> r == Err::<(), PayrollFault>(PayrollFault::EscrowBalanceOverflow)
            &&& r is Err ==> after == state
            &&& r is Ok && before.escrow_balance >= 0 ==> {
                let terms = after.milestone_agreements[id];
                &&& changes_one_agreement(state, after, id)
                &&& terms.escrow_balance == before.escrow_balance + amount
                &&& terms.agreement == before.agreement
                &&& terms.entries == before.entries
                &&& after.outbox.len() == state.outbox.len() + 1
                &&& after.outbox.drop_last() == state.outbox
                &&& after.outbox.last() matches PayrollEffect::Transfer {
                    token,
                    from: payer,
                    to,
                    amount: moved,
                } && token == before.agreement.token && payer == from && to == env.contract
                    && moved == amount && moved == terms.escrow_balance - before.escrow_balance
            }
        }),
{
    let after = state.funding(env, id, from, amount);
    lemma_one_agreement(state, id, after.milestone_agreements[id]);
    assert(after.outbox.drop_last() =~= state.outbox);
}

/// What an employer's call about an agreement is told first: that there is none, or that the
/// employer did not authorize it. The same holds of a contributor's, which also needs the
/// agreement to run.
pub proof fn parties_are_judged_first(state: PayrollState, env: Env, id: u128)
    ensures
        ({
            let terms = state.milestone_agreements[id];
            let found = state.milestone_agreements.contains_key(id);
            let employer = env.authorized@.contains(terms.agreement.employer);
            let contributor = env.authorized@.contains(terms.agreement.contributor);
            let missing = Some(PayrollFault::Error(PayrollError::AgreementNotFound));
            &&& !found ==> state.employer_refusal(env, id) == missing
                && state.contributor_refusal(env, id) == missing
            &&& found && !employer ==> state.employer_refusal(env, id) == Some(
                PayrollFault::Unauthenticated,
            )
            &&& found && employer ==> state.employer_refusal(env, id) is None
            &&& found && !contributor ==> state.contributor_refusal(env, id) == Some(
                PayrollFault::Unauthenticated,
            )
            &&& found && contributor && !is_running(terms) ==> state.contributor_refusal(env, id)
                == Some(PayrollFault::Error(PayrollError::MilestoneAgreementInvalidStatus))
            &&& found && contributor && is_running(terms) ==> state.contributor_refusal(
                env,
                id,
            ) is None
        }),
{
}

/// A milestone is added to an agreement that was just created, by its employer. It comes
/// last, with the next number and the given amount, which the total grows by.
pub proof fn added_milestone_comes_last(state: PayrollState, env: Env, id: u128, amount: i128)
    ensures
        ({
            let call = Call::Add { id, amount };
            let after = step(state, env, call);
            let refused = refusal(state, env, call);
            let before = state.milestone_agreements[id];
            let entitled = state.employer_refusal(env, id) is None;
            let created = entitled && before.agreement.status == AgreementStatus::Created;
            let positive = created && amount > 0;
            let countable = positive && before.entries.len() < u32::MAX;
            let payable = countable && before.agreement.total_amount + amount <= i128::MAX;
            &&& refused is None <==> payable
            &&& !entitled ==> refused == state.employer_refusal(env, id)
            &&& entitled && !created ==> refused == Some(
                PayrollFault::Error(PayrollError::MilestoneAgreementInvalidStatus),
            )
            &&& created && !positive ==> refused == Some(
                PayrollFault::Error(PayrollError::MilestoneAmountInvalid),
            )
            &&& positive && !countable ==> refused == Some(PayrollFault::MilestoneIdOverflow)
            &&& countable && !payable ==> refused == Some(PayrollFault::TotalAmountOverflow)
            &&& payable && before.agreement.total_amount >= 0 ==> {
                let terms = after.milestone_agreements[id];
                let entry = terms.entries.last();
                &&& changes_one_agreement(state, after, id)
                &&& after.outbox == state.outbox
                &&& terms.escrow_balance == before.escrow_balance
                &&& terms.agreement.total_amount == before.agreement.total_amount + amount
                &&& terms.agreement == MilestoneAgreement {
                    total_amount: terms.agreement.total_amount,
                    ..before.agreement
                }
                &&& terms.entries.len() == before.entries.len() + 1
                &&& terms.entries.drop_last() == before.entries
                &&& entry.milestone.id == before.entries.len() + 1
                &&& entry.milestone.amount == amount
                &&& !entry.milestone.approved && !entry.milestone.claimed
                &&& !entry.rejected && !entry.expired
            }
        }),
{
    let after = state.adding_milestone(id, amount);
    lemma_one_agreement(state, id, after.milestone_agreements[id]);
    assert(after.milestone_agreements[id].entries.drop_last()
        =~= state.milestone_agreements[id].entries);
}

/// Whether the terms are others but for what happened to one milestone.
pub open spec fn changes_one_milestone(
    before: MilestoneTerms,
    after: MilestoneTerms,
    milestone_id: u32,
) -> bool {
    &&& after.agreement == before.agreement
    &&& after.escrow_balance == before.escrow_balance
    &&& after.entries.len() == before.entries.len()
    &&& forall|k: int|
        0 <= k < before.entries.len() && k != milestone_id - 1 ==> #[trigger] after.entries[k]
            == before.entries[k]
    &&& after.entries[milestone_id - 1].milestone.id == before.entries[milestone_id
        - 1].milestone.id
    &&& after.entries[milestone_id - 1].milestone.amount == before.entries[milestone_id
        - 1].milestone.amount
}

/// An employer approves a milestone of a running agreement to which nothing has happened yet,
/// if the deposits cover everything that is still to be claimed. The milestone is approved
/// then, and nothing else changes.
pub proof fn approval_approves_one_milestone(
    state: PayrollState,
    env: Env,
    id: u128,
    milestone_id: u32,
)
    ensures
        ({
            let call = Call::Approve { id, milestone_id };
            let after = step(state, env, call);
            let refused = refusal(state, env, call);
            let before = state.milestone_agreements[id];
            let entry = before.entries[milestone_id - 1];
            let entitled = state.employer_refusal(env, id) is None;
            let open = entitled && is_running(before);
            let found = open && is_numbered(before, milestone_id);
            let covered = before.escrow_balance >= outstanding(before.entries);
            &&& refused is None <==> found && !entry.milestone.approved && !entry.rejected
                && !entry.expired && covered
            &&& !entitled ==> refused == state.employer_refusal(env, id)
            &&& entitled && !open ==> refused == Some(
                PayrollFault::Error(PayrollError::MilestoneAgreementInvalidStatus),
            )
            &&& open && !found ==> refused == Some(
                PayrollFault::Error(PayrollError::MilestoneNotFound),
            )
            &&& found && entry.milestone.approved ==> refused == Some(
                PayrollFault::Error(PayrollError::MilestoneAlreadyApproved),
            )
            &&& found && !entry.milestone.approved && entry.rejected ==> refused == Some(
                PayrollFault::Error(PayrollError::MilestoneAlreadyRejected),
            )
            &&& found && !entry.milestone.approved && !entry.rejected && entry.expired ==> refused
                == Some(PayrollFault::Error(PayrollError::MilestoneAlreadyExpired))
            &&& found && !entry.milestone.approved && !entry.rejected && !entry.expired && !covered
                ==> refused == Some(PayrollFault::Error(PayrollError::InsufficientEscrowBalance))
            &&& refused is None ==> {
                let terms = after.milestone_agreements[id];
                let now = terms.entries[milestone_id - 1];
                &&& changes_one_agreement(state, after, id)
                &&& changes_one_milestone(before, terms, milestone_id)
                &&& now.milestone.approved
                &&& now.milestone.claimed == entry.milestone.claimed
                &&& now.rejected == entry.rejected && now.expired == entry.expired
                &&& after.outbox == state.outbox
            }
        }),
{
    milestones_are_numbered_from_one(state.milestone_agreements[id], milestone_id);
    let after = step(state, env, Call::Approve { id, milestone_id });
    lemma_one_agreement(state, id, after.milestone_agreements[id]);
}

/// An employer rejects, with a reason, a milestone of a running agreement to which nothing
/// has happened yet. The milestone is rejected then, and nothing else changes.
pub proof fn rejection_rejects_one_milestone(
    state: PayrollState,
    env: Env,
    id: u128,
    milestone_id: u32,
    reason: Seq<u8>,
)
    ensures
        ({
            let call = Call::Reject { id, milestone_id, reason };
            let after = step(state, env, call);
            let refused = refusal(state, env, call);
            let before = state.milestone_agreements[id];
            let entry = before.entries[milestone_id - 1];
            let entitled = state.employer_refusal(env, id) is None;
            let open = entitled && is_running(before);
            let found = open && is_numbered(before, milestone_id);
            let fresh = found && !entry.rejected && !entry.milestone.claimed
                && !entry.milestone.approved && !entry.expired;
            let blank = crate::milestones::is_blank(reason);
            &&& refused is None <==> fresh && !blank
            &&& !entitled ==> refused == state.employer_refusal(env, id)
            &&& entitled && !open ==> refused == Some(
                PayrollFault::Error(PayrollError::MilestoneAgreementInvalidStatus),
            )
            &&& open && !found ==> refused == Some(
                PayrollFault::Error(PayrollError::MilestoneNotFound),
            )
            &&& found && entry.rejected ==> refused == Some(
                PayrollFault::Error(PayrollError::MilestoneAlreadyRejected),
            )
            &&& found && !entry.rejected && entry.milestone.claimed ==> refused == Some(
                PayrollFault::Error(PayrollError::MilestoneAlreadyClaimedCannotReject),
            )
            &&& found && !entry.rejected && !entry.milestone.claimed && entry.milestone.approved
                ==> refused == Some(
                PayrollFault::Error(PayrollError::MilestoneAlreadyApprovedCannotReject),
            )
            &&& found && !entry.rejected && !entry.milestone.claimed && !entry.milestone.approved
                && entry.expired ==> refused == Some(
                PayrollFault::Error(PayrollError::MilestoneAlreadyExpired),
            )
            &&& fresh && blank ==> refused == Some(
                PayrollFault::Error(PayrollError::MilestoneRejectionReasonEmpty),
            )
            &&& refused is None ==> {
                let terms = after.milestone_agreements[id];
                let now = terms.entries[milestone_id - 1];
                &&& changes_one_agreement(state, after, id)
                &&& changes_one_milestone(before, terms, milestone_id)
                &&& now.rejected
                &&& now.milestone == entry.milestone && now.expired == entry.expired
                &&& after.outbox == state.outbox
            }
        }),
{
    milestones_are_numbered_from_one(state.milestone_agreements[id], milestone_id);
    let after = step(state, env, Call::Reject { id, milestone_id, reason });
    lemma_one_agreement(state, id, after.milestone_agreements[id]);
}

/// An employer lets a milestone of a running agreement expire to which nothing has happened
/// yet. The milestone is expired then, and no other changes.
pub proof fn expiry_expires_one_milestone(
    state: PayrollState,
    env: Env,
    id: u128,
    milestone_id: u32,
)
    ensures
        ({
            let call = Call::Expire { id, milestone_id };
            let after = step(state, env, call);
            let refused = refusal(state, env, call);
            let before = state.milestone_agreements[id];
            let entry = before.entries[milestone_id - 1];
            let entitled = state.employer_refusal(env, id) is None;
            let open = entitled && is_running(before);
            let found = open && is_numbered(before, milestone_id);
            &&& refused is None <==> found && !entry.expired && !entry.milestone.claimed
                && !entry.milestone.approved && !entry.rejected
            &&& !entitled ==> refused == state.employer_refusal(env, id)
            &&& entitled && !open ==> refused == Some(
                PayrollFault::Error(PayrollError::MilestoneAgreementInvalidStatus),
            )
            &&& open && !found ==> refused == Some(
                PayrollFault::Error(PayrollError::MilestoneNotFound),
            )
            &&& found && entry.expired ==> refused == Some(
                PayrollFault::Error(PayrollError::MilestoneAlreadyExpired),
            )
            &&& found && !entry.expired && entry.milestone.claimed ==> refused == Some(
                PayrollFault::Error(PayrollError::MilestoneAlreadyClaimed),
            )
            &&& found && !entry.expired && !entry.milestone.claimed && entry.milestone.approved
                ==> refused == Some(PayrollFault::Error(PayrollError::MilestoneAlreadyApproved))
            &&& found && !entry.expired && !entry.milestone.claimed && !entry.milestone.approved
                && entry.rejected ==> refused == Some(
                PayrollFault::Error(PayrollError::MilestoneAlreadyRejected),
            )
            &&& refused is None ==> {
                let terms = after.milestone_agreements[id];
                let now = terms.entries[milestone_id - 1];
                &&& changes_one_agreement(state, after, id)
                &&& changes_one_milestone(before, terms, milestone_id)
                &&& now.expired
                &&& now.milestone == entry.milestone && now.rejected == entry.rejected
            }
        }),
{
    milestones_are_numbered_from_one(state.milestone_agreements[id], milestone_id);
    let after = step(state, env, Call::Expire { id, milestone_id });
    lemma_one_agreement(state, id, after.milestone_agreements[id]);
}

/// What an agreement's status is after payments: it is completed once every milestone is
/// claimed, and stays as it was until then.
pub open spec fn status_after_payment(
    before: MilestoneTerms,
    entries: Seq<MilestoneEntry>,
) -> AgreementStatus {
    if forall|k: int| 0 <= k < entries.len() ==> (#[trigger] entries[k]).milestone.claimed {
        AgreementStatus::Completed
    } else {
        before.agreement.status
    }
}

/// A contributor claims a milestone of a running agreement that is approved and not claimed
/// yet, if the deposits cover everything that is still to be claimed. The contributor gets
/// what the milestone costs, in the agreement's token, and the balance falls by as much. The
/// milestone is claimed then; the last one completes the agreement.
pub proof fn claim_pays_what_the_milestone_costs(
    state: PayrollState,
    env: Env,
    id: u128,
    milestone_id: u32,
)
    requires
        state.milestones_wf(),
    ensures
        ({
            let call = Call::Claim { id, milestone_id };
            let after = step(state, env, call);
            let refused = refusal(state, env, call);
            let before = state.milestone_agreements[id];
            let entry = before.entries[milestone_id - 1];
            let entitled = state.contributor_refusal(env, id) is None;
            let found = entitled && is_numbered(before, milestone_id);
            let covered = before.escrow_balance >= outstanding(before.entries);
            &&& refused is None <==> found && entry.milestone.approved && !entry.milestone.claimed
                && covered
            &&& !entitled ==> refused == state.contributor_refusal(env, id)
            &&& entitled && !found ==> refused == Some(
                PayrollFault::Error(PayrollError::MilestoneNotFound),
            )
            &&& found && entry.milestone.claimed ==> refused == Some(
                PayrollFault::Error(PayrollError::MilestoneAlreadyClaimed),
            )
            &&& found && !entry.milestone.claimed && !entry.milestone.approved ==> refused == Some(
                PayrollFault::Error(PayrollError::MilestoneNotApproved),
            )
            &&& found && !entry.milestone.claimed && entry.milestone.approved && !covered
                ==> refused == Some(PayrollFault::Error(PayrollError::InsufficientEscrowBalance))
            &&& refused is None ==> {
                let terms = after.milestone_agreements[id];
                let now = terms.entries[milestone_id - 1];
                &&& changes_one_agreement(state, after, id)
                &&& terms.escrow_balance == before.escrow_balance - entry.milestone.amount
                &&& terms.agreement == MilestoneAgreement {
                    status: status_after_payment(before, terms.entries),
                    ..before.agreement
                }
                &&& terms.entries.len() == before.entries.len()
                &&& forall|k: int|
                    0 <= k < before.entries.len() && k != milestone_id - 1 ==> #[trigger]
                        terms.entries[k] == before.entries[k]
                &&& now.milestone.claimed
                &&& now.milestone.id == entry.milestone.id
                &&& now.milestone.amount == entry.milestone.amount
                &&& now.milestone.approved == entry.milestone.approved
                &&& now.rejected == entry.rejected && now.expired == entry.expired
                &&& after.outbox == state.outbox.push(
                    PayrollEffect::Transfer {
                        token: before.agreement.token,
                        from: env.contract,
                        to: before.agreement.contributor,
                        amount: entry.milestone.amount,
                    },
                )
            }
        }),
{
    let before = state.milestone_agreements[id];
    milestones_are_numbered_from_one(before, milestone_id);
    if state.claim_refusal(env, id, milestone_id) is None {
        assert(before.wf());
        let after = step(state, env, Call::Claim { id, milestone_id });
        lemma_one_agreement(state, id, after.milestone_agreements[id]);
        assert(before.entries[milestone_id - 1].wf());
        crate::milestones::lemma_owed_part(before.entries, milestone_id - 1);
    }
}

/// Whether a claim of a batch is paid: its milestone exists, is approved and not claimed yet,
/// and was not named earlier in the batch.
pub open spec fn is_paid_in_batch(terms: MilestoneTerms, ids: Seq<u32>, i: int) -> bool {
    &&& forall|j: int| 0 <= j < i ==> #[trigger] ids[j] != ids[i]
    &&& is_numbered(terms, ids[i])
    &&& terms.entries[ids[i] - 1].milestone.approved
    &&& !terms.entries[ids[i] - 1].milestone.claimed
}

/// The transfers that the first claims of a batch bring about, in order: one for each that is
/// paid, to the contributor, in the agreement's token, of what the milestone costs.
pub open spec fn transfers_due(
    terms: MilestoneTerms,
    contract: Address,
    ids: Seq<u32>,
    n: int,
) -> Seq<PayrollEffect>
    decreases n,
{
    if n <= 0 {
        Seq::empty()
    } else {
        let earlier = transfers_due(terms, contract, ids, n - 1);
        if is_paid_in_batch(terms, ids, n - 1) {
            earlier.push(
                PayrollEffect::Transfer {
                    token: terms.agreement.token,
                    from: contract,
                    to: terms.agreement.contributor,
                    amount: terms.entries[ids[n - 1] - 1].milestone.amount,
                },
            )
        } else {
            earlier
        }
    }
}

/// How much some transfers move.
pub open spec fn moved(effects: Seq<PayrollEffect>) -> int
    decreases effects.len(),
{
    if effects.len() == 0 {
        0
    } else {
        moved(effects.drop_last()) + match effects.last() {
            PayrollEffect::Transfer { amount, .. } => amount as int,
            _ => 0,
        }
    }
}

proof fn lemma_claim_code(terms: MilestoneTerms, ids: Seq<u32>, i: int)
    requires
        0 <= i < ids.len(),
    ensures
        (terms.claim_code(ids, i) == 0) == is_paid_in_batch(terms, ids, i),
        (terms.claim_code(ids, i) == 1) == exists|j: int| 0 <= j < i && #[trigger] ids[j] == ids[i],
{
    let earlier = ids.take(i);
    if earlier.contains(ids[i]) {
        let j = choose|j: int| 0 <= j < earlier.len() && earlier[j] == ids[i];
        assert(ids[j] == ids[i]);
    }
    if exists|j: int| 0 <= j < i && #[trigger] ids[j] == ids[i] {
        let j = choose|j: int| 0 <= j < i && #[trigger] ids[j] == ids[i];
        assert(earlier[j] == ids[i]);
    }
}

proof fn lemma_transfers(
    terms: MilestoneTerms,
    outbox: Seq<PayrollEffect>,
    contract: Address,
    ids: Seq<u32>,
    n: int,
)
    requires
        0 <= n <= ids.len(),
    ensures
        terms.paying(outbox, contract, ids, n) == outbox + transfers_due(terms, contract, ids, n),
        moved(transfers_due(terms, contract, ids, n)) == terms.claim_total(ids, n),
        transfers_due(terms, contract, ids, n).len() == terms.claim_successes(ids, n),
    decreases n,
{
    if n == 0 {
        assert(outbox + Seq::<PayrollEffect>::empty() =~= outbox);
    } else {
        lemma_transfers(terms, outbox, contract, ids, n - 1);
        lemma_claim_code(terms, ids, n - 1);
        let earlier = transfers_due(terms, contract, ids, n - 1);
        let all = transfers_due(terms, contract, ids, n);
        if is_paid_in_batch(terms, ids, n - 1) {
            assert(all.drop_last() =~= earlier);
            assert((outbox + earlier).push(all.last()) =~= outbox + all);
        }
    }
}

/// A batch pays each claim that can be paid, and those only. What it adds to the outbox is,
/// in order, one transfer for each, of exactly what its milestone costs. What those transfers
/// move is the total that the batch reports, and is what the balance falls by.
pub proof fn batch_moves_what_it_reports(
    state: PayrollState,
    env: Env,
    id: u128,
    ids: Seq<u32>,
)
    requires
        state.milestones_wf(),
        state.batch_claim_refusal(env, id, ids) is None,
    ensures
        ({
            let before = state.milestone_agreements[id];
            let after = state.batch_claiming(env, id, ids);
            let terms = after.milestone_agreements[id];
            let n = ids.len() as int;
            let due = transfers_due(before, env.contract, ids, n);
            &&& after.outbox == state.outbox + due
            &&& moved(due) == before.claim_total(ids, n)
            &&& terms.escrow_balance == before.escrow_balance - moved(due)
            &&& due.len() == before.claim_successes(ids, n)
            &&& outstanding(terms.entries) == outstanding(before.entries) - moved(due)
        }),
{
    let before = state.milestone_agreements[id];
    let n = ids.len() as int;
    assert(before.wf());
    assert(ids.take(n) =~= ids);
    crate::milestones::lemma_batch(before, ids, n);
    lemma_transfers(before, state.outbox, env.contract, ids, n);
    let claimed = before.claimed_entries(ids);
    sums_add_up(before.entries, before.entries[0], Seq::empty(), 0);
    sums_add_up(claimed, claimed[0], Seq::empty(), 0);
}

/// A batch reports on each claim in order: which milestone, whether it is paid, and how much.
/// One that is not paid is told why by a number: 1 for a milestone named before in the batch,
/// 2 for one that does not exist, 3 for one that is not approved, 4 for one claimed already.
pub proof fn batch_reports_on_each_claim(terms: MilestoneTerms, ids: Seq<u32>, i: int)
    requires
        0 <= i < ids.len(),
    ensures
        ({
            let results = terms.claim_results(ids, ids.len() as int);
            let result = results[i];
            let paid = is_paid_in_batch(terms, ids, i);
            let repeated = exists|j: int| 0 <= j < i && #[trigger] ids[j] == ids[i];
            let found = is_numbered(terms, ids[i]);
            let entry = terms.entries[ids[i] - 1];
            &&& results.len() == ids.len()
            &&& result.milestone_id == ids[i]
            &&& result.success == paid
            &&& result.amount_claimed == if paid {
                entry.milestone.amount as int
            } else {
                0
            }
            &&& paid ==> result.error_code == 0
            &&& repeated ==> result.error_code == 1
            &&& !repeated && !found ==> result.error_code == 2
            &&& !repeated && found && entry.milestone.claimed ==> result.error_code == 4
            &&& !repeated && found && !entry.milestone.claimed && !entry.milestone.approved
                ==> result.error_code == 3
        }),
{
    lemma_claim_code(terms, ids, i);
}

/// A batch is taken from the contributor of a running agreement whose deposits cover what is
/// still to be claimed, and names between one and twenty milestones. Those that it pays are
/// claimed then, and no other milestone changes; the last one completes the agreement.
pub proof fn batch_claims_what_it_pays(
    state: PayrollState,
    env: Env,
    id: u128,
    ids: Seq<u32>,
    k: int,
)
    requires
        state.milestones_wf(),
    ensures
        ({
            let call = Call::BatchClaim { id, ids };
            let after = step(state, env, call);
            let refused = refusal(state, env, call);
            let before = state.milestone_agreements[id];
            let sized = 1 <= ids.len() && ids.len() <= 20;
            let entitled = sized && state.contributor_refusal(env, id) is None;
            let covered = before.escrow_balance >= outstanding(before.entries);
            &&& refused is None <==> entitled && covered
            &&& ids.len() == 0 ==> refused == Some(PayrollFault::EmptyBatch)
            &&& ids.len() > 20 ==> refused == Some(PayrollFault::Error(PayrollError::BatchTooLarge))
            &&& sized && !entitled ==> refused == state.contributor_refusal(env, id)
            &&& entitled && !covered ==> refused == Some(
                PayrollFault::Error(PayrollError::InsufficientEscrowBalance),
            )
            &&& refused is None ==> {
                let terms = after.milestone_agreements[id];
                let was = before.entries[k];
                let now = terms.entries[k];
                let paid = exists|i: int|
                    0 <= i < ids.len() && #[trigger] ids[i] == k + 1 && is_paid_in_batch(
                        before,
                        ids,
                        i,
                    );
                &&& changes_one_agreement(state, after, id)
                &&& terms.agreement == MilestoneAgreement {
                    status: status_after_payment(before, terms.entries),
                    ..before.agreement
                }
                &&& terms.entries.len() == before.entries.len()
                &&& 0 <= k < before.entries.len() ==> {
                    &&& now.milestone.claimed == (was.milestone.claimed || paid)
                    &&& now.milestone.id == was.milestone.id
                    &&& now.milestone.amount == was.milestone.amount
                    &&& now.milestone.approved == was.milestone.approved
                    &&& now.rejected == was.rejected && now.expired == was.expired
                }
            }
        }),
{
    let before = state.milestone_agreements[id];
    milestones_are_numbered_from_one(before, 1);
    if state.batch_claim_refusal(env, id, ids) is None {
        assert(before.wf());
        let after = step(state, env, Call::BatchClaim { id, ids });
        let terms = after.milestone_agreements[id];
        lemma_one_agreement(state, id, terms);
        assert(after.milestone_agreements.remove(id) =~= state.milestone_agreements.remove(id));
        if 0 <= k < before.entries.len() {
            let number = (k + 1) as u32;
            if ids.contains(number) && before.entries[k].is_payable() {
                let any = choose|i: int| 0 <= i < ids.len() && ids[i] == number;
                let first = lemma_first(ids, number, any);
                assert(is_paid_in_batch(before, ids, first));
            }
        }
    }
}

/// The first place at which something stands in a list.
proof fn lemma_first(ids: Seq<u32>, number: u32, any: int) -> (first: int)
    requires
        0 <= any < ids.len(),
        ids[any] == number,
    ensures
        0 <= first <= any,
        ids[first] == number,
        forall|j: int| 0 <= j < first ==> #[trigger] ids[j] != number,
    decreases any,
{
    if exists|j: int| 0 <= j < any && #[trigger] ids[j] == number {
        let j = choose|j: int| 0 <= j < any && #[trigger] ids[j] == number;
        lemma_first(ids, number, j)
    } else {
        any
    }
}

/// Pausing and resuming change the status of one agreement and nothing else: the payroll or
/// escrow agreement of the number if there is one, and the milestone agreement otherwise.
/// Its employer has to authorize it. What is paused has to be active, or a milestone
/// agreement that was just created; what is resumed has to be paused, and is active then.
pub proof fn pause_and_resume_change_the_status(state: PayrollState, env: Env, id: u128)
    ensures
        ({
            let paused = step(state, env, Call::Pause { id });
            let resumed = step(state, env, Call::Resume { id });
            let pausing = refusal(state, env, Call::Pause { id });
            let resuming = refusal(state, env, Call::Resume { id });
            let signed = env.authorized@.contains(state.agreements[id].employer);
            let status = state.agreements[id].status;
            state.agreements.contains_key(id) ==> {
                &&& pausing is None <==> signed && status == AgreementStatus::Active
                &&& resuming is None <==> signed && status == AgreementStatus::Paused
                &&& !signed ==> pausing == Some(PayrollFault::Unauthenticated) && resuming == Some(
                    PayrollFault::Unauthenticated,
                )
                &&& signed && status != AgreementStatus::Active ==> pausing == Some(
                    PayrollFault::Error(PayrollError::AgreementNotActivated),
                )
                &&& signed && status != AgreementStatus::Paused ==> resuming == Some(
                    PayrollFault::AgreementNotPaused,
                )
                &&& pausing is None ==> paused == PayrollState {
                    agreements: state.agreements.insert(
                        id,
                        crate::storage::Agreement {
                            status: AgreementStatus::Paused,
                            ..state.agreements[id]
                        },
                    ),
                    ..state
                }
                &&& resuming is None ==> resumed == PayrollState {
                    agreements: state.agreements.insert(
                        id,
                        crate::storage::Agreement {
                            status: AgreementStatus::Active,
                            ..state.agreements[id]
                        },
                    ),
                    ..state
                }
            }
        }),
        ({
            let paused = step(state, env, Call::Pause { id });
            let resumed = step(state, env, Call::Resume { id });
            let pausing = refusal(state, env, Call::Pause { id });
            let resuming = refusal(state, env, Call::Resume { id });
            let before = state.milestone_agreements[id];
            let entitled = state.employer_refusal(env, id) is None;
            let invalid = Some(PayrollFault::Error(PayrollError::MilestoneAgreementInvalidStatus));
            !state.agreements.contains_key(id) ==> {
                &&& !entitled ==> pausing == state.employer_refusal(env, id) && resuming
                    == state.employer_refusal(env, id)
                &&& entitled && is_running(before) ==> pausing is None
                &&& entitled && !is_running(before) ==> pausing == invalid
                &&& entitled && before.agreement.status == AgreementStatus::Paused
                    ==> resuming is None
                &&& entitled && before.agreement.status != AgreementStatus::Paused ==> resuming
                    == invalid
                &&& pausing is None ==> {
                    let terms = paused.milestone_agreements[id];
                    &&& changes_one_agreement(state, paused, id)
                    &&& paused.outbox == state.outbox
                    &&& terms == MilestoneTerms {
                        agreement: MilestoneAgreement {
                            status: AgreementStatus::Paused,
                            ..before.agreement
                        },
                        ..before
                    }
                }
                &&& resuming is None ==> {
                    let terms = resumed.milestone_agreements[id];
                    &&& changes_one_agreement(state, resumed, id)
                    &&& resumed.outbox == state.outbox
                    &&& terms == MilestoneTerms {
                        agreement: MilestoneAgreement {
                            status: AgreementStatus::Active,
                            ..before.agreement
                        },
                        ..before
                    }
                }
            }
        }),
{
    if !state.agreements.contains_key(id) {
        let terms = state.milestone_agreements[id];
        lemma_one_agreement(state, id, terms.with_status(AgreementStatus::Paused));
        lemma_one_agreement(state, id, terms.with_status(AgreementStatus::Active));
    }
}

/// Each call about a milestone agreement makes the step that is named after it, on the
/// agreement and the milestone that it names, and is told why where it is turned down.
pub proof fn calls_make_their_step(
    contract: &mut PayrollContract,
    env: Env,
    id: u128,
    milestone_id: u32,
    from: Address,
    amount: i128,
    reason: Vec<u8>,
    r: Result<(), PayrollFault>,
)
    ensures
        call_ensures(
            PayrollContract::fund_milestone_agreement,
            (old(contract), &env, id, from, amount),
            r,
        ) ==> crate::laws::is_answered(
            refusal(old(contract)@, env, Call::Fund { id, from, amount }),
            old(contract)@,
            step(old(contract)@, env, Call::Fund { id, from, amount }),
            final(contract)@,
            r,
        ),
        call_ensures(
            PayrollContract::add_milestone,
            (old(contract), &env, id, amount),
            r,
        ) ==> crate::laws::is_answered(
            refusal(old(contract)@, env, Call::Add { id, amount }),
            old(contract)@,
            step(old(contract)@, env, Call::Add { id, amount }),
            final(contract)@,
            r,
        ),
        call_ensures(
            PayrollContract::approve_milestone,
            (old(contract), &env, id, milestone_id),
            r,
        ) ==> crate::laws::is_answered(
            refusal(old(contract)@, env, Call::Approve { id, milestone_id }),
            old(contract)@,
            step(old(contract)@, env, Call::Approve { id, milestone_id }),
            final(contract)@,
            r,
        ),
        call_ensures(
            PayrollContract::reject_milestone,
            (old(contract), &env, id, milestone_id, &reason),
            r,
        ) ==> crate::laws::is_answered(
            refusal(old(contract)@, env, Call::Reject { id, milestone_id, reason: reason@ }),
            old(contract)@,
            step(old(contract)@, env, Call::Reject { id, milestone_id, reason: reason@ }),
            final(contract)@,
            r,
        ),
        call_ensures(
            PayrollContract::expire_milestone,
            (old(contract), &env, id, milestone_id),
            r,
        ) ==> crate::laws::is_answered(
            refusal(old(contract)@, env, Call::Expire { id, milestone_id }),
            old(contract)@,
            step(old(contract)@, env, Call::Expire { id, milestone_id }),
            final(contract)@,
            r,
        ),
        call_ensures(
            PayrollContract::claim_milestone,
            (old(contract), &env, id, milestone_id),
            r,
        ) ==> crate::laws::is_answered(
            refusal(old(contract)@, env, Call::Claim { id, milestone_id }),
            old(contract)@,
            step(old(contract)@, env, Call::Claim { id, milestone_id }),
            final(contract)@,
            r,
        ),
        call_ensures(
            PayrollContract::pause_agreement,
            (old(contract), &env, id),
            r,
        ) ==> crate::laws::is_answered(
            refusal(old(contract)@, env, Call::Pause { id }),
            old(contract)@,
            step(old(contract)@, env, Call::Pause { id }),
            final(contract)@,
            r,
        ),
        call_ensures(
            PayrollContract::resume_agreement,
            (old(contract), &env, id),
            r,
        ) ==> crate::laws::is_answered(
            refusal(old(contract)@, env, Call::Resume { id }),
            old(contract)@,
            step(old(contract)@, env, Call::Resume { id }),
            final(contract)@,
            r,
        ),
{
}

/// A deposit that is taken moves the given amount from the employer to the contract, in the
/// agreement's token, and the balance on record grows by as much.
pub proof fn deposit_is_the_amount(
    contract: &mut PayrollContract,
    env: Env,
    id: u128,
    from: Address,
    amount: i128,
    r: Result<(), PayrollFault>,
)
    requires
        old(contract)@.milestones_wf(),
        call_ensures(
            PayrollContract::fund_milestone_agreement,
            (contract, &env, id, from, amount),
            r,
        ),
        r is Ok,
    ensures
        ({
            let before = old(contract)@.milestone_agreements[id];
            let after = final(contract)@.milestone_agreements[id];
            &&& after.escrow_balance == before.escrow_balance + amount
            &&& final(contract).outbox@ == old(contract).outbox@.push(
                PayrollEffect::Transfer {
                    token: before.agreement.token,
                    from,
                    to: env.contract,
                    amount,
                },
            )
        }),
{
    deposit_moves_what_it_records(old(contract)@, env, id, from, amount);
    assert(old(contract)@.milestone_agreements[id].wf());
    let outbox = final(contract)@.outbox;
    assert(outbox =~= outbox.drop_last().push(outbox.last()));
}

/// A new agreement comes about as it should, and its number is what the caller gets.
pub proof fn creation_tells_the_number(
    contract: &mut PayrollContract,
    env: Env,
    employer: Address,
    contributor: Address,
    token: Address,
    amounts: Vec<i128>,
    r: Result<u128, PayrollFault>,
)
    requires
        call_ensures(
            PayrollContract::create_milestone_agreement,
            (contract, &env, employer, contributor, token, amounts),
            r,
        ),
    ensures
        ({
            let call = Call::Create { employer, contributor, token, amounts: amounts@ };
            &&& crate::laws::is_answered(
                refusal(old(contract)@, env, call),
                old(contract)@,
                step(old(contract)@, env, call),
                final(contract)@,
                r,
            )
            &&& r matches Ok(id) ==> {
                let terms = final(contract)@.milestone_agreements[id];
                &&& id == old(contract).milestone_agreement_counter + 1
                &&& final(contract)@.milestone_agreements.contains_key(id)
                &&& terms.agreement.employer == employer
                &&& terms.agreement.contributor == contributor
                &&& terms.agreement.token == token
                &&& terms.entries.len() == amounts@.len()
                &&& forall|i: int|
                    0 <= i < amounts@.len() ==> (#[trigger] terms.entries[i]).milestone.amount
                        == amounts@[i]
            }
        }),
{
    new_agreement_is_as_given(
        old(contract)@,
        env,
        employer,
        contributor,
        token,
        amounts@,
    );
}

/// A batch pays, in order, each claim that can be paid, what its milestone costs. It reports
/// how much that was in all, how many were paid and how many were not, and on each claim.
pub proof fn batch_reports_what_it_does(
    contract: &mut PayrollContract,
    env: Env,
    id: u128,
    ids: Vec<u32>,
    i: int,
    r: Result<BatchMilestoneResult, PayrollFault>,
)
    requires
        old(contract)@.milestones_wf(),
        call_ensures(PayrollContract::batch_claim_milestones, (contract, &env, id, ids), r),
    ensures
        ({
            let call = Call::BatchClaim { id, ids: ids@ };
            let before = old(contract)@.milestone_agreements[id];
            let due = transfers_due(before, env.contract, ids@, ids@.len() as int);
            &&& crate::laws::is_answered(
                refusal(old(contract)@, env, call),
                old(contract)@,
                step(old(contract)@, env, call),
                final(contract)@,
                r,
            )
            &&& r matches Ok(batch) ==> {
                &&& final(contract).outbox@ == old(contract).outbox@ + due
                &&& batch.agreement_id == id
                &&& batch.total_claimed == moved(due)
                &&& batch.successful_claims == due.len()
                &&& batch.failed_claims == ids@.len() - due.len()
                &&& batch.results@.len() == ids@.len()
                &&& 0 <= i < ids@.len() ==> {
                    let result = batch.results@[i];
                    let paid = is_paid_in_batch(before, ids@, i);
                    &&& result.milestone_id == ids@[i]
                    &&& result.success == paid
                    &&& paid ==> result.amount_claimed == before.entries[ids@[i]
                        - 1].milestone.amount
                    &&& !paid ==> result.amount_claimed == 0
                }
            }
        }),
{
    if refusal(old(contract)@, env, Call::BatchClaim { id, ids: ids@ }) is None {
        batch_moves_what_it_reports(old(contract)@, env, id, ids@);
        let before = old(contract)@.milestone_agreements[id];
        batch_reports_on_each_claim(before, ids@, 0);
        if 0 <= i < ids@.len() {
            batch_reports_on_each_claim(before, ids@, i);
        }
    }
}

/// What is told of an agreement is what is on record: the agreement itself, how many
/// milestones it has, and the milestone of a number. Milestones are numbered from one.
pub proof fn queries_tell_what_is_kept(
    contract: PayrollContract,
    id: u128,
    milestone_id: u32,
    agreement: Option<Agreement>,
    count: u32,
    milestone: Option<Milestone>,
)
    ensures
        call_ensures(PayrollContract::get_agreement, (&contract, id), agreement) ==> {
            &&& agreement is Some <==> contract.agreements@.contains_key(id)
            &&& agreement is Some ==> agreement->0 == contract.agreements@[id]
        },
        call_ensures(PayrollContract::get_milestone_count, (&contract, id), count) ==> {
            let record = contract.milestone_agreements@[id];
            let known = contract.milestone_agreements@.contains_key(id);
            &&& known ==> count == record.entries@.len()
            &&& !known ==> count == 0
        },
        call_ensures(PayrollContract::get_milestone, (&contract, id, milestone_id), milestone)
            ==> {
            let record = contract.milestone_agreements@[id];
            let known = contract.milestone_agreements@.contains_key(id) && 1 <= milestone_id
                && milestone_id <= record.entries@.len();
            &&& known ==> milestone == Some(record.entries@[milestone_id - 1].milestone)
            &&& !known ==> milestone is None
        },
{
}

/// A new milestone is neither approved nor claimed, and one that is approved can be claimed
/// once.
pub proof fn milestone_starts_with_nothing_done(
    id: u32,
    amount: i128,
    new: Milestone,
    milestone: Milestone,
    claimable: bool,
)
    ensures
        call_ensures(Milestone::new, (id, amount), new) ==> new.id == id && new.amount == amount
            && !new.approved && !new.claimed,
        call_ensures(Milestone::can_claim, (&milestone,), claimable) ==> (claimable
            <==> milestone.approved && !milestone.claimed),
{
}

} // verus!
