//! Agreements that are paid by milestones.
//!
//! The employer funds an agreement and approves its milestones; the contributor
//! claims them, once each. A milestone that was rejected or has expired is never
//! paid. What was deposited is accounted for by agreement, so that tokens that
//! reach the contract otherwise pay for nothing.

use vstd::prelude::*;

use crate::address::Address;
use crate::env::Env;
use crate::payroll::{
    MilestoneExpiredEvent, PayrollContract, PayrollEffect, PayrollFault, PayrollState,
};
use crate::storage::{
    Agreement, AgreementStatus, BatchMilestoneResult, Milestone, MilestoneAgreement,
    MilestoneClaimResult, PaymentType, PayrollError, MAX_BATCH_SIZE,
};

verus! {

/// A milestone, and whether it was turned down or ran out.
#[derive(Clone, Copy, Debug, PartialEq, Eq, Structural)]
pub struct MilestoneEntry {
    pub milestone: Milestone,
    pub rejected: bool,
    pub expired: bool,
}

/// What the contract keeps of a milestone agreement.
pub struct MilestoneRecord {
    pub agreement: MilestoneAgreement,
    /// What was deposited for the agreement and not paid out yet.
    pub escrow_balance: i128,
    /// The milestones in order of their numbers, which start at 1.
    pub entries: Vec<MilestoneEntry>,
}

/// A milestone agreement, as mathematical values.
#[verifier::ext_equal]
pub struct MilestoneTerms {
    pub agreement: MilestoneAgreement,
    pub escrow_balance: i128,
    pub entries: Seq<MilestoneEntry>,
}

impl View for MilestoneRecord {
    type V = MilestoneTerms;

    open spec fn view(&self) -> MilestoneTerms {
        MilestoneTerms {
            agreement: self.agreement,
            escrow_balance: self.escrow_balance,
            entries: self.entries@,
        }
    }
}

/// What the milestones cost that are not claimed yet.
pub open spec fn owed(entries: Seq<MilestoneEntry>) -> int
    decreases entries.len(),
{
    if entries.len() == 0 {
        0
    } else {
        owed(entries.drop_last()) + if entries.last().milestone.claimed {
            0
        } else {
            entries.last().milestone.amount as int
        }
    }
}

/// What the milestones cost together.
pub open spec fn cost(entries: Seq<MilestoneEntry>) -> int
    decreases entries.len(),
{
    if entries.len() == 0 {
        0
    } else {
        cost(entries.drop_last()) + entries.last().milestone.amount
    }
}

/// What a list of amounts comes to.
pub open spec fn sum(amounts: Seq<i128>) -> int
    decreases amounts.len(),
{
    if amounts.len() == 0 {
        0
    } else {
        sum(amounts.drop_last()) + amounts.last()
    }
}

/// The milestones of a new agreement: one for each amount, numbered from 1.
pub open spec fn new_entries(amounts: Seq<i128>) -> Seq<MilestoneEntry> {
    Seq::new(amounts.len(), |i: int| new_entry((i + 1) as u32, amounts[i]))
}

/// A milestone that nothing happened to yet.
pub open spec fn new_entry(id: u32, amount: i128) -> MilestoneEntry {
    MilestoneEntry {
        milestone: Milestone { id, amount, approved: false, claimed: false },
        rejected: false,
        expired: false,
    }
}

/// Whether a text says nothing: every character is a space, a tab, a line feed, a
/// form feed or a carriage return.
pub open spec fn is_blank(text: Seq<u8>) -> bool {
    forall|i: int| 0 <= i < text.len() ==> is_space(#[trigger] text[i])
}

pub open spec fn is_space(c: u8) -> bool {
    c == 32 || c == 9 || c == 10 || c == 12 || c == 13
}

impl MilestoneEntry {
    /// A milestone is claimed only once it is approved, and comes to one end at most:
    /// approval, rejection or expiry.
    pub open spec fn wf(self) -> bool {
        &&& self.milestone.amount > 0
        &&& self.milestone.claimed ==> self.milestone.approved
        &&& self.milestone.approved ==> !self.rejected && !self.expired
        &&& !(self.rejected && self.expired)
    }

    /// Whether the milestone is claimed if the contributor asks for it.
    pub open spec fn is_payable(self) -> bool {
        self.milestone.approved && !self.milestone.claimed
    }

    pub open spec fn approving(self) -> MilestoneEntry {
        MilestoneEntry { milestone: Milestone { approved: true, ..self.milestone }, ..self }
    }

    pub open spec fn claiming(self) -> MilestoneEntry {
        MilestoneEntry { milestone: Milestone { claimed: true, ..self.milestone }, ..self }
    }

    pub open spec fn rejecting(self) -> MilestoneEntry {
        MilestoneEntry { rejected: true, ..self }
    }

    pub open spec fn expiring(self) -> MilestoneEntry {
        MilestoneEntry { expired: true, ..self }
    }
}

impl MilestoneTerms {
    /// What holds of a milestone agreement whatever is called.
    pub open spec fn wf(self) -> bool {
        &&& 0 < self.entries.len() <= u32::MAX
        &&& forall|i: int|
            0 <= i < self.entries.len() ==> (#[trigger] self.entries[i]).wf()
                && self.entries[i].milestone.id == i + 1
        &&& self.agreement.total_amount == cost(self.entries)
        &&& self.agreement.payment_type == PaymentType::MilestoneBased
        &&& self.escrow_balance >= 0
        &&& self.agreement.status == AgreementStatus::Completed <==> self.is_paid()
    }

    /// Whether there is a milestone of this number.
    pub open spec fn has(self, milestone_id: u32) -> bool {
        1 <= milestone_id <= self.entries.len()
    }

    /// The milestone of this number.
    pub open spec fn at(self, milestone_id: u32) -> MilestoneEntry {
        self.entries[milestone_id - 1]
    }

    pub open spec fn with(self, milestone_id: u32, entry: MilestoneEntry) -> MilestoneTerms {
        MilestoneTerms { entries: self.entries.update(milestone_id - 1, entry), ..self }
    }

    /// Whether the milestones can be worked on.
    pub open spec fn is_open(self) -> bool {
        self.agreement.status == AgreementStatus::Created || self.agreement.status
            == AgreementStatus::Active
    }

    /// Whether the escrow covers every milestone that is not claimed yet.
    pub open spec fn is_covered(self) -> bool {
        self.escrow_balance >= owed(self.entries)
    }

    /// Whether every milestone is claimed.
    pub open spec fn is_paid(self) -> bool {
        forall|i: int|
            0 <= i < self.entries.len() ==> (#[trigger] self.entries[i]).milestone.claimed
    }

    pub open spec fn with_status(self, status: AgreementStatus) -> MilestoneTerms {
        MilestoneTerms { agreement: MilestoneAgreement { status, ..self.agreement }, ..self }
    }

    /// The terms, completed if every milestone is claimed.
    pub open spec fn settled(self) -> MilestoneTerms {
        if self.is_paid() {
            self.with_status(AgreementStatus::Completed)
        } else {
            self
        }
    }

    /// How a claim in a batch goes: 0 if it is paid, or else why it is not.
    pub open spec fn claim_code(self, ids: Seq<u32>, i: int) -> u32 {
        if ids.take(i).contains(ids[i]) {
            1
        } else if !self.has(ids[i]) {
            2
        } else if self.at(ids[i]).milestone.claimed {
            4
        } else if !self.at(ids[i]).milestone.approved {
            3
        } else {
            0
        }
    }

    /// How a claim in a batch goes.
    pub open spec fn claim_result(self, ids: Seq<u32>, i: int) -> MilestoneClaimResult {
        let code = self.claim_code(ids, i);
        MilestoneClaimResult {
            milestone_id: ids[i],
            success: code == 0,
            amount_claimed: if code == 0 {
                self.at(ids[i]).milestone.amount
            } else {
                0
            },
            error_code: code,
        }
    }

    /// How the first claims of a batch go.
    pub open spec fn claim_results(self, ids: Seq<u32>, n: int) -> Seq<MilestoneClaimResult> {
        Seq::new(n as nat, |i: int| self.claim_result(ids, i))
    }

    /// What the first claims of a batch pay.
    pub open spec fn claim_total(self, ids: Seq<u32>, n: int) -> int
        decreases n,
    {
        if n <= 0 {
            0
        } else {
            self.claim_total(ids, n - 1) + self.claim_result(ids, n - 1).amount_claimed
        }
    }

    /// How many of the first claims of a batch are paid.
    pub open spec fn claim_successes(self, ids: Seq<u32>, n: int) -> int
        decreases n,
    {
        if n <= 0 {
            0
        } else {
            self.claim_successes(ids, n - 1) + if self.claim_code(ids, n - 1) == 0 {
                1int
            } else {
                0int
            }
        }
    }

    /// The milestones after a batch: what was asked for and is payable is claimed.
    pub open spec fn claimed_entries(self, ids: Seq<u32>) -> Seq<MilestoneEntry> {
        Seq::new(
            self.entries.len(),
            |k: int|
                if ids.contains((k + 1) as u32) && self.entries[k].is_payable() {
                    self.entries[k].claiming()
                } else {
                    self.entries[k]
                },
        )
    }

    /// The payment of a milestone.
    pub open spec fn payment(self, contract: Address, amount: i128) -> PayrollEffect {
        PayrollEffect::Transfer {
            token: self.agreement.token,
            from: contract,
            to: self.agreement.contributor,
            amount,
        }
    }

    /// What the outbox holds after the first claims of a batch.
    pub open spec fn paying(
        self,
        outbox: Seq<PayrollEffect>,
        contract: Address,
        ids: Seq<u32>,
        n: int,
    ) -> Seq<PayrollEffect>
        decreases n,
    {
        if n <= 0 {
            outbox
        } else {
            let before = self.paying(outbox, contract, ids, n - 1);
            if self.claim_code(ids, n - 1) == 0 {
                before.push(
                    self.payment(contract, self.claim_result(ids, n - 1).amount_claimed),
                )
            } else {
                before
            }
        }
    }
}

impl PayrollState {
    /// What holds of the milestone agreements whatever is called.
    pub open spec fn milestones_wf(self) -> bool {
        forall|id: u128| #[trigger]
            self.milestone_agreements.contains_key(id) ==> {
                &&& 0 < id <= self.milestone_agreement_counter
                &&& self.milestone_agreements[id].agreement.id == id
                &&& self.milestone_agreements[id].wf()
            }
    }

    pub open spec fn with_terms(self, id: u128, terms: MilestoneTerms) -> PayrollState {
        PayrollState { milestone_agreements: self.milestone_agreements.insert(id, terms), ..self }
    }

    /// Why `create_milestone_agreement` is turned down, if it is.
    pub open spec fn create_milestones_refusal(
        self,
        env: Env,
        employer: Address,
        amounts: Seq<i128>,
    ) -> Option<PayrollFault> {
        if !env.authorizes(employer) {
            Some(PayrollFault::Unauthenticated)
        } else if amounts.len() == 0 {
            Some(PayrollFault::Error(PayrollError::EmptyMilestoneList))
        } else if exists|i: int| 0 <= i < amounts.len() && #[trigger] amounts[i] <= 0 {
            Some(PayrollFault::Error(PayrollError::MilestoneAmountInvalid))
        } else if amounts.len() > u32::MAX {
            Some(PayrollFault::MilestoneIdOverflow)
        } else if sum(amounts) > i128::MAX {
            Some(PayrollFault::TotalAmountOverflow)
        } else if self.milestone_agreement_counter == u128::MAX {
            Some(PayrollFault::AgreementIdOverflow)
        } else {
            None
        }
    }

    /// The state in which a milestone agreement was created.
    pub open spec fn creating_milestones(
        self,
        employer: Address,
        contributor: Address,
        token: Address,
        amounts: Seq<i128>,
    ) -> PayrollState {
        let id = (self.milestone_agreement_counter + 1) as u128;
        PayrollState { milestone_agreement_counter: id, ..self }.with_terms(
            id,
            MilestoneTerms {
                agreement: MilestoneAgreement {
                    id,
                    employer,
                    contributor,
                    token,
                    payment_type: PaymentType::MilestoneBased,
                    status: AgreementStatus::Created,
                    total_amount: sum(amounts) as i128,
                },
                escrow_balance: 0,
                entries: new_entries(amounts),
            },
        )
    }

    /// The outcome of `create_milestone_agreement`.
    pub open spec fn after_create_milestones(
        self,
        env: Env,
        employer: Address,
        contributor: Address,
        token: Address,
        amounts: Seq<i128>,
    ) -> (PayrollState, Result<u128, PayrollFault>) {
        match self.create_milestones_refusal(env, employer, amounts) {
            Some(fault) => (self, Err(fault)),
            None => (
                self.creating_milestones(employer, contributor, token, amounts),
                Ok((self.milestone_agreement_counter + 1) as u128),
            ),
        }
    }

    /// Why `fund_milestone_agreement` is turned down, if it is.
    pub open spec fn fund_refusal(
        self,
        env: Env,
        id: u128,
        from: Address,
        amount: i128,
    ) -> Option<PayrollFault> {
        let terms = self.milestone_agreements[id];
        if !self.milestone_agreements.contains_key(id) {
            Some(PayrollFault::Error(PayrollError::AgreementNotFound))
        } else if !env.authorizes(from) {
            Some(PayrollFault::Unauthenticated)
        } else if from != terms.agreement.employer {
            Some(PayrollFault::NotTheEmployer)
        } else if amount <= 0 {
            Some(PayrollFault::AmountNotPositive)
        } else if terms.agreement.status == AgreementStatus::Cancelled || terms.agreement.status
            == AgreementStatus::Completed {
            Some(PayrollFault::AgreementClosed)
        } else if terms.escrow_balance + amount > i128::MAX {
            Some(PayrollFault::EscrowBalanceOverflow)
        } else {
            None
        }
    }

    /// The state in which a deposit was made for an agreement.
    pub open spec fn funding(
        self,
        env: Env,
        id: u128,
        from: Address,
        amount: i128,
    ) -> PayrollState {
        let terms = self.milestone_agreements[id];
        self.with_terms(
            id,
            MilestoneTerms { escrow_balance: (terms.escrow_balance + amount) as i128, ..terms },
        ).sending(
            PayrollEffect::Transfer {
                token: terms.agreement.token,
                from,
                to: env.contract,
                amount,
            },
        )
    }

    /// Why a call that is the employer's to make is turned down, if it is.
    pub open spec fn employer_refusal(self, env: Env, id: u128) -> Option<PayrollFault> {
        if !self.milestone_agreements.contains_key(id) {
            Some(PayrollFault::Error(PayrollError::AgreementNotFound))
        } else if !env.authorizes(self.milestone_agreements[id].agreement.employer) {
            Some(PayrollFault::Unauthenticated)
        } else {
            None
        }
    }

    /// Why `add_milestone` is turned down, if it is.
    pub open spec fn add_milestone_refusal(
        self,
        env: Env,
        id: u128,
        amount: i128,
    ) -> Option<PayrollFault> {
        let terms = self.milestone_agreements[id];
        match self.employer_refusal(env, id) {
            Some(fault) => Some(fault),
            None => if terms.agreement.status != AgreementStatus::Created {
                Some(PayrollFault::Error(PayrollError::MilestoneAgreementInvalidStatus))
            } else if amount <= 0 {
                Some(PayrollFault::Error(PayrollError::MilestoneAmountInvalid))
            } else if terms.entries.len() >= u32::MAX {
                Some(PayrollFault::MilestoneIdOverflow)
            } else if terms.agreement.total_amount + amount > i128::MAX {
                Some(PayrollFault::TotalAmountOverflow)
            } else {
                None
            },
        }
    }

    /// The state in which a milestone was added to an agreement.
    pub open spec fn adding_milestone(self, id: u128, amount: i128) -> PayrollState {
        let terms = self.milestone_agreements[id];
        self.with_terms(
            id,
            MilestoneTerms {
                agreement: MilestoneAgreement {
                    total_amount: (terms.agreement.total_amount + amount) as i128,
                    ..terms.agreement
                },
                entries: terms.entries.push(
                    new_entry((terms.entries.len() + 1) as u32, amount),
                ),
                ..terms
            },
        )
    }

    /// Why an employer's call about a milestone is turned down whatever it asks for,
    /// if it is.
    pub open spec fn milestone_refusal(
        self,
        env: Env,
        id: u128,
        milestone_id: u32,
    ) -> Option<PayrollFault> {
        match self.employer_refusal(env, id) {
            Some(fault) => Some(fault),
            None => if !self.milestone_agreements[id].is_open() {
                Some(PayrollFault::Error(PayrollError::MilestoneAgreementInvalidStatus))
            } else if !self.milestone_agreements[id].has(milestone_id) {
                Some(PayrollFault::Error(PayrollError::MilestoneNotFound))
            } else {
                None
            },
        }
    }

    /// Why `approve_milestone` is turned down, if it is.
    pub open spec fn approve_refusal(
        self,
        env: Env,
        id: u128,
        milestone_id: u32,
    ) -> Option<PayrollFault> {
        let entry = self.milestone_agreements[id].at(milestone_id);
        match self.milestone_refusal(env, id, milestone_id) {
            Some(fault) => Some(fault),
            None => if entry.milestone.approved {
                Some(PayrollFault::Error(PayrollError::MilestoneAlreadyApproved))
            } else if entry.rejected {
                Some(PayrollFault::Error(PayrollError::MilestoneAlreadyRejected))
            } else if entry.expired {
                Some(PayrollFault::Error(PayrollError::MilestoneAlreadyExpired))
            } else if !self.milestone_agreements[id].is_covered() {
                Some(PayrollFault::Error(PayrollError::InsufficientEscrowBalance))
            } else {
                None
            },
        }
    }

    /// Why `reject_milestone` is turned down, if it is.
    pub open spec fn reject_refusal(
        self,
        env: Env,
        id: u128,
        milestone_id: u32,
        reason: Seq<u8>,
    ) -> Option<PayrollFault> {
        let entry = self.milestone_agreements[id].at(milestone_id);
        match self.milestone_refusal(env, id, milestone_id) {
            Some(fault) => Some(fault),
            None => if entry.rejected {
                Some(PayrollFault::Error(PayrollError::MilestoneAlreadyRejected))
            } else if entry.milestone.claimed {
                Some(PayrollFault::Error(PayrollError::MilestoneAlreadyClaimedCannotReject))
            } else if entry.milestone.approved {
                Some(PayrollFault::Error(PayrollError::MilestoneAlreadyApprovedCannotReject))
            } else if entry.expired {
                Some(PayrollFault::Error(PayrollError::MilestoneAlreadyExpired))
            } else if is_blank(reason) {
                Some(PayrollFault::Error(PayrollError::MilestoneRejectionReasonEmpty))
            } else {
                None
            },
        }
    }

    /// Why `expire_milestone` is turned down, if it is.
    pub open spec fn expire_refusal(
        self,
        env: Env,
        id: u128,
        milestone_id: u32,
    ) -> Option<PayrollFault> {
        let entry = self.milestone_agreements[id].at(milestone_id);
        match self.milestone_refusal(env, id, milestone_id) {
            Some(fault) => Some(fault),
            None => if entry.expired {
                Some(PayrollFault::Error(PayrollError::MilestoneAlreadyExpired))
            } else if entry.milestone.claimed {
                Some(PayrollFault::Error(PayrollError::MilestoneAlreadyClaimed))
            } else if entry.milestone.approved {
                Some(PayrollFault::Error(PayrollError::MilestoneAlreadyApproved))
            } else if entry.rejected {
                Some(PayrollFault::Error(PayrollError::MilestoneAlreadyRejected))
            } else {
                None
            },
        }
    }

    /// The state in which a milestone was changed.
    pub open spec fn with_entry(
        self,
        id: u128,
        milestone_id: u32,
        entry: MilestoneEntry,
    ) -> PayrollState {
        self.with_terms(id, self.milestone_agreements[id].with(milestone_id, entry))
    }

    /// The state in which a milestone was marked as expired, and the hook was told.
    pub open spec fn expiring(self, id: u128, milestone_id: u32) -> PayrollState {
        let entry = self.milestone_agreements[id].at(milestone_id);
        let marked = self.with_entry(id, milestone_id, entry.expiring()).sending(
            PayrollEffect::MilestoneExpired(
                MilestoneExpiredEvent { agreement_id: id, milestone_id },
            ),
        );
        match self.milestone_hook_contract {
            Some(hook) => marked.sending(
                PayrollEffect::ExpiryHook { hook, agreement_id: id, milestone_id },
            ),
            None => marked,
        }
    }

    /// Why a call that is the contributor's to make is turned down whatever it is
    /// about, if it is.
    pub open spec fn contributor_refusal(self, env: Env, id: u128) -> Option<PayrollFault> {
        if !self.milestone_agreements.contains_key(id) {
            Some(PayrollFault::Error(PayrollError::AgreementNotFound))
        } else if !env.authorizes(self.milestone_agreements[id].agreement.contributor) {
            Some(PayrollFault::Unauthenticated)
        } else if !self.milestone_agreements[id].is_open() {
            Some(PayrollFault::Error(PayrollError::MilestoneAgreementInvalidStatus))
        } else {
            None
        }
    }

    /// Why `claim_milestone` is turned down, if it is.
    pub open spec fn claim_refusal(
        self,
        env: Env,
        id: u128,
        milestone_id: u32,
    ) -> Option<PayrollFault> {
        let entry = self.milestone_agreements[id].at(milestone_id);
        match self.contributor_refusal(env, id) {
            Some(fault) => Some(fault),
            None => if !self.milestone_agreements[id].has(milestone_id) {
                Some(PayrollFault::Error(PayrollError::MilestoneNotFound))
            } else if entry.milestone.claimed {
                Some(PayrollFault::Error(PayrollError::MilestoneAlreadyClaimed))
            } else if !entry.milestone.approved {
                Some(PayrollFault::Error(PayrollError::MilestoneNotApproved))
            } else if !self.milestone_agreements[id].is_covered() {
                Some(PayrollFault::Error(PayrollError::InsufficientEscrowBalance))
            } else {
                None
            },
        }
    }

    /// The state in which a milestone was claimed and paid.
    pub open spec fn claiming(self, env: Env, id: u128, milestone_id: u32) -> PayrollState {
        let terms = self.milestone_agreements[id];
        let entry = terms.at(milestone_id);
        self.with_terms(
            id,
            MilestoneTerms {
                escrow_balance: (terms.escrow_balance - entry.milestone.amount) as i128,
                ..terms.with(milestone_id, entry.claiming())
            }.settled(),
        ).sending(terms.payment(env.contract, entry.milestone.amount))
    }

    /// Why `batch_claim_milestones` is turned down, if it is.
    pub open spec fn batch_claim_refusal(
        self,
        env: Env,
        id: u128,
        ids: Seq<u32>,
    ) -> Option<PayrollFault> {
        if ids.len() == 0 {
            Some(PayrollFault::EmptyBatch)
        } else if ids.len() > MAX_BATCH_SIZE {
            Some(PayrollFault::Error(PayrollError::BatchTooLarge))
        } else {
            match self.contributor_refusal(env, id) {
                Some(fault) => Some(fault),
                None => if !self.milestone_agreements[id].is_covered() {
                    Some(PayrollFault::Error(PayrollError::InsufficientEscrowBalance))
                } else {
                    None
                },
            }
        }
    }

    /// The state in which several milestones were claimed and paid.
    pub open spec fn batch_claiming(self, env: Env, id: u128, ids: Seq<u32>) -> PayrollState {
        let terms = self.milestone_agreements[id];
        let n = ids.len() as int;
        PayrollState {
            outbox: terms.paying(self.outbox, env.contract, ids, n),
            ..self
        }.with_terms(
            id,
            MilestoneTerms {
                escrow_balance: (terms.escrow_balance - terms.claim_total(ids, n)) as i128,
                entries: terms.claimed_entries(ids),
                ..terms
            }.settled(),
        )
    }

    /// Why `pause_agreement` is turned down, if it is.
    pub open spec fn pause_refusal(self, env: Env, id: u128) -> Option<PayrollFault> {
        if self.agreements.contains_key(id) {
            if !env.authorizes(self.agreements[id].employer) {
                Some(PayrollFault::Unauthenticated)
            } else if self.agreements[id].status != AgreementStatus::Active {
                Some(PayrollFault::Error(PayrollError::AgreementNotActivated))
            } else {
                None
            }
        } else {
            match self.employer_refusal(env, id) {
                Some(fault) => Some(fault),
                None => if !self.milestone_agreements[id].is_open() {
                    Some(PayrollFault::Error(PayrollError::MilestoneAgreementInvalidStatus))
                } else {
                    None
                },
            }
        }
    }

    /// Why `resume_agreement` is turned down, if it is.
    pub open spec fn resume_refusal(self, env: Env, id: u128) -> Option<PayrollFault> {
        if self.agreements.contains_key(id) {
            if !env.authorizes(self.agreements[id].employer) {
                Some(PayrollFault::Unauthenticated)
            } else if self.agreements[id].status != AgreementStatus::Paused {
                Some(PayrollFault::AgreementNotPaused)
            } else {
                None
            }
        } else {
            match self.employer_refusal(env, id) {
                Some(fault) => Some(fault),
                None => if self.milestone_agreements[id].agreement.status
                    != AgreementStatus::Paused {
                    Some(PayrollFault::Error(PayrollError::MilestoneAgreementInvalidStatus))
                } else {
                    None
                },
            }
        }
    }

    /// The state in which an agreement has a status: the payroll or escrow agreement
    /// of this number if there is one, and otherwise the milestone agreement.
    pub open spec fn with_status(self, id: u128, status: AgreementStatus) -> PayrollState {
        if self.agreements.contains_key(id) {
            PayrollState {
                agreements: self.agreements.insert(id, Agreement { status, ..self.agreements[id] }),
                ..self
            }
        } else {
            self.with_terms(id, self.milestone_agreements[id].with_status(status))
        }
    }
}

/// What is owed lies between nothing and the cost.
pub proof fn lemma_owed_bounds(entries: Seq<MilestoneEntry>)
    requires
        forall|i: int| 0 <= i < entries.len() ==> (#[trigger] entries[i]).milestone.amount > 0,
    ensures
        0 <= owed(entries) <= cost(entries),
    decreases entries.len(),
{
    if entries.len() > 0 {
        let rest = entries.drop_last();
        assert forall|i: int| 0 <= i < rest.len() implies (#[trigger] rest[i]).milestone.amount
            > 0 by {
            assert(rest[i] == entries[i]);
        }
        lemma_owed_bounds(rest);
        assert(entries[entries.len() - 1].milestone.amount > 0);
    }
}

/// The first milestones are owed no more than all of them, and each that is not
/// claimed no more than all of them.
pub proof fn lemma_owed_part(entries: Seq<MilestoneEntry>, n: int)
    requires
        forall|i: int| 0 <= i < entries.len() ==> (#[trigger] entries[i]).milestone.amount > 0,
        0 <= n <= entries.len(),
    ensures
        owed(entries.take(n)) <= owed(entries),
        n < entries.len() && !entries[n].milestone.claimed ==> entries[n].milestone.amount <= owed(
            entries,
        ),
    decreases entries.len(),
{
    if n == entries.len() {
        assert(entries.take(n) =~= entries);
    } else {
        let rest = entries.drop_last();
        assert forall|i: int| 0 <= i < rest.len() implies (#[trigger] rest[i]).milestone.amount
            > 0 by {
            assert(rest[i] == entries[i]);
        }
        lemma_owed_part(rest, n);
        lemma_owed_bounds(rest);
        assert(rest.take(n) =~= entries.take(n));
        if n < rest.len() {
            assert(rest[n] == entries[n]);
        }
        assert(entries[entries.len() - 1].milestone.amount > 0);
    }
}

/// The first milestones cost no more than all of them.
proof fn lemma_cost_part(entries: Seq<MilestoneEntry>, n: int)
    requires
        forall|i: int| 0 <= i < entries.len() ==> (#[trigger] entries[i]).milestone.amount > 0,
        0 <= n <= entries.len(),
    ensures
        cost(entries.take(n)) <= cost(entries),
    decreases entries.len(),
{
    if n == entries.len() {
        assert(entries.take(n) =~= entries);
    } else {
        let rest = entries.drop_last();
        assert forall|i: int| 0 <= i < rest.len() implies (#[trigger] rest[i]).milestone.amount
            > 0 by {
            assert(rest[i] == entries[i]);
        }
        lemma_cost_part(rest, n);
        assert(rest.take(n) =~= entries.take(n));
        assert(entries[entries.len() - 1].milestone.amount > 0);
    }
}

/// Changing what happened to a milestone leaves the cost, and takes off what is owed
/// what the milestone costs if it is claimed by it.
pub proof fn lemma_update(entries: Seq<MilestoneEntry>, at: int, entry: MilestoneEntry)
    requires
        0 <= at < entries.len(),
        entry.milestone.amount == entries[at].milestone.amount,
        entries[at].milestone.claimed ==> entry.milestone.claimed,
    ensures
        cost(entries.update(at, entry)) == cost(entries),
        owed(entries.update(at, entry)) == owed(entries) - if entry.milestone.claimed
            && !entries[at].milestone.claimed {
            entry.milestone.amount as int
        } else {
            0
        },
    decreases entries.len(),
{
    let rest = entries.drop_last();
    if at == entries.len() - 1 {
        assert(entries.update(at, entry).drop_last() =~= rest);
    } else {
        lemma_update(rest, at, entry);
        assert(entries.update(at, entry).drop_last() =~= rest.update(at, entry));
        assert(entries.update(at, entry).last() == entries.last());
    }
}

/// A new agreement costs what its amounts come to.
pub proof fn lemma_new_entries(amounts: Seq<i128>)
    ensures
        cost(new_entries(amounts)) == sum(amounts),
    decreases amounts.len(),
{
    if amounts.len() > 0 {
        lemma_new_entries(amounts.drop_last());
        assert(new_entries(amounts).drop_last() =~= new_entries(amounts.drop_last()));
    }
}

/// What a batch pays is what it takes off what is owed.
pub proof fn lemma_batch(terms: MilestoneTerms, ids: Seq<u32>, n: int)
    requires
        terms.wf(),
        0 <= n <= ids.len(),
    ensures
        owed(terms.claimed_entries(ids.take(n))) == owed(terms.entries) - terms.claim_total(ids, n),
        cost(terms.claimed_entries(ids.take(n))) == cost(terms.entries),
        0 <= terms.claim_total(ids, n) <= owed(terms.entries),
        0 <= terms.claim_successes(ids, n) <= n,
        n > 0 ==> terms.claimed_entries(ids.take(n)) == (if terms.claim_code(ids, n - 1) == 0 {
            terms.claimed_entries(ids.take(n - 1)).update(
                ids[n - 1] - 1,
                terms.at(ids[n - 1]).claiming(),
            )
        } else {
            terms.claimed_entries(ids.take(n - 1))
        }),
        n > 0 && terms.claim_code(ids, n - 1) == 0 ==> terms.claimed_entries(
            ids.take(n - 1),
        )[ids[n - 1] - 1] == terms.at(ids[n - 1]),
    decreases n,
{
    if n == 0 {
        assert(terms.claimed_entries(ids.take(0)) =~= terms.entries);
        lemma_owed_bounds(terms.entries);
    } else {
        lemma_batch(terms, ids, n - 1);
        let id = ids[n - 1];
        let before = terms.claimed_entries(ids.take(n - 1));
        let after = terms.claimed_entries(ids.take(n));
        assert(ids.take(n) =~= ids.take(n - 1).push(id));
        assert forall|other: u32| #[trigger]
            ids.take(n).contains(other) <==> ids.take(n - 1).contains(other) || other == id by {
            let earlier = ids.take(n - 1);
            if earlier.contains(other) {
                let i = choose|i: int| 0 <= i < earlier.len() && earlier[i] == other;
                assert(ids.take(n)[i] == other);
            }
            assert(ids.take(n)[n - 1] == id);
        }
        if terms.claim_code(ids, n - 1) == 0 {
            assert(before[id - 1] == terms.at(id));
            assert(after =~= before.update(id - 1, terms.at(id).claiming()));
            lemma_update(before, id - 1, terms.at(id).claiming());
            assert(terms.entries[id - 1].wf());
        } else {
            assert(after =~= before);
        }
        lemma_claimed_entries(terms, ids.take(n));
        lemma_owed_bounds(after);
    }
}

/// A batch leaves the milestones well-formed.
pub proof fn lemma_claimed_entries(terms: MilestoneTerms, ids: Seq<u32>)
    requires
        terms.wf(),
    ensures
        forall|i: int|
            0 <= i < terms.entries.len() ==> (#[trigger] terms.claimed_entries(ids)[i]).wf()
                && terms.claimed_entries(ids)[i].milestone.id == i + 1
                && terms.claimed_entries(ids)[i].milestone.amount > 0,
{
    assert forall|i: int| 0 <= i < terms.entries.len() implies (
    #[trigger] terms.claimed_entries(ids)[i]).wf() && terms.claimed_entries(ids)[i].milestone.id
        == i + 1 && terms.claimed_entries(ids)[i].milestone.amount > 0 by {
        assert(terms.entries[i].wf());
    }
}

/// The first of some positive amounts come to no more than all of them.
pub proof fn lemma_sum_part(amounts: Seq<i128>, n: int)
    requires
        forall|i: int| 0 <= i < amounts.len() ==> #[trigger] amounts[i] > 0,
        0 <= n <= amounts.len(),
    ensures
        0 <= sum(amounts.take(n)) <= sum(amounts),
    decreases amounts.len(),
{
    if n == amounts.len() {
        assert(amounts.take(n) =~= amounts);
        if n > 0 {
            let rest = amounts.drop_last();
            assert forall|i: int| 0 <= i < rest.len() implies #[trigger] rest[i] > 0 by {
                assert(rest[i] == amounts[i]);
            }
            lemma_sum_part(rest, rest.len() as int);
            assert(rest.take(rest.len() as int) =~= rest);
            assert(amounts[n - 1] > 0);
        }
    } else {
        let rest = amounts.drop_last();
        assert forall|i: int| 0 <= i < rest.len() implies #[trigger] rest[i] > 0 by {
            assert(rest[i] == amounts[i]);
        }
        lemma_sum_part(rest, n);
        assert(rest.take(n) =~= amounts.take(n));
        assert(amounts[amounts.len() - 1] > 0);
    }
}

/// What some amounts come to, unless that is too much.
fn total_of(amounts: &Vec<i128>) -> (r: Option<i128>)
    requires
        forall|i: int| 0 <= i < amounts@.len() ==> #[trigger] amounts@[i] > 0,
    ensures
        r == (if sum(amounts@) > i128::MAX {
            None
        } else {
            Some(sum(amounts@) as i128)
        }),
{
    let mut total: i128 = 0;
    let mut i: usize = 0;
    while i < amounts.len()
        invariant
            i <= amounts@.len(),
            forall|j: int| 0 <= j < amounts@.len() ==> #[trigger] amounts@[j] > 0,
            total == sum(amounts@.take(i as int)),
            total >= 0,
        decreases amounts@.len() - i,
    {
        proof {
            assert(amounts@.take(i + 1).drop_last() =~= amounts@.take(i as int));
            assert(amounts@.take(i + 1).last() == amounts@[i as int]);
            lemma_sum_part(amounts@, i + 1);
        }
        match total.checked_add(amounts[i]) {
            Some(next) => {
                total = next;
            },
            None => {
                return None;
            },
        }
        i = i + 1;
    }
    assert(amounts@.take(i as int) =~= amounts@);
    Some(total)
}

/// Whether a text says nothing.
fn says_nothing(text: &Vec<u8>) -> (r: bool)
    ensures
        r == is_blank(text@),
{
    let mut i: usize = 0;
    while i < text.len()
        invariant
            i <= text@.len(),
            forall|j: int| 0 <= j < i ==> is_space(#[trigger] text@[j]),
        decreases text@.len() - i,
    {
        let c: u8 = text[i];
        if !(c == 32 || c == 9 || c == 10 || c == 12 || c == 13) {
            assert(!is_space(text@[i as int]));
            return false;
        }
        i = i + 1;
    }
    true
}

/// Whether `id` is among the first `n` of `ids`.
fn names_before(ids: &Vec<u32>, n: usize, id: u32) -> (r: bool)
    requires
        n <= ids@.len(),
    ensures
        r == ids@.take(n as int).contains(id),
{
    let mut i: usize = 0;
    while i < n
        invariant
            i <= n <= ids@.len(),
            forall|j: int| 0 <= j < i ==> ids@[j] != id,
        decreases n - i,
    {
        if ids[i] == id {
            assert(ids@.take(n as int)[i as int] == id);
            return true;
        }
        i = i + 1;
    }
    false
}

impl MilestoneRecord {
    /// A copy of the record.
    fn copy(&self) -> (r: MilestoneRecord)
        ensures
            r@ == self@,
    {
        let mut entries: Vec<MilestoneEntry> = Vec::new();
        let mut i: usize = 0;
        while i < self.entries.len()
            invariant
                i <= self.entries@.len(),
                entries@ == self.entries@.take(i as int),
            decreases self.entries@.len() - i,
        {
            entries.push(self.entries[i]);
            i = i + 1;
            assert(entries@ =~= self.entries@.take(i as int));
        }
        assert(self.entries@.take(i as int) =~= self.entries@);
        MilestoneRecord {
            agreement: self.agreement,
            escrow_balance: self.escrow_balance,
            entries,
        }
    }

    /// Whether the record is one that the contract's calls can have left.
    pub fn is_well_formed(&self) -> (r: bool)
        ensures
            r == self@.wf(),
    {
        if self.entries.len() == 0 || self.entries.len() > u32::MAX as usize
            || self.escrow_balance < 0 || self.agreement.payment_type
            != PaymentType::MilestoneBased {
            return false;
        }
        let mut total: i128 = 0;
        let mut paid: bool = true;
        let mut i: usize = 0;
        while i < self.entries.len()
            invariant
                i <= self.entries@.len() <= u32::MAX,
                total == cost(self.entries@.take(i as int)),
                total >= 0,
                forall|j: int|
                    0 <= j < i ==> (#[trigger] self.entries@[j]).wf()
                        && self.entries@[j].milestone.id == j + 1,
                paid == forall|j: int|
                    0 <= j < i ==> (#[trigger] self.entries@[j]).milestone.claimed,
            decreases self.entries@.len() - i,
        {
            let entry: MilestoneEntry = self.entries[i];
            assert(entry == self.entries@[i as int]);
            if entry.milestone.id != i as u32 + 1 || entry.milestone.amount <= 0 || (
            entry.milestone.claimed && !entry.milestone.approved) || (entry.milestone.approved && (
            entry.rejected || entry.expired)) || (entry.rejected && entry.expired) {
                return false;
            }
            proof {
                assert(self.entries@.take(i + 1).drop_last() =~= self.entries@.take(i as int));
                assert(self.entries@.take(i + 1).last() == entry);
            }
            match total.checked_add(entry.milestone.amount) {
                Some(next) => {
                    total = next;
                },
                None => {
                    proof {
                        if self@.wf() {
                            lemma_cost_part(self.entries@, i + 1);
                        }
                    }
                    return false;
                },
            }
            if !entry.milestone.claimed {
                paid = false;
            }
            i = i + 1;
        }
        assert(self.entries@.take(i as int) =~= self.entries@);
        self.agreement.total_amount == total && (self.agreement.status
            == AgreementStatus::Completed) == paid
    }

    /// Whether the milestones can be worked on.
    fn is_open(&self) -> (r: bool)
        ensures
            r == self@.is_open(),
    {
        match self.agreement.status {
            AgreementStatus::Created => true,
            AgreementStatus::Active => true,
            _ => false,
        }
    }

    /// Where the milestone of this number stands in the list, if there is one.
    fn position(&self, milestone_id: u32) -> (r: Option<usize>)
        ensures
            r == (if self@.has(milestone_id) {
                Some((milestone_id - 1) as usize)
            } else {
                None
            }),
    {
        if milestone_id == 0 || milestone_id as usize > self.entries.len() {
            return None;
        }
        Some(milestone_id as usize - 1)
    }

    /// Whether the escrow covers every milestone that is not claimed yet.
    fn is_covered(&self) -> (r: bool)
        requires
            self@.wf(),
        ensures
            r == self@.is_covered(),
    {
        let mut unclaimed: i128 = 0;
        let mut i: usize = 0;
        proof {
            lemma_owed_bounds(self.entries@);
        }
        while i < self.entries.len()
            invariant
                i <= self.entries@.len(),
                self@.wf(),
                owed(self.entries@) <= i128::MAX,
                unclaimed == owed(self.entries@.take(i as int)),
                unclaimed >= 0,
            decreases self.entries@.len() - i,
        {
            proof {
                assert(self.entries@.take(i + 1).drop_last() =~= self.entries@.take(i as int));
                assert(self.entries@.take(i + 1).last() == self.entries@[i as int]);
                assert(self@.entries[i as int].wf());
                lemma_owed_part(self.entries@, i + 1);
            }
            if !self.entries[i].milestone.claimed {
                unclaimed = unclaimed + self.entries[i].milestone.amount;
            }
            i = i + 1;
        }
        assert(self.entries@.take(i as int) =~= self.entries@);
        self.escrow_balance >= unclaimed
    }

    /// Completes the agreement if every milestone is claimed.
    fn settle(&mut self)
        ensures
            final(self)@ == old(self)@.settled(),
    {
        let mut i: usize = 0;
        while i < self.entries.len()
            invariant
                i <= self.entries@.len(),
                self@ == old(self)@,
                forall|j: int| 0 <= j < i ==> (#[trigger] self.entries@[j]).milestone.claimed,
            decreases self.entries@.len() - i,
        {
            if !self.entries[i].milestone.claimed {
                assert(!self@.entries[i as int].milestone.claimed);
                return;
            }
            i = i + 1;
        }
        self.agreement.status = AgreementStatus::Completed;
    }
}

impl PayrollContract {
    /// Puts a milestone agreement on record.
    fn write_record(&mut self, id: u128, record: MilestoneRecord)
        ensures
            final(self)@ == old(self)@.with_terms(id, record@),
    {
        self.milestone_agreements.set(id, record);
        assert(self@ =~= old(self)@.with_terms(id, record@));
    }

    /// The milestone agreement of this number, for its employer.
    fn read_for_employer(&self, env: &Env, id: u128) -> (r: Result<MilestoneRecord, PayrollFault>)
        ensures
            match self@.employer_refusal(*env, id) {
                Some(fault) => r == Err::<MilestoneRecord, PayrollFault>(fault),
                None => r matches Ok(record) && record@ == self@.milestone_agreements[id],
            },
    {
        match self.milestone_agreements.get(&id) {
            None => Err(PayrollFault::Error(PayrollError::AgreementNotFound)),
            Some(record) => {
                if !env.is_authorized(&record.agreement.employer) {
                    return Err(PayrollFault::Unauthenticated);
                }
                Ok(record.copy())
            },
        }
    }

    /// The milestone agreement of this number, for its contributor.
    fn read_for_contributor(
        &self,
        env: &Env,
        id: u128,
    ) -> (r: Result<MilestoneRecord, PayrollFault>)
        ensures
            match self@.contributor_refusal(*env, id) {
                Some(fault) => r == Err::<MilestoneRecord, PayrollFault>(fault),
                None => r matches Ok(record) && record@ == self@.milestone_agreements[id],
            },
    {
        match self.milestone_agreements.get(&id) {
            None => Err(PayrollFault::Error(PayrollError::AgreementNotFound)),
            Some(record) => {
                if !env.is_authorized(&record.agreement.contributor) {
                    return Err(PayrollFault::Unauthenticated);
                }
                if !record.is_open() {
                    return Err(
                        PayrollFault::Error(PayrollError::MilestoneAgreementInvalidStatus),
                    );
                }
                Ok(record.copy())
            },
        }
    }

    /// The milestone agreement of this number, for its employer, and where a milestone
    /// of it stands in the list.
    fn read_milestone(
        &self,
        env: &Env,
        id: u128,
        milestone_id: u32,
    ) -> (r: Result<(MilestoneRecord, usize), PayrollFault>)
        ensures
            match self@.milestone_refusal(*env, id, milestone_id) {
                Some(fault) => r == Err::<(MilestoneRecord, usize), PayrollFault>(fault),
                None => r matches Ok((record, at)) && record@ == self@.milestone_agreements[id]
                    && at == milestone_id - 1 && at < record.entries@.len(),
            },
    {
        let record: MilestoneRecord = match self.read_for_employer(env, id) {
            Ok(record) => record,
            Err(fault) => return Err(fault),
        };
        if !record.is_open() {
            return Err(PayrollFault::Error(PayrollError::MilestoneAgreementInvalidStatus));
        }
        match record.position(milestone_id) {
            Some(at) => Ok((record, at)),
            None => Err(PayrollFault::Error(PayrollError::MilestoneNotFound)),
        }
    }

    /// Creates a milestone agreement with a milestone for each amount. The employer
    /// has to authorize it. Returns the agreement's number.
    pub fn create_milestone_agreement(
        &mut self,
        env: &Env,
        employer: Address,
        contributor: Address,
        token: Address,
        milestones: Vec<i128>,
    ) -> (r: Result<u128, PayrollFault>)
        requires
            old(self)@.milestones_wf(),
        ensures
            (final(self)@, r) == old(self)@.after_create_milestones(
                *env,
                employer,
                contributor,
                token,
                milestones@,
            ),
            final(self)@.milestones_wf(),
    {
        proof {
            crate::laws::milestones::calls_keep_wf(
                self@,
                *env,
                crate::laws::milestones::Call::Create {
                    employer,
                    contributor,
                    token,
                    amounts: milestones@,
                },
            );
        }
        if !env.is_authorized(&employer) {
            return Err(PayrollFault::Unauthenticated);
        }
        if milestones.len() == 0 {
            return Err(PayrollFault::Error(PayrollError::EmptyMilestoneList));
        }
        let mut i: usize = 0;
        while i < milestones.len()
            invariant
                i <= milestones@.len(),
                self@ == old(self)@,
                self@.milestones_wf(),
                env.authorizes(employer),
                milestones@.len() > 0,
                forall|j: int| 0 <= j < i ==> #[trigger] milestones@[j] > 0,
            decreases milestones@.len() - i,
        {
            if milestones[i] <= 0 {
                assert(milestones@[i as int] <= 0);
                return Err(PayrollFault::Error(PayrollError::MilestoneAmountInvalid));
            }
            i = i + 1;
        }
        if milestones.len() > u32::MAX as usize {
            return Err(PayrollFault::MilestoneIdOverflow);
        }
        let total_amount: i128 = match total_of(&milestones) {
            Some(total) => total,
            None => return Err(PayrollFault::TotalAmountOverflow),
        };
        if self.milestone_agreement_counter == u128::MAX {
            return Err(PayrollFault::AgreementIdOverflow);
        }
        let id: u128 = self.milestone_agreement_counter + 1;
        let mut entries: Vec<MilestoneEntry> = Vec::new();
        let mut k: usize = 0;
        while k < milestones.len()
            invariant
                k <= milestones@.len() <= u32::MAX,
                entries@ == new_entries(milestones@).take(k as int),
            decreases milestones@.len() - k,
        {
            let milestone = Milestone::new(k as u32 + 1, milestones[k]);
            entries.push(MilestoneEntry { milestone, rejected: false, expired: false });
            k = k + 1;
            assert(entries@ =~= new_entries(milestones@).take(k as int));
        }
        assert(entries@ =~= new_entries(milestones@));
        self.milestone_agreement_counter = id;
        self.write_record(
            id,
            MilestoneRecord {
                agreement: MilestoneAgreement {
                    id,
                    employer,
                    contributor,
                    token,
                    payment_type: PaymentType::MilestoneBased,
                    status: AgreementStatus::Created,
                    total_amount,
                },
                escrow_balance: 0,
                entries,
            },
        );
        Ok(id)
    }

    /// Deposits tokens for a milestone agreement. Only its employer may.
    pub fn fund_milestone_agreement(
        &mut self,
        env: &Env,
        agreement_id: u128,
        from: Address,
        amount: i128,
    ) -> (r: Result<(), PayrollFault>)
        requires
            old(self)@.milestones_wf(),
        ensures
            (final(self)@, r) == crate::payroll::answer(
                old(self)@,
                old(self)@.fund_refusal(*env, agreement_id, from, amount),
                old(self)@.funding(*env, agreement_id, from, amount),
            ),
            final(self)@.milestones_wf(),
    {
        proof {
            crate::laws::milestones::calls_keep_wf(
                self@,
                *env,
                crate::laws::milestones::Call::Fund { id: agreement_id, from, amount },
            );
        }
        let mut record: MilestoneRecord = match self.milestone_agreements.get(&agreement_id) {
            Some(record) => record.copy(),
            None => return Err(PayrollFault::Error(PayrollError::AgreementNotFound)),
        };
        if !env.is_authorized(&from) {
            return Err(PayrollFault::Unauthenticated);
        }
        if from != record.agreement.employer {
            return Err(PayrollFault::NotTheEmployer);
        }
        if amount <= 0 {
            return Err(PayrollFault::AmountNotPositive);
        }
        if record.agreement.status == AgreementStatus::Cancelled || record.agreement.status
            == AgreementStatus::Completed {
            return Err(PayrollFault::AgreementClosed);
        }
        record.escrow_balance =
        match record.escrow_balance.checked_add(amount) {
            Some(balance) => balance,
            None => return Err(PayrollFault::EscrowBalanceOverflow),
        };
        let token: Address = record.agreement.token;
        self.write_record(agreement_id, record);
        self.outbox.push(PayrollEffect::Transfer { token, from, to: env.contract, amount });
        Ok(())
    }

    /// Adds a milestone to an agreement that is not active yet. Only its employer may.
    pub fn add_milestone(
        &mut self,
        env: &Env,
        agreement_id: u128,
        amount: i128,
    ) -> (r: Result<(), PayrollFault>)
        requires
            old(self)@.milestones_wf(),
        ensures
            (final(self)@, r) == crate::payroll::answer(
                old(self)@,
                old(self)@.add_milestone_refusal(*env, agreement_id, amount),
                old(self)@.adding_milestone(agreement_id, amount),
            ),
            final(self)@.milestones_wf(),
    {
        proof {
            crate::laws::milestones::calls_keep_wf(
                self@,
                *env,
                crate::laws::milestones::Call::Add { id: agreement_id, amount },
            );
        }
        let mut record: MilestoneRecord = match self.read_for_employer(env, agreement_id) {
            Ok(record) => record,
            Err(fault) => return Err(fault),
        };
        if record.agreement.status != AgreementStatus::Created {
            return Err(PayrollFault::Error(PayrollError::MilestoneAgreementInvalidStatus));
        }
        if amount <= 0 {
            return Err(PayrollFault::Error(PayrollError::MilestoneAmountInvalid));
        }
        if record.entries.len() >= u32::MAX as usize {
            return Err(PayrollFault::MilestoneIdOverflow);
        }
        record.agreement.total_amount =
        match record.agreement.total_amount.checked_add(amount) {
            Some(total) => total,
            None => return Err(PayrollFault::TotalAmountOverflow),
        };
        let milestone = Milestone::new(record.entries.len() as u32 + 1, amount);
        record.entries.push(MilestoneEntry { milestone, rejected: false, expired: false });
        self.write_record(agreement_id, record);
        Ok(())
    }

    /// Approves a milestone for payment. Only the employer may, and only while the
    /// escrow covers every milestone that is not claimed yet.
    pub fn approve_milestone(
        &mut self,
        env: &Env,
        agreement_id: u128,
        milestone_id: u32,
    ) -> (r: Result<(), PayrollFault>)
        requires
            old(self)@.milestones_wf(),
        ensures
            (final(self)@, r) == crate::payroll::answer(
                old(self)@,
                old(self)@.approve_refusal(*env, agreement_id, milestone_id),
                old(self)@.with_entry(
                    agreement_id,
                    milestone_id,
                    old(self)@.milestone_agreements[agreement_id].at(milestone_id).approving(),
                ),
            ),
            final(self)@.milestones_wf(),
    {
        proof {
            crate::laws::milestones::calls_keep_wf(
                self@,
                *env,
                crate::laws::milestones::Call::Approve { id: agreement_id, milestone_id },
            );
        }
        let (mut record, at) = match self.read_milestone(env, agreement_id, milestone_id) {
            Ok(found) => found,
            Err(fault) => return Err(fault),
        };
        let mut entry: MilestoneEntry = record.entries[at];
        if entry.milestone.approved {
            return Err(PayrollFault::Error(PayrollError::MilestoneAlreadyApproved));
        }
        if entry.rejected {
            return Err(PayrollFault::Error(PayrollError::MilestoneAlreadyRejected));
        }
        if entry.expired {
            return Err(PayrollFault::Error(PayrollError::MilestoneAlreadyExpired));
        }
        if !record.is_covered() {
            return Err(PayrollFault::Error(PayrollError::InsufficientEscrowBalance));
        }
        entry.milestone.approved = true;
        record.entries.set(at, entry);
        self.write_record(agreement_id, record);
        Ok(())
    }

    /// Turns a milestone down for good, and says why. Only the employer may. The
    /// escrow stays as it is.
    pub fn reject_milestone(
        &mut self,
        env: &Env,
        agreement_id: u128,
        milestone_id: u32,
        reason: &Vec<u8>,
    ) -> (r: Result<(), PayrollFault>)
        requires
            old(self)@.milestones_wf(),
        ensures
            (final(self)@, r) == crate::payroll::answer(
                old(self)@,
                old(self)@.reject_refusal(*env, agreement_id, milestone_id, reason@),
                old(self)@.with_entry(
                    agreement_id,
                    milestone_id,
                    old(self)@.milestone_agreements[agreement_id].at(milestone_id).rejecting(),
                ),
            ),
            final(self)@.milestones_wf(),
    {
        proof {
            crate::laws::milestones::calls_keep_wf(
                self@,
                *env,
                crate::laws::milestones::Call::Reject {
                    id: agreement_id,
                    milestone_id,
                    reason: reason@,
                },
            );
        }
        let (mut record, at) = match self.read_milestone(env, agreement_id, milestone_id) {
            Ok(found) => found,
            Err(fault) => return Err(fault),
        };
        let mut entry: MilestoneEntry = record.entries[at];
        if entry.rejected {
            return Err(PayrollFault::Error(PayrollError::MilestoneAlreadyRejected));
        }
        if entry.milestone.claimed {
            return Err(PayrollFault::Error(PayrollError::MilestoneAlreadyClaimedCannotReject));
        }
        if entry.milestone.approved {
            return Err(PayrollFault::Error(PayrollError::MilestoneAlreadyApprovedCannotReject));
        }
        if entry.expired {
            return Err(PayrollFault::Error(PayrollError::MilestoneAlreadyExpired));
        }
        if says_nothing(reason) {
            return Err(PayrollFault::Error(PayrollError::MilestoneRejectionReasonEmpty));
        }
        entry.rejected = true;
        record.entries.set(at, entry);
        self.write_record(agreement_id, record);
        Ok(())
    }

    /// Marks a milestone as expired for good, announces it, and has the hook contract
    /// told, if one is linked. Only the employer may. The escrow stays as it is.
    pub fn expire_milestone(
        &mut self,
        env: &Env,
        agreement_id: u128,
        milestone_id: u32,
    ) -> (r: Result<(), PayrollFault>)
        requires
            old(self)@.milestones_wf(),
        ensures
            (final(self)@, r) == crate::payroll::answer(
                old(self)@,
                old(self)@.expire_refusal(*env, agreement_id, milestone_id),
                old(self)@.expiring(agreement_id, milestone_id),
            ),
            final(self)@.milestones_wf(),
    {
        proof {
            crate::laws::milestones::calls_keep_wf(
                self@,
                *env,
                crate::laws::milestones::Call::Expire { id: agreement_id, milestone_id },
            );
        }
        let (mut record, at) = match self.read_milestone(env, agreement_id, milestone_id) {
            Ok(found) => found,
            Err(fault) => return Err(fault),
        };
        let mut entry: MilestoneEntry = record.entries[at];
        if entry.expired {
            return Err(PayrollFault::Error(PayrollError::MilestoneAlreadyExpired));
        }
        if entry.milestone.claimed {
            return Err(PayrollFault::Error(PayrollError::MilestoneAlreadyClaimed));
        }
        if entry.milestone.approved {
            return Err(PayrollFault::Error(PayrollError::MilestoneAlreadyApproved));
        }
        if entry.rejected {
            return Err(PayrollFault::Error(PayrollError::MilestoneAlreadyRejected));
        }
        entry.expired = true;
        record.entries.set(at, entry);
        self.write_record(agreement_id, record);
        self.outbox.push(
            PayrollEffect::MilestoneExpired(MilestoneExpiredEvent { agreement_id, milestone_id }),
        );
        match self.milestone_hook_contract {
            Some(hook) => {
                self.outbox.push(PayrollEffect::ExpiryHook { hook, agreement_id, milestone_id });
            },
            None => {},
        }
        Ok(())
    }

    /// Claims the payment of an approved milestone, once. The contributor has to
    /// authorize it. The last claim completes the agreement.
    pub fn claim_milestone(
        &mut self,
        env: &Env,
        agreement_id: u128,
        milestone_id: u32,
    ) -> (r: Result<(), PayrollFault>)
        requires
            old(self)@.milestones_wf(),
        ensures
            (final(self)@, r) == crate::payroll::answer(
                old(self)@,
                old(self)@.claim_refusal(*env, agreement_id, milestone_id),
                old(self)@.claiming(*env, agreement_id, milestone_id),
            ),
            final(self)@.milestones_wf(),
    {
        proof {
            crate::laws::milestones::calls_keep_wf(
                self@,
                *env,
                crate::laws::milestones::Call::Claim { id: agreement_id, milestone_id },
            );
        }
        let mut record: MilestoneRecord = match self.read_for_contributor(env, agreement_id) {
            Ok(record) => record,
            Err(fault) => return Err(fault),
        };
        let at: usize = match record.position(milestone_id) {
            Some(at) => at,
            None => return Err(PayrollFault::Error(PayrollError::MilestoneNotFound)),
        };
        let mut entry: MilestoneEntry = record.entries[at];
        if entry.milestone.claimed {
            return Err(PayrollFault::Error(PayrollError::MilestoneAlreadyClaimed));
        }
        if !entry.milestone.can_claim() {
            return Err(PayrollFault::Error(PayrollError::MilestoneNotApproved));
        }
        if !record.is_covered() {
            return Err(PayrollFault::Error(PayrollError::InsufficientEscrowBalance));
        }
        let amount: i128 = entry.milestone.amount;
        proof {
            assert(record@.entries[at as int].wf());
            lemma_owed_part(record@.entries, at as int);
        }
        let token: Address = record.agreement.token;
        let to: Address = record.agreement.contributor;
        entry.milestone.claimed = true;
        record.entries.set(at, entry);
        record.escrow_balance = record.escrow_balance - amount;
        record.settle();
        self.write_record(agreement_id, record);
        self.outbox.push(PayrollEffect::Transfer { token, from: env.contract, to, amount });
        Ok(())
    }

    /// Claims the payment of several milestones. The contributor has to authorize it.
    /// A claim that cannot be paid does not keep the others from being paid.
    pub fn batch_claim_milestones(
        &mut self,
        env: &Env,
        agreement_id: u128,
        milestone_ids: Vec<u32>,
    ) -> (r: Result<BatchMilestoneResult, PayrollFault>)
        requires
            old(self)@.milestones_wf(),
        ensures
            match old(self)@.batch_claim_refusal(*env, agreement_id, milestone_ids@) {
                Some(fault) => final(self)@ == old(self)@ && r == Err::<
                    BatchMilestoneResult,
                    PayrollFault,
                >(fault),
                None => {
                    let terms = old(self)@.milestone_agreements[agreement_id];
                    let n = milestone_ids@.len() as int;
                    &&& final(self)@ == old(self)@.batch_claiming(
                        *env,
                        agreement_id,
                        milestone_ids@,
                    )
                    &&& r matches Ok(batch) && batch.agreement_id == agreement_id
                        && batch.total_claimed == terms.claim_total(milestone_ids@, n)
                        && batch.successful_claims == terms.claim_successes(milestone_ids@, n)
                        && batch.failed_claims == n - terms.claim_successes(milestone_ids@, n)
                        && batch.results@ == terms.claim_results(milestone_ids@, n)
                },
            },
            final(self)@.milestones_wf(),
    {
        proof {
            crate::laws::milestones::calls_keep_wf(
                self@,
                *env,
                crate::laws::milestones::Call::BatchClaim { id: agreement_id, ids: milestone_ids@ },
            );
        }
        if milestone_ids.len() == 0 {
            return Err(PayrollFault::EmptyBatch);
        }
        if milestone_ids.len() > MAX_BATCH_SIZE as usize {
            return Err(PayrollFault::Error(PayrollError::BatchTooLarge));
        }
        let mut record: MilestoneRecord = match self.read_for_contributor(env, agreement_id) {
            Ok(record) => record,
            Err(fault) => return Err(fault),
        };
        if !record.is_covered() {
            return Err(PayrollFault::Error(PayrollError::InsufficientEscrowBalance));
        }
        let ghost before = self@;
        let ghost terms = record@;
        let ghost ids = milestone_ids@;
        let token: Address = record.agreement.token;
        let to: Address = record.agreement.contributor;
        let mut results: Vec<MilestoneClaimResult> = Vec::new();
        let mut total_claimed: i128 = 0;
        let mut successful_claims: u32 = 0;
        let mut i: usize = 0;
        proof {
            lemma_batch(terms, ids, 0);
            lemma_owed_bounds(terms.entries);
            assert(terms.claimed_entries(ids.take(0)) =~= terms.entries);
            assert(before =~= PayrollState {
                outbox: terms.paying(before.outbox, env.contract, ids, 0),
                ..before
            });
        }
        while i < milestone_ids.len()
            invariant
                ids == milestone_ids@,
                i <= ids.len() <= 20,
                terms.wf(),
                terms.is_covered(),
                token == terms.agreement.token,
                to == terms.agreement.contributor,
                record@ == (MilestoneTerms {
                    entries: terms.claimed_entries(ids.take(i as int)),
                    ..terms
                }),
                total_claimed == terms.claim_total(ids, i as int),
                successful_claims == terms.claim_successes(ids, i as int),
                successful_claims <= i,
                results@ == terms.claim_results(ids, i as int),
                self@ == (PayrollState {
                    outbox: terms.paying(before.outbox, env.contract, ids, i as int),
                    ..before
                }),
            decreases ids.len() - i,
        {
            let milestone_id: u32 = milestone_ids[i];
            proof {
                lemma_batch(terms, ids, i as int);
                lemma_batch(terms, ids, i + 1);
                lemma_owed_bounds(terms.entries);
            }
            let mut amount_claimed: i128 = 0;
            let mut error_code: u32 = 1;
            if !names_before(&milestone_ids, i, milestone_id) {
                match record.position(milestone_id) {
                    None => {
                        error_code = 2;
                    },
                    Some(at) => {
                        let mut entry: MilestoneEntry = record.entries[at];
                        assert(entry == terms.at(milestone_id));
                        if entry.milestone.claimed {
                            error_code = 4;
                        } else if !entry.milestone.can_claim() {
                            error_code = 3;
                        } else {
                            error_code = 0;
                            amount_claimed = entry.milestone.amount;
                            entry.milestone.claimed = true;
                            record.entries.set(at, entry);
                            total_claimed = total_claimed + amount_claimed;
                            successful_claims = successful_claims + 1;
                            self.outbox.push(
                                PayrollEffect::Transfer {
                                    token,
                                    from: env.contract,
                                    to,
                                    amount: amount_claimed,
                                },
                            );
                        }
                    },
                }
            }
            results.push(
                MilestoneClaimResult {
                    milestone_id,
                    success: error_code == 0,
                    amount_claimed,
                    error_code,
                },
            );
            i = i + 1;
            assert(results@ =~= terms.claim_results(ids, i as int));
        }
        proof {
            lemma_batch(terms, ids, i as int);
            assert(ids.take(i as int) =~= ids);
        }
        record.escrow_balance = record.escrow_balance - total_claimed;
        record.settle();
        self.write_record(agreement_id, record);
        Ok(
            BatchMilestoneResult {
                agreement_id,
                total_claimed,
                successful_claims,
                failed_claims: milestone_ids.len() as u32 - successful_claims,
                results,
            },
        )
    }

    /// Pauses an agreement: a payroll or escrow agreement of this number if there is
    /// one, and otherwise a milestone agreement. Only its employer may.
    pub fn pause_agreement(
        &mut self,
        env: &Env,
        agreement_id: u128,
    ) -> (r: Result<(), PayrollFault>)
        requires
            old(self)@.milestones_wf(),
        ensures
            (final(self)@, r) == crate::payroll::answer(
                old(self)@,
                old(self)@.pause_refusal(*env, agreement_id),
                old(self)@.with_status(agreement_id, AgreementStatus::Paused),
            ),
            final(self)@.milestones_wf(),
    {
        proof {
            crate::laws::milestones::calls_keep_wf(
                self@,
                *env,
                crate::laws::milestones::Call::Pause { id: agreement_id },
            );
        }
        let found: Option<Agreement> = self.get_agreement(agreement_id);
        match found {
            Some(agreement) => {
                if !env.is_authorized(&agreement.employer) {
                    return Err(PayrollFault::Unauthenticated);
                }
                if agreement.status != AgreementStatus::Active {
                    return Err(PayrollFault::Error(PayrollError::AgreementNotActivated));
                }
                let paused = Agreement { status: AgreementStatus::Paused, ..agreement };
                self.agreements.set(agreement_id, paused);
                return Ok(());
            },
            None => {},
        }
        let mut record: MilestoneRecord = match self.read_for_employer(env, agreement_id) {
            Ok(record) => record,
            Err(fault) => return Err(fault),
        };
        if !record.is_open() {
            return Err(PayrollFault::Error(PayrollError::MilestoneAgreementInvalidStatus));
        }
        record.agreement.status = AgreementStatus::Paused;
        self.write_record(agreement_id, record);
        Ok(())
    }

    /// Resumes a paused agreement, which is active then: a payroll or escrow agreement
    /// of this number if there is one, and otherwise a milestone agreement. Only its
    /// employer may.
    pub fn resume_agreement(
        &mut self,
        env: &Env,
        agreement_id: u128,
    ) -> (r: Result<(), PayrollFault>)
        requires
            old(self)@.milestones_wf(),
        ensures
            (final(self)@, r) == crate::payroll::answer(
                old(self)@,
                old(self)@.resume_refusal(*env, agreement_id),
                old(self)@.with_status(agreement_id, AgreementStatus::Active),
            ),
            final(self)@.milestones_wf(),
    {
        proof {
            crate::laws::milestones::calls_keep_wf(
                self@,
                *env,
                crate::laws::milestones::Call::Resume { id: agreement_id },
            );
        }
        let found: Option<Agreement> = self.get_agreement(agreement_id);
        match found {
            Some(agreement) => {
                if !env.is_authorized(&agreement.employer) {
                    return Err(PayrollFault::Unauthenticated);
                }
                if agreement.status != AgreementStatus::Paused {
                    return Err(PayrollFault::AgreementNotPaused);
                }
                let active = Agreement { status: AgreementStatus::Active, ..agreement };
                self.agreements.set(agreement_id, active);
                return Ok(());
            },
            None => {},
        }
        let mut record: MilestoneRecord = match self.read_for_employer(env, agreement_id) {
            Ok(record) => record,
            Err(fault) => return Err(fault),
        };
        if record.agreement.status != AgreementStatus::Paused {
            return Err(PayrollFault::Error(PayrollError::MilestoneAgreementInvalidStatus));
        }
        record.agreement.status = AgreementStatus::Active;
        self.write_record(agreement_id, record);
        Ok(())
    }

    /// The payroll or escrow agreement of this number, if there is one.
    pub fn get_agreement(&self, agreement_id: u128) -> (r: Option<Agreement>)
        ensures
            r == (if self@.agreements.contains_key(agreement_id) {
                Some(self@.agreements[agreement_id])
            } else {
                None
            }),
    {
        match self.agreements.get(&agreement_id) {
            Some(agreement) => Some(*agreement),
            None => None,
        }
    }

    /// How many milestones an agreement has.
    pub fn get_milestone_count(&self, agreement_id: u128) -> (r: u32)
        requires
            self@.milestones_wf(),
        ensures
            r == (if self@.milestone_agreements.contains_key(agreement_id) {
                self@.milestone_agreements[agreement_id].entries.len()
            } else {
                0
            }),
    {
        match self.milestone_agreements.get(&agreement_id) {
            Some(record) => {
                assert(self@.milestone_agreements.contains_key(agreement_id));
                assert(record@ == self@.milestone_agreements[agreement_id]);
                record.entries.len() as u32
            },
            None => 0,
        }
    }

    /// A milestone of an agreement, if there is one of this number.
    pub fn get_milestone(&self, agreement_id: u128, milestone_id: u32) -> (r: Option<Milestone>)
        ensures
            r == (if self@.milestone_agreements.contains_key(agreement_id)
                && self@.milestone_agreements[agreement_id].has(milestone_id) {
                Some(self@.milestone_agreements[agreement_id].at(milestone_id).milestone)
            } else {
                None
            }),
    {
        match self.milestone_agreements.get(&agreement_id) {
            Some(record) => match record.position(milestone_id) {
                Some(at) => Some(record.entries[at].milestone),
                None => None,
            },
            None => None,
        }
    }
}

} // verus!
