//! The payroll contract: who administers it, and what it is linked to.
//!
//! The milestone agreements of the contract are in [`crate::milestones`].

use vstd::prelude::*;

use crate::address::{Address, WasmHash};
use crate::env::Env;
use crate::milestones::MilestoneRecord;
use crate::rbac::Role;
use crate::storage::{
    Agreement, DataKey, ExchangeRateInfo, PayrollError, PayrollStore, StoreState,
};
use crate::table::Table;

verus! {

/// Why a call fails.
#[derive(Clone, Copy, Debug, PartialEq, Eq, Structural)]
pub enum PayrollFault {
    /// An address that has to authorize the call did not.
    Unauthenticated,
    MissingRequiredRole,
    InvalidMigrationVersion,
    /// A corrected amount is negative.
    InvalidAmount,
    /// A corrected period has no length.
    InvalidDuration,
    AgreementIdOverflow,
    MilestoneIdOverflow,
    TotalAmountOverflow,
    /// The one who pays is not the employer of the agreement.
    NotTheEmployer,
    AmountNotPositive,
    /// The agreement was cancelled or completed.
    AgreementClosed,
    EscrowBalanceOverflow,
    EmptyBatch,
    AgreementNotPaused,
    Error(PayrollError),
}

/// A move of the storage schema to a new version.
#[derive(Clone, Copy, Debug, PartialEq, Eq, Structural)]
pub struct ContractMigratedEvent {
    pub from_version: u32,
    pub to_version: u32,
}

/// A milestone that was marked as expired.
#[derive(Clone, Copy, Debug, PartialEq, Eq, Structural)]
pub struct MilestoneExpiredEvent {
    pub agreement_id: u128,
    pub milestone_id: u32,
}

/// What the payroll contract does to the outside world.
#[derive(Clone, Copy, Debug, PartialEq, Eq)]
pub enum PayrollEffect {
    /// The contract's code is replaced.
    CodeReplaced(WasmHash),
    Migrated(ContractMigratedEvent),
    /// Tokens are moved.
    Transfer { token: Address, from: Address, to: Address, amount: i128 },
    MilestoneExpired(MilestoneExpiredEvent),
    /// A hook contract is told that a milestone expired.
    ExpiryHook { hook: Address, agreement_id: u128, milestone_id: u32 },
}

/// A question to a role contract: does an address have a role?
#[derive(Clone, Copy, Debug, PartialEq, Eq)]
pub struct RoleQuestion {
    pub rbac_contract: Address,
    pub address: Address,
    pub role: Role,
}

/// The payroll contract's storage.
pub struct PayrollContract {
    /// Set once the contract is initialized.
    pub owner: Option<Address>,
    /// The contract that says who is an admin.
    pub rbac_contract: Option<Address>,
    /// The contract that throttles claims.
    pub rate_limiter_contract: Option<Address>,
    /// The contract that overrides salaries.
    pub salary_adjustment_contract: Option<Address>,
    /// The contract that is told of expired milestones.
    pub milestone_hook_contract: Option<Address>,
    /// The contract that audit entries go to.
    pub audit_logger: Option<Address>,
    /// Who may set exchange rates besides the owner.
    pub exchange_rate_admin: Option<Address>,
    /// The version of the storage schema.
    pub contract_version: u32,
    pub agreements: Table<u128, Agreement>,
    pub store: PayrollStore,
    /// The number of the last milestone agreement.
    pub milestone_agreement_counter: u128,
    pub milestone_agreements: Table<u128, MilestoneRecord>,
    /// What was done to the outside world, oldest first.
    pub outbox: Vec<PayrollEffect>,
}

/// The payroll contract's storage, as mathematical values.
#[verifier::ext_equal]
pub struct PayrollState {
    pub owner: Option<Address>,
    pub rbac_contract: Option<Address>,
    pub rate_limiter_contract: Option<Address>,
    pub salary_adjustment_contract: Option<Address>,
    pub milestone_hook_contract: Option<Address>,
    pub audit_logger: Option<Address>,
    pub exchange_rate_admin: Option<Address>,
    pub contract_version: u32,
    pub agreements: Map<u128, Agreement>,
    pub store: StoreState,
    pub milestone_agreement_counter: u128,
    pub milestone_agreements: Map<u128, crate::milestones::MilestoneTerms>,
    pub outbox: Seq<PayrollEffect>,
}

impl View for PayrollContract {
    type V = PayrollState;

    open spec fn view(&self) -> PayrollState {
        PayrollState {
            owner: self.owner,
            rbac_contract: self.rbac_contract,
            rate_limiter_contract: self.rate_limiter_contract,
            salary_adjustment_contract: self.salary_adjustment_contract,
            milestone_hook_contract: self.milestone_hook_contract,
            audit_logger: self.audit_logger,
            exchange_rate_admin: self.exchange_rate_admin,
            contract_version: self.contract_version,
            agreements: self.agreements@,
            store: self.store@,
            milestone_agreement_counter: self.milestone_agreement_counter,
            milestone_agreements: self.milestone_agreements@.map_values(
                |record: MilestoneRecord| record@,
            ),
            outbox: self.outbox@,
        }
    }
}

/// The answer to a call that changes the state unless it is turned down.
pub open spec fn answer(
    before: PayrollState,
    refusal: Option<PayrollFault>,
    changed: PayrollState,
) -> (PayrollState, Result<(), PayrollFault>) {
    match refusal {
        Some(fault) => (before, Err(fault)),
        None => (changed, Ok(())),
    }
}

impl PayrollState {
    /// A freshly deployed contract.
    pub open spec fn fresh() -> PayrollState {
        PayrollState {
            owner: None,
            rbac_contract: None,
            rate_limiter_contract: None,
            salary_adjustment_contract: None,
            milestone_hook_contract: None,
            audit_logger: None,
            exchange_rate_admin: None,
            contract_version: 0,
            agreements: Map::empty(),
            store: StoreState::fresh(),
            milestone_agreement_counter: 0,
            milestone_agreements: Map::empty(),
            outbox: Seq::empty(),
        }
    }

    pub open spec fn sending(self, effect: PayrollEffect) -> PayrollState {
        PayrollState { outbox: self.outbox.push(effect), ..self }
    }

    /// Why `initialize` is turned down, if it is.
    pub open spec fn initialize_refusal(self, env: Env, owner: Address) -> Option<PayrollFault> {
        if !env.authorizes(owner) {
            Some(PayrollFault::Unauthenticated)
        } else if self.owner is Some {
            Some(PayrollFault::Error(PayrollError::InvalidData))
        } else {
            None
        }
    }

    /// Why a call that is the owner's to make is turned down, if it is.
    pub open spec fn owner_refusal(self, env: Env, caller: Address) -> Option<PayrollFault> {
        if self.owner is None {
            Some(PayrollFault::Error(PayrollError::Unauthorized))
        } else if !env.authorizes(caller) {
            Some(PayrollFault::Unauthenticated)
        } else if self.owner != Some(caller) {
            Some(PayrollFault::Error(PayrollError::Unauthorized))
        } else {
            None
        }
    }

    /// Why a call that is an admin's to make is turned down, if it is. Where a role
    /// contract is linked, it says who is an admin; otherwise the owner is.
    pub open spec fn admin_refusal(
        self,
        env: Env,
        operator: Address,
        has_admin_role: bool,
    ) -> Option<PayrollFault> {
        if self.rbac_contract is Some {
            if !env.authorizes(operator) {
                Some(PayrollFault::Unauthenticated)
            } else if !has_admin_role {
                Some(PayrollFault::MissingRequiredRole)
            } else {
                None
            }
        } else {
            self.owner_refusal(env, operator)
        }
    }

    /// The question to the linked role contract on which an admin's call depends, if
    /// there is one.
    pub open spec fn admin_question(self, operator: Address) -> Option<RoleQuestion> {
        match self.rbac_contract {
            Some(rbac_contract) => Some(
                RoleQuestion { rbac_contract, address: operator, role: Role::Admin },
            ),
            None => None,
        }
    }

    /// Why an admin's call that corrects a balance is turned down before the balance is
    /// looked at, if it is: like `admin_refusal`, except that whoever is no admin is
    /// `Unauthorized` in any case.
    pub open spec fn corrector_refusal(
        self,
        env: Env,
        operator: Address,
        has_admin_role: bool,
    ) -> Option<PayrollFault> {
        match self.admin_refusal(env, operator, has_admin_role) {
            Some(PayrollFault::MissingRequiredRole) => Some(
                PayrollFault::Error(PayrollError::Unauthorized),
            ),
            refusal => refusal,
        }
    }

    /// Why an admin's call that sets a value is turned down, if it is: for the reason
    /// that there is against the caller, if any, or else as `bad` where the value is not
    /// valid.
    pub open spec fn admin_set_refusal(
        refusal: Option<PayrollFault>,
        valid: bool,
        bad: PayrollFault,
    ) -> Option<PayrollFault> {
        match refusal {
            Some(fault) => Some(fault),
            None => if !valid {
                Some(bad)
            } else {
                None
            },
        }
    }

    /// Why a correction of a balance is turned down, if it is.
    pub open spec fn set_amount_refusal(
        self,
        env: Env,
        operator: Address,
        has_admin_role: bool,
        amount: i128,
    ) -> Option<PayrollFault> {
        PayrollState::admin_set_refusal(
            self.corrector_refusal(env, operator, has_admin_role),
            amount >= 0,
            PayrollFault::InvalidAmount,
        )
    }

    /// Why a correction of a period's length is turned down, if it is.
    pub open spec fn set_duration_refusal(
        self,
        env: Env,
        operator: Address,
        has_admin_role: bool,
        duration: u64,
    ) -> Option<PayrollFault> {
        PayrollState::admin_set_refusal(
            self.admin_refusal(env, operator, has_admin_role),
            duration > 0,
            PayrollFault::InvalidDuration,
        )
    }

    /// Why `migrate_state` is turned down, if it is: the version has to be the
    /// current one, and only version 0 can be left.
    pub open spec fn migrate_refusal(
        self,
        env: Env,
        operator: Address,
        has_admin_role: bool,
        from_version: u32,
    ) -> Option<PayrollFault> {
        match self.admin_refusal(env, operator, has_admin_role) {
            Some(fault) => Some(fault),
            None => if from_version != self.contract_version {
                Some(PayrollFault::InvalidMigrationVersion)
            } else if from_version != 0 {
                Some(PayrollFault::Error(PayrollError::InvalidData))
            } else {
                None
            },
        }
    }

    /// The state after the move from schema version 0 to 1.
    pub open spec fn migrating(self) -> PayrollState {
        PayrollState { contract_version: 1, ..self }.sending(
            PayrollEffect::Migrated(ContractMigratedEvent { from_version: 0, to_version: 1 }),
        )
    }

    /// Why `set_fx_rate_sanity_bound` is turned down, if it is.
    pub open spec fn sanity_bound_refusal(
        self,
        env: Env,
        caller: Address,
        max_rate: i128,
    ) -> Option<PayrollFault> {
        match self.owner_refusal(env, caller) {
            Some(fault) => Some(fault),
            None => if max_rate <= 0 {
                Some(PayrollFault::Error(PayrollError::ExchangeRateInvalid))
            } else {
                None
            },
        }
    }

    /// The state in which no exchange rate above `max_rate` can be set.
    pub open spec fn bounding_rates(self, max_rate: i128) -> PayrollState {
        self.with_store(
            StoreState { exchange_rate_max_rate_sanity_bound: Some(max_rate), ..self.store },
        )
    }

    /// Whether an address may set exchange rates.
    pub open spec fn sets_rates(self, caller: Address) -> bool {
        self.owner == Some(caller) || self.exchange_rate_admin == Some(caller)
    }

    /// Whether an exchange rate passes the guards: it is positive, it is not above the
    /// sanity bound, and it is not too far from a rate that the pair already has.
    pub open spec fn passes_rate_guards(self, pair: DataKey, rate: i128) -> bool {
        &&& rate > 0
        &&& self.store.exchange_rate_max_rate_sanity_bound matches Some(most) ==> rate <= most
        &&& self.store.exchange_rate_max_deviation_bps matches Some(bps) ==> (
        crate::storage::entry(self.store.rates, pair) matches Some(before) ==> !deviates(
            before.rate as int,
            rate as int,
            bps as int,
        ))
    }

    /// Why `set_exchange_rate` is turned down, if it is.
    pub open spec fn rate_refusal(
        self,
        env: Env,
        caller: Address,
        pair: DataKey,
        rate: i128,
    ) -> Option<PayrollFault> {
        if self.owner is None {
            Some(PayrollFault::Error(PayrollError::Unauthorized))
        } else if !env.authorizes(caller) {
            Some(PayrollFault::Unauthenticated)
        } else if !self.sets_rates(caller) {
            Some(PayrollFault::Error(PayrollError::Unauthorized))
        } else if !self.passes_rate_guards(pair, rate) {
            Some(PayrollFault::Error(PayrollError::ExchangeRateInvalid))
        } else {
            None
        }
    }

    pub open spec fn with_store(self, store: StoreState) -> PayrollState {
        PayrollState { store, ..self }
    }
}

/// Whether an update changes a rate by more than `bps` basis points of what it was. A rate
/// that was not positive is nothing to go by.
pub open spec fn deviates(before: int, rate: int, bps: int) -> bool {
    let change = if rate >= before {
        rate - before
    } else {
        before - rate
    };
    before > 0 && change * 10_000 > bps * before
}

/// Whether an update changes a rate by more than `bps` basis points of what it was. The
/// limit is worked out in parts, since the products need not fit.
fn is_deviating(before: i128, rate: i128, bps: u32) -> (r: bool)
    requires
        rate > 0,
    ensures
        r == deviates(before as int, rate as int, bps as int),
{
    if before <= 0 {
        return false;
    }
    let change: u128 = if rate >= before {
        (rate - before) as u128
    } else {
        (before - rate) as u128
    };
    let whole: u128 = before as u128 / 10_000;
    let part: u128 = before as u128 % 10_000;
    assert(0 <= part * bps <= 10_000 * 0x1_0000_0000) by (nonlinear_arith)
        requires
            0 <= part < 10_000,
            0 <= bps < 0x1_0000_0000,
    ;
    let rest: u128 = part * bps as u128 / 10_000;
    proof {
        assert(bps * before == 10_000 * (whole * bps) + part * bps) by (nonlinear_arith)
            requires
                before == 10_000 * whole + part,
        ;
        assert(whole * bps >= 0) by (nonlinear_arith);
    }
    let limit: Option<u128> = match whole.checked_mul(bps as u128) {
        Some(product) => product.checked_add(rest),
        None => None,
    };
    match limit {
        Some(limit) => change > limit,
        None => false,
    }
}

/// How many agreements a migration reads to see that they can still be decoded.
pub fn migration_probe_count(next_agreement_id: u128) -> (r: u128)
    ensures
        r <= 10,
        r <= next_agreement_id,
        r == 10 || r == next_agreement_id,
{
    if next_agreement_id > 10 {
        10
    } else {
        next_agreement_id
    }
}

impl PayrollContract {
    /// A freshly deployed contract.
    pub fn new() -> (contract: Self)
        ensures
            contract@ == PayrollState::fresh(),
            contract@.milestones_wf(),
    {
        let contract = PayrollContract {
            owner: None,
            rbac_contract: None,
            rate_limiter_contract: None,
            salary_adjustment_contract: None,
            milestone_hook_contract: None,
            audit_logger: None,
            exchange_rate_admin: None,
            contract_version: 0,
            agreements: Table::new(),
            store: PayrollStore::new(),
            milestone_agreement_counter: 0,
            milestone_agreements: Table::new(),
            outbox: Vec::new(),
        };
        assert(contract@ =~= PayrollState::fresh());
        contract
    }

    /// The owner of an initialized contract.
    pub fn contract_owner(&self) -> (r: Result<Address, PayrollError>)
        ensures
            r == match self@.owner {
                Some(owner) => Ok::<Address, PayrollError>(owner),
                None => Err(PayrollError::Unauthorized),
            },
    {
        match self.owner {
            Some(owner) => Ok(owner),
            None => Err(PayrollError::Unauthorized),
        }
    }

    /// Checks that the owner makes the call.
    fn require_owner(&self, env: &Env, caller: &Address) -> (r: Result<(), PayrollFault>)
        ensures
            r == match self@.owner_refusal(*env, *caller) {
                Some(fault) => Err::<(), PayrollFault>(fault),
                None => Ok(()),
            },
    {
        let owner: Address = match self.contract_owner() {
            Ok(owner) => owner,
            Err(error) => return Err(PayrollFault::Error(error)),
        };
        if !env.is_authorized(caller) {
            return Err(PayrollFault::Unauthenticated);
        }
        if *caller != owner {
            return Err(PayrollFault::Error(PayrollError::Unauthorized));
        }
        Ok(())
    }

    /// What to ask the linked role contract before an admin's call, if one is linked.
    /// The answer is the `has_admin_role` of that call, which ignores it where no
    /// role contract is linked.
    pub fn admin_question(&self, operator: Address) -> (r: Option<RoleQuestion>)
        ensures
            r == self@.admin_question(operator),
    {
        match self.rbac_contract {
            Some(rbac_contract) => Some(
                RoleQuestion { rbac_contract, address: operator, role: Role::Admin },
            ),
            None => None,
        }
    }

    /// Checks that an admin makes the call.
    pub fn require_upgrade_admin(
        &self,
        env: &Env,
        operator: &Address,
        has_admin_role: bool,
    ) -> (r: Result<(), PayrollFault>)
        ensures
            r == match self@.admin_refusal(*env, *operator, has_admin_role) {
                Some(fault) => Err::<(), PayrollFault>(fault),
                None => Ok(()),
            },
    {
        if self.rbac_contract.is_some() {
            if !env.is_authorized(operator) {
                return Err(PayrollFault::Unauthenticated);
            }
            if !has_admin_role {
                return Err(PayrollFault::MissingRequiredRole);
            }
            return Ok(());
        }
        self.require_owner(env, operator)
    }

    /// Checks that an admin makes the call, and calls anyone else `Unauthorized`.
    fn require_corrector(
        &self,
        env: &Env,
        operator: &Address,
        has_admin_role: bool,
    ) -> (r: Result<(), PayrollFault>)
        ensures
            r == match self@.corrector_refusal(*env, *operator, has_admin_role) {
                Some(fault) => Err::<(), PayrollFault>(fault),
                None => Ok(()),
            },
    {
        match self.require_upgrade_admin(env, operator, has_admin_role) {
            Err(PayrollFault::MissingRequiredRole) => Err(
                PayrollFault::Error(PayrollError::Unauthorized),
            ),
            outcome => outcome,
        }
    }

    /// Makes an address the owner, once.
    pub fn initialize(&mut self, env: &Env, owner: Address) -> (r: Result<(), PayrollFault>)
        ensures
            (final(self)@, r) == answer(
                old(self)@,
                old(self)@.initialize_refusal(*env, owner),
                PayrollState { owner: Some(owner), ..old(self)@ },
            ),
    {
        if !env.is_authorized(&owner) {
            return Err(PayrollFault::Unauthenticated);
        }
        if self.owner.is_some() {
            return Err(PayrollFault::Error(PayrollError::InvalidData));
        }
        self.owner = Some(owner);
        Ok(())
    }

    /// Links the contract that says who is an admin. Only the owner may.
    pub fn set_rbac_contract(
        &mut self,
        env: &Env,
        owner: Address,
        rbac_contract: Address,
    ) -> (r: Result<(), PayrollFault>)
        ensures
            (final(self)@, r) == answer(
                old(self)@,
                old(self)@.owner_refusal(*env, owner),
                PayrollState { rbac_contract: Some(rbac_contract), ..old(self)@ },
            ),
    {
        match self.require_owner(env, &owner) {
            Ok(()) => {},
            Err(fault) => return Err(fault),
        }
        self.rbac_contract = Some(rbac_contract);
        Ok(())
    }

    /// Links the contract that throttles claims. Only the owner may.
    pub fn set_rate_limiter_contract(
        &mut self,
        env: &Env,
        owner: Address,
        rate_limiter: Address,
    ) -> (r: Result<(), PayrollFault>)
        ensures
            (final(self)@, r) == answer(
                old(self)@,
                old(self)@.owner_refusal(*env, owner),
                PayrollState { rate_limiter_contract: Some(rate_limiter), ..old(self)@ },
            ),
    {
        match self.require_owner(env, &owner) {
            Ok(()) => {},
            Err(fault) => return Err(fault),
        }
        self.rate_limiter_contract = Some(rate_limiter);
        Ok(())
    }

    /// The contract that throttles claims, if one is linked.
    pub fn get_rate_limiter_contract(&self) -> (r: Option<Address>)
        ensures
            r == self@.rate_limiter_contract,
    {
        self.rate_limiter_contract
    }

    /// Links the contract that overrides salaries. Only the owner may.
    pub fn set_salary_adjustment_contract(
        &mut self,
        env: &Env,
        owner: Address,
        salary_adjustment: Address,
    ) -> (r: Result<(), PayrollFault>)
        ensures
            (final(self)@, r) == answer(
                old(self)@,
                old(self)@.owner_refusal(*env, owner),
                PayrollState { salary_adjustment_contract: Some(salary_adjustment), ..old(self)@ },
            ),
    {
        match self.require_owner(env, &owner) {
            Ok(()) => {},
            Err(fault) => return Err(fault),
        }
        self.salary_adjustment_contract = Some(salary_adjustment);
        Ok(())
    }

    /// The contract that overrides salaries, if one is linked.
    pub fn get_salary_adjustment_contract(&self) -> (r: Option<Address>)
        ensures
            r == self@.salary_adjustment_contract,
    {
        self.salary_adjustment_contract
    }

    /// Links the contract that is told of expired milestones. Only the owner may.
    pub fn set_milestone_hook_contract(
        &mut self,
        env: &Env,
        owner: Address,
        hook_contract: Address,
    ) -> (r: Result<(), PayrollFault>)
        ensures
            (final(self)@, r) == answer(
                old(self)@,
                old(self)@.owner_refusal(*env, owner),
                PayrollState { milestone_hook_contract: Some(hook_contract), ..old(self)@ },
            ),
    {
        match self.require_owner(env, &owner) {
            Ok(()) => {},
            Err(fault) => return Err(fault),
        }
        self.milestone_hook_contract = Some(hook_contract);
        Ok(())
    }

    /// The contract that is told of expired milestones, if one is linked.
    pub fn get_milestone_hook_contract(&self) -> (r: Option<Address>)
        ensures
            r == self@.milestone_hook_contract,
    {
        self.milestone_hook_contract
    }

    /// Links the contract that audit entries go to. Only the owner may.
    pub fn set_audit_logger(
        &mut self,
        env: &Env,
        owner: Address,
        audit_logger: Address,
    ) -> (r: Result<(), PayrollFault>)
        ensures
            (final(self)@, r) == answer(
                old(self)@,
                old(self)@.owner_refusal(*env, owner),
                PayrollState { audit_logger: Some(audit_logger), ..old(self)@ },
            ),
    {
        match self.require_owner(env, &owner) {
            Ok(()) => {},
            Err(fault) => return Err(fault),
        }
        self.audit_logger = Some(audit_logger);
        Ok(())
    }

    /// The contract that audit entries go to, if one is linked.
    pub fn get_audit_logger(&self) -> (r: Option<Address>)
        ensures
            r == self@.audit_logger,
    {
        self.audit_logger
    }

    /// Replaces the contract's code. Only an admin may.
    pub fn upgrade(
        &mut self,
        env: &Env,
        new_wasm_hash: WasmHash,
        operator: Address,
        has_admin_role: bool,
    ) -> (r: Result<(), PayrollFault>)
        ensures
            (final(self)@, r) == answer(
                old(self)@,
                old(self)@.admin_refusal(*env, operator, has_admin_role),
                old(self)@.sending(PayrollEffect::CodeReplaced(new_wasm_hash)),
            ),
    {
        match self.require_upgrade_admin(env, &operator, has_admin_role) {
            Ok(()) => {},
            Err(fault) => return Err(fault),
        }
        self.outbox.push(PayrollEffect::CodeReplaced(new_wasm_hash));
        Ok(())
    }

    /// Moves the storage schema on from a version. Only an admin may.
    pub fn migrate_state(
        &mut self,
        env: &Env,
        operator: Address,
        has_admin_role: bool,
        from_version: u32,
    ) -> (r: Result<(), PayrollFault>)
        ensures
            (final(self)@, r) == answer(
                old(self)@,
                old(self)@.migrate_refusal(*env, operator, has_admin_role, from_version),
                old(self)@.migrating(),
            ),
    {
        match self.require_upgrade_admin(env, &operator, has_admin_role) {
            Ok(()) => {},
            Err(fault) => return Err(fault),
        }
        if from_version != self.contract_version {
            return Err(PayrollFault::InvalidMigrationVersion);
        }
        if from_version != 0 {
            return Err(PayrollFault::Error(PayrollError::InvalidData));
        }
        self.contract_version = 1;
        self.outbox.push(
            PayrollEffect::Migrated(ContractMigratedEvent { from_version, to_version: 1 }),
        );
        Ok(())
    }

    /// Sets the highest exchange rate that can be set. Only the owner may.
    pub fn set_fx_rate_sanity_bound(
        &mut self,
        env: &Env,
        caller: Address,
        max_rate: i128,
    ) -> (r: Result<(), PayrollFault>)
        ensures
            (final(self)@, r) == answer(
                old(self)@,
                old(self)@.sanity_bound_refusal(*env, caller, max_rate),
                old(self)@.bounding_rates(max_rate),
            ),
    {
        match self.require_owner(env, &caller) {
            Ok(()) => {},
            Err(fault) => return Err(fault),
        }
        if max_rate <= 0 {
            return Err(PayrollFault::Error(PayrollError::ExchangeRateInvalid));
        }
        DataKey::set_exchange_rate_max_rate_sanity_bound(&mut self.store, max_rate);
        Ok(())
    }

    /// Names who may set exchange rates besides the owner. Only the owner may.
    pub fn set_exchange_rate_admin(
        &mut self,
        env: &Env,
        caller: Address,
        admin: Address,
    ) -> (r: Result<(), PayrollFault>)
        ensures
            (final(self)@, r) == answer(
                old(self)@,
                old(self)@.owner_refusal(*env, caller),
                PayrollState { exchange_rate_admin: Some(admin), ..old(self)@ },
            ),
    {
        match self.require_owner(env, &caller) {
            Ok(()) => {},
            Err(fault) => return Err(fault),
        }
        self.exchange_rate_admin = Some(admin);
        Ok(())
    }

    /// Whether an exchange rate passes the guards.
    fn is_acceptable_rate(&self, base: &Address, quote: &Address, rate: i128) -> (r: bool)
        ensures
            r == self@.passes_rate_guards(DataKey::ExchangeRate(*base, *quote), rate),
    {
        if rate <= 0 {
            return false;
        }
        match DataKey::get_exchange_rate_max_rate_sanity_bound(&self.store) {
            Some(most) => {
                if rate > most {
                    return false;
                }
            },
            None => {},
        }
        let bps: u32 = match DataKey::get_exchange_rate_max_deviation_bps(&self.store) {
            Some(bps) => bps,
            None => return true,
        };
        match DataKey::get_exchange_rate(&self.store, base, quote) {
            Some(before) => !is_deviating(before.rate, rate, bps),
            None => true,
        }
    }

    /// Sets the exchange rate of a currency pair, as of now. Only the owner and whoever
    /// they named for it may. The rate has to be positive, to stay at or below the sanity
    /// bound and to stay close enough to the rate that it replaces.
    pub fn set_exchange_rate(
        &mut self,
        env: &Env,
        caller: Address,
        base: Address,
        quote: Address,
        rate: i128,
    ) -> (r: Result<(), PayrollFault>)
        ensures
            (final(self)@, r) == answer(
                old(self)@,
                old(self)@.rate_refusal(*env, caller, DataKey::ExchangeRate(base, quote), rate),
                old(self)@.with_store(
                    old(self)@.store.with_rate(
                        DataKey::ExchangeRate(base, quote),
                        ExchangeRateInfo { rate, updated_at: env.timestamp },
                    ),
                ),
            ),
            old(self)@.store.exchange_rate_max_rate_sanity_bound matches Some(most) && rate > most
                ==> r is Err,
    {
        let owner: Address = match self.contract_owner() {
            Ok(owner) => owner,
            Err(error) => return Err(PayrollFault::Error(error)),
        };
        if !env.is_authorized(&caller) {
            return Err(PayrollFault::Unauthenticated);
        }
        let is_rate_admin: bool = match self.exchange_rate_admin {
            Some(admin) => caller == admin,
            None => false,
        };
        if caller != owner && !is_rate_admin {
            return Err(PayrollFault::Error(PayrollError::Unauthorized));
        }
        if !self.is_acceptable_rate(&base, &quote, rate) {
            return Err(PayrollFault::Error(PayrollError::ExchangeRateInvalid));
        }
        DataKey::set_exchange_rate(&mut self.store, env, &base, &quote, rate);
        Ok(())
    }

    /// Corrects what an agreement has paid in all. Only an admin may.
    pub fn admin_set_agreement_paid_amount(
        &mut self,
        env: &Env,
        operator: Address,
        has_admin_role: bool,
        agreement_id: u128,
        amount: i128,
    ) -> (r: Result<(), PayrollFault>)
        ensures
            (final(self)@, r) == answer(
                old(self)@,
                old(self)@.set_amount_refusal(*env, operator, has_admin_role, amount),
                old(self)@.with_store(
                    old(self)@.store.with_amount(
                        DataKey::AgreementPaidAmount(agreement_id),
                        amount,
                    ),
                ),
            ),
    {
        match self.require_corrector(env, &operator, has_admin_role) {
            Ok(()) => {},
            Err(fault) => return Err(fault),
        }
        if amount < 0 {
            return Err(PayrollFault::InvalidAmount);
        }
        DataKey::set_agreement_paid_amount(&mut self.store, agreement_id, amount);
        Ok(())
    }

    /// Corrects what an agreement holds of a token. Only an admin may.
    pub fn admin_set_escrow_balance(
        &mut self,
        env: &Env,
        operator: Address,
        has_admin_role: bool,
        agreement_id: u128,
        token: Address,
        amount: i128,
    ) -> (r: Result<(), PayrollFault>)
        ensures
            (final(self)@, r) == answer(
                old(self)@,
                old(self)@.set_amount_refusal(*env, operator, has_admin_role, amount),
                old(self)@.with_store(
                    old(self)@.store.with_amount(
                        DataKey::AgreementEscrowBalance(agreement_id, token),
                        amount,
                    ).extending(DataKey::AgreementEscrowBalance(agreement_id, token)),
                ),
            ),
    {
        match self.require_corrector(env, &operator, has_admin_role) {
            Ok(()) => {},
            Err(fault) => return Err(fault),
        }
        if amount < 0 {
            return Err(PayrollFault::InvalidAmount);
        }
        DataKey::set_agreement_escrow_balance(&mut self.store, agreement_id, &token, amount);
        Ok(())
    }

    /// Corrects the token that an agreement pays in. Only an admin may.
    pub fn admin_set_agreement_token(
        &mut self,
        env: &Env,
        operator: Address,
        has_admin_role: bool,
        agreement_id: u128,
        token: Address,
    ) -> (r: Result<(), PayrollFault>)
        ensures
            (final(self)@, r) == answer(
                old(self)@,
                old(self)@.admin_refusal(*env, operator, has_admin_role),
                old(self)@.with_store(
                    old(self)@.store.with_account(DataKey::AgreementToken(agreement_id), token),
                ),
            ),
    {
        match self.require_upgrade_admin(env, &operator, has_admin_role) {
            Ok(()) => {},
            Err(fault) => return Err(fault),
        }
        DataKey::set_agreement_token(&mut self.store, agreement_id, &token);
        Ok(())
    }

    /// Corrects when an agreement was activated. Only an admin may.
    pub fn admin_set_activation_time(
        &mut self,
        env: &Env,
        operator: Address,
        has_admin_role: bool,
        agreement_id: u128,
        timestamp: u64,
    ) -> (r: Result<(), PayrollFault>)
        ensures
            (final(self)@, r) == answer(
                old(self)@,
                old(self)@.admin_refusal(*env, operator, has_admin_role),
                old(self)@.with_store(
                    old(self)@.store.with_time(
                        DataKey::AgreementActivationTime(agreement_id),
                        timestamp,
                    ),
                ),
            ),
    {
        match self.require_upgrade_admin(env, &operator, has_admin_role) {
            Ok(()) => {},
            Err(fault) => return Err(fault),
        }
        DataKey::set_agreement_activation_time(&mut self.store, agreement_id, timestamp);
        Ok(())
    }

    /// Corrects how long a period of an agreement is. Only an admin may.
    pub fn admin_set_period_duration(
        &mut self,
        env: &Env,
        operator: Address,
        has_admin_role: bool,
        agreement_id: u128,
        duration: u64,
    ) -> (r: Result<(), PayrollFault>)
        ensures
            (final(self)@, r) == answer(
                old(self)@,
                old(self)@.set_duration_refusal(*env, operator, has_admin_role, duration),
                old(self)@.with_store(
                    old(self)@.store.with_time(
                        DataKey::AgreementPeriodDuration(agreement_id),
                        duration,
                    ),
                ),
            ),
    {
        match self.require_upgrade_admin(env, &operator, has_admin_role) {
            Ok(()) => {},
            Err(fault) => return Err(fault),
        }
        if duration == 0 {
            return Err(PayrollFault::InvalidDuration);
        }
        DataKey::set_agreement_period_duration(&mut self.store, agreement_id, duration);
        Ok(())
    }

    /// How many periods the employee at an index of an agreement has claimed.
    pub fn get_employee_claimed_periods(&self, agreement_id: u128, employee_index: u32) -> (r: u32)
        ensures
            r == crate::storage::entry_or(
                self@.store.counts,
                DataKey::EmployeeClaimedPeriods(agreement_id, employee_index),
                0,
            ),
    {
        DataKey::get_employee_claimed_periods(&self.store, agreement_id, employee_index)
    }

    /// How many periods of an escrow agreement were claimed; none where its payments do
    /// not go by time.
    pub fn get_claimed_periods(&self, agreement_id: u128) -> (r: u32)
        ensures
            r == (if self@.agreements.contains_key(agreement_id)
                && self@.agreements[agreement_id].claimed_periods is Some {
                self@.agreements[agreement_id].claimed_periods->0
            } else {
                0
            }),
    {
        match self.agreements.get(&agreement_id) {
            Some(agreement) => match agreement.claimed_periods {
                Some(periods) => periods,
                None => 0,
            },
            None => 0,
        }
    }
}

} // verus!
