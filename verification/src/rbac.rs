//! Role-based access control: who holds which role, and who may change it.

use vstd::prelude::*;

use crate::address::Address;
use crate::env::Env;
use crate::table::Table;

verus! {

/// What an address may do.
#[derive(Clone, Copy, Debug, PartialEq, Eq, Structural)]
pub enum Role {
    Admin,
    Employer,
    Employee,
    Arbiter,
}

/// Why a call fails.
#[derive(Clone, Copy, Debug, PartialEq, Eq, Structural)]
pub enum RbacFault {
    /// An address that has to authorize the call did not.
    Unauthenticated,
    NotInitialized,
    AlreadyInitialized,
    OnlyAdminGrants,
    OnlyAdminRevokes,
    CannotRevokeAdminFromOwner,
    CannotRevokeAllFromOwner,
    RoleNotHeld,
    MissingRequiredRole,
    OnlyOwnerTransfers,
    NoPendingOwner,
    NotPendingOwner,
}

/// What the contract announces.
#[derive(Clone, Copy, Debug, PartialEq, Eq)]
pub enum RbacEvent {
    Initialized(Address),
    Granted(Address, Role),
    Revoked(Address, Role),
    Renounced(Address, Role),
    OwnershipProposed(Address),
    OwnershipTransferred { previous_owner: Address, new_owner: Address },
}

/// The contract's storage.
pub struct RbacContract {
    /// Set once the contract is initialized.
    pub owner: Option<Address>,
    /// Who may become the owner by accepting.
    pub pending_owner: Option<Address>,
    pub roles: Table<Address, Vec<Role>>,
    /// What was announced, oldest first.
    pub events: Vec<RbacEvent>,
}

/// The contract's storage, as mathematical values.
#[verifier::ext_equal]
pub struct RbacState {
    pub owner: Option<Address>,
    pub pending_owner: Option<Address>,
    pub roles: Map<Address, Seq<Role>>,
    pub events: Seq<RbacEvent>,
}

impl View for RbacContract {
    type V = RbacState;

    open spec fn view(&self) -> RbacState {
        RbacState {
            owner: self.owner,
            pending_owner: self.pending_owner,
            roles: self.roles@.map_values(|roles: Vec<Role>| roles@),
            events: self.events@,
        }
    }
}

/// Whether a role that was granted includes another: an admin has every role, an
/// employer is an employee too, and every role includes itself.
pub open spec fn implies(granted: Role, required: Role) -> bool {
    granted == Role::Admin || granted == required || (granted == Role::Employer && required
        == Role::Employee)
}

/// The roles with one more, if it was not there.
pub open spec fn granted(roles: Seq<Role>, role: Role) -> Seq<Role> {
    if roles.contains(role) {
        roles
    } else {
        roles.push(role)
    }
}

/// The roles with several more, each if it was not there.
pub open spec fn granted_all(roles: Seq<Role>, added: Seq<Role>) -> Seq<Role>
    decreases added.len(),
{
    if added.len() == 0 {
        roles
    } else {
        granted(granted_all(roles, added.drop_last()), added.last())
    }
}

/// The test for roles that are not the one given.
pub open spec fn other_than(role: Role) -> spec_fn(Role) -> bool {
    |held: Role| held != role
}

/// The test for roles that are not among those removed; `protected` keeps the
/// admin role in any case.
pub open spec fn not_among(removed: Seq<Role>, protected: bool) -> spec_fn(Role) -> bool {
    |held: Role| !removed.contains(held) || (protected && held == Role::Admin)
}

/// The roles without one.
pub open spec fn revoked(roles: Seq<Role>, role: Role) -> Seq<Role> {
    roles.filter(other_than(role))
}

/// The roles without several; `protected` keeps the admin role in any case.
pub open spec fn revoked_all(roles: Seq<Role>, removed: Seq<Role>, protected: bool) -> Seq<Role> {
    roles.filter(not_among(removed, protected))
}

/// The answer to a call that changes the state unless it is turned down.
pub open spec fn answer(
    before: RbacState,
    refusal: Option<RbacFault>,
    changed: RbacState,
) -> (RbacState, Result<(), RbacFault>) {
    match refusal {
        Some(fault) => (before, Err(fault)),
        None => (changed, Ok(())),
    }
}

impl RbacState {
    /// A freshly deployed contract.
    pub open spec fn fresh() -> RbacState {
        RbacState { owner: None, pending_owner: None, roles: Map::empty(), events: Seq::empty() }
    }

    /// What holds of the contract whatever is called: nobody holds a role twice,
    /// and nobody holds any before the contract is initialized.
    pub open spec fn wf(self) -> bool {
        &&& forall|address: Address| (#[trigger] self.roles_of(address)).no_duplicates()
        &&& self.owner is None ==> self.pending_owner is None && self.roles.dom() == Set::<
            Address,
        >::empty()
    }

    pub open spec fn announcing(self, event: RbacEvent) -> RbacState {
        RbacState { events: self.events.push(event), ..self }
    }

    /// The roles that an address was granted.
    pub open spec fn roles_of(self, address: Address) -> Seq<Role> {
        if self.roles.contains_key(address) {
            self.roles[address]
        } else {
            Seq::empty()
        }
    }

    /// Whether an address has a role, directly or by one that includes it.
    pub open spec fn has(self, address: Address, required: Role) -> bool {
        exists|i: int|
            0 <= i < self.roles_of(address).len() && implies(
                #[trigger] self.roles_of(address)[i],
                required,
            )
    }

    pub open spec fn with_roles(self, address: Address, roles: Seq<Role>) -> RbacState {
        RbacState { roles: self.roles.insert(address, roles), ..self }
    }

    /// The state in which an address was granted a role, if it did not hold it.
    pub open spec fn granting(self, address: Address, role: Role) -> RbacState {
        if self.roles_of(address).contains(role) {
            self
        } else {
            self.with_roles(address, self.roles_of(address).push(role))
        }
    }

    /// The state in which an address lost a role, if it held it.
    pub open spec fn revoking(self, address: Address, role: Role) -> RbacState {
        self.with_roles(address, revoked(self.roles_of(address), role))
    }

    /// Why `initialize` is turned down, if it is.
    pub open spec fn initialize_refusal(self, env: Env, owner: Address) -> Option<RbacFault> {
        if !env.authorizes(owner) {
            Some(RbacFault::Unauthenticated)
        } else if self.owner is Some {
            Some(RbacFault::AlreadyInitialized)
        } else {
            None
        }
    }

    /// The state in which the contract has been initialized: the owner is the first admin.
    pub open spec fn initializing(self, owner: Address) -> RbacState {
        RbacState { owner: Some(owner), ..self }.with_roles(owner, seq![Role::Admin]).announcing(
            RbacEvent::Initialized(owner),
        )
    }

    /// Why a call is turned down whatever it is about, if it is.
    pub open spec fn caller_refusal(self, env: Env, caller: Address) -> Option<RbacFault> {
        if self.owner is None {
            Some(RbacFault::NotInitialized)
        } else if !env.authorizes(caller) {
            Some(RbacFault::Unauthenticated)
        } else {
            None
        }
    }

    /// Why a call that is an admin's to make is turned down, if it is.
    pub open spec fn admin_refusal(
        self,
        env: Env,
        caller: Address,
        stranger: RbacFault,
    ) -> Option<RbacFault> {
        match self.caller_refusal(env, caller) {
            Some(fault) => Some(fault),
            None => if !self.has(caller, Role::Admin) {
                Some(stranger)
            } else {
                None
            },
        }
    }

    pub open spec fn grant_refusal(self, env: Env, caller: Address) -> Option<RbacFault> {
        self.admin_refusal(env, caller, RbacFault::OnlyAdminGrants)
    }

    pub open spec fn bulk_revoke_refusal(self, env: Env, caller: Address) -> Option<RbacFault> {
        self.admin_refusal(env, caller, RbacFault::OnlyAdminRevokes)
    }

    /// Why `revoke_role` is turned down, if it is: the owner stays an admin.
    pub open spec fn revoke_refusal(
        self,
        env: Env,
        caller: Address,
        target: Address,
        role: Role,
    ) -> Option<RbacFault> {
        match self.bulk_revoke_refusal(env, caller) {
            Some(fault) => Some(fault),
            None => if self.owner == Some(target) && role == Role::Admin {
                Some(RbacFault::CannotRevokeAdminFromOwner)
            } else {
                None
            },
        }
    }

    /// Why `revoke_all` is turned down, if it is: the owner is not stripped of roles.
    pub open spec fn revoke_all_refusal(
        self,
        env: Env,
        caller: Address,
        target: Address,
    ) -> Option<RbacFault> {
        match self.bulk_revoke_refusal(env, caller) {
            Some(fault) => Some(fault),
            None => if self.owner == Some(target) {
                Some(RbacFault::CannotRevokeAllFromOwner)
            } else {
                None
            },
        }
    }

    /// Why `renounce_role` is turned down, if it is.
    pub open spec fn renounce_refusal(
        self,
        env: Env,
        caller: Address,
        role: Role,
    ) -> Option<RbacFault> {
        match self.caller_refusal(env, caller) {
            Some(fault) => Some(fault),
            None => if !self.roles_of(caller).contains(role) {
                Some(RbacFault::RoleNotHeld)
            } else {
                None
            },
        }
    }

    /// Why `require_role` fails, if it does.
    pub open spec fn role_refusal(
        self,
        env: Env,
        addr: Address,
        required: Role,
    ) -> Option<RbacFault> {
        match self.caller_refusal(env, addr) {
            Some(fault) => Some(fault),
            None => if !self.has(addr, required) {
                Some(RbacFault::MissingRequiredRole)
            } else {
                None
            },
        }
    }

    /// Why `transfer_ownership` is turned down, if it is.
    pub open spec fn transfer_refusal(self, env: Env, caller: Address) -> Option<RbacFault> {
        match self.caller_refusal(env, caller) {
            Some(fault) => Some(fault),
            None => if self.owner != Some(caller) {
                Some(RbacFault::OnlyOwnerTransfers)
            } else {
                None
            },
        }
    }

    /// The state in which someone was offered the ownership.
    pub open spec fn proposing(self, new_owner: Address) -> RbacState {
        RbacState { pending_owner: Some(new_owner), ..self }.announcing(
            RbacEvent::OwnershipProposed(new_owner),
        )
    }

    /// Why `accept_ownership` is turned down, if it is.
    pub open spec fn accept_refusal(self, env: Env, caller: Address) -> Option<RbacFault> {
        match self.caller_refusal(env, caller) {
            Some(fault) => Some(fault),
            None => match self.pending_owner {
                None => Some(RbacFault::NoPendingOwner),
                Some(pending) => if pending != caller {
                    Some(RbacFault::NotPendingOwner)
                } else {
                    None
                },
            },
        }
    }

    /// The state in which the offered ownership was accepted: the admin role goes
    /// from the old owner to the new one. An owner who accepts their own offer
    /// stays an admin.
    pub open spec fn accepting(self, caller: Address) -> RbacState {
        let previous_owner = self.owner->0;
        let admitted = self.granting(caller, Role::Admin);
        let moved = if previous_owner == caller {
            admitted
        } else {
            admitted.revoking(previous_owner, Role::Admin)
        };
        RbacState { owner: Some(caller), pending_owner: None, ..moved }.announcing(
            RbacEvent::OwnershipTransferred { previous_owner, new_owner: caller },
        )
    }
}

/// Whether a role that was granted includes the required one.
pub fn role_implies(granted: &Role, required: &Role) -> (r: bool)
    ensures
        r == implies(*granted, *required),
{
    match granted {
        Role::Admin => true,
        Role::Employer => *required == Role::Employer || *required == Role::Employee,
        Role::Employee => *required == Role::Employee,
        Role::Arbiter => *required == Role::Arbiter,
    }
}

/// Whether `role` is in `roles`.
fn has_exact_role(roles: &Vec<Role>, role: &Role) -> (r: bool)
    ensures
        r == roles@.contains(*role),
{
    let mut i: usize = 0;
    while i < roles.len()
        invariant
            i <= roles@.len(),
            forall|j: int| 0 <= j < i ==> roles@[j] != *role,
        decreases roles@.len() - i,
    {
        if roles[i] == *role {
            assert(roles@[i as int] == *role);
            return true;
        }
        i = i + 1;
    }
    false
}

/// The roles without those in `removed`; `protected` keeps the admin role in any case.
fn without_roles(roles: &Vec<Role>, removed: &Vec<Role>, protected: bool) -> (r: Vec<Role>)
    ensures
        r@ == revoked_all(roles@, removed@, protected),
{
    let ghost kept = not_among(removed@, protected);
    let mut r: Vec<Role> = Vec::new();
    let mut i: usize = 0;
    proof {
        reveal(Seq::filter);
        assert(roles@.take(0).filter(kept) =~= Seq::empty());
    }
    while i < roles.len()
        invariant
            i <= roles@.len(),
            kept == not_among(removed@, protected),
            r@ == roles@.take(i as int).filter(kept),
        decreases roles@.len() - i,
    {
        let held: Role = roles[i];
        proof {
            reveal(Seq::filter);
            assert(roles@.take(i + 1).drop_last() =~= roles@.take(i as int));
            assert(roles@.take(i + 1).last() == held);
        }
        if !has_exact_role(removed, &held) || (protected && held == Role::Admin) {
            r.push(held);
        }
        i = i + 1;
    }
    assert(roles@.take(i as int) =~= roles@);
    r
}

/// The roles without one.
fn without_role(roles: &Vec<Role>, role: Role) -> (r: Vec<Role>)
    ensures
        r@ == revoked(roles@, role),
{
    let mut removed: Vec<Role> = Vec::new();
    removed.push(role);
    proof {
        assert(removed@[0] == role);
        assert(forall|held: Role| removed@.contains(held) ==> held == role);
        assert(not_among(removed@, false) =~= other_than(role));
    }
    without_roles(roles, &removed, false)
}

impl RbacContract {
    /// A freshly deployed contract.
    pub fn new() -> (contract: Self)
        ensures
            contract@ == RbacState::fresh(),
            contract@.wf(),
    {
        let contract = RbacContract {
            owner: None,
            pending_owner: None,
            roles: Table::new(),
            events: Vec::new(),
        };
        assert(contract@ =~= RbacState::fresh());
        contract
    }

    /// The roles that an address was granted.
    fn read_roles(&self, addr: &Address) -> (r: Vec<Role>)
        ensures
            r@ == self@.roles_of(*addr),
    {
        match self.roles.get(addr) {
            Some(roles) => {
                let mut r: Vec<Role> = Vec::new();
                let mut i: usize = 0;
                while i < roles.len()
                    invariant
                        i <= roles@.len(),
                        r@ == roles@.take(i as int),
                    decreases roles@.len() - i,
                {
                    r.push(roles[i]);
                    i = i + 1;
                    assert(r@ =~= roles@.take(i as int));
                }
                assert(roles@.take(i as int) =~= roles@);
                r
            },
            None => Vec::new(),
        }
    }

    /// Sets the roles that an address was granted.
    fn write_roles(&mut self, addr: Address, roles: Vec<Role>)
        ensures
            final(self)@ == old(self)@.with_roles(addr, roles@),
    {
        self.roles.set(addr, roles);
        assert(self@ =~= old(self)@.with_roles(addr, roles@));
    }

    /// Whether an address has a role that includes the required one.
    fn has_implied_role(&self, addr: &Address, required: &Role) -> (r: bool)
        ensures
            r == self@.has(*addr, *required),
    {
        let roles: Vec<Role> = self.read_roles(addr);
        let mut i: usize = 0;
        while i < roles.len()
            invariant
                i <= roles@.len(),
                roles@ == self@.roles_of(*addr),
                forall|j: int| 0 <= j < i ==> !implies(#[trigger] roles@[j], *required),
            decreases roles@.len() - i,
        {
            if role_implies(&roles[i], required) {
                assert(implies(self@.roles_of(*addr)[i as int], *required));
                return true;
            }
            i = i + 1;
        }
        false
    }

    /// Checks that the caller authorized the call of an initialized contract.
    fn require_caller(&self, env: &Env, caller: &Address) -> (r: Result<Address, RbacFault>)
        ensures
            r == match self@.caller_refusal(*env, *caller) {
                Some(fault) => Err::<Address, RbacFault>(fault),
                None => Ok(self@.owner->0),
            },
    {
        match self.owner {
            None => Err(RbacFault::NotInitialized),
            Some(owner) => if env.is_authorized(caller) {
                Ok(owner)
            } else {
                Err(RbacFault::Unauthenticated)
            },
        }
    }

    /// Checks that an admin makes the call.
    fn require_admin(
        &self,
        env: &Env,
        caller: &Address,
        stranger: RbacFault,
    ) -> (r: Result<Address, RbacFault>)
        ensures
            r == match self@.admin_refusal(*env, *caller, stranger) {
                Some(fault) => Err::<Address, RbacFault>(fault),
                None => Ok(self@.owner->0),
            },
    {
        match self.require_caller(env, caller) {
            Err(fault) => Err(fault),
            Ok(owner) => if self.has_implied_role(caller, &Role::Admin) {
                Ok(owner)
            } else {
                Err(stranger)
            },
        }
    }

    /// Makes an address the owner and the first admin, once.
    pub fn initialize(&mut self, env: &Env, owner: Address) -> (r: Result<(), RbacFault>)
        ensures
            (final(self)@, r) == answer(
                old(self)@,
                old(self)@.initialize_refusal(*env, owner),
                old(self)@.initializing(owner),
            ),
            old(self)@.wf() ==> final(self)@.wf(),
    {
        proof {
            if self@.wf() {
                crate::laws::rbac::calls_keep_wf(
                    self@,
                    *env,
                    crate::laws::rbac::Call::Initialize { owner },
                );
            }
        }
        if !env.is_authorized(&owner) {
            return Err(RbacFault::Unauthenticated);
        }
        if self.owner.is_some() {
            return Err(RbacFault::AlreadyInitialized);
        }
        self.owner = Some(owner);
        let mut roles: Vec<Role> = Vec::new();
        roles.push(Role::Admin);
        assert(roles@ =~= seq![Role::Admin]);
        self.write_roles(owner, roles);
        self.events.push(RbacEvent::Initialized(owner));
        Ok(())
    }

    /// Grants a role. Only an admin may. Granting what is held changes no role.
    pub fn grant_role(
        &mut self,
        env: &Env,
        caller: Address,
        target: Address,
        role: Role,
    ) -> (r: Result<(), RbacFault>)
        ensures
            (final(self)@, r) == answer(
                old(self)@,
                old(self)@.grant_refusal(*env, caller),
                old(self)@.granting(target, role).announcing(RbacEvent::Granted(target, role)),
            ),
            old(self)@.wf() ==> final(self)@.wf(),
    {
        proof {
            if self@.wf() {
                crate::laws::rbac::calls_keep_wf(
                    self@,
                    *env,
                    crate::laws::rbac::Call::Grant { caller, target, role },
                );
            }
        }
        match self.require_admin(env, &caller, RbacFault::OnlyAdminGrants) {
            Ok(_) => {},
            Err(fault) => return Err(fault),
        }
        let mut roles: Vec<Role> = self.read_roles(&target);
        if !has_exact_role(&roles, &role) {
            roles.push(role);
            self.write_roles(target, roles);
        }
        self.events.push(RbacEvent::Granted(target, role));
        Ok(())
    }

    /// Revokes a role. Only an admin may, and nobody can take the admin role from
    /// the owner so. Revoking what is not held takes nothing.
    pub fn revoke_role(
        &mut self,
        env: &Env,
        caller: Address,
        target: Address,
        role: Role,
    ) -> (r: Result<(), RbacFault>)
        ensures
            (final(self)@, r) == answer(
                old(self)@,
                old(self)@.revoke_refusal(*env, caller, target, role),
                old(self)@.revoking(target, role).announcing(RbacEvent::Revoked(target, role)),
            ),
            old(self)@.wf() ==> final(self)@.wf(),
    {
        proof {
            if self@.wf() {
                crate::laws::rbac::calls_keep_wf(
                    self@,
                    *env,
                    crate::laws::rbac::Call::Revoke { caller, target, role },
                );
            }
        }
        let owner: Address = match self.require_admin(env, &caller, RbacFault::OnlyAdminRevokes) {
            Ok(owner) => owner,
            Err(fault) => return Err(fault),
        };
        if target == owner && role == Role::Admin {
            return Err(RbacFault::CannotRevokeAdminFromOwner);
        }
        let roles: Vec<Role> = without_role(&self.read_roles(&target), role);
        self.write_roles(target, roles);
        self.events.push(RbacEvent::Revoked(target, role));
        Ok(())
    }

    /// Grants several roles at once. Only an admin may. What is held, or named
    /// twice, is skipped.
    pub fn bulk_grant(
        &mut self,
        env: &Env,
        caller: Address,
        target: Address,
        roles_to_grant: Vec<Role>,
    ) -> (r: Result<(), RbacFault>)
        ensures
            (final(self)@, r) == answer(
                old(self)@,
                old(self)@.grant_refusal(*env, caller),
                old(self)@.with_roles(
                    target,
                    granted_all(old(self)@.roles_of(target), roles_to_grant@),
                ),
            ),
            old(self)@.wf() ==> final(self)@.wf(),
    {
        proof {
            if self@.wf() {
                crate::laws::rbac::calls_keep_wf(
                    self@,
                    *env,
                    crate::laws::rbac::Call::BulkGrant { caller, target, roles: roles_to_grant@ },
                );
            }
        }
        match self.require_admin(env, &caller, RbacFault::OnlyAdminGrants) {
            Ok(_) => {},
            Err(fault) => return Err(fault),
        }
        let mut current: Vec<Role> = self.read_roles(&target);
        let ghost before = current@;
        let mut i: usize = 0;
        while i < roles_to_grant.len()
            invariant
                i <= roles_to_grant@.len(),
                current@ == granted_all(before, roles_to_grant@.take(i as int)),
            decreases roles_to_grant@.len() - i,
        {
            let role: Role = roles_to_grant[i];
            assert(roles_to_grant@.take(i + 1).drop_last() =~= roles_to_grant@.take(i as int));
            if !has_exact_role(&current, &role) {
                current.push(role);
            }
            i = i + 1;
        }
        assert(roles_to_grant@.take(i as int) =~= roles_to_grant@);
        self.write_roles(target, current);
        Ok(())
    }

    /// Revokes several roles at once. Only an admin may. What is not held is
    /// skipped, and so is the owner's admin role.
    pub fn bulk_revoke(
        &mut self,
        env: &Env,
        caller: Address,
        target: Address,
        roles_to_revoke: Vec<Role>,
    ) -> (r: Result<(), RbacFault>)
        ensures
            (final(self)@, r) == answer(
                old(self)@,
                old(self)@.bulk_revoke_refusal(*env, caller),
                old(self)@.with_roles(
                    target,
                    revoked_all(
                        old(self)@.roles_of(target),
                        roles_to_revoke@,
                        old(self)@.owner == Some(target),
                    ),
                ),
            ),
            old(self)@.wf() ==> final(self)@.wf(),
    {
        proof {
            if self@.wf() {
                crate::laws::rbac::calls_keep_wf(
                    self@,
                    *env,
                    crate::laws::rbac::Call::BulkRevoke { caller, target, roles: roles_to_revoke@ },
                );
            }
        }
        let owner: Address = match self.require_admin(env, &caller, RbacFault::OnlyAdminRevokes) {
            Ok(owner) => owner,
            Err(fault) => return Err(fault),
        };
        let current: Vec<Role> = self.read_roles(&target);
        let left: Vec<Role> = without_roles(&current, &roles_to_revoke, target == owner);
        self.write_roles(target, left);
        Ok(())
    }

    /// Revokes all roles of an address. Only an admin may, and not from the owner.
    pub fn revoke_all(
        &mut self,
        env: &Env,
        caller: Address,
        target: Address,
    ) -> (r: Result<(), RbacFault>)
        ensures
            (final(self)@, r) == answer(
                old(self)@,
                old(self)@.revoke_all_refusal(*env, caller, target),
                old(self)@.with_roles(target, Seq::empty()),
            ),
            old(self)@.wf() ==> final(self)@.wf(),
    {
        proof {
            if self@.wf() {
                crate::laws::rbac::calls_keep_wf(
                    self@,
                    *env,
                    crate::laws::rbac::Call::RevokeAll { caller, target },
                );
            }
        }
        let owner: Address = match self.require_admin(env, &caller, RbacFault::OnlyAdminRevokes) {
            Ok(owner) => owner,
            Err(fault) => return Err(fault),
        };
        if target == owner {
            return Err(RbacFault::CannotRevokeAllFromOwner);
        }
        self.write_roles(target, Vec::new());
        Ok(())
    }

    /// Gives up a role that the caller holds.
    pub fn renounce_role(
        &mut self,
        env: &Env,
        caller: Address,
        role: Role,
    ) -> (r: Result<(), RbacFault>)
        ensures
            (final(self)@, r) == answer(
                old(self)@,
                old(self)@.renounce_refusal(*env, caller, role),
                old(self)@.revoking(caller, role).announcing(RbacEvent::Renounced(caller, role)),
            ),
            old(self)@.wf() ==> final(self)@.wf(),
    {
        proof {
            if self@.wf() {
                crate::laws::rbac::calls_keep_wf(
                    self@,
                    *env,
                    crate::laws::rbac::Call::Renounce { caller, role },
                );
            }
        }
        match self.require_caller(env, &caller) {
            Ok(_) => {},
            Err(fault) => return Err(fault),
        }
        let roles: Vec<Role> = self.read_roles(&caller);
        if !has_exact_role(&roles, &role) {
            return Err(RbacFault::RoleNotHeld);
        }
        self.write_roles(caller, without_role(&roles, role));
        self.events.push(RbacEvent::Renounced(caller, role));
        Ok(())
    }

    /// The roles that an address was granted, without those that they include.
    pub fn get_roles(&self, addr: &Address) -> (r: Result<Vec<Role>, RbacFault>)
        ensures
            if self@.owner is None {
                r == Err::<Vec<Role>, RbacFault>(RbacFault::NotInitialized)
            } else {
                r matches Ok(roles) && roles@ == self@.roles_of(*addr)
            },
    {
        if self.owner.is_none() {
            return Err(RbacFault::NotInitialized);
        }
        Ok(self.read_roles(addr))
    }

    /// Whether an address has a role, directly or by one that includes it.
    pub fn has_role(&self, addr: &Address, required: Role) -> (r: Result<bool, RbacFault>)
        ensures
            r == if self@.owner is None {
                Err::<bool, RbacFault>(RbacFault::NotInitialized)
            } else {
                Ok(self@.has(*addr, required))
            },
    {
        if self.owner.is_none() {
            return Err(RbacFault::NotInitialized);
        }
        Ok(self.has_implied_role(addr, &required))
    }

    /// Fails unless an address authorized the call and has a role.
    pub fn require_role(
        &self,
        env: &Env,
        addr: &Address,
        required: Role,
    ) -> (r: Result<(), RbacFault>)
        ensures
            r == match self@.role_refusal(*env, *addr, required) {
                Some(fault) => Err::<(), RbacFault>(fault),
                None => Ok(()),
            },
    {
        match self.require_caller(env, addr) {
            Ok(_) => {},
            Err(fault) => return Err(fault),
        }
        if !self.has_implied_role(addr, &required) {
            return Err(RbacFault::MissingRequiredRole);
        }
        Ok(())
    }

    /// The owner.
    pub fn owner(&self) -> (r: Result<Address, RbacFault>)
        ensures
            r == match self@.owner {
                Some(owner) => Ok::<Address, RbacFault>(owner),
                None => Err(RbacFault::NotInitialized),
            },
    {
        match self.owner {
            Some(owner) => Ok(owner),
            None => Err(RbacFault::NotInitialized),
        }
    }

    /// Offers the ownership to an address, which has it only once it accepts. Only
    /// the owner may.
    pub fn transfer_ownership(
        &mut self,
        env: &Env,
        caller: Address,
        new_owner: Address,
    ) -> (r: Result<(), RbacFault>)
        ensures
            (final(self)@, r) == answer(
                old(self)@,
                old(self)@.transfer_refusal(*env, caller),
                old(self)@.proposing(new_owner),
            ),
            old(self)@.wf() ==> final(self)@.wf(),
    {
        proof {
            if self@.wf() {
                crate::laws::rbac::calls_keep_wf(
                    self@,
                    *env,
                    crate::laws::rbac::Call::Transfer { caller, new_owner },
                );
            }
        }
        let owner: Address = match self.require_caller(env, &caller) {
            Ok(owner) => owner,
            Err(fault) => return Err(fault),
        };
        if caller != owner {
            return Err(RbacFault::OnlyOwnerTransfers);
        }
        self.pending_owner = Some(new_owner);
        self.events.push(RbacEvent::OwnershipProposed(new_owner));
        Ok(())
    }

    /// Accepts the ownership that was offered to the caller: the admin role goes
    /// with it.
    pub fn accept_ownership(&mut self, env: &Env, caller: Address) -> (r: Result<(), RbacFault>)
        ensures
            (final(self)@, r) == answer(
                old(self)@,
                old(self)@.accept_refusal(*env, caller),
                old(self)@.accepting(caller),
            ),
            old(self)@.wf() ==> final(self)@.wf(),
    {
        proof {
            if self@.wf() {
                crate::laws::rbac::calls_keep_wf(
                    self@,
                    *env,
                    crate::laws::rbac::Call::Accept { caller },
                );
            }
        }
        let previous_owner: Address = match self.require_caller(env, &caller) {
            Ok(owner) => owner,
            Err(fault) => return Err(fault),
        };
        match self.pending_owner {
            None => return Err(RbacFault::NoPendingOwner),
            Some(pending) => {
                if pending != caller {
                    return Err(RbacFault::NotPendingOwner);
                }
            },
        }
        let mut roles: Vec<Role> = self.read_roles(&caller);
        if !has_exact_role(&roles, &Role::Admin) {
            roles.push(Role::Admin);
            self.write_roles(caller, roles);
        }
        if previous_owner != caller {
            let left: Vec<Role> = without_role(&self.read_roles(&previous_owner), Role::Admin);
            self.write_roles(previous_owner, left);
        }
        self.owner = Some(caller);
        self.pending_owner = None;
        self.events.push(
            RbacEvent::OwnershipTransferred { previous_owner, new_owner: caller },
        );
        Ok(())
    }
}

} // verus!
