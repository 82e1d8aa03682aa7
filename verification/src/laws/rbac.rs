//! What holds of the role contract across calls.

use vstd::prelude::*;

use crate::address::Address;
use crate::env::Env;
use crate::rbac::{RbacContract, RbacEvent, RbacFault, RbacState, Role};

verus! {

/// A call that can change the contract.
pub enum Call {
    Initialize { owner: Address },
    Grant { caller: Address, target: Address, role: Role },
    Revoke { caller: Address, target: Address, role: Role },
    BulkGrant { caller: Address, target: Address, roles: Seq<Role> },
    BulkRevoke { caller: Address, target: Address, roles: Seq<Role> },
    RevokeAll { caller: Address, target: Address },
    Renounce { caller: Address, role: Role },
    Transfer { caller: Address, new_owner: Address },
    Accept { caller: Address },
}

/// Why a call is turned down, if it is.
pub open spec fn refusal(state: RbacState, env: Env, call: Call) -> Option<RbacFault> {
    match call {
        Call::Initialize { owner } => state.initialize_refusal(env, owner),
        Call::Grant { caller, .. } => state.grant_refusal(env, caller),
        Call::Revoke { caller, target, role } => state.revoke_refusal(env, caller, target, role),
        Call::BulkGrant { caller, .. } => state.grant_refusal(env, caller),
        Call::BulkRevoke { caller, .. } => state.bulk_revoke_refusal(env, caller),
        Call::RevokeAll { caller, target } => state.revoke_all_refusal(env, caller, target),
        Call::Renounce { caller, role } => state.renounce_refusal(env, caller, role),
        Call::Transfer { caller, .. } => state.transfer_refusal(env, caller),
        Call::Accept { caller } => state.accept_refusal(env, caller),
    }
}

/// The state after a call that is not turned down.
pub open spec fn changed_by(state: RbacState, call: Call) -> RbacState {
    match call {
        Call::Initialize { owner } => state.initializing(owner),
        Call::Grant { target, role, .. } => {
            state.granting(target, role).announcing(RbacEvent::Granted(target, role))
        },
        Call::Revoke { target, role, .. } => {
            state.revoking(target, role).announcing(RbacEvent::Revoked(target, role))
        },
        Call::BulkGrant { target, roles, .. } => {
            state.with_roles(target, crate::rbac::granted_all(state.roles_of(target), roles))
        },
        Call::BulkRevoke { target, roles, .. } => {
            state.with_roles(
                target,
                crate::rbac::revoked_all(
                    state.roles_of(target),
                    roles,
                    state.owner == Some(target),
                ),
            )
        },
        Call::RevokeAll { target, .. } => state.with_roles(target, Seq::empty()),
        Call::Renounce { caller, role } => {
            state.revoking(caller, role).announcing(RbacEvent::Renounced(caller, role))
        },
        Call::Transfer { new_owner, .. } => state.proposing(new_owner),
        Call::Accept { caller } => state.accepting(caller),
    }
}

/// The state after a call.
pub open spec fn step(state: RbacState, env: Env, call: Call) -> RbacState {
    crate::rbac::answer(state, refusal(state, env, call), changed_by(state, call)).0
}

/// Whether the owner holds the admin role.
pub open spec fn owner_is_admin(state: RbacState) -> bool {
    state.owner is Some ==> state.roles_of(state.owner->0).contains(Role::Admin)
}

/// Every role includes itself.
pub proof fn role_implies_itself(role: Role)
    ensures
        crate::rbac::implies(role, role),
{
}

/// What a role includes includes no more than the role.
pub proof fn implication_is_transitive(a: Role, b: Role, c: Role)
    requires
        crate::rbac::implies(a, b),
        crate::rbac::implies(b, c),
    ensures
        crate::rbac::implies(a, c),
{
}

/// Two roles that include each other are the same.
pub proof fn implication_is_antisymmetric(a: Role, b: Role)
    requires
        crate::rbac::implies(a, b),
        crate::rbac::implies(b, a),
    ensures
        a == b,
{
}

/// An admin has every role, and nothing else makes an admin.
pub proof fn admin_implies_all(state: RbacState, address: Address, role: Role)
    ensures
        state.has(address, Role::Admin) <==> state.roles_of(address).contains(Role::Admin),
        state.has(address, Role::Admin) ==> state.has(address, role),
{
    let roles = state.roles_of(address);
    if state.has(address, Role::Admin) {
        let i = choose|i: int|
            0 <= i < roles.len() && crate::rbac::implies(#[trigger] roles[i], Role::Admin);
        assert(roles[i] == Role::Admin);
        assert(crate::rbac::implies(roles[i], role));
    }
    if roles.contains(Role::Admin) {
        let i = choose|i: int| 0 <= i < roles.len() && roles[i] == Role::Admin;
        assert(crate::rbac::implies(roles[i], Role::Admin));
    }
}

/// Someone who holds a role has it, and has what it includes.
pub proof fn held_role_is_had(state: RbacState, address: Address, held: Role, required: Role)
    requires
        state.roles_of(address).contains(held),
        crate::rbac::implies(held, required),
    ensures
        state.has(address, required),
{
    let roles = state.roles_of(address);
    let i = choose|i: int| 0 <= i < roles.len() && roles[i] == held;
    assert(crate::rbac::implies(roles[i], required));
}

/// What a filter keeps of a list without duplicates has none.
proof fn lemma_filter_no_duplicates(roles: Seq<Role>, kept: spec_fn(Role) -> bool)
    requires
        roles.no_duplicates(),
    ensures
        roles.filter(kept).no_duplicates(),
        forall|role: Role| #[trigger]
            roles.filter(kept).contains(role) <==> roles.contains(role) && kept(role),
    decreases roles.len(),
{
    reveal(Seq::filter);
    if roles.len() > 0 {
        let rest = roles.drop_last();
        let last = roles.last();
        lemma_filter_no_duplicates(rest, kept);
        let kept_rest = rest.filter(kept);
        assert(!rest.contains(last));
        assert(!kept_rest.contains(last));
        assert forall|role: Role| #[trigger]
            roles.filter(kept).contains(role) <==> roles.contains(role) && kept(role) by {
            if roles.contains(role) {
                let i = choose|i: int| 0 <= i < roles.len() && roles[i] == role;
                if i < rest.len() {
                    assert(rest[i] == role);
                    assert(rest.contains(role));
                }
            }
            if rest.contains(role) {
                let i = choose|i: int| 0 <= i < rest.len() && rest[i] == role;
                assert(roles[i] == role);
            }
            if kept(last) {
                assert(roles.filter(kept) =~= kept_rest.push(last));
                if kept_rest.contains(role) {
                    let i = choose|i: int| 0 <= i < kept_rest.len() && kept_rest[i] == role;
                    assert(kept_rest.push(last)[i] == role);
                }
                assert(kept_rest.push(last)[kept_rest.len() as int] == last);
            }
            assert(roles[roles.len() - 1] == last);
        }
    }
}

/// What granting several roles leaves.
proof fn lemma_granted_all(roles: Seq<Role>, added: Seq<Role>)
    ensures
        roles.no_duplicates() ==> crate::rbac::granted_all(roles, added).no_duplicates(),
        forall|role: Role| #[trigger]
            crate::rbac::granted_all(roles, added).contains(role) <==> roles.contains(role)
                || added.contains(role),
    decreases added.len(),
{
    if added.len() > 0 {
        let rest = added.drop_last();
        let last = added.last();
        lemma_granted_all(roles, rest);
        let before = crate::rbac::granted_all(roles, rest);
        let after = crate::rbac::granted_all(roles, added);
        assert forall|role: Role| #[trigger] after.contains(role) <==> roles.contains(role)
            || added.contains(role) by {
            if added.contains(role) {
                let i = choose|i: int| 0 <= i < added.len() && added[i] == role;
                if i < rest.len() {
                    assert(rest[i] == role);
                }
            }
            if rest.contains(role) {
                let i = choose|i: int| 0 <= i < rest.len() && rest[i] == role;
                assert(added[i] == role);
            }
            assert(added[added.len() - 1] == last);
            if before.contains(role) {
                let i = choose|i: int| 0 <= i < before.len() && before[i] == role;
                assert(before.push(last)[i] == role);
            }
            assert(before.push(last)[before.len() as int] == last);
        }
    }
}

/// No call breaks what holds of the contract.
pub proof fn calls_keep_wf(state: RbacState, env: Env, call: Call)
    requires
        state.wf(),
    ensures
        step(state, env, call).wf(),
{
    let after = step(state, env, call);
    assert forall|address: Address| (#[trigger] after.roles_of(address)).no_duplicates() by {
        assert(state.roles_of(address).no_duplicates());
        match call {
            Call::Revoke { target, role, .. } => {
                lemma_filter_no_duplicates(
                    state.roles_of(target),
                    crate::rbac::other_than(role),
                );
            },
            Call::BulkGrant { target, roles, .. } => {
                lemma_granted_all(state.roles_of(target), roles);
            },
            Call::BulkRevoke { target, roles, .. } => {
                let protected = state.owner == Some(target);
                lemma_filter_no_duplicates(
                    state.roles_of(target),
                    crate::rbac::not_among(roles, protected),
                );
            },
            Call::Renounce { caller, role } => {
                lemma_filter_no_duplicates(
                    state.roles_of(caller),
                    crate::rbac::other_than(role),
                );
            },
            Call::Accept { caller } => {
                assert(state.roles_of(caller).no_duplicates());
                let admitted = state.granting(caller, Role::Admin);
                assert(admitted.roles_of(state.owner->0).no_duplicates());
                lemma_filter_no_duplicates(
                    admitted.roles_of(state.owner->0),
                    crate::rbac::other_than(Role::Admin),
                );
            },
            Call::Grant { target, role, .. } => {
                assert(state.roles_of(target).no_duplicates());
            },
            _ => {},
        }
    }
}

/// A refused call changes nothing.
pub proof fn refused_call_changes_nothing(state: RbacState, env: Env, call: Call)
    requires
        refusal(state, env, call) is Some,
    ensures
        step(state, env, call) == state,
{
}

/// The owner stays an admin: no call takes the admin role from the owner, except
/// that the owner can give it up.
pub proof fn owner_stays_admin(state: RbacState, env: Env, call: Call)
    requires
        state.wf(),
        owner_is_admin(state),
        !(call matches Call::Renounce { caller, role } && state.owner == Some(caller) && role
            == Role::Admin),
    ensures
        owner_is_admin(step(state, env, call)),
{
    if refusal(state, env, call) is None {
        lemma_call_effect(state, env, call);
        let after = step(state, env, call);
        assert(seq![Role::Admin][0] == Role::Admin);
        if after.owner is Some && state.owner is Some {
            assert(state.roles_of(state.owner->0).contains(Role::Admin));
        }
    }
}

/// Whether an address holds a role after a call that is not turned down.
pub open spec fn holds_after(state: RbacState, call: Call, address: Address, role: Role) -> bool {
    let held = state.roles_of(address).contains(role);
    match call {
        Call::Initialize { owner } => if address == owner {
            role == Role::Admin
        } else {
            held
        },
        Call::Grant { target, role: added, .. } => held || (address == target && role == added),
        Call::Revoke { target, role: removed, .. } => held && !(address == target && role
            == removed),
        Call::BulkGrant { target, roles, .. } => held || (address == target && roles.contains(
            role,
        )),
        Call::BulkRevoke { target, roles, .. } => held && !(address == target && roles.contains(
            role,
        ) && !(state.owner == Some(target) && role == Role::Admin)),
        Call::RevokeAll { target, .. } => held && address != target,
        Call::Renounce { caller, role: removed } => held && !(address == caller && role
            == removed),
        Call::Transfer { .. } => held,
        Call::Accept { caller } => if role != Role::Admin {
            held
        } else if address == caller {
            true
        } else {
            held && state.owner != Some(address)
        },
    }
}

/// Who holds which role after a call: what the call is about changes, and nothing else.
pub proof fn call_changes_the_roles_it_names(
    state: RbacState,
    env: Env,
    call: Call,
    address: Address,
    role: Role,
)
    requires
        state.wf(),
        refusal(state, env, call) is None,
    ensures
        step(state, env, call).roles_of(address).contains(role) <==> holds_after(
            state,
            call,
            address,
            role,
        ),
{
    lemma_call_effect(state, env, call);
}

proof fn lemma_push(roles: Seq<Role>, added: Role)
    ensures
        forall|role: Role| #[trigger]
            roles.push(added).contains(role) <==> roles.contains(role) || role == added,
{
    assert forall|role: Role| #[trigger]
        roles.push(added).contains(role) <==> roles.contains(role) || role == added by {
        if roles.contains(role) {
            let i = choose|i: int| 0 <= i < roles.len() && roles[i] == role;
            assert(roles.push(added)[i] == role);
        }
        assert(roles.push(added)[roles.len() as int] == added);
    }
}

proof fn lemma_call_effect(state: RbacState, env: Env, call: Call)
    requires
        state.wf(),
        refusal(state, env, call) is None,
    ensures
        forall|address: Address, role: Role| #[trigger]
            step(state, env, call).roles_of(address).contains(role) <==> holds_after(
                state,
                call,
                address,
                role,
            ),
{
    let after = step(state, env, call);
    assert forall|address: Address, role: Role| #[trigger]
        after.roles_of(address).contains(role) <==> holds_after(state, call, address, role) by {
        assert(state.roles_of(address).no_duplicates());
        match call {
            Call::Initialize { owner } => {
                assert(seq![Role::Admin][0] == Role::Admin);
            },
            Call::Grant { target, role: added, .. } => {
                lemma_push(state.roles_of(target), added);
            },
            Call::Revoke { target, role: removed, .. } => {
                lemma_filter_no_duplicates(
                    state.roles_of(target),
                    crate::rbac::other_than(removed),
                );
            },
            Call::BulkGrant { target, roles, .. } => {
                lemma_granted_all(state.roles_of(target), roles);
            },
            Call::BulkRevoke { target, roles, .. } => {
                let protected = state.owner == Some(target);
                lemma_filter_no_duplicates(
                    state.roles_of(target),
                    crate::rbac::not_among(roles, protected),
                );
            },
            Call::Renounce { caller, role: removed } => {
                lemma_filter_no_duplicates(
                    state.roles_of(caller),
                    crate::rbac::other_than(removed),
                );
            },
            Call::Accept { caller } => {
                lemma_push(state.roles_of(caller), Role::Admin);
                let admitted = state.granting(caller, Role::Admin);
                assert(state.roles_of(caller).no_duplicates());
                assert(state.roles_of(state.owner->0).no_duplicates());
                lemma_filter_no_duplicates(
                    admitted.roles_of(state.owner->0),
                    crate::rbac::other_than(Role::Admin),
                );
            },
            _ => {},
        }
    }
}

/// Only admins give roles and take them from others: where an address gains or
/// loses a role, an admin made the call, or the address gave the role up itself, or
/// the ownership moved, or the contract was initialized.
pub proof fn roles_change_by_admins(
    state: RbacState,
    env: Env,
    call: Call,
    address: Address,
    role: Role,
)
    requires
        state.wf(),
        step(state, env, call).roles_of(address).contains(role) != state.roles_of(
            address,
        ).contains(role),
    ensures
        match call {
            Call::Initialize { owner } => address == owner && env.authorizes(owner)
                && state.owner is None,
            Call::Grant { caller, .. } => env.authorizes(caller) && state.has(caller, Role::Admin),
            Call::Revoke { caller, .. } => env.authorizes(caller) && state.has(caller, Role::Admin),
            Call::BulkGrant { caller, .. } => env.authorizes(caller) && state.has(
                caller,
                Role::Admin,
            ),
            Call::BulkRevoke { caller, .. } => env.authorizes(caller) && state.has(
                caller,
                Role::Admin,
            ),
            Call::RevokeAll { caller, .. } => env.authorizes(caller) && state.has(
                caller,
                Role::Admin,
            ),
            Call::Renounce { caller, .. } => address == caller && env.authorizes(caller),
            Call::Transfer { .. } => false,
            Call::Accept { caller } => role == Role::Admin && env.authorizes(caller)
                && state.pending_owner == Some(caller) && (address == caller || state.owner == Some(
                address,
            )),
        },
{
    if refusal(state, env, call) is None {
        lemma_call_effect(state, env, call);
    }
}

/// The ownership moves in two steps: only to the address that the owner named, and
/// only when that address accepts.
pub proof fn ownership_moves_by_acceptance(state: RbacState, env: Env, call: Call)
    requires
        state.owner is Some,
    ensures
        step(state, env, call).owner is Some,
        step(state, env, call).owner != state.owner ==> (call matches Call::Accept { caller }
            && env.authorizes(caller) && state.pending_owner == Some(caller)
            && step(state, env, call).owner == Some(caller)),
        step(state, env, call).pending_owner != state.pending_owner ==> match call {
            Call::Transfer { caller, .. } => env.authorizes(caller) && state.owner == Some(caller),
            Call::Accept { caller } => state.pending_owner == Some(caller),
            _ => false,
        },
{
}

/// An offer of the ownership gives nobody a role.
pub proof fn offer_gives_nothing(state: RbacState, env: Env, caller: Address, new_owner: Address)
    ensures
        step(state, env, Call::Transfer { caller, new_owner }).roles == state.roles,
        step(state, env, Call::Transfer { caller, new_owner }).owner == state.owner,
{
}

/// Once the ownership is accepted, the new owner is an admin, the old one is not,
/// and nothing is on offer any more.
pub proof fn acceptance_moves_the_admin_role(state: RbacState, env: Env, caller: Address)
    requires
        state.wf(),
        state.accept_refusal(env, caller) is None,
    ensures
        ({
            let after = step(state, env, Call::Accept { caller });
            &&& after.owner == Some(caller)
            &&& after.pending_owner is None
            &&& after.has(caller, Role::Admin)
            &&& state.owner != Some(caller) ==> !after.has(state.owner->0, Role::Admin)
        }),
{
    lemma_call_effect(state, env, Call::Accept { caller });
    let after = step(state, env, Call::Accept { caller });
    admin_implies_all(after, caller, Role::Admin);
    admin_implies_all(after, state.owner->0, Role::Admin);
    assert(after.roles_of(caller).contains(Role::Admin) <==> holds_after(
        state,
        Call::Accept { caller },
        caller,
        Role::Admin,
    ));
    assert(after.roles_of(state.owner->0).contains(Role::Admin) <==> holds_after(
        state,
        Call::Accept { caller },
        state.owner->0,
        Role::Admin,
    ));
}

/// What was granted can be revoked: the roles are then as they were.
pub proof fn revocation_undoes_a_grant(state: RbacState, target: Address, role: Role)
    requires
        state.wf(),
        !state.roles_of(target).contains(role),
    ensures
        state.granting(target, role).revoking(target, role).roles_of(target) == state.roles_of(
            target,
        ),
{
    let roles = state.roles_of(target);
    lemma_filter_keeps_all(roles, crate::rbac::other_than(role));
    reveal(Seq::filter);
    assert(roles.push(role).drop_last() =~= roles);
    assert(roles.push(role).filter(crate::rbac::other_than(role)) =~= roles);
}

proof fn lemma_filter_keeps_all(roles: Seq<Role>, kept: spec_fn(Role) -> bool)
    requires
        forall|i: int| 0 <= i < roles.len() ==> kept(#[trigger] roles[i]),
    ensures
        roles.filter(kept) == roles,
    decreases roles.len(),
{
    reveal(Seq::filter);
    if roles.len() > 0 {
        let rest = roles.drop_last();
        assert forall|i: int| 0 <= i < rest.len() implies kept(#[trigger] rest[i]) by {
            assert(rest[i] == roles[i]);
        }
        lemma_filter_keeps_all(rest, kept);
        assert(kept(roles[roles.len() - 1]));
        assert(rest.push(roles.last()) =~= roles);
    } else {
        assert(roles.filter(kept) =~= roles);
    }
}

/// Granting a role twice is granting it once.
pub proof fn second_grant_changes_no_role(state: RbacState, target: Address, role: Role)
    ensures
        state.granting(target, role).granting(target, role) == state.granting(target, role),
{
    lemma_push(state.roles_of(target), role);
}

/// The contract is initialized once.
pub proof fn initialization_happens_once(state: RbacState, env: Env, call: Call, owner: Address)
    requires
        state.owner is Some,
    ensures
        step(state, env, call).initialize_refusal(env, owner) is Some,
{
}

/// The roles that are kept for an address.
pub open spec fn held(state: RbacState, address: Address) -> Seq<Role> {
    if state.roles.contains_key(address) {
        state.roles[address]
    } else {
        Seq::empty()
    }
}

/// Whether an address can do what a role allows: it holds the role or is an admin, or it is
/// an employer and the role is an employee's.
pub open spec fn can_act_as(state: RbacState, address: Address, required: Role) -> bool {
    let roles = held(state, address);
    ||| roles.contains(required)
    ||| roles.contains(Role::Admin)
    ||| required == Role::Employee && roles.contains(Role::Employer)
}

/// A role includes itself. An admin's includes every other, an employer's an employee's, and
/// no role includes more.
pub proof fn roles_include_what_they_should(granted: Role, required: Role)
    ensures
        crate::rbac::implies(granted, required) <==> match (granted, required) {
            (Role::Admin, _) => true,
            (Role::Employer, Role::Employer) => true,
            (Role::Employer, Role::Employee) => true,
            (Role::Employee, Role::Employee) => true,
            (Role::Arbiter, Role::Arbiter) => true,
            _ => false,
        },
{
}

/// What is told of an address is what is kept for it, and what it can act as.
pub proof fn roles_are_told_as_they_are(
    state: RbacState,
    env: Env,
    address: Address,
    required: Role,
)
    ensures
        state.roles_of(address) == held(state, address),
        state.has(address, required) == can_act_as(state, address, required),
        ({
            let refusal = state.role_refusal(env, address, required);
            let started = state.owner is Some;
            let signed = started && env.authorized@.contains(address);
            &&& refusal is None <==> signed && can_act_as(state, address, required)
            &&& !started ==> refusal == Some(RbacFault::NotInitialized)
            &&& started && !signed ==> refusal == Some(RbacFault::Unauthenticated)
            &&& signed && !can_act_as(state, address, required) ==> refusal == Some(
                RbacFault::MissingRequiredRole,
            )
        }),
{
    let roles = state.roles_of(address);
    if state.has(address, required) {
        let i = choose|i: int|
            0 <= i < roles.len() && crate::rbac::implies(#[trigger] roles[i], required);
        assert(roles.contains(roles[i]));
    }
    if can_act_as(state, address, required) {
        let role = if roles.contains(required) {
            required
        } else if roles.contains(Role::Admin) {
            Role::Admin
        } else {
            Role::Employer
        };
        let i = choose|i: int| 0 <= i < roles.len() && roles[i] == role;
        assert(crate::rbac::implies(roles[i], required));
    }
}

/// Who may call, and what the others are told. Roles are given and taken by admins; from the
/// owner, the admin role cannot be revoked, nor all roles at once. One's own roles are one's
/// own to give up. The owner offers the ownership, and the one it is offered to accepts.
pub proof fn calls_are_granted_to_whom_they_should(state: RbacState, env: Env, call: Call)
    ensures
        ({
            let refused = refusal(state, env, call);
            let caller = match call {
                Call::Initialize { owner } => owner,
                Call::Grant { caller, .. } => caller,
                Call::Revoke { caller, .. } => caller,
                Call::BulkGrant { caller, .. } => caller,
                Call::BulkRevoke { caller, .. } => caller,
                Call::RevokeAll { caller, .. } => caller,
                Call::Renounce { caller, .. } => caller,
                Call::Transfer { caller, .. } => caller,
                Call::Accept { caller } => caller,
            };
            let signed = env.authorized@.contains(caller);
            let started = state.owner is Some;
            let admin = held(state, caller).contains(Role::Admin);
            &&& !(call is Initialize) && !started ==> refused == Some(RbacFault::NotInitialized)
            &&& !(call is Initialize) && started && !signed ==> refused == Some(
                RbacFault::Unauthenticated,
            )
            &&& call is Initialize && !signed ==> refused == Some(RbacFault::Unauthenticated)
            &&& call is Initialize && signed ==> refused == if started {
                Some(RbacFault::AlreadyInitialized)
            } else {
                None
            }
            &&& started && signed ==> match call {
                Call::Initialize { .. } => true,
                Call::Grant { .. } => refused == if admin {
                    None
                } else {
                    Some(RbacFault::OnlyAdminGrants)
                },
                Call::BulkGrant { .. } => refused == if admin {
                    None
                } else {
                    Some(RbacFault::OnlyAdminGrants)
                },
                Call::Revoke { target, role, .. } => refused == if !admin {
                    Some(RbacFault::OnlyAdminRevokes)
                } else if state.owner == Some(target) && role == Role::Admin {
                    Some(RbacFault::CannotRevokeAdminFromOwner)
                } else {
                    None
                },
                Call::BulkRevoke { .. } => refused == if admin {
                    None
                } else {
                    Some(RbacFault::OnlyAdminRevokes)
                },
                Call::RevokeAll { target, .. } => refused == if !admin {
                    Some(RbacFault::OnlyAdminRevokes)
                } else if state.owner == Some(target) {
                    Some(RbacFault::CannotRevokeAllFromOwner)
                } else {
                    None
                },
                Call::Renounce { role, .. } => refused == if held(state, caller).contains(role) {
                    None
                } else {
                    Some(RbacFault::RoleNotHeld)
                },
                Call::Transfer { .. } => refused == if state.owner == Some(caller) {
                    None
                } else {
                    Some(RbacFault::OnlyOwnerTransfers)
                },
                Call::Accept { .. } => refused == if state.pending_owner is None {
                    Some(RbacFault::NoPendingOwner)
                } else if state.pending_owner == Some(caller) {
                    None
                } else {
                    Some(RbacFault::NotPendingOwner)
                },
            }
        }),
{
    let caller = match call {
        Call::Initialize { owner } => owner,
        Call::Grant { caller, .. } => caller,
        Call::Revoke { caller, .. } => caller,
        Call::BulkGrant { caller, .. } => caller,
        Call::BulkRevoke { caller, .. } => caller,
        Call::RevokeAll { caller, .. } => caller,
        Call::Renounce { caller, .. } => caller,
        Call::Transfer { caller, .. } => caller,
        Call::Accept { caller } => caller,
    };
    roles_are_told_as_they_are(state, env, caller, Role::Admin);
}

/// A call that is granted is answered as such and does what it does; one that is not is
/// told why and changes nothing.
pub proof fn answer_tells_what_happened(
    state: RbacState,
    refused: Option<RbacFault>,
    changed: RbacState,
)
    ensures
        crate::rbac::answer(state, refused, changed) == match refused {
            Some(fault) => (state, Err::<(), RbacFault>(fault)),
            None => (changed, Ok::<(), RbacFault>(())),
        },
{
}

/// What a granted call does besides changing roles. The setup makes the owner, an offer names
/// who may take over, and its acceptance makes that address the owner and ends the offer; no
/// other call touches these. Each call is announced with what it was about, except those on
/// several roles at once. An address that no call names keeps its roles in their order.
pub proof fn granted_call_is_announced(
    state: RbacState,
    env: Env,
    call: Call,
    bystander: Address,
)
    requires
        refusal(state, env, call) is None,
    ensures
        ({
            let after = step(state, env, call);
            &&& after.owner == match call {
                Call::Initialize { owner } => Some(owner),
                Call::Accept { caller } => Some(caller),
                _ => state.owner,
            }
            &&& after.pending_owner == match call {
                Call::Transfer { new_owner, .. } => Some(new_owner),
                Call::Accept { .. } => None,
                _ => state.pending_owner,
            }
            &&& match call {
                Call::Initialize { owner } => after.events == state.events.push(
                    RbacEvent::Initialized(owner),
                ),
                Call::Grant { target, role, .. } => after.events == state.events.push(
                    RbacEvent::Granted(target, role),
                ),
                Call::Revoke { target, role, .. } => after.events == state.events.push(
                    RbacEvent::Revoked(target, role),
                ),
                Call::BulkGrant { .. } => after.events == state.events,
                Call::BulkRevoke { .. } => after.events == state.events,
                Call::RevokeAll { .. } => after.events == state.events,
                Call::Renounce { caller, role } => after.events == state.events.push(
                    RbacEvent::Renounced(caller, role),
                ),
                Call::Transfer { new_owner, .. } => after.events == state.events.push(
                    RbacEvent::OwnershipProposed(new_owner),
                ),
                Call::Accept { caller } => after.events == state.events.push(
                    RbacEvent::OwnershipTransferred {
                        previous_owner: state.owner->0,
                        new_owner: caller,
                    },
                ),
            }
            &&& match call {
                Call::Initialize { owner } => bystander != owner,
                Call::Grant { target, .. } => bystander != target,
                Call::Revoke { target, .. } => bystander != target,
                Call::BulkGrant { target, .. } => bystander != target,
                Call::BulkRevoke { target, .. } => bystander != target,
                Call::RevokeAll { target, .. } => bystander != target,
                Call::Renounce { caller, .. } => bystander != caller,
                Call::Transfer { .. } => true,
                Call::Accept { caller } => bystander != caller && state.owner != Some(bystander),
            } ==> held(after, bystander) == held(state, bystander)
        }),
{
}

/// A role that is granted comes after those that were held, which keep their order. A new
/// contract has no owner, no offer and no roles.
pub proof fn granted_role_comes_last(state: RbacState, target: Address, role: Role)
    requires
        !held(state, target).contains(role),
    ensures
        held(state.granting(target, role), target) == held(state, target).push(role),
        state.granting(target, role).events == state.events,
        ({
            let fresh = RbacState::fresh();
            &&& fresh.owner is None
            &&& fresh.pending_owner is None
            &&& forall|address: Address| !fresh.roles.contains_key(address)
            &&& fresh.events.len() == 0
        }),
{
}

/// Roles are granted and revoked one after the other, in the order of the list: what is left
/// of a longer list is what is left of the shorter one, and then its last role, if it stays.
/// So the roles that stay keep their order.
pub proof fn lists_are_gone_through_in_order(
    roles: Seq<Role>,
    next: Role,
    role: Role,
    named: Seq<Role>,
    protected: bool,
)
    ensures
        crate::rbac::revoked(Seq::empty(), role) == Seq::<Role>::empty(),
        crate::rbac::revoked(roles.push(next), role) == if next == role {
            crate::rbac::revoked(roles, role)
        } else {
            crate::rbac::revoked(roles, role).push(next)
        },
        crate::rbac::revoked_all(Seq::empty(), named, protected) == Seq::<Role>::empty(),
        crate::rbac::revoked_all(roles.push(next), named, protected) == if named.contains(next)
            && !(protected && next == Role::Admin) {
            crate::rbac::revoked_all(roles, named, protected)
        } else {
            crate::rbac::revoked_all(roles, named, protected).push(next)
        },
        crate::rbac::granted_all(roles, Seq::empty()) == roles,
        crate::rbac::granted_all(roles, named.push(next)) == {
            let before = crate::rbac::granted_all(roles, named);
            if before.contains(next) {
                before
            } else {
                before.push(next)
            }
        },
{
    reveal(Seq::filter);
    assert(roles.push(next).drop_last() =~= roles);
    assert(named.push(next).drop_last() =~= named);
    assert(crate::rbac::revoked(Seq::empty(), role) =~= Seq::<Role>::empty());
    assert(crate::rbac::revoked_all(Seq::empty(), named, protected) =~= Seq::<Role>::empty());
}

/// What the contract tells of itself is what it keeps: the owner, the roles of an address,
/// and what the address can act as. Before the setup it tells nothing.
pub proof fn queries_tell_what_is_kept(
    contract: RbacContract,
    env: Env,
    address: Address,
    required: Role,
    granted: Role,
    included: bool,
    roles: Result<Vec<Role>, RbacFault>,
    has: Result<bool, RbacFault>,
    demanded: Result<(), RbacFault>,
    owner: Result<Address, RbacFault>,
)
    ensures
        call_ensures(crate::rbac::role_implies, (&granted, &required), included) ==> included == (
        granted == Role::Admin || granted == required || (granted == Role::Employer && required
            == Role::Employee)),
        call_ensures(RbacContract::get_roles, (&contract, &address), roles)
            ==> match contract.owner {
            None => roles == Err::<Vec<Role>, RbacFault>(RbacFault::NotInitialized),
            Some(_) => roles matches Ok(list) && list@ == if contract.roles@.contains_key(address) {
                contract.roles@[address]@
            } else {
                Seq::empty()
            },
        },
        call_ensures(RbacContract::has_role, (&contract, &address, required), has)
            ==> match contract.owner {
            None => has == Err::<bool, RbacFault>(RbacFault::NotInitialized),
            Some(_) => has == Ok::<bool, RbacFault>(can_act_as(contract@, address, required)),
        },
        call_ensures(RbacContract::require_role, (&contract, &env, &address, required), demanded)
            ==> (demanded is Ok <==> contract.owner is Some && env.authorized@.contains(address)
            && can_act_as(contract@, address, required)),
        call_ensures(RbacContract::owner, (&contract,), owner) ==> match contract.owner {
            None => owner == Err::<Address, RbacFault>(RbacFault::NotInitialized),
            Some(kept) => owner == Ok::<Address, RbacFault>(kept),
        },
{
    roles_are_told_as_they_are(contract@, env, address, required);
}

/// Each call does what it is named after, with whom and what it names, and is told why where
/// it is turned down.
pub proof fn calls_make_their_step(
    contract: &mut RbacContract,
    env: Env,
    caller: Address,
    target: Address,
    role: Role,
    roles: Vec<Role>,
    r: Result<(), RbacFault>,
)
    ensures
        call_ensures(
            RbacContract::initialize,
            (old(contract), &env, caller),
            r,
        ) ==> crate::laws::is_answered(
            refusal(old(contract)@, env, Call::Initialize { owner: caller }),
            old(contract)@,
            step(old(contract)@, env, Call::Initialize { owner: caller }),
            final(contract)@,
            r,
        ),
        call_ensures(
            RbacContract::grant_role,
            (old(contract), &env, caller, target, role),
            r,
        ) ==> crate::laws::is_answered(
            refusal(old(contract)@, env, Call::Grant { caller, target, role }),
            old(contract)@,
            step(old(contract)@, env, Call::Grant { caller, target, role }),
            final(contract)@,
            r,
        ),
        call_ensures(
            RbacContract::revoke_role,
            (old(contract), &env, caller, target, role),
            r,
        ) ==> crate::laws::is_answered(
            refusal(old(contract)@, env, Call::Revoke { caller, target, role }),
            old(contract)@,
            step(old(contract)@, env, Call::Revoke { caller, target, role }),
            final(contract)@,
            r,
        ),
        call_ensures(
            RbacContract::bulk_grant,
            (old(contract), &env, caller, target, roles),
            r,
        ) ==> crate::laws::is_answered(
            refusal(old(contract)@, env, Call::BulkGrant { caller, target, roles: roles@ }),
            old(contract)@,
            step(old(contract)@, env, Call::BulkGrant { caller, target, roles: roles@ }),
            final(contract)@,
            r,
        ),
        call_ensures(
            RbacContract::bulk_revoke,
            (old(contract), &env, caller, target, roles),
            r,
        ) ==> crate::laws::is_answered(
            refusal(old(contract)@, env, Call::BulkRevoke { caller, target, roles: roles@ }),
            old(contract)@,
            step(old(contract)@, env, Call::BulkRevoke { caller, target, roles: roles@ }),
            final(contract)@,
            r,
        ),
        call_ensures(
            RbacContract::revoke_all,
            (old(contract), &env, caller, target),
            r,
        ) ==> crate::laws::is_answered(
            refusal(old(contract)@, env, Call::RevokeAll { caller, target }),
            old(contract)@,
            step(old(contract)@, env, Call::RevokeAll { caller, target }),
            final(contract)@,
            r,
        ),
        call_ensures(
            RbacContract::renounce_role,
            (old(contract), &env, caller, role),
            r,
        ) ==> crate::laws::is_answered(
            refusal(old(contract)@, env, Call::Renounce { caller, role }),
            old(contract)@,
            step(old(contract)@, env, Call::Renounce { caller, role }),
            final(contract)@,
            r,
        ),
        call_ensures(
            RbacContract::transfer_ownership,
            (old(contract), &env, caller, target),
            r,
        ) ==> crate::laws::is_answered(
            refusal(old(contract)@, env, Call::Transfer { caller, new_owner: target }),
            old(contract)@,
            step(old(contract)@, env, Call::Transfer { caller, new_owner: target }),
            final(contract)@,
            r,
        ),
        call_ensures(
            RbacContract::accept_ownership,
            (old(contract), &env, caller),
            r,
        ) ==> crate::laws::is_answered(
            refusal(old(contract)@, env, Call::Accept { caller }),
            old(contract)@,
            step(old(contract)@, env, Call::Accept { caller }),
            final(contract)@,
            r,
        ),
{
}

} // verus!
