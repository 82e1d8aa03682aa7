use stellopay_core::address::Address;
use stellopay_core::env::Env;
use stellopay_core::rbac::{role_implies, RbacContract, RbacEvent, RbacFault, Role};

fn addr(n: u8) -> Address {
    Address { strkey: [n; 56] }
}

fn by(authorized: &[u8]) -> Env {
    Env {
        contract: addr(99),
        timestamp: 0,
        authorized: authorized.iter().map(|n| addr(*n)).collect(),
    }
}

const OWNER: u8 = 1;
const ADMIN: u8 = 2;
const USER: u8 = 3;
const ALL: [Role; 4] = [Role::Admin, Role::Employer, Role::Employee, Role::Arbiter];

fn roles() -> RbacContract {
    let mut rbac = RbacContract::new();
    rbac.initialize(&by(&[OWNER]), addr(OWNER)).unwrap();
    rbac
}

fn grant(rbac: &mut RbacContract, target: u8, role: Role) {
    rbac.grant_role(&by(&[OWNER]), addr(OWNER), addr(target), role).unwrap();
}

#[test]
fn roles_include_what_they_should() {
    let expected = [
        [true, true, true, true],
        [false, true, true, false],
        [false, false, true, false],
        [false, false, false, true],
    ];
    for (i, granted) in ALL.iter().enumerate() {
        for (j, required) in ALL.iter().enumerate() {
            assert_eq!(role_implies(granted, required), expected[i][j]);
        }
    }
}

#[test]
fn nothing_is_answered_before_initialization() {
    let mut rbac = RbacContract::new();
    let none = RbacFault::NotInitialized;
    assert_eq!(rbac.owner(), Err(none));
    assert_eq!(rbac.get_roles(&addr(OWNER)), Err(none));
    assert_eq!(rbac.has_role(&addr(OWNER), Role::Admin), Err(none));
    assert_eq!(rbac.require_role(&by(&[OWNER]), &addr(OWNER), Role::Admin), Err(none));
    assert_eq!(rbac.grant_role(&by(&[OWNER]), addr(OWNER), addr(USER), Role::Admin), Err(none));
    assert_eq!(rbac.accept_ownership(&by(&[OWNER]), addr(OWNER)), Err(none));
    assert_eq!(
        rbac.initialize(&by(&[]), addr(OWNER)),
        Err(RbacFault::Unauthenticated)
    );
}

#[test]
fn first_owner_is_the_first_admin() {
    let mut rbac = roles();
    assert_eq!(rbac.owner(), Ok(addr(OWNER)));
    assert_eq!(rbac.get_roles(&addr(OWNER)), Ok(vec![Role::Admin]));
    assert_eq!(
        rbac.initialize(&by(&[USER]), addr(USER)),
        Err(RbacFault::AlreadyInitialized)
    );
    assert_eq!(rbac.events, vec![RbacEvent::Initialized(addr(OWNER))]);
}

#[test]
fn admins_grant_and_revoke() {
    let mut rbac = roles();
    grant(&mut rbac, USER, Role::Employer);
    grant(&mut rbac, USER, Role::Employer);
    assert_eq!(rbac.get_roles(&addr(USER)), Ok(vec![Role::Employer]));
    assert_eq!(rbac.has_role(&addr(USER), Role::Employee), Ok(true));
    assert_eq!(rbac.has_role(&addr(USER), Role::Arbiter), Ok(false));
    assert_eq!(
        rbac.grant_role(&by(&[USER]), addr(USER), addr(USER), Role::Admin),
        Err(RbacFault::OnlyAdminGrants)
    );
    assert_eq!(
        rbac.revoke_role(&by(&[USER]), addr(USER), addr(USER), Role::Employer),
        Err(RbacFault::OnlyAdminRevokes)
    );
    assert_eq!(
        rbac.grant_role(&by(&[USER]), addr(OWNER), addr(USER), Role::Admin),
        Err(RbacFault::Unauthenticated)
    );
    assert_eq!(
        rbac.revoke_role(&by(&[OWNER]), addr(OWNER), addr(USER), Role::Employer),
        Ok(())
    );
    assert_eq!(rbac.get_roles(&addr(USER)), Ok(vec![]));
    assert_eq!(
        rbac.revoke_role(&by(&[OWNER]), addr(OWNER), addr(USER), Role::Arbiter),
        Ok(())
    );
    assert_eq!(rbac.events.last(), Some(&RbacEvent::Revoked(addr(USER), Role::Arbiter)));
}

#[test]
fn owner_cannot_be_locked_out_by_others() {
    let mut rbac = roles();
    grant(&mut rbac, ADMIN, Role::Admin);
    let admin = by(&[ADMIN]);
    assert_eq!(
        rbac.revoke_role(&admin, addr(ADMIN), addr(OWNER), Role::Admin),
        Err(RbacFault::CannotRevokeAdminFromOwner)
    );
    assert_eq!(
        rbac.revoke_all(&admin, addr(ADMIN), addr(OWNER)),
        Err(RbacFault::CannotRevokeAllFromOwner)
    );
    grant(&mut rbac, OWNER, Role::Arbiter);
    assert_eq!(
        rbac.bulk_revoke(&admin, addr(ADMIN), addr(OWNER), vec![Role::Admin, Role::Arbiter]),
        Ok(())
    );
    assert_eq!(rbac.get_roles(&addr(OWNER)), Ok(vec![Role::Admin]));
    assert_eq!(rbac.renounce_role(&by(&[OWNER]), addr(OWNER), Role::Admin), Ok(()));
    assert_eq!(rbac.get_roles(&addr(OWNER)), Ok(vec![]));
}

#[test]
fn roles_change_in_bulk() {
    let mut rbac = roles();
    let owner = by(&[OWNER]);
    grant(&mut rbac, USER, Role::Employee);
    assert_eq!(
        rbac.bulk_grant(
            &owner,
            addr(OWNER),
            addr(USER),
            vec![Role::Arbiter, Role::Employee, Role::Arbiter, Role::Employer],
        ),
        Ok(())
    );
    assert_eq!(
        rbac.get_roles(&addr(USER)),
        Ok(vec![Role::Employee, Role::Arbiter, Role::Employer])
    );
    assert_eq!(
        rbac.bulk_revoke(
            &owner,
            addr(OWNER),
            addr(USER),
            vec![Role::Arbiter, Role::Arbiter, Role::Admin],
        ),
        Ok(())
    );
    assert_eq!(rbac.get_roles(&addr(USER)), Ok(vec![Role::Employee, Role::Employer]));
    assert_eq!(rbac.revoke_all(&owner, addr(OWNER), addr(USER)), Ok(()));
    assert_eq!(rbac.get_roles(&addr(USER)), Ok(vec![]));
    assert_eq!(
        rbac.bulk_grant(&by(&[USER]), addr(USER), addr(USER), vec![Role::Admin]),
        Err(RbacFault::OnlyAdminGrants)
    );
    assert_eq!(
        rbac.bulk_revoke(&by(&[USER]), addr(USER), addr(OWNER), vec![]),
        Err(RbacFault::OnlyAdminRevokes)
    );
    assert_eq!(
        rbac.revoke_all(&by(&[USER]), addr(USER), addr(USER)),
        Err(RbacFault::OnlyAdminRevokes)
    );
}

#[test]
fn role_can_be_given_up_by_its_holder() {
    let mut rbac = roles();
    grant(&mut rbac, USER, Role::Employer);
    assert_eq!(
        rbac.renounce_role(&by(&[USER]), addr(USER), Role::Employee),
        Err(RbacFault::RoleNotHeld)
    );
    assert_eq!(
        rbac.renounce_role(&by(&[OWNER]), addr(USER), Role::Employer),
        Err(RbacFault::Unauthenticated)
    );
    assert_eq!(rbac.renounce_role(&by(&[USER]), addr(USER), Role::Employer), Ok(()));
    assert_eq!(rbac.get_roles(&addr(USER)), Ok(vec![]));
    assert_eq!(rbac.events.last(), Some(&RbacEvent::Renounced(addr(USER), Role::Employer)));
}

#[test]
fn required_role_is_checked() {
    let mut rbac = roles();
    grant(&mut rbac, USER, Role::Employer);
    assert_eq!(rbac.require_role(&by(&[USER]), &addr(USER), Role::Employee), Ok(()));
    assert_eq!(
        rbac.require_role(&by(&[USER]), &addr(USER), Role::Admin),
        Err(RbacFault::MissingRequiredRole)
    );
    assert_eq!(
        rbac.require_role(&by(&[]), &addr(USER), Role::Employee),
        Err(RbacFault::Unauthenticated)
    );
}

#[test]
fn role_ownership_moves_in_two_steps() {
    let mut rbac = roles();
    grant(&mut rbac, OWNER, Role::Employer);
    assert_eq!(
        rbac.transfer_ownership(&by(&[USER]), addr(USER), addr(USER)),
        Err(RbacFault::OnlyOwnerTransfers)
    );
    assert_eq!(
        rbac.accept_ownership(&by(&[USER]), addr(USER)),
        Err(RbacFault::NoPendingOwner)
    );
    assert_eq!(rbac.transfer_ownership(&by(&[OWNER]), addr(OWNER), addr(USER)), Ok(()));
    assert_eq!(rbac.owner(), Ok(addr(OWNER)));
    assert_eq!(rbac.has_role(&addr(USER), Role::Admin), Ok(false));
    assert_eq!(
        rbac.accept_ownership(&by(&[ADMIN]), addr(ADMIN)),
        Err(RbacFault::NotPendingOwner)
    );
    assert_eq!(rbac.accept_ownership(&by(&[USER]), addr(USER)), Ok(()));
    assert_eq!(rbac.owner(), Ok(addr(USER)));
    assert_eq!(rbac.get_roles(&addr(USER)), Ok(vec![Role::Admin]));
    assert_eq!(rbac.get_roles(&addr(OWNER)), Ok(vec![Role::Employer]));
    assert_eq!(
        rbac.events.last(),
        Some(&RbacEvent::OwnershipTransferred {
            previous_owner: addr(OWNER),
            new_owner: addr(USER),
        })
    );
    assert_eq!(
        rbac.accept_ownership(&by(&[USER]), addr(USER)),
        Err(RbacFault::NoPendingOwner)
    );
}

#[test]
fn owner_who_accepts_their_own_offer_stays_an_admin() {
    let mut rbac = roles();
    rbac.transfer_ownership(&by(&[OWNER]), addr(OWNER), addr(OWNER)).unwrap();
    assert_eq!(rbac.accept_ownership(&by(&[OWNER]), addr(OWNER)), Ok(()));
    assert_eq!(rbac.owner(), Ok(addr(OWNER)));
    assert_eq!(rbac.get_roles(&addr(OWNER)), Ok(vec![Role::Admin]));
    assert_eq!(rbac.pending_owner, None);
}

#[test]
fn grant_and_revocation_cancel_out() {
    let mut rbac = roles();
    rbac.bulk_grant(&by(&[OWNER]), addr(OWNER), addr(USER), vec![Role::Arbiter]).unwrap();
    grant(&mut rbac, USER, Role::Employee);
    rbac.revoke_role(&by(&[OWNER]), addr(OWNER), addr(USER), Role::Employee).unwrap();
    assert_eq!(rbac.get_roles(&addr(USER)), Ok(vec![Role::Arbiter]));
}
