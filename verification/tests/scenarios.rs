use rbac::{Address, RbacContract, RbacError, Symbol};

fn initialized(admin: &Address) -> RbacContract {
    let mut contract = RbacContract::new();
    contract.initialize(admin.clone());
    contract
}

fn root() -> Symbol {
    RbacContract::default_admin_role()
}

#[test]
fn fresh_state_holds_nothing() {
    let contract = RbacContract::new();
    assert!(!contract.is_initialized());
    assert_eq!(contract.get_deployer(), None);
    assert!(!contract.role_exists(root()));
    assert!(!contract.has_role(root(), Address::new("GADMIN"), 0));
    assert!(contract.events().is_empty());
}

#[test]
fn nothing_can_be_done_before_initialization() {
    let mut contract = RbacContract::new();
    let anyone = Address::new("GANYONE");
    assert_eq!(
        contract.create_role(anyone.clone(), Symbol::new("W"), root(), 0),
        Err(RbacError::NotAuthorized)
    );
    assert_eq!(
        contract.grant_role(anyone.clone(), root(), anyone.clone(), 0, 0),
        Err(RbacError::RoleNotFound)
    );
    assert_eq!(contract.revoke_role(anyone.clone(), root(), anyone, 0), Err(RbacError::RoleNotFound));
    assert!(!contract.is_initialized());
    assert!(contract.events().is_empty());
}

#[test]
fn scenario_initialize_gives_root_to_admin_only() {
    let admin = Address::new("GADMIN");
    let other = Address::new("GOTHER");
    let contract = initialized(&admin);

    assert!(contract.is_initialized());
    assert!(contract.has_role(root(), admin.clone(), 0));
    assert!(contract.has_role(root(), admin.clone(), u64::MAX));
    assert!(!contract.has_role(root(), other, 0));
    assert_eq!(contract.get_role_admin(root()), root());
    assert_eq!(contract.get_role_expiry(root(), admin.clone()), 0);
    assert_eq!(contract.get_deployer(), Some(admin));
}

#[test]
fn scenario_create_grant_check_revoke() {
    let admin = Address::new("GADMIN");
    let acct = Address::new("GACCT");
    let w = Symbol::new("W");
    let mut contract = initialized(&admin);

    assert_eq!(contract.create_role(admin.clone(), w.clone(), root(), 0), Ok(()));
    assert_eq!(contract.grant_role(admin.clone(), w.clone(), acct.clone(), 0, 0), Ok(()));
    assert!(contract.has_role(w.clone(), acct.clone(), 0));
    assert_eq!(contract.revoke_role(admin, w.clone(), acct.clone(), 0), Ok(()));
    assert!(!contract.has_role(w, acct, 0));
}

#[test]
fn scenario_expiry_must_be_strictly_in_the_future() {
    let admin = Address::new("GADMIN");
    let acct = Address::new("GACCT");
    let role = Symbol::new("TEMP");
    let mut contract = initialized(&admin);
    assert_eq!(contract.create_role(admin.clone(), role.clone(), root(), 1000), Ok(()));

    assert_eq!(
        contract.grant_role(admin.clone(), role.clone(), acct.clone(), 1000, 1000),
        Err(RbacError::InvalidExpiry)
    );
    assert!(!contract.has_role(role.clone(), acct.clone(), 1000));
    assert_eq!(contract.get_role_expiry(role.clone(), acct.clone()), 0);

    assert_eq!(contract.grant_role(admin, role.clone(), acct.clone(), 1001, 1000), Ok(()));
    assert!(contract.has_role(role.clone(), acct.clone(), 1000));
    assert_eq!(contract.get_role_expiry(role, acct), 1001);
}

#[test]
fn scenario_admin_role_must_exist() {
    let admin = Address::new("GADMIN");
    let mut contract = initialized(&admin);
    let role = Symbol::new("NEW_ROLE");
    let ghost = Symbol::new("GHOST");

    assert_eq!(contract.create_role(admin, role.clone(), ghost.clone(), 0), Err(RbacError::RoleNotFound));
    assert!(!contract.role_exists(role));
    assert!(!contract.role_exists(ghost));
}

#[test]
fn created_role_exists_and_stays() {
    let admin = Address::new("GADMIN");
    let acct = Address::new("GACCT");
    let role = Symbol::new("KEEPER");
    let other = Symbol::new("OTHER");
    let mut contract = initialized(&admin);

    assert!(!contract.role_exists(role.clone()));
    assert_eq!(contract.create_role(admin.clone(), role.clone(), root(), 0), Ok(()));
    assert!(contract.role_exists(role.clone()));

    assert_eq!(contract.create_role(admin.clone(), other.clone(), root(), 1), Ok(()));
    assert_eq!(contract.set_role_admin(admin.clone(), role.clone(), other.clone(), 2), Ok(()));
    assert_eq!(contract.grant_role(admin.clone(), other.clone(), acct.clone(), 10, 3), Ok(()));
    assert_eq!(contract.revoke_role(admin.clone(), other.clone(), acct.clone(), 4), Ok(()));
    assert_eq!(contract.revoke_role(admin.clone(), root(), admin.clone(), 5), Ok(()));
    assert!(!contract.cleanup_expired_role(other.clone(), acct, 20));

    assert!(contract.role_exists(role));
    assert!(contract.role_exists(other));
    assert!(contract.role_exists(root()));
}

#[test]
fn creating_a_role_twice_fails() {
    let admin = Address::new("GADMIN");
    let role = Symbol::new("ONCE");
    let manager = Symbol::new("MANAGER");
    let mut contract = initialized(&admin);

    assert_eq!(contract.create_role(admin.clone(), role.clone(), root(), 0), Ok(()));
    assert_eq!(contract.create_role(admin.clone(), manager.clone(), root(), 0), Ok(()));

    assert_eq!(
        contract.create_role(admin.clone(), role.clone(), root(), 0),
        Err(RbacError::RoleAlreadyExists)
    );
    assert_eq!(
        contract.create_role(admin.clone(), role.clone(), manager, 7),
        Err(RbacError::RoleAlreadyExists)
    );
    assert_eq!(
        contract.create_role(admin.clone(), role.clone(), Symbol::new("GHOST"), 7),
        Err(RbacError::RoleAlreadyExists)
    );
    assert_eq!(
        contract.create_role(admin.clone(), root(), root(), 7),
        Err(RbacError::RoleAlreadyExists)
    );
    assert_eq!(contract.get_role_admin(role), root());
}

#[test]
fn creating_a_role_twice_without_root_is_not_authorized() {
    let admin = Address::new("GADMIN");
    let role = Symbol::new("ONCE");
    let mut contract = initialized(&admin);
    assert_eq!(contract.create_role(admin, role.clone(), root(), 0), Ok(()));
    assert_eq!(
        contract.create_role(Address::new("GNOBODY"), role, root(), 0),
        Err(RbacError::NotAuthorized)
    );
}

#[test]
fn expiry_is_an_exclusive_bound() {
    let admin = Address::new("GADMIN");
    let acct = Address::new("GACCT");
    let role = Symbol::new("BOUND");
    let mut contract = initialized(&admin);
    let now = 41u64;
    assert_eq!(contract.create_role(admin.clone(), role.clone(), root(), now), Ok(()));
    assert_eq!(contract.grant_role(admin, role.clone(), acct.clone(), now + 1, now), Ok(()));

    assert!(contract.has_role(role.clone(), acct.clone(), now));
    assert!(!contract.has_role(role.clone(), acct.clone(), now + 1));
    assert!(!contract.has_role(role.clone(), acct.clone(), now + 2));
    assert_eq!(contract.require_role(role.clone(), acct.clone(), now), Ok(()));
    assert_eq!(contract.require_role(role, acct, now + 1), Err(RbacError::NotAuthorized));
}

#[test]
fn grant_without_limit_never_runs_out() {
    let admin = Address::new("GADMIN");
    let acct = Address::new("GACCT");
    let role = Symbol::new("FOREVER");
    let mut contract = initialized(&admin);
    assert_eq!(contract.create_role(admin.clone(), role.clone(), root(), 5), Ok(()));
    assert_eq!(contract.grant_role(admin, role.clone(), acct.clone(), 0, 5), Ok(()));

    assert!(contract.has_role(role.clone(), acct.clone(), 0));
    assert!(contract.has_role(role.clone(), acct.clone(), u64::MAX));
    assert!(!contract.cleanup_expired_role(role.clone(), acct.clone(), u64::MAX));
    assert!(contract.has_role(role, acct, u64::MAX));
}

#[test]
fn has_role_leaves_an_expired_grant_in_place() {
    let admin = Address::new("GADMIN");
    let acct = Address::new("GACCT");
    let role = Symbol::new("STALE");
    let mut contract = initialized(&admin);
    assert_eq!(contract.create_role(admin.clone(), role.clone(), root(), 0), Ok(()));
    assert_eq!(contract.grant_role(admin, role.clone(), acct.clone(), 100, 0), Ok(()));
    let records = contract.events().len();

    for _ in 0..5 {
        assert!(!contract.has_role(role.clone(), acct.clone(), 100));
        assert_eq!(contract.require_role(role.clone(), acct.clone(), 500), Err(RbacError::NotAuthorized));
    }
    assert_eq!(contract.get_role_expiry(role.clone(), acct.clone()), 100);
    assert_eq!(contract.events().len(), records);
    assert!(contract.has_role(role, acct, 99));
}

#[test]
fn cleanup_is_idempotent() {
    let admin = Address::new("GADMIN");
    let acct = Address::new("GACCT");
    let role = Symbol::new("SWEEP");
    let mut contract = initialized(&admin);
    assert_eq!(contract.create_role(admin.clone(), role.clone(), root(), 0), Ok(()));
    assert_eq!(contract.grant_role(admin, role.clone(), acct.clone(), 100, 0), Ok(()));

    assert!(!contract.cleanup_expired_role(role.clone(), acct.clone(), 99));
    assert_eq!(contract.get_role_expiry(role.clone(), acct.clone()), 100);

    assert!(contract.cleanup_expired_role(role.clone(), acct.clone(), 100));
    assert_eq!(contract.get_role_expiry(role.clone(), acct.clone()), 0);
    assert!(!contract.has_role(role.clone(), acct.clone(), 0));

    assert!(!contract.cleanup_expired_role(role.clone(), acct.clone(), 100));
    assert!(!contract.cleanup_expired_role(role, acct, 1000));
}

#[test]
fn cleanup_of_what_was_never_granted_does_nothing() {
    let admin = Address::new("GADMIN");
    let mut contract = initialized(&admin);
    let records = contract.events().len();
    assert!(!contract.cleanup_expired_role(Symbol::new("GHOST"), Address::new("GACCT"), 1000));
    assert!(!contract.cleanup_expired_role(root(), Address::new("GACCT"), 1000));
    assert!(!contract.cleanup_expired_role(root(), admin.clone(), 1000));
    assert!(contract.has_role(root(), admin, 1000));
    assert_eq!(contract.events().len(), records);
}

#[test]
fn role_is_not_created_under_itself() {
    let admin = Address::new("GADMIN");
    let role = Symbol::new("SELFISH");
    let mut contract = initialized(&admin);

    assert_eq!(
        contract.create_role(admin.clone(), role.clone(), role.clone(), 0),
        Err(RbacError::InvalidSelfAdmin)
    );
    assert!(!contract.role_exists(role.clone()));
    assert_eq!(
        contract.create_role(Address::new("GNOBODY"), role.clone(), role.clone(), 0),
        Err(RbacError::NotAuthorized)
    );

    assert_eq!(contract.create_role(admin.clone(), role.clone(), root(), 0), Ok(()));
    assert_eq!(
        contract.create_role(admin, role.clone(), role.clone(), 0),
        Err(RbacError::RoleAlreadyExists)
    );
    assert_eq!(contract.get_role_admin(role), root());
}

#[test]
fn role_cannot_be_made_its_own_admin() {
    let admin = Address::new("GADMIN");
    let role = Symbol::new("SELFISH");
    let mut contract = initialized(&admin);
    assert_eq!(contract.create_role(admin.clone(), role.clone(), root(), 0), Ok(()));

    assert_eq!(
        contract.set_role_admin(admin.clone(), role.clone(), role.clone(), 0),
        Err(RbacError::InvalidSelfAdmin)
    );
    assert_eq!(contract.get_role_admin(role), root());

    assert_eq!(contract.set_role_admin(admin, root(), root(), 0), Ok(()));
    assert_eq!(contract.get_role_admin(root()), root());
}

#[test]
fn unknown_role_is_reported() {
    let admin = Address::new("GADMIN");
    let acct = Address::new("GACCT");
    let ghost = Symbol::new("GHOST");
    let nobody = Address::new("GNOBODY");
    let mut contract = initialized(&admin);

    assert_eq!(
        contract.grant_role(nobody.clone(), ghost.clone(), acct.clone(), 0, 0),
        Err(RbacError::RoleNotFound)
    );
    assert_eq!(
        contract.revoke_role(nobody.clone(), ghost.clone(), acct.clone(), 0),
        Err(RbacError::RoleNotFound)
    );
    assert_eq!(
        contract.set_role_admin(admin.clone(), ghost.clone(), root(), 0),
        Err(RbacError::RoleNotFound)
    );
    assert_eq!(
        contract.set_role_admin(admin, root(), ghost.clone(), 0),
        Err(RbacError::RoleNotFound)
    );
    assert_eq!(
        contract.set_role_admin(nobody, ghost.clone(), root(), 0),
        Err(RbacError::NotAuthorized)
    );
    assert!(!contract.role_exists(ghost.clone()));
    assert_eq!(contract.get_role_admin(ghost.clone()), root());
    assert_eq!(contract.get_role_expiry(ghost, acct), 0);
}

#[test]
fn only_root_holders_change_the_hierarchy() {
    let admin = Address::new("GADMIN");
    let mallory = Address::new("GMALLORY");
    let role = Symbol::new("VAULT");
    let manager = Symbol::new("MANAGER");
    let mut contract = initialized(&admin);
    assert_eq!(contract.create_role(admin.clone(), role.clone(), root(), 0), Ok(()));
    assert_eq!(contract.create_role(admin.clone(), manager.clone(), root(), 0), Ok(()));
    assert_eq!(contract.grant_role(admin.clone(), manager.clone(), mallory.clone(), 0, 0), Ok(()));

    assert_eq!(
        contract.create_role(mallory.clone(), Symbol::new("MINE"), root(), 0),
        Err(RbacError::NotAuthorized)
    );
    assert_eq!(
        contract.set_role_admin(mallory.clone(), role.clone(), manager.clone(), 0),
        Err(RbacError::NotAuthorized)
    );
    assert_eq!(
        contract.grant_role(mallory.clone(), role.clone(), mallory.clone(), 0, 0),
        Err(RbacError::NotAuthorized)
    );
    assert_eq!(
        contract.grant_role(mallory.clone(), root(), mallory.clone(), 0, 0),
        Err(RbacError::NotAuthorized)
    );
    assert_eq!(
        contract.revoke_role(mallory.clone(), root(), admin.clone(), 0),
        Err(RbacError::NotAuthorized)
    );
    assert!(!contract.role_exists(Symbol::new("MINE")));
    assert_eq!(contract.get_role_admin(role.clone()), root());
    assert!(!contract.has_role(role, mallory.clone(), 0));
    assert!(!contract.has_role(root(), mallory, 0));
    assert!(contract.has_role(root(), admin, 0));
}

#[test]
fn admin_role_of_a_role_decides_who_grants_it() {
    let admin = Address::new("GADMIN");
    let boss = Address::new("GBOSS");
    let acct = Address::new("GACCT");
    let role = Symbol::new("VAULT");
    let manager = Symbol::new("MANAGER");
    let mut contract = initialized(&admin);
    assert_eq!(contract.create_role(admin.clone(), manager.clone(), root(), 0), Ok(()));
    assert_eq!(contract.create_role(admin.clone(), role.clone(), manager.clone(), 0), Ok(()));
    assert_eq!(contract.grant_role(admin.clone(), manager.clone(), boss.clone(), 50, 0), Ok(()));

    assert_eq!(
        contract.grant_role(admin.clone(), role.clone(), acct.clone(), 0, 0),
        Err(RbacError::NotAuthorized)
    );
    assert_eq!(contract.grant_role(boss.clone(), role.clone(), acct.clone(), 0, 10), Ok(()));
    assert!(contract.has_role(role.clone(), acct.clone(), 10));

    assert_eq!(
        contract.revoke_role(boss.clone(), role.clone(), acct.clone(), 50),
        Err(RbacError::NotAuthorized)
    );
    assert_eq!(
        contract.grant_role(boss.clone(), role.clone(), boss.clone(), 0, 50),
        Err(RbacError::NotAuthorized)
    );
    assert!(contract.has_role(role.clone(), acct.clone(), 50));

    assert_eq!(contract.set_role_admin(admin.clone(), role.clone(), root(), 60), Ok(()));
    assert_eq!(contract.revoke_role(admin, role.clone(), acct.clone(), 60), Ok(()));
    assert!(!contract.has_role(role, acct, 60));
}

#[test]
fn granting_again_replaces_the_expiry() {
    let admin = Address::new("GADMIN");
    let acct = Address::new("GACCT");
    let role = Symbol::new("RENEW");
    let mut contract = initialized(&admin);
    assert_eq!(contract.create_role(admin.clone(), role.clone(), root(), 0), Ok(()));
    assert_eq!(contract.grant_role(admin.clone(), role.clone(), acct.clone(), 100, 0), Ok(()));
    assert_eq!(contract.grant_role(admin.clone(), role.clone(), acct.clone(), 200, 150), Ok(()));
    assert_eq!(contract.get_role_expiry(role.clone(), acct.clone()), 200);
    assert!(contract.has_role(role.clone(), acct.clone(), 199));
    assert_eq!(contract.grant_role(admin, role.clone(), acct.clone(), 0, 150), Ok(()));
    assert_eq!(contract.get_role_expiry(role.clone(), acct.clone()), 0);
    assert!(contract.has_role(role, acct, u64::MAX));
}

#[test]
fn grant_after_revocation_is_honoured_again() {
    let admin = Address::new("GADMIN");
    let acct = Address::new("GACCT");
    let role = Symbol::new("AGAIN");
    let mut contract = initialized(&admin);
    assert_eq!(contract.create_role(admin.clone(), role.clone(), root(), 0), Ok(()));
    assert_eq!(contract.grant_role(admin.clone(), role.clone(), acct.clone(), 0, 0), Ok(()));
    assert_eq!(contract.revoke_role(admin.clone(), role.clone(), acct.clone(), 0), Ok(()));
    assert!(!contract.has_role(role.clone(), acct.clone(), 0));
    assert_eq!(contract.grant_role(admin, role.clone(), acct.clone(), 9, 0), Ok(()));
    assert!(contract.has_role(role, acct, 8));
}

#[test]
fn revoking_what_was_never_granted_succeeds() {
    let admin = Address::new("GADMIN");
    let acct = Address::new("GACCT");
    let role = Symbol::new("NONE");
    let mut contract = initialized(&admin);
    assert_eq!(contract.create_role(admin.clone(), role.clone(), root(), 0), Ok(()));
    assert_eq!(contract.revoke_role(admin.clone(), role.clone(), acct.clone(), 0), Ok(()));
    assert_eq!(contract.revoke_role(admin, role.clone(), acct.clone(), 0), Ok(()));
    assert!(!contract.has_role(role, acct, 0));
}

#[test]
fn last_root_holder_can_lock_the_hierarchy() {
    let admin = Address::new("GADMIN");
    let mut contract = initialized(&admin);
    assert_eq!(contract.revoke_role(admin.clone(), root(), admin.clone(), 0), Ok(()));
    assert!(!contract.has_role(root(), admin.clone(), 0));
    assert_eq!(
        contract.create_role(admin.clone(), Symbol::new("LATE"), root(), 0),
        Err(RbacError::NotAuthorized)
    );
    assert_eq!(
        contract.grant_role(admin.clone(), root(), admin, 0, 0),
        Err(RbacError::NotAuthorized)
    );
    assert!(contract.role_exists(root()));
}

#[test]
fn expired_root_holder_is_not_authorized() {
    let admin = Address::new("GADMIN");
    let deputy = Address::new("GDEPUTY");
    let mut contract = initialized(&admin);
    assert_eq!(contract.grant_role(admin, root(), deputy.clone(), 100, 0), Ok(()));
    assert_eq!(contract.create_role(deputy.clone(), Symbol::new("EARLY"), root(), 99), Ok(()));
    assert_eq!(
        contract.create_role(deputy, Symbol::new("LATE"), root(), 100),
        Err(RbacError::NotAuthorized)
    );
    assert!(contract.role_exists(Symbol::new("EARLY")));
    assert!(!contract.role_exists(Symbol::new("LATE")));
}

#[test]
fn roles_may_administer_each_other() {
    let admin = Address::new("GADMIN");
    let a = Symbol::new("A");
    let b = Symbol::new("B");
    let mut contract = initialized(&admin);
    assert_eq!(contract.create_role(admin.clone(), a.clone(), root(), 0), Ok(()));
    assert_eq!(contract.create_role(admin.clone(), b.clone(), a.clone(), 0), Ok(()));
    assert_eq!(contract.set_role_admin(admin, a.clone(), b.clone(), 0), Ok(()));
    assert_eq!(contract.get_role_admin(a.clone()), b);
    assert_eq!(contract.get_role_admin(b), a);
}
