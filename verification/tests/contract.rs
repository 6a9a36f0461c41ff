use rbac::{Address, RbacContract, RbacError, Symbol};

fn setup_env() -> (RbacContract, Address) {
    let mut contract = RbacContract::new();
    let admin = Address::new("GADMIN");
    contract.initialize(admin.clone());
    (contract, admin)
}

#[test]
fn test_initialize() {
    let (contract, admin) = setup_env();

    let deployer = contract.get_deployer();
    assert_eq!(deployer, Some(admin.clone()));

    let default_admin = RbacContract::default_admin_role();
    assert!(contract.has_role(default_admin, admin, 0));
}

#[test]
fn test_create_role() {
    let (mut contract, admin) = setup_env();

    let role = Symbol::new("WITHDRAW");
    let admin_role = RbacContract::default_admin_role();

    assert_eq!(contract.create_role(admin, role.clone(), admin_role.clone(), 0), Ok(()));

    let stored_admin = contract.get_role_admin(role.clone());
    assert_eq!(stored_admin, admin_role);

    assert!(contract.role_exists(role));
}

#[test]
fn test_grant_and_has_role() {
    let (mut contract, admin) = setup_env();

    let role = Symbol::new("WITHDRAW");
    let admin_role = RbacContract::default_admin_role();
    assert_eq!(contract.create_role(admin.clone(), role.clone(), admin_role, 0), Ok(()));

    let account = Address::new("GACCOUNT");
    assert_eq!(contract.grant_role(admin, role.clone(), account.clone(), 0, 0), Ok(()));

    assert!(contract.has_role(role, account, 0));
}

#[test]
fn test_role_expiry() {
    let (mut contract, admin) = setup_env();

    let initial_time = 1000u64;

    let role = Symbol::new("TEMP");
    let admin_role = RbacContract::default_admin_role();
    assert_eq!(contract.create_role(admin.clone(), role.clone(), admin_role, initial_time), Ok(()));

    let account = Address::new("GACCOUNT");
    let expiry = initial_time + 1000;
    assert_eq!(
        contract.grant_role(admin, role.clone(), account.clone(), expiry, initial_time),
        Ok(())
    );

    assert!(contract.has_role(role.clone(), account.clone(), initial_time));

    assert!(!contract.has_role(role, account, expiry + 1));
}

#[test]
fn test_revoke_role() {
    let (mut contract, admin) = setup_env();

    let role = Symbol::new("REVOKE");
    let admin_role = RbacContract::default_admin_role();
    assert_eq!(contract.create_role(admin.clone(), role.clone(), admin_role, 0), Ok(()));

    let account = Address::new("GACCOUNT");
    assert_eq!(contract.grant_role(admin.clone(), role.clone(), account.clone(), 0, 0), Ok(()));
    assert!(contract.has_role(role.clone(), account.clone(), 0));

    assert_eq!(contract.revoke_role(admin, role.clone(), account.clone(), 0), Ok(()));
    assert!(!contract.has_role(role, account, 0));
}

#[test]
fn test_require_role_success() {
    let (mut contract, admin) = setup_env();

    let role = Symbol::new("REQ");
    let admin_role = RbacContract::default_admin_role();
    assert_eq!(contract.create_role(admin.clone(), role.clone(), admin_role, 0), Ok(()));

    let account = Address::new("GACCOUNT");
    assert_eq!(contract.grant_role(admin, role.clone(), account.clone(), 0, 0), Ok(()));

    assert_eq!(contract.require_role(role, account, 0), Ok(()));
}

#[test]
#[should_panic(expected = "Error(Contract, #1)")]
fn test_require_role_failure() {
    let (mut contract, admin) = setup_env();

    let role = Symbol::new("NOTAUTH");
    let admin_role = RbacContract::default_admin_role();
    assert_eq!(contract.create_role(admin, role.clone(), admin_role, 0), Ok(()));

    let account = Address::new("GACCOUNT");

    if let Err(e) = contract.require_role(role, account, 0) {
        assert_eq!(e, RbacError::NotAuthorized);
        panic!("Error(Contract, #{})", e.code());
    }
}

#[test]
fn test_get_role_expiry() {
    let (mut contract, admin) = setup_env();

    let now = 1000;

    let role = Symbol::new("EXPIRY");
    let admin_role = RbacContract::default_admin_role();
    assert_eq!(contract.create_role(admin.clone(), role.clone(), admin_role, now), Ok(()));

    let account = Address::new("GACCOUNT");
    let expiry = 5000u64;
    assert_eq!(contract.grant_role(admin, role.clone(), account.clone(), expiry, now), Ok(()));

    assert_eq!(contract.get_role_expiry(role, account), expiry);
}

#[test]
fn test_set_role_admin() {
    let (mut contract, admin) = setup_env();

    let role = Symbol::new("ROLE1");
    let admin_role = RbacContract::default_admin_role();
    assert_eq!(contract.create_role(admin.clone(), role.clone(), admin_role.clone(), 0), Ok(()));

    let new_admin = Symbol::new("MANAGER");
    assert_eq!(contract.create_role(admin.clone(), new_admin.clone(), admin_role, 0), Ok(()));

    assert_eq!(contract.set_role_admin(admin, role.clone(), new_admin.clone(), 0), Ok(()));

    assert_eq!(contract.get_role_admin(role), new_admin);
}

#[test]
fn test_invalid_expiry() {
    let (mut contract, admin) = setup_env();

    let now = 5000;

    let role = Symbol::new("INVALID");
    let admin_role = RbacContract::default_admin_role();
    assert_eq!(contract.create_role(admin.clone(), role.clone(), admin_role, now), Ok(()));

    let account = Address::new("GACCOUNT");

    let result = contract.grant_role(admin, role.clone(), account.clone(), 1000, now);
    assert!(result.is_err());
    assert_eq!(result, Err(RbacError::InvalidExpiry));
    assert!(!contract.has_role(role, account, now));
}

#[test]
fn test_create_role_with_nonexistent_admin() {
    let (mut contract, admin) = setup_env();

    let role = Symbol::new("NEW_ROLE");
    let ghost_admin = Symbol::new("GHOST");

    let result = contract.create_role(admin, role.clone(), ghost_admin, 0);
    assert!(result.is_err());
    assert_eq!(result, Err(RbacError::RoleNotFound));
    assert!(!contract.role_exists(role));
}

#[test]
fn test_set_role_admin_to_nonexistent() {
    let (mut contract, admin) = setup_env();

    let role = Symbol::new("ROLE1");
    let admin_role = RbacContract::default_admin_role();
    assert_eq!(contract.create_role(admin.clone(), role.clone(), admin_role.clone(), 0), Ok(()));

    let ghost_admin = Symbol::new("GHOST");

    let result = contract.set_role_admin(admin, role.clone(), ghost_admin, 0);
    assert!(result.is_err());
    assert_eq!(result, Err(RbacError::RoleNotFound));
    assert_eq!(contract.get_role_admin(role), admin_role);
}

#[test]
fn test_self_admin_rejected() {
    let (mut contract, admin) = setup_env();

    let role = Symbol::new("SELFISH");

    let result = contract.create_role(admin, role.clone(), role.clone(), 0);
    assert!(result.is_err());
    assert_eq!(result, Err(RbacError::InvalidSelfAdmin));
    assert!(!contract.role_exists(role));
}

#[test]
fn test_cleanup_expired_role() {
    let (mut contract, admin) = setup_env();

    let initial_time = 1000u64;

    let role = Symbol::new("CLEANUP");
    let admin_role = RbacContract::default_admin_role();
    assert_eq!(contract.create_role(admin.clone(), role.clone(), admin_role, initial_time), Ok(()));

    let account = Address::new("GACCOUNT");
    let expiry = initial_time + 500;
    assert_eq!(
        contract.grant_role(admin, role.clone(), account.clone(), expiry, initial_time),
        Ok(())
    );

    assert!(!contract.cleanup_expired_role(role.clone(), account.clone(), initial_time));

    assert!(contract.cleanup_expired_role(role.clone(), account.clone(), expiry + 1));

    assert!(!contract.cleanup_expired_role(role, account, expiry + 1));
}

#[test]
fn test_has_role_is_pure_no_side_effects() {
    let (mut contract, admin) = setup_env();

    let initial_time = 1000u64;

    let role = Symbol::new("PURE");
    let admin_role = RbacContract::default_admin_role();
    assert_eq!(contract.create_role(admin.clone(), role.clone(), admin_role, initial_time), Ok(()));

    let account = Address::new("GACCOUNT");
    let expiry = initial_time + 500;
    assert_eq!(
        contract.grant_role(admin, role.clone(), account.clone(), expiry, initial_time),
        Ok(())
    );

    assert!(!contract.has_role(role.clone(), account.clone(), expiry + 1));
    assert!(!contract.has_role(role.clone(), account.clone(), expiry + 1));

    let stored_expiry = contract.get_role_expiry(role, account);
    assert_eq!(stored_expiry, expiry);
}

#[test]
fn test_grant_role_nonexistent_role() {
    let (mut contract, admin) = setup_env();

    let ghost_role = Symbol::new("GHOST");
    let account = Address::new("GACCOUNT");

    let result = contract.grant_role(admin, ghost_role, account, 0, 0);
    assert!(result.is_err());
    assert_eq!(result, Err(RbacError::RoleNotFound));
}

#[test]
fn test_revoke_role_nonexistent_role() {
    let (mut contract, admin) = setup_env();

    let ghost_role = Symbol::new("GHOST");
    let account = Address::new("GACCOUNT");

    let result = contract.revoke_role(admin, ghost_role, account, 0);
    assert!(result.is_err());
    assert_eq!(result, Err(RbacError::RoleNotFound));
}

#[test]
fn test_default_admin_role_exists_after_init() {
    let (contract, _admin) = setup_env();

    let default_admin = RbacContract::default_admin_role();
    assert!(contract.role_exists(default_admin));
}
