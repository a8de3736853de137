use contracts::auth::{
    get_admin, grant_role, has_role, require_admin, require_not_paused, require_role, revoke_role, set_paused,
    AuthStore, Role,
};
use contracts::errors::Error;

const ADMIN: u64 = 1;

fn setup() -> AuthStore {
    AuthStore::new(ADMIN)
}

#[test]
fn test_require_admin_succeeds_for_admin() {
    let s = setup();
    assert_eq!(require_admin(&s, ADMIN), Ok(()));
}

#[test]
fn test_require_admin_fails_for_non_admin() {
    let s = setup();
    assert_eq!(require_admin(&s, 2), Err(Error::Unauthorized));
}

#[test]
fn test_grant_role_by_admin_succeeds() {
    let mut s = setup();
    assert_eq!(grant_role(&mut s, ADMIN, 5, Role::Upgrader), Ok(()));
    assert!(has_role(&s, 5, Role::Upgrader));
}

#[test]
fn test_grant_role_by_non_admin_fails() {
    let mut s = setup();
    assert_eq!(grant_role(&mut s, 9, 5, Role::Upgrader), Err(Error::Unauthorized));
    assert!(!has_role(&s, 5, Role::Upgrader));
}

#[test]
fn test_revoke_role_by_admin_succeeds() {
    let mut s = setup();
    grant_role(&mut s, ADMIN, 5, Role::TreasuryManager).unwrap();
    assert!(has_role(&s, 5, Role::TreasuryManager));
    assert_eq!(revoke_role(&mut s, ADMIN, 5, Role::TreasuryManager), Ok(()));
    assert!(!has_role(&s, 5, Role::TreasuryManager));
}

#[test]
fn test_revoke_role_by_non_admin_fails() {
    let mut s = setup();
    grant_role(&mut s, ADMIN, 5, Role::Pauser).unwrap();
    assert_eq!(revoke_role(&mut s, 9, 5, Role::Pauser), Err(Error::Unauthorized));
    assert!(has_role(&s, 5, Role::Pauser));
}

#[test]
fn test_require_role_passes_when_role_held() {
    let mut s = setup();
    grant_role(&mut s, ADMIN, 5, Role::Upgrader).unwrap();
    assert_eq!(require_role(&s, 5, Role::Upgrader), Ok(()));
}

#[test]
fn test_require_role_fails_when_role_not_held() {
    let s = setup();
    assert_eq!(require_role(&s, 5, Role::TreasuryManager), Err(Error::Unauthorized));
}

#[test]
fn test_require_role_fails_after_role_revoked() {
    let mut s = setup();
    grant_role(&mut s, ADMIN, 5, Role::Pauser).unwrap();
    revoke_role(&mut s, ADMIN, 5, Role::Pauser).unwrap();
    assert_eq!(require_role(&s, 5, Role::Pauser), Err(Error::Unauthorized));
}

#[test]
fn test_roles_are_independent_per_role_variant() {
    let mut s = setup();
    grant_role(&mut s, ADMIN, 5, Role::Upgrader).unwrap();
    assert_eq!(require_role(&s, 5, Role::TreasuryManager), Err(Error::Unauthorized));
}

#[test]
fn test_require_not_paused_passes_when_active() {
    let s = setup();
    assert_eq!(require_not_paused(&s), Ok(()));
}

#[test]
fn test_require_not_paused_blocks_when_paused() {
    let mut s = setup();
    set_paused(&mut s, true);
    assert_eq!(require_not_paused(&s), Err(Error::ContractPaused));
}

#[test]
fn test_require_not_paused_passes_after_resume() {
    let mut s = setup();
    set_paused(&mut s, true);
    set_paused(&mut s, false);
    assert_eq!(require_not_paused(&s), Ok(()));
}

#[test]
fn test_get_admin_returns_set_admin() {
    let s = setup();
    assert_eq!(get_admin(&s), ADMIN);
}

#[test]
fn grant_and_revoke_touch_only_their_pair() {
    let mut s = setup();
    grant_role(&mut s, ADMIN, 5, Role::Pauser).unwrap();
    grant_role(&mut s, ADMIN, 6, Role::Pauser).unwrap();
    grant_role(&mut s, ADMIN, 5, Role::OracleSigner).unwrap();
    revoke_role(&mut s, ADMIN, 5, Role::Pauser).unwrap();
    assert!(!has_role(&s, 5, Role::Pauser));
    assert!(has_role(&s, 6, Role::Pauser));
    assert!(has_role(&s, 5, Role::OracleSigner));
    contracts::auth::set_admin(&mut s, 7);
    assert_eq!(require_admin(&s, ADMIN), Err(Error::Unauthorized));
    assert_eq!(grant_role(&mut s, 7, 8, Role::ReferralManager), Ok(()));
}
