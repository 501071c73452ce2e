use aria_token::account::AccountId;
use aria_token::error::AriaTokenError;
use aria_token::security::add_authority;
use aria_token::security::initialize_authority;
use aria_token::security::remove_authority;
use aria_token::security::AuthorityList;
use aria_token::security::Role;

fn acct(n: u128) -> AccountId {
    AccountId::new(n, n.wrapping_mul(7))
}

fn active_count(list: &AuthorityList, key: &AccountId, role: Role) -> usize {
    list.authorities
        .iter()
        .filter(|a| a.key == *key && a.role == role && a.is_active)
        .count()
}

#[test]
fn initialize_creates_single_admin_record() {
    let admin = acct(1);
    let list = initialize_authority(&admin, true, false).unwrap();
    assert_eq!(list.primary_admin, admin);
    assert_eq!(list.authorities.len(), 1);
    assert_eq!(list.authorities[0].key, admin);
    assert_eq!(list.authorities[0].role, Role::Admin);
    assert!(list.authorities[0].is_active);
}

#[test]
fn initialize_requires_signature() {
    let admin = acct(1);
    assert_eq!(
        initialize_authority(&admin, false, false).unwrap_err(),
        AriaTokenError::IncorrectAuthority
    );
}

#[test]
fn initialize_rejects_occupied_storage() {
    let admin = acct(1);
    assert_eq!(
        initialize_authority(&admin, true, true).unwrap_err(),
        AriaTokenError::AlreadyInitialized
    );
}

#[test]
fn primary_admin_has_every_role() {
    // Even with no explicit record for the role in question.
    let admin = acct(1);
    let list = AuthorityList::new(admin);
    for role in [Role::Admin, Role::Minter, Role::Freezer, Role::Burner] {
        assert!(list.has_role(&admin, role));
    }
}

#[test]
fn granted_role_is_exactly_the_granted_one() {
    // Ledger initialized with admin A; A adds (B, Minter); B then holds
    // Minter and not Admin.
    let a = acct(1);
    let b = acct(2);
    let mut list = AuthorityList::new(a);
    add_authority(&mut list, &a, true, b, Role::Minter).unwrap();
    assert!(list.has_role(&b, Role::Minter));
    assert!(!list.has_role(&b, Role::Admin));
}

#[test]
fn adding_twice_leaves_one_active_record() {
    let a = acct(1);
    let b = acct(2);
    let mut list = AuthorityList::new(a);
    add_authority(&mut list, &a, true, b, Role::Minter).unwrap();
    add_authority(&mut list, &a, true, b, Role::Minter).unwrap();
    assert_eq!(active_count(&list, &b, Role::Minter), 1);
    assert_eq!(list.authorities.len(), 2);
}

#[test]
fn add_requires_signature_and_admin_role() {
    let a = acct(1);
    let b = acct(2);
    let c = acct(3);
    let mut list = AuthorityList::new(a);
    assert_eq!(
        add_authority(&mut list, &a, false, b, Role::Minter).unwrap_err(),
        AriaTokenError::IncorrectAuthority
    );
    add_authority(&mut list, &a, true, b, Role::Minter).unwrap();
    // A minter is not an admin, so it cannot grant roles.
    assert_eq!(
        add_authority(&mut list, &b, true, c, Role::Burner).unwrap_err(),
        AriaTokenError::IncorrectAuthority
    );
    assert!(!list.has_role(&c, Role::Burner));
}

#[test]
fn removing_primary_admin_admin_role_is_invariant_violation() {
    let a = acct(1);
    let mut list = AuthorityList::new(a);
    let before = list.clone();
    assert_eq!(
        remove_authority(&mut list, &a, true, &a, Role::Admin).unwrap_err(),
        AriaTokenError::InvariantViolation
    );
    assert_eq!(list, before);
}

#[test]
fn removal_deactivates_without_deleting() {
    let a = acct(1);
    let b = acct(2);
    let mut list = AuthorityList::new(a);
    add_authority(&mut list, &a, true, b, Role::Freezer).unwrap();
    remove_authority(&mut list, &a, true, &b, Role::Freezer).unwrap();
    assert!(!list.has_role(&b, Role::Freezer));
    // The record is kept for audit, only deactivated.
    assert_eq!(list.authorities.len(), 2);
    assert_eq!(list.authorities[1].key, b);
    assert_eq!(list.authorities[1].role, Role::Freezer);
    assert!(!list.authorities[1].is_active);
}

#[test]
fn removing_a_missing_record_is_not_found() {
    let a = acct(1);
    let b = acct(2);
    let mut list = AuthorityList::new(a);
    assert_eq!(
        remove_authority(&mut list, &a, true, &b, Role::Minter).unwrap_err(),
        AriaTokenError::AuthorityNotFound
    );
}

#[test]
fn regrant_after_removal_appends_a_fresh_active_record() {
    let a = acct(1);
    let b = acct(2);
    let mut list = AuthorityList::new(a);
    add_authority(&mut list, &a, true, b, Role::Minter).unwrap();
    remove_authority(&mut list, &a, true, &b, Role::Minter).unwrap();
    add_authority(&mut list, &a, true, b, Role::Minter).unwrap();
    assert!(list.has_role(&b, Role::Minter));
    // The deactivated slot is never reused.
    assert_eq!(list.authorities.len(), 3);
    assert!(!list.authorities[1].is_active);
    assert!(list.authorities[2].is_active);
    assert_eq!(active_count(&list, &b, Role::Minter), 1);
}

#[test]
fn primary_admin_other_roles_can_be_removed() {
    // Only the primary admin's Admin membership is protected; an explicit
    // grant of another role to the primary admin can be revoked.
    let a = acct(1);
    let mut list = AuthorityList::new(a);
    add_authority(&mut list, &a, true, a, Role::Minter).unwrap();
    remove_authority(&mut list, &a, true, &a, Role::Minter).unwrap();
    // The implicit membership of the primary admin still answers true.
    assert!(list.has_role(&a, Role::Minter));
    assert!(!list.authorities[1].is_active);
}
