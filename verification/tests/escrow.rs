use aria_token::account::AccountId;
use aria_token::error::AriaTokenError;
use aria_token::token_economy::burn_tokens;
use aria_token::token_economy::lock_tokens;
use aria_token::token_economy::unlock_tokens;
use solana_program::instruction::Instruction;
use spl_token::instruction::TokenInstruction;

fn acct(n: u128) -> AccountId {
    AccountId::new(n, n.wrapping_mul(11))
}

fn pubkey_of(id: &AccountId) -> solana_program::pubkey::Pubkey {
    let mut bytes = [0u8; 32];
    bytes[..16].copy_from_slice(&id.hi.to_le_bytes());
    bytes[16..].copy_from_slice(&id.lo.to_le_bytes());
    solana_program::pubkey::Pubkey::new_from_array(bytes)
}

fn decoded_transfer_amount(ix: &Instruction) -> u64 {
    match TokenInstruction::unpack(&ix.data).unwrap() {
        TokenInstruction::Transfer { amount } => amount,
        other => panic!("expected a transfer, got {:?}", other),
    }
}

#[test]
fn lock_computes_unlock_time_from_creation() {
    let owner = acct(1);
    let source = acct(2);
    let vault = acct(3);
    let (lock, transfer) = lock_tokens(&owner, true, 1000, 86400, 1000, &source, &vault).unwrap();
    assert_eq!(lock.owner, owner);
    assert_eq!(lock.amount, 1000);
    assert_eq!(lock.unlock_time, 87400);
    assert!(!lock.is_claimed);
    // The custody transfer moves exactly the locked amount into the vault.
    assert_eq!(transfer.program_id, spl_token::id());
    assert_eq!(decoded_transfer_amount(&transfer), 1000);
    assert_eq!(transfer.accounts[0].pubkey, pubkey_of(&source));
    assert_eq!(transfer.accounts[1].pubkey, pubkey_of(&vault));
    assert_eq!(transfer.accounts[2].pubkey, pubkey_of(&owner));
}

#[test]
fn lock_requires_signature() {
    let owner = acct(1);
    assert_eq!(
        lock_tokens(&owner, false, 1000, 86400, 1000, &acct(2), &acct(3)).unwrap_err(),
        AriaTokenError::IncorrectAuthority
    );
}

#[test]
fn lock_rejects_zero_amount() {
    let owner = acct(1);
    assert_eq!(
        lock_tokens(&owner, true, 0, 86400, 1000, &acct(2), &acct(3)).unwrap_err(),
        AriaTokenError::ValidationError
    );
}

#[test]
fn claim_before_unlock_time_is_still_locked() {
    let owner = acct(1);
    let (mut lock, _) = lock_tokens(&owner, true, 1000, 86400, 1000, &acct(2), &acct(3)).unwrap();
    let r = unlock_tokens(&mut lock, &owner, 50000, &acct(3), &acct(4), &acct(5));
    assert_eq!(r.unwrap_err(), AriaTokenError::StillLocked);
    // Nothing changed and no transfer was produced.
    assert!(!lock.is_claimed);
    assert_eq!(lock.amount, 1000);
}

#[test]
fn claim_after_unlock_time_succeeds_once() {
    let owner = acct(1);
    let vault = acct(3);
    let destination = acct(4);
    let vault_authority = acct(5);
    let (mut lock, _) = lock_tokens(&owner, true, 1000, 86400, 1000, &acct(2), &vault).unwrap();

    let release = unlock_tokens(&mut lock, &owner, 90000, &vault, &destination, &vault_authority)
        .unwrap();
    assert!(lock.is_claimed);
    // Exactly the locked amount is released from the vault to the destination.
    assert_eq!(decoded_transfer_amount(&release), 1000);
    assert_eq!(release.accounts[0].pubkey, pubkey_of(&vault));
    assert_eq!(release.accounts[1].pubkey, pubkey_of(&destination));
    assert_eq!(release.accounts[2].pubkey, pubkey_of(&vault_authority));

    // A second claim always fails as already claimed, even much later.
    let again = unlock_tokens(&mut lock, &owner, 100000, &vault, &destination, &vault_authority);
    assert_eq!(again.unwrap_err(), AriaTokenError::AlreadyClaimed);
    assert!(lock.is_claimed);
    assert_eq!(lock.amount, 1000);
}

#[test]
fn claim_by_non_owner_is_rejected() {
    let owner = acct(1);
    let intruder = acct(9);
    let (mut lock, _) = lock_tokens(&owner, true, 1000, 10, 1000, &acct(2), &acct(3)).unwrap();
    let r = unlock_tokens(&mut lock, &intruder, 90000, &acct(3), &acct(4), &acct(5));
    assert_eq!(r.unwrap_err(), AriaTokenError::IncorrectAuthority);
    assert!(!lock.is_claimed);
}

#[test]
fn zero_duration_lock_is_immediately_unlockable() {
    let owner = acct(1);
    let (mut lock, _) = lock_tokens(&owner, true, 5, 0, 1000, &acct(2), &acct(3)).unwrap();
    assert_eq!(lock.unlock_time, 1000);
    let r = unlock_tokens(&mut lock, &owner, 1000, &acct(3), &acct(4), &acct(5));
    assert!(r.is_ok());
    assert!(lock.is_claimed);
}

#[test]
fn burn_builds_the_burn_command() {
    let authority = acct(1);
    let mint = acct(2);
    let source = acct(3);
    let ix = burn_tokens(&authority, true, &mint, &source, 250).unwrap();
    match TokenInstruction::unpack(&ix.data).unwrap() {
        TokenInstruction::Burn { amount } => assert_eq!(amount, 250),
        other => panic!("expected a burn, got {:?}", other),
    }
    assert_eq!(ix.accounts[0].pubkey, pubkey_of(&source));
    assert_eq!(ix.accounts[1].pubkey, pubkey_of(&mint));
    assert_eq!(ix.accounts[2].pubkey, pubkey_of(&authority));
}

#[test]
fn burn_requires_signature() {
    let authority = acct(1);
    assert_eq!(
        burn_tokens(&authority, false, &acct(2), &acct(3), 250).unwrap_err(),
        AriaTokenError::IncorrectAuthority
    );
}
