//! Time-locked token escrow, and supply burning.
//!
//! A lock is created once, holding a positive amount in custody until a fixed
//! unlock time, and is mutated exactly once more: a successful claim marks it
//! claimed and releases the amount.  Custody movements themselves are carried
//! out by the token program; this module builds the transfer and burn
//! commands for it and decides exactly when they may be issued.

use vstd::prelude::*;

use crate::account::AccountId;
use crate::error::AriaTokenError;

verus! {

/// Declares solana_program's command value for the token program, so that
/// the escrow can build transfers and burns and hand them to the host to
/// issue.  Its inside stays opaque here: contracts speak of whole command
/// values through the names below, and tests decode what is built.
#[verifier::external_type_specification]
#[verifier::external_body]
pub struct ExInstruction(solana_program::instruction::Instruction);

/// The transfer command that spl_token::instruction::transfer builds for
/// these accounts and this amount; it depends on its arguments alone.
pub uninterp spec fn spec_transfer_instruction(
    source: AccountId,
    destination: AccountId,
    authority: AccountId,
    amount: u64,
) -> solana_program::instruction::Instruction;

/// The burn command that spl_token::instruction::burn builds for these
/// accounts and this amount; it depends on its arguments alone.
pub uninterp spec fn spec_burn_instruction(
    source: AccountId,
    mint: AccountId,
    authority: AccountId,
    amount: u64,
) -> solana_program::instruction::Instruction;

/// Relies on spl_token::instruction::transfer: with the spl token program id
/// it always returns Ok (its only failure is a wrong token program id), its
/// result is a function of the accounts and the amount alone, and it only
/// builds a command value, moving nothing itself.
#[verifier::external_body]
fn transfer_tokens_instruction(
    source: &AccountId,
    destination: &AccountId,
    authority: &AccountId,
    amount: u64,
) -> (r: solana_program::instruction::Instruction)
    ensures
        r == spec_transfer_instruction(*source, *destination, *authority, amount),
{
    spl_token::instruction::transfer(
        &spl_token::id(),
        &source.to_pubkey(),
        &destination.to_pubkey(),
        &authority.to_pubkey(),
        &[],
        amount,
    )
    .unwrap()
}

/// Relies on spl_token::instruction::burn: with the spl token program id it
/// always returns Ok (its only failure is a wrong token program id), its
/// result is a function of the accounts and the amount alone, and it only
/// builds a command value, burning nothing itself.
#[verifier::external_body]
fn burn_tokens_instruction(
    source: &AccountId,
    mint: &AccountId,
    authority: &AccountId,
    amount: u64,
) -> (r: solana_program::instruction::Instruction)
    ensures
        r == spec_burn_instruction(*source, *mint, *authority, amount),
{
    spl_token::instruction::burn(
        &spl_token::id(),
        &source.to_pubkey(),
        &mint.to_pubkey(),
        &authority.to_pubkey(),
        &[],
        amount,
    )
    .unwrap()
}

/// A time-locked escrow record.
#[derive(Clone, Copy, Debug, PartialEq, Eq, Structural)]
pub struct TokenLock {
    /// Owner of the locked tokens; the only identity that may claim them.
    pub owner: AccountId,
    /// The locked amount; positive, fixed at creation.
    pub amount: u64,
    /// The timestamp from which a claim is allowed; fixed at creation.
    pub unlock_time: u64,
    /// Whether the tokens were claimed; set at most once.
    pub is_claimed: bool,
}

impl TokenLock {
    /// Structural invariant: a lock always holds a positive amount.
    pub open spec fn well_formed(self) -> bool {
        self.amount > 0
    }

    /// The lock still holds its tokens and the unlock time has not come.
    pub open spec fn is_active(self, now: u64) -> bool {
        !self.is_claimed && now < self.unlock_time
    }

    /// The unlock time has come and the tokens were not claimed yet.
    pub open spec fn is_unlockable(self, now: u64) -> bool {
        !self.is_claimed && now >= self.unlock_time
    }
}

/// What a claim does to a lock: the first failing precondition, or the
/// claimed lock.  The claimed check comes before the time check, so a second
/// claim is reported as already claimed whatever the clock says.
pub open spec fn spec_claim_outcome(lock: TokenLock, caller: AccountId, now: u64) -> Result<
    TokenLock,
    AriaTokenError,
> {
    if lock.owner != caller {
        Err(AriaTokenError::IncorrectAuthority)
    } else if lock.is_claimed {
        Err(AriaTokenError::AlreadyClaimed)
    } else if now < lock.unlock_time {
        Err(AriaTokenError::StillLocked)
    } else {
        Ok(
            TokenLock {
                owner: lock.owner,
                amount: lock.amount,
                unlock_time: lock.unlock_time,
                is_claimed: true,
            },
        )
    }
}

/// Create a lock over `amount` tokens until `now + lock_duration`, and build
/// the transfer that moves the amount from `source` into the `vault` custody
/// account.  The owner must have signed and the amount must be positive; on
/// any failure no lock record and no transfer is produced.
pub fn lock_tokens(
    owner: &AccountId,
    owner_signed: bool,
    amount: u64,
    lock_duration: u64,
    now: u64,
    source: &AccountId,
    vault: &AccountId,
) -> (r: Result<(TokenLock, solana_program::instruction::Instruction), AriaTokenError>)
    requires
        now + lock_duration <= u64::MAX,
    ensures
        !owner_signed ==> (r matches Err(e) && e == AriaTokenError::IncorrectAuthority),
        owner_signed && amount == 0 ==> (r matches Err(e) && e == AriaTokenError::ValidationError),
        owner_signed && amount > 0 ==> (r matches Ok(v) && v.0 == (TokenLock {
            owner: *owner,
            amount,
            unlock_time: (now + lock_duration) as u64,
            is_claimed: false,
        }) && v.1 == spec_transfer_instruction(*source, *vault, *owner, amount)),
        r matches Ok(v) ==> v.0.well_formed() && v.0.is_active(now) == (lock_duration > 0),
{
    if !owner_signed {
        return Err(AriaTokenError::IncorrectAuthority);
    }
    if amount == 0 {
        return Err(AriaTokenError::ValidationError);
    }
    let lock = TokenLock { owner: *owner, amount, unlock_time: now + lock_duration, is_claimed: false };
    let transfer = transfer_tokens_instruction(source, vault, owner, amount);
    Ok((lock, transfer))
}

/// Claim an unlockable lock: mark it claimed and build the transfer that
/// releases its amount from the `vault` custody account to `destination`,
/// authorized by the custody authority.  Exactly the failing precondition of
/// `spec_claim_outcome` is reported, and a failed claim changes nothing and
/// produces no transfer.
pub fn unlock_tokens(
    lock: &mut TokenLock,
    caller: &AccountId,
    now: u64,
    vault: &AccountId,
    destination: &AccountId,
    vault_authority: &AccountId,
) -> (r: Result<solana_program::instruction::Instruction, AriaTokenError>)
    ensures
        spec_claim_outcome(*old(lock), *caller, now) matches Ok(next) ==> (r matches Ok(ix)
            && *final(lock) == next && ix == spec_transfer_instruction(
            *vault,
            *destination,
            *vault_authority,
            old(lock).amount,
        )),
        spec_claim_outcome(*old(lock), *caller, now) matches Err(e) ==> r == Err::<
            solana_program::instruction::Instruction,
            AriaTokenError,
        >(e) && *final(lock) == *old(lock),
{
    if !(lock.owner == *caller) {
        return Err(AriaTokenError::IncorrectAuthority);
    }
    if lock.is_claimed {
        return Err(AriaTokenError::AlreadyClaimed);
    }
    if now < lock.unlock_time {
        return Err(AriaTokenError::StillLocked);
    }
    let transfer = transfer_tokens_instruction(vault, destination, vault_authority, lock.amount);
    lock.is_claimed = true;
    Ok(transfer)
}

/// Build the burn that reduces supply by `amount` from `source`.  The burn
/// authority must have signed; nothing else gates a burn.
pub fn burn_tokens(
    authority: &AccountId,
    authority_signed: bool,
    mint: &AccountId,
    source: &AccountId,
    amount: u64,
) -> (r: Result<solana_program::instruction::Instruction, AriaTokenError>)
    ensures
        r is Ok <==> authority_signed,
        authority_signed ==> (r matches Ok(ix) && ix == spec_burn_instruction(
            *source,
            *mint,
            *authority,
            amount,
        )),
        !authority_signed ==> r == Err::<
            solana_program::instruction::Instruction,
            AriaTokenError,
        >(AriaTokenError::IncorrectAuthority),
{
    if !authority_signed {
        return Err(AriaTokenError::IncorrectAuthority);
    }
    Ok(burn_tokens_instruction(source, mint, authority, amount))
}

/// Law: while the unlock time has not come, a claim by the owner fails as
/// still locked, and the lock record keeps `is_claimed` false.
pub proof fn lemma_claim_before_unlock_fails(lock: TokenLock, caller: AccountId, now: u64)
    requires
        caller == lock.owner,
        !lock.is_claimed,
        now < lock.unlock_time,
    ensures
        spec_claim_outcome(lock, caller, now) == Err::<TokenLock, AriaTokenError>(
            AriaTokenError::StillLocked,
        ),
{
}

/// Law: once the unlock time has come, a claim by the owner succeeds, marks
/// the lock claimed, and changes nothing else about it.
pub proof fn lemma_claim_after_unlock_succeeds(lock: TokenLock, caller: AccountId, now: u64)
    requires
        caller == lock.owner,
        !lock.is_claimed,
        now >= lock.unlock_time,
    ensures
        spec_claim_outcome(lock, caller, now) matches Ok(next) && next == (TokenLock {
            owner: lock.owner,
            amount: lock.amount,
            unlock_time: lock.unlock_time,
            is_claimed: true,
        }),
{
}

/// Law: a claim succeeds at most once; after a successful claim, every later
/// claim by the owner fails as already claimed, whatever the clock says.
pub proof fn lemma_claim_at_most_once(lock: TokenLock, caller: AccountId, now1: u64, now2: u64)
    requires
        spec_claim_outcome(lock, caller, now1) is Ok,
    ensures
        spec_claim_outcome(spec_claim_outcome(lock, caller, now1)->Ok_0, caller, now2) == Err::<
            TokenLock,
            AriaTokenError,
        >(AriaTokenError::AlreadyClaimed),
{
}

} // verus!
