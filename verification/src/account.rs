//! Account identities, as plain values the contracts can compare.

use vstd::prelude::*;

verus! {

/// A 32-byte account address, held as two 128-bit halves so that equality in
/// contracts is plain field equality.
#[derive(Clone, Copy, Debug, PartialEq, Eq, Structural)]
pub struct AccountId {
    /// Little-endian value of the first 16 address bytes.
    pub hi: u128,
    /// Little-endian value of the last 16 address bytes.
    pub lo: u128,
}

/// Declares solana_program's 32-byte address type so that trusted items can
/// take and return it; its inside stays opaque here.
#[verifier::external_type_specification]
#[verifier::external_body]
pub struct ExPubkey(solana_program::pubkey::Pubkey);

impl AccountId {
    pub fn new(hi: u128, lo: u128) -> (r: AccountId)
        ensures
            r == (AccountId { hi, lo }),
    {
        AccountId { hi, lo }
    }

    /// Relies on solana_program's Pubkey::new_from_array, which wraps the
    /// given 32 bytes as an address; this is the one place that turns an
    /// identity back into the collaborator's address type, and the command
    /// builders of the escrow convert their accounts through it.
    #[verifier::external_body]
    pub(crate) fn to_pubkey(&self) -> solana_program::pubkey::Pubkey {
        let mut bytes = [0u8; 32];
        bytes[..16].copy_from_slice(&self.hi.to_le_bytes());
        bytes[16..].copy_from_slice(&self.lo.to_le_bytes());
        solana_program::pubkey::Pubkey::new_from_array(bytes)
    }
}

} // verus!
