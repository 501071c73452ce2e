//! Error values returned by the control plane.
//!
//! Every operation reports its first failing precondition as one of these
//! values and leaves the touched record unchanged; the host applies each
//! call atomically, so a failing call has no effect at all.

use vstd::prelude::*;

verus! {

/// The structured failure outcome of an operation.
#[derive(Clone, Copy, Debug, PartialEq, Eq, Structural)]
pub enum AriaTokenError {
    /// Malformed or unknown command payload.
    InvalidInstruction,
    /// A record account does not hold enough balance to stay alive.
    NotRentExempt,
    /// Not enough balance for the requested movement.
    InsufficientFunds,
    /// Missing signature, wrong role, or caller is not the required identity.
    IncorrectAuthority,
    /// The operation is not permitted in this configuration.
    OperationNotPermitted,
    /// The token account is frozen.
    AccountFrozen,
    /// The record is owned by an unexpected account.
    OwnerMismatch,
    /// The referenced mint is not the expected one.
    InvalidMint,
    /// A claim arrived before the lock's unlock time.
    StillLocked,
    /// The lock was already claimed once.
    AlreadyClaimed,
    /// The metadata payload is malformed.
    InvalidMetadata,
    /// No matching active authority record exists.
    AuthorityNotFound,
    /// The caller does not hold the required role.
    RoleNotAssigned,
    /// The version record does not match the running program.
    VersionMismatch,
    /// An upgrade is already pending.
    UpgradeInProgress,
    /// No upgrade is pending.
    NoUpgradeScheduled,
    /// The pending upgrade is not yet eligible.
    UpgradeTimeNotReached,
    /// Trading has not been enabled on the listing.
    TradingNotEnabled,
    /// A transaction exceeds the configured maximum.
    ExceedsMaxTransaction,
    /// A wallet would exceed the configured maximum holdings.
    ExceedsMaxWalletHoldings,
    /// The operation took too long.
    OperationTimeout,
    /// An emergency pause is active.
    EmergencyPauseActive,
    /// The target storage already holds an initialized record.
    AlreadyInitialized,
    /// The request would break a structural invariant of a record.
    InvariantViolation,
    /// The payload fails validation, such as a zero amount.
    ValidationError,
}

} // verus!
