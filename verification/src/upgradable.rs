//! Delayed self-upgrade scheduler.
//!
//! A version record is either idle or holds exactly one pending upgrade: a
//! target together with the time from which it may be finalized, set and
//! cleared as one value so that no half-set state exists.  Scheduling is
//! dual-gated: the caller must be the record's upgrade authority and must
//! also hold Admin in the access control ledger, so revoking the role blocks
//! scheduling even while the identity stays recorded as upgrade authority.

use vstd::prelude::*;

use crate::account::AccountId;
use crate::error::AriaTokenError;
use crate::security::AuthorityList;
use crate::security::Role;

verus! {

/// A scheduled upgrade: target and eligibility time, always both present.
#[derive(Clone, Copy, Debug, PartialEq, Eq, Structural)]
pub struct PendingUpgrade {
    /// The program the upgrade switches to.
    pub target: AccountId,
    /// The timestamp from which the upgrade may be finalized.
    pub eligible_at: u64,
}

/// The version record of the running program.
#[derive(Clone, Copy, Debug, PartialEq, Eq, Structural)]
pub struct ProgramVersion {
    /// Major version; changed only by hand.
    pub major: u8,
    /// Minor version; bumped by exactly one on each finalized upgrade.
    pub minor: u8,
    /// Patch version; reset to zero on each finalized upgrade.
    pub patch: u8,
    /// The identity allowed to schedule, finalize and cancel upgrades;
    /// fixed at creation.
    pub upgrade_authority: AccountId,
    /// The pending upgrade, when one is scheduled.
    pub pending_upgrade: Option<PendingUpgrade>,
}

/// What scheduling does to a version record: the first failing gate, or the
/// record with the pending upgrade set to `target` at `now + delay`.
pub open spec fn spec_schedule_outcome(
    version: ProgramVersion,
    ledger: AuthorityList,
    caller: AccountId,
    caller_signed: bool,
    target: AccountId,
    delay: u64,
    now: u64,
) -> Result<ProgramVersion, AriaTokenError> {
    if !caller_signed {
        Err(AriaTokenError::IncorrectAuthority)
    } else if !ledger.spec_has_role(caller, Role::Admin) {
        Err(AriaTokenError::IncorrectAuthority)
    } else if version.upgrade_authority != caller {
        Err(AriaTokenError::IncorrectAuthority)
    } else if version.pending_upgrade is Some {
        Err(AriaTokenError::UpgradeInProgress)
    } else {
        Ok(
            ProgramVersion {
                pending_upgrade: Some(
                    PendingUpgrade { target, eligible_at: (now + delay) as u64 },
                ),
                ..version
            },
        )
    }
}

/// What finalizing does: the first failing gate, or the record with the
/// minor version bumped by one, the patch reset, and the pending upgrade
/// cleared.
pub open spec fn spec_finalize_outcome(
    version: ProgramVersion,
    caller: AccountId,
    caller_signed: bool,
    now: u64,
) -> Result<ProgramVersion, AriaTokenError> {
    if !caller_signed {
        Err(AriaTokenError::IncorrectAuthority)
    } else if version.upgrade_authority != caller {
        Err(AriaTokenError::IncorrectAuthority)
    } else if version.pending_upgrade is None {
        Err(AriaTokenError::NoUpgradeScheduled)
    } else if now < version.pending_upgrade->Some_0.eligible_at {
        Err(AriaTokenError::UpgradeTimeNotReached)
    } else {
        Ok(
            ProgramVersion {
                minor: (version.minor + 1) as u8,
                patch: 0,
                pending_upgrade: None,
                ..version
            },
        )
    }
}

/// What cancelling does: the first failing gate, or the record with the
/// pending upgrade cleared and the version numbers untouched.
pub open spec fn spec_cancel_outcome(
    version: ProgramVersion,
    caller: AccountId,
    caller_signed: bool,
) -> Result<ProgramVersion, AriaTokenError> {
    if !caller_signed {
        Err(AriaTokenError::IncorrectAuthority)
    } else if version.upgrade_authority != caller {
        Err(AriaTokenError::IncorrectAuthority)
    } else if version.pending_upgrade is None {
        Err(AriaTokenError::NoUpgradeScheduled)
    } else {
        Ok(ProgramVersion { pending_upgrade: None, ..version })
    }
}

impl ProgramVersion {
    /// A fresh version record at 1.0.0 with no pending upgrade.
    pub fn new(upgrade_authority: AccountId) -> (r: ProgramVersion)
        ensures
            r == (ProgramVersion {
                major: 1,
                minor: 0,
                patch: 0,
                upgrade_authority,
                pending_upgrade: None,
            }),
    {
        ProgramVersion { major: 1, minor: 0, patch: 0, upgrade_authority, pending_upgrade: None }
    }

    /// Manual major bump: minor and patch reset, nothing else changes.
    pub fn increment_major(&mut self)
        requires
            old(self).major < 255,
        ensures
            *final(self) == (ProgramVersion {
                major: (old(self).major + 1) as u8,
                minor: 0,
                patch: 0,
                ..*old(self)
            }),
    {
        self.major = self.major + 1;
        self.minor = 0;
        self.patch = 0;
    }

    /// Minor bump, as a finalized upgrade performs it: patch resets.
    pub fn increment_minor(&mut self)
        requires
            old(self).minor < 255,
        ensures
            *final(self) == (ProgramVersion {
                minor: (old(self).minor + 1) as u8,
                patch: 0,
                ..*old(self)
            }),
    {
        self.minor = self.minor + 1;
        self.patch = 0;
    }

    /// Manual patch bump: nothing else changes.
    pub fn increment_patch(&mut self)
        requires
            old(self).patch < 255,
        ensures
            *final(self) == (ProgramVersion { patch: (old(self).patch + 1) as u8, ..*old(self) }),
    {
        self.patch = self.patch + 1;
    }
}

/// Create the version record for a storage slot, with the signing caller as
/// upgrade authority.  Fails when the caller did not sign, or when the slot
/// already holds a record.
pub fn initialize_version(
    authority: &AccountId,
    authority_signed: bool,
    storage_in_use: bool,
) -> (r: Result<ProgramVersion, AriaTokenError>)
    ensures
        !authority_signed ==> r == Err::<ProgramVersion, AriaTokenError>(
            AriaTokenError::IncorrectAuthority,
        ),
        authority_signed && storage_in_use ==> r == Err::<ProgramVersion, AriaTokenError>(
            AriaTokenError::AlreadyInitialized,
        ),
        authority_signed && !storage_in_use ==> (r matches Ok(v) && v == (ProgramVersion {
            major: 1,
            minor: 0,
            patch: 0,
            upgrade_authority: *authority,
            pending_upgrade: None,
        })),
{
    if !authority_signed {
        return Err(AriaTokenError::IncorrectAuthority);
    }
    if storage_in_use {
        return Err(AriaTokenError::AlreadyInitialized);
    }
    Ok(ProgramVersion::new(*authority))
}

/// Schedule an upgrade to `new_program_id`, eligible at `now + upgrade_delay`
/// (a zero delay is legal and makes it immediately eligible).  The caller
/// must have signed, hold Admin in `ledger`, and be the record's upgrade
/// authority; only an idle record can take a schedule.
pub fn schedule_upgrade(
    version: &mut ProgramVersion,
    ledger: &AuthorityList,
    caller: &AccountId,
    caller_signed: bool,
    new_program_id: AccountId,
    upgrade_delay: u64,
    now: u64,
) -> (r: Result<(), AriaTokenError>)
    requires
        now + upgrade_delay <= u64::MAX,
    ensures
        spec_schedule_outcome(
            *old(version),
            *ledger,
            *caller,
            caller_signed,
            new_program_id,
            upgrade_delay,
            now,
        ) matches Ok(next) ==> r is Ok && *final(version) == next,
        spec_schedule_outcome(
            *old(version),
            *ledger,
            *caller,
            caller_signed,
            new_program_id,
            upgrade_delay,
            now,
        ) matches Err(e) ==> r == Err::<(), AriaTokenError>(e) && *final(version) == *old(version),
{
    if !caller_signed {
        return Err(AriaTokenError::IncorrectAuthority);
    }
    if !ledger.has_role(caller, Role::Admin) {
        return Err(AriaTokenError::IncorrectAuthority);
    }
    if !(version.upgrade_authority == *caller) {
        return Err(AriaTokenError::IncorrectAuthority);
    }
    if version.pending_upgrade.is_some() {
        return Err(AriaTokenError::UpgradeInProgress);
    }
    version.pending_upgrade = Some(
        PendingUpgrade { target: new_program_id, eligible_at: now + upgrade_delay },
    );
    Ok(())
}

/// Finalize the pending upgrade once its eligibility time has come: the
/// minor version is bumped by exactly one, the patch resets to zero, the
/// major version stays, and the pending upgrade is cleared.
pub fn finalize_upgrade(
    version: &mut ProgramVersion,
    caller: &AccountId,
    caller_signed: bool,
    now: u64,
) -> (r: Result<(), AriaTokenError>)
    requires
        old(version).pending_upgrade matches Some(p) && now >= p.eligible_at ==> old(
            version,
        ).minor < 255,
    ensures
        spec_finalize_outcome(*old(version), *caller, caller_signed, now) matches Ok(next) ==> r
            is Ok && *final(version) == next,
        spec_finalize_outcome(*old(version), *caller, caller_signed, now) matches Err(e) ==> r
            == Err::<(), AriaTokenError>(e) && *final(version) == *old(version),
{
    if !caller_signed {
        return Err(AriaTokenError::IncorrectAuthority);
    }
    if !(version.upgrade_authority == *caller) {
        return Err(AriaTokenError::IncorrectAuthority);
    }
    let eligible_at = match &version.pending_upgrade {
        Some(p) => p.eligible_at,
        None => {
            return Err(AriaTokenError::NoUpgradeScheduled);
        },
    };
    if now < eligible_at {
        return Err(AriaTokenError::UpgradeTimeNotReached);
    }
    version.increment_minor();
    version.pending_upgrade = None;
    Ok(())
}

/// Cancel the pending upgrade without any version change.
pub fn cancel_upgrade(version: &mut ProgramVersion, caller: &AccountId, caller_signed: bool) -> (r:
    Result<(), AriaTokenError>)
    ensures
        spec_cancel_outcome(*old(version), *caller, caller_signed) matches Ok(next) ==> r is Ok
            && *final(version) == next,
        spec_cancel_outcome(*old(version), *caller, caller_signed) matches Err(e) ==> r == Err::<
            (),
            AriaTokenError,
        >(e) && *final(version) == *old(version),
{
    if !caller_signed {
        return Err(AriaTokenError::IncorrectAuthority);
    }
    if !(version.upgrade_authority == *caller) {
        return Err(AriaTokenError::IncorrectAuthority);
    }
    if version.pending_upgrade.is_none() {
        return Err(AriaTokenError::NoUpgradeScheduled);
    }
    version.pending_upgrade = None;
    Ok(())
}

/// Law: while an upgrade is pending, another schedule by the authorized
/// caller fails as an upgrade in progress.
pub proof fn lemma_schedule_blocked_while_pending(
    version: ProgramVersion,
    ledger: AuthorityList,
    caller: AccountId,
    target: AccountId,
    delay: u64,
    now: u64,
)
    requires
        caller == version.upgrade_authority,
        ledger.spec_has_role(caller, Role::Admin),
        version.pending_upgrade is Some,
    ensures
        spec_schedule_outcome(version, ledger, caller, true, target, delay, now) == Err::<
            ProgramVersion,
            AriaTokenError,
        >(AriaTokenError::UpgradeInProgress),
{
}

/// Law: after a cancel, a schedule by the authorized caller succeeds again,
/// with the same or any other target.
pub proof fn lemma_schedule_after_cancel(
    version: ProgramVersion,
    ledger: AuthorityList,
    caller: AccountId,
    target: AccountId,
    delay: u64,
    now: u64,
)
    requires
        spec_cancel_outcome(version, caller, true) is Ok,
        ledger.spec_has_role(caller, Role::Admin),
    ensures
        spec_schedule_outcome(
            spec_cancel_outcome(version, caller, true)->Ok_0,
            ledger,
            caller,
            true,
            target,
            delay,
            now,
        ) matches Ok(next) && next.pending_upgrade == Some(
            PendingUpgrade { target, eligible_at: (now + delay) as u64 },
        ),
{
}

/// Law: before the eligibility time, a finalize by the authorized caller
/// fails because the upgrade time is not reached.
pub proof fn lemma_finalize_before_time_fails(version: ProgramVersion, caller: AccountId, now: u64)
    requires
        caller == version.upgrade_authority,
        version.pending_upgrade matches Some(p) && now < p.eligible_at,
    ensures
        spec_finalize_outcome(version, caller, true, now) == Err::<
            ProgramVersion,
            AriaTokenError,
        >(AriaTokenError::UpgradeTimeNotReached),
{
}

/// Law: a finalize succeeds exactly once.  A successful finalize bumps the
/// minor version by exactly one, resets the patch, keeps the major version,
/// and clears the pending upgrade, so a second finalize finds nothing
/// scheduled.
pub proof fn lemma_finalize_exactly_once(
    version: ProgramVersion,
    caller: AccountId,
    now1: u64,
    now2: u64,
)
    requires
        spec_finalize_outcome(version, caller, true, now1) is Ok,
    ensures
        spec_finalize_outcome(version, caller, true, now1)->Ok_0 == (ProgramVersion {
            minor: (version.minor + 1) as u8,
            patch: 0,
            pending_upgrade: None,
            ..version
        }),
        spec_finalize_outcome(
            spec_finalize_outcome(version, caller, true, now1)->Ok_0,
            caller,
            true,
            now2,
        ) == Err::<ProgramVersion, AriaTokenError>(AriaTokenError::NoUpgradeScheduled),
{
}

} // verus!
