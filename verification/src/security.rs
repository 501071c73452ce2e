//! Access control ledger: role membership with a fixed primary admin.
//!
//! The ledger is an append-only collection of authority records.  A record is
//! never deleted, only deactivated, so the history of grants is preserved.
//! The primary admin, fixed at creation, holds every role implicitly and its
//! Admin membership can never be revoked.

use vstd::prelude::*;

use crate::account::AccountId;
use crate::error::AriaTokenError;

verus! {

/// The closed set of roles an identity can hold.
#[derive(Clone, Copy, Debug, PartialEq, Eq, Structural)]
pub enum Role {
    /// Full control, including granting and revoking other roles.
    Admin,
    /// May mint new tokens.
    Minter,
    /// May freeze accounts.
    Freezer,
    /// May burn tokens.
    Burner,
}

/// One grant of a role to an identity.  Deactivated records stay in place.
#[derive(Clone, Copy, Debug, PartialEq, Eq, Structural)]
pub struct Authority {
    /// The identity the role is granted to.
    pub key: AccountId,
    /// The granted role.
    pub role: Role,
    /// Whether the grant is currently in force.
    pub is_active: bool,
}

/// The role membership ledger.
#[derive(Clone, Debug, PartialEq)]
pub struct AuthorityList {
    /// The admin fixed at creation; holds every role, irrevocably.
    pub primary_admin: AccountId,
    /// All grants ever made, in order of creation.
    pub authorities: Vec<Authority>,
}

/// Whether `a` is an active grant of `role` to `key`.
pub open spec fn is_active_match(a: Authority, key: AccountId, role: Role) -> bool {
    a.key == key && a.role == role && a.is_active
}

/// Whether some active grant of `role` to `key` stands in `records`.
pub open spec fn has_active_record(records: Seq<Authority>, key: AccountId, role: Role) -> bool {
    exists|i: int|
        0 <= i < records.len() && #[trigger] is_active_match(records[i], key, role)
}

/// How many active grants of `role` to `key` stand in `records`.
pub open spec fn count_active(records: Seq<Authority>, key: AccountId, role: Role) -> nat
    decreases records.len(),
{
    if records.len() == 0 {
        0
    } else {
        count_active(records.drop_last(), key, role) + (if is_active_match(
            records.last(),
            key,
            role,
        ) {
            1nat
        } else {
            0nat
        })
    }
}

/// The index of the first active grant of `role` to `key`; meaningful only
/// when such a grant exists.
pub open spec fn first_active_match(records: Seq<Authority>, key: AccountId, role: Role) -> int
    decreases records.len(),
{
    if records.len() == 0 {
        0
    } else if is_active_match(records[0], key, role) {
        0
    } else {
        1 + first_active_match(records.subrange(1, records.len() as int), key, role)
    }
}

/// No (identity, role) pair has two active grants.
pub open spec fn unique_active(records: Seq<Authority>) -> bool {
    forall|i: int, j: int|
        #![trigger records[i], records[j]]
        0 <= i < j < records.len() && records[i].is_active && records[j].is_active ==> !(
        records[i].key == records[j].key && records[i].role == records[j].role)
}

/// The record seq after granting `role` to `key`: unchanged when an active
/// grant for the pair already stands, else the new grant is appended.
pub open spec fn spec_add_record(records: Seq<Authority>, key: AccountId, role: Role) -> Seq<
    Authority,
> {
    if has_active_record(records, key, role) {
        records
    } else {
        records.push(Authority { key, role, is_active: true })
    }
}

/// `a` with its grant taken out of force.
pub open spec fn deactivated(a: Authority) -> Authority {
    Authority { key: a.key, role: a.role, is_active: false }
}

/// The record seq after revoking `role` from `key`: the first active grant
/// for the pair is deactivated in place.  Meaningful only when such a grant
/// exists.
pub open spec fn spec_remove_record(records: Seq<Authority>, key: AccountId, role: Role) -> Seq<
    Authority,
> {
    records.update(
        first_active_match(records, key, role),
        deactivated(records[first_active_match(records, key, role)]),
    )
}

/// When an active grant exists, `first_active_match` is its least index.
pub proof fn lemma_first_active_match(records: Seq<Authority>, key: AccountId, role: Role)
    requires
        has_active_record(records, key, role),
    ensures
        0 <= first_active_match(records, key, role) < records.len(),
        is_active_match(records[first_active_match(records, key, role)], key, role),
        forall|j: int|
            0 <= j < first_active_match(records, key, role) ==> !is_active_match(
                records[j],
                key,
                role,
            ),
    decreases records.len(),
{
    let w = choose|i: int| 0 <= i < records.len() && #[trigger] is_active_match(records[i], key, role);
    if !is_active_match(records[0], key, role) {
        let rest = records.subrange(1, records.len() as int);
        assert(is_active_match(rest[w - 1], key, role));
        lemma_first_active_match(rest, key, role);
        let f = first_active_match(rest, key, role);
        assert(records[1 + f] == rest[f]);
        assert forall|j: int| 0 < j < 1 + f implies !is_active_match(records[j], key, role) by {
            assert(rest[j - 1] == records[j]);
        }
    }
}

/// There is no active grant for a pair exactly when its count is zero.
pub proof fn lemma_count_active_zero(records: Seq<Authority>, key: AccountId, role: Role)
    ensures
        count_active(records, key, role) == 0 <==> !has_active_record(records, key, role),
    decreases records.len(),
{
    if records.len() == 0 {
        assert(!has_active_record(records, key, role));
    } else {
        let prefix = records.drop_last();
        lemma_count_active_zero(prefix, key, role);
        if is_active_match(records.last(), key, role) {
            assert(is_active_match(records[records.len() - 1], key, role));
        } else {
            if has_active_record(records, key, role) {
                let i = choose|i: int|
                    0 <= i < records.len() && #[trigger] is_active_match(records[i], key, role);
                assert(i < records.len() - 1);
                assert(is_active_match(prefix[i], key, role));
            }
            if has_active_record(prefix, key, role) {
                let i = choose|i: int|
                    0 <= i < prefix.len() && #[trigger] is_active_match(prefix[i], key, role);
                assert(is_active_match(records[i], key, role));
            }
        }
    }
}

/// Under uniqueness, a pair with an active grant has a count of exactly one.
pub proof fn lemma_count_active_unique(records: Seq<Authority>, key: AccountId, role: Role)
    requires
        unique_active(records),
        has_active_record(records, key, role),
    ensures
        count_active(records, key, role) == 1,
    decreases records.len(),
{
    let prefix = records.drop_last();
    if is_active_match(records.last(), key, role) {
        if has_active_record(prefix, key, role) {
            let i = choose|i: int|
                0 <= i < prefix.len() && #[trigger] is_active_match(prefix[i], key, role);
            assert(records[i] == prefix[i]);
            assert(records[records.len() - 1].is_active);
            assert(false);
        }
        lemma_count_active_zero(prefix, key, role);
    } else {
        let i = choose|i: int|
            0 <= i < records.len() && #[trigger] is_active_match(records[i], key, role);
        assert(i < records.len() - 1);
        assert(is_active_match(prefix[i], key, role));
        lemma_count_active_unique(prefix, key, role);
    }
}

/// Granting a role keeps active (identity, role) pairs unique.
pub proof fn lemma_add_record_preserves_unique(records: Seq<Authority>, key: AccountId, role: Role)
    requires
        unique_active(records),
    ensures
        unique_active(spec_add_record(records, key, role)),
{
    if !has_active_record(records, key, role) {
        let pushed = records.push(Authority { key, role, is_active: true });
        assert forall|i: int, j: int|
            #![trigger pushed[i], pushed[j]]
            0 <= i < j < pushed.len() && pushed[i].is_active && pushed[j].is_active implies !(
        pushed[i].key == pushed[j].key && pushed[i].role == pushed[j].role) by {
            if j == records.len() {
                if pushed[i].key == key && pushed[i].role == role && pushed[i].is_active {
                    assert(is_active_match(records[i], key, role));
                }
            } else {
                assert(records[i] == pushed[i]);
                assert(records[j] == pushed[j]);
            }
        }
    }
}

/// Revoking a role keeps active (identity, role) pairs unique.
pub proof fn lemma_remove_record_preserves_unique(
    records: Seq<Authority>,
    key: AccountId,
    role: Role,
)
    requires
        unique_active(records),
        has_active_record(records, key, role),
    ensures
        unique_active(spec_remove_record(records, key, role)),
{
    lemma_first_active_match(records, key, role);
    let f = first_active_match(records, key, role);
    let updated = records.update(f, deactivated(records[f]));
    assert forall|i: int, j: int|
        #![trigger updated[i], updated[j]]
        0 <= i < j < updated.len() && updated[i].is_active && updated[j].is_active implies !(
    updated[i].key == updated[j].key && updated[i].role == updated[j].role) by {
        assert(i != f && j != f);
        assert(updated[i] == records[i]);
        assert(updated[j] == records[j]);
    }
}

/// Under uniqueness, revoking a pair leaves it with no active grant at all.
pub proof fn lemma_remove_record_clears_pair(records: Seq<Authority>, key: AccountId, role: Role)
    requires
        unique_active(records),
        has_active_record(records, key, role),
    ensures
        !has_active_record(spec_remove_record(records, key, role), key, role),
{
    lemma_first_active_match(records, key, role);
    let f = first_active_match(records, key, role);
    let updated = spec_remove_record(records, key, role);
    if has_active_record(updated, key, role) {
        let j = choose|j: int|
            0 <= j < updated.len() && #[trigger] is_active_match(updated[j], key, role);
        assert(j != f);
        assert(updated[j] == records[j]);
        assert(is_active_match(records[j], key, role));
        assert(records[f].is_active && records[j].is_active);
        assert(false);
    }
}

/// Law: adding the same (identity, role) pair twice is the same as adding it
/// once, and leaves exactly one active record for that pair.
pub proof fn lemma_add_record_idempotent(records: Seq<Authority>, key: AccountId, role: Role)
    requires
        unique_active(records),
    ensures
        spec_add_record(spec_add_record(records, key, role), key, role) == spec_add_record(
            records,
            key,
            role,
        ),
        count_active(spec_add_record(records, key, role), key, role) == 1,
{
    let once = spec_add_record(records, key, role);
    if has_active_record(records, key, role) {
        lemma_count_active_unique(records, key, role);
    } else {
        let pushed = records.push(Authority { key, role, is_active: true });
        assert(is_active_match(pushed[records.len() as int], key, role));
        assert(has_active_record(pushed, key, role));
        lemma_count_active_zero(records, key, role);
        assert(pushed.drop_last() == records);
    }
}

impl AuthorityList {
    /// Whether `key` holds `role`: the primary admin holds every role, any
    /// other identity holds exactly the roles of its active records.
    pub open spec fn spec_has_role(self, key: AccountId, role: Role) -> bool {
        key == self.primary_admin || has_active_record(self.authorities@, key, role)
    }

    /// Structural invariant: active (identity, role) pairs are unique.
    pub open spec fn well_formed(self) -> bool {
        unique_active(self.authorities@)
    }

    /// A fresh ledger whose only record grants Admin to the primary admin.
    pub fn new(primary_admin: AccountId) -> (r: AuthorityList)
        ensures
            r.primary_admin == primary_admin,
            r.authorities@ =~= seq![
                Authority { key: primary_admin, role: Role::Admin, is_active: true },
            ],
            r.well_formed(),
    {
        let mut authorities: Vec<Authority> = Vec::new();
        authorities.push(Authority { key: primary_admin, role: Role::Admin, is_active: true });
        AuthorityList { primary_admin, authorities }
    }

    /// Pure role query; scan order does not matter, the result is exactly
    /// `spec_has_role`.
    pub fn has_role(&self, key: &AccountId, role: Role) -> (r: bool)
        ensures
            r == self.spec_has_role(*key, role),
    {
        if *key == self.primary_admin {
            return true;
        }
        let mut i: usize = 0;
        while i < self.authorities.len()
            invariant
                i <= self.authorities@.len(),
                forall|j: int| 0 <= j < i ==> !is_active_match(self.authorities@[j], *key, role),
            decreases self.authorities@.len() - i,
        {
            let a = &self.authorities[i];
            if a.key == *key && a.role == role && a.is_active {
                assert(is_active_match(self.authorities@[i as int], *key, role));
                return true;
            }
            i += 1;
        }
        false
    }

    /// Grant `role` to `key`; a no-op when an active record for the exact
    /// pair already stands, so the grant is idempotent.
    pub fn add_authority(&mut self, key: AccountId, role: Role)
        ensures
            final(self).primary_admin == old(self).primary_admin,
            final(self).authorities@ == spec_add_record(old(self).authorities@, key, role),
            final(self).spec_has_role(key, role),
            old(self).well_formed() ==> final(self).well_formed(),
    {
        let mut i: usize = 0;
        while i < self.authorities.len()
            invariant
                *self == *old(self),
                i <= self.authorities@.len(),
                forall|j: int| 0 <= j < i ==> !is_active_match(self.authorities@[j], key, role),
            decreases self.authorities@.len() - i,
        {
            let a = &self.authorities[i];
            if a.key == key && a.role == role && a.is_active {
                assert(is_active_match(self.authorities@[i as int], key, role));
                return;
            }
            i += 1;
        }
        proof {
            if old(self).well_formed() {
                lemma_add_record_preserves_unique(old(self).authorities@, key, role);
            }
        }
        self.authorities.push(Authority { key, role, is_active: true });
        proof {
            assert(is_active_match(
                self.authorities@[self.authorities@.len() - 1],
                key,
                role,
            ));
        }
    }

    /// Revoke `role` from `key` by deactivating the first matching active
    /// record.  The primary admin's Admin role can never be revoked; a pair
    /// with no active record is reported as not found.
    pub fn remove_authority(&mut self, key: &AccountId, role: Role) -> (r: Result<
        (),
        AriaTokenError,
    >)
        ensures
            final(self).primary_admin == old(self).primary_admin,
            *key == old(self).primary_admin && role == Role::Admin ==> r == Err::<
                (),
                AriaTokenError,
            >(AriaTokenError::InvariantViolation) && *final(self) == *old(self),
            !(*key == old(self).primary_admin && role == Role::Admin) && !has_active_record(
                old(self).authorities@,
                *key,
                role,
            ) ==> r == Err::<(), AriaTokenError>(AriaTokenError::AuthorityNotFound) && *final(self)
                == *old(self),
            !(*key == old(self).primary_admin && role == Role::Admin) && has_active_record(
                old(self).authorities@,
                *key,
                role,
            ) ==> r is Ok && final(self).authorities@ == spec_remove_record(
                old(self).authorities@,
                *key,
                role,
            ),
            old(self).well_formed() && r is Ok ==> !has_active_record(
                final(self).authorities@,
                *key,
                role,
            ),
            old(self).well_formed() ==> final(self).well_formed(),
    {
        if *key == self.primary_admin && role == Role::Admin {
            return Err(AriaTokenError::InvariantViolation);
        }
        let mut i: usize = 0;
        while i < self.authorities.len()
            invariant
                *self == *old(self),
                !(*key == old(self).primary_admin && role == Role::Admin),
                i <= self.authorities@.len(),
                forall|j: int| 0 <= j < i ==> !is_active_match(self.authorities@[j], *key, role),
            decreases self.authorities@.len() - i,
        {
            let a = self.authorities[i];
            if a.key == *key && a.role == role && a.is_active {
                proof {
                    assert(is_active_match(self.authorities@[i as int], *key, role));
                    lemma_first_active_match(self.authorities@, *key, role);
                    if old(self).well_formed() {
                        lemma_remove_record_preserves_unique(self.authorities@, *key, role);
                        lemma_remove_record_clears_pair(self.authorities@, *key, role);
                    }
                }
                let mut updated = a;
                updated.is_active = false;
                self.authorities.set(i, updated);
                return Ok(());
            }
            i += 1;
        }
        Err(AriaTokenError::AuthorityNotFound)
    }
}

/// Create the ledger for a storage slot, with the signing caller as primary
/// admin.  Fails when the caller did not sign, or when the slot already
/// holds a record.
pub fn initialize_authority(
    primary_admin: &AccountId,
    admin_signed: bool,
    storage_in_use: bool,
) -> (r: Result<AuthorityList, AriaTokenError>)
    ensures
        !admin_signed ==> r == Err::<AuthorityList, AriaTokenError>(
            AriaTokenError::IncorrectAuthority,
        ),
        admin_signed && storage_in_use ==> r == Err::<AuthorityList, AriaTokenError>(
            AriaTokenError::AlreadyInitialized,
        ),
        admin_signed && !storage_in_use ==> r is Ok && r.unwrap().primary_admin == *primary_admin
            && r.unwrap().authorities@ =~= seq![
            Authority { key: *primary_admin, role: Role::Admin, is_active: true },
        ] && r.unwrap().well_formed(),
{
    if !admin_signed {
        return Err(AriaTokenError::IncorrectAuthority);
    }
    if storage_in_use {
        return Err(AriaTokenError::AlreadyInitialized);
    }
    Ok(AuthorityList::new(*primary_admin))
}

/// Grant a role on behalf of `admin`, who must have signed and hold Admin
/// (the primary admin always qualifies).  The grant itself is idempotent.
pub fn add_authority(
    list: &mut AuthorityList,
    admin: &AccountId,
    admin_signed: bool,
    new_authority: AccountId,
    role: Role,
) -> (r: Result<(), AriaTokenError>)
    ensures
        final(list).primary_admin == old(list).primary_admin,
        !(admin_signed && old(list).spec_has_role(*admin, Role::Admin)) ==> r == Err::<
            (),
            AriaTokenError,
        >(AriaTokenError::IncorrectAuthority) && *final(list) == *old(list),
        admin_signed && old(list).spec_has_role(*admin, Role::Admin) ==> r is Ok
            && final(list).authorities@ == spec_add_record(
            old(list).authorities@,
            new_authority,
            role,
        ) && final(list).spec_has_role(new_authority, role),
        old(list).well_formed() ==> final(list).well_formed(),
{
    if !admin_signed {
        return Err(AriaTokenError::IncorrectAuthority);
    }
    if !list.has_role(admin, Role::Admin) {
        return Err(AriaTokenError::IncorrectAuthority);
    }
    list.add_authority(new_authority, role);
    Ok(())
}

/// Revoke a role on behalf of `admin`, under the same gate as granting.
/// Revoking the primary admin's Admin role is an invariant violation and
/// always fails; a pair with no active record is reported as not found.
pub fn remove_authority(
    list: &mut AuthorityList,
    admin: &AccountId,
    admin_signed: bool,
    target: &AccountId,
    role: Role,
) -> (r: Result<(), AriaTokenError>)
    ensures
        final(list).primary_admin == old(list).primary_admin,
        !(admin_signed && old(list).spec_has_role(*admin, Role::Admin)) ==> r == Err::<
            (),
            AriaTokenError,
        >(AriaTokenError::IncorrectAuthority) && *final(list) == *old(list),
        admin_signed && old(list).spec_has_role(*admin, Role::Admin) ==> {
            &&& *target == old(list).primary_admin && role == Role::Admin ==> r == Err::<
                (),
                AriaTokenError,
            >(AriaTokenError::InvariantViolation) && *final(list) == *old(list)
            &&& !(*target == old(list).primary_admin && role == Role::Admin)
                && !has_active_record(old(list).authorities@, *target, role) ==> r == Err::<
                (),
                AriaTokenError,
            >(AriaTokenError::AuthorityNotFound) && *final(list) == *old(list)
            &&& !(*target == old(list).primary_admin && role == Role::Admin)
                && has_active_record(old(list).authorities@, *target, role) ==> r is Ok
                && final(list).authorities@ == spec_remove_record(
                old(list).authorities@,
                *target,
                role,
            )
        },
        old(list).well_formed() && r is Ok ==> !has_active_record(
            final(list).authorities@,
            *target,
            role,
        ),
        old(list).well_formed() ==> final(list).well_formed(),
{
    if !admin_signed {
        return Err(AriaTokenError::IncorrectAuthority);
    }
    if !list.has_role(admin, Role::Admin) {
        return Err(AriaTokenError::IncorrectAuthority);
    }
    list.remove_authority(target, role)
}

/// Law: the primary admin holds every role in every ledger, even one with no
/// explicit records at all.
pub proof fn lemma_primary_admin_has_every_role(ledger: AuthorityList, role: Role)
    ensures
        ledger.spec_has_role(ledger.primary_admin, role),
{
}

} // verus!
