//! The account repository: uniqueness lookup and atomic creation of an
//! account plus its profile, modelled as an in-memory store with the
//! same observable behaviour the flows demand of the storage layer.
//!
//! Invariants, enforced at this layer and not merely by a pre-check:
//! emails are unique across all accounts at all times; a profile exists
//! if and only if its account exists (they are created together,
//! atomically, or not at all); identifiers are non-zero and unique.
//!
//! Storage misbehaviour (a failed transaction begin, a failed insert) is
//! modelled by [`StorageFaults`], so that rollback behaviour is part of
//! the verified contract rather than an untestable promise.

use vstd::prelude::*;

use crate::error::{AuthError, StorageErrorKind};

verus! {

/// The identity record of a user. `id` is generated by the store and is
/// never zero; `password_hash` never holds a plaintext.
#[derive(Debug)]
pub struct Account {
    pub id: u64,
    pub email: String,
    pub password_hash: String,
    pub created_at: u64,
}

/// Descriptive data attached one-to-one to an account.
#[derive(Debug)]
pub struct Profile {
    pub account_id: u64,
    pub first_name: String,
    pub last_name: String,
}

/// Which storage steps fail during an atomic creation. The real storage
/// engine may fail at any of these points; the flows are verified
/// against every combination.
#[derive(Debug, Clone, Copy, PartialEq, Eq, Structural)]
pub struct StorageFaults {
    /// The existence lookup of the registration pre-check fails.
    pub query_fails: bool,
    /// The unit of work cannot be started.
    pub begin_fails: bool,
    /// The account insert fails.
    pub account_insert_fails: bool,
    /// The profile insert fails, after the account insert succeeded.
    pub profile_insert_fails: bool,
}

impl StorageFaults {
    /// A fault-free storage run.
    pub fn none() -> (r: StorageFaults)
        ensures
            r == (StorageFaults {
                query_fails: false,
                begin_fails: false,
                account_insert_fails: false,
                profile_insert_fails: false,
            }),
    {
        StorageFaults {
            query_fails: false,
            begin_fails: false,
            account_insert_fails: false,
            profile_insert_fails: false,
        }
    }

    /// Whether any step of the creation's unit of work fails.
    pub open spec fn any_insert(self) -> bool {
        self.begin_fails || self.account_insert_fails || self.profile_insert_fails
    }
}

/// The account repository.
pub struct AccountStore {
    pub accounts: Vec<Account>,
    pub profiles: Vec<Profile>,
    pub next_id: u64,
}

impl AccountStore {
    /// Whether some stored account carries this email.
    pub open spec fn email_taken(self, email: Seq<char>) -> bool {
        exists|i: int|
            0 <= i < self.accounts@.len() && (#[trigger] self.accounts@[i]).email@ == email
    }

    /// Whether some stored profile belongs to this account id.
    pub open spec fn has_profile(self, account_id: u64) -> bool {
        exists|i: int|
            0 <= i < self.profiles@.len() && (#[trigger] self.profiles@[i]).account_id
                == account_id
    }

    /// The well-formedness invariant: profiles pair up with accounts
    /// index by index, ids are non-zero, strictly increasing and below
    /// `next_id`, and emails are unique.
    pub open spec fn wf(self) -> bool {
        &&& self.next_id >= 1
        &&& self.profiles@.len() == self.accounts@.len()
        &&& forall|i: int|
            0 <= i < self.accounts@.len() ==> (#[trigger] self.profiles@[i]).account_id
                == self.accounts@[i].id
        &&& forall|i: int|
            0 <= i < self.accounts@.len() ==> 1 <= (#[trigger] self.accounts@[i]).id
                < self.next_id
        &&& forall|i: int, j: int|
            0 <= i < j < self.accounts@.len() ==> (#[trigger] self.accounts@[i]).id < (
            #[trigger] self.accounts@[j]).id
        &&& forall|i: int, j: int|
            0 <= i < j < self.accounts@.len() ==> (#[trigger] self.accounts@[i]).email@ != (
            #[trigger] self.accounts@[j]).email@
    }

    /// The stored account carrying this email (meaningful when
    /// [`Self::email_taken`] holds; unique under [`Self::wf`]).
    pub open spec fn account_with_email(self, email: Seq<char>) -> Account {
        self.accounts@[choose|i: int|
            0 <= i < self.accounts@.len() && (#[trigger] self.accounts@[i]).email@ == email]
    }

    /// The stored profile of this account id (meaningful when
    /// [`Self::has_profile`] holds; unique under [`Self::wf`]).
    pub open spec fn profile_for(self, account_id: u64) -> Profile {
        self.profiles@[choose|i: int|
            0 <= i < self.profiles@.len() && (#[trigger] self.profiles@[i]).account_id
                == account_id]
    }

    /// Whether two stores hold exactly the same records and id counter.
    pub open spec fn same_state(self, other: AccountStore) -> bool {
        &&& self.accounts@ == other.accounts@
        &&& self.profiles@ == other.profiles@
        &&& self.next_id == other.next_id
    }

    /// An empty store.
    pub fn new() -> (s: AccountStore)
        ensures
            s.wf(),
            s.accounts@.len() == 0,
            s.profiles@.len() == 0,
            s.next_id == 1,
    {
        AccountStore { accounts: Vec::new(), profiles: Vec::new(), next_id: 1 }
    }

    /// Fast-path existence pre-check by email. Exact, but never the sole
    /// uniqueness guarantee: creation re-checks authoritatively.
    pub fn exists_by_email(&self, email: &String) -> (r: bool)
        ensures
            r == self.email_taken(email@),
    {
        let n = self.accounts.len();
        let mut i: usize = 0;
        while i < n
            invariant
                0 <= i <= n == self.accounts@.len(),
                forall|j: int| 0 <= j < i ==> (#[trigger] self.accounts@[j]).email@ != email@,
            decreases n - i,
        {
            if self.accounts[i].email == *email {
                return true;
            }
            i = i + 1;
        }
        false
    }

    /// Looks an account up by email. Returns the stored record, or
    /// `None` exactly when no account carries this email.
    pub fn find_by_email(&self, email: &String) -> (r: Option<Account>)
        ensures
            r is Some ==> exists|i: int|
                0 <= i < self.accounts@.len() && (#[trigger] self.accounts@[i]) == r->Some_0,
            r is Some ==> r->Some_0.email@ == email@,
            r is None ==> !self.email_taken(email@),
    {
        let n = self.accounts.len();
        let mut i: usize = 0;
        while i < n
            invariant
                0 <= i <= n == self.accounts@.len(),
                forall|j: int| 0 <= j < i ==> (#[trigger] self.accounts@[j]).email@ != email@,
            decreases n - i,
        {
            if self.accounts[i].email == *email {
                let a = &self.accounts[i];
                return Some(
                    Account {
                        id: a.id,
                        email: a.email.clone(),
                        password_hash: a.password_hash.clone(),
                        created_at: a.created_at,
                    },
                );
            }
            i = i + 1;
        }
        None
    }

    /// Loads the profile of an account. Returns `None` exactly when no
    /// stored profile belongs to this account id.
    pub fn find_profile(&self, account_id: u64) -> (r: Option<Profile>)
        ensures
            r is Some ==> exists|i: int|
                0 <= i < self.profiles@.len() && (#[trigger] self.profiles@[i]) == r->Some_0,
            r is Some ==> r->Some_0.account_id == account_id,
            r is None ==> !self.has_profile(account_id),
    {
        let n = self.profiles.len();
        let mut i: usize = 0;
        while i < n
            invariant
                0 <= i <= n == self.profiles@.len(),
                forall|j: int| 0 <= j < i ==> (#[trigger] self.profiles@[j]).account_id != account_id,
            decreases n - i,
        {
            if self.profiles[i].account_id == account_id {
                let p = &self.profiles[i];
                return Some(
                    Profile {
                        account_id: p.account_id,
                        first_name: p.first_name.clone(),
                        last_name: p.last_name.clone(),
                    },
                );
            }
            i = i + 1;
        }
        None
    }

    /// Atomically creates an account and its profile as a single unit of
    /// work. The uniqueness check here is the authoritative one: a taken
    /// email yields `Conflict` whatever any earlier pre-check said. On
    /// any failure after the account insert the account insert is rolled
    /// back: an error leaves the store exactly as it was, so the caller
    /// never observes a half-created user.
    pub fn create_account_with_profile(
        &mut self,
        email: &String,
        password_hash: &String,
        first_name: &String,
        last_name: &String,
        now: u64,
        faults: StorageFaults,
    ) -> (r: Result<Account, AuthError>)
        requires
            old(self).wf(),
        ensures
            final(self).wf(),
            r is Err ==> final(self).same_state(*old(self)),
            old(self).email_taken(email@) ==> r == Err::<Account, AuthError>(AuthError::Conflict),
            !old(self).email_taken(email@) && faults.begin_fails ==> r == Err::<
                Account,
                AuthError,
            >(AuthError::StorageFailure(StorageErrorKind::TransactionFailed)),
            !old(self).email_taken(email@) && !faults.begin_fails && faults.account_insert_fails
                ==> r == Err::<Account, AuthError>(
                AuthError::StorageFailure(StorageErrorKind::AccountInsertFailed),
            ),
            !old(self).email_taken(email@) && !faults.begin_fails && !faults.account_insert_fails
                && old(self).next_id == u64::MAX ==> r == Err::<Account, AuthError>(
                AuthError::StorageFailure(StorageErrorKind::AccountInsertFailed),
            ),
            !old(self).email_taken(email@) && !faults.begin_fails && !faults.account_insert_fails
                && old(self).next_id < u64::MAX && faults.profile_insert_fails ==> r == Err::<
                Account,
                AuthError,
            >(AuthError::StorageFailure(StorageErrorKind::ProfileInsertFailed)),
            !old(self).email_taken(email@) && !faults.any_insert() && old(self).next_id < u64::MAX ==> {
                &&& r is Ok
                &&& r->Ok_0 == (Account {
                    id: old(self).next_id,
                    email: *email,
                    password_hash: *password_hash,
                    created_at: now,
                })
                &&& final(self).accounts@ == old(self).accounts@.push(r->Ok_0)
                &&& final(self).profiles@ == old(self).profiles@.push(
                    Profile {
                        account_id: old(self).next_id,
                        first_name: *first_name,
                        last_name: *last_name,
                    },
                )
                &&& final(self).next_id == old(self).next_id + 1
            },
    {
        if self.exists_by_email(email) {
            return Err(AuthError::Conflict);
        }
        if faults.begin_fails {
            return Err(AuthError::StorageFailure(StorageErrorKind::TransactionFailed));
        }
        if faults.account_insert_fails || self.next_id == u64::MAX {
            // A failed account insert, or an exhausted id space, surfaces
            // the same way.
            return Err(AuthError::StorageFailure(StorageErrorKind::AccountInsertFailed));
        }
        let id = self.next_id;
        self.accounts.push(
            Account {
                id,
                email: email.clone(),
                password_hash: password_hash.clone(),
                created_at: now,
            },
        );
        if faults.profile_insert_fails {
            // The unit of work fails between the two inserts: roll the
            // account insert back.
            let _ = self.accounts.pop();
            proof {
                assert(self.accounts@ =~= old(self).accounts@);
            }
            return Err(AuthError::StorageFailure(StorageErrorKind::ProfileInsertFailed));
        }
        self.profiles.push(
            Profile {
                account_id: id,
                first_name: first_name.clone(),
                last_name: last_name.clone(),
            },
        );
        self.next_id = id + 1;
        proof {
            let pre = *old(self);
            let n = pre.accounts@.len() as int;
            assert forall|i: int| 0 <= i < self.accounts@.len() implies 1 <= (
            #[trigger] self.accounts@[i]).id < self.next_id by {
                if i < n {
                    assert(self.accounts@[i] == pre.accounts@[i]);
                }
            }
            assert forall|i: int, j: int| 0 <= i < j < self.accounts@.len() implies (
            #[trigger] self.accounts@[i]).id < (#[trigger] self.accounts@[j]).id by {
                if j < n {
                    assert(self.accounts@[i] == pre.accounts@[i]);
                    assert(self.accounts@[j] == pre.accounts@[j]);
                } else {
                    assert(self.accounts@[i] == pre.accounts@[i]);
                    assert(pre.accounts@[i].id < pre.next_id);
                }
            }
            assert forall|i: int, j: int| 0 <= i < j < self.accounts@.len() implies (
            #[trigger] self.accounts@[i]).email@ != (#[trigger] self.accounts@[j]).email@ by {
                if j < n {
                    assert(self.accounts@[i] == pre.accounts@[i]);
                    assert(self.accounts@[j] == pre.accounts@[j]);
                } else {
                    assert(self.accounts@[i] == pre.accounts@[i]);
                    assert(!pre.email_taken(email@));
                    assert(pre.accounts@[i].email@ != email@);
                }
            }
            assert forall|i: int| 0 <= i < self.accounts@.len() implies (
            #[trigger] self.profiles@[i]).account_id == self.accounts@[i].id by {
                if i < n {
                    assert(self.profiles@[i] == pre.profiles@[i]);
                    assert(self.accounts@[i] == pre.accounts@[i]);
                }
            }
        }
        Ok(
            Account {
                id,
                email: email.clone(),
                password_hash: password_hash.clone(),
                created_at: now,
            },
        )
    }
}

/// Email uniqueness: in a well-formed store, any account holding an
/// email is the account [`AccountStore::account_with_email`] names.
pub proof fn lemma_account_unique(s: AccountStore, email: Seq<char>, i: int)
    requires
        s.wf(),
        0 <= i < s.accounts@.len(),
        s.accounts@[i].email@ == email,
    ensures
        s.email_taken(email),
        s.account_with_email(email) == s.accounts@[i],
{
    assert(s.email_taken(email));
    let j = choose|j: int|
        0 <= j < s.accounts@.len() && (#[trigger] s.accounts@[j]).email@ == email;
    if i < j {
        assert(s.accounts@[i].email@ != s.accounts@[j].email@);
    } else if j < i {
        assert(s.accounts@[j].email@ != s.accounts@[i].email@);
    }
}

/// Profile uniqueness: in a well-formed store, any profile holding an
/// account id is the profile [`AccountStore::profile_for`] names.
pub proof fn lemma_profile_unique(s: AccountStore, account_id: u64, i: int)
    requires
        s.wf(),
        0 <= i < s.profiles@.len(),
        s.profiles@[i].account_id == account_id,
    ensures
        s.has_profile(account_id),
        s.profile_for(account_id) == s.profiles@[i],
{
    assert(s.has_profile(account_id));
    let j = choose|j: int|
        0 <= j < s.profiles@.len() && (#[trigger] s.profiles@[j]).account_id == account_id;
    if i < j {
        assert(s.accounts@[i].id < s.accounts@[j].id);
        assert(s.profiles@[i].account_id != s.profiles@[j].account_id);
    } else if j < i {
        assert(s.accounts@[j].id < s.accounts@[i].id);
        assert(s.profiles@[j].account_id != s.profiles@[i].account_id);
    }
}

} // verus!
