//! The session policy: authentication is either purely stateless
//! (token-only, the default) or additionally records the issued
//! `token_id` against the account, enabling future revocation lookups.
//! Only the token id is recorded, never the token itself.

use vstd::prelude::*;

verus! {

/// How logins are tracked server-side.
#[derive(Debug, Clone, Copy, PartialEq, Eq, Structural)]
pub enum SessionMode {
    /// No server-side record of issued tokens; validity is a matter of
    /// signature and expiry alone.
    Stateless,
    /// Each successful login records the issued token id.
    Stateful,
}

/// One recorded login: which account, and the `token_id` issued to it.
#[derive(Debug)]
pub struct SessionRecord {
    pub account_id: u64,
    pub token_id: String,
}

/// The server-side record of issued token ids.
pub struct SessionStore {
    pub records: Vec<SessionRecord>,
}

impl SessionStore {
    /// An empty session store.
    pub fn new() -> (s: SessionStore)
        ensures
            s.records@.len() == 0,
    {
        SessionStore { records: Vec::new() }
    }
}

/// Applies the session policy after a successful login: under the
/// stateless mode nothing is recorded; under the stateful mode exactly
/// one record with this account id and token id is appended.
pub fn apply_session_policy(
    mode: SessionMode,
    sessions: &mut SessionStore,
    account_id: u64,
    token_id: &String,
)
    ensures
        mode == SessionMode::Stateless ==> final(sessions).records@ == old(sessions).records@,
        mode == SessionMode::Stateful ==> final(sessions).records@ == old(sessions).records@.push(
            SessionRecord { account_id, token_id: *token_id },
        ),
{
    match mode {
        SessionMode::Stateless => {
        },
        SessionMode::Stateful => {
            sessions.records.push(SessionRecord { account_id, token_id: token_id.clone() });
        },
    }
}

} // verus!
