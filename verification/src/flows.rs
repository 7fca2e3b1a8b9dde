//! The two core flows. Registration: validation, uniqueness pre-check,
//! hashing, atomic persistence. Authentication: validation, lookup,
//! verification, token issuance, session policy. Each flow
//! short-circuits on the first failure and produces a single typed
//! outcome; an error never leaves a partial effect behind.

use vstd::prelude::*;

use crate::config::AuthConfig;
use crate::error::{AuthError, StorageErrorKind};
use crate::hashing::{bcrypt_accepts, bcrypt_hash_shape, hash_password, verify_password};
use crate::request::{CreateUserRequest, LoginUserRequest};
use crate::session::{apply_session_policy, SessionMode, SessionRecord, SessionStore};
use crate::store::{
    lemma_account_unique, lemma_profile_unique, Account, AccountStore, Profile, StorageFaults,
};
use crate::token::{
    claims_json, generate_access_token, generate_refresh_token, jwt_token, new_token_id,
};
use crate::validate::{
    error_views, login_error_entries, login_valid, registration_error_entries, registration_valid,
    validate_login, validate_registration,
};

verus! {

use vstd::string::StringExecFns;

/// The success payload of authentication. The refresh token is carried
/// for the transport layer to place in a cookie; it is not part of the
/// JSON success body.
#[derive(Debug)]
pub struct LoginSuccess {
    pub id: u64,
    pub email: String,
    pub first_name: String,
    pub last_name: String,
    pub access_token: String,
    pub refresh_token: String,
}

/// Relies on chrono's `Utc::now`: the system clock, as whole seconds
/// since the Unix epoch. Nothing is promised of the value.
#[verifier::external_body]
fn unix_now() -> (r: i64) {
    chrono::Utc::now().timestamp()
}

/// Registers an account: validates, pre-checks uniqueness, hashes the
/// password, then atomically persists the account and its profile. The
/// pre-check is an optimization only; the authoritative uniqueness
/// check is the store's, and a lost race surfaces as the same
/// `Conflict`. `now` is the creation timestamp; `faults` is the storage
/// behaviour for this invocation.
pub fn register_account(
    store: &mut AccountStore,
    req: &CreateUserRequest,
    now: u64,
    faults: StorageFaults,
) -> (r: Result<u64, AuthError>)
    requires
        old(store).wf(),
    ensures
        final(store).wf(),
        r is Err ==> final(store).same_state(*old(store)),
        !registration_valid(*req) ==> r is Err && r->Err_0 is ValidationFailed && error_views(
            r->Err_0->ValidationFailed_0@,
        ) == registration_error_entries(*req),
        registration_valid(*req) && faults.query_fails ==> r == Err::<u64, AuthError>(
            AuthError::StorageFailure(StorageErrorKind::QueryFailed),
        ),
        registration_valid(*req) && !faults.query_fails && old(store).email_taken(req.email@) ==> r
            == Err::<u64, AuthError>(AuthError::Conflict),
        registration_valid(*req) && !faults.query_fails && !old(store).email_taken(req.email@) && r
            != Err::<u64, AuthError>(AuthError::HashingFailure) ==> {
            &&& faults.begin_fails ==> r == Err::<u64, AuthError>(
                AuthError::StorageFailure(StorageErrorKind::TransactionFailed),
            )
            &&& !faults.begin_fails && faults.account_insert_fails ==> r == Err::<u64, AuthError>(
                AuthError::StorageFailure(StorageErrorKind::AccountInsertFailed),
            )
            &&& !faults.begin_fails && !faults.account_insert_fails && old(store).next_id
                == u64::MAX ==> r == Err::<u64, AuthError>(
                AuthError::StorageFailure(StorageErrorKind::AccountInsertFailed),
            )
            &&& !faults.begin_fails && !faults.account_insert_fails && old(store).next_id
                < u64::MAX && faults.profile_insert_fails ==> r == Err::<u64, AuthError>(
                AuthError::StorageFailure(StorageErrorKind::ProfileInsertFailed),
            )
            &&& !faults.any_insert() && old(store).next_id < u64::MAX ==> r is Ok
        },
        r is Ok ==> {
            &&& registration_valid(*req)
            &&& !old(store).email_taken(req.email@)
            &&& r->Ok_0 == old(store).next_id
            &&& final(store).next_id == old(store).next_id + 1
            &&& final(store).profiles@ == old(store).profiles@.push(
                Profile {
                    account_id: old(store).next_id,
                    first_name: req.first_name,
                    last_name: req.last_name,
                },
            )
            &&& exists|h: String|
                #[trigger] bcrypt_accepts(req.password@, h@) && bcrypt_hash_shape(h@)
                    && final(store).accounts@ == old(store).accounts@.push(
                    Account {
                        id: old(store).next_id,
                        email: req.email,
                        password_hash: h,
                        created_at: now,
                    },
                )
        },
{
    match validate_registration(req) {
        Ok(_) => {
        },
        Err(errs) => {
            return Err(AuthError::ValidationFailed(errs));
        },
    }
    if faults.query_fails {
        return Err(AuthError::StorageFailure(StorageErrorKind::QueryFailed));
    }
    if store.exists_by_email(&req.email) {
        return Err(AuthError::Conflict);
    }
    let password_hash = match hash_password(req.password.as_str()) {
        Ok(h) => h,
        Err(e) => {
            return Err(e);
        },
    };
    match store.create_account_with_profile(
        &req.email,
        &password_hash,
        &req.first_name,
        &req.last_name,
        now,
        faults,
    ) {
        Ok(account) => {
            proof {
                assert(bcrypt_accepts(req.password@, password_hash@));
            }
            Ok(account.id)
        },
        Err(e) => Err(e),
    }
}

/// Registers an account against a fault-free store, stamping the
/// creation time from the system clock. The outcome is exactly
/// [`register_account`]'s for some timestamp.
pub fn create_user(store: &mut AccountStore, req: &CreateUserRequest) -> (r: Result<
    u64,
    AuthError,
>)
    requires
        old(store).wf(),
    ensures
        final(store).wf(),
        r is Err ==> final(store).same_state(*old(store)),
        !registration_valid(*req) ==> r is Err && r->Err_0 is ValidationFailed && error_views(
            r->Err_0->ValidationFailed_0@,
        ) == registration_error_entries(*req),
        registration_valid(*req) && old(store).email_taken(req.email@) ==> r == Err::<
            u64,
            AuthError,
        >(AuthError::Conflict),
        registration_valid(*req) && !old(store).email_taken(req.email@) && old(store).next_id
            < u64::MAX ==> r is Ok || r == Err::<u64, AuthError>(AuthError::HashingFailure),
        r is Ok ==> {
            &&& registration_valid(*req)
            &&& !old(store).email_taken(req.email@)
            &&& r->Ok_0 == old(store).next_id
            &&& final(store).next_id == old(store).next_id + 1
            &&& final(store).profiles@ == old(store).profiles@.push(
                Profile {
                    account_id: old(store).next_id,
                    first_name: req.first_name,
                    last_name: req.last_name,
                },
            )
            &&& exists|h: String, t: u64|
                bcrypt_accepts(req.password@, h@) && bcrypt_hash_shape(h@) && final(store).accounts@
                    == #[trigger] old(store).accounts@.push(
                    Account {
                        id: old(store).next_id,
                        email: req.email,
                        password_hash: h,
                        created_at: t,
                    },
                )
        },
{
    let now_signed = unix_now();
    let now: u64 = if now_signed < 0 {
        0
    } else {
        now_signed as u64
    };
    let r = register_account(store, req, now, StorageFaults::none());
    proof {
        if r is Ok {
            let h = choose|h: String|
                #[trigger] bcrypt_accepts(req.password@, h@) && bcrypt_hash_shape(h@)
                    && final(store).accounts@ == old(store).accounts@.push(
                    Account {
                        id: old(store).next_id,
                        email: req.email,
                        password_hash: h,
                        created_at: now,
                    },
                );
            assert(bcrypt_accepts(req.password@, h@) && bcrypt_hash_shape(h@)
                && final(store).accounts@ == old(store).accounts@.push(
                Account {
                    id: old(store).next_id,
                    email: req.email,
                    password_hash: h,
                    created_at: now,
                },
            ));
        }
    }
    r
}

/// Authenticates a user against the store and issues the session
/// tokens. An unknown email and a wrong password produce the one,
/// identical `Unauthorized` outcome: nothing reveals whether the
/// account exists. On success the access token's claims carry the
/// account id as subject and expire exactly the configured lifetime
/// after issuance, and the session policy is applied with the access
/// token's id.
pub fn authenticate_account(
    store: &AccountStore,
    sessions: &mut SessionStore,
    req: &LoginUserRequest,
    cfg: &AuthConfig,
    now: u64,
    access_token_id: &String,
    refresh_token_id: &String,
) -> (r: Result<LoginSuccess, AuthError>)
    requires
        store.wf(),
        cfg.wf(),
        now + cfg.access_ttl_minutes * 60 <= u64::MAX,
        now + cfg.refresh_ttl_days * 86400 <= u64::MAX,
    ensures
        r is Ok && cfg.session_mode == SessionMode::Stateful ==> final(sessions).records@ == old(
            sessions,
        ).records@.push((SessionRecord { account_id: r->Ok_0.id, token_id: *access_token_id })),
        !(r is Ok && cfg.session_mode == SessionMode::Stateful) ==> final(sessions).records@ == old(
            sessions,
        ).records@,
        !login_valid(*req) ==> r is Err && r->Err_0 is ValidationFailed && error_views(
            r->Err_0->ValidationFailed_0@,
        ) == login_error_entries(*req),
        login_valid(*req) && !store.email_taken(req.email@) ==> r == Err::<
            LoginSuccess,
            AuthError,
        >(AuthError::Unauthorized),
        login_valid(*req) && store.email_taken(req.email@) && !bcrypt_accepts(
            req.password@,
            store.account_with_email(req.email@).password_hash@,
        ) ==> r == Err::<LoginSuccess, AuthError>(AuthError::Unauthorized),
        login_valid(*req) && store.email_taken(req.email@) && bcrypt_accepts(
            req.password@,
            store.account_with_email(req.email@).password_hash@,
        ) ==> r is Ok,
        r is Ok ==> {
            let account = store.account_with_email(req.email@);
            let profile = store.profile_for(account.id);
            &&& login_valid(*req)
            &&& store.email_taken(req.email@)
            &&& bcrypt_accepts(req.password@, account.password_hash@)
            &&& r->Ok_0.id == account.id
            &&& r->Ok_0.email == account.email
            &&& r->Ok_0.first_name == profile.first_name
            &&& r->Ok_0.last_name == profile.last_name
            &&& r->Ok_0.access_token@ == jwt_token(
                claims_json(
                    account.id,
                    account.email@,
                    (now + cfg.access_ttl_minutes * 60) as u64,
                    now,
                    access_token_id@,
                ),
                cfg.jwt_secret@,
            )
            &&& r->Ok_0.access_token@.len() >= 2
            &&& r->Ok_0.refresh_token@ == jwt_token(
                claims_json(
                    account.id,
                    account.email@,
                    (now + cfg.refresh_ttl_days * 86400) as u64,
                    now,
                    refresh_token_id@,
                ),
                cfg.jwt_secret@,
            )
        },
{
    match validate_login(req) {
        Ok(_) => {
        },
        Err(errs) => {
            return Err(AuthError::ValidationFailed(errs));
        },
    }
    let account = match store.find_by_email(&req.email) {
        Some(a) => a,
        None => {
            return Err(AuthError::Unauthorized);
        },
    };
    proof {
        let i = choose|i: int|
            0 <= i < store.accounts@.len() && (#[trigger] store.accounts@[i]) == account;
        lemma_account_unique(*store, req.email@, i);
        assert(store.account_with_email(req.email@) == account);
    }
    if !verify_password(req.password.as_str(), account.password_hash.as_str()) {
        return Err(AuthError::Unauthorized);
    }
    proof {
        let i = choose|i: int|
            0 <= i < store.accounts@.len() && (#[trigger] store.accounts@[i]) == account;
        assert(store.profiles@[i].account_id == store.accounts@[i].id);
        lemma_profile_unique(*store, account.id, i);
    }
    let profile = match store.find_profile(account.id) {
        Some(p) => p,
        None => {
            // Unreachable in a well-formed store: a profile exists if and
            // only if its account does. Kept as the defensive boundary the
            // flow promises for an invariant violation.
            return Err(AuthError::StorageFailure(StorageErrorKind::ProfileFetchFailed));
        },
    };
    proof {
        let i = choose|i: int|
            0 <= i < store.profiles@.len() && (#[trigger] store.profiles@[i]) == profile;
        lemma_profile_unique(*store, account.id, i);
        assert(store.profile_for(account.id) == profile);
    }
    let access_token = match generate_access_token(
        account.id,
        account.email.as_str(),
        now,
        cfg.access_ttl_minutes,
        access_token_id.as_str(),
        cfg.jwt_secret.as_str(),
    ) {
        Ok(t) => t,
        Err(e) => {
            return Err(e);
        },
    };
    let refresh_token = match generate_refresh_token(
        account.id,
        account.email.as_str(),
        now,
        cfg.refresh_ttl_days,
        refresh_token_id.as_str(),
        cfg.jwt_secret.as_str(),
    ) {
        Ok(t) => t,
        Err(e) => {
            return Err(e);
        },
    };
    apply_session_policy(cfg.session_mode, sessions, account.id, access_token_id);
    Ok(
        LoginSuccess {
            id: account.id,
            email: account.email,
            first_name: profile.first_name,
            last_name: profile.last_name,
            access_token,
            refresh_token,
        },
    )
}

/// The clock value beyond which expiry arithmetic is not attempted.
/// Leaves room for the largest configurable lifetimes.
pub const MAX_CLOCK_SECONDS: u64 = 18_446_744_033_709_551_615;

/// Authenticates with the system clock and fresh token ids. The outcome
/// is exactly [`authenticate_account`]'s for some issuance time and
/// token ids.
pub fn login_user(
    store: &AccountStore,
    sessions: &mut SessionStore,
    req: &LoginUserRequest,
    cfg: &AuthConfig,
) -> (r: Result<LoginSuccess, AuthError>)
    requires
        store.wf(),
        cfg.wf(),
    ensures
        !login_valid(*req) ==> r is Err && r->Err_0 is ValidationFailed && error_views(
            r->Err_0->ValidationFailed_0@,
        ) == login_error_entries(*req),
        login_valid(*req) && !store.email_taken(req.email@) ==> r == Err::<
            LoginSuccess,
            AuthError,
        >(AuthError::Unauthorized),
        login_valid(*req) && store.email_taken(req.email@) && !bcrypt_accepts(
            req.password@,
            store.account_with_email(req.email@).password_hash@,
        ) ==> r == Err::<LoginSuccess, AuthError>(AuthError::Unauthorized),
        login_valid(*req) && store.email_taken(req.email@) && bcrypt_accepts(
            req.password@,
            store.account_with_email(req.email@).password_hash@,
        ) ==> r is Ok,
        r is Ok ==> {
            let account = store.account_with_email(req.email@);
            let profile = store.profile_for(account.id);
            &&& login_valid(*req)
            &&& store.email_taken(req.email@)
            &&& bcrypt_accepts(req.password@, account.password_hash@)
            &&& r->Ok_0.id == account.id
            &&& r->Ok_0.email == account.email
            &&& r->Ok_0.first_name == profile.first_name
            &&& r->Ok_0.last_name == profile.last_name
            &&& r->Ok_0.access_token@.len() >= 2
            &&& exists|issued: u64, aj: Seq<char>, rj: Seq<char>|
                #![trigger jwt_token(
                    claims_json(
                        account.id,
                        account.email@,
                        (issued + cfg.access_ttl_minutes * 60) as u64,
                        issued,
                        aj,
                    ),
                    cfg.jwt_secret@,
                ), jwt_token(
                    claims_json(
                        account.id,
                        account.email@,
                        (issued + cfg.refresh_ttl_days * 86400) as u64,
                        issued,
                        rj,
                    ),
                    cfg.jwt_secret@,
                )]
                {
                    &&& aj.len() == 36
                    &&& rj.len() == 36
                    &&& r->Ok_0.access_token@ == jwt_token(
                        claims_json(
                            account.id,
                            account.email@,
                            (issued + cfg.access_ttl_minutes * 60) as u64,
                            issued,
                            aj,
                        ),
                        cfg.jwt_secret@,
                    )
                    &&& r->Ok_0.refresh_token@ == jwt_token(
                        claims_json(
                            account.id,
                            account.email@,
                            (issued + cfg.refresh_ttl_days * 86400) as u64,
                            issued,
                            rj,
                        ),
                        cfg.jwt_secret@,
                    )
                }
        },
        r is Ok && cfg.session_mode == SessionMode::Stateful ==> exists|j: String|
            final(sessions).records@ == #[trigger] old(sessions).records@.push(
                SessionRecord { account_id: r->Ok_0.id, token_id: j },
            ),
        !(r is Ok && cfg.session_mode == SessionMode::Stateful) ==> final(sessions).records@ == old(
            sessions,
        ).records@,
{
    let now_signed = unix_now();
    let now: u64 = if now_signed < 0 {
        0
    } else if now_signed as u64 > MAX_CLOCK_SECONDS {
        MAX_CLOCK_SECONDS
    } else {
        now_signed as u64
    };
    assert(cfg.access_ttl_minutes * 60 <= 31_622_400);
    assert(cfg.refresh_ttl_days * 86400 <= 315_619_200);
    let access_token_id = new_token_id();
    let refresh_token_id = new_token_id();
    let r = authenticate_account(
        store,
        sessions,
        req,
        cfg,
        now,
        &access_token_id,
        &refresh_token_id,
    );
    proof {
        if r is Ok {
            let account = store.account_with_email(req.email@);
            assert(r->Ok_0.access_token@ == jwt_token(
                claims_json(
                    account.id,
                    account.email@,
                    (now + cfg.access_ttl_minutes * 60) as u64,
                    now,
                    access_token_id@,
                ),
                cfg.jwt_secret@,
            ));
            assert(r->Ok_0.refresh_token@ == jwt_token(
                claims_json(
                    account.id,
                    account.email@,
                    (now + cfg.refresh_ttl_days * 86400) as u64,
                    now,
                    refresh_token_id@,
                ),
                cfg.jwt_secret@,
            ));
        }
    }
    r
}

} // verus!
