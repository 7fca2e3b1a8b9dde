//! The error taxonomy of the account core: every failure a flow can
//! produce, together with the stable code, message and HTTP status that
//! the transport layer renders for it.

use vstd::prelude::*;

verus! {

/// One field-level validation finding: the offending input field and the
/// message reported for it.
#[derive(Debug, Clone)]
pub struct FieldError {
    pub field: String,
    pub message: String,
}

impl View for FieldError {
    type V = (Seq<char>, Seq<char>);

    open spec fn view(&self) -> (Seq<char>, Seq<char>) {
        (self.field@, self.message@)
    }
}

/// Which persistence operation failed. The distinction only drives the
/// rendered code and message; callers never learn storage internals.
#[derive(Debug, Clone, Copy, PartialEq, Eq, Structural)]
pub enum StorageErrorKind {
    /// A lookup (find / existence query) failed.
    QueryFailed,
    /// The atomic unit of work could not be started.
    TransactionFailed,
    /// The account record could not be inserted.
    AccountInsertFailed,
    /// The profile record could not be inserted (the account insert is
    /// rolled back).
    ProfileInsertFailed,
    /// The profile belonging to an authenticated account could not be
    /// loaded: an internal invariant violation, not a user error.
    ProfileFetchFailed,
}

/// A terminal failure of a registration or authentication flow.
#[derive(Debug, Clone)]
pub enum AuthError {
    /// User input is malformed; carries per-field detail.
    ValidationFailed(Vec<FieldError>),
    /// The request body could not be decoded at all (produced by the
    /// decoding collaborator outside this core, surfaced with the same
    /// shape).
    PayloadMalformed,
    /// The email uniqueness invariant would be violated.
    Conflict,
    /// Credentials do not match. Deliberately identical whether the email
    /// is unknown or the password is wrong.
    Unauthorized,
    /// A persistence error; partial writes are already rolled back.
    StorageFailure(StorageErrorKind),
    /// Signing the session token failed.
    TokenSigningFailure,
    /// Hashing the password failed (catastrophic, treated as fatal).
    HashingFailure,
}

/// The stable machine-readable code for an error, as the transport layer
/// sends it.
pub open spec fn code_spec(e: AuthError) -> Seq<char> {
    match e {
        AuthError::ValidationFailed(_) => "validation_error"@,
        AuthError::PayloadMalformed => "invalid_payload"@,
        AuthError::Conflict => "user_exists"@,
        AuthError::Unauthorized => "invalid_credentials"@,
        AuthError::StorageFailure(k) => match k {
            StorageErrorKind::QueryFailed => "db_error"@,
            StorageErrorKind::TransactionFailed => "db_error"@,
            StorageErrorKind::AccountInsertFailed => "insert_failed"@,
            StorageErrorKind::ProfileInsertFailed => "insert_failed"@,
            StorageErrorKind::ProfileFetchFailed => "db_error"@,
        },
        AuthError::TokenSigningFailure => "token_error"@,
        AuthError::HashingFailure => "db_error"@,
    }
}

/// The generic human-readable message for an error. Storage and signing
/// failures stay generic: no storage internals leak to the caller.
pub open spec fn message_spec(e: AuthError) -> Seq<char> {
    match e {
        AuthError::ValidationFailed(_) => "Validation failed"@,
        AuthError::PayloadMalformed => "Invalid payload"@,
        AuthError::Conflict => "User already exists"@,
        AuthError::Unauthorized => "Invalid email or password"@,
        AuthError::StorageFailure(k) => match k {
            StorageErrorKind::QueryFailed => "Database error"@,
            StorageErrorKind::TransactionFailed => "Failed to start transaction"@,
            StorageErrorKind::AccountInsertFailed => "Failed to create user"@,
            StorageErrorKind::ProfileInsertFailed => "Failed to create user details"@,
            StorageErrorKind::ProfileFetchFailed => "Failed to fetch user details"@,
        },
        AuthError::TokenSigningFailure => "Failed to generate token"@,
        AuthError::HashingFailure => "Failed to hash password"@,
    }
}

/// The HTTP status the transport layer uses for an error.
pub open spec fn http_status_spec(e: AuthError) -> u16 {
    match e {
        AuthError::ValidationFailed(_) => 422,
        AuthError::PayloadMalformed => 400,
        AuthError::Conflict => 400,
        AuthError::Unauthorized => 401,
        AuthError::StorageFailure(_) => 500,
        AuthError::TokenSigningFailure => 500,
        AuthError::HashingFailure => 500,
    }
}

impl AuthError {
    /// The stable machine-readable code of this error.
    pub fn code(&self) -> (r: &'static str)
        ensures
            r@ == code_spec(*self),
    {
        match self {
            AuthError::ValidationFailed(_) => "validation_error",
            AuthError::PayloadMalformed => "invalid_payload",
            AuthError::Conflict => "user_exists",
            AuthError::Unauthorized => "invalid_credentials",
            AuthError::StorageFailure(k) => match k {
                StorageErrorKind::QueryFailed => "db_error",
                StorageErrorKind::TransactionFailed => "db_error",
                StorageErrorKind::AccountInsertFailed => "insert_failed",
                StorageErrorKind::ProfileInsertFailed => "insert_failed",
                StorageErrorKind::ProfileFetchFailed => "db_error",
            },
            AuthError::TokenSigningFailure => "token_error",
            AuthError::HashingFailure => "db_error",
        }
    }

    /// The generic human-readable message of this error.
    pub fn message(&self) -> (r: &'static str)
        ensures
            r@ == message_spec(*self),
    {
        match self {
            AuthError::ValidationFailed(_) => "Validation failed",
            AuthError::PayloadMalformed => "Invalid payload",
            AuthError::Conflict => "User already exists",
            AuthError::Unauthorized => "Invalid email or password",
            AuthError::StorageFailure(k) => match k {
                StorageErrorKind::QueryFailed => "Database error",
                StorageErrorKind::TransactionFailed => "Failed to start transaction",
                StorageErrorKind::AccountInsertFailed => "Failed to create user",
                StorageErrorKind::ProfileInsertFailed => "Failed to create user details",
                StorageErrorKind::ProfileFetchFailed => "Failed to fetch user details",
            },
            AuthError::TokenSigningFailure => "Failed to generate token",
            AuthError::HashingFailure => "Failed to hash password",
        }
    }

    /// The HTTP status the transport layer uses for this error.
    pub fn http_status(&self) -> (r: u16)
        ensures
            r == http_status_spec(*self),
    {
        match self {
            AuthError::ValidationFailed(_) => 422,
            AuthError::PayloadMalformed => 400,
            AuthError::Conflict => 400,
            AuthError::Unauthorized => 401,
            AuthError::StorageFailure(_) => 500,
            AuthError::TokenSigningFailure => 500,
            AuthError::HashingFailure => 500,
        }
    }
}

} // verus!
