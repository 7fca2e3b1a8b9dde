//! Credential hashing: one-way bcrypt hashing with a fixed work factor
//! and verification of a plaintext against a stored hash. A malformed
//! stored hash degrades to "authentication denied", never to a crash.

use vstd::prelude::*;

use crate::error::AuthError;

verus! {

/// What verifying `password` against the stored bcrypt hash string
/// `hash` yields: `true` exactly when the hash is well formed and was
/// produced from this password. The result depends on the two strings
/// alone.
pub uninterp spec fn bcrypt_accepts(password: Seq<char>, hash: Seq<char>) -> bool;

/// Whether `c` belongs to bcrypt's base64 alphabet.
pub open spec fn is_bcrypt_b64_char(c: char) -> bool {
    ||| c == '.'
    ||| c == '/'
    ||| '0' <= c && c <= '9'
    ||| 'A' <= c && c <= 'Z'
    ||| 'a' <= c && c <= 'z'
}

/// The shape of every hash this module produces: exactly 60 characters,
/// opening with the version-and-work-factor prefix (version 2b, the
/// fixed cost of twelve written with two digits), then the salt and tag
/// in bcrypt's base64 alphabet. A stored value of this shape is a hash,
/// never the plaintext of any password that is not itself one.
pub open spec fn bcrypt_hash_shape(h: Seq<char>) -> bool {
    &&& h.len() == 60
    &&& h.subrange(0, 7) == "$2b$12$"@
    &&& forall|i: int| 7 <= i < 60 ==> is_bcrypt_b64_char(#[trigger] h[i])
}

/// The error type of the bcrypt crate, carried opaquely.
#[verifier::external_type_specification]
#[verifier::external_body]
pub struct ExBcryptError(bcrypt::BcryptError);

/// Relies on `bcrypt::hash` with `DEFAULT_COST`: on success the returned
/// hash string verifies against the password it was produced from
/// (`bcrypt::verify` on the pair yields `Ok(true)`), and is always the
/// 60-character version-2b hash string — `$2b$`, the two-digit cost of
/// twelve, `$`, then 22 salt and 31 tag characters of bcrypt's base64
/// alphabet. The salt is drawn from OS randomness, so nothing more is
/// promised of the hash itself; it fails only on catastrophic entropy
/// failure.
#[verifier::external_body]
fn bcrypt_hash(plain: &str) -> (r: Result<String, bcrypt::BcryptError>)
    ensures
        r is Ok ==> bcrypt_accepts(plain@, r->Ok_0@),
        r is Ok ==> bcrypt_hash_shape(r->Ok_0@),
{
    bcrypt::hash(plain, bcrypt::DEFAULT_COST)
}

/// Hashes a plaintext password with the fixed, documented work factor.
/// The result is a hash string of the documented bcrypt shape, never
/// the plaintext. Failure is catastrophic (entropy exhaustion) and
/// reported as `HashingFailure`, never retried.
pub fn hash_password(plain: &str) -> (r: Result<String, AuthError>)
    ensures
        r is Ok ==> bcrypt_accepts(plain@, r->Ok_0@),
        r is Ok ==> bcrypt_hash_shape(r->Ok_0@),
        r is Err ==> r->Err_0 == AuthError::HashingFailure,
{
    match bcrypt_hash(plain) {
        Ok(h) => Ok(h),
        Err(_) => Err(AuthError::HashingFailure),
    }
}

/// Relies on `bcrypt::verify`: constant-time comparison of the password
/// against the stored hash; any malformed hash yields an error, taken
/// here as `false`. The result is a function of the two strings alone.
#[verifier::external_body]
pub fn verify_password(plain: &str, hashed: &str) -> (r: bool)
    ensures
        r == bcrypt_accepts(plain@, hashed@),
{
    bcrypt::verify(plain, hashed).unwrap_or(false)
}

} // verus!
