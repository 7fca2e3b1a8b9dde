//! The token issuer: claims are rendered as JSON by verified code, the
//! payload is framed exactly as a JWS compact serialization, and only
//! the base64url encoding and the HMAC-SHA256 signature are delegated
//! to outside code behind trusted wrappers.
//!
//! Claims invariant: every token is issued with `expires_at` strictly
//! after `issued_at`, and a fresh `token_id` per issuance.

use vstd::prelude::*;

use crate::error::AuthError;
use crate::text::{dec_str, digit_char, is_dec_digit, u64_to_string};

verus! {

use vstd::string::StringExecFns;
use vstd::string::StrSliceExecFns;

/// The character for one lowercase hex digit.
pub open spec fn hex_char(d: nat) -> char
    recommends
        d < 16,
{
    if d < 10 {
        digit_char(d)
    } else if d == 10 {
        'a'
    } else if d == 11 {
        'b'
    } else if d == 12 {
        'c'
    } else if d == 13 {
        'd'
    } else if d == 14 {
        'e'
    } else {
        'f'
    }
}

/// How one character is written inside a JSON string literal: quote and
/// backslash are escaped, control characters take the `\u00XX` form,
/// everything else stands as itself.
pub open spec fn json_escape_char(c: char) -> Seq<char> {
    if c == '"' {
        seq!['\\', '"']
    } else if c == '\\' {
        seq!['\\', '\\']
    } else if (c as u32) < 32 {
        seq!['\\', 'u', '0', '0', hex_char(((c as u32) / 16) as nat), hex_char(
            ((c as u32) % 16) as nat,
        )]
    } else {
        seq![c]
    }
}

/// The body of a JSON string literal holding exactly the characters of
/// `s`.
pub open spec fn json_escaped(s: Seq<char>) -> Seq<char>
    decreases s.len(),
{
    if s.len() == 0 {
        Seq::empty()
    } else {
        json_escaped(s.drop_last()) + json_escape_char(s.last())
    }
}

/// The lowercase hex digit character for `d`, as executable code.
fn hex_char_of(d: u32) -> (c: char)
    requires
        d < 16,
    ensures
        c == hex_char(d as nat),
{
    match d {
        0 => '0',
        1 => '1',
        2 => '2',
        3 => '3',
        4 => '4',
        5 => '5',
        6 => '6',
        7 => '7',
        8 => '8',
        9 => '9',
        10 => 'a',
        11 => 'b',
        12 => 'c',
        13 => 'd',
        14 => 'e',
        _ => 'f',
    }
}

/// Appends the JSON-escaped form of `s` to `out`.
fn push_json_escaped(s: &str, out: &mut Vec<char>)
    ensures
        final(out)@ == old(out)@ + json_escaped(s@),
{
    let n = s.unicode_len();
    let mut i: usize = 0;
    while i < n
        invariant
            0 <= i <= n == s@.len(),
            out@ == old(out)@ + json_escaped(s@.take(i as int)),
        decreases n - i,
    {
        let c = s.get_char(i);
        if c == '"' {
            out.push('\\');
            out.push('"');
        } else if c == '\\' {
            out.push('\\');
            out.push('\\');
        } else if (c as u32) < 32 {
            out.push('\\');
            out.push('u');
            out.push('0');
            out.push('0');
            out.push(hex_char_of((c as u32) / 16));
            out.push(hex_char_of((c as u32) % 16));
        } else {
            out.push(c);
        }
        proof {
            assert(s@.take(i + 1).drop_last() =~= s@.take(i as int));
            assert(s@.take(i + 1).last() == s@[i as int]);
            assert(out@ =~= old(out)@ + json_escaped(s@.take(i + 1)));
        }
        i = i + 1;
    }
    proof {
        assert(s@.take(n as int) =~= s@);
    }
}

/// The JSON-escaped form of `s`, as a string of its own.
fn json_escape_string(s: &str) -> (r: String)
    ensures
        r@ == json_escaped(s@),
{
    let mut v: Vec<char> = Vec::new();
    push_json_escaped(s, &mut v);
    assert(v@ =~= json_escaped(s@));
    crate::text::chars_to_string(&v)
}

/// The exact JSON rendering of a set of token claims: `subject` (and the
/// mirrored `user_id`), `email`, `expires_at`, `issued_at`, `token_id`.
pub open spec fn claims_json(
    sub: u64,
    email: Seq<char>,
    exp: u64,
    iat: u64,
    jti: Seq<char>,
) -> Seq<char> {
    "{\"sub\":"@ + dec_str(sub as nat) + ",\"user_id\":"@ + dec_str(sub as nat) + ",\"email\":\""@
        + json_escaped(email) + "\",\"exp\":"@ + dec_str(exp as nat) + ",\"iat\":"@ + dec_str(
        iat as nat,
    ) + ",\"jti\":\""@ + json_escaped(jti) + "\"}"@
}

/// Renders the claims as JSON, exactly as [`claims_json`] describes.
pub fn build_claims_json(sub: u64, email: &str, exp: u64, iat: u64, jti: &str) -> (s: String)
    ensures
        s@ == claims_json(sub, email@, exp, iat, jti@),
{
    let sub_str = u64_to_string(sub);
    let mut s = String::new();
    s.append("{\"sub\":");
    s.append(sub_str.as_str());
    s.append(",\"user_id\":");
    s.append(sub_str.as_str());
    s.append(",\"email\":\"");
    let email_esc = json_escape_string(email);
    s.append(email_esc.as_str());
    s.append("\",\"exp\":");
    let exp_str = u64_to_string(exp);
    s.append(exp_str.as_str());
    s.append(",\"iat\":");
    let iat_str = u64_to_string(iat);
    s.append(iat_str.as_str());
    s.append(",\"jti\":\"");
    let jti_esc = json_escape_string(jti);
    s.append(jti_esc.as_str());
    s.append("\"}");
    assert(s@ =~= claims_json(sub, email@, exp, iat, jti@));
    s
}

/// What the base64url (unpadded) encoding of the UTF-8 bytes of `s`
/// yields. The result depends on the characters alone.
pub uninterp spec fn b64url_of(s: Seq<char>) -> Seq<char>;

/// Relies on base64's `URL_SAFE_NO_PAD` engine: a pure encoding of the
/// input bytes, here the UTF-8 bytes of the string.
#[verifier::external_body]
fn b64url_encode(s: &str) -> (r: String)
    ensures
        r@ == b64url_of(s@),
{
    base64::Engine::encode(&base64::engine::general_purpose::URL_SAFE_NO_PAD, s.as_bytes())
}

/// What signing `message` with HMAC-SHA256 under `secret` and encoding
/// the tag base64url yields. HMAC is deterministic: the result depends
/// on the two strings alone.
pub uninterp spec fn hs256_sig_of(message: Seq<char>, secret: Seq<char>) -> Seq<char>;

/// The error type of the jsonwebtoken crate, carried opaquely.
#[verifier::external_type_specification]
#[verifier::external_body]
pub struct ExJwtError(jsonwebtoken::errors::Error);

/// Relies on jsonwebtoken's `crypto::sign` with `Algorithm::HS256` over
/// a key from `EncodingKey::from_secret`: the base64url encoding of the
/// HMAC-SHA256 tag of the message under the secret. This path cannot
/// fail: `from_secret` fixes the HMAC key family, so the signer
/// factory's family check passes, HMAC accepts keys of any length, and
/// the signer itself is total — the call always returns `Ok`.
#[verifier::external_body]
fn sign_hs256(message: &str, secret: &str) -> (r: Result<String, jsonwebtoken::errors::Error>)
    ensures
        r is Ok,
        r is Ok ==> r->Ok_0@ == hs256_sig_of(message@, secret@),
{
    jsonwebtoken::crypto::sign(
        message.as_bytes(),
        &jsonwebtoken::EncodingKey::from_secret(secret.as_bytes()),
        jsonwebtoken::Algorithm::HS256,
    )
}

/// The fixed JOSE header of every token this issuer signs.
pub open spec fn jwt_header_json() -> Seq<char> {
    "{\"typ\":\"JWT\",\"alg\":\"HS256\"}"@
}

/// The signing input of a token: base64url header, a dot, base64url
/// payload.
pub open spec fn jwt_message(payload: Seq<char>) -> Seq<char> {
    b64url_of(jwt_header_json()) + "."@ + b64url_of(payload)
}

/// The complete signed token for a payload under a secret.
pub open spec fn jwt_token(payload: Seq<char>, secret: Seq<char>) -> Seq<char> {
    jwt_message(payload) + "."@ + hs256_sig_of(jwt_message(payload), secret)
}

/// Signs a payload into a JWS compact serialization. The result type
/// carries the taxonomy's `TokenSigningFailure`, but the HMAC signer is
/// total, so success is owed: the result is always `Ok`.
pub fn encode_jwt(payload: &str, secret: &str) -> (r: Result<String, AuthError>)
    ensures
        r is Ok,
        r is Ok ==> r->Ok_0@ == jwt_token(payload@, secret@),
        r is Ok ==> r->Ok_0@.len() >= 2,
{
    let mut msg = b64url_encode("{\"typ\":\"JWT\",\"alg\":\"HS256\"}");
    msg.append(".");
    let payload_b64 = b64url_encode(payload);
    msg.append(payload_b64.as_str());
    let sig = match sign_hs256(msg.as_str(), secret) {
        Ok(s) => s,
        Err(_) => {
            return Err(AuthError::TokenSigningFailure);
        },
    };
    proof {
        reveal_strlit(".");
        assert(msg@ =~= jwt_message(payload@));
    }
    let mut token = msg;
    token.append(".");
    token.append(sig.as_str());
    assert(token@ =~= jwt_token(payload@, secret@));
    Ok(token)
}

/// Issues the short-lived access token: claims carry the account id as
/// subject, the account email, `issued_at` of `now`, `expires_at`
/// exactly `ttl_minutes` minutes later, and the caller-supplied fresh
/// `token_id`. Success is owed: the signer is total.
pub fn generate_access_token(
    account_id: u64,
    email: &str,
    now: u64,
    ttl_minutes: u64,
    token_id: &str,
    secret: &str,
) -> (r: Result<String, AuthError>)
    requires
        ttl_minutes >= 1,
        now + ttl_minutes * 60 <= u64::MAX,
    ensures
        r is Ok,
        r is Ok ==> r->Ok_0@ == jwt_token(
            claims_json(account_id, email@, (now + ttl_minutes * 60) as u64, now, token_id@),
            secret@,
        ),
        r is Ok ==> r->Ok_0@.len() >= 2,
{
    let exp = now + ttl_minutes * 60;
    let payload = build_claims_json(account_id, email, exp, now, token_id);
    encode_jwt(payload.as_str(), secret)
}

/// Issues the long-lived refresh token: as the access token, but with an
/// expiry `ttl_days` days after `now` and its own fresh `token_id`.
/// Success is owed: the signer is total.
pub fn generate_refresh_token(
    account_id: u64,
    email: &str,
    now: u64,
    ttl_days: u64,
    token_id: &str,
    secret: &str,
) -> (r: Result<String, AuthError>)
    requires
        ttl_days >= 1,
        now + ttl_days * 86400 <= u64::MAX,
    ensures
        r is Ok,
        r is Ok ==> r->Ok_0@ == jwt_token(
            claims_json(account_id, email@, (now + ttl_days * 86400) as u64, now, token_id@),
            secret@,
        ),
        r is Ok ==> r->Ok_0@.len() >= 2,
{
    let exp = now + ttl_days * 86400;
    let payload = build_claims_json(account_id, email, exp, now, token_id);
    encode_jwt(payload.as_str(), secret)
}

/// Whether `c` can occur in a hyphenated lowercase UUID rendering.
pub open spec fn uuid_char(c: char) -> bool {
    is_dec_digit(c) || ('a' <= c && c <= 'f') || c == '-'
}

/// Relies on uuid's `Uuid::new_v4` and its `Display`: a fresh random
/// identifier rendered as 36 characters of lowercase hex digits and
/// hyphens. The value is drawn from OS randomness, so nothing more is
/// promised; distinctness across issuances is statistical, not proved.
#[verifier::external_body]
pub fn new_token_id() -> (r: String)
    ensures
        r@.len() == 36,
        forall|i: int| 0 <= i < r@.len() ==> uuid_char(#[trigger] r@[i]),
{
    uuid::Uuid::new_v4().to_string()
}

} // verus!
