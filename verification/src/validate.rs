//! Input validation for the two flows. Registration demands a well-formed
//! email address, a password of at least eight characters and non-empty
//! names; login only demands a well-formed email and a non-empty password
//! (registration strength rules do not re-apply at login).

use vstd::prelude::*;

use crate::error::FieldError;
use crate::request::{CreateUserRequest, LoginUserRequest};

verus! {

/// Whether `s` is a well-formed email address, by the HTML5 rule the
/// validator crate implements. The result depends on the characters
/// alone.
pub uninterp spec fn is_valid_email(s: Seq<char>) -> bool;

/// Relies on validator's `ValidateEmail` for `&str` (the HTML5 email
/// rule): a pure check of the string; an empty string is never a valid
/// address.
#[verifier::external_body]
pub fn email_is_valid(s: &str) -> (r: bool)
    ensures
        r == is_valid_email(s@),
        s@.len() == 0 ==> !r,
{
    validator::ValidateEmail::validate_email(&s)
}

/// Whether a registration request passes validation.
pub open spec fn registration_valid(req: CreateUserRequest) -> bool {
    &&& is_valid_email(req.email@)
    &&& req.password@.len() >= 8
    &&& req.first_name@.len() >= 1
    &&& req.last_name@.len() >= 1
}

/// Whether a login request passes validation.
pub open spec fn login_valid(req: LoginUserRequest) -> bool {
    &&& is_valid_email(req.email@)
    &&& req.password@.len() >= 1
}

/// One (field, message) entry when a check failed, nothing when it
/// passed.
pub open spec fn maybe_entry(ok: bool, field: Seq<char>, message: Seq<char>) -> Seq<
    (Seq<char>, Seq<char>),
> {
    if ok {
        Seq::empty()
    } else {
        seq![(field, message)]
    }
}

/// The exact field-level findings for a registration request, in field
/// order.
pub open spec fn registration_error_entries(req: CreateUserRequest) -> Seq<
    (Seq<char>, Seq<char>),
> {
    maybe_entry(is_valid_email(req.email@), "email"@, "invalid email format"@) + maybe_entry(
        req.password@.len() >= 8,
        "password"@,
        "password must be at least 8 characters"@,
    ) + maybe_entry(req.first_name@.len() >= 1, "first_name"@, "first_name is required"@)
        + maybe_entry(req.last_name@.len() >= 1, "last_name"@, "last_name is required"@)
}

/// The exact field-level findings for a login request, in field order.
pub open spec fn login_error_entries(req: LoginUserRequest) -> Seq<(Seq<char>, Seq<char>)> {
    maybe_entry(is_valid_email(req.email@), "email"@, "invalid email format"@) + maybe_entry(
        req.password@.len() >= 1,
        "password"@,
        "password is required"@,
    )
}

/// The views of a list of field errors.
pub open spec fn error_views(errs: Seq<FieldError>) -> Seq<(Seq<char>, Seq<char>)> {
    errs.map_values(|f: FieldError| f@)
}

/// Builds one field-level finding.
fn field_error(field: &str, message: &str) -> (r: FieldError)
    ensures
        r@ == (field@, message@),
{
    FieldError { field: field.to_owned(), message: message.to_owned() }
}

/// Checks a registration request. Returns the exact per-field findings,
/// in field order, if and only if any check fails.
pub fn validate_registration(req: &CreateUserRequest) -> (r: Result<(), Vec<FieldError>>)
    ensures
        r is Ok <==> registration_valid(*req),
        r is Err ==> error_views(r->Err_0@) == registration_error_entries(*req),
{
    let mut errs: Vec<FieldError> = Vec::new();
    if !email_is_valid(req.email.as_str()) {
        errs.push(field_error("email", "invalid email format"));
    }
    if req.password.as_str().unicode_len() < 8 {
        errs.push(field_error("password", "password must be at least 8 characters"));
    }
    if req.first_name.as_str().unicode_len() < 1 {
        errs.push(field_error("first_name", "first_name is required"));
    }
    if req.last_name.as_str().unicode_len() < 1 {
        errs.push(field_error("last_name", "last_name is required"));
    }
    proof {
        assert(error_views(errs@) =~~= registration_error_entries(*req));
    }
    if errs.len() == 0 {
        assert(registration_valid(*req)) by {
            assert(registration_error_entries(*req).len() == 0);
        }
        Ok(())
    } else {
        Err(errs)
    }
}

/// Checks a login request. Returns the exact per-field findings, in
/// field order, if and only if any check fails.
pub fn validate_login(req: &LoginUserRequest) -> (r: Result<(), Vec<FieldError>>)
    ensures
        r is Ok <==> login_valid(*req),
        r is Err ==> error_views(r->Err_0@) == login_error_entries(*req),
{
    let mut errs: Vec<FieldError> = Vec::new();
    if !email_is_valid(req.email.as_str()) {
        errs.push(field_error("email", "invalid email format"));
    }
    if req.password.as_str().unicode_len() < 1 {
        errs.push(field_error("password", "password is required"));
    }
    proof {
        assert(error_views(errs@) =~~= login_error_entries(*req));
    }
    if errs.len() == 0 {
        assert(login_valid(*req)) by {
            assert(login_error_entries(*req).len() == 0);
        }
        Ok(())
    } else {
        Err(errs)
    }
}

} // verus!
