use account_core::request::{CreateUserRequest, LoginUserRequest};
use account_core::validate::{validate_login, validate_registration};

fn reg_req(email: &str, password: &str, first: &str, last: &str) -> CreateUserRequest {
    CreateUserRequest {
        email: email.to_string(),
        password: password.to_string(),
        first_name: first.to_string(),
        last_name: last.to_string(),
    }
}

#[test]
fn registration_accepts_well_formed_input() {
    let req = reg_req("a@b.com", "longenough", "A", "B");
    assert!(validate_registration(&req).is_ok());
}

#[test]
fn registration_rejects_malformed_email() {
    let req = reg_req("not-an-email", "longenough", "A", "B");
    let errs = validate_registration(&req).unwrap_err();
    assert_eq!(errs.len(), 1);
    assert_eq!(errs[0].field, "email");
    assert_eq!(errs[0].message, "invalid email format");
}

#[test]
fn registration_rejects_short_password() {
    let req = reg_req("a@b.com", "short", "A", "B");
    let errs = validate_registration(&req).unwrap_err();
    assert_eq!(errs.len(), 1);
    assert_eq!(errs[0].field, "password");
    assert_eq!(errs[0].message, "password must be at least 8 characters");
}

#[test]
fn registration_password_of_exactly_eight_characters_passes() {
    let req = reg_req("a@b.com", "12345678", "A", "B");
    assert!(validate_registration(&req).is_ok());
}

#[test]
fn registration_reports_every_failing_field_in_order() {
    let req = reg_req("", "short", "", "");
    let errs = validate_registration(&req).unwrap_err();
    assert_eq!(errs.len(), 4);
    assert_eq!(errs[0].field, "email");
    assert_eq!(errs[1].field, "password");
    assert_eq!(errs[2].field, "first_name");
    assert_eq!(errs[2].message, "first_name is required");
    assert_eq!(errs[3].field, "last_name");
    assert_eq!(errs[3].message, "last_name is required");
}

#[test]
fn login_accepts_any_non_empty_password() {
    let req = LoginUserRequest { email: "a@b.com".to_string(), password: "x".to_string() };
    assert!(validate_login(&req).is_ok());
}

#[test]
fn login_rejects_empty_password() {
    let req = LoginUserRequest { email: "a@b.com".to_string(), password: String::new() };
    let errs = validate_login(&req).unwrap_err();
    assert_eq!(errs.len(), 1);
    assert_eq!(errs[0].field, "password");
    assert_eq!(errs[0].message, "password is required");
}

#[test]
fn login_rejects_malformed_email() {
    let req = LoginUserRequest { email: "nope".to_string(), password: "x".to_string() };
    let errs = validate_login(&req).unwrap_err();
    assert_eq!(errs.len(), 1);
    assert_eq!(errs[0].field, "email");
    assert_eq!(errs[0].message, "invalid email format");
}
