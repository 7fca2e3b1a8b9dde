use account_core::config::{resolve_config, AuthConfig};
use account_core::error::AuthError;
use account_core::flows::{create_user, login_user};
use account_core::request::{CreateUserRequest, LoginUserRequest};
use account_core::session::SessionStore;
use account_core::store::AccountStore;

fn registered_store() -> (AccountStore, u64) {
    let mut store = AccountStore::new();
    let req = CreateUserRequest {
        email: "a@b.com".to_string(),
        password: "longenough".to_string(),
        first_name: "A".to_string(),
        last_name: "B".to_string(),
    };
    let id = create_user(&mut store, &req).unwrap();
    (store, id)
}

fn stateless_config() -> AuthConfig {
    resolve_config(Some("test-signing-secret".to_string()), None, None, None).unwrap()
}

fn login(email: &str, password: &str) -> LoginUserRequest {
    LoginUserRequest { email: email.to_string(), password: password.to_string() }
}

fn decode_claims(token: &str, secret: &str) -> serde_json::Value {
    let mut validation = jsonwebtoken::Validation::new(jsonwebtoken::Algorithm::HS256);
    validation.validate_exp = true;
    let data = jsonwebtoken::decode::<serde_json::Value>(
        token,
        &jsonwebtoken::DecodingKey::from_secret(secret.as_bytes()),
        &validation,
    )
    .expect("the issued token must decode under the signing secret");
    data.claims
}

#[test]
fn correct_credentials_yield_a_well_formed_access_token() {
    let (store, id) = registered_store();
    let cfg = stateless_config();
    let mut sessions = SessionStore::new();
    let ok = login_user(&store, &mut sessions, &login("a@b.com", "longenough"), &cfg).unwrap();
    assert_eq!(ok.id, id);
    assert_eq!(ok.email, "a@b.com");
    assert_eq!(ok.first_name, "A");
    assert_eq!(ok.last_name, "B");
    assert!(!ok.access_token.is_empty());

    let claims = decode_claims(&ok.access_token, "test-signing-secret");
    assert_eq!(claims["sub"].as_u64(), Some(id));
    assert_eq!(claims["user_id"].as_u64(), Some(id));
    assert_eq!(claims["email"].as_str(), Some("a@b.com"));
    let iat = claims["iat"].as_u64().unwrap();
    let exp = claims["exp"].as_u64().unwrap();
    assert_eq!(exp, iat + 15 * 60);
    assert!(iat > 1_500_000_000);
    assert_eq!(claims["jti"].as_str().unwrap().len(), 36);
}

#[test]
fn refresh_token_lives_seven_days_with_its_own_id() {
    let (store, _) = registered_store();
    let cfg = stateless_config();
    let mut sessions = SessionStore::new();
    let ok = login_user(&store, &mut sessions, &login("a@b.com", "longenough"), &cfg).unwrap();
    let access = decode_claims(&ok.access_token, "test-signing-secret");
    let refresh = decode_claims(&ok.refresh_token, "test-signing-secret");
    let iat = refresh["iat"].as_u64().unwrap();
    let exp = refresh["exp"].as_u64().unwrap();
    assert_eq!(exp, iat + 7 * 86400);
    assert_ne!(access["jti"], refresh["jti"]);
}

#[test]
fn configured_ttl_is_honoured_exactly() {
    let (store, _) = registered_store();
    let cfg = resolve_config(
        Some("test-signing-secret".to_string()),
        Some("30".to_string()),
        None,
        None,
    )
    .unwrap();
    assert_eq!(cfg.access_ttl_minutes, 30);
    let mut sessions = SessionStore::new();
    let ok = login_user(&store, &mut sessions, &login("a@b.com", "longenough"), &cfg).unwrap();
    let claims = decode_claims(&ok.access_token, "test-signing-secret");
    let iat = claims["iat"].as_u64().unwrap();
    let exp = claims["exp"].as_u64().unwrap();
    assert_eq!(exp, iat + 30 * 60);
}

#[test]
fn unknown_email_and_wrong_password_are_indistinguishable() {
    let (store, _) = registered_store();
    let cfg = stateless_config();
    let mut sessions = SessionStore::new();
    let unknown = login_user(&store, &mut sessions, &login("x@y.com", "whatever1"), &cfg)
        .unwrap_err();
    let wrong =
        login_user(&store, &mut sessions, &login("a@b.com", "wrongpass"), &cfg).unwrap_err();
    assert!(matches!(unknown, AuthError::Unauthorized));
    assert!(matches!(wrong, AuthError::Unauthorized));
    assert_eq!(unknown.code(), wrong.code());
    assert_eq!(unknown.message(), wrong.message());
    assert_eq!(unknown.http_status(), wrong.http_status());
    assert_eq!(unknown.code(), "invalid_credentials");
    assert_eq!(unknown.message(), "Invalid email or password");
    assert_eq!(unknown.http_status(), 401);
}

#[test]
fn stateless_mode_records_no_session() {
    let (store, _) = registered_store();
    let cfg = stateless_config();
    let mut sessions = SessionStore::new();
    login_user(&store, &mut sessions, &login("a@b.com", "longenough"), &cfg).unwrap();
    assert_eq!(sessions.records.len(), 0);
}

#[test]
fn stateful_mode_records_the_access_token_id() {
    let (store, id) = registered_store();
    let cfg = resolve_config(
        Some("test-signing-secret".to_string()),
        None,
        None,
        Some("jwt_server_stateful".to_string()),
    )
    .unwrap();
    let mut sessions = SessionStore::new();
    let ok = login_user(&store, &mut sessions, &login("a@b.com", "longenough"), &cfg).unwrap();
    assert_eq!(sessions.records.len(), 1);
    assert_eq!(sessions.records[0].account_id, id);
    assert_eq!(sessions.records[0].token_id.len(), 36);
    let claims = decode_claims(&ok.access_token, "test-signing-secret");
    assert_eq!(claims["jti"].as_str(), Some(sessions.records[0].token_id.as_str()));
}

#[test]
fn failed_logins_record_no_session_even_when_stateful() {
    let (store, _) = registered_store();
    let cfg = resolve_config(
        Some("test-signing-secret".to_string()),
        None,
        None,
        Some("jwt_server_stateful".to_string()),
    )
    .unwrap();
    let mut sessions = SessionStore::new();
    let _ = login_user(&store, &mut sessions, &login("a@b.com", "wrongpass"), &cfg);
    assert_eq!(sessions.records.len(), 0);
}

#[test]
fn invalid_login_shape_reports_field_detail() {
    let (store, _) = registered_store();
    let cfg = stateless_config();
    let mut sessions = SessionStore::new();
    let e = login_user(&store, &mut sessions, &login("a@b.com", ""), &cfg).unwrap_err();
    assert_eq!(e.code(), "validation_error");
    match e {
        AuthError::ValidationFailed(errs) => {
            assert_eq!(errs.len(), 1);
            assert_eq!(errs[0].field, "password");
            assert_eq!(errs[0].message, "password is required");
        }
        other => panic!("expected validation detail, got {:?}", other),
    }
}

#[test]
fn full_scenario_register_conflict_login_and_reject() {
    let mut store = AccountStore::new();
    let reg = CreateUserRequest {
        email: "a@b.com".to_string(),
        password: "longenough".to_string(),
        first_name: "A".to_string(),
        last_name: "B".to_string(),
    };
    let id = create_user(&mut store, &reg).unwrap();
    assert!(id != 0);
    let again = create_user(&mut store, &reg).unwrap_err();
    assert_eq!(again.code(), "user_exists");
    let cfg = stateless_config();
    let mut sessions = SessionStore::new();
    let ok = login_user(&store, &mut sessions, &login("a@b.com", "longenough"), &cfg).unwrap();
    assert!(!ok.access_token.is_empty());
    let bad = login_user(&store, &mut sessions, &login("a@b.com", "nottherightone"), &cfg)
        .unwrap_err();
    assert!(matches!(bad, AuthError::Unauthorized));
    assert_eq!(bad.code(), "invalid_credentials");
}

#[test]
fn tampered_token_does_not_decode() {
    let (store, _) = registered_store();
    let cfg = stateless_config();
    let mut sessions = SessionStore::new();
    let ok = login_user(&store, &mut sessions, &login("a@b.com", "longenough"), &cfg).unwrap();
    let mut validation = jsonwebtoken::Validation::new(jsonwebtoken::Algorithm::HS256);
    validation.validate_exp = true;
    let tampered = format!("{}x", ok.access_token);
    assert!(jsonwebtoken::decode::<serde_json::Value>(
        &tampered,
        &jsonwebtoken::DecodingKey::from_secret("test-signing-secret".as_bytes()),
        &validation,
    )
    .is_err());
    assert!(jsonwebtoken::decode::<serde_json::Value>(
        &ok.access_token,
        &jsonwebtoken::DecodingKey::from_secret("some-other-secret".as_bytes()),
        &validation,
    )
    .is_err());
}
