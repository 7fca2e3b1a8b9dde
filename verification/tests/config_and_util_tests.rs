use account_core::config::{resolve_config, ConfigError};
use account_core::hashing::{hash_password, verify_password};
use account_core::session::SessionMode;
use account_core::text::{parse_u64, u64_to_string};

#[test]
fn missing_secret_fails_startup() {
    let r = resolve_config(None, None, None, None);
    assert!(matches!(r, Err(ConfigError::MissingSecret)));
}

#[test]
fn empty_secret_fails_startup() {
    let r = resolve_config(Some(String::new()), None, None, None);
    assert!(matches!(r, Err(ConfigError::MissingSecret)));
}

#[test]
fn ttl_defaults_apply_when_absent_or_unusable() {
    let cfg = resolve_config(Some("s".to_string()), None, None, None).unwrap();
    assert_eq!(cfg.access_ttl_minutes, 15);
    assert_eq!(cfg.refresh_ttl_days, 7);

    let cfg = resolve_config(
        Some("s".to_string()),
        Some("abc".to_string()),
        Some("0".to_string()),
        None,
    )
    .unwrap();
    assert_eq!(cfg.access_ttl_minutes, 15);
    assert_eq!(cfg.refresh_ttl_days, 7);

    let cfg = resolve_config(
        Some("s".to_string()),
        Some("-5".to_string()),
        Some("99999999999999999999".to_string()),
        None,
    )
    .unwrap();
    assert_eq!(cfg.access_ttl_minutes, 15);
    assert_eq!(cfg.refresh_ttl_days, 7);
}

#[test]
fn ttl_values_in_range_are_taken_verbatim() {
    let cfg = resolve_config(
        Some("s".to_string()),
        Some("45".to_string()),
        Some("14".to_string()),
        None,
    )
    .unwrap();
    assert_eq!(cfg.access_ttl_minutes, 45);
    assert_eq!(cfg.refresh_ttl_days, 14);
}

#[test]
fn session_mode_resolves_from_its_marker() {
    let cfg = resolve_config(Some("s".to_string()), None, None, None).unwrap();
    assert_eq!(cfg.session_mode, SessionMode::Stateless);
    let cfg = resolve_config(
        Some("s".to_string()),
        None,
        None,
        Some("jwt_server_stateful".to_string()),
    )
    .unwrap();
    assert_eq!(cfg.session_mode, SessionMode::Stateful);
    let cfg = resolve_config(Some("s".to_string()), None, None, Some("anything".to_string()))
        .unwrap();
    assert_eq!(cfg.session_mode, SessionMode::Stateless);
}

#[test]
fn hash_round_trip_accepts_the_password() {
    let h = hash_password("correct horse").unwrap();
    assert!(verify_password("correct horse", &h));
}

#[test]
fn hash_rejects_a_different_password() {
    let h = hash_password("correct horse").unwrap();
    assert!(!verify_password("wrong horse", &h));
    assert!(!verify_password("", &h));
}

#[test]
fn two_hashes_of_one_password_differ_but_both_verify() {
    let h1 = hash_password("correct horse").unwrap();
    let h2 = hash_password("correct horse").unwrap();
    assert_ne!(h1, h2);
    assert!(verify_password("correct horse", &h1));
    assert!(verify_password("correct horse", &h2));
}

#[test]
fn malformed_stored_hash_denies_instead_of_crashing() {
    assert!(!verify_password("anything", "not-a-bcrypt-hash"));
    assert!(!verify_password("anything", ""));
}

#[test]
fn u64_renders_in_decimal() {
    assert_eq!(u64_to_string(0), "0");
    assert_eq!(u64_to_string(7), "7");
    assert_eq!(u64_to_string(1234567890), "1234567890");
    assert_eq!(u64_to_string(u64::MAX), "18446744073709551615");
}

#[test]
fn parse_accepts_plain_decimal_only() {
    assert_eq!(parse_u64("15"), Some(15));
    assert_eq!(parse_u64("0"), Some(0));
    assert_eq!(parse_u64("18446744073709551615"), Some(u64::MAX));
    assert_eq!(parse_u64(""), None);
    assert_eq!(parse_u64("+15"), None);
    assert_eq!(parse_u64("-15"), None);
    assert_eq!(parse_u64("15m"), None);
    assert_eq!(parse_u64("18446744073709551616"), None);
}

#[test]
fn parse_inverts_rendering() {
    for n in [0u64, 1, 9, 10, 12345, u64::MAX] {
        assert_eq!(parse_u64(&u64_to_string(n)), Some(n));
    }
}
