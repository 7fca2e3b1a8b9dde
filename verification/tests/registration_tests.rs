use account_core::error::AuthError;
use account_core::flows::{create_user, register_account};
use account_core::hashing::verify_password;
use account_core::request::CreateUserRequest;
use account_core::store::{AccountStore, StorageFaults};

fn req(email: &str) -> CreateUserRequest {
    CreateUserRequest {
        email: email.to_string(),
        password: "longenough".to_string(),
        first_name: "A".to_string(),
        last_name: "B".to_string(),
    }
}

#[test]
fn register_then_lookup_finds_account_and_profile() {
    let mut store = AccountStore::new();
    let id = create_user(&mut store, &req("a@b.com")).unwrap();
    assert!(id != 0);
    let account = store.find_by_email(&"a@b.com".to_string()).unwrap();
    assert_eq!(account.id, id);
    assert_eq!(account.email, "a@b.com");
    assert!(verify_password("longenough", &account.password_hash));
    assert!(account.password_hash != "longenough");
    assert_eq!(account.password_hash.len(), 60);
    assert!(account.password_hash.starts_with("$2b$12$"));
    assert!(!account.password_hash.contains("longenough"));
    let profile = store.find_profile(id).unwrap();
    assert_eq!(profile.account_id, id);
    assert_eq!(profile.first_name, "A");
    assert_eq!(profile.last_name, "B");
}

#[test]
fn duplicate_email_conflicts_and_adds_nothing() {
    let mut store = AccountStore::new();
    create_user(&mut store, &req("a@b.com")).unwrap();
    let accounts_before = store.accounts.len();
    let profiles_before = store.profiles.len();
    let r = create_user(&mut store, &req("a@b.com"));
    match r {
        Err(AuthError::Conflict) => {}
        other => panic!("expected a conflict, got {:?}", other),
    }
    let e = r.unwrap_err();
    assert_eq!(e.code(), "user_exists");
    assert_eq!(e.http_status(), 400);
    assert_eq!(store.accounts.len(), accounts_before);
    assert_eq!(store.profiles.len(), profiles_before);
}

#[test]
fn distinct_emails_register_independently() {
    let mut store = AccountStore::new();
    let id1 = create_user(&mut store, &req("a@b.com")).unwrap();
    let id2 = create_user(&mut store, &req("c@d.com")).unwrap();
    assert!(id1 != id2);
    assert_eq!(store.accounts.len(), 2);
    assert_eq!(store.profiles.len(), 2);
}

#[test]
fn profile_insert_failure_rolls_the_account_back() {
    let mut store = AccountStore::new();
    let faults = StorageFaults {
        query_fails: false,
        begin_fails: false,
        account_insert_fails: false,
        profile_insert_fails: true,
    };
    let r = register_account(&mut store, &req("a@b.com"), 1_700_000_000, faults);
    let e = r.unwrap_err();
    assert_eq!(e.code(), "insert_failed");
    assert_eq!(store.accounts.len(), 0);
    assert_eq!(store.profiles.len(), 0);
    assert!(store.find_by_email(&"a@b.com".to_string()).is_none());
}

#[test]
fn begin_failure_reports_db_error_and_changes_nothing() {
    let mut store = AccountStore::new();
    let faults = StorageFaults {
        query_fails: false,
        begin_fails: true,
        account_insert_fails: false,
        profile_insert_fails: false,
    };
    let e = register_account(&mut store, &req("a@b.com"), 0, faults).unwrap_err();
    assert_eq!(e.code(), "db_error");
    assert_eq!(e.message(), "Failed to start transaction");
    assert_eq!(store.accounts.len(), 0);
}

#[test]
fn account_insert_failure_reports_insert_failed_and_changes_nothing() {
    let mut store = AccountStore::new();
    let faults = StorageFaults {
        query_fails: false,
        begin_fails: false,
        account_insert_fails: true,
        profile_insert_fails: false,
    };
    let e = register_account(&mut store, &req("a@b.com"), 0, faults).unwrap_err();
    assert_eq!(e.code(), "insert_failed");
    assert_eq!(e.message(), "Failed to create user");
    assert_eq!(store.accounts.len(), 0);
}

#[test]
fn repeated_attempts_with_one_email_succeed_exactly_once() {
    let mut store = AccountStore::new();
    let mut successes = 0;
    let mut conflicts = 0;
    for _ in 0..5 {
        match create_user(&mut store, &req("a@b.com")) {
            Ok(_) => successes += 1,
            Err(AuthError::Conflict) => conflicts += 1,
            other => panic!("unexpected outcome {:?}", other),
        }
    }
    assert_eq!(successes, 1);
    assert_eq!(conflicts, 4);
    assert_eq!(store.accounts.len(), 1);
    assert_eq!(store.profiles.len(), 1);
}

#[test]
fn invalid_registration_reports_validation_error_and_stores_nothing() {
    let mut store = AccountStore::new();
    let bad = CreateUserRequest {
        email: "a@b.com".to_string(),
        password: "short".to_string(),
        first_name: "A".to_string(),
        last_name: "B".to_string(),
    };
    let e = create_user(&mut store, &bad).unwrap_err();
    assert_eq!(e.code(), "validation_error");
    assert_eq!(e.message(), "Validation failed");
    assert_eq!(e.http_status(), 422);
    match e {
        AuthError::ValidationFailed(errs) => {
            assert_eq!(errs.len(), 1);
            assert_eq!(errs[0].field, "password");
        }
        other => panic!("expected validation detail, got {:?}", other),
    }
    assert_eq!(store.accounts.len(), 0);
}

#[test]
fn registration_stamps_the_given_creation_time() {
    let mut store = AccountStore::new();
    let id = register_account(&mut store, &req("a@b.com"), 1_700_000_000, StorageFaults::none())
        .unwrap();
    let account = store.find_by_email(&"a@b.com".to_string()).unwrap();
    assert_eq!(account.id, id);
    assert_eq!(account.created_at, 1_700_000_000);
}

#[test]
fn lookup_failure_reports_db_error_and_changes_nothing() {
    let mut store = AccountStore::new();
    let faults = StorageFaults {
        query_fails: true,
        begin_fails: false,
        account_insert_fails: false,
        profile_insert_fails: false,
    };
    let e = register_account(&mut store, &req("a@b.com"), 0, faults).unwrap_err();
    assert_eq!(e.code(), "db_error");
    assert_eq!(e.message(), "Database error");
    assert_eq!(store.accounts.len(), 0);
}
