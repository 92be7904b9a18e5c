//! End-to-end exercises of the authentication core: hashing, token issuance
//! and validation, the request guard, and the register/login flows against a
//! small in-memory stand-in for the persistence store.

use auth_core::flow::{
    client_message, http_status, login, register_commit, register_prepare, AuthError, Credential,
    InsertOutcome, NewAccount, StoredAccount,
};
use auth_core::guard::{extract_identity, unauthenticated_status, Unauthenticated};
use auth_core::password::{hash, verify};
use auth_core::token::{issue, validate, Rejection, DEFAULT_TTL_SECS};

fn secret_a() -> Vec<u8> {
    b"a-long-enough-signing-secret".to_vec()
}

fn secret_b() -> Vec<u8> {
    b"b-long-enough-signing-secret".to_vec()
}

fn store_insert(store: &mut Vec<StoredAccount>, row: NewAccount) -> InsertOutcome {
    if store.iter().any(|account| account.email == row.email) {
        InsertOutcome::DuplicateEmail
    } else {
        store.push(StoredAccount { email: row.email, password_hash: row.password_hash });
        InsertOutcome::Inserted
    }
}

fn store_fetch<'a>(store: &'a [StoredAccount], email: &str) -> Option<&'a StoredAccount> {
    store.iter().find(|account| account.email == email)
}

#[test]
fn hash_verifies_only_its_own_password() {
    let hashed = hash("p1").expect("hashing failed");
    assert!(verify("p1", &hashed));
    assert!(!verify("p2", &hashed));
    assert!(!verify("", &hashed));
    assert_ne!(hashed, "p1");
}

#[test]
fn hashes_are_salted_but_both_verify() {
    let first = hash("same password").expect("hashing failed");
    let second = hash("same password").expect("hashing failed");
    assert_ne!(first, second);
    assert!(verify("same password", &first));
    assert!(verify("same password", &second));
}

#[test]
fn verify_fails_closed_on_garbage_hash() {
    assert!(!verify("p1", "not an encoded hash"));
    assert!(!verify("p1", ""));
}

#[test]
fn issue_then_validate_inside_the_window() {
    let secret = secret_a();
    let token = issue("alice@x.com", 1_000_000, 3_600, &secret);
    assert!(!token.is_empty());
    let claims = validate(&token, &secret, 1_000_000).expect("fresh token must validate");
    assert_eq!(claims.sub, "alice@x.com");
    assert_eq!(claims.exp, 1_003_600);
    let late = validate(&token, &secret, 1_003_599).expect("still inside the window");
    assert_eq!(late.sub, "alice@x.com");
}

#[test]
fn validate_rejects_at_and_after_expiry() {
    let secret = secret_a();
    let token = issue("alice@x.com", 1_000_000, 3_600, &secret);
    assert_eq!(validate(&token, &secret, 1_003_600).unwrap_err(), Rejection::Expired);
    assert_eq!(validate(&token, &secret, 2_000_000).unwrap_err(), Rejection::Expired);
}

#[test]
fn wrong_secret_is_a_bad_signature() {
    let token = issue("alice@x.com", 1_000_000, 3_600, &secret_a());
    assert_eq!(validate(&token, &secret_b(), 1_000_000).unwrap_err(), Rejection::BadSignature);
}

#[test]
fn garbage_token_is_malformed() {
    let secret = secret_a();
    assert_eq!(validate("not-a-token", &secret, 0).unwrap_err(), Rejection::Malformed);
    assert_eq!(validate("", &secret, 0).unwrap_err(), Rejection::Malformed);
}

#[test]
fn missing_header_is_rejected_before_any_handler() {
    let outcome = extract_identity(None, &secret_a(), 1_000_000);
    let reason = outcome.unwrap_err();
    assert_eq!(reason, Unauthenticated::MissingCredential);
    assert_eq!(unauthenticated_status(&reason), 401);
}

#[test]
fn basic_scheme_is_rejected_as_malformed() {
    let outcome = extract_identity(Some("Basic xyz"), &secret_a(), 1_000_000);
    let reason = outcome.unwrap_err();
    assert_eq!(reason, Unauthenticated::MalformedCredential);
    assert_eq!(unauthenticated_status(&reason), 401);
}

#[test]
fn bearer_header_with_fresh_token_is_admitted() {
    let secret = secret_a();
    let token = issue("bob@x.com", 1_000_000, 3_600, &secret);
    let header = format!("Bearer {}", token);
    let identity =
        extract_identity(Some(&header), &secret, 1_000_000).expect("valid credential must pass");
    assert_eq!(identity.subject, "bob@x.com");
}

#[test]
fn expired_token_is_unauthorized() {
    let secret = secret_a();
    let token = issue("bob@x.com", 1_000_000, -1, &secret);
    let header = format!("Bearer {}", token);
    let reason = extract_identity(Some(&header), &secret, 1_000_000).unwrap_err();
    assert_eq!(reason, Unauthenticated::InvalidCredential);
    assert_eq!(unauthenticated_status(&reason), 401);
}

#[test]
fn register_then_login_round_trip() {
    let secret = secret_a();
    let mut store: Vec<StoredAccount> = Vec::new();
    let credential = Credential {
        name: "A".to_string(),
        email: "a@x.com".to_string(),
        password: "p1".to_string(),
    };
    let row = register_prepare(&credential).expect("hashing failed");
    assert_eq!(row.email, "a@x.com");
    assert_ne!(row.password_hash, "p1");
    assert_eq!(register_commit(store_insert(&mut store, row)), Ok(()));

    let token = login(store_fetch(&store, "a@x.com"), "p1", 1_000_000, DEFAULT_TTL_SECS, &secret)
        .expect("login with the registered password must succeed");
    assert!(!token.is_empty());
    let claims = validate(&token, &secret, 1_000_000).expect("issued token must validate");
    assert_eq!(claims.sub, "a@x.com");
    assert_eq!(claims.exp, 1_000_000 + 28_800);
}

#[test]
fn login_does_not_reveal_whether_the_email_exists() {
    let secret = secret_a();
    let mut store: Vec<StoredAccount> = Vec::new();
    let credential = Credential {
        name: "A".to_string(),
        email: "a@x.com".to_string(),
        password: "p1".to_string(),
    };
    let row = register_prepare(&credential).expect("hashing failed");
    assert_eq!(register_commit(store_insert(&mut store, row)), Ok(()));

    let wrong_password =
        login(store_fetch(&store, "a@x.com"), "wrong", 1_000_000, DEFAULT_TTL_SECS, &secret)
            .unwrap_err();
    let unknown_email =
        login(store_fetch(&store, "b@x.com"), "p1", 1_000_000, DEFAULT_TTL_SECS, &secret)
            .unwrap_err();
    assert_eq!(wrong_password, AuthError::InvalidCredentials);
    assert_eq!(wrong_password, unknown_email);
    assert_eq!(client_message(&wrong_password), client_message(&unknown_email));
    assert_eq!(client_message(&wrong_password), "Invalid email or password");
    assert_eq!(http_status(&wrong_password), 401);
}

#[test]
fn duplicate_registration_fails_and_the_first_stays_intact() {
    let secret = secret_a();
    let mut store: Vec<StoredAccount> = Vec::new();
    let first = Credential {
        name: "A".to_string(),
        email: "a@x.com".to_string(),
        password: "p1".to_string(),
    };
    let row = register_prepare(&first).expect("hashing failed");
    assert_eq!(register_commit(store_insert(&mut store, row)), Ok(()));

    let second = Credential {
        name: "B".to_string(),
        email: "a@x.com".to_string(),
        password: "p2".to_string(),
    };
    let row2 = register_prepare(&second).expect("hashing failed");
    let outcome = store_insert(&mut store, row2);
    assert_eq!(outcome, InsertOutcome::DuplicateEmail);
    let err = register_commit(outcome).unwrap_err();
    assert_eq!(err, AuthError::DuplicateAccount);
    assert_eq!(http_status(&err), 409);

    assert_eq!(store.len(), 1);
    let token = login(store_fetch(&store, "a@x.com"), "p1", 1_000_000, DEFAULT_TTL_SECS, &secret)
        .expect("the first registration still logs in");
    assert!(!token.is_empty());
}

#[test]
fn store_failures_surface_as_opaque_categories() {
    assert_eq!(register_commit(InsertOutcome::StoreFailure), Err(AuthError::PersistenceFailure));
    assert_eq!(http_status(&AuthError::PersistenceFailure), 500);
    assert_eq!(client_message(&AuthError::PersistenceFailure), "Internal server error");
    assert_eq!(http_status(&AuthError::HashingFailed), 500);
    assert_eq!(client_message(&AuthError::HashingFailed), "Error hashing the password");
}
