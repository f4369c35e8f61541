//! The token service and the password hasher against the real crates.

use ticketstore::errors::ErrorKind;
use ticketstore::hashing::{argon_hash, argon_verify};
use ticketstore::jwt::{create_jwt, is_valid, TokenService, TOKEN_VALIDITY_SECS};

fn service() -> TokenService {
    TokenService::new(b"test-signing-secret".to_vec()).unwrap()
}

#[test]
fn empty_secret_is_rejected() {
    let err = TokenService::new(Vec::new()).unwrap_err();
    assert_eq!(err.kind, ErrorKind::InternalError);
}

#[test]
fn issued_token_carries_window_claims() {
    let ts = service();
    let token = ts.issue_at(1_000).unwrap();
    let claims = ts.validate_at(&token, 1_001).unwrap();
    assert_eq!(claims.iat, 1_000);
    assert_eq!(claims.exp, 1_000 + TOKEN_VALIDITY_SECS);
}

#[test]
fn validation_succeeds_strictly_inside_window() {
    // the token validates exactly while now < issued-at + window, and
    // past that the failure is Expired specifically.
    let ts = service();
    let token = ts.issue_at(1_000).unwrap();
    assert!(ts.validate_at(&token, 1_000).is_ok());
    assert!(ts.validate_at(&token, 1_000 + TOKEN_VALIDITY_SECS - 1).is_ok());
    let err = ts.validate_at(&token, 1_000 + TOKEN_VALIDITY_SECS).unwrap_err();
    assert_eq!(err.kind, ErrorKind::Expired);
    let err = ts.validate_at(&token, u64::MAX).unwrap_err();
    assert_eq!(err.kind, ErrorKind::Expired);
}

#[test]
fn garbage_token_is_malformed_not_expired() {
    let ts = service();
    let err = ts.validate_at("not-a-token", 1_000).unwrap_err();
    assert_eq!(err.kind, ErrorKind::Malformed);
    let err = ts.validate_at("", 1_000).unwrap_err();
    assert_eq!(err.kind, ErrorKind::Malformed);
}

#[test]
fn tampered_token_is_malformed() {
    let ts = service();
    let token = ts.issue_at(1_000).unwrap();
    let mut tampered = token.clone();
    tampered.pop();
    let err = ts.validate_at(&tampered, 1_001).unwrap_err();
    assert_eq!(err.kind, ErrorKind::Malformed);
}

#[test]
fn token_from_other_secret_is_malformed() {
    // the signature must match the service's own secret.
    let ts = service();
    let other = TokenService::new(b"another-secret".to_vec()).unwrap();
    let token = other.issue_at(1_000).unwrap();
    let err = ts.validate_at(&token, 1_001).unwrap_err();
    assert_eq!(err.kind, ErrorKind::Malformed);
}

#[test]
fn free_functions_agree_with_the_service() {
    let ts = service();
    let token = create_jwt(&ts, 5_000).unwrap();
    assert!(is_valid(&ts, &token, 5_001).unwrap());
    let err = is_valid(&ts, &token, 5_000 + TOKEN_VALIDITY_SECS).unwrap_err();
    assert_eq!(err.kind, ErrorKind::Expired);
}

#[test]
fn tokens_of_different_seconds_differ() {
    let ts = service();
    let t1 = ts.issue_at(1_000).unwrap();
    let t2 = ts.issue_at(1_001).unwrap();
    assert_ne!(t1, t2);
}

#[test]
fn hash_then_verify_accepts_the_password() {
    let hash = argon_hash("secret").unwrap();
    assert!(argon_verify("secret", &hash).unwrap());
    // the hash is a fresh PHC string, not an echo of the input
    assert_ne!(hash, "secret");
    assert!(hash.starts_with("$argon2"));
}

#[test]
fn verify_rejects_other_passwords() {
    let hash = argon_hash("p1").unwrap();
    let err = argon_verify("p2", &hash).unwrap_err();
    assert_eq!(err.kind, ErrorKind::InvalidCredential);
    assert_eq!(err.status_code(), 401);
}

#[test]
fn two_hashes_of_one_password_differ() {
    // the salt is fresh per call, so equal passwords never hash to
    // equal strings, yet both verify.
    let h1 = argon_hash("secret").unwrap();
    let h2 = argon_hash("secret").unwrap();
    assert_ne!(h1, h2);
    assert!(argon_verify("secret", &h1).unwrap());
    assert!(argon_verify("secret", &h2).unwrap());
}

#[test]
fn malformed_stored_hash_is_internal_error() {
    // an unreadable stored hash is an internal fault, distinct in kind
    // from a credential mismatch, though both reject.
    let err = argon_verify("secret", "not-a-phc-string").unwrap_err();
    assert_eq!(err.kind, ErrorKind::InternalError);
    assert_eq!(err.status_code(), 500);
}
