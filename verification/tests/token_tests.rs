use drawtest::errors::Error;
use drawtest::token::{issue, verify_token, TOKEN_LIFETIME_SECS};

const SECRET: &str = "a-test-signing-secret";

#[test]
fn issued_token_carries_subject_and_window() {
    let subject: u128 = 0x1234_5678_9abc_def0_1122_3344_5566_7788;
    let t0: usize = 1_700_000_000;
    let token = issue(SECRET, subject, t0);
    let claims = verify_token(SECRET, &token, t0).expect("fresh token must verify");
    assert_eq!(claims.iat, t0);
    assert_eq!(claims.exp, t0 + TOKEN_LIFETIME_SECS);
    assert_eq!(claims.sub, uuid::Uuid::from_u128(subject).to_string());
}

#[test]
fn token_verifies_strictly_before_expiry() {
    let t0: usize = 1_700_000_000;
    let token = issue(SECRET, 42, t0);
    assert!(verify_token(SECRET, &token, t0).is_ok());
    assert!(verify_token(SECRET, &token, t0 + 3599).is_ok());
}

#[test]
fn token_fails_from_expiry_on() {
    let t0: usize = 1_700_000_000;
    let token = issue(SECRET, 42, t0);
    let at_exp = verify_token(SECRET, &token, t0 + 3600);
    assert!(matches!(at_exp, Err(Error::Authorization(ref m)) if m == "Invalid token"));
    let later = verify_token(SECRET, &token, t0 + 50_000);
    assert!(later.is_err());
}

#[test]
fn token_signed_with_other_secret_fails() {
    let t0: usize = 1_700_000_000;
    let token = issue("another-secret", 42, t0);
    let r = verify_token(SECRET, &token, t0);
    assert!(matches!(r, Err(Error::Authorization(ref m)) if m == "Invalid token"));
}

#[test]
fn garbage_token_fails_uniformly() {
    let r = verify_token(SECRET, "not.a.token", 1_700_000_000);
    assert!(matches!(r, Err(Error::Authorization(ref m)) if m == "Invalid token"));
    let r2 = verify_token(SECRET, "", 1_700_000_000);
    assert!(r2.is_err());
}

#[test]
fn tampered_payload_fails() {
    let t0: usize = 1_700_000_000;
    let token = issue(SECRET, 42, t0);
    let mut parts: Vec<&str> = token.split('.').collect();
    assert_eq!(parts.len(), 3);
    let other = issue(SECRET, 43, t0);
    let other_parts: Vec<&str> = other.split('.').collect();
    parts[1] = other_parts[1];
    let forged = parts.join(".");
    assert!(verify_token(SECRET, &forged, t0).is_err());
}
