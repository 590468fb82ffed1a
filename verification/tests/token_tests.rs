//! Token issuance and resolution against the real signer.

use catalog_core::auth::{authorize_request, resolve_token};
use catalog_core::errors::ApiError;
use catalog_core::token::{generate_jwt, generate_jwt_at, verify_jwt, verify_jwt_at};

const SECRET: &str = "test-signing-secret";

#[test]
fn issued_token_verifies_with_exact_claims() {
    let token = generate_jwt_at("42", "alice", SECRET, 3600, 1_000_000).unwrap();
    let claims = verify_jwt_at(&token, SECRET, 1_000_000).unwrap();
    assert_eq!(claims.sub, "42");
    assert_eq!(claims.username, "alice");
    assert_eq!(claims.exp, 1_000_000 + 3600);
}

#[test]
fn token_expiry_boundaries() {
    // a token with ttl T verifies at now + T - 1 and fails at now + T + 1
    let now: i64 = 1_000_000;
    let ttl: i64 = 600;
    let token = generate_jwt_at("7", "bob", SECRET, ttl, now).unwrap();
    assert!(verify_jwt_at(&token, SECRET, now + ttl - 1).is_ok());
    // the expiry instant itself is still accepted: rejection needs now > exp
    assert!(verify_jwt_at(&token, SECRET, now + ttl).is_ok());
    let late = verify_jwt_at(&token, SECRET, now + ttl + 1);
    assert_eq!(late.unwrap_err(), ApiError::Unauthorized);
    assert_eq!(
        resolve_token(&token, SECRET, now + ttl + 1).unwrap_err(),
        ApiError::Unauthorized
    );
    assert_eq!(resolve_token(&token, SECRET, now + ttl - 1).unwrap(), 7);
}

#[test]
fn tampering_signature_rejects_token() {
    let now: i64 = 1_000_000;
    let token = generate_jwt_at("42", "alice", SECRET, 3600, now).unwrap();
    let dot = token.rfind('.').unwrap();
    let (head, sig) = token.split_at(dot + 1);
    assert!(!sig.is_empty());
    // flip every character of the signature segment, one at a time
    for i in 0..sig.len() {
        let mut bytes = sig.as_bytes().to_vec();
        bytes[i] = if bytes[i] == b'A' { b'B' } else { b'A' };
        let tampered_sig = String::from_utf8(bytes).unwrap();
        if tampered_sig == sig {
            continue;
        }
        let tampered = format!("{}{}", head, tampered_sig);
        assert!(
            verify_jwt_at(&tampered, SECRET, now).is_err(),
            "tampered signature accepted at position {}",
            i
        );
    }
}

#[test]
fn wrong_secret_rejects_token() {
    let token = generate_jwt_at("42", "alice", SECRET, 3600, 1_000_000).unwrap();
    assert!(verify_jwt_at(&token, "another-secret", 1_000_000).is_err());
}

#[test]
fn malformed_tokens_reject() {
    assert!(verify_jwt_at("", SECRET, 0).is_err());
    assert!(verify_jwt_at("not-a-token", SECRET, 0).is_err());
    assert!(verify_jwt_at("a.b.c", SECRET, 0).is_err());
}

#[test]
fn clock_based_issue_and_verify_round_trip() {
    let token = generate_jwt("9", "carol", SECRET, 3600).unwrap();
    let claims = verify_jwt(&token, SECRET).unwrap();
    assert_eq!(claims.sub, "9");
    assert_eq!(claims.username, "carol");
}

#[test]
fn non_positive_ttl_is_a_configuration_fault() {
    assert_eq!(
        generate_jwt("9", "carol", SECRET, 0).unwrap_err(),
        ApiError::InternalError
    );
    assert_eq!(
        generate_jwt("9", "carol", SECRET, -5).unwrap_err(),
        ApiError::InternalError
    );
}

#[test]
fn missing_authorization_header_rejects_before_anything_else() {
    // a protected request with no Authorization header is a 401, full stop
    let r = authorize_request(None, SECRET, 1_000_000);
    assert_eq!(r.unwrap_err(), ApiError::Unauthorized);
    assert_eq!(
        catalog_core::errors::status_code(&ApiError::Unauthorized),
        401
    );
}

#[test]
fn bearer_header_resolves_to_subject() {
    let now: i64 = 1_000_000;
    let token = generate_jwt_at("31", "dave", SECRET, 3600, now).unwrap();
    let header = format!("Bearer {}", token);
    assert_eq!(authorize_request(Some(&header), SECRET, now).unwrap(), 31);
    // a non-bearer scheme carries no token
    let basic = format!("Basic {}", token);
    assert!(authorize_request(Some(&basic), SECRET, now).is_err());
    // the bare token without the scheme is rejected too
    assert!(authorize_request(Some(&token), SECRET, now).is_err());
}

#[test]
fn non_numeric_subject_is_unauthorized() {
    let now: i64 = 1_000_000;
    let token = generate_jwt_at("alice", "alice", SECRET, 3600, now).unwrap();
    assert_eq!(
        resolve_token(&token, SECRET, now).unwrap_err(),
        ApiError::Unauthorized
    );
}
