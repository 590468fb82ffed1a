//! Login, credential checking, and subject resolution with real bcrypt
//! and the real signer.

use catalog_core::auth::{
    resolve_token, user_id_from_claims, AuthService, LoginRequest, UserRecord,
};
use catalog_core::errors::{status_code, ApiError};
use catalog_core::password::{hash_password, verify_password};
use catalog_core::token::Claims;

const SECRET: &str = "unit-test-secret";

fn registered_user(id: i32, username: &str, password: &str) -> UserRecord {
    UserRecord {
        id,
        username: username.to_string(),
        password_hash: hash_password(password).unwrap(),
    }
}

#[test]
fn hashes_differ_but_both_verify() {
    // the salt makes two digests of one password different, yet both accept it
    let h1 = hash_password("hunter2!").unwrap();
    let h2 = hash_password("hunter2!").unwrap();
    assert_ne!(h1, h2);
    assert!(verify_password("hunter2!", &h1));
    assert!(verify_password("hunter2!", &h2));
    assert!(!verify_password("hunter3!", &h1));
}

#[test]
fn malformed_digest_fails_closed() {
    assert!(!verify_password("anything", ""));
    assert!(!verify_password("anything", "not-a-bcrypt-digest"));
}

#[test]
fn login_then_resolve_returns_registered_subject() {
    let user = registered_user(42, "alice", "correct horse");
    let service = AuthService::new(SECRET.to_string(), 3600);
    let request = LoginRequest {
        username: "alice".to_string(),
        password: "correct horse".to_string(),
    };
    let now: i64 = 1_000_000;
    let resp = service.login_at(Some(user), &request, now).unwrap();
    assert_eq!(resp.user.id, 42);
    assert_eq!(resp.user.username, "alice");
    assert_eq!(resolve_token(&resp.token, SECRET, now).unwrap(), 42);
}

#[test]
fn login_with_clock_resolves_too() {
    let user = registered_user(-3, "eve", "pass-word");
    let service = AuthService::new(SECRET.to_string(), 3600);
    let request = LoginRequest {
        username: "eve".to_string(),
        password: "pass-word".to_string(),
    };
    let resp = service.login(Some(user), &request).unwrap();
    let now = chrono::Utc::now().timestamp();
    assert_eq!(resolve_token(&resp.token, SECRET, now).unwrap(), -3);
}

#[test]
fn wrong_password_is_invalid_credentials() {
    // an existing username with the wrong password: InvalidCredentials / 401,
    // not a not-found and not a server error
    let user = registered_user(42, "alice", "correct horse");
    let service = AuthService::new(SECRET.to_string(), 3600);
    let request = LoginRequest {
        username: "alice".to_string(),
        password: "wrong horse".to_string(),
    };
    let err = service.login_at(Some(user), &request, 1_000_000).unwrap_err();
    assert_eq!(err, ApiError::InvalidCredentials);
    assert_eq!(status_code(&err), 401);
}

#[test]
fn unknown_username_is_the_same_error() {
    let service = AuthService::new(SECRET.to_string(), 3600);
    let request = LoginRequest {
        username: "nobody".to_string(),
        password: "whatever123".to_string(),
    };
    let err = service.login_at(None, &request, 1_000_000).unwrap_err();
    assert_eq!(err, ApiError::InvalidCredentials);
    assert_eq!(status_code(&err), 401);
}

#[test]
fn service_hash_password_verifies() {
    let service = AuthService::new(SECRET.to_string(), 3600);
    let digest = service.hash_password("s3cret-pw").unwrap();
    assert!(verify_password("s3cret-pw", &digest));
}

#[test]
fn login_request_shape_rules() {
    let ok = LoginRequest {
        username: "a".to_string(),
        password: "123456".to_string(),
    };
    assert!(ok.is_valid());
    let empty_name = LoginRequest {
        username: "".to_string(),
        password: "123456".to_string(),
    };
    assert!(!empty_name.is_valid());
    let short_password = LoginRequest {
        username: "a".to_string(),
        password: "12345".to_string(),
    };
    assert!(!short_password.is_valid());
}

#[test]
fn claims_subject_parsing() {
    let good = Claims {
        sub: "123".to_string(),
        username: "alice".to_string(),
        exp: 0,
    };
    assert_eq!(user_id_from_claims(&good).unwrap(), 123);
    let negative = Claims {
        sub: "-7".to_string(),
        username: "alice".to_string(),
        exp: 0,
    };
    assert_eq!(user_id_from_claims(&negative).unwrap(), -7);
    let bad = Claims {
        sub: "12x".to_string(),
        username: "alice".to_string(),
        exp: 0,
    };
    assert_eq!(user_id_from_claims(&bad).unwrap_err(), ApiError::Unauthorized);
    let huge = Claims {
        sub: "99999999999".to_string(),
        username: "alice".to_string(),
        exp: 0,
    };
    assert_eq!(user_id_from_claims(&huge).unwrap_err(), ApiError::Unauthorized);
}

#[test]
fn error_status_codes() {
    assert_eq!(status_code(&ApiError::InvalidCredentials), 401);
    assert_eq!(status_code(&ApiError::Unauthorized), 401);
    assert_eq!(status_code(&ApiError::NotFound), 404);
    assert_eq!(status_code(&ApiError::ValidationError), 400);
    assert_eq!(status_code(&ApiError::Conflict), 409);
    assert_eq!(status_code(&ApiError::InternalError), 500);
}
