//! The token codec: issuing and checking the signed, time-limited identity
//! claim that authenticates every protected request. Signing and signature
//! checking are done by `jsonwebtoken` behind trusted wrappers; what the
//! token carries, and when it is accepted, is stated and proved here.
//! Expiry is checked in verified code against an explicit clock reading, so
//! the outcome of the signature check is a function of the token and the
//! secret alone.

use vstd::prelude::*;
use crate::errors::ApiError;

verus! {

/// The decoded payload of a token: the subject (a user id as a decimal
/// string), the subject's username, and the expiry as unix seconds.
#[derive(Clone, Debug)]
pub struct Claims {
    pub sub: String,
    pub username: String,
    pub exp: u64,
}

/// What a token decodes to under a given secret: `None` when the token is
/// malformed or its signature does not match the secret, otherwise the
/// `(subject, username, expiry)` triple it carries. Signature checking is
/// deterministic, so this is a function of the token and the secret.
pub uninterp spec fn jwt_claims_of(token: Seq<char>, secret: Seq<char>) -> Option<
    (Seq<char>, Seq<char>, u64),
>;

/// Relies on `jsonwebtoken::encode` with `Header::default()` (HS256) and a
/// key from `EncodingKey::from_secret`: the token it returns carries
/// exactly the claims given, and `jsonwebtoken::decode` under the same
/// secret yields them back. Encoding always succeeds: the HMAC signer
/// accepts a secret of any length and never fails to sign, and serializing
/// a JSON object of two strings and an integer cannot fail.
#[verifier::external_body]
fn jwt_encode(sub: &str, username: &str, exp: u64, secret: &str) -> (r: Option<String>)
    ensures
        r is Some,
        r matches Some(t) ==> jwt_claims_of(t@, secret@) == Some((sub@, username@, exp)),
{
    let mut claims = serde_json::Map::new();
    claims.insert("sub".to_string(), serde_json::Value::from(sub));
    claims.insert("username".to_string(), serde_json::Value::from(username));
    claims.insert("exp".to_string(), serde_json::Value::from(exp));
    let key = jsonwebtoken::EncodingKey::from_secret(secret.as_bytes());
    jsonwebtoken::encode(&jsonwebtoken::Header::default(), &serde_json::Value::Object(claims), &key)
        .ok()
}

/// Relies on `jsonwebtoken::decode` over `serde_json::Value` with HS256
/// and signature checking only: expiry is left to the caller, so the
/// outcome depends on the token and the secret alone. A malformed token, a
/// wrong or tampered signature, or a payload without the three expected
/// fields all yield `None`, and so does a payload that carries an `aud`
/// claim, since no expected audience is configured.
#[verifier::external_body]
fn jwt_decode(token: &str, secret: &str) -> (r: Option<Claims>)
    ensures
        match r {
            Some(c) => jwt_claims_of(token@, secret@) == Some((c.sub@, c.username@, c.exp)),
            None => jwt_claims_of(token@, secret@) is None,
        },
{
    let mut validation = jsonwebtoken::Validation::new(jsonwebtoken::Algorithm::HS256);
    validation.validate_exp = false;
    validation.required_spec_claims.clear();
    let key = jsonwebtoken::DecodingKey::from_secret(secret.as_bytes());
    let c = jsonwebtoken::decode::<serde_json::Value>(token, &key, &validation).ok()?.claims;
    let sub = c.get("sub")?.as_str()?.to_string();
    let username = c.get("username")?.as_str()?.to_string();
    Some(Claims { sub, username, exp: c.get("exp")?.as_u64()? })
}

/// Relies on `chrono::Utc::now().timestamp()` for the current unix time in
/// seconds.
#[verifier::external_body]
pub(crate) fn current_timestamp() -> i64 {
    chrono::Utc::now().timestamp()
}

/// Issues a token over the given subject and username that expires exactly
/// `expiration` seconds after `now`. Signing cannot fail, so issuance is
/// owed on every admitted input.
pub fn generate_jwt_at(
    user_id: &str,
    username: &str,
    secret: &str,
    expiration: i64,
    now: i64,
) -> (r: Result<String, ApiError>)
    requires
        now >= 0,
        expiration >= 1,
        now + expiration <= i64::MAX,
    ensures
        r is Ok,
        r matches Ok(t) ==> jwt_claims_of(t@, secret@) == Some(
            (user_id@, username@, (now + expiration) as u64),
        ),
{
    let exp: u64 = (now + expiration) as u64;
    match jwt_encode(user_id, username, exp, secret) {
        Some(t) => Ok(t),
        None => Err(ApiError::InternalError),
    }
}

/// Issues a token expiring `expiration` seconds from the current clock
/// reading. A non-positive time-to-live would issue an already-dead token,
/// so it is reported as a configuration fault instead.
pub fn generate_jwt(user_id: &str, username: &str, secret: &str, expiration: i64) -> (r: Result<
    String,
    ApiError,
>)
    ensures
        r matches Ok(t) ==> exists|e: u64|
            jwt_claims_of(t@, secret@) == Some((user_id@, username@, e)),
        r matches Err(e) ==> e == ApiError::InternalError,
{
    let now: i64 = current_timestamp();
    if expiration < 1 || now < 0 || now > i64::MAX - expiration {
        return Err(ApiError::InternalError);
    }
    let r = generate_jwt_at(user_id, username, secret, expiration, now);
    proof {
        if r is Ok {
            assert(jwt_claims_of(r->Ok_0@, secret@) == Some(
                (user_id@, username@, (now + expiration) as u64),
            ));
        }
    }
    r
}

/// Whether a token is accepted at time `now` under `secret`, and what it
/// resolves to: the claims it carries, provided the signature matches and
/// `now` is not past the expiry.
pub open spec fn spec_verify_jwt(token: Seq<char>, secret: Seq<char>, now: i64) -> Result<
    (Seq<char>, Seq<char>, u64),
    ApiError,
> {
    match jwt_claims_of(token, secret) {
        None => Err(ApiError::Unauthorized),
        Some((sub, username, exp)) => if now > exp {
            Err(ApiError::Unauthorized)
        } else {
            Ok((sub, username, exp))
        },
    }
}

/// Checks a token against the secret and an explicit clock reading:
/// accepted exactly when the signature matches and `now <= exp`.
pub fn verify_jwt_at(token: &str, secret: &str, now: i64) -> (r: Result<Claims, ApiError>)
    ensures
        match r {
            Ok(c) => spec_verify_jwt(token@, secret@, now) == Ok::<_, ApiError>(
                (c.sub@, c.username@, c.exp),
            ),
            Err(e) => spec_verify_jwt(token@, secret@, now) matches Err(e2) && e == e2,
        },
{
    match jwt_decode(token, secret) {
        None => Err(ApiError::Unauthorized),
        Some(c) => {
            if now >= 0 && c.exp < now as u64 {
                Err(ApiError::Unauthorized)
            } else {
                Ok(c)
            }
        },
    }
}

/// Checks a token against the secret at the current clock reading. A token
/// whose signature does not match the secret is rejected whatever the
/// time.
pub fn verify_jwt(token: &str, secret: &str) -> (r: Result<Claims, ApiError>)
    ensures
        r matches Ok(c) ==> jwt_claims_of(token@, secret@) == Some((c.sub@, c.username@, c.exp)),
        r matches Err(e) ==> e == ApiError::Unauthorized,
        jwt_claims_of(token@, secret@) is None ==> r is Err,
{
    let now: i64 = current_timestamp();
    verify_jwt_at(token, secret, now)
}

} // verus!
