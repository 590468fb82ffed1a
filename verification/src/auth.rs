//! The auth service: login (credential check, then token issuance) and the
//! per-request resolution of a bearer token into a validated subject id.
//! The user-account store is an external collaborator; its lookup result is
//! handed in as a plain value, and everything decided from it is verified.

use vstd::prelude::*;
use crate::decimal;
use crate::errors::ApiError;
use crate::password;
use crate::token;
use crate::token::jwt_claims_of;

verus! {

/// A stored credential as the user-account store hands it over: the
/// plaintext password is never stored, only its salted digest.
#[derive(Clone, Debug)]
pub struct UserRecord {
    pub id: i32,
    pub username: String,
    pub password_hash: String,
}

/// A login attempt as it arrives from the client.
#[derive(Clone, Debug)]
pub struct LoginRequest {
    pub username: String,
    pub password: String,
}

/// The public-safe identity summary returned on login: no password fields.
#[derive(Clone, Debug)]
pub struct UserResponse {
    pub id: i32,
    pub username: String,
}

/// A successful login: the signed token and the identity it names.
#[derive(Clone, Debug)]
pub struct LoginResponse {
    pub token: String,
    pub user: UserResponse,
}

impl LoginRequest {
    /// The request-shape check applied before the core runs: a nonempty
    /// username and a password of at least six characters.
    pub fn is_valid(&self) -> (r: bool)
        ensures
            r == (self.username@.len() >= 1 && self.password@.len() >= 6),
    {
        self.username.as_str().unicode_len() >= 1 && self.password.as_str().unicode_len() >= 6
    }
}

/// Orchestrates credential verification and token issuance. It holds only
/// the signing secret and the token time-to-live, handed in once at
/// construction; the user store stays outside.
#[derive(Clone, Debug)]
pub struct AuthService {
    pub jwt_secret: String,
    pub jwt_expiration: i64,
}

/// Whether a login attempt fails the credential check: the username is
/// unknown, or the stored digest does not accept the password. The two
/// cases share one error class on purpose.
pub open spec fn spec_bad_credentials(user: Option<UserRecord>, password: Seq<char>) -> bool {
    match user {
        None => true,
        Some(u) => !password::bcrypt_accepts(password, u.password_hash@),
    }
}

impl AuthService {
    /// Builds the service around a signing secret and a token time-to-live
    /// in seconds.
    pub fn new(jwt_secret: String, jwt_expiration: i64) -> (r: AuthService)
        ensures
            r.jwt_secret == jwt_secret,
            r.jwt_expiration == jwt_expiration,
    {
        AuthService { jwt_secret, jwt_expiration }
    }

    /// Login against the credential the store found (or did not find) for
    /// the requested username, issuing a token that expires exactly
    /// `jwt_expiration` seconds after `now`. Accepted credentials are owed
    /// a token: signing cannot fail. An unknown username and a wrong
    /// password yield the same `InvalidCredentials`.
    pub fn login_at(&self, user: Option<UserRecord>, request: &LoginRequest, now: i64) -> (r:
        Result<LoginResponse, ApiError>)
        requires
            now >= 0,
            self.jwt_expiration >= 1,
            now + self.jwt_expiration <= i64::MAX,
        ensures
            r is Ok <==> !spec_bad_credentials(user, request.password@),
            r is Err ==> r == Err::<LoginResponse, ApiError>(ApiError::InvalidCredentials),
            r matches Ok(resp) ==> user matches Some(u) && resp.user.id == u.id
                && resp.user.username == u.username && jwt_claims_of(
                resp.token@,
                self.jwt_secret@,
            ) == Some(
                (
                    decimal::spec_dec(u.id as int),
                    u.username@,
                    (now + self.jwt_expiration) as u64,
                ),
            ),
    {
        match user {
            None => Err(ApiError::InvalidCredentials),
            Some(u) => {
                if !password::verify_password(&request.password, &u.password_hash) {
                    Err(ApiError::InvalidCredentials)
                } else {
                    let sub = decimal::i32_to_decimal(u.id);
                    match token::generate_jwt_at(
                        &sub,
                        &u.username,
                        &self.jwt_secret,
                        self.jwt_expiration,
                        now,
                    ) {
                        Ok(t) => Ok(
                            LoginResponse {
                                token: t,
                                user: UserResponse { id: u.id, username: u.username },
                            },
                        ),
                        Err(_) => Err(ApiError::InternalError),
                    }
                }
            },
        }
    }

    /// Login at the current clock reading: `login_at` at the time the
    /// clock reports. The token's exact expiry depends on the clock. When
    /// the clock reading or the configured time-to-live cannot make a
    /// valid expiry, the credential check still runs first, so the error
    /// classes stay indistinguishable.
    pub fn login(&self, user: Option<UserRecord>, request: &LoginRequest) -> (r: Result<
        LoginResponse,
        ApiError,
    >)
        ensures
            spec_bad_credentials(user, request.password@) <==> r == Err::<
                LoginResponse,
                ApiError,
            >(ApiError::InvalidCredentials),
            r matches Ok(resp) ==> user matches Some(u) && resp.user.id == u.id
                && resp.user.username == u.username && (exists|e: u64|
                jwt_claims_of(resp.token@, self.jwt_secret@) == Some(
                    (decimal::spec_dec(u.id as int), u.username@, e),
                )),
            r matches Err(e) ==> (e == ApiError::InvalidCredentials || e
                == ApiError::InternalError),
    {
        let now: i64 = token::current_timestamp();
        if now >= 0 && self.jwt_expiration >= 1 && now <= i64::MAX - self.jwt_expiration {
            let r = self.login_at(user, request, now);
            proof {
                if r is Ok {
                    let u = user->Some_0;
                    assert(jwt_claims_of(r->Ok_0.token@, self.jwt_secret@) == Some(
                        (
                            decimal::spec_dec(u.id as int),
                            u.username@,
                            (now + self.jwt_expiration) as u64,
                        ),
                    ));
                }
            }
            return r;
        }
        match user {
            None => Err(ApiError::InvalidCredentials),
            Some(u) => {
                if !password::verify_password(&request.password, &u.password_hash) {
                    Err(ApiError::InvalidCredentials)
                } else {
                    Err(ApiError::InternalError)
                }
            },
        }
    }

    /// Salted one-way digest of a password, for account provisioning.
    pub fn hash_password(&self, password: &str) -> (r: Result<String, ApiError>)
        ensures
            r matches Ok(d) ==> password::bcrypt_accepts(password@, d@),
            r matches Err(e) ==> e == ApiError::InternalError,
    {
        password::hash_password(password)
    }
}

/// What a token resolves to at time `now`: the subject id it carries,
/// parsed into the store's native key type, or `Unauthorized` when the
/// token is malformed, tampered, expired, or its subject is not a decimal
/// id in range.
pub open spec fn spec_resolve(token: Seq<char>, secret: Seq<char>, now: i64) -> Result<
    i32,
    ApiError,
> {
    match token::spec_verify_jwt(token, secret, now) {
        Err(e) => Err(e),
        Ok((sub, username, exp)) => match decimal::spec_parse_int(sub) {
            Some(v) => if i32::MIN <= v <= i32::MAX {
                Ok(v as i32)
            } else {
                Err(ApiError::Unauthorized)
            },
            None => Err(ApiError::Unauthorized),
        },
    }
}

/// Resolves a bearer token into a validated subject id at an explicit
/// clock reading. This is what the authentication boundary calls before
/// any downstream handler runs; downstream code sees only the id.
pub fn resolve_token(token: &str, secret: &str, now: i64) -> (r: Result<i32, ApiError>)
    ensures
        r == spec_resolve(token@, secret@, now),
{
    match token::verify_jwt_at(token, secret, now) {
        Err(e) => Err(e),
        Ok(claims) => {
            match decimal::parse_i32(claims.sub.as_str()) {
                Some(v) => Ok(v),
                None => Err(ApiError::Unauthorized),
            }
        },
    }
}

/// Parses the subject field of verified claims into a user id; a malformed
/// subject is an `Unauthorized` outcome, not a crash.
pub fn user_id_from_claims(claims: &token::Claims) -> (r: Result<i32, ApiError>)
    ensures
        match r {
            Ok(v) => decimal::spec_parse_int(claims.sub@) == Some(v as int),
            Err(e) => e == ApiError::Unauthorized && !(decimal::spec_parse_int(claims.sub@)
                matches Some(v) && i32::MIN <= v <= i32::MAX),
        },
{
    match decimal::parse_i32(claims.sub.as_str()) {
        Some(v) => Ok(v),
        None => Err(ApiError::Unauthorized),
    }
}

/// The scheme prefix of a bearer authorization header.
pub open spec fn bearer_prefix() -> Seq<char> {
    seq!['B', 'e', 'a', 'r', 'e', 'r', ' ']
}

/// The token inside an authorization header value, if the value uses the
/// bearer scheme.
pub open spec fn spec_bearer_token(h: Seq<char>) -> Option<Seq<char>> {
    if h.len() >= 7 && h.take(7) == bearer_prefix() {
        Some(h.skip(7))
    } else {
        None
    }
}

/// Strips the bearer scheme from an authorization header value; any other
/// shape carries no token.
pub fn bearer_token(header: &str) -> (r: Option<String>)
    ensures
        match r {
            Some(t) => spec_bearer_token(header@) == Some(t@),
            None => spec_bearer_token(header@) is None,
        },
{
    let len: usize = header.unicode_len();
    if len < 7 {
        return None;
    }
    if header.get_char(0) != 'B' || header.get_char(1) != 'e' || header.get_char(2) != 'a'
        || header.get_char(3) != 'r' || header.get_char(4) != 'e' || header.get_char(5) != 'r'
        || header.get_char(6) != ' ' {
        proof {
            assert(header@.take(7) != bearer_prefix());
        }
        return None;
    }
    proof {
        assert(header@.take(7) =~= bearer_prefix());
    }
    let rest = header.substring_char(7, len);
    Some(String::from_str(rest))
}

/// The per-request authentication outcome decided from the authorization
/// header alone: a missing header, a non-bearer header, and a bad token
/// are all rejected before any downstream logic could run.
pub open spec fn spec_authorize(header: Option<Seq<char>>, secret: Seq<char>, now: i64) -> Result<
    i32,
    ApiError,
> {
    match header {
        None => Err(ApiError::Unauthorized),
        Some(h) => match spec_bearer_token(h) {
            None => Err(ApiError::Unauthorized),
            Some(t) => spec_resolve(t, secret, now),
        },
    }
}

/// Turns a raw authorization header into an authenticated subject id, or
/// rejects the request, at an explicit clock reading.
pub fn authorize_request(header: Option<&str>, secret: &str, now: i64) -> (r: Result<i32, ApiError>)
    ensures
        r == spec_authorize(
            match header {
                Some(h) => Some(h@),
                None => None,
            },
            secret@,
            now,
        ),
{
    match header {
        None => Err(ApiError::Unauthorized),
        Some(h) => {
            match bearer_token(h) {
                None => Err(ApiError::Unauthorized),
                Some(t) => resolve_token(t.as_str(), secret, now),
            }
        },
    }
}

/// A token issued at login resolves back to the subject it was issued
/// over: for any registered user id, a token carrying that id in decimal
/// resolves to exactly that id at any time up to its expiry.
pub proof fn lemma_login_token_resolves(
    token: Seq<char>,
    secret: Seq<char>,
    id: i32,
    username: Seq<char>,
    exp: u64,
    now: i64,
)
    requires
        jwt_claims_of(token, secret) == Some((decimal::spec_dec(id as int), username, exp)),
        now <= exp,
    ensures
        spec_resolve(token, secret, now) == Ok::<i32, ApiError>(id),
{
    decimal::lemma_decimal_round_trip(id as int);
}

/// A token issued over a time-to-live of `ttl` seconds at time `now0` is
/// accepted one second before it expires and rejected one second after:
/// expiry, checked against a fresh clock reading, is the only revocation.
pub proof fn lemma_token_expiry(
    token: Seq<char>,
    secret: Seq<char>,
    id: i32,
    username: Seq<char>,
    now0: i64,
    ttl: i64,
)
    requires
        0 <= now0,
        1 <= ttl,
        now0 + ttl + 1 <= i64::MAX,
        jwt_claims_of(token, secret) == Some(
            (decimal::spec_dec(id as int), username, (now0 + ttl) as u64),
        ),
    ensures
        spec_resolve(token, secret, (now0 + ttl - 1) as i64) == Ok::<i32, ApiError>(id),
        spec_resolve(token, secret, (now0 + ttl + 1) as i64) == Err::<i32, ApiError>(
            ApiError::Unauthorized,
        ),
{
    decimal::lemma_decimal_round_trip(id as int);
}

} // verus!
