//! Token service: issues, refreshes and verifies user session credentials.
//!
//! An access token is a signed claims structure carrying the user id and an
//! absolute expiry thirty minutes from issuance; a refresh token is an
//! opaque random 128-character alphanumeric value of which each user owns at
//! most one — rotating it is an upsert keyed on the user id, so only the
//! most recently issued refresh token of a user is ever valid. Signing and
//! signature checking go through the jsonwebtoken crate; the expiry check is
//! done here, against a caller-supplied clock reading.
use vstd::prelude::*;
use rand::distr::SampleString;
use crate::store::{
    CredentialStore, User, UserId, UserRefreshToken, has_token_value, token_of_value, has_user_id,
    tokens_upserted,
};
use crate::types::alnum_char;

verus! {

/// How long an access token lives, in seconds.
pub const USER_TOKEN_EXPIRY_SECONDS: i64 = 1800;

/// The length of a refresh token.
pub const REFRESH_TOKEN_LENGTH: usize = 128;

/// How many times refresh-token generation is retried when the generated
/// value collides with a stored one (a collision is all but impossible, but
/// the retry must exist for correctness).
pub const REFRESH_TOKEN_RETRIES: usize = 64;

/// Claims carried by a signed access token.
#[derive(Clone, Copy, Debug, PartialEq, Eq, Structural)]
pub struct UserClaims {
    /// ID of the user this claim represents.
    pub user_id: UserId,
    /// Expiry time, as a UTC timestamp in seconds.
    pub exp: i64,
}

/// A freshly issued credential pair.
#[derive(Debug)]
pub struct UserTokenData {
    /// The access token itself.
    pub token: String,
    /// The refresh token for refreshing this token.
    pub refresh_token: String,
    /// UTC timestamp for when the access token expires.
    pub expiry: i64,
}

/// Failures of the token operations.
#[derive(Clone, Copy, Debug, PartialEq, Eq, Structural)]
pub enum TokenError {
    /// The presented refresh token is not valid.
    InvalidRefreshToken,
    /// The presented access token is not valid.
    InvalidToken,
    /// A new credential pair could not be created.
    CreateToken,
}

/// The signed token that signing `(user_id, exp)` under `key` yields: what
/// `jsonwebtoken::encode` returns. A function of the key and the claims
/// alone.
pub uninterp spec fn jwt_token_of(key: Seq<u8>, user_id: int, exp: int) -> Seq<char>;

/// The claims `token` carries under `key`, or `None` when the token is
/// malformed or its signature does not check out: what
/// `jsonwebtoken::decode` returns. A function of the key and the token
/// alone.
pub uninterp spec fn jwt_claims_of(key: Seq<u8>, token: Seq<char>) -> Option<(int, int)>;

/// Relies on `jsonwebtoken::encode` with the HS256 algorithm: the produced
/// token is a function of the key and the claims alone, and decoding it
/// under the same key yields the claims back.
#[verifier::external_body]
fn jwt_encode(key: &[u8], user_id: i32, exp: i64) -> (r: Option<String>)
    ensures
        r matches Some(t) ==> t@ == jwt_token_of(key@, user_id as int, exp as int)
            && jwt_claims_of(key@, t@) == Some((user_id as int, exp as int)),
{
    let mut claims = serde_json::Map::new();
    claims.insert("sub".to_string(), serde_json::Value::from(user_id));
    claims.insert("exp".to_string(), serde_json::Value::from(exp));
    let header = jsonwebtoken::Header::new(jsonwebtoken::Algorithm::HS256);
    let encoding_key = jsonwebtoken::EncodingKey::from_secret(key);
    jsonwebtoken::encode(&header, &serde_json::Value::Object(claims), &encoding_key).ok()
}

/// Relies on `jsonwebtoken::decode` with the HS256 algorithm: decoding and
/// signature checking are a function of the key and the token alone. The
/// expiry is *not* checked here — callers check it against their clock.
#[verifier::external_body]
fn jwt_decode(key: &[u8], token: &str) -> (r: Option<(i32, i64)>)
    ensures
        r is Some <==> jwt_claims_of(key@, token@) is Some,
        r matches Some(c) ==> jwt_claims_of(key@, token@) == Some((c.0 as int, c.1 as int)),
{
    let mut validation = jsonwebtoken::Validation::new(jsonwebtoken::Algorithm::HS256);
    validation.validate_exp = false;
    validation.required_spec_claims = std::collections::HashSet::new();
    let decoding_key = jsonwebtoken::DecodingKey::from_secret(key);
    let data: jsonwebtoken::TokenData<serde_json::Value> = jsonwebtoken::decode(
        token,
        &decoding_key,
        &validation,
    ).ok()?;
    let sub = i32::try_from(data.claims.get("sub")?.as_i64()?).ok()?;
    let exp = data.claims.get("exp")?.as_i64()?;
    Some((sub, exp))
}

/// Relies on rand's `Alphanumeric` distribution: the sampled string has
/// exactly `len` characters, each an ASCII letter or digit. The value is
/// random; nothing relates two calls.
#[verifier::external_body]
fn random_alphanumeric(len: usize) -> (r: String)
    ensures
        r@.len() == len as nat,
        forall|i: int| 0 <= i < r@.len() ==> alnum_char(#[trigger] r@[i]),
{
    rand::distr::Alphanumeric.sample_string(&mut rand::rng(), len)
}

/// The refresh-token store after one rotation for `user_id` that produced
/// the fresh value `value` at time `now`: the value was in no row before,
/// and the rows were upserted so that `value` is now the user's one token.
pub open spec fn rotate_post(
    old_tokens: Seq<UserRefreshToken>,
    new_tokens: Seq<UserRefreshToken>,
    user_id: UserId,
    value: Seq<char>,
    now: i64,
) -> bool {
    &&& !has_token_value(old_tokens, value)
    &&& tokens_upserted(old_tokens, new_tokens, user_id, value, now)
}

/// A refresh token value: 128 ASCII letters or digits.
pub open spec fn refresh_token_shape(value: Seq<char>) -> bool {
    value.len() == 128 && forall|i: int| 0 <= i < value.len() ==> alnum_char(#[trigger] value[i])
}

/// What verifying `token` under `key` at time `now` yields: the carried
/// claims when the signature checks out and the expiry lies strictly in the
/// future, and nothing otherwise.
pub open spec fn verify_outcome(key: Seq<u8>, token: Seq<char>, now: int) -> Option<(int, int)> {
    match jwt_claims_of(key, token) {
        Some(claims) => if now < claims.1 {
            Some(claims)
        } else {
            None
        },
        None => None,
    }
}

/// The token service: signs, verifies and refreshes session credentials
/// with a symmetric key loaded once at startup.
pub struct AuthService {
    secret: Vec<u8>,
}

impl AuthService {
    /// The symmetric signing key.
    pub closed spec fn key(self) -> Seq<u8> {
        self.secret@
    }

    /// Creates the token service from the symmetric signing secret.
    pub fn new(secret: Vec<u8>) -> (r: AuthService)
        ensures
            r.key() == secret@,
    {
        AuthService { secret }
    }

    /// Rotates the refresh token of `user`: generates a fresh random value
    /// (retrying while the value collides with a stored one) and upserts it
    /// keyed on the user id, overwriting whatever token the user owned.
    /// Fails only if every generated value collided.
    pub fn create_refresh_token(store: &mut CredentialStore, user: &User, now: i64) -> (r: Result<
        String,
        TokenError,
    >)
        requires
            old(store).wf(),
        ensures
            final(store).wf(),
            r is Err ==> *final(store) == *old(store) && r->Err_0 == TokenError::CreateToken,
            r matches Ok(value) ==> {
                &&& refresh_token_shape(value@)
                &&& rotate_post(old(store).tokens@, final(store).tokens@, user.id, value@, now)
                &&& final(store).users@ == old(store).users@
                &&& final(store).links@ == old(store).links@
                &&& final(store).next_user_id == old(store).next_user_id
            },
    {
        let mut attempt: usize = 0;
        while attempt < REFRESH_TOKEN_RETRIES
            invariant
                store.wf(),
                *store == *old(store),
            decreases REFRESH_TOKEN_RETRIES - attempt,
        {
            let value = random_alphanumeric(REFRESH_TOKEN_LENGTH);
            if store.find_refresh_token(value.as_str()).is_none() {
                let out = value.clone();
                let upserted = store.upsert_refresh_token(user.id, value, now);
                proof {
                    assert(upserted is Ok);
                }
                return Ok(out);
            }
            attempt = attempt + 1;
        }
        Err(TokenError::CreateToken)
    }

    /// Issues a credential pair for `user`: an access token with subject
    /// `user.id` expiring thirty minutes after `now`, and a freshly rotated
    /// refresh token. Fails only if signing or token generation failed, and
    /// then changes nothing.
    pub fn create_user_token(&self, store: &mut CredentialStore, user: &User, now: i64) -> (r:
        Result<UserTokenData, TokenError>)
        requires
            old(store).wf(),
            now + USER_TOKEN_EXPIRY_SECONDS <= i64::MAX,
        ensures
            final(store).wf(),
            r is Err ==> *final(store) == *old(store) && r->Err_0 == TokenError::CreateToken,
            r matches Ok(data) ==> {
                &&& data.expiry == now + USER_TOKEN_EXPIRY_SECONDS
                &&& data.token@ == jwt_token_of(self.key(), user.id as int, data.expiry as int)
                &&& jwt_claims_of(self.key(), data.token@) == Some(
                    (user.id as int, data.expiry as int),
                )
                &&& refresh_token_shape(data.refresh_token@)
                &&& rotate_post(
                    old(store).tokens@,
                    final(store).tokens@,
                    user.id,
                    data.refresh_token@,
                    now,
                )
                &&& final(store).users@ == old(store).users@
                &&& final(store).links@ == old(store).links@
                &&& final(store).next_user_id == old(store).next_user_id
            },
    {
        let expiry = now + USER_TOKEN_EXPIRY_SECONDS;
        let token = match jwt_encode(self.secret.as_slice(), user.id, expiry) {
            Some(token) => token,
            None => {
                return Err(TokenError::CreateToken);
            },
        };
        let refresh_token = match Self::create_refresh_token(store, user, now) {
            Ok(value) => value,
            Err(e) => {
                return Err(e);
            },
        };
        Ok(UserTokenData { token, refresh_token, expiry })
    }

    /// Verifies an access token against the service key and the clock
    /// reading `now`: any decoding, signature or expiry failure collapses to
    /// the single `InvalidToken` error.
    pub fn verify_user_token(&self, token: &str, now: i64) -> (r: Result<UserClaims, TokenError>)
        ensures
            r is Ok <==> verify_outcome(self.key(), token@, now as int) is Some,
            r matches Ok(claims) ==> verify_outcome(self.key(), token@, now as int) == Some(
                (claims.user_id as int, claims.exp as int),
            ) && now < claims.exp,
            r is Err ==> r->Err_0 == TokenError::InvalidToken,
    {
        match jwt_decode(self.secret.as_slice(), token) {
            Some((user_id, exp)) => {
                if now < exp {
                    Ok(UserClaims { user_id, exp })
                } else {
                    Err(TokenError::InvalidToken)
                }
            },
            None => Err(TokenError::InvalidToken),
        }
    }

    /// Refreshes a credential pair from a presented refresh token: looks the
    /// token up, loads the owning user, and issues a fresh pair for that
    /// user — rotating the refresh token, which invalidates the presented
    /// one. An unknown token, or a token whose user is gone, fails with
    /// `InvalidRefreshToken` and changes nothing.
    pub fn refresh_user_token(&self, store: &mut CredentialStore, refresh_token: &str, now: i64)
        -> (r: Result<UserTokenData, TokenError>)
        requires
            old(store).wf(),
            now + USER_TOKEN_EXPIRY_SECONDS <= i64::MAX,
        ensures
            final(store).wf(),
            r is Err ==> *final(store) == *old(store),
            !has_token_value(old(store).tokens@, refresh_token@) ==> r == Err::<
                UserTokenData,
                TokenError,
            >(TokenError::InvalidRefreshToken),
            has_token_value(old(store).tokens@, refresh_token@) && !has_user_id(
                old(store).users@,
                token_of_value(old(store).tokens@, refresh_token@).user_id,
            ) ==> r == Err::<UserTokenData, TokenError>(TokenError::InvalidRefreshToken),
            has_token_value(old(store).tokens@, refresh_token@) && has_user_id(
                old(store).users@,
                token_of_value(old(store).tokens@, refresh_token@).user_id,
            ) ==> (r is Ok || r == Err::<UserTokenData, TokenError>(TokenError::CreateToken)),
            r matches Ok(data) ==> {
                let owner = token_of_value(old(store).tokens@, refresh_token@).user_id;
                &&& has_token_value(old(store).tokens@, refresh_token@)
                &&& has_user_id(old(store).users@, owner)
                &&& data.expiry == now + USER_TOKEN_EXPIRY_SECONDS
                &&& data.token@ == jwt_token_of(self.key(), owner as int, data.expiry as int)
                &&& jwt_claims_of(self.key(), data.token@) == Some(
                    (owner as int, data.expiry as int),
                )
                &&& refresh_token_shape(data.refresh_token@)
                &&& rotate_post(
                    old(store).tokens@,
                    final(store).tokens@,
                    owner,
                    data.refresh_token@,
                    now,
                )
                &&& final(store).users@ == old(store).users@
                &&& final(store).links@ == old(store).links@
                &&& final(store).next_user_id == old(store).next_user_id
            },
    {
        let user_id = match store.find_refresh_token(refresh_token) {
            Some(record) => record.user_id,
            None => {
                return Err(TokenError::InvalidRefreshToken);
            },
        };
        let user = match store.find_user_by_id(user_id) {
            Some(user) => user.clone(),
            None => {
                return Err(TokenError::InvalidRefreshToken);
            },
        };
        self.create_user_token(store, &user, now)
    }
}

} // verus!
