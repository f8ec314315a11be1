//! Identity flows: password registration and login, token refresh,
//! bearer-token authorization, and OpenID identity reconciliation.
//!
//! The OpenID flow starts after the caller has exchanged the authorization
//! code and decoded the provider's identity token into a plain
//! [`ClaimsPayload`]; from there the flow is a decision keyed on whether a
//! user with the claimed (lowercased) email exists and whether that user is
//! linked to the requesting provider: log the user in, refuse with
//! `NotLinked`, or hand the claims back so the caller can collect the fields
//! account creation needs.
use vstd::prelude::*;
use crate::hashing::{hash_password, verify_password, password_matches};
use crate::registry::AuthProvider;
use crate::store::{
    CredentialStore, CreateUser, StoreError, User, UserRole, has_user_email, user_of_email,
    has_username, has_link, has_user_id, user_of_id,
};
use crate::token::{
    AuthService, TokenError, UserTokenData, USER_TOKEN_EXPIRY_SECONDS, jwt_token_of, jwt_claims_of,
    rotate_post, refresh_token_shape, verify_outcome,
};
use crate::types::{
    EmailAddress, Username, Password, ValidationError, email_valid, username_valid, normalize_seq,
};

verus! {

/// Account and credential errors surfaced to users.
#[derive(Clone, Copy, Debug, PartialEq, Eq, Structural)]
pub enum AuthError {
    /// Failed to create a token; logging in again may help.
    FailedTokenIssue,
    /// That email address is already in use.
    EmailExists,
    /// That username is already in use.
    UsernameExists,
    /// No account with that email address exists.
    EmailNotFound,
    /// The provided password is incorrect.
    IncorrectPassword,
}

/// The stable machine-readable name of an [`AuthError`].
pub open spec fn spec_auth_error_name(e: AuthError) -> Seq<char> {
    match e {
        AuthError::FailedTokenIssue => "auth:token_create_failed"@,
        AuthError::EmailExists => "auth:email_exists"@,
        AuthError::UsernameExists => "auth:username_exists"@,
        AuthError::EmailNotFound => "auth:email_not_found"@,
        AuthError::IncorrectPassword => "auth:incorrect_password"@,
    }
}

/// The human-readable message of an [`AuthError`].
pub open spec fn spec_auth_error_message(e: AuthError) -> Seq<char> {
    match e {
        AuthError::FailedTokenIssue => "Failed to create token, try logging in again"@,
        AuthError::EmailExists => "That email address is already in use"@,
        AuthError::UsernameExists => "That username is already in use"@,
        AuthError::EmailNotFound => "No account with that email address"@,
        AuthError::IncorrectPassword => "Incorrect password provided"@,
    }
}

/// The HTTP status an [`AuthError`] maps to.
pub open spec fn spec_auth_error_status(e: AuthError) -> u16 {
    match e {
        AuthError::FailedTokenIssue => 500,
        AuthError::EmailExists => 409,
        AuthError::UsernameExists => 409,
        AuthError::EmailNotFound => 404,
        AuthError::IncorrectPassword => 400,
    }
}

impl AuthError {
    /// Names for each of the error types, used for handling specific errors
    /// on the client.
    pub fn name(&self) -> (r: &'static str)
        ensures
            r@ == spec_auth_error_name(*self),
    {
        match self {
            AuthError::FailedTokenIssue => "auth:token_create_failed",
            AuthError::EmailExists => "auth:email_exists",
            AuthError::UsernameExists => "auth:username_exists",
            AuthError::EmailNotFound => "auth:email_not_found",
            AuthError::IncorrectPassword => "auth:incorrect_password",
        }
    }

    /// The human-readable message shown to the user.
    pub fn message(&self) -> (r: &'static str)
        ensures
            r@ == spec_auth_error_message(*self),
    {
        match self {
            AuthError::FailedTokenIssue => "Failed to create token, try logging in again",
            AuthError::EmailExists => "That email address is already in use",
            AuthError::UsernameExists => "That username is already in use",
            AuthError::EmailNotFound => "No account with that email address",
            AuthError::IncorrectPassword => "Incorrect password provided",
        }
    }

    /// The HTTP status code the error maps to.
    pub fn status_code(&self) -> (r: u16)
        ensures
            r == spec_auth_error_status(*self),
    {
        match self {
            AuthError::FailedTokenIssue => 500,
            AuthError::EmailExists => 409,
            AuthError::UsernameExists => 409,
            AuthError::EmailNotFound => 404,
            AuthError::IncorrectPassword => 400,
        }
    }
}

/// Errors of the OpenID flow.
#[derive(Clone, Copy, Debug, PartialEq, Eq, Structural)]
pub enum OIDError {
    /// An account with the same email exists but has no link for this
    /// provider; logging in with it would silently take the account over.
    NotLinked,
    /// The provider could not be reached or initialized.
    ProviderUnavailable,
    /// The identity token is invalid.
    InvalidToken,
    /// The code exchange with the provider failed.
    Authentication,
    /// The identity token carried no email claim.
    ClaimMissingEmail,
}

/// The stable machine-readable name of an [`OIDError`].
pub open spec fn spec_oid_error_name(e: OIDError) -> Seq<char> {
    match e {
        OIDError::NotLinked => "oid:not_linked"@,
        OIDError::ProviderUnavailable => "oid:provider_unavailable"@,
        OIDError::InvalidToken => "oid:invalid_token"@,
        OIDError::Authentication => "oid:auth_failed"@,
        OIDError::ClaimMissingEmail => "oid:claim_missing_email"@,
    }
}

/// The human-readable message of an [`OIDError`].
pub open spec fn spec_oid_error_message(e: OIDError) -> Seq<char> {
    match e {
        OIDError::NotLinked => "An account already exists with the same email, please use the existing account password. Once logged in you can link your account in settings"@,
        OIDError::ProviderUnavailable => "That authentication provider is currently unavailable, try again later."@,
        OIDError::InvalidToken => "Authentication token is invalid, try again."@,
        OIDError::Authentication => "Failed to authenticate with OpenID provider"@,
        OIDError::ClaimMissingEmail => "Failed to determine account email address."@,
    }
}

/// The HTTP status an [`OIDError`] maps to.
pub open spec fn spec_oid_error_status(e: OIDError) -> u16 {
    match e {
        OIDError::NotLinked => 409,
        OIDError::ProviderUnavailable => 500,
        OIDError::InvalidToken => 400,
        OIDError::Authentication => 400,
        OIDError::ClaimMissingEmail => 400,
    }
}

impl OIDError {
    /// Names for each of the error types, used for handling specific errors
    /// on the client.
    pub fn name(&self) -> (r: &'static str)
        ensures
            r@ == spec_oid_error_name(*self),
    {
        match self {
            OIDError::NotLinked => "oid:not_linked",
            OIDError::ProviderUnavailable => "oid:provider_unavailable",
            OIDError::InvalidToken => "oid:invalid_token",
            OIDError::Authentication => "oid:auth_failed",
            OIDError::ClaimMissingEmail => "oid:claim_missing_email",
        }
    }

    /// The human-readable message shown to the user.
    pub fn message(&self) -> (r: &'static str)
        ensures
            r@ == spec_oid_error_message(*self),
    {
        match self {
            OIDError::NotLinked => "An account already exists with the same email, please use the existing account password. Once logged in you can link your account in settings",
            OIDError::ProviderUnavailable => "That authentication provider is currently unavailable, try again later.",
            OIDError::InvalidToken => "Authentication token is invalid, try again.",
            OIDError::Authentication => "Failed to authenticate with OpenID provider",
            OIDError::ClaimMissingEmail => "Failed to determine account email address.",
        }
    }

    /// The HTTP status code the error maps to.
    pub fn status_code(&self) -> (r: u16)
        ensures
            r == spec_oid_error_status(*self),
    {
        match self {
            OIDError::NotLinked => 409,
            OIDError::ProviderUnavailable => 500,
            OIDError::InvalidToken => 400,
            OIDError::Authentication => 400,
            OIDError::ClaimMissingEmail => 400,
        }
    }
}

/// Everything the OpenID flow can fail with: a closed union of the error
/// kinds, each carrying what its HTTP mapping needs.
#[derive(Clone, Copy, Debug, PartialEq, Eq, Structural)]
pub enum IdentityError {
    /// An OpenID protocol error.
    OID(OIDError),
    /// An account or credential error.
    Auth(AuthError),
    /// A claim failed validation.
    Validation(ValidationError),
    /// A write was refused by the store; surfaced as an internal error.
    Store(StoreError),
}

/// The claims extracted from a provider identity token, as plain values.
#[derive(Debug)]
pub struct ClaimsPayload {
    /// The email claim; the flow requires it.
    pub email: Option<String>,
    /// The preferred-username claim, if the provider supplied one.
    pub preferred_username: Option<String>,
    /// Whether the provider asserts the email address is verified.
    pub email_verified: bool,
}

impl Clone for ClaimsPayload {
    fn clone(&self) -> (res: Self)
        ensures
            res == *self,
    {
        let res = ClaimsPayload {
            email: self.email.clone(),
            preferred_username: self.preferred_username.clone(),
            email_verified: self.email_verified,
        };
        proof {
            assert(res.email == self.email);
            assert(res.preferred_username == self.preferred_username);
        }
        res
    }
}

/// Request to register an account with basic details.
pub struct BasicRegisterRequest {
    /// The username for the user.
    pub username: Username,
    /// The email for the user.
    pub email: EmailAddress,
    /// The password to use for the user.
    pub password: Password,
}

/// Request to log into an account with basic details.
pub struct BasicLoginRequest {
    /// The email for the user.
    pub email: EmailAddress,
    /// The password to use for the user.
    pub password: Password,
}

/// Request to refresh a token.
pub struct RefreshTokenRequest {
    /// The refresh token itself.
    pub refresh_token: String,
}

/// Request to authenticate an OpenID authorization code.
pub struct OIDAuthenticateRequest {
    /// The provider the code is from.
    pub provider: AuthProvider,
    /// The authorization code.
    pub code: String,
}

/// Request for creating an account from decoded OpenID claims and
/// user-provided details.
pub struct OIDCreateRequest {
    /// The provider the claims are from.
    pub provider: AuthProvider,
    /// The decoded identity-token claims.
    pub claims: ClaimsPayload,
    /// The username for the user.
    pub username: Username,
    /// The password to use for the user.
    pub password: Password,
}

/// Response containing an authorization token pair.
#[derive(Debug)]
pub struct TokenResponse {
    /// The credential pair to log the user in with.
    pub user_token_data: UserTokenData,
}

/// Outcome of authenticating decoded OpenID claims.
#[derive(Debug)]
pub enum OIDAuthenticateResponse {
    /// No account with the claimed email exists; the caller should collect
    /// the remaining fields and invoke account creation.
    CreateAccount {
        /// The decoded claims, handed back for the creation step.
        claims: ClaimsPayload,
        /// A username derived from the preferred-username claim, if that
        /// claim was present and usable.
        default_username: Option<Username>,
    },
    /// An account with the claimed email exists and is linked to this
    /// provider; this is a login.
    ExistingLinked(TokenResponse),
}

/// The store `post` is `pre` with exactly one registered user row appended:
/// the row carries the given email, username and a hash verifying the given
/// password, the id counter moved up by one, and the links are untouched.
pub open spec fn registered_row(
    pre: CredentialStore,
    post: CredentialStore,
    email: Seq<char>,
    username: Seq<char>,
    password: Seq<char>,
    now: i64,
) -> bool {
    &&& post.users@.len() == pre.users@.len() + 1
    &&& post.users@.drop_last() == pre.users@
    &&& ({
        let u = post.users@.last();
        &&& u.id == pre.next_user_id
        &&& u.email@ == email
        &&& u.username@ == username
        &&& u.password matches Some(h) && password_matches(password, h@)
        &&& u.email_verified_at is None
        &&& u.role == UserRole::Standard
        &&& u.created_at == now
        &&& u.updated_at == now
    })
    &&& post.next_user_id == pre.next_user_id + 1
    &&& post.links@ == pre.links@
}

/// The store `post` is `pre` with the account-creation transaction
/// committed: one new user row (its email mark verified at `now` exactly
/// when the provider asserted it) and one new link row for the new user and
/// `provider`, nothing else.
pub open spec fn account_created(
    pre: CredentialStore,
    post: CredentialStore,
    email: Seq<char>,
    username: Seq<char>,
    password: Seq<char>,
    email_verified: bool,
    provider: AuthProvider,
    now: i64,
) -> bool {
    &&& post.users@.len() == pre.users@.len() + 1
    &&& post.users@.drop_last() == pre.users@
    &&& ({
        let u = post.users@.last();
        &&& u.id == pre.next_user_id
        &&& u.email@ == email
        &&& u.username@ == username
        &&& u.password matches Some(h) && password_matches(password, h@)
        &&& u.email_verified_at == if email_verified {
            Some(now)
        } else {
            None::<i64>
        }
        &&& u.role == UserRole::Standard
        &&& u.created_at == now
        &&& u.updated_at == now
    })
    &&& post.next_user_id == pre.next_user_id + 1
    &&& post.links@.len() == pre.links@.len() + 1
    &&& post.links@.drop_last() == pre.links@
    &&& post.links@.last().user_id == pre.next_user_id
    &&& post.links@.last().provider == provider
    &&& post.links@.last().created_at == now
}

/// Registers an account from validated email, username and password:
/// both uniqueness checks, then one user row with the hashed password, then
/// a credential pair for the new user.
pub fn basic_register(
    auth: &AuthService,
    store: &mut CredentialStore,
    req: BasicRegisterRequest,
    now: i64,
) -> (r: Result<TokenResponse, AuthError>)
    requires
        old(store).wf(),
        req.email.wf(),
        old(store).next_user_id < i32::MAX,
        now + USER_TOKEN_EXPIRY_SECONDS <= i64::MAX,
    ensures
        final(store).wf(),
        has_user_email(old(store).users@, req.email@) ==> r == Err::<TokenResponse, AuthError>(
            AuthError::EmailExists,
        ) && *final(store) == *old(store),
        !has_user_email(old(store).users@, req.email@) && has_username(
            old(store).users@,
            req.username@,
        ) ==> r == Err::<TokenResponse, AuthError>(AuthError::UsernameExists) && *final(store)
            == *old(store),
        !has_user_email(old(store).users@, req.email@) && !has_username(
            old(store).users@,
            req.username@,
        ) ==> (r is Ok || r == Err::<TokenResponse, AuthError>(AuthError::FailedTokenIssue)),
        r is Err ==> final(store).links@ == old(store).links@ && final(store).tokens@ == old(
            store,
        ).tokens@,
        r is Err && r->Err_0 != AuthError::FailedTokenIssue ==> *final(store) == *old(store),
        r == Err::<TokenResponse, AuthError>(AuthError::FailedTokenIssue) ==> (*final(store)
            == *old(store) || (registered_row(
            *old(store),
            *final(store),
            req.email@,
            req.username@,
            req.password@,
            now,
        ) && final(store).tokens@ == old(store).tokens@)),
        r matches Ok(resp) ==> {
            let uid = old(store).next_user_id;
            let expiry = now + USER_TOKEN_EXPIRY_SECONDS;
            &&& !has_user_email(old(store).users@, req.email@)
            &&& !has_username(old(store).users@, req.username@)
            &&& registered_row(
                *old(store),
                *final(store),
                req.email@,
                req.username@,
                req.password@,
                now,
            )
            &&& resp.user_token_data.expiry == expiry
            &&& resp.user_token_data.token@ == jwt_token_of(auth.key(), uid as int, expiry as int)
            &&& jwt_claims_of(auth.key(), resp.user_token_data.token@) == Some(
                (uid as int, expiry as int),
            )
            &&& refresh_token_shape(resp.user_token_data.refresh_token@)
            &&& rotate_post(
                old(store).tokens@,
                final(store).tokens@,
                uid,
                resp.user_token_data.refresh_token@,
                now,
            )
        },
{
    if store.is_email_taken(&req.email) {
        return Err(AuthError::EmailExists);
    }
    if store.is_username_taken(req.username.as_str()) {
        return Err(AuthError::UsernameExists);
    }
    let hashed_password = match hash_password(req.password.as_str()) {
        Ok(h) => h,
        Err(_) => {
            return Err(AuthError::FailedTokenIssue);
        },
    };
    let created = store.create_user(
        CreateUser {
            email: req.email.into_inner(),
            username: req.username.into_inner(),
            password: hashed_password,
        },
        now,
    );
    let user = match created {
        Ok(user) => user,
        Err(_) => {
            return Err(AuthError::FailedTokenIssue);
        },
    };
    proof {
        assert(store.users@.drop_last() =~= old(store).users@);
        assert(registered_row(*old(store), *store, req.email@, req.username@, req.password@, now));
    }
    match auth.create_user_token(store, &user, now) {
        Ok(user_token_data) => Ok(TokenResponse { user_token_data }),
        Err(_) => Err(AuthError::FailedTokenIssue),
    }
}

/// Logs a user in from email and password: looks the account up by the
/// normalized email, checks the password against the stored hash, and issues
/// a credential pair.
pub fn basic_login(
    auth: &AuthService,
    store: &mut CredentialStore,
    req: BasicLoginRequest,
    now: i64,
) -> (r: Result<TokenResponse, AuthError>)
    requires
        old(store).wf(),
        now + USER_TOKEN_EXPIRY_SECONDS <= i64::MAX,
    ensures
        final(store).wf(),
        r is Err ==> *final(store) == *old(store),
        !has_user_email(old(store).users@, req.email@) ==> r == Err::<TokenResponse, AuthError>(
            AuthError::EmailNotFound,
        ),
        has_user_email(old(store).users@, req.email@) ==> ({
            let u = user_of_email(old(store).users@, req.email@);
            &&& (u.password is None || !password_matches(
                req.password@,
                u.password->Some_0@,
            )) ==> r == Err::<TokenResponse, AuthError>(AuthError::IncorrectPassword)
            &&& (u.password matches Some(h) && password_matches(req.password@, h@)) ==> (r is Ok
                || r == Err::<TokenResponse, AuthError>(AuthError::FailedTokenIssue))
        }),
        r matches Ok(resp) ==> {
            let u = user_of_email(old(store).users@, req.email@);
            let expiry = now + USER_TOKEN_EXPIRY_SECONDS;
            &&& has_user_email(old(store).users@, req.email@)
            &&& u.password matches Some(h) && password_matches(req.password@, h@)
            &&& resp.user_token_data.expiry == expiry
            &&& resp.user_token_data.token@ == jwt_token_of(auth.key(), u.id as int, expiry as int)
            &&& jwt_claims_of(auth.key(), resp.user_token_data.token@) == Some(
                (u.id as int, expiry as int),
            )
            &&& refresh_token_shape(resp.user_token_data.refresh_token@)
            &&& rotate_post(
                old(store).tokens@,
                final(store).tokens@,
                u.id,
                resp.user_token_data.refresh_token@,
                now,
            )
            &&& final(store).users@ == old(store).users@
            &&& final(store).links@ == old(store).links@
            &&& final(store).next_user_id == old(store).next_user_id
        },
{
    let user = match store.find_user_by_email(&req.email) {
        Some(user) => user.clone(),
        None => {
            return Err(AuthError::EmailNotFound);
        },
    };
    let password_ok = match &user.password {
        Some(hash) => verify_password(req.password.as_str(), hash.as_str()),
        None => false,
    };
    if !password_ok {
        return Err(AuthError::IncorrectPassword);
    }
    match auth.create_user_token(store, &user, now) {
        Ok(user_token_data) => Ok(TokenResponse { user_token_data }),
        Err(_) => Err(AuthError::FailedTokenIssue),
    }
}

/// Refreshes a credential pair from a presented refresh token; every
/// failure of the underlying refresh collapses to `FailedTokenIssue`.
pub fn refresh_token(
    auth: &AuthService,
    store: &mut CredentialStore,
    req: &RefreshTokenRequest,
    now: i64,
) -> (r: Result<TokenResponse, AuthError>)
    requires
        old(store).wf(),
        now + USER_TOKEN_EXPIRY_SECONDS <= i64::MAX,
    ensures
        final(store).wf(),
        r is Err ==> *final(store) == *old(store) && r->Err_0 == AuthError::FailedTokenIssue,
        r matches Ok(resp) ==> {
            let owner = crate::store::token_of_value(
                old(store).tokens@,
                req.refresh_token@,
            ).user_id;
            let expiry = now + USER_TOKEN_EXPIRY_SECONDS;
            &&& crate::store::has_token_value(old(store).tokens@, req.refresh_token@)
            &&& has_user_id(old(store).users@, owner)
            &&& resp.user_token_data.expiry == expiry
            &&& resp.user_token_data.token@ == jwt_token_of(
                auth.key(),
                owner as int,
                expiry as int,
            )
            &&& jwt_claims_of(auth.key(), resp.user_token_data.token@) == Some(
                (owner as int, expiry as int),
            )
            &&& refresh_token_shape(resp.user_token_data.refresh_token@)
            &&& rotate_post(
                old(store).tokens@,
                final(store).tokens@,
                owner,
                resp.user_token_data.refresh_token@,
                now,
            )
            &&& final(store).users@ == old(store).users@
            &&& final(store).links@ == old(store).links@
            &&& final(store).next_user_id == old(store).next_user_id
        },
{
    match auth.refresh_user_token(store, req.refresh_token.as_str(), now) {
        Ok(user_token_data) => Ok(TokenResponse { user_token_data }),
        Err(_) => Err(AuthError::FailedTokenIssue),
    }
}

/// Failures of bearer-token authorization.
#[derive(Clone, Copy, Debug, PartialEq, Eq, Structural)]
pub enum AuthorizeError {
    /// The token was expired or invalid.
    Token(TokenError),
    /// The token's user no longer exists.
    UnknownUser,
}

/// Whether some user carries the (mathematical) id `id`.
pub open spec fn has_user_id_int(users: Seq<User>, id: int) -> bool {
    exists|i: int| 0 <= i < users.len() && (#[trigger] users[i]).id as int == id
}

/// Authorizes a bearer token: verifies it against the service key and the
/// clock, then loads the user the claims name.
pub fn authorize_user(
    auth: &AuthService,
    store: &CredentialStore,
    token: &str,
    now: i64,
) -> (r: Result<User, AuthorizeError>)
    requires
        store.wf(),
    ensures
        verify_outcome(auth.key(), token@, now as int) is None ==> r == Err::<User, AuthorizeError>(
            AuthorizeError::Token(TokenError::InvalidToken),
        ),
        verify_outcome(auth.key(), token@, now as int) matches Some(claims) && !has_user_id_int(
            store.users@,
            claims.0,
        ) ==> r == Err::<User, AuthorizeError>(AuthorizeError::UnknownUser),
        r matches Ok(u) ==> ({
            &&& verify_outcome(auth.key(), token@, now as int) matches Some(claims) && claims.0
                == u.id as int
            &&& has_user_id(store.users@, u.id)
            &&& u == user_of_id(store.users@, u.id)
        }),
        r is Ok <==> (verify_outcome(auth.key(), token@, now as int) matches Some(claims)
            && has_user_id_int(store.users@, claims.0)),
{
    let claims = match auth.verify_user_token(token, now) {
        Ok(claims) => claims,
        Err(_) => {
            return Err(AuthorizeError::Token(TokenError::InvalidToken));
        },
    };
    match store.find_user_by_id(claims.user_id) {
        Some(user) => Ok(user.clone()),
        None => Err(AuthorizeError::UnknownUser),
    }
}

/// The normalized email the claims carry; meaningful only when the email
/// claim is present.
pub open spec fn claimed_email(claims: ClaimsPayload) -> Seq<char> {
    normalize_seq(claims.email->Some_0@)
}

/// The claims carry a usable email: present and, once normalized, valid.
pub open spec fn claims_email_ok(claims: ClaimsPayload) -> bool {
    claims.email is Some && email_valid(claimed_email(claims))
}

/// The default username the flow derives from the preferred-username claim:
/// the normalized claim when it passes the username grammar, nothing
/// otherwise.
pub open spec fn default_username_ok(claims: ClaimsPayload, d: Option<Username>) -> bool {
    match claims.preferred_username {
        Some(p) => if username_valid(normalize_seq(p@)) {
            match d {
                Some(u) => u@ == normalize_seq(p@),
                None => false,
            }
        } else {
            d is None
        },
        None => d is None,
    }
}

/// The response hands the claims back for account creation, with the
/// derived default username.
pub open spec fn is_create_account_response(
    claims: ClaimsPayload,
    r: Result<OIDAuthenticateResponse, IdentityError>,
) -> bool {
    match r {
        Ok(OIDAuthenticateResponse::CreateAccount { claims: c, default_username }) => c == claims
            && default_username_ok(claims, default_username),
        _ => false,
    }
}

/// The response logs `user` in with an access token naming the user as its
/// subject and expiring at `expiry`.
pub open spec fn is_linked_login_response(
    key: Seq<u8>,
    user: User,
    expiry: int,
    r: Result<OIDAuthenticateResponse, IdentityError>,
) -> bool {
    match r {
        Ok(OIDAuthenticateResponse::ExistingLinked(tok)) => {
            &&& tok.user_token_data.expiry as int == expiry
            &&& tok.user_token_data.token@ == jwt_token_of(key, user.id as int, expiry)
            &&& jwt_claims_of(key, tok.user_token_data.token@) == Some((user.id as int, expiry))
            &&& refresh_token_shape(tok.user_token_data.refresh_token@)
        },
        _ => false,
    }
}

/// Authenticates decoded OpenID claims for `provider`: extracts the
/// mandatory email claim, and decides among login (account exists and is
/// linked to this provider), `NotLinked` (account exists without a link for
/// this provider), and account creation (no account with that email).
pub fn openid_authenticate(
    auth: &AuthService,
    store: &mut CredentialStore,
    provider: AuthProvider,
    claims: ClaimsPayload,
    now: i64,
) -> (r: Result<OIDAuthenticateResponse, IdentityError>)
    requires
        old(store).wf(),
        now + USER_TOKEN_EXPIRY_SECONDS <= i64::MAX,
    ensures
        final(store).wf(),
        r is Err ==> *final(store) == *old(store),
        claims.email is None ==> r == Err::<OIDAuthenticateResponse, IdentityError>(
            IdentityError::OID(OIDError::ClaimMissingEmail),
        ),
        claims.email is Some && !email_valid(claimed_email(claims)) ==> r == Err::<
            OIDAuthenticateResponse,
            IdentityError,
        >(IdentityError::Validation(ValidationError::InvalidEmail)),
        claims_email_ok(claims) && !has_user_email(old(store).users@, claimed_email(claims))
            ==> *final(store) == *old(store) && is_create_account_response(claims, r),
        claims_email_ok(claims) && has_user_email(old(store).users@, claimed_email(claims))
            && !has_link(
            old(store).links@,
            user_of_email(old(store).users@, claimed_email(claims)).id,
            provider,
        ) ==> r == Err::<OIDAuthenticateResponse, IdentityError>(
            IdentityError::OID(OIDError::NotLinked),
        ),
        claims_email_ok(claims) && has_user_email(old(store).users@, claimed_email(claims))
            && has_link(
            old(store).links@,
            user_of_email(old(store).users@, claimed_email(claims)).id,
            provider,
        ) ==> r == Err::<OIDAuthenticateResponse, IdentityError>(
            IdentityError::Auth(AuthError::FailedTokenIssue),
        ) || is_linked_login_response(
            auth.key(),
            user_of_email(old(store).users@, claimed_email(claims)),
            now + USER_TOKEN_EXPIRY_SECONDS,
            r,
        ),
        r matches Ok(resp) ==> resp matches OIDAuthenticateResponse::ExistingLinked(tok) ==> ({
            &&& claims_email_ok(claims)
            &&& has_user_email(old(store).users@, claimed_email(claims))
            &&& rotate_post(
                old(store).tokens@,
                final(store).tokens@,
                user_of_email(old(store).users@, claimed_email(claims)).id,
                tok.user_token_data.refresh_token@,
                now,
            )
            &&& final(store).users@ == old(store).users@
            &&& final(store).links@ == old(store).links@
            &&& final(store).next_user_id == old(store).next_user_id
        }),
{
    let email = match &claims.email {
        Some(e) => match EmailAddress::parse(e.as_str()) {
            Ok(email) => email,
            Err(v) => {
                return Err(IdentityError::Validation(v));
            },
        },
        None => {
            return Err(IdentityError::OID(OIDError::ClaimMissingEmail));
        },
    };
    let existing = match store.find_user_by_email(&email) {
        Some(user) => Some(user.clone()),
        None => None,
    };
    match existing {
        Some(user) => {
            if store.find_link(user.id, provider).is_none() {
                return Err(IdentityError::OID(OIDError::NotLinked));
            }
            match auth.create_user_token(store, &user, now) {
                Ok(user_token_data) => Ok(
                    OIDAuthenticateResponse::ExistingLinked(TokenResponse { user_token_data }),
                ),
                Err(_) => Err(IdentityError::Auth(AuthError::FailedTokenIssue)),
            }
        },
        None => {
            let default_username = match &claims.preferred_username {
                Some(p) => match Username::parse(p.as_str()) {
                    Ok(u) => Some(u),
                    Err(_) => None,
                },
                None => None,
            };
            Ok(OIDAuthenticateResponse::CreateAccount { claims, default_username })
        },
    }
}

/// Creates an account from decoded OpenID claims and user-provided details:
/// re-checks both uniqueness constraints, hashes the password, then commits
/// the user row, the verified-email mark (when the provider asserted it) and
/// the provider link as one atomic step — on any failure no partial state
/// remains — and issues a credential pair for the new user.
pub fn openid_create(
    auth: &AuthService,
    store: &mut CredentialStore,
    req: OIDCreateRequest,
    now: i64,
) -> (r: Result<TokenResponse, IdentityError>)
    requires
        old(store).wf(),
        old(store).next_user_id < i32::MAX,
        now + USER_TOKEN_EXPIRY_SECONDS <= i64::MAX,
    ensures
        final(store).wf(),
        r is Err && r->Err_0 != IdentityError::Auth(AuthError::FailedTokenIssue) ==> *final(store)
            == *old(store),
        r == Err::<TokenResponse, IdentityError>(
            IdentityError::Auth(AuthError::FailedTokenIssue),
        ) ==> final(store).tokens@ == old(store).tokens@,
        req.claims.email is None ==> r == Err::<TokenResponse, IdentityError>(
            IdentityError::OID(OIDError::ClaimMissingEmail),
        ),
        req.claims.email is Some && !email_valid(claimed_email(req.claims)) ==> r == Err::<
            TokenResponse,
            IdentityError,
        >(IdentityError::Validation(ValidationError::InvalidEmail)),
        claims_email_ok(req.claims) && has_user_email(
            old(store).users@,
            claimed_email(req.claims),
        ) ==> r == Err::<TokenResponse, IdentityError>(IdentityError::Auth(AuthError::EmailExists)),
        claims_email_ok(req.claims) && !has_user_email(
            old(store).users@,
            claimed_email(req.claims),
        ) && has_username(old(store).users@, req.username@) ==> r == Err::<
            TokenResponse,
            IdentityError,
        >(IdentityError::Auth(AuthError::UsernameExists)),
        claims_email_ok(req.claims) && !has_user_email(
            old(store).users@,
            claimed_email(req.claims),
        ) && !has_username(old(store).users@, req.username@) && has_link(
            old(store).links@,
            old(store).next_user_id,
            req.provider,
        ) ==> r == Err::<TokenResponse, IdentityError>(IdentityError::Store(StoreError::Duplicate)),
        claims_email_ok(req.claims) && !has_user_email(
            old(store).users@,
            claimed_email(req.claims),
        ) && !has_username(old(store).users@, req.username@) && !has_link(
            old(store).links@,
            old(store).next_user_id,
            req.provider,
        ) ==> (r is Ok || r == Err::<TokenResponse, IdentityError>(
            IdentityError::Auth(AuthError::FailedTokenIssue),
        )),
        r == Err::<TokenResponse, IdentityError>(
            IdentityError::Auth(AuthError::FailedTokenIssue),
        ) ==> (*final(store) == *old(store) || (account_created(
            *old(store),
            *final(store),
            claimed_email(req.claims),
            req.username@,
            req.password@,
            req.claims.email_verified,
            req.provider,
            now,
        ) && final(store).tokens@ == old(store).tokens@)),
        r matches Ok(resp) ==> {
            let email = claimed_email(req.claims);
            let uid = old(store).next_user_id;
            let expiry = now + USER_TOKEN_EXPIRY_SECONDS;
            &&& req.claims.email is Some
            &&& email_valid(email)
            &&& !has_user_email(old(store).users@, email)
            &&& !has_username(old(store).users@, req.username@)
            &&& account_created(
                *old(store),
                *final(store),
                email,
                req.username@,
                req.password@,
                req.claims.email_verified,
                req.provider,
                now,
            )
            &&& resp.user_token_data.expiry == expiry
            &&& resp.user_token_data.token@ == jwt_token_of(auth.key(), uid as int, expiry as int)
            &&& jwt_claims_of(auth.key(), resp.user_token_data.token@) == Some(
                (uid as int, expiry as int),
            )
            &&& refresh_token_shape(resp.user_token_data.refresh_token@)
            &&& rotate_post(
                old(store).tokens@,
                final(store).tokens@,
                uid,
                resp.user_token_data.refresh_token@,
                now,
            )
        },
{
    let email = match &req.claims.email {
        Some(e) => match EmailAddress::parse(e.as_str()) {
            Ok(email) => email,
            Err(v) => {
                return Err(IdentityError::Validation(v));
            },
        },
        None => {
            return Err(IdentityError::OID(OIDError::ClaimMissingEmail));
        },
    };
    if store.is_email_taken(&email) {
        return Err(IdentityError::Auth(AuthError::EmailExists));
    }
    if store.is_username_taken(req.username.as_str()) {
        return Err(IdentityError::Auth(AuthError::UsernameExists));
    }
    // The transaction: the user row, the verified-at mark and the link
    // either all appear or none does. The one write that could be refused —
    // the link, were its key already taken — is checked before anything is
    // written.
    if store.find_link(store.next_user_id, req.provider).is_some() {
        return Err(IdentityError::Store(StoreError::Duplicate));
    }
    let hashed_password = match hash_password(req.password.as_str()) {
        Ok(h) => h,
        Err(_) => {
            return Err(IdentityError::Auth(AuthError::FailedTokenIssue));
        },
    };
    let created = store.create_user(
        CreateUser {
            email: email.into_inner(),
            username: req.username.into_inner(),
            password: hashed_password,
        },
        now,
    );
    let mut user = match created {
        Ok(user) => user,
        Err(_) => {
            return Err(IdentityError::Store(StoreError::Duplicate));
        },
    };
    proof {
        assert(store.users@.drop_last() =~= old(store).users@);
    }
    if req.claims.email_verified {
        let ghost mid = *store;
        user = match store.set_email_verified(user.id, now) {
            Some(user) => user,
            None => {
                return Err(IdentityError::Store(StoreError::Duplicate));
            },
        };
        proof {
            let n = old(store).users@.len() as int;
            assert(mid.users@[n].id == user.id);
            assert(user_of_id(mid.users@, user.id) == mid.users@[n]) by {
                let w = choose|w: int|
                    0 <= w < mid.users@.len() && (#[trigger] mid.users@[w]).id == user.id;
                if w != n {
                    assert(old(store).users@[w].id < old(store).next_user_id);
                }
            }
            assert forall|i: int| 0 <= i < n implies store.users@[i] == old(store).users@[i] by {
                assert(mid.users@[i] == old(store).users@[i]);
                assert(old(store).users@[i].id < old(store).next_user_id);
            }
            assert(store.users@.drop_last() =~= old(store).users@);
            assert(store.users@[n] == user);
        }
    }
    let linked = store.create_link(user.id, req.provider, now);
    match linked {
        Ok(_) => {},
        Err(_) => {
            return Err(IdentityError::Store(StoreError::Duplicate));
        },
    }
    proof {
        assert(store.links@.drop_last() =~= old(store).links@);
        assert(account_created(
            *old(store),
            *store,
            claimed_email(req.claims),
            req.username@,
            req.password@,
            req.claims.email_verified,
            req.provider,
            now,
        ));
    }
    match auth.create_user_token(store, &user, now) {
        Ok(user_token_data) => Ok(TokenResponse { user_token_data }),
        Err(_) => Err(IdentityError::Auth(AuthError::FailedTokenIssue)),
    }
}

} // verus!
