use auth_core::flow::{basic_login, basic_register, refresh_token, AuthError, AuthorizeError};
use auth_core::flow::{authorize_user, BasicLoginRequest, BasicRegisterRequest, RefreshTokenRequest};
use auth_core::store::{CredentialStore, User, UserRole};
use auth_core::token::{AuthService, TokenError};
use auth_core::types::{EmailAddress, Password, Username};

const NOW: i64 = 1_700_000_000;

fn service() -> AuthService {
    AuthService::new(b"a test signing secret".to_vec())
}

fn register_request(email: &str, username: &str, password: &str) -> BasicRegisterRequest {
    BasicRegisterRequest {
        username: Username::parse(username).unwrap(),
        email: EmailAddress::parse(email).unwrap(),
        password: Password::parse(password).unwrap(),
    }
}

#[test]
fn registration_yields_verifiable_token_for_new_user() {
    let auth = service();
    let mut store = CredentialStore::new();
    let resp = basic_register(
        &auth,
        &mut store,
        register_request("new.user@example.com", "newuser", "password1"),
        NOW,
    )
    .unwrap();
    let data = resp.user_token_data;
    assert_eq!(data.expiry, NOW + 1800);
    let claims = auth.verify_user_token(&data.token, NOW).unwrap();
    assert_eq!(claims.user_id, 1);
    assert_eq!(claims.exp, NOW + 1800);
    assert_eq!(store.users.len(), 1);
    assert_eq!(store.users[0].id, 1);
    assert_eq!(store.users[0].email, "new.user@example.com");
    assert_eq!(store.users[0].username, "newuser");
    assert!(matches!(store.users[0].role, UserRole::Standard));
    // The stored password is a hash, not the password itself.
    assert_ne!(store.users[0].password.as_deref(), Some("password1"));
}

#[test]
fn case_variant_email_registration_fails_with_email_exists() {
    let auth = service();
    let mut store = CredentialStore::new();
    basic_register(
        &auth,
        &mut store,
        register_request("Test@Example.com", "firstuser", "password1"),
        NOW,
    )
    .unwrap();
    assert_eq!(store.users[0].email, "test@example.com");
    let second = basic_register(
        &auth,
        &mut store,
        register_request("test@EXAMPLE.com", "seconduser", "password2"),
        NOW + 1,
    );
    assert_eq!(second.unwrap_err(), AuthError::EmailExists);
    assert_eq!(store.users.len(), 1);
}

#[test]
fn duplicate_username_registration_fails() {
    let auth = service();
    let mut store = CredentialStore::new();
    basic_register(
        &auth,
        &mut store,
        register_request("one@example.com", "sameuser", "password1"),
        NOW,
    )
    .unwrap();
    let second = basic_register(
        &auth,
        &mut store,
        register_request("two@example.com", "SameUser", "password2"),
        NOW,
    );
    assert_eq!(second.unwrap_err(), AuthError::UsernameExists);
}

#[test]
fn login_checks_email_and_password() {
    let auth = service();
    let mut store = CredentialStore::new();
    basic_register(
        &auth,
        &mut store,
        register_request("who@example.com", "whoever", "correct horse"),
        NOW,
    )
    .unwrap();
    let missing = basic_login(
        &auth,
        &mut store,
        BasicLoginRequest {
            email: EmailAddress::parse("other@example.com").unwrap(),
            password: Password::parse("correct horse").unwrap(),
        },
        NOW,
    );
    assert_eq!(missing.unwrap_err(), AuthError::EmailNotFound);
    let wrong = basic_login(
        &auth,
        &mut store,
        BasicLoginRequest {
            email: EmailAddress::parse("who@example.com").unwrap(),
            password: Password::parse("incorrect horse").unwrap(),
        },
        NOW,
    );
    assert_eq!(wrong.unwrap_err(), AuthError::IncorrectPassword);
    let ok = basic_login(
        &auth,
        &mut store,
        BasicLoginRequest {
            email: EmailAddress::parse("WHO@example.com").unwrap(),
            password: Password::parse("correct horse").unwrap(),
        },
        NOW,
    )
    .unwrap();
    let claims = auth.verify_user_token(&ok.user_token_data.token, NOW).unwrap();
    assert_eq!(claims.user_id, 1);
}

#[test]
fn refresh_rotates_and_invalidates_the_presented_token() {
    let auth = service();
    let mut store = CredentialStore::new();
    let issued = basic_register(
        &auth,
        &mut store,
        register_request("rot@example.com", "rotator", "password1"),
        NOW,
    )
    .unwrap();
    let first = issued.user_token_data.refresh_token;
    let refreshed = auth
        .refresh_user_token(&mut store, &first, NOW + 10)
        .unwrap();
    assert_ne!(refreshed.refresh_token, first);
    // The previously issued refresh token is no longer valid.
    let again = auth.refresh_user_token(&mut store, &first, NOW + 20);
    assert_eq!(again.unwrap_err(), TokenError::InvalidRefreshToken);
    // The rotated one is.
    let third = auth
        .refresh_user_token(&mut store, &refreshed.refresh_token, NOW + 30)
        .unwrap();
    assert_ne!(third.refresh_token, refreshed.refresh_token);
}

#[test]
fn refresh_token_flow_maps_errors() {
    let auth = service();
    let mut store = CredentialStore::new();
    let err = refresh_token(
        &auth,
        &mut store,
        &RefreshTokenRequest { refresh_token: "unknown".to_string() },
        NOW,
    );
    assert_eq!(err.unwrap_err(), AuthError::FailedTokenIssue);
}

#[test]
fn refresh_tokens_have_the_documented_shape() {
    let auth = service();
    let mut store = CredentialStore::new();
    let issued = basic_register(
        &auth,
        &mut store,
        register_request("shape@example.com", "shapely", "password1"),
        NOW,
    )
    .unwrap();
    let value = issued.user_token_data.refresh_token;
    assert_eq!(value.chars().count(), 128);
    assert!(value.chars().all(|c| c.is_ascii_alphanumeric()));
}

#[test]
fn rotation_is_last_write_wins() {
    let auth = service();
    let mut store = CredentialStore::new();
    let user = {
        basic_register(
            &auth,
            &mut store,
            register_request("last@example.com", "lastwriter", "password1"),
            NOW,
        )
        .unwrap();
        store.users[0].clone()
    };
    let v1 = AuthService::create_refresh_token(&mut store, &user, NOW + 1).unwrap();
    let v2 = AuthService::create_refresh_token(&mut store, &user, NOW + 2).unwrap();
    assert_ne!(v1, v2);
    // Exactly one token for the user, and it is the later value.
    let users_tokens: Vec<_> = store
        .tokens
        .iter()
        .filter(|t| t.user_id == user.id)
        .collect();
    assert_eq!(users_tokens.len(), 1);
    assert_eq!(users_tokens[0].refresh_token, v2);
    assert_eq!(users_tokens[0].created_at, NOW + 2);
    assert!(store.find_refresh_token(&v1).is_none());
}

#[test]
fn verify_fails_after_expiry_and_on_garbage() {
    let auth = service();
    let mut store = CredentialStore::new();
    let issued = basic_register(
        &auth,
        &mut store,
        register_request("exp@example.com", "expirer", "password1"),
        NOW,
    )
    .unwrap();
    let token = issued.user_token_data.token;
    assert!(auth.verify_user_token(&token, NOW).is_ok());
    assert!(auth.verify_user_token(&token, NOW + 1799).is_ok());
    let late = auth.verify_user_token(&token, NOW + 1800);
    assert_eq!(late.unwrap_err(), TokenError::InvalidToken);
    let garbage = auth.verify_user_token("not-a-token", NOW);
    assert_eq!(garbage.unwrap_err(), TokenError::InvalidToken);
}

#[test]
fn verify_rejects_tokens_signed_with_another_key() {
    let auth = service();
    let other = AuthService::new(b"a different secret".to_vec());
    let mut store = CredentialStore::new();
    let issued = basic_register(
        &auth,
        &mut store,
        register_request("key@example.com", "keyuser", "password1"),
        NOW,
    )
    .unwrap();
    let token = issued.user_token_data.token;
    assert!(other.verify_user_token(&token, NOW).is_err());
}

#[test]
fn verify_rejects_tampered_tokens() {
    let auth = service();
    let mut store = CredentialStore::new();
    let issued = basic_register(
        &auth,
        &mut store,
        register_request("tamper@example.com", "tamperer", "password1"),
        NOW,
    )
    .unwrap();
    let mut token = issued.user_token_data.token;
    token.push('x');
    assert!(auth.verify_user_token(&token, NOW).is_err());
}

#[test]
fn authorize_user_loads_the_subject() {
    let auth = service();
    let mut store = CredentialStore::new();
    let issued = basic_register(
        &auth,
        &mut store,
        register_request("authz@example.com", "authzuser", "password1"),
        NOW,
    )
    .unwrap();
    let user = authorize_user(&auth, &store, &issued.user_token_data.token, NOW).unwrap();
    assert_eq!(user.id, 1);
    assert_eq!(user.email, "authz@example.com");
    let bad = authorize_user(&auth, &store, "garbage", NOW);
    assert_eq!(
        bad.unwrap_err(),
        AuthorizeError::Token(TokenError::InvalidToken)
    );
}

#[test]
fn authorize_user_fails_for_a_vanished_user() {
    let auth = service();
    let mut store = CredentialStore::new();
    // Issue a token for a user record that is not in the store.
    let ghost_user = User {
        id: 99,
        email: "ghost@example.com".to_string(),
        email_verified_at: None,
        username: "ghostuser".to_string(),
        password: None,
        role: UserRole::Standard,
        created_at: NOW,
        updated_at: NOW,
    };
    let data = auth
        .create_user_token(&mut store, &ghost_user, NOW)
        .unwrap();
    let res = authorize_user(&auth, &store, &data.token, NOW);
    assert_eq!(res.unwrap_err(), AuthorizeError::UnknownUser);
}
