use auth_core::flow::{
    openid_authenticate, openid_create, AuthError, ClaimsPayload, IdentityError,
    OIDAuthenticateResponse, OIDCreateRequest, OIDError,
};
use auth_core::registry::{AuthProvider, ProviderRegistry, SCOPES};
use auth_core::store::CredentialStore;
use auth_core::token::AuthService;
use auth_core::types::{Password, Username, ValidationError};

const NOW: i64 = 1_700_000_000;

fn service() -> AuthService {
    AuthService::new(b"a test signing secret".to_vec())
}

fn claims_with_email(email: &str) -> ClaimsPayload {
    ClaimsPayload {
        email: Some(email.to_string()),
        preferred_username: None,
        email_verified: false,
    }
}

fn create_request(provider: AuthProvider, email: &str, username: &str) -> OIDCreateRequest {
    OIDCreateRequest {
        provider,
        claims: ClaimsPayload {
            email: Some(email.to_string()),
            preferred_username: None,
            email_verified: true,
        },
        username: Username::parse(username).unwrap(),
        password: Password::parse("password1").unwrap(),
    }
}

#[test]
fn unknown_email_leads_to_account_creation() {
    let auth = service();
    let mut store = CredentialStore::new();
    let res = openid_authenticate(
        &auth,
        &mut store,
        AuthProvider::Google,
        ClaimsPayload {
            email: Some("Fresh@Example.com".to_string()),
            preferred_username: Some(" FreshUser ".to_string()),
            email_verified: true,
        },
        NOW,
    )
    .unwrap();
    match res {
        OIDAuthenticateResponse::CreateAccount { claims, default_username } => {
            assert_eq!(claims.email.as_deref(), Some("Fresh@Example.com"));
            assert_eq!(default_username.unwrap().as_str(), "freshuser");
        }
        OIDAuthenticateResponse::ExistingLinked(_) => panic!("expected account creation"),
    }
    assert_eq!(store.users.len(), 0);
}

#[test]
fn unusable_preferred_username_is_dropped() {
    let auth = service();
    let mut store = CredentialStore::new();
    let res = openid_authenticate(
        &auth,
        &mut store,
        AuthProvider::Google,
        ClaimsPayload {
            email: Some("fresh@example.com".to_string()),
            preferred_username: Some("a".to_string()),
            email_verified: false,
        },
        NOW,
    )
    .unwrap();
    match res {
        OIDAuthenticateResponse::CreateAccount { default_username, .. } => {
            assert!(default_username.is_none());
        }
        OIDAuthenticateResponse::ExistingLinked(_) => panic!("expected account creation"),
    }
}

#[test]
fn missing_email_claim_is_refused() {
    let auth = service();
    let mut store = CredentialStore::new();
    let res = openid_authenticate(
        &auth,
        &mut store,
        AuthProvider::Google,
        ClaimsPayload { email: None, preferred_username: None, email_verified: false },
        NOW,
    );
    assert_eq!(
        res.unwrap_err(),
        IdentityError::OID(OIDError::ClaimMissingEmail)
    );
}

#[test]
fn invalid_email_claim_is_refused() {
    let auth = service();
    let mut store = CredentialStore::new();
    let res = openid_authenticate(
        &auth,
        &mut store,
        AuthProvider::Google,
        claims_with_email("not-an-email"),
        NOW,
    );
    assert_eq!(
        res.unwrap_err(),
        IdentityError::Validation(ValidationError::InvalidEmail)
    );
}

#[test]
fn linked_account_logs_in_and_unlinked_provider_is_refused() {
    let auth = service();
    let mut store = CredentialStore::new();
    let created = openid_create(
        &auth,
        &mut store,
        create_request(AuthProvider::Google, "Linked@Example.com", "linkeduser"),
        NOW,
    )
    .unwrap();
    assert_eq!(store.users.len(), 1);
    assert_eq!(store.users[0].email, "linked@example.com");
    assert_eq!(store.users[0].email_verified_at, Some(NOW));
    assert_eq!(store.links.len(), 1);
    let claims = auth
        .verify_user_token(&created.user_token_data.token, NOW)
        .unwrap();
    assert_eq!(claims.user_id, 1);

    // Same email through the linked provider: a login.
    let linked = openid_authenticate(
        &auth,
        &mut store,
        AuthProvider::Google,
        claims_with_email("linked@example.com"),
        NOW + 5,
    )
    .unwrap();
    match linked {
        OIDAuthenticateResponse::ExistingLinked(resp) => {
            let claims = auth
                .verify_user_token(&resp.user_token_data.token, NOW + 5)
                .unwrap();
            assert_eq!(claims.user_id, 1);
        }
        OIDAuthenticateResponse::CreateAccount { .. } => panic!("expected a login"),
    }

    // Same email through another provider: refused, no silent takeover.
    let other = openid_authenticate(
        &auth,
        &mut store,
        AuthProvider::Microsoft,
        claims_with_email("linked@example.com"),
        NOW + 6,
    );
    assert_eq!(other.unwrap_err(), IdentityError::OID(OIDError::NotLinked));
}

#[test]
fn unverified_email_claim_leaves_account_unverified() {
    let auth = service();
    let mut store = CredentialStore::new();
    let mut req = create_request(AuthProvider::Google, "plain@example.com", "plainuser");
    req.claims.email_verified = false;
    openid_create(&auth, &mut store, req, NOW).unwrap();
    assert_eq!(store.users[0].email_verified_at, None);
}

#[test]
fn account_creation_rechecks_uniqueness() {
    let auth = service();
    let mut store = CredentialStore::new();
    openid_create(
        &auth,
        &mut store,
        create_request(AuthProvider::Google, "taken@example.com", "takenuser"),
        NOW,
    )
    .unwrap();
    let email_taken = openid_create(
        &auth,
        &mut store,
        create_request(AuthProvider::Microsoft, "Taken@Example.com", "otheruser"),
        NOW + 1,
    );
    assert_eq!(
        email_taken.unwrap_err(),
        IdentityError::Auth(AuthError::EmailExists)
    );
    let username_taken = openid_create(
        &auth,
        &mut store,
        create_request(AuthProvider::Microsoft, "other@example.com", "TakenUser"),
        NOW + 2,
    );
    assert_eq!(
        username_taken.unwrap_err(),
        IdentityError::Auth(AuthError::UsernameExists)
    );
    assert_eq!(store.users.len(), 1);
}

#[test]
fn failed_link_creation_leaves_no_user_row() {
    let auth = service();
    let mut store = CredentialStore::new();
    // Force link creation to fail: occupy the link key the transaction will
    // claim for the next user id.
    store
        .create_link(store.next_user_id, AuthProvider::Google, NOW)
        .unwrap();
    let res = openid_create(
        &auth,
        &mut store,
        create_request(AuthProvider::Google, "atomic@example.com", "atomicuser"),
        NOW,
    );
    assert_eq!(
        res.unwrap_err(),
        IdentityError::Store(auth_core::store::StoreError::Duplicate)
    );
    // No partial state: no user row persists, no token was stored.
    assert_eq!(store.users.len(), 0);
    assert_eq!(store.tokens.len(), 0);
}

#[test]
fn provider_registry_caches_with_ttl() {
    let mut registry: ProviderRegistry<u32> = ProviderRegistry::new(3600);
    assert!(registry.get_provider(AuthProvider::Google, NOW).is_none());
    registry.store_provider(AuthProvider::Google, 7, NOW);
    assert_eq!(registry.get_provider(AuthProvider::Google, NOW), Some(&7));
    assert_eq!(
        registry.get_provider(AuthProvider::Google, NOW + 3599),
        Some(&7)
    );
    // The entry lapses after its TTL.
    assert!(registry
        .get_provider(AuthProvider::Google, NOW + 3600)
        .is_none());
    // Another provider populates independently.
    assert!(registry.get_provider(AuthProvider::Microsoft, NOW).is_none());
    registry.store_provider(AuthProvider::Microsoft, 9, NOW);
    assert_eq!(
        registry.get_provider(AuthProvider::Microsoft, NOW),
        Some(&9)
    );
    // Re-population replaces the lapsed entry.
    registry.store_provider(AuthProvider::Google, 8, NOW + 4000);
    assert_eq!(
        registry.get_provider(AuthProvider::Google, NOW + 4000),
        Some(&8)
    );
}

#[test]
fn provider_listing_reports_availability() {
    let mut registry: ProviderRegistry<u32> = ProviderRegistry::new(3600);
    registry.store_provider(AuthProvider::Microsoft, 5, NOW);
    let all = registry.get_all_providers(NOW);
    assert_eq!(all.len(), 2);
    assert_eq!(all[0].0, AuthProvider::Google);
    assert!(all[0].1.is_none());
    assert_eq!(all[1].0, AuthProvider::Microsoft);
    assert_eq!(all[1].1, Some(&5));
}

#[test]
fn provider_names_and_scopes() {
    assert_eq!(AuthProvider::all(), [AuthProvider::Google, AuthProvider::Microsoft]);
    assert_eq!(AuthProvider::Google.env_prefix(), "GOOGLE_OPENID");
    assert_eq!(AuthProvider::Microsoft.env_prefix(), "MICROSOFT_OPENID");
    assert_eq!(SCOPES, "openid profile email");
}

#[test]
fn error_names_and_status_codes() {
    assert_eq!(AuthError::FailedTokenIssue.name(), "auth:token_create_failed");
    assert_eq!(AuthError::FailedTokenIssue.status_code(), 500);
    assert_eq!(AuthError::EmailExists.name(), "auth:email_exists");
    assert_eq!(AuthError::EmailExists.status_code(), 409);
    assert_eq!(AuthError::UsernameExists.name(), "auth:username_exists");
    assert_eq!(AuthError::UsernameExists.status_code(), 409);
    assert_eq!(AuthError::EmailNotFound.name(), "auth:email_not_found");
    assert_eq!(AuthError::EmailNotFound.status_code(), 404);
    assert_eq!(AuthError::IncorrectPassword.name(), "auth:incorrect_password");
    assert_eq!(AuthError::IncorrectPassword.status_code(), 400);
    assert_eq!(OIDError::NotLinked.name(), "oid:not_linked");
    assert_eq!(OIDError::NotLinked.status_code(), 409);
    assert_eq!(OIDError::ProviderUnavailable.name(), "oid:provider_unavailable");
    assert_eq!(OIDError::ProviderUnavailable.status_code(), 500);
    assert_eq!(OIDError::InvalidToken.name(), "oid:invalid_token");
    assert_eq!(OIDError::InvalidToken.status_code(), 400);
    assert_eq!(OIDError::Authentication.name(), "oid:auth_failed");
    assert_eq!(OIDError::Authentication.status_code(), 400);
    assert_eq!(OIDError::ClaimMissingEmail.name(), "oid:claim_missing_email");
    assert_eq!(OIDError::ClaimMissingEmail.status_code(), 400);
}

#[test]
fn error_messages_are_stable() {
    assert_eq!(
        AuthError::FailedTokenIssue.message(),
        "Failed to create token, try logging in again"
    );
    assert_eq!(AuthError::EmailExists.message(), "That email address is already in use");
    assert_eq!(AuthError::UsernameExists.message(), "That username is already in use");
    assert_eq!(AuthError::EmailNotFound.message(), "No account with that email address");
    assert_eq!(AuthError::IncorrectPassword.message(), "Incorrect password provided");
    assert_eq!(
        OIDError::ProviderUnavailable.message(),
        "That authentication provider is currently unavailable, try again later."
    );
    assert_eq!(OIDError::InvalidToken.message(), "Authentication token is invalid, try again.");
    assert_eq!(OIDError::Authentication.message(), "Failed to authenticate with OpenID provider");
    assert_eq!(
        OIDError::ClaimMissingEmail.message(),
        "Failed to determine account email address."
    );
    assert!(OIDError::NotLinked.message().contains("account password"));
}
