use auth_core::registry::AuthProvider;
use auth_core::store::{CreateUser, CredentialStore, StoreError, UserRole};
use auth_core::types::EmailAddress;

const NOW: i64 = 1_700_000_000;

fn create(email: &str, username: &str) -> CreateUser {
    CreateUser {
        email: email.to_string(),
        username: username.to_string(),
        password: "a-password-hash".to_string(),
    }
}

#[test]
fn create_user_assigns_sequential_ids() {
    let mut store = CredentialStore::new();
    let a = store.create_user(create("a@example.com", "usera"), NOW).unwrap();
    let b = store.create_user(create("b@example.com", "userb"), NOW).unwrap();
    assert_eq!(a.id, 1);
    assert_eq!(b.id, 2);
    assert_eq!(store.next_user_id, 3);
    assert!(matches!(a.role, UserRole::Standard));
    assert_eq!(a.email_verified_at, None);
    assert_eq!(a.created_at, NOW);
    assert_eq!(a.updated_at, NOW);
}

#[test]
fn duplicate_email_create_is_refused() {
    let mut store = CredentialStore::new();
    store.create_user(create("dup@example.com", "usera"), NOW).unwrap();
    let second = store.create_user(create("dup@example.com", "userb"), NOW);
    assert_eq!(second.unwrap_err(), StoreError::Duplicate);
    assert_eq!(store.users.len(), 1);
    assert_eq!(store.next_user_id, 2);
}

#[test]
fn lookups_find_what_was_created() {
    let mut store = CredentialStore::new();
    let user = store.create_user(create("find@example.com", "finder"), NOW).unwrap();
    assert_eq!(store.find_user_by_id(user.id).unwrap().email, "find@example.com");
    assert!(store.find_user_by_id(42).is_none());
    let email = EmailAddress::parse("find@example.com").unwrap();
    assert_eq!(store.find_user_by_email(&email).unwrap().id, user.id);
    assert!(store.is_email_taken(&email));
    assert!(!store.is_email_taken(&EmailAddress::parse("other@example.com").unwrap()));
    assert!(store.is_username_taken("finder"));
    assert!(!store.is_username_taken("nobody"));
}

#[test]
fn set_email_verified_updates_only_the_named_user() {
    let mut store = CredentialStore::new();
    let a = store.create_user(create("a@example.com", "usera"), NOW).unwrap();
    let b = store.create_user(create("b@example.com", "userb"), NOW).unwrap();
    let updated = store.set_email_verified(a.id, NOW + 5).unwrap();
    assert_eq!(updated.email_verified_at, Some(NOW + 5));
    assert_eq!(updated.updated_at, NOW + 5);
    assert_eq!(store.users[0].email_verified_at, Some(NOW + 5));
    assert_eq!(store.users[1].email_verified_at, None);
    assert_eq!(store.find_user_by_id(b.id).unwrap().updated_at, NOW);
    assert!(store.set_email_verified(42, NOW).is_none());
}

#[test]
fn links_are_unique_per_user_and_provider() {
    let mut store = CredentialStore::new();
    let user = store.create_user(create("l@example.com", "linker"), NOW).unwrap();
    store.create_link(user.id, AuthProvider::Google, NOW).unwrap();
    let duplicate = store.create_link(user.id, AuthProvider::Google, NOW + 1);
    assert_eq!(duplicate.unwrap_err(), StoreError::Duplicate);
    // A different provider for the same user is a different link.
    store.create_link(user.id, AuthProvider::Microsoft, NOW).unwrap();
    assert_eq!(store.links.len(), 2);
    assert!(store.find_link(user.id, AuthProvider::Google).is_some());
    assert!(store.find_link(99, AuthProvider::Google).is_none());
}

#[test]
fn upsert_replaces_a_users_token() {
    let mut store = CredentialStore::new();
    store.upsert_refresh_token(1, "token-one".to_string(), NOW).unwrap();
    store.upsert_refresh_token(1, "token-two".to_string(), NOW + 1).unwrap();
    assert_eq!(store.tokens.len(), 1);
    assert_eq!(store.tokens[0].refresh_token, "token-two");
    assert_eq!(store.tokens[0].created_at, NOW + 1);
    assert!(store.find_refresh_token("token-one").is_none());
    let found = store.find_refresh_token("token-two").unwrap();
    assert_eq!(found.user_id, 1);
}

#[test]
fn upsert_refuses_another_users_token_value() {
    let mut store = CredentialStore::new();
    store.upsert_refresh_token(1, "shared-value".to_string(), NOW).unwrap();
    let conflict = store.upsert_refresh_token(2, "shared-value".to_string(), NOW);
    assert_eq!(conflict.unwrap_err(), StoreError::Duplicate);
    assert_eq!(store.tokens.len(), 1);
    assert_eq!(store.tokens[0].user_id, 1);
    // Re-upserting the same value for the same user is allowed.
    store.upsert_refresh_token(1, "shared-value".to_string(), NOW + 2).unwrap();
    assert_eq!(store.tokens.len(), 1);
    assert_eq!(store.tokens[0].created_at, NOW + 2);
}

#[test]
fn tokens_of_distinct_users_coexist() {
    let mut store = CredentialStore::new();
    store.upsert_refresh_token(1, "value-one".to_string(), NOW).unwrap();
    store.upsert_refresh_token(2, "value-two".to_string(), NOW).unwrap();
    store.upsert_refresh_token(1, "value-three".to_string(), NOW + 1).unwrap();
    assert_eq!(store.tokens.len(), 2);
    assert_eq!(store.find_refresh_token("value-two").unwrap().user_id, 2);
    assert_eq!(store.find_refresh_token("value-three").unwrap().user_id, 1);
    assert!(store.find_refresh_token("value-one").is_none());
}
