use auth_core::guard;
use auth_core::types::{EmailAddress, Password, Username, ValidationError};

#[test]
fn email_is_normalized_to_lowercase() {
    let email = EmailAddress::parse("Test@Example.com").unwrap();
    assert_eq!(email.as_str(), "test@example.com");
}

#[test]
fn email_is_trimmed() {
    let email = EmailAddress::parse("  USER@Host.Org \t\n").unwrap();
    assert_eq!(email.as_str(), "user@host.org");
}

#[test]
fn email_prepare_lowercases_and_trims() {
    assert_eq!(EmailAddress::prepare(" A@B.C "), "a@b.c");
    assert_eq!(EmailAddress::prepare(""), "");
}

#[test]
fn email_without_at_is_rejected() {
    assert_eq!(
        EmailAddress::parse("no-at-sign.example.com").unwrap_err(),
        ValidationError::InvalidEmail
    );
}

#[test]
fn email_with_two_ats_is_rejected() {
    assert!(EmailAddress::parse("a@b@c.com").is_err());
}

#[test]
fn email_without_domain_dot_is_rejected() {
    assert!(EmailAddress::parse("user@localhost").is_err());
}

#[test]
fn email_with_empty_local_part_is_rejected() {
    assert!(EmailAddress::parse("@example.com").is_err());
}

#[test]
fn empty_email_is_rejected() {
    assert!(EmailAddress::parse("").is_err());
    assert!(EmailAddress::parse("   ").is_err());
}

#[test]
fn email_with_inner_space_is_rejected() {
    assert!(EmailAddress::parse("a b@example.com").is_err());
}

#[test]
fn email_accessors_agree() {
    let email = EmailAddress::parse("Someone@Example.com").unwrap();
    assert_eq!(email.clone_inner(), "someone@example.com");
    assert_eq!(email.clone().into_inner(), "someone@example.com");
}

#[test]
fn username_is_normalized() {
    let name = Username::parse("  AliceBob42 ").unwrap();
    assert_eq!(name.as_str(), "alicebob42");
    assert_eq!(name.clone_inner(), "alicebob42");
    assert_eq!(name.clone().into_inner(), "alicebob42");
}

#[test]
fn username_prepare_lowercases_and_trims() {
    assert_eq!(Username::prepare(" MixedCase99 "), "mixedcase99");
}

#[test]
fn too_short_username_is_rejected() {
    assert_eq!(
        Username::parse("abc").unwrap_err(),
        ValidationError::InvalidUsername
    );
}

#[test]
fn too_long_username_is_rejected() {
    let long: String = std::iter::repeat('a').take(101).collect();
    assert!(Username::parse(&long).is_err());
    let just_fits: String = std::iter::repeat('a').take(100).collect();
    assert!(Username::parse(&just_fits).is_ok());
}

#[test]
fn username_with_punctuation_is_rejected() {
    assert!(Username::parse("ali ce").is_err());
    assert!(Username::parse("ali-ce").is_err());
    assert!(Username::parse("alice!").is_err());
}

#[test]
fn password_is_trimmed_but_not_lowercased() {
    let password = Password::parse("  Hunter2  ").unwrap();
    assert_eq!(password.as_str(), "Hunter2");
    assert_eq!(password.clone_inner(), "Hunter2");
    assert_eq!(password.clone().into_inner(), "Hunter2");
    assert_eq!(Password::prepare(" KeepCase "), "KeepCase");
}

#[test]
fn short_password_is_rejected() {
    match Password::parse("abc") {
        Err(e) => assert_eq!(e, ValidationError::InvalidPassword),
        Ok(_) => panic!("short password accepted"),
    }
}

#[test]
fn non_ascii_password_is_rejected() {
    assert!(Password::parse("pässwörter").is_err());
}

#[test]
fn guard_returns_error_exactly_when_condition_fails() {
    assert_eq!(guard(true, 7u8), Ok(()));
    assert_eq!(guard(false, 7u8), Err(7u8));
}
