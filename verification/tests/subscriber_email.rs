use zero2prod::domain::{SubscriberEmail, SubscriberName, ValidationError};

#[test]
fn empty_string_is_rejected() {
    let email = "".to_string();
    assert!(SubscriberEmail::parse(email).is_err());
}

#[test]
fn email_missing_at_symbol_is_rejected() {
    let email = "hellohello.com".to_string();
    assert!(SubscriberEmail::parse(email).is_err());
}

#[test]
fn email_missing_subject_is_rejected() {
    let email = "@hello.com".to_string();
    assert!(SubscriberEmail::parse(email).is_err());
}

#[test]
fn email_missing_domain_is_rejected() {
    let email = "abc@".to_string();
    assert!(SubscriberEmail::parse(email).is_err());
}

#[test]
fn valid_email_is_parsed() {
    let email = SubscriberEmail::parse("arun@arun.com".to_string()).unwrap();
    assert_eq!(email.as_ref(), "arun@arun.com");
}

#[test]
fn email_rejection_is_a_validation_error() {
    assert!(matches!(
        SubscriberEmail::parse("not-an-email".to_string()),
        Err(ValidationError::InvalidEmail)
    ));
}

#[test]
fn empty_name_is_rejected() {
    assert!(SubscriberName::parse("".to_string()).is_err());
}

#[test]
fn whitespace_only_name_is_rejected() {
    assert!(matches!(
        SubscriberName::parse("   \t ".to_string()),
        Err(ValidationError::InvalidName)
    ));
}

#[test]
fn name_with_forbidden_character_is_rejected() {
    for name in ["a/b", "a(b", "a)b", "a\"b", "a<b", "a>b", "a\\b", "a{b", "a}b"] {
        assert!(SubscriberName::parse(name.to_string()).is_err());
    }
}

#[test]
fn name_with_control_character_is_rejected() {
    assert!(SubscriberName::parse("a\u{7}b".to_string()).is_err());
}

#[test]
fn a_256_character_name_is_accepted() {
    let name: String = "a".repeat(256);
    assert!(SubscriberName::parse(name).is_ok());
}

#[test]
fn a_257_character_name_is_rejected() {
    let name: String = "a".repeat(257);
    assert!(SubscriberName::parse(name).is_err());
}

#[test]
fn valid_name_is_parsed() {
    let name = SubscriberName::parse("arun manivannan".to_string()).unwrap();
    assert_eq!(name.as_ref(), "arun manivannan");
}
