use zero2prod::domain::{FormData, ValidationError};
use zero2prod::store::{SubscriberStatus, SubscriberStore};
use zero2prod::workflow::{
    complete_registration, subscribe, ApplicationBaseUrl, RegistrationError,
};

fn base_url() -> ApplicationBaseUrl {
    ApplicationBaseUrl("https://my-api.com".to_string())
}

fn valid_form() -> FormData {
    FormData {
        name: "arun manivannan".to_string(),
        email: "arun@arun.com".to_string(),
    }
}

#[test]
fn subscribe_returns_200_for_valid_form_data() {
    let mut store = SubscriberStore::new();
    let pending = subscribe(&mut store, valid_form(), &base_url())
        .expect("Failed to register valid form data");
    let finished = complete_registration(true);
    assert!(finished.is_ok());
    assert_eq!(store.subscription_count(), 1);
    let row = store.subscription_at(0);
    assert_eq!(row.email.as_ref(), "arun@arun.com");
    assert_eq!(row.name.as_ref(), "arun manivannan");
    assert_eq!(row.status, SubscriberStatus::PendingConfirmation);
    assert_eq!(row.status.as_str(), "pending_confirmation");
    assert_eq!(row.id, pending.subscriber_id);
}

#[test]
fn subscribe_returns_400_for_missing_name_or_email() {
    let cases = [
        (Some("arun manivannan"), None, "missing email"),
        (None, Some("arun@arun.com"), "missing name"),
        (None, None, "missing both name and email"),
    ];
    for (name, email, description) in cases {
        let r = FormData::from_parts(
            name.map(|s| s.to_string()),
            email.map(|s| s.to_string()),
        );
        assert!(r.is_err(), "The form was accepted when the payload was {}", description);
        assert_eq!(RegistrationError::ValidationFailed.status_code(), 400);
    }
}

#[test]
fn missing_email_field_is_a_validation_failure() {
    let r = FormData::from_parts(Some("arun manivannan".to_string()), None);
    assert!(matches!(r, Err(ValidationError::MissingEmail)));
}

#[test]
fn subscribe_returns_a_200_when_fields_are_present_but_empty() {
    // empty or malformed fields are rejected as client errors and
    // nothing is written
    let cases = [
        ("", "ursula@gmail.com", "empty name"),
        ("Ursula", "", "empty email"),
        ("Ursula", "not-an-email", "invalid email"),
    ];
    for (name, email, description) in cases {
        let mut store = SubscriberStore::new();
        let form = FormData {
            name: name.to_string(),
            email: email.to_string(),
        };
        let r = subscribe(&mut store, form, &base_url());
        match r {
            Err(e) => {
                assert_eq!(
                    e.status_code(),
                    400,
                    "The API did not fail with 400 when the payload was {}",
                    description
                );
            }
            Ok(_) => panic!("The API accepted the payload {}", description),
        }
        assert_eq!(store.subscription_count(), 0);
        assert_eq!(store.token_count(), 0);
    }
}

#[test]
fn subscribe_sends_a_confirmation_email_for_valid_data() {
    let mut store = SubscriberStore::new();
    let pending = subscribe(&mut store, valid_form(), &base_url())
        .expect("Failed to register valid form data");
    assert_eq!(pending.email_request.to.as_ref(), "arun@arun.com");
    assert_eq!(pending.email_request.subject, "Welcome !");
    assert!(!pending.email_request.html_body.is_empty());
    assert!(!pending.email_request.text_body.is_empty());
}

#[test]
fn subscribe_sends_a_confirmation_email_with_a_link() {
    let mut store = SubscriberStore::new();
    let pending = subscribe(&mut store, valid_form(), &base_url())
        .expect("Failed to register valid form data");

    let link_prefix = "https://my-api.com/subscriptions/confirm?subscription_token=";
    let html = &pending.email_request.html_body;
    let start = html
        .find(link_prefix)
        .expect("The HTML body holds no confirmation link");
    let after = &html[start + link_prefix.len()..];
    let end = after.find('"').expect("The HTML link is not quote-delimited");
    let html_token = &after[..end];

    let text = &pending.email_request.text_body;
    let start = text
        .find(link_prefix)
        .expect("The text body holds no confirmation link");
    let after = &text[start + link_prefix.len()..];
    let end = after.find(' ').expect("The text link is not space-delimited");
    let text_token = &after[..end];

    assert_eq!(store.token_count(), 1);
    let stored = store.token_at(0);
    assert_eq!(html_token, stored.subscription_token);
    assert_eq!(text_token, stored.subscription_token);
    assert_eq!(html_token, pending.subscription_token);
    assert_eq!(stored.subscriber_id, pending.subscriber_id);
}

#[test]
fn failed_notification_surfaces_as_a_server_error() {
    let finished = complete_registration(false);
    match finished {
        Err(e) => {
            assert!(matches!(e, RegistrationError::NotificationFailed));
            assert_eq!(e.status_code(), 500);
        }
        Ok(()) => panic!("An undelivered notification was reported as success"),
    }
}
