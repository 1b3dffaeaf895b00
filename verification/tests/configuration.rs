use zero2prod::configuration::{AppSettings, EmailClientSettings, Environment};

fn email_client_settings(sender_email: &str) -> EmailClientSettings {
    EmailClientSettings {
        base_url: "https://api.postmarkapp.com".to_string(),
        sender_email: sender_email.to_string(),
        authorization_token: "auth-token".to_string(),
        timeout_milliseconds: 10_000,
    }
}

#[test]
fn a_valid_sender_address_is_accepted() {
    let settings = email_client_settings("newsletter@my-api.com");
    let sender = settings.sender().expect("Invalid sender address");
    assert_eq!(sender.as_ref(), "newsletter@my-api.com");
    assert_eq!(settings.timeout(), 10_000);
}

#[test]
fn an_invalid_sender_address_is_rejected() {
    let settings = email_client_settings("not-an-email");
    assert!(settings.sender().is_err());
}

#[test]
fn environment_names_round_trip() {
    assert_eq!(Environment::Local.as_str(), "local");
    assert_eq!(Environment::Production.as_str(), "production");
}

#[test]
fn environment_is_parsed_ignoring_case() {
    assert_eq!(
        Environment::try_from("local".to_string()),
        Ok(Environment::Local)
    );
    assert_eq!(
        Environment::try_from("LOCAL".to_string()),
        Ok(Environment::Local)
    );
    assert_eq!(
        Environment::try_from("Production".to_string()),
        Ok(Environment::Production)
    );
}

#[test]
fn environment_settings_file_names_are_derived() {
    assert_eq!(Environment::Local.config_file_name(), "local.yaml");
    assert_eq!(Environment::Production.config_file_name(), "production.yaml");
}

#[test]
fn unsupported_environment_is_rejected_with_a_message() {
    let r = Environment::try_from("staging".to_string());
    assert_eq!(r, Err("staging is not a supported environment".to_string()));
}

#[test]
fn app_settings_hold_the_configured_values() {
    let settings = AppSettings {
        port: 8000,
        host: "127.0.0.1".to_string(),
        base_url: "http://127.0.0.1".to_string(),
    };
    assert_eq!(settings.port, 8000);
    assert_eq!(settings.host, "127.0.0.1");
    assert_eq!(settings.base_url, "http://127.0.0.1");
}
