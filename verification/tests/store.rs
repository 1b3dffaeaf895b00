use zero2prod::domain::{NewSubscriber, SubscriberEmail, SubscriberName};
use zero2prod::store::{PersistenceError, SubscriberStatus, SubscriberStore};

fn new_subscriber(name: &str, email: &str) -> NewSubscriber {
    NewSubscriber {
        name: SubscriberName::parse(name.to_string()).unwrap(),
        email: SubscriberEmail::parse(email.to_string()).unwrap(),
    }
}

#[test]
fn created_pair_is_atomic() {
    let mut store = SubscriberStore::new();
    let ns = new_subscriber("arun manivannan", "arun@arun.com");
    let r = store.create_pending_subscriber_with_token(&ns, 1, "token-one".to_string(), 42);
    assert_eq!(r, Ok(()));
    assert_eq!(store.subscription_count(), 1);
    assert_eq!(store.token_count(), 1);
    let row = store.subscription_at(0);
    assert_eq!(row.id, 1);
    assert_eq!(row.subscribed_at, 42);
    assert_eq!(row.status, SubscriberStatus::PendingConfirmation);
    let tok = store.token_at(0);
    assert_eq!(tok.subscription_token, "token-one");
    assert_eq!(tok.subscriber_id, 1);
}

#[test]
fn duplicate_subscriber_id_is_rejected() {
    let mut store = SubscriberStore::new();
    let ns = new_subscriber("arun manivannan", "arun@arun.com");
    assert_eq!(store.insert_subscriber(&ns, 1, 0), Ok(()));
    assert_eq!(
        store.insert_subscriber(&ns, 1, 0),
        Err(PersistenceError::DuplicateId)
    );
    assert_eq!(store.subscription_count(), 1);
}

#[test]
fn token_collision_is_reported() {
    let mut store = SubscriberStore::new();
    let ns = new_subscriber("arun manivannan", "arun@arun.com");
    assert_eq!(store.insert_subscriber(&ns, 1, 0), Ok(()));
    assert_eq!(store.store_token(1, "token-one".to_string()), Ok(()));
    assert_eq!(
        store.store_token(1, "token-one".to_string()),
        Err(PersistenceError::TokenCollision)
    );
    assert_eq!(store.token_count(), 1);
}

#[test]
fn token_for_unknown_subscriber_is_rejected() {
    let mut store = SubscriberStore::new();
    assert_eq!(
        store.store_token(9, "token-one".to_string()),
        Err(PersistenceError::UnknownSubscriber)
    );
    assert_eq!(store.token_count(), 0);
}

#[test]
fn failed_transaction_leaves_no_partial_state() {
    let mut store = SubscriberStore::new();
    let first = new_subscriber("arun manivannan", "arun@arun.com");
    let second = new_subscriber("Ursula Le Guin", "ursula@gmail.com");
    assert_eq!(
        store.create_pending_subscriber_with_token(&first, 1, "token-one".to_string(), 0),
        Ok(())
    );
    // the second transaction collides on the token: it must roll back the
    // subscriber row it had inserted, leaving both tables untouched
    assert_eq!(
        store.create_pending_subscriber_with_token(&second, 2, "token-one".to_string(), 0),
        Err(PersistenceError::TokenCollision)
    );
    assert_eq!(store.subscription_count(), 1);
    assert_eq!(store.token_count(), 1);
    assert_eq!(store.subscription_at(0).id, 1);
}

#[test]
fn resolving_a_known_token_names_its_owner() {
    let mut store = SubscriberStore::new();
    let ns = new_subscriber("arun manivannan", "arun@arun.com");
    assert_eq!(
        store.create_pending_subscriber_with_token(&ns, 7, "token-one".to_string(), 0),
        Ok(())
    );
    assert_eq!(store.get_subscription_id("token-one"), Some(7));
    assert_eq!(store.get_subscription_id("token-two"), None);
}

#[test]
fn confirming_an_unknown_subscriber_is_an_error() {
    let mut store = SubscriberStore::new();
    assert_eq!(
        store.confirm_subscriber(9),
        Err(PersistenceError::UnknownSubscriber)
    );
}
