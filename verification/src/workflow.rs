//! The confirmation workflow: the externally observable contract of
//! registration and of token redemption.
//!
//! Registration runs `Received -> Validated -> Persisted -> Notified ->
//! Completed`: raw input is validated into domain values, a pending
//! subscriber and its token are persisted as one atomic unit, and the
//! caller is handed the confirmation message to deliver. Redemption runs
//! the separate state machine: resolve the token, flip the status,
//! idempotently.

use crate::domain::{
    is_whitespace_char, valid_registration, FormData, NewSubscriber, SubscriberEmail,
};
use crate::store::{
    confirm_in, id_known, token_known, token_resolves_to, SubscriberStore, TokenRow,
};
use crate::token::{generate_subscription_token, is_wellformed_token};
use vstd::prelude::*;

verus! {

/// The base URL under which the confirmation endpoint is reachable.
pub struct ApplicationBaseUrl(pub String);

/// How a registration request fails.
#[derive(Clone, Copy, Debug, PartialEq, Eq, Structural)]
pub enum RegistrationError {
    /// The name or email was malformed: the caller's fault, nothing was
    /// written to the store.
    ValidationFailed,
    /// The store could not persist the subscriber/token pair; the
    /// transaction rolled back, nothing was written.
    PersistenceFailed,
    /// The confirmation message could not be delivered. The already
    /// committed subscriber row remains `pending_confirmation` — a
    /// deliberately accepted inconsistency, surfaced as a server error.
    NotificationFailed,
}

impl RegistrationError {
    /// The HTTP-equivalent signal for this failure: a client error for
    /// malformed input, a server error otherwise.
    pub fn status_code(&self) -> (r: u16)
        ensures
            self is ValidationFailed ==> r == 400,
            self is PersistenceFailed ==> r == 500,
            self is NotificationFailed ==> r == 500,
    {
        match self {
            RegistrationError::ValidationFailed => 400,
            RegistrationError::PersistenceFailed => 500,
            RegistrationError::NotificationFailed => 500,
        }
    }
}

/// The query parameters of an inbound confirmation request.
pub struct Parameters {
    pub subscription_token: String,
}

/// Outcome of redeeming a confirmation token.
///
/// The in-process store cannot fail at the storage layer, so redemption
/// has exactly two outcomes: the token is known and the subscriber is
/// confirmed, or the token is unknown and nothing changes.
#[derive(Clone, Copy, Debug, PartialEq, Eq, Structural)]
pub enum ConfirmOutcome {
    /// The token was known; its subscriber is now confirmed.
    Completed,
    /// The token is unknown or invalid: an authorization failure, distinct
    /// from a validation error so that callers cannot probe which tokens
    /// are well-formed.
    Unauthorized,
}

impl ConfirmOutcome {
    /// The HTTP-equivalent signal for this outcome.
    pub fn status_code(&self) -> (r: u16)
        ensures
            self is Completed ==> r == 200,
            self is Unauthorized ==> r == 401,
    {
        match self {
            ConfirmOutcome::Completed => 200,
            ConfirmOutcome::Unauthorized => 401,
        }
    }
}

/// The confirmation link embedding a token, as the notifier receives it.
pub open spec fn confirmation_link_spec(base_url: Seq<char>, token: Seq<char>) -> Seq<char> {
    base_url + "/subscriptions/confirm?subscription_token="@ + token
}

/// The HTML body of the confirmation message.
pub open spec fn html_body_spec(link: Seq<char>) -> Seq<char> {
    "Welcome to our newsletter!<br/> Click <a href=\""@ + link
        + "\">here</a> to confirm the subscription."@
}

/// The plain-text body of the confirmation message.
pub open spec fn text_body_spec(link: Seq<char>) -> Seq<char> {
    "Welcome to our newsletter! \n Visit "@ + link + " to confirm your subscription."@
}

/// Builds the confirmation link for a token.
pub fn build_confirmation_link(base_url: &str, subscription_token: &str) -> (r: String)
    ensures
        r@ == confirmation_link_spec(base_url@, subscription_token@),
{
    let mut link = base_url.to_owned();
    link.append("/subscriptions/confirm?subscription_token=");
    link.append(subscription_token);
    link
}

/// The message the notifier is asked to deliver: recipient, subject, and
/// an HTML and a plain-text body, each containing the confirmation link.
pub struct EmailRequest {
    pub to: SubscriberEmail,
    pub subject: String,
    pub html_body: String,
    pub text_body: String,
}

/// Builds the confirmation message for a new subscriber: both bodies embed
/// the confirmation link built from `base_url` and `subscription_token`.
pub fn build_confirmation_email(
    to: SubscriberEmail,
    base_url: &str,
    subscription_token: &str,
) -> (r: EmailRequest)
    ensures
        r.to == to,
        r.subject@ == "Welcome !"@,
        r.html_body@ == html_body_spec(confirmation_link_spec(base_url@, subscription_token@)),
        r.text_body@ == text_body_spec(confirmation_link_spec(base_url@, subscription_token@)),
{
    let link = build_confirmation_link(base_url, subscription_token);
    let mut html_body = "Welcome to our newsletter!<br/> Click <a href=\"".to_owned();
    html_body.append(link.as_str());
    html_body.append("\">here</a> to confirm the subscription.");
    let mut text_body = "Welcome to our newsletter! \n Visit ".to_owned();
    text_body.append(link.as_str());
    text_body.append(" to confirm your subscription.");
    EmailRequest { to, subject: "Welcome !".to_owned(), html_body, text_body }
}

/// Relies on `uuid::Uuid::new_v4` (carried as an integer by `as_u128`): a
/// random version-4 UUID. The value is random, so nothing is promised of
/// it; the store checks freshness itself.
#[verifier::external_body]
fn fresh_subscriber_id() -> u128 {
    uuid::Uuid::new_v4().as_u128()
}

/// Relies on `chrono::Utc::now` (carried as an integer by
/// `timestamp_millis`): the current time. The value depends on the clock,
/// so nothing is promised of it.
#[verifier::external_body]
fn current_timestamp_millis() -> i64 {
    chrono::Utc::now().timestamp_millis()
}

/// A successfully persisted registration: the new subscriber's id, the
/// issued token, and the confirmation message for the notifier to deliver.
pub struct PendingRegistration {
    pub subscriber_id: u128,
    pub subscription_token: String,
    pub email_request: EmailRequest,
}

/// Registers a subscriber: validates the form, persists the pending
/// subscriber together with a fresh confirmation token as one atomic
/// transaction, and hands back the confirmation message to deliver.
///
/// On any failure the store is exactly as before: a malformed form is
/// rejected as `ValidationFailed` before anything is written, and a
/// persistence failure (a collision of the generated id or token) rolls
/// the whole transaction back. A collision needs an existing row, so on
/// an empty store a valid form is owed success.
pub fn subscribe(
    store: &mut SubscriberStore,
    form: FormData,
    base_url: &ApplicationBaseUrl,
) -> (r: Result<PendingRegistration, RegistrationError>)
    requires
        old(store).wf(),
    ensures
        final(store).wf(),
        r matches Err(e) ==> final(store).subscriptions() == old(store).subscriptions() && final(store).tokens() == old(store).tokens() && !(e is NotificationFailed),
        r matches Err(e) ==> (e is ValidationFailed <==> !valid_registration(form)),
        !valid_registration(form) ==> r == Err::<PendingRegistration, RegistrationError>(
            RegistrationError::ValidationFailed,
        ),
        form.email@.len() == 0 ==> r == Err::<PendingRegistration, RegistrationError>(
            RegistrationError::ValidationFailed,
        ),
        (forall|i: int| 0 <= i < form.email@.len() ==> form.email@[i] != '@') ==> r == Err::<
            PendingRegistration,
            RegistrationError,
        >(RegistrationError::ValidationFailed),
        form.email@.len() > 0 && form.email@[0] == '@' ==> r == Err::<
            PendingRegistration,
            RegistrationError,
        >(RegistrationError::ValidationFailed),
        form.email@.len() > 0 && form.email@[form.email@.len() - 1] == '@' ==> r == Err::<
            PendingRegistration,
            RegistrationError,
        >(RegistrationError::ValidationFailed),
        form.name@.len() == 0 ==> r == Err::<PendingRegistration, RegistrationError>(
            RegistrationError::ValidationFailed,
        ),
        (forall|i: int| 0 <= i < form.name@.len() ==> is_whitespace_char(#[trigger] form.name@[i]))
            ==> r == Err::<PendingRegistration, RegistrationError>(
            RegistrationError::ValidationFailed,
        ),
        old(store).subscriptions().len() == 0 && old(store).tokens().len() == 0
            && valid_registration(form) ==> r is Ok,
        r matches Err(e) ==> (e is PersistenceFailed ==> old(store).subscriptions().len() > 0
            || old(store).tokens().len() > 0),
        r matches Ok(p) ==> valid_registration(form) && is_wellformed_token(p.subscription_token@)
            && !id_known(old(store).subscriptions(), p.subscriber_id) && !token_known(
            old(store).tokens(),
            p.subscription_token@,
        ),
        r matches Ok(p) ==> final(store).subscriptions() == old(store).subscriptions().push(
            final(store).subscriptions().last(),
        ) && final(store).subscriptions().last().id == p.subscriber_id && final(store).subscriptions().last().email@ == form.email@ && final(store).subscriptions().last().name@
            == form.name@ && final(store).subscriptions().last().status
            is PendingConfirmation,
        r matches Ok(p) ==> final(store).tokens() == old(store).tokens().push(
            (TokenRow { subscription_token: p.subscription_token, subscriber_id: p.subscriber_id }),
        ),
        r matches Ok(p) ==> p.email_request.to@ == form.email@ && p.email_request.html_body@
            == html_body_spec(confirmation_link_spec(base_url.0@, p.subscription_token@))
            && p.email_request.text_body@ == text_body_spec(
            confirmation_link_spec(base_url.0@, p.subscription_token@),
        ) && p.email_request.subject@ == "Welcome !"@,
{
    let new_subscriber = match NewSubscriber::try_from(form) {
        Ok(ns) => ns,
        Err(_) => {
            proof {
                if form.name@.len() == 0 || (forall|i: int|
                    0 <= i < form.name@.len() ==> is_whitespace_char(#[trigger] form.name@[i])) {
                    crate::domain::empty_or_whitespace_name_is_invalid(form.name@);
                }
            }
            return Err(RegistrationError::ValidationFailed);
        },
    };
    let subscriber_id = fresh_subscriber_id();
    let subscribed_at = current_timestamp_millis();
    let subscription_token = generate_subscription_token();
    let stored_token = subscription_token.clone();
    match store.create_pending_subscriber_with_token(
        &new_subscriber,
        subscriber_id,
        stored_token,
        subscribed_at,
    ) {
        Ok(()) => {},
        Err(_) => {
            return Err(RegistrationError::PersistenceFailed);
        },
    }
    let email_request = build_confirmation_email(
        new_subscriber.email,
        base_url.0.as_str(),
        subscription_token.as_str(),
    );
    Ok(PendingRegistration { subscriber_id, subscription_token, email_request })
}

/// The final step of the registration state machine: the notifier reports
/// whether the confirmation message was delivered. A delivery failure
/// surfaces as `NotificationFailed`; the already committed subscriber row
/// remains pending, a known and accepted inconsistency.
pub fn complete_registration(notification_sent: bool) -> (r: Result<(), RegistrationError>)
    ensures
        r is Ok <==> notification_sent,
        !notification_sent ==> r == Err::<(), RegistrationError>(
            RegistrationError::NotificationFailed,
        ),
{
    if notification_sent {
        Ok(())
    } else {
        Err(RegistrationError::NotificationFailed)
    }
}

/// What redeeming token `t` against token table `tokens` yields.
pub open spec fn redemption_outcome(tokens: Seq<TokenRow>, t: Seq<char>) -> ConfirmOutcome {
    if token_known(tokens, t) {
        ConfirmOutcome::Completed
    } else {
        ConfirmOutcome::Unauthorized
    }
}

/// Law: redeeming an unknown token always yields `Unauthorized`, no matter
/// how many other tokens the store holds.
pub proof fn unknown_token_is_unauthorized(tokens: Seq<TokenRow>, t: Seq<char>)
    requires
        !token_known(tokens, t),
    ensures
        redemption_outcome(tokens, t) == ConfirmOutcome::Unauthorized,
{
}

/// Law: a token that redeems successfully redeems successfully again —
/// redemption leaves the token table unchanged, so a repeated attempt
/// yields the same `Completed` outcome (and, by
/// [`crate::store::confirmation_is_idempotent`], changes the store no
/// further).
pub proof fn repeated_redemption_completes(tokens: Seq<TokenRow>, t: Seq<char>)
    requires
        token_known(tokens, t),
    ensures
        redemption_outcome(tokens, t) == ConfirmOutcome::Completed,
{
}

/// Redeems a confirmation token: resolves the subscriber it was issued
/// for and flips that subscriber's status to `confirmed`.
///
/// An unknown token yields `Unauthorized` and changes nothing. A known
/// token always completes — idempotently, since confirming an already
/// confirmed subscriber changes nothing further — and never touches any
/// other subscriber.
pub fn confirm(store: &mut SubscriberStore, parameters: &Parameters) -> (r: ConfirmOutcome)
    requires
        old(store).wf(),
    ensures
        final(store).wf(),
        final(store).tokens() == old(store).tokens(),
        r == redemption_outcome(old(store).tokens(), parameters.subscription_token@),
        r is Unauthorized ==> final(store).subscriptions() == old(store).subscriptions(),
        r is Completed ==> exists|id: u128|
            token_resolves_to(old(store).tokens(), parameters.subscription_token@, id) && final(store).subscriptions() == confirm_in(old(store).subscriptions(), id),
{
    match store.get_subscription_id(parameters.subscription_token.as_str()) {
        None => ConfirmOutcome::Unauthorized,
        Some(subscriber_id) => {
            proof {
                let t = parameters.subscription_token@;
                let i = choose|i: int|
                    0 <= i < store.tokens().len() && (#[trigger] store.tokens()[i]).subscription_token@
                        == t && store.tokens()[i].subscriber_id == subscriber_id;
                assert(id_known(store.subscriptions(), store.tokens()[i].subscriber_id));
            }
            match store.confirm_subscriber(subscriber_id) {
                Ok(()) => ConfirmOutcome::Completed,
                Err(_) => unreached(),
            }
        },
    }
}

} // verus!
