//! Double opt-in subscriber registration and confirmation.
//!
//! The crate models the subscription workflow of a newsletter service:
//! raw registration input is validated into domain values, a pending
//! subscriber and its confirmation token are persisted atomically, and
//! redeeming the token flips the subscription to `confirmed`.

pub mod configuration;
pub mod domain;
pub mod store;
pub mod token;
pub mod workflow;
