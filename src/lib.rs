//! Subscription and confirmation workflow of a newsletter service.
//!
//! The library validates subscriber input, issues confirmation tokens, keeps
//! subscribers and their tokens in a transactional store, and decides the
//! outcome of the subscribe and confirm operations.

pub mod subscriber_email;
pub mod subscriber_name;
pub mod subscriber_status;
pub mod new_subscriber;
pub mod subscriptions;
pub mod token;
pub mod store;
pub mod subscriptions_confirm;
pub mod configuration;
pub mod utils;
pub mod persistence;
