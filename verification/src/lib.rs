//! The rules of a newsletter subscription service, verified with Verus:
//! settings, subscriber names and addresses, subscription statuses, the
//! confirmation email, and the decisions of the subscribe and confirm handlers.

pub mod configuration;
pub mod domain;
pub mod email_client;
pub mod error;
pub mod status;
pub mod subscriptions;
pub mod text;
