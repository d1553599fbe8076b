//! A mailing-list subscription service: validated subscriber data, confirmation
//! tokens, and the two protocols (subscribe, confirm) as state machines that a
//! driver runs against a subscriber store and an email dispatcher.

pub mod configuration;
pub mod domain;
pub mod email_client;
pub mod lifecycle;
pub mod routes;
pub mod startup;
pub mod store;
pub mod token;
