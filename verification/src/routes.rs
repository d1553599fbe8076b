//! The two protocols of the service, each as a state machine: what the
//! service asks of its collaborators, and what it makes of their answers.

pub mod subscriptions;
pub mod subscriptions_confirm;

pub use subscriptions::{subscribe, subscribe_step, Subscription, SubscriptionOutcome};
pub use subscriptions_confirm::{confirm, confirm_step, ConfirmParams, ConfirmationOutcome};
