//! Confirming: look the token up, and have its subscriber marked as
//! confirmed. The token stays valid, so a link that is followed twice
//! succeeds twice.

use crate::store::{StoreError, SubscriberId};
use vstd::prelude::*;

verus! {

/// The parameters of a confirmation request.
#[derive(Debug)]
pub struct ConfirmParams {
    pub subscription_token: String,
}

/// How a confirmation request ended.
#[derive(Debug, Clone, Copy, PartialEq, Eq)]
pub enum ConfirmationOutcome {
    /// The token's subscriber is confirmed, whether or not they were before.
    Confirmed,
    /// The store does not know the token.
    Unauthorized,
    /// The store failed to look the token up or to mark the subscriber.
    Failed(StoreError),
}

impl ConfirmationOutcome {
    /// The HTTP status that reports the outcome.
    pub open spec fn status(self) -> u16 {
        match self {
            ConfirmationOutcome::Confirmed => 200,
            ConfirmationOutcome::Unauthorized => 401,
            ConfirmationOutcome::Failed(_) => 500,
        }
    }

    /// The HTTP status that reports the outcome.
    pub fn status_code(&self) -> (code: u16)
        ensures
            code == self.status(),
    {
        match self {
            ConfirmationOutcome::Confirmed => 200,
            ConfirmationOutcome::Unauthorized => 401,
            ConfirmationOutcome::Failed(_) => 500,
        }
    }
}

/// Where a confirmation stands.
#[derive(Debug)]
pub enum ConfirmState {
    /// The store is asked which subscriber the token confirms.
    LookingUp { token: String },
    /// The token is known; the store is asked to mark its subscriber.
    Marking { subscriber_id: SubscriberId },
    /// The protocol has ended.
    Done { outcome: ConfirmationOutcome },
}

/// A `ConfirmState` as contracts see it.
pub enum ConfirmStateView {
    LookingUp { token: Seq<char> },
    Marking { subscriber_id: SubscriberId },
    Done { outcome: ConfirmationOutcome },
}

impl View for ConfirmState {
    type V = ConfirmStateView;

    open spec fn view(&self) -> ConfirmStateView {
        match self {
            ConfirmState::LookingUp { token } => ConfirmStateView::LookingUp { token: token@ },
            ConfirmState::Marking { subscriber_id } => ConfirmStateView::Marking {
                subscriber_id: *subscriber_id,
            },
            ConfirmState::Done { outcome } => ConfirmStateView::Done { outcome: *outcome },
        }
    }
}

/// What the store answered.
#[derive(Debug, Clone, Copy, PartialEq, Eq)]
pub enum ConfirmEvent {
    /// The store's answer to the lookup: the token's subscriber, if it knows
    /// the token.
    Found(Result<Option<SubscriberId>, StoreError>),
    /// The store's answer to the marking.
    Marked(Result<(), StoreError>),
}

/// What a state asks of the driver.
#[derive(Debug)]
pub enum ConfirmAction<'a> {
    /// Ask the store which subscriber `token` confirms.
    FindSubscriber { token: &'a str },
    /// Ask the store to mark `subscriber_id` as confirmed.
    MarkConfirmed { subscriber_id: SubscriberId },
    /// Report the outcome to whoever made the request.
    Respond { outcome: ConfirmationOutcome },
}

/// A `ConfirmAction` as contracts see it.
pub enum ConfirmActionView {
    FindSubscriber { token: Seq<char> },
    MarkConfirmed { subscriber_id: SubscriberId },
    Respond { outcome: ConfirmationOutcome },
}

impl<'a> View for ConfirmAction<'a> {
    type V = ConfirmActionView;

    open spec fn view(&self) -> ConfirmActionView {
        match self {
            ConfirmAction::FindSubscriber { token } => ConfirmActionView::FindSubscriber {
                token: token@,
            },
            ConfirmAction::MarkConfirmed { subscriber_id } => ConfirmActionView::MarkConfirmed {
                subscriber_id: *subscriber_id,
            },
            ConfirmAction::Respond { outcome } => ConfirmActionView::Respond { outcome: *outcome },
        }
    }
}

/// The state in which a request for `token` starts.
pub open spec fn confirm_start(token: Seq<char>) -> ConfirmStateView {
    ConfirmStateView::LookingUp { token }
}

/// Whether `event` is the answer that `state` waits for.
pub open spec fn confirm_awaits(state: ConfirmStateView, event: ConfirmEvent) -> bool {
    match (state, event) {
        (ConfirmStateView::LookingUp { .. }, ConfirmEvent::Found(_)) => true,
        (ConfirmStateView::Marking { .. }, ConfirmEvent::Marked(_)) => true,
        _ => false,
    }
}

/// The state that follows `state` on `event`.
///
/// A token that the store does not know ends the protocol with
/// `Unauthorized`, and the store is asked for nothing more. A failure of the
/// store ends it with `Failed`. A marking that succeeds ends it with
/// `Confirmed`. An event that the state does not wait for changes nothing.
pub open spec fn confirm_next(state: ConfirmStateView, event: ConfirmEvent) -> ConfirmStateView {
    match (state, event) {
        (
            ConfirmStateView::LookingUp { .. },
            ConfirmEvent::Found(Ok(Some(subscriber_id))),
        ) => ConfirmStateView::Marking { subscriber_id },
        (ConfirmStateView::LookingUp { .. }, ConfirmEvent::Found(Ok(None))) => ConfirmStateView::Done {
            outcome: ConfirmationOutcome::Unauthorized,
        },
        (
            ConfirmStateView::LookingUp { .. },
            ConfirmEvent::Found(Err(error)),
        ) => ConfirmStateView::Done { outcome: ConfirmationOutcome::Failed(error) },
        (ConfirmStateView::Marking { .. }, ConfirmEvent::Marked(Ok(_))) => ConfirmStateView::Done {
            outcome: ConfirmationOutcome::Confirmed,
        },
        (ConfirmStateView::Marking { .. }, ConfirmEvent::Marked(Err(error))) => ConfirmStateView::Done {
            outcome: ConfirmationOutcome::Failed(error),
        },
        _ => state,
    }
}

/// What `state` asks of the driver.
pub open spec fn confirm_action(state: ConfirmStateView) -> ConfirmActionView {
    match state {
        ConfirmStateView::LookingUp { token } => ConfirmActionView::FindSubscriber { token },
        ConfirmStateView::Marking { subscriber_id } => ConfirmActionView::MarkConfirmed {
            subscriber_id,
        },
        ConfirmStateView::Done { outcome } => ConfirmActionView::Respond { outcome },
    }
}

/// Takes in a confirmation request: its token is to be looked up.
pub fn confirm(parameters: ConfirmParams) -> (state: ConfirmState)
    ensures
        state@ == confirm_start(parameters.subscription_token@),
{
    ConfirmState::LookingUp { token: parameters.subscription_token }
}

impl ConfirmState {
    /// What the state asks of the driver.
    pub fn action(&self) -> (action: ConfirmAction<'_>)
        ensures
            action@ == confirm_action(self@),
    {
        match self {
            ConfirmState::LookingUp { token } => ConfirmAction::FindSubscriber {
                token: token.as_str(),
            },
            ConfirmState::Marking { subscriber_id } => ConfirmAction::MarkConfirmed {
                subscriber_id: *subscriber_id,
            },
            ConfirmState::Done { outcome } => ConfirmAction::Respond { outcome: *outcome },
        }
    }

    /// Whether `event` is the answer that the state waits for.
    pub fn awaits(&self, event: &ConfirmEvent) -> (r: bool)
        ensures
            r == confirm_awaits(self@, *event),
    {
        match (self, event) {
            (ConfirmState::LookingUp { .. }, ConfirmEvent::Found(_)) => true,
            (ConfirmState::Marking { .. }, ConfirmEvent::Marked(_)) => true,
            _ => false,
        }
    }
}

/// The step from `state` on `event`.
pub fn confirm_step(state: ConfirmState, event: ConfirmEvent) -> (next: ConfirmState)
    ensures
        next@ == confirm_next(state@, event),
{
    match state {
        ConfirmState::LookingUp { token } => match event {
            ConfirmEvent::Found(Ok(Some(subscriber_id))) => ConfirmState::Marking { subscriber_id },
            ConfirmEvent::Found(Ok(None)) => ConfirmState::Done {
                outcome: ConfirmationOutcome::Unauthorized,
            },
            ConfirmEvent::Found(Err(error)) => ConfirmState::Done {
                outcome: ConfirmationOutcome::Failed(error),
            },
            _ => ConfirmState::LookingUp { token },
        },
        ConfirmState::Marking { subscriber_id } => match event {
            ConfirmEvent::Marked(Ok(_)) => ConfirmState::Done {
                outcome: ConfirmationOutcome::Confirmed,
            },
            ConfirmEvent::Marked(Err(error)) => ConfirmState::Done {
                outcome: ConfirmationOutcome::Failed(error),
            },
            _ => ConfirmState::Marking { subscriber_id },
        },
        ConfirmState::Done { outcome } => ConfirmState::Done { outcome },
    }
}

} // verus!
