//! Subscribing: validate the request, have the subscriber recorded as
//! pending, have a fresh token recorded for them, and have the confirmation
//! email dispatched.
//!
//! The service does no input or output of its own. `subscribe` and
//! `subscribe_step` say where the protocol stands; `SubscribeState::action`
//! says what the state asks of the driver; the driver does it and comes back
//! with the event that tells how it went.

use crate::domain::new_subscriber::{NewSubscriber, NewSubscriberView};
use crate::domain::subscriber_email::{is_valid_email, SubscriberEmail};
use crate::domain::subscriber_name::{is_valid_name, SubscriberName};
use crate::email_client::{
    email_request, DispatchError, EmailClient, EmailClientView, SendEmailRequest,
    SendEmailRequestView,
};
use crate::startup::ApplicationBaseUrl;
use crate::store::{StoreError, SubscriberId};
use crate::token::{generate_subscription_token, is_token};
use vstd::prelude::*;
use vstd::string::*;

verus! {

/// A subscription request as it comes in: nothing of it is checked yet.
#[derive(Debug)]
pub struct Subscription {
    pub name: String,
    pub email: String,
}

/// Which field of a subscription request was turned down.
#[derive(Debug, Clone, Copy, PartialEq, Eq, Structural)]
pub enum ValidationError {
    Name,
    Email,
}

/// Which collaborator failed the service.
#[derive(Debug, Clone, Copy, PartialEq, Eq)]
pub enum Failure {
    /// The store did not record the subscriber or the token.
    Persistence(StoreError),
    /// The confirmation email was not dispatched. What the store recorded
    /// before stays recorded.
    EmailDispatch(DispatchError),
}

/// How a subscription request ended.
#[derive(Debug, Clone, Copy, PartialEq, Eq)]
pub enum SubscriptionOutcome {
    /// The subscriber is recorded as pending and the email is dispatched.
    Accepted,
    /// The request was malformed; nothing was recorded or sent.
    Rejected(ValidationError),
    /// A collaborator failed.
    Failed(Failure),
}

impl SubscriptionOutcome {
    /// The HTTP status that reports the outcome.
    pub open spec fn status(self) -> u16 {
        match self {
            SubscriptionOutcome::Accepted => 200,
            SubscriptionOutcome::Rejected(_) => 400,
            SubscriptionOutcome::Failed(_) => 500,
        }
    }

    /// The HTTP status that reports the outcome.
    pub fn status_code(&self) -> (code: u16)
        ensures
            code == self.status(),
    {
        match self {
            SubscriptionOutcome::Accepted => 200,
            SubscriptionOutcome::Rejected(_) => 400,
            SubscriptionOutcome::Failed(_) => 500,
        }
    }
}

/// Where a subscription stands.
#[derive(Debug)]
pub enum SubscribeState {
    /// The store is asked to record the subscriber as pending.
    Inserting { subscriber: NewSubscriber },
    /// The subscriber is recorded; the store is asked to record the token.
    StoringToken { subscriber_id: SubscriberId, token: String, recipient: SubscriberEmail },
    /// Subscriber and token are recorded; the email is to be dispatched.
    Dispatching { request: SendEmailRequest },
    /// The protocol has ended.
    Done { outcome: SubscriptionOutcome },
}

/// A `SubscribeState` as contracts see it.
pub enum SubscribeStateView {
    Inserting { subscriber: NewSubscriberView },
    StoringToken { subscriber_id: SubscriberId, token: Seq<char>, recipient: Seq<char> },
    Dispatching { request: SendEmailRequestView },
    Done { outcome: SubscriptionOutcome },
}

impl View for SubscribeState {
    type V = SubscribeStateView;

    open spec fn view(&self) -> SubscribeStateView {
        match self {
            SubscribeState::Inserting { subscriber } => SubscribeStateView::Inserting {
                subscriber: subscriber@,
            },
            SubscribeState::StoringToken {
                subscriber_id,
                token,
                recipient,
            } => SubscribeStateView::StoringToken {
                subscriber_id: *subscriber_id,
                token: token@,
                recipient: recipient@,
            },
            SubscribeState::Dispatching { request } => SubscribeStateView::Dispatching {
                request: request@,
            },
            SubscribeState::Done { outcome } => SubscribeStateView::Done { outcome: *outcome },
        }
    }
}

/// What a collaborator answered.
#[derive(Debug, Clone, Copy, PartialEq, Eq)]
pub enum SubscribeEvent {
    /// The store's answer to the insertion: the new subscriber's identifier.
    Inserted(Result<SubscriberId, StoreError>),
    /// The store's answer to the recording of the token.
    TokenStored(Result<(), StoreError>),
    /// How the dispatch of the email went.
    Dispatched(Result<(), DispatchError>),
}

/// What a state asks of the driver.
#[derive(Debug)]
pub enum SubscribeAction<'a> {
    /// Ask the store to insert this subscriber as pending.
    InsertSubscriber { subscriber: &'a NewSubscriber },
    /// Ask the store to record that `token` confirms `subscriber_id`.
    StoreToken { subscriber_id: SubscriberId, token: &'a str },
    /// Post this request to the email service, within its deadline.
    SendEmail { request: &'a SendEmailRequest },
    /// Report the outcome to whoever made the request.
    Respond { outcome: SubscriptionOutcome },
}

/// A `SubscribeAction` as contracts see it.
pub enum SubscribeActionView {
    InsertSubscriber { subscriber: NewSubscriberView },
    StoreToken { subscriber_id: SubscriberId, token: Seq<char> },
    SendEmail { request: SendEmailRequestView },
    Respond { outcome: SubscriptionOutcome },
}

impl<'a> View for SubscribeAction<'a> {
    type V = SubscribeActionView;

    open spec fn view(&self) -> SubscribeActionView {
        match self {
            SubscribeAction::InsertSubscriber { subscriber } => SubscribeActionView::InsertSubscriber {
                subscriber: subscriber@,
            },
            SubscribeAction::StoreToken {
                subscriber_id,
                token,
            } => SubscribeActionView::StoreToken { subscriber_id: *subscriber_id, token: token@ },
            SubscribeAction::SendEmail { request } => SubscribeActionView::SendEmail {
                request: request@,
            },
            SubscribeAction::Respond { outcome } => SubscribeActionView::Respond {
                outcome: *outcome,
            },
        }
    }
}

/// The path and query that stand between the base URL and the token in a
/// confirmation link.
pub open spec fn confirmation_path() -> Seq<char> {
    "/subscriptions/confirm?subscription_token="@
}

/// The link that confirms the subscriber to whom `token` was issued.
pub open spec fn confirmation_link_of(base_url: Seq<char>, token: Seq<char>) -> Seq<char> {
    base_url + confirmation_path() + token
}

/// The subject of the confirmation email.
pub open spec fn confirmation_subject() -> Seq<char> {
    "Welcome!"@
}

/// The HTML body of the confirmation email for `link`.
pub open spec fn html_body_of(link: Seq<char>) -> Seq<char> {
    "Welcome to our newsletter!<br />Click <a href=\""@ + link
        + "\">here</a> to confirm your subscription."@
}

/// The plain-text body of the confirmation email for `link`.
pub open spec fn text_body_of(link: Seq<char>) -> Seq<char> {
    "Welcome to our newsletter!\nVisit "@ + link + " to confirm your subscription."@
}

/// The request that sends the confirmation email for `token` to `recipient`.
pub open spec fn confirmation_request(
    client: EmailClientView,
    base_url: Seq<char>,
    recipient: Seq<char>,
    token: Seq<char>,
) -> SendEmailRequestView {
    email_request(
        client,
        recipient,
        confirmation_subject(),
        html_body_of(confirmation_link_of(base_url, token)),
        text_body_of(confirmation_link_of(base_url, token)),
    )
}

/// The state in which a request with these two fields starts: the name is
/// judged first, then the address; a request that passes both is to be
/// inserted with both fields as they came.
pub open spec fn subscribe_start(name: Seq<char>, email: Seq<char>) -> SubscribeStateView {
    if !is_valid_name(name) {
        SubscribeStateView::Done {
            outcome: SubscriptionOutcome::Rejected(ValidationError::Name),
        }
    } else if !is_valid_email(email) {
        SubscribeStateView::Done {
            outcome: SubscriptionOutcome::Rejected(ValidationError::Email),
        }
    } else {
        SubscribeStateView::Inserting { subscriber: NewSubscriberView { name, email } }
    }
}

/// Whether `event` is the answer that `state` waits for.
pub open spec fn subscribe_awaits(state: SubscribeStateView, event: SubscribeEvent) -> bool {
    match (state, event) {
        (SubscribeStateView::Inserting { .. }, SubscribeEvent::Inserted(_)) => true,
        (SubscribeStateView::StoringToken { .. }, SubscribeEvent::TokenStored(_)) => true,
        (SubscribeStateView::Dispatching { .. }, SubscribeEvent::Dispatched(_)) => true,
        _ => false,
    }
}

/// Whether the step from `state` on `event` issues a token: the store has
/// just inserted the subscriber.
pub open spec fn subscribe_issues_token(state: SubscribeStateView, event: SubscribeEvent) -> bool {
    state is Inserting && event matches SubscribeEvent::Inserted(Ok(_))
}

/// The state that follows `state` on `event`, where `token` is the token that
/// the step issues if it issues one.
///
/// A failure of the store ends the protocol with `Failed(Persistence)`, a
/// failure of the dispatch with `Failed(EmailDispatch)`; nothing is tried a
/// second time and nothing is taken back. So where the store fails to record
/// the token, the subscriber that it has inserted stays, pending, with no
/// token to confirm them; and where the dispatch fails, subscriber and token
/// stay recorded. The email is asked for only once the store has recorded the
/// token, and its link holds that very token. An event that the state does
/// not wait for changes nothing.
pub open spec fn subscribe_next(
    state: SubscribeStateView,
    event: SubscribeEvent,
    token: Seq<char>,
    client: EmailClientView,
    base_url: Seq<char>,
) -> SubscribeStateView {
    match (state, event) {
        (
            SubscribeStateView::Inserting { subscriber },
            SubscribeEvent::Inserted(Ok(subscriber_id)),
        ) => SubscribeStateView::StoringToken { subscriber_id, token, recipient: subscriber.email },
        (
            SubscribeStateView::Inserting { .. },
            SubscribeEvent::Inserted(Err(error)),
        ) => SubscribeStateView::Done {
            outcome: SubscriptionOutcome::Failed(Failure::Persistence(error)),
        },
        (
            SubscribeStateView::StoringToken { token: stored, recipient, .. },
            SubscribeEvent::TokenStored(Ok(_)),
        ) => SubscribeStateView::Dispatching {
            request: confirmation_request(client, base_url, recipient, stored),
        },
        (
            SubscribeStateView::StoringToken { .. },
            SubscribeEvent::TokenStored(Err(error)),
        ) => SubscribeStateView::Done {
            outcome: SubscriptionOutcome::Failed(Failure::Persistence(error)),
        },
        (
            SubscribeStateView::Dispatching { .. },
            SubscribeEvent::Dispatched(Ok(_)),
        ) => SubscribeStateView::Done { outcome: SubscriptionOutcome::Accepted },
        (
            SubscribeStateView::Dispatching { .. },
            SubscribeEvent::Dispatched(Err(error)),
        ) => SubscribeStateView::Done {
            outcome: SubscriptionOutcome::Failed(Failure::EmailDispatch(error)),
        },
        _ => state,
    }
}

/// What `state` asks of the driver.
pub open spec fn subscribe_action(state: SubscribeStateView) -> SubscribeActionView {
    match state {
        SubscribeStateView::Inserting { subscriber } => SubscribeActionView::InsertSubscriber {
            subscriber,
        },
        SubscribeStateView::StoringToken {
            subscriber_id,
            token,
            ..
        } => SubscribeActionView::StoreToken { subscriber_id, token },
        SubscribeStateView::Dispatching { request } => SubscribeActionView::SendEmail { request },
        SubscribeStateView::Done { outcome } => SubscribeActionView::Respond { outcome },
    }
}

/// Builds the link that confirms the subscriber to whom `token` was issued.
pub fn confirmation_link(base_url: &ApplicationBaseUrl, token: &str) -> (link: String)
    ensures
        link@ == confirmation_link_of(base_url@, token@),
{
    base_url.0.clone().concat("/subscriptions/confirm?subscription_token=").concat(token)
}

/// Builds the request that sends the confirmation email for `token` to
/// `recipient`: both bodies hold the same link.
pub fn send_confirmation_email(
    email_client: &EmailClient,
    recipient: SubscriberEmail,
    base_url: &ApplicationBaseUrl,
    token: &str,
) -> (request: SendEmailRequest)
    ensures
        request@ == confirmation_request(email_client@, base_url@, recipient@, token@),
{
    let link = confirmation_link(base_url, token);
    let html_body = "Welcome to our newsletter!<br />Click <a href=\"".to_owned().concat(
        link.as_str(),
    ).concat("\">here</a> to confirm your subscription.");
    let text_body = "Welcome to our newsletter!\nVisit ".to_owned().concat(link.as_str()).concat(
        " to confirm your subscription.",
    );
    email_client.send_email(recipient, "Welcome!", html_body.as_str(), text_body.as_str())
}

/// Validates a request, the name first and then the address.
pub fn validate(form: Subscription) -> (r: Result<NewSubscriber, ValidationError>)
    ensures
        match r {
            Ok(subscriber) => is_valid_name(form.name@) && is_valid_email(form.email@)
                && subscriber@ == (NewSubscriberView { name: form.name@, email: form.email@ }),
            Err(ValidationError::Name) => !is_valid_name(form.name@),
            Err(ValidationError::Email) => is_valid_name(form.name@) && !is_valid_email(
                form.email@,
            ),
        },
{
    let name = match SubscriberName::parse(form.name) {
        Ok(name) => name,
        Err(_) => {
            return Err(ValidationError::Name);
        },
    };
    let email = match SubscriberEmail::parse(form.email) {
        Ok(email) => email,
        Err(_) => {
            return Err(ValidationError::Email);
        },
    };
    Ok(NewSubscriber { name, email })
}

/// Takes in a subscription request. A malformed one is rejected on the spot:
/// nothing is asked of the store or of the email service. A well-formed one
/// is to be recorded as pending.
pub fn subscribe(form: Subscription) -> (state: SubscribeState)
    ensures
        state@ == subscribe_start(form.name@, form.email@),
{
    match validate(form) {
        Ok(subscriber) => SubscribeState::Inserting { subscriber },
        Err(error) => SubscribeState::Done { outcome: SubscriptionOutcome::Rejected(error) },
    }
}

impl SubscribeState {
    /// What the state asks of the driver.
    pub fn action(&self) -> (action: SubscribeAction<'_>)
        ensures
            action@ == subscribe_action(self@),
    {
        match self {
            SubscribeState::Inserting { subscriber } => SubscribeAction::InsertSubscriber {
                subscriber,
            },
            SubscribeState::StoringToken {
                subscriber_id,
                token,
                ..
            } => SubscribeAction::StoreToken {
                subscriber_id: *subscriber_id,
                token: token.as_str(),
            },
            SubscribeState::Dispatching { request } => SubscribeAction::SendEmail { request },
            SubscribeState::Done { outcome } => SubscribeAction::Respond { outcome: *outcome },
        }
    }

    /// Whether `event` is the answer that the state waits for.
    pub fn awaits(&self, event: &SubscribeEvent) -> (r: bool)
        ensures
            r == subscribe_awaits(self@, *event),
    {
        match (self, event) {
            (SubscribeState::Inserting { .. }, SubscribeEvent::Inserted(_)) => true,
            (SubscribeState::StoringToken { .. }, SubscribeEvent::TokenStored(_)) => true,
            (SubscribeState::Dispatching { .. }, SubscribeEvent::Dispatched(_)) => true,
            _ => false,
        }
    }
}

/// The step from `state` on `event`, with `token` as the token to issue if
/// the step issues one.
pub fn subscribe_step_with(
    state: SubscribeState,
    event: SubscribeEvent,
    token: String,
    email_client: &EmailClient,
    base_url: &ApplicationBaseUrl,
) -> (next: SubscribeState)
    ensures
        next@ == subscribe_next(state@, event, token@, email_client@, base_url@),
{
    match state {
        SubscribeState::Inserting { subscriber } => match event {
            SubscribeEvent::Inserted(Ok(subscriber_id)) => SubscribeState::StoringToken {
                subscriber_id,
                token,
                recipient: subscriber.email,
            },
            SubscribeEvent::Inserted(Err(error)) => SubscribeState::Done {
                outcome: SubscriptionOutcome::Failed(Failure::Persistence(error)),
            },
            _ => SubscribeState::Inserting { subscriber },
        },
        SubscribeState::StoringToken { subscriber_id, token: stored, recipient } => match event {
            SubscribeEvent::TokenStored(Ok(_)) => SubscribeState::Dispatching {
                request: send_confirmation_email(email_client, recipient, base_url, stored.as_str()),
            },
            SubscribeEvent::TokenStored(Err(error)) => SubscribeState::Done {
                outcome: SubscriptionOutcome::Failed(Failure::Persistence(error)),
            },
            _ => SubscribeState::StoringToken { subscriber_id, token: stored, recipient },
        },
        SubscribeState::Dispatching { request } => match event {
            SubscribeEvent::Dispatched(Ok(_)) => SubscribeState::Done {
                outcome: SubscriptionOutcome::Accepted,
            },
            SubscribeEvent::Dispatched(Err(error)) => SubscribeState::Done {
                outcome: SubscriptionOutcome::Failed(Failure::EmailDispatch(error)),
            },
            _ => SubscribeState::Dispatching { request },
        },
        SubscribeState::Done { outcome } => SubscribeState::Done { outcome },
    }
}

/// The step from `state` on `event`. Where the store has just inserted the
/// subscriber, a fresh token is drawn and issued; which one cannot be said
/// beforehand, only that it has the shape of a token.
pub fn subscribe_step(
    state: SubscribeState,
    event: SubscribeEvent,
    email_client: &EmailClient,
    base_url: &ApplicationBaseUrl,
) -> (next: SubscribeState)
    ensures
        subscribe_issues_token(state@, event) ==> exists|token: Seq<char>|
            is_token(token) && next@ == #[trigger] subscribe_next(
                state@,
                event,
                token,
                email_client@,
                base_url@,
            ),
        !subscribe_issues_token(state@, event) ==> next@ == subscribe_next(
            state@,
            event,
            Seq::empty(),
            email_client@,
            base_url@,
        ),
{
    let issues = match (&state, &event) {
        (SubscribeState::Inserting { .. }, SubscribeEvent::Inserted(Ok(_))) => true,
        _ => false,
    };
    if issues {
        let token = generate_subscription_token();
        subscribe_step_with(state, event, token, email_client, base_url)
    } else {
        subscribe_step_with(state, event, String::new(), email_client, base_url)
    }
}

} // verus!
