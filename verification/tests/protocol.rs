use std::time::Duration;
use zero2prod::domain::{SubscriberEmail, SubscriberName};
use zero2prod::email_client::{DispatchError, EmailClient, SendEmailRequest};
use zero2prod::routes::subscriptions::{
    confirmation_link, send_confirmation_email, validate, Failure, SubscribeAction,
    SubscribeEvent, SubscribeState, ValidationError,
};
use zero2prod::routes::subscriptions_confirm::{ConfirmAction, ConfirmEvent, ConfirmState};
use zero2prod::routes::{
    confirm, confirm_step, subscribe, subscribe_step, ConfirmParams, ConfirmationOutcome,
    Subscription, SubscriptionOutcome,
};
use zero2prod::startup::ApplicationBaseUrl;
use zero2prod::store::{StoreError, SubscriberId, SubscriptionStatus};

struct SavedSubscriber {
    id: SubscriberId,
    email: String,
    name: String,
    status: SubscriptionStatus,
}

struct Store {
    subscribers: Vec<SavedSubscriber>,
    tokens: Vec<(String, SubscriberId)>,
    fail_insert: Option<StoreError>,
    fail_token: Option<StoreError>,
    fail_lookup: Option<StoreError>,
    fail_mark: Option<StoreError>,
    writes: usize,
}

impl Store {
    fn new() -> Store {
        Store {
            subscribers: Vec::new(),
            tokens: Vec::new(),
            fail_insert: None,
            fail_token: None,
            fail_lookup: None,
            fail_mark: None,
            writes: 0,
        }
    }

    fn insert_pending_subscriber(
        &mut self,
        name: &str,
        email: &str,
    ) -> Result<SubscriberId, StoreError> {
        if let Some(error) = self.fail_insert {
            return Err(error);
        }
        let id = SubscriberId(1000 + self.subscribers.len() as u128);
        self.subscribers.push(SavedSubscriber {
            id,
            email: email.to_string(),
            name: name.to_string(),
            status: SubscriptionStatus::PendingConfirmation,
        });
        self.writes += 1;
        Ok(id)
    }

    fn associate_token(&mut self, id: SubscriberId, token: &str) -> Result<(), StoreError> {
        if let Some(error) = self.fail_token {
            return Err(error);
        }
        self.tokens.push((token.to_string(), id));
        self.writes += 1;
        Ok(())
    }

    fn find_subscriber_id_by_token(&self, token: &str) -> Result<Option<SubscriberId>, StoreError> {
        if let Some(error) = self.fail_lookup {
            return Err(error);
        }
        Ok(self.tokens.iter().find(|(t, _)| t == token).map(|(_, id)| *id))
    }

    fn mark_confirmed(&mut self, id: SubscriberId) -> Result<(), StoreError> {
        if let Some(error) = self.fail_mark {
            return Err(error);
        }
        for subscriber in self.subscribers.iter_mut() {
            if subscriber.id == id {
                subscriber.status = SubscriptionStatus::Confirmed;
            }
        }
        self.writes += 1;
        Ok(())
    }
}

struct ReceivedRequest {
    url: String,
    from: String,
    to: String,
    subject: String,
    html_content: String,
    text_content: String,
    timeout: Duration,
}

struct EmailServer {
    status: Option<u16>,
    received_requests: Vec<ReceivedRequest>,
}

impl EmailServer {
    fn responding_with(status: u16) -> EmailServer {
        EmailServer { status: Some(status), received_requests: Vec::new() }
    }

    fn never_answering() -> EmailServer {
        EmailServer { status: None, received_requests: Vec::new() }
    }

    fn post(&mut self, request: &SendEmailRequest) -> Result<(), DispatchError> {
        self.received_requests.push(ReceivedRequest {
            url: request.url.clone(),
            from: request.from.clone(),
            to: request.to.clone(),
            subject: request.subject.clone(),
            html_content: request.html_content.clone(),
            text_content: request.text_content.clone(),
            timeout: request.timeout,
        });
        match self.status {
            Some(status) => EmailClient::delivery(status),
            None => Err(DispatchError::TimedOut),
        }
    }
}

struct TestApp {
    store: Store,
    email_server: EmailServer,
    email_client: EmailClient,
    base_url: ApplicationBaseUrl,
}

fn spawn_app(email_status: u16) -> TestApp {
    TestApp {
        store: Store::new(),
        email_server: EmailServer::responding_with(email_status),
        email_client: EmailClient::new(
            "http://email.test".to_string(),
            SubscriberEmail::parse("newsletter@example.com".to_string()).unwrap(),
            Duration::from_millis(100),
        ),
        base_url: ApplicationBaseUrl("http://127.0.0.1".to_string()),
    }
}

impl TestApp {
    fn post_subscriptions(&mut self, name: &str, email: &str) -> SubscriptionOutcome {
        let mut state =
            subscribe(Subscription { name: name.to_string(), email: email.to_string() });
        for _ in 0..10 {
            let event = match state.action() {
                SubscribeAction::InsertSubscriber { subscriber } => SubscribeEvent::Inserted(
                    self.store.insert_pending_subscriber(
                        subscriber.name.inner_ref(),
                        subscriber.email.as_str(),
                    ),
                ),
                SubscribeAction::StoreToken { subscriber_id, token } => {
                    SubscribeEvent::TokenStored(self.store.associate_token(subscriber_id, token))
                }
                SubscribeAction::SendEmail { request } => {
                    SubscribeEvent::Dispatched(self.email_server.post(request))
                }
                SubscribeAction::Respond { outcome } => return outcome,
            };
            assert!(state.awaits(&event));
            state = subscribe_step(state, event, &self.email_client, &self.base_url);
        }
        panic!("the subscription did not end");
    }

    fn get_confirm(&mut self, token: &str) -> ConfirmationOutcome {
        let mut state = confirm(ConfirmParams { subscription_token: token.to_string() });
        for _ in 0..10 {
            let event = match state.action() {
                ConfirmAction::FindSubscriber { token } => {
                    ConfirmEvent::Found(self.store.find_subscriber_id_by_token(token))
                }
                ConfirmAction::MarkConfirmed { subscriber_id } => {
                    ConfirmEvent::Marked(self.store.mark_confirmed(subscriber_id))
                }
                ConfirmAction::Respond { outcome } => return outcome,
            };
            assert!(state.awaits(&event));
            state = confirm_step(state, event);
        }
        panic!("the confirmation did not end");
    }
}

fn get_link(body: &str) -> String {
    let start = body.find("http").unwrap();
    let rest = &body[start..];
    let end = rest.find(|c: char| c == '"' || c == ' ').unwrap_or(rest.len());
    assert_eq!(rest[end..].find("http"), None);
    rest[..end].to_string()
}

fn token_of(link: &str) -> String {
    let marker = "subscription_token=";
    let start = link.find(marker).unwrap() + marker.len();
    link[start..].to_string()
}

#[test]
fn subscribe_returns_a_200_for_valid_form_data() {
    let mut app = spawn_app(200);
    let outcome = app.post_subscriptions("le guin", "ursula_le_guin@gmail.com");
    assert_eq!(outcome, SubscriptionOutcome::Accepted);
    assert_eq!(200, outcome.status_code());
}

#[test]
fn subscribe_persists_the_new_subscriber_as_pending() {
    let mut app = spawn_app(200);
    app.post_subscriptions("le guin", "ursula_le_guin@gmail.com");
    assert_eq!(app.store.subscribers.len(), 1);
    let saved = &app.store.subscribers[0];
    assert_eq!(saved.email, "ursula_le_guin@gmail.com");
    assert_eq!(saved.name, "le guin");
    assert_eq!(saved.status, SubscriptionStatus::PendingConfirmation);
    assert_eq!(saved.status.as_str(), "pending_confirmation");
    assert_eq!(app.store.tokens.len(), 1);
    assert_eq!(app.store.tokens[0].1, saved.id);
}

#[test]
fn subscription_subscriber_returns_400_when_fields_are_empty() {
    let test_cases = vec![
        ("", "ursula_le_guin@gmail.com", "empty name"),
        ("Ursula", "", "empty email"),
        ("Ursula", "definitely-not-an-email", "invalid email"),
    ];
    for (name, email, description) in test_cases {
        let mut app = spawn_app(200);
        let outcome = app.post_subscriptions(name, email);
        assert_eq!(
            400,
            outcome.status_code(),
            "The api did not return a 200 OK when the payload was {}",
            description
        );
        assert_eq!(app.store.writes, 0);
        assert_eq!(app.email_server.received_requests.len(), 0);
    }
}

#[test]
fn a_rejected_request_names_the_field() {
    let mut app = spawn_app(200);
    assert_eq!(
        app.post_subscriptions("", "ursula_le_guin@gmail.com"),
        SubscriptionOutcome::Rejected(ValidationError::Name)
    );
    assert_eq!(
        app.post_subscriptions("Ursula", "not-an-email"),
        SubscriptionOutcome::Rejected(ValidationError::Email)
    );
    assert_eq!(
        app.post_subscriptions("", "not-an-email"),
        SubscriptionOutcome::Rejected(ValidationError::Name)
    );
    assert_eq!(app.store.writes, 0);
    assert_eq!(app.email_server.received_requests.len(), 0);
}

#[test]
fn validate_keeps_both_fields_as_they_came() {
    let subscriber = validate(Subscription {
        name: " le guin ".to_string(),
        email: "ursula_le_guin@gmail.com".to_string(),
    })
    .unwrap();
    assert_eq!(subscriber.name.inner_ref(), " le guin ");
    assert_eq!(subscriber.email.as_str(), "ursula_le_guin@gmail.com");
    let error = validate(Subscription { name: "a<b".to_string(), email: "".to_string() });
    assert_eq!(error.unwrap_err(), ValidationError::Name);
}

#[test]
fn subscriber_sends_a_confirmation_email_for_valid_data() {
    let mut app = spawn_app(200);
    app.post_subscriptions("henriquetest veronez", "henriqueteste@gmail.com");
    assert_eq!(app.email_server.received_requests.len(), 1);
    let request = &app.email_server.received_requests[0];
    assert_eq!(request.url, "http://email.test/api/send/2317403");
    assert_eq!(request.from, "newsletter@example.com");
    assert_eq!(request.to, "henriqueteste@gmail.com");
    assert_eq!(request.subject, "Welcome!");
    assert_eq!(request.timeout, Duration::from_millis(100));
}

#[test]
fn subscribe_sends_a_confirmation_email_with_a_link() {
    let mut app = spawn_app(200);
    app.post_subscriptions("le guin", "ursula_le_guin@gmail.com");
    let email_request = &app.email_server.received_requests[0];
    let html_link = get_link(&email_request.html_content);
    let text_link = get_link(&email_request.text_content);
    assert_eq!(html_link, text_link);
    assert!(html_link.starts_with("http://127.0.0.1/subscriptions/confirm?subscription_token="));
    let token = token_of(&html_link);
    assert_eq!(token.len(), 25);
    assert!(token.chars().all(|c| c.is_ascii_alphanumeric()));
    assert_eq!(app.store.tokens[0].0, token);
}

#[test]
fn the_bodies_of_the_confirmation_email_are_as_worded() {
    let mut app = spawn_app(200);
    app.post_subscriptions("le guin", "ursula_le_guin@gmail.com");
    let request = &app.email_server.received_requests[0];
    let link = get_link(&request.html_content);
    assert_eq!(
        request.html_content,
        format!(
            "Welcome to our newsletter!<br />Click <a href=\"{}\">here</a> to confirm your subscription.",
            link
        )
    );
    assert_eq!(
        request.text_content,
        format!("Welcome to our newsletter!\nVisit {} to confirm your subscription.", link)
    );
}

#[test]
fn the_link_returned_by_subscribe_returns_a_200_if_called() {
    let mut app = spawn_app(200);
    app.post_subscriptions("le guin", "ursula_le_guin@gmail.com");
    let email_request = &app.email_server.received_requests[0];
    let confirmation_link = get_link(&email_request.html_content);
    let outcome = app.get_confirm(&token_of(&confirmation_link));
    assert_eq!(outcome, ConfirmationOutcome::Confirmed);
    assert_eq!(outcome.status_code(), 200);
}

#[test]
fn clicking_on_the_confirmation_link_confirms_a_subscriber() {
    let mut app = spawn_app(200);
    app.post_subscriptions("le guin", "ursula_le_guin@gmail.com");
    let email_request = &app.email_server.received_requests[0];
    let confirmation_link = get_link(&email_request.html_content);
    app.get_confirm(&token_of(&confirmation_link));
    assert_eq!(app.store.subscribers.len(), 1);
    let saved = &app.store.subscribers[0];
    assert_eq!(saved.email, "ursula_le_guin@gmail.com");
    assert_eq!(saved.name, "le guin");
    assert_eq!(saved.status.as_str(), "confirmed");
}

#[test]
fn confirming_twice_succeeds_twice() {
    let mut app = spawn_app(200);
    app.post_subscriptions("le guin", "ursula_le_guin@gmail.com");
    let token = app.store.tokens[0].0.clone();
    assert_eq!(app.get_confirm(&token), ConfirmationOutcome::Confirmed);
    assert_eq!(app.store.subscribers[0].status, SubscriptionStatus::Confirmed);
    assert_eq!(app.get_confirm(&token), ConfirmationOutcome::Confirmed);
    assert_eq!(app.store.subscribers[0].status, SubscriptionStatus::Confirmed);
    assert_eq!(app.store.tokens.len(), 1);
    assert_eq!(app.store.tokens[0].0, token);
}

#[test]
fn an_unknown_token_is_unauthorized_and_changes_nothing() {
    let mut app = spawn_app(200);
    app.post_subscriptions("le guin", "ursula_le_guin@gmail.com");
    let writes = app.store.writes;
    let outcome = app.get_confirm("garbage-token");
    assert_eq!(outcome, ConfirmationOutcome::Unauthorized);
    assert_eq!(outcome.status_code(), 401);
    assert_eq!(app.store.writes, writes);
    assert_eq!(app.store.subscribers[0].status, SubscriptionStatus::PendingConfirmation);
}

#[test]
fn an_unknown_token_is_unauthorized_on_an_empty_store() {
    let mut app = spawn_app(200);
    assert_eq!(app.get_confirm("garbage-token"), ConfirmationOutcome::Unauthorized);
    assert_eq!(app.get_confirm(""), ConfirmationOutcome::Unauthorized);
    assert_eq!(app.store.writes, 0);
}

#[test]
fn two_requests_with_one_address_give_two_subscribers() {
    let mut app = spawn_app(200);
    app.post_subscriptions("le guin", "ursula_le_guin@gmail.com");
    app.post_subscriptions("le guin", "ursula_le_guin@gmail.com");
    assert_eq!(app.store.subscribers.len(), 2);
    assert_eq!(app.store.tokens.len(), 2);
    assert_ne!(app.store.tokens[0].0, app.store.tokens[1].0);
    assert_ne!(app.store.tokens[0].1, app.store.tokens[1].1);
    assert_eq!(app.email_server.received_requests.len(), 2);
}

#[test]
fn a_failed_insertion_fails_the_request_and_sends_nothing() {
    let mut app = spawn_app(200);
    app.store.fail_insert = Some(StoreError::Unavailable);
    let outcome = app.post_subscriptions("le guin", "ursula_le_guin@gmail.com");
    assert_eq!(outcome, SubscriptionOutcome::Failed(Failure::Persistence(StoreError::Unavailable)));
    assert_eq!(outcome.status_code(), 500);
    assert_eq!(app.store.writes, 0);
    assert_eq!(app.email_server.received_requests.len(), 0);
}

#[test]
fn a_failed_token_write_fails_the_request_and_sends_nothing() {
    let mut app = spawn_app(200);
    app.store.fail_token = Some(StoreError::Rejected);
    let outcome = app.post_subscriptions("le guin", "ursula_le_guin@gmail.com");
    assert_eq!(outcome, SubscriptionOutcome::Failed(Failure::Persistence(StoreError::Rejected)));
    assert_eq!(outcome.status_code(), 500);
    assert_eq!(app.store.subscribers.len(), 1);
    assert_eq!(app.store.tokens.len(), 0);
    assert_eq!(app.email_server.received_requests.len(), 0);
}

#[test]
fn a_refused_email_fails_the_request_and_keeps_the_records() {
    let mut app = spawn_app(500);
    let outcome = app.post_subscriptions("le guin", "ursula_le_guin@gmail.com");
    assert_eq!(
        outcome,
        SubscriptionOutcome::Failed(Failure::EmailDispatch(DispatchError::Refused {
            status: 500
        }))
    );
    assert_eq!(outcome.status_code(), 500);
    assert_eq!(app.email_server.received_requests.len(), 1);
    assert_eq!(app.store.subscribers.len(), 1);
    assert_eq!(app.store.subscribers[0].status, SubscriptionStatus::PendingConfirmation);
    assert_eq!(app.store.tokens.len(), 1);
}

#[test]
fn an_email_that_times_out_fails_the_request() {
    let mut app = spawn_app(200);
    app.email_server = EmailServer::never_answering();
    let outcome = app.post_subscriptions("le guin", "ursula_le_guin@gmail.com");
    assert_eq!(
        outcome,
        SubscriptionOutcome::Failed(Failure::EmailDispatch(DispatchError::TimedOut))
    );
    assert_eq!(app.email_server.received_requests.len(), 1);
    assert_eq!(app.store.subscribers.len(), 1);
}

#[test]
fn a_failed_lookup_fails_the_confirmation() {
    let mut app = spawn_app(200);
    app.post_subscriptions("le guin", "ursula_le_guin@gmail.com");
    let token = app.store.tokens[0].0.clone();
    app.store.fail_lookup = Some(StoreError::Unavailable);
    let outcome = app.get_confirm(&token);
    assert_eq!(outcome, ConfirmationOutcome::Failed(StoreError::Unavailable));
    assert_eq!(outcome.status_code(), 500);
    assert_eq!(app.store.subscribers[0].status, SubscriptionStatus::PendingConfirmation);
}

#[test]
fn a_failed_marking_fails_the_confirmation() {
    let mut app = spawn_app(200);
    app.post_subscriptions("le guin", "ursula_le_guin@gmail.com");
    let token = app.store.tokens[0].0.clone();
    app.store.fail_mark = Some(StoreError::Rejected);
    let outcome = app.get_confirm(&token);
    assert_eq!(outcome, ConfirmationOutcome::Failed(StoreError::Rejected));
    assert_eq!(app.store.subscribers[0].status, SubscriptionStatus::PendingConfirmation);
}

#[test]
fn an_event_that_is_not_awaited_changes_nothing() {
    let app = spawn_app(200);
    let state = subscribe(Subscription {
        name: "le guin".to_string(),
        email: "ursula_le_guin@gmail.com".to_string(),
    });
    let stray = SubscribeEvent::Dispatched(Ok(()));
    assert!(!state.awaits(&stray));
    let state = subscribe_step(state, stray, &app.email_client, &app.base_url);
    assert!(matches!(state, SubscribeState::Inserting { .. }));
    let state = subscribe_step(
        state,
        SubscribeEvent::TokenStored(Ok(())),
        &app.email_client,
        &app.base_url,
    );
    assert!(matches!(state.action(), SubscribeAction::InsertSubscriber { .. }));

    let done = SubscribeState::Done { outcome: SubscriptionOutcome::Accepted };
    let done = subscribe_step(
        done,
        SubscribeEvent::Inserted(Ok(SubscriberId(1))),
        &app.email_client,
        &app.base_url,
    );
    assert!(matches!(done, SubscribeState::Done { outcome: SubscriptionOutcome::Accepted }));

    let looking = confirm(ConfirmParams { subscription_token: "abc".to_string() });
    let stray = ConfirmEvent::Marked(Ok(()));
    assert!(!looking.awaits(&stray));
    let looking = confirm_step(looking, stray);
    assert!(matches!(looking.action(), ConfirmAction::FindSubscriber { token: "abc" }));
    let marking = confirm_step(looking, ConfirmEvent::Found(Ok(Some(SubscriberId(7)))));
    assert!(matches!(
        marking,
        ConfirmState::Marking { subscriber_id: SubscriberId(7) }
    ));
    let marking = confirm_step(marking, ConfirmEvent::Found(Ok(None)));
    assert!(matches!(
        marking.action(),
        ConfirmAction::MarkConfirmed { subscriber_id: SubscriberId(7) }
    ));
}

#[test]
fn the_confirmation_link_is_base_url_path_and_token() {
    let base_url = ApplicationBaseUrl("https://news.example.com".to_string());
    assert_eq!(
        confirmation_link(&base_url, "abcDEF123"),
        "https://news.example.com/subscriptions/confirm?subscription_token=abcDEF123"
    );
}

#[test]
fn the_confirmation_email_is_built_from_client_base_url_and_token() {
    let app = spawn_app(200);
    let request = send_confirmation_email(
        &app.email_client,
        SubscriberEmail::parse("ursula_le_guin@gmail.com".to_string()).unwrap(),
        &app.base_url,
        "tok123",
    );
    assert_eq!(request.url, "http://email.test/api/send/2317403");
    assert_eq!(request.to, "ursula_le_guin@gmail.com");
    assert_eq!(request.from, "newsletter@example.com");
    assert_eq!(request.subject, "Welcome!");
    assert_eq!(
        request.text_content,
        "Welcome to our newsletter!\nVisit http://127.0.0.1/subscriptions/confirm?subscription_token=tok123 to confirm your subscription."
    );
    assert_eq!(
        request.html_content,
        "Welcome to our newsletter!<br />Click <a href=\"http://127.0.0.1/subscriptions/confirm?subscription_token=tok123\">here</a> to confirm your subscription."
    );
}

#[test]
fn outcomes_map_to_their_status_codes() {
    assert_eq!(SubscriptionOutcome::Accepted.status_code(), 200);
    assert_eq!(SubscriptionOutcome::Rejected(ValidationError::Name).status_code(), 400);
    assert_eq!(SubscriptionOutcome::Rejected(ValidationError::Email).status_code(), 400);
    assert_eq!(
        SubscriptionOutcome::Failed(Failure::Persistence(StoreError::Unavailable)).status_code(),
        500
    );
    assert_eq!(
        SubscriptionOutcome::Failed(Failure::EmailDispatch(DispatchError::Unreachable))
            .status_code(),
        500
    );
    assert_eq!(ConfirmationOutcome::Confirmed.status_code(), 200);
    assert_eq!(ConfirmationOutcome::Unauthorized.status_code(), 401);
    assert_eq!(ConfirmationOutcome::Failed(StoreError::Rejected).status_code(), 500);
}

#[test]
fn a_name_stays_what_it_was_through_the_protocol() {
    let name = SubscriberName::parse("Ursula K. Le Guin".to_string()).unwrap();
    assert_eq!(name.inner_ref(), "Ursula K. Le Guin");
    let mut app = spawn_app(200);
    app.post_subscriptions("Ursula K. Le Guin", "ursula_le_guin@gmail.com");
    assert_eq!(app.store.subscribers[0].name, "Ursula K. Le Guin");
}

#[test]
fn a_valid_subscription_is_accepted_recorded_as_pending_and_mailed_once() {
    let mut app = spawn_app(200);
    let outcome = app.post_subscriptions("le guin", "ursula_le_guin@gmail.com");
    assert_eq!(outcome, SubscriptionOutcome::Accepted);
    assert_eq!(app.store.subscribers.len(), 1);
    assert_eq!(app.store.subscribers[0].status, SubscriptionStatus::PendingConfirmation);
    assert_eq!(app.email_server.received_requests.len(), 1);
    let link = get_link(&app.email_server.received_requests[0].text_content);
    let token = token_of(&link);
    assert!(!token.is_empty());
    assert_eq!(
        app.store.find_subscriber_id_by_token(&token),
        Ok(Some(app.store.subscribers[0].id))
    );
}
