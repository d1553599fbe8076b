//! The subscriber lifecycle: both protocols driven against collaborators that
//! answer every request, and what holds of every such run.
//!
//! A driver performs what a state asks for and hands the answer back as an
//! event. Here the store is the model of `crate::store`, and the email
//! service is the list of the requests it was sent.

use crate::email_client::{EmailClientView, SendEmailRequestView};
use crate::domain::subscriber_email::is_valid_email;
use crate::domain::subscriber_name::is_valid_name;
use crate::routes::subscriptions::{
    confirmation_link_of, confirmation_path, confirmation_request, html_body_of, subscribe_action,
    subscribe_awaits, subscribe_next, subscribe_start, text_body_of, Failure,
    SubscribeActionView, SubscribeEvent, SubscribeStateView, SubscriptionOutcome,
};
use crate::routes::subscriptions_confirm::{
    confirm_action, confirm_awaits, confirm_next, confirm_start, ConfirmActionView,
    ConfirmEvent, ConfirmStateView, ConfirmationOutcome,
};
use crate::store::{StoreError, StoreModel, SubscriberId};
use vstd::prelude::*;

verus! {

/// The collaborators together: what the store holds, and the requests that
/// the email service was sent, oldest first.
pub struct World {
    pub store: StoreModel,
    pub sent: Seq<SendEmailRequestView>,
}

/// `needle` stands somewhere in `haystack`, unbroken.
pub open spec fn occurs_in(needle: Seq<char>, haystack: Seq<char>) -> bool {
    exists|at: int|
        0 <= at && at + needle.len() <= haystack.len() && #[trigger] haystack.subrange(
            at,
            at + needle.len(),
        ) == needle
}

/// The answer of a store that works to what a confirmation asks of it, and
/// what the store holds afterwards. Marking succeeds whether or not the store
/// holds the subscriber. A protocol that has ended asks for nothing more, so
/// what stands here for `Respond` is never looked at.
pub open spec fn confirm_answer(store: StoreModel, action: ConfirmActionView) -> (
    ConfirmEvent,
    StoreModel,
) {
    match action {
        ConfirmActionView::FindSubscriber { token } => (
            ConfirmEvent::Found(Ok(store.find_subscriber(token))),
            store,
        ),
        ConfirmActionView::MarkConfirmed { subscriber_id } => (
            ConfirmEvent::Marked(Ok(())),
            store.mark_confirmed(subscriber_id),
        ),
        ConfirmActionView::Respond { .. } => (ConfirmEvent::Marked(Ok(())), store),
    }
}

/// A confirmation driven from `state` for at most `steps` steps.
pub open spec fn confirm_drive(state: ConfirmStateView, store: StoreModel, steps: nat) -> (
    ConfirmStateView,
    StoreModel,
)
    decreases steps,
{
    if steps == 0 || state is Done {
        (state, store)
    } else {
        let (event, answered) = confirm_answer(store, confirm_action(state));
        confirm_drive(confirm_next(state, event), answered, (steps - 1) as nat)
    }
}

/// A confirmation request for `token`, driven to its end against `store`.
pub open spec fn confirm_run(store: StoreModel, token: Seq<char>) -> (
    ConfirmStateView,
    StoreModel,
) {
    confirm_drive(confirm_start(token), store, 2)
}

/// The answer of collaborators that work to what a subscription asks of
/// them, and the world afterwards. The store inserts the subscriber under
/// `fresh_id`, at the time `now`. It turns down an identifier or a token that
/// it holds already: neither is ever given a second meaning. The email
/// service accepts every request.
pub open spec fn subscribe_answer(
    world: World,
    action: SubscribeActionView,
    fresh_id: SubscriberId,
    now: int,
) -> (SubscribeEvent, World) {
    match action {
        SubscribeActionView::InsertSubscriber { subscriber } => {
            if world.store.subscribers.contains_key(fresh_id) {
                (SubscribeEvent::Inserted(Err(StoreError::Rejected)), world)
            } else {
                (
                    SubscribeEvent::Inserted(Ok(fresh_id)),
                    World {
                        store: world.store.insert_pending(
                            fresh_id,
                            subscriber.name,
                            subscriber.email,
                            now,
                        ),
                        sent: world.sent,
                    },
                )
            }
        },
        SubscribeActionView::StoreToken { subscriber_id, token } => {
            if world.store.tokens.contains_key(token) {
                (SubscribeEvent::TokenStored(Err(StoreError::Rejected)), world)
            } else {
                (
                    SubscribeEvent::TokenStored(Ok(())),
                    World {
                        store: world.store.associate_token(subscriber_id, token),
                        sent: world.sent,
                    },
                )
            }
        },
        SubscribeActionView::SendEmail { request } => (
            SubscribeEvent::Dispatched(Ok(())),
            World { store: world.store, sent: world.sent.push(request) },
        ),
        SubscribeActionView::Respond { .. } => (SubscribeEvent::Dispatched(Ok(())), world),
    }
}

/// What the subscription and its collaborators do not decide together: the
/// identifier that the store makes, the store's clock, and the token that the
/// service draws.
pub struct Chance {
    pub fresh_id: SubscriberId,
    pub now: int,
    pub token: Seq<char>,
}

/// A subscription driven from `state` for at most `steps` steps.
pub open spec fn subscribe_drive(
    state: SubscribeStateView,
    world: World,
    chance: Chance,
    client: EmailClientView,
    base_url: Seq<char>,
    steps: nat,
) -> (SubscribeStateView, World)
    decreases steps,
{
    if steps == 0 || state is Done {
        (state, world)
    } else {
        let (event, answered) = subscribe_answer(
            world,
            subscribe_action(state),
            chance.fresh_id,
            chance.now,
        );
        subscribe_drive(
            subscribe_next(state, event, chance.token, client, base_url),
            answered,
            chance,
            client,
            base_url,
            (steps - 1) as nat,
        )
    }
}

/// A subscription request with these two fields, driven to its end.
pub open spec fn subscribe_run(
    world: World,
    name: Seq<char>,
    email: Seq<char>,
    chance: Chance,
    client: EmailClientView,
    base_url: Seq<char>,
) -> (SubscribeStateView, World) {
    subscribe_drive(subscribe_start(name, email), world, chance, client, base_url, 3)
}

/// A token that the store does not know is answered with `Unauthorized`, and
/// the store holds afterwards exactly what it held before.
pub proof fn law_unknown_token_is_unauthorized(store: StoreModel, token: Seq<char>)
    requires
        !store.tokens.contains_key(token),
    ensures
        confirm_run(store, token) == (
            ConfirmStateView::Done { outcome: ConfirmationOutcome::Unauthorized },
            store,
        ),
{
    reveal_with_fuel(confirm_drive, 3);
}

/// A token that the store knows confirms its subscriber: the request ends
/// with `Confirmed`, the subscriber, if the store holds them, is confirmed
/// afterwards, and no token is lost.
pub proof fn law_known_token_confirms(store: StoreModel, token: Seq<char>)
    requires
        store.tokens.contains_key(token),
    ensures
        confirm_run(store, token).0 == (ConfirmStateView::Done {
            outcome: ConfirmationOutcome::Confirmed,
        }),
        confirm_run(store, token).1 == store.mark_confirmed(store.tokens[token]),
        confirm_run(store, token).1.tokens == store.tokens,
        store.subscribers.contains_key(store.tokens[token]) ==> confirm_run(
            store,
            token,
        ).1.is_confirmed(store.tokens[token]),
{
    reveal_with_fuel(confirm_drive, 3);
}

/// Confirming is idempotent: the same known token confirms a second time as
/// it did the first, the second request changes nothing in the store, and
/// the token's subscriber, if the store holds them, is confirmed after both.
pub proof fn law_confirmation_is_idempotent(store: StoreModel, token: Seq<char>)
    requires
        store.tokens.contains_key(token),
    ensures
        ({
            let first = confirm_run(store, token);
            let second = confirm_run(first.1, token);
            &&& first.0 == ConfirmStateView::Done { outcome: ConfirmationOutcome::Confirmed }
            &&& second.0 == ConfirmStateView::Done { outcome: ConfirmationOutcome::Confirmed }
            &&& second.1 == first.1
            &&& store.subscribers.contains_key(store.tokens[token]) ==> second.1.is_confirmed(
                store.tokens[token],
            )
        }),
{
    law_known_token_confirms(store, token);
    let first = confirm_run(store, token);
    law_known_token_confirms(first.1, token);
    let id = store.tokens[token];
    assert(first.1.mark_confirmed(id).subscribers =~= first.1.subscribers);
}

/// A confirmation never takes anything back: whatever the token, the store
/// holds the same subscribers afterwards, each under the same name, address
/// and time of subscription, and one who was confirmed is confirmed still.
pub proof fn law_confirmation_only_advances(store: StoreModel, token: Seq<char>, id: SubscriberId)
    requires
        store.subscribers.contains_key(id),
    ensures
        ({
            let after = confirm_run(store, token).1;
            &&& after.subscribers.dom() == store.subscribers.dom()
            &&& after.subscribers[id].name == store.subscribers[id].name
            &&& after.subscribers[id].email == store.subscribers[id].email
            &&& after.subscribers[id].subscribed_at == store.subscribers[id].subscribed_at
            &&& store.is_confirmed(id) ==> after.is_confirmed(id)
            &&& after.is_pending(id) ==> store.is_pending(id)
        }),
{
    reveal_with_fuel(confirm_drive, 3);
    let after = confirm_run(store, token).1;
    assert(after.subscribers.dom() =~= store.subscribers.dom());
}

/// A request whose name or address is malformed is rejected, and neither
/// collaborator hears of it.
pub proof fn law_malformed_request_touches_nothing(
    world: World,
    name: Seq<char>,
    email: Seq<char>,
    chance: Chance,
    client: EmailClientView,
    base_url: Seq<char>,
)
    requires
        !is_valid_name(name) || !is_valid_email(email),
    ensures
        ({
            let end = subscribe_run(world, name, email, chance, client, base_url);
            &&& end.0 matches SubscribeStateView::Done { outcome: SubscriptionOutcome::Rejected(_) }
            &&& end.1 == world
        }),
{
    reveal_with_fuel(subscribe_drive, 4);
}

/// A well-formed request, with collaborators that work and an identifier and
/// a token that the store has not seen, is accepted. The store then holds
/// the subscriber as pending, under the name and address as they came, and
/// knows the token as theirs. Exactly one email was sent: the confirmation
/// email for that token, to that address.
pub proof fn law_accepted_request_is_recorded_and_mailed(
    world: World,
    name: Seq<char>,
    email: Seq<char>,
    chance: Chance,
    client: EmailClientView,
    base_url: Seq<char>,
)
    requires
        is_valid_name(name),
        is_valid_email(email),
        !world.store.subscribers.contains_key(chance.fresh_id),
        !world.store.tokens.contains_key(chance.token),
    ensures
        ({
            let end = subscribe_run(world, name, email, chance, client, base_url);
            &&& end.0 == SubscribeStateView::Done { outcome: SubscriptionOutcome::Accepted }
            &&& end.1.store == world.store.insert_pending(
                chance.fresh_id,
                name,
                email,
                chance.now,
            ).associate_token(chance.fresh_id, chance.token)
            &&& end.1.store.is_pending(chance.fresh_id)
            &&& end.1.store.subscribers[chance.fresh_id].name == name
            &&& end.1.store.subscribers[chance.fresh_id].email == email
            &&& end.1.store.subscribers[chance.fresh_id].subscribed_at == chance.now
            &&& end.1.store.find_subscriber(chance.token) == Some(chance.fresh_id)
            &&& end.1.sent == world.sent.push(
                confirmation_request(client, base_url, email, chance.token),
            )
        }),
{
    reveal_with_fuel(subscribe_drive, 4);
}

/// Where the store turns the subscriber or the token down, the request fails
/// and no email is sent.
pub proof fn law_refused_write_sends_nothing(
    world: World,
    name: Seq<char>,
    email: Seq<char>,
    chance: Chance,
    client: EmailClientView,
    base_url: Seq<char>,
)
    requires
        is_valid_name(name),
        is_valid_email(email),
        world.store.subscribers.contains_key(chance.fresh_id) || world.store.tokens.contains_key(
            chance.token,
        ),
    ensures
        ({
            let end = subscribe_run(world, name, email, chance, client, base_url);
            &&& end.0 == SubscribeStateView::Done {
                outcome: SubscriptionOutcome::Failed(Failure::Persistence(StoreError::Rejected)),
            }
            &&& end.1.sent == world.sent
        }),
{
    reveal_with_fuel(subscribe_drive, 4);
}

/// A subscription only ever adds: whatever the request and however it ends,
/// every subscriber that the store held is held as before, every token that
/// it knew still confirms the same subscriber, every email that was sent
/// stays sent, and at most one is sent on top.
pub proof fn law_subscription_only_adds(
    world: World,
    name: Seq<char>,
    email: Seq<char>,
    chance: Chance,
    client: EmailClientView,
    base_url: Seq<char>,
)
    ensures
        ({
            let end = subscribe_run(world, name, email, chance, client, base_url).1;
            &&& forall|id: SubscriberId| #[trigger]
                world.store.subscribers.contains_key(id) ==> end.store.subscribers.contains_key(id)
                    && end.store.subscribers[id] == world.store.subscribers[id]
            &&& forall|token: Seq<char>| #[trigger]
                world.store.tokens.contains_key(token) ==> end.store.tokens.contains_key(token)
                    && end.store.tokens[token] == world.store.tokens[token]
            &&& end.sent == world.sent || (end.sent.len() == world.sent.len() + 1
                && end.sent.drop_last() == world.sent)
        }),
{
    reveal_with_fuel(subscribe_drive, 4);
    let end = subscribe_run(world, name, email, chance, client, base_url).1;
    if end.sent != world.sent {
        assert(end.sent.drop_last() =~= world.sent);
    }
}

/// Both protocols keep the store well-formed: where every token confirmed a
/// subscriber that the store held, every token does so afterwards.
pub proof fn law_runs_keep_the_store_well_formed(
    world: World,
    name: Seq<char>,
    email: Seq<char>,
    chance: Chance,
    client: EmailClientView,
    base_url: Seq<char>,
    token: Seq<char>,
)
    requires
        world.store.well_formed(),
    ensures
        subscribe_run(world, name, email, chance, client, base_url).1.store.well_formed(),
        confirm_run(world.store, token).1.well_formed(),
{
    reveal_with_fuel(subscribe_drive, 4);
    reveal_with_fuel(confirm_drive, 3);
}

/// The link of an accepted request confirms its subscriber: a confirmation
/// request for the token that was issued ends with `Confirmed`, and the
/// subscriber is confirmed afterwards, under the same name and address.
pub proof fn law_issued_token_confirms_its_subscriber(
    world: World,
    name: Seq<char>,
    email: Seq<char>,
    chance: Chance,
    client: EmailClientView,
    base_url: Seq<char>,
)
    requires
        is_valid_name(name),
        is_valid_email(email),
        !world.store.subscribers.contains_key(chance.fresh_id),
        !world.store.tokens.contains_key(chance.token),
    ensures
        ({
            let subscribed = subscribe_run(world, name, email, chance, client, base_url).1;
            let confirmed = confirm_run(subscribed.store, chance.token);
            &&& confirmed.0 == ConfirmStateView::Done { outcome: ConfirmationOutcome::Confirmed }
            &&& confirmed.1.is_confirmed(chance.fresh_id)
            &&& confirmed.1.subscribers[chance.fresh_id].name == name
            &&& confirmed.1.subscribers[chance.fresh_id].email == email
        }),
{
    law_accepted_request_is_recorded_and_mailed(world, name, email, chance, client, base_url);
    let subscribed = subscribe_run(world, name, email, chance, client, base_url).1;
    law_known_token_confirms(subscribed.store, chance.token);
}

/// The email is asked for only once the store has recorded the token: a
/// step ends in `Dispatching` only from `StoringToken` on the store's
/// success, or from `Dispatching` itself on an event that it ignores.
pub proof fn law_email_only_after_token_is_recorded(
    state: SubscribeStateView,
    event: SubscribeEvent,
    token: Seq<char>,
    client: EmailClientView,
    base_url: Seq<char>,
)
    requires
        subscribe_next(state, event, token, client, base_url) is Dispatching,
    ensures
        (state is StoringToken && event matches SubscribeEvent::TokenStored(Ok(_))) || (state
            is Dispatching && subscribe_next(state, event, token, client, base_url) == state),
{
}

/// An event that a state does not wait for changes nothing, in either
/// protocol; and a protocol that has ended stays ended, whatever comes.
pub proof fn law_stray_event_changes_nothing(
    subscription: SubscribeStateView,
    answer: SubscribeEvent,
    token: Seq<char>,
    client: EmailClientView,
    base_url: Seq<char>,
    confirmation: ConfirmStateView,
    reply: ConfirmEvent,
)
    ensures
        !subscribe_awaits(subscription, answer) ==> subscribe_next(
            subscription,
            answer,
            token,
            client,
            base_url,
        ) == subscription,
        subscription is Done ==> !subscribe_awaits(subscription, answer),
        !confirm_awaits(confirmation, reply) ==> confirm_next(confirmation, reply) == confirmation,
        confirmation is Done ==> !confirm_awaits(confirmation, reply),
{
}

/// Both bodies of the confirmation email hold the same link, and the link
/// holds the token.
pub proof fn law_bodies_hold_the_link(base_url: Seq<char>, token: Seq<char>)
    ensures
        ({
            let link = confirmation_link_of(base_url, token);
            &&& occurs_in(link, html_body_of(link))
            &&& occurs_in(link, text_body_of(link))
            &&& occurs_in(token, link)
        }),
{
    let link = confirmation_link_of(base_url, token);
    let html_lead = "Welcome to our newsletter!<br />Click <a href=\""@;
    let text_lead = "Welcome to our newsletter!\nVisit "@;
    let html = html_body_of(link);
    let text = text_body_of(link);
    assert(html.subrange(html_lead.len() as int, html_lead.len() as int + link.len()) =~= link);
    assert(text.subrange(text_lead.len() as int, text_lead.len() as int + link.len()) =~= link);
    let lead = link.len() - token.len();
    assert(link.subrange(lead, lead + token.len()) =~= token);
}

/// A link tells which token it was built for: under one base URL, two links
/// are the same only where their tokens are.
pub proof fn law_link_determines_token(base_url: Seq<char>, first: Seq<char>, second: Seq<char>)
    requires
        confirmation_link_of(base_url, first) == confirmation_link_of(base_url, second),
    ensures
        first == second,
{
    let lead = base_url + confirmation_path();
    let one = confirmation_link_of(base_url, first);
    let other = confirmation_link_of(base_url, second);
    assert(one.subrange(lead.len() as int, one.len() as int) =~= first);
    assert(other.subrange(lead.len() as int, other.len() as int) =~= second);
}

} // verus!
