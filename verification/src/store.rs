//! The subscriber store as the service sees it: the values that pass between
//! the two, and a model of what the store holds and of what each request does
//! to it. The protocols' laws are stated over this model.

use vstd::prelude::*;

verus! {

/// The identifier of a subscriber. The store makes one for each subscriber it
/// inserts and never hands out the same one twice; the service only carries it.
#[derive(Debug, Clone, Copy, PartialEq, Eq, Hash, Structural)]
pub struct SubscriberId(pub u128);

/// Why the store did not carry out a request.
#[derive(Debug, Clone, Copy, PartialEq, Eq, Structural)]
pub enum StoreError {
    /// The store could not be reached, or did not answer.
    Unavailable,
    /// The store turned the write down.
    Rejected,
}

/// Where a subscriber stands. A subscriber starts as `PendingConfirmation`
/// and can only ever move on to `Confirmed`.
#[derive(Debug, Clone, Copy, PartialEq, Eq, Structural)]
pub enum SubscriptionStatus {
    PendingConfirmation,
    Confirmed,
}

impl SubscriptionStatus {
    /// The name under which the store records the status.
    pub open spec fn name(self) -> Seq<char> {
        match self {
            SubscriptionStatus::PendingConfirmation => "pending_confirmation"@,
            SubscriptionStatus::Confirmed => "confirmed"@,
        }
    }

    /// The name under which the store records the status.
    pub fn as_str(&self) -> (r: &'static str)
        ensures
            r@ == self.name(),
    {
        match self {
            SubscriptionStatus::PendingConfirmation => "pending_confirmation",
            SubscriptionStatus::Confirmed => "confirmed",
        }
    }
}

/// One subscriber as the store holds it. Only the status ever changes.
pub struct SubscriberRecord {
    pub name: Seq<char>,
    pub email: Seq<char>,
    pub status: SubscriptionStatus,
    /// When the subscriber was inserted, on the store's clock.
    pub subscribed_at: int,
}

/// What the store holds: the subscribers by their identifier, and for each
/// token the subscriber that it confirms.
pub struct StoreModel {
    pub subscribers: Map<SubscriberId, SubscriberRecord>,
    pub tokens: Map<Seq<char>, SubscriberId>,
}

impl StoreModel {
    /// The store after it has inserted a pending subscriber under `id`, at
    /// the time `now`.
    pub open spec fn insert_pending(
        self,
        id: SubscriberId,
        name: Seq<char>,
        email: Seq<char>,
        now: int,
    ) -> StoreModel {
        StoreModel {
            subscribers: self.subscribers.insert(
                id,
                SubscriberRecord {
                    name,
                    email,
                    status: SubscriptionStatus::PendingConfirmation,
                    subscribed_at: now,
                },
            ),
            tokens: self.tokens,
        }
    }

    /// The store after it has recorded that `token` confirms `id`.
    pub open spec fn associate_token(self, id: SubscriberId, token: Seq<char>) -> StoreModel {
        StoreModel { subscribers: self.subscribers, tokens: self.tokens.insert(token, id) }
    }

    /// The subscriber that `token` confirms, if the store knows the token.
    pub open spec fn find_subscriber(self, token: Seq<char>) -> Option<SubscriberId> {
        if self.tokens.contains_key(token) {
            Some(self.tokens[token])
        } else {
            None
        }
    }

    /// The store after it has marked `id` as confirmed. A subscriber that it
    /// does not hold changes nothing; so does one that is confirmed already.
    pub open spec fn mark_confirmed(self, id: SubscriberId) -> StoreModel {
        if self.subscribers.contains_key(id) {
            StoreModel {
                subscribers: self.subscribers.insert(
                    id,
                    SubscriberRecord {
                        name: self.subscribers[id].name,
                        email: self.subscribers[id].email,
                        status: SubscriptionStatus::Confirmed,
                        subscribed_at: self.subscribers[id].subscribed_at,
                    },
                ),
                tokens: self.tokens,
            }
        } else {
            self
        }
    }

    /// Whether the store holds `id` as a confirmed subscriber.
    pub open spec fn is_confirmed(self, id: SubscriberId) -> bool {
        self.subscribers.contains_key(id) && self.subscribers[id].status
            == SubscriptionStatus::Confirmed
    }

    /// Whether the store holds `id` as a subscriber who has yet to confirm.
    pub open spec fn is_pending(self, id: SubscriberId) -> bool {
        self.subscribers.contains_key(id) && self.subscribers[id].status
            == SubscriptionStatus::PendingConfirmation
    }

    /// Every token of the store confirms a subscriber that the store holds.
    pub open spec fn well_formed(self) -> bool {
        forall|token: Seq<char>| #[trigger]
            self.tokens.contains_key(token) ==> self.subscribers.contains_key(self.tokens[token])
    }
}

} // verus!
