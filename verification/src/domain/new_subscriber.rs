//! What a subscription request holds once both of its fields are validated.

use crate::domain::subscriber_email::SubscriberEmail;
use crate::domain::subscriber_name::SubscriberName;
use vstd::prelude::*;

verus! {

/// A subscriber who is about to be recorded: a valid name and a valid address.
#[derive(Debug)]
pub struct NewSubscriber {
    pub name: SubscriberName,
    pub email: SubscriberEmail,
}

/// A `NewSubscriber` as contracts see it.
pub struct NewSubscriberView {
    pub name: Seq<char>,
    pub email: Seq<char>,
}

impl View for NewSubscriber {
    type V = NewSubscriberView;

    open spec fn view(&self) -> NewSubscriberView {
        NewSubscriberView { name: self.name@, email: self.email@ }
    }
}

} // verus!
