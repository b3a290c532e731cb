//! References to what the identity service holds: events, participants
//! and users. Only the keys are kept here.

use vstd::prelude::*;

verus! {

/// Stub for an event in the identity service
#[derive(Debug, PartialEq, Eq)]
pub struct Event<'e> {
    pub slug: &'e str,
}

/// Stub for a participant in the identity service
#[derive(Debug, PartialEq, Eq)]
pub struct Participant<'p> {
    pub event: Event<'p>,
    pub user: User,
}

/// Stub for a user in the identity service
#[derive(Debug, PartialEq, Eq)]
pub struct User {
    pub id: i32,
}

impl<'p> Participant<'p> {
    /// Create a new participant reference
    pub fn new(user_id: i32, event: &'p str) -> (participant: Self)
        ensures
            participant.event.slug@ == event@,
            participant.user.id == user_id,
    {
        Self { event: Event { slug: event }, user: User { id: user_id } }
    }
}

} // verus!
