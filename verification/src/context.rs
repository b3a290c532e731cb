//! Who makes a request, and for which event.

use crate::errors::Forbidden;
use vstd::prelude::*;

verus! {

/// The role of a user in an event
#[derive(Clone, Copy, Debug, PartialEq, Eq, Structural)]
pub enum UserRole {
    Participant,
    Organizer,
    Director,
}

/// The user who makes a request, as resolved before the request is
/// handled.
#[derive(Debug, PartialEq, Eq)]
pub struct Actor {
    /// The id of the user
    pub id: i32,
    /// The address to write to the user at
    pub email: String,
    /// The role of the user in the event, if they take part in it
    pub role: Option<UserRole>,
}

/// The event that a request is made for.
#[derive(Debug, PartialEq, Eq)]
pub struct Scope {
    /// The slug of the event
    pub event: String,
}

/// How far a role reaches: a participant least, a director most.
pub open spec fn rank(role: UserRole) -> int {
    match role {
        UserRole::Participant => 0,
        UserRole::Organizer => 1,
        UserRole::Director => 2,
    }
}

/// Whether a user has exactly the given role.
pub open spec fn holds_role(user: Actor, role: UserRole) -> bool {
    user.role == Some(role)
}

/// Whether a user has the given role or one that reaches further.
pub open spec fn holds_at_least(user: Actor, least: UserRole) -> bool {
    user.role matches Some(role) && rank(role) >= rank(least)
}

/// Passes a user who has exactly the given role.
pub fn has_role(user: &Actor, role: UserRole) -> (r: Result<(), Forbidden>)
    ensures
        r is Ok <==> holds_role(*user, role),
{
    match user.role {
        Some(own) => if own == role {
            Ok(())
        } else {
            Err(Forbidden)
        },
        None => Err(Forbidden),
    }
}

/// Passes a user who has the given role or one that reaches further, and
/// gives the role that they have.
pub fn has_at_least_role(user: &Actor, least: UserRole) -> (r: Result<UserRole, Forbidden>)
    ensures
        r is Ok <==> holds_at_least(*user, least),
        r matches Ok(role) ==> user.role == Some(role),
{
    match user.role {
        Some(own) => {
            let enough = match (own, least) {
                (_, UserRole::Participant) => true,
                (UserRole::Participant, _) => false,
                (UserRole::Organizer, UserRole::Organizer) => true,
                (UserRole::Organizer, UserRole::Director) => false,
                (UserRole::Director, _) => true,
            };
            if enough {
                Ok(own)
            } else {
                Err(Forbidden)
            }
        },
        None => Err(Forbidden),
    }
}

} // verus!
