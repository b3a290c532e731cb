//! The requests that only read.

use crate::application::Application;
use crate::context::{has_at_least_role, holds_at_least, Actor, Scope, UserRole};
use crate::database::Database;
use crate::draft_application::DraftApplication;
use crate::errors::Failure;
use vstd::prelude::*;

verus! {

/// The queries.
pub struct Query;

/// How long a visit to the webhook dashboard lasts, in seconds: one day.
pub const WEBHOOK_DASHBOARD_EXPIRY: i32 = 86400;

/// What a user may do on the webhook dashboard, and for how long.
#[derive(Debug, PartialEq, Eq)]
pub struct PortalAccess {
    /// After how many seconds the visit ends
    pub expiry: i32,
    /// Whether the user may only read
    pub read_only: bool,
}

/// Whose record a user reads: their own where they name nobody, else the
/// one they name, which a participant may only do of themself. Nobody's,
/// where they take no part in the event.
pub open spec fn read_target(user: Actor, id: Option<i32>) -> Option<i32> {
    if user.role is None {
        None
    } else {
        match id {
            Some(id) => if user.role == Some(UserRole::Participant) && id != user.id {
                None
            } else {
                Some(id)
            },
            None => Some(user.id),
        }
    }
}

/// Whose record a user reads, if they may.
pub fn resolve_read_target(user: &Actor, id: Option<i32>) -> (target: Option<i32>)
    ensures
        target == read_target(*user, id),
{
    let role = match user.role {
        Some(role) => role,
        None => {
            return None;
        },
    };
    match id {
        Some(id) => {
            if role == UserRole::Participant && id != user.id {
                return None;
            }
            Some(id)
        },
        None => Some(user.id),
    }
}

impl Query {
    /// The access to the webhook dashboard that a user is given: none to a
    /// participant, a day of reading to an organizer, a day of reading and
    /// writing to a director.
    pub fn webhook_dashboard_access(&self, user: &Actor) -> (r: Result<PortalAccess, Failure>)
        ensures
            !holds_at_least(*user, UserRole::Organizer) ==> r == Err::<PortalAccess, Failure>(
                Failure::Forbidden,
            ),
            holds_at_least(*user, UserRole::Organizer) ==> r == Ok::<PortalAccess, Failure>(
                PortalAccess {
                    expiry: 86400,
                    read_only: user.role == Some(UserRole::Organizer),
                },
            ),
    {
        match has_at_least_role(user, UserRole::Organizer) {
            Ok(role) => Ok(
                PortalAccess {
                    expiry: WEBHOOK_DASHBOARD_EXPIRY,
                    read_only: role == UserRole::Organizer,
                },
            ),
            Err(_) => Err(Failure::Forbidden),
        }
    }

    /// Get a submitted application
    pub fn application(&self, user: &Actor, scope: &Scope, id: Option<i32>, db: &Database) -> (r:
        Result<Option<Application>, Failure>)
        ensures
            match read_target(*user, id) {
                None => r == Err::<Option<Application>, Failure>(Failure::Forbidden),
                Some(id) => {
                    let key = (scope.event@, id);
                    &&& r matches Ok(found)
                    &&& found is Some <==> db@.applications.contains_key(key)
                    &&& found matches Some(application) ==> application@ == db@.applications[key]
                },
            },
    {
        let id = match resolve_read_target(user, id) {
            Some(id) => id,
            None => {
                return Err(Failure::Forbidden);
            },
        };
        Ok(Application::find(scope.event.as_str(), id, db))
    }

    /// Get all submitted applications, each once
    pub fn applications(&self, user: &Actor, scope: &Scope, db: &Database) -> (r: Result<
        Vec<Application>,
        Failure,
    >)
        ensures
            !holds_at_least(*user, UserRole::Organizer) ==> r == Err::<Vec<Application>, Failure>(
                Failure::Forbidden,
            ),
            holds_at_least(*user, UserRole::Organizer) ==> {
                &&& r matches Ok(found)
                &&& forall|i: int, j: int|
                    0 <= i < j < found.len() ==> (#[trigger] found[i]).participant_id != (
                    #[trigger] found[j]).participant_id
                &&& forall|i: int|
                    0 <= i < found.len() ==> {
                        let key = (scope.event@, (#[trigger] found[i]).participant_id);
                        db@.applications.contains_key(key) && db@.applications[key] == found[i]@
                    }
                &&& forall|id: i32| #[trigger]
                    db@.applications.contains_key((scope.event@, id)) ==> exists|i: int|
                        0 <= i < found.len() && (#[trigger] found[i]).participant_id == id
            },
    {
        if has_at_least_role(user, UserRole::Organizer).is_err() {
            return Err(Failure::Forbidden);
        }
        Ok(Application::all(scope.event.as_str(), db))
    }

    /// Get an in-progress application
    pub fn draft_application(&self, user: &Actor, scope: &Scope, id: Option<i32>, db: &Database) -> (r:
        Result<Option<DraftApplication>, Failure>)
        ensures
            match read_target(*user, id) {
                None => r == Err::<Option<DraftApplication>, Failure>(Failure::Forbidden),
                Some(id) => {
                    let key = (scope.event@, id);
                    &&& r matches Ok(found)
                    &&& found is Some <==> db@.drafts.contains_key(key)
                    &&& found matches Some(draft) ==> draft@ == db@.drafts[key]
                },
            },
    {
        let id = match resolve_read_target(user, id) {
            Some(id) => id,
            None => {
                return Err(Failure::Forbidden);
            },
        };
        Ok(DraftApplication::find(scope.event.as_str(), id, db))
    }
}

} // verus!
