//! Checking a participant in to an event.

use crate::application::ApplicationStatus;
use crate::check_in::CheckInView;
use crate::context::{has_at_least_role, has_role, holds_at_least, holds_role, Actor, Scope, UserRole};
use crate::database::{Database, DatabaseView};
use crate::errors::FailureView;
use crate::foreign::now;
use crate::mutation::checking_in::{lemma_check_in_runs, CheckingIn};
use crate::mutation::{not_eligible, Mutation, Reply, ReplyView};
use crate::protocol::run;
use crate::webhooks::Outbox;
use chrono::NaiveDateTime;
use vstd::prelude::*;

verus! {

/// Whom a user checks in: themself, as a participant, where they name
/// nobody or themself; the participant they name, as an organizer or a
/// director. Nobody, where their role does not allow it.
pub open spec fn check_in_target(user: Actor, id: Option<i32>) -> Option<i32> {
    match id {
        Some(id) => if user.id == id {
            if holds_role(user, UserRole::Participant) {
                Some(id)
            } else {
                None
            }
        } else {
            if holds_at_least(user, UserRole::Organizer) {
                Some(id)
            } else {
                None
            }
        },
        None => if holds_role(user, UserRole::Participant) {
            Some(user.id)
        } else {
            None
        },
    }
}

/// Whether a participant may check in to an event: only with an accepted
/// application.
pub open spec fn eligible(db: DatabaseView, event: Seq<char>, id: i32) -> bool {
    db.applications.contains_key((event, id)) && db.applications[(event, id)].status
        == ApplicationStatus::Accepted
}

/// What a check-in to an event does, at the given time.
///
/// Nothing is written where the user may not check the participant in, nor
/// where the participant is not eligible. Else the participant is marked as
/// checked in at the given time, in place of an earlier mark, and the
/// answer is that time.
pub open spec fn checking_in(
    db: DatabaseView,
    user: Actor,
    event: Seq<char>,
    id: Option<i32>,
    at: NaiveDateTime,
) -> (DatabaseView, ReplyView<NaiveDateTime>) {
    match check_in_target(user, id) {
        None => (db, Err(FailureView::Forbidden)),
        Some(id) => if !eligible(db, event, id) {
            (db, Ok(Err(not_eligible())))
        } else {
            (
                DatabaseView {
                    check_ins: db.check_ins.insert(
                        (event, id),
                        CheckInView { event, participant_id: id, at },
                    ),
                    ..db
                },
                Ok(Ok(at)),
            )
        },
    }
}

/// The answer to a check-in as a view: the time stays as it is.
pub open spec fn check_in_reply_view(reply: Reply<NaiveDateTime>) -> ReplyView<NaiveDateTime> {
    match reply {
        Ok(Ok(at)) => Ok(Ok(at)),
        Ok(Err(error)) => Ok(Err(error@)),
        Err(failure) => Err(failure@),
    }
}

/// Whom a user checks in, if their role allows it.
pub fn resolve_check_in_target(user: &Actor, id: Option<i32>) -> (target: Option<i32>)
    ensures
        target == check_in_target(*user, id),
{
    match id {
        Some(id) => {
            if user.id == id {
                if has_role(user, UserRole::Participant).is_err() {
                    return None;
                }
            } else {
                if has_at_least_role(user, UserRole::Organizer).is_err() {
                    return None;
                }
            }
            Some(id)
        },
        None => {
            if has_role(user, UserRole::Participant).is_err() {
                return None;
            }
            Some(user.id)
        },
    }
}

impl Mutation {
    /// Check in a participant to the event, as of now
    pub fn check_in(&self, user: &Actor, scope: &Scope, id: Option<i32>, db: &mut Database) -> (reply:
        Reply<NaiveDateTime>)
        ensures
            exists|at: NaiveDateTime|
                (final(db)@, check_in_reply_view(reply)) == checking_in(
                    old(db)@,
                    *user,
                    scope.event@,
                    id,
                    at,
                ),
    {
        let at = now();
        self.check_in_at(user, scope, id, at, db)
    }

    /// Check in a participant to the event, as of the given time
    pub fn check_in_at(
        &self,
        user: &Actor,
        scope: &Scope,
        id: Option<i32>,
        at: NaiveDateTime,
        db: &mut Database,
    ) -> (reply: Reply<NaiveDateTime>)
        ensures
            (final(db)@, check_in_reply_view(reply)) == checking_in(
                old(db)@,
                *user,
                scope.event@,
                id,
                at,
            ),
    {
        proof {
            lemma_check_in_runs(db@, *user, scope.event@, id, at);
        }
        let mut outbox = Outbox::new();
        run::<CheckingIn>(CheckingIn::begin(user, scope, id, at), db, &mut outbox)
    }
}

} // verus!
