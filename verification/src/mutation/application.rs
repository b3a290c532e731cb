//! Submitting an application, and what organizers do with it.

use crate::application::{
    complete, promoted, status_name, transition_allowed, Application, ApplicationStatus,
    ApplicationView,
};
use crate::context::{holds_at_least, holds_role, Actor, Scope, UserRole};
use crate::database::{Database, DatabaseView, Error, ErrorView};
use crate::errors::FailureView;
use crate::foreign::now;
use crate::mutation::changing_status::{lemma_status_change_runs, ChangingStatus};
use crate::mutation::submitting::{lemma_submission_runs, Submitting};
use crate::mutation::updating::{lemma_update_runs, Updating};
use crate::mutation::{
    already_submitted, incomplete, invalid_transition, no_draft, not_found, reply_view, Effect,
    Mutation, Reply, ReplyView, UserError, UserErrorView,
};
use crate::protocol::run;
use crate::text::opt_text;
use crate::updater::{revised, revised_table};
use crate::webhooks::{mail, webhook, NotificationView, Outbox};
use chrono::NaiveDateTime;
use vstd::prelude::*;

verus! {

/// The user error that a failure to create an application stands for: the
/// draft leaves a required answer open, there is no draft, or the
/// application is there already. Any other failure stands for none.
pub open spec fn submission_error_of(error: ErrorView) -> Option<UserErrorView> {
    match error {
        ErrorView::Database { code, unique_violation } => if code == Some("23502"@) {
            Some(incomplete())
        } else if unique_violation {
            Some(already_submitted("submitApplication"@))
        } else {
            None
        },
        ErrorView::RowNotFound => Some(no_draft()),
        ErrorView::Other => None,
    }
}

/// What submitting the draft of a user for an event does, at the given
/// time.
///
/// Only a participant may submit. Nothing is written and nothing queued
/// unless there is no application yet and a complete draft. Then the draft
/// becomes a pending application and is deleted, and a webhook and an
/// email to the user are queued.
pub open spec fn submission(
    db: DatabaseView,
    outbox: Seq<NotificationView>,
    user: Actor,
    event: Seq<char>,
    at: NaiveDateTime,
) -> Effect<ApplicationView> {
    let key = (event, user.id);
    if !holds_role(user, UserRole::Participant) {
        Effect { db, outbox, reply: Err(FailureView::Forbidden) }
    } else if db.applications.contains_key(key) {
        Effect { db, outbox, reply: Ok(Err(already_submitted("submitApplication"@))) }
    } else if !db.drafts.contains_key(key) {
        Effect { db, outbox, reply: Ok(Err(no_draft())) }
    } else if !complete(db.drafts[key]) {
        Effect { db, outbox, reply: Ok(Err(incomplete())) }
    } else {
        let application = promoted(db.drafts[key], at);
        Effect {
            db: DatabaseView {
                applications: db.applications.insert(key, application),
                drafts: db.drafts.remove(key),
                ..db
            },
            outbox: outbox.push(webhook("application.submitted"@, event, application, at)).push(
                mail("pending"@, user.email@),
            ),
            reply: Ok(Ok(application)),
        }
    }
}

/// What an organizer's update of an application does.
///
/// Only an organizer or a director may update. Where the participant has
/// no application for the event, nothing is written. Else the values
/// supplied are written, and the answer is the application with them.
pub open spec fn update(
    db: DatabaseView,
    user: Actor,
    event: Seq<char>,
    id: i32,
    flagged: Option<bool>,
    notes: Option<Seq<char>>,
) -> (DatabaseView, ReplyView<ApplicationView>) {
    let key = (event, id);
    if !holds_at_least(user, UserRole::Organizer) {
        (db, Err(FailureView::Forbidden))
    } else if !db.applications.contains_key(key) {
        (db, Ok(Err(not_found())))
    } else {
        (
            DatabaseView {
                applications: revised_table(db.applications, key, None, flagged, notes),
                ..db
            },
            Ok(Ok(revised(db.applications[key], None, flagged, notes))),
        )
    }
}

/// What an organizer's change of the status of an application does.
///
/// Only an organizer or a director may change it. Nothing is written and
/// nothing queued where the participant has no application for the event,
/// nor where the status asked for may not follow the one that the
/// application has. Else the status is written, and an email named after
/// the new status is queued to the participant's address, if one is known.
pub open spec fn status_change(
    db: DatabaseView,
    outbox: Seq<NotificationView>,
    user: Actor,
    event: Seq<char>,
    id: i32,
    status: ApplicationStatus,
) -> Effect<ApplicationView> {
    let key = (event, id);
    if !holds_at_least(user, UserRole::Organizer) {
        Effect { db, outbox, reply: Err(FailureView::Forbidden) }
    } else if !db.applications.contains_key(key) {
        Effect { db, outbox, reply: Ok(Err(not_found())) }
    } else if !transition_allowed(db.applications[key].status, status) {
        Effect { db, outbox, reply: Ok(Err(invalid_transition())) }
    } else {
        let application = ApplicationView { status, ..db.applications[key] };
        Effect {
            db: DatabaseView { applications: db.applications.insert(key, application), ..db },
            outbox: if db.emails.contains_key(id) {
                outbox.push(mail(status_name(status), db.emails[id]))
            } else {
                outbox
            },
            reply: Ok(Ok(application)),
        }
    }
}

/// The user error that a failure to create an application stands for, if
/// it stands for one.
pub fn submission_error(error: &Error) -> (r: Option<UserError>)
    ensures
        match r {
            Some(user_error) => Some(user_error@),
            None => None,
        } == submission_error_of(error@),
{
    if error.has_code("23502") {
        let user_error = UserError::new(&["submitApplication"], "application is incomplete");
        assert(user_error@.field =~= seq!["submitApplication"@]);
        Some(user_error)
    } else if error.is_unique_violation() {
        let user_error = UserError::new(&["submitApplication"], "application already submitted");
        assert(user_error@.field =~= seq!["submitApplication"@]);
        Some(user_error)
    } else {
        match error {
            Error::RowNotFound => {
                let user_error = UserError::new(
                    &["submitApplication"],
                    "could not find a draft application",
                );
                assert(user_error@.field =~= seq!["submitApplication"@]);
                Some(user_error)
            },
            _ => None,
        }
    }
}

/// Input fields for updating an application
#[derive(Debug)]
pub struct UpdateApplicationInput {
    /// The id of the application, which is that of the participant
    pub id: i32,
    /// Whether the application needs extra review
    pub flagged: Option<bool>,
    /// Additional organizer-only notes
    pub notes: Option<String>,
}

/// Input fields for changing an application's status
#[derive(Debug)]
pub struct ChangeApplicationStatusInput {
    /// The id of the application, which is that of the participant
    pub id: i32,
    /// The new status for the application
    pub status: ApplicationStatus,
}

impl Mutation {
    /// Submit a draft application, as of now
    pub fn submit_application(
        &self,
        user: &Actor,
        scope: &Scope,
        db: &mut Database,
        outbox: &mut Outbox,
    ) -> (reply: Reply<Application>)
        ensures
            exists|at: NaiveDateTime|
                (Effect { db: final(db)@, outbox: final(outbox)@, reply: reply_view(reply) })
                    == submission(old(db)@, old(outbox)@, *user, scope.event@, at),
    {
        let at = now();
        self.submit_application_at(user, scope, at, db, outbox)
    }

    /// Submit a draft application, as of the given time
    pub fn submit_application_at(
        &self,
        user: &Actor,
        scope: &Scope,
        at: NaiveDateTime,
        db: &mut Database,
        outbox: &mut Outbox,
    ) -> (reply: Reply<Application>)
        ensures
            (Effect { db: final(db)@, outbox: final(outbox)@, reply: reply_view(reply) })
                == submission(old(db)@, old(outbox)@, *user, scope.event@, at),
    {
        proof {
            lemma_submission_runs(db@, outbox@, *user, scope.event@, at);
        }
        run::<Submitting>(Submitting::begin(user, scope, at), db, outbox)
    }

    /// Update an application's information
    ///
    /// Organizers and directors can update whether the application is
    /// flagged, and the notes.
    pub fn update_application(
        &self,
        user: &Actor,
        scope: &Scope,
        input: UpdateApplicationInput,
        db: &mut Database,
    ) -> (reply: Reply<Application>)
        ensures
            (final(db)@, reply_view(reply)) == update(
                old(db)@,
                *user,
                scope.event@,
                input.id,
                input.flagged,
                opt_text(input.notes),
            ),
    {
        proof {
            lemma_update_runs(
                db@,
                *user,
                scope.event@,
                input.id,
                input.flagged,
                opt_text(input.notes),
            );
        }
        let mut outbox = Outbox::new();
        run::<Updating>(Updating::begin(user, scope, input), db, &mut outbox)
    }

    /// Change an application's status
    ///
    /// The following transitions are allowed:
    /// - pending    -> waitlisted, accepted, rejected
    /// - waitlisted -> accepted, rejected
    /// - accepted   -> none
    /// - rejected   -> none
    pub fn change_application_status(
        &self,
        user: &Actor,
        scope: &Scope,
        input: ChangeApplicationStatusInput,
        db: &mut Database,
        outbox: &mut Outbox,
    ) -> (reply: Reply<Application>)
        ensures
            (Effect { db: final(db)@, outbox: final(outbox)@, reply: reply_view(reply) })
                == status_change(
                old(db)@,
                old(outbox)@,
                *user,
                scope.event@,
                input.id,
                input.status,
            ),
    {
        proof {
            lemma_status_change_runs(db@, outbox@, *user, scope.event@, input.id, input.status);
        }
        run::<ChangingStatus>(ChangingStatus::begin(user, scope, input), db, outbox)
    }
}

} // verus!
