//! What holds of the requests whatever is stored.

use crate::application::{
    complete, creation, promoted, transition_allowed, ApplicationStatus, ApplicationView,
};
use crate::context::{holds_at_least, holds_role, Actor, UserRole};
use crate::database::{not_null_violation, DatabaseView, ErrorView};
use crate::draft_application::DraftApplicationView;
use crate::mutation::application::{status_change, submission, submission_error_of, update};
use crate::mutation::changing_status::{ChangingStatus, ChangingStatusView};
use crate::mutation::check_in::{check_in_target, checking_in};
use crate::mutation::checking_in::{CheckingIn, CheckingInView};
use crate::mutation::draft_application::{patched, saving, SaveApplicationInputView};
use crate::mutation::saving::{Saving, SavingView};
use crate::mutation::submitting::{Submitting, SubmittingView};
use crate::mutation::updating::{Updating, UpdatingView};
use crate::protocol::{AnswerView, Protocol, StepView};
use crate::updater::{assigned_all, assignments_of, lemma_assignments_revise, revised};
use crate::mutation::{
    already_submitted, incomplete, invalid_transition, no_draft, not_eligible, UserErrorView,
};
use crate::errors::FailureView;
use crate::patch::Patch;
use crate::webhooks::NotificationView;
use chrono::NaiveDateTime;
use vstd::prelude::*;

verus! {

/// Submitting twice is as good as submitting once: where a participant has
/// an application for the event, or a complete draft to make it from, a
/// second submission is turned down as already submitted and leaves
/// everything as the first left it.
pub proof fn law_submission_is_idempotent(
    db: DatabaseView,
    outbox: Seq<NotificationView>,
    user: Actor,
    event: Seq<char>,
    first_at: NaiveDateTime,
    second_at: NaiveDateTime,
)
    requires
        holds_role(user, UserRole::Participant),
        db.applications.contains_key((event, user.id)) || (db.drafts.contains_key((event, user.id))
            && complete(db.drafts[(event, user.id)])),
    ensures
        ({
            let first = submission(db, outbox, user, event, first_at);
            let second = submission(first.db, first.outbox, user, event, second_at);
            &&& second.reply == Ok::<Result<ApplicationView, UserErrorView>, FailureView>(
                Err(already_submitted("submitApplication"@)),
            )
            &&& second.db == first.db
            &&& second.outbox == first.outbox
        }),
{
}

/// A submission promotes the draft: where a participant has no application
/// for the event and a complete draft, the draft becomes the application,
/// pending, not flagged, without notes, submitted and last modified at the
/// time of the submission, and the draft is gone. The check-ins and the
/// email contacts stay as they were, and a webhook and an email wait to be
/// sent.
pub proof fn law_submission_promotes_the_draft(
    db: DatabaseView,
    outbox: Seq<NotificationView>,
    user: Actor,
    event: Seq<char>,
    at: NaiveDateTime,
)
    requires
        holds_role(user, UserRole::Participant),
        !db.applications.contains_key((event, user.id)),
        db.drafts.contains_key((event, user.id)),
        complete(db.drafts[(event, user.id)]),
    ensures
        ({
            let key = (event, user.id);
            let submitted = submission(db, outbox, user, event, at);
            let application = promoted(db.drafts[key], at);
            &&& submitted.reply == Ok::<Result<ApplicationView, UserErrorView>, FailureView>(
                Ok(application),
            )
            &&& application.status == ApplicationStatus::Pending
            &&& !application.flagged
            &&& application.notes.len() == 0
            &&& application.created_at == at
            &&& application.updated_at == at
            &&& submitted.db.applications.contains_key(key)
            &&& submitted.db.applications[key] == application
            &&& !submitted.db.drafts.contains_key(key)
            &&& submitted.db.check_ins == db.check_ins
            &&& submitted.db.emails == db.emails
            &&& submitted.outbox.len() == outbox.len() + 2
        }),
{
}

/// A request that is turned down writes nothing and sends nothing: unless
/// its answer is what it was asked for, the store and the outbox are as
/// they were.
pub proof fn law_refusals_write_nothing(
    db: DatabaseView,
    outbox: Seq<NotificationView>,
    user: Actor,
    event: Seq<char>,
    id: i32,
    target: Option<i32>,
    status: ApplicationStatus,
    flagged: Option<bool>,
    notes: Option<Seq<char>>,
    input: SaveApplicationInputView,
    at: NaiveDateTime,
)
    ensures
        ({
            let submitted = submission(db, outbox, user, event, at);
            !(submitted.reply matches Ok(Ok(_))) ==> submitted.db == db && submitted.outbox == outbox
        }),
        ({
            let changed = status_change(db, outbox, user, event, id, status);
            !(changed.reply matches Ok(Ok(_))) ==> changed.db == db && changed.outbox == outbox
        }),
        ({
            let updated = update(db, user, event, id, flagged, notes);
            !(updated.1 matches Ok(Ok(_))) ==> updated.0 == db
        }),
        ({
            let saved = saving(db, user, event, input, at);
            !(saved.1 matches Ok(Ok(_))) ==> saved.0 == db
        }),
        ({
            let checked = checking_in(db, user, event, target, at);
            !(checked.1 matches Ok(Ok(_))) ==> checked.0 == db
        }),
{
}

/// A draft that leaves any one required answer open is not complete.
pub proof fn law_open_answer_is_incomplete(draft: DraftApplicationView)
    requires
        draft.gender is None || draft.race_ethnicity is None || draft.date_of_birth is None
            || draft.education is None || draft.graduation_year is None
            || draft.hackathons_attended is None || draft.address_line1 is None
            || draft.postal_code is None || draft.country is None,
    ensures
        !complete(draft),
{
}

/// Creating an application from a draft that is not complete fails as
/// incomplete, and creating one where no draft is fails as without a
/// draft: each a user error, neither a failure of the store. So does
/// submitting, where the participant has no application yet.
pub proof fn law_creation_names_what_is_missing(
    db: DatabaseView,
    outbox: Seq<NotificationView>,
    user: Actor,
    event: Seq<char>,
    at: NaiveDateTime,
)
    ensures
        ({
            let key = (event, user.id);
            let created = creation(db, key, at);
            let submitted = submission(db, outbox, user, event, at);
            let may_submit = holds_role(user, UserRole::Participant) && !db.applications.contains_key(
                key,
            );
            &&& !db.drafts.contains_key(key) ==> {
                &&& created.0 == db
                &&& created.1 == Err::<ApplicationView, ErrorView>(ErrorView::RowNotFound)
                &&& submission_error_of(ErrorView::RowNotFound) == Some(no_draft())
                &&& may_submit ==> submitted.db == db && submitted.reply == Ok::<
                    Result<ApplicationView, UserErrorView>,
                    FailureView,
                >(Err(no_draft()))
            }
            &&& db.drafts.contains_key(key) && !complete(db.drafts[key]) ==> {
                &&& created.0 == db
                &&& created.1 == Err::<ApplicationView, ErrorView>(not_null_violation())
                &&& submission_error_of(not_null_violation()) == Some(incomplete())
                &&& may_submit ==> submitted.db == db && submitted.reply == Ok::<
                    Result<ApplicationView, UserErrorView>,
                    FailureView,
                >(Err(incomplete()))
            }
        }),
{
}

/// Nothing follows an acceptance or a rejection: whatever status an
/// organizer asks for, the change is turned down as an invalid transition,
/// and nothing is written or queued.
pub proof fn law_terminal_statuses(
    db: DatabaseView,
    outbox: Seq<NotificationView>,
    user: Actor,
    event: Seq<char>,
    id: i32,
    requested: ApplicationStatus,
)
    requires
        holds_at_least(user, UserRole::Organizer),
        db.applications.contains_key((event, id)),
        db.applications[(event, id)].status == ApplicationStatus::Accepted || db.applications[(
            event,
            id,
        )].status == ApplicationStatus::Rejected,
    ensures
        !transition_allowed(ApplicationStatus::Accepted, requested),
        !transition_allowed(ApplicationStatus::Rejected, requested),
        ({
            let changed = status_change(db, outbox, user, event, id, requested);
            &&& changed.reply == Ok::<Result<ApplicationView, UserErrorView>, FailureView>(
                Err(invalid_transition()),
            )
            &&& changed.db == db
            &&& changed.outbox == outbox
        }),
{
}

/// The transitions: a pending application may be put on the waitlist,
/// accepted or rejected, one on the waitlist accepted or rejected, and
/// nothing else. No status may follow itself, and none leads back to
/// pending.
pub proof fn law_transitions(current: ApplicationStatus, requested: ApplicationStatus)
    ensures
        transition_allowed(ApplicationStatus::Pending, ApplicationStatus::Waitlisted),
        transition_allowed(ApplicationStatus::Pending, ApplicationStatus::Accepted),
        transition_allowed(ApplicationStatus::Pending, ApplicationStatus::Rejected),
        transition_allowed(ApplicationStatus::Waitlisted, ApplicationStatus::Accepted),
        transition_allowed(ApplicationStatus::Waitlisted, ApplicationStatus::Rejected),
        !transition_allowed(ApplicationStatus::Waitlisted, ApplicationStatus::Waitlisted),
        !transition_allowed(current, ApplicationStatus::Pending),
        !transition_allowed(current, current),
        transition_allowed(current, requested) <==> (current == ApplicationStatus::Pending
            || current == ApplicationStatus::Waitlisted) && (requested
            == ApplicationStatus::Accepted || requested == ApplicationStatus::Rejected || (current
            == ApplicationStatus::Pending && requested == ApplicationStatus::Waitlisted)),
{
}

/// An organizer's change to a status that may follow is carried out: the
/// answer is the application with the new status and all else as it was,
/// and that is what is stored from then on.
pub proof fn law_allowed_transition_succeeds(
    db: DatabaseView,
    outbox: Seq<NotificationView>,
    user: Actor,
    event: Seq<char>,
    id: i32,
    requested: ApplicationStatus,
)
    requires
        holds_at_least(user, UserRole::Organizer),
        db.applications.contains_key((event, id)),
        transition_allowed(db.applications[(event, id)].status, requested),
    ensures
        ({
            let changed = status_change(db, outbox, user, event, id, requested);
            let application = ApplicationView { status: requested, ..db.applications[(event, id)] };
            &&& changed.reply == Ok::<Result<ApplicationView, UserErrorView>, FailureView>(
                Ok(application),
            )
            &&& changed.db.applications.contains_key((event, id))
            &&& changed.db.applications[(event, id)] == application
            &&& changed.db.drafts == db.drafts
            &&& changed.db.check_ins == db.check_ins
            &&& changed.db.emails == db.emails
        }),
{
}

/// Only the accepted check in: where a user may check a participant in,
/// the check-in succeeds exactly if the participant's application for the
/// event is accepted, and is turned down as not eligible otherwise, with
/// nothing written.
pub proof fn law_check_in_needs_acceptance(
    db: DatabaseView,
    user: Actor,
    event: Seq<char>,
    id: Option<i32>,
    at: NaiveDateTime,
)
    requires
        check_in_target(user, id) is Some,
    ensures
        ({
            let target = check_in_target(user, id)->0;
            let checked = checking_in(db, user, event, id, at);
            let accepted = db.applications.contains_key((event, target)) && db.applications[(
                event,
                target,
            )].status == ApplicationStatus::Accepted;
            &&& accepted ==> checked.1 == Ok::<Result<NaiveDateTime, UserErrorView>, FailureView>(Ok(at))
            &&& !accepted ==> checked.1 == Ok::<Result<NaiveDateTime, UserErrorView>, FailureView>(
                Err(not_eligible()),
            ) && checked.0 == db
        }),
{
}

/// Checking in again is no error: once a check-in has succeeded, each
/// further one succeeds too, answers with its own time, and leaves that
/// time as the mark, with all else as it was.
pub proof fn law_check_in_repeats(
    db: DatabaseView,
    user: Actor,
    event: Seq<char>,
    id: Option<i32>,
    first_at: NaiveDateTime,
    second_at: NaiveDateTime,
)
    requires
        checking_in(db, user, event, id, first_at).1 matches Ok(Ok(_)),
    ensures
        ({
            let target = check_in_target(user, id)->0;
            let first = checking_in(db, user, event, id, first_at);
            let second = checking_in(first.0, user, event, id, second_at);
            &&& first.1 == Ok::<Result<NaiveDateTime, UserErrorView>, FailureView>(Ok(first_at))
            &&& first.0.check_ins[(event, target)].at == first_at
            &&& second.1 == Ok::<Result<NaiveDateTime, UserErrorView>, FailureView>(Ok(second_at))
            &&& second.0.check_ins.contains_key((event, target))
            &&& second.0.check_ins[(event, target)].at == second_at
            &&& second.0.check_ins.dom() == first.0.check_ins.dom()
            &&& second.0.applications == db.applications
            &&& second.0.drafts == db.drafts
            &&& second.0.emails == db.emails
        }),
{
    let target = check_in_target(user, id)->0;
    let first = checking_in(db, user, event, id, first_at);
    let second = checking_in(first.0, user, event, id, second_at);
    assert(second.0.check_ins.dom() =~= first.0.check_ins.dom());
}

/// The three things a patch can do to an answer: keep it, so that it
/// stays as it was, whether given or open; clear it, so that it is open
/// afterwards; replace it, so that it is the given one.
pub proof fn law_patch<T>(current: Option<T>, value: T)
    ensures
        Patch::<T>::Keep.applied(current) == current,
        Patch::<T>::Clear.applied(current) is None,
        Patch::Replace(value).applied(current) == Some(value),
{
}

/// A save patches each answer of a draft by its own patch and by no other,
/// and leaves alone what has no patch: the key, the school, and the times
/// of the first and the last save.
pub proof fn law_save_patches_each_answer(draft: DraftApplicationView, input: SaveApplicationInputView)
    ensures
        ({
            let saved = patched(draft, input);
            &&& saved.gender == input.gender.applied(draft.gender)
            &&& saved.race_ethnicity == input.race_ethnicity.applied(draft.race_ethnicity)
            &&& saved.date_of_birth == input.date_of_birth.applied(draft.date_of_birth)
            &&& saved.referrer == input.referrer.applied(draft.referrer)
            &&& saved.education == input.education.applied(draft.education)
            &&& saved.graduation_year == input.graduation_year.applied(draft.graduation_year)
            &&& saved.major == input.major.applied(draft.major)
            &&& saved.hackathons_attended == input.hackathons_attended.applied(draft.hackathons_attended)
            &&& saved.vcs_url == input.vcs_url.applied(draft.vcs_url)
            &&& saved.portfolio_url == input.portfolio_url.applied(draft.portfolio_url)
            &&& saved.devpost_url == input.devpost_url.applied(draft.devpost_url)
            &&& saved.address_line1 == input.address_line1.applied(draft.address_line1)
            &&& saved.address_line2 == input.address_line2.applied(draft.address_line2)
            &&& saved.address_line3 == input.address_line3.applied(draft.address_line3)
            &&& saved.locality == input.locality.applied(draft.locality)
            &&& saved.administrative_area == input.administrative_area.applied(draft.administrative_area)
            &&& saved.postal_code == input.postal_code.applied(draft.postal_code)
            &&& saved.country == input.country.applied(draft.country)
            &&& saved.share_information == (match input.share_information {
                Some(share_information) => share_information,
                None => draft.share_information,
            })
            &&& saved.event == draft.event
            &&& saved.participant_id == draft.participant_id
            &&& saved.school_id == draft.school_id
            &&& saved.created_at == draft.created_at
            &&& saved.updated_at == draft.updated_at
        }),
{
}

/// Once an application is created, only its status, its flag and its
/// notes ever change: an update changes nothing else of it, whatever is
/// supplied.
pub proof fn law_update_keeps_the_submission(
    application: ApplicationView,
    status: Option<ApplicationStatus>,
    flagged: Option<bool>,
    notes: Option<Seq<char>>,
)
    ensures
        ({
            let after = revised(application, status, flagged, notes);
            &&& after == (ApplicationView {
                status: after.status,
                flagged: after.flagged,
                notes: after.notes,
                ..application
            })
            &&& after == assigned_all(application, assignments_of(status, flagged, notes))
            &&& status is None ==> after.status == application.status
            &&& flagged is None ==> after.flagged == application.flagged
            &&& notes is None ==> after.notes == application.notes
        }),
{
    lemma_assignments_revise(application, status, flagged, notes);
}

/// A submission is all or nothing, whatever the store answers. It asks to
/// commit last, and finishes on the answer to that. It succeeds only when
/// told that the commit is done, and only then has it anything to send.
/// Told of a failure, it finishes at once: with the user error that the
/// failure stands for where creating the application failed for want of a
/// draft or of an answer, or because the application is there already, and
/// with the failure otherwise.
pub proof fn law_submission_is_atomic(state: SubmittingView, answer: AnswerView)
    ensures
        match Submitting::next(state, answer) {
            StepView::Ask(command, after) => {
                &&& !(state.stage is Committing)
                &&& !(answer is Failed)
                &&& (command is Commit) <==> (after.stage is Committing)
            },
            StepView::Finish(reply, notifications) => {
                &&& (reply matches Ok(Ok(_))) <==> (state.stage is Committing && answer is Done)
                &&& notifications.len() > 0 ==> (reply matches Ok(Ok(_)))
                &&& answer matches AnswerView::Failed(error) ==> {
                    if state.stage is Creating && submission_error_of(error) is Some {
                        reply == Ok::<Result<ApplicationView, UserErrorView>, FailureView>(
                            Err(submission_error_of(error)->0),
                        )
                    } else {
                        reply == Err::<Result<ApplicationView, UserErrorView>, FailureView>(
                            FailureView::Storage(error),
                        )
                    }
                }
            },
        },
{
}

/// A change of status is all or nothing, whatever the store answers. It
/// asks to commit last, and finishes on the answer to that. It succeeds
/// only when told that the commit is done, and only then has it anything to
/// send. Told of a failure, it finishes at once with it.
pub proof fn law_status_change_is_atomic(state: ChangingStatusView, answer: AnswerView)
    ensures
        match ChangingStatus::next(state, answer) {
            StepView::Ask(command, after) => {
                &&& !(state.stage is Committing)
                &&& !(answer is Failed)
                &&& (command is Commit) <==> (after.stage is Committing)
            },
            StepView::Finish(reply, notifications) => {
                &&& (reply matches Ok(Ok(_))) <==> (state.stage is Committing && answer is Done)
                &&& notifications.len() > 0 ==> (reply matches Ok(Ok(_)))
                &&& answer matches AnswerView::Failed(error) ==> reply == Err::<
                    Result<ApplicationView, UserErrorView>,
                    FailureView,
                >(FailureView::Storage(error))
            },
        },
{
}

/// An organizer's update is all or nothing, whatever the store answers:
/// it asks to commit last, succeeds only when told that the commit is
/// done, never has anything to send, and finishes at once with a failure
/// that it is told of.
pub proof fn law_update_is_atomic(state: UpdatingView, answer: AnswerView)
    ensures
        match Updating::next(state, answer) {
            StepView::Ask(command, after) => {
                &&& !(state.stage is Committing)
                &&& !(answer is Failed)
                &&& (command is Commit) <==> (after.stage is Committing)
            },
            StepView::Finish(reply, notifications) => {
                &&& (reply matches Ok(Ok(_))) <==> (state.stage is Committing && answer is Done)
                &&& notifications.len() == 0
                &&& answer matches AnswerView::Failed(error) ==> reply == Err::<
                    Result<ApplicationView, UserErrorView>,
                    FailureView,
                >(FailureView::Storage(error))
            },
        },
{
}

/// A save is all or nothing, whatever the store answers: it asks to commit
/// last, succeeds only when told that the commit is done, never has
/// anything to send, and finishes at once with a failure that it is told
/// of.
pub proof fn law_saving_is_atomic(state: SavingView, answer: AnswerView)
    ensures
        match Saving::next(state, answer) {
            StepView::Ask(command, after) => {
                &&& !(state.stage is Committing)
                &&& !(answer is Failed)
                &&& (command is Commit) <==> (after.stage is Committing)
            },
            StepView::Finish(reply, notifications) => {
                &&& (reply matches Ok(Ok(_))) <==> (state.stage is Committing && answer is Done)
                &&& notifications.len() == 0
                &&& answer matches AnswerView::Failed(error) ==> reply == Err::<
                    Result<DraftApplicationView, UserErrorView>,
                    FailureView,
                >(FailureView::Storage(error))
            },
        },
{
}

/// A check-in is all or nothing, whatever the store answers: it asks to
/// commit last, succeeds only when told that the commit is done, never has
/// anything to send, and finishes at once with a failure that it is told
/// of.
pub proof fn law_check_in_is_atomic(state: CheckingInView, answer: AnswerView)
    ensures
        match CheckingIn::next(state, answer) {
            StepView::Ask(command, after) => {
                &&& !(state is Committing)
                &&& !(answer is Failed)
                &&& (command is Commit) <==> (after is Committing)
            },
            StepView::Finish(reply, notifications) => {
                &&& (reply matches Ok(Ok(_))) <==> (state is Committing && answer is Done)
                &&& notifications.len() == 0
                &&& answer matches AnswerView::Failed(error) ==> reply == Err::<
                    Result<NaiveDateTime, UserErrorView>,
                    FailureView,
                >(FailureView::Storage(error))
            },
        },
{
}

} // verus!
