//! Requests as conversations with the store.
//!
//! A request does not reach into the store. It asks one thing at a time,
//! is told the answer, and decides what to ask next, until it finishes with
//! its output and the notifications to send. Whoever holds the store runs
//! the conversation inside one transaction: what was written counts only
//! once the request has asked to commit and was told that it is done.

use crate::application::{Application, ApplicationStatus, ApplicationView, creation};
use crate::check_in::{CheckIn, CheckInView};
use crate::database::{Database, DatabaseView, Error, ErrorView};
use crate::draft_application::{DraftApplication, DraftApplicationView};
use crate::email::{Email, EmailView};
use crate::errors::{Failure, FailureView};
use crate::text::views;
use crate::updater::{assigned_all, Assignment, AssignmentView};
use crate::webhooks::{Notification, NotificationView, Outbox};
use chrono::NaiveDateTime;
use vstd::prelude::*;

verus! {

/// What a request asks of the store.
#[derive(Debug, PartialEq, Eq)]
pub enum Command {
    /// Is an application filed under the key?
    ApplicationStored { event: String, participant_id: i32 },
    /// Is an accepted application filed under the key?
    ApplicationAccepted { event: String, participant_id: i32 },
    /// The application filed under the key
    FindApplication { event: String, participant_id: i32 },
    /// The draft filed under the key
    FindDraft { event: String, participant_id: i32 },
    /// The email contact of a participant
    FindEmail { participant_id: i32 },
    /// Make the draft filed under the key an application, submitted at the
    /// given time
    CreateFromDraft { event: String, participant_id: i32, at: NaiveDateTime },
    /// Delete the draft filed under the key
    DeleteDraft { event: String, participant_id: i32 },
    /// File the draft, in place of the one filed under its key
    SaveDraft { draft: DraftApplication },
    /// Write the assignments into the application filed under the key
    UpdateApplication { event: String, participant_id: i32, assignments: Vec<Assignment> },
    /// Mark the participant as checked in at the given time
    MarkCheckIn { event: String, participant_id: i32, at: NaiveDateTime },
    /// Make what was written count
    Commit,
}

/// What a [`Command`] holds, as a view.
pub enum CommandView {
    ApplicationStored { event: Seq<char>, participant_id: i32 },
    ApplicationAccepted { event: Seq<char>, participant_id: i32 },
    FindApplication { event: Seq<char>, participant_id: i32 },
    FindDraft { event: Seq<char>, participant_id: i32 },
    FindEmail { participant_id: i32 },
    CreateFromDraft { event: Seq<char>, participant_id: i32, at: NaiveDateTime },
    DeleteDraft { event: Seq<char>, participant_id: i32 },
    SaveDraft { draft: DraftApplicationView },
    UpdateApplication { event: Seq<char>, participant_id: i32, assignments: Seq<AssignmentView> },
    MarkCheckIn { event: Seq<char>, participant_id: i32, at: NaiveDateTime },
    Commit,
}

impl View for Command {
    type V = CommandView;

    open spec fn view(&self) -> CommandView {
        match self {
            Command::ApplicationStored { event, participant_id } => CommandView::ApplicationStored {
                event: event@,
                participant_id: *participant_id,
            },
            Command::ApplicationAccepted {
                event,
                participant_id,
            } => CommandView::ApplicationAccepted { event: event@, participant_id: *participant_id },
            Command::FindApplication { event, participant_id } => CommandView::FindApplication {
                event: event@,
                participant_id: *participant_id,
            },
            Command::FindDraft { event, participant_id } => CommandView::FindDraft {
                event: event@,
                participant_id: *participant_id,
            },
            Command::FindEmail { participant_id } => CommandView::FindEmail {
                participant_id: *participant_id,
            },
            Command::CreateFromDraft { event, participant_id, at } => CommandView::CreateFromDraft {
                event: event@,
                participant_id: *participant_id,
                at: *at,
            },
            Command::DeleteDraft { event, participant_id } => CommandView::DeleteDraft {
                event: event@,
                participant_id: *participant_id,
            },
            Command::SaveDraft { draft } => CommandView::SaveDraft { draft: draft@ },
            Command::UpdateApplication {
                event,
                participant_id,
                assignments,
            } => CommandView::UpdateApplication {
                event: event@,
                participant_id: *participant_id,
                assignments: views(assignments@),
            },
            Command::MarkCheckIn { event, participant_id, at } => CommandView::MarkCheckIn {
                event: event@,
                participant_id: *participant_id,
                at: *at,
            },
            Command::Commit => CommandView::Commit,
        }
    }
}

/// What the store answers.
#[derive(Debug, PartialEq, Eq)]
pub enum Answer {
    /// Yes or no
    Flag(bool),
    /// The application that was asked for, if there is one
    Application(Option<Application>),
    /// The draft that was asked for, if there is one
    Draft(Option<DraftApplication>),
    /// The email contact that was asked for, if there is one
    Email(Option<Email>),
    /// The application that was created
    Created(Application),
    /// The mark that was made
    CheckedIn(CheckIn),
    /// It is done
    Done,
    /// It failed
    Failed(Error),
}

/// What an [`Answer`] holds, as a view.
pub enum AnswerView {
    Flag(bool),
    Application(Option<ApplicationView>),
    Draft(Option<DraftApplicationView>),
    Email(Option<EmailView>),
    Created(ApplicationView),
    CheckedIn(CheckInView),
    Done,
    Failed(ErrorView),
}

impl View for Answer {
    type V = AnswerView;

    open spec fn view(&self) -> AnswerView {
        match self {
            Answer::Flag(flag) => AnswerView::Flag(*flag),
            Answer::Application(found) => AnswerView::Application(
                match found {
                    Some(application) => Some(application@),
                    None => None,
                },
            ),
            Answer::Draft(found) => AnswerView::Draft(
                match found {
                    Some(draft) => Some(draft@),
                    None => None,
                },
            ),
            Answer::Email(found) => AnswerView::Email(
                match found {
                    Some(email) => Some(email@),
                    None => None,
                },
            ),
            Answer::Created(application) => AnswerView::Created(application@),
            Answer::CheckedIn(check_in) => AnswerView::CheckedIn(check_in@),
            Answer::Done => AnswerView::Done,
            Answer::Failed(error) => AnswerView::Failed(error@),
        }
    }
}

/// What the tables answer to a command, and what they hold afterwards.
/// They never fail but in creating an application, and to commit is
/// nothing to them: that is the business of whoever runs the transaction.
pub open spec fn answer_to(db: DatabaseView, command: CommandView) -> (DatabaseView, AnswerView) {
    match command {
        CommandView::ApplicationStored { event, participant_id } => (
            db,
            AnswerView::Flag(db.applications.contains_key((event, participant_id))),
        ),
        CommandView::ApplicationAccepted { event, participant_id } => (
            db,
            AnswerView::Flag(
                db.applications.contains_key((event, participant_id)) && db.applications[(
                    event,
                    participant_id,
                )].status == ApplicationStatus::Accepted,
            ),
        ),
        CommandView::FindApplication { event, participant_id } => (
            db,
            AnswerView::Application(
                if db.applications.contains_key((event, participant_id)) {
                    Some(db.applications[(event, participant_id)])
                } else {
                    None
                },
            ),
        ),
        CommandView::FindDraft { event, participant_id } => (
            db,
            AnswerView::Draft(
                if db.drafts.contains_key((event, participant_id)) {
                    Some(db.drafts[(event, participant_id)])
                } else {
                    None
                },
            ),
        ),
        CommandView::FindEmail { participant_id } => (
            db,
            AnswerView::Email(
                if db.emails.contains_key(participant_id) {
                    Some(EmailView { participant_id, address: db.emails[participant_id] })
                } else {
                    None
                },
            ),
        ),
        CommandView::CreateFromDraft { event, participant_id, at } => {
            let created = creation(db, (event, participant_id), at);
            (
                created.0,
                match created.1 {
                    Ok(application) => AnswerView::Created(application),
                    Err(error) => AnswerView::Failed(error),
                },
            )
        },
        CommandView::DeleteDraft { event, participant_id } => (
            DatabaseView { drafts: db.drafts.remove((event, participant_id)), ..db },
            AnswerView::Done,
        ),
        CommandView::SaveDraft { draft } => (
            DatabaseView {
                drafts: db.drafts.insert((draft.event, draft.participant_id), draft),
                ..db
            },
            AnswerView::Done,
        ),
        CommandView::UpdateApplication { event, participant_id, assignments } => (
            if db.applications.contains_key((event, participant_id)) && assignments.len() > 0 {
                DatabaseView {
                    applications: db.applications.insert(
                        (event, participant_id),
                        assigned_all(db.applications[(event, participant_id)], assignments),
                    ),
                    ..db
                }
            } else {
                db
            },
            AnswerView::Done,
        ),
        CommandView::MarkCheckIn { event, participant_id, at } => (
            DatabaseView {
                check_ins: db.check_ins.insert(
                    (event, participant_id),
                    CheckInView { event, participant_id, at },
                ),
                ..db
            },
            AnswerView::CheckedIn(CheckInView { event, participant_id, at }),
        ),
        CommandView::Commit => (db, AnswerView::Done),
    }
}

/// The failure that an answer stands for which a request cannot go on
/// from: the failure of the store that it tells of, or a failure of no
/// known kind where the answer is not one to what was asked.
pub open spec fn failure_of(answer: AnswerView) -> FailureView {
    match answer {
        AnswerView::Failed(error) => FailureView::Storage(error),
        _ => FailureView::Storage(ErrorView::Other),
    }
}

impl Answer {
    /// The failure that the answer stands for if a request cannot go on
    /// from it.
    pub fn into_failure(self) -> (failure: Failure)
        ensures
            failure@ == failure_of(self@),
    {
        match self {
            Answer::Failed(error) => Failure::Storage(error),
            _ => Failure::Storage(Error::Other),
        }
    }
}

/// The step that finishes a request with an output and nothing to send.
pub fn finish<S, O>(output: O) -> (step: Step<S, O>)
    ensures
        step matches Step::Finish(given, notifications) && given == output && views(notifications@)
            == Seq::<NotificationView>::empty(),
{
    let nothing: Vec<Notification> = Vec::new();
    assert(views(nothing@) =~= Seq::<NotificationView>::empty());
    Step::Finish(output, nothing)
}

/// A request in progress.
pub trait Protocol: View + Sized {
    /// What the request gives back in the end
    type Output;

    /// The view of what the request gives back
    type OutputView;

    /// The view of an output.
    spec fn output_view(output: Self::Output) -> Self::OutputView;

    /// How the request goes on when it is told an answer.
    spec fn next(state: Self::V, answer: AnswerView) -> StepView<Self::V, Self::OutputView>;

    /// How many more things the request may ask at most.
    spec fn rank(state: Self::V) -> nat;

    /// Goes on with the request, told the answer to what it asked last.
    fn resume(self, answer: Answer) -> (step: Step<Self, Self::Output>)
        ensures
            Self::next(self@, answer@) == (match step {
                Step::Ask(command, state) => StepView::Ask(command@, state@),
                Step::Finish(output, notifications) => StepView::Finish(
                    Self::output_view(output),
                    views(notifications@),
                ),
            }),
            step matches Step::Ask(_, state) ==> Self::rank(state@) < Self::rank(self@),
    ;
}

/// What a request does next: ask the store something, or finish with its
/// output and the notifications to send.
pub enum Step<S, O> {
    Ask(Command, S),
    Finish(O, Vec<Notification>),
}

/// What a [`Step`] holds, as a view.
pub enum StepView<S, O> {
    Ask(CommandView, S),
    Finish(O, Seq<NotificationView>),
}

/// The view of a step.
pub open spec fn step_view<P: Protocol>(step: Step<P, P::Output>) -> StepView<P::V, P::OutputView> {
    match step {
        Step::Ask(command, state) => StepView::Ask(command@, state@),
        Step::Finish(output, notifications) => StepView::Finish(
            P::output_view(output),
            views(notifications@),
        ),
    }
}

/// How a conversation ends: what is stored, the output, and the
/// notifications to send.
pub struct Ending<O> {
    pub db: DatabaseView,
    pub output: O,
    pub notifications: Seq<NotificationView>,
}

/// The end of a conversation with the tables, from a step on, within one
/// transaction: `work` is what the transaction sees, `stored` what counts.
/// What the transaction wrote counts from a commit on; whatever it wrote
/// after its last commit is dropped when the request finishes. Nothing is
/// said of a conversation that outlasts the patience.
pub open spec fn conversation<P: Protocol>(
    step: StepView<P::V, P::OutputView>,
    work: DatabaseView,
    stored: DatabaseView,
    patience: nat,
) -> Ending<P::OutputView>
    decreases patience,
{
    match step {
        StepView::Finish(output, notifications) => Ending { db: stored, output, notifications },
        StepView::Ask(command, state) => {
            let (written, answer) = answer_to(work, command);
            let counted = if command is Commit {
                written
            } else {
                stored
            };
            if patience == 0 {
                arbitrary()
            } else {
                conversation::<P>(P::next(state, answer), written, counted, (patience - 1) as nat)
            }
        },
    }
}

/// How long a conversation may last from a step on.
pub open spec fn patience_for<P: Protocol>(step: StepView<P::V, P::OutputView>) -> nat {
    match step {
        StepView::Ask(_, state) => P::rank(state) + 1,
        StepView::Finish(_, _) => 0,
    }
}

impl Database {
    /// Does what a command asks of the tables, and answers it.
    pub fn perform(&mut self, command: Command) -> (answer: Answer)
        ensures
            (final(self)@, answer@) == answer_to(old(self)@, command@),
    {
        match command {
            Command::ApplicationStored { event, participant_id } => Answer::Flag(
                Application::is_stored(event.as_str(), participant_id, self),
            ),
            Command::ApplicationAccepted { event, participant_id } => Answer::Flag(
                Application::accepted_exists(event.as_str(), participant_id, self),
            ),
            Command::FindApplication { event, participant_id } => Answer::Application(
                Application::find(event.as_str(), participant_id, self),
            ),
            Command::FindDraft { event, participant_id } => Answer::Draft(
                DraftApplication::find(event.as_str(), participant_id, self),
            ),
            Command::FindEmail { participant_id } => Answer::Email(Email::find(participant_id, self)),
            Command::CreateFromDraft { event, participant_id, at } => {
                match Application::from_draft(event.as_str(), participant_id, at, self) {
                    Ok(application) => Answer::Created(application),
                    Err(error) => Answer::Failed(error),
                }
            },
            Command::DeleteDraft { event, participant_id } => {
                DraftApplication::delete(event.as_str(), participant_id, self);
                Answer::Done
            },
            Command::SaveDraft { draft } => {
                draft.save(self);
                Answer::Done
            },
            Command::UpdateApplication { event, participant_id, assignments } => {
                if assignments.len() > 0 {
                    if let Some(row) = Application::find(event.as_str(), participant_id, self) {
                        let mut row = row;
                        row.assign_all(&assignments);
                        self.applications.put(row);
                    }
                }
                Answer::Done
            },
            Command::MarkCheckIn { event, participant_id, at } => Answer::CheckedIn(
                CheckIn::mark(event.as_str(), participant_id, at, self),
            ),
            Command::Commit => Answer::Done,
        }
    }
}

fn converse<P: Protocol>(
    step: Step<P, P::Output>,
    work: &mut Database,
    db: &mut Database,
    Ghost(patience): Ghost<nat>,
) -> (end: (P::Output, Vec<Notification>))
    requires
        step matches Step::Ask(_, state) ==> P::rank(state@) < patience,
    ensures
        conversation::<P>(step_view::<P>(step), old(work)@, old(db)@, patience) == (Ending {
            db: final(db)@,
            output: P::output_view(end.0),
            notifications: views(end.1@),
        }),
    decreases patience,
{
    match step {
        Step::Finish(output, notifications) => (output, notifications),
        Step::Ask(command, state) => {
            let commit = match command {
                Command::Commit => true,
                _ => false,
            };
            let answer = work.perform(command);
            if commit {
                *db = work.duplicate();
            }
            let next = state.resume(answer);
            converse::<P>(next, work, db, Ghost((patience - 1) as nat))
        },
    }
}

/// Runs a request from a step on, in one transaction on the store, and
/// queues the notifications it finishes with.
pub fn run<P: Protocol>(first: Step<P, P::Output>, db: &mut Database, outbox: &mut Outbox) -> (output:
    P::Output)
    ensures
        ({
            let ending = conversation::<P>(
                step_view::<P>(first),
                old(db)@,
                old(db)@,
                patience_for::<P>(step_view::<P>(first)),
            );
            &&& final(db)@ == ending.db
            &&& P::output_view(output) == ending.output
            &&& final(outbox)@ == old(outbox)@ + ending.notifications
        }),
{
    let mut work = db.duplicate();
    let (output, notifications) = converse::<P>(
        first,
        &mut work,
        db,
        Ghost(patience_for::<P>(step_view::<P>(first))),
    );
    outbox.extend(notifications);
    output
}

} // verus!
