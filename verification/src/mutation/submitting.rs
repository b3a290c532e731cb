//! A submission as a conversation with the store.

use crate::application::{Application, ApplicationView};
use crate::context::{has_role, holds_role, Actor, Scope, UserRole};
use crate::database::DatabaseView;
use crate::errors::{Failure, FailureView};
use crate::mutation::application::{submission, submission_error, submission_error_of};
use crate::mutation::{already_submitted, reply_view, Reply, ReplyView, UserError};
use crate::protocol::{
    conversation, failure_of, finish, patience_for, step_view, Answer, AnswerView, Command,
    CommandView, Protocol, Step, StepView,
};
use crate::webhooks::{mail, send_at, send_templated, webhook, NotificationView, Outbox};
use chrono::NaiveDateTime;
use vstd::prelude::*;

verus! {

/// Where a submission stands.
#[derive(Debug, PartialEq, Eq)]
pub enum SubmittingStage {
    /// It has asked whether an application is there already
    Checking,
    /// It has asked to create the application from the draft
    Creating,
    /// It has asked to delete the draft
    Deleting(Application),
    /// It has asked to commit
    Committing(Application),
}

/// A submission in progress.
#[derive(Debug, PartialEq, Eq)]
pub struct Submitting {
    pub stage: SubmittingStage,
    /// The participant who submits
    pub participant_id: i32,
    /// The address to write to the participant at
    pub email: String,
    /// The slug of the event
    pub event: String,
    /// When the application is submitted
    pub at: NaiveDateTime,
}

/// What a [`SubmittingStage`] holds, as a view.
pub enum SubmittingStageView {
    Checking,
    Creating,
    Deleting(ApplicationView),
    Committing(ApplicationView),
}

/// What a [`Submitting`] holds, as a view.
pub struct SubmittingView {
    pub stage: SubmittingStageView,
    pub participant_id: i32,
    pub email: Seq<char>,
    pub event: Seq<char>,
    pub at: NaiveDateTime,
}

impl View for Submitting {
    type V = SubmittingView;

    open spec fn view(&self) -> SubmittingView {
        SubmittingView {
            stage: match self.stage {
                SubmittingStage::Checking => SubmittingStageView::Checking,
                SubmittingStage::Creating => SubmittingStageView::Creating,
                SubmittingStage::Deleting(application) => SubmittingStageView::Deleting(
                    application@,
                ),
                SubmittingStage::Committing(application) => SubmittingStageView::Committing(
                    application@,
                ),
            },
            participant_id: self.participant_id,
            email: self.email@,
            event: self.event@,
            at: self.at,
        }
    }
}

/// How a submission begins: it is refused where the user is no
/// participant, and else asks whether an application is there already.
pub open spec fn submission_begins(user: Actor, event: Seq<char>, at: NaiveDateTime) -> StepView<
    SubmittingView,
    ReplyView<ApplicationView>,
> {
    if !holds_role(user, UserRole::Participant) {
        StepView::Finish(Err(FailureView::Forbidden), Seq::empty())
    } else {
        StepView::Ask(
            CommandView::ApplicationStored { event, participant_id: user.id },
            SubmittingView {
                stage: SubmittingStageView::Checking,
                participant_id: user.id,
                email: user.email@,
                event,
                at,
            },
        )
    }
}

impl Protocol for Submitting {
    type Output = Reply<Application>;

    type OutputView = ReplyView<ApplicationView>;

    open spec fn output_view(output: Reply<Application>) -> ReplyView<ApplicationView> {
        reply_view(output)
    }

    /// Where no application is there yet, the application is created from
    /// the draft, the draft deleted, and both committed; then the
    /// submission finishes with the application, a webhook about it and an
    /// email to the participant. Where an application is there, and where
    /// creating it fails for want of a draft or of an answer, the
    /// participant is told so. On any other failure the submission finishes
    /// at once. Nothing is sent, and nothing committed, unless all went
    /// well.
    open spec fn next(state: SubmittingView, answer: AnswerView) -> StepView<
        SubmittingView,
        ReplyView<ApplicationView>,
    > {
        match (state.stage, answer) {
            (SubmittingStageView::Checking, AnswerView::Flag(stored)) => if stored {
                StepView::Finish(
                    Ok(Err(already_submitted("submitApplication"@))),
                    Seq::empty(),
                )
            } else {
                StepView::Ask(
                    CommandView::CreateFromDraft {
                        event: state.event,
                        participant_id: state.participant_id,
                        at: state.at,
                    },
                    SubmittingView { stage: SubmittingStageView::Creating, ..state },
                )
            },
            (SubmittingStageView::Creating, AnswerView::Created(application)) => StepView::Ask(
                CommandView::DeleteDraft {
                    event: state.event,
                    participant_id: state.participant_id,
                },
                SubmittingView { stage: SubmittingStageView::Deleting(application), ..state },
            ),
            (SubmittingStageView::Creating, AnswerView::Failed(error)) => match submission_error_of(
                error,
            ) {
                Some(user_error) => StepView::Finish(Ok(Err(user_error)), Seq::empty()),
                None => StepView::Finish(Err(FailureView::Storage(error)), Seq::empty()),
            },
            (SubmittingStageView::Deleting(application), AnswerView::Done) => StepView::Ask(
                CommandView::Commit,
                SubmittingView { stage: SubmittingStageView::Committing(application), ..state },
            ),
            (SubmittingStageView::Committing(application), AnswerView::Done) => StepView::Finish(
                Ok(Ok(application)),
                Seq::empty().push(
                    webhook("application.submitted"@, state.event, application, state.at),
                ).push(mail("pending"@, state.email)),
            ),
            _ => StepView::Finish(Err(failure_of(answer)), Seq::empty()),
        }
    }

    open spec fn rank(state: SubmittingView) -> nat {
        match state.stage {
            SubmittingStageView::Checking => 3,
            SubmittingStageView::Creating => 2,
            SubmittingStageView::Deleting(_) => 1,
            SubmittingStageView::Committing(_) => 0,
        }
    }

    fn resume(self, answer: Answer) -> (step: Step<Submitting, Reply<Application>>) {
        let Submitting { stage, participant_id, email, event, at } = self;
        match (stage, answer) {
            (SubmittingStage::Checking, Answer::Flag(stored)) => {
                if stored {
                    let user_error = UserError::new(
                        &["submitApplication"],
                        "application already submitted",
                    );
                    assert(user_error@.field =~= seq!["submitApplication"@]);
                    finish(Ok(Err(user_error)))
                } else {
                    Step::Ask(
                        Command::CreateFromDraft { event: event.clone(), participant_id, at },
                        Submitting {
                            stage: SubmittingStage::Creating,
                            participant_id,
                            email,
                            event,
                            at,
                        },
                    )
                }
            },
            (SubmittingStage::Creating, Answer::Created(application)) => Step::Ask(
                Command::DeleteDraft { event: event.clone(), participant_id },
                Submitting {
                    stage: SubmittingStage::Deleting(application),
                    participant_id,
                    email,
                    event,
                    at,
                },
            ),
            (SubmittingStage::Creating, Answer::Failed(error)) => {
                match submission_error(&error) {
                    Some(user_error) => finish(Ok(Err(user_error))),
                    None => finish(Err(Failure::Storage(error))),
                }
            },
            (SubmittingStage::Deleting(application), Answer::Done) => Step::Ask(
                Command::Commit,
                Submitting {
                    stage: SubmittingStage::Committing(application),
                    participant_id,
                    email,
                    event,
                    at,
                },
            ),
            (SubmittingStage::Committing(application), Answer::Done) => {
                let mut outbox = Outbox::new();
                send_at(&mut outbox, "application.submitted", event.as_str(), &application, at);
                send_templated(&mut outbox, "pending", email.as_str());
                Step::Finish(Ok(Ok(application)), outbox.drain())
            },
            (_, answer) => finish(Err(answer.into_failure())),
        }
    }
}

impl Submitting {
    /// Begins a submission.
    pub fn begin(user: &Actor, scope: &Scope, at: NaiveDateTime) -> (step: Step<
        Submitting,
        Reply<Application>,
    >)
        ensures
            step_view::<Submitting>(step) == submission_begins(*user, scope.event@, at),
    {
        if has_role(user, UserRole::Participant).is_err() {
            return finish(Err(Failure::Forbidden));
        }
        Step::Ask(
            Command::ApplicationStored { event: scope.event.clone(), participant_id: user.id },
            Submitting {
                stage: SubmittingStage::Checking,
                participant_id: user.id,
                email: user.email.clone(),
                event: scope.event.clone(),
                at,
            },
        )
    }
}

/// A submission that is run on the tables does what a submission is to
/// do.
pub proof fn lemma_submission_runs(
    db: DatabaseView,
    outbox: Seq<NotificationView>,
    user: Actor,
    event: Seq<char>,
    at: NaiveDateTime,
)
    ensures
        ({
            let first = submission_begins(user, event, at);
            let ending = conversation::<Submitting>(
                first,
                db,
                db,
                patience_for::<Submitting>(first),
            );
            let effect = submission(db, outbox, user, event, at);
            &&& ending.db == effect.db
            &&& ending.output == effect.reply
            &&& outbox + ending.notifications == effect.outbox
        }),
{
    reveal_with_fuel(conversation, 5);
    let first = submission_begins(user, event, at);
    let ending = conversation::<Submitting>(first, db, db, patience_for::<Submitting>(first));
    let effect = submission(db, outbox, user, event, at);
    assert(outbox + ending.notifications =~= effect.outbox);
}

} // verus!
