//! A change of status as a conversation with the store.

use crate::application::{
    status_name, transition_allowed, Application, ApplicationStatus, ApplicationView,
};
use crate::context::{has_at_least_role, holds_at_least, Actor, Scope, UserRole};
use crate::database::DatabaseView;
use crate::errors::{Failure, FailureView};
use crate::mutation::application::{status_change, ChangeApplicationStatusInput};
use crate::mutation::{invalid_transition, not_found, reply_view, Reply, ReplyView, UserError};
use crate::protocol::{
    conversation, failure_of, finish, patience_for, step_view, Answer, AnswerView, Command,
    CommandView, Protocol, Step, StepView,
};
use crate::text::opt_text;
use crate::updater::{assignments_for, assignments_of, lemma_assignments_revise};
use crate::webhooks::{mail, send_templated, NotificationView, Outbox};
use vstd::prelude::*;

verus! {

/// Where a change of status stands.
#[derive(Debug, PartialEq, Eq)]
pub enum ChangingStatusStage {
    /// It has asked for the application
    Finding,
    /// It has asked to write the status; it holds the application with it
    Writing(Application),
    /// It has asked for the participant's email contact
    Resolving(Application),
    /// It has asked to commit; it holds the address to write to, if one is
    /// known
    Committing(Application, Option<String>),
}

/// A change of status in progress.
#[derive(Debug, PartialEq, Eq)]
pub struct ChangingStatus {
    pub stage: ChangingStatusStage,
    /// The slug of the event
    pub event: String,
    /// The participant whose application it is
    pub participant_id: i32,
    /// The status to give it
    pub status: ApplicationStatus,
}

/// What a [`ChangingStatusStage`] holds, as a view.
pub enum ChangingStatusStageView {
    Finding,
    Writing(ApplicationView),
    Resolving(ApplicationView),
    Committing(ApplicationView, Option<Seq<char>>),
}

/// What a [`ChangingStatus`] holds, as a view.
pub struct ChangingStatusView {
    pub stage: ChangingStatusStageView,
    pub event: Seq<char>,
    pub participant_id: i32,
    pub status: ApplicationStatus,
}

impl View for ChangingStatus {
    type V = ChangingStatusView;

    open spec fn view(&self) -> ChangingStatusView {
        ChangingStatusView {
            stage: match self.stage {
                ChangingStatusStage::Finding => ChangingStatusStageView::Finding,
                ChangingStatusStage::Writing(application) => ChangingStatusStageView::Writing(
                    application@,
                ),
                ChangingStatusStage::Resolving(application) => ChangingStatusStageView::Resolving(
                    application@,
                ),
                ChangingStatusStage::Committing(
                    application,
                    to,
                ) => ChangingStatusStageView::Committing(application@, opt_text(to)),
            },
            event: self.event@,
            participant_id: self.participant_id,
            status: self.status,
        }
    }
}

/// How a change of status begins: it is refused where the user is neither
/// organizer nor director, and else asks for the application.
pub open spec fn status_change_begins(
    user: Actor,
    event: Seq<char>,
    id: i32,
    status: ApplicationStatus,
) -> StepView<ChangingStatusView, ReplyView<ApplicationView>> {
    if !holds_at_least(user, UserRole::Organizer) {
        StepView::Finish(Err(FailureView::Forbidden), Seq::empty())
    } else {
        StepView::Ask(
            CommandView::FindApplication { event, participant_id: id },
            ChangingStatusView {
                stage: ChangingStatusStageView::Finding,
                event,
                participant_id: id,
                status,
            },
        )
    }
}

impl Protocol for ChangingStatus {
    type Output = Reply<Application>;

    type OutputView = ReplyView<ApplicationView>;

    open spec fn output_view(output: Reply<Application>) -> ReplyView<ApplicationView> {
        reply_view(output)
    }

    /// Where the application is there and the status may follow the one
    /// it has, the status is written, the participant's address looked up,
    /// and the change committed; then it finishes with the application as
    /// it is with the status, and an email named after the status to the
    /// address, if one is known. Where the application is not there, or the
    /// status may not follow, the organizer is told so. On any failure the
    /// change finishes at once. Nothing is sent, and nothing committed,
    /// unless all went well.
    open spec fn next(state: ChangingStatusView, answer: AnswerView) -> StepView<
        ChangingStatusView,
        ReplyView<ApplicationView>,
    > {
        match (state.stage, answer) {
            (ChangingStatusStageView::Finding, AnswerView::Application(found)) => match found {
                None => StepView::Finish(Ok(Err(not_found())), Seq::empty()),
                Some(application) => if !transition_allowed(application.status, state.status) {
                    StepView::Finish(Ok(Err(invalid_transition())), Seq::empty())
                } else {
                    StepView::Ask(
                        CommandView::UpdateApplication {
                            event: state.event,
                            participant_id: state.participant_id,
                            assignments: assignments_of(Some(state.status), None, None),
                        },
                        ChangingStatusView {
                            stage: ChangingStatusStageView::Writing(
                                ApplicationView { status: state.status, ..application },
                            ),
                            ..state
                        },
                    )
                },
            },
            (ChangingStatusStageView::Writing(application), AnswerView::Done) => StepView::Ask(
                CommandView::FindEmail { participant_id: state.participant_id },
                ChangingStatusView {
                    stage: ChangingStatusStageView::Resolving(application),
                    ..state
                },
            ),
            (ChangingStatusStageView::Resolving(application), AnswerView::Email(found)) => StepView::Ask(
                CommandView::Commit,
                ChangingStatusView {
                    stage: ChangingStatusStageView::Committing(
                        application,
                        match found {
                            Some(email) => Some(email.address),
                            None => None,
                        },
                    ),
                    ..state
                },
            ),
            (
                ChangingStatusStageView::Committing(application, to),
                AnswerView::Done,
            ) => StepView::Finish(
                Ok(Ok(application)),
                match to {
                    Some(address) => Seq::empty().push(mail(status_name(state.status), address)),
                    None => Seq::empty(),
                },
            ),
            _ => StepView::Finish(Err(failure_of(answer)), Seq::empty()),
        }
    }

    open spec fn rank(state: ChangingStatusView) -> nat {
        match state.stage {
            ChangingStatusStageView::Finding => 3,
            ChangingStatusStageView::Writing(_) => 2,
            ChangingStatusStageView::Resolving(_) => 1,
            ChangingStatusStageView::Committing(_, _) => 0,
        }
    }

    fn resume(self, answer: Answer) -> (step: Step<ChangingStatus, Reply<Application>>) {
        let ChangingStatus { stage, event, participant_id, status } = self;
        match (stage, answer) {
            (ChangingStatusStage::Finding, Answer::Application(found)) => match found {
                None => {
                    let user_error = UserError::new(&["id"], "application not found");
                    assert(user_error@.field =~= seq!["id"@]);
                    finish(Ok(Err(user_error)))
                },
                Some(application) => {
                    if !application.status.can_become(status) {
                        let user_error = UserError::new(
                            &["status"],
                            "invalid status transition for application",
                        );
                        assert(user_error@.field =~= seq!["status"@]);
                        finish(Ok(Err(user_error)))
                    } else {
                        let mut application = application;
                        application.status = status;
                        Step::Ask(
                            Command::UpdateApplication {
                                event: event.clone(),
                                participant_id,
                                assignments: assignments_for(Some(status), None, None),
                            },
                            ChangingStatus {
                                stage: ChangingStatusStage::Writing(application),
                                event,
                                participant_id,
                                status,
                            },
                        )
                    }
                },
            },
            (ChangingStatusStage::Writing(application), Answer::Done) => Step::Ask(
                Command::FindEmail { participant_id },
                ChangingStatus {
                    stage: ChangingStatusStage::Resolving(application),
                    event,
                    participant_id,
                    status,
                },
            ),
            (ChangingStatusStage::Resolving(application), Answer::Email(found)) => {
                let to = match found {
                    Some(email) => Some(email.address),
                    None => None,
                };
                Step::Ask(
                    Command::Commit,
                    ChangingStatus {
                        stage: ChangingStatusStage::Committing(application, to),
                        event,
                        participant_id,
                        status,
                    },
                )
            },
            (ChangingStatusStage::Committing(application, to), Answer::Done) => {
                let mut outbox = Outbox::new();
                if let Some(address) = to {
                    send_templated(&mut outbox, status.to_str(), address.as_str());
                }
                Step::Finish(Ok(Ok(application)), outbox.drain())
            },
            (_, answer) => finish(Err(answer.into_failure())),
        }
    }
}

impl ChangingStatus {
    /// Begins a change of status.
    pub fn begin(user: &Actor, scope: &Scope, input: ChangeApplicationStatusInput) -> (step: Step<
        ChangingStatus,
        Reply<Application>,
    >)
        ensures
            step_view::<ChangingStatus>(step) == status_change_begins(
                *user,
                scope.event@,
                input.id,
                input.status,
            ),
    {
        if has_at_least_role(user, UserRole::Organizer).is_err() {
            return finish(Err(Failure::Forbidden));
        }
        Step::Ask(
            Command::FindApplication { event: scope.event.clone(), participant_id: input.id },
            ChangingStatus {
                stage: ChangingStatusStage::Finding,
                event: scope.event.clone(),
                participant_id: input.id,
                status: input.status,
            },
        )
    }
}

/// A change of status that is run on the tables does what a change of
/// status is to do.
pub proof fn lemma_status_change_runs(
    db: DatabaseView,
    outbox: Seq<NotificationView>,
    user: Actor,
    event: Seq<char>,
    id: i32,
    status: ApplicationStatus,
)
    ensures
        ({
            let first = status_change_begins(user, event, id, status);
            let ending = conversation::<ChangingStatus>(
                first,
                db,
                db,
                patience_for::<ChangingStatus>(first),
            );
            let effect = status_change(db, outbox, user, event, id, status);
            &&& ending.db == effect.db
            &&& ending.output == effect.reply
            &&& outbox + ending.notifications == effect.outbox
        }),
{
    reveal_with_fuel(conversation, 5);
    let first = status_change_begins(user, event, id, status);
    let ending = conversation::<ChangingStatus>(
        first,
        db,
        db,
        patience_for::<ChangingStatus>(first),
    );
    let effect = status_change(db, outbox, user, event, id, status);
    if db.applications.contains_key((event, id)) {
        lemma_assignments_revise(db.applications[(event, id)], Some(status), None, None);
    }
    assert(outbox + ending.notifications =~= effect.outbox);
}

} // verus!
