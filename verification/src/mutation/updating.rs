//! An organizer's update as a conversation with the store.

use crate::application::{Application, ApplicationView};
use crate::context::{has_at_least_role, holds_at_least, Actor, Scope, UserRole};
use crate::database::DatabaseView;
use crate::errors::{Failure, FailureView};
use crate::mutation::application::{update, UpdateApplicationInput};
use crate::mutation::{not_found, reply_view, Reply, ReplyView, UserError};
use crate::protocol::{
    conversation, failure_of, finish, patience_for, step_view, Answer, AnswerView, Command,
    CommandView, Ending, Protocol, Step, StepView,
};
use crate::text::{copy_opt_text, opt_text};
use crate::updater::{assignments_for, assignments_of, lemma_assignments_revise, revised};
use crate::webhooks::NotificationView;
use vstd::prelude::*;

verus! {

/// Where an organizer's update stands.
#[derive(Debug, PartialEq, Eq)]
pub enum UpdatingStage {
    /// It has asked for the application
    Finding,
    /// It has asked to write the values; it holds the application with
    /// them
    Writing(Application),
    /// It has asked to commit
    Committing(Application),
}

/// An organizer's update in progress.
#[derive(Debug, PartialEq, Eq)]
pub struct Updating {
    pub stage: UpdatingStage,
    /// The slug of the event
    pub event: String,
    /// The participant whose application it is
    pub participant_id: i32,
    /// Whether to flag the application, if that is to change
    pub flagged: Option<bool>,
    /// The notes to give it, if any
    pub notes: Option<String>,
}

/// What an [`UpdatingStage`] holds, as a view.
pub enum UpdatingStageView {
    Finding,
    Writing(ApplicationView),
    Committing(ApplicationView),
}

/// What an [`Updating`] holds, as a view.
pub struct UpdatingView {
    pub stage: UpdatingStageView,
    pub event: Seq<char>,
    pub participant_id: i32,
    pub flagged: Option<bool>,
    pub notes: Option<Seq<char>>,
}

impl View for Updating {
    type V = UpdatingView;

    open spec fn view(&self) -> UpdatingView {
        UpdatingView {
            stage: match self.stage {
                UpdatingStage::Finding => UpdatingStageView::Finding,
                UpdatingStage::Writing(application) => UpdatingStageView::Writing(application@),
                UpdatingStage::Committing(application) => UpdatingStageView::Committing(
                    application@,
                ),
            },
            event: self.event@,
            participant_id: self.participant_id,
            flagged: self.flagged,
            notes: opt_text(self.notes),
        }
    }
}

/// How an organizer's update begins: it is refused where the user is
/// neither organizer nor director, and else asks for the application.
pub open spec fn update_begins(
    user: Actor,
    event: Seq<char>,
    id: i32,
    flagged: Option<bool>,
    notes: Option<Seq<char>>,
) -> StepView<UpdatingView, ReplyView<ApplicationView>> {
    if !holds_at_least(user, UserRole::Organizer) {
        StepView::Finish(Err(FailureView::Forbidden), Seq::empty())
    } else {
        StepView::Ask(
            CommandView::FindApplication { event, participant_id: id },
            UpdatingView {
                stage: UpdatingStageView::Finding,
                event,
                participant_id: id,
                flagged,
                notes,
            },
        )
    }
}

impl Protocol for Updating {
    type Output = Reply<Application>;

    type OutputView = ReplyView<ApplicationView>;

    open spec fn output_view(output: Reply<Application>) -> ReplyView<ApplicationView> {
        reply_view(output)
    }

    /// Where the application is there, the values supplied are written and
    /// committed; then the update finishes with the application as it is
    /// with them. Where it is not there, the organizer is told so. On any
    /// failure the update finishes at once, without a commit.
    open spec fn next(state: UpdatingView, answer: AnswerView) -> StepView<
        UpdatingView,
        ReplyView<ApplicationView>,
    > {
        match (state.stage, answer) {
            (UpdatingStageView::Finding, AnswerView::Application(found)) => match found {
                None => StepView::Finish(Ok(Err(not_found())), Seq::empty()),
                Some(application) => StepView::Ask(
                    CommandView::UpdateApplication {
                        event: state.event,
                        participant_id: state.participant_id,
                        assignments: assignments_of(None, state.flagged, state.notes),
                    },
                    UpdatingView {
                        stage: UpdatingStageView::Writing(
                            revised(application, None, state.flagged, state.notes),
                        ),
                        ..state
                    },
                ),
            },
            (UpdatingStageView::Writing(application), AnswerView::Done) => StepView::Ask(
                CommandView::Commit,
                UpdatingView { stage: UpdatingStageView::Committing(application), ..state },
            ),
            (UpdatingStageView::Committing(application), AnswerView::Done) => StepView::Finish(
                Ok(Ok(application)),
                Seq::empty(),
            ),
            _ => StepView::Finish(Err(failure_of(answer)), Seq::empty()),
        }
    }

    open spec fn rank(state: UpdatingView) -> nat {
        match state.stage {
            UpdatingStageView::Finding => 2,
            UpdatingStageView::Writing(_) => 1,
            UpdatingStageView::Committing(_) => 0,
        }
    }

    fn resume(self, answer: Answer) -> (step: Step<Updating, Reply<Application>>) {
        let Updating { stage, event, participant_id, flagged, notes } = self;
        match (stage, answer) {
            (UpdatingStage::Finding, Answer::Application(found)) => match found {
                None => {
                    let user_error = UserError::new(&["id"], "application not found");
                    assert(user_error@.field =~= seq!["id"@]);
                    finish(Ok(Err(user_error)))
                },
                Some(application) => {
                    let mut application = application;
                    let ghost before = application@;
                    let assignments = assignments_for(None, flagged, copy_opt_text(&notes));
                    application.assign_all(&assignments);
                    proof {
                        lemma_assignments_revise(before, None, flagged, opt_text(notes));
                    }
                    Step::Ask(
                        Command::UpdateApplication {
                            event: event.clone(),
                            participant_id,
                            assignments,
                        },
                        Updating {
                            stage: UpdatingStage::Writing(application),
                            event,
                            participant_id,
                            flagged,
                            notes,
                        },
                    )
                },
            },
            (UpdatingStage::Writing(application), Answer::Done) => Step::Ask(
                Command::Commit,
                Updating {
                    stage: UpdatingStage::Committing(application),
                    event,
                    participant_id,
                    flagged,
                    notes,
                },
            ),
            (UpdatingStage::Committing(application), Answer::Done) => finish(Ok(Ok(application))),
            (_, answer) => finish(Err(answer.into_failure())),
        }
    }
}

impl Updating {
    /// Begins an organizer's update.
    pub fn begin(user: &Actor, scope: &Scope, input: UpdateApplicationInput) -> (step: Step<
        Updating,
        Reply<Application>,
    >)
        ensures
            step_view::<Updating>(step) == update_begins(
                *user,
                scope.event@,
                input.id,
                input.flagged,
                opt_text(input.notes),
            ),
    {
        if has_at_least_role(user, UserRole::Organizer).is_err() {
            return finish(Err(Failure::Forbidden));
        }
        Step::Ask(
            Command::FindApplication { event: scope.event.clone(), participant_id: input.id },
            Updating {
                stage: UpdatingStage::Finding,
                event: scope.event.clone(),
                participant_id: input.id,
                flagged: input.flagged,
                notes: input.notes,
            },
        )
    }
}

/// An organizer's update that is run on the tables does what an update is
/// to do, and sends nothing.
pub proof fn lemma_update_runs(
    db: DatabaseView,
    user: Actor,
    event: Seq<char>,
    id: i32,
    flagged: Option<bool>,
    notes: Option<Seq<char>>,
)
    ensures
        ({
            let first = update_begins(user, event, id, flagged, notes);
            conversation::<Updating>(first, db, db, patience_for::<Updating>(first)) == (Ending {
                db: update(db, user, event, id, flagged, notes).0,
                output: update(db, user, event, id, flagged, notes).1,
                notifications: Seq::<NotificationView>::empty(),
            })
        }),
{
    reveal_with_fuel(conversation, 4);
    if db.applications.contains_key((event, id)) {
        lemma_assignments_revise(db.applications[(event, id)], None, flagged, notes);
    }
}

} // verus!
