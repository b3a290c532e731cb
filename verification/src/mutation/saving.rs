//! A save of a draft as a conversation with the store.

use crate::context::{has_role, holds_role, Actor, Scope, UserRole};
use crate::database::{well_filed, DatabaseView};
use crate::draft_application::{blank, DraftApplication, DraftApplicationView};
use crate::errors::{Failure, FailureView};
use crate::mutation::draft_application::{
    patched, saving, SaveApplicationInput, SaveApplicationInputView,
};
use crate::mutation::{already_submitted, reply_view, Reply, ReplyView, UserError};
use crate::protocol::{
    conversation, failure_of, finish, patience_for, step_view, Answer, AnswerView, Command,
    CommandView, Ending, Protocol, Step, StepView,
};
use crate::webhooks::NotificationView;
use chrono::NaiveDateTime;
use vstd::prelude::*;

verus! {

/// Where a save stands.
#[derive(Debug)]
pub enum SavingStage {
    /// It has asked whether the application is submitted already
    Checking(SaveApplicationInput),
    /// It has asked for the draft
    Finding(SaveApplicationInput),
    /// It has asked to store the draft that it holds
    Storing(DraftApplication),
    /// It has asked to commit
    Committing(DraftApplication),
}

/// A save in progress.
#[derive(Debug)]
pub struct Saving {
    pub stage: SavingStage,
    /// The slug of the event
    pub event: String,
    /// The participant whose draft it is
    pub participant_id: i32,
    /// The time of a first save
    pub at: NaiveDateTime,
}

/// What a [`SavingStage`] holds, as a view.
pub enum SavingStageView {
    Checking(SaveApplicationInputView),
    Finding(SaveApplicationInputView),
    Storing(DraftApplicationView),
    Committing(DraftApplicationView),
}

/// What a [`Saving`] holds, as a view.
pub struct SavingView {
    pub stage: SavingStageView,
    pub event: Seq<char>,
    pub participant_id: i32,
    pub at: NaiveDateTime,
}

impl View for Saving {
    type V = SavingView;

    open spec fn view(&self) -> SavingView {
        SavingView {
            stage: match self.stage {
                SavingStage::Checking(input) => SavingStageView::Checking(input@),
                SavingStage::Finding(input) => SavingStageView::Finding(input@),
                SavingStage::Storing(draft) => SavingStageView::Storing(draft@),
                SavingStage::Committing(draft) => SavingStageView::Committing(draft@),
            },
            event: self.event@,
            participant_id: self.participant_id,
            at: self.at,
        }
    }
}

/// How a save begins: it is refused where the user is no participant, and
/// else asks whether the application is submitted already.
pub open spec fn saving_begins(
    user: Actor,
    event: Seq<char>,
    input: SaveApplicationInputView,
    at: NaiveDateTime,
) -> StepView<SavingView, ReplyView<DraftApplicationView>> {
    if !holds_role(user, UserRole::Participant) {
        StepView::Finish(Err(FailureView::Forbidden), Seq::empty())
    } else {
        StepView::Ask(
            CommandView::ApplicationStored { event, participant_id: user.id },
            SavingView {
                stage: SavingStageView::Checking(input),
                event,
                participant_id: user.id,
                at,
            },
        )
    }
}

impl Protocol for Saving {
    type Output = Reply<DraftApplication>;

    type OutputView = ReplyView<DraftApplicationView>;

    open spec fn output_view(output: Reply<DraftApplication>) -> ReplyView<DraftApplicationView> {
        reply_view(output)
    }

    /// Where the application is not submitted yet, the draft is looked up,
    /// the input applied to it, or to a blank one where none is there, and
    /// the result stored and committed; then the save finishes with the
    /// draft. Where the application is submitted, the participant is told
    /// so. On any failure the save finishes at once, without a commit.
    open spec fn next(state: SavingView, answer: AnswerView) -> StepView<
        SavingView,
        ReplyView<DraftApplicationView>,
    > {
        match (state.stage, answer) {
            (SavingStageView::Checking(input), AnswerView::Flag(stored)) => if stored {
                StepView::Finish(Ok(Err(already_submitted("saveApplication"@))), Seq::empty())
            } else {
                StepView::Ask(
                    CommandView::FindDraft {
                        event: state.event,
                        participant_id: state.participant_id,
                    },
                    SavingView { stage: SavingStageView::Finding(input), ..state },
                )
            },
            (SavingStageView::Finding(input), AnswerView::Draft(found)) => {
                let draft = patched(
                    match found {
                        Some(draft) => draft,
                        None => blank(state.event, state.participant_id, state.at),
                    },
                    input,
                );
                StepView::Ask(
                    CommandView::SaveDraft { draft },
                    SavingView { stage: SavingStageView::Storing(draft), ..state },
                )
            },
            (SavingStageView::Storing(draft), AnswerView::Done) => StepView::Ask(
                CommandView::Commit,
                SavingView { stage: SavingStageView::Committing(draft), ..state },
            ),
            (SavingStageView::Committing(draft), AnswerView::Done) => StepView::Finish(
                Ok(Ok(draft)),
                Seq::empty(),
            ),
            _ => StepView::Finish(Err(failure_of(answer)), Seq::empty()),
        }
    }

    open spec fn rank(state: SavingView) -> nat {
        match state.stage {
            SavingStageView::Checking(_) => 3,
            SavingStageView::Finding(_) => 2,
            SavingStageView::Storing(_) => 1,
            SavingStageView::Committing(_) => 0,
        }
    }

    fn resume(self, answer: Answer) -> (step: Step<Saving, Reply<DraftApplication>>) {
        let Saving { stage, event, participant_id, at } = self;
        match (stage, answer) {
            (SavingStage::Checking(input), Answer::Flag(stored)) => {
                if stored {
                    let user_error = UserError::new(
                        &["saveApplication"],
                        "application already submitted",
                    );
                    assert(user_error@.field =~= seq!["saveApplication"@]);
                    finish(Ok(Err(user_error)))
                } else {
                    Step::Ask(
                        Command::FindDraft { event: event.clone(), participant_id },
                        Saving { stage: SavingStage::Finding(input), event, participant_id, at },
                    )
                }
            },
            (SavingStage::Finding(input), Answer::Draft(found)) => {
                let mut draft = match found {
                    Some(draft) => draft,
                    None => DraftApplication::new_at(event.clone(), participant_id, at),
                };
                input.apply(&mut draft);
                Step::Ask(
                    Command::SaveDraft { draft: draft.clone() },
                    Saving { stage: SavingStage::Storing(draft), event, participant_id, at },
                )
            },
            (SavingStage::Storing(draft), Answer::Done) => Step::Ask(
                Command::Commit,
                Saving { stage: SavingStage::Committing(draft), event, participant_id, at },
            ),
            (SavingStage::Committing(draft), Answer::Done) => finish(Ok(Ok(draft))),
            (_, answer) => finish(Err(answer.into_failure())),
        }
    }
}

impl Saving {
    /// Begins a save.
    pub fn begin(user: &Actor, scope: &Scope, input: SaveApplicationInput, at: NaiveDateTime) -> (step:
        Step<Saving, Reply<DraftApplication>>)
        ensures
            step_view::<Saving>(step) == saving_begins(*user, scope.event@, input@, at),
    {
        if has_role(user, UserRole::Participant).is_err() {
            return finish(Err(Failure::Forbidden));
        }
        Step::Ask(
            Command::ApplicationStored { event: scope.event.clone(), participant_id: user.id },
            Saving {
                stage: SavingStage::Checking(input),
                event: scope.event.clone(),
                participant_id: user.id,
                at,
            },
        )
    }
}

/// A save that is run on tables in which every row is filed under its own
/// key does what a save is to do, and sends nothing.
pub proof fn lemma_saving_runs(
    db: DatabaseView,
    user: Actor,
    event: Seq<char>,
    input: SaveApplicationInputView,
    at: NaiveDateTime,
)
    requires
        well_filed(db),
    ensures
        ({
            let first = saving_begins(user, event, input, at);
            conversation::<Saving>(first, db, db, patience_for::<Saving>(first)) == (Ending {
                db: saving(db, user, event, input, at).0,
                output: saving(db, user, event, input, at).1,
                notifications: Seq::<NotificationView>::empty(),
            })
        }),
{
    reveal_with_fuel(conversation, 5);
}

} // verus!
