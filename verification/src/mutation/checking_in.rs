//! A check-in as a conversation with the store.

use crate::context::{Actor, Scope};
use crate::database::DatabaseView;
use crate::errors::{Failure, FailureView};
use crate::mutation::check_in::{
    check_in_reply_view, check_in_target, checking_in, resolve_check_in_target,
};
use crate::mutation::{not_eligible, Reply, ReplyView, UserError};
use crate::protocol::{
    conversation, failure_of, finish, patience_for, step_view, Answer, AnswerView, Command,
    CommandView, Ending, Protocol, Step, StepView,
};
use crate::webhooks::NotificationView;
use chrono::NaiveDateTime;
use vstd::prelude::*;

verus! {

/// A check-in in progress.
#[derive(Debug, PartialEq, Eq)]
pub enum CheckingIn {
    /// It has asked whether the participant is accepted
    Eligibility { event: String, participant_id: i32, at: NaiveDateTime },
    /// It has asked to mark the participant
    Marking,
    /// It has asked to commit
    Committing { at: NaiveDateTime },
}

/// What a [`CheckingIn`] holds, as a view.
pub enum CheckingInView {
    Eligibility { event: Seq<char>, participant_id: i32, at: NaiveDateTime },
    Marking,
    Committing { at: NaiveDateTime },
}

impl View for CheckingIn {
    type V = CheckingInView;

    open spec fn view(&self) -> CheckingInView {
        match self {
            CheckingIn::Eligibility { event, participant_id, at } => CheckingInView::Eligibility {
                event: event@,
                participant_id: *participant_id,
                at: *at,
            },
            CheckingIn::Marking => CheckingInView::Marking,
            CheckingIn::Committing { at } => CheckingInView::Committing { at: *at },
        }
    }
}

/// How a check-in begins: it is refused where the user may not check the
/// participant in, and else asks whether the participant is accepted.
pub open spec fn check_in_begins(user: Actor, event: Seq<char>, id: Option<i32>, at: NaiveDateTime) -> StepView<
    CheckingInView,
    ReplyView<NaiveDateTime>,
> {
    match check_in_target(user, id) {
        None => StepView::Finish(Err(FailureView::Forbidden), Seq::empty()),
        Some(participant_id) => StepView::Ask(
            CommandView::ApplicationAccepted { event, participant_id },
            CheckingInView::Eligibility { event, participant_id, at },
        ),
    }
}

impl Protocol for CheckingIn {
    type Output = Reply<NaiveDateTime>;

    type OutputView = ReplyView<NaiveDateTime>;

    open spec fn output_view(output: Reply<NaiveDateTime>) -> ReplyView<NaiveDateTime> {
        check_in_reply_view(output)
    }

    /// An accepted participant is marked, and the mark committed; then the
    /// check-in finishes with the time of the mark. One who is not accepted
    /// is told so. On any failure the check-in finishes at once, without
    /// a commit.
    open spec fn next(state: CheckingInView, answer: AnswerView) -> StepView<
        CheckingInView,
        ReplyView<NaiveDateTime>,
    > {
        match (state, answer) {
            (
                CheckingInView::Eligibility { event, participant_id, at },
                AnswerView::Flag(accepted),
            ) => if accepted {
                StepView::Ask(
                    CommandView::MarkCheckIn { event, participant_id, at },
                    CheckingInView::Marking,
                )
            } else {
                StepView::Finish(Ok(Err(not_eligible())), Seq::empty())
            },
            (CheckingInView::Marking, AnswerView::CheckedIn(check_in)) => StepView::Ask(
                CommandView::Commit,
                CheckingInView::Committing { at: check_in.at },
            ),
            (CheckingInView::Committing { at }, AnswerView::Done) => StepView::Finish(
                Ok(Ok(at)),
                Seq::empty(),
            ),
            _ => StepView::Finish(Err(failure_of(answer)), Seq::empty()),
        }
    }

    open spec fn rank(state: CheckingInView) -> nat {
        match state {
            CheckingInView::Eligibility { .. } => 2,
            CheckingInView::Marking => 1,
            CheckingInView::Committing { .. } => 0,
        }
    }

    fn resume(self, answer: Answer) -> (step: Step<CheckingIn, Reply<NaiveDateTime>>) {
        match (self, answer) {
            (CheckingIn::Eligibility { event, participant_id, at }, Answer::Flag(accepted)) => {
                if accepted {
                    Step::Ask(
                        Command::MarkCheckIn { event, participant_id, at },
                        CheckingIn::Marking,
                    )
                } else {
                    let user_error = UserError::new(
                        &["id"],
                        "only participants with accepted applications can check in",
                    );
                    assert(user_error@.field =~= seq!["id"@]);
                    finish(Ok(Err(user_error)))
                }
            },
            (CheckingIn::Marking, Answer::CheckedIn(check_in)) => Step::Ask(
                Command::Commit,
                CheckingIn::Committing { at: check_in.at },
            ),
            (CheckingIn::Committing { at }, Answer::Done) => finish(Ok(Ok(at))),
            (_, answer) => finish(Err(answer.into_failure())),
        }
    }
}

impl CheckingIn {
    /// Begins a check-in.
    pub fn begin(user: &Actor, scope: &Scope, id: Option<i32>, at: NaiveDateTime) -> (step: Step<
        CheckingIn,
        Reply<NaiveDateTime>,
    >)
        ensures
            step_view::<CheckingIn>(step) == check_in_begins(*user, scope.event@, id, at),
    {
        match resolve_check_in_target(user, id) {
            None => finish(Err(Failure::Forbidden)),
            Some(participant_id) => Step::Ask(
                Command::ApplicationAccepted { event: scope.event.clone(), participant_id },
                CheckingIn::Eligibility { event: scope.event.clone(), participant_id, at },
            ),
        }
    }
}

/// A check-in that is run on the tables does what a check-in is to do, and
/// sends nothing.
pub proof fn lemma_check_in_runs(
    db: DatabaseView,
    user: Actor,
    event: Seq<char>,
    id: Option<i32>,
    at: NaiveDateTime,
)
    ensures
        ({
            let first = check_in_begins(user, event, id, at);
            conversation::<CheckingIn>(first, db, db, patience_for::<CheckingIn>(first)) == (Ending {
                db: checking_in(db, user, event, id, at).0,
                output: checking_in(db, user, event, id, at).1,
                notifications: Seq::<NotificationView>::empty(),
            })
        }),
{
    reveal_with_fuel(conversation, 4);
}

} // verus!
