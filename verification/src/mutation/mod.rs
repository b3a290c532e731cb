//! The requests that change what is stored.

pub mod application;
pub mod changing_status;
pub mod check_in;
pub mod checking_in;
pub mod draft_application;
pub mod saving;
pub mod submitting;
pub mod updating;

use crate::database::DatabaseView;
use crate::errors::{Failure, FailureView};
use crate::webhooks::NotificationView;
use vstd::prelude::*;

verus! {

/// Represents an error in the input of a mutation
#[derive(Debug, PartialEq, Eq)]
pub struct UserError {
    /// The path to the input field that caused the error
    field: &'static [&'static str],
    /// The error message
    message: String,
}

/// What a [`UserError`] holds, with each string as its characters.
pub struct UserErrorView {
    pub field: Seq<Seq<char>>,
    pub message: Seq<char>,
}

impl View for UserError {
    type V = UserErrorView;

    closed spec fn view(&self) -> UserErrorView {
        UserErrorView {
            field: self.field@.map_values(|name: &'static str| name@),
            message: self.message@,
        }
    }
}

impl UserError {
    /// Create a new user error
    pub fn new(field: &'static [&'static str], message: &str) -> (error: Self)
        ensures
            error@ == (UserErrorView {
                field: field@.map_values(|name: &'static str| name@),
                message: message@,
            }),
    {
        Self { field, message: message.to_owned() }
    }

    /// The path to the input field that caused the error
    pub fn field(&self) -> (field: &'static [&'static str])
        ensures
            field@.map_values(|name: &'static str| name@) == self@.field,
    {
        self.field
    }

    /// The error message
    pub fn message(&self) -> (message: &String)
        ensures
            message@ == self@.message,
    {
        &self.message
    }
}

/// A user error about one field.
pub open spec fn user_error(field: Seq<char>, message: Seq<char>) -> UserErrorView {
    UserErrorView { field: seq![field], message }
}

/// The application was submitted before; told of the request that came too
/// late.
pub open spec fn already_submitted(request: Seq<char>) -> UserErrorView {
    user_error(request, "application already submitted"@)
}

/// The draft leaves a required answer open.
pub open spec fn incomplete() -> UserErrorView {
    user_error("submitApplication"@, "application is incomplete"@)
}

/// There is no draft to submit.
pub open spec fn no_draft() -> UserErrorView {
    user_error("submitApplication"@, "could not find a draft application"@)
}

/// There is no application of that participant.
pub open spec fn not_found() -> UserErrorView {
    user_error("id"@, "application not found"@)
}

/// The status asked for may not follow the status that the application
/// has.
pub open spec fn invalid_transition() -> UserErrorView {
    user_error("status"@, "invalid status transition for application"@)
}

/// The participant has no accepted application.
pub open spec fn not_eligible() -> UserErrorView {
    user_error("id"@, "only participants with accepted applications can check in"@)
}

/// The answer to a mutation: what it made, or the user error that stopped
/// it, or the failure on which it was not carried out at all.
pub type Reply<T> = Result<Result<T, UserError>, Failure>;

/// A [`Reply`] with what it holds as a view.
pub type ReplyView<V> = Result<Result<V, UserErrorView>, FailureView>;

/// The view of a reply.
pub open spec fn reply_view<T: View>(reply: Reply<T>) -> ReplyView<T::V> {
    match reply {
        Ok(Ok(value)) => Ok(Ok(value@)),
        Ok(Err(error)) => Ok(Err(error@)),
        Err(failure) => Err(failure@),
    }
}

/// What a mutation leaves behind: the store, the notifications that wait to
/// be sent, and its answer.
pub struct Effect<V> {
    pub db: DatabaseView,
    pub outbox: Seq<NotificationView>,
    pub reply: ReplyView<V>,
}

/// The mutations.
#[derive(Default)]
pub struct Mutation;

} // verus!
