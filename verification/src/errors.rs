//! The failures that are no answer to a request.

use crate::database::{Error, ErrorView};
use vstd::prelude::*;

verus! {

/// An error raised when the user has invalid permissions
#[derive(Debug, PartialEq, Eq)]
pub struct Forbidden;

impl Forbidden {
    /// What the caller is told.
    pub fn message(&self) -> (text: &'static str)
        ensures
            text@ == "forbidden"@,
    {
        "forbidden"
    }

    /// The code by which a client tells this failure from others.
    pub fn code(&self) -> (text: &'static str)
        ensures
            text@ == "FORBIDDEN"@,
    {
        "FORBIDDEN"
    }
}

/// Why a request was not carried out at all.
#[derive(Debug, PartialEq, Eq)]
pub enum Failure {
    /// The user may not make this request
    Forbidden,
    /// The store failed in a way that the request does not provide for
    Storage(Error),
}

/// What a [`Failure`] holds, as a view.
pub enum FailureView {
    Forbidden,
    Storage(ErrorView),
}

impl View for Failure {
    type V = FailureView;

    open spec fn view(&self) -> FailureView {
        match self {
            Failure::Forbidden => FailureView::Forbidden,
            Failure::Storage(error) => FailureView::Storage(error@),
        }
    }
}

/// What the caller is told of a failure. Of a failure of the store they
/// are told nothing but that there was one.
pub open spec fn failure_message(failure: FailureView) -> Seq<char> {
    match failure {
        FailureView::Forbidden => "forbidden"@,
        FailureView::Storage(_) => "internal server error"@,
    }
}

impl Failure {
    /// What the caller is told.
    pub fn message(&self) -> (text: &'static str)
        ensures
            text@ == failure_message(self@),
    {
        match self {
            Failure::Forbidden => Forbidden.message(),
            Failure::Storage(_) => "internal server error",
        }
    }
}

} // verus!
