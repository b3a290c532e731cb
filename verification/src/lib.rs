//! The life of an application to an event: a participant fills in a draft
//! and submits it, organizers review it, and the accepted check in.

pub mod application;
pub mod check_in;
pub mod context;
pub mod database;
pub mod draft_application;
pub mod email;
pub mod errors;
pub mod foreign;
pub mod laws;
pub mod mutation;
pub mod names;
pub mod patch;
pub mod protocol;
pub mod query;
pub mod school;
pub mod stubs;
pub mod table;
pub mod text;
pub mod updater;
pub mod webhooks;

pub use application::{
    Address, Application, ApplicationStatus, Education, Gender, RaceEthnicity, Referrer,
};
pub use check_in::CheckIn;
pub use context::{Actor, Scope, UserRole};
pub use database::{Database, Error};
pub use draft_application::DraftApplication;
pub use email::Email;
pub use errors::{Failure, Forbidden};
pub use mutation::application::{ChangeApplicationStatusInput, UpdateApplicationInput};
pub use mutation::changing_status::{ChangingStatus, ChangingStatusStage};
pub use mutation::checking_in::CheckingIn;
pub use mutation::draft_application::SaveApplicationInput;
pub use mutation::saving::{Saving, SavingStage};
pub use mutation::submitting::{Submitting, SubmittingStage};
pub use mutation::updating::{Updating, UpdatingStage};
pub use mutation::{Mutation, Reply, UserError};
pub use patch::Patch;
pub use protocol::{run, Answer, Command, Protocol, Step};
pub use query::Query;
pub use school::School;
pub use stubs::{Event, Participant, User};
pub use updater::{ApplicationUpdater, Assignment};
pub use webhooks::{Mail, Notification, Outbox, Payload};
