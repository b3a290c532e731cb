//! The store: one table for each kind of record.

use crate::application::{Application, ApplicationView};
use crate::check_in::{CheckIn, CheckInView};
use crate::draft_application::{DraftApplication, DraftApplicationView};
use crate::email::EmailBook;
use crate::table::{Key, Table};
use crate::text::{opt_text, same_text};
use vstd::prelude::*;

verus! {

/// The ways in which the store can fail
#[derive(Debug, PartialEq, Eq)]
pub enum Error {
    /// A statement that has to give a row gave none
    RowNotFound,
    /// The store turned a statement down, with the code it gave, and
    /// whether a unique or primary key constraint was violated
    Database { code: Option<String>, unique_violation: bool },
    /// Any other failure: the connection, the protocol, the pool
    Other,
}

/// What an [`Error`] holds, with the code as its characters.
pub enum ErrorView {
    RowNotFound,
    Database { code: Option<Seq<char>>, unique_violation: bool },
    Other,
}

impl View for Error {
    type V = ErrorView;

    open spec fn view(&self) -> ErrorView {
        match self {
            Error::RowNotFound => ErrorView::RowNotFound,
            Error::Database { code, unique_violation } => ErrorView::Database {
                code: opt_text(*code),
                unique_violation: *unique_violation,
            },
            Error::Other => ErrorView::Other,
        }
    }
}

/// The failure of a statement that leaves a required column empty.
pub open spec fn not_null_violation() -> ErrorView {
    ErrorView::Database { code: Some("23502"@), unique_violation: false }
}

/// The failure of a statement that files a second row under a key.
pub open spec fn unique_violation() -> ErrorView {
    ErrorView::Database { code: Some("23505"@), unique_violation: true }
}

impl Error {
    /// Returns whether the error is a violation of a unique or primary key
    /// constraint.
    pub fn is_unique_violation(&self) -> (b: bool)
        ensures
            b == (self@ matches ErrorView::Database { unique_violation: true, .. }),
    {
        match self {
            Error::Database { code: _, unique_violation } => *unique_violation,
            _ => false,
        }
    }

    /// Returns whether the store turned the statement down with the given
    /// code.
    pub fn has_code(&self, code: &str) -> (b: bool)
        ensures
            b == (self@ matches ErrorView::Database { code: Some(c), .. } && c == code@),
    {
        match self {
            Error::Database { code: Some(c), unique_violation: _ } => same_text(c.as_str(), code),
            _ => false,
        }
    }
}

/// All that is stored: drafts, applications and check-ins, each filed
/// under an event and a participant, and the email contacts, filed under a
/// participant.
pub struct Database {
    pub drafts: Table<DraftApplication>,
    pub applications: Table<Application>,
    pub check_ins: Table<CheckIn>,
    pub emails: EmailBook,
}

/// What a [`Database`] holds, as maps.
pub struct DatabaseView {
    pub drafts: Map<Key, DraftApplicationView>,
    pub applications: Map<Key, ApplicationView>,
    pub check_ins: Map<Key, CheckInView>,
    pub emails: Map<i32, Seq<char>>,
}

impl View for Database {
    type V = DatabaseView;

    open spec fn view(&self) -> DatabaseView {
        DatabaseView {
            drafts: self.drafts@,
            applications: self.applications@,
            check_ins: self.check_ins@,
            emails: self.emails@,
        }
    }
}

/// Whether every row is filed under the key that its own fields give.
pub open spec fn well_filed(db: DatabaseView) -> bool {
    &&& forall|key: Key| #[trigger]
        db.drafts.contains_key(key) ==> (db.drafts[key].event, db.drafts[key].participant_id) == key
    &&& forall|key: Key| #[trigger]
        db.applications.contains_key(key) ==> (
            db.applications[key].event,
            db.applications[key].participant_id,
        ) == key
    &&& forall|key: Key| #[trigger]
        db.check_ins.contains_key(key) ==> (
            db.check_ins[key].event,
            db.check_ins[key].participant_id,
        ) == key
}

impl Database {
    /// Every row of a store is filed under the key that its own fields
    /// give.
    pub proof fn lemma_well_filed(&self)
        ensures
            well_filed(self@),
    {
        self.drafts.lemma_filed_by_key();
        self.applications.lemma_filed_by_key();
        self.check_ins.lemma_filed_by_key();
    }

    /// A store that holds nothing.
    pub fn new() -> (db: Self)
        ensures
            db@ == (DatabaseView {
                drafts: Map::empty(),
                applications: Map::empty(),
                check_ins: Map::empty(),
                emails: Map::empty(),
            }),
    {
        Database {
            drafts: Table::new(),
            applications: Table::new(),
            check_ins: Table::new(),
            emails: EmailBook::new(),
        }
    }

    /// A copy of the store.
    pub fn duplicate(&self) -> (copy: Self)
        ensures
            copy@ == self@,
    {
        Database {
            drafts: self.drafts.duplicate(),
            applications: self.applications.duplicate(),
            check_ins: self.check_ins.duplicate(),
            emails: self.emails.duplicate(),
        }
    }
}

} // verus!
