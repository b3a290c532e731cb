//! Check-ins: marks that a participant has arrived at an event.

use crate::database::{Database, DatabaseView};
use crate::table::{Key, Record};
use crate::text::same_text;
use chrono::NaiveDateTime;
use vstd::prelude::*;

verus! {

/// An entry denoting a participant has been checked in
#[derive(Debug, PartialEq, Eq)]
pub struct CheckIn {
    /// The slug of the event
    pub event: String,
    /// The id of the participant
    pub participant_id: i32,
    /// When the participant checked in
    pub at: NaiveDateTime,
}

/// What a [`CheckIn`] holds, with the event's slug as its characters.
pub struct CheckInView {
    pub event: Seq<char>,
    pub participant_id: i32,
    pub at: NaiveDateTime,
}

impl View for CheckIn {
    type V = CheckInView;

    open spec fn view(&self) -> CheckInView {
        CheckInView { event: self.event@, participant_id: self.participant_id, at: self.at }
    }
}

impl Clone for CheckIn {
    fn clone(&self) -> (r: CheckIn)
        ensures
            r@ == self@,
    {
        CheckIn { event: self.event.clone(), participant_id: self.participant_id, at: self.at }
    }
}

impl Record for CheckIn {
    open spec fn key_of(v: CheckInView) -> Key {
        (v.event, v.participant_id)
    }

    fn has_key(&self, event: &str, participant_id: i32) -> (b: bool) {
        self.participant_id == participant_id && same_text(self.event.as_str(), event)
    }

    fn is_for(&self, event: &str) -> (b: bool) {
        same_text(self.event.as_str(), event)
    }

    fn same_key(&self, other: &CheckIn) -> (b: bool) {
        self.participant_id == other.participant_id && self.event == other.event
    }

    fn duplicate(&self) -> (r: CheckIn) {
        self.clone()
    }
}

impl CheckIn {
    /// Check if a participant checked in to an event
    pub fn is_stored(event: &str, participant_id: i32, db: &Database) -> (found: bool)
        ensures
            found == db@.check_ins.contains_key((event@, participant_id)),
    {
        db.check_ins.contains(event, participant_id)
    }

    /// Mark a participant as being checked in at the given time. A mark
    /// that was there before is overwritten.
    pub fn mark(event: &str, participant_id: i32, at: NaiveDateTime, db: &mut Database) -> (check_in:
        CheckIn)
        ensures
            check_in@ == (CheckInView { event: event@, participant_id, at }),
            final(db)@ == (DatabaseView {
                check_ins: old(db)@.check_ins.insert((event@, participant_id), check_in@),
                ..old(db)@
            }),
    {
        let check_in = CheckIn { event: event.to_owned(), participant_id, at };
        db.check_ins.put(check_in.clone());
        check_in
    }

    /// Delete a check in. Nothing happens where there is none.
    pub fn delete(event: &str, participant_id: i32, db: &mut Database)
        ensures
            final(db)@ == (DatabaseView {
                check_ins: old(db)@.check_ins.remove((event@, participant_id)),
                ..old(db)@
            }),
    {
        db.check_ins.remove(event, participant_id);
    }
}

} // verus!
