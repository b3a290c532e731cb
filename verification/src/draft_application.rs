//! Drafts: applications that are still being filled in.

use crate::application::{Education, Gender, RaceEthnicity, Referrer};
use crate::database::{Database, DatabaseView};
use crate::foreign::now;
use crate::stubs::{Event, Participant};
use crate::table::{Key, Record};
use crate::text::{copy_opt_text, opt_text, same_text};
use chrono::{NaiveDate, NaiveDateTime};
use uuid::Uuid;
use vstd::prelude::*;

verus! {

/// An in-progress application from a participant
#[derive(Debug, PartialEq, Eq)]
pub struct DraftApplication {
    /// The slug of the event the application is for
    pub event: String,
    /// The id of the participant that is filling in the application
    pub participant_id: i32,
    /// The participant's gender
    pub gender: Option<Gender>,
    /// The participant's race/ethnicity
    pub race_ethnicity: Option<RaceEthnicity>,
    /// The participant's birthday
    pub date_of_birth: Option<NaiveDate>,
    /// How the participant found the event
    pub referrer: Option<Referrer>,
    /// The school the participant attends
    pub school_id: Option<Uuid>,
    /// The highest level of education the participant has achieved or is working on
    pub education: Option<Education>,
    /// When the participant will graduate or graduated
    pub graduation_year: Option<i32>,
    /// What the participant is studying
    pub major: Option<String>,
    /// How many hackathons the participant has attended
    pub hackathons_attended: Option<i32>,
    /// The public VCS URL (GitHub, GitLab, BitBucket, ...)
    pub vcs_url: Option<String>,
    /// The URL of the participant's portfolio
    pub portfolio_url: Option<String>,
    /// The URL of the participant's DevPost profile
    pub devpost_url: Option<String>,
    /// The first line of the shipping address
    pub address_line1: Option<String>,
    /// The second line of the shipping address
    pub address_line2: Option<String>,
    /// The last line of the shipping address
    pub address_line3: Option<String>,
    /// The city or town of the shipping address
    pub locality: Option<String>,
    /// The state, province or region of the shipping address
    pub administrative_area: Option<String>,
    /// The postal code of the shipping address
    pub postal_code: Option<String>,
    /// The ISO code of the country of the shipping address
    pub country: Option<String>,
    /// Whether the participant wishes to share information with sponsors
    pub share_information: bool,
    /// When the draft was first saved
    pub created_at: NaiveDateTime,
    /// When the draft was last modified
    pub updated_at: NaiveDateTime,
}

/// What a [`DraftApplication`] holds, with each string as its characters.
pub struct DraftApplicationView {
    pub event: Seq<char>,
    pub participant_id: i32,
    pub gender: Option<Gender>,
    pub race_ethnicity: Option<RaceEthnicity>,
    pub date_of_birth: Option<NaiveDate>,
    pub referrer: Option<Referrer>,
    pub school_id: Option<Uuid>,
    pub education: Option<Education>,
    pub graduation_year: Option<i32>,
    pub major: Option<Seq<char>>,
    pub hackathons_attended: Option<i32>,
    pub vcs_url: Option<Seq<char>>,
    pub portfolio_url: Option<Seq<char>>,
    pub devpost_url: Option<Seq<char>>,
    pub address_line1: Option<Seq<char>>,
    pub address_line2: Option<Seq<char>>,
    pub address_line3: Option<Seq<char>>,
    pub locality: Option<Seq<char>>,
    pub administrative_area: Option<Seq<char>>,
    pub postal_code: Option<Seq<char>>,
    pub country: Option<Seq<char>>,
    pub share_information: bool,
    pub created_at: NaiveDateTime,
    pub updated_at: NaiveDateTime,
}

impl View for DraftApplication {
    type V = DraftApplicationView;

    open spec fn view(&self) -> DraftApplicationView {
        DraftApplicationView {
            event: self.event@,
            participant_id: self.participant_id,
            gender: self.gender,
            race_ethnicity: self.race_ethnicity,
            date_of_birth: self.date_of_birth,
            referrer: self.referrer,
            school_id: self.school_id,
            education: self.education,
            graduation_year: self.graduation_year,
            major: opt_text(self.major),
            hackathons_attended: self.hackathons_attended,
            vcs_url: opt_text(self.vcs_url),
            portfolio_url: opt_text(self.portfolio_url),
            devpost_url: opt_text(self.devpost_url),
            address_line1: opt_text(self.address_line1),
            address_line2: opt_text(self.address_line2),
            address_line3: opt_text(self.address_line3),
            locality: opt_text(self.locality),
            administrative_area: opt_text(self.administrative_area),
            postal_code: opt_text(self.postal_code),
            country: opt_text(self.country),
            share_information: self.share_information,
            created_at: self.created_at,
            updated_at: self.updated_at,
        }
    }
}

impl Clone for DraftApplication {
    fn clone(&self) -> (r: DraftApplication)
        ensures
            r@ == self@,
    {
        DraftApplication {
            event: self.event.clone(),
            participant_id: self.participant_id,
            gender: self.gender,
            race_ethnicity: self.race_ethnicity,
            date_of_birth: self.date_of_birth,
            referrer: self.referrer,
            school_id: self.school_id,
            education: self.education,
            graduation_year: self.graduation_year,
            major: copy_opt_text(&self.major),
            hackathons_attended: self.hackathons_attended,
            vcs_url: copy_opt_text(&self.vcs_url),
            portfolio_url: copy_opt_text(&self.portfolio_url),
            devpost_url: copy_opt_text(&self.devpost_url),
            address_line1: copy_opt_text(&self.address_line1),
            address_line2: copy_opt_text(&self.address_line2),
            address_line3: copy_opt_text(&self.address_line3),
            locality: copy_opt_text(&self.locality),
            administrative_area: copy_opt_text(&self.administrative_area),
            postal_code: copy_opt_text(&self.postal_code),
            country: copy_opt_text(&self.country),
            share_information: self.share_information,
            created_at: self.created_at,
            updated_at: self.updated_at,
        }
    }
}

impl Record for DraftApplication {
    open spec fn key_of(v: DraftApplicationView) -> Key {
        (v.event, v.participant_id)
    }

    fn has_key(&self, event: &str, participant_id: i32) -> (b: bool) {
        self.participant_id == participant_id && same_text(self.event.as_str(), event)
    }

    fn is_for(&self, event: &str) -> (b: bool) {
        same_text(self.event.as_str(), event)
    }

    fn same_key(&self, other: &DraftApplication) -> (b: bool) {
        self.participant_id == other.participant_id && self.event == other.event
    }

    fn duplicate(&self) -> (r: DraftApplication) {
        self.clone()
    }
}

/// The draft that nothing has been filled into yet: every answer is open,
/// and information is shared with sponsors unless the participant says
/// otherwise.
pub open spec fn blank(event: Seq<char>, participant_id: i32, at: NaiveDateTime) -> DraftApplicationView {
    DraftApplicationView {
        event: event,
        participant_id: participant_id,
        gender: None,
        race_ethnicity: None,
        date_of_birth: None,
        referrer: None,
        school_id: None,
        education: None,
        graduation_year: None,
        major: None,
        hackathons_attended: None,
        vcs_url: None,
        portfolio_url: None,
        devpost_url: None,
        address_line1: None,
        address_line2: None,
        address_line3: None,
        locality: None,
        administrative_area: None,
        postal_code: None,
        country: None,
        share_information: true,
        created_at: at,
        updated_at: at,
    }
}

impl DraftApplication {
    /// The event the application is for
    pub fn event(&self) -> (event: Event<'_>)
        ensures
            event.slug@ == self@.event,
    {
        Event { slug: self.event.as_str() }
    }

    /// The participant who is filling in the application
    pub fn participant(&self) -> (participant: Participant<'_>)
        ensures
            participant.event.slug@ == self@.event,
            participant.user.id == self@.participant_id,
    {
        Participant::new(self.participant_id, self.event.as_str())
    }

    /// Create a new draft application, first saved and last modified now.
    pub fn new(event: String, participant_id: i32) -> (draft: Self)
        ensures
            exists|at: NaiveDateTime| draft@ == blank(event@, participant_id, at),
    {
        let at = now();
        Self::new_at(event, participant_id, at)
    }

    /// Create a new draft application, first saved and last modified at
    /// the given time.
    pub fn new_at(event: String, participant_id: i32, at: NaiveDateTime) -> (draft: Self)
        ensures
            draft@ == blank(event@, participant_id, at),
    {
        Self {
            event,
            participant_id,
            gender: None,
            race_ethnicity: None,
            date_of_birth: None,
            referrer: None,
            school_id: None,
            education: None,
            graduation_year: None,
            major: None,
            hackathons_attended: None,
            vcs_url: None,
            portfolio_url: None,
            devpost_url: None,
            address_line1: None,
            address_line2: None,
            address_line3: None,
            locality: None,
            administrative_area: None,
            postal_code: None,
            country: None,
            share_information: true,
            created_at: at,
            updated_at: at,
        }
    }

    /// Save the draft application: the whole row, in place of the draft
    /// that was there for the same event and participant.
    pub fn save(&self, db: &mut Database)
        ensures
            final(db)@ == (DatabaseView {
                drafts: old(db)@.drafts.insert((self@.event, self@.participant_id), self@),
                ..old(db)@
            }),
    {
        db.drafts.put(self.clone());
    }

    /// Check if a draft application exists
    pub fn is_stored(event: &str, participant_id: i32, db: &Database) -> (found: bool)
        ensures
            found == db@.drafts.contains_key((event@, participant_id)),
    {
        db.drafts.contains(event, participant_id)
    }

    /// Get a draft application by the event and participant id
    pub fn find(event: &str, participant_id: i32, db: &Database) -> (found: Option<
        DraftApplication,
    >)
        ensures
            found is Some <==> db@.drafts.contains_key((event@, participant_id)),
            found matches Some(draft) ==> draft@ == db@.drafts[(event@, participant_id)]
                && draft@.event == event@ && draft@.participant_id == participant_id,
    {
        match db.drafts.get(event, participant_id) {
            Some(draft) => Some(draft.clone()),
            None => None,
        }
    }

    /// Delete a draft application. Nothing happens where there is none.
    pub fn delete(event: &str, participant_id: i32, db: &mut Database)
        ensures
            final(db)@ == (DatabaseView {
                drafts: old(db)@.drafts.remove((event@, participant_id)),
                ..old(db)@
            }),
    {
        db.drafts.remove(event, participant_id);
    }
}

} // verus!
