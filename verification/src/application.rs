//! Submitted applications and the table that holds them.

use crate::database::{not_null_violation, unique_violation, Database, DatabaseView, Error, ErrorView};
use crate::draft_application::{DraftApplication, DraftApplicationView};
use crate::stubs::{Event, Participant};
use crate::table::{Key, Record};
use crate::text::{borrow_opt_text, copy_opt_text, opt_str, opt_text, same_text};
use chrono::{NaiveDate, NaiveDateTime};
use uuid::Uuid;
use vstd::prelude::*;

verus! {

/// A person's gender
#[derive(Clone, Copy, Debug, PartialEq, Eq, Structural)]
pub enum Gender {
    Male,
    Female,
    NonBinary,
    Other,
}

/// A person's race/ethnicity
#[derive(Clone, Copy, Debug, PartialEq, Eq, Structural)]
pub enum RaceEthnicity {
    AsianIndian,
    Black,
    Chinese,
    Filipino,
    Guamanian,
    Hispanic,
    Japanese,
    Korean,
    MiddleEastern,
    NativeAmerican,
    NativeHawaiian,
    Samoan,
    Vietnamese,
    White,
    OtherAsian,
    OtherPacificIslander,
    Other,
}

/// A person's level of education
#[derive(Clone, Copy, Debug, PartialEq, Eq, Structural)]
pub enum Education {
    BelowSecondary,
    Secondary,
    UndergraduateTwoYear,
    UndergraduateThreeYearPlus,
    Graduate,
    Bootcamp,
    Vocational,
    Other,
    NonStudent,
}

/// Where a person found the event
#[derive(Clone, Copy, Debug, PartialEq, Eq, Structural)]
pub enum Referrer {
    Search,
    Peer,
    SocialMedia,
    Blog,
    Advertisement,
    StudentOrganization,
    School,
    Other,
}

/// The status of an application
#[derive(Clone, Copy, Debug, PartialEq, Eq, Structural)]
pub enum ApplicationStatus {
    Pending,
    Waitlisted,
    Rejected,
    Accepted,
}

/// An application to an event
#[derive(Debug, PartialEq, Eq)]
pub struct Application {
    /// The slug of the event the application is for
    pub event: String,
    /// The id of the participant that submitted the application
    pub participant_id: i32,
    /// The participant's gender
    pub gender: Gender,
    /// The participant's race/ethnicity
    pub race_ethnicity: RaceEthnicity,
    /// The participant's birthday
    pub date_of_birth: NaiveDate,
    /// How the participant found the event
    pub referrer: Option<Referrer>,
    /// The school the participant attends
    pub school_id: Option<Uuid>,
    /// The highest level of education the participant has achieved or is working on
    pub education: Education,
    /// When the participant will graduate or graduated
    pub graduation_year: i32,
    /// What the participant is studying
    pub major: Option<String>,
    /// How many hackathons the participant has attended
    pub hackathons_attended: i32,
    /// The public VCS URL (GitHub, GitLab, BitBucket, ...)
    pub vcs_url: Option<String>,
    /// The URL of the participant's portfolio
    pub portfolio_url: Option<String>,
    /// The URL of the participant's DevPost profile
    pub devpost_url: Option<String>,
    /// The first line of the shipping address
    pub address_line1: String,
    /// The second line of the shipping address
    pub address_line2: Option<String>,
    /// The last line of the shipping address
    pub address_line3: Option<String>,
    /// The city or town of the shipping address
    pub locality: Option<String>,
    /// The state, province or region of the shipping address
    pub administrative_area: Option<String>,
    /// The postal code of the shipping address
    pub postal_code: String,
    /// The ISO code of the country of the shipping address
    pub country: String,
    /// Whether the participant wishes to share information with sponsors
    pub share_information: bool,
    /// The application's acceptance status
    pub status: ApplicationStatus,
    /// Whether the application needs extra review
    pub flagged: bool,
    /// Additional organizer-only notes
    pub notes: String,
    /// When the application was submitted
    pub created_at: NaiveDateTime,
    /// When the application was last modified
    pub updated_at: NaiveDateTime,
}

/// What an [`Application`] holds, with each string as its characters.
pub struct ApplicationView {
    pub event: Seq<char>,
    pub participant_id: i32,
    pub gender: Gender,
    pub race_ethnicity: RaceEthnicity,
    pub date_of_birth: NaiveDate,
    pub referrer: Option<Referrer>,
    pub school_id: Option<Uuid>,
    pub education: Education,
    pub graduation_year: i32,
    pub major: Option<Seq<char>>,
    pub hackathons_attended: i32,
    pub vcs_url: Option<Seq<char>>,
    pub portfolio_url: Option<Seq<char>>,
    pub devpost_url: Option<Seq<char>>,
    pub address_line1: Seq<char>,
    pub address_line2: Option<Seq<char>>,
    pub address_line3: Option<Seq<char>>,
    pub locality: Option<Seq<char>>,
    pub administrative_area: Option<Seq<char>>,
    pub postal_code: Seq<char>,
    pub country: Seq<char>,
    pub share_information: bool,
    pub status: ApplicationStatus,
    pub flagged: bool,
    pub notes: Seq<char>,
    pub created_at: NaiveDateTime,
    pub updated_at: NaiveDateTime,
}

impl View for Application {
    type V = ApplicationView;

    open spec fn view(&self) -> ApplicationView {
        ApplicationView {
            event: self.event@,
            participant_id: self.participant_id,
            gender: self.gender,
            race_ethnicity: self.race_ethnicity,
            date_of_birth: self.date_of_birth,
            referrer: self.referrer,
            school_id: self.school_id,
            education: self.education,
            graduation_year: self.graduation_year,
            major: opt_text(self.major),
            hackathons_attended: self.hackathons_attended,
            vcs_url: opt_text(self.vcs_url),
            portfolio_url: opt_text(self.portfolio_url),
            devpost_url: opt_text(self.devpost_url),
            address_line1: self.address_line1@,
            address_line2: opt_text(self.address_line2),
            address_line3: opt_text(self.address_line3),
            locality: opt_text(self.locality),
            administrative_area: opt_text(self.administrative_area),
            postal_code: self.postal_code@,
            country: self.country@,
            share_information: self.share_information,
            status: self.status,
            flagged: self.flagged,
            notes: self.notes@,
            created_at: self.created_at,
            updated_at: self.updated_at,
        }
    }
}

impl Clone for Application {
    fn clone(&self) -> (r: Application)
        ensures
            r@ == self@,
    {
        Application {
            event: self.event.clone(),
            participant_id: self.participant_id,
            gender: self.gender,
            race_ethnicity: self.race_ethnicity,
            date_of_birth: self.date_of_birth,
            referrer: self.referrer,
            school_id: self.school_id,
            education: self.education,
            graduation_year: self.graduation_year,
            major: copy_opt_text(&self.major),
            hackathons_attended: self.hackathons_attended,
            vcs_url: copy_opt_text(&self.vcs_url),
            portfolio_url: copy_opt_text(&self.portfolio_url),
            devpost_url: copy_opt_text(&self.devpost_url),
            address_line1: self.address_line1.clone(),
            address_line2: copy_opt_text(&self.address_line2),
            address_line3: copy_opt_text(&self.address_line3),
            locality: copy_opt_text(&self.locality),
            administrative_area: copy_opt_text(&self.administrative_area),
            postal_code: self.postal_code.clone(),
            country: self.country.clone(),
            share_information: self.share_information,
            status: self.status,
            flagged: self.flagged,
            notes: self.notes.clone(),
            created_at: self.created_at,
            updated_at: self.updated_at,
        }
    }
}

impl Record for Application {
    open spec fn key_of(v: ApplicationView) -> Key {
        (v.event, v.participant_id)
    }

    fn has_key(&self, event: &str, participant_id: i32) -> (b: bool) {
        self.participant_id == participant_id && same_text(self.event.as_str(), event)
    }

    fn is_for(&self, event: &str) -> (b: bool) {
        same_text(self.event.as_str(), event)
    }

    fn same_key(&self, other: &Application) -> (b: bool) {
        self.participant_id == other.participant_id && self.event == other.event
    }

    fn duplicate(&self) -> (r: Application) {
        self.clone()
    }
}

/// Whether a status may follow another. An application that is pending may
/// be put on the waitlist, accepted or rejected; one on the waitlist may be
/// accepted or rejected; nothing follows an acceptance or a rejection.
pub open spec fn transition_allowed(current: ApplicationStatus, requested: ApplicationStatus) -> bool {
    match (current, requested) {
        (ApplicationStatus::Pending, ApplicationStatus::Waitlisted) => true,
        (ApplicationStatus::Pending, ApplicationStatus::Accepted) => true,
        (ApplicationStatus::Pending, ApplicationStatus::Rejected) => true,
        (ApplicationStatus::Waitlisted, ApplicationStatus::Accepted) => true,
        (ApplicationStatus::Waitlisted, ApplicationStatus::Rejected) => true,
        _ => false,
    }
}

/// The name of a status in lower case.
pub open spec fn status_name(status: ApplicationStatus) -> Seq<char> {
    match status {
        ApplicationStatus::Pending => "pending"@,
        ApplicationStatus::Waitlisted => "waitlisted"@,
        ApplicationStatus::Rejected => "rejected"@,
        ApplicationStatus::Accepted => "accepted"@,
    }
}

impl ApplicationStatus {
    /// Whether an application of this status may be given the requested
    /// one.
    pub fn can_become(self, requested: ApplicationStatus) -> (allowed: bool)
        ensures
            allowed == transition_allowed(self, requested),
    {
        match (self, requested) {
            (_, ApplicationStatus::Pending) => false,
            (ApplicationStatus::Waitlisted, ApplicationStatus::Waitlisted) => false,
            (ApplicationStatus::Accepted, _) => false,
            (ApplicationStatus::Rejected, _) => false,
            _ => true,
        }
    }

    /// The name of the status in lower case.
    pub fn to_str(self) -> (name: &'static str)
        ensures
            name@ == status_name(self),
    {
        match self {
            ApplicationStatus::Pending => "pending",
            ApplicationStatus::Waitlisted => "waitlisted",
            ApplicationStatus::Rejected => "rejected",
            ApplicationStatus::Accepted => "accepted",
        }
    }
}

/// Whether a draft answers everything that an application must hold.
pub open spec fn complete(draft: DraftApplicationView) -> bool {
    &&& draft.gender is Some
    &&& draft.race_ethnicity is Some
    &&& draft.date_of_birth is Some
    &&& draft.education is Some
    &&& draft.graduation_year is Some
    &&& draft.hackathons_attended is Some
    &&& draft.address_line1 is Some
    &&& draft.postal_code is Some
    &&& draft.country is Some
}

/// The application that a complete draft becomes when it is submitted at
/// the given time: every answer of the draft, pending, not flagged, without
/// notes.
pub open spec fn promoted(draft: DraftApplicationView, at: NaiveDateTime) -> ApplicationView {
    ApplicationView {
        event: draft.event,
        participant_id: draft.participant_id,
        gender: draft.gender->0,
        race_ethnicity: draft.race_ethnicity->0,
        date_of_birth: draft.date_of_birth->0,
        referrer: draft.referrer,
        school_id: draft.school_id,
        education: draft.education->0,
        graduation_year: draft.graduation_year->0,
        major: draft.major,
        hackathons_attended: draft.hackathons_attended->0,
        vcs_url: draft.vcs_url,
        portfolio_url: draft.portfolio_url,
        devpost_url: draft.devpost_url,
        address_line1: draft.address_line1->0,
        address_line2: draft.address_line2,
        address_line3: draft.address_line3,
        locality: draft.locality,
        administrative_area: draft.administrative_area,
        postal_code: draft.postal_code->0,
        country: draft.country->0,
        share_information: draft.share_information,
        status: ApplicationStatus::Pending,
        flagged: false,
        notes: Seq::empty(),
        created_at: at,
        updated_at: at,
    }
}

/// What creating an application from the draft under a key does to the
/// store, and what it gives back.
pub open spec fn creation(db: DatabaseView, key: Key, at: NaiveDateTime) -> (DatabaseView, Result<
    ApplicationView,
    ErrorView,
>) {
    if !db.drafts.contains_key(key) {
        (db, Err(ErrorView::RowNotFound))
    } else if !complete(db.drafts[key]) {
        (db, Err(not_null_violation()))
    } else if db.applications.contains_key(key) {
        (db, Err(unique_violation()))
    } else {
        let application = promoted(db.drafts[key], at);
        (
            DatabaseView { applications: db.applications.insert(key, application), ..db },
            Ok(application),
        )
    }
}

fn promote(draft: &DraftApplication, at: NaiveDateTime) -> (r: Option<Application>)
    ensures
        r is Some <==> complete(draft@),
        r matches Some(application) ==> application@ == promoted(draft@, at),
{
    match (
        &draft.gender,
        &draft.race_ethnicity,
        &draft.date_of_birth,
        &draft.education,
        &draft.graduation_year,
        &draft.hackathons_attended,
        &draft.address_line1,
        &draft.postal_code,
        &draft.country,
    ) {
        (
            Some(gender),
            Some(race_ethnicity),
            Some(date_of_birth),
            Some(education),
            Some(graduation_year),
            Some(hackathons_attended),
            Some(address_line1),
            Some(postal_code),
            Some(country),
        ) => Some(
            Application {
                event: draft.event.clone(),
                participant_id: draft.participant_id,
                gender: *gender,
                race_ethnicity: *race_ethnicity,
                date_of_birth: *date_of_birth,
                referrer: draft.referrer,
                school_id: draft.school_id,
                education: *education,
                graduation_year: *graduation_year,
                major: copy_opt_text(&draft.major),
                hackathons_attended: *hackathons_attended,
                vcs_url: copy_opt_text(&draft.vcs_url),
                portfolio_url: copy_opt_text(&draft.portfolio_url),
                devpost_url: copy_opt_text(&draft.devpost_url),
                address_line1: address_line1.clone(),
                address_line2: copy_opt_text(&draft.address_line2),
                address_line3: copy_opt_text(&draft.address_line3),
                locality: copy_opt_text(&draft.locality),
                administrative_area: copy_opt_text(&draft.administrative_area),
                postal_code: postal_code.clone(),
                country: country.clone(),
                share_information: draft.share_information,
                status: ApplicationStatus::Pending,
                flagged: false,
                notes: String::new(),
                created_at: at,
                updated_at: at,
            },
        ),
        _ => None,
    }
}

/// A person's shipping address
#[derive(Debug, PartialEq, Eq)]
pub struct Address<'a> {
    pub line1: &'a str,
    pub line2: Option<&'a str>,
    pub line3: Option<&'a str>,
    pub locality: Option<&'a str>,
    pub administrative_area: Option<&'a str>,
    pub postal_code: &'a str,
    pub country: &'a str,
}

impl Application {
    /// The event the application is for
    pub fn event(&self) -> (event: Event<'_>)
        ensures
            event.slug@ == self@.event,
    {
        Event { slug: self.event.as_str() }
    }

    /// The participant who submitted the application
    pub fn participant(&self) -> (participant: Participant<'_>)
        ensures
            participant.event.slug@ == self@.event,
            participant.user.id == self@.participant_id,
    {
        Participant::new(self.participant_id, self.event.as_str())
    }

    /// The applicant's shipping address. The locality stands for the
    /// administrative area too.
    pub fn address(&self) -> (address: Address<'_>)
        ensures
            address.line1@ == self@.address_line1,
            opt_str(address.line2) == self@.address_line2,
            opt_str(address.line3) == self@.address_line3,
            opt_str(address.locality) == self@.locality,
            opt_str(address.administrative_area) == self@.locality,
            address.postal_code@ == self@.postal_code,
            address.country@ == self@.country,
    {
        Address {
            line1: self.address_line1.as_str(),
            line2: borrow_opt_text(&self.address_line2),
            line3: borrow_opt_text(&self.address_line3),
            locality: borrow_opt_text(&self.locality),
            administrative_area: borrow_opt_text(&self.locality),
            postal_code: self.postal_code.as_str(),
            country: self.country.as_str(),
        }
    }

    /// Check if an application has been submitted
    pub fn is_stored(event: &str, participant_id: i32, db: &Database) -> (found: bool)
        ensures
            found == db@.applications.contains_key((event@, participant_id)),
    {
        db.applications.contains(event, participant_id)
    }

    /// Check if an accepted application exists
    pub fn accepted_exists(event: &str, participant_id: i32, db: &Database) -> (found: bool)
        ensures
            found == (db@.applications.contains_key((event@, participant_id))
                && db@.applications[(event@, participant_id)].status
                == ApplicationStatus::Accepted),
    {
        match db.applications.get(event, participant_id) {
            Some(application) => match application.status {
                ApplicationStatus::Accepted => true,
                _ => false,
            },
            None => false,
        }
    }

    /// Get all the submitted applications for an event, each once
    pub fn all(event: &str, db: &Database) -> (found: Vec<Application>)
        ensures
            forall|i: int, j: int|
                0 <= i < j < found.len() ==> (#[trigger] found[i]).participant_id != (
                #[trigger] found[j]).participant_id,
            forall|i: int|
                0 <= i < found.len() ==> {
                    let key = (event@, (#[trigger] found[i]).participant_id);
                    db@.applications.contains_key(key) && db@.applications[key] == found[i]@
                },
            forall|id: i32| #[trigger]
                db@.applications.contains_key((event@, id)) ==> exists|i: int|
                    0 <= i < found.len() && (#[trigger] found[i]).participant_id == id,
    {
        let found = db.applications.select(event);
        proof {
            assert forall|i: int| 0 <= i < found.len() implies {
                let key = (event@, (#[trigger] found[i]).participant_id);
                db@.applications.contains_key(key) && db@.applications[key] == found[i]@
            } by {
                assert(Application::key_of(found[i]@).0 == event@);
            }
            assert forall|i: int, j: int| 0 <= i < j < found.len() implies (
            #[trigger] found[i]).participant_id != (#[trigger] found[j]).participant_id by {
                assert(Application::key_of(found[i]@) != Application::key_of(found[j]@));
            }
            assert forall|id: i32| #[trigger]
                db@.applications.contains_key((event@, id)) implies exists|i: int|
                0 <= i < found.len() && (#[trigger] found[i]).participant_id == id by {
                let key = (event@, id);
                assert(db@.applications.contains_key(key) && key.0 == event@);
                let i = choose|i: int|
                    0 <= i < found.len() && Application::key_of(#[trigger] found[i]@) == key;
                assert(found[i].participant_id == id);
            }
        }
        found
    }

    /// Get an application by its event and participant id
    pub fn find(event: &str, participant_id: i32, db: &Database) -> (found: Option<Application>)
        ensures
            found is Some <==> db@.applications.contains_key((event@, participant_id)),
            found matches Some(application) ==> application@ == db@.applications[(
                event@,
                participant_id,
            )] && application@.event == event@ && application@.participant_id == participant_id,
    {
        match db.applications.get(event, participant_id) {
            Some(application) => Some(application.clone()),
            None => None,
        }
    }

    /// Create a new application from a draft, submitted at the given time.
    ///
    /// Fails, and leaves the store as it was, where there is no draft
    /// (`RowNotFound`), where the draft leaves a required answer open (code
    /// 23502), and where an application is there already (code 23505, a
    /// unique violation). The draft itself stays.
    pub fn from_draft(event: &str, participant_id: i32, at: NaiveDateTime, db: &mut Database) -> (r:
        Result<Application, Error>)
        ensures
            final(db)@ == creation(old(db)@, (event@, participant_id), at).0,
            match r {
                Ok(application) => Ok::<ApplicationView, ErrorView>(application@),
                Err(error) => Err(error@),
            } == creation(old(db)@, (event@, participant_id), at).1,
    {
        let application = match db.drafts.get(event, participant_id) {
            None => {
                return Err(Error::RowNotFound);
            },
            Some(draft) => match promote(draft, at) {
                None => {
                    return Err(
                        Error::Database { code: Some("23502".to_owned()), unique_violation: false },
                    );
                },
                Some(application) => application,
            },
        };
        if db.applications.contains(event, participant_id) {
            return Err(Error::Database { code: Some("23505".to_owned()), unique_violation: true });
        }
        db.applications.put(application.clone());
        Ok(application)
    }

    /// Delete an application. Nothing happens where there is none.
    pub fn delete(event: &str, participant_id: i32, db: &mut Database)
        ensures
            final(db)@ == (DatabaseView {
                applications: old(db)@.applications.remove((event@, participant_id)),
                ..old(db)@
            }),
    {
        db.applications.remove(event, participant_id);
    }
}

} // verus!
