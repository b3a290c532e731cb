//! Saving a draft.

use crate::application::{Education, Gender, RaceEthnicity, Referrer};
use crate::context::{holds_role, Actor, Scope, UserRole};
use crate::database::{Database, DatabaseView};
use crate::draft_application::{blank, DraftApplication, DraftApplicationView};
use crate::errors::FailureView;
use crate::foreign::now;
use crate::mutation::saving::{lemma_saving_runs, Saving};
use crate::mutation::{already_submitted, reply_view, Mutation, Reply, ReplyView};
use crate::patch::{patch_text, Patch};
use crate::protocol::run;
use crate::webhooks::Outbox;
use chrono::{NaiveDate, NaiveDateTime};
use vstd::prelude::*;

verus! {

/// Input fields for saving an in-progress application. Each answer is
/// kept, cleared or replaced.
#[derive(Debug)]
pub struct SaveApplicationInput {
    /// The participant's gender
    pub gender: Patch<Gender>,
    /// The participant's race/ethnicity
    pub race_ethnicity: Patch<RaceEthnicity>,
    /// The participant's birthday
    pub date_of_birth: Patch<NaiveDate>,
    /// How the participant found the event
    pub referrer: Patch<Referrer>,
    /// The highest level of education the participant has achieved or is working on
    pub education: Patch<Education>,
    /// When the participant will graduate or graduated
    pub graduation_year: Patch<i32>,
    /// What the participant is studying
    pub major: Patch<String>,
    /// How many hackathons the participant has attended
    pub hackathons_attended: Patch<i32>,
    /// The public VCS URL (GitHub, GitLab, BitBucket, ...)
    pub vcs_url: Patch<String>,
    /// The URL of the participant's portfolio
    pub portfolio_url: Patch<String>,
    /// The URL of the participant's DevPost profile
    pub devpost_url: Patch<String>,
    /// The first line of the shipping address
    pub address_line1: Patch<String>,
    /// The second line of the shipping address
    pub address_line2: Patch<String>,
    /// The last line of the shipping address
    pub address_line3: Patch<String>,
    /// The city or town of the shipping address
    pub locality: Patch<String>,
    /// The state, province or region of the shipping address
    pub administrative_area: Patch<String>,
    /// The postal code of the shipping address
    pub postal_code: Patch<String>,
    /// The ISO code of the country of the shipping address
    pub country: Patch<String>,
    /// Whether the participant wishes to share information with sponsors
    pub share_information: Option<bool>,
}

/// What a [`SaveApplicationInput`] holds, with each string as its
/// characters.
pub struct SaveApplicationInputView {
    pub gender: Patch<Gender>,
    pub race_ethnicity: Patch<RaceEthnicity>,
    pub date_of_birth: Patch<NaiveDate>,
    pub referrer: Patch<Referrer>,
    pub education: Patch<Education>,
    pub graduation_year: Patch<i32>,
    pub major: Patch<Seq<char>>,
    pub hackathons_attended: Patch<i32>,
    pub vcs_url: Patch<Seq<char>>,
    pub portfolio_url: Patch<Seq<char>>,
    pub devpost_url: Patch<Seq<char>>,
    pub address_line1: Patch<Seq<char>>,
    pub address_line2: Patch<Seq<char>>,
    pub address_line3: Patch<Seq<char>>,
    pub locality: Patch<Seq<char>>,
    pub administrative_area: Patch<Seq<char>>,
    pub postal_code: Patch<Seq<char>>,
    pub country: Patch<Seq<char>>,
    pub share_information: Option<bool>,
}

impl View for SaveApplicationInput {
    type V = SaveApplicationInputView;

    open spec fn view(&self) -> SaveApplicationInputView {
        SaveApplicationInputView {
            gender: self.gender,
            race_ethnicity: self.race_ethnicity,
            date_of_birth: self.date_of_birth,
            referrer: self.referrer,
            education: self.education,
            graduation_year: self.graduation_year,
            major: patch_text(self.major),
            hackathons_attended: self.hackathons_attended,
            vcs_url: patch_text(self.vcs_url),
            portfolio_url: patch_text(self.portfolio_url),
            devpost_url: patch_text(self.devpost_url),
            address_line1: patch_text(self.address_line1),
            address_line2: patch_text(self.address_line2),
            address_line3: patch_text(self.address_line3),
            locality: patch_text(self.locality),
            administrative_area: patch_text(self.administrative_area),
            postal_code: patch_text(self.postal_code),
            country: patch_text(self.country),
            share_information: self.share_information,
        }
    }
}

/// A draft after a save: each answer kept, cleared or replaced as the input
/// says, and all else as it was.
pub open spec fn patched(draft: DraftApplicationView, input: SaveApplicationInputView) -> DraftApplicationView {
    DraftApplicationView {
        gender: input.gender.applied(draft.gender),
        race_ethnicity: input.race_ethnicity.applied(draft.race_ethnicity),
        date_of_birth: input.date_of_birth.applied(draft.date_of_birth),
        referrer: input.referrer.applied(draft.referrer),
        education: input.education.applied(draft.education),
        graduation_year: input.graduation_year.applied(draft.graduation_year),
        major: input.major.applied(draft.major),
        hackathons_attended: input.hackathons_attended.applied(draft.hackathons_attended),
        vcs_url: input.vcs_url.applied(draft.vcs_url),
        portfolio_url: input.portfolio_url.applied(draft.portfolio_url),
        devpost_url: input.devpost_url.applied(draft.devpost_url),
        address_line1: input.address_line1.applied(draft.address_line1),
        address_line2: input.address_line2.applied(draft.address_line2),
        address_line3: input.address_line3.applied(draft.address_line3),
        locality: input.locality.applied(draft.locality),
        administrative_area: input.administrative_area.applied(draft.administrative_area),
        postal_code: input.postal_code.applied(draft.postal_code),
        country: input.country.applied(draft.country),
        share_information: match input.share_information {
            Some(share_information) => share_information,
            None => draft.share_information,
        },
        ..draft
    }
}

/// What saving answers into the draft of a user for an event does, at the
/// given time.
///
/// Only a participant may save. Once the application is submitted, nothing
/// is written. Else the input is applied to the draft that is stored, or
/// to a blank one made at the given time where none is, and the result is
/// stored in its place.
pub open spec fn saving(
    db: DatabaseView,
    user: Actor,
    event: Seq<char>,
    input: SaveApplicationInputView,
    at: NaiveDateTime,
) -> (DatabaseView, ReplyView<DraftApplicationView>) {
    let key = (event, user.id);
    if !holds_role(user, UserRole::Participant) {
        (db, Err(FailureView::Forbidden))
    } else if db.applications.contains_key(key) {
        (db, Ok(Err(already_submitted("saveApplication"@))))
    } else {
        let before = if db.drafts.contains_key(key) {
            db.drafts[key]
        } else {
            blank(event, user.id, at)
        };
        let draft = patched(before, input);
        (DatabaseView { drafts: db.drafts.insert(key, draft), ..db }, Ok(Ok(draft)))
    }
}

impl SaveApplicationInput {
    /// The input that keeps every answer.
    pub fn new() -> (input: Self)
        ensures
            forall|draft: DraftApplicationView| #[trigger] patched(draft, input@) == draft,
    {
        SaveApplicationInput {
            gender: Patch::Keep,
            race_ethnicity: Patch::Keep,
            date_of_birth: Patch::Keep,
            referrer: Patch::Keep,
            education: Patch::Keep,
            graduation_year: Patch::Keep,
            major: Patch::Keep,
            hackathons_attended: Patch::Keep,
            vcs_url: Patch::Keep,
            portfolio_url: Patch::Keep,
            devpost_url: Patch::Keep,
            address_line1: Patch::Keep,
            address_line2: Patch::Keep,
            address_line3: Patch::Keep,
            locality: Patch::Keep,
            administrative_area: Patch::Keep,
            postal_code: Patch::Keep,
            country: Patch::Keep,
            share_information: None,
        }
    }

    /// Applies the input to a draft.
    pub fn apply(self, draft: &mut DraftApplication)
        ensures
            final(draft)@ == patched(old(draft)@, self@),
    {
        self.gender.apply(&mut draft.gender);
        self.race_ethnicity.apply(&mut draft.race_ethnicity);
        self.date_of_birth.apply(&mut draft.date_of_birth);
        self.referrer.apply(&mut draft.referrer);
        self.education.apply(&mut draft.education);
        self.graduation_year.apply(&mut draft.graduation_year);
        self.major.apply(&mut draft.major);
        self.hackathons_attended.apply(&mut draft.hackathons_attended);
        self.vcs_url.apply(&mut draft.vcs_url);
        self.portfolio_url.apply(&mut draft.portfolio_url);
        self.devpost_url.apply(&mut draft.devpost_url);
        self.address_line1.apply(&mut draft.address_line1);
        self.address_line2.apply(&mut draft.address_line2);
        self.address_line3.apply(&mut draft.address_line3);
        self.locality.apply(&mut draft.locality);
        self.administrative_area.apply(&mut draft.administrative_area);
        self.postal_code.apply(&mut draft.postal_code);
        self.country.apply(&mut draft.country);
        if let Some(share_information) = self.share_information {
            draft.share_information = share_information;
        }
    }
}

impl Mutation {
    /// Save updates to an in-progress application, as of now
    pub fn save_application(
        &self,
        user: &Actor,
        scope: &Scope,
        input: SaveApplicationInput,
        db: &mut Database,
    ) -> (reply: Reply<DraftApplication>)
        ensures
            exists|at: NaiveDateTime|
                (final(db)@, reply_view(reply)) == saving(
                    old(db)@,
                    *user,
                    scope.event@,
                    input@,
                    at,
                ),
    {
        let at = now();
        self.save_application_at(user, scope, input, at, db)
    }

    /// Save updates to an in-progress application, as of the given time
    pub fn save_application_at(
        &self,
        user: &Actor,
        scope: &Scope,
        input: SaveApplicationInput,
        at: NaiveDateTime,
        db: &mut Database,
    ) -> (reply: Reply<DraftApplication>)
        ensures
            (final(db)@, reply_view(reply)) == saving(old(db)@, *user, scope.event@, input@, at),
    {
        proof {
            db.lemma_well_filed();
            lemma_saving_runs(db@, *user, scope.event@, input@, at);
        }
        let mut outbox = Outbox::new();
        run::<Saving>(Saving::begin(user, scope, input, at), db, &mut outbox)
    }
}

} // verus!
