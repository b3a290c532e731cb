use application_portal::{
    Actor, Application, Database, DraftApplication, Education, Failure, Gender, Mutation, Outbox,
    Patch, RaceEthnicity, Referrer, SaveApplicationInput, Scope, UserRole,
};
use chrono::{NaiveDate, NaiveDateTime};

fn time(second: u32) -> NaiveDateTime {
    NaiveDate::from_ymd_opt(2024, 5, 23).unwrap().and_hms_opt(2, 37, second).unwrap()
}

fn participant(id: i32) -> Actor {
    Actor { id, email: format!("part{id}@example.org"), role: Some(UserRole::Participant) }
}

fn scope(event: &str) -> Scope {
    Scope { event: String::from(event) }
}

fn draft_with_major(db: &mut Database, major: &str) -> DraftApplication {
    let mut input = SaveApplicationInput::new();
    input.major = Patch::Replace(String::from(major));
    input.gender = Patch::Replace(Gender::Female);
    Mutation.save_application_at(&participant(3), &scope("wh-2024"), input, time(0), db).unwrap().unwrap()
}

#[test]
fn new_draft_is_blank() {
    let draft = DraftApplication::new_at(String::from("wh-2024"), 3, time(5));
    assert_eq!(draft.event, "wh-2024");
    assert_eq!(draft.participant_id, 3);
    assert_eq!(draft.gender, None);
    assert_eq!(draft.race_ethnicity, None);
    assert_eq!(draft.date_of_birth, None);
    assert_eq!(draft.referrer, None);
    assert_eq!(draft.school_id, None);
    assert_eq!(draft.education, None);
    assert_eq!(draft.graduation_year, None);
    assert_eq!(draft.major, None);
    assert_eq!(draft.hackathons_attended, None);
    assert_eq!(draft.vcs_url, None);
    assert_eq!(draft.portfolio_url, None);
    assert_eq!(draft.devpost_url, None);
    assert_eq!(draft.address_line1, None);
    assert_eq!(draft.address_line2, None);
    assert_eq!(draft.address_line3, None);
    assert_eq!(draft.locality, None);
    assert_eq!(draft.administrative_area, None);
    assert_eq!(draft.postal_code, None);
    assert_eq!(draft.country, None);
    assert!(draft.share_information);
    assert_eq!(draft.created_at, time(5));
    assert_eq!(draft.updated_at, time(5));
}

#[test]
fn new_draft_reads_the_clock_once() {
    let draft = DraftApplication::new(String::from("wh-2024"), 3);
    assert_eq!(draft.created_at, draft.updated_at);
    assert_eq!(draft.major, None);
    assert!(draft.share_information);
    assert_eq!(draft.event().slug, "wh-2024");
    assert_eq!(draft.participant().user.id, 3);
    assert_eq!(draft.participant().event.slug, "wh-2024");
}

#[test]
fn patch_that_omits_major_keeps_it() {
    let mut db = Database::new();
    draft_with_major(&mut db, "CS");
    let mut input = SaveApplicationInput::new();
    input.graduation_year = Patch::Replace(2027);
    let draft = Mutation
        .save_application_at(&participant(3), &scope("wh-2024"), input, time(1), &mut db)
        .unwrap()
        .unwrap();
    assert_eq!(draft.major.as_deref(), Some("CS"));
    assert_eq!(draft.graduation_year, Some(2027));
    assert_eq!(draft.gender, Some(Gender::Female));
    assert_eq!(DraftApplication::find("wh-2024", 3, &db), Some(draft));
}

#[test]
fn patch_that_clears_major_empties_it() {
    let mut db = Database::new();
    draft_with_major(&mut db, "CS");
    let mut input = SaveApplicationInput::new();
    input.major = Patch::Clear;
    let draft = Mutation
        .save_application_at(&participant(3), &scope("wh-2024"), input, time(1), &mut db)
        .unwrap()
        .unwrap();
    assert_eq!(draft.major, None);
    assert_eq!(draft.gender, Some(Gender::Female));
    assert_eq!(DraftApplication::find("wh-2024", 3, &db).unwrap().major, None);
}

#[test]
fn patch_that_sets_major_overwrites_it() {
    let mut db = Database::new();
    draft_with_major(&mut db, "CS");
    let mut input = SaveApplicationInput::new();
    input.major = Patch::Replace(String::from("Math"));
    let draft = Mutation
        .save_application_at(&participant(3), &scope("wh-2024"), input, time(1), &mut db)
        .unwrap()
        .unwrap();
    assert_eq!(draft.major.as_deref(), Some("Math"));
    assert_eq!(DraftApplication::find("wh-2024", 3, &db).unwrap().major.as_deref(), Some("Math"));
}

#[test]
fn patch_applies_to_an_option() {
    let mut answer = Some(5);
    Patch::Keep.apply(&mut answer);
    assert_eq!(answer, Some(5));
    Patch::Replace(6).apply(&mut answer);
    assert_eq!(answer, Some(6));
    Patch::Clear.apply(&mut answer);
    assert_eq!(answer, None);
    Patch::Keep.apply(&mut answer);
    assert_eq!(answer, None);
    Patch::Replace(7).apply(&mut answer);
    assert_eq!(answer, Some(7));
}

#[test]
fn every_answer_can_be_patched() {
    let mut draft = DraftApplication::new_at(String::from("wh-2024"), 3, time(0));
    let mut input = SaveApplicationInput::new();
    input.gender = Patch::Replace(Gender::Male);
    input.race_ethnicity = Patch::Replace(RaceEthnicity::Korean);
    input.date_of_birth = Patch::Replace(NaiveDate::from_ymd_opt(2001, 2, 3).unwrap());
    input.referrer = Patch::Replace(Referrer::Peer);
    input.education = Patch::Replace(Education::Graduate);
    input.graduation_year = Patch::Replace(2025);
    input.major = Patch::Replace(String::from("a"));
    input.hackathons_attended = Patch::Replace(9);
    input.vcs_url = Patch::Replace(String::from("b"));
    input.portfolio_url = Patch::Replace(String::from("c"));
    input.devpost_url = Patch::Replace(String::from("d"));
    input.address_line1 = Patch::Replace(String::from("e"));
    input.address_line2 = Patch::Replace(String::from("f"));
    input.address_line3 = Patch::Replace(String::from("g"));
    input.locality = Patch::Replace(String::from("h"));
    input.administrative_area = Patch::Replace(String::from("i"));
    input.postal_code = Patch::Replace(String::from("j"));
    input.country = Patch::Replace(String::from("k"));
    input.share_information = Some(false);
    input.apply(&mut draft);
    assert_eq!(draft.gender, Some(Gender::Male));
    assert_eq!(draft.race_ethnicity, Some(RaceEthnicity::Korean));
    assert_eq!(draft.date_of_birth, NaiveDate::from_ymd_opt(2001, 2, 3));
    assert_eq!(draft.referrer, Some(Referrer::Peer));
    assert_eq!(draft.education, Some(Education::Graduate));
    assert_eq!(draft.graduation_year, Some(2025));
    assert_eq!(draft.major.as_deref(), Some("a"));
    assert_eq!(draft.hackathons_attended, Some(9));
    assert_eq!(draft.vcs_url.as_deref(), Some("b"));
    assert_eq!(draft.portfolio_url.as_deref(), Some("c"));
    assert_eq!(draft.devpost_url.as_deref(), Some("d"));
    assert_eq!(draft.address_line1.as_deref(), Some("e"));
    assert_eq!(draft.address_line2.as_deref(), Some("f"));
    assert_eq!(draft.address_line3.as_deref(), Some("g"));
    assert_eq!(draft.locality.as_deref(), Some("h"));
    assert_eq!(draft.administrative_area.as_deref(), Some("i"));
    assert_eq!(draft.postal_code.as_deref(), Some("j"));
    assert_eq!(draft.country.as_deref(), Some("k"));
    assert!(!draft.share_information);
    assert_eq!(draft.school_id, None);
    assert_eq!(draft.event, "wh-2024");
    assert_eq!(draft.participant_id, 3);
    assert_eq!(draft.created_at, time(0));
    assert_eq!(draft.updated_at, time(0));

    let unchanged = draft.clone();
    SaveApplicationInput::new().apply(&mut draft);
    assert_eq!(draft, unchanged);
}

#[test]
fn saving_keeps_the_time_of_the_first_save() {
    let mut db = Database::new();
    let first = draft_with_major(&mut db, "CS");
    assert_eq!(first.created_at, time(0));
    let again = Mutation
        .save_application_at(
            &participant(3),
            &scope("wh-2024"),
            SaveApplicationInput::new(),
            time(9),
            &mut db,
        )
        .unwrap()
        .unwrap();
    assert_eq!(again, first);
}

#[test]
fn saving_after_submission_is_turned_down() {
    let mut db = Database::new();
    let mut outbox = Outbox::new();
    let user = participant(3);
    let event = scope("wh-2024");
    let mut input = SaveApplicationInput::new();
    input.gender = Patch::Replace(Gender::Other);
    input.race_ethnicity = Patch::Replace(RaceEthnicity::White);
    input.date_of_birth = Patch::Replace(NaiveDate::from_ymd_opt(1999, 1, 1).unwrap());
    input.education = Patch::Replace(Education::Bootcamp);
    input.graduation_year = Patch::Replace(2020);
    input.hackathons_attended = Patch::Replace(0);
    input.address_line1 = Patch::Replace(String::from("1 Main St"));
    input.postal_code = Patch::Replace(String::from("00000"));
    input.country = Patch::Replace(String::from("US"));
    Mutation.save_application_at(&user, &event, input, time(0), &mut db).unwrap().unwrap();
    Mutation.submit_application_at(&user, &event, time(1), &mut db, &mut outbox).unwrap().unwrap();

    let mut late = SaveApplicationInput::new();
    late.major = Patch::Replace(String::from("Math"));
    let error =
        Mutation.save_application_at(&user, &event, late, time(2), &mut db).unwrap().unwrap_err();
    assert_eq!(error.message(), "application already submitted");
    assert_eq!(error.field(), &["saveApplication"]);
    assert!(DraftApplication::find("wh-2024", 3, &db).is_none());
    assert_eq!(Application::find("wh-2024", 3, &db).unwrap().major, None);
}

#[test]
fn only_participants_save_and_submit() {
    let mut db = Database::new();
    let mut outbox = Outbox::new();
    let event = scope("wh-2024");
    for role in [None, Some(UserRole::Organizer), Some(UserRole::Director)] {
        let user = Actor { id: 3, email: String::from("x@example.org"), role };
        assert_eq!(
            Mutation.save_application_at(&user, &event, SaveApplicationInput::new(), time(0), &mut db),
            Err(Failure::Forbidden)
        );
        assert_eq!(
            Mutation.submit_application_at(&user, &event, time(0), &mut db, &mut outbox),
            Err(Failure::Forbidden)
        );
    }
    assert!(!DraftApplication::is_stored("wh-2024", 3, &db));
    assert!(outbox.pending.is_empty());
}

#[test]
fn drafts_are_filed_by_event_and_participant() {
    let mut db = Database::new();
    let a = DraftApplication::new_at(String::from("wh-2024"), 3, time(0));
    let b = DraftApplication::new_at(String::from("wh-2025"), 3, time(1));
    let c = DraftApplication::new_at(String::from("wh-2024"), 4, time(2));
    a.save(&mut db);
    b.save(&mut db);
    c.save(&mut db);
    assert_eq!(DraftApplication::find("wh-2024", 3, &db), Some(a));
    assert_eq!(DraftApplication::find("wh-2025", 3, &db), Some(b.clone()));
    assert_eq!(DraftApplication::find("wh-2024", 4, &db), Some(c.clone()));
    assert_eq!(DraftApplication::find("wh-2025", 4, &db), None);
    assert_eq!(DraftApplication::find("wh-202", 3, &db), None);
    assert_eq!(DraftApplication::find("", 3, &db), None);

    let mut replaced = DraftApplication::new_at(String::from("wh-2024"), 3, time(3));
    replaced.major = Some(String::from("Physics"));
    replaced.save(&mut db);
    assert_eq!(DraftApplication::find("wh-2024", 3, &db), Some(replaced));
    assert_eq!(db.drafts.select("wh-2024").len(), 2);

    DraftApplication::delete("wh-2024", 3, &mut db);
    assert!(!DraftApplication::is_stored("wh-2024", 3, &db));
    DraftApplication::delete("wh-2024", 3, &mut db);
    assert!(!DraftApplication::is_stored("wh-2024", 3, &db));
    assert_eq!(DraftApplication::find("wh-2025", 3, &db), Some(b));
    assert_eq!(DraftApplication::find("wh-2024", 4, &db), Some(c));
}
