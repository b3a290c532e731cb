use application_portal::database::Error;
use application_portal::mutation::application::submission_error;
use application_portal::ApplicationStatus::{Accepted, Pending, Rejected, Waitlisted};
use application_portal::{
    Actor, Application, ApplicationStatus, Assignment, ChangeApplicationStatusInput, Database,
    DraftApplication, Education, Failure, Gender, Mutation, Outbox, Patch, RaceEthnicity,
    Referrer, SaveApplicationInput, Scope, UpdateApplicationInput, UserRole,
};
use chrono::{NaiveDate, NaiveDateTime};

fn time(second: u32) -> NaiveDateTime {
    NaiveDate::from_ymd_opt(2024, 5, 23).unwrap().and_hms_opt(2, 37, second).unwrap()
}

fn organizer() -> Actor {
    Actor { id: 100, email: String::from("org@example.org"), role: Some(UserRole::Organizer) }
}

fn scope(event: &str) -> Scope {
    Scope { event: String::from(event) }
}

fn complete_draft(event: &str, id: i32) -> DraftApplication {
    let mut draft = DraftApplication::new_at(String::from(event), id, time(0));
    draft.gender = Some(Gender::Male);
    draft.race_ethnicity = Some(RaceEthnicity::Black);
    draft.date_of_birth = NaiveDate::from_ymd_opt(2002, 3, 4);
    draft.education = Some(Education::Secondary);
    draft.graduation_year = Some(2024);
    draft.hackathons_attended = Some(1);
    draft.address_line1 = Some(String::from("1 Main St"));
    draft.postal_code = Some(String::from("12345"));
    draft.country = Some(String::from("US"));
    draft
}

fn submitted(db: &mut Database, event: &str, id: i32) -> Application {
    complete_draft(event, id).save(db);
    Application::from_draft(event, id, time(1), db).unwrap()
}

fn with_status(db: &mut Database, id: i32, status: ApplicationStatus) -> Application {
    let mut application = submitted(db, "wh-2024", id);
    application.update().status(status).save(db);
    application
}

const ALL: [ApplicationStatus; 4] = [
    ApplicationStatus::Pending,
    ApplicationStatus::Waitlisted,
    ApplicationStatus::Rejected,
    ApplicationStatus::Accepted,
];

#[test]
fn transition_table() {
    let allowed = [
        (Pending, Waitlisted),
        (Pending, Accepted),
        (Pending, Rejected),
        (Waitlisted, Accepted),
        (Waitlisted, Rejected),
    ];
    for current in ALL {
        for requested in ALL {
            assert_eq!(
                current.can_become(requested),
                allowed.contains(&(current, requested)),
                "{current:?} -> {requested:?}"
            );
        }
    }
}

#[test]
fn terminal_statuses_allow_nothing() {
    for requested in ALL {
        assert!(!ApplicationStatus::Accepted.can_become(requested));
        assert!(!ApplicationStatus::Rejected.can_become(requested));
    }
}

#[test]
fn no_status_leads_to_pending_or_to_itself() {
    for current in ALL {
        assert!(!current.can_become(ApplicationStatus::Pending));
        assert!(!current.can_become(current));
    }
}

#[test]
fn status_names() {
    assert_eq!(ApplicationStatus::Pending.to_str(), "pending");
    assert_eq!(ApplicationStatus::Waitlisted.to_str(), "waitlisted");
    assert_eq!(ApplicationStatus::Rejected.to_str(), "rejected");
    assert_eq!(ApplicationStatus::Accepted.to_str(), "accepted");
}

#[test]
fn status_changes_follow_the_table() {
    let mut id = 0;
    for current in ALL {
        for requested in ALL {
            id += 1;
            let mut db = Database::new();
            let mut outbox = Outbox::new();
            let before = with_status(&mut db, id, current);
            assert_eq!(before.status, current);
            let reply = Mutation
                .change_application_status(
                    &organizer(),
                    &scope("wh-2024"),
                    ChangeApplicationStatusInput { id, status: requested },
                    &mut db,
                    &mut outbox,
                )
                .unwrap();
            let stored = Application::find("wh-2024", id, &db).unwrap();
            if current.can_become(requested) {
                let after = reply.unwrap();
                assert_eq!(after.status, requested);
                assert_eq!(stored, after);
                let mut expected = before;
                expected.status = requested;
                assert_eq!(after, expected);
            } else {
                let error = reply.unwrap_err();
                assert_eq!(error.message(), "invalid status transition for application");
                assert_eq!(error.field(), &["status"]);
                assert_eq!(stored, before);
            }
        }
    }
}

#[test]
fn status_change_of_a_missing_application_is_not_found() {
    let mut db = Database::new();
    let mut outbox = Outbox::new();
    submitted(&mut db, "wh-2024", 3);
    for (event, id) in [("wh-2024", 4), ("wh-2025", 3)] {
        let error = Mutation
            .change_application_status(
                &organizer(),
                &scope(event),
                ChangeApplicationStatusInput { id, status: ApplicationStatus::Accepted },
                &mut db,
                &mut outbox,
            )
            .unwrap()
            .unwrap_err();
        assert_eq!(error.message(), "application not found");
        assert_eq!(error.field(), &["id"]);
    }
    assert_eq!(Application::find("wh-2024", 3, &db).unwrap().status, ApplicationStatus::Pending);
}

#[test]
fn participants_may_not_review() {
    let mut db = Database::new();
    let mut outbox = Outbox::new();
    let before = submitted(&mut db, "wh-2024", 3);
    for role in [None, Some(UserRole::Participant)] {
        let user = Actor { id: 3, email: String::from("x@example.org"), role };
        assert_eq!(
            Mutation.change_application_status(
                &user,
                &scope("wh-2024"),
                ChangeApplicationStatusInput { id: 3, status: ApplicationStatus::Accepted },
                &mut db,
                &mut outbox,
            ),
            Err(Failure::Forbidden)
        );
        assert_eq!(
            Mutation.update_application(
                &user,
                &scope("wh-2024"),
                UpdateApplicationInput { id: 3, flagged: Some(true), notes: None },
                &mut db,
            ),
            Err(Failure::Forbidden)
        );
    }
    assert_eq!(Application::find("wh-2024", 3, &db), Some(before));
}

#[test]
fn directors_may_review() {
    let mut db = Database::new();
    let mut outbox = Outbox::new();
    submitted(&mut db, "wh-2024", 3);
    let director =
        Actor { id: 1, email: String::from("d@example.org"), role: Some(UserRole::Director) };
    let after = Mutation
        .change_application_status(
            &director,
            &scope("wh-2024"),
            ChangeApplicationStatusInput { id: 3, status: ApplicationStatus::Rejected },
            &mut db,
            &mut outbox,
        )
        .unwrap()
        .unwrap();
    assert_eq!(after.status, ApplicationStatus::Rejected);
}

#[test]
fn update_writes_only_what_is_supplied() {
    let mut db = Database::new();
    let before = submitted(&mut db, "wh-2024", 3);

    let flagged = Mutation
        .update_application(
            &organizer(),
            &scope("wh-2024"),
            UpdateApplicationInput { id: 3, flagged: Some(true), notes: None },
            &mut db,
        )
        .unwrap()
        .unwrap();
    let mut expected = before.clone();
    expected.flagged = true;
    assert_eq!(flagged, expected);
    assert_eq!(Application::find("wh-2024", 3, &db), Some(expected.clone()));

    let noted = Mutation
        .update_application(
            &organizer(),
            &scope("wh-2024"),
            UpdateApplicationInput { id: 3, flagged: None, notes: Some(String::from("late")) },
            &mut db,
        )
        .unwrap()
        .unwrap();
    expected.notes = String::from("late");
    assert_eq!(noted, expected);
    assert_eq!(Application::find("wh-2024", 3, &db), Some(expected.clone()));

    let same = Mutation
        .update_application(
            &organizer(),
            &scope("wh-2024"),
            UpdateApplicationInput { id: 3, flagged: None, notes: None },
            &mut db,
        )
        .unwrap()
        .unwrap();
    assert_eq!(same, expected);
    assert_eq!(Application::find("wh-2024", 3, &db), Some(expected));
}

#[test]
fn update_of_a_missing_application_is_not_found() {
    let mut db = Database::new();
    let error = Mutation
        .update_application(
            &organizer(),
            &scope("wh-2024"),
            UpdateApplicationInput { id: 3, flagged: Some(true), notes: None },
            &mut db,
        )
        .unwrap()
        .unwrap_err();
    assert_eq!(error.message(), "application not found");
    assert_eq!(error.field(), &["id"]);
}

#[test]
fn updater_lists_the_supplied_columns_in_order() {
    let mut db = Database::new();
    let mut application = submitted(&mut db, "wh-2024", 3);

    assert_eq!(application.update().assignments(), vec![]);
    assert_eq!(
        application
            .update()
            .notes(String::from("n"))
            .status(ApplicationStatus::Waitlisted)
            .flagged(true)
            .assignments(),
        vec![
            Assignment::Status(ApplicationStatus::Waitlisted),
            Assignment::Flagged(true),
            Assignment::Notes(String::from("n")),
        ]
    );
    assert_eq!(
        application.update().flagged(false).assignments(),
        vec![Assignment::Flagged(false)]
    );
    assert_eq!(
        application
            .update()
            .status(ApplicationStatus::Accepted)
            .override_status(None)
            .override_notes(Some(String::from("x")))
            .override_flagged(None)
            .assignments(),
        vec![Assignment::Notes(String::from("x"))]
    );
    assert_eq!(Assignment::Status(ApplicationStatus::Pending).column(), "status");
    assert_eq!(Assignment::Flagged(true).column(), "flagged");
    assert_eq!(Assignment::Notes(String::new()).column(), "notes");
}

#[test]
fn updater_without_values_writes_nothing() {
    let mut db = Database::new();
    let mut application = submitted(&mut db, "wh-2024", 3);
    let before = application.clone();
    application.update().save(&mut db);
    assert_eq!(application, before);
    assert_eq!(Application::find("wh-2024", 3, &db), Some(before));
}

#[test]
fn updater_writes_to_the_store_and_to_the_application_at_hand() {
    let mut db = Database::new();
    let mut application = submitted(&mut db, "wh-2024", 3);
    let other = submitted(&mut db, "wh-2024", 4);
    let before = application.clone();
    application
        .update()
        .status(ApplicationStatus::Accepted)
        .flagged(true)
        .notes(String::from("strong"))
        .save(&mut db);
    assert_eq!(application.status, ApplicationStatus::Accepted);
    assert!(application.flagged);
    assert_eq!(application.notes, "strong");
    let mut expected = before;
    expected.status = ApplicationStatus::Accepted;
    expected.flagged = true;
    expected.notes = String::from("strong");
    assert_eq!(application, expected);
    assert_eq!(Application::find("wh-2024", 3, &db), Some(expected));
    assert_eq!(Application::find("wh-2024", 4, &db), Some(other));
    assert!(Application::accepted_exists("wh-2024", 3, &db));
    assert!(!Application::accepted_exists("wh-2024", 4, &db));
}

#[test]
fn updater_changes_only_the_application_at_hand_where_none_is_stored() {
    let mut db = Database::new();
    let mut application = submitted(&mut db, "wh-2024", 3);
    Application::delete("wh-2024", 3, &mut db);
    application.update().flagged(true).save(&mut db);
    assert!(application.flagged);
    assert!(!Application::is_stored("wh-2024", 3, &db));
}

#[test]
fn assign_writes_one_column() {
    let mut db = Database::new();
    let mut application = submitted(&mut db, "wh-2024", 3);
    let before = application.clone();
    application.assign(&Assignment::Notes(String::from("n")));
    assert_eq!(application.notes, "n");
    application.assign(&Assignment::Flagged(true));
    assert!(application.flagged);
    application.assign(&Assignment::Status(ApplicationStatus::Rejected));
    assert_eq!(application.status, ApplicationStatus::Rejected);
    application.assign(&Assignment::Notes(String::new()));
    application.assign(&Assignment::Flagged(false));
    application.assign(&Assignment::Status(ApplicationStatus::Pending));
    assert_eq!(application, before);
}

#[test]
fn creation_from_a_draft() {
    let mut db = Database::new();
    assert_eq!(Application::from_draft("wh-2024", 3, time(1), &mut db), Err(Error::RowNotFound));

    let mut draft = complete_draft("wh-2024", 3);
    draft.country = None;
    draft.save(&mut db);
    let error = Application::from_draft("wh-2024", 3, time(1), &mut db).unwrap_err();
    assert_eq!(
        error,
        Error::Database { code: Some(String::from("23502")), unique_violation: false }
    );
    assert!(error.has_code("23502"));
    assert!(!error.has_code("23505"));
    assert!(!error.is_unique_violation());
    assert!(!Application::is_stored("wh-2024", 3, &db));

    let draft = complete_draft("wh-2024", 3);
    draft.save(&mut db);
    let application = Application::from_draft("wh-2024", 3, time(2), &mut db).unwrap();
    assert_eq!(application.status, ApplicationStatus::Pending);
    assert_eq!(application.created_at, time(2));
    assert_eq!(application.updated_at, time(2));
    assert_eq!(application.country, "US");
    assert_eq!(application.date_of_birth, NaiveDate::from_ymd_opt(2002, 3, 4).unwrap());
    assert_eq!(Application::find("wh-2024", 3, &db), Some(application.clone()));
    assert!(DraftApplication::is_stored("wh-2024", 3, &db));

    let error = Application::from_draft("wh-2024", 3, time(3), &mut db).unwrap_err();
    assert_eq!(
        error,
        Error::Database { code: Some(String::from("23505")), unique_violation: true }
    );
    assert!(error.is_unique_violation());
    assert_eq!(Application::find("wh-2024", 3, &db), Some(application));
}

#[test]
fn store_failures_as_user_errors() {
    let incomplete = submission_error(&Error::Database {
        code: Some(String::from("23502")),
        unique_violation: false,
    })
    .unwrap();
    assert_eq!(incomplete.message(), "application is incomplete");
    let missing = submission_error(&Error::RowNotFound).unwrap();
    assert_eq!(missing.message(), "could not find a draft application");
    let twice = submission_error(&Error::Database {
        code: Some(String::from("23505")),
        unique_violation: true,
    })
    .unwrap();
    assert_eq!(twice.message(), "application already submitted");
    assert_eq!(twice.field(), &["submitApplication"]);
    assert_eq!(submission_error(&Error::Other), None);
    assert_eq!(
        submission_error(&Error::Database { code: None, unique_violation: false }),
        None
    );
    assert_eq!(
        submission_error(&Error::Database {
            code: Some(String::from("23503")),
            unique_violation: false
        }),
        None
    );
    assert!(!Error::RowNotFound.is_unique_violation());
    assert!(!Error::Other.has_code("23502"));
}

#[test]
fn applications_of_an_event() {
    let mut db = Database::new();
    assert!(Application::all("wh-2024", &db).is_empty());
    let a = submitted(&mut db, "wh-2024", 3);
    let b = submitted(&mut db, "wh-2025", 3);
    let c = submitted(&mut db, "wh-2024", 5);
    let mut found = Application::all("wh-2024", &db);
    found.sort_by_key(|application| application.participant_id);
    assert_eq!(found, vec![a, c.clone()]);
    assert_eq!(Application::all("wh-2025", &db), vec![b]);
    assert!(Application::all("wh-2026", &db).is_empty());

    Application::delete("wh-2024", 3, &mut db);
    assert_eq!(Application::all("wh-2024", &db), vec![c]);
    Application::delete("wh-2024", 3, &mut db);
    assert_eq!(Application::all("wh-2024", &db).len(), 1);
    assert!(Application::is_stored("wh-2025", 3, &db));
}

#[test]
fn a_keeping_input_changes_nothing() {
    let mut draft = complete_draft("wh-2024", 3);
    let before = draft.clone();
    SaveApplicationInput::new().apply(&mut draft);
    assert_eq!(draft, before);
    let mut input = SaveApplicationInput::new();
    input.country = Patch::Clear;
    input.apply(&mut draft);
    assert_eq!(draft.country, None);
    assert_eq!(draft.postal_code, before.postal_code);
}

#[test]
fn stored_names() {
    let genders = [
        (Gender::Male, "male"),
        (Gender::Female, "female"),
        (Gender::NonBinary, "non-binary"),
        (Gender::Other, "other"),
    ];
    for (value, name) in genders {
        assert_eq!(value.to_str(), name);
        assert_eq!(Gender::from_name(name), Some(value));
    }
    let races = [
        (RaceEthnicity::AsianIndian, "asian-indian"),
        (RaceEthnicity::Black, "black"),
        (RaceEthnicity::Chinese, "chinese"),
        (RaceEthnicity::Filipino, "filipino"),
        (RaceEthnicity::Guamanian, "guamanian"),
        (RaceEthnicity::Hispanic, "hispanic"),
        (RaceEthnicity::Japanese, "japanese"),
        (RaceEthnicity::Korean, "korean"),
        (RaceEthnicity::MiddleEastern, "middle-eastern"),
        (RaceEthnicity::NativeAmerican, "native-american"),
        (RaceEthnicity::NativeHawaiian, "native-hawaiian"),
        (RaceEthnicity::Samoan, "samoan"),
        (RaceEthnicity::Vietnamese, "vietnamese"),
        (RaceEthnicity::White, "white"),
        (RaceEthnicity::OtherAsian, "other-asian"),
        (RaceEthnicity::OtherPacificIslander, "other-pacific-islander"),
        (RaceEthnicity::Other, "other"),
    ];
    for (value, name) in races {
        assert_eq!(value.to_str(), name);
        assert_eq!(RaceEthnicity::from_name(name), Some(value));
    }
    let levels = [
        (Education::BelowSecondary, "below-secondary"),
        (Education::Secondary, "secondary"),
        (Education::UndergraduateTwoYear, "undergraduate-two-year"),
        (Education::UndergraduateThreeYearPlus, "undergraduate-three-year-plus"),
        (Education::Graduate, "graduate"),
        (Education::Bootcamp, "bootcamp"),
        (Education::Vocational, "vocational"),
        (Education::Other, "other"),
        (Education::NonStudent, "non-student"),
    ];
    for (value, name) in levels {
        assert_eq!(value.to_str(), name);
        assert_eq!(Education::from_name(name), Some(value));
    }
    let referrers = [
        (Referrer::Search, "search"),
        (Referrer::Peer, "peer"),
        (Referrer::SocialMedia, "social-media"),
        (Referrer::Blog, "blog"),
        (Referrer::Advertisement, "advertisement"),
        (Referrer::StudentOrganization, "student-organization"),
        (Referrer::School, "school"),
        (Referrer::Other, "other"),
    ];
    for (value, name) in referrers {
        assert_eq!(value.to_str(), name);
        assert_eq!(Referrer::from_name(name), Some(value));
    }
    for value in ALL {
        assert_eq!(ApplicationStatus::from_name(value.to_str()), Some(value));
    }
    assert_eq!(Gender::from_name("Male"), None);
    assert_eq!(Gender::from_name(""), None);
    assert_eq!(RaceEthnicity::from_name("other-"), None);
    assert_eq!(Education::from_name("non student"), None);
    assert_eq!(Referrer::from_name("friend"), None);
    assert_eq!(ApplicationStatus::from_name("ACCEPTED"), None);
}
