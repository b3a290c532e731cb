use application_portal::{
    Actor, Application, ApplicationStatus, ChangeApplicationStatusInput, CheckIn, Database,
    DraftApplication, Education, Email, Failure, Gender, Mail, Mutation, Notification, Outbox,
    Patch, RaceEthnicity, SaveApplicationInput, Scope, UserRole,
};
use chrono::{NaiveDate, NaiveDateTime};

fn time(second: u32) -> NaiveDateTime {
    NaiveDate::from_ymd_opt(2024, 5, 23).unwrap().and_hms_opt(2, 37, second).unwrap()
}

fn participant(id: i32) -> Actor {
    Actor { id, email: format!("part{id}@example.org"), role: Some(UserRole::Participant) }
}

fn organizer() -> Actor {
    Actor { id: 100, email: String::from("org@example.org"), role: Some(UserRole::Organizer) }
}

fn scope(event: &str) -> Scope {
    Scope { event: String::from(event) }
}

fn full_input() -> SaveApplicationInput {
    let mut input = SaveApplicationInput::new();
    input.gender = Patch::Replace(Gender::NonBinary);
    input.race_ethnicity = Patch::Replace(RaceEthnicity::Other);
    input.date_of_birth = Patch::Replace(NaiveDate::from_ymd_opt(2000, 10, 15).unwrap());
    input.education = Patch::Replace(Education::UndergraduateThreeYearPlus);
    input.graduation_year = Patch::Replace(2026);
    input.major = Patch::Replace(String::from("Computer Science"));
    input.hackathons_attended = Patch::Replace(2);
    input.address_line1 = Patch::Replace(String::from("999 Canada Place"));
    input.locality = Patch::Replace(String::from("Vancouver"));
    input.administrative_area = Patch::Replace(String::from("British Columbia"));
    input.postal_code = Patch::Replace(String::from("V6C 3T4"));
    input.country = Patch::Replace(String::from("Canada"));
    input
}

fn status(db: &mut Database, outbox: &mut Outbox, event: &str, id: i32, to: ApplicationStatus)
    -> Result<Result<Application, application_portal::UserError>, Failure> {
    Mutation.change_application_status(
        &organizer(),
        &scope(event),
        ChangeApplicationStatusInput { id, status: to },
        db,
        outbox,
    )
}

#[test]
fn end_to_end_from_draft_to_check_in() {
    let mut db = Database::new();
    let mut outbox = Outbox::new();
    let user = participant(3);
    let event = scope("wh-2024");

    let draft = Mutation
        .save_application_at(&user, &event, full_input(), time(0), &mut db)
        .unwrap()
        .unwrap();
    assert_eq!(draft.event, "wh-2024");
    assert_eq!(draft.participant_id, 3);
    assert_eq!(draft.created_at, time(0));

    let application =
        Mutation.submit_application_at(&user, &event, time(1), &mut db, &mut outbox).unwrap().unwrap();
    assert_eq!(application.status, ApplicationStatus::Pending);
    assert_eq!(application.event, "wh-2024");
    assert_eq!(application.participant_id, 3);
    assert_eq!(application.gender, Gender::NonBinary);
    assert_eq!(application.major.as_deref(), Some("Computer Science"));
    assert_eq!(application.address_line1, "999 Canada Place");
    assert_eq!(application.graduation_year, 2026);
    assert!(!application.flagged);
    assert_eq!(application.notes, "");
    assert_eq!(application.created_at, time(1));
    assert_eq!(application.updated_at, time(1));
    assert!(DraftApplication::find("wh-2024", 3, &db).is_none());
    assert!(!DraftApplication::is_stored("wh-2024", 3, &db));
    assert_eq!(Application::find("wh-2024", 3, &db), Some(application.clone()));

    let waitlisted =
        status(&mut db, &mut outbox, "wh-2024", 3, ApplicationStatus::Waitlisted).unwrap().unwrap();
    assert_eq!(waitlisted.status, ApplicationStatus::Waitlisted);

    let accepted =
        status(&mut db, &mut outbox, "wh-2024", 3, ApplicationStatus::Accepted).unwrap().unwrap();
    assert_eq!(accepted.status, ApplicationStatus::Accepted);

    let at = Mutation.check_in_at(&user, &event, Some(3), time(2), &mut db).unwrap().unwrap();
    assert_eq!(at, time(2));

    let rejected =
        status(&mut db, &mut outbox, "wh-2024", 3, ApplicationStatus::Rejected).unwrap().unwrap_err();
    assert_eq!(rejected.message(), "invalid status transition for application");
    assert_eq!(rejected.field(), &["status"]);
    assert_eq!(
        Application::find("wh-2024", 3, &db).unwrap().status,
        ApplicationStatus::Accepted
    );
}

#[test]
fn second_submission_is_turned_down_and_changes_nothing() {
    let mut db = Database::new();
    let mut outbox = Outbox::new();
    let user = participant(7);
    let event = scope("wh-2024");
    Mutation.save_application_at(&user, &event, full_input(), time(0), &mut db).unwrap().unwrap();
    let first =
        Mutation.submit_application_at(&user, &event, time(1), &mut db, &mut outbox).unwrap().unwrap();
    let queued = outbox.pending.len();

    let second = Mutation
        .submit_application_at(&user, &event, time(2), &mut db, &mut outbox)
        .unwrap()
        .unwrap_err();
    assert_eq!(second.message(), "application already submitted");
    assert_eq!(second.field(), &["submitApplication"]);
    assert_eq!(Application::find("wh-2024", 7, &db), Some(first));
    assert!(DraftApplication::find("wh-2024", 7, &db).is_none());
    assert_eq!(outbox.pending.len(), queued);
}

#[test]
fn submission_without_a_draft_names_the_missing_draft() {
    let mut db = Database::new();
    let mut outbox = Outbox::new();
    let error = Mutation
        .submit_application_at(&participant(1), &scope("wh-2024"), time(0), &mut db, &mut outbox)
        .unwrap()
        .unwrap_err();
    assert_eq!(error.message(), "could not find a draft application");
    assert_eq!(error.field(), &["submitApplication"]);
    assert!(!Application::is_stored("wh-2024", 1, &db));
    assert!(outbox.pending.is_empty());
}

#[test]
fn submission_of_an_incomplete_draft_is_incomplete() {
    let mut db = Database::new();
    let mut outbox = Outbox::new();
    let user = participant(1);
    let event = scope("wh-2024");
    let mut input = full_input();
    input.postal_code = Patch::Keep;
    let draft =
        Mutation.save_application_at(&user, &event, input, time(0), &mut db).unwrap().unwrap();

    let error = Mutation
        .submit_application_at(&user, &event, time(1), &mut db, &mut outbox)
        .unwrap()
        .unwrap_err();
    assert_eq!(error.message(), "application is incomplete");
    assert_eq!(error.field(), &["submitApplication"]);
    assert!(!Application::is_stored("wh-2024", 1, &db));
    assert_eq!(DraftApplication::find("wh-2024", 1, &db), Some(draft));
    assert!(outbox.pending.is_empty());
}

#[test]
fn each_required_answer_is_needed() {
    let clear: [fn(&mut SaveApplicationInput); 9] = [
        |i| i.gender = Patch::Clear,
        |i| i.race_ethnicity = Patch::Clear,
        |i| i.date_of_birth = Patch::Clear,
        |i| i.education = Patch::Clear,
        |i| i.graduation_year = Patch::Clear,
        |i| i.hackathons_attended = Patch::Clear,
        |i| i.address_line1 = Patch::Clear,
        |i| i.postal_code = Patch::Clear,
        |i| i.country = Patch::Clear,
    ];
    for clear_one in clear {
        let mut db = Database::new();
        let mut outbox = Outbox::new();
        let user = participant(1);
        let event = scope("wh-2024");
        let mut input = full_input();
        clear_one(&mut input);
        Mutation.save_application_at(&user, &event, input, time(0), &mut db).unwrap().unwrap();
        let error = Mutation
            .submit_application_at(&user, &event, time(1), &mut db, &mut outbox)
            .unwrap()
            .unwrap_err();
        assert_eq!(error.message(), "application is incomplete");
    }
}

#[test]
fn optional_answers_may_stay_open() {
    let mut db = Database::new();
    let mut outbox = Outbox::new();
    let user = participant(1);
    let event = scope("wh-2024");
    let mut input = full_input();
    input.major = Patch::Clear;
    input.locality = Patch::Clear;
    input.administrative_area = Patch::Clear;
    Mutation.save_application_at(&user, &event, input, time(0), &mut db).unwrap().unwrap();
    let application =
        Mutation.submit_application_at(&user, &event, time(1), &mut db, &mut outbox).unwrap().unwrap();
    assert_eq!(application.major, None);
    assert_eq!(application.referrer, None);
    assert_eq!(application.school_id, None);
    assert_eq!(application.vcs_url, None);
    assert_eq!(application.address_line2, None);
    assert_eq!(application.locality, None);
    assert!(application.share_information);
}

#[test]
fn submission_queues_a_webhook_and_an_email() {
    let mut db = Database::new();
    let mut outbox = Outbox::new();
    let user = participant(3);
    let event = scope("wh-2024");
    Mutation.save_application_at(&user, &event, full_input(), time(0), &mut db).unwrap().unwrap();
    let application =
        Mutation.submit_application_at(&user, &event, time(1), &mut db, &mut outbox).unwrap().unwrap();

    let sent = outbox.drain();
    assert!(outbox.pending.is_empty());
    assert_eq!(sent.len(), 2);
    match &sent[0] {
        Notification::Webhook(payload) => {
            assert_eq!(payload.type_, "application.submitted");
            assert_eq!(payload.for_, "wh-2024");
            assert_eq!(payload.object, application);
            assert_eq!(payload.at, time(1));
        }
        other => panic!("expected a webhook, found {other:?}"),
    }
    assert_eq!(
        sent[1],
        Notification::Mail(Mail {
            template: String::from("pending"),
            to: String::from("part3@example.org")
        })
    );
}

#[test]
fn status_change_writes_to_the_known_address() {
    let mut db = Database::new();
    let mut outbox = Outbox::new();
    let user = participant(3);
    let event = scope("wh-2024");
    Mutation.save_application_at(&user, &event, full_input(), time(0), &mut db).unwrap().unwrap();
    Mutation.submit_application_at(&user, &event, time(1), &mut db, &mut outbox).unwrap().unwrap();
    outbox.drain();

    status(&mut db, &mut outbox, "wh-2024", 3, ApplicationStatus::Waitlisted).unwrap().unwrap();
    assert!(outbox.pending.is_empty());

    Email::upsert(3, "three@example.org", &mut db);
    status(&mut db, &mut outbox, "wh-2024", 3, ApplicationStatus::Accepted).unwrap().unwrap();
    assert_eq!(
        outbox.pending,
        vec![Notification::Mail(Mail {
            template: String::from("accepted"),
            to: String::from("three@example.org")
        })]
    );
}

#[test]
fn check_in_needs_an_accepted_application() {
    let mut db = Database::new();
    let mut outbox = Outbox::new();
    let user = participant(3);
    let event = scope("wh-2024");

    let none = Mutation.check_in_at(&user, &event, None, time(0), &mut db).unwrap().unwrap_err();
    assert_eq!(none.message(), "only participants with accepted applications can check in");
    assert_eq!(none.field(), &["id"]);

    Mutation.save_application_at(&user, &event, full_input(), time(0), &mut db).unwrap().unwrap();
    Mutation.submit_application_at(&user, &event, time(1), &mut db, &mut outbox).unwrap().unwrap();
    assert!(Mutation.check_in_at(&user, &event, None, time(2), &mut db).unwrap().is_err());

    status(&mut db, &mut outbox, "wh-2024", 3, ApplicationStatus::Waitlisted).unwrap().unwrap();
    assert!(Mutation.check_in_at(&user, &event, None, time(3), &mut db).unwrap().is_err());
    assert!(!CheckIn::is_stored("wh-2024", 3, &db));

    status(&mut db, &mut outbox, "wh-2024", 3, ApplicationStatus::Accepted).unwrap().unwrap();
    assert_eq!(Mutation.check_in_at(&user, &event, None, time(4), &mut db), Ok(Ok(time(4))));
    assert!(CheckIn::is_stored("wh-2024", 3, &db));
}

#[test]
fn rejected_applicants_may_not_check_in() {
    let mut db = Database::new();
    let mut outbox = Outbox::new();
    let user = participant(3);
    let event = scope("wh-2024");
    Mutation.save_application_at(&user, &event, full_input(), time(0), &mut db).unwrap().unwrap();
    Mutation.submit_application_at(&user, &event, time(1), &mut db, &mut outbox).unwrap().unwrap();
    status(&mut db, &mut outbox, "wh-2024", 3, ApplicationStatus::Rejected).unwrap().unwrap();
    let error = Mutation.check_in_at(&user, &event, None, time(2), &mut db).unwrap().unwrap_err();
    assert_eq!(error.message(), "only participants with accepted applications can check in");
    assert!(!CheckIn::is_stored("wh-2024", 3, &db));
}

#[test]
fn repeated_check_in_answers_with_the_latest_time() {
    let mut db = Database::new();
    let mut outbox = Outbox::new();
    let user = participant(3);
    let event = scope("wh-2024");
    Mutation.save_application_at(&user, &event, full_input(), time(0), &mut db).unwrap().unwrap();
    Mutation.submit_application_at(&user, &event, time(1), &mut db, &mut outbox).unwrap().unwrap();
    status(&mut db, &mut outbox, "wh-2024", 3, ApplicationStatus::Accepted).unwrap().unwrap();

    assert_eq!(Mutation.check_in_at(&user, &event, None, time(10), &mut db), Ok(Ok(time(10))));
    assert_eq!(Mutation.check_in_at(&user, &event, Some(3), time(20), &mut db), Ok(Ok(time(20))));
    assert_eq!(
        Mutation.check_in_at(&organizer(), &event, Some(3), time(30), &mut db),
        Ok(Ok(time(30)))
    );
    assert_eq!(CheckIn::mark("wh-2024", 3, time(40), &mut db).at, time(40));
}

#[test]
fn requests_that_read_the_clock_go_through() {
    let mut db = Database::new();
    let mut outbox = Outbox::new();
    let user = participant(3);
    let event = scope("wh-2024");
    let draft = Mutation.save_application(&user, &event, full_input(), &mut db).unwrap().unwrap();
    assert_eq!(draft.created_at, draft.updated_at);
    let application =
        Mutation.submit_application(&user, &event, &mut db, &mut outbox).unwrap().unwrap();
    assert_eq!(application.created_at, application.updated_at);
    assert!(application.created_at >= draft.created_at);
    status(&mut db, &mut outbox, "wh-2024", 3, ApplicationStatus::Accepted).unwrap().unwrap();
    let at = Mutation.check_in(&user, &event, None, &mut db).unwrap().unwrap();
    assert!(at >= application.created_at);
    assert_eq!(outbox.pending.len(), 2);
}
