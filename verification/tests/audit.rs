use campus_life_events::auth::init_account;
use campus_life_events::dto::{
    CreateEventRequest, CreateOrganizerRequest, InitAccountRequest, UpdateEventRequest,
};
use campus_life_events::error::{AppError, DbError};
use campus_life_events::dto::ListEventsQuery;
use campus_life_events::events::{
    check_creation, check_times, create_event, delete_event, event_found, get_event, list_events,
    record_audit, require_snapshot, select_events, update_event,
};
use campus_life_events::shared::AuthedUser;
use campus_life_events::json::{event_snapshot, write_json_object};
use campus_life_events::models::{AccountType, AuditType, Event};
use campus_life_events::organizers::create_organizer;
use campus_life_events::store::{changed_event, Database};

const NOW: i64 = 1_700_000_000_000_000;
const HOUR: i64 = 3_600_000_000;
const WEEK: i64 = 604_800_000_000;
const SALT: &str = "c29tZXNhbHRzb21lc2FsdA";
const PASSWORD: &str = "Adm1n!-Lantern-Quartz-77";
const ADMIN: &str = "session_id=00000000-0000-0000-0000-000000000001";
const DEBATE: &str = "session_id=00000000-0000-0000-0000-000000000002";
const CHESS: &str = "session_id=00000000-0000-0000-0000-000000000003";

fn init(db: &mut Database, token: &str, email: &str, session_id: u128) {
    init_account(
        db,
        &InitAccountRequest {
            token: token.to_string(),
            email: email.to_string(),
            password: PASSWORD.to_string(),
        },
        true,
        NOW,
        session_id,
        SALT,
    )
    .unwrap();
}

/// An administrator (account 1) and two organizers: Debate Club (organizer 1,
/// account 2) and Chess Club (organizer 2, account 3).
fn campus() -> Database {
    let mut db = Database::new();
    db.insert_account(
        AccountType::Admin,
        None,
        "Root".to_string(),
        "root@uni.example".to_string(),
        "admin-token".to_string(),
        NOW + WEEK,
        NOW,
    )
    .unwrap();
    init(&mut db, "admin-token", "root@uni.example", 1);
    for (name, email, token) in [
        ("Debate Club", "debate@uni.example", "debate-token"),
        ("Chess Club", "chess@uni.example", "chess-token"),
    ] {
        create_organizer(
            &mut db,
            Some(ADMIN),
            &CreateOrganizerRequest { name: name.to_string(), email: email.to_string() },
            NOW,
            token.to_string(),
        )
        .unwrap();
    }
    init(&mut db, "debate-token", "debate@uni.example", 2);
    init(&mut db, "chess-token", "chess@uni.example", 3);
    db
}

fn talk() -> CreateEventRequest {
    CreateEventRequest {
        title_de: "Vortrag".to_string(),
        title_en: "Talk".to_string(),
        description_de: None,
        description_en: Some("About \"things\"".to_string()),
        start_date_time: NOW + HOUR,
        end_date_time: NOW + 2 * HOUR,
        event_url: None,
        location: Some("Aula".to_string()),
        publish_app: true,
        publish_newsletter: false,
        publish_in_ical: true,
        publish_web: true,
    }
}

fn no_changes() -> UpdateEventRequest {
    UpdateEventRequest {
        title_de: None,
        title_en: None,
        description_de: None,
        description_en: None,
        start_date_time: None,
        end_date_time: None,
        event_url: None,
        location: None,
        publish_app: None,
        publish_newsletter: None,
        publish_in_ical: None,
        publish_web: None,
    }
}

fn refused<T: std::fmt::Debug>(r: Result<T, AppError>) -> String {
    match r {
        Err(AppError::Unauthorized(m)) => m,
        other => panic!("expected a refusal, got {:?}", other),
    }
}

fn invalid<T: std::fmt::Debug>(r: Result<T, AppError>) -> String {
    match r {
        Err(AppError::Validation(m)) => m,
        other => panic!("expected a validation failure, got {:?}", other),
    }
}

const TALK_JSON: &str = "{\"id\":1,\"organizer_id\":1,\"title_de\":\"Vortrag\",\"title_en\":\"Talk\",\"description_de\":null,\"description_en\":\"About \\\"things\\\"\",\"start_date_time\":\"2023-11-14T23:13:20Z\",\"end_date_time\":\"2023-11-15T00:13:20Z\",\"event_url\":null,\"location\":\"Aula\",\"publish_app\":true,\"publish_newsletter\":false,\"publish_in_ical\":true,\"publish_web\":true,\"created_at\":\"2023-11-14T22:13:21Z\",\"updated_at\":\"2023-11-14T22:13:21Z\"}";

#[test]
fn created_event_is_recorded_with_its_new_state() {
    let mut db = campus();
    let event = create_event(&mut db, Some(DEBATE), &talk(), NOW + 1_000_000).unwrap();
    assert_eq!(event.id, 1);
    assert_eq!(event.organizer_id, 1);
    assert_eq!(event.title_en, "Talk");
    assert_eq!(event.end_date_time, Some(NOW + 2 * HOUR));
    assert_eq!(event.created_at, NOW + 1_000_000);
    let log = db.audit_entries();
    assert_eq!(log.len(), 1);
    let entry = &log[0];
    assert_eq!(entry.id, 1);
    assert_eq!(entry.event_id, 1);
    assert_eq!(entry.organizer_id, 1);
    assert_eq!(entry.user_id, Some(2));
    assert_eq!(entry.audit_type, AuditType::Create);
    assert_eq!(entry.at, NOW + 1_000_000);
    assert_eq!(entry.old_data, None);
    assert_eq!(entry.new_data.as_deref(), Some(TALK_JSON));
}

#[test]
fn snapshot_is_a_json_object_in_field_order() {
    let mut db = campus();
    let event = create_event(&mut db, Some(DEBATE), &talk(), NOW + 1_000_000).unwrap();
    assert_eq!(event_snapshot(&event).as_deref(), Some(TALK_JSON));
}

#[test]
fn snapshot_escapes_text_and_writes_fractions_of_seconds() {
    let event = Event {
        id: -5,
        organizer_id: 12,
        title_de: "Zeile\nzwei \\ \"x\"".to_string(),
        title_en: String::new(),
        description_de: Some("Grüße".to_string()),
        description_en: None,
        start_date_time: 1_500,
        end_date_time: None,
        event_url: Some("https://uni.example/a?b=c".to_string()),
        location: None,
        publish_app: false,
        publish_newsletter: true,
        publish_in_ical: false,
        publish_web: false,
        created_at: 0,
        updated_at: -1_000_000,
    };
    assert_eq!(
        event_snapshot(&event).as_deref(),
        Some("{\"id\":-5,\"organizer_id\":12,\"title_de\":\"Zeile\\nzwei \\\\ \\\"x\\\"\",\"title_en\":\"\",\"description_de\":\"Grüße\",\"description_en\":null,\"start_date_time\":\"1970-01-01T00:00:00.001500Z\",\"end_date_time\":null,\"event_url\":\"https://uni.example/a?b=c\",\"location\":null,\"publish_app\":false,\"publish_newsletter\":true,\"publish_in_ical\":false,\"publish_web\":false,\"created_at\":\"1970-01-01T00:00:00Z\",\"updated_at\":\"1969-12-31T23:59:59Z\"}")
    );
}

#[test]
fn instant_beyond_the_calendar_has_no_snapshot() {
    let mut db = campus();
    let mut request = talk();
    request.start_date_time = i64::MIN;
    match create_event(&mut db, Some(DEBATE), &request, NOW) {
        Err(e) => {
            assert_eq!(e.status_code(), 500);
            assert_eq!(e.message(), "unexpected error");
        }
        Ok(_) => panic!("an event without snapshot was stored"),
    }
    // Neither the event nor an audit entry was stored.
    assert!(db.find_event(1).is_none());
    assert!(db.audit_entries().is_empty());
}

#[test]
fn json_object_needs_every_value() {
    let keys = vec!["a", "b"];
    assert_eq!(
        write_json_object(&keys, &vec![Some("1".to_string()), Some("true".to_string())]).as_deref(),
        Some("{\"a\":1,\"b\":true}")
    );
    assert_eq!(write_json_object(&keys, &vec![Some("1".to_string()), None]), None);
    assert_eq!(write_json_object(&Vec::new(), &Vec::new()).as_deref(), Some("{}"));
    assert_eq!(write_json_object(&vec!["k"], &vec![Some("null".to_string())]).as_deref(), Some("{\"k\":null}"));
}

#[test]
fn creation_needs_an_organizer_account_and_ordered_times() {
    let mut db = campus();
    assert_eq!(refused(create_event(&mut db, Some(ADMIN), &talk(), NOW)), "organizer account required");
    assert_eq!(refused(create_event(&mut db, None, &talk(), NOW)), "missing session");
    let mut backwards = talk();
    backwards.end_date_time = backwards.start_date_time - 1;
    assert_eq!(
        invalid(create_event(&mut db, Some(DEBATE), &backwards, NOW)),
        "end date time must not be before start date time"
    );
    let mut instant = talk();
    instant.end_date_time = instant.start_date_time;
    assert!(create_event(&mut db, Some(DEBATE), &instant, NOW).is_ok());
    assert_eq!(db.audit_entries().len(), 1);
}

#[test]
fn update_is_recorded_with_both_states() {
    let mut db = campus();
    create_event(&mut db, Some(DEBATE), &talk(), NOW + 1_000_000).unwrap();
    let mut request = no_changes();
    request.title_en = Some("Lecture".to_string());
    request.publish_newsletter = Some(true);
    request.location = Some("Room 1".to_string());
    let updated = update_event(&mut db, Some(DEBATE), 1, &request, NOW + 2_000_000).unwrap();
    assert_eq!(updated.title_en, "Lecture");
    assert_eq!(updated.title_de, "Vortrag");
    assert!(updated.publish_newsletter);
    assert_eq!(updated.location.as_deref(), Some("Room 1"));
    assert_eq!(updated.created_at, NOW + 1_000_000);
    assert_eq!(updated.updated_at, NOW + 2_000_000);
    let stored = db.find_event(1).unwrap();
    assert_eq!(stored.title_en, "Lecture");
    let log = db.audit_entries();
    assert_eq!(log.len(), 2);
    let entry = &log[1];
    assert_eq!(entry.id, 2);
    assert_eq!(entry.audit_type, AuditType::Update);
    assert_eq!(entry.event_id, 1);
    assert_eq!(entry.user_id, Some(2));
    assert_eq!(entry.at, NOW + 2_000_000);
    assert_eq!(entry.old_data.as_deref(), Some(TALK_JSON));
    assert_eq!(entry.new_data, event_snapshot(&stored));
    assert!(entry.new_data.as_ref().unwrap().contains("\"title_en\":\"Lecture\""));
    // The first entry is as it was.
    assert_eq!(log[0].audit_type, AuditType::Create);
    assert_eq!(log[0].new_data.as_deref(), Some(TALK_JSON));
}

#[test]
fn admin_updates_any_event_and_is_the_recorded_actor() {
    let mut db = campus();
    create_event(&mut db, Some(DEBATE), &talk(), NOW).unwrap();
    let mut request = no_changes();
    request.publish_web = Some(false);
    let updated = update_event(&mut db, Some(ADMIN), 1, &request, NOW).unwrap();
    assert!(!updated.publish_web);
    assert_eq!(updated.organizer_id, 1);
    let log = db.audit_entries();
    assert_eq!(log[1].user_id, Some(1));
    assert_eq!(log[1].organizer_id, 1);
}

#[test]
fn failed_update_changes_and_records_nothing() {
    let mut db = campus();
    create_event(&mut db, Some(DEBATE), &talk(), NOW).unwrap();
    let mut request = no_changes();
    assert_eq!(invalid(update_event(&mut db, Some(DEBATE), 1, &request, NOW)), "No fields supplied for update");
    request.title_en = Some("Stolen".to_string());
    assert_eq!(
        refused(update_event(&mut db, Some(CHESS), 1, &request, NOW)),
        "cannot update another organizer's event"
    );
    match update_event(&mut db, Some(DEBATE), 9, &request, NOW) {
        Err(AppError::Sqlx(DbError::RowNotFound)) => {}
        other => panic!("unexpected {:?}", other),
    }
    let mut backwards = no_changes();
    backwards.end_date_time = Some(NOW);
    assert_eq!(
        invalid(update_event(&mut db, Some(DEBATE), 1, &backwards, NOW)),
        "end date time must not be before start date time"
    );
    let mut late_start = no_changes();
    late_start.start_date_time = Some(NOW + 3 * HOUR);
    assert_eq!(
        invalid(update_event(&mut db, Some(DEBATE), 1, &late_start, NOW)),
        "end date time must not be before start date time"
    );
    assert_eq!(db.find_event(1).unwrap().title_en, "Talk");
    assert_eq!(db.audit_entries().len(), 1);
}

#[test]
fn deletion_is_recorded_with_the_old_state() {
    let mut db = campus();
    create_event(&mut db, Some(DEBATE), &talk(), NOW + 1_000_000).unwrap();
    create_event(&mut db, Some(CHESS), &talk(), NOW + 1_000_000).unwrap();
    assert_eq!(delete_event(&mut db, Some(DEBATE), 1, NOW + 3_000_000).unwrap(), 204);
    assert!(db.find_event(1).is_none());
    assert!(db.find_event(2).is_some());
    let log = db.audit_entries();
    assert_eq!(log.len(), 3);
    let entry = &log[2];
    assert_eq!(entry.audit_type, AuditType::Delete);
    assert_eq!(entry.event_id, 1);
    assert_eq!(entry.organizer_id, 1);
    assert_eq!(entry.user_id, Some(2));
    assert_eq!(entry.old_data.as_deref(), Some(TALK_JSON));
    assert_eq!(entry.new_data, None);
}

#[test]
fn failed_deletion_removes_and_records_nothing() {
    let mut db = campus();
    create_event(&mut db, Some(DEBATE), &talk(), NOW).unwrap();
    assert_eq!(
        refused(delete_event(&mut db, Some(CHESS), 1, NOW)),
        "cannot delete another organizer's event"
    );
    match delete_event(&mut db, Some(DEBATE), 9, NOW) {
        Err(AppError::NotFound { message }) => assert_eq!(message, "Event not found"),
        other => panic!("unexpected {:?}", other),
    }
    assert_eq!(refused(delete_event(&mut db, None, 1, NOW)), "missing session");
    assert!(db.find_event(1).is_some());
    assert_eq!(db.audit_entries().len(), 1);
    // An administrator may.
    assert_eq!(delete_event(&mut db, Some(ADMIN), 1, NOW).unwrap(), 204);
    assert_eq!(db.audit_entries().len(), 2);
}

#[test]
fn foreign_event_is_refused_and_missing_event_is_told_to_the_signed_in() {
    let mut db = campus();
    create_event(&mut db, Some(DEBATE), &talk(), NOW).unwrap();
    assert_eq!(get_event(&db, Some(DEBATE), 1, NOW).unwrap().title_de, "Vortrag");
    assert!(get_event(&db, Some(ADMIN), 1, NOW).is_ok());
    assert_eq!(
        refused(get_event(&db, Some(CHESS), 1, NOW)),
        "cannot view another organizer's event"
    );
    // Who is signed in learns that an event is missing.
    match get_event(&db, Some(CHESS), 9, NOW) {
        Err(AppError::NotFound { message }) => assert_eq!(message, "event not found"),
        other => panic!("unexpected {:?}", other),
    }
    // The session is resolved first: without one, nothing is told of the event.
    assert_eq!(refused(get_event(&db, None, 9, NOW)), "missing session");
    assert_eq!(refused(get_event(&db, None, 1, NOW)), "missing session");
}

#[test]
fn recorder_appends_one_entry_with_what_it_is_given() {
    let mut db = campus();
    let event = create_event(&mut db, Some(DEBATE), &talk(), NOW + 1_000_000).unwrap();
    record_audit(&mut db, 40, 41, 42, AuditType::Update, Some(&event), Some(&event), NOW + 7).unwrap();
    record_audit(&mut db, 50, 51, 52, AuditType::Delete, None, None, NOW + 8).unwrap();
    let log = db.audit_entries();
    assert_eq!(log.len(), 3);
    assert_eq!((log[1].id, log[1].event_id, log[1].organizer_id, log[1].user_id), (2, 40, 41, Some(42)));
    assert_eq!(log[1].at, NOW + 7);
    assert_eq!(log[1].old_data.as_deref(), Some(TALK_JSON));
    assert_eq!(log[1].new_data.as_deref(), Some(TALK_JSON));
    assert_eq!((log[2].id, log[2].old_data.clone(), log[2].new_data.clone()), (3, None, None));
}

#[test]
fn change_applies_only_named_fields() {
    let mut db = campus();
    let event = create_event(&mut db, Some(DEBATE), &talk(), NOW).unwrap();
    let same = changed_event(&event, &no_changes(), NOW + 5);
    assert_eq!(same.title_de, event.title_de);
    assert_eq!(same.description_en, event.description_en);
    assert_eq!(same.end_date_time, event.end_date_time);
    assert_eq!(same.updated_at, NOW + 5);
    let mut request = no_changes();
    request.description_de = Some("Neu".to_string());
    request.description_en = Some(String::new());
    request.start_date_time = Some(5);
    request.end_date_time = Some(6);
    request.event_url = Some("https://uni.example".to_string());
    request.publish_app = Some(false);
    request.publish_in_ical = Some(false);
    request.title_de = Some("Neuer Titel".to_string());
    let changed = changed_event(&event, &request, NOW + 5);
    assert_eq!(changed.id, event.id);
    assert_eq!(changed.organizer_id, event.organizer_id);
    assert_eq!(changed.title_de, "Neuer Titel");
    assert_eq!(changed.title_en, "Talk");
    assert_eq!(changed.description_de.as_deref(), Some("Neu"));
    assert_eq!(changed.description_en.as_deref(), Some(""));
    assert_eq!(changed.start_date_time, 5);
    assert_eq!(changed.end_date_time, Some(6));
    assert_eq!(changed.event_url.as_deref(), Some("https://uni.example"));
    assert_eq!(changed.location.as_deref(), Some("Aula"));
    assert!(!changed.publish_app);
    assert!(!changed.publish_in_ical);
    assert!(changed.publish_web);
    assert_eq!(changed.created_at, event.created_at);
}

fn starting(db: &mut Database, cookie: &str, start: i64) -> i64 {
    let mut request = talk();
    request.start_date_time = start;
    request.end_date_time = start + HOUR;
    create_event(db, Some(cookie), &request, NOW).unwrap().id
}

fn event_ids(events: &[Event]) -> Vec<i64> {
    events.iter().map(|e| e.id).collect()
}

fn events_query(organizer_id: Option<i64>, upcoming_only: Option<bool>, limit: Option<i64>, offset: Option<i64>) -> ListEventsQuery {
    ListEventsQuery { organizer_id, upcoming_only, limit, offset }
}

#[test]
fn events_are_listed_by_their_start() {
    let mut db = campus();
    let late = starting(&mut db, DEBATE, NOW + 30 * HOUR);
    let past = starting(&mut db, CHESS, NOW - 5 * HOUR);
    let soon = starting(&mut db, DEBATE, NOW + 2 * HOUR);
    let now_starting = starting(&mut db, CHESS, NOW);
    let all = list_events(&db, Some(ADMIN), events_query(None, None, None, None), NOW).unwrap();
    assert_eq!(event_ids(&all), vec![past, now_starting, soon, late]);
    let upcoming = list_events(&db, Some(DEBATE), events_query(None, Some(true), None, None), NOW).unwrap();
    assert_eq!(event_ids(&upcoming), vec![now_starting, soon, late]);
    let of_debate = list_events(&db, Some(CHESS), events_query(Some(1), None, None, None), NOW).unwrap();
    assert_eq!(event_ids(&of_debate), vec![soon, late]);
    let page = list_events(&db, Some(ADMIN), events_query(None, Some(false), Some(2), Some(1)), NOW).unwrap();
    assert_eq!(event_ids(&page), vec![now_starting, soon]);
    let none = list_events(&db, Some(ADMIN), events_query(Some(9), None, None, None), NOW).unwrap();
    assert!(none.is_empty());
    assert_eq!(refused(list_events(&db, None, events_query(None, None, None, None), NOW)), "missing session");
}

#[test]
fn selection_of_events_on_its_own() {
    let mut db = campus();
    let a = starting(&mut db, DEBATE, 50);
    let b = starting(&mut db, DEBATE, 50);
    let c = starting(&mut db, DEBATE, 10);
    let events = db.all_events();
    assert_eq!(event_ids(&events), vec![a, b, c]);
    let listed = select_events(&events, &events_query(None, None, None, None), 0);
    assert_eq!(listed[0].id, c);
    assert_eq!(listed.len(), 3);
    assert_eq!(event_ids(&select_events(&events, &events_query(None, Some(true), None, None), 50)).len(), 2);
    assert!(select_events(&events, &events_query(None, Some(true), None, None), 51).is_empty());
    assert_eq!(event_ids(&select_events(&events, &events_query(None, None, Some(0), None), 0)), vec![c]);
}

#[test]
fn decisions_on_events_on_their_own() {
    let owner = AuthedUser { account_id: 2, account_type: AccountType::Organizer, organizer_id: Some(1) };
    let admin = AuthedUser { account_id: 1, account_type: AccountType::Admin, organizer_id: None };
    assert_eq!(check_creation(&owner, 5, 5).unwrap(), 1);
    assert_eq!(invalid(check_creation(&owner, 5, 4)), "end date time must not be before start date time");
    assert_eq!(refused(check_creation(&admin, 5, 6)), "organizer account required");
    // The account is looked at before the times.
    assert_eq!(refused(check_creation(&admin, 5, 4)), "organizer account required");
    assert!(check_times(5, None).is_ok());
    assert!(check_times(5, Some(5)).is_ok());
    assert!(check_times(i64::MIN, Some(i64::MAX)).is_ok());
    assert_eq!(invalid(check_times(5, Some(4))), "end date time must not be before start date time");
    match event_found(None, "Event not found") {
        Err(AppError::NotFound { message }) => assert_eq!(message, "Event not found"),
        other => panic!("unexpected {:?}", other),
    }
    let mut db = campus();
    let event = create_event(&mut db, Some(DEBATE), &talk(), NOW + 1_000_000).unwrap();
    assert_eq!(require_snapshot(&event).unwrap(), TALK_JSON);
    assert_eq!(event_found(Some(event), "x").unwrap().id, 1);
    let mut broken = db.find_event(1).unwrap();
    broken.updated_at = i64::MAX;
    match require_snapshot(&broken) {
        Err(AppError::Serde(_)) => {}
        other => panic!("unexpected {:?}", other),
    }
}
