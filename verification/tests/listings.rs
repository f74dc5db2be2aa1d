use campus_life_events::admin::{
    admin_listing, list_admins, list_organizers_admin, organizer_listing,
};
use campus_life_events::audit::{list_audit_logs, select_entries};
use campus_life_events::auth::init_account;
use campus_life_events::dto::{
    CreateOrganizerRequest, InitAccountRequest, InviteAdminRequest, ListAuditLogsQuery,
    UpdateOrganizerRequest,
};
use campus_life_events::error::{AppError, DbError};
use campus_life_events::events::record_audit;
use campus_life_events::models::{AccountType, AuditLogEntry, AuditType, InviteStatus};
use campus_life_events::ordering::{order_newest_first, page_bounds};
use campus_life_events::organizers::{create_organizer, get_organizer, update_organizer};
use campus_life_events::store::{changed_organizer, Database};

const NOW: i64 = 1_700_000_000_000_000;
const WEEK: i64 = 604_800_000_000;
const SALT: &str = "c29tZXNhbHRzb21lc2FsdA";
const PASSWORD: &str = "Adm1n!-Lantern-Quartz-77";
const ADMIN: &str = "session_id=00000000-0000-0000-0000-000000000001";
const DEBATE: &str = "session_id=00000000-0000-0000-0000-000000000002";

fn init(db: &mut Database, token: &str, email: &str, session_id: u128) {
    init_account(
        db,
        &InitAccountRequest {
            token: token.to_string(),
            email: email.to_string(),
            password: PASSWORD.to_string(),
        },
        true,
        NOW,
        session_id,
        SALT,
    )
    .unwrap();
}

/// An administrator (account 1), the organizers Debate Club (organizer 1,
/// account 2, set up) and Chess Club (organizer 2, account 3, pending), and a
/// second administrator (account 4, pending).
fn campus() -> Database {
    let mut db = Database::new();
    db.insert_account(
        AccountType::Admin,
        None,
        "Root".to_string(),
        "root@uni.example".to_string(),
        "admin-token".to_string(),
        NOW + WEEK,
        NOW,
    )
    .unwrap();
    init(&mut db, "admin-token", "root@uni.example", 1);
    create_organizer(
        &mut db,
        Some(ADMIN),
        &CreateOrganizerRequest { name: "Debate Club".to_string(), email: "debate@uni.example".to_string() },
        NOW + 10,
        "debate-token".to_string(),
    )
    .unwrap();
    create_organizer(
        &mut db,
        Some(ADMIN),
        &CreateOrganizerRequest { name: "Chess Club".to_string(), email: "chess@uni.example".to_string() },
        NOW + 30,
        "chess-token".to_string(),
    )
    .unwrap();
    init(&mut db, "debate-token", "debate@uni.example", 2);
    campus_life_events::admin::invite_admin(
        &mut db,
        Some(ADMIN),
        &InviteAdminRequest { display_name: "Second".to_string(), email: "second@uni.example".to_string() },
        NOW + 20,
        "second-token".to_string(),
    )
    .unwrap();
    db
}

fn refused<T: std::fmt::Debug>(r: Result<T, AppError>) -> String {
    match r {
        Err(AppError::Unauthorized(m)) => m,
        other => panic!("expected a refusal, got {:?}", other),
    }
}

#[test]
fn rows_are_ordered_newest_first_and_ties_keep_their_order() {
    assert_eq!(order_newest_first(&vec![]), Vec::<usize>::new());
    assert_eq!(order_newest_first(&vec![5]), vec![0]);
    assert_eq!(order_newest_first(&vec![1, 2, 3]), vec![2, 1, 0]);
    assert_eq!(order_newest_first(&vec![3, 2, 1]), vec![0, 1, 2]);
    assert_eq!(order_newest_first(&vec![2, 9, 2, 7, 9]), vec![1, 4, 3, 0, 2]);
    assert_eq!(order_newest_first(&vec![4, 4, 4]), vec![0, 1, 2]);
    assert_eq!(order_newest_first(&vec![i64::MIN, i64::MAX, 0]), vec![1, 2, 0]);
}

#[test]
fn pages_are_cut_from_a_listing() {
    assert_eq!(page_bounds(10, None, None), (0, 10));
    assert_eq!(page_bounds(10, Some(3), None), (0, 3));
    assert_eq!(page_bounds(10, Some(3), Some(4)), (4, 7));
    assert_eq!(page_bounds(10, Some(30), Some(4)), (4, 10));
    assert_eq!(page_bounds(10, None, Some(4)), (4, 10));
    assert_eq!(page_bounds(10, Some(1), Some(10)), (10, 10));
    assert_eq!(page_bounds(10, Some(1), Some(11)), (10, 10));
    assert_eq!(page_bounds(10, Some(0), Some(2)), (2, 2));
    assert_eq!(page_bounds(10, Some(-1), Some(-5)), (0, 0));
    assert_eq!(page_bounds(0, Some(5), Some(5)), (0, 0));
    assert_eq!(page_bounds(10, Some(i64::MAX), Some(i64::MAX)), (10, 10));
    assert_eq!(page_bounds(10, Some(i64::MAX), Some(9)), (9, 10));
}

#[test]
fn admins_are_listed_newest_first_with_their_invitations() {
    let db = campus();
    let admins = list_admins(&db, Some(ADMIN), NOW + 40).unwrap();
    assert_eq!(admins.len(), 2);
    assert_eq!(admins[0].id, 4);
    assert_eq!(admins[0].display_name, "Second");
    assert_eq!(admins[0].email.as_deref(), Some("second@uni.example"));
    assert_eq!(admins[0].invite_status, InviteStatus::Pending);
    assert_eq!(admins[0].invite_expires_at, Some(NOW + 20 + WEEK));
    assert_eq!(admins[0].created_at, NOW + 20);
    assert_eq!(admins[1].id, 1);
    assert_eq!(admins[1].invite_status, InviteStatus::Completed);
    assert_eq!(admins[1].invite_expires_at, None);
    // The pending invitation expires with its token.
    let admins = list_admins(&db, Some(ADMIN), NOW + 20 + WEEK).unwrap_err();
    assert_eq!(admins.status_code(), 401);
}

#[test]
fn invitation_in_a_listing_expires_with_its_token() {
    let db = campus();
    let pending = db.find_account_by_email("second@uni.example").unwrap();
    assert_eq!(admin_listing(pending.duplicate(), NOW + 20 + WEEK - 1).invite_status, InviteStatus::Pending);
    assert_eq!(admin_listing(pending, NOW + 20 + WEEK).invite_status, InviteStatus::Expired);
}

#[test]
fn organizers_are_listed_newest_first_with_their_invitations() {
    let db = campus();
    let organizers = list_organizers_admin(&db, Some(ADMIN), NOW + 40).unwrap();
    assert_eq!(organizers.len(), 2);
    assert_eq!(organizers[0].id, 2);
    assert_eq!(organizers[0].name, "Chess Club");
    assert_eq!(organizers[0].email.as_deref(), Some("chess@uni.example"));
    assert_eq!(organizers[0].invite_status, InviteStatus::Pending);
    assert_eq!(organizers[0].invite_expires_at, Some(NOW + 30 + WEEK));
    assert_eq!(organizers[1].id, 1);
    assert_eq!(organizers[1].name, "Debate Club");
    assert_eq!(organizers[1].invite_status, InviteStatus::Completed);
}

#[test]
fn organizer_without_account_is_listed_as_expired() {
    let mut db = Database::new();
    db.insert_organizer("Lonely".to_string(), NOW).unwrap();
    let entry = organizer_listing(db.find_organizer(1).unwrap(), None, NOW);
    assert_eq!(entry.id, 1);
    assert_eq!(entry.name, "Lonely");
    assert_eq!(entry.email, None);
    assert_eq!(entry.invite_status, InviteStatus::Expired);
    assert_eq!(entry.invite_expires_at, None);
}

#[test]
fn listings_of_the_administration_are_for_admins() {
    let db = campus();
    assert_eq!(refused(list_admins(&db, Some(DEBATE), NOW)), "insufficient permissions");
    assert_eq!(refused(list_organizers_admin(&db, Some(DEBATE), NOW)), "insufficient permissions");
    assert_eq!(refused(list_admins(&db, None, NOW)), "missing session");
    assert_eq!(refused(list_organizers_admin(&db, Some("session_id=x"), NOW)), "invalid session format");
}

fn entry(id: i64, event_id: i64, organizer_id: i64, at: i64) -> AuditLogEntry {
    AuditLogEntry {
        id,
        event_id,
        organizer_id,
        user_id: Some(1),
        audit_type: AuditType::Update,
        at,
        old_data: Some("{}".to_string()),
        new_data: Some("{}".to_string()),
    }
}

fn ids(entries: &[AuditLogEntry]) -> Vec<i64> {
    entries.iter().map(|e| e.id).collect()
}

fn query(event_id: Option<i64>, organizer_id: Option<i64>, limit: Option<i64>, offset: Option<i64>) -> ListAuditLogsQuery {
    ListAuditLogsQuery { event_id, organizer_id, limit, offset }
}

#[test]
fn entries_are_selected_ordered_and_paged() {
    let log = vec![
        entry(1, 10, 1, 100),
        entry(2, 11, 2, 300),
        entry(3, 10, 1, 200),
        entry(4, 12, 1, 300),
        entry(5, 10, 2, 50),
    ];
    assert_eq!(ids(&select_entries(&log, &query(None, None, None, None))), vec![2, 4, 3, 1, 5]);
    assert_eq!(ids(&select_entries(&log, &query(Some(10), None, None, None))), vec![3, 1, 5]);
    assert_eq!(ids(&select_entries(&log, &query(None, Some(1), None, None))), vec![4, 3, 1]);
    assert_eq!(ids(&select_entries(&log, &query(Some(10), Some(2), None, None))), vec![5]);
    assert_eq!(ids(&select_entries(&log, &query(Some(99), None, None, None))), Vec::<i64>::new());
    assert_eq!(ids(&select_entries(&log, &query(None, None, Some(2), None))), vec![2, 4]);
    assert_eq!(ids(&select_entries(&log, &query(None, None, Some(2), Some(1)))), vec![4, 3]);
    assert_eq!(ids(&select_entries(&log, &query(None, None, None, Some(4)))), vec![5]);
    assert_eq!(ids(&select_entries(&log, &query(None, None, None, Some(9)))), Vec::<i64>::new());
    // A page holds at least one row, and nothing is skipped for a negative offset.
    assert_eq!(ids(&select_entries(&log, &query(None, None, Some(0), Some(-3)))), vec![2]);
    assert_eq!(ids(&select_entries(&log, &query(None, None, Some(-7), None))), vec![2]);
    assert_eq!(ids(&select_entries(&Vec::new(), &query(None, None, Some(5), Some(5)))), Vec::<i64>::new());
}

#[test]
fn audit_log_is_listed_for_its_organizer_and_for_admins() {
    let mut db = campus();
    record_audit(&mut db, 7, 1, 2, AuditType::Delete, None, None, NOW + 1).unwrap();
    record_audit(&mut db, 8, 2, 1, AuditType::Delete, None, None, NOW + 2).unwrap();
    record_audit(&mut db, 7, 1, 1, AuditType::Delete, None, None, NOW + 3).unwrap();
    let all = list_audit_logs(&db, Some(ADMIN), query(None, None, None, None), NOW + 4).unwrap();
    assert_eq!(ids(&all), vec![3, 2, 1]);
    let of_chess = list_audit_logs(&db, Some(ADMIN), query(None, Some(2), None, None), NOW + 4).unwrap();
    assert_eq!(ids(&of_chess), vec![2]);
    // An organizer is held to its own entries, whether it names itself or not.
    let own = list_audit_logs(&db, Some(DEBATE), query(None, None, None, None), NOW + 4).unwrap();
    assert_eq!(ids(&own), vec![3, 1]);
    let own = list_audit_logs(&db, Some(DEBATE), query(Some(7), Some(1), Some(1), None), NOW + 4).unwrap();
    assert_eq!(ids(&own), vec![3]);
    assert_eq!(
        refused(list_audit_logs(&db, Some(DEBATE), query(None, Some(2), None, None), NOW + 4)),
        "cannot view other organizers' audit logs"
    );
    assert_eq!(refused(list_audit_logs(&db, None, query(None, None, None, None), NOW + 4)), "missing session");
}

fn no_changes() -> UpdateOrganizerRequest {
    UpdateOrganizerRequest {
        name: None,
        description_de: None,
        description_en: None,
        website_url: None,
        instagram_url: None,
        location: None,
        linkedin_url: None,
        registration_number: None,
        non_profit: None,
    }
}

#[test]
fn organizer_is_read_by_anyone_signed_in() {
    let db = campus();
    assert_eq!(get_organizer(&db, Some(DEBATE), 2, NOW).unwrap().name, "Chess Club");
    assert_eq!(get_organizer(&db, Some(ADMIN), 1, NOW).unwrap().name, "Debate Club");
    match get_organizer(&db, Some(ADMIN), 9, NOW) {
        Err(AppError::NotFound { message }) => assert_eq!(message, "Organizer not found"),
        other => panic!("unexpected {:?}", other),
    }
    assert_eq!(refused(get_organizer(&db, None, 1, NOW)), "missing session");
    // The session is looked at before the organizer.
    assert_eq!(refused(get_organizer(&db, None, 9, NOW)), "missing session");
}

#[test]
fn organizer_changes_its_own_profile() {
    let mut db = campus();
    let mut request = no_changes();
    request.description_en = Some("We argue.".to_string());
    request.non_profit = Some(true);
    request.website_url = Some("https://debate.example".to_string());
    let updated = update_organizer(&mut db, Some(DEBATE), 1, &request, NOW + 50).unwrap();
    assert_eq!(updated.id, 1);
    assert_eq!(updated.name, "Debate Club");
    assert_eq!(updated.description_en.as_deref(), Some("We argue."));
    assert_eq!(updated.description_de, None);
    assert_eq!(updated.website_url.as_deref(), Some("https://debate.example"));
    assert!(updated.non_profit);
    assert!(!updated.newsletter);
    assert_eq!(updated.created_at, NOW + 10);
    assert_eq!(updated.updated_at, NOW + 50);
    let stored = db.find_organizer(1).unwrap();
    assert_eq!(stored.description_en.as_deref(), Some("We argue."));
    assert_eq!(stored.updated_at, NOW + 50);
    // The other organizer is untouched.
    assert_eq!(db.find_organizer(2).unwrap().updated_at, NOW + 30);
    assert_eq!(db.find_organizer(2).unwrap().description_en, None);
}

#[test]
fn organizer_cannot_change_another_and_must_name_a_field() {
    let mut db = campus();
    let mut request = no_changes();
    request.name = Some("Stolen".to_string());
    assert_eq!(
        refused(update_organizer(&mut db, Some(DEBATE), 2, &request, NOW)),
        "cannot update another organizer"
    );
    match update_organizer(&mut db, Some(DEBATE), 1, &no_changes(), NOW) {
        Err(AppError::Validation(m)) => assert_eq!(m, "No fields supplied for update"),
        other => panic!("unexpected {:?}", other),
    }
    match update_organizer(&mut db, Some(ADMIN), 9, &request, NOW) {
        Err(AppError::Sqlx(DbError::RowNotFound)) => {}
        other => panic!("unexpected {:?}", other),
    }
    assert_eq!(db.find_organizer(2).unwrap().name, "Chess Club");
    // An administrator may change any organizer.
    assert_eq!(update_organizer(&mut db, Some(ADMIN), 2, &request, NOW).unwrap().name, "Stolen");
}

#[test]
fn change_of_an_organizer_applies_only_named_fields() {
    let db = campus();
    let organizer = db.find_organizer(1).unwrap();
    let same = changed_organizer(&organizer, &no_changes(), NOW + 5);
    assert_eq!(same.name, organizer.name);
    assert_eq!(same.non_profit, organizer.non_profit);
    assert_eq!(same.updated_at, NOW + 5);
    let all = UpdateOrganizerRequest {
        name: Some("N".to_string()),
        description_de: Some("DD".to_string()),
        description_en: Some("DE".to_string()),
        website_url: Some("W".to_string()),
        instagram_url: Some("I".to_string()),
        location: Some("L".to_string()),
        linkedin_url: Some("LI".to_string()),
        registration_number: Some("R".to_string()),
        non_profit: Some(true),
    };
    let changed = changed_organizer(&organizer, &all, NOW + 5);
    assert_eq!(changed.name, "N");
    assert_eq!(changed.description_de.as_deref(), Some("DD"));
    assert_eq!(changed.description_en.as_deref(), Some("DE"));
    assert_eq!(changed.website_url.as_deref(), Some("W"));
    assert_eq!(changed.instagram_url.as_deref(), Some("I"));
    assert_eq!(changed.location.as_deref(), Some("L"));
    assert_eq!(changed.linkedin_url.as_deref(), Some("LI"));
    assert_eq!(changed.registration_number.as_deref(), Some("R"));
    assert!(changed.non_profit);
    assert_eq!(changed.newsletter, organizer.newsletter);
    assert_eq!(changed.id, organizer.id);
    assert_eq!(changed.created_at, organizer.created_at);
}
