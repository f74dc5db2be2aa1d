use campus_life_events::auth::{
    change_password, check_current_password, init_account, login, me, redeem_reset_token,
    reset_completed,
    request_password_reset, reset_password, reset_requested, reset_token_refused,
    resettable_account, rotate_password, Notification, RESET_TOKEN_TTL_MICROS,
};
use campus_life_events::dto::{
    ChangePasswordRequest, InitAccountRequest, LoginRequest, RequestPasswordResetRequest,
    ResetPasswordRequest,
};
use campus_life_events::error::AppError;
use campus_life_events::models::{Account, AccountType};
use campus_life_events::store::Database;

const NOW: i64 = 1_700_000_000_000_000;
const MINUTE: i64 = 60_000_000;
const WEEK: i64 = 604_800_000_000;
const SALT: &str = "c29tZXNhbHRzb21lc2FsdA";
const OTHER_SALT: &str = "b3RoZXJzYWx0b3RoZXJzYQ";
const OLD: &str = "Adm1n!-Lantern-Quartz-77";
const NEW: &str = "N3w!-Lantern-Quartz-2024";
const COOKIE: &str = "session_id=00000000-0000-0000-0000-000000000001";

fn initialized() -> Database {
    let mut db = Database::new();
    db.insert_account(
        AccountType::Admin,
        None,
        "Root".to_string(),
        "root@uni.example".to_string(),
        "admin-token".to_string(),
        NOW + WEEK,
        NOW,
    )
    .unwrap();
    init_account(
        &mut db,
        &InitAccountRequest {
            token: "admin-token".to_string(),
            email: "root@uni.example".to_string(),
            password: OLD.to_string(),
        },
        true,
        NOW,
        1,
        SALT,
    )
    .unwrap();
    db
}

fn sign_in(db: &mut Database, password: &str, session_id: u128) -> bool {
    login(
        db,
        &LoginRequest { email: "root@uni.example".to_string(), password: password.to_string() },
        true,
        NOW,
        session_id,
    )
    .is_ok()
}

fn change(current: &str, new: &str) -> ChangePasswordRequest {
    ChangePasswordRequest { current_password: current.to_string(), new_password: new.to_string() }
}

fn ask(email: &str) -> RequestPasswordResetRequest {
    RequestPasswordResetRequest { email: email.to_string() }
}

fn confirm(token: &str, password: &str) -> ResetPasswordRequest {
    ResetPasswordRequest { token: token.to_string(), new_password: password.to_string() }
}

fn validation<T: std::fmt::Debug>(r: Result<T, AppError>) -> String {
    match r {
        Err(AppError::Validation(m)) => m,
        other => panic!("expected a validation failure, got {:?}", other),
    }
}

#[test]
fn changed_password_replaces_the_old_one_and_ends_all_sessions() {
    let mut db = initialized();
    assert!(sign_in(&mut db, OLD, 2));
    assert!(sign_in(&mut db, OLD, 3));
    let status = change_password(&mut db, Some(COOKIE), &change(OLD, NEW), NOW + 9, OTHER_SALT).unwrap();
    assert_eq!(status, 204);
    for id in [1u128, 2, 3] {
        assert!(db.find_session_account(id, NOW).is_none(), "session {} survived", id);
    }
    match me(&db, Some(COOKIE), NOW) {
        Err(e) => assert_eq!(e.status_code(), 401),
        Ok(_) => panic!("the old session still resolves"),
    }
    assert!(!sign_in(&mut db, OLD, 4));
    assert!(sign_in(&mut db, NEW, 5));
    let account = db.find_account_by_email("root@uni.example").unwrap();
    assert_eq!(account.updated_at, NOW + 9);
    assert!(account.password_hash.unwrap().contains("$b3RoZXJzYWx0b3RoZXJzYQ$"));
}

#[test]
fn sessions_of_other_accounts_survive_a_change() {
    let mut db = initialized();
    db.insert_account(
        AccountType::Admin,
        None,
        "Second".to_string(),
        "second@uni.example".to_string(),
        "second-token".to_string(),
        NOW + WEEK,
        NOW,
    )
    .unwrap();
    init_account(
        &mut db,
        &InitAccountRequest {
            token: "second-token".to_string(),
            email: "second@uni.example".to_string(),
            password: OLD.to_string(),
        },
        true,
        NOW,
        7,
        SALT,
    )
    .unwrap();
    change_password(&mut db, Some(COOKIE), &change(OLD, NEW), NOW, SALT).unwrap();
    assert!(db.find_session_account(7, NOW).is_some());
    assert!(db.find_session_account(1, NOW).is_none());
    // The password of the other account is untouched.
    assert!(login(
        &mut db,
        &LoginRequest { email: "second@uni.example".to_string(), password: OLD.to_string() },
        true,
        NOW,
        8,
    )
    .is_ok());
}

#[test]
fn change_needs_session_current_password_and_policy() {
    let mut db = initialized();
    match change_password(&mut db, None, &change(OLD, NEW), NOW, SALT) {
        Err(AppError::Unauthorized(m)) => assert_eq!(m, "missing session"),
        other => panic!("unexpected {:?}", other),
    }
    match change_password(&mut db, Some(COOKIE), &change(NEW, NEW), NOW, SALT) {
        Err(AppError::Unauthorized(m)) => assert_eq!(m, "invalid current password"),
        other => panic!("unexpected {:?}", other),
    }
    assert_eq!(
        validation(change_password(&mut db, Some(COOKIE), &change(OLD, "weak"), NOW, SALT)),
        "password must be at least 20 characters long"
    );
    assert_eq!(
        validation(change_password(&mut db, Some(COOKIE), &change(OLD, NEW), NOW, "")),
        "failed to hash password"
    );
    // Nothing changed: the session and the old password still work.
    assert!(me(&db, Some(COOKIE), NOW).is_ok());
    assert!(sign_in(&mut db, OLD, 2));
}

#[test]
fn current_password_is_checked_against_the_stored_hash() {
    assert_eq!(validation(check_current_password(&None, OLD)), "account not initialized");
    match check_current_password(&Some("garbage".to_string()), OLD) {
        Err(AppError::Unauthorized(m)) => assert_eq!(m, "invalid current password"),
        other => panic!("unexpected {:?}", other),
    }
    let db = initialized();
    let stored = db.find_account_by_email("root@uni.example").unwrap().password_hash;
    assert!(check_current_password(&stored, OLD).is_ok());
    assert!(check_current_password(&stored, NEW).is_err());
}

#[test]
fn reset_request_answers_the_same_for_every_address() {
    let mut db = initialized();
    let known = request_password_reset(&mut db, &ask("root@uni.example"), NOW, "reset-1".to_string());
    let unknown = request_password_reset(&mut db, &ask("nobody@uni.example"), NOW, "reset-2".to_string());
    assert_eq!(known.status, 204);
    assert_eq!(unknown.status, known.status);
    // Only the mail tells them apart, and the client does not see it.
    match known.email {
        Some(Notification::PasswordReset { recipient, display_name, reset_token }) => {
            assert_eq!(recipient, "root@uni.example");
            assert_eq!(display_name, "Root");
            assert_eq!(reset_token, "reset-1");
        }
        other => panic!("unexpected mail {:?}", other),
    }
    assert!(unknown.email.is_none());
    assert!(db.find_usable_reset_token("reset-2", NOW).is_none());
}

#[test]
fn reset_request_for_pending_account_does_nothing() {
    let mut db = Database::new();
    db.insert_account(
        AccountType::Admin,
        None,
        "Root".to_string(),
        "root@uni.example".to_string(),
        "admin-token".to_string(),
        NOW + WEEK,
        NOW,
    )
    .unwrap();
    let response = request_password_reset(&mut db, &ask("root@uni.example"), NOW, "reset-1".to_string());
    assert_eq!(response.status, 204);
    assert!(response.email.is_none());
    assert!(db.find_usable_reset_token("reset-1", NOW).is_none());
}

#[test]
fn reset_token_lasts_ten_minutes() {
    let mut db = initialized();
    request_password_reset(&mut db, &ask("root@uni.example"), NOW, "reset-1".to_string());
    assert_eq!(RESET_TOKEN_TTL_MICROS, 10 * MINUTE);
    let (token, account) = db.find_usable_reset_token("reset-1", NOW).unwrap();
    assert_eq!(token.expires_at, NOW + 10 * MINUTE);
    assert_eq!(token.used_at, None);
    assert_eq!(token.created_at, NOW);
    assert_eq!(token.account_id, account.id);
    assert!(db.find_usable_reset_token("reset-1", NOW + 10 * MINUTE - 1).is_some());
    assert!(db.find_usable_reset_token("reset-1", NOW + 10 * MINUTE).is_none());
    assert_eq!(
        validation(reset_password(&mut db, &confirm("reset-1", NEW), NOW + 10 * MINUTE, SALT)),
        "Invalid or expired reset token"
    );
}

#[test]
fn new_request_invalidates_the_earlier_token() {
    let mut db = initialized();
    request_password_reset(&mut db, &ask("root@uni.example"), NOW, "reset-1".to_string());
    request_password_reset(&mut db, &ask("root@uni.example"), NOW + 1, "reset-2".to_string());
    assert!(db.find_usable_reset_token("reset-1", NOW + 2).is_none());
    assert!(db.find_usable_reset_token("reset-2", NOW + 2).is_some());
    assert_eq!(
        validation(reset_password(&mut db, &confirm("reset-1", NEW), NOW + 2, SALT)),
        "Invalid or expired reset token"
    );
}

#[test]
fn reset_sets_the_password_once_and_ends_all_sessions() {
    let mut db = initialized();
    assert!(sign_in(&mut db, OLD, 2));
    request_password_reset(&mut db, &ask("root@uni.example"), NOW, "reset-1".to_string());
    let status = reset_password(&mut db, &confirm("reset-1", NEW), NOW + MINUTE, OTHER_SALT).unwrap();
    assert_eq!(status, 204);
    assert!(db.find_session_account(1, NOW).is_none());
    assert!(db.find_session_account(2, NOW).is_none());
    assert!(!sign_in(&mut db, OLD, 3));
    assert!(sign_in(&mut db, NEW, 4));
    // The same token does not work a second time, and changes nothing.
    assert_eq!(
        validation(reset_password(&mut db, &confirm("reset-1", OLD), NOW + MINUTE + 1, SALT)),
        "Invalid or expired reset token"
    );
    assert!(sign_in(&mut db, NEW, 5));
    assert!(db.find_session_account(4, NOW).is_some());
}

#[test]
fn reset_with_unknown_token_or_weak_password_changes_nothing() {
    let mut db = initialized();
    request_password_reset(&mut db, &ask("root@uni.example"), NOW, "reset-1".to_string());
    assert_eq!(
        validation(reset_password(&mut db, &confirm("reset-9", NEW), NOW, SALT)),
        "Invalid or expired reset token"
    );
    assert_eq!(
        validation(reset_password(&mut db, &confirm("", NEW), NOW, SALT)),
        "Invalid or expired reset token"
    );
    assert_eq!(
        validation(reset_password(&mut db, &confirm("reset-1", "abcdefghijklmnopqrstuvwx"), NOW, SALT)),
        "password must include at least one uppercase letter"
    );
    assert_eq!(
        validation(reset_password(&mut db, &confirm("reset-1", NEW), NOW, "?")),
        "Failed to hash password"
    );
    // The token is still usable and the session still there.
    assert!(db.find_usable_reset_token("reset-1", NOW).is_some());
    assert!(db.find_session_account(1, NOW).is_some());
    assert!(sign_in(&mut db, OLD, 2));
}

#[test]
fn token_text_in_use_stores_nothing_but_answers_as_always() {
    let mut db = initialized();
    db.insert_account(
        AccountType::Admin,
        None,
        "Second".to_string(),
        "second@uni.example".to_string(),
        "second-token".to_string(),
        NOW + WEEK,
        NOW,
    )
    .unwrap();
    init_account(
        &mut db,
        &InitAccountRequest {
            token: "second-token".to_string(),
            email: "second@uni.example".to_string(),
            password: OLD.to_string(),
        },
        true,
        NOW,
        7,
        SALT,
    )
    .unwrap();
    request_password_reset(&mut db, &ask("root@uni.example"), NOW, "reset-1".to_string());
    let response = request_password_reset(&mut db, &ask("second@uni.example"), NOW, "reset-1".to_string());
    assert_eq!(response.status, 204);
    assert!(response.email.is_none());
    let (_, account) = db.find_usable_reset_token("reset-1", NOW).unwrap();
    assert_eq!(account.email.as_deref(), Some("root@uni.example"));
}

#[test]
fn reset_steps_on_their_own() {
    let mut db = initialized();
    assert!(sign_in(&mut db, OLD, 2));
    rotate_password(&mut db, 1, "hash-a", NOW + 1);
    assert!(db.find_session_account(2, NOW).is_none());
    assert_eq!(db.find_account_by_id(1).unwrap().password_hash.as_deref(), Some("hash-a"));
    let id = db.insert_reset_token(1, "reset-1".to_string(), NOW + 10, NOW).unwrap();
    assert_eq!(db.unused_reset_token_rows(id), 1);
    assert!(redeem_reset_token(&mut db, id, 1, "hash-b", NOW + 2).is_ok());
    assert_eq!(db.find_account_by_id(1).unwrap().password_hash.as_deref(), Some("hash-b"));
    assert!(db.find_usable_reset_token("reset-1", NOW + 3).is_none());
    // A token that was used, or that is unknown, redeems nothing: the password stays.
    assert_eq!(db.unused_reset_token_rows(id), 0);
    for token_id in [id, 99] {
        match redeem_reset_token(&mut db, token_id, 1, "hash-c", NOW + 3) {
            Err(AppError::Validation(m)) => assert_eq!(m, "Invalid or expired reset token"),
            other => panic!("unexpected {:?}", other),
        }
    }
    let account = db.find_account_by_id(1).unwrap();
    assert_eq!(account.password_hash.as_deref(), Some("hash-b"));
    assert_eq!(account.updated_at, NOW + 2);
    assert!(reset_completed(1).is_ok());
    assert!(reset_completed(2).is_ok());
    match reset_completed(0) {
        Err(AppError::Validation(m)) => assert_eq!(m, "Invalid or expired reset token"),
        other => panic!("unexpected {:?}", other),
    }
    match reset_token_refused() {
        AppError::Validation(m) => assert_eq!(m, "Invalid or expired reset token"),
        other => panic!("unexpected {:?}", other),
    }
}

fn account(password_hash: Option<&str>) -> Account {
    Account {
        id: 4,
        account_type: AccountType::Admin,
        organizer_id: None,
        display_name: "Root".to_string(),
        email: Some("root@uni.example".to_string()),
        password_hash: password_hash.map(|s| s.to_string()),
        setup_token: None,
        setup_token_expires_at: None,
        created_at: NOW,
        updated_at: NOW,
    }
}

#[test]
fn only_initialized_accounts_are_reset() {
    assert!(resettable_account(None).is_none());
    assert!(resettable_account(Some(account(None))).is_none());
    assert_eq!(resettable_account(Some(account(Some("h")))).unwrap().id, 4);
}

#[test]
fn answer_to_a_request_hides_whether_a_token_was_stored() {
    let stored = reset_requested(true, "a@uni.example", "A", "t");
    let not_stored = reset_requested(false, "a@uni.example", "A", "t");
    assert_eq!(stored.status, 204);
    assert_eq!(not_stored.status, 204);
    assert!(stored.email.is_some());
    assert!(not_stored.email.is_none());
}
