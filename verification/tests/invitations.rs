use campus_life_events::admin::{invite_admin, update_organizer_permissions, Invitation};
use campus_life_events::auth::{
    ensure_pending_setup_token, hash_new_password, init_account, login, lookup_setup_token, me,
    pending_setup, redeem_setup_token, setup_completed, Notification,
    PendingSetupToken,
};
use campus_life_events::dto::{
    CreateOrganizerRequest, InitAccountRequest, InviteAdminRequest, LoginRequest,
    SetupTokenLookupRequest, UpdateOrganizerPermissionsRequest,
};
use campus_life_events::error::AppError;
use campus_life_events::models::{Account, AccountType, InviteStatus};
use campus_life_events::organizers::{
    create_organizer, generate_setup_token, setup_token_reissued,
};
use campus_life_events::store::Database;

const NOW: i64 = 1_700_000_000_000_000;
const WEEK: i64 = 604_800_000_000;
const SALT: &str = "c29tZXNhbHRzb21lc2FsdA";
const ADMIN_PASSWORD: &str = "Adm1n!-Lantern-Quartz-77";
const CLUB_PASSWORD: &str = "Deb4te!-Club-Opens-Doors";
const ADMIN_COOKIE: &str = "session_id=00000000-0000-0000-0000-000000000001";

fn fresh() -> Database {
    let mut db = Database::new();
    db.insert_account(
        AccountType::Admin,
        None,
        "Root".to_string(),
        "root@uni.example".to_string(),
        "admin-token".to_string(),
        NOW + WEEK,
        NOW,
    )
    .unwrap();
    init_account(
        &mut db,
        &InitAccountRequest {
            token: "admin-token".to_string(),
            email: "root@uni.example".to_string(),
            password: ADMIN_PASSWORD.to_string(),
        },
        true,
        NOW,
        1,
        SALT,
    )
    .unwrap();
    db
}

fn invite_club(db: &mut Database, token: &str) -> Invitation {
    create_organizer(
        db,
        Some(ADMIN_COOKIE),
        &CreateOrganizerRequest { name: "Debate Club".to_string(), email: "club@uni.example".to_string() },
        NOW,
        token.to_string(),
    )
    .unwrap()
}

fn init_request(token: &str, email: &str, password: &str) -> InitAccountRequest {
    InitAccountRequest { token: token.to_string(), email: email.to_string(), password: password.to_string() }
}

fn validation<T: std::fmt::Debug>(r: Result<T, AppError>) -> String {
    match r {
        Err(AppError::Validation(m)) => m,
        other => panic!("expected a validation failure, got {:?}", other),
    }
}

fn refused<T: std::fmt::Debug>(r: Result<T, AppError>) -> String {
    match r {
        Err(AppError::Unauthorized(m)) => m,
        other => panic!("expected a refusal, got {:?}", other),
    }
}

#[test]
fn admin_invites_admin() {
    let mut db = fresh();
    let invitation = invite_admin(
        &mut db,
        Some(ADMIN_COOKIE),
        &InviteAdminRequest { display_name: "Second".to_string(), email: "second@uni.example".to_string() },
        NOW + 10,
        "tok+en/==".to_string(),
    )
    .unwrap();
    assert_eq!(invitation.status, 201);
    assert_eq!(invitation.body.setup_token, "tok+en/==");
    match invitation.email {
        Notification::AdminInvite { recipient, display_name, setup_token } => {
            assert_eq!(recipient, "second@uni.example");
            assert_eq!(display_name, "Second");
            assert_eq!(setup_token, "tok+en/==");
        }
        other => panic!("unexpected mail {:?}", other),
    }
    let stored = db.find_account_by_email("second@uni.example").unwrap();
    assert_eq!(stored.id, 2);
    assert_eq!(stored.account_type, AccountType::Admin);
    assert_eq!(stored.organizer_id, None);
    assert_eq!(stored.display_name, "Second");
    assert_eq!(stored.password_hash, None);
    assert_eq!(stored.setup_token.as_deref(), Some("tok+en/=="));
    assert_eq!(stored.setup_token_expires_at, Some(NOW + 10 + WEEK));
    assert_eq!(stored.created_at, NOW + 10);
}

#[test]
fn only_admins_invite() {
    let mut db = fresh();
    invite_club(&mut db, "club-token");
    init_account(&mut db, &init_request("club-token", "club@uni.example", CLUB_PASSWORD), true, NOW, 2, SALT).unwrap();
    let club_cookie = "session_id=00000000-0000-0000-0000-000000000002";
    assert_eq!(
        refused(invite_admin(
            &mut db,
            Some(club_cookie),
            &InviteAdminRequest { display_name: "X".to_string(), email: "x@uni.example".to_string() },
            NOW,
            "t1".to_string(),
        )),
        "insufficient permissions"
    );
    assert_eq!(
        refused(create_organizer(
            &mut db,
            Some(club_cookie),
            &CreateOrganizerRequest { name: "X".to_string(), email: "x@uni.example".to_string() },
            NOW,
            "t2".to_string(),
        )),
        "insufficient permissions"
    );
    assert_eq!(
        refused(invite_admin(
            &mut db,
            None,
            &InviteAdminRequest { display_name: "X".to_string(), email: "x@uni.example".to_string() },
            NOW,
            "t3".to_string(),
        )),
        "missing session"
    );
    assert!(db.find_account_by_email("x@uni.example").is_none());
}

#[test]
fn organizer_invitation_stores_organizer_and_account() {
    let mut db = fresh();
    let invitation = invite_club(&mut db, "club-token");
    assert_eq!(invitation.status, 201);
    let account = db.find_account_by_email("club@uni.example").unwrap();
    assert_eq!(account.account_type, AccountType::Organizer);
    assert_eq!(account.organizer_id, Some(1));
    assert_eq!(account.display_name, "Debate Club");
    assert_eq!(account.setup_token_expires_at, Some(NOW + WEEK));
    let organizer = db.find_organizer(1).unwrap();
    assert_eq!(organizer.name, "Debate Club");
    assert!(!organizer.newsletter);
    assert_eq!(db.find_account_of_organizer(1).unwrap().id, account.id);
}

#[test]
fn duplicate_address_is_a_conflict_and_stores_nothing() {
    let mut db = fresh();
    invite_club(&mut db, "club-token");
    match create_organizer(
        &mut db,
        Some(ADMIN_COOKIE),
        &CreateOrganizerRequest { name: "Other Club".to_string(), email: "club@uni.example".to_string() },
        NOW,
        "other-token".to_string(),
    ) {
        Err(e) => {
            assert_eq!(e.status_code(), 409);
            assert_eq!(e.message(), "duplicate key value violates unique constraint");
        }
        Ok(_) => panic!("the address was stored twice"),
    }
    // Neither the organizer nor the account of the failed invitation exists.
    assert!(db.find_organizer(2).is_none());
    assert!(db.find_account_by_setup_token("other-token").is_none());
    match invite_admin(
        &mut db,
        Some(ADMIN_COOKIE),
        &InviteAdminRequest { display_name: "Dup".to_string(), email: "root@uni.example".to_string() },
        NOW,
        "third-token".to_string(),
    ) {
        Err(e) => assert_eq!(e.status_code(), 409),
        Ok(_) => panic!("the address was stored twice"),
    }
}

#[test]
fn lookup_shows_name_and_role_of_pending_account() {
    let mut db = fresh();
    invite_club(&mut db, "club-token");
    let info = lookup_setup_token(&db, &SetupTokenLookupRequest { token: "club-token".to_string() }, NOW + 1).unwrap();
    assert_eq!(info.account_name, "Debate Club");
    assert_eq!(info.account_type, AccountType::Organizer);
}

#[test]
fn lookup_fails_for_unknown_expired_and_used_tokens() {
    let mut db = fresh();
    invite_club(&mut db, "club-token");
    let lookup = |db: &Database, token: &str, now: i64| {
        validation(lookup_setup_token(db, &SetupTokenLookupRequest { token: token.to_string() }, now))
    };
    assert_eq!(lookup(&db, "no-such-token", NOW), "invalid setup token");
    assert_eq!(lookup(&db, "", NOW), "invalid setup token");
    // An expired token reads like an unknown one.
    assert_eq!(lookup(&db, "club-token", NOW + WEEK), "invalid setup token");
    assert_eq!(lookup(&db, "club-token", NOW + WEEK + 1), "invalid setup token");
    assert!(lookup_setup_token(&db, &SetupTokenLookupRequest { token: "club-token".to_string() }, NOW + WEEK - 1).is_ok());
    init_account(&mut db, &init_request("club-token", "club@uni.example", CLUB_PASSWORD), true, NOW, 2, SALT).unwrap();
    assert_eq!(lookup(&db, "club-token", NOW), "invalid setup token");
    assert_eq!(lookup(&db, "admin-token", NOW), "invalid setup token");
}

#[test]
fn token_is_looked_up_as_given() {
    let mut db = fresh();
    invite_club(&mut db, "ab+cd+/ef==");
    assert!(ensure_pending_setup_token(&db, "ab+cd+/ef==", NOW).is_ok());
    // A space is no plus sign, and nothing is trimmed.
    assert!(ensure_pending_setup_token(&db, "ab cd /ef==", NOW).is_err());
    assert!(ensure_pending_setup_token(&db, "ab+cd /ef==", NOW).is_err());
    assert!(ensure_pending_setup_token(&db, " ab+cd+/ef==", NOW).is_err());
    assert!(ensure_pending_setup_token(&db, "AB+CD+/EF==", NOW).is_err());
    let refused = init_account(&mut db, &init_request("ab cd /ef==", "club@uni.example", CLUB_PASSWORD), true, NOW, 2, SALT);
    match refused {
        Err(AppError::Validation(message)) => assert_eq!(message, "invalid setup token"),
        other => panic!("unexpected {:?}", other.map(|o| o.response.status)),
    }
    assert!(db.find_account_by_setup_token("ab+cd+/ef==").unwrap().password_hash.is_none());
    init_account(&mut db, &init_request("ab+cd+/ef==", "club@uni.example", CLUB_PASSWORD), true, NOW, 2, SALT).unwrap();
    assert!(db.find_account_by_email("club@uni.example").unwrap().password_hash.is_some());
}

#[test]
fn completed_setup_clears_token_and_stores_hash() {
    let mut db = fresh();
    invite_club(&mut db, "club-token");
    let outcome = init_account(&mut db, &init_request("club-token", "new@uni.example", CLUB_PASSWORD), false, NOW + 3, 2, SALT).unwrap();
    assert_eq!(outcome.response.status, 200);
    assert_eq!(
        outcome.response.set_cookie,
        "session_id=00000000-0000-0000-0000-000000000002; Path=/; HttpOnly; SameSite=Lax; Max-Age=86400"
    );
    let account = db.find_account_by_email("new@uni.example").unwrap();
    assert_eq!(account.setup_token, None);
    assert_eq!(account.setup_token_expires_at, None);
    assert_eq!(account.updated_at, NOW + 3);
    assert_eq!(account.created_at, NOW);
    let hash = account.password_hash.unwrap();
    assert!(hash.starts_with("$argon2id$v=19$m=19456,t=2,p=1$c29tZXNhbHRzb21lc2FsdA$"));
    assert_ne!(hash, CLUB_PASSWORD);
    // The address of the invitation is replaced by the one of the setup.
    assert!(db.find_account_by_email("club@uni.example").is_none());
    // The session of the setup resolves.
    assert_eq!(me(&db, Some("session_id=00000000-0000-0000-0000-000000000002"), NOW + 4).unwrap().account_id, account.id);
    // The password of the setup signs in.
    assert!(login(&mut db, &LoginRequest { email: "new@uni.example".to_string(), password: CLUB_PASSWORD.to_string() }, true, NOW + 5, 3).is_ok());
}

#[test]
fn setup_with_weak_password_changes_nothing() {
    let mut db = fresh();
    invite_club(&mut db, "club-token");
    assert_eq!(
        validation(init_account(&mut db, &init_request("club-token", "club@uni.example", "short"), true, NOW, 2, SALT)),
        "password must be at least 20 characters long"
    );
    assert_eq!(
        validation(init_account(&mut db, &init_request("club-token", "club@uni.example", "Deb4te!-Password-Club-"), true, NOW, 2, SALT)),
        "password is too common or predictable"
    );
    let account = db.find_account_by_email("club@uni.example").unwrap();
    assert_eq!(account.password_hash, None);
    assert_eq!(account.setup_token.as_deref(), Some("club-token"));
    assert!(db.find_session_account(2, NOW).is_none());
}

#[test]
fn setup_with_unusable_salt_fails_to_hash() {
    let mut db = fresh();
    invite_club(&mut db, "club-token");
    assert_eq!(
        validation(init_account(&mut db, &init_request("club-token", "club@uni.example", CLUB_PASSWORD), true, NOW, 2, "")),
        "failed to hash password"
    );
    assert_eq!(validation(hash_new_password(CLUB_PASSWORD, "!!", "Failed to hash password")), "Failed to hash password");
    assert_eq!(validation(hash_new_password("weak", SALT, "x")), "password must be at least 20 characters long");
    assert!(hash_new_password(CLUB_PASSWORD, SALT, "x").unwrap().starts_with("$argon2id$"));
}

#[test]
fn setup_with_taken_address_is_a_conflict() {
    let mut db = fresh();
    invite_club(&mut db, "club-token");
    match init_account(&mut db, &init_request("club-token", "root@uni.example", CLUB_PASSWORD), true, NOW, 2, SALT) {
        Err(e) => assert_eq!(e.status_code(), 409),
        Ok(_) => panic!("the address was stored twice"),
    }
    assert_eq!(db.find_account_by_email("club@uni.example").unwrap().password_hash, None);
}

#[test]
fn token_is_redeemed_once() {
    let mut db = fresh();
    invite_club(&mut db, "club-token");
    // Two requests read the invitation before either of them writes.
    let first = ensure_pending_setup_token(&db, "club-token", NOW).unwrap();
    let second = ensure_pending_setup_token(&db, "club-token", NOW).unwrap();
    let hash = hash_new_password(CLUB_PASSWORD, SALT, "failed to hash password").unwrap();
    let won = redeem_setup_token(&mut db, first, "club-token", "club@uni.example", &hash, 2, "s2", true, NOW);
    assert!(won.is_ok());
    let lost = redeem_setup_token(&mut db, second, "club-token", "intruder@uni.example", &hash, 3, "s3", true, NOW);
    assert_eq!(validation(lost), "account already initialized");
    // The loser left no trace: no session, and the account of the winner is as it was.
    assert!(db.find_session_account(3, NOW).is_none());
    assert!(db.find_session_account(2, NOW).is_some());
    let account = db.find_account_by_email("club@uni.example").unwrap();
    assert_eq!(account.password_hash.as_deref(), Some(hash.as_str()));
    assert!(db.find_account_by_email("intruder@uni.example").is_none());
    // A later request does not even find the invitation.
    assert_eq!(
        validation(init_account(&mut db, &init_request("club-token", "club@uni.example", CLUB_PASSWORD), true, NOW, 4, SALT)),
        "invalid setup token"
    );
}

#[test]
fn completion_is_decided_by_rows_changed() {
    assert_eq!(validation(setup_completed(0)), "account already initialized");
    assert!(setup_completed(1).is_ok());
    assert!(setup_completed(2).is_ok());
}

fn row(password_hash: Option<&str>, expires: Option<i64>) -> Account {
    Account {
        id: 4,
        account_type: AccountType::Organizer,
        organizer_id: Some(9),
        display_name: "Debate Club".to_string(),
        email: Some("club@uni.example".to_string()),
        password_hash: password_hash.map(|s| s.to_string()),
        setup_token: Some("t".to_string()),
        setup_token_expires_at: expires,
        created_at: NOW,
        updated_at: NOW,
    }
}

#[test]
fn pending_setup_is_decided_from_the_row() {
    let pending: PendingSetupToken = pending_setup(Some(row(None, Some(NOW + 1))), NOW).unwrap();
    assert_eq!(pending.account_id, 4);
    assert_eq!(pending.display_name, "Debate Club");
    assert_eq!(pending.account_type, AccountType::Organizer);
    assert_eq!(pending.organizer_id, Some(9));
    // Unknown, expired and used tokens all fail alike.
    assert_eq!(validation(pending_setup(None, NOW)), "invalid setup token");
    assert_eq!(validation(pending_setup(Some(row(None, Some(NOW))), NOW)), "invalid setup token");
    assert_eq!(validation(pending_setup(Some(row(None, None)), NOW)), "invalid setup token");
    assert_eq!(validation(pending_setup(Some(row(Some("h"), Some(NOW + 1))), NOW)), "invalid setup token");
    assert_eq!(validation(pending_setup(Some(row(Some("h"), Some(NOW))), NOW)), "invalid setup token");
}

#[test]
fn organizer_gets_fresh_token() {
    let mut db = fresh();
    invite_club(&mut db, "club-token");
    let response = generate_setup_token(&mut db, Some(ADMIN_COOKIE), 1, NOW + 5, "fresh-token".to_string()).unwrap();
    assert_eq!(response.setup_token, "fresh-token");
    let account = db.find_account_by_email("club@uni.example").unwrap();
    assert_eq!(account.setup_token.as_deref(), Some("fresh-token"));
    assert_eq!(account.setup_token_expires_at, Some(NOW + WEEK + 5));
    assert_eq!(account.updated_at, NOW + 5);
    // The old token is gone, the new one works, and for longer than the old one did.
    assert!(ensure_pending_setup_token(&db, "club-token", NOW + 6).is_err());
    assert!(ensure_pending_setup_token(&db, "fresh-token", NOW + WEEK + 4).is_ok());
    assert!(ensure_pending_setup_token(&db, "fresh-token", NOW + WEEK + 5).is_err());
}

#[test]
fn fresh_token_for_unknown_organizer_is_not_found() {
    let mut db = fresh();
    match generate_setup_token(&mut db, Some(ADMIN_COOKIE), 42, NOW, "fresh-token".to_string()) {
        Err(AppError::NotFound { message }) => assert_eq!(message, "Organizer account not found"),
        other => panic!("unexpected {:?}", other),
    }
}

#[test]
fn organizer_reissues_only_its_own_token() {
    let mut db = fresh();
    invite_club(&mut db, "club-token");
    create_organizer(
        &mut db,
        Some(ADMIN_COOKIE),
        &CreateOrganizerRequest { name: "Chess Club".to_string(), email: "chess@uni.example".to_string() },
        NOW,
        "chess-token".to_string(),
    )
    .unwrap();
    init_account(&mut db, &init_request("club-token", "club@uni.example", CLUB_PASSWORD), true, NOW, 2, SALT).unwrap();
    let club_cookie = "session_id=00000000-0000-0000-0000-000000000002";
    assert_eq!(
        refused(generate_setup_token(&mut db, Some(club_cookie), 2, NOW, "stolen".to_string())),
        "cannot generate token for another organizer"
    );
    assert_eq!(db.find_account_by_email("chess@uni.example").unwrap().setup_token.as_deref(), Some("chess-token"));
    create_organizer(
        &mut db,
        Some(ADMIN_COOKIE),
        &CreateOrganizerRequest { name: "Go Club".to_string(), email: "go@uni.example".to_string() },
        NOW,
        "go-token".to_string(),
    )
    .unwrap();
    // A token that another account carries is refused.
    match generate_setup_token(&mut db, Some(ADMIN_COOKIE), 2, NOW, "go-token".to_string()) {
        Err(e) => assert_eq!(e.status_code(), 409),
        Ok(_) => panic!("the token was stored twice"),
    }
    assert_eq!(db.find_account_by_email("chess@uni.example").unwrap().setup_token.as_deref(), Some("chess-token"));
    assert!(generate_setup_token(&mut db, Some(ADMIN_COOKIE), 2, NOW, "chess-2".to_string()).is_ok());
    assert_eq!(db.find_account_by_email("chess@uni.example").unwrap().setup_token.as_deref(), Some("chess-2"));
}

#[test]
fn initialized_account_gets_no_setup_token_again() {
    let mut db = fresh();
    invite_club(&mut db, "club-token");
    init_account(&mut db, &init_request("club-token", "club@uni.example", CLUB_PASSWORD), true, NOW, 2, SALT).unwrap();
    let before = db.find_account_by_email("club@uni.example").unwrap();
    assert!(before.password_hash.is_some());
    assert_eq!(before.setup_token, None);
    let club_cookie = "session_id=00000000-0000-0000-0000-000000000002";
    // Neither the organizer itself nor an administrator can bring the token back.
    assert_eq!(
        validation(generate_setup_token(&mut db, Some(club_cookie), 1, NOW + 1, "own".to_string())),
        "account already initialized"
    );
    assert_eq!(
        validation(generate_setup_token(&mut db, Some(ADMIN_COOKIE), 1, NOW + 1, "again".to_string())),
        "account already initialized"
    );
    let after = db.find_account_by_email("club@uni.example").unwrap();
    assert_eq!(after.setup_token, None);
    assert_eq!(after.setup_token_expires_at, None);
    assert_eq!(after.password_hash, before.password_hash);
    assert_eq!(after.updated_at, before.updated_at);
    assert!(ensure_pending_setup_token(&db, "own", NOW + 1).is_err());
    assert!(ensure_pending_setup_token(&db, "again", NOW + 1).is_err());
}

#[test]
fn zero_rows_of_a_reissue_are_told_apart_by_the_account() {
    assert!(setup_token_reissued(1, None).is_ok());
    match setup_token_reissued(0, None) {
        Err(AppError::NotFound { message }) => assert_eq!(message, "Organizer account not found"),
        other => panic!("unexpected {:?}", other),
    }
    let mut db = fresh();
    invite_club(&mut db, "club-token");
    let account = db.find_account_of_organizer(1);
    assert!(account.is_some());
    assert_eq!(validation(setup_token_reissued(0, account)), "account already initialized");
}

#[test]
fn permissions_are_granted_by_admins() {
    let mut db = fresh();
    invite_club(&mut db, "club-token");
    let entry = update_organizer_permissions(
        &mut db,
        Some(ADMIN_COOKIE),
        1,
        &UpdateOrganizerPermissionsRequest { newsletter: true },
        NOW + 9,
    )
    .unwrap();
    assert_eq!(entry.id, 1);
    assert_eq!(entry.name, "Debate Club");
    assert_eq!(entry.email.as_deref(), Some("club@uni.example"));
    assert_eq!(entry.invite_status, InviteStatus::Pending);
    assert_eq!(entry.invite_expires_at, Some(NOW + WEEK));
    assert_eq!(entry.updated_at, NOW + 9);
    assert_eq!(db.organizer_newsletter(1), Some(true));
    let outcome = init_account(&mut db, &init_request("club-token", "club@uni.example", CLUB_PASSWORD), true, NOW, 2, SALT).unwrap();
    assert!(outcome.response.body.can_access_newsletter);
    match update_organizer_permissions(&mut db, Some(ADMIN_COOKIE), 5, &UpdateOrganizerPermissionsRequest { newsletter: true }, NOW) {
        Err(AppError::NotFound { message }) => assert_eq!(message, "Organizer not found"),
        other => panic!("unexpected {:?}", other),
    }
    assert_eq!(
        refused(update_organizer_permissions(
            &mut db,
            Some("session_id=00000000-0000-0000-0000-000000000002"),
            1,
            &UpdateOrganizerPermissionsRequest { newsletter: false },
            NOW,
        )),
        "insufficient permissions"
    );
    assert_eq!(db.organizer_newsletter(1), Some(true));
}

#[test]
fn of_many_attempts_with_one_token_one_wins() {
    let mut db = fresh();
    invite_club(&mut db, "club-token");
    init_account(&mut db, &init_request("club-token", "club@uni.example", CLUB_PASSWORD), true, NOW, 2, SALT).unwrap();
    let won = db.find_account_by_email("club@uni.example").unwrap();
    for k in 0..5u128 {
        let email = format!("other{}@uni.example", k);
        let attempt = init_account(&mut db, &init_request("club-token", &email, CLUB_PASSWORD), true, NOW + 1, 10 + k, SALT);
        match attempt {
            Err(AppError::Validation(message)) => assert_eq!(message, "invalid setup token"),
            other => panic!("unexpected {:?}", other.map(|o| o.response.status)),
        }
        assert!(db.find_account_by_email(&email).is_none());
        assert!(db.find_session_account(10 + k, NOW + 1).is_none());
    }
    let after = db.find_account_by_email("club@uni.example").unwrap();
    assert_eq!(after.password_hash, won.password_hash);
    assert_eq!(after.updated_at, won.updated_at);
    assert_eq!(db.find_session_account(2, NOW + 1).unwrap().id, won.id);
}

#[test]
fn principals_have_an_organizer_exactly_when_they_are_no_admin() {
    let mut db = fresh();
    invite_club(&mut db, "club-token");
    init_account(&mut db, &init_request("club-token", "club@uni.example", CLUB_PASSWORD), true, NOW, 2, SALT).unwrap();
    let admin = campus_life_events::shared::current_user_from_headers(Some(ADMIN_COOKIE), &db, NOW).unwrap();
    assert!(admin.is_admin());
    assert_eq!(admin.organizer_id(), None);
    let club = campus_life_events::shared::current_user_from_headers(
        Some("session_id=00000000-0000-0000-0000-000000000002"),
        &db,
        NOW,
    )
    .unwrap();
    assert!(!club.is_admin());
    assert_eq!(club.organizer_id(), Some(1));
}
