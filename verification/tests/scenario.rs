use campus_life_events::auth::{
    change_password, init_account, login, lookup_setup_token, me, InitAccountOutcome,
    Notification,
};
use campus_life_events::dto::{
    ChangePasswordRequest, CreateOrganizerRequest, InitAccountRequest, LoginRequest,
    SetupTokenLookupRequest,
};
use campus_life_events::error::AppError;
use campus_life_events::models::AccountType;
use campus_life_events::organizers::create_organizer;
use campus_life_events::sources::{new_salt, new_session_id};
use campus_life_events::store::Database;

const NOW: i64 = 1_700_000_000_000_000;
const WEEK: i64 = 604_800_000_000;

fn cookie_header(set_cookie: &str) -> String {
    set_cookie.split(';').next().unwrap().to_string()
}

fn seeded_admin(db: &mut Database) -> String {
    db.insert_account(
        AccountType::Admin,
        None,
        "Root".to_string(),
        "root@uni.example".to_string(),
        "admin-token".to_string(),
        NOW + WEEK,
        NOW,
    )
    .unwrap();
    let outcome = init_account(
        db,
        &InitAccountRequest {
            token: "admin-token".to_string(),
            email: "root@uni.example".to_string(),
            password: "Adm1n!-Lantern-Quartz-77".to_string(),
        },
        true,
        NOW,
        new_session_id(),
        &new_salt(),
    )
    .unwrap();
    cookie_header(&outcome.response.set_cookie)
}

#[test]
fn invited_organizer_sets_up_and_rotates_sessions() {
    let mut db = Database::new();
    let admin_cookie = seeded_admin(&mut db);

    let invitation = create_organizer(
        &mut db,
        Some(&admin_cookie),
        &CreateOrganizerRequest {
            name: "Debate Club".to_string(),
            email: "club@uni.example".to_string(),
        },
        NOW + 1,
        "c2V0dXAtdG9rZW4tZm9yLWRlYmF0ZS1jbHVi+/A=".to_string(),
    )
    .unwrap();
    assert_eq!(invitation.status, 201);
    assert_eq!(invitation.body.setup_token, "c2V0dXAtdG9rZW4tZm9yLWRlYmF0ZS1jbHVi+/A=");
    match &invitation.email {
        Notification::OrganizerInvite { recipient, organizer_name, setup_token } => {
            assert_eq!(recipient, "club@uni.example");
            assert_eq!(organizer_name, "Debate Club");
            assert_eq!(setup_token, &invitation.body.setup_token);
        }
        other => panic!("unexpected mail {:?}", other),
    }

    let info = lookup_setup_token(
        &db,
        &SetupTokenLookupRequest { token: invitation.body.setup_token.clone() },
        NOW + 2,
    )
    .unwrap();
    assert_eq!(info.account_name, "Debate Club");
    assert_eq!(info.account_type, AccountType::Organizer);

    let first_password = "Deb4te!-Club-Opens-Doors";
    let InitAccountOutcome { response, welcome } = init_account(
        &mut db,
        &InitAccountRequest {
            token: invitation.body.setup_token.clone(),
            email: "club@uni.example".to_string(),
            password: first_password.to_string(),
        },
        true,
        NOW + 3,
        new_session_id(),
        &new_salt(),
    )
    .unwrap();
    assert_eq!(response.status, 200);
    assert_eq!(response.body.display_name, "Debate Club");
    assert_eq!(response.body.account_type, AccountType::Organizer);
    assert!(response.body.organizer_id.is_some());
    assert!(!response.body.can_access_newsletter);
    assert!(response.set_cookie.starts_with("session_id="));
    assert!(response.set_cookie.ends_with("; Path=/; HttpOnly; SameSite=Lax; Secure; Max-Age=86400"));
    match welcome {
        Notification::Welcome { recipient, display_name, account_type } => {
            assert_eq!(recipient, "club@uni.example");
            assert_eq!(display_name, "Debate Club");
            assert_eq!(account_type, "Organizer");
        }
        other => panic!("unexpected mail {:?}", other),
    }
    let session = cookie_header(&response.set_cookie);
    let seen = me(&db, Some(&session), NOW + 4).unwrap();
    assert_eq!(seen.account_id, response.body.account_id);

    // The token is spent.
    match lookup_setup_token(
        &db,
        &SetupTokenLookupRequest { token: invitation.body.setup_token.clone() },
        NOW + 4,
    ) {
        Err(AppError::Validation(message)) => assert_eq!(message, "invalid setup token"),
        other => panic!("unexpected {:?}", other),
    }

    let second_password = "N3w!-Debate-Club-Secret-";
    let status = change_password(
        &mut db,
        Some(&session),
        &ChangePasswordRequest {
            current_password: first_password.to_string(),
            new_password: second_password.to_string(),
        },
        NOW + 5,
        &new_salt(),
    )
    .unwrap();
    assert_eq!(status, 204);

    // The old session is gone.
    match me(&db, Some(&session), NOW + 6) {
        Err(e) => {
            assert_eq!(e.status_code(), 401);
            assert_eq!(e.message(), "invalid or expired session");
        }
        Ok(_) => panic!("the old session still resolves"),
    }
    match change_password(
        &mut db,
        Some(&session),
        &ChangePasswordRequest {
            current_password: first_password.to_string(),
            new_password: "An0ther!-Debate-Secret--".to_string(),
        },
        NOW + 7,
        &new_salt(),
    ) {
        Err(e) => assert_eq!(e.status_code(), 401),
        Ok(_) => panic!("a revoked session changed the password"),
    }

    // With a new session the old password is no longer the current one.
    let fresh = login(
        &mut db,
        &LoginRequest { email: "club@uni.example".to_string(), password: second_password.to_string() },
        true,
        NOW + 8,
        new_session_id(),
    )
    .unwrap();
    let fresh_session = cookie_header(&fresh.set_cookie);
    match change_password(
        &mut db,
        Some(&fresh_session),
        &ChangePasswordRequest {
            current_password: first_password.to_string(),
            new_password: "An0ther!-Debate-Secret--".to_string(),
        },
        NOW + 9,
        &new_salt(),
    ) {
        Err(AppError::Unauthorized(message)) => assert_eq!(message, "invalid current password"),
        other => panic!("unexpected {:?}", other),
    }
    assert!(me(&db, Some(&fresh_session), NOW + 10).is_ok());
}
