//! The mathematical model of the stored state: the tables as sequences of
//! rows, the constraints that always hold of them, and what each statement
//! makes of them.
use vstd::prelude::*;
use crate::dto::{CreateEventRequestView, UpdateEventRequestView, UpdateOrganizerRequestView};
use crate::error::DbErrorView;
use crate::models::{
    AccountType, AccountView, AuditLogEntryView, AuditType, EventView, OrganizerView,
    PasswordResetTokenView, Session,
};
use crate::seqs::{
    any_match, first_match, lemma_any_match_members, lemma_filter_members, lemma_map_members,
    lemma_push_members,
};

verus! {

/// The tables and the counters that number new rows.
pub struct DatabaseView {
    pub accounts: Seq<AccountView>,
    pub organizers: Seq<OrganizerView>,
    pub sessions: Seq<Session>,
    pub reset_tokens: Seq<PasswordResetTokenView>,
    pub events: Seq<EventView>,
    pub audit_log: Seq<AuditLogEntryView>,
    pub next_account_id: i64,
    pub next_organizer_id: i64,
    pub next_reset_token_id: i64,
    pub next_event_id: i64,
    pub next_audit_id: i64,
}

/// The state before anything was stored.
pub open spec fn empty_database() -> DatabaseView {
    DatabaseView {
        accounts: Seq::empty(),
        organizers: Seq::empty(),
        sessions: Seq::empty(),
        reset_tokens: Seq::empty(),
        events: Seq::empty(),
        audit_log: Seq::empty(),
        next_account_id: 1,
        next_organizer_id: 1,
        next_reset_token_id: 1,
        next_event_id: 1,
        next_audit_id: 1,
    }
}

pub open spec fn has_account_id(id: i64) -> spec_fn(AccountView) -> bool {
    |a: AccountView| a.id == id
}

pub open spec fn has_email(email: Seq<char>) -> spec_fn(AccountView) -> bool {
    |a: AccountView| a.email == Some(email)
}

pub open spec fn has_setup_token(token: Seq<char>) -> spec_fn(AccountView) -> bool {
    |a: AccountView| a.setup_token == Some(token)
}

/// The account that was invited for an organizer.
pub open spec fn is_account_of_organizer(organizer_id: i64) -> spec_fn(AccountView) -> bool {
    |a: AccountView| a.organizer_id == Some(organizer_id) && a.account_type == AccountType::Organizer
}

/// The account of an organizer that still awaits its setup: it has no
/// password yet.
pub open spec fn is_pending_account_of_organizer(organizer_id: i64) -> spec_fn(AccountView) -> bool {
    |a: AccountView| is_account_of_organizer(organizer_id)(a) && a.password_hash is None
}

/// The account that can still redeem `token`: it carries the token and has no
/// password yet.
pub open spec fn awaits_setup(id: i64, token: Seq<char>) -> spec_fn(AccountView) -> bool {
    |a: AccountView| a.id == id && a.setup_token == Some(token) && a.password_hash is None
}

pub open spec fn has_account_type(account_type: AccountType) -> spec_fn(AccountView) -> bool {
    |a: AccountView| a.account_type == account_type
}

pub open spec fn has_organizer_id(id: i64) -> spec_fn(OrganizerView) -> bool {
    |o: OrganizerView| o.id == id
}

pub open spec fn has_event_id(id: i64) -> spec_fn(EventView) -> bool {
    |e: EventView| e.id == id
}

pub open spec fn has_session_id(id: u128) -> spec_fn(Session) -> bool {
    |s: Session| s.id == id
}

/// A session with the given identifier that has not expired at `now`.
pub open spec fn is_live_session(id: u128, now: i64) -> spec_fn(Session) -> bool {
    |s: Session| s.id == id && s.expires_at > now
}

pub open spec fn is_other_session(id: u128) -> spec_fn(Session) -> bool {
    |s: Session| s.id != id
}

pub open spec fn belongs_to_other_account(account_id: i64) -> spec_fn(Session) -> bool {
    |s: Session| s.account_id != account_id
}

pub open spec fn has_reset_token(token: Seq<char>) -> spec_fn(PasswordResetTokenView) -> bool {
    |t: PasswordResetTokenView| t.token == token
}

/// A reset token that can be redeemed at `now`: it carries the text, has not
/// expired and was never used.
pub open spec fn is_usable_reset_token(token: Seq<char>, now: i64) -> spec_fn(
    PasswordResetTokenView,
) -> bool {
    |t: PasswordResetTokenView| t.token == token && t.expires_at > now && t.used_at is None
}

/// A reset token that a new request leaves in place: one of another account, or
/// one that was used.
pub open spec fn survives_new_request(account_id: i64) -> spec_fn(PasswordResetTokenView) -> bool {
    |t: PasswordResetTokenView| !(t.account_id == account_id && t.used_at is None)
}

/// Whether a role and an organizer agree: an account has an organizer exactly
/// when it is the account of an organizer.
pub open spec fn role_agrees_with(account_type: AccountType, organizer_id: Option<i64>) -> bool {
    account_type == AccountType::Organizer <==> organizer_id is Some
}

/// Whether the role of an account agrees with its organizer.
pub open spec fn role_agrees(a: AccountView) -> bool {
    role_agrees_with(a.account_type, a.organizer_id)
}

/// The constraints of the schema: accounts are told apart by their number, by
/// their e-mail address and by their setup token, and are numbered below the
/// counter; sessions are told apart by their identifier; reset tokens by their
/// text; an account has an organizer exactly when it is the account of an
/// organizer; and every session belongs to an account that exists.
pub open spec fn wf(db: DatabaseView) -> bool {
    &&& forall|a: AccountView| #[trigger] db.accounts.contains(a) ==> a.id < db.next_account_id
    &&& forall|a: AccountView, b: AccountView|
        #![trigger db.accounts.contains(a), db.accounts.contains(b)]
        db.accounts.contains(a) && db.accounts.contains(b) && a.id == b.id ==> a == b
    &&& forall|a: AccountView, b: AccountView|
        #![trigger db.accounts.contains(a), db.accounts.contains(b)]
        db.accounts.contains(a) && db.accounts.contains(b) && a.email is Some && a.email == b.email
            ==> a == b
    &&& forall|a: AccountView, b: AccountView|
        #![trigger db.accounts.contains(a), db.accounts.contains(b)]
        db.accounts.contains(a) && db.accounts.contains(b) && a.setup_token is Some
            && a.setup_token == b.setup_token ==> a == b
    &&& forall|s: Session, t: Session|
        #![trigger db.sessions.contains(s), db.sessions.contains(t)]
        db.sessions.contains(s) && db.sessions.contains(t) && s.id == t.id ==> s == t
    &&& forall|s: PasswordResetTokenView, t: PasswordResetTokenView|
        #![trigger db.reset_tokens.contains(s), db.reset_tokens.contains(t)]
        db.reset_tokens.contains(s) && db.reset_tokens.contains(t) && s.token == t.token ==> s == t
    &&& references_hold(db)
}

/// No initialized account carries a setup token.
pub open spec fn tokens_cleared(db: DatabaseView) -> bool {
    forall|a: AccountView| #[trigger]
        db.accounts.contains(a) && a.password_hash is Some ==> a.setup_token is None
}

/// What the life cycle of accounts maintains: no initialized account carries
/// a setup token, and reset tokens exist only for initialized accounts that
/// were stored before.
pub open spec fn accounts_settled(db: DatabaseView) -> bool {
    &&& tokens_cleared(db)
    &&& forall|t: PasswordResetTokenView, a: AccountView|
        #![trigger db.reset_tokens.contains(t), db.accounts.contains(a)]
        db.reset_tokens.contains(t) && db.accounts.contains(a) && a.id == t.account_id
            ==> a.password_hash is Some
    &&& forall|t: PasswordResetTokenView| #[trigger]
        db.reset_tokens.contains(t) ==> t.account_id < db.next_account_id
}

/// Whether each account has at most one reset token that was never used.
pub open spec fn one_unused_reset_token(db: DatabaseView) -> bool {
    forall|s: PasswordResetTokenView, t: PasswordResetTokenView|
        #![trigger db.reset_tokens.contains(s), db.reset_tokens.contains(t)]
        db.reset_tokens.contains(s) && db.reset_tokens.contains(t) && s.account_id == t.account_id
            && s.used_at is None && t.used_at is None ==> s == t
}

/// The failure of a statement that would store a value twice where the schema
/// allows it once.
pub open spec fn unique_violation() -> DbErrorView {
    DbErrorView::Database {
        code: Some("23505"@),
        message: "duplicate key value violates unique constraint"@,
    }
}

/// The failure of a statement whose row breaks a rule of its table.
pub open spec fn check_violation() -> DbErrorView {
    DbErrorView::Database {
        code: Some("23514"@),
        message: "new row violates check constraint"@,
    }
}

/// The failure of a statement that refers to a row that is not there.
pub open spec fn foreign_key_violation() -> DbErrorView {
    DbErrorView::Database {
        code: Some("23503"@),
        message: "insert or update violates foreign key constraint"@,
    }
}

/// The failure of an insertion when the counter of its table is used up.
pub open spec fn sequence_exhausted() -> DbErrorView {
    DbErrorView::Database {
        code: Some("2200H"@),
        message: "nextval: reached maximum value of sequence"@,
    }
}

/// The account a new invitation stores.
pub open spec fn invited_account(
    id: i64,
    account_type: AccountType,
    organizer_id: Option<i64>,
    display_name: Seq<char>,
    email: Seq<char>,
    token: Seq<char>,
    expires_at: i64,
    now: i64,
) -> AccountView {
    AccountView {
        id,
        account_type,
        organizer_id,
        display_name,
        email: Some(email),
        password_hash: None,
        setup_token: Some(token),
        setup_token_expires_at: Some(expires_at),
        created_at: now,
        updated_at: now,
    }
}

/// Why an invitation cannot be stored, if it cannot: the address or the token
/// belongs to an account already, or the counter is used up.
pub open spec fn invitation_refusal(db: DatabaseView, email: Seq<char>, token: Seq<char>) -> Option<
    DbErrorView,
> {
    if any_match(db.accounts, has_email(email)) || any_match(db.accounts, has_setup_token(token)) {
        Some(unique_violation())
    } else if db.next_account_id == i64::MAX {
        Some(sequence_exhausted())
    } else {
        None
    }
}

/// Storing an invitation: the new account is appended under the next number.
/// A role that does not agree with the organizer is refused.
pub open spec fn insert_account(
    db: DatabaseView,
    account_type: AccountType,
    organizer_id: Option<i64>,
    display_name: Seq<char>,
    email: Seq<char>,
    token: Seq<char>,
    expires_at: i64,
    now: i64,
) -> (DatabaseView, Result<i64, DbErrorView>) {
    if !role_agrees_with(account_type, organizer_id) {
        (db, Err(check_violation()))
    } else {
        insert_checked_account(
            db,
            account_type,
            organizer_id,
            display_name,
            email,
            token,
            expires_at,
            now,
        )
    }
}

/// Storing an invitation whose role agrees with its organizer.
pub open spec fn insert_checked_account(
    db: DatabaseView,
    account_type: AccountType,
    organizer_id: Option<i64>,
    display_name: Seq<char>,
    email: Seq<char>,
    token: Seq<char>,
    expires_at: i64,
    now: i64,
) -> (DatabaseView, Result<i64, DbErrorView>) {
    match invitation_refusal(db, email, token) {
        Some(e) => (db, Err(e)),
        None => (
            DatabaseView {
                accounts: db.accounts.push(
                    invited_account(
                        db.next_account_id,
                        account_type,
                        organizer_id,
                        display_name,
                        email,
                        token,
                        expires_at,
                        now,
                    ),
                ),
                next_account_id: (db.next_account_id + 1) as i64,
                ..db
            },
            Ok(db.next_account_id),
        ),
    }
}

/// An account after its setup: address and password are set, the token and its
/// expiry are gone.
pub open spec fn completed(a: AccountView, email: Seq<char>, password_hash: Seq<char>, now: i64) -> AccountView {
    AccountView {
        email: Some(email),
        password_hash: Some(password_hash),
        setup_token: None,
        setup_token_expires_at: None,
        updated_at: now,
        ..a
    }
}

/// Whether another account than `id` has the address.
pub open spec fn email_taken_by_other(db: DatabaseView, id: i64, email: Seq<char>) -> bool {
    exists|i: int|
        0 <= i < db.accounts.len() && (#[trigger] db.accounts[i]).email == Some(email)
            && db.accounts[i].id != id
}

/// Completing a setup in one conditional statement: the account `id` is
/// initialized if it still carries `token` and has no password. The result
/// counts the rows changed, which is zero where the token was redeemed before.
pub open spec fn complete_setup(
    db: DatabaseView,
    id: i64,
    token: Seq<char>,
    email: Seq<char>,
    password_hash: Seq<char>,
    now: i64,
) -> (DatabaseView, Result<nat, DbErrorView>) {
    if !any_match(db.accounts, awaits_setup(id, token)) {
        (db, Ok(0nat))
    } else if email_taken_by_other(db, id, email) {
        (db, Err(unique_violation()))
    } else {
        (
            DatabaseView {
                accounts: db.accounts.map_values(
                    |a: AccountView|
                        if awaits_setup(id, token)(a) {
                            completed(a, email, password_hash, now)
                        } else {
                            a
                        },
                ),
                ..db
            },
            Ok(db.accounts.filter(awaits_setup(id, token)).len()),
        )
    }
}

/// Setting a new password for the account `id`.
pub open spec fn set_password(db: DatabaseView, id: i64, password_hash: Seq<char>, now: i64) -> DatabaseView {
    DatabaseView {
        accounts: db.accounts.map_values(
            |a: AccountView|
                if a.id == id {
                    AccountView { password_hash: Some(password_hash), updated_at: now, ..a }
                } else {
                    a
                },
        ),
        ..db
    }
}

/// Whether an account other than the pending one of the organizer carries the
/// token.
pub open spec fn token_taken_by_other(db: DatabaseView, organizer_id: i64, token: Seq<char>) -> bool {
    exists|i: int|
        0 <= i < db.accounts.len() && (#[trigger] db.accounts[i]).setup_token == Some(token)
            && !is_pending_account_of_organizer(organizer_id)(db.accounts[i])
}

/// Issuing a fresh setup token to the account of an organizer, if it has no
/// password yet: an initialized account is not changed. The result counts the
/// rows changed.
pub open spec fn reissue_setup_token(
    db: DatabaseView,
    organizer_id: i64,
    token: Seq<char>,
    expires_at: i64,
    now: i64,
) -> (DatabaseView, Result<nat, DbErrorView>) {
    let rows = db.accounts.filter(is_pending_account_of_organizer(organizer_id)).len();
    if rows == 0 {
        (db, Ok(0nat))
    } else if rows > 1 || token_taken_by_other(db, organizer_id, token) {
        (db, Err(unique_violation()))
    } else {
        (
            DatabaseView {
                accounts: db.accounts.map_values(
                    |a: AccountView|
                        if is_pending_account_of_organizer(organizer_id)(a) {
                            AccountView {
                                setup_token: Some(token),
                                setup_token_expires_at: Some(expires_at),
                                updated_at: now,
                                ..a
                            }
                        } else {
                            a
                        },
                ),
                ..db
            },
            Ok(rows),
        )
    }
}

/// Storing a session. It is refused where the identifier is in use or the
/// account does not exist.
pub open spec fn insert_session(db: DatabaseView, session: Session) -> (DatabaseView, Result<(), DbErrorView>) {
    if any_match(db.sessions, has_session_id(session.id)) {
        (db, Err(unique_violation()))
    } else if !any_match(db.accounts, has_account_id(session.account_id)) {
        (db, Err(foreign_key_violation()))
    } else {
        (DatabaseView { sessions: db.sessions.push(session), ..db }, Ok(()))
    }
}

/// The account a session identifier stands for at `now`.
pub open spec fn session_account(db: DatabaseView, id: u128, now: i64) -> Option<AccountView> {
    match first_match(db.sessions, is_live_session(id, now)) {
        Some(s) => first_match(db.accounts, has_account_id(s.account_id)),
        None => None,
    }
}

/// Removing the session with the given identifier.
pub open spec fn delete_session(db: DatabaseView, id: u128) -> DatabaseView {
    DatabaseView { sessions: db.sessions.filter(is_other_session(id)), ..db }
}

/// Removing every session of an account.
pub open spec fn delete_sessions_of(db: DatabaseView, account_id: i64) -> DatabaseView {
    DatabaseView { sessions: db.sessions.filter(belongs_to_other_account(account_id)), ..db }
}

/// Removing the reset tokens of an account that were never used.
pub open spec fn delete_unused_reset_tokens(db: DatabaseView, account_id: i64) -> DatabaseView {
    DatabaseView { reset_tokens: db.reset_tokens.filter(survives_new_request(account_id)), ..db }
}

/// Storing a reset token. It is refused where the text is in use or the
/// counter is used up.
pub open spec fn insert_reset_token(
    db: DatabaseView,
    account_id: i64,
    token: Seq<char>,
    expires_at: i64,
    now: i64,
) -> (DatabaseView, Result<i64, DbErrorView>) {
    if any_match(db.reset_tokens, has_reset_token(token)) {
        (db, Err(unique_violation()))
    } else if db.next_reset_token_id == i64::MAX {
        (db, Err(sequence_exhausted()))
    } else {
        (
            DatabaseView {
                reset_tokens: db.reset_tokens.push(
                    PasswordResetTokenView {
                        id: db.next_reset_token_id,
                        account_id,
                        token,
                        expires_at,
                        used_at: None,
                        created_at: now,
                    },
                ),
                next_reset_token_id: (db.next_reset_token_id + 1) as i64,
                ..db
            },
            Ok(db.next_reset_token_id),
        )
    }
}

/// The reset token `id`, as long as it was never used.
pub open spec fn is_unused_reset_token(id: i64) -> spec_fn(PasswordResetTokenView) -> bool {
    |t: PasswordResetTokenView| t.id == id && t.used_at is None
}

/// The number of rows that marking the reset token `id` as used changes: none
/// where the token is unknown or was used before.
pub open spec fn unused_reset_token_rows(db: DatabaseView, id: i64) -> nat {
    db.reset_tokens.filter(is_unused_reset_token(id)).len()
}

/// Marking the reset token `id` as used at `now`, if it was never used: a
/// token that was used keeps the instant of its use.
pub open spec fn mark_reset_token_used(db: DatabaseView, id: i64, now: i64) -> DatabaseView {
    DatabaseView {
        reset_tokens: db.reset_tokens.map_values(
            |t: PasswordResetTokenView|
                if is_unused_reset_token(id)(t) {
                    PasswordResetTokenView { used_at: Some(now), ..t }
                } else {
                    t
                },
        ),
        ..db
    }
}

/// The organizer a new invitation stores.
pub open spec fn new_organizer(id: i64, name: Seq<char>, now: i64) -> OrganizerView {
    OrganizerView {
        id,
        name,
        description_de: None,
        description_en: None,
        website_url: None,
        instagram_url: None,
        location: None,
        linkedin_url: None,
        registration_number: None,
        non_profit: false,
        newsletter: false,
        created_at: now,
        updated_at: now,
    }
}

/// Storing an organizer under the next number.
pub open spec fn insert_organizer(db: DatabaseView, name: Seq<char>, now: i64) -> (
    DatabaseView,
    Result<i64, DbErrorView>,
) {
    if db.next_organizer_id == i64::MAX {
        (db, Err(sequence_exhausted()))
    } else {
        (
            DatabaseView {
                organizers: db.organizers.push(new_organizer(db.next_organizer_id, name, now)),
                next_organizer_id: (db.next_organizer_id + 1) as i64,
                ..db
            },
            Ok(db.next_organizer_id),
        )
    }
}

/// Storing an invited organizer together with its account, in one
/// transaction: where the account cannot be stored, neither is the organizer.
pub open spec fn invite_organizer(
    db: DatabaseView,
    name: Seq<char>,
    email: Seq<char>,
    token: Seq<char>,
    expires_at: i64,
    now: i64,
) -> (DatabaseView, Result<i64, DbErrorView>) {
    let (with_organizer, organizer) = insert_organizer(db, name, now);
    match organizer {
        Err(e) => (db, Err(e)),
        Ok(organizer_id) => {
            let (after, account) = insert_account(
                with_organizer,
                AccountType::Organizer,
                Some(organizer_id),
                name,
                email,
                token,
                expires_at,
                now,
            );
            match account {
                Err(e) => (db, Err(e)),
                Ok(_) => (after, Ok(organizer_id)),
            }
        },
    }
}

/// The organizer with the given number.
pub open spec fn organizer_by_id(db: DatabaseView, id: i64) -> Option<OrganizerView> {
    first_match(db.organizers, has_organizer_id(id))
}

/// The account that was invited for an organizer.
pub open spec fn account_of_organizer(db: DatabaseView, organizer_id: i64) -> Option<AccountView> {
    first_match(db.accounts, is_account_of_organizer(organizer_id))
}

/// The reset token that can be redeemed with `token` at `now`, with the account
/// it was issued to.
pub open spec fn usable_reset_token(db: DatabaseView, token: Seq<char>, now: i64) -> Option<
    (PasswordResetTokenView, AccountView),
> {
    match first_match(db.reset_tokens, is_usable_reset_token(token, now)) {
        Some(t) => match first_match(db.accounts, has_account_id(t.account_id)) {
            Some(a) => Some((t, a)),
            None => None,
        },
        None => None,
    }
}

/// Whether an organizer may read the newsletter data; `None` where there is no
/// such organizer.
pub open spec fn organizer_newsletter(db: DatabaseView, id: i64) -> Option<bool> {
    match first_match(db.organizers, has_organizer_id(id)) {
        Some(o) => Some(o.newsletter),
        None => None,
    }
}

/// Granting or withdrawing the newsletter permission of an organizer.
pub open spec fn set_organizer_newsletter(db: DatabaseView, id: i64, newsletter: bool, now: i64) -> DatabaseView {
    DatabaseView {
        organizers: db.organizers.map_values(
            |o: OrganizerView|
                if o.id == id {
                    OrganizerView { newsletter, updated_at: now, ..o }
                } else {
                    o
                },
        ),
        ..db
    }
}

/// The number of organizers with the given number.
pub open spec fn count_organizers(db: DatabaseView, id: i64) -> nat {
    db.organizers.filter(has_organizer_id(id)).len()
}

/// The event that a request creates for an organizer at `now`.
pub open spec fn new_event(id: i64, organizer_id: i64, r: CreateEventRequestView, now: i64) -> EventView {
    EventView {
        id,
        organizer_id,
        title_de: r.title_de,
        title_en: r.title_en,
        description_de: r.description_de,
        description_en: r.description_en,
        start_date_time: r.start_date_time,
        end_date_time: Some(r.end_date_time),
        event_url: r.event_url,
        location: r.location,
        publish_app: r.publish_app,
        publish_newsletter: r.publish_newsletter,
        publish_in_ical: r.publish_in_ical,
        publish_web: r.publish_web,
        created_at: now,
        updated_at: now,
    }
}

/// Storing an event under the next number. It is refused where the organizer
/// does not exist or the counter is used up.
pub open spec fn insert_event(db: DatabaseView, organizer_id: i64, r: CreateEventRequestView, now: i64) -> (
    DatabaseView,
    Result<EventView, DbErrorView>,
) {
    if !any_match(db.organizers, has_organizer_id(organizer_id)) {
        (db, Err(foreign_key_violation()))
    } else if db.next_event_id == i64::MAX {
        (db, Err(sequence_exhausted()))
    } else {
        (
            DatabaseView {
                events: db.events.push(new_event(db.next_event_id, organizer_id, r, now)),
                next_event_id: (db.next_event_id + 1) as i64,
                ..db
            },
            Ok(new_event(db.next_event_id, organizer_id, r, now)),
        )
    }
}

/// The event with the given number.
pub open spec fn event_by_id(db: DatabaseView, id: i64) -> Option<EventView> {
    first_match(db.events, has_event_id(id))
}

/// The value of a field after a change that may leave it as it is.
pub open spec fn changed<T>(change: Option<T>, current: T) -> T {
    match change {
        Some(v) => v,
        None => current,
    }
}

/// The value of an optional field after a change that may leave it as it is.
pub open spec fn changed_opt<T>(change: Option<T>, current: Option<T>) -> Option<T> {
    match change {
        Some(v) => Some(v),
        None => current,
    }
}

/// An event after a change at `now`: every field that the request names takes
/// the value of the request.
pub open spec fn changed_event(e: EventView, c: UpdateEventRequestView, now: i64) -> EventView {
    EventView {
        id: e.id,
        organizer_id: e.organizer_id,
        title_de: changed(c.title_de, e.title_de),
        title_en: changed(c.title_en, e.title_en),
        description_de: changed_opt(c.description_de, e.description_de),
        description_en: changed_opt(c.description_en, e.description_en),
        start_date_time: changed(c.start_date_time, e.start_date_time),
        end_date_time: changed_opt(c.end_date_time, e.end_date_time),
        event_url: changed_opt(c.event_url, e.event_url),
        location: changed_opt(c.location, e.location),
        publish_app: changed(c.publish_app, e.publish_app),
        publish_newsletter: changed(c.publish_newsletter, e.publish_newsletter),
        publish_in_ical: changed(c.publish_in_ical, e.publish_in_ical),
        publish_web: changed(c.publish_web, e.publish_web),
        created_at: e.created_at,
        updated_at: now,
    }
}

/// Changing the event `id`.
pub open spec fn update_event(db: DatabaseView, id: i64, c: UpdateEventRequestView, now: i64) -> DatabaseView {
    DatabaseView {
        events: db.events.map_values(
            |e: EventView|
                if e.id == id {
                    changed_event(e, c, now)
                } else {
                    e
                },
        ),
        ..db
    }
}

/// An organizer after a change at `now`: every field that the request names
/// takes the value of the request.
pub open spec fn changed_organizer(o: OrganizerView, c: UpdateOrganizerRequestView, now: i64) -> OrganizerView {
    OrganizerView {
        id: o.id,
        name: changed(c.name, o.name),
        description_de: changed_opt(c.description_de, o.description_de),
        description_en: changed_opt(c.description_en, o.description_en),
        website_url: changed_opt(c.website_url, o.website_url),
        instagram_url: changed_opt(c.instagram_url, o.instagram_url),
        location: changed_opt(c.location, o.location),
        linkedin_url: changed_opt(c.linkedin_url, o.linkedin_url),
        registration_number: changed_opt(c.registration_number, o.registration_number),
        non_profit: changed(c.non_profit, o.non_profit),
        newsletter: o.newsletter,
        created_at: o.created_at,
        updated_at: now,
    }
}

/// Changing the organizer `id`.
pub open spec fn update_organizer(db: DatabaseView, id: i64, c: UpdateOrganizerRequestView, now: i64) -> DatabaseView {
    DatabaseView {
        organizers: db.organizers.map_values(
            |o: OrganizerView|
                if o.id == id {
                    changed_organizer(o, c, now)
                } else {
                    o
                },
        ),
        ..db
    }
}

pub open spec fn is_other_event(id: i64) -> spec_fn(EventView) -> bool {
    |e: EventView| e.id != id
}

/// Removing the event `id`.
pub open spec fn delete_event(db: DatabaseView, id: i64) -> DatabaseView {
    DatabaseView { events: db.events.filter(is_other_event(id)), ..db }
}

/// The entry that records a change at `now`.
pub open spec fn audit_entry(
    id: i64,
    event_id: i64,
    organizer_id: i64,
    user_id: i64,
    audit_type: AuditType,
    old_data: Option<Seq<char>>,
    new_data: Option<Seq<char>>,
    now: i64,
) -> AuditLogEntryView {
    AuditLogEntryView {
        id,
        event_id,
        organizer_id,
        user_id: Some(user_id),
        audit_type,
        at: now,
        old_data,
        new_data,
    }
}

/// Appending an entry to the audit log under the next number.
pub open spec fn insert_audit(
    db: DatabaseView,
    event_id: i64,
    organizer_id: i64,
    user_id: i64,
    audit_type: AuditType,
    old_data: Option<Seq<char>>,
    new_data: Option<Seq<char>>,
    now: i64,
) -> (DatabaseView, Result<(), DbErrorView>) {
    if db.next_audit_id == i64::MAX {
        (db, Err(sequence_exhausted()))
    } else {
        (
            DatabaseView {
                audit_log: db.audit_log.push(
                    audit_entry(
                        db.next_audit_id,
                        event_id,
                        organizer_id,
                        user_id,
                        audit_type,
                        old_data,
                        new_data,
                        now,
                    ),
                ),
                next_audit_id: (db.next_audit_id + 1) as i64,
                ..db
            },
            Ok(()),
        )
    }
}

/// Roles agree and sessions have their accounts: the two constraints that tie
/// the rows of one table to another.
pub open spec fn references_hold(db: DatabaseView) -> bool {
    &&& forall|a: AccountView| #[trigger] db.accounts.contains(a) ==> role_agrees(a)
    &&& forall|s: Session| #[trigger]
        db.sessions.contains(s) ==> any_match(db.accounts, has_account_id(s.account_id))
}

/// A change of the accounts that keeps the number, the role and the organizer
/// of each of them, and leaves the sessions as they are, keeps the roles in
/// agreement and every session with its account.
pub proof fn lemma_references_survive_change(
    db: DatabaseView,
    after: DatabaseView,
    f: spec_fn(AccountView) -> AccountView,
)
    requires
        references_hold(db),
        after.accounts == db.accounts.map_values(f),
        after.sessions == db.sessions,
        forall|a: AccountView|
            (#[trigger] f(a)).id == a.id && f(a).account_type == a.account_type && f(a).organizer_id
                == a.organizer_id,
    ensures
        references_hold(after),
{
    lemma_map_members(db.accounts, f);
    assert forall|a: AccountView| #[trigger] after.accounts.contains(a) implies role_agrees(a) by {
        let x = choose|x: AccountView| #[trigger] db.accounts.contains(x) && f(x) == a;
        assert(role_agrees(x));
    }
    assert forall|s: Session| #[trigger] after.sessions.contains(s) implies any_match(
        after.accounts,
        has_account_id(s.account_id),
    ) by {
        assert(db.sessions.contains(s));
        let i = choose|i: int|
            0 <= i < db.accounts.len() && has_account_id(s.account_id)(#[trigger] db.accounts[i]);
        assert(after.accounts[i] == f(db.accounts[i]));
        assert(has_account_id(s.account_id)(after.accounts[i]));
    }
}

/// A new account whose role agrees with its organizer keeps the roles in
/// agreement and every session with its account.
pub proof fn lemma_references_survive_push(db: DatabaseView, after: DatabaseView, row: AccountView)
    requires
        references_hold(db),
        role_agrees(row),
        after.accounts == db.accounts.push(row),
        after.sessions == db.sessions,
    ensures
        references_hold(after),
{
    lemma_push_members(db.accounts, row);
    assert forall|s: Session| #[trigger] after.sessions.contains(s) implies any_match(
        after.accounts,
        has_account_id(s.account_id),
    ) by {
        assert(db.sessions.contains(s));
        let i = choose|i: int|
            0 <= i < db.accounts.len() && has_account_id(s.account_id)(#[trigger] db.accounts[i]);
        assert(after.accounts[i] == db.accounts[i]);
        assert(has_account_id(s.account_id)(after.accounts[i]));
    }
}

/// Storing an invitation keeps the constraints of the schema.
pub proof fn lemma_insert_account_keeps_wf(
    db: DatabaseView,
    account_type: AccountType,
    organizer_id: Option<i64>,
    display_name: Seq<char>,
    email: Seq<char>,
    token: Seq<char>,
    expires_at: i64,
    now: i64,
)
    requires
        wf(db),
    ensures
        wf(
            insert_account(
                db,
                account_type,
                organizer_id,
                display_name,
                email,
                token,
                expires_at,
                now,
            ).0,
        ),
{
    let after = insert_account(
        db,
        account_type,
        organizer_id,
        display_name,
        email,
        token,
        expires_at,
        now,
    ).0;
    if role_agrees_with(account_type, organizer_id) && invitation_refusal(db, email, token) is None {
        let row = invited_account(
            db.next_account_id,
            account_type,
            organizer_id,
            display_name,
            email,
            token,
            expires_at,
            now,
        );
        lemma_references_survive_push(db, after, row);
        lemma_push_members(db.accounts, row);
        lemma_any_match_members(db.accounts, has_email(email));
        lemma_any_match_members(db.accounts, has_setup_token(token));
        assert forall|a: AccountView| #[trigger] after.accounts.contains(a) implies a.id
            < after.next_account_id by {
            if a != row {
                assert(db.accounts.contains(a));
            }
        }
        assert forall|a: AccountView, b: AccountView|
            #![trigger after.accounts.contains(a), after.accounts.contains(b)]
            after.accounts.contains(a) && after.accounts.contains(b) implies (a.id == b.id ==> a
                == b) && (a.email is Some && a.email == b.email ==> a == b) && (a.setup_token is Some
                && a.setup_token == b.setup_token ==> a == b) by {
            if a != row {
                assert(db.accounts.contains(a));
            }
            if b != row {
                assert(db.accounts.contains(b));
            }
        }
    }
}

/// Completing a setup keeps the constraints of the schema.
pub proof fn lemma_complete_setup_keeps_wf(
    db: DatabaseView,
    id: i64,
    token: Seq<char>,
    email: Seq<char>,
    password_hash: Seq<char>,
    now: i64,
)
    requires
        wf(db),
    ensures
        wf(complete_setup(db, id, token, email, password_hash, now).0),
{
    let after = complete_setup(db, id, token, email, password_hash, now).0;
    if after != db {
        let f = |a: AccountView|
            if awaits_setup(id, token)(a) {
                completed(a, email, password_hash, now)
            } else {
                a
            };
        assert(after.accounts == db.accounts.map_values(f));
        lemma_references_survive_change(db, after, f);
        lemma_map_members(db.accounts, f);
        assert forall|a: AccountView| #[trigger] after.accounts.contains(a) implies a.id
            < after.next_account_id by {
            let x = choose|x: AccountView| #[trigger] db.accounts.contains(x) && f(x) == a;
        }
        assert forall|a: AccountView, b: AccountView|
            #![trigger after.accounts.contains(a), after.accounts.contains(b)]
            after.accounts.contains(a) && after.accounts.contains(b) implies (a.id == b.id ==> a
                == b) && (a.email is Some && a.email == b.email ==> a == b) && (a.setup_token is Some
                && a.setup_token == b.setup_token ==> a == b) by {
            let x = choose|x: AccountView| #[trigger] db.accounts.contains(x) && f(x) == a;
            let y = choose|y: AccountView| #[trigger] db.accounts.contains(y) && f(y) == b;
            if a.email is Some && a.email == b.email && x != y {
                if awaits_setup(id, token)(x) && !awaits_setup(id, token)(y) {
                    let i = choose|i: int| 0 <= i < db.accounts.len() && db.accounts[i] == y;
                    assert(db.accounts[i].email == Some(email) && db.accounts[i].id != id);
                }
                if awaits_setup(id, token)(y) && !awaits_setup(id, token)(x) {
                    let i = choose|i: int| 0 <= i < db.accounts.len() && db.accounts[i] == x;
                    assert(db.accounts[i].email == Some(email) && db.accounts[i].id != id);
                }
            }
        }
    }
}

/// Setting a password keeps the constraints of the schema.
pub proof fn lemma_set_password_keeps_wf(db: DatabaseView, id: i64, password_hash: Seq<char>, now: i64)
    requires
        wf(db),
    ensures
        wf(set_password(db, id, password_hash, now)),
{
    let after = set_password(db, id, password_hash, now);
    let f = |a: AccountView|
        if a.id == id {
            AccountView { password_hash: Some(password_hash), updated_at: now, ..a }
        } else {
            a
        };
    assert(after.accounts == db.accounts.map_values(f));
    lemma_references_survive_change(db, after, f);
    lemma_map_members(db.accounts, f);
    assert forall|a: AccountView| #[trigger] after.accounts.contains(a) implies a.id
        < after.next_account_id by {
        let x = choose|x: AccountView| #[trigger] db.accounts.contains(x) && f(x) == a;
    }
    assert forall|a: AccountView, b: AccountView|
        #![trigger after.accounts.contains(a), after.accounts.contains(b)]
        after.accounts.contains(a) && after.accounts.contains(b) implies (a.id == b.id ==> a == b)
            && (a.email is Some && a.email == b.email ==> a == b) && (a.setup_token is Some
            && a.setup_token == b.setup_token ==> a == b) by {
        let x = choose|x: AccountView| #[trigger] db.accounts.contains(x) && f(x) == a;
        let y = choose|y: AccountView| #[trigger] db.accounts.contains(y) && f(y) == b;
    }
}

/// Issuing a fresh setup token keeps the constraints of the schema.
pub proof fn lemma_reissue_setup_token_keeps_wf(
    db: DatabaseView,
    organizer_id: i64,
    token: Seq<char>,
    expires_at: i64,
    now: i64,
)
    requires
        wf(db),
    ensures
        wf(reissue_setup_token(db, organizer_id, token, expires_at, now).0),
{
    let after = reissue_setup_token(db, organizer_id, token, expires_at, now).0;
    if after != db {
        let p = is_pending_account_of_organizer(organizer_id);
        let f = |a: AccountView|
            if is_pending_account_of_organizer(organizer_id)(a) {
                AccountView {
                    setup_token: Some(token),
                    setup_token_expires_at: Some(expires_at),
                    updated_at: now,
                    ..a
                }
            } else {
                a
            };
        assert(after.accounts == db.accounts.map_values(f));
        lemma_references_survive_change(db, after, f);
        lemma_map_members(db.accounts, f);
        lemma_filter_members(db.accounts, p);
        let matched = db.accounts.filter(p);
        assert(matched.len() == 1);
        assert forall|x: AccountView| #[trigger] db.accounts.contains(x) && p(x) implies x
            == matched[0] by {
            assert(matched.contains(x));
        }
        assert forall|a: AccountView| #[trigger] after.accounts.contains(a) implies a.id
            < after.next_account_id by {
            let x = choose|x: AccountView| #[trigger] db.accounts.contains(x) && f(x) == a;
        }
        assert forall|a: AccountView, b: AccountView|
            #![trigger after.accounts.contains(a), after.accounts.contains(b)]
            after.accounts.contains(a) && after.accounts.contains(b) implies (a.id == b.id ==> a
                == b) && (a.email is Some && a.email == b.email ==> a == b) && (a.setup_token is Some
                && a.setup_token == b.setup_token ==> a == b) by {
            let x = choose|x: AccountView| #[trigger] db.accounts.contains(x) && f(x) == a;
            let y = choose|y: AccountView| #[trigger] db.accounts.contains(y) && f(y) == b;
            if a.setup_token is Some && a.setup_token == b.setup_token && x != y {
                if p(x) && !p(y) {
                    let i = choose|i: int| 0 <= i < db.accounts.len() && db.accounts[i] == y;
                    assert(db.accounts[i].setup_token == Some(token) && !p(db.accounts[i]));
                }
                if p(y) && !p(x) {
                    let i = choose|i: int| 0 <= i < db.accounts.len() && db.accounts[i] == x;
                    assert(db.accounts[i].setup_token == Some(token) && !p(db.accounts[i]));
                }
            }
        }
    }
}

/// Storing a session keeps the constraints of the schema.
pub proof fn lemma_insert_session_keeps_wf(db: DatabaseView, session: Session)
    requires
        wf(db),
    ensures
        wf(insert_session(db, session).0),
{
    let after = insert_session(db, session).0;
    if after != db {
        lemma_push_members(db.sessions, session);
        lemma_any_match_members(db.sessions, has_session_id(session.id));
        assert forall|s: Session, t: Session|
            #![trigger after.sessions.contains(s), after.sessions.contains(t)]
            after.sessions.contains(s) && after.sessions.contains(t) && s.id == t.id implies s
                == t by {
            if s != session {
                assert(db.sessions.contains(s));
            }
            if t != session {
                assert(db.sessions.contains(t));
            }
        }
    }
}

/// Removing sessions keeps the constraints of the schema.
pub proof fn lemma_delete_sessions_keeps_wf(db: DatabaseView, keep: spec_fn(Session) -> bool)
    requires
        wf(db),
    ensures
        wf(DatabaseView { sessions: db.sessions.filter(keep), ..db }),
{
    lemma_filter_members(db.sessions, keep);
}

/// Removing reset tokens keeps the constraints of the schema.
pub proof fn lemma_delete_reset_tokens_keeps_wf(
    db: DatabaseView,
    keep: spec_fn(PasswordResetTokenView) -> bool,
)
    requires
        wf(db),
    ensures
        wf(DatabaseView { reset_tokens: db.reset_tokens.filter(keep), ..db }),
{
    lemma_filter_members(db.reset_tokens, keep);
}

/// Storing a reset token keeps the constraints of the schema.
pub proof fn lemma_insert_reset_token_keeps_wf(
    db: DatabaseView,
    account_id: i64,
    token: Seq<char>,
    expires_at: i64,
    now: i64,
)
    requires
        wf(db),
    ensures
        wf(insert_reset_token(db, account_id, token, expires_at, now).0),
{
    let after = insert_reset_token(db, account_id, token, expires_at, now).0;
    if after != db {
        let row = PasswordResetTokenView {
            id: db.next_reset_token_id,
            account_id,
            token,
            expires_at,
            used_at: None,
            created_at: now,
        };
        lemma_push_members(db.reset_tokens, row);
        lemma_any_match_members(db.reset_tokens, has_reset_token(token));
        assert forall|s: PasswordResetTokenView, t: PasswordResetTokenView|
            #![trigger after.reset_tokens.contains(s), after.reset_tokens.contains(t)]
            after.reset_tokens.contains(s) && after.reset_tokens.contains(t) && s.token
                == t.token implies s == t by {
            if s != row {
                assert(db.reset_tokens.contains(s));
            }
            if t != row {
                assert(db.reset_tokens.contains(t));
            }
        }
    }
}

/// Marking a reset token as used keeps the constraints of the schema.
pub proof fn lemma_mark_reset_token_used_keeps_wf(db: DatabaseView, id: i64, now: i64)
    requires
        wf(db),
    ensures
        wf(mark_reset_token_used(db, id, now)),
{
    let after = mark_reset_token_used(db, id, now);
    let f = |t: PasswordResetTokenView|
        if is_unused_reset_token(id)(t) {
            PasswordResetTokenView { used_at: Some(now), ..t }
        } else {
            t
        };
    assert(after.reset_tokens == db.reset_tokens.map_values(f));
    lemma_map_members(db.reset_tokens, f);
    assert forall|s: PasswordResetTokenView, t: PasswordResetTokenView|
        #![trigger after.reset_tokens.contains(s), after.reset_tokens.contains(t)]
        after.reset_tokens.contains(s) && after.reset_tokens.contains(t) && s.token
            == t.token implies s == t by {
        let x = choose|x: PasswordResetTokenView| #[trigger]
            db.reset_tokens.contains(x) && f(x) == s;
        let y = choose|y: PasswordResetTokenView| #[trigger]
            db.reset_tokens.contains(y) && f(y) == t;
    }
}

/// Storing an invitation leaves the accounts settled.
pub proof fn lemma_insert_account_keeps_settled(
    db: DatabaseView,
    account_type: AccountType,
    organizer_id: Option<i64>,
    display_name: Seq<char>,
    email: Seq<char>,
    token: Seq<char>,
    expires_at: i64,
    now: i64,
)
    requires
        wf(db),
        accounts_settled(db),
    ensures
        accounts_settled(
            insert_account(
                db,
                account_type,
                organizer_id,
                display_name,
                email,
                token,
                expires_at,
                now,
            ).0,
        ),
{
    let after = insert_account(
        db,
        account_type,
        organizer_id,
        display_name,
        email,
        token,
        expires_at,
        now,
    ).0;
    if after != db {
        let row = invited_account(
            db.next_account_id,
            account_type,
            organizer_id,
            display_name,
            email,
            token,
            expires_at,
            now,
        );
        lemma_push_members(db.accounts, row);
        assert forall|a: AccountView| #[trigger]
            after.accounts.contains(a) && a.password_hash is Some implies a.setup_token is None by {
            assert(db.accounts.contains(a));
        }
        assert forall|t: PasswordResetTokenView, a: AccountView|
            #![trigger after.reset_tokens.contains(t), after.accounts.contains(a)]
            after.reset_tokens.contains(t) && after.accounts.contains(a) && a.id
                == t.account_id implies a.password_hash is Some by {
            assert(db.reset_tokens.contains(t));
            if a != row {
                assert(db.accounts.contains(a));
            }
        }
    }
}

/// Completing a setup leaves the accounts settled.
pub proof fn lemma_complete_setup_keeps_settled(
    db: DatabaseView,
    id: i64,
    token: Seq<char>,
    email: Seq<char>,
    password_hash: Seq<char>,
    now: i64,
)
    requires
        accounts_settled(db),
    ensures
        accounts_settled(complete_setup(db, id, token, email, password_hash, now).0),
{
    let after = complete_setup(db, id, token, email, password_hash, now).0;
    if after != db {
        let f = |a: AccountView|
            if awaits_setup(id, token)(a) {
                completed(a, email, password_hash, now)
            } else {
                a
            };
        assert(after.accounts == db.accounts.map_values(f));
        lemma_map_members(db.accounts, f);
        assert forall|a: AccountView| #[trigger]
            after.accounts.contains(a) && a.password_hash is Some implies a.setup_token is None by {
            let x = choose|x: AccountView| #[trigger] db.accounts.contains(x) && f(x) == a;
        }
        assert forall|t: PasswordResetTokenView, a: AccountView|
            #![trigger after.reset_tokens.contains(t), after.accounts.contains(a)]
            after.reset_tokens.contains(t) && after.accounts.contains(a) && a.id
                == t.account_id implies a.password_hash is Some by {
            let x = choose|x: AccountView| #[trigger] db.accounts.contains(x) && f(x) == a;
            assert(db.reset_tokens.contains(t));
        }
    }
}

/// Setting the password of an account that carries no setup token leaves the
/// accounts settled.
pub proof fn lemma_set_password_keeps_settled(db: DatabaseView, id: i64, password_hash: Seq<char>, now: i64)
    requires
        accounts_settled(db),
        forall|a: AccountView| #[trigger] db.accounts.contains(a) && a.id == id ==> a.setup_token is None,
    ensures
        accounts_settled(set_password(db, id, password_hash, now)),
{
    let after = set_password(db, id, password_hash, now);
    let f = |a: AccountView|
        if a.id == id {
            AccountView { password_hash: Some(password_hash), updated_at: now, ..a }
        } else {
            a
        };
    assert(after.accounts == db.accounts.map_values(f));
    lemma_map_members(db.accounts, f);
    assert forall|a: AccountView| #[trigger]
        after.accounts.contains(a) && a.password_hash is Some implies a.setup_token is None by {
        let x = choose|x: AccountView| #[trigger] db.accounts.contains(x) && f(x) == a;
    }
    assert forall|t: PasswordResetTokenView, a: AccountView|
        #![trigger after.reset_tokens.contains(t), after.accounts.contains(a)]
        after.reset_tokens.contains(t) && after.accounts.contains(a) && a.id
            == t.account_id implies a.password_hash is Some by {
        let x = choose|x: AccountView| #[trigger] db.accounts.contains(x) && f(x) == a;
        assert(db.reset_tokens.contains(t));
    }
}

/// Issuing a fresh setup token leaves the accounts settled: only an account
/// without a password gets one.
pub proof fn lemma_reissue_setup_token_keeps_settled(
    db: DatabaseView,
    organizer_id: i64,
    token: Seq<char>,
    expires_at: i64,
    now: i64,
)
    requires
        accounts_settled(db),
    ensures
        accounts_settled(reissue_setup_token(db, organizer_id, token, expires_at, now).0),
{
    let after = reissue_setup_token(db, organizer_id, token, expires_at, now).0;
    if after != db {
        let f = |a: AccountView|
            if is_pending_account_of_organizer(organizer_id)(a) {
                AccountView {
                    setup_token: Some(token),
                    setup_token_expires_at: Some(expires_at),
                    updated_at: now,
                    ..a
                }
            } else {
                a
            };
        assert(after.accounts == db.accounts.map_values(f));
        lemma_map_members(db.accounts, f);
        assert forall|a: AccountView| #[trigger]
            after.accounts.contains(a) && a.password_hash is Some implies a.setup_token is None by {
            let x = choose|x: AccountView| #[trigger] db.accounts.contains(x) && f(x) == a;
        }
        assert forall|t: PasswordResetTokenView, a: AccountView|
            #![trigger after.reset_tokens.contains(t), after.accounts.contains(a)]
            after.reset_tokens.contains(t) && after.accounts.contains(a) && a.id
                == t.account_id implies a.password_hash is Some by {
            let x = choose|x: AccountView| #[trigger] db.accounts.contains(x) && f(x) == a;
            assert(db.reset_tokens.contains(t));
        }
    }
}

/// Removing reset tokens leaves the accounts settled.
pub proof fn lemma_delete_reset_tokens_keeps_settled(
    db: DatabaseView,
    keep: spec_fn(PasswordResetTokenView) -> bool,
)
    requires
        accounts_settled(db),
    ensures
        accounts_settled(DatabaseView { reset_tokens: db.reset_tokens.filter(keep), ..db }),
{
    lemma_filter_members(db.reset_tokens, keep);
}

/// Storing a reset token for an initialized account leaves the accounts
/// settled.
pub proof fn lemma_insert_reset_token_keeps_settled(
    db: DatabaseView,
    account_id: i64,
    token: Seq<char>,
    expires_at: i64,
    now: i64,
)
    requires
        accounts_settled(db),
        account_id < db.next_account_id,
        forall|a: AccountView| #[trigger]
            db.accounts.contains(a) && a.id == account_id ==> a.password_hash is Some,
    ensures
        accounts_settled(insert_reset_token(db, account_id, token, expires_at, now).0),
{
    let after = insert_reset_token(db, account_id, token, expires_at, now).0;
    if after != db {
        let row = PasswordResetTokenView {
            id: db.next_reset_token_id,
            account_id,
            token,
            expires_at,
            used_at: None,
            created_at: now,
        };
        lemma_push_members(db.reset_tokens, row);
        assert forall|t: PasswordResetTokenView, a: AccountView|
            #![trigger after.reset_tokens.contains(t), after.accounts.contains(a)]
            after.reset_tokens.contains(t) && after.accounts.contains(a) && a.id
                == t.account_id implies a.password_hash is Some by {
            if t != row {
                assert(db.reset_tokens.contains(t));
            }
        }
        assert forall|t: PasswordResetTokenView| #[trigger]
            after.reset_tokens.contains(t) implies t.account_id < after.next_account_id by {
            if t != row {
                assert(db.reset_tokens.contains(t));
            }
        }
    }
}

/// Marking a reset token as used leaves the accounts settled.
pub proof fn lemma_mark_reset_token_used_keeps_settled(db: DatabaseView, id: i64, now: i64)
    requires
        accounts_settled(db),
    ensures
        accounts_settled(mark_reset_token_used(db, id, now)),
{
    let after = mark_reset_token_used(db, id, now);
    let f = |t: PasswordResetTokenView|
        if is_unused_reset_token(id)(t) {
            PasswordResetTokenView { used_at: Some(now), ..t }
        } else {
            t
        };
    assert(after.reset_tokens == db.reset_tokens.map_values(f));
    lemma_map_members(db.reset_tokens, f);
    assert forall|t: PasswordResetTokenView, a: AccountView|
        #![trigger after.reset_tokens.contains(t), after.accounts.contains(a)]
        after.reset_tokens.contains(t) && after.accounts.contains(a) && a.id
            == t.account_id implies a.password_hash is Some by {
        let x = choose|x: PasswordResetTokenView| #[trigger]
            db.reset_tokens.contains(x) && f(x) == t;
    }
    assert forall|t: PasswordResetTokenView| #[trigger]
        after.reset_tokens.contains(t) implies t.account_id < after.next_account_id by {
        let x = choose|x: PasswordResetTokenView| #[trigger]
            db.reset_tokens.contains(x) && f(x) == t;
    }
}

} // verus!
