//! Signing in and out, redeeming invitations, and changing and recovering
//! passwords.
//!
//! Every operation takes the instant at which it runs and the random values it
//! needs as arguments, so that what it does is a function of its inputs; the
//! functions of [`crate::sources`] supply them.
use vstd::prelude::*;
use vstd::string::*;
use crate::cookies::{
    cookie_value, expired_cookie_text, expired_session_cookie, get_cookie, opt_str_text,
    session_cookie, session_cookie_text, SESSION_TTL_MICROS,
};
use crate::dto::{
    ChangePasswordRequest, InitAccountRequest, LoginRequest, RequestPasswordResetRequest,
    ResetPasswordRequest, SetupTokenLookupRequest,
};
use crate::error::{result_view, AppError, AppErrorView, STATUS_NO_CONTENT, STATUS_OK};
use crate::models::{account_type_label, Account, AccountType, AccountView, Session};
use crate::policy::{ensure_password_requirements, policy_verdict, unit_result_view};
use crate::responses::{AuthUserResponse, AuthUserResponseView, SetupTokenInfoResponse};
use crate::seqs::first_match;
use crate::shared::{account_of_request, request_account, session_id_text, SETUP_TOKEN_TTL_MICROS};
use crate::state::DatabaseView;
use crate::state;
use crate::store::Database;
use crate::text::opt_text;
use crate::trusted::{
    argon2_accepts, argon2_hash, argon2_phc, argon2_verify, parse_uuid, uuid_parse, uuid_text,
};

verus! {

/// How long a reset token can be redeemed, in microseconds: ten minutes.
pub const RESET_TOKEN_TTL_MICROS: i64 = 600000000;

/// An instant to which every lifetime of the service can be added.
pub open spec fn valid_instant(now: i64) -> bool {
    now <= i64::MAX - SETUP_TOKEN_TTL_MICROS
}

/// A mail that an operation asks to be sent. Sending is best effort: whether
/// it succeeds does not change what the operation did.
#[derive(Debug)]
pub enum Notification {
    OrganizerInvite { recipient: String, organizer_name: String, setup_token: String },
    AdminInvite { recipient: String, display_name: String, setup_token: String },
    Welcome { recipient: String, display_name: String, account_type: String },
    PasswordReset { recipient: String, display_name: String, reset_token: String },
}

/// Mathematical value of a [`Notification`].
pub enum NotificationView {
    OrganizerInvite { recipient: Seq<char>, organizer_name: Seq<char>, setup_token: Seq<char> },
    AdminInvite { recipient: Seq<char>, display_name: Seq<char>, setup_token: Seq<char> },
    Welcome { recipient: Seq<char>, display_name: Seq<char>, account_type: Seq<char> },
    PasswordReset { recipient: Seq<char>, display_name: Seq<char>, reset_token: Seq<char> },
}

impl View for Notification {
    type V = NotificationView;

    open spec fn view(&self) -> NotificationView {
        match self {
            Notification::OrganizerInvite { recipient, organizer_name, setup_token } =>
                NotificationView::OrganizerInvite {
                    recipient: recipient@,
                    organizer_name: organizer_name@,
                    setup_token: setup_token@,
                },
            Notification::AdminInvite { recipient, display_name, setup_token } =>
                NotificationView::AdminInvite {
                    recipient: recipient@,
                    display_name: display_name@,
                    setup_token: setup_token@,
                },
            Notification::Welcome { recipient, display_name, account_type } =>
                NotificationView::Welcome {
                    recipient: recipient@,
                    display_name: display_name@,
                    account_type: account_type@,
                },
            Notification::PasswordReset { recipient, display_name, reset_token } =>
                NotificationView::PasswordReset {
                    recipient: recipient@,
                    display_name: display_name@,
                    reset_token: reset_token@,
                },
        }
    }
}

/// The mathematical value of an optional notification.
pub open spec fn opt_notification_view(n: Option<Notification>) -> Option<NotificationView> {
    match n {
        Some(n) => Some(n@),
        None => None,
    }
}

/// A response that hands a session to the client.
#[derive(Debug)]
pub struct SessionResponse {
    pub status: u16,
    pub body: AuthUserResponse,
    pub set_cookie: String,
}

/// Mathematical value of a [`SessionResponse`].
pub struct SessionResponseView {
    pub status: u16,
    pub body: AuthUserResponseView,
    pub set_cookie: Seq<char>,
}

impl View for SessionResponse {
    type V = SessionResponseView;

    open spec fn view(&self) -> SessionResponseView {
        SessionResponseView { status: self.status, body: self.body@, set_cookie: self.set_cookie@ }
    }
}

/// What a completed setup hands back: the session, and the welcome mail.
#[derive(Debug)]
pub struct InitAccountOutcome {
    pub response: SessionResponse,
    pub welcome: Notification,
}

/// Mathematical value of an [`InitAccountOutcome`].
pub struct InitAccountOutcomeView {
    pub response: SessionResponseView,
    pub welcome: NotificationView,
}

impl View for InitAccountOutcome {
    type V = InitAccountOutcomeView;

    open spec fn view(&self) -> InitAccountOutcomeView {
        InitAccountOutcomeView { response: self.response@, welcome: self.welcome@ }
    }
}

/// The response to a sign-out.
#[derive(Debug)]
pub struct LogoutResponse {
    pub status: u16,
    pub set_cookie: Option<String>,
}

/// The response to a request for a password reset, with the mail to send if
/// the address belongs to an initialized account.
#[derive(Debug)]
pub struct PasswordResetRequested {
    pub status: u16,
    pub email: Option<Notification>,
}

/// An invitation that can still be redeemed.
#[derive(Debug)]
pub struct PendingSetupToken {
    pub account_id: i64,
    pub display_name: String,
    pub account_type: AccountType,
    pub organizer_id: Option<i64>,
}

/// Mathematical value of a [`PendingSetupToken`].
pub struct PendingSetupTokenView {
    pub account_id: i64,
    pub display_name: Seq<char>,
    pub account_type: AccountType,
    pub organizer_id: Option<i64>,
}

impl View for PendingSetupToken {
    type V = PendingSetupTokenView;

    open spec fn view(&self) -> PendingSetupTokenView {
        PendingSetupTokenView {
            account_id: self.account_id,
            display_name: self.display_name@,
            account_type: self.account_type,
            organizer_id: self.organizer_id,
        }
    }
}

impl View for SetupTokenInfoResponse {
    type V = (Seq<char>, AccountType);

    open spec fn view(&self) -> (Seq<char>, AccountType) {
        (self.account_name@, self.account_type)
    }
}

/// Whether an account may read the newsletter data, given the permission of
/// its organizer (`None` where the account has no organizer or the organizer
/// does not exist): an administrator may; an organizer may where its organizer
/// has the permission.
pub open spec fn newsletter_allowed(account_type: AccountType, permission: Option<bool>) -> bool {
    match account_type {
        AccountType::Admin => true,
        AccountType::Organizer => permission == Some(true),
    }
}

/// Whether an account may read the newsletter data, given the permission of
/// its organizer.
pub fn newsletter_permitted(account_type: AccountType, permission: Option<bool>) -> (allowed: bool)
    ensures
        allowed == newsletter_allowed(account_type, permission),
{
    match account_type {
        AccountType::Admin => true,
        AccountType::Organizer => match permission {
            Some(flag) => flag,
            None => false,
        },
    }
}

/// The newsletter permission of the organizer of an account.
pub open spec fn organizer_permission(db: DatabaseView, organizer_id: Option<i64>) -> Option<bool> {
    match organizer_id {
        Some(id) => state::organizer_newsletter(db, id),
        None => None,
    }
}

/// Whether an account may read the newsletter data: an administrator may; an
/// organizer may where its organizer exists and has the permission.
pub open spec fn newsletter_access(db: DatabaseView, account_type: AccountType, organizer_id: Option<i64>) -> bool {
    newsletter_allowed(account_type, organizer_permission(db, organizer_id))
}

/// Whether an account may read the newsletter data.
pub fn determine_newsletter_access(db: &Database, account_type: AccountType, organizer_id: Option<i64>) -> (allowed:
    bool)
    ensures
        allowed == newsletter_access(db@, account_type, organizer_id),
{
    let permission = match organizer_id {
        Some(id) => db.organizer_newsletter(id),
        None => None,
    };
    newsletter_permitted(account_type, permission)
}

/// The principal as the client sees it.
pub open spec fn auth_user(db: DatabaseView, a: PendingSetupTokenView) -> AuthUserResponseView {
    AuthUserResponseView {
        account_id: a.account_id,
        display_name: a.display_name,
        account_type: a.account_type,
        organizer_id: a.organizer_id,
        can_access_newsletter: newsletter_access(db, a.account_type, a.organizer_id),
    }
}

/// What the client is shown of an account.
pub open spec fn profile_of(a: AccountView) -> PendingSetupTokenView {
    PendingSetupTokenView {
        account_id: a.id,
        display_name: a.display_name,
        account_type: a.account_type,
        organizer_id: a.organizer_id,
    }
}

/// The session that is opened for an account at `now`.
pub open spec fn new_session(session_id: u128, account_id: i64, now: i64) -> Session {
    Session { id: session_id, account_id, expires_at: (now + SESSION_TTL_MICROS) as i64 }
}

/// Opening a session for an account: the session is stored and handed to the
/// client in a cookie that carries `session_text`.
pub open spec fn open_session_outcome(
    db: DatabaseView,
    a: PendingSetupTokenView,
    session_id: u128,
    session_text: Seq<char>,
    secure: bool,
    now: i64,
) -> (DatabaseView, Result<SessionResponseView, AppErrorView>) {
    let (after, stored) = state::insert_session(db, new_session(session_id, a.account_id, now));
    match stored {
        Err(e) => (after, Err(AppErrorView::Sqlx(e))),
        Ok(_) => (
            after,
            Ok(
                session_response_for(
                    a,
                    newsletter_access(after, a.account_type, a.organizer_id),
                    session_text,
                    secure,
                ),
            ),
        ),
    }
}

/// The response that hands a session to the client.
pub open spec fn session_response_for(
    a: PendingSetupTokenView,
    can_access_newsletter: bool,
    session_text: Seq<char>,
    secure: bool,
) -> SessionResponseView {
    SessionResponseView {
        status: STATUS_OK,
        body: AuthUserResponseView {
            account_id: a.account_id,
            display_name: a.display_name,
            account_type: a.account_type,
            organizer_id: a.organizer_id,
            can_access_newsletter,
        },
        set_cookie: session_cookie_text(session_text, secure),
    }
}

/// Builds the response that hands a session to the client.
pub fn session_response(
    account: PendingSetupToken,
    can_access_newsletter: bool,
    session_text: &str,
    secure: bool,
) -> (r: SessionResponse)
    ensures
        r@ == session_response_for(account@, can_access_newsletter, session_text@, secure),
{
    SessionResponse {
        status: STATUS_OK,
        body: AuthUserResponse {
            account_id: account.account_id,
            display_name: account.display_name,
            account_type: account.account_type,
            organizer_id: account.organizer_id,
            can_access_newsletter,
        },
        set_cookie: session_cookie(session_text, secure),
    }
}

/// Opens a session for an account and hands it to the client in a cookie that
/// carries `session_text`, the text of the session identifier.
pub fn open_session(
    db: &mut Database,
    account: PendingSetupToken,
    session_id: u128,
    session_text: &str,
    secure: bool,
    now: i64,
) -> (r: Result<SessionResponse, AppError>)
    requires
        old(db).wf(),
        valid_instant(now),
    ensures
        final(db).wf(),
        (final(db)@, result_view(r)) == open_session_outcome(
            old(db)@,
            account@,
            session_id,
            session_text@,
            secure,
            now,
        ),
{
    let session = Session {
        id: session_id,
        account_id: account.account_id,
        expires_at: now + SESSION_TTL_MICROS,
    };
    match db.insert_session(session) {
        Err(e) => Err(AppError::Sqlx(e)),
        Ok(_) => {
            let can_access_newsletter = determine_newsletter_access(
                db,
                account.account_type,
                account.organizer_id,
            );
            Ok(session_response(account, can_access_newsletter, session_text, secure))
        },
    }
}

/// The failure of every sign-in that does not succeed. It does not tell an
/// unknown address from a wrong password.
pub open spec fn invalid_credentials() -> AppErrorView {
    AppErrorView::Unauthorized("invalid e-mail or password"@)
}

/// Whether Argon2 accepts a password for a stored hash; no hash accepts none.
pub open spec fn password_accepted(stored: Option<Seq<char>>, password: Seq<char>) -> bool {
    match stored {
        Some(hash) => argon2_accepts(password, hash),
        None => false,
    }
}

/// Holds a password against a stored hash.
pub fn password_matches(stored: &Option<String>, password: &str) -> (accepted: bool)
    ensures
        accepted == password_accepted(opt_text(*stored), password@),
{
    match stored {
        Some(hash) => argon2_verify(password, hash.as_str()),
        None => false,
    }
}

/// The verdict on a sign-in, given the account with the address, if there is
/// one, and whether its password was accepted.
pub open spec fn credentials_decision(account: Option<AccountView>, accepted: bool) -> Result<
    AccountView,
    AppErrorView,
> {
    match account {
        Some(a) => if accepted {
            Ok(a)
        } else {
            Err(invalid_credentials())
        },
        None => Err(invalid_credentials()),
    }
}

/// Decides on a sign-in, given the account with the address, if there is one,
/// and whether its password was accepted.
pub fn decide_credentials(account: Option<Account>, accepted: bool) -> (r: Result<Account, AppError>)
    ensures
        result_view(r) == credentials_decision(crate::store::opt_account_view(account), accepted),
{
    match account {
        Some(account) => {
            if accepted {
                Ok(account)
            } else {
                Err(AppError::unauthorized("invalid e-mail or password"))
            }
        },
        None => Err(AppError::unauthorized("invalid e-mail or password")),
    }
}

/// The verdict on a sign-in with a password, given the account with the
/// address, if there is one: the account must have a password hash that Argon2
/// accepts.
pub open spec fn credentials_verdict(account: Option<AccountView>, password: Seq<char>) -> Result<
    AccountView,
    AppErrorView,
> {
    credentials_decision(
        account,
        match account {
            Some(a) => password_accepted(a.password_hash, password),
            None => false,
        },
    )
}

/// Decides on a sign-in with a password, given the account with the address.
pub fn verify_credentials(account: Option<Account>, password: &str) -> (r: Result<Account, AppError>)
    ensures
        result_view(r) == credentials_verdict(crate::store::opt_account_view(account), password@),
{
    let accepted = match &account {
        Some(a) => password_matches(&a.password_hash, password),
        None => false,
    };
    decide_credentials(account, accepted)
}

/// Signing in: the address must belong to an account with a password that
/// Argon2 accepts; then a session is opened.
pub open spec fn login_outcome(
    db: DatabaseView,
    email: Seq<char>,
    password: Seq<char>,
    secure: bool,
    now: i64,
    session_id: u128,
) -> (DatabaseView, Result<SessionResponseView, AppErrorView>) {
    match credentials_verdict(first_match(db.accounts, state::has_email(email)), password) {
        Ok(a) => open_session_outcome(
            db,
            profile_of(a),
            session_id,
            uuid_text(session_id),
            secure,
            now,
        ),
        Err(e) => (db, Err(e)),
    }
}

/// What the client is shown of an account.
pub fn profile(account: Account) -> (p: PendingSetupToken)
    ensures
        p@ == profile_of(account@),
{
    PendingSetupToken {
        account_id: account.id,
        display_name: account.display_name,
        account_type: account.account_type,
        organizer_id: account.organizer_id,
    }
}

/// Signs in with address and password and opens the session `session_id`.
pub fn login(db: &mut Database, payload: &LoginRequest, secure: bool, now: i64, session_id: u128) -> (r:
    Result<SessionResponse, AppError>)
    requires
        old(db).wf(),
        valid_instant(now),
    ensures
        final(db).wf(),
        (final(db)@, result_view(r)) == login_outcome(
            old(db)@,
            payload.email@,
            payload.password@,
            secure,
            now,
            session_id,
        ),
{
    let found = db.find_account_by_email(payload.email.as_str());
    let account = match verify_credentials(found, payload.password.as_str()) {
        Ok(account) => account,
        Err(e) => {
            return Err(e);
        },
    };
    let session_text = session_id_text(session_id);
    open_session(db, profile(account), session_id, session_text.as_str(), secure, now)
}

/// The failure of every setup token that cannot be redeemed. It does not tell
/// an unknown token from an expired one or from one of an initialized
/// account.
pub open spec fn invalid_setup_token() -> AppErrorView {
    AppErrorView::Validation("invalid setup token"@)
}

/// Whether an account can still be set up at `now`: its token has an expiry
/// that lies after `now`, and it has no password.
pub open spec fn is_pending(a: AccountView, now: i64) -> bool {
    a.setup_token_expires_at is Some && a.setup_token_expires_at->0 > now
        && a.password_hash is None
}

/// The verdict on the account that carries a setup token, if there is one, at
/// `now`: the token must not have expired, and the account must not be
/// initialized.
pub open spec fn pending_verdict(account: Option<AccountView>, now: i64) -> Result<
    AccountView,
    AppErrorView,
> {
    match account {
        None => Err(invalid_setup_token()),
        Some(a) => if is_pending(a, now) {
            Ok(a)
        } else {
            Err(invalid_setup_token())
        },
    }
}

/// The invitation that the account with a setup token stands for at `now`.
pub open spec fn pending_setup_verdict(account: Option<AccountView>, now: i64) -> Result<
    PendingSetupTokenView,
    AppErrorView,
> {
    match pending_verdict(account, now) {
        Ok(a) => Ok(profile_of(a)),
        Err(e) => Err(e),
    }
}

/// Decides on the account that carries a setup token, if there is one, at
/// `now`.
pub fn pending_setup(account: Option<Account>, now: i64) -> (r: Result<PendingSetupToken, AppError>)
    ensures
        result_view(r) == pending_setup_verdict(crate::store::opt_account_view(account), now),
{
    let account = match account {
        Some(account) => account,
        None => {
            return Err(AppError::validation("invalid setup token"));
        },
    };
    let live = match account.setup_token_expires_at {
        Some(when) => when > now,
        None => false,
    };
    if live && account.password_hash.is_none() {
        Ok(profile(account))
    } else {
        Err(AppError::validation("invalid setup token"))
    }
}

/// The account that can redeem a setup token at `now`. The token must be
/// carried by an account, character for character as it was given, must not
/// have expired, and the account must not be initialized.
pub open spec fn pending_account(db: DatabaseView, token: Seq<char>, now: i64) -> Result<
    AccountView,
    AppErrorView,
> {
    pending_verdict(first_match(db.accounts, state::has_setup_token(token)), now)
}

/// The invitation that a setup token redeems at `now`.
pub open spec fn pending_setup_token(db: DatabaseView, token: Seq<char>, now: i64) -> Result<
    PendingSetupTokenView,
    AppErrorView,
> {
    match pending_account(db, token, now) {
        Ok(a) => Ok(profile_of(a)),
        Err(e) => Err(e),
    }
}

/// Finds the invitation that a setup token redeems at `now`.
pub fn ensure_pending_setup_token(db: &Database, token: &str, now: i64) -> (r: Result<
    PendingSetupToken,
    AppError,
>)
    ensures
        result_view(r) == pending_setup_token(db@, token@, now),
{
    pending_setup(db.find_account_by_setup_token(token), now)
}

/// What a setup token shows of its account while it can be redeemed.
pub open spec fn setup_token_info(db: DatabaseView, token: Seq<char>, now: i64) -> Result<
    (Seq<char>, AccountType),
    AppErrorView,
> {
    match pending_setup_token(db, token, now) {
        Ok(p) => Ok((p.display_name, p.account_type)),
        Err(e) => Err(e),
    }
}

/// Shows the name and role of the account that a setup token was issued to.
pub fn lookup_setup_token(db: &Database, payload: &SetupTokenLookupRequest, now: i64) -> (r: Result<
    SetupTokenInfoResponse,
    AppError,
>)
    ensures
        result_view(r) == setup_token_info(db@, payload.token@, now),
{
    match ensure_pending_setup_token(db, payload.token.as_str(), now) {
        Ok(pending) => Ok(
            SetupTokenInfoResponse {
                account_name: pending.display_name,
                account_type: pending.account_type,
            },
        ),
        Err(e) => Err(e),
    }
}

/// The welcome mail for a completed setup.
pub open spec fn welcome_mail(email: Seq<char>, a: PendingSetupTokenView) -> NotificationView {
    NotificationView::Welcome {
        recipient: email,
        display_name: a.display_name,
        account_type: account_type_label(a.account_type),
    }
}

/// The verdict on the conditional statement that completes a setup, given the
/// number of rows it changed: none means that the token was redeemed before.
pub open spec fn completion_verdict(rows: nat) -> Result<(), AppErrorView> {
    if rows == 0 {
        Err(AppErrorView::Validation("account already initialized"@))
    } else {
        Ok(())
    }
}

/// Decides on the conditional statement that completes a setup, given the
/// number of rows it changed.
pub fn setup_completed(rows: u64) -> (r: Result<(), AppError>)
    ensures
        unit_result_view(r) == completion_verdict(rows as nat),
{
    if rows == 0 {
        Err(AppError::validation("account already initialized"))
    } else {
        Ok(())
    }
}

/// Builds the welcome mail for a completed setup.
pub fn welcome_notification(email: &str, pending: &PendingSetupToken) -> (mail: Notification)
    ensures
        mail@ == welcome_mail(email@, pending@),
{
    Notification::Welcome {
        recipient: email.to_string(),
        display_name: pending.display_name.clone(),
        account_type: pending.account_type.label().to_string(),
    }
}

/// Redeeming a setup token with a password hash that is already computed. The
/// account is initialized by one conditional statement; where that changes no
/// row the token was redeemed in the meantime, and nothing else happens.
/// Otherwise a session is opened.
pub open spec fn redeem_setup_outcome(
    db: DatabaseView,
    a: PendingSetupTokenView,
    token: Seq<char>,
    email: Seq<char>,
    password_hash: Seq<char>,
    session_id: u128,
    session_text: Seq<char>,
    secure: bool,
    now: i64,
) -> (DatabaseView, Result<InitAccountOutcomeView, AppErrorView>) {
    let (completed, rows) = state::complete_setup(db, a.account_id, token, email, password_hash, now);
    match rows {
        Err(e) => (completed, Err(AppErrorView::Sqlx(e))),
        Ok(n) => if completion_verdict(n) is Err {
            (completed, Err(completion_verdict(n)->Err_0))
        } else {
            let (after, opened) = open_session_outcome(
                completed,
                a,
                session_id,
                session_text,
                secure,
                now,
            );
            match opened {
                Err(e) => (after, Err(e)),
                Ok(response) => (
                    after,
                    Ok(InitAccountOutcomeView { response, welcome: welcome_mail(email, a) }),
                ),
            }
        },
    }
}

/// Redeems the setup token `token` of a pending account with a password hash
/// that is already computed, and opens a session.
pub fn redeem_setup_token(
    db: &mut Database,
    pending: PendingSetupToken,
    token: &str,
    email: &str,
    password_hash: &str,
    session_id: u128,
    session_text: &str,
    secure: bool,
    now: i64,
) -> (r: Result<InitAccountOutcome, AppError>)
    requires
        old(db).wf(),
        valid_instant(now),
    ensures
        final(db).wf(),
        (final(db)@, result_view(r)) == redeem_setup_outcome(
            old(db)@,
            pending@,
            token@,
            email@,
            password_hash@,
            session_id,
            session_text@,
            secure,
            now,
        ),
{
    let rows = match db.complete_setup(pending.account_id, token, email, password_hash, now) {
        Ok(rows) => rows,
        Err(e) => {
            return Err(AppError::Sqlx(e));
        },
    };
    match setup_completed(rows) {
        Ok(_) => {},
        Err(e) => {
            return Err(e);
        },
    }
    let welcome = welcome_notification(email, &pending);
    match open_session(db, pending, session_id, session_text, secure, now) {
        Ok(response) => Ok(InitAccountOutcome { response, welcome }),
        Err(e) => Err(e),
    }
}

/// The hash of a new password: the password must satisfy the policy and is
/// hashed with `salt`; `failure` is the message where it cannot be hashed.
pub open spec fn new_password_hash(password: Seq<char>, salt: Seq<char>, failure: Seq<char>) -> Result<
    Seq<char>,
    AppErrorView,
> {
    match policy_verdict(password) {
        Err(e) => Err(e),
        Ok(_) => match argon2_phc(password, salt) {
            None => Err(AppErrorView::Validation(failure)),
            Some(hash) => Ok(hash),
        },
    }
}

/// Holds a new password against the policy and hashes it with `salt`. The
/// hash it returns is one that Argon2 accepts for the password.
pub fn hash_new_password(password: &str, salt: &str, failure: &str) -> (r: Result<String, AppError>)
    ensures
        result_view(r) == new_password_hash(password@, salt@, failure@),
        r matches Ok(hash) ==> argon2_accepts(password@, hash@),
{
    match ensure_password_requirements(password) {
        Ok(_) => {},
        Err(e) => {
            return Err(e);
        },
    }
    match argon2_hash(password, salt) {
        Some(hash) => Ok(hash),
        None => Err(AppError::validation(failure)),
    }
}

/// Completing the setup of an account: the token must be redeemable, the
/// password must satisfy the policy and is hashed with `salt`; then the
/// token is redeemed.
pub open spec fn init_account_outcome(
    db: DatabaseView,
    token: Seq<char>,
    email: Seq<char>,
    password: Seq<char>,
    secure: bool,
    now: i64,
    session_id: u128,
    salt: Seq<char>,
) -> (DatabaseView, Result<InitAccountOutcomeView, AppErrorView>) {
    match pending_setup_token(db, token, now) {
        Err(e) => (db, Err(e)),
        Ok(pending) => match new_password_hash(password, salt, "failed to hash password"@) {
            Err(e) => (db, Err(e)),
            Ok(hash) => redeem_setup_outcome(
                db,
                pending,
                token,
                email,
                hash,
                session_id,
                uuid_text(session_id),
                secure,
                now,
            ),
        },
    }
}

/// Whether address and password sign in: the address belongs to an account
/// whose password hash Argon2 accepts for the password.
pub open spec fn signs_in(db: DatabaseView, email: Seq<char>, password: Seq<char>) -> bool {
    credentials_verdict(first_match(db.accounts, state::has_email(email)), password) is Ok
}

/// Completes the setup of an account with the address and password of the
/// request, and opens the session `session_id`. After a setup that
/// succeeded, the address and the password of the request sign in.
pub fn init_account(
    db: &mut Database,
    payload: &InitAccountRequest,
    secure: bool,
    now: i64,
    session_id: u128,
    salt: &str,
) -> (r: Result<InitAccountOutcome, AppError>)
    requires
        old(db).wf(),
        valid_instant(now),
    ensures
        final(db).wf(),
        (final(db)@, result_view(r)) == init_account_outcome(
            old(db)@,
            payload.token@,
            payload.email@,
            payload.password@,
            secure,
            now,
            session_id,
            salt@,
        ),
        r is Ok ==> signs_in(final(db)@, payload.email@, payload.password@),
{
    let pending = match ensure_pending_setup_token(db, payload.token.as_str(), now) {
        Ok(pending) => pending,
        Err(e) => {
            return Err(e);
        },
    };
    let hash = match hash_new_password(payload.password.as_str(), salt, "failed to hash password") {
        Ok(hash) => hash,
        Err(e) => {
            return Err(e);
        },
    };
    let session_text = session_id_text(session_id);
    let ghost before = db@;
    let ghost invitation = pending@;
    let r = redeem_setup_token(
        db,
        pending,
        payload.token.as_str(),
        payload.email.as_str(),
        hash.as_str(),
        session_id,
        session_text.as_str(),
        secure,
        now,
    );
    proof {
        if r is Ok {
            crate::laws::law_completed_account_is_found_by_email(
                before,
                invitation,
                payload.token@,
                payload.email@,
                hash@,
                session_id,
                session_text@,
                secure,
                now,
            );
        }
    }
    r
}

/// Signing out: where the request carries a session cookie, the session it
/// names is removed and the cookie is taken back; a value that is no UUID names
/// no session.
pub open spec fn logout_outcome(db: DatabaseView, cookie_header: Option<Seq<char>>, secure: bool) -> (
    DatabaseView,
    Option<Seq<char>>,
) {
    match cookie_value(cookie_header, "session_id"@) {
        Some(value) => (
            match uuid_parse(value) {
                Some(id) => state::delete_session(db, id),
                None => db,
            },
            Some(expired_cookie_text(secure)),
        ),
        None => (db, None),
    }
}

/// Signs out: removes the session that the request's cookie names.
pub fn logout(db: &mut Database, cookie_header: Option<&str>, secure: bool) -> (r: LogoutResponse)
    requires
        old(db).wf(),
    ensures
        final(db).wf(),
        r.status == STATUS_NO_CONTENT,
        (final(db)@, opt_text(r.set_cookie)) == logout_outcome(
            old(db)@,
            opt_str_text(cookie_header),
            secure,
        ),
{
    match get_cookie(cookie_header, "session_id") {
        Some(value) => {
            match parse_uuid(value.as_str()) {
                Some(id) => {
                    db.delete_session(id);
                },
                None => {},
            }
            LogoutResponse {
                status: STATUS_NO_CONTENT,
                set_cookie: Some(expired_session_cookie(secure)),
            }
        },
        None => LogoutResponse { status: STATUS_NO_CONTENT, set_cookie: None },
    }
}

/// The principal of a request as the client sees it.
pub open spec fn me_outcome(db: DatabaseView, cookie_header: Option<Seq<char>>, now: i64) -> Result<
    AuthUserResponseView,
    AppErrorView,
> {
    match account_of_request(db, cookie_header, now) {
        Ok(a) => Ok(auth_user(db, profile_of(a))),
        Err(e) => Err(e),
    }
}

/// Shows the principal that the request's session stands for.
pub fn me(db: &Database, cookie_header: Option<&str>, now: i64) -> (r: Result<AuthUserResponse, AppError>)
    ensures
        result_view(r) == me_outcome(db@, opt_str_text(cookie_header), now),
{
    match request_account(cookie_header, db, now) {
        Ok(account) => {
            let can_access_newsletter = determine_newsletter_access(
                db,
                account.account_type,
                account.organizer_id,
            );
            Ok(
                AuthUserResponse {
                    account_id: account.id,
                    display_name: account.display_name,
                    account_type: account.account_type,
                    organizer_id: account.organizer_id,
                    can_access_newsletter,
                },
            )
        },
        Err(e) => Err(e),
    }
}

/// Giving an account a new password and ending all its sessions.
pub open spec fn rotate_password_outcome(db: DatabaseView, account_id: i64, password_hash: Seq<char>, now: i64) -> DatabaseView {
    state::delete_sessions_of(state::set_password(db, account_id, password_hash, now), account_id)
}

/// Gives an account a new password hash and ends all its sessions.
pub fn rotate_password(db: &mut Database, account_id: i64, password_hash: &str, now: i64)
    requires
        old(db).wf(),
    ensures
        final(db).wf(),
        final(db)@ == rotate_password_outcome(old(db)@, account_id, password_hash@, now),
{
    db.set_password(account_id, password_hash, now);
    db.delete_sessions_of(account_id);
}

/// The verdict on the current password of an account that wants a new one:
/// the account must have a password, and Argon2 must accept the current one.
pub open spec fn current_password_verdict(stored: Option<Seq<char>>, current_password: Seq<char>) -> Result<
    (),
    AppErrorView,
> {
    match stored {
        None => Err(AppErrorView::Validation("account not initialized"@)),
        Some(hash) => if argon2_accepts(current_password, hash) {
            Ok(())
        } else {
            Err(AppErrorView::Unauthorized("invalid current password"@))
        },
    }
}

/// Holds the current password of an account against its stored hash.
pub fn check_current_password(stored: &Option<String>, current_password: &str) -> (r: Result<
    (),
    AppError,
>)
    ensures
        unit_result_view(r) == current_password_verdict(opt_text(*stored), current_password@),
{
    match stored {
        None => Err(AppError::validation("account not initialized")),
        Some(hash) => {
            if argon2_verify(current_password, hash.as_str()) {
                Ok(())
            } else {
                Err(AppError::unauthorized("invalid current password"))
            }
        },
    }
}

/// Changing the password of the signed-in account: the current password must
/// be accepted and the new one must satisfy the policy; then the new hash is
/// stored and every session of the account ends.
pub open spec fn change_password_outcome(
    db: DatabaseView,
    cookie_header: Option<Seq<char>>,
    current_password: Seq<char>,
    new_password: Seq<char>,
    now: i64,
    salt: Seq<char>,
) -> (DatabaseView, Result<u16, AppErrorView>) {
    match account_of_request(db, cookie_header, now) {
        Err(e) => (db, Err(e)),
        Ok(a) => match current_password_verdict(a.password_hash, current_password) {
            Err(e) => (db, Err(e)),
            Ok(_) => match new_password_hash(new_password, salt, "failed to hash password"@) {
                Err(e) => (db, Err(e)),
                Ok(hash) => (rotate_password_outcome(db, a.id, hash, now), Ok(STATUS_NO_CONTENT)),
            },
        },
    }
}

/// Whether the account `id` exists and Argon2 accepts the password for the
/// hash that it carries.
pub open spec fn account_accepts(db: DatabaseView, id: i64, password: Seq<char>) -> bool {
    &&& exists|x: AccountView| #[trigger] db.accounts.contains(x) && x.id == id
    &&& forall|x: AccountView| #[trigger]
        db.accounts.contains(x) && x.id == id ==> password_accepted(x.password_hash, password)
}

/// Changes the password of the signed-in account and ends all its sessions.
/// After a change that succeeded, the account accepts the new password.
pub fn change_password(
    db: &mut Database,
    cookie_header: Option<&str>,
    payload: &ChangePasswordRequest,
    now: i64,
    salt: &str,
) -> (r: Result<u16, AppError>)
    requires
        old(db).wf(),
    ensures
        final(db).wf(),
        (final(db)@, result_view(r)) == change_password_outcome(
            old(db)@,
            opt_str_text(cookie_header),
            payload.current_password@,
            payload.new_password@,
            now,
            salt@,
        ),
        r is Ok ==> account_accepts(
            final(db)@,
            account_of_request(old(db)@, opt_str_text(cookie_header), now)->Ok_0.id,
            payload.new_password@,
        ),
{
    let account = match request_account(cookie_header, db, now) {
        Ok(account) => account,
        Err(e) => {
            return Err(e);
        },
    };
    match check_current_password(&account.password_hash, payload.current_password.as_str()) {
        Ok(_) => {},
        Err(e) => {
            return Err(e);
        },
    }
    let hash = match hash_new_password(payload.new_password.as_str(), salt, "failed to hash password") {
        Ok(hash) => hash,
        Err(e) => {
            return Err(e);
        },
    };
    proof {
        crate::laws::lemma_account_of_request_is_member(db@, opt_str_text(cookie_header), now);
        crate::laws::law_new_password_is_accepted(
            db@,
            account@,
            hash@,
            payload.new_password@,
            0,
            now,
        );
    }
    rotate_password(db, account.id, hash.as_str(), now);
    Ok(STATUS_NO_CONTENT)
}

/// The account that a password reset is issued to, given the account with the
/// address, if there is one: it must have a password.
pub open spec fn resettable(account: Option<AccountView>) -> Option<AccountView> {
    match account {
        Some(a) => if a.password_hash is Some {
            Some(a)
        } else {
            None
        },
        None => None,
    }
}

/// Decides whether a password reset is issued, given the account with the
/// address.
pub fn resettable_account(account: Option<Account>) -> (r: Option<Account>)
    ensures
        crate::store::opt_account_view(r) == resettable(crate::store::opt_account_view(account)),
{
    match account {
        Some(account) => {
            if account.password_hash.is_some() {
                Some(account)
            } else {
                None
            }
        },
        None => None,
    }
}

/// The mail that carries a reset token, if the token was stored.
pub open spec fn reset_mail(stored: bool, email: Seq<char>, display_name: Seq<char>, reset_token: Seq<char>) -> Option<
    NotificationView,
> {
    if stored {
        Some(NotificationView::PasswordReset { recipient: email, display_name, reset_token })
    } else {
        None
    }
}

/// The answer to a request for a password reset. It is the same whether a
/// token was stored or not; only the mail differs.
pub fn reset_requested(stored: bool, email: &str, display_name: &str, reset_token: &str) -> (r:
    PasswordResetRequested)
    ensures
        r.status == STATUS_NO_CONTENT,
        opt_notification_view(r.email) == reset_mail(stored, email@, display_name@, reset_token@),
{
    if stored {
        PasswordResetRequested {
            status: STATUS_NO_CONTENT,
            email: Some(
                Notification::PasswordReset {
                    recipient: email.to_string(),
                    display_name: display_name.to_string(),
                    reset_token: reset_token.to_string(),
                },
            ),
        }
    } else {
        PasswordResetRequested { status: STATUS_NO_CONTENT, email: None }
    }
}

/// Asking for a password reset. Where the address belongs to an initialized
/// account, its unused reset tokens are removed, `reset_token` is stored for
/// ten minutes and a mail carries it to the address. The answer to the client
/// is the same in every case.
pub open spec fn request_password_reset_outcome(
    db: DatabaseView,
    email: Seq<char>,
    now: i64,
    reset_token: Seq<char>,
) -> (DatabaseView, Option<NotificationView>) {
    match resettable(first_match(db.accounts, state::has_email(email))) {
        Some(a) => {
            let (after, stored) = state::insert_reset_token(
                state::delete_unused_reset_tokens(db, a.id),
                a.id,
                reset_token,
                (now + RESET_TOKEN_TTL_MICROS) as i64,
                now,
            );
            (after, reset_mail(stored is Ok, email, a.display_name, reset_token))
        },
        None => (db, None),
    }
}

/// Asks for a password reset for the address of the request.
pub fn request_password_reset(
    db: &mut Database,
    payload: &RequestPasswordResetRequest,
    now: i64,
    reset_token: String,
) -> (r: PasswordResetRequested)
    requires
        old(db).wf(),
        valid_instant(now),
    ensures
        final(db).wf(),
        r.status == STATUS_NO_CONTENT,
        (final(db)@, opt_notification_view(r.email)) == request_password_reset_outcome(
            old(db)@,
            payload.email@,
            now,
            reset_token@,
        ),
{
    let account = match resettable_account(db.find_account_by_email(payload.email.as_str())) {
        Some(account) => account,
        None => {
            return reset_requested(false, "", "", "");
        },
    };
    db.delete_unused_reset_tokens(account.id);
    let stored = db.insert_reset_token(
        account.id,
        reset_token.clone(),
        now + RESET_TOKEN_TTL_MICROS,
        now,
    ).is_ok();
    reset_requested(
        stored,
        payload.email.as_str(),
        account.display_name.as_str(),
        reset_token.as_str(),
    )
}

/// What the redemption of a reset token that was never used does, with a
/// password hash that is already computed: the hash is stored, the token is
/// marked as used and every session of the account ends.
pub open spec fn redeem_reset_outcome(
    db: DatabaseView,
    token_id: i64,
    account_id: i64,
    password_hash: Seq<char>,
    now: i64,
) -> DatabaseView {
    state::delete_sessions_of(
        state::mark_reset_token_used(
            state::set_password(db, account_id, password_hash, now),
            token_id,
            now,
        ),
        account_id,
    )
}

/// The failure of a reset with a token that is unknown, expired or used. It
/// does not tell the three apart.
pub open spec fn invalid_reset_token() -> AppErrorView {
    AppErrorView::Validation("Invalid or expired reset token"@)
}

/// The verdict on the conditional statement that marks a reset token as used,
/// given the number of rows it changed: none means that the token was used
/// before, or is unknown.
pub open spec fn reset_verdict(rows: nat) -> Result<(), AppErrorView> {
    if rows == 0 {
        Err(invalid_reset_token())
    } else {
        Ok(())
    }
}

/// Decides on the conditional statement that marks a reset token as used,
/// given the number of rows it changed.
pub fn reset_completed(rows: u64) -> (r: Result<(), AppError>)
    ensures
        unit_result_view(r) == reset_verdict(rows as nat),
{
    if rows == 0 {
        Err(AppError::validation("Invalid or expired reset token"))
    } else {
        Ok(())
    }
}

/// Redeeming the reset token `token_id`: where the token was never used, the
/// redemption takes place; where marking it would change no row, the token is
/// refused and nothing changes, the password included.
pub open spec fn reset_redemption(
    db: DatabaseView,
    token_id: i64,
    account_id: i64,
    password_hash: Seq<char>,
    now: i64,
) -> (DatabaseView, Result<(), AppErrorView>) {
    match reset_verdict(state::unused_reset_token_rows(db, token_id)) {
        Err(e) => (db, Err(e)),
        Ok(_) => (redeem_reset_outcome(db, token_id, account_id, password_hash, now), Ok(())),
    }
}

/// Redeems the reset token `token_id` of an account with a password hash that
/// is already computed, unless the token was used before.
pub fn redeem_reset_token(
    db: &mut Database,
    token_id: i64,
    account_id: i64,
    password_hash: &str,
    now: i64,
) -> (r: Result<(), AppError>)
    requires
        old(db).wf(),
    ensures
        final(db).wf(),
        (final(db)@, unit_result_view(r)) == reset_redemption(
            old(db)@,
            token_id,
            account_id,
            password_hash@,
            now,
        ),
{
    match reset_completed(db.unused_reset_token_rows(token_id)) {
        Ok(_) => {},
        Err(e) => {
            return Err(e);
        },
    }
    db.set_password(account_id, password_hash, now);
    db.mark_reset_token_used(token_id, now);
    db.delete_sessions_of(account_id);
    Ok(())
}

/// The refusal of a reset token that is unknown, expired or used.
pub fn reset_token_refused() -> (e: AppError)
    ensures
        e@ == invalid_reset_token(),
{
    AppError::validation("Invalid or expired reset token")
}

/// Setting a new password with a reset token: the token must be unused and
/// unexpired and the password must satisfy the policy; then the token is
/// redeemed.
pub open spec fn reset_password_outcome(
    db: DatabaseView,
    token: Seq<char>,
    new_password: Seq<char>,
    now: i64,
    salt: Seq<char>,
) -> (DatabaseView, Result<u16, AppErrorView>) {
    match state::usable_reset_token(db, token, now) {
        None => (db, Err(invalid_reset_token())),
        Some(found) => match new_password_hash(new_password, salt, "Failed to hash password"@) {
            Err(e) => (db, Err(e)),
            Ok(hash) => (
                redeem_reset_outcome(db, found.0.id, found.0.account_id, hash, now),
                Ok(STATUS_NO_CONTENT),
            ),
        },
    }
}

/// The number of the account that a reset token was issued to.
pub open spec fn reset_account(db: DatabaseView, token: Seq<char>, now: i64) -> i64 {
    match state::usable_reset_token(db, token, now) {
        Some((t, a)) => a.id,
        None => 0,
    }
}

/// Sets a new password with the reset token of the request. After a reset
/// that succeeded, the account of the token accepts the new password.
pub fn reset_password(db: &mut Database, payload: &ResetPasswordRequest, now: i64, salt: &str) -> (r:
    Result<u16, AppError>)
    requires
        old(db).wf(),
    ensures
        final(db).wf(),
        (final(db)@, result_view(r)) == reset_password_outcome(
            old(db)@,
            payload.token@,
            payload.new_password@,
            now,
            salt@,
        ),
        r is Ok ==> account_accepts(
            final(db)@,
            reset_account(old(db)@, payload.token@, now),
            payload.new_password@,
        ),
{
    let found = match db.find_usable_reset_token(payload.token.as_str(), now) {
        Some(found) => found,
        None => {
            return Err(reset_token_refused());
        },
    };
    let hash = match hash_new_password(payload.new_password.as_str(), salt, "Failed to hash password") {
        Ok(hash) => hash,
        Err(e) => {
            return Err(e);
        },
    };
    proof {
        crate::seqs::lemma_first_match_is_member(
            db@.accounts,
            state::has_account_id(found.0.account_id),
        );
        crate::laws::law_new_password_is_accepted(
            db@,
            found.1@,
            hash@,
            payload.new_password@,
            found.0.id,
            now,
        );
    }
    proof {
        crate::seqs::lemma_first_match_is_member(
            db@.reset_tokens,
            state::is_usable_reset_token(payload.token@, now),
        );
        crate::seqs::lemma_filter_members(
            db@.reset_tokens,
            state::is_unused_reset_token(found.0.id),
        );
        assert(db@.reset_tokens.filter(state::is_unused_reset_token(found.0.id)).contains(
            found.0@,
        ));
    }
    match redeem_reset_token(db, found.0.id, found.0.account_id, hash.as_str(), now) {
        Ok(_) => Ok(STATUS_NO_CONTENT),
        Err(e) => Err(e),
    }
}

} // verus!
