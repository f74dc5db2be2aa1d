//! What every protected operation starts with: finding out who asks.
use vstd::prelude::*;
use vstd::string::*;
use crate::cookies::{cookie_value, get_cookie, opt_str_text};
use crate::error::{result_view, AppError, AppErrorView};
use crate::models::{Account, AccountType, AccountView};
use crate::state::DatabaseView;
use crate::state;
use crate::store::{opt_account_view, Database};
use crate::text::opt_text;
use crate::trusted::{
    base64_len, base64_url_no_pad, encode_base64_url_no_pad, format_uuid, is_url_safe_text,
    parse_uuid, thread_random_bytes, uuid_parse, uuid_text,
};

verus! {

/// The number of random bytes in a setup token or a reset token.
pub const TOKEN_BYTES: usize = 32;

/// How long an invitation can be redeemed, in microseconds: seven days.
pub const SETUP_TOKEN_TTL_MICROS: i64 = 604800000000;

/// The authenticated principal of a request.
#[derive(Clone, Copy, Debug, PartialEq, Eq, Structural)]
pub struct AuthedUser {
    pub account_id: i64,
    pub account_type: AccountType,
    pub organizer_id: Option<i64>,
}

impl View for AuthedUser {
    type V = AuthedUser;

    open spec fn view(&self) -> AuthedUser {
        *self
    }
}

impl AuthedUser {
    pub open spec fn spec_is_admin(&self) -> bool {
        self.account_type == AccountType::Admin
    }

    /// Whether the principal is an administrator.
    #[verifier::when_used_as_spec(spec_is_admin)]
    pub fn is_admin(&self) -> (admin: bool)
        ensures
            admin == self.spec_is_admin(),
    {
        self.account_type == AccountType::Admin
    }

    /// The organizer the principal acts for, if any.
    pub fn organizer_id(&self) -> (id: Option<i64>)
        ensures
            id == self.organizer_id,
    {
        self.organizer_id
    }
}

/// The principal that an account stands for.
pub open spec fn principal_of(a: AccountView) -> AuthedUser {
    AuthedUser { account_id: a.id, account_type: a.account_type, organizer_id: a.organizer_id }
}

/// The account that a session identifier stands for at `now`; a session that
/// is unknown or has expired is unauthorized.
pub open spec fn account_of_session(db: DatabaseView, session_id: u128, now: i64) -> Result<
    AccountView,
    AppErrorView,
> {
    match state::session_account(db, session_id, now) {
        Some(a) => Ok(a),
        None => Err(AppErrorView::Unauthorized("invalid or expired session"@)),
    }
}

/// The session identifier that a request's `Cookie` header carries. The header
/// must give a value to `session_id`, and the value must be a UUID.
pub open spec fn session_id_of_request(cookie_header: Option<Seq<char>>) -> Result<u128, AppErrorView> {
    match cookie_value(cookie_header, "session_id"@) {
        None => Err(AppErrorView::Unauthorized("missing session"@)),
        Some(value) => match uuid_parse(value) {
            None => Err(AppErrorView::Unauthorized("invalid session format"@)),
            Some(session_id) => Ok(session_id),
        },
    }
}

/// The account that a request's `Cookie` header stands for at `now`. The
/// header must carry a `session_id` that is a UUID and names a session that
/// has not expired.
pub open spec fn account_of_request(db: DatabaseView, cookie_header: Option<Seq<char>>, now: i64) -> Result<
    AccountView,
    AppErrorView,
> {
    match session_id_of_request(cookie_header) {
        Err(e) => Err(e),
        Ok(session_id) => account_of_session(db, session_id, now),
    }
}

/// The principal that a request's `Cookie` header stands for at `now`.
pub open spec fn principal_of_request(
    db: DatabaseView,
    cookie_header: Option<Seq<char>>,
    now: i64,
) -> Result<AuthedUser, AppErrorView> {
    match account_of_request(db, cookie_header, now) {
        Ok(a) => Ok(principal_of(a)),
        Err(e) => Err(e),
    }
}

/// The mathematical value of the outcome of reading a session identifier.
pub open spec fn session_id_view(r: Result<u128, AppError>) -> Result<u128, AppErrorView> {
    match r {
        Ok(id) => Ok(id),
        Err(e) => Err(e@),
    }
}

/// The session identifier that a cookie value denotes.
pub open spec fn session_id_of_value(value: Option<Seq<char>>, parsed: Option<u128>) -> Result<
    u128,
    AppErrorView,
> {
    match value {
        None => Err(AppErrorView::Unauthorized("missing session"@)),
        Some(_) => match parsed {
            None => Err(AppErrorView::Unauthorized("invalid session format"@)),
            Some(session_id) => Ok(session_id),
        },
    }
}

/// Decides on a session cookie, given its value and the identifier that the
/// value denotes, if it denotes one.
pub fn session_id_from(value: &Option<String>, parsed: Option<u128>) -> (r: Result<u128, AppError>)
    ensures
        session_id_view(r) == session_id_of_value(opt_text(*value), parsed),
{
    match value {
        None => Err(AppError::unauthorized("missing session")),
        Some(_) => match parsed {
            None => Err(AppError::unauthorized("invalid session format")),
            Some(session_id) => Ok(session_id),
        },
    }
}

/// Reads the session identifier from the `Cookie` header of a request.
pub fn request_session_id(cookie_header: Option<&str>) -> (r: Result<u128, AppError>)
    ensures
        session_id_view(r) == session_id_of_request(opt_str_text(cookie_header)),
{
    let value = get_cookie(cookie_header, "session_id");
    let parsed = match &value {
        Some(text) => parse_uuid(text.as_str()),
        None => None,
    };
    session_id_from(&value, parsed)
}

/// The account that the lookup of a session found; none is unauthorized.
pub open spec fn authenticated_account(found: Option<AccountView>) -> Result<AccountView, AppErrorView> {
    match found {
        Some(a) => Ok(a),
        None => Err(AppErrorView::Unauthorized("invalid or expired session"@)),
    }
}

/// Decides on the lookup of a session: the account it found, or the refusal.
pub fn authenticated(found: Option<Account>) -> (r: Result<Account, AppError>)
    ensures
        result_view(r) == authenticated_account(opt_account_view(found)),
{
    match found {
        Some(account) => Ok(account),
        None => Err(AppError::unauthorized("invalid or expired session")),
    }
}

/// Resolves a session identifier to its account.
pub fn session_account(db: &Database, session_id: u128, now: i64) -> (r: Result<Account, AppError>)
    ensures
        result_view(r) == account_of_session(db@, session_id, now),
{
    authenticated(db.find_session_account(session_id, now))
}

/// The principal that an account stands for.
pub fn principal(account: &Account) -> (user: AuthedUser)
    ensures
        user == principal_of(account@),
{
    AuthedUser {
        account_id: account.id,
        account_type: account.account_type,
        organizer_id: account.organizer_id,
    }
}

/// Resolves the session cookie of a request to its account.
pub fn request_account(cookie_header: Option<&str>, db: &Database, now: i64) -> (r: Result<
    Account,
    AppError,
>)
    ensures
        result_view(r) == account_of_request(db@, opt_str_text(cookie_header), now),
{
    match request_session_id(cookie_header) {
        Ok(session_id) => session_account(db, session_id, now),
        Err(e) => Err(e),
    }
}

/// Resolves the session cookie of a request to the principal it stands for.
pub fn current_user_from_headers(cookie_header: Option<&str>, db: &Database, now: i64) -> (r: Result<
    AuthedUser,
    AppError,
>)
    ensures
        result_view(r) == principal_of_request(db@, opt_str_text(cookie_header), now),
{
    match request_account(cookie_header, db, now) {
        Ok(account) => Ok(principal(&account)),
        Err(e) => Err(e),
    }
}

/// The text of a session identifier, as a cookie carries it. Read back from
/// a cookie, it is the same identifier.
pub fn session_id_text(session_id: u128) -> (text: String)
    ensures
        text@ == uuid_text(session_id),
        uuid_parse(text@) == Some(session_id),
{
    format_uuid(session_id)
}

/// The setup token that encodes the given bytes.
pub fn setup_token_from_bytes(bytes: &Vec<u8>) -> (token: String)
    ensures
        token@ == base64_url_no_pad(bytes@),
        token@.len() == base64_len(bytes@.len()),
        is_url_safe_text(token@),
        forall|other: Seq<u8>| #[trigger] base64_url_no_pad(other) == token@ ==> other == bytes@,
{
    encode_base64_url_no_pad(bytes)
}

/// A fresh setup token: thirty-two random bytes in URL-safe base64.
pub fn generate_setup_token_value() -> (token: String)
    ensures
        exists|bytes: Seq<u8>| bytes.len() == TOKEN_BYTES && token@ == base64_url_no_pad(bytes),
        token@.len() == base64_len(TOKEN_BYTES as nat),
        is_url_safe_text(token@),
{
    let bytes = thread_random_bytes(TOKEN_BYTES);
    setup_token_from_bytes(&bytes)
}

} // verus!
