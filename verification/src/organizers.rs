//! Inviting organizers and issuing them fresh setup tokens.
use vstd::prelude::*;
use vstd::string::*;
use crate::admin::{invitation_expiry, Invitation, InvitationView};
use crate::auth::{valid_instant, Notification, NotificationView};
use crate::cookies::opt_str_text;
use crate::dto::{CreateOrganizerRequest, UpdateOrganizerRequest, UpdateOrganizerRequestView};
use crate::error::DbErrorView;
use crate::error::{result_view, AppError, AppErrorView, STATUS_CREATED};
use crate::guard::organizer_access;
use crate::guard::{may_act_on_organizer, require_admin, require_organizer_access};
use crate::models::{Account, AccountView, Event, Organizer, OrganizerView};
use crate::policy::unit_result_view;
use crate::queries::{names_field, require_touched, require_updates, touched};
use crate::responses::PublicEventResponse;
use crate::responses::SetupTokenResponse;
use crate::shared::{
    current_user_from_headers, principal_of_request, AuthedUser, SETUP_TOKEN_TTL_MICROS,
};
use crate::state::DatabaseView;
use crate::state;
use crate::store::{opt_account_view, Database};

verus! {

impl View for SetupTokenResponse {
    type V = Seq<char>;

    open spec fn view(&self) -> Seq<char> {
        self.setup_token@
    }
}

/// Inviting an organizer: an administrator must ask; then the organizer and
/// an account without password are stored together, and the account carries
/// `setup_token` for seven days.
pub open spec fn create_organizer_outcome(
    db: DatabaseView,
    cookie_header: Option<Seq<char>>,
    name: Seq<char>,
    email: Seq<char>,
    now: i64,
    setup_token: Seq<char>,
) -> (DatabaseView, Result<InvitationView, AppErrorView>) {
    match principal_of_request(db, cookie_header, now) {
        Err(e) => (db, Err(e)),
        Ok(user) => if !user.is_admin() {
            (db, Err(AppErrorView::Unauthorized("insufficient permissions"@)))
        } else {
            let (after, stored) = state::invite_organizer(
                db,
                name,
                email,
                setup_token,
                invitation_expiry(now),
                now,
            );
            match stored {
                Err(e) => (after, Err(AppErrorView::Sqlx(e))),
                Ok(_) => (
                    after,
                    Ok(
                        InvitationView {
                            status: STATUS_CREATED,
                            setup_token,
                            email: NotificationView::OrganizerInvite {
                                recipient: email,
                                organizer_name: name,
                                setup_token,
                            },
                        },
                    ),
                ),
            }
        },
    }
}

/// Invites an organizer with the name and address of the request.
pub fn create_organizer(
    db: &mut Database,
    cookie_header: Option<&str>,
    payload: &CreateOrganizerRequest,
    now: i64,
    setup_token: String,
) -> (r: Result<Invitation, AppError>)
    requires
        old(db).wf(),
        valid_instant(now),
    ensures
        final(db).wf(),
        (final(db)@, result_view(r)) == create_organizer_outcome(
            old(db)@,
            opt_str_text(cookie_header),
            payload.name@,
            payload.email@,
            now,
            setup_token@,
        ),
{
    let user = match current_user_from_headers(cookie_header, db, now) {
        Ok(user) => user,
        Err(e) => {
            return Err(e);
        },
    };
    match require_admin(&user) {
        Ok(_) => {},
        Err(e) => {
            return Err(e);
        },
    }
    match db.invite_organizer(
        payload.name.as_str(),
        payload.email.as_str(),
        setup_token.as_str(),
        now + SETUP_TOKEN_TTL_MICROS,
        now,
    ) {
        Err(e) => Err(AppError::Sqlx(e)),
        Ok(_) => Ok(
            Invitation {
                status: STATUS_CREATED,
                email: Notification::OrganizerInvite {
                    recipient: payload.email.clone(),
                    organizer_name: payload.name.clone(),
                    setup_token: setup_token.clone(),
                },
                body: SetupTokenResponse { setup_token },
            },
        ),
    }
}

/// Why no account was given a fresh setup token: the organizer has none, or
/// the one it has is initialized.
pub open spec fn untouched_account(account: Option<AccountView>) -> AppErrorView {
    match account {
        None => AppErrorView::NotFound("Organizer account not found"@),
        Some(_) => AppErrorView::Validation("account already initialized"@),
    }
}

/// Decides on the statement that issued a fresh setup token, given the number
/// of rows it changed and, where it changed none, the account of the
/// organizer.
pub fn setup_token_reissued(rows: u64, account: Option<Account>) -> (r: Result<(), AppError>)
    ensures
        unit_result_view(r) == if rows == 0 {
            Err::<(), AppErrorView>(untouched_account(opt_account_view(account)))
        } else {
            Ok::<(), AppErrorView>(())
        },
{
    if rows != 0 {
        Ok(())
    } else {
        match account {
            None => Err(AppError::not_found("Organizer account not found")),
            Some(_) => Err(AppError::validation("account already initialized")),
        }
    }
}

/// Issuing a fresh setup token to an organizer: the organizer itself or an
/// administrator must ask, and the organizer must have an account that has no
/// password yet; then the account carries `setup_token` for seven days. An
/// initialized account is refused and stays as it is.
pub open spec fn generate_setup_token_outcome(
    db: DatabaseView,
    cookie_header: Option<Seq<char>>,
    id: i64,
    now: i64,
    setup_token: Seq<char>,
) -> (DatabaseView, Result<Seq<char>, AppErrorView>) {
    match principal_of_request(db, cookie_header, now) {
        Err(e) => (db, Err(e)),
        Ok(user) => if !may_act_on_organizer(user, id) {
            (db, Err(AppErrorView::Unauthorized("cannot generate token for another organizer"@)))
        } else {
            let (after, changed) = state::reissue_setup_token(
                db,
                id,
                setup_token,
                invitation_expiry(now),
                now,
            );
            match changed {
                Err(e) => (after, Err(AppErrorView::Sqlx(e))),
                Ok(rows) => if rows == 0 {
                    (after, Err(untouched_account(state::account_of_organizer(db, id))))
                } else {
                    (after, Ok(setup_token))
                },
            }
        },
    }
}

/// Issues the fresh setup token `setup_token` to the organizer `id`.
pub fn generate_setup_token(
    db: &mut Database,
    cookie_header: Option<&str>,
    id: i64,
    now: i64,
    setup_token: String,
) -> (r: Result<SetupTokenResponse, AppError>)
    requires
        old(db).wf(),
        valid_instant(now),
    ensures
        final(db).wf(),
        (final(db)@, result_view(r)) == generate_setup_token_outcome(
            old(db)@,
            opt_str_text(cookie_header),
            id,
            now,
            setup_token@,
        ),
{
    let user = match current_user_from_headers(cookie_header, db, now) {
        Ok(user) => user,
        Err(e) => {
            return Err(e);
        },
    };
    match require_organizer_access(&user, id, "cannot generate token for another organizer") {
        Ok(_) => {},
        Err(e) => {
            return Err(e);
        },
    }
    let rows = match db.reissue_setup_token(
        id,
        setup_token.as_str(),
        now + SETUP_TOKEN_TTL_MICROS,
        now,
    ) {
        Ok(rows) => rows,
        Err(e) => {
            return Err(AppError::Sqlx(e));
        },
    };
    let account = if rows == 0 {
        db.find_account_of_organizer(id)
    } else {
        None
    };
    match setup_token_reissued(rows, account) {
        Ok(_) => Ok(SetupTokenResponse { setup_token }),
        Err(e) => Err(e),
    }
}

/// The verdict on a change of an organizer: the organizer itself or an
/// administrator must ask, and the request must name a field.
pub open spec fn organizer_update_verdict(user: AuthedUser, id: i64, names_a_field: bool) -> Result<
    (),
    AppErrorView,
> {
    match organizer_access(user, id, "cannot update another organizer"@) {
        Err(e) => Err(e),
        Ok(_) => names_field(names_a_field),
    }
}

/// Decides whether a principal may change the organizer `id` as the request
/// says.
pub fn check_organizer_update(user: &AuthedUser, id: i64, payload: &UpdateOrganizerRequest) -> (r: Result<
    (),
    AppError,
>)
    ensures
        unit_result_view(r) == organizer_update_verdict(*user, id, payload.names_a_field()),
{
    match require_organizer_access(user, id, "cannot update another organizer") {
        Ok(_) => require_updates(payload.has_updates()),
        Err(e) => Err(e),
    }
}

/// The verdict on the removal of an organizer: the organizer itself or an
/// administrator must ask.
pub open spec fn organizer_delete_verdict(user: AuthedUser, id: i64) -> Result<(), AppErrorView> {
    organizer_access(user, id, "cannot delete another organizer"@)
}

/// Decides whether a principal may remove the organizer `id`.
pub fn check_organizer_delete(user: &AuthedUser, id: i64) -> (r: Result<(), AppError>)
    ensures
        unit_result_view(r) == organizer_delete_verdict(*user, id),
{
    require_organizer_access(user, id, "cannot delete another organizer")
}

/// Decides on the statement that removed an organizer, given the number of
/// rows it removed.
pub fn organizer_deleted(rows: u64) -> (r: Result<u16, AppError>)
    ensures
        match touched(rows as nat, "Organizer not found"@) {
            Ok(_) => r == Ok::<u16, AppError>(crate::error::STATUS_NO_CONTENT),
            Err(e) => r matches Err(err) && err@ == e,
        },
{
    match require_touched(rows, "Organizer not found") {
        Ok(_) => Ok(crate::error::STATUS_NO_CONTENT),
        Err(e) => Err(e),
    }
}

/// Decides on the lookup of an organizer: the organizer, or that there is
/// none.
pub fn organizer_found(found: Option<Organizer>) -> (r: Result<Organizer, AppError>)
    ensures
        match found {
            Some(o) => r == Ok::<Organizer, AppError>(o),
            None => r matches Err(e) && e@ == AppErrorView::NotFound("Organizer not found"@),
        },
{
    match found {
        Some(organizer) => Ok(organizer),
        None => Err(AppError::not_found("Organizer not found")),
    }
}

/// An event as the public sees it, with the name of its organizer. An event
/// without end is shown as ending when it starts.
pub fn public_event(event: Event, organizer_name: String) -> (r: PublicEventResponse)
    ensures
        r.id == event.id,
        r.organizer_id == event.organizer_id,
        r.organizer_name == organizer_name,
        r.title_de == event.title_de,
        r.title_en == event.title_en,
        r.description_de == event.description_de,
        r.description_en == event.description_en,
        r.start_date_time == event.start_date_time,
        r.end_date_time == match event.end_date_time {
            Some(end) => end,
            None => event.start_date_time,
        },
        r.event_url == event.event_url,
        r.location == event.location,
{
    PublicEventResponse {
        id: event.id,
        organizer_id: event.organizer_id,
        organizer_name,
        title_de: event.title_de,
        title_en: event.title_en,
        description_de: event.description_de,
        description_en: event.description_en,
        start_date_time: event.start_date_time,
        end_date_time: match event.end_date_time {
            Some(end) => end,
            None => event.start_date_time,
        },
        event_url: event.event_url,
        location: event.location,
    }
}

/// Reading an organizer: the request must be signed in, and the organizer must
/// exist.
pub open spec fn get_organizer_outcome(db: DatabaseView, cookie_header: Option<Seq<char>>, id: i64, now: i64) -> Result<
    OrganizerView,
    AppErrorView,
> {
    match principal_of_request(db, cookie_header, now) {
        Err(e) => Err(e),
        Ok(_) => match state::organizer_by_id(db, id) {
            Some(o) => Ok(o),
            None => Err(AppErrorView::NotFound("Organizer not found"@)),
        },
    }
}

/// Reads the organizer `id`.
pub fn get_organizer(db: &Database, cookie_header: Option<&str>, id: i64, now: i64) -> (r: Result<
    Organizer,
    AppError,
>)
    ensures
        result_view(r) == get_organizer_outcome(db@, opt_str_text(cookie_header), id, now),
{
    match current_user_from_headers(cookie_header, db, now) {
        Ok(_) => {},
        Err(e) => {
            return Err(e);
        },
    }
    organizer_found(db.find_organizer(id))
}

/// Changing an organizer: the organizer itself or an administrator must ask,
/// the request must name a field, and the organizer must exist; then every
/// field that the request names is changed.
pub open spec fn update_organizer_outcome(
    db: DatabaseView,
    cookie_header: Option<Seq<char>>,
    id: i64,
    names_a_field: bool,
    changes: UpdateOrganizerRequestView,
    now: i64,
) -> (DatabaseView, Result<OrganizerView, AppErrorView>) {
    match principal_of_request(db, cookie_header, now) {
        Err(e) => (db, Err(e)),
        Ok(user) => match organizer_update_verdict(user, id, names_a_field) {
            Err(e) => (db, Err(e)),
            Ok(_) => match state::organizer_by_id(db, id) {
                None => (db, Err(AppErrorView::Sqlx(DbErrorView::RowNotFound))),
                Some(existing) => (
                    state::update_organizer(db, id, changes, now),
                    Ok(state::changed_organizer(existing, changes, now)),
                ),
            },
        },
    }
}

/// Changes the organizer `id` as the request says.
pub fn update_organizer(
    db: &mut Database,
    cookie_header: Option<&str>,
    id: i64,
    payload: &UpdateOrganizerRequest,
    now: i64,
) -> (r: Result<Organizer, AppError>)
    requires
        old(db).wf(),
    ensures
        final(db).wf(),
        (final(db)@, result_view(r)) == update_organizer_outcome(
            old(db)@,
            opt_str_text(cookie_header),
            id,
            payload.names_a_field(),
            payload@,
            now,
        ),
{
    let user = match current_user_from_headers(cookie_header, db, now) {
        Ok(user) => user,
        Err(e) => {
            return Err(e);
        },
    };
    match check_organizer_update(&user, id, payload) {
        Ok(_) => {},
        Err(e) => {
            return Err(e);
        },
    }
    let existing = match db.find_organizer(id) {
        Some(existing) => existing,
        None => {
            return Err(AppError::Sqlx(crate::error::DbError::RowNotFound));
        },
    };
    db.update_organizer(id, payload, now);
    Ok(crate::store::changed_organizer(&existing, payload, now))
}

} // verus!
