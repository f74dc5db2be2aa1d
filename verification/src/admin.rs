//! What only administrators do: inviting further administrators and granting
//! permissions to organizers.
use vstd::prelude::*;
use vstd::string::*;
use crate::auth::{valid_instant, Notification, NotificationView};
use crate::cookies::opt_str_text;
use crate::dto::{InviteAdminRequest, UpdateOrganizerPermissionsRequest};
use crate::error::{result_view, AppError, AppErrorView, STATUS_CREATED};
use crate::guard::require_admin;
use crate::models::{
    invite_status_at, Account, AccountType, AccountView, AdminInviteRow, AdminWithInvite,
    InviteStatus, Organizer, OrganizerInviteRow, OrganizerView, OrganizerWithInvite,
};
use crate::ordering::{newest_first, order_newest_first};
use crate::responses::SetupTokenResponse;
use crate::shared::{current_user_from_headers, principal_of_request, SETUP_TOKEN_TTL_MICROS};
use crate::state::DatabaseView;
use crate::state;
use crate::store::Database;
use crate::text::opt_text;

verus! {

/// An invitation that was stored: the answer to the administrator, and the
/// mail that carries the setup token to the invited address.
#[derive(Debug)]
pub struct Invitation {
    pub status: u16,
    pub body: SetupTokenResponse,
    pub email: Notification,
}

/// Mathematical value of an [`Invitation`].
pub struct InvitationView {
    pub status: u16,
    pub setup_token: Seq<char>,
    pub email: NotificationView,
}

impl View for Invitation {
    type V = InvitationView;

    open spec fn view(&self) -> InvitationView {
        InvitationView {
            status: self.status,
            setup_token: self.body.setup_token@,
            email: self.email@,
        }
    }
}

/// The instant at which an invitation issued at `now` expires.
pub open spec fn invitation_expiry(now: i64) -> i64 {
    (now + SETUP_TOKEN_TTL_MICROS) as i64
}

/// Inviting an administrator: an administrator must ask; then an account
/// without password is stored that carries `setup_token` for seven days.
pub open spec fn invite_admin_outcome(
    db: DatabaseView,
    cookie_header: Option<Seq<char>>,
    display_name: Seq<char>,
    email: Seq<char>,
    now: i64,
    setup_token: Seq<char>,
) -> (DatabaseView, Result<InvitationView, AppErrorView>) {
    match principal_of_request(db, cookie_header, now) {
        Err(e) => (db, Err(e)),
        Ok(user) => if !user.is_admin() {
            (db, Err(AppErrorView::Unauthorized("insufficient permissions"@)))
        } else {
            let (after, stored) = state::insert_account(
                db,
                AccountType::Admin,
                None,
                display_name,
                email,
                setup_token,
                invitation_expiry(now),
                now,
            );
            match stored {
                Err(e) => (after, Err(AppErrorView::Sqlx(e))),
                Ok(_) => (
                    after,
                    Ok(
                        InvitationView {
                            status: STATUS_CREATED,
                            setup_token,
                            email: NotificationView::AdminInvite {
                                recipient: email,
                                display_name,
                                setup_token,
                            },
                        },
                    ),
                ),
            }
        },
    }
}

/// Invites an administrator with the name and address of the request.
pub fn invite_admin(
    db: &mut Database,
    cookie_header: Option<&str>,
    payload: &InviteAdminRequest,
    now: i64,
    setup_token: String,
) -> (r: Result<Invitation, AppError>)
    requires
        old(db).wf(),
        valid_instant(now),
    ensures
        final(db).wf(),
        (final(db)@, result_view(r)) == invite_admin_outcome(
            old(db)@,
            opt_str_text(cookie_header),
            payload.display_name@,
            payload.email@,
            now,
            setup_token@,
        ),
{
    let user = match current_user_from_headers(cookie_header, db, now) {
        Ok(user) => user,
        Err(e) => {
            return Err(e);
        },
    };
    match require_admin(&user) {
        Ok(_) => {},
        Err(e) => {
            return Err(e);
        },
    }
    match db.insert_account(
        AccountType::Admin,
        None,
        payload.display_name.clone(),
        payload.email.clone(),
        setup_token.clone(),
        now + SETUP_TOKEN_TTL_MICROS,
        now,
    ) {
        Err(e) => Err(AppError::Sqlx(e)),
        Ok(_) => Ok(
            Invitation {
                status: STATUS_CREATED,
                email: Notification::AdminInvite {
                    recipient: payload.email.clone(),
                    display_name: payload.display_name.clone(),
                    setup_token: setup_token.clone(),
                },
                body: SetupTokenResponse { setup_token },
            },
        ),
    }
}

/// Mathematical value of an [`OrganizerWithInvite`].
pub struct OrganizerWithInviteView {
    pub id: i64,
    pub name: Seq<char>,
    pub email: Option<Seq<char>>,
    pub created_at: i64,
    pub updated_at: i64,
    pub invite_status: InviteStatus,
    pub invite_expires_at: Option<i64>,
}

impl View for OrganizerWithInvite {
    type V = OrganizerWithInviteView;

    open spec fn view(&self) -> OrganizerWithInviteView {
        OrganizerWithInviteView {
            id: self.id,
            name: self.name@,
            email: opt_text(self.email),
            created_at: self.created_at,
            updated_at: self.updated_at,
            invite_status: self.invite_status,
            invite_expires_at: self.invite_expires_at,
        }
    }
}

/// An organizer as the administration lists it at `now`, given the account
/// that was invited for it, if there is one.
pub open spec fn organizer_entry(o: OrganizerView, account: Option<AccountView>, now: i64) -> OrganizerWithInviteView {
    OrganizerWithInviteView {
        id: o.id,
        name: o.name,
        email: match account {
            Some(a) => a.email,
            None => None,
        },
        created_at: o.created_at,
        updated_at: o.updated_at,
        invite_status: match account {
            Some(a) => invite_status_at(
                a.password_hash is Some,
                a.setup_token is Some,
                a.setup_token_expires_at,
                now,
            ),
            None => InviteStatus::Expired,
        },
        invite_expires_at: match account {
            Some(a) => a.setup_token_expires_at,
            None => None,
        },
    }
}

/// Granting or withdrawing the newsletter permission of an organizer: an
/// administrator must ask and the organizer must exist; the answer shows the
/// organizer as the administration lists it.
pub open spec fn update_organizer_permissions_outcome(
    db: DatabaseView,
    cookie_header: Option<Seq<char>>,
    id: i64,
    newsletter: bool,
    now: i64,
) -> (DatabaseView, Result<OrganizerWithInviteView, AppErrorView>) {
    match principal_of_request(db, cookie_header, now) {
        Err(e) => (db, Err(e)),
        Ok(user) => if !user.is_admin() {
            (db, Err(AppErrorView::Unauthorized("insufficient permissions"@)))
        } else if state::count_organizers(db, id) == 0 {
            (db, Err(AppErrorView::NotFound("Organizer not found"@)))
        } else {
            let after = state::set_organizer_newsletter(db, id, newsletter, now);
            match state::organizer_by_id(after, id) {
                None => (after, Err(AppErrorView::Sqlx(crate::error::DbErrorView::RowNotFound))),
                Some(o) => (
                    after,
                    Ok(organizer_entry(o, state::account_of_organizer(after, id), now)),
                ),
            }
        },
    }
}

/// Grants or withdraws the newsletter permission of the organizer `id`.
pub fn update_organizer_permissions(
    db: &mut Database,
    cookie_header: Option<&str>,
    id: i64,
    payload: &UpdateOrganizerPermissionsRequest,
    now: i64,
) -> (r: Result<OrganizerWithInvite, AppError>)
    requires
        old(db).wf(),
    ensures
        final(db).wf(),
        (final(db)@, result_view(r)) == update_organizer_permissions_outcome(
            old(db)@,
            opt_str_text(cookie_header),
            id,
            payload.newsletter,
            now,
        ),
{
    let user = match current_user_from_headers(cookie_header, db, now) {
        Ok(user) => user,
        Err(e) => {
            return Err(e);
        },
    };
    match require_admin(&user) {
        Ok(_) => {},
        Err(e) => {
            return Err(e);
        },
    }
    let ghost before = db@;
    let rows = db.set_organizer_newsletter(id, payload.newsletter, now);
    if rows == 0 {
        proof {
            crate::seqs::lemma_filter_none_is_identity(
                before.organizers,
                state::has_organizer_id(id),
                |o: OrganizerView|
                    if o.id == id {
                        OrganizerView { newsletter: payload.newsletter, updated_at: now, ..o }
                    } else {
                        o
                    },
            );
        }
        return Err(AppError::not_found("Organizer not found"));
    }
    let organizer = match db.find_organizer(id) {
        Some(organizer) => organizer,
        None => {
            return Err(AppError::Sqlx(crate::error::DbError::RowNotFound));
        },
    };
    let account = db.find_account_of_organizer(id);
    Ok(organizer_listing(organizer, account, now))
}

/// Mathematical value of an [`AdminWithInvite`].
pub struct AdminWithInviteView {
    pub id: i64,
    pub display_name: Seq<char>,
    pub email: Option<Seq<char>>,
    pub created_at: i64,
    pub updated_at: i64,
    pub invite_status: InviteStatus,
    pub invite_expires_at: Option<i64>,
}

impl View for AdminWithInvite {
    type V = AdminWithInviteView;

    open spec fn view(&self) -> AdminWithInviteView {
        AdminWithInviteView {
            id: self.id,
            display_name: self.display_name@,
            email: opt_text(self.email),
            created_at: self.created_at,
            updated_at: self.updated_at,
            invite_status: self.invite_status,
            invite_expires_at: self.invite_expires_at,
        }
    }
}

/// An administrator as the administration lists it at `now`.
pub open spec fn admin_entry(a: AccountView, now: i64) -> AdminWithInviteView {
    AdminWithInviteView {
        id: a.id,
        display_name: a.display_name,
        email: a.email,
        created_at: a.created_at,
        updated_at: a.updated_at,
        invite_status: invite_status_at(
            a.password_hash is Some,
            a.setup_token is Some,
            a.setup_token_expires_at,
            now,
        ),
        invite_expires_at: a.setup_token_expires_at,
    }
}

/// The instants at which accounts were stored.
pub open spec fn account_created_at(accounts: Seq<AccountView>) -> Seq<i64> {
    accounts.map_values(|a: AccountView| a.created_at)
}

/// The administrators as the administration lists them at `now`: those stored
/// last first.
pub open spec fn listed_admins(accounts: Seq<AccountView>, now: i64) -> Seq<AdminWithInviteView> {
    let admins = accounts.filter(state::has_account_type(AccountType::Admin));
    newest_first(account_created_at(admins), admins.len()).map_values(
        |p: int| admin_entry(admins[p], now),
    )
}

/// Listing the administrators: an administrator must ask.
pub open spec fn list_admins_outcome(db: DatabaseView, cookie_header: Option<Seq<char>>, now: i64) -> Result<
    Seq<AdminWithInviteView>,
    AppErrorView,
> {
    match principal_of_request(db, cookie_header, now) {
        Err(e) => Err(e),
        Ok(user) => if !user.is_admin() {
            Err(AppErrorView::Unauthorized("insufficient permissions"@))
        } else {
            Ok(listed_admins(db.accounts, now))
        },
    }
}

pub open spec fn admin_views(rows: Seq<AdminWithInvite>) -> Seq<AdminWithInviteView> {
    rows.map_values(|a: AdminWithInvite| a@)
}

/// The mathematical value of the outcome of listing the administrators.
pub open spec fn admins_result_view(r: Result<Vec<AdminWithInvite>, AppError>) -> Result<
    Seq<AdminWithInviteView>,
    AppErrorView,
> {
    match r {
        Ok(rows) => Ok(admin_views(rows@)),
        Err(e) => Err(e@),
    }
}

/// The entry of the listing for an account of an administrator.
pub fn admin_listing(account: Account, now: i64) -> (entry: AdminWithInvite)
    ensures
        entry@ == admin_entry(account@, now),
{
    AdminWithInvite::from_row(
        AdminInviteRow {
            account_id: account.id,
            display_name: account.display_name,
            account_email: account.email,
            created_at: account.created_at,
            updated_at: account.updated_at,
            password_hash: account.password_hash,
            setup_token: account.setup_token,
            setup_token_expires_at: account.setup_token_expires_at,
        },
        now,
    )
}

/// Lists the administrators with the state of their invitations at `now`.
pub fn list_admins(db: &Database, cookie_header: Option<&str>, now: i64) -> (r: Result<
    Vec<AdminWithInvite>,
    AppError,
>)
    ensures
        admins_result_view(r) == list_admins_outcome(db@, opt_str_text(cookie_header), now),
{
    let user = match current_user_from_headers(cookie_header, db, now) {
        Ok(user) => user,
        Err(e) => {
            return Err(e);
        },
    };
    match require_admin(&user) {
        Ok(_) => {},
        Err(e) => {
            return Err(e);
        },
    }
    let admins = db.accounts_of_type(AccountType::Admin);
    let ghost views = crate::store::account_views(admins@);
    let mut instants: Vec<i64> = Vec::new();
    let mut i: usize = 0;
    while i < admins.len()
        invariant
            i <= admins.len(),
            views == crate::store::account_views(admins@),
            instants@ == account_created_at(views.subrange(0, i as int)),
        decreases admins.len() - i,
    {
        instants.push(admins[i].created_at);
        assert(instants@ =~= account_created_at(views.subrange(0, i + 1)));
        i = i + 1;
    }
    proof {
        crate::seqs::lemma_subrange_all(views);
        crate::ordering::law_newest_first_orders_all_rows(instants@, instants@.len());
    }
    let order = order_newest_first(&instants);
    let ghost positions = order@.map_values(|p: usize| p as int);
    let mut entries: Vec<AdminWithInvite> = Vec::new();
    let mut k: usize = 0;
    while k < order.len()
        invariant
            k <= order.len(),
            views == crate::store::account_views(admins@),
            positions == order@.map_values(|p: usize| p as int),
            crate::ordering::holds_positions(positions, admins@.len() as nat),
            admin_views(entries@) == positions.subrange(0, k as int).map_values(
                |p: int| admin_entry(views[p], now),
            ),
        decreases order.len() - k,
    {
        assert(0 <= positions[k as int] < admins@.len());
        let ghost earlier = admin_views(entries@);
        entries.push(admin_listing(admins[order[k]].duplicate(), now));
        assert(admin_views(entries@) =~= earlier.push(admin_entry(views[positions[k as int]], now)));
        assert(admin_views(entries@) =~= positions.subrange(0, k + 1).map_values(
            |p: int| admin_entry(views[p], now),
        ));
        k = k + 1;
    }
    proof {
        crate::seqs::lemma_subrange_all(positions);
    }
    Ok(entries)
}

/// The instants at which organizers were stored.
pub open spec fn organizer_created_at(organizers: Seq<OrganizerView>) -> Seq<i64> {
    organizers.map_values(|o: OrganizerView| o.created_at)
}

/// The organizers as the administration lists them at `now`: those stored last
/// first, each with the state of the invitation of its account.
pub open spec fn listed_organizers(db: DatabaseView, now: i64) -> Seq<OrganizerWithInviteView> {
    newest_first(organizer_created_at(db.organizers), db.organizers.len()).map_values(
        |p: int|
            organizer_entry(
                db.organizers[p],
                state::account_of_organizer(db, db.organizers[p].id),
                now,
            ),
    )
}

/// Listing the organizers for the administration: an administrator must ask.
pub open spec fn list_organizers_admin_outcome(
    db: DatabaseView,
    cookie_header: Option<Seq<char>>,
    now: i64,
) -> Result<Seq<OrganizerWithInviteView>, AppErrorView> {
    match principal_of_request(db, cookie_header, now) {
        Err(e) => Err(e),
        Ok(user) => if !user.is_admin() {
            Err(AppErrorView::Unauthorized("insufficient permissions"@))
        } else {
            Ok(listed_organizers(db, now))
        },
    }
}

pub open spec fn organizer_entry_views(rows: Seq<OrganizerWithInvite>) -> Seq<OrganizerWithInviteView> {
    rows.map_values(|o: OrganizerWithInvite| o@)
}

/// The mathematical value of the outcome of listing the organizers.
pub open spec fn organizers_result_view(r: Result<Vec<OrganizerWithInvite>, AppError>) -> Result<
    Seq<OrganizerWithInviteView>,
    AppErrorView,
> {
    match r {
        Ok(rows) => Ok(organizer_entry_views(rows@)),
        Err(e) => Err(e@),
    }
}

/// The entry of the listing for an organizer and the account that was invited
/// for it, if there is one.
pub fn organizer_listing(organizer: Organizer, account: Option<Account>, now: i64) -> (entry:
    OrganizerWithInvite)
    ensures
        entry@ == organizer_entry(organizer@, crate::store::opt_account_view(account), now),
{
    let row = match account {
        Some(account) => OrganizerInviteRow {
            organizer_id: organizer.id,
            organizer_name: organizer.name,
            account_email: account.email,
            created_at: organizer.created_at,
            updated_at: organizer.updated_at,
            password_hash: account.password_hash,
            setup_token: account.setup_token,
            setup_token_expires_at: account.setup_token_expires_at,
        },
        None => OrganizerInviteRow {
            organizer_id: organizer.id,
            organizer_name: organizer.name,
            account_email: None,
            created_at: organizer.created_at,
            updated_at: organizer.updated_at,
            password_hash: None,
            setup_token: None,
            setup_token_expires_at: None,
        },
    };
    OrganizerWithInvite::from_row(row, now)
}

/// Lists the organizers with the state of their invitations at `now`.
pub fn list_organizers_admin(db: &Database, cookie_header: Option<&str>, now: i64) -> (r: Result<
    Vec<OrganizerWithInvite>,
    AppError,
>)
    ensures
        organizers_result_view(r) == list_organizers_admin_outcome(
            db@,
            opt_str_text(cookie_header),
            now,
        ),
{
    let user = match current_user_from_headers(cookie_header, db, now) {
        Ok(user) => user,
        Err(e) => {
            return Err(e);
        },
    };
    match require_admin(&user) {
        Ok(_) => {},
        Err(e) => {
            return Err(e);
        },
    }
    let organizers = db.all_organizers();
    let ghost views = db@.organizers;
    let mut instants: Vec<i64> = Vec::new();
    let mut i: usize = 0;
    while i < organizers.len()
        invariant
            i <= organizers.len(),
            views == crate::store::organizer_views(organizers@),
            instants@ == organizer_created_at(views.subrange(0, i as int)),
        decreases organizers.len() - i,
    {
        instants.push(organizers[i].created_at);
        assert(instants@ =~= organizer_created_at(views.subrange(0, i + 1)));
        i = i + 1;
    }
    proof {
        crate::seqs::lemma_subrange_all(views);
        crate::ordering::law_newest_first_orders_all_rows(instants@, instants@.len());
    }
    let order = order_newest_first(&instants);
    let ghost positions = order@.map_values(|p: usize| p as int);
    let mut entries: Vec<OrganizerWithInvite> = Vec::new();
    let mut k: usize = 0;
    while k < order.len()
        invariant
            k <= order.len(),
            views == db@.organizers,
            views == crate::store::organizer_views(organizers@),
            positions == order@.map_values(|p: usize| p as int),
            crate::ordering::holds_positions(positions, organizers@.len() as nat),
            organizer_entry_views(entries@) == positions.subrange(0, k as int).map_values(
                |p: int|
                    organizer_entry(
                        db@.organizers[p],
                        state::account_of_organizer(db@, db@.organizers[p].id),
                        now,
                    ),
            ),
        decreases order.len() - k,
    {
        assert(0 <= positions[k as int] < organizers@.len());
        let ghost earlier = organizer_entry_views(entries@);
        let organizer = organizers[order[k]].duplicate();
        let account = db.find_account_of_organizer(organizer.id);
        entries.push(organizer_listing(organizer, account, now));
        assert(organizer_entry_views(entries@) =~= earlier.push(
            organizer_entry(
                views[positions[k as int]],
                state::account_of_organizer(db@, views[positions[k as int]].id),
                now,
            ),
        ));
        assert(organizer_entry_views(entries@) =~= positions.subrange(0, k + 1).map_values(
            |p: int|
                organizer_entry(
                    db@.organizers[p],
                    state::account_of_organizer(db@, db@.organizers[p].id),
                    now,
                ),
        ));
        k = k + 1;
    }
    proof {
        crate::seqs::lemma_subrange_all(positions);
    }
    Ok(entries)
}

} // verus!
