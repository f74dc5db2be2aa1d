//! The records the service stores and the rows it shows to administrators.
//!
//! Every instant is a count of microseconds since 1970-01-01T00:00:00Z.
use vstd::prelude::*;
use vstd::string::*;
use crate::text::opt_text;

verus! {

/// The two roles an account can have.
#[derive(Clone, Copy, Debug, PartialEq, Eq, Structural)]
pub enum AccountType {
    Admin,
    Organizer,
}

impl AccountType {
    /// The role's name as shown in mails.
    pub fn label(&self) -> (name: &'static str)
        ensures
            name@ == account_type_label(*self),
    {
        match self {
            AccountType::Admin => "Admin",
            AccountType::Organizer => "Organizer",
        }
    }
}

pub open spec fn account_type_label(t: AccountType) -> Seq<char> {
    match t {
        AccountType::Admin => "Admin"@,
        AccountType::Organizer => "Organizer"@,
    }
}

/// The kind of change an audit entry records.
#[derive(Clone, Copy, Debug, PartialEq, Eq, Structural)]
pub enum AuditType {
    Create,
    Update,
    Delete,
}

/// Where an invitation stands.
#[derive(Clone, Copy, Debug, PartialEq, Eq, Structural)]
pub enum InviteStatus {
    Pending,
    Expired,
    Completed,
}

/// An identity record. It is pending while `password_hash` is absent and
/// initialized once it is present.
#[derive(Clone, Debug)]
pub struct Account {
    pub id: i64,
    pub account_type: AccountType,
    pub organizer_id: Option<i64>,
    pub display_name: String,
    pub email: Option<String>,
    pub password_hash: Option<String>,
    pub setup_token: Option<String>,
    pub setup_token_expires_at: Option<i64>,
    pub created_at: i64,
    pub updated_at: i64,
}

/// Mathematical value of an [`Account`].
pub struct AccountView {
    pub id: i64,
    pub account_type: AccountType,
    pub organizer_id: Option<i64>,
    pub display_name: Seq<char>,
    pub email: Option<Seq<char>>,
    pub password_hash: Option<Seq<char>>,
    pub setup_token: Option<Seq<char>>,
    pub setup_token_expires_at: Option<i64>,
    pub created_at: i64,
    pub updated_at: i64,
}

impl View for Account {
    type V = AccountView;

    open spec fn view(&self) -> AccountView {
        AccountView {
            id: self.id,
            account_type: self.account_type,
            organizer_id: self.organizer_id,
            display_name: self.display_name@,
            email: opt_text(self.email),
            password_hash: opt_text(self.password_hash),
            setup_token: opt_text(self.setup_token),
            setup_token_expires_at: self.setup_token_expires_at,
            created_at: self.created_at,
            updated_at: self.updated_at,
        }
    }
}

impl Account {
    /// A copy of this account.
    pub fn duplicate(&self) -> (copy: Account)
        ensures
            copy@ == self@,
    {
        Account {
            id: self.id,
            account_type: self.account_type,
            organizer_id: self.organizer_id,
            display_name: self.display_name.clone(),
            email: self.email.clone(),
            password_hash: self.password_hash.clone(),
            setup_token: self.setup_token.clone(),
            setup_token_expires_at: self.setup_token_expires_at,
            created_at: self.created_at,
            updated_at: self.updated_at,
        }
    }
}

/// An organizer of events.
#[derive(Clone, Debug)]
pub struct Organizer {
    pub id: i64,
    pub name: String,
    pub description_de: Option<String>,
    pub description_en: Option<String>,
    pub website_url: Option<String>,
    pub instagram_url: Option<String>,
    pub location: Option<String>,
    pub linkedin_url: Option<String>,
    pub registration_number: Option<String>,
    pub non_profit: bool,
    pub newsletter: bool,
    pub created_at: i64,
    pub updated_at: i64,
}

/// Mathematical value of an [`Organizer`].
pub struct OrganizerView {
    pub id: i64,
    pub name: Seq<char>,
    pub description_de: Option<Seq<char>>,
    pub description_en: Option<Seq<char>>,
    pub website_url: Option<Seq<char>>,
    pub instagram_url: Option<Seq<char>>,
    pub location: Option<Seq<char>>,
    pub linkedin_url: Option<Seq<char>>,
    pub registration_number: Option<Seq<char>>,
    pub non_profit: bool,
    pub newsletter: bool,
    pub created_at: i64,
    pub updated_at: i64,
}

impl View for Organizer {
    type V = OrganizerView;

    open spec fn view(&self) -> OrganizerView {
        OrganizerView {
            id: self.id,
            name: self.name@,
            description_de: opt_text(self.description_de),
            description_en: opt_text(self.description_en),
            website_url: opt_text(self.website_url),
            instagram_url: opt_text(self.instagram_url),
            location: opt_text(self.location),
            linkedin_url: opt_text(self.linkedin_url),
            registration_number: opt_text(self.registration_number),
            non_profit: self.non_profit,
            newsletter: self.newsletter,
            created_at: self.created_at,
            updated_at: self.updated_at,
        }
    }
}

impl Organizer {
    /// A copy of this organizer.
    pub fn duplicate(&self) -> (copy: Organizer)
        ensures
            copy@ == self@,
    {
        Organizer {
            id: self.id,
            name: self.name.clone(),
            description_de: self.description_de.clone(),
            description_en: self.description_en.clone(),
            website_url: self.website_url.clone(),
            instagram_url: self.instagram_url.clone(),
            location: self.location.clone(),
            linkedin_url: self.linkedin_url.clone(),
            registration_number: self.registration_number.clone(),
            non_profit: self.non_profit,
            newsletter: self.newsletter,
            created_at: self.created_at,
            updated_at: self.updated_at,
        }
    }
}

/// An event of an organizer, with the channels it is published on.
#[derive(Clone, Debug)]
pub struct Event {
    pub id: i64,
    pub organizer_id: i64,
    pub title_de: String,
    pub title_en: String,
    pub description_de: Option<String>,
    pub description_en: Option<String>,
    pub start_date_time: i64,
    pub end_date_time: Option<i64>,
    pub event_url: Option<String>,
    pub location: Option<String>,
    pub publish_app: bool,
    pub publish_newsletter: bool,
    pub publish_in_ical: bool,
    pub publish_web: bool,
    pub created_at: i64,
    pub updated_at: i64,
}

/// Mathematical value of an [`Event`].
pub struct EventView {
    pub id: i64,
    pub organizer_id: i64,
    pub title_de: Seq<char>,
    pub title_en: Seq<char>,
    pub description_de: Option<Seq<char>>,
    pub description_en: Option<Seq<char>>,
    pub start_date_time: i64,
    pub end_date_time: Option<i64>,
    pub event_url: Option<Seq<char>>,
    pub location: Option<Seq<char>>,
    pub publish_app: bool,
    pub publish_newsletter: bool,
    pub publish_in_ical: bool,
    pub publish_web: bool,
    pub created_at: i64,
    pub updated_at: i64,
}

impl View for Event {
    type V = EventView;

    open spec fn view(&self) -> EventView {
        EventView {
            id: self.id,
            organizer_id: self.organizer_id,
            title_de: self.title_de@,
            title_en: self.title_en@,
            description_de: opt_text(self.description_de),
            description_en: opt_text(self.description_en),
            start_date_time: self.start_date_time,
            end_date_time: self.end_date_time,
            event_url: opt_text(self.event_url),
            location: opt_text(self.location),
            publish_app: self.publish_app,
            publish_newsletter: self.publish_newsletter,
            publish_in_ical: self.publish_in_ical,
            publish_web: self.publish_web,
            created_at: self.created_at,
            updated_at: self.updated_at,
        }
    }
}

impl Event {
    /// A copy of this event.
    pub fn duplicate(&self) -> (copy: Event)
        ensures
            copy@ == self@,
    {
        Event {
            id: self.id,
            organizer_id: self.organizer_id,
            title_de: self.title_de.clone(),
            title_en: self.title_en.clone(),
            description_de: self.description_de.clone(),
            description_en: self.description_en.clone(),
            start_date_time: self.start_date_time,
            end_date_time: self.end_date_time,
            event_url: self.event_url.clone(),
            location: self.location.clone(),
            publish_app: self.publish_app,
            publish_newsletter: self.publish_newsletter,
            publish_in_ical: self.publish_in_ical,
            publish_web: self.publish_web,
            created_at: self.created_at,
            updated_at: self.updated_at,
        }
    }
}

/// An event together with the name and website of its organizer.
#[derive(Clone, Debug)]
pub struct EventWithOrganizer {
    pub id: i64,
    pub organizer_id: i64,
    pub title_de: String,
    pub title_en: String,
    pub description_de: Option<String>,
    pub description_en: Option<String>,
    pub start_date_time: i64,
    pub end_date_time: Option<i64>,
    pub event_url: Option<String>,
    pub location: Option<String>,
    pub publish_app: bool,
    pub publish_newsletter: bool,
    pub publish_in_ical: bool,
    pub publish_web: bool,
    pub created_at: i64,
    pub updated_at: i64,
    pub organizer_name: String,
    pub organizer_website: Option<String>,
}

/// One immutable record of a change to an event. A snapshot is the JSON text
/// of the event before (`old_data`) or after (`new_data`) the change.
#[derive(Clone, Debug)]
pub struct AuditLogEntry {
    pub id: i64,
    pub event_id: i64,
    pub organizer_id: i64,
    pub user_id: Option<i64>,
    pub audit_type: AuditType,
    pub at: i64,
    pub old_data: Option<String>,
    pub new_data: Option<String>,
}

/// Mathematical value of an [`AuditLogEntry`].
pub struct AuditLogEntryView {
    pub id: i64,
    pub event_id: i64,
    pub organizer_id: i64,
    pub user_id: Option<i64>,
    pub audit_type: AuditType,
    pub at: i64,
    pub old_data: Option<Seq<char>>,
    pub new_data: Option<Seq<char>>,
}

impl View for AuditLogEntry {
    type V = AuditLogEntryView;

    open spec fn view(&self) -> AuditLogEntryView {
        AuditLogEntryView {
            id: self.id,
            event_id: self.event_id,
            organizer_id: self.organizer_id,
            user_id: self.user_id,
            audit_type: self.audit_type,
            at: self.at,
            old_data: opt_text(self.old_data),
            new_data: opt_text(self.new_data),
        }
    }
}

impl AuditLogEntry {
    /// A copy of this entry.
    pub fn duplicate(&self) -> (copy: AuditLogEntry)
        ensures
            copy@ == self@,
    {
        AuditLogEntry {
            id: self.id,
            event_id: self.event_id,
            organizer_id: self.organizer_id,
            user_id: self.user_id,
            audit_type: self.audit_type,
            at: self.at,
            old_data: self.old_data.clone(),
            new_data: self.new_data.clone(),
        }
    }
}

/// Whether an entry carries exactly the snapshots its kind calls for: a
/// creation only the new one, a deletion only the old one, an update both.
pub open spec fn snapshots_match_type(e: AuditLogEntryView) -> bool {
    match e.audit_type {
        AuditType::Create => e.old_data is None && e.new_data is Some,
        AuditType::Update => e.old_data is Some && e.new_data is Some,
        AuditType::Delete => e.old_data is Some && e.new_data is None,
    }
}

/// A proof of authentication: the cookie value `id` stands for `account_id`
/// until `expires_at`.
#[derive(Clone, Copy, Debug, PartialEq, Eq, Structural)]
pub struct Session {
    pub id: u128,
    pub account_id: i64,
    pub expires_at: i64,
}

/// A single-use, time-boxed grant to set a new password.
#[derive(Clone, Debug)]
pub struct PasswordResetToken {
    pub id: i64,
    pub account_id: i64,
    pub token: String,
    pub expires_at: i64,
    pub used_at: Option<i64>,
    pub created_at: i64,
}

/// Mathematical value of a [`PasswordResetToken`].
pub struct PasswordResetTokenView {
    pub id: i64,
    pub account_id: i64,
    pub token: Seq<char>,
    pub expires_at: i64,
    pub used_at: Option<i64>,
    pub created_at: i64,
}

impl View for PasswordResetToken {
    type V = PasswordResetTokenView;

    open spec fn view(&self) -> PasswordResetTokenView {
        PasswordResetTokenView {
            id: self.id,
            account_id: self.account_id,
            token: self.token@,
            expires_at: self.expires_at,
            used_at: self.used_at,
            created_at: self.created_at,
        }
    }
}

impl PasswordResetToken {
    /// A copy of this token.
    pub fn duplicate(&self) -> (copy: PasswordResetToken)
        ensures
            copy@ == self@,
    {
        PasswordResetToken {
            id: self.id,
            account_id: self.account_id,
            token: self.token.clone(),
            expires_at: self.expires_at,
            used_at: self.used_at,
            created_at: self.created_at,
        }
    }
}

/// The state of an invitation at `now`: completed once a password is set;
/// pending while a token is set and its expiry lies after `now`; expired
/// otherwise.
pub open spec fn invite_status_at(
    has_password: bool,
    has_token: bool,
    expires_at: Option<i64>,
    now: i64,
) -> InviteStatus {
    if has_password {
        InviteStatus::Completed
    } else if has_token && expires_at is Some && expires_at->0 > now {
        InviteStatus::Pending
    } else {
        InviteStatus::Expired
    }
}

fn invite_status(
    password_hash: &Option<String>,
    setup_token: &Option<String>,
    expires_at: Option<i64>,
    now: i64,
) -> (status: InviteStatus)
    ensures
        status == invite_status_at(password_hash is Some, setup_token is Some, expires_at, now),
{
    if password_hash.is_some() {
        InviteStatus::Completed
    } else if setup_token.is_some() {
        match expires_at {
            Some(when) => if when > now {
                InviteStatus::Pending
            } else {
                InviteStatus::Expired
            },
            None => InviteStatus::Expired,
        }
    } else {
        InviteStatus::Expired
    }
}

/// An organizer as the administration lists it.
#[derive(Clone, Debug)]
pub struct OrganizerWithInvite {
    pub id: i64,
    pub name: String,
    pub email: Option<String>,
    pub created_at: i64,
    pub updated_at: i64,
    pub invite_status: InviteStatus,
    pub invite_expires_at: Option<i64>,
}

/// An organizer joined with the account that was invited for it.
#[derive(Clone, Debug)]
pub struct OrganizerInviteRow {
    pub organizer_id: i64,
    pub organizer_name: String,
    pub account_email: Option<String>,
    pub created_at: i64,
    pub updated_at: i64,
    pub password_hash: Option<String>,
    pub setup_token: Option<String>,
    pub setup_token_expires_at: Option<i64>,
}

/// An administrator as the administration lists it.
#[derive(Clone, Debug)]
pub struct AdminWithInvite {
    pub id: i64,
    pub display_name: String,
    pub email: Option<String>,
    pub created_at: i64,
    pub updated_at: i64,
    pub invite_status: InviteStatus,
    pub invite_expires_at: Option<i64>,
}

/// The columns of an administrator's account that the listing reads.
#[derive(Clone, Debug)]
pub struct AdminInviteRow {
    pub account_id: i64,
    pub display_name: String,
    pub account_email: Option<String>,
    pub created_at: i64,
    pub updated_at: i64,
    pub password_hash: Option<String>,
    pub setup_token: Option<String>,
    pub setup_token_expires_at: Option<i64>,
}

impl OrganizerWithInvite {
    /// The listing entry for a row, with the invitation's state at `now`.
    pub fn from_row(row: OrganizerInviteRow, now: i64) -> (entry: OrganizerWithInvite)
        ensures
            entry == (OrganizerWithInvite {
                id: row.organizer_id,
                name: row.organizer_name,
                email: row.account_email,
                created_at: row.created_at,
                updated_at: row.updated_at,
                invite_status: invite_status_at(
                    row.password_hash is Some,
                    row.setup_token is Some,
                    row.setup_token_expires_at,
                    now,
                ),
                invite_expires_at: row.setup_token_expires_at,
            }),
    {
        let invite_status = invite_status(
            &row.password_hash,
            &row.setup_token,
            row.setup_token_expires_at,
            now,
        );
        OrganizerWithInvite {
            id: row.organizer_id,
            name: row.organizer_name,
            email: row.account_email,
            created_at: row.created_at,
            updated_at: row.updated_at,
            invite_status,
            invite_expires_at: row.setup_token_expires_at,
        }
    }
}

impl AdminWithInvite {
    /// The listing entry for a row, with the invitation's state at `now`.
    pub fn from_row(row: AdminInviteRow, now: i64) -> (entry: AdminWithInvite)
        ensures
            entry == (AdminWithInvite {
                id: row.account_id,
                display_name: row.display_name,
                email: row.account_email,
                created_at: row.created_at,
                updated_at: row.updated_at,
                invite_status: invite_status_at(
                    row.password_hash is Some,
                    row.setup_token is Some,
                    row.setup_token_expires_at,
                    now,
                ),
                invite_expires_at: row.setup_token_expires_at,
            }),
    {
        let invite_status = invite_status(
            &row.password_hash,
            &row.setup_token,
            row.setup_token_expires_at,
            now,
        );
        AdminWithInvite {
            id: row.account_id,
            display_name: row.display_name,
            email: row.account_email,
            created_at: row.created_at,
            updated_at: row.updated_at,
            invite_status,
            invite_expires_at: row.setup_token_expires_at,
        }
    }
}

} // verus!
