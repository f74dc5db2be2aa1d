//! The bodies and query strings that requests carry.
use vstd::prelude::*;
use vstd::string::*;
use crate::text::opt_text;

verus! {

/// Invites an organizer.
#[derive(Debug)]
pub struct CreateOrganizerRequest {
    pub name: String,
    pub email: String,
}

/// Invites an administrator.
#[derive(Debug)]
pub struct InviteAdminRequest {
    pub display_name: String,
    pub email: String,
}

/// Changes the profile of an organizer; an absent field stays as it is.
#[derive(Debug)]
pub struct UpdateOrganizerRequest {
    pub name: Option<String>,
    pub description_de: Option<String>,
    pub description_en: Option<String>,
    pub website_url: Option<String>,
    pub instagram_url: Option<String>,
    pub location: Option<String>,
    pub linkedin_url: Option<String>,
    pub registration_number: Option<String>,
    pub non_profit: Option<bool>,
}

/// Mathematical value of an [`UpdateOrganizerRequest`].
pub struct UpdateOrganizerRequestView {
    pub name: Option<Seq<char>>,
    pub description_de: Option<Seq<char>>,
    pub description_en: Option<Seq<char>>,
    pub website_url: Option<Seq<char>>,
    pub instagram_url: Option<Seq<char>>,
    pub location: Option<Seq<char>>,
    pub linkedin_url: Option<Seq<char>>,
    pub registration_number: Option<Seq<char>>,
    pub non_profit: Option<bool>,
}

impl View for UpdateOrganizerRequest {
    type V = UpdateOrganizerRequestView;

    open spec fn view(&self) -> UpdateOrganizerRequestView {
        UpdateOrganizerRequestView {
            name: opt_text(self.name),
            description_de: opt_text(self.description_de),
            description_en: opt_text(self.description_en),
            website_url: opt_text(self.website_url),
            instagram_url: opt_text(self.instagram_url),
            location: opt_text(self.location),
            linkedin_url: opt_text(self.linkedin_url),
            registration_number: opt_text(self.registration_number),
            non_profit: self.non_profit,
        }
    }
}

impl UpdateOrganizerRequest {
    /// Whether the request names at least one field.
    pub open spec fn names_a_field(&self) -> bool {
        ||| self.name is Some
        ||| self.description_de is Some
        ||| self.description_en is Some
        ||| self.website_url is Some
        ||| self.instagram_url is Some
        ||| self.location is Some
        ||| self.linkedin_url is Some
        ||| self.registration_number is Some
        ||| self.non_profit is Some
    }

    /// Whether the request names at least one field.
    pub fn has_updates(&self) -> (any: bool)
        ensures
            any == self.names_a_field(),
    {
        self.name.is_some() || self.description_de.is_some() || self.description_en.is_some()
            || self.website_url.is_some() || self.instagram_url.is_some() || self.location.is_some()
            || self.linkedin_url.is_some() || self.registration_number.is_some()
            || self.non_profit.is_some()
    }
}

/// Grants or withdraws the permissions of an organizer.
#[derive(Debug)]
pub struct UpdateOrganizerPermissionsRequest {
    pub newsletter: bool,
}

/// Creates an event. The publication flags are on unless the request says
/// otherwise.
#[derive(Debug)]
pub struct CreateEventRequest {
    pub title_de: String,
    pub title_en: String,
    pub description_de: Option<String>,
    pub description_en: Option<String>,
    pub start_date_time: i64,
    pub end_date_time: i64,
    pub event_url: Option<String>,
    pub location: Option<String>,
    pub publish_app: bool,
    pub publish_newsletter: bool,
    pub publish_in_ical: bool,
    pub publish_web: bool,
}

/// Changes an event; an absent field stays as it is.
#[derive(Debug)]
pub struct UpdateEventRequest {
    pub title_de: Option<String>,
    pub title_en: Option<String>,
    pub description_de: Option<String>,
    pub description_en: Option<String>,
    pub start_date_time: Option<i64>,
    pub end_date_time: Option<i64>,
    pub event_url: Option<String>,
    pub location: Option<String>,
    pub publish_app: Option<bool>,
    pub publish_newsletter: Option<bool>,
    pub publish_in_ical: Option<bool>,
    pub publish_web: Option<bool>,
}

/// Mathematical value of a [`CreateEventRequest`].
pub struct CreateEventRequestView {
    pub title_de: Seq<char>,
    pub title_en: Seq<char>,
    pub description_de: Option<Seq<char>>,
    pub description_en: Option<Seq<char>>,
    pub start_date_time: i64,
    pub end_date_time: i64,
    pub event_url: Option<Seq<char>>,
    pub location: Option<Seq<char>>,
    pub publish_app: bool,
    pub publish_newsletter: bool,
    pub publish_in_ical: bool,
    pub publish_web: bool,
}

impl View for CreateEventRequest {
    type V = CreateEventRequestView;

    open spec fn view(&self) -> CreateEventRequestView {
        CreateEventRequestView {
            title_de: self.title_de@,
            title_en: self.title_en@,
            description_de: opt_text(self.description_de),
            description_en: opt_text(self.description_en),
            start_date_time: self.start_date_time,
            end_date_time: self.end_date_time,
            event_url: opt_text(self.event_url),
            location: opt_text(self.location),
            publish_app: self.publish_app,
            publish_newsletter: self.publish_newsletter,
            publish_in_ical: self.publish_in_ical,
            publish_web: self.publish_web,
        }
    }
}

/// Mathematical value of an [`UpdateEventRequest`].
pub struct UpdateEventRequestView {
    pub title_de: Option<Seq<char>>,
    pub title_en: Option<Seq<char>>,
    pub description_de: Option<Seq<char>>,
    pub description_en: Option<Seq<char>>,
    pub start_date_time: Option<i64>,
    pub end_date_time: Option<i64>,
    pub event_url: Option<Seq<char>>,
    pub location: Option<Seq<char>>,
    pub publish_app: Option<bool>,
    pub publish_newsletter: Option<bool>,
    pub publish_in_ical: Option<bool>,
    pub publish_web: Option<bool>,
}

impl View for UpdateEventRequest {
    type V = UpdateEventRequestView;

    open spec fn view(&self) -> UpdateEventRequestView {
        UpdateEventRequestView {
            title_de: opt_text(self.title_de),
            title_en: opt_text(self.title_en),
            description_de: opt_text(self.description_de),
            description_en: opt_text(self.description_en),
            start_date_time: self.start_date_time,
            end_date_time: self.end_date_time,
            event_url: opt_text(self.event_url),
            location: opt_text(self.location),
            publish_app: self.publish_app,
            publish_newsletter: self.publish_newsletter,
            publish_in_ical: self.publish_in_ical,
            publish_web: self.publish_web,
        }
    }
}

impl UpdateEventRequest {
    /// Whether the request names at least one field.
    pub open spec fn names_a_field(&self) -> bool {
        ||| self.title_de is Some
        ||| self.title_en is Some
        ||| self.description_de is Some
        ||| self.description_en is Some
        ||| self.start_date_time is Some
        ||| self.end_date_time is Some
        ||| self.event_url is Some
        ||| self.location is Some
        ||| self.publish_app is Some
        ||| self.publish_newsletter is Some
        ||| self.publish_in_ical is Some
        ||| self.publish_web is Some
    }

    /// Whether the request names at least one field.
    pub fn has_updates(&self) -> (any: bool)
        ensures
            any == self.names_a_field(),
    {
        self.title_de.is_some() || self.title_en.is_some() || self.description_de.is_some()
            || self.description_en.is_some() || self.start_date_time.is_some()
            || self.end_date_time.is_some() || self.event_url.is_some() || self.location.is_some()
            || self.publish_app.is_some() || self.publish_newsletter.is_some()
            || self.publish_in_ical.is_some() || self.publish_web.is_some()
    }
}

/// Selects and pages events.
#[derive(Clone, Copy, Debug)]
pub struct ListEventsQuery {
    pub organizer_id: Option<i64>,
    pub upcoming_only: Option<bool>,
    pub limit: Option<i64>,
    pub offset: Option<i64>,
}

/// Selects and pages audit entries.
#[derive(Clone, Copy, Debug)]
pub struct ListAuditLogsQuery {
    pub event_id: Option<i64>,
    pub organizer_id: Option<i64>,
    pub limit: Option<i64>,
    pub offset: Option<i64>,
}

/// The value of a publication flag that a request leaves out.
pub fn default_true() -> (flag: bool)
    ensures
        flag,
{
    true
}

#[derive(Debug)]
pub struct LoginRequest {
    pub email: String,
    pub password: String,
}

#[derive(Debug)]
pub struct InitAccountRequest {
    pub token: String,
    pub email: String,
    pub password: String,
}

#[derive(Debug)]
pub struct SetupTokenLookupRequest {
    pub token: String,
}

#[derive(Debug)]
pub struct ChangePasswordRequest {
    pub current_password: String,
    pub new_password: String,
}

#[derive(Debug)]
pub struct RequestPasswordResetRequest {
    pub email: String,
}

#[derive(Debug)]
pub struct ResetPasswordRequest {
    pub token: String,
    pub new_password: String,
}

} // verus!
